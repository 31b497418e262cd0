//! Where the library meets code that is not verified here: the JSON decoder
//! and the lossy decoding of captured bytes. What stands in this file is
//! believed, not proved.

use vstd::prelude::*;

verus! {

/// A decoded JSON document. Nothing inside it is read here: it is carried
/// from the decoder to the subscriber.
#[verifier::external_type_specification]
#[verifier::external_body]
pub struct ExJsonValue(serde_json::Value);

/// Why a text is not a JSON document.
#[verifier::external_type_specification]
#[verifier::external_body]
pub struct ExJsonError(serde_json::Error);

/// What `serde_json::from_str::<serde_json::Value>` makes of a text: the
/// document it decodes to, or `None` where it reports an error.
pub uninterp spec fn json_document(text: Seq<char>) -> Option<serde_json::Value>;

/// Calls `serde_json::from_str::<serde_json::Value>` on `text`. The decoder
/// reads nothing but its argument, so its answer is the named result
/// `json_document(text@)`: `Ok` with that document, or an error where there
/// is none.
#[verifier::external_body]
pub(crate) fn parse_json(text: &str) -> (r: Result<serde_json::Value, serde_json::Error>)
    ensures
        r is Ok <==> json_document(text@) is Some,
        r matches Ok(v) ==> json_document(text@) == Some(v),
{
    serde_json::from_str::<serde_json::Value>(text)
}

/// What `String::from_utf8_lossy` makes of captured bytes: their text, with
/// a replacement character for each stretch that is not UTF-8.
pub uninterp spec fn lossy_text(bytes: Seq<u8>) -> Seq<char>;

/// Calls `String::from_utf8_lossy` on `bytes` and owns the result. The
/// answer depends on the bytes alone and is named `lossy_text(bytes@)`.
#[verifier::external_body]
pub(crate) fn decode_lossy(bytes: &[u8]) -> (r: String)
    ensures
        r@ == lossy_text(bytes@),
{
    String::from_utf8_lossy(bytes).into_owned()
}

} // verus!
