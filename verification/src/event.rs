//! Lines of a child's output and the progress events among them.

use vstd::prelude::*;
use vstd::string::StringExecFns;
use vstd::string::StrSliceExecFns;
use crate::boundary::json_document;
use crate::boundary::parse_json;
use crate::text::has_prefix;
use crate::text::skip_chars;
use crate::text::starts_with;

verus! {

/// The marker that a structured event line begins with.
pub const EVENT_MARKER: &'static str = "[BOT_EVENT]";

/// The one channel on which progress events are published.
pub const EVENT_CHANNEL: &'static str = "bot-progress";

/// One line of a child's standard output, classified.
#[derive(Debug, PartialEq, Eq)]
pub enum OutputLine {
    /// The line began with the marker; `payload` is what followed it.
    StructuredEvent { payload: String },
    /// Anything else: debug output, which is dropped.
    Debug,
}

/// An `OutputLine` as plain values.
pub enum OutputLineView {
    StructuredEvent { payload: Seq<char> },
    Debug,
}

impl View for OutputLine {
    type V = OutputLineView;

    open spec fn view(&self) -> OutputLineView {
        match self {
            OutputLine::StructuredEvent { payload } => OutputLineView::StructuredEvent {
                payload: payload@,
            },
            OutputLine::Debug => OutputLineView::Debug,
        }
    }
}

/// A decoded progress event, tagged with the label of the process that
/// wrote it. The payload has no required shape.
#[derive(Debug, PartialEq, Eq)]
pub struct BotEvent {
    pub label: String,
    pub payload: serde_json::Value,
}

/// A `BotEvent` as plain values; the payload stays the decoder's document.
pub struct BotEventView {
    pub label: Seq<char>,
    pub payload: serde_json::Value,
}

impl View for BotEvent {
    type V = BotEventView;

    open spec fn view(&self) -> BotEventView {
        BotEventView { label: self.label@, payload: self.payload }
    }
}

/// What a line is: a structured event where it begins with the marker, with
/// the rest of the line as its payload, and debug output otherwise.
pub open spec fn classified(line: Seq<char>) -> OutputLineView {
    if has_prefix(line, EVENT_MARKER@) {
        OutputLineView::StructuredEvent {
            payload: line.subrange(EVENT_MARKER@.len() as int, line.len() as int),
        }
    } else {
        OutputLineView::Debug
    }
}

/// The event that a decoder's answer stands for: its document under the
/// label, or nothing where the payload did not decode.
pub open spec fn event_of_document(
    label: Seq<char>,
    document: Option<serde_json::Value>,
) -> Option<BotEventView> {
    match document {
        Some(payload) => Some(BotEventView { label, payload }),
        None => None,
    }
}

/// The event that a line publishes, if any: the decoded payload of a
/// structured event line. Debug lines and payloads that do not decode
/// publish nothing.
pub open spec fn event_of_line(label: Seq<char>, line: Seq<char>) -> Option<BotEventView> {
    match classified(line) {
        OutputLineView::StructuredEvent { payload } => event_of_document(
            label,
            json_document(payload),
        ),
        OutputLineView::Debug => None,
    }
}

/// Whether `event` is `expected`, taken as plain values.
pub open spec fn same_event(event: Option<BotEvent>, expected: Option<BotEventView>) -> bool {
    match event {
        Some(e) => expected == Some(e@),
        None => expected is None,
    }
}

/// Classifies one line of output.
pub fn classify(line: &str) -> (r: OutputLine)
    ensures
        r@ == classified(line@),
{
    if starts_with(line, EVENT_MARKER) {
        let skip: usize = EVENT_MARKER.unicode_len();
        OutputLine::StructuredEvent { payload: skip_chars(line, skip) }
    } else {
        OutputLine::Debug
    }
}

/// Turns the decoder's answer on a payload into the event to publish. A
/// payload that did not decode is dropped without an error.
pub fn event_from_decoded(
    label: &str,
    decoded: Result<serde_json::Value, serde_json::Error>,
) -> (r: Option<BotEvent>)
    ensures
        r is Some <==> decoded is Ok,
        same_event(
            r,
            event_of_document(
                label@,
                match decoded {
                    Ok(payload) => Some(payload),
                    Err(_) => None,
                },
            ),
        ),
{
    match decoded {
        Ok(payload) => Some(BotEvent { label: String::from_str(label), payload }),
        Err(_) => None,
    }
}

/// Reads one line of the output of the process labelled `label`: the event
/// to publish, or `None` where the line is debug output or its payload does
/// not decode.
pub fn interpret_line(label: &str, line: &str) -> (r: Option<BotEvent>)
    ensures
        same_event(r, event_of_line(label@, line@)),
        r is Some ==> has_prefix(line@, EVENT_MARKER@),
{
    match classify(line) {
        OutputLine::StructuredEvent { payload } => {
            let decoded = parse_json(payload.as_str());
            event_from_decoded(label, decoded)
        },
        OutputLine::Debug => None,
    }
}

} // verus!
