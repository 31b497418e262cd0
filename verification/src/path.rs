//! Resolving raw paths against the project root.
//!
//! A path is a text. It is cut into segments at separators, and may begin
//! with an anchor: the root directory, or a drive letter with its colon.

use vstd::prelude::*;
use vstd::string::StringExecFns;
use crate::text::chars_of;
use crate::text::take_chars;

verus! {

/// The name of the backend's own subdirectory. A process started inside it
/// works one level below the project root.
pub const BACKEND_DIR: &'static str = "src-tauri";

/// How paths are written on the machine.
#[derive(Clone, Copy, Debug, PartialEq, Eq)]
pub enum Platform {
    /// `/` separates segments and marks the root.
    Posix,
    /// Volumes carry a drive letter; `\` separates segments, and `/` does too.
    DriveLetters,
}

/// Whether `c` separates two segments of a path.
pub open spec fn is_separator(c: char, platform: Platform) -> bool {
    c == '/' || (platform is DriveLetters && c == '\\')
}

/// The separator that joins a base and a relative path.
pub open spec fn main_separator(platform: Platform) -> char {
    if platform is DriveLetters {
        '\\'
    } else {
        '/'
    }
}

/// Whether `raw` is taken as it stands: it begins with the root marker `/`,
/// or, where volumes carry letters, its second character is a colon.
pub open spec fn is_absolute(raw: Seq<char>, platform: Platform) -> bool {
    (raw.len() >= 1 && raw[0] == '/') || (platform is DriveLetters && raw.len() >= 2 && raw[1]
        == ':')
}

/// The length of the anchor that `path` begins with: a drive letter with its
/// colon and the separator behind it, or the root's separator, or nothing.
/// No segment is ever stripped out of the anchor.
pub open spec fn anchor_len(path: Seq<char>, platform: Platform) -> int {
    if platform is DriveLetters && path.len() >= 2 && path[1] == ':' {
        if path.len() >= 3 && is_separator(path[2], platform) {
            3
        } else {
            2
        }
    } else if path.len() >= 1 && is_separator(path[0], platform) {
        1
    } else {
        0
    }
}

/// Where `path[..end]` ends once the separators at its end are dropped,
/// never reaching into the anchor.
pub open spec fn trimmed_end(path: Seq<char>, platform: Platform, end: int) -> int
    decreases end,
{
    if anchor_len(path, platform) < end <= path.len() && is_separator(path[end - 1], platform) {
        trimmed_end(path, platform, end - 1)
    } else {
        end
    }
}

/// Where the segment that ends at `end` begins.
pub open spec fn segment_start(path: Seq<char>, platform: Platform, end: int) -> int
    decreases end,
{
    if anchor_len(path, platform) < end <= path.len() && !is_separator(path[end - 1], platform) {
        segment_start(path, platform, end - 1)
    } else {
        end
    }
}

/// The final segment of `path`, separators at the end of the path not counted.
pub open spec fn last_segment(path: Seq<char>, platform: Platform) -> Seq<char> {
    let end = trimmed_end(path, platform, path.len() as int);
    path.subrange(segment_start(path, platform, end), end)
}

/// `path` without its final segment and without the separators before it.
pub open spec fn parent(path: Seq<char>, platform: Platform) -> Seq<char> {
    let end = trimmed_end(path, platform, path.len() as int);
    let start = segment_start(path, platform, end);
    path.subrange(0, trimmed_end(path, platform, start))
}

/// The project root as seen from the working directory `cwd`: one level up
/// where the final segment of `cwd` names the backend's subdirectory, `cwd`
/// itself otherwise.
pub open spec fn project_root(cwd: Seq<char>, platform: Platform) -> Seq<char> {
    if last_segment(cwd, platform) == BACKEND_DIR@ {
        parent(cwd, platform)
    } else {
        cwd
    }
}

/// `raw` below `base`. An empty base adds nothing; a separator is put
/// between the two unless `base` ends with one.
pub open spec fn joined(base: Seq<char>, raw: Seq<char>, platform: Platform) -> Seq<char> {
    if base.len() == 0 {
        raw
    } else if is_separator(base.last(), platform) {
        base + raw
    } else {
        base.push(main_separator(platform)) + raw
    }
}

/// The path that `raw` stands for when the process works in `cwd`.
pub open spec fn resolved(raw: Seq<char>, cwd: Seq<char>, platform: Platform) -> Seq<char> {
    if is_absolute(raw, platform) {
        raw
    } else {
        joined(project_root(cwd, platform), raw, platform)
    }
}

/// The trimmed end of a prefix lies between the anchor and the prefix's end.
pub proof fn lemma_trimmed_end_bounds(path: Seq<char>, platform: Platform, end: int)
    requires
        anchor_len(path, platform) <= end <= path.len(),
    ensures
        anchor_len(path, platform) <= trimmed_end(path, platform, end) <= end,
    decreases end,
{
    if anchor_len(path, platform) < end && is_separator(path[end - 1], platform) {
        lemma_trimmed_end_bounds(path, platform, end - 1);
    }
}

/// A segment begins between the anchor and its own end.
pub proof fn lemma_segment_start_bounds(path: Seq<char>, platform: Platform, end: int)
    requires
        anchor_len(path, platform) <= end <= path.len(),
    ensures
        anchor_len(path, platform) <= segment_start(path, platform, end) <= end,
    decreases end,
{
    if anchor_len(path, platform) < end && !is_separator(path[end - 1], platform) {
        lemma_segment_start_bounds(path, platform, end - 1);
    }
}

/// The project root is a prefix of the working directory that keeps its
/// anchor.
pub proof fn lemma_project_root_keeps_anchor(cwd: Seq<char>, platform: Platform)
    ensures
        anchor_len(cwd, platform) <= project_root(cwd, platform).len() <= cwd.len(),
        project_root(cwd, platform) == cwd.subrange(0, project_root(cwd, platform).len() as int),
{
    let len = cwd.len() as int;
    lemma_trimmed_end_bounds(cwd, platform, len);
    let end = trimmed_end(cwd, platform, len);
    lemma_segment_start_bounds(cwd, platform, end);
    let start = segment_start(cwd, platform, end);
    lemma_trimmed_end_bounds(cwd, platform, start);
    assert(cwd.subrange(0, len) =~= cwd);
}

/// A path that begins with the root marker resolves to itself, whatever the
/// working directory; so does every other path that is taken as absolute.
pub proof fn lemma_absolute_resolves_to_itself(
    raw: Seq<char>,
    cwd: Seq<char>,
    platform: Platform,
)
    ensures
        raw.len() >= 1 && raw[0] == '/' ==> resolved(raw, cwd, platform) == raw,
        is_absolute(raw, platform) ==> resolved(raw, cwd, platform) == raw,
{
}

/// Resolving the same raw path from the same working directory yields the
/// same path.
pub proof fn lemma_resolution_is_repeatable(
    raw: Seq<char>,
    first_cwd: Seq<char>,
    second_cwd: Seq<char>,
    platform: Platform,
)
    requires
        first_cwd == second_cwd,
    ensures
        resolved(raw, first_cwd, platform) == resolved(raw, second_cwd, platform),
{
}

/// From an absolute working directory every path resolves to an absolute
/// one, and resolving the result again changes nothing.
pub proof fn lemma_resolution_is_idempotent(raw: Seq<char>, cwd: Seq<char>, platform: Platform)
    requires
        is_absolute(cwd, platform),
    ensures
        is_absolute(resolved(raw, cwd, platform), platform),
        resolved(resolved(raw, cwd, platform), cwd, platform) == resolved(raw, cwd, platform),
{
    if !is_absolute(raw, platform) {
        lemma_project_root_keeps_anchor(cwd, platform);
        let root = project_root(cwd, platform);
        let out = joined(root, raw, platform);
        if cwd[0] == '/' {
            assert(anchor_len(cwd, platform) >= 1);
            assert(root[0] == cwd[0]);
            assert(out[0] == '/');
        } else {
            assert(anchor_len(cwd, platform) >= 2);
            assert(root[1] == cwd[1]);
            assert(out[1] == ':');
        }
    }
}

/// Tells whether `c` separates segments on `platform`.
pub fn separates(c: char, platform: Platform) -> (r: bool)
    ensures
        r == is_separator(c, platform),
{
    match platform {
        Platform::Posix => c == '/',
        Platform::DriveLetters => c == '/' || c == '\\',
    }
}

/// Tells whether `raw` is taken as it stands.
pub fn is_absolute_path(raw: &str, platform: Platform) -> (r: bool)
    ensures
        r == is_absolute(raw@, platform),
{
    let chars = chars_of(raw);
    if chars.len() >= 1 && chars[0] == '/' {
        return true;
    }
    match platform {
        Platform::Posix => false,
        Platform::DriveLetters => chars.len() >= 2 && chars[1] == ':',
    }
}

fn anchor_of(path: &Vec<char>, platform: Platform) -> (r: usize)
    ensures
        r == anchor_len(path@, platform),
        r <= path.len(),
{
    let drive = match platform {
        Platform::Posix => false,
        Platform::DriveLetters => path.len() >= 2 && path[1] == ':',
    };
    if drive {
        if path.len() >= 3 && separates(path[2], platform) {
            3
        } else {
            2
        }
    } else if path.len() >= 1 && separates(path[0], platform) {
        1
    } else {
        0
    }
}

fn trim_end(path: &Vec<char>, platform: Platform, anchor: usize, end: usize) -> (r: usize)
    requires
        anchor == anchor_len(path@, platform),
        anchor <= end <= path.len(),
    ensures
        r == trimmed_end(path@, platform, end as int),
        anchor <= r <= end,
{
    let mut i: usize = end;
    while i > anchor && separates(path[i - 1], platform)
        invariant
            anchor == anchor_len(path@, platform),
            anchor <= i <= end <= path.len(),
            trimmed_end(path@, platform, i as int) == trimmed_end(path@, platform, end as int),
        decreases i,
    {
        i = i - 1;
    }
    i
}

fn start_of_segment(path: &Vec<char>, platform: Platform, anchor: usize, end: usize) -> (r: usize)
    requires
        anchor == anchor_len(path@, platform),
        anchor <= end <= path.len(),
    ensures
        r == segment_start(path@, platform, end as int),
        anchor <= r <= end,
{
    let mut i: usize = end;
    while i > anchor && !separates(path[i - 1], platform)
        invariant
            anchor == anchor_len(path@, platform),
            anchor <= i <= end <= path.len(),
            segment_start(path@, platform, i as int) == segment_start(path@, platform, end as int),
        decreases i,
    {
        i = i - 1;
    }
    i
}

fn span_equals(path: &Vec<char>, start: usize, end: usize, word: &Vec<char>) -> (r: bool)
    requires
        start <= end <= path.len(),
    ensures
        r == (path@.subrange(start as int, end as int) == word@),
{
    if end - start != word.len() {
        return false;
    }
    let mut i: usize = 0;
    while i < word.len()
        invariant
            start <= end <= path.len(),
            end - start == word.len(),
            i <= word.len(),
            forall|j: int| 0 <= j < i ==> path@[start + j] == word@[j],
        decreases word.len() - i,
    {
        if path[start + i] != word[i] {
            assert(path@.subrange(start as int, end as int)[i as int] != word@[i as int]);
            return false;
        }
        i = i + 1;
    }
    assert(path@.subrange(start as int, end as int) =~= word@);
    true
}

/// The project root as seen from the working directory `cwd`.
pub fn project_root_of(cwd: &str, platform: Platform) -> (r: String)
    ensures
        r@ == project_root(cwd@, platform),
{
    let path = chars_of(cwd);
    let anchor = anchor_of(&path, platform);
    let end = trim_end(&path, platform, anchor, path.len());
    let start = start_of_segment(&path, platform, anchor, end);
    let backend = chars_of(BACKEND_DIR);
    if span_equals(&path, start, end, &backend) {
        let keep = trim_end(&path, platform, anchor, start);
        take_chars(cwd, keep)
    } else {
        String::from_str(cwd)
    }
}

/// `raw` below `base`.
pub fn join(base: &str, raw: &str, platform: Platform) -> (r: String)
    ensures
        r@ == joined(base@, raw@, platform),
{
    let chars = chars_of(base);
    let n = chars.len();
    if n == 0 {
        return String::from_str(raw);
    }
    let mut out = String::from_str(base);
    if !separates(chars[n - 1], platform) {
        proof {
            reveal_strlit("/");
            reveal_strlit("\\");
        }
        match platform {
            Platform::Posix => out.append("/"),
            Platform::DriveLetters => out.append("\\"),
        }
        assert(out@ =~= base@.push(main_separator(platform)));
    }
    out.append(raw);
    out
}

/// Resolves `raw` for a process that works in `cwd`.
///
/// A raw path that begins with the root marker, or with a drive letter and a
/// colon where volumes carry letters, is returned unchanged. Any other is
/// joined to the project root. Nothing is looked up on disk.
pub fn resolve(raw: &str, cwd: &str, platform: Platform) -> (r: String)
    ensures
        r@ == resolved(raw@, cwd@, platform),
        is_absolute(raw@, platform) ==> r@ == raw@,
{
    if is_absolute_path(raw, platform) {
        String::from_str(raw)
    } else {
        let root = project_root_of(cwd, platform);
        join(root.as_str(), raw, platform)
    }
}

} // verus!
