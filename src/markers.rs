//! Marker substrings that the assistant's terminal UI shows, and the
//! classification of captured output built on them.
use vstd::prelude::*;
use crate::text::{contains_seq, contains_str, join2};

verus! {

/// Number of consecutive unchanged polls after which output is taken as final.
pub const STABILITY_THRESHOLD: u64 = 4;

/// What Unicode lower-casing makes of a text.
pub uninterp spec fn lower_of(s: Seq<char>) -> Seq<char>;

/// Relies on `str::to_lowercase`: the result depends on the characters alone.
#[verifier::external_body]
pub(crate) fn lowercase(s: &str) -> (r: String)
    ensures
        r@ == lower_of(s@),
{
    s.to_lowercase()
}

/// The UI shows that the assistant is still producing its answer
/// (matched with case).
pub open spec fn still_working(out: Seq<char>) -> bool {
    ||| contains_seq(out, "Wibbling\u{2026}"@)
    ||| contains_seq(out, "Synthesizing\u{2026}"@)
    ||| contains_seq(out, "Writing\u{2026}"@)
    ||| contains_seq(out, "Thinking\u{2026}"@)
    ||| contains_seq(out, "Processing\u{2026}"@)
    ||| contains_seq(out, "\u{2692} 0 tokens"@)
    ||| contains_seq(out, "esc to interrupt"@)
}

/// Lower-cased text holds a marker of a finished task.
pub open spec fn completion_marked(folded: Seq<char>) -> bool {
    ||| contains_seq(folded, "task completed"@)
    ||| contains_seq(folded, "done!"@)
    ||| contains_seq(folded, "finished"@)
    ||| contains_seq(folded, "\u{2705}"@)
    ||| contains_seq(folded, "\u{2713}"@)
}

/// Lower-cased text holds a marker of a failed task.
pub open spec fn error_marked(folded: Seq<char>) -> bool {
    ||| contains_seq(folded, "error:"@)
    ||| contains_seq(folded, "failed:"@)
    ||| contains_seq(folded, "\u{274c}"@)
    ||| contains_seq(folded, "\u{2717}"@)
    ||| contains_seq(folded, "exception:"@)
}

/// Output `out`, whose lower-cased form is `folded`, reads as a finished turn:
/// no progress marker, and a completion or error marker.
pub open spec fn looks_complete(out: Seq<char>, folded: Seq<char>) -> bool {
    !still_working(out) && (completion_marked(folded) || error_marked(folded))
}

/// Lower-cased text shows the assistant called `assistant` (a lower-case
/// name) waiting for input: its prompt, or one of its greetings.
pub open spec fn ready_marked(assistant: Seq<char>, folded: Seq<char>) -> bool {
    ||| contains_seq(folded, assistant + "-code>"@)
    ||| contains_seq(folded, "how can i help you"@)
    ||| contains_seq(folded, "what would you like me to help you with"@)
    ||| contains_seq(folded, "i'm ready to help"@)
}

/// Lower-cased text shows the identity of the assistant called `assistant`
/// (a lower-case name).
pub open spec fn identity_marked(assistant: Seq<char>, folded: Seq<char>) -> bool {
    ||| contains_seq(folded, assistant + "-code"@)
    ||| contains_seq(folded, assistant)
    ||| contains_seq(folded, "how can i help"@)
    ||| contains_seq(folded, "i'm "@ + assistant)
}

/// Whether the output shows a progress marker.
pub fn is_still_working(out: &str) -> (r: bool)
    ensures
        r == still_working(out@),
{
    contains_str(out, "Wibbling\u{2026}") || contains_str(out, "Synthesizing\u{2026}")
        || contains_str(out, "Writing\u{2026}") || contains_str(out, "Thinking\u{2026}")
        || contains_str(out, "Processing\u{2026}") || contains_str(out, "\u{2692} 0 tokens")
        || contains_str(out, "esc to interrupt")
}

/// Whether lower-cased output holds a completion marker.
pub fn has_completion_marker(folded: &str) -> (r: bool)
    ensures
        r == completion_marked(folded@),
{
    contains_str(folded, "task completed") || contains_str(folded, "done!")
        || contains_str(folded, "finished") || contains_str(folded, "\u{2705}")
        || contains_str(folded, "\u{2713}")
}

/// Whether lower-cased output holds an error marker.
pub fn has_error_marker(folded: &str) -> (r: bool)
    ensures
        r == error_marked(folded@),
{
    contains_str(folded, "error:") || contains_str(folded, "failed:")
        || contains_str(folded, "\u{274c}") || contains_str(folded, "\u{2717}")
        || contains_str(folded, "exception:")
}

/// Whether output reads as a finished turn, given its lower-cased form.
pub fn looks_like_completion_folded(out: &str, folded: &str) -> (r: bool)
    ensures
        r == looks_complete(out@, folded@),
{
    if is_still_working(out) {
        return false;
    }
    has_completion_marker(folded) || has_error_marker(folded)
}

/// Whether lower-cased output shows the assistant called `assistant`
/// waiting for input.
pub fn is_ready_folded(assistant: &str, folded: &str) -> (r: bool)
    ensures
        r == ready_marked(assistant@, folded@),
{
    let prompt = join2(assistant, "-code>");
    contains_str(folded, prompt.as_str()) || contains_str(folded, "how can i help you")
        || contains_str(folded, "what would you like me to help you with")
        || contains_str(folded, "i'm ready to help")
}

/// Whether lower-cased output shows the identity of the assistant called
/// `assistant`.
pub fn shows_identity_folded(assistant: &str, folded: &str) -> (r: bool)
    ensures
        r == identity_marked(assistant@, folded@),
{
    let program = join2(assistant, "-code");
    let intro = join2("i'm ", assistant);
    contains_str(folded, program.as_str()) || contains_str(folded, assistant)
        || contains_str(folded, "how can i help") || contains_str(folded, intro.as_str())
}

/// The characters of an optional string.
pub open spec fn opt_chars(o: Option<String>) -> Option<Seq<char>> {
    match o {
        Some(s) => Some(s@),
        None => None,
    }
}

/// How one heuristic poll of the output is read.
#[derive(Debug, Clone, Copy, PartialEq, Eq, Structural)]
pub enum Classification {
    /// The turn is over: a marker says so, or the output has been stable long enough.
    Complete,
    /// A progress marker is visible.
    StillWorking,
    /// Same output as the previous poll, not yet stable long enough.
    Unchanged,
    /// The output differs from the previous poll.
    Changed,
}

/// The reading of `current` (lower-cased: `folded`) after `previous` (the
/// output of the previous poll; none at the first poll), when the previous
/// `stable_count` polls were unchanged. Progress markers come first, then
/// completion and error markers, then stability.
pub open spec fn classification(
    previous: Option<Seq<char>>,
    current: Seq<char>,
    folded: Seq<char>,
    stable_count: nat,
) -> Classification {
    if still_working(current) {
        Classification::StillWorking
    } else if completion_marked(folded) || error_marked(folded) {
        Classification::Complete
    } else if previous == Some(current) {
        if stable_count + 1 >= STABILITY_THRESHOLD {
            Classification::Complete
        } else {
            Classification::Unchanged
        }
    } else {
        Classification::Changed
    }
}

/// Reads one poll, given the lower-cased form of the current output.
pub fn classify_folded(
    previous: &Option<String>,
    current: &str,
    folded: &str,
    stable_count: u64,
) -> (r: Classification)
    ensures
        r == classification(opt_chars(*previous), current@, folded@, stable_count as nat),
{
    if is_still_working(current) {
        Classification::StillWorking
    } else if has_completion_marker(folded) || has_error_marker(folded) {
        Classification::Complete
    } else if match previous {
        Some(p) => same_text(p.as_str(), current),
        None => false,
    } {
        if stable_count >= STABILITY_THRESHOLD - 1 {
            Classification::Complete
        } else {
            Classification::Unchanged
        }
    } else {
        Classification::Changed
    }
}

/// Reads one poll of the output.
pub fn classify(previous: &Option<String>, current: &str, stable_count: u64) -> (r:
    Classification)
    ensures
        r == classification(opt_chars(*previous), current@, lower_of(current@), stable_count as nat),
{
    let folded = lowercase(current);
    classify_folded(previous, current, folded.as_str(), stable_count)
}

/// Whether two texts are equal, character for character.
pub fn same_text(a: &str, b: &str) -> (r: bool)
    ensures
        r == (a@ == b@),
{
    let x = crate::text::to_chars(a);
    let y = crate::text::to_chars(b);
    if x.len() != y.len() {
        return false;
    }
    let mut i: usize = 0;
    while i < x.len()
        invariant
            x@.len() == y@.len(),
            x@ == a@,
            y@ == b@,
            forall|k: int| 0 <= k < i ==> x@[k] == y@[k],
        decreases x@.len() - i,
    {
        if x[i] != y[i] {
            return false;
        }
        i = i + 1;
    }
    assert(x@ =~= y@);
    true
}

} // verus!
