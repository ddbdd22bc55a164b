//! Event Reader: turns a line-oriented text source into structured
//! events. Blank lines are skipped silently; a malformed line is counted
//! as a parse error and skipped; a single bad line never aborts the run.

use vstd::prelude::*;
use vstd::string::*;
use crate::text::{is_blank, is_blank_str};

verus! {

/// One structured event as read from a line of input: the canonical
/// serialized form that goes on the wire, and the structural facts that
/// validation reads.
pub struct Event {
    /// Canonical serialization of the parsed value.
    pub raw: String,
    /// Whether the parsed value is a JSON object.
    pub is_object: bool,
    /// The top-level object keys (empty when the value is not an object).
    pub keys: Vec<String>,
}

/// Whether `serde_json::from_str` accepts the text as one JSON document.
pub uninterp spec fn json_parses(s: Seq<char>) -> bool;

/// The form `serde_json::to_string` gives the value parsed from the
/// text; meaningful only when `json_parses` holds of the text.
pub uninterp spec fn json_canon(s: Seq<char>) -> Seq<char>;

/// Whether the value parsed from the text is a JSON object.
pub uninterp spec fn json_top_object(s: Seq<char>) -> bool;

/// The top-level keys of the object parsed from the text, in the order
/// the parsed map yields them; empty when the value is not an object.
pub uninterp spec fn json_top_keys(s: Seq<char>) -> Seq<Seq<char>>;

/// `e` is the event that stands for the parseable line `l`.
pub open spec fn event_of_line(e: Event, l: Seq<char>) -> bool {
    &&& e.raw@ == json_canon(l)
    &&& e.is_object == json_top_object(l)
    &&& e.keys.deep_view() == json_top_keys(l)
}

/// Relies on serde_json's `from_str`, `to_string`, `Value::is_object` and
/// `Map::keys`: each is a function of the input text alone (the value's
/// maps are ordered, so key order and the serialized form are determined
/// by the text).
#[verifier::external_body]
pub fn parse_event_line(line: &str) -> (r: Option<Event>)
    ensures
        r is Some <==> json_parses(line@),
        r matches Some(e) ==> e.raw@ == json_canon(line@) && e.is_object == json_top_object(
            line@,
        ) && e.keys.deep_view() == json_top_keys(line@),
{
    let value: serde_json::Value = match serde_json::from_str(line) {
        Ok(v) => v,
        Err(_) => return None,
    };
    let keys: Vec<String> = match value.as_object() {
        Some(m) => m.keys().cloned().collect(),
        None => Vec::new(),
    };
    let raw = serde_json::to_string(&value).unwrap_or_default();
    Some(Event { raw, is_object: value.is_object(), keys })
}

/// A line the reader keeps: not blank, and parseable.
pub open spec fn line_kept(l: Seq<char>) -> bool {
    !is_blank(l) && json_parses(l)
}

/// A line the reader counts as a parse error: not blank, not parseable.
pub open spec fn line_rejected(l: Seq<char>) -> bool {
    !is_blank(l) && !json_parses(l)
}

/// The lines of `ls` that produce events, in source order.
pub open spec fn kept_lines(ls: Seq<Seq<char>>) -> Seq<Seq<char>>
    decreases ls.len(),
{
    if ls.len() == 0 {
        Seq::empty()
    } else if line_kept(ls.last()) {
        kept_lines(ls.drop_last()).push(ls.last())
    } else {
        kept_lines(ls.drop_last())
    }
}

/// How many lines of `ls` fail to parse (blank lines are not counted).
pub open spec fn error_count(ls: Seq<Seq<char>>) -> nat
    decreases ls.len(),
{
    if ls.len() == 0 {
        0
    } else {
        error_count(ls.drop_last()) + if line_rejected(ls.last()) {
            1 as nat
        } else {
            0 as nat
        }
    }
}

/// Reads every line of the source: blank lines produce nothing, lines
/// that fail to parse are counted and skipped, and each remaining line
/// produces its event, in source order.
pub fn read_events(lines: &Vec<String>) -> (r: (Vec<Event>, usize))
    ensures
        r.0@.len() == kept_lines(lines.deep_view()).len(),
        forall|i: int|
            0 <= i < r.0@.len() ==> event_of_line(
                #[trigger] r.0@[i],
                kept_lines(lines.deep_view())[i],
            ),
        r.1 == error_count(lines.deep_view()),
{
    let mut events: Vec<Event> = Vec::new();
    let mut errors: usize = 0;
    let n = lines.len();
    let mut idx: usize = 0;
    while idx < n
        invariant
            n == lines@.len(),
            idx <= n,
            events@.len() == kept_lines(lines.deep_view().take(idx as int)).len(),
            forall|i: int|
                0 <= i < events@.len() ==> event_of_line(
                    #[trigger] events@[i],
                    kept_lines(lines.deep_view().take(idx as int))[i],
                ),
            errors == error_count(lines.deep_view().take(idx as int)),
            errors <= idx,
        decreases n - idx,
    {
        let ghost lv = lines.deep_view();
        let line: &String = &lines[idx];
        proof {
            assert(lv[idx as int] == lines@[idx as int]@);
            assert(lv.take(idx + 1).drop_last() =~= lv.take(idx as int));
            assert(lv.take(idx + 1).last() == lv[idx as int]);
        }
        if !is_blank_str(line.as_str()) {
            match parse_event_line(line.as_str()) {
                Some(e) => {
                    events.push(e);
                },
                None => {
                    errors += 1;
                },
            }
        }
        idx += 1;
    }
    proof {
        assert(lines.deep_view().take(n as int) =~= lines.deep_view());
    }
    (events, errors)
}

/// A line the reader does not keep changes nothing about the events of
/// the other lines; it adds one to the error count exactly when it is a
/// non-blank line that fails to parse.
proof fn lemma_skipped_line(ls: Seq<Seq<char>>, i: int, x: Seq<char>)
    requires
        0 <= i <= ls.len(),
        !line_kept(x),
    ensures
        kept_lines(ls.insert(i, x)) == kept_lines(ls),
        error_count(ls.insert(i, x)) == error_count(ls) + if line_rejected(x) {
            1 as nat
        } else {
            0 as nat
        },
    decreases ls.len(),
{
    let ls2 = ls.insert(i, x);
    if i == ls.len() {
        assert(ls2.drop_last() =~= ls);
        assert(ls2.last() == x);
    } else {
        assert(ls2.last() == ls.last());
        assert(ls2.drop_last() =~= ls.drop_last().insert(i, x));
        lemma_skipped_line(ls.drop_last(), i, x);
    }
}

/// For every source and position: a blank line inserted there produces
/// no event and leaves the parse-error count unchanged.
pub proof fn lemma_blank_line_ignored(ls: Seq<Seq<char>>, i: int, b: Seq<char>)
    requires
        0 <= i <= ls.len(),
        is_blank(b),
    ensures
        kept_lines(ls.insert(i, b)) == kept_lines(ls),
        error_count(ls.insert(i, b)) == error_count(ls),
{
    lemma_skipped_line(ls, i, b);
}

/// For every source and position: a malformed (non-blank, unparseable)
/// line inserted there raises the parse-error count by exactly one and
/// leaves the events of all other lines unchanged.
pub proof fn lemma_malformed_line_counted(ls: Seq<Seq<char>>, i: int, m: Seq<char>)
    requires
        0 <= i <= ls.len(),
        !is_blank(m),
        !json_parses(m),
    ensures
        kept_lines(ls.insert(i, m)) == kept_lines(ls),
        error_count(ls.insert(i, m)) == error_count(ls) + 1,
{
    lemma_skipped_line(ls, i, m);
}

/// A well-formed, non-blank line appended to the source produces exactly
/// one more event, standing for that line, and no parse error.
pub proof fn lemma_wellformed_line_kept(ls: Seq<Seq<char>>, w: Seq<char>)
    requires
        line_kept(w),
    ensures
        kept_lines(ls.push(w)) == kept_lines(ls).push(w),
        error_count(ls.push(w)) == error_count(ls),
{
    assert(ls.push(w).drop_last() =~= ls);
    assert(ls.push(w).last() == w);
}

} // verus!
