//! JSON-lines records and their aggregation.
//!
//! Each line of an input file is one JSON record whose optional string field
//! `content` holds the text to tally; a missing or non-string field counts as
//! empty text, and a line that is not valid JSON is a fatal error. A file's
//! tally is the element-wise sum of its records' tallies.

use vstd::prelude::*;

use crate::matcher::{text_tally, Matcher};
use crate::tally::{lemma_sum_tallies_first, sum_tallies, tally_add, Tally};
use crate::TallyError;

verus! {

#[verifier::external_type_specification]
#[verifier::external_body]
pub struct ExJsonError(serde_json::Error);

/// What one record line parses to: `None` when the line is not valid JSON,
/// otherwise the value of its string field `content`, `Some(None)` when that
/// field is missing or not a string.
pub uninterp spec fn record_content(line: Seq<char>) -> Option<Option<Seq<char>>>;

/// The view of an optional owned string.
pub open spec fn opt_view(o: Option<String>) -> Option<Seq<char>> {
    match o {
        Some(s) => Some(s@),
        None => None,
    }
}

/// Relies on `serde_json::from_str`, `serde_json::Value::get` and
/// `serde_json::Value::as_str`: parsing is deterministic, a function of the
/// line alone. `Err` comes exactly when `serde_json` does not accept the
/// line as one JSON document; on success the result is the string under the
/// `content` key, `None` when the document is no object, the key is absent,
/// or its value is not a string.
#[verifier::external_body]
fn parse_record(line: &str) -> (r: Result<Option<String>, serde_json::Error>)
    ensures
        r is Ok <==> record_content(line@) is Some,
        r matches Ok(c) ==> record_content(line@) == Some(opt_view(c)),
{
    serde_json::from_str::<serde_json::Value>(line)
        .map(|v| v.get("content").and_then(|c| c.as_str()).map(|s| s.to_string()))
}

/// The text of a record line: its `content` field, or empty when the field
/// is missing or not a string. Meaningful only when the line parses.
pub open spec fn line_text(line: Seq<char>) -> Seq<char> {
    match record_content(line) {
        Some(Some(s)) => s,
        _ => Seq::empty(),
    }
}

/// The tally of the file whose record lines are `lines`, read in order
/// against an accumulator `acc`: the element-wise sum of the records'
/// tallies, an error on the first line that is not valid JSON or on the
/// first counter that would exceed `u64::MAX`.
pub open spec fn lines_tally(pattern: Seq<char>, lines: Seq<Seq<char>>, acc: (int, int)) -> Result<
    (int, int),
    TallyError,
>
    decreases lines.len(),
{
    if lines.len() == 0 {
        Ok(acc)
    } else if record_content(lines[0]) is None {
        Err(TallyError::MalformedRecord)
    } else {
        let acc2 = tally_add(acc, text_tally(pattern, line_text(lines[0])));
        if acc2.0 > u64::MAX || acc2.1 > u64::MAX {
            Err(TallyError::CountOverflow)
        } else {
            lines_tally(pattern, lines.drop_first(), acc2)
        }
    }
}

/// The per-record tallies of `lines`: each line's text tallied under
/// `pattern`.
pub open spec fn record_tallies(pattern: Seq<char>, lines: Seq<Seq<char>>) -> Seq<(int, int)> {
    lines.map_values(|l: Seq<char>| text_tally(pattern, line_text(l)))
}

/// Additivity of aggregation: when a file tallies without error, its tally
/// is the accumulator plus the element-wise sum of its records' tallies.
pub proof fn lemma_lines_tally_is_sum(pattern: Seq<char>, lines: Seq<Seq<char>>, acc: (int, int))
    requires
        lines_tally(pattern, lines, acc) is Ok,
    ensures
        lines_tally(pattern, lines, acc) == Ok::<(int, int), TallyError>(
            tally_add(acc, sum_tallies(record_tallies(pattern, lines))),
        ),
    decreases lines.len(),
{
    let ts = record_tallies(pattern, lines);
    if lines.len() == 0 {
        assert(tally_add(acc, (0, 0)) == acc);
    } else {
        let t0 = text_tally(pattern, line_text(lines[0]));
        let acc2 = tally_add(acc, t0);
        lemma_lines_tally_is_sum(pattern, lines.drop_first(), acc2);
        assert(record_tallies(pattern, lines.drop_first()) =~= ts.drop_first());
        lemma_sum_tallies_first(ts);
    }
}

/// The view of a tally result, for stating contracts.
pub open spec fn result_view(r: Result<Tally, TallyError>) -> Result<(int, int), TallyError> {
    match r {
        Ok(t) => Ok(t@),
        Err(e) => Err(e),
    }
}

/// The tally of one record line: `Ok` exactly when the line is valid JSON,
/// and then the tally of its `content` text (empty when the field is missing
/// or not a string) under `m`'s pattern.
pub fn tally_line(m: &Matcher, line: &str) -> (r: Result<Tally, TallyError>)
    ensures
        r is Ok <==> record_content(line@) is Some,
        r matches Ok(t) ==> t@ == text_tally(m.pattern(), line_text(line@)),
        r matches Ok(t) ==> t.comment_chars <= t.total_chars,
        r matches Err(e) ==> e == TallyError::MalformedRecord,
{
    match parse_record(line) {
        Ok(Some(content)) => Ok(m.tally_text(content.as_str())),
        Ok(None) => {
            proof {
                reveal_strlit("");
                assert(""@ =~= line_text(line@));
            }
            Ok(m.tally_text(""))
        },
        Err(_) => Err(TallyError::MalformedRecord),
    }
}

/// The tally of one file, its record lines given in order: the sum of the
/// records' tallies, or the error of `lines_tally`.
pub fn tally_lines(m: &Matcher, lines: &Vec<String>) -> (r: Result<Tally, TallyError>)
    ensures
        result_view(r) == lines_tally(m.pattern(), lines.deep_view(), (0int, 0int)),
        r matches Ok(t) ==> t.comment_chars <= t.total_chars,
{
    let mut acc = Tally::zero();
    let mut i: usize = 0;
    proof {
        assert(lines.deep_view().skip(0) =~= lines.deep_view());
    }
    while i < lines.len()
        invariant
            i <= lines.len(),
            acc.comment_chars <= acc.total_chars,
            lines_tally(m.pattern(), lines.deep_view(), (0int, 0int)) == lines_tally(
                m.pattern(),
                lines.deep_view().skip(i as int),
                acc@,
            ),
        decreases lines.len() - i,
    {
        let ghost rest = lines.deep_view().skip(i as int);
        proof {
            assert(rest[0] == lines.deep_view()[i as int]);
            assert(rest.drop_first() =~= lines.deep_view().skip(i + 1));
        }
        let t = match tally_line(m, &lines[i]) {
            Ok(t) => t,
            Err(e) => {
                return Err(e);
            },
        };
        acc = match acc.checked_add(t) {
            Some(a) => a,
            None => {
                return Err(TallyError::CountOverflow);
            },
        };
        i += 1;
    }
    proof {
        assert(lines.deep_view().skip(lines.deep_view().len() as int) =~= Seq::<Seq<char>>::empty());
    }
    Ok(acc)
}

} // verus!
