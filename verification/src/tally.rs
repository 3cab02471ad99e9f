//! Character classification and tallying.
//!
//! A `Tally` is the pair `(comment_chars, total_chars)` counted over a block
//! of text: `total_chars` counts the non-whitespace characters, and
//! `comment_chars` those of them that fall inside at least one comment span.

use vstd::prelude::*;

verus! {

/// The Unicode characters with the `White_Space` property.
pub open spec fn is_ws_char(c: char) -> bool {
    ||| c == '\u{0009}'
    ||| c == '\u{000A}'
    ||| c == '\u{000B}'
    ||| c == '\u{000C}'
    ||| c == '\u{000D}'
    ||| c == '\u{0020}'
    ||| c == '\u{0085}'
    ||| c == '\u{00A0}'
    ||| c == '\u{1680}'
    ||| c == '\u{2000}'
    ||| c == '\u{2001}'
    ||| c == '\u{2002}'
    ||| c == '\u{2003}'
    ||| c == '\u{2004}'
    ||| c == '\u{2005}'
    ||| c == '\u{2006}'
    ||| c == '\u{2007}'
    ||| c == '\u{2008}'
    ||| c == '\u{2009}'
    ||| c == '\u{200A}'
    ||| c == '\u{2028}'
    ||| c == '\u{2029}'
    ||| c == '\u{202F}'
    ||| c == '\u{205F}'
    ||| c == '\u{3000}'
}

/// Whether `c` is a whitespace character under the Unicode `White_Space`
/// definition.
pub fn is_whitespace_char(c: char) -> (r: bool)
    ensures
        r == is_ws_char(c),
{
    ||| c == '\u{0009}'
    ||| c == '\u{000A}'
    ||| c == '\u{000B}'
    ||| c == '\u{000C}'
    ||| c == '\u{000D}'
    ||| c == '\u{0020}'
    ||| c == '\u{0085}'
    ||| c == '\u{00A0}'
    ||| c == '\u{1680}'
    ||| c == '\u{2000}'
    ||| c == '\u{2001}'
    ||| c == '\u{2002}'
    ||| c == '\u{2003}'
    ||| c == '\u{2004}'
    ||| c == '\u{2005}'
    ||| c == '\u{2006}'
    ||| c == '\u{2007}'
    ||| c == '\u{2008}'
    ||| c == '\u{2009}'
    ||| c == '\u{200A}'
    ||| c == '\u{2028}'
    ||| c == '\u{2029}'
    ||| c == '\u{202F}'
    ||| c == '\u{205F}'
    ||| c == '\u{3000}'
}

/// Whether character index `idx` lies inside at least one of the half-open
/// spans `[start, end)`.
pub open spec fn in_spans(spans: Seq<(int, int)>, idx: int) -> bool {
    exists|k: int| 0 <= k < spans.len() && (#[trigger] spans[k]).0 <= idx < spans[k].1
}

/// The mathematical view of a vector of spans.
pub open spec fn spans_view(spans: Seq<(usize, usize)>) -> Seq<(int, int)> {
    spans.map_values(|p: (usize, usize)| (p.0 as int, p.1 as int))
}

/// The tally of `text` against comment spans `spans`, as a pair
/// `(comment_chars, total_chars)`: a character counts iff it is not
/// whitespace, and counts as a comment character iff its index additionally
/// lies inside some span.
pub open spec fn tally_seq(text: Seq<char>, spans: Seq<(int, int)>) -> (int, int)
    decreases text.len(),
{
    if text.len() == 0 {
        (0, 0)
    } else {
        let prev = tally_seq(text.drop_last(), spans);
        if is_ws_char(text.last()) {
            prev
        } else if in_spans(spans, text.len() - 1) {
            (prev.0 + 1, prev.1 + 1)
        } else {
            (prev.0, prev.1 + 1)
        }
    }
}

/// The counter pair `(comment_chars, total_chars)` for one record, one file,
/// or the whole corpus.
#[derive(Clone, Copy, Debug, PartialEq, Eq, Structural)]
pub struct Tally {
    pub comment_chars: u64,
    pub total_chars: u64,
}

impl View for Tally {
    type V = (int, int);

    open spec fn view(&self) -> (int, int) {
        (self.comment_chars as int, self.total_chars as int)
    }
}

/// Element-wise addition of tally pairs.
pub open spec fn tally_add(a: (int, int), b: (int, int)) -> (int, int) {
    (a.0 + b.0, a.1 + b.1)
}

impl Tally {
    /// The zero tally, the unit of accumulation.
    pub fn zero() -> (t: Tally)
        ensures
            t@ == (0int, 0int),
    {
        Tally { comment_chars: 0, total_chars: 0 }
    }

    /// Element-wise addition; `None` exactly when either counter would
    /// exceed `u64::MAX`.
    pub fn checked_add(self, other: Tally) -> (r: Option<Tally>)
        ensures
            r is Some <==> (self@.0 + other@.0 <= u64::MAX && self@.1 + other@.1 <= u64::MAX),
            r matches Some(t) ==> t@ == tally_add(self@, other@),
    {
        match self.comment_chars.checked_add(other.comment_chars) {
            Some(c) => match self.total_chars.checked_add(other.total_chars) {
                Some(t) => Some(Tally { comment_chars: c, total_chars: t }),
                None => None,
            },
            None => None,
        }
    }
}

/// The tally never counts more comment characters than total characters, and
/// never more total characters than the text holds:
/// `0 <= comment_chars <= total_chars <= text.len()`.
pub proof fn lemma_tally_bounds(text: Seq<char>, spans: Seq<(int, int)>)
    ensures
        0 <= tally_seq(text, spans).0 <= tally_seq(text, spans).1 <= text.len(),
    decreases text.len(),
{
    if text.len() > 0 {
        lemma_tally_bounds(text.drop_last(), spans);
    }
}

/// The element-wise sum of a sequence of tally pairs.
pub open spec fn sum_tallies(ts: Seq<(int, int)>) -> (int, int)
    decreases ts.len(),
{
    if ts.len() == 0 {
        (0, 0)
    } else {
        tally_add(sum_tallies(ts.drop_last()), ts.last())
    }
}

/// Tally addition is commutative: accumulating two tallies in either order
/// gives the same total.
pub proof fn lemma_tally_add_comm(a: (int, int), b: (int, int))
    ensures
        tally_add(a, b) == tally_add(b, a),
{
}

/// Tally addition is associative: grouping of accumulation does not matter.
pub proof fn lemma_tally_add_assoc(a: (int, int), b: (int, int), c: (int, int))
    ensures
        tally_add(tally_add(a, b), c) == tally_add(a, tally_add(b, c)),
{
}

/// Summing record tallies is a homomorphism over concatenation: the total of
/// two batches is the sum of their totals. With commutativity of `tally_add`
/// this makes the grand total independent of the order in which files are
/// processed.
pub proof fn lemma_sum_tallies_concat(a: Seq<(int, int)>, b: Seq<(int, int)>)
    ensures
        sum_tallies(a + b) == tally_add(sum_tallies(a), sum_tallies(b)),
    decreases b.len(),
{
    if b.len() == 0 {
        assert(a + b =~= a);
    } else {
        assert((a + b).drop_last() =~= a + b.drop_last());
        assert((a + b).last() == b.last());
        lemma_sum_tallies_concat(a, b.drop_last());
    }
}

/// Summing can also peel its first element: the sum is the first tally plus
/// the sum of the rest.
pub proof fn lemma_sum_tallies_first(ts: Seq<(int, int)>)
    requires
        ts.len() > 0,
    ensures
        sum_tallies(ts) == tally_add(ts[0], sum_tallies(ts.drop_first())),
{
    let s1 = seq![ts[0]];
    assert(ts =~= s1 + ts.drop_first());
    lemma_sum_tallies_concat(s1, ts.drop_first());
    assert(s1.drop_last() =~= Seq::<(int, int)>::empty());
    assert(sum_tallies(Seq::<(int, int)>::empty()) == (0int, 0int));
    assert(s1.last() == ts[0]);
    assert(sum_tallies(s1) == tally_add(sum_tallies(s1.drop_last()), s1.last()));
    assert(sum_tallies(s1) == ts[0]);
}

/// Two span sets that agree on the membership of every character index of
/// `text` give the same tally.
pub proof fn lemma_tally_congruent(text: Seq<char>, sp1: Seq<(int, int)>, sp2: Seq<(int, int)>)
    requires
        forall|i: int| 0 <= i < text.len() ==> in_spans(sp1, i) == in_spans(sp2, i),
    ensures
        tally_seq(text, sp1) == tally_seq(text, sp2),
    decreases text.len(),
{
    if text.len() > 0 {
        lemma_tally_congruent(text.drop_last(), sp1, sp2);
    }
}

/// The spans adjusted for the insertion of one character at index `j`:
/// every boundary at or after `j` moves right by one.
pub open spec fn shift_spans(spans: Seq<(int, int)>, j: int) -> Seq<(int, int)> {
    spans.map_values(
        |p: (int, int)|
            (
                if p.0 >= j {
                    p.0 + 1
                } else {
                    p.0
                },
                if p.1 >= j {
                    p.1 + 1
                } else {
                    p.1
                },
            ),
    )
}

/// An index left of the insertion point keeps its membership under the
/// shifted spans.
proof fn lemma_shift_spans_below(spans: Seq<(int, int)>, j: int, i: int)
    requires
        i < j,
    ensures
        in_spans(shift_spans(spans, j), i) == in_spans(spans, i),
{
    let sh = shift_spans(spans, j);
    assert forall|k: int| 0 <= k < spans.len() implies ((#[trigger] sh[k]).0 <= i < sh[k].1) == (
    spans[k].0 <= i < spans[k].1) by {
        assert(sh[k] == (
            if spans[k].0 >= j {
                spans[k].0 + 1
            } else {
                spans[k].0
            },
            if spans[k].1 >= j {
                spans[k].1 + 1
            } else {
                spans[k].1
            },
        ));
    }
    if in_spans(spans, i) {
        let k = choose|k: int|
            0 <= k < spans.len() && (#[trigger] spans[k]).0 <= i < spans[k].1;
        assert(sh[k].0 <= i < sh[k].1);
        assert(in_spans(sh, i));
    }
    if in_spans(sh, i) {
        let k = choose|k: int| 0 <= k < sh.len() && (#[trigger] sh[k]).0 <= i < sh[k].1;
        assert(spans[k].0 <= i < spans[k].1);
        assert(in_spans(spans, i));
    }
}

/// An index at or right of the insertion point, once moved right by one,
/// keeps its membership under the shifted spans.
proof fn lemma_shift_spans_above(spans: Seq<(int, int)>, j: int, i: int)
    requires
        i >= j,
    ensures
        in_spans(shift_spans(spans, j), i + 1) == in_spans(spans, i),
{
    let sh = shift_spans(spans, j);
    assert forall|k: int| 0 <= k < spans.len() implies ((#[trigger] sh[k]).0 <= i + 1 < sh[k].1)
        == (spans[k].0 <= i < spans[k].1) by {
        assert(sh[k] == (
            if spans[k].0 >= j {
                spans[k].0 + 1
            } else {
                spans[k].0
            },
            if spans[k].1 >= j {
                spans[k].1 + 1
            } else {
                spans[k].1
            },
        ));
    }
    if in_spans(spans, i) {
        let k = choose|k: int|
            0 <= k < spans.len() && (#[trigger] spans[k]).0 <= i < spans[k].1;
        assert(sh[k].0 <= i + 1 < sh[k].1);
        assert(in_spans(sh, i + 1));
    }
    if in_spans(sh, i + 1) {
        let k = choose|k: int| 0 <= k < sh.len() && (#[trigger] sh[k]).0 <= i + 1 < sh[k].1;
        assert(spans[k].0 <= i < spans[k].1);
        assert(in_spans(spans, i));
    }
}

/// Whitespace exclusion: inserting a whitespace character anywhere in the
/// text, with the span boundaries adjusted for the insertion, changes
/// neither counter. Whitespace contributes to no tally, inside or outside a
/// comment.
pub proof fn lemma_insert_whitespace(text: Seq<char>, spans: Seq<(int, int)>, j: int, c: char)
    requires
        0 <= j <= text.len(),
        is_ws_char(c),
    ensures
        tally_seq(text.insert(j, c), shift_spans(spans, j)) == tally_seq(text, spans),
    decreases text.len(),
{
    let t2 = text.insert(j, c);
    let sh = shift_spans(spans, j);
    if j == text.len() {
        assert(t2.drop_last() =~= text);
        assert(t2.last() == c);
        assert forall|i: int| 0 <= i < text.len() implies in_spans(sh, i) == in_spans(
            spans,
            i,
        ) by {
            lemma_shift_spans_below(spans, j, i);
        }
        lemma_tally_congruent(text, sh, spans);
    } else {
        assert(t2.drop_last() =~= text.drop_last().insert(j, c));
        assert(t2.last() == text.last());
        lemma_insert_whitespace(text.drop_last(), spans, j, c);
        lemma_shift_spans_above(spans, j, text.len() - 1);
    }
}

/// Whether `idx` lies inside at least one of the spans.
fn in_any_span(spans: &Vec<(usize, usize)>, idx: usize) -> (r: bool)
    ensures
        r == in_spans(spans_view(spans@), idx as int),
{
    let ghost sv = spans_view(spans@);
    let mut k: usize = 0;
    while k < spans.len()
        invariant
            k <= spans.len(),
            sv == spans_view(spans@),
            sv.len() == spans@.len(),
            forall|j: int| 0 <= j < k ==> !((#[trigger] sv[j]).0 <= idx < sv[j].1),
        decreases spans.len() - k,
    {
        let (start, end) = spans[k];
        proof {
            assert(sv[k as int] == (start as int, end as int));
        }
        if start <= idx && idx < end {
            return true;
        }
        k += 1;
    }
    false
}

/// Counts the non-whitespace characters of `text`, and among them those whose
/// character index lies inside some span of `spans`.
pub fn classify(text: &str, spans: &Vec<(usize, usize)>) -> (r: Tally)
    ensures
        r@ == tally_seq(text@, spans_view(spans@)),
        r.comment_chars <= r.total_chars,
{
    let n = text.unicode_len();
    let mut acc = Tally { comment_chars: 0, total_chars: 0 };
    let mut i: usize = 0;
    while i < n
        invariant
            n == text@.len(),
            i <= n,
            acc@ == tally_seq(text@.subrange(0, i as int), spans_view(spans@)),
            acc.comment_chars <= acc.total_chars <= i,
        decreases n - i,
    {
        let c = text.get_char(i);
        if !is_whitespace_char(c) {
            acc.total_chars += 1;
            if in_any_span(spans, i) {
                acc.comment_chars += 1;
            }
        }
        proof {
            assert(text@.subrange(0, i + 1).drop_last() =~= text@.subrange(0, i as int));
            assert(text@.subrange(0, i + 1).last() == text@[i as int]);
        }
        i += 1;
    }
    proof {
        assert(text@.subrange(0, n as int) =~= text@);
    }
    acc
}

} // verus!
