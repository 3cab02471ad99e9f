//! The comment-span matcher: a compiled comment pattern together with the
//! spans it finds in a block of text.
//!
//! Matching itself is done by the `regex` crate; everything stated about it
//! here is that the spans found — handed out as character offsets — are a
//! function of the pattern and the text alone, which makes matching
//! deterministic. The classification of the characters against those spans
//! is verified code in `tally`.

use vstd::prelude::*;

use crate::lang::{spec_pattern, pattern_of, Lang};
use crate::tally::{classify, spans_view, tally_seq, Tally};
use crate::TallyError;

verus! {

#[verifier::external_type_specification]
#[verifier::external_body]
pub struct ExRegex(regex::Regex);

#[verifier::external_type_specification]
#[verifier::external_body]
pub struct ExRegexError(regex::Error);

/// Whether `p` is a valid regular expression, the property that decides
/// whether compiling `p` succeeds.
pub uninterp spec fn regex_ok(p: Seq<char>) -> bool;

/// The spans that the comment pattern `pattern` finds in `text`: the
/// half-open character-offset ranges of its non-overlapping,
/// leftmost-first matches.
pub uninterp spec fn comment_spans(pattern: Seq<char>, text: Seq<char>) -> Seq<(usize, usize)>;

/// The tally of `text` under the comment pattern `pattern`.
pub open spec fn text_tally(pattern: Seq<char>, text: Seq<char>) -> (int, int) {
    tally_seq(text, spans_view(comment_spans(pattern, text)))
}

/// A compiled comment pattern.
pub struct Matcher {
    re: regex::Regex,
    pattern: String,
}

impl Matcher {
    /// The pattern this matcher was compiled from.
    pub closed spec fn pattern(&self) -> Seq<char> {
        self.pattern@
    }
}

/// Relies on `regex::Regex::new`: it returns `Ok` exactly when the pattern
/// is a valid regular expression — a property of the pattern alone, named
/// `regex_ok` — and never panics.
#[verifier::external_body]
fn compile(pattern: &str) -> (r: Result<Matcher, regex::Error>)
    ensures
        r is Ok <==> regex_ok(pattern@),
        r matches Ok(m) ==> m.pattern() == pattern@,
{
    regex::Regex::new(pattern).map(|re| Matcher { re, pattern: pattern.to_string() })
}

/// Relies on `regex::Regex::find_iter`, `regex::Match::start` and
/// `regex::Match::end`: the spans of the non-overlapping, leftmost-first
/// matches of the pattern in `text`, in order — a function of the pattern
/// and the text alone. The byte offsets the crate reports are converted to
/// character offsets by counting the characters before each boundary; both
/// boundaries fall on character boundaries of `text`, each match satisfies
/// `start <= end`, lies within the text, and successive matches do not
/// overlap. That `re` was compiled from `pattern` is maintained by field
/// privacy: `compile` is the sole constructor.
#[verifier::external_body]
fn find_spans_raw(m: &Matcher, text: &str) -> (r: Vec<(usize, usize)>)
    ensures
        r@ == comment_spans(m.pattern(), text@),
        forall|k: int| 0 <= k < r@.len() ==> (#[trigger] r@[k]).0 <= r@[k].1 <= text@.len(),
        forall|k: int| 0 <= k + 1 < r@.len() ==> (#[trigger] r@[k]).1 <= r@[k + 1].0,
{
    let to_chars = |b: usize| text[..b].chars().count();
    m.re.find_iter(text).map(|mm| (to_chars(mm.start()), to_chars(mm.end()))).collect()
}

impl Matcher {
    /// Compiles `pattern`: `Ok` exactly when `pattern` is a valid regular
    /// expression, and then the matcher carries exactly that pattern.
    pub fn new(pattern: &str) -> (r: Result<Matcher, TallyError>)
        ensures
            r is Ok <==> regex_ok(pattern@),
            r matches Ok(m) ==> m.pattern() == pattern@,
            r matches Err(e) ==> e == TallyError::InvalidPattern,
    {
        match compile(pattern) {
            Ok(m) => Ok(m),
            Err(_) => Err(TallyError::InvalidPattern),
        }
    }

    /// The matcher for the comment pattern of language `l`: `Ok` exactly
    /// when that pattern is a valid regular expression.
    pub fn for_lang(l: Lang) -> (r: Result<Matcher, TallyError>)
        ensures
            r is Ok <==> regex_ok(spec_pattern(l)),
            r matches Ok(m) ==> m.pattern() == spec_pattern(l),
            r matches Err(e) ==> e == TallyError::InvalidPattern,
    {
        Matcher::new(pattern_of(l))
    }

    /// The comment spans of `text` under this matcher's pattern, as
    /// character-offset ranges: within the text, each no later than the
    /// next. Matching is deterministic: two calls on the same text yield
    /// the same spans.
    pub fn find_spans(&self, text: &str) -> (r: Vec<(usize, usize)>)
        ensures
            r@ == comment_spans(self.pattern(), text@),
            forall|k: int| 0 <= k < r@.len() ==> (#[trigger] r@[k]).0 <= r@[k].1 <= text@.len(),
            forall|k: int| 0 <= k + 1 < r@.len() ==> (#[trigger] r@[k]).1 <= r@[k + 1].0,
    {
        find_spans_raw(self, text)
    }

    /// The tally of one block of text: its non-whitespace characters, and
    /// among them those inside a comment span of this matcher's pattern.
    pub fn tally_text(&self, text: &str) -> (r: Tally)
        ensures
            r@ == text_tally(self.pattern(), text@),
            r.comment_chars <= r.total_chars,
    {
        let spans = self.find_spans(text);
        classify(text, &spans)
    }
}

} // verus!
