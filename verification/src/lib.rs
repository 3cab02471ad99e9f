//! Comment-density measurement for source-code corpora.
//!
//! Given a block of text and a language-specific comment pattern, the library
//! finds the comment spans, classifies every non-whitespace character as
//! inside or outside a comment, and accumulates `(comment_chars, total_chars)`
//! tallies per record and per file.

use vstd::prelude::*;

pub mod lang;
pub mod matcher;
pub mod records;
pub mod tally;

pub use lang::Lang;
pub use matcher::Matcher;
pub use tally::Tally;

verus! {

/// Everything that can go wrong while tallying records.
#[derive(Clone, Copy, Debug, PartialEq, Eq, Structural)]
pub enum TallyError {
    /// A record line is not valid JSON.
    MalformedRecord,
    /// A comment pattern did not compile.
    InvalidPattern,
    /// An accumulated counter would exceed `u64::MAX`.
    CountOverflow,
}

} // verus!
