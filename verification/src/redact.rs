//! One redaction, used everywhere text that could be a clip is described.
//!
//! A clip's value must never reach a log line at any level, and its label is
//! redacted on the same reasoning. The types that hold either describe
//! themselves through this, so there is one spelling of a redaction.

use vstd::prelude::*;

use crate::text::{decimal, decimal_text};

verus! {

/// A character count standing in for text that must never be printed.
pub struct Redacted(pub usize);

/// How a redaction renders: the count, never the text.
pub open spec fn redacted_text(count: nat) -> Seq<char> {
    "<redacted, "@ + decimal(count) + " chars>"@
}

impl Redacted {
    /// Count the scalar values of `text` and forget it. Characters, not
    /// bytes: the unit every length limit in this crate is counted in.
    pub fn of(text: &str) -> (r: Redacted)
        ensures
            r.0 == text@.len(),
    {
        Redacted(text.unicode_len())
    }

    /// `<redacted, N chars>`.
    pub fn render(&self) -> (r: String)
        ensures
            r@ == redacted_text(self.0 as nat),
    {
        let mut text = String::from_str("<redacted, ");
        let count = decimal_text(self.0 as u64);
        text.append(count.as_str());
        text.append(" chars>");
        text
    }
}

} // verus!
