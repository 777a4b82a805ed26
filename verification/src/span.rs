//! Source locations.

use vstd::prelude::*;
use vstd::string::*;
use crate::decimal::{decimal, render_usize};

verus! {

/// A range of the source text, from the byte offset `start` up to, but not
/// including, the byte offset `end`.
#[derive(Debug, Clone, Copy, PartialEq, Eq, Structural)]
pub struct Span {
    pub start: usize,
    pub end: usize,
}

impl Span {
    /// How the span is written in a message: both offsets in decimal
    /// notation with two dots between them.
    pub open spec fn rendering(self) -> Seq<char> {
        decimal(self.start as nat) + seq!['.', '.'] + decimal(self.end as nat)
    }

    /// Whether the span lies inside a text of `len` bytes.
    pub open spec fn within(self, len: nat) -> bool {
        self.start <= self.end <= len
    }

    /// The span from `start` to `end`.
    pub fn new(start: usize, end: usize) -> (span: Span)
        ensures
            span == (Span { start, end }),
    {
        Span { start, end }
    }

    /// Writes the span as it appears in a message.
    pub fn render(self) -> (text: String)
        ensures
            text@ == self.rendering(),
    {
        let mut text = render_usize(self.start);
        let end = render_usize(self.end);
        text.append("..");
        text.append(end.as_str());
        proof {
            reveal_strlit("..");
            assert(".."@ =~= seq!['.', '.']);
        }
        text
    }
}

} // verus!
