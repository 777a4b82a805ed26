use vstd::prelude::*;
use vstd::std_specs::cmp::PartialEqSpecImpl;
use vstd::string::*;
use crate::span::Span;

verus! {

/// What the parser found wrong with the source text, held as the message in
/// which the parser words it.
#[derive(Debug, Clone, Eq)]
pub struct ParseErrorKind {
    pub message: String,
}

impl ParseErrorKind {
    /// The text of the kind in a message: the parser's own words.
    pub open spec fn rendering(self) -> Seq<char> {
        self.message@
    }

    /// The kind that the parser words as `message`.
    pub fn new(message: &str) -> (kind: ParseErrorKind)
        ensures
            kind.message@ == message@,
    {
        ParseErrorKind { message: String::from_str(message) }
    }

    /// Writes the kind as it appears in a message.
    pub fn render(&self) -> (text: String)
        ensures
            text@ == self.rendering(),
    {
        self.message.clone()
    }

    /// The parse error of this kind at `span`.
    pub fn at(self, span: Span) -> (error: ParseError)
        ensures
            error.kind == self,
            error.span == Some(span),
    {
        ParseError { kind: self, span: Some(span) }
    }
}

impl PartialEq for ParseErrorKind {
    fn eq(&self, other: &ParseErrorKind) -> (same: bool) {
        self.message == other.message
    }
}

impl PartialEqSpecImpl for ParseErrorKind {
    open spec fn obeys_eq_spec() -> bool {
        true
    }

    open spec fn eq_spec(&self, other: &ParseErrorKind) -> bool {
        self.message@ == other.message@
    }
}

/// An error that the parser reports: its kind, and where in the source text
/// it lies, if that is known.
#[derive(Debug, Clone)]
pub struct ParseError {
    pub kind: ParseErrorKind,
    pub span: Option<Span>,
}

} // verus!
