use vstd::prelude::*;
use vstd::string::*;
use vstd::utf8::encode_utf8;
use crate::span::Span;
use super::compile::CompileError;

verus! {

/// A report of an error for the user: the message, the source text that was
/// compiled, and the part of it that the message is about.
#[derive(Debug, Clone)]
pub struct Diagnostic {
    /// The error message, without the location.
    pub msg: String,
    /// The source text in which the error was found.
    pub source_code: String,
    /// The part of the source text that is at fault, where one is known.
    pub span: Option<Span>,
}

impl Diagnostic {
    /// Whether the report can show the faulty part of the source text: it
    /// names no span, or one that lies inside the source text.
    pub open spec fn span_in_source(self) -> bool {
        self.span matches Some(span) ==> span.within(encode_utf8(self.source_code@).len())
    }

    /// Tells whether the report can show the faulty part of the source text.
    pub fn has_span_in_source(&self) -> (inside: bool)
        ensures
            inside == self.span_in_source(),
    {
        match self.span {
            Some(span) => {
                let len = self.source_code.as_str().as_bytes().len();
                span.start <= span.end && span.end <= len
            },
            None => true,
        }
    }

    /// The report of a compile error found in `source_code`.
    pub fn from_compile_error(error: CompileError, source_code: &str) -> (report: Diagnostic)
        ensures
            report.msg@ == error.kind.rendering(),
            report.source_code@ == source_code@,
            report.span == error.span,
            report.span_in_source() <==> (error.span matches Some(span) ==> span.within(
                encode_utf8(source_code@).len(),
            )),
    {
        Diagnostic {
            msg: error.kind.render(),
            source_code: String::from_str(source_code),
            span: error.span,
        }
    }
}

} // verus!
