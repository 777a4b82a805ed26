use vstd::prelude::*;
use vstd::std_specs::cmp::PartialEqSpecImpl;
use vstd::std_specs::convert::FromSpecImpl;
use vstd::string::*;
use vstd::utf8::encode_utf8;
use crate::decimal::{render_i32, signed_decimal};
use crate::options::RegexFlavor;
use crate::span::Span;
use crate::text::str_eq;
use super::diagnostic::Diagnostic;
use super::parse::{ParseError, ParseErrorKind};

verus! {

/// An error kind (without span) that can occur during parsing or compiling
#[derive(Debug, Clone, Eq)]
#[non_exhaustive]
pub enum CompileErrorKind {
    /// The parser failed.
    ParseError(ParseErrorKind),
    /// The program uses a feature that the regex flavor cannot express.
    Unsupported(Feature, RegexFlavor),
    /// The number of a referenced group is too large to represent.
    HugeReference,
    /// A reference to a group number that does not exist.
    UnknownReferenceNumber(i32),
    /// A reference to a group name that does not exist.
    UnknownReferenceName(String),
    /// Two capturing groups have the same name.
    NameUsedMultipleTimes(String),
    /// A character class without members.
    EmptyClass,
    /// A negated character class that excludes every character.
    EmptyClassNegated,
    /// A capturing group inside a `let` statement.
    CaptureInLet,
    /// A reference inside a `let` statement.
    ReferenceInLet,
    /// A variable that is not bound where it is used.
    UnknownVariable,
    /// A variable whose definition leads back to itself.
    RecursiveVariable,
    /// An error with a message of its own.
    Other(&'static str),
}

impl CompileErrorKind {
    /// The text of the kind in a message: a fixed wording for each variant,
    /// with the variant's payload filled in.
    pub open spec fn rendering(self) -> Seq<char> {
        match self {
            CompileErrorKind::ParseError(kind) => "Parse error: "@ + kind.rendering(),
            CompileErrorKind::Unsupported(feature, flavor) => {
                "Compile error: Unsupported feature `"@ + feature.description() + "` in the `"@
                    + flavor.label() + "` regex flavor"@
            },
            CompileErrorKind::HugeReference => "Group references this large aren't supported"@,
            CompileErrorKind::UnknownReferenceNumber(number) => {
                "Reference to unknown group. There is no group number "@ + signed_decimal(
                    number as int,
                )
            },
            CompileErrorKind::UnknownReferenceName(name) => {
                "Reference to unknown group. There is no group named `"@ + name@ + "`"@
            },
            CompileErrorKind::NameUsedMultipleTimes(name) => {
                "Compile error: Group name `"@ + name@ + "` used multiple times"@
            },
            CompileErrorKind::EmptyClass => "Compile error: This character class is empty"@,
            CompileErrorKind::EmptyClassNegated => {
                "Compile error: This negated character class matches nothing"@
            },
            CompileErrorKind::CaptureInLet => {
                "Capturing groups within `let` statements are currently not supported"@
            },
            CompileErrorKind::ReferenceInLet => {
                "References within `let` statements are currently not supported"@
            },
            CompileErrorKind::UnknownVariable => "Variable doesn't exist"@,
            CompileErrorKind::RecursiveVariable => "Variables can't be used recursively"@,
            CompileErrorKind::Other(message) => "Compile error: "@ + message@,
        }
    }

    /// Writes the kind as it appears in a message.
    pub fn render(&self) -> (text: String)
        ensures
            text@ == self.rendering(),
    {
        match self {
            CompileErrorKind::ParseError(kind) => {
                let inner = kind.render();
                let mut text = String::from_str("Parse error: ");
                text.append(inner.as_str());
                text
            },
            CompileErrorKind::Unsupported(feature, flavor) => {
                let mut text = String::from_str("Compile error: Unsupported feature `");
                text.append(feature.name());
                text.append("` in the `");
                text.append(flavor.name());
                text.append("` regex flavor");
                text
            },
            CompileErrorKind::HugeReference => {
                String::from_str("Group references this large aren't supported")
            },
            CompileErrorKind::UnknownReferenceNumber(number) => {
                let digits = render_i32(*number);
                let mut text = String::from_str(
                    "Reference to unknown group. There is no group number ",
                );
                text.append(digits.as_str());
                text
            },
            CompileErrorKind::UnknownReferenceName(name) => {
                let mut text = String::from_str(
                    "Reference to unknown group. There is no group named `",
                );
                text.append(name.as_str());
                text.append("`");
                text
            },
            CompileErrorKind::NameUsedMultipleTimes(name) => {
                let mut text = String::from_str("Compile error: Group name `");
                text.append(name.as_str());
                text.append("` used multiple times");
                text
            },
            CompileErrorKind::EmptyClass => {
                String::from_str("Compile error: This character class is empty")
            },
            CompileErrorKind::EmptyClassNegated => {
                String::from_str("Compile error: This negated character class matches nothing")
            },
            CompileErrorKind::CaptureInLet => {
                String::from_str(
                    "Capturing groups within `let` statements are currently not supported",
                )
            },
            CompileErrorKind::ReferenceInLet => {
                String::from_str("References within `let` statements are currently not supported")
            },
            CompileErrorKind::UnknownVariable => String::from_str("Variable doesn't exist"),
            CompileErrorKind::RecursiveVariable => {
                String::from_str("Variables can't be used recursively")
            },
            CompileErrorKind::Other(message) => {
                let mut text = String::from_str("Compile error: ");
                text.append(message);
                text
            },
        }
    }

    /// The error of this kind at `span`.
    pub fn at(self, span: Span) -> (error: CompileError)
        ensures
            error.kind == self,
            error.span == Some(span),
    {
        CompileError { kind: self, span: Some(span) }
    }
}

impl PartialEq for CompileErrorKind {
    fn eq(&self, other: &CompileErrorKind) -> (same: bool) {
        match (self, other) {
            (CompileErrorKind::ParseError(a), CompileErrorKind::ParseError(b)) => *a == *b,
            (CompileErrorKind::Unsupported(f, x), CompileErrorKind::Unsupported(g, y)) => {
                *f == *g && *x == *y
            },
            (CompileErrorKind::HugeReference, CompileErrorKind::HugeReference) => true,
            (
                CompileErrorKind::UnknownReferenceNumber(a),
                CompileErrorKind::UnknownReferenceNumber(b),
            ) => *a == *b,
            (
                CompileErrorKind::UnknownReferenceName(a),
                CompileErrorKind::UnknownReferenceName(b),
            ) => *a == *b,
            (
                CompileErrorKind::NameUsedMultipleTimes(a),
                CompileErrorKind::NameUsedMultipleTimes(b),
            ) => *a == *b,
            (CompileErrorKind::EmptyClass, CompileErrorKind::EmptyClass) => true,
            (CompileErrorKind::EmptyClassNegated, CompileErrorKind::EmptyClassNegated) => true,
            (CompileErrorKind::CaptureInLet, CompileErrorKind::CaptureInLet) => true,
            (CompileErrorKind::ReferenceInLet, CompileErrorKind::ReferenceInLet) => true,
            (CompileErrorKind::UnknownVariable, CompileErrorKind::UnknownVariable) => true,
            (CompileErrorKind::RecursiveVariable, CompileErrorKind::RecursiveVariable) => true,
            (CompileErrorKind::Other(a), CompileErrorKind::Other(b)) => str_eq(a, b),
            _ => false,
        }
    }
}

impl PartialEqSpecImpl for CompileErrorKind {
    open spec fn obeys_eq_spec() -> bool {
        true
    }

    /// Two kinds are equal where they are the same variant with the same
    /// payload; text is compared by its characters.
    open spec fn eq_spec(&self, other: &CompileErrorKind) -> bool {
        match (*self, *other) {
            (CompileErrorKind::ParseError(a), CompileErrorKind::ParseError(b)) => {
                a.message@ == b.message@
            },
            (CompileErrorKind::Unsupported(f, x), CompileErrorKind::Unsupported(g, y)) => {
                f == g && x == y
            },
            (CompileErrorKind::HugeReference, CompileErrorKind::HugeReference) => true,
            (
                CompileErrorKind::UnknownReferenceNumber(a),
                CompileErrorKind::UnknownReferenceNumber(b),
            ) => a == b,
            (
                CompileErrorKind::UnknownReferenceName(a),
                CompileErrorKind::UnknownReferenceName(b),
            ) => a@ == b@,
            (
                CompileErrorKind::NameUsedMultipleTimes(a),
                CompileErrorKind::NameUsedMultipleTimes(b),
            ) => a@ == b@,
            (CompileErrorKind::EmptyClass, CompileErrorKind::EmptyClass) => true,
            (CompileErrorKind::EmptyClassNegated, CompileErrorKind::EmptyClassNegated) => true,
            (CompileErrorKind::CaptureInLet, CompileErrorKind::CaptureInLet) => true,
            (CompileErrorKind::ReferenceInLet, CompileErrorKind::ReferenceInLet) => true,
            (CompileErrorKind::UnknownVariable, CompileErrorKind::UnknownVariable) => true,
            (CompileErrorKind::RecursiveVariable, CompileErrorKind::RecursiveVariable) => true,
            (CompileErrorKind::Other(a), CompileErrorKind::Other(b)) => a@ == b@,
            _ => false,
        }
    }
}

/// An error that can occur during parsing or compiling
#[derive(Debug, Clone)]
pub struct CompileError {
    pub kind: CompileErrorKind,
    pub span: Option<Span>,
}

/// The line that names a span below a message.
pub open spec fn location_line(span: Span) -> Seq<char> {
    "  at "@ + span.rendering()
}

impl CompileError {
    /// The text of the error: the text of its kind, and below it, where the
    /// error has a span, the line that names the span.
    pub open spec fn rendering(self) -> Seq<char> {
        match self.span {
            Some(span) => self.kind.rendering() + seq!['\n'] + location_line(span),
            None => self.kind.rendering(),
        }
    }

    /// Writes the error as it appears in a message.
    pub fn render(&self) -> (text: String)
        ensures
            text@ == self.rendering(),
    {
        let mut text = self.kind.render();
        if let Some(span) = self.span {
            let place = span.render();
            text.append("\n  at ");
            text.append(place.as_str());
            proof {
                reveal_strlit("\n  at ");
                reveal_strlit("  at ");
                assert("\n  at "@ =~= seq!['\n'] + "  at "@);
                assert(text@ =~= self.rendering());
            }
        }
        text
    }

    /// Create a [Diagnostic] from this error.
    pub fn diagnostic(self, source_code: &str) -> (report: Diagnostic)
        ensures
            report.msg@ == self.kind.rendering(),
            report.source_code@ == source_code@,
            report.span == self.span,
            report.span_in_source() <==> (self.span matches Some(span) ==> span.within(
                encode_utf8(source_code@).len(),
            )),
    {
        Diagnostic::from_compile_error(self, source_code)
    }
}

impl From<ParseError> for CompileError {
    /// Lifts a parse error: the compile error wraps its kind and has its
    /// span.
    fn from(e: ParseError) -> (error: CompileError)
        ensures
            error.kind == CompileErrorKind::ParseError(e.kind),
            error.span == e.span,
    {
        CompileError { kind: CompileErrorKind::ParseError(e.kind), span: e.span }
    }
}

impl FromSpecImpl<ParseError> for CompileError {
    open spec fn obeys_from_spec() -> bool {
        true
    }

    /// A parse error becomes the compile error that wraps its kind and has
    /// its span.
    open spec fn from_spec(e: ParseError) -> CompileError {
        CompileError { kind: CompileErrorKind::ParseError(e.kind), span: e.span }
    }
}

/// Regex feature, possibly unsupported
#[derive(Debug, Clone, Copy, PartialEq, Eq, Structural)]
#[non_exhaustive]
pub enum Feature {
    NamedCaptureGroups,
    Lookaround,
    Grapheme,
    UnicodeBlock,
    UnicodeProp,
    Backreference,
    ForwardReference,
    RelativeReference,
    NonNegativeRelativeReference,
    NegativeShorthandW,
}

impl Feature {
    /// The words that describe the feature in a message.
    pub open spec fn description(self) -> Seq<char> {
        match self {
            Feature::NamedCaptureGroups => "named capture groups"@,
            Feature::Lookaround => "lookahead/behind"@,
            Feature::Grapheme => "grapheme cluster matcher (\\X)"@,
            Feature::UnicodeBlock => "Unicode blocks (\\p{InBlock})"@,
            Feature::UnicodeProp => "Unicode properties (\\p{Property})"@,
            Feature::Backreference => "Backreference"@,
            Feature::ForwardReference => "Forward reference"@,
            Feature::RelativeReference => "Relative backreference"@,
            Feature::NonNegativeRelativeReference => "Non-negative relative backreference"@,
            Feature::NegativeShorthandW => "Negative `\\w` shorthand in character class"@,
        }
    }

    /// The number of characters in the feature's description.
    spec fn description_len(self) -> nat {
        match self {
            Feature::NamedCaptureGroups => 20,
            Feature::Lookaround => 16,
            Feature::Grapheme => 29,
            Feature::UnicodeBlock => 28,
            Feature::UnicodeProp => 33,
            Feature::Backreference => 13,
            Feature::ForwardReference => 17,
            Feature::RelativeReference => 22,
            Feature::NonNegativeRelativeReference => 35,
            Feature::NegativeShorthandW => 42,
        }
    }

    proof fn lemma_description_len(self)
        ensures
            self.description().len() == self.description_len(),
    {
        reveal_strlit("named capture groups");
        reveal_strlit("lookahead/behind");
        reveal_strlit("grapheme cluster matcher (\\X)");
        reveal_strlit("Unicode blocks (\\p{InBlock})");
        reveal_strlit("Unicode properties (\\p{Property})");
        reveal_strlit("Backreference");
        reveal_strlit("Forward reference");
        reveal_strlit("Relative backreference");
        reveal_strlit("Non-negative relative backreference");
        reveal_strlit("Negative `\\w` shorthand in character class");
    }

    /// No feature has an empty description, and two features with the same
    /// description are the same feature.
    pub proof fn lemma_descriptions_distinct(a: Feature, b: Feature)
        ensures
            a.description().len() > 0,
            a.description() == b.description() <==> a == b,
    {
        a.lemma_description_len();
        b.lemma_description_len();
    }

    /// The words that describe the feature in a message.
    pub fn name(self) -> (text: &'static str)
        ensures
            text@ == self.description(),
            text@.len() > 0,
    {
        proof {
            self.lemma_description_len();
        }
        match self {
            Feature::NamedCaptureGroups => "named capture groups",
            Feature::Lookaround => "lookahead/behind",
            Feature::Grapheme => "grapheme cluster matcher (\\X)",
            Feature::UnicodeBlock => "Unicode blocks (\\p{InBlock})",
            Feature::UnicodeProp => "Unicode properties (\\p{Property})",
            Feature::Backreference => "Backreference",
            Feature::ForwardReference => "Forward reference",
            Feature::RelativeReference => "Relative backreference",
            Feature::NonNegativeRelativeReference => "Non-negative relative backreference",
            Feature::NegativeShorthandW => "Negative `\\w` shorthand in character class",
        }
    }
}

} // verus!
