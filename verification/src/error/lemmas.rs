//! What holds of every error and of its text.

use vstd::prelude::*;
use vstd::std_specs::cmp::PartialEqSpec;
use vstd::std_specs::convert::FromSpec;
use vstd::string::*;
use crate::decimal::{decimal, is_digit, lemma_decimal_shape, signed_decimal};
use crate::options::RegexFlavor;
use crate::span::Span;
use crate::text::{
    has_line, last_line, lemma_last_line_after_break, lemma_single_line_has_one_line, single_line,
};
use super::compile::{location_line, CompileError, CompileErrorKind, Feature};
use super::parse::ParseError;

verus! {

/// Numbers are written without a line break.
pub proof fn lemma_decimal_single_line(i: int)
    ensures
        single_line(signed_decimal(i)),
        i >= 0 ==> single_line(decimal(i as nat)),
{
    if i < 0 {
        lemma_decimal_shape((-i) as nat);
        let digits = decimal((-i) as nat);
        assert forall|k: int| 0 <= k < signed_decimal(i).len() implies signed_decimal(i)[k]
            != '\n' by {
            if k > 0 {
                assert(signed_decimal(i)[k] == digits[k - 1]);
                assert(is_digit(digits[k - 1]));
            }
        }
    } else {
        lemma_decimal_shape(i as nat);
        let digits = decimal(i as nat);
        assert forall|k: int| 0 <= k < digits.len() implies digits[k] != '\n' by {
            assert(is_digit(digits[k]));
        }
    }
}

/// The line that names a span is one line, and it begins with a space.
pub proof fn lemma_location_line_shape(span: Span)
    ensures
        single_line(span.rendering()),
        single_line(location_line(span)),
        location_line(span).len() > 0,
        location_line(span)[0] == ' ',
{
    reveal_strlit("  at ");
    lemma_decimal_single_line(span.start as int);
    lemma_decimal_single_line(span.end as int);
}

/// The text of an error with a span is the text of its kind, a line break,
/// and the line that names the span: that line is its last.
pub proof fn lemma_located_ends_with_location_line(kind: CompileErrorKind, span: Span)
    ensures
        ({
            let error = CompileError { kind, span: Some(span) };
            &&& error.rendering() == kind.rendering() + seq!['\n'] + location_line(span)
            &&& last_line(error.rendering()) == location_line(span)
            &&& has_line(error.rendering(), location_line(span))
        }),
{
    let error = CompileError { kind, span: Some(span) };
    let text = error.rendering();
    let line = location_line(span);
    lemma_location_line_shape(span);
    lemma_last_line_after_break(kind.rendering(), line);
    let i: int = kind.rendering().len() as int + 1;
    assert(text.subrange(i, text.len() as int) =~= line);
    assert(text[i - 1] == '\n');
}

/// The text of an error without a span is the text of its kind and nothing
/// more: it has a line only where the text of the kind has it.
pub proof fn lemma_unlocated_adds_no_line(kind: CompileErrorKind, line: Seq<char>)
    ensures
        ({
            let error = CompileError { kind, span: None };
            &&& error.rendering() == kind.rendering()
            &&& has_line(error.rendering(), line) <==> has_line(kind.rendering(), line)
        }),
{
}

/// Whether the text that a kind carries has no line break in it. A kind that
/// carries no text, or a number, or a feature and a flavor, has none.
pub open spec fn payload_on_one_line(kind: CompileErrorKind) -> bool {
    match kind {
        CompileErrorKind::ParseError(inner) => single_line(inner.rendering()),
        CompileErrorKind::UnknownReferenceName(name) => single_line(name@),
        CompileErrorKind::NameUsedMultipleTimes(name) => single_line(name@),
        CompileErrorKind::Other(message) => single_line(message@),
        _ => true,
    }
}

/// The description of a feature has no line break in it.
pub proof fn lemma_description_single_line(feature: Feature)
    ensures
        single_line(feature.description()),
{
    reveal_strlit("named capture groups");
    reveal_strlit("lookahead/behind");
    reveal_strlit("grapheme cluster matcher (\\X)");
    reveal_strlit("Unicode blocks (\\p{InBlock})");
    reveal_strlit("Unicode properties (\\p{Property})");
    reveal_strlit("Backreference");
    reveal_strlit("Forward reference");
    reveal_strlit("Relative backreference");
    reveal_strlit("Non-negative relative backreference");
    reveal_strlit("Negative `\\w` shorthand in character class");
}

/// The name of a flavor has no line break in it.
pub proof fn lemma_label_single_line(flavor: RegexFlavor)
    ensures
        single_line(flavor.label()),
{
    reveal_strlit("Pcre");
    reveal_strlit("Python");
    reveal_strlit("Java");
    reveal_strlit("JavaScript");
    reveal_strlit("DotNet");
    reveal_strlit("Ruby");
    reveal_strlit("Rust");
}

/// A kind whose payload has no line break is worded in one line, which
/// begins with a letter: no line of it names a span, and so none does in the
/// text of the error of this kind that has no span.
pub proof fn lemma_one_line_kind_names_no_span(kind: CompileErrorKind, span: Span)
    requires
        payload_on_one_line(kind),
    ensures
        single_line(kind.rendering()),
        !has_line(kind.rendering(), location_line(span)),
        !has_line((CompileError { kind, span: None }).rendering(), location_line(span)),
{
    let text = kind.rendering();
    reveal_strlit("Parse error: ");
    reveal_strlit("Compile error: Unsupported feature `");
    reveal_strlit("` in the `");
    reveal_strlit("` regex flavor");
    reveal_strlit("Group references this large aren't supported");
    reveal_strlit("Reference to unknown group. There is no group number ");
    reveal_strlit("Reference to unknown group. There is no group named `");
    reveal_strlit("`");
    reveal_strlit("Compile error: Group name `");
    reveal_strlit("` used multiple times");
    reveal_strlit("Compile error: This character class is empty");
    reveal_strlit("Compile error: This negated character class matches nothing");
    reveal_strlit("Capturing groups within `let` statements are currently not supported");
    reveal_strlit("References within `let` statements are currently not supported");
    reveal_strlit("Variable doesn't exist");
    reveal_strlit("Variables can't be used recursively");
    reveal_strlit("Compile error: ");
    match kind {
        CompileErrorKind::Unsupported(feature, flavor) => {
            lemma_description_single_line(feature);
            lemma_label_single_line(flavor);
        },
        CompileErrorKind::UnknownReferenceNumber(number) => {
            lemma_decimal_single_line(number as int);
        },
        _ => {},
    }
    assert(single_line(text));
    assert(text.len() > 0 && text[0] != ' ');
    lemma_location_line_shape(span);
    lemma_single_line_has_one_line(text, location_line(span));
}

/// Lifting a parse error keeps its span and wraps its kind: taking the kind
/// out of the compile error again, with the span, gives the parse error back.
pub proof fn lemma_lift_keeps_kind_and_span(e: ParseError)
    ensures
        <CompileError as FromSpec<ParseError>>::obeys_from_spec(),
        CompileError::from_spec(e).span == e.span,
        CompileError::from_spec(e).kind == CompileErrorKind::ParseError(e.kind),
        CompileError::from_spec(e).kind matches CompileErrorKind::ParseError(kind) && (ParseError {
            kind,
            span: CompileError::from_spec(e).span,
        }) == e,
{
}

/// Equality of kinds is an equivalence: a kind equals itself, equality does
/// not depend on the side a kind stands on, and two kinds that equal a third
/// equal each other. Equal kinds have the same text.
pub proof fn lemma_kind_equality(a: CompileErrorKind, b: CompileErrorKind, c: CompileErrorKind)
    ensures
        CompileErrorKind::obeys_eq_spec(),
        a.eq_spec(&a),
        a.eq_spec(&b) == b.eq_spec(&a),
        a.eq_spec(&b) && b.eq_spec(&c) ==> a.eq_spec(&c),
        a == b ==> a.eq_spec(&b),
        a.eq_spec(&b) ==> a.rendering() == b.rendering(),
{
}

} // verus!
