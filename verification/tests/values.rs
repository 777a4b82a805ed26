use rulex_lib::decimal::{render_i32, render_u64, render_usize};
use rulex_lib::error::{
    CompileError, CompileErrorKind, Diagnostic, Feature, ParseError, ParseErrorKind,
};
use rulex_lib::options::RegexFlavor;
use rulex_lib::span::Span;
use rulex_lib::text::str_eq;

#[test]
fn decimal_notation_of_unsigned_numbers() {
    assert_eq!(render_u64(0), "0");
    assert_eq!(render_u64(7), "7");
    assert_eq!(render_u64(10), "10");
    assert_eq!(render_u64(1009), "1009");
    assert_eq!(render_u64(u64::MAX), "18446744073709551615");
    for n in [0usize, 9, 10, 11, 99, 100, 101, 65535, usize::MAX] {
        assert_eq!(render_usize(n), n.to_string());
    }
}

#[test]
fn decimal_notation_of_signed_numbers() {
    assert_eq!(render_i32(0), "0");
    assert_eq!(render_i32(-1), "-1");
    assert_eq!(render_i32(42), "42");
    assert_eq!(render_i32(-120), "-120");
    assert_eq!(render_i32(i32::MAX), "2147483647");
    assert_eq!(render_i32(i32::MIN), "-2147483648");
    for n in [-1000, -999, -10, -9, 9, 10, 999, 1000] {
        assert_eq!(render_i32(n), n.to_string());
    }
}

#[test]
fn text_is_compared_by_its_characters() {
    assert!(str_eq("", ""));
    assert!(str_eq("abc", "abc"));
    assert!(!str_eq("abc", "abd"));
    assert!(!str_eq("abc", "ab"));
    assert!(!str_eq("ab", "abc"));
    assert!(!str_eq("", "a"));
    assert!(str_eq("größe", "größe"));
    assert!(!str_eq("große", "größe"));
}

#[test]
fn kinds_are_equal_by_variant_and_payload() {
    assert_eq!(
        CompileErrorKind::UnknownReferenceNumber(5),
        CompileErrorKind::UnknownReferenceNumber(5)
    );
    assert_ne!(
        CompileErrorKind::UnknownReferenceNumber(5),
        CompileErrorKind::UnknownReferenceNumber(6)
    );
    assert_eq!(
        CompileErrorKind::UnknownReferenceName("a".to_string()),
        CompileErrorKind::UnknownReferenceName("a".to_string())
    );
    assert_ne!(
        CompileErrorKind::UnknownReferenceName("a".to_string()),
        CompileErrorKind::UnknownReferenceName("b".to_string())
    );
    assert_ne!(
        CompileErrorKind::UnknownReferenceName("a".to_string()),
        CompileErrorKind::NameUsedMultipleTimes("a".to_string())
    );
    assert_eq!(CompileErrorKind::Other("a"), CompileErrorKind::Other("a"));
    assert_ne!(CompileErrorKind::Other("a"), CompileErrorKind::Other("b"));
    assert_ne!(
        CompileErrorKind::Other("This character class is empty"),
        CompileErrorKind::EmptyClass
    );
    assert_eq!(
        CompileErrorKind::Unsupported(Feature::Grapheme, RegexFlavor::Java),
        CompileErrorKind::Unsupported(Feature::Grapheme, RegexFlavor::Java)
    );
    assert_ne!(
        CompileErrorKind::Unsupported(Feature::Grapheme, RegexFlavor::Java),
        CompileErrorKind::Unsupported(Feature::Grapheme, RegexFlavor::Ruby)
    );
    assert_ne!(
        CompileErrorKind::Unsupported(Feature::Grapheme, RegexFlavor::Java),
        CompileErrorKind::Unsupported(Feature::Lookaround, RegexFlavor::Java)
    );
    assert_eq!(
        CompileErrorKind::ParseError(ParseErrorKind::new("x")),
        CompileErrorKind::ParseError(ParseErrorKind::new("x"))
    );
    assert_ne!(
        CompileErrorKind::ParseError(ParseErrorKind::new("x")),
        CompileErrorKind::ParseError(ParseErrorKind::new("y"))
    );
}

#[test]
fn kinds_without_payload_equal_only_themselves() {
    let kinds = vec![
        CompileErrorKind::HugeReference,
        CompileErrorKind::EmptyClass,
        CompileErrorKind::EmptyClassNegated,
        CompileErrorKind::CaptureInLet,
        CompileErrorKind::ReferenceInLet,
        CompileErrorKind::UnknownVariable,
        CompileErrorKind::RecursiveVariable,
    ];
    for (i, a) in kinds.iter().enumerate() {
        for (j, b) in kinds.iter().enumerate() {
            assert_eq!(a == b, i == j);
        }
    }
}

#[test]
fn a_copy_of_a_kind_equals_it() {
    let kinds = vec![
        CompileErrorKind::ParseError(ParseErrorKind::new("x")),
        CompileErrorKind::Unsupported(Feature::Backreference, RegexFlavor::Rust),
        CompileErrorKind::UnknownReferenceNumber(-4),
        CompileErrorKind::UnknownReferenceName("n".to_string()),
        CompileErrorKind::NameUsedMultipleTimes("n".to_string()),
        CompileErrorKind::Other("o"),
        CompileErrorKind::UnknownVariable,
    ];
    for kind in kinds {
        assert_eq!(kind.clone(), kind);
        assert_eq!(kind.clone().render(), kind.render());
    }
}

#[test]
fn at_attaches_the_span() {
    let error = CompileErrorKind::CaptureInLet.at(Span::new(2, 5));
    assert_eq!(error.kind, CompileErrorKind::CaptureInLet);
    assert_eq!(error.span, Some(Span::new(2, 5)));
    let parse_error = ParseErrorKind::new("Expected number").at(Span::new(1, 2));
    assert_eq!(parse_error.kind, ParseErrorKind::new("Expected number"));
    assert_eq!(parse_error.span, Some(Span::new(1, 2)));
}

#[test]
fn lifting_keeps_kind_and_span() {
    let parse_error = ParseErrorKind::new("Unexpected `)`").at(Span::new(8, 9));
    let error = CompileError::from(parse_error.clone());
    assert_eq!(error.span, parse_error.span);
    assert_eq!(error.kind, CompileErrorKind::ParseError(parse_error.kind.clone()));
    match error.kind {
        CompileErrorKind::ParseError(kind) => {
            let back = ParseError { kind, span: error.span };
            assert_eq!(back.kind, parse_error.kind);
            assert_eq!(back.span, parse_error.span);
        }
        _ => panic!("a lifted parse error is a parse error"),
    }
}

#[test]
fn lifting_keeps_a_missing_span() {
    let parse_error = ParseError { kind: ParseErrorKind::new("Unexpected end"), span: None };
    let error: CompileError = parse_error.into();
    assert_eq!(error.span, None);
    assert_eq!(error.render(), "Parse error: Unexpected end");
    let located: CompileError = ParseErrorKind::new("Unexpected end").at(Span::new(4, 4)).into();
    assert_eq!(located.render(), "Parse error: Unexpected end\n  at 4..4");
}

#[test]
fn parse_error_kind_is_worded_by_its_message() {
    let kind = ParseErrorKind::new("Expected string");
    assert_eq!(kind.message, "Expected string");
    assert_eq!(kind.render(), "Expected string");
    assert_ne!(kind, ParseErrorKind::new("Expected strin"));
}

#[test]
fn diagnostic_joins_error_and_source() {
    let source = "let x = x; x";
    let error = CompileErrorKind::RecursiveVariable.at(Span::new(8, 9));
    let report = error.diagnostic(source);
    assert_eq!(report.msg, "Variables can't be used recursively");
    assert_eq!(report.source_code, source);
    assert_eq!(report.span, Some(Span::new(8, 9)));
    assert!(report.has_span_in_source());
}

#[test]
fn diagnostic_without_span() {
    let error = CompileError { kind: CompileErrorKind::UnknownVariable, span: None };
    let report = error.diagnostic("y");
    assert_eq!(report.msg, "Variable doesn't exist");
    assert_eq!(report.source_code, "y");
    assert_eq!(report.span, None);
    assert!(report.has_span_in_source());
    let empty = CompileError { kind: CompileErrorKind::UnknownVariable, span: None }.diagnostic("");
    assert_eq!(empty.source_code, "");
    assert!(empty.has_span_in_source());
}

#[test]
fn diagnostic_from_compile_error_is_what_diagnostic_gives() {
    let kind = CompileErrorKind::Unsupported(Feature::UnicodeProp, RegexFlavor::JavaScript);
    let a = kind.clone().at(Span::new(0, 5)).diagnostic("[Latin]");
    let b = Diagnostic::from_compile_error(kind.clone().at(Span::new(0, 5)), "[Latin]");
    assert_eq!(a.msg, b.msg);
    assert_eq!(a.source_code, b.source_code);
    assert_eq!(a.span, b.span);
    assert_eq!(
        a.msg,
        "Compile error: Unsupported feature `Unicode properties (\\p{Property})` in the `JavaScript` regex flavor"
    );
}

#[test]
fn diagnostic_tells_a_span_outside_the_source() {
    let inside = CompileErrorKind::EmptyClass.at(Span::new(0, 2)).diagnostic("[]");
    assert!(inside.has_span_in_source());
    let beyond = CompileErrorKind::EmptyClass.at(Span::new(0, 3)).diagnostic("[]");
    assert!(!beyond.has_span_in_source());
    let reversed = CompileErrorKind::EmptyClass.at(Span::new(2, 1)).diagnostic("[]");
    assert!(!reversed.has_span_in_source());
    let bytes = CompileErrorKind::EmptyClass.at(Span::new(0, 3)).diagnostic("[ß");
    assert!(bytes.has_span_in_source());
}
