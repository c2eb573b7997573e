use no_self_assign::ast::JsLiteral;
use no_self_assign::ast::SourceRange;
use no_self_assign::ast::SourceToken;
use no_self_assign::idents::IdentifiersLike;
use no_self_assign::with_same_identifiers;

fn tok(text: &str, start: u32) -> SourceToken {
    SourceToken {
        text: text.as_bytes().to_vec(),
        range: SourceRange { start, end: start + text.len() as u32 },
    }
}

#[test]
fn identifier_and_reference_match_on_equal_text() {
    let pair = IdentifiersLike::IdentifierAndReference(tok("alpha", 0), tok("alpha", 8));
    assert!(with_same_identifiers(&pair));
    let differing = IdentifiersLike::IdentifierAndReference(tok("alpha", 0), tok("beta", 8));
    assert!(!with_same_identifiers(&differing));
}

#[test]
fn member_names_and_private_names_compare_by_text() {
    assert!(with_same_identifiers(&IdentifiersLike::Name(tok("m", 2), tok("m", 8))));
    assert!(!with_same_identifiers(&IdentifiersLike::Name(tok("m", 2), tok("n", 8))));
    assert!(with_same_identifiers(&IdentifiersLike::PrivateName(tok("p", 2), tok("p", 9))));
    assert!(with_same_identifiers(&IdentifiersLike::References(tok("r", 2), tok("r", 7))));
}

#[test]
fn string_literals_compare_unquoted() {
    let pair = IdentifiersLike::Literal(
        JsLiteral::Str(tok("'key'", 2)),
        JsLiteral::Str(tok("\"key\"", 12)),
    );
    assert!(with_same_identifiers(&pair));
    let differing = IdentifiersLike::Literal(
        JsLiteral::Str(tok("'key'", 2)),
        JsLiteral::Str(tok("'lock'", 12)),
    );
    assert!(!with_same_identifiers(&differing));
}

#[test]
fn number_literals_compare_by_source_text() {
    let same = IdentifiersLike::Literal(
        JsLiteral::Num(tok("10", 2)),
        JsLiteral::Num(tok("10", 8)),
    );
    assert!(with_same_identifiers(&same));
    // Numeric equality is not enough: the comparison is syntactic.
    let written_differently = IdentifiersLike::Literal(
        JsLiteral::Num(tok("1", 2)),
        JsLiteral::Num(tok("1.0", 8)),
    );
    assert!(!with_same_identifiers(&written_differently));
}

#[test]
fn mixed_literal_kinds_never_match() {
    let string_vs_number = IdentifiersLike::Literal(
        JsLiteral::Str(tok("'1'", 2)),
        JsLiteral::Num(tok("1", 9)),
    );
    assert!(!with_same_identifiers(&string_vs_number));
    let booleans = IdentifiersLike::Literal(
        JsLiteral::Other(tok("true", 2)),
        JsLiteral::Other(tok("true", 9)),
    );
    assert!(!with_same_identifiers(&booleans));
}

#[test]
fn leaf_accessors_expose_both_sides() {
    let pair = IdentifiersLike::IdentifierAndReference(tok("v", 3), tok("v", 7));
    assert_eq!(pair.left_range(), SourceRange { start: 3, end: 4 });
    assert_eq!(pair.right_range(), SourceRange { start: 7, end: 8 });
    assert_eq!(pair.name().text, b"v".to_vec());
    assert_eq!(pair.name().range, SourceRange { start: 7, end: 8 });
}
