use no_self_assign::NoSelfAssign;
use no_self_assign::ast::JsArrayElement;
use no_self_assign::ast::JsArrayPatternElement;
use no_self_assign::ast::JsAssignment;
use no_self_assign::ast::JsAssignmentExpression;
use no_self_assign::ast::JsAssignmentOperator;
use no_self_assign::ast::JsAssignmentPattern;
use no_self_assign::ast::JsExpr;
use no_self_assign::ast::JsLiteral;
use no_self_assign::ast::JsMemberName;
use no_self_assign::ast::JsObjectMember;
use no_self_assign::ast::JsObjectPatternMember;
use no_self_assign::ast::SourceRange;
use no_self_assign::ast::SourceToken;
use no_self_assign::idents::IdentifiersLike;

fn tok(text: &str, start: u32) -> SourceToken {
    SourceToken {
        text: text.as_bytes().to_vec(),
        range: SourceRange { start, end: start + text.len() as u32 },
    }
}

fn reference(name: &str, start: u32) -> JsExpr {
    JsExpr::Reference(tok(name, start))
}

fn ident_target(name: &str, start: u32) -> JsAssignmentPattern {
    JsAssignmentPattern::Assignment(JsAssignment::Identifier(tok(name, start)))
}

fn assignment(
    left: JsAssignmentPattern,
    right: JsExpr,
    operator: JsAssignmentOperator,
) -> JsAssignmentExpression {
    JsAssignmentExpression { left, right, operator }
}

fn plain(left: JsAssignmentPattern, right: JsExpr) -> JsAssignmentExpression {
    assignment(left, right, JsAssignmentOperator::Assign)
}

fn array_pattern(elements: Vec<JsAssignmentPattern>) -> JsAssignmentPattern {
    JsAssignmentPattern::ArrayPattern(
        elements
            .into_iter()
            .map(|pattern| JsArrayPatternElement::Element { pattern, has_default: false })
            .collect(),
    )
}

fn array_literal(elements: Vec<JsExpr>) -> JsExpr {
    JsExpr::Array(elements.into_iter().map(JsArrayElement::Expression).collect())
}

/// `object.member` as an expression.
fn static_member(object: JsExpr, member: &str, member_start: u32) -> JsExpr {
    JsExpr::StaticMember(Box::new(object), JsMemberName::Name(tok(member, member_start)))
}

/// `object.member` as an assignment target.
fn static_member_target(object: JsExpr, member: &str, member_start: u32) -> JsAssignmentPattern {
    JsAssignmentPattern::Assignment(JsAssignment::StaticMember(
        Box::new(object),
        JsMemberName::Name(tok(member, member_start)),
    ))
}

/// `object[key]` as an expression.
fn computed_member(object: JsExpr, key: JsExpr) -> JsExpr {
    JsExpr::ComputedMember(Box::new(object), Box::new(key))
}

/// `object[key]` as an assignment target.
fn computed_member_target(object: JsExpr, key: JsExpr) -> JsAssignmentPattern {
    JsAssignmentPattern::Assignment(JsAssignment::ComputedMember(
        Box::new(object),
        Box::new(key),
    ))
}

fn str_literal(raw: &str, start: u32) -> JsExpr {
    JsExpr::Literal(JsLiteral::Str(tok(raw, start)))
}

fn num_literal(raw: &str, start: u32) -> JsExpr {
    JsExpr::Literal(JsLiteral::Num(tok(raw, start)))
}

fn ranges(signal: &IdentifiersLike) -> (SourceRange, SourceRange) {
    (signal.left_range(), signal.right_range())
}

#[test]
fn simple_identifier_self_assignment() {
    // a = a
    let node = plain(ident_target("a", 0), reference("a", 4));
    let signals = NoSelfAssign::run(&node);
    assert_eq!(signals.len(), 1);
    let (left, right) = ranges(&signals[0]);
    assert_eq!(left, SourceRange { start: 0, end: 1 });
    assert_eq!(right, SourceRange { start: 4, end: 5 });
    assert_eq!(signals[0].name().text, b"a".to_vec());
}

#[test]
fn compound_bitwise_operator_is_ignored() {
    // a &= a
    let node = assignment(
        ident_target("a", 0),
        reference("a", 5),
        JsAssignmentOperator::Other,
    );
    assert_eq!(NoSelfAssign::run(&node).len(), 0);
}

#[test]
fn logical_assignment_operators_are_examined() {
    // a &&= a ; a ||= a ; a ??= a
    for operator in [
        JsAssignmentOperator::LogicalAndAssign,
        JsAssignmentOperator::LogicalOrAssign,
        JsAssignmentOperator::NullishCoalescingAssign,
    ] {
        let node = assignment(ident_target("a", 0), reference("a", 6), operator);
        assert_eq!(NoSelfAssign::run(&node).len(), 1);
    }
}

#[test]
fn different_identifiers_do_not_signal() {
    // a = b
    let node = plain(ident_target("a", 0), reference("b", 4));
    assert_eq!(NoSelfAssign::run(&node).len(), 0);
}

#[test]
fn swapped_array_positions_do_not_signal() {
    // [a, b] = [b, a]
    let node = plain(
        array_pattern(vec![ident_target("a", 1), ident_target("b", 4)]),
        array_literal(vec![reference("b", 10), reference("a", 13)]),
    );
    assert_eq!(NoSelfAssign::run(&node).len(), 0);
}

#[test]
fn single_element_array_signals() {
    // [a] = [a]
    let node = plain(
        array_pattern(vec![ident_target("a", 1)]),
        array_literal(vec![reference("a", 7)]),
    );
    let signals = NoSelfAssign::run(&node);
    assert_eq!(signals.len(), 1);
    let (left, right) = ranges(&signals[0]);
    assert_eq!(left, SourceRange { start: 1, end: 2 });
    assert_eq!(right, SourceRange { start: 7, end: 8 });
}

#[test]
fn default_value_suppresses_the_signal() {
    // [a = 1] = [a]
    let node = plain(
        JsAssignmentPattern::ArrayPattern(vec![JsArrayPatternElement::Element {
            pattern: ident_target("a", 1),
            has_default: true,
        }]),
        array_literal(vec![reference("a", 11)]),
    );
    assert_eq!(NoSelfAssign::run(&node).len(), 0);
}

#[test]
fn object_property_value_signals() {
    // ({a: b} = {a: b})
    let node = plain(
        JsAssignmentPattern::ObjectPattern(vec![JsObjectPatternMember::Property(
            ident_target("b", 5),
        )]),
        JsExpr::Object(vec![JsObjectMember::Property(reference("b", 15))]),
    );
    let signals = NoSelfAssign::run(&node);
    assert_eq!(signals.len(), 1);
    let (left, right) = ranges(&signals[0]);
    assert_eq!(left, SourceRange { start: 5, end: 6 });
    assert_eq!(right, SourceRange { start: 15, end: 16 });
    assert_eq!(signals[0].name().text, b"b".to_vec());
}

#[test]
fn object_shorthand_signals() {
    // ({a} = {a})
    let node = plain(
        JsAssignmentPattern::ObjectPattern(vec![JsObjectPatternMember::Shorthand(tok("a", 2))]),
        JsExpr::Object(vec![JsObjectMember::Shorthand(tok("a", 9))]),
    );
    assert_eq!(NoSelfAssign::run(&node).len(), 1);
}

#[test]
fn static_member_chain_signals() {
    // a.b = a.b
    let node = plain(
        static_member_target(reference("a", 0), "b", 2),
        static_member(reference("a", 6), "b", 8),
    );
    let signals = NoSelfAssign::run(&node);
    assert_eq!(signals.len(), 1);
    let (left, right) = ranges(&signals[0]);
    assert_eq!(left, SourceRange { start: 2, end: 3 });
    assert_eq!(right, SourceRange { start: 8, end: 9 });
    assert_eq!(signals[0].name().text, b"b".to_vec());
}

#[test]
fn static_member_different_base_does_not_signal() {
    // a.b = c.b
    let node = plain(
        static_member_target(reference("a", 0), "b", 2),
        static_member(reference("c", 6), "b", 8),
    );
    assert_eq!(NoSelfAssign::run(&node).len(), 0);
}

#[test]
fn private_member_chain_signals() {
    // a.#b = a.#b
    let node = plain(
        JsAssignmentPattern::Assignment(JsAssignment::StaticMember(
            Box::new(reference("a", 0)),
            JsMemberName::PrivateName(tok("b", 2)),
        )),
        JsExpr::StaticMember(
            Box::new(reference("a", 7)),
            JsMemberName::PrivateName(tok("b", 9)),
        ),
    );
    assert_eq!(NoSelfAssign::run(&node).len(), 1);
}

#[test]
fn computed_member_with_reference_key_signals() {
    // a[b] = a[b]
    let node = plain(
        computed_member_target(reference("a", 0), reference("b", 2)),
        computed_member(reference("a", 7), reference("b", 9)),
    );
    assert_eq!(NoSelfAssign::run(&node).len(), 1);
}

#[test]
fn computed_and_static_levels_both_match() {
    // a[b].foo = a[b].foo
    let node = plain(
        static_member_target(
            computed_member(reference("a", 0), reference("b", 2)),
            "foo",
            5,
        ),
        static_member(
            computed_member(reference("a", 11), reference("b", 13)),
            "foo",
            16,
        ),
    );
    let signals = NoSelfAssign::run(&node);
    assert_eq!(signals.len(), 1);
    // The signal is reported on the outermost key pair, `foo`.
    let (left, right) = ranges(&signals[0]);
    assert_eq!(left, SourceRange { start: 5, end: 8 });
    assert_eq!(right, SourceRange { start: 16, end: 19 });
}

#[test]
fn computed_key_mismatch_does_not_signal() {
    // a[b].foo = a[c].foo
    let node = plain(
        static_member_target(
            computed_member(reference("a", 0), reference("b", 2)),
            "foo",
            5,
        ),
        static_member(
            computed_member(reference("a", 11), reference("c", 13)),
            "foo",
            16,
        ),
    );
    assert_eq!(NoSelfAssign::run(&node).len(), 0);
}

#[test]
fn string_literal_keys_compare_by_inner_text() {
    // a['b'].foo = a["b"].foo
    let node = plain(
        static_member_target(
            computed_member(reference("a", 0), str_literal("'b'", 2)),
            "foo",
            7,
        ),
        static_member(
            computed_member(reference("a", 13), str_literal("\"b\"", 15)),
            "foo",
            20,
        ),
    );
    assert_eq!(NoSelfAssign::run(&node).len(), 1);
}

#[test]
fn number_literal_keys_compare_by_raw_text() {
    // a[3].foo = a[4].foo
    let differing = plain(
        static_member_target(
            computed_member(reference("a", 0), num_literal("3", 2)),
            "foo",
            5,
        ),
        static_member(
            computed_member(reference("a", 11), num_literal("4", 13)),
            "foo",
            16,
        ),
    );
    assert_eq!(NoSelfAssign::run(&differing).len(), 0);

    // a[1].foo = a[1.0].foo : syntactic comparison, not numeric
    let numerically_equal = plain(
        static_member_target(
            computed_member(reference("a", 0), num_literal("1", 2)),
            "foo",
            5,
        ),
        static_member(
            computed_member(reference("a", 11), num_literal("1.0", 13)),
            "foo",
            18,
        ),
    );
    assert_eq!(NoSelfAssign::run(&numerically_equal).len(), 0);

    let same = plain(
        static_member_target(
            computed_member(reference("a", 0), num_literal("1", 2)),
            "foo",
            5,
        ),
        static_member(
            computed_member(reference("a", 11), num_literal("1", 13)),
            "foo",
            16,
        ),
    );
    assert_eq!(NoSelfAssign::run(&same).len(), 1);
}

#[test]
fn literal_kinds_never_mix() {
    // a['3'].foo = a[3].foo
    let node = plain(
        static_member_target(
            computed_member(reference("a", 0), str_literal("'3'", 2)),
            "foo",
            7,
        ),
        static_member(
            computed_member(reference("a", 13), num_literal("3", 15)),
            "foo",
            18,
        ),
    );
    assert_eq!(NoSelfAssign::run(&node).len(), 0);
}

#[test]
fn deeper_chain_with_mismatched_depth_does_not_signal() {
    // a.b.c = a.c
    let node = plain(
        static_member_target(static_member(reference("a", 0), "b", 2), "c", 4),
        static_member(reference("a", 8), "c", 10),
    );
    assert_eq!(NoSelfAssign::run(&node).len(), 0);
}

#[test]
fn three_level_chain_signals() {
    // a.b.c = a.b.c
    let node = plain(
        static_member_target(static_member(reference("a", 0), "b", 2), "c", 4),
        static_member(static_member(reference("a", 8), "b", 10), "c", 12),
    );
    let signals = NoSelfAssign::run(&node);
    assert_eq!(signals.len(), 1);
    // Reported on the outermost member, `c`.
    assert_eq!(signals[0].name().text, b"c".to_vec());
}

#[test]
fn chain_over_call_base_does_not_signal() {
    // f().b = f().b : the chain bottoms out at a call, not a reference
    let node = plain(
        static_member_target(JsExpr::Other, "b", 4),
        static_member(JsExpr::Other, "b", 12),
    );
    assert_eq!(NoSelfAssign::run(&node).len(), 0);
}

#[test]
fn nested_arrays_signal_each_matching_slot() {
    // [[x], y] = [[x], y]
    let node = plain(
        array_pattern(vec![array_pattern(vec![ident_target("x", 2)]), ident_target("y", 6)]),
        array_literal(vec![array_literal(vec![reference("x", 13)]), reference("y", 17)]),
    );
    let signals = NoSelfAssign::run(&node);
    let mut names: Vec<Vec<u8>> = signals.iter().map(|s| s.name().text.clone()).collect();
    names.sort();
    assert_eq!(names, vec![b"x".to_vec(), b"y".to_vec()]);
}

#[test]
fn incompatible_slot_abandons_the_rest_of_the_array() {
    // [a, x] = [[y], x] : the first slot pair is incompatible, so the
    // matching `x` behind it is never inspected.
    let node = plain(
        array_pattern(vec![ident_target("a", 1), ident_target("x", 4)]),
        array_literal(vec![array_literal(vec![reference("y", 11)]), reference("x", 15)]),
    );
    assert_eq!(NoSelfAssign::run(&node).len(), 0);
}

#[test]
fn hole_abandons_the_rest_of_the_array() {
    // [, a] = [, a]
    let node = plain(
        JsAssignmentPattern::ArrayPattern(vec![
            JsArrayPatternElement::Hole,
            JsArrayPatternElement::Element { pattern: ident_target("a", 3), has_default: false },
        ]),
        JsExpr::Array(vec![
            JsArrayElement::Other,
            JsArrayElement::Expression(reference("a", 11)),
        ]),
    );
    assert_eq!(NoSelfAssign::run(&node).len(), 0);
}

#[test]
fn shorter_side_ends_the_comparison() {
    // [a] = [a, b]
    let node = plain(
        array_pattern(vec![ident_target("a", 1)]),
        array_literal(vec![reference("a", 7), reference("b", 10)]),
    );
    assert_eq!(NoSelfAssign::run(&node).len(), 1);

    // [] = []
    let empty = plain(array_pattern(vec![]), array_literal(vec![]));
    assert_eq!(NoSelfAssign::run(&empty).len(), 0);
}

#[test]
fn mixed_object_and_array_sides_do_not_signal() {
    // {a} = [a]
    let node = plain(
        JsAssignmentPattern::ObjectPattern(vec![JsObjectPatternMember::Shorthand(tok("a", 1))]),
        array_literal(vec![reference("a", 7)]),
    );
    assert_eq!(NoSelfAssign::run(&node).len(), 0);
}

#[test]
fn signal_record_carries_both_ranges_and_the_subject() {
    // a = a
    let node = plain(ident_target("a", 0), reference("a", 4));
    let signals = NoSelfAssign::run(&node);
    let record = NoSelfAssign::diagnostic(&signals[0]);
    assert_eq!(record.value_range, SourceRange { start: 4, end: 5 });
    assert_eq!(record.detail_range, SourceRange { start: 0, end: 1 });
    assert_eq!(record.subject.text, b"a".to_vec());
}

#[test]
fn rerunning_detection_yields_identical_signals() {
    let node = plain(
        array_pattern(vec![
            array_pattern(vec![ident_target("x", 2)]),
            ident_target("y", 6),
            ident_target("z", 9),
        ]),
        array_literal(vec![
            array_literal(vec![reference("x", 15)]),
            reference("y", 19),
            reference("q", 22),
        ]),
    );
    let first = NoSelfAssign::run(&node);
    let second = NoSelfAssign::run(&node);
    assert_eq!(first.len(), second.len());
    for (a, b) in first.iter().zip(second.iter()) {
        assert_eq!(a.left_range(), b.left_range());
        assert_eq!(a.right_range(), b.right_range());
        assert_eq!(a.name().text, b.name().text);
    }
}

#[test]
fn detection_of_one_expression_is_independent_of_others() {
    let matching = plain(ident_target("a", 0), reference("a", 4));
    let other = plain(ident_target("b", 0), reference("c", 4));
    let alone = NoSelfAssign::run(&matching);
    // Interleave detections over unrelated expressions.
    let _ = NoSelfAssign::run(&other);
    let interleaved = NoSelfAssign::run(&matching);
    let _ = NoSelfAssign::run(&other);
    assert_eq!(alone.len(), interleaved.len());
    for (a, b) in alone.iter().zip(interleaved.iter()) {
        assert_eq!(a.left_range(), b.left_range());
        assert_eq!(a.right_range(), b.right_range());
    }
}

#[test]
fn deeply_nested_destructuring_completes() {
    // [[...[a]...]] = [[...[a]...]] nested 100 levels deep on both sides.
    let mut left = ident_target("a", 50);
    let mut right = reference("a", 250);
    for _ in 0..100 {
        left = array_pattern(vec![left]);
        right = array_literal(vec![right]);
    }
    let node = plain(left, right);
    let signals = NoSelfAssign::run(&node);
    assert_eq!(signals.len(), 1);
    assert_eq!(signals[0].name().text, b"a".to_vec());
}
