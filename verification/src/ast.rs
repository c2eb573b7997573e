//! A plain-value model of the slice of JavaScript syntax that self-assignment
//! detection reads: assignment operators, assignment targets (plain, member,
//! array and object destructuring) and the expression forms they are compared
//! against.
//!
//! Every node carries only what the comparison needs. Terminal nodes carry
//! their trimmed source text as UTF-8 bytes together with their span, so that
//! a reported signal can point back into the source. Node forms that the
//! detector never relates (calls, `this`, holes, rest elements, spreads, a
//! child lost to parse-error recovery) are collapsed into `Other`-style
//! variants: they compare with nothing, which is exactly how the detector
//! treats them.

use vstd::prelude::*;

verus! {

/// Half-open span of source text, counted in bytes from the start of the file.
#[derive(Clone, Copy, PartialEq, Eq, Structural, Debug)]
pub struct SourceRange {
    pub start: u32,
    pub end: u32,
}

/// One terminal token: its trimmed source text as UTF-8 bytes, and its span.
#[derive(Debug)]
pub struct SourceToken {
    pub text: Vec<u8>,
    pub range: SourceRange,
}

/// The mathematical value of a token: the text as a byte sequence plus the span.
pub struct TokenModel {
    pub text: Seq<u8>,
    pub range: SourceRange,
}

impl View for SourceToken {
    type V = TokenModel;

    open spec fn view(&self) -> TokenModel {
        TokenModel { text: self.text@, range: self.range }
    }
}

/// A literal expression. Only string and number literals can ever satisfy the
/// leaf comparison, but other literal kinds (boolean, null, bigint, regex)
/// still occur as computed member keys, so they keep their token for spans.
#[derive(Debug)]
pub enum JsLiteral {
    Str(SourceToken),
    Num(SourceToken),
    Other(SourceToken),
}

/// The mathematical value of a literal.
pub enum LiteralModel {
    Str(TokenModel),
    Num(TokenModel),
    Other(TokenModel),
}

impl View for JsLiteral {
    type V = LiteralModel;

    open spec fn view(&self) -> LiteralModel {
        match self {
            JsLiteral::Str(t) => LiteralModel::Str(t@),
            JsLiteral::Num(t) => LiteralModel::Num(t@),
            JsLiteral::Other(t) => LiteralModel::Other(t@),
        }
    }
}

impl JsLiteral {
    /// The token carrying the literal's source text.
    pub fn token(&self) -> (t: &SourceToken)
        ensures
            t@ == self.token_spec(),
    {
        match self {
            JsLiteral::Str(t) => t,
            JsLiteral::Num(t) => t,
            JsLiteral::Other(t) => t,
        }
    }

    /// The token of the literal, at the specification level.
    pub open spec fn token_spec(&self) -> TokenModel {
        match self {
            JsLiteral::Str(t) => t@,
            JsLiteral::Num(t) => t@,
            JsLiteral::Other(t) => t@,
        }
    }
}

/// The member designator of a static member access: `.name` or `.#name`.
/// For a private name the token text is the name without the leading `#`,
/// while the span covers the whole designator.
#[derive(Debug)]
pub enum JsMemberName {
    Name(SourceToken),
    PrivateName(SourceToken),
}

/// An expression, restricted to the forms the detector distinguishes.
#[derive(Debug)]
pub enum JsExpr {
    /// A plain identifier reference.
    Reference(SourceToken),
    /// `object.member` or `object.#member`.
    StaticMember(Box<JsExpr>, JsMemberName),
    /// `object[member]`; the member is an arbitrary expression.
    ComputedMember(Box<JsExpr>, Box<JsExpr>),
    /// An array literal.
    Array(Vec<JsArrayElement>),
    /// An object literal.
    Object(Vec<JsObjectMember>),
    /// A literal expression.
    Literal(JsLiteral),
    /// Any other expression form (a call, `this`, parentheses, an arrow
    /// function, a child missing after parse-error recovery, ...).
    Other,
}

/// One element of an array literal.
#[derive(Debug)]
pub enum JsArrayElement {
    Expression(JsExpr),
    /// A hole or a spread: never comparable.
    Other,
}

/// One member of an object literal. The detector compares property values by
/// position and never reads property keys, so keys are not part of the model.
#[derive(Debug)]
pub enum JsObjectMember {
    /// `{ name }`: the token is the shorthand reference.
    Shorthand(SourceToken),
    /// `{ key: value }`: the property's value expression.
    Property(JsExpr),
    /// A spread, a method, a getter or setter: never comparable.
    Other,
}

/// An assignment target that is not itself a destructuring pattern.
#[derive(Debug)]
pub enum JsAssignment {
    /// A plain identifier target.
    Identifier(SourceToken),
    /// `object.member = ...` or `object.#member = ...`.
    StaticMember(Box<JsExpr>, JsMemberName),
    /// `object[member] = ...`.
    ComputedMember(Box<JsExpr>, Box<JsExpr>),
    /// Any other target form (a parenthesized target, a TypeScript cast, a
    /// child missing after parse-error recovery, ...).
    Other,
}

/// The left-hand side of an assignment.
#[derive(Debug)]
pub enum JsAssignmentPattern {
    Assignment(JsAssignment),
    /// `[a, b] = ...`
    ArrayPattern(Vec<JsArrayPatternElement>),
    /// `{ a, b: c } = ...`
    ObjectPattern(Vec<JsObjectPatternMember>),
}

/// One element of an array destructuring pattern.
#[derive(Debug)]
pub enum JsArrayPatternElement {
    /// An element, possibly with a default initializer (`[a = 1] = ...`).
    Element { pattern: JsAssignmentPattern, has_default: bool },
    /// An elision.
    Hole,
    /// A rest element or an unrecognized element form.
    Other,
}

/// One member of an object destructuring pattern. As with object literals,
/// property keys play no part in the comparison and are not modeled.
#[derive(Debug)]
pub enum JsObjectPatternMember {
    /// `{ name } = ...`: the token is the shorthand target identifier.
    Shorthand(SourceToken),
    /// `{ key: target } = ...`: the property's target pattern.
    Property(JsAssignmentPattern),
    /// A rest member or an unrecognized member form.
    Other,
}

/// The operator of an assignment expression. Only the four listed operators
/// can produce a signal; every compound arithmetic, bitwise or shift
/// assignment is `Other` and is ignored by design.
#[derive(Clone, Copy, PartialEq, Eq, Structural, Debug)]
pub enum JsAssignmentOperator {
    Assign,
    LogicalAndAssign,
    LogicalOrAssign,
    NullishCoalescingAssign,
    Other,
}

/// A whole assignment expression: `left operator right`.
#[derive(Debug)]
pub struct JsAssignmentExpression {
    pub left: JsAssignmentPattern,
    pub right: JsExpr,
    pub operator: JsAssignmentOperator,
}

/// Structural weight of an expression. This is the termination measure behind
/// the traversal: every step of the detector consumes weight. Member chains
/// weigh extra so that turning an access pair into a chain walker strictly
/// sheds weight; the member expression of a computed access carries none,
/// because the walker only ever reads it as a terminal key.
pub open spec fn expr_size(e: JsExpr) -> nat
    decreases e, 0nat, 0nat,
{
    match e {
        JsExpr::Reference(_) => 1,
        JsExpr::StaticMember(object, _) => 3 + expr_size(*object),
        JsExpr::ComputedMember(object, _) => 3 + expr_size(*object),
        JsExpr::Array(elements) => 1 + array_elements_size(elements@, 0),
        JsExpr::Object(members) => 1 + object_members_size(members@, 0),
        JsExpr::Literal(_) => 1,
        JsExpr::Other => 1,
    }
}

/// Weight of one array literal element.
pub open spec fn array_element_size(e: JsArrayElement) -> nat
    decreases e, 0nat, 0nat,
{
    match e {
        JsArrayElement::Expression(inner) => 1 + expr_size(inner),
        JsArrayElement::Other => 1,
    }
}

/// Combined weight of the array literal elements from `from` on.
pub open spec fn array_elements_size(elements: Seq<JsArrayElement>, from: int) -> nat
    decreases elements, elements.len() - from, 1nat,
{
    if from < 0 || from >= elements.len() {
        0
    } else {
        2 + array_element_size(elements[from]) + array_elements_size(elements, from + 1)
    }
}

/// Weight of one object literal member.
pub open spec fn object_member_size(m: JsObjectMember) -> nat
    decreases m, 0nat, 0nat,
{
    match m {
        JsObjectMember::Shorthand(_) => 1,
        JsObjectMember::Property(value) => 1 + expr_size(value),
        JsObjectMember::Other => 1,
    }
}

/// Combined weight of the object literal members from `from` on.
pub open spec fn object_members_size(members: Seq<JsObjectMember>, from: int) -> nat
    decreases members, members.len() - from, 1nat,
{
    if from < 0 || from >= members.len() {
        0
    } else {
        2 + object_member_size(members[from]) + object_members_size(members, from + 1)
    }
}

/// Structural weight of an assignment target.
pub open spec fn assignment_size(a: JsAssignment) -> nat
    decreases a, 0nat, 0nat,
{
    match a {
        JsAssignment::Identifier(_) => 1,
        JsAssignment::StaticMember(object, _) => 3 + expr_size(*object),
        JsAssignment::ComputedMember(object, _) => 3 + expr_size(*object),
        JsAssignment::Other => 1,
    }
}

/// Structural weight of an assignment pattern.
pub open spec fn pattern_size(p: JsAssignmentPattern) -> nat
    decreases p, 1nat, 0nat,
{
    match p {
        JsAssignmentPattern::Assignment(a) => assignment_size(a),
        JsAssignmentPattern::ArrayPattern(elements) => 1 + pattern_elements_size(elements@, 0),
        JsAssignmentPattern::ObjectPattern(members) => 1 + pattern_members_size(members@, 0),
    }
}

/// Weight of one array pattern element.
pub open spec fn pattern_element_size(e: JsArrayPatternElement) -> nat
    decreases e, 2nat, 0nat,
{
    match e {
        JsArrayPatternElement::Element { pattern, .. } => 1 + pattern_size(pattern),
        JsArrayPatternElement::Hole => 1,
        JsArrayPatternElement::Other => 1,
    }
}

/// Combined weight of the array pattern elements from `from` on.
pub open spec fn pattern_elements_size(elements: Seq<JsArrayPatternElement>, from: int) -> nat
    decreases elements, elements.len() - from, 3nat,
{
    if from < 0 || from >= elements.len() {
        0
    } else {
        2 + pattern_element_size(elements[from]) + pattern_elements_size(elements, from + 1)
    }
}

/// Weight of one object pattern member.
pub open spec fn pattern_member_size(m: JsObjectPatternMember) -> nat
    decreases m, 2nat, 0nat,
{
    match m {
        JsObjectPatternMember::Shorthand(_) => 1,
        JsObjectPatternMember::Property(pattern) => 1 + pattern_size(pattern),
        JsObjectPatternMember::Other => 1,
    }
}

/// Combined weight of the object pattern members from `from` on.
pub open spec fn pattern_members_size(members: Seq<JsObjectPatternMember>, from: int) -> nat
    decreases members, members.len() - from, 3nat,
{
    if from < 0 || from >= members.len() {
        0
    } else {
        2 + pattern_member_size(members[from]) + pattern_members_size(members, from + 1)
    }
}

} // verus!
