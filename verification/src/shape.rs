//! Shape classification.
//!
//! A pair of operand subtrees — a target pattern on the left, an expression
//! on the right — is classified into the one way the two sides can be
//! compared: element by element for an array pair, member by member for an
//! object pair, level by level for a member-chain pair, directly for an
//! identifier pair, or not at all. A structural mismatch is an ordinary
//! outcome, `NoMatch`, never an error.

use vstd::prelude::*;

use crate::ast::JsArrayElement;
use crate::ast::JsArrayPatternElement;
use crate::ast::JsAssignment;
use crate::ast::JsAssignmentPattern;
use crate::ast::JsExpr;
use crate::ast::JsObjectMember;
use crate::ast::JsObjectPatternMember;
use crate::ast::array_element_size;
use crate::ast::array_elements_size;
use crate::ast::object_member_size;
use crate::ast::object_members_size;
use crate::ast::pattern_element_size;
use crate::ast::pattern_elements_size;
use crate::ast::pattern_member_size;
use crate::ast::pattern_members_size;
use crate::idents::IdentifiersLikeModel;
use crate::idents::identifiers_match;
use crate::names::IdentifiersLikeRef;
use crate::names::member_name_model;
use crate::walker::AnyJsAssignmentExpressionLikeIterator;
use crate::walker::WalkerModel;
use crate::walker::chain_sig;
use crate::walker::chain_yields;
use crate::walker::computed_key_model;
use crate::walker::walker_from_parts;
use crate::walker::walker_size;

verus! {

/// The one way a pair of operand subtrees can be compared, together with the
/// comparison's progress: cursors for element-wise shapes, walkers for a
/// member-chain pair.
#[derive(Clone, Copy, Debug)]
pub enum AnyAssignmentLike<'a> {
    /// The sides are structurally incompatible, or this comparison unit is
    /// spent: nothing (more) to compare.
    NoMatch,
    /// Both sides resolved to one comparable terminal pair.
    Identifiers(IdentifiersLikeRef<'a>),
    /// An array pattern against an array literal, compared element by
    /// element from the cursors on.
    Arrays {
        left: &'a Vec<JsArrayPatternElement>,
        left_index: usize,
        right: &'a Vec<JsArrayElement>,
        right_index: usize,
    },
    /// An object pattern against an object literal, compared member by
    /// member from the cursors on.
    Object {
        left: &'a Vec<JsObjectPatternMember>,
        left_index: usize,
        right: &'a Vec<JsObjectMember>,
        right_index: usize,
    },
    /// A member-access chain on both sides, walked in lock-step.
    StaticExpression {
        left: AnyJsAssignmentExpressionLikeIterator<'a>,
        right: AnyJsAssignmentExpressionLikeIterator<'a>,
    },
}

/// The mathematical state of a comparison unit.
pub enum ShapeModel {
    NoMatch,
    Identifiers(IdentifiersLikeModel),
    Arrays {
        left: Seq<JsArrayPatternElement>,
        left_index: int,
        right: Seq<JsArrayElement>,
        right_index: int,
    },
    Object {
        left: Seq<JsObjectPatternMember>,
        left_index: int,
        right: Seq<JsObjectMember>,
        right_index: int,
    },
    StaticExpression { left: WalkerModel, right: WalkerModel },
}

impl<'a> View for AnyAssignmentLike<'a> {
    type V = ShapeModel;

    open spec fn view(&self) -> ShapeModel {
        match self {
            AnyAssignmentLike::NoMatch => ShapeModel::NoMatch,
            AnyAssignmentLike::Identifiers(p) => ShapeModel::Identifiers(p@),
            AnyAssignmentLike::Arrays { left, left_index, right, right_index } =>
                ShapeModel::Arrays {
                left: (*left)@,
                left_index: *left_index as int,
                right: (*right)@,
                right_index: *right_index as int,
            },
            AnyAssignmentLike::Object { left, left_index, right, right_index } =>
                ShapeModel::Object {
                left: (*left)@,
                left_index: *left_index as int,
                right: (*right)@,
                right_index: *right_index as int,
            },
            AnyAssignmentLike::StaticExpression { left, right } => ShapeModel::StaticExpression {
                left: left@,
                right: right@,
            },
        }
    }
}

/// How a target pattern and a value expression classify into a shape.
/// The rules, in priority order: array pattern with array literal, object
/// pattern with object literal, identifier target with identifier reference,
/// static member access on both sides, computed member access on both sides
/// (whose keys must both be readable as reference or literal); anything else
/// is `NoMatch`.
pub open spec fn classify_model(left: JsAssignmentPattern, right: JsExpr) -> ShapeModel {
    match (left, right) {
        (JsAssignmentPattern::ArrayPattern(l), JsExpr::Array(r)) => ShapeModel::Arrays {
            left: l@,
            left_index: 0,
            right: r@,
            right_index: 0,
        },
        (JsAssignmentPattern::ObjectPattern(l), JsExpr::Object(r)) => ShapeModel::Object {
            left: l@,
            left_index: 0,
            right: r@,
            right_index: 0,
        },
        (
            JsAssignmentPattern::Assignment(JsAssignment::Identifier(lt)),
            JsExpr::Reference(rt),
        ) => ShapeModel::Identifiers(IdentifiersLikeModel::IdentifierAndReference(lt@, rt@)),
        (
            JsAssignmentPattern::Assignment(JsAssignment::StaticMember(lo, lm)),
            JsExpr::StaticMember(ro, rm),
        ) => ShapeModel::StaticExpression {
            left: walker_from_parts(member_name_model(lm), *lo),
            right: walker_from_parts(member_name_model(rm), *ro),
        },
        (
            JsAssignmentPattern::Assignment(JsAssignment::ComputedMember(lo, lm)),
            JsExpr::ComputedMember(ro, rm),
        ) => match (computed_key_model(*lm), computed_key_model(*rm)) {
            (Some(lk), Some(rk)) => ShapeModel::StaticExpression {
                left: walker_from_parts(lk, *lo),
                right: walker_from_parts(rk, *ro),
            },
            _ => ShapeModel::NoMatch,
        },
        _ => ShapeModel::NoMatch,
    }
}

/// Remaining weight of a comparison unit, the termination measure of the
/// traversal.
pub open spec fn shape_size(s: ShapeModel) -> nat {
    match s {
        ShapeModel::NoMatch => 0,
        ShapeModel::Identifiers(_) => 1,
        ShapeModel::Arrays { left, left_index, right, right_index } => pattern_elements_size(
            left,
            left_index,
        ) + array_elements_size(right, right_index),
        ShapeModel::Object { left, left_index, right, right_index } => pattern_members_size(
            left,
            left_index,
        ) + object_members_size(right, right_index),
        ShapeModel::StaticExpression { left, right } => 1 + walker_size(left) + walker_size(
            right,
        ),
    }
}

/// The sub-shape one array slot pair contributes. An element with a default
/// initializer never matches: the default changes the run-time semantics even
/// when the names agree. A hole, a rest element or a spread never matches.
pub open spec fn array_slot_model(left: JsArrayPatternElement, right: JsArrayElement) -> ShapeModel {
    match (left, right) {
        (
            JsArrayPatternElement::Element { pattern, has_default },
            JsArrayElement::Expression(value),
        ) => if has_default {
            ShapeModel::NoMatch
        } else {
            classify_model(pattern, value)
        },
        _ => ShapeModel::NoMatch,
    }
}

/// The sub-shape the current array slot pair contributes; `NoMatch` once
/// either cursor is exhausted.
pub open spec fn array_step_model(
    left: Seq<JsArrayPatternElement>,
    left_index: int,
    right: Seq<JsArrayElement>,
    right_index: int,
) -> ShapeModel {
    if !(0 <= left_index < left.len()) || !(0 <= right_index < right.len()) {
        ShapeModel::NoMatch
    } else {
        array_slot_model(left[left_index], right[right_index])
    }
}

/// The sub-shape one object member pair contributes: shorthand against
/// shorthand is a terminal pair, a property pattern against a property value
/// classifies like any operand pair, and anything else never matches.
pub open spec fn object_slot_model(left: JsObjectPatternMember, right: JsObjectMember) -> ShapeModel {
    match (left, right) {
        (JsObjectPatternMember::Shorthand(lt), JsObjectMember::Shorthand(rt)) =>
            ShapeModel::Identifiers(IdentifiersLikeModel::IdentifierAndReference(lt@, rt@)),
        (JsObjectPatternMember::Property(lp), JsObjectMember::Property(rv)) => classify_model(
            lp,
            rv,
        ),
        _ => ShapeModel::NoMatch,
    }
}

/// The sub-shape the current object member pair contributes; `NoMatch` once
/// either cursor is exhausted.
pub open spec fn object_step_model(
    left: Seq<JsObjectPatternMember>,
    left_index: int,
    right: Seq<JsObjectMember>,
    right_index: int,
) -> ShapeModel {
    if !(0 <= left_index < left.len()) || !(0 <= right_index < right.len()) {
        ShapeModel::NoMatch
    } else {
        object_slot_model(left[left_index], right[right_index])
    }
}

/// Every target pattern carries positive weight.
pub proof fn lemma_pattern_size_pos(p: JsAssignmentPattern)
    ensures
        crate::ast::pattern_size(p) >= 1,
{
    match p {
        JsAssignmentPattern::Assignment(a) => {
            match a {
                JsAssignment::Identifier(_) => {},
                JsAssignment::StaticMember(_, _) => {},
                JsAssignment::ComputedMember(_, _) => {},
                JsAssignment::Other => {},
            }
        },
        JsAssignmentPattern::ArrayPattern(_) => {},
        JsAssignmentPattern::ObjectPattern(_) => {},
    }
}

/// Every value expression carries positive weight.
pub proof fn lemma_expr_size_pos(e: JsExpr)
    ensures
        crate::ast::expr_size(e) >= 1,
{
    match e {
        JsExpr::Reference(_) => {},
        JsExpr::StaticMember(_, _) => {},
        JsExpr::ComputedMember(_, _) => {},
        JsExpr::Array(_) => {},
        JsExpr::Object(_) => {},
        JsExpr::Literal(_) => {},
        JsExpr::Other => {},
    }
}

/// Classifying an operand pair always sheds weight: the resulting shape
/// weighs strictly less than the pair it came from.
pub proof fn lemma_classify_model_size(left: JsAssignmentPattern, right: JsExpr)
    ensures
        shape_size(classify_model(left, right)) + 1 <= crate::ast::pattern_size(left)
            + crate::ast::expr_size(right),
{
    lemma_pattern_size_pos(left);
    lemma_expr_size_pos(right);
}

/// A compatible array slot pair accounts for strictly more weight than the
/// sub-shape it produces plus the rest of the array shape.
pub(crate) proof fn lemma_array_slot_size(
    left: Seq<JsArrayPatternElement>,
    left_index: int,
    right: Seq<JsArrayElement>,
    right_index: int,
)
    requires
        !(array_step_model(left, left_index, right, right_index) is NoMatch),
    ensures
        0 <= left_index < left.len(),
        0 <= right_index < right.len(),
        shape_size(array_step_model(left, left_index, right, right_index)) + shape_size(
            ShapeModel::Arrays {
                left,
                left_index: left_index + 1,
                right,
                right_index: right_index + 1,
            },
        ) + 4 <= shape_size(
            ShapeModel::Arrays { left, left_index, right, right_index },
        ),
{
    assert(pattern_elements_size(left, left_index) == 2 + pattern_element_size(left[left_index])
        + pattern_elements_size(left, left_index + 1));
    assert(array_elements_size(right, right_index) == 2 + array_element_size(right[right_index])
        + array_elements_size(right, right_index + 1));
    match (left[left_index], right[right_index]) {
        (
            JsArrayPatternElement::Element { pattern, has_default },
            JsArrayElement::Expression(value),
        ) => {
            lemma_classify_model_size(pattern, value);
        },
        _ => {},
    }
}

/// A compatible object member pair accounts for strictly more weight than
/// the sub-shape it produces plus the rest of the object shape.
pub(crate) proof fn lemma_object_slot_size(
    left: Seq<JsObjectPatternMember>,
    left_index: int,
    right: Seq<JsObjectMember>,
    right_index: int,
)
    requires
        !(object_step_model(left, left_index, right, right_index) is NoMatch),
    ensures
        0 <= left_index < left.len(),
        0 <= right_index < right.len(),
        shape_size(object_step_model(left, left_index, right, right_index)) + shape_size(
            ShapeModel::Object {
                left,
                left_index: left_index + 1,
                right,
                right_index: right_index + 1,
            },
        ) + 4 <= shape_size(
            ShapeModel::Object { left, left_index, right, right_index },
        ),
{
    assert(pattern_members_size(left, left_index) == 2 + pattern_member_size(left[left_index])
        + pattern_members_size(left, left_index + 1));
    assert(object_members_size(right, right_index) == 2 + object_member_size(right[right_index])
        + object_members_size(right, right_index + 1));
    match (left[left_index], right[right_index]) {
        (JsObjectPatternMember::Property(lp), JsObjectMember::Property(rv)) => {
            lemma_classify_model_size(lp, rv);
        },
        _ => {},
    }
}

/// The signals a comparison unit contributes, in depth-first order.
///
/// An element-wise shape pulls one slot pair, classifies it, and continues
/// with the rest of its elements — unless the slot pair is incompatible, in
/// which case the whole rest of the shape is abandoned: the first
/// incompatible or exhausted slot ends an array or object comparison. A
/// terminal pair contributes itself exactly when its two sides match. A
/// chain pair contributes what the lock-step walk finds.
pub open spec fn shape_sig(s: ShapeModel) -> Seq<IdentifiersLikeModel>
    decreases shape_size(s),
    via shape_sig_decreases
{
    match s {
        ShapeModel::NoMatch => Seq::empty(),
        ShapeModel::Identifiers(p) => if identifiers_match(p) {
            seq![p]
        } else {
            Seq::empty()
        },
        ShapeModel::Arrays { left, left_index, right, right_index } => {
            let sub = array_step_model(left, left_index, right, right_index);
            if sub is NoMatch {
                Seq::empty()
            } else {
                shape_sig(sub) + shape_sig(
                    ShapeModel::Arrays {
                        left,
                        left_index: left_index + 1,
                        right,
                        right_index: right_index + 1,
                    },
                )
            }
        },
        ShapeModel::Object { left, left_index, right, right_index } => {
            let sub = object_step_model(left, left_index, right, right_index);
            if sub is NoMatch {
                Seq::empty()
            } else {
                shape_sig(sub) + shape_sig(
                    ShapeModel::Object {
                        left,
                        left_index: left_index + 1,
                        right,
                        right_index: right_index + 1,
                    },
                )
            }
        },
        ShapeModel::StaticExpression { left, right } => chain_sig(left, right),
    }
}

#[via_fn]
proof fn shape_sig_decreases(s: ShapeModel) {
    match s {
        ShapeModel::Arrays { left, left_index, right, right_index } => {
            if !(array_step_model(left, left_index, right, right_index) is NoMatch) {
                lemma_array_slot_size(left, left_index, right, right_index);
            }
        },
        ShapeModel::Object { left, left_index, right, right_index } => {
            if !(object_step_model(left, left_index, right, right_index) is NoMatch) {
                lemma_object_slot_size(left, left_index, right, right_index);
            }
        },
        _ => {},
    }
}

/// The leaf pairs a comparison unit yields, in depth-first order, before any
/// match filter: everything the traversal hands to the comparator. It walks
/// exactly as [`shape_sig`] does — the same slot pulls, the same
/// first-incompatible-slot rule — but a terminal pair is yielded whether or
/// not its sides match; [`shape_sig`] is what survives the filter.
pub open spec fn shape_yields(s: ShapeModel) -> Seq<IdentifiersLikeModel>
    decreases shape_size(s),
    via shape_yields_decreases
{
    match s {
        ShapeModel::NoMatch => Seq::empty(),
        ShapeModel::Identifiers(p) => seq![p],
        ShapeModel::Arrays { left, left_index, right, right_index } => {
            let sub = array_step_model(left, left_index, right, right_index);
            if sub is NoMatch {
                Seq::empty()
            } else {
                shape_yields(sub) + shape_yields(
                    ShapeModel::Arrays {
                        left,
                        left_index: left_index + 1,
                        right,
                        right_index: right_index + 1,
                    },
                )
            }
        },
        ShapeModel::Object { left, left_index, right, right_index } => {
            let sub = object_step_model(left, left_index, right, right_index);
            if sub is NoMatch {
                Seq::empty()
            } else {
                shape_yields(sub) + shape_yields(
                    ShapeModel::Object {
                        left,
                        left_index: left_index + 1,
                        right,
                        right_index: right_index + 1,
                    },
                )
            }
        },
        ShapeModel::StaticExpression { left, right } => chain_yields(left, right),
    }
}

#[via_fn]
proof fn shape_yields_decreases(s: ShapeModel) {
    match s {
        ShapeModel::Arrays { left, left_index, right, right_index } => {
            if !(array_step_model(left, left_index, right, right_index) is NoMatch) {
                lemma_array_slot_size(left, left_index, right, right_index);
            }
        },
        ShapeModel::Object { left, left_index, right, right_index } => {
            if !(object_step_model(left, left_index, right, right_index) is NoMatch) {
                lemma_object_slot_size(left, left_index, right, right_index);
            }
        },
        _ => {},
    }
}

impl<'a> AnyAssignmentLike<'a> {
    /// Classifies a target pattern against a value expression, as described
    /// by [`classify_model`].
    pub fn try_from(left: &'a JsAssignmentPattern, right: &'a JsExpr) -> (s: Self)
        ensures
            s@ == classify_model(*left, *right),
    {
        match (left, right) {
            (JsAssignmentPattern::ArrayPattern(l), JsExpr::Array(r)) => AnyAssignmentLike::Arrays {
                left: l,
                left_index: 0,
                right: r,
                right_index: 0,
            },
            (JsAssignmentPattern::ObjectPattern(l), JsExpr::Object(r)) =>
                AnyAssignmentLike::Object { left: l, left_index: 0, right: r, right_index: 0 },
            (
                JsAssignmentPattern::Assignment(JsAssignment::Identifier(lt)),
                JsExpr::Reference(rt),
            ) => AnyAssignmentLike::Identifiers(
                IdentifiersLikeRef::IdentifierAndReference(lt, rt),
            ),
            (
                JsAssignmentPattern::Assignment(JsAssignment::StaticMember(lo, lm)),
                JsExpr::StaticMember(ro, rm),
            ) => AnyAssignmentLike::StaticExpression {
                left: AnyJsAssignmentExpressionLikeIterator::from_static_member(lm, lo),
                right: AnyJsAssignmentExpressionLikeIterator::from_static_member(rm, ro),
            },
            (
                JsAssignmentPattern::Assignment(JsAssignment::ComputedMember(lo, lm)),
                JsExpr::ComputedMember(ro, rm),
            ) => {
                let lw = AnyJsAssignmentExpressionLikeIterator::from_computed_member(lm, lo);
                let rw = AnyJsAssignmentExpressionLikeIterator::from_computed_member(rm, ro);
                match (lw, rw) {
                    (Some(lw), Some(rw)) => AnyAssignmentLike::StaticExpression {
                        left: lw,
                        right: rw,
                    },
                    _ => AnyAssignmentLike::NoMatch,
                }
            },
            _ => AnyAssignmentLike::NoMatch,
        }
    }

    /// Whether this shape is an element-wise composite, whose traversal is
    /// suspended on the backlog when a nested composite turns up.
    pub fn has_sub_structures(&self) -> (r: bool)
        ensures
            r == (self@ is Arrays || self@ is Object),
    {
        match self {
            AnyAssignmentLike::Arrays { .. } => true,
            AnyAssignmentLike::Object { .. } => true,
            _ => false,
        }
    }
}

} // verus!
