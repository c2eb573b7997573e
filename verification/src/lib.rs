//! Detection of self-assignment: an assignment expression whose target and
//! value denote the same storage location, such as `a = a`, `[a] = [a]`,
//! `({a: b} = {a: b})` or `a[b].foo = a[b].foo`.
//!
//! The detector is a pure function over a plain-value model of the relevant
//! JavaScript syntax (see [`ast`]). It classifies the two sides of an
//! assignment into a shared shape, walks both shapes in lock-step with an
//! explicit work queue instead of native recursion, compares terminal
//! identifiers, names and literals by their source text, and collects one
//! signal per matching leaf pair.

use vstd::prelude::*;

pub mod ast;
pub mod idents;
pub mod names;
pub mod shape;
pub mod traversal;
pub mod walker;

pub use ast::JsAssignmentExpression;
pub use ast::JsAssignmentOperator;
pub use ast::SourceRange;
pub use ast::SourceToken;
pub use idents::IdentifiersLike;
pub use idents::with_same_identifiers;

use crate::ast::JsAssignmentOperator as Op;
use crate::idents::IdentifiersLikeModel;
use crate::idents::identifiers_match;
use crate::idents::left_range_of;
use crate::idents::name_of;
use crate::idents::right_range_of;
use crate::shape::AnyAssignmentLike;
use crate::shape::classify_model;
use crate::shape::shape_sig;
use crate::traversal::compare_assignment_like;
use crate::traversal::lemma_signals_ms_len;
use crate::traversal::signals_ms;
use vstd::multiset::Multiset;

verus! {

broadcast use vstd::multiset::group_multiset_axioms, vstd::seq_lib::group_to_multiset_ensures;

/// Whether an assignment operator can produce a signal: plain assignment and
/// the three short-circuiting assignments. Every compound arithmetic,
/// bitwise or shift assignment is excluded by design.
pub open spec fn operator_eligible(op: JsAssignmentOperator) -> bool {
    ||| op is Assign
    ||| op is LogicalAndAssign
    ||| op is LogicalOrAssign
    ||| op is NullishCoalescingAssign
}

/// Everything detection owes for one assignment expression: nothing for an
/// excluded operator, otherwise the signals of the classified operand pair.
pub open spec fn detect_sig(node: JsAssignmentExpression) -> Seq<IdentifiersLikeModel> {
    if operator_eligible(node.operator) {
        shape_sig(classify_model(node.left, node.right))
    } else {
        Seq::empty()
    }
}

/// One reportable finding, ready for a diagnostic renderer: the span of the
/// matching value-side leaf (the primary range), the span of the matching
/// target-side leaf (the secondary detail), and the value-side token whose
/// text names what is assigned to itself.
#[derive(Debug)]
pub struct SignalRecord {
    pub value_range: SourceRange,
    pub detail_range: SourceRange,
    pub subject: SourceToken,
}

/// The self-assignment detector.
pub struct NoSelfAssign;

impl NoSelfAssign {
    /// Detects every self-assigned leaf pair of one assignment expression.
    ///
    /// The result is exactly the signal set [`detect_sig`] describes — one
    /// entry per independently matching nested slot, every entry a matching
    /// pair — in an order the caller must treat as arbitrary.
    ///
    /// The input type is the whole domain: only assignment *expressions* can
    /// be examined. The initializer of a variable declaration (`var a = a;`)
    /// is no such expression, so by typing alone it can never produce a
    /// signal.
    pub fn run(node: &JsAssignmentExpression) -> (signals: Vec<IdentifiersLike>)
        ensures
            signals_ms(signals@) == detect_sig(*node).to_multiset(),
            signals@.len() == detect_sig(*node).len(),
            forall|i: int|
                0 <= i < signals@.len() ==> identifiers_match(#[trigger] signals@[i]@),
    {
        let mut result: Vec<IdentifiersLike> = Vec::new();
        let eligible = match node.operator {
            Op::Assign => true,
            Op::LogicalAndAssign => true,
            Op::LogicalOrAssign => true,
            Op::NullishCoalescingAssign => true,
            Op::Other => false,
        };
        if eligible {
            let pair = AnyAssignmentLike::try_from(&node.left, &node.right);
            compare_assignment_like(pair, &mut result);
            proof {
                assert(signals_ms(result@) =~= detect_sig(*node).to_multiset());
            }
        } else {
            proof {
                lemma_signals_ms_empty();
                assert(detect_sig(*node).to_multiset().len() == 0);
                assert(signals_ms(result@) =~= detect_sig(*node).to_multiset());
            }
        }
        proof {
            lemma_signals_ms_len(result@);
            assert(detect_sig(*node).to_multiset().len() == detect_sig(*node).len());
        }
        result
    }

    /// Turns one detected pair into the record a diagnostic is rendered
    /// from: primary range on the value side, detail range on the target
    /// side, and the value-side token as the display subject.
    pub fn diagnostic(identifier_like: &IdentifiersLike) -> (d: SignalRecord)
        ensures
            d.value_range == right_range_of(identifier_like@),
            d.detail_range == left_range_of(identifier_like@),
            d.subject@ == name_of(identifier_like@),
    {
        SignalRecord {
            value_range: identifier_like.right_range(),
            detail_range: identifier_like.left_range(),
            subject: identifier_like.name().clone(),
        }
    }
}

proof fn lemma_signals_ms_empty()
    ensures
        signals_ms(Seq::<IdentifiersLike>::empty()) == Multiset::<IdentifiersLikeModel>::empty(),
{
}

/// Detection is idempotent: running the detector twice over the same
/// unmodified assignment expression yields the same signal set, because each
/// run's result is pinned, up to order, to the one signal set the expression
/// owes.
pub proof fn lemma_detection_idempotent(
    node: JsAssignmentExpression,
    first: Seq<IdentifiersLike>,
    second: Seq<IdentifiersLike>,
)
    requires
        signals_ms(first) == detect_sig(node).to_multiset(),
        signals_ms(second) == detect_sig(node).to_multiset(),
    ensures
        signals_ms(first) == signals_ms(second),
{
}

/// Detection is free of cross-invocation state: what is reported for one
/// assignment expression is a function of that expression alone, so
/// detecting over many expressions, in any order or concurrently, cannot
/// change any single expression's signals.
pub proof fn lemma_detection_is_pure(a: JsAssignmentExpression, b: JsAssignmentExpression)
    requires
        a == b,
    ensures
        detect_sig(a) == detect_sig(b),
{
}

} // verus!
