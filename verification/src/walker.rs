//! The member-chain walker.
//!
//! One side of a member access chain such as `a[b].foo` is walked
//! outermost-first: each step yields the current level's key and, when the
//! chain bottoms out at a plain identifier reference, that reference. A chain
//! ending in any other expression form (a call, `this`, parentheses, ...)
//! ends the walk with no result, which the caller treats as "no structural
//! equivalence".

use vstd::prelude::*;

use crate::ast::JsExpr;
use crate::ast::SourceToken;
use crate::ast::TokenModel;
use crate::ast::expr_size;
use crate::idents::IdentifiersLikeModel;
use crate::idents::identifiers_match;
use crate::idents::inner_text;
use crate::names::AnyNameLike;
use crate::names::NameLikeModel;
use crate::names::pair_names_model;

verus! {

/// Walks one side of a member chain, one access level per step.
#[derive(Clone, Copy, Debug)]
pub struct AnyJsAssignmentExpressionLikeIterator<'a> {
    /// The outermost key, kept so that a full-chain match can be reported on
    /// the outermost level.
    pub source_member: AnyNameLike<'a>,
    /// The base expression of the outermost access.
    pub source_object: &'a JsExpr,
    /// The member expression currently being peeled, once the walk has moved
    /// inward from the outermost access.
    pub current_member_expression: Option<&'a JsExpr>,
    /// Set once the chain has bottomed out at an identifier reference.
    pub drained: bool,
}

/// The mathematical state of a chain walker.
pub struct WalkerModel {
    pub source_member: NameLikeModel,
    pub source_object: JsExpr,
    pub current_member_expression: Option<JsExpr>,
    pub drained: bool,
}

impl<'a> View for AnyJsAssignmentExpressionLikeIterator<'a> {
    type V = WalkerModel;

    open spec fn view(&self) -> WalkerModel {
        WalkerModel {
            source_member: self.source_member@,
            source_object: *self.source_object,
            current_member_expression: match self.current_member_expression {
                Some(m) => Some(*m),
                None => None,
            },
            drained: self.drained,
        }
    }
}

/// A fresh walker rooted at a member access with the given key and base.
pub open spec fn walker_from_parts(member: NameLikeModel, object: JsExpr) -> WalkerModel {
    WalkerModel {
        source_member: member,
        source_object: object,
        current_member_expression: None,
        drained: false,
    }
}

/// The chain key a computed member expression designates: an identifier
/// reference or a literal. Any other key expression cannot be compared.
pub open spec fn computed_key_model(member: JsExpr) -> Option<NameLikeModel> {
    match member {
        JsExpr::Reference(t) => Some(NameLikeModel::Reference(t@)),
        JsExpr::Literal(l) => Some(NameLikeModel::Literal(l@)),
        _ => None,
    }
}

/// Decides [`computed_key_model`] on a computed member's key expression.
pub fn computed_key<'a>(member: &'a JsExpr) -> (r: Option<AnyNameLike<'a>>)
    ensures
        r is Some <==> computed_key_model(*member) is Some,
        r is Some ==> computed_key_model(*member) == Some((r->0)@),
{
    match member {
        JsExpr::Reference(t) => Some(AnyNameLike::Reference(t)),
        JsExpr::Literal(l) => Some(AnyNameLike::Literal(l)),
        _ => None,
    }
}

/// The expression the walker will inspect next: the base object of the level
/// it stands on.
pub open spec fn walker_object(w: WalkerModel) -> JsExpr {
    match w.current_member_expression {
        None => w.source_object,
        Some(m) => match m {
            JsExpr::StaticMember(o, _) => *o,
            JsExpr::ComputedMember(o, _) => *o,
            _ => m,
        },
    }
}

/// Remaining weight of a walker: zero once drained, otherwise the weight of
/// the chain still ahead of it. Every successful step sheds weight.
pub open spec fn walker_size(w: WalkerModel) -> nat {
    if w.drained {
        0
    } else {
        1 + expr_size(walker_object(w))
    }
}

/// One step of the walk: the key and base of the current level, then either
/// a move one level inward (the base is itself a member access), the final
/// reference (the base is a plain identifier), or nothing (the base is any
/// other form, or a key could not be read, or the walker is drained).
pub open spec fn walker_step(w: WalkerModel) -> Option<
    (NameLikeModel, Option<TokenModel>, WalkerModel),
> {
    if w.drained {
        None
    } else {
        let level = match w.current_member_expression {
            None => Some((w.source_member, w.source_object)),
            Some(m) => match m {
                JsExpr::StaticMember(o, mn) => Some((crate::names::member_name_model(mn), *o)),
                JsExpr::ComputedMember(o, me) => match computed_key_model(*me) {
                    Some(k) => Some((k, *o)),
                    None => None,
                },
                _ => None,
            },
        };
        match level {
            None => None,
            Some((name, object)) => match object {
                JsExpr::StaticMember(_, _) => Some(
                    (
                        name,
                        None,
                        WalkerModel { current_member_expression: Some(object), ..w },
                    ),
                ),
                JsExpr::ComputedMember(_, _) => Some(
                    (
                        name,
                        None,
                        WalkerModel { current_member_expression: Some(object), ..w },
                    ),
                ),
                JsExpr::Reference(t) => Some((name, Some(t@), WalkerModel { drained: true, ..w })),
                _ => None,
            },
        }
    }
}

/// The signals a lock-step walk of two chains contributes: at each level the
/// two keys must pair up and match; when both sides bottom out together on
/// matching references, the outermost key pair is the one signal reported,
/// provided it pairs up and matches. A walk that fails at any level, or whose
/// sides bottom out at different depths, contributes nothing.
pub open spec fn chain_sig(l: WalkerModel, r: WalkerModel) -> Seq<IdentifiersLikeModel>
    decreases walker_size(l) + walker_size(r),
{
    match (walker_step(l), walker_step(r)) {
        (Some(ls), Some(rs)) => match pair_names_model(ls.0, rs.0) {
            Some(level_pair) => if identifiers_match(level_pair) {
                match (ls.1, rs.1) {
                    (Some(lt), Some(rt)) => if inner_text(lt.text) == inner_text(rt.text) {
                        match pair_names_model(l.source_member, r.source_member) {
                            Some(source_pair) => if identifiers_match(source_pair) {
                                seq![source_pair]
                            } else {
                                Seq::empty()
                            },
                            None => Seq::empty(),
                        }
                    } else {
                        Seq::empty()
                    },
                    _ => chain_sig(ls.2, rs.2),
                }
            } else {
                Seq::empty()
            },
            None => Seq::empty(),
        },
        _ => Seq::empty(),
    }
}

/// The leaf pairs a lock-step walk of two chains yields, before any match
/// filter: the one source pair handed out when the walk succeeds, nothing
/// otherwise. It differs from [`chain_sig`] only in not asking whether the
/// yielded pair matches — which it always does, since the yielded pair is the
/// first level's key pair and the walk only succeeds once that level matched.
pub open spec fn chain_yields(l: WalkerModel, r: WalkerModel) -> Seq<IdentifiersLikeModel>
    decreases walker_size(l) + walker_size(r),
{
    match (walker_step(l), walker_step(r)) {
        (Some(ls), Some(rs)) => match pair_names_model(ls.0, rs.0) {
            Some(level_pair) => if identifiers_match(level_pair) {
                match (ls.1, rs.1) {
                    (Some(lt), Some(rt)) => if inner_text(lt.text) == inner_text(rt.text) {
                        match pair_names_model(l.source_member, r.source_member) {
                            Some(source_pair) => seq![source_pair],
                            None => Seq::empty(),
                        }
                    } else {
                        Seq::empty()
                    },
                    _ => chain_yields(ls.2, rs.2),
                }
            } else {
                Seq::empty()
            },
            None => Seq::empty(),
        },
        _ => Seq::empty(),
    }
}

impl<'a> AnyJsAssignmentExpressionLikeIterator<'a> {
    /// A walker rooted at a static member access, on either side of the
    /// assignment.
    pub fn from_static_member(member: &'a crate::ast::JsMemberName, object: &'a JsExpr) -> (w:
        Self)
        ensures
            w@ == walker_from_parts(crate::names::member_name_model(*member), *object),
    {
        Self {
            source_member: AnyNameLike::from_member_name(member),
            source_object: object,
            current_member_expression: None,
            drained: false,
        }
    }

    /// A walker rooted at a computed member access, on either side of the
    /// assignment. Fails when the key expression is neither a reference nor
    /// a literal.
    pub fn from_computed_member(member: &'a JsExpr, object: &'a JsExpr) -> (w: Option<Self>)
        ensures
            w is Some <==> computed_key_model(*member) is Some,
            w is Some ==> (w->0)@ == walker_from_parts(computed_key_model(*member)->0, *object),
    {
        match computed_key(member) {
            Some(key) => Some(
                Self {
                    source_member: key,
                    source_object: object,
                    current_member_expression: None,
                    drained: false,
                },
            ),
            None => None,
        }
    }

    /// Performs one step of the walk, as described by [`walker_step`].
    pub fn next(&mut self) -> (r: Option<(AnyNameLike<'a>, Option<&'a SourceToken>)>)
        ensures
            match walker_step(old(self)@) {
                None => r is None && *final(self) == *old(self),
                Some(st) => {
                    &&& r is Some
                    &&& (r->0).0@ == st.0
                    &&& match ((r->0).1, st.1) {
                        (Some(t), Some(tm)) => t@ == tm,
                        (None, None) => true,
                        _ => false,
                    }
                    &&& final(self)@ == st.2
                },
            },
    {
        if self.drained {
            return None;
        }
        let level: Option<(AnyNameLike<'a>, &'a JsExpr)> = match self.current_member_expression {
            None => Some((self.source_member, self.source_object)),
            Some(current) => match current {
                JsExpr::StaticMember(o, mn) => Some((AnyNameLike::from_member_name(mn), &**o)),
                JsExpr::ComputedMember(o, me) => match computed_key(&**me) {
                    Some(k) => Some((k, &**o)),
                    None => None,
                },
                _ => None,
            },
        };
        match level {
            None => None,
            Some((name, object)) => match object {
                JsExpr::StaticMember(_, _) => {
                    self.current_member_expression = Some(object);
                    Some((name, None))
                },
                JsExpr::ComputedMember(_, _) => {
                    self.current_member_expression = Some(object);
                    Some((name, None))
                },
                JsExpr::Reference(identifier) => {
                    self.drained = true;
                    Some((name, Some(identifier)))
                },
                _ => None,
            },
        }
    }
}

} // verus!
