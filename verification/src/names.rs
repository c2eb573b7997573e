//! Borrowed terminal nodes and their pairing.
//!
//! During traversal the detector never owns nodes: it walks the input tree
//! through cheap copyable references. [`AnyNameLike`] is any terminal a
//! member chain can produce as a key; [`IdentifiersLikeRef`] is the borrowed
//! counterpart of [`IdentifiersLike`], built by pairing two terminals of a
//! compatible kind. Only when a pair is reported does it get cloned into an
//! owned [`IdentifiersLike`].

use vstd::prelude::*;

use crate::ast::JsLiteral;
use crate::ast::JsMemberName;
use crate::ast::LiteralModel;
use crate::ast::SourceToken;
use crate::ast::TokenModel;
use crate::idents::IdentifiersLike;
use crate::idents::IdentifiersLikeModel;
use crate::idents::identifiers_match;
use crate::idents::literal_tokens_equal;
use crate::idents::tokens_text_equal;

verus! {

/// Any terminal that can stand as the key of one member chain level: a
/// member name, a private name, an identifier reference, or a literal key.
#[derive(Clone, Copy, Debug)]
pub enum AnyNameLike<'a> {
    Name(&'a SourceToken),
    PrivateName(&'a SourceToken),
    Reference(&'a SourceToken),
    Literal(&'a JsLiteral),
}

/// The mathematical value of a chain key.
pub enum NameLikeModel {
    Name(TokenModel),
    PrivateName(TokenModel),
    Reference(TokenModel),
    Literal(LiteralModel),
}

impl<'a> View for AnyNameLike<'a> {
    type V = NameLikeModel;

    open spec fn view(&self) -> NameLikeModel {
        match self {
            AnyNameLike::Name(t) => NameLikeModel::Name((*t)@),
            AnyNameLike::PrivateName(t) => NameLikeModel::PrivateName((*t)@),
            AnyNameLike::Reference(t) => NameLikeModel::Reference((*t)@),
            AnyNameLike::Literal(l) => NameLikeModel::Literal((*l)@),
        }
    }
}

/// The chain key a member designator yields.
pub open spec fn member_name_model(m: JsMemberName) -> NameLikeModel {
    match m {
        JsMemberName::Name(t) => NameLikeModel::Name(t@),
        JsMemberName::PrivateName(t) => NameLikeModel::PrivateName(t@),
    }
}

impl<'a> AnyNameLike<'a> {
    /// The chain key of a static member designator.
    pub fn from_member_name(m: &'a JsMemberName) -> (r: Self)
        ensures
            r@ == member_name_model(*m),
    {
        match m {
            JsMemberName::Name(t) => AnyNameLike::Name(t),
            JsMemberName::PrivateName(t) => AnyNameLike::PrivateName(t),
        }
    }
}

/// The borrowed counterpart of [`IdentifiersLike`]: a pair of terminals, the
/// left one from the target side, the right one from the value side.
#[derive(Clone, Copy, Debug)]
pub enum IdentifiersLikeRef<'a> {
    IdentifierAndReference(&'a SourceToken, &'a SourceToken),
    References(&'a SourceToken, &'a SourceToken),
    Name(&'a SourceToken, &'a SourceToken),
    PrivateName(&'a SourceToken, &'a SourceToken),
    Literal(&'a JsLiteral, &'a JsLiteral),
}

impl<'a> View for IdentifiersLikeRef<'a> {
    type V = IdentifiersLikeModel;

    open spec fn view(&self) -> IdentifiersLikeModel {
        match self {
            IdentifiersLikeRef::IdentifierAndReference(l, r) =>
                IdentifiersLikeModel::IdentifierAndReference((*l)@, (*r)@),
            IdentifiersLikeRef::References(l, r) => IdentifiersLikeModel::References(
                (*l)@,
                (*r)@,
            ),
            IdentifiersLikeRef::Name(l, r) => IdentifiersLikeModel::Name((*l)@, (*r)@),
            IdentifiersLikeRef::PrivateName(l, r) => IdentifiersLikeModel::PrivateName(
                (*l)@,
                (*r)@,
            ),
            IdentifiersLikeRef::Literal(l, r) => IdentifiersLikeModel::Literal((*l)@, (*r)@),
        }
    }
}

/// How two chain keys pair up into a leaf pair: keys pair only with keys of
/// the same kind, and a reference on the left pairs with a reference on the
/// right as a [`IdentifiersLikeModel::References`] pair.
pub open spec fn pair_names_model(left: NameLikeModel, right: NameLikeModel) -> Option<
    IdentifiersLikeModel,
> {
    match (left, right) {
        (NameLikeModel::Name(l), NameLikeModel::Name(r)) => Some(
            IdentifiersLikeModel::Name(l, r),
        ),
        (NameLikeModel::PrivateName(l), NameLikeModel::PrivateName(r)) => Some(
            IdentifiersLikeModel::PrivateName(l, r),
        ),
        (NameLikeModel::Reference(l), NameLikeModel::Reference(r)) => Some(
            IdentifiersLikeModel::References(l, r),
        ),
        (NameLikeModel::Literal(l), NameLikeModel::Literal(r)) => Some(
            IdentifiersLikeModel::Literal(l, r),
        ),
        _ => None,
    }
}

impl<'a> IdentifiersLikeRef<'a> {
    /// Pairs two chain keys, if their kinds are compatible.
    pub fn try_from_names(left: AnyNameLike<'a>, right: AnyNameLike<'a>) -> (r: Option<Self>)
        ensures
            r is Some <==> pair_names_model(left@, right@) is Some,
            r is Some ==> pair_names_model(left@, right@) == Some((r->0)@),
    {
        match (left, right) {
            (AnyNameLike::Name(l), AnyNameLike::Name(r)) => Some(IdentifiersLikeRef::Name(l, r)),
            (AnyNameLike::PrivateName(l), AnyNameLike::PrivateName(r)) => Some(
                IdentifiersLikeRef::PrivateName(l, r),
            ),
            (AnyNameLike::Reference(l), AnyNameLike::Reference(r)) => Some(
                IdentifiersLikeRef::References(l, r),
            ),
            (AnyNameLike::Literal(l), AnyNameLike::Literal(r)) => Some(
                IdentifiersLikeRef::Literal(l, r),
            ),
            _ => None,
        }
    }

    /// Decides whether this pair's two sides carry the same text.
    pub fn matches(&self) -> (r: bool)
        ensures
            r == identifiers_match(self@),
    {
        match self {
            IdentifiersLikeRef::IdentifierAndReference(l, r) => tokens_text_equal(l, r),
            IdentifiersLikeRef::References(l, r) => tokens_text_equal(l, r),
            IdentifiersLikeRef::Name(l, r) => tokens_text_equal(l, r),
            IdentifiersLikeRef::PrivateName(l, r) => tokens_text_equal(l, r),
            IdentifiersLikeRef::Literal(l, r) => literal_tokens_equal(l, r),
        }
    }

    /// Clones the pair into an owned signal.
    pub fn to_owned(&self) -> (r: IdentifiersLike)
        ensures
            r@ == self@,
    {
        match self {
            IdentifiersLikeRef::IdentifierAndReference(l, r) =>
                IdentifiersLike::IdentifierAndReference((*l).clone(), (*r).clone()),
            IdentifiersLikeRef::References(l, r) => IdentifiersLike::References(
                (*l).clone(),
                (*r).clone(),
            ),
            IdentifiersLikeRef::Name(l, r) => IdentifiersLike::Name((*l).clone(), (*r).clone()),
            IdentifiersLikeRef::PrivateName(l, r) => IdentifiersLike::PrivateName(
                (*l).clone(),
                (*r).clone(),
            ),
            IdentifiersLikeRef::Literal(l, r) => IdentifiersLike::Literal(
                (*l).clone(),
                (*r).clone(),
            ),
        }
    }
}

} // verus!
