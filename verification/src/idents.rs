//! Leaf pairs and the leaf equality comparison.
//!
//! A leaf pair ([`IdentifiersLike`]) is the smallest unit of comparison: two
//! terminal tokens, one from each side of the assignment, of a compatible
//! kind. The comparison is purely textual: token text is compared byte for
//! byte, except that a string literal is compared by its unquoted inner text.
//! Numeric literals compare by their raw source text, so `1` and `1.0` are
//! different. Literals of different kinds are never equal.

use vstd::prelude::*;

use crate::ast::JsLiteral;
use crate::ast::LiteralModel;
use crate::ast::SourceRange;
use crate::ast::SourceToken;
use crate::ast::TokenModel;

verus! {

impl Clone for SourceToken {
    /// An exact copy: same text, same span.
    fn clone(&self) -> (r: Self)
        ensures
            r@ == self@,
    {
        let text = clone_bytes(&self.text);
        SourceToken { text, range: self.range }
    }
}

impl Clone for JsLiteral {
    /// An exact copy: same kind, same token.
    fn clone(&self) -> (r: Self)
        ensures
            r@ == self@,
    {
        match self {
            JsLiteral::Str(t) => JsLiteral::Str(t.clone()),
            JsLiteral::Num(t) => JsLiteral::Num(t.clone()),
            JsLiteral::Other(t) => JsLiteral::Other(t.clone()),
        }
    }
}

/// Copies a byte vector exactly.
fn clone_bytes(v: &Vec<u8>) -> (r: Vec<u8>)
    ensures
        r@ == v@,
{
    let mut r: Vec<u8> = Vec::new();
    let mut i: usize = 0;
    while i < v.len()
        invariant
            i <= v.len(),
            r@ == v@.subrange(0, i as int),
        decreases v.len() - i,
    {
        r.push(v[i]);
        i = i + 1;
        proof {
            assert(r@ =~= v@.subrange(0, i as int));
        }
    }
    proof {
        assert(r@ =~= v@);
    }
    r
}

/// Whether a byte is one of the two string literal quote characters.
pub open spec fn is_quote(c: u8) -> bool {
    c == 34 || c == 39
}

/// The text a token is compared by: for a quoted string token the inner text
/// between the quotes, for every other token the text itself.
pub open spec fn inner_text(s: Seq<u8>) -> Seq<u8> {
    if s.len() >= 2 && s[0] == s[s.len() - 1] && is_quote(s[0]) {
        s.subrange(1, s.len() - 1)
    } else {
        s
    }
}

/// The half-open byte range of `text` holding its comparison text.
fn inner_bounds(text: &Vec<u8>) -> (b: (usize, usize))
    ensures
        b.0 <= b.1 <= text@.len(),
        text@.subrange(b.0 as int, b.1 as int) == inner_text(text@),
{
    let n = text.len();
    if n >= 2 {
        let first = text[0];
        let last = text[n - 1];
        if first == last && (first == 34 || first == 39) {
            return (1, n - 1);
        }
    }
    proof {
        assert(text@.subrange(0, n as int) =~= text@);
    }
    (0, n)
}

/// Compares two byte regions for equality.
fn bytes_region_equal(a: &Vec<u8>, al: usize, ah: usize, b: &Vec<u8>, bl: usize, bh: usize) -> (r:
    bool)
    requires
        al <= ah <= a@.len(),
        bl <= bh <= b@.len(),
    ensures
        r == (a@.subrange(al as int, ah as int) == b@.subrange(bl as int, bh as int)),
{
    let ghost sa = a@.subrange(al as int, ah as int);
    let ghost sb = b@.subrange(bl as int, bh as int);
    if ah - al != bh - bl {
        proof {
            assert(sa.len() != sb.len());
        }
        return false;
    }
    let n = ah - al;
    let mut i: usize = 0;
    while i < n
        invariant
            i <= n,
            al + n <= a@.len(),
            bl + n <= b@.len(),
            n == ah - al == bh - bl,
            sa == a@.subrange(al as int, ah as int),
            sb == b@.subrange(bl as int, bh as int),
            forall|j: int| 0 <= j < i ==> sa[j] == sb[j],
        decreases n - i,
    {
        if a[al + i] != b[bl + i] {
            proof {
                assert(sa[i as int] != sb[i as int]);
            }
            return false;
        }
        i = i + 1;
    }
    proof {
        assert(sa =~= sb);
    }
    true
}

/// Whether two tokens carry the same comparison text.
pub(crate) fn tokens_text_equal(a: &SourceToken, b: &SourceToken) -> (r: bool)
    ensures
        r == (inner_text(a@.text) == inner_text(b@.text)),
{
    let (al, ah) = inner_bounds(&a.text);
    let (bl, bh) = inner_bounds(&b.text);
    bytes_region_equal(&a.text, al, ah, &b.text, bl, bh)
}

/// Whether two literals are equal as leaf tokens: same kind among string and
/// number, and the same comparison text. Any other combination never matches.
pub open spec fn literals_match(l: LiteralModel, r: LiteralModel) -> bool {
    match (l, r) {
        (LiteralModel::Str(lt), LiteralModel::Str(rt)) => inner_text(lt.text) == inner_text(
            rt.text,
        ),
        (LiteralModel::Num(lt), LiteralModel::Num(rt)) => inner_text(lt.text) == inner_text(
            rt.text,
        ),
        _ => false,
    }
}

/// Decides [`literals_match`] on two literal nodes.
pub(crate) fn literal_tokens_equal(a: &JsLiteral, b: &JsLiteral) -> (r: bool)
    ensures
        r == literals_match(a@, b@),
{
    match (a, b) {
        (JsLiteral::Str(lt), JsLiteral::Str(rt)) => tokens_text_equal(lt, rt),
        (JsLiteral::Num(lt), JsLiteral::Num(rt)) => tokens_text_equal(lt, rt),
        _ => false,
    }
}

/// The possible pairings of the terminal nodes found on the two sides of an
/// assignment. The first component always comes from the left (target) side,
/// the second from the right (value) side.
#[derive(Debug)]
pub enum IdentifiersLike {
    /// A target identifier against a reference, as in `a = a`, `[a] = [a]`
    /// or `{a} = {a}`.
    IdentifierAndReference(SourceToken, SourceToken),
    /// Two references, as the computed keys in `a[b] = a[b]`.
    References(SourceToken, SourceToken),
    /// Two member names, as in `a.b = a.b`.
    Name(SourceToken, SourceToken),
    /// Two private member names, as in `a.#b = a.#b`.
    PrivateName(SourceToken, SourceToken),
    /// Two literal keys, as in `a['b'].d = a['b'].d`.
    Literal(JsLiteral, JsLiteral),
}

/// The mathematical value of a leaf pair.
pub enum IdentifiersLikeModel {
    IdentifierAndReference(TokenModel, TokenModel),
    References(TokenModel, TokenModel),
    Name(TokenModel, TokenModel),
    PrivateName(TokenModel, TokenModel),
    Literal(LiteralModel, LiteralModel),
}

impl View for IdentifiersLike {
    type V = IdentifiersLikeModel;

    open spec fn view(&self) -> IdentifiersLikeModel {
        match self {
            IdentifiersLike::IdentifierAndReference(l, r) =>
                IdentifiersLikeModel::IdentifierAndReference(l@, r@),
            IdentifiersLike::References(l, r) => IdentifiersLikeModel::References(l@, r@),
            IdentifiersLike::Name(l, r) => IdentifiersLikeModel::Name(l@, r@),
            IdentifiersLike::PrivateName(l, r) => IdentifiersLikeModel::PrivateName(l@, r@),
            IdentifiersLike::Literal(l, r) => IdentifiersLikeModel::Literal(l@, r@),
        }
    }
}

/// Whether a leaf pair is a match: both terminals carry the same comparison
/// text. A literal pair additionally requires the same literal kind.
pub open spec fn identifiers_match(p: IdentifiersLikeModel) -> bool {
    match p {
        IdentifiersLikeModel::IdentifierAndReference(l, r) => inner_text(l.text) == inner_text(
            r.text,
        ),
        IdentifiersLikeModel::References(l, r) => inner_text(l.text) == inner_text(r.text),
        IdentifiersLikeModel::Name(l, r) => inner_text(l.text) == inner_text(r.text),
        IdentifiersLikeModel::PrivateName(l, r) => inner_text(l.text) == inner_text(r.text),
        IdentifiersLikeModel::Literal(l, r) => literals_match(l, r),
    }
}

/// The span of the target-side terminal, for the secondary detail of a
/// diagnostic.
pub open spec fn left_range_of(p: IdentifiersLikeModel) -> SourceRange {
    match p {
        IdentifiersLikeModel::IdentifierAndReference(l, _) => l.range,
        IdentifiersLikeModel::References(l, _) => l.range,
        IdentifiersLikeModel::Name(l, _) => l.range,
        IdentifiersLikeModel::PrivateName(l, _) => l.range,
        IdentifiersLikeModel::Literal(l, _) => l.token_model().range,
    }
}

/// The span of the value-side terminal, for the primary range of a
/// diagnostic.
pub open spec fn right_range_of(p: IdentifiersLikeModel) -> SourceRange {
    match p {
        IdentifiersLikeModel::IdentifierAndReference(_, r) => r.range,
        IdentifiersLikeModel::References(_, r) => r.range,
        IdentifiersLikeModel::Name(_, r) => r.range,
        IdentifiersLikeModel::PrivateName(_, r) => r.range,
        IdentifiersLikeModel::Literal(_, r) => r.token_model().range,
    }
}

/// The value-side terminal's token, used as the display token of a signal.
pub open spec fn name_of(p: IdentifiersLikeModel) -> TokenModel {
    match p {
        IdentifiersLikeModel::IdentifierAndReference(_, r) => r,
        IdentifiersLikeModel::References(_, r) => r,
        IdentifiersLikeModel::Name(_, r) => r,
        IdentifiersLikeModel::PrivateName(_, r) => r,
        IdentifiersLikeModel::Literal(_, r) => r.token_model(),
    }
}

impl LiteralModel {
    /// The token of a literal, at the specification level.
    pub open spec fn token_model(self) -> TokenModel {
        match self {
            LiteralModel::Str(t) => t,
            LiteralModel::Num(t) => t,
            LiteralModel::Other(t) => t,
        }
    }
}

impl IdentifiersLike {
    /// The span of the target-side terminal.
    pub fn left_range(&self) -> (r: SourceRange)
        ensures
            r == left_range_of(self@),
    {
        match self {
            IdentifiersLike::IdentifierAndReference(l, _) => l.range,
            IdentifiersLike::References(l, _) => l.range,
            IdentifiersLike::Name(l, _) => l.range,
            IdentifiersLike::PrivateName(l, _) => l.range,
            IdentifiersLike::Literal(l, _) => l.token().range,
        }
    }

    /// The span of the value-side terminal.
    pub fn right_range(&self) -> (r: SourceRange)
        ensures
            r == right_range_of(self@),
    {
        match self {
            IdentifiersLike::IdentifierAndReference(_, r) => r.range,
            IdentifiersLike::References(_, r) => r.range,
            IdentifiersLike::Name(_, r) => r.range,
            IdentifiersLike::PrivateName(_, r) => r.range,
            IdentifiersLike::Literal(_, r) => r.token().range,
        }
    }

    /// The value-side terminal's token, whose text renders the diagnostic
    /// message.
    pub fn name(&self) -> (t: &SourceToken)
        ensures
            t@ == name_of(self@),
    {
        match self {
            IdentifiersLike::IdentifierAndReference(_, r) => r,
            IdentifiersLike::References(_, r) => r,
            IdentifiersLike::Name(_, r) => r,
            IdentifiersLike::PrivateName(_, r) => r,
            IdentifiersLike::Literal(_, r) => r.token(),
        }
    }
}

/// Decides whether the two sides of a leaf pair carry the same text, the
/// condition under which the pair is reported as a self-assignment.
pub fn with_same_identifiers(p: &IdentifiersLike) -> (r: bool)
    ensures
        r == identifiers_match(p@),
{
    match p {
        IdentifiersLike::IdentifierAndReference(l, r) => tokens_text_equal(l, r),
        IdentifiersLike::References(l, r) => tokens_text_equal(l, r),
        IdentifiersLike::Name(l, r) => tokens_text_equal(l, r),
        IdentifiersLike::PrivateName(l, r) => tokens_text_equal(l, r),
        IdentifiersLike::Literal(l, r) => literal_tokens_equal(l, r),
    }
}

} // verus!
