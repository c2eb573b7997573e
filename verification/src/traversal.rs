//! The composite traversal driver.
//!
//! A root shape is turned into its signals without native recursion: the
//! driver keeps one current shape and a FIFO backlog of suspended shapes.
//! Element-wise shapes advance one slot pair per step; a slot that resolves
//! to a nested composite suspends the current shape on the backlog and is
//! descended into; an incompatible or exhausted slot abandons the current
//! shape and resumes the next suspended one. Chain shapes are stepped through
//! the lock-step walk. The work queue makes stack depth constant no matter
//! how deeply the destructuring nests, and the weight measures of
//! [`crate::shape`] prove the whole traversal terminates.

use vstd::multiset::Multiset;
use vstd::prelude::*;

use crate::ast::JsArrayElement;
use crate::ast::JsArrayPatternElement;
use crate::ast::JsObjectMember;
use crate::ast::JsObjectPatternMember;
use crate::idents::IdentifiersLike;
use crate::idents::IdentifiersLikeModel;
use crate::idents::identifiers_match;
use crate::idents::tokens_text_equal;
use crate::idents::with_same_identifiers;
use crate::names::IdentifiersLikeRef;
use crate::shape::AnyAssignmentLike;
use crate::shape::ShapeModel;
use crate::shape::array_step_model;
use crate::shape::lemma_array_slot_size;
use crate::shape::lemma_object_slot_size;
use crate::shape::object_step_model;
use crate::shape::shape_sig;
use crate::shape::shape_size;
use crate::shape::shape_yields;
use crate::walker::AnyJsAssignmentExpressionLikeIterator;
use crate::walker::chain_sig;
use crate::walker::chain_yields;
use crate::walker::walker_size;

verus! {

broadcast use vstd::multiset::group_multiset_axioms, vstd::seq_lib::group_to_multiset_ensures;

/// The signals a shape still owes, as a multiset: signal order is a property
/// of the backlog discipline, not of the comparison, so everything the
/// driver promises is stated up to reordering.
pub open spec fn sig_ms(s: ShapeModel) -> Multiset<IdentifiersLikeModel> {
    shape_sig(s).to_multiset()
}

/// The signals all suspended shapes still owe.
pub open spec fn queue_sig_ms<'a>(q: Seq<AnyAssignmentLike<'a>>) -> Multiset<
    IdentifiersLikeModel,
>
    decreases q.len(),
{
    if q.len() == 0 {
        Multiset::empty()
    } else {
        sig_ms(q[0]@).add(queue_sig_ms(q.drop_first()))
    }
}

/// The leaf pairs a shape still has to yield, matching or not, as a
/// multiset.
pub open spec fn yields_ms(s: ShapeModel) -> Multiset<IdentifiersLikeModel> {
    shape_yields(s).to_multiset()
}

/// The leaf pairs all suspended shapes still have to yield.
pub open spec fn queue_yields_ms<'a>(q: Seq<AnyAssignmentLike<'a>>) -> Multiset<
    IdentifiersLikeModel,
>
    decreases q.len(),
{
    if q.len() == 0 {
        Multiset::empty()
    } else {
        yields_ms(q[0]@).add(queue_yields_ms(q.drop_first()))
    }
}

/// The combined weight of all suspended shapes; each entry costs one extra
/// unit, so that popping an entry always sheds weight.
pub open spec fn queue_weight<'a>(q: Seq<AnyAssignmentLike<'a>>) -> nat
    decreases q.len(),
{
    if q.len() == 0 {
        0
    } else {
        1 + shape_size(q[0]@) + queue_weight(q.drop_first())
    }
}

/// What one reported leaf pair contributes: itself if its sides match,
/// nothing otherwise.
pub open spec fn leaf_ms(m: IdentifiersLikeModel) -> Multiset<IdentifiersLikeModel> {
    if identifiers_match(m) {
        Multiset::empty().insert(m)
    } else {
        Multiset::empty()
    }
}

/// The signals a collected vector holds, as a multiset of leaf pair values.
pub open spec fn signals_ms(s: Seq<IdentifiersLike>) -> Multiset<IdentifiersLikeModel>
    decreases s.len(),
{
    if s.len() == 0 {
        Multiset::empty()
    } else {
        signals_ms(s.drop_last()).insert(s.last()@)
    }
}

/// A collected vector holds as many signals as its multiset counts.
pub proof fn lemma_signals_ms_len(s: Seq<IdentifiersLike>)
    ensures
        signals_ms(s).len() == s.len(),
    decreases s.len(),
{
    if s.len() > 0 {
        lemma_signals_ms_len(s.drop_last());
    }
}

/// Appending to the backlog adds exactly the new shape's owed signals,
/// owed yields and weight.
proof fn lemma_queue_push<'a>(q: Seq<AnyAssignmentLike<'a>>, s: AnyAssignmentLike<'a>)
    ensures
        queue_sig_ms(q.push(s)) == queue_sig_ms(q).add(sig_ms(s@)),
        queue_yields_ms(q.push(s)) == queue_yields_ms(q).add(yields_ms(s@)),
        queue_weight(q.push(s)) == queue_weight(q) + 1 + shape_size(s@),
    decreases q.len(),
{
    if q.len() == 0 {
        assert(q.push(s)[0] == s);
        assert(q.push(s).drop_first() =~= Seq::<AnyAssignmentLike<'a>>::empty());
        assert(queue_sig_ms(q.push(s).drop_first()) == Multiset::<
            IdentifiersLikeModel,
        >::empty());
        assert(queue_yields_ms(q.push(s).drop_first()) == Multiset::<
            IdentifiersLikeModel,
        >::empty());
        assert(queue_weight(q.push(s).drop_first()) == 0);
        assert(queue_sig_ms(q.push(s)) =~= queue_sig_ms(q).add(sig_ms(s@)));
        assert(queue_yields_ms(q.push(s)) =~= queue_yields_ms(q).add(yields_ms(s@)));
    } else {
        lemma_queue_push(q.drop_first(), s);
        assert(q.push(s)[0] == q[0]);
        assert(q.push(s).drop_first() =~= q.drop_first().push(s));
        assert(queue_sig_ms(q.push(s).drop_first()) == queue_sig_ms(q.drop_first()).add(
            sig_ms(s@),
        ));
        assert(queue_yields_ms(q.push(s).drop_first()) == queue_yields_ms(q.drop_first()).add(
            yields_ms(s@),
        ));
        assert(queue_weight(q.push(s).drop_first()) == queue_weight(q.drop_first()) + 1
            + shape_size(s@));
        assert(queue_sig_ms(q.push(s)) == sig_ms(q[0]@).add(
            queue_sig_ms(q.push(s).drop_first()),
        ));
        assert(queue_sig_ms(q) == sig_ms(q[0]@).add(queue_sig_ms(q.drop_first())));
        assert(queue_yields_ms(q.push(s)) == yields_ms(q[0]@).add(
            queue_yields_ms(q.push(s).drop_first()),
        ));
        assert(queue_yields_ms(q) == yields_ms(q[0]@).add(queue_yields_ms(q.drop_first())));
        assert(queue_weight(q.push(s)) == 1 + shape_size(q[0]@) + queue_weight(
            q.push(s).drop_first(),
        ));
        assert(queue_weight(q) == 1 + shape_size(q[0]@) + queue_weight(q.drop_first()));
        assert(queue_sig_ms(q.push(s)) =~= queue_sig_ms(q).add(sig_ms(s@)));
        assert(queue_yields_ms(q.push(s)) =~= queue_yields_ms(q).add(yields_ms(s@)));
    }
}

/// The signals of an empty sequence form the empty multiset.
proof fn lemma_empty_sig_ms(s: Seq<IdentifiersLikeModel>)
    requires
        s == Seq::<IdentifiersLikeModel>::empty(),
    ensures
        s.to_multiset() == Multiset::<IdentifiersLikeModel>::empty(),
{
    assert(s.to_multiset().len() == 0);
    assert(s.to_multiset() =~= Multiset::<IdentifiersLikeModel>::empty());
}

/// Iterates over every leaf pair an assignment-like shape can produce,
/// driving one current shape and a FIFO backlog of suspended shapes.
pub struct SameIdentifiers<'a> {
    /// The shape currently being stepped.
    pub current_assignment_like: AnyAssignmentLike<'a>,
    /// Suspended shapes, resumed first-in first-out once the current shape
    /// is spent.
    pub assignment_queue: Vec<AnyAssignmentLike<'a>>,
}

/// The signals the whole traversal state still owes.
pub open spec fn state_sig<'a>(s: SameIdentifiers<'a>) -> Multiset<IdentifiersLikeModel> {
    sig_ms(s.current_assignment_like@).add(queue_sig_ms(s.assignment_queue@))
}

/// The leaf pairs the whole traversal state still has to yield, matching or
/// not.
pub open spec fn state_yields<'a>(s: SameIdentifiers<'a>) -> Multiset<IdentifiersLikeModel> {
    yields_ms(s.current_assignment_like@).add(queue_yields_ms(s.assignment_queue@))
}

/// The remaining weight of the whole traversal state.
pub open spec fn state_weight<'a>(s: SameIdentifiers<'a>) -> nat {
    shape_size(s.current_assignment_like@) + queue_weight(s.assignment_queue@)
}

impl<'a> SameIdentifiers<'a> {
    /// Pulls the current slot pair of an array shape and classifies it; the
    /// slot of an exhausted cursor, an element with a default initializer
    /// and any non-expression element are all `NoMatch`.
    fn next_array_assignment(
        left: &'a Vec<JsArrayPatternElement>,
        left_index: usize,
        right: &'a Vec<JsArrayElement>,
        right_index: usize,
    ) -> (s: AnyAssignmentLike<'a>)
        ensures
            s@ == array_step_model(left@, left_index as int, right@, right_index as int),
    {
        if left_index >= left.len() || right_index >= right.len() {
            return AnyAssignmentLike::NoMatch;
        }
        match (&left[left_index], &right[right_index]) {
            (
                JsArrayPatternElement::Element { pattern, has_default },
                JsArrayElement::Expression(value),
            ) => {
                if *has_default {
                    // A default initializer changes the assignment's
                    // run-time meaning, so the slot can never be a no-op.
                    AnyAssignmentLike::NoMatch
                } else {
                    AnyAssignmentLike::try_from(pattern, value)
                }
            },
            _ => AnyAssignmentLike::NoMatch,
        }
    }

    /// Pulls the current member pair of an object shape and classifies it.
    fn next_object_assignment(
        left: &'a Vec<JsObjectPatternMember>,
        left_index: usize,
        right: &'a Vec<JsObjectMember>,
        right_index: usize,
    ) -> (s: AnyAssignmentLike<'a>)
        ensures
            s@ == object_step_model(left@, left_index as int, right@, right_index as int),
    {
        if left_index >= left.len() || right_index >= right.len() {
            return AnyAssignmentLike::NoMatch;
        }
        match (&left[left_index], &right[right_index]) {
            (JsObjectPatternMember::Shorthand(lt), JsObjectMember::Shorthand(rt)) =>
                AnyAssignmentLike::Identifiers(
                IdentifiersLikeRef::IdentifierAndReference(lt, rt),
            ),
            (JsObjectPatternMember::Property(lp), JsObjectMember::Property(rv)) =>
                AnyAssignmentLike::try_from(lp, rv),
            _ => AnyAssignmentLike::NoMatch,
        }
    }

    /// Steps both chain walkers once, in lock-step. The level's two keys
    /// must pair up and match; if both chains bottom out here on matching
    /// references, the outermost key pair is the result; if neither bottoms
    /// out, the walk continues one level deeper; anything else is `NoMatch`.
    fn next_static_expression(
        left: AnyJsAssignmentExpressionLikeIterator<'a>,
        right: AnyJsAssignmentExpressionLikeIterator<'a>,
    ) -> (res: (
        AnyJsAssignmentExpressionLikeIterator<'a>,
        AnyJsAssignmentExpressionLikeIterator<'a>,
        AnyAssignmentLike<'a>,
    ))
        ensures
            res.2 is NoMatch || res.2 is Identifiers,
            chain_sig(left@, right@) == (match res.2 {
                AnyAssignmentLike::Identifiers(p) => if identifiers_match(p@) {
                    seq![p@]
                } else {
                    Seq::<IdentifiersLikeModel>::empty()
                },
                _ => Seq::<IdentifiersLikeModel>::empty(),
            }),
            chain_yields(left@, right@) == (match res.2 {
                AnyAssignmentLike::Identifiers(p) => seq![p@],
                _ => Seq::<IdentifiersLikeModel>::empty(),
            }),
            res.2 is Identifiers ==> chain_sig(res.0@, res.1@) == Seq::<
                IdentifiersLikeModel,
            >::empty(),
            res.2 is Identifiers ==> chain_yields(res.0@, res.1@) == Seq::<
                IdentifiersLikeModel,
            >::empty(),
            res.2 is Identifiers ==> walker_size(res.0@) + walker_size(res.1@) < walker_size(
                left@,
            ) + walker_size(right@),
        decreases walker_size(left@) + walker_size(right@),
    {
        let mut left_walker = left;
        let mut right_walker = right;
        let left_item = left_walker.next();
        let right_item = right_walker.next();
        match (left_item, right_item) {
            (Some((left_name, left_reference)), Some((right_name, right_reference))) => {
                match IdentifiersLikeRef::try_from_names(left_name, right_name) {
                    Some(identifier_like) => {
                        if identifier_like.matches() {
                            match (left_reference, right_reference) {
                                (Some(left_reference), Some(right_reference)) => {
                                    if tokens_text_equal(left_reference, right_reference) {
                                        match IdentifiersLikeRef::try_from_names(
                                            left_walker.source_member,
                                            right_walker.source_member,
                                        ) {
                                            Some(source_identifier) => (
                                                left_walker,
                                                right_walker,
                                                AnyAssignmentLike::Identifiers(source_identifier),
                                            ),
                                            None => (
                                                left_walker,
                                                right_walker,
                                                AnyAssignmentLike::NoMatch,
                                            ),
                                        }
                                    } else {
                                        (left_walker, right_walker, AnyAssignmentLike::NoMatch)
                                    }
                                },
                                _ => Self::next_static_expression(left_walker, right_walker),
                            }
                        } else {
                            (left_walker, right_walker, AnyAssignmentLike::NoMatch)
                        }
                    },
                    None => (left_walker, right_walker, AnyAssignmentLike::NoMatch),
                }
            },
            _ => (left_walker, right_walker, AnyAssignmentLike::NoMatch),
        }
    }

    /// Steps the current shape once, returning the next shape it produced.
    /// The queue is untouched; the caller decides whether to yield, descend
    /// or resume. The returned shape and the advanced current shape together
    /// owe exactly what the current shape owed — unless the step found an
    /// incompatible slot, in which case nothing more is owed at all.
    fn next_assignment_like(&mut self) -> (r: AnyAssignmentLike<'a>)
        ensures
            final(self).assignment_queue == old(self).assignment_queue,
            shape_sig(old(self).current_assignment_like@) == (if r@ is NoMatch {
                Seq::<IdentifiersLikeModel>::empty()
            } else {
                shape_sig(r@) + shape_sig(final(self).current_assignment_like@)
            }),
            shape_yields(old(self).current_assignment_like@) == (if r@ is NoMatch {
                Seq::<IdentifiersLikeModel>::empty()
            } else {
                shape_yields(r@) + shape_yields(final(self).current_assignment_like@)
            }),
            r@ is Identifiers ==> shape_size(final(self).current_assignment_like@) < shape_size(
                old(self).current_assignment_like@,
            ),
            (r@ is Arrays || r@ is Object || r@ is StaticExpression) ==> shape_size(r@)
                + shape_size(final(self).current_assignment_like@) + 2 <= shape_size(
                old(self).current_assignment_like@,
            ),
    {
        match self.current_assignment_like {
            AnyAssignmentLike::Arrays { left, left_index, right, right_index } => {
                let new_assignment_like = Self::next_array_assignment(
                    left,
                    left_index,
                    right,
                    right_index,
                );
                if left_index < left.len() && right_index < right.len() {
                    self.current_assignment_like = AnyAssignmentLike::Arrays {
                        left,
                        left_index: left_index + 1,
                        right,
                        right_index: right_index + 1,
                    };
                }
                proof {
                    if !(new_assignment_like@ is NoMatch) {
                        lemma_array_slot_size(
                            left@,
                            left_index as int,
                            right@,
                            right_index as int,
                        );
                    }
                }
                new_assignment_like
            },
            AnyAssignmentLike::Object { left, left_index, right, right_index } => {
                let new_assignment_like = Self::next_object_assignment(
                    left,
                    left_index,
                    right,
                    right_index,
                );
                if left_index < left.len() && right_index < right.len() {
                    self.current_assignment_like = AnyAssignmentLike::Object {
                        left,
                        left_index: left_index + 1,
                        right,
                        right_index: right_index + 1,
                    };
                }
                proof {
                    if !(new_assignment_like@ is NoMatch) {
                        lemma_object_slot_size(
                            left@,
                            left_index as int,
                            right@,
                            right_index as int,
                        );
                    }
                }
                new_assignment_like
            },
            AnyAssignmentLike::StaticExpression { left, right } => {
                let stepped = Self::next_static_expression(left, right);
                self.current_assignment_like = AnyAssignmentLike::StaticExpression {
                    left: stepped.0,
                    right: stepped.1,
                };
                proof {
                    assert(shape_sig(stepped.2@) + Seq::<IdentifiersLikeModel>::empty()
                        =~= shape_sig(stepped.2@));
                    assert(shape_yields(stepped.2@) + Seq::<IdentifiersLikeModel>::empty()
                        =~= shape_yields(stepped.2@));
                }
                stepped.2
            },
            _ => {
                // `NoMatch` or a terminal pair: the current shape is spent.
                let new_assignment = self.current_assignment_like;
                self.current_assignment_like = AnyAssignmentLike::NoMatch;
                proof {
                    assert(shape_sig(new_assignment@) + Seq::<IdentifiersLikeModel>::empty()
                        =~= shape_sig(new_assignment@));
                    assert(shape_yields(new_assignment@) + Seq::<IdentifiersLikeModel>::empty()
                        =~= shape_yields(new_assignment@));
                }
                new_assignment
            },
        }
    }

    /// Produces the next leaf pair of the traversal, or nothing once every
    /// shape is spent. A produced pair is cloned out of the tree; whether it
    /// is a match is for the caller to decide: the yield accounting pins
    /// every structurally aligned pair, matching or not, so none may be
    /// skipped. Once the traversal has answered nothing it is spent for
    /// good: the final state owes no pair and cannot produce one again.
    pub fn next(&mut self) -> (r: Option<IdentifiersLike>)
        ensures
            match r {
                Some(x) => {
                    &&& state_sig(*old(self)) == leaf_ms(x@).add(state_sig(*final(self)))
                    &&& state_yields(*old(self)) == Multiset::empty().insert(x@).add(
                        state_yields(*final(self)),
                    )
                    &&& state_weight(*final(self)) < state_weight(*old(self))
                },
                None => {
                    &&& state_sig(*old(self)) == Multiset::<IdentifiersLikeModel>::empty()
                    &&& state_yields(*old(self)) == Multiset::<IdentifiersLikeModel>::empty()
                    &&& final(self).current_assignment_like@ is NoMatch
                    &&& final(self).assignment_queue@.len() == 0
                    &&& state_sig(*final(self)) == Multiset::<IdentifiersLikeModel>::empty()
                    &&& state_yields(*final(self)) == Multiset::<IdentifiersLikeModel>::empty()
                },
            },
    {
        loop
            invariant
                state_sig(*self) == state_sig(*old(self)),
                state_yields(*self) == state_yields(*old(self)),
                state_weight(*self) <= state_weight(*old(self)),
            decreases state_weight(*self),
        {
            let ghost pre = *self;
            let new_assignment_like = self.next_assignment_like();
            match new_assignment_like {
                AnyAssignmentLike::NoMatch => {
                    // The current shape is spent: resume the next suspended
                    // one, or end the traversal for good.
                    proof {
                        lemma_empty_sig_ms(shape_sig(pre.current_assignment_like@));
                        lemma_empty_sig_ms(shape_yields(pre.current_assignment_like@));
                    }
                    if self.assignment_queue.len() > 0 {
                        let pair = self.assignment_queue.remove(0);
                        self.current_assignment_like = pair;
                        proof {
                            let q = pre.assignment_queue@;
                            assert(q.remove(0) =~= q.drop_first());
                            assert(queue_sig_ms(q) == sig_ms(q[0]@).add(
                                queue_sig_ms(q.drop_first()),
                            ));
                            assert(queue_yields_ms(q) == yields_ms(q[0]@).add(
                                queue_yields_ms(q.drop_first()),
                            ));
                            assert(queue_weight(q) == 1 + shape_size(q[0]@) + queue_weight(
                                q.drop_first(),
                            ));
                            assert(state_sig(*self) =~= state_sig(pre));
                            assert(state_yields(*self) =~= state_yields(pre));
                            assert(state_weight(*self) < state_weight(pre));
                        }
                    } else {
                        self.current_assignment_like = AnyAssignmentLike::NoMatch;
                        proof {
                            assert(queue_sig_ms(pre.assignment_queue@) == Multiset::<
                                IdentifiersLikeModel,
                            >::empty());
                            assert(queue_yields_ms(pre.assignment_queue@) == Multiset::<
                                IdentifiersLikeModel,
                            >::empty());
                            assert(state_sig(pre) =~= Multiset::<IdentifiersLikeModel>::empty());
                            assert(state_yields(pre) =~= Multiset::<
                                IdentifiersLikeModel,
                            >::empty());
                            lemma_empty_sig_ms(shape_sig(ShapeModel::NoMatch));
                            lemma_empty_sig_ms(shape_yields(ShapeModel::NoMatch));
                            assert(state_sig(*self) =~= Multiset::<
                                IdentifiersLikeModel,
                            >::empty());
                            assert(state_yields(*self) =~= Multiset::<
                                IdentifiersLikeModel,
                            >::empty());
                        }
                        return None;
                    }
                },
                AnyAssignmentLike::Identifiers(identifier_like) => {
                    let owned = identifier_like.to_owned();
                    proof {
                        vstd::seq_lib::lemma_multiset_commutative(
                            shape_sig(new_assignment_like@),
                            shape_sig(self.current_assignment_like@),
                        );
                        vstd::seq_lib::lemma_multiset_commutative(
                            shape_yields(new_assignment_like@),
                            shape_yields(self.current_assignment_like@),
                        );
                        assert(seq![identifier_like@] =~= Seq::<
                            IdentifiersLikeModel,
                        >::empty().push(identifier_like@));
                        lemma_empty_sig_ms(Seq::<IdentifiersLikeModel>::empty());
                        assert(seq![identifier_like@].to_multiset() =~= Multiset::empty().insert(
                            identifier_like@,
                        ));
                        if !identifiers_match(identifier_like@) {
                            lemma_empty_sig_ms(shape_sig(new_assignment_like@));
                        }
                        assert(state_sig(pre) =~= leaf_ms(owned@).add(state_sig(*self)));
                        assert(state_yields(pre) =~= Multiset::empty().insert(owned@).add(
                            state_yields(*self),
                        ));
                        assert(state_weight(*self) < state_weight(pre));
                    }
                    return Some(owned);
                },
                _ => {
                    // A nested composite or chain: suspend the advanced
                    // current shape and descend into the new one.
                    let current = self.current_assignment_like;
                    self.assignment_queue.push(current);
                    self.current_assignment_like = new_assignment_like;
                    proof {
                        lemma_queue_push(pre.assignment_queue@, current);
                        vstd::seq_lib::lemma_multiset_commutative(
                            shape_sig(new_assignment_like@),
                            shape_sig(current@),
                        );
                        vstd::seq_lib::lemma_multiset_commutative(
                            shape_yields(new_assignment_like@),
                            shape_yields(current@),
                        );
                        assert(state_sig(*self) =~= state_sig(pre));
                        assert(state_yields(*self) =~= state_yields(pre));
                        assert(state_weight(*self) < state_weight(pre));
                    }
                },
            }
        }
    }
}

/// Collects every matching leaf pair the shape produces into
/// `incorrect_identifiers`: afterwards the vector holds its old contents,
/// untouched and in place, followed by everything the shape owed, and every
/// entry of the vector is a matching pair if every old entry was.
pub fn compare_assignment_like<'a>(
    any_assignment_like: AnyAssignmentLike<'a>,
    incorrect_identifiers: &mut Vec<IdentifiersLike>,
)
    ensures
        signals_ms(final(incorrect_identifiers)@) == signals_ms(old(incorrect_identifiers)@).add(
            sig_ms(any_assignment_like@),
        ),
        old(incorrect_identifiers)@.is_prefix_of(final(incorrect_identifiers)@),
        (forall|i: int|
            0 <= i < old(incorrect_identifiers)@.len() ==> identifiers_match(
                #[trigger] old(incorrect_identifiers)@[i]@,
            )) ==> (forall|i: int|
            0 <= i < final(incorrect_identifiers)@.len() ==> identifiers_match(
                #[trigger] final(incorrect_identifiers)@[i]@,
            )),
{
    let mut same_identifiers = SameIdentifiers {
        current_assignment_like: any_assignment_like,
        assignment_queue: Vec::new(),
    };
    proof {
        assert(state_sig(same_identifiers) =~= sig_ms(any_assignment_like@));
    }
    loop
        invariant
            signals_ms(incorrect_identifiers@).add(state_sig(same_identifiers)) == signals_ms(
                old(incorrect_identifiers)@,
            ).add(sig_ms(any_assignment_like@)),
            old(incorrect_identifiers)@.len() <= incorrect_identifiers@.len(),
            forall|i: int|
                0 <= i < old(incorrect_identifiers)@.len() ==> incorrect_identifiers@[i] == old(
                    incorrect_identifiers,
                )@[i],
            forall|i: int|
                old(incorrect_identifiers)@.len() <= i < incorrect_identifiers@.len()
                    ==> identifiers_match(#[trigger] incorrect_identifiers@[i]@),
        decreases state_weight(same_identifiers),
    {
        let ghost pre_signals = incorrect_identifiers@;
        match same_identifiers.next() {
            Some(identifier_like) => {
                if with_same_identifiers(&identifier_like) {
                    incorrect_identifiers.push(identifier_like);
                    proof {
                        assert(incorrect_identifiers@.drop_last() =~= pre_signals);
                        assert(signals_ms(incorrect_identifiers@).add(
                            state_sig(same_identifiers),
                        ) =~= signals_ms(old(incorrect_identifiers)@).add(
                            sig_ms(any_assignment_like@),
                        ));
                    }
                } else {
                    proof {
                        assert(signals_ms(incorrect_identifiers@).add(
                            state_sig(same_identifiers),
                        ) =~= signals_ms(old(incorrect_identifiers)@).add(
                            sig_ms(any_assignment_like@),
                        ));
                    }
                }
            },
            None => {
                proof {
                    assert(signals_ms(incorrect_identifiers@) =~= signals_ms(
                        old(incorrect_identifiers)@,
                    ).add(sig_ms(any_assignment_like@)));
                    assert(old(incorrect_identifiers)@ =~= incorrect_identifiers@.subrange(
                        0,
                        old(incorrect_identifiers)@.len() as int,
                    ));
                }
                return ;
            },
        }
    }
}

} // verus!
