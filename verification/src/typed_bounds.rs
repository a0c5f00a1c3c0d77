//! Decomposition of a sequence around one of its positions.
//!
//! A split gives the elements before the position, the element there, and the
//! elements after it. Every other decomposition is this one with some of its
//! parts chained: the element chained to the left part or to the right part,
//! or the two outer parts chained to each other when the element is popped.

use vstd::prelude::*;
use crate::chain::{ChainLeft, ChainRight};
use crate::generator::IndexImpl;
use crate::last_index::LastIndex;
use crate::tuple_index::{
    Position, TupleIndex0, TupleIndex1, TupleIndex2, TupleIndex3, TupleIndex4, TupleIndex5,
    TupleIndex6, TupleIndex7, TupleIndex8, TupleIndex9, TupleIndex10, TupleIndex11,
};
use crate::tuple_len::TupleLen;
use crate::typed_index::TypedIndex;
use crate::typed_until::{spec_same_through, TypedUntil};
use crate::typed_until_as::{Countdown, NthIndexedAs};

verus! {

/// Decomposition of a sequence around position `Idx`, whose element has type
/// `T`.
///
/// The five associated types name the parts. Their bounds say, on the level
/// of types, that the parts chain back together; the proof functions say the
/// same of the values.
pub trait TypedBounds<Idx: Countdown, T>: TypedIndex<Idx, T> + LastIndex + TypedUntil<Idx> {
    /// The type of the remaining tuple after popping element of type `T`.
    type PopOutput: TupleLen;

    /// The type of the left tuple when splitting exclusively (excludes element
    /// at `Idx`): `[.., Idx)`.
    type SplitLeftExclusive: ChainRight<(T,), Output = Self::SplitLeftInclusive> + ChainRight<
        Self::SplitRightExclusive,
        Output = Self::PopOutput,
    > + ChainRight<Self::SplitRightInclusive, Output = Self>;

    /// The type of the left tuple when splitting inclusively (includes element
    /// at `Idx`): `[.., Idx]`.
    type SplitLeftInclusive: TypedIndex<Idx, T> + NthIndexedAs<Idx, Self> + TypedUntil<
        Idx,
    > + ChainRight<Self::SplitRightExclusive, Output = Self>;

    /// The type of the right tuple when splitting exclusively (excludes element
    /// at `Idx`): `(Idx, ..]`.
    type SplitRightExclusive: ChainLeft<(T,), Output = Self::SplitRightInclusive> + ChainLeft<
        Self::SplitLeftExclusive,
        Output = Self::PopOutput,
    > + ChainLeft<Self::SplitLeftInclusive, Output = Self>;

    /// The type of the right tuple when splitting inclusively (includes element
    /// at `Idx`): `[Idx, ..]`.
    type SplitRightInclusive: TypedIndex<TupleIndex0, T> + ChainLeft<
        Self::SplitLeftExclusive,
        Output = Self,
    >;

    /// The elements before `Idx`, the element at `Idx`, and the elements
    /// after it.
    spec fn spec_split_exclusive(self) -> (Self::SplitLeftExclusive, T, Self::SplitRightExclusive);

    /// Splits the tuple exclusively at `Idx`, returning the element and the
    /// surrounding tuples.
    fn split_exclusive_at(self) -> (r: (Self::SplitLeftExclusive, T, Self::SplitRightExclusive))
        ensures
            r == self.spec_split_exclusive(),
    ;

    /// The middle part is the element at `Idx`, the left part has `Idx`
    /// elements, and the three parts have all the elements between them.
    proof fn lemma_split_shape(self)
        ensures
            self.spec_split_exclusive().1 == TypedIndex::<Idx, T>::spec_at(&self),
            Self::SplitLeftExclusive::spec_len() == Idx::spec_index(),
            Self::SplitRightExclusive::spec_len() + Idx::spec_index() + 1 == Self::spec_len(),
    ;

    /// The element is the last one of the left part that includes it, and the
    /// first one of the right part that includes it.
    proof fn lemma_split_pivot(self)
        ensures
            TypedIndex::<Idx, T>::spec_at(
                &ChainRight::<(T,)>::spec_chain_right(
                    self.spec_split_exclusive().0,
                    (self.spec_split_exclusive().1,),
                ),
            ) == TypedIndex::<Idx, T>::spec_at(&self),
            TypedIndex::<TupleIndex0, T>::spec_at(
                &ChainLeft::<(T,)>::spec_chain_left(
                    self.spec_split_exclusive().2,
                    (self.spec_split_exclusive().1,),
                ),
            ) == TypedIndex::<Idx, T>::spec_at(&self),
    ;

    /// The left part that includes the element is the beginning of the
    /// sequence: at `Idx`, and at each position before it, it holds what the
    /// sequence holds there.
    proof fn lemma_split_prefix(self)
        ensures
            spec_same_through::<Idx, Self::SplitLeftInclusive, Self>(
                &ChainRight::<(T,)>::spec_chain_right(
                    self.spec_split_exclusive().0,
                    (self.spec_split_exclusive().1,),
                ),
                &self,
            ),
    ;

    /// The parts chain back to the sequence, whichever side the element is
    /// first chained to.
    proof fn lemma_split_rejoin(self)
        ensures
            ({
                let parts = self.spec_split_exclusive();
                ChainRight::<Self::SplitRightExclusive>::spec_chain_right(
                    ChainRight::<(T,)>::spec_chain_right(parts.0, (parts.1,)),
                    parts.2,
                ) == self
            }),
            ({
                let parts = self.spec_split_exclusive();
                ChainRight::<Self::SplitRightInclusive>::spec_chain_right(
                    parts.0,
                    ChainLeft::<(T,)>::spec_chain_left(parts.2, (parts.1,)),
                ) == self
            }),
    ;

    /// Splitting what was chained gives the parts back.
    proof fn lemma_join_split(parts: (Self::SplitLeftExclusive, T, Self::SplitRightExclusive))
        ensures
            ChainRight::<Self::SplitRightExclusive>::spec_chain_right(
                ChainRight::<(T,)>::spec_chain_right(parts.0, (parts.1,)),
                parts.2,
            ).spec_split_exclusive() == parts,
            ChainRight::<Self::SplitRightInclusive>::spec_chain_right(
                parts.0,
                ChainLeft::<(T,)>::spec_chain_left(parts.2, (parts.1,)),
            ).spec_split_exclusive() == parts,
    ;

    /// Writing the element at `Idx` changes the middle part and no other.
    proof fn lemma_split_put(self, value: T)
        ensures
            TypedIndex::<Idx, T>::spec_put(self, value).spec_split_exclusive() == (
                self.spec_split_exclusive().0,
                value,
                self.spec_split_exclusive().2,
            ),
    ;
}

/// The left part with the element chained to it, then the right part.
pub open spec fn spec_join_left<S, Idx, T>(
    parts: (S::SplitLeftExclusive, T, S::SplitRightExclusive),
) -> S where S: TypedBounds<Idx, T>, Idx: Countdown {
    ChainRight::<S::SplitRightExclusive>::spec_chain_right(
        ChainRight::<(T,)>::spec_chain_right(parts.0, (parts.1,)),
        parts.2,
    )
}

/// The left part, then the right part with the element chained before it.
pub open spec fn spec_join_right<S, Idx, T>(
    parts: (S::SplitLeftExclusive, T, S::SplitRightExclusive),
) -> S where S: TypedBounds<Idx, T>, Idx: Countdown {
    ChainRight::<S::SplitRightInclusive>::spec_chain_right(
        parts.0,
        ChainLeft::<(T,)>::spec_chain_left(parts.2, (parts.1,)),
    )
}

/// The parts of a split that keeps the element on the left.
pub open spec fn spec_split_left<S, Idx, T>(s: S) -> (
    S::SplitLeftInclusive,
    S::SplitRightExclusive,
) where S: TypedBounds<Idx, T>, Idx: Countdown {
    let parts = s.spec_split_exclusive();
    (ChainRight::<(T,)>::spec_chain_right(parts.0, (parts.1,)), parts.2)
}

/// The parts of a split that keeps the element on the right.
pub open spec fn spec_split_right<S, Idx, T>(s: S) -> (
    S::SplitLeftExclusive,
    S::SplitRightInclusive,
) where S: TypedBounds<Idx, T>, Idx: Countdown {
    let parts = s.spec_split_exclusive();
    (parts.0, ChainLeft::<(T,)>::spec_chain_left(parts.2, (parts.1,)))
}

/// The element at `Idx`, and the sequence without it.
pub open spec fn spec_pop<S, Idx, T>(s: S) -> (T, S::PopOutput) where
    S: TypedBounds<Idx, T>,
    Idx: Countdown,
 {
    let parts = s.spec_split_exclusive();
    (parts.1, ChainRight::<S::SplitRightExclusive>::spec_chain_right(parts.0, parts.2))
}

/// Round trip through a split that keeps the element on the left: the left
/// part of `split_left` is the left part of `split_exclusive` with the
/// element chained to it, and its two parts chain back to the sequence.
pub proof fn lemma_split_left_round_trip<S, Idx, T>(s: S) where
    S: TypedBounds<Idx, T>,
    Idx: Countdown,

    ensures
        ChainRight::<(T,)>::spec_chain_right(
            s.spec_split_exclusive().0,
            (s.spec_split_exclusive().1,),
        ) == spec_split_left::<S, Idx, T>(s).0,
        ChainRight::<S::SplitRightExclusive>::spec_chain_right(
            spec_split_left::<S, Idx, T>(s).0,
            spec_split_left::<S, Idx, T>(s).1,
        ) == s,
{
    s.lemma_split_rejoin();
}

/// Round trip through a split that keeps the element on the right: the right
/// part of `split_right` is the element chained before the right part of
/// `split_exclusive`, and its two parts chain back to the sequence.
pub proof fn lemma_split_right_round_trip<S, Idx, T>(s: S) where
    S: TypedBounds<Idx, T>,
    Idx: Countdown,

    ensures
        ChainLeft::<(T,)>::spec_chain_left(
            s.spec_split_exclusive().2,
            (s.spec_split_exclusive().1,),
        ) == spec_split_right::<S, Idx, T>(s).1,
        ChainRight::<S::SplitRightInclusive>::spec_chain_right(
            spec_split_right::<S, Idx, T>(s).0,
            spec_split_right::<S, Idx, T>(s).1,
        ) == s,
{
    s.lemma_split_rejoin();
}

/// Popping is splitting and chaining what is left: the element is the middle
/// part of `split_exclusive`, the remainder is its left part chained to its
/// right part, and the remainder is one element shorter than the sequence.
pub proof fn lemma_pop_consistent<S, Idx, T>(s: S) where S: TypedBounds<Idx, T>, Idx: Countdown
    ensures
        spec_pop::<S, Idx, T>(s) == (
            s.spec_split_exclusive().1,
            ChainRight::<S::SplitRightExclusive>::spec_chain_right(
                s.spec_split_exclusive().0,
                s.spec_split_exclusive().2,
            ),
        ),
        spec_pop::<S, Idx, T>(s).0 == TypedIndex::<Idx, T>::spec_at(&s),
        S::PopOutput::spec_len() + 1 == S::spec_len(),
{
    s.lemma_split_shape();
    <S::SplitLeftExclusive as ChainRight<S::SplitRightExclusive>>::lemma_chain_len();
}

/// The lengths of the four parts around position `Idx`.
pub proof fn lemma_part_lengths<S, Idx, T>(s: S) where S: TypedBounds<Idx, T>, Idx: Countdown
    ensures
        S::SplitLeftExclusive::spec_len() == Idx::spec_index(),
        S::SplitLeftInclusive::spec_len() == Idx::spec_index() + 1,
        S::SplitRightExclusive::spec_len() == S::spec_len() - Idx::spec_index() - 1,
        S::SplitRightInclusive::spec_len() == S::spec_len() - Idx::spec_index(),
{
    s.lemma_split_shape();
    <S::SplitLeftExclusive as ChainRight<(T,)>>::lemma_chain_len();
    <S::SplitLeftExclusive as ChainRight<S::SplitRightInclusive>>::lemma_chain_len();
}

/// The parts around position `Idx` are as long as the row of the
/// implementation says: each has one element for each position that the row
/// gives it.
pub proof fn lemma_parts_match_row<S, Idx, T>(s: S) where S: TypedBounds<Idx, T>, Idx: Countdown
    ensures
        ({
            let row = IndexImpl { len: S::spec_len() as usize, index: Idx::spec_index() as usize };
            &&& row.wf()
            &&& row.len == S::spec_len()
            &&& row.index == Idx::spec_index()
            &&& S::SplitLeftExclusive::spec_len() == row.spec_left_exclusive().len()
            &&& S::SplitLeftInclusive::spec_len() == row.spec_left_inclusive().len()
            &&& S::SplitRightExclusive::spec_len() == row.spec_right_exclusive().len()
            &&& S::SplitRightInclusive::spec_len() == row.spec_right_inclusive().len()
            &&& S::PopOutput::spec_len() == row.spec_pop_remainder().len()
        }),
{
    S::lemma_len();
    <S as TypedIndex<Idx, T>>::lemma_in_range();
    lemma_part_lengths::<S, Idx, T>(s);
    lemma_pop_consistent::<S, Idx, T>(s);
}

/// At the edges a part is empty: nothing stands left of the first position,
/// and nothing right of the last one.
pub proof fn lemma_split_at_edges<S, Idx, T>(s: S) where S: TypedBounds<Idx, T>, Idx: Countdown
    ensures
        Idx::spec_index() == 0 ==> S::SplitLeftExclusive::spec_len() == 0,
        Idx::spec_index() == <S as LastIndex>::Last::spec_index()
            ==> S::SplitRightExclusive::spec_len() == 0,
{
    s.lemma_split_shape();
    S::lemma_last();
}

/// Splitting a sequence of a single element at its only position leaves
/// nothing on either side.
pub proof fn lemma_split_single<S, Idx, T>(s: S) where S: TypedBounds<Idx, T>, Idx: Countdown
    requires
        S::spec_len() == 1,
    ensures
        Idx::spec_index() == 0,
        S::SplitLeftExclusive::spec_len() == 0,
        S::SplitRightExclusive::spec_len() == 0,
        S::PopOutput::spec_len() == 0,
{
    s.lemma_split_shape();
    lemma_pop_consistent::<S, Idx, T>(s);
}

/// The sequence of one element splits into the empty sequence, the element,
/// and the empty sequence.
pub proof fn lemma_split_single_element<T>(s: (T,))
    ensures
        s.spec_split_exclusive() == ((), s.0, ()),
        spec_split_left::<(T,), TupleIndex0, T>(s) == (s, ()),
        spec_split_right::<(T,), TupleIndex0, T>(s) == ((), s),
        spec_pop::<(T,), TupleIndex0, T>(s) == (s.0, ()),
{
}

impl<T0> TypedBounds<TupleIndex0, T0> for (T0,) {
    type PopOutput = ();

    type SplitLeftExclusive = ();

    type SplitLeftInclusive = (T0,);

    type SplitRightExclusive = ();

    type SplitRightInclusive = (T0,);

    open spec fn spec_split_exclusive(self) -> ((), T0, ()) {
        ((), self.0, ())
    }

    fn split_exclusive_at(self) -> (r: ((), T0, ())) {
        ((), self.0, ())
    }

    proof fn lemma_split_shape(self) {
    }

    proof fn lemma_split_pivot(self) {
    }

    proof fn lemma_split_prefix(self) {
    }

    proof fn lemma_split_rejoin(self) {
    }

    proof fn lemma_join_split(parts: ((), T0, ())) {
    }

    proof fn lemma_split_put(self, value: T0) {
    }
}

impl<T0, T1> TypedBounds<TupleIndex0, T0> for (T0, T1) {
    type PopOutput = (T1,);

    type SplitLeftExclusive = ();

    type SplitLeftInclusive = (T0,);

    type SplitRightExclusive = (T1,);

    type SplitRightInclusive = (T0, T1);

    open spec fn spec_split_exclusive(self) -> ((), T0, (T1,)) {
        ((), self.0, (self.1,))
    }

    fn split_exclusive_at(self) -> (r: ((), T0, (T1,))) {
        ((), self.0, (self.1,))
    }

    proof fn lemma_split_shape(self) {
    }

    proof fn lemma_split_pivot(self) {
    }

    proof fn lemma_split_prefix(self) {
    }

    proof fn lemma_split_rejoin(self) {
    }

    proof fn lemma_join_split(parts: ((), T0, (T1,))) {
    }

    proof fn lemma_split_put(self, value: T0) {
    }
}

impl<T0, T1> TypedBounds<TupleIndex1, T1> for (T0, T1) {
    type PopOutput = (T0,);

    type SplitLeftExclusive = (T0,);

    type SplitLeftInclusive = (T0, T1);

    type SplitRightExclusive = ();

    type SplitRightInclusive = (T1,);

    open spec fn spec_split_exclusive(self) -> ((T0,), T1, ()) {
        ((self.0,), self.1, ())
    }

    fn split_exclusive_at(self) -> (r: ((T0,), T1, ())) {
        ((self.0,), self.1, ())
    }

    proof fn lemma_split_shape(self) {
    }

    proof fn lemma_split_pivot(self) {
    }

    proof fn lemma_split_prefix(self) {
    }

    proof fn lemma_split_rejoin(self) {
    }

    proof fn lemma_join_split(parts: ((T0,), T1, ())) {
    }

    proof fn lemma_split_put(self, value: T1) {
    }
}

impl<T0, T1, T2> TypedBounds<TupleIndex0, T0> for (T0, T1, T2) {
    type PopOutput = (T1, T2);

    type SplitLeftExclusive = ();

    type SplitLeftInclusive = (T0,);

    type SplitRightExclusive = (T1, T2);

    type SplitRightInclusive = (T0, T1, T2);

    open spec fn spec_split_exclusive(self) -> ((), T0, (T1, T2)) {
        ((), self.0, (self.1, self.2))
    }

    fn split_exclusive_at(self) -> (r: ((), T0, (T1, T2))) {
        ((), self.0, (self.1, self.2))
    }

    proof fn lemma_split_shape(self) {
    }

    proof fn lemma_split_pivot(self) {
    }

    proof fn lemma_split_prefix(self) {
    }

    proof fn lemma_split_rejoin(self) {
    }

    proof fn lemma_join_split(parts: ((), T0, (T1, T2))) {
    }

    proof fn lemma_split_put(self, value: T0) {
    }
}

impl<T0, T1, T2> TypedBounds<TupleIndex1, T1> for (T0, T1, T2) {
    type PopOutput = (T0, T2);

    type SplitLeftExclusive = (T0,);

    type SplitLeftInclusive = (T0, T1);

    type SplitRightExclusive = (T2,);

    type SplitRightInclusive = (T1, T2);

    open spec fn spec_split_exclusive(self) -> ((T0,), T1, (T2,)) {
        ((self.0,), self.1, (self.2,))
    }

    fn split_exclusive_at(self) -> (r: ((T0,), T1, (T2,))) {
        ((self.0,), self.1, (self.2,))
    }

    proof fn lemma_split_shape(self) {
    }

    proof fn lemma_split_pivot(self) {
    }

    proof fn lemma_split_prefix(self) {
    }

    proof fn lemma_split_rejoin(self) {
    }

    proof fn lemma_join_split(parts: ((T0,), T1, (T2,))) {
    }

    proof fn lemma_split_put(self, value: T1) {
    }
}

impl<T0, T1, T2> TypedBounds<TupleIndex2, T2> for (T0, T1, T2) {
    type PopOutput = (T0, T1);

    type SplitLeftExclusive = (T0, T1);

    type SplitLeftInclusive = (T0, T1, T2);

    type SplitRightExclusive = ();

    type SplitRightInclusive = (T2,);

    open spec fn spec_split_exclusive(self) -> ((T0, T1), T2, ()) {
        ((self.0, self.1), self.2, ())
    }

    fn split_exclusive_at(self) -> (r: ((T0, T1), T2, ())) {
        ((self.0, self.1), self.2, ())
    }

    proof fn lemma_split_shape(self) {
    }

    proof fn lemma_split_pivot(self) {
    }

    proof fn lemma_split_prefix(self) {
    }

    proof fn lemma_split_rejoin(self) {
    }

    proof fn lemma_join_split(parts: ((T0, T1), T2, ())) {
    }

    proof fn lemma_split_put(self, value: T2) {
    }
}

impl<T0, T1, T2, T3> TypedBounds<TupleIndex0, T0> for (T0, T1, T2, T3) {
    type PopOutput = (T1, T2, T3);

    type SplitLeftExclusive = ();

    type SplitLeftInclusive = (T0,);

    type SplitRightExclusive = (T1, T2, T3);

    type SplitRightInclusive = (T0, T1, T2, T3);

    open spec fn spec_split_exclusive(self) -> ((), T0, (T1, T2, T3)) {
        ((), self.0, (self.1, self.2, self.3))
    }

    fn split_exclusive_at(self) -> (r: ((), T0, (T1, T2, T3))) {
        ((), self.0, (self.1, self.2, self.3))
    }

    proof fn lemma_split_shape(self) {
    }

    proof fn lemma_split_pivot(self) {
    }

    proof fn lemma_split_prefix(self) {
    }

    proof fn lemma_split_rejoin(self) {
    }

    proof fn lemma_join_split(parts: ((), T0, (T1, T2, T3))) {
    }

    proof fn lemma_split_put(self, value: T0) {
    }
}

impl<T0, T1, T2, T3> TypedBounds<TupleIndex1, T1> for (T0, T1, T2, T3) {
    type PopOutput = (T0, T2, T3);

    type SplitLeftExclusive = (T0,);

    type SplitLeftInclusive = (T0, T1);

    type SplitRightExclusive = (T2, T3);

    type SplitRightInclusive = (T1, T2, T3);

    open spec fn spec_split_exclusive(self) -> ((T0,), T1, (T2, T3)) {
        ((self.0,), self.1, (self.2, self.3))
    }

    fn split_exclusive_at(self) -> (r: ((T0,), T1, (T2, T3))) {
        ((self.0,), self.1, (self.2, self.3))
    }

    proof fn lemma_split_shape(self) {
    }

    proof fn lemma_split_pivot(self) {
    }

    proof fn lemma_split_prefix(self) {
    }

    proof fn lemma_split_rejoin(self) {
    }

    proof fn lemma_join_split(parts: ((T0,), T1, (T2, T3))) {
    }

    proof fn lemma_split_put(self, value: T1) {
    }
}

impl<T0, T1, T2, T3> TypedBounds<TupleIndex2, T2> for (T0, T1, T2, T3) {
    type PopOutput = (T0, T1, T3);

    type SplitLeftExclusive = (T0, T1);

    type SplitLeftInclusive = (T0, T1, T2);

    type SplitRightExclusive = (T3,);

    type SplitRightInclusive = (T2, T3);

    open spec fn spec_split_exclusive(self) -> ((T0, T1), T2, (T3,)) {
        ((self.0, self.1), self.2, (self.3,))
    }

    fn split_exclusive_at(self) -> (r: ((T0, T1), T2, (T3,))) {
        ((self.0, self.1), self.2, (self.3,))
    }

    proof fn lemma_split_shape(self) {
    }

    proof fn lemma_split_pivot(self) {
    }

    proof fn lemma_split_prefix(self) {
    }

    proof fn lemma_split_rejoin(self) {
    }

    proof fn lemma_join_split(parts: ((T0, T1), T2, (T3,))) {
    }

    proof fn lemma_split_put(self, value: T2) {
    }
}

impl<T0, T1, T2, T3> TypedBounds<TupleIndex3, T3> for (T0, T1, T2, T3) {
    type PopOutput = (T0, T1, T2);

    type SplitLeftExclusive = (T0, T1, T2);

    type SplitLeftInclusive = (T0, T1, T2, T3);

    type SplitRightExclusive = ();

    type SplitRightInclusive = (T3,);

    open spec fn spec_split_exclusive(self) -> ((T0, T1, T2), T3, ()) {
        ((self.0, self.1, self.2), self.3, ())
    }

    fn split_exclusive_at(self) -> (r: ((T0, T1, T2), T3, ())) {
        ((self.0, self.1, self.2), self.3, ())
    }

    proof fn lemma_split_shape(self) {
    }

    proof fn lemma_split_pivot(self) {
    }

    proof fn lemma_split_prefix(self) {
    }

    proof fn lemma_split_rejoin(self) {
    }

    proof fn lemma_join_split(parts: ((T0, T1, T2), T3, ())) {
    }

    proof fn lemma_split_put(self, value: T3) {
    }
}

impl<T0, T1, T2, T3, T4> TypedBounds<TupleIndex0, T0> for (T0, T1, T2, T3, T4) {
    type PopOutput = (T1, T2, T3, T4);

    type SplitLeftExclusive = ();

    type SplitLeftInclusive = (T0,);

    type SplitRightExclusive = (T1, T2, T3, T4);

    type SplitRightInclusive = (T0, T1, T2, T3, T4);

    open spec fn spec_split_exclusive(self) -> ((), T0, (T1, T2, T3, T4)) {
        ((), self.0, (self.1, self.2, self.3, self.4))
    }

    fn split_exclusive_at(self) -> (r: ((), T0, (T1, T2, T3, T4))) {
        ((), self.0, (self.1, self.2, self.3, self.4))
    }

    proof fn lemma_split_shape(self) {
    }

    proof fn lemma_split_pivot(self) {
    }

    proof fn lemma_split_prefix(self) {
    }

    proof fn lemma_split_rejoin(self) {
    }

    proof fn lemma_join_split(parts: ((), T0, (T1, T2, T3, T4))) {
    }

    proof fn lemma_split_put(self, value: T0) {
    }
}

impl<T0, T1, T2, T3, T4> TypedBounds<TupleIndex1, T1> for (T0, T1, T2, T3, T4) {
    type PopOutput = (T0, T2, T3, T4);

    type SplitLeftExclusive = (T0,);

    type SplitLeftInclusive = (T0, T1);

    type SplitRightExclusive = (T2, T3, T4);

    type SplitRightInclusive = (T1, T2, T3, T4);

    open spec fn spec_split_exclusive(self) -> ((T0,), T1, (T2, T3, T4)) {
        ((self.0,), self.1, (self.2, self.3, self.4))
    }

    fn split_exclusive_at(self) -> (r: ((T0,), T1, (T2, T3, T4))) {
        ((self.0,), self.1, (self.2, self.3, self.4))
    }

    proof fn lemma_split_shape(self) {
    }

    proof fn lemma_split_pivot(self) {
    }

    proof fn lemma_split_prefix(self) {
    }

    proof fn lemma_split_rejoin(self) {
    }

    proof fn lemma_join_split(parts: ((T0,), T1, (T2, T3, T4))) {
    }

    proof fn lemma_split_put(self, value: T1) {
    }
}

impl<T0, T1, T2, T3, T4> TypedBounds<TupleIndex2, T2> for (T0, T1, T2, T3, T4) {
    type PopOutput = (T0, T1, T3, T4);

    type SplitLeftExclusive = (T0, T1);

    type SplitLeftInclusive = (T0, T1, T2);

    type SplitRightExclusive = (T3, T4);

    type SplitRightInclusive = (T2, T3, T4);

    open spec fn spec_split_exclusive(self) -> ((T0, T1), T2, (T3, T4)) {
        ((self.0, self.1), self.2, (self.3, self.4))
    }

    fn split_exclusive_at(self) -> (r: ((T0, T1), T2, (T3, T4))) {
        ((self.0, self.1), self.2, (self.3, self.4))
    }

    proof fn lemma_split_shape(self) {
    }

    proof fn lemma_split_pivot(self) {
    }

    proof fn lemma_split_prefix(self) {
    }

    proof fn lemma_split_rejoin(self) {
    }

    proof fn lemma_join_split(parts: ((T0, T1), T2, (T3, T4))) {
    }

    proof fn lemma_split_put(self, value: T2) {
    }
}

impl<T0, T1, T2, T3, T4> TypedBounds<TupleIndex3, T3> for (T0, T1, T2, T3, T4) {
    type PopOutput = (T0, T1, T2, T4);

    type SplitLeftExclusive = (T0, T1, T2);

    type SplitLeftInclusive = (T0, T1, T2, T3);

    type SplitRightExclusive = (T4,);

    type SplitRightInclusive = (T3, T4);

    open spec fn spec_split_exclusive(self) -> ((T0, T1, T2), T3, (T4,)) {
        ((self.0, self.1, self.2), self.3, (self.4,))
    }

    fn split_exclusive_at(self) -> (r: ((T0, T1, T2), T3, (T4,))) {
        ((self.0, self.1, self.2), self.3, (self.4,))
    }

    proof fn lemma_split_shape(self) {
    }

    proof fn lemma_split_pivot(self) {
    }

    proof fn lemma_split_prefix(self) {
    }

    proof fn lemma_split_rejoin(self) {
    }

    proof fn lemma_join_split(parts: ((T0, T1, T2), T3, (T4,))) {
    }

    proof fn lemma_split_put(self, value: T3) {
    }
}

impl<T0, T1, T2, T3, T4> TypedBounds<TupleIndex4, T4> for (T0, T1, T2, T3, T4) {
    type PopOutput = (T0, T1, T2, T3);

    type SplitLeftExclusive = (T0, T1, T2, T3);

    type SplitLeftInclusive = (T0, T1, T2, T3, T4);

    type SplitRightExclusive = ();

    type SplitRightInclusive = (T4,);

    open spec fn spec_split_exclusive(self) -> ((T0, T1, T2, T3), T4, ()) {
        ((self.0, self.1, self.2, self.3), self.4, ())
    }

    fn split_exclusive_at(self) -> (r: ((T0, T1, T2, T3), T4, ())) {
        ((self.0, self.1, self.2, self.3), self.4, ())
    }

    proof fn lemma_split_shape(self) {
    }

    proof fn lemma_split_pivot(self) {
    }

    proof fn lemma_split_prefix(self) {
    }

    proof fn lemma_split_rejoin(self) {
    }

    proof fn lemma_join_split(parts: ((T0, T1, T2, T3), T4, ())) {
    }

    proof fn lemma_split_put(self, value: T4) {
    }
}

impl<T0, T1, T2, T3, T4, T5> TypedBounds<TupleIndex0, T0> for (T0, T1, T2, T3, T4, T5) {
    type PopOutput = (T1, T2, T3, T4, T5);

    type SplitLeftExclusive = ();

    type SplitLeftInclusive = (T0,);

    type SplitRightExclusive = (T1, T2, T3, T4, T5);

    type SplitRightInclusive = (T0, T1, T2, T3, T4, T5);

    open spec fn spec_split_exclusive(self) -> ((), T0, (T1, T2, T3, T4, T5)) {
        ((), self.0, (self.1, self.2, self.3, self.4, self.5))
    }

    fn split_exclusive_at(self) -> (r: ((), T0, (T1, T2, T3, T4, T5))) {
        ((), self.0, (self.1, self.2, self.3, self.4, self.5))
    }

    proof fn lemma_split_shape(self) {
    }

    proof fn lemma_split_pivot(self) {
    }

    proof fn lemma_split_prefix(self) {
    }

    proof fn lemma_split_rejoin(self) {
    }

    proof fn lemma_join_split(parts: ((), T0, (T1, T2, T3, T4, T5))) {
    }

    proof fn lemma_split_put(self, value: T0) {
    }
}

impl<T0, T1, T2, T3, T4, T5> TypedBounds<TupleIndex1, T1> for (T0, T1, T2, T3, T4, T5) {
    type PopOutput = (T0, T2, T3, T4, T5);

    type SplitLeftExclusive = (T0,);

    type SplitLeftInclusive = (T0, T1);

    type SplitRightExclusive = (T2, T3, T4, T5);

    type SplitRightInclusive = (T1, T2, T3, T4, T5);

    open spec fn spec_split_exclusive(self) -> ((T0,), T1, (T2, T3, T4, T5)) {
        ((self.0,), self.1, (self.2, self.3, self.4, self.5))
    }

    fn split_exclusive_at(self) -> (r: ((T0,), T1, (T2, T3, T4, T5))) {
        ((self.0,), self.1, (self.2, self.3, self.4, self.5))
    }

    proof fn lemma_split_shape(self) {
    }

    proof fn lemma_split_pivot(self) {
    }

    proof fn lemma_split_prefix(self) {
    }

    proof fn lemma_split_rejoin(self) {
    }

    proof fn lemma_join_split(parts: ((T0,), T1, (T2, T3, T4, T5))) {
    }

    proof fn lemma_split_put(self, value: T1) {
    }
}

impl<T0, T1, T2, T3, T4, T5> TypedBounds<TupleIndex2, T2> for (T0, T1, T2, T3, T4, T5) {
    type PopOutput = (T0, T1, T3, T4, T5);

    type SplitLeftExclusive = (T0, T1);

    type SplitLeftInclusive = (T0, T1, T2);

    type SplitRightExclusive = (T3, T4, T5);

    type SplitRightInclusive = (T2, T3, T4, T5);

    open spec fn spec_split_exclusive(self) -> ((T0, T1), T2, (T3, T4, T5)) {
        ((self.0, self.1), self.2, (self.3, self.4, self.5))
    }

    fn split_exclusive_at(self) -> (r: ((T0, T1), T2, (T3, T4, T5))) {
        ((self.0, self.1), self.2, (self.3, self.4, self.5))
    }

    proof fn lemma_split_shape(self) {
    }

    proof fn lemma_split_pivot(self) {
    }

    proof fn lemma_split_prefix(self) {
    }

    proof fn lemma_split_rejoin(self) {
    }

    proof fn lemma_join_split(parts: ((T0, T1), T2, (T3, T4, T5))) {
    }

    proof fn lemma_split_put(self, value: T2) {
    }
}

impl<T0, T1, T2, T3, T4, T5> TypedBounds<TupleIndex3, T3> for (T0, T1, T2, T3, T4, T5) {
    type PopOutput = (T0, T1, T2, T4, T5);

    type SplitLeftExclusive = (T0, T1, T2);

    type SplitLeftInclusive = (T0, T1, T2, T3);

    type SplitRightExclusive = (T4, T5);

    type SplitRightInclusive = (T3, T4, T5);

    open spec fn spec_split_exclusive(self) -> ((T0, T1, T2), T3, (T4, T5)) {
        ((self.0, self.1, self.2), self.3, (self.4, self.5))
    }

    fn split_exclusive_at(self) -> (r: ((T0, T1, T2), T3, (T4, T5))) {
        ((self.0, self.1, self.2), self.3, (self.4, self.5))
    }

    proof fn lemma_split_shape(self) {
    }

    proof fn lemma_split_pivot(self) {
    }

    proof fn lemma_split_prefix(self) {
    }

    proof fn lemma_split_rejoin(self) {
    }

    proof fn lemma_join_split(parts: ((T0, T1, T2), T3, (T4, T5))) {
    }

    proof fn lemma_split_put(self, value: T3) {
    }
}

impl<T0, T1, T2, T3, T4, T5> TypedBounds<TupleIndex4, T4> for (T0, T1, T2, T3, T4, T5) {
    type PopOutput = (T0, T1, T2, T3, T5);

    type SplitLeftExclusive = (T0, T1, T2, T3);

    type SplitLeftInclusive = (T0, T1, T2, T3, T4);

    type SplitRightExclusive = (T5,);

    type SplitRightInclusive = (T4, T5);

    open spec fn spec_split_exclusive(self) -> ((T0, T1, T2, T3), T4, (T5,)) {
        ((self.0, self.1, self.2, self.3), self.4, (self.5,))
    }

    fn split_exclusive_at(self) -> (r: ((T0, T1, T2, T3), T4, (T5,))) {
        ((self.0, self.1, self.2, self.3), self.4, (self.5,))
    }

    proof fn lemma_split_shape(self) {
    }

    proof fn lemma_split_pivot(self) {
    }

    proof fn lemma_split_prefix(self) {
    }

    proof fn lemma_split_rejoin(self) {
    }

    proof fn lemma_join_split(parts: ((T0, T1, T2, T3), T4, (T5,))) {
    }

    proof fn lemma_split_put(self, value: T4) {
    }
}

impl<T0, T1, T2, T3, T4, T5> TypedBounds<TupleIndex5, T5> for (T0, T1, T2, T3, T4, T5) {
    type PopOutput = (T0, T1, T2, T3, T4);

    type SplitLeftExclusive = (T0, T1, T2, T3, T4);

    type SplitLeftInclusive = (T0, T1, T2, T3, T4, T5);

    type SplitRightExclusive = ();

    type SplitRightInclusive = (T5,);

    open spec fn spec_split_exclusive(self) -> ((T0, T1, T2, T3, T4), T5, ()) {
        ((self.0, self.1, self.2, self.3, self.4), self.5, ())
    }

    fn split_exclusive_at(self) -> (r: ((T0, T1, T2, T3, T4), T5, ())) {
        ((self.0, self.1, self.2, self.3, self.4), self.5, ())
    }

    proof fn lemma_split_shape(self) {
    }

    proof fn lemma_split_pivot(self) {
    }

    proof fn lemma_split_prefix(self) {
    }

    proof fn lemma_split_rejoin(self) {
    }

    proof fn lemma_join_split(parts: ((T0, T1, T2, T3, T4), T5, ())) {
    }

    proof fn lemma_split_put(self, value: T5) {
    }
}

impl<T0, T1, T2, T3, T4, T5, T6> TypedBounds<TupleIndex0, T0> for (T0, T1, T2, T3, T4, T5, T6) {
    type PopOutput = (T1, T2, T3, T4, T5, T6);

    type SplitLeftExclusive = ();

    type SplitLeftInclusive = (T0,);

    type SplitRightExclusive = (T1, T2, T3, T4, T5, T6);

    type SplitRightInclusive = (T0, T1, T2, T3, T4, T5, T6);

    open spec fn spec_split_exclusive(self) -> ((), T0, (T1, T2, T3, T4, T5, T6)) {
        ((), self.0, (self.1, self.2, self.3, self.4, self.5, self.6))
    }

    fn split_exclusive_at(self) -> (r: ((), T0, (T1, T2, T3, T4, T5, T6))) {
        ((), self.0, (self.1, self.2, self.3, self.4, self.5, self.6))
    }

    proof fn lemma_split_shape(self) {
    }

    proof fn lemma_split_pivot(self) {
    }

    proof fn lemma_split_prefix(self) {
    }

    proof fn lemma_split_rejoin(self) {
    }

    proof fn lemma_join_split(parts: ((), T0, (T1, T2, T3, T4, T5, T6))) {
    }

    proof fn lemma_split_put(self, value: T0) {
    }
}

impl<T0, T1, T2, T3, T4, T5, T6> TypedBounds<TupleIndex1, T1> for (T0, T1, T2, T3, T4, T5, T6) {
    type PopOutput = (T0, T2, T3, T4, T5, T6);

    type SplitLeftExclusive = (T0,);

    type SplitLeftInclusive = (T0, T1);

    type SplitRightExclusive = (T2, T3, T4, T5, T6);

    type SplitRightInclusive = (T1, T2, T3, T4, T5, T6);

    open spec fn spec_split_exclusive(self) -> ((T0,), T1, (T2, T3, T4, T5, T6)) {
        ((self.0,), self.1, (self.2, self.3, self.4, self.5, self.6))
    }

    fn split_exclusive_at(self) -> (r: ((T0,), T1, (T2, T3, T4, T5, T6))) {
        ((self.0,), self.1, (self.2, self.3, self.4, self.5, self.6))
    }

    proof fn lemma_split_shape(self) {
    }

    proof fn lemma_split_pivot(self) {
    }

    proof fn lemma_split_prefix(self) {
    }

    proof fn lemma_split_rejoin(self) {
    }

    proof fn lemma_join_split(parts: ((T0,), T1, (T2, T3, T4, T5, T6))) {
    }

    proof fn lemma_split_put(self, value: T1) {
    }
}

impl<T0, T1, T2, T3, T4, T5, T6> TypedBounds<TupleIndex2, T2> for (T0, T1, T2, T3, T4, T5, T6) {
    type PopOutput = (T0, T1, T3, T4, T5, T6);

    type SplitLeftExclusive = (T0, T1);

    type SplitLeftInclusive = (T0, T1, T2);

    type SplitRightExclusive = (T3, T4, T5, T6);

    type SplitRightInclusive = (T2, T3, T4, T5, T6);

    open spec fn spec_split_exclusive(self) -> ((T0, T1), T2, (T3, T4, T5, T6)) {
        ((self.0, self.1), self.2, (self.3, self.4, self.5, self.6))
    }

    fn split_exclusive_at(self) -> (r: ((T0, T1), T2, (T3, T4, T5, T6))) {
        ((self.0, self.1), self.2, (self.3, self.4, self.5, self.6))
    }

    proof fn lemma_split_shape(self) {
    }

    proof fn lemma_split_pivot(self) {
    }

    proof fn lemma_split_prefix(self) {
    }

    proof fn lemma_split_rejoin(self) {
    }

    proof fn lemma_join_split(parts: ((T0, T1), T2, (T3, T4, T5, T6))) {
    }

    proof fn lemma_split_put(self, value: T2) {
    }
}

impl<T0, T1, T2, T3, T4, T5, T6> TypedBounds<TupleIndex3, T3> for (T0, T1, T2, T3, T4, T5, T6) {
    type PopOutput = (T0, T1, T2, T4, T5, T6);

    type SplitLeftExclusive = (T0, T1, T2);

    type SplitLeftInclusive = (T0, T1, T2, T3);

    type SplitRightExclusive = (T4, T5, T6);

    type SplitRightInclusive = (T3, T4, T5, T6);

    open spec fn spec_split_exclusive(self) -> ((T0, T1, T2), T3, (T4, T5, T6)) {
        ((self.0, self.1, self.2), self.3, (self.4, self.5, self.6))
    }

    fn split_exclusive_at(self) -> (r: ((T0, T1, T2), T3, (T4, T5, T6))) {
        ((self.0, self.1, self.2), self.3, (self.4, self.5, self.6))
    }

    proof fn lemma_split_shape(self) {
    }

    proof fn lemma_split_pivot(self) {
    }

    proof fn lemma_split_prefix(self) {
    }

    proof fn lemma_split_rejoin(self) {
    }

    proof fn lemma_join_split(parts: ((T0, T1, T2), T3, (T4, T5, T6))) {
    }

    proof fn lemma_split_put(self, value: T3) {
    }
}

impl<T0, T1, T2, T3, T4, T5, T6> TypedBounds<TupleIndex4, T4> for (T0, T1, T2, T3, T4, T5, T6) {
    type PopOutput = (T0, T1, T2, T3, T5, T6);

    type SplitLeftExclusive = (T0, T1, T2, T3);

    type SplitLeftInclusive = (T0, T1, T2, T3, T4);

    type SplitRightExclusive = (T5, T6);

    type SplitRightInclusive = (T4, T5, T6);

    open spec fn spec_split_exclusive(self) -> ((T0, T1, T2, T3), T4, (T5, T6)) {
        ((self.0, self.1, self.2, self.3), self.4, (self.5, self.6))
    }

    fn split_exclusive_at(self) -> (r: ((T0, T1, T2, T3), T4, (T5, T6))) {
        ((self.0, self.1, self.2, self.3), self.4, (self.5, self.6))
    }

    proof fn lemma_split_shape(self) {
    }

    proof fn lemma_split_pivot(self) {
    }

    proof fn lemma_split_prefix(self) {
    }

    proof fn lemma_split_rejoin(self) {
    }

    proof fn lemma_join_split(parts: ((T0, T1, T2, T3), T4, (T5, T6))) {
    }

    proof fn lemma_split_put(self, value: T4) {
    }
}

impl<T0, T1, T2, T3, T4, T5, T6> TypedBounds<TupleIndex5, T5> for (T0, T1, T2, T3, T4, T5, T6) {
    type PopOutput = (T0, T1, T2, T3, T4, T6);

    type SplitLeftExclusive = (T0, T1, T2, T3, T4);

    type SplitLeftInclusive = (T0, T1, T2, T3, T4, T5);

    type SplitRightExclusive = (T6,);

    type SplitRightInclusive = (T5, T6);

    open spec fn spec_split_exclusive(self) -> ((T0, T1, T2, T3, T4), T5, (T6,)) {
        ((self.0, self.1, self.2, self.3, self.4), self.5, (self.6,))
    }

    fn split_exclusive_at(self) -> (r: ((T0, T1, T2, T3, T4), T5, (T6,))) {
        ((self.0, self.1, self.2, self.3, self.4), self.5, (self.6,))
    }

    proof fn lemma_split_shape(self) {
    }

    proof fn lemma_split_pivot(self) {
    }

    proof fn lemma_split_prefix(self) {
    }

    proof fn lemma_split_rejoin(self) {
    }

    proof fn lemma_join_split(parts: ((T0, T1, T2, T3, T4), T5, (T6,))) {
    }

    proof fn lemma_split_put(self, value: T5) {
    }
}

impl<T0, T1, T2, T3, T4, T5, T6> TypedBounds<TupleIndex6, T6> for (T0, T1, T2, T3, T4, T5, T6) {
    type PopOutput = (T0, T1, T2, T3, T4, T5);

    type SplitLeftExclusive = (T0, T1, T2, T3, T4, T5);

    type SplitLeftInclusive = (T0, T1, T2, T3, T4, T5, T6);

    type SplitRightExclusive = ();

    type SplitRightInclusive = (T6,);

    open spec fn spec_split_exclusive(self) -> ((T0, T1, T2, T3, T4, T5), T6, ()) {
        ((self.0, self.1, self.2, self.3, self.4, self.5), self.6, ())
    }

    fn split_exclusive_at(self) -> (r: ((T0, T1, T2, T3, T4, T5), T6, ())) {
        ((self.0, self.1, self.2, self.3, self.4, self.5), self.6, ())
    }

    proof fn lemma_split_shape(self) {
    }

    proof fn lemma_split_pivot(self) {
    }

    proof fn lemma_split_prefix(self) {
    }

    proof fn lemma_split_rejoin(self) {
    }

    proof fn lemma_join_split(parts: ((T0, T1, T2, T3, T4, T5), T6, ())) {
    }

    proof fn lemma_split_put(self, value: T6) {
    }
}

impl<T0, T1, T2, T3, T4, T5, T6, T7> TypedBounds<TupleIndex0, T0>
    for (T0, T1, T2, T3, T4, T5, T6, T7)
{
    type PopOutput = (T1, T2, T3, T4, T5, T6, T7);

    type SplitLeftExclusive = ();

    type SplitLeftInclusive = (T0,);

    type SplitRightExclusive = (T1, T2, T3, T4, T5, T6, T7);

    type SplitRightInclusive = (T0, T1, T2, T3, T4, T5, T6, T7);

    open spec fn spec_split_exclusive(self) -> ((), T0, (T1, T2, T3, T4, T5, T6, T7)) {
        ((), self.0, (self.1, self.2, self.3, self.4, self.5, self.6, self.7))
    }

    fn split_exclusive_at(self) -> (r: ((), T0, (T1, T2, T3, T4, T5, T6, T7))) {
        ((), self.0, (self.1, self.2, self.3, self.4, self.5, self.6, self.7))
    }

    proof fn lemma_split_shape(self) {
    }

    proof fn lemma_split_pivot(self) {
    }

    proof fn lemma_split_prefix(self) {
    }

    proof fn lemma_split_rejoin(self) {
    }

    proof fn lemma_join_split(parts: ((), T0, (T1, T2, T3, T4, T5, T6, T7))) {
    }

    proof fn lemma_split_put(self, value: T0) {
    }
}

impl<T0, T1, T2, T3, T4, T5, T6, T7> TypedBounds<TupleIndex1, T1>
    for (T0, T1, T2, T3, T4, T5, T6, T7)
{
    type PopOutput = (T0, T2, T3, T4, T5, T6, T7);

    type SplitLeftExclusive = (T0,);

    type SplitLeftInclusive = (T0, T1);

    type SplitRightExclusive = (T2, T3, T4, T5, T6, T7);

    type SplitRightInclusive = (T1, T2, T3, T4, T5, T6, T7);

    open spec fn spec_split_exclusive(self) -> ((T0,), T1, (T2, T3, T4, T5, T6, T7)) {
        ((self.0,), self.1, (self.2, self.3, self.4, self.5, self.6, self.7))
    }

    fn split_exclusive_at(self) -> (r: ((T0,), T1, (T2, T3, T4, T5, T6, T7))) {
        ((self.0,), self.1, (self.2, self.3, self.4, self.5, self.6, self.7))
    }

    proof fn lemma_split_shape(self) {
    }

    proof fn lemma_split_pivot(self) {
    }

    proof fn lemma_split_prefix(self) {
    }

    proof fn lemma_split_rejoin(self) {
    }

    proof fn lemma_join_split(parts: ((T0,), T1, (T2, T3, T4, T5, T6, T7))) {
    }

    proof fn lemma_split_put(self, value: T1) {
    }
}

impl<T0, T1, T2, T3, T4, T5, T6, T7> TypedBounds<TupleIndex2, T2>
    for (T0, T1, T2, T3, T4, T5, T6, T7)
{
    type PopOutput = (T0, T1, T3, T4, T5, T6, T7);

    type SplitLeftExclusive = (T0, T1);

    type SplitLeftInclusive = (T0, T1, T2);

    type SplitRightExclusive = (T3, T4, T5, T6, T7);

    type SplitRightInclusive = (T2, T3, T4, T5, T6, T7);

    open spec fn spec_split_exclusive(self) -> ((T0, T1), T2, (T3, T4, T5, T6, T7)) {
        ((self.0, self.1), self.2, (self.3, self.4, self.5, self.6, self.7))
    }

    fn split_exclusive_at(self) -> (r: ((T0, T1), T2, (T3, T4, T5, T6, T7))) {
        ((self.0, self.1), self.2, (self.3, self.4, self.5, self.6, self.7))
    }

    proof fn lemma_split_shape(self) {
    }

    proof fn lemma_split_pivot(self) {
    }

    proof fn lemma_split_prefix(self) {
    }

    proof fn lemma_split_rejoin(self) {
    }

    proof fn lemma_join_split(parts: ((T0, T1), T2, (T3, T4, T5, T6, T7))) {
    }

    proof fn lemma_split_put(self, value: T2) {
    }
}

impl<T0, T1, T2, T3, T4, T5, T6, T7> TypedBounds<TupleIndex3, T3>
    for (T0, T1, T2, T3, T4, T5, T6, T7)
{
    type PopOutput = (T0, T1, T2, T4, T5, T6, T7);

    type SplitLeftExclusive = (T0, T1, T2);

    type SplitLeftInclusive = (T0, T1, T2, T3);

    type SplitRightExclusive = (T4, T5, T6, T7);

    type SplitRightInclusive = (T3, T4, T5, T6, T7);

    open spec fn spec_split_exclusive(self) -> ((T0, T1, T2), T3, (T4, T5, T6, T7)) {
        ((self.0, self.1, self.2), self.3, (self.4, self.5, self.6, self.7))
    }

    fn split_exclusive_at(self) -> (r: ((T0, T1, T2), T3, (T4, T5, T6, T7))) {
        ((self.0, self.1, self.2), self.3, (self.4, self.5, self.6, self.7))
    }

    proof fn lemma_split_shape(self) {
    }

    proof fn lemma_split_pivot(self) {
    }

    proof fn lemma_split_prefix(self) {
    }

    proof fn lemma_split_rejoin(self) {
    }

    proof fn lemma_join_split(parts: ((T0, T1, T2), T3, (T4, T5, T6, T7))) {
    }

    proof fn lemma_split_put(self, value: T3) {
    }
}

impl<T0, T1, T2, T3, T4, T5, T6, T7> TypedBounds<TupleIndex4, T4>
    for (T0, T1, T2, T3, T4, T5, T6, T7)
{
    type PopOutput = (T0, T1, T2, T3, T5, T6, T7);

    type SplitLeftExclusive = (T0, T1, T2, T3);

    type SplitLeftInclusive = (T0, T1, T2, T3, T4);

    type SplitRightExclusive = (T5, T6, T7);

    type SplitRightInclusive = (T4, T5, T6, T7);

    open spec fn spec_split_exclusive(self) -> ((T0, T1, T2, T3), T4, (T5, T6, T7)) {
        ((self.0, self.1, self.2, self.3), self.4, (self.5, self.6, self.7))
    }

    fn split_exclusive_at(self) -> (r: ((T0, T1, T2, T3), T4, (T5, T6, T7))) {
        ((self.0, self.1, self.2, self.3), self.4, (self.5, self.6, self.7))
    }

    proof fn lemma_split_shape(self) {
    }

    proof fn lemma_split_pivot(self) {
    }

    proof fn lemma_split_prefix(self) {
    }

    proof fn lemma_split_rejoin(self) {
    }

    proof fn lemma_join_split(parts: ((T0, T1, T2, T3), T4, (T5, T6, T7))) {
    }

    proof fn lemma_split_put(self, value: T4) {
    }
}

impl<T0, T1, T2, T3, T4, T5, T6, T7> TypedBounds<TupleIndex5, T5>
    for (T0, T1, T2, T3, T4, T5, T6, T7)
{
    type PopOutput = (T0, T1, T2, T3, T4, T6, T7);

    type SplitLeftExclusive = (T0, T1, T2, T3, T4);

    type SplitLeftInclusive = (T0, T1, T2, T3, T4, T5);

    type SplitRightExclusive = (T6, T7);

    type SplitRightInclusive = (T5, T6, T7);

    open spec fn spec_split_exclusive(self) -> ((T0, T1, T2, T3, T4), T5, (T6, T7)) {
        ((self.0, self.1, self.2, self.3, self.4), self.5, (self.6, self.7))
    }

    fn split_exclusive_at(self) -> (r: ((T0, T1, T2, T3, T4), T5, (T6, T7))) {
        ((self.0, self.1, self.2, self.3, self.4), self.5, (self.6, self.7))
    }

    proof fn lemma_split_shape(self) {
    }

    proof fn lemma_split_pivot(self) {
    }

    proof fn lemma_split_prefix(self) {
    }

    proof fn lemma_split_rejoin(self) {
    }

    proof fn lemma_join_split(parts: ((T0, T1, T2, T3, T4), T5, (T6, T7))) {
    }

    proof fn lemma_split_put(self, value: T5) {
    }
}

impl<T0, T1, T2, T3, T4, T5, T6, T7> TypedBounds<TupleIndex6, T6>
    for (T0, T1, T2, T3, T4, T5, T6, T7)
{
    type PopOutput = (T0, T1, T2, T3, T4, T5, T7);

    type SplitLeftExclusive = (T0, T1, T2, T3, T4, T5);

    type SplitLeftInclusive = (T0, T1, T2, T3, T4, T5, T6);

    type SplitRightExclusive = (T7,);

    type SplitRightInclusive = (T6, T7);

    open spec fn spec_split_exclusive(self) -> ((T0, T1, T2, T3, T4, T5), T6, (T7,)) {
        ((self.0, self.1, self.2, self.3, self.4, self.5), self.6, (self.7,))
    }

    fn split_exclusive_at(self) -> (r: ((T0, T1, T2, T3, T4, T5), T6, (T7,))) {
        ((self.0, self.1, self.2, self.3, self.4, self.5), self.6, (self.7,))
    }

    proof fn lemma_split_shape(self) {
    }

    proof fn lemma_split_pivot(self) {
    }

    proof fn lemma_split_prefix(self) {
    }

    proof fn lemma_split_rejoin(self) {
    }

    proof fn lemma_join_split(parts: ((T0, T1, T2, T3, T4, T5), T6, (T7,))) {
    }

    proof fn lemma_split_put(self, value: T6) {
    }
}

impl<T0, T1, T2, T3, T4, T5, T6, T7> TypedBounds<TupleIndex7, T7>
    for (T0, T1, T2, T3, T4, T5, T6, T7)
{
    type PopOutput = (T0, T1, T2, T3, T4, T5, T6);

    type SplitLeftExclusive = (T0, T1, T2, T3, T4, T5, T6);

    type SplitLeftInclusive = (T0, T1, T2, T3, T4, T5, T6, T7);

    type SplitRightExclusive = ();

    type SplitRightInclusive = (T7,);

    open spec fn spec_split_exclusive(self) -> ((T0, T1, T2, T3, T4, T5, T6), T7, ()) {
        ((self.0, self.1, self.2, self.3, self.4, self.5, self.6), self.7, ())
    }

    fn split_exclusive_at(self) -> (r: ((T0, T1, T2, T3, T4, T5, T6), T7, ())) {
        ((self.0, self.1, self.2, self.3, self.4, self.5, self.6), self.7, ())
    }

    proof fn lemma_split_shape(self) {
    }

    proof fn lemma_split_pivot(self) {
    }

    proof fn lemma_split_prefix(self) {
    }

    proof fn lemma_split_rejoin(self) {
    }

    proof fn lemma_join_split(parts: ((T0, T1, T2, T3, T4, T5, T6), T7, ())) {
    }

    proof fn lemma_split_put(self, value: T7) {
    }
}

impl<T0, T1, T2, T3, T4, T5, T6, T7, T8> TypedBounds<TupleIndex0, T0>
    for (T0, T1, T2, T3, T4, T5, T6, T7, T8)
{
    type PopOutput = (T1, T2, T3, T4, T5, T6, T7, T8);

    type SplitLeftExclusive = ();

    type SplitLeftInclusive = (T0,);

    type SplitRightExclusive = (T1, T2, T3, T4, T5, T6, T7, T8);

    type SplitRightInclusive = (T0, T1, T2, T3, T4, T5, T6, T7, T8);

    open spec fn spec_split_exclusive(self) -> ((), T0, (T1, T2, T3, T4, T5, T6, T7, T8)) {
        ((), self.0, (self.1, self.2, self.3, self.4, self.5, self.6, self.7, self.8))
    }

    fn split_exclusive_at(self) -> (r: ((), T0, (T1, T2, T3, T4, T5, T6, T7, T8))) {
        ((), self.0, (self.1, self.2, self.3, self.4, self.5, self.6, self.7, self.8))
    }

    proof fn lemma_split_shape(self) {
    }

    proof fn lemma_split_pivot(self) {
    }

    proof fn lemma_split_prefix(self) {
    }

    proof fn lemma_split_rejoin(self) {
    }

    proof fn lemma_join_split(parts: ((), T0, (T1, T2, T3, T4, T5, T6, T7, T8))) {
    }

    proof fn lemma_split_put(self, value: T0) {
    }
}

impl<T0, T1, T2, T3, T4, T5, T6, T7, T8> TypedBounds<TupleIndex1, T1>
    for (T0, T1, T2, T3, T4, T5, T6, T7, T8)
{
    type PopOutput = (T0, T2, T3, T4, T5, T6, T7, T8);

    type SplitLeftExclusive = (T0,);

    type SplitLeftInclusive = (T0, T1);

    type SplitRightExclusive = (T2, T3, T4, T5, T6, T7, T8);

    type SplitRightInclusive = (T1, T2, T3, T4, T5, T6, T7, T8);

    open spec fn spec_split_exclusive(self) -> ((T0,), T1, (T2, T3, T4, T5, T6, T7, T8)) {
        ((self.0,), self.1, (self.2, self.3, self.4, self.5, self.6, self.7, self.8))
    }

    fn split_exclusive_at(self) -> (r: ((T0,), T1, (T2, T3, T4, T5, T6, T7, T8))) {
        ((self.0,), self.1, (self.2, self.3, self.4, self.5, self.6, self.7, self.8))
    }

    proof fn lemma_split_shape(self) {
    }

    proof fn lemma_split_pivot(self) {
    }

    proof fn lemma_split_prefix(self) {
    }

    proof fn lemma_split_rejoin(self) {
    }

    proof fn lemma_join_split(parts: ((T0,), T1, (T2, T3, T4, T5, T6, T7, T8))) {
    }

    proof fn lemma_split_put(self, value: T1) {
    }
}

impl<T0, T1, T2, T3, T4, T5, T6, T7, T8> TypedBounds<TupleIndex2, T2>
    for (T0, T1, T2, T3, T4, T5, T6, T7, T8)
{
    type PopOutput = (T0, T1, T3, T4, T5, T6, T7, T8);

    type SplitLeftExclusive = (T0, T1);

    type SplitLeftInclusive = (T0, T1, T2);

    type SplitRightExclusive = (T3, T4, T5, T6, T7, T8);

    type SplitRightInclusive = (T2, T3, T4, T5, T6, T7, T8);

    open spec fn spec_split_exclusive(self) -> ((T0, T1), T2, (T3, T4, T5, T6, T7, T8)) {
        ((self.0, self.1), self.2, (self.3, self.4, self.5, self.6, self.7, self.8))
    }

    fn split_exclusive_at(self) -> (r: ((T0, T1), T2, (T3, T4, T5, T6, T7, T8))) {
        ((self.0, self.1), self.2, (self.3, self.4, self.5, self.6, self.7, self.8))
    }

    proof fn lemma_split_shape(self) {
    }

    proof fn lemma_split_pivot(self) {
    }

    proof fn lemma_split_prefix(self) {
    }

    proof fn lemma_split_rejoin(self) {
    }

    proof fn lemma_join_split(parts: ((T0, T1), T2, (T3, T4, T5, T6, T7, T8))) {
    }

    proof fn lemma_split_put(self, value: T2) {
    }
}

impl<T0, T1, T2, T3, T4, T5, T6, T7, T8> TypedBounds<TupleIndex3, T3>
    for (T0, T1, T2, T3, T4, T5, T6, T7, T8)
{
    type PopOutput = (T0, T1, T2, T4, T5, T6, T7, T8);

    type SplitLeftExclusive = (T0, T1, T2);

    type SplitLeftInclusive = (T0, T1, T2, T3);

    type SplitRightExclusive = (T4, T5, T6, T7, T8);

    type SplitRightInclusive = (T3, T4, T5, T6, T7, T8);

    open spec fn spec_split_exclusive(self) -> ((T0, T1, T2), T3, (T4, T5, T6, T7, T8)) {
        ((self.0, self.1, self.2), self.3, (self.4, self.5, self.6, self.7, self.8))
    }

    fn split_exclusive_at(self) -> (r: ((T0, T1, T2), T3, (T4, T5, T6, T7, T8))) {
        ((self.0, self.1, self.2), self.3, (self.4, self.5, self.6, self.7, self.8))
    }

    proof fn lemma_split_shape(self) {
    }

    proof fn lemma_split_pivot(self) {
    }

    proof fn lemma_split_prefix(self) {
    }

    proof fn lemma_split_rejoin(self) {
    }

    proof fn lemma_join_split(parts: ((T0, T1, T2), T3, (T4, T5, T6, T7, T8))) {
    }

    proof fn lemma_split_put(self, value: T3) {
    }
}

impl<T0, T1, T2, T3, T4, T5, T6, T7, T8> TypedBounds<TupleIndex4, T4>
    for (T0, T1, T2, T3, T4, T5, T6, T7, T8)
{
    type PopOutput = (T0, T1, T2, T3, T5, T6, T7, T8);

    type SplitLeftExclusive = (T0, T1, T2, T3);

    type SplitLeftInclusive = (T0, T1, T2, T3, T4);

    type SplitRightExclusive = (T5, T6, T7, T8);

    type SplitRightInclusive = (T4, T5, T6, T7, T8);

    open spec fn spec_split_exclusive(self) -> ((T0, T1, T2, T3), T4, (T5, T6, T7, T8)) {
        ((self.0, self.1, self.2, self.3), self.4, (self.5, self.6, self.7, self.8))
    }

    fn split_exclusive_at(self) -> (r: ((T0, T1, T2, T3), T4, (T5, T6, T7, T8))) {
        ((self.0, self.1, self.2, self.3), self.4, (self.5, self.6, self.7, self.8))
    }

    proof fn lemma_split_shape(self) {
    }

    proof fn lemma_split_pivot(self) {
    }

    proof fn lemma_split_prefix(self) {
    }

    proof fn lemma_split_rejoin(self) {
    }

    proof fn lemma_join_split(parts: ((T0, T1, T2, T3), T4, (T5, T6, T7, T8))) {
    }

    proof fn lemma_split_put(self, value: T4) {
    }
}

impl<T0, T1, T2, T3, T4, T5, T6, T7, T8> TypedBounds<TupleIndex5, T5>
    for (T0, T1, T2, T3, T4, T5, T6, T7, T8)
{
    type PopOutput = (T0, T1, T2, T3, T4, T6, T7, T8);

    type SplitLeftExclusive = (T0, T1, T2, T3, T4);

    type SplitLeftInclusive = (T0, T1, T2, T3, T4, T5);

    type SplitRightExclusive = (T6, T7, T8);

    type SplitRightInclusive = (T5, T6, T7, T8);

    open spec fn spec_split_exclusive(self) -> ((T0, T1, T2, T3, T4), T5, (T6, T7, T8)) {
        ((self.0, self.1, self.2, self.3, self.4), self.5, (self.6, self.7, self.8))
    }

    fn split_exclusive_at(self) -> (r: ((T0, T1, T2, T3, T4), T5, (T6, T7, T8))) {
        ((self.0, self.1, self.2, self.3, self.4), self.5, (self.6, self.7, self.8))
    }

    proof fn lemma_split_shape(self) {
    }

    proof fn lemma_split_pivot(self) {
    }

    proof fn lemma_split_prefix(self) {
    }

    proof fn lemma_split_rejoin(self) {
    }

    proof fn lemma_join_split(parts: ((T0, T1, T2, T3, T4), T5, (T6, T7, T8))) {
    }

    proof fn lemma_split_put(self, value: T5) {
    }
}

impl<T0, T1, T2, T3, T4, T5, T6, T7, T8> TypedBounds<TupleIndex6, T6>
    for (T0, T1, T2, T3, T4, T5, T6, T7, T8)
{
    type PopOutput = (T0, T1, T2, T3, T4, T5, T7, T8);

    type SplitLeftExclusive = (T0, T1, T2, T3, T4, T5);

    type SplitLeftInclusive = (T0, T1, T2, T3, T4, T5, T6);

    type SplitRightExclusive = (T7, T8);

    type SplitRightInclusive = (T6, T7, T8);

    open spec fn spec_split_exclusive(self) -> ((T0, T1, T2, T3, T4, T5), T6, (T7, T8)) {
        ((self.0, self.1, self.2, self.3, self.4, self.5), self.6, (self.7, self.8))
    }

    fn split_exclusive_at(self) -> (r: ((T0, T1, T2, T3, T4, T5), T6, (T7, T8))) {
        ((self.0, self.1, self.2, self.3, self.4, self.5), self.6, (self.7, self.8))
    }

    proof fn lemma_split_shape(self) {
    }

    proof fn lemma_split_pivot(self) {
    }

    proof fn lemma_split_prefix(self) {
    }

    proof fn lemma_split_rejoin(self) {
    }

    proof fn lemma_join_split(parts: ((T0, T1, T2, T3, T4, T5), T6, (T7, T8))) {
    }

    proof fn lemma_split_put(self, value: T6) {
    }
}

impl<T0, T1, T2, T3, T4, T5, T6, T7, T8> TypedBounds<TupleIndex7, T7>
    for (T0, T1, T2, T3, T4, T5, T6, T7, T8)
{
    type PopOutput = (T0, T1, T2, T3, T4, T5, T6, T8);

    type SplitLeftExclusive = (T0, T1, T2, T3, T4, T5, T6);

    type SplitLeftInclusive = (T0, T1, T2, T3, T4, T5, T6, T7);

    type SplitRightExclusive = (T8,);

    type SplitRightInclusive = (T7, T8);

    open spec fn spec_split_exclusive(self) -> ((T0, T1, T2, T3, T4, T5, T6), T7, (T8,)) {
        ((self.0, self.1, self.2, self.3, self.4, self.5, self.6), self.7, (self.8,))
    }

    fn split_exclusive_at(self) -> (r: ((T0, T1, T2, T3, T4, T5, T6), T7, (T8,))) {
        ((self.0, self.1, self.2, self.3, self.4, self.5, self.6), self.7, (self.8,))
    }

    proof fn lemma_split_shape(self) {
    }

    proof fn lemma_split_pivot(self) {
    }

    proof fn lemma_split_prefix(self) {
    }

    proof fn lemma_split_rejoin(self) {
    }

    proof fn lemma_join_split(parts: ((T0, T1, T2, T3, T4, T5, T6), T7, (T8,))) {
    }

    proof fn lemma_split_put(self, value: T7) {
    }
}

impl<T0, T1, T2, T3, T4, T5, T6, T7, T8> TypedBounds<TupleIndex8, T8>
    for (T0, T1, T2, T3, T4, T5, T6, T7, T8)
{
    type PopOutput = (T0, T1, T2, T3, T4, T5, T6, T7);

    type SplitLeftExclusive = (T0, T1, T2, T3, T4, T5, T6, T7);

    type SplitLeftInclusive = (T0, T1, T2, T3, T4, T5, T6, T7, T8);

    type SplitRightExclusive = ();

    type SplitRightInclusive = (T8,);

    open spec fn spec_split_exclusive(self) -> ((T0, T1, T2, T3, T4, T5, T6, T7), T8, ()) {
        ((self.0, self.1, self.2, self.3, self.4, self.5, self.6, self.7), self.8, ())
    }

    fn split_exclusive_at(self) -> (r: ((T0, T1, T2, T3, T4, T5, T6, T7), T8, ())) {
        ((self.0, self.1, self.2, self.3, self.4, self.5, self.6, self.7), self.8, ())
    }

    proof fn lemma_split_shape(self) {
    }

    proof fn lemma_split_pivot(self) {
    }

    proof fn lemma_split_prefix(self) {
    }

    proof fn lemma_split_rejoin(self) {
    }

    proof fn lemma_join_split(parts: ((T0, T1, T2, T3, T4, T5, T6, T7), T8, ())) {
    }

    proof fn lemma_split_put(self, value: T8) {
    }
}

impl<T0, T1, T2, T3, T4, T5, T6, T7, T8, T9> TypedBounds<TupleIndex0, T0>
    for (T0, T1, T2, T3, T4, T5, T6, T7, T8, T9)
{
    type PopOutput = (T1, T2, T3, T4, T5, T6, T7, T8, T9);

    type SplitLeftExclusive = ();

    type SplitLeftInclusive = (T0,);

    type SplitRightExclusive = (T1, T2, T3, T4, T5, T6, T7, T8, T9);

    type SplitRightInclusive = (T0, T1, T2, T3, T4, T5, T6, T7, T8, T9);

    open spec fn spec_split_exclusive(self) -> ((), T0, (T1, T2, T3, T4, T5, T6, T7, T8, T9)) {
        ((), self.0, (self.1, self.2, self.3, self.4, self.5, self.6, self.7, self.8, self.9))
    }

    fn split_exclusive_at(self) -> (r: ((), T0, (T1, T2, T3, T4, T5, T6, T7, T8, T9))) {
        ((), self.0, (self.1, self.2, self.3, self.4, self.5, self.6, self.7, self.8, self.9))
    }

    proof fn lemma_split_shape(self) {
    }

    proof fn lemma_split_pivot(self) {
    }

    proof fn lemma_split_prefix(self) {
    }

    proof fn lemma_split_rejoin(self) {
    }

    proof fn lemma_join_split(parts: ((), T0, (T1, T2, T3, T4, T5, T6, T7, T8, T9))) {
    }

    proof fn lemma_split_put(self, value: T0) {
    }
}

impl<T0, T1, T2, T3, T4, T5, T6, T7, T8, T9> TypedBounds<TupleIndex1, T1>
    for (T0, T1, T2, T3, T4, T5, T6, T7, T8, T9)
{
    type PopOutput = (T0, T2, T3, T4, T5, T6, T7, T8, T9);

    type SplitLeftExclusive = (T0,);

    type SplitLeftInclusive = (T0, T1);

    type SplitRightExclusive = (T2, T3, T4, T5, T6, T7, T8, T9);

    type SplitRightInclusive = (T1, T2, T3, T4, T5, T6, T7, T8, T9);

    open spec fn spec_split_exclusive(self) -> ((T0,), T1, (T2, T3, T4, T5, T6, T7, T8, T9)) {
        ((self.0,), self.1, (self.2, self.3, self.4, self.5, self.6, self.7, self.8, self.9))
    }

    fn split_exclusive_at(self) -> (r: ((T0,), T1, (T2, T3, T4, T5, T6, T7, T8, T9))) {
        ((self.0,), self.1, (self.2, self.3, self.4, self.5, self.6, self.7, self.8, self.9))
    }

    proof fn lemma_split_shape(self) {
    }

    proof fn lemma_split_pivot(self) {
    }

    proof fn lemma_split_prefix(self) {
    }

    proof fn lemma_split_rejoin(self) {
    }

    proof fn lemma_join_split(parts: ((T0,), T1, (T2, T3, T4, T5, T6, T7, T8, T9))) {
    }

    proof fn lemma_split_put(self, value: T1) {
    }
}

impl<T0, T1, T2, T3, T4, T5, T6, T7, T8, T9> TypedBounds<TupleIndex2, T2>
    for (T0, T1, T2, T3, T4, T5, T6, T7, T8, T9)
{
    type PopOutput = (T0, T1, T3, T4, T5, T6, T7, T8, T9);

    type SplitLeftExclusive = (T0, T1);

    type SplitLeftInclusive = (T0, T1, T2);

    type SplitRightExclusive = (T3, T4, T5, T6, T7, T8, T9);

    type SplitRightInclusive = (T2, T3, T4, T5, T6, T7, T8, T9);

    open spec fn spec_split_exclusive(self) -> ((T0, T1), T2, (T3, T4, T5, T6, T7, T8, T9)) {
        ((self.0, self.1), self.2, (self.3, self.4, self.5, self.6, self.7, self.8, self.9))
    }

    fn split_exclusive_at(self) -> (r: ((T0, T1), T2, (T3, T4, T5, T6, T7, T8, T9))) {
        ((self.0, self.1), self.2, (self.3, self.4, self.5, self.6, self.7, self.8, self.9))
    }

    proof fn lemma_split_shape(self) {
    }

    proof fn lemma_split_pivot(self) {
    }

    proof fn lemma_split_prefix(self) {
    }

    proof fn lemma_split_rejoin(self) {
    }

    proof fn lemma_join_split(parts: ((T0, T1), T2, (T3, T4, T5, T6, T7, T8, T9))) {
    }

    proof fn lemma_split_put(self, value: T2) {
    }
}

impl<T0, T1, T2, T3, T4, T5, T6, T7, T8, T9> TypedBounds<TupleIndex3, T3>
    for (T0, T1, T2, T3, T4, T5, T6, T7, T8, T9)
{
    type PopOutput = (T0, T1, T2, T4, T5, T6, T7, T8, T9);

    type SplitLeftExclusive = (T0, T1, T2);

    type SplitLeftInclusive = (T0, T1, T2, T3);

    type SplitRightExclusive = (T4, T5, T6, T7, T8, T9);

    type SplitRightInclusive = (T3, T4, T5, T6, T7, T8, T9);

    open spec fn spec_split_exclusive(self) -> ((T0, T1, T2), T3, (T4, T5, T6, T7, T8, T9)) {
        ((self.0, self.1, self.2), self.3, (self.4, self.5, self.6, self.7, self.8, self.9))
    }

    fn split_exclusive_at(self) -> (r: ((T0, T1, T2), T3, (T4, T5, T6, T7, T8, T9))) {
        ((self.0, self.1, self.2), self.3, (self.4, self.5, self.6, self.7, self.8, self.9))
    }

    proof fn lemma_split_shape(self) {
    }

    proof fn lemma_split_pivot(self) {
    }

    proof fn lemma_split_prefix(self) {
    }

    proof fn lemma_split_rejoin(self) {
    }

    proof fn lemma_join_split(parts: ((T0, T1, T2), T3, (T4, T5, T6, T7, T8, T9))) {
    }

    proof fn lemma_split_put(self, value: T3) {
    }
}

impl<T0, T1, T2, T3, T4, T5, T6, T7, T8, T9> TypedBounds<TupleIndex4, T4>
    for (T0, T1, T2, T3, T4, T5, T6, T7, T8, T9)
{
    type PopOutput = (T0, T1, T2, T3, T5, T6, T7, T8, T9);

    type SplitLeftExclusive = (T0, T1, T2, T3);

    type SplitLeftInclusive = (T0, T1, T2, T3, T4);

    type SplitRightExclusive = (T5, T6, T7, T8, T9);

    type SplitRightInclusive = (T4, T5, T6, T7, T8, T9);

    open spec fn spec_split_exclusive(self) -> ((T0, T1, T2, T3), T4, (T5, T6, T7, T8, T9)) {
        ((self.0, self.1, self.2, self.3), self.4, (self.5, self.6, self.7, self.8, self.9))
    }

    fn split_exclusive_at(self) -> (r: ((T0, T1, T2, T3), T4, (T5, T6, T7, T8, T9))) {
        ((self.0, self.1, self.2, self.3), self.4, (self.5, self.6, self.7, self.8, self.9))
    }

    proof fn lemma_split_shape(self) {
    }

    proof fn lemma_split_pivot(self) {
    }

    proof fn lemma_split_prefix(self) {
    }

    proof fn lemma_split_rejoin(self) {
    }

    proof fn lemma_join_split(parts: ((T0, T1, T2, T3), T4, (T5, T6, T7, T8, T9))) {
    }

    proof fn lemma_split_put(self, value: T4) {
    }
}

impl<T0, T1, T2, T3, T4, T5, T6, T7, T8, T9> TypedBounds<TupleIndex5, T5>
    for (T0, T1, T2, T3, T4, T5, T6, T7, T8, T9)
{
    type PopOutput = (T0, T1, T2, T3, T4, T6, T7, T8, T9);

    type SplitLeftExclusive = (T0, T1, T2, T3, T4);

    type SplitLeftInclusive = (T0, T1, T2, T3, T4, T5);

    type SplitRightExclusive = (T6, T7, T8, T9);

    type SplitRightInclusive = (T5, T6, T7, T8, T9);

    open spec fn spec_split_exclusive(self) -> ((T0, T1, T2, T3, T4), T5, (T6, T7, T8, T9)) {
        ((self.0, self.1, self.2, self.3, self.4), self.5, (self.6, self.7, self.8, self.9))
    }

    fn split_exclusive_at(self) -> (r: ((T0, T1, T2, T3, T4), T5, (T6, T7, T8, T9))) {
        ((self.0, self.1, self.2, self.3, self.4), self.5, (self.6, self.7, self.8, self.9))
    }

    proof fn lemma_split_shape(self) {
    }

    proof fn lemma_split_pivot(self) {
    }

    proof fn lemma_split_prefix(self) {
    }

    proof fn lemma_split_rejoin(self) {
    }

    proof fn lemma_join_split(parts: ((T0, T1, T2, T3, T4), T5, (T6, T7, T8, T9))) {
    }

    proof fn lemma_split_put(self, value: T5) {
    }
}

impl<T0, T1, T2, T3, T4, T5, T6, T7, T8, T9> TypedBounds<TupleIndex6, T6>
    for (T0, T1, T2, T3, T4, T5, T6, T7, T8, T9)
{
    type PopOutput = (T0, T1, T2, T3, T4, T5, T7, T8, T9);

    type SplitLeftExclusive = (T0, T1, T2, T3, T4, T5);

    type SplitLeftInclusive = (T0, T1, T2, T3, T4, T5, T6);

    type SplitRightExclusive = (T7, T8, T9);

    type SplitRightInclusive = (T6, T7, T8, T9);

    open spec fn spec_split_exclusive(self) -> ((T0, T1, T2, T3, T4, T5), T6, (T7, T8, T9)) {
        ((self.0, self.1, self.2, self.3, self.4, self.5), self.6, (self.7, self.8, self.9))
    }

    fn split_exclusive_at(self) -> (r: ((T0, T1, T2, T3, T4, T5), T6, (T7, T8, T9))) {
        ((self.0, self.1, self.2, self.3, self.4, self.5), self.6, (self.7, self.8, self.9))
    }

    proof fn lemma_split_shape(self) {
    }

    proof fn lemma_split_pivot(self) {
    }

    proof fn lemma_split_prefix(self) {
    }

    proof fn lemma_split_rejoin(self) {
    }

    proof fn lemma_join_split(parts: ((T0, T1, T2, T3, T4, T5), T6, (T7, T8, T9))) {
    }

    proof fn lemma_split_put(self, value: T6) {
    }
}

impl<T0, T1, T2, T3, T4, T5, T6, T7, T8, T9> TypedBounds<TupleIndex7, T7>
    for (T0, T1, T2, T3, T4, T5, T6, T7, T8, T9)
{
    type PopOutput = (T0, T1, T2, T3, T4, T5, T6, T8, T9);

    type SplitLeftExclusive = (T0, T1, T2, T3, T4, T5, T6);

    type SplitLeftInclusive = (T0, T1, T2, T3, T4, T5, T6, T7);

    type SplitRightExclusive = (T8, T9);

    type SplitRightInclusive = (T7, T8, T9);

    open spec fn spec_split_exclusive(self) -> ((T0, T1, T2, T3, T4, T5, T6), T7, (T8, T9)) {
        ((self.0, self.1, self.2, self.3, self.4, self.5, self.6), self.7, (self.8, self.9))
    }

    fn split_exclusive_at(self) -> (r: ((T0, T1, T2, T3, T4, T5, T6), T7, (T8, T9))) {
        ((self.0, self.1, self.2, self.3, self.4, self.5, self.6), self.7, (self.8, self.9))
    }

    proof fn lemma_split_shape(self) {
    }

    proof fn lemma_split_pivot(self) {
    }

    proof fn lemma_split_prefix(self) {
    }

    proof fn lemma_split_rejoin(self) {
    }

    proof fn lemma_join_split(parts: ((T0, T1, T2, T3, T4, T5, T6), T7, (T8, T9))) {
    }

    proof fn lemma_split_put(self, value: T7) {
    }
}

impl<T0, T1, T2, T3, T4, T5, T6, T7, T8, T9> TypedBounds<TupleIndex8, T8>
    for (T0, T1, T2, T3, T4, T5, T6, T7, T8, T9)
{
    type PopOutput = (T0, T1, T2, T3, T4, T5, T6, T7, T9);

    type SplitLeftExclusive = (T0, T1, T2, T3, T4, T5, T6, T7);

    type SplitLeftInclusive = (T0, T1, T2, T3, T4, T5, T6, T7, T8);

    type SplitRightExclusive = (T9,);

    type SplitRightInclusive = (T8, T9);

    open spec fn spec_split_exclusive(self) -> ((T0, T1, T2, T3, T4, T5, T6, T7), T8, (T9,)) {
        ((self.0, self.1, self.2, self.3, self.4, self.5, self.6, self.7), self.8, (self.9,))
    }

    fn split_exclusive_at(self) -> (r: ((T0, T1, T2, T3, T4, T5, T6, T7), T8, (T9,))) {
        ((self.0, self.1, self.2, self.3, self.4, self.5, self.6, self.7), self.8, (self.9,))
    }

    proof fn lemma_split_shape(self) {
    }

    proof fn lemma_split_pivot(self) {
    }

    proof fn lemma_split_prefix(self) {
    }

    proof fn lemma_split_rejoin(self) {
    }

    proof fn lemma_join_split(parts: ((T0, T1, T2, T3, T4, T5, T6, T7), T8, (T9,))) {
    }

    proof fn lemma_split_put(self, value: T8) {
    }
}

impl<T0, T1, T2, T3, T4, T5, T6, T7, T8, T9> TypedBounds<TupleIndex9, T9>
    for (T0, T1, T2, T3, T4, T5, T6, T7, T8, T9)
{
    type PopOutput = (T0, T1, T2, T3, T4, T5, T6, T7, T8);

    type SplitLeftExclusive = (T0, T1, T2, T3, T4, T5, T6, T7, T8);

    type SplitLeftInclusive = (T0, T1, T2, T3, T4, T5, T6, T7, T8, T9);

    type SplitRightExclusive = ();

    type SplitRightInclusive = (T9,);

    open spec fn spec_split_exclusive(self) -> ((T0, T1, T2, T3, T4, T5, T6, T7, T8), T9, ()) {
        ((self.0, self.1, self.2, self.3, self.4, self.5, self.6, self.7, self.8), self.9, ())
    }

    fn split_exclusive_at(self) -> (r: ((T0, T1, T2, T3, T4, T5, T6, T7, T8), T9, ())) {
        ((self.0, self.1, self.2, self.3, self.4, self.5, self.6, self.7, self.8), self.9, ())
    }

    proof fn lemma_split_shape(self) {
    }

    proof fn lemma_split_pivot(self) {
    }

    proof fn lemma_split_prefix(self) {
    }

    proof fn lemma_split_rejoin(self) {
    }

    proof fn lemma_join_split(parts: ((T0, T1, T2, T3, T4, T5, T6, T7, T8), T9, ())) {
    }

    proof fn lemma_split_put(self, value: T9) {
    }
}

impl<T0, T1, T2, T3, T4, T5, T6, T7, T8, T9, T10> TypedBounds<TupleIndex0, T0>
    for (T0, T1, T2, T3, T4, T5, T6, T7, T8, T9, T10)
{
    type PopOutput = (T1, T2, T3, T4, T5, T6, T7, T8, T9, T10);

    type SplitLeftExclusive = ();

    type SplitLeftInclusive = (T0,);

    type SplitRightExclusive = (T1, T2, T3, T4, T5, T6, T7, T8, T9, T10);

    type SplitRightInclusive = (T0, T1, T2, T3, T4, T5, T6, T7, T8, T9, T10);

    open spec fn spec_split_exclusive(self) -> ((), T0, (T1, T2, T3, T4, T5, T6, T7, T8, T9, T10)) {
        ((), self.0, (self.1, self.2, self.3, self.4, self.5, self.6, self.7, self.8, self.9,
            self.10))
    }

    fn split_exclusive_at(self) -> (r: ((), T0, (T1, T2, T3, T4, T5, T6, T7, T8, T9, T10))) {
        ((), self.0, (self.1, self.2, self.3, self.4, self.5, self.6, self.7, self.8, self.9,
            self.10))
    }

    proof fn lemma_split_shape(self) {
    }

    proof fn lemma_split_pivot(self) {
    }

    proof fn lemma_split_prefix(self) {
    }

    proof fn lemma_split_rejoin(self) {
    }

    proof fn lemma_join_split(parts: ((), T0, (T1, T2, T3, T4, T5, T6, T7, T8, T9, T10))) {
    }

    proof fn lemma_split_put(self, value: T0) {
    }
}

impl<T0, T1, T2, T3, T4, T5, T6, T7, T8, T9, T10> TypedBounds<TupleIndex1, T1>
    for (T0, T1, T2, T3, T4, T5, T6, T7, T8, T9, T10)
{
    type PopOutput = (T0, T2, T3, T4, T5, T6, T7, T8, T9, T10);

    type SplitLeftExclusive = (T0,);

    type SplitLeftInclusive = (T0, T1);

    type SplitRightExclusive = (T2, T3, T4, T5, T6, T7, T8, T9, T10);

    type SplitRightInclusive = (T1, T2, T3, T4, T5, T6, T7, T8, T9, T10);

    open spec fn spec_split_exclusive(self) -> ((T0,), T1, (T2, T3, T4, T5, T6, T7, T8, T9, T10)) {
        ((self.0,), self.1, (self.2, self.3, self.4, self.5, self.6, self.7, self.8, self.9,
            self.10))
    }

    fn split_exclusive_at(self) -> (r: ((T0,), T1, (T2, T3, T4, T5, T6, T7, T8, T9, T10))) {
        ((self.0,), self.1, (self.2, self.3, self.4, self.5, self.6, self.7, self.8, self.9,
            self.10))
    }

    proof fn lemma_split_shape(self) {
    }

    proof fn lemma_split_pivot(self) {
    }

    proof fn lemma_split_prefix(self) {
    }

    proof fn lemma_split_rejoin(self) {
    }

    proof fn lemma_join_split(parts: ((T0,), T1, (T2, T3, T4, T5, T6, T7, T8, T9, T10))) {
    }

    proof fn lemma_split_put(self, value: T1) {
    }
}

impl<T0, T1, T2, T3, T4, T5, T6, T7, T8, T9, T10> TypedBounds<TupleIndex2, T2>
    for (T0, T1, T2, T3, T4, T5, T6, T7, T8, T9, T10)
{
    type PopOutput = (T0, T1, T3, T4, T5, T6, T7, T8, T9, T10);

    type SplitLeftExclusive = (T0, T1);

    type SplitLeftInclusive = (T0, T1, T2);

    type SplitRightExclusive = (T3, T4, T5, T6, T7, T8, T9, T10);

    type SplitRightInclusive = (T2, T3, T4, T5, T6, T7, T8, T9, T10);

    open spec fn spec_split_exclusive(self) -> ((T0, T1), T2, (T3, T4, T5, T6, T7, T8, T9, T10)) {
        ((self.0, self.1), self.2, (self.3, self.4, self.5, self.6, self.7, self.8, self.9,
            self.10))
    }

    fn split_exclusive_at(self) -> (r: ((T0, T1), T2, (T3, T4, T5, T6, T7, T8, T9, T10))) {
        ((self.0, self.1), self.2, (self.3, self.4, self.5, self.6, self.7, self.8, self.9,
            self.10))
    }

    proof fn lemma_split_shape(self) {
    }

    proof fn lemma_split_pivot(self) {
    }

    proof fn lemma_split_prefix(self) {
    }

    proof fn lemma_split_rejoin(self) {
    }

    proof fn lemma_join_split(parts: ((T0, T1), T2, (T3, T4, T5, T6, T7, T8, T9, T10))) {
    }

    proof fn lemma_split_put(self, value: T2) {
    }
}

impl<T0, T1, T2, T3, T4, T5, T6, T7, T8, T9, T10> TypedBounds<TupleIndex3, T3>
    for (T0, T1, T2, T3, T4, T5, T6, T7, T8, T9, T10)
{
    type PopOutput = (T0, T1, T2, T4, T5, T6, T7, T8, T9, T10);

    type SplitLeftExclusive = (T0, T1, T2);

    type SplitLeftInclusive = (T0, T1, T2, T3);

    type SplitRightExclusive = (T4, T5, T6, T7, T8, T9, T10);

    type SplitRightInclusive = (T3, T4, T5, T6, T7, T8, T9, T10);

    open spec fn spec_split_exclusive(self) -> ((T0, T1, T2), T3, (T4, T5, T6, T7, T8, T9, T10)) {
        ((self.0, self.1, self.2), self.3, (self.4, self.5, self.6, self.7, self.8, self.9,
            self.10))
    }

    fn split_exclusive_at(self) -> (r: ((T0, T1, T2), T3, (T4, T5, T6, T7, T8, T9, T10))) {
        ((self.0, self.1, self.2), self.3, (self.4, self.5, self.6, self.7, self.8, self.9,
            self.10))
    }

    proof fn lemma_split_shape(self) {
    }

    proof fn lemma_split_pivot(self) {
    }

    proof fn lemma_split_prefix(self) {
    }

    proof fn lemma_split_rejoin(self) {
    }

    proof fn lemma_join_split(parts: ((T0, T1, T2), T3, (T4, T5, T6, T7, T8, T9, T10))) {
    }

    proof fn lemma_split_put(self, value: T3) {
    }
}

impl<T0, T1, T2, T3, T4, T5, T6, T7, T8, T9, T10> TypedBounds<TupleIndex4, T4>
    for (T0, T1, T2, T3, T4, T5, T6, T7, T8, T9, T10)
{
    type PopOutput = (T0, T1, T2, T3, T5, T6, T7, T8, T9, T10);

    type SplitLeftExclusive = (T0, T1, T2, T3);

    type SplitLeftInclusive = (T0, T1, T2, T3, T4);

    type SplitRightExclusive = (T5, T6, T7, T8, T9, T10);

    type SplitRightInclusive = (T4, T5, T6, T7, T8, T9, T10);

    open spec fn spec_split_exclusive(self) -> ((T0, T1, T2, T3), T4, (T5, T6, T7, T8, T9, T10)) {
        ((self.0, self.1, self.2, self.3), self.4, (self.5, self.6, self.7, self.8, self.9,
            self.10))
    }

    fn split_exclusive_at(self) -> (r: ((T0, T1, T2, T3), T4, (T5, T6, T7, T8, T9, T10))) {
        ((self.0, self.1, self.2, self.3), self.4, (self.5, self.6, self.7, self.8, self.9,
            self.10))
    }

    proof fn lemma_split_shape(self) {
    }

    proof fn lemma_split_pivot(self) {
    }

    proof fn lemma_split_prefix(self) {
    }

    proof fn lemma_split_rejoin(self) {
    }

    proof fn lemma_join_split(parts: ((T0, T1, T2, T3), T4, (T5, T6, T7, T8, T9, T10))) {
    }

    proof fn lemma_split_put(self, value: T4) {
    }
}

impl<T0, T1, T2, T3, T4, T5, T6, T7, T8, T9, T10> TypedBounds<TupleIndex5, T5>
    for (T0, T1, T2, T3, T4, T5, T6, T7, T8, T9, T10)
{
    type PopOutput = (T0, T1, T2, T3, T4, T6, T7, T8, T9, T10);

    type SplitLeftExclusive = (T0, T1, T2, T3, T4);

    type SplitLeftInclusive = (T0, T1, T2, T3, T4, T5);

    type SplitRightExclusive = (T6, T7, T8, T9, T10);

    type SplitRightInclusive = (T5, T6, T7, T8, T9, T10);

    open spec fn spec_split_exclusive(self) -> ((T0, T1, T2, T3, T4), T5, (T6, T7, T8, T9, T10)) {
        ((self.0, self.1, self.2, self.3, self.4), self.5, (self.6, self.7, self.8, self.9,
            self.10))
    }

    fn split_exclusive_at(self) -> (r: ((T0, T1, T2, T3, T4), T5, (T6, T7, T8, T9, T10))) {
        ((self.0, self.1, self.2, self.3, self.4), self.5, (self.6, self.7, self.8, self.9,
            self.10))
    }

    proof fn lemma_split_shape(self) {
    }

    proof fn lemma_split_pivot(self) {
    }

    proof fn lemma_split_prefix(self) {
    }

    proof fn lemma_split_rejoin(self) {
    }

    proof fn lemma_join_split(parts: ((T0, T1, T2, T3, T4), T5, (T6, T7, T8, T9, T10))) {
    }

    proof fn lemma_split_put(self, value: T5) {
    }
}

impl<T0, T1, T2, T3, T4, T5, T6, T7, T8, T9, T10> TypedBounds<TupleIndex6, T6>
    for (T0, T1, T2, T3, T4, T5, T6, T7, T8, T9, T10)
{
    type PopOutput = (T0, T1, T2, T3, T4, T5, T7, T8, T9, T10);

    type SplitLeftExclusive = (T0, T1, T2, T3, T4, T5);

    type SplitLeftInclusive = (T0, T1, T2, T3, T4, T5, T6);

    type SplitRightExclusive = (T7, T8, T9, T10);

    type SplitRightInclusive = (T6, T7, T8, T9, T10);

    open spec fn spec_split_exclusive(self) -> ((T0, T1, T2, T3, T4, T5), T6, (T7, T8, T9, T10)) {
        ((self.0, self.1, self.2, self.3, self.4, self.5), self.6, (self.7, self.8, self.9,
            self.10))
    }

    fn split_exclusive_at(self) -> (r: ((T0, T1, T2, T3, T4, T5), T6, (T7, T8, T9, T10))) {
        ((self.0, self.1, self.2, self.3, self.4, self.5), self.6, (self.7, self.8, self.9,
            self.10))
    }

    proof fn lemma_split_shape(self) {
    }

    proof fn lemma_split_pivot(self) {
    }

    proof fn lemma_split_prefix(self) {
    }

    proof fn lemma_split_rejoin(self) {
    }

    proof fn lemma_join_split(parts: ((T0, T1, T2, T3, T4, T5), T6, (T7, T8, T9, T10))) {
    }

    proof fn lemma_split_put(self, value: T6) {
    }
}

impl<T0, T1, T2, T3, T4, T5, T6, T7, T8, T9, T10> TypedBounds<TupleIndex7, T7>
    for (T0, T1, T2, T3, T4, T5, T6, T7, T8, T9, T10)
{
    type PopOutput = (T0, T1, T2, T3, T4, T5, T6, T8, T9, T10);

    type SplitLeftExclusive = (T0, T1, T2, T3, T4, T5, T6);

    type SplitLeftInclusive = (T0, T1, T2, T3, T4, T5, T6, T7);

    type SplitRightExclusive = (T8, T9, T10);

    type SplitRightInclusive = (T7, T8, T9, T10);

    open spec fn spec_split_exclusive(self) -> ((T0, T1, T2, T3, T4, T5, T6), T7, (T8, T9, T10)) {
        ((self.0, self.1, self.2, self.3, self.4, self.5, self.6), self.7, (self.8, self.9,
            self.10))
    }

    fn split_exclusive_at(self) -> (r: ((T0, T1, T2, T3, T4, T5, T6), T7, (T8, T9, T10))) {
        ((self.0, self.1, self.2, self.3, self.4, self.5, self.6), self.7, (self.8, self.9,
            self.10))
    }

    proof fn lemma_split_shape(self) {
    }

    proof fn lemma_split_pivot(self) {
    }

    proof fn lemma_split_prefix(self) {
    }

    proof fn lemma_split_rejoin(self) {
    }

    proof fn lemma_join_split(parts: ((T0, T1, T2, T3, T4, T5, T6), T7, (T8, T9, T10))) {
    }

    proof fn lemma_split_put(self, value: T7) {
    }
}

impl<T0, T1, T2, T3, T4, T5, T6, T7, T8, T9, T10> TypedBounds<TupleIndex8, T8>
    for (T0, T1, T2, T3, T4, T5, T6, T7, T8, T9, T10)
{
    type PopOutput = (T0, T1, T2, T3, T4, T5, T6, T7, T9, T10);

    type SplitLeftExclusive = (T0, T1, T2, T3, T4, T5, T6, T7);

    type SplitLeftInclusive = (T0, T1, T2, T3, T4, T5, T6, T7, T8);

    type SplitRightExclusive = (T9, T10);

    type SplitRightInclusive = (T8, T9, T10);

    open spec fn spec_split_exclusive(self) -> ((T0, T1, T2, T3, T4, T5, T6, T7), T8, (T9, T10)) {
        ((self.0, self.1, self.2, self.3, self.4, self.5, self.6, self.7), self.8, (self.9,
            self.10))
    }

    fn split_exclusive_at(self) -> (r: ((T0, T1, T2, T3, T4, T5, T6, T7), T8, (T9, T10))) {
        ((self.0, self.1, self.2, self.3, self.4, self.5, self.6, self.7), self.8, (self.9,
            self.10))
    }

    proof fn lemma_split_shape(self) {
    }

    proof fn lemma_split_pivot(self) {
    }

    proof fn lemma_split_prefix(self) {
    }

    proof fn lemma_split_rejoin(self) {
    }

    proof fn lemma_join_split(parts: ((T0, T1, T2, T3, T4, T5, T6, T7), T8, (T9, T10))) {
    }

    proof fn lemma_split_put(self, value: T8) {
    }
}

impl<T0, T1, T2, T3, T4, T5, T6, T7, T8, T9, T10> TypedBounds<TupleIndex9, T9>
    for (T0, T1, T2, T3, T4, T5, T6, T7, T8, T9, T10)
{
    type PopOutput = (T0, T1, T2, T3, T4, T5, T6, T7, T8, T10);

    type SplitLeftExclusive = (T0, T1, T2, T3, T4, T5, T6, T7, T8);

    type SplitLeftInclusive = (T0, T1, T2, T3, T4, T5, T6, T7, T8, T9);

    type SplitRightExclusive = (T10,);

    type SplitRightInclusive = (T9, T10);

    open spec fn spec_split_exclusive(self) -> ((T0, T1, T2, T3, T4, T5, T6, T7, T8), T9, (T10,)) {
        ((self.0, self.1, self.2, self.3, self.4, self.5, self.6, self.7, self.8), self.9,
            (self.10,))
    }

    fn split_exclusive_at(self) -> (r: ((T0, T1, T2, T3, T4, T5, T6, T7, T8), T9, (T10,))) {
        ((self.0, self.1, self.2, self.3, self.4, self.5, self.6, self.7, self.8), self.9,
            (self.10,))
    }

    proof fn lemma_split_shape(self) {
    }

    proof fn lemma_split_pivot(self) {
    }

    proof fn lemma_split_prefix(self) {
    }

    proof fn lemma_split_rejoin(self) {
    }

    proof fn lemma_join_split(parts: ((T0, T1, T2, T3, T4, T5, T6, T7, T8), T9, (T10,))) {
    }

    proof fn lemma_split_put(self, value: T9) {
    }
}

impl<T0, T1, T2, T3, T4, T5, T6, T7, T8, T9, T10> TypedBounds<TupleIndex10, T10>
    for (T0, T1, T2, T3, T4, T5, T6, T7, T8, T9, T10)
{
    type PopOutput = (T0, T1, T2, T3, T4, T5, T6, T7, T8, T9);

    type SplitLeftExclusive = (T0, T1, T2, T3, T4, T5, T6, T7, T8, T9);

    type SplitLeftInclusive = (T0, T1, T2, T3, T4, T5, T6, T7, T8, T9, T10);

    type SplitRightExclusive = ();

    type SplitRightInclusive = (T10,);

    open spec fn spec_split_exclusive(self) -> ((T0, T1, T2, T3, T4, T5, T6, T7, T8, T9), T10, ()) {
        ((self.0, self.1, self.2, self.3, self.4, self.5, self.6, self.7, self.8, self.9), self.10,
            ())
    }

    fn split_exclusive_at(self) -> (r: ((T0, T1, T2, T3, T4, T5, T6, T7, T8, T9), T10, ())) {
        ((self.0, self.1, self.2, self.3, self.4, self.5, self.6, self.7, self.8, self.9), self.10,
            ())
    }

    proof fn lemma_split_shape(self) {
    }

    proof fn lemma_split_pivot(self) {
    }

    proof fn lemma_split_prefix(self) {
    }

    proof fn lemma_split_rejoin(self) {
    }

    proof fn lemma_join_split(parts: ((T0, T1, T2, T3, T4, T5, T6, T7, T8, T9), T10, ())) {
    }

    proof fn lemma_split_put(self, value: T10) {
    }
}

impl<T0, T1, T2, T3, T4, T5, T6, T7, T8, T9, T10, T11> TypedBounds<TupleIndex0, T0>
    for (T0, T1, T2, T3, T4, T5, T6, T7, T8, T9, T10, T11)
{
    type PopOutput = (T1, T2, T3, T4, T5, T6, T7, T8, T9, T10, T11);

    type SplitLeftExclusive = ();

    type SplitLeftInclusive = (T0,);

    type SplitRightExclusive = (T1, T2, T3, T4, T5, T6, T7, T8, T9, T10, T11);

    type SplitRightInclusive = (T0, T1, T2, T3, T4, T5, T6, T7, T8, T9, T10, T11);

    open spec fn spec_split_exclusive(self) -> ((), T0, (T1, T2, T3, T4, T5, T6, T7, T8, T9, T10,
        T11)) {
        ((), self.0, (self.1, self.2, self.3, self.4, self.5, self.6, self.7, self.8, self.9,
            self.10, self.11))
    }

    fn split_exclusive_at(self) -> (r: ((), T0, (T1, T2, T3, T4, T5, T6, T7, T8, T9, T10, T11))) {
        ((), self.0, (self.1, self.2, self.3, self.4, self.5, self.6, self.7, self.8, self.9,
            self.10, self.11))
    }

    proof fn lemma_split_shape(self) {
    }

    proof fn lemma_split_pivot(self) {
    }

    proof fn lemma_split_prefix(self) {
    }

    proof fn lemma_split_rejoin(self) {
    }

    proof fn lemma_join_split(parts: ((), T0, (T1, T2, T3, T4, T5, T6, T7, T8, T9, T10, T11))) {
    }

    proof fn lemma_split_put(self, value: T0) {
    }
}

impl<T0, T1, T2, T3, T4, T5, T6, T7, T8, T9, T10, T11> TypedBounds<TupleIndex1, T1>
    for (T0, T1, T2, T3, T4, T5, T6, T7, T8, T9, T10, T11)
{
    type PopOutput = (T0, T2, T3, T4, T5, T6, T7, T8, T9, T10, T11);

    type SplitLeftExclusive = (T0,);

    type SplitLeftInclusive = (T0, T1);

    type SplitRightExclusive = (T2, T3, T4, T5, T6, T7, T8, T9, T10, T11);

    type SplitRightInclusive = (T1, T2, T3, T4, T5, T6, T7, T8, T9, T10, T11);

    open spec fn spec_split_exclusive(self) -> ((T0,), T1, (T2, T3, T4, T5, T6, T7, T8, T9, T10,
        T11)) {
        ((self.0,), self.1, (self.2, self.3, self.4, self.5, self.6, self.7, self.8, self.9,
            self.10, self.11))
    }

    fn split_exclusive_at(self) -> (r: ((T0,), T1, (T2, T3, T4, T5, T6, T7, T8, T9, T10, T11))) {
        ((self.0,), self.1, (self.2, self.3, self.4, self.5, self.6, self.7, self.8, self.9,
            self.10, self.11))
    }

    proof fn lemma_split_shape(self) {
    }

    proof fn lemma_split_pivot(self) {
    }

    proof fn lemma_split_prefix(self) {
    }

    proof fn lemma_split_rejoin(self) {
    }

    proof fn lemma_join_split(parts: ((T0,), T1, (T2, T3, T4, T5, T6, T7, T8, T9, T10, T11))) {
    }

    proof fn lemma_split_put(self, value: T1) {
    }
}

impl<T0, T1, T2, T3, T4, T5, T6, T7, T8, T9, T10, T11> TypedBounds<TupleIndex2, T2>
    for (T0, T1, T2, T3, T4, T5, T6, T7, T8, T9, T10, T11)
{
    type PopOutput = (T0, T1, T3, T4, T5, T6, T7, T8, T9, T10, T11);

    type SplitLeftExclusive = (T0, T1);

    type SplitLeftInclusive = (T0, T1, T2);

    type SplitRightExclusive = (T3, T4, T5, T6, T7, T8, T9, T10, T11);

    type SplitRightInclusive = (T2, T3, T4, T5, T6, T7, T8, T9, T10, T11);

    open spec fn spec_split_exclusive(self) -> ((T0, T1), T2, (T3, T4, T5, T6, T7, T8, T9, T10,
        T11)) {
        ((self.0, self.1), self.2, (self.3, self.4, self.5, self.6, self.7, self.8, self.9, self.10,
            self.11))
    }

    fn split_exclusive_at(self) -> (r: ((T0, T1), T2, (T3, T4, T5, T6, T7, T8, T9, T10, T11))) {
        ((self.0, self.1), self.2, (self.3, self.4, self.5, self.6, self.7, self.8, self.9, self.10,
            self.11))
    }

    proof fn lemma_split_shape(self) {
    }

    proof fn lemma_split_pivot(self) {
    }

    proof fn lemma_split_prefix(self) {
    }

    proof fn lemma_split_rejoin(self) {
    }

    proof fn lemma_join_split(parts: ((T0, T1), T2, (T3, T4, T5, T6, T7, T8, T9, T10, T11))) {
    }

    proof fn lemma_split_put(self, value: T2) {
    }
}

impl<T0, T1, T2, T3, T4, T5, T6, T7, T8, T9, T10, T11> TypedBounds<TupleIndex3, T3>
    for (T0, T1, T2, T3, T4, T5, T6, T7, T8, T9, T10, T11)
{
    type PopOutput = (T0, T1, T2, T4, T5, T6, T7, T8, T9, T10, T11);

    type SplitLeftExclusive = (T0, T1, T2);

    type SplitLeftInclusive = (T0, T1, T2, T3);

    type SplitRightExclusive = (T4, T5, T6, T7, T8, T9, T10, T11);

    type SplitRightInclusive = (T3, T4, T5, T6, T7, T8, T9, T10, T11);

    open spec fn spec_split_exclusive(self) -> ((T0, T1, T2), T3, (T4, T5, T6, T7, T8, T9, T10,
        T11)) {
        ((self.0, self.1, self.2), self.3, (self.4, self.5, self.6, self.7, self.8, self.9, self.10,
            self.11))
    }

    fn split_exclusive_at(self) -> (r: ((T0, T1, T2), T3, (T4, T5, T6, T7, T8, T9, T10, T11))) {
        ((self.0, self.1, self.2), self.3, (self.4, self.5, self.6, self.7, self.8, self.9, self.10,
            self.11))
    }

    proof fn lemma_split_shape(self) {
    }

    proof fn lemma_split_pivot(self) {
    }

    proof fn lemma_split_prefix(self) {
    }

    proof fn lemma_split_rejoin(self) {
    }

    proof fn lemma_join_split(parts: ((T0, T1, T2), T3, (T4, T5, T6, T7, T8, T9, T10, T11))) {
    }

    proof fn lemma_split_put(self, value: T3) {
    }
}

impl<T0, T1, T2, T3, T4, T5, T6, T7, T8, T9, T10, T11> TypedBounds<TupleIndex4, T4>
    for (T0, T1, T2, T3, T4, T5, T6, T7, T8, T9, T10, T11)
{
    type PopOutput = (T0, T1, T2, T3, T5, T6, T7, T8, T9, T10, T11);

    type SplitLeftExclusive = (T0, T1, T2, T3);

    type SplitLeftInclusive = (T0, T1, T2, T3, T4);

    type SplitRightExclusive = (T5, T6, T7, T8, T9, T10, T11);

    type SplitRightInclusive = (T4, T5, T6, T7, T8, T9, T10, T11);

    open spec fn spec_split_exclusive(self) -> ((T0, T1, T2, T3), T4, (T5, T6, T7, T8, T9, T10,
        T11)) {
        ((self.0, self.1, self.2, self.3), self.4, (self.5, self.6, self.7, self.8, self.9, self.10,
            self.11))
    }

    fn split_exclusive_at(self) -> (r: ((T0, T1, T2, T3), T4, (T5, T6, T7, T8, T9, T10, T11))) {
        ((self.0, self.1, self.2, self.3), self.4, (self.5, self.6, self.7, self.8, self.9, self.10,
            self.11))
    }

    proof fn lemma_split_shape(self) {
    }

    proof fn lemma_split_pivot(self) {
    }

    proof fn lemma_split_prefix(self) {
    }

    proof fn lemma_split_rejoin(self) {
    }

    proof fn lemma_join_split(parts: ((T0, T1, T2, T3), T4, (T5, T6, T7, T8, T9, T10, T11))) {
    }

    proof fn lemma_split_put(self, value: T4) {
    }
}

impl<T0, T1, T2, T3, T4, T5, T6, T7, T8, T9, T10, T11> TypedBounds<TupleIndex5, T5>
    for (T0, T1, T2, T3, T4, T5, T6, T7, T8, T9, T10, T11)
{
    type PopOutput = (T0, T1, T2, T3, T4, T6, T7, T8, T9, T10, T11);

    type SplitLeftExclusive = (T0, T1, T2, T3, T4);

    type SplitLeftInclusive = (T0, T1, T2, T3, T4, T5);

    type SplitRightExclusive = (T6, T7, T8, T9, T10, T11);

    type SplitRightInclusive = (T5, T6, T7, T8, T9, T10, T11);

    open spec fn spec_split_exclusive(self) -> ((T0, T1, T2, T3, T4), T5, (T6, T7, T8, T9, T10,
        T11)) {
        ((self.0, self.1, self.2, self.3, self.4), self.5, (self.6, self.7, self.8, self.9, self.10,
            self.11))
    }

    fn split_exclusive_at(self) -> (r: ((T0, T1, T2, T3, T4), T5, (T6, T7, T8, T9, T10, T11))) {
        ((self.0, self.1, self.2, self.3, self.4), self.5, (self.6, self.7, self.8, self.9, self.10,
            self.11))
    }

    proof fn lemma_split_shape(self) {
    }

    proof fn lemma_split_pivot(self) {
    }

    proof fn lemma_split_prefix(self) {
    }

    proof fn lemma_split_rejoin(self) {
    }

    proof fn lemma_join_split(parts: ((T0, T1, T2, T3, T4), T5, (T6, T7, T8, T9, T10, T11))) {
    }

    proof fn lemma_split_put(self, value: T5) {
    }
}

impl<T0, T1, T2, T3, T4, T5, T6, T7, T8, T9, T10, T11> TypedBounds<TupleIndex6, T6>
    for (T0, T1, T2, T3, T4, T5, T6, T7, T8, T9, T10, T11)
{
    type PopOutput = (T0, T1, T2, T3, T4, T5, T7, T8, T9, T10, T11);

    type SplitLeftExclusive = (T0, T1, T2, T3, T4, T5);

    type SplitLeftInclusive = (T0, T1, T2, T3, T4, T5, T6);

    type SplitRightExclusive = (T7, T8, T9, T10, T11);

    type SplitRightInclusive = (T6, T7, T8, T9, T10, T11);

    open spec fn spec_split_exclusive(self) -> ((T0, T1, T2, T3, T4, T5), T6, (T7, T8, T9, T10,
        T11)) {
        ((self.0, self.1, self.2, self.3, self.4, self.5), self.6, (self.7, self.8, self.9, self.10,
            self.11))
    }

    fn split_exclusive_at(self) -> (r: ((T0, T1, T2, T3, T4, T5), T6, (T7, T8, T9, T10, T11))) {
        ((self.0, self.1, self.2, self.3, self.4, self.5), self.6, (self.7, self.8, self.9, self.10,
            self.11))
    }

    proof fn lemma_split_shape(self) {
    }

    proof fn lemma_split_pivot(self) {
    }

    proof fn lemma_split_prefix(self) {
    }

    proof fn lemma_split_rejoin(self) {
    }

    proof fn lemma_join_split(parts: ((T0, T1, T2, T3, T4, T5), T6, (T7, T8, T9, T10, T11))) {
    }

    proof fn lemma_split_put(self, value: T6) {
    }
}

impl<T0, T1, T2, T3, T4, T5, T6, T7, T8, T9, T10, T11> TypedBounds<TupleIndex7, T7>
    for (T0, T1, T2, T3, T4, T5, T6, T7, T8, T9, T10, T11)
{
    type PopOutput = (T0, T1, T2, T3, T4, T5, T6, T8, T9, T10, T11);

    type SplitLeftExclusive = (T0, T1, T2, T3, T4, T5, T6);

    type SplitLeftInclusive = (T0, T1, T2, T3, T4, T5, T6, T7);

    type SplitRightExclusive = (T8, T9, T10, T11);

    type SplitRightInclusive = (T7, T8, T9, T10, T11);

    open spec fn spec_split_exclusive(self) -> ((T0, T1, T2, T3, T4, T5, T6), T7, (T8, T9, T10,
        T11)) {
        ((self.0, self.1, self.2, self.3, self.4, self.5, self.6), self.7, (self.8, self.9, self.10,
            self.11))
    }

    fn split_exclusive_at(self) -> (r: ((T0, T1, T2, T3, T4, T5, T6), T7, (T8, T9, T10, T11))) {
        ((self.0, self.1, self.2, self.3, self.4, self.5, self.6), self.7, (self.8, self.9, self.10,
            self.11))
    }

    proof fn lemma_split_shape(self) {
    }

    proof fn lemma_split_pivot(self) {
    }

    proof fn lemma_split_prefix(self) {
    }

    proof fn lemma_split_rejoin(self) {
    }

    proof fn lemma_join_split(parts: ((T0, T1, T2, T3, T4, T5, T6), T7, (T8, T9, T10, T11))) {
    }

    proof fn lemma_split_put(self, value: T7) {
    }
}

impl<T0, T1, T2, T3, T4, T5, T6, T7, T8, T9, T10, T11> TypedBounds<TupleIndex8, T8>
    for (T0, T1, T2, T3, T4, T5, T6, T7, T8, T9, T10, T11)
{
    type PopOutput = (T0, T1, T2, T3, T4, T5, T6, T7, T9, T10, T11);

    type SplitLeftExclusive = (T0, T1, T2, T3, T4, T5, T6, T7);

    type SplitLeftInclusive = (T0, T1, T2, T3, T4, T5, T6, T7, T8);

    type SplitRightExclusive = (T9, T10, T11);

    type SplitRightInclusive = (T8, T9, T10, T11);

    open spec fn spec_split_exclusive(self) -> ((T0, T1, T2, T3, T4, T5, T6, T7), T8, (T9, T10,
        T11)) {
        ((self.0, self.1, self.2, self.3, self.4, self.5, self.6, self.7), self.8, (self.9, self.10,
            self.11))
    }

    fn split_exclusive_at(self) -> (r: ((T0, T1, T2, T3, T4, T5, T6, T7), T8, (T9, T10, T11))) {
        ((self.0, self.1, self.2, self.3, self.4, self.5, self.6, self.7), self.8, (self.9, self.10,
            self.11))
    }

    proof fn lemma_split_shape(self) {
    }

    proof fn lemma_split_pivot(self) {
    }

    proof fn lemma_split_prefix(self) {
    }

    proof fn lemma_split_rejoin(self) {
    }

    proof fn lemma_join_split(parts: ((T0, T1, T2, T3, T4, T5, T6, T7), T8, (T9, T10, T11))) {
    }

    proof fn lemma_split_put(self, value: T8) {
    }
}

impl<T0, T1, T2, T3, T4, T5, T6, T7, T8, T9, T10, T11> TypedBounds<TupleIndex9, T9>
    for (T0, T1, T2, T3, T4, T5, T6, T7, T8, T9, T10, T11)
{
    type PopOutput = (T0, T1, T2, T3, T4, T5, T6, T7, T8, T10, T11);

    type SplitLeftExclusive = (T0, T1, T2, T3, T4, T5, T6, T7, T8);

    type SplitLeftInclusive = (T0, T1, T2, T3, T4, T5, T6, T7, T8, T9);

    type SplitRightExclusive = (T10, T11);

    type SplitRightInclusive = (T9, T10, T11);

    open spec fn spec_split_exclusive(self) -> ((T0, T1, T2, T3, T4, T5, T6, T7, T8), T9, (T10,
        T11)) {
        ((self.0, self.1, self.2, self.3, self.4, self.5, self.6, self.7, self.8), self.9, (self.10,
            self.11))
    }

    fn split_exclusive_at(self) -> (r: ((T0, T1, T2, T3, T4, T5, T6, T7, T8), T9, (T10, T11))) {
        ((self.0, self.1, self.2, self.3, self.4, self.5, self.6, self.7, self.8), self.9, (self.10,
            self.11))
    }

    proof fn lemma_split_shape(self) {
    }

    proof fn lemma_split_pivot(self) {
    }

    proof fn lemma_split_prefix(self) {
    }

    proof fn lemma_split_rejoin(self) {
    }

    proof fn lemma_join_split(parts: ((T0, T1, T2, T3, T4, T5, T6, T7, T8), T9, (T10, T11))) {
    }

    proof fn lemma_split_put(self, value: T9) {
    }
}

impl<T0, T1, T2, T3, T4, T5, T6, T7, T8, T9, T10, T11> TypedBounds<TupleIndex10, T10>
    for (T0, T1, T2, T3, T4, T5, T6, T7, T8, T9, T10, T11)
{
    type PopOutput = (T0, T1, T2, T3, T4, T5, T6, T7, T8, T9, T11);

    type SplitLeftExclusive = (T0, T1, T2, T3, T4, T5, T6, T7, T8, T9);

    type SplitLeftInclusive = (T0, T1, T2, T3, T4, T5, T6, T7, T8, T9, T10);

    type SplitRightExclusive = (T11,);

    type SplitRightInclusive = (T10, T11);

    open spec fn spec_split_exclusive(self) -> ((T0, T1, T2, T3, T4, T5, T6, T7, T8, T9), T10,
        (T11,)) {
        ((self.0, self.1, self.2, self.3, self.4, self.5, self.6, self.7, self.8, self.9), self.10,
            (self.11,))
    }

    fn split_exclusive_at(self) -> (r: ((T0, T1, T2, T3, T4, T5, T6, T7, T8, T9), T10, (T11,))) {
        ((self.0, self.1, self.2, self.3, self.4, self.5, self.6, self.7, self.8, self.9), self.10,
            (self.11,))
    }

    proof fn lemma_split_shape(self) {
    }

    proof fn lemma_split_pivot(self) {
    }

    proof fn lemma_split_prefix(self) {
    }

    proof fn lemma_split_rejoin(self) {
    }

    proof fn lemma_join_split(parts: ((T0, T1, T2, T3, T4, T5, T6, T7, T8, T9), T10, (T11,))) {
    }

    proof fn lemma_split_put(self, value: T10) {
    }
}

impl<T0, T1, T2, T3, T4, T5, T6, T7, T8, T9, T10, T11> TypedBounds<TupleIndex11, T11>
    for (T0, T1, T2, T3, T4, T5, T6, T7, T8, T9, T10, T11)
{
    type PopOutput = (T0, T1, T2, T3, T4, T5, T6, T7, T8, T9, T10);

    type SplitLeftExclusive = (T0, T1, T2, T3, T4, T5, T6, T7, T8, T9, T10);

    type SplitLeftInclusive = (T0, T1, T2, T3, T4, T5, T6, T7, T8, T9, T10, T11);

    type SplitRightExclusive = ();

    type SplitRightInclusive = (T11,);

    open spec fn spec_split_exclusive(self) -> ((T0, T1, T2, T3, T4, T5, T6, T7, T8, T9, T10), T11,
        ()) {
        ((self.0, self.1, self.2, self.3, self.4, self.5, self.6, self.7, self.8, self.9, self.10),
            self.11, ())
    }

    fn split_exclusive_at(self) -> (r: ((T0, T1, T2, T3, T4, T5, T6, T7, T8, T9, T10), T11, ())) {
        ((self.0, self.1, self.2, self.3, self.4, self.5, self.6, self.7, self.8, self.9, self.10),
            self.11, ())
    }

    proof fn lemma_split_shape(self) {
    }

    proof fn lemma_split_pivot(self) {
    }

    proof fn lemma_split_prefix(self) {
    }

    proof fn lemma_split_rejoin(self) {
    }

    proof fn lemma_join_split(parts: ((T0, T1, T2, T3, T4, T5, T6, T7, T8, T9, T10), T11, ())) {
    }

    proof fn lemma_split_put(self, value: T11) {
    }
}

} // verus!
