//! Bounds that reach from a position down to the first one: lookup at every
//! position through `Idx`, and agreement of two sequences in the types they
//! hold there.
//!
//! A bound of this kind is one trait for every position and every length. It
//! reaches the positions below `Idx` by subtraction that stops at the first
//! position: `Idx` less one, less two, and so on through `MAX_LENGTH` less
//! one. Counting back from any position of a sequence, these differences
//! pass every position before it and then stay at the first one.

use vstd::prelude::*;
use crate::arithmetic::{
    spec_saturating_sub, TupleIndexAdd, TupleIndexSaturatingSub, TupleIndexSub,
};
use crate::nth_index::NthIndex;
use crate::tuple_index::{
    Position, TupleIndex, TupleIndex0, TupleIndex1, TupleIndex2, TupleIndex3, TupleIndex4,
    TupleIndex5, TupleIndex6, TupleIndex7, TupleIndex8, TupleIndex9, TupleIndex10, TupleIndex11,
};
use crate::tuple_len::{TupleLen, MAX_LENGTH};

verus! {

/// The position `K` steps before `Idx`, or the first position where `Idx` has
/// fewer than `K` positions before it.
pub type Back<Idx, K> = <Idx as TupleIndexSaturatingSub<K>>::Output;

/// A position from which one can count back: each number of steps below
/// `MAX_LENGTH` leads to a position.
///
/// With the bound come the three identities of the arithmetic, as equations
/// between types: the position plus the first position, and the position
/// less the first position, are the position, and the position less itself
/// is the first position.
pub trait Countdown: TupleIndex
    + TupleIndexAdd<TupleIndex0, Output = Self>
    + TupleIndexSub<TupleIndex0, Output = Self>
    + TupleIndexSub<Self, Output = TupleIndex0>
    + TupleIndexSaturatingSub<TupleIndex1>
    + TupleIndexSaturatingSub<TupleIndex2>
    + TupleIndexSaturatingSub<TupleIndex3>
    + TupleIndexSaturatingSub<TupleIndex4>
    + TupleIndexSaturatingSub<TupleIndex5>
    + TupleIndexSaturatingSub<TupleIndex6>
    + TupleIndexSaturatingSub<TupleIndex7>
    + TupleIndexSaturatingSub<TupleIndex8>
    + TupleIndexSaturatingSub<TupleIndex9>
    + TupleIndexSaturatingSub<TupleIndex10>
    + TupleIndexSaturatingSub<TupleIndex11>
{
}

impl<Idx> Countdown for Idx where
    Idx: TupleIndex
        + TupleIndexAdd<TupleIndex0, Output = Idx>
        + TupleIndexSub<TupleIndex0, Output = Idx>
        + TupleIndexSub<Idx, Output = TupleIndex0>
        + TupleIndexSaturatingSub<TupleIndex1>
        + TupleIndexSaturatingSub<TupleIndex2>
        + TupleIndexSaturatingSub<TupleIndex3>
        + TupleIndexSaturatingSub<TupleIndex4>
        + TupleIndexSaturatingSub<TupleIndex5>
        + TupleIndexSaturatingSub<TupleIndex6>
        + TupleIndexSaturatingSub<TupleIndex7>
        + TupleIndexSaturatingSub<TupleIndex8>
        + TupleIndexSaturatingSub<TupleIndex9>
        + TupleIndexSaturatingSub<TupleIndex10>
        + TupleIndexSaturatingSub<TupleIndex11>,
{
}

/// Lookup is available at `Idx` and at every position before it.
pub trait NthIndexedUntil<Idx: Countdown>: NthIndex<Idx>
    + NthIndex<Back<Idx, TupleIndex1>>
    + NthIndex<Back<Idx, TupleIndex2>>
    + NthIndex<Back<Idx, TupleIndex3>>
    + NthIndex<Back<Idx, TupleIndex4>>
    + NthIndex<Back<Idx, TupleIndex5>>
    + NthIndex<Back<Idx, TupleIndex6>>
    + NthIndex<Back<Idx, TupleIndex7>>
    + NthIndex<Back<Idx, TupleIndex8>>
    + NthIndex<Back<Idx, TupleIndex9>>
    + NthIndex<Back<Idx, TupleIndex10>>
    + NthIndex<Back<Idx, TupleIndex11>>
{
}

impl<TT, Idx: Countdown> NthIndexedUntil<Idx> for TT where
    TT: NthIndex<Idx>
        + NthIndex<Back<Idx, TupleIndex1>>
        + NthIndex<Back<Idx, TupleIndex2>>
        + NthIndex<Back<Idx, TupleIndex3>>
        + NthIndex<Back<Idx, TupleIndex4>>
        + NthIndex<Back<Idx, TupleIndex5>>
        + NthIndex<Back<Idx, TupleIndex6>>
        + NthIndex<Back<Idx, TupleIndex7>>
        + NthIndex<Back<Idx, TupleIndex8>>
        + NthIndex<Back<Idx, TupleIndex9>>
        + NthIndex<Back<Idx, TupleIndex10>>
        + NthIndex<Back<Idx, TupleIndex11>>,
{
}

/// The sequence has, at `Idx` and at every position before it, an element of
/// the same type as `Other` has there.
pub trait NthIndexedAs<Idx: Countdown, Other: NthIndexedUntil<Idx>>: NthIndexedUntil<Idx>
    + NthIndex<Idx, NthType = <Other as NthIndex<Idx>>::NthType>
    + NthIndex<Back<Idx, TupleIndex1>, NthType = <Other as NthIndex<Back<Idx,
        TupleIndex1>>>::NthType>
    + NthIndex<Back<Idx, TupleIndex2>, NthType = <Other as NthIndex<Back<Idx,
        TupleIndex2>>>::NthType>
    + NthIndex<Back<Idx, TupleIndex3>, NthType = <Other as NthIndex<Back<Idx,
        TupleIndex3>>>::NthType>
    + NthIndex<Back<Idx, TupleIndex4>, NthType = <Other as NthIndex<Back<Idx,
        TupleIndex4>>>::NthType>
    + NthIndex<Back<Idx, TupleIndex5>, NthType = <Other as NthIndex<Back<Idx,
        TupleIndex5>>>::NthType>
    + NthIndex<Back<Idx, TupleIndex6>, NthType = <Other as NthIndex<Back<Idx,
        TupleIndex6>>>::NthType>
    + NthIndex<Back<Idx, TupleIndex7>, NthType = <Other as NthIndex<Back<Idx,
        TupleIndex7>>>::NthType>
    + NthIndex<Back<Idx, TupleIndex8>, NthType = <Other as NthIndex<Back<Idx,
        TupleIndex8>>>::NthType>
    + NthIndex<Back<Idx, TupleIndex9>, NthType = <Other as NthIndex<Back<Idx,
        TupleIndex9>>>::NthType>
    + NthIndex<Back<Idx, TupleIndex10>, NthType = <Other as NthIndex<Back<Idx,
        TupleIndex10>>>::NthType>
    + NthIndex<Back<Idx, TupleIndex11>, NthType = <Other as NthIndex<Back<Idx,
        TupleIndex11>>>::NthType>
{
}

impl<TT, Idx: Countdown, Other: NthIndexedUntil<Idx>> NthIndexedAs<Idx, Other> for TT where
    TT: NthIndexedUntil<Idx>
        + NthIndex<Idx, NthType = <Other as NthIndex<Idx>>::NthType>
        + NthIndex<Back<Idx, TupleIndex1>, NthType = <Other as NthIndex<Back<Idx,
            TupleIndex1>>>::NthType>
        + NthIndex<Back<Idx, TupleIndex2>, NthType = <Other as NthIndex<Back<Idx,
            TupleIndex2>>>::NthType>
        + NthIndex<Back<Idx, TupleIndex3>, NthType = <Other as NthIndex<Back<Idx,
            TupleIndex3>>>::NthType>
        + NthIndex<Back<Idx, TupleIndex4>, NthType = <Other as NthIndex<Back<Idx,
            TupleIndex4>>>::NthType>
        + NthIndex<Back<Idx, TupleIndex5>, NthType = <Other as NthIndex<Back<Idx,
            TupleIndex5>>>::NthType>
        + NthIndex<Back<Idx, TupleIndex6>, NthType = <Other as NthIndex<Back<Idx,
            TupleIndex6>>>::NthType>
        + NthIndex<Back<Idx, TupleIndex7>, NthType = <Other as NthIndex<Back<Idx,
            TupleIndex7>>>::NthType>
        + NthIndex<Back<Idx, TupleIndex8>, NthType = <Other as NthIndex<Back<Idx,
            TupleIndex8>>>::NthType>
        + NthIndex<Back<Idx, TupleIndex9>, NthType = <Other as NthIndex<Back<Idx,
            TupleIndex9>>>::NthType>
        + NthIndex<Back<Idx, TupleIndex10>, NthType = <Other as NthIndex<Back<Idx,
            TupleIndex10>>>::NthType>
        + NthIndex<Back<Idx, TupleIndex11>, NthType = <Other as NthIndex<Back<Idx,
            TupleIndex11>>>::NthType>,
{
}

/// Counting back `K` steps from `Idx` leads to the position `Idx` less `K`,
/// and past the first position to the first position.
pub proof fn lemma_back<Idx, K>() where Idx: TupleIndexSaturatingSub<K>, K: Position
    ensures
        Back::<Idx, K>::spec_index() == spec_saturating_sub(Idx::spec_index(), K::spec_index()),
        Back::<Idx, K>::spec_index() <= Idx::spec_index(),
{
    Idx::lemma_saturating_sub();
}

/// Counting back from a position of a sequence reaches every position before
/// it: the position `p` is `Idx` less `Idx - p`, and that many steps are
/// fewer than `MAX_LENGTH`.
pub proof fn lemma_countdown_reaches<S, Idx>(p: nat) where S: NthIndexedUntil<Idx>, Idx: Countdown
    requires
        p <= Idx::spec_index(),
    ensures
        Idx::spec_index() - p < MAX_LENGTH,
        spec_saturating_sub(Idx::spec_index(), (Idx::spec_index() - p) as nat) == p,
{
    <S as NthIndex<Idx>>::lemma_nth_in_range();
    S::lemma_len();
}

} // verus!
