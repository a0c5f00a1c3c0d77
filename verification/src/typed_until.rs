//! Access at every position from the first one through `Idx`, and agreement of
//! two sequences in the elements they hold there.

use vstd::prelude::*;
use crate::nth_index::NthIndex;
use crate::tuple_index::{
    TupleIndex, TupleIndex0, TupleIndex1, TupleIndex2, TupleIndex3, TupleIndex4, TupleIndex5,
    TupleIndex6, TupleIndex7, TupleIndex8, TupleIndex9, TupleIndex10, TupleIndex11,
};
use crate::typed_index::TypedIndex;
use crate::typed_until_as::{Back, Countdown, NthIndexedAs, NthIndexedUntil};

verus! {

/// Access is available at `Idx` and at every position before it, each with
/// the element type that lookup names there.
pub trait TypedUntil<Idx: Countdown>: NthIndexedUntil<Idx>
    + TypedIndex<Idx, <Self as NthIndex<Idx>>::NthType>
    + TypedIndex<Back<Idx, TupleIndex1>, <Self as NthIndex<Back<Idx, TupleIndex1>>>::NthType>
    + TypedIndex<Back<Idx, TupleIndex2>, <Self as NthIndex<Back<Idx, TupleIndex2>>>::NthType>
    + TypedIndex<Back<Idx, TupleIndex3>, <Self as NthIndex<Back<Idx, TupleIndex3>>>::NthType>
    + TypedIndex<Back<Idx, TupleIndex4>, <Self as NthIndex<Back<Idx, TupleIndex4>>>::NthType>
    + TypedIndex<Back<Idx, TupleIndex5>, <Self as NthIndex<Back<Idx, TupleIndex5>>>::NthType>
    + TypedIndex<Back<Idx, TupleIndex6>, <Self as NthIndex<Back<Idx, TupleIndex6>>>::NthType>
    + TypedIndex<Back<Idx, TupleIndex7>, <Self as NthIndex<Back<Idx, TupleIndex7>>>::NthType>
    + TypedIndex<Back<Idx, TupleIndex8>, <Self as NthIndex<Back<Idx, TupleIndex8>>>::NthType>
    + TypedIndex<Back<Idx, TupleIndex9>, <Self as NthIndex<Back<Idx, TupleIndex9>>>::NthType>
    + TypedIndex<Back<Idx, TupleIndex10>, <Self as NthIndex<Back<Idx, TupleIndex10>>>::NthType>
    + TypedIndex<Back<Idx, TupleIndex11>, <Self as NthIndex<Back<Idx, TupleIndex11>>>::NthType>
{
}

impl<TT, Idx: Countdown> TypedUntil<Idx> for TT where
    TT: NthIndexedUntil<Idx>
        + TypedIndex<Idx, <TT as NthIndex<Idx>>::NthType>
        + TypedIndex<Back<Idx, TupleIndex1>, <TT as NthIndex<Back<Idx, TupleIndex1>>>::NthType>
        + TypedIndex<Back<Idx, TupleIndex2>, <TT as NthIndex<Back<Idx, TupleIndex2>>>::NthType>
        + TypedIndex<Back<Idx, TupleIndex3>, <TT as NthIndex<Back<Idx, TupleIndex3>>>::NthType>
        + TypedIndex<Back<Idx, TupleIndex4>, <TT as NthIndex<Back<Idx, TupleIndex4>>>::NthType>
        + TypedIndex<Back<Idx, TupleIndex5>, <TT as NthIndex<Back<Idx, TupleIndex5>>>::NthType>
        + TypedIndex<Back<Idx, TupleIndex6>, <TT as NthIndex<Back<Idx, TupleIndex6>>>::NthType>
        + TypedIndex<Back<Idx, TupleIndex7>, <TT as NthIndex<Back<Idx, TupleIndex7>>>::NthType>
        + TypedIndex<Back<Idx, TupleIndex8>, <TT as NthIndex<Back<Idx, TupleIndex8>>>::NthType>
        + TypedIndex<Back<Idx, TupleIndex9>, <TT as NthIndex<Back<Idx, TupleIndex9>>>::NthType>
        + TypedIndex<Back<Idx, TupleIndex10>, <TT as NthIndex<Back<Idx, TupleIndex10>>>::NthType>
        + TypedIndex<Back<Idx, TupleIndex11>, <TT as NthIndex<Back<Idx, TupleIndex11>>>::NthType>,
{
}

/// `a` and `b` hold the same element at position `Idx`.
pub open spec fn spec_same_at<Idx, A, B>(a: &A, b: &B) -> bool where
    Idx: TupleIndex,
    B: NthIndex<Idx> + TypedIndex<Idx, <B as NthIndex<Idx>>::NthType>,
    A: TypedIndex<Idx, <B as NthIndex<Idx>>::NthType>,
 {
    TypedIndex::<Idx, <B as NthIndex<Idx>>::NthType>::spec_at(a) == TypedIndex::<
        Idx,
        <B as NthIndex<Idx>>::NthType,
    >::spec_at(b)
}

/// `a` and `b` hold the same elements at `Idx` and at every position before
/// it: `a` begins as `b` does.
pub open spec fn spec_same_through<Idx, A, B>(a: &A, b: &B) -> bool where
    Idx: Countdown,
    B: TypedUntil<Idx>,
    A: TypedUntil<Idx> + NthIndexedAs<Idx, B>,
 {
    &&& spec_same_at::<Idx, A, B>(a, b)
    &&& spec_same_at::<Back<Idx, TupleIndex1>, A, B>(a, b)
    &&& spec_same_at::<Back<Idx, TupleIndex2>, A, B>(a, b)
    &&& spec_same_at::<Back<Idx, TupleIndex3>, A, B>(a, b)
    &&& spec_same_at::<Back<Idx, TupleIndex4>, A, B>(a, b)
    &&& spec_same_at::<Back<Idx, TupleIndex5>, A, B>(a, b)
    &&& spec_same_at::<Back<Idx, TupleIndex6>, A, B>(a, b)
    &&& spec_same_at::<Back<Idx, TupleIndex7>, A, B>(a, b)
    &&& spec_same_at::<Back<Idx, TupleIndex8>, A, B>(a, b)
    &&& spec_same_at::<Back<Idx, TupleIndex9>, A, B>(a, b)
    &&& spec_same_at::<Back<Idx, TupleIndex10>, A, B>(a, b)
    &&& spec_same_at::<Back<Idx, TupleIndex11>, A, B>(a, b)
}

/// A sequence begins as itself.
pub proof fn lemma_same_through_itself<Idx, S>(s: &S) where Idx: Countdown, S: TypedUntil<Idx>
    ensures
        spec_same_through::<Idx, S, S>(s, s),
{
}

} // verus!
