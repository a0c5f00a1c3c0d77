//! The last element of a sequence.

use vstd::prelude::*;
use crate::chain::ChainRight;
use crate::last_index::LastIndex;
use crate::nth_index::NthIndex;
use crate::typed_bounds::{spec_split_left, spec_split_right, TypedBounds};
use crate::typed_index::TypedIndex;
use crate::typed_until::TypedUntil;

verus! {

/// Trait for accessing the last element of a tuple by type.
///
/// It holds of the sequences whose last element has type `T`. Nothing
/// stands after that element, so the right part of a split there is empty
/// and the left part, with the element, is the whole sequence.
pub trait TypedLast<T>: LastIndex + NthIndex<<Self as LastIndex>::Last, NthType = T> + TypedUntil<
    <Self as LastIndex>::Last,
> + TypedBounds<
    <Self as LastIndex>::Last,
    T,
    SplitRightInclusive = (T,),
    SplitLeftInclusive = Self,
    SplitRightExclusive = (),
> {

}

impl<T, TT> TypedLast<T> for TT where
    TT: LastIndex + NthIndex<<TT as LastIndex>::Last, NthType = T> + TypedUntil<
        <TT as LastIndex>::Last,
    > + TypedBounds<
        <TT as LastIndex>::Last,
        T,
        SplitRightInclusive = (T,),
        SplitLeftInclusive = TT,
        SplitRightExclusive = (),
    >,
 {

}

/// Splitting at the last element: the right part holds that element and
/// nothing else, and the left part that keeps it is the sequence itself.
pub proof fn lemma_split_at_last<T, S: TypedLast<T>>(s: S)
    ensures
        spec_split_right::<S, <S as LastIndex>::Last, T>(s).1 == (
            TypedIndex::<<S as LastIndex>::Last, T>::spec_at(&s),
        ),
        spec_split_left::<S, <S as LastIndex>::Last, T>(s).0 == s,
{
    TypedBounds::<<S as LastIndex>::Last, T>::lemma_split_shape(s);
    TypedBounds::<<S as LastIndex>::Last, T>::lemma_split_rejoin(s);
}

} // verus!
