//! The first element of a sequence.

use vstd::prelude::*;
use crate::chain::{ChainLeft, ChainRight};
use crate::tuple_index::TupleIndex0;
use crate::typed_bounds::{spec_split_left, spec_split_right, TypedBounds};
use crate::typed_index::TypedIndex;

verus! {

/// Trait for accessing the first element of a tuple by type.
///
/// It holds of the sequences whose first element has type `T`. Nothing
/// stands before that element, so the left part of a split there is empty
/// and the right part, with the element, is the whole sequence.
pub trait TypedFirst<T>: TypedBounds<
    TupleIndex0,
    T,
    SplitLeftInclusive = (T,),
    SplitLeftExclusive = (),
    SplitRightInclusive = Self,
> {

}

impl<T, TT> TypedFirst<T> for TT where
    TT: TypedBounds<
        TupleIndex0,
        T,
        SplitLeftInclusive = (T,),
        SplitLeftExclusive = (),
        SplitRightInclusive = TT,
    >,
 {

}

/// Splitting at the first element: the left part holds that element and
/// nothing else, and the right part that keeps it is the sequence itself.
pub proof fn lemma_split_at_first<T, S: TypedFirst<T>>(s: S)
    ensures
        spec_split_left::<S, TupleIndex0, T>(s).0 == (TypedIndex::<TupleIndex0, T>::spec_at(&s),),
        spec_split_right::<S, TupleIndex0, T>(s).1 == s,
{
    TypedBounds::<TupleIndex0, T>::lemma_split_shape(s);
    TypedBounds::<TupleIndex0, T>::lemma_split_rejoin(s);
}

} // verus!
