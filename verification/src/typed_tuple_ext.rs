//! The decomposing operations with the position in their name.

use vstd::prelude::*;
use crate::chain::ChainRight;
use crate::tuple_index::TupleIndex;
use crate::tuple_len::TupleLen;
use crate::typed_bounds::{spec_pop, spec_split_left, spec_split_right, TypedBounds};
use crate::typed_swap::{spec_swap, TypedSwap};
use crate::typed_tuple::TypedTuple;
use crate::typed_until_as::Countdown;

verus! {

/// The decomposing operations under names that say where they act; the
/// position is the only thing to write.
pub trait TypedTupleExt<T>: TupleLen {
    /// Pops the element of type `T` from the tuple, returning it along with
    /// the remaining tuple.
    #[inline]
    fn pop_at<Idx>(self) -> (r: (T, Self::PopOutput)) where Idx: Countdown, Self: TypedBounds<Idx,
        T>
        ensures
            r == spec_pop::<Self, Idx, T>(self),
    {
        <Self as TypedTuple<T>>::pop::<Idx>(self)
    }

    /// Swaps the element of type `T` at `Idx` with the element at `Other`.
    ///
    /// Both indices must contain elements of type `T`. If `Idx` == `Other`,
    /// this is a no-op.
    #[inline]
    fn swap_at<Idx, Other>(&mut self) where
        Self: TypedSwap<Idx, Other, T>,
        Idx: TupleIndex,
        Other: TupleIndex,

        ensures
            *final(self) == spec_swap::<Self, Idx, Other, T>(*old(self)),
    {
        <Self as TypedTuple<T>>::swap::<Idx, Other>(self);
    }

    /// Splits the tuple at `Idx` (inclusive left), returning two tuples.
    #[inline]
    fn split_left_at<Idx>(self) -> (r: (Self::SplitLeftInclusive, Self::SplitRightExclusive)) where
        Idx: Countdown,
        Self: TypedBounds<Idx, T>,

        ensures
            r == spec_split_left::<Self, Idx, T>(self),
    {
        <Self as TypedTuple<T>>::split_left::<Idx>(self)
    }

    /// Splits the tuple at `Idx` (inclusive right), returning two tuples.
    #[inline]
    fn split_right_at<Idx>(self) -> (r: (Self::SplitLeftExclusive, Self::SplitRightInclusive)) where
        Idx: Countdown,
        Self: TypedBounds<Idx, T>,

        ensures
            r == spec_split_right::<Self, Idx, T>(self),
    {
        <Self as TypedTuple<T>>::split_right::<Idx>(self)
    }

    /// Splits the tuple at `Idx` (inclusive both sides), returning two tuples.
    ///
    /// The element at `Idx` goes to the right tuple and a clone of it to the
    /// left one.
    #[inline]
    fn split_inclusive_at<Idx>(self) -> (r: (
        Self::SplitLeftInclusive,
        Self::SplitRightInclusive,
    )) where Idx: Countdown, Self: TypedBounds<Idx, T>, T: Clone
        ensures
            r.1 == spec_split_right::<Self, Idx, T>(self).1,
            exists|copy: T|
                {
                    &&& #[trigger] call_ensures(
                        T::clone,
                        (&TypedBounds::<Idx, T>::spec_split_exclusive(self).1,),
                        copy,
                    )
                    &&& r.0 == ChainRight::<(T,)>::spec_chain_right(
                        TypedBounds::<Idx, T>::spec_split_exclusive(self).0,
                        (copy,),
                    )
                },
    {
        <Self as TypedTuple<T>>::split_inclusive::<Idx>(self)
    }
}

impl<T, TT: TupleLen> TypedTupleExt<T> for TT {
}

} // verus!
