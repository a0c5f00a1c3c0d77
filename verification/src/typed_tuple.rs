//! The operations on a sequence, as methods.

use vstd::prelude::*;
use crate::chain::{ChainLeft, ChainRight};
use crate::tuple_index::TupleIndex;
use crate::tuple_len::TupleLen;
use crate::typed_bounds::{spec_pop, spec_split_left, spec_split_right, TypedBounds};
use crate::typed_index::TypedIndex;
use crate::typed_swap::{spec_swap, TypedSwap};
use crate::typed_until_as::Countdown;

verus! {

/// The operations on a sequence through one of its elements, of type `T`.
///
/// Every sequence has them; each method asks in its `where` clause for the
/// position it works at. Where `T` occurs once in the sequence the position
/// follows from `T` alone and need not be written.
pub trait TypedTuple<T>: TupleLen {
    /// Get a reference to the element of type `T`.
    #[inline]
    fn get<Idx>(&self) -> (r: &T) where Self: TypedIndex<Idx, T>, Idx: TupleIndex
        ensures
            *r == TypedIndex::<Idx, T>::spec_at(self),
    {
        TypedIndex::<Idx, T>::get_at(self)
    }

    /// Get a mutable reference to the element of type `T`.
    #[inline]
    fn get_mut<Idx>(&mut self) -> (r: &mut T) where Self: TypedIndex<Idx, T>, Idx: TupleIndex
        ensures
            *r == TypedIndex::<Idx, T>::spec_at(old(self)),
            *final(self) == TypedIndex::<Idx, T>::spec_put(*old(self), *final(r)),
    {
        TypedIndex::<Idx, T>::get_mut_at(self)
    }

    /// Splits the tuple exclusively at `Idx`, returning the element and the
    /// surrounding tuples: the elements before `Idx`, the element at `Idx`,
    /// and the elements after it.
    #[inline]
    fn split_exclusive<Idx>(self) -> (r: (
        Self::SplitLeftExclusive,
        T,
        Self::SplitRightExclusive,
    )) where Self: TypedBounds<Idx, T>, Idx: Countdown
        ensures
            r == TypedBounds::<Idx, T>::spec_split_exclusive(self),
    {
        TypedBounds::<Idx, T>::split_exclusive_at(self)
    }

    /// Replaces the element of type `T` with the provided value, returning the
    /// old value.
    #[inline]
    fn replace<Idx>(&mut self, value: T) -> (r: T) where Self: TypedIndex<Idx, T>, Idx: TupleIndex
        ensures
            r == TypedIndex::<Idx, T>::spec_at(old(self)),
            *final(self) == TypedIndex::<Idx, T>::spec_put(*old(self), value),
    {
        let mut held = value;
        core::mem::swap(TypedIndex::<Idx, T>::get_mut_at(self), &mut held);
        held
    }

    /// Takes a closure, mutating the element of type `T`.
    ///
    /// The closure is called once, on the element; what it leaves there is
    /// what the sequence holds at `Idx` afterwards.
    fn apply<Idx, FN: FnOnce(&mut T)>(&mut self, f: FN) where
        Self: TypedIndex<Idx, T>,
        Idx: TupleIndex,

        requires
            forall|slot: &mut T|
                *slot == TypedIndex::<Idx, T>::spec_at(old(self)) ==> call_requires(f, (slot,)),
        ensures
            exists|slot: &mut T|
                {
                    &&& *slot == TypedIndex::<Idx, T>::spec_at(old(self))
                    &&& #[trigger] call_ensures(f, (slot,), ())
                    &&& *final(self) == TypedIndex::<Idx, T>::spec_put(*old(self), *final(slot))
                },
    {
        f(TypedIndex::<Idx, T>::get_mut_at(self));
    }

    /// Returns the outcome of the provided closure when applied to the element
    /// of type `T`.
    fn map<Idx, FN, R>(&self, f: FN) -> (r: R) where
        Self: TypedIndex<Idx, T>,
        Idx: TupleIndex,
        FN: FnOnce(&T) -> R,

        requires
            call_requires(f, (&TypedIndex::<Idx, T>::spec_at(self),)),
        ensures
            call_ensures(f, (&TypedIndex::<Idx, T>::spec_at(self),), r),
    {
        f(TypedIndex::<Idx, T>::get_at(self))
    }

    /// Returns the outcome of the provided closure when applied to a mutable
    /// reference to the element of type `T`.
    fn map_mut<Idx, FN, R>(&mut self, f: FN) -> (r: R) where
        Self: TypedIndex<Idx, T>,
        Idx: TupleIndex,
        FN: FnOnce(&mut T) -> R,

        requires
            forall|slot: &mut T|
                *slot == TypedIndex::<Idx, T>::spec_at(old(self)) ==> call_requires(f, (slot,)),
        ensures
            exists|slot: &mut T|
                {
                    &&& *slot == TypedIndex::<Idx, T>::spec_at(old(self))
                    &&& #[trigger] call_ensures(f, (slot,), r)
                    &&& *final(self) == TypedIndex::<Idx, T>::spec_put(*old(self), *final(slot))
                },
    {
        f(TypedIndex::<Idx, T>::get_mut_at(self))
    }

    /// Removes and returns the element of type `T` from the tuple, along with
    /// the remaining tuple: the elements before it chained to those after it.
    fn pop<Idx>(self) -> (r: (T, Self::PopOutput)) where Self: TypedBounds<Idx, T>, Idx: Countdown
        ensures
            r == spec_pop::<Self, Idx, T>(self),
    {
        let (left, element, right) = TypedBounds::<Idx, T>::split_exclusive_at(self);
        (element, left.chain_right(right))
    }

    /// Swaps the element at `Idx` with the element at `Other`.
    ///
    /// Both indices must contain elements of type `T`. If `Idx` == `Other`,
    /// this is a no-op.
    #[inline]
    fn swap<Idx, Other>(&mut self) where
        Self: TypedSwap<Idx, Other, T>,
        Idx: TupleIndex,
        Other: TupleIndex,

        ensures
            *final(self) == spec_swap::<Self, Idx, Other, T>(*old(self)),
    {
        TypedSwap::<Idx, Other, T>::swap_positions(self);
    }

    /// Takes the element of type `T`, replacing it with the default value.
    #[inline]
    fn take<Idx>(&mut self) -> (r: T) where Self: TypedIndex<Idx, T>, Idx: TupleIndex, T: Default
        ensures
            r == TypedIndex::<Idx, T>::spec_at(old(self)),
            call_ensures(T::default, (), TypedIndex::<Idx, T>::spec_at(final(self))),
            *final(self) == TypedIndex::<Idx, T>::spec_put(
                *old(self),
                TypedIndex::<Idx, T>::spec_at(final(self)),
            ),
    {
        let mut held = T::default();
        proof {
            TypedIndex::<Idx, T>::lemma_put(*self, held, held);
        }
        core::mem::swap(TypedIndex::<Idx, T>::get_mut_at(self), &mut held);
        held
    }

    /// Splits the tuple at `Idx` (inclusive left), returning two tuples.
    ///
    /// The element at `Idx` is included in the left tuple.
    #[inline]
    fn split_left<Idx>(self) -> (r: (Self::SplitLeftInclusive, Self::SplitRightExclusive)) where
        Self: TypedBounds<Idx, T>,
        Idx: Countdown,

        ensures
            r == spec_split_left::<Self, Idx, T>(self),
    {
        let (left_exclusive, element, right_exclusive) = TypedBounds::<Idx, T>::split_exclusive_at(
            self,
        );
        (left_exclusive.chain_right((element,)), right_exclusive)
    }

    /// Splits the tuple at `Idx` (inclusive right), returning two tuples.
    ///
    /// The element at `Idx` is included in the right tuple.
    #[inline]
    fn split_right<Idx>(self) -> (r: (Self::SplitLeftExclusive, Self::SplitRightInclusive)) where
        Self: TypedBounds<Idx, T>,
        Idx: Countdown,

        ensures
            r == spec_split_right::<Self, Idx, T>(self),
    {
        let (left_exclusive, element, right_exclusive) = TypedBounds::<Idx, T>::split_exclusive_at(
            self,
        );
        (left_exclusive, right_exclusive.chain_left((element,)))
    }

    /// Splits the tuple at `Idx` (inclusive both sides), returning two tuples.
    ///
    /// The element at `Idx` goes to the right tuple and a clone of it to the
    /// left one.
    #[inline]
    fn split_inclusive<Idx>(self) -> (r: (Self::SplitLeftInclusive,
        Self::SplitRightInclusive)) where
        Self: TypedBounds<Idx, T>,
        Idx: Countdown,
        T: Clone,

        ensures
            r.1 == spec_split_right::<Self, Idx, T>(self).1,
            exists|copy: T|
                {
                    &&& #[trigger] call_ensures(
                        T::clone,
                        (&TypedBounds::<Idx, T>::spec_split_exclusive(self).1,),
                        copy,
                    )
                    &&& r.0 == ChainRight::<(T,)>::spec_chain_right(
                        TypedBounds::<Idx, T>::spec_split_exclusive(self).0,
                        (copy,),
                    )
                },
    {
        let (left_exclusive, element, right_exclusive) = TypedBounds::<Idx, T>::split_exclusive_at(
            self,
        );
        let copy = element.clone();
        (left_exclusive.chain_right((copy,)), right_exclusive.chain_left((element,)))
    }
}

impl<T, TT: TupleLen> TypedTuple<T> for TT {
}

} // verus!
