//! Lookup, access and decomposition at one position, under one bound.

use vstd::prelude::*;
use crate::typed_until_as::Countdown;
use crate::typed_bounds::TypedBounds;

verus! {

/// Trait for mapping an index to a type: lookup through `Idx`, access at
/// `Idx` and decomposition around it, under one name.
pub trait IndexedTuple<Idx: Countdown, T>: TypedBounds<Idx, T> {

}

impl<Idx: Countdown, T, TT> IndexedTuple<Idx, T> for TT where
    TT: TypedBounds<Idx, T>,
 {

}

} // verus!
