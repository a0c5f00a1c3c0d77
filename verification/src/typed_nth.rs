//! Lookup and access at one position, under one bound.

use vstd::prelude::*;
use crate::nth_index::NthIndex;
use crate::tuple_index::TupleIndex;
use crate::typed_index::TypedIndex;

verus! {

/// Trait for accessing the nth element of a tuple by index: the element type
/// is the one that lookup names at `Idx`.
pub trait TypedNth<Idx: TupleIndex>: NthIndex<Idx> + TypedIndex<
    Idx,
    <Self as NthIndex<Idx>>::NthType,
> {

}

impl<Idx: TupleIndex, TT> TypedNth<Idx> for TT where
    TT: NthIndex<Idx> + TypedIndex<Idx, <TT as NthIndex<Idx>>::NthType>,
 {

}

} // verus!
