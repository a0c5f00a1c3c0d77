//! Positions named by marker types.

use vstd::prelude::*;
use crate::tuple_index::TupleIndex;

verus! {

/// Helper trait to associate a marker type with a tuple index.
///
/// A marker implements it for each sequence type `TT` in which it names an
/// element, and says at which position. Code that is generic over the
/// sequence can then reach the element through the marker, wherever it
/// stands.
pub trait TupleKey<TT> {
    /// The index of the element associated with the marker type.
    type Idx: TupleIndex;
}

} // verus!
