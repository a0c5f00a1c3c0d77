//! Splitting at a bound, by another name.

use vstd::prelude::*;
use crate::chain::ChainRight;
use crate::tuple_len::TupleLen;
use crate::typed_split::TypedSplit;

verus! {

/// Splitting at a bound, by another name: whatever has [`TypedSplit`] has
/// `TypedBound`, and the two split alike.
pub trait TypedBound<const INDEX: usize, L, R>: Sized {
    /// The two parts: the elements before `INDEX`, and the others.
    spec fn spec_parts(self) -> (L, R);

    /// Split a tuple by specifying the leftmost elements, rightmost elements, or
    /// the (left-exclusive/right-inclusive) center bound index `INDEX`.
    fn split(self) -> (r: (L, R))
        ensures
            r == self.spec_parts(),
    ;
}

impl<const INDEX: usize, L, R, TT> TypedBound<INDEX, L, R> for TT where
    L: ChainRight<R>,
    R: TupleLen,
    TT: TypedSplit<INDEX, L, R>,
 {
    open spec fn spec_parts(self) -> (L, R) {
        TypedSplit::<INDEX, L, R>::spec_split(self)
    }

    fn split(self) -> (r: (L, R)) {
        TypedSplit::<INDEX, L, R>::split(self)
    }
}

} // verus!
