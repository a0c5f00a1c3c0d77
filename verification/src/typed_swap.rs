//! Exchange of two elements of the same type.

use vstd::prelude::*;
use crate::tuple_index::{
    Position, TupleIndex, TupleIndex0, TupleIndex1, TupleIndex2, TupleIndex3, TupleIndex4,
    TupleIndex5, TupleIndex6, TupleIndex7, TupleIndex8, TupleIndex9, TupleIndex10, TupleIndex11,
};
use crate::typed_index::TypedIndex;

verus! {

/// Two positions of one sequence that hold the same type `T`, borrowed at
/// once.
///
/// Where `Idx` and `Other` differ they name two separate fields, which is
/// what lets both be borrowed mutably at the same time.
pub trait TypedSwap<Idx: TupleIndex, Other: TupleIndex, T>: TypedIndex<Idx, T> + TypedIndex<
    Other,
    T,
> {
    /// Exchanges the elements at `Idx` and `Other`.
    fn swap_positions(&mut self)
        ensures
            *final(self) == spec_swap::<Self, Idx, Other, T>(*old(self)),
    ;

    /// Equal positions are one slot; different positions are independent
    /// slots: writing one leaves the other as it was, in either order.
    proof fn lemma_pair(self, a: T, b: T)
        ensures
            Idx::spec_index() == Other::spec_index() ==> {
                &&& TypedIndex::<Idx, T>::spec_at(&self) == TypedIndex::<Other, T>::spec_at(&self)
                &&& TypedIndex::<Idx, T>::spec_put(self, a) == TypedIndex::<Other, T>::spec_put(
                    self,
                    a,
                )
            },
            Idx::spec_index() != Other::spec_index() ==> {
                &&& TypedIndex::<Other, T>::spec_at(&TypedIndex::<Idx, T>::spec_put(self, a))
                    == TypedIndex::<Other, T>::spec_at(&self)
                &&& TypedIndex::<Idx, T>::spec_at(&TypedIndex::<Other, T>::spec_put(self, b))
                    == TypedIndex::<Idx, T>::spec_at(&self)
                &&& TypedIndex::<Other, T>::spec_put(TypedIndex::<Idx, T>::spec_put(self, a), b)
                    == TypedIndex::<Idx, T>::spec_put(TypedIndex::<Other, T>::spec_put(self, b), a)
            },
    ;
}

/// The sequence with the elements at positions `A` and `B` exchanged: what
/// was at `B` is put at `A`, then what was at `A` is put at `B`.
pub open spec fn spec_swap<S, A, B, T>(s: S) -> S where
    S: TypedIndex<A, T> + TypedIndex<B, T>,
    A: TupleIndex,
    B: TupleIndex,
 {
    TypedIndex::<B, T>::spec_put(
        TypedIndex::<A, T>::spec_put(s, TypedIndex::<B, T>::spec_at(&s)),
        TypedIndex::<A, T>::spec_at(&s),
    )
}

/// Exchanging a position with itself is a no-op.
pub proof fn lemma_swap_same<S, A, T>(s: S) where S: TypedIndex<A, T>, A: TupleIndex
    ensures
        spec_swap::<S, A, A, T>(s) == s,
{
    let x = TypedIndex::<A, T>::spec_at(&s);
    TypedIndex::<A, T>::lemma_put(s, x, x);
}

/// Exchanging the same two positions twice restores the sequence.
pub proof fn lemma_swap_involution<S, A, B, T>(s: S) where
    S: TypedSwap<A, B, T>,
    A: TupleIndex,
    B: TupleIndex,

    ensures
        spec_swap::<S, A, B, T>(spec_swap::<S, A, B, T>(s)) == s,
{
    let a = TypedIndex::<A, T>::spec_at(&s);
    let b = TypedIndex::<B, T>::spec_at(&s);
    let once = TypedIndex::<A, T>::spec_put(s, b);
    TypedIndex::<A, T>::lemma_put(s, b, a);
    TypedIndex::<B, T>::lemma_put(s, a, b);
    if A::spec_index() == B::spec_index() {
        // One slot: the exchange writes back what it read.
        TypedSwap::<A, B, T>::lemma_pair(s, a, a);
    } else {
        // Two slots: the first exchange leaves `b` at `A` and `a` at `B`,
        // and the second one writes each back where it came from.
        TypedSwap::<A, B, T>::lemma_pair(once, a, a);
        TypedIndex::<B, T>::lemma_put(once, a, a);
    }
}

impl<Idx: TupleIndex, T, TT: TypedIndex<Idx, T>> TypedSwap<Idx, Idx, T> for TT {
    fn swap_positions(&mut self) {
        proof {
            lemma_swap_same::<TT, Idx, T>(*self);
        }
    }

    proof fn lemma_pair(self, a: T, b: T) {
    }
}

impl<T> TypedSwap<TupleIndex0, TupleIndex1, T> for (T, T) {
    fn swap_positions(&mut self) {
        core::mem::swap(&mut self.0, &mut self.1);
    }

    proof fn lemma_pair(self, a: T, b: T) {
    }
}

impl<T> TypedSwap<TupleIndex1, TupleIndex0, T> for (T, T) {
    fn swap_positions(&mut self) {
        core::mem::swap(&mut self.1, &mut self.0);
    }

    proof fn lemma_pair(self, a: T, b: T) {
    }
}

impl<T, T2> TypedSwap<TupleIndex0, TupleIndex1, T> for (T, T, T2) {
    fn swap_positions(&mut self) {
        core::mem::swap(&mut self.0, &mut self.1);
    }

    proof fn lemma_pair(self, a: T, b: T) {
    }
}

impl<T, T1> TypedSwap<TupleIndex0, TupleIndex2, T> for (T, T1, T) {
    fn swap_positions(&mut self) {
        core::mem::swap(&mut self.0, &mut self.2);
    }

    proof fn lemma_pair(self, a: T, b: T) {
    }
}

impl<T, T2> TypedSwap<TupleIndex1, TupleIndex0, T> for (T, T, T2) {
    fn swap_positions(&mut self) {
        core::mem::swap(&mut self.1, &mut self.0);
    }

    proof fn lemma_pair(self, a: T, b: T) {
    }
}

impl<T, T0> TypedSwap<TupleIndex1, TupleIndex2, T> for (T0, T, T) {
    fn swap_positions(&mut self) {
        core::mem::swap(&mut self.1, &mut self.2);
    }

    proof fn lemma_pair(self, a: T, b: T) {
    }
}

impl<T, T1> TypedSwap<TupleIndex2, TupleIndex0, T> for (T, T1, T) {
    fn swap_positions(&mut self) {
        core::mem::swap(&mut self.2, &mut self.0);
    }

    proof fn lemma_pair(self, a: T, b: T) {
    }
}

impl<T, T0> TypedSwap<TupleIndex2, TupleIndex1, T> for (T0, T, T) {
    fn swap_positions(&mut self) {
        core::mem::swap(&mut self.2, &mut self.1);
    }

    proof fn lemma_pair(self, a: T, b: T) {
    }
}

impl<T, T2, T3> TypedSwap<TupleIndex0, TupleIndex1, T> for (T, T, T2, T3) {
    fn swap_positions(&mut self) {
        core::mem::swap(&mut self.0, &mut self.1);
    }

    proof fn lemma_pair(self, a: T, b: T) {
    }
}

impl<T, T1, T3> TypedSwap<TupleIndex0, TupleIndex2, T> for (T, T1, T, T3) {
    fn swap_positions(&mut self) {
        core::mem::swap(&mut self.0, &mut self.2);
    }

    proof fn lemma_pair(self, a: T, b: T) {
    }
}

impl<T, T1, T2> TypedSwap<TupleIndex0, TupleIndex3, T> for (T, T1, T2, T) {
    fn swap_positions(&mut self) {
        core::mem::swap(&mut self.0, &mut self.3);
    }

    proof fn lemma_pair(self, a: T, b: T) {
    }
}

impl<T, T2, T3> TypedSwap<TupleIndex1, TupleIndex0, T> for (T, T, T2, T3) {
    fn swap_positions(&mut self) {
        core::mem::swap(&mut self.1, &mut self.0);
    }

    proof fn lemma_pair(self, a: T, b: T) {
    }
}

impl<T, T0, T3> TypedSwap<TupleIndex1, TupleIndex2, T> for (T0, T, T, T3) {
    fn swap_positions(&mut self) {
        core::mem::swap(&mut self.1, &mut self.2);
    }

    proof fn lemma_pair(self, a: T, b: T) {
    }
}

impl<T, T0, T2> TypedSwap<TupleIndex1, TupleIndex3, T> for (T0, T, T2, T) {
    fn swap_positions(&mut self) {
        core::mem::swap(&mut self.1, &mut self.3);
    }

    proof fn lemma_pair(self, a: T, b: T) {
    }
}

impl<T, T1, T3> TypedSwap<TupleIndex2, TupleIndex0, T> for (T, T1, T, T3) {
    fn swap_positions(&mut self) {
        core::mem::swap(&mut self.2, &mut self.0);
    }

    proof fn lemma_pair(self, a: T, b: T) {
    }
}

impl<T, T0, T3> TypedSwap<TupleIndex2, TupleIndex1, T> for (T0, T, T, T3) {
    fn swap_positions(&mut self) {
        core::mem::swap(&mut self.2, &mut self.1);
    }

    proof fn lemma_pair(self, a: T, b: T) {
    }
}

impl<T, T0, T1> TypedSwap<TupleIndex2, TupleIndex3, T> for (T0, T1, T, T) {
    fn swap_positions(&mut self) {
        core::mem::swap(&mut self.2, &mut self.3);
    }

    proof fn lemma_pair(self, a: T, b: T) {
    }
}

impl<T, T1, T2> TypedSwap<TupleIndex3, TupleIndex0, T> for (T, T1, T2, T) {
    fn swap_positions(&mut self) {
        core::mem::swap(&mut self.3, &mut self.0);
    }

    proof fn lemma_pair(self, a: T, b: T) {
    }
}

impl<T, T0, T2> TypedSwap<TupleIndex3, TupleIndex1, T> for (T0, T, T2, T) {
    fn swap_positions(&mut self) {
        core::mem::swap(&mut self.3, &mut self.1);
    }

    proof fn lemma_pair(self, a: T, b: T) {
    }
}

impl<T, T0, T1> TypedSwap<TupleIndex3, TupleIndex2, T> for (T0, T1, T, T) {
    fn swap_positions(&mut self) {
        core::mem::swap(&mut self.3, &mut self.2);
    }

    proof fn lemma_pair(self, a: T, b: T) {
    }
}

impl<T, T2, T3, T4> TypedSwap<TupleIndex0, TupleIndex1, T> for (T, T, T2, T3, T4) {
    fn swap_positions(&mut self) {
        core::mem::swap(&mut self.0, &mut self.1);
    }

    proof fn lemma_pair(self, a: T, b: T) {
    }
}

impl<T, T1, T3, T4> TypedSwap<TupleIndex0, TupleIndex2, T> for (T, T1, T, T3, T4) {
    fn swap_positions(&mut self) {
        core::mem::swap(&mut self.0, &mut self.2);
    }

    proof fn lemma_pair(self, a: T, b: T) {
    }
}

impl<T, T1, T2, T4> TypedSwap<TupleIndex0, TupleIndex3, T> for (T, T1, T2, T, T4) {
    fn swap_positions(&mut self) {
        core::mem::swap(&mut self.0, &mut self.3);
    }

    proof fn lemma_pair(self, a: T, b: T) {
    }
}

impl<T, T1, T2, T3> TypedSwap<TupleIndex0, TupleIndex4, T> for (T, T1, T2, T3, T) {
    fn swap_positions(&mut self) {
        core::mem::swap(&mut self.0, &mut self.4);
    }

    proof fn lemma_pair(self, a: T, b: T) {
    }
}

impl<T, T2, T3, T4> TypedSwap<TupleIndex1, TupleIndex0, T> for (T, T, T2, T3, T4) {
    fn swap_positions(&mut self) {
        core::mem::swap(&mut self.1, &mut self.0);
    }

    proof fn lemma_pair(self, a: T, b: T) {
    }
}

impl<T, T0, T3, T4> TypedSwap<TupleIndex1, TupleIndex2, T> for (T0, T, T, T3, T4) {
    fn swap_positions(&mut self) {
        core::mem::swap(&mut self.1, &mut self.2);
    }

    proof fn lemma_pair(self, a: T, b: T) {
    }
}

impl<T, T0, T2, T4> TypedSwap<TupleIndex1, TupleIndex3, T> for (T0, T, T2, T, T4) {
    fn swap_positions(&mut self) {
        core::mem::swap(&mut self.1, &mut self.3);
    }

    proof fn lemma_pair(self, a: T, b: T) {
    }
}

impl<T, T0, T2, T3> TypedSwap<TupleIndex1, TupleIndex4, T> for (T0, T, T2, T3, T) {
    fn swap_positions(&mut self) {
        core::mem::swap(&mut self.1, &mut self.4);
    }

    proof fn lemma_pair(self, a: T, b: T) {
    }
}

impl<T, T1, T3, T4> TypedSwap<TupleIndex2, TupleIndex0, T> for (T, T1, T, T3, T4) {
    fn swap_positions(&mut self) {
        core::mem::swap(&mut self.2, &mut self.0);
    }

    proof fn lemma_pair(self, a: T, b: T) {
    }
}

impl<T, T0, T3, T4> TypedSwap<TupleIndex2, TupleIndex1, T> for (T0, T, T, T3, T4) {
    fn swap_positions(&mut self) {
        core::mem::swap(&mut self.2, &mut self.1);
    }

    proof fn lemma_pair(self, a: T, b: T) {
    }
}

impl<T, T0, T1, T4> TypedSwap<TupleIndex2, TupleIndex3, T> for (T0, T1, T, T, T4) {
    fn swap_positions(&mut self) {
        core::mem::swap(&mut self.2, &mut self.3);
    }

    proof fn lemma_pair(self, a: T, b: T) {
    }
}

impl<T, T0, T1, T3> TypedSwap<TupleIndex2, TupleIndex4, T> for (T0, T1, T, T3, T) {
    fn swap_positions(&mut self) {
        core::mem::swap(&mut self.2, &mut self.4);
    }

    proof fn lemma_pair(self, a: T, b: T) {
    }
}

impl<T, T1, T2, T4> TypedSwap<TupleIndex3, TupleIndex0, T> for (T, T1, T2, T, T4) {
    fn swap_positions(&mut self) {
        core::mem::swap(&mut self.3, &mut self.0);
    }

    proof fn lemma_pair(self, a: T, b: T) {
    }
}

impl<T, T0, T2, T4> TypedSwap<TupleIndex3, TupleIndex1, T> for (T0, T, T2, T, T4) {
    fn swap_positions(&mut self) {
        core::mem::swap(&mut self.3, &mut self.1);
    }

    proof fn lemma_pair(self, a: T, b: T) {
    }
}

impl<T, T0, T1, T4> TypedSwap<TupleIndex3, TupleIndex2, T> for (T0, T1, T, T, T4) {
    fn swap_positions(&mut self) {
        core::mem::swap(&mut self.3, &mut self.2);
    }

    proof fn lemma_pair(self, a: T, b: T) {
    }
}

impl<T, T0, T1, T2> TypedSwap<TupleIndex3, TupleIndex4, T> for (T0, T1, T2, T, T) {
    fn swap_positions(&mut self) {
        core::mem::swap(&mut self.3, &mut self.4);
    }

    proof fn lemma_pair(self, a: T, b: T) {
    }
}

impl<T, T1, T2, T3> TypedSwap<TupleIndex4, TupleIndex0, T> for (T, T1, T2, T3, T) {
    fn swap_positions(&mut self) {
        core::mem::swap(&mut self.4, &mut self.0);
    }

    proof fn lemma_pair(self, a: T, b: T) {
    }
}

impl<T, T0, T2, T3> TypedSwap<TupleIndex4, TupleIndex1, T> for (T0, T, T2, T3, T) {
    fn swap_positions(&mut self) {
        core::mem::swap(&mut self.4, &mut self.1);
    }

    proof fn lemma_pair(self, a: T, b: T) {
    }
}

impl<T, T0, T1, T3> TypedSwap<TupleIndex4, TupleIndex2, T> for (T0, T1, T, T3, T) {
    fn swap_positions(&mut self) {
        core::mem::swap(&mut self.4, &mut self.2);
    }

    proof fn lemma_pair(self, a: T, b: T) {
    }
}

impl<T, T0, T1, T2> TypedSwap<TupleIndex4, TupleIndex3, T> for (T0, T1, T2, T, T) {
    fn swap_positions(&mut self) {
        core::mem::swap(&mut self.4, &mut self.3);
    }

    proof fn lemma_pair(self, a: T, b: T) {
    }
}

impl<T, T2, T3, T4, T5> TypedSwap<TupleIndex0, TupleIndex1, T> for (T, T, T2, T3, T4, T5) {
    fn swap_positions(&mut self) {
        core::mem::swap(&mut self.0, &mut self.1);
    }

    proof fn lemma_pair(self, a: T, b: T) {
    }
}

impl<T, T1, T3, T4, T5> TypedSwap<TupleIndex0, TupleIndex2, T> for (T, T1, T, T3, T4, T5) {
    fn swap_positions(&mut self) {
        core::mem::swap(&mut self.0, &mut self.2);
    }

    proof fn lemma_pair(self, a: T, b: T) {
    }
}

impl<T, T1, T2, T4, T5> TypedSwap<TupleIndex0, TupleIndex3, T> for (T, T1, T2, T, T4, T5) {
    fn swap_positions(&mut self) {
        core::mem::swap(&mut self.0, &mut self.3);
    }

    proof fn lemma_pair(self, a: T, b: T) {
    }
}

impl<T, T1, T2, T3, T5> TypedSwap<TupleIndex0, TupleIndex4, T> for (T, T1, T2, T3, T, T5) {
    fn swap_positions(&mut self) {
        core::mem::swap(&mut self.0, &mut self.4);
    }

    proof fn lemma_pair(self, a: T, b: T) {
    }
}

impl<T, T1, T2, T3, T4> TypedSwap<TupleIndex0, TupleIndex5, T> for (T, T1, T2, T3, T4, T) {
    fn swap_positions(&mut self) {
        core::mem::swap(&mut self.0, &mut self.5);
    }

    proof fn lemma_pair(self, a: T, b: T) {
    }
}

impl<T, T2, T3, T4, T5> TypedSwap<TupleIndex1, TupleIndex0, T> for (T, T, T2, T3, T4, T5) {
    fn swap_positions(&mut self) {
        core::mem::swap(&mut self.1, &mut self.0);
    }

    proof fn lemma_pair(self, a: T, b: T) {
    }
}

impl<T, T0, T3, T4, T5> TypedSwap<TupleIndex1, TupleIndex2, T> for (T0, T, T, T3, T4, T5) {
    fn swap_positions(&mut self) {
        core::mem::swap(&mut self.1, &mut self.2);
    }

    proof fn lemma_pair(self, a: T, b: T) {
    }
}

impl<T, T0, T2, T4, T5> TypedSwap<TupleIndex1, TupleIndex3, T> for (T0, T, T2, T, T4, T5) {
    fn swap_positions(&mut self) {
        core::mem::swap(&mut self.1, &mut self.3);
    }

    proof fn lemma_pair(self, a: T, b: T) {
    }
}

impl<T, T0, T2, T3, T5> TypedSwap<TupleIndex1, TupleIndex4, T> for (T0, T, T2, T3, T, T5) {
    fn swap_positions(&mut self) {
        core::mem::swap(&mut self.1, &mut self.4);
    }

    proof fn lemma_pair(self, a: T, b: T) {
    }
}

impl<T, T0, T2, T3, T4> TypedSwap<TupleIndex1, TupleIndex5, T> for (T0, T, T2, T3, T4, T) {
    fn swap_positions(&mut self) {
        core::mem::swap(&mut self.1, &mut self.5);
    }

    proof fn lemma_pair(self, a: T, b: T) {
    }
}

impl<T, T1, T3, T4, T5> TypedSwap<TupleIndex2, TupleIndex0, T> for (T, T1, T, T3, T4, T5) {
    fn swap_positions(&mut self) {
        core::mem::swap(&mut self.2, &mut self.0);
    }

    proof fn lemma_pair(self, a: T, b: T) {
    }
}

impl<T, T0, T3, T4, T5> TypedSwap<TupleIndex2, TupleIndex1, T> for (T0, T, T, T3, T4, T5) {
    fn swap_positions(&mut self) {
        core::mem::swap(&mut self.2, &mut self.1);
    }

    proof fn lemma_pair(self, a: T, b: T) {
    }
}

impl<T, T0, T1, T4, T5> TypedSwap<TupleIndex2, TupleIndex3, T> for (T0, T1, T, T, T4, T5) {
    fn swap_positions(&mut self) {
        core::mem::swap(&mut self.2, &mut self.3);
    }

    proof fn lemma_pair(self, a: T, b: T) {
    }
}

impl<T, T0, T1, T3, T5> TypedSwap<TupleIndex2, TupleIndex4, T> for (T0, T1, T, T3, T, T5) {
    fn swap_positions(&mut self) {
        core::mem::swap(&mut self.2, &mut self.4);
    }

    proof fn lemma_pair(self, a: T, b: T) {
    }
}

impl<T, T0, T1, T3, T4> TypedSwap<TupleIndex2, TupleIndex5, T> for (T0, T1, T, T3, T4, T) {
    fn swap_positions(&mut self) {
        core::mem::swap(&mut self.2, &mut self.5);
    }

    proof fn lemma_pair(self, a: T, b: T) {
    }
}

impl<T, T1, T2, T4, T5> TypedSwap<TupleIndex3, TupleIndex0, T> for (T, T1, T2, T, T4, T5) {
    fn swap_positions(&mut self) {
        core::mem::swap(&mut self.3, &mut self.0);
    }

    proof fn lemma_pair(self, a: T, b: T) {
    }
}

impl<T, T0, T2, T4, T5> TypedSwap<TupleIndex3, TupleIndex1, T> for (T0, T, T2, T, T4, T5) {
    fn swap_positions(&mut self) {
        core::mem::swap(&mut self.3, &mut self.1);
    }

    proof fn lemma_pair(self, a: T, b: T) {
    }
}

impl<T, T0, T1, T4, T5> TypedSwap<TupleIndex3, TupleIndex2, T> for (T0, T1, T, T, T4, T5) {
    fn swap_positions(&mut self) {
        core::mem::swap(&mut self.3, &mut self.2);
    }

    proof fn lemma_pair(self, a: T, b: T) {
    }
}

impl<T, T0, T1, T2, T5> TypedSwap<TupleIndex3, TupleIndex4, T> for (T0, T1, T2, T, T, T5) {
    fn swap_positions(&mut self) {
        core::mem::swap(&mut self.3, &mut self.4);
    }

    proof fn lemma_pair(self, a: T, b: T) {
    }
}

impl<T, T0, T1, T2, T4> TypedSwap<TupleIndex3, TupleIndex5, T> for (T0, T1, T2, T, T4, T) {
    fn swap_positions(&mut self) {
        core::mem::swap(&mut self.3, &mut self.5);
    }

    proof fn lemma_pair(self, a: T, b: T) {
    }
}

impl<T, T1, T2, T3, T5> TypedSwap<TupleIndex4, TupleIndex0, T> for (T, T1, T2, T3, T, T5) {
    fn swap_positions(&mut self) {
        core::mem::swap(&mut self.4, &mut self.0);
    }

    proof fn lemma_pair(self, a: T, b: T) {
    }
}

impl<T, T0, T2, T3, T5> TypedSwap<TupleIndex4, TupleIndex1, T> for (T0, T, T2, T3, T, T5) {
    fn swap_positions(&mut self) {
        core::mem::swap(&mut self.4, &mut self.1);
    }

    proof fn lemma_pair(self, a: T, b: T) {
    }
}

impl<T, T0, T1, T3, T5> TypedSwap<TupleIndex4, TupleIndex2, T> for (T0, T1, T, T3, T, T5) {
    fn swap_positions(&mut self) {
        core::mem::swap(&mut self.4, &mut self.2);
    }

    proof fn lemma_pair(self, a: T, b: T) {
    }
}

impl<T, T0, T1, T2, T5> TypedSwap<TupleIndex4, TupleIndex3, T> for (T0, T1, T2, T, T, T5) {
    fn swap_positions(&mut self) {
        core::mem::swap(&mut self.4, &mut self.3);
    }

    proof fn lemma_pair(self, a: T, b: T) {
    }
}

impl<T, T0, T1, T2, T3> TypedSwap<TupleIndex4, TupleIndex5, T> for (T0, T1, T2, T3, T, T) {
    fn swap_positions(&mut self) {
        core::mem::swap(&mut self.4, &mut self.5);
    }

    proof fn lemma_pair(self, a: T, b: T) {
    }
}

impl<T, T1, T2, T3, T4> TypedSwap<TupleIndex5, TupleIndex0, T> for (T, T1, T2, T3, T4, T) {
    fn swap_positions(&mut self) {
        core::mem::swap(&mut self.5, &mut self.0);
    }

    proof fn lemma_pair(self, a: T, b: T) {
    }
}

impl<T, T0, T2, T3, T4> TypedSwap<TupleIndex5, TupleIndex1, T> for (T0, T, T2, T3, T4, T) {
    fn swap_positions(&mut self) {
        core::mem::swap(&mut self.5, &mut self.1);
    }

    proof fn lemma_pair(self, a: T, b: T) {
    }
}

impl<T, T0, T1, T3, T4> TypedSwap<TupleIndex5, TupleIndex2, T> for (T0, T1, T, T3, T4, T) {
    fn swap_positions(&mut self) {
        core::mem::swap(&mut self.5, &mut self.2);
    }

    proof fn lemma_pair(self, a: T, b: T) {
    }
}

impl<T, T0, T1, T2, T4> TypedSwap<TupleIndex5, TupleIndex3, T> for (T0, T1, T2, T, T4, T) {
    fn swap_positions(&mut self) {
        core::mem::swap(&mut self.5, &mut self.3);
    }

    proof fn lemma_pair(self, a: T, b: T) {
    }
}

impl<T, T0, T1, T2, T3> TypedSwap<TupleIndex5, TupleIndex4, T> for (T0, T1, T2, T3, T, T) {
    fn swap_positions(&mut self) {
        core::mem::swap(&mut self.5, &mut self.4);
    }

    proof fn lemma_pair(self, a: T, b: T) {
    }
}

impl<T, T2, T3, T4, T5, T6> TypedSwap<TupleIndex0, TupleIndex1, T> for (T, T, T2, T3, T4, T5, T6) {
    fn swap_positions(&mut self) {
        core::mem::swap(&mut self.0, &mut self.1);
    }

    proof fn lemma_pair(self, a: T, b: T) {
    }
}

impl<T, T1, T3, T4, T5, T6> TypedSwap<TupleIndex0, TupleIndex2, T> for (T, T1, T, T3, T4, T5, T6) {
    fn swap_positions(&mut self) {
        core::mem::swap(&mut self.0, &mut self.2);
    }

    proof fn lemma_pair(self, a: T, b: T) {
    }
}

impl<T, T1, T2, T4, T5, T6> TypedSwap<TupleIndex0, TupleIndex3, T> for (T, T1, T2, T, T4, T5, T6) {
    fn swap_positions(&mut self) {
        core::mem::swap(&mut self.0, &mut self.3);
    }

    proof fn lemma_pair(self, a: T, b: T) {
    }
}

impl<T, T1, T2, T3, T5, T6> TypedSwap<TupleIndex0, TupleIndex4, T> for (T, T1, T2, T3, T, T5, T6) {
    fn swap_positions(&mut self) {
        core::mem::swap(&mut self.0, &mut self.4);
    }

    proof fn lemma_pair(self, a: T, b: T) {
    }
}

impl<T, T1, T2, T3, T4, T6> TypedSwap<TupleIndex0, TupleIndex5, T> for (T, T1, T2, T3, T4, T, T6) {
    fn swap_positions(&mut self) {
        core::mem::swap(&mut self.0, &mut self.5);
    }

    proof fn lemma_pair(self, a: T, b: T) {
    }
}

impl<T, T1, T2, T3, T4, T5> TypedSwap<TupleIndex0, TupleIndex6, T> for (T, T1, T2, T3, T4, T5, T) {
    fn swap_positions(&mut self) {
        core::mem::swap(&mut self.0, &mut self.6);
    }

    proof fn lemma_pair(self, a: T, b: T) {
    }
}

impl<T, T2, T3, T4, T5, T6> TypedSwap<TupleIndex1, TupleIndex0, T> for (T, T, T2, T3, T4, T5, T6) {
    fn swap_positions(&mut self) {
        core::mem::swap(&mut self.1, &mut self.0);
    }

    proof fn lemma_pair(self, a: T, b: T) {
    }
}

impl<T, T0, T3, T4, T5, T6> TypedSwap<TupleIndex1, TupleIndex2, T> for (T0, T, T, T3, T4, T5, T6) {
    fn swap_positions(&mut self) {
        core::mem::swap(&mut self.1, &mut self.2);
    }

    proof fn lemma_pair(self, a: T, b: T) {
    }
}

impl<T, T0, T2, T4, T5, T6> TypedSwap<TupleIndex1, TupleIndex3, T> for (T0, T, T2, T, T4, T5, T6) {
    fn swap_positions(&mut self) {
        core::mem::swap(&mut self.1, &mut self.3);
    }

    proof fn lemma_pair(self, a: T, b: T) {
    }
}

impl<T, T0, T2, T3, T5, T6> TypedSwap<TupleIndex1, TupleIndex4, T> for (T0, T, T2, T3, T, T5, T6) {
    fn swap_positions(&mut self) {
        core::mem::swap(&mut self.1, &mut self.4);
    }

    proof fn lemma_pair(self, a: T, b: T) {
    }
}

impl<T, T0, T2, T3, T4, T6> TypedSwap<TupleIndex1, TupleIndex5, T> for (T0, T, T2, T3, T4, T, T6) {
    fn swap_positions(&mut self) {
        core::mem::swap(&mut self.1, &mut self.5);
    }

    proof fn lemma_pair(self, a: T, b: T) {
    }
}

impl<T, T0, T2, T3, T4, T5> TypedSwap<TupleIndex1, TupleIndex6, T> for (T0, T, T2, T3, T4, T5, T) {
    fn swap_positions(&mut self) {
        core::mem::swap(&mut self.1, &mut self.6);
    }

    proof fn lemma_pair(self, a: T, b: T) {
    }
}

impl<T, T1, T3, T4, T5, T6> TypedSwap<TupleIndex2, TupleIndex0, T> for (T, T1, T, T3, T4, T5, T6) {
    fn swap_positions(&mut self) {
        core::mem::swap(&mut self.2, &mut self.0);
    }

    proof fn lemma_pair(self, a: T, b: T) {
    }
}

impl<T, T0, T3, T4, T5, T6> TypedSwap<TupleIndex2, TupleIndex1, T> for (T0, T, T, T3, T4, T5, T6) {
    fn swap_positions(&mut self) {
        core::mem::swap(&mut self.2, &mut self.1);
    }

    proof fn lemma_pair(self, a: T, b: T) {
    }
}

impl<T, T0, T1, T4, T5, T6> TypedSwap<TupleIndex2, TupleIndex3, T> for (T0, T1, T, T, T4, T5, T6) {
    fn swap_positions(&mut self) {
        core::mem::swap(&mut self.2, &mut self.3);
    }

    proof fn lemma_pair(self, a: T, b: T) {
    }
}

impl<T, T0, T1, T3, T5, T6> TypedSwap<TupleIndex2, TupleIndex4, T> for (T0, T1, T, T3, T, T5, T6) {
    fn swap_positions(&mut self) {
        core::mem::swap(&mut self.2, &mut self.4);
    }

    proof fn lemma_pair(self, a: T, b: T) {
    }
}

impl<T, T0, T1, T3, T4, T6> TypedSwap<TupleIndex2, TupleIndex5, T> for (T0, T1, T, T3, T4, T, T6) {
    fn swap_positions(&mut self) {
        core::mem::swap(&mut self.2, &mut self.5);
    }

    proof fn lemma_pair(self, a: T, b: T) {
    }
}

impl<T, T0, T1, T3, T4, T5> TypedSwap<TupleIndex2, TupleIndex6, T> for (T0, T1, T, T3, T4, T5, T) {
    fn swap_positions(&mut self) {
        core::mem::swap(&mut self.2, &mut self.6);
    }

    proof fn lemma_pair(self, a: T, b: T) {
    }
}

impl<T, T1, T2, T4, T5, T6> TypedSwap<TupleIndex3, TupleIndex0, T> for (T, T1, T2, T, T4, T5, T6) {
    fn swap_positions(&mut self) {
        core::mem::swap(&mut self.3, &mut self.0);
    }

    proof fn lemma_pair(self, a: T, b: T) {
    }
}

impl<T, T0, T2, T4, T5, T6> TypedSwap<TupleIndex3, TupleIndex1, T> for (T0, T, T2, T, T4, T5, T6) {
    fn swap_positions(&mut self) {
        core::mem::swap(&mut self.3, &mut self.1);
    }

    proof fn lemma_pair(self, a: T, b: T) {
    }
}

impl<T, T0, T1, T4, T5, T6> TypedSwap<TupleIndex3, TupleIndex2, T> for (T0, T1, T, T, T4, T5, T6) {
    fn swap_positions(&mut self) {
        core::mem::swap(&mut self.3, &mut self.2);
    }

    proof fn lemma_pair(self, a: T, b: T) {
    }
}

impl<T, T0, T1, T2, T5, T6> TypedSwap<TupleIndex3, TupleIndex4, T> for (T0, T1, T2, T, T, T5, T6) {
    fn swap_positions(&mut self) {
        core::mem::swap(&mut self.3, &mut self.4);
    }

    proof fn lemma_pair(self, a: T, b: T) {
    }
}

impl<T, T0, T1, T2, T4, T6> TypedSwap<TupleIndex3, TupleIndex5, T> for (T0, T1, T2, T, T4, T, T6) {
    fn swap_positions(&mut self) {
        core::mem::swap(&mut self.3, &mut self.5);
    }

    proof fn lemma_pair(self, a: T, b: T) {
    }
}

impl<T, T0, T1, T2, T4, T5> TypedSwap<TupleIndex3, TupleIndex6, T> for (T0, T1, T2, T, T4, T5, T) {
    fn swap_positions(&mut self) {
        core::mem::swap(&mut self.3, &mut self.6);
    }

    proof fn lemma_pair(self, a: T, b: T) {
    }
}

impl<T, T1, T2, T3, T5, T6> TypedSwap<TupleIndex4, TupleIndex0, T> for (T, T1, T2, T3, T, T5, T6) {
    fn swap_positions(&mut self) {
        core::mem::swap(&mut self.4, &mut self.0);
    }

    proof fn lemma_pair(self, a: T, b: T) {
    }
}

impl<T, T0, T2, T3, T5, T6> TypedSwap<TupleIndex4, TupleIndex1, T> for (T0, T, T2, T3, T, T5, T6) {
    fn swap_positions(&mut self) {
        core::mem::swap(&mut self.4, &mut self.1);
    }

    proof fn lemma_pair(self, a: T, b: T) {
    }
}

impl<T, T0, T1, T3, T5, T6> TypedSwap<TupleIndex4, TupleIndex2, T> for (T0, T1, T, T3, T, T5, T6) {
    fn swap_positions(&mut self) {
        core::mem::swap(&mut self.4, &mut self.2);
    }

    proof fn lemma_pair(self, a: T, b: T) {
    }
}

impl<T, T0, T1, T2, T5, T6> TypedSwap<TupleIndex4, TupleIndex3, T> for (T0, T1, T2, T, T, T5, T6) {
    fn swap_positions(&mut self) {
        core::mem::swap(&mut self.4, &mut self.3);
    }

    proof fn lemma_pair(self, a: T, b: T) {
    }
}

impl<T, T0, T1, T2, T3, T6> TypedSwap<TupleIndex4, TupleIndex5, T> for (T0, T1, T2, T3, T, T, T6) {
    fn swap_positions(&mut self) {
        core::mem::swap(&mut self.4, &mut self.5);
    }

    proof fn lemma_pair(self, a: T, b: T) {
    }
}

impl<T, T0, T1, T2, T3, T5> TypedSwap<TupleIndex4, TupleIndex6, T> for (T0, T1, T2, T3, T, T5, T) {
    fn swap_positions(&mut self) {
        core::mem::swap(&mut self.4, &mut self.6);
    }

    proof fn lemma_pair(self, a: T, b: T) {
    }
}

impl<T, T1, T2, T3, T4, T6> TypedSwap<TupleIndex5, TupleIndex0, T> for (T, T1, T2, T3, T4, T, T6) {
    fn swap_positions(&mut self) {
        core::mem::swap(&mut self.5, &mut self.0);
    }

    proof fn lemma_pair(self, a: T, b: T) {
    }
}

impl<T, T0, T2, T3, T4, T6> TypedSwap<TupleIndex5, TupleIndex1, T> for (T0, T, T2, T3, T4, T, T6) {
    fn swap_positions(&mut self) {
        core::mem::swap(&mut self.5, &mut self.1);
    }

    proof fn lemma_pair(self, a: T, b: T) {
    }
}

impl<T, T0, T1, T3, T4, T6> TypedSwap<TupleIndex5, TupleIndex2, T> for (T0, T1, T, T3, T4, T, T6) {
    fn swap_positions(&mut self) {
        core::mem::swap(&mut self.5, &mut self.2);
    }

    proof fn lemma_pair(self, a: T, b: T) {
    }
}

impl<T, T0, T1, T2, T4, T6> TypedSwap<TupleIndex5, TupleIndex3, T> for (T0, T1, T2, T, T4, T, T6) {
    fn swap_positions(&mut self) {
        core::mem::swap(&mut self.5, &mut self.3);
    }

    proof fn lemma_pair(self, a: T, b: T) {
    }
}

impl<T, T0, T1, T2, T3, T6> TypedSwap<TupleIndex5, TupleIndex4, T> for (T0, T1, T2, T3, T, T, T6) {
    fn swap_positions(&mut self) {
        core::mem::swap(&mut self.5, &mut self.4);
    }

    proof fn lemma_pair(self, a: T, b: T) {
    }
}

impl<T, T0, T1, T2, T3, T4> TypedSwap<TupleIndex5, TupleIndex6, T> for (T0, T1, T2, T3, T4, T, T) {
    fn swap_positions(&mut self) {
        core::mem::swap(&mut self.5, &mut self.6);
    }

    proof fn lemma_pair(self, a: T, b: T) {
    }
}

impl<T, T1, T2, T3, T4, T5> TypedSwap<TupleIndex6, TupleIndex0, T> for (T, T1, T2, T3, T4, T5, T) {
    fn swap_positions(&mut self) {
        core::mem::swap(&mut self.6, &mut self.0);
    }

    proof fn lemma_pair(self, a: T, b: T) {
    }
}

impl<T, T0, T2, T3, T4, T5> TypedSwap<TupleIndex6, TupleIndex1, T> for (T0, T, T2, T3, T4, T5, T) {
    fn swap_positions(&mut self) {
        core::mem::swap(&mut self.6, &mut self.1);
    }

    proof fn lemma_pair(self, a: T, b: T) {
    }
}

impl<T, T0, T1, T3, T4, T5> TypedSwap<TupleIndex6, TupleIndex2, T> for (T0, T1, T, T3, T4, T5, T) {
    fn swap_positions(&mut self) {
        core::mem::swap(&mut self.6, &mut self.2);
    }

    proof fn lemma_pair(self, a: T, b: T) {
    }
}

impl<T, T0, T1, T2, T4, T5> TypedSwap<TupleIndex6, TupleIndex3, T> for (T0, T1, T2, T, T4, T5, T) {
    fn swap_positions(&mut self) {
        core::mem::swap(&mut self.6, &mut self.3);
    }

    proof fn lemma_pair(self, a: T, b: T) {
    }
}

impl<T, T0, T1, T2, T3, T5> TypedSwap<TupleIndex6, TupleIndex4, T> for (T0, T1, T2, T3, T, T5, T) {
    fn swap_positions(&mut self) {
        core::mem::swap(&mut self.6, &mut self.4);
    }

    proof fn lemma_pair(self, a: T, b: T) {
    }
}

impl<T, T0, T1, T2, T3, T4> TypedSwap<TupleIndex6, TupleIndex5, T> for (T0, T1, T2, T3, T4, T, T) {
    fn swap_positions(&mut self) {
        core::mem::swap(&mut self.6, &mut self.5);
    }

    proof fn lemma_pair(self, a: T, b: T) {
    }
}

impl<T, T2, T3, T4, T5, T6, T7> TypedSwap<TupleIndex0, TupleIndex1, T>
    for (T, T, T2, T3, T4, T5, T6, T7)
{
    fn swap_positions(&mut self) {
        core::mem::swap(&mut self.0, &mut self.1);
    }

    proof fn lemma_pair(self, a: T, b: T) {
    }
}

impl<T, T1, T3, T4, T5, T6, T7> TypedSwap<TupleIndex0, TupleIndex2, T>
    for (T, T1, T, T3, T4, T5, T6, T7)
{
    fn swap_positions(&mut self) {
        core::mem::swap(&mut self.0, &mut self.2);
    }

    proof fn lemma_pair(self, a: T, b: T) {
    }
}

impl<T, T1, T2, T4, T5, T6, T7> TypedSwap<TupleIndex0, TupleIndex3, T>
    for (T, T1, T2, T, T4, T5, T6, T7)
{
    fn swap_positions(&mut self) {
        core::mem::swap(&mut self.0, &mut self.3);
    }

    proof fn lemma_pair(self, a: T, b: T) {
    }
}

impl<T, T1, T2, T3, T5, T6, T7> TypedSwap<TupleIndex0, TupleIndex4, T>
    for (T, T1, T2, T3, T, T5, T6, T7)
{
    fn swap_positions(&mut self) {
        core::mem::swap(&mut self.0, &mut self.4);
    }

    proof fn lemma_pair(self, a: T, b: T) {
    }
}

impl<T, T1, T2, T3, T4, T6, T7> TypedSwap<TupleIndex0, TupleIndex5, T>
    for (T, T1, T2, T3, T4, T, T6, T7)
{
    fn swap_positions(&mut self) {
        core::mem::swap(&mut self.0, &mut self.5);
    }

    proof fn lemma_pair(self, a: T, b: T) {
    }
}

impl<T, T1, T2, T3, T4, T5, T7> TypedSwap<TupleIndex0, TupleIndex6, T>
    for (T, T1, T2, T3, T4, T5, T, T7)
{
    fn swap_positions(&mut self) {
        core::mem::swap(&mut self.0, &mut self.6);
    }

    proof fn lemma_pair(self, a: T, b: T) {
    }
}

impl<T, T1, T2, T3, T4, T5, T6> TypedSwap<TupleIndex0, TupleIndex7, T>
    for (T, T1, T2, T3, T4, T5, T6, T)
{
    fn swap_positions(&mut self) {
        core::mem::swap(&mut self.0, &mut self.7);
    }

    proof fn lemma_pair(self, a: T, b: T) {
    }
}

impl<T, T2, T3, T4, T5, T6, T7> TypedSwap<TupleIndex1, TupleIndex0, T>
    for (T, T, T2, T3, T4, T5, T6, T7)
{
    fn swap_positions(&mut self) {
        core::mem::swap(&mut self.1, &mut self.0);
    }

    proof fn lemma_pair(self, a: T, b: T) {
    }
}

impl<T, T0, T3, T4, T5, T6, T7> TypedSwap<TupleIndex1, TupleIndex2, T>
    for (T0, T, T, T3, T4, T5, T6, T7)
{
    fn swap_positions(&mut self) {
        core::mem::swap(&mut self.1, &mut self.2);
    }

    proof fn lemma_pair(self, a: T, b: T) {
    }
}

impl<T, T0, T2, T4, T5, T6, T7> TypedSwap<TupleIndex1, TupleIndex3, T>
    for (T0, T, T2, T, T4, T5, T6, T7)
{
    fn swap_positions(&mut self) {
        core::mem::swap(&mut self.1, &mut self.3);
    }

    proof fn lemma_pair(self, a: T, b: T) {
    }
}

impl<T, T0, T2, T3, T5, T6, T7> TypedSwap<TupleIndex1, TupleIndex4, T>
    for (T0, T, T2, T3, T, T5, T6, T7)
{
    fn swap_positions(&mut self) {
        core::mem::swap(&mut self.1, &mut self.4);
    }

    proof fn lemma_pair(self, a: T, b: T) {
    }
}

impl<T, T0, T2, T3, T4, T6, T7> TypedSwap<TupleIndex1, TupleIndex5, T>
    for (T0, T, T2, T3, T4, T, T6, T7)
{
    fn swap_positions(&mut self) {
        core::mem::swap(&mut self.1, &mut self.5);
    }

    proof fn lemma_pair(self, a: T, b: T) {
    }
}

impl<T, T0, T2, T3, T4, T5, T7> TypedSwap<TupleIndex1, TupleIndex6, T>
    for (T0, T, T2, T3, T4, T5, T, T7)
{
    fn swap_positions(&mut self) {
        core::mem::swap(&mut self.1, &mut self.6);
    }

    proof fn lemma_pair(self, a: T, b: T) {
    }
}

impl<T, T0, T2, T3, T4, T5, T6> TypedSwap<TupleIndex1, TupleIndex7, T>
    for (T0, T, T2, T3, T4, T5, T6, T)
{
    fn swap_positions(&mut self) {
        core::mem::swap(&mut self.1, &mut self.7);
    }

    proof fn lemma_pair(self, a: T, b: T) {
    }
}

impl<T, T1, T3, T4, T5, T6, T7> TypedSwap<TupleIndex2, TupleIndex0, T>
    for (T, T1, T, T3, T4, T5, T6, T7)
{
    fn swap_positions(&mut self) {
        core::mem::swap(&mut self.2, &mut self.0);
    }

    proof fn lemma_pair(self, a: T, b: T) {
    }
}

impl<T, T0, T3, T4, T5, T6, T7> TypedSwap<TupleIndex2, TupleIndex1, T>
    for (T0, T, T, T3, T4, T5, T6, T7)
{
    fn swap_positions(&mut self) {
        core::mem::swap(&mut self.2, &mut self.1);
    }

    proof fn lemma_pair(self, a: T, b: T) {
    }
}

impl<T, T0, T1, T4, T5, T6, T7> TypedSwap<TupleIndex2, TupleIndex3, T>
    for (T0, T1, T, T, T4, T5, T6, T7)
{
    fn swap_positions(&mut self) {
        core::mem::swap(&mut self.2, &mut self.3);
    }

    proof fn lemma_pair(self, a: T, b: T) {
    }
}

impl<T, T0, T1, T3, T5, T6, T7> TypedSwap<TupleIndex2, TupleIndex4, T>
    for (T0, T1, T, T3, T, T5, T6, T7)
{
    fn swap_positions(&mut self) {
        core::mem::swap(&mut self.2, &mut self.4);
    }

    proof fn lemma_pair(self, a: T, b: T) {
    }
}

impl<T, T0, T1, T3, T4, T6, T7> TypedSwap<TupleIndex2, TupleIndex5, T>
    for (T0, T1, T, T3, T4, T, T6, T7)
{
    fn swap_positions(&mut self) {
        core::mem::swap(&mut self.2, &mut self.5);
    }

    proof fn lemma_pair(self, a: T, b: T) {
    }
}

impl<T, T0, T1, T3, T4, T5, T7> TypedSwap<TupleIndex2, TupleIndex6, T>
    for (T0, T1, T, T3, T4, T5, T, T7)
{
    fn swap_positions(&mut self) {
        core::mem::swap(&mut self.2, &mut self.6);
    }

    proof fn lemma_pair(self, a: T, b: T) {
    }
}

impl<T, T0, T1, T3, T4, T5, T6> TypedSwap<TupleIndex2, TupleIndex7, T>
    for (T0, T1, T, T3, T4, T5, T6, T)
{
    fn swap_positions(&mut self) {
        core::mem::swap(&mut self.2, &mut self.7);
    }

    proof fn lemma_pair(self, a: T, b: T) {
    }
}

impl<T, T1, T2, T4, T5, T6, T7> TypedSwap<TupleIndex3, TupleIndex0, T>
    for (T, T1, T2, T, T4, T5, T6, T7)
{
    fn swap_positions(&mut self) {
        core::mem::swap(&mut self.3, &mut self.0);
    }

    proof fn lemma_pair(self, a: T, b: T) {
    }
}

impl<T, T0, T2, T4, T5, T6, T7> TypedSwap<TupleIndex3, TupleIndex1, T>
    for (T0, T, T2, T, T4, T5, T6, T7)
{
    fn swap_positions(&mut self) {
        core::mem::swap(&mut self.3, &mut self.1);
    }

    proof fn lemma_pair(self, a: T, b: T) {
    }
}

impl<T, T0, T1, T4, T5, T6, T7> TypedSwap<TupleIndex3, TupleIndex2, T>
    for (T0, T1, T, T, T4, T5, T6, T7)
{
    fn swap_positions(&mut self) {
        core::mem::swap(&mut self.3, &mut self.2);
    }

    proof fn lemma_pair(self, a: T, b: T) {
    }
}

impl<T, T0, T1, T2, T5, T6, T7> TypedSwap<TupleIndex3, TupleIndex4, T>
    for (T0, T1, T2, T, T, T5, T6, T7)
{
    fn swap_positions(&mut self) {
        core::mem::swap(&mut self.3, &mut self.4);
    }

    proof fn lemma_pair(self, a: T, b: T) {
    }
}

impl<T, T0, T1, T2, T4, T6, T7> TypedSwap<TupleIndex3, TupleIndex5, T>
    for (T0, T1, T2, T, T4, T, T6, T7)
{
    fn swap_positions(&mut self) {
        core::mem::swap(&mut self.3, &mut self.5);
    }

    proof fn lemma_pair(self, a: T, b: T) {
    }
}

impl<T, T0, T1, T2, T4, T5, T7> TypedSwap<TupleIndex3, TupleIndex6, T>
    for (T0, T1, T2, T, T4, T5, T, T7)
{
    fn swap_positions(&mut self) {
        core::mem::swap(&mut self.3, &mut self.6);
    }

    proof fn lemma_pair(self, a: T, b: T) {
    }
}

impl<T, T0, T1, T2, T4, T5, T6> TypedSwap<TupleIndex3, TupleIndex7, T>
    for (T0, T1, T2, T, T4, T5, T6, T)
{
    fn swap_positions(&mut self) {
        core::mem::swap(&mut self.3, &mut self.7);
    }

    proof fn lemma_pair(self, a: T, b: T) {
    }
}

impl<T, T1, T2, T3, T5, T6, T7> TypedSwap<TupleIndex4, TupleIndex0, T>
    for (T, T1, T2, T3, T, T5, T6, T7)
{
    fn swap_positions(&mut self) {
        core::mem::swap(&mut self.4, &mut self.0);
    }

    proof fn lemma_pair(self, a: T, b: T) {
    }
}

impl<T, T0, T2, T3, T5, T6, T7> TypedSwap<TupleIndex4, TupleIndex1, T>
    for (T0, T, T2, T3, T, T5, T6, T7)
{
    fn swap_positions(&mut self) {
        core::mem::swap(&mut self.4, &mut self.1);
    }

    proof fn lemma_pair(self, a: T, b: T) {
    }
}

impl<T, T0, T1, T3, T5, T6, T7> TypedSwap<TupleIndex4, TupleIndex2, T>
    for (T0, T1, T, T3, T, T5, T6, T7)
{
    fn swap_positions(&mut self) {
        core::mem::swap(&mut self.4, &mut self.2);
    }

    proof fn lemma_pair(self, a: T, b: T) {
    }
}

impl<T, T0, T1, T2, T5, T6, T7> TypedSwap<TupleIndex4, TupleIndex3, T>
    for (T0, T1, T2, T, T, T5, T6, T7)
{
    fn swap_positions(&mut self) {
        core::mem::swap(&mut self.4, &mut self.3);
    }

    proof fn lemma_pair(self, a: T, b: T) {
    }
}

impl<T, T0, T1, T2, T3, T6, T7> TypedSwap<TupleIndex4, TupleIndex5, T>
    for (T0, T1, T2, T3, T, T, T6, T7)
{
    fn swap_positions(&mut self) {
        core::mem::swap(&mut self.4, &mut self.5);
    }

    proof fn lemma_pair(self, a: T, b: T) {
    }
}

impl<T, T0, T1, T2, T3, T5, T7> TypedSwap<TupleIndex4, TupleIndex6, T>
    for (T0, T1, T2, T3, T, T5, T, T7)
{
    fn swap_positions(&mut self) {
        core::mem::swap(&mut self.4, &mut self.6);
    }

    proof fn lemma_pair(self, a: T, b: T) {
    }
}

impl<T, T0, T1, T2, T3, T5, T6> TypedSwap<TupleIndex4, TupleIndex7, T>
    for (T0, T1, T2, T3, T, T5, T6, T)
{
    fn swap_positions(&mut self) {
        core::mem::swap(&mut self.4, &mut self.7);
    }

    proof fn lemma_pair(self, a: T, b: T) {
    }
}

impl<T, T1, T2, T3, T4, T6, T7> TypedSwap<TupleIndex5, TupleIndex0, T>
    for (T, T1, T2, T3, T4, T, T6, T7)
{
    fn swap_positions(&mut self) {
        core::mem::swap(&mut self.5, &mut self.0);
    }

    proof fn lemma_pair(self, a: T, b: T) {
    }
}

impl<T, T0, T2, T3, T4, T6, T7> TypedSwap<TupleIndex5, TupleIndex1, T>
    for (T0, T, T2, T3, T4, T, T6, T7)
{
    fn swap_positions(&mut self) {
        core::mem::swap(&mut self.5, &mut self.1);
    }

    proof fn lemma_pair(self, a: T, b: T) {
    }
}

impl<T, T0, T1, T3, T4, T6, T7> TypedSwap<TupleIndex5, TupleIndex2, T>
    for (T0, T1, T, T3, T4, T, T6, T7)
{
    fn swap_positions(&mut self) {
        core::mem::swap(&mut self.5, &mut self.2);
    }

    proof fn lemma_pair(self, a: T, b: T) {
    }
}

impl<T, T0, T1, T2, T4, T6, T7> TypedSwap<TupleIndex5, TupleIndex3, T>
    for (T0, T1, T2, T, T4, T, T6, T7)
{
    fn swap_positions(&mut self) {
        core::mem::swap(&mut self.5, &mut self.3);
    }

    proof fn lemma_pair(self, a: T, b: T) {
    }
}

impl<T, T0, T1, T2, T3, T6, T7> TypedSwap<TupleIndex5, TupleIndex4, T>
    for (T0, T1, T2, T3, T, T, T6, T7)
{
    fn swap_positions(&mut self) {
        core::mem::swap(&mut self.5, &mut self.4);
    }

    proof fn lemma_pair(self, a: T, b: T) {
    }
}

impl<T, T0, T1, T2, T3, T4, T7> TypedSwap<TupleIndex5, TupleIndex6, T>
    for (T0, T1, T2, T3, T4, T, T, T7)
{
    fn swap_positions(&mut self) {
        core::mem::swap(&mut self.5, &mut self.6);
    }

    proof fn lemma_pair(self, a: T, b: T) {
    }
}

impl<T, T0, T1, T2, T3, T4, T6> TypedSwap<TupleIndex5, TupleIndex7, T>
    for (T0, T1, T2, T3, T4, T, T6, T)
{
    fn swap_positions(&mut self) {
        core::mem::swap(&mut self.5, &mut self.7);
    }

    proof fn lemma_pair(self, a: T, b: T) {
    }
}

impl<T, T1, T2, T3, T4, T5, T7> TypedSwap<TupleIndex6, TupleIndex0, T>
    for (T, T1, T2, T3, T4, T5, T, T7)
{
    fn swap_positions(&mut self) {
        core::mem::swap(&mut self.6, &mut self.0);
    }

    proof fn lemma_pair(self, a: T, b: T) {
    }
}

impl<T, T0, T2, T3, T4, T5, T7> TypedSwap<TupleIndex6, TupleIndex1, T>
    for (T0, T, T2, T3, T4, T5, T, T7)
{
    fn swap_positions(&mut self) {
        core::mem::swap(&mut self.6, &mut self.1);
    }

    proof fn lemma_pair(self, a: T, b: T) {
    }
}

impl<T, T0, T1, T3, T4, T5, T7> TypedSwap<TupleIndex6, TupleIndex2, T>
    for (T0, T1, T, T3, T4, T5, T, T7)
{
    fn swap_positions(&mut self) {
        core::mem::swap(&mut self.6, &mut self.2);
    }

    proof fn lemma_pair(self, a: T, b: T) {
    }
}

impl<T, T0, T1, T2, T4, T5, T7> TypedSwap<TupleIndex6, TupleIndex3, T>
    for (T0, T1, T2, T, T4, T5, T, T7)
{
    fn swap_positions(&mut self) {
        core::mem::swap(&mut self.6, &mut self.3);
    }

    proof fn lemma_pair(self, a: T, b: T) {
    }
}

impl<T, T0, T1, T2, T3, T5, T7> TypedSwap<TupleIndex6, TupleIndex4, T>
    for (T0, T1, T2, T3, T, T5, T, T7)
{
    fn swap_positions(&mut self) {
        core::mem::swap(&mut self.6, &mut self.4);
    }

    proof fn lemma_pair(self, a: T, b: T) {
    }
}

impl<T, T0, T1, T2, T3, T4, T7> TypedSwap<TupleIndex6, TupleIndex5, T>
    for (T0, T1, T2, T3, T4, T, T, T7)
{
    fn swap_positions(&mut self) {
        core::mem::swap(&mut self.6, &mut self.5);
    }

    proof fn lemma_pair(self, a: T, b: T) {
    }
}

impl<T, T0, T1, T2, T3, T4, T5> TypedSwap<TupleIndex6, TupleIndex7, T>
    for (T0, T1, T2, T3, T4, T5, T, T)
{
    fn swap_positions(&mut self) {
        core::mem::swap(&mut self.6, &mut self.7);
    }

    proof fn lemma_pair(self, a: T, b: T) {
    }
}

impl<T, T1, T2, T3, T4, T5, T6> TypedSwap<TupleIndex7, TupleIndex0, T>
    for (T, T1, T2, T3, T4, T5, T6, T)
{
    fn swap_positions(&mut self) {
        core::mem::swap(&mut self.7, &mut self.0);
    }

    proof fn lemma_pair(self, a: T, b: T) {
    }
}

impl<T, T0, T2, T3, T4, T5, T6> TypedSwap<TupleIndex7, TupleIndex1, T>
    for (T0, T, T2, T3, T4, T5, T6, T)
{
    fn swap_positions(&mut self) {
        core::mem::swap(&mut self.7, &mut self.1);
    }

    proof fn lemma_pair(self, a: T, b: T) {
    }
}

impl<T, T0, T1, T3, T4, T5, T6> TypedSwap<TupleIndex7, TupleIndex2, T>
    for (T0, T1, T, T3, T4, T5, T6, T)
{
    fn swap_positions(&mut self) {
        core::mem::swap(&mut self.7, &mut self.2);
    }

    proof fn lemma_pair(self, a: T, b: T) {
    }
}

impl<T, T0, T1, T2, T4, T5, T6> TypedSwap<TupleIndex7, TupleIndex3, T>
    for (T0, T1, T2, T, T4, T5, T6, T)
{
    fn swap_positions(&mut self) {
        core::mem::swap(&mut self.7, &mut self.3);
    }

    proof fn lemma_pair(self, a: T, b: T) {
    }
}

impl<T, T0, T1, T2, T3, T5, T6> TypedSwap<TupleIndex7, TupleIndex4, T>
    for (T0, T1, T2, T3, T, T5, T6, T)
{
    fn swap_positions(&mut self) {
        core::mem::swap(&mut self.7, &mut self.4);
    }

    proof fn lemma_pair(self, a: T, b: T) {
    }
}

impl<T, T0, T1, T2, T3, T4, T6> TypedSwap<TupleIndex7, TupleIndex5, T>
    for (T0, T1, T2, T3, T4, T, T6, T)
{
    fn swap_positions(&mut self) {
        core::mem::swap(&mut self.7, &mut self.5);
    }

    proof fn lemma_pair(self, a: T, b: T) {
    }
}

impl<T, T0, T1, T2, T3, T4, T5> TypedSwap<TupleIndex7, TupleIndex6, T>
    for (T0, T1, T2, T3, T4, T5, T, T)
{
    fn swap_positions(&mut self) {
        core::mem::swap(&mut self.7, &mut self.6);
    }

    proof fn lemma_pair(self, a: T, b: T) {
    }
}

impl<T, T2, T3, T4, T5, T6, T7, T8> TypedSwap<TupleIndex0, TupleIndex1, T>
    for (T, T, T2, T3, T4, T5, T6, T7, T8)
{
    fn swap_positions(&mut self) {
        core::mem::swap(&mut self.0, &mut self.1);
    }

    proof fn lemma_pair(self, a: T, b: T) {
    }
}

impl<T, T1, T3, T4, T5, T6, T7, T8> TypedSwap<TupleIndex0, TupleIndex2, T>
    for (T, T1, T, T3, T4, T5, T6, T7, T8)
{
    fn swap_positions(&mut self) {
        core::mem::swap(&mut self.0, &mut self.2);
    }

    proof fn lemma_pair(self, a: T, b: T) {
    }
}

impl<T, T1, T2, T4, T5, T6, T7, T8> TypedSwap<TupleIndex0, TupleIndex3, T>
    for (T, T1, T2, T, T4, T5, T6, T7, T8)
{
    fn swap_positions(&mut self) {
        core::mem::swap(&mut self.0, &mut self.3);
    }

    proof fn lemma_pair(self, a: T, b: T) {
    }
}

impl<T, T1, T2, T3, T5, T6, T7, T8> TypedSwap<TupleIndex0, TupleIndex4, T>
    for (T, T1, T2, T3, T, T5, T6, T7, T8)
{
    fn swap_positions(&mut self) {
        core::mem::swap(&mut self.0, &mut self.4);
    }

    proof fn lemma_pair(self, a: T, b: T) {
    }
}

impl<T, T1, T2, T3, T4, T6, T7, T8> TypedSwap<TupleIndex0, TupleIndex5, T>
    for (T, T1, T2, T3, T4, T, T6, T7, T8)
{
    fn swap_positions(&mut self) {
        core::mem::swap(&mut self.0, &mut self.5);
    }

    proof fn lemma_pair(self, a: T, b: T) {
    }
}

impl<T, T1, T2, T3, T4, T5, T7, T8> TypedSwap<TupleIndex0, TupleIndex6, T>
    for (T, T1, T2, T3, T4, T5, T, T7, T8)
{
    fn swap_positions(&mut self) {
        core::mem::swap(&mut self.0, &mut self.6);
    }

    proof fn lemma_pair(self, a: T, b: T) {
    }
}

impl<T, T1, T2, T3, T4, T5, T6, T8> TypedSwap<TupleIndex0, TupleIndex7, T>
    for (T, T1, T2, T3, T4, T5, T6, T, T8)
{
    fn swap_positions(&mut self) {
        core::mem::swap(&mut self.0, &mut self.7);
    }

    proof fn lemma_pair(self, a: T, b: T) {
    }
}

impl<T, T1, T2, T3, T4, T5, T6, T7> TypedSwap<TupleIndex0, TupleIndex8, T>
    for (T, T1, T2, T3, T4, T5, T6, T7, T)
{
    fn swap_positions(&mut self) {
        core::mem::swap(&mut self.0, &mut self.8);
    }

    proof fn lemma_pair(self, a: T, b: T) {
    }
}

impl<T, T2, T3, T4, T5, T6, T7, T8> TypedSwap<TupleIndex1, TupleIndex0, T>
    for (T, T, T2, T3, T4, T5, T6, T7, T8)
{
    fn swap_positions(&mut self) {
        core::mem::swap(&mut self.1, &mut self.0);
    }

    proof fn lemma_pair(self, a: T, b: T) {
    }
}

impl<T, T0, T3, T4, T5, T6, T7, T8> TypedSwap<TupleIndex1, TupleIndex2, T>
    for (T0, T, T, T3, T4, T5, T6, T7, T8)
{
    fn swap_positions(&mut self) {
        core::mem::swap(&mut self.1, &mut self.2);
    }

    proof fn lemma_pair(self, a: T, b: T) {
    }
}

impl<T, T0, T2, T4, T5, T6, T7, T8> TypedSwap<TupleIndex1, TupleIndex3, T>
    for (T0, T, T2, T, T4, T5, T6, T7, T8)
{
    fn swap_positions(&mut self) {
        core::mem::swap(&mut self.1, &mut self.3);
    }

    proof fn lemma_pair(self, a: T, b: T) {
    }
}

impl<T, T0, T2, T3, T5, T6, T7, T8> TypedSwap<TupleIndex1, TupleIndex4, T>
    for (T0, T, T2, T3, T, T5, T6, T7, T8)
{
    fn swap_positions(&mut self) {
        core::mem::swap(&mut self.1, &mut self.4);
    }

    proof fn lemma_pair(self, a: T, b: T) {
    }
}

impl<T, T0, T2, T3, T4, T6, T7, T8> TypedSwap<TupleIndex1, TupleIndex5, T>
    for (T0, T, T2, T3, T4, T, T6, T7, T8)
{
    fn swap_positions(&mut self) {
        core::mem::swap(&mut self.1, &mut self.5);
    }

    proof fn lemma_pair(self, a: T, b: T) {
    }
}

impl<T, T0, T2, T3, T4, T5, T7, T8> TypedSwap<TupleIndex1, TupleIndex6, T>
    for (T0, T, T2, T3, T4, T5, T, T7, T8)
{
    fn swap_positions(&mut self) {
        core::mem::swap(&mut self.1, &mut self.6);
    }

    proof fn lemma_pair(self, a: T, b: T) {
    }
}

impl<T, T0, T2, T3, T4, T5, T6, T8> TypedSwap<TupleIndex1, TupleIndex7, T>
    for (T0, T, T2, T3, T4, T5, T6, T, T8)
{
    fn swap_positions(&mut self) {
        core::mem::swap(&mut self.1, &mut self.7);
    }

    proof fn lemma_pair(self, a: T, b: T) {
    }
}

impl<T, T0, T2, T3, T4, T5, T6, T7> TypedSwap<TupleIndex1, TupleIndex8, T>
    for (T0, T, T2, T3, T4, T5, T6, T7, T)
{
    fn swap_positions(&mut self) {
        core::mem::swap(&mut self.1, &mut self.8);
    }

    proof fn lemma_pair(self, a: T, b: T) {
    }
}

impl<T, T1, T3, T4, T5, T6, T7, T8> TypedSwap<TupleIndex2, TupleIndex0, T>
    for (T, T1, T, T3, T4, T5, T6, T7, T8)
{
    fn swap_positions(&mut self) {
        core::mem::swap(&mut self.2, &mut self.0);
    }

    proof fn lemma_pair(self, a: T, b: T) {
    }
}

impl<T, T0, T3, T4, T5, T6, T7, T8> TypedSwap<TupleIndex2, TupleIndex1, T>
    for (T0, T, T, T3, T4, T5, T6, T7, T8)
{
    fn swap_positions(&mut self) {
        core::mem::swap(&mut self.2, &mut self.1);
    }

    proof fn lemma_pair(self, a: T, b: T) {
    }
}

impl<T, T0, T1, T4, T5, T6, T7, T8> TypedSwap<TupleIndex2, TupleIndex3, T>
    for (T0, T1, T, T, T4, T5, T6, T7, T8)
{
    fn swap_positions(&mut self) {
        core::mem::swap(&mut self.2, &mut self.3);
    }

    proof fn lemma_pair(self, a: T, b: T) {
    }
}

impl<T, T0, T1, T3, T5, T6, T7, T8> TypedSwap<TupleIndex2, TupleIndex4, T>
    for (T0, T1, T, T3, T, T5, T6, T7, T8)
{
    fn swap_positions(&mut self) {
        core::mem::swap(&mut self.2, &mut self.4);
    }

    proof fn lemma_pair(self, a: T, b: T) {
    }
}

impl<T, T0, T1, T3, T4, T6, T7, T8> TypedSwap<TupleIndex2, TupleIndex5, T>
    for (T0, T1, T, T3, T4, T, T6, T7, T8)
{
    fn swap_positions(&mut self) {
        core::mem::swap(&mut self.2, &mut self.5);
    }

    proof fn lemma_pair(self, a: T, b: T) {
    }
}

impl<T, T0, T1, T3, T4, T5, T7, T8> TypedSwap<TupleIndex2, TupleIndex6, T>
    for (T0, T1, T, T3, T4, T5, T, T7, T8)
{
    fn swap_positions(&mut self) {
        core::mem::swap(&mut self.2, &mut self.6);
    }

    proof fn lemma_pair(self, a: T, b: T) {
    }
}

impl<T, T0, T1, T3, T4, T5, T6, T8> TypedSwap<TupleIndex2, TupleIndex7, T>
    for (T0, T1, T, T3, T4, T5, T6, T, T8)
{
    fn swap_positions(&mut self) {
        core::mem::swap(&mut self.2, &mut self.7);
    }

    proof fn lemma_pair(self, a: T, b: T) {
    }
}

impl<T, T0, T1, T3, T4, T5, T6, T7> TypedSwap<TupleIndex2, TupleIndex8, T>
    for (T0, T1, T, T3, T4, T5, T6, T7, T)
{
    fn swap_positions(&mut self) {
        core::mem::swap(&mut self.2, &mut self.8);
    }

    proof fn lemma_pair(self, a: T, b: T) {
    }
}

impl<T, T1, T2, T4, T5, T6, T7, T8> TypedSwap<TupleIndex3, TupleIndex0, T>
    for (T, T1, T2, T, T4, T5, T6, T7, T8)
{
    fn swap_positions(&mut self) {
        core::mem::swap(&mut self.3, &mut self.0);
    }

    proof fn lemma_pair(self, a: T, b: T) {
    }
}

impl<T, T0, T2, T4, T5, T6, T7, T8> TypedSwap<TupleIndex3, TupleIndex1, T>
    for (T0, T, T2, T, T4, T5, T6, T7, T8)
{
    fn swap_positions(&mut self) {
        core::mem::swap(&mut self.3, &mut self.1);
    }

    proof fn lemma_pair(self, a: T, b: T) {
    }
}

impl<T, T0, T1, T4, T5, T6, T7, T8> TypedSwap<TupleIndex3, TupleIndex2, T>
    for (T0, T1, T, T, T4, T5, T6, T7, T8)
{
    fn swap_positions(&mut self) {
        core::mem::swap(&mut self.3, &mut self.2);
    }

    proof fn lemma_pair(self, a: T, b: T) {
    }
}

impl<T, T0, T1, T2, T5, T6, T7, T8> TypedSwap<TupleIndex3, TupleIndex4, T>
    for (T0, T1, T2, T, T, T5, T6, T7, T8)
{
    fn swap_positions(&mut self) {
        core::mem::swap(&mut self.3, &mut self.4);
    }

    proof fn lemma_pair(self, a: T, b: T) {
    }
}

impl<T, T0, T1, T2, T4, T6, T7, T8> TypedSwap<TupleIndex3, TupleIndex5, T>
    for (T0, T1, T2, T, T4, T, T6, T7, T8)
{
    fn swap_positions(&mut self) {
        core::mem::swap(&mut self.3, &mut self.5);
    }

    proof fn lemma_pair(self, a: T, b: T) {
    }
}

impl<T, T0, T1, T2, T4, T5, T7, T8> TypedSwap<TupleIndex3, TupleIndex6, T>
    for (T0, T1, T2, T, T4, T5, T, T7, T8)
{
    fn swap_positions(&mut self) {
        core::mem::swap(&mut self.3, &mut self.6);
    }

    proof fn lemma_pair(self, a: T, b: T) {
    }
}

impl<T, T0, T1, T2, T4, T5, T6, T8> TypedSwap<TupleIndex3, TupleIndex7, T>
    for (T0, T1, T2, T, T4, T5, T6, T, T8)
{
    fn swap_positions(&mut self) {
        core::mem::swap(&mut self.3, &mut self.7);
    }

    proof fn lemma_pair(self, a: T, b: T) {
    }
}

impl<T, T0, T1, T2, T4, T5, T6, T7> TypedSwap<TupleIndex3, TupleIndex8, T>
    for (T0, T1, T2, T, T4, T5, T6, T7, T)
{
    fn swap_positions(&mut self) {
        core::mem::swap(&mut self.3, &mut self.8);
    }

    proof fn lemma_pair(self, a: T, b: T) {
    }
}

impl<T, T1, T2, T3, T5, T6, T7, T8> TypedSwap<TupleIndex4, TupleIndex0, T>
    for (T, T1, T2, T3, T, T5, T6, T7, T8)
{
    fn swap_positions(&mut self) {
        core::mem::swap(&mut self.4, &mut self.0);
    }

    proof fn lemma_pair(self, a: T, b: T) {
    }
}

impl<T, T0, T2, T3, T5, T6, T7, T8> TypedSwap<TupleIndex4, TupleIndex1, T>
    for (T0, T, T2, T3, T, T5, T6, T7, T8)
{
    fn swap_positions(&mut self) {
        core::mem::swap(&mut self.4, &mut self.1);
    }

    proof fn lemma_pair(self, a: T, b: T) {
    }
}

impl<T, T0, T1, T3, T5, T6, T7, T8> TypedSwap<TupleIndex4, TupleIndex2, T>
    for (T0, T1, T, T3, T, T5, T6, T7, T8)
{
    fn swap_positions(&mut self) {
        core::mem::swap(&mut self.4, &mut self.2);
    }

    proof fn lemma_pair(self, a: T, b: T) {
    }
}

impl<T, T0, T1, T2, T5, T6, T7, T8> TypedSwap<TupleIndex4, TupleIndex3, T>
    for (T0, T1, T2, T, T, T5, T6, T7, T8)
{
    fn swap_positions(&mut self) {
        core::mem::swap(&mut self.4, &mut self.3);
    }

    proof fn lemma_pair(self, a: T, b: T) {
    }
}

impl<T, T0, T1, T2, T3, T6, T7, T8> TypedSwap<TupleIndex4, TupleIndex5, T>
    for (T0, T1, T2, T3, T, T, T6, T7, T8)
{
    fn swap_positions(&mut self) {
        core::mem::swap(&mut self.4, &mut self.5);
    }

    proof fn lemma_pair(self, a: T, b: T) {
    }
}

impl<T, T0, T1, T2, T3, T5, T7, T8> TypedSwap<TupleIndex4, TupleIndex6, T>
    for (T0, T1, T2, T3, T, T5, T, T7, T8)
{
    fn swap_positions(&mut self) {
        core::mem::swap(&mut self.4, &mut self.6);
    }

    proof fn lemma_pair(self, a: T, b: T) {
    }
}

impl<T, T0, T1, T2, T3, T5, T6, T8> TypedSwap<TupleIndex4, TupleIndex7, T>
    for (T0, T1, T2, T3, T, T5, T6, T, T8)
{
    fn swap_positions(&mut self) {
        core::mem::swap(&mut self.4, &mut self.7);
    }

    proof fn lemma_pair(self, a: T, b: T) {
    }
}

impl<T, T0, T1, T2, T3, T5, T6, T7> TypedSwap<TupleIndex4, TupleIndex8, T>
    for (T0, T1, T2, T3, T, T5, T6, T7, T)
{
    fn swap_positions(&mut self) {
        core::mem::swap(&mut self.4, &mut self.8);
    }

    proof fn lemma_pair(self, a: T, b: T) {
    }
}

impl<T, T1, T2, T3, T4, T6, T7, T8> TypedSwap<TupleIndex5, TupleIndex0, T>
    for (T, T1, T2, T3, T4, T, T6, T7, T8)
{
    fn swap_positions(&mut self) {
        core::mem::swap(&mut self.5, &mut self.0);
    }

    proof fn lemma_pair(self, a: T, b: T) {
    }
}

impl<T, T0, T2, T3, T4, T6, T7, T8> TypedSwap<TupleIndex5, TupleIndex1, T>
    for (T0, T, T2, T3, T4, T, T6, T7, T8)
{
    fn swap_positions(&mut self) {
        core::mem::swap(&mut self.5, &mut self.1);
    }

    proof fn lemma_pair(self, a: T, b: T) {
    }
}

impl<T, T0, T1, T3, T4, T6, T7, T8> TypedSwap<TupleIndex5, TupleIndex2, T>
    for (T0, T1, T, T3, T4, T, T6, T7, T8)
{
    fn swap_positions(&mut self) {
        core::mem::swap(&mut self.5, &mut self.2);
    }

    proof fn lemma_pair(self, a: T, b: T) {
    }
}

impl<T, T0, T1, T2, T4, T6, T7, T8> TypedSwap<TupleIndex5, TupleIndex3, T>
    for (T0, T1, T2, T, T4, T, T6, T7, T8)
{
    fn swap_positions(&mut self) {
        core::mem::swap(&mut self.5, &mut self.3);
    }

    proof fn lemma_pair(self, a: T, b: T) {
    }
}

impl<T, T0, T1, T2, T3, T6, T7, T8> TypedSwap<TupleIndex5, TupleIndex4, T>
    for (T0, T1, T2, T3, T, T, T6, T7, T8)
{
    fn swap_positions(&mut self) {
        core::mem::swap(&mut self.5, &mut self.4);
    }

    proof fn lemma_pair(self, a: T, b: T) {
    }
}

impl<T, T0, T1, T2, T3, T4, T7, T8> TypedSwap<TupleIndex5, TupleIndex6, T>
    for (T0, T1, T2, T3, T4, T, T, T7, T8)
{
    fn swap_positions(&mut self) {
        core::mem::swap(&mut self.5, &mut self.6);
    }

    proof fn lemma_pair(self, a: T, b: T) {
    }
}

impl<T, T0, T1, T2, T3, T4, T6, T8> TypedSwap<TupleIndex5, TupleIndex7, T>
    for (T0, T1, T2, T3, T4, T, T6, T, T8)
{
    fn swap_positions(&mut self) {
        core::mem::swap(&mut self.5, &mut self.7);
    }

    proof fn lemma_pair(self, a: T, b: T) {
    }
}

impl<T, T0, T1, T2, T3, T4, T6, T7> TypedSwap<TupleIndex5, TupleIndex8, T>
    for (T0, T1, T2, T3, T4, T, T6, T7, T)
{
    fn swap_positions(&mut self) {
        core::mem::swap(&mut self.5, &mut self.8);
    }

    proof fn lemma_pair(self, a: T, b: T) {
    }
}

impl<T, T1, T2, T3, T4, T5, T7, T8> TypedSwap<TupleIndex6, TupleIndex0, T>
    for (T, T1, T2, T3, T4, T5, T, T7, T8)
{
    fn swap_positions(&mut self) {
        core::mem::swap(&mut self.6, &mut self.0);
    }

    proof fn lemma_pair(self, a: T, b: T) {
    }
}

impl<T, T0, T2, T3, T4, T5, T7, T8> TypedSwap<TupleIndex6, TupleIndex1, T>
    for (T0, T, T2, T3, T4, T5, T, T7, T8)
{
    fn swap_positions(&mut self) {
        core::mem::swap(&mut self.6, &mut self.1);
    }

    proof fn lemma_pair(self, a: T, b: T) {
    }
}

impl<T, T0, T1, T3, T4, T5, T7, T8> TypedSwap<TupleIndex6, TupleIndex2, T>
    for (T0, T1, T, T3, T4, T5, T, T7, T8)
{
    fn swap_positions(&mut self) {
        core::mem::swap(&mut self.6, &mut self.2);
    }

    proof fn lemma_pair(self, a: T, b: T) {
    }
}

impl<T, T0, T1, T2, T4, T5, T7, T8> TypedSwap<TupleIndex6, TupleIndex3, T>
    for (T0, T1, T2, T, T4, T5, T, T7, T8)
{
    fn swap_positions(&mut self) {
        core::mem::swap(&mut self.6, &mut self.3);
    }

    proof fn lemma_pair(self, a: T, b: T) {
    }
}

impl<T, T0, T1, T2, T3, T5, T7, T8> TypedSwap<TupleIndex6, TupleIndex4, T>
    for (T0, T1, T2, T3, T, T5, T, T7, T8)
{
    fn swap_positions(&mut self) {
        core::mem::swap(&mut self.6, &mut self.4);
    }

    proof fn lemma_pair(self, a: T, b: T) {
    }
}

impl<T, T0, T1, T2, T3, T4, T7, T8> TypedSwap<TupleIndex6, TupleIndex5, T>
    for (T0, T1, T2, T3, T4, T, T, T7, T8)
{
    fn swap_positions(&mut self) {
        core::mem::swap(&mut self.6, &mut self.5);
    }

    proof fn lemma_pair(self, a: T, b: T) {
    }
}

impl<T, T0, T1, T2, T3, T4, T5, T8> TypedSwap<TupleIndex6, TupleIndex7, T>
    for (T0, T1, T2, T3, T4, T5, T, T, T8)
{
    fn swap_positions(&mut self) {
        core::mem::swap(&mut self.6, &mut self.7);
    }

    proof fn lemma_pair(self, a: T, b: T) {
    }
}

impl<T, T0, T1, T2, T3, T4, T5, T7> TypedSwap<TupleIndex6, TupleIndex8, T>
    for (T0, T1, T2, T3, T4, T5, T, T7, T)
{
    fn swap_positions(&mut self) {
        core::mem::swap(&mut self.6, &mut self.8);
    }

    proof fn lemma_pair(self, a: T, b: T) {
    }
}

impl<T, T1, T2, T3, T4, T5, T6, T8> TypedSwap<TupleIndex7, TupleIndex0, T>
    for (T, T1, T2, T3, T4, T5, T6, T, T8)
{
    fn swap_positions(&mut self) {
        core::mem::swap(&mut self.7, &mut self.0);
    }

    proof fn lemma_pair(self, a: T, b: T) {
    }
}

impl<T, T0, T2, T3, T4, T5, T6, T8> TypedSwap<TupleIndex7, TupleIndex1, T>
    for (T0, T, T2, T3, T4, T5, T6, T, T8)
{
    fn swap_positions(&mut self) {
        core::mem::swap(&mut self.7, &mut self.1);
    }

    proof fn lemma_pair(self, a: T, b: T) {
    }
}

impl<T, T0, T1, T3, T4, T5, T6, T8> TypedSwap<TupleIndex7, TupleIndex2, T>
    for (T0, T1, T, T3, T4, T5, T6, T, T8)
{
    fn swap_positions(&mut self) {
        core::mem::swap(&mut self.7, &mut self.2);
    }

    proof fn lemma_pair(self, a: T, b: T) {
    }
}

impl<T, T0, T1, T2, T4, T5, T6, T8> TypedSwap<TupleIndex7, TupleIndex3, T>
    for (T0, T1, T2, T, T4, T5, T6, T, T8)
{
    fn swap_positions(&mut self) {
        core::mem::swap(&mut self.7, &mut self.3);
    }

    proof fn lemma_pair(self, a: T, b: T) {
    }
}

impl<T, T0, T1, T2, T3, T5, T6, T8> TypedSwap<TupleIndex7, TupleIndex4, T>
    for (T0, T1, T2, T3, T, T5, T6, T, T8)
{
    fn swap_positions(&mut self) {
        core::mem::swap(&mut self.7, &mut self.4);
    }

    proof fn lemma_pair(self, a: T, b: T) {
    }
}

impl<T, T0, T1, T2, T3, T4, T6, T8> TypedSwap<TupleIndex7, TupleIndex5, T>
    for (T0, T1, T2, T3, T4, T, T6, T, T8)
{
    fn swap_positions(&mut self) {
        core::mem::swap(&mut self.7, &mut self.5);
    }

    proof fn lemma_pair(self, a: T, b: T) {
    }
}

impl<T, T0, T1, T2, T3, T4, T5, T8> TypedSwap<TupleIndex7, TupleIndex6, T>
    for (T0, T1, T2, T3, T4, T5, T, T, T8)
{
    fn swap_positions(&mut self) {
        core::mem::swap(&mut self.7, &mut self.6);
    }

    proof fn lemma_pair(self, a: T, b: T) {
    }
}

impl<T, T0, T1, T2, T3, T4, T5, T6> TypedSwap<TupleIndex7, TupleIndex8, T>
    for (T0, T1, T2, T3, T4, T5, T6, T, T)
{
    fn swap_positions(&mut self) {
        core::mem::swap(&mut self.7, &mut self.8);
    }

    proof fn lemma_pair(self, a: T, b: T) {
    }
}

impl<T, T1, T2, T3, T4, T5, T6, T7> TypedSwap<TupleIndex8, TupleIndex0, T>
    for (T, T1, T2, T3, T4, T5, T6, T7, T)
{
    fn swap_positions(&mut self) {
        core::mem::swap(&mut self.8, &mut self.0);
    }

    proof fn lemma_pair(self, a: T, b: T) {
    }
}

impl<T, T0, T2, T3, T4, T5, T6, T7> TypedSwap<TupleIndex8, TupleIndex1, T>
    for (T0, T, T2, T3, T4, T5, T6, T7, T)
{
    fn swap_positions(&mut self) {
        core::mem::swap(&mut self.8, &mut self.1);
    }

    proof fn lemma_pair(self, a: T, b: T) {
    }
}

impl<T, T0, T1, T3, T4, T5, T6, T7> TypedSwap<TupleIndex8, TupleIndex2, T>
    for (T0, T1, T, T3, T4, T5, T6, T7, T)
{
    fn swap_positions(&mut self) {
        core::mem::swap(&mut self.8, &mut self.2);
    }

    proof fn lemma_pair(self, a: T, b: T) {
    }
}

impl<T, T0, T1, T2, T4, T5, T6, T7> TypedSwap<TupleIndex8, TupleIndex3, T>
    for (T0, T1, T2, T, T4, T5, T6, T7, T)
{
    fn swap_positions(&mut self) {
        core::mem::swap(&mut self.8, &mut self.3);
    }

    proof fn lemma_pair(self, a: T, b: T) {
    }
}

impl<T, T0, T1, T2, T3, T5, T6, T7> TypedSwap<TupleIndex8, TupleIndex4, T>
    for (T0, T1, T2, T3, T, T5, T6, T7, T)
{
    fn swap_positions(&mut self) {
        core::mem::swap(&mut self.8, &mut self.4);
    }

    proof fn lemma_pair(self, a: T, b: T) {
    }
}

impl<T, T0, T1, T2, T3, T4, T6, T7> TypedSwap<TupleIndex8, TupleIndex5, T>
    for (T0, T1, T2, T3, T4, T, T6, T7, T)
{
    fn swap_positions(&mut self) {
        core::mem::swap(&mut self.8, &mut self.5);
    }

    proof fn lemma_pair(self, a: T, b: T) {
    }
}

impl<T, T0, T1, T2, T3, T4, T5, T7> TypedSwap<TupleIndex8, TupleIndex6, T>
    for (T0, T1, T2, T3, T4, T5, T, T7, T)
{
    fn swap_positions(&mut self) {
        core::mem::swap(&mut self.8, &mut self.6);
    }

    proof fn lemma_pair(self, a: T, b: T) {
    }
}

impl<T, T0, T1, T2, T3, T4, T5, T6> TypedSwap<TupleIndex8, TupleIndex7, T>
    for (T0, T1, T2, T3, T4, T5, T6, T, T)
{
    fn swap_positions(&mut self) {
        core::mem::swap(&mut self.8, &mut self.7);
    }

    proof fn lemma_pair(self, a: T, b: T) {
    }
}

impl<T, T2, T3, T4, T5, T6, T7, T8, T9> TypedSwap<TupleIndex0, TupleIndex1, T>
    for (T, T, T2, T3, T4, T5, T6, T7, T8, T9)
{
    fn swap_positions(&mut self) {
        core::mem::swap(&mut self.0, &mut self.1);
    }

    proof fn lemma_pair(self, a: T, b: T) {
    }
}

impl<T, T1, T3, T4, T5, T6, T7, T8, T9> TypedSwap<TupleIndex0, TupleIndex2, T>
    for (T, T1, T, T3, T4, T5, T6, T7, T8, T9)
{
    fn swap_positions(&mut self) {
        core::mem::swap(&mut self.0, &mut self.2);
    }

    proof fn lemma_pair(self, a: T, b: T) {
    }
}

impl<T, T1, T2, T4, T5, T6, T7, T8, T9> TypedSwap<TupleIndex0, TupleIndex3, T>
    for (T, T1, T2, T, T4, T5, T6, T7, T8, T9)
{
    fn swap_positions(&mut self) {
        core::mem::swap(&mut self.0, &mut self.3);
    }

    proof fn lemma_pair(self, a: T, b: T) {
    }
}

impl<T, T1, T2, T3, T5, T6, T7, T8, T9> TypedSwap<TupleIndex0, TupleIndex4, T>
    for (T, T1, T2, T3, T, T5, T6, T7, T8, T9)
{
    fn swap_positions(&mut self) {
        core::mem::swap(&mut self.0, &mut self.4);
    }

    proof fn lemma_pair(self, a: T, b: T) {
    }
}

impl<T, T1, T2, T3, T4, T6, T7, T8, T9> TypedSwap<TupleIndex0, TupleIndex5, T>
    for (T, T1, T2, T3, T4, T, T6, T7, T8, T9)
{
    fn swap_positions(&mut self) {
        core::mem::swap(&mut self.0, &mut self.5);
    }

    proof fn lemma_pair(self, a: T, b: T) {
    }
}

impl<T, T1, T2, T3, T4, T5, T7, T8, T9> TypedSwap<TupleIndex0, TupleIndex6, T>
    for (T, T1, T2, T3, T4, T5, T, T7, T8, T9)
{
    fn swap_positions(&mut self) {
        core::mem::swap(&mut self.0, &mut self.6);
    }

    proof fn lemma_pair(self, a: T, b: T) {
    }
}

impl<T, T1, T2, T3, T4, T5, T6, T8, T9> TypedSwap<TupleIndex0, TupleIndex7, T>
    for (T, T1, T2, T3, T4, T5, T6, T, T8, T9)
{
    fn swap_positions(&mut self) {
        core::mem::swap(&mut self.0, &mut self.7);
    }

    proof fn lemma_pair(self, a: T, b: T) {
    }
}

impl<T, T1, T2, T3, T4, T5, T6, T7, T9> TypedSwap<TupleIndex0, TupleIndex8, T>
    for (T, T1, T2, T3, T4, T5, T6, T7, T, T9)
{
    fn swap_positions(&mut self) {
        core::mem::swap(&mut self.0, &mut self.8);
    }

    proof fn lemma_pair(self, a: T, b: T) {
    }
}

impl<T, T1, T2, T3, T4, T5, T6, T7, T8> TypedSwap<TupleIndex0, TupleIndex9, T>
    for (T, T1, T2, T3, T4, T5, T6, T7, T8, T)
{
    fn swap_positions(&mut self) {
        core::mem::swap(&mut self.0, &mut self.9);
    }

    proof fn lemma_pair(self, a: T, b: T) {
    }
}

impl<T, T2, T3, T4, T5, T6, T7, T8, T9> TypedSwap<TupleIndex1, TupleIndex0, T>
    for (T, T, T2, T3, T4, T5, T6, T7, T8, T9)
{
    fn swap_positions(&mut self) {
        core::mem::swap(&mut self.1, &mut self.0);
    }

    proof fn lemma_pair(self, a: T, b: T) {
    }
}

impl<T, T0, T3, T4, T5, T6, T7, T8, T9> TypedSwap<TupleIndex1, TupleIndex2, T>
    for (T0, T, T, T3, T4, T5, T6, T7, T8, T9)
{
    fn swap_positions(&mut self) {
        core::mem::swap(&mut self.1, &mut self.2);
    }

    proof fn lemma_pair(self, a: T, b: T) {
    }
}

impl<T, T0, T2, T4, T5, T6, T7, T8, T9> TypedSwap<TupleIndex1, TupleIndex3, T>
    for (T0, T, T2, T, T4, T5, T6, T7, T8, T9)
{
    fn swap_positions(&mut self) {
        core::mem::swap(&mut self.1, &mut self.3);
    }

    proof fn lemma_pair(self, a: T, b: T) {
    }
}

impl<T, T0, T2, T3, T5, T6, T7, T8, T9> TypedSwap<TupleIndex1, TupleIndex4, T>
    for (T0, T, T2, T3, T, T5, T6, T7, T8, T9)
{
    fn swap_positions(&mut self) {
        core::mem::swap(&mut self.1, &mut self.4);
    }

    proof fn lemma_pair(self, a: T, b: T) {
    }
}

impl<T, T0, T2, T3, T4, T6, T7, T8, T9> TypedSwap<TupleIndex1, TupleIndex5, T>
    for (T0, T, T2, T3, T4, T, T6, T7, T8, T9)
{
    fn swap_positions(&mut self) {
        core::mem::swap(&mut self.1, &mut self.5);
    }

    proof fn lemma_pair(self, a: T, b: T) {
    }
}

impl<T, T0, T2, T3, T4, T5, T7, T8, T9> TypedSwap<TupleIndex1, TupleIndex6, T>
    for (T0, T, T2, T3, T4, T5, T, T7, T8, T9)
{
    fn swap_positions(&mut self) {
        core::mem::swap(&mut self.1, &mut self.6);
    }

    proof fn lemma_pair(self, a: T, b: T) {
    }
}

impl<T, T0, T2, T3, T4, T5, T6, T8, T9> TypedSwap<TupleIndex1, TupleIndex7, T>
    for (T0, T, T2, T3, T4, T5, T6, T, T8, T9)
{
    fn swap_positions(&mut self) {
        core::mem::swap(&mut self.1, &mut self.7);
    }

    proof fn lemma_pair(self, a: T, b: T) {
    }
}

impl<T, T0, T2, T3, T4, T5, T6, T7, T9> TypedSwap<TupleIndex1, TupleIndex8, T>
    for (T0, T, T2, T3, T4, T5, T6, T7, T, T9)
{
    fn swap_positions(&mut self) {
        core::mem::swap(&mut self.1, &mut self.8);
    }

    proof fn lemma_pair(self, a: T, b: T) {
    }
}

impl<T, T0, T2, T3, T4, T5, T6, T7, T8> TypedSwap<TupleIndex1, TupleIndex9, T>
    for (T0, T, T2, T3, T4, T5, T6, T7, T8, T)
{
    fn swap_positions(&mut self) {
        core::mem::swap(&mut self.1, &mut self.9);
    }

    proof fn lemma_pair(self, a: T, b: T) {
    }
}

impl<T, T1, T3, T4, T5, T6, T7, T8, T9> TypedSwap<TupleIndex2, TupleIndex0, T>
    for (T, T1, T, T3, T4, T5, T6, T7, T8, T9)
{
    fn swap_positions(&mut self) {
        core::mem::swap(&mut self.2, &mut self.0);
    }

    proof fn lemma_pair(self, a: T, b: T) {
    }
}

impl<T, T0, T3, T4, T5, T6, T7, T8, T9> TypedSwap<TupleIndex2, TupleIndex1, T>
    for (T0, T, T, T3, T4, T5, T6, T7, T8, T9)
{
    fn swap_positions(&mut self) {
        core::mem::swap(&mut self.2, &mut self.1);
    }

    proof fn lemma_pair(self, a: T, b: T) {
    }
}

impl<T, T0, T1, T4, T5, T6, T7, T8, T9> TypedSwap<TupleIndex2, TupleIndex3, T>
    for (T0, T1, T, T, T4, T5, T6, T7, T8, T9)
{
    fn swap_positions(&mut self) {
        core::mem::swap(&mut self.2, &mut self.3);
    }

    proof fn lemma_pair(self, a: T, b: T) {
    }
}

impl<T, T0, T1, T3, T5, T6, T7, T8, T9> TypedSwap<TupleIndex2, TupleIndex4, T>
    for (T0, T1, T, T3, T, T5, T6, T7, T8, T9)
{
    fn swap_positions(&mut self) {
        core::mem::swap(&mut self.2, &mut self.4);
    }

    proof fn lemma_pair(self, a: T, b: T) {
    }
}

impl<T, T0, T1, T3, T4, T6, T7, T8, T9> TypedSwap<TupleIndex2, TupleIndex5, T>
    for (T0, T1, T, T3, T4, T, T6, T7, T8, T9)
{
    fn swap_positions(&mut self) {
        core::mem::swap(&mut self.2, &mut self.5);
    }

    proof fn lemma_pair(self, a: T, b: T) {
    }
}

impl<T, T0, T1, T3, T4, T5, T7, T8, T9> TypedSwap<TupleIndex2, TupleIndex6, T>
    for (T0, T1, T, T3, T4, T5, T, T7, T8, T9)
{
    fn swap_positions(&mut self) {
        core::mem::swap(&mut self.2, &mut self.6);
    }

    proof fn lemma_pair(self, a: T, b: T) {
    }
}

impl<T, T0, T1, T3, T4, T5, T6, T8, T9> TypedSwap<TupleIndex2, TupleIndex7, T>
    for (T0, T1, T, T3, T4, T5, T6, T, T8, T9)
{
    fn swap_positions(&mut self) {
        core::mem::swap(&mut self.2, &mut self.7);
    }

    proof fn lemma_pair(self, a: T, b: T) {
    }
}

impl<T, T0, T1, T3, T4, T5, T6, T7, T9> TypedSwap<TupleIndex2, TupleIndex8, T>
    for (T0, T1, T, T3, T4, T5, T6, T7, T, T9)
{
    fn swap_positions(&mut self) {
        core::mem::swap(&mut self.2, &mut self.8);
    }

    proof fn lemma_pair(self, a: T, b: T) {
    }
}

impl<T, T0, T1, T3, T4, T5, T6, T7, T8> TypedSwap<TupleIndex2, TupleIndex9, T>
    for (T0, T1, T, T3, T4, T5, T6, T7, T8, T)
{
    fn swap_positions(&mut self) {
        core::mem::swap(&mut self.2, &mut self.9);
    }

    proof fn lemma_pair(self, a: T, b: T) {
    }
}

impl<T, T1, T2, T4, T5, T6, T7, T8, T9> TypedSwap<TupleIndex3, TupleIndex0, T>
    for (T, T1, T2, T, T4, T5, T6, T7, T8, T9)
{
    fn swap_positions(&mut self) {
        core::mem::swap(&mut self.3, &mut self.0);
    }

    proof fn lemma_pair(self, a: T, b: T) {
    }
}

impl<T, T0, T2, T4, T5, T6, T7, T8, T9> TypedSwap<TupleIndex3, TupleIndex1, T>
    for (T0, T, T2, T, T4, T5, T6, T7, T8, T9)
{
    fn swap_positions(&mut self) {
        core::mem::swap(&mut self.3, &mut self.1);
    }

    proof fn lemma_pair(self, a: T, b: T) {
    }
}

impl<T, T0, T1, T4, T5, T6, T7, T8, T9> TypedSwap<TupleIndex3, TupleIndex2, T>
    for (T0, T1, T, T, T4, T5, T6, T7, T8, T9)
{
    fn swap_positions(&mut self) {
        core::mem::swap(&mut self.3, &mut self.2);
    }

    proof fn lemma_pair(self, a: T, b: T) {
    }
}

impl<T, T0, T1, T2, T5, T6, T7, T8, T9> TypedSwap<TupleIndex3, TupleIndex4, T>
    for (T0, T1, T2, T, T, T5, T6, T7, T8, T9)
{
    fn swap_positions(&mut self) {
        core::mem::swap(&mut self.3, &mut self.4);
    }

    proof fn lemma_pair(self, a: T, b: T) {
    }
}

impl<T, T0, T1, T2, T4, T6, T7, T8, T9> TypedSwap<TupleIndex3, TupleIndex5, T>
    for (T0, T1, T2, T, T4, T, T6, T7, T8, T9)
{
    fn swap_positions(&mut self) {
        core::mem::swap(&mut self.3, &mut self.5);
    }

    proof fn lemma_pair(self, a: T, b: T) {
    }
}

impl<T, T0, T1, T2, T4, T5, T7, T8, T9> TypedSwap<TupleIndex3, TupleIndex6, T>
    for (T0, T1, T2, T, T4, T5, T, T7, T8, T9)
{
    fn swap_positions(&mut self) {
        core::mem::swap(&mut self.3, &mut self.6);
    }

    proof fn lemma_pair(self, a: T, b: T) {
    }
}

impl<T, T0, T1, T2, T4, T5, T6, T8, T9> TypedSwap<TupleIndex3, TupleIndex7, T>
    for (T0, T1, T2, T, T4, T5, T6, T, T8, T9)
{
    fn swap_positions(&mut self) {
        core::mem::swap(&mut self.3, &mut self.7);
    }

    proof fn lemma_pair(self, a: T, b: T) {
    }
}

impl<T, T0, T1, T2, T4, T5, T6, T7, T9> TypedSwap<TupleIndex3, TupleIndex8, T>
    for (T0, T1, T2, T, T4, T5, T6, T7, T, T9)
{
    fn swap_positions(&mut self) {
        core::mem::swap(&mut self.3, &mut self.8);
    }

    proof fn lemma_pair(self, a: T, b: T) {
    }
}

impl<T, T0, T1, T2, T4, T5, T6, T7, T8> TypedSwap<TupleIndex3, TupleIndex9, T>
    for (T0, T1, T2, T, T4, T5, T6, T7, T8, T)
{
    fn swap_positions(&mut self) {
        core::mem::swap(&mut self.3, &mut self.9);
    }

    proof fn lemma_pair(self, a: T, b: T) {
    }
}

impl<T, T1, T2, T3, T5, T6, T7, T8, T9> TypedSwap<TupleIndex4, TupleIndex0, T>
    for (T, T1, T2, T3, T, T5, T6, T7, T8, T9)
{
    fn swap_positions(&mut self) {
        core::mem::swap(&mut self.4, &mut self.0);
    }

    proof fn lemma_pair(self, a: T, b: T) {
    }
}

impl<T, T0, T2, T3, T5, T6, T7, T8, T9> TypedSwap<TupleIndex4, TupleIndex1, T>
    for (T0, T, T2, T3, T, T5, T6, T7, T8, T9)
{
    fn swap_positions(&mut self) {
        core::mem::swap(&mut self.4, &mut self.1);
    }

    proof fn lemma_pair(self, a: T, b: T) {
    }
}

impl<T, T0, T1, T3, T5, T6, T7, T8, T9> TypedSwap<TupleIndex4, TupleIndex2, T>
    for (T0, T1, T, T3, T, T5, T6, T7, T8, T9)
{
    fn swap_positions(&mut self) {
        core::mem::swap(&mut self.4, &mut self.2);
    }

    proof fn lemma_pair(self, a: T, b: T) {
    }
}

impl<T, T0, T1, T2, T5, T6, T7, T8, T9> TypedSwap<TupleIndex4, TupleIndex3, T>
    for (T0, T1, T2, T, T, T5, T6, T7, T8, T9)
{
    fn swap_positions(&mut self) {
        core::mem::swap(&mut self.4, &mut self.3);
    }

    proof fn lemma_pair(self, a: T, b: T) {
    }
}

impl<T, T0, T1, T2, T3, T6, T7, T8, T9> TypedSwap<TupleIndex4, TupleIndex5, T>
    for (T0, T1, T2, T3, T, T, T6, T7, T8, T9)
{
    fn swap_positions(&mut self) {
        core::mem::swap(&mut self.4, &mut self.5);
    }

    proof fn lemma_pair(self, a: T, b: T) {
    }
}

impl<T, T0, T1, T2, T3, T5, T7, T8, T9> TypedSwap<TupleIndex4, TupleIndex6, T>
    for (T0, T1, T2, T3, T, T5, T, T7, T8, T9)
{
    fn swap_positions(&mut self) {
        core::mem::swap(&mut self.4, &mut self.6);
    }

    proof fn lemma_pair(self, a: T, b: T) {
    }
}

impl<T, T0, T1, T2, T3, T5, T6, T8, T9> TypedSwap<TupleIndex4, TupleIndex7, T>
    for (T0, T1, T2, T3, T, T5, T6, T, T8, T9)
{
    fn swap_positions(&mut self) {
        core::mem::swap(&mut self.4, &mut self.7);
    }

    proof fn lemma_pair(self, a: T, b: T) {
    }
}

impl<T, T0, T1, T2, T3, T5, T6, T7, T9> TypedSwap<TupleIndex4, TupleIndex8, T>
    for (T0, T1, T2, T3, T, T5, T6, T7, T, T9)
{
    fn swap_positions(&mut self) {
        core::mem::swap(&mut self.4, &mut self.8);
    }

    proof fn lemma_pair(self, a: T, b: T) {
    }
}

impl<T, T0, T1, T2, T3, T5, T6, T7, T8> TypedSwap<TupleIndex4, TupleIndex9, T>
    for (T0, T1, T2, T3, T, T5, T6, T7, T8, T)
{
    fn swap_positions(&mut self) {
        core::mem::swap(&mut self.4, &mut self.9);
    }

    proof fn lemma_pair(self, a: T, b: T) {
    }
}

impl<T, T1, T2, T3, T4, T6, T7, T8, T9> TypedSwap<TupleIndex5, TupleIndex0, T>
    for (T, T1, T2, T3, T4, T, T6, T7, T8, T9)
{
    fn swap_positions(&mut self) {
        core::mem::swap(&mut self.5, &mut self.0);
    }

    proof fn lemma_pair(self, a: T, b: T) {
    }
}

impl<T, T0, T2, T3, T4, T6, T7, T8, T9> TypedSwap<TupleIndex5, TupleIndex1, T>
    for (T0, T, T2, T3, T4, T, T6, T7, T8, T9)
{
    fn swap_positions(&mut self) {
        core::mem::swap(&mut self.5, &mut self.1);
    }

    proof fn lemma_pair(self, a: T, b: T) {
    }
}

impl<T, T0, T1, T3, T4, T6, T7, T8, T9> TypedSwap<TupleIndex5, TupleIndex2, T>
    for (T0, T1, T, T3, T4, T, T6, T7, T8, T9)
{
    fn swap_positions(&mut self) {
        core::mem::swap(&mut self.5, &mut self.2);
    }

    proof fn lemma_pair(self, a: T, b: T) {
    }
}

impl<T, T0, T1, T2, T4, T6, T7, T8, T9> TypedSwap<TupleIndex5, TupleIndex3, T>
    for (T0, T1, T2, T, T4, T, T6, T7, T8, T9)
{
    fn swap_positions(&mut self) {
        core::mem::swap(&mut self.5, &mut self.3);
    }

    proof fn lemma_pair(self, a: T, b: T) {
    }
}

impl<T, T0, T1, T2, T3, T6, T7, T8, T9> TypedSwap<TupleIndex5, TupleIndex4, T>
    for (T0, T1, T2, T3, T, T, T6, T7, T8, T9)
{
    fn swap_positions(&mut self) {
        core::mem::swap(&mut self.5, &mut self.4);
    }

    proof fn lemma_pair(self, a: T, b: T) {
    }
}

impl<T, T0, T1, T2, T3, T4, T7, T8, T9> TypedSwap<TupleIndex5, TupleIndex6, T>
    for (T0, T1, T2, T3, T4, T, T, T7, T8, T9)
{
    fn swap_positions(&mut self) {
        core::mem::swap(&mut self.5, &mut self.6);
    }

    proof fn lemma_pair(self, a: T, b: T) {
    }
}

impl<T, T0, T1, T2, T3, T4, T6, T8, T9> TypedSwap<TupleIndex5, TupleIndex7, T>
    for (T0, T1, T2, T3, T4, T, T6, T, T8, T9)
{
    fn swap_positions(&mut self) {
        core::mem::swap(&mut self.5, &mut self.7);
    }

    proof fn lemma_pair(self, a: T, b: T) {
    }
}

impl<T, T0, T1, T2, T3, T4, T6, T7, T9> TypedSwap<TupleIndex5, TupleIndex8, T>
    for (T0, T1, T2, T3, T4, T, T6, T7, T, T9)
{
    fn swap_positions(&mut self) {
        core::mem::swap(&mut self.5, &mut self.8);
    }

    proof fn lemma_pair(self, a: T, b: T) {
    }
}

impl<T, T0, T1, T2, T3, T4, T6, T7, T8> TypedSwap<TupleIndex5, TupleIndex9, T>
    for (T0, T1, T2, T3, T4, T, T6, T7, T8, T)
{
    fn swap_positions(&mut self) {
        core::mem::swap(&mut self.5, &mut self.9);
    }

    proof fn lemma_pair(self, a: T, b: T) {
    }
}

impl<T, T1, T2, T3, T4, T5, T7, T8, T9> TypedSwap<TupleIndex6, TupleIndex0, T>
    for (T, T1, T2, T3, T4, T5, T, T7, T8, T9)
{
    fn swap_positions(&mut self) {
        core::mem::swap(&mut self.6, &mut self.0);
    }

    proof fn lemma_pair(self, a: T, b: T) {
    }
}

impl<T, T0, T2, T3, T4, T5, T7, T8, T9> TypedSwap<TupleIndex6, TupleIndex1, T>
    for (T0, T, T2, T3, T4, T5, T, T7, T8, T9)
{
    fn swap_positions(&mut self) {
        core::mem::swap(&mut self.6, &mut self.1);
    }

    proof fn lemma_pair(self, a: T, b: T) {
    }
}

impl<T, T0, T1, T3, T4, T5, T7, T8, T9> TypedSwap<TupleIndex6, TupleIndex2, T>
    for (T0, T1, T, T3, T4, T5, T, T7, T8, T9)
{
    fn swap_positions(&mut self) {
        core::mem::swap(&mut self.6, &mut self.2);
    }

    proof fn lemma_pair(self, a: T, b: T) {
    }
}

impl<T, T0, T1, T2, T4, T5, T7, T8, T9> TypedSwap<TupleIndex6, TupleIndex3, T>
    for (T0, T1, T2, T, T4, T5, T, T7, T8, T9)
{
    fn swap_positions(&mut self) {
        core::mem::swap(&mut self.6, &mut self.3);
    }

    proof fn lemma_pair(self, a: T, b: T) {
    }
}

impl<T, T0, T1, T2, T3, T5, T7, T8, T9> TypedSwap<TupleIndex6, TupleIndex4, T>
    for (T0, T1, T2, T3, T, T5, T, T7, T8, T9)
{
    fn swap_positions(&mut self) {
        core::mem::swap(&mut self.6, &mut self.4);
    }

    proof fn lemma_pair(self, a: T, b: T) {
    }
}

impl<T, T0, T1, T2, T3, T4, T7, T8, T9> TypedSwap<TupleIndex6, TupleIndex5, T>
    for (T0, T1, T2, T3, T4, T, T, T7, T8, T9)
{
    fn swap_positions(&mut self) {
        core::mem::swap(&mut self.6, &mut self.5);
    }

    proof fn lemma_pair(self, a: T, b: T) {
    }
}

impl<T, T0, T1, T2, T3, T4, T5, T8, T9> TypedSwap<TupleIndex6, TupleIndex7, T>
    for (T0, T1, T2, T3, T4, T5, T, T, T8, T9)
{
    fn swap_positions(&mut self) {
        core::mem::swap(&mut self.6, &mut self.7);
    }

    proof fn lemma_pair(self, a: T, b: T) {
    }
}

impl<T, T0, T1, T2, T3, T4, T5, T7, T9> TypedSwap<TupleIndex6, TupleIndex8, T>
    for (T0, T1, T2, T3, T4, T5, T, T7, T, T9)
{
    fn swap_positions(&mut self) {
        core::mem::swap(&mut self.6, &mut self.8);
    }

    proof fn lemma_pair(self, a: T, b: T) {
    }
}

impl<T, T0, T1, T2, T3, T4, T5, T7, T8> TypedSwap<TupleIndex6, TupleIndex9, T>
    for (T0, T1, T2, T3, T4, T5, T, T7, T8, T)
{
    fn swap_positions(&mut self) {
        core::mem::swap(&mut self.6, &mut self.9);
    }

    proof fn lemma_pair(self, a: T, b: T) {
    }
}

impl<T, T1, T2, T3, T4, T5, T6, T8, T9> TypedSwap<TupleIndex7, TupleIndex0, T>
    for (T, T1, T2, T3, T4, T5, T6, T, T8, T9)
{
    fn swap_positions(&mut self) {
        core::mem::swap(&mut self.7, &mut self.0);
    }

    proof fn lemma_pair(self, a: T, b: T) {
    }
}

impl<T, T0, T2, T3, T4, T5, T6, T8, T9> TypedSwap<TupleIndex7, TupleIndex1, T>
    for (T0, T, T2, T3, T4, T5, T6, T, T8, T9)
{
    fn swap_positions(&mut self) {
        core::mem::swap(&mut self.7, &mut self.1);
    }

    proof fn lemma_pair(self, a: T, b: T) {
    }
}

impl<T, T0, T1, T3, T4, T5, T6, T8, T9> TypedSwap<TupleIndex7, TupleIndex2, T>
    for (T0, T1, T, T3, T4, T5, T6, T, T8, T9)
{
    fn swap_positions(&mut self) {
        core::mem::swap(&mut self.7, &mut self.2);
    }

    proof fn lemma_pair(self, a: T, b: T) {
    }
}

impl<T, T0, T1, T2, T4, T5, T6, T8, T9> TypedSwap<TupleIndex7, TupleIndex3, T>
    for (T0, T1, T2, T, T4, T5, T6, T, T8, T9)
{
    fn swap_positions(&mut self) {
        core::mem::swap(&mut self.7, &mut self.3);
    }

    proof fn lemma_pair(self, a: T, b: T) {
    }
}

impl<T, T0, T1, T2, T3, T5, T6, T8, T9> TypedSwap<TupleIndex7, TupleIndex4, T>
    for (T0, T1, T2, T3, T, T5, T6, T, T8, T9)
{
    fn swap_positions(&mut self) {
        core::mem::swap(&mut self.7, &mut self.4);
    }

    proof fn lemma_pair(self, a: T, b: T) {
    }
}

impl<T, T0, T1, T2, T3, T4, T6, T8, T9> TypedSwap<TupleIndex7, TupleIndex5, T>
    for (T0, T1, T2, T3, T4, T, T6, T, T8, T9)
{
    fn swap_positions(&mut self) {
        core::mem::swap(&mut self.7, &mut self.5);
    }

    proof fn lemma_pair(self, a: T, b: T) {
    }
}

impl<T, T0, T1, T2, T3, T4, T5, T8, T9> TypedSwap<TupleIndex7, TupleIndex6, T>
    for (T0, T1, T2, T3, T4, T5, T, T, T8, T9)
{
    fn swap_positions(&mut self) {
        core::mem::swap(&mut self.7, &mut self.6);
    }

    proof fn lemma_pair(self, a: T, b: T) {
    }
}

impl<T, T0, T1, T2, T3, T4, T5, T6, T9> TypedSwap<TupleIndex7, TupleIndex8, T>
    for (T0, T1, T2, T3, T4, T5, T6, T, T, T9)
{
    fn swap_positions(&mut self) {
        core::mem::swap(&mut self.7, &mut self.8);
    }

    proof fn lemma_pair(self, a: T, b: T) {
    }
}

impl<T, T0, T1, T2, T3, T4, T5, T6, T8> TypedSwap<TupleIndex7, TupleIndex9, T>
    for (T0, T1, T2, T3, T4, T5, T6, T, T8, T)
{
    fn swap_positions(&mut self) {
        core::mem::swap(&mut self.7, &mut self.9);
    }

    proof fn lemma_pair(self, a: T, b: T) {
    }
}

impl<T, T1, T2, T3, T4, T5, T6, T7, T9> TypedSwap<TupleIndex8, TupleIndex0, T>
    for (T, T1, T2, T3, T4, T5, T6, T7, T, T9)
{
    fn swap_positions(&mut self) {
        core::mem::swap(&mut self.8, &mut self.0);
    }

    proof fn lemma_pair(self, a: T, b: T) {
    }
}

impl<T, T0, T2, T3, T4, T5, T6, T7, T9> TypedSwap<TupleIndex8, TupleIndex1, T>
    for (T0, T, T2, T3, T4, T5, T6, T7, T, T9)
{
    fn swap_positions(&mut self) {
        core::mem::swap(&mut self.8, &mut self.1);
    }

    proof fn lemma_pair(self, a: T, b: T) {
    }
}

impl<T, T0, T1, T3, T4, T5, T6, T7, T9> TypedSwap<TupleIndex8, TupleIndex2, T>
    for (T0, T1, T, T3, T4, T5, T6, T7, T, T9)
{
    fn swap_positions(&mut self) {
        core::mem::swap(&mut self.8, &mut self.2);
    }

    proof fn lemma_pair(self, a: T, b: T) {
    }
}

impl<T, T0, T1, T2, T4, T5, T6, T7, T9> TypedSwap<TupleIndex8, TupleIndex3, T>
    for (T0, T1, T2, T, T4, T5, T6, T7, T, T9)
{
    fn swap_positions(&mut self) {
        core::mem::swap(&mut self.8, &mut self.3);
    }

    proof fn lemma_pair(self, a: T, b: T) {
    }
}

impl<T, T0, T1, T2, T3, T5, T6, T7, T9> TypedSwap<TupleIndex8, TupleIndex4, T>
    for (T0, T1, T2, T3, T, T5, T6, T7, T, T9)
{
    fn swap_positions(&mut self) {
        core::mem::swap(&mut self.8, &mut self.4);
    }

    proof fn lemma_pair(self, a: T, b: T) {
    }
}

impl<T, T0, T1, T2, T3, T4, T6, T7, T9> TypedSwap<TupleIndex8, TupleIndex5, T>
    for (T0, T1, T2, T3, T4, T, T6, T7, T, T9)
{
    fn swap_positions(&mut self) {
        core::mem::swap(&mut self.8, &mut self.5);
    }

    proof fn lemma_pair(self, a: T, b: T) {
    }
}

impl<T, T0, T1, T2, T3, T4, T5, T7, T9> TypedSwap<TupleIndex8, TupleIndex6, T>
    for (T0, T1, T2, T3, T4, T5, T, T7, T, T9)
{
    fn swap_positions(&mut self) {
        core::mem::swap(&mut self.8, &mut self.6);
    }

    proof fn lemma_pair(self, a: T, b: T) {
    }
}

impl<T, T0, T1, T2, T3, T4, T5, T6, T9> TypedSwap<TupleIndex8, TupleIndex7, T>
    for (T0, T1, T2, T3, T4, T5, T6, T, T, T9)
{
    fn swap_positions(&mut self) {
        core::mem::swap(&mut self.8, &mut self.7);
    }

    proof fn lemma_pair(self, a: T, b: T) {
    }
}

impl<T, T0, T1, T2, T3, T4, T5, T6, T7> TypedSwap<TupleIndex8, TupleIndex9, T>
    for (T0, T1, T2, T3, T4, T5, T6, T7, T, T)
{
    fn swap_positions(&mut self) {
        core::mem::swap(&mut self.8, &mut self.9);
    }

    proof fn lemma_pair(self, a: T, b: T) {
    }
}

impl<T, T1, T2, T3, T4, T5, T6, T7, T8> TypedSwap<TupleIndex9, TupleIndex0, T>
    for (T, T1, T2, T3, T4, T5, T6, T7, T8, T)
{
    fn swap_positions(&mut self) {
        core::mem::swap(&mut self.9, &mut self.0);
    }

    proof fn lemma_pair(self, a: T, b: T) {
    }
}

impl<T, T0, T2, T3, T4, T5, T6, T7, T8> TypedSwap<TupleIndex9, TupleIndex1, T>
    for (T0, T, T2, T3, T4, T5, T6, T7, T8, T)
{
    fn swap_positions(&mut self) {
        core::mem::swap(&mut self.9, &mut self.1);
    }

    proof fn lemma_pair(self, a: T, b: T) {
    }
}

impl<T, T0, T1, T3, T4, T5, T6, T7, T8> TypedSwap<TupleIndex9, TupleIndex2, T>
    for (T0, T1, T, T3, T4, T5, T6, T7, T8, T)
{
    fn swap_positions(&mut self) {
        core::mem::swap(&mut self.9, &mut self.2);
    }

    proof fn lemma_pair(self, a: T, b: T) {
    }
}

impl<T, T0, T1, T2, T4, T5, T6, T7, T8> TypedSwap<TupleIndex9, TupleIndex3, T>
    for (T0, T1, T2, T, T4, T5, T6, T7, T8, T)
{
    fn swap_positions(&mut self) {
        core::mem::swap(&mut self.9, &mut self.3);
    }

    proof fn lemma_pair(self, a: T, b: T) {
    }
}

impl<T, T0, T1, T2, T3, T5, T6, T7, T8> TypedSwap<TupleIndex9, TupleIndex4, T>
    for (T0, T1, T2, T3, T, T5, T6, T7, T8, T)
{
    fn swap_positions(&mut self) {
        core::mem::swap(&mut self.9, &mut self.4);
    }

    proof fn lemma_pair(self, a: T, b: T) {
    }
}

impl<T, T0, T1, T2, T3, T4, T6, T7, T8> TypedSwap<TupleIndex9, TupleIndex5, T>
    for (T0, T1, T2, T3, T4, T, T6, T7, T8, T)
{
    fn swap_positions(&mut self) {
        core::mem::swap(&mut self.9, &mut self.5);
    }

    proof fn lemma_pair(self, a: T, b: T) {
    }
}

impl<T, T0, T1, T2, T3, T4, T5, T7, T8> TypedSwap<TupleIndex9, TupleIndex6, T>
    for (T0, T1, T2, T3, T4, T5, T, T7, T8, T)
{
    fn swap_positions(&mut self) {
        core::mem::swap(&mut self.9, &mut self.6);
    }

    proof fn lemma_pair(self, a: T, b: T) {
    }
}

impl<T, T0, T1, T2, T3, T4, T5, T6, T8> TypedSwap<TupleIndex9, TupleIndex7, T>
    for (T0, T1, T2, T3, T4, T5, T6, T, T8, T)
{
    fn swap_positions(&mut self) {
        core::mem::swap(&mut self.9, &mut self.7);
    }

    proof fn lemma_pair(self, a: T, b: T) {
    }
}

impl<T, T0, T1, T2, T3, T4, T5, T6, T7> TypedSwap<TupleIndex9, TupleIndex8, T>
    for (T0, T1, T2, T3, T4, T5, T6, T7, T, T)
{
    fn swap_positions(&mut self) {
        core::mem::swap(&mut self.9, &mut self.8);
    }

    proof fn lemma_pair(self, a: T, b: T) {
    }
}

impl<T, T2, T3, T4, T5, T6, T7, T8, T9, T10> TypedSwap<TupleIndex0, TupleIndex1, T>
    for (T, T, T2, T3, T4, T5, T6, T7, T8, T9, T10)
{
    fn swap_positions(&mut self) {
        core::mem::swap(&mut self.0, &mut self.1);
    }

    proof fn lemma_pair(self, a: T, b: T) {
    }
}

impl<T, T1, T3, T4, T5, T6, T7, T8, T9, T10> TypedSwap<TupleIndex0, TupleIndex2, T>
    for (T, T1, T, T3, T4, T5, T6, T7, T8, T9, T10)
{
    fn swap_positions(&mut self) {
        core::mem::swap(&mut self.0, &mut self.2);
    }

    proof fn lemma_pair(self, a: T, b: T) {
    }
}

impl<T, T1, T2, T4, T5, T6, T7, T8, T9, T10> TypedSwap<TupleIndex0, TupleIndex3, T>
    for (T, T1, T2, T, T4, T5, T6, T7, T8, T9, T10)
{
    fn swap_positions(&mut self) {
        core::mem::swap(&mut self.0, &mut self.3);
    }

    proof fn lemma_pair(self, a: T, b: T) {
    }
}

impl<T, T1, T2, T3, T5, T6, T7, T8, T9, T10> TypedSwap<TupleIndex0, TupleIndex4, T>
    for (T, T1, T2, T3, T, T5, T6, T7, T8, T9, T10)
{
    fn swap_positions(&mut self) {
        core::mem::swap(&mut self.0, &mut self.4);
    }

    proof fn lemma_pair(self, a: T, b: T) {
    }
}

impl<T, T1, T2, T3, T4, T6, T7, T8, T9, T10> TypedSwap<TupleIndex0, TupleIndex5, T>
    for (T, T1, T2, T3, T4, T, T6, T7, T8, T9, T10)
{
    fn swap_positions(&mut self) {
        core::mem::swap(&mut self.0, &mut self.5);
    }

    proof fn lemma_pair(self, a: T, b: T) {
    }
}

impl<T, T1, T2, T3, T4, T5, T7, T8, T9, T10> TypedSwap<TupleIndex0, TupleIndex6, T>
    for (T, T1, T2, T3, T4, T5, T, T7, T8, T9, T10)
{
    fn swap_positions(&mut self) {
        core::mem::swap(&mut self.0, &mut self.6);
    }

    proof fn lemma_pair(self, a: T, b: T) {
    }
}

impl<T, T1, T2, T3, T4, T5, T6, T8, T9, T10> TypedSwap<TupleIndex0, TupleIndex7, T>
    for (T, T1, T2, T3, T4, T5, T6, T, T8, T9, T10)
{
    fn swap_positions(&mut self) {
        core::mem::swap(&mut self.0, &mut self.7);
    }

    proof fn lemma_pair(self, a: T, b: T) {
    }
}

impl<T, T1, T2, T3, T4, T5, T6, T7, T9, T10> TypedSwap<TupleIndex0, TupleIndex8, T>
    for (T, T1, T2, T3, T4, T5, T6, T7, T, T9, T10)
{
    fn swap_positions(&mut self) {
        core::mem::swap(&mut self.0, &mut self.8);
    }

    proof fn lemma_pair(self, a: T, b: T) {
    }
}

impl<T, T1, T2, T3, T4, T5, T6, T7, T8, T10> TypedSwap<TupleIndex0, TupleIndex9, T>
    for (T, T1, T2, T3, T4, T5, T6, T7, T8, T, T10)
{
    fn swap_positions(&mut self) {
        core::mem::swap(&mut self.0, &mut self.9);
    }

    proof fn lemma_pair(self, a: T, b: T) {
    }
}

impl<T, T1, T2, T3, T4, T5, T6, T7, T8, T9> TypedSwap<TupleIndex0, TupleIndex10, T>
    for (T, T1, T2, T3, T4, T5, T6, T7, T8, T9, T)
{
    fn swap_positions(&mut self) {
        core::mem::swap(&mut self.0, &mut self.10);
    }

    proof fn lemma_pair(self, a: T, b: T) {
    }
}

impl<T, T2, T3, T4, T5, T6, T7, T8, T9, T10> TypedSwap<TupleIndex1, TupleIndex0, T>
    for (T, T, T2, T3, T4, T5, T6, T7, T8, T9, T10)
{
    fn swap_positions(&mut self) {
        core::mem::swap(&mut self.1, &mut self.0);
    }

    proof fn lemma_pair(self, a: T, b: T) {
    }
}

impl<T, T0, T3, T4, T5, T6, T7, T8, T9, T10> TypedSwap<TupleIndex1, TupleIndex2, T>
    for (T0, T, T, T3, T4, T5, T6, T7, T8, T9, T10)
{
    fn swap_positions(&mut self) {
        core::mem::swap(&mut self.1, &mut self.2);
    }

    proof fn lemma_pair(self, a: T, b: T) {
    }
}

impl<T, T0, T2, T4, T5, T6, T7, T8, T9, T10> TypedSwap<TupleIndex1, TupleIndex3, T>
    for (T0, T, T2, T, T4, T5, T6, T7, T8, T9, T10)
{
    fn swap_positions(&mut self) {
        core::mem::swap(&mut self.1, &mut self.3);
    }

    proof fn lemma_pair(self, a: T, b: T) {
    }
}

impl<T, T0, T2, T3, T5, T6, T7, T8, T9, T10> TypedSwap<TupleIndex1, TupleIndex4, T>
    for (T0, T, T2, T3, T, T5, T6, T7, T8, T9, T10)
{
    fn swap_positions(&mut self) {
        core::mem::swap(&mut self.1, &mut self.4);
    }

    proof fn lemma_pair(self, a: T, b: T) {
    }
}

impl<T, T0, T2, T3, T4, T6, T7, T8, T9, T10> TypedSwap<TupleIndex1, TupleIndex5, T>
    for (T0, T, T2, T3, T4, T, T6, T7, T8, T9, T10)
{
    fn swap_positions(&mut self) {
        core::mem::swap(&mut self.1, &mut self.5);
    }

    proof fn lemma_pair(self, a: T, b: T) {
    }
}

impl<T, T0, T2, T3, T4, T5, T7, T8, T9, T10> TypedSwap<TupleIndex1, TupleIndex6, T>
    for (T0, T, T2, T3, T4, T5, T, T7, T8, T9, T10)
{
    fn swap_positions(&mut self) {
        core::mem::swap(&mut self.1, &mut self.6);
    }

    proof fn lemma_pair(self, a: T, b: T) {
    }
}

impl<T, T0, T2, T3, T4, T5, T6, T8, T9, T10> TypedSwap<TupleIndex1, TupleIndex7, T>
    for (T0, T, T2, T3, T4, T5, T6, T, T8, T9, T10)
{
    fn swap_positions(&mut self) {
        core::mem::swap(&mut self.1, &mut self.7);
    }

    proof fn lemma_pair(self, a: T, b: T) {
    }
}

impl<T, T0, T2, T3, T4, T5, T6, T7, T9, T10> TypedSwap<TupleIndex1, TupleIndex8, T>
    for (T0, T, T2, T3, T4, T5, T6, T7, T, T9, T10)
{
    fn swap_positions(&mut self) {
        core::mem::swap(&mut self.1, &mut self.8);
    }

    proof fn lemma_pair(self, a: T, b: T) {
    }
}

impl<T, T0, T2, T3, T4, T5, T6, T7, T8, T10> TypedSwap<TupleIndex1, TupleIndex9, T>
    for (T0, T, T2, T3, T4, T5, T6, T7, T8, T, T10)
{
    fn swap_positions(&mut self) {
        core::mem::swap(&mut self.1, &mut self.9);
    }

    proof fn lemma_pair(self, a: T, b: T) {
    }
}

impl<T, T0, T2, T3, T4, T5, T6, T7, T8, T9> TypedSwap<TupleIndex1, TupleIndex10, T>
    for (T0, T, T2, T3, T4, T5, T6, T7, T8, T9, T)
{
    fn swap_positions(&mut self) {
        core::mem::swap(&mut self.1, &mut self.10);
    }

    proof fn lemma_pair(self, a: T, b: T) {
    }
}

impl<T, T1, T3, T4, T5, T6, T7, T8, T9, T10> TypedSwap<TupleIndex2, TupleIndex0, T>
    for (T, T1, T, T3, T4, T5, T6, T7, T8, T9, T10)
{
    fn swap_positions(&mut self) {
        core::mem::swap(&mut self.2, &mut self.0);
    }

    proof fn lemma_pair(self, a: T, b: T) {
    }
}

impl<T, T0, T3, T4, T5, T6, T7, T8, T9, T10> TypedSwap<TupleIndex2, TupleIndex1, T>
    for (T0, T, T, T3, T4, T5, T6, T7, T8, T9, T10)
{
    fn swap_positions(&mut self) {
        core::mem::swap(&mut self.2, &mut self.1);
    }

    proof fn lemma_pair(self, a: T, b: T) {
    }
}

impl<T, T0, T1, T4, T5, T6, T7, T8, T9, T10> TypedSwap<TupleIndex2, TupleIndex3, T>
    for (T0, T1, T, T, T4, T5, T6, T7, T8, T9, T10)
{
    fn swap_positions(&mut self) {
        core::mem::swap(&mut self.2, &mut self.3);
    }

    proof fn lemma_pair(self, a: T, b: T) {
    }
}

impl<T, T0, T1, T3, T5, T6, T7, T8, T9, T10> TypedSwap<TupleIndex2, TupleIndex4, T>
    for (T0, T1, T, T3, T, T5, T6, T7, T8, T9, T10)
{
    fn swap_positions(&mut self) {
        core::mem::swap(&mut self.2, &mut self.4);
    }

    proof fn lemma_pair(self, a: T, b: T) {
    }
}

impl<T, T0, T1, T3, T4, T6, T7, T8, T9, T10> TypedSwap<TupleIndex2, TupleIndex5, T>
    for (T0, T1, T, T3, T4, T, T6, T7, T8, T9, T10)
{
    fn swap_positions(&mut self) {
        core::mem::swap(&mut self.2, &mut self.5);
    }

    proof fn lemma_pair(self, a: T, b: T) {
    }
}

impl<T, T0, T1, T3, T4, T5, T7, T8, T9, T10> TypedSwap<TupleIndex2, TupleIndex6, T>
    for (T0, T1, T, T3, T4, T5, T, T7, T8, T9, T10)
{
    fn swap_positions(&mut self) {
        core::mem::swap(&mut self.2, &mut self.6);
    }

    proof fn lemma_pair(self, a: T, b: T) {
    }
}

impl<T, T0, T1, T3, T4, T5, T6, T8, T9, T10> TypedSwap<TupleIndex2, TupleIndex7, T>
    for (T0, T1, T, T3, T4, T5, T6, T, T8, T9, T10)
{
    fn swap_positions(&mut self) {
        core::mem::swap(&mut self.2, &mut self.7);
    }

    proof fn lemma_pair(self, a: T, b: T) {
    }
}

impl<T, T0, T1, T3, T4, T5, T6, T7, T9, T10> TypedSwap<TupleIndex2, TupleIndex8, T>
    for (T0, T1, T, T3, T4, T5, T6, T7, T, T9, T10)
{
    fn swap_positions(&mut self) {
        core::mem::swap(&mut self.2, &mut self.8);
    }

    proof fn lemma_pair(self, a: T, b: T) {
    }
}

impl<T, T0, T1, T3, T4, T5, T6, T7, T8, T10> TypedSwap<TupleIndex2, TupleIndex9, T>
    for (T0, T1, T, T3, T4, T5, T6, T7, T8, T, T10)
{
    fn swap_positions(&mut self) {
        core::mem::swap(&mut self.2, &mut self.9);
    }

    proof fn lemma_pair(self, a: T, b: T) {
    }
}

impl<T, T0, T1, T3, T4, T5, T6, T7, T8, T9> TypedSwap<TupleIndex2, TupleIndex10, T>
    for (T0, T1, T, T3, T4, T5, T6, T7, T8, T9, T)
{
    fn swap_positions(&mut self) {
        core::mem::swap(&mut self.2, &mut self.10);
    }

    proof fn lemma_pair(self, a: T, b: T) {
    }
}

impl<T, T1, T2, T4, T5, T6, T7, T8, T9, T10> TypedSwap<TupleIndex3, TupleIndex0, T>
    for (T, T1, T2, T, T4, T5, T6, T7, T8, T9, T10)
{
    fn swap_positions(&mut self) {
        core::mem::swap(&mut self.3, &mut self.0);
    }

    proof fn lemma_pair(self, a: T, b: T) {
    }
}

impl<T, T0, T2, T4, T5, T6, T7, T8, T9, T10> TypedSwap<TupleIndex3, TupleIndex1, T>
    for (T0, T, T2, T, T4, T5, T6, T7, T8, T9, T10)
{
    fn swap_positions(&mut self) {
        core::mem::swap(&mut self.3, &mut self.1);
    }

    proof fn lemma_pair(self, a: T, b: T) {
    }
}

impl<T, T0, T1, T4, T5, T6, T7, T8, T9, T10> TypedSwap<TupleIndex3, TupleIndex2, T>
    for (T0, T1, T, T, T4, T5, T6, T7, T8, T9, T10)
{
    fn swap_positions(&mut self) {
        core::mem::swap(&mut self.3, &mut self.2);
    }

    proof fn lemma_pair(self, a: T, b: T) {
    }
}

impl<T, T0, T1, T2, T5, T6, T7, T8, T9, T10> TypedSwap<TupleIndex3, TupleIndex4, T>
    for (T0, T1, T2, T, T, T5, T6, T7, T8, T9, T10)
{
    fn swap_positions(&mut self) {
        core::mem::swap(&mut self.3, &mut self.4);
    }

    proof fn lemma_pair(self, a: T, b: T) {
    }
}

impl<T, T0, T1, T2, T4, T6, T7, T8, T9, T10> TypedSwap<TupleIndex3, TupleIndex5, T>
    for (T0, T1, T2, T, T4, T, T6, T7, T8, T9, T10)
{
    fn swap_positions(&mut self) {
        core::mem::swap(&mut self.3, &mut self.5);
    }

    proof fn lemma_pair(self, a: T, b: T) {
    }
}

impl<T, T0, T1, T2, T4, T5, T7, T8, T9, T10> TypedSwap<TupleIndex3, TupleIndex6, T>
    for (T0, T1, T2, T, T4, T5, T, T7, T8, T9, T10)
{
    fn swap_positions(&mut self) {
        core::mem::swap(&mut self.3, &mut self.6);
    }

    proof fn lemma_pair(self, a: T, b: T) {
    }
}

impl<T, T0, T1, T2, T4, T5, T6, T8, T9, T10> TypedSwap<TupleIndex3, TupleIndex7, T>
    for (T0, T1, T2, T, T4, T5, T6, T, T8, T9, T10)
{
    fn swap_positions(&mut self) {
        core::mem::swap(&mut self.3, &mut self.7);
    }

    proof fn lemma_pair(self, a: T, b: T) {
    }
}

impl<T, T0, T1, T2, T4, T5, T6, T7, T9, T10> TypedSwap<TupleIndex3, TupleIndex8, T>
    for (T0, T1, T2, T, T4, T5, T6, T7, T, T9, T10)
{
    fn swap_positions(&mut self) {
        core::mem::swap(&mut self.3, &mut self.8);
    }

    proof fn lemma_pair(self, a: T, b: T) {
    }
}

impl<T, T0, T1, T2, T4, T5, T6, T7, T8, T10> TypedSwap<TupleIndex3, TupleIndex9, T>
    for (T0, T1, T2, T, T4, T5, T6, T7, T8, T, T10)
{
    fn swap_positions(&mut self) {
        core::mem::swap(&mut self.3, &mut self.9);
    }

    proof fn lemma_pair(self, a: T, b: T) {
    }
}

impl<T, T0, T1, T2, T4, T5, T6, T7, T8, T9> TypedSwap<TupleIndex3, TupleIndex10, T>
    for (T0, T1, T2, T, T4, T5, T6, T7, T8, T9, T)
{
    fn swap_positions(&mut self) {
        core::mem::swap(&mut self.3, &mut self.10);
    }

    proof fn lemma_pair(self, a: T, b: T) {
    }
}

impl<T, T1, T2, T3, T5, T6, T7, T8, T9, T10> TypedSwap<TupleIndex4, TupleIndex0, T>
    for (T, T1, T2, T3, T, T5, T6, T7, T8, T9, T10)
{
    fn swap_positions(&mut self) {
        core::mem::swap(&mut self.4, &mut self.0);
    }

    proof fn lemma_pair(self, a: T, b: T) {
    }
}

impl<T, T0, T2, T3, T5, T6, T7, T8, T9, T10> TypedSwap<TupleIndex4, TupleIndex1, T>
    for (T0, T, T2, T3, T, T5, T6, T7, T8, T9, T10)
{
    fn swap_positions(&mut self) {
        core::mem::swap(&mut self.4, &mut self.1);
    }

    proof fn lemma_pair(self, a: T, b: T) {
    }
}

impl<T, T0, T1, T3, T5, T6, T7, T8, T9, T10> TypedSwap<TupleIndex4, TupleIndex2, T>
    for (T0, T1, T, T3, T, T5, T6, T7, T8, T9, T10)
{
    fn swap_positions(&mut self) {
        core::mem::swap(&mut self.4, &mut self.2);
    }

    proof fn lemma_pair(self, a: T, b: T) {
    }
}

impl<T, T0, T1, T2, T5, T6, T7, T8, T9, T10> TypedSwap<TupleIndex4, TupleIndex3, T>
    for (T0, T1, T2, T, T, T5, T6, T7, T8, T9, T10)
{
    fn swap_positions(&mut self) {
        core::mem::swap(&mut self.4, &mut self.3);
    }

    proof fn lemma_pair(self, a: T, b: T) {
    }
}

impl<T, T0, T1, T2, T3, T6, T7, T8, T9, T10> TypedSwap<TupleIndex4, TupleIndex5, T>
    for (T0, T1, T2, T3, T, T, T6, T7, T8, T9, T10)
{
    fn swap_positions(&mut self) {
        core::mem::swap(&mut self.4, &mut self.5);
    }

    proof fn lemma_pair(self, a: T, b: T) {
    }
}

impl<T, T0, T1, T2, T3, T5, T7, T8, T9, T10> TypedSwap<TupleIndex4, TupleIndex6, T>
    for (T0, T1, T2, T3, T, T5, T, T7, T8, T9, T10)
{
    fn swap_positions(&mut self) {
        core::mem::swap(&mut self.4, &mut self.6);
    }

    proof fn lemma_pair(self, a: T, b: T) {
    }
}

impl<T, T0, T1, T2, T3, T5, T6, T8, T9, T10> TypedSwap<TupleIndex4, TupleIndex7, T>
    for (T0, T1, T2, T3, T, T5, T6, T, T8, T9, T10)
{
    fn swap_positions(&mut self) {
        core::mem::swap(&mut self.4, &mut self.7);
    }

    proof fn lemma_pair(self, a: T, b: T) {
    }
}

impl<T, T0, T1, T2, T3, T5, T6, T7, T9, T10> TypedSwap<TupleIndex4, TupleIndex8, T>
    for (T0, T1, T2, T3, T, T5, T6, T7, T, T9, T10)
{
    fn swap_positions(&mut self) {
        core::mem::swap(&mut self.4, &mut self.8);
    }

    proof fn lemma_pair(self, a: T, b: T) {
    }
}

impl<T, T0, T1, T2, T3, T5, T6, T7, T8, T10> TypedSwap<TupleIndex4, TupleIndex9, T>
    for (T0, T1, T2, T3, T, T5, T6, T7, T8, T, T10)
{
    fn swap_positions(&mut self) {
        core::mem::swap(&mut self.4, &mut self.9);
    }

    proof fn lemma_pair(self, a: T, b: T) {
    }
}

impl<T, T0, T1, T2, T3, T5, T6, T7, T8, T9> TypedSwap<TupleIndex4, TupleIndex10, T>
    for (T0, T1, T2, T3, T, T5, T6, T7, T8, T9, T)
{
    fn swap_positions(&mut self) {
        core::mem::swap(&mut self.4, &mut self.10);
    }

    proof fn lemma_pair(self, a: T, b: T) {
    }
}

impl<T, T1, T2, T3, T4, T6, T7, T8, T9, T10> TypedSwap<TupleIndex5, TupleIndex0, T>
    for (T, T1, T2, T3, T4, T, T6, T7, T8, T9, T10)
{
    fn swap_positions(&mut self) {
        core::mem::swap(&mut self.5, &mut self.0);
    }

    proof fn lemma_pair(self, a: T, b: T) {
    }
}

impl<T, T0, T2, T3, T4, T6, T7, T8, T9, T10> TypedSwap<TupleIndex5, TupleIndex1, T>
    for (T0, T, T2, T3, T4, T, T6, T7, T8, T9, T10)
{
    fn swap_positions(&mut self) {
        core::mem::swap(&mut self.5, &mut self.1);
    }

    proof fn lemma_pair(self, a: T, b: T) {
    }
}

impl<T, T0, T1, T3, T4, T6, T7, T8, T9, T10> TypedSwap<TupleIndex5, TupleIndex2, T>
    for (T0, T1, T, T3, T4, T, T6, T7, T8, T9, T10)
{
    fn swap_positions(&mut self) {
        core::mem::swap(&mut self.5, &mut self.2);
    }

    proof fn lemma_pair(self, a: T, b: T) {
    }
}

impl<T, T0, T1, T2, T4, T6, T7, T8, T9, T10> TypedSwap<TupleIndex5, TupleIndex3, T>
    for (T0, T1, T2, T, T4, T, T6, T7, T8, T9, T10)
{
    fn swap_positions(&mut self) {
        core::mem::swap(&mut self.5, &mut self.3);
    }

    proof fn lemma_pair(self, a: T, b: T) {
    }
}

impl<T, T0, T1, T2, T3, T6, T7, T8, T9, T10> TypedSwap<TupleIndex5, TupleIndex4, T>
    for (T0, T1, T2, T3, T, T, T6, T7, T8, T9, T10)
{
    fn swap_positions(&mut self) {
        core::mem::swap(&mut self.5, &mut self.4);
    }

    proof fn lemma_pair(self, a: T, b: T) {
    }
}

impl<T, T0, T1, T2, T3, T4, T7, T8, T9, T10> TypedSwap<TupleIndex5, TupleIndex6, T>
    for (T0, T1, T2, T3, T4, T, T, T7, T8, T9, T10)
{
    fn swap_positions(&mut self) {
        core::mem::swap(&mut self.5, &mut self.6);
    }

    proof fn lemma_pair(self, a: T, b: T) {
    }
}

impl<T, T0, T1, T2, T3, T4, T6, T8, T9, T10> TypedSwap<TupleIndex5, TupleIndex7, T>
    for (T0, T1, T2, T3, T4, T, T6, T, T8, T9, T10)
{
    fn swap_positions(&mut self) {
        core::mem::swap(&mut self.5, &mut self.7);
    }

    proof fn lemma_pair(self, a: T, b: T) {
    }
}

impl<T, T0, T1, T2, T3, T4, T6, T7, T9, T10> TypedSwap<TupleIndex5, TupleIndex8, T>
    for (T0, T1, T2, T3, T4, T, T6, T7, T, T9, T10)
{
    fn swap_positions(&mut self) {
        core::mem::swap(&mut self.5, &mut self.8);
    }

    proof fn lemma_pair(self, a: T, b: T) {
    }
}

impl<T, T0, T1, T2, T3, T4, T6, T7, T8, T10> TypedSwap<TupleIndex5, TupleIndex9, T>
    for (T0, T1, T2, T3, T4, T, T6, T7, T8, T, T10)
{
    fn swap_positions(&mut self) {
        core::mem::swap(&mut self.5, &mut self.9);
    }

    proof fn lemma_pair(self, a: T, b: T) {
    }
}

impl<T, T0, T1, T2, T3, T4, T6, T7, T8, T9> TypedSwap<TupleIndex5, TupleIndex10, T>
    for (T0, T1, T2, T3, T4, T, T6, T7, T8, T9, T)
{
    fn swap_positions(&mut self) {
        core::mem::swap(&mut self.5, &mut self.10);
    }

    proof fn lemma_pair(self, a: T, b: T) {
    }
}

impl<T, T1, T2, T3, T4, T5, T7, T8, T9, T10> TypedSwap<TupleIndex6, TupleIndex0, T>
    for (T, T1, T2, T3, T4, T5, T, T7, T8, T9, T10)
{
    fn swap_positions(&mut self) {
        core::mem::swap(&mut self.6, &mut self.0);
    }

    proof fn lemma_pair(self, a: T, b: T) {
    }
}

impl<T, T0, T2, T3, T4, T5, T7, T8, T9, T10> TypedSwap<TupleIndex6, TupleIndex1, T>
    for (T0, T, T2, T3, T4, T5, T, T7, T8, T9, T10)
{
    fn swap_positions(&mut self) {
        core::mem::swap(&mut self.6, &mut self.1);
    }

    proof fn lemma_pair(self, a: T, b: T) {
    }
}

impl<T, T0, T1, T3, T4, T5, T7, T8, T9, T10> TypedSwap<TupleIndex6, TupleIndex2, T>
    for (T0, T1, T, T3, T4, T5, T, T7, T8, T9, T10)
{
    fn swap_positions(&mut self) {
        core::mem::swap(&mut self.6, &mut self.2);
    }

    proof fn lemma_pair(self, a: T, b: T) {
    }
}

impl<T, T0, T1, T2, T4, T5, T7, T8, T9, T10> TypedSwap<TupleIndex6, TupleIndex3, T>
    for (T0, T1, T2, T, T4, T5, T, T7, T8, T9, T10)
{
    fn swap_positions(&mut self) {
        core::mem::swap(&mut self.6, &mut self.3);
    }

    proof fn lemma_pair(self, a: T, b: T) {
    }
}

impl<T, T0, T1, T2, T3, T5, T7, T8, T9, T10> TypedSwap<TupleIndex6, TupleIndex4, T>
    for (T0, T1, T2, T3, T, T5, T, T7, T8, T9, T10)
{
    fn swap_positions(&mut self) {
        core::mem::swap(&mut self.6, &mut self.4);
    }

    proof fn lemma_pair(self, a: T, b: T) {
    }
}

impl<T, T0, T1, T2, T3, T4, T7, T8, T9, T10> TypedSwap<TupleIndex6, TupleIndex5, T>
    for (T0, T1, T2, T3, T4, T, T, T7, T8, T9, T10)
{
    fn swap_positions(&mut self) {
        core::mem::swap(&mut self.6, &mut self.5);
    }

    proof fn lemma_pair(self, a: T, b: T) {
    }
}

impl<T, T0, T1, T2, T3, T4, T5, T8, T9, T10> TypedSwap<TupleIndex6, TupleIndex7, T>
    for (T0, T1, T2, T3, T4, T5, T, T, T8, T9, T10)
{
    fn swap_positions(&mut self) {
        core::mem::swap(&mut self.6, &mut self.7);
    }

    proof fn lemma_pair(self, a: T, b: T) {
    }
}

impl<T, T0, T1, T2, T3, T4, T5, T7, T9, T10> TypedSwap<TupleIndex6, TupleIndex8, T>
    for (T0, T1, T2, T3, T4, T5, T, T7, T, T9, T10)
{
    fn swap_positions(&mut self) {
        core::mem::swap(&mut self.6, &mut self.8);
    }

    proof fn lemma_pair(self, a: T, b: T) {
    }
}

impl<T, T0, T1, T2, T3, T4, T5, T7, T8, T10> TypedSwap<TupleIndex6, TupleIndex9, T>
    for (T0, T1, T2, T3, T4, T5, T, T7, T8, T, T10)
{
    fn swap_positions(&mut self) {
        core::mem::swap(&mut self.6, &mut self.9);
    }

    proof fn lemma_pair(self, a: T, b: T) {
    }
}

impl<T, T0, T1, T2, T3, T4, T5, T7, T8, T9> TypedSwap<TupleIndex6, TupleIndex10, T>
    for (T0, T1, T2, T3, T4, T5, T, T7, T8, T9, T)
{
    fn swap_positions(&mut self) {
        core::mem::swap(&mut self.6, &mut self.10);
    }

    proof fn lemma_pair(self, a: T, b: T) {
    }
}

impl<T, T1, T2, T3, T4, T5, T6, T8, T9, T10> TypedSwap<TupleIndex7, TupleIndex0, T>
    for (T, T1, T2, T3, T4, T5, T6, T, T8, T9, T10)
{
    fn swap_positions(&mut self) {
        core::mem::swap(&mut self.7, &mut self.0);
    }

    proof fn lemma_pair(self, a: T, b: T) {
    }
}

impl<T, T0, T2, T3, T4, T5, T6, T8, T9, T10> TypedSwap<TupleIndex7, TupleIndex1, T>
    for (T0, T, T2, T3, T4, T5, T6, T, T8, T9, T10)
{
    fn swap_positions(&mut self) {
        core::mem::swap(&mut self.7, &mut self.1);
    }

    proof fn lemma_pair(self, a: T, b: T) {
    }
}

impl<T, T0, T1, T3, T4, T5, T6, T8, T9, T10> TypedSwap<TupleIndex7, TupleIndex2, T>
    for (T0, T1, T, T3, T4, T5, T6, T, T8, T9, T10)
{
    fn swap_positions(&mut self) {
        core::mem::swap(&mut self.7, &mut self.2);
    }

    proof fn lemma_pair(self, a: T, b: T) {
    }
}

impl<T, T0, T1, T2, T4, T5, T6, T8, T9, T10> TypedSwap<TupleIndex7, TupleIndex3, T>
    for (T0, T1, T2, T, T4, T5, T6, T, T8, T9, T10)
{
    fn swap_positions(&mut self) {
        core::mem::swap(&mut self.7, &mut self.3);
    }

    proof fn lemma_pair(self, a: T, b: T) {
    }
}

impl<T, T0, T1, T2, T3, T5, T6, T8, T9, T10> TypedSwap<TupleIndex7, TupleIndex4, T>
    for (T0, T1, T2, T3, T, T5, T6, T, T8, T9, T10)
{
    fn swap_positions(&mut self) {
        core::mem::swap(&mut self.7, &mut self.4);
    }

    proof fn lemma_pair(self, a: T, b: T) {
    }
}

impl<T, T0, T1, T2, T3, T4, T6, T8, T9, T10> TypedSwap<TupleIndex7, TupleIndex5, T>
    for (T0, T1, T2, T3, T4, T, T6, T, T8, T9, T10)
{
    fn swap_positions(&mut self) {
        core::mem::swap(&mut self.7, &mut self.5);
    }

    proof fn lemma_pair(self, a: T, b: T) {
    }
}

impl<T, T0, T1, T2, T3, T4, T5, T8, T9, T10> TypedSwap<TupleIndex7, TupleIndex6, T>
    for (T0, T1, T2, T3, T4, T5, T, T, T8, T9, T10)
{
    fn swap_positions(&mut self) {
        core::mem::swap(&mut self.7, &mut self.6);
    }

    proof fn lemma_pair(self, a: T, b: T) {
    }
}

impl<T, T0, T1, T2, T3, T4, T5, T6, T9, T10> TypedSwap<TupleIndex7, TupleIndex8, T>
    for (T0, T1, T2, T3, T4, T5, T6, T, T, T9, T10)
{
    fn swap_positions(&mut self) {
        core::mem::swap(&mut self.7, &mut self.8);
    }

    proof fn lemma_pair(self, a: T, b: T) {
    }
}

impl<T, T0, T1, T2, T3, T4, T5, T6, T8, T10> TypedSwap<TupleIndex7, TupleIndex9, T>
    for (T0, T1, T2, T3, T4, T5, T6, T, T8, T, T10)
{
    fn swap_positions(&mut self) {
        core::mem::swap(&mut self.7, &mut self.9);
    }

    proof fn lemma_pair(self, a: T, b: T) {
    }
}

impl<T, T0, T1, T2, T3, T4, T5, T6, T8, T9> TypedSwap<TupleIndex7, TupleIndex10, T>
    for (T0, T1, T2, T3, T4, T5, T6, T, T8, T9, T)
{
    fn swap_positions(&mut self) {
        core::mem::swap(&mut self.7, &mut self.10);
    }

    proof fn lemma_pair(self, a: T, b: T) {
    }
}

impl<T, T1, T2, T3, T4, T5, T6, T7, T9, T10> TypedSwap<TupleIndex8, TupleIndex0, T>
    for (T, T1, T2, T3, T4, T5, T6, T7, T, T9, T10)
{
    fn swap_positions(&mut self) {
        core::mem::swap(&mut self.8, &mut self.0);
    }

    proof fn lemma_pair(self, a: T, b: T) {
    }
}

impl<T, T0, T2, T3, T4, T5, T6, T7, T9, T10> TypedSwap<TupleIndex8, TupleIndex1, T>
    for (T0, T, T2, T3, T4, T5, T6, T7, T, T9, T10)
{
    fn swap_positions(&mut self) {
        core::mem::swap(&mut self.8, &mut self.1);
    }

    proof fn lemma_pair(self, a: T, b: T) {
    }
}

impl<T, T0, T1, T3, T4, T5, T6, T7, T9, T10> TypedSwap<TupleIndex8, TupleIndex2, T>
    for (T0, T1, T, T3, T4, T5, T6, T7, T, T9, T10)
{
    fn swap_positions(&mut self) {
        core::mem::swap(&mut self.8, &mut self.2);
    }

    proof fn lemma_pair(self, a: T, b: T) {
    }
}

impl<T, T0, T1, T2, T4, T5, T6, T7, T9, T10> TypedSwap<TupleIndex8, TupleIndex3, T>
    for (T0, T1, T2, T, T4, T5, T6, T7, T, T9, T10)
{
    fn swap_positions(&mut self) {
        core::mem::swap(&mut self.8, &mut self.3);
    }

    proof fn lemma_pair(self, a: T, b: T) {
    }
}

impl<T, T0, T1, T2, T3, T5, T6, T7, T9, T10> TypedSwap<TupleIndex8, TupleIndex4, T>
    for (T0, T1, T2, T3, T, T5, T6, T7, T, T9, T10)
{
    fn swap_positions(&mut self) {
        core::mem::swap(&mut self.8, &mut self.4);
    }

    proof fn lemma_pair(self, a: T, b: T) {
    }
}

impl<T, T0, T1, T2, T3, T4, T6, T7, T9, T10> TypedSwap<TupleIndex8, TupleIndex5, T>
    for (T0, T1, T2, T3, T4, T, T6, T7, T, T9, T10)
{
    fn swap_positions(&mut self) {
        core::mem::swap(&mut self.8, &mut self.5);
    }

    proof fn lemma_pair(self, a: T, b: T) {
    }
}

impl<T, T0, T1, T2, T3, T4, T5, T7, T9, T10> TypedSwap<TupleIndex8, TupleIndex6, T>
    for (T0, T1, T2, T3, T4, T5, T, T7, T, T9, T10)
{
    fn swap_positions(&mut self) {
        core::mem::swap(&mut self.8, &mut self.6);
    }

    proof fn lemma_pair(self, a: T, b: T) {
    }
}

impl<T, T0, T1, T2, T3, T4, T5, T6, T9, T10> TypedSwap<TupleIndex8, TupleIndex7, T>
    for (T0, T1, T2, T3, T4, T5, T6, T, T, T9, T10)
{
    fn swap_positions(&mut self) {
        core::mem::swap(&mut self.8, &mut self.7);
    }

    proof fn lemma_pair(self, a: T, b: T) {
    }
}

impl<T, T0, T1, T2, T3, T4, T5, T6, T7, T10> TypedSwap<TupleIndex8, TupleIndex9, T>
    for (T0, T1, T2, T3, T4, T5, T6, T7, T, T, T10)
{
    fn swap_positions(&mut self) {
        core::mem::swap(&mut self.8, &mut self.9);
    }

    proof fn lemma_pair(self, a: T, b: T) {
    }
}

impl<T, T0, T1, T2, T3, T4, T5, T6, T7, T9> TypedSwap<TupleIndex8, TupleIndex10, T>
    for (T0, T1, T2, T3, T4, T5, T6, T7, T, T9, T)
{
    fn swap_positions(&mut self) {
        core::mem::swap(&mut self.8, &mut self.10);
    }

    proof fn lemma_pair(self, a: T, b: T) {
    }
}

impl<T, T1, T2, T3, T4, T5, T6, T7, T8, T10> TypedSwap<TupleIndex9, TupleIndex0, T>
    for (T, T1, T2, T3, T4, T5, T6, T7, T8, T, T10)
{
    fn swap_positions(&mut self) {
        core::mem::swap(&mut self.9, &mut self.0);
    }

    proof fn lemma_pair(self, a: T, b: T) {
    }
}

impl<T, T0, T2, T3, T4, T5, T6, T7, T8, T10> TypedSwap<TupleIndex9, TupleIndex1, T>
    for (T0, T, T2, T3, T4, T5, T6, T7, T8, T, T10)
{
    fn swap_positions(&mut self) {
        core::mem::swap(&mut self.9, &mut self.1);
    }

    proof fn lemma_pair(self, a: T, b: T) {
    }
}

impl<T, T0, T1, T3, T4, T5, T6, T7, T8, T10> TypedSwap<TupleIndex9, TupleIndex2, T>
    for (T0, T1, T, T3, T4, T5, T6, T7, T8, T, T10)
{
    fn swap_positions(&mut self) {
        core::mem::swap(&mut self.9, &mut self.2);
    }

    proof fn lemma_pair(self, a: T, b: T) {
    }
}

impl<T, T0, T1, T2, T4, T5, T6, T7, T8, T10> TypedSwap<TupleIndex9, TupleIndex3, T>
    for (T0, T1, T2, T, T4, T5, T6, T7, T8, T, T10)
{
    fn swap_positions(&mut self) {
        core::mem::swap(&mut self.9, &mut self.3);
    }

    proof fn lemma_pair(self, a: T, b: T) {
    }
}

impl<T, T0, T1, T2, T3, T5, T6, T7, T8, T10> TypedSwap<TupleIndex9, TupleIndex4, T>
    for (T0, T1, T2, T3, T, T5, T6, T7, T8, T, T10)
{
    fn swap_positions(&mut self) {
        core::mem::swap(&mut self.9, &mut self.4);
    }

    proof fn lemma_pair(self, a: T, b: T) {
    }
}

impl<T, T0, T1, T2, T3, T4, T6, T7, T8, T10> TypedSwap<TupleIndex9, TupleIndex5, T>
    for (T0, T1, T2, T3, T4, T, T6, T7, T8, T, T10)
{
    fn swap_positions(&mut self) {
        core::mem::swap(&mut self.9, &mut self.5);
    }

    proof fn lemma_pair(self, a: T, b: T) {
    }
}

impl<T, T0, T1, T2, T3, T4, T5, T7, T8, T10> TypedSwap<TupleIndex9, TupleIndex6, T>
    for (T0, T1, T2, T3, T4, T5, T, T7, T8, T, T10)
{
    fn swap_positions(&mut self) {
        core::mem::swap(&mut self.9, &mut self.6);
    }

    proof fn lemma_pair(self, a: T, b: T) {
    }
}

impl<T, T0, T1, T2, T3, T4, T5, T6, T8, T10> TypedSwap<TupleIndex9, TupleIndex7, T>
    for (T0, T1, T2, T3, T4, T5, T6, T, T8, T, T10)
{
    fn swap_positions(&mut self) {
        core::mem::swap(&mut self.9, &mut self.7);
    }

    proof fn lemma_pair(self, a: T, b: T) {
    }
}

impl<T, T0, T1, T2, T3, T4, T5, T6, T7, T10> TypedSwap<TupleIndex9, TupleIndex8, T>
    for (T0, T1, T2, T3, T4, T5, T6, T7, T, T, T10)
{
    fn swap_positions(&mut self) {
        core::mem::swap(&mut self.9, &mut self.8);
    }

    proof fn lemma_pair(self, a: T, b: T) {
    }
}

impl<T, T0, T1, T2, T3, T4, T5, T6, T7, T8> TypedSwap<TupleIndex9, TupleIndex10, T>
    for (T0, T1, T2, T3, T4, T5, T6, T7, T8, T, T)
{
    fn swap_positions(&mut self) {
        core::mem::swap(&mut self.9, &mut self.10);
    }

    proof fn lemma_pair(self, a: T, b: T) {
    }
}

impl<T, T1, T2, T3, T4, T5, T6, T7, T8, T9> TypedSwap<TupleIndex10, TupleIndex0, T>
    for (T, T1, T2, T3, T4, T5, T6, T7, T8, T9, T)
{
    fn swap_positions(&mut self) {
        core::mem::swap(&mut self.10, &mut self.0);
    }

    proof fn lemma_pair(self, a: T, b: T) {
    }
}

impl<T, T0, T2, T3, T4, T5, T6, T7, T8, T9> TypedSwap<TupleIndex10, TupleIndex1, T>
    for (T0, T, T2, T3, T4, T5, T6, T7, T8, T9, T)
{
    fn swap_positions(&mut self) {
        core::mem::swap(&mut self.10, &mut self.1);
    }

    proof fn lemma_pair(self, a: T, b: T) {
    }
}

impl<T, T0, T1, T3, T4, T5, T6, T7, T8, T9> TypedSwap<TupleIndex10, TupleIndex2, T>
    for (T0, T1, T, T3, T4, T5, T6, T7, T8, T9, T)
{
    fn swap_positions(&mut self) {
        core::mem::swap(&mut self.10, &mut self.2);
    }

    proof fn lemma_pair(self, a: T, b: T) {
    }
}

impl<T, T0, T1, T2, T4, T5, T6, T7, T8, T9> TypedSwap<TupleIndex10, TupleIndex3, T>
    for (T0, T1, T2, T, T4, T5, T6, T7, T8, T9, T)
{
    fn swap_positions(&mut self) {
        core::mem::swap(&mut self.10, &mut self.3);
    }

    proof fn lemma_pair(self, a: T, b: T) {
    }
}

impl<T, T0, T1, T2, T3, T5, T6, T7, T8, T9> TypedSwap<TupleIndex10, TupleIndex4, T>
    for (T0, T1, T2, T3, T, T5, T6, T7, T8, T9, T)
{
    fn swap_positions(&mut self) {
        core::mem::swap(&mut self.10, &mut self.4);
    }

    proof fn lemma_pair(self, a: T, b: T) {
    }
}

impl<T, T0, T1, T2, T3, T4, T6, T7, T8, T9> TypedSwap<TupleIndex10, TupleIndex5, T>
    for (T0, T1, T2, T3, T4, T, T6, T7, T8, T9, T)
{
    fn swap_positions(&mut self) {
        core::mem::swap(&mut self.10, &mut self.5);
    }

    proof fn lemma_pair(self, a: T, b: T) {
    }
}

impl<T, T0, T1, T2, T3, T4, T5, T7, T8, T9> TypedSwap<TupleIndex10, TupleIndex6, T>
    for (T0, T1, T2, T3, T4, T5, T, T7, T8, T9, T)
{
    fn swap_positions(&mut self) {
        core::mem::swap(&mut self.10, &mut self.6);
    }

    proof fn lemma_pair(self, a: T, b: T) {
    }
}

impl<T, T0, T1, T2, T3, T4, T5, T6, T8, T9> TypedSwap<TupleIndex10, TupleIndex7, T>
    for (T0, T1, T2, T3, T4, T5, T6, T, T8, T9, T)
{
    fn swap_positions(&mut self) {
        core::mem::swap(&mut self.10, &mut self.7);
    }

    proof fn lemma_pair(self, a: T, b: T) {
    }
}

impl<T, T0, T1, T2, T3, T4, T5, T6, T7, T9> TypedSwap<TupleIndex10, TupleIndex8, T>
    for (T0, T1, T2, T3, T4, T5, T6, T7, T, T9, T)
{
    fn swap_positions(&mut self) {
        core::mem::swap(&mut self.10, &mut self.8);
    }

    proof fn lemma_pair(self, a: T, b: T) {
    }
}

impl<T, T0, T1, T2, T3, T4, T5, T6, T7, T8> TypedSwap<TupleIndex10, TupleIndex9, T>
    for (T0, T1, T2, T3, T4, T5, T6, T7, T8, T, T)
{
    fn swap_positions(&mut self) {
        core::mem::swap(&mut self.10, &mut self.9);
    }

    proof fn lemma_pair(self, a: T, b: T) {
    }
}

impl<T, T2, T3, T4, T5, T6, T7, T8, T9, T10, T11> TypedSwap<TupleIndex0, TupleIndex1, T>
    for (T, T, T2, T3, T4, T5, T6, T7, T8, T9, T10, T11)
{
    fn swap_positions(&mut self) {
        core::mem::swap(&mut self.0, &mut self.1);
    }

    proof fn lemma_pair(self, a: T, b: T) {
    }
}

impl<T, T1, T3, T4, T5, T6, T7, T8, T9, T10, T11> TypedSwap<TupleIndex0, TupleIndex2, T>
    for (T, T1, T, T3, T4, T5, T6, T7, T8, T9, T10, T11)
{
    fn swap_positions(&mut self) {
        core::mem::swap(&mut self.0, &mut self.2);
    }

    proof fn lemma_pair(self, a: T, b: T) {
    }
}

impl<T, T1, T2, T4, T5, T6, T7, T8, T9, T10, T11> TypedSwap<TupleIndex0, TupleIndex3, T>
    for (T, T1, T2, T, T4, T5, T6, T7, T8, T9, T10, T11)
{
    fn swap_positions(&mut self) {
        core::mem::swap(&mut self.0, &mut self.3);
    }

    proof fn lemma_pair(self, a: T, b: T) {
    }
}

impl<T, T1, T2, T3, T5, T6, T7, T8, T9, T10, T11> TypedSwap<TupleIndex0, TupleIndex4, T>
    for (T, T1, T2, T3, T, T5, T6, T7, T8, T9, T10, T11)
{
    fn swap_positions(&mut self) {
        core::mem::swap(&mut self.0, &mut self.4);
    }

    proof fn lemma_pair(self, a: T, b: T) {
    }
}

impl<T, T1, T2, T3, T4, T6, T7, T8, T9, T10, T11> TypedSwap<TupleIndex0, TupleIndex5, T>
    for (T, T1, T2, T3, T4, T, T6, T7, T8, T9, T10, T11)
{
    fn swap_positions(&mut self) {
        core::mem::swap(&mut self.0, &mut self.5);
    }

    proof fn lemma_pair(self, a: T, b: T) {
    }
}

impl<T, T1, T2, T3, T4, T5, T7, T8, T9, T10, T11> TypedSwap<TupleIndex0, TupleIndex6, T>
    for (T, T1, T2, T3, T4, T5, T, T7, T8, T9, T10, T11)
{
    fn swap_positions(&mut self) {
        core::mem::swap(&mut self.0, &mut self.6);
    }

    proof fn lemma_pair(self, a: T, b: T) {
    }
}

impl<T, T1, T2, T3, T4, T5, T6, T8, T9, T10, T11> TypedSwap<TupleIndex0, TupleIndex7, T>
    for (T, T1, T2, T3, T4, T5, T6, T, T8, T9, T10, T11)
{
    fn swap_positions(&mut self) {
        core::mem::swap(&mut self.0, &mut self.7);
    }

    proof fn lemma_pair(self, a: T, b: T) {
    }
}

impl<T, T1, T2, T3, T4, T5, T6, T7, T9, T10, T11> TypedSwap<TupleIndex0, TupleIndex8, T>
    for (T, T1, T2, T3, T4, T5, T6, T7, T, T9, T10, T11)
{
    fn swap_positions(&mut self) {
        core::mem::swap(&mut self.0, &mut self.8);
    }

    proof fn lemma_pair(self, a: T, b: T) {
    }
}

impl<T, T1, T2, T3, T4, T5, T6, T7, T8, T10, T11> TypedSwap<TupleIndex0, TupleIndex9, T>
    for (T, T1, T2, T3, T4, T5, T6, T7, T8, T, T10, T11)
{
    fn swap_positions(&mut self) {
        core::mem::swap(&mut self.0, &mut self.9);
    }

    proof fn lemma_pair(self, a: T, b: T) {
    }
}

impl<T, T1, T2, T3, T4, T5, T6, T7, T8, T9, T11> TypedSwap<TupleIndex0, TupleIndex10, T>
    for (T, T1, T2, T3, T4, T5, T6, T7, T8, T9, T, T11)
{
    fn swap_positions(&mut self) {
        core::mem::swap(&mut self.0, &mut self.10);
    }

    proof fn lemma_pair(self, a: T, b: T) {
    }
}

impl<T, T1, T2, T3, T4, T5, T6, T7, T8, T9, T10> TypedSwap<TupleIndex0, TupleIndex11, T>
    for (T, T1, T2, T3, T4, T5, T6, T7, T8, T9, T10, T)
{
    fn swap_positions(&mut self) {
        core::mem::swap(&mut self.0, &mut self.11);
    }

    proof fn lemma_pair(self, a: T, b: T) {
    }
}

impl<T, T2, T3, T4, T5, T6, T7, T8, T9, T10, T11> TypedSwap<TupleIndex1, TupleIndex0, T>
    for (T, T, T2, T3, T4, T5, T6, T7, T8, T9, T10, T11)
{
    fn swap_positions(&mut self) {
        core::mem::swap(&mut self.1, &mut self.0);
    }

    proof fn lemma_pair(self, a: T, b: T) {
    }
}

impl<T, T0, T3, T4, T5, T6, T7, T8, T9, T10, T11> TypedSwap<TupleIndex1, TupleIndex2, T>
    for (T0, T, T, T3, T4, T5, T6, T7, T8, T9, T10, T11)
{
    fn swap_positions(&mut self) {
        core::mem::swap(&mut self.1, &mut self.2);
    }

    proof fn lemma_pair(self, a: T, b: T) {
    }
}

impl<T, T0, T2, T4, T5, T6, T7, T8, T9, T10, T11> TypedSwap<TupleIndex1, TupleIndex3, T>
    for (T0, T, T2, T, T4, T5, T6, T7, T8, T9, T10, T11)
{
    fn swap_positions(&mut self) {
        core::mem::swap(&mut self.1, &mut self.3);
    }

    proof fn lemma_pair(self, a: T, b: T) {
    }
}

impl<T, T0, T2, T3, T5, T6, T7, T8, T9, T10, T11> TypedSwap<TupleIndex1, TupleIndex4, T>
    for (T0, T, T2, T3, T, T5, T6, T7, T8, T9, T10, T11)
{
    fn swap_positions(&mut self) {
        core::mem::swap(&mut self.1, &mut self.4);
    }

    proof fn lemma_pair(self, a: T, b: T) {
    }
}

impl<T, T0, T2, T3, T4, T6, T7, T8, T9, T10, T11> TypedSwap<TupleIndex1, TupleIndex5, T>
    for (T0, T, T2, T3, T4, T, T6, T7, T8, T9, T10, T11)
{
    fn swap_positions(&mut self) {
        core::mem::swap(&mut self.1, &mut self.5);
    }

    proof fn lemma_pair(self, a: T, b: T) {
    }
}

impl<T, T0, T2, T3, T4, T5, T7, T8, T9, T10, T11> TypedSwap<TupleIndex1, TupleIndex6, T>
    for (T0, T, T2, T3, T4, T5, T, T7, T8, T9, T10, T11)
{
    fn swap_positions(&mut self) {
        core::mem::swap(&mut self.1, &mut self.6);
    }

    proof fn lemma_pair(self, a: T, b: T) {
    }
}

impl<T, T0, T2, T3, T4, T5, T6, T8, T9, T10, T11> TypedSwap<TupleIndex1, TupleIndex7, T>
    for (T0, T, T2, T3, T4, T5, T6, T, T8, T9, T10, T11)
{
    fn swap_positions(&mut self) {
        core::mem::swap(&mut self.1, &mut self.7);
    }

    proof fn lemma_pair(self, a: T, b: T) {
    }
}

impl<T, T0, T2, T3, T4, T5, T6, T7, T9, T10, T11> TypedSwap<TupleIndex1, TupleIndex8, T>
    for (T0, T, T2, T3, T4, T5, T6, T7, T, T9, T10, T11)
{
    fn swap_positions(&mut self) {
        core::mem::swap(&mut self.1, &mut self.8);
    }

    proof fn lemma_pair(self, a: T, b: T) {
    }
}

impl<T, T0, T2, T3, T4, T5, T6, T7, T8, T10, T11> TypedSwap<TupleIndex1, TupleIndex9, T>
    for (T0, T, T2, T3, T4, T5, T6, T7, T8, T, T10, T11)
{
    fn swap_positions(&mut self) {
        core::mem::swap(&mut self.1, &mut self.9);
    }

    proof fn lemma_pair(self, a: T, b: T) {
    }
}

impl<T, T0, T2, T3, T4, T5, T6, T7, T8, T9, T11> TypedSwap<TupleIndex1, TupleIndex10, T>
    for (T0, T, T2, T3, T4, T5, T6, T7, T8, T9, T, T11)
{
    fn swap_positions(&mut self) {
        core::mem::swap(&mut self.1, &mut self.10);
    }

    proof fn lemma_pair(self, a: T, b: T) {
    }
}

impl<T, T0, T2, T3, T4, T5, T6, T7, T8, T9, T10> TypedSwap<TupleIndex1, TupleIndex11, T>
    for (T0, T, T2, T3, T4, T5, T6, T7, T8, T9, T10, T)
{
    fn swap_positions(&mut self) {
        core::mem::swap(&mut self.1, &mut self.11);
    }

    proof fn lemma_pair(self, a: T, b: T) {
    }
}

impl<T, T1, T3, T4, T5, T6, T7, T8, T9, T10, T11> TypedSwap<TupleIndex2, TupleIndex0, T>
    for (T, T1, T, T3, T4, T5, T6, T7, T8, T9, T10, T11)
{
    fn swap_positions(&mut self) {
        core::mem::swap(&mut self.2, &mut self.0);
    }

    proof fn lemma_pair(self, a: T, b: T) {
    }
}

impl<T, T0, T3, T4, T5, T6, T7, T8, T9, T10, T11> TypedSwap<TupleIndex2, TupleIndex1, T>
    for (T0, T, T, T3, T4, T5, T6, T7, T8, T9, T10, T11)
{
    fn swap_positions(&mut self) {
        core::mem::swap(&mut self.2, &mut self.1);
    }

    proof fn lemma_pair(self, a: T, b: T) {
    }
}

impl<T, T0, T1, T4, T5, T6, T7, T8, T9, T10, T11> TypedSwap<TupleIndex2, TupleIndex3, T>
    for (T0, T1, T, T, T4, T5, T6, T7, T8, T9, T10, T11)
{
    fn swap_positions(&mut self) {
        core::mem::swap(&mut self.2, &mut self.3);
    }

    proof fn lemma_pair(self, a: T, b: T) {
    }
}

impl<T, T0, T1, T3, T5, T6, T7, T8, T9, T10, T11> TypedSwap<TupleIndex2, TupleIndex4, T>
    for (T0, T1, T, T3, T, T5, T6, T7, T8, T9, T10, T11)
{
    fn swap_positions(&mut self) {
        core::mem::swap(&mut self.2, &mut self.4);
    }

    proof fn lemma_pair(self, a: T, b: T) {
    }
}

impl<T, T0, T1, T3, T4, T6, T7, T8, T9, T10, T11> TypedSwap<TupleIndex2, TupleIndex5, T>
    for (T0, T1, T, T3, T4, T, T6, T7, T8, T9, T10, T11)
{
    fn swap_positions(&mut self) {
        core::mem::swap(&mut self.2, &mut self.5);
    }

    proof fn lemma_pair(self, a: T, b: T) {
    }
}

impl<T, T0, T1, T3, T4, T5, T7, T8, T9, T10, T11> TypedSwap<TupleIndex2, TupleIndex6, T>
    for (T0, T1, T, T3, T4, T5, T, T7, T8, T9, T10, T11)
{
    fn swap_positions(&mut self) {
        core::mem::swap(&mut self.2, &mut self.6);
    }

    proof fn lemma_pair(self, a: T, b: T) {
    }
}

impl<T, T0, T1, T3, T4, T5, T6, T8, T9, T10, T11> TypedSwap<TupleIndex2, TupleIndex7, T>
    for (T0, T1, T, T3, T4, T5, T6, T, T8, T9, T10, T11)
{
    fn swap_positions(&mut self) {
        core::mem::swap(&mut self.2, &mut self.7);
    }

    proof fn lemma_pair(self, a: T, b: T) {
    }
}

impl<T, T0, T1, T3, T4, T5, T6, T7, T9, T10, T11> TypedSwap<TupleIndex2, TupleIndex8, T>
    for (T0, T1, T, T3, T4, T5, T6, T7, T, T9, T10, T11)
{
    fn swap_positions(&mut self) {
        core::mem::swap(&mut self.2, &mut self.8);
    }

    proof fn lemma_pair(self, a: T, b: T) {
    }
}

impl<T, T0, T1, T3, T4, T5, T6, T7, T8, T10, T11> TypedSwap<TupleIndex2, TupleIndex9, T>
    for (T0, T1, T, T3, T4, T5, T6, T7, T8, T, T10, T11)
{
    fn swap_positions(&mut self) {
        core::mem::swap(&mut self.2, &mut self.9);
    }

    proof fn lemma_pair(self, a: T, b: T) {
    }
}

impl<T, T0, T1, T3, T4, T5, T6, T7, T8, T9, T11> TypedSwap<TupleIndex2, TupleIndex10, T>
    for (T0, T1, T, T3, T4, T5, T6, T7, T8, T9, T, T11)
{
    fn swap_positions(&mut self) {
        core::mem::swap(&mut self.2, &mut self.10);
    }

    proof fn lemma_pair(self, a: T, b: T) {
    }
}

impl<T, T0, T1, T3, T4, T5, T6, T7, T8, T9, T10> TypedSwap<TupleIndex2, TupleIndex11, T>
    for (T0, T1, T, T3, T4, T5, T6, T7, T8, T9, T10, T)
{
    fn swap_positions(&mut self) {
        core::mem::swap(&mut self.2, &mut self.11);
    }

    proof fn lemma_pair(self, a: T, b: T) {
    }
}

impl<T, T1, T2, T4, T5, T6, T7, T8, T9, T10, T11> TypedSwap<TupleIndex3, TupleIndex0, T>
    for (T, T1, T2, T, T4, T5, T6, T7, T8, T9, T10, T11)
{
    fn swap_positions(&mut self) {
        core::mem::swap(&mut self.3, &mut self.0);
    }

    proof fn lemma_pair(self, a: T, b: T) {
    }
}

impl<T, T0, T2, T4, T5, T6, T7, T8, T9, T10, T11> TypedSwap<TupleIndex3, TupleIndex1, T>
    for (T0, T, T2, T, T4, T5, T6, T7, T8, T9, T10, T11)
{
    fn swap_positions(&mut self) {
        core::mem::swap(&mut self.3, &mut self.1);
    }

    proof fn lemma_pair(self, a: T, b: T) {
    }
}

impl<T, T0, T1, T4, T5, T6, T7, T8, T9, T10, T11> TypedSwap<TupleIndex3, TupleIndex2, T>
    for (T0, T1, T, T, T4, T5, T6, T7, T8, T9, T10, T11)
{
    fn swap_positions(&mut self) {
        core::mem::swap(&mut self.3, &mut self.2);
    }

    proof fn lemma_pair(self, a: T, b: T) {
    }
}

impl<T, T0, T1, T2, T5, T6, T7, T8, T9, T10, T11> TypedSwap<TupleIndex3, TupleIndex4, T>
    for (T0, T1, T2, T, T, T5, T6, T7, T8, T9, T10, T11)
{
    fn swap_positions(&mut self) {
        core::mem::swap(&mut self.3, &mut self.4);
    }

    proof fn lemma_pair(self, a: T, b: T) {
    }
}

impl<T, T0, T1, T2, T4, T6, T7, T8, T9, T10, T11> TypedSwap<TupleIndex3, TupleIndex5, T>
    for (T0, T1, T2, T, T4, T, T6, T7, T8, T9, T10, T11)
{
    fn swap_positions(&mut self) {
        core::mem::swap(&mut self.3, &mut self.5);
    }

    proof fn lemma_pair(self, a: T, b: T) {
    }
}

impl<T, T0, T1, T2, T4, T5, T7, T8, T9, T10, T11> TypedSwap<TupleIndex3, TupleIndex6, T>
    for (T0, T1, T2, T, T4, T5, T, T7, T8, T9, T10, T11)
{
    fn swap_positions(&mut self) {
        core::mem::swap(&mut self.3, &mut self.6);
    }

    proof fn lemma_pair(self, a: T, b: T) {
    }
}

impl<T, T0, T1, T2, T4, T5, T6, T8, T9, T10, T11> TypedSwap<TupleIndex3, TupleIndex7, T>
    for (T0, T1, T2, T, T4, T5, T6, T, T8, T9, T10, T11)
{
    fn swap_positions(&mut self) {
        core::mem::swap(&mut self.3, &mut self.7);
    }

    proof fn lemma_pair(self, a: T, b: T) {
    }
}

impl<T, T0, T1, T2, T4, T5, T6, T7, T9, T10, T11> TypedSwap<TupleIndex3, TupleIndex8, T>
    for (T0, T1, T2, T, T4, T5, T6, T7, T, T9, T10, T11)
{
    fn swap_positions(&mut self) {
        core::mem::swap(&mut self.3, &mut self.8);
    }

    proof fn lemma_pair(self, a: T, b: T) {
    }
}

impl<T, T0, T1, T2, T4, T5, T6, T7, T8, T10, T11> TypedSwap<TupleIndex3, TupleIndex9, T>
    for (T0, T1, T2, T, T4, T5, T6, T7, T8, T, T10, T11)
{
    fn swap_positions(&mut self) {
        core::mem::swap(&mut self.3, &mut self.9);
    }

    proof fn lemma_pair(self, a: T, b: T) {
    }
}

impl<T, T0, T1, T2, T4, T5, T6, T7, T8, T9, T11> TypedSwap<TupleIndex3, TupleIndex10, T>
    for (T0, T1, T2, T, T4, T5, T6, T7, T8, T9, T, T11)
{
    fn swap_positions(&mut self) {
        core::mem::swap(&mut self.3, &mut self.10);
    }

    proof fn lemma_pair(self, a: T, b: T) {
    }
}

impl<T, T0, T1, T2, T4, T5, T6, T7, T8, T9, T10> TypedSwap<TupleIndex3, TupleIndex11, T>
    for (T0, T1, T2, T, T4, T5, T6, T7, T8, T9, T10, T)
{
    fn swap_positions(&mut self) {
        core::mem::swap(&mut self.3, &mut self.11);
    }

    proof fn lemma_pair(self, a: T, b: T) {
    }
}

impl<T, T1, T2, T3, T5, T6, T7, T8, T9, T10, T11> TypedSwap<TupleIndex4, TupleIndex0, T>
    for (T, T1, T2, T3, T, T5, T6, T7, T8, T9, T10, T11)
{
    fn swap_positions(&mut self) {
        core::mem::swap(&mut self.4, &mut self.0);
    }

    proof fn lemma_pair(self, a: T, b: T) {
    }
}

impl<T, T0, T2, T3, T5, T6, T7, T8, T9, T10, T11> TypedSwap<TupleIndex4, TupleIndex1, T>
    for (T0, T, T2, T3, T, T5, T6, T7, T8, T9, T10, T11)
{
    fn swap_positions(&mut self) {
        core::mem::swap(&mut self.4, &mut self.1);
    }

    proof fn lemma_pair(self, a: T, b: T) {
    }
}

impl<T, T0, T1, T3, T5, T6, T7, T8, T9, T10, T11> TypedSwap<TupleIndex4, TupleIndex2, T>
    for (T0, T1, T, T3, T, T5, T6, T7, T8, T9, T10, T11)
{
    fn swap_positions(&mut self) {
        core::mem::swap(&mut self.4, &mut self.2);
    }

    proof fn lemma_pair(self, a: T, b: T) {
    }
}

impl<T, T0, T1, T2, T5, T6, T7, T8, T9, T10, T11> TypedSwap<TupleIndex4, TupleIndex3, T>
    for (T0, T1, T2, T, T, T5, T6, T7, T8, T9, T10, T11)
{
    fn swap_positions(&mut self) {
        core::mem::swap(&mut self.4, &mut self.3);
    }

    proof fn lemma_pair(self, a: T, b: T) {
    }
}

impl<T, T0, T1, T2, T3, T6, T7, T8, T9, T10, T11> TypedSwap<TupleIndex4, TupleIndex5, T>
    for (T0, T1, T2, T3, T, T, T6, T7, T8, T9, T10, T11)
{
    fn swap_positions(&mut self) {
        core::mem::swap(&mut self.4, &mut self.5);
    }

    proof fn lemma_pair(self, a: T, b: T) {
    }
}

impl<T, T0, T1, T2, T3, T5, T7, T8, T9, T10, T11> TypedSwap<TupleIndex4, TupleIndex6, T>
    for (T0, T1, T2, T3, T, T5, T, T7, T8, T9, T10, T11)
{
    fn swap_positions(&mut self) {
        core::mem::swap(&mut self.4, &mut self.6);
    }

    proof fn lemma_pair(self, a: T, b: T) {
    }
}

impl<T, T0, T1, T2, T3, T5, T6, T8, T9, T10, T11> TypedSwap<TupleIndex4, TupleIndex7, T>
    for (T0, T1, T2, T3, T, T5, T6, T, T8, T9, T10, T11)
{
    fn swap_positions(&mut self) {
        core::mem::swap(&mut self.4, &mut self.7);
    }

    proof fn lemma_pair(self, a: T, b: T) {
    }
}

impl<T, T0, T1, T2, T3, T5, T6, T7, T9, T10, T11> TypedSwap<TupleIndex4, TupleIndex8, T>
    for (T0, T1, T2, T3, T, T5, T6, T7, T, T9, T10, T11)
{
    fn swap_positions(&mut self) {
        core::mem::swap(&mut self.4, &mut self.8);
    }

    proof fn lemma_pair(self, a: T, b: T) {
    }
}

impl<T, T0, T1, T2, T3, T5, T6, T7, T8, T10, T11> TypedSwap<TupleIndex4, TupleIndex9, T>
    for (T0, T1, T2, T3, T, T5, T6, T7, T8, T, T10, T11)
{
    fn swap_positions(&mut self) {
        core::mem::swap(&mut self.4, &mut self.9);
    }

    proof fn lemma_pair(self, a: T, b: T) {
    }
}

impl<T, T0, T1, T2, T3, T5, T6, T7, T8, T9, T11> TypedSwap<TupleIndex4, TupleIndex10, T>
    for (T0, T1, T2, T3, T, T5, T6, T7, T8, T9, T, T11)
{
    fn swap_positions(&mut self) {
        core::mem::swap(&mut self.4, &mut self.10);
    }

    proof fn lemma_pair(self, a: T, b: T) {
    }
}

impl<T, T0, T1, T2, T3, T5, T6, T7, T8, T9, T10> TypedSwap<TupleIndex4, TupleIndex11, T>
    for (T0, T1, T2, T3, T, T5, T6, T7, T8, T9, T10, T)
{
    fn swap_positions(&mut self) {
        core::mem::swap(&mut self.4, &mut self.11);
    }

    proof fn lemma_pair(self, a: T, b: T) {
    }
}

impl<T, T1, T2, T3, T4, T6, T7, T8, T9, T10, T11> TypedSwap<TupleIndex5, TupleIndex0, T>
    for (T, T1, T2, T3, T4, T, T6, T7, T8, T9, T10, T11)
{
    fn swap_positions(&mut self) {
        core::mem::swap(&mut self.5, &mut self.0);
    }

    proof fn lemma_pair(self, a: T, b: T) {
    }
}

impl<T, T0, T2, T3, T4, T6, T7, T8, T9, T10, T11> TypedSwap<TupleIndex5, TupleIndex1, T>
    for (T0, T, T2, T3, T4, T, T6, T7, T8, T9, T10, T11)
{
    fn swap_positions(&mut self) {
        core::mem::swap(&mut self.5, &mut self.1);
    }

    proof fn lemma_pair(self, a: T, b: T) {
    }
}

impl<T, T0, T1, T3, T4, T6, T7, T8, T9, T10, T11> TypedSwap<TupleIndex5, TupleIndex2, T>
    for (T0, T1, T, T3, T4, T, T6, T7, T8, T9, T10, T11)
{
    fn swap_positions(&mut self) {
        core::mem::swap(&mut self.5, &mut self.2);
    }

    proof fn lemma_pair(self, a: T, b: T) {
    }
}

impl<T, T0, T1, T2, T4, T6, T7, T8, T9, T10, T11> TypedSwap<TupleIndex5, TupleIndex3, T>
    for (T0, T1, T2, T, T4, T, T6, T7, T8, T9, T10, T11)
{
    fn swap_positions(&mut self) {
        core::mem::swap(&mut self.5, &mut self.3);
    }

    proof fn lemma_pair(self, a: T, b: T) {
    }
}

impl<T, T0, T1, T2, T3, T6, T7, T8, T9, T10, T11> TypedSwap<TupleIndex5, TupleIndex4, T>
    for (T0, T1, T2, T3, T, T, T6, T7, T8, T9, T10, T11)
{
    fn swap_positions(&mut self) {
        core::mem::swap(&mut self.5, &mut self.4);
    }

    proof fn lemma_pair(self, a: T, b: T) {
    }
}

impl<T, T0, T1, T2, T3, T4, T7, T8, T9, T10, T11> TypedSwap<TupleIndex5, TupleIndex6, T>
    for (T0, T1, T2, T3, T4, T, T, T7, T8, T9, T10, T11)
{
    fn swap_positions(&mut self) {
        core::mem::swap(&mut self.5, &mut self.6);
    }

    proof fn lemma_pair(self, a: T, b: T) {
    }
}

impl<T, T0, T1, T2, T3, T4, T6, T8, T9, T10, T11> TypedSwap<TupleIndex5, TupleIndex7, T>
    for (T0, T1, T2, T3, T4, T, T6, T, T8, T9, T10, T11)
{
    fn swap_positions(&mut self) {
        core::mem::swap(&mut self.5, &mut self.7);
    }

    proof fn lemma_pair(self, a: T, b: T) {
    }
}

impl<T, T0, T1, T2, T3, T4, T6, T7, T9, T10, T11> TypedSwap<TupleIndex5, TupleIndex8, T>
    for (T0, T1, T2, T3, T4, T, T6, T7, T, T9, T10, T11)
{
    fn swap_positions(&mut self) {
        core::mem::swap(&mut self.5, &mut self.8);
    }

    proof fn lemma_pair(self, a: T, b: T) {
    }
}

impl<T, T0, T1, T2, T3, T4, T6, T7, T8, T10, T11> TypedSwap<TupleIndex5, TupleIndex9, T>
    for (T0, T1, T2, T3, T4, T, T6, T7, T8, T, T10, T11)
{
    fn swap_positions(&mut self) {
        core::mem::swap(&mut self.5, &mut self.9);
    }

    proof fn lemma_pair(self, a: T, b: T) {
    }
}

impl<T, T0, T1, T2, T3, T4, T6, T7, T8, T9, T11> TypedSwap<TupleIndex5, TupleIndex10, T>
    for (T0, T1, T2, T3, T4, T, T6, T7, T8, T9, T, T11)
{
    fn swap_positions(&mut self) {
        core::mem::swap(&mut self.5, &mut self.10);
    }

    proof fn lemma_pair(self, a: T, b: T) {
    }
}

impl<T, T0, T1, T2, T3, T4, T6, T7, T8, T9, T10> TypedSwap<TupleIndex5, TupleIndex11, T>
    for (T0, T1, T2, T3, T4, T, T6, T7, T8, T9, T10, T)
{
    fn swap_positions(&mut self) {
        core::mem::swap(&mut self.5, &mut self.11);
    }

    proof fn lemma_pair(self, a: T, b: T) {
    }
}

impl<T, T1, T2, T3, T4, T5, T7, T8, T9, T10, T11> TypedSwap<TupleIndex6, TupleIndex0, T>
    for (T, T1, T2, T3, T4, T5, T, T7, T8, T9, T10, T11)
{
    fn swap_positions(&mut self) {
        core::mem::swap(&mut self.6, &mut self.0);
    }

    proof fn lemma_pair(self, a: T, b: T) {
    }
}

impl<T, T0, T2, T3, T4, T5, T7, T8, T9, T10, T11> TypedSwap<TupleIndex6, TupleIndex1, T>
    for (T0, T, T2, T3, T4, T5, T, T7, T8, T9, T10, T11)
{
    fn swap_positions(&mut self) {
        core::mem::swap(&mut self.6, &mut self.1);
    }

    proof fn lemma_pair(self, a: T, b: T) {
    }
}

impl<T, T0, T1, T3, T4, T5, T7, T8, T9, T10, T11> TypedSwap<TupleIndex6, TupleIndex2, T>
    for (T0, T1, T, T3, T4, T5, T, T7, T8, T9, T10, T11)
{
    fn swap_positions(&mut self) {
        core::mem::swap(&mut self.6, &mut self.2);
    }

    proof fn lemma_pair(self, a: T, b: T) {
    }
}

impl<T, T0, T1, T2, T4, T5, T7, T8, T9, T10, T11> TypedSwap<TupleIndex6, TupleIndex3, T>
    for (T0, T1, T2, T, T4, T5, T, T7, T8, T9, T10, T11)
{
    fn swap_positions(&mut self) {
        core::mem::swap(&mut self.6, &mut self.3);
    }

    proof fn lemma_pair(self, a: T, b: T) {
    }
}

impl<T, T0, T1, T2, T3, T5, T7, T8, T9, T10, T11> TypedSwap<TupleIndex6, TupleIndex4, T>
    for (T0, T1, T2, T3, T, T5, T, T7, T8, T9, T10, T11)
{
    fn swap_positions(&mut self) {
        core::mem::swap(&mut self.6, &mut self.4);
    }

    proof fn lemma_pair(self, a: T, b: T) {
    }
}

impl<T, T0, T1, T2, T3, T4, T7, T8, T9, T10, T11> TypedSwap<TupleIndex6, TupleIndex5, T>
    for (T0, T1, T2, T3, T4, T, T, T7, T8, T9, T10, T11)
{
    fn swap_positions(&mut self) {
        core::mem::swap(&mut self.6, &mut self.5);
    }

    proof fn lemma_pair(self, a: T, b: T) {
    }
}

impl<T, T0, T1, T2, T3, T4, T5, T8, T9, T10, T11> TypedSwap<TupleIndex6, TupleIndex7, T>
    for (T0, T1, T2, T3, T4, T5, T, T, T8, T9, T10, T11)
{
    fn swap_positions(&mut self) {
        core::mem::swap(&mut self.6, &mut self.7);
    }

    proof fn lemma_pair(self, a: T, b: T) {
    }
}

impl<T, T0, T1, T2, T3, T4, T5, T7, T9, T10, T11> TypedSwap<TupleIndex6, TupleIndex8, T>
    for (T0, T1, T2, T3, T4, T5, T, T7, T, T9, T10, T11)
{
    fn swap_positions(&mut self) {
        core::mem::swap(&mut self.6, &mut self.8);
    }

    proof fn lemma_pair(self, a: T, b: T) {
    }
}

impl<T, T0, T1, T2, T3, T4, T5, T7, T8, T10, T11> TypedSwap<TupleIndex6, TupleIndex9, T>
    for (T0, T1, T2, T3, T4, T5, T, T7, T8, T, T10, T11)
{
    fn swap_positions(&mut self) {
        core::mem::swap(&mut self.6, &mut self.9);
    }

    proof fn lemma_pair(self, a: T, b: T) {
    }
}

impl<T, T0, T1, T2, T3, T4, T5, T7, T8, T9, T11> TypedSwap<TupleIndex6, TupleIndex10, T>
    for (T0, T1, T2, T3, T4, T5, T, T7, T8, T9, T, T11)
{
    fn swap_positions(&mut self) {
        core::mem::swap(&mut self.6, &mut self.10);
    }

    proof fn lemma_pair(self, a: T, b: T) {
    }
}

impl<T, T0, T1, T2, T3, T4, T5, T7, T8, T9, T10> TypedSwap<TupleIndex6, TupleIndex11, T>
    for (T0, T1, T2, T3, T4, T5, T, T7, T8, T9, T10, T)
{
    fn swap_positions(&mut self) {
        core::mem::swap(&mut self.6, &mut self.11);
    }

    proof fn lemma_pair(self, a: T, b: T) {
    }
}

impl<T, T1, T2, T3, T4, T5, T6, T8, T9, T10, T11> TypedSwap<TupleIndex7, TupleIndex0, T>
    for (T, T1, T2, T3, T4, T5, T6, T, T8, T9, T10, T11)
{
    fn swap_positions(&mut self) {
        core::mem::swap(&mut self.7, &mut self.0);
    }

    proof fn lemma_pair(self, a: T, b: T) {
    }
}

impl<T, T0, T2, T3, T4, T5, T6, T8, T9, T10, T11> TypedSwap<TupleIndex7, TupleIndex1, T>
    for (T0, T, T2, T3, T4, T5, T6, T, T8, T9, T10, T11)
{
    fn swap_positions(&mut self) {
        core::mem::swap(&mut self.7, &mut self.1);
    }

    proof fn lemma_pair(self, a: T, b: T) {
    }
}

impl<T, T0, T1, T3, T4, T5, T6, T8, T9, T10, T11> TypedSwap<TupleIndex7, TupleIndex2, T>
    for (T0, T1, T, T3, T4, T5, T6, T, T8, T9, T10, T11)
{
    fn swap_positions(&mut self) {
        core::mem::swap(&mut self.7, &mut self.2);
    }

    proof fn lemma_pair(self, a: T, b: T) {
    }
}

impl<T, T0, T1, T2, T4, T5, T6, T8, T9, T10, T11> TypedSwap<TupleIndex7, TupleIndex3, T>
    for (T0, T1, T2, T, T4, T5, T6, T, T8, T9, T10, T11)
{
    fn swap_positions(&mut self) {
        core::mem::swap(&mut self.7, &mut self.3);
    }

    proof fn lemma_pair(self, a: T, b: T) {
    }
}

impl<T, T0, T1, T2, T3, T5, T6, T8, T9, T10, T11> TypedSwap<TupleIndex7, TupleIndex4, T>
    for (T0, T1, T2, T3, T, T5, T6, T, T8, T9, T10, T11)
{
    fn swap_positions(&mut self) {
        core::mem::swap(&mut self.7, &mut self.4);
    }

    proof fn lemma_pair(self, a: T, b: T) {
    }
}

impl<T, T0, T1, T2, T3, T4, T6, T8, T9, T10, T11> TypedSwap<TupleIndex7, TupleIndex5, T>
    for (T0, T1, T2, T3, T4, T, T6, T, T8, T9, T10, T11)
{
    fn swap_positions(&mut self) {
        core::mem::swap(&mut self.7, &mut self.5);
    }

    proof fn lemma_pair(self, a: T, b: T) {
    }
}

impl<T, T0, T1, T2, T3, T4, T5, T8, T9, T10, T11> TypedSwap<TupleIndex7, TupleIndex6, T>
    for (T0, T1, T2, T3, T4, T5, T, T, T8, T9, T10, T11)
{
    fn swap_positions(&mut self) {
        core::mem::swap(&mut self.7, &mut self.6);
    }

    proof fn lemma_pair(self, a: T, b: T) {
    }
}

impl<T, T0, T1, T2, T3, T4, T5, T6, T9, T10, T11> TypedSwap<TupleIndex7, TupleIndex8, T>
    for (T0, T1, T2, T3, T4, T5, T6, T, T, T9, T10, T11)
{
    fn swap_positions(&mut self) {
        core::mem::swap(&mut self.7, &mut self.8);
    }

    proof fn lemma_pair(self, a: T, b: T) {
    }
}

impl<T, T0, T1, T2, T3, T4, T5, T6, T8, T10, T11> TypedSwap<TupleIndex7, TupleIndex9, T>
    for (T0, T1, T2, T3, T4, T5, T6, T, T8, T, T10, T11)
{
    fn swap_positions(&mut self) {
        core::mem::swap(&mut self.7, &mut self.9);
    }

    proof fn lemma_pair(self, a: T, b: T) {
    }
}

impl<T, T0, T1, T2, T3, T4, T5, T6, T8, T9, T11> TypedSwap<TupleIndex7, TupleIndex10, T>
    for (T0, T1, T2, T3, T4, T5, T6, T, T8, T9, T, T11)
{
    fn swap_positions(&mut self) {
        core::mem::swap(&mut self.7, &mut self.10);
    }

    proof fn lemma_pair(self, a: T, b: T) {
    }
}

impl<T, T0, T1, T2, T3, T4, T5, T6, T8, T9, T10> TypedSwap<TupleIndex7, TupleIndex11, T>
    for (T0, T1, T2, T3, T4, T5, T6, T, T8, T9, T10, T)
{
    fn swap_positions(&mut self) {
        core::mem::swap(&mut self.7, &mut self.11);
    }

    proof fn lemma_pair(self, a: T, b: T) {
    }
}

impl<T, T1, T2, T3, T4, T5, T6, T7, T9, T10, T11> TypedSwap<TupleIndex8, TupleIndex0, T>
    for (T, T1, T2, T3, T4, T5, T6, T7, T, T9, T10, T11)
{
    fn swap_positions(&mut self) {
        core::mem::swap(&mut self.8, &mut self.0);
    }

    proof fn lemma_pair(self, a: T, b: T) {
    }
}

impl<T, T0, T2, T3, T4, T5, T6, T7, T9, T10, T11> TypedSwap<TupleIndex8, TupleIndex1, T>
    for (T0, T, T2, T3, T4, T5, T6, T7, T, T9, T10, T11)
{
    fn swap_positions(&mut self) {
        core::mem::swap(&mut self.8, &mut self.1);
    }

    proof fn lemma_pair(self, a: T, b: T) {
    }
}

impl<T, T0, T1, T3, T4, T5, T6, T7, T9, T10, T11> TypedSwap<TupleIndex8, TupleIndex2, T>
    for (T0, T1, T, T3, T4, T5, T6, T7, T, T9, T10, T11)
{
    fn swap_positions(&mut self) {
        core::mem::swap(&mut self.8, &mut self.2);
    }

    proof fn lemma_pair(self, a: T, b: T) {
    }
}

impl<T, T0, T1, T2, T4, T5, T6, T7, T9, T10, T11> TypedSwap<TupleIndex8, TupleIndex3, T>
    for (T0, T1, T2, T, T4, T5, T6, T7, T, T9, T10, T11)
{
    fn swap_positions(&mut self) {
        core::mem::swap(&mut self.8, &mut self.3);
    }

    proof fn lemma_pair(self, a: T, b: T) {
    }
}

impl<T, T0, T1, T2, T3, T5, T6, T7, T9, T10, T11> TypedSwap<TupleIndex8, TupleIndex4, T>
    for (T0, T1, T2, T3, T, T5, T6, T7, T, T9, T10, T11)
{
    fn swap_positions(&mut self) {
        core::mem::swap(&mut self.8, &mut self.4);
    }

    proof fn lemma_pair(self, a: T, b: T) {
    }
}

impl<T, T0, T1, T2, T3, T4, T6, T7, T9, T10, T11> TypedSwap<TupleIndex8, TupleIndex5, T>
    for (T0, T1, T2, T3, T4, T, T6, T7, T, T9, T10, T11)
{
    fn swap_positions(&mut self) {
        core::mem::swap(&mut self.8, &mut self.5);
    }

    proof fn lemma_pair(self, a: T, b: T) {
    }
}

impl<T, T0, T1, T2, T3, T4, T5, T7, T9, T10, T11> TypedSwap<TupleIndex8, TupleIndex6, T>
    for (T0, T1, T2, T3, T4, T5, T, T7, T, T9, T10, T11)
{
    fn swap_positions(&mut self) {
        core::mem::swap(&mut self.8, &mut self.6);
    }

    proof fn lemma_pair(self, a: T, b: T) {
    }
}

impl<T, T0, T1, T2, T3, T4, T5, T6, T9, T10, T11> TypedSwap<TupleIndex8, TupleIndex7, T>
    for (T0, T1, T2, T3, T4, T5, T6, T, T, T9, T10, T11)
{
    fn swap_positions(&mut self) {
        core::mem::swap(&mut self.8, &mut self.7);
    }

    proof fn lemma_pair(self, a: T, b: T) {
    }
}

impl<T, T0, T1, T2, T3, T4, T5, T6, T7, T10, T11> TypedSwap<TupleIndex8, TupleIndex9, T>
    for (T0, T1, T2, T3, T4, T5, T6, T7, T, T, T10, T11)
{
    fn swap_positions(&mut self) {
        core::mem::swap(&mut self.8, &mut self.9);
    }

    proof fn lemma_pair(self, a: T, b: T) {
    }
}

impl<T, T0, T1, T2, T3, T4, T5, T6, T7, T9, T11> TypedSwap<TupleIndex8, TupleIndex10, T>
    for (T0, T1, T2, T3, T4, T5, T6, T7, T, T9, T, T11)
{
    fn swap_positions(&mut self) {
        core::mem::swap(&mut self.8, &mut self.10);
    }

    proof fn lemma_pair(self, a: T, b: T) {
    }
}

impl<T, T0, T1, T2, T3, T4, T5, T6, T7, T9, T10> TypedSwap<TupleIndex8, TupleIndex11, T>
    for (T0, T1, T2, T3, T4, T5, T6, T7, T, T9, T10, T)
{
    fn swap_positions(&mut self) {
        core::mem::swap(&mut self.8, &mut self.11);
    }

    proof fn lemma_pair(self, a: T, b: T) {
    }
}

impl<T, T1, T2, T3, T4, T5, T6, T7, T8, T10, T11> TypedSwap<TupleIndex9, TupleIndex0, T>
    for (T, T1, T2, T3, T4, T5, T6, T7, T8, T, T10, T11)
{
    fn swap_positions(&mut self) {
        core::mem::swap(&mut self.9, &mut self.0);
    }

    proof fn lemma_pair(self, a: T, b: T) {
    }
}

impl<T, T0, T2, T3, T4, T5, T6, T7, T8, T10, T11> TypedSwap<TupleIndex9, TupleIndex1, T>
    for (T0, T, T2, T3, T4, T5, T6, T7, T8, T, T10, T11)
{
    fn swap_positions(&mut self) {
        core::mem::swap(&mut self.9, &mut self.1);
    }

    proof fn lemma_pair(self, a: T, b: T) {
    }
}

impl<T, T0, T1, T3, T4, T5, T6, T7, T8, T10, T11> TypedSwap<TupleIndex9, TupleIndex2, T>
    for (T0, T1, T, T3, T4, T5, T6, T7, T8, T, T10, T11)
{
    fn swap_positions(&mut self) {
        core::mem::swap(&mut self.9, &mut self.2);
    }

    proof fn lemma_pair(self, a: T, b: T) {
    }
}

impl<T, T0, T1, T2, T4, T5, T6, T7, T8, T10, T11> TypedSwap<TupleIndex9, TupleIndex3, T>
    for (T0, T1, T2, T, T4, T5, T6, T7, T8, T, T10, T11)
{
    fn swap_positions(&mut self) {
        core::mem::swap(&mut self.9, &mut self.3);
    }

    proof fn lemma_pair(self, a: T, b: T) {
    }
}

impl<T, T0, T1, T2, T3, T5, T6, T7, T8, T10, T11> TypedSwap<TupleIndex9, TupleIndex4, T>
    for (T0, T1, T2, T3, T, T5, T6, T7, T8, T, T10, T11)
{
    fn swap_positions(&mut self) {
        core::mem::swap(&mut self.9, &mut self.4);
    }

    proof fn lemma_pair(self, a: T, b: T) {
    }
}

impl<T, T0, T1, T2, T3, T4, T6, T7, T8, T10, T11> TypedSwap<TupleIndex9, TupleIndex5, T>
    for (T0, T1, T2, T3, T4, T, T6, T7, T8, T, T10, T11)
{
    fn swap_positions(&mut self) {
        core::mem::swap(&mut self.9, &mut self.5);
    }

    proof fn lemma_pair(self, a: T, b: T) {
    }
}

impl<T, T0, T1, T2, T3, T4, T5, T7, T8, T10, T11> TypedSwap<TupleIndex9, TupleIndex6, T>
    for (T0, T1, T2, T3, T4, T5, T, T7, T8, T, T10, T11)
{
    fn swap_positions(&mut self) {
        core::mem::swap(&mut self.9, &mut self.6);
    }

    proof fn lemma_pair(self, a: T, b: T) {
    }
}

impl<T, T0, T1, T2, T3, T4, T5, T6, T8, T10, T11> TypedSwap<TupleIndex9, TupleIndex7, T>
    for (T0, T1, T2, T3, T4, T5, T6, T, T8, T, T10, T11)
{
    fn swap_positions(&mut self) {
        core::mem::swap(&mut self.9, &mut self.7);
    }

    proof fn lemma_pair(self, a: T, b: T) {
    }
}

impl<T, T0, T1, T2, T3, T4, T5, T6, T7, T10, T11> TypedSwap<TupleIndex9, TupleIndex8, T>
    for (T0, T1, T2, T3, T4, T5, T6, T7, T, T, T10, T11)
{
    fn swap_positions(&mut self) {
        core::mem::swap(&mut self.9, &mut self.8);
    }

    proof fn lemma_pair(self, a: T, b: T) {
    }
}

impl<T, T0, T1, T2, T3, T4, T5, T6, T7, T8, T11> TypedSwap<TupleIndex9, TupleIndex10, T>
    for (T0, T1, T2, T3, T4, T5, T6, T7, T8, T, T, T11)
{
    fn swap_positions(&mut self) {
        core::mem::swap(&mut self.9, &mut self.10);
    }

    proof fn lemma_pair(self, a: T, b: T) {
    }
}

impl<T, T0, T1, T2, T3, T4, T5, T6, T7, T8, T10> TypedSwap<TupleIndex9, TupleIndex11, T>
    for (T0, T1, T2, T3, T4, T5, T6, T7, T8, T, T10, T)
{
    fn swap_positions(&mut self) {
        core::mem::swap(&mut self.9, &mut self.11);
    }

    proof fn lemma_pair(self, a: T, b: T) {
    }
}

impl<T, T1, T2, T3, T4, T5, T6, T7, T8, T9, T11> TypedSwap<TupleIndex10, TupleIndex0, T>
    for (T, T1, T2, T3, T4, T5, T6, T7, T8, T9, T, T11)
{
    fn swap_positions(&mut self) {
        core::mem::swap(&mut self.10, &mut self.0);
    }

    proof fn lemma_pair(self, a: T, b: T) {
    }
}

impl<T, T0, T2, T3, T4, T5, T6, T7, T8, T9, T11> TypedSwap<TupleIndex10, TupleIndex1, T>
    for (T0, T, T2, T3, T4, T5, T6, T7, T8, T9, T, T11)
{
    fn swap_positions(&mut self) {
        core::mem::swap(&mut self.10, &mut self.1);
    }

    proof fn lemma_pair(self, a: T, b: T) {
    }
}

impl<T, T0, T1, T3, T4, T5, T6, T7, T8, T9, T11> TypedSwap<TupleIndex10, TupleIndex2, T>
    for (T0, T1, T, T3, T4, T5, T6, T7, T8, T9, T, T11)
{
    fn swap_positions(&mut self) {
        core::mem::swap(&mut self.10, &mut self.2);
    }

    proof fn lemma_pair(self, a: T, b: T) {
    }
}

impl<T, T0, T1, T2, T4, T5, T6, T7, T8, T9, T11> TypedSwap<TupleIndex10, TupleIndex3, T>
    for (T0, T1, T2, T, T4, T5, T6, T7, T8, T9, T, T11)
{
    fn swap_positions(&mut self) {
        core::mem::swap(&mut self.10, &mut self.3);
    }

    proof fn lemma_pair(self, a: T, b: T) {
    }
}

impl<T, T0, T1, T2, T3, T5, T6, T7, T8, T9, T11> TypedSwap<TupleIndex10, TupleIndex4, T>
    for (T0, T1, T2, T3, T, T5, T6, T7, T8, T9, T, T11)
{
    fn swap_positions(&mut self) {
        core::mem::swap(&mut self.10, &mut self.4);
    }

    proof fn lemma_pair(self, a: T, b: T) {
    }
}

impl<T, T0, T1, T2, T3, T4, T6, T7, T8, T9, T11> TypedSwap<TupleIndex10, TupleIndex5, T>
    for (T0, T1, T2, T3, T4, T, T6, T7, T8, T9, T, T11)
{
    fn swap_positions(&mut self) {
        core::mem::swap(&mut self.10, &mut self.5);
    }

    proof fn lemma_pair(self, a: T, b: T) {
    }
}

impl<T, T0, T1, T2, T3, T4, T5, T7, T8, T9, T11> TypedSwap<TupleIndex10, TupleIndex6, T>
    for (T0, T1, T2, T3, T4, T5, T, T7, T8, T9, T, T11)
{
    fn swap_positions(&mut self) {
        core::mem::swap(&mut self.10, &mut self.6);
    }

    proof fn lemma_pair(self, a: T, b: T) {
    }
}

impl<T, T0, T1, T2, T3, T4, T5, T6, T8, T9, T11> TypedSwap<TupleIndex10, TupleIndex7, T>
    for (T0, T1, T2, T3, T4, T5, T6, T, T8, T9, T, T11)
{
    fn swap_positions(&mut self) {
        core::mem::swap(&mut self.10, &mut self.7);
    }

    proof fn lemma_pair(self, a: T, b: T) {
    }
}

impl<T, T0, T1, T2, T3, T4, T5, T6, T7, T9, T11> TypedSwap<TupleIndex10, TupleIndex8, T>
    for (T0, T1, T2, T3, T4, T5, T6, T7, T, T9, T, T11)
{
    fn swap_positions(&mut self) {
        core::mem::swap(&mut self.10, &mut self.8);
    }

    proof fn lemma_pair(self, a: T, b: T) {
    }
}

impl<T, T0, T1, T2, T3, T4, T5, T6, T7, T8, T11> TypedSwap<TupleIndex10, TupleIndex9, T>
    for (T0, T1, T2, T3, T4, T5, T6, T7, T8, T, T, T11)
{
    fn swap_positions(&mut self) {
        core::mem::swap(&mut self.10, &mut self.9);
    }

    proof fn lemma_pair(self, a: T, b: T) {
    }
}

impl<T, T0, T1, T2, T3, T4, T5, T6, T7, T8, T9> TypedSwap<TupleIndex10, TupleIndex11, T>
    for (T0, T1, T2, T3, T4, T5, T6, T7, T8, T9, T, T)
{
    fn swap_positions(&mut self) {
        core::mem::swap(&mut self.10, &mut self.11);
    }

    proof fn lemma_pair(self, a: T, b: T) {
    }
}

impl<T, T1, T2, T3, T4, T5, T6, T7, T8, T9, T10> TypedSwap<TupleIndex11, TupleIndex0, T>
    for (T, T1, T2, T3, T4, T5, T6, T7, T8, T9, T10, T)
{
    fn swap_positions(&mut self) {
        core::mem::swap(&mut self.11, &mut self.0);
    }

    proof fn lemma_pair(self, a: T, b: T) {
    }
}

impl<T, T0, T2, T3, T4, T5, T6, T7, T8, T9, T10> TypedSwap<TupleIndex11, TupleIndex1, T>
    for (T0, T, T2, T3, T4, T5, T6, T7, T8, T9, T10, T)
{
    fn swap_positions(&mut self) {
        core::mem::swap(&mut self.11, &mut self.1);
    }

    proof fn lemma_pair(self, a: T, b: T) {
    }
}

impl<T, T0, T1, T3, T4, T5, T6, T7, T8, T9, T10> TypedSwap<TupleIndex11, TupleIndex2, T>
    for (T0, T1, T, T3, T4, T5, T6, T7, T8, T9, T10, T)
{
    fn swap_positions(&mut self) {
        core::mem::swap(&mut self.11, &mut self.2);
    }

    proof fn lemma_pair(self, a: T, b: T) {
    }
}

impl<T, T0, T1, T2, T4, T5, T6, T7, T8, T9, T10> TypedSwap<TupleIndex11, TupleIndex3, T>
    for (T0, T1, T2, T, T4, T5, T6, T7, T8, T9, T10, T)
{
    fn swap_positions(&mut self) {
        core::mem::swap(&mut self.11, &mut self.3);
    }

    proof fn lemma_pair(self, a: T, b: T) {
    }
}

impl<T, T0, T1, T2, T3, T5, T6, T7, T8, T9, T10> TypedSwap<TupleIndex11, TupleIndex4, T>
    for (T0, T1, T2, T3, T, T5, T6, T7, T8, T9, T10, T)
{
    fn swap_positions(&mut self) {
        core::mem::swap(&mut self.11, &mut self.4);
    }

    proof fn lemma_pair(self, a: T, b: T) {
    }
}

impl<T, T0, T1, T2, T3, T4, T6, T7, T8, T9, T10> TypedSwap<TupleIndex11, TupleIndex5, T>
    for (T0, T1, T2, T3, T4, T, T6, T7, T8, T9, T10, T)
{
    fn swap_positions(&mut self) {
        core::mem::swap(&mut self.11, &mut self.5);
    }

    proof fn lemma_pair(self, a: T, b: T) {
    }
}

impl<T, T0, T1, T2, T3, T4, T5, T7, T8, T9, T10> TypedSwap<TupleIndex11, TupleIndex6, T>
    for (T0, T1, T2, T3, T4, T5, T, T7, T8, T9, T10, T)
{
    fn swap_positions(&mut self) {
        core::mem::swap(&mut self.11, &mut self.6);
    }

    proof fn lemma_pair(self, a: T, b: T) {
    }
}

impl<T, T0, T1, T2, T3, T4, T5, T6, T8, T9, T10> TypedSwap<TupleIndex11, TupleIndex7, T>
    for (T0, T1, T2, T3, T4, T5, T6, T, T8, T9, T10, T)
{
    fn swap_positions(&mut self) {
        core::mem::swap(&mut self.11, &mut self.7);
    }

    proof fn lemma_pair(self, a: T, b: T) {
    }
}

impl<T, T0, T1, T2, T3, T4, T5, T6, T7, T9, T10> TypedSwap<TupleIndex11, TupleIndex8, T>
    for (T0, T1, T2, T3, T4, T5, T6, T7, T, T9, T10, T)
{
    fn swap_positions(&mut self) {
        core::mem::swap(&mut self.11, &mut self.8);
    }

    proof fn lemma_pair(self, a: T, b: T) {
    }
}

impl<T, T0, T1, T2, T3, T4, T5, T6, T7, T8, T10> TypedSwap<TupleIndex11, TupleIndex9, T>
    for (T0, T1, T2, T3, T4, T5, T6, T7, T8, T, T10, T)
{
    fn swap_positions(&mut self) {
        core::mem::swap(&mut self.11, &mut self.9);
    }

    proof fn lemma_pair(self, a: T, b: T) {
    }
}

impl<T, T0, T1, T2, T3, T4, T5, T6, T7, T8, T9> TypedSwap<TupleIndex11, TupleIndex10, T>
    for (T0, T1, T2, T3, T4, T5, T6, T7, T8, T9, T, T)
{
    fn swap_positions(&mut self) {
        core::mem::swap(&mut self.11, &mut self.10);
    }

    proof fn lemma_pair(self, a: T, b: T) {
    }
}

} // verus!
