//! Lookup of the last position of a sequence.

use vstd::prelude::*;
use crate::nth_index::NthIndex;
use crate::tuple_index::{
    Position, TupleIndex, TupleIndex0, TupleIndex1, TupleIndex2, TupleIndex3, TupleIndex4,
    TupleIndex5, TupleIndex6, TupleIndex7, TupleIndex8, TupleIndex9, TupleIndex10, TupleIndex11,
};
use crate::tuple_len::TupleLen;
use crate::typed_until_as::Countdown;

verus! {

/// Names the last position of a sequence.
pub trait LastIndex: NthIndex<Self::Last> {
    /// The index marker type for the last element of this tuple.
    type Last: Countdown;

    /// The last position is the length of the sequence less one.
    proof fn lemma_last()
        ensures
            Self::Last::spec_index() + 1 == Self::spec_len(),
    ;
}

impl<T0> LastIndex for (T0,) {
    type Last = TupleIndex0;

    proof fn lemma_last() {
    }
}

impl<T0, T1> LastIndex for (T0, T1) {
    type Last = TupleIndex1;

    proof fn lemma_last() {
    }
}

impl<T0, T1, T2> LastIndex for (T0, T1, T2) {
    type Last = TupleIndex2;

    proof fn lemma_last() {
    }
}

impl<T0, T1, T2, T3> LastIndex for (T0, T1, T2, T3) {
    type Last = TupleIndex3;

    proof fn lemma_last() {
    }
}

impl<T0, T1, T2, T3, T4> LastIndex for (T0, T1, T2, T3, T4) {
    type Last = TupleIndex4;

    proof fn lemma_last() {
    }
}

impl<T0, T1, T2, T3, T4, T5> LastIndex for (T0, T1, T2, T3, T4, T5) {
    type Last = TupleIndex5;

    proof fn lemma_last() {
    }
}

impl<T0, T1, T2, T3, T4, T5, T6> LastIndex for (T0, T1, T2, T3, T4, T5, T6) {
    type Last = TupleIndex6;

    proof fn lemma_last() {
    }
}

impl<T0, T1, T2, T3, T4, T5, T6, T7> LastIndex for (T0, T1, T2, T3, T4, T5, T6, T7) {
    type Last = TupleIndex7;

    proof fn lemma_last() {
    }
}

impl<T0, T1, T2, T3, T4, T5, T6, T7, T8> LastIndex for (T0, T1, T2, T3, T4, T5, T6, T7, T8) {
    type Last = TupleIndex8;

    proof fn lemma_last() {
    }
}

impl<T0, T1, T2, T3, T4, T5, T6, T7, T8, T9> LastIndex
    for (T0, T1, T2, T3, T4, T5, T6, T7, T8, T9)
{
    type Last = TupleIndex9;

    proof fn lemma_last() {
    }
}

impl<T0, T1, T2, T3, T4, T5, T6, T7, T8, T9, T10> LastIndex
    for (T0, T1, T2, T3, T4, T5, T6, T7, T8, T9, T10)
{
    type Last = TupleIndex10;

    proof fn lemma_last() {
    }
}

impl<T0, T1, T2, T3, T4, T5, T6, T7, T8, T9, T10, T11> LastIndex
    for (T0, T1, T2, T3, T4, T5, T6, T7, T8, T9, T10, T11)
{
    type Last = TupleIndex11;

    proof fn lemma_last() {
    }
}

} // verus!
