//! The length of a sequence.
//!
//! The empty sequence `()` and the tuples of one to `MAX_LENGTH` elements are
//! the sequences of this crate.

use vstd::prelude::*;

verus! {

/// Longest sequence for which the operations exist.
pub const MAX_LENGTH: usize = 12;

/// The length of a sequence type.
pub trait TupleLen: Sized {
    /// Number of elements of the sequence.
    spec fn spec_len() -> nat;

    /// No sequence is longer than `MAX_LENGTH`.
    proof fn lemma_len()
        ensures
            Self::spec_len() <= MAX_LENGTH,
    ;
}

impl TupleLen for () {
    open spec fn spec_len() -> nat {
        0
    }

    proof fn lemma_len() {
    }
}

impl<T0> TupleLen for (T0,) {
    open spec fn spec_len() -> nat {
        1
    }

    proof fn lemma_len() {
    }
}

impl<T0, T1> TupleLen for (T0, T1) {
    open spec fn spec_len() -> nat {
        2
    }

    proof fn lemma_len() {
    }
}

impl<T0, T1, T2> TupleLen for (T0, T1, T2) {
    open spec fn spec_len() -> nat {
        3
    }

    proof fn lemma_len() {
    }
}

impl<T0, T1, T2, T3> TupleLen for (T0, T1, T2, T3) {
    open spec fn spec_len() -> nat {
        4
    }

    proof fn lemma_len() {
    }
}

impl<T0, T1, T2, T3, T4> TupleLen for (T0, T1, T2, T3, T4) {
    open spec fn spec_len() -> nat {
        5
    }

    proof fn lemma_len() {
    }
}

impl<T0, T1, T2, T3, T4, T5> TupleLen for (T0, T1, T2, T3, T4, T5) {
    open spec fn spec_len() -> nat {
        6
    }

    proof fn lemma_len() {
    }
}

impl<T0, T1, T2, T3, T4, T5, T6> TupleLen for (T0, T1, T2, T3, T4, T5, T6) {
    open spec fn spec_len() -> nat {
        7
    }

    proof fn lemma_len() {
    }
}

impl<T0, T1, T2, T3, T4, T5, T6, T7> TupleLen for (T0, T1, T2, T3, T4, T5, T6, T7) {
    open spec fn spec_len() -> nat {
        8
    }

    proof fn lemma_len() {
    }
}

impl<T0, T1, T2, T3, T4, T5, T6, T7, T8> TupleLen for (T0, T1, T2, T3, T4, T5, T6, T7, T8) {
    open spec fn spec_len() -> nat {
        9
    }

    proof fn lemma_len() {
    }
}

impl<T0, T1, T2, T3, T4, T5, T6, T7, T8, T9> TupleLen for (T0, T1, T2, T3, T4, T5, T6, T7, T8, T9) {
    open spec fn spec_len() -> nat {
        10
    }

    proof fn lemma_len() {
    }
}

impl<T0, T1, T2, T3, T4, T5, T6, T7, T8, T9, T10> TupleLen
    for (T0, T1, T2, T3, T4, T5, T6, T7, T8, T9, T10)
{
    open spec fn spec_len() -> nat {
        11
    }

    proof fn lemma_len() {
    }
}

impl<T0, T1, T2, T3, T4, T5, T6, T7, T8, T9, T10, T11> TupleLen
    for (T0, T1, T2, T3, T4, T5, T6, T7, T8, T9, T10, T11)
{
    open spec fn spec_len() -> nat {
        12
    }

    proof fn lemma_len() {
    }
}

} // verus!
