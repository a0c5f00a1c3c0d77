//! Positions.
//!
//! A position is a type, so that the position an operation works at is part
//! of its signature. The markers count up from `TupleIndex0`, each one the
//! `Next` of the one before it.

use vstd::prelude::*;

verus! {

/// Number of position markers: positions range over `0..MAX_POSITIONS`.
pub const MAX_POSITIONS: usize = 64;

/// Marker of the first position of a sequence.
pub struct TupleIndex0;

/// Marker of the position that follows `N`.
///
/// Every position is `TupleIndex0` wrapped in some number of `Next`, so two
/// markers are the same type exactly when they stand for the same number.
pub struct Next<N>(core::marker::PhantomData<N>);

pub type TupleIndex1 = Next<TupleIndex0>;

pub type TupleIndex2 = Next<TupleIndex1>;

pub type TupleIndex3 = Next<TupleIndex2>;

pub type TupleIndex4 = Next<TupleIndex3>;

pub type TupleIndex5 = Next<TupleIndex4>;

pub type TupleIndex6 = Next<TupleIndex5>;

pub type TupleIndex7 = Next<TupleIndex6>;

pub type TupleIndex8 = Next<TupleIndex7>;

pub type TupleIndex9 = Next<TupleIndex8>;

pub type TupleIndex10 = Next<TupleIndex9>;

pub type TupleIndex11 = Next<TupleIndex10>;

pub type TupleIndex12 = Next<TupleIndex11>;

pub type TupleIndex13 = Next<TupleIndex12>;

pub type TupleIndex14 = Next<TupleIndex13>;

pub type TupleIndex15 = Next<TupleIndex14>;

pub type TupleIndex16 = Next<TupleIndex15>;

pub type TupleIndex17 = Next<TupleIndex16>;

pub type TupleIndex18 = Next<TupleIndex17>;

pub type TupleIndex19 = Next<TupleIndex18>;

pub type TupleIndex20 = Next<TupleIndex19>;

pub type TupleIndex21 = Next<TupleIndex20>;

pub type TupleIndex22 = Next<TupleIndex21>;

pub type TupleIndex23 = Next<TupleIndex22>;

pub type TupleIndex24 = Next<TupleIndex23>;

pub type TupleIndex25 = Next<TupleIndex24>;

pub type TupleIndex26 = Next<TupleIndex25>;

pub type TupleIndex27 = Next<TupleIndex26>;

pub type TupleIndex28 = Next<TupleIndex27>;

pub type TupleIndex29 = Next<TupleIndex28>;

pub type TupleIndex30 = Next<TupleIndex29>;

pub type TupleIndex31 = Next<TupleIndex30>;

pub type TupleIndex32 = Next<TupleIndex31>;

pub type TupleIndex33 = Next<TupleIndex32>;

pub type TupleIndex34 = Next<TupleIndex33>;

pub type TupleIndex35 = Next<TupleIndex34>;

pub type TupleIndex36 = Next<TupleIndex35>;

pub type TupleIndex37 = Next<TupleIndex36>;

pub type TupleIndex38 = Next<TupleIndex37>;

pub type TupleIndex39 = Next<TupleIndex38>;

pub type TupleIndex40 = Next<TupleIndex39>;

pub type TupleIndex41 = Next<TupleIndex40>;

pub type TupleIndex42 = Next<TupleIndex41>;

pub type TupleIndex43 = Next<TupleIndex42>;

pub type TupleIndex44 = Next<TupleIndex43>;

pub type TupleIndex45 = Next<TupleIndex44>;

pub type TupleIndex46 = Next<TupleIndex45>;

pub type TupleIndex47 = Next<TupleIndex46>;

pub type TupleIndex48 = Next<TupleIndex47>;

pub type TupleIndex49 = Next<TupleIndex48>;

pub type TupleIndex50 = Next<TupleIndex49>;

pub type TupleIndex51 = Next<TupleIndex50>;

pub type TupleIndex52 = Next<TupleIndex51>;

pub type TupleIndex53 = Next<TupleIndex52>;

pub type TupleIndex54 = Next<TupleIndex53>;

pub type TupleIndex55 = Next<TupleIndex54>;

pub type TupleIndex56 = Next<TupleIndex55>;

pub type TupleIndex57 = Next<TupleIndex56>;

pub type TupleIndex58 = Next<TupleIndex57>;

pub type TupleIndex59 = Next<TupleIndex58>;

pub type TupleIndex60 = Next<TupleIndex59>;

pub type TupleIndex61 = Next<TupleIndex60>;

pub type TupleIndex62 = Next<TupleIndex61>;

pub type TupleIndex63 = Next<TupleIndex62>;

/// A type that stands for a natural number.
pub trait Position: Sized {
    /// The number this marker stands for.
    spec fn spec_index() -> nat;
}

impl Position for TupleIndex0 {
    open spec fn spec_index() -> nat {
        0
    }
}

impl<N: Position> Position for Next<N> {
    open spec fn spec_index() -> nat {
        N::spec_index() + 1
    }
}

/// A position below `MAX_POSITIONS`, with its value available at run time.
pub trait TupleIndex: Position {
    /// The associated index value.
    const INDEX: usize;

    /// `INDEX` is the number the marker stands for, and it is in range.
    proof fn lemma_index()
        ensures
            Self::INDEX == Self::spec_index(),
            Self::spec_index() < MAX_POSITIONS,
    ;
}

impl TupleIndex for TupleIndex0 {
    const INDEX: usize = 0;

    proof fn lemma_index() {
    }
}

impl TupleIndex for TupleIndex1 {
    const INDEX: usize = 1;

    proof fn lemma_index() {
    }
}

impl TupleIndex for TupleIndex2 {
    const INDEX: usize = 2;

    proof fn lemma_index() {
    }
}

impl TupleIndex for TupleIndex3 {
    const INDEX: usize = 3;

    proof fn lemma_index() {
    }
}

impl TupleIndex for TupleIndex4 {
    const INDEX: usize = 4;

    proof fn lemma_index() {
    }
}

impl TupleIndex for TupleIndex5 {
    const INDEX: usize = 5;

    proof fn lemma_index() {
    }
}

impl TupleIndex for TupleIndex6 {
    const INDEX: usize = 6;

    proof fn lemma_index() {
    }
}

impl TupleIndex for TupleIndex7 {
    const INDEX: usize = 7;

    proof fn lemma_index() {
    }
}

impl TupleIndex for TupleIndex8 {
    const INDEX: usize = 8;

    proof fn lemma_index() {
    }
}

impl TupleIndex for TupleIndex9 {
    const INDEX: usize = 9;

    proof fn lemma_index() {
    }
}

impl TupleIndex for TupleIndex10 {
    const INDEX: usize = 10;

    proof fn lemma_index() {
    }
}

impl TupleIndex for TupleIndex11 {
    const INDEX: usize = 11;

    proof fn lemma_index() {
    }
}

impl TupleIndex for TupleIndex12 {
    const INDEX: usize = 12;

    proof fn lemma_index() {
    }
}

impl TupleIndex for TupleIndex13 {
    const INDEX: usize = 13;

    proof fn lemma_index() {
    }
}

impl TupleIndex for TupleIndex14 {
    const INDEX: usize = 14;

    proof fn lemma_index() {
    }
}

impl TupleIndex for TupleIndex15 {
    const INDEX: usize = 15;

    proof fn lemma_index() {
    }
}

impl TupleIndex for TupleIndex16 {
    const INDEX: usize = 16;

    proof fn lemma_index() {
    }
}

impl TupleIndex for TupleIndex17 {
    const INDEX: usize = 17;

    proof fn lemma_index() {
    }
}

impl TupleIndex for TupleIndex18 {
    const INDEX: usize = 18;

    proof fn lemma_index() {
    }
}

impl TupleIndex for TupleIndex19 {
    const INDEX: usize = 19;

    proof fn lemma_index() {
    }
}

impl TupleIndex for TupleIndex20 {
    const INDEX: usize = 20;

    proof fn lemma_index() {
    }
}

impl TupleIndex for TupleIndex21 {
    const INDEX: usize = 21;

    proof fn lemma_index() {
    }
}

impl TupleIndex for TupleIndex22 {
    const INDEX: usize = 22;

    proof fn lemma_index() {
    }
}

impl TupleIndex for TupleIndex23 {
    const INDEX: usize = 23;

    proof fn lemma_index() {
    }
}

impl TupleIndex for TupleIndex24 {
    const INDEX: usize = 24;

    proof fn lemma_index() {
    }
}

impl TupleIndex for TupleIndex25 {
    const INDEX: usize = 25;

    proof fn lemma_index() {
    }
}

impl TupleIndex for TupleIndex26 {
    const INDEX: usize = 26;

    proof fn lemma_index() {
    }
}

impl TupleIndex for TupleIndex27 {
    const INDEX: usize = 27;

    proof fn lemma_index() {
    }
}

impl TupleIndex for TupleIndex28 {
    const INDEX: usize = 28;

    proof fn lemma_index() {
    }
}

impl TupleIndex for TupleIndex29 {
    const INDEX: usize = 29;

    proof fn lemma_index() {
    }
}

impl TupleIndex for TupleIndex30 {
    const INDEX: usize = 30;

    proof fn lemma_index() {
    }
}

impl TupleIndex for TupleIndex31 {
    const INDEX: usize = 31;

    proof fn lemma_index() {
    }
}

impl TupleIndex for TupleIndex32 {
    const INDEX: usize = 32;

    proof fn lemma_index() {
    }
}

impl TupleIndex for TupleIndex33 {
    const INDEX: usize = 33;

    proof fn lemma_index() {
    }
}

impl TupleIndex for TupleIndex34 {
    const INDEX: usize = 34;

    proof fn lemma_index() {
    }
}

impl TupleIndex for TupleIndex35 {
    const INDEX: usize = 35;

    proof fn lemma_index() {
    }
}

impl TupleIndex for TupleIndex36 {
    const INDEX: usize = 36;

    proof fn lemma_index() {
    }
}

impl TupleIndex for TupleIndex37 {
    const INDEX: usize = 37;

    proof fn lemma_index() {
    }
}

impl TupleIndex for TupleIndex38 {
    const INDEX: usize = 38;

    proof fn lemma_index() {
    }
}

impl TupleIndex for TupleIndex39 {
    const INDEX: usize = 39;

    proof fn lemma_index() {
    }
}

impl TupleIndex for TupleIndex40 {
    const INDEX: usize = 40;

    proof fn lemma_index() {
    }
}

impl TupleIndex for TupleIndex41 {
    const INDEX: usize = 41;

    proof fn lemma_index() {
    }
}

impl TupleIndex for TupleIndex42 {
    const INDEX: usize = 42;

    proof fn lemma_index() {
    }
}

impl TupleIndex for TupleIndex43 {
    const INDEX: usize = 43;

    proof fn lemma_index() {
    }
}

impl TupleIndex for TupleIndex44 {
    const INDEX: usize = 44;

    proof fn lemma_index() {
    }
}

impl TupleIndex for TupleIndex45 {
    const INDEX: usize = 45;

    proof fn lemma_index() {
    }
}

impl TupleIndex for TupleIndex46 {
    const INDEX: usize = 46;

    proof fn lemma_index() {
    }
}

impl TupleIndex for TupleIndex47 {
    const INDEX: usize = 47;

    proof fn lemma_index() {
    }
}

impl TupleIndex for TupleIndex48 {
    const INDEX: usize = 48;

    proof fn lemma_index() {
    }
}

impl TupleIndex for TupleIndex49 {
    const INDEX: usize = 49;

    proof fn lemma_index() {
    }
}

impl TupleIndex for TupleIndex50 {
    const INDEX: usize = 50;

    proof fn lemma_index() {
    }
}

impl TupleIndex for TupleIndex51 {
    const INDEX: usize = 51;

    proof fn lemma_index() {
    }
}

impl TupleIndex for TupleIndex52 {
    const INDEX: usize = 52;

    proof fn lemma_index() {
    }
}

impl TupleIndex for TupleIndex53 {
    const INDEX: usize = 53;

    proof fn lemma_index() {
    }
}

impl TupleIndex for TupleIndex54 {
    const INDEX: usize = 54;

    proof fn lemma_index() {
    }
}

impl TupleIndex for TupleIndex55 {
    const INDEX: usize = 55;

    proof fn lemma_index() {
    }
}

impl TupleIndex for TupleIndex56 {
    const INDEX: usize = 56;

    proof fn lemma_index() {
    }
}

impl TupleIndex for TupleIndex57 {
    const INDEX: usize = 57;

    proof fn lemma_index() {
    }
}

impl TupleIndex for TupleIndex58 {
    const INDEX: usize = 58;

    proof fn lemma_index() {
    }
}

impl TupleIndex for TupleIndex59 {
    const INDEX: usize = 59;

    proof fn lemma_index() {
    }
}

impl TupleIndex for TupleIndex60 {
    const INDEX: usize = 60;

    proof fn lemma_index() {
    }
}

impl TupleIndex for TupleIndex61 {
    const INDEX: usize = 61;

    proof fn lemma_index() {
    }
}

impl TupleIndex for TupleIndex62 {
    const INDEX: usize = 62;

    proof fn lemma_index() {
    }
}

impl TupleIndex for TupleIndex63 {
    const INDEX: usize = 63;

    proof fn lemma_index() {
    }
}

/// Two markers with the same number read the same value at run time.
pub proof fn lemma_index_determined<A: TupleIndex, B: TupleIndex>()
    requires
        A::spec_index() == B::spec_index(),
    ensures
        A::INDEX == B::INDEX,
{
    A::lemma_index();
    B::lemma_index();
}

} // verus!
