//! Arithmetic operations for tuple indices.
//!
//! Sum and difference of two positions are positions again, named by the
//! `Output` of a trait. Each trait states, and each implementation proves,
//! which number the output stands for.

use vstd::prelude::*;
use crate::tuple_index::{Next, Position, TupleIndex, TupleIndex0, MAX_POSITIONS};

verus! {

/// Addition of two positions, defined when the sum is a position again.
pub trait TupleIndexAdd<Other: Position>: Position {
    /// The resulting tuple index type after addition.
    type Output: TupleIndex;

    /// The output stands for the sum.
    proof fn lemma_add()
        ensures
            Self::Output::spec_index() == Self::spec_index() + Other::spec_index(),
    ;
}

impl<B: TupleIndex> TupleIndexAdd<B> for TupleIndex0 {
    type Output = B;

    proof fn lemma_add() {
    }
}

impl<A, B> TupleIndexAdd<B> for Next<A> where
    A: TupleIndexAdd<B>,
    B: Position,
    Next<<A as TupleIndexAdd<B>>::Output>: TupleIndex,
 {
    type Output = Next<<A as TupleIndexAdd<B>>::Output>;

    proof fn lemma_add() {
        A::lemma_add();
    }
}

/// Subtraction of two positions, defined only when the left one is not
/// smaller than the right one.
pub trait TupleIndexSub<Other: Position>: Position {
    /// The resulting tuple index type after subtraction.
    type Output: TupleIndex;

    /// The right operand does not exceed the left one, and the output stands
    /// for the difference.
    proof fn lemma_sub()
        ensures
            Other::spec_index() <= Self::spec_index(),
            Self::Output::spec_index() == Self::spec_index() - Other::spec_index(),
    ;
}

impl<A: TupleIndex> TupleIndexSub<TupleIndex0> for A {
    type Output = A;

    proof fn lemma_sub() {
    }
}

impl<A, B> TupleIndexSub<Next<B>> for Next<A> where A: TupleIndexSub<B>, B: Position {
    type Output = <A as TupleIndexSub<B>>::Output;

    proof fn lemma_sub() {
        A::lemma_sub();
    }
}

/// Subtraction of two positions that stops at the first position instead of
/// going below it. Defined for every pair.
pub trait TupleIndexSaturatingSub<Other: Position>: Position {
    /// The resulting tuple index type after saturating subtraction.
    type Output: TupleIndex;

    /// The output stands for the difference where there is one, and for zero
    /// otherwise.
    proof fn lemma_saturating_sub()
        ensures
            Self::Output::spec_index() == spec_saturating_sub(
                Self::spec_index(),
                Other::spec_index(),
            ),
    ;
}

/// `a - b` clamped to zero.
pub open spec fn spec_saturating_sub(a: nat, b: nat) -> nat {
    if a >= b {
        (a - b) as nat
    } else {
        0
    }
}

impl<A: TupleIndex> TupleIndexSaturatingSub<TupleIndex0> for A {
    type Output = A;

    proof fn lemma_saturating_sub() {
    }
}

impl<B: Position> TupleIndexSaturatingSub<Next<B>> for TupleIndex0 {
    type Output = TupleIndex0;

    proof fn lemma_saturating_sub() {
    }
}

impl<A, B> TupleIndexSaturatingSub<Next<B>> for Next<A> where
    A: TupleIndexSaturatingSub<B>,
    B: Position,
 {
    type Output = <A as TupleIndexSaturatingSub<B>>::Output;

    proof fn lemma_saturating_sub() {
        A::lemma_saturating_sub();
    }
}

/// Adding the first position changes nothing: `p + 0 == p`.
pub proof fn lemma_add_zero<P: TupleIndexAdd<TupleIndex0>>()
    ensures
        <P as TupleIndexAdd<TupleIndex0>>::Output::spec_index() == P::spec_index(),
{
    P::lemma_add();
}

/// A sum of two positions is a position: `a + b < MAX_POSITIONS` wherever the
/// sum is defined.
pub proof fn lemma_add_in_range<A: TupleIndexAdd<B>, B: Position>()
    ensures
        A::spec_index() + B::spec_index() < MAX_POSITIONS,
{
    A::lemma_add();
    <A as TupleIndexAdd<B>>::Output::lemma_index();
}

/// Subtracting the first position changes nothing: `p - 0 == p`.
pub proof fn lemma_sub_zero<P: TupleIndexSub<TupleIndex0>>()
    ensures
        <P as TupleIndexSub<TupleIndex0>>::Output::spec_index() == P::spec_index(),
{
    P::lemma_sub();
}

/// A position minus itself is the first position: `p - p == 0`.
pub proof fn lemma_sub_self<P: TupleIndexSub<P>>()
    ensures
        <P as TupleIndexSub<P>>::Output::spec_index() == 0,
{
    P::lemma_sub();
}

/// Subtraction undoes addition: `(a + b) - b == a`.
pub proof fn lemma_add_then_sub<A, B>() where
    A: TupleIndexAdd<B>,
    B: Position,
    <A as TupleIndexAdd<B>>::Output: TupleIndexSub<B>,

    ensures
        <<A as TupleIndexAdd<B>>::Output as TupleIndexSub<B>>::Output::spec_index()
            == A::spec_index(),
{
    A::lemma_add();
    <<A as TupleIndexAdd<B>>::Output as TupleIndexSub<B>>::lemma_sub();
}

/// Saturating subtraction is total and clamps: for all positions `a` and `b`
/// the result is `a - b` when `a >= b`, and `0` otherwise.
pub proof fn lemma_saturating_sub_total<A: TupleIndexSaturatingSub<B>, B: Position>()
    ensures
        A::spec_index() >= B::spec_index() ==> <A as TupleIndexSaturatingSub<
            B,
        >>::Output::spec_index() == A::spec_index() - B::spec_index(),
        A::spec_index() < B::spec_index() ==> <A as TupleIndexSaturatingSub<
            B,
        >>::Output::spec_index() == 0,
{
    A::lemma_saturating_sub();
}

/// Where plain subtraction is defined, the saturating one agrees with it.
pub proof fn lemma_saturating_sub_agrees<A, B>() where
    A: TupleIndexSub<B> + TupleIndexSaturatingSub<B>,
    B: Position,

    ensures
        <A as TupleIndexSaturatingSub<B>>::Output::spec_index() == <A as TupleIndexSub<
            B,
        >>::Output::spec_index(),
{
    A::lemma_sub();
    A::lemma_saturating_sub();
}

} // verus!
