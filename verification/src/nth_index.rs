//! Lookup: from a sequence and a position to the type of the element there.

use vstd::prelude::*;
use crate::tuple_index::{
    Position, TupleIndex, TupleIndex0, TupleIndex1, TupleIndex2, TupleIndex3, TupleIndex4,
    TupleIndex5, TupleIndex6, TupleIndex7, TupleIndex8, TupleIndex9, TupleIndex10, TupleIndex11,
};
use crate::tuple_len::TupleLen;

verus! {

/// Names the type of the element at position `Idx` of a sequence.
///
/// It exists exactly for the positions below the length of the sequence.
pub trait NthIndex<Idx: TupleIndex>: TupleLen {
    /// The type of the element at index `Idx` in the tuple.
    type NthType;

    /// The position lies inside the sequence.
    proof fn lemma_nth_in_range()
        ensures
            Idx::spec_index() < Self::spec_len(),
    ;
}

impl<T0> NthIndex<TupleIndex0> for (T0,) {
    type NthType = T0;

    proof fn lemma_nth_in_range() {
    }
}

impl<T0, T1> NthIndex<TupleIndex0> for (T0, T1) {
    type NthType = T0;

    proof fn lemma_nth_in_range() {
    }
}

impl<T0, T1> NthIndex<TupleIndex1> for (T0, T1) {
    type NthType = T1;

    proof fn lemma_nth_in_range() {
    }
}

impl<T0, T1, T2> NthIndex<TupleIndex0> for (T0, T1, T2) {
    type NthType = T0;

    proof fn lemma_nth_in_range() {
    }
}

impl<T0, T1, T2> NthIndex<TupleIndex1> for (T0, T1, T2) {
    type NthType = T1;

    proof fn lemma_nth_in_range() {
    }
}

impl<T0, T1, T2> NthIndex<TupleIndex2> for (T0, T1, T2) {
    type NthType = T2;

    proof fn lemma_nth_in_range() {
    }
}

impl<T0, T1, T2, T3> NthIndex<TupleIndex0> for (T0, T1, T2, T3) {
    type NthType = T0;

    proof fn lemma_nth_in_range() {
    }
}

impl<T0, T1, T2, T3> NthIndex<TupleIndex1> for (T0, T1, T2, T3) {
    type NthType = T1;

    proof fn lemma_nth_in_range() {
    }
}

impl<T0, T1, T2, T3> NthIndex<TupleIndex2> for (T0, T1, T2, T3) {
    type NthType = T2;

    proof fn lemma_nth_in_range() {
    }
}

impl<T0, T1, T2, T3> NthIndex<TupleIndex3> for (T0, T1, T2, T3) {
    type NthType = T3;

    proof fn lemma_nth_in_range() {
    }
}

impl<T0, T1, T2, T3, T4> NthIndex<TupleIndex0> for (T0, T1, T2, T3, T4) {
    type NthType = T0;

    proof fn lemma_nth_in_range() {
    }
}

impl<T0, T1, T2, T3, T4> NthIndex<TupleIndex1> for (T0, T1, T2, T3, T4) {
    type NthType = T1;

    proof fn lemma_nth_in_range() {
    }
}

impl<T0, T1, T2, T3, T4> NthIndex<TupleIndex2> for (T0, T1, T2, T3, T4) {
    type NthType = T2;

    proof fn lemma_nth_in_range() {
    }
}

impl<T0, T1, T2, T3, T4> NthIndex<TupleIndex3> for (T0, T1, T2, T3, T4) {
    type NthType = T3;

    proof fn lemma_nth_in_range() {
    }
}

impl<T0, T1, T2, T3, T4> NthIndex<TupleIndex4> for (T0, T1, T2, T3, T4) {
    type NthType = T4;

    proof fn lemma_nth_in_range() {
    }
}

impl<T0, T1, T2, T3, T4, T5> NthIndex<TupleIndex0> for (T0, T1, T2, T3, T4, T5) {
    type NthType = T0;

    proof fn lemma_nth_in_range() {
    }
}

impl<T0, T1, T2, T3, T4, T5> NthIndex<TupleIndex1> for (T0, T1, T2, T3, T4, T5) {
    type NthType = T1;

    proof fn lemma_nth_in_range() {
    }
}

impl<T0, T1, T2, T3, T4, T5> NthIndex<TupleIndex2> for (T0, T1, T2, T3, T4, T5) {
    type NthType = T2;

    proof fn lemma_nth_in_range() {
    }
}

impl<T0, T1, T2, T3, T4, T5> NthIndex<TupleIndex3> for (T0, T1, T2, T3, T4, T5) {
    type NthType = T3;

    proof fn lemma_nth_in_range() {
    }
}

impl<T0, T1, T2, T3, T4, T5> NthIndex<TupleIndex4> for (T0, T1, T2, T3, T4, T5) {
    type NthType = T4;

    proof fn lemma_nth_in_range() {
    }
}

impl<T0, T1, T2, T3, T4, T5> NthIndex<TupleIndex5> for (T0, T1, T2, T3, T4, T5) {
    type NthType = T5;

    proof fn lemma_nth_in_range() {
    }
}

impl<T0, T1, T2, T3, T4, T5, T6> NthIndex<TupleIndex0> for (T0, T1, T2, T3, T4, T5, T6) {
    type NthType = T0;

    proof fn lemma_nth_in_range() {
    }
}

impl<T0, T1, T2, T3, T4, T5, T6> NthIndex<TupleIndex1> for (T0, T1, T2, T3, T4, T5, T6) {
    type NthType = T1;

    proof fn lemma_nth_in_range() {
    }
}

impl<T0, T1, T2, T3, T4, T5, T6> NthIndex<TupleIndex2> for (T0, T1, T2, T3, T4, T5, T6) {
    type NthType = T2;

    proof fn lemma_nth_in_range() {
    }
}

impl<T0, T1, T2, T3, T4, T5, T6> NthIndex<TupleIndex3> for (T0, T1, T2, T3, T4, T5, T6) {
    type NthType = T3;

    proof fn lemma_nth_in_range() {
    }
}

impl<T0, T1, T2, T3, T4, T5, T6> NthIndex<TupleIndex4> for (T0, T1, T2, T3, T4, T5, T6) {
    type NthType = T4;

    proof fn lemma_nth_in_range() {
    }
}

impl<T0, T1, T2, T3, T4, T5, T6> NthIndex<TupleIndex5> for (T0, T1, T2, T3, T4, T5, T6) {
    type NthType = T5;

    proof fn lemma_nth_in_range() {
    }
}

impl<T0, T1, T2, T3, T4, T5, T6> NthIndex<TupleIndex6> for (T0, T1, T2, T3, T4, T5, T6) {
    type NthType = T6;

    proof fn lemma_nth_in_range() {
    }
}

impl<T0, T1, T2, T3, T4, T5, T6, T7> NthIndex<TupleIndex0> for (T0, T1, T2, T3, T4, T5, T6, T7) {
    type NthType = T0;

    proof fn lemma_nth_in_range() {
    }
}

impl<T0, T1, T2, T3, T4, T5, T6, T7> NthIndex<TupleIndex1> for (T0, T1, T2, T3, T4, T5, T6, T7) {
    type NthType = T1;

    proof fn lemma_nth_in_range() {
    }
}

impl<T0, T1, T2, T3, T4, T5, T6, T7> NthIndex<TupleIndex2> for (T0, T1, T2, T3, T4, T5, T6, T7) {
    type NthType = T2;

    proof fn lemma_nth_in_range() {
    }
}

impl<T0, T1, T2, T3, T4, T5, T6, T7> NthIndex<TupleIndex3> for (T0, T1, T2, T3, T4, T5, T6, T7) {
    type NthType = T3;

    proof fn lemma_nth_in_range() {
    }
}

impl<T0, T1, T2, T3, T4, T5, T6, T7> NthIndex<TupleIndex4> for (T0, T1, T2, T3, T4, T5, T6, T7) {
    type NthType = T4;

    proof fn lemma_nth_in_range() {
    }
}

impl<T0, T1, T2, T3, T4, T5, T6, T7> NthIndex<TupleIndex5> for (T0, T1, T2, T3, T4, T5, T6, T7) {
    type NthType = T5;

    proof fn lemma_nth_in_range() {
    }
}

impl<T0, T1, T2, T3, T4, T5, T6, T7> NthIndex<TupleIndex6> for (T0, T1, T2, T3, T4, T5, T6, T7) {
    type NthType = T6;

    proof fn lemma_nth_in_range() {
    }
}

impl<T0, T1, T2, T3, T4, T5, T6, T7> NthIndex<TupleIndex7> for (T0, T1, T2, T3, T4, T5, T6, T7) {
    type NthType = T7;

    proof fn lemma_nth_in_range() {
    }
}

impl<T0, T1, T2, T3, T4, T5, T6, T7, T8> NthIndex<TupleIndex0>
    for (T0, T1, T2, T3, T4, T5, T6, T7, T8)
{
    type NthType = T0;

    proof fn lemma_nth_in_range() {
    }
}

impl<T0, T1, T2, T3, T4, T5, T6, T7, T8> NthIndex<TupleIndex1>
    for (T0, T1, T2, T3, T4, T5, T6, T7, T8)
{
    type NthType = T1;

    proof fn lemma_nth_in_range() {
    }
}

impl<T0, T1, T2, T3, T4, T5, T6, T7, T8> NthIndex<TupleIndex2>
    for (T0, T1, T2, T3, T4, T5, T6, T7, T8)
{
    type NthType = T2;

    proof fn lemma_nth_in_range() {
    }
}

impl<T0, T1, T2, T3, T4, T5, T6, T7, T8> NthIndex<TupleIndex3>
    for (T0, T1, T2, T3, T4, T5, T6, T7, T8)
{
    type NthType = T3;

    proof fn lemma_nth_in_range() {
    }
}

impl<T0, T1, T2, T3, T4, T5, T6, T7, T8> NthIndex<TupleIndex4>
    for (T0, T1, T2, T3, T4, T5, T6, T7, T8)
{
    type NthType = T4;

    proof fn lemma_nth_in_range() {
    }
}

impl<T0, T1, T2, T3, T4, T5, T6, T7, T8> NthIndex<TupleIndex5>
    for (T0, T1, T2, T3, T4, T5, T6, T7, T8)
{
    type NthType = T5;

    proof fn lemma_nth_in_range() {
    }
}

impl<T0, T1, T2, T3, T4, T5, T6, T7, T8> NthIndex<TupleIndex6>
    for (T0, T1, T2, T3, T4, T5, T6, T7, T8)
{
    type NthType = T6;

    proof fn lemma_nth_in_range() {
    }
}

impl<T0, T1, T2, T3, T4, T5, T6, T7, T8> NthIndex<TupleIndex7>
    for (T0, T1, T2, T3, T4, T5, T6, T7, T8)
{
    type NthType = T7;

    proof fn lemma_nth_in_range() {
    }
}

impl<T0, T1, T2, T3, T4, T5, T6, T7, T8> NthIndex<TupleIndex8>
    for (T0, T1, T2, T3, T4, T5, T6, T7, T8)
{
    type NthType = T8;

    proof fn lemma_nth_in_range() {
    }
}

impl<T0, T1, T2, T3, T4, T5, T6, T7, T8, T9> NthIndex<TupleIndex0>
    for (T0, T1, T2, T3, T4, T5, T6, T7, T8, T9)
{
    type NthType = T0;

    proof fn lemma_nth_in_range() {
    }
}

impl<T0, T1, T2, T3, T4, T5, T6, T7, T8, T9> NthIndex<TupleIndex1>
    for (T0, T1, T2, T3, T4, T5, T6, T7, T8, T9)
{
    type NthType = T1;

    proof fn lemma_nth_in_range() {
    }
}

impl<T0, T1, T2, T3, T4, T5, T6, T7, T8, T9> NthIndex<TupleIndex2>
    for (T0, T1, T2, T3, T4, T5, T6, T7, T8, T9)
{
    type NthType = T2;

    proof fn lemma_nth_in_range() {
    }
}

impl<T0, T1, T2, T3, T4, T5, T6, T7, T8, T9> NthIndex<TupleIndex3>
    for (T0, T1, T2, T3, T4, T5, T6, T7, T8, T9)
{
    type NthType = T3;

    proof fn lemma_nth_in_range() {
    }
}

impl<T0, T1, T2, T3, T4, T5, T6, T7, T8, T9> NthIndex<TupleIndex4>
    for (T0, T1, T2, T3, T4, T5, T6, T7, T8, T9)
{
    type NthType = T4;

    proof fn lemma_nth_in_range() {
    }
}

impl<T0, T1, T2, T3, T4, T5, T6, T7, T8, T9> NthIndex<TupleIndex5>
    for (T0, T1, T2, T3, T4, T5, T6, T7, T8, T9)
{
    type NthType = T5;

    proof fn lemma_nth_in_range() {
    }
}

impl<T0, T1, T2, T3, T4, T5, T6, T7, T8, T9> NthIndex<TupleIndex6>
    for (T0, T1, T2, T3, T4, T5, T6, T7, T8, T9)
{
    type NthType = T6;

    proof fn lemma_nth_in_range() {
    }
}

impl<T0, T1, T2, T3, T4, T5, T6, T7, T8, T9> NthIndex<TupleIndex7>
    for (T0, T1, T2, T3, T4, T5, T6, T7, T8, T9)
{
    type NthType = T7;

    proof fn lemma_nth_in_range() {
    }
}

impl<T0, T1, T2, T3, T4, T5, T6, T7, T8, T9> NthIndex<TupleIndex8>
    for (T0, T1, T2, T3, T4, T5, T6, T7, T8, T9)
{
    type NthType = T8;

    proof fn lemma_nth_in_range() {
    }
}

impl<T0, T1, T2, T3, T4, T5, T6, T7, T8, T9> NthIndex<TupleIndex9>
    for (T0, T1, T2, T3, T4, T5, T6, T7, T8, T9)
{
    type NthType = T9;

    proof fn lemma_nth_in_range() {
    }
}

impl<T0, T1, T2, T3, T4, T5, T6, T7, T8, T9, T10> NthIndex<TupleIndex0>
    for (T0, T1, T2, T3, T4, T5, T6, T7, T8, T9, T10)
{
    type NthType = T0;

    proof fn lemma_nth_in_range() {
    }
}

impl<T0, T1, T2, T3, T4, T5, T6, T7, T8, T9, T10> NthIndex<TupleIndex1>
    for (T0, T1, T2, T3, T4, T5, T6, T7, T8, T9, T10)
{
    type NthType = T1;

    proof fn lemma_nth_in_range() {
    }
}

impl<T0, T1, T2, T3, T4, T5, T6, T7, T8, T9, T10> NthIndex<TupleIndex2>
    for (T0, T1, T2, T3, T4, T5, T6, T7, T8, T9, T10)
{
    type NthType = T2;

    proof fn lemma_nth_in_range() {
    }
}

impl<T0, T1, T2, T3, T4, T5, T6, T7, T8, T9, T10> NthIndex<TupleIndex3>
    for (T0, T1, T2, T3, T4, T5, T6, T7, T8, T9, T10)
{
    type NthType = T3;

    proof fn lemma_nth_in_range() {
    }
}

impl<T0, T1, T2, T3, T4, T5, T6, T7, T8, T9, T10> NthIndex<TupleIndex4>
    for (T0, T1, T2, T3, T4, T5, T6, T7, T8, T9, T10)
{
    type NthType = T4;

    proof fn lemma_nth_in_range() {
    }
}

impl<T0, T1, T2, T3, T4, T5, T6, T7, T8, T9, T10> NthIndex<TupleIndex5>
    for (T0, T1, T2, T3, T4, T5, T6, T7, T8, T9, T10)
{
    type NthType = T5;

    proof fn lemma_nth_in_range() {
    }
}

impl<T0, T1, T2, T3, T4, T5, T6, T7, T8, T9, T10> NthIndex<TupleIndex6>
    for (T0, T1, T2, T3, T4, T5, T6, T7, T8, T9, T10)
{
    type NthType = T6;

    proof fn lemma_nth_in_range() {
    }
}

impl<T0, T1, T2, T3, T4, T5, T6, T7, T8, T9, T10> NthIndex<TupleIndex7>
    for (T0, T1, T2, T3, T4, T5, T6, T7, T8, T9, T10)
{
    type NthType = T7;

    proof fn lemma_nth_in_range() {
    }
}

impl<T0, T1, T2, T3, T4, T5, T6, T7, T8, T9, T10> NthIndex<TupleIndex8>
    for (T0, T1, T2, T3, T4, T5, T6, T7, T8, T9, T10)
{
    type NthType = T8;

    proof fn lemma_nth_in_range() {
    }
}

impl<T0, T1, T2, T3, T4, T5, T6, T7, T8, T9, T10> NthIndex<TupleIndex9>
    for (T0, T1, T2, T3, T4, T5, T6, T7, T8, T9, T10)
{
    type NthType = T9;

    proof fn lemma_nth_in_range() {
    }
}

impl<T0, T1, T2, T3, T4, T5, T6, T7, T8, T9, T10> NthIndex<TupleIndex10>
    for (T0, T1, T2, T3, T4, T5, T6, T7, T8, T9, T10)
{
    type NthType = T10;

    proof fn lemma_nth_in_range() {
    }
}

impl<T0, T1, T2, T3, T4, T5, T6, T7, T8, T9, T10, T11> NthIndex<TupleIndex0>
    for (T0, T1, T2, T3, T4, T5, T6, T7, T8, T9, T10, T11)
{
    type NthType = T0;

    proof fn lemma_nth_in_range() {
    }
}

impl<T0, T1, T2, T3, T4, T5, T6, T7, T8, T9, T10, T11> NthIndex<TupleIndex1>
    for (T0, T1, T2, T3, T4, T5, T6, T7, T8, T9, T10, T11)
{
    type NthType = T1;

    proof fn lemma_nth_in_range() {
    }
}

impl<T0, T1, T2, T3, T4, T5, T6, T7, T8, T9, T10, T11> NthIndex<TupleIndex2>
    for (T0, T1, T2, T3, T4, T5, T6, T7, T8, T9, T10, T11)
{
    type NthType = T2;

    proof fn lemma_nth_in_range() {
    }
}

impl<T0, T1, T2, T3, T4, T5, T6, T7, T8, T9, T10, T11> NthIndex<TupleIndex3>
    for (T0, T1, T2, T3, T4, T5, T6, T7, T8, T9, T10, T11)
{
    type NthType = T3;

    proof fn lemma_nth_in_range() {
    }
}

impl<T0, T1, T2, T3, T4, T5, T6, T7, T8, T9, T10, T11> NthIndex<TupleIndex4>
    for (T0, T1, T2, T3, T4, T5, T6, T7, T8, T9, T10, T11)
{
    type NthType = T4;

    proof fn lemma_nth_in_range() {
    }
}

impl<T0, T1, T2, T3, T4, T5, T6, T7, T8, T9, T10, T11> NthIndex<TupleIndex5>
    for (T0, T1, T2, T3, T4, T5, T6, T7, T8, T9, T10, T11)
{
    type NthType = T5;

    proof fn lemma_nth_in_range() {
    }
}

impl<T0, T1, T2, T3, T4, T5, T6, T7, T8, T9, T10, T11> NthIndex<TupleIndex6>
    for (T0, T1, T2, T3, T4, T5, T6, T7, T8, T9, T10, T11)
{
    type NthType = T6;

    proof fn lemma_nth_in_range() {
    }
}

impl<T0, T1, T2, T3, T4, T5, T6, T7, T8, T9, T10, T11> NthIndex<TupleIndex7>
    for (T0, T1, T2, T3, T4, T5, T6, T7, T8, T9, T10, T11)
{
    type NthType = T7;

    proof fn lemma_nth_in_range() {
    }
}

impl<T0, T1, T2, T3, T4, T5, T6, T7, T8, T9, T10, T11> NthIndex<TupleIndex8>
    for (T0, T1, T2, T3, T4, T5, T6, T7, T8, T9, T10, T11)
{
    type NthType = T8;

    proof fn lemma_nth_in_range() {
    }
}

impl<T0, T1, T2, T3, T4, T5, T6, T7, T8, T9, T10, T11> NthIndex<TupleIndex9>
    for (T0, T1, T2, T3, T4, T5, T6, T7, T8, T9, T10, T11)
{
    type NthType = T9;

    proof fn lemma_nth_in_range() {
    }
}

impl<T0, T1, T2, T3, T4, T5, T6, T7, T8, T9, T10, T11> NthIndex<TupleIndex10>
    for (T0, T1, T2, T3, T4, T5, T6, T7, T8, T9, T10, T11)
{
    type NthType = T10;

    proof fn lemma_nth_in_range() {
    }
}

impl<T0, T1, T2, T3, T4, T5, T6, T7, T8, T9, T10, T11> NthIndex<TupleIndex11>
    for (T0, T1, T2, T3, T4, T5, T6, T7, T8, T9, T10, T11)
{
    type NthType = T11;

    proof fn lemma_nth_in_range() {
    }
}

} // verus!
