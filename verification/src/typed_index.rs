//! Access to one element of a sequence, by shared or by exclusive reference.

use vstd::prelude::*;
use crate::tuple_index::{
    Position, TupleIndex, TupleIndex0, TupleIndex1, TupleIndex2, TupleIndex3, TupleIndex4,
    TupleIndex5, TupleIndex6, TupleIndex7, TupleIndex8, TupleIndex9, TupleIndex10, TupleIndex11,
};
use crate::tuple_len::TupleLen;

verus! {

/// Access to the element at position `Idx` of a sequence; `T` is its type.
///
/// `spec_at` reads the element and `spec_put` writes it. Together they behave
/// as one independent slot of the sequence, which `lemma_put` states.
pub trait TypedIndex<Idx: TupleIndex, T>: TupleLen {
    /// The element at position `Idx`.
    spec fn spec_at(&self) -> T;

    /// The sequence that holds `value` at position `Idx` and agrees with
    /// `self` everywhere else.
    spec fn spec_put(self, value: T) -> Self;

    /// Get a reference to the element of type `T`.
    fn get_at(&self) -> (r: &T)
        ensures
            *r == self.spec_at(),
    ;

    /// Get a mutable reference to the element of type `T`.
    ///
    /// When the borrow ends the sequence holds at `Idx` whatever was last
    /// written through the reference, and is otherwise as before.
    fn get_mut_at(&mut self) -> (r: &mut T)
        ensures
            *r == old(self).spec_at(),
            *final(self) == old(self).spec_put(*final(r)),
    ;

    /// The position lies inside the sequence.
    proof fn lemma_in_range()
        ensures
            Idx::spec_index() < Self::spec_len(),
    ;

    /// What is put at the position is found there, putting back what was
    /// there changes nothing, and of two puts the second one wins.
    proof fn lemma_put(self, a: T, b: T)
        ensures
            self.spec_put(a).spec_at() == a,
            self.spec_put(self.spec_at()) == self,
            self.spec_put(a).spec_put(b) == self.spec_put(b),
    ;
}

impl<T0> TypedIndex<TupleIndex0, T0> for (T0,) {
    open spec fn spec_at(&self) -> T0 {
        self.0
    }

    open spec fn spec_put(self, value: T0) -> Self {
        (value,)
    }

    fn get_at(&self) -> (r: &T0) {
        &self.0
    }

    fn get_mut_at(&mut self) -> (r: &mut T0) {
        &mut self.0
    }

    proof fn lemma_in_range() {
    }

    proof fn lemma_put(self, a: T0, b: T0) {
    }
}

impl<T0, T1> TypedIndex<TupleIndex0, T0> for (T0, T1) {
    open spec fn spec_at(&self) -> T0 {
        self.0
    }

    open spec fn spec_put(self, value: T0) -> Self {
        (value, self.1)
    }

    fn get_at(&self) -> (r: &T0) {
        &self.0
    }

    fn get_mut_at(&mut self) -> (r: &mut T0) {
        &mut self.0
    }

    proof fn lemma_in_range() {
    }

    proof fn lemma_put(self, a: T0, b: T0) {
    }
}

impl<T0, T1> TypedIndex<TupleIndex1, T1> for (T0, T1) {
    open spec fn spec_at(&self) -> T1 {
        self.1
    }

    open spec fn spec_put(self, value: T1) -> Self {
        (self.0, value)
    }

    fn get_at(&self) -> (r: &T1) {
        &self.1
    }

    fn get_mut_at(&mut self) -> (r: &mut T1) {
        &mut self.1
    }

    proof fn lemma_in_range() {
    }

    proof fn lemma_put(self, a: T1, b: T1) {
    }
}

impl<T0, T1, T2> TypedIndex<TupleIndex0, T0> for (T0, T1, T2) {
    open spec fn spec_at(&self) -> T0 {
        self.0
    }

    open spec fn spec_put(self, value: T0) -> Self {
        (value, self.1, self.2)
    }

    fn get_at(&self) -> (r: &T0) {
        &self.0
    }

    fn get_mut_at(&mut self) -> (r: &mut T0) {
        &mut self.0
    }

    proof fn lemma_in_range() {
    }

    proof fn lemma_put(self, a: T0, b: T0) {
    }
}

impl<T0, T1, T2> TypedIndex<TupleIndex1, T1> for (T0, T1, T2) {
    open spec fn spec_at(&self) -> T1 {
        self.1
    }

    open spec fn spec_put(self, value: T1) -> Self {
        (self.0, value, self.2)
    }

    fn get_at(&self) -> (r: &T1) {
        &self.1
    }

    fn get_mut_at(&mut self) -> (r: &mut T1) {
        &mut self.1
    }

    proof fn lemma_in_range() {
    }

    proof fn lemma_put(self, a: T1, b: T1) {
    }
}

impl<T0, T1, T2> TypedIndex<TupleIndex2, T2> for (T0, T1, T2) {
    open spec fn spec_at(&self) -> T2 {
        self.2
    }

    open spec fn spec_put(self, value: T2) -> Self {
        (self.0, self.1, value)
    }

    fn get_at(&self) -> (r: &T2) {
        &self.2
    }

    fn get_mut_at(&mut self) -> (r: &mut T2) {
        &mut self.2
    }

    proof fn lemma_in_range() {
    }

    proof fn lemma_put(self, a: T2, b: T2) {
    }
}

impl<T0, T1, T2, T3> TypedIndex<TupleIndex0, T0> for (T0, T1, T2, T3) {
    open spec fn spec_at(&self) -> T0 {
        self.0
    }

    open spec fn spec_put(self, value: T0) -> Self {
        (value, self.1, self.2, self.3)
    }

    fn get_at(&self) -> (r: &T0) {
        &self.0
    }

    fn get_mut_at(&mut self) -> (r: &mut T0) {
        &mut self.0
    }

    proof fn lemma_in_range() {
    }

    proof fn lemma_put(self, a: T0, b: T0) {
    }
}

impl<T0, T1, T2, T3> TypedIndex<TupleIndex1, T1> for (T0, T1, T2, T3) {
    open spec fn spec_at(&self) -> T1 {
        self.1
    }

    open spec fn spec_put(self, value: T1) -> Self {
        (self.0, value, self.2, self.3)
    }

    fn get_at(&self) -> (r: &T1) {
        &self.1
    }

    fn get_mut_at(&mut self) -> (r: &mut T1) {
        &mut self.1
    }

    proof fn lemma_in_range() {
    }

    proof fn lemma_put(self, a: T1, b: T1) {
    }
}

impl<T0, T1, T2, T3> TypedIndex<TupleIndex2, T2> for (T0, T1, T2, T3) {
    open spec fn spec_at(&self) -> T2 {
        self.2
    }

    open spec fn spec_put(self, value: T2) -> Self {
        (self.0, self.1, value, self.3)
    }

    fn get_at(&self) -> (r: &T2) {
        &self.2
    }

    fn get_mut_at(&mut self) -> (r: &mut T2) {
        &mut self.2
    }

    proof fn lemma_in_range() {
    }

    proof fn lemma_put(self, a: T2, b: T2) {
    }
}

impl<T0, T1, T2, T3> TypedIndex<TupleIndex3, T3> for (T0, T1, T2, T3) {
    open spec fn spec_at(&self) -> T3 {
        self.3
    }

    open spec fn spec_put(self, value: T3) -> Self {
        (self.0, self.1, self.2, value)
    }

    fn get_at(&self) -> (r: &T3) {
        &self.3
    }

    fn get_mut_at(&mut self) -> (r: &mut T3) {
        &mut self.3
    }

    proof fn lemma_in_range() {
    }

    proof fn lemma_put(self, a: T3, b: T3) {
    }
}

impl<T0, T1, T2, T3, T4> TypedIndex<TupleIndex0, T0> for (T0, T1, T2, T3, T4) {
    open spec fn spec_at(&self) -> T0 {
        self.0
    }

    open spec fn spec_put(self, value: T0) -> Self {
        (value, self.1, self.2, self.3, self.4)
    }

    fn get_at(&self) -> (r: &T0) {
        &self.0
    }

    fn get_mut_at(&mut self) -> (r: &mut T0) {
        &mut self.0
    }

    proof fn lemma_in_range() {
    }

    proof fn lemma_put(self, a: T0, b: T0) {
    }
}

impl<T0, T1, T2, T3, T4> TypedIndex<TupleIndex1, T1> for (T0, T1, T2, T3, T4) {
    open spec fn spec_at(&self) -> T1 {
        self.1
    }

    open spec fn spec_put(self, value: T1) -> Self {
        (self.0, value, self.2, self.3, self.4)
    }

    fn get_at(&self) -> (r: &T1) {
        &self.1
    }

    fn get_mut_at(&mut self) -> (r: &mut T1) {
        &mut self.1
    }

    proof fn lemma_in_range() {
    }

    proof fn lemma_put(self, a: T1, b: T1) {
    }
}

impl<T0, T1, T2, T3, T4> TypedIndex<TupleIndex2, T2> for (T0, T1, T2, T3, T4) {
    open spec fn spec_at(&self) -> T2 {
        self.2
    }

    open spec fn spec_put(self, value: T2) -> Self {
        (self.0, self.1, value, self.3, self.4)
    }

    fn get_at(&self) -> (r: &T2) {
        &self.2
    }

    fn get_mut_at(&mut self) -> (r: &mut T2) {
        &mut self.2
    }

    proof fn lemma_in_range() {
    }

    proof fn lemma_put(self, a: T2, b: T2) {
    }
}

impl<T0, T1, T2, T3, T4> TypedIndex<TupleIndex3, T3> for (T0, T1, T2, T3, T4) {
    open spec fn spec_at(&self) -> T3 {
        self.3
    }

    open spec fn spec_put(self, value: T3) -> Self {
        (self.0, self.1, self.2, value, self.4)
    }

    fn get_at(&self) -> (r: &T3) {
        &self.3
    }

    fn get_mut_at(&mut self) -> (r: &mut T3) {
        &mut self.3
    }

    proof fn lemma_in_range() {
    }

    proof fn lemma_put(self, a: T3, b: T3) {
    }
}

impl<T0, T1, T2, T3, T4> TypedIndex<TupleIndex4, T4> for (T0, T1, T2, T3, T4) {
    open spec fn spec_at(&self) -> T4 {
        self.4
    }

    open spec fn spec_put(self, value: T4) -> Self {
        (self.0, self.1, self.2, self.3, value)
    }

    fn get_at(&self) -> (r: &T4) {
        &self.4
    }

    fn get_mut_at(&mut self) -> (r: &mut T4) {
        &mut self.4
    }

    proof fn lemma_in_range() {
    }

    proof fn lemma_put(self, a: T4, b: T4) {
    }
}

impl<T0, T1, T2, T3, T4, T5> TypedIndex<TupleIndex0, T0> for (T0, T1, T2, T3, T4, T5) {
    open spec fn spec_at(&self) -> T0 {
        self.0
    }

    open spec fn spec_put(self, value: T0) -> Self {
        (value, self.1, self.2, self.3, self.4, self.5)
    }

    fn get_at(&self) -> (r: &T0) {
        &self.0
    }

    fn get_mut_at(&mut self) -> (r: &mut T0) {
        &mut self.0
    }

    proof fn lemma_in_range() {
    }

    proof fn lemma_put(self, a: T0, b: T0) {
    }
}

impl<T0, T1, T2, T3, T4, T5> TypedIndex<TupleIndex1, T1> for (T0, T1, T2, T3, T4, T5) {
    open spec fn spec_at(&self) -> T1 {
        self.1
    }

    open spec fn spec_put(self, value: T1) -> Self {
        (self.0, value, self.2, self.3, self.4, self.5)
    }

    fn get_at(&self) -> (r: &T1) {
        &self.1
    }

    fn get_mut_at(&mut self) -> (r: &mut T1) {
        &mut self.1
    }

    proof fn lemma_in_range() {
    }

    proof fn lemma_put(self, a: T1, b: T1) {
    }
}

impl<T0, T1, T2, T3, T4, T5> TypedIndex<TupleIndex2, T2> for (T0, T1, T2, T3, T4, T5) {
    open spec fn spec_at(&self) -> T2 {
        self.2
    }

    open spec fn spec_put(self, value: T2) -> Self {
        (self.0, self.1, value, self.3, self.4, self.5)
    }

    fn get_at(&self) -> (r: &T2) {
        &self.2
    }

    fn get_mut_at(&mut self) -> (r: &mut T2) {
        &mut self.2
    }

    proof fn lemma_in_range() {
    }

    proof fn lemma_put(self, a: T2, b: T2) {
    }
}

impl<T0, T1, T2, T3, T4, T5> TypedIndex<TupleIndex3, T3> for (T0, T1, T2, T3, T4, T5) {
    open spec fn spec_at(&self) -> T3 {
        self.3
    }

    open spec fn spec_put(self, value: T3) -> Self {
        (self.0, self.1, self.2, value, self.4, self.5)
    }

    fn get_at(&self) -> (r: &T3) {
        &self.3
    }

    fn get_mut_at(&mut self) -> (r: &mut T3) {
        &mut self.3
    }

    proof fn lemma_in_range() {
    }

    proof fn lemma_put(self, a: T3, b: T3) {
    }
}

impl<T0, T1, T2, T3, T4, T5> TypedIndex<TupleIndex4, T4> for (T0, T1, T2, T3, T4, T5) {
    open spec fn spec_at(&self) -> T4 {
        self.4
    }

    open spec fn spec_put(self, value: T4) -> Self {
        (self.0, self.1, self.2, self.3, value, self.5)
    }

    fn get_at(&self) -> (r: &T4) {
        &self.4
    }

    fn get_mut_at(&mut self) -> (r: &mut T4) {
        &mut self.4
    }

    proof fn lemma_in_range() {
    }

    proof fn lemma_put(self, a: T4, b: T4) {
    }
}

impl<T0, T1, T2, T3, T4, T5> TypedIndex<TupleIndex5, T5> for (T0, T1, T2, T3, T4, T5) {
    open spec fn spec_at(&self) -> T5 {
        self.5
    }

    open spec fn spec_put(self, value: T5) -> Self {
        (self.0, self.1, self.2, self.3, self.4, value)
    }

    fn get_at(&self) -> (r: &T5) {
        &self.5
    }

    fn get_mut_at(&mut self) -> (r: &mut T5) {
        &mut self.5
    }

    proof fn lemma_in_range() {
    }

    proof fn lemma_put(self, a: T5, b: T5) {
    }
}

impl<T0, T1, T2, T3, T4, T5, T6> TypedIndex<TupleIndex0, T0> for (T0, T1, T2, T3, T4, T5, T6) {
    open spec fn spec_at(&self) -> T0 {
        self.0
    }

    open spec fn spec_put(self, value: T0) -> Self {
        (value, self.1, self.2, self.3, self.4, self.5, self.6)
    }

    fn get_at(&self) -> (r: &T0) {
        &self.0
    }

    fn get_mut_at(&mut self) -> (r: &mut T0) {
        &mut self.0
    }

    proof fn lemma_in_range() {
    }

    proof fn lemma_put(self, a: T0, b: T0) {
    }
}

impl<T0, T1, T2, T3, T4, T5, T6> TypedIndex<TupleIndex1, T1> for (T0, T1, T2, T3, T4, T5, T6) {
    open spec fn spec_at(&self) -> T1 {
        self.1
    }

    open spec fn spec_put(self, value: T1) -> Self {
        (self.0, value, self.2, self.3, self.4, self.5, self.6)
    }

    fn get_at(&self) -> (r: &T1) {
        &self.1
    }

    fn get_mut_at(&mut self) -> (r: &mut T1) {
        &mut self.1
    }

    proof fn lemma_in_range() {
    }

    proof fn lemma_put(self, a: T1, b: T1) {
    }
}

impl<T0, T1, T2, T3, T4, T5, T6> TypedIndex<TupleIndex2, T2> for (T0, T1, T2, T3, T4, T5, T6) {
    open spec fn spec_at(&self) -> T2 {
        self.2
    }

    open spec fn spec_put(self, value: T2) -> Self {
        (self.0, self.1, value, self.3, self.4, self.5, self.6)
    }

    fn get_at(&self) -> (r: &T2) {
        &self.2
    }

    fn get_mut_at(&mut self) -> (r: &mut T2) {
        &mut self.2
    }

    proof fn lemma_in_range() {
    }

    proof fn lemma_put(self, a: T2, b: T2) {
    }
}

impl<T0, T1, T2, T3, T4, T5, T6> TypedIndex<TupleIndex3, T3> for (T0, T1, T2, T3, T4, T5, T6) {
    open spec fn spec_at(&self) -> T3 {
        self.3
    }

    open spec fn spec_put(self, value: T3) -> Self {
        (self.0, self.1, self.2, value, self.4, self.5, self.6)
    }

    fn get_at(&self) -> (r: &T3) {
        &self.3
    }

    fn get_mut_at(&mut self) -> (r: &mut T3) {
        &mut self.3
    }

    proof fn lemma_in_range() {
    }

    proof fn lemma_put(self, a: T3, b: T3) {
    }
}

impl<T0, T1, T2, T3, T4, T5, T6> TypedIndex<TupleIndex4, T4> for (T0, T1, T2, T3, T4, T5, T6) {
    open spec fn spec_at(&self) -> T4 {
        self.4
    }

    open spec fn spec_put(self, value: T4) -> Self {
        (self.0, self.1, self.2, self.3, value, self.5, self.6)
    }

    fn get_at(&self) -> (r: &T4) {
        &self.4
    }

    fn get_mut_at(&mut self) -> (r: &mut T4) {
        &mut self.4
    }

    proof fn lemma_in_range() {
    }

    proof fn lemma_put(self, a: T4, b: T4) {
    }
}

impl<T0, T1, T2, T3, T4, T5, T6> TypedIndex<TupleIndex5, T5> for (T0, T1, T2, T3, T4, T5, T6) {
    open spec fn spec_at(&self) -> T5 {
        self.5
    }

    open spec fn spec_put(self, value: T5) -> Self {
        (self.0, self.1, self.2, self.3, self.4, value, self.6)
    }

    fn get_at(&self) -> (r: &T5) {
        &self.5
    }

    fn get_mut_at(&mut self) -> (r: &mut T5) {
        &mut self.5
    }

    proof fn lemma_in_range() {
    }

    proof fn lemma_put(self, a: T5, b: T5) {
    }
}

impl<T0, T1, T2, T3, T4, T5, T6> TypedIndex<TupleIndex6, T6> for (T0, T1, T2, T3, T4, T5, T6) {
    open spec fn spec_at(&self) -> T6 {
        self.6
    }

    open spec fn spec_put(self, value: T6) -> Self {
        (self.0, self.1, self.2, self.3, self.4, self.5, value)
    }

    fn get_at(&self) -> (r: &T6) {
        &self.6
    }

    fn get_mut_at(&mut self) -> (r: &mut T6) {
        &mut self.6
    }

    proof fn lemma_in_range() {
    }

    proof fn lemma_put(self, a: T6, b: T6) {
    }
}

impl<T0, T1, T2, T3, T4, T5, T6, T7> TypedIndex<TupleIndex0, T0>
    for (T0, T1, T2, T3, T4, T5, T6, T7)
{
    open spec fn spec_at(&self) -> T0 {
        self.0
    }

    open spec fn spec_put(self, value: T0) -> Self {
        (value, self.1, self.2, self.3, self.4, self.5, self.6, self.7)
    }

    fn get_at(&self) -> (r: &T0) {
        &self.0
    }

    fn get_mut_at(&mut self) -> (r: &mut T0) {
        &mut self.0
    }

    proof fn lemma_in_range() {
    }

    proof fn lemma_put(self, a: T0, b: T0) {
    }
}

impl<T0, T1, T2, T3, T4, T5, T6, T7> TypedIndex<TupleIndex1, T1>
    for (T0, T1, T2, T3, T4, T5, T6, T7)
{
    open spec fn spec_at(&self) -> T1 {
        self.1
    }

    open spec fn spec_put(self, value: T1) -> Self {
        (self.0, value, self.2, self.3, self.4, self.5, self.6, self.7)
    }

    fn get_at(&self) -> (r: &T1) {
        &self.1
    }

    fn get_mut_at(&mut self) -> (r: &mut T1) {
        &mut self.1
    }

    proof fn lemma_in_range() {
    }

    proof fn lemma_put(self, a: T1, b: T1) {
    }
}

impl<T0, T1, T2, T3, T4, T5, T6, T7> TypedIndex<TupleIndex2, T2>
    for (T0, T1, T2, T3, T4, T5, T6, T7)
{
    open spec fn spec_at(&self) -> T2 {
        self.2
    }

    open spec fn spec_put(self, value: T2) -> Self {
        (self.0, self.1, value, self.3, self.4, self.5, self.6, self.7)
    }

    fn get_at(&self) -> (r: &T2) {
        &self.2
    }

    fn get_mut_at(&mut self) -> (r: &mut T2) {
        &mut self.2
    }

    proof fn lemma_in_range() {
    }

    proof fn lemma_put(self, a: T2, b: T2) {
    }
}

impl<T0, T1, T2, T3, T4, T5, T6, T7> TypedIndex<TupleIndex3, T3>
    for (T0, T1, T2, T3, T4, T5, T6, T7)
{
    open spec fn spec_at(&self) -> T3 {
        self.3
    }

    open spec fn spec_put(self, value: T3) -> Self {
        (self.0, self.1, self.2, value, self.4, self.5, self.6, self.7)
    }

    fn get_at(&self) -> (r: &T3) {
        &self.3
    }

    fn get_mut_at(&mut self) -> (r: &mut T3) {
        &mut self.3
    }

    proof fn lemma_in_range() {
    }

    proof fn lemma_put(self, a: T3, b: T3) {
    }
}

impl<T0, T1, T2, T3, T4, T5, T6, T7> TypedIndex<TupleIndex4, T4>
    for (T0, T1, T2, T3, T4, T5, T6, T7)
{
    open spec fn spec_at(&self) -> T4 {
        self.4
    }

    open spec fn spec_put(self, value: T4) -> Self {
        (self.0, self.1, self.2, self.3, value, self.5, self.6, self.7)
    }

    fn get_at(&self) -> (r: &T4) {
        &self.4
    }

    fn get_mut_at(&mut self) -> (r: &mut T4) {
        &mut self.4
    }

    proof fn lemma_in_range() {
    }

    proof fn lemma_put(self, a: T4, b: T4) {
    }
}

impl<T0, T1, T2, T3, T4, T5, T6, T7> TypedIndex<TupleIndex5, T5>
    for (T0, T1, T2, T3, T4, T5, T6, T7)
{
    open spec fn spec_at(&self) -> T5 {
        self.5
    }

    open spec fn spec_put(self, value: T5) -> Self {
        (self.0, self.1, self.2, self.3, self.4, value, self.6, self.7)
    }

    fn get_at(&self) -> (r: &T5) {
        &self.5
    }

    fn get_mut_at(&mut self) -> (r: &mut T5) {
        &mut self.5
    }

    proof fn lemma_in_range() {
    }

    proof fn lemma_put(self, a: T5, b: T5) {
    }
}

impl<T0, T1, T2, T3, T4, T5, T6, T7> TypedIndex<TupleIndex6, T6>
    for (T0, T1, T2, T3, T4, T5, T6, T7)
{
    open spec fn spec_at(&self) -> T6 {
        self.6
    }

    open spec fn spec_put(self, value: T6) -> Self {
        (self.0, self.1, self.2, self.3, self.4, self.5, value, self.7)
    }

    fn get_at(&self) -> (r: &T6) {
        &self.6
    }

    fn get_mut_at(&mut self) -> (r: &mut T6) {
        &mut self.6
    }

    proof fn lemma_in_range() {
    }

    proof fn lemma_put(self, a: T6, b: T6) {
    }
}

impl<T0, T1, T2, T3, T4, T5, T6, T7> TypedIndex<TupleIndex7, T7>
    for (T0, T1, T2, T3, T4, T5, T6, T7)
{
    open spec fn spec_at(&self) -> T7 {
        self.7
    }

    open spec fn spec_put(self, value: T7) -> Self {
        (self.0, self.1, self.2, self.3, self.4, self.5, self.6, value)
    }

    fn get_at(&self) -> (r: &T7) {
        &self.7
    }

    fn get_mut_at(&mut self) -> (r: &mut T7) {
        &mut self.7
    }

    proof fn lemma_in_range() {
    }

    proof fn lemma_put(self, a: T7, b: T7) {
    }
}

impl<T0, T1, T2, T3, T4, T5, T6, T7, T8> TypedIndex<TupleIndex0, T0>
    for (T0, T1, T2, T3, T4, T5, T6, T7, T8)
{
    open spec fn spec_at(&self) -> T0 {
        self.0
    }

    open spec fn spec_put(self, value: T0) -> Self {
        (value, self.1, self.2, self.3, self.4, self.5, self.6, self.7, self.8)
    }

    fn get_at(&self) -> (r: &T0) {
        &self.0
    }

    fn get_mut_at(&mut self) -> (r: &mut T0) {
        &mut self.0
    }

    proof fn lemma_in_range() {
    }

    proof fn lemma_put(self, a: T0, b: T0) {
    }
}

impl<T0, T1, T2, T3, T4, T5, T6, T7, T8> TypedIndex<TupleIndex1, T1>
    for (T0, T1, T2, T3, T4, T5, T6, T7, T8)
{
    open spec fn spec_at(&self) -> T1 {
        self.1
    }

    open spec fn spec_put(self, value: T1) -> Self {
        (self.0, value, self.2, self.3, self.4, self.5, self.6, self.7, self.8)
    }

    fn get_at(&self) -> (r: &T1) {
        &self.1
    }

    fn get_mut_at(&mut self) -> (r: &mut T1) {
        &mut self.1
    }

    proof fn lemma_in_range() {
    }

    proof fn lemma_put(self, a: T1, b: T1) {
    }
}

impl<T0, T1, T2, T3, T4, T5, T6, T7, T8> TypedIndex<TupleIndex2, T2>
    for (T0, T1, T2, T3, T4, T5, T6, T7, T8)
{
    open spec fn spec_at(&self) -> T2 {
        self.2
    }

    open spec fn spec_put(self, value: T2) -> Self {
        (self.0, self.1, value, self.3, self.4, self.5, self.6, self.7, self.8)
    }

    fn get_at(&self) -> (r: &T2) {
        &self.2
    }

    fn get_mut_at(&mut self) -> (r: &mut T2) {
        &mut self.2
    }

    proof fn lemma_in_range() {
    }

    proof fn lemma_put(self, a: T2, b: T2) {
    }
}

impl<T0, T1, T2, T3, T4, T5, T6, T7, T8> TypedIndex<TupleIndex3, T3>
    for (T0, T1, T2, T3, T4, T5, T6, T7, T8)
{
    open spec fn spec_at(&self) -> T3 {
        self.3
    }

    open spec fn spec_put(self, value: T3) -> Self {
        (self.0, self.1, self.2, value, self.4, self.5, self.6, self.7, self.8)
    }

    fn get_at(&self) -> (r: &T3) {
        &self.3
    }

    fn get_mut_at(&mut self) -> (r: &mut T3) {
        &mut self.3
    }

    proof fn lemma_in_range() {
    }

    proof fn lemma_put(self, a: T3, b: T3) {
    }
}

impl<T0, T1, T2, T3, T4, T5, T6, T7, T8> TypedIndex<TupleIndex4, T4>
    for (T0, T1, T2, T3, T4, T5, T6, T7, T8)
{
    open spec fn spec_at(&self) -> T4 {
        self.4
    }

    open spec fn spec_put(self, value: T4) -> Self {
        (self.0, self.1, self.2, self.3, value, self.5, self.6, self.7, self.8)
    }

    fn get_at(&self) -> (r: &T4) {
        &self.4
    }

    fn get_mut_at(&mut self) -> (r: &mut T4) {
        &mut self.4
    }

    proof fn lemma_in_range() {
    }

    proof fn lemma_put(self, a: T4, b: T4) {
    }
}

impl<T0, T1, T2, T3, T4, T5, T6, T7, T8> TypedIndex<TupleIndex5, T5>
    for (T0, T1, T2, T3, T4, T5, T6, T7, T8)
{
    open spec fn spec_at(&self) -> T5 {
        self.5
    }

    open spec fn spec_put(self, value: T5) -> Self {
        (self.0, self.1, self.2, self.3, self.4, value, self.6, self.7, self.8)
    }

    fn get_at(&self) -> (r: &T5) {
        &self.5
    }

    fn get_mut_at(&mut self) -> (r: &mut T5) {
        &mut self.5
    }

    proof fn lemma_in_range() {
    }

    proof fn lemma_put(self, a: T5, b: T5) {
    }
}

impl<T0, T1, T2, T3, T4, T5, T6, T7, T8> TypedIndex<TupleIndex6, T6>
    for (T0, T1, T2, T3, T4, T5, T6, T7, T8)
{
    open spec fn spec_at(&self) -> T6 {
        self.6
    }

    open spec fn spec_put(self, value: T6) -> Self {
        (self.0, self.1, self.2, self.3, self.4, self.5, value, self.7, self.8)
    }

    fn get_at(&self) -> (r: &T6) {
        &self.6
    }

    fn get_mut_at(&mut self) -> (r: &mut T6) {
        &mut self.6
    }

    proof fn lemma_in_range() {
    }

    proof fn lemma_put(self, a: T6, b: T6) {
    }
}

impl<T0, T1, T2, T3, T4, T5, T6, T7, T8> TypedIndex<TupleIndex7, T7>
    for (T0, T1, T2, T3, T4, T5, T6, T7, T8)
{
    open spec fn spec_at(&self) -> T7 {
        self.7
    }

    open spec fn spec_put(self, value: T7) -> Self {
        (self.0, self.1, self.2, self.3, self.4, self.5, self.6, value, self.8)
    }

    fn get_at(&self) -> (r: &T7) {
        &self.7
    }

    fn get_mut_at(&mut self) -> (r: &mut T7) {
        &mut self.7
    }

    proof fn lemma_in_range() {
    }

    proof fn lemma_put(self, a: T7, b: T7) {
    }
}

impl<T0, T1, T2, T3, T4, T5, T6, T7, T8> TypedIndex<TupleIndex8, T8>
    for (T0, T1, T2, T3, T4, T5, T6, T7, T8)
{
    open spec fn spec_at(&self) -> T8 {
        self.8
    }

    open spec fn spec_put(self, value: T8) -> Self {
        (self.0, self.1, self.2, self.3, self.4, self.5, self.6, self.7, value)
    }

    fn get_at(&self) -> (r: &T8) {
        &self.8
    }

    fn get_mut_at(&mut self) -> (r: &mut T8) {
        &mut self.8
    }

    proof fn lemma_in_range() {
    }

    proof fn lemma_put(self, a: T8, b: T8) {
    }
}

impl<T0, T1, T2, T3, T4, T5, T6, T7, T8, T9> TypedIndex<TupleIndex0, T0>
    for (T0, T1, T2, T3, T4, T5, T6, T7, T8, T9)
{
    open spec fn spec_at(&self) -> T0 {
        self.0
    }

    open spec fn spec_put(self, value: T0) -> Self {
        (value, self.1, self.2, self.3, self.4, self.5, self.6, self.7, self.8, self.9)
    }

    fn get_at(&self) -> (r: &T0) {
        &self.0
    }

    fn get_mut_at(&mut self) -> (r: &mut T0) {
        &mut self.0
    }

    proof fn lemma_in_range() {
    }

    proof fn lemma_put(self, a: T0, b: T0) {
    }
}

impl<T0, T1, T2, T3, T4, T5, T6, T7, T8, T9> TypedIndex<TupleIndex1, T1>
    for (T0, T1, T2, T3, T4, T5, T6, T7, T8, T9)
{
    open spec fn spec_at(&self) -> T1 {
        self.1
    }

    open spec fn spec_put(self, value: T1) -> Self {
        (self.0, value, self.2, self.3, self.4, self.5, self.6, self.7, self.8, self.9)
    }

    fn get_at(&self) -> (r: &T1) {
        &self.1
    }

    fn get_mut_at(&mut self) -> (r: &mut T1) {
        &mut self.1
    }

    proof fn lemma_in_range() {
    }

    proof fn lemma_put(self, a: T1, b: T1) {
    }
}

impl<T0, T1, T2, T3, T4, T5, T6, T7, T8, T9> TypedIndex<TupleIndex2, T2>
    for (T0, T1, T2, T3, T4, T5, T6, T7, T8, T9)
{
    open spec fn spec_at(&self) -> T2 {
        self.2
    }

    open spec fn spec_put(self, value: T2) -> Self {
        (self.0, self.1, value, self.3, self.4, self.5, self.6, self.7, self.8, self.9)
    }

    fn get_at(&self) -> (r: &T2) {
        &self.2
    }

    fn get_mut_at(&mut self) -> (r: &mut T2) {
        &mut self.2
    }

    proof fn lemma_in_range() {
    }

    proof fn lemma_put(self, a: T2, b: T2) {
    }
}

impl<T0, T1, T2, T3, T4, T5, T6, T7, T8, T9> TypedIndex<TupleIndex3, T3>
    for (T0, T1, T2, T3, T4, T5, T6, T7, T8, T9)
{
    open spec fn spec_at(&self) -> T3 {
        self.3
    }

    open spec fn spec_put(self, value: T3) -> Self {
        (self.0, self.1, self.2, value, self.4, self.5, self.6, self.7, self.8, self.9)
    }

    fn get_at(&self) -> (r: &T3) {
        &self.3
    }

    fn get_mut_at(&mut self) -> (r: &mut T3) {
        &mut self.3
    }

    proof fn lemma_in_range() {
    }

    proof fn lemma_put(self, a: T3, b: T3) {
    }
}

impl<T0, T1, T2, T3, T4, T5, T6, T7, T8, T9> TypedIndex<TupleIndex4, T4>
    for (T0, T1, T2, T3, T4, T5, T6, T7, T8, T9)
{
    open spec fn spec_at(&self) -> T4 {
        self.4
    }

    open spec fn spec_put(self, value: T4) -> Self {
        (self.0, self.1, self.2, self.3, value, self.5, self.6, self.7, self.8, self.9)
    }

    fn get_at(&self) -> (r: &T4) {
        &self.4
    }

    fn get_mut_at(&mut self) -> (r: &mut T4) {
        &mut self.4
    }

    proof fn lemma_in_range() {
    }

    proof fn lemma_put(self, a: T4, b: T4) {
    }
}

impl<T0, T1, T2, T3, T4, T5, T6, T7, T8, T9> TypedIndex<TupleIndex5, T5>
    for (T0, T1, T2, T3, T4, T5, T6, T7, T8, T9)
{
    open spec fn spec_at(&self) -> T5 {
        self.5
    }

    open spec fn spec_put(self, value: T5) -> Self {
        (self.0, self.1, self.2, self.3, self.4, value, self.6, self.7, self.8, self.9)
    }

    fn get_at(&self) -> (r: &T5) {
        &self.5
    }

    fn get_mut_at(&mut self) -> (r: &mut T5) {
        &mut self.5
    }

    proof fn lemma_in_range() {
    }

    proof fn lemma_put(self, a: T5, b: T5) {
    }
}

impl<T0, T1, T2, T3, T4, T5, T6, T7, T8, T9> TypedIndex<TupleIndex6, T6>
    for (T0, T1, T2, T3, T4, T5, T6, T7, T8, T9)
{
    open spec fn spec_at(&self) -> T6 {
        self.6
    }

    open spec fn spec_put(self, value: T6) -> Self {
        (self.0, self.1, self.2, self.3, self.4, self.5, value, self.7, self.8, self.9)
    }

    fn get_at(&self) -> (r: &T6) {
        &self.6
    }

    fn get_mut_at(&mut self) -> (r: &mut T6) {
        &mut self.6
    }

    proof fn lemma_in_range() {
    }

    proof fn lemma_put(self, a: T6, b: T6) {
    }
}

impl<T0, T1, T2, T3, T4, T5, T6, T7, T8, T9> TypedIndex<TupleIndex7, T7>
    for (T0, T1, T2, T3, T4, T5, T6, T7, T8, T9)
{
    open spec fn spec_at(&self) -> T7 {
        self.7
    }

    open spec fn spec_put(self, value: T7) -> Self {
        (self.0, self.1, self.2, self.3, self.4, self.5, self.6, value, self.8, self.9)
    }

    fn get_at(&self) -> (r: &T7) {
        &self.7
    }

    fn get_mut_at(&mut self) -> (r: &mut T7) {
        &mut self.7
    }

    proof fn lemma_in_range() {
    }

    proof fn lemma_put(self, a: T7, b: T7) {
    }
}

impl<T0, T1, T2, T3, T4, T5, T6, T7, T8, T9> TypedIndex<TupleIndex8, T8>
    for (T0, T1, T2, T3, T4, T5, T6, T7, T8, T9)
{
    open spec fn spec_at(&self) -> T8 {
        self.8
    }

    open spec fn spec_put(self, value: T8) -> Self {
        (self.0, self.1, self.2, self.3, self.4, self.5, self.6, self.7, value, self.9)
    }

    fn get_at(&self) -> (r: &T8) {
        &self.8
    }

    fn get_mut_at(&mut self) -> (r: &mut T8) {
        &mut self.8
    }

    proof fn lemma_in_range() {
    }

    proof fn lemma_put(self, a: T8, b: T8) {
    }
}

impl<T0, T1, T2, T3, T4, T5, T6, T7, T8, T9> TypedIndex<TupleIndex9, T9>
    for (T0, T1, T2, T3, T4, T5, T6, T7, T8, T9)
{
    open spec fn spec_at(&self) -> T9 {
        self.9
    }

    open spec fn spec_put(self, value: T9) -> Self {
        (self.0, self.1, self.2, self.3, self.4, self.5, self.6, self.7, self.8, value)
    }

    fn get_at(&self) -> (r: &T9) {
        &self.9
    }

    fn get_mut_at(&mut self) -> (r: &mut T9) {
        &mut self.9
    }

    proof fn lemma_in_range() {
    }

    proof fn lemma_put(self, a: T9, b: T9) {
    }
}

impl<T0, T1, T2, T3, T4, T5, T6, T7, T8, T9, T10> TypedIndex<TupleIndex0, T0>
    for (T0, T1, T2, T3, T4, T5, T6, T7, T8, T9, T10)
{
    open spec fn spec_at(&self) -> T0 {
        self.0
    }

    open spec fn spec_put(self, value: T0) -> Self {
        (value, self.1, self.2, self.3, self.4, self.5, self.6, self.7, self.8, self.9, self.10)
    }

    fn get_at(&self) -> (r: &T0) {
        &self.0
    }

    fn get_mut_at(&mut self) -> (r: &mut T0) {
        &mut self.0
    }

    proof fn lemma_in_range() {
    }

    proof fn lemma_put(self, a: T0, b: T0) {
    }
}

impl<T0, T1, T2, T3, T4, T5, T6, T7, T8, T9, T10> TypedIndex<TupleIndex1, T1>
    for (T0, T1, T2, T3, T4, T5, T6, T7, T8, T9, T10)
{
    open spec fn spec_at(&self) -> T1 {
        self.1
    }

    open spec fn spec_put(self, value: T1) -> Self {
        (self.0, value, self.2, self.3, self.4, self.5, self.6, self.7, self.8, self.9, self.10)
    }

    fn get_at(&self) -> (r: &T1) {
        &self.1
    }

    fn get_mut_at(&mut self) -> (r: &mut T1) {
        &mut self.1
    }

    proof fn lemma_in_range() {
    }

    proof fn lemma_put(self, a: T1, b: T1) {
    }
}

impl<T0, T1, T2, T3, T4, T5, T6, T7, T8, T9, T10> TypedIndex<TupleIndex2, T2>
    for (T0, T1, T2, T3, T4, T5, T6, T7, T8, T9, T10)
{
    open spec fn spec_at(&self) -> T2 {
        self.2
    }

    open spec fn spec_put(self, value: T2) -> Self {
        (self.0, self.1, value, self.3, self.4, self.5, self.6, self.7, self.8, self.9, self.10)
    }

    fn get_at(&self) -> (r: &T2) {
        &self.2
    }

    fn get_mut_at(&mut self) -> (r: &mut T2) {
        &mut self.2
    }

    proof fn lemma_in_range() {
    }

    proof fn lemma_put(self, a: T2, b: T2) {
    }
}

impl<T0, T1, T2, T3, T4, T5, T6, T7, T8, T9, T10> TypedIndex<TupleIndex3, T3>
    for (T0, T1, T2, T3, T4, T5, T6, T7, T8, T9, T10)
{
    open spec fn spec_at(&self) -> T3 {
        self.3
    }

    open spec fn spec_put(self, value: T3) -> Self {
        (self.0, self.1, self.2, value, self.4, self.5, self.6, self.7, self.8, self.9, self.10)
    }

    fn get_at(&self) -> (r: &T3) {
        &self.3
    }

    fn get_mut_at(&mut self) -> (r: &mut T3) {
        &mut self.3
    }

    proof fn lemma_in_range() {
    }

    proof fn lemma_put(self, a: T3, b: T3) {
    }
}

impl<T0, T1, T2, T3, T4, T5, T6, T7, T8, T9, T10> TypedIndex<TupleIndex4, T4>
    for (T0, T1, T2, T3, T4, T5, T6, T7, T8, T9, T10)
{
    open spec fn spec_at(&self) -> T4 {
        self.4
    }

    open spec fn spec_put(self, value: T4) -> Self {
        (self.0, self.1, self.2, self.3, value, self.5, self.6, self.7, self.8, self.9, self.10)
    }

    fn get_at(&self) -> (r: &T4) {
        &self.4
    }

    fn get_mut_at(&mut self) -> (r: &mut T4) {
        &mut self.4
    }

    proof fn lemma_in_range() {
    }

    proof fn lemma_put(self, a: T4, b: T4) {
    }
}

impl<T0, T1, T2, T3, T4, T5, T6, T7, T8, T9, T10> TypedIndex<TupleIndex5, T5>
    for (T0, T1, T2, T3, T4, T5, T6, T7, T8, T9, T10)
{
    open spec fn spec_at(&self) -> T5 {
        self.5
    }

    open spec fn spec_put(self, value: T5) -> Self {
        (self.0, self.1, self.2, self.3, self.4, value, self.6, self.7, self.8, self.9, self.10)
    }

    fn get_at(&self) -> (r: &T5) {
        &self.5
    }

    fn get_mut_at(&mut self) -> (r: &mut T5) {
        &mut self.5
    }

    proof fn lemma_in_range() {
    }

    proof fn lemma_put(self, a: T5, b: T5) {
    }
}

impl<T0, T1, T2, T3, T4, T5, T6, T7, T8, T9, T10> TypedIndex<TupleIndex6, T6>
    for (T0, T1, T2, T3, T4, T5, T6, T7, T8, T9, T10)
{
    open spec fn spec_at(&self) -> T6 {
        self.6
    }

    open spec fn spec_put(self, value: T6) -> Self {
        (self.0, self.1, self.2, self.3, self.4, self.5, value, self.7, self.8, self.9, self.10)
    }

    fn get_at(&self) -> (r: &T6) {
        &self.6
    }

    fn get_mut_at(&mut self) -> (r: &mut T6) {
        &mut self.6
    }

    proof fn lemma_in_range() {
    }

    proof fn lemma_put(self, a: T6, b: T6) {
    }
}

impl<T0, T1, T2, T3, T4, T5, T6, T7, T8, T9, T10> TypedIndex<TupleIndex7, T7>
    for (T0, T1, T2, T3, T4, T5, T6, T7, T8, T9, T10)
{
    open spec fn spec_at(&self) -> T7 {
        self.7
    }

    open spec fn spec_put(self, value: T7) -> Self {
        (self.0, self.1, self.2, self.3, self.4, self.5, self.6, value, self.8, self.9, self.10)
    }

    fn get_at(&self) -> (r: &T7) {
        &self.7
    }

    fn get_mut_at(&mut self) -> (r: &mut T7) {
        &mut self.7
    }

    proof fn lemma_in_range() {
    }

    proof fn lemma_put(self, a: T7, b: T7) {
    }
}

impl<T0, T1, T2, T3, T4, T5, T6, T7, T8, T9, T10> TypedIndex<TupleIndex8, T8>
    for (T0, T1, T2, T3, T4, T5, T6, T7, T8, T9, T10)
{
    open spec fn spec_at(&self) -> T8 {
        self.8
    }

    open spec fn spec_put(self, value: T8) -> Self {
        (self.0, self.1, self.2, self.3, self.4, self.5, self.6, self.7, value, self.9, self.10)
    }

    fn get_at(&self) -> (r: &T8) {
        &self.8
    }

    fn get_mut_at(&mut self) -> (r: &mut T8) {
        &mut self.8
    }

    proof fn lemma_in_range() {
    }

    proof fn lemma_put(self, a: T8, b: T8) {
    }
}

impl<T0, T1, T2, T3, T4, T5, T6, T7, T8, T9, T10> TypedIndex<TupleIndex9, T9>
    for (T0, T1, T2, T3, T4, T5, T6, T7, T8, T9, T10)
{
    open spec fn spec_at(&self) -> T9 {
        self.9
    }

    open spec fn spec_put(self, value: T9) -> Self {
        (self.0, self.1, self.2, self.3, self.4, self.5, self.6, self.7, self.8, value, self.10)
    }

    fn get_at(&self) -> (r: &T9) {
        &self.9
    }

    fn get_mut_at(&mut self) -> (r: &mut T9) {
        &mut self.9
    }

    proof fn lemma_in_range() {
    }

    proof fn lemma_put(self, a: T9, b: T9) {
    }
}

impl<T0, T1, T2, T3, T4, T5, T6, T7, T8, T9, T10> TypedIndex<TupleIndex10, T10>
    for (T0, T1, T2, T3, T4, T5, T6, T7, T8, T9, T10)
{
    open spec fn spec_at(&self) -> T10 {
        self.10
    }

    open spec fn spec_put(self, value: T10) -> Self {
        (self.0, self.1, self.2, self.3, self.4, self.5, self.6, self.7, self.8, self.9, value)
    }

    fn get_at(&self) -> (r: &T10) {
        &self.10
    }

    fn get_mut_at(&mut self) -> (r: &mut T10) {
        &mut self.10
    }

    proof fn lemma_in_range() {
    }

    proof fn lemma_put(self, a: T10, b: T10) {
    }
}

impl<T0, T1, T2, T3, T4, T5, T6, T7, T8, T9, T10, T11> TypedIndex<TupleIndex0, T0>
    for (T0, T1, T2, T3, T4, T5, T6, T7, T8, T9, T10, T11)
{
    open spec fn spec_at(&self) -> T0 {
        self.0
    }

    open spec fn spec_put(self, value: T0) -> Self {
        (value, self.1, self.2, self.3, self.4, self.5, self.6, self.7, self.8, self.9, self.10,
            self.11)
    }

    fn get_at(&self) -> (r: &T0) {
        &self.0
    }

    fn get_mut_at(&mut self) -> (r: &mut T0) {
        &mut self.0
    }

    proof fn lemma_in_range() {
    }

    proof fn lemma_put(self, a: T0, b: T0) {
    }
}

impl<T0, T1, T2, T3, T4, T5, T6, T7, T8, T9, T10, T11> TypedIndex<TupleIndex1, T1>
    for (T0, T1, T2, T3, T4, T5, T6, T7, T8, T9, T10, T11)
{
    open spec fn spec_at(&self) -> T1 {
        self.1
    }

    open spec fn spec_put(self, value: T1) -> Self {
        (self.0, value, self.2, self.3, self.4, self.5, self.6, self.7, self.8, self.9, self.10,
            self.11)
    }

    fn get_at(&self) -> (r: &T1) {
        &self.1
    }

    fn get_mut_at(&mut self) -> (r: &mut T1) {
        &mut self.1
    }

    proof fn lemma_in_range() {
    }

    proof fn lemma_put(self, a: T1, b: T1) {
    }
}

impl<T0, T1, T2, T3, T4, T5, T6, T7, T8, T9, T10, T11> TypedIndex<TupleIndex2, T2>
    for (T0, T1, T2, T3, T4, T5, T6, T7, T8, T9, T10, T11)
{
    open spec fn spec_at(&self) -> T2 {
        self.2
    }

    open spec fn spec_put(self, value: T2) -> Self {
        (self.0, self.1, value, self.3, self.4, self.5, self.6, self.7, self.8, self.9, self.10,
            self.11)
    }

    fn get_at(&self) -> (r: &T2) {
        &self.2
    }

    fn get_mut_at(&mut self) -> (r: &mut T2) {
        &mut self.2
    }

    proof fn lemma_in_range() {
    }

    proof fn lemma_put(self, a: T2, b: T2) {
    }
}

impl<T0, T1, T2, T3, T4, T5, T6, T7, T8, T9, T10, T11> TypedIndex<TupleIndex3, T3>
    for (T0, T1, T2, T3, T4, T5, T6, T7, T8, T9, T10, T11)
{
    open spec fn spec_at(&self) -> T3 {
        self.3
    }

    open spec fn spec_put(self, value: T3) -> Self {
        (self.0, self.1, self.2, value, self.4, self.5, self.6, self.7, self.8, self.9, self.10,
            self.11)
    }

    fn get_at(&self) -> (r: &T3) {
        &self.3
    }

    fn get_mut_at(&mut self) -> (r: &mut T3) {
        &mut self.3
    }

    proof fn lemma_in_range() {
    }

    proof fn lemma_put(self, a: T3, b: T3) {
    }
}

impl<T0, T1, T2, T3, T4, T5, T6, T7, T8, T9, T10, T11> TypedIndex<TupleIndex4, T4>
    for (T0, T1, T2, T3, T4, T5, T6, T7, T8, T9, T10, T11)
{
    open spec fn spec_at(&self) -> T4 {
        self.4
    }

    open spec fn spec_put(self, value: T4) -> Self {
        (self.0, self.1, self.2, self.3, value, self.5, self.6, self.7, self.8, self.9, self.10,
            self.11)
    }

    fn get_at(&self) -> (r: &T4) {
        &self.4
    }

    fn get_mut_at(&mut self) -> (r: &mut T4) {
        &mut self.4
    }

    proof fn lemma_in_range() {
    }

    proof fn lemma_put(self, a: T4, b: T4) {
    }
}

impl<T0, T1, T2, T3, T4, T5, T6, T7, T8, T9, T10, T11> TypedIndex<TupleIndex5, T5>
    for (T0, T1, T2, T3, T4, T5, T6, T7, T8, T9, T10, T11)
{
    open spec fn spec_at(&self) -> T5 {
        self.5
    }

    open spec fn spec_put(self, value: T5) -> Self {
        (self.0, self.1, self.2, self.3, self.4, value, self.6, self.7, self.8, self.9, self.10,
            self.11)
    }

    fn get_at(&self) -> (r: &T5) {
        &self.5
    }

    fn get_mut_at(&mut self) -> (r: &mut T5) {
        &mut self.5
    }

    proof fn lemma_in_range() {
    }

    proof fn lemma_put(self, a: T5, b: T5) {
    }
}

impl<T0, T1, T2, T3, T4, T5, T6, T7, T8, T9, T10, T11> TypedIndex<TupleIndex6, T6>
    for (T0, T1, T2, T3, T4, T5, T6, T7, T8, T9, T10, T11)
{
    open spec fn spec_at(&self) -> T6 {
        self.6
    }

    open spec fn spec_put(self, value: T6) -> Self {
        (self.0, self.1, self.2, self.3, self.4, self.5, value, self.7, self.8, self.9, self.10,
            self.11)
    }

    fn get_at(&self) -> (r: &T6) {
        &self.6
    }

    fn get_mut_at(&mut self) -> (r: &mut T6) {
        &mut self.6
    }

    proof fn lemma_in_range() {
    }

    proof fn lemma_put(self, a: T6, b: T6) {
    }
}

impl<T0, T1, T2, T3, T4, T5, T6, T7, T8, T9, T10, T11> TypedIndex<TupleIndex7, T7>
    for (T0, T1, T2, T3, T4, T5, T6, T7, T8, T9, T10, T11)
{
    open spec fn spec_at(&self) -> T7 {
        self.7
    }

    open spec fn spec_put(self, value: T7) -> Self {
        (self.0, self.1, self.2, self.3, self.4, self.5, self.6, value, self.8, self.9, self.10,
            self.11)
    }

    fn get_at(&self) -> (r: &T7) {
        &self.7
    }

    fn get_mut_at(&mut self) -> (r: &mut T7) {
        &mut self.7
    }

    proof fn lemma_in_range() {
    }

    proof fn lemma_put(self, a: T7, b: T7) {
    }
}

impl<T0, T1, T2, T3, T4, T5, T6, T7, T8, T9, T10, T11> TypedIndex<TupleIndex8, T8>
    for (T0, T1, T2, T3, T4, T5, T6, T7, T8, T9, T10, T11)
{
    open spec fn spec_at(&self) -> T8 {
        self.8
    }

    open spec fn spec_put(self, value: T8) -> Self {
        (self.0, self.1, self.2, self.3, self.4, self.5, self.6, self.7, value, self.9, self.10,
            self.11)
    }

    fn get_at(&self) -> (r: &T8) {
        &self.8
    }

    fn get_mut_at(&mut self) -> (r: &mut T8) {
        &mut self.8
    }

    proof fn lemma_in_range() {
    }

    proof fn lemma_put(self, a: T8, b: T8) {
    }
}

impl<T0, T1, T2, T3, T4, T5, T6, T7, T8, T9, T10, T11> TypedIndex<TupleIndex9, T9>
    for (T0, T1, T2, T3, T4, T5, T6, T7, T8, T9, T10, T11)
{
    open spec fn spec_at(&self) -> T9 {
        self.9
    }

    open spec fn spec_put(self, value: T9) -> Self {
        (self.0, self.1, self.2, self.3, self.4, self.5, self.6, self.7, self.8, value, self.10,
            self.11)
    }

    fn get_at(&self) -> (r: &T9) {
        &self.9
    }

    fn get_mut_at(&mut self) -> (r: &mut T9) {
        &mut self.9
    }

    proof fn lemma_in_range() {
    }

    proof fn lemma_put(self, a: T9, b: T9) {
    }
}

impl<T0, T1, T2, T3, T4, T5, T6, T7, T8, T9, T10, T11> TypedIndex<TupleIndex10, T10>
    for (T0, T1, T2, T3, T4, T5, T6, T7, T8, T9, T10, T11)
{
    open spec fn spec_at(&self) -> T10 {
        self.10
    }

    open spec fn spec_put(self, value: T10) -> Self {
        (self.0, self.1, self.2, self.3, self.4, self.5, self.6, self.7, self.8, self.9, value,
            self.11)
    }

    fn get_at(&self) -> (r: &T10) {
        &self.10
    }

    fn get_mut_at(&mut self) -> (r: &mut T10) {
        &mut self.10
    }

    proof fn lemma_in_range() {
    }

    proof fn lemma_put(self, a: T10, b: T10) {
    }
}

impl<T0, T1, T2, T3, T4, T5, T6, T7, T8, T9, T10, T11> TypedIndex<TupleIndex11, T11>
    for (T0, T1, T2, T3, T4, T5, T6, T7, T8, T9, T10, T11)
{
    open spec fn spec_at(&self) -> T11 {
        self.11
    }

    open spec fn spec_put(self, value: T11) -> Self {
        (self.0, self.1, self.2, self.3, self.4, self.5, self.6, self.7, self.8, self.9, self.10,
            value)
    }

    fn get_at(&self) -> (r: &T11) {
        &self.11
    }

    fn get_mut_at(&mut self) -> (r: &mut T11) {
        &mut self.11
    }

    proof fn lemma_in_range() {
    }

    proof fn lemma_put(self, a: T11, b: T11) {
    }
}

} // verus!
