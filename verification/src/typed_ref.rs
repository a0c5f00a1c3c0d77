//! Borrowing all elements of a sequence at once.

use vstd::prelude::*;
use crate::tuple_len::TupleLen;

verus! {

/// Borrows every element of a sequence at once: the result is the sequence
/// of shared references to the elements, in order.
///
/// The source stays in place, and the references can be split, extracted
/// from and chained like any other sequence.
pub trait TypedRef<'a>: TupleLen {
    /// The output tuple.
    type Output: TupleLen;

    /// The sequence of references to the elements of `self`.
    spec fn spec_into_ref(&self) -> Self::Output;

    /// Return a new tuple where all inner elements are borrowed.
    fn into_ref(&'a self) -> (r: Self::Output)
        ensures
            r == self.spec_into_ref(),
    ;

    /// There is one reference for each element.
    proof fn lemma_ref_len()
        ensures
            Self::Output::spec_len() == Self::spec_len(),
    ;
}

/// Borrows every element of a sequence mutably at once: the result is the
/// sequence of exclusive references to the elements, in order.
///
/// Each reference starts out at the element it stands for. Once the borrows
/// have ended the source holds, at each position, what was last written
/// through the reference for that position; each implementation states this
/// of `into_mut`.
pub trait TypedMut<'a>: TupleLen {
    /// The output tuple.
    type Output: TupleLen;

    /// The sequence of the values that the references in `out` point at.
    spec fn spec_current(out: Self::Output) -> Self;

    /// Return a new tuple where all inner elements are mutably borrowed.
    fn into_mut(&'a mut self) -> (r: Self::Output)
        ensures
            Self::spec_current(r) == *old(self),
    ;

    /// There is one reference for each element.
    proof fn lemma_mut_len()
        ensures
            Self::Output::spec_len() == Self::spec_len(),
    ;
}

impl<'a, T0: 'a> TypedRef<'a> for (T0,) {
    type Output = (&'a T0,);

    open spec fn spec_into_ref(&self) -> (&'a T0,) {
        (&self.0,)
    }

    fn into_ref(&'a self) -> (r: (&'a T0,)) {
        (&self.0,)
    }

    proof fn lemma_ref_len() {
    }
}

impl<'a, T0: 'a, T1: 'a> TypedRef<'a> for (T0, T1) {
    type Output = (&'a T0, &'a T1);

    open spec fn spec_into_ref(&self) -> (&'a T0, &'a T1) {
        (&self.0, &self.1)
    }

    fn into_ref(&'a self) -> (r: (&'a T0, &'a T1)) {
        (&self.0, &self.1)
    }

    proof fn lemma_ref_len() {
    }
}

impl<'a, T0: 'a, T1: 'a, T2: 'a> TypedRef<'a> for (T0, T1, T2) {
    type Output = (&'a T0, &'a T1, &'a T2);

    open spec fn spec_into_ref(&self) -> (&'a T0, &'a T1, &'a T2) {
        (&self.0, &self.1, &self.2)
    }

    fn into_ref(&'a self) -> (r: (&'a T0, &'a T1, &'a T2)) {
        (&self.0, &self.1, &self.2)
    }

    proof fn lemma_ref_len() {
    }
}

impl<'a, T0: 'a, T1: 'a, T2: 'a, T3: 'a> TypedRef<'a> for (T0, T1, T2, T3) {
    type Output = (&'a T0, &'a T1, &'a T2, &'a T3);

    open spec fn spec_into_ref(&self) -> (&'a T0, &'a T1, &'a T2, &'a T3) {
        (&self.0, &self.1, &self.2, &self.3)
    }

    fn into_ref(&'a self) -> (r: (&'a T0, &'a T1, &'a T2, &'a T3)) {
        (&self.0, &self.1, &self.2, &self.3)
    }

    proof fn lemma_ref_len() {
    }
}

impl<'a, T0: 'a, T1: 'a, T2: 'a, T3: 'a, T4: 'a> TypedRef<'a> for (T0, T1, T2, T3, T4) {
    type Output = (&'a T0, &'a T1, &'a T2, &'a T3, &'a T4);

    open spec fn spec_into_ref(&self) -> (&'a T0, &'a T1, &'a T2, &'a T3, &'a T4) {
        (&self.0, &self.1, &self.2, &self.3, &self.4)
    }

    fn into_ref(&'a self) -> (r: (&'a T0, &'a T1, &'a T2, &'a T3, &'a T4)) {
        (&self.0, &self.1, &self.2, &self.3, &self.4)
    }

    proof fn lemma_ref_len() {
    }
}

impl<'a, T0: 'a, T1: 'a, T2: 'a, T3: 'a, T4: 'a, T5: 'a> TypedRef<'a> for (T0, T1, T2, T3, T4, T5) {
    type Output = (&'a T0, &'a T1, &'a T2, &'a T3, &'a T4, &'a T5);

    open spec fn spec_into_ref(&self) -> (&'a T0, &'a T1, &'a T2, &'a T3, &'a T4, &'a T5) {
        (&self.0, &self.1, &self.2, &self.3, &self.4, &self.5)
    }

    fn into_ref(&'a self) -> (r: (&'a T0, &'a T1, &'a T2, &'a T3, &'a T4, &'a T5)) {
        (&self.0, &self.1, &self.2, &self.3, &self.4, &self.5)
    }

    proof fn lemma_ref_len() {
    }
}

impl<'a, T0: 'a, T1: 'a, T2: 'a, T3: 'a, T4: 'a, T5: 'a, T6: 'a> TypedRef<'a>
    for (T0, T1, T2, T3, T4, T5, T6)
{
    type Output = (&'a T0, &'a T1, &'a T2, &'a T3, &'a T4, &'a T5, &'a T6);

    open spec fn spec_into_ref(&self) -> (&'a T0, &'a T1, &'a T2, &'a T3, &'a T4, &'a T5, &'a T6) {
        (&self.0, &self.1, &self.2, &self.3, &self.4, &self.5, &self.6)
    }

    fn into_ref(&'a self) -> (r: (&'a T0, &'a T1, &'a T2, &'a T3, &'a T4, &'a T5, &'a T6)) {
        (&self.0, &self.1, &self.2, &self.3, &self.4, &self.5, &self.6)
    }

    proof fn lemma_ref_len() {
    }
}

impl<'a, T0: 'a, T1: 'a, T2: 'a, T3: 'a, T4: 'a, T5: 'a, T6: 'a, T7: 'a> TypedRef<'a>
    for (T0, T1, T2, T3, T4, T5, T6, T7)
{
    type Output = (&'a T0, &'a T1, &'a T2, &'a T3, &'a T4, &'a T5, &'a T6, &'a T7);

    open spec fn spec_into_ref(&self) -> (&'a T0, &'a T1, &'a T2, &'a T3, &'a T4, &'a T5, &'a T6,
        &'a T7) {
        (&self.0, &self.1, &self.2, &self.3, &self.4, &self.5, &self.6, &self.7)
    }

    fn into_ref(&'a self) -> (r: (&'a T0, &'a T1, &'a T2, &'a T3, &'a T4, &'a T5, &'a T6, &'a T7)) {
        (&self.0, &self.1, &self.2, &self.3, &self.4, &self.5, &self.6, &self.7)
    }

    proof fn lemma_ref_len() {
    }
}

impl<'a, T0: 'a, T1: 'a, T2: 'a, T3: 'a, T4: 'a, T5: 'a, T6: 'a, T7: 'a, T8: 'a> TypedRef<'a>
    for (T0, T1, T2, T3, T4, T5, T6, T7, T8)
{
    type Output = (&'a T0, &'a T1, &'a T2, &'a T3, &'a T4, &'a T5, &'a T6, &'a T7, &'a T8);

    open spec fn spec_into_ref(&self) -> (&'a T0, &'a T1, &'a T2, &'a T3, &'a T4, &'a T5, &'a T6,
        &'a T7, &'a T8) {
        (&self.0, &self.1, &self.2, &self.3, &self.4, &self.5, &self.6, &self.7, &self.8)
    }

    fn into_ref(&'a self) -> (r: (&'a T0, &'a T1, &'a T2, &'a T3, &'a T4, &'a T5, &'a T6, &'a T7,
        &'a T8)) {
        (&self.0, &self.1, &self.2, &self.3, &self.4, &self.5, &self.6, &self.7, &self.8)
    }

    proof fn lemma_ref_len() {
    }
}

impl<'a, T0: 'a, T1: 'a, T2: 'a, T3: 'a, T4: 'a, T5: 'a, T6: 'a, T7: 'a, T8: 'a,
    T9: 'a> TypedRef<'a>
    for (T0, T1, T2, T3, T4, T5, T6, T7, T8, T9)
{
    type Output = (&'a T0, &'a T1, &'a T2, &'a T3, &'a T4, &'a T5, &'a T6, &'a T7, &'a T8, &'a T9);

    open spec fn spec_into_ref(&self) -> (&'a T0, &'a T1, &'a T2, &'a T3, &'a T4, &'a T5, &'a T6,
        &'a T7, &'a T8, &'a T9) {
        (&self.0, &self.1, &self.2, &self.3, &self.4, &self.5, &self.6, &self.7, &self.8, &self.9)
    }

    fn into_ref(&'a self) -> (r: (&'a T0, &'a T1, &'a T2, &'a T3, &'a T4, &'a T5, &'a T6, &'a T7,
        &'a T8, &'a T9)) {
        (&self.0, &self.1, &self.2, &self.3, &self.4, &self.5, &self.6, &self.7, &self.8, &self.9)
    }

    proof fn lemma_ref_len() {
    }
}

impl<'a, T0: 'a, T1: 'a, T2: 'a, T3: 'a, T4: 'a, T5: 'a, T6: 'a, T7: 'a, T8: 'a, T9: 'a,
    T10: 'a> TypedRef<'a>
    for (T0, T1, T2, T3, T4, T5, T6, T7, T8, T9, T10)
{
    type Output = (&'a T0, &'a T1, &'a T2, &'a T3, &'a T4, &'a T5, &'a T6, &'a T7, &'a T8, &'a T9,
        &'a T10);

    open spec fn spec_into_ref(&self) -> (&'a T0, &'a T1, &'a T2, &'a T3, &'a T4, &'a T5, &'a T6,
        &'a T7, &'a T8, &'a T9, &'a T10) {
        (&self.0, &self.1, &self.2, &self.3, &self.4, &self.5, &self.6, &self.7, &self.8, &self.9,
            &self.10)
    }

    fn into_ref(&'a self) -> (r: (&'a T0, &'a T1, &'a T2, &'a T3, &'a T4, &'a T5, &'a T6, &'a T7,
        &'a T8, &'a T9, &'a T10)) {
        (&self.0, &self.1, &self.2, &self.3, &self.4, &self.5, &self.6, &self.7, &self.8, &self.9,
            &self.10)
    }

    proof fn lemma_ref_len() {
    }
}

impl<'a, T0: 'a, T1: 'a, T2: 'a, T3: 'a, T4: 'a, T5: 'a, T6: 'a, T7: 'a, T8: 'a, T9: 'a, T10: 'a,
    T11: 'a> TypedRef<'a>
    for (T0, T1, T2, T3, T4, T5, T6, T7, T8, T9, T10, T11)
{
    type Output = (&'a T0, &'a T1, &'a T2, &'a T3, &'a T4, &'a T5, &'a T6, &'a T7, &'a T8, &'a T9,
        &'a T10, &'a T11);

    open spec fn spec_into_ref(&self) -> (&'a T0, &'a T1, &'a T2, &'a T3, &'a T4, &'a T5, &'a T6,
        &'a T7, &'a T8, &'a T9, &'a T10, &'a T11) {
        (&self.0, &self.1, &self.2, &self.3, &self.4, &self.5, &self.6, &self.7, &self.8, &self.9,
            &self.10, &self.11)
    }

    fn into_ref(&'a self) -> (r: (&'a T0, &'a T1, &'a T2, &'a T3, &'a T4, &'a T5, &'a T6, &'a T7,
        &'a T8, &'a T9, &'a T10, &'a T11)) {
        (&self.0, &self.1, &self.2, &self.3, &self.4, &self.5, &self.6, &self.7, &self.8, &self.9,
            &self.10, &self.11)
    }

    proof fn lemma_ref_len() {
    }
}

impl<'a, T0: 'a> TypedMut<'a> for (T0,) {
    type Output = (&'a mut T0,);

    open spec fn spec_current(out: (&'a mut T0,)) -> (T0,) {
        (*out.0,)
    }

    fn into_mut(&'a mut self) -> (r: (&'a mut T0,))
        ensures
            *final(self) == (*final(r.0),),
    {
        (&mut self.0,)
    }

    proof fn lemma_mut_len() {
    }
}

impl<'a, T0: 'a, T1: 'a> TypedMut<'a> for (T0, T1) {
    type Output = (&'a mut T0, &'a mut T1);

    open spec fn spec_current(out: (&'a mut T0, &'a mut T1)) -> (T0, T1) {
        (*out.0, *out.1)
    }

    fn into_mut(&'a mut self) -> (r: (&'a mut T0, &'a mut T1))
        ensures
            *final(self) == (*final(r.0), *final(r.1)),
    {
        (&mut self.0, &mut self.1)
    }

    proof fn lemma_mut_len() {
    }
}

impl<'a, T0: 'a, T1: 'a, T2: 'a> TypedMut<'a> for (T0, T1, T2) {
    type Output = (&'a mut T0, &'a mut T1, &'a mut T2);

    open spec fn spec_current(out: (&'a mut T0, &'a mut T1, &'a mut T2)) -> (T0, T1, T2) {
        (*out.0, *out.1, *out.2)
    }

    fn into_mut(&'a mut self) -> (r: (&'a mut T0, &'a mut T1, &'a mut T2))
        ensures
            *final(self) == (*final(r.0), *final(r.1), *final(r.2)),
    {
        (&mut self.0, &mut self.1, &mut self.2)
    }

    proof fn lemma_mut_len() {
    }
}

impl<'a, T0: 'a, T1: 'a, T2: 'a, T3: 'a> TypedMut<'a> for (T0, T1, T2, T3) {
    type Output = (&'a mut T0, &'a mut T1, &'a mut T2, &'a mut T3);

    open spec fn spec_current(out: (&'a mut T0, &'a mut T1, &'a mut T2, &'a mut T3)) -> (T0, T1, T2,
        T3) {
        (*out.0, *out.1, *out.2, *out.3)
    }

    fn into_mut(&'a mut self) -> (r: (&'a mut T0, &'a mut T1, &'a mut T2, &'a mut T3))
        ensures
            *final(self) == (*final(r.0), *final(r.1), *final(r.2), *final(r.3)),
    {
        (&mut self.0, &mut self.1, &mut self.2, &mut self.3)
    }

    proof fn lemma_mut_len() {
    }
}

impl<'a, T0: 'a, T1: 'a, T2: 'a, T3: 'a, T4: 'a> TypedMut<'a> for (T0, T1, T2, T3, T4) {
    type Output = (&'a mut T0, &'a mut T1, &'a mut T2, &'a mut T3, &'a mut T4);

    open spec fn spec_current(out: (&'a mut T0, &'a mut T1, &'a mut T2, &'a mut T3,
        &'a mut T4)) -> (T0, T1, T2, T3, T4) {
        (*out.0, *out.1, *out.2, *out.3, *out.4)
    }

    fn into_mut(&'a mut self) -> (r: (&'a mut T0, &'a mut T1, &'a mut T2, &'a mut T3, &'a mut T4))
        ensures
            *final(self) == (*final(r.0), *final(r.1), *final(r.2), *final(r.3), *final(r.4)),
    {
        (&mut self.0, &mut self.1, &mut self.2, &mut self.3, &mut self.4)
    }

    proof fn lemma_mut_len() {
    }
}

impl<'a, T0: 'a, T1: 'a, T2: 'a, T3: 'a, T4: 'a, T5: 'a> TypedMut<'a> for (T0, T1, T2, T3, T4, T5) {
    type Output = (&'a mut T0, &'a mut T1, &'a mut T2, &'a mut T3, &'a mut T4, &'a mut T5);

    open spec fn spec_current(out: (&'a mut T0, &'a mut T1, &'a mut T2, &'a mut T3, &'a mut T4,
        &'a mut T5)) -> (T0, T1, T2, T3, T4, T5) {
        (*out.0, *out.1, *out.2, *out.3, *out.4, *out.5)
    }

    fn into_mut(&'a mut self) -> (r: (&'a mut T0, &'a mut T1, &'a mut T2, &'a mut T3, &'a mut T4,
        &'a mut T5))
        ensures
            *final(self) == (*final(r.0), *final(r.1), *final(r.2), *final(r.3), *final(r.4),
                *final(r.5)),
    {
        (&mut self.0, &mut self.1, &mut self.2, &mut self.3, &mut self.4, &mut self.5)
    }

    proof fn lemma_mut_len() {
    }
}

impl<'a, T0: 'a, T1: 'a, T2: 'a, T3: 'a, T4: 'a, T5: 'a, T6: 'a> TypedMut<'a>
    for (T0, T1, T2, T3, T4, T5, T6)
{
    type Output = (&'a mut T0, &'a mut T1, &'a mut T2, &'a mut T3, &'a mut T4, &'a mut T5,
        &'a mut T6);

    open spec fn spec_current(out: (&'a mut T0, &'a mut T1, &'a mut T2, &'a mut T3, &'a mut T4,
        &'a mut T5, &'a mut T6)) -> (T0, T1, T2, T3, T4, T5, T6) {
        (*out.0, *out.1, *out.2, *out.3, *out.4, *out.5, *out.6)
    }

    fn into_mut(&'a mut self) -> (r: (&'a mut T0, &'a mut T1, &'a mut T2, &'a mut T3, &'a mut T4,
        &'a mut T5, &'a mut T6))
        ensures
            *final(self) == (*final(r.0), *final(r.1), *final(r.2), *final(r.3), *final(r.4),
                *final(r.5), *final(r.6)),
    {
        (&mut self.0, &mut self.1, &mut self.2, &mut self.3, &mut self.4, &mut self.5, &mut self.6)
    }

    proof fn lemma_mut_len() {
    }
}

impl<'a, T0: 'a, T1: 'a, T2: 'a, T3: 'a, T4: 'a, T5: 'a, T6: 'a, T7: 'a> TypedMut<'a>
    for (T0, T1, T2, T3, T4, T5, T6, T7)
{
    type Output = (&'a mut T0, &'a mut T1, &'a mut T2, &'a mut T3, &'a mut T4, &'a mut T5,
        &'a mut T6, &'a mut T7);

    open spec fn spec_current(out: (&'a mut T0, &'a mut T1, &'a mut T2, &'a mut T3, &'a mut T4,
        &'a mut T5, &'a mut T6, &'a mut T7)) -> (T0, T1, T2, T3, T4, T5, T6, T7) {
        (*out.0, *out.1, *out.2, *out.3, *out.4, *out.5, *out.6, *out.7)
    }

    fn into_mut(&'a mut self) -> (r: (&'a mut T0, &'a mut T1, &'a mut T2, &'a mut T3, &'a mut T4,
        &'a mut T5, &'a mut T6, &'a mut T7))
        ensures
            *final(self) == (*final(r.0), *final(r.1), *final(r.2), *final(r.3), *final(r.4),
                *final(r.5), *final(r.6), *final(r.7)),
    {
        (&mut self.0, &mut self.1, &mut self.2, &mut self.3, &mut self.4, &mut self.5, &mut self.6,
            &mut self.7)
    }

    proof fn lemma_mut_len() {
    }
}

impl<'a, T0: 'a, T1: 'a, T2: 'a, T3: 'a, T4: 'a, T5: 'a, T6: 'a, T7: 'a, T8: 'a> TypedMut<'a>
    for (T0, T1, T2, T3, T4, T5, T6, T7, T8)
{
    type Output = (&'a mut T0, &'a mut T1, &'a mut T2, &'a mut T3, &'a mut T4, &'a mut T5,
        &'a mut T6, &'a mut T7, &'a mut T8);

    open spec fn spec_current(out: (&'a mut T0, &'a mut T1, &'a mut T2, &'a mut T3, &'a mut T4,
        &'a mut T5, &'a mut T6, &'a mut T7, &'a mut T8)) -> (T0, T1, T2, T3, T4, T5, T6, T7, T8) {
        (*out.0, *out.1, *out.2, *out.3, *out.4, *out.5, *out.6, *out.7, *out.8)
    }

    fn into_mut(&'a mut self) -> (r: (&'a mut T0, &'a mut T1, &'a mut T2, &'a mut T3, &'a mut T4,
        &'a mut T5, &'a mut T6, &'a mut T7, &'a mut T8))
        ensures
            *final(self) == (*final(r.0), *final(r.1), *final(r.2), *final(r.3), *final(r.4),
                *final(r.5), *final(r.6), *final(r.7), *final(r.8)),
    {
        (&mut self.0, &mut self.1, &mut self.2, &mut self.3, &mut self.4, &mut self.5, &mut self.6,
            &mut self.7, &mut self.8)
    }

    proof fn lemma_mut_len() {
    }
}

impl<'a, T0: 'a, T1: 'a, T2: 'a, T3: 'a, T4: 'a, T5: 'a, T6: 'a, T7: 'a, T8: 'a,
    T9: 'a> TypedMut<'a>
    for (T0, T1, T2, T3, T4, T5, T6, T7, T8, T9)
{
    type Output = (&'a mut T0, &'a mut T1, &'a mut T2, &'a mut T3, &'a mut T4, &'a mut T5,
        &'a mut T6, &'a mut T7, &'a mut T8, &'a mut T9);

    open spec fn spec_current(out: (&'a mut T0, &'a mut T1, &'a mut T2, &'a mut T3, &'a mut T4,
        &'a mut T5, &'a mut T6, &'a mut T7, &'a mut T8, &'a mut T9)) -> (T0, T1, T2, T3, T4, T5, T6,
        T7, T8, T9) {
        (*out.0, *out.1, *out.2, *out.3, *out.4, *out.5, *out.6, *out.7, *out.8, *out.9)
    }

    fn into_mut(&'a mut self) -> (r: (&'a mut T0, &'a mut T1, &'a mut T2, &'a mut T3, &'a mut T4,
        &'a mut T5, &'a mut T6, &'a mut T7, &'a mut T8, &'a mut T9))
        ensures
            *final(self) == (*final(r.0), *final(r.1), *final(r.2), *final(r.3), *final(r.4),
                *final(r.5), *final(r.6), *final(r.7), *final(r.8), *final(r.9)),
    {
        (&mut self.0, &mut self.1, &mut self.2, &mut self.3, &mut self.4, &mut self.5, &mut self.6,
            &mut self.7, &mut self.8, &mut self.9)
    }

    proof fn lemma_mut_len() {
    }
}

impl<'a, T0: 'a, T1: 'a, T2: 'a, T3: 'a, T4: 'a, T5: 'a, T6: 'a, T7: 'a, T8: 'a, T9: 'a,
    T10: 'a> TypedMut<'a>
    for (T0, T1, T2, T3, T4, T5, T6, T7, T8, T9, T10)
{
    type Output = (&'a mut T0, &'a mut T1, &'a mut T2, &'a mut T3, &'a mut T4, &'a mut T5,
        &'a mut T6, &'a mut T7, &'a mut T8, &'a mut T9, &'a mut T10);

    open spec fn spec_current(out: (&'a mut T0, &'a mut T1, &'a mut T2, &'a mut T3, &'a mut T4,
        &'a mut T5, &'a mut T6, &'a mut T7, &'a mut T8, &'a mut T9, &'a mut T10)) -> (T0, T1, T2,
        T3, T4, T5, T6, T7, T8, T9, T10) {
        (*out.0, *out.1, *out.2, *out.3, *out.4, *out.5, *out.6, *out.7, *out.8, *out.9, *out.10)
    }

    fn into_mut(&'a mut self) -> (r: (&'a mut T0, &'a mut T1, &'a mut T2, &'a mut T3, &'a mut T4,
        &'a mut T5, &'a mut T6, &'a mut T7, &'a mut T8, &'a mut T9, &'a mut T10))
        ensures
            *final(self) == (*final(r.0), *final(r.1), *final(r.2), *final(r.3), *final(r.4),
                *final(r.5), *final(r.6), *final(r.7), *final(r.8), *final(r.9), *final(r.10)),
    {
        (&mut self.0, &mut self.1, &mut self.2, &mut self.3, &mut self.4, &mut self.5, &mut self.6,
            &mut self.7, &mut self.8, &mut self.9, &mut self.10)
    }

    proof fn lemma_mut_len() {
    }
}

impl<'a, T0: 'a, T1: 'a, T2: 'a, T3: 'a, T4: 'a, T5: 'a, T6: 'a, T7: 'a, T8: 'a, T9: 'a, T10: 'a,
    T11: 'a> TypedMut<'a>
    for (T0, T1, T2, T3, T4, T5, T6, T7, T8, T9, T10, T11)
{
    type Output = (&'a mut T0, &'a mut T1, &'a mut T2, &'a mut T3, &'a mut T4, &'a mut T5,
        &'a mut T6, &'a mut T7, &'a mut T8, &'a mut T9, &'a mut T10, &'a mut T11);

    open spec fn spec_current(out: (&'a mut T0, &'a mut T1, &'a mut T2, &'a mut T3, &'a mut T4,
        &'a mut T5, &'a mut T6, &'a mut T7, &'a mut T8, &'a mut T9, &'a mut T10,
        &'a mut T11)) -> (T0, T1, T2, T3, T4, T5, T6, T7, T8, T9, T10, T11) {
        (*out.0, *out.1, *out.2, *out.3, *out.4, *out.5, *out.6, *out.7, *out.8, *out.9, *out.10,
            *out.11)
    }

    fn into_mut(&'a mut self) -> (r: (&'a mut T0, &'a mut T1, &'a mut T2, &'a mut T3, &'a mut T4,
        &'a mut T5, &'a mut T6, &'a mut T7, &'a mut T8, &'a mut T9, &'a mut T10, &'a mut T11))
        ensures
            *final(self) == (*final(r.0), *final(r.1), *final(r.2), *final(r.3), *final(r.4),
                *final(r.5), *final(r.6), *final(r.7), *final(r.8), *final(r.9), *final(r.10),
                *final(r.11)),
    {
        (&mut self.0, &mut self.1, &mut self.2, &mut self.3, &mut self.4, &mut self.5, &mut self.6,
            &mut self.7, &mut self.8, &mut self.9, &mut self.10, &mut self.11)
    }

    proof fn lemma_mut_len() {
    }
}

} // verus!
