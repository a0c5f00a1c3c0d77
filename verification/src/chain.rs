//! Concatenation of two sequences.
//!
//! Chaining is defined for every pair of sequences whose lengths add up to at
//! most `MAX_LENGTH`. It puts back together what a decomposition took apart.

use vstd::prelude::*;
use crate::tuple_len::TupleLen;

verus! {

/// Concatenation with another sequence on the right: `self` first, then
/// `other`.
pub trait ChainRight<Other: TupleLen>: TupleLen {
    /// The concatenated sequence.
    type Output: TupleLen;

    /// The elements of `self` followed by the elements of `other`.
    spec fn spec_chain_right(self, other: Other) -> Self::Output;

    /// Appends `other` to `self`.
    fn chain_right(self, other: Other) -> (r: Self::Output)
        ensures
            r == self.spec_chain_right(other),
    ;

    /// The lengths add up.
    proof fn lemma_chain_len()
        ensures
            Self::Output::spec_len() == Self::spec_len() + Other::spec_len(),
    ;
}

/// Concatenation with another sequence on the left: `other` first, then
/// `self`.
pub trait ChainLeft<Other: TupleLen>: TupleLen {
    /// The concatenated sequence.
    type Output: TupleLen;

    /// The elements of `other` followed by the elements of `self`.
    spec fn spec_chain_left(self, other: Other) -> Self::Output;

    /// Prepends `other` to `self`.
    fn chain_left(self, other: Other) -> (r: Self::Output)
        ensures
            r == self.spec_chain_left(other),
    ;
}

impl<A, B> ChainLeft<A> for B where A: ChainRight<B>, B: TupleLen {
    type Output = <A as ChainRight<B>>::Output;

    open spec fn spec_chain_left(self, other: A) -> <A as ChainRight<B>>::Output {
        other.spec_chain_right(self)
    }

    fn chain_left(self, other: A) -> (r: <A as ChainRight<B>>::Output) {
        other.chain_right(self)
    }
}

impl<B: TupleLen> ChainRight<B> for () {
    type Output = B;

    open spec fn spec_chain_right(self, other: B) -> B {
        other
    }

    fn chain_right(self, other: B) -> (r: B) {
        other
    }

    proof fn lemma_chain_len() {
    }
}

impl<T0> ChainRight<()> for (T0,) {
    type Output = (T0,);

    open spec fn spec_chain_right(self, other: ()) -> (T0,) {
        self
    }

    fn chain_right(self, other: ()) -> (r: (T0,)) {
        self
    }

    proof fn lemma_chain_len() {
    }
}

impl<T0, T1> ChainRight<()> for (T0, T1) {
    type Output = (T0, T1);

    open spec fn spec_chain_right(self, other: ()) -> (T0, T1) {
        self
    }

    fn chain_right(self, other: ()) -> (r: (T0, T1)) {
        self
    }

    proof fn lemma_chain_len() {
    }
}

impl<T0, T1, T2> ChainRight<()> for (T0, T1, T2) {
    type Output = (T0, T1, T2);

    open spec fn spec_chain_right(self, other: ()) -> (T0, T1, T2) {
        self
    }

    fn chain_right(self, other: ()) -> (r: (T0, T1, T2)) {
        self
    }

    proof fn lemma_chain_len() {
    }
}

impl<T0, T1, T2, T3> ChainRight<()> for (T0, T1, T2, T3) {
    type Output = (T0, T1, T2, T3);

    open spec fn spec_chain_right(self, other: ()) -> (T0, T1, T2, T3) {
        self
    }

    fn chain_right(self, other: ()) -> (r: (T0, T1, T2, T3)) {
        self
    }

    proof fn lemma_chain_len() {
    }
}

impl<T0, T1, T2, T3, T4> ChainRight<()> for (T0, T1, T2, T3, T4) {
    type Output = (T0, T1, T2, T3, T4);

    open spec fn spec_chain_right(self, other: ()) -> (T0, T1, T2, T3, T4) {
        self
    }

    fn chain_right(self, other: ()) -> (r: (T0, T1, T2, T3, T4)) {
        self
    }

    proof fn lemma_chain_len() {
    }
}

impl<T0, T1, T2, T3, T4, T5> ChainRight<()> for (T0, T1, T2, T3, T4, T5) {
    type Output = (T0, T1, T2, T3, T4, T5);

    open spec fn spec_chain_right(self, other: ()) -> (T0, T1, T2, T3, T4, T5) {
        self
    }

    fn chain_right(self, other: ()) -> (r: (T0, T1, T2, T3, T4, T5)) {
        self
    }

    proof fn lemma_chain_len() {
    }
}

impl<T0, T1, T2, T3, T4, T5, T6> ChainRight<()> for (T0, T1, T2, T3, T4, T5, T6) {
    type Output = (T0, T1, T2, T3, T4, T5, T6);

    open spec fn spec_chain_right(self, other: ()) -> (T0, T1, T2, T3, T4, T5, T6) {
        self
    }

    fn chain_right(self, other: ()) -> (r: (T0, T1, T2, T3, T4, T5, T6)) {
        self
    }

    proof fn lemma_chain_len() {
    }
}

impl<T0, T1, T2, T3, T4, T5, T6, T7> ChainRight<()> for (T0, T1, T2, T3, T4, T5, T6, T7) {
    type Output = (T0, T1, T2, T3, T4, T5, T6, T7);

    open spec fn spec_chain_right(self, other: ()) -> (T0, T1, T2, T3, T4, T5, T6, T7) {
        self
    }

    fn chain_right(self, other: ()) -> (r: (T0, T1, T2, T3, T4, T5, T6, T7)) {
        self
    }

    proof fn lemma_chain_len() {
    }
}

impl<T0, T1, T2, T3, T4, T5, T6, T7, T8> ChainRight<()> for (T0, T1, T2, T3, T4, T5, T6, T7, T8) {
    type Output = (T0, T1, T2, T3, T4, T5, T6, T7, T8);

    open spec fn spec_chain_right(self, other: ()) -> (T0, T1, T2, T3, T4, T5, T6, T7, T8) {
        self
    }

    fn chain_right(self, other: ()) -> (r: (T0, T1, T2, T3, T4, T5, T6, T7, T8)) {
        self
    }

    proof fn lemma_chain_len() {
    }
}

impl<T0, T1, T2, T3, T4, T5, T6, T7, T8, T9> ChainRight<()>
    for (T0, T1, T2, T3, T4, T5, T6, T7, T8, T9)
{
    type Output = (T0, T1, T2, T3, T4, T5, T6, T7, T8, T9);

    open spec fn spec_chain_right(self, other: ()) -> (T0, T1, T2, T3, T4, T5, T6, T7, T8, T9) {
        self
    }

    fn chain_right(self, other: ()) -> (r: (T0, T1, T2, T3, T4, T5, T6, T7, T8, T9)) {
        self
    }

    proof fn lemma_chain_len() {
    }
}

impl<T0, T1, T2, T3, T4, T5, T6, T7, T8, T9, T10> ChainRight<()>
    for (T0, T1, T2, T3, T4, T5, T6, T7, T8, T9, T10)
{
    type Output = (T0, T1, T2, T3, T4, T5, T6, T7, T8, T9, T10);

    open spec fn spec_chain_right(self, other: ()) -> (T0, T1, T2, T3, T4, T5, T6, T7, T8, T9,
        T10) {
        self
    }

    fn chain_right(self, other: ()) -> (r: (T0, T1, T2, T3, T4, T5, T6, T7, T8, T9, T10)) {
        self
    }

    proof fn lemma_chain_len() {
    }
}

impl<T0, T1, T2, T3, T4, T5, T6, T7, T8, T9, T10, T11> ChainRight<()>
    for (T0, T1, T2, T3, T4, T5, T6, T7, T8, T9, T10, T11)
{
    type Output = (T0, T1, T2, T3, T4, T5, T6, T7, T8, T9, T10, T11);

    open spec fn spec_chain_right(self, other: ()) -> (T0, T1, T2, T3, T4, T5, T6, T7, T8, T9, T10,
        T11) {
        self
    }

    fn chain_right(self, other: ()) -> (r: (T0, T1, T2, T3, T4, T5, T6, T7, T8, T9, T10, T11)) {
        self
    }

    proof fn lemma_chain_len() {
    }
}

impl<T0, T1> ChainRight<(T1,)> for (T0,) {
    type Output = (T0, T1);

    open spec fn spec_chain_right(self, other: (T1,)) -> (T0, T1) {
        (self.0, other.0)
    }

    fn chain_right(self, other: (T1,)) -> (r: (T0, T1)) {
        (self.0, other.0)
    }

    proof fn lemma_chain_len() {
    }
}

impl<T0, T1, T2> ChainRight<(T1, T2)> for (T0,) {
    type Output = (T0, T1, T2);

    open spec fn spec_chain_right(self, other: (T1, T2)) -> (T0, T1, T2) {
        (self.0, other.0, other.1)
    }

    fn chain_right(self, other: (T1, T2)) -> (r: (T0, T1, T2)) {
        (self.0, other.0, other.1)
    }

    proof fn lemma_chain_len() {
    }
}

impl<T0, T1, T2, T3> ChainRight<(T1, T2, T3)> for (T0,) {
    type Output = (T0, T1, T2, T3);

    open spec fn spec_chain_right(self, other: (T1, T2, T3)) -> (T0, T1, T2, T3) {
        (self.0, other.0, other.1, other.2)
    }

    fn chain_right(self, other: (T1, T2, T3)) -> (r: (T0, T1, T2, T3)) {
        (self.0, other.0, other.1, other.2)
    }

    proof fn lemma_chain_len() {
    }
}

impl<T0, T1, T2, T3, T4> ChainRight<(T1, T2, T3, T4)> for (T0,) {
    type Output = (T0, T1, T2, T3, T4);

    open spec fn spec_chain_right(self, other: (T1, T2, T3, T4)) -> (T0, T1, T2, T3, T4) {
        (self.0, other.0, other.1, other.2, other.3)
    }

    fn chain_right(self, other: (T1, T2, T3, T4)) -> (r: (T0, T1, T2, T3, T4)) {
        (self.0, other.0, other.1, other.2, other.3)
    }

    proof fn lemma_chain_len() {
    }
}

impl<T0, T1, T2, T3, T4, T5> ChainRight<(T1, T2, T3, T4, T5)> for (T0,) {
    type Output = (T0, T1, T2, T3, T4, T5);

    open spec fn spec_chain_right(self, other: (T1, T2, T3, T4, T5)) -> (T0, T1, T2, T3, T4, T5) {
        (self.0, other.0, other.1, other.2, other.3, other.4)
    }

    fn chain_right(self, other: (T1, T2, T3, T4, T5)) -> (r: (T0, T1, T2, T3, T4, T5)) {
        (self.0, other.0, other.1, other.2, other.3, other.4)
    }

    proof fn lemma_chain_len() {
    }
}

impl<T0, T1, T2, T3, T4, T5, T6> ChainRight<(T1, T2, T3, T4, T5, T6)> for (T0,) {
    type Output = (T0, T1, T2, T3, T4, T5, T6);

    open spec fn spec_chain_right(self, other: (T1, T2, T3, T4, T5, T6)) -> (T0, T1, T2, T3, T4, T5,
        T6) {
        (self.0, other.0, other.1, other.2, other.3, other.4, other.5)
    }

    fn chain_right(self, other: (T1, T2, T3, T4, T5, T6)) -> (r: (T0, T1, T2, T3, T4, T5, T6)) {
        (self.0, other.0, other.1, other.2, other.3, other.4, other.5)
    }

    proof fn lemma_chain_len() {
    }
}

impl<T0, T1, T2, T3, T4, T5, T6, T7> ChainRight<(T1, T2, T3, T4, T5, T6, T7)> for (T0,) {
    type Output = (T0, T1, T2, T3, T4, T5, T6, T7);

    open spec fn spec_chain_right(self, other: (T1, T2, T3, T4, T5, T6, T7)) -> (T0, T1, T2, T3, T4,
        T5, T6, T7) {
        (self.0, other.0, other.1, other.2, other.3, other.4, other.5, other.6)
    }

    fn chain_right(self, other: (T1, T2, T3, T4, T5, T6, T7)) -> (r: (T0, T1, T2, T3, T4, T5, T6,
        T7)) {
        (self.0, other.0, other.1, other.2, other.3, other.4, other.5, other.6)
    }

    proof fn lemma_chain_len() {
    }
}

impl<T0, T1, T2, T3, T4, T5, T6, T7, T8> ChainRight<(T1, T2, T3, T4, T5, T6, T7, T8)> for (T0,) {
    type Output = (T0, T1, T2, T3, T4, T5, T6, T7, T8);

    open spec fn spec_chain_right(self, other: (T1, T2, T3, T4, T5, T6, T7, T8)) -> (T0, T1, T2, T3,
        T4, T5, T6, T7, T8) {
        (self.0, other.0, other.1, other.2, other.3, other.4, other.5, other.6, other.7)
    }

    fn chain_right(self, other: (T1, T2, T3, T4, T5, T6, T7, T8)) -> (r: (T0, T1, T2, T3, T4, T5,
        T6, T7, T8)) {
        (self.0, other.0, other.1, other.2, other.3, other.4, other.5, other.6, other.7)
    }

    proof fn lemma_chain_len() {
    }
}

impl<T0, T1, T2, T3, T4, T5, T6, T7, T8, T9> ChainRight<(T1, T2, T3, T4, T5, T6, T7, T8, T9)>
    for (T0,)
{
    type Output = (T0, T1, T2, T3, T4, T5, T6, T7, T8, T9);

    open spec fn spec_chain_right(self, other: (T1, T2, T3, T4, T5, T6, T7, T8, T9)) -> (T0, T1, T2,
        T3, T4, T5, T6, T7, T8, T9) {
        (self.0, other.0, other.1, other.2, other.3, other.4, other.5, other.6, other.7, other.8)
    }

    fn chain_right(self, other: (T1, T2, T3, T4, T5, T6, T7, T8, T9)) -> (r: (T0, T1, T2, T3, T4,
        T5, T6, T7, T8, T9)) {
        (self.0, other.0, other.1, other.2, other.3, other.4, other.5, other.6, other.7, other.8)
    }

    proof fn lemma_chain_len() {
    }
}

impl<T0, T1, T2, T3, T4, T5, T6, T7, T8, T9, T10> ChainRight<(T1, T2, T3, T4, T5, T6, T7, T8, T9,
    T10)>
    for (T0,)
{
    type Output = (T0, T1, T2, T3, T4, T5, T6, T7, T8, T9, T10);

    open spec fn spec_chain_right(self, other: (T1, T2, T3, T4, T5, T6, T7, T8, T9, T10)) -> (T0,
        T1, T2, T3, T4, T5, T6, T7, T8, T9, T10) {
        (self.0, other.0, other.1, other.2, other.3, other.4, other.5, other.6, other.7, other.8,
            other.9)
    }

    fn chain_right(self, other: (T1, T2, T3, T4, T5, T6, T7, T8, T9, T10)) -> (r: (T0, T1, T2, T3,
        T4, T5, T6, T7, T8, T9, T10)) {
        (self.0, other.0, other.1, other.2, other.3, other.4, other.5, other.6, other.7, other.8,
            other.9)
    }

    proof fn lemma_chain_len() {
    }
}

impl<T0, T1, T2, T3, T4, T5, T6, T7, T8, T9, T10, T11> ChainRight<(T1, T2, T3, T4, T5, T6, T7, T8,
    T9, T10, T11)>
    for (T0,)
{
    type Output = (T0, T1, T2, T3, T4, T5, T6, T7, T8, T9, T10, T11);

    open spec fn spec_chain_right(self, other: (T1, T2, T3, T4, T5, T6, T7, T8, T9, T10,
        T11)) -> (T0, T1, T2, T3, T4, T5, T6, T7, T8, T9, T10, T11) {
        (self.0, other.0, other.1, other.2, other.3, other.4, other.5, other.6, other.7, other.8,
            other.9, other.10)
    }

    fn chain_right(self, other: (T1, T2, T3, T4, T5, T6, T7, T8, T9, T10, T11)) -> (r: (T0, T1, T2,
        T3, T4, T5, T6, T7, T8, T9, T10, T11)) {
        (self.0, other.0, other.1, other.2, other.3, other.4, other.5, other.6, other.7, other.8,
            other.9, other.10)
    }

    proof fn lemma_chain_len() {
    }
}

impl<T0, T1, T2> ChainRight<(T2,)> for (T0, T1) {
    type Output = (T0, T1, T2);

    open spec fn spec_chain_right(self, other: (T2,)) -> (T0, T1, T2) {
        (self.0, self.1, other.0)
    }

    fn chain_right(self, other: (T2,)) -> (r: (T0, T1, T2)) {
        (self.0, self.1, other.0)
    }

    proof fn lemma_chain_len() {
    }
}

impl<T0, T1, T2, T3> ChainRight<(T2, T3)> for (T0, T1) {
    type Output = (T0, T1, T2, T3);

    open spec fn spec_chain_right(self, other: (T2, T3)) -> (T0, T1, T2, T3) {
        (self.0, self.1, other.0, other.1)
    }

    fn chain_right(self, other: (T2, T3)) -> (r: (T0, T1, T2, T3)) {
        (self.0, self.1, other.0, other.1)
    }

    proof fn lemma_chain_len() {
    }
}

impl<T0, T1, T2, T3, T4> ChainRight<(T2, T3, T4)> for (T0, T1) {
    type Output = (T0, T1, T2, T3, T4);

    open spec fn spec_chain_right(self, other: (T2, T3, T4)) -> (T0, T1, T2, T3, T4) {
        (self.0, self.1, other.0, other.1, other.2)
    }

    fn chain_right(self, other: (T2, T3, T4)) -> (r: (T0, T1, T2, T3, T4)) {
        (self.0, self.1, other.0, other.1, other.2)
    }

    proof fn lemma_chain_len() {
    }
}

impl<T0, T1, T2, T3, T4, T5> ChainRight<(T2, T3, T4, T5)> for (T0, T1) {
    type Output = (T0, T1, T2, T3, T4, T5);

    open spec fn spec_chain_right(self, other: (T2, T3, T4, T5)) -> (T0, T1, T2, T3, T4, T5) {
        (self.0, self.1, other.0, other.1, other.2, other.3)
    }

    fn chain_right(self, other: (T2, T3, T4, T5)) -> (r: (T0, T1, T2, T3, T4, T5)) {
        (self.0, self.1, other.0, other.1, other.2, other.3)
    }

    proof fn lemma_chain_len() {
    }
}

impl<T0, T1, T2, T3, T4, T5, T6> ChainRight<(T2, T3, T4, T5, T6)> for (T0, T1) {
    type Output = (T0, T1, T2, T3, T4, T5, T6);

    open spec fn spec_chain_right(self, other: (T2, T3, T4, T5, T6)) -> (T0, T1, T2, T3, T4, T5,
        T6) {
        (self.0, self.1, other.0, other.1, other.2, other.3, other.4)
    }

    fn chain_right(self, other: (T2, T3, T4, T5, T6)) -> (r: (T0, T1, T2, T3, T4, T5, T6)) {
        (self.0, self.1, other.0, other.1, other.2, other.3, other.4)
    }

    proof fn lemma_chain_len() {
    }
}

impl<T0, T1, T2, T3, T4, T5, T6, T7> ChainRight<(T2, T3, T4, T5, T6, T7)> for (T0, T1) {
    type Output = (T0, T1, T2, T3, T4, T5, T6, T7);

    open spec fn spec_chain_right(self, other: (T2, T3, T4, T5, T6, T7)) -> (T0, T1, T2, T3, T4, T5,
        T6, T7) {
        (self.0, self.1, other.0, other.1, other.2, other.3, other.4, other.5)
    }

    fn chain_right(self, other: (T2, T3, T4, T5, T6, T7)) -> (r: (T0, T1, T2, T3, T4, T5, T6, T7)) {
        (self.0, self.1, other.0, other.1, other.2, other.3, other.4, other.5)
    }

    proof fn lemma_chain_len() {
    }
}

impl<T0, T1, T2, T3, T4, T5, T6, T7, T8> ChainRight<(T2, T3, T4, T5, T6, T7, T8)> for (T0, T1) {
    type Output = (T0, T1, T2, T3, T4, T5, T6, T7, T8);

    open spec fn spec_chain_right(self, other: (T2, T3, T4, T5, T6, T7, T8)) -> (T0, T1, T2, T3, T4,
        T5, T6, T7, T8) {
        (self.0, self.1, other.0, other.1, other.2, other.3, other.4, other.5, other.6)
    }

    fn chain_right(self, other: (T2, T3, T4, T5, T6, T7, T8)) -> (r: (T0, T1, T2, T3, T4, T5, T6,
        T7, T8)) {
        (self.0, self.1, other.0, other.1, other.2, other.3, other.4, other.5, other.6)
    }

    proof fn lemma_chain_len() {
    }
}

impl<T0, T1, T2, T3, T4, T5, T6, T7, T8, T9> ChainRight<(T2, T3, T4, T5, T6, T7, T8, T9)>
    for (T0, T1)
{
    type Output = (T0, T1, T2, T3, T4, T5, T6, T7, T8, T9);

    open spec fn spec_chain_right(self, other: (T2, T3, T4, T5, T6, T7, T8, T9)) -> (T0, T1, T2, T3,
        T4, T5, T6, T7, T8, T9) {
        (self.0, self.1, other.0, other.1, other.2, other.3, other.4, other.5, other.6, other.7)
    }

    fn chain_right(self, other: (T2, T3, T4, T5, T6, T7, T8, T9)) -> (r: (T0, T1, T2, T3, T4, T5,
        T6, T7, T8, T9)) {
        (self.0, self.1, other.0, other.1, other.2, other.3, other.4, other.5, other.6, other.7)
    }

    proof fn lemma_chain_len() {
    }
}

impl<T0, T1, T2, T3, T4, T5, T6, T7, T8, T9, T10> ChainRight<(T2, T3, T4, T5, T6, T7, T8, T9, T10)>
    for (T0, T1)
{
    type Output = (T0, T1, T2, T3, T4, T5, T6, T7, T8, T9, T10);

    open spec fn spec_chain_right(self, other: (T2, T3, T4, T5, T6, T7, T8, T9, T10)) -> (T0, T1,
        T2, T3, T4, T5, T6, T7, T8, T9, T10) {
        (self.0, self.1, other.0, other.1, other.2, other.3, other.4, other.5, other.6, other.7,
            other.8)
    }

    fn chain_right(self, other: (T2, T3, T4, T5, T6, T7, T8, T9, T10)) -> (r: (T0, T1, T2, T3, T4,
        T5, T6, T7, T8, T9, T10)) {
        (self.0, self.1, other.0, other.1, other.2, other.3, other.4, other.5, other.6, other.7,
            other.8)
    }

    proof fn lemma_chain_len() {
    }
}

impl<T0, T1, T2, T3, T4, T5, T6, T7, T8, T9, T10, T11> ChainRight<(T2, T3, T4, T5, T6, T7, T8, T9,
    T10, T11)>
    for (T0, T1)
{
    type Output = (T0, T1, T2, T3, T4, T5, T6, T7, T8, T9, T10, T11);

    open spec fn spec_chain_right(self, other: (T2, T3, T4, T5, T6, T7, T8, T9, T10, T11)) -> (T0,
        T1, T2, T3, T4, T5, T6, T7, T8, T9, T10, T11) {
        (self.0, self.1, other.0, other.1, other.2, other.3, other.4, other.5, other.6, other.7,
            other.8, other.9)
    }

    fn chain_right(self, other: (T2, T3, T4, T5, T6, T7, T8, T9, T10, T11)) -> (r: (T0, T1, T2, T3,
        T4, T5, T6, T7, T8, T9, T10, T11)) {
        (self.0, self.1, other.0, other.1, other.2, other.3, other.4, other.5, other.6, other.7,
            other.8, other.9)
    }

    proof fn lemma_chain_len() {
    }
}

impl<T0, T1, T2, T3> ChainRight<(T3,)> for (T0, T1, T2) {
    type Output = (T0, T1, T2, T3);

    open spec fn spec_chain_right(self, other: (T3,)) -> (T0, T1, T2, T3) {
        (self.0, self.1, self.2, other.0)
    }

    fn chain_right(self, other: (T3,)) -> (r: (T0, T1, T2, T3)) {
        (self.0, self.1, self.2, other.0)
    }

    proof fn lemma_chain_len() {
    }
}

impl<T0, T1, T2, T3, T4> ChainRight<(T3, T4)> for (T0, T1, T2) {
    type Output = (T0, T1, T2, T3, T4);

    open spec fn spec_chain_right(self, other: (T3, T4)) -> (T0, T1, T2, T3, T4) {
        (self.0, self.1, self.2, other.0, other.1)
    }

    fn chain_right(self, other: (T3, T4)) -> (r: (T0, T1, T2, T3, T4)) {
        (self.0, self.1, self.2, other.0, other.1)
    }

    proof fn lemma_chain_len() {
    }
}

impl<T0, T1, T2, T3, T4, T5> ChainRight<(T3, T4, T5)> for (T0, T1, T2) {
    type Output = (T0, T1, T2, T3, T4, T5);

    open spec fn spec_chain_right(self, other: (T3, T4, T5)) -> (T0, T1, T2, T3, T4, T5) {
        (self.0, self.1, self.2, other.0, other.1, other.2)
    }

    fn chain_right(self, other: (T3, T4, T5)) -> (r: (T0, T1, T2, T3, T4, T5)) {
        (self.0, self.1, self.2, other.0, other.1, other.2)
    }

    proof fn lemma_chain_len() {
    }
}

impl<T0, T1, T2, T3, T4, T5, T6> ChainRight<(T3, T4, T5, T6)> for (T0, T1, T2) {
    type Output = (T0, T1, T2, T3, T4, T5, T6);

    open spec fn spec_chain_right(self, other: (T3, T4, T5, T6)) -> (T0, T1, T2, T3, T4, T5, T6) {
        (self.0, self.1, self.2, other.0, other.1, other.2, other.3)
    }

    fn chain_right(self, other: (T3, T4, T5, T6)) -> (r: (T0, T1, T2, T3, T4, T5, T6)) {
        (self.0, self.1, self.2, other.0, other.1, other.2, other.3)
    }

    proof fn lemma_chain_len() {
    }
}

impl<T0, T1, T2, T3, T4, T5, T6, T7> ChainRight<(T3, T4, T5, T6, T7)> for (T0, T1, T2) {
    type Output = (T0, T1, T2, T3, T4, T5, T6, T7);

    open spec fn spec_chain_right(self, other: (T3, T4, T5, T6, T7)) -> (T0, T1, T2, T3, T4, T5, T6,
        T7) {
        (self.0, self.1, self.2, other.0, other.1, other.2, other.3, other.4)
    }

    fn chain_right(self, other: (T3, T4, T5, T6, T7)) -> (r: (T0, T1, T2, T3, T4, T5, T6, T7)) {
        (self.0, self.1, self.2, other.0, other.1, other.2, other.3, other.4)
    }

    proof fn lemma_chain_len() {
    }
}

impl<T0, T1, T2, T3, T4, T5, T6, T7, T8> ChainRight<(T3, T4, T5, T6, T7, T8)> for (T0, T1, T2) {
    type Output = (T0, T1, T2, T3, T4, T5, T6, T7, T8);

    open spec fn spec_chain_right(self, other: (T3, T4, T5, T6, T7, T8)) -> (T0, T1, T2, T3, T4, T5,
        T6, T7, T8) {
        (self.0, self.1, self.2, other.0, other.1, other.2, other.3, other.4, other.5)
    }

    fn chain_right(self, other: (T3, T4, T5, T6, T7, T8)) -> (r: (T0, T1, T2, T3, T4, T5, T6, T7,
        T8)) {
        (self.0, self.1, self.2, other.0, other.1, other.2, other.3, other.4, other.5)
    }

    proof fn lemma_chain_len() {
    }
}

impl<T0, T1, T2, T3, T4, T5, T6, T7, T8, T9> ChainRight<(T3, T4, T5, T6, T7, T8, T9)>
    for (T0, T1, T2)
{
    type Output = (T0, T1, T2, T3, T4, T5, T6, T7, T8, T9);

    open spec fn spec_chain_right(self, other: (T3, T4, T5, T6, T7, T8, T9)) -> (T0, T1, T2, T3, T4,
        T5, T6, T7, T8, T9) {
        (self.0, self.1, self.2, other.0, other.1, other.2, other.3, other.4, other.5, other.6)
    }

    fn chain_right(self, other: (T3, T4, T5, T6, T7, T8, T9)) -> (r: (T0, T1, T2, T3, T4, T5, T6,
        T7, T8, T9)) {
        (self.0, self.1, self.2, other.0, other.1, other.2, other.3, other.4, other.5, other.6)
    }

    proof fn lemma_chain_len() {
    }
}

impl<T0, T1, T2, T3, T4, T5, T6, T7, T8, T9, T10> ChainRight<(T3, T4, T5, T6, T7, T8, T9, T10)>
    for (T0, T1, T2)
{
    type Output = (T0, T1, T2, T3, T4, T5, T6, T7, T8, T9, T10);

    open spec fn spec_chain_right(self, other: (T3, T4, T5, T6, T7, T8, T9, T10)) -> (T0, T1, T2,
        T3, T4, T5, T6, T7, T8, T9, T10) {
        (self.0, self.1, self.2, other.0, other.1, other.2, other.3, other.4, other.5, other.6,
            other.7)
    }

    fn chain_right(self, other: (T3, T4, T5, T6, T7, T8, T9, T10)) -> (r: (T0, T1, T2, T3, T4, T5,
        T6, T7, T8, T9, T10)) {
        (self.0, self.1, self.2, other.0, other.1, other.2, other.3, other.4, other.5, other.6,
            other.7)
    }

    proof fn lemma_chain_len() {
    }
}

impl<T0, T1, T2, T3, T4, T5, T6, T7, T8, T9, T10, T11> ChainRight<(T3, T4, T5, T6, T7, T8, T9, T10,
    T11)>
    for (T0, T1, T2)
{
    type Output = (T0, T1, T2, T3, T4, T5, T6, T7, T8, T9, T10, T11);

    open spec fn spec_chain_right(self, other: (T3, T4, T5, T6, T7, T8, T9, T10, T11)) -> (T0, T1,
        T2, T3, T4, T5, T6, T7, T8, T9, T10, T11) {
        (self.0, self.1, self.2, other.0, other.1, other.2, other.3, other.4, other.5, other.6,
            other.7, other.8)
    }

    fn chain_right(self, other: (T3, T4, T5, T6, T7, T8, T9, T10, T11)) -> (r: (T0, T1, T2, T3, T4,
        T5, T6, T7, T8, T9, T10, T11)) {
        (self.0, self.1, self.2, other.0, other.1, other.2, other.3, other.4, other.5, other.6,
            other.7, other.8)
    }

    proof fn lemma_chain_len() {
    }
}

impl<T0, T1, T2, T3, T4> ChainRight<(T4,)> for (T0, T1, T2, T3) {
    type Output = (T0, T1, T2, T3, T4);

    open spec fn spec_chain_right(self, other: (T4,)) -> (T0, T1, T2, T3, T4) {
        (self.0, self.1, self.2, self.3, other.0)
    }

    fn chain_right(self, other: (T4,)) -> (r: (T0, T1, T2, T3, T4)) {
        (self.0, self.1, self.2, self.3, other.0)
    }

    proof fn lemma_chain_len() {
    }
}

impl<T0, T1, T2, T3, T4, T5> ChainRight<(T4, T5)> for (T0, T1, T2, T3) {
    type Output = (T0, T1, T2, T3, T4, T5);

    open spec fn spec_chain_right(self, other: (T4, T5)) -> (T0, T1, T2, T3, T4, T5) {
        (self.0, self.1, self.2, self.3, other.0, other.1)
    }

    fn chain_right(self, other: (T4, T5)) -> (r: (T0, T1, T2, T3, T4, T5)) {
        (self.0, self.1, self.2, self.3, other.0, other.1)
    }

    proof fn lemma_chain_len() {
    }
}

impl<T0, T1, T2, T3, T4, T5, T6> ChainRight<(T4, T5, T6)> for (T0, T1, T2, T3) {
    type Output = (T0, T1, T2, T3, T4, T5, T6);

    open spec fn spec_chain_right(self, other: (T4, T5, T6)) -> (T0, T1, T2, T3, T4, T5, T6) {
        (self.0, self.1, self.2, self.3, other.0, other.1, other.2)
    }

    fn chain_right(self, other: (T4, T5, T6)) -> (r: (T0, T1, T2, T3, T4, T5, T6)) {
        (self.0, self.1, self.2, self.3, other.0, other.1, other.2)
    }

    proof fn lemma_chain_len() {
    }
}

impl<T0, T1, T2, T3, T4, T5, T6, T7> ChainRight<(T4, T5, T6, T7)> for (T0, T1, T2, T3) {
    type Output = (T0, T1, T2, T3, T4, T5, T6, T7);

    open spec fn spec_chain_right(self, other: (T4, T5, T6, T7)) -> (T0, T1, T2, T3, T4, T5, T6,
        T7) {
        (self.0, self.1, self.2, self.3, other.0, other.1, other.2, other.3)
    }

    fn chain_right(self, other: (T4, T5, T6, T7)) -> (r: (T0, T1, T2, T3, T4, T5, T6, T7)) {
        (self.0, self.1, self.2, self.3, other.0, other.1, other.2, other.3)
    }

    proof fn lemma_chain_len() {
    }
}

impl<T0, T1, T2, T3, T4, T5, T6, T7, T8> ChainRight<(T4, T5, T6, T7, T8)> for (T0, T1, T2, T3) {
    type Output = (T0, T1, T2, T3, T4, T5, T6, T7, T8);

    open spec fn spec_chain_right(self, other: (T4, T5, T6, T7, T8)) -> (T0, T1, T2, T3, T4, T5, T6,
        T7, T8) {
        (self.0, self.1, self.2, self.3, other.0, other.1, other.2, other.3, other.4)
    }

    fn chain_right(self, other: (T4, T5, T6, T7, T8)) -> (r: (T0, T1, T2, T3, T4, T5, T6, T7, T8)) {
        (self.0, self.1, self.2, self.3, other.0, other.1, other.2, other.3, other.4)
    }

    proof fn lemma_chain_len() {
    }
}

impl<T0, T1, T2, T3, T4, T5, T6, T7, T8, T9> ChainRight<(T4, T5, T6, T7, T8, T9)>
    for (T0, T1, T2, T3)
{
    type Output = (T0, T1, T2, T3, T4, T5, T6, T7, T8, T9);

    open spec fn spec_chain_right(self, other: (T4, T5, T6, T7, T8, T9)) -> (T0, T1, T2, T3, T4, T5,
        T6, T7, T8, T9) {
        (self.0, self.1, self.2, self.3, other.0, other.1, other.2, other.3, other.4, other.5)
    }

    fn chain_right(self, other: (T4, T5, T6, T7, T8, T9)) -> (r: (T0, T1, T2, T3, T4, T5, T6, T7,
        T8, T9)) {
        (self.0, self.1, self.2, self.3, other.0, other.1, other.2, other.3, other.4, other.5)
    }

    proof fn lemma_chain_len() {
    }
}

impl<T0, T1, T2, T3, T4, T5, T6, T7, T8, T9, T10> ChainRight<(T4, T5, T6, T7, T8, T9, T10)>
    for (T0, T1, T2, T3)
{
    type Output = (T0, T1, T2, T3, T4, T5, T6, T7, T8, T9, T10);

    open spec fn spec_chain_right(self, other: (T4, T5, T6, T7, T8, T9, T10)) -> (T0, T1, T2, T3,
        T4, T5, T6, T7, T8, T9, T10) {
        (self.0, self.1, self.2, self.3, other.0, other.1, other.2, other.3, other.4, other.5,
            other.6)
    }

    fn chain_right(self, other: (T4, T5, T6, T7, T8, T9, T10)) -> (r: (T0, T1, T2, T3, T4, T5, T6,
        T7, T8, T9, T10)) {
        (self.0, self.1, self.2, self.3, other.0, other.1, other.2, other.3, other.4, other.5,
            other.6)
    }

    proof fn lemma_chain_len() {
    }
}

impl<T0, T1, T2, T3, T4, T5, T6, T7, T8, T9, T10, T11> ChainRight<(T4, T5, T6, T7, T8, T9, T10,
    T11)>
    for (T0, T1, T2, T3)
{
    type Output = (T0, T1, T2, T3, T4, T5, T6, T7, T8, T9, T10, T11);

    open spec fn spec_chain_right(self, other: (T4, T5, T6, T7, T8, T9, T10, T11)) -> (T0, T1, T2,
        T3, T4, T5, T6, T7, T8, T9, T10, T11) {
        (self.0, self.1, self.2, self.3, other.0, other.1, other.2, other.3, other.4, other.5,
            other.6, other.7)
    }

    fn chain_right(self, other: (T4, T5, T6, T7, T8, T9, T10, T11)) -> (r: (T0, T1, T2, T3, T4, T5,
        T6, T7, T8, T9, T10, T11)) {
        (self.0, self.1, self.2, self.3, other.0, other.1, other.2, other.3, other.4, other.5,
            other.6, other.7)
    }

    proof fn lemma_chain_len() {
    }
}

impl<T0, T1, T2, T3, T4, T5> ChainRight<(T5,)> for (T0, T1, T2, T3, T4) {
    type Output = (T0, T1, T2, T3, T4, T5);

    open spec fn spec_chain_right(self, other: (T5,)) -> (T0, T1, T2, T3, T4, T5) {
        (self.0, self.1, self.2, self.3, self.4, other.0)
    }

    fn chain_right(self, other: (T5,)) -> (r: (T0, T1, T2, T3, T4, T5)) {
        (self.0, self.1, self.2, self.3, self.4, other.0)
    }

    proof fn lemma_chain_len() {
    }
}

impl<T0, T1, T2, T3, T4, T5, T6> ChainRight<(T5, T6)> for (T0, T1, T2, T3, T4) {
    type Output = (T0, T1, T2, T3, T4, T5, T6);

    open spec fn spec_chain_right(self, other: (T5, T6)) -> (T0, T1, T2, T3, T4, T5, T6) {
        (self.0, self.1, self.2, self.3, self.4, other.0, other.1)
    }

    fn chain_right(self, other: (T5, T6)) -> (r: (T0, T1, T2, T3, T4, T5, T6)) {
        (self.0, self.1, self.2, self.3, self.4, other.0, other.1)
    }

    proof fn lemma_chain_len() {
    }
}

impl<T0, T1, T2, T3, T4, T5, T6, T7> ChainRight<(T5, T6, T7)> for (T0, T1, T2, T3, T4) {
    type Output = (T0, T1, T2, T3, T4, T5, T6, T7);

    open spec fn spec_chain_right(self, other: (T5, T6, T7)) -> (T0, T1, T2, T3, T4, T5, T6, T7) {
        (self.0, self.1, self.2, self.3, self.4, other.0, other.1, other.2)
    }

    fn chain_right(self, other: (T5, T6, T7)) -> (r: (T0, T1, T2, T3, T4, T5, T6, T7)) {
        (self.0, self.1, self.2, self.3, self.4, other.0, other.1, other.2)
    }

    proof fn lemma_chain_len() {
    }
}

impl<T0, T1, T2, T3, T4, T5, T6, T7, T8> ChainRight<(T5, T6, T7, T8)> for (T0, T1, T2, T3, T4) {
    type Output = (T0, T1, T2, T3, T4, T5, T6, T7, T8);

    open spec fn spec_chain_right(self, other: (T5, T6, T7, T8)) -> (T0, T1, T2, T3, T4, T5, T6, T7,
        T8) {
        (self.0, self.1, self.2, self.3, self.4, other.0, other.1, other.2, other.3)
    }

    fn chain_right(self, other: (T5, T6, T7, T8)) -> (r: (T0, T1, T2, T3, T4, T5, T6, T7, T8)) {
        (self.0, self.1, self.2, self.3, self.4, other.0, other.1, other.2, other.3)
    }

    proof fn lemma_chain_len() {
    }
}

impl<T0, T1, T2, T3, T4, T5, T6, T7, T8, T9> ChainRight<(T5, T6, T7, T8, T9)>
    for (T0, T1, T2, T3, T4)
{
    type Output = (T0, T1, T2, T3, T4, T5, T6, T7, T8, T9);

    open spec fn spec_chain_right(self, other: (T5, T6, T7, T8, T9)) -> (T0, T1, T2, T3, T4, T5, T6,
        T7, T8, T9) {
        (self.0, self.1, self.2, self.3, self.4, other.0, other.1, other.2, other.3, other.4)
    }

    fn chain_right(self, other: (T5, T6, T7, T8, T9)) -> (r: (T0, T1, T2, T3, T4, T5, T6, T7, T8,
        T9)) {
        (self.0, self.1, self.2, self.3, self.4, other.0, other.1, other.2, other.3, other.4)
    }

    proof fn lemma_chain_len() {
    }
}

impl<T0, T1, T2, T3, T4, T5, T6, T7, T8, T9, T10> ChainRight<(T5, T6, T7, T8, T9, T10)>
    for (T0, T1, T2, T3, T4)
{
    type Output = (T0, T1, T2, T3, T4, T5, T6, T7, T8, T9, T10);

    open spec fn spec_chain_right(self, other: (T5, T6, T7, T8, T9, T10)) -> (T0, T1, T2, T3, T4,
        T5, T6, T7, T8, T9, T10) {
        (self.0, self.1, self.2, self.3, self.4, other.0, other.1, other.2, other.3, other.4,
            other.5)
    }

    fn chain_right(self, other: (T5, T6, T7, T8, T9, T10)) -> (r: (T0, T1, T2, T3, T4, T5, T6, T7,
        T8, T9, T10)) {
        (self.0, self.1, self.2, self.3, self.4, other.0, other.1, other.2, other.3, other.4,
            other.5)
    }

    proof fn lemma_chain_len() {
    }
}

impl<T0, T1, T2, T3, T4, T5, T6, T7, T8, T9, T10, T11> ChainRight<(T5, T6, T7, T8, T9, T10, T11)>
    for (T0, T1, T2, T3, T4)
{
    type Output = (T0, T1, T2, T3, T4, T5, T6, T7, T8, T9, T10, T11);

    open spec fn spec_chain_right(self, other: (T5, T6, T7, T8, T9, T10, T11)) -> (T0, T1, T2, T3,
        T4, T5, T6, T7, T8, T9, T10, T11) {
        (self.0, self.1, self.2, self.3, self.4, other.0, other.1, other.2, other.3, other.4,
            other.5, other.6)
    }

    fn chain_right(self, other: (T5, T6, T7, T8, T9, T10, T11)) -> (r: (T0, T1, T2, T3, T4, T5, T6,
        T7, T8, T9, T10, T11)) {
        (self.0, self.1, self.2, self.3, self.4, other.0, other.1, other.2, other.3, other.4,
            other.5, other.6)
    }

    proof fn lemma_chain_len() {
    }
}

impl<T0, T1, T2, T3, T4, T5, T6> ChainRight<(T6,)> for (T0, T1, T2, T3, T4, T5) {
    type Output = (T0, T1, T2, T3, T4, T5, T6);

    open spec fn spec_chain_right(self, other: (T6,)) -> (T0, T1, T2, T3, T4, T5, T6) {
        (self.0, self.1, self.2, self.3, self.4, self.5, other.0)
    }

    fn chain_right(self, other: (T6,)) -> (r: (T0, T1, T2, T3, T4, T5, T6)) {
        (self.0, self.1, self.2, self.3, self.4, self.5, other.0)
    }

    proof fn lemma_chain_len() {
    }
}

impl<T0, T1, T2, T3, T4, T5, T6, T7> ChainRight<(T6, T7)> for (T0, T1, T2, T3, T4, T5) {
    type Output = (T0, T1, T2, T3, T4, T5, T6, T7);

    open spec fn spec_chain_right(self, other: (T6, T7)) -> (T0, T1, T2, T3, T4, T5, T6, T7) {
        (self.0, self.1, self.2, self.3, self.4, self.5, other.0, other.1)
    }

    fn chain_right(self, other: (T6, T7)) -> (r: (T0, T1, T2, T3, T4, T5, T6, T7)) {
        (self.0, self.1, self.2, self.3, self.4, self.5, other.0, other.1)
    }

    proof fn lemma_chain_len() {
    }
}

impl<T0, T1, T2, T3, T4, T5, T6, T7, T8> ChainRight<(T6, T7, T8)> for (T0, T1, T2, T3, T4, T5) {
    type Output = (T0, T1, T2, T3, T4, T5, T6, T7, T8);

    open spec fn spec_chain_right(self, other: (T6, T7, T8)) -> (T0, T1, T2, T3, T4, T5, T6, T7,
        T8) {
        (self.0, self.1, self.2, self.3, self.4, self.5, other.0, other.1, other.2)
    }

    fn chain_right(self, other: (T6, T7, T8)) -> (r: (T0, T1, T2, T3, T4, T5, T6, T7, T8)) {
        (self.0, self.1, self.2, self.3, self.4, self.5, other.0, other.1, other.2)
    }

    proof fn lemma_chain_len() {
    }
}

impl<T0, T1, T2, T3, T4, T5, T6, T7, T8, T9> ChainRight<(T6, T7, T8, T9)>
    for (T0, T1, T2, T3, T4, T5)
{
    type Output = (T0, T1, T2, T3, T4, T5, T6, T7, T8, T9);

    open spec fn spec_chain_right(self, other: (T6, T7, T8, T9)) -> (T0, T1, T2, T3, T4, T5, T6, T7,
        T8, T9) {
        (self.0, self.1, self.2, self.3, self.4, self.5, other.0, other.1, other.2, other.3)
    }

    fn chain_right(self, other: (T6, T7, T8, T9)) -> (r: (T0, T1, T2, T3, T4, T5, T6, T7, T8, T9)) {
        (self.0, self.1, self.2, self.3, self.4, self.5, other.0, other.1, other.2, other.3)
    }

    proof fn lemma_chain_len() {
    }
}

impl<T0, T1, T2, T3, T4, T5, T6, T7, T8, T9, T10> ChainRight<(T6, T7, T8, T9, T10)>
    for (T0, T1, T2, T3, T4, T5)
{
    type Output = (T0, T1, T2, T3, T4, T5, T6, T7, T8, T9, T10);

    open spec fn spec_chain_right(self, other: (T6, T7, T8, T9, T10)) -> (T0, T1, T2, T3, T4, T5,
        T6, T7, T8, T9, T10) {
        (self.0, self.1, self.2, self.3, self.4, self.5, other.0, other.1, other.2, other.3,
            other.4)
    }

    fn chain_right(self, other: (T6, T7, T8, T9, T10)) -> (r: (T0, T1, T2, T3, T4, T5, T6, T7, T8,
        T9, T10)) {
        (self.0, self.1, self.2, self.3, self.4, self.5, other.0, other.1, other.2, other.3,
            other.4)
    }

    proof fn lemma_chain_len() {
    }
}

impl<T0, T1, T2, T3, T4, T5, T6, T7, T8, T9, T10, T11> ChainRight<(T6, T7, T8, T9, T10, T11)>
    for (T0, T1, T2, T3, T4, T5)
{
    type Output = (T0, T1, T2, T3, T4, T5, T6, T7, T8, T9, T10, T11);

    open spec fn spec_chain_right(self, other: (T6, T7, T8, T9, T10, T11)) -> (T0, T1, T2, T3, T4,
        T5, T6, T7, T8, T9, T10, T11) {
        (self.0, self.1, self.2, self.3, self.4, self.5, other.0, other.1, other.2, other.3,
            other.4, other.5)
    }

    fn chain_right(self, other: (T6, T7, T8, T9, T10, T11)) -> (r: (T0, T1, T2, T3, T4, T5, T6, T7,
        T8, T9, T10, T11)) {
        (self.0, self.1, self.2, self.3, self.4, self.5, other.0, other.1, other.2, other.3,
            other.4, other.5)
    }

    proof fn lemma_chain_len() {
    }
}

impl<T0, T1, T2, T3, T4, T5, T6, T7> ChainRight<(T7,)> for (T0, T1, T2, T3, T4, T5, T6) {
    type Output = (T0, T1, T2, T3, T4, T5, T6, T7);

    open spec fn spec_chain_right(self, other: (T7,)) -> (T0, T1, T2, T3, T4, T5, T6, T7) {
        (self.0, self.1, self.2, self.3, self.4, self.5, self.6, other.0)
    }

    fn chain_right(self, other: (T7,)) -> (r: (T0, T1, T2, T3, T4, T5, T6, T7)) {
        (self.0, self.1, self.2, self.3, self.4, self.5, self.6, other.0)
    }

    proof fn lemma_chain_len() {
    }
}

impl<T0, T1, T2, T3, T4, T5, T6, T7, T8> ChainRight<(T7, T8)> for (T0, T1, T2, T3, T4, T5, T6) {
    type Output = (T0, T1, T2, T3, T4, T5, T6, T7, T8);

    open spec fn spec_chain_right(self, other: (T7, T8)) -> (T0, T1, T2, T3, T4, T5, T6, T7, T8) {
        (self.0, self.1, self.2, self.3, self.4, self.5, self.6, other.0, other.1)
    }

    fn chain_right(self, other: (T7, T8)) -> (r: (T0, T1, T2, T3, T4, T5, T6, T7, T8)) {
        (self.0, self.1, self.2, self.3, self.4, self.5, self.6, other.0, other.1)
    }

    proof fn lemma_chain_len() {
    }
}

impl<T0, T1, T2, T3, T4, T5, T6, T7, T8, T9> ChainRight<(T7, T8, T9)>
    for (T0, T1, T2, T3, T4, T5, T6)
{
    type Output = (T0, T1, T2, T3, T4, T5, T6, T7, T8, T9);

    open spec fn spec_chain_right(self, other: (T7, T8, T9)) -> (T0, T1, T2, T3, T4, T5, T6, T7, T8,
        T9) {
        (self.0, self.1, self.2, self.3, self.4, self.5, self.6, other.0, other.1, other.2)
    }

    fn chain_right(self, other: (T7, T8, T9)) -> (r: (T0, T1, T2, T3, T4, T5, T6, T7, T8, T9)) {
        (self.0, self.1, self.2, self.3, self.4, self.5, self.6, other.0, other.1, other.2)
    }

    proof fn lemma_chain_len() {
    }
}

impl<T0, T1, T2, T3, T4, T5, T6, T7, T8, T9, T10> ChainRight<(T7, T8, T9, T10)>
    for (T0, T1, T2, T3, T4, T5, T6)
{
    type Output = (T0, T1, T2, T3, T4, T5, T6, T7, T8, T9, T10);

    open spec fn spec_chain_right(self, other: (T7, T8, T9, T10)) -> (T0, T1, T2, T3, T4, T5, T6,
        T7, T8, T9, T10) {
        (self.0, self.1, self.2, self.3, self.4, self.5, self.6, other.0, other.1, other.2, other.3)
    }

    fn chain_right(self, other: (T7, T8, T9, T10)) -> (r: (T0, T1, T2, T3, T4, T5, T6, T7, T8, T9,
        T10)) {
        (self.0, self.1, self.2, self.3, self.4, self.5, self.6, other.0, other.1, other.2, other.3)
    }

    proof fn lemma_chain_len() {
    }
}

impl<T0, T1, T2, T3, T4, T5, T6, T7, T8, T9, T10, T11> ChainRight<(T7, T8, T9, T10, T11)>
    for (T0, T1, T2, T3, T4, T5, T6)
{
    type Output = (T0, T1, T2, T3, T4, T5, T6, T7, T8, T9, T10, T11);

    open spec fn spec_chain_right(self, other: (T7, T8, T9, T10, T11)) -> (T0, T1, T2, T3, T4, T5,
        T6, T7, T8, T9, T10, T11) {
        (self.0, self.1, self.2, self.3, self.4, self.5, self.6, other.0, other.1, other.2, other.3,
            other.4)
    }

    fn chain_right(self, other: (T7, T8, T9, T10, T11)) -> (r: (T0, T1, T2, T3, T4, T5, T6, T7, T8,
        T9, T10, T11)) {
        (self.0, self.1, self.2, self.3, self.4, self.5, self.6, other.0, other.1, other.2, other.3,
            other.4)
    }

    proof fn lemma_chain_len() {
    }
}

impl<T0, T1, T2, T3, T4, T5, T6, T7, T8> ChainRight<(T8,)> for (T0, T1, T2, T3, T4, T5, T6, T7) {
    type Output = (T0, T1, T2, T3, T4, T5, T6, T7, T8);

    open spec fn spec_chain_right(self, other: (T8,)) -> (T0, T1, T2, T3, T4, T5, T6, T7, T8) {
        (self.0, self.1, self.2, self.3, self.4, self.5, self.6, self.7, other.0)
    }

    fn chain_right(self, other: (T8,)) -> (r: (T0, T1, T2, T3, T4, T5, T6, T7, T8)) {
        (self.0, self.1, self.2, self.3, self.4, self.5, self.6, self.7, other.0)
    }

    proof fn lemma_chain_len() {
    }
}

impl<T0, T1, T2, T3, T4, T5, T6, T7, T8, T9> ChainRight<(T8, T9)>
    for (T0, T1, T2, T3, T4, T5, T6, T7)
{
    type Output = (T0, T1, T2, T3, T4, T5, T6, T7, T8, T9);

    open spec fn spec_chain_right(self, other: (T8, T9)) -> (T0, T1, T2, T3, T4, T5, T6, T7, T8,
        T9) {
        (self.0, self.1, self.2, self.3, self.4, self.5, self.6, self.7, other.0, other.1)
    }

    fn chain_right(self, other: (T8, T9)) -> (r: (T0, T1, T2, T3, T4, T5, T6, T7, T8, T9)) {
        (self.0, self.1, self.2, self.3, self.4, self.5, self.6, self.7, other.0, other.1)
    }

    proof fn lemma_chain_len() {
    }
}

impl<T0, T1, T2, T3, T4, T5, T6, T7, T8, T9, T10> ChainRight<(T8, T9, T10)>
    for (T0, T1, T2, T3, T4, T5, T6, T7)
{
    type Output = (T0, T1, T2, T3, T4, T5, T6, T7, T8, T9, T10);

    open spec fn spec_chain_right(self, other: (T8, T9, T10)) -> (T0, T1, T2, T3, T4, T5, T6, T7,
        T8, T9, T10) {
        (self.0, self.1, self.2, self.3, self.4, self.5, self.6, self.7, other.0, other.1, other.2)
    }

    fn chain_right(self, other: (T8, T9, T10)) -> (r: (T0, T1, T2, T3, T4, T5, T6, T7, T8, T9,
        T10)) {
        (self.0, self.1, self.2, self.3, self.4, self.5, self.6, self.7, other.0, other.1, other.2)
    }

    proof fn lemma_chain_len() {
    }
}

impl<T0, T1, T2, T3, T4, T5, T6, T7, T8, T9, T10, T11> ChainRight<(T8, T9, T10, T11)>
    for (T0, T1, T2, T3, T4, T5, T6, T7)
{
    type Output = (T0, T1, T2, T3, T4, T5, T6, T7, T8, T9, T10, T11);

    open spec fn spec_chain_right(self, other: (T8, T9, T10, T11)) -> (T0, T1, T2, T3, T4, T5, T6,
        T7, T8, T9, T10, T11) {
        (self.0, self.1, self.2, self.3, self.4, self.5, self.6, self.7, other.0, other.1, other.2,
            other.3)
    }

    fn chain_right(self, other: (T8, T9, T10, T11)) -> (r: (T0, T1, T2, T3, T4, T5, T6, T7, T8, T9,
        T10, T11)) {
        (self.0, self.1, self.2, self.3, self.4, self.5, self.6, self.7, other.0, other.1, other.2,
            other.3)
    }

    proof fn lemma_chain_len() {
    }
}

impl<T0, T1, T2, T3, T4, T5, T6, T7, T8, T9> ChainRight<(T9,)>
    for (T0, T1, T2, T3, T4, T5, T6, T7, T8)
{
    type Output = (T0, T1, T2, T3, T4, T5, T6, T7, T8, T9);

    open spec fn spec_chain_right(self, other: (T9,)) -> (T0, T1, T2, T3, T4, T5, T6, T7, T8, T9) {
        (self.0, self.1, self.2, self.3, self.4, self.5, self.6, self.7, self.8, other.0)
    }

    fn chain_right(self, other: (T9,)) -> (r: (T0, T1, T2, T3, T4, T5, T6, T7, T8, T9)) {
        (self.0, self.1, self.2, self.3, self.4, self.5, self.6, self.7, self.8, other.0)
    }

    proof fn lemma_chain_len() {
    }
}

impl<T0, T1, T2, T3, T4, T5, T6, T7, T8, T9, T10> ChainRight<(T9, T10)>
    for (T0, T1, T2, T3, T4, T5, T6, T7, T8)
{
    type Output = (T0, T1, T2, T3, T4, T5, T6, T7, T8, T9, T10);

    open spec fn spec_chain_right(self, other: (T9, T10)) -> (T0, T1, T2, T3, T4, T5, T6, T7, T8,
        T9, T10) {
        (self.0, self.1, self.2, self.3, self.4, self.5, self.6, self.7, self.8, other.0, other.1)
    }

    fn chain_right(self, other: (T9, T10)) -> (r: (T0, T1, T2, T3, T4, T5, T6, T7, T8, T9, T10)) {
        (self.0, self.1, self.2, self.3, self.4, self.5, self.6, self.7, self.8, other.0, other.1)
    }

    proof fn lemma_chain_len() {
    }
}

impl<T0, T1, T2, T3, T4, T5, T6, T7, T8, T9, T10, T11> ChainRight<(T9, T10, T11)>
    for (T0, T1, T2, T3, T4, T5, T6, T7, T8)
{
    type Output = (T0, T1, T2, T3, T4, T5, T6, T7, T8, T9, T10, T11);

    open spec fn spec_chain_right(self, other: (T9, T10, T11)) -> (T0, T1, T2, T3, T4, T5, T6, T7,
        T8, T9, T10, T11) {
        (self.0, self.1, self.2, self.3, self.4, self.5, self.6, self.7, self.8, other.0, other.1,
            other.2)
    }

    fn chain_right(self, other: (T9, T10, T11)) -> (r: (T0, T1, T2, T3, T4, T5, T6, T7, T8, T9, T10,
        T11)) {
        (self.0, self.1, self.2, self.3, self.4, self.5, self.6, self.7, self.8, other.0, other.1,
            other.2)
    }

    proof fn lemma_chain_len() {
    }
}

impl<T0, T1, T2, T3, T4, T5, T6, T7, T8, T9, T10> ChainRight<(T10,)>
    for (T0, T1, T2, T3, T4, T5, T6, T7, T8, T9)
{
    type Output = (T0, T1, T2, T3, T4, T5, T6, T7, T8, T9, T10);

    open spec fn spec_chain_right(self, other: (T10,)) -> (T0, T1, T2, T3, T4, T5, T6, T7, T8, T9,
        T10) {
        (self.0, self.1, self.2, self.3, self.4, self.5, self.6, self.7, self.8, self.9, other.0)
    }

    fn chain_right(self, other: (T10,)) -> (r: (T0, T1, T2, T3, T4, T5, T6, T7, T8, T9, T10)) {
        (self.0, self.1, self.2, self.3, self.4, self.5, self.6, self.7, self.8, self.9, other.0)
    }

    proof fn lemma_chain_len() {
    }
}

impl<T0, T1, T2, T3, T4, T5, T6, T7, T8, T9, T10, T11> ChainRight<(T10, T11)>
    for (T0, T1, T2, T3, T4, T5, T6, T7, T8, T9)
{
    type Output = (T0, T1, T2, T3, T4, T5, T6, T7, T8, T9, T10, T11);

    open spec fn spec_chain_right(self, other: (T10, T11)) -> (T0, T1, T2, T3, T4, T5, T6, T7, T8,
        T9, T10, T11) {
        (self.0, self.1, self.2, self.3, self.4, self.5, self.6, self.7, self.8, self.9, other.0,
            other.1)
    }

    fn chain_right(self, other: (T10, T11)) -> (r: (T0, T1, T2, T3, T4, T5, T6, T7, T8, T9, T10,
        T11)) {
        (self.0, self.1, self.2, self.3, self.4, self.5, self.6, self.7, self.8, self.9, other.0,
            other.1)
    }

    proof fn lemma_chain_len() {
    }
}

impl<T0, T1, T2, T3, T4, T5, T6, T7, T8, T9, T10, T11> ChainRight<(T11,)>
    for (T0, T1, T2, T3, T4, T5, T6, T7, T8, T9, T10)
{
    type Output = (T0, T1, T2, T3, T4, T5, T6, T7, T8, T9, T10, T11);

    open spec fn spec_chain_right(self, other: (T11,)) -> (T0, T1, T2, T3, T4, T5, T6, T7, T8, T9,
        T10, T11) {
        (self.0, self.1, self.2, self.3, self.4, self.5, self.6, self.7, self.8, self.9, self.10,
            other.0)
    }

    fn chain_right(self, other: (T11,)) -> (r: (T0, T1, T2, T3, T4, T5, T6, T7, T8, T9, T10, T11)) {
        (self.0, self.1, self.2, self.3, self.4, self.5, self.6, self.7, self.8, self.9, self.10,
            other.0)
    }

    proof fn lemma_chain_len() {
    }
}

/// Chaining on the left is chaining on the right seen from the other side.
pub proof fn lemma_chain_left_is_right<A, B>(a: A, b: B) where A: ChainRight<B>, B: TupleLen
    ensures
        b.spec_chain_left(a) == a.spec_chain_right(b),
{
}

/// The empty sequence on the left changes nothing.
pub proof fn lemma_chain_empty_left<B: TupleLen>(b: B)
    ensures
        ().spec_chain_right(b) == b,
{
}

} // verus!
