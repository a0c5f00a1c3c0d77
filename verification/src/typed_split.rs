//! Splitting at a bound given as a number.

use vstd::prelude::*;
use crate::chain::ChainRight;
use crate::generator::SplitImpl;
use crate::tuple_len::TupleLen;
use crate::typed_ref::TypedRef;

verus! {

/// Splits a sequence in two at the bound `INDEX`: the left part holds the
/// elements before `INDEX`, the right part the element at `INDEX` and those
/// after it.
///
/// `INDEX` runs from zero to the length of the sequence, both included, so
/// either part may be empty. Where the types of the parts are given, `INDEX`
/// follows from them and need not be written.
///
/// A sequence is split by value. A shared reference to a sequence is split
/// into the references to its elements. By exclusive reference a sequence is
/// split with [`TypedSplitMut`].
pub trait TypedSplit<const INDEX: usize, L: ChainRight<R>, R: TupleLen>: Sized {
    /// The two parts.
    spec fn spec_split(self) -> (L, R);

    /// The sequence that the parts are taken from: `self`, or for a reference
    /// the references to its elements.
    spec fn spec_whole(self) -> <L as ChainRight<R>>::Output;

    /// Split a tuple by specifying the leftmost elements, rightmost elements, or
    /// the (left-exclusive/right-inclusive) center bound index `INDEX`.
    fn split(self) -> (r: (L, R))
        ensures
            r == self.spec_split(),
    ;

    /// The left part has `INDEX` elements.
    proof fn lemma_split_len()
        ensures
            L::spec_len() == INDEX,
    ;

    /// The parts chain back to the sequence they were taken from.
    proof fn lemma_split_rejoin(self)
        ensures
            self.spec_split().0.spec_chain_right(self.spec_split().1) == self.spec_whole(),
    ;
}

/// A split that is implemented is a row of the splitting family: the bound
/// does not exceed the length of the sequence, and each part has one element
/// for each position that the row gives it.
pub proof fn lemma_split_matches_row<const INDEX: usize, S, L, R>() where
    S: TypedSplit<INDEX, L, R>,
    L: ChainRight<R>,
    R: TupleLen,

    ensures
        ({
            let row = SplitImpl {
                len: <L as ChainRight<R>>::Output::spec_len() as usize,
                index: INDEX,
            };
            &&& row.wf()
            &&& row.len == <L as ChainRight<R>>::Output::spec_len()
            &&& L::spec_len() == row.spec_left().len()
            &&& R::spec_len() == row.spec_right().len()
        }),
{
    S::lemma_split_len();
    <L as ChainRight<R>>::lemma_chain_len();
    <L as ChainRight<R>>::Output::lemma_len();
}

impl<'a, const INDEX: usize, L, R, TT> TypedSplit<INDEX, L, R> for &'a TT where
    L: ChainRight<R>,
    R: TupleLen,
    TT: TypedRef<'a>,
    <TT as TypedRef<'a>>::Output: TypedSplit<INDEX, L, R>,
 {
    open spec fn spec_split(self) -> (L, R) {
        self.spec_into_ref().spec_split()
    }

    open spec fn spec_whole(self) -> <L as ChainRight<R>>::Output {
        self.spec_into_ref().spec_whole()
    }

    fn split(self) -> (r: (L, R)) {
        self.into_ref().split()
    }

    proof fn lemma_split_len() {
        <<TT as TypedRef<'a>>::Output as TypedSplit<INDEX, L, R>>::lemma_split_len();
    }

    proof fn lemma_split_rejoin(self) {
        self.spec_into_ref().lemma_split_rejoin();
    }
}

impl<T0> TypedSplit<0, (), (T0,)> for (T0,) {
    open spec fn spec_split(self) -> ((), (T0,)) {
        ((), (self.0,))
    }

    open spec fn spec_whole(self) -> (T0,) {
        self
    }

    fn split(self) -> (r: ((), (T0,))) {
        ((), (self.0,))
    }

    proof fn lemma_split_len() {
    }

    proof fn lemma_split_rejoin(self) {
    }
}

impl<T0> TypedSplit<1, (T0,), ()> for (T0,) {
    open spec fn spec_split(self) -> ((T0,), ()) {
        ((self.0,), ())
    }

    open spec fn spec_whole(self) -> (T0,) {
        self
    }

    fn split(self) -> (r: ((T0,), ())) {
        ((self.0,), ())
    }

    proof fn lemma_split_len() {
    }

    proof fn lemma_split_rejoin(self) {
    }
}

impl<T0, T1> TypedSplit<0, (), (T0, T1)> for (T0, T1) {
    open spec fn spec_split(self) -> ((), (T0, T1)) {
        ((), (self.0, self.1))
    }

    open spec fn spec_whole(self) -> (T0, T1) {
        self
    }

    fn split(self) -> (r: ((), (T0, T1))) {
        ((), (self.0, self.1))
    }

    proof fn lemma_split_len() {
    }

    proof fn lemma_split_rejoin(self) {
    }
}

impl<T0, T1> TypedSplit<1, (T0,), (T1,)> for (T0, T1) {
    open spec fn spec_split(self) -> ((T0,), (T1,)) {
        ((self.0,), (self.1,))
    }

    open spec fn spec_whole(self) -> (T0, T1) {
        self
    }

    fn split(self) -> (r: ((T0,), (T1,))) {
        ((self.0,), (self.1,))
    }

    proof fn lemma_split_len() {
    }

    proof fn lemma_split_rejoin(self) {
    }
}

impl<T0, T1> TypedSplit<2, (T0, T1), ()> for (T0, T1) {
    open spec fn spec_split(self) -> ((T0, T1), ()) {
        ((self.0, self.1), ())
    }

    open spec fn spec_whole(self) -> (T0, T1) {
        self
    }

    fn split(self) -> (r: ((T0, T1), ())) {
        ((self.0, self.1), ())
    }

    proof fn lemma_split_len() {
    }

    proof fn lemma_split_rejoin(self) {
    }
}

impl<T0, T1, T2> TypedSplit<0, (), (T0, T1, T2)> for (T0, T1, T2) {
    open spec fn spec_split(self) -> ((), (T0, T1, T2)) {
        ((), (self.0, self.1, self.2))
    }

    open spec fn spec_whole(self) -> (T0, T1, T2) {
        self
    }

    fn split(self) -> (r: ((), (T0, T1, T2))) {
        ((), (self.0, self.1, self.2))
    }

    proof fn lemma_split_len() {
    }

    proof fn lemma_split_rejoin(self) {
    }
}

impl<T0, T1, T2> TypedSplit<1, (T0,), (T1, T2)> for (T0, T1, T2) {
    open spec fn spec_split(self) -> ((T0,), (T1, T2)) {
        ((self.0,), (self.1, self.2))
    }

    open spec fn spec_whole(self) -> (T0, T1, T2) {
        self
    }

    fn split(self) -> (r: ((T0,), (T1, T2))) {
        ((self.0,), (self.1, self.2))
    }

    proof fn lemma_split_len() {
    }

    proof fn lemma_split_rejoin(self) {
    }
}

impl<T0, T1, T2> TypedSplit<2, (T0, T1), (T2,)> for (T0, T1, T2) {
    open spec fn spec_split(self) -> ((T0, T1), (T2,)) {
        ((self.0, self.1), (self.2,))
    }

    open spec fn spec_whole(self) -> (T0, T1, T2) {
        self
    }

    fn split(self) -> (r: ((T0, T1), (T2,))) {
        ((self.0, self.1), (self.2,))
    }

    proof fn lemma_split_len() {
    }

    proof fn lemma_split_rejoin(self) {
    }
}

impl<T0, T1, T2> TypedSplit<3, (T0, T1, T2), ()> for (T0, T1, T2) {
    open spec fn spec_split(self) -> ((T0, T1, T2), ()) {
        ((self.0, self.1, self.2), ())
    }

    open spec fn spec_whole(self) -> (T0, T1, T2) {
        self
    }

    fn split(self) -> (r: ((T0, T1, T2), ())) {
        ((self.0, self.1, self.2), ())
    }

    proof fn lemma_split_len() {
    }

    proof fn lemma_split_rejoin(self) {
    }
}

impl<T0, T1, T2, T3> TypedSplit<0, (), (T0, T1, T2, T3)> for (T0, T1, T2, T3) {
    open spec fn spec_split(self) -> ((), (T0, T1, T2, T3)) {
        ((), (self.0, self.1, self.2, self.3))
    }

    open spec fn spec_whole(self) -> (T0, T1, T2, T3) {
        self
    }

    fn split(self) -> (r: ((), (T0, T1, T2, T3))) {
        ((), (self.0, self.1, self.2, self.3))
    }

    proof fn lemma_split_len() {
    }

    proof fn lemma_split_rejoin(self) {
    }
}

impl<T0, T1, T2, T3> TypedSplit<1, (T0,), (T1, T2, T3)> for (T0, T1, T2, T3) {
    open spec fn spec_split(self) -> ((T0,), (T1, T2, T3)) {
        ((self.0,), (self.1, self.2, self.3))
    }

    open spec fn spec_whole(self) -> (T0, T1, T2, T3) {
        self
    }

    fn split(self) -> (r: ((T0,), (T1, T2, T3))) {
        ((self.0,), (self.1, self.2, self.3))
    }

    proof fn lemma_split_len() {
    }

    proof fn lemma_split_rejoin(self) {
    }
}

impl<T0, T1, T2, T3> TypedSplit<2, (T0, T1), (T2, T3)> for (T0, T1, T2, T3) {
    open spec fn spec_split(self) -> ((T0, T1), (T2, T3)) {
        ((self.0, self.1), (self.2, self.3))
    }

    open spec fn spec_whole(self) -> (T0, T1, T2, T3) {
        self
    }

    fn split(self) -> (r: ((T0, T1), (T2, T3))) {
        ((self.0, self.1), (self.2, self.3))
    }

    proof fn lemma_split_len() {
    }

    proof fn lemma_split_rejoin(self) {
    }
}

impl<T0, T1, T2, T3> TypedSplit<3, (T0, T1, T2), (T3,)> for (T0, T1, T2, T3) {
    open spec fn spec_split(self) -> ((T0, T1, T2), (T3,)) {
        ((self.0, self.1, self.2), (self.3,))
    }

    open spec fn spec_whole(self) -> (T0, T1, T2, T3) {
        self
    }

    fn split(self) -> (r: ((T0, T1, T2), (T3,))) {
        ((self.0, self.1, self.2), (self.3,))
    }

    proof fn lemma_split_len() {
    }

    proof fn lemma_split_rejoin(self) {
    }
}

impl<T0, T1, T2, T3> TypedSplit<4, (T0, T1, T2, T3), ()> for (T0, T1, T2, T3) {
    open spec fn spec_split(self) -> ((T0, T1, T2, T3), ()) {
        ((self.0, self.1, self.2, self.3), ())
    }

    open spec fn spec_whole(self) -> (T0, T1, T2, T3) {
        self
    }

    fn split(self) -> (r: ((T0, T1, T2, T3), ())) {
        ((self.0, self.1, self.2, self.3), ())
    }

    proof fn lemma_split_len() {
    }

    proof fn lemma_split_rejoin(self) {
    }
}

impl<T0, T1, T2, T3, T4> TypedSplit<0, (), (T0, T1, T2, T3, T4)> for (T0, T1, T2, T3, T4) {
    open spec fn spec_split(self) -> ((), (T0, T1, T2, T3, T4)) {
        ((), (self.0, self.1, self.2, self.3, self.4))
    }

    open spec fn spec_whole(self) -> (T0, T1, T2, T3, T4) {
        self
    }

    fn split(self) -> (r: ((), (T0, T1, T2, T3, T4))) {
        ((), (self.0, self.1, self.2, self.3, self.4))
    }

    proof fn lemma_split_len() {
    }

    proof fn lemma_split_rejoin(self) {
    }
}

impl<T0, T1, T2, T3, T4> TypedSplit<1, (T0,), (T1, T2, T3, T4)> for (T0, T1, T2, T3, T4) {
    open spec fn spec_split(self) -> ((T0,), (T1, T2, T3, T4)) {
        ((self.0,), (self.1, self.2, self.3, self.4))
    }

    open spec fn spec_whole(self) -> (T0, T1, T2, T3, T4) {
        self
    }

    fn split(self) -> (r: ((T0,), (T1, T2, T3, T4))) {
        ((self.0,), (self.1, self.2, self.3, self.4))
    }

    proof fn lemma_split_len() {
    }

    proof fn lemma_split_rejoin(self) {
    }
}

impl<T0, T1, T2, T3, T4> TypedSplit<2, (T0, T1), (T2, T3, T4)> for (T0, T1, T2, T3, T4) {
    open spec fn spec_split(self) -> ((T0, T1), (T2, T3, T4)) {
        ((self.0, self.1), (self.2, self.3, self.4))
    }

    open spec fn spec_whole(self) -> (T0, T1, T2, T3, T4) {
        self
    }

    fn split(self) -> (r: ((T0, T1), (T2, T3, T4))) {
        ((self.0, self.1), (self.2, self.3, self.4))
    }

    proof fn lemma_split_len() {
    }

    proof fn lemma_split_rejoin(self) {
    }
}

impl<T0, T1, T2, T3, T4> TypedSplit<3, (T0, T1, T2), (T3, T4)> for (T0, T1, T2, T3, T4) {
    open spec fn spec_split(self) -> ((T0, T1, T2), (T3, T4)) {
        ((self.0, self.1, self.2), (self.3, self.4))
    }

    open spec fn spec_whole(self) -> (T0, T1, T2, T3, T4) {
        self
    }

    fn split(self) -> (r: ((T0, T1, T2), (T3, T4))) {
        ((self.0, self.1, self.2), (self.3, self.4))
    }

    proof fn lemma_split_len() {
    }

    proof fn lemma_split_rejoin(self) {
    }
}

impl<T0, T1, T2, T3, T4> TypedSplit<4, (T0, T1, T2, T3), (T4,)> for (T0, T1, T2, T3, T4) {
    open spec fn spec_split(self) -> ((T0, T1, T2, T3), (T4,)) {
        ((self.0, self.1, self.2, self.3), (self.4,))
    }

    open spec fn spec_whole(self) -> (T0, T1, T2, T3, T4) {
        self
    }

    fn split(self) -> (r: ((T0, T1, T2, T3), (T4,))) {
        ((self.0, self.1, self.2, self.3), (self.4,))
    }

    proof fn lemma_split_len() {
    }

    proof fn lemma_split_rejoin(self) {
    }
}

impl<T0, T1, T2, T3, T4> TypedSplit<5, (T0, T1, T2, T3, T4), ()> for (T0, T1, T2, T3, T4) {
    open spec fn spec_split(self) -> ((T0, T1, T2, T3, T4), ()) {
        ((self.0, self.1, self.2, self.3, self.4), ())
    }

    open spec fn spec_whole(self) -> (T0, T1, T2, T3, T4) {
        self
    }

    fn split(self) -> (r: ((T0, T1, T2, T3, T4), ())) {
        ((self.0, self.1, self.2, self.3, self.4), ())
    }

    proof fn lemma_split_len() {
    }

    proof fn lemma_split_rejoin(self) {
    }
}

impl<T0, T1, T2, T3, T4, T5> TypedSplit<0, (), (T0, T1, T2, T3, T4, T5)>
    for (T0, T1, T2, T3, T4, T5)
{
    open spec fn spec_split(self) -> ((), (T0, T1, T2, T3, T4, T5)) {
        ((), (self.0, self.1, self.2, self.3, self.4, self.5))
    }

    open spec fn spec_whole(self) -> (T0, T1, T2, T3, T4, T5) {
        self
    }

    fn split(self) -> (r: ((), (T0, T1, T2, T3, T4, T5))) {
        ((), (self.0, self.1, self.2, self.3, self.4, self.5))
    }

    proof fn lemma_split_len() {
    }

    proof fn lemma_split_rejoin(self) {
    }
}

impl<T0, T1, T2, T3, T4, T5> TypedSplit<1, (T0,), (T1, T2, T3, T4, T5)>
    for (T0, T1, T2, T3, T4, T5)
{
    open spec fn spec_split(self) -> ((T0,), (T1, T2, T3, T4, T5)) {
        ((self.0,), (self.1, self.2, self.3, self.4, self.5))
    }

    open spec fn spec_whole(self) -> (T0, T1, T2, T3, T4, T5) {
        self
    }

    fn split(self) -> (r: ((T0,), (T1, T2, T3, T4, T5))) {
        ((self.0,), (self.1, self.2, self.3, self.4, self.5))
    }

    proof fn lemma_split_len() {
    }

    proof fn lemma_split_rejoin(self) {
    }
}

impl<T0, T1, T2, T3, T4, T5> TypedSplit<2, (T0, T1), (T2, T3, T4, T5)>
    for (T0, T1, T2, T3, T4, T5)
{
    open spec fn spec_split(self) -> ((T0, T1), (T2, T3, T4, T5)) {
        ((self.0, self.1), (self.2, self.3, self.4, self.5))
    }

    open spec fn spec_whole(self) -> (T0, T1, T2, T3, T4, T5) {
        self
    }

    fn split(self) -> (r: ((T0, T1), (T2, T3, T4, T5))) {
        ((self.0, self.1), (self.2, self.3, self.4, self.5))
    }

    proof fn lemma_split_len() {
    }

    proof fn lemma_split_rejoin(self) {
    }
}

impl<T0, T1, T2, T3, T4, T5> TypedSplit<3, (T0, T1, T2), (T3, T4, T5)>
    for (T0, T1, T2, T3, T4, T5)
{
    open spec fn spec_split(self) -> ((T0, T1, T2), (T3, T4, T5)) {
        ((self.0, self.1, self.2), (self.3, self.4, self.5))
    }

    open spec fn spec_whole(self) -> (T0, T1, T2, T3, T4, T5) {
        self
    }

    fn split(self) -> (r: ((T0, T1, T2), (T3, T4, T5))) {
        ((self.0, self.1, self.2), (self.3, self.4, self.5))
    }

    proof fn lemma_split_len() {
    }

    proof fn lemma_split_rejoin(self) {
    }
}

impl<T0, T1, T2, T3, T4, T5> TypedSplit<4, (T0, T1, T2, T3), (T4, T5)>
    for (T0, T1, T2, T3, T4, T5)
{
    open spec fn spec_split(self) -> ((T0, T1, T2, T3), (T4, T5)) {
        ((self.0, self.1, self.2, self.3), (self.4, self.5))
    }

    open spec fn spec_whole(self) -> (T0, T1, T2, T3, T4, T5) {
        self
    }

    fn split(self) -> (r: ((T0, T1, T2, T3), (T4, T5))) {
        ((self.0, self.1, self.2, self.3), (self.4, self.5))
    }

    proof fn lemma_split_len() {
    }

    proof fn lemma_split_rejoin(self) {
    }
}

impl<T0, T1, T2, T3, T4, T5> TypedSplit<5, (T0, T1, T2, T3, T4), (T5,)>
    for (T0, T1, T2, T3, T4, T5)
{
    open spec fn spec_split(self) -> ((T0, T1, T2, T3, T4), (T5,)) {
        ((self.0, self.1, self.2, self.3, self.4), (self.5,))
    }

    open spec fn spec_whole(self) -> (T0, T1, T2, T3, T4, T5) {
        self
    }

    fn split(self) -> (r: ((T0, T1, T2, T3, T4), (T5,))) {
        ((self.0, self.1, self.2, self.3, self.4), (self.5,))
    }

    proof fn lemma_split_len() {
    }

    proof fn lemma_split_rejoin(self) {
    }
}

impl<T0, T1, T2, T3, T4, T5> TypedSplit<6, (T0, T1, T2, T3, T4, T5), ()>
    for (T0, T1, T2, T3, T4, T5)
{
    open spec fn spec_split(self) -> ((T0, T1, T2, T3, T4, T5), ()) {
        ((self.0, self.1, self.2, self.3, self.4, self.5), ())
    }

    open spec fn spec_whole(self) -> (T0, T1, T2, T3, T4, T5) {
        self
    }

    fn split(self) -> (r: ((T0, T1, T2, T3, T4, T5), ())) {
        ((self.0, self.1, self.2, self.3, self.4, self.5), ())
    }

    proof fn lemma_split_len() {
    }

    proof fn lemma_split_rejoin(self) {
    }
}

impl<T0, T1, T2, T3, T4, T5, T6> TypedSplit<0, (), (T0, T1, T2, T3, T4, T5, T6)>
    for (T0, T1, T2, T3, T4, T5, T6)
{
    open spec fn spec_split(self) -> ((), (T0, T1, T2, T3, T4, T5, T6)) {
        ((), (self.0, self.1, self.2, self.3, self.4, self.5, self.6))
    }

    open spec fn spec_whole(self) -> (T0, T1, T2, T3, T4, T5, T6) {
        self
    }

    fn split(self) -> (r: ((), (T0, T1, T2, T3, T4, T5, T6))) {
        ((), (self.0, self.1, self.2, self.3, self.4, self.5, self.6))
    }

    proof fn lemma_split_len() {
    }

    proof fn lemma_split_rejoin(self) {
    }
}

impl<T0, T1, T2, T3, T4, T5, T6> TypedSplit<1, (T0,), (T1, T2, T3, T4, T5, T6)>
    for (T0, T1, T2, T3, T4, T5, T6)
{
    open spec fn spec_split(self) -> ((T0,), (T1, T2, T3, T4, T5, T6)) {
        ((self.0,), (self.1, self.2, self.3, self.4, self.5, self.6))
    }

    open spec fn spec_whole(self) -> (T0, T1, T2, T3, T4, T5, T6) {
        self
    }

    fn split(self) -> (r: ((T0,), (T1, T2, T3, T4, T5, T6))) {
        ((self.0,), (self.1, self.2, self.3, self.4, self.5, self.6))
    }

    proof fn lemma_split_len() {
    }

    proof fn lemma_split_rejoin(self) {
    }
}

impl<T0, T1, T2, T3, T4, T5, T6> TypedSplit<2, (T0, T1), (T2, T3, T4, T5, T6)>
    for (T0, T1, T2, T3, T4, T5, T6)
{
    open spec fn spec_split(self) -> ((T0, T1), (T2, T3, T4, T5, T6)) {
        ((self.0, self.1), (self.2, self.3, self.4, self.5, self.6))
    }

    open spec fn spec_whole(self) -> (T0, T1, T2, T3, T4, T5, T6) {
        self
    }

    fn split(self) -> (r: ((T0, T1), (T2, T3, T4, T5, T6))) {
        ((self.0, self.1), (self.2, self.3, self.4, self.5, self.6))
    }

    proof fn lemma_split_len() {
    }

    proof fn lemma_split_rejoin(self) {
    }
}

impl<T0, T1, T2, T3, T4, T5, T6> TypedSplit<3, (T0, T1, T2), (T3, T4, T5, T6)>
    for (T0, T1, T2, T3, T4, T5, T6)
{
    open spec fn spec_split(self) -> ((T0, T1, T2), (T3, T4, T5, T6)) {
        ((self.0, self.1, self.2), (self.3, self.4, self.5, self.6))
    }

    open spec fn spec_whole(self) -> (T0, T1, T2, T3, T4, T5, T6) {
        self
    }

    fn split(self) -> (r: ((T0, T1, T2), (T3, T4, T5, T6))) {
        ((self.0, self.1, self.2), (self.3, self.4, self.5, self.6))
    }

    proof fn lemma_split_len() {
    }

    proof fn lemma_split_rejoin(self) {
    }
}

impl<T0, T1, T2, T3, T4, T5, T6> TypedSplit<4, (T0, T1, T2, T3), (T4, T5, T6)>
    for (T0, T1, T2, T3, T4, T5, T6)
{
    open spec fn spec_split(self) -> ((T0, T1, T2, T3), (T4, T5, T6)) {
        ((self.0, self.1, self.2, self.3), (self.4, self.5, self.6))
    }

    open spec fn spec_whole(self) -> (T0, T1, T2, T3, T4, T5, T6) {
        self
    }

    fn split(self) -> (r: ((T0, T1, T2, T3), (T4, T5, T6))) {
        ((self.0, self.1, self.2, self.3), (self.4, self.5, self.6))
    }

    proof fn lemma_split_len() {
    }

    proof fn lemma_split_rejoin(self) {
    }
}

impl<T0, T1, T2, T3, T4, T5, T6> TypedSplit<5, (T0, T1, T2, T3, T4), (T5, T6)>
    for (T0, T1, T2, T3, T4, T5, T6)
{
    open spec fn spec_split(self) -> ((T0, T1, T2, T3, T4), (T5, T6)) {
        ((self.0, self.1, self.2, self.3, self.4), (self.5, self.6))
    }

    open spec fn spec_whole(self) -> (T0, T1, T2, T3, T4, T5, T6) {
        self
    }

    fn split(self) -> (r: ((T0, T1, T2, T3, T4), (T5, T6))) {
        ((self.0, self.1, self.2, self.3, self.4), (self.5, self.6))
    }

    proof fn lemma_split_len() {
    }

    proof fn lemma_split_rejoin(self) {
    }
}

impl<T0, T1, T2, T3, T4, T5, T6> TypedSplit<6, (T0, T1, T2, T3, T4, T5), (T6,)>
    for (T0, T1, T2, T3, T4, T5, T6)
{
    open spec fn spec_split(self) -> ((T0, T1, T2, T3, T4, T5), (T6,)) {
        ((self.0, self.1, self.2, self.3, self.4, self.5), (self.6,))
    }

    open spec fn spec_whole(self) -> (T0, T1, T2, T3, T4, T5, T6) {
        self
    }

    fn split(self) -> (r: ((T0, T1, T2, T3, T4, T5), (T6,))) {
        ((self.0, self.1, self.2, self.3, self.4, self.5), (self.6,))
    }

    proof fn lemma_split_len() {
    }

    proof fn lemma_split_rejoin(self) {
    }
}

impl<T0, T1, T2, T3, T4, T5, T6> TypedSplit<7, (T0, T1, T2, T3, T4, T5, T6), ()>
    for (T0, T1, T2, T3, T4, T5, T6)
{
    open spec fn spec_split(self) -> ((T0, T1, T2, T3, T4, T5, T6), ()) {
        ((self.0, self.1, self.2, self.3, self.4, self.5, self.6), ())
    }

    open spec fn spec_whole(self) -> (T0, T1, T2, T3, T4, T5, T6) {
        self
    }

    fn split(self) -> (r: ((T0, T1, T2, T3, T4, T5, T6), ())) {
        ((self.0, self.1, self.2, self.3, self.4, self.5, self.6), ())
    }

    proof fn lemma_split_len() {
    }

    proof fn lemma_split_rejoin(self) {
    }
}

impl<T0, T1, T2, T3, T4, T5, T6, T7> TypedSplit<0, (), (T0, T1, T2, T3, T4, T5, T6, T7)>
    for (T0, T1, T2, T3, T4, T5, T6, T7)
{
    open spec fn spec_split(self) -> ((), (T0, T1, T2, T3, T4, T5, T6, T7)) {
        ((), (self.0, self.1, self.2, self.3, self.4, self.5, self.6, self.7))
    }

    open spec fn spec_whole(self) -> (T0, T1, T2, T3, T4, T5, T6, T7) {
        self
    }

    fn split(self) -> (r: ((), (T0, T1, T2, T3, T4, T5, T6, T7))) {
        ((), (self.0, self.1, self.2, self.3, self.4, self.5, self.6, self.7))
    }

    proof fn lemma_split_len() {
    }

    proof fn lemma_split_rejoin(self) {
    }
}

impl<T0, T1, T2, T3, T4, T5, T6, T7> TypedSplit<1, (T0,), (T1, T2, T3, T4, T5, T6, T7)>
    for (T0, T1, T2, T3, T4, T5, T6, T7)
{
    open spec fn spec_split(self) -> ((T0,), (T1, T2, T3, T4, T5, T6, T7)) {
        ((self.0,), (self.1, self.2, self.3, self.4, self.5, self.6, self.7))
    }

    open spec fn spec_whole(self) -> (T0, T1, T2, T3, T4, T5, T6, T7) {
        self
    }

    fn split(self) -> (r: ((T0,), (T1, T2, T3, T4, T5, T6, T7))) {
        ((self.0,), (self.1, self.2, self.3, self.4, self.5, self.6, self.7))
    }

    proof fn lemma_split_len() {
    }

    proof fn lemma_split_rejoin(self) {
    }
}

impl<T0, T1, T2, T3, T4, T5, T6, T7> TypedSplit<2, (T0, T1), (T2, T3, T4, T5, T6, T7)>
    for (T0, T1, T2, T3, T4, T5, T6, T7)
{
    open spec fn spec_split(self) -> ((T0, T1), (T2, T3, T4, T5, T6, T7)) {
        ((self.0, self.1), (self.2, self.3, self.4, self.5, self.6, self.7))
    }

    open spec fn spec_whole(self) -> (T0, T1, T2, T3, T4, T5, T6, T7) {
        self
    }

    fn split(self) -> (r: ((T0, T1), (T2, T3, T4, T5, T6, T7))) {
        ((self.0, self.1), (self.2, self.3, self.4, self.5, self.6, self.7))
    }

    proof fn lemma_split_len() {
    }

    proof fn lemma_split_rejoin(self) {
    }
}

impl<T0, T1, T2, T3, T4, T5, T6, T7> TypedSplit<3, (T0, T1, T2), (T3, T4, T5, T6, T7)>
    for (T0, T1, T2, T3, T4, T5, T6, T7)
{
    open spec fn spec_split(self) -> ((T0, T1, T2), (T3, T4, T5, T6, T7)) {
        ((self.0, self.1, self.2), (self.3, self.4, self.5, self.6, self.7))
    }

    open spec fn spec_whole(self) -> (T0, T1, T2, T3, T4, T5, T6, T7) {
        self
    }

    fn split(self) -> (r: ((T0, T1, T2), (T3, T4, T5, T6, T7))) {
        ((self.0, self.1, self.2), (self.3, self.4, self.5, self.6, self.7))
    }

    proof fn lemma_split_len() {
    }

    proof fn lemma_split_rejoin(self) {
    }
}

impl<T0, T1, T2, T3, T4, T5, T6, T7> TypedSplit<4, (T0, T1, T2, T3), (T4, T5, T6, T7)>
    for (T0, T1, T2, T3, T4, T5, T6, T7)
{
    open spec fn spec_split(self) -> ((T0, T1, T2, T3), (T4, T5, T6, T7)) {
        ((self.0, self.1, self.2, self.3), (self.4, self.5, self.6, self.7))
    }

    open spec fn spec_whole(self) -> (T0, T1, T2, T3, T4, T5, T6, T7) {
        self
    }

    fn split(self) -> (r: ((T0, T1, T2, T3), (T4, T5, T6, T7))) {
        ((self.0, self.1, self.2, self.3), (self.4, self.5, self.6, self.7))
    }

    proof fn lemma_split_len() {
    }

    proof fn lemma_split_rejoin(self) {
    }
}

impl<T0, T1, T2, T3, T4, T5, T6, T7> TypedSplit<5, (T0, T1, T2, T3, T4), (T5, T6, T7)>
    for (T0, T1, T2, T3, T4, T5, T6, T7)
{
    open spec fn spec_split(self) -> ((T0, T1, T2, T3, T4), (T5, T6, T7)) {
        ((self.0, self.1, self.2, self.3, self.4), (self.5, self.6, self.7))
    }

    open spec fn spec_whole(self) -> (T0, T1, T2, T3, T4, T5, T6, T7) {
        self
    }

    fn split(self) -> (r: ((T0, T1, T2, T3, T4), (T5, T6, T7))) {
        ((self.0, self.1, self.2, self.3, self.4), (self.5, self.6, self.7))
    }

    proof fn lemma_split_len() {
    }

    proof fn lemma_split_rejoin(self) {
    }
}

impl<T0, T1, T2, T3, T4, T5, T6, T7> TypedSplit<6, (T0, T1, T2, T3, T4, T5), (T6, T7)>
    for (T0, T1, T2, T3, T4, T5, T6, T7)
{
    open spec fn spec_split(self) -> ((T0, T1, T2, T3, T4, T5), (T6, T7)) {
        ((self.0, self.1, self.2, self.3, self.4, self.5), (self.6, self.7))
    }

    open spec fn spec_whole(self) -> (T0, T1, T2, T3, T4, T5, T6, T7) {
        self
    }

    fn split(self) -> (r: ((T0, T1, T2, T3, T4, T5), (T6, T7))) {
        ((self.0, self.1, self.2, self.3, self.4, self.5), (self.6, self.7))
    }

    proof fn lemma_split_len() {
    }

    proof fn lemma_split_rejoin(self) {
    }
}

impl<T0, T1, T2, T3, T4, T5, T6, T7> TypedSplit<7, (T0, T1, T2, T3, T4, T5, T6), (T7,)>
    for (T0, T1, T2, T3, T4, T5, T6, T7)
{
    open spec fn spec_split(self) -> ((T0, T1, T2, T3, T4, T5, T6), (T7,)) {
        ((self.0, self.1, self.2, self.3, self.4, self.5, self.6), (self.7,))
    }

    open spec fn spec_whole(self) -> (T0, T1, T2, T3, T4, T5, T6, T7) {
        self
    }

    fn split(self) -> (r: ((T0, T1, T2, T3, T4, T5, T6), (T7,))) {
        ((self.0, self.1, self.2, self.3, self.4, self.5, self.6), (self.7,))
    }

    proof fn lemma_split_len() {
    }

    proof fn lemma_split_rejoin(self) {
    }
}

impl<T0, T1, T2, T3, T4, T5, T6, T7> TypedSplit<8, (T0, T1, T2, T3, T4, T5, T6, T7), ()>
    for (T0, T1, T2, T3, T4, T5, T6, T7)
{
    open spec fn spec_split(self) -> ((T0, T1, T2, T3, T4, T5, T6, T7), ()) {
        ((self.0, self.1, self.2, self.3, self.4, self.5, self.6, self.7), ())
    }

    open spec fn spec_whole(self) -> (T0, T1, T2, T3, T4, T5, T6, T7) {
        self
    }

    fn split(self) -> (r: ((T0, T1, T2, T3, T4, T5, T6, T7), ())) {
        ((self.0, self.1, self.2, self.3, self.4, self.5, self.6, self.7), ())
    }

    proof fn lemma_split_len() {
    }

    proof fn lemma_split_rejoin(self) {
    }
}

impl<T0, T1, T2, T3, T4, T5, T6, T7, T8> TypedSplit<0, (), (T0, T1, T2, T3, T4, T5, T6, T7, T8)>
    for (T0, T1, T2, T3, T4, T5, T6, T7, T8)
{
    open spec fn spec_split(self) -> ((), (T0, T1, T2, T3, T4, T5, T6, T7, T8)) {
        ((), (self.0, self.1, self.2, self.3, self.4, self.5, self.6, self.7, self.8))
    }

    open spec fn spec_whole(self) -> (T0, T1, T2, T3, T4, T5, T6, T7, T8) {
        self
    }

    fn split(self) -> (r: ((), (T0, T1, T2, T3, T4, T5, T6, T7, T8))) {
        ((), (self.0, self.1, self.2, self.3, self.4, self.5, self.6, self.7, self.8))
    }

    proof fn lemma_split_len() {
    }

    proof fn lemma_split_rejoin(self) {
    }
}

impl<T0, T1, T2, T3, T4, T5, T6, T7, T8> TypedSplit<1, (T0,), (T1, T2, T3, T4, T5, T6, T7, T8)>
    for (T0, T1, T2, T3, T4, T5, T6, T7, T8)
{
    open spec fn spec_split(self) -> ((T0,), (T1, T2, T3, T4, T5, T6, T7, T8)) {
        ((self.0,), (self.1, self.2, self.3, self.4, self.5, self.6, self.7, self.8))
    }

    open spec fn spec_whole(self) -> (T0, T1, T2, T3, T4, T5, T6, T7, T8) {
        self
    }

    fn split(self) -> (r: ((T0,), (T1, T2, T3, T4, T5, T6, T7, T8))) {
        ((self.0,), (self.1, self.2, self.3, self.4, self.5, self.6, self.7, self.8))
    }

    proof fn lemma_split_len() {
    }

    proof fn lemma_split_rejoin(self) {
    }
}

impl<T0, T1, T2, T3, T4, T5, T6, T7, T8> TypedSplit<2, (T0, T1), (T2, T3, T4, T5, T6, T7, T8)>
    for (T0, T1, T2, T3, T4, T5, T6, T7, T8)
{
    open spec fn spec_split(self) -> ((T0, T1), (T2, T3, T4, T5, T6, T7, T8)) {
        ((self.0, self.1), (self.2, self.3, self.4, self.5, self.6, self.7, self.8))
    }

    open spec fn spec_whole(self) -> (T0, T1, T2, T3, T4, T5, T6, T7, T8) {
        self
    }

    fn split(self) -> (r: ((T0, T1), (T2, T3, T4, T5, T6, T7, T8))) {
        ((self.0, self.1), (self.2, self.3, self.4, self.5, self.6, self.7, self.8))
    }

    proof fn lemma_split_len() {
    }

    proof fn lemma_split_rejoin(self) {
    }
}

impl<T0, T1, T2, T3, T4, T5, T6, T7, T8> TypedSplit<3, (T0, T1, T2), (T3, T4, T5, T6, T7, T8)>
    for (T0, T1, T2, T3, T4, T5, T6, T7, T8)
{
    open spec fn spec_split(self) -> ((T0, T1, T2), (T3, T4, T5, T6, T7, T8)) {
        ((self.0, self.1, self.2), (self.3, self.4, self.5, self.6, self.7, self.8))
    }

    open spec fn spec_whole(self) -> (T0, T1, T2, T3, T4, T5, T6, T7, T8) {
        self
    }

    fn split(self) -> (r: ((T0, T1, T2), (T3, T4, T5, T6, T7, T8))) {
        ((self.0, self.1, self.2), (self.3, self.4, self.5, self.6, self.7, self.8))
    }

    proof fn lemma_split_len() {
    }

    proof fn lemma_split_rejoin(self) {
    }
}

impl<T0, T1, T2, T3, T4, T5, T6, T7, T8> TypedSplit<4, (T0, T1, T2, T3), (T4, T5, T6, T7, T8)>
    for (T0, T1, T2, T3, T4, T5, T6, T7, T8)
{
    open spec fn spec_split(self) -> ((T0, T1, T2, T3), (T4, T5, T6, T7, T8)) {
        ((self.0, self.1, self.2, self.3), (self.4, self.5, self.6, self.7, self.8))
    }

    open spec fn spec_whole(self) -> (T0, T1, T2, T3, T4, T5, T6, T7, T8) {
        self
    }

    fn split(self) -> (r: ((T0, T1, T2, T3), (T4, T5, T6, T7, T8))) {
        ((self.0, self.1, self.2, self.3), (self.4, self.5, self.6, self.7, self.8))
    }

    proof fn lemma_split_len() {
    }

    proof fn lemma_split_rejoin(self) {
    }
}

impl<T0, T1, T2, T3, T4, T5, T6, T7, T8> TypedSplit<5, (T0, T1, T2, T3, T4), (T5, T6, T7, T8)>
    for (T0, T1, T2, T3, T4, T5, T6, T7, T8)
{
    open spec fn spec_split(self) -> ((T0, T1, T2, T3, T4), (T5, T6, T7, T8)) {
        ((self.0, self.1, self.2, self.3, self.4), (self.5, self.6, self.7, self.8))
    }

    open spec fn spec_whole(self) -> (T0, T1, T2, T3, T4, T5, T6, T7, T8) {
        self
    }

    fn split(self) -> (r: ((T0, T1, T2, T3, T4), (T5, T6, T7, T8))) {
        ((self.0, self.1, self.2, self.3, self.4), (self.5, self.6, self.7, self.8))
    }

    proof fn lemma_split_len() {
    }

    proof fn lemma_split_rejoin(self) {
    }
}

impl<T0, T1, T2, T3, T4, T5, T6, T7, T8> TypedSplit<6, (T0, T1, T2, T3, T4, T5), (T6, T7, T8)>
    for (T0, T1, T2, T3, T4, T5, T6, T7, T8)
{
    open spec fn spec_split(self) -> ((T0, T1, T2, T3, T4, T5), (T6, T7, T8)) {
        ((self.0, self.1, self.2, self.3, self.4, self.5), (self.6, self.7, self.8))
    }

    open spec fn spec_whole(self) -> (T0, T1, T2, T3, T4, T5, T6, T7, T8) {
        self
    }

    fn split(self) -> (r: ((T0, T1, T2, T3, T4, T5), (T6, T7, T8))) {
        ((self.0, self.1, self.2, self.3, self.4, self.5), (self.6, self.7, self.8))
    }

    proof fn lemma_split_len() {
    }

    proof fn lemma_split_rejoin(self) {
    }
}

impl<T0, T1, T2, T3, T4, T5, T6, T7, T8> TypedSplit<7, (T0, T1, T2, T3, T4, T5, T6), (T7, T8)>
    for (T0, T1, T2, T3, T4, T5, T6, T7, T8)
{
    open spec fn spec_split(self) -> ((T0, T1, T2, T3, T4, T5, T6), (T7, T8)) {
        ((self.0, self.1, self.2, self.3, self.4, self.5, self.6), (self.7, self.8))
    }

    open spec fn spec_whole(self) -> (T0, T1, T2, T3, T4, T5, T6, T7, T8) {
        self
    }

    fn split(self) -> (r: ((T0, T1, T2, T3, T4, T5, T6), (T7, T8))) {
        ((self.0, self.1, self.2, self.3, self.4, self.5, self.6), (self.7, self.8))
    }

    proof fn lemma_split_len() {
    }

    proof fn lemma_split_rejoin(self) {
    }
}

impl<T0, T1, T2, T3, T4, T5, T6, T7, T8> TypedSplit<8, (T0, T1, T2, T3, T4, T5, T6, T7), (T8,)>
    for (T0, T1, T2, T3, T4, T5, T6, T7, T8)
{
    open spec fn spec_split(self) -> ((T0, T1, T2, T3, T4, T5, T6, T7), (T8,)) {
        ((self.0, self.1, self.2, self.3, self.4, self.5, self.6, self.7), (self.8,))
    }

    open spec fn spec_whole(self) -> (T0, T1, T2, T3, T4, T5, T6, T7, T8) {
        self
    }

    fn split(self) -> (r: ((T0, T1, T2, T3, T4, T5, T6, T7), (T8,))) {
        ((self.0, self.1, self.2, self.3, self.4, self.5, self.6, self.7), (self.8,))
    }

    proof fn lemma_split_len() {
    }

    proof fn lemma_split_rejoin(self) {
    }
}

impl<T0, T1, T2, T3, T4, T5, T6, T7, T8> TypedSplit<9, (T0, T1, T2, T3, T4, T5, T6, T7, T8), ()>
    for (T0, T1, T2, T3, T4, T5, T6, T7, T8)
{
    open spec fn spec_split(self) -> ((T0, T1, T2, T3, T4, T5, T6, T7, T8), ()) {
        ((self.0, self.1, self.2, self.3, self.4, self.5, self.6, self.7, self.8), ())
    }

    open spec fn spec_whole(self) -> (T0, T1, T2, T3, T4, T5, T6, T7, T8) {
        self
    }

    fn split(self) -> (r: ((T0, T1, T2, T3, T4, T5, T6, T7, T8), ())) {
        ((self.0, self.1, self.2, self.3, self.4, self.5, self.6, self.7, self.8), ())
    }

    proof fn lemma_split_len() {
    }

    proof fn lemma_split_rejoin(self) {
    }
}

impl<T0, T1, T2, T3, T4, T5, T6, T7, T8, T9> TypedSplit<0, (), (T0, T1, T2, T3, T4, T5, T6, T7, T8,
    T9)>
    for (T0, T1, T2, T3, T4, T5, T6, T7, T8, T9)
{
    open spec fn spec_split(self) -> ((), (T0, T1, T2, T3, T4, T5, T6, T7, T8, T9)) {
        ((), (self.0, self.1, self.2, self.3, self.4, self.5, self.6, self.7, self.8, self.9))
    }

    open spec fn spec_whole(self) -> (T0, T1, T2, T3, T4, T5, T6, T7, T8, T9) {
        self
    }

    fn split(self) -> (r: ((), (T0, T1, T2, T3, T4, T5, T6, T7, T8, T9))) {
        ((), (self.0, self.1, self.2, self.3, self.4, self.5, self.6, self.7, self.8, self.9))
    }

    proof fn lemma_split_len() {
    }

    proof fn lemma_split_rejoin(self) {
    }
}

impl<T0, T1, T2, T3, T4, T5, T6, T7, T8, T9> TypedSplit<1, (T0,), (T1, T2, T3, T4, T5, T6, T7, T8,
    T9)>
    for (T0, T1, T2, T3, T4, T5, T6, T7, T8, T9)
{
    open spec fn spec_split(self) -> ((T0,), (T1, T2, T3, T4, T5, T6, T7, T8, T9)) {
        ((self.0,), (self.1, self.2, self.3, self.4, self.5, self.6, self.7, self.8, self.9))
    }

    open spec fn spec_whole(self) -> (T0, T1, T2, T3, T4, T5, T6, T7, T8, T9) {
        self
    }

    fn split(self) -> (r: ((T0,), (T1, T2, T3, T4, T5, T6, T7, T8, T9))) {
        ((self.0,), (self.1, self.2, self.3, self.4, self.5, self.6, self.7, self.8, self.9))
    }

    proof fn lemma_split_len() {
    }

    proof fn lemma_split_rejoin(self) {
    }
}

impl<T0, T1, T2, T3, T4, T5, T6, T7, T8, T9> TypedSplit<2, (T0, T1), (T2, T3, T4, T5, T6, T7, T8,
    T9)>
    for (T0, T1, T2, T3, T4, T5, T6, T7, T8, T9)
{
    open spec fn spec_split(self) -> ((T0, T1), (T2, T3, T4, T5, T6, T7, T8, T9)) {
        ((self.0, self.1), (self.2, self.3, self.4, self.5, self.6, self.7, self.8, self.9))
    }

    open spec fn spec_whole(self) -> (T0, T1, T2, T3, T4, T5, T6, T7, T8, T9) {
        self
    }

    fn split(self) -> (r: ((T0, T1), (T2, T3, T4, T5, T6, T7, T8, T9))) {
        ((self.0, self.1), (self.2, self.3, self.4, self.5, self.6, self.7, self.8, self.9))
    }

    proof fn lemma_split_len() {
    }

    proof fn lemma_split_rejoin(self) {
    }
}

impl<T0, T1, T2, T3, T4, T5, T6, T7, T8, T9> TypedSplit<3, (T0, T1, T2), (T3, T4, T5, T6, T7, T8,
    T9)>
    for (T0, T1, T2, T3, T4, T5, T6, T7, T8, T9)
{
    open spec fn spec_split(self) -> ((T0, T1, T2), (T3, T4, T5, T6, T7, T8, T9)) {
        ((self.0, self.1, self.2), (self.3, self.4, self.5, self.6, self.7, self.8, self.9))
    }

    open spec fn spec_whole(self) -> (T0, T1, T2, T3, T4, T5, T6, T7, T8, T9) {
        self
    }

    fn split(self) -> (r: ((T0, T1, T2), (T3, T4, T5, T6, T7, T8, T9))) {
        ((self.0, self.1, self.2), (self.3, self.4, self.5, self.6, self.7, self.8, self.9))
    }

    proof fn lemma_split_len() {
    }

    proof fn lemma_split_rejoin(self) {
    }
}

impl<T0, T1, T2, T3, T4, T5, T6, T7, T8, T9> TypedSplit<4, (T0, T1, T2, T3), (T4, T5, T6, T7, T8,
    T9)>
    for (T0, T1, T2, T3, T4, T5, T6, T7, T8, T9)
{
    open spec fn spec_split(self) -> ((T0, T1, T2, T3), (T4, T5, T6, T7, T8, T9)) {
        ((self.0, self.1, self.2, self.3), (self.4, self.5, self.6, self.7, self.8, self.9))
    }

    open spec fn spec_whole(self) -> (T0, T1, T2, T3, T4, T5, T6, T7, T8, T9) {
        self
    }

    fn split(self) -> (r: ((T0, T1, T2, T3), (T4, T5, T6, T7, T8, T9))) {
        ((self.0, self.1, self.2, self.3), (self.4, self.5, self.6, self.7, self.8, self.9))
    }

    proof fn lemma_split_len() {
    }

    proof fn lemma_split_rejoin(self) {
    }
}

impl<T0, T1, T2, T3, T4, T5, T6, T7, T8, T9> TypedSplit<5, (T0, T1, T2, T3, T4), (T5, T6, T7, T8,
    T9)>
    for (T0, T1, T2, T3, T4, T5, T6, T7, T8, T9)
{
    open spec fn spec_split(self) -> ((T0, T1, T2, T3, T4), (T5, T6, T7, T8, T9)) {
        ((self.0, self.1, self.2, self.3, self.4), (self.5, self.6, self.7, self.8, self.9))
    }

    open spec fn spec_whole(self) -> (T0, T1, T2, T3, T4, T5, T6, T7, T8, T9) {
        self
    }

    fn split(self) -> (r: ((T0, T1, T2, T3, T4), (T5, T6, T7, T8, T9))) {
        ((self.0, self.1, self.2, self.3, self.4), (self.5, self.6, self.7, self.8, self.9))
    }

    proof fn lemma_split_len() {
    }

    proof fn lemma_split_rejoin(self) {
    }
}

impl<T0, T1, T2, T3, T4, T5, T6, T7, T8, T9> TypedSplit<6, (T0, T1, T2, T3, T4, T5), (T6, T7, T8,
    T9)>
    for (T0, T1, T2, T3, T4, T5, T6, T7, T8, T9)
{
    open spec fn spec_split(self) -> ((T0, T1, T2, T3, T4, T5), (T6, T7, T8, T9)) {
        ((self.0, self.1, self.2, self.3, self.4, self.5), (self.6, self.7, self.8, self.9))
    }

    open spec fn spec_whole(self) -> (T0, T1, T2, T3, T4, T5, T6, T7, T8, T9) {
        self
    }

    fn split(self) -> (r: ((T0, T1, T2, T3, T4, T5), (T6, T7, T8, T9))) {
        ((self.0, self.1, self.2, self.3, self.4, self.5), (self.6, self.7, self.8, self.9))
    }

    proof fn lemma_split_len() {
    }

    proof fn lemma_split_rejoin(self) {
    }
}

impl<T0, T1, T2, T3, T4, T5, T6, T7, T8, T9> TypedSplit<7, (T0, T1, T2, T3, T4, T5, T6), (T7, T8,
    T9)>
    for (T0, T1, T2, T3, T4, T5, T6, T7, T8, T9)
{
    open spec fn spec_split(self) -> ((T0, T1, T2, T3, T4, T5, T6), (T7, T8, T9)) {
        ((self.0, self.1, self.2, self.3, self.4, self.5, self.6), (self.7, self.8, self.9))
    }

    open spec fn spec_whole(self) -> (T0, T1, T2, T3, T4, T5, T6, T7, T8, T9) {
        self
    }

    fn split(self) -> (r: ((T0, T1, T2, T3, T4, T5, T6), (T7, T8, T9))) {
        ((self.0, self.1, self.2, self.3, self.4, self.5, self.6), (self.7, self.8, self.9))
    }

    proof fn lemma_split_len() {
    }

    proof fn lemma_split_rejoin(self) {
    }
}

impl<T0, T1, T2, T3, T4, T5, T6, T7, T8, T9> TypedSplit<8, (T0, T1, T2, T3, T4, T5, T6, T7), (T8,
    T9)>
    for (T0, T1, T2, T3, T4, T5, T6, T7, T8, T9)
{
    open spec fn spec_split(self) -> ((T0, T1, T2, T3, T4, T5, T6, T7), (T8, T9)) {
        ((self.0, self.1, self.2, self.3, self.4, self.5, self.6, self.7), (self.8, self.9))
    }

    open spec fn spec_whole(self) -> (T0, T1, T2, T3, T4, T5, T6, T7, T8, T9) {
        self
    }

    fn split(self) -> (r: ((T0, T1, T2, T3, T4, T5, T6, T7), (T8, T9))) {
        ((self.0, self.1, self.2, self.3, self.4, self.5, self.6, self.7), (self.8, self.9))
    }

    proof fn lemma_split_len() {
    }

    proof fn lemma_split_rejoin(self) {
    }
}

impl<T0, T1, T2, T3, T4, T5, T6, T7, T8, T9> TypedSplit<9, (T0, T1, T2, T3, T4, T5, T6, T7, T8),
    (T9,)>
    for (T0, T1, T2, T3, T4, T5, T6, T7, T8, T9)
{
    open spec fn spec_split(self) -> ((T0, T1, T2, T3, T4, T5, T6, T7, T8), (T9,)) {
        ((self.0, self.1, self.2, self.3, self.4, self.5, self.6, self.7, self.8), (self.9,))
    }

    open spec fn spec_whole(self) -> (T0, T1, T2, T3, T4, T5, T6, T7, T8, T9) {
        self
    }

    fn split(self) -> (r: ((T0, T1, T2, T3, T4, T5, T6, T7, T8), (T9,))) {
        ((self.0, self.1, self.2, self.3, self.4, self.5, self.6, self.7, self.8), (self.9,))
    }

    proof fn lemma_split_len() {
    }

    proof fn lemma_split_rejoin(self) {
    }
}

impl<T0, T1, T2, T3, T4, T5, T6, T7, T8, T9> TypedSplit<10, (T0, T1, T2, T3, T4, T5, T6, T7, T8,
    T9), ()>
    for (T0, T1, T2, T3, T4, T5, T6, T7, T8, T9)
{
    open spec fn spec_split(self) -> ((T0, T1, T2, T3, T4, T5, T6, T7, T8, T9), ()) {
        ((self.0, self.1, self.2, self.3, self.4, self.5, self.6, self.7, self.8, self.9), ())
    }

    open spec fn spec_whole(self) -> (T0, T1, T2, T3, T4, T5, T6, T7, T8, T9) {
        self
    }

    fn split(self) -> (r: ((T0, T1, T2, T3, T4, T5, T6, T7, T8, T9), ())) {
        ((self.0, self.1, self.2, self.3, self.4, self.5, self.6, self.7, self.8, self.9), ())
    }

    proof fn lemma_split_len() {
    }

    proof fn lemma_split_rejoin(self) {
    }
}

impl<T0, T1, T2, T3, T4, T5, T6, T7, T8, T9, T10> TypedSplit<0, (), (T0, T1, T2, T3, T4, T5, T6, T7,
    T8, T9, T10)>
    for (T0, T1, T2, T3, T4, T5, T6, T7, T8, T9, T10)
{
    open spec fn spec_split(self) -> ((), (T0, T1, T2, T3, T4, T5, T6, T7, T8, T9, T10)) {
        ((), (self.0, self.1, self.2, self.3, self.4, self.5, self.6, self.7, self.8, self.9,
            self.10))
    }

    open spec fn spec_whole(self) -> (T0, T1, T2, T3, T4, T5, T6, T7, T8, T9, T10) {
        self
    }

    fn split(self) -> (r: ((), (T0, T1, T2, T3, T4, T5, T6, T7, T8, T9, T10))) {
        ((), (self.0, self.1, self.2, self.3, self.4, self.5, self.6, self.7, self.8, self.9,
            self.10))
    }

    proof fn lemma_split_len() {
    }

    proof fn lemma_split_rejoin(self) {
    }
}

impl<T0, T1, T2, T3, T4, T5, T6, T7, T8, T9, T10> TypedSplit<1, (T0,), (T1, T2, T3, T4, T5, T6, T7,
    T8, T9, T10)>
    for (T0, T1, T2, T3, T4, T5, T6, T7, T8, T9, T10)
{
    open spec fn spec_split(self) -> ((T0,), (T1, T2, T3, T4, T5, T6, T7, T8, T9, T10)) {
        ((self.0,), (self.1, self.2, self.3, self.4, self.5, self.6, self.7, self.8, self.9,
            self.10))
    }

    open spec fn spec_whole(self) -> (T0, T1, T2, T3, T4, T5, T6, T7, T8, T9, T10) {
        self
    }

    fn split(self) -> (r: ((T0,), (T1, T2, T3, T4, T5, T6, T7, T8, T9, T10))) {
        ((self.0,), (self.1, self.2, self.3, self.4, self.5, self.6, self.7, self.8, self.9,
            self.10))
    }

    proof fn lemma_split_len() {
    }

    proof fn lemma_split_rejoin(self) {
    }
}

impl<T0, T1, T2, T3, T4, T5, T6, T7, T8, T9, T10> TypedSplit<2, (T0, T1), (T2, T3, T4, T5, T6, T7,
    T8, T9, T10)>
    for (T0, T1, T2, T3, T4, T5, T6, T7, T8, T9, T10)
{
    open spec fn spec_split(self) -> ((T0, T1), (T2, T3, T4, T5, T6, T7, T8, T9, T10)) {
        ((self.0, self.1), (self.2, self.3, self.4, self.5, self.6, self.7, self.8, self.9,
            self.10))
    }

    open spec fn spec_whole(self) -> (T0, T1, T2, T3, T4, T5, T6, T7, T8, T9, T10) {
        self
    }

    fn split(self) -> (r: ((T0, T1), (T2, T3, T4, T5, T6, T7, T8, T9, T10))) {
        ((self.0, self.1), (self.2, self.3, self.4, self.5, self.6, self.7, self.8, self.9,
            self.10))
    }

    proof fn lemma_split_len() {
    }

    proof fn lemma_split_rejoin(self) {
    }
}

impl<T0, T1, T2, T3, T4, T5, T6, T7, T8, T9, T10> TypedSplit<3, (T0, T1, T2), (T3, T4, T5, T6, T7,
    T8, T9, T10)>
    for (T0, T1, T2, T3, T4, T5, T6, T7, T8, T9, T10)
{
    open spec fn spec_split(self) -> ((T0, T1, T2), (T3, T4, T5, T6, T7, T8, T9, T10)) {
        ((self.0, self.1, self.2), (self.3, self.4, self.5, self.6, self.7, self.8, self.9,
            self.10))
    }

    open spec fn spec_whole(self) -> (T0, T1, T2, T3, T4, T5, T6, T7, T8, T9, T10) {
        self
    }

    fn split(self) -> (r: ((T0, T1, T2), (T3, T4, T5, T6, T7, T8, T9, T10))) {
        ((self.0, self.1, self.2), (self.3, self.4, self.5, self.6, self.7, self.8, self.9,
            self.10))
    }

    proof fn lemma_split_len() {
    }

    proof fn lemma_split_rejoin(self) {
    }
}

impl<T0, T1, T2, T3, T4, T5, T6, T7, T8, T9, T10> TypedSplit<4, (T0, T1, T2, T3), (T4, T5, T6, T7,
    T8, T9, T10)>
    for (T0, T1, T2, T3, T4, T5, T6, T7, T8, T9, T10)
{
    open spec fn spec_split(self) -> ((T0, T1, T2, T3), (T4, T5, T6, T7, T8, T9, T10)) {
        ((self.0, self.1, self.2, self.3), (self.4, self.5, self.6, self.7, self.8, self.9,
            self.10))
    }

    open spec fn spec_whole(self) -> (T0, T1, T2, T3, T4, T5, T6, T7, T8, T9, T10) {
        self
    }

    fn split(self) -> (r: ((T0, T1, T2, T3), (T4, T5, T6, T7, T8, T9, T10))) {
        ((self.0, self.1, self.2, self.3), (self.4, self.5, self.6, self.7, self.8, self.9,
            self.10))
    }

    proof fn lemma_split_len() {
    }

    proof fn lemma_split_rejoin(self) {
    }
}

impl<T0, T1, T2, T3, T4, T5, T6, T7, T8, T9, T10> TypedSplit<5, (T0, T1, T2, T3, T4), (T5, T6, T7,
    T8, T9, T10)>
    for (T0, T1, T2, T3, T4, T5, T6, T7, T8, T9, T10)
{
    open spec fn spec_split(self) -> ((T0, T1, T2, T3, T4), (T5, T6, T7, T8, T9, T10)) {
        ((self.0, self.1, self.2, self.3, self.4), (self.5, self.6, self.7, self.8, self.9,
            self.10))
    }

    open spec fn spec_whole(self) -> (T0, T1, T2, T3, T4, T5, T6, T7, T8, T9, T10) {
        self
    }

    fn split(self) -> (r: ((T0, T1, T2, T3, T4), (T5, T6, T7, T8, T9, T10))) {
        ((self.0, self.1, self.2, self.3, self.4), (self.5, self.6, self.7, self.8, self.9,
            self.10))
    }

    proof fn lemma_split_len() {
    }

    proof fn lemma_split_rejoin(self) {
    }
}

impl<T0, T1, T2, T3, T4, T5, T6, T7, T8, T9, T10> TypedSplit<6, (T0, T1, T2, T3, T4, T5), (T6, T7,
    T8, T9, T10)>
    for (T0, T1, T2, T3, T4, T5, T6, T7, T8, T9, T10)
{
    open spec fn spec_split(self) -> ((T0, T1, T2, T3, T4, T5), (T6, T7, T8, T9, T10)) {
        ((self.0, self.1, self.2, self.3, self.4, self.5), (self.6, self.7, self.8, self.9,
            self.10))
    }

    open spec fn spec_whole(self) -> (T0, T1, T2, T3, T4, T5, T6, T7, T8, T9, T10) {
        self
    }

    fn split(self) -> (r: ((T0, T1, T2, T3, T4, T5), (T6, T7, T8, T9, T10))) {
        ((self.0, self.1, self.2, self.3, self.4, self.5), (self.6, self.7, self.8, self.9,
            self.10))
    }

    proof fn lemma_split_len() {
    }

    proof fn lemma_split_rejoin(self) {
    }
}

impl<T0, T1, T2, T3, T4, T5, T6, T7, T8, T9, T10> TypedSplit<7, (T0, T1, T2, T3, T4, T5, T6), (T7,
    T8, T9, T10)>
    for (T0, T1, T2, T3, T4, T5, T6, T7, T8, T9, T10)
{
    open spec fn spec_split(self) -> ((T0, T1, T2, T3, T4, T5, T6), (T7, T8, T9, T10)) {
        ((self.0, self.1, self.2, self.3, self.4, self.5, self.6), (self.7, self.8, self.9,
            self.10))
    }

    open spec fn spec_whole(self) -> (T0, T1, T2, T3, T4, T5, T6, T7, T8, T9, T10) {
        self
    }

    fn split(self) -> (r: ((T0, T1, T2, T3, T4, T5, T6), (T7, T8, T9, T10))) {
        ((self.0, self.1, self.2, self.3, self.4, self.5, self.6), (self.7, self.8, self.9,
            self.10))
    }

    proof fn lemma_split_len() {
    }

    proof fn lemma_split_rejoin(self) {
    }
}

impl<T0, T1, T2, T3, T4, T5, T6, T7, T8, T9, T10> TypedSplit<8, (T0, T1, T2, T3, T4, T5, T6, T7),
    (T8, T9, T10)>
    for (T0, T1, T2, T3, T4, T5, T6, T7, T8, T9, T10)
{
    open spec fn spec_split(self) -> ((T0, T1, T2, T3, T4, T5, T6, T7), (T8, T9, T10)) {
        ((self.0, self.1, self.2, self.3, self.4, self.5, self.6, self.7), (self.8, self.9,
            self.10))
    }

    open spec fn spec_whole(self) -> (T0, T1, T2, T3, T4, T5, T6, T7, T8, T9, T10) {
        self
    }

    fn split(self) -> (r: ((T0, T1, T2, T3, T4, T5, T6, T7), (T8, T9, T10))) {
        ((self.0, self.1, self.2, self.3, self.4, self.5, self.6, self.7), (self.8, self.9,
            self.10))
    }

    proof fn lemma_split_len() {
    }

    proof fn lemma_split_rejoin(self) {
    }
}

impl<T0, T1, T2, T3, T4, T5, T6, T7, T8, T9, T10> TypedSplit<9, (T0, T1, T2, T3, T4, T5, T6, T7,
    T8), (T9, T10)>
    for (T0, T1, T2, T3, T4, T5, T6, T7, T8, T9, T10)
{
    open spec fn spec_split(self) -> ((T0, T1, T2, T3, T4, T5, T6, T7, T8), (T9, T10)) {
        ((self.0, self.1, self.2, self.3, self.4, self.5, self.6, self.7, self.8), (self.9,
            self.10))
    }

    open spec fn spec_whole(self) -> (T0, T1, T2, T3, T4, T5, T6, T7, T8, T9, T10) {
        self
    }

    fn split(self) -> (r: ((T0, T1, T2, T3, T4, T5, T6, T7, T8), (T9, T10))) {
        ((self.0, self.1, self.2, self.3, self.4, self.5, self.6, self.7, self.8), (self.9,
            self.10))
    }

    proof fn lemma_split_len() {
    }

    proof fn lemma_split_rejoin(self) {
    }
}

impl<T0, T1, T2, T3, T4, T5, T6, T7, T8, T9, T10> TypedSplit<10, (T0, T1, T2, T3, T4, T5, T6, T7,
    T8, T9), (T10,)>
    for (T0, T1, T2, T3, T4, T5, T6, T7, T8, T9, T10)
{
    open spec fn spec_split(self) -> ((T0, T1, T2, T3, T4, T5, T6, T7, T8, T9), (T10,)) {
        ((self.0, self.1, self.2, self.3, self.4, self.5, self.6, self.7, self.8, self.9),
            (self.10,))
    }

    open spec fn spec_whole(self) -> (T0, T1, T2, T3, T4, T5, T6, T7, T8, T9, T10) {
        self
    }

    fn split(self) -> (r: ((T0, T1, T2, T3, T4, T5, T6, T7, T8, T9), (T10,))) {
        ((self.0, self.1, self.2, self.3, self.4, self.5, self.6, self.7, self.8, self.9),
            (self.10,))
    }

    proof fn lemma_split_len() {
    }

    proof fn lemma_split_rejoin(self) {
    }
}

impl<T0, T1, T2, T3, T4, T5, T6, T7, T8, T9, T10> TypedSplit<11, (T0, T1, T2, T3, T4, T5, T6, T7,
    T8, T9, T10), ()>
    for (T0, T1, T2, T3, T4, T5, T6, T7, T8, T9, T10)
{
    open spec fn spec_split(self) -> ((T0, T1, T2, T3, T4, T5, T6, T7, T8, T9, T10), ()) {
        ((self.0, self.1, self.2, self.3, self.4, self.5, self.6, self.7, self.8, self.9, self.10),
            ())
    }

    open spec fn spec_whole(self) -> (T0, T1, T2, T3, T4, T5, T6, T7, T8, T9, T10) {
        self
    }

    fn split(self) -> (r: ((T0, T1, T2, T3, T4, T5, T6, T7, T8, T9, T10), ())) {
        ((self.0, self.1, self.2, self.3, self.4, self.5, self.6, self.7, self.8, self.9, self.10),
            ())
    }

    proof fn lemma_split_len() {
    }

    proof fn lemma_split_rejoin(self) {
    }
}

impl<T0, T1, T2, T3, T4, T5, T6, T7, T8, T9, T10, T11> TypedSplit<0, (), (T0, T1, T2, T3, T4, T5,
    T6, T7, T8, T9, T10, T11)>
    for (T0, T1, T2, T3, T4, T5, T6, T7, T8, T9, T10, T11)
{
    open spec fn spec_split(self) -> ((), (T0, T1, T2, T3, T4, T5, T6, T7, T8, T9, T10, T11)) {
        ((), (self.0, self.1, self.2, self.3, self.4, self.5, self.6, self.7, self.8, self.9,
            self.10, self.11))
    }

    open spec fn spec_whole(self) -> (T0, T1, T2, T3, T4, T5, T6, T7, T8, T9, T10, T11) {
        self
    }

    fn split(self) -> (r: ((), (T0, T1, T2, T3, T4, T5, T6, T7, T8, T9, T10, T11))) {
        ((), (self.0, self.1, self.2, self.3, self.4, self.5, self.6, self.7, self.8, self.9,
            self.10, self.11))
    }

    proof fn lemma_split_len() {
    }

    proof fn lemma_split_rejoin(self) {
    }
}

impl<T0, T1, T2, T3, T4, T5, T6, T7, T8, T9, T10, T11> TypedSplit<1, (T0,), (T1, T2, T3, T4, T5, T6,
    T7, T8, T9, T10, T11)>
    for (T0, T1, T2, T3, T4, T5, T6, T7, T8, T9, T10, T11)
{
    open spec fn spec_split(self) -> ((T0,), (T1, T2, T3, T4, T5, T6, T7, T8, T9, T10, T11)) {
        ((self.0,), (self.1, self.2, self.3, self.4, self.5, self.6, self.7, self.8, self.9,
            self.10, self.11))
    }

    open spec fn spec_whole(self) -> (T0, T1, T2, T3, T4, T5, T6, T7, T8, T9, T10, T11) {
        self
    }

    fn split(self) -> (r: ((T0,), (T1, T2, T3, T4, T5, T6, T7, T8, T9, T10, T11))) {
        ((self.0,), (self.1, self.2, self.3, self.4, self.5, self.6, self.7, self.8, self.9,
            self.10, self.11))
    }

    proof fn lemma_split_len() {
    }

    proof fn lemma_split_rejoin(self) {
    }
}

impl<T0, T1, T2, T3, T4, T5, T6, T7, T8, T9, T10, T11> TypedSplit<2, (T0, T1), (T2, T3, T4, T5, T6,
    T7, T8, T9, T10, T11)>
    for (T0, T1, T2, T3, T4, T5, T6, T7, T8, T9, T10, T11)
{
    open spec fn spec_split(self) -> ((T0, T1), (T2, T3, T4, T5, T6, T7, T8, T9, T10, T11)) {
        ((self.0, self.1), (self.2, self.3, self.4, self.5, self.6, self.7, self.8, self.9, self.10,
            self.11))
    }

    open spec fn spec_whole(self) -> (T0, T1, T2, T3, T4, T5, T6, T7, T8, T9, T10, T11) {
        self
    }

    fn split(self) -> (r: ((T0, T1), (T2, T3, T4, T5, T6, T7, T8, T9, T10, T11))) {
        ((self.0, self.1), (self.2, self.3, self.4, self.5, self.6, self.7, self.8, self.9, self.10,
            self.11))
    }

    proof fn lemma_split_len() {
    }

    proof fn lemma_split_rejoin(self) {
    }
}

impl<T0, T1, T2, T3, T4, T5, T6, T7, T8, T9, T10, T11> TypedSplit<3, (T0, T1, T2), (T3, T4, T5, T6,
    T7, T8, T9, T10, T11)>
    for (T0, T1, T2, T3, T4, T5, T6, T7, T8, T9, T10, T11)
{
    open spec fn spec_split(self) -> ((T0, T1, T2), (T3, T4, T5, T6, T7, T8, T9, T10, T11)) {
        ((self.0, self.1, self.2), (self.3, self.4, self.5, self.6, self.7, self.8, self.9, self.10,
            self.11))
    }

    open spec fn spec_whole(self) -> (T0, T1, T2, T3, T4, T5, T6, T7, T8, T9, T10, T11) {
        self
    }

    fn split(self) -> (r: ((T0, T1, T2), (T3, T4, T5, T6, T7, T8, T9, T10, T11))) {
        ((self.0, self.1, self.2), (self.3, self.4, self.5, self.6, self.7, self.8, self.9, self.10,
            self.11))
    }

    proof fn lemma_split_len() {
    }

    proof fn lemma_split_rejoin(self) {
    }
}

impl<T0, T1, T2, T3, T4, T5, T6, T7, T8, T9, T10, T11> TypedSplit<4, (T0, T1, T2, T3), (T4, T5, T6,
    T7, T8, T9, T10, T11)>
    for (T0, T1, T2, T3, T4, T5, T6, T7, T8, T9, T10, T11)
{
    open spec fn spec_split(self) -> ((T0, T1, T2, T3), (T4, T5, T6, T7, T8, T9, T10, T11)) {
        ((self.0, self.1, self.2, self.3), (self.4, self.5, self.6, self.7, self.8, self.9, self.10,
            self.11))
    }

    open spec fn spec_whole(self) -> (T0, T1, T2, T3, T4, T5, T6, T7, T8, T9, T10, T11) {
        self
    }

    fn split(self) -> (r: ((T0, T1, T2, T3), (T4, T5, T6, T7, T8, T9, T10, T11))) {
        ((self.0, self.1, self.2, self.3), (self.4, self.5, self.6, self.7, self.8, self.9, self.10,
            self.11))
    }

    proof fn lemma_split_len() {
    }

    proof fn lemma_split_rejoin(self) {
    }
}

impl<T0, T1, T2, T3, T4, T5, T6, T7, T8, T9, T10, T11> TypedSplit<5, (T0, T1, T2, T3, T4), (T5, T6,
    T7, T8, T9, T10, T11)>
    for (T0, T1, T2, T3, T4, T5, T6, T7, T8, T9, T10, T11)
{
    open spec fn spec_split(self) -> ((T0, T1, T2, T3, T4), (T5, T6, T7, T8, T9, T10, T11)) {
        ((self.0, self.1, self.2, self.3, self.4), (self.5, self.6, self.7, self.8, self.9, self.10,
            self.11))
    }

    open spec fn spec_whole(self) -> (T0, T1, T2, T3, T4, T5, T6, T7, T8, T9, T10, T11) {
        self
    }

    fn split(self) -> (r: ((T0, T1, T2, T3, T4), (T5, T6, T7, T8, T9, T10, T11))) {
        ((self.0, self.1, self.2, self.3, self.4), (self.5, self.6, self.7, self.8, self.9, self.10,
            self.11))
    }

    proof fn lemma_split_len() {
    }

    proof fn lemma_split_rejoin(self) {
    }
}

impl<T0, T1, T2, T3, T4, T5, T6, T7, T8, T9, T10, T11> TypedSplit<6, (T0, T1, T2, T3, T4, T5), (T6,
    T7, T8, T9, T10, T11)>
    for (T0, T1, T2, T3, T4, T5, T6, T7, T8, T9, T10, T11)
{
    open spec fn spec_split(self) -> ((T0, T1, T2, T3, T4, T5), (T6, T7, T8, T9, T10, T11)) {
        ((self.0, self.1, self.2, self.3, self.4, self.5), (self.6, self.7, self.8, self.9, self.10,
            self.11))
    }

    open spec fn spec_whole(self) -> (T0, T1, T2, T3, T4, T5, T6, T7, T8, T9, T10, T11) {
        self
    }

    fn split(self) -> (r: ((T0, T1, T2, T3, T4, T5), (T6, T7, T8, T9, T10, T11))) {
        ((self.0, self.1, self.2, self.3, self.4, self.5), (self.6, self.7, self.8, self.9, self.10,
            self.11))
    }

    proof fn lemma_split_len() {
    }

    proof fn lemma_split_rejoin(self) {
    }
}

impl<T0, T1, T2, T3, T4, T5, T6, T7, T8, T9, T10, T11> TypedSplit<7, (T0, T1, T2, T3, T4, T5, T6),
    (T7, T8, T9, T10, T11)>
    for (T0, T1, T2, T3, T4, T5, T6, T7, T8, T9, T10, T11)
{
    open spec fn spec_split(self) -> ((T0, T1, T2, T3, T4, T5, T6), (T7, T8, T9, T10, T11)) {
        ((self.0, self.1, self.2, self.3, self.4, self.5, self.6), (self.7, self.8, self.9, self.10,
            self.11))
    }

    open spec fn spec_whole(self) -> (T0, T1, T2, T3, T4, T5, T6, T7, T8, T9, T10, T11) {
        self
    }

    fn split(self) -> (r: ((T0, T1, T2, T3, T4, T5, T6), (T7, T8, T9, T10, T11))) {
        ((self.0, self.1, self.2, self.3, self.4, self.5, self.6), (self.7, self.8, self.9, self.10,
            self.11))
    }

    proof fn lemma_split_len() {
    }

    proof fn lemma_split_rejoin(self) {
    }
}

impl<T0, T1, T2, T3, T4, T5, T6, T7, T8, T9, T10, T11> TypedSplit<8, (T0, T1, T2, T3, T4, T5, T6,
    T7), (T8, T9, T10, T11)>
    for (T0, T1, T2, T3, T4, T5, T6, T7, T8, T9, T10, T11)
{
    open spec fn spec_split(self) -> ((T0, T1, T2, T3, T4, T5, T6, T7), (T8, T9, T10, T11)) {
        ((self.0, self.1, self.2, self.3, self.4, self.5, self.6, self.7), (self.8, self.9, self.10,
            self.11))
    }

    open spec fn spec_whole(self) -> (T0, T1, T2, T3, T4, T5, T6, T7, T8, T9, T10, T11) {
        self
    }

    fn split(self) -> (r: ((T0, T1, T2, T3, T4, T5, T6, T7), (T8, T9, T10, T11))) {
        ((self.0, self.1, self.2, self.3, self.4, self.5, self.6, self.7), (self.8, self.9, self.10,
            self.11))
    }

    proof fn lemma_split_len() {
    }

    proof fn lemma_split_rejoin(self) {
    }
}

impl<T0, T1, T2, T3, T4, T5, T6, T7, T8, T9, T10, T11> TypedSplit<9, (T0, T1, T2, T3, T4, T5, T6,
    T7, T8), (T9, T10, T11)>
    for (T0, T1, T2, T3, T4, T5, T6, T7, T8, T9, T10, T11)
{
    open spec fn spec_split(self) -> ((T0, T1, T2, T3, T4, T5, T6, T7, T8), (T9, T10, T11)) {
        ((self.0, self.1, self.2, self.3, self.4, self.5, self.6, self.7, self.8), (self.9, self.10,
            self.11))
    }

    open spec fn spec_whole(self) -> (T0, T1, T2, T3, T4, T5, T6, T7, T8, T9, T10, T11) {
        self
    }

    fn split(self) -> (r: ((T0, T1, T2, T3, T4, T5, T6, T7, T8), (T9, T10, T11))) {
        ((self.0, self.1, self.2, self.3, self.4, self.5, self.6, self.7, self.8), (self.9, self.10,
            self.11))
    }

    proof fn lemma_split_len() {
    }

    proof fn lemma_split_rejoin(self) {
    }
}

impl<T0, T1, T2, T3, T4, T5, T6, T7, T8, T9, T10, T11> TypedSplit<10, (T0, T1, T2, T3, T4, T5, T6,
    T7, T8, T9), (T10, T11)>
    for (T0, T1, T2, T3, T4, T5, T6, T7, T8, T9, T10, T11)
{
    open spec fn spec_split(self) -> ((T0, T1, T2, T3, T4, T5, T6, T7, T8, T9), (T10, T11)) {
        ((self.0, self.1, self.2, self.3, self.4, self.5, self.6, self.7, self.8, self.9), (self.10,
            self.11))
    }

    open spec fn spec_whole(self) -> (T0, T1, T2, T3, T4, T5, T6, T7, T8, T9, T10, T11) {
        self
    }

    fn split(self) -> (r: ((T0, T1, T2, T3, T4, T5, T6, T7, T8, T9), (T10, T11))) {
        ((self.0, self.1, self.2, self.3, self.4, self.5, self.6, self.7, self.8, self.9), (self.10,
            self.11))
    }

    proof fn lemma_split_len() {
    }

    proof fn lemma_split_rejoin(self) {
    }
}

impl<T0, T1, T2, T3, T4, T5, T6, T7, T8, T9, T10, T11> TypedSplit<11, (T0, T1, T2, T3, T4, T5, T6,
    T7, T8, T9, T10), (T11,)>
    for (T0, T1, T2, T3, T4, T5, T6, T7, T8, T9, T10, T11)
{
    open spec fn spec_split(self) -> ((T0, T1, T2, T3, T4, T5, T6, T7, T8, T9, T10), (T11,)) {
        ((self.0, self.1, self.2, self.3, self.4, self.5, self.6, self.7, self.8, self.9, self.10),
            (self.11,))
    }

    open spec fn spec_whole(self) -> (T0, T1, T2, T3, T4, T5, T6, T7, T8, T9, T10, T11) {
        self
    }

    fn split(self) -> (r: ((T0, T1, T2, T3, T4, T5, T6, T7, T8, T9, T10), (T11,))) {
        ((self.0, self.1, self.2, self.3, self.4, self.5, self.6, self.7, self.8, self.9, self.10),
            (self.11,))
    }

    proof fn lemma_split_len() {
    }

    proof fn lemma_split_rejoin(self) {
    }
}

impl<T0, T1, T2, T3, T4, T5, T6, T7, T8, T9, T10, T11> TypedSplit<12, (T0, T1, T2, T3, T4, T5, T6,
    T7, T8, T9, T10, T11), ()>
    for (T0, T1, T2, T3, T4, T5, T6, T7, T8, T9, T10, T11)
{
    open spec fn spec_split(self) -> ((T0, T1, T2, T3, T4, T5, T6, T7, T8, T9, T10, T11), ()) {
        ((self.0, self.1, self.2, self.3, self.4, self.5, self.6, self.7, self.8, self.9, self.10,
            self.11), ())
    }

    open spec fn spec_whole(self) -> (T0, T1, T2, T3, T4, T5, T6, T7, T8, T9, T10, T11) {
        self
    }

    fn split(self) -> (r: ((T0, T1, T2, T3, T4, T5, T6, T7, T8, T9, T10, T11), ())) {
        ((self.0, self.1, self.2, self.3, self.4, self.5, self.6, self.7, self.8, self.9, self.10,
            self.11), ())
    }

    proof fn lemma_split_len() {
    }

    proof fn lemma_split_rejoin(self) {
    }
}

/// Splits a sequence in two at the bound `INDEX` by exclusive reference: the
/// parts hold exclusive references to the elements, those before `INDEX` on
/// the left and the others on the right.
///
/// Each reference starts out at the element it stands for. Once the borrows
/// have ended the sequence holds, at each position, what was last written
/// through the reference for that position; each implementation states this
/// of `split_mut`.
pub trait TypedSplitMut<'a, const INDEX: usize, L: TupleLen, R: TupleLen>: TupleLen {
    /// The references in `parts` point, in order, at values equal to the
    /// elements of `self`.
    spec fn spec_borrows(&self, parts: (L, R)) -> bool;

    /// Split a tuple into the exclusive references to its elements, those
    /// before `INDEX` and the others.
    fn split_mut(&'a mut self) -> (r: (L, R))
        ensures
            old(self).spec_borrows(r),
    ;

    /// The left part has `INDEX` references, and the two parts have one for
    /// each element between them.
    proof fn lemma_split_mut_len()
        ensures
            L::spec_len() == INDEX,
            L::spec_len() + R::spec_len() == Self::spec_len(),
    ;
}

impl<'a, T0: 'a> TypedSplitMut<'a, 0, (), (&'a mut T0,)> for (T0,) {
    open spec fn spec_borrows(&self, parts: ((), (&'a mut T0,))) -> bool {
        *parts.1.0 == self.0
    }

    fn split_mut(&'a mut self) -> (r: ((), (&'a mut T0,)))
        ensures
            ({
                let parts: ((), (&'a mut T0,)) = r;
                *final(self) == (*final(parts.1.0),)
            }),
    {
        ((), (&mut self.0,))
    }

    proof fn lemma_split_mut_len() {
    }
}

impl<'a, T0: 'a> TypedSplitMut<'a, 1, (&'a mut T0,), ()> for (T0,) {
    open spec fn spec_borrows(&self, parts: ((&'a mut T0,), ())) -> bool {
        *parts.0.0 == self.0
    }

    fn split_mut(&'a mut self) -> (r: ((&'a mut T0,), ()))
        ensures
            ({
                let parts: ((&'a mut T0,), ()) = r;
                *final(self) == (*final(parts.0.0),)
            }),
    {
        ((&mut self.0,), ())
    }

    proof fn lemma_split_mut_len() {
    }
}

impl<'a, T0: 'a, T1: 'a> TypedSplitMut<'a, 0, (), (&'a mut T0, &'a mut T1)> for (T0, T1) {
    open spec fn spec_borrows(&self, parts: ((), (&'a mut T0, &'a mut T1))) -> bool {
        &&& *parts.1.0 == self.0
        &&& *parts.1.1 == self.1
    }

    fn split_mut(&'a mut self) -> (r: ((), (&'a mut T0, &'a mut T1)))
        ensures
            ({
                let parts: ((), (&'a mut T0, &'a mut T1)) = r;
                *final(self) == (*final(parts.1.0), *final(parts.1.1))
            }),
    {
        ((), (&mut self.0, &mut self.1))
    }

    proof fn lemma_split_mut_len() {
    }
}

impl<'a, T0: 'a, T1: 'a> TypedSplitMut<'a, 1, (&'a mut T0,), (&'a mut T1,)> for (T0, T1) {
    open spec fn spec_borrows(&self, parts: ((&'a mut T0,), (&'a mut T1,))) -> bool {
        &&& *parts.0.0 == self.0
        &&& *parts.1.0 == self.1
    }

    fn split_mut(&'a mut self) -> (r: ((&'a mut T0,), (&'a mut T1,)))
        ensures
            ({
                let parts: ((&'a mut T0,), (&'a mut T1,)) = r;
                *final(self) == (*final(parts.0.0), *final(parts.1.0))
            }),
    {
        ((&mut self.0,), (&mut self.1,))
    }

    proof fn lemma_split_mut_len() {
    }
}

impl<'a, T0: 'a, T1: 'a> TypedSplitMut<'a, 2, (&'a mut T0, &'a mut T1), ()> for (T0, T1) {
    open spec fn spec_borrows(&self, parts: ((&'a mut T0, &'a mut T1), ())) -> bool {
        &&& *parts.0.0 == self.0
        &&& *parts.0.1 == self.1
    }

    fn split_mut(&'a mut self) -> (r: ((&'a mut T0, &'a mut T1), ()))
        ensures
            ({
                let parts: ((&'a mut T0, &'a mut T1), ()) = r;
                *final(self) == (*final(parts.0.0), *final(parts.0.1))
            }),
    {
        ((&mut self.0, &mut self.1), ())
    }

    proof fn lemma_split_mut_len() {
    }
}

impl<'a, T0: 'a, T1: 'a, T2: 'a> TypedSplitMut<'a, 0, (), (&'a mut T0, &'a mut T1, &'a mut T2)>
    for (T0, T1, T2)
{
    open spec fn spec_borrows(&self, parts: ((), (&'a mut T0, &'a mut T1, &'a mut T2))) -> bool {
        &&& *parts.1.0 == self.0
        &&& *parts.1.1 == self.1
        &&& *parts.1.2 == self.2
    }

    fn split_mut(&'a mut self) -> (r: ((), (&'a mut T0, &'a mut T1, &'a mut T2)))
        ensures
            ({
                let parts: ((), (&'a mut T0, &'a mut T1, &'a mut T2)) = r;
                *final(self) == (*final(parts.1.0), *final(parts.1.1), *final(parts.1.2))
            }),
    {
        ((), (&mut self.0, &mut self.1, &mut self.2))
    }

    proof fn lemma_split_mut_len() {
    }
}

impl<'a, T0: 'a, T1: 'a, T2: 'a> TypedSplitMut<'a, 1, (&'a mut T0,), (&'a mut T1, &'a mut T2)>
    for (T0, T1, T2)
{
    open spec fn spec_borrows(&self, parts: ((&'a mut T0,), (&'a mut T1, &'a mut T2))) -> bool {
        &&& *parts.0.0 == self.0
        &&& *parts.1.0 == self.1
        &&& *parts.1.1 == self.2
    }

    fn split_mut(&'a mut self) -> (r: ((&'a mut T0,), (&'a mut T1, &'a mut T2)))
        ensures
            ({
                let parts: ((&'a mut T0,), (&'a mut T1, &'a mut T2)) = r;
                *final(self) == (*final(parts.0.0), *final(parts.1.0), *final(parts.1.1))
            }),
    {
        ((&mut self.0,), (&mut self.1, &mut self.2))
    }

    proof fn lemma_split_mut_len() {
    }
}

impl<'a, T0: 'a, T1: 'a, T2: 'a> TypedSplitMut<'a, 2, (&'a mut T0, &'a mut T1), (&'a mut T2,)>
    for (T0, T1, T2)
{
    open spec fn spec_borrows(&self, parts: ((&'a mut T0, &'a mut T1), (&'a mut T2,))) -> bool {
        &&& *parts.0.0 == self.0
        &&& *parts.0.1 == self.1
        &&& *parts.1.0 == self.2
    }

    fn split_mut(&'a mut self) -> (r: ((&'a mut T0, &'a mut T1), (&'a mut T2,)))
        ensures
            ({
                let parts: ((&'a mut T0, &'a mut T1), (&'a mut T2,)) = r;
                *final(self) == (*final(parts.0.0), *final(parts.0.1), *final(parts.1.0))
            }),
    {
        ((&mut self.0, &mut self.1), (&mut self.2,))
    }

    proof fn lemma_split_mut_len() {
    }
}

impl<'a, T0: 'a, T1: 'a, T2: 'a> TypedSplitMut<'a, 3, (&'a mut T0, &'a mut T1, &'a mut T2), ()>
    for (T0, T1, T2)
{
    open spec fn spec_borrows(&self, parts: ((&'a mut T0, &'a mut T1, &'a mut T2), ())) -> bool {
        &&& *parts.0.0 == self.0
        &&& *parts.0.1 == self.1
        &&& *parts.0.2 == self.2
    }

    fn split_mut(&'a mut self) -> (r: ((&'a mut T0, &'a mut T1, &'a mut T2), ()))
        ensures
            ({
                let parts: ((&'a mut T0, &'a mut T1, &'a mut T2), ()) = r;
                *final(self) == (*final(parts.0.0), *final(parts.0.1), *final(parts.0.2))
            }),
    {
        ((&mut self.0, &mut self.1, &mut self.2), ())
    }

    proof fn lemma_split_mut_len() {
    }
}

impl<'a, T0: 'a, T1: 'a, T2: 'a, T3: 'a> TypedSplitMut<'a, 0, (), (&'a mut T0, &'a mut T1,
    &'a mut T2, &'a mut T3)>
    for (T0, T1, T2, T3)
{
    open spec fn spec_borrows(&self, parts: ((), (&'a mut T0, &'a mut T1, &'a mut T2,
        &'a mut T3))) -> bool {
        &&& *parts.1.0 == self.0
        &&& *parts.1.1 == self.1
        &&& *parts.1.2 == self.2
        &&& *parts.1.3 == self.3
    }

    fn split_mut(&'a mut self) -> (r: ((), (&'a mut T0, &'a mut T1, &'a mut T2, &'a mut T3)))
        ensures
            ({
                let parts: ((), (&'a mut T0, &'a mut T1, &'a mut T2, &'a mut T3)) = r;
                *final(self) == (*final(parts.1.0), *final(parts.1.1), *final(parts.1.2),
                    *final(parts.1.3))
            }),
    {
        ((), (&mut self.0, &mut self.1, &mut self.2, &mut self.3))
    }

    proof fn lemma_split_mut_len() {
    }
}

impl<'a, T0: 'a, T1: 'a, T2: 'a, T3: 'a> TypedSplitMut<'a, 1, (&'a mut T0,), (&'a mut T1,
    &'a mut T2, &'a mut T3)>
    for (T0, T1, T2, T3)
{
    open spec fn spec_borrows(&self, parts: ((&'a mut T0,), (&'a mut T1, &'a mut T2,
        &'a mut T3))) -> bool {
        &&& *parts.0.0 == self.0
        &&& *parts.1.0 == self.1
        &&& *parts.1.1 == self.2
        &&& *parts.1.2 == self.3
    }

    fn split_mut(&'a mut self) -> (r: ((&'a mut T0,), (&'a mut T1, &'a mut T2, &'a mut T3)))
        ensures
            ({
                let parts: ((&'a mut T0,), (&'a mut T1, &'a mut T2, &'a mut T3)) = r;
                *final(self) == (*final(parts.0.0), *final(parts.1.0), *final(parts.1.1),
                    *final(parts.1.2))
            }),
    {
        ((&mut self.0,), (&mut self.1, &mut self.2, &mut self.3))
    }

    proof fn lemma_split_mut_len() {
    }
}

impl<'a, T0: 'a, T1: 'a, T2: 'a, T3: 'a> TypedSplitMut<'a, 2, (&'a mut T0, &'a mut T1), (&'a mut T2,
    &'a mut T3)>
    for (T0, T1, T2, T3)
{
    open spec fn spec_borrows(&self, parts: ((&'a mut T0, &'a mut T1), (&'a mut T2,
        &'a mut T3))) -> bool {
        &&& *parts.0.0 == self.0
        &&& *parts.0.1 == self.1
        &&& *parts.1.0 == self.2
        &&& *parts.1.1 == self.3
    }

    fn split_mut(&'a mut self) -> (r: ((&'a mut T0, &'a mut T1), (&'a mut T2, &'a mut T3)))
        ensures
            ({
                let parts: ((&'a mut T0, &'a mut T1), (&'a mut T2, &'a mut T3)) = r;
                *final(self) == (*final(parts.0.0), *final(parts.0.1), *final(parts.1.0),
                    *final(parts.1.1))
            }),
    {
        ((&mut self.0, &mut self.1), (&mut self.2, &mut self.3))
    }

    proof fn lemma_split_mut_len() {
    }
}

impl<'a, T0: 'a, T1: 'a, T2: 'a, T3: 'a> TypedSplitMut<'a, 3, (&'a mut T0, &'a mut T1, &'a mut T2),
    (&'a mut T3,)>
    for (T0, T1, T2, T3)
{
    open spec fn spec_borrows(&self, parts: ((&'a mut T0, &'a mut T1, &'a mut T2),
        (&'a mut T3,))) -> bool {
        &&& *parts.0.0 == self.0
        &&& *parts.0.1 == self.1
        &&& *parts.0.2 == self.2
        &&& *parts.1.0 == self.3
    }

    fn split_mut(&'a mut self) -> (r: ((&'a mut T0, &'a mut T1, &'a mut T2), (&'a mut T3,)))
        ensures
            ({
                let parts: ((&'a mut T0, &'a mut T1, &'a mut T2), (&'a mut T3,)) = r;
                *final(self) == (*final(parts.0.0), *final(parts.0.1), *final(parts.0.2),
                    *final(parts.1.0))
            }),
    {
        ((&mut self.0, &mut self.1, &mut self.2), (&mut self.3,))
    }

    proof fn lemma_split_mut_len() {
    }
}

impl<'a, T0: 'a, T1: 'a, T2: 'a, T3: 'a> TypedSplitMut<'a, 4, (&'a mut T0, &'a mut T1, &'a mut T2,
    &'a mut T3), ()>
    for (T0, T1, T2, T3)
{
    open spec fn spec_borrows(&self, parts: ((&'a mut T0, &'a mut T1, &'a mut T2, &'a mut T3),
        ())) -> bool {
        &&& *parts.0.0 == self.0
        &&& *parts.0.1 == self.1
        &&& *parts.0.2 == self.2
        &&& *parts.0.3 == self.3
    }

    fn split_mut(&'a mut self) -> (r: ((&'a mut T0, &'a mut T1, &'a mut T2, &'a mut T3), ()))
        ensures
            ({
                let parts: ((&'a mut T0, &'a mut T1, &'a mut T2, &'a mut T3), ()) = r;
                *final(self) == (*final(parts.0.0), *final(parts.0.1), *final(parts.0.2),
                    *final(parts.0.3))
            }),
    {
        ((&mut self.0, &mut self.1, &mut self.2, &mut self.3), ())
    }

    proof fn lemma_split_mut_len() {
    }
}

impl<'a, T0: 'a, T1: 'a, T2: 'a, T3: 'a, T4: 'a> TypedSplitMut<'a, 0, (), (&'a mut T0, &'a mut T1,
    &'a mut T2, &'a mut T3, &'a mut T4)>
    for (T0, T1, T2, T3, T4)
{
    open spec fn spec_borrows(&self, parts: ((), (&'a mut T0, &'a mut T1, &'a mut T2, &'a mut T3,
        &'a mut T4))) -> bool {
        &&& *parts.1.0 == self.0
        &&& *parts.1.1 == self.1
        &&& *parts.1.2 == self.2
        &&& *parts.1.3 == self.3
        &&& *parts.1.4 == self.4
    }

    fn split_mut(&'a mut self) -> (r: ((), (&'a mut T0, &'a mut T1, &'a mut T2, &'a mut T3,
        &'a mut T4)))
        ensures
            ({
                let parts: ((), (&'a mut T0, &'a mut T1, &'a mut T2, &'a mut T3, &'a mut T4)) = r;
                *final(self) == (*final(parts.1.0), *final(parts.1.1), *final(parts.1.2),
                    *final(parts.1.3), *final(parts.1.4))
            }),
    {
        ((), (&mut self.0, &mut self.1, &mut self.2, &mut self.3, &mut self.4))
    }

    proof fn lemma_split_mut_len() {
    }
}

impl<'a, T0: 'a, T1: 'a, T2: 'a, T3: 'a, T4: 'a> TypedSplitMut<'a, 1, (&'a mut T0,), (&'a mut T1,
    &'a mut T2, &'a mut T3, &'a mut T4)>
    for (T0, T1, T2, T3, T4)
{
    open spec fn spec_borrows(&self, parts: ((&'a mut T0,), (&'a mut T1, &'a mut T2, &'a mut T3,
        &'a mut T4))) -> bool {
        &&& *parts.0.0 == self.0
        &&& *parts.1.0 == self.1
        &&& *parts.1.1 == self.2
        &&& *parts.1.2 == self.3
        &&& *parts.1.3 == self.4
    }

    fn split_mut(&'a mut self) -> (r: ((&'a mut T0,), (&'a mut T1, &'a mut T2, &'a mut T3,
        &'a mut T4)))
        ensures
            ({
                let parts: ((&'a mut T0,), (&'a mut T1, &'a mut T2, &'a mut T3, &'a mut T4)) = r;
                *final(self) == (*final(parts.0.0), *final(parts.1.0), *final(parts.1.1),
                    *final(parts.1.2), *final(parts.1.3))
            }),
    {
        ((&mut self.0,), (&mut self.1, &mut self.2, &mut self.3, &mut self.4))
    }

    proof fn lemma_split_mut_len() {
    }
}

impl<'a, T0: 'a, T1: 'a, T2: 'a, T3: 'a, T4: 'a> TypedSplitMut<'a, 2, (&'a mut T0, &'a mut T1),
    (&'a mut T2, &'a mut T3, &'a mut T4)>
    for (T0, T1, T2, T3, T4)
{
    open spec fn spec_borrows(&self, parts: ((&'a mut T0, &'a mut T1), (&'a mut T2, &'a mut T3,
        &'a mut T4))) -> bool {
        &&& *parts.0.0 == self.0
        &&& *parts.0.1 == self.1
        &&& *parts.1.0 == self.2
        &&& *parts.1.1 == self.3
        &&& *parts.1.2 == self.4
    }

    fn split_mut(&'a mut self) -> (r: ((&'a mut T0, &'a mut T1), (&'a mut T2, &'a mut T3,
        &'a mut T4)))
        ensures
            ({
                let parts: ((&'a mut T0, &'a mut T1), (&'a mut T2, &'a mut T3, &'a mut T4)) = r;
                *final(self) == (*final(parts.0.0), *final(parts.0.1), *final(parts.1.0),
                    *final(parts.1.1), *final(parts.1.2))
            }),
    {
        ((&mut self.0, &mut self.1), (&mut self.2, &mut self.3, &mut self.4))
    }

    proof fn lemma_split_mut_len() {
    }
}

impl<'a, T0: 'a, T1: 'a, T2: 'a, T3: 'a, T4: 'a> TypedSplitMut<'a, 3, (&'a mut T0, &'a mut T1,
    &'a mut T2), (&'a mut T3, &'a mut T4)>
    for (T0, T1, T2, T3, T4)
{
    open spec fn spec_borrows(&self, parts: ((&'a mut T0, &'a mut T1, &'a mut T2), (&'a mut T3,
        &'a mut T4))) -> bool {
        &&& *parts.0.0 == self.0
        &&& *parts.0.1 == self.1
        &&& *parts.0.2 == self.2
        &&& *parts.1.0 == self.3
        &&& *parts.1.1 == self.4
    }

    fn split_mut(&'a mut self) -> (r: ((&'a mut T0, &'a mut T1, &'a mut T2), (&'a mut T3,
        &'a mut T4)))
        ensures
            ({
                let parts: ((&'a mut T0, &'a mut T1, &'a mut T2), (&'a mut T3, &'a mut T4)) = r;
                *final(self) == (*final(parts.0.0), *final(parts.0.1), *final(parts.0.2),
                    *final(parts.1.0), *final(parts.1.1))
            }),
    {
        ((&mut self.0, &mut self.1, &mut self.2), (&mut self.3, &mut self.4))
    }

    proof fn lemma_split_mut_len() {
    }
}

impl<'a, T0: 'a, T1: 'a, T2: 'a, T3: 'a, T4: 'a> TypedSplitMut<'a, 4, (&'a mut T0, &'a mut T1,
    &'a mut T2, &'a mut T3), (&'a mut T4,)>
    for (T0, T1, T2, T3, T4)
{
    open spec fn spec_borrows(&self, parts: ((&'a mut T0, &'a mut T1, &'a mut T2, &'a mut T3),
        (&'a mut T4,))) -> bool {
        &&& *parts.0.0 == self.0
        &&& *parts.0.1 == self.1
        &&& *parts.0.2 == self.2
        &&& *parts.0.3 == self.3
        &&& *parts.1.0 == self.4
    }

    fn split_mut(&'a mut self) -> (r: ((&'a mut T0, &'a mut T1, &'a mut T2, &'a mut T3),
        (&'a mut T4,)))
        ensures
            ({
                let parts: ((&'a mut T0, &'a mut T1, &'a mut T2, &'a mut T3), (&'a mut T4,)) = r;
                *final(self) == (*final(parts.0.0), *final(parts.0.1), *final(parts.0.2),
                    *final(parts.0.3), *final(parts.1.0))
            }),
    {
        ((&mut self.0, &mut self.1, &mut self.2, &mut self.3), (&mut self.4,))
    }

    proof fn lemma_split_mut_len() {
    }
}

impl<'a, T0: 'a, T1: 'a, T2: 'a, T3: 'a, T4: 'a> TypedSplitMut<'a, 5, (&'a mut T0, &'a mut T1,
    &'a mut T2, &'a mut T3, &'a mut T4), ()>
    for (T0, T1, T2, T3, T4)
{
    open spec fn spec_borrows(&self, parts: ((&'a mut T0, &'a mut T1, &'a mut T2, &'a mut T3,
        &'a mut T4), ())) -> bool {
        &&& *parts.0.0 == self.0
        &&& *parts.0.1 == self.1
        &&& *parts.0.2 == self.2
        &&& *parts.0.3 == self.3
        &&& *parts.0.4 == self.4
    }

    fn split_mut(&'a mut self) -> (r: ((&'a mut T0, &'a mut T1, &'a mut T2, &'a mut T3, &'a mut T4),
        ()))
        ensures
            ({
                let parts: ((&'a mut T0, &'a mut T1, &'a mut T2, &'a mut T3, &'a mut T4), ()) = r;
                *final(self) == (*final(parts.0.0), *final(parts.0.1), *final(parts.0.2),
                    *final(parts.0.3), *final(parts.0.4))
            }),
    {
        ((&mut self.0, &mut self.1, &mut self.2, &mut self.3, &mut self.4), ())
    }

    proof fn lemma_split_mut_len() {
    }
}

impl<'a, T0: 'a, T1: 'a, T2: 'a, T3: 'a, T4: 'a, T5: 'a> TypedSplitMut<'a, 0, (), (&'a mut T0,
    &'a mut T1, &'a mut T2, &'a mut T3, &'a mut T4, &'a mut T5)>
    for (T0, T1, T2, T3, T4, T5)
{
    open spec fn spec_borrows(&self, parts: ((), (&'a mut T0, &'a mut T1, &'a mut T2, &'a mut T3,
        &'a mut T4, &'a mut T5))) -> bool {
        &&& *parts.1.0 == self.0
        &&& *parts.1.1 == self.1
        &&& *parts.1.2 == self.2
        &&& *parts.1.3 == self.3
        &&& *parts.1.4 == self.4
        &&& *parts.1.5 == self.5
    }

    fn split_mut(&'a mut self) -> (r: ((), (&'a mut T0, &'a mut T1, &'a mut T2, &'a mut T3,
        &'a mut T4, &'a mut T5)))
        ensures
            ({
                let parts: ((), (&'a mut T0, &'a mut T1, &'a mut T2, &'a mut T3, &'a mut T4,
                    &'a mut T5)) = r;
                *final(self) == (*final(parts.1.0), *final(parts.1.1), *final(parts.1.2),
                    *final(parts.1.3), *final(parts.1.4), *final(parts.1.5))
            }),
    {
        ((), (&mut self.0, &mut self.1, &mut self.2, &mut self.3, &mut self.4, &mut self.5))
    }

    proof fn lemma_split_mut_len() {
    }
}

impl<'a, T0: 'a, T1: 'a, T2: 'a, T3: 'a, T4: 'a, T5: 'a> TypedSplitMut<'a, 1, (&'a mut T0,),
    (&'a mut T1, &'a mut T2, &'a mut T3, &'a mut T4, &'a mut T5)>
    for (T0, T1, T2, T3, T4, T5)
{
    open spec fn spec_borrows(&self, parts: ((&'a mut T0,), (&'a mut T1, &'a mut T2, &'a mut T3,
        &'a mut T4, &'a mut T5))) -> bool {
        &&& *parts.0.0 == self.0
        &&& *parts.1.0 == self.1
        &&& *parts.1.1 == self.2
        &&& *parts.1.2 == self.3
        &&& *parts.1.3 == self.4
        &&& *parts.1.4 == self.5
    }

    fn split_mut(&'a mut self) -> (r: ((&'a mut T0,), (&'a mut T1, &'a mut T2, &'a mut T3,
        &'a mut T4, &'a mut T5)))
        ensures
            ({
                let parts: ((&'a mut T0,), (&'a mut T1, &'a mut T2, &'a mut T3, &'a mut T4,
                    &'a mut T5)) = r;
                *final(self) == (*final(parts.0.0), *final(parts.1.0), *final(parts.1.1),
                    *final(parts.1.2), *final(parts.1.3), *final(parts.1.4))
            }),
    {
        ((&mut self.0,), (&mut self.1, &mut self.2, &mut self.3, &mut self.4, &mut self.5))
    }

    proof fn lemma_split_mut_len() {
    }
}

impl<'a, T0: 'a, T1: 'a, T2: 'a, T3: 'a, T4: 'a, T5: 'a> TypedSplitMut<'a, 2, (&'a mut T0,
    &'a mut T1), (&'a mut T2, &'a mut T3, &'a mut T4, &'a mut T5)>
    for (T0, T1, T2, T3, T4, T5)
{
    open spec fn spec_borrows(&self, parts: ((&'a mut T0, &'a mut T1), (&'a mut T2, &'a mut T3,
        &'a mut T4, &'a mut T5))) -> bool {
        &&& *parts.0.0 == self.0
        &&& *parts.0.1 == self.1
        &&& *parts.1.0 == self.2
        &&& *parts.1.1 == self.3
        &&& *parts.1.2 == self.4
        &&& *parts.1.3 == self.5
    }

    fn split_mut(&'a mut self) -> (r: ((&'a mut T0, &'a mut T1), (&'a mut T2, &'a mut T3,
        &'a mut T4, &'a mut T5)))
        ensures
            ({
                let parts: ((&'a mut T0, &'a mut T1), (&'a mut T2, &'a mut T3, &'a mut T4,
                    &'a mut T5)) = r;
                *final(self) == (*final(parts.0.0), *final(parts.0.1), *final(parts.1.0),
                    *final(parts.1.1), *final(parts.1.2), *final(parts.1.3))
            }),
    {
        ((&mut self.0, &mut self.1), (&mut self.2, &mut self.3, &mut self.4, &mut self.5))
    }

    proof fn lemma_split_mut_len() {
    }
}

impl<'a, T0: 'a, T1: 'a, T2: 'a, T3: 'a, T4: 'a, T5: 'a> TypedSplitMut<'a, 3, (&'a mut T0,
    &'a mut T1, &'a mut T2), (&'a mut T3, &'a mut T4, &'a mut T5)>
    for (T0, T1, T2, T3, T4, T5)
{
    open spec fn spec_borrows(&self, parts: ((&'a mut T0, &'a mut T1, &'a mut T2), (&'a mut T3,
        &'a mut T4, &'a mut T5))) -> bool {
        &&& *parts.0.0 == self.0
        &&& *parts.0.1 == self.1
        &&& *parts.0.2 == self.2
        &&& *parts.1.0 == self.3
        &&& *parts.1.1 == self.4
        &&& *parts.1.2 == self.5
    }

    fn split_mut(&'a mut self) -> (r: ((&'a mut T0, &'a mut T1, &'a mut T2), (&'a mut T3,
        &'a mut T4, &'a mut T5)))
        ensures
            ({
                let parts: ((&'a mut T0, &'a mut T1, &'a mut T2), (&'a mut T3, &'a mut T4,
                    &'a mut T5)) = r;
                *final(self) == (*final(parts.0.0), *final(parts.0.1), *final(parts.0.2),
                    *final(parts.1.0), *final(parts.1.1), *final(parts.1.2))
            }),
    {
        ((&mut self.0, &mut self.1, &mut self.2), (&mut self.3, &mut self.4, &mut self.5))
    }

    proof fn lemma_split_mut_len() {
    }
}

impl<'a, T0: 'a, T1: 'a, T2: 'a, T3: 'a, T4: 'a, T5: 'a> TypedSplitMut<'a, 4, (&'a mut T0,
    &'a mut T1, &'a mut T2, &'a mut T3), (&'a mut T4, &'a mut T5)>
    for (T0, T1, T2, T3, T4, T5)
{
    open spec fn spec_borrows(&self, parts: ((&'a mut T0, &'a mut T1, &'a mut T2, &'a mut T3),
        (&'a mut T4, &'a mut T5))) -> bool {
        &&& *parts.0.0 == self.0
        &&& *parts.0.1 == self.1
        &&& *parts.0.2 == self.2
        &&& *parts.0.3 == self.3
        &&& *parts.1.0 == self.4
        &&& *parts.1.1 == self.5
    }

    fn split_mut(&'a mut self) -> (r: ((&'a mut T0, &'a mut T1, &'a mut T2, &'a mut T3),
        (&'a mut T4, &'a mut T5)))
        ensures
            ({
                let parts: ((&'a mut T0, &'a mut T1, &'a mut T2, &'a mut T3), (&'a mut T4,
                    &'a mut T5)) = r;
                *final(self) == (*final(parts.0.0), *final(parts.0.1), *final(parts.0.2),
                    *final(parts.0.3), *final(parts.1.0), *final(parts.1.1))
            }),
    {
        ((&mut self.0, &mut self.1, &mut self.2, &mut self.3), (&mut self.4, &mut self.5))
    }

    proof fn lemma_split_mut_len() {
    }
}

impl<'a, T0: 'a, T1: 'a, T2: 'a, T3: 'a, T4: 'a, T5: 'a> TypedSplitMut<'a, 5, (&'a mut T0,
    &'a mut T1, &'a mut T2, &'a mut T3, &'a mut T4), (&'a mut T5,)>
    for (T0, T1, T2, T3, T4, T5)
{
    open spec fn spec_borrows(&self, parts: ((&'a mut T0, &'a mut T1, &'a mut T2, &'a mut T3,
        &'a mut T4), (&'a mut T5,))) -> bool {
        &&& *parts.0.0 == self.0
        &&& *parts.0.1 == self.1
        &&& *parts.0.2 == self.2
        &&& *parts.0.3 == self.3
        &&& *parts.0.4 == self.4
        &&& *parts.1.0 == self.5
    }

    fn split_mut(&'a mut self) -> (r: ((&'a mut T0, &'a mut T1, &'a mut T2, &'a mut T3, &'a mut T4),
        (&'a mut T5,)))
        ensures
            ({
                let parts: ((&'a mut T0, &'a mut T1, &'a mut T2, &'a mut T3, &'a mut T4),
                    (&'a mut T5,)) = r;
                *final(self) == (*final(parts.0.0), *final(parts.0.1), *final(parts.0.2),
                    *final(parts.0.3), *final(parts.0.4), *final(parts.1.0))
            }),
    {
        ((&mut self.0, &mut self.1, &mut self.2, &mut self.3, &mut self.4), (&mut self.5,))
    }

    proof fn lemma_split_mut_len() {
    }
}

impl<'a, T0: 'a, T1: 'a, T2: 'a, T3: 'a, T4: 'a, T5: 'a> TypedSplitMut<'a, 6, (&'a mut T0,
    &'a mut T1, &'a mut T2, &'a mut T3, &'a mut T4, &'a mut T5), ()>
    for (T0, T1, T2, T3, T4, T5)
{
    open spec fn spec_borrows(&self, parts: ((&'a mut T0, &'a mut T1, &'a mut T2, &'a mut T3,
        &'a mut T4, &'a mut T5), ())) -> bool {
        &&& *parts.0.0 == self.0
        &&& *parts.0.1 == self.1
        &&& *parts.0.2 == self.2
        &&& *parts.0.3 == self.3
        &&& *parts.0.4 == self.4
        &&& *parts.0.5 == self.5
    }

    fn split_mut(&'a mut self) -> (r: ((&'a mut T0, &'a mut T1, &'a mut T2, &'a mut T3, &'a mut T4,
        &'a mut T5), ()))
        ensures
            ({
                let parts: ((&'a mut T0, &'a mut T1, &'a mut T2, &'a mut T3, &'a mut T4,
                    &'a mut T5), ()) = r;
                *final(self) == (*final(parts.0.0), *final(parts.0.1), *final(parts.0.2),
                    *final(parts.0.3), *final(parts.0.4), *final(parts.0.5))
            }),
    {
        ((&mut self.0, &mut self.1, &mut self.2, &mut self.3, &mut self.4, &mut self.5), ())
    }

    proof fn lemma_split_mut_len() {
    }
}

impl<'a, T0: 'a, T1: 'a, T2: 'a, T3: 'a, T4: 'a, T5: 'a, T6: 'a> TypedSplitMut<'a, 0, (),
    (&'a mut T0, &'a mut T1, &'a mut T2, &'a mut T3, &'a mut T4, &'a mut T5, &'a mut T6)>
    for (T0, T1, T2, T3, T4, T5, T6)
{
    open spec fn spec_borrows(&self, parts: ((), (&'a mut T0, &'a mut T1, &'a mut T2, &'a mut T3,
        &'a mut T4, &'a mut T5, &'a mut T6))) -> bool {
        &&& *parts.1.0 == self.0
        &&& *parts.1.1 == self.1
        &&& *parts.1.2 == self.2
        &&& *parts.1.3 == self.3
        &&& *parts.1.4 == self.4
        &&& *parts.1.5 == self.5
        &&& *parts.1.6 == self.6
    }

    fn split_mut(&'a mut self) -> (r: ((), (&'a mut T0, &'a mut T1, &'a mut T2, &'a mut T3,
        &'a mut T4, &'a mut T5, &'a mut T6)))
        ensures
            ({
                let parts: ((), (&'a mut T0, &'a mut T1, &'a mut T2, &'a mut T3, &'a mut T4,
                    &'a mut T5, &'a mut T6)) = r;
                *final(self) == (*final(parts.1.0), *final(parts.1.1), *final(parts.1.2),
                    *final(parts.1.3), *final(parts.1.4), *final(parts.1.5), *final(parts.1.6))
            }),
    {
        ((), (&mut self.0, &mut self.1, &mut self.2, &mut self.3, &mut self.4, &mut self.5,
            &mut self.6))
    }

    proof fn lemma_split_mut_len() {
    }
}

impl<'a, T0: 'a, T1: 'a, T2: 'a, T3: 'a, T4: 'a, T5: 'a, T6: 'a> TypedSplitMut<'a, 1, (&'a mut T0,),
    (&'a mut T1, &'a mut T2, &'a mut T3, &'a mut T4, &'a mut T5, &'a mut T6)>
    for (T0, T1, T2, T3, T4, T5, T6)
{
    open spec fn spec_borrows(&self, parts: ((&'a mut T0,), (&'a mut T1, &'a mut T2, &'a mut T3,
        &'a mut T4, &'a mut T5, &'a mut T6))) -> bool {
        &&& *parts.0.0 == self.0
        &&& *parts.1.0 == self.1
        &&& *parts.1.1 == self.2
        &&& *parts.1.2 == self.3
        &&& *parts.1.3 == self.4
        &&& *parts.1.4 == self.5
        &&& *parts.1.5 == self.6
    }

    fn split_mut(&'a mut self) -> (r: ((&'a mut T0,), (&'a mut T1, &'a mut T2, &'a mut T3,
        &'a mut T4, &'a mut T5, &'a mut T6)))
        ensures
            ({
                let parts: ((&'a mut T0,), (&'a mut T1, &'a mut T2, &'a mut T3, &'a mut T4,
                    &'a mut T5, &'a mut T6)) = r;
                *final(self) == (*final(parts.0.0), *final(parts.1.0), *final(parts.1.1),
                    *final(parts.1.2), *final(parts.1.3), *final(parts.1.4), *final(parts.1.5))
            }),
    {
        ((&mut self.0,), (&mut self.1, &mut self.2, &mut self.3, &mut self.4, &mut self.5,
            &mut self.6))
    }

    proof fn lemma_split_mut_len() {
    }
}

impl<'a, T0: 'a, T1: 'a, T2: 'a, T3: 'a, T4: 'a, T5: 'a, T6: 'a> TypedSplitMut<'a, 2, (&'a mut T0,
    &'a mut T1), (&'a mut T2, &'a mut T3, &'a mut T4, &'a mut T5, &'a mut T6)>
    for (T0, T1, T2, T3, T4, T5, T6)
{
    open spec fn spec_borrows(&self, parts: ((&'a mut T0, &'a mut T1), (&'a mut T2, &'a mut T3,
        &'a mut T4, &'a mut T5, &'a mut T6))) -> bool {
        &&& *parts.0.0 == self.0
        &&& *parts.0.1 == self.1
        &&& *parts.1.0 == self.2
        &&& *parts.1.1 == self.3
        &&& *parts.1.2 == self.4
        &&& *parts.1.3 == self.5
        &&& *parts.1.4 == self.6
    }

    fn split_mut(&'a mut self) -> (r: ((&'a mut T0, &'a mut T1), (&'a mut T2, &'a mut T3,
        &'a mut T4, &'a mut T5, &'a mut T6)))
        ensures
            ({
                let parts: ((&'a mut T0, &'a mut T1), (&'a mut T2, &'a mut T3, &'a mut T4,
                    &'a mut T5, &'a mut T6)) = r;
                *final(self) == (*final(parts.0.0), *final(parts.0.1), *final(parts.1.0),
                    *final(parts.1.1), *final(parts.1.2), *final(parts.1.3), *final(parts.1.4))
            }),
    {
        ((&mut self.0, &mut self.1), (&mut self.2, &mut self.3, &mut self.4, &mut self.5,
            &mut self.6))
    }

    proof fn lemma_split_mut_len() {
    }
}

impl<'a, T0: 'a, T1: 'a, T2: 'a, T3: 'a, T4: 'a, T5: 'a, T6: 'a> TypedSplitMut<'a, 3, (&'a mut T0,
    &'a mut T1, &'a mut T2), (&'a mut T3, &'a mut T4, &'a mut T5, &'a mut T6)>
    for (T0, T1, T2, T3, T4, T5, T6)
{
    open spec fn spec_borrows(&self, parts: ((&'a mut T0, &'a mut T1, &'a mut T2), (&'a mut T3,
        &'a mut T4, &'a mut T5, &'a mut T6))) -> bool {
        &&& *parts.0.0 == self.0
        &&& *parts.0.1 == self.1
        &&& *parts.0.2 == self.2
        &&& *parts.1.0 == self.3
        &&& *parts.1.1 == self.4
        &&& *parts.1.2 == self.5
        &&& *parts.1.3 == self.6
    }

    fn split_mut(&'a mut self) -> (r: ((&'a mut T0, &'a mut T1, &'a mut T2), (&'a mut T3,
        &'a mut T4, &'a mut T5, &'a mut T6)))
        ensures
            ({
                let parts: ((&'a mut T0, &'a mut T1, &'a mut T2), (&'a mut T3, &'a mut T4,
                    &'a mut T5, &'a mut T6)) = r;
                *final(self) == (*final(parts.0.0), *final(parts.0.1), *final(parts.0.2),
                    *final(parts.1.0), *final(parts.1.1), *final(parts.1.2), *final(parts.1.3))
            }),
    {
        ((&mut self.0, &mut self.1, &mut self.2), (&mut self.3, &mut self.4, &mut self.5,
            &mut self.6))
    }

    proof fn lemma_split_mut_len() {
    }
}

impl<'a, T0: 'a, T1: 'a, T2: 'a, T3: 'a, T4: 'a, T5: 'a, T6: 'a> TypedSplitMut<'a, 4, (&'a mut T0,
    &'a mut T1, &'a mut T2, &'a mut T3), (&'a mut T4, &'a mut T5, &'a mut T6)>
    for (T0, T1, T2, T3, T4, T5, T6)
{
    open spec fn spec_borrows(&self, parts: ((&'a mut T0, &'a mut T1, &'a mut T2, &'a mut T3),
        (&'a mut T4, &'a mut T5, &'a mut T6))) -> bool {
        &&& *parts.0.0 == self.0
        &&& *parts.0.1 == self.1
        &&& *parts.0.2 == self.2
        &&& *parts.0.3 == self.3
        &&& *parts.1.0 == self.4
        &&& *parts.1.1 == self.5
        &&& *parts.1.2 == self.6
    }

    fn split_mut(&'a mut self) -> (r: ((&'a mut T0, &'a mut T1, &'a mut T2, &'a mut T3),
        (&'a mut T4, &'a mut T5, &'a mut T6)))
        ensures
            ({
                let parts: ((&'a mut T0, &'a mut T1, &'a mut T2, &'a mut T3), (&'a mut T4,
                    &'a mut T5, &'a mut T6)) = r;
                *final(self) == (*final(parts.0.0), *final(parts.0.1), *final(parts.0.2),
                    *final(parts.0.3), *final(parts.1.0), *final(parts.1.1), *final(parts.1.2))
            }),
    {
        ((&mut self.0, &mut self.1, &mut self.2, &mut self.3), (&mut self.4, &mut self.5,
            &mut self.6))
    }

    proof fn lemma_split_mut_len() {
    }
}

impl<'a, T0: 'a, T1: 'a, T2: 'a, T3: 'a, T4: 'a, T5: 'a, T6: 'a> TypedSplitMut<'a, 5, (&'a mut T0,
    &'a mut T1, &'a mut T2, &'a mut T3, &'a mut T4), (&'a mut T5, &'a mut T6)>
    for (T0, T1, T2, T3, T4, T5, T6)
{
    open spec fn spec_borrows(&self, parts: ((&'a mut T0, &'a mut T1, &'a mut T2, &'a mut T3,
        &'a mut T4), (&'a mut T5, &'a mut T6))) -> bool {
        &&& *parts.0.0 == self.0
        &&& *parts.0.1 == self.1
        &&& *parts.0.2 == self.2
        &&& *parts.0.3 == self.3
        &&& *parts.0.4 == self.4
        &&& *parts.1.0 == self.5
        &&& *parts.1.1 == self.6
    }

    fn split_mut(&'a mut self) -> (r: ((&'a mut T0, &'a mut T1, &'a mut T2, &'a mut T3, &'a mut T4),
        (&'a mut T5, &'a mut T6)))
        ensures
            ({
                let parts: ((&'a mut T0, &'a mut T1, &'a mut T2, &'a mut T3, &'a mut T4),
                    (&'a mut T5, &'a mut T6)) = r;
                *final(self) == (*final(parts.0.0), *final(parts.0.1), *final(parts.0.2),
                    *final(parts.0.3), *final(parts.0.4), *final(parts.1.0), *final(parts.1.1))
            }),
    {
        ((&mut self.0, &mut self.1, &mut self.2, &mut self.3, &mut self.4), (&mut self.5,
            &mut self.6))
    }

    proof fn lemma_split_mut_len() {
    }
}

impl<'a, T0: 'a, T1: 'a, T2: 'a, T3: 'a, T4: 'a, T5: 'a, T6: 'a> TypedSplitMut<'a, 6, (&'a mut T0,
    &'a mut T1, &'a mut T2, &'a mut T3, &'a mut T4, &'a mut T5), (&'a mut T6,)>
    for (T0, T1, T2, T3, T4, T5, T6)
{
    open spec fn spec_borrows(&self, parts: ((&'a mut T0, &'a mut T1, &'a mut T2, &'a mut T3,
        &'a mut T4, &'a mut T5), (&'a mut T6,))) -> bool {
        &&& *parts.0.0 == self.0
        &&& *parts.0.1 == self.1
        &&& *parts.0.2 == self.2
        &&& *parts.0.3 == self.3
        &&& *parts.0.4 == self.4
        &&& *parts.0.5 == self.5
        &&& *parts.1.0 == self.6
    }

    fn split_mut(&'a mut self) -> (r: ((&'a mut T0, &'a mut T1, &'a mut T2, &'a mut T3, &'a mut T4,
        &'a mut T5), (&'a mut T6,)))
        ensures
            ({
                let parts: ((&'a mut T0, &'a mut T1, &'a mut T2, &'a mut T3, &'a mut T4,
                    &'a mut T5), (&'a mut T6,)) = r;
                *final(self) == (*final(parts.0.0), *final(parts.0.1), *final(parts.0.2),
                    *final(parts.0.3), *final(parts.0.4), *final(parts.0.5), *final(parts.1.0))
            }),
    {
        ((&mut self.0, &mut self.1, &mut self.2, &mut self.3, &mut self.4, &mut self.5),
            (&mut self.6,))
    }

    proof fn lemma_split_mut_len() {
    }
}

impl<'a, T0: 'a, T1: 'a, T2: 'a, T3: 'a, T4: 'a, T5: 'a, T6: 'a> TypedSplitMut<'a, 7, (&'a mut T0,
    &'a mut T1, &'a mut T2, &'a mut T3, &'a mut T4, &'a mut T5, &'a mut T6), ()>
    for (T0, T1, T2, T3, T4, T5, T6)
{
    open spec fn spec_borrows(&self, parts: ((&'a mut T0, &'a mut T1, &'a mut T2, &'a mut T3,
        &'a mut T4, &'a mut T5, &'a mut T6), ())) -> bool {
        &&& *parts.0.0 == self.0
        &&& *parts.0.1 == self.1
        &&& *parts.0.2 == self.2
        &&& *parts.0.3 == self.3
        &&& *parts.0.4 == self.4
        &&& *parts.0.5 == self.5
        &&& *parts.0.6 == self.6
    }

    fn split_mut(&'a mut self) -> (r: ((&'a mut T0, &'a mut T1, &'a mut T2, &'a mut T3, &'a mut T4,
        &'a mut T5, &'a mut T6), ()))
        ensures
            ({
                let parts: ((&'a mut T0, &'a mut T1, &'a mut T2, &'a mut T3, &'a mut T4, &'a mut T5,
                    &'a mut T6), ()) = r;
                *final(self) == (*final(parts.0.0), *final(parts.0.1), *final(parts.0.2),
                    *final(parts.0.3), *final(parts.0.4), *final(parts.0.5), *final(parts.0.6))
            }),
    {
        ((&mut self.0, &mut self.1, &mut self.2, &mut self.3, &mut self.4, &mut self.5,
            &mut self.6), ())
    }

    proof fn lemma_split_mut_len() {
    }
}

impl<'a, T0: 'a, T1: 'a, T2: 'a, T3: 'a, T4: 'a, T5: 'a, T6: 'a, T7: 'a> TypedSplitMut<'a, 0, (),
    (&'a mut T0, &'a mut T1, &'a mut T2, &'a mut T3, &'a mut T4, &'a mut T5, &'a mut T6,
    &'a mut T7)>
    for (T0, T1, T2, T3, T4, T5, T6, T7)
{
    open spec fn spec_borrows(&self, parts: ((), (&'a mut T0, &'a mut T1, &'a mut T2, &'a mut T3,
        &'a mut T4, &'a mut T5, &'a mut T6, &'a mut T7))) -> bool {
        &&& *parts.1.0 == self.0
        &&& *parts.1.1 == self.1
        &&& *parts.1.2 == self.2
        &&& *parts.1.3 == self.3
        &&& *parts.1.4 == self.4
        &&& *parts.1.5 == self.5
        &&& *parts.1.6 == self.6
        &&& *parts.1.7 == self.7
    }

    fn split_mut(&'a mut self) -> (r: ((), (&'a mut T0, &'a mut T1, &'a mut T2, &'a mut T3,
        &'a mut T4, &'a mut T5, &'a mut T6, &'a mut T7)))
        ensures
            ({
                let parts: ((), (&'a mut T0, &'a mut T1, &'a mut T2, &'a mut T3, &'a mut T4,
                    &'a mut T5, &'a mut T6, &'a mut T7)) = r;
                *final(self) == (*final(parts.1.0), *final(parts.1.1), *final(parts.1.2),
                    *final(parts.1.3), *final(parts.1.4), *final(parts.1.5), *final(parts.1.6),
                    *final(parts.1.7))
            }),
    {
        ((), (&mut self.0, &mut self.1, &mut self.2, &mut self.3, &mut self.4, &mut self.5,
            &mut self.6, &mut self.7))
    }

    proof fn lemma_split_mut_len() {
    }
}

impl<'a, T0: 'a, T1: 'a, T2: 'a, T3: 'a, T4: 'a, T5: 'a, T6: 'a, T7: 'a> TypedSplitMut<'a, 1,
    (&'a mut T0,), (&'a mut T1, &'a mut T2, &'a mut T3, &'a mut T4, &'a mut T5, &'a mut T6,
    &'a mut T7)>
    for (T0, T1, T2, T3, T4, T5, T6, T7)
{
    open spec fn spec_borrows(&self, parts: ((&'a mut T0,), (&'a mut T1, &'a mut T2, &'a mut T3,
        &'a mut T4, &'a mut T5, &'a mut T6, &'a mut T7))) -> bool {
        &&& *parts.0.0 == self.0
        &&& *parts.1.0 == self.1
        &&& *parts.1.1 == self.2
        &&& *parts.1.2 == self.3
        &&& *parts.1.3 == self.4
        &&& *parts.1.4 == self.5
        &&& *parts.1.5 == self.6
        &&& *parts.1.6 == self.7
    }

    fn split_mut(&'a mut self) -> (r: ((&'a mut T0,), (&'a mut T1, &'a mut T2, &'a mut T3,
        &'a mut T4, &'a mut T5, &'a mut T6, &'a mut T7)))
        ensures
            ({
                let parts: ((&'a mut T0,), (&'a mut T1, &'a mut T2, &'a mut T3, &'a mut T4,
                    &'a mut T5, &'a mut T6, &'a mut T7)) = r;
                *final(self) == (*final(parts.0.0), *final(parts.1.0), *final(parts.1.1),
                    *final(parts.1.2), *final(parts.1.3), *final(parts.1.4), *final(parts.1.5),
                    *final(parts.1.6))
            }),
    {
        ((&mut self.0,), (&mut self.1, &mut self.2, &mut self.3, &mut self.4, &mut self.5,
            &mut self.6, &mut self.7))
    }

    proof fn lemma_split_mut_len() {
    }
}

impl<'a, T0: 'a, T1: 'a, T2: 'a, T3: 'a, T4: 'a, T5: 'a, T6: 'a, T7: 'a> TypedSplitMut<'a, 2,
    (&'a mut T0, &'a mut T1), (&'a mut T2, &'a mut T3, &'a mut T4, &'a mut T5, &'a mut T6,
    &'a mut T7)>
    for (T0, T1, T2, T3, T4, T5, T6, T7)
{
    open spec fn spec_borrows(&self, parts: ((&'a mut T0, &'a mut T1), (&'a mut T2, &'a mut T3,
        &'a mut T4, &'a mut T5, &'a mut T6, &'a mut T7))) -> bool {
        &&& *parts.0.0 == self.0
        &&& *parts.0.1 == self.1
        &&& *parts.1.0 == self.2
        &&& *parts.1.1 == self.3
        &&& *parts.1.2 == self.4
        &&& *parts.1.3 == self.5
        &&& *parts.1.4 == self.6
        &&& *parts.1.5 == self.7
    }

    fn split_mut(&'a mut self) -> (r: ((&'a mut T0, &'a mut T1), (&'a mut T2, &'a mut T3,
        &'a mut T4, &'a mut T5, &'a mut T6, &'a mut T7)))
        ensures
            ({
                let parts: ((&'a mut T0, &'a mut T1), (&'a mut T2, &'a mut T3, &'a mut T4,
                    &'a mut T5, &'a mut T6, &'a mut T7)) = r;
                *final(self) == (*final(parts.0.0), *final(parts.0.1), *final(parts.1.0),
                    *final(parts.1.1), *final(parts.1.2), *final(parts.1.3), *final(parts.1.4),
                    *final(parts.1.5))
            }),
    {
        ((&mut self.0, &mut self.1), (&mut self.2, &mut self.3, &mut self.4, &mut self.5,
            &mut self.6, &mut self.7))
    }

    proof fn lemma_split_mut_len() {
    }
}

impl<'a, T0: 'a, T1: 'a, T2: 'a, T3: 'a, T4: 'a, T5: 'a, T6: 'a, T7: 'a> TypedSplitMut<'a, 3,
    (&'a mut T0, &'a mut T1, &'a mut T2), (&'a mut T3, &'a mut T4, &'a mut T5, &'a mut T6,
    &'a mut T7)>
    for (T0, T1, T2, T3, T4, T5, T6, T7)
{
    open spec fn spec_borrows(&self, parts: ((&'a mut T0, &'a mut T1, &'a mut T2), (&'a mut T3,
        &'a mut T4, &'a mut T5, &'a mut T6, &'a mut T7))) -> bool {
        &&& *parts.0.0 == self.0
        &&& *parts.0.1 == self.1
        &&& *parts.0.2 == self.2
        &&& *parts.1.0 == self.3
        &&& *parts.1.1 == self.4
        &&& *parts.1.2 == self.5
        &&& *parts.1.3 == self.6
        &&& *parts.1.4 == self.7
    }

    fn split_mut(&'a mut self) -> (r: ((&'a mut T0, &'a mut T1, &'a mut T2), (&'a mut T3,
        &'a mut T4, &'a mut T5, &'a mut T6, &'a mut T7)))
        ensures
            ({
                let parts: ((&'a mut T0, &'a mut T1, &'a mut T2), (&'a mut T3, &'a mut T4,
                    &'a mut T5, &'a mut T6, &'a mut T7)) = r;
                *final(self) == (*final(parts.0.0), *final(parts.0.1), *final(parts.0.2),
                    *final(parts.1.0), *final(parts.1.1), *final(parts.1.2), *final(parts.1.3),
                    *final(parts.1.4))
            }),
    {
        ((&mut self.0, &mut self.1, &mut self.2), (&mut self.3, &mut self.4, &mut self.5,
            &mut self.6, &mut self.7))
    }

    proof fn lemma_split_mut_len() {
    }
}

impl<'a, T0: 'a, T1: 'a, T2: 'a, T3: 'a, T4: 'a, T5: 'a, T6: 'a, T7: 'a> TypedSplitMut<'a, 4,
    (&'a mut T0, &'a mut T1, &'a mut T2, &'a mut T3), (&'a mut T4, &'a mut T5, &'a mut T6,
    &'a mut T7)>
    for (T0, T1, T2, T3, T4, T5, T6, T7)
{
    open spec fn spec_borrows(&self, parts: ((&'a mut T0, &'a mut T1, &'a mut T2, &'a mut T3),
        (&'a mut T4, &'a mut T5, &'a mut T6, &'a mut T7))) -> bool {
        &&& *parts.0.0 == self.0
        &&& *parts.0.1 == self.1
        &&& *parts.0.2 == self.2
        &&& *parts.0.3 == self.3
        &&& *parts.1.0 == self.4
        &&& *parts.1.1 == self.5
        &&& *parts.1.2 == self.6
        &&& *parts.1.3 == self.7
    }

    fn split_mut(&'a mut self) -> (r: ((&'a mut T0, &'a mut T1, &'a mut T2, &'a mut T3),
        (&'a mut T4, &'a mut T5, &'a mut T6, &'a mut T7)))
        ensures
            ({
                let parts: ((&'a mut T0, &'a mut T1, &'a mut T2, &'a mut T3), (&'a mut T4,
                    &'a mut T5, &'a mut T6, &'a mut T7)) = r;
                *final(self) == (*final(parts.0.0), *final(parts.0.1), *final(parts.0.2),
                    *final(parts.0.3), *final(parts.1.0), *final(parts.1.1), *final(parts.1.2),
                    *final(parts.1.3))
            }),
    {
        ((&mut self.0, &mut self.1, &mut self.2, &mut self.3), (&mut self.4, &mut self.5,
            &mut self.6, &mut self.7))
    }

    proof fn lemma_split_mut_len() {
    }
}

impl<'a, T0: 'a, T1: 'a, T2: 'a, T3: 'a, T4: 'a, T5: 'a, T6: 'a, T7: 'a> TypedSplitMut<'a, 5,
    (&'a mut T0, &'a mut T1, &'a mut T2, &'a mut T3, &'a mut T4), (&'a mut T5, &'a mut T6,
    &'a mut T7)>
    for (T0, T1, T2, T3, T4, T5, T6, T7)
{
    open spec fn spec_borrows(&self, parts: ((&'a mut T0, &'a mut T1, &'a mut T2, &'a mut T3,
        &'a mut T4), (&'a mut T5, &'a mut T6, &'a mut T7))) -> bool {
        &&& *parts.0.0 == self.0
        &&& *parts.0.1 == self.1
        &&& *parts.0.2 == self.2
        &&& *parts.0.3 == self.3
        &&& *parts.0.4 == self.4
        &&& *parts.1.0 == self.5
        &&& *parts.1.1 == self.6
        &&& *parts.1.2 == self.7
    }

    fn split_mut(&'a mut self) -> (r: ((&'a mut T0, &'a mut T1, &'a mut T2, &'a mut T3, &'a mut T4),
        (&'a mut T5, &'a mut T6, &'a mut T7)))
        ensures
            ({
                let parts: ((&'a mut T0, &'a mut T1, &'a mut T2, &'a mut T3, &'a mut T4),
                    (&'a mut T5, &'a mut T6, &'a mut T7)) = r;
                *final(self) == (*final(parts.0.0), *final(parts.0.1), *final(parts.0.2),
                    *final(parts.0.3), *final(parts.0.4), *final(parts.1.0), *final(parts.1.1),
                    *final(parts.1.2))
            }),
    {
        ((&mut self.0, &mut self.1, &mut self.2, &mut self.3, &mut self.4), (&mut self.5,
            &mut self.6, &mut self.7))
    }

    proof fn lemma_split_mut_len() {
    }
}

impl<'a, T0: 'a, T1: 'a, T2: 'a, T3: 'a, T4: 'a, T5: 'a, T6: 'a, T7: 'a> TypedSplitMut<'a, 6,
    (&'a mut T0, &'a mut T1, &'a mut T2, &'a mut T3, &'a mut T4, &'a mut T5), (&'a mut T6,
    &'a mut T7)>
    for (T0, T1, T2, T3, T4, T5, T6, T7)
{
    open spec fn spec_borrows(&self, parts: ((&'a mut T0, &'a mut T1, &'a mut T2, &'a mut T3,
        &'a mut T4, &'a mut T5), (&'a mut T6, &'a mut T7))) -> bool {
        &&& *parts.0.0 == self.0
        &&& *parts.0.1 == self.1
        &&& *parts.0.2 == self.2
        &&& *parts.0.3 == self.3
        &&& *parts.0.4 == self.4
        &&& *parts.0.5 == self.5
        &&& *parts.1.0 == self.6
        &&& *parts.1.1 == self.7
    }

    fn split_mut(&'a mut self) -> (r: ((&'a mut T0, &'a mut T1, &'a mut T2, &'a mut T3, &'a mut T4,
        &'a mut T5), (&'a mut T6, &'a mut T7)))
        ensures
            ({
                let parts: ((&'a mut T0, &'a mut T1, &'a mut T2, &'a mut T3, &'a mut T4,
                    &'a mut T5), (&'a mut T6, &'a mut T7)) = r;
                *final(self) == (*final(parts.0.0), *final(parts.0.1), *final(parts.0.2),
                    *final(parts.0.3), *final(parts.0.4), *final(parts.0.5), *final(parts.1.0),
                    *final(parts.1.1))
            }),
    {
        ((&mut self.0, &mut self.1, &mut self.2, &mut self.3, &mut self.4, &mut self.5),
            (&mut self.6, &mut self.7))
    }

    proof fn lemma_split_mut_len() {
    }
}

impl<'a, T0: 'a, T1: 'a, T2: 'a, T3: 'a, T4: 'a, T5: 'a, T6: 'a, T7: 'a> TypedSplitMut<'a, 7,
    (&'a mut T0, &'a mut T1, &'a mut T2, &'a mut T3, &'a mut T4, &'a mut T5, &'a mut T6),
    (&'a mut T7,)>
    for (T0, T1, T2, T3, T4, T5, T6, T7)
{
    open spec fn spec_borrows(&self, parts: ((&'a mut T0, &'a mut T1, &'a mut T2, &'a mut T3,
        &'a mut T4, &'a mut T5, &'a mut T6), (&'a mut T7,))) -> bool {
        &&& *parts.0.0 == self.0
        &&& *parts.0.1 == self.1
        &&& *parts.0.2 == self.2
        &&& *parts.0.3 == self.3
        &&& *parts.0.4 == self.4
        &&& *parts.0.5 == self.5
        &&& *parts.0.6 == self.6
        &&& *parts.1.0 == self.7
    }

    fn split_mut(&'a mut self) -> (r: ((&'a mut T0, &'a mut T1, &'a mut T2, &'a mut T3, &'a mut T4,
        &'a mut T5, &'a mut T6), (&'a mut T7,)))
        ensures
            ({
                let parts: ((&'a mut T0, &'a mut T1, &'a mut T2, &'a mut T3, &'a mut T4, &'a mut T5,
                    &'a mut T6), (&'a mut T7,)) = r;
                *final(self) == (*final(parts.0.0), *final(parts.0.1), *final(parts.0.2),
                    *final(parts.0.3), *final(parts.0.4), *final(parts.0.5), *final(parts.0.6),
                    *final(parts.1.0))
            }),
    {
        ((&mut self.0, &mut self.1, &mut self.2, &mut self.3, &mut self.4, &mut self.5,
            &mut self.6), (&mut self.7,))
    }

    proof fn lemma_split_mut_len() {
    }
}

impl<'a, T0: 'a, T1: 'a, T2: 'a, T3: 'a, T4: 'a, T5: 'a, T6: 'a, T7: 'a> TypedSplitMut<'a, 8,
    (&'a mut T0, &'a mut T1, &'a mut T2, &'a mut T3, &'a mut T4, &'a mut T5, &'a mut T6,
    &'a mut T7), ()>
    for (T0, T1, T2, T3, T4, T5, T6, T7)
{
    open spec fn spec_borrows(&self, parts: ((&'a mut T0, &'a mut T1, &'a mut T2, &'a mut T3,
        &'a mut T4, &'a mut T5, &'a mut T6, &'a mut T7), ())) -> bool {
        &&& *parts.0.0 == self.0
        &&& *parts.0.1 == self.1
        &&& *parts.0.2 == self.2
        &&& *parts.0.3 == self.3
        &&& *parts.0.4 == self.4
        &&& *parts.0.5 == self.5
        &&& *parts.0.6 == self.6
        &&& *parts.0.7 == self.7
    }

    fn split_mut(&'a mut self) -> (r: ((&'a mut T0, &'a mut T1, &'a mut T2, &'a mut T3, &'a mut T4,
        &'a mut T5, &'a mut T6, &'a mut T7), ()))
        ensures
            ({
                let parts: ((&'a mut T0, &'a mut T1, &'a mut T2, &'a mut T3, &'a mut T4, &'a mut T5,
                    &'a mut T6, &'a mut T7), ()) = r;
                *final(self) == (*final(parts.0.0), *final(parts.0.1), *final(parts.0.2),
                    *final(parts.0.3), *final(parts.0.4), *final(parts.0.5), *final(parts.0.6),
                    *final(parts.0.7))
            }),
    {
        ((&mut self.0, &mut self.1, &mut self.2, &mut self.3, &mut self.4, &mut self.5, &mut self.6,
            &mut self.7), ())
    }

    proof fn lemma_split_mut_len() {
    }
}

impl<'a, T0: 'a, T1: 'a, T2: 'a, T3: 'a, T4: 'a, T5: 'a, T6: 'a, T7: 'a, T8: 'a> TypedSplitMut<'a,
    0, (), (&'a mut T0, &'a mut T1, &'a mut T2, &'a mut T3, &'a mut T4, &'a mut T5, &'a mut T6,
    &'a mut T7, &'a mut T8)>
    for (T0, T1, T2, T3, T4, T5, T6, T7, T8)
{
    open spec fn spec_borrows(&self, parts: ((), (&'a mut T0, &'a mut T1, &'a mut T2, &'a mut T3,
        &'a mut T4, &'a mut T5, &'a mut T6, &'a mut T7, &'a mut T8))) -> bool {
        &&& *parts.1.0 == self.0
        &&& *parts.1.1 == self.1
        &&& *parts.1.2 == self.2
        &&& *parts.1.3 == self.3
        &&& *parts.1.4 == self.4
        &&& *parts.1.5 == self.5
        &&& *parts.1.6 == self.6
        &&& *parts.1.7 == self.7
        &&& *parts.1.8 == self.8
    }

    fn split_mut(&'a mut self) -> (r: ((), (&'a mut T0, &'a mut T1, &'a mut T2, &'a mut T3,
        &'a mut T4, &'a mut T5, &'a mut T6, &'a mut T7, &'a mut T8)))
        ensures
            ({
                let parts: ((), (&'a mut T0, &'a mut T1, &'a mut T2, &'a mut T3, &'a mut T4,
                    &'a mut T5, &'a mut T6, &'a mut T7, &'a mut T8)) = r;
                *final(self) == (*final(parts.1.0), *final(parts.1.1), *final(parts.1.2),
                    *final(parts.1.3), *final(parts.1.4), *final(parts.1.5), *final(parts.1.6),
                    *final(parts.1.7), *final(parts.1.8))
            }),
    {
        ((), (&mut self.0, &mut self.1, &mut self.2, &mut self.3, &mut self.4, &mut self.5,
            &mut self.6, &mut self.7, &mut self.8))
    }

    proof fn lemma_split_mut_len() {
    }
}

impl<'a, T0: 'a, T1: 'a, T2: 'a, T3: 'a, T4: 'a, T5: 'a, T6: 'a, T7: 'a, T8: 'a> TypedSplitMut<'a,
    1, (&'a mut T0,), (&'a mut T1, &'a mut T2, &'a mut T3, &'a mut T4, &'a mut T5, &'a mut T6,
    &'a mut T7, &'a mut T8)>
    for (T0, T1, T2, T3, T4, T5, T6, T7, T8)
{
    open spec fn spec_borrows(&self, parts: ((&'a mut T0,), (&'a mut T1, &'a mut T2, &'a mut T3,
        &'a mut T4, &'a mut T5, &'a mut T6, &'a mut T7, &'a mut T8))) -> bool {
        &&& *parts.0.0 == self.0
        &&& *parts.1.0 == self.1
        &&& *parts.1.1 == self.2
        &&& *parts.1.2 == self.3
        &&& *parts.1.3 == self.4
        &&& *parts.1.4 == self.5
        &&& *parts.1.5 == self.6
        &&& *parts.1.6 == self.7
        &&& *parts.1.7 == self.8
    }

    fn split_mut(&'a mut self) -> (r: ((&'a mut T0,), (&'a mut T1, &'a mut T2, &'a mut T3,
        &'a mut T4, &'a mut T5, &'a mut T6, &'a mut T7, &'a mut T8)))
        ensures
            ({
                let parts: ((&'a mut T0,), (&'a mut T1, &'a mut T2, &'a mut T3, &'a mut T4,
                    &'a mut T5, &'a mut T6, &'a mut T7, &'a mut T8)) = r;
                *final(self) == (*final(parts.0.0), *final(parts.1.0), *final(parts.1.1),
                    *final(parts.1.2), *final(parts.1.3), *final(parts.1.4), *final(parts.1.5),
                    *final(parts.1.6), *final(parts.1.7))
            }),
    {
        ((&mut self.0,), (&mut self.1, &mut self.2, &mut self.3, &mut self.4, &mut self.5,
            &mut self.6, &mut self.7, &mut self.8))
    }

    proof fn lemma_split_mut_len() {
    }
}

impl<'a, T0: 'a, T1: 'a, T2: 'a, T3: 'a, T4: 'a, T5: 'a, T6: 'a, T7: 'a, T8: 'a> TypedSplitMut<'a,
    2, (&'a mut T0, &'a mut T1), (&'a mut T2, &'a mut T3, &'a mut T4, &'a mut T5, &'a mut T6,
    &'a mut T7, &'a mut T8)>
    for (T0, T1, T2, T3, T4, T5, T6, T7, T8)
{
    open spec fn spec_borrows(&self, parts: ((&'a mut T0, &'a mut T1), (&'a mut T2, &'a mut T3,
        &'a mut T4, &'a mut T5, &'a mut T6, &'a mut T7, &'a mut T8))) -> bool {
        &&& *parts.0.0 == self.0
        &&& *parts.0.1 == self.1
        &&& *parts.1.0 == self.2
        &&& *parts.1.1 == self.3
        &&& *parts.1.2 == self.4
        &&& *parts.1.3 == self.5
        &&& *parts.1.4 == self.6
        &&& *parts.1.5 == self.7
        &&& *parts.1.6 == self.8
    }

    fn split_mut(&'a mut self) -> (r: ((&'a mut T0, &'a mut T1), (&'a mut T2, &'a mut T3,
        &'a mut T4, &'a mut T5, &'a mut T6, &'a mut T7, &'a mut T8)))
        ensures
            ({
                let parts: ((&'a mut T0, &'a mut T1), (&'a mut T2, &'a mut T3, &'a mut T4,
                    &'a mut T5, &'a mut T6, &'a mut T7, &'a mut T8)) = r;
                *final(self) == (*final(parts.0.0), *final(parts.0.1), *final(parts.1.0),
                    *final(parts.1.1), *final(parts.1.2), *final(parts.1.3), *final(parts.1.4),
                    *final(parts.1.5), *final(parts.1.6))
            }),
    {
        ((&mut self.0, &mut self.1), (&mut self.2, &mut self.3, &mut self.4, &mut self.5,
            &mut self.6, &mut self.7, &mut self.8))
    }

    proof fn lemma_split_mut_len() {
    }
}

impl<'a, T0: 'a, T1: 'a, T2: 'a, T3: 'a, T4: 'a, T5: 'a, T6: 'a, T7: 'a, T8: 'a> TypedSplitMut<'a,
    3, (&'a mut T0, &'a mut T1, &'a mut T2), (&'a mut T3, &'a mut T4, &'a mut T5, &'a mut T6,
    &'a mut T7, &'a mut T8)>
    for (T0, T1, T2, T3, T4, T5, T6, T7, T8)
{
    open spec fn spec_borrows(&self, parts: ((&'a mut T0, &'a mut T1, &'a mut T2), (&'a mut T3,
        &'a mut T4, &'a mut T5, &'a mut T6, &'a mut T7, &'a mut T8))) -> bool {
        &&& *parts.0.0 == self.0
        &&& *parts.0.1 == self.1
        &&& *parts.0.2 == self.2
        &&& *parts.1.0 == self.3
        &&& *parts.1.1 == self.4
        &&& *parts.1.2 == self.5
        &&& *parts.1.3 == self.6
        &&& *parts.1.4 == self.7
        &&& *parts.1.5 == self.8
    }

    fn split_mut(&'a mut self) -> (r: ((&'a mut T0, &'a mut T1, &'a mut T2), (&'a mut T3,
        &'a mut T4, &'a mut T5, &'a mut T6, &'a mut T7, &'a mut T8)))
        ensures
            ({
                let parts: ((&'a mut T0, &'a mut T1, &'a mut T2), (&'a mut T3, &'a mut T4,
                    &'a mut T5, &'a mut T6, &'a mut T7, &'a mut T8)) = r;
                *final(self) == (*final(parts.0.0), *final(parts.0.1), *final(parts.0.2),
                    *final(parts.1.0), *final(parts.1.1), *final(parts.1.2), *final(parts.1.3),
                    *final(parts.1.4), *final(parts.1.5))
            }),
    {
        ((&mut self.0, &mut self.1, &mut self.2), (&mut self.3, &mut self.4, &mut self.5,
            &mut self.6, &mut self.7, &mut self.8))
    }

    proof fn lemma_split_mut_len() {
    }
}

impl<'a, T0: 'a, T1: 'a, T2: 'a, T3: 'a, T4: 'a, T5: 'a, T6: 'a, T7: 'a, T8: 'a> TypedSplitMut<'a,
    4, (&'a mut T0, &'a mut T1, &'a mut T2, &'a mut T3), (&'a mut T4, &'a mut T5, &'a mut T6,
    &'a mut T7, &'a mut T8)>
    for (T0, T1, T2, T3, T4, T5, T6, T7, T8)
{
    open spec fn spec_borrows(&self, parts: ((&'a mut T0, &'a mut T1, &'a mut T2, &'a mut T3),
        (&'a mut T4, &'a mut T5, &'a mut T6, &'a mut T7, &'a mut T8))) -> bool {
        &&& *parts.0.0 == self.0
        &&& *parts.0.1 == self.1
        &&& *parts.0.2 == self.2
        &&& *parts.0.3 == self.3
        &&& *parts.1.0 == self.4
        &&& *parts.1.1 == self.5
        &&& *parts.1.2 == self.6
        &&& *parts.1.3 == self.7
        &&& *parts.1.4 == self.8
    }

    fn split_mut(&'a mut self) -> (r: ((&'a mut T0, &'a mut T1, &'a mut T2, &'a mut T3),
        (&'a mut T4, &'a mut T5, &'a mut T6, &'a mut T7, &'a mut T8)))
        ensures
            ({
                let parts: ((&'a mut T0, &'a mut T1, &'a mut T2, &'a mut T3), (&'a mut T4,
                    &'a mut T5, &'a mut T6, &'a mut T7, &'a mut T8)) = r;
                *final(self) == (*final(parts.0.0), *final(parts.0.1), *final(parts.0.2),
                    *final(parts.0.3), *final(parts.1.0), *final(parts.1.1), *final(parts.1.2),
                    *final(parts.1.3), *final(parts.1.4))
            }),
    {
        ((&mut self.0, &mut self.1, &mut self.2, &mut self.3), (&mut self.4, &mut self.5,
            &mut self.6, &mut self.7, &mut self.8))
    }

    proof fn lemma_split_mut_len() {
    }
}

impl<'a, T0: 'a, T1: 'a, T2: 'a, T3: 'a, T4: 'a, T5: 'a, T6: 'a, T7: 'a, T8: 'a> TypedSplitMut<'a,
    5, (&'a mut T0, &'a mut T1, &'a mut T2, &'a mut T3, &'a mut T4), (&'a mut T5, &'a mut T6,
    &'a mut T7, &'a mut T8)>
    for (T0, T1, T2, T3, T4, T5, T6, T7, T8)
{
    open spec fn spec_borrows(&self, parts: ((&'a mut T0, &'a mut T1, &'a mut T2, &'a mut T3,
        &'a mut T4), (&'a mut T5, &'a mut T6, &'a mut T7, &'a mut T8))) -> bool {
        &&& *parts.0.0 == self.0
        &&& *parts.0.1 == self.1
        &&& *parts.0.2 == self.2
        &&& *parts.0.3 == self.3
        &&& *parts.0.4 == self.4
        &&& *parts.1.0 == self.5
        &&& *parts.1.1 == self.6
        &&& *parts.1.2 == self.7
        &&& *parts.1.3 == self.8
    }

    fn split_mut(&'a mut self) -> (r: ((&'a mut T0, &'a mut T1, &'a mut T2, &'a mut T3, &'a mut T4),
        (&'a mut T5, &'a mut T6, &'a mut T7, &'a mut T8)))
        ensures
            ({
                let parts: ((&'a mut T0, &'a mut T1, &'a mut T2, &'a mut T3, &'a mut T4),
                    (&'a mut T5, &'a mut T6, &'a mut T7, &'a mut T8)) = r;
                *final(self) == (*final(parts.0.0), *final(parts.0.1), *final(parts.0.2),
                    *final(parts.0.3), *final(parts.0.4), *final(parts.1.0), *final(parts.1.1),
                    *final(parts.1.2), *final(parts.1.3))
            }),
    {
        ((&mut self.0, &mut self.1, &mut self.2, &mut self.3, &mut self.4), (&mut self.5,
            &mut self.6, &mut self.7, &mut self.8))
    }

    proof fn lemma_split_mut_len() {
    }
}

impl<'a, T0: 'a, T1: 'a, T2: 'a, T3: 'a, T4: 'a, T5: 'a, T6: 'a, T7: 'a, T8: 'a> TypedSplitMut<'a,
    6, (&'a mut T0, &'a mut T1, &'a mut T2, &'a mut T3, &'a mut T4, &'a mut T5), (&'a mut T6,
    &'a mut T7, &'a mut T8)>
    for (T0, T1, T2, T3, T4, T5, T6, T7, T8)
{
    open spec fn spec_borrows(&self, parts: ((&'a mut T0, &'a mut T1, &'a mut T2, &'a mut T3,
        &'a mut T4, &'a mut T5), (&'a mut T6, &'a mut T7, &'a mut T8))) -> bool {
        &&& *parts.0.0 == self.0
        &&& *parts.0.1 == self.1
        &&& *parts.0.2 == self.2
        &&& *parts.0.3 == self.3
        &&& *parts.0.4 == self.4
        &&& *parts.0.5 == self.5
        &&& *parts.1.0 == self.6
        &&& *parts.1.1 == self.7
        &&& *parts.1.2 == self.8
    }

    fn split_mut(&'a mut self) -> (r: ((&'a mut T0, &'a mut T1, &'a mut T2, &'a mut T3, &'a mut T4,
        &'a mut T5), (&'a mut T6, &'a mut T7, &'a mut T8)))
        ensures
            ({
                let parts: ((&'a mut T0, &'a mut T1, &'a mut T2, &'a mut T3, &'a mut T4,
                    &'a mut T5), (&'a mut T6, &'a mut T7, &'a mut T8)) = r;
                *final(self) == (*final(parts.0.0), *final(parts.0.1), *final(parts.0.2),
                    *final(parts.0.3), *final(parts.0.4), *final(parts.0.5), *final(parts.1.0),
                    *final(parts.1.1), *final(parts.1.2))
            }),
    {
        ((&mut self.0, &mut self.1, &mut self.2, &mut self.3, &mut self.4, &mut self.5),
            (&mut self.6, &mut self.7, &mut self.8))
    }

    proof fn lemma_split_mut_len() {
    }
}

impl<'a, T0: 'a, T1: 'a, T2: 'a, T3: 'a, T4: 'a, T5: 'a, T6: 'a, T7: 'a, T8: 'a> TypedSplitMut<'a,
    7, (&'a mut T0, &'a mut T1, &'a mut T2, &'a mut T3, &'a mut T4, &'a mut T5, &'a mut T6),
    (&'a mut T7, &'a mut T8)>
    for (T0, T1, T2, T3, T4, T5, T6, T7, T8)
{
    open spec fn spec_borrows(&self, parts: ((&'a mut T0, &'a mut T1, &'a mut T2, &'a mut T3,
        &'a mut T4, &'a mut T5, &'a mut T6), (&'a mut T7, &'a mut T8))) -> bool {
        &&& *parts.0.0 == self.0
        &&& *parts.0.1 == self.1
        &&& *parts.0.2 == self.2
        &&& *parts.0.3 == self.3
        &&& *parts.0.4 == self.4
        &&& *parts.0.5 == self.5
        &&& *parts.0.6 == self.6
        &&& *parts.1.0 == self.7
        &&& *parts.1.1 == self.8
    }

    fn split_mut(&'a mut self) -> (r: ((&'a mut T0, &'a mut T1, &'a mut T2, &'a mut T3, &'a mut T4,
        &'a mut T5, &'a mut T6), (&'a mut T7, &'a mut T8)))
        ensures
            ({
                let parts: ((&'a mut T0, &'a mut T1, &'a mut T2, &'a mut T3, &'a mut T4, &'a mut T5,
                    &'a mut T6), (&'a mut T7, &'a mut T8)) = r;
                *final(self) == (*final(parts.0.0), *final(parts.0.1), *final(parts.0.2),
                    *final(parts.0.3), *final(parts.0.4), *final(parts.0.5), *final(parts.0.6),
                    *final(parts.1.0), *final(parts.1.1))
            }),
    {
        ((&mut self.0, &mut self.1, &mut self.2, &mut self.3, &mut self.4, &mut self.5,
            &mut self.6), (&mut self.7, &mut self.8))
    }

    proof fn lemma_split_mut_len() {
    }
}

impl<'a, T0: 'a, T1: 'a, T2: 'a, T3: 'a, T4: 'a, T5: 'a, T6: 'a, T7: 'a, T8: 'a> TypedSplitMut<'a,
    8, (&'a mut T0, &'a mut T1, &'a mut T2, &'a mut T3, &'a mut T4, &'a mut T5, &'a mut T6,
    &'a mut T7), (&'a mut T8,)>
    for (T0, T1, T2, T3, T4, T5, T6, T7, T8)
{
    open spec fn spec_borrows(&self, parts: ((&'a mut T0, &'a mut T1, &'a mut T2, &'a mut T3,
        &'a mut T4, &'a mut T5, &'a mut T6, &'a mut T7), (&'a mut T8,))) -> bool {
        &&& *parts.0.0 == self.0
        &&& *parts.0.1 == self.1
        &&& *parts.0.2 == self.2
        &&& *parts.0.3 == self.3
        &&& *parts.0.4 == self.4
        &&& *parts.0.5 == self.5
        &&& *parts.0.6 == self.6
        &&& *parts.0.7 == self.7
        &&& *parts.1.0 == self.8
    }

    fn split_mut(&'a mut self) -> (r: ((&'a mut T0, &'a mut T1, &'a mut T2, &'a mut T3, &'a mut T4,
        &'a mut T5, &'a mut T6, &'a mut T7), (&'a mut T8,)))
        ensures
            ({
                let parts: ((&'a mut T0, &'a mut T1, &'a mut T2, &'a mut T3, &'a mut T4, &'a mut T5,
                    &'a mut T6, &'a mut T7), (&'a mut T8,)) = r;
                *final(self) == (*final(parts.0.0), *final(parts.0.1), *final(parts.0.2),
                    *final(parts.0.3), *final(parts.0.4), *final(parts.0.5), *final(parts.0.6),
                    *final(parts.0.7), *final(parts.1.0))
            }),
    {
        ((&mut self.0, &mut self.1, &mut self.2, &mut self.3, &mut self.4, &mut self.5, &mut self.6,
            &mut self.7), (&mut self.8,))
    }

    proof fn lemma_split_mut_len() {
    }
}

impl<'a, T0: 'a, T1: 'a, T2: 'a, T3: 'a, T4: 'a, T5: 'a, T6: 'a, T7: 'a, T8: 'a> TypedSplitMut<'a,
    9, (&'a mut T0, &'a mut T1, &'a mut T2, &'a mut T3, &'a mut T4, &'a mut T5, &'a mut T6,
    &'a mut T7, &'a mut T8), ()>
    for (T0, T1, T2, T3, T4, T5, T6, T7, T8)
{
    open spec fn spec_borrows(&self, parts: ((&'a mut T0, &'a mut T1, &'a mut T2, &'a mut T3,
        &'a mut T4, &'a mut T5, &'a mut T6, &'a mut T7, &'a mut T8), ())) -> bool {
        &&& *parts.0.0 == self.0
        &&& *parts.0.1 == self.1
        &&& *parts.0.2 == self.2
        &&& *parts.0.3 == self.3
        &&& *parts.0.4 == self.4
        &&& *parts.0.5 == self.5
        &&& *parts.0.6 == self.6
        &&& *parts.0.7 == self.7
        &&& *parts.0.8 == self.8
    }

    fn split_mut(&'a mut self) -> (r: ((&'a mut T0, &'a mut T1, &'a mut T2, &'a mut T3, &'a mut T4,
        &'a mut T5, &'a mut T6, &'a mut T7, &'a mut T8), ()))
        ensures
            ({
                let parts: ((&'a mut T0, &'a mut T1, &'a mut T2, &'a mut T3, &'a mut T4, &'a mut T5,
                    &'a mut T6, &'a mut T7, &'a mut T8), ()) = r;
                *final(self) == (*final(parts.0.0), *final(parts.0.1), *final(parts.0.2),
                    *final(parts.0.3), *final(parts.0.4), *final(parts.0.5), *final(parts.0.6),
                    *final(parts.0.7), *final(parts.0.8))
            }),
    {
        ((&mut self.0, &mut self.1, &mut self.2, &mut self.3, &mut self.4, &mut self.5, &mut self.6,
            &mut self.7, &mut self.8), ())
    }

    proof fn lemma_split_mut_len() {
    }
}

impl<'a, T0: 'a, T1: 'a, T2: 'a, T3: 'a, T4: 'a, T5: 'a, T6: 'a, T7: 'a, T8: 'a,
    T9: 'a> TypedSplitMut<'a, 0, (), (&'a mut T0, &'a mut T1, &'a mut T2, &'a mut T3, &'a mut T4,
    &'a mut T5, &'a mut T6, &'a mut T7, &'a mut T8, &'a mut T9)>
    for (T0, T1, T2, T3, T4, T5, T6, T7, T8, T9)
{
    open spec fn spec_borrows(&self, parts: ((), (&'a mut T0, &'a mut T1, &'a mut T2, &'a mut T3,
        &'a mut T4, &'a mut T5, &'a mut T6, &'a mut T7, &'a mut T8, &'a mut T9))) -> bool {
        &&& *parts.1.0 == self.0
        &&& *parts.1.1 == self.1
        &&& *parts.1.2 == self.2
        &&& *parts.1.3 == self.3
        &&& *parts.1.4 == self.4
        &&& *parts.1.5 == self.5
        &&& *parts.1.6 == self.6
        &&& *parts.1.7 == self.7
        &&& *parts.1.8 == self.8
        &&& *parts.1.9 == self.9
    }

    fn split_mut(&'a mut self) -> (r: ((), (&'a mut T0, &'a mut T1, &'a mut T2, &'a mut T3,
        &'a mut T4, &'a mut T5, &'a mut T6, &'a mut T7, &'a mut T8, &'a mut T9)))
        ensures
            ({
                let parts: ((), (&'a mut T0, &'a mut T1, &'a mut T2, &'a mut T3, &'a mut T4,
                    &'a mut T5, &'a mut T6, &'a mut T7, &'a mut T8, &'a mut T9)) = r;
                *final(self) == (*final(parts.1.0), *final(parts.1.1), *final(parts.1.2),
                    *final(parts.1.3), *final(parts.1.4), *final(parts.1.5), *final(parts.1.6),
                    *final(parts.1.7), *final(parts.1.8), *final(parts.1.9))
            }),
    {
        ((), (&mut self.0, &mut self.1, &mut self.2, &mut self.3, &mut self.4, &mut self.5,
            &mut self.6, &mut self.7, &mut self.8, &mut self.9))
    }

    proof fn lemma_split_mut_len() {
    }
}

impl<'a, T0: 'a, T1: 'a, T2: 'a, T3: 'a, T4: 'a, T5: 'a, T6: 'a, T7: 'a, T8: 'a,
    T9: 'a> TypedSplitMut<'a, 1, (&'a mut T0,), (&'a mut T1, &'a mut T2, &'a mut T3, &'a mut T4,
    &'a mut T5, &'a mut T6, &'a mut T7, &'a mut T8, &'a mut T9)>
    for (T0, T1, T2, T3, T4, T5, T6, T7, T8, T9)
{
    open spec fn spec_borrows(&self, parts: ((&'a mut T0,), (&'a mut T1, &'a mut T2, &'a mut T3,
        &'a mut T4, &'a mut T5, &'a mut T6, &'a mut T7, &'a mut T8, &'a mut T9))) -> bool {
        &&& *parts.0.0 == self.0
        &&& *parts.1.0 == self.1
        &&& *parts.1.1 == self.2
        &&& *parts.1.2 == self.3
        &&& *parts.1.3 == self.4
        &&& *parts.1.4 == self.5
        &&& *parts.1.5 == self.6
        &&& *parts.1.6 == self.7
        &&& *parts.1.7 == self.8
        &&& *parts.1.8 == self.9
    }

    fn split_mut(&'a mut self) -> (r: ((&'a mut T0,), (&'a mut T1, &'a mut T2, &'a mut T3,
        &'a mut T4, &'a mut T5, &'a mut T6, &'a mut T7, &'a mut T8, &'a mut T9)))
        ensures
            ({
                let parts: ((&'a mut T0,), (&'a mut T1, &'a mut T2, &'a mut T3, &'a mut T4,
                    &'a mut T5, &'a mut T6, &'a mut T7, &'a mut T8, &'a mut T9)) = r;
                *final(self) == (*final(parts.0.0), *final(parts.1.0), *final(parts.1.1),
                    *final(parts.1.2), *final(parts.1.3), *final(parts.1.4), *final(parts.1.5),
                    *final(parts.1.6), *final(parts.1.7), *final(parts.1.8))
            }),
    {
        ((&mut self.0,), (&mut self.1, &mut self.2, &mut self.3, &mut self.4, &mut self.5,
            &mut self.6, &mut self.7, &mut self.8, &mut self.9))
    }

    proof fn lemma_split_mut_len() {
    }
}

impl<'a, T0: 'a, T1: 'a, T2: 'a, T3: 'a, T4: 'a, T5: 'a, T6: 'a, T7: 'a, T8: 'a,
    T9: 'a> TypedSplitMut<'a, 2, (&'a mut T0, &'a mut T1), (&'a mut T2, &'a mut T3, &'a mut T4,
    &'a mut T5, &'a mut T6, &'a mut T7, &'a mut T8, &'a mut T9)>
    for (T0, T1, T2, T3, T4, T5, T6, T7, T8, T9)
{
    open spec fn spec_borrows(&self, parts: ((&'a mut T0, &'a mut T1), (&'a mut T2, &'a mut T3,
        &'a mut T4, &'a mut T5, &'a mut T6, &'a mut T7, &'a mut T8, &'a mut T9))) -> bool {
        &&& *parts.0.0 == self.0
        &&& *parts.0.1 == self.1
        &&& *parts.1.0 == self.2
        &&& *parts.1.1 == self.3
        &&& *parts.1.2 == self.4
        &&& *parts.1.3 == self.5
        &&& *parts.1.4 == self.6
        &&& *parts.1.5 == self.7
        &&& *parts.1.6 == self.8
        &&& *parts.1.7 == self.9
    }

    fn split_mut(&'a mut self) -> (r: ((&'a mut T0, &'a mut T1), (&'a mut T2, &'a mut T3,
        &'a mut T4, &'a mut T5, &'a mut T6, &'a mut T7, &'a mut T8, &'a mut T9)))
        ensures
            ({
                let parts: ((&'a mut T0, &'a mut T1), (&'a mut T2, &'a mut T3, &'a mut T4,
                    &'a mut T5, &'a mut T6, &'a mut T7, &'a mut T8, &'a mut T9)) = r;
                *final(self) == (*final(parts.0.0), *final(parts.0.1), *final(parts.1.0),
                    *final(parts.1.1), *final(parts.1.2), *final(parts.1.3), *final(parts.1.4),
                    *final(parts.1.5), *final(parts.1.6), *final(parts.1.7))
            }),
    {
        ((&mut self.0, &mut self.1), (&mut self.2, &mut self.3, &mut self.4, &mut self.5,
            &mut self.6, &mut self.7, &mut self.8, &mut self.9))
    }

    proof fn lemma_split_mut_len() {
    }
}

impl<'a, T0: 'a, T1: 'a, T2: 'a, T3: 'a, T4: 'a, T5: 'a, T6: 'a, T7: 'a, T8: 'a,
    T9: 'a> TypedSplitMut<'a, 3, (&'a mut T0, &'a mut T1, &'a mut T2), (&'a mut T3, &'a mut T4,
    &'a mut T5, &'a mut T6, &'a mut T7, &'a mut T8, &'a mut T9)>
    for (T0, T1, T2, T3, T4, T5, T6, T7, T8, T9)
{
    open spec fn spec_borrows(&self, parts: ((&'a mut T0, &'a mut T1, &'a mut T2), (&'a mut T3,
        &'a mut T4, &'a mut T5, &'a mut T6, &'a mut T7, &'a mut T8, &'a mut T9))) -> bool {
        &&& *parts.0.0 == self.0
        &&& *parts.0.1 == self.1
        &&& *parts.0.2 == self.2
        &&& *parts.1.0 == self.3
        &&& *parts.1.1 == self.4
        &&& *parts.1.2 == self.5
        &&& *parts.1.3 == self.6
        &&& *parts.1.4 == self.7
        &&& *parts.1.5 == self.8
        &&& *parts.1.6 == self.9
    }

    fn split_mut(&'a mut self) -> (r: ((&'a mut T0, &'a mut T1, &'a mut T2), (&'a mut T3,
        &'a mut T4, &'a mut T5, &'a mut T6, &'a mut T7, &'a mut T8, &'a mut T9)))
        ensures
            ({
                let parts: ((&'a mut T0, &'a mut T1, &'a mut T2), (&'a mut T3, &'a mut T4,
                    &'a mut T5, &'a mut T6, &'a mut T7, &'a mut T8, &'a mut T9)) = r;
                *final(self) == (*final(parts.0.0), *final(parts.0.1), *final(parts.0.2),
                    *final(parts.1.0), *final(parts.1.1), *final(parts.1.2), *final(parts.1.3),
                    *final(parts.1.4), *final(parts.1.5), *final(parts.1.6))
            }),
    {
        ((&mut self.0, &mut self.1, &mut self.2), (&mut self.3, &mut self.4, &mut self.5,
            &mut self.6, &mut self.7, &mut self.8, &mut self.9))
    }

    proof fn lemma_split_mut_len() {
    }
}

impl<'a, T0: 'a, T1: 'a, T2: 'a, T3: 'a, T4: 'a, T5: 'a, T6: 'a, T7: 'a, T8: 'a,
    T9: 'a> TypedSplitMut<'a, 4, (&'a mut T0, &'a mut T1, &'a mut T2, &'a mut T3), (&'a mut T4,
    &'a mut T5, &'a mut T6, &'a mut T7, &'a mut T8, &'a mut T9)>
    for (T0, T1, T2, T3, T4, T5, T6, T7, T8, T9)
{
    open spec fn spec_borrows(&self, parts: ((&'a mut T0, &'a mut T1, &'a mut T2, &'a mut T3),
        (&'a mut T4, &'a mut T5, &'a mut T6, &'a mut T7, &'a mut T8, &'a mut T9))) -> bool {
        &&& *parts.0.0 == self.0
        &&& *parts.0.1 == self.1
        &&& *parts.0.2 == self.2
        &&& *parts.0.3 == self.3
        &&& *parts.1.0 == self.4
        &&& *parts.1.1 == self.5
        &&& *parts.1.2 == self.6
        &&& *parts.1.3 == self.7
        &&& *parts.1.4 == self.8
        &&& *parts.1.5 == self.9
    }

    fn split_mut(&'a mut self) -> (r: ((&'a mut T0, &'a mut T1, &'a mut T2, &'a mut T3),
        (&'a mut T4, &'a mut T5, &'a mut T6, &'a mut T7, &'a mut T8, &'a mut T9)))
        ensures
            ({
                let parts: ((&'a mut T0, &'a mut T1, &'a mut T2, &'a mut T3), (&'a mut T4,
                    &'a mut T5, &'a mut T6, &'a mut T7, &'a mut T8, &'a mut T9)) = r;
                *final(self) == (*final(parts.0.0), *final(parts.0.1), *final(parts.0.2),
                    *final(parts.0.3), *final(parts.1.0), *final(parts.1.1), *final(parts.1.2),
                    *final(parts.1.3), *final(parts.1.4), *final(parts.1.5))
            }),
    {
        ((&mut self.0, &mut self.1, &mut self.2, &mut self.3), (&mut self.4, &mut self.5,
            &mut self.6, &mut self.7, &mut self.8, &mut self.9))
    }

    proof fn lemma_split_mut_len() {
    }
}

impl<'a, T0: 'a, T1: 'a, T2: 'a, T3: 'a, T4: 'a, T5: 'a, T6: 'a, T7: 'a, T8: 'a,
    T9: 'a> TypedSplitMut<'a, 5, (&'a mut T0, &'a mut T1, &'a mut T2, &'a mut T3, &'a mut T4),
    (&'a mut T5, &'a mut T6, &'a mut T7, &'a mut T8, &'a mut T9)>
    for (T0, T1, T2, T3, T4, T5, T6, T7, T8, T9)
{
    open spec fn spec_borrows(&self, parts: ((&'a mut T0, &'a mut T1, &'a mut T2, &'a mut T3,
        &'a mut T4), (&'a mut T5, &'a mut T6, &'a mut T7, &'a mut T8, &'a mut T9))) -> bool {
        &&& *parts.0.0 == self.0
        &&& *parts.0.1 == self.1
        &&& *parts.0.2 == self.2
        &&& *parts.0.3 == self.3
        &&& *parts.0.4 == self.4
        &&& *parts.1.0 == self.5
        &&& *parts.1.1 == self.6
        &&& *parts.1.2 == self.7
        &&& *parts.1.3 == self.8
        &&& *parts.1.4 == self.9
    }

    fn split_mut(&'a mut self) -> (r: ((&'a mut T0, &'a mut T1, &'a mut T2, &'a mut T3, &'a mut T4),
        (&'a mut T5, &'a mut T6, &'a mut T7, &'a mut T8, &'a mut T9)))
        ensures
            ({
                let parts: ((&'a mut T0, &'a mut T1, &'a mut T2, &'a mut T3, &'a mut T4),
                    (&'a mut T5, &'a mut T6, &'a mut T7, &'a mut T8, &'a mut T9)) = r;
                *final(self) == (*final(parts.0.0), *final(parts.0.1), *final(parts.0.2),
                    *final(parts.0.3), *final(parts.0.4), *final(parts.1.0), *final(parts.1.1),
                    *final(parts.1.2), *final(parts.1.3), *final(parts.1.4))
            }),
    {
        ((&mut self.0, &mut self.1, &mut self.2, &mut self.3, &mut self.4), (&mut self.5,
            &mut self.6, &mut self.7, &mut self.8, &mut self.9))
    }

    proof fn lemma_split_mut_len() {
    }
}

impl<'a, T0: 'a, T1: 'a, T2: 'a, T3: 'a, T4: 'a, T5: 'a, T6: 'a, T7: 'a, T8: 'a,
    T9: 'a> TypedSplitMut<'a, 6, (&'a mut T0, &'a mut T1, &'a mut T2, &'a mut T3, &'a mut T4,
    &'a mut T5), (&'a mut T6, &'a mut T7, &'a mut T8, &'a mut T9)>
    for (T0, T1, T2, T3, T4, T5, T6, T7, T8, T9)
{
    open spec fn spec_borrows(&self, parts: ((&'a mut T0, &'a mut T1, &'a mut T2, &'a mut T3,
        &'a mut T4, &'a mut T5), (&'a mut T6, &'a mut T7, &'a mut T8, &'a mut T9))) -> bool {
        &&& *parts.0.0 == self.0
        &&& *parts.0.1 == self.1
        &&& *parts.0.2 == self.2
        &&& *parts.0.3 == self.3
        &&& *parts.0.4 == self.4
        &&& *parts.0.5 == self.5
        &&& *parts.1.0 == self.6
        &&& *parts.1.1 == self.7
        &&& *parts.1.2 == self.8
        &&& *parts.1.3 == self.9
    }

    fn split_mut(&'a mut self) -> (r: ((&'a mut T0, &'a mut T1, &'a mut T2, &'a mut T3, &'a mut T4,
        &'a mut T5), (&'a mut T6, &'a mut T7, &'a mut T8, &'a mut T9)))
        ensures
            ({
                let parts: ((&'a mut T0, &'a mut T1, &'a mut T2, &'a mut T3, &'a mut T4,
                    &'a mut T5), (&'a mut T6, &'a mut T7, &'a mut T8, &'a mut T9)) = r;
                *final(self) == (*final(parts.0.0), *final(parts.0.1), *final(parts.0.2),
                    *final(parts.0.3), *final(parts.0.4), *final(parts.0.5), *final(parts.1.0),
                    *final(parts.1.1), *final(parts.1.2), *final(parts.1.3))
            }),
    {
        ((&mut self.0, &mut self.1, &mut self.2, &mut self.3, &mut self.4, &mut self.5),
            (&mut self.6, &mut self.7, &mut self.8, &mut self.9))
    }

    proof fn lemma_split_mut_len() {
    }
}

impl<'a, T0: 'a, T1: 'a, T2: 'a, T3: 'a, T4: 'a, T5: 'a, T6: 'a, T7: 'a, T8: 'a,
    T9: 'a> TypedSplitMut<'a, 7, (&'a mut T0, &'a mut T1, &'a mut T2, &'a mut T3, &'a mut T4,
    &'a mut T5, &'a mut T6), (&'a mut T7, &'a mut T8, &'a mut T9)>
    for (T0, T1, T2, T3, T4, T5, T6, T7, T8, T9)
{
    open spec fn spec_borrows(&self, parts: ((&'a mut T0, &'a mut T1, &'a mut T2, &'a mut T3,
        &'a mut T4, &'a mut T5, &'a mut T6), (&'a mut T7, &'a mut T8, &'a mut T9))) -> bool {
        &&& *parts.0.0 == self.0
        &&& *parts.0.1 == self.1
        &&& *parts.0.2 == self.2
        &&& *parts.0.3 == self.3
        &&& *parts.0.4 == self.4
        &&& *parts.0.5 == self.5
        &&& *parts.0.6 == self.6
        &&& *parts.1.0 == self.7
        &&& *parts.1.1 == self.8
        &&& *parts.1.2 == self.9
    }

    fn split_mut(&'a mut self) -> (r: ((&'a mut T0, &'a mut T1, &'a mut T2, &'a mut T3, &'a mut T4,
        &'a mut T5, &'a mut T6), (&'a mut T7, &'a mut T8, &'a mut T9)))
        ensures
            ({
                let parts: ((&'a mut T0, &'a mut T1, &'a mut T2, &'a mut T3, &'a mut T4, &'a mut T5,
                    &'a mut T6), (&'a mut T7, &'a mut T8, &'a mut T9)) = r;
                *final(self) == (*final(parts.0.0), *final(parts.0.1), *final(parts.0.2),
                    *final(parts.0.3), *final(parts.0.4), *final(parts.0.5), *final(parts.0.6),
                    *final(parts.1.0), *final(parts.1.1), *final(parts.1.2))
            }),
    {
        ((&mut self.0, &mut self.1, &mut self.2, &mut self.3, &mut self.4, &mut self.5,
            &mut self.6), (&mut self.7, &mut self.8, &mut self.9))
    }

    proof fn lemma_split_mut_len() {
    }
}

impl<'a, T0: 'a, T1: 'a, T2: 'a, T3: 'a, T4: 'a, T5: 'a, T6: 'a, T7: 'a, T8: 'a,
    T9: 'a> TypedSplitMut<'a, 8, (&'a mut T0, &'a mut T1, &'a mut T2, &'a mut T3, &'a mut T4,
    &'a mut T5, &'a mut T6, &'a mut T7), (&'a mut T8, &'a mut T9)>
    for (T0, T1, T2, T3, T4, T5, T6, T7, T8, T9)
{
    open spec fn spec_borrows(&self, parts: ((&'a mut T0, &'a mut T1, &'a mut T2, &'a mut T3,
        &'a mut T4, &'a mut T5, &'a mut T6, &'a mut T7), (&'a mut T8, &'a mut T9))) -> bool {
        &&& *parts.0.0 == self.0
        &&& *parts.0.1 == self.1
        &&& *parts.0.2 == self.2
        &&& *parts.0.3 == self.3
        &&& *parts.0.4 == self.4
        &&& *parts.0.5 == self.5
        &&& *parts.0.6 == self.6
        &&& *parts.0.7 == self.7
        &&& *parts.1.0 == self.8
        &&& *parts.1.1 == self.9
    }

    fn split_mut(&'a mut self) -> (r: ((&'a mut T0, &'a mut T1, &'a mut T2, &'a mut T3, &'a mut T4,
        &'a mut T5, &'a mut T6, &'a mut T7), (&'a mut T8, &'a mut T9)))
        ensures
            ({
                let parts: ((&'a mut T0, &'a mut T1, &'a mut T2, &'a mut T3, &'a mut T4, &'a mut T5,
                    &'a mut T6, &'a mut T7), (&'a mut T8, &'a mut T9)) = r;
                *final(self) == (*final(parts.0.0), *final(parts.0.1), *final(parts.0.2),
                    *final(parts.0.3), *final(parts.0.4), *final(parts.0.5), *final(parts.0.6),
                    *final(parts.0.7), *final(parts.1.0), *final(parts.1.1))
            }),
    {
        ((&mut self.0, &mut self.1, &mut self.2, &mut self.3, &mut self.4, &mut self.5, &mut self.6,
            &mut self.7), (&mut self.8, &mut self.9))
    }

    proof fn lemma_split_mut_len() {
    }
}

impl<'a, T0: 'a, T1: 'a, T2: 'a, T3: 'a, T4: 'a, T5: 'a, T6: 'a, T7: 'a, T8: 'a,
    T9: 'a> TypedSplitMut<'a, 9, (&'a mut T0, &'a mut T1, &'a mut T2, &'a mut T3, &'a mut T4,
    &'a mut T5, &'a mut T6, &'a mut T7, &'a mut T8), (&'a mut T9,)>
    for (T0, T1, T2, T3, T4, T5, T6, T7, T8, T9)
{
    open spec fn spec_borrows(&self, parts: ((&'a mut T0, &'a mut T1, &'a mut T2, &'a mut T3,
        &'a mut T4, &'a mut T5, &'a mut T6, &'a mut T7, &'a mut T8), (&'a mut T9,))) -> bool {
        &&& *parts.0.0 == self.0
        &&& *parts.0.1 == self.1
        &&& *parts.0.2 == self.2
        &&& *parts.0.3 == self.3
        &&& *parts.0.4 == self.4
        &&& *parts.0.5 == self.5
        &&& *parts.0.6 == self.6
        &&& *parts.0.7 == self.7
        &&& *parts.0.8 == self.8
        &&& *parts.1.0 == self.9
    }

    fn split_mut(&'a mut self) -> (r: ((&'a mut T0, &'a mut T1, &'a mut T2, &'a mut T3, &'a mut T4,
        &'a mut T5, &'a mut T6, &'a mut T7, &'a mut T8), (&'a mut T9,)))
        ensures
            ({
                let parts: ((&'a mut T0, &'a mut T1, &'a mut T2, &'a mut T3, &'a mut T4, &'a mut T5,
                    &'a mut T6, &'a mut T7, &'a mut T8), (&'a mut T9,)) = r;
                *final(self) == (*final(parts.0.0), *final(parts.0.1), *final(parts.0.2),
                    *final(parts.0.3), *final(parts.0.4), *final(parts.0.5), *final(parts.0.6),
                    *final(parts.0.7), *final(parts.0.8), *final(parts.1.0))
            }),
    {
        ((&mut self.0, &mut self.1, &mut self.2, &mut self.3, &mut self.4, &mut self.5, &mut self.6,
            &mut self.7, &mut self.8), (&mut self.9,))
    }

    proof fn lemma_split_mut_len() {
    }
}

impl<'a, T0: 'a, T1: 'a, T2: 'a, T3: 'a, T4: 'a, T5: 'a, T6: 'a, T7: 'a, T8: 'a,
    T9: 'a> TypedSplitMut<'a, 10, (&'a mut T0, &'a mut T1, &'a mut T2, &'a mut T3, &'a mut T4,
    &'a mut T5, &'a mut T6, &'a mut T7, &'a mut T8, &'a mut T9), ()>
    for (T0, T1, T2, T3, T4, T5, T6, T7, T8, T9)
{
    open spec fn spec_borrows(&self, parts: ((&'a mut T0, &'a mut T1, &'a mut T2, &'a mut T3,
        &'a mut T4, &'a mut T5, &'a mut T6, &'a mut T7, &'a mut T8, &'a mut T9), ())) -> bool {
        &&& *parts.0.0 == self.0
        &&& *parts.0.1 == self.1
        &&& *parts.0.2 == self.2
        &&& *parts.0.3 == self.3
        &&& *parts.0.4 == self.4
        &&& *parts.0.5 == self.5
        &&& *parts.0.6 == self.6
        &&& *parts.0.7 == self.7
        &&& *parts.0.8 == self.8
        &&& *parts.0.9 == self.9
    }

    fn split_mut(&'a mut self) -> (r: ((&'a mut T0, &'a mut T1, &'a mut T2, &'a mut T3, &'a mut T4,
        &'a mut T5, &'a mut T6, &'a mut T7, &'a mut T8, &'a mut T9), ()))
        ensures
            ({
                let parts: ((&'a mut T0, &'a mut T1, &'a mut T2, &'a mut T3, &'a mut T4, &'a mut T5,
                    &'a mut T6, &'a mut T7, &'a mut T8, &'a mut T9), ()) = r;
                *final(self) == (*final(parts.0.0), *final(parts.0.1), *final(parts.0.2),
                    *final(parts.0.3), *final(parts.0.4), *final(parts.0.5), *final(parts.0.6),
                    *final(parts.0.7), *final(parts.0.8), *final(parts.0.9))
            }),
    {
        ((&mut self.0, &mut self.1, &mut self.2, &mut self.3, &mut self.4, &mut self.5, &mut self.6,
            &mut self.7, &mut self.8, &mut self.9), ())
    }

    proof fn lemma_split_mut_len() {
    }
}

impl<'a, T0: 'a, T1: 'a, T2: 'a, T3: 'a, T4: 'a, T5: 'a, T6: 'a, T7: 'a, T8: 'a, T9: 'a,
    T10: 'a> TypedSplitMut<'a, 0, (), (&'a mut T0, &'a mut T1, &'a mut T2, &'a mut T3, &'a mut T4,
    &'a mut T5, &'a mut T6, &'a mut T7, &'a mut T8, &'a mut T9, &'a mut T10)>
    for (T0, T1, T2, T3, T4, T5, T6, T7, T8, T9, T10)
{
    open spec fn spec_borrows(&self, parts: ((), (&'a mut T0, &'a mut T1, &'a mut T2, &'a mut T3,
        &'a mut T4, &'a mut T5, &'a mut T6, &'a mut T7, &'a mut T8, &'a mut T9,
        &'a mut T10))) -> bool {
        &&& *parts.1.0 == self.0
        &&& *parts.1.1 == self.1
        &&& *parts.1.2 == self.2
        &&& *parts.1.3 == self.3
        &&& *parts.1.4 == self.4
        &&& *parts.1.5 == self.5
        &&& *parts.1.6 == self.6
        &&& *parts.1.7 == self.7
        &&& *parts.1.8 == self.8
        &&& *parts.1.9 == self.9
        &&& *parts.1.10 == self.10
    }

    fn split_mut(&'a mut self) -> (r: ((), (&'a mut T0, &'a mut T1, &'a mut T2, &'a mut T3,
        &'a mut T4, &'a mut T5, &'a mut T6, &'a mut T7, &'a mut T8, &'a mut T9, &'a mut T10)))
        ensures
            ({
                let parts: ((), (&'a mut T0, &'a mut T1, &'a mut T2, &'a mut T3, &'a mut T4,
                    &'a mut T5, &'a mut T6, &'a mut T7, &'a mut T8, &'a mut T9, &'a mut T10)) = r;
                *final(self) == (*final(parts.1.0), *final(parts.1.1), *final(parts.1.2),
                    *final(parts.1.3), *final(parts.1.4), *final(parts.1.5), *final(parts.1.6),
                    *final(parts.1.7), *final(parts.1.8), *final(parts.1.9), *final(parts.1.10))
            }),
    {
        ((), (&mut self.0, &mut self.1, &mut self.2, &mut self.3, &mut self.4, &mut self.5,
            &mut self.6, &mut self.7, &mut self.8, &mut self.9, &mut self.10))
    }

    proof fn lemma_split_mut_len() {
    }
}

impl<'a, T0: 'a, T1: 'a, T2: 'a, T3: 'a, T4: 'a, T5: 'a, T6: 'a, T7: 'a, T8: 'a, T9: 'a,
    T10: 'a> TypedSplitMut<'a, 1, (&'a mut T0,), (&'a mut T1, &'a mut T2, &'a mut T3, &'a mut T4,
    &'a mut T5, &'a mut T6, &'a mut T7, &'a mut T8, &'a mut T9, &'a mut T10)>
    for (T0, T1, T2, T3, T4, T5, T6, T7, T8, T9, T10)
{
    open spec fn spec_borrows(&self, parts: ((&'a mut T0,), (&'a mut T1, &'a mut T2, &'a mut T3,
        &'a mut T4, &'a mut T5, &'a mut T6, &'a mut T7, &'a mut T8, &'a mut T9,
        &'a mut T10))) -> bool {
        &&& *parts.0.0 == self.0
        &&& *parts.1.0 == self.1
        &&& *parts.1.1 == self.2
        &&& *parts.1.2 == self.3
        &&& *parts.1.3 == self.4
        &&& *parts.1.4 == self.5
        &&& *parts.1.5 == self.6
        &&& *parts.1.6 == self.7
        &&& *parts.1.7 == self.8
        &&& *parts.1.8 == self.9
        &&& *parts.1.9 == self.10
    }

    fn split_mut(&'a mut self) -> (r: ((&'a mut T0,), (&'a mut T1, &'a mut T2, &'a mut T3,
        &'a mut T4, &'a mut T5, &'a mut T6, &'a mut T7, &'a mut T8, &'a mut T9, &'a mut T10)))
        ensures
            ({
                let parts: ((&'a mut T0,), (&'a mut T1, &'a mut T2, &'a mut T3, &'a mut T4,
                    &'a mut T5, &'a mut T6, &'a mut T7, &'a mut T8, &'a mut T9, &'a mut T10)) = r;
                *final(self) == (*final(parts.0.0), *final(parts.1.0), *final(parts.1.1),
                    *final(parts.1.2), *final(parts.1.3), *final(parts.1.4), *final(parts.1.5),
                    *final(parts.1.6), *final(parts.1.7), *final(parts.1.8), *final(parts.1.9))
            }),
    {
        ((&mut self.0,), (&mut self.1, &mut self.2, &mut self.3, &mut self.4, &mut self.5,
            &mut self.6, &mut self.7, &mut self.8, &mut self.9, &mut self.10))
    }

    proof fn lemma_split_mut_len() {
    }
}

impl<'a, T0: 'a, T1: 'a, T2: 'a, T3: 'a, T4: 'a, T5: 'a, T6: 'a, T7: 'a, T8: 'a, T9: 'a,
    T10: 'a> TypedSplitMut<'a, 2, (&'a mut T0, &'a mut T1), (&'a mut T2, &'a mut T3, &'a mut T4,
    &'a mut T5, &'a mut T6, &'a mut T7, &'a mut T8, &'a mut T9, &'a mut T10)>
    for (T0, T1, T2, T3, T4, T5, T6, T7, T8, T9, T10)
{
    open spec fn spec_borrows(&self, parts: ((&'a mut T0, &'a mut T1), (&'a mut T2, &'a mut T3,
        &'a mut T4, &'a mut T5, &'a mut T6, &'a mut T7, &'a mut T8, &'a mut T9,
        &'a mut T10))) -> bool {
        &&& *parts.0.0 == self.0
        &&& *parts.0.1 == self.1
        &&& *parts.1.0 == self.2
        &&& *parts.1.1 == self.3
        &&& *parts.1.2 == self.4
        &&& *parts.1.3 == self.5
        &&& *parts.1.4 == self.6
        &&& *parts.1.5 == self.7
        &&& *parts.1.6 == self.8
        &&& *parts.1.7 == self.9
        &&& *parts.1.8 == self.10
    }

    fn split_mut(&'a mut self) -> (r: ((&'a mut T0, &'a mut T1), (&'a mut T2, &'a mut T3,
        &'a mut T4, &'a mut T5, &'a mut T6, &'a mut T7, &'a mut T8, &'a mut T9, &'a mut T10)))
        ensures
            ({
                let parts: ((&'a mut T0, &'a mut T1), (&'a mut T2, &'a mut T3, &'a mut T4,
                    &'a mut T5, &'a mut T6, &'a mut T7, &'a mut T8, &'a mut T9, &'a mut T10)) = r;
                *final(self) == (*final(parts.0.0), *final(parts.0.1), *final(parts.1.0),
                    *final(parts.1.1), *final(parts.1.2), *final(parts.1.3), *final(parts.1.4),
                    *final(parts.1.5), *final(parts.1.6), *final(parts.1.7), *final(parts.1.8))
            }),
    {
        ((&mut self.0, &mut self.1), (&mut self.2, &mut self.3, &mut self.4, &mut self.5,
            &mut self.6, &mut self.7, &mut self.8, &mut self.9, &mut self.10))
    }

    proof fn lemma_split_mut_len() {
    }
}

impl<'a, T0: 'a, T1: 'a, T2: 'a, T3: 'a, T4: 'a, T5: 'a, T6: 'a, T7: 'a, T8: 'a, T9: 'a,
    T10: 'a> TypedSplitMut<'a, 3, (&'a mut T0, &'a mut T1, &'a mut T2), (&'a mut T3, &'a mut T4,
    &'a mut T5, &'a mut T6, &'a mut T7, &'a mut T8, &'a mut T9, &'a mut T10)>
    for (T0, T1, T2, T3, T4, T5, T6, T7, T8, T9, T10)
{
    open spec fn spec_borrows(&self, parts: ((&'a mut T0, &'a mut T1, &'a mut T2), (&'a mut T3,
        &'a mut T4, &'a mut T5, &'a mut T6, &'a mut T7, &'a mut T8, &'a mut T9,
        &'a mut T10))) -> bool {
        &&& *parts.0.0 == self.0
        &&& *parts.0.1 == self.1
        &&& *parts.0.2 == self.2
        &&& *parts.1.0 == self.3
        &&& *parts.1.1 == self.4
        &&& *parts.1.2 == self.5
        &&& *parts.1.3 == self.6
        &&& *parts.1.4 == self.7
        &&& *parts.1.5 == self.8
        &&& *parts.1.6 == self.9
        &&& *parts.1.7 == self.10
    }

    fn split_mut(&'a mut self) -> (r: ((&'a mut T0, &'a mut T1, &'a mut T2), (&'a mut T3,
        &'a mut T4, &'a mut T5, &'a mut T6, &'a mut T7, &'a mut T8, &'a mut T9, &'a mut T10)))
        ensures
            ({
                let parts: ((&'a mut T0, &'a mut T1, &'a mut T2), (&'a mut T3, &'a mut T4,
                    &'a mut T5, &'a mut T6, &'a mut T7, &'a mut T8, &'a mut T9, &'a mut T10)) = r;
                *final(self) == (*final(parts.0.0), *final(parts.0.1), *final(parts.0.2),
                    *final(parts.1.0), *final(parts.1.1), *final(parts.1.2), *final(parts.1.3),
                    *final(parts.1.4), *final(parts.1.5), *final(parts.1.6), *final(parts.1.7))
            }),
    {
        ((&mut self.0, &mut self.1, &mut self.2), (&mut self.3, &mut self.4, &mut self.5,
            &mut self.6, &mut self.7, &mut self.8, &mut self.9, &mut self.10))
    }

    proof fn lemma_split_mut_len() {
    }
}

impl<'a, T0: 'a, T1: 'a, T2: 'a, T3: 'a, T4: 'a, T5: 'a, T6: 'a, T7: 'a, T8: 'a, T9: 'a,
    T10: 'a> TypedSplitMut<'a, 4, (&'a mut T0, &'a mut T1, &'a mut T2, &'a mut T3), (&'a mut T4,
    &'a mut T5, &'a mut T6, &'a mut T7, &'a mut T8, &'a mut T9, &'a mut T10)>
    for (T0, T1, T2, T3, T4, T5, T6, T7, T8, T9, T10)
{
    open spec fn spec_borrows(&self, parts: ((&'a mut T0, &'a mut T1, &'a mut T2, &'a mut T3),
        (&'a mut T4, &'a mut T5, &'a mut T6, &'a mut T7, &'a mut T8, &'a mut T9,
        &'a mut T10))) -> bool {
        &&& *parts.0.0 == self.0
        &&& *parts.0.1 == self.1
        &&& *parts.0.2 == self.2
        &&& *parts.0.3 == self.3
        &&& *parts.1.0 == self.4
        &&& *parts.1.1 == self.5
        &&& *parts.1.2 == self.6
        &&& *parts.1.3 == self.7
        &&& *parts.1.4 == self.8
        &&& *parts.1.5 == self.9
        &&& *parts.1.6 == self.10
    }

    fn split_mut(&'a mut self) -> (r: ((&'a mut T0, &'a mut T1, &'a mut T2, &'a mut T3),
        (&'a mut T4, &'a mut T5, &'a mut T6, &'a mut T7, &'a mut T8, &'a mut T9, &'a mut T10)))
        ensures
            ({
                let parts: ((&'a mut T0, &'a mut T1, &'a mut T2, &'a mut T3), (&'a mut T4,
                    &'a mut T5, &'a mut T6, &'a mut T7, &'a mut T8, &'a mut T9, &'a mut T10)) = r;
                *final(self) == (*final(parts.0.0), *final(parts.0.1), *final(parts.0.2),
                    *final(parts.0.3), *final(parts.1.0), *final(parts.1.1), *final(parts.1.2),
                    *final(parts.1.3), *final(parts.1.4), *final(parts.1.5), *final(parts.1.6))
            }),
    {
        ((&mut self.0, &mut self.1, &mut self.2, &mut self.3), (&mut self.4, &mut self.5,
            &mut self.6, &mut self.7, &mut self.8, &mut self.9, &mut self.10))
    }

    proof fn lemma_split_mut_len() {
    }
}

impl<'a, T0: 'a, T1: 'a, T2: 'a, T3: 'a, T4: 'a, T5: 'a, T6: 'a, T7: 'a, T8: 'a, T9: 'a,
    T10: 'a> TypedSplitMut<'a, 5, (&'a mut T0, &'a mut T1, &'a mut T2, &'a mut T3, &'a mut T4),
    (&'a mut T5, &'a mut T6, &'a mut T7, &'a mut T8, &'a mut T9, &'a mut T10)>
    for (T0, T1, T2, T3, T4, T5, T6, T7, T8, T9, T10)
{
    open spec fn spec_borrows(&self, parts: ((&'a mut T0, &'a mut T1, &'a mut T2, &'a mut T3,
        &'a mut T4), (&'a mut T5, &'a mut T6, &'a mut T7, &'a mut T8, &'a mut T9,
        &'a mut T10))) -> bool {
        &&& *parts.0.0 == self.0
        &&& *parts.0.1 == self.1
        &&& *parts.0.2 == self.2
        &&& *parts.0.3 == self.3
        &&& *parts.0.4 == self.4
        &&& *parts.1.0 == self.5
        &&& *parts.1.1 == self.6
        &&& *parts.1.2 == self.7
        &&& *parts.1.3 == self.8
        &&& *parts.1.4 == self.9
        &&& *parts.1.5 == self.10
    }

    fn split_mut(&'a mut self) -> (r: ((&'a mut T0, &'a mut T1, &'a mut T2, &'a mut T3, &'a mut T4),
        (&'a mut T5, &'a mut T6, &'a mut T7, &'a mut T8, &'a mut T9, &'a mut T10)))
        ensures
            ({
                let parts: ((&'a mut T0, &'a mut T1, &'a mut T2, &'a mut T3, &'a mut T4),
                    (&'a mut T5, &'a mut T6, &'a mut T7, &'a mut T8, &'a mut T9, &'a mut T10)) = r;
                *final(self) == (*final(parts.0.0), *final(parts.0.1), *final(parts.0.2),
                    *final(parts.0.3), *final(parts.0.4), *final(parts.1.0), *final(parts.1.1),
                    *final(parts.1.2), *final(parts.1.3), *final(parts.1.4), *final(parts.1.5))
            }),
    {
        ((&mut self.0, &mut self.1, &mut self.2, &mut self.3, &mut self.4), (&mut self.5,
            &mut self.6, &mut self.7, &mut self.8, &mut self.9, &mut self.10))
    }

    proof fn lemma_split_mut_len() {
    }
}

impl<'a, T0: 'a, T1: 'a, T2: 'a, T3: 'a, T4: 'a, T5: 'a, T6: 'a, T7: 'a, T8: 'a, T9: 'a,
    T10: 'a> TypedSplitMut<'a, 6, (&'a mut T0, &'a mut T1, &'a mut T2, &'a mut T3, &'a mut T4,
    &'a mut T5), (&'a mut T6, &'a mut T7, &'a mut T8, &'a mut T9, &'a mut T10)>
    for (T0, T1, T2, T3, T4, T5, T6, T7, T8, T9, T10)
{
    open spec fn spec_borrows(&self, parts: ((&'a mut T0, &'a mut T1, &'a mut T2, &'a mut T3,
        &'a mut T4, &'a mut T5), (&'a mut T6, &'a mut T7, &'a mut T8, &'a mut T9,
        &'a mut T10))) -> bool {
        &&& *parts.0.0 == self.0
        &&& *parts.0.1 == self.1
        &&& *parts.0.2 == self.2
        &&& *parts.0.3 == self.3
        &&& *parts.0.4 == self.4
        &&& *parts.0.5 == self.5
        &&& *parts.1.0 == self.6
        &&& *parts.1.1 == self.7
        &&& *parts.1.2 == self.8
        &&& *parts.1.3 == self.9
        &&& *parts.1.4 == self.10
    }

    fn split_mut(&'a mut self) -> (r: ((&'a mut T0, &'a mut T1, &'a mut T2, &'a mut T3, &'a mut T4,
        &'a mut T5), (&'a mut T6, &'a mut T7, &'a mut T8, &'a mut T9, &'a mut T10)))
        ensures
            ({
                let parts: ((&'a mut T0, &'a mut T1, &'a mut T2, &'a mut T3, &'a mut T4,
                    &'a mut T5), (&'a mut T6, &'a mut T7, &'a mut T8, &'a mut T9,
                    &'a mut T10)) = r;
                *final(self) == (*final(parts.0.0), *final(parts.0.1), *final(parts.0.2),
                    *final(parts.0.3), *final(parts.0.4), *final(parts.0.5), *final(parts.1.0),
                    *final(parts.1.1), *final(parts.1.2), *final(parts.1.3), *final(parts.1.4))
            }),
    {
        ((&mut self.0, &mut self.1, &mut self.2, &mut self.3, &mut self.4, &mut self.5),
            (&mut self.6, &mut self.7, &mut self.8, &mut self.9, &mut self.10))
    }

    proof fn lemma_split_mut_len() {
    }
}

impl<'a, T0: 'a, T1: 'a, T2: 'a, T3: 'a, T4: 'a, T5: 'a, T6: 'a, T7: 'a, T8: 'a, T9: 'a,
    T10: 'a> TypedSplitMut<'a, 7, (&'a mut T0, &'a mut T1, &'a mut T2, &'a mut T3, &'a mut T4,
    &'a mut T5, &'a mut T6), (&'a mut T7, &'a mut T8, &'a mut T9, &'a mut T10)>
    for (T0, T1, T2, T3, T4, T5, T6, T7, T8, T9, T10)
{
    open spec fn spec_borrows(&self, parts: ((&'a mut T0, &'a mut T1, &'a mut T2, &'a mut T3,
        &'a mut T4, &'a mut T5, &'a mut T6), (&'a mut T7, &'a mut T8, &'a mut T9,
        &'a mut T10))) -> bool {
        &&& *parts.0.0 == self.0
        &&& *parts.0.1 == self.1
        &&& *parts.0.2 == self.2
        &&& *parts.0.3 == self.3
        &&& *parts.0.4 == self.4
        &&& *parts.0.5 == self.5
        &&& *parts.0.6 == self.6
        &&& *parts.1.0 == self.7
        &&& *parts.1.1 == self.8
        &&& *parts.1.2 == self.9
        &&& *parts.1.3 == self.10
    }

    fn split_mut(&'a mut self) -> (r: ((&'a mut T0, &'a mut T1, &'a mut T2, &'a mut T3, &'a mut T4,
        &'a mut T5, &'a mut T6), (&'a mut T7, &'a mut T8, &'a mut T9, &'a mut T10)))
        ensures
            ({
                let parts: ((&'a mut T0, &'a mut T1, &'a mut T2, &'a mut T3, &'a mut T4, &'a mut T5,
                    &'a mut T6), (&'a mut T7, &'a mut T8, &'a mut T9, &'a mut T10)) = r;
                *final(self) == (*final(parts.0.0), *final(parts.0.1), *final(parts.0.2),
                    *final(parts.0.3), *final(parts.0.4), *final(parts.0.5), *final(parts.0.6),
                    *final(parts.1.0), *final(parts.1.1), *final(parts.1.2), *final(parts.1.3))
            }),
    {
        ((&mut self.0, &mut self.1, &mut self.2, &mut self.3, &mut self.4, &mut self.5,
            &mut self.6), (&mut self.7, &mut self.8, &mut self.9, &mut self.10))
    }

    proof fn lemma_split_mut_len() {
    }
}

impl<'a, T0: 'a, T1: 'a, T2: 'a, T3: 'a, T4: 'a, T5: 'a, T6: 'a, T7: 'a, T8: 'a, T9: 'a,
    T10: 'a> TypedSplitMut<'a, 8, (&'a mut T0, &'a mut T1, &'a mut T2, &'a mut T3, &'a mut T4,
    &'a mut T5, &'a mut T6, &'a mut T7), (&'a mut T8, &'a mut T9, &'a mut T10)>
    for (T0, T1, T2, T3, T4, T5, T6, T7, T8, T9, T10)
{
    open spec fn spec_borrows(&self, parts: ((&'a mut T0, &'a mut T1, &'a mut T2, &'a mut T3,
        &'a mut T4, &'a mut T5, &'a mut T6, &'a mut T7), (&'a mut T8, &'a mut T9,
        &'a mut T10))) -> bool {
        &&& *parts.0.0 == self.0
        &&& *parts.0.1 == self.1
        &&& *parts.0.2 == self.2
        &&& *parts.0.3 == self.3
        &&& *parts.0.4 == self.4
        &&& *parts.0.5 == self.5
        &&& *parts.0.6 == self.6
        &&& *parts.0.7 == self.7
        &&& *parts.1.0 == self.8
        &&& *parts.1.1 == self.9
        &&& *parts.1.2 == self.10
    }

    fn split_mut(&'a mut self) -> (r: ((&'a mut T0, &'a mut T1, &'a mut T2, &'a mut T3, &'a mut T4,
        &'a mut T5, &'a mut T6, &'a mut T7), (&'a mut T8, &'a mut T9, &'a mut T10)))
        ensures
            ({
                let parts: ((&'a mut T0, &'a mut T1, &'a mut T2, &'a mut T3, &'a mut T4, &'a mut T5,
                    &'a mut T6, &'a mut T7), (&'a mut T8, &'a mut T9, &'a mut T10)) = r;
                *final(self) == (*final(parts.0.0), *final(parts.0.1), *final(parts.0.2),
                    *final(parts.0.3), *final(parts.0.4), *final(parts.0.5), *final(parts.0.6),
                    *final(parts.0.7), *final(parts.1.0), *final(parts.1.1), *final(parts.1.2))
            }),
    {
        ((&mut self.0, &mut self.1, &mut self.2, &mut self.3, &mut self.4, &mut self.5, &mut self.6,
            &mut self.7), (&mut self.8, &mut self.9, &mut self.10))
    }

    proof fn lemma_split_mut_len() {
    }
}

impl<'a, T0: 'a, T1: 'a, T2: 'a, T3: 'a, T4: 'a, T5: 'a, T6: 'a, T7: 'a, T8: 'a, T9: 'a,
    T10: 'a> TypedSplitMut<'a, 9, (&'a mut T0, &'a mut T1, &'a mut T2, &'a mut T3, &'a mut T4,
    &'a mut T5, &'a mut T6, &'a mut T7, &'a mut T8), (&'a mut T9, &'a mut T10)>
    for (T0, T1, T2, T3, T4, T5, T6, T7, T8, T9, T10)
{
    open spec fn spec_borrows(&self, parts: ((&'a mut T0, &'a mut T1, &'a mut T2, &'a mut T3,
        &'a mut T4, &'a mut T5, &'a mut T6, &'a mut T7, &'a mut T8), (&'a mut T9,
        &'a mut T10))) -> bool {
        &&& *parts.0.0 == self.0
        &&& *parts.0.1 == self.1
        &&& *parts.0.2 == self.2
        &&& *parts.0.3 == self.3
        &&& *parts.0.4 == self.4
        &&& *parts.0.5 == self.5
        &&& *parts.0.6 == self.6
        &&& *parts.0.7 == self.7
        &&& *parts.0.8 == self.8
        &&& *parts.1.0 == self.9
        &&& *parts.1.1 == self.10
    }

    fn split_mut(&'a mut self) -> (r: ((&'a mut T0, &'a mut T1, &'a mut T2, &'a mut T3, &'a mut T4,
        &'a mut T5, &'a mut T6, &'a mut T7, &'a mut T8), (&'a mut T9, &'a mut T10)))
        ensures
            ({
                let parts: ((&'a mut T0, &'a mut T1, &'a mut T2, &'a mut T3, &'a mut T4, &'a mut T5,
                    &'a mut T6, &'a mut T7, &'a mut T8), (&'a mut T9, &'a mut T10)) = r;
                *final(self) == (*final(parts.0.0), *final(parts.0.1), *final(parts.0.2),
                    *final(parts.0.3), *final(parts.0.4), *final(parts.0.5), *final(parts.0.6),
                    *final(parts.0.7), *final(parts.0.8), *final(parts.1.0), *final(parts.1.1))
            }),
    {
        ((&mut self.0, &mut self.1, &mut self.2, &mut self.3, &mut self.4, &mut self.5, &mut self.6,
            &mut self.7, &mut self.8), (&mut self.9, &mut self.10))
    }

    proof fn lemma_split_mut_len() {
    }
}

impl<'a, T0: 'a, T1: 'a, T2: 'a, T3: 'a, T4: 'a, T5: 'a, T6: 'a, T7: 'a, T8: 'a, T9: 'a,
    T10: 'a> TypedSplitMut<'a, 10, (&'a mut T0, &'a mut T1, &'a mut T2, &'a mut T3, &'a mut T4,
    &'a mut T5, &'a mut T6, &'a mut T7, &'a mut T8, &'a mut T9), (&'a mut T10,)>
    for (T0, T1, T2, T3, T4, T5, T6, T7, T8, T9, T10)
{
    open spec fn spec_borrows(&self, parts: ((&'a mut T0, &'a mut T1, &'a mut T2, &'a mut T3,
        &'a mut T4, &'a mut T5, &'a mut T6, &'a mut T7, &'a mut T8, &'a mut T9),
        (&'a mut T10,))) -> bool {
        &&& *parts.0.0 == self.0
        &&& *parts.0.1 == self.1
        &&& *parts.0.2 == self.2
        &&& *parts.0.3 == self.3
        &&& *parts.0.4 == self.4
        &&& *parts.0.5 == self.5
        &&& *parts.0.6 == self.6
        &&& *parts.0.7 == self.7
        &&& *parts.0.8 == self.8
        &&& *parts.0.9 == self.9
        &&& *parts.1.0 == self.10
    }

    fn split_mut(&'a mut self) -> (r: ((&'a mut T0, &'a mut T1, &'a mut T2, &'a mut T3, &'a mut T4,
        &'a mut T5, &'a mut T6, &'a mut T7, &'a mut T8, &'a mut T9), (&'a mut T10,)))
        ensures
            ({
                let parts: ((&'a mut T0, &'a mut T1, &'a mut T2, &'a mut T3, &'a mut T4, &'a mut T5,
                    &'a mut T6, &'a mut T7, &'a mut T8, &'a mut T9), (&'a mut T10,)) = r;
                *final(self) == (*final(parts.0.0), *final(parts.0.1), *final(parts.0.2),
                    *final(parts.0.3), *final(parts.0.4), *final(parts.0.5), *final(parts.0.6),
                    *final(parts.0.7), *final(parts.0.8), *final(parts.0.9), *final(parts.1.0))
            }),
    {
        ((&mut self.0, &mut self.1, &mut self.2, &mut self.3, &mut self.4, &mut self.5, &mut self.6,
            &mut self.7, &mut self.8, &mut self.9), (&mut self.10,))
    }

    proof fn lemma_split_mut_len() {
    }
}

impl<'a, T0: 'a, T1: 'a, T2: 'a, T3: 'a, T4: 'a, T5: 'a, T6: 'a, T7: 'a, T8: 'a, T9: 'a,
    T10: 'a> TypedSplitMut<'a, 11, (&'a mut T0, &'a mut T1, &'a mut T2, &'a mut T3, &'a mut T4,
    &'a mut T5, &'a mut T6, &'a mut T7, &'a mut T8, &'a mut T9, &'a mut T10), ()>
    for (T0, T1, T2, T3, T4, T5, T6, T7, T8, T9, T10)
{
    open spec fn spec_borrows(&self, parts: ((&'a mut T0, &'a mut T1, &'a mut T2, &'a mut T3,
        &'a mut T4, &'a mut T5, &'a mut T6, &'a mut T7, &'a mut T8, &'a mut T9, &'a mut T10),
        ())) -> bool {
        &&& *parts.0.0 == self.0
        &&& *parts.0.1 == self.1
        &&& *parts.0.2 == self.2
        &&& *parts.0.3 == self.3
        &&& *parts.0.4 == self.4
        &&& *parts.0.5 == self.5
        &&& *parts.0.6 == self.6
        &&& *parts.0.7 == self.7
        &&& *parts.0.8 == self.8
        &&& *parts.0.9 == self.9
        &&& *parts.0.10 == self.10
    }

    fn split_mut(&'a mut self) -> (r: ((&'a mut T0, &'a mut T1, &'a mut T2, &'a mut T3, &'a mut T4,
        &'a mut T5, &'a mut T6, &'a mut T7, &'a mut T8, &'a mut T9, &'a mut T10), ()))
        ensures
            ({
                let parts: ((&'a mut T0, &'a mut T1, &'a mut T2, &'a mut T3, &'a mut T4, &'a mut T5,
                    &'a mut T6, &'a mut T7, &'a mut T8, &'a mut T9, &'a mut T10), ()) = r;
                *final(self) == (*final(parts.0.0), *final(parts.0.1), *final(parts.0.2),
                    *final(parts.0.3), *final(parts.0.4), *final(parts.0.5), *final(parts.0.6),
                    *final(parts.0.7), *final(parts.0.8), *final(parts.0.9), *final(parts.0.10))
            }),
    {
        ((&mut self.0, &mut self.1, &mut self.2, &mut self.3, &mut self.4, &mut self.5, &mut self.6,
            &mut self.7, &mut self.8, &mut self.9, &mut self.10), ())
    }

    proof fn lemma_split_mut_len() {
    }
}

impl<'a, T0: 'a, T1: 'a, T2: 'a, T3: 'a, T4: 'a, T5: 'a, T6: 'a, T7: 'a, T8: 'a, T9: 'a, T10: 'a,
    T11: 'a> TypedSplitMut<'a, 0, (), (&'a mut T0, &'a mut T1, &'a mut T2, &'a mut T3, &'a mut T4,
    &'a mut T5, &'a mut T6, &'a mut T7, &'a mut T8, &'a mut T9, &'a mut T10, &'a mut T11)>
    for (T0, T1, T2, T3, T4, T5, T6, T7, T8, T9, T10, T11)
{
    open spec fn spec_borrows(&self, parts: ((), (&'a mut T0, &'a mut T1, &'a mut T2, &'a mut T3,
        &'a mut T4, &'a mut T5, &'a mut T6, &'a mut T7, &'a mut T8, &'a mut T9, &'a mut T10,
        &'a mut T11))) -> bool {
        &&& *parts.1.0 == self.0
        &&& *parts.1.1 == self.1
        &&& *parts.1.2 == self.2
        &&& *parts.1.3 == self.3
        &&& *parts.1.4 == self.4
        &&& *parts.1.5 == self.5
        &&& *parts.1.6 == self.6
        &&& *parts.1.7 == self.7
        &&& *parts.1.8 == self.8
        &&& *parts.1.9 == self.9
        &&& *parts.1.10 == self.10
        &&& *parts.1.11 == self.11
    }

    fn split_mut(&'a mut self) -> (r: ((), (&'a mut T0, &'a mut T1, &'a mut T2, &'a mut T3,
        &'a mut T4, &'a mut T5, &'a mut T6, &'a mut T7, &'a mut T8, &'a mut T9, &'a mut T10,
        &'a mut T11)))
        ensures
            ({
                let parts: ((), (&'a mut T0, &'a mut T1, &'a mut T2, &'a mut T3, &'a mut T4,
                    &'a mut T5, &'a mut T6, &'a mut T7, &'a mut T8, &'a mut T9, &'a mut T10,
                    &'a mut T11)) = r;
                *final(self) == (*final(parts.1.0), *final(parts.1.1), *final(parts.1.2),
                    *final(parts.1.3), *final(parts.1.4), *final(parts.1.5), *final(parts.1.6),
                    *final(parts.1.7), *final(parts.1.8), *final(parts.1.9), *final(parts.1.10),
                    *final(parts.1.11))
            }),
    {
        ((), (&mut self.0, &mut self.1, &mut self.2, &mut self.3, &mut self.4, &mut self.5,
            &mut self.6, &mut self.7, &mut self.8, &mut self.9, &mut self.10, &mut self.11))
    }

    proof fn lemma_split_mut_len() {
    }
}

impl<'a, T0: 'a, T1: 'a, T2: 'a, T3: 'a, T4: 'a, T5: 'a, T6: 'a, T7: 'a, T8: 'a, T9: 'a, T10: 'a,
    T11: 'a> TypedSplitMut<'a, 1, (&'a mut T0,), (&'a mut T1, &'a mut T2, &'a mut T3, &'a mut T4,
    &'a mut T5, &'a mut T6, &'a mut T7, &'a mut T8, &'a mut T9, &'a mut T10, &'a mut T11)>
    for (T0, T1, T2, T3, T4, T5, T6, T7, T8, T9, T10, T11)
{
    open spec fn spec_borrows(&self, parts: ((&'a mut T0,), (&'a mut T1, &'a mut T2, &'a mut T3,
        &'a mut T4, &'a mut T5, &'a mut T6, &'a mut T7, &'a mut T8, &'a mut T9, &'a mut T10,
        &'a mut T11))) -> bool {
        &&& *parts.0.0 == self.0
        &&& *parts.1.0 == self.1
        &&& *parts.1.1 == self.2
        &&& *parts.1.2 == self.3
        &&& *parts.1.3 == self.4
        &&& *parts.1.4 == self.5
        &&& *parts.1.5 == self.6
        &&& *parts.1.6 == self.7
        &&& *parts.1.7 == self.8
        &&& *parts.1.8 == self.9
        &&& *parts.1.9 == self.10
        &&& *parts.1.10 == self.11
    }

    fn split_mut(&'a mut self) -> (r: ((&'a mut T0,), (&'a mut T1, &'a mut T2, &'a mut T3,
        &'a mut T4, &'a mut T5, &'a mut T6, &'a mut T7, &'a mut T8, &'a mut T9, &'a mut T10,
        &'a mut T11)))
        ensures
            ({
                let parts: ((&'a mut T0,), (&'a mut T1, &'a mut T2, &'a mut T3, &'a mut T4,
                    &'a mut T5, &'a mut T6, &'a mut T7, &'a mut T8, &'a mut T9, &'a mut T10,
                    &'a mut T11)) = r;
                *final(self) == (*final(parts.0.0), *final(parts.1.0), *final(parts.1.1),
                    *final(parts.1.2), *final(parts.1.3), *final(parts.1.4), *final(parts.1.5),
                    *final(parts.1.6), *final(parts.1.7), *final(parts.1.8), *final(parts.1.9),
                    *final(parts.1.10))
            }),
    {
        ((&mut self.0,), (&mut self.1, &mut self.2, &mut self.3, &mut self.4, &mut self.5,
            &mut self.6, &mut self.7, &mut self.8, &mut self.9, &mut self.10, &mut self.11))
    }

    proof fn lemma_split_mut_len() {
    }
}

impl<'a, T0: 'a, T1: 'a, T2: 'a, T3: 'a, T4: 'a, T5: 'a, T6: 'a, T7: 'a, T8: 'a, T9: 'a, T10: 'a,
    T11: 'a> TypedSplitMut<'a, 2, (&'a mut T0, &'a mut T1), (&'a mut T2, &'a mut T3, &'a mut T4,
    &'a mut T5, &'a mut T6, &'a mut T7, &'a mut T8, &'a mut T9, &'a mut T10, &'a mut T11)>
    for (T0, T1, T2, T3, T4, T5, T6, T7, T8, T9, T10, T11)
{
    open spec fn spec_borrows(&self, parts: ((&'a mut T0, &'a mut T1), (&'a mut T2, &'a mut T3,
        &'a mut T4, &'a mut T5, &'a mut T6, &'a mut T7, &'a mut T8, &'a mut T9, &'a mut T10,
        &'a mut T11))) -> bool {
        &&& *parts.0.0 == self.0
        &&& *parts.0.1 == self.1
        &&& *parts.1.0 == self.2
        &&& *parts.1.1 == self.3
        &&& *parts.1.2 == self.4
        &&& *parts.1.3 == self.5
        &&& *parts.1.4 == self.6
        &&& *parts.1.5 == self.7
        &&& *parts.1.6 == self.8
        &&& *parts.1.7 == self.9
        &&& *parts.1.8 == self.10
        &&& *parts.1.9 == self.11
    }

    fn split_mut(&'a mut self) -> (r: ((&'a mut T0, &'a mut T1), (&'a mut T2, &'a mut T3,
        &'a mut T4, &'a mut T5, &'a mut T6, &'a mut T7, &'a mut T8, &'a mut T9, &'a mut T10,
        &'a mut T11)))
        ensures
            ({
                let parts: ((&'a mut T0, &'a mut T1), (&'a mut T2, &'a mut T3, &'a mut T4,
                    &'a mut T5, &'a mut T6, &'a mut T7, &'a mut T8, &'a mut T9, &'a mut T10,
                    &'a mut T11)) = r;
                *final(self) == (*final(parts.0.0), *final(parts.0.1), *final(parts.1.0),
                    *final(parts.1.1), *final(parts.1.2), *final(parts.1.3), *final(parts.1.4),
                    *final(parts.1.5), *final(parts.1.6), *final(parts.1.7), *final(parts.1.8),
                    *final(parts.1.9))
            }),
    {
        ((&mut self.0, &mut self.1), (&mut self.2, &mut self.3, &mut self.4, &mut self.5,
            &mut self.6, &mut self.7, &mut self.8, &mut self.9, &mut self.10, &mut self.11))
    }

    proof fn lemma_split_mut_len() {
    }
}

impl<'a, T0: 'a, T1: 'a, T2: 'a, T3: 'a, T4: 'a, T5: 'a, T6: 'a, T7: 'a, T8: 'a, T9: 'a, T10: 'a,
    T11: 'a> TypedSplitMut<'a, 3, (&'a mut T0, &'a mut T1, &'a mut T2), (&'a mut T3, &'a mut T4,
    &'a mut T5, &'a mut T6, &'a mut T7, &'a mut T8, &'a mut T9, &'a mut T10, &'a mut T11)>
    for (T0, T1, T2, T3, T4, T5, T6, T7, T8, T9, T10, T11)
{
    open spec fn spec_borrows(&self, parts: ((&'a mut T0, &'a mut T1, &'a mut T2), (&'a mut T3,
        &'a mut T4, &'a mut T5, &'a mut T6, &'a mut T7, &'a mut T8, &'a mut T9, &'a mut T10,
        &'a mut T11))) -> bool {
        &&& *parts.0.0 == self.0
        &&& *parts.0.1 == self.1
        &&& *parts.0.2 == self.2
        &&& *parts.1.0 == self.3
        &&& *parts.1.1 == self.4
        &&& *parts.1.2 == self.5
        &&& *parts.1.3 == self.6
        &&& *parts.1.4 == self.7
        &&& *parts.1.5 == self.8
        &&& *parts.1.6 == self.9
        &&& *parts.1.7 == self.10
        &&& *parts.1.8 == self.11
    }

    fn split_mut(&'a mut self) -> (r: ((&'a mut T0, &'a mut T1, &'a mut T2), (&'a mut T3,
        &'a mut T4, &'a mut T5, &'a mut T6, &'a mut T7, &'a mut T8, &'a mut T9, &'a mut T10,
        &'a mut T11)))
        ensures
            ({
                let parts: ((&'a mut T0, &'a mut T1, &'a mut T2), (&'a mut T3, &'a mut T4,
                    &'a mut T5, &'a mut T6, &'a mut T7, &'a mut T8, &'a mut T9, &'a mut T10,
                    &'a mut T11)) = r;
                *final(self) == (*final(parts.0.0), *final(parts.0.1), *final(parts.0.2),
                    *final(parts.1.0), *final(parts.1.1), *final(parts.1.2), *final(parts.1.3),
                    *final(parts.1.4), *final(parts.1.5), *final(parts.1.6), *final(parts.1.7),
                    *final(parts.1.8))
            }),
    {
        ((&mut self.0, &mut self.1, &mut self.2), (&mut self.3, &mut self.4, &mut self.5,
            &mut self.6, &mut self.7, &mut self.8, &mut self.9, &mut self.10, &mut self.11))
    }

    proof fn lemma_split_mut_len() {
    }
}

impl<'a, T0: 'a, T1: 'a, T2: 'a, T3: 'a, T4: 'a, T5: 'a, T6: 'a, T7: 'a, T8: 'a, T9: 'a, T10: 'a,
    T11: 'a> TypedSplitMut<'a, 4, (&'a mut T0, &'a mut T1, &'a mut T2, &'a mut T3), (&'a mut T4,
    &'a mut T5, &'a mut T6, &'a mut T7, &'a mut T8, &'a mut T9, &'a mut T10, &'a mut T11)>
    for (T0, T1, T2, T3, T4, T5, T6, T7, T8, T9, T10, T11)
{
    open spec fn spec_borrows(&self, parts: ((&'a mut T0, &'a mut T1, &'a mut T2, &'a mut T3),
        (&'a mut T4, &'a mut T5, &'a mut T6, &'a mut T7, &'a mut T8, &'a mut T9, &'a mut T10,
        &'a mut T11))) -> bool {
        &&& *parts.0.0 == self.0
        &&& *parts.0.1 == self.1
        &&& *parts.0.2 == self.2
        &&& *parts.0.3 == self.3
        &&& *parts.1.0 == self.4
        &&& *parts.1.1 == self.5
        &&& *parts.1.2 == self.6
        &&& *parts.1.3 == self.7
        &&& *parts.1.4 == self.8
        &&& *parts.1.5 == self.9
        &&& *parts.1.6 == self.10
        &&& *parts.1.7 == self.11
    }

    fn split_mut(&'a mut self) -> (r: ((&'a mut T0, &'a mut T1, &'a mut T2, &'a mut T3),
        (&'a mut T4, &'a mut T5, &'a mut T6, &'a mut T7, &'a mut T8, &'a mut T9, &'a mut T10,
        &'a mut T11)))
        ensures
            ({
                let parts: ((&'a mut T0, &'a mut T1, &'a mut T2, &'a mut T3), (&'a mut T4,
                    &'a mut T5, &'a mut T6, &'a mut T7, &'a mut T8, &'a mut T9, &'a mut T10,
                    &'a mut T11)) = r;
                *final(self) == (*final(parts.0.0), *final(parts.0.1), *final(parts.0.2),
                    *final(parts.0.3), *final(parts.1.0), *final(parts.1.1), *final(parts.1.2),
                    *final(parts.1.3), *final(parts.1.4), *final(parts.1.5), *final(parts.1.6),
                    *final(parts.1.7))
            }),
    {
        ((&mut self.0, &mut self.1, &mut self.2, &mut self.3), (&mut self.4, &mut self.5,
            &mut self.6, &mut self.7, &mut self.8, &mut self.9, &mut self.10, &mut self.11))
    }

    proof fn lemma_split_mut_len() {
    }
}

impl<'a, T0: 'a, T1: 'a, T2: 'a, T3: 'a, T4: 'a, T5: 'a, T6: 'a, T7: 'a, T8: 'a, T9: 'a, T10: 'a,
    T11: 'a> TypedSplitMut<'a, 5, (&'a mut T0, &'a mut T1, &'a mut T2, &'a mut T3, &'a mut T4),
    (&'a mut T5, &'a mut T6, &'a mut T7, &'a mut T8, &'a mut T9, &'a mut T10, &'a mut T11)>
    for (T0, T1, T2, T3, T4, T5, T6, T7, T8, T9, T10, T11)
{
    open spec fn spec_borrows(&self, parts: ((&'a mut T0, &'a mut T1, &'a mut T2, &'a mut T3,
        &'a mut T4), (&'a mut T5, &'a mut T6, &'a mut T7, &'a mut T8, &'a mut T9, &'a mut T10,
        &'a mut T11))) -> bool {
        &&& *parts.0.0 == self.0
        &&& *parts.0.1 == self.1
        &&& *parts.0.2 == self.2
        &&& *parts.0.3 == self.3
        &&& *parts.0.4 == self.4
        &&& *parts.1.0 == self.5
        &&& *parts.1.1 == self.6
        &&& *parts.1.2 == self.7
        &&& *parts.1.3 == self.8
        &&& *parts.1.4 == self.9
        &&& *parts.1.5 == self.10
        &&& *parts.1.6 == self.11
    }

    fn split_mut(&'a mut self) -> (r: ((&'a mut T0, &'a mut T1, &'a mut T2, &'a mut T3, &'a mut T4),
        (&'a mut T5, &'a mut T6, &'a mut T7, &'a mut T8, &'a mut T9, &'a mut T10, &'a mut T11)))
        ensures
            ({
                let parts: ((&'a mut T0, &'a mut T1, &'a mut T2, &'a mut T3, &'a mut T4),
                    (&'a mut T5, &'a mut T6, &'a mut T7, &'a mut T8, &'a mut T9, &'a mut T10,
                    &'a mut T11)) = r;
                *final(self) == (*final(parts.0.0), *final(parts.0.1), *final(parts.0.2),
                    *final(parts.0.3), *final(parts.0.4), *final(parts.1.0), *final(parts.1.1),
                    *final(parts.1.2), *final(parts.1.3), *final(parts.1.4), *final(parts.1.5),
                    *final(parts.1.6))
            }),
    {
        ((&mut self.0, &mut self.1, &mut self.2, &mut self.3, &mut self.4), (&mut self.5,
            &mut self.6, &mut self.7, &mut self.8, &mut self.9, &mut self.10, &mut self.11))
    }

    proof fn lemma_split_mut_len() {
    }
}

impl<'a, T0: 'a, T1: 'a, T2: 'a, T3: 'a, T4: 'a, T5: 'a, T6: 'a, T7: 'a, T8: 'a, T9: 'a, T10: 'a,
    T11: 'a> TypedSplitMut<'a, 6, (&'a mut T0, &'a mut T1, &'a mut T2, &'a mut T3, &'a mut T4,
    &'a mut T5), (&'a mut T6, &'a mut T7, &'a mut T8, &'a mut T9, &'a mut T10, &'a mut T11)>
    for (T0, T1, T2, T3, T4, T5, T6, T7, T8, T9, T10, T11)
{
    open spec fn spec_borrows(&self, parts: ((&'a mut T0, &'a mut T1, &'a mut T2, &'a mut T3,
        &'a mut T4, &'a mut T5), (&'a mut T6, &'a mut T7, &'a mut T8, &'a mut T9, &'a mut T10,
        &'a mut T11))) -> bool {
        &&& *parts.0.0 == self.0
        &&& *parts.0.1 == self.1
        &&& *parts.0.2 == self.2
        &&& *parts.0.3 == self.3
        &&& *parts.0.4 == self.4
        &&& *parts.0.5 == self.5
        &&& *parts.1.0 == self.6
        &&& *parts.1.1 == self.7
        &&& *parts.1.2 == self.8
        &&& *parts.1.3 == self.9
        &&& *parts.1.4 == self.10
        &&& *parts.1.5 == self.11
    }

    fn split_mut(&'a mut self) -> (r: ((&'a mut T0, &'a mut T1, &'a mut T2, &'a mut T3, &'a mut T4,
        &'a mut T5), (&'a mut T6, &'a mut T7, &'a mut T8, &'a mut T9, &'a mut T10, &'a mut T11)))
        ensures
            ({
                let parts: ((&'a mut T0, &'a mut T1, &'a mut T2, &'a mut T3, &'a mut T4,
                    &'a mut T5), (&'a mut T6, &'a mut T7, &'a mut T8, &'a mut T9, &'a mut T10,
                    &'a mut T11)) = r;
                *final(self) == (*final(parts.0.0), *final(parts.0.1), *final(parts.0.2),
                    *final(parts.0.3), *final(parts.0.4), *final(parts.0.5), *final(parts.1.0),
                    *final(parts.1.1), *final(parts.1.2), *final(parts.1.3), *final(parts.1.4),
                    *final(parts.1.5))
            }),
    {
        ((&mut self.0, &mut self.1, &mut self.2, &mut self.3, &mut self.4, &mut self.5),
            (&mut self.6, &mut self.7, &mut self.8, &mut self.9, &mut self.10, &mut self.11))
    }

    proof fn lemma_split_mut_len() {
    }
}

impl<'a, T0: 'a, T1: 'a, T2: 'a, T3: 'a, T4: 'a, T5: 'a, T6: 'a, T7: 'a, T8: 'a, T9: 'a, T10: 'a,
    T11: 'a> TypedSplitMut<'a, 7, (&'a mut T0, &'a mut T1, &'a mut T2, &'a mut T3, &'a mut T4,
    &'a mut T5, &'a mut T6), (&'a mut T7, &'a mut T8, &'a mut T9, &'a mut T10, &'a mut T11)>
    for (T0, T1, T2, T3, T4, T5, T6, T7, T8, T9, T10, T11)
{
    open spec fn spec_borrows(&self, parts: ((&'a mut T0, &'a mut T1, &'a mut T2, &'a mut T3,
        &'a mut T4, &'a mut T5, &'a mut T6), (&'a mut T7, &'a mut T8, &'a mut T9, &'a mut T10,
        &'a mut T11))) -> bool {
        &&& *parts.0.0 == self.0
        &&& *parts.0.1 == self.1
        &&& *parts.0.2 == self.2
        &&& *parts.0.3 == self.3
        &&& *parts.0.4 == self.4
        &&& *parts.0.5 == self.5
        &&& *parts.0.6 == self.6
        &&& *parts.1.0 == self.7
        &&& *parts.1.1 == self.8
        &&& *parts.1.2 == self.9
        &&& *parts.1.3 == self.10
        &&& *parts.1.4 == self.11
    }

    fn split_mut(&'a mut self) -> (r: ((&'a mut T0, &'a mut T1, &'a mut T2, &'a mut T3, &'a mut T4,
        &'a mut T5, &'a mut T6), (&'a mut T7, &'a mut T8, &'a mut T9, &'a mut T10, &'a mut T11)))
        ensures
            ({
                let parts: ((&'a mut T0, &'a mut T1, &'a mut T2, &'a mut T3, &'a mut T4, &'a mut T5,
                    &'a mut T6), (&'a mut T7, &'a mut T8, &'a mut T9, &'a mut T10,
                    &'a mut T11)) = r;
                *final(self) == (*final(parts.0.0), *final(parts.0.1), *final(parts.0.2),
                    *final(parts.0.3), *final(parts.0.4), *final(parts.0.5), *final(parts.0.6),
                    *final(parts.1.0), *final(parts.1.1), *final(parts.1.2), *final(parts.1.3),
                    *final(parts.1.4))
            }),
    {
        ((&mut self.0, &mut self.1, &mut self.2, &mut self.3, &mut self.4, &mut self.5,
            &mut self.6), (&mut self.7, &mut self.8, &mut self.9, &mut self.10, &mut self.11))
    }

    proof fn lemma_split_mut_len() {
    }
}

impl<'a, T0: 'a, T1: 'a, T2: 'a, T3: 'a, T4: 'a, T5: 'a, T6: 'a, T7: 'a, T8: 'a, T9: 'a, T10: 'a,
    T11: 'a> TypedSplitMut<'a, 8, (&'a mut T0, &'a mut T1, &'a mut T2, &'a mut T3, &'a mut T4,
    &'a mut T5, &'a mut T6, &'a mut T7), (&'a mut T8, &'a mut T9, &'a mut T10, &'a mut T11)>
    for (T0, T1, T2, T3, T4, T5, T6, T7, T8, T9, T10, T11)
{
    open spec fn spec_borrows(&self, parts: ((&'a mut T0, &'a mut T1, &'a mut T2, &'a mut T3,
        &'a mut T4, &'a mut T5, &'a mut T6, &'a mut T7), (&'a mut T8, &'a mut T9, &'a mut T10,
        &'a mut T11))) -> bool {
        &&& *parts.0.0 == self.0
        &&& *parts.0.1 == self.1
        &&& *parts.0.2 == self.2
        &&& *parts.0.3 == self.3
        &&& *parts.0.4 == self.4
        &&& *parts.0.5 == self.5
        &&& *parts.0.6 == self.6
        &&& *parts.0.7 == self.7
        &&& *parts.1.0 == self.8
        &&& *parts.1.1 == self.9
        &&& *parts.1.2 == self.10
        &&& *parts.1.3 == self.11
    }

    fn split_mut(&'a mut self) -> (r: ((&'a mut T0, &'a mut T1, &'a mut T2, &'a mut T3, &'a mut T4,
        &'a mut T5, &'a mut T6, &'a mut T7), (&'a mut T8, &'a mut T9, &'a mut T10, &'a mut T11)))
        ensures
            ({
                let parts: ((&'a mut T0, &'a mut T1, &'a mut T2, &'a mut T3, &'a mut T4, &'a mut T5,
                    &'a mut T6, &'a mut T7), (&'a mut T8, &'a mut T9, &'a mut T10,
                    &'a mut T11)) = r;
                *final(self) == (*final(parts.0.0), *final(parts.0.1), *final(parts.0.2),
                    *final(parts.0.3), *final(parts.0.4), *final(parts.0.5), *final(parts.0.6),
                    *final(parts.0.7), *final(parts.1.0), *final(parts.1.1), *final(parts.1.2),
                    *final(parts.1.3))
            }),
    {
        ((&mut self.0, &mut self.1, &mut self.2, &mut self.3, &mut self.4, &mut self.5, &mut self.6,
            &mut self.7), (&mut self.8, &mut self.9, &mut self.10, &mut self.11))
    }

    proof fn lemma_split_mut_len() {
    }
}

impl<'a, T0: 'a, T1: 'a, T2: 'a, T3: 'a, T4: 'a, T5: 'a, T6: 'a, T7: 'a, T8: 'a, T9: 'a, T10: 'a,
    T11: 'a> TypedSplitMut<'a, 9, (&'a mut T0, &'a mut T1, &'a mut T2, &'a mut T3, &'a mut T4,
    &'a mut T5, &'a mut T6, &'a mut T7, &'a mut T8), (&'a mut T9, &'a mut T10, &'a mut T11)>
    for (T0, T1, T2, T3, T4, T5, T6, T7, T8, T9, T10, T11)
{
    open spec fn spec_borrows(&self, parts: ((&'a mut T0, &'a mut T1, &'a mut T2, &'a mut T3,
        &'a mut T4, &'a mut T5, &'a mut T6, &'a mut T7, &'a mut T8), (&'a mut T9, &'a mut T10,
        &'a mut T11))) -> bool {
        &&& *parts.0.0 == self.0
        &&& *parts.0.1 == self.1
        &&& *parts.0.2 == self.2
        &&& *parts.0.3 == self.3
        &&& *parts.0.4 == self.4
        &&& *parts.0.5 == self.5
        &&& *parts.0.6 == self.6
        &&& *parts.0.7 == self.7
        &&& *parts.0.8 == self.8
        &&& *parts.1.0 == self.9
        &&& *parts.1.1 == self.10
        &&& *parts.1.2 == self.11
    }

    fn split_mut(&'a mut self) -> (r: ((&'a mut T0, &'a mut T1, &'a mut T2, &'a mut T3, &'a mut T4,
        &'a mut T5, &'a mut T6, &'a mut T7, &'a mut T8), (&'a mut T9, &'a mut T10, &'a mut T11)))
        ensures
            ({
                let parts: ((&'a mut T0, &'a mut T1, &'a mut T2, &'a mut T3, &'a mut T4, &'a mut T5,
                    &'a mut T6, &'a mut T7, &'a mut T8), (&'a mut T9, &'a mut T10,
                    &'a mut T11)) = r;
                *final(self) == (*final(parts.0.0), *final(parts.0.1), *final(parts.0.2),
                    *final(parts.0.3), *final(parts.0.4), *final(parts.0.5), *final(parts.0.6),
                    *final(parts.0.7), *final(parts.0.8), *final(parts.1.0), *final(parts.1.1),
                    *final(parts.1.2))
            }),
    {
        ((&mut self.0, &mut self.1, &mut self.2, &mut self.3, &mut self.4, &mut self.5, &mut self.6,
            &mut self.7, &mut self.8), (&mut self.9, &mut self.10, &mut self.11))
    }

    proof fn lemma_split_mut_len() {
    }
}

impl<'a, T0: 'a, T1: 'a, T2: 'a, T3: 'a, T4: 'a, T5: 'a, T6: 'a, T7: 'a, T8: 'a, T9: 'a, T10: 'a,
    T11: 'a> TypedSplitMut<'a, 10, (&'a mut T0, &'a mut T1, &'a mut T2, &'a mut T3, &'a mut T4,
    &'a mut T5, &'a mut T6, &'a mut T7, &'a mut T8, &'a mut T9), (&'a mut T10, &'a mut T11)>
    for (T0, T1, T2, T3, T4, T5, T6, T7, T8, T9, T10, T11)
{
    open spec fn spec_borrows(&self, parts: ((&'a mut T0, &'a mut T1, &'a mut T2, &'a mut T3,
        &'a mut T4, &'a mut T5, &'a mut T6, &'a mut T7, &'a mut T8, &'a mut T9), (&'a mut T10,
        &'a mut T11))) -> bool {
        &&& *parts.0.0 == self.0
        &&& *parts.0.1 == self.1
        &&& *parts.0.2 == self.2
        &&& *parts.0.3 == self.3
        &&& *parts.0.4 == self.4
        &&& *parts.0.5 == self.5
        &&& *parts.0.6 == self.6
        &&& *parts.0.7 == self.7
        &&& *parts.0.8 == self.8
        &&& *parts.0.9 == self.9
        &&& *parts.1.0 == self.10
        &&& *parts.1.1 == self.11
    }

    fn split_mut(&'a mut self) -> (r: ((&'a mut T0, &'a mut T1, &'a mut T2, &'a mut T3, &'a mut T4,
        &'a mut T5, &'a mut T6, &'a mut T7, &'a mut T8, &'a mut T9), (&'a mut T10, &'a mut T11)))
        ensures
            ({
                let parts: ((&'a mut T0, &'a mut T1, &'a mut T2, &'a mut T3, &'a mut T4, &'a mut T5,
                    &'a mut T6, &'a mut T7, &'a mut T8, &'a mut T9), (&'a mut T10,
                    &'a mut T11)) = r;
                *final(self) == (*final(parts.0.0), *final(parts.0.1), *final(parts.0.2),
                    *final(parts.0.3), *final(parts.0.4), *final(parts.0.5), *final(parts.0.6),
                    *final(parts.0.7), *final(parts.0.8), *final(parts.0.9), *final(parts.1.0),
                    *final(parts.1.1))
            }),
    {
        ((&mut self.0, &mut self.1, &mut self.2, &mut self.3, &mut self.4, &mut self.5, &mut self.6,
            &mut self.7, &mut self.8, &mut self.9), (&mut self.10, &mut self.11))
    }

    proof fn lemma_split_mut_len() {
    }
}

impl<'a, T0: 'a, T1: 'a, T2: 'a, T3: 'a, T4: 'a, T5: 'a, T6: 'a, T7: 'a, T8: 'a, T9: 'a, T10: 'a,
    T11: 'a> TypedSplitMut<'a, 11, (&'a mut T0, &'a mut T1, &'a mut T2, &'a mut T3, &'a mut T4,
    &'a mut T5, &'a mut T6, &'a mut T7, &'a mut T8, &'a mut T9, &'a mut T10), (&'a mut T11,)>
    for (T0, T1, T2, T3, T4, T5, T6, T7, T8, T9, T10, T11)
{
    open spec fn spec_borrows(&self, parts: ((&'a mut T0, &'a mut T1, &'a mut T2, &'a mut T3,
        &'a mut T4, &'a mut T5, &'a mut T6, &'a mut T7, &'a mut T8, &'a mut T9, &'a mut T10),
        (&'a mut T11,))) -> bool {
        &&& *parts.0.0 == self.0
        &&& *parts.0.1 == self.1
        &&& *parts.0.2 == self.2
        &&& *parts.0.3 == self.3
        &&& *parts.0.4 == self.4
        &&& *parts.0.5 == self.5
        &&& *parts.0.6 == self.6
        &&& *parts.0.7 == self.7
        &&& *parts.0.8 == self.8
        &&& *parts.0.9 == self.9
        &&& *parts.0.10 == self.10
        &&& *parts.1.0 == self.11
    }

    fn split_mut(&'a mut self) -> (r: ((&'a mut T0, &'a mut T1, &'a mut T2, &'a mut T3, &'a mut T4,
        &'a mut T5, &'a mut T6, &'a mut T7, &'a mut T8, &'a mut T9, &'a mut T10), (&'a mut T11,)))
        ensures
            ({
                let parts: ((&'a mut T0, &'a mut T1, &'a mut T2, &'a mut T3, &'a mut T4, &'a mut T5,
                    &'a mut T6, &'a mut T7, &'a mut T8, &'a mut T9, &'a mut T10),
                    (&'a mut T11,)) = r;
                *final(self) == (*final(parts.0.0), *final(parts.0.1), *final(parts.0.2),
                    *final(parts.0.3), *final(parts.0.4), *final(parts.0.5), *final(parts.0.6),
                    *final(parts.0.7), *final(parts.0.8), *final(parts.0.9), *final(parts.0.10),
                    *final(parts.1.0))
            }),
    {
        ((&mut self.0, &mut self.1, &mut self.2, &mut self.3, &mut self.4, &mut self.5, &mut self.6,
            &mut self.7, &mut self.8, &mut self.9, &mut self.10), (&mut self.11,))
    }

    proof fn lemma_split_mut_len() {
    }
}

impl<'a, T0: 'a, T1: 'a, T2: 'a, T3: 'a, T4: 'a, T5: 'a, T6: 'a, T7: 'a, T8: 'a, T9: 'a, T10: 'a,
    T11: 'a> TypedSplitMut<'a, 12, (&'a mut T0, &'a mut T1, &'a mut T2, &'a mut T3, &'a mut T4,
    &'a mut T5, &'a mut T6, &'a mut T7, &'a mut T8, &'a mut T9, &'a mut T10, &'a mut T11), ()>
    for (T0, T1, T2, T3, T4, T5, T6, T7, T8, T9, T10, T11)
{
    open spec fn spec_borrows(&self, parts: ((&'a mut T0, &'a mut T1, &'a mut T2, &'a mut T3,
        &'a mut T4, &'a mut T5, &'a mut T6, &'a mut T7, &'a mut T8, &'a mut T9, &'a mut T10,
        &'a mut T11), ())) -> bool {
        &&& *parts.0.0 == self.0
        &&& *parts.0.1 == self.1
        &&& *parts.0.2 == self.2
        &&& *parts.0.3 == self.3
        &&& *parts.0.4 == self.4
        &&& *parts.0.5 == self.5
        &&& *parts.0.6 == self.6
        &&& *parts.0.7 == self.7
        &&& *parts.0.8 == self.8
        &&& *parts.0.9 == self.9
        &&& *parts.0.10 == self.10
        &&& *parts.0.11 == self.11
    }

    fn split_mut(&'a mut self) -> (r: ((&'a mut T0, &'a mut T1, &'a mut T2, &'a mut T3, &'a mut T4,
        &'a mut T5, &'a mut T6, &'a mut T7, &'a mut T8, &'a mut T9, &'a mut T10, &'a mut T11), ()))
        ensures
            ({
                let parts: ((&'a mut T0, &'a mut T1, &'a mut T2, &'a mut T3, &'a mut T4, &'a mut T5,
                    &'a mut T6, &'a mut T7, &'a mut T8, &'a mut T9, &'a mut T10, &'a mut T11),
                    ()) = r;
                *final(self) == (*final(parts.0.0), *final(parts.0.1), *final(parts.0.2),
                    *final(parts.0.3), *final(parts.0.4), *final(parts.0.5), *final(parts.0.6),
                    *final(parts.0.7), *final(parts.0.8), *final(parts.0.9), *final(parts.0.10),
                    *final(parts.0.11))
            }),
    {
        ((&mut self.0, &mut self.1, &mut self.2, &mut self.3, &mut self.4, &mut self.5, &mut self.6,
            &mut self.7, &mut self.8, &mut self.9, &mut self.10, &mut self.11), ())
    }

    proof fn lemma_split_mut_len() {
    }
}

} // verus!
