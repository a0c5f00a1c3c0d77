//! Extraction of a range of positions given as numbers.

use vstd::prelude::*;
use crate::generator::ExtractImpl;
use crate::tuple_len::{TupleLen, MAX_LENGTH};
use crate::typed_ref::TypedRef;

verus! {

/// Extracts from a sequence the elements at the positions from `INDEX_START`
/// up to, and not including, `INDEX_END`, in their order.
///
/// The range may be empty, and it may be the whole sequence. Where the type
/// of the result is given and fits at one place only, the bounds follow from
/// it and need not be written; where it fits at several places, they must be.
///
/// A sequence gives its elements by value. A shared reference to a sequence
/// gives the references to the elements. By exclusive reference the elements
/// are borrowed with [`TypedExtractMut`].
pub trait TypedExtract<const INDEX_START: usize, const INDEX_END: usize, T: TupleLen>: Sized {
    /// The elements of the range, in order.
    spec fn spec_extract(self) -> T;

    /// The length of the sequence that the elements are taken from.
    spec fn spec_source_len() -> nat;

    /// Extract sequentual elements inferred by a type pattern and/or indices.
    fn extract(self) -> (r: T)
        ensures
            r == self.spec_extract(),
    ;

    /// The range starts inside the sequence and ends inside it or at its
    /// length, not before it starts, and the result has one element for each
    /// position of the range.
    proof fn lemma_extract_len()
        ensures
            INDEX_START < Self::spec_source_len(),
            INDEX_START <= INDEX_END <= Self::spec_source_len(),
            Self::spec_source_len() <= MAX_LENGTH,
            T::spec_len() == INDEX_END - INDEX_START,
    ;
}

/// An extraction that is implemented is a row of the extraction family, and
/// its result has one element for each position that the row gives it.
pub proof fn lemma_extract_matches_row<const INDEX_START: usize, const INDEX_END: usize, S,
    T>() where
    S: TypedExtract<INDEX_START, INDEX_END, T>,
    T: TupleLen,

    ensures
        ({
            let row = ExtractImpl {
                len: S::spec_source_len() as usize,
                start: INDEX_START,
                end: INDEX_END,
            };
            &&& row.wf()
            &&& row.len == S::spec_source_len()
            &&& T::spec_len() == row.spec_fields().len()
        }),
{
    S::lemma_extract_len();
}

impl<'a, const INDEX_START: usize, const INDEX_END: usize, T, TT> TypedExtract<
    INDEX_START,
    INDEX_END,
    T,
> for &'a TT where
    T: TupleLen,
    TT: TypedRef<'a>,
    <TT as TypedRef<'a>>::Output: TypedExtract<INDEX_START, INDEX_END, T>,
 {
    open spec fn spec_extract(self) -> T {
        self.spec_into_ref().spec_extract()
    }

    open spec fn spec_source_len() -> nat {
        <<TT as TypedRef<'a>>::Output as TypedExtract<
            INDEX_START,
            INDEX_END,
            T,
        >>::spec_source_len()
    }

    fn extract(self) -> (r: T) {
        self.into_ref().extract()
    }

    proof fn lemma_extract_len() {
        <<TT as TypedRef<'a>>::Output as TypedExtract<
            INDEX_START,
            INDEX_END,
            T,
        >>::lemma_extract_len();
    }
}

impl<T0> TypedExtract<0, 0, ()> for (T0,) {
    open spec fn spec_extract(self) -> () {
        ()
    }

    open spec fn spec_source_len() -> nat {
        1
    }

    fn extract(self) -> (r: ()) {
        ()
    }

    proof fn lemma_extract_len() {
    }
}

impl<T0> TypedExtract<0, 1, (T0,)> for (T0,) {
    open spec fn spec_extract(self) -> (T0,) {
        (self.0,)
    }

    open spec fn spec_source_len() -> nat {
        1
    }

    fn extract(self) -> (r: (T0,)) {
        (self.0,)
    }

    proof fn lemma_extract_len() {
    }
}

impl<T0, T1> TypedExtract<0, 0, ()> for (T0, T1) {
    open spec fn spec_extract(self) -> () {
        ()
    }

    open spec fn spec_source_len() -> nat {
        2
    }

    fn extract(self) -> (r: ()) {
        ()
    }

    proof fn lemma_extract_len() {
    }
}

impl<T0, T1> TypedExtract<0, 1, (T0,)> for (T0, T1) {
    open spec fn spec_extract(self) -> (T0,) {
        (self.0,)
    }

    open spec fn spec_source_len() -> nat {
        2
    }

    fn extract(self) -> (r: (T0,)) {
        (self.0,)
    }

    proof fn lemma_extract_len() {
    }
}

impl<T0, T1> TypedExtract<0, 2, (T0, T1)> for (T0, T1) {
    open spec fn spec_extract(self) -> (T0, T1) {
        (self.0, self.1)
    }

    open spec fn spec_source_len() -> nat {
        2
    }

    fn extract(self) -> (r: (T0, T1)) {
        (self.0, self.1)
    }

    proof fn lemma_extract_len() {
    }
}

impl<T0, T1> TypedExtract<1, 1, ()> for (T0, T1) {
    open spec fn spec_extract(self) -> () {
        ()
    }

    open spec fn spec_source_len() -> nat {
        2
    }

    fn extract(self) -> (r: ()) {
        ()
    }

    proof fn lemma_extract_len() {
    }
}

impl<T0, T1> TypedExtract<1, 2, (T1,)> for (T0, T1) {
    open spec fn spec_extract(self) -> (T1,) {
        (self.1,)
    }

    open spec fn spec_source_len() -> nat {
        2
    }

    fn extract(self) -> (r: (T1,)) {
        (self.1,)
    }

    proof fn lemma_extract_len() {
    }
}

impl<T0, T1, T2> TypedExtract<0, 0, ()> for (T0, T1, T2) {
    open spec fn spec_extract(self) -> () {
        ()
    }

    open spec fn spec_source_len() -> nat {
        3
    }

    fn extract(self) -> (r: ()) {
        ()
    }

    proof fn lemma_extract_len() {
    }
}

impl<T0, T1, T2> TypedExtract<0, 1, (T0,)> for (T0, T1, T2) {
    open spec fn spec_extract(self) -> (T0,) {
        (self.0,)
    }

    open spec fn spec_source_len() -> nat {
        3
    }

    fn extract(self) -> (r: (T0,)) {
        (self.0,)
    }

    proof fn lemma_extract_len() {
    }
}

impl<T0, T1, T2> TypedExtract<0, 2, (T0, T1)> for (T0, T1, T2) {
    open spec fn spec_extract(self) -> (T0, T1) {
        (self.0, self.1)
    }

    open spec fn spec_source_len() -> nat {
        3
    }

    fn extract(self) -> (r: (T0, T1)) {
        (self.0, self.1)
    }

    proof fn lemma_extract_len() {
    }
}

impl<T0, T1, T2> TypedExtract<0, 3, (T0, T1, T2)> for (T0, T1, T2) {
    open spec fn spec_extract(self) -> (T0, T1, T2) {
        (self.0, self.1, self.2)
    }

    open spec fn spec_source_len() -> nat {
        3
    }

    fn extract(self) -> (r: (T0, T1, T2)) {
        (self.0, self.1, self.2)
    }

    proof fn lemma_extract_len() {
    }
}

impl<T0, T1, T2> TypedExtract<1, 1, ()> for (T0, T1, T2) {
    open spec fn spec_extract(self) -> () {
        ()
    }

    open spec fn spec_source_len() -> nat {
        3
    }

    fn extract(self) -> (r: ()) {
        ()
    }

    proof fn lemma_extract_len() {
    }
}

impl<T0, T1, T2> TypedExtract<1, 2, (T1,)> for (T0, T1, T2) {
    open spec fn spec_extract(self) -> (T1,) {
        (self.1,)
    }

    open spec fn spec_source_len() -> nat {
        3
    }

    fn extract(self) -> (r: (T1,)) {
        (self.1,)
    }

    proof fn lemma_extract_len() {
    }
}

impl<T0, T1, T2> TypedExtract<1, 3, (T1, T2)> for (T0, T1, T2) {
    open spec fn spec_extract(self) -> (T1, T2) {
        (self.1, self.2)
    }

    open spec fn spec_source_len() -> nat {
        3
    }

    fn extract(self) -> (r: (T1, T2)) {
        (self.1, self.2)
    }

    proof fn lemma_extract_len() {
    }
}

impl<T0, T1, T2> TypedExtract<2, 2, ()> for (T0, T1, T2) {
    open spec fn spec_extract(self) -> () {
        ()
    }

    open spec fn spec_source_len() -> nat {
        3
    }

    fn extract(self) -> (r: ()) {
        ()
    }

    proof fn lemma_extract_len() {
    }
}

impl<T0, T1, T2> TypedExtract<2, 3, (T2,)> for (T0, T1, T2) {
    open spec fn spec_extract(self) -> (T2,) {
        (self.2,)
    }

    open spec fn spec_source_len() -> nat {
        3
    }

    fn extract(self) -> (r: (T2,)) {
        (self.2,)
    }

    proof fn lemma_extract_len() {
    }
}

impl<T0, T1, T2, T3> TypedExtract<0, 0, ()> for (T0, T1, T2, T3) {
    open spec fn spec_extract(self) -> () {
        ()
    }

    open spec fn spec_source_len() -> nat {
        4
    }

    fn extract(self) -> (r: ()) {
        ()
    }

    proof fn lemma_extract_len() {
    }
}

impl<T0, T1, T2, T3> TypedExtract<0, 1, (T0,)> for (T0, T1, T2, T3) {
    open spec fn spec_extract(self) -> (T0,) {
        (self.0,)
    }

    open spec fn spec_source_len() -> nat {
        4
    }

    fn extract(self) -> (r: (T0,)) {
        (self.0,)
    }

    proof fn lemma_extract_len() {
    }
}

impl<T0, T1, T2, T3> TypedExtract<0, 2, (T0, T1)> for (T0, T1, T2, T3) {
    open spec fn spec_extract(self) -> (T0, T1) {
        (self.0, self.1)
    }

    open spec fn spec_source_len() -> nat {
        4
    }

    fn extract(self) -> (r: (T0, T1)) {
        (self.0, self.1)
    }

    proof fn lemma_extract_len() {
    }
}

impl<T0, T1, T2, T3> TypedExtract<0, 3, (T0, T1, T2)> for (T0, T1, T2, T3) {
    open spec fn spec_extract(self) -> (T0, T1, T2) {
        (self.0, self.1, self.2)
    }

    open spec fn spec_source_len() -> nat {
        4
    }

    fn extract(self) -> (r: (T0, T1, T2)) {
        (self.0, self.1, self.2)
    }

    proof fn lemma_extract_len() {
    }
}

impl<T0, T1, T2, T3> TypedExtract<0, 4, (T0, T1, T2, T3)> for (T0, T1, T2, T3) {
    open spec fn spec_extract(self) -> (T0, T1, T2, T3) {
        (self.0, self.1, self.2, self.3)
    }

    open spec fn spec_source_len() -> nat {
        4
    }

    fn extract(self) -> (r: (T0, T1, T2, T3)) {
        (self.0, self.1, self.2, self.3)
    }

    proof fn lemma_extract_len() {
    }
}

impl<T0, T1, T2, T3> TypedExtract<1, 1, ()> for (T0, T1, T2, T3) {
    open spec fn spec_extract(self) -> () {
        ()
    }

    open spec fn spec_source_len() -> nat {
        4
    }

    fn extract(self) -> (r: ()) {
        ()
    }

    proof fn lemma_extract_len() {
    }
}

impl<T0, T1, T2, T3> TypedExtract<1, 2, (T1,)> for (T0, T1, T2, T3) {
    open spec fn spec_extract(self) -> (T1,) {
        (self.1,)
    }

    open spec fn spec_source_len() -> nat {
        4
    }

    fn extract(self) -> (r: (T1,)) {
        (self.1,)
    }

    proof fn lemma_extract_len() {
    }
}

impl<T0, T1, T2, T3> TypedExtract<1, 3, (T1, T2)> for (T0, T1, T2, T3) {
    open spec fn spec_extract(self) -> (T1, T2) {
        (self.1, self.2)
    }

    open spec fn spec_source_len() -> nat {
        4
    }

    fn extract(self) -> (r: (T1, T2)) {
        (self.1, self.2)
    }

    proof fn lemma_extract_len() {
    }
}

impl<T0, T1, T2, T3> TypedExtract<1, 4, (T1, T2, T3)> for (T0, T1, T2, T3) {
    open spec fn spec_extract(self) -> (T1, T2, T3) {
        (self.1, self.2, self.3)
    }

    open spec fn spec_source_len() -> nat {
        4
    }

    fn extract(self) -> (r: (T1, T2, T3)) {
        (self.1, self.2, self.3)
    }

    proof fn lemma_extract_len() {
    }
}

impl<T0, T1, T2, T3> TypedExtract<2, 2, ()> for (T0, T1, T2, T3) {
    open spec fn spec_extract(self) -> () {
        ()
    }

    open spec fn spec_source_len() -> nat {
        4
    }

    fn extract(self) -> (r: ()) {
        ()
    }

    proof fn lemma_extract_len() {
    }
}

impl<T0, T1, T2, T3> TypedExtract<2, 3, (T2,)> for (T0, T1, T2, T3) {
    open spec fn spec_extract(self) -> (T2,) {
        (self.2,)
    }

    open spec fn spec_source_len() -> nat {
        4
    }

    fn extract(self) -> (r: (T2,)) {
        (self.2,)
    }

    proof fn lemma_extract_len() {
    }
}

impl<T0, T1, T2, T3> TypedExtract<2, 4, (T2, T3)> for (T0, T1, T2, T3) {
    open spec fn spec_extract(self) -> (T2, T3) {
        (self.2, self.3)
    }

    open spec fn spec_source_len() -> nat {
        4
    }

    fn extract(self) -> (r: (T2, T3)) {
        (self.2, self.3)
    }

    proof fn lemma_extract_len() {
    }
}

impl<T0, T1, T2, T3> TypedExtract<3, 3, ()> for (T0, T1, T2, T3) {
    open spec fn spec_extract(self) -> () {
        ()
    }

    open spec fn spec_source_len() -> nat {
        4
    }

    fn extract(self) -> (r: ()) {
        ()
    }

    proof fn lemma_extract_len() {
    }
}

impl<T0, T1, T2, T3> TypedExtract<3, 4, (T3,)> for (T0, T1, T2, T3) {
    open spec fn spec_extract(self) -> (T3,) {
        (self.3,)
    }

    open spec fn spec_source_len() -> nat {
        4
    }

    fn extract(self) -> (r: (T3,)) {
        (self.3,)
    }

    proof fn lemma_extract_len() {
    }
}

impl<T0, T1, T2, T3, T4> TypedExtract<0, 0, ()> for (T0, T1, T2, T3, T4) {
    open spec fn spec_extract(self) -> () {
        ()
    }

    open spec fn spec_source_len() -> nat {
        5
    }

    fn extract(self) -> (r: ()) {
        ()
    }

    proof fn lemma_extract_len() {
    }
}

impl<T0, T1, T2, T3, T4> TypedExtract<0, 1, (T0,)> for (T0, T1, T2, T3, T4) {
    open spec fn spec_extract(self) -> (T0,) {
        (self.0,)
    }

    open spec fn spec_source_len() -> nat {
        5
    }

    fn extract(self) -> (r: (T0,)) {
        (self.0,)
    }

    proof fn lemma_extract_len() {
    }
}

impl<T0, T1, T2, T3, T4> TypedExtract<0, 2, (T0, T1)> for (T0, T1, T2, T3, T4) {
    open spec fn spec_extract(self) -> (T0, T1) {
        (self.0, self.1)
    }

    open spec fn spec_source_len() -> nat {
        5
    }

    fn extract(self) -> (r: (T0, T1)) {
        (self.0, self.1)
    }

    proof fn lemma_extract_len() {
    }
}

impl<T0, T1, T2, T3, T4> TypedExtract<0, 3, (T0, T1, T2)> for (T0, T1, T2, T3, T4) {
    open spec fn spec_extract(self) -> (T0, T1, T2) {
        (self.0, self.1, self.2)
    }

    open spec fn spec_source_len() -> nat {
        5
    }

    fn extract(self) -> (r: (T0, T1, T2)) {
        (self.0, self.1, self.2)
    }

    proof fn lemma_extract_len() {
    }
}

impl<T0, T1, T2, T3, T4> TypedExtract<0, 4, (T0, T1, T2, T3)> for (T0, T1, T2, T3, T4) {
    open spec fn spec_extract(self) -> (T0, T1, T2, T3) {
        (self.0, self.1, self.2, self.3)
    }

    open spec fn spec_source_len() -> nat {
        5
    }

    fn extract(self) -> (r: (T0, T1, T2, T3)) {
        (self.0, self.1, self.2, self.3)
    }

    proof fn lemma_extract_len() {
    }
}

impl<T0, T1, T2, T3, T4> TypedExtract<0, 5, (T0, T1, T2, T3, T4)> for (T0, T1, T2, T3, T4) {
    open spec fn spec_extract(self) -> (T0, T1, T2, T3, T4) {
        (self.0, self.1, self.2, self.3, self.4)
    }

    open spec fn spec_source_len() -> nat {
        5
    }

    fn extract(self) -> (r: (T0, T1, T2, T3, T4)) {
        (self.0, self.1, self.2, self.3, self.4)
    }

    proof fn lemma_extract_len() {
    }
}

impl<T0, T1, T2, T3, T4> TypedExtract<1, 1, ()> for (T0, T1, T2, T3, T4) {
    open spec fn spec_extract(self) -> () {
        ()
    }

    open spec fn spec_source_len() -> nat {
        5
    }

    fn extract(self) -> (r: ()) {
        ()
    }

    proof fn lemma_extract_len() {
    }
}

impl<T0, T1, T2, T3, T4> TypedExtract<1, 2, (T1,)> for (T0, T1, T2, T3, T4) {
    open spec fn spec_extract(self) -> (T1,) {
        (self.1,)
    }

    open spec fn spec_source_len() -> nat {
        5
    }

    fn extract(self) -> (r: (T1,)) {
        (self.1,)
    }

    proof fn lemma_extract_len() {
    }
}

impl<T0, T1, T2, T3, T4> TypedExtract<1, 3, (T1, T2)> for (T0, T1, T2, T3, T4) {
    open spec fn spec_extract(self) -> (T1, T2) {
        (self.1, self.2)
    }

    open spec fn spec_source_len() -> nat {
        5
    }

    fn extract(self) -> (r: (T1, T2)) {
        (self.1, self.2)
    }

    proof fn lemma_extract_len() {
    }
}

impl<T0, T1, T2, T3, T4> TypedExtract<1, 4, (T1, T2, T3)> for (T0, T1, T2, T3, T4) {
    open spec fn spec_extract(self) -> (T1, T2, T3) {
        (self.1, self.2, self.3)
    }

    open spec fn spec_source_len() -> nat {
        5
    }

    fn extract(self) -> (r: (T1, T2, T3)) {
        (self.1, self.2, self.3)
    }

    proof fn lemma_extract_len() {
    }
}

impl<T0, T1, T2, T3, T4> TypedExtract<1, 5, (T1, T2, T3, T4)> for (T0, T1, T2, T3, T4) {
    open spec fn spec_extract(self) -> (T1, T2, T3, T4) {
        (self.1, self.2, self.3, self.4)
    }

    open spec fn spec_source_len() -> nat {
        5
    }

    fn extract(self) -> (r: (T1, T2, T3, T4)) {
        (self.1, self.2, self.3, self.4)
    }

    proof fn lemma_extract_len() {
    }
}

impl<T0, T1, T2, T3, T4> TypedExtract<2, 2, ()> for (T0, T1, T2, T3, T4) {
    open spec fn spec_extract(self) -> () {
        ()
    }

    open spec fn spec_source_len() -> nat {
        5
    }

    fn extract(self) -> (r: ()) {
        ()
    }

    proof fn lemma_extract_len() {
    }
}

impl<T0, T1, T2, T3, T4> TypedExtract<2, 3, (T2,)> for (T0, T1, T2, T3, T4) {
    open spec fn spec_extract(self) -> (T2,) {
        (self.2,)
    }

    open spec fn spec_source_len() -> nat {
        5
    }

    fn extract(self) -> (r: (T2,)) {
        (self.2,)
    }

    proof fn lemma_extract_len() {
    }
}

impl<T0, T1, T2, T3, T4> TypedExtract<2, 4, (T2, T3)> for (T0, T1, T2, T3, T4) {
    open spec fn spec_extract(self) -> (T2, T3) {
        (self.2, self.3)
    }

    open spec fn spec_source_len() -> nat {
        5
    }

    fn extract(self) -> (r: (T2, T3)) {
        (self.2, self.3)
    }

    proof fn lemma_extract_len() {
    }
}

impl<T0, T1, T2, T3, T4> TypedExtract<2, 5, (T2, T3, T4)> for (T0, T1, T2, T3, T4) {
    open spec fn spec_extract(self) -> (T2, T3, T4) {
        (self.2, self.3, self.4)
    }

    open spec fn spec_source_len() -> nat {
        5
    }

    fn extract(self) -> (r: (T2, T3, T4)) {
        (self.2, self.3, self.4)
    }

    proof fn lemma_extract_len() {
    }
}

impl<T0, T1, T2, T3, T4> TypedExtract<3, 3, ()> for (T0, T1, T2, T3, T4) {
    open spec fn spec_extract(self) -> () {
        ()
    }

    open spec fn spec_source_len() -> nat {
        5
    }

    fn extract(self) -> (r: ()) {
        ()
    }

    proof fn lemma_extract_len() {
    }
}

impl<T0, T1, T2, T3, T4> TypedExtract<3, 4, (T3,)> for (T0, T1, T2, T3, T4) {
    open spec fn spec_extract(self) -> (T3,) {
        (self.3,)
    }

    open spec fn spec_source_len() -> nat {
        5
    }

    fn extract(self) -> (r: (T3,)) {
        (self.3,)
    }

    proof fn lemma_extract_len() {
    }
}

impl<T0, T1, T2, T3, T4> TypedExtract<3, 5, (T3, T4)> for (T0, T1, T2, T3, T4) {
    open spec fn spec_extract(self) -> (T3, T4) {
        (self.3, self.4)
    }

    open spec fn spec_source_len() -> nat {
        5
    }

    fn extract(self) -> (r: (T3, T4)) {
        (self.3, self.4)
    }

    proof fn lemma_extract_len() {
    }
}

impl<T0, T1, T2, T3, T4> TypedExtract<4, 4, ()> for (T0, T1, T2, T3, T4) {
    open spec fn spec_extract(self) -> () {
        ()
    }

    open spec fn spec_source_len() -> nat {
        5
    }

    fn extract(self) -> (r: ()) {
        ()
    }

    proof fn lemma_extract_len() {
    }
}

impl<T0, T1, T2, T3, T4> TypedExtract<4, 5, (T4,)> for (T0, T1, T2, T3, T4) {
    open spec fn spec_extract(self) -> (T4,) {
        (self.4,)
    }

    open spec fn spec_source_len() -> nat {
        5
    }

    fn extract(self) -> (r: (T4,)) {
        (self.4,)
    }

    proof fn lemma_extract_len() {
    }
}

impl<T0, T1, T2, T3, T4, T5> TypedExtract<0, 0, ()> for (T0, T1, T2, T3, T4, T5) {
    open spec fn spec_extract(self) -> () {
        ()
    }

    open spec fn spec_source_len() -> nat {
        6
    }

    fn extract(self) -> (r: ()) {
        ()
    }

    proof fn lemma_extract_len() {
    }
}

impl<T0, T1, T2, T3, T4, T5> TypedExtract<0, 1, (T0,)> for (T0, T1, T2, T3, T4, T5) {
    open spec fn spec_extract(self) -> (T0,) {
        (self.0,)
    }

    open spec fn spec_source_len() -> nat {
        6
    }

    fn extract(self) -> (r: (T0,)) {
        (self.0,)
    }

    proof fn lemma_extract_len() {
    }
}

impl<T0, T1, T2, T3, T4, T5> TypedExtract<0, 2, (T0, T1)> for (T0, T1, T2, T3, T4, T5) {
    open spec fn spec_extract(self) -> (T0, T1) {
        (self.0, self.1)
    }

    open spec fn spec_source_len() -> nat {
        6
    }

    fn extract(self) -> (r: (T0, T1)) {
        (self.0, self.1)
    }

    proof fn lemma_extract_len() {
    }
}

impl<T0, T1, T2, T3, T4, T5> TypedExtract<0, 3, (T0, T1, T2)> for (T0, T1, T2, T3, T4, T5) {
    open spec fn spec_extract(self) -> (T0, T1, T2) {
        (self.0, self.1, self.2)
    }

    open spec fn spec_source_len() -> nat {
        6
    }

    fn extract(self) -> (r: (T0, T1, T2)) {
        (self.0, self.1, self.2)
    }

    proof fn lemma_extract_len() {
    }
}

impl<T0, T1, T2, T3, T4, T5> TypedExtract<0, 4, (T0, T1, T2, T3)> for (T0, T1, T2, T3, T4, T5) {
    open spec fn spec_extract(self) -> (T0, T1, T2, T3) {
        (self.0, self.1, self.2, self.3)
    }

    open spec fn spec_source_len() -> nat {
        6
    }

    fn extract(self) -> (r: (T0, T1, T2, T3)) {
        (self.0, self.1, self.2, self.3)
    }

    proof fn lemma_extract_len() {
    }
}

impl<T0, T1, T2, T3, T4, T5> TypedExtract<0, 5, (T0, T1, T2, T3, T4)> for (T0, T1, T2, T3, T4, T5) {
    open spec fn spec_extract(self) -> (T0, T1, T2, T3, T4) {
        (self.0, self.1, self.2, self.3, self.4)
    }

    open spec fn spec_source_len() -> nat {
        6
    }

    fn extract(self) -> (r: (T0, T1, T2, T3, T4)) {
        (self.0, self.1, self.2, self.3, self.4)
    }

    proof fn lemma_extract_len() {
    }
}

impl<T0, T1, T2, T3, T4, T5> TypedExtract<0, 6, (T0, T1, T2, T3, T4, T5)>
    for (T0, T1, T2, T3, T4, T5)
{
    open spec fn spec_extract(self) -> (T0, T1, T2, T3, T4, T5) {
        (self.0, self.1, self.2, self.3, self.4, self.5)
    }

    open spec fn spec_source_len() -> nat {
        6
    }

    fn extract(self) -> (r: (T0, T1, T2, T3, T4, T5)) {
        (self.0, self.1, self.2, self.3, self.4, self.5)
    }

    proof fn lemma_extract_len() {
    }
}

impl<T0, T1, T2, T3, T4, T5> TypedExtract<1, 1, ()> for (T0, T1, T2, T3, T4, T5) {
    open spec fn spec_extract(self) -> () {
        ()
    }

    open spec fn spec_source_len() -> nat {
        6
    }

    fn extract(self) -> (r: ()) {
        ()
    }

    proof fn lemma_extract_len() {
    }
}

impl<T0, T1, T2, T3, T4, T5> TypedExtract<1, 2, (T1,)> for (T0, T1, T2, T3, T4, T5) {
    open spec fn spec_extract(self) -> (T1,) {
        (self.1,)
    }

    open spec fn spec_source_len() -> nat {
        6
    }

    fn extract(self) -> (r: (T1,)) {
        (self.1,)
    }

    proof fn lemma_extract_len() {
    }
}

impl<T0, T1, T2, T3, T4, T5> TypedExtract<1, 3, (T1, T2)> for (T0, T1, T2, T3, T4, T5) {
    open spec fn spec_extract(self) -> (T1, T2) {
        (self.1, self.2)
    }

    open spec fn spec_source_len() -> nat {
        6
    }

    fn extract(self) -> (r: (T1, T2)) {
        (self.1, self.2)
    }

    proof fn lemma_extract_len() {
    }
}

impl<T0, T1, T2, T3, T4, T5> TypedExtract<1, 4, (T1, T2, T3)> for (T0, T1, T2, T3, T4, T5) {
    open spec fn spec_extract(self) -> (T1, T2, T3) {
        (self.1, self.2, self.3)
    }

    open spec fn spec_source_len() -> nat {
        6
    }

    fn extract(self) -> (r: (T1, T2, T3)) {
        (self.1, self.2, self.3)
    }

    proof fn lemma_extract_len() {
    }
}

impl<T0, T1, T2, T3, T4, T5> TypedExtract<1, 5, (T1, T2, T3, T4)> for (T0, T1, T2, T3, T4, T5) {
    open spec fn spec_extract(self) -> (T1, T2, T3, T4) {
        (self.1, self.2, self.3, self.4)
    }

    open spec fn spec_source_len() -> nat {
        6
    }

    fn extract(self) -> (r: (T1, T2, T3, T4)) {
        (self.1, self.2, self.3, self.4)
    }

    proof fn lemma_extract_len() {
    }
}

impl<T0, T1, T2, T3, T4, T5> TypedExtract<1, 6, (T1, T2, T3, T4, T5)> for (T0, T1, T2, T3, T4, T5) {
    open spec fn spec_extract(self) -> (T1, T2, T3, T4, T5) {
        (self.1, self.2, self.3, self.4, self.5)
    }

    open spec fn spec_source_len() -> nat {
        6
    }

    fn extract(self) -> (r: (T1, T2, T3, T4, T5)) {
        (self.1, self.2, self.3, self.4, self.5)
    }

    proof fn lemma_extract_len() {
    }
}

impl<T0, T1, T2, T3, T4, T5> TypedExtract<2, 2, ()> for (T0, T1, T2, T3, T4, T5) {
    open spec fn spec_extract(self) -> () {
        ()
    }

    open spec fn spec_source_len() -> nat {
        6
    }

    fn extract(self) -> (r: ()) {
        ()
    }

    proof fn lemma_extract_len() {
    }
}

impl<T0, T1, T2, T3, T4, T5> TypedExtract<2, 3, (T2,)> for (T0, T1, T2, T3, T4, T5) {
    open spec fn spec_extract(self) -> (T2,) {
        (self.2,)
    }

    open spec fn spec_source_len() -> nat {
        6
    }

    fn extract(self) -> (r: (T2,)) {
        (self.2,)
    }

    proof fn lemma_extract_len() {
    }
}

impl<T0, T1, T2, T3, T4, T5> TypedExtract<2, 4, (T2, T3)> for (T0, T1, T2, T3, T4, T5) {
    open spec fn spec_extract(self) -> (T2, T3) {
        (self.2, self.3)
    }

    open spec fn spec_source_len() -> nat {
        6
    }

    fn extract(self) -> (r: (T2, T3)) {
        (self.2, self.3)
    }

    proof fn lemma_extract_len() {
    }
}

impl<T0, T1, T2, T3, T4, T5> TypedExtract<2, 5, (T2, T3, T4)> for (T0, T1, T2, T3, T4, T5) {
    open spec fn spec_extract(self) -> (T2, T3, T4) {
        (self.2, self.3, self.4)
    }

    open spec fn spec_source_len() -> nat {
        6
    }

    fn extract(self) -> (r: (T2, T3, T4)) {
        (self.2, self.3, self.4)
    }

    proof fn lemma_extract_len() {
    }
}

impl<T0, T1, T2, T3, T4, T5> TypedExtract<2, 6, (T2, T3, T4, T5)> for (T0, T1, T2, T3, T4, T5) {
    open spec fn spec_extract(self) -> (T2, T3, T4, T5) {
        (self.2, self.3, self.4, self.5)
    }

    open spec fn spec_source_len() -> nat {
        6
    }

    fn extract(self) -> (r: (T2, T3, T4, T5)) {
        (self.2, self.3, self.4, self.5)
    }

    proof fn lemma_extract_len() {
    }
}

impl<T0, T1, T2, T3, T4, T5> TypedExtract<3, 3, ()> for (T0, T1, T2, T3, T4, T5) {
    open spec fn spec_extract(self) -> () {
        ()
    }

    open spec fn spec_source_len() -> nat {
        6
    }

    fn extract(self) -> (r: ()) {
        ()
    }

    proof fn lemma_extract_len() {
    }
}

impl<T0, T1, T2, T3, T4, T5> TypedExtract<3, 4, (T3,)> for (T0, T1, T2, T3, T4, T5) {
    open spec fn spec_extract(self) -> (T3,) {
        (self.3,)
    }

    open spec fn spec_source_len() -> nat {
        6
    }

    fn extract(self) -> (r: (T3,)) {
        (self.3,)
    }

    proof fn lemma_extract_len() {
    }
}

impl<T0, T1, T2, T3, T4, T5> TypedExtract<3, 5, (T3, T4)> for (T0, T1, T2, T3, T4, T5) {
    open spec fn spec_extract(self) -> (T3, T4) {
        (self.3, self.4)
    }

    open spec fn spec_source_len() -> nat {
        6
    }

    fn extract(self) -> (r: (T3, T4)) {
        (self.3, self.4)
    }

    proof fn lemma_extract_len() {
    }
}

impl<T0, T1, T2, T3, T4, T5> TypedExtract<3, 6, (T3, T4, T5)> for (T0, T1, T2, T3, T4, T5) {
    open spec fn spec_extract(self) -> (T3, T4, T5) {
        (self.3, self.4, self.5)
    }

    open spec fn spec_source_len() -> nat {
        6
    }

    fn extract(self) -> (r: (T3, T4, T5)) {
        (self.3, self.4, self.5)
    }

    proof fn lemma_extract_len() {
    }
}

impl<T0, T1, T2, T3, T4, T5> TypedExtract<4, 4, ()> for (T0, T1, T2, T3, T4, T5) {
    open spec fn spec_extract(self) -> () {
        ()
    }

    open spec fn spec_source_len() -> nat {
        6
    }

    fn extract(self) -> (r: ()) {
        ()
    }

    proof fn lemma_extract_len() {
    }
}

impl<T0, T1, T2, T3, T4, T5> TypedExtract<4, 5, (T4,)> for (T0, T1, T2, T3, T4, T5) {
    open spec fn spec_extract(self) -> (T4,) {
        (self.4,)
    }

    open spec fn spec_source_len() -> nat {
        6
    }

    fn extract(self) -> (r: (T4,)) {
        (self.4,)
    }

    proof fn lemma_extract_len() {
    }
}

impl<T0, T1, T2, T3, T4, T5> TypedExtract<4, 6, (T4, T5)> for (T0, T1, T2, T3, T4, T5) {
    open spec fn spec_extract(self) -> (T4, T5) {
        (self.4, self.5)
    }

    open spec fn spec_source_len() -> nat {
        6
    }

    fn extract(self) -> (r: (T4, T5)) {
        (self.4, self.5)
    }

    proof fn lemma_extract_len() {
    }
}

impl<T0, T1, T2, T3, T4, T5> TypedExtract<5, 5, ()> for (T0, T1, T2, T3, T4, T5) {
    open spec fn spec_extract(self) -> () {
        ()
    }

    open spec fn spec_source_len() -> nat {
        6
    }

    fn extract(self) -> (r: ()) {
        ()
    }

    proof fn lemma_extract_len() {
    }
}

impl<T0, T1, T2, T3, T4, T5> TypedExtract<5, 6, (T5,)> for (T0, T1, T2, T3, T4, T5) {
    open spec fn spec_extract(self) -> (T5,) {
        (self.5,)
    }

    open spec fn spec_source_len() -> nat {
        6
    }

    fn extract(self) -> (r: (T5,)) {
        (self.5,)
    }

    proof fn lemma_extract_len() {
    }
}

impl<T0, T1, T2, T3, T4, T5, T6> TypedExtract<0, 0, ()> for (T0, T1, T2, T3, T4, T5, T6) {
    open spec fn spec_extract(self) -> () {
        ()
    }

    open spec fn spec_source_len() -> nat {
        7
    }

    fn extract(self) -> (r: ()) {
        ()
    }

    proof fn lemma_extract_len() {
    }
}

impl<T0, T1, T2, T3, T4, T5, T6> TypedExtract<0, 1, (T0,)> for (T0, T1, T2, T3, T4, T5, T6) {
    open spec fn spec_extract(self) -> (T0,) {
        (self.0,)
    }

    open spec fn spec_source_len() -> nat {
        7
    }

    fn extract(self) -> (r: (T0,)) {
        (self.0,)
    }

    proof fn lemma_extract_len() {
    }
}

impl<T0, T1, T2, T3, T4, T5, T6> TypedExtract<0, 2, (T0, T1)> for (T0, T1, T2, T3, T4, T5, T6) {
    open spec fn spec_extract(self) -> (T0, T1) {
        (self.0, self.1)
    }

    open spec fn spec_source_len() -> nat {
        7
    }

    fn extract(self) -> (r: (T0, T1)) {
        (self.0, self.1)
    }

    proof fn lemma_extract_len() {
    }
}

impl<T0, T1, T2, T3, T4, T5, T6> TypedExtract<0, 3, (T0, T1, T2)> for (T0, T1, T2, T3, T4, T5, T6) {
    open spec fn spec_extract(self) -> (T0, T1, T2) {
        (self.0, self.1, self.2)
    }

    open spec fn spec_source_len() -> nat {
        7
    }

    fn extract(self) -> (r: (T0, T1, T2)) {
        (self.0, self.1, self.2)
    }

    proof fn lemma_extract_len() {
    }
}

impl<T0, T1, T2, T3, T4, T5, T6> TypedExtract<0, 4, (T0, T1, T2, T3)>
    for (T0, T1, T2, T3, T4, T5, T6)
{
    open spec fn spec_extract(self) -> (T0, T1, T2, T3) {
        (self.0, self.1, self.2, self.3)
    }

    open spec fn spec_source_len() -> nat {
        7
    }

    fn extract(self) -> (r: (T0, T1, T2, T3)) {
        (self.0, self.1, self.2, self.3)
    }

    proof fn lemma_extract_len() {
    }
}

impl<T0, T1, T2, T3, T4, T5, T6> TypedExtract<0, 5, (T0, T1, T2, T3, T4)>
    for (T0, T1, T2, T3, T4, T5, T6)
{
    open spec fn spec_extract(self) -> (T0, T1, T2, T3, T4) {
        (self.0, self.1, self.2, self.3, self.4)
    }

    open spec fn spec_source_len() -> nat {
        7
    }

    fn extract(self) -> (r: (T0, T1, T2, T3, T4)) {
        (self.0, self.1, self.2, self.3, self.4)
    }

    proof fn lemma_extract_len() {
    }
}

impl<T0, T1, T2, T3, T4, T5, T6> TypedExtract<0, 6, (T0, T1, T2, T3, T4, T5)>
    for (T0, T1, T2, T3, T4, T5, T6)
{
    open spec fn spec_extract(self) -> (T0, T1, T2, T3, T4, T5) {
        (self.0, self.1, self.2, self.3, self.4, self.5)
    }

    open spec fn spec_source_len() -> nat {
        7
    }

    fn extract(self) -> (r: (T0, T1, T2, T3, T4, T5)) {
        (self.0, self.1, self.2, self.3, self.4, self.5)
    }

    proof fn lemma_extract_len() {
    }
}

impl<T0, T1, T2, T3, T4, T5, T6> TypedExtract<0, 7, (T0, T1, T2, T3, T4, T5, T6)>
    for (T0, T1, T2, T3, T4, T5, T6)
{
    open spec fn spec_extract(self) -> (T0, T1, T2, T3, T4, T5, T6) {
        (self.0, self.1, self.2, self.3, self.4, self.5, self.6)
    }

    open spec fn spec_source_len() -> nat {
        7
    }

    fn extract(self) -> (r: (T0, T1, T2, T3, T4, T5, T6)) {
        (self.0, self.1, self.2, self.3, self.4, self.5, self.6)
    }

    proof fn lemma_extract_len() {
    }
}

impl<T0, T1, T2, T3, T4, T5, T6> TypedExtract<1, 1, ()> for (T0, T1, T2, T3, T4, T5, T6) {
    open spec fn spec_extract(self) -> () {
        ()
    }

    open spec fn spec_source_len() -> nat {
        7
    }

    fn extract(self) -> (r: ()) {
        ()
    }

    proof fn lemma_extract_len() {
    }
}

impl<T0, T1, T2, T3, T4, T5, T6> TypedExtract<1, 2, (T1,)> for (T0, T1, T2, T3, T4, T5, T6) {
    open spec fn spec_extract(self) -> (T1,) {
        (self.1,)
    }

    open spec fn spec_source_len() -> nat {
        7
    }

    fn extract(self) -> (r: (T1,)) {
        (self.1,)
    }

    proof fn lemma_extract_len() {
    }
}

impl<T0, T1, T2, T3, T4, T5, T6> TypedExtract<1, 3, (T1, T2)> for (T0, T1, T2, T3, T4, T5, T6) {
    open spec fn spec_extract(self) -> (T1, T2) {
        (self.1, self.2)
    }

    open spec fn spec_source_len() -> nat {
        7
    }

    fn extract(self) -> (r: (T1, T2)) {
        (self.1, self.2)
    }

    proof fn lemma_extract_len() {
    }
}

impl<T0, T1, T2, T3, T4, T5, T6> TypedExtract<1, 4, (T1, T2, T3)> for (T0, T1, T2, T3, T4, T5, T6) {
    open spec fn spec_extract(self) -> (T1, T2, T3) {
        (self.1, self.2, self.3)
    }

    open spec fn spec_source_len() -> nat {
        7
    }

    fn extract(self) -> (r: (T1, T2, T3)) {
        (self.1, self.2, self.3)
    }

    proof fn lemma_extract_len() {
    }
}

impl<T0, T1, T2, T3, T4, T5, T6> TypedExtract<1, 5, (T1, T2, T3, T4)>
    for (T0, T1, T2, T3, T4, T5, T6)
{
    open spec fn spec_extract(self) -> (T1, T2, T3, T4) {
        (self.1, self.2, self.3, self.4)
    }

    open spec fn spec_source_len() -> nat {
        7
    }

    fn extract(self) -> (r: (T1, T2, T3, T4)) {
        (self.1, self.2, self.3, self.4)
    }

    proof fn lemma_extract_len() {
    }
}

impl<T0, T1, T2, T3, T4, T5, T6> TypedExtract<1, 6, (T1, T2, T3, T4, T5)>
    for (T0, T1, T2, T3, T4, T5, T6)
{
    open spec fn spec_extract(self) -> (T1, T2, T3, T4, T5) {
        (self.1, self.2, self.3, self.4, self.5)
    }

    open spec fn spec_source_len() -> nat {
        7
    }

    fn extract(self) -> (r: (T1, T2, T3, T4, T5)) {
        (self.1, self.2, self.3, self.4, self.5)
    }

    proof fn lemma_extract_len() {
    }
}

impl<T0, T1, T2, T3, T4, T5, T6> TypedExtract<1, 7, (T1, T2, T3, T4, T5, T6)>
    for (T0, T1, T2, T3, T4, T5, T6)
{
    open spec fn spec_extract(self) -> (T1, T2, T3, T4, T5, T6) {
        (self.1, self.2, self.3, self.4, self.5, self.6)
    }

    open spec fn spec_source_len() -> nat {
        7
    }

    fn extract(self) -> (r: (T1, T2, T3, T4, T5, T6)) {
        (self.1, self.2, self.3, self.4, self.5, self.6)
    }

    proof fn lemma_extract_len() {
    }
}

impl<T0, T1, T2, T3, T4, T5, T6> TypedExtract<2, 2, ()> for (T0, T1, T2, T3, T4, T5, T6) {
    open spec fn spec_extract(self) -> () {
        ()
    }

    open spec fn spec_source_len() -> nat {
        7
    }

    fn extract(self) -> (r: ()) {
        ()
    }

    proof fn lemma_extract_len() {
    }
}

impl<T0, T1, T2, T3, T4, T5, T6> TypedExtract<2, 3, (T2,)> for (T0, T1, T2, T3, T4, T5, T6) {
    open spec fn spec_extract(self) -> (T2,) {
        (self.2,)
    }

    open spec fn spec_source_len() -> nat {
        7
    }

    fn extract(self) -> (r: (T2,)) {
        (self.2,)
    }

    proof fn lemma_extract_len() {
    }
}

impl<T0, T1, T2, T3, T4, T5, T6> TypedExtract<2, 4, (T2, T3)> for (T0, T1, T2, T3, T4, T5, T6) {
    open spec fn spec_extract(self) -> (T2, T3) {
        (self.2, self.3)
    }

    open spec fn spec_source_len() -> nat {
        7
    }

    fn extract(self) -> (r: (T2, T3)) {
        (self.2, self.3)
    }

    proof fn lemma_extract_len() {
    }
}

impl<T0, T1, T2, T3, T4, T5, T6> TypedExtract<2, 5, (T2, T3, T4)> for (T0, T1, T2, T3, T4, T5, T6) {
    open spec fn spec_extract(self) -> (T2, T3, T4) {
        (self.2, self.3, self.4)
    }

    open spec fn spec_source_len() -> nat {
        7
    }

    fn extract(self) -> (r: (T2, T3, T4)) {
        (self.2, self.3, self.4)
    }

    proof fn lemma_extract_len() {
    }
}

impl<T0, T1, T2, T3, T4, T5, T6> TypedExtract<2, 6, (T2, T3, T4, T5)>
    for (T0, T1, T2, T3, T4, T5, T6)
{
    open spec fn spec_extract(self) -> (T2, T3, T4, T5) {
        (self.2, self.3, self.4, self.5)
    }

    open spec fn spec_source_len() -> nat {
        7
    }

    fn extract(self) -> (r: (T2, T3, T4, T5)) {
        (self.2, self.3, self.4, self.5)
    }

    proof fn lemma_extract_len() {
    }
}

impl<T0, T1, T2, T3, T4, T5, T6> TypedExtract<2, 7, (T2, T3, T4, T5, T6)>
    for (T0, T1, T2, T3, T4, T5, T6)
{
    open spec fn spec_extract(self) -> (T2, T3, T4, T5, T6) {
        (self.2, self.3, self.4, self.5, self.6)
    }

    open spec fn spec_source_len() -> nat {
        7
    }

    fn extract(self) -> (r: (T2, T3, T4, T5, T6)) {
        (self.2, self.3, self.4, self.5, self.6)
    }

    proof fn lemma_extract_len() {
    }
}

impl<T0, T1, T2, T3, T4, T5, T6> TypedExtract<3, 3, ()> for (T0, T1, T2, T3, T4, T5, T6) {
    open spec fn spec_extract(self) -> () {
        ()
    }

    open spec fn spec_source_len() -> nat {
        7
    }

    fn extract(self) -> (r: ()) {
        ()
    }

    proof fn lemma_extract_len() {
    }
}

impl<T0, T1, T2, T3, T4, T5, T6> TypedExtract<3, 4, (T3,)> for (T0, T1, T2, T3, T4, T5, T6) {
    open spec fn spec_extract(self) -> (T3,) {
        (self.3,)
    }

    open spec fn spec_source_len() -> nat {
        7
    }

    fn extract(self) -> (r: (T3,)) {
        (self.3,)
    }

    proof fn lemma_extract_len() {
    }
}

impl<T0, T1, T2, T3, T4, T5, T6> TypedExtract<3, 5, (T3, T4)> for (T0, T1, T2, T3, T4, T5, T6) {
    open spec fn spec_extract(self) -> (T3, T4) {
        (self.3, self.4)
    }

    open spec fn spec_source_len() -> nat {
        7
    }

    fn extract(self) -> (r: (T3, T4)) {
        (self.3, self.4)
    }

    proof fn lemma_extract_len() {
    }
}

impl<T0, T1, T2, T3, T4, T5, T6> TypedExtract<3, 6, (T3, T4, T5)> for (T0, T1, T2, T3, T4, T5, T6) {
    open spec fn spec_extract(self) -> (T3, T4, T5) {
        (self.3, self.4, self.5)
    }

    open spec fn spec_source_len() -> nat {
        7
    }

    fn extract(self) -> (r: (T3, T4, T5)) {
        (self.3, self.4, self.5)
    }

    proof fn lemma_extract_len() {
    }
}

impl<T0, T1, T2, T3, T4, T5, T6> TypedExtract<3, 7, (T3, T4, T5, T6)>
    for (T0, T1, T2, T3, T4, T5, T6)
{
    open spec fn spec_extract(self) -> (T3, T4, T5, T6) {
        (self.3, self.4, self.5, self.6)
    }

    open spec fn spec_source_len() -> nat {
        7
    }

    fn extract(self) -> (r: (T3, T4, T5, T6)) {
        (self.3, self.4, self.5, self.6)
    }

    proof fn lemma_extract_len() {
    }
}

impl<T0, T1, T2, T3, T4, T5, T6> TypedExtract<4, 4, ()> for (T0, T1, T2, T3, T4, T5, T6) {
    open spec fn spec_extract(self) -> () {
        ()
    }

    open spec fn spec_source_len() -> nat {
        7
    }

    fn extract(self) -> (r: ()) {
        ()
    }

    proof fn lemma_extract_len() {
    }
}

impl<T0, T1, T2, T3, T4, T5, T6> TypedExtract<4, 5, (T4,)> for (T0, T1, T2, T3, T4, T5, T6) {
    open spec fn spec_extract(self) -> (T4,) {
        (self.4,)
    }

    open spec fn spec_source_len() -> nat {
        7
    }

    fn extract(self) -> (r: (T4,)) {
        (self.4,)
    }

    proof fn lemma_extract_len() {
    }
}

impl<T0, T1, T2, T3, T4, T5, T6> TypedExtract<4, 6, (T4, T5)> for (T0, T1, T2, T3, T4, T5, T6) {
    open spec fn spec_extract(self) -> (T4, T5) {
        (self.4, self.5)
    }

    open spec fn spec_source_len() -> nat {
        7
    }

    fn extract(self) -> (r: (T4, T5)) {
        (self.4, self.5)
    }

    proof fn lemma_extract_len() {
    }
}

impl<T0, T1, T2, T3, T4, T5, T6> TypedExtract<4, 7, (T4, T5, T6)> for (T0, T1, T2, T3, T4, T5, T6) {
    open spec fn spec_extract(self) -> (T4, T5, T6) {
        (self.4, self.5, self.6)
    }

    open spec fn spec_source_len() -> nat {
        7
    }

    fn extract(self) -> (r: (T4, T5, T6)) {
        (self.4, self.5, self.6)
    }

    proof fn lemma_extract_len() {
    }
}

impl<T0, T1, T2, T3, T4, T5, T6> TypedExtract<5, 5, ()> for (T0, T1, T2, T3, T4, T5, T6) {
    open spec fn spec_extract(self) -> () {
        ()
    }

    open spec fn spec_source_len() -> nat {
        7
    }

    fn extract(self) -> (r: ()) {
        ()
    }

    proof fn lemma_extract_len() {
    }
}

impl<T0, T1, T2, T3, T4, T5, T6> TypedExtract<5, 6, (T5,)> for (T0, T1, T2, T3, T4, T5, T6) {
    open spec fn spec_extract(self) -> (T5,) {
        (self.5,)
    }

    open spec fn spec_source_len() -> nat {
        7
    }

    fn extract(self) -> (r: (T5,)) {
        (self.5,)
    }

    proof fn lemma_extract_len() {
    }
}

impl<T0, T1, T2, T3, T4, T5, T6> TypedExtract<5, 7, (T5, T6)> for (T0, T1, T2, T3, T4, T5, T6) {
    open spec fn spec_extract(self) -> (T5, T6) {
        (self.5, self.6)
    }

    open spec fn spec_source_len() -> nat {
        7
    }

    fn extract(self) -> (r: (T5, T6)) {
        (self.5, self.6)
    }

    proof fn lemma_extract_len() {
    }
}

impl<T0, T1, T2, T3, T4, T5, T6> TypedExtract<6, 6, ()> for (T0, T1, T2, T3, T4, T5, T6) {
    open spec fn spec_extract(self) -> () {
        ()
    }

    open spec fn spec_source_len() -> nat {
        7
    }

    fn extract(self) -> (r: ()) {
        ()
    }

    proof fn lemma_extract_len() {
    }
}

impl<T0, T1, T2, T3, T4, T5, T6> TypedExtract<6, 7, (T6,)> for (T0, T1, T2, T3, T4, T5, T6) {
    open spec fn spec_extract(self) -> (T6,) {
        (self.6,)
    }

    open spec fn spec_source_len() -> nat {
        7
    }

    fn extract(self) -> (r: (T6,)) {
        (self.6,)
    }

    proof fn lemma_extract_len() {
    }
}

impl<T0, T1, T2, T3, T4, T5, T6, T7> TypedExtract<0, 0, ()> for (T0, T1, T2, T3, T4, T5, T6, T7) {
    open spec fn spec_extract(self) -> () {
        ()
    }

    open spec fn spec_source_len() -> nat {
        8
    }

    fn extract(self) -> (r: ()) {
        ()
    }

    proof fn lemma_extract_len() {
    }
}

impl<T0, T1, T2, T3, T4, T5, T6, T7> TypedExtract<0, 1, (T0,)>
    for (T0, T1, T2, T3, T4, T5, T6, T7)
{
    open spec fn spec_extract(self) -> (T0,) {
        (self.0,)
    }

    open spec fn spec_source_len() -> nat {
        8
    }

    fn extract(self) -> (r: (T0,)) {
        (self.0,)
    }

    proof fn lemma_extract_len() {
    }
}

impl<T0, T1, T2, T3, T4, T5, T6, T7> TypedExtract<0, 2, (T0, T1)>
    for (T0, T1, T2, T3, T4, T5, T6, T7)
{
    open spec fn spec_extract(self) -> (T0, T1) {
        (self.0, self.1)
    }

    open spec fn spec_source_len() -> nat {
        8
    }

    fn extract(self) -> (r: (T0, T1)) {
        (self.0, self.1)
    }

    proof fn lemma_extract_len() {
    }
}

impl<T0, T1, T2, T3, T4, T5, T6, T7> TypedExtract<0, 3, (T0, T1, T2)>
    for (T0, T1, T2, T3, T4, T5, T6, T7)
{
    open spec fn spec_extract(self) -> (T0, T1, T2) {
        (self.0, self.1, self.2)
    }

    open spec fn spec_source_len() -> nat {
        8
    }

    fn extract(self) -> (r: (T0, T1, T2)) {
        (self.0, self.1, self.2)
    }

    proof fn lemma_extract_len() {
    }
}

impl<T0, T1, T2, T3, T4, T5, T6, T7> TypedExtract<0, 4, (T0, T1, T2, T3)>
    for (T0, T1, T2, T3, T4, T5, T6, T7)
{
    open spec fn spec_extract(self) -> (T0, T1, T2, T3) {
        (self.0, self.1, self.2, self.3)
    }

    open spec fn spec_source_len() -> nat {
        8
    }

    fn extract(self) -> (r: (T0, T1, T2, T3)) {
        (self.0, self.1, self.2, self.3)
    }

    proof fn lemma_extract_len() {
    }
}

impl<T0, T1, T2, T3, T4, T5, T6, T7> TypedExtract<0, 5, (T0, T1, T2, T3, T4)>
    for (T0, T1, T2, T3, T4, T5, T6, T7)
{
    open spec fn spec_extract(self) -> (T0, T1, T2, T3, T4) {
        (self.0, self.1, self.2, self.3, self.4)
    }

    open spec fn spec_source_len() -> nat {
        8
    }

    fn extract(self) -> (r: (T0, T1, T2, T3, T4)) {
        (self.0, self.1, self.2, self.3, self.4)
    }

    proof fn lemma_extract_len() {
    }
}

impl<T0, T1, T2, T3, T4, T5, T6, T7> TypedExtract<0, 6, (T0, T1, T2, T3, T4, T5)>
    for (T0, T1, T2, T3, T4, T5, T6, T7)
{
    open spec fn spec_extract(self) -> (T0, T1, T2, T3, T4, T5) {
        (self.0, self.1, self.2, self.3, self.4, self.5)
    }

    open spec fn spec_source_len() -> nat {
        8
    }

    fn extract(self) -> (r: (T0, T1, T2, T3, T4, T5)) {
        (self.0, self.1, self.2, self.3, self.4, self.5)
    }

    proof fn lemma_extract_len() {
    }
}

impl<T0, T1, T2, T3, T4, T5, T6, T7> TypedExtract<0, 7, (T0, T1, T2, T3, T4, T5, T6)>
    for (T0, T1, T2, T3, T4, T5, T6, T7)
{
    open spec fn spec_extract(self) -> (T0, T1, T2, T3, T4, T5, T6) {
        (self.0, self.1, self.2, self.3, self.4, self.5, self.6)
    }

    open spec fn spec_source_len() -> nat {
        8
    }

    fn extract(self) -> (r: (T0, T1, T2, T3, T4, T5, T6)) {
        (self.0, self.1, self.2, self.3, self.4, self.5, self.6)
    }

    proof fn lemma_extract_len() {
    }
}

impl<T0, T1, T2, T3, T4, T5, T6, T7> TypedExtract<0, 8, (T0, T1, T2, T3, T4, T5, T6, T7)>
    for (T0, T1, T2, T3, T4, T5, T6, T7)
{
    open spec fn spec_extract(self) -> (T0, T1, T2, T3, T4, T5, T6, T7) {
        (self.0, self.1, self.2, self.3, self.4, self.5, self.6, self.7)
    }

    open spec fn spec_source_len() -> nat {
        8
    }

    fn extract(self) -> (r: (T0, T1, T2, T3, T4, T5, T6, T7)) {
        (self.0, self.1, self.2, self.3, self.4, self.5, self.6, self.7)
    }

    proof fn lemma_extract_len() {
    }
}

impl<T0, T1, T2, T3, T4, T5, T6, T7> TypedExtract<1, 1, ()> for (T0, T1, T2, T3, T4, T5, T6, T7) {
    open spec fn spec_extract(self) -> () {
        ()
    }

    open spec fn spec_source_len() -> nat {
        8
    }

    fn extract(self) -> (r: ()) {
        ()
    }

    proof fn lemma_extract_len() {
    }
}

impl<T0, T1, T2, T3, T4, T5, T6, T7> TypedExtract<1, 2, (T1,)>
    for (T0, T1, T2, T3, T4, T5, T6, T7)
{
    open spec fn spec_extract(self) -> (T1,) {
        (self.1,)
    }

    open spec fn spec_source_len() -> nat {
        8
    }

    fn extract(self) -> (r: (T1,)) {
        (self.1,)
    }

    proof fn lemma_extract_len() {
    }
}

impl<T0, T1, T2, T3, T4, T5, T6, T7> TypedExtract<1, 3, (T1, T2)>
    for (T0, T1, T2, T3, T4, T5, T6, T7)
{
    open spec fn spec_extract(self) -> (T1, T2) {
        (self.1, self.2)
    }

    open spec fn spec_source_len() -> nat {
        8
    }

    fn extract(self) -> (r: (T1, T2)) {
        (self.1, self.2)
    }

    proof fn lemma_extract_len() {
    }
}

impl<T0, T1, T2, T3, T4, T5, T6, T7> TypedExtract<1, 4, (T1, T2, T3)>
    for (T0, T1, T2, T3, T4, T5, T6, T7)
{
    open spec fn spec_extract(self) -> (T1, T2, T3) {
        (self.1, self.2, self.3)
    }

    open spec fn spec_source_len() -> nat {
        8
    }

    fn extract(self) -> (r: (T1, T2, T3)) {
        (self.1, self.2, self.3)
    }

    proof fn lemma_extract_len() {
    }
}

impl<T0, T1, T2, T3, T4, T5, T6, T7> TypedExtract<1, 5, (T1, T2, T3, T4)>
    for (T0, T1, T2, T3, T4, T5, T6, T7)
{
    open spec fn spec_extract(self) -> (T1, T2, T3, T4) {
        (self.1, self.2, self.3, self.4)
    }

    open spec fn spec_source_len() -> nat {
        8
    }

    fn extract(self) -> (r: (T1, T2, T3, T4)) {
        (self.1, self.2, self.3, self.4)
    }

    proof fn lemma_extract_len() {
    }
}

impl<T0, T1, T2, T3, T4, T5, T6, T7> TypedExtract<1, 6, (T1, T2, T3, T4, T5)>
    for (T0, T1, T2, T3, T4, T5, T6, T7)
{
    open spec fn spec_extract(self) -> (T1, T2, T3, T4, T5) {
        (self.1, self.2, self.3, self.4, self.5)
    }

    open spec fn spec_source_len() -> nat {
        8
    }

    fn extract(self) -> (r: (T1, T2, T3, T4, T5)) {
        (self.1, self.2, self.3, self.4, self.5)
    }

    proof fn lemma_extract_len() {
    }
}

impl<T0, T1, T2, T3, T4, T5, T6, T7> TypedExtract<1, 7, (T1, T2, T3, T4, T5, T6)>
    for (T0, T1, T2, T3, T4, T5, T6, T7)
{
    open spec fn spec_extract(self) -> (T1, T2, T3, T4, T5, T6) {
        (self.1, self.2, self.3, self.4, self.5, self.6)
    }

    open spec fn spec_source_len() -> nat {
        8
    }

    fn extract(self) -> (r: (T1, T2, T3, T4, T5, T6)) {
        (self.1, self.2, self.3, self.4, self.5, self.6)
    }

    proof fn lemma_extract_len() {
    }
}

impl<T0, T1, T2, T3, T4, T5, T6, T7> TypedExtract<1, 8, (T1, T2, T3, T4, T5, T6, T7)>
    for (T0, T1, T2, T3, T4, T5, T6, T7)
{
    open spec fn spec_extract(self) -> (T1, T2, T3, T4, T5, T6, T7) {
        (self.1, self.2, self.3, self.4, self.5, self.6, self.7)
    }

    open spec fn spec_source_len() -> nat {
        8
    }

    fn extract(self) -> (r: (T1, T2, T3, T4, T5, T6, T7)) {
        (self.1, self.2, self.3, self.4, self.5, self.6, self.7)
    }

    proof fn lemma_extract_len() {
    }
}

impl<T0, T1, T2, T3, T4, T5, T6, T7> TypedExtract<2, 2, ()> for (T0, T1, T2, T3, T4, T5, T6, T7) {
    open spec fn spec_extract(self) -> () {
        ()
    }

    open spec fn spec_source_len() -> nat {
        8
    }

    fn extract(self) -> (r: ()) {
        ()
    }

    proof fn lemma_extract_len() {
    }
}

impl<T0, T1, T2, T3, T4, T5, T6, T7> TypedExtract<2, 3, (T2,)>
    for (T0, T1, T2, T3, T4, T5, T6, T7)
{
    open spec fn spec_extract(self) -> (T2,) {
        (self.2,)
    }

    open spec fn spec_source_len() -> nat {
        8
    }

    fn extract(self) -> (r: (T2,)) {
        (self.2,)
    }

    proof fn lemma_extract_len() {
    }
}

impl<T0, T1, T2, T3, T4, T5, T6, T7> TypedExtract<2, 4, (T2, T3)>
    for (T0, T1, T2, T3, T4, T5, T6, T7)
{
    open spec fn spec_extract(self) -> (T2, T3) {
        (self.2, self.3)
    }

    open spec fn spec_source_len() -> nat {
        8
    }

    fn extract(self) -> (r: (T2, T3)) {
        (self.2, self.3)
    }

    proof fn lemma_extract_len() {
    }
}

impl<T0, T1, T2, T3, T4, T5, T6, T7> TypedExtract<2, 5, (T2, T3, T4)>
    for (T0, T1, T2, T3, T4, T5, T6, T7)
{
    open spec fn spec_extract(self) -> (T2, T3, T4) {
        (self.2, self.3, self.4)
    }

    open spec fn spec_source_len() -> nat {
        8
    }

    fn extract(self) -> (r: (T2, T3, T4)) {
        (self.2, self.3, self.4)
    }

    proof fn lemma_extract_len() {
    }
}

impl<T0, T1, T2, T3, T4, T5, T6, T7> TypedExtract<2, 6, (T2, T3, T4, T5)>
    for (T0, T1, T2, T3, T4, T5, T6, T7)
{
    open spec fn spec_extract(self) -> (T2, T3, T4, T5) {
        (self.2, self.3, self.4, self.5)
    }

    open spec fn spec_source_len() -> nat {
        8
    }

    fn extract(self) -> (r: (T2, T3, T4, T5)) {
        (self.2, self.3, self.4, self.5)
    }

    proof fn lemma_extract_len() {
    }
}

impl<T0, T1, T2, T3, T4, T5, T6, T7> TypedExtract<2, 7, (T2, T3, T4, T5, T6)>
    for (T0, T1, T2, T3, T4, T5, T6, T7)
{
    open spec fn spec_extract(self) -> (T2, T3, T4, T5, T6) {
        (self.2, self.3, self.4, self.5, self.6)
    }

    open spec fn spec_source_len() -> nat {
        8
    }

    fn extract(self) -> (r: (T2, T3, T4, T5, T6)) {
        (self.2, self.3, self.4, self.5, self.6)
    }

    proof fn lemma_extract_len() {
    }
}

impl<T0, T1, T2, T3, T4, T5, T6, T7> TypedExtract<2, 8, (T2, T3, T4, T5, T6, T7)>
    for (T0, T1, T2, T3, T4, T5, T6, T7)
{
    open spec fn spec_extract(self) -> (T2, T3, T4, T5, T6, T7) {
        (self.2, self.3, self.4, self.5, self.6, self.7)
    }

    open spec fn spec_source_len() -> nat {
        8
    }

    fn extract(self) -> (r: (T2, T3, T4, T5, T6, T7)) {
        (self.2, self.3, self.4, self.5, self.6, self.7)
    }

    proof fn lemma_extract_len() {
    }
}

impl<T0, T1, T2, T3, T4, T5, T6, T7> TypedExtract<3, 3, ()> for (T0, T1, T2, T3, T4, T5, T6, T7) {
    open spec fn spec_extract(self) -> () {
        ()
    }

    open spec fn spec_source_len() -> nat {
        8
    }

    fn extract(self) -> (r: ()) {
        ()
    }

    proof fn lemma_extract_len() {
    }
}

impl<T0, T1, T2, T3, T4, T5, T6, T7> TypedExtract<3, 4, (T3,)>
    for (T0, T1, T2, T3, T4, T5, T6, T7)
{
    open spec fn spec_extract(self) -> (T3,) {
        (self.3,)
    }

    open spec fn spec_source_len() -> nat {
        8
    }

    fn extract(self) -> (r: (T3,)) {
        (self.3,)
    }

    proof fn lemma_extract_len() {
    }
}

impl<T0, T1, T2, T3, T4, T5, T6, T7> TypedExtract<3, 5, (T3, T4)>
    for (T0, T1, T2, T3, T4, T5, T6, T7)
{
    open spec fn spec_extract(self) -> (T3, T4) {
        (self.3, self.4)
    }

    open spec fn spec_source_len() -> nat {
        8
    }

    fn extract(self) -> (r: (T3, T4)) {
        (self.3, self.4)
    }

    proof fn lemma_extract_len() {
    }
}

impl<T0, T1, T2, T3, T4, T5, T6, T7> TypedExtract<3, 6, (T3, T4, T5)>
    for (T0, T1, T2, T3, T4, T5, T6, T7)
{
    open spec fn spec_extract(self) -> (T3, T4, T5) {
        (self.3, self.4, self.5)
    }

    open spec fn spec_source_len() -> nat {
        8
    }

    fn extract(self) -> (r: (T3, T4, T5)) {
        (self.3, self.4, self.5)
    }

    proof fn lemma_extract_len() {
    }
}

impl<T0, T1, T2, T3, T4, T5, T6, T7> TypedExtract<3, 7, (T3, T4, T5, T6)>
    for (T0, T1, T2, T3, T4, T5, T6, T7)
{
    open spec fn spec_extract(self) -> (T3, T4, T5, T6) {
        (self.3, self.4, self.5, self.6)
    }

    open spec fn spec_source_len() -> nat {
        8
    }

    fn extract(self) -> (r: (T3, T4, T5, T6)) {
        (self.3, self.4, self.5, self.6)
    }

    proof fn lemma_extract_len() {
    }
}

impl<T0, T1, T2, T3, T4, T5, T6, T7> TypedExtract<3, 8, (T3, T4, T5, T6, T7)>
    for (T0, T1, T2, T3, T4, T5, T6, T7)
{
    open spec fn spec_extract(self) -> (T3, T4, T5, T6, T7) {
        (self.3, self.4, self.5, self.6, self.7)
    }

    open spec fn spec_source_len() -> nat {
        8
    }

    fn extract(self) -> (r: (T3, T4, T5, T6, T7)) {
        (self.3, self.4, self.5, self.6, self.7)
    }

    proof fn lemma_extract_len() {
    }
}

impl<T0, T1, T2, T3, T4, T5, T6, T7> TypedExtract<4, 4, ()> for (T0, T1, T2, T3, T4, T5, T6, T7) {
    open spec fn spec_extract(self) -> () {
        ()
    }

    open spec fn spec_source_len() -> nat {
        8
    }

    fn extract(self) -> (r: ()) {
        ()
    }

    proof fn lemma_extract_len() {
    }
}

impl<T0, T1, T2, T3, T4, T5, T6, T7> TypedExtract<4, 5, (T4,)>
    for (T0, T1, T2, T3, T4, T5, T6, T7)
{
    open spec fn spec_extract(self) -> (T4,) {
        (self.4,)
    }

    open spec fn spec_source_len() -> nat {
        8
    }

    fn extract(self) -> (r: (T4,)) {
        (self.4,)
    }

    proof fn lemma_extract_len() {
    }
}

impl<T0, T1, T2, T3, T4, T5, T6, T7> TypedExtract<4, 6, (T4, T5)>
    for (T0, T1, T2, T3, T4, T5, T6, T7)
{
    open spec fn spec_extract(self) -> (T4, T5) {
        (self.4, self.5)
    }

    open spec fn spec_source_len() -> nat {
        8
    }

    fn extract(self) -> (r: (T4, T5)) {
        (self.4, self.5)
    }

    proof fn lemma_extract_len() {
    }
}

impl<T0, T1, T2, T3, T4, T5, T6, T7> TypedExtract<4, 7, (T4, T5, T6)>
    for (T0, T1, T2, T3, T4, T5, T6, T7)
{
    open spec fn spec_extract(self) -> (T4, T5, T6) {
        (self.4, self.5, self.6)
    }

    open spec fn spec_source_len() -> nat {
        8
    }

    fn extract(self) -> (r: (T4, T5, T6)) {
        (self.4, self.5, self.6)
    }

    proof fn lemma_extract_len() {
    }
}

impl<T0, T1, T2, T3, T4, T5, T6, T7> TypedExtract<4, 8, (T4, T5, T6, T7)>
    for (T0, T1, T2, T3, T4, T5, T6, T7)
{
    open spec fn spec_extract(self) -> (T4, T5, T6, T7) {
        (self.4, self.5, self.6, self.7)
    }

    open spec fn spec_source_len() -> nat {
        8
    }

    fn extract(self) -> (r: (T4, T5, T6, T7)) {
        (self.4, self.5, self.6, self.7)
    }

    proof fn lemma_extract_len() {
    }
}

impl<T0, T1, T2, T3, T4, T5, T6, T7> TypedExtract<5, 5, ()> for (T0, T1, T2, T3, T4, T5, T6, T7) {
    open spec fn spec_extract(self) -> () {
        ()
    }

    open spec fn spec_source_len() -> nat {
        8
    }

    fn extract(self) -> (r: ()) {
        ()
    }

    proof fn lemma_extract_len() {
    }
}

impl<T0, T1, T2, T3, T4, T5, T6, T7> TypedExtract<5, 6, (T5,)>
    for (T0, T1, T2, T3, T4, T5, T6, T7)
{
    open spec fn spec_extract(self) -> (T5,) {
        (self.5,)
    }

    open spec fn spec_source_len() -> nat {
        8
    }

    fn extract(self) -> (r: (T5,)) {
        (self.5,)
    }

    proof fn lemma_extract_len() {
    }
}

impl<T0, T1, T2, T3, T4, T5, T6, T7> TypedExtract<5, 7, (T5, T6)>
    for (T0, T1, T2, T3, T4, T5, T6, T7)
{
    open spec fn spec_extract(self) -> (T5, T6) {
        (self.5, self.6)
    }

    open spec fn spec_source_len() -> nat {
        8
    }

    fn extract(self) -> (r: (T5, T6)) {
        (self.5, self.6)
    }

    proof fn lemma_extract_len() {
    }
}

impl<T0, T1, T2, T3, T4, T5, T6, T7> TypedExtract<5, 8, (T5, T6, T7)>
    for (T0, T1, T2, T3, T4, T5, T6, T7)
{
    open spec fn spec_extract(self) -> (T5, T6, T7) {
        (self.5, self.6, self.7)
    }

    open spec fn spec_source_len() -> nat {
        8
    }

    fn extract(self) -> (r: (T5, T6, T7)) {
        (self.5, self.6, self.7)
    }

    proof fn lemma_extract_len() {
    }
}

impl<T0, T1, T2, T3, T4, T5, T6, T7> TypedExtract<6, 6, ()> for (T0, T1, T2, T3, T4, T5, T6, T7) {
    open spec fn spec_extract(self) -> () {
        ()
    }

    open spec fn spec_source_len() -> nat {
        8
    }

    fn extract(self) -> (r: ()) {
        ()
    }

    proof fn lemma_extract_len() {
    }
}

impl<T0, T1, T2, T3, T4, T5, T6, T7> TypedExtract<6, 7, (T6,)>
    for (T0, T1, T2, T3, T4, T5, T6, T7)
{
    open spec fn spec_extract(self) -> (T6,) {
        (self.6,)
    }

    open spec fn spec_source_len() -> nat {
        8
    }

    fn extract(self) -> (r: (T6,)) {
        (self.6,)
    }

    proof fn lemma_extract_len() {
    }
}

impl<T0, T1, T2, T3, T4, T5, T6, T7> TypedExtract<6, 8, (T6, T7)>
    for (T0, T1, T2, T3, T4, T5, T6, T7)
{
    open spec fn spec_extract(self) -> (T6, T7) {
        (self.6, self.7)
    }

    open spec fn spec_source_len() -> nat {
        8
    }

    fn extract(self) -> (r: (T6, T7)) {
        (self.6, self.7)
    }

    proof fn lemma_extract_len() {
    }
}

impl<T0, T1, T2, T3, T4, T5, T6, T7> TypedExtract<7, 7, ()> for (T0, T1, T2, T3, T4, T5, T6, T7) {
    open spec fn spec_extract(self) -> () {
        ()
    }

    open spec fn spec_source_len() -> nat {
        8
    }

    fn extract(self) -> (r: ()) {
        ()
    }

    proof fn lemma_extract_len() {
    }
}

impl<T0, T1, T2, T3, T4, T5, T6, T7> TypedExtract<7, 8, (T7,)>
    for (T0, T1, T2, T3, T4, T5, T6, T7)
{
    open spec fn spec_extract(self) -> (T7,) {
        (self.7,)
    }

    open spec fn spec_source_len() -> nat {
        8
    }

    fn extract(self) -> (r: (T7,)) {
        (self.7,)
    }

    proof fn lemma_extract_len() {
    }
}

impl<T0, T1, T2, T3, T4, T5, T6, T7, T8> TypedExtract<0, 0, ()>
    for (T0, T1, T2, T3, T4, T5, T6, T7, T8)
{
    open spec fn spec_extract(self) -> () {
        ()
    }

    open spec fn spec_source_len() -> nat {
        9
    }

    fn extract(self) -> (r: ()) {
        ()
    }

    proof fn lemma_extract_len() {
    }
}

impl<T0, T1, T2, T3, T4, T5, T6, T7, T8> TypedExtract<0, 1, (T0,)>
    for (T0, T1, T2, T3, T4, T5, T6, T7, T8)
{
    open spec fn spec_extract(self) -> (T0,) {
        (self.0,)
    }

    open spec fn spec_source_len() -> nat {
        9
    }

    fn extract(self) -> (r: (T0,)) {
        (self.0,)
    }

    proof fn lemma_extract_len() {
    }
}

impl<T0, T1, T2, T3, T4, T5, T6, T7, T8> TypedExtract<0, 2, (T0, T1)>
    for (T0, T1, T2, T3, T4, T5, T6, T7, T8)
{
    open spec fn spec_extract(self) -> (T0, T1) {
        (self.0, self.1)
    }

    open spec fn spec_source_len() -> nat {
        9
    }

    fn extract(self) -> (r: (T0, T1)) {
        (self.0, self.1)
    }

    proof fn lemma_extract_len() {
    }
}

impl<T0, T1, T2, T3, T4, T5, T6, T7, T8> TypedExtract<0, 3, (T0, T1, T2)>
    for (T0, T1, T2, T3, T4, T5, T6, T7, T8)
{
    open spec fn spec_extract(self) -> (T0, T1, T2) {
        (self.0, self.1, self.2)
    }

    open spec fn spec_source_len() -> nat {
        9
    }

    fn extract(self) -> (r: (T0, T1, T2)) {
        (self.0, self.1, self.2)
    }

    proof fn lemma_extract_len() {
    }
}

impl<T0, T1, T2, T3, T4, T5, T6, T7, T8> TypedExtract<0, 4, (T0, T1, T2, T3)>
    for (T0, T1, T2, T3, T4, T5, T6, T7, T8)
{
    open spec fn spec_extract(self) -> (T0, T1, T2, T3) {
        (self.0, self.1, self.2, self.3)
    }

    open spec fn spec_source_len() -> nat {
        9
    }

    fn extract(self) -> (r: (T0, T1, T2, T3)) {
        (self.0, self.1, self.2, self.3)
    }

    proof fn lemma_extract_len() {
    }
}

impl<T0, T1, T2, T3, T4, T5, T6, T7, T8> TypedExtract<0, 5, (T0, T1, T2, T3, T4)>
    for (T0, T1, T2, T3, T4, T5, T6, T7, T8)
{
    open spec fn spec_extract(self) -> (T0, T1, T2, T3, T4) {
        (self.0, self.1, self.2, self.3, self.4)
    }

    open spec fn spec_source_len() -> nat {
        9
    }

    fn extract(self) -> (r: (T0, T1, T2, T3, T4)) {
        (self.0, self.1, self.2, self.3, self.4)
    }

    proof fn lemma_extract_len() {
    }
}

impl<T0, T1, T2, T3, T4, T5, T6, T7, T8> TypedExtract<0, 6, (T0, T1, T2, T3, T4, T5)>
    for (T0, T1, T2, T3, T4, T5, T6, T7, T8)
{
    open spec fn spec_extract(self) -> (T0, T1, T2, T3, T4, T5) {
        (self.0, self.1, self.2, self.3, self.4, self.5)
    }

    open spec fn spec_source_len() -> nat {
        9
    }

    fn extract(self) -> (r: (T0, T1, T2, T3, T4, T5)) {
        (self.0, self.1, self.2, self.3, self.4, self.5)
    }

    proof fn lemma_extract_len() {
    }
}

impl<T0, T1, T2, T3, T4, T5, T6, T7, T8> TypedExtract<0, 7, (T0, T1, T2, T3, T4, T5, T6)>
    for (T0, T1, T2, T3, T4, T5, T6, T7, T8)
{
    open spec fn spec_extract(self) -> (T0, T1, T2, T3, T4, T5, T6) {
        (self.0, self.1, self.2, self.3, self.4, self.5, self.6)
    }

    open spec fn spec_source_len() -> nat {
        9
    }

    fn extract(self) -> (r: (T0, T1, T2, T3, T4, T5, T6)) {
        (self.0, self.1, self.2, self.3, self.4, self.5, self.6)
    }

    proof fn lemma_extract_len() {
    }
}

impl<T0, T1, T2, T3, T4, T5, T6, T7, T8> TypedExtract<0, 8, (T0, T1, T2, T3, T4, T5, T6, T7)>
    for (T0, T1, T2, T3, T4, T5, T6, T7, T8)
{
    open spec fn spec_extract(self) -> (T0, T1, T2, T3, T4, T5, T6, T7) {
        (self.0, self.1, self.2, self.3, self.4, self.5, self.6, self.7)
    }

    open spec fn spec_source_len() -> nat {
        9
    }

    fn extract(self) -> (r: (T0, T1, T2, T3, T4, T5, T6, T7)) {
        (self.0, self.1, self.2, self.3, self.4, self.5, self.6, self.7)
    }

    proof fn lemma_extract_len() {
    }
}

impl<T0, T1, T2, T3, T4, T5, T6, T7, T8> TypedExtract<0, 9, (T0, T1, T2, T3, T4, T5, T6, T7, T8)>
    for (T0, T1, T2, T3, T4, T5, T6, T7, T8)
{
    open spec fn spec_extract(self) -> (T0, T1, T2, T3, T4, T5, T6, T7, T8) {
        (self.0, self.1, self.2, self.3, self.4, self.5, self.6, self.7, self.8)
    }

    open spec fn spec_source_len() -> nat {
        9
    }

    fn extract(self) -> (r: (T0, T1, T2, T3, T4, T5, T6, T7, T8)) {
        (self.0, self.1, self.2, self.3, self.4, self.5, self.6, self.7, self.8)
    }

    proof fn lemma_extract_len() {
    }
}

impl<T0, T1, T2, T3, T4, T5, T6, T7, T8> TypedExtract<1, 1, ()>
    for (T0, T1, T2, T3, T4, T5, T6, T7, T8)
{
    open spec fn spec_extract(self) -> () {
        ()
    }

    open spec fn spec_source_len() -> nat {
        9
    }

    fn extract(self) -> (r: ()) {
        ()
    }

    proof fn lemma_extract_len() {
    }
}

impl<T0, T1, T2, T3, T4, T5, T6, T7, T8> TypedExtract<1, 2, (T1,)>
    for (T0, T1, T2, T3, T4, T5, T6, T7, T8)
{
    open spec fn spec_extract(self) -> (T1,) {
        (self.1,)
    }

    open spec fn spec_source_len() -> nat {
        9
    }

    fn extract(self) -> (r: (T1,)) {
        (self.1,)
    }

    proof fn lemma_extract_len() {
    }
}

impl<T0, T1, T2, T3, T4, T5, T6, T7, T8> TypedExtract<1, 3, (T1, T2)>
    for (T0, T1, T2, T3, T4, T5, T6, T7, T8)
{
    open spec fn spec_extract(self) -> (T1, T2) {
        (self.1, self.2)
    }

    open spec fn spec_source_len() -> nat {
        9
    }

    fn extract(self) -> (r: (T1, T2)) {
        (self.1, self.2)
    }

    proof fn lemma_extract_len() {
    }
}

impl<T0, T1, T2, T3, T4, T5, T6, T7, T8> TypedExtract<1, 4, (T1, T2, T3)>
    for (T0, T1, T2, T3, T4, T5, T6, T7, T8)
{
    open spec fn spec_extract(self) -> (T1, T2, T3) {
        (self.1, self.2, self.3)
    }

    open spec fn spec_source_len() -> nat {
        9
    }

    fn extract(self) -> (r: (T1, T2, T3)) {
        (self.1, self.2, self.3)
    }

    proof fn lemma_extract_len() {
    }
}

impl<T0, T1, T2, T3, T4, T5, T6, T7, T8> TypedExtract<1, 5, (T1, T2, T3, T4)>
    for (T0, T1, T2, T3, T4, T5, T6, T7, T8)
{
    open spec fn spec_extract(self) -> (T1, T2, T3, T4) {
        (self.1, self.2, self.3, self.4)
    }

    open spec fn spec_source_len() -> nat {
        9
    }

    fn extract(self) -> (r: (T1, T2, T3, T4)) {
        (self.1, self.2, self.3, self.4)
    }

    proof fn lemma_extract_len() {
    }
}

impl<T0, T1, T2, T3, T4, T5, T6, T7, T8> TypedExtract<1, 6, (T1, T2, T3, T4, T5)>
    for (T0, T1, T2, T3, T4, T5, T6, T7, T8)
{
    open spec fn spec_extract(self) -> (T1, T2, T3, T4, T5) {
        (self.1, self.2, self.3, self.4, self.5)
    }

    open spec fn spec_source_len() -> nat {
        9
    }

    fn extract(self) -> (r: (T1, T2, T3, T4, T5)) {
        (self.1, self.2, self.3, self.4, self.5)
    }

    proof fn lemma_extract_len() {
    }
}

impl<T0, T1, T2, T3, T4, T5, T6, T7, T8> TypedExtract<1, 7, (T1, T2, T3, T4, T5, T6)>
    for (T0, T1, T2, T3, T4, T5, T6, T7, T8)
{
    open spec fn spec_extract(self) -> (T1, T2, T3, T4, T5, T6) {
        (self.1, self.2, self.3, self.4, self.5, self.6)
    }

    open spec fn spec_source_len() -> nat {
        9
    }

    fn extract(self) -> (r: (T1, T2, T3, T4, T5, T6)) {
        (self.1, self.2, self.3, self.4, self.5, self.6)
    }

    proof fn lemma_extract_len() {
    }
}

impl<T0, T1, T2, T3, T4, T5, T6, T7, T8> TypedExtract<1, 8, (T1, T2, T3, T4, T5, T6, T7)>
    for (T0, T1, T2, T3, T4, T5, T6, T7, T8)
{
    open spec fn spec_extract(self) -> (T1, T2, T3, T4, T5, T6, T7) {
        (self.1, self.2, self.3, self.4, self.5, self.6, self.7)
    }

    open spec fn spec_source_len() -> nat {
        9
    }

    fn extract(self) -> (r: (T1, T2, T3, T4, T5, T6, T7)) {
        (self.1, self.2, self.3, self.4, self.5, self.6, self.7)
    }

    proof fn lemma_extract_len() {
    }
}

impl<T0, T1, T2, T3, T4, T5, T6, T7, T8> TypedExtract<1, 9, (T1, T2, T3, T4, T5, T6, T7, T8)>
    for (T0, T1, T2, T3, T4, T5, T6, T7, T8)
{
    open spec fn spec_extract(self) -> (T1, T2, T3, T4, T5, T6, T7, T8) {
        (self.1, self.2, self.3, self.4, self.5, self.6, self.7, self.8)
    }

    open spec fn spec_source_len() -> nat {
        9
    }

    fn extract(self) -> (r: (T1, T2, T3, T4, T5, T6, T7, T8)) {
        (self.1, self.2, self.3, self.4, self.5, self.6, self.7, self.8)
    }

    proof fn lemma_extract_len() {
    }
}

impl<T0, T1, T2, T3, T4, T5, T6, T7, T8> TypedExtract<2, 2, ()>
    for (T0, T1, T2, T3, T4, T5, T6, T7, T8)
{
    open spec fn spec_extract(self) -> () {
        ()
    }

    open spec fn spec_source_len() -> nat {
        9
    }

    fn extract(self) -> (r: ()) {
        ()
    }

    proof fn lemma_extract_len() {
    }
}

impl<T0, T1, T2, T3, T4, T5, T6, T7, T8> TypedExtract<2, 3, (T2,)>
    for (T0, T1, T2, T3, T4, T5, T6, T7, T8)
{
    open spec fn spec_extract(self) -> (T2,) {
        (self.2,)
    }

    open spec fn spec_source_len() -> nat {
        9
    }

    fn extract(self) -> (r: (T2,)) {
        (self.2,)
    }

    proof fn lemma_extract_len() {
    }
}

impl<T0, T1, T2, T3, T4, T5, T6, T7, T8> TypedExtract<2, 4, (T2, T3)>
    for (T0, T1, T2, T3, T4, T5, T6, T7, T8)
{
    open spec fn spec_extract(self) -> (T2, T3) {
        (self.2, self.3)
    }

    open spec fn spec_source_len() -> nat {
        9
    }

    fn extract(self) -> (r: (T2, T3)) {
        (self.2, self.3)
    }

    proof fn lemma_extract_len() {
    }
}

impl<T0, T1, T2, T3, T4, T5, T6, T7, T8> TypedExtract<2, 5, (T2, T3, T4)>
    for (T0, T1, T2, T3, T4, T5, T6, T7, T8)
{
    open spec fn spec_extract(self) -> (T2, T3, T4) {
        (self.2, self.3, self.4)
    }

    open spec fn spec_source_len() -> nat {
        9
    }

    fn extract(self) -> (r: (T2, T3, T4)) {
        (self.2, self.3, self.4)
    }

    proof fn lemma_extract_len() {
    }
}

impl<T0, T1, T2, T3, T4, T5, T6, T7, T8> TypedExtract<2, 6, (T2, T3, T4, T5)>
    for (T0, T1, T2, T3, T4, T5, T6, T7, T8)
{
    open spec fn spec_extract(self) -> (T2, T3, T4, T5) {
        (self.2, self.3, self.4, self.5)
    }

    open spec fn spec_source_len() -> nat {
        9
    }

    fn extract(self) -> (r: (T2, T3, T4, T5)) {
        (self.2, self.3, self.4, self.5)
    }

    proof fn lemma_extract_len() {
    }
}

impl<T0, T1, T2, T3, T4, T5, T6, T7, T8> TypedExtract<2, 7, (T2, T3, T4, T5, T6)>
    for (T0, T1, T2, T3, T4, T5, T6, T7, T8)
{
    open spec fn spec_extract(self) -> (T2, T3, T4, T5, T6) {
        (self.2, self.3, self.4, self.5, self.6)
    }

    open spec fn spec_source_len() -> nat {
        9
    }

    fn extract(self) -> (r: (T2, T3, T4, T5, T6)) {
        (self.2, self.3, self.4, self.5, self.6)
    }

    proof fn lemma_extract_len() {
    }
}

impl<T0, T1, T2, T3, T4, T5, T6, T7, T8> TypedExtract<2, 8, (T2, T3, T4, T5, T6, T7)>
    for (T0, T1, T2, T3, T4, T5, T6, T7, T8)
{
    open spec fn spec_extract(self) -> (T2, T3, T4, T5, T6, T7) {
        (self.2, self.3, self.4, self.5, self.6, self.7)
    }

    open spec fn spec_source_len() -> nat {
        9
    }

    fn extract(self) -> (r: (T2, T3, T4, T5, T6, T7)) {
        (self.2, self.3, self.4, self.5, self.6, self.7)
    }

    proof fn lemma_extract_len() {
    }
}

impl<T0, T1, T2, T3, T4, T5, T6, T7, T8> TypedExtract<2, 9, (T2, T3, T4, T5, T6, T7, T8)>
    for (T0, T1, T2, T3, T4, T5, T6, T7, T8)
{
    open spec fn spec_extract(self) -> (T2, T3, T4, T5, T6, T7, T8) {
        (self.2, self.3, self.4, self.5, self.6, self.7, self.8)
    }

    open spec fn spec_source_len() -> nat {
        9
    }

    fn extract(self) -> (r: (T2, T3, T4, T5, T6, T7, T8)) {
        (self.2, self.3, self.4, self.5, self.6, self.7, self.8)
    }

    proof fn lemma_extract_len() {
    }
}

impl<T0, T1, T2, T3, T4, T5, T6, T7, T8> TypedExtract<3, 3, ()>
    for (T0, T1, T2, T3, T4, T5, T6, T7, T8)
{
    open spec fn spec_extract(self) -> () {
        ()
    }

    open spec fn spec_source_len() -> nat {
        9
    }

    fn extract(self) -> (r: ()) {
        ()
    }

    proof fn lemma_extract_len() {
    }
}

impl<T0, T1, T2, T3, T4, T5, T6, T7, T8> TypedExtract<3, 4, (T3,)>
    for (T0, T1, T2, T3, T4, T5, T6, T7, T8)
{
    open spec fn spec_extract(self) -> (T3,) {
        (self.3,)
    }

    open spec fn spec_source_len() -> nat {
        9
    }

    fn extract(self) -> (r: (T3,)) {
        (self.3,)
    }

    proof fn lemma_extract_len() {
    }
}

impl<T0, T1, T2, T3, T4, T5, T6, T7, T8> TypedExtract<3, 5, (T3, T4)>
    for (T0, T1, T2, T3, T4, T5, T6, T7, T8)
{
    open spec fn spec_extract(self) -> (T3, T4) {
        (self.3, self.4)
    }

    open spec fn spec_source_len() -> nat {
        9
    }

    fn extract(self) -> (r: (T3, T4)) {
        (self.3, self.4)
    }

    proof fn lemma_extract_len() {
    }
}

impl<T0, T1, T2, T3, T4, T5, T6, T7, T8> TypedExtract<3, 6, (T3, T4, T5)>
    for (T0, T1, T2, T3, T4, T5, T6, T7, T8)
{
    open spec fn spec_extract(self) -> (T3, T4, T5) {
        (self.3, self.4, self.5)
    }

    open spec fn spec_source_len() -> nat {
        9
    }

    fn extract(self) -> (r: (T3, T4, T5)) {
        (self.3, self.4, self.5)
    }

    proof fn lemma_extract_len() {
    }
}

impl<T0, T1, T2, T3, T4, T5, T6, T7, T8> TypedExtract<3, 7, (T3, T4, T5, T6)>
    for (T0, T1, T2, T3, T4, T5, T6, T7, T8)
{
    open spec fn spec_extract(self) -> (T3, T4, T5, T6) {
        (self.3, self.4, self.5, self.6)
    }

    open spec fn spec_source_len() -> nat {
        9
    }

    fn extract(self) -> (r: (T3, T4, T5, T6)) {
        (self.3, self.4, self.5, self.6)
    }

    proof fn lemma_extract_len() {
    }
}

impl<T0, T1, T2, T3, T4, T5, T6, T7, T8> TypedExtract<3, 8, (T3, T4, T5, T6, T7)>
    for (T0, T1, T2, T3, T4, T5, T6, T7, T8)
{
    open spec fn spec_extract(self) -> (T3, T4, T5, T6, T7) {
        (self.3, self.4, self.5, self.6, self.7)
    }

    open spec fn spec_source_len() -> nat {
        9
    }

    fn extract(self) -> (r: (T3, T4, T5, T6, T7)) {
        (self.3, self.4, self.5, self.6, self.7)
    }

    proof fn lemma_extract_len() {
    }
}

impl<T0, T1, T2, T3, T4, T5, T6, T7, T8> TypedExtract<3, 9, (T3, T4, T5, T6, T7, T8)>
    for (T0, T1, T2, T3, T4, T5, T6, T7, T8)
{
    open spec fn spec_extract(self) -> (T3, T4, T5, T6, T7, T8) {
        (self.3, self.4, self.5, self.6, self.7, self.8)
    }

    open spec fn spec_source_len() -> nat {
        9
    }

    fn extract(self) -> (r: (T3, T4, T5, T6, T7, T8)) {
        (self.3, self.4, self.5, self.6, self.7, self.8)
    }

    proof fn lemma_extract_len() {
    }
}

impl<T0, T1, T2, T3, T4, T5, T6, T7, T8> TypedExtract<4, 4, ()>
    for (T0, T1, T2, T3, T4, T5, T6, T7, T8)
{
    open spec fn spec_extract(self) -> () {
        ()
    }

    open spec fn spec_source_len() -> nat {
        9
    }

    fn extract(self) -> (r: ()) {
        ()
    }

    proof fn lemma_extract_len() {
    }
}

impl<T0, T1, T2, T3, T4, T5, T6, T7, T8> TypedExtract<4, 5, (T4,)>
    for (T0, T1, T2, T3, T4, T5, T6, T7, T8)
{
    open spec fn spec_extract(self) -> (T4,) {
        (self.4,)
    }

    open spec fn spec_source_len() -> nat {
        9
    }

    fn extract(self) -> (r: (T4,)) {
        (self.4,)
    }

    proof fn lemma_extract_len() {
    }
}

impl<T0, T1, T2, T3, T4, T5, T6, T7, T8> TypedExtract<4, 6, (T4, T5)>
    for (T0, T1, T2, T3, T4, T5, T6, T7, T8)
{
    open spec fn spec_extract(self) -> (T4, T5) {
        (self.4, self.5)
    }

    open spec fn spec_source_len() -> nat {
        9
    }

    fn extract(self) -> (r: (T4, T5)) {
        (self.4, self.5)
    }

    proof fn lemma_extract_len() {
    }
}

impl<T0, T1, T2, T3, T4, T5, T6, T7, T8> TypedExtract<4, 7, (T4, T5, T6)>
    for (T0, T1, T2, T3, T4, T5, T6, T7, T8)
{
    open spec fn spec_extract(self) -> (T4, T5, T6) {
        (self.4, self.5, self.6)
    }

    open spec fn spec_source_len() -> nat {
        9
    }

    fn extract(self) -> (r: (T4, T5, T6)) {
        (self.4, self.5, self.6)
    }

    proof fn lemma_extract_len() {
    }
}

impl<T0, T1, T2, T3, T4, T5, T6, T7, T8> TypedExtract<4, 8, (T4, T5, T6, T7)>
    for (T0, T1, T2, T3, T4, T5, T6, T7, T8)
{
    open spec fn spec_extract(self) -> (T4, T5, T6, T7) {
        (self.4, self.5, self.6, self.7)
    }

    open spec fn spec_source_len() -> nat {
        9
    }

    fn extract(self) -> (r: (T4, T5, T6, T7)) {
        (self.4, self.5, self.6, self.7)
    }

    proof fn lemma_extract_len() {
    }
}

impl<T0, T1, T2, T3, T4, T5, T6, T7, T8> TypedExtract<4, 9, (T4, T5, T6, T7, T8)>
    for (T0, T1, T2, T3, T4, T5, T6, T7, T8)
{
    open spec fn spec_extract(self) -> (T4, T5, T6, T7, T8) {
        (self.4, self.5, self.6, self.7, self.8)
    }

    open spec fn spec_source_len() -> nat {
        9
    }

    fn extract(self) -> (r: (T4, T5, T6, T7, T8)) {
        (self.4, self.5, self.6, self.7, self.8)
    }

    proof fn lemma_extract_len() {
    }
}

impl<T0, T1, T2, T3, T4, T5, T6, T7, T8> TypedExtract<5, 5, ()>
    for (T0, T1, T2, T3, T4, T5, T6, T7, T8)
{
    open spec fn spec_extract(self) -> () {
        ()
    }

    open spec fn spec_source_len() -> nat {
        9
    }

    fn extract(self) -> (r: ()) {
        ()
    }

    proof fn lemma_extract_len() {
    }
}

impl<T0, T1, T2, T3, T4, T5, T6, T7, T8> TypedExtract<5, 6, (T5,)>
    for (T0, T1, T2, T3, T4, T5, T6, T7, T8)
{
    open spec fn spec_extract(self) -> (T5,) {
        (self.5,)
    }

    open spec fn spec_source_len() -> nat {
        9
    }

    fn extract(self) -> (r: (T5,)) {
        (self.5,)
    }

    proof fn lemma_extract_len() {
    }
}

impl<T0, T1, T2, T3, T4, T5, T6, T7, T8> TypedExtract<5, 7, (T5, T6)>
    for (T0, T1, T2, T3, T4, T5, T6, T7, T8)
{
    open spec fn spec_extract(self) -> (T5, T6) {
        (self.5, self.6)
    }

    open spec fn spec_source_len() -> nat {
        9
    }

    fn extract(self) -> (r: (T5, T6)) {
        (self.5, self.6)
    }

    proof fn lemma_extract_len() {
    }
}

impl<T0, T1, T2, T3, T4, T5, T6, T7, T8> TypedExtract<5, 8, (T5, T6, T7)>
    for (T0, T1, T2, T3, T4, T5, T6, T7, T8)
{
    open spec fn spec_extract(self) -> (T5, T6, T7) {
        (self.5, self.6, self.7)
    }

    open spec fn spec_source_len() -> nat {
        9
    }

    fn extract(self) -> (r: (T5, T6, T7)) {
        (self.5, self.6, self.7)
    }

    proof fn lemma_extract_len() {
    }
}

impl<T0, T1, T2, T3, T4, T5, T6, T7, T8> TypedExtract<5, 9, (T5, T6, T7, T8)>
    for (T0, T1, T2, T3, T4, T5, T6, T7, T8)
{
    open spec fn spec_extract(self) -> (T5, T6, T7, T8) {
        (self.5, self.6, self.7, self.8)
    }

    open spec fn spec_source_len() -> nat {
        9
    }

    fn extract(self) -> (r: (T5, T6, T7, T8)) {
        (self.5, self.6, self.7, self.8)
    }

    proof fn lemma_extract_len() {
    }
}

impl<T0, T1, T2, T3, T4, T5, T6, T7, T8> TypedExtract<6, 6, ()>
    for (T0, T1, T2, T3, T4, T5, T6, T7, T8)
{
    open spec fn spec_extract(self) -> () {
        ()
    }

    open spec fn spec_source_len() -> nat {
        9
    }

    fn extract(self) -> (r: ()) {
        ()
    }

    proof fn lemma_extract_len() {
    }
}

impl<T0, T1, T2, T3, T4, T5, T6, T7, T8> TypedExtract<6, 7, (T6,)>
    for (T0, T1, T2, T3, T4, T5, T6, T7, T8)
{
    open spec fn spec_extract(self) -> (T6,) {
        (self.6,)
    }

    open spec fn spec_source_len() -> nat {
        9
    }

    fn extract(self) -> (r: (T6,)) {
        (self.6,)
    }

    proof fn lemma_extract_len() {
    }
}

impl<T0, T1, T2, T3, T4, T5, T6, T7, T8> TypedExtract<6, 8, (T6, T7)>
    for (T0, T1, T2, T3, T4, T5, T6, T7, T8)
{
    open spec fn spec_extract(self) -> (T6, T7) {
        (self.6, self.7)
    }

    open spec fn spec_source_len() -> nat {
        9
    }

    fn extract(self) -> (r: (T6, T7)) {
        (self.6, self.7)
    }

    proof fn lemma_extract_len() {
    }
}

impl<T0, T1, T2, T3, T4, T5, T6, T7, T8> TypedExtract<6, 9, (T6, T7, T8)>
    for (T0, T1, T2, T3, T4, T5, T6, T7, T8)
{
    open spec fn spec_extract(self) -> (T6, T7, T8) {
        (self.6, self.7, self.8)
    }

    open spec fn spec_source_len() -> nat {
        9
    }

    fn extract(self) -> (r: (T6, T7, T8)) {
        (self.6, self.7, self.8)
    }

    proof fn lemma_extract_len() {
    }
}

impl<T0, T1, T2, T3, T4, T5, T6, T7, T8> TypedExtract<7, 7, ()>
    for (T0, T1, T2, T3, T4, T5, T6, T7, T8)
{
    open spec fn spec_extract(self) -> () {
        ()
    }

    open spec fn spec_source_len() -> nat {
        9
    }

    fn extract(self) -> (r: ()) {
        ()
    }

    proof fn lemma_extract_len() {
    }
}

impl<T0, T1, T2, T3, T4, T5, T6, T7, T8> TypedExtract<7, 8, (T7,)>
    for (T0, T1, T2, T3, T4, T5, T6, T7, T8)
{
    open spec fn spec_extract(self) -> (T7,) {
        (self.7,)
    }

    open spec fn spec_source_len() -> nat {
        9
    }

    fn extract(self) -> (r: (T7,)) {
        (self.7,)
    }

    proof fn lemma_extract_len() {
    }
}

impl<T0, T1, T2, T3, T4, T5, T6, T7, T8> TypedExtract<7, 9, (T7, T8)>
    for (T0, T1, T2, T3, T4, T5, T6, T7, T8)
{
    open spec fn spec_extract(self) -> (T7, T8) {
        (self.7, self.8)
    }

    open spec fn spec_source_len() -> nat {
        9
    }

    fn extract(self) -> (r: (T7, T8)) {
        (self.7, self.8)
    }

    proof fn lemma_extract_len() {
    }
}

impl<T0, T1, T2, T3, T4, T5, T6, T7, T8> TypedExtract<8, 8, ()>
    for (T0, T1, T2, T3, T4, T5, T6, T7, T8)
{
    open spec fn spec_extract(self) -> () {
        ()
    }

    open spec fn spec_source_len() -> nat {
        9
    }

    fn extract(self) -> (r: ()) {
        ()
    }

    proof fn lemma_extract_len() {
    }
}

impl<T0, T1, T2, T3, T4, T5, T6, T7, T8> TypedExtract<8, 9, (T8,)>
    for (T0, T1, T2, T3, T4, T5, T6, T7, T8)
{
    open spec fn spec_extract(self) -> (T8,) {
        (self.8,)
    }

    open spec fn spec_source_len() -> nat {
        9
    }

    fn extract(self) -> (r: (T8,)) {
        (self.8,)
    }

    proof fn lemma_extract_len() {
    }
}

impl<T0, T1, T2, T3, T4, T5, T6, T7, T8, T9> TypedExtract<0, 0, ()>
    for (T0, T1, T2, T3, T4, T5, T6, T7, T8, T9)
{
    open spec fn spec_extract(self) -> () {
        ()
    }

    open spec fn spec_source_len() -> nat {
        10
    }

    fn extract(self) -> (r: ()) {
        ()
    }

    proof fn lemma_extract_len() {
    }
}

impl<T0, T1, T2, T3, T4, T5, T6, T7, T8, T9> TypedExtract<0, 1, (T0,)>
    for (T0, T1, T2, T3, T4, T5, T6, T7, T8, T9)
{
    open spec fn spec_extract(self) -> (T0,) {
        (self.0,)
    }

    open spec fn spec_source_len() -> nat {
        10
    }

    fn extract(self) -> (r: (T0,)) {
        (self.0,)
    }

    proof fn lemma_extract_len() {
    }
}

impl<T0, T1, T2, T3, T4, T5, T6, T7, T8, T9> TypedExtract<0, 2, (T0, T1)>
    for (T0, T1, T2, T3, T4, T5, T6, T7, T8, T9)
{
    open spec fn spec_extract(self) -> (T0, T1) {
        (self.0, self.1)
    }

    open spec fn spec_source_len() -> nat {
        10
    }

    fn extract(self) -> (r: (T0, T1)) {
        (self.0, self.1)
    }

    proof fn lemma_extract_len() {
    }
}

impl<T0, T1, T2, T3, T4, T5, T6, T7, T8, T9> TypedExtract<0, 3, (T0, T1, T2)>
    for (T0, T1, T2, T3, T4, T5, T6, T7, T8, T9)
{
    open spec fn spec_extract(self) -> (T0, T1, T2) {
        (self.0, self.1, self.2)
    }

    open spec fn spec_source_len() -> nat {
        10
    }

    fn extract(self) -> (r: (T0, T1, T2)) {
        (self.0, self.1, self.2)
    }

    proof fn lemma_extract_len() {
    }
}

impl<T0, T1, T2, T3, T4, T5, T6, T7, T8, T9> TypedExtract<0, 4, (T0, T1, T2, T3)>
    for (T0, T1, T2, T3, T4, T5, T6, T7, T8, T9)
{
    open spec fn spec_extract(self) -> (T0, T1, T2, T3) {
        (self.0, self.1, self.2, self.3)
    }

    open spec fn spec_source_len() -> nat {
        10
    }

    fn extract(self) -> (r: (T0, T1, T2, T3)) {
        (self.0, self.1, self.2, self.3)
    }

    proof fn lemma_extract_len() {
    }
}

impl<T0, T1, T2, T3, T4, T5, T6, T7, T8, T9> TypedExtract<0, 5, (T0, T1, T2, T3, T4)>
    for (T0, T1, T2, T3, T4, T5, T6, T7, T8, T9)
{
    open spec fn spec_extract(self) -> (T0, T1, T2, T3, T4) {
        (self.0, self.1, self.2, self.3, self.4)
    }

    open spec fn spec_source_len() -> nat {
        10
    }

    fn extract(self) -> (r: (T0, T1, T2, T3, T4)) {
        (self.0, self.1, self.2, self.3, self.4)
    }

    proof fn lemma_extract_len() {
    }
}

impl<T0, T1, T2, T3, T4, T5, T6, T7, T8, T9> TypedExtract<0, 6, (T0, T1, T2, T3, T4, T5)>
    for (T0, T1, T2, T3, T4, T5, T6, T7, T8, T9)
{
    open spec fn spec_extract(self) -> (T0, T1, T2, T3, T4, T5) {
        (self.0, self.1, self.2, self.3, self.4, self.5)
    }

    open spec fn spec_source_len() -> nat {
        10
    }

    fn extract(self) -> (r: (T0, T1, T2, T3, T4, T5)) {
        (self.0, self.1, self.2, self.3, self.4, self.5)
    }

    proof fn lemma_extract_len() {
    }
}

impl<T0, T1, T2, T3, T4, T5, T6, T7, T8, T9> TypedExtract<0, 7, (T0, T1, T2, T3, T4, T5, T6)>
    for (T0, T1, T2, T3, T4, T5, T6, T7, T8, T9)
{
    open spec fn spec_extract(self) -> (T0, T1, T2, T3, T4, T5, T6) {
        (self.0, self.1, self.2, self.3, self.4, self.5, self.6)
    }

    open spec fn spec_source_len() -> nat {
        10
    }

    fn extract(self) -> (r: (T0, T1, T2, T3, T4, T5, T6)) {
        (self.0, self.1, self.2, self.3, self.4, self.5, self.6)
    }

    proof fn lemma_extract_len() {
    }
}

impl<T0, T1, T2, T3, T4, T5, T6, T7, T8, T9> TypedExtract<0, 8, (T0, T1, T2, T3, T4, T5, T6, T7)>
    for (T0, T1, T2, T3, T4, T5, T6, T7, T8, T9)
{
    open spec fn spec_extract(self) -> (T0, T1, T2, T3, T4, T5, T6, T7) {
        (self.0, self.1, self.2, self.3, self.4, self.5, self.6, self.7)
    }

    open spec fn spec_source_len() -> nat {
        10
    }

    fn extract(self) -> (r: (T0, T1, T2, T3, T4, T5, T6, T7)) {
        (self.0, self.1, self.2, self.3, self.4, self.5, self.6, self.7)
    }

    proof fn lemma_extract_len() {
    }
}

impl<T0, T1, T2, T3, T4, T5, T6, T7, T8, T9> TypedExtract<0, 9, (T0, T1, T2, T3, T4, T5, T6, T7,
    T8)>
    for (T0, T1, T2, T3, T4, T5, T6, T7, T8, T9)
{
    open spec fn spec_extract(self) -> (T0, T1, T2, T3, T4, T5, T6, T7, T8) {
        (self.0, self.1, self.2, self.3, self.4, self.5, self.6, self.7, self.8)
    }

    open spec fn spec_source_len() -> nat {
        10
    }

    fn extract(self) -> (r: (T0, T1, T2, T3, T4, T5, T6, T7, T8)) {
        (self.0, self.1, self.2, self.3, self.4, self.5, self.6, self.7, self.8)
    }

    proof fn lemma_extract_len() {
    }
}

impl<T0, T1, T2, T3, T4, T5, T6, T7, T8, T9> TypedExtract<0, 10, (T0, T1, T2, T3, T4, T5, T6, T7,
    T8, T9)>
    for (T0, T1, T2, T3, T4, T5, T6, T7, T8, T9)
{
    open spec fn spec_extract(self) -> (T0, T1, T2, T3, T4, T5, T6, T7, T8, T9) {
        (self.0, self.1, self.2, self.3, self.4, self.5, self.6, self.7, self.8, self.9)
    }

    open spec fn spec_source_len() -> nat {
        10
    }

    fn extract(self) -> (r: (T0, T1, T2, T3, T4, T5, T6, T7, T8, T9)) {
        (self.0, self.1, self.2, self.3, self.4, self.5, self.6, self.7, self.8, self.9)
    }

    proof fn lemma_extract_len() {
    }
}

impl<T0, T1, T2, T3, T4, T5, T6, T7, T8, T9> TypedExtract<1, 1, ()>
    for (T0, T1, T2, T3, T4, T5, T6, T7, T8, T9)
{
    open spec fn spec_extract(self) -> () {
        ()
    }

    open spec fn spec_source_len() -> nat {
        10
    }

    fn extract(self) -> (r: ()) {
        ()
    }

    proof fn lemma_extract_len() {
    }
}

impl<T0, T1, T2, T3, T4, T5, T6, T7, T8, T9> TypedExtract<1, 2, (T1,)>
    for (T0, T1, T2, T3, T4, T5, T6, T7, T8, T9)
{
    open spec fn spec_extract(self) -> (T1,) {
        (self.1,)
    }

    open spec fn spec_source_len() -> nat {
        10
    }

    fn extract(self) -> (r: (T1,)) {
        (self.1,)
    }

    proof fn lemma_extract_len() {
    }
}

impl<T0, T1, T2, T3, T4, T5, T6, T7, T8, T9> TypedExtract<1, 3, (T1, T2)>
    for (T0, T1, T2, T3, T4, T5, T6, T7, T8, T9)
{
    open spec fn spec_extract(self) -> (T1, T2) {
        (self.1, self.2)
    }

    open spec fn spec_source_len() -> nat {
        10
    }

    fn extract(self) -> (r: (T1, T2)) {
        (self.1, self.2)
    }

    proof fn lemma_extract_len() {
    }
}

impl<T0, T1, T2, T3, T4, T5, T6, T7, T8, T9> TypedExtract<1, 4, (T1, T2, T3)>
    for (T0, T1, T2, T3, T4, T5, T6, T7, T8, T9)
{
    open spec fn spec_extract(self) -> (T1, T2, T3) {
        (self.1, self.2, self.3)
    }

    open spec fn spec_source_len() -> nat {
        10
    }

    fn extract(self) -> (r: (T1, T2, T3)) {
        (self.1, self.2, self.3)
    }

    proof fn lemma_extract_len() {
    }
}

impl<T0, T1, T2, T3, T4, T5, T6, T7, T8, T9> TypedExtract<1, 5, (T1, T2, T3, T4)>
    for (T0, T1, T2, T3, T4, T5, T6, T7, T8, T9)
{
    open spec fn spec_extract(self) -> (T1, T2, T3, T4) {
        (self.1, self.2, self.3, self.4)
    }

    open spec fn spec_source_len() -> nat {
        10
    }

    fn extract(self) -> (r: (T1, T2, T3, T4)) {
        (self.1, self.2, self.3, self.4)
    }

    proof fn lemma_extract_len() {
    }
}

impl<T0, T1, T2, T3, T4, T5, T6, T7, T8, T9> TypedExtract<1, 6, (T1, T2, T3, T4, T5)>
    for (T0, T1, T2, T3, T4, T5, T6, T7, T8, T9)
{
    open spec fn spec_extract(self) -> (T1, T2, T3, T4, T5) {
        (self.1, self.2, self.3, self.4, self.5)
    }

    open spec fn spec_source_len() -> nat {
        10
    }

    fn extract(self) -> (r: (T1, T2, T3, T4, T5)) {
        (self.1, self.2, self.3, self.4, self.5)
    }

    proof fn lemma_extract_len() {
    }
}

impl<T0, T1, T2, T3, T4, T5, T6, T7, T8, T9> TypedExtract<1, 7, (T1, T2, T3, T4, T5, T6)>
    for (T0, T1, T2, T3, T4, T5, T6, T7, T8, T9)
{
    open spec fn spec_extract(self) -> (T1, T2, T3, T4, T5, T6) {
        (self.1, self.2, self.3, self.4, self.5, self.6)
    }

    open spec fn spec_source_len() -> nat {
        10
    }

    fn extract(self) -> (r: (T1, T2, T3, T4, T5, T6)) {
        (self.1, self.2, self.3, self.4, self.5, self.6)
    }

    proof fn lemma_extract_len() {
    }
}

impl<T0, T1, T2, T3, T4, T5, T6, T7, T8, T9> TypedExtract<1, 8, (T1, T2, T3, T4, T5, T6, T7)>
    for (T0, T1, T2, T3, T4, T5, T6, T7, T8, T9)
{
    open spec fn spec_extract(self) -> (T1, T2, T3, T4, T5, T6, T7) {
        (self.1, self.2, self.3, self.4, self.5, self.6, self.7)
    }

    open spec fn spec_source_len() -> nat {
        10
    }

    fn extract(self) -> (r: (T1, T2, T3, T4, T5, T6, T7)) {
        (self.1, self.2, self.3, self.4, self.5, self.6, self.7)
    }

    proof fn lemma_extract_len() {
    }
}

impl<T0, T1, T2, T3, T4, T5, T6, T7, T8, T9> TypedExtract<1, 9, (T1, T2, T3, T4, T5, T6, T7, T8)>
    for (T0, T1, T2, T3, T4, T5, T6, T7, T8, T9)
{
    open spec fn spec_extract(self) -> (T1, T2, T3, T4, T5, T6, T7, T8) {
        (self.1, self.2, self.3, self.4, self.5, self.6, self.7, self.8)
    }

    open spec fn spec_source_len() -> nat {
        10
    }

    fn extract(self) -> (r: (T1, T2, T3, T4, T5, T6, T7, T8)) {
        (self.1, self.2, self.3, self.4, self.5, self.6, self.7, self.8)
    }

    proof fn lemma_extract_len() {
    }
}

impl<T0, T1, T2, T3, T4, T5, T6, T7, T8, T9> TypedExtract<1, 10, (T1, T2, T3, T4, T5, T6, T7, T8,
    T9)>
    for (T0, T1, T2, T3, T4, T5, T6, T7, T8, T9)
{
    open spec fn spec_extract(self) -> (T1, T2, T3, T4, T5, T6, T7, T8, T9) {
        (self.1, self.2, self.3, self.4, self.5, self.6, self.7, self.8, self.9)
    }

    open spec fn spec_source_len() -> nat {
        10
    }

    fn extract(self) -> (r: (T1, T2, T3, T4, T5, T6, T7, T8, T9)) {
        (self.1, self.2, self.3, self.4, self.5, self.6, self.7, self.8, self.9)
    }

    proof fn lemma_extract_len() {
    }
}

impl<T0, T1, T2, T3, T4, T5, T6, T7, T8, T9> TypedExtract<2, 2, ()>
    for (T0, T1, T2, T3, T4, T5, T6, T7, T8, T9)
{
    open spec fn spec_extract(self) -> () {
        ()
    }

    open spec fn spec_source_len() -> nat {
        10
    }

    fn extract(self) -> (r: ()) {
        ()
    }

    proof fn lemma_extract_len() {
    }
}

impl<T0, T1, T2, T3, T4, T5, T6, T7, T8, T9> TypedExtract<2, 3, (T2,)>
    for (T0, T1, T2, T3, T4, T5, T6, T7, T8, T9)
{
    open spec fn spec_extract(self) -> (T2,) {
        (self.2,)
    }

    open spec fn spec_source_len() -> nat {
        10
    }

    fn extract(self) -> (r: (T2,)) {
        (self.2,)
    }

    proof fn lemma_extract_len() {
    }
}

impl<T0, T1, T2, T3, T4, T5, T6, T7, T8, T9> TypedExtract<2, 4, (T2, T3)>
    for (T0, T1, T2, T3, T4, T5, T6, T7, T8, T9)
{
    open spec fn spec_extract(self) -> (T2, T3) {
        (self.2, self.3)
    }

    open spec fn spec_source_len() -> nat {
        10
    }

    fn extract(self) -> (r: (T2, T3)) {
        (self.2, self.3)
    }

    proof fn lemma_extract_len() {
    }
}

impl<T0, T1, T2, T3, T4, T5, T6, T7, T8, T9> TypedExtract<2, 5, (T2, T3, T4)>
    for (T0, T1, T2, T3, T4, T5, T6, T7, T8, T9)
{
    open spec fn spec_extract(self) -> (T2, T3, T4) {
        (self.2, self.3, self.4)
    }

    open spec fn spec_source_len() -> nat {
        10
    }

    fn extract(self) -> (r: (T2, T3, T4)) {
        (self.2, self.3, self.4)
    }

    proof fn lemma_extract_len() {
    }
}

impl<T0, T1, T2, T3, T4, T5, T6, T7, T8, T9> TypedExtract<2, 6, (T2, T3, T4, T5)>
    for (T0, T1, T2, T3, T4, T5, T6, T7, T8, T9)
{
    open spec fn spec_extract(self) -> (T2, T3, T4, T5) {
        (self.2, self.3, self.4, self.5)
    }

    open spec fn spec_source_len() -> nat {
        10
    }

    fn extract(self) -> (r: (T2, T3, T4, T5)) {
        (self.2, self.3, self.4, self.5)
    }

    proof fn lemma_extract_len() {
    }
}

impl<T0, T1, T2, T3, T4, T5, T6, T7, T8, T9> TypedExtract<2, 7, (T2, T3, T4, T5, T6)>
    for (T0, T1, T2, T3, T4, T5, T6, T7, T8, T9)
{
    open spec fn spec_extract(self) -> (T2, T3, T4, T5, T6) {
        (self.2, self.3, self.4, self.5, self.6)
    }

    open spec fn spec_source_len() -> nat {
        10
    }

    fn extract(self) -> (r: (T2, T3, T4, T5, T6)) {
        (self.2, self.3, self.4, self.5, self.6)
    }

    proof fn lemma_extract_len() {
    }
}

impl<T0, T1, T2, T3, T4, T5, T6, T7, T8, T9> TypedExtract<2, 8, (T2, T3, T4, T5, T6, T7)>
    for (T0, T1, T2, T3, T4, T5, T6, T7, T8, T9)
{
    open spec fn spec_extract(self) -> (T2, T3, T4, T5, T6, T7) {
        (self.2, self.3, self.4, self.5, self.6, self.7)
    }

    open spec fn spec_source_len() -> nat {
        10
    }

    fn extract(self) -> (r: (T2, T3, T4, T5, T6, T7)) {
        (self.2, self.3, self.4, self.5, self.6, self.7)
    }

    proof fn lemma_extract_len() {
    }
}

impl<T0, T1, T2, T3, T4, T5, T6, T7, T8, T9> TypedExtract<2, 9, (T2, T3, T4, T5, T6, T7, T8)>
    for (T0, T1, T2, T3, T4, T5, T6, T7, T8, T9)
{
    open spec fn spec_extract(self) -> (T2, T3, T4, T5, T6, T7, T8) {
        (self.2, self.3, self.4, self.5, self.6, self.7, self.8)
    }

    open spec fn spec_source_len() -> nat {
        10
    }

    fn extract(self) -> (r: (T2, T3, T4, T5, T6, T7, T8)) {
        (self.2, self.3, self.4, self.5, self.6, self.7, self.8)
    }

    proof fn lemma_extract_len() {
    }
}

impl<T0, T1, T2, T3, T4, T5, T6, T7, T8, T9> TypedExtract<2, 10, (T2, T3, T4, T5, T6, T7, T8, T9)>
    for (T0, T1, T2, T3, T4, T5, T6, T7, T8, T9)
{
    open spec fn spec_extract(self) -> (T2, T3, T4, T5, T6, T7, T8, T9) {
        (self.2, self.3, self.4, self.5, self.6, self.7, self.8, self.9)
    }

    open spec fn spec_source_len() -> nat {
        10
    }

    fn extract(self) -> (r: (T2, T3, T4, T5, T6, T7, T8, T9)) {
        (self.2, self.3, self.4, self.5, self.6, self.7, self.8, self.9)
    }

    proof fn lemma_extract_len() {
    }
}

impl<T0, T1, T2, T3, T4, T5, T6, T7, T8, T9> TypedExtract<3, 3, ()>
    for (T0, T1, T2, T3, T4, T5, T6, T7, T8, T9)
{
    open spec fn spec_extract(self) -> () {
        ()
    }

    open spec fn spec_source_len() -> nat {
        10
    }

    fn extract(self) -> (r: ()) {
        ()
    }

    proof fn lemma_extract_len() {
    }
}

impl<T0, T1, T2, T3, T4, T5, T6, T7, T8, T9> TypedExtract<3, 4, (T3,)>
    for (T0, T1, T2, T3, T4, T5, T6, T7, T8, T9)
{
    open spec fn spec_extract(self) -> (T3,) {
        (self.3,)
    }

    open spec fn spec_source_len() -> nat {
        10
    }

    fn extract(self) -> (r: (T3,)) {
        (self.3,)
    }

    proof fn lemma_extract_len() {
    }
}

impl<T0, T1, T2, T3, T4, T5, T6, T7, T8, T9> TypedExtract<3, 5, (T3, T4)>
    for (T0, T1, T2, T3, T4, T5, T6, T7, T8, T9)
{
    open spec fn spec_extract(self) -> (T3, T4) {
        (self.3, self.4)
    }

    open spec fn spec_source_len() -> nat {
        10
    }

    fn extract(self) -> (r: (T3, T4)) {
        (self.3, self.4)
    }

    proof fn lemma_extract_len() {
    }
}

impl<T0, T1, T2, T3, T4, T5, T6, T7, T8, T9> TypedExtract<3, 6, (T3, T4, T5)>
    for (T0, T1, T2, T3, T4, T5, T6, T7, T8, T9)
{
    open spec fn spec_extract(self) -> (T3, T4, T5) {
        (self.3, self.4, self.5)
    }

    open spec fn spec_source_len() -> nat {
        10
    }

    fn extract(self) -> (r: (T3, T4, T5)) {
        (self.3, self.4, self.5)
    }

    proof fn lemma_extract_len() {
    }
}

impl<T0, T1, T2, T3, T4, T5, T6, T7, T8, T9> TypedExtract<3, 7, (T3, T4, T5, T6)>
    for (T0, T1, T2, T3, T4, T5, T6, T7, T8, T9)
{
    open spec fn spec_extract(self) -> (T3, T4, T5, T6) {
        (self.3, self.4, self.5, self.6)
    }

    open spec fn spec_source_len() -> nat {
        10
    }

    fn extract(self) -> (r: (T3, T4, T5, T6)) {
        (self.3, self.4, self.5, self.6)
    }

    proof fn lemma_extract_len() {
    }
}

impl<T0, T1, T2, T3, T4, T5, T6, T7, T8, T9> TypedExtract<3, 8, (T3, T4, T5, T6, T7)>
    for (T0, T1, T2, T3, T4, T5, T6, T7, T8, T9)
{
    open spec fn spec_extract(self) -> (T3, T4, T5, T6, T7) {
        (self.3, self.4, self.5, self.6, self.7)
    }

    open spec fn spec_source_len() -> nat {
        10
    }

    fn extract(self) -> (r: (T3, T4, T5, T6, T7)) {
        (self.3, self.4, self.5, self.6, self.7)
    }

    proof fn lemma_extract_len() {
    }
}

impl<T0, T1, T2, T3, T4, T5, T6, T7, T8, T9> TypedExtract<3, 9, (T3, T4, T5, T6, T7, T8)>
    for (T0, T1, T2, T3, T4, T5, T6, T7, T8, T9)
{
    open spec fn spec_extract(self) -> (T3, T4, T5, T6, T7, T8) {
        (self.3, self.4, self.5, self.6, self.7, self.8)
    }

    open spec fn spec_source_len() -> nat {
        10
    }

    fn extract(self) -> (r: (T3, T4, T5, T6, T7, T8)) {
        (self.3, self.4, self.5, self.6, self.7, self.8)
    }

    proof fn lemma_extract_len() {
    }
}

impl<T0, T1, T2, T3, T4, T5, T6, T7, T8, T9> TypedExtract<3, 10, (T3, T4, T5, T6, T7, T8, T9)>
    for (T0, T1, T2, T3, T4, T5, T6, T7, T8, T9)
{
    open spec fn spec_extract(self) -> (T3, T4, T5, T6, T7, T8, T9) {
        (self.3, self.4, self.5, self.6, self.7, self.8, self.9)
    }

    open spec fn spec_source_len() -> nat {
        10
    }

    fn extract(self) -> (r: (T3, T4, T5, T6, T7, T8, T9)) {
        (self.3, self.4, self.5, self.6, self.7, self.8, self.9)
    }

    proof fn lemma_extract_len() {
    }
}

impl<T0, T1, T2, T3, T4, T5, T6, T7, T8, T9> TypedExtract<4, 4, ()>
    for (T0, T1, T2, T3, T4, T5, T6, T7, T8, T9)
{
    open spec fn spec_extract(self) -> () {
        ()
    }

    open spec fn spec_source_len() -> nat {
        10
    }

    fn extract(self) -> (r: ()) {
        ()
    }

    proof fn lemma_extract_len() {
    }
}

impl<T0, T1, T2, T3, T4, T5, T6, T7, T8, T9> TypedExtract<4, 5, (T4,)>
    for (T0, T1, T2, T3, T4, T5, T6, T7, T8, T9)
{
    open spec fn spec_extract(self) -> (T4,) {
        (self.4,)
    }

    open spec fn spec_source_len() -> nat {
        10
    }

    fn extract(self) -> (r: (T4,)) {
        (self.4,)
    }

    proof fn lemma_extract_len() {
    }
}

impl<T0, T1, T2, T3, T4, T5, T6, T7, T8, T9> TypedExtract<4, 6, (T4, T5)>
    for (T0, T1, T2, T3, T4, T5, T6, T7, T8, T9)
{
    open spec fn spec_extract(self) -> (T4, T5) {
        (self.4, self.5)
    }

    open spec fn spec_source_len() -> nat {
        10
    }

    fn extract(self) -> (r: (T4, T5)) {
        (self.4, self.5)
    }

    proof fn lemma_extract_len() {
    }
}

impl<T0, T1, T2, T3, T4, T5, T6, T7, T8, T9> TypedExtract<4, 7, (T4, T5, T6)>
    for (T0, T1, T2, T3, T4, T5, T6, T7, T8, T9)
{
    open spec fn spec_extract(self) -> (T4, T5, T6) {
        (self.4, self.5, self.6)
    }

    open spec fn spec_source_len() -> nat {
        10
    }

    fn extract(self) -> (r: (T4, T5, T6)) {
        (self.4, self.5, self.6)
    }

    proof fn lemma_extract_len() {
    }
}

impl<T0, T1, T2, T3, T4, T5, T6, T7, T8, T9> TypedExtract<4, 8, (T4, T5, T6, T7)>
    for (T0, T1, T2, T3, T4, T5, T6, T7, T8, T9)
{
    open spec fn spec_extract(self) -> (T4, T5, T6, T7) {
        (self.4, self.5, self.6, self.7)
    }

    open spec fn spec_source_len() -> nat {
        10
    }

    fn extract(self) -> (r: (T4, T5, T6, T7)) {
        (self.4, self.5, self.6, self.7)
    }

    proof fn lemma_extract_len() {
    }
}

impl<T0, T1, T2, T3, T4, T5, T6, T7, T8, T9> TypedExtract<4, 9, (T4, T5, T6, T7, T8)>
    for (T0, T1, T2, T3, T4, T5, T6, T7, T8, T9)
{
    open spec fn spec_extract(self) -> (T4, T5, T6, T7, T8) {
        (self.4, self.5, self.6, self.7, self.8)
    }

    open spec fn spec_source_len() -> nat {
        10
    }

    fn extract(self) -> (r: (T4, T5, T6, T7, T8)) {
        (self.4, self.5, self.6, self.7, self.8)
    }

    proof fn lemma_extract_len() {
    }
}

impl<T0, T1, T2, T3, T4, T5, T6, T7, T8, T9> TypedExtract<4, 10, (T4, T5, T6, T7, T8, T9)>
    for (T0, T1, T2, T3, T4, T5, T6, T7, T8, T9)
{
    open spec fn spec_extract(self) -> (T4, T5, T6, T7, T8, T9) {
        (self.4, self.5, self.6, self.7, self.8, self.9)
    }

    open spec fn spec_source_len() -> nat {
        10
    }

    fn extract(self) -> (r: (T4, T5, T6, T7, T8, T9)) {
        (self.4, self.5, self.6, self.7, self.8, self.9)
    }

    proof fn lemma_extract_len() {
    }
}

impl<T0, T1, T2, T3, T4, T5, T6, T7, T8, T9> TypedExtract<5, 5, ()>
    for (T0, T1, T2, T3, T4, T5, T6, T7, T8, T9)
{
    open spec fn spec_extract(self) -> () {
        ()
    }

    open spec fn spec_source_len() -> nat {
        10
    }

    fn extract(self) -> (r: ()) {
        ()
    }

    proof fn lemma_extract_len() {
    }
}

impl<T0, T1, T2, T3, T4, T5, T6, T7, T8, T9> TypedExtract<5, 6, (T5,)>
    for (T0, T1, T2, T3, T4, T5, T6, T7, T8, T9)
{
    open spec fn spec_extract(self) -> (T5,) {
        (self.5,)
    }

    open spec fn spec_source_len() -> nat {
        10
    }

    fn extract(self) -> (r: (T5,)) {
        (self.5,)
    }

    proof fn lemma_extract_len() {
    }
}

impl<T0, T1, T2, T3, T4, T5, T6, T7, T8, T9> TypedExtract<5, 7, (T5, T6)>
    for (T0, T1, T2, T3, T4, T5, T6, T7, T8, T9)
{
    open spec fn spec_extract(self) -> (T5, T6) {
        (self.5, self.6)
    }

    open spec fn spec_source_len() -> nat {
        10
    }

    fn extract(self) -> (r: (T5, T6)) {
        (self.5, self.6)
    }

    proof fn lemma_extract_len() {
    }
}

impl<T0, T1, T2, T3, T4, T5, T6, T7, T8, T9> TypedExtract<5, 8, (T5, T6, T7)>
    for (T0, T1, T2, T3, T4, T5, T6, T7, T8, T9)
{
    open spec fn spec_extract(self) -> (T5, T6, T7) {
        (self.5, self.6, self.7)
    }

    open spec fn spec_source_len() -> nat {
        10
    }

    fn extract(self) -> (r: (T5, T6, T7)) {
        (self.5, self.6, self.7)
    }

    proof fn lemma_extract_len() {
    }
}

impl<T0, T1, T2, T3, T4, T5, T6, T7, T8, T9> TypedExtract<5, 9, (T5, T6, T7, T8)>
    for (T0, T1, T2, T3, T4, T5, T6, T7, T8, T9)
{
    open spec fn spec_extract(self) -> (T5, T6, T7, T8) {
        (self.5, self.6, self.7, self.8)
    }

    open spec fn spec_source_len() -> nat {
        10
    }

    fn extract(self) -> (r: (T5, T6, T7, T8)) {
        (self.5, self.6, self.7, self.8)
    }

    proof fn lemma_extract_len() {
    }
}

impl<T0, T1, T2, T3, T4, T5, T6, T7, T8, T9> TypedExtract<5, 10, (T5, T6, T7, T8, T9)>
    for (T0, T1, T2, T3, T4, T5, T6, T7, T8, T9)
{
    open spec fn spec_extract(self) -> (T5, T6, T7, T8, T9) {
        (self.5, self.6, self.7, self.8, self.9)
    }

    open spec fn spec_source_len() -> nat {
        10
    }

    fn extract(self) -> (r: (T5, T6, T7, T8, T9)) {
        (self.5, self.6, self.7, self.8, self.9)
    }

    proof fn lemma_extract_len() {
    }
}

impl<T0, T1, T2, T3, T4, T5, T6, T7, T8, T9> TypedExtract<6, 6, ()>
    for (T0, T1, T2, T3, T4, T5, T6, T7, T8, T9)
{
    open spec fn spec_extract(self) -> () {
        ()
    }

    open spec fn spec_source_len() -> nat {
        10
    }

    fn extract(self) -> (r: ()) {
        ()
    }

    proof fn lemma_extract_len() {
    }
}

impl<T0, T1, T2, T3, T4, T5, T6, T7, T8, T9> TypedExtract<6, 7, (T6,)>
    for (T0, T1, T2, T3, T4, T5, T6, T7, T8, T9)
{
    open spec fn spec_extract(self) -> (T6,) {
        (self.6,)
    }

    open spec fn spec_source_len() -> nat {
        10
    }

    fn extract(self) -> (r: (T6,)) {
        (self.6,)
    }

    proof fn lemma_extract_len() {
    }
}

impl<T0, T1, T2, T3, T4, T5, T6, T7, T8, T9> TypedExtract<6, 8, (T6, T7)>
    for (T0, T1, T2, T3, T4, T5, T6, T7, T8, T9)
{
    open spec fn spec_extract(self) -> (T6, T7) {
        (self.6, self.7)
    }

    open spec fn spec_source_len() -> nat {
        10
    }

    fn extract(self) -> (r: (T6, T7)) {
        (self.6, self.7)
    }

    proof fn lemma_extract_len() {
    }
}

impl<T0, T1, T2, T3, T4, T5, T6, T7, T8, T9> TypedExtract<6, 9, (T6, T7, T8)>
    for (T0, T1, T2, T3, T4, T5, T6, T7, T8, T9)
{
    open spec fn spec_extract(self) -> (T6, T7, T8) {
        (self.6, self.7, self.8)
    }

    open spec fn spec_source_len() -> nat {
        10
    }

    fn extract(self) -> (r: (T6, T7, T8)) {
        (self.6, self.7, self.8)
    }

    proof fn lemma_extract_len() {
    }
}

impl<T0, T1, T2, T3, T4, T5, T6, T7, T8, T9> TypedExtract<6, 10, (T6, T7, T8, T9)>
    for (T0, T1, T2, T3, T4, T5, T6, T7, T8, T9)
{
    open spec fn spec_extract(self) -> (T6, T7, T8, T9) {
        (self.6, self.7, self.8, self.9)
    }

    open spec fn spec_source_len() -> nat {
        10
    }

    fn extract(self) -> (r: (T6, T7, T8, T9)) {
        (self.6, self.7, self.8, self.9)
    }

    proof fn lemma_extract_len() {
    }
}

impl<T0, T1, T2, T3, T4, T5, T6, T7, T8, T9> TypedExtract<7, 7, ()>
    for (T0, T1, T2, T3, T4, T5, T6, T7, T8, T9)
{
    open spec fn spec_extract(self) -> () {
        ()
    }

    open spec fn spec_source_len() -> nat {
        10
    }

    fn extract(self) -> (r: ()) {
        ()
    }

    proof fn lemma_extract_len() {
    }
}

impl<T0, T1, T2, T3, T4, T5, T6, T7, T8, T9> TypedExtract<7, 8, (T7,)>
    for (T0, T1, T2, T3, T4, T5, T6, T7, T8, T9)
{
    open spec fn spec_extract(self) -> (T7,) {
        (self.7,)
    }

    open spec fn spec_source_len() -> nat {
        10
    }

    fn extract(self) -> (r: (T7,)) {
        (self.7,)
    }

    proof fn lemma_extract_len() {
    }
}

impl<T0, T1, T2, T3, T4, T5, T6, T7, T8, T9> TypedExtract<7, 9, (T7, T8)>
    for (T0, T1, T2, T3, T4, T5, T6, T7, T8, T9)
{
    open spec fn spec_extract(self) -> (T7, T8) {
        (self.7, self.8)
    }

    open spec fn spec_source_len() -> nat {
        10
    }

    fn extract(self) -> (r: (T7, T8)) {
        (self.7, self.8)
    }

    proof fn lemma_extract_len() {
    }
}

impl<T0, T1, T2, T3, T4, T5, T6, T7, T8, T9> TypedExtract<7, 10, (T7, T8, T9)>
    for (T0, T1, T2, T3, T4, T5, T6, T7, T8, T9)
{
    open spec fn spec_extract(self) -> (T7, T8, T9) {
        (self.7, self.8, self.9)
    }

    open spec fn spec_source_len() -> nat {
        10
    }

    fn extract(self) -> (r: (T7, T8, T9)) {
        (self.7, self.8, self.9)
    }

    proof fn lemma_extract_len() {
    }
}

impl<T0, T1, T2, T3, T4, T5, T6, T7, T8, T9> TypedExtract<8, 8, ()>
    for (T0, T1, T2, T3, T4, T5, T6, T7, T8, T9)
{
    open spec fn spec_extract(self) -> () {
        ()
    }

    open spec fn spec_source_len() -> nat {
        10
    }

    fn extract(self) -> (r: ()) {
        ()
    }

    proof fn lemma_extract_len() {
    }
}

impl<T0, T1, T2, T3, T4, T5, T6, T7, T8, T9> TypedExtract<8, 9, (T8,)>
    for (T0, T1, T2, T3, T4, T5, T6, T7, T8, T9)
{
    open spec fn spec_extract(self) -> (T8,) {
        (self.8,)
    }

    open spec fn spec_source_len() -> nat {
        10
    }

    fn extract(self) -> (r: (T8,)) {
        (self.8,)
    }

    proof fn lemma_extract_len() {
    }
}

impl<T0, T1, T2, T3, T4, T5, T6, T7, T8, T9> TypedExtract<8, 10, (T8, T9)>
    for (T0, T1, T2, T3, T4, T5, T6, T7, T8, T9)
{
    open spec fn spec_extract(self) -> (T8, T9) {
        (self.8, self.9)
    }

    open spec fn spec_source_len() -> nat {
        10
    }

    fn extract(self) -> (r: (T8, T9)) {
        (self.8, self.9)
    }

    proof fn lemma_extract_len() {
    }
}

impl<T0, T1, T2, T3, T4, T5, T6, T7, T8, T9> TypedExtract<9, 9, ()>
    for (T0, T1, T2, T3, T4, T5, T6, T7, T8, T9)
{
    open spec fn spec_extract(self) -> () {
        ()
    }

    open spec fn spec_source_len() -> nat {
        10
    }

    fn extract(self) -> (r: ()) {
        ()
    }

    proof fn lemma_extract_len() {
    }
}

impl<T0, T1, T2, T3, T4, T5, T6, T7, T8, T9> TypedExtract<9, 10, (T9,)>
    for (T0, T1, T2, T3, T4, T5, T6, T7, T8, T9)
{
    open spec fn spec_extract(self) -> (T9,) {
        (self.9,)
    }

    open spec fn spec_source_len() -> nat {
        10
    }

    fn extract(self) -> (r: (T9,)) {
        (self.9,)
    }

    proof fn lemma_extract_len() {
    }
}

impl<T0, T1, T2, T3, T4, T5, T6, T7, T8, T9, T10> TypedExtract<0, 0, ()>
    for (T0, T1, T2, T3, T4, T5, T6, T7, T8, T9, T10)
{
    open spec fn spec_extract(self) -> () {
        ()
    }

    open spec fn spec_source_len() -> nat {
        11
    }

    fn extract(self) -> (r: ()) {
        ()
    }

    proof fn lemma_extract_len() {
    }
}

impl<T0, T1, T2, T3, T4, T5, T6, T7, T8, T9, T10> TypedExtract<0, 1, (T0,)>
    for (T0, T1, T2, T3, T4, T5, T6, T7, T8, T9, T10)
{
    open spec fn spec_extract(self) -> (T0,) {
        (self.0,)
    }

    open spec fn spec_source_len() -> nat {
        11
    }

    fn extract(self) -> (r: (T0,)) {
        (self.0,)
    }

    proof fn lemma_extract_len() {
    }
}

impl<T0, T1, T2, T3, T4, T5, T6, T7, T8, T9, T10> TypedExtract<0, 2, (T0, T1)>
    for (T0, T1, T2, T3, T4, T5, T6, T7, T8, T9, T10)
{
    open spec fn spec_extract(self) -> (T0, T1) {
        (self.0, self.1)
    }

    open spec fn spec_source_len() -> nat {
        11
    }

    fn extract(self) -> (r: (T0, T1)) {
        (self.0, self.1)
    }

    proof fn lemma_extract_len() {
    }
}

impl<T0, T1, T2, T3, T4, T5, T6, T7, T8, T9, T10> TypedExtract<0, 3, (T0, T1, T2)>
    for (T0, T1, T2, T3, T4, T5, T6, T7, T8, T9, T10)
{
    open spec fn spec_extract(self) -> (T0, T1, T2) {
        (self.0, self.1, self.2)
    }

    open spec fn spec_source_len() -> nat {
        11
    }

    fn extract(self) -> (r: (T0, T1, T2)) {
        (self.0, self.1, self.2)
    }

    proof fn lemma_extract_len() {
    }
}

impl<T0, T1, T2, T3, T4, T5, T6, T7, T8, T9, T10> TypedExtract<0, 4, (T0, T1, T2, T3)>
    for (T0, T1, T2, T3, T4, T5, T6, T7, T8, T9, T10)
{
    open spec fn spec_extract(self) -> (T0, T1, T2, T3) {
        (self.0, self.1, self.2, self.3)
    }

    open spec fn spec_source_len() -> nat {
        11
    }

    fn extract(self) -> (r: (T0, T1, T2, T3)) {
        (self.0, self.1, self.2, self.3)
    }

    proof fn lemma_extract_len() {
    }
}

impl<T0, T1, T2, T3, T4, T5, T6, T7, T8, T9, T10> TypedExtract<0, 5, (T0, T1, T2, T3, T4)>
    for (T0, T1, T2, T3, T4, T5, T6, T7, T8, T9, T10)
{
    open spec fn spec_extract(self) -> (T0, T1, T2, T3, T4) {
        (self.0, self.1, self.2, self.3, self.4)
    }

    open spec fn spec_source_len() -> nat {
        11
    }

    fn extract(self) -> (r: (T0, T1, T2, T3, T4)) {
        (self.0, self.1, self.2, self.3, self.4)
    }

    proof fn lemma_extract_len() {
    }
}

impl<T0, T1, T2, T3, T4, T5, T6, T7, T8, T9, T10> TypedExtract<0, 6, (T0, T1, T2, T3, T4, T5)>
    for (T0, T1, T2, T3, T4, T5, T6, T7, T8, T9, T10)
{
    open spec fn spec_extract(self) -> (T0, T1, T2, T3, T4, T5) {
        (self.0, self.1, self.2, self.3, self.4, self.5)
    }

    open spec fn spec_source_len() -> nat {
        11
    }

    fn extract(self) -> (r: (T0, T1, T2, T3, T4, T5)) {
        (self.0, self.1, self.2, self.3, self.4, self.5)
    }

    proof fn lemma_extract_len() {
    }
}

impl<T0, T1, T2, T3, T4, T5, T6, T7, T8, T9, T10> TypedExtract<0, 7, (T0, T1, T2, T3, T4, T5, T6)>
    for (T0, T1, T2, T3, T4, T5, T6, T7, T8, T9, T10)
{
    open spec fn spec_extract(self) -> (T0, T1, T2, T3, T4, T5, T6) {
        (self.0, self.1, self.2, self.3, self.4, self.5, self.6)
    }

    open spec fn spec_source_len() -> nat {
        11
    }

    fn extract(self) -> (r: (T0, T1, T2, T3, T4, T5, T6)) {
        (self.0, self.1, self.2, self.3, self.4, self.5, self.6)
    }

    proof fn lemma_extract_len() {
    }
}

impl<T0, T1, T2, T3, T4, T5, T6, T7, T8, T9, T10> TypedExtract<0, 8, (T0, T1, T2, T3, T4, T5, T6,
    T7)>
    for (T0, T1, T2, T3, T4, T5, T6, T7, T8, T9, T10)
{
    open spec fn spec_extract(self) -> (T0, T1, T2, T3, T4, T5, T6, T7) {
        (self.0, self.1, self.2, self.3, self.4, self.5, self.6, self.7)
    }

    open spec fn spec_source_len() -> nat {
        11
    }

    fn extract(self) -> (r: (T0, T1, T2, T3, T4, T5, T6, T7)) {
        (self.0, self.1, self.2, self.3, self.4, self.5, self.6, self.7)
    }

    proof fn lemma_extract_len() {
    }
}

impl<T0, T1, T2, T3, T4, T5, T6, T7, T8, T9, T10> TypedExtract<0, 9, (T0, T1, T2, T3, T4, T5, T6,
    T7, T8)>
    for (T0, T1, T2, T3, T4, T5, T6, T7, T8, T9, T10)
{
    open spec fn spec_extract(self) -> (T0, T1, T2, T3, T4, T5, T6, T7, T8) {
        (self.0, self.1, self.2, self.3, self.4, self.5, self.6, self.7, self.8)
    }

    open spec fn spec_source_len() -> nat {
        11
    }

    fn extract(self) -> (r: (T0, T1, T2, T3, T4, T5, T6, T7, T8)) {
        (self.0, self.1, self.2, self.3, self.4, self.5, self.6, self.7, self.8)
    }

    proof fn lemma_extract_len() {
    }
}

impl<T0, T1, T2, T3, T4, T5, T6, T7, T8, T9, T10> TypedExtract<0, 10, (T0, T1, T2, T3, T4, T5, T6,
    T7, T8, T9)>
    for (T0, T1, T2, T3, T4, T5, T6, T7, T8, T9, T10)
{
    open spec fn spec_extract(self) -> (T0, T1, T2, T3, T4, T5, T6, T7, T8, T9) {
        (self.0, self.1, self.2, self.3, self.4, self.5, self.6, self.7, self.8, self.9)
    }

    open spec fn spec_source_len() -> nat {
        11
    }

    fn extract(self) -> (r: (T0, T1, T2, T3, T4, T5, T6, T7, T8, T9)) {
        (self.0, self.1, self.2, self.3, self.4, self.5, self.6, self.7, self.8, self.9)
    }

    proof fn lemma_extract_len() {
    }
}

impl<T0, T1, T2, T3, T4, T5, T6, T7, T8, T9, T10> TypedExtract<0, 11, (T0, T1, T2, T3, T4, T5, T6,
    T7, T8, T9, T10)>
    for (T0, T1, T2, T3, T4, T5, T6, T7, T8, T9, T10)
{
    open spec fn spec_extract(self) -> (T0, T1, T2, T3, T4, T5, T6, T7, T8, T9, T10) {
        (self.0, self.1, self.2, self.3, self.4, self.5, self.6, self.7, self.8, self.9, self.10)
    }

    open spec fn spec_source_len() -> nat {
        11
    }

    fn extract(self) -> (r: (T0, T1, T2, T3, T4, T5, T6, T7, T8, T9, T10)) {
        (self.0, self.1, self.2, self.3, self.4, self.5, self.6, self.7, self.8, self.9, self.10)
    }

    proof fn lemma_extract_len() {
    }
}

impl<T0, T1, T2, T3, T4, T5, T6, T7, T8, T9, T10> TypedExtract<1, 1, ()>
    for (T0, T1, T2, T3, T4, T5, T6, T7, T8, T9, T10)
{
    open spec fn spec_extract(self) -> () {
        ()
    }

    open spec fn spec_source_len() -> nat {
        11
    }

    fn extract(self) -> (r: ()) {
        ()
    }

    proof fn lemma_extract_len() {
    }
}

impl<T0, T1, T2, T3, T4, T5, T6, T7, T8, T9, T10> TypedExtract<1, 2, (T1,)>
    for (T0, T1, T2, T3, T4, T5, T6, T7, T8, T9, T10)
{
    open spec fn spec_extract(self) -> (T1,) {
        (self.1,)
    }

    open spec fn spec_source_len() -> nat {
        11
    }

    fn extract(self) -> (r: (T1,)) {
        (self.1,)
    }

    proof fn lemma_extract_len() {
    }
}

impl<T0, T1, T2, T3, T4, T5, T6, T7, T8, T9, T10> TypedExtract<1, 3, (T1, T2)>
    for (T0, T1, T2, T3, T4, T5, T6, T7, T8, T9, T10)
{
    open spec fn spec_extract(self) -> (T1, T2) {
        (self.1, self.2)
    }

    open spec fn spec_source_len() -> nat {
        11
    }

    fn extract(self) -> (r: (T1, T2)) {
        (self.1, self.2)
    }

    proof fn lemma_extract_len() {
    }
}

impl<T0, T1, T2, T3, T4, T5, T6, T7, T8, T9, T10> TypedExtract<1, 4, (T1, T2, T3)>
    for (T0, T1, T2, T3, T4, T5, T6, T7, T8, T9, T10)
{
    open spec fn spec_extract(self) -> (T1, T2, T3) {
        (self.1, self.2, self.3)
    }

    open spec fn spec_source_len() -> nat {
        11
    }

    fn extract(self) -> (r: (T1, T2, T3)) {
        (self.1, self.2, self.3)
    }

    proof fn lemma_extract_len() {
    }
}

impl<T0, T1, T2, T3, T4, T5, T6, T7, T8, T9, T10> TypedExtract<1, 5, (T1, T2, T3, T4)>
    for (T0, T1, T2, T3, T4, T5, T6, T7, T8, T9, T10)
{
    open spec fn spec_extract(self) -> (T1, T2, T3, T4) {
        (self.1, self.2, self.3, self.4)
    }

    open spec fn spec_source_len() -> nat {
        11
    }

    fn extract(self) -> (r: (T1, T2, T3, T4)) {
        (self.1, self.2, self.3, self.4)
    }

    proof fn lemma_extract_len() {
    }
}

impl<T0, T1, T2, T3, T4, T5, T6, T7, T8, T9, T10> TypedExtract<1, 6, (T1, T2, T3, T4, T5)>
    for (T0, T1, T2, T3, T4, T5, T6, T7, T8, T9, T10)
{
    open spec fn spec_extract(self) -> (T1, T2, T3, T4, T5) {
        (self.1, self.2, self.3, self.4, self.5)
    }

    open spec fn spec_source_len() -> nat {
        11
    }

    fn extract(self) -> (r: (T1, T2, T3, T4, T5)) {
        (self.1, self.2, self.3, self.4, self.5)
    }

    proof fn lemma_extract_len() {
    }
}

impl<T0, T1, T2, T3, T4, T5, T6, T7, T8, T9, T10> TypedExtract<1, 7, (T1, T2, T3, T4, T5, T6)>
    for (T0, T1, T2, T3, T4, T5, T6, T7, T8, T9, T10)
{
    open spec fn spec_extract(self) -> (T1, T2, T3, T4, T5, T6) {
        (self.1, self.2, self.3, self.4, self.5, self.6)
    }

    open spec fn spec_source_len() -> nat {
        11
    }

    fn extract(self) -> (r: (T1, T2, T3, T4, T5, T6)) {
        (self.1, self.2, self.3, self.4, self.5, self.6)
    }

    proof fn lemma_extract_len() {
    }
}

impl<T0, T1, T2, T3, T4, T5, T6, T7, T8, T9, T10> TypedExtract<1, 8, (T1, T2, T3, T4, T5, T6, T7)>
    for (T0, T1, T2, T3, T4, T5, T6, T7, T8, T9, T10)
{
    open spec fn spec_extract(self) -> (T1, T2, T3, T4, T5, T6, T7) {
        (self.1, self.2, self.3, self.4, self.5, self.6, self.7)
    }

    open spec fn spec_source_len() -> nat {
        11
    }

    fn extract(self) -> (r: (T1, T2, T3, T4, T5, T6, T7)) {
        (self.1, self.2, self.3, self.4, self.5, self.6, self.7)
    }

    proof fn lemma_extract_len() {
    }
}

impl<T0, T1, T2, T3, T4, T5, T6, T7, T8, T9, T10> TypedExtract<1, 9, (T1, T2, T3, T4, T5, T6, T7,
    T8)>
    for (T0, T1, T2, T3, T4, T5, T6, T7, T8, T9, T10)
{
    open spec fn spec_extract(self) -> (T1, T2, T3, T4, T5, T6, T7, T8) {
        (self.1, self.2, self.3, self.4, self.5, self.6, self.7, self.8)
    }

    open spec fn spec_source_len() -> nat {
        11
    }

    fn extract(self) -> (r: (T1, T2, T3, T4, T5, T6, T7, T8)) {
        (self.1, self.2, self.3, self.4, self.5, self.6, self.7, self.8)
    }

    proof fn lemma_extract_len() {
    }
}

impl<T0, T1, T2, T3, T4, T5, T6, T7, T8, T9, T10> TypedExtract<1, 10, (T1, T2, T3, T4, T5, T6, T7,
    T8, T9)>
    for (T0, T1, T2, T3, T4, T5, T6, T7, T8, T9, T10)
{
    open spec fn spec_extract(self) -> (T1, T2, T3, T4, T5, T6, T7, T8, T9) {
        (self.1, self.2, self.3, self.4, self.5, self.6, self.7, self.8, self.9)
    }

    open spec fn spec_source_len() -> nat {
        11
    }

    fn extract(self) -> (r: (T1, T2, T3, T4, T5, T6, T7, T8, T9)) {
        (self.1, self.2, self.3, self.4, self.5, self.6, self.7, self.8, self.9)
    }

    proof fn lemma_extract_len() {
    }
}

impl<T0, T1, T2, T3, T4, T5, T6, T7, T8, T9, T10> TypedExtract<1, 11, (T1, T2, T3, T4, T5, T6, T7,
    T8, T9, T10)>
    for (T0, T1, T2, T3, T4, T5, T6, T7, T8, T9, T10)
{
    open spec fn spec_extract(self) -> (T1, T2, T3, T4, T5, T6, T7, T8, T9, T10) {
        (self.1, self.2, self.3, self.4, self.5, self.6, self.7, self.8, self.9, self.10)
    }

    open spec fn spec_source_len() -> nat {
        11
    }

    fn extract(self) -> (r: (T1, T2, T3, T4, T5, T6, T7, T8, T9, T10)) {
        (self.1, self.2, self.3, self.4, self.5, self.6, self.7, self.8, self.9, self.10)
    }

    proof fn lemma_extract_len() {
    }
}

impl<T0, T1, T2, T3, T4, T5, T6, T7, T8, T9, T10> TypedExtract<2, 2, ()>
    for (T0, T1, T2, T3, T4, T5, T6, T7, T8, T9, T10)
{
    open spec fn spec_extract(self) -> () {
        ()
    }

    open spec fn spec_source_len() -> nat {
        11
    }

    fn extract(self) -> (r: ()) {
        ()
    }

    proof fn lemma_extract_len() {
    }
}

impl<T0, T1, T2, T3, T4, T5, T6, T7, T8, T9, T10> TypedExtract<2, 3, (T2,)>
    for (T0, T1, T2, T3, T4, T5, T6, T7, T8, T9, T10)
{
    open spec fn spec_extract(self) -> (T2,) {
        (self.2,)
    }

    open spec fn spec_source_len() -> nat {
        11
    }

    fn extract(self) -> (r: (T2,)) {
        (self.2,)
    }

    proof fn lemma_extract_len() {
    }
}

impl<T0, T1, T2, T3, T4, T5, T6, T7, T8, T9, T10> TypedExtract<2, 4, (T2, T3)>
    for (T0, T1, T2, T3, T4, T5, T6, T7, T8, T9, T10)
{
    open spec fn spec_extract(self) -> (T2, T3) {
        (self.2, self.3)
    }

    open spec fn spec_source_len() -> nat {
        11
    }

    fn extract(self) -> (r: (T2, T3)) {
        (self.2, self.3)
    }

    proof fn lemma_extract_len() {
    }
}

impl<T0, T1, T2, T3, T4, T5, T6, T7, T8, T9, T10> TypedExtract<2, 5, (T2, T3, T4)>
    for (T0, T1, T2, T3, T4, T5, T6, T7, T8, T9, T10)
{
    open spec fn spec_extract(self) -> (T2, T3, T4) {
        (self.2, self.3, self.4)
    }

    open spec fn spec_source_len() -> nat {
        11
    }

    fn extract(self) -> (r: (T2, T3, T4)) {
        (self.2, self.3, self.4)
    }

    proof fn lemma_extract_len() {
    }
}

impl<T0, T1, T2, T3, T4, T5, T6, T7, T8, T9, T10> TypedExtract<2, 6, (T2, T3, T4, T5)>
    for (T0, T1, T2, T3, T4, T5, T6, T7, T8, T9, T10)
{
    open spec fn spec_extract(self) -> (T2, T3, T4, T5) {
        (self.2, self.3, self.4, self.5)
    }

    open spec fn spec_source_len() -> nat {
        11
    }

    fn extract(self) -> (r: (T2, T3, T4, T5)) {
        (self.2, self.3, self.4, self.5)
    }

    proof fn lemma_extract_len() {
    }
}

impl<T0, T1, T2, T3, T4, T5, T6, T7, T8, T9, T10> TypedExtract<2, 7, (T2, T3, T4, T5, T6)>
    for (T0, T1, T2, T3, T4, T5, T6, T7, T8, T9, T10)
{
    open spec fn spec_extract(self) -> (T2, T3, T4, T5, T6) {
        (self.2, self.3, self.4, self.5, self.6)
    }

    open spec fn spec_source_len() -> nat {
        11
    }

    fn extract(self) -> (r: (T2, T3, T4, T5, T6)) {
        (self.2, self.3, self.4, self.5, self.6)
    }

    proof fn lemma_extract_len() {
    }
}

impl<T0, T1, T2, T3, T4, T5, T6, T7, T8, T9, T10> TypedExtract<2, 8, (T2, T3, T4, T5, T6, T7)>
    for (T0, T1, T2, T3, T4, T5, T6, T7, T8, T9, T10)
{
    open spec fn spec_extract(self) -> (T2, T3, T4, T5, T6, T7) {
        (self.2, self.3, self.4, self.5, self.6, self.7)
    }

    open spec fn spec_source_len() -> nat {
        11
    }

    fn extract(self) -> (r: (T2, T3, T4, T5, T6, T7)) {
        (self.2, self.3, self.4, self.5, self.6, self.7)
    }

    proof fn lemma_extract_len() {
    }
}

impl<T0, T1, T2, T3, T4, T5, T6, T7, T8, T9, T10> TypedExtract<2, 9, (T2, T3, T4, T5, T6, T7, T8)>
    for (T0, T1, T2, T3, T4, T5, T6, T7, T8, T9, T10)
{
    open spec fn spec_extract(self) -> (T2, T3, T4, T5, T6, T7, T8) {
        (self.2, self.3, self.4, self.5, self.6, self.7, self.8)
    }

    open spec fn spec_source_len() -> nat {
        11
    }

    fn extract(self) -> (r: (T2, T3, T4, T5, T6, T7, T8)) {
        (self.2, self.3, self.4, self.5, self.6, self.7, self.8)
    }

    proof fn lemma_extract_len() {
    }
}

impl<T0, T1, T2, T3, T4, T5, T6, T7, T8, T9, T10> TypedExtract<2, 10, (T2, T3, T4, T5, T6, T7, T8,
    T9)>
    for (T0, T1, T2, T3, T4, T5, T6, T7, T8, T9, T10)
{
    open spec fn spec_extract(self) -> (T2, T3, T4, T5, T6, T7, T8, T9) {
        (self.2, self.3, self.4, self.5, self.6, self.7, self.8, self.9)
    }

    open spec fn spec_source_len() -> nat {
        11
    }

    fn extract(self) -> (r: (T2, T3, T4, T5, T6, T7, T8, T9)) {
        (self.2, self.3, self.4, self.5, self.6, self.7, self.8, self.9)
    }

    proof fn lemma_extract_len() {
    }
}

impl<T0, T1, T2, T3, T4, T5, T6, T7, T8, T9, T10> TypedExtract<2, 11, (T2, T3, T4, T5, T6, T7, T8,
    T9, T10)>
    for (T0, T1, T2, T3, T4, T5, T6, T7, T8, T9, T10)
{
    open spec fn spec_extract(self) -> (T2, T3, T4, T5, T6, T7, T8, T9, T10) {
        (self.2, self.3, self.4, self.5, self.6, self.7, self.8, self.9, self.10)
    }

    open spec fn spec_source_len() -> nat {
        11
    }

    fn extract(self) -> (r: (T2, T3, T4, T5, T6, T7, T8, T9, T10)) {
        (self.2, self.3, self.4, self.5, self.6, self.7, self.8, self.9, self.10)
    }

    proof fn lemma_extract_len() {
    }
}

impl<T0, T1, T2, T3, T4, T5, T6, T7, T8, T9, T10> TypedExtract<3, 3, ()>
    for (T0, T1, T2, T3, T4, T5, T6, T7, T8, T9, T10)
{
    open spec fn spec_extract(self) -> () {
        ()
    }

    open spec fn spec_source_len() -> nat {
        11
    }

    fn extract(self) -> (r: ()) {
        ()
    }

    proof fn lemma_extract_len() {
    }
}

impl<T0, T1, T2, T3, T4, T5, T6, T7, T8, T9, T10> TypedExtract<3, 4, (T3,)>
    for (T0, T1, T2, T3, T4, T5, T6, T7, T8, T9, T10)
{
    open spec fn spec_extract(self) -> (T3,) {
        (self.3,)
    }

    open spec fn spec_source_len() -> nat {
        11
    }

    fn extract(self) -> (r: (T3,)) {
        (self.3,)
    }

    proof fn lemma_extract_len() {
    }
}

impl<T0, T1, T2, T3, T4, T5, T6, T7, T8, T9, T10> TypedExtract<3, 5, (T3, T4)>
    for (T0, T1, T2, T3, T4, T5, T6, T7, T8, T9, T10)
{
    open spec fn spec_extract(self) -> (T3, T4) {
        (self.3, self.4)
    }

    open spec fn spec_source_len() -> nat {
        11
    }

    fn extract(self) -> (r: (T3, T4)) {
        (self.3, self.4)
    }

    proof fn lemma_extract_len() {
    }
}

impl<T0, T1, T2, T3, T4, T5, T6, T7, T8, T9, T10> TypedExtract<3, 6, (T3, T4, T5)>
    for (T0, T1, T2, T3, T4, T5, T6, T7, T8, T9, T10)
{
    open spec fn spec_extract(self) -> (T3, T4, T5) {
        (self.3, self.4, self.5)
    }

    open spec fn spec_source_len() -> nat {
        11
    }

    fn extract(self) -> (r: (T3, T4, T5)) {
        (self.3, self.4, self.5)
    }

    proof fn lemma_extract_len() {
    }
}

impl<T0, T1, T2, T3, T4, T5, T6, T7, T8, T9, T10> TypedExtract<3, 7, (T3, T4, T5, T6)>
    for (T0, T1, T2, T3, T4, T5, T6, T7, T8, T9, T10)
{
    open spec fn spec_extract(self) -> (T3, T4, T5, T6) {
        (self.3, self.4, self.5, self.6)
    }

    open spec fn spec_source_len() -> nat {
        11
    }

    fn extract(self) -> (r: (T3, T4, T5, T6)) {
        (self.3, self.4, self.5, self.6)
    }

    proof fn lemma_extract_len() {
    }
}

impl<T0, T1, T2, T3, T4, T5, T6, T7, T8, T9, T10> TypedExtract<3, 8, (T3, T4, T5, T6, T7)>
    for (T0, T1, T2, T3, T4, T5, T6, T7, T8, T9, T10)
{
    open spec fn spec_extract(self) -> (T3, T4, T5, T6, T7) {
        (self.3, self.4, self.5, self.6, self.7)
    }

    open spec fn spec_source_len() -> nat {
        11
    }

    fn extract(self) -> (r: (T3, T4, T5, T6, T7)) {
        (self.3, self.4, self.5, self.6, self.7)
    }

    proof fn lemma_extract_len() {
    }
}

impl<T0, T1, T2, T3, T4, T5, T6, T7, T8, T9, T10> TypedExtract<3, 9, (T3, T4, T5, T6, T7, T8)>
    for (T0, T1, T2, T3, T4, T5, T6, T7, T8, T9, T10)
{
    open spec fn spec_extract(self) -> (T3, T4, T5, T6, T7, T8) {
        (self.3, self.4, self.5, self.6, self.7, self.8)
    }

    open spec fn spec_source_len() -> nat {
        11
    }

    fn extract(self) -> (r: (T3, T4, T5, T6, T7, T8)) {
        (self.3, self.4, self.5, self.6, self.7, self.8)
    }

    proof fn lemma_extract_len() {
    }
}

impl<T0, T1, T2, T3, T4, T5, T6, T7, T8, T9, T10> TypedExtract<3, 10, (T3, T4, T5, T6, T7, T8, T9)>
    for (T0, T1, T2, T3, T4, T5, T6, T7, T8, T9, T10)
{
    open spec fn spec_extract(self) -> (T3, T4, T5, T6, T7, T8, T9) {
        (self.3, self.4, self.5, self.6, self.7, self.8, self.9)
    }

    open spec fn spec_source_len() -> nat {
        11
    }

    fn extract(self) -> (r: (T3, T4, T5, T6, T7, T8, T9)) {
        (self.3, self.4, self.5, self.6, self.7, self.8, self.9)
    }

    proof fn lemma_extract_len() {
    }
}

impl<T0, T1, T2, T3, T4, T5, T6, T7, T8, T9, T10> TypedExtract<3, 11, (T3, T4, T5, T6, T7, T8, T9,
    T10)>
    for (T0, T1, T2, T3, T4, T5, T6, T7, T8, T9, T10)
{
    open spec fn spec_extract(self) -> (T3, T4, T5, T6, T7, T8, T9, T10) {
        (self.3, self.4, self.5, self.6, self.7, self.8, self.9, self.10)
    }

    open spec fn spec_source_len() -> nat {
        11
    }

    fn extract(self) -> (r: (T3, T4, T5, T6, T7, T8, T9, T10)) {
        (self.3, self.4, self.5, self.6, self.7, self.8, self.9, self.10)
    }

    proof fn lemma_extract_len() {
    }
}

impl<T0, T1, T2, T3, T4, T5, T6, T7, T8, T9, T10> TypedExtract<4, 4, ()>
    for (T0, T1, T2, T3, T4, T5, T6, T7, T8, T9, T10)
{
    open spec fn spec_extract(self) -> () {
        ()
    }

    open spec fn spec_source_len() -> nat {
        11
    }

    fn extract(self) -> (r: ()) {
        ()
    }

    proof fn lemma_extract_len() {
    }
}

impl<T0, T1, T2, T3, T4, T5, T6, T7, T8, T9, T10> TypedExtract<4, 5, (T4,)>
    for (T0, T1, T2, T3, T4, T5, T6, T7, T8, T9, T10)
{
    open spec fn spec_extract(self) -> (T4,) {
        (self.4,)
    }

    open spec fn spec_source_len() -> nat {
        11
    }

    fn extract(self) -> (r: (T4,)) {
        (self.4,)
    }

    proof fn lemma_extract_len() {
    }
}

impl<T0, T1, T2, T3, T4, T5, T6, T7, T8, T9, T10> TypedExtract<4, 6, (T4, T5)>
    for (T0, T1, T2, T3, T4, T5, T6, T7, T8, T9, T10)
{
    open spec fn spec_extract(self) -> (T4, T5) {
        (self.4, self.5)
    }

    open spec fn spec_source_len() -> nat {
        11
    }

    fn extract(self) -> (r: (T4, T5)) {
        (self.4, self.5)
    }

    proof fn lemma_extract_len() {
    }
}

impl<T0, T1, T2, T3, T4, T5, T6, T7, T8, T9, T10> TypedExtract<4, 7, (T4, T5, T6)>
    for (T0, T1, T2, T3, T4, T5, T6, T7, T8, T9, T10)
{
    open spec fn spec_extract(self) -> (T4, T5, T6) {
        (self.4, self.5, self.6)
    }

    open spec fn spec_source_len() -> nat {
        11
    }

    fn extract(self) -> (r: (T4, T5, T6)) {
        (self.4, self.5, self.6)
    }

    proof fn lemma_extract_len() {
    }
}

impl<T0, T1, T2, T3, T4, T5, T6, T7, T8, T9, T10> TypedExtract<4, 8, (T4, T5, T6, T7)>
    for (T0, T1, T2, T3, T4, T5, T6, T7, T8, T9, T10)
{
    open spec fn spec_extract(self) -> (T4, T5, T6, T7) {
        (self.4, self.5, self.6, self.7)
    }

    open spec fn spec_source_len() -> nat {
        11
    }

    fn extract(self) -> (r: (T4, T5, T6, T7)) {
        (self.4, self.5, self.6, self.7)
    }

    proof fn lemma_extract_len() {
    }
}

impl<T0, T1, T2, T3, T4, T5, T6, T7, T8, T9, T10> TypedExtract<4, 9, (T4, T5, T6, T7, T8)>
    for (T0, T1, T2, T3, T4, T5, T6, T7, T8, T9, T10)
{
    open spec fn spec_extract(self) -> (T4, T5, T6, T7, T8) {
        (self.4, self.5, self.6, self.7, self.8)
    }

    open spec fn spec_source_len() -> nat {
        11
    }

    fn extract(self) -> (r: (T4, T5, T6, T7, T8)) {
        (self.4, self.5, self.6, self.7, self.8)
    }

    proof fn lemma_extract_len() {
    }
}

impl<T0, T1, T2, T3, T4, T5, T6, T7, T8, T9, T10> TypedExtract<4, 10, (T4, T5, T6, T7, T8, T9)>
    for (T0, T1, T2, T3, T4, T5, T6, T7, T8, T9, T10)
{
    open spec fn spec_extract(self) -> (T4, T5, T6, T7, T8, T9) {
        (self.4, self.5, self.6, self.7, self.8, self.9)
    }

    open spec fn spec_source_len() -> nat {
        11
    }

    fn extract(self) -> (r: (T4, T5, T6, T7, T8, T9)) {
        (self.4, self.5, self.6, self.7, self.8, self.9)
    }

    proof fn lemma_extract_len() {
    }
}

impl<T0, T1, T2, T3, T4, T5, T6, T7, T8, T9, T10> TypedExtract<4, 11, (T4, T5, T6, T7, T8, T9, T10)>
    for (T0, T1, T2, T3, T4, T5, T6, T7, T8, T9, T10)
{
    open spec fn spec_extract(self) -> (T4, T5, T6, T7, T8, T9, T10) {
        (self.4, self.5, self.6, self.7, self.8, self.9, self.10)
    }

    open spec fn spec_source_len() -> nat {
        11
    }

    fn extract(self) -> (r: (T4, T5, T6, T7, T8, T9, T10)) {
        (self.4, self.5, self.6, self.7, self.8, self.9, self.10)
    }

    proof fn lemma_extract_len() {
    }
}

impl<T0, T1, T2, T3, T4, T5, T6, T7, T8, T9, T10> TypedExtract<5, 5, ()>
    for (T0, T1, T2, T3, T4, T5, T6, T7, T8, T9, T10)
{
    open spec fn spec_extract(self) -> () {
        ()
    }

    open spec fn spec_source_len() -> nat {
        11
    }

    fn extract(self) -> (r: ()) {
        ()
    }

    proof fn lemma_extract_len() {
    }
}

impl<T0, T1, T2, T3, T4, T5, T6, T7, T8, T9, T10> TypedExtract<5, 6, (T5,)>
    for (T0, T1, T2, T3, T4, T5, T6, T7, T8, T9, T10)
{
    open spec fn spec_extract(self) -> (T5,) {
        (self.5,)
    }

    open spec fn spec_source_len() -> nat {
        11
    }

    fn extract(self) -> (r: (T5,)) {
        (self.5,)
    }

    proof fn lemma_extract_len() {
    }
}

impl<T0, T1, T2, T3, T4, T5, T6, T7, T8, T9, T10> TypedExtract<5, 7, (T5, T6)>
    for (T0, T1, T2, T3, T4, T5, T6, T7, T8, T9, T10)
{
    open spec fn spec_extract(self) -> (T5, T6) {
        (self.5, self.6)
    }

    open spec fn spec_source_len() -> nat {
        11
    }

    fn extract(self) -> (r: (T5, T6)) {
        (self.5, self.6)
    }

    proof fn lemma_extract_len() {
    }
}

impl<T0, T1, T2, T3, T4, T5, T6, T7, T8, T9, T10> TypedExtract<5, 8, (T5, T6, T7)>
    for (T0, T1, T2, T3, T4, T5, T6, T7, T8, T9, T10)
{
    open spec fn spec_extract(self) -> (T5, T6, T7) {
        (self.5, self.6, self.7)
    }

    open spec fn spec_source_len() -> nat {
        11
    }

    fn extract(self) -> (r: (T5, T6, T7)) {
        (self.5, self.6, self.7)
    }

    proof fn lemma_extract_len() {
    }
}

impl<T0, T1, T2, T3, T4, T5, T6, T7, T8, T9, T10> TypedExtract<5, 9, (T5, T6, T7, T8)>
    for (T0, T1, T2, T3, T4, T5, T6, T7, T8, T9, T10)
{
    open spec fn spec_extract(self) -> (T5, T6, T7, T8) {
        (self.5, self.6, self.7, self.8)
    }

    open spec fn spec_source_len() -> nat {
        11
    }

    fn extract(self) -> (r: (T5, T6, T7, T8)) {
        (self.5, self.6, self.7, self.8)
    }

    proof fn lemma_extract_len() {
    }
}

impl<T0, T1, T2, T3, T4, T5, T6, T7, T8, T9, T10> TypedExtract<5, 10, (T5, T6, T7, T8, T9)>
    for (T0, T1, T2, T3, T4, T5, T6, T7, T8, T9, T10)
{
    open spec fn spec_extract(self) -> (T5, T6, T7, T8, T9) {
        (self.5, self.6, self.7, self.8, self.9)
    }

    open spec fn spec_source_len() -> nat {
        11
    }

    fn extract(self) -> (r: (T5, T6, T7, T8, T9)) {
        (self.5, self.6, self.7, self.8, self.9)
    }

    proof fn lemma_extract_len() {
    }
}

impl<T0, T1, T2, T3, T4, T5, T6, T7, T8, T9, T10> TypedExtract<5, 11, (T5, T6, T7, T8, T9, T10)>
    for (T0, T1, T2, T3, T4, T5, T6, T7, T8, T9, T10)
{
    open spec fn spec_extract(self) -> (T5, T6, T7, T8, T9, T10) {
        (self.5, self.6, self.7, self.8, self.9, self.10)
    }

    open spec fn spec_source_len() -> nat {
        11
    }

    fn extract(self) -> (r: (T5, T6, T7, T8, T9, T10)) {
        (self.5, self.6, self.7, self.8, self.9, self.10)
    }

    proof fn lemma_extract_len() {
    }
}

impl<T0, T1, T2, T3, T4, T5, T6, T7, T8, T9, T10> TypedExtract<6, 6, ()>
    for (T0, T1, T2, T3, T4, T5, T6, T7, T8, T9, T10)
{
    open spec fn spec_extract(self) -> () {
        ()
    }

    open spec fn spec_source_len() -> nat {
        11
    }

    fn extract(self) -> (r: ()) {
        ()
    }

    proof fn lemma_extract_len() {
    }
}

impl<T0, T1, T2, T3, T4, T5, T6, T7, T8, T9, T10> TypedExtract<6, 7, (T6,)>
    for (T0, T1, T2, T3, T4, T5, T6, T7, T8, T9, T10)
{
    open spec fn spec_extract(self) -> (T6,) {
        (self.6,)
    }

    open spec fn spec_source_len() -> nat {
        11
    }

    fn extract(self) -> (r: (T6,)) {
        (self.6,)
    }

    proof fn lemma_extract_len() {
    }
}

impl<T0, T1, T2, T3, T4, T5, T6, T7, T8, T9, T10> TypedExtract<6, 8, (T6, T7)>
    for (T0, T1, T2, T3, T4, T5, T6, T7, T8, T9, T10)
{
    open spec fn spec_extract(self) -> (T6, T7) {
        (self.6, self.7)
    }

    open spec fn spec_source_len() -> nat {
        11
    }

    fn extract(self) -> (r: (T6, T7)) {
        (self.6, self.7)
    }

    proof fn lemma_extract_len() {
    }
}

impl<T0, T1, T2, T3, T4, T5, T6, T7, T8, T9, T10> TypedExtract<6, 9, (T6, T7, T8)>
    for (T0, T1, T2, T3, T4, T5, T6, T7, T8, T9, T10)
{
    open spec fn spec_extract(self) -> (T6, T7, T8) {
        (self.6, self.7, self.8)
    }

    open spec fn spec_source_len() -> nat {
        11
    }

    fn extract(self) -> (r: (T6, T7, T8)) {
        (self.6, self.7, self.8)
    }

    proof fn lemma_extract_len() {
    }
}

impl<T0, T1, T2, T3, T4, T5, T6, T7, T8, T9, T10> TypedExtract<6, 10, (T6, T7, T8, T9)>
    for (T0, T1, T2, T3, T4, T5, T6, T7, T8, T9, T10)
{
    open spec fn spec_extract(self) -> (T6, T7, T8, T9) {
        (self.6, self.7, self.8, self.9)
    }

    open spec fn spec_source_len() -> nat {
        11
    }

    fn extract(self) -> (r: (T6, T7, T8, T9)) {
        (self.6, self.7, self.8, self.9)
    }

    proof fn lemma_extract_len() {
    }
}

impl<T0, T1, T2, T3, T4, T5, T6, T7, T8, T9, T10> TypedExtract<6, 11, (T6, T7, T8, T9, T10)>
    for (T0, T1, T2, T3, T4, T5, T6, T7, T8, T9, T10)
{
    open spec fn spec_extract(self) -> (T6, T7, T8, T9, T10) {
        (self.6, self.7, self.8, self.9, self.10)
    }

    open spec fn spec_source_len() -> nat {
        11
    }

    fn extract(self) -> (r: (T6, T7, T8, T9, T10)) {
        (self.6, self.7, self.8, self.9, self.10)
    }

    proof fn lemma_extract_len() {
    }
}

impl<T0, T1, T2, T3, T4, T5, T6, T7, T8, T9, T10> TypedExtract<7, 7, ()>
    for (T0, T1, T2, T3, T4, T5, T6, T7, T8, T9, T10)
{
    open spec fn spec_extract(self) -> () {
        ()
    }

    open spec fn spec_source_len() -> nat {
        11
    }

    fn extract(self) -> (r: ()) {
        ()
    }

    proof fn lemma_extract_len() {
    }
}

impl<T0, T1, T2, T3, T4, T5, T6, T7, T8, T9, T10> TypedExtract<7, 8, (T7,)>
    for (T0, T1, T2, T3, T4, T5, T6, T7, T8, T9, T10)
{
    open spec fn spec_extract(self) -> (T7,) {
        (self.7,)
    }

    open spec fn spec_source_len() -> nat {
        11
    }

    fn extract(self) -> (r: (T7,)) {
        (self.7,)
    }

    proof fn lemma_extract_len() {
    }
}

impl<T0, T1, T2, T3, T4, T5, T6, T7, T8, T9, T10> TypedExtract<7, 9, (T7, T8)>
    for (T0, T1, T2, T3, T4, T5, T6, T7, T8, T9, T10)
{
    open spec fn spec_extract(self) -> (T7, T8) {
        (self.7, self.8)
    }

    open spec fn spec_source_len() -> nat {
        11
    }

    fn extract(self) -> (r: (T7, T8)) {
        (self.7, self.8)
    }

    proof fn lemma_extract_len() {
    }
}

impl<T0, T1, T2, T3, T4, T5, T6, T7, T8, T9, T10> TypedExtract<7, 10, (T7, T8, T9)>
    for (T0, T1, T2, T3, T4, T5, T6, T7, T8, T9, T10)
{
    open spec fn spec_extract(self) -> (T7, T8, T9) {
        (self.7, self.8, self.9)
    }

    open spec fn spec_source_len() -> nat {
        11
    }

    fn extract(self) -> (r: (T7, T8, T9)) {
        (self.7, self.8, self.9)
    }

    proof fn lemma_extract_len() {
    }
}

impl<T0, T1, T2, T3, T4, T5, T6, T7, T8, T9, T10> TypedExtract<7, 11, (T7, T8, T9, T10)>
    for (T0, T1, T2, T3, T4, T5, T6, T7, T8, T9, T10)
{
    open spec fn spec_extract(self) -> (T7, T8, T9, T10) {
        (self.7, self.8, self.9, self.10)
    }

    open spec fn spec_source_len() -> nat {
        11
    }

    fn extract(self) -> (r: (T7, T8, T9, T10)) {
        (self.7, self.8, self.9, self.10)
    }

    proof fn lemma_extract_len() {
    }
}

impl<T0, T1, T2, T3, T4, T5, T6, T7, T8, T9, T10> TypedExtract<8, 8, ()>
    for (T0, T1, T2, T3, T4, T5, T6, T7, T8, T9, T10)
{
    open spec fn spec_extract(self) -> () {
        ()
    }

    open spec fn spec_source_len() -> nat {
        11
    }

    fn extract(self) -> (r: ()) {
        ()
    }

    proof fn lemma_extract_len() {
    }
}

impl<T0, T1, T2, T3, T4, T5, T6, T7, T8, T9, T10> TypedExtract<8, 9, (T8,)>
    for (T0, T1, T2, T3, T4, T5, T6, T7, T8, T9, T10)
{
    open spec fn spec_extract(self) -> (T8,) {
        (self.8,)
    }

    open spec fn spec_source_len() -> nat {
        11
    }

    fn extract(self) -> (r: (T8,)) {
        (self.8,)
    }

    proof fn lemma_extract_len() {
    }
}

impl<T0, T1, T2, T3, T4, T5, T6, T7, T8, T9, T10> TypedExtract<8, 10, (T8, T9)>
    for (T0, T1, T2, T3, T4, T5, T6, T7, T8, T9, T10)
{
    open spec fn spec_extract(self) -> (T8, T9) {
        (self.8, self.9)
    }

    open spec fn spec_source_len() -> nat {
        11
    }

    fn extract(self) -> (r: (T8, T9)) {
        (self.8, self.9)
    }

    proof fn lemma_extract_len() {
    }
}

impl<T0, T1, T2, T3, T4, T5, T6, T7, T8, T9, T10> TypedExtract<8, 11, (T8, T9, T10)>
    for (T0, T1, T2, T3, T4, T5, T6, T7, T8, T9, T10)
{
    open spec fn spec_extract(self) -> (T8, T9, T10) {
        (self.8, self.9, self.10)
    }

    open spec fn spec_source_len() -> nat {
        11
    }

    fn extract(self) -> (r: (T8, T9, T10)) {
        (self.8, self.9, self.10)
    }

    proof fn lemma_extract_len() {
    }
}

impl<T0, T1, T2, T3, T4, T5, T6, T7, T8, T9, T10> TypedExtract<9, 9, ()>
    for (T0, T1, T2, T3, T4, T5, T6, T7, T8, T9, T10)
{
    open spec fn spec_extract(self) -> () {
        ()
    }

    open spec fn spec_source_len() -> nat {
        11
    }

    fn extract(self) -> (r: ()) {
        ()
    }

    proof fn lemma_extract_len() {
    }
}

impl<T0, T1, T2, T3, T4, T5, T6, T7, T8, T9, T10> TypedExtract<9, 10, (T9,)>
    for (T0, T1, T2, T3, T4, T5, T6, T7, T8, T9, T10)
{
    open spec fn spec_extract(self) -> (T9,) {
        (self.9,)
    }

    open spec fn spec_source_len() -> nat {
        11
    }

    fn extract(self) -> (r: (T9,)) {
        (self.9,)
    }

    proof fn lemma_extract_len() {
    }
}

impl<T0, T1, T2, T3, T4, T5, T6, T7, T8, T9, T10> TypedExtract<9, 11, (T9, T10)>
    for (T0, T1, T2, T3, T4, T5, T6, T7, T8, T9, T10)
{
    open spec fn spec_extract(self) -> (T9, T10) {
        (self.9, self.10)
    }

    open spec fn spec_source_len() -> nat {
        11
    }

    fn extract(self) -> (r: (T9, T10)) {
        (self.9, self.10)
    }

    proof fn lemma_extract_len() {
    }
}

impl<T0, T1, T2, T3, T4, T5, T6, T7, T8, T9, T10> TypedExtract<10, 10, ()>
    for (T0, T1, T2, T3, T4, T5, T6, T7, T8, T9, T10)
{
    open spec fn spec_extract(self) -> () {
        ()
    }

    open spec fn spec_source_len() -> nat {
        11
    }

    fn extract(self) -> (r: ()) {
        ()
    }

    proof fn lemma_extract_len() {
    }
}

impl<T0, T1, T2, T3, T4, T5, T6, T7, T8, T9, T10> TypedExtract<10, 11, (T10,)>
    for (T0, T1, T2, T3, T4, T5, T6, T7, T8, T9, T10)
{
    open spec fn spec_extract(self) -> (T10,) {
        (self.10,)
    }

    open spec fn spec_source_len() -> nat {
        11
    }

    fn extract(self) -> (r: (T10,)) {
        (self.10,)
    }

    proof fn lemma_extract_len() {
    }
}

impl<T0, T1, T2, T3, T4, T5, T6, T7, T8, T9, T10, T11> TypedExtract<0, 0, ()>
    for (T0, T1, T2, T3, T4, T5, T6, T7, T8, T9, T10, T11)
{
    open spec fn spec_extract(self) -> () {
        ()
    }

    open spec fn spec_source_len() -> nat {
        12
    }

    fn extract(self) -> (r: ()) {
        ()
    }

    proof fn lemma_extract_len() {
    }
}

impl<T0, T1, T2, T3, T4, T5, T6, T7, T8, T9, T10, T11> TypedExtract<0, 1, (T0,)>
    for (T0, T1, T2, T3, T4, T5, T6, T7, T8, T9, T10, T11)
{
    open spec fn spec_extract(self) -> (T0,) {
        (self.0,)
    }

    open spec fn spec_source_len() -> nat {
        12
    }

    fn extract(self) -> (r: (T0,)) {
        (self.0,)
    }

    proof fn lemma_extract_len() {
    }
}

impl<T0, T1, T2, T3, T4, T5, T6, T7, T8, T9, T10, T11> TypedExtract<0, 2, (T0, T1)>
    for (T0, T1, T2, T3, T4, T5, T6, T7, T8, T9, T10, T11)
{
    open spec fn spec_extract(self) -> (T0, T1) {
        (self.0, self.1)
    }

    open spec fn spec_source_len() -> nat {
        12
    }

    fn extract(self) -> (r: (T0, T1)) {
        (self.0, self.1)
    }

    proof fn lemma_extract_len() {
    }
}

impl<T0, T1, T2, T3, T4, T5, T6, T7, T8, T9, T10, T11> TypedExtract<0, 3, (T0, T1, T2)>
    for (T0, T1, T2, T3, T4, T5, T6, T7, T8, T9, T10, T11)
{
    open spec fn spec_extract(self) -> (T0, T1, T2) {
        (self.0, self.1, self.2)
    }

    open spec fn spec_source_len() -> nat {
        12
    }

    fn extract(self) -> (r: (T0, T1, T2)) {
        (self.0, self.1, self.2)
    }

    proof fn lemma_extract_len() {
    }
}

impl<T0, T1, T2, T3, T4, T5, T6, T7, T8, T9, T10, T11> TypedExtract<0, 4, (T0, T1, T2, T3)>
    for (T0, T1, T2, T3, T4, T5, T6, T7, T8, T9, T10, T11)
{
    open spec fn spec_extract(self) -> (T0, T1, T2, T3) {
        (self.0, self.1, self.2, self.3)
    }

    open spec fn spec_source_len() -> nat {
        12
    }

    fn extract(self) -> (r: (T0, T1, T2, T3)) {
        (self.0, self.1, self.2, self.3)
    }

    proof fn lemma_extract_len() {
    }
}

impl<T0, T1, T2, T3, T4, T5, T6, T7, T8, T9, T10, T11> TypedExtract<0, 5, (T0, T1, T2, T3, T4)>
    for (T0, T1, T2, T3, T4, T5, T6, T7, T8, T9, T10, T11)
{
    open spec fn spec_extract(self) -> (T0, T1, T2, T3, T4) {
        (self.0, self.1, self.2, self.3, self.4)
    }

    open spec fn spec_source_len() -> nat {
        12
    }

    fn extract(self) -> (r: (T0, T1, T2, T3, T4)) {
        (self.0, self.1, self.2, self.3, self.4)
    }

    proof fn lemma_extract_len() {
    }
}

impl<T0, T1, T2, T3, T4, T5, T6, T7, T8, T9, T10, T11> TypedExtract<0, 6, (T0, T1, T2, T3, T4, T5)>
    for (T0, T1, T2, T3, T4, T5, T6, T7, T8, T9, T10, T11)
{
    open spec fn spec_extract(self) -> (T0, T1, T2, T3, T4, T5) {
        (self.0, self.1, self.2, self.3, self.4, self.5)
    }

    open spec fn spec_source_len() -> nat {
        12
    }

    fn extract(self) -> (r: (T0, T1, T2, T3, T4, T5)) {
        (self.0, self.1, self.2, self.3, self.4, self.5)
    }

    proof fn lemma_extract_len() {
    }
}

impl<T0, T1, T2, T3, T4, T5, T6, T7, T8, T9, T10, T11> TypedExtract<0, 7, (T0, T1, T2, T3, T4, T5,
    T6)>
    for (T0, T1, T2, T3, T4, T5, T6, T7, T8, T9, T10, T11)
{
    open spec fn spec_extract(self) -> (T0, T1, T2, T3, T4, T5, T6) {
        (self.0, self.1, self.2, self.3, self.4, self.5, self.6)
    }

    open spec fn spec_source_len() -> nat {
        12
    }

    fn extract(self) -> (r: (T0, T1, T2, T3, T4, T5, T6)) {
        (self.0, self.1, self.2, self.3, self.4, self.5, self.6)
    }

    proof fn lemma_extract_len() {
    }
}

impl<T0, T1, T2, T3, T4, T5, T6, T7, T8, T9, T10, T11> TypedExtract<0, 8, (T0, T1, T2, T3, T4, T5,
    T6, T7)>
    for (T0, T1, T2, T3, T4, T5, T6, T7, T8, T9, T10, T11)
{
    open spec fn spec_extract(self) -> (T0, T1, T2, T3, T4, T5, T6, T7) {
        (self.0, self.1, self.2, self.3, self.4, self.5, self.6, self.7)
    }

    open spec fn spec_source_len() -> nat {
        12
    }

    fn extract(self) -> (r: (T0, T1, T2, T3, T4, T5, T6, T7)) {
        (self.0, self.1, self.2, self.3, self.4, self.5, self.6, self.7)
    }

    proof fn lemma_extract_len() {
    }
}

impl<T0, T1, T2, T3, T4, T5, T6, T7, T8, T9, T10, T11> TypedExtract<0, 9, (T0, T1, T2, T3, T4, T5,
    T6, T7, T8)>
    for (T0, T1, T2, T3, T4, T5, T6, T7, T8, T9, T10, T11)
{
    open spec fn spec_extract(self) -> (T0, T1, T2, T3, T4, T5, T6, T7, T8) {
        (self.0, self.1, self.2, self.3, self.4, self.5, self.6, self.7, self.8)
    }

    open spec fn spec_source_len() -> nat {
        12
    }

    fn extract(self) -> (r: (T0, T1, T2, T3, T4, T5, T6, T7, T8)) {
        (self.0, self.1, self.2, self.3, self.4, self.5, self.6, self.7, self.8)
    }

    proof fn lemma_extract_len() {
    }
}

impl<T0, T1, T2, T3, T4, T5, T6, T7, T8, T9, T10, T11> TypedExtract<0, 10, (T0, T1, T2, T3, T4, T5,
    T6, T7, T8, T9)>
    for (T0, T1, T2, T3, T4, T5, T6, T7, T8, T9, T10, T11)
{
    open spec fn spec_extract(self) -> (T0, T1, T2, T3, T4, T5, T6, T7, T8, T9) {
        (self.0, self.1, self.2, self.3, self.4, self.5, self.6, self.7, self.8, self.9)
    }

    open spec fn spec_source_len() -> nat {
        12
    }

    fn extract(self) -> (r: (T0, T1, T2, T3, T4, T5, T6, T7, T8, T9)) {
        (self.0, self.1, self.2, self.3, self.4, self.5, self.6, self.7, self.8, self.9)
    }

    proof fn lemma_extract_len() {
    }
}

impl<T0, T1, T2, T3, T4, T5, T6, T7, T8, T9, T10, T11> TypedExtract<0, 11, (T0, T1, T2, T3, T4, T5,
    T6, T7, T8, T9, T10)>
    for (T0, T1, T2, T3, T4, T5, T6, T7, T8, T9, T10, T11)
{
    open spec fn spec_extract(self) -> (T0, T1, T2, T3, T4, T5, T6, T7, T8, T9, T10) {
        (self.0, self.1, self.2, self.3, self.4, self.5, self.6, self.7, self.8, self.9, self.10)
    }

    open spec fn spec_source_len() -> nat {
        12
    }

    fn extract(self) -> (r: (T0, T1, T2, T3, T4, T5, T6, T7, T8, T9, T10)) {
        (self.0, self.1, self.2, self.3, self.4, self.5, self.6, self.7, self.8, self.9, self.10)
    }

    proof fn lemma_extract_len() {
    }
}

impl<T0, T1, T2, T3, T4, T5, T6, T7, T8, T9, T10, T11> TypedExtract<0, 12, (T0, T1, T2, T3, T4, T5,
    T6, T7, T8, T9, T10, T11)>
    for (T0, T1, T2, T3, T4, T5, T6, T7, T8, T9, T10, T11)
{
    open spec fn spec_extract(self) -> (T0, T1, T2, T3, T4, T5, T6, T7, T8, T9, T10, T11) {
        (self.0, self.1, self.2, self.3, self.4, self.5, self.6, self.7, self.8, self.9, self.10,
            self.11)
    }

    open spec fn spec_source_len() -> nat {
        12
    }

    fn extract(self) -> (r: (T0, T1, T2, T3, T4, T5, T6, T7, T8, T9, T10, T11)) {
        (self.0, self.1, self.2, self.3, self.4, self.5, self.6, self.7, self.8, self.9, self.10,
            self.11)
    }

    proof fn lemma_extract_len() {
    }
}

impl<T0, T1, T2, T3, T4, T5, T6, T7, T8, T9, T10, T11> TypedExtract<1, 1, ()>
    for (T0, T1, T2, T3, T4, T5, T6, T7, T8, T9, T10, T11)
{
    open spec fn spec_extract(self) -> () {
        ()
    }

    open spec fn spec_source_len() -> nat {
        12
    }

    fn extract(self) -> (r: ()) {
        ()
    }

    proof fn lemma_extract_len() {
    }
}

impl<T0, T1, T2, T3, T4, T5, T6, T7, T8, T9, T10, T11> TypedExtract<1, 2, (T1,)>
    for (T0, T1, T2, T3, T4, T5, T6, T7, T8, T9, T10, T11)
{
    open spec fn spec_extract(self) -> (T1,) {
        (self.1,)
    }

    open spec fn spec_source_len() -> nat {
        12
    }

    fn extract(self) -> (r: (T1,)) {
        (self.1,)
    }

    proof fn lemma_extract_len() {
    }
}

impl<T0, T1, T2, T3, T4, T5, T6, T7, T8, T9, T10, T11> TypedExtract<1, 3, (T1, T2)>
    for (T0, T1, T2, T3, T4, T5, T6, T7, T8, T9, T10, T11)
{
    open spec fn spec_extract(self) -> (T1, T2) {
        (self.1, self.2)
    }

    open spec fn spec_source_len() -> nat {
        12
    }

    fn extract(self) -> (r: (T1, T2)) {
        (self.1, self.2)
    }

    proof fn lemma_extract_len() {
    }
}

impl<T0, T1, T2, T3, T4, T5, T6, T7, T8, T9, T10, T11> TypedExtract<1, 4, (T1, T2, T3)>
    for (T0, T1, T2, T3, T4, T5, T6, T7, T8, T9, T10, T11)
{
    open spec fn spec_extract(self) -> (T1, T2, T3) {
        (self.1, self.2, self.3)
    }

    open spec fn spec_source_len() -> nat {
        12
    }

    fn extract(self) -> (r: (T1, T2, T3)) {
        (self.1, self.2, self.3)
    }

    proof fn lemma_extract_len() {
    }
}

impl<T0, T1, T2, T3, T4, T5, T6, T7, T8, T9, T10, T11> TypedExtract<1, 5, (T1, T2, T3, T4)>
    for (T0, T1, T2, T3, T4, T5, T6, T7, T8, T9, T10, T11)
{
    open spec fn spec_extract(self) -> (T1, T2, T3, T4) {
        (self.1, self.2, self.3, self.4)
    }

    open spec fn spec_source_len() -> nat {
        12
    }

    fn extract(self) -> (r: (T1, T2, T3, T4)) {
        (self.1, self.2, self.3, self.4)
    }

    proof fn lemma_extract_len() {
    }
}

impl<T0, T1, T2, T3, T4, T5, T6, T7, T8, T9, T10, T11> TypedExtract<1, 6, (T1, T2, T3, T4, T5)>
    for (T0, T1, T2, T3, T4, T5, T6, T7, T8, T9, T10, T11)
{
    open spec fn spec_extract(self) -> (T1, T2, T3, T4, T5) {
        (self.1, self.2, self.3, self.4, self.5)
    }

    open spec fn spec_source_len() -> nat {
        12
    }

    fn extract(self) -> (r: (T1, T2, T3, T4, T5)) {
        (self.1, self.2, self.3, self.4, self.5)
    }

    proof fn lemma_extract_len() {
    }
}

impl<T0, T1, T2, T3, T4, T5, T6, T7, T8, T9, T10, T11> TypedExtract<1, 7, (T1, T2, T3, T4, T5, T6)>
    for (T0, T1, T2, T3, T4, T5, T6, T7, T8, T9, T10, T11)
{
    open spec fn spec_extract(self) -> (T1, T2, T3, T4, T5, T6) {
        (self.1, self.2, self.3, self.4, self.5, self.6)
    }

    open spec fn spec_source_len() -> nat {
        12
    }

    fn extract(self) -> (r: (T1, T2, T3, T4, T5, T6)) {
        (self.1, self.2, self.3, self.4, self.5, self.6)
    }

    proof fn lemma_extract_len() {
    }
}

impl<T0, T1, T2, T3, T4, T5, T6, T7, T8, T9, T10, T11> TypedExtract<1, 8, (T1, T2, T3, T4, T5, T6,
    T7)>
    for (T0, T1, T2, T3, T4, T5, T6, T7, T8, T9, T10, T11)
{
    open spec fn spec_extract(self) -> (T1, T2, T3, T4, T5, T6, T7) {
        (self.1, self.2, self.3, self.4, self.5, self.6, self.7)
    }

    open spec fn spec_source_len() -> nat {
        12
    }

    fn extract(self) -> (r: (T1, T2, T3, T4, T5, T6, T7)) {
        (self.1, self.2, self.3, self.4, self.5, self.6, self.7)
    }

    proof fn lemma_extract_len() {
    }
}

impl<T0, T1, T2, T3, T4, T5, T6, T7, T8, T9, T10, T11> TypedExtract<1, 9, (T1, T2, T3, T4, T5, T6,
    T7, T8)>
    for (T0, T1, T2, T3, T4, T5, T6, T7, T8, T9, T10, T11)
{
    open spec fn spec_extract(self) -> (T1, T2, T3, T4, T5, T6, T7, T8) {
        (self.1, self.2, self.3, self.4, self.5, self.6, self.7, self.8)
    }

    open spec fn spec_source_len() -> nat {
        12
    }

    fn extract(self) -> (r: (T1, T2, T3, T4, T5, T6, T7, T8)) {
        (self.1, self.2, self.3, self.4, self.5, self.6, self.7, self.8)
    }

    proof fn lemma_extract_len() {
    }
}

impl<T0, T1, T2, T3, T4, T5, T6, T7, T8, T9, T10, T11> TypedExtract<1, 10, (T1, T2, T3, T4, T5, T6,
    T7, T8, T9)>
    for (T0, T1, T2, T3, T4, T5, T6, T7, T8, T9, T10, T11)
{
    open spec fn spec_extract(self) -> (T1, T2, T3, T4, T5, T6, T7, T8, T9) {
        (self.1, self.2, self.3, self.4, self.5, self.6, self.7, self.8, self.9)
    }

    open spec fn spec_source_len() -> nat {
        12
    }

    fn extract(self) -> (r: (T1, T2, T3, T4, T5, T6, T7, T8, T9)) {
        (self.1, self.2, self.3, self.4, self.5, self.6, self.7, self.8, self.9)
    }

    proof fn lemma_extract_len() {
    }
}

impl<T0, T1, T2, T3, T4, T5, T6, T7, T8, T9, T10, T11> TypedExtract<1, 11, (T1, T2, T3, T4, T5, T6,
    T7, T8, T9, T10)>
    for (T0, T1, T2, T3, T4, T5, T6, T7, T8, T9, T10, T11)
{
    open spec fn spec_extract(self) -> (T1, T2, T3, T4, T5, T6, T7, T8, T9, T10) {
        (self.1, self.2, self.3, self.4, self.5, self.6, self.7, self.8, self.9, self.10)
    }

    open spec fn spec_source_len() -> nat {
        12
    }

    fn extract(self) -> (r: (T1, T2, T3, T4, T5, T6, T7, T8, T9, T10)) {
        (self.1, self.2, self.3, self.4, self.5, self.6, self.7, self.8, self.9, self.10)
    }

    proof fn lemma_extract_len() {
    }
}

impl<T0, T1, T2, T3, T4, T5, T6, T7, T8, T9, T10, T11> TypedExtract<1, 12, (T1, T2, T3, T4, T5, T6,
    T7, T8, T9, T10, T11)>
    for (T0, T1, T2, T3, T4, T5, T6, T7, T8, T9, T10, T11)
{
    open spec fn spec_extract(self) -> (T1, T2, T3, T4, T5, T6, T7, T8, T9, T10, T11) {
        (self.1, self.2, self.3, self.4, self.5, self.6, self.7, self.8, self.9, self.10, self.11)
    }

    open spec fn spec_source_len() -> nat {
        12
    }

    fn extract(self) -> (r: (T1, T2, T3, T4, T5, T6, T7, T8, T9, T10, T11)) {
        (self.1, self.2, self.3, self.4, self.5, self.6, self.7, self.8, self.9, self.10, self.11)
    }

    proof fn lemma_extract_len() {
    }
}

impl<T0, T1, T2, T3, T4, T5, T6, T7, T8, T9, T10, T11> TypedExtract<2, 2, ()>
    for (T0, T1, T2, T3, T4, T5, T6, T7, T8, T9, T10, T11)
{
    open spec fn spec_extract(self) -> () {
        ()
    }

    open spec fn spec_source_len() -> nat {
        12
    }

    fn extract(self) -> (r: ()) {
        ()
    }

    proof fn lemma_extract_len() {
    }
}

impl<T0, T1, T2, T3, T4, T5, T6, T7, T8, T9, T10, T11> TypedExtract<2, 3, (T2,)>
    for (T0, T1, T2, T3, T4, T5, T6, T7, T8, T9, T10, T11)
{
    open spec fn spec_extract(self) -> (T2,) {
        (self.2,)
    }

    open spec fn spec_source_len() -> nat {
        12
    }

    fn extract(self) -> (r: (T2,)) {
        (self.2,)
    }

    proof fn lemma_extract_len() {
    }
}

impl<T0, T1, T2, T3, T4, T5, T6, T7, T8, T9, T10, T11> TypedExtract<2, 4, (T2, T3)>
    for (T0, T1, T2, T3, T4, T5, T6, T7, T8, T9, T10, T11)
{
    open spec fn spec_extract(self) -> (T2, T3) {
        (self.2, self.3)
    }

    open spec fn spec_source_len() -> nat {
        12
    }

    fn extract(self) -> (r: (T2, T3)) {
        (self.2, self.3)
    }

    proof fn lemma_extract_len() {
    }
}

impl<T0, T1, T2, T3, T4, T5, T6, T7, T8, T9, T10, T11> TypedExtract<2, 5, (T2, T3, T4)>
    for (T0, T1, T2, T3, T4, T5, T6, T7, T8, T9, T10, T11)
{
    open spec fn spec_extract(self) -> (T2, T3, T4) {
        (self.2, self.3, self.4)
    }

    open spec fn spec_source_len() -> nat {
        12
    }

    fn extract(self) -> (r: (T2, T3, T4)) {
        (self.2, self.3, self.4)
    }

    proof fn lemma_extract_len() {
    }
}

impl<T0, T1, T2, T3, T4, T5, T6, T7, T8, T9, T10, T11> TypedExtract<2, 6, (T2, T3, T4, T5)>
    for (T0, T1, T2, T3, T4, T5, T6, T7, T8, T9, T10, T11)
{
    open spec fn spec_extract(self) -> (T2, T3, T4, T5) {
        (self.2, self.3, self.4, self.5)
    }

    open spec fn spec_source_len() -> nat {
        12
    }

    fn extract(self) -> (r: (T2, T3, T4, T5)) {
        (self.2, self.3, self.4, self.5)
    }

    proof fn lemma_extract_len() {
    }
}

impl<T0, T1, T2, T3, T4, T5, T6, T7, T8, T9, T10, T11> TypedExtract<2, 7, (T2, T3, T4, T5, T6)>
    for (T0, T1, T2, T3, T4, T5, T6, T7, T8, T9, T10, T11)
{
    open spec fn spec_extract(self) -> (T2, T3, T4, T5, T6) {
        (self.2, self.3, self.4, self.5, self.6)
    }

    open spec fn spec_source_len() -> nat {
        12
    }

    fn extract(self) -> (r: (T2, T3, T4, T5, T6)) {
        (self.2, self.3, self.4, self.5, self.6)
    }

    proof fn lemma_extract_len() {
    }
}

impl<T0, T1, T2, T3, T4, T5, T6, T7, T8, T9, T10, T11> TypedExtract<2, 8, (T2, T3, T4, T5, T6, T7)>
    for (T0, T1, T2, T3, T4, T5, T6, T7, T8, T9, T10, T11)
{
    open spec fn spec_extract(self) -> (T2, T3, T4, T5, T6, T7) {
        (self.2, self.3, self.4, self.5, self.6, self.7)
    }

    open spec fn spec_source_len() -> nat {
        12
    }

    fn extract(self) -> (r: (T2, T3, T4, T5, T6, T7)) {
        (self.2, self.3, self.4, self.5, self.6, self.7)
    }

    proof fn lemma_extract_len() {
    }
}

impl<T0, T1, T2, T3, T4, T5, T6, T7, T8, T9, T10, T11> TypedExtract<2, 9, (T2, T3, T4, T5, T6, T7,
    T8)>
    for (T0, T1, T2, T3, T4, T5, T6, T7, T8, T9, T10, T11)
{
    open spec fn spec_extract(self) -> (T2, T3, T4, T5, T6, T7, T8) {
        (self.2, self.3, self.4, self.5, self.6, self.7, self.8)
    }

    open spec fn spec_source_len() -> nat {
        12
    }

    fn extract(self) -> (r: (T2, T3, T4, T5, T6, T7, T8)) {
        (self.2, self.3, self.4, self.5, self.6, self.7, self.8)
    }

    proof fn lemma_extract_len() {
    }
}

impl<T0, T1, T2, T3, T4, T5, T6, T7, T8, T9, T10, T11> TypedExtract<2, 10, (T2, T3, T4, T5, T6, T7,
    T8, T9)>
    for (T0, T1, T2, T3, T4, T5, T6, T7, T8, T9, T10, T11)
{
    open spec fn spec_extract(self) -> (T2, T3, T4, T5, T6, T7, T8, T9) {
        (self.2, self.3, self.4, self.5, self.6, self.7, self.8, self.9)
    }

    open spec fn spec_source_len() -> nat {
        12
    }

    fn extract(self) -> (r: (T2, T3, T4, T5, T6, T7, T8, T9)) {
        (self.2, self.3, self.4, self.5, self.6, self.7, self.8, self.9)
    }

    proof fn lemma_extract_len() {
    }
}

impl<T0, T1, T2, T3, T4, T5, T6, T7, T8, T9, T10, T11> TypedExtract<2, 11, (T2, T3, T4, T5, T6, T7,
    T8, T9, T10)>
    for (T0, T1, T2, T3, T4, T5, T6, T7, T8, T9, T10, T11)
{
    open spec fn spec_extract(self) -> (T2, T3, T4, T5, T6, T7, T8, T9, T10) {
        (self.2, self.3, self.4, self.5, self.6, self.7, self.8, self.9, self.10)
    }

    open spec fn spec_source_len() -> nat {
        12
    }

    fn extract(self) -> (r: (T2, T3, T4, T5, T6, T7, T8, T9, T10)) {
        (self.2, self.3, self.4, self.5, self.6, self.7, self.8, self.9, self.10)
    }

    proof fn lemma_extract_len() {
    }
}

impl<T0, T1, T2, T3, T4, T5, T6, T7, T8, T9, T10, T11> TypedExtract<2, 12, (T2, T3, T4, T5, T6, T7,
    T8, T9, T10, T11)>
    for (T0, T1, T2, T3, T4, T5, T6, T7, T8, T9, T10, T11)
{
    open spec fn spec_extract(self) -> (T2, T3, T4, T5, T6, T7, T8, T9, T10, T11) {
        (self.2, self.3, self.4, self.5, self.6, self.7, self.8, self.9, self.10, self.11)
    }

    open spec fn spec_source_len() -> nat {
        12
    }

    fn extract(self) -> (r: (T2, T3, T4, T5, T6, T7, T8, T9, T10, T11)) {
        (self.2, self.3, self.4, self.5, self.6, self.7, self.8, self.9, self.10, self.11)
    }

    proof fn lemma_extract_len() {
    }
}

impl<T0, T1, T2, T3, T4, T5, T6, T7, T8, T9, T10, T11> TypedExtract<3, 3, ()>
    for (T0, T1, T2, T3, T4, T5, T6, T7, T8, T9, T10, T11)
{
    open spec fn spec_extract(self) -> () {
        ()
    }

    open spec fn spec_source_len() -> nat {
        12
    }

    fn extract(self) -> (r: ()) {
        ()
    }

    proof fn lemma_extract_len() {
    }
}

impl<T0, T1, T2, T3, T4, T5, T6, T7, T8, T9, T10, T11> TypedExtract<3, 4, (T3,)>
    for (T0, T1, T2, T3, T4, T5, T6, T7, T8, T9, T10, T11)
{
    open spec fn spec_extract(self) -> (T3,) {
        (self.3,)
    }

    open spec fn spec_source_len() -> nat {
        12
    }

    fn extract(self) -> (r: (T3,)) {
        (self.3,)
    }

    proof fn lemma_extract_len() {
    }
}

impl<T0, T1, T2, T3, T4, T5, T6, T7, T8, T9, T10, T11> TypedExtract<3, 5, (T3, T4)>
    for (T0, T1, T2, T3, T4, T5, T6, T7, T8, T9, T10, T11)
{
    open spec fn spec_extract(self) -> (T3, T4) {
        (self.3, self.4)
    }

    open spec fn spec_source_len() -> nat {
        12
    }

    fn extract(self) -> (r: (T3, T4)) {
        (self.3, self.4)
    }

    proof fn lemma_extract_len() {
    }
}

impl<T0, T1, T2, T3, T4, T5, T6, T7, T8, T9, T10, T11> TypedExtract<3, 6, (T3, T4, T5)>
    for (T0, T1, T2, T3, T4, T5, T6, T7, T8, T9, T10, T11)
{
    open spec fn spec_extract(self) -> (T3, T4, T5) {
        (self.3, self.4, self.5)
    }

    open spec fn spec_source_len() -> nat {
        12
    }

    fn extract(self) -> (r: (T3, T4, T5)) {
        (self.3, self.4, self.5)
    }

    proof fn lemma_extract_len() {
    }
}

impl<T0, T1, T2, T3, T4, T5, T6, T7, T8, T9, T10, T11> TypedExtract<3, 7, (T3, T4, T5, T6)>
    for (T0, T1, T2, T3, T4, T5, T6, T7, T8, T9, T10, T11)
{
    open spec fn spec_extract(self) -> (T3, T4, T5, T6) {
        (self.3, self.4, self.5, self.6)
    }

    open spec fn spec_source_len() -> nat {
        12
    }

    fn extract(self) -> (r: (T3, T4, T5, T6)) {
        (self.3, self.4, self.5, self.6)
    }

    proof fn lemma_extract_len() {
    }
}

impl<T0, T1, T2, T3, T4, T5, T6, T7, T8, T9, T10, T11> TypedExtract<3, 8, (T3, T4, T5, T6, T7)>
    for (T0, T1, T2, T3, T4, T5, T6, T7, T8, T9, T10, T11)
{
    open spec fn spec_extract(self) -> (T3, T4, T5, T6, T7) {
        (self.3, self.4, self.5, self.6, self.7)
    }

    open spec fn spec_source_len() -> nat {
        12
    }

    fn extract(self) -> (r: (T3, T4, T5, T6, T7)) {
        (self.3, self.4, self.5, self.6, self.7)
    }

    proof fn lemma_extract_len() {
    }
}

impl<T0, T1, T2, T3, T4, T5, T6, T7, T8, T9, T10, T11> TypedExtract<3, 9, (T3, T4, T5, T6, T7, T8)>
    for (T0, T1, T2, T3, T4, T5, T6, T7, T8, T9, T10, T11)
{
    open spec fn spec_extract(self) -> (T3, T4, T5, T6, T7, T8) {
        (self.3, self.4, self.5, self.6, self.7, self.8)
    }

    open spec fn spec_source_len() -> nat {
        12
    }

    fn extract(self) -> (r: (T3, T4, T5, T6, T7, T8)) {
        (self.3, self.4, self.5, self.6, self.7, self.8)
    }

    proof fn lemma_extract_len() {
    }
}

impl<T0, T1, T2, T3, T4, T5, T6, T7, T8, T9, T10, T11> TypedExtract<3, 10, (T3, T4, T5, T6, T7, T8,
    T9)>
    for (T0, T1, T2, T3, T4, T5, T6, T7, T8, T9, T10, T11)
{
    open spec fn spec_extract(self) -> (T3, T4, T5, T6, T7, T8, T9) {
        (self.3, self.4, self.5, self.6, self.7, self.8, self.9)
    }

    open spec fn spec_source_len() -> nat {
        12
    }

    fn extract(self) -> (r: (T3, T4, T5, T6, T7, T8, T9)) {
        (self.3, self.4, self.5, self.6, self.7, self.8, self.9)
    }

    proof fn lemma_extract_len() {
    }
}

impl<T0, T1, T2, T3, T4, T5, T6, T7, T8, T9, T10, T11> TypedExtract<3, 11, (T3, T4, T5, T6, T7, T8,
    T9, T10)>
    for (T0, T1, T2, T3, T4, T5, T6, T7, T8, T9, T10, T11)
{
    open spec fn spec_extract(self) -> (T3, T4, T5, T6, T7, T8, T9, T10) {
        (self.3, self.4, self.5, self.6, self.7, self.8, self.9, self.10)
    }

    open spec fn spec_source_len() -> nat {
        12
    }

    fn extract(self) -> (r: (T3, T4, T5, T6, T7, T8, T9, T10)) {
        (self.3, self.4, self.5, self.6, self.7, self.8, self.9, self.10)
    }

    proof fn lemma_extract_len() {
    }
}

impl<T0, T1, T2, T3, T4, T5, T6, T7, T8, T9, T10, T11> TypedExtract<3, 12, (T3, T4, T5, T6, T7, T8,
    T9, T10, T11)>
    for (T0, T1, T2, T3, T4, T5, T6, T7, T8, T9, T10, T11)
{
    open spec fn spec_extract(self) -> (T3, T4, T5, T6, T7, T8, T9, T10, T11) {
        (self.3, self.4, self.5, self.6, self.7, self.8, self.9, self.10, self.11)
    }

    open spec fn spec_source_len() -> nat {
        12
    }

    fn extract(self) -> (r: (T3, T4, T5, T6, T7, T8, T9, T10, T11)) {
        (self.3, self.4, self.5, self.6, self.7, self.8, self.9, self.10, self.11)
    }

    proof fn lemma_extract_len() {
    }
}

impl<T0, T1, T2, T3, T4, T5, T6, T7, T8, T9, T10, T11> TypedExtract<4, 4, ()>
    for (T0, T1, T2, T3, T4, T5, T6, T7, T8, T9, T10, T11)
{
    open spec fn spec_extract(self) -> () {
        ()
    }

    open spec fn spec_source_len() -> nat {
        12
    }

    fn extract(self) -> (r: ()) {
        ()
    }

    proof fn lemma_extract_len() {
    }
}

impl<T0, T1, T2, T3, T4, T5, T6, T7, T8, T9, T10, T11> TypedExtract<4, 5, (T4,)>
    for (T0, T1, T2, T3, T4, T5, T6, T7, T8, T9, T10, T11)
{
    open spec fn spec_extract(self) -> (T4,) {
        (self.4,)
    }

    open spec fn spec_source_len() -> nat {
        12
    }

    fn extract(self) -> (r: (T4,)) {
        (self.4,)
    }

    proof fn lemma_extract_len() {
    }
}

impl<T0, T1, T2, T3, T4, T5, T6, T7, T8, T9, T10, T11> TypedExtract<4, 6, (T4, T5)>
    for (T0, T1, T2, T3, T4, T5, T6, T7, T8, T9, T10, T11)
{
    open spec fn spec_extract(self) -> (T4, T5) {
        (self.4, self.5)
    }

    open spec fn spec_source_len() -> nat {
        12
    }

    fn extract(self) -> (r: (T4, T5)) {
        (self.4, self.5)
    }

    proof fn lemma_extract_len() {
    }
}

impl<T0, T1, T2, T3, T4, T5, T6, T7, T8, T9, T10, T11> TypedExtract<4, 7, (T4, T5, T6)>
    for (T0, T1, T2, T3, T4, T5, T6, T7, T8, T9, T10, T11)
{
    open spec fn spec_extract(self) -> (T4, T5, T6) {
        (self.4, self.5, self.6)
    }

    open spec fn spec_source_len() -> nat {
        12
    }

    fn extract(self) -> (r: (T4, T5, T6)) {
        (self.4, self.5, self.6)
    }

    proof fn lemma_extract_len() {
    }
}

impl<T0, T1, T2, T3, T4, T5, T6, T7, T8, T9, T10, T11> TypedExtract<4, 8, (T4, T5, T6, T7)>
    for (T0, T1, T2, T3, T4, T5, T6, T7, T8, T9, T10, T11)
{
    open spec fn spec_extract(self) -> (T4, T5, T6, T7) {
        (self.4, self.5, self.6, self.7)
    }

    open spec fn spec_source_len() -> nat {
        12
    }

    fn extract(self) -> (r: (T4, T5, T6, T7)) {
        (self.4, self.5, self.6, self.7)
    }

    proof fn lemma_extract_len() {
    }
}

impl<T0, T1, T2, T3, T4, T5, T6, T7, T8, T9, T10, T11> TypedExtract<4, 9, (T4, T5, T6, T7, T8)>
    for (T0, T1, T2, T3, T4, T5, T6, T7, T8, T9, T10, T11)
{
    open spec fn spec_extract(self) -> (T4, T5, T6, T7, T8) {
        (self.4, self.5, self.6, self.7, self.8)
    }

    open spec fn spec_source_len() -> nat {
        12
    }

    fn extract(self) -> (r: (T4, T5, T6, T7, T8)) {
        (self.4, self.5, self.6, self.7, self.8)
    }

    proof fn lemma_extract_len() {
    }
}

impl<T0, T1, T2, T3, T4, T5, T6, T7, T8, T9, T10, T11> TypedExtract<4, 10, (T4, T5, T6, T7, T8, T9)>
    for (T0, T1, T2, T3, T4, T5, T6, T7, T8, T9, T10, T11)
{
    open spec fn spec_extract(self) -> (T4, T5, T6, T7, T8, T9) {
        (self.4, self.5, self.6, self.7, self.8, self.9)
    }

    open spec fn spec_source_len() -> nat {
        12
    }

    fn extract(self) -> (r: (T4, T5, T6, T7, T8, T9)) {
        (self.4, self.5, self.6, self.7, self.8, self.9)
    }

    proof fn lemma_extract_len() {
    }
}

impl<T0, T1, T2, T3, T4, T5, T6, T7, T8, T9, T10, T11> TypedExtract<4, 11, (T4, T5, T6, T7, T8, T9,
    T10)>
    for (T0, T1, T2, T3, T4, T5, T6, T7, T8, T9, T10, T11)
{
    open spec fn spec_extract(self) -> (T4, T5, T6, T7, T8, T9, T10) {
        (self.4, self.5, self.6, self.7, self.8, self.9, self.10)
    }

    open spec fn spec_source_len() -> nat {
        12
    }

    fn extract(self) -> (r: (T4, T5, T6, T7, T8, T9, T10)) {
        (self.4, self.5, self.6, self.7, self.8, self.9, self.10)
    }

    proof fn lemma_extract_len() {
    }
}

impl<T0, T1, T2, T3, T4, T5, T6, T7, T8, T9, T10, T11> TypedExtract<4, 12, (T4, T5, T6, T7, T8, T9,
    T10, T11)>
    for (T0, T1, T2, T3, T4, T5, T6, T7, T8, T9, T10, T11)
{
    open spec fn spec_extract(self) -> (T4, T5, T6, T7, T8, T9, T10, T11) {
        (self.4, self.5, self.6, self.7, self.8, self.9, self.10, self.11)
    }

    open spec fn spec_source_len() -> nat {
        12
    }

    fn extract(self) -> (r: (T4, T5, T6, T7, T8, T9, T10, T11)) {
        (self.4, self.5, self.6, self.7, self.8, self.9, self.10, self.11)
    }

    proof fn lemma_extract_len() {
    }
}

impl<T0, T1, T2, T3, T4, T5, T6, T7, T8, T9, T10, T11> TypedExtract<5, 5, ()>
    for (T0, T1, T2, T3, T4, T5, T6, T7, T8, T9, T10, T11)
{
    open spec fn spec_extract(self) -> () {
        ()
    }

    open spec fn spec_source_len() -> nat {
        12
    }

    fn extract(self) -> (r: ()) {
        ()
    }

    proof fn lemma_extract_len() {
    }
}

impl<T0, T1, T2, T3, T4, T5, T6, T7, T8, T9, T10, T11> TypedExtract<5, 6, (T5,)>
    for (T0, T1, T2, T3, T4, T5, T6, T7, T8, T9, T10, T11)
{
    open spec fn spec_extract(self) -> (T5,) {
        (self.5,)
    }

    open spec fn spec_source_len() -> nat {
        12
    }

    fn extract(self) -> (r: (T5,)) {
        (self.5,)
    }

    proof fn lemma_extract_len() {
    }
}

impl<T0, T1, T2, T3, T4, T5, T6, T7, T8, T9, T10, T11> TypedExtract<5, 7, (T5, T6)>
    for (T0, T1, T2, T3, T4, T5, T6, T7, T8, T9, T10, T11)
{
    open spec fn spec_extract(self) -> (T5, T6) {
        (self.5, self.6)
    }

    open spec fn spec_source_len() -> nat {
        12
    }

    fn extract(self) -> (r: (T5, T6)) {
        (self.5, self.6)
    }

    proof fn lemma_extract_len() {
    }
}

impl<T0, T1, T2, T3, T4, T5, T6, T7, T8, T9, T10, T11> TypedExtract<5, 8, (T5, T6, T7)>
    for (T0, T1, T2, T3, T4, T5, T6, T7, T8, T9, T10, T11)
{
    open spec fn spec_extract(self) -> (T5, T6, T7) {
        (self.5, self.6, self.7)
    }

    open spec fn spec_source_len() -> nat {
        12
    }

    fn extract(self) -> (r: (T5, T6, T7)) {
        (self.5, self.6, self.7)
    }

    proof fn lemma_extract_len() {
    }
}

impl<T0, T1, T2, T3, T4, T5, T6, T7, T8, T9, T10, T11> TypedExtract<5, 9, (T5, T6, T7, T8)>
    for (T0, T1, T2, T3, T4, T5, T6, T7, T8, T9, T10, T11)
{
    open spec fn spec_extract(self) -> (T5, T6, T7, T8) {
        (self.5, self.6, self.7, self.8)
    }

    open spec fn spec_source_len() -> nat {
        12
    }

    fn extract(self) -> (r: (T5, T6, T7, T8)) {
        (self.5, self.6, self.7, self.8)
    }

    proof fn lemma_extract_len() {
    }
}

impl<T0, T1, T2, T3, T4, T5, T6, T7, T8, T9, T10, T11> TypedExtract<5, 10, (T5, T6, T7, T8, T9)>
    for (T0, T1, T2, T3, T4, T5, T6, T7, T8, T9, T10, T11)
{
    open spec fn spec_extract(self) -> (T5, T6, T7, T8, T9) {
        (self.5, self.6, self.7, self.8, self.9)
    }

    open spec fn spec_source_len() -> nat {
        12
    }

    fn extract(self) -> (r: (T5, T6, T7, T8, T9)) {
        (self.5, self.6, self.7, self.8, self.9)
    }

    proof fn lemma_extract_len() {
    }
}

impl<T0, T1, T2, T3, T4, T5, T6, T7, T8, T9, T10, T11> TypedExtract<5, 11, (T5, T6, T7, T8, T9,
    T10)>
    for (T0, T1, T2, T3, T4, T5, T6, T7, T8, T9, T10, T11)
{
    open spec fn spec_extract(self) -> (T5, T6, T7, T8, T9, T10) {
        (self.5, self.6, self.7, self.8, self.9, self.10)
    }

    open spec fn spec_source_len() -> nat {
        12
    }

    fn extract(self) -> (r: (T5, T6, T7, T8, T9, T10)) {
        (self.5, self.6, self.7, self.8, self.9, self.10)
    }

    proof fn lemma_extract_len() {
    }
}

impl<T0, T1, T2, T3, T4, T5, T6, T7, T8, T9, T10, T11> TypedExtract<5, 12, (T5, T6, T7, T8, T9, T10,
    T11)>
    for (T0, T1, T2, T3, T4, T5, T6, T7, T8, T9, T10, T11)
{
    open spec fn spec_extract(self) -> (T5, T6, T7, T8, T9, T10, T11) {
        (self.5, self.6, self.7, self.8, self.9, self.10, self.11)
    }

    open spec fn spec_source_len() -> nat {
        12
    }

    fn extract(self) -> (r: (T5, T6, T7, T8, T9, T10, T11)) {
        (self.5, self.6, self.7, self.8, self.9, self.10, self.11)
    }

    proof fn lemma_extract_len() {
    }
}

impl<T0, T1, T2, T3, T4, T5, T6, T7, T8, T9, T10, T11> TypedExtract<6, 6, ()>
    for (T0, T1, T2, T3, T4, T5, T6, T7, T8, T9, T10, T11)
{
    open spec fn spec_extract(self) -> () {
        ()
    }

    open spec fn spec_source_len() -> nat {
        12
    }

    fn extract(self) -> (r: ()) {
        ()
    }

    proof fn lemma_extract_len() {
    }
}

impl<T0, T1, T2, T3, T4, T5, T6, T7, T8, T9, T10, T11> TypedExtract<6, 7, (T6,)>
    for (T0, T1, T2, T3, T4, T5, T6, T7, T8, T9, T10, T11)
{
    open spec fn spec_extract(self) -> (T6,) {
        (self.6,)
    }

    open spec fn spec_source_len() -> nat {
        12
    }

    fn extract(self) -> (r: (T6,)) {
        (self.6,)
    }

    proof fn lemma_extract_len() {
    }
}

impl<T0, T1, T2, T3, T4, T5, T6, T7, T8, T9, T10, T11> TypedExtract<6, 8, (T6, T7)>
    for (T0, T1, T2, T3, T4, T5, T6, T7, T8, T9, T10, T11)
{
    open spec fn spec_extract(self) -> (T6, T7) {
        (self.6, self.7)
    }

    open spec fn spec_source_len() -> nat {
        12
    }

    fn extract(self) -> (r: (T6, T7)) {
        (self.6, self.7)
    }

    proof fn lemma_extract_len() {
    }
}

impl<T0, T1, T2, T3, T4, T5, T6, T7, T8, T9, T10, T11> TypedExtract<6, 9, (T6, T7, T8)>
    for (T0, T1, T2, T3, T4, T5, T6, T7, T8, T9, T10, T11)
{
    open spec fn spec_extract(self) -> (T6, T7, T8) {
        (self.6, self.7, self.8)
    }

    open spec fn spec_source_len() -> nat {
        12
    }

    fn extract(self) -> (r: (T6, T7, T8)) {
        (self.6, self.7, self.8)
    }

    proof fn lemma_extract_len() {
    }
}

impl<T0, T1, T2, T3, T4, T5, T6, T7, T8, T9, T10, T11> TypedExtract<6, 10, (T6, T7, T8, T9)>
    for (T0, T1, T2, T3, T4, T5, T6, T7, T8, T9, T10, T11)
{
    open spec fn spec_extract(self) -> (T6, T7, T8, T9) {
        (self.6, self.7, self.8, self.9)
    }

    open spec fn spec_source_len() -> nat {
        12
    }

    fn extract(self) -> (r: (T6, T7, T8, T9)) {
        (self.6, self.7, self.8, self.9)
    }

    proof fn lemma_extract_len() {
    }
}

impl<T0, T1, T2, T3, T4, T5, T6, T7, T8, T9, T10, T11> TypedExtract<6, 11, (T6, T7, T8, T9, T10)>
    for (T0, T1, T2, T3, T4, T5, T6, T7, T8, T9, T10, T11)
{
    open spec fn spec_extract(self) -> (T6, T7, T8, T9, T10) {
        (self.6, self.7, self.8, self.9, self.10)
    }

    open spec fn spec_source_len() -> nat {
        12
    }

    fn extract(self) -> (r: (T6, T7, T8, T9, T10)) {
        (self.6, self.7, self.8, self.9, self.10)
    }

    proof fn lemma_extract_len() {
    }
}

impl<T0, T1, T2, T3, T4, T5, T6, T7, T8, T9, T10, T11> TypedExtract<6, 12, (T6, T7, T8, T9, T10,
    T11)>
    for (T0, T1, T2, T3, T4, T5, T6, T7, T8, T9, T10, T11)
{
    open spec fn spec_extract(self) -> (T6, T7, T8, T9, T10, T11) {
        (self.6, self.7, self.8, self.9, self.10, self.11)
    }

    open spec fn spec_source_len() -> nat {
        12
    }

    fn extract(self) -> (r: (T6, T7, T8, T9, T10, T11)) {
        (self.6, self.7, self.8, self.9, self.10, self.11)
    }

    proof fn lemma_extract_len() {
    }
}

impl<T0, T1, T2, T3, T4, T5, T6, T7, T8, T9, T10, T11> TypedExtract<7, 7, ()>
    for (T0, T1, T2, T3, T4, T5, T6, T7, T8, T9, T10, T11)
{
    open spec fn spec_extract(self) -> () {
        ()
    }

    open spec fn spec_source_len() -> nat {
        12
    }

    fn extract(self) -> (r: ()) {
        ()
    }

    proof fn lemma_extract_len() {
    }
}

impl<T0, T1, T2, T3, T4, T5, T6, T7, T8, T9, T10, T11> TypedExtract<7, 8, (T7,)>
    for (T0, T1, T2, T3, T4, T5, T6, T7, T8, T9, T10, T11)
{
    open spec fn spec_extract(self) -> (T7,) {
        (self.7,)
    }

    open spec fn spec_source_len() -> nat {
        12
    }

    fn extract(self) -> (r: (T7,)) {
        (self.7,)
    }

    proof fn lemma_extract_len() {
    }
}

impl<T0, T1, T2, T3, T4, T5, T6, T7, T8, T9, T10, T11> TypedExtract<7, 9, (T7, T8)>
    for (T0, T1, T2, T3, T4, T5, T6, T7, T8, T9, T10, T11)
{
    open spec fn spec_extract(self) -> (T7, T8) {
        (self.7, self.8)
    }

    open spec fn spec_source_len() -> nat {
        12
    }

    fn extract(self) -> (r: (T7, T8)) {
        (self.7, self.8)
    }

    proof fn lemma_extract_len() {
    }
}

impl<T0, T1, T2, T3, T4, T5, T6, T7, T8, T9, T10, T11> TypedExtract<7, 10, (T7, T8, T9)>
    for (T0, T1, T2, T3, T4, T5, T6, T7, T8, T9, T10, T11)
{
    open spec fn spec_extract(self) -> (T7, T8, T9) {
        (self.7, self.8, self.9)
    }

    open spec fn spec_source_len() -> nat {
        12
    }

    fn extract(self) -> (r: (T7, T8, T9)) {
        (self.7, self.8, self.9)
    }

    proof fn lemma_extract_len() {
    }
}

impl<T0, T1, T2, T3, T4, T5, T6, T7, T8, T9, T10, T11> TypedExtract<7, 11, (T7, T8, T9, T10)>
    for (T0, T1, T2, T3, T4, T5, T6, T7, T8, T9, T10, T11)
{
    open spec fn spec_extract(self) -> (T7, T8, T9, T10) {
        (self.7, self.8, self.9, self.10)
    }

    open spec fn spec_source_len() -> nat {
        12
    }

    fn extract(self) -> (r: (T7, T8, T9, T10)) {
        (self.7, self.8, self.9, self.10)
    }

    proof fn lemma_extract_len() {
    }
}

impl<T0, T1, T2, T3, T4, T5, T6, T7, T8, T9, T10, T11> TypedExtract<7, 12, (T7, T8, T9, T10, T11)>
    for (T0, T1, T2, T3, T4, T5, T6, T7, T8, T9, T10, T11)
{
    open spec fn spec_extract(self) -> (T7, T8, T9, T10, T11) {
        (self.7, self.8, self.9, self.10, self.11)
    }

    open spec fn spec_source_len() -> nat {
        12
    }

    fn extract(self) -> (r: (T7, T8, T9, T10, T11)) {
        (self.7, self.8, self.9, self.10, self.11)
    }

    proof fn lemma_extract_len() {
    }
}

impl<T0, T1, T2, T3, T4, T5, T6, T7, T8, T9, T10, T11> TypedExtract<8, 8, ()>
    for (T0, T1, T2, T3, T4, T5, T6, T7, T8, T9, T10, T11)
{
    open spec fn spec_extract(self) -> () {
        ()
    }

    open spec fn spec_source_len() -> nat {
        12
    }

    fn extract(self) -> (r: ()) {
        ()
    }

    proof fn lemma_extract_len() {
    }
}

impl<T0, T1, T2, T3, T4, T5, T6, T7, T8, T9, T10, T11> TypedExtract<8, 9, (T8,)>
    for (T0, T1, T2, T3, T4, T5, T6, T7, T8, T9, T10, T11)
{
    open spec fn spec_extract(self) -> (T8,) {
        (self.8,)
    }

    open spec fn spec_source_len() -> nat {
        12
    }

    fn extract(self) -> (r: (T8,)) {
        (self.8,)
    }

    proof fn lemma_extract_len() {
    }
}

impl<T0, T1, T2, T3, T4, T5, T6, T7, T8, T9, T10, T11> TypedExtract<8, 10, (T8, T9)>
    for (T0, T1, T2, T3, T4, T5, T6, T7, T8, T9, T10, T11)
{
    open spec fn spec_extract(self) -> (T8, T9) {
        (self.8, self.9)
    }

    open spec fn spec_source_len() -> nat {
        12
    }

    fn extract(self) -> (r: (T8, T9)) {
        (self.8, self.9)
    }

    proof fn lemma_extract_len() {
    }
}

impl<T0, T1, T2, T3, T4, T5, T6, T7, T8, T9, T10, T11> TypedExtract<8, 11, (T8, T9, T10)>
    for (T0, T1, T2, T3, T4, T5, T6, T7, T8, T9, T10, T11)
{
    open spec fn spec_extract(self) -> (T8, T9, T10) {
        (self.8, self.9, self.10)
    }

    open spec fn spec_source_len() -> nat {
        12
    }

    fn extract(self) -> (r: (T8, T9, T10)) {
        (self.8, self.9, self.10)
    }

    proof fn lemma_extract_len() {
    }
}

impl<T0, T1, T2, T3, T4, T5, T6, T7, T8, T9, T10, T11> TypedExtract<8, 12, (T8, T9, T10, T11)>
    for (T0, T1, T2, T3, T4, T5, T6, T7, T8, T9, T10, T11)
{
    open spec fn spec_extract(self) -> (T8, T9, T10, T11) {
        (self.8, self.9, self.10, self.11)
    }

    open spec fn spec_source_len() -> nat {
        12
    }

    fn extract(self) -> (r: (T8, T9, T10, T11)) {
        (self.8, self.9, self.10, self.11)
    }

    proof fn lemma_extract_len() {
    }
}

impl<T0, T1, T2, T3, T4, T5, T6, T7, T8, T9, T10, T11> TypedExtract<9, 9, ()>
    for (T0, T1, T2, T3, T4, T5, T6, T7, T8, T9, T10, T11)
{
    open spec fn spec_extract(self) -> () {
        ()
    }

    open spec fn spec_source_len() -> nat {
        12
    }

    fn extract(self) -> (r: ()) {
        ()
    }

    proof fn lemma_extract_len() {
    }
}

impl<T0, T1, T2, T3, T4, T5, T6, T7, T8, T9, T10, T11> TypedExtract<9, 10, (T9,)>
    for (T0, T1, T2, T3, T4, T5, T6, T7, T8, T9, T10, T11)
{
    open spec fn spec_extract(self) -> (T9,) {
        (self.9,)
    }

    open spec fn spec_source_len() -> nat {
        12
    }

    fn extract(self) -> (r: (T9,)) {
        (self.9,)
    }

    proof fn lemma_extract_len() {
    }
}

impl<T0, T1, T2, T3, T4, T5, T6, T7, T8, T9, T10, T11> TypedExtract<9, 11, (T9, T10)>
    for (T0, T1, T2, T3, T4, T5, T6, T7, T8, T9, T10, T11)
{
    open spec fn spec_extract(self) -> (T9, T10) {
        (self.9, self.10)
    }

    open spec fn spec_source_len() -> nat {
        12
    }

    fn extract(self) -> (r: (T9, T10)) {
        (self.9, self.10)
    }

    proof fn lemma_extract_len() {
    }
}

impl<T0, T1, T2, T3, T4, T5, T6, T7, T8, T9, T10, T11> TypedExtract<9, 12, (T9, T10, T11)>
    for (T0, T1, T2, T3, T4, T5, T6, T7, T8, T9, T10, T11)
{
    open spec fn spec_extract(self) -> (T9, T10, T11) {
        (self.9, self.10, self.11)
    }

    open spec fn spec_source_len() -> nat {
        12
    }

    fn extract(self) -> (r: (T9, T10, T11)) {
        (self.9, self.10, self.11)
    }

    proof fn lemma_extract_len() {
    }
}

impl<T0, T1, T2, T3, T4, T5, T6, T7, T8, T9, T10, T11> TypedExtract<10, 10, ()>
    for (T0, T1, T2, T3, T4, T5, T6, T7, T8, T9, T10, T11)
{
    open spec fn spec_extract(self) -> () {
        ()
    }

    open spec fn spec_source_len() -> nat {
        12
    }

    fn extract(self) -> (r: ()) {
        ()
    }

    proof fn lemma_extract_len() {
    }
}

impl<T0, T1, T2, T3, T4, T5, T6, T7, T8, T9, T10, T11> TypedExtract<10, 11, (T10,)>
    for (T0, T1, T2, T3, T4, T5, T6, T7, T8, T9, T10, T11)
{
    open spec fn spec_extract(self) -> (T10,) {
        (self.10,)
    }

    open spec fn spec_source_len() -> nat {
        12
    }

    fn extract(self) -> (r: (T10,)) {
        (self.10,)
    }

    proof fn lemma_extract_len() {
    }
}

impl<T0, T1, T2, T3, T4, T5, T6, T7, T8, T9, T10, T11> TypedExtract<10, 12, (T10, T11)>
    for (T0, T1, T2, T3, T4, T5, T6, T7, T8, T9, T10, T11)
{
    open spec fn spec_extract(self) -> (T10, T11) {
        (self.10, self.11)
    }

    open spec fn spec_source_len() -> nat {
        12
    }

    fn extract(self) -> (r: (T10, T11)) {
        (self.10, self.11)
    }

    proof fn lemma_extract_len() {
    }
}

impl<T0, T1, T2, T3, T4, T5, T6, T7, T8, T9, T10, T11> TypedExtract<11, 11, ()>
    for (T0, T1, T2, T3, T4, T5, T6, T7, T8, T9, T10, T11)
{
    open spec fn spec_extract(self) -> () {
        ()
    }

    open spec fn spec_source_len() -> nat {
        12
    }

    fn extract(self) -> (r: ()) {
        ()
    }

    proof fn lemma_extract_len() {
    }
}

impl<T0, T1, T2, T3, T4, T5, T6, T7, T8, T9, T10, T11> TypedExtract<11, 12, (T11,)>
    for (T0, T1, T2, T3, T4, T5, T6, T7, T8, T9, T10, T11)
{
    open spec fn spec_extract(self) -> (T11,) {
        (self.11,)
    }

    open spec fn spec_source_len() -> nat {
        12
    }

    fn extract(self) -> (r: (T11,)) {
        (self.11,)
    }

    proof fn lemma_extract_len() {
    }
}

/// Extracting the full range of a sequence of one element returns the sequence
/// unchanged.
pub proof fn lemma_extract_full_1<T0>(s: (T0,))
    ensures
        TypedExtract::<0, 1, (T0,)>::spec_extract(s) == s,
{
}

/// Extracting the full range of a sequence of 2 elements returns the sequence
/// unchanged.
pub proof fn lemma_extract_full_2<T0, T1>(s: (T0, T1))
    ensures
        TypedExtract::<0, 2, (T0, T1)>::spec_extract(s) == s,
{
}

/// Extracting the full range of a sequence of 3 elements returns the sequence
/// unchanged.
pub proof fn lemma_extract_full_3<T0, T1, T2>(s: (T0, T1, T2))
    ensures
        TypedExtract::<0, 3, (T0, T1, T2)>::spec_extract(s) == s,
{
}

/// Extracting the full range of a sequence of 4 elements returns the sequence
/// unchanged.
pub proof fn lemma_extract_full_4<T0, T1, T2, T3>(s: (T0, T1, T2, T3))
    ensures
        TypedExtract::<0, 4, (T0, T1, T2, T3)>::spec_extract(s) == s,
{
}

/// Extracting the full range of a sequence of 5 elements returns the sequence
/// unchanged.
pub proof fn lemma_extract_full_5<T0, T1, T2, T3, T4>(s: (T0, T1, T2, T3, T4))
    ensures
        TypedExtract::<0, 5, (T0, T1, T2, T3, T4)>::spec_extract(s) == s,
{
}

/// Extracting the full range of a sequence of 6 elements returns the sequence
/// unchanged.
pub proof fn lemma_extract_full_6<T0, T1, T2, T3, T4, T5>(s: (T0, T1, T2, T3, T4, T5))
    ensures
        TypedExtract::<0, 6, (T0, T1, T2, T3, T4, T5)>::spec_extract(s) == s,
{
}

/// Extracting the full range of a sequence of 7 elements returns the sequence
/// unchanged.
pub proof fn lemma_extract_full_7<T0, T1, T2, T3, T4, T5, T6>(s: (T0, T1, T2, T3, T4, T5, T6))
    ensures
        TypedExtract::<0, 7, (T0, T1, T2, T3, T4, T5, T6)>::spec_extract(s) == s,
{
}

/// Extracting the full range of a sequence of 8 elements returns the sequence
/// unchanged.
pub proof fn lemma_extract_full_8<T0, T1, T2, T3, T4, T5, T6, T7>(s: (T0, T1, T2, T3, T4, T5, T6,
    T7))
    ensures
        TypedExtract::<0, 8, (T0, T1, T2, T3, T4, T5, T6, T7)>::spec_extract(s) == s,
{
}

/// Extracting the full range of a sequence of 9 elements returns the sequence
/// unchanged.
pub proof fn lemma_extract_full_9<T0, T1, T2, T3, T4, T5, T6, T7, T8>(s: (T0, T1, T2, T3, T4, T5,
    T6, T7, T8))
    ensures
        TypedExtract::<0, 9, (T0, T1, T2, T3, T4, T5, T6, T7, T8)>::spec_extract(s) == s,
{
}

/// Extracting the full range of a sequence of 10 elements returns the sequence
/// unchanged.
pub proof fn lemma_extract_full_10<T0, T1, T2, T3, T4, T5, T6, T7, T8, T9>(s: (T0, T1, T2, T3, T4,
    T5, T6, T7, T8, T9))
    ensures
        TypedExtract::<0, 10, (T0, T1, T2, T3, T4, T5, T6, T7, T8, T9)>::spec_extract(s) == s,
{
}

/// Extracting the full range of a sequence of 11 elements returns the sequence
/// unchanged.
pub proof fn lemma_extract_full_11<T0, T1, T2, T3, T4, T5, T6, T7, T8, T9, T10>(s: (T0, T1, T2, T3,
    T4, T5, T6, T7, T8, T9, T10))
    ensures
        TypedExtract::<0, 11, (T0, T1, T2, T3, T4, T5, T6, T7, T8, T9, T10)>::spec_extract(s) == s,
{
}

/// Extracting the full range of a sequence of 12 elements returns the sequence
/// unchanged.
pub proof fn lemma_extract_full_12<T0, T1, T2, T3, T4, T5, T6, T7, T8, T9, T10, T11>(s: (T0, T1, T2,
    T3, T4, T5, T6, T7, T8, T9, T10, T11))
    ensures
        TypedExtract::<0, 12, (T0, T1, T2, T3, T4, T5, T6, T7, T8, T9, T10,
            T11)>::spec_extract(s) == s,
{
}

/// Borrows from a sequence, by exclusive reference, the elements at the
/// positions from `INDEX_START` up to, and not including, `INDEX_END`, in
/// their order.
///
/// Each reference starts out at the element it stands for. Once the borrows
/// have ended the sequence holds, at each position of the range, what was
/// last written through the reference for that position, and at every other
/// position what it held before; each implementation states this of
/// `extract_mut`.
pub trait TypedExtractMut<
    'a,
    const INDEX_START: usize,
    const INDEX_END: usize,
    T: TupleLen,
>: TupleLen {
    /// The references in `out` point, in order, at values equal to the
    /// elements of the range.
    spec fn spec_borrows(&self, out: T) -> bool;

    /// At every position outside the range `after` holds what `self` holds.
    spec fn spec_keeps(&self, after: Self) -> bool;

    /// Extract the exclusive references to sequentual elements inferred by a
    /// type pattern and/or indices.
    fn extract_mut(&'a mut self) -> (r: T)
        ensures
            old(self).spec_borrows(r),
            old(self).spec_keeps(*final(self)),
    ;

    /// The range starts inside the sequence and ends inside it or at its
    /// length, not before it starts, and the result has one reference for
    /// each position of the range.
    proof fn lemma_extract_mut_len()
        ensures
            INDEX_START < Self::spec_len(),
            INDEX_START <= INDEX_END <= Self::spec_len(),
            T::spec_len() == INDEX_END - INDEX_START,
    ;
}

impl<'a, T0: 'a> TypedExtractMut<'a, 0, 0, ()> for (T0,) {
    open spec fn spec_borrows(&self, out: ()) -> bool {
        true
    }

    open spec fn spec_keeps(&self, after: (T0,)) -> bool {
        after.0 == self.0
    }

    fn extract_mut(&'a mut self) -> (r: ()) {
        ()
    }

    proof fn lemma_extract_mut_len() {
    }
}

impl<'a, T0: 'a> TypedExtractMut<'a, 0, 1, (&'a mut T0,)> for (T0,) {
    open spec fn spec_borrows(&self, out: (&'a mut T0,)) -> bool {
        *out.0 == self.0
    }

    open spec fn spec_keeps(&self, after: (T0,)) -> bool {
        true
    }

    fn extract_mut(&'a mut self) -> (r: (&'a mut T0,))
        ensures
            ({
                let out: (&'a mut T0,) = r;
                *final(self) == (*final(out.0),)
            }),
    {
        (&mut self.0,)
    }

    proof fn lemma_extract_mut_len() {
    }
}

impl<'a, T0: 'a, T1: 'a> TypedExtractMut<'a, 0, 0, ()> for (T0, T1) {
    open spec fn spec_borrows(&self, out: ()) -> bool {
        true
    }

    open spec fn spec_keeps(&self, after: (T0, T1)) -> bool {
        &&& after.0 == self.0
        &&& after.1 == self.1
    }

    fn extract_mut(&'a mut self) -> (r: ()) {
        ()
    }

    proof fn lemma_extract_mut_len() {
    }
}

impl<'a, T0: 'a, T1: 'a> TypedExtractMut<'a, 0, 1, (&'a mut T0,)> for (T0, T1) {
    open spec fn spec_borrows(&self, out: (&'a mut T0,)) -> bool {
        *out.0 == self.0
    }

    open spec fn spec_keeps(&self, after: (T0, T1)) -> bool {
        after.1 == self.1
    }

    fn extract_mut(&'a mut self) -> (r: (&'a mut T0,))
        ensures
            ({
                let out: (&'a mut T0,) = r;
                *final(self) == (*final(out.0), old(self).1)
            }),
    {
        (&mut self.0,)
    }

    proof fn lemma_extract_mut_len() {
    }
}

impl<'a, T0: 'a, T1: 'a> TypedExtractMut<'a, 0, 2, (&'a mut T0, &'a mut T1)> for (T0, T1) {
    open spec fn spec_borrows(&self, out: (&'a mut T0, &'a mut T1)) -> bool {
        &&& *out.0 == self.0
        &&& *out.1 == self.1
    }

    open spec fn spec_keeps(&self, after: (T0, T1)) -> bool {
        true
    }

    fn extract_mut(&'a mut self) -> (r: (&'a mut T0, &'a mut T1))
        ensures
            ({
                let out: (&'a mut T0, &'a mut T1) = r;
                *final(self) == (*final(out.0), *final(out.1))
            }),
    {
        (&mut self.0, &mut self.1)
    }

    proof fn lemma_extract_mut_len() {
    }
}

impl<'a, T0: 'a, T1: 'a> TypedExtractMut<'a, 1, 1, ()> for (T0, T1) {
    open spec fn spec_borrows(&self, out: ()) -> bool {
        true
    }

    open spec fn spec_keeps(&self, after: (T0, T1)) -> bool {
        &&& after.0 == self.0
        &&& after.1 == self.1
    }

    fn extract_mut(&'a mut self) -> (r: ()) {
        ()
    }

    proof fn lemma_extract_mut_len() {
    }
}

impl<'a, T0: 'a, T1: 'a> TypedExtractMut<'a, 1, 2, (&'a mut T1,)> for (T0, T1) {
    open spec fn spec_borrows(&self, out: (&'a mut T1,)) -> bool {
        *out.0 == self.1
    }

    open spec fn spec_keeps(&self, after: (T0, T1)) -> bool {
        after.0 == self.0
    }

    fn extract_mut(&'a mut self) -> (r: (&'a mut T1,))
        ensures
            ({
                let out: (&'a mut T1,) = r;
                *final(self) == (old(self).0, *final(out.0))
            }),
    {
        (&mut self.1,)
    }

    proof fn lemma_extract_mut_len() {
    }
}

impl<'a, T0: 'a, T1: 'a, T2: 'a> TypedExtractMut<'a, 0, 0, ()> for (T0, T1, T2) {
    open spec fn spec_borrows(&self, out: ()) -> bool {
        true
    }

    open spec fn spec_keeps(&self, after: (T0, T1, T2)) -> bool {
        &&& after.0 == self.0
        &&& after.1 == self.1
        &&& after.2 == self.2
    }

    fn extract_mut(&'a mut self) -> (r: ()) {
        ()
    }

    proof fn lemma_extract_mut_len() {
    }
}

impl<'a, T0: 'a, T1: 'a, T2: 'a> TypedExtractMut<'a, 0, 1, (&'a mut T0,)> for (T0, T1, T2) {
    open spec fn spec_borrows(&self, out: (&'a mut T0,)) -> bool {
        *out.0 == self.0
    }

    open spec fn spec_keeps(&self, after: (T0, T1, T2)) -> bool {
        &&& after.1 == self.1
        &&& after.2 == self.2
    }

    fn extract_mut(&'a mut self) -> (r: (&'a mut T0,))
        ensures
            ({
                let out: (&'a mut T0,) = r;
                *final(self) == (*final(out.0), old(self).1, old(self).2)
            }),
    {
        (&mut self.0,)
    }

    proof fn lemma_extract_mut_len() {
    }
}

impl<'a, T0: 'a, T1: 'a, T2: 'a> TypedExtractMut<'a, 0, 2, (&'a mut T0, &'a mut T1)>
    for (T0, T1, T2)
{
    open spec fn spec_borrows(&self, out: (&'a mut T0, &'a mut T1)) -> bool {
        &&& *out.0 == self.0
        &&& *out.1 == self.1
    }

    open spec fn spec_keeps(&self, after: (T0, T1, T2)) -> bool {
        after.2 == self.2
    }

    fn extract_mut(&'a mut self) -> (r: (&'a mut T0, &'a mut T1))
        ensures
            ({
                let out: (&'a mut T0, &'a mut T1) = r;
                *final(self) == (*final(out.0), *final(out.1), old(self).2)
            }),
    {
        (&mut self.0, &mut self.1)
    }

    proof fn lemma_extract_mut_len() {
    }
}

impl<'a, T0: 'a, T1: 'a, T2: 'a> TypedExtractMut<'a, 0, 3, (&'a mut T0, &'a mut T1, &'a mut T2)>
    for (T0, T1, T2)
{
    open spec fn spec_borrows(&self, out: (&'a mut T0, &'a mut T1, &'a mut T2)) -> bool {
        &&& *out.0 == self.0
        &&& *out.1 == self.1
        &&& *out.2 == self.2
    }

    open spec fn spec_keeps(&self, after: (T0, T1, T2)) -> bool {
        true
    }

    fn extract_mut(&'a mut self) -> (r: (&'a mut T0, &'a mut T1, &'a mut T2))
        ensures
            ({
                let out: (&'a mut T0, &'a mut T1, &'a mut T2) = r;
                *final(self) == (*final(out.0), *final(out.1), *final(out.2))
            }),
    {
        (&mut self.0, &mut self.1, &mut self.2)
    }

    proof fn lemma_extract_mut_len() {
    }
}

impl<'a, T0: 'a, T1: 'a, T2: 'a> TypedExtractMut<'a, 1, 1, ()> for (T0, T1, T2) {
    open spec fn spec_borrows(&self, out: ()) -> bool {
        true
    }

    open spec fn spec_keeps(&self, after: (T0, T1, T2)) -> bool {
        &&& after.0 == self.0
        &&& after.1 == self.1
        &&& after.2 == self.2
    }

    fn extract_mut(&'a mut self) -> (r: ()) {
        ()
    }

    proof fn lemma_extract_mut_len() {
    }
}

impl<'a, T0: 'a, T1: 'a, T2: 'a> TypedExtractMut<'a, 1, 2, (&'a mut T1,)> for (T0, T1, T2) {
    open spec fn spec_borrows(&self, out: (&'a mut T1,)) -> bool {
        *out.0 == self.1
    }

    open spec fn spec_keeps(&self, after: (T0, T1, T2)) -> bool {
        &&& after.0 == self.0
        &&& after.2 == self.2
    }

    fn extract_mut(&'a mut self) -> (r: (&'a mut T1,))
        ensures
            ({
                let out: (&'a mut T1,) = r;
                *final(self) == (old(self).0, *final(out.0), old(self).2)
            }),
    {
        (&mut self.1,)
    }

    proof fn lemma_extract_mut_len() {
    }
}

impl<'a, T0: 'a, T1: 'a, T2: 'a> TypedExtractMut<'a, 1, 3, (&'a mut T1, &'a mut T2)>
    for (T0, T1, T2)
{
    open spec fn spec_borrows(&self, out: (&'a mut T1, &'a mut T2)) -> bool {
        &&& *out.0 == self.1
        &&& *out.1 == self.2
    }

    open spec fn spec_keeps(&self, after: (T0, T1, T2)) -> bool {
        after.0 == self.0
    }

    fn extract_mut(&'a mut self) -> (r: (&'a mut T1, &'a mut T2))
        ensures
            ({
                let out: (&'a mut T1, &'a mut T2) = r;
                *final(self) == (old(self).0, *final(out.0), *final(out.1))
            }),
    {
        (&mut self.1, &mut self.2)
    }

    proof fn lemma_extract_mut_len() {
    }
}

impl<'a, T0: 'a, T1: 'a, T2: 'a> TypedExtractMut<'a, 2, 2, ()> for (T0, T1, T2) {
    open spec fn spec_borrows(&self, out: ()) -> bool {
        true
    }

    open spec fn spec_keeps(&self, after: (T0, T1, T2)) -> bool {
        &&& after.0 == self.0
        &&& after.1 == self.1
        &&& after.2 == self.2
    }

    fn extract_mut(&'a mut self) -> (r: ()) {
        ()
    }

    proof fn lemma_extract_mut_len() {
    }
}

impl<'a, T0: 'a, T1: 'a, T2: 'a> TypedExtractMut<'a, 2, 3, (&'a mut T2,)> for (T0, T1, T2) {
    open spec fn spec_borrows(&self, out: (&'a mut T2,)) -> bool {
        *out.0 == self.2
    }

    open spec fn spec_keeps(&self, after: (T0, T1, T2)) -> bool {
        &&& after.0 == self.0
        &&& after.1 == self.1
    }

    fn extract_mut(&'a mut self) -> (r: (&'a mut T2,))
        ensures
            ({
                let out: (&'a mut T2,) = r;
                *final(self) == (old(self).0, old(self).1, *final(out.0))
            }),
    {
        (&mut self.2,)
    }

    proof fn lemma_extract_mut_len() {
    }
}

impl<'a, T0: 'a, T1: 'a, T2: 'a, T3: 'a> TypedExtractMut<'a, 0, 0, ()> for (T0, T1, T2, T3) {
    open spec fn spec_borrows(&self, out: ()) -> bool {
        true
    }

    open spec fn spec_keeps(&self, after: (T0, T1, T2, T3)) -> bool {
        &&& after.0 == self.0
        &&& after.1 == self.1
        &&& after.2 == self.2
        &&& after.3 == self.3
    }

    fn extract_mut(&'a mut self) -> (r: ()) {
        ()
    }

    proof fn lemma_extract_mut_len() {
    }
}

impl<'a, T0: 'a, T1: 'a, T2: 'a, T3: 'a> TypedExtractMut<'a, 0, 1, (&'a mut T0,)>
    for (T0, T1, T2, T3)
{
    open spec fn spec_borrows(&self, out: (&'a mut T0,)) -> bool {
        *out.0 == self.0
    }

    open spec fn spec_keeps(&self, after: (T0, T1, T2, T3)) -> bool {
        &&& after.1 == self.1
        &&& after.2 == self.2
        &&& after.3 == self.3
    }

    fn extract_mut(&'a mut self) -> (r: (&'a mut T0,))
        ensures
            ({
                let out: (&'a mut T0,) = r;
                *final(self) == (*final(out.0), old(self).1, old(self).2, old(self).3)
            }),
    {
        (&mut self.0,)
    }

    proof fn lemma_extract_mut_len() {
    }
}

impl<'a, T0: 'a, T1: 'a, T2: 'a, T3: 'a> TypedExtractMut<'a, 0, 2, (&'a mut T0, &'a mut T1)>
    for (T0, T1, T2, T3)
{
    open spec fn spec_borrows(&self, out: (&'a mut T0, &'a mut T1)) -> bool {
        &&& *out.0 == self.0
        &&& *out.1 == self.1
    }

    open spec fn spec_keeps(&self, after: (T0, T1, T2, T3)) -> bool {
        &&& after.2 == self.2
        &&& after.3 == self.3
    }

    fn extract_mut(&'a mut self) -> (r: (&'a mut T0, &'a mut T1))
        ensures
            ({
                let out: (&'a mut T0, &'a mut T1) = r;
                *final(self) == (*final(out.0), *final(out.1), old(self).2, old(self).3)
            }),
    {
        (&mut self.0, &mut self.1)
    }

    proof fn lemma_extract_mut_len() {
    }
}

impl<'a, T0: 'a, T1: 'a, T2: 'a, T3: 'a> TypedExtractMut<'a, 0, 3, (&'a mut T0, &'a mut T1,
    &'a mut T2)>
    for (T0, T1, T2, T3)
{
    open spec fn spec_borrows(&self, out: (&'a mut T0, &'a mut T1, &'a mut T2)) -> bool {
        &&& *out.0 == self.0
        &&& *out.1 == self.1
        &&& *out.2 == self.2
    }

    open spec fn spec_keeps(&self, after: (T0, T1, T2, T3)) -> bool {
        after.3 == self.3
    }

    fn extract_mut(&'a mut self) -> (r: (&'a mut T0, &'a mut T1, &'a mut T2))
        ensures
            ({
                let out: (&'a mut T0, &'a mut T1, &'a mut T2) = r;
                *final(self) == (*final(out.0), *final(out.1), *final(out.2), old(self).3)
            }),
    {
        (&mut self.0, &mut self.1, &mut self.2)
    }

    proof fn lemma_extract_mut_len() {
    }
}

impl<'a, T0: 'a, T1: 'a, T2: 'a, T3: 'a> TypedExtractMut<'a, 0, 4, (&'a mut T0, &'a mut T1,
    &'a mut T2, &'a mut T3)>
    for (T0, T1, T2, T3)
{
    open spec fn spec_borrows(&self, out: (&'a mut T0, &'a mut T1, &'a mut T2,
        &'a mut T3)) -> bool {
        &&& *out.0 == self.0
        &&& *out.1 == self.1
        &&& *out.2 == self.2
        &&& *out.3 == self.3
    }

    open spec fn spec_keeps(&self, after: (T0, T1, T2, T3)) -> bool {
        true
    }

    fn extract_mut(&'a mut self) -> (r: (&'a mut T0, &'a mut T1, &'a mut T2, &'a mut T3))
        ensures
            ({
                let out: (&'a mut T0, &'a mut T1, &'a mut T2, &'a mut T3) = r;
                *final(self) == (*final(out.0), *final(out.1), *final(out.2), *final(out.3))
            }),
    {
        (&mut self.0, &mut self.1, &mut self.2, &mut self.3)
    }

    proof fn lemma_extract_mut_len() {
    }
}

impl<'a, T0: 'a, T1: 'a, T2: 'a, T3: 'a> TypedExtractMut<'a, 1, 1, ()> for (T0, T1, T2, T3) {
    open spec fn spec_borrows(&self, out: ()) -> bool {
        true
    }

    open spec fn spec_keeps(&self, after: (T0, T1, T2, T3)) -> bool {
        &&& after.0 == self.0
        &&& after.1 == self.1
        &&& after.2 == self.2
        &&& after.3 == self.3
    }

    fn extract_mut(&'a mut self) -> (r: ()) {
        ()
    }

    proof fn lemma_extract_mut_len() {
    }
}

impl<'a, T0: 'a, T1: 'a, T2: 'a, T3: 'a> TypedExtractMut<'a, 1, 2, (&'a mut T1,)>
    for (T0, T1, T2, T3)
{
    open spec fn spec_borrows(&self, out: (&'a mut T1,)) -> bool {
        *out.0 == self.1
    }

    open spec fn spec_keeps(&self, after: (T0, T1, T2, T3)) -> bool {
        &&& after.0 == self.0
        &&& after.2 == self.2
        &&& after.3 == self.3
    }

    fn extract_mut(&'a mut self) -> (r: (&'a mut T1,))
        ensures
            ({
                let out: (&'a mut T1,) = r;
                *final(self) == (old(self).0, *final(out.0), old(self).2, old(self).3)
            }),
    {
        (&mut self.1,)
    }

    proof fn lemma_extract_mut_len() {
    }
}

impl<'a, T0: 'a, T1: 'a, T2: 'a, T3: 'a> TypedExtractMut<'a, 1, 3, (&'a mut T1, &'a mut T2)>
    for (T0, T1, T2, T3)
{
    open spec fn spec_borrows(&self, out: (&'a mut T1, &'a mut T2)) -> bool {
        &&& *out.0 == self.1
        &&& *out.1 == self.2
    }

    open spec fn spec_keeps(&self, after: (T0, T1, T2, T3)) -> bool {
        &&& after.0 == self.0
        &&& after.3 == self.3
    }

    fn extract_mut(&'a mut self) -> (r: (&'a mut T1, &'a mut T2))
        ensures
            ({
                let out: (&'a mut T1, &'a mut T2) = r;
                *final(self) == (old(self).0, *final(out.0), *final(out.1), old(self).3)
            }),
    {
        (&mut self.1, &mut self.2)
    }

    proof fn lemma_extract_mut_len() {
    }
}

impl<'a, T0: 'a, T1: 'a, T2: 'a, T3: 'a> TypedExtractMut<'a, 1, 4, (&'a mut T1, &'a mut T2,
    &'a mut T3)>
    for (T0, T1, T2, T3)
{
    open spec fn spec_borrows(&self, out: (&'a mut T1, &'a mut T2, &'a mut T3)) -> bool {
        &&& *out.0 == self.1
        &&& *out.1 == self.2
        &&& *out.2 == self.3
    }

    open spec fn spec_keeps(&self, after: (T0, T1, T2, T3)) -> bool {
        after.0 == self.0
    }

    fn extract_mut(&'a mut self) -> (r: (&'a mut T1, &'a mut T2, &'a mut T3))
        ensures
            ({
                let out: (&'a mut T1, &'a mut T2, &'a mut T3) = r;
                *final(self) == (old(self).0, *final(out.0), *final(out.1), *final(out.2))
            }),
    {
        (&mut self.1, &mut self.2, &mut self.3)
    }

    proof fn lemma_extract_mut_len() {
    }
}

impl<'a, T0: 'a, T1: 'a, T2: 'a, T3: 'a> TypedExtractMut<'a, 2, 2, ()> for (T0, T1, T2, T3) {
    open spec fn spec_borrows(&self, out: ()) -> bool {
        true
    }

    open spec fn spec_keeps(&self, after: (T0, T1, T2, T3)) -> bool {
        &&& after.0 == self.0
        &&& after.1 == self.1
        &&& after.2 == self.2
        &&& after.3 == self.3
    }

    fn extract_mut(&'a mut self) -> (r: ()) {
        ()
    }

    proof fn lemma_extract_mut_len() {
    }
}

impl<'a, T0: 'a, T1: 'a, T2: 'a, T3: 'a> TypedExtractMut<'a, 2, 3, (&'a mut T2,)>
    for (T0, T1, T2, T3)
{
    open spec fn spec_borrows(&self, out: (&'a mut T2,)) -> bool {
        *out.0 == self.2
    }

    open spec fn spec_keeps(&self, after: (T0, T1, T2, T3)) -> bool {
        &&& after.0 == self.0
        &&& after.1 == self.1
        &&& after.3 == self.3
    }

    fn extract_mut(&'a mut self) -> (r: (&'a mut T2,))
        ensures
            ({
                let out: (&'a mut T2,) = r;
                *final(self) == (old(self).0, old(self).1, *final(out.0), old(self).3)
            }),
    {
        (&mut self.2,)
    }

    proof fn lemma_extract_mut_len() {
    }
}

impl<'a, T0: 'a, T1: 'a, T2: 'a, T3: 'a> TypedExtractMut<'a, 2, 4, (&'a mut T2, &'a mut T3)>
    for (T0, T1, T2, T3)
{
    open spec fn spec_borrows(&self, out: (&'a mut T2, &'a mut T3)) -> bool {
        &&& *out.0 == self.2
        &&& *out.1 == self.3
    }

    open spec fn spec_keeps(&self, after: (T0, T1, T2, T3)) -> bool {
        &&& after.0 == self.0
        &&& after.1 == self.1
    }

    fn extract_mut(&'a mut self) -> (r: (&'a mut T2, &'a mut T3))
        ensures
            ({
                let out: (&'a mut T2, &'a mut T3) = r;
                *final(self) == (old(self).0, old(self).1, *final(out.0), *final(out.1))
            }),
    {
        (&mut self.2, &mut self.3)
    }

    proof fn lemma_extract_mut_len() {
    }
}

impl<'a, T0: 'a, T1: 'a, T2: 'a, T3: 'a> TypedExtractMut<'a, 3, 3, ()> for (T0, T1, T2, T3) {
    open spec fn spec_borrows(&self, out: ()) -> bool {
        true
    }

    open spec fn spec_keeps(&self, after: (T0, T1, T2, T3)) -> bool {
        &&& after.0 == self.0
        &&& after.1 == self.1
        &&& after.2 == self.2
        &&& after.3 == self.3
    }

    fn extract_mut(&'a mut self) -> (r: ()) {
        ()
    }

    proof fn lemma_extract_mut_len() {
    }
}

impl<'a, T0: 'a, T1: 'a, T2: 'a, T3: 'a> TypedExtractMut<'a, 3, 4, (&'a mut T3,)>
    for (T0, T1, T2, T3)
{
    open spec fn spec_borrows(&self, out: (&'a mut T3,)) -> bool {
        *out.0 == self.3
    }

    open spec fn spec_keeps(&self, after: (T0, T1, T2, T3)) -> bool {
        &&& after.0 == self.0
        &&& after.1 == self.1
        &&& after.2 == self.2
    }

    fn extract_mut(&'a mut self) -> (r: (&'a mut T3,))
        ensures
            ({
                let out: (&'a mut T3,) = r;
                *final(self) == (old(self).0, old(self).1, old(self).2, *final(out.0))
            }),
    {
        (&mut self.3,)
    }

    proof fn lemma_extract_mut_len() {
    }
}

impl<'a, T0: 'a, T1: 'a, T2: 'a, T3: 'a, T4: 'a> TypedExtractMut<'a, 0, 0, ()>
    for (T0, T1, T2, T3, T4)
{
    open spec fn spec_borrows(&self, out: ()) -> bool {
        true
    }

    open spec fn spec_keeps(&self, after: (T0, T1, T2, T3, T4)) -> bool {
        &&& after.0 == self.0
        &&& after.1 == self.1
        &&& after.2 == self.2
        &&& after.3 == self.3
        &&& after.4 == self.4
    }

    fn extract_mut(&'a mut self) -> (r: ()) {
        ()
    }

    proof fn lemma_extract_mut_len() {
    }
}

impl<'a, T0: 'a, T1: 'a, T2: 'a, T3: 'a, T4: 'a> TypedExtractMut<'a, 0, 1, (&'a mut T0,)>
    for (T0, T1, T2, T3, T4)
{
    open spec fn spec_borrows(&self, out: (&'a mut T0,)) -> bool {
        *out.0 == self.0
    }

    open spec fn spec_keeps(&self, after: (T0, T1, T2, T3, T4)) -> bool {
        &&& after.1 == self.1
        &&& after.2 == self.2
        &&& after.3 == self.3
        &&& after.4 == self.4
    }

    fn extract_mut(&'a mut self) -> (r: (&'a mut T0,))
        ensures
            ({
                let out: (&'a mut T0,) = r;
                *final(self) == (*final(out.0), old(self).1, old(self).2, old(self).3, old(self).4)
            }),
    {
        (&mut self.0,)
    }

    proof fn lemma_extract_mut_len() {
    }
}

impl<'a, T0: 'a, T1: 'a, T2: 'a, T3: 'a, T4: 'a> TypedExtractMut<'a, 0, 2, (&'a mut T0, &'a mut T1)>
    for (T0, T1, T2, T3, T4)
{
    open spec fn spec_borrows(&self, out: (&'a mut T0, &'a mut T1)) -> bool {
        &&& *out.0 == self.0
        &&& *out.1 == self.1
    }

    open spec fn spec_keeps(&self, after: (T0, T1, T2, T3, T4)) -> bool {
        &&& after.2 == self.2
        &&& after.3 == self.3
        &&& after.4 == self.4
    }

    fn extract_mut(&'a mut self) -> (r: (&'a mut T0, &'a mut T1))
        ensures
            ({
                let out: (&'a mut T0, &'a mut T1) = r;
                *final(self) == (*final(out.0), *final(out.1), old(self).2, old(self).3,
                    old(self).4)
            }),
    {
        (&mut self.0, &mut self.1)
    }

    proof fn lemma_extract_mut_len() {
    }
}

impl<'a, T0: 'a, T1: 'a, T2: 'a, T3: 'a, T4: 'a> TypedExtractMut<'a, 0, 3, (&'a mut T0, &'a mut T1,
    &'a mut T2)>
    for (T0, T1, T2, T3, T4)
{
    open spec fn spec_borrows(&self, out: (&'a mut T0, &'a mut T1, &'a mut T2)) -> bool {
        &&& *out.0 == self.0
        &&& *out.1 == self.1
        &&& *out.2 == self.2
    }

    open spec fn spec_keeps(&self, after: (T0, T1, T2, T3, T4)) -> bool {
        &&& after.3 == self.3
        &&& after.4 == self.4
    }

    fn extract_mut(&'a mut self) -> (r: (&'a mut T0, &'a mut T1, &'a mut T2))
        ensures
            ({
                let out: (&'a mut T0, &'a mut T1, &'a mut T2) = r;
                *final(self) == (*final(out.0), *final(out.1), *final(out.2), old(self).3,
                    old(self).4)
            }),
    {
        (&mut self.0, &mut self.1, &mut self.2)
    }

    proof fn lemma_extract_mut_len() {
    }
}

impl<'a, T0: 'a, T1: 'a, T2: 'a, T3: 'a, T4: 'a> TypedExtractMut<'a, 0, 4, (&'a mut T0, &'a mut T1,
    &'a mut T2, &'a mut T3)>
    for (T0, T1, T2, T3, T4)
{
    open spec fn spec_borrows(&self, out: (&'a mut T0, &'a mut T1, &'a mut T2,
        &'a mut T3)) -> bool {
        &&& *out.0 == self.0
        &&& *out.1 == self.1
        &&& *out.2 == self.2
        &&& *out.3 == self.3
    }

    open spec fn spec_keeps(&self, after: (T0, T1, T2, T3, T4)) -> bool {
        after.4 == self.4
    }

    fn extract_mut(&'a mut self) -> (r: (&'a mut T0, &'a mut T1, &'a mut T2, &'a mut T3))
        ensures
            ({
                let out: (&'a mut T0, &'a mut T1, &'a mut T2, &'a mut T3) = r;
                *final(self) == (*final(out.0), *final(out.1), *final(out.2), *final(out.3),
                    old(self).4)
            }),
    {
        (&mut self.0, &mut self.1, &mut self.2, &mut self.3)
    }

    proof fn lemma_extract_mut_len() {
    }
}

impl<'a, T0: 'a, T1: 'a, T2: 'a, T3: 'a, T4: 'a> TypedExtractMut<'a, 0, 5, (&'a mut T0, &'a mut T1,
    &'a mut T2, &'a mut T3, &'a mut T4)>
    for (T0, T1, T2, T3, T4)
{
    open spec fn spec_borrows(&self, out: (&'a mut T0, &'a mut T1, &'a mut T2, &'a mut T3,
        &'a mut T4)) -> bool {
        &&& *out.0 == self.0
        &&& *out.1 == self.1
        &&& *out.2 == self.2
        &&& *out.3 == self.3
        &&& *out.4 == self.4
    }

    open spec fn spec_keeps(&self, after: (T0, T1, T2, T3, T4)) -> bool {
        true
    }

    fn extract_mut(&'a mut self) -> (r: (&'a mut T0, &'a mut T1, &'a mut T2, &'a mut T3,
        &'a mut T4))
        ensures
            ({
                let out: (&'a mut T0, &'a mut T1, &'a mut T2, &'a mut T3, &'a mut T4) = r;
                *final(self) == (*final(out.0), *final(out.1), *final(out.2), *final(out.3),
                    *final(out.4))
            }),
    {
        (&mut self.0, &mut self.1, &mut self.2, &mut self.3, &mut self.4)
    }

    proof fn lemma_extract_mut_len() {
    }
}

impl<'a, T0: 'a, T1: 'a, T2: 'a, T3: 'a, T4: 'a> TypedExtractMut<'a, 1, 1, ()>
    for (T0, T1, T2, T3, T4)
{
    open spec fn spec_borrows(&self, out: ()) -> bool {
        true
    }

    open spec fn spec_keeps(&self, after: (T0, T1, T2, T3, T4)) -> bool {
        &&& after.0 == self.0
        &&& after.1 == self.1
        &&& after.2 == self.2
        &&& after.3 == self.3
        &&& after.4 == self.4
    }

    fn extract_mut(&'a mut self) -> (r: ()) {
        ()
    }

    proof fn lemma_extract_mut_len() {
    }
}

impl<'a, T0: 'a, T1: 'a, T2: 'a, T3: 'a, T4: 'a> TypedExtractMut<'a, 1, 2, (&'a mut T1,)>
    for (T0, T1, T2, T3, T4)
{
    open spec fn spec_borrows(&self, out: (&'a mut T1,)) -> bool {
        *out.0 == self.1
    }

    open spec fn spec_keeps(&self, after: (T0, T1, T2, T3, T4)) -> bool {
        &&& after.0 == self.0
        &&& after.2 == self.2
        &&& after.3 == self.3
        &&& after.4 == self.4
    }

    fn extract_mut(&'a mut self) -> (r: (&'a mut T1,))
        ensures
            ({
                let out: (&'a mut T1,) = r;
                *final(self) == (old(self).0, *final(out.0), old(self).2, old(self).3, old(self).4)
            }),
    {
        (&mut self.1,)
    }

    proof fn lemma_extract_mut_len() {
    }
}

impl<'a, T0: 'a, T1: 'a, T2: 'a, T3: 'a, T4: 'a> TypedExtractMut<'a, 1, 3, (&'a mut T1, &'a mut T2)>
    for (T0, T1, T2, T3, T4)
{
    open spec fn spec_borrows(&self, out: (&'a mut T1, &'a mut T2)) -> bool {
        &&& *out.0 == self.1
        &&& *out.1 == self.2
    }

    open spec fn spec_keeps(&self, after: (T0, T1, T2, T3, T4)) -> bool {
        &&& after.0 == self.0
        &&& after.3 == self.3
        &&& after.4 == self.4
    }

    fn extract_mut(&'a mut self) -> (r: (&'a mut T1, &'a mut T2))
        ensures
            ({
                let out: (&'a mut T1, &'a mut T2) = r;
                *final(self) == (old(self).0, *final(out.0), *final(out.1), old(self).3,
                    old(self).4)
            }),
    {
        (&mut self.1, &mut self.2)
    }

    proof fn lemma_extract_mut_len() {
    }
}

impl<'a, T0: 'a, T1: 'a, T2: 'a, T3: 'a, T4: 'a> TypedExtractMut<'a, 1, 4, (&'a mut T1, &'a mut T2,
    &'a mut T3)>
    for (T0, T1, T2, T3, T4)
{
    open spec fn spec_borrows(&self, out: (&'a mut T1, &'a mut T2, &'a mut T3)) -> bool {
        &&& *out.0 == self.1
        &&& *out.1 == self.2
        &&& *out.2 == self.3
    }

    open spec fn spec_keeps(&self, after: (T0, T1, T2, T3, T4)) -> bool {
        &&& after.0 == self.0
        &&& after.4 == self.4
    }

    fn extract_mut(&'a mut self) -> (r: (&'a mut T1, &'a mut T2, &'a mut T3))
        ensures
            ({
                let out: (&'a mut T1, &'a mut T2, &'a mut T3) = r;
                *final(self) == (old(self).0, *final(out.0), *final(out.1), *final(out.2),
                    old(self).4)
            }),
    {
        (&mut self.1, &mut self.2, &mut self.3)
    }

    proof fn lemma_extract_mut_len() {
    }
}

impl<'a, T0: 'a, T1: 'a, T2: 'a, T3: 'a, T4: 'a> TypedExtractMut<'a, 1, 5, (&'a mut T1, &'a mut T2,
    &'a mut T3, &'a mut T4)>
    for (T0, T1, T2, T3, T4)
{
    open spec fn spec_borrows(&self, out: (&'a mut T1, &'a mut T2, &'a mut T3,
        &'a mut T4)) -> bool {
        &&& *out.0 == self.1
        &&& *out.1 == self.2
        &&& *out.2 == self.3
        &&& *out.3 == self.4
    }

    open spec fn spec_keeps(&self, after: (T0, T1, T2, T3, T4)) -> bool {
        after.0 == self.0
    }

    fn extract_mut(&'a mut self) -> (r: (&'a mut T1, &'a mut T2, &'a mut T3, &'a mut T4))
        ensures
            ({
                let out: (&'a mut T1, &'a mut T2, &'a mut T3, &'a mut T4) = r;
                *final(self) == (old(self).0, *final(out.0), *final(out.1), *final(out.2),
                    *final(out.3))
            }),
    {
        (&mut self.1, &mut self.2, &mut self.3, &mut self.4)
    }

    proof fn lemma_extract_mut_len() {
    }
}

impl<'a, T0: 'a, T1: 'a, T2: 'a, T3: 'a, T4: 'a> TypedExtractMut<'a, 2, 2, ()>
    for (T0, T1, T2, T3, T4)
{
    open spec fn spec_borrows(&self, out: ()) -> bool {
        true
    }

    open spec fn spec_keeps(&self, after: (T0, T1, T2, T3, T4)) -> bool {
        &&& after.0 == self.0
        &&& after.1 == self.1
        &&& after.2 == self.2
        &&& after.3 == self.3
        &&& after.4 == self.4
    }

    fn extract_mut(&'a mut self) -> (r: ()) {
        ()
    }

    proof fn lemma_extract_mut_len() {
    }
}

impl<'a, T0: 'a, T1: 'a, T2: 'a, T3: 'a, T4: 'a> TypedExtractMut<'a, 2, 3, (&'a mut T2,)>
    for (T0, T1, T2, T3, T4)
{
    open spec fn spec_borrows(&self, out: (&'a mut T2,)) -> bool {
        *out.0 == self.2
    }

    open spec fn spec_keeps(&self, after: (T0, T1, T2, T3, T4)) -> bool {
        &&& after.0 == self.0
        &&& after.1 == self.1
        &&& after.3 == self.3
        &&& after.4 == self.4
    }

    fn extract_mut(&'a mut self) -> (r: (&'a mut T2,))
        ensures
            ({
                let out: (&'a mut T2,) = r;
                *final(self) == (old(self).0, old(self).1, *final(out.0), old(self).3, old(self).4)
            }),
    {
        (&mut self.2,)
    }

    proof fn lemma_extract_mut_len() {
    }
}

impl<'a, T0: 'a, T1: 'a, T2: 'a, T3: 'a, T4: 'a> TypedExtractMut<'a, 2, 4, (&'a mut T2, &'a mut T3)>
    for (T0, T1, T2, T3, T4)
{
    open spec fn spec_borrows(&self, out: (&'a mut T2, &'a mut T3)) -> bool {
        &&& *out.0 == self.2
        &&& *out.1 == self.3
    }

    open spec fn spec_keeps(&self, after: (T0, T1, T2, T3, T4)) -> bool {
        &&& after.0 == self.0
        &&& after.1 == self.1
        &&& after.4 == self.4
    }

    fn extract_mut(&'a mut self) -> (r: (&'a mut T2, &'a mut T3))
        ensures
            ({
                let out: (&'a mut T2, &'a mut T3) = r;
                *final(self) == (old(self).0, old(self).1, *final(out.0), *final(out.1),
                    old(self).4)
            }),
    {
        (&mut self.2, &mut self.3)
    }

    proof fn lemma_extract_mut_len() {
    }
}

impl<'a, T0: 'a, T1: 'a, T2: 'a, T3: 'a, T4: 'a> TypedExtractMut<'a, 2, 5, (&'a mut T2, &'a mut T3,
    &'a mut T4)>
    for (T0, T1, T2, T3, T4)
{
    open spec fn spec_borrows(&self, out: (&'a mut T2, &'a mut T3, &'a mut T4)) -> bool {
        &&& *out.0 == self.2
        &&& *out.1 == self.3
        &&& *out.2 == self.4
    }

    open spec fn spec_keeps(&self, after: (T0, T1, T2, T3, T4)) -> bool {
        &&& after.0 == self.0
        &&& after.1 == self.1
    }

    fn extract_mut(&'a mut self) -> (r: (&'a mut T2, &'a mut T3, &'a mut T4))
        ensures
            ({
                let out: (&'a mut T2, &'a mut T3, &'a mut T4) = r;
                *final(self) == (old(self).0, old(self).1, *final(out.0), *final(out.1),
                    *final(out.2))
            }),
    {
        (&mut self.2, &mut self.3, &mut self.4)
    }

    proof fn lemma_extract_mut_len() {
    }
}

impl<'a, T0: 'a, T1: 'a, T2: 'a, T3: 'a, T4: 'a> TypedExtractMut<'a, 3, 3, ()>
    for (T0, T1, T2, T3, T4)
{
    open spec fn spec_borrows(&self, out: ()) -> bool {
        true
    }

    open spec fn spec_keeps(&self, after: (T0, T1, T2, T3, T4)) -> bool {
        &&& after.0 == self.0
        &&& after.1 == self.1
        &&& after.2 == self.2
        &&& after.3 == self.3
        &&& after.4 == self.4
    }

    fn extract_mut(&'a mut self) -> (r: ()) {
        ()
    }

    proof fn lemma_extract_mut_len() {
    }
}

impl<'a, T0: 'a, T1: 'a, T2: 'a, T3: 'a, T4: 'a> TypedExtractMut<'a, 3, 4, (&'a mut T3,)>
    for (T0, T1, T2, T3, T4)
{
    open spec fn spec_borrows(&self, out: (&'a mut T3,)) -> bool {
        *out.0 == self.3
    }

    open spec fn spec_keeps(&self, after: (T0, T1, T2, T3, T4)) -> bool {
        &&& after.0 == self.0
        &&& after.1 == self.1
        &&& after.2 == self.2
        &&& after.4 == self.4
    }

    fn extract_mut(&'a mut self) -> (r: (&'a mut T3,))
        ensures
            ({
                let out: (&'a mut T3,) = r;
                *final(self) == (old(self).0, old(self).1, old(self).2, *final(out.0), old(self).4)
            }),
    {
        (&mut self.3,)
    }

    proof fn lemma_extract_mut_len() {
    }
}

impl<'a, T0: 'a, T1: 'a, T2: 'a, T3: 'a, T4: 'a> TypedExtractMut<'a, 3, 5, (&'a mut T3, &'a mut T4)>
    for (T0, T1, T2, T3, T4)
{
    open spec fn spec_borrows(&self, out: (&'a mut T3, &'a mut T4)) -> bool {
        &&& *out.0 == self.3
        &&& *out.1 == self.4
    }

    open spec fn spec_keeps(&self, after: (T0, T1, T2, T3, T4)) -> bool {
        &&& after.0 == self.0
        &&& after.1 == self.1
        &&& after.2 == self.2
    }

    fn extract_mut(&'a mut self) -> (r: (&'a mut T3, &'a mut T4))
        ensures
            ({
                let out: (&'a mut T3, &'a mut T4) = r;
                *final(self) == (old(self).0, old(self).1, old(self).2, *final(out.0),
                    *final(out.1))
            }),
    {
        (&mut self.3, &mut self.4)
    }

    proof fn lemma_extract_mut_len() {
    }
}

impl<'a, T0: 'a, T1: 'a, T2: 'a, T3: 'a, T4: 'a> TypedExtractMut<'a, 4, 4, ()>
    for (T0, T1, T2, T3, T4)
{
    open spec fn spec_borrows(&self, out: ()) -> bool {
        true
    }

    open spec fn spec_keeps(&self, after: (T0, T1, T2, T3, T4)) -> bool {
        &&& after.0 == self.0
        &&& after.1 == self.1
        &&& after.2 == self.2
        &&& after.3 == self.3
        &&& after.4 == self.4
    }

    fn extract_mut(&'a mut self) -> (r: ()) {
        ()
    }

    proof fn lemma_extract_mut_len() {
    }
}

impl<'a, T0: 'a, T1: 'a, T2: 'a, T3: 'a, T4: 'a> TypedExtractMut<'a, 4, 5, (&'a mut T4,)>
    for (T0, T1, T2, T3, T4)
{
    open spec fn spec_borrows(&self, out: (&'a mut T4,)) -> bool {
        *out.0 == self.4
    }

    open spec fn spec_keeps(&self, after: (T0, T1, T2, T3, T4)) -> bool {
        &&& after.0 == self.0
        &&& after.1 == self.1
        &&& after.2 == self.2
        &&& after.3 == self.3
    }

    fn extract_mut(&'a mut self) -> (r: (&'a mut T4,))
        ensures
            ({
                let out: (&'a mut T4,) = r;
                *final(self) == (old(self).0, old(self).1, old(self).2, old(self).3, *final(out.0))
            }),
    {
        (&mut self.4,)
    }

    proof fn lemma_extract_mut_len() {
    }
}

impl<'a, T0: 'a, T1: 'a, T2: 'a, T3: 'a, T4: 'a, T5: 'a> TypedExtractMut<'a, 0, 0, ()>
    for (T0, T1, T2, T3, T4, T5)
{
    open spec fn spec_borrows(&self, out: ()) -> bool {
        true
    }

    open spec fn spec_keeps(&self, after: (T0, T1, T2, T3, T4, T5)) -> bool {
        &&& after.0 == self.0
        &&& after.1 == self.1
        &&& after.2 == self.2
        &&& after.3 == self.3
        &&& after.4 == self.4
        &&& after.5 == self.5
    }

    fn extract_mut(&'a mut self) -> (r: ()) {
        ()
    }

    proof fn lemma_extract_mut_len() {
    }
}

impl<'a, T0: 'a, T1: 'a, T2: 'a, T3: 'a, T4: 'a, T5: 'a> TypedExtractMut<'a, 0, 1, (&'a mut T0,)>
    for (T0, T1, T2, T3, T4, T5)
{
    open spec fn spec_borrows(&self, out: (&'a mut T0,)) -> bool {
        *out.0 == self.0
    }

    open spec fn spec_keeps(&self, after: (T0, T1, T2, T3, T4, T5)) -> bool {
        &&& after.1 == self.1
        &&& after.2 == self.2
        &&& after.3 == self.3
        &&& after.4 == self.4
        &&& after.5 == self.5
    }

    fn extract_mut(&'a mut self) -> (r: (&'a mut T0,))
        ensures
            ({
                let out: (&'a mut T0,) = r;
                *final(self) == (*final(out.0), old(self).1, old(self).2, old(self).3, old(self).4,
                    old(self).5)
            }),
    {
        (&mut self.0,)
    }

    proof fn lemma_extract_mut_len() {
    }
}

impl<'a, T0: 'a, T1: 'a, T2: 'a, T3: 'a, T4: 'a, T5: 'a> TypedExtractMut<'a, 0, 2, (&'a mut T0,
    &'a mut T1)>
    for (T0, T1, T2, T3, T4, T5)
{
    open spec fn spec_borrows(&self, out: (&'a mut T0, &'a mut T1)) -> bool {
        &&& *out.0 == self.0
        &&& *out.1 == self.1
    }

    open spec fn spec_keeps(&self, after: (T0, T1, T2, T3, T4, T5)) -> bool {
        &&& after.2 == self.2
        &&& after.3 == self.3
        &&& after.4 == self.4
        &&& after.5 == self.5
    }

    fn extract_mut(&'a mut self) -> (r: (&'a mut T0, &'a mut T1))
        ensures
            ({
                let out: (&'a mut T0, &'a mut T1) = r;
                *final(self) == (*final(out.0), *final(out.1), old(self).2, old(self).3,
                    old(self).4, old(self).5)
            }),
    {
        (&mut self.0, &mut self.1)
    }

    proof fn lemma_extract_mut_len() {
    }
}

impl<'a, T0: 'a, T1: 'a, T2: 'a, T3: 'a, T4: 'a, T5: 'a> TypedExtractMut<'a, 0, 3, (&'a mut T0,
    &'a mut T1, &'a mut T2)>
    for (T0, T1, T2, T3, T4, T5)
{
    open spec fn spec_borrows(&self, out: (&'a mut T0, &'a mut T1, &'a mut T2)) -> bool {
        &&& *out.0 == self.0
        &&& *out.1 == self.1
        &&& *out.2 == self.2
    }

    open spec fn spec_keeps(&self, after: (T0, T1, T2, T3, T4, T5)) -> bool {
        &&& after.3 == self.3
        &&& after.4 == self.4
        &&& after.5 == self.5
    }

    fn extract_mut(&'a mut self) -> (r: (&'a mut T0, &'a mut T1, &'a mut T2))
        ensures
            ({
                let out: (&'a mut T0, &'a mut T1, &'a mut T2) = r;
                *final(self) == (*final(out.0), *final(out.1), *final(out.2), old(self).3,
                    old(self).4, old(self).5)
            }),
    {
        (&mut self.0, &mut self.1, &mut self.2)
    }

    proof fn lemma_extract_mut_len() {
    }
}

impl<'a, T0: 'a, T1: 'a, T2: 'a, T3: 'a, T4: 'a, T5: 'a> TypedExtractMut<'a, 0, 4, (&'a mut T0,
    &'a mut T1, &'a mut T2, &'a mut T3)>
    for (T0, T1, T2, T3, T4, T5)
{
    open spec fn spec_borrows(&self, out: (&'a mut T0, &'a mut T1, &'a mut T2,
        &'a mut T3)) -> bool {
        &&& *out.0 == self.0
        &&& *out.1 == self.1
        &&& *out.2 == self.2
        &&& *out.3 == self.3
    }

    open spec fn spec_keeps(&self, after: (T0, T1, T2, T3, T4, T5)) -> bool {
        &&& after.4 == self.4
        &&& after.5 == self.5
    }

    fn extract_mut(&'a mut self) -> (r: (&'a mut T0, &'a mut T1, &'a mut T2, &'a mut T3))
        ensures
            ({
                let out: (&'a mut T0, &'a mut T1, &'a mut T2, &'a mut T3) = r;
                *final(self) == (*final(out.0), *final(out.1), *final(out.2), *final(out.3),
                    old(self).4, old(self).5)
            }),
    {
        (&mut self.0, &mut self.1, &mut self.2, &mut self.3)
    }

    proof fn lemma_extract_mut_len() {
    }
}

impl<'a, T0: 'a, T1: 'a, T2: 'a, T3: 'a, T4: 'a, T5: 'a> TypedExtractMut<'a, 0, 5, (&'a mut T0,
    &'a mut T1, &'a mut T2, &'a mut T3, &'a mut T4)>
    for (T0, T1, T2, T3, T4, T5)
{
    open spec fn spec_borrows(&self, out: (&'a mut T0, &'a mut T1, &'a mut T2, &'a mut T3,
        &'a mut T4)) -> bool {
        &&& *out.0 == self.0
        &&& *out.1 == self.1
        &&& *out.2 == self.2
        &&& *out.3 == self.3
        &&& *out.4 == self.4
    }

    open spec fn spec_keeps(&self, after: (T0, T1, T2, T3, T4, T5)) -> bool {
        after.5 == self.5
    }

    fn extract_mut(&'a mut self) -> (r: (&'a mut T0, &'a mut T1, &'a mut T2, &'a mut T3,
        &'a mut T4))
        ensures
            ({
                let out: (&'a mut T0, &'a mut T1, &'a mut T2, &'a mut T3, &'a mut T4) = r;
                *final(self) == (*final(out.0), *final(out.1), *final(out.2), *final(out.3),
                    *final(out.4), old(self).5)
            }),
    {
        (&mut self.0, &mut self.1, &mut self.2, &mut self.3, &mut self.4)
    }

    proof fn lemma_extract_mut_len() {
    }
}

impl<'a, T0: 'a, T1: 'a, T2: 'a, T3: 'a, T4: 'a, T5: 'a> TypedExtractMut<'a, 0, 6, (&'a mut T0,
    &'a mut T1, &'a mut T2, &'a mut T3, &'a mut T4, &'a mut T5)>
    for (T0, T1, T2, T3, T4, T5)
{
    open spec fn spec_borrows(&self, out: (&'a mut T0, &'a mut T1, &'a mut T2, &'a mut T3,
        &'a mut T4, &'a mut T5)) -> bool {
        &&& *out.0 == self.0
        &&& *out.1 == self.1
        &&& *out.2 == self.2
        &&& *out.3 == self.3
        &&& *out.4 == self.4
        &&& *out.5 == self.5
    }

    open spec fn spec_keeps(&self, after: (T0, T1, T2, T3, T4, T5)) -> bool {
        true
    }

    fn extract_mut(&'a mut self) -> (r: (&'a mut T0, &'a mut T1, &'a mut T2, &'a mut T3, &'a mut T4,
        &'a mut T5))
        ensures
            ({
                let out: (&'a mut T0, &'a mut T1, &'a mut T2, &'a mut T3, &'a mut T4,
                    &'a mut T5) = r;
                *final(self) == (*final(out.0), *final(out.1), *final(out.2), *final(out.3),
                    *final(out.4), *final(out.5))
            }),
    {
        (&mut self.0, &mut self.1, &mut self.2, &mut self.3, &mut self.4, &mut self.5)
    }

    proof fn lemma_extract_mut_len() {
    }
}

impl<'a, T0: 'a, T1: 'a, T2: 'a, T3: 'a, T4: 'a, T5: 'a> TypedExtractMut<'a, 1, 1, ()>
    for (T0, T1, T2, T3, T4, T5)
{
    open spec fn spec_borrows(&self, out: ()) -> bool {
        true
    }

    open spec fn spec_keeps(&self, after: (T0, T1, T2, T3, T4, T5)) -> bool {
        &&& after.0 == self.0
        &&& after.1 == self.1
        &&& after.2 == self.2
        &&& after.3 == self.3
        &&& after.4 == self.4
        &&& after.5 == self.5
    }

    fn extract_mut(&'a mut self) -> (r: ()) {
        ()
    }

    proof fn lemma_extract_mut_len() {
    }
}

impl<'a, T0: 'a, T1: 'a, T2: 'a, T3: 'a, T4: 'a, T5: 'a> TypedExtractMut<'a, 1, 2, (&'a mut T1,)>
    for (T0, T1, T2, T3, T4, T5)
{
    open spec fn spec_borrows(&self, out: (&'a mut T1,)) -> bool {
        *out.0 == self.1
    }

    open spec fn spec_keeps(&self, after: (T0, T1, T2, T3, T4, T5)) -> bool {
        &&& after.0 == self.0
        &&& after.2 == self.2
        &&& after.3 == self.3
        &&& after.4 == self.4
        &&& after.5 == self.5
    }

    fn extract_mut(&'a mut self) -> (r: (&'a mut T1,))
        ensures
            ({
                let out: (&'a mut T1,) = r;
                *final(self) == (old(self).0, *final(out.0), old(self).2, old(self).3, old(self).4,
                    old(self).5)
            }),
    {
        (&mut self.1,)
    }

    proof fn lemma_extract_mut_len() {
    }
}

impl<'a, T0: 'a, T1: 'a, T2: 'a, T3: 'a, T4: 'a, T5: 'a> TypedExtractMut<'a, 1, 3, (&'a mut T1,
    &'a mut T2)>
    for (T0, T1, T2, T3, T4, T5)
{
    open spec fn spec_borrows(&self, out: (&'a mut T1, &'a mut T2)) -> bool {
        &&& *out.0 == self.1
        &&& *out.1 == self.2
    }

    open spec fn spec_keeps(&self, after: (T0, T1, T2, T3, T4, T5)) -> bool {
        &&& after.0 == self.0
        &&& after.3 == self.3
        &&& after.4 == self.4
        &&& after.5 == self.5
    }

    fn extract_mut(&'a mut self) -> (r: (&'a mut T1, &'a mut T2))
        ensures
            ({
                let out: (&'a mut T1, &'a mut T2) = r;
                *final(self) == (old(self).0, *final(out.0), *final(out.1), old(self).3,
                    old(self).4, old(self).5)
            }),
    {
        (&mut self.1, &mut self.2)
    }

    proof fn lemma_extract_mut_len() {
    }
}

impl<'a, T0: 'a, T1: 'a, T2: 'a, T3: 'a, T4: 'a, T5: 'a> TypedExtractMut<'a, 1, 4, (&'a mut T1,
    &'a mut T2, &'a mut T3)>
    for (T0, T1, T2, T3, T4, T5)
{
    open spec fn spec_borrows(&self, out: (&'a mut T1, &'a mut T2, &'a mut T3)) -> bool {
        &&& *out.0 == self.1
        &&& *out.1 == self.2
        &&& *out.2 == self.3
    }

    open spec fn spec_keeps(&self, after: (T0, T1, T2, T3, T4, T5)) -> bool {
        &&& after.0 == self.0
        &&& after.4 == self.4
        &&& after.5 == self.5
    }

    fn extract_mut(&'a mut self) -> (r: (&'a mut T1, &'a mut T2, &'a mut T3))
        ensures
            ({
                let out: (&'a mut T1, &'a mut T2, &'a mut T3) = r;
                *final(self) == (old(self).0, *final(out.0), *final(out.1), *final(out.2),
                    old(self).4, old(self).5)
            }),
    {
        (&mut self.1, &mut self.2, &mut self.3)
    }

    proof fn lemma_extract_mut_len() {
    }
}

impl<'a, T0: 'a, T1: 'a, T2: 'a, T3: 'a, T4: 'a, T5: 'a> TypedExtractMut<'a, 1, 5, (&'a mut T1,
    &'a mut T2, &'a mut T3, &'a mut T4)>
    for (T0, T1, T2, T3, T4, T5)
{
    open spec fn spec_borrows(&self, out: (&'a mut T1, &'a mut T2, &'a mut T3,
        &'a mut T4)) -> bool {
        &&& *out.0 == self.1
        &&& *out.1 == self.2
        &&& *out.2 == self.3
        &&& *out.3 == self.4
    }

    open spec fn spec_keeps(&self, after: (T0, T1, T2, T3, T4, T5)) -> bool {
        &&& after.0 == self.0
        &&& after.5 == self.5
    }

    fn extract_mut(&'a mut self) -> (r: (&'a mut T1, &'a mut T2, &'a mut T3, &'a mut T4))
        ensures
            ({
                let out: (&'a mut T1, &'a mut T2, &'a mut T3, &'a mut T4) = r;
                *final(self) == (old(self).0, *final(out.0), *final(out.1), *final(out.2),
                    *final(out.3), old(self).5)
            }),
    {
        (&mut self.1, &mut self.2, &mut self.3, &mut self.4)
    }

    proof fn lemma_extract_mut_len() {
    }
}

impl<'a, T0: 'a, T1: 'a, T2: 'a, T3: 'a, T4: 'a, T5: 'a> TypedExtractMut<'a, 1, 6, (&'a mut T1,
    &'a mut T2, &'a mut T3, &'a mut T4, &'a mut T5)>
    for (T0, T1, T2, T3, T4, T5)
{
    open spec fn spec_borrows(&self, out: (&'a mut T1, &'a mut T2, &'a mut T3, &'a mut T4,
        &'a mut T5)) -> bool {
        &&& *out.0 == self.1
        &&& *out.1 == self.2
        &&& *out.2 == self.3
        &&& *out.3 == self.4
        &&& *out.4 == self.5
    }

    open spec fn spec_keeps(&self, after: (T0, T1, T2, T3, T4, T5)) -> bool {
        after.0 == self.0
    }

    fn extract_mut(&'a mut self) -> (r: (&'a mut T1, &'a mut T2, &'a mut T3, &'a mut T4,
        &'a mut T5))
        ensures
            ({
                let out: (&'a mut T1, &'a mut T2, &'a mut T3, &'a mut T4, &'a mut T5) = r;
                *final(self) == (old(self).0, *final(out.0), *final(out.1), *final(out.2),
                    *final(out.3), *final(out.4))
            }),
    {
        (&mut self.1, &mut self.2, &mut self.3, &mut self.4, &mut self.5)
    }

    proof fn lemma_extract_mut_len() {
    }
}

impl<'a, T0: 'a, T1: 'a, T2: 'a, T3: 'a, T4: 'a, T5: 'a> TypedExtractMut<'a, 2, 2, ()>
    for (T0, T1, T2, T3, T4, T5)
{
    open spec fn spec_borrows(&self, out: ()) -> bool {
        true
    }

    open spec fn spec_keeps(&self, after: (T0, T1, T2, T3, T4, T5)) -> bool {
        &&& after.0 == self.0
        &&& after.1 == self.1
        &&& after.2 == self.2
        &&& after.3 == self.3
        &&& after.4 == self.4
        &&& after.5 == self.5
    }

    fn extract_mut(&'a mut self) -> (r: ()) {
        ()
    }

    proof fn lemma_extract_mut_len() {
    }
}

impl<'a, T0: 'a, T1: 'a, T2: 'a, T3: 'a, T4: 'a, T5: 'a> TypedExtractMut<'a, 2, 3, (&'a mut T2,)>
    for (T0, T1, T2, T3, T4, T5)
{
    open spec fn spec_borrows(&self, out: (&'a mut T2,)) -> bool {
        *out.0 == self.2
    }

    open spec fn spec_keeps(&self, after: (T0, T1, T2, T3, T4, T5)) -> bool {
        &&& after.0 == self.0
        &&& after.1 == self.1
        &&& after.3 == self.3
        &&& after.4 == self.4
        &&& after.5 == self.5
    }

    fn extract_mut(&'a mut self) -> (r: (&'a mut T2,))
        ensures
            ({
                let out: (&'a mut T2,) = r;
                *final(self) == (old(self).0, old(self).1, *final(out.0), old(self).3, old(self).4,
                    old(self).5)
            }),
    {
        (&mut self.2,)
    }

    proof fn lemma_extract_mut_len() {
    }
}

impl<'a, T0: 'a, T1: 'a, T2: 'a, T3: 'a, T4: 'a, T5: 'a> TypedExtractMut<'a, 2, 4, (&'a mut T2,
    &'a mut T3)>
    for (T0, T1, T2, T3, T4, T5)
{
    open spec fn spec_borrows(&self, out: (&'a mut T2, &'a mut T3)) -> bool {
        &&& *out.0 == self.2
        &&& *out.1 == self.3
    }

    open spec fn spec_keeps(&self, after: (T0, T1, T2, T3, T4, T5)) -> bool {
        &&& after.0 == self.0
        &&& after.1 == self.1
        &&& after.4 == self.4
        &&& after.5 == self.5
    }

    fn extract_mut(&'a mut self) -> (r: (&'a mut T2, &'a mut T3))
        ensures
            ({
                let out: (&'a mut T2, &'a mut T3) = r;
                *final(self) == (old(self).0, old(self).1, *final(out.0), *final(out.1),
                    old(self).4, old(self).5)
            }),
    {
        (&mut self.2, &mut self.3)
    }

    proof fn lemma_extract_mut_len() {
    }
}

impl<'a, T0: 'a, T1: 'a, T2: 'a, T3: 'a, T4: 'a, T5: 'a> TypedExtractMut<'a, 2, 5, (&'a mut T2,
    &'a mut T3, &'a mut T4)>
    for (T0, T1, T2, T3, T4, T5)
{
    open spec fn spec_borrows(&self, out: (&'a mut T2, &'a mut T3, &'a mut T4)) -> bool {
        &&& *out.0 == self.2
        &&& *out.1 == self.3
        &&& *out.2 == self.4
    }

    open spec fn spec_keeps(&self, after: (T0, T1, T2, T3, T4, T5)) -> bool {
        &&& after.0 == self.0
        &&& after.1 == self.1
        &&& after.5 == self.5
    }

    fn extract_mut(&'a mut self) -> (r: (&'a mut T2, &'a mut T3, &'a mut T4))
        ensures
            ({
                let out: (&'a mut T2, &'a mut T3, &'a mut T4) = r;
                *final(self) == (old(self).0, old(self).1, *final(out.0), *final(out.1),
                    *final(out.2), old(self).5)
            }),
    {
        (&mut self.2, &mut self.3, &mut self.4)
    }

    proof fn lemma_extract_mut_len() {
    }
}

impl<'a, T0: 'a, T1: 'a, T2: 'a, T3: 'a, T4: 'a, T5: 'a> TypedExtractMut<'a, 2, 6, (&'a mut T2,
    &'a mut T3, &'a mut T4, &'a mut T5)>
    for (T0, T1, T2, T3, T4, T5)
{
    open spec fn spec_borrows(&self, out: (&'a mut T2, &'a mut T3, &'a mut T4,
        &'a mut T5)) -> bool {
        &&& *out.0 == self.2
        &&& *out.1 == self.3
        &&& *out.2 == self.4
        &&& *out.3 == self.5
    }

    open spec fn spec_keeps(&self, after: (T0, T1, T2, T3, T4, T5)) -> bool {
        &&& after.0 == self.0
        &&& after.1 == self.1
    }

    fn extract_mut(&'a mut self) -> (r: (&'a mut T2, &'a mut T3, &'a mut T4, &'a mut T5))
        ensures
            ({
                let out: (&'a mut T2, &'a mut T3, &'a mut T4, &'a mut T5) = r;
                *final(self) == (old(self).0, old(self).1, *final(out.0), *final(out.1),
                    *final(out.2), *final(out.3))
            }),
    {
        (&mut self.2, &mut self.3, &mut self.4, &mut self.5)
    }

    proof fn lemma_extract_mut_len() {
    }
}

impl<'a, T0: 'a, T1: 'a, T2: 'a, T3: 'a, T4: 'a, T5: 'a> TypedExtractMut<'a, 3, 3, ()>
    for (T0, T1, T2, T3, T4, T5)
{
    open spec fn spec_borrows(&self, out: ()) -> bool {
        true
    }

    open spec fn spec_keeps(&self, after: (T0, T1, T2, T3, T4, T5)) -> bool {
        &&& after.0 == self.0
        &&& after.1 == self.1
        &&& after.2 == self.2
        &&& after.3 == self.3
        &&& after.4 == self.4
        &&& after.5 == self.5
    }

    fn extract_mut(&'a mut self) -> (r: ()) {
        ()
    }

    proof fn lemma_extract_mut_len() {
    }
}

impl<'a, T0: 'a, T1: 'a, T2: 'a, T3: 'a, T4: 'a, T5: 'a> TypedExtractMut<'a, 3, 4, (&'a mut T3,)>
    for (T0, T1, T2, T3, T4, T5)
{
    open spec fn spec_borrows(&self, out: (&'a mut T3,)) -> bool {
        *out.0 == self.3
    }

    open spec fn spec_keeps(&self, after: (T0, T1, T2, T3, T4, T5)) -> bool {
        &&& after.0 == self.0
        &&& after.1 == self.1
        &&& after.2 == self.2
        &&& after.4 == self.4
        &&& after.5 == self.5
    }

    fn extract_mut(&'a mut self) -> (r: (&'a mut T3,))
        ensures
            ({
                let out: (&'a mut T3,) = r;
                *final(self) == (old(self).0, old(self).1, old(self).2, *final(out.0), old(self).4,
                    old(self).5)
            }),
    {
        (&mut self.3,)
    }

    proof fn lemma_extract_mut_len() {
    }
}

impl<'a, T0: 'a, T1: 'a, T2: 'a, T3: 'a, T4: 'a, T5: 'a> TypedExtractMut<'a, 3, 5, (&'a mut T3,
    &'a mut T4)>
    for (T0, T1, T2, T3, T4, T5)
{
    open spec fn spec_borrows(&self, out: (&'a mut T3, &'a mut T4)) -> bool {
        &&& *out.0 == self.3
        &&& *out.1 == self.4
    }

    open spec fn spec_keeps(&self, after: (T0, T1, T2, T3, T4, T5)) -> bool {
        &&& after.0 == self.0
        &&& after.1 == self.1
        &&& after.2 == self.2
        &&& after.5 == self.5
    }

    fn extract_mut(&'a mut self) -> (r: (&'a mut T3, &'a mut T4))
        ensures
            ({
                let out: (&'a mut T3, &'a mut T4) = r;
                *final(self) == (old(self).0, old(self).1, old(self).2, *final(out.0),
                    *final(out.1), old(self).5)
            }),
    {
        (&mut self.3, &mut self.4)
    }

    proof fn lemma_extract_mut_len() {
    }
}

impl<'a, T0: 'a, T1: 'a, T2: 'a, T3: 'a, T4: 'a, T5: 'a> TypedExtractMut<'a, 3, 6, (&'a mut T3,
    &'a mut T4, &'a mut T5)>
    for (T0, T1, T2, T3, T4, T5)
{
    open spec fn spec_borrows(&self, out: (&'a mut T3, &'a mut T4, &'a mut T5)) -> bool {
        &&& *out.0 == self.3
        &&& *out.1 == self.4
        &&& *out.2 == self.5
    }

    open spec fn spec_keeps(&self, after: (T0, T1, T2, T3, T4, T5)) -> bool {
        &&& after.0 == self.0
        &&& after.1 == self.1
        &&& after.2 == self.2
    }

    fn extract_mut(&'a mut self) -> (r: (&'a mut T3, &'a mut T4, &'a mut T5))
        ensures
            ({
                let out: (&'a mut T3, &'a mut T4, &'a mut T5) = r;
                *final(self) == (old(self).0, old(self).1, old(self).2, *final(out.0),
                    *final(out.1), *final(out.2))
            }),
    {
        (&mut self.3, &mut self.4, &mut self.5)
    }

    proof fn lemma_extract_mut_len() {
    }
}

impl<'a, T0: 'a, T1: 'a, T2: 'a, T3: 'a, T4: 'a, T5: 'a> TypedExtractMut<'a, 4, 4, ()>
    for (T0, T1, T2, T3, T4, T5)
{
    open spec fn spec_borrows(&self, out: ()) -> bool {
        true
    }

    open spec fn spec_keeps(&self, after: (T0, T1, T2, T3, T4, T5)) -> bool {
        &&& after.0 == self.0
        &&& after.1 == self.1
        &&& after.2 == self.2
        &&& after.3 == self.3
        &&& after.4 == self.4
        &&& after.5 == self.5
    }

    fn extract_mut(&'a mut self) -> (r: ()) {
        ()
    }

    proof fn lemma_extract_mut_len() {
    }
}

impl<'a, T0: 'a, T1: 'a, T2: 'a, T3: 'a, T4: 'a, T5: 'a> TypedExtractMut<'a, 4, 5, (&'a mut T4,)>
    for (T0, T1, T2, T3, T4, T5)
{
    open spec fn spec_borrows(&self, out: (&'a mut T4,)) -> bool {
        *out.0 == self.4
    }

    open spec fn spec_keeps(&self, after: (T0, T1, T2, T3, T4, T5)) -> bool {
        &&& after.0 == self.0
        &&& after.1 == self.1
        &&& after.2 == self.2
        &&& after.3 == self.3
        &&& after.5 == self.5
    }

    fn extract_mut(&'a mut self) -> (r: (&'a mut T4,))
        ensures
            ({
                let out: (&'a mut T4,) = r;
                *final(self) == (old(self).0, old(self).1, old(self).2, old(self).3, *final(out.0),
                    old(self).5)
            }),
    {
        (&mut self.4,)
    }

    proof fn lemma_extract_mut_len() {
    }
}

impl<'a, T0: 'a, T1: 'a, T2: 'a, T3: 'a, T4: 'a, T5: 'a> TypedExtractMut<'a, 4, 6, (&'a mut T4,
    &'a mut T5)>
    for (T0, T1, T2, T3, T4, T5)
{
    open spec fn spec_borrows(&self, out: (&'a mut T4, &'a mut T5)) -> bool {
        &&& *out.0 == self.4
        &&& *out.1 == self.5
    }

    open spec fn spec_keeps(&self, after: (T0, T1, T2, T3, T4, T5)) -> bool {
        &&& after.0 == self.0
        &&& after.1 == self.1
        &&& after.2 == self.2
        &&& after.3 == self.3
    }

    fn extract_mut(&'a mut self) -> (r: (&'a mut T4, &'a mut T5))
        ensures
            ({
                let out: (&'a mut T4, &'a mut T5) = r;
                *final(self) == (old(self).0, old(self).1, old(self).2, old(self).3, *final(out.0),
                    *final(out.1))
            }),
    {
        (&mut self.4, &mut self.5)
    }

    proof fn lemma_extract_mut_len() {
    }
}

impl<'a, T0: 'a, T1: 'a, T2: 'a, T3: 'a, T4: 'a, T5: 'a> TypedExtractMut<'a, 5, 5, ()>
    for (T0, T1, T2, T3, T4, T5)
{
    open spec fn spec_borrows(&self, out: ()) -> bool {
        true
    }

    open spec fn spec_keeps(&self, after: (T0, T1, T2, T3, T4, T5)) -> bool {
        &&& after.0 == self.0
        &&& after.1 == self.1
        &&& after.2 == self.2
        &&& after.3 == self.3
        &&& after.4 == self.4
        &&& after.5 == self.5
    }

    fn extract_mut(&'a mut self) -> (r: ()) {
        ()
    }

    proof fn lemma_extract_mut_len() {
    }
}

impl<'a, T0: 'a, T1: 'a, T2: 'a, T3: 'a, T4: 'a, T5: 'a> TypedExtractMut<'a, 5, 6, (&'a mut T5,)>
    for (T0, T1, T2, T3, T4, T5)
{
    open spec fn spec_borrows(&self, out: (&'a mut T5,)) -> bool {
        *out.0 == self.5
    }

    open spec fn spec_keeps(&self, after: (T0, T1, T2, T3, T4, T5)) -> bool {
        &&& after.0 == self.0
        &&& after.1 == self.1
        &&& after.2 == self.2
        &&& after.3 == self.3
        &&& after.4 == self.4
    }

    fn extract_mut(&'a mut self) -> (r: (&'a mut T5,))
        ensures
            ({
                let out: (&'a mut T5,) = r;
                *final(self) == (old(self).0, old(self).1, old(self).2, old(self).3, old(self).4,
                    *final(out.0))
            }),
    {
        (&mut self.5,)
    }

    proof fn lemma_extract_mut_len() {
    }
}

impl<'a, T0: 'a, T1: 'a, T2: 'a, T3: 'a, T4: 'a, T5: 'a, T6: 'a> TypedExtractMut<'a, 0, 0, ()>
    for (T0, T1, T2, T3, T4, T5, T6)
{
    open spec fn spec_borrows(&self, out: ()) -> bool {
        true
    }

    open spec fn spec_keeps(&self, after: (T0, T1, T2, T3, T4, T5, T6)) -> bool {
        &&& after.0 == self.0
        &&& after.1 == self.1
        &&& after.2 == self.2
        &&& after.3 == self.3
        &&& after.4 == self.4
        &&& after.5 == self.5
        &&& after.6 == self.6
    }

    fn extract_mut(&'a mut self) -> (r: ()) {
        ()
    }

    proof fn lemma_extract_mut_len() {
    }
}

impl<'a, T0: 'a, T1: 'a, T2: 'a, T3: 'a, T4: 'a, T5: 'a, T6: 'a> TypedExtractMut<'a, 0, 1,
    (&'a mut T0,)>
    for (T0, T1, T2, T3, T4, T5, T6)
{
    open spec fn spec_borrows(&self, out: (&'a mut T0,)) -> bool {
        *out.0 == self.0
    }

    open spec fn spec_keeps(&self, after: (T0, T1, T2, T3, T4, T5, T6)) -> bool {
        &&& after.1 == self.1
        &&& after.2 == self.2
        &&& after.3 == self.3
        &&& after.4 == self.4
        &&& after.5 == self.5
        &&& after.6 == self.6
    }

    fn extract_mut(&'a mut self) -> (r: (&'a mut T0,))
        ensures
            ({
                let out: (&'a mut T0,) = r;
                *final(self) == (*final(out.0), old(self).1, old(self).2, old(self).3, old(self).4,
                    old(self).5, old(self).6)
            }),
    {
        (&mut self.0,)
    }

    proof fn lemma_extract_mut_len() {
    }
}

impl<'a, T0: 'a, T1: 'a, T2: 'a, T3: 'a, T4: 'a, T5: 'a, T6: 'a> TypedExtractMut<'a, 0, 2,
    (&'a mut T0, &'a mut T1)>
    for (T0, T1, T2, T3, T4, T5, T6)
{
    open spec fn spec_borrows(&self, out: (&'a mut T0, &'a mut T1)) -> bool {
        &&& *out.0 == self.0
        &&& *out.1 == self.1
    }

    open spec fn spec_keeps(&self, after: (T0, T1, T2, T3, T4, T5, T6)) -> bool {
        &&& after.2 == self.2
        &&& after.3 == self.3
        &&& after.4 == self.4
        &&& after.5 == self.5
        &&& after.6 == self.6
    }

    fn extract_mut(&'a mut self) -> (r: (&'a mut T0, &'a mut T1))
        ensures
            ({
                let out: (&'a mut T0, &'a mut T1) = r;
                *final(self) == (*final(out.0), *final(out.1), old(self).2, old(self).3,
                    old(self).4, old(self).5, old(self).6)
            }),
    {
        (&mut self.0, &mut self.1)
    }

    proof fn lemma_extract_mut_len() {
    }
}

impl<'a, T0: 'a, T1: 'a, T2: 'a, T3: 'a, T4: 'a, T5: 'a, T6: 'a> TypedExtractMut<'a, 0, 3,
    (&'a mut T0, &'a mut T1, &'a mut T2)>
    for (T0, T1, T2, T3, T4, T5, T6)
{
    open spec fn spec_borrows(&self, out: (&'a mut T0, &'a mut T1, &'a mut T2)) -> bool {
        &&& *out.0 == self.0
        &&& *out.1 == self.1
        &&& *out.2 == self.2
    }

    open spec fn spec_keeps(&self, after: (T0, T1, T2, T3, T4, T5, T6)) -> bool {
        &&& after.3 == self.3
        &&& after.4 == self.4
        &&& after.5 == self.5
        &&& after.6 == self.6
    }

    fn extract_mut(&'a mut self) -> (r: (&'a mut T0, &'a mut T1, &'a mut T2))
        ensures
            ({
                let out: (&'a mut T0, &'a mut T1, &'a mut T2) = r;
                *final(self) == (*final(out.0), *final(out.1), *final(out.2), old(self).3,
                    old(self).4, old(self).5, old(self).6)
            }),
    {
        (&mut self.0, &mut self.1, &mut self.2)
    }

    proof fn lemma_extract_mut_len() {
    }
}

impl<'a, T0: 'a, T1: 'a, T2: 'a, T3: 'a, T4: 'a, T5: 'a, T6: 'a> TypedExtractMut<'a, 0, 4,
    (&'a mut T0, &'a mut T1, &'a mut T2, &'a mut T3)>
    for (T0, T1, T2, T3, T4, T5, T6)
{
    open spec fn spec_borrows(&self, out: (&'a mut T0, &'a mut T1, &'a mut T2,
        &'a mut T3)) -> bool {
        &&& *out.0 == self.0
        &&& *out.1 == self.1
        &&& *out.2 == self.2
        &&& *out.3 == self.3
    }

    open spec fn spec_keeps(&self, after: (T0, T1, T2, T3, T4, T5, T6)) -> bool {
        &&& after.4 == self.4
        &&& after.5 == self.5
        &&& after.6 == self.6
    }

    fn extract_mut(&'a mut self) -> (r: (&'a mut T0, &'a mut T1, &'a mut T2, &'a mut T3))
        ensures
            ({
                let out: (&'a mut T0, &'a mut T1, &'a mut T2, &'a mut T3) = r;
                *final(self) == (*final(out.0), *final(out.1), *final(out.2), *final(out.3),
                    old(self).4, old(self).5, old(self).6)
            }),
    {
        (&mut self.0, &mut self.1, &mut self.2, &mut self.3)
    }

    proof fn lemma_extract_mut_len() {
    }
}

impl<'a, T0: 'a, T1: 'a, T2: 'a, T3: 'a, T4: 'a, T5: 'a, T6: 'a> TypedExtractMut<'a, 0, 5,
    (&'a mut T0, &'a mut T1, &'a mut T2, &'a mut T3, &'a mut T4)>
    for (T0, T1, T2, T3, T4, T5, T6)
{
    open spec fn spec_borrows(&self, out: (&'a mut T0, &'a mut T1, &'a mut T2, &'a mut T3,
        &'a mut T4)) -> bool {
        &&& *out.0 == self.0
        &&& *out.1 == self.1
        &&& *out.2 == self.2
        &&& *out.3 == self.3
        &&& *out.4 == self.4
    }

    open spec fn spec_keeps(&self, after: (T0, T1, T2, T3, T4, T5, T6)) -> bool {
        &&& after.5 == self.5
        &&& after.6 == self.6
    }

    fn extract_mut(&'a mut self) -> (r: (&'a mut T0, &'a mut T1, &'a mut T2, &'a mut T3,
        &'a mut T4))
        ensures
            ({
                let out: (&'a mut T0, &'a mut T1, &'a mut T2, &'a mut T3, &'a mut T4) = r;
                *final(self) == (*final(out.0), *final(out.1), *final(out.2), *final(out.3),
                    *final(out.4), old(self).5, old(self).6)
            }),
    {
        (&mut self.0, &mut self.1, &mut self.2, &mut self.3, &mut self.4)
    }

    proof fn lemma_extract_mut_len() {
    }
}

impl<'a, T0: 'a, T1: 'a, T2: 'a, T3: 'a, T4: 'a, T5: 'a, T6: 'a> TypedExtractMut<'a, 0, 6,
    (&'a mut T0, &'a mut T1, &'a mut T2, &'a mut T3, &'a mut T4, &'a mut T5)>
    for (T0, T1, T2, T3, T4, T5, T6)
{
    open spec fn spec_borrows(&self, out: (&'a mut T0, &'a mut T1, &'a mut T2, &'a mut T3,
        &'a mut T4, &'a mut T5)) -> bool {
        &&& *out.0 == self.0
        &&& *out.1 == self.1
        &&& *out.2 == self.2
        &&& *out.3 == self.3
        &&& *out.4 == self.4
        &&& *out.5 == self.5
    }

    open spec fn spec_keeps(&self, after: (T0, T1, T2, T3, T4, T5, T6)) -> bool {
        after.6 == self.6
    }

    fn extract_mut(&'a mut self) -> (r: (&'a mut T0, &'a mut T1, &'a mut T2, &'a mut T3, &'a mut T4,
        &'a mut T5))
        ensures
            ({
                let out: (&'a mut T0, &'a mut T1, &'a mut T2, &'a mut T3, &'a mut T4,
                    &'a mut T5) = r;
                *final(self) == (*final(out.0), *final(out.1), *final(out.2), *final(out.3),
                    *final(out.4), *final(out.5), old(self).6)
            }),
    {
        (&mut self.0, &mut self.1, &mut self.2, &mut self.3, &mut self.4, &mut self.5)
    }

    proof fn lemma_extract_mut_len() {
    }
}

impl<'a, T0: 'a, T1: 'a, T2: 'a, T3: 'a, T4: 'a, T5: 'a, T6: 'a> TypedExtractMut<'a, 0, 7,
    (&'a mut T0, &'a mut T1, &'a mut T2, &'a mut T3, &'a mut T4, &'a mut T5, &'a mut T6)>
    for (T0, T1, T2, T3, T4, T5, T6)
{
    open spec fn spec_borrows(&self, out: (&'a mut T0, &'a mut T1, &'a mut T2, &'a mut T3,
        &'a mut T4, &'a mut T5, &'a mut T6)) -> bool {
        &&& *out.0 == self.0
        &&& *out.1 == self.1
        &&& *out.2 == self.2
        &&& *out.3 == self.3
        &&& *out.4 == self.4
        &&& *out.5 == self.5
        &&& *out.6 == self.6
    }

    open spec fn spec_keeps(&self, after: (T0, T1, T2, T3, T4, T5, T6)) -> bool {
        true
    }

    fn extract_mut(&'a mut self) -> (r: (&'a mut T0, &'a mut T1, &'a mut T2, &'a mut T3, &'a mut T4,
        &'a mut T5, &'a mut T6))
        ensures
            ({
                let out: (&'a mut T0, &'a mut T1, &'a mut T2, &'a mut T3, &'a mut T4, &'a mut T5,
                    &'a mut T6) = r;
                *final(self) == (*final(out.0), *final(out.1), *final(out.2), *final(out.3),
                    *final(out.4), *final(out.5), *final(out.6))
            }),
    {
        (&mut self.0, &mut self.1, &mut self.2, &mut self.3, &mut self.4, &mut self.5, &mut self.6)
    }

    proof fn lemma_extract_mut_len() {
    }
}

impl<'a, T0: 'a, T1: 'a, T2: 'a, T3: 'a, T4: 'a, T5: 'a, T6: 'a> TypedExtractMut<'a, 1, 1, ()>
    for (T0, T1, T2, T3, T4, T5, T6)
{
    open spec fn spec_borrows(&self, out: ()) -> bool {
        true
    }

    open spec fn spec_keeps(&self, after: (T0, T1, T2, T3, T4, T5, T6)) -> bool {
        &&& after.0 == self.0
        &&& after.1 == self.1
        &&& after.2 == self.2
        &&& after.3 == self.3
        &&& after.4 == self.4
        &&& after.5 == self.5
        &&& after.6 == self.6
    }

    fn extract_mut(&'a mut self) -> (r: ()) {
        ()
    }

    proof fn lemma_extract_mut_len() {
    }
}

impl<'a, T0: 'a, T1: 'a, T2: 'a, T3: 'a, T4: 'a, T5: 'a, T6: 'a> TypedExtractMut<'a, 1, 2,
    (&'a mut T1,)>
    for (T0, T1, T2, T3, T4, T5, T6)
{
    open spec fn spec_borrows(&self, out: (&'a mut T1,)) -> bool {
        *out.0 == self.1
    }

    open spec fn spec_keeps(&self, after: (T0, T1, T2, T3, T4, T5, T6)) -> bool {
        &&& after.0 == self.0
        &&& after.2 == self.2
        &&& after.3 == self.3
        &&& after.4 == self.4
        &&& after.5 == self.5
        &&& after.6 == self.6
    }

    fn extract_mut(&'a mut self) -> (r: (&'a mut T1,))
        ensures
            ({
                let out: (&'a mut T1,) = r;
                *final(self) == (old(self).0, *final(out.0), old(self).2, old(self).3, old(self).4,
                    old(self).5, old(self).6)
            }),
    {
        (&mut self.1,)
    }

    proof fn lemma_extract_mut_len() {
    }
}

impl<'a, T0: 'a, T1: 'a, T2: 'a, T3: 'a, T4: 'a, T5: 'a, T6: 'a> TypedExtractMut<'a, 1, 3,
    (&'a mut T1, &'a mut T2)>
    for (T0, T1, T2, T3, T4, T5, T6)
{
    open spec fn spec_borrows(&self, out: (&'a mut T1, &'a mut T2)) -> bool {
        &&& *out.0 == self.1
        &&& *out.1 == self.2
    }

    open spec fn spec_keeps(&self, after: (T0, T1, T2, T3, T4, T5, T6)) -> bool {
        &&& after.0 == self.0
        &&& after.3 == self.3
        &&& after.4 == self.4
        &&& after.5 == self.5
        &&& after.6 == self.6
    }

    fn extract_mut(&'a mut self) -> (r: (&'a mut T1, &'a mut T2))
        ensures
            ({
                let out: (&'a mut T1, &'a mut T2) = r;
                *final(self) == (old(self).0, *final(out.0), *final(out.1), old(self).3,
                    old(self).4, old(self).5, old(self).6)
            }),
    {
        (&mut self.1, &mut self.2)
    }

    proof fn lemma_extract_mut_len() {
    }
}

impl<'a, T0: 'a, T1: 'a, T2: 'a, T3: 'a, T4: 'a, T5: 'a, T6: 'a> TypedExtractMut<'a, 1, 4,
    (&'a mut T1, &'a mut T2, &'a mut T3)>
    for (T0, T1, T2, T3, T4, T5, T6)
{
    open spec fn spec_borrows(&self, out: (&'a mut T1, &'a mut T2, &'a mut T3)) -> bool {
        &&& *out.0 == self.1
        &&& *out.1 == self.2
        &&& *out.2 == self.3
    }

    open spec fn spec_keeps(&self, after: (T0, T1, T2, T3, T4, T5, T6)) -> bool {
        &&& after.0 == self.0
        &&& after.4 == self.4
        &&& after.5 == self.5
        &&& after.6 == self.6
    }

    fn extract_mut(&'a mut self) -> (r: (&'a mut T1, &'a mut T2, &'a mut T3))
        ensures
            ({
                let out: (&'a mut T1, &'a mut T2, &'a mut T3) = r;
                *final(self) == (old(self).0, *final(out.0), *final(out.1), *final(out.2),
                    old(self).4, old(self).5, old(self).6)
            }),
    {
        (&mut self.1, &mut self.2, &mut self.3)
    }

    proof fn lemma_extract_mut_len() {
    }
}

impl<'a, T0: 'a, T1: 'a, T2: 'a, T3: 'a, T4: 'a, T5: 'a, T6: 'a> TypedExtractMut<'a, 1, 5,
    (&'a mut T1, &'a mut T2, &'a mut T3, &'a mut T4)>
    for (T0, T1, T2, T3, T4, T5, T6)
{
    open spec fn spec_borrows(&self, out: (&'a mut T1, &'a mut T2, &'a mut T3,
        &'a mut T4)) -> bool {
        &&& *out.0 == self.1
        &&& *out.1 == self.2
        &&& *out.2 == self.3
        &&& *out.3 == self.4
    }

    open spec fn spec_keeps(&self, after: (T0, T1, T2, T3, T4, T5, T6)) -> bool {
        &&& after.0 == self.0
        &&& after.5 == self.5
        &&& after.6 == self.6
    }

    fn extract_mut(&'a mut self) -> (r: (&'a mut T1, &'a mut T2, &'a mut T3, &'a mut T4))
        ensures
            ({
                let out: (&'a mut T1, &'a mut T2, &'a mut T3, &'a mut T4) = r;
                *final(self) == (old(self).0, *final(out.0), *final(out.1), *final(out.2),
                    *final(out.3), old(self).5, old(self).6)
            }),
    {
        (&mut self.1, &mut self.2, &mut self.3, &mut self.4)
    }

    proof fn lemma_extract_mut_len() {
    }
}

impl<'a, T0: 'a, T1: 'a, T2: 'a, T3: 'a, T4: 'a, T5: 'a, T6: 'a> TypedExtractMut<'a, 1, 6,
    (&'a mut T1, &'a mut T2, &'a mut T3, &'a mut T4, &'a mut T5)>
    for (T0, T1, T2, T3, T4, T5, T6)
{
    open spec fn spec_borrows(&self, out: (&'a mut T1, &'a mut T2, &'a mut T3, &'a mut T4,
        &'a mut T5)) -> bool {
        &&& *out.0 == self.1
        &&& *out.1 == self.2
        &&& *out.2 == self.3
        &&& *out.3 == self.4
        &&& *out.4 == self.5
    }

    open spec fn spec_keeps(&self, after: (T0, T1, T2, T3, T4, T5, T6)) -> bool {
        &&& after.0 == self.0
        &&& after.6 == self.6
    }

    fn extract_mut(&'a mut self) -> (r: (&'a mut T1, &'a mut T2, &'a mut T3, &'a mut T4,
        &'a mut T5))
        ensures
            ({
                let out: (&'a mut T1, &'a mut T2, &'a mut T3, &'a mut T4, &'a mut T5) = r;
                *final(self) == (old(self).0, *final(out.0), *final(out.1), *final(out.2),
                    *final(out.3), *final(out.4), old(self).6)
            }),
    {
        (&mut self.1, &mut self.2, &mut self.3, &mut self.4, &mut self.5)
    }

    proof fn lemma_extract_mut_len() {
    }
}

impl<'a, T0: 'a, T1: 'a, T2: 'a, T3: 'a, T4: 'a, T5: 'a, T6: 'a> TypedExtractMut<'a, 1, 7,
    (&'a mut T1, &'a mut T2, &'a mut T3, &'a mut T4, &'a mut T5, &'a mut T6)>
    for (T0, T1, T2, T3, T4, T5, T6)
{
    open spec fn spec_borrows(&self, out: (&'a mut T1, &'a mut T2, &'a mut T3, &'a mut T4,
        &'a mut T5, &'a mut T6)) -> bool {
        &&& *out.0 == self.1
        &&& *out.1 == self.2
        &&& *out.2 == self.3
        &&& *out.3 == self.4
        &&& *out.4 == self.5
        &&& *out.5 == self.6
    }

    open spec fn spec_keeps(&self, after: (T0, T1, T2, T3, T4, T5, T6)) -> bool {
        after.0 == self.0
    }

    fn extract_mut(&'a mut self) -> (r: (&'a mut T1, &'a mut T2, &'a mut T3, &'a mut T4, &'a mut T5,
        &'a mut T6))
        ensures
            ({
                let out: (&'a mut T1, &'a mut T2, &'a mut T3, &'a mut T4, &'a mut T5,
                    &'a mut T6) = r;
                *final(self) == (old(self).0, *final(out.0), *final(out.1), *final(out.2),
                    *final(out.3), *final(out.4), *final(out.5))
            }),
    {
        (&mut self.1, &mut self.2, &mut self.3, &mut self.4, &mut self.5, &mut self.6)
    }

    proof fn lemma_extract_mut_len() {
    }
}

impl<'a, T0: 'a, T1: 'a, T2: 'a, T3: 'a, T4: 'a, T5: 'a, T6: 'a> TypedExtractMut<'a, 2, 2, ()>
    for (T0, T1, T2, T3, T4, T5, T6)
{
    open spec fn spec_borrows(&self, out: ()) -> bool {
        true
    }

    open spec fn spec_keeps(&self, after: (T0, T1, T2, T3, T4, T5, T6)) -> bool {
        &&& after.0 == self.0
        &&& after.1 == self.1
        &&& after.2 == self.2
        &&& after.3 == self.3
        &&& after.4 == self.4
        &&& after.5 == self.5
        &&& after.6 == self.6
    }

    fn extract_mut(&'a mut self) -> (r: ()) {
        ()
    }

    proof fn lemma_extract_mut_len() {
    }
}

impl<'a, T0: 'a, T1: 'a, T2: 'a, T3: 'a, T4: 'a, T5: 'a, T6: 'a> TypedExtractMut<'a, 2, 3,
    (&'a mut T2,)>
    for (T0, T1, T2, T3, T4, T5, T6)
{
    open spec fn spec_borrows(&self, out: (&'a mut T2,)) -> bool {
        *out.0 == self.2
    }

    open spec fn spec_keeps(&self, after: (T0, T1, T2, T3, T4, T5, T6)) -> bool {
        &&& after.0 == self.0
        &&& after.1 == self.1
        &&& after.3 == self.3
        &&& after.4 == self.4
        &&& after.5 == self.5
        &&& after.6 == self.6
    }

    fn extract_mut(&'a mut self) -> (r: (&'a mut T2,))
        ensures
            ({
                let out: (&'a mut T2,) = r;
                *final(self) == (old(self).0, old(self).1, *final(out.0), old(self).3, old(self).4,
                    old(self).5, old(self).6)
            }),
    {
        (&mut self.2,)
    }

    proof fn lemma_extract_mut_len() {
    }
}

impl<'a, T0: 'a, T1: 'a, T2: 'a, T3: 'a, T4: 'a, T5: 'a, T6: 'a> TypedExtractMut<'a, 2, 4,
    (&'a mut T2, &'a mut T3)>
    for (T0, T1, T2, T3, T4, T5, T6)
{
    open spec fn spec_borrows(&self, out: (&'a mut T2, &'a mut T3)) -> bool {
        &&& *out.0 == self.2
        &&& *out.1 == self.3
    }

    open spec fn spec_keeps(&self, after: (T0, T1, T2, T3, T4, T5, T6)) -> bool {
        &&& after.0 == self.0
        &&& after.1 == self.1
        &&& after.4 == self.4
        &&& after.5 == self.5
        &&& after.6 == self.6
    }

    fn extract_mut(&'a mut self) -> (r: (&'a mut T2, &'a mut T3))
        ensures
            ({
                let out: (&'a mut T2, &'a mut T3) = r;
                *final(self) == (old(self).0, old(self).1, *final(out.0), *final(out.1),
                    old(self).4, old(self).5, old(self).6)
            }),
    {
        (&mut self.2, &mut self.3)
    }

    proof fn lemma_extract_mut_len() {
    }
}

impl<'a, T0: 'a, T1: 'a, T2: 'a, T3: 'a, T4: 'a, T5: 'a, T6: 'a> TypedExtractMut<'a, 2, 5,
    (&'a mut T2, &'a mut T3, &'a mut T4)>
    for (T0, T1, T2, T3, T4, T5, T6)
{
    open spec fn spec_borrows(&self, out: (&'a mut T2, &'a mut T3, &'a mut T4)) -> bool {
        &&& *out.0 == self.2
        &&& *out.1 == self.3
        &&& *out.2 == self.4
    }

    open spec fn spec_keeps(&self, after: (T0, T1, T2, T3, T4, T5, T6)) -> bool {
        &&& after.0 == self.0
        &&& after.1 == self.1
        &&& after.5 == self.5
        &&& after.6 == self.6
    }

    fn extract_mut(&'a mut self) -> (r: (&'a mut T2, &'a mut T3, &'a mut T4))
        ensures
            ({
                let out: (&'a mut T2, &'a mut T3, &'a mut T4) = r;
                *final(self) == (old(self).0, old(self).1, *final(out.0), *final(out.1),
                    *final(out.2), old(self).5, old(self).6)
            }),
    {
        (&mut self.2, &mut self.3, &mut self.4)
    }

    proof fn lemma_extract_mut_len() {
    }
}

impl<'a, T0: 'a, T1: 'a, T2: 'a, T3: 'a, T4: 'a, T5: 'a, T6: 'a> TypedExtractMut<'a, 2, 6,
    (&'a mut T2, &'a mut T3, &'a mut T4, &'a mut T5)>
    for (T0, T1, T2, T3, T4, T5, T6)
{
    open spec fn spec_borrows(&self, out: (&'a mut T2, &'a mut T3, &'a mut T4,
        &'a mut T5)) -> bool {
        &&& *out.0 == self.2
        &&& *out.1 == self.3
        &&& *out.2 == self.4
        &&& *out.3 == self.5
    }

    open spec fn spec_keeps(&self, after: (T0, T1, T2, T3, T4, T5, T6)) -> bool {
        &&& after.0 == self.0
        &&& after.1 == self.1
        &&& after.6 == self.6
    }

    fn extract_mut(&'a mut self) -> (r: (&'a mut T2, &'a mut T3, &'a mut T4, &'a mut T5))
        ensures
            ({
                let out: (&'a mut T2, &'a mut T3, &'a mut T4, &'a mut T5) = r;
                *final(self) == (old(self).0, old(self).1, *final(out.0), *final(out.1),
                    *final(out.2), *final(out.3), old(self).6)
            }),
    {
        (&mut self.2, &mut self.3, &mut self.4, &mut self.5)
    }

    proof fn lemma_extract_mut_len() {
    }
}

impl<'a, T0: 'a, T1: 'a, T2: 'a, T3: 'a, T4: 'a, T5: 'a, T6: 'a> TypedExtractMut<'a, 2, 7,
    (&'a mut T2, &'a mut T3, &'a mut T4, &'a mut T5, &'a mut T6)>
    for (T0, T1, T2, T3, T4, T5, T6)
{
    open spec fn spec_borrows(&self, out: (&'a mut T2, &'a mut T3, &'a mut T4, &'a mut T5,
        &'a mut T6)) -> bool {
        &&& *out.0 == self.2
        &&& *out.1 == self.3
        &&& *out.2 == self.4
        &&& *out.3 == self.5
        &&& *out.4 == self.6
    }

    open spec fn spec_keeps(&self, after: (T0, T1, T2, T3, T4, T5, T6)) -> bool {
        &&& after.0 == self.0
        &&& after.1 == self.1
    }

    fn extract_mut(&'a mut self) -> (r: (&'a mut T2, &'a mut T3, &'a mut T4, &'a mut T5,
        &'a mut T6))
        ensures
            ({
                let out: (&'a mut T2, &'a mut T3, &'a mut T4, &'a mut T5, &'a mut T6) = r;
                *final(self) == (old(self).0, old(self).1, *final(out.0), *final(out.1),
                    *final(out.2), *final(out.3), *final(out.4))
            }),
    {
        (&mut self.2, &mut self.3, &mut self.4, &mut self.5, &mut self.6)
    }

    proof fn lemma_extract_mut_len() {
    }
}

impl<'a, T0: 'a, T1: 'a, T2: 'a, T3: 'a, T4: 'a, T5: 'a, T6: 'a> TypedExtractMut<'a, 3, 3, ()>
    for (T0, T1, T2, T3, T4, T5, T6)
{
    open spec fn spec_borrows(&self, out: ()) -> bool {
        true
    }

    open spec fn spec_keeps(&self, after: (T0, T1, T2, T3, T4, T5, T6)) -> bool {
        &&& after.0 == self.0
        &&& after.1 == self.1
        &&& after.2 == self.2
        &&& after.3 == self.3
        &&& after.4 == self.4
        &&& after.5 == self.5
        &&& after.6 == self.6
    }

    fn extract_mut(&'a mut self) -> (r: ()) {
        ()
    }

    proof fn lemma_extract_mut_len() {
    }
}

impl<'a, T0: 'a, T1: 'a, T2: 'a, T3: 'a, T4: 'a, T5: 'a, T6: 'a> TypedExtractMut<'a, 3, 4,
    (&'a mut T3,)>
    for (T0, T1, T2, T3, T4, T5, T6)
{
    open spec fn spec_borrows(&self, out: (&'a mut T3,)) -> bool {
        *out.0 == self.3
    }

    open spec fn spec_keeps(&self, after: (T0, T1, T2, T3, T4, T5, T6)) -> bool {
        &&& after.0 == self.0
        &&& after.1 == self.1
        &&& after.2 == self.2
        &&& after.4 == self.4
        &&& after.5 == self.5
        &&& after.6 == self.6
    }

    fn extract_mut(&'a mut self) -> (r: (&'a mut T3,))
        ensures
            ({
                let out: (&'a mut T3,) = r;
                *final(self) == (old(self).0, old(self).1, old(self).2, *final(out.0), old(self).4,
                    old(self).5, old(self).6)
            }),
    {
        (&mut self.3,)
    }

    proof fn lemma_extract_mut_len() {
    }
}

impl<'a, T0: 'a, T1: 'a, T2: 'a, T3: 'a, T4: 'a, T5: 'a, T6: 'a> TypedExtractMut<'a, 3, 5,
    (&'a mut T3, &'a mut T4)>
    for (T0, T1, T2, T3, T4, T5, T6)
{
    open spec fn spec_borrows(&self, out: (&'a mut T3, &'a mut T4)) -> bool {
        &&& *out.0 == self.3
        &&& *out.1 == self.4
    }

    open spec fn spec_keeps(&self, after: (T0, T1, T2, T3, T4, T5, T6)) -> bool {
        &&& after.0 == self.0
        &&& after.1 == self.1
        &&& after.2 == self.2
        &&& after.5 == self.5
        &&& after.6 == self.6
    }

    fn extract_mut(&'a mut self) -> (r: (&'a mut T3, &'a mut T4))
        ensures
            ({
                let out: (&'a mut T3, &'a mut T4) = r;
                *final(self) == (old(self).0, old(self).1, old(self).2, *final(out.0),
                    *final(out.1), old(self).5, old(self).6)
            }),
    {
        (&mut self.3, &mut self.4)
    }

    proof fn lemma_extract_mut_len() {
    }
}

impl<'a, T0: 'a, T1: 'a, T2: 'a, T3: 'a, T4: 'a, T5: 'a, T6: 'a> TypedExtractMut<'a, 3, 6,
    (&'a mut T3, &'a mut T4, &'a mut T5)>
    for (T0, T1, T2, T3, T4, T5, T6)
{
    open spec fn spec_borrows(&self, out: (&'a mut T3, &'a mut T4, &'a mut T5)) -> bool {
        &&& *out.0 == self.3
        &&& *out.1 == self.4
        &&& *out.2 == self.5
    }

    open spec fn spec_keeps(&self, after: (T0, T1, T2, T3, T4, T5, T6)) -> bool {
        &&& after.0 == self.0
        &&& after.1 == self.1
        &&& after.2 == self.2
        &&& after.6 == self.6
    }

    fn extract_mut(&'a mut self) -> (r: (&'a mut T3, &'a mut T4, &'a mut T5))
        ensures
            ({
                let out: (&'a mut T3, &'a mut T4, &'a mut T5) = r;
                *final(self) == (old(self).0, old(self).1, old(self).2, *final(out.0),
                    *final(out.1), *final(out.2), old(self).6)
            }),
    {
        (&mut self.3, &mut self.4, &mut self.5)
    }

    proof fn lemma_extract_mut_len() {
    }
}

impl<'a, T0: 'a, T1: 'a, T2: 'a, T3: 'a, T4: 'a, T5: 'a, T6: 'a> TypedExtractMut<'a, 3, 7,
    (&'a mut T3, &'a mut T4, &'a mut T5, &'a mut T6)>
    for (T0, T1, T2, T3, T4, T5, T6)
{
    open spec fn spec_borrows(&self, out: (&'a mut T3, &'a mut T4, &'a mut T5,
        &'a mut T6)) -> bool {
        &&& *out.0 == self.3
        &&& *out.1 == self.4
        &&& *out.2 == self.5
        &&& *out.3 == self.6
    }

    open spec fn spec_keeps(&self, after: (T0, T1, T2, T3, T4, T5, T6)) -> bool {
        &&& after.0 == self.0
        &&& after.1 == self.1
        &&& after.2 == self.2
    }

    fn extract_mut(&'a mut self) -> (r: (&'a mut T3, &'a mut T4, &'a mut T5, &'a mut T6))
        ensures
            ({
                let out: (&'a mut T3, &'a mut T4, &'a mut T5, &'a mut T6) = r;
                *final(self) == (old(self).0, old(self).1, old(self).2, *final(out.0),
                    *final(out.1), *final(out.2), *final(out.3))
            }),
    {
        (&mut self.3, &mut self.4, &mut self.5, &mut self.6)
    }

    proof fn lemma_extract_mut_len() {
    }
}

impl<'a, T0: 'a, T1: 'a, T2: 'a, T3: 'a, T4: 'a, T5: 'a, T6: 'a> TypedExtractMut<'a, 4, 4, ()>
    for (T0, T1, T2, T3, T4, T5, T6)
{
    open spec fn spec_borrows(&self, out: ()) -> bool {
        true
    }

    open spec fn spec_keeps(&self, after: (T0, T1, T2, T3, T4, T5, T6)) -> bool {
        &&& after.0 == self.0
        &&& after.1 == self.1
        &&& after.2 == self.2
        &&& after.3 == self.3
        &&& after.4 == self.4
        &&& after.5 == self.5
        &&& after.6 == self.6
    }

    fn extract_mut(&'a mut self) -> (r: ()) {
        ()
    }

    proof fn lemma_extract_mut_len() {
    }
}

impl<'a, T0: 'a, T1: 'a, T2: 'a, T3: 'a, T4: 'a, T5: 'a, T6: 'a> TypedExtractMut<'a, 4, 5,
    (&'a mut T4,)>
    for (T0, T1, T2, T3, T4, T5, T6)
{
    open spec fn spec_borrows(&self, out: (&'a mut T4,)) -> bool {
        *out.0 == self.4
    }

    open spec fn spec_keeps(&self, after: (T0, T1, T2, T3, T4, T5, T6)) -> bool {
        &&& after.0 == self.0
        &&& after.1 == self.1
        &&& after.2 == self.2
        &&& after.3 == self.3
        &&& after.5 == self.5
        &&& after.6 == self.6
    }

    fn extract_mut(&'a mut self) -> (r: (&'a mut T4,))
        ensures
            ({
                let out: (&'a mut T4,) = r;
                *final(self) == (old(self).0, old(self).1, old(self).2, old(self).3, *final(out.0),
                    old(self).5, old(self).6)
            }),
    {
        (&mut self.4,)
    }

    proof fn lemma_extract_mut_len() {
    }
}

impl<'a, T0: 'a, T1: 'a, T2: 'a, T3: 'a, T4: 'a, T5: 'a, T6: 'a> TypedExtractMut<'a, 4, 6,
    (&'a mut T4, &'a mut T5)>
    for (T0, T1, T2, T3, T4, T5, T6)
{
    open spec fn spec_borrows(&self, out: (&'a mut T4, &'a mut T5)) -> bool {
        &&& *out.0 == self.4
        &&& *out.1 == self.5
    }

    open spec fn spec_keeps(&self, after: (T0, T1, T2, T3, T4, T5, T6)) -> bool {
        &&& after.0 == self.0
        &&& after.1 == self.1
        &&& after.2 == self.2
        &&& after.3 == self.3
        &&& after.6 == self.6
    }

    fn extract_mut(&'a mut self) -> (r: (&'a mut T4, &'a mut T5))
        ensures
            ({
                let out: (&'a mut T4, &'a mut T5) = r;
                *final(self) == (old(self).0, old(self).1, old(self).2, old(self).3, *final(out.0),
                    *final(out.1), old(self).6)
            }),
    {
        (&mut self.4, &mut self.5)
    }

    proof fn lemma_extract_mut_len() {
    }
}

impl<'a, T0: 'a, T1: 'a, T2: 'a, T3: 'a, T4: 'a, T5: 'a, T6: 'a> TypedExtractMut<'a, 4, 7,
    (&'a mut T4, &'a mut T5, &'a mut T6)>
    for (T0, T1, T2, T3, T4, T5, T6)
{
    open spec fn spec_borrows(&self, out: (&'a mut T4, &'a mut T5, &'a mut T6)) -> bool {
        &&& *out.0 == self.4
        &&& *out.1 == self.5
        &&& *out.2 == self.6
    }

    open spec fn spec_keeps(&self, after: (T0, T1, T2, T3, T4, T5, T6)) -> bool {
        &&& after.0 == self.0
        &&& after.1 == self.1
        &&& after.2 == self.2
        &&& after.3 == self.3
    }

    fn extract_mut(&'a mut self) -> (r: (&'a mut T4, &'a mut T5, &'a mut T6))
        ensures
            ({
                let out: (&'a mut T4, &'a mut T5, &'a mut T6) = r;
                *final(self) == (old(self).0, old(self).1, old(self).2, old(self).3, *final(out.0),
                    *final(out.1), *final(out.2))
            }),
    {
        (&mut self.4, &mut self.5, &mut self.6)
    }

    proof fn lemma_extract_mut_len() {
    }
}

impl<'a, T0: 'a, T1: 'a, T2: 'a, T3: 'a, T4: 'a, T5: 'a, T6: 'a> TypedExtractMut<'a, 5, 5, ()>
    for (T0, T1, T2, T3, T4, T5, T6)
{
    open spec fn spec_borrows(&self, out: ()) -> bool {
        true
    }

    open spec fn spec_keeps(&self, after: (T0, T1, T2, T3, T4, T5, T6)) -> bool {
        &&& after.0 == self.0
        &&& after.1 == self.1
        &&& after.2 == self.2
        &&& after.3 == self.3
        &&& after.4 == self.4
        &&& after.5 == self.5
        &&& after.6 == self.6
    }

    fn extract_mut(&'a mut self) -> (r: ()) {
        ()
    }

    proof fn lemma_extract_mut_len() {
    }
}

impl<'a, T0: 'a, T1: 'a, T2: 'a, T3: 'a, T4: 'a, T5: 'a, T6: 'a> TypedExtractMut<'a, 5, 6,
    (&'a mut T5,)>
    for (T0, T1, T2, T3, T4, T5, T6)
{
    open spec fn spec_borrows(&self, out: (&'a mut T5,)) -> bool {
        *out.0 == self.5
    }

    open spec fn spec_keeps(&self, after: (T0, T1, T2, T3, T4, T5, T6)) -> bool {
        &&& after.0 == self.0
        &&& after.1 == self.1
        &&& after.2 == self.2
        &&& after.3 == self.3
        &&& after.4 == self.4
        &&& after.6 == self.6
    }

    fn extract_mut(&'a mut self) -> (r: (&'a mut T5,))
        ensures
            ({
                let out: (&'a mut T5,) = r;
                *final(self) == (old(self).0, old(self).1, old(self).2, old(self).3, old(self).4,
                    *final(out.0), old(self).6)
            }),
    {
        (&mut self.5,)
    }

    proof fn lemma_extract_mut_len() {
    }
}

impl<'a, T0: 'a, T1: 'a, T2: 'a, T3: 'a, T4: 'a, T5: 'a, T6: 'a> TypedExtractMut<'a, 5, 7,
    (&'a mut T5, &'a mut T6)>
    for (T0, T1, T2, T3, T4, T5, T6)
{
    open spec fn spec_borrows(&self, out: (&'a mut T5, &'a mut T6)) -> bool {
        &&& *out.0 == self.5
        &&& *out.1 == self.6
    }

    open spec fn spec_keeps(&self, after: (T0, T1, T2, T3, T4, T5, T6)) -> bool {
        &&& after.0 == self.0
        &&& after.1 == self.1
        &&& after.2 == self.2
        &&& after.3 == self.3
        &&& after.4 == self.4
    }

    fn extract_mut(&'a mut self) -> (r: (&'a mut T5, &'a mut T6))
        ensures
            ({
                let out: (&'a mut T5, &'a mut T6) = r;
                *final(self) == (old(self).0, old(self).1, old(self).2, old(self).3, old(self).4,
                    *final(out.0), *final(out.1))
            }),
    {
        (&mut self.5, &mut self.6)
    }

    proof fn lemma_extract_mut_len() {
    }
}

impl<'a, T0: 'a, T1: 'a, T2: 'a, T3: 'a, T4: 'a, T5: 'a, T6: 'a> TypedExtractMut<'a, 6, 6, ()>
    for (T0, T1, T2, T3, T4, T5, T6)
{
    open spec fn spec_borrows(&self, out: ()) -> bool {
        true
    }

    open spec fn spec_keeps(&self, after: (T0, T1, T2, T3, T4, T5, T6)) -> bool {
        &&& after.0 == self.0
        &&& after.1 == self.1
        &&& after.2 == self.2
        &&& after.3 == self.3
        &&& after.4 == self.4
        &&& after.5 == self.5
        &&& after.6 == self.6
    }

    fn extract_mut(&'a mut self) -> (r: ()) {
        ()
    }

    proof fn lemma_extract_mut_len() {
    }
}

impl<'a, T0: 'a, T1: 'a, T2: 'a, T3: 'a, T4: 'a, T5: 'a, T6: 'a> TypedExtractMut<'a, 6, 7,
    (&'a mut T6,)>
    for (T0, T1, T2, T3, T4, T5, T6)
{
    open spec fn spec_borrows(&self, out: (&'a mut T6,)) -> bool {
        *out.0 == self.6
    }

    open spec fn spec_keeps(&self, after: (T0, T1, T2, T3, T4, T5, T6)) -> bool {
        &&& after.0 == self.0
        &&& after.1 == self.1
        &&& after.2 == self.2
        &&& after.3 == self.3
        &&& after.4 == self.4
        &&& after.5 == self.5
    }

    fn extract_mut(&'a mut self) -> (r: (&'a mut T6,))
        ensures
            ({
                let out: (&'a mut T6,) = r;
                *final(self) == (old(self).0, old(self).1, old(self).2, old(self).3, old(self).4,
                    old(self).5, *final(out.0))
            }),
    {
        (&mut self.6,)
    }

    proof fn lemma_extract_mut_len() {
    }
}

impl<'a, T0: 'a, T1: 'a, T2: 'a, T3: 'a, T4: 'a, T5: 'a, T6: 'a, T7: 'a> TypedExtractMut<'a, 0, 0,
    ()>
    for (T0, T1, T2, T3, T4, T5, T6, T7)
{
    open spec fn spec_borrows(&self, out: ()) -> bool {
        true
    }

    open spec fn spec_keeps(&self, after: (T0, T1, T2, T3, T4, T5, T6, T7)) -> bool {
        &&& after.0 == self.0
        &&& after.1 == self.1
        &&& after.2 == self.2
        &&& after.3 == self.3
        &&& after.4 == self.4
        &&& after.5 == self.5
        &&& after.6 == self.6
        &&& after.7 == self.7
    }

    fn extract_mut(&'a mut self) -> (r: ()) {
        ()
    }

    proof fn lemma_extract_mut_len() {
    }
}

impl<'a, T0: 'a, T1: 'a, T2: 'a, T3: 'a, T4: 'a, T5: 'a, T6: 'a, T7: 'a> TypedExtractMut<'a, 0, 1,
    (&'a mut T0,)>
    for (T0, T1, T2, T3, T4, T5, T6, T7)
{
    open spec fn spec_borrows(&self, out: (&'a mut T0,)) -> bool {
        *out.0 == self.0
    }

    open spec fn spec_keeps(&self, after: (T0, T1, T2, T3, T4, T5, T6, T7)) -> bool {
        &&& after.1 == self.1
        &&& after.2 == self.2
        &&& after.3 == self.3
        &&& after.4 == self.4
        &&& after.5 == self.5
        &&& after.6 == self.6
        &&& after.7 == self.7
    }

    fn extract_mut(&'a mut self) -> (r: (&'a mut T0,))
        ensures
            ({
                let out: (&'a mut T0,) = r;
                *final(self) == (*final(out.0), old(self).1, old(self).2, old(self).3, old(self).4,
                    old(self).5, old(self).6, old(self).7)
            }),
    {
        (&mut self.0,)
    }

    proof fn lemma_extract_mut_len() {
    }
}

impl<'a, T0: 'a, T1: 'a, T2: 'a, T3: 'a, T4: 'a, T5: 'a, T6: 'a, T7: 'a> TypedExtractMut<'a, 0, 2,
    (&'a mut T0, &'a mut T1)>
    for (T0, T1, T2, T3, T4, T5, T6, T7)
{
    open spec fn spec_borrows(&self, out: (&'a mut T0, &'a mut T1)) -> bool {
        &&& *out.0 == self.0
        &&& *out.1 == self.1
    }

    open spec fn spec_keeps(&self, after: (T0, T1, T2, T3, T4, T5, T6, T7)) -> bool {
        &&& after.2 == self.2
        &&& after.3 == self.3
        &&& after.4 == self.4
        &&& after.5 == self.5
        &&& after.6 == self.6
        &&& after.7 == self.7
    }

    fn extract_mut(&'a mut self) -> (r: (&'a mut T0, &'a mut T1))
        ensures
            ({
                let out: (&'a mut T0, &'a mut T1) = r;
                *final(self) == (*final(out.0), *final(out.1), old(self).2, old(self).3,
                    old(self).4, old(self).5, old(self).6, old(self).7)
            }),
    {
        (&mut self.0, &mut self.1)
    }

    proof fn lemma_extract_mut_len() {
    }
}

impl<'a, T0: 'a, T1: 'a, T2: 'a, T3: 'a, T4: 'a, T5: 'a, T6: 'a, T7: 'a> TypedExtractMut<'a, 0, 3,
    (&'a mut T0, &'a mut T1, &'a mut T2)>
    for (T0, T1, T2, T3, T4, T5, T6, T7)
{
    open spec fn spec_borrows(&self, out: (&'a mut T0, &'a mut T1, &'a mut T2)) -> bool {
        &&& *out.0 == self.0
        &&& *out.1 == self.1
        &&& *out.2 == self.2
    }

    open spec fn spec_keeps(&self, after: (T0, T1, T2, T3, T4, T5, T6, T7)) -> bool {
        &&& after.3 == self.3
        &&& after.4 == self.4
        &&& after.5 == self.5
        &&& after.6 == self.6
        &&& after.7 == self.7
    }

    fn extract_mut(&'a mut self) -> (r: (&'a mut T0, &'a mut T1, &'a mut T2))
        ensures
            ({
                let out: (&'a mut T0, &'a mut T1, &'a mut T2) = r;
                *final(self) == (*final(out.0), *final(out.1), *final(out.2), old(self).3,
                    old(self).4, old(self).5, old(self).6, old(self).7)
            }),
    {
        (&mut self.0, &mut self.1, &mut self.2)
    }

    proof fn lemma_extract_mut_len() {
    }
}

impl<'a, T0: 'a, T1: 'a, T2: 'a, T3: 'a, T4: 'a, T5: 'a, T6: 'a, T7: 'a> TypedExtractMut<'a, 0, 4,
    (&'a mut T0, &'a mut T1, &'a mut T2, &'a mut T3)>
    for (T0, T1, T2, T3, T4, T5, T6, T7)
{
    open spec fn spec_borrows(&self, out: (&'a mut T0, &'a mut T1, &'a mut T2,
        &'a mut T3)) -> bool {
        &&& *out.0 == self.0
        &&& *out.1 == self.1
        &&& *out.2 == self.2
        &&& *out.3 == self.3
    }

    open spec fn spec_keeps(&self, after: (T0, T1, T2, T3, T4, T5, T6, T7)) -> bool {
        &&& after.4 == self.4
        &&& after.5 == self.5
        &&& after.6 == self.6
        &&& after.7 == self.7
    }

    fn extract_mut(&'a mut self) -> (r: (&'a mut T0, &'a mut T1, &'a mut T2, &'a mut T3))
        ensures
            ({
                let out: (&'a mut T0, &'a mut T1, &'a mut T2, &'a mut T3) = r;
                *final(self) == (*final(out.0), *final(out.1), *final(out.2), *final(out.3),
                    old(self).4, old(self).5, old(self).6, old(self).7)
            }),
    {
        (&mut self.0, &mut self.1, &mut self.2, &mut self.3)
    }

    proof fn lemma_extract_mut_len() {
    }
}

impl<'a, T0: 'a, T1: 'a, T2: 'a, T3: 'a, T4: 'a, T5: 'a, T6: 'a, T7: 'a> TypedExtractMut<'a, 0, 5,
    (&'a mut T0, &'a mut T1, &'a mut T2, &'a mut T3, &'a mut T4)>
    for (T0, T1, T2, T3, T4, T5, T6, T7)
{
    open spec fn spec_borrows(&self, out: (&'a mut T0, &'a mut T1, &'a mut T2, &'a mut T3,
        &'a mut T4)) -> bool {
        &&& *out.0 == self.0
        &&& *out.1 == self.1
        &&& *out.2 == self.2
        &&& *out.3 == self.3
        &&& *out.4 == self.4
    }

    open spec fn spec_keeps(&self, after: (T0, T1, T2, T3, T4, T5, T6, T7)) -> bool {
        &&& after.5 == self.5
        &&& after.6 == self.6
        &&& after.7 == self.7
    }

    fn extract_mut(&'a mut self) -> (r: (&'a mut T0, &'a mut T1, &'a mut T2, &'a mut T3,
        &'a mut T4))
        ensures
            ({
                let out: (&'a mut T0, &'a mut T1, &'a mut T2, &'a mut T3, &'a mut T4) = r;
                *final(self) == (*final(out.0), *final(out.1), *final(out.2), *final(out.3),
                    *final(out.4), old(self).5, old(self).6, old(self).7)
            }),
    {
        (&mut self.0, &mut self.1, &mut self.2, &mut self.3, &mut self.4)
    }

    proof fn lemma_extract_mut_len() {
    }
}

impl<'a, T0: 'a, T1: 'a, T2: 'a, T3: 'a, T4: 'a, T5: 'a, T6: 'a, T7: 'a> TypedExtractMut<'a, 0, 6,
    (&'a mut T0, &'a mut T1, &'a mut T2, &'a mut T3, &'a mut T4, &'a mut T5)>
    for (T0, T1, T2, T3, T4, T5, T6, T7)
{
    open spec fn spec_borrows(&self, out: (&'a mut T0, &'a mut T1, &'a mut T2, &'a mut T3,
        &'a mut T4, &'a mut T5)) -> bool {
        &&& *out.0 == self.0
        &&& *out.1 == self.1
        &&& *out.2 == self.2
        &&& *out.3 == self.3
        &&& *out.4 == self.4
        &&& *out.5 == self.5
    }

    open spec fn spec_keeps(&self, after: (T0, T1, T2, T3, T4, T5, T6, T7)) -> bool {
        &&& after.6 == self.6
        &&& after.7 == self.7
    }

    fn extract_mut(&'a mut self) -> (r: (&'a mut T0, &'a mut T1, &'a mut T2, &'a mut T3, &'a mut T4,
        &'a mut T5))
        ensures
            ({
                let out: (&'a mut T0, &'a mut T1, &'a mut T2, &'a mut T3, &'a mut T4,
                    &'a mut T5) = r;
                *final(self) == (*final(out.0), *final(out.1), *final(out.2), *final(out.3),
                    *final(out.4), *final(out.5), old(self).6, old(self).7)
            }),
    {
        (&mut self.0, &mut self.1, &mut self.2, &mut self.3, &mut self.4, &mut self.5)
    }

    proof fn lemma_extract_mut_len() {
    }
}

impl<'a, T0: 'a, T1: 'a, T2: 'a, T3: 'a, T4: 'a, T5: 'a, T6: 'a, T7: 'a> TypedExtractMut<'a, 0, 7,
    (&'a mut T0, &'a mut T1, &'a mut T2, &'a mut T3, &'a mut T4, &'a mut T5, &'a mut T6)>
    for (T0, T1, T2, T3, T4, T5, T6, T7)
{
    open spec fn spec_borrows(&self, out: (&'a mut T0, &'a mut T1, &'a mut T2, &'a mut T3,
        &'a mut T4, &'a mut T5, &'a mut T6)) -> bool {
        &&& *out.0 == self.0
        &&& *out.1 == self.1
        &&& *out.2 == self.2
        &&& *out.3 == self.3
        &&& *out.4 == self.4
        &&& *out.5 == self.5
        &&& *out.6 == self.6
    }

    open spec fn spec_keeps(&self, after: (T0, T1, T2, T3, T4, T5, T6, T7)) -> bool {
        after.7 == self.7
    }

    fn extract_mut(&'a mut self) -> (r: (&'a mut T0, &'a mut T1, &'a mut T2, &'a mut T3, &'a mut T4,
        &'a mut T5, &'a mut T6))
        ensures
            ({
                let out: (&'a mut T0, &'a mut T1, &'a mut T2, &'a mut T3, &'a mut T4, &'a mut T5,
                    &'a mut T6) = r;
                *final(self) == (*final(out.0), *final(out.1), *final(out.2), *final(out.3),
                    *final(out.4), *final(out.5), *final(out.6), old(self).7)
            }),
    {
        (&mut self.0, &mut self.1, &mut self.2, &mut self.3, &mut self.4, &mut self.5, &mut self.6)
    }

    proof fn lemma_extract_mut_len() {
    }
}

impl<'a, T0: 'a, T1: 'a, T2: 'a, T3: 'a, T4: 'a, T5: 'a, T6: 'a, T7: 'a> TypedExtractMut<'a, 0, 8,
    (&'a mut T0, &'a mut T1, &'a mut T2, &'a mut T3, &'a mut T4, &'a mut T5, &'a mut T6,
    &'a mut T7)>
    for (T0, T1, T2, T3, T4, T5, T6, T7)
{
    open spec fn spec_borrows(&self, out: (&'a mut T0, &'a mut T1, &'a mut T2, &'a mut T3,
        &'a mut T4, &'a mut T5, &'a mut T6, &'a mut T7)) -> bool {
        &&& *out.0 == self.0
        &&& *out.1 == self.1
        &&& *out.2 == self.2
        &&& *out.3 == self.3
        &&& *out.4 == self.4
        &&& *out.5 == self.5
        &&& *out.6 == self.6
        &&& *out.7 == self.7
    }

    open spec fn spec_keeps(&self, after: (T0, T1, T2, T3, T4, T5, T6, T7)) -> bool {
        true
    }

    fn extract_mut(&'a mut self) -> (r: (&'a mut T0, &'a mut T1, &'a mut T2, &'a mut T3, &'a mut T4,
        &'a mut T5, &'a mut T6, &'a mut T7))
        ensures
            ({
                let out: (&'a mut T0, &'a mut T1, &'a mut T2, &'a mut T3, &'a mut T4, &'a mut T5,
                    &'a mut T6, &'a mut T7) = r;
                *final(self) == (*final(out.0), *final(out.1), *final(out.2), *final(out.3),
                    *final(out.4), *final(out.5), *final(out.6), *final(out.7))
            }),
    {
        (&mut self.0, &mut self.1, &mut self.2, &mut self.3, &mut self.4, &mut self.5, &mut self.6,
            &mut self.7)
    }

    proof fn lemma_extract_mut_len() {
    }
}

impl<'a, T0: 'a, T1: 'a, T2: 'a, T3: 'a, T4: 'a, T5: 'a, T6: 'a, T7: 'a> TypedExtractMut<'a, 1, 1,
    ()>
    for (T0, T1, T2, T3, T4, T5, T6, T7)
{
    open spec fn spec_borrows(&self, out: ()) -> bool {
        true
    }

    open spec fn spec_keeps(&self, after: (T0, T1, T2, T3, T4, T5, T6, T7)) -> bool {
        &&& after.0 == self.0
        &&& after.1 == self.1
        &&& after.2 == self.2
        &&& after.3 == self.3
        &&& after.4 == self.4
        &&& after.5 == self.5
        &&& after.6 == self.6
        &&& after.7 == self.7
    }

    fn extract_mut(&'a mut self) -> (r: ()) {
        ()
    }

    proof fn lemma_extract_mut_len() {
    }
}

impl<'a, T0: 'a, T1: 'a, T2: 'a, T3: 'a, T4: 'a, T5: 'a, T6: 'a, T7: 'a> TypedExtractMut<'a, 1, 2,
    (&'a mut T1,)>
    for (T0, T1, T2, T3, T4, T5, T6, T7)
{
    open spec fn spec_borrows(&self, out: (&'a mut T1,)) -> bool {
        *out.0 == self.1
    }

    open spec fn spec_keeps(&self, after: (T0, T1, T2, T3, T4, T5, T6, T7)) -> bool {
        &&& after.0 == self.0
        &&& after.2 == self.2
        &&& after.3 == self.3
        &&& after.4 == self.4
        &&& after.5 == self.5
        &&& after.6 == self.6
        &&& after.7 == self.7
    }

    fn extract_mut(&'a mut self) -> (r: (&'a mut T1,))
        ensures
            ({
                let out: (&'a mut T1,) = r;
                *final(self) == (old(self).0, *final(out.0), old(self).2, old(self).3, old(self).4,
                    old(self).5, old(self).6, old(self).7)
            }),
    {
        (&mut self.1,)
    }

    proof fn lemma_extract_mut_len() {
    }
}

impl<'a, T0: 'a, T1: 'a, T2: 'a, T3: 'a, T4: 'a, T5: 'a, T6: 'a, T7: 'a> TypedExtractMut<'a, 1, 3,
    (&'a mut T1, &'a mut T2)>
    for (T0, T1, T2, T3, T4, T5, T6, T7)
{
    open spec fn spec_borrows(&self, out: (&'a mut T1, &'a mut T2)) -> bool {
        &&& *out.0 == self.1
        &&& *out.1 == self.2
    }

    open spec fn spec_keeps(&self, after: (T0, T1, T2, T3, T4, T5, T6, T7)) -> bool {
        &&& after.0 == self.0
        &&& after.3 == self.3
        &&& after.4 == self.4
        &&& after.5 == self.5
        &&& after.6 == self.6
        &&& after.7 == self.7
    }

    fn extract_mut(&'a mut self) -> (r: (&'a mut T1, &'a mut T2))
        ensures
            ({
                let out: (&'a mut T1, &'a mut T2) = r;
                *final(self) == (old(self).0, *final(out.0), *final(out.1), old(self).3,
                    old(self).4, old(self).5, old(self).6, old(self).7)
            }),
    {
        (&mut self.1, &mut self.2)
    }

    proof fn lemma_extract_mut_len() {
    }
}

impl<'a, T0: 'a, T1: 'a, T2: 'a, T3: 'a, T4: 'a, T5: 'a, T6: 'a, T7: 'a> TypedExtractMut<'a, 1, 4,
    (&'a mut T1, &'a mut T2, &'a mut T3)>
    for (T0, T1, T2, T3, T4, T5, T6, T7)
{
    open spec fn spec_borrows(&self, out: (&'a mut T1, &'a mut T2, &'a mut T3)) -> bool {
        &&& *out.0 == self.1
        &&& *out.1 == self.2
        &&& *out.2 == self.3
    }

    open spec fn spec_keeps(&self, after: (T0, T1, T2, T3, T4, T5, T6, T7)) -> bool {
        &&& after.0 == self.0
        &&& after.4 == self.4
        &&& after.5 == self.5
        &&& after.6 == self.6
        &&& after.7 == self.7
    }

    fn extract_mut(&'a mut self) -> (r: (&'a mut T1, &'a mut T2, &'a mut T3))
        ensures
            ({
                let out: (&'a mut T1, &'a mut T2, &'a mut T3) = r;
                *final(self) == (old(self).0, *final(out.0), *final(out.1), *final(out.2),
                    old(self).4, old(self).5, old(self).6, old(self).7)
            }),
    {
        (&mut self.1, &mut self.2, &mut self.3)
    }

    proof fn lemma_extract_mut_len() {
    }
}

impl<'a, T0: 'a, T1: 'a, T2: 'a, T3: 'a, T4: 'a, T5: 'a, T6: 'a, T7: 'a> TypedExtractMut<'a, 1, 5,
    (&'a mut T1, &'a mut T2, &'a mut T3, &'a mut T4)>
    for (T0, T1, T2, T3, T4, T5, T6, T7)
{
    open spec fn spec_borrows(&self, out: (&'a mut T1, &'a mut T2, &'a mut T3,
        &'a mut T4)) -> bool {
        &&& *out.0 == self.1
        &&& *out.1 == self.2
        &&& *out.2 == self.3
        &&& *out.3 == self.4
    }

    open spec fn spec_keeps(&self, after: (T0, T1, T2, T3, T4, T5, T6, T7)) -> bool {
        &&& after.0 == self.0
        &&& after.5 == self.5
        &&& after.6 == self.6
        &&& after.7 == self.7
    }

    fn extract_mut(&'a mut self) -> (r: (&'a mut T1, &'a mut T2, &'a mut T3, &'a mut T4))
        ensures
            ({
                let out: (&'a mut T1, &'a mut T2, &'a mut T3, &'a mut T4) = r;
                *final(self) == (old(self).0, *final(out.0), *final(out.1), *final(out.2),
                    *final(out.3), old(self).5, old(self).6, old(self).7)
            }),
    {
        (&mut self.1, &mut self.2, &mut self.3, &mut self.4)
    }

    proof fn lemma_extract_mut_len() {
    }
}

impl<'a, T0: 'a, T1: 'a, T2: 'a, T3: 'a, T4: 'a, T5: 'a, T6: 'a, T7: 'a> TypedExtractMut<'a, 1, 6,
    (&'a mut T1, &'a mut T2, &'a mut T3, &'a mut T4, &'a mut T5)>
    for (T0, T1, T2, T3, T4, T5, T6, T7)
{
    open spec fn spec_borrows(&self, out: (&'a mut T1, &'a mut T2, &'a mut T3, &'a mut T4,
        &'a mut T5)) -> bool {
        &&& *out.0 == self.1
        &&& *out.1 == self.2
        &&& *out.2 == self.3
        &&& *out.3 == self.4
        &&& *out.4 == self.5
    }

    open spec fn spec_keeps(&self, after: (T0, T1, T2, T3, T4, T5, T6, T7)) -> bool {
        &&& after.0 == self.0
        &&& after.6 == self.6
        &&& after.7 == self.7
    }

    fn extract_mut(&'a mut self) -> (r: (&'a mut T1, &'a mut T2, &'a mut T3, &'a mut T4,
        &'a mut T5))
        ensures
            ({
                let out: (&'a mut T1, &'a mut T2, &'a mut T3, &'a mut T4, &'a mut T5) = r;
                *final(self) == (old(self).0, *final(out.0), *final(out.1), *final(out.2),
                    *final(out.3), *final(out.4), old(self).6, old(self).7)
            }),
    {
        (&mut self.1, &mut self.2, &mut self.3, &mut self.4, &mut self.5)
    }

    proof fn lemma_extract_mut_len() {
    }
}

impl<'a, T0: 'a, T1: 'a, T2: 'a, T3: 'a, T4: 'a, T5: 'a, T6: 'a, T7: 'a> TypedExtractMut<'a, 1, 7,
    (&'a mut T1, &'a mut T2, &'a mut T3, &'a mut T4, &'a mut T5, &'a mut T6)>
    for (T0, T1, T2, T3, T4, T5, T6, T7)
{
    open spec fn spec_borrows(&self, out: (&'a mut T1, &'a mut T2, &'a mut T3, &'a mut T4,
        &'a mut T5, &'a mut T6)) -> bool {
        &&& *out.0 == self.1
        &&& *out.1 == self.2
        &&& *out.2 == self.3
        &&& *out.3 == self.4
        &&& *out.4 == self.5
        &&& *out.5 == self.6
    }

    open spec fn spec_keeps(&self, after: (T0, T1, T2, T3, T4, T5, T6, T7)) -> bool {
        &&& after.0 == self.0
        &&& after.7 == self.7
    }

    fn extract_mut(&'a mut self) -> (r: (&'a mut T1, &'a mut T2, &'a mut T3, &'a mut T4, &'a mut T5,
        &'a mut T6))
        ensures
            ({
                let out: (&'a mut T1, &'a mut T2, &'a mut T3, &'a mut T4, &'a mut T5,
                    &'a mut T6) = r;
                *final(self) == (old(self).0, *final(out.0), *final(out.1), *final(out.2),
                    *final(out.3), *final(out.4), *final(out.5), old(self).7)
            }),
    {
        (&mut self.1, &mut self.2, &mut self.3, &mut self.4, &mut self.5, &mut self.6)
    }

    proof fn lemma_extract_mut_len() {
    }
}

impl<'a, T0: 'a, T1: 'a, T2: 'a, T3: 'a, T4: 'a, T5: 'a, T6: 'a, T7: 'a> TypedExtractMut<'a, 1, 8,
    (&'a mut T1, &'a mut T2, &'a mut T3, &'a mut T4, &'a mut T5, &'a mut T6, &'a mut T7)>
    for (T0, T1, T2, T3, T4, T5, T6, T7)
{
    open spec fn spec_borrows(&self, out: (&'a mut T1, &'a mut T2, &'a mut T3, &'a mut T4,
        &'a mut T5, &'a mut T6, &'a mut T7)) -> bool {
        &&& *out.0 == self.1
        &&& *out.1 == self.2
        &&& *out.2 == self.3
        &&& *out.3 == self.4
        &&& *out.4 == self.5
        &&& *out.5 == self.6
        &&& *out.6 == self.7
    }

    open spec fn spec_keeps(&self, after: (T0, T1, T2, T3, T4, T5, T6, T7)) -> bool {
        after.0 == self.0
    }

    fn extract_mut(&'a mut self) -> (r: (&'a mut T1, &'a mut T2, &'a mut T3, &'a mut T4, &'a mut T5,
        &'a mut T6, &'a mut T7))
        ensures
            ({
                let out: (&'a mut T1, &'a mut T2, &'a mut T3, &'a mut T4, &'a mut T5, &'a mut T6,
                    &'a mut T7) = r;
                *final(self) == (old(self).0, *final(out.0), *final(out.1), *final(out.2),
                    *final(out.3), *final(out.4), *final(out.5), *final(out.6))
            }),
    {
        (&mut self.1, &mut self.2, &mut self.3, &mut self.4, &mut self.5, &mut self.6, &mut self.7)
    }

    proof fn lemma_extract_mut_len() {
    }
}

impl<'a, T0: 'a, T1: 'a, T2: 'a, T3: 'a, T4: 'a, T5: 'a, T6: 'a, T7: 'a> TypedExtractMut<'a, 2, 2,
    ()>
    for (T0, T1, T2, T3, T4, T5, T6, T7)
{
    open spec fn spec_borrows(&self, out: ()) -> bool {
        true
    }

    open spec fn spec_keeps(&self, after: (T0, T1, T2, T3, T4, T5, T6, T7)) -> bool {
        &&& after.0 == self.0
        &&& after.1 == self.1
        &&& after.2 == self.2
        &&& after.3 == self.3
        &&& after.4 == self.4
        &&& after.5 == self.5
        &&& after.6 == self.6
        &&& after.7 == self.7
    }

    fn extract_mut(&'a mut self) -> (r: ()) {
        ()
    }

    proof fn lemma_extract_mut_len() {
    }
}

impl<'a, T0: 'a, T1: 'a, T2: 'a, T3: 'a, T4: 'a, T5: 'a, T6: 'a, T7: 'a> TypedExtractMut<'a, 2, 3,
    (&'a mut T2,)>
    for (T0, T1, T2, T3, T4, T5, T6, T7)
{
    open spec fn spec_borrows(&self, out: (&'a mut T2,)) -> bool {
        *out.0 == self.2
    }

    open spec fn spec_keeps(&self, after: (T0, T1, T2, T3, T4, T5, T6, T7)) -> bool {
        &&& after.0 == self.0
        &&& after.1 == self.1
        &&& after.3 == self.3
        &&& after.4 == self.4
        &&& after.5 == self.5
        &&& after.6 == self.6
        &&& after.7 == self.7
    }

    fn extract_mut(&'a mut self) -> (r: (&'a mut T2,))
        ensures
            ({
                let out: (&'a mut T2,) = r;
                *final(self) == (old(self).0, old(self).1, *final(out.0), old(self).3, old(self).4,
                    old(self).5, old(self).6, old(self).7)
            }),
    {
        (&mut self.2,)
    }

    proof fn lemma_extract_mut_len() {
    }
}

impl<'a, T0: 'a, T1: 'a, T2: 'a, T3: 'a, T4: 'a, T5: 'a, T6: 'a, T7: 'a> TypedExtractMut<'a, 2, 4,
    (&'a mut T2, &'a mut T3)>
    for (T0, T1, T2, T3, T4, T5, T6, T7)
{
    open spec fn spec_borrows(&self, out: (&'a mut T2, &'a mut T3)) -> bool {
        &&& *out.0 == self.2
        &&& *out.1 == self.3
    }

    open spec fn spec_keeps(&self, after: (T0, T1, T2, T3, T4, T5, T6, T7)) -> bool {
        &&& after.0 == self.0
        &&& after.1 == self.1
        &&& after.4 == self.4
        &&& after.5 == self.5
        &&& after.6 == self.6
        &&& after.7 == self.7
    }

    fn extract_mut(&'a mut self) -> (r: (&'a mut T2, &'a mut T3))
        ensures
            ({
                let out: (&'a mut T2, &'a mut T3) = r;
                *final(self) == (old(self).0, old(self).1, *final(out.0), *final(out.1),
                    old(self).4, old(self).5, old(self).6, old(self).7)
            }),
    {
        (&mut self.2, &mut self.3)
    }

    proof fn lemma_extract_mut_len() {
    }
}

impl<'a, T0: 'a, T1: 'a, T2: 'a, T3: 'a, T4: 'a, T5: 'a, T6: 'a, T7: 'a> TypedExtractMut<'a, 2, 5,
    (&'a mut T2, &'a mut T3, &'a mut T4)>
    for (T0, T1, T2, T3, T4, T5, T6, T7)
{
    open spec fn spec_borrows(&self, out: (&'a mut T2, &'a mut T3, &'a mut T4)) -> bool {
        &&& *out.0 == self.2
        &&& *out.1 == self.3
        &&& *out.2 == self.4
    }

    open spec fn spec_keeps(&self, after: (T0, T1, T2, T3, T4, T5, T6, T7)) -> bool {
        &&& after.0 == self.0
        &&& after.1 == self.1
        &&& after.5 == self.5
        &&& after.6 == self.6
        &&& after.7 == self.7
    }

    fn extract_mut(&'a mut self) -> (r: (&'a mut T2, &'a mut T3, &'a mut T4))
        ensures
            ({
                let out: (&'a mut T2, &'a mut T3, &'a mut T4) = r;
                *final(self) == (old(self).0, old(self).1, *final(out.0), *final(out.1),
                    *final(out.2), old(self).5, old(self).6, old(self).7)
            }),
    {
        (&mut self.2, &mut self.3, &mut self.4)
    }

    proof fn lemma_extract_mut_len() {
    }
}

impl<'a, T0: 'a, T1: 'a, T2: 'a, T3: 'a, T4: 'a, T5: 'a, T6: 'a, T7: 'a> TypedExtractMut<'a, 2, 6,
    (&'a mut T2, &'a mut T3, &'a mut T4, &'a mut T5)>
    for (T0, T1, T2, T3, T4, T5, T6, T7)
{
    open spec fn spec_borrows(&self, out: (&'a mut T2, &'a mut T3, &'a mut T4,
        &'a mut T5)) -> bool {
        &&& *out.0 == self.2
        &&& *out.1 == self.3
        &&& *out.2 == self.4
        &&& *out.3 == self.5
    }

    open spec fn spec_keeps(&self, after: (T0, T1, T2, T3, T4, T5, T6, T7)) -> bool {
        &&& after.0 == self.0
        &&& after.1 == self.1
        &&& after.6 == self.6
        &&& after.7 == self.7
    }

    fn extract_mut(&'a mut self) -> (r: (&'a mut T2, &'a mut T3, &'a mut T4, &'a mut T5))
        ensures
            ({
                let out: (&'a mut T2, &'a mut T3, &'a mut T4, &'a mut T5) = r;
                *final(self) == (old(self).0, old(self).1, *final(out.0), *final(out.1),
                    *final(out.2), *final(out.3), old(self).6, old(self).7)
            }),
    {
        (&mut self.2, &mut self.3, &mut self.4, &mut self.5)
    }

    proof fn lemma_extract_mut_len() {
    }
}

impl<'a, T0: 'a, T1: 'a, T2: 'a, T3: 'a, T4: 'a, T5: 'a, T6: 'a, T7: 'a> TypedExtractMut<'a, 2, 7,
    (&'a mut T2, &'a mut T3, &'a mut T4, &'a mut T5, &'a mut T6)>
    for (T0, T1, T2, T3, T4, T5, T6, T7)
{
    open spec fn spec_borrows(&self, out: (&'a mut T2, &'a mut T3, &'a mut T4, &'a mut T5,
        &'a mut T6)) -> bool {
        &&& *out.0 == self.2
        &&& *out.1 == self.3
        &&& *out.2 == self.4
        &&& *out.3 == self.5
        &&& *out.4 == self.6
    }

    open spec fn spec_keeps(&self, after: (T0, T1, T2, T3, T4, T5, T6, T7)) -> bool {
        &&& after.0 == self.0
        &&& after.1 == self.1
        &&& after.7 == self.7
    }

    fn extract_mut(&'a mut self) -> (r: (&'a mut T2, &'a mut T3, &'a mut T4, &'a mut T5,
        &'a mut T6))
        ensures
            ({
                let out: (&'a mut T2, &'a mut T3, &'a mut T4, &'a mut T5, &'a mut T6) = r;
                *final(self) == (old(self).0, old(self).1, *final(out.0), *final(out.1),
                    *final(out.2), *final(out.3), *final(out.4), old(self).7)
            }),
    {
        (&mut self.2, &mut self.3, &mut self.4, &mut self.5, &mut self.6)
    }

    proof fn lemma_extract_mut_len() {
    }
}

impl<'a, T0: 'a, T1: 'a, T2: 'a, T3: 'a, T4: 'a, T5: 'a, T6: 'a, T7: 'a> TypedExtractMut<'a, 2, 8,
    (&'a mut T2, &'a mut T3, &'a mut T4, &'a mut T5, &'a mut T6, &'a mut T7)>
    for (T0, T1, T2, T3, T4, T5, T6, T7)
{
    open spec fn spec_borrows(&self, out: (&'a mut T2, &'a mut T3, &'a mut T4, &'a mut T5,
        &'a mut T6, &'a mut T7)) -> bool {
        &&& *out.0 == self.2
        &&& *out.1 == self.3
        &&& *out.2 == self.4
        &&& *out.3 == self.5
        &&& *out.4 == self.6
        &&& *out.5 == self.7
    }

    open spec fn spec_keeps(&self, after: (T0, T1, T2, T3, T4, T5, T6, T7)) -> bool {
        &&& after.0 == self.0
        &&& after.1 == self.1
    }

    fn extract_mut(&'a mut self) -> (r: (&'a mut T2, &'a mut T3, &'a mut T4, &'a mut T5, &'a mut T6,
        &'a mut T7))
        ensures
            ({
                let out: (&'a mut T2, &'a mut T3, &'a mut T4, &'a mut T5, &'a mut T6,
                    &'a mut T7) = r;
                *final(self) == (old(self).0, old(self).1, *final(out.0), *final(out.1),
                    *final(out.2), *final(out.3), *final(out.4), *final(out.5))
            }),
    {
        (&mut self.2, &mut self.3, &mut self.4, &mut self.5, &mut self.6, &mut self.7)
    }

    proof fn lemma_extract_mut_len() {
    }
}

impl<'a, T0: 'a, T1: 'a, T2: 'a, T3: 'a, T4: 'a, T5: 'a, T6: 'a, T7: 'a> TypedExtractMut<'a, 3, 3,
    ()>
    for (T0, T1, T2, T3, T4, T5, T6, T7)
{
    open spec fn spec_borrows(&self, out: ()) -> bool {
        true
    }

    open spec fn spec_keeps(&self, after: (T0, T1, T2, T3, T4, T5, T6, T7)) -> bool {
        &&& after.0 == self.0
        &&& after.1 == self.1
        &&& after.2 == self.2
        &&& after.3 == self.3
        &&& after.4 == self.4
        &&& after.5 == self.5
        &&& after.6 == self.6
        &&& after.7 == self.7
    }

    fn extract_mut(&'a mut self) -> (r: ()) {
        ()
    }

    proof fn lemma_extract_mut_len() {
    }
}

impl<'a, T0: 'a, T1: 'a, T2: 'a, T3: 'a, T4: 'a, T5: 'a, T6: 'a, T7: 'a> TypedExtractMut<'a, 3, 4,
    (&'a mut T3,)>
    for (T0, T1, T2, T3, T4, T5, T6, T7)
{
    open spec fn spec_borrows(&self, out: (&'a mut T3,)) -> bool {
        *out.0 == self.3
    }

    open spec fn spec_keeps(&self, after: (T0, T1, T2, T3, T4, T5, T6, T7)) -> bool {
        &&& after.0 == self.0
        &&& after.1 == self.1
        &&& after.2 == self.2
        &&& after.4 == self.4
        &&& after.5 == self.5
        &&& after.6 == self.6
        &&& after.7 == self.7
    }

    fn extract_mut(&'a mut self) -> (r: (&'a mut T3,))
        ensures
            ({
                let out: (&'a mut T3,) = r;
                *final(self) == (old(self).0, old(self).1, old(self).2, *final(out.0), old(self).4,
                    old(self).5, old(self).6, old(self).7)
            }),
    {
        (&mut self.3,)
    }

    proof fn lemma_extract_mut_len() {
    }
}

impl<'a, T0: 'a, T1: 'a, T2: 'a, T3: 'a, T4: 'a, T5: 'a, T6: 'a, T7: 'a> TypedExtractMut<'a, 3, 5,
    (&'a mut T3, &'a mut T4)>
    for (T0, T1, T2, T3, T4, T5, T6, T7)
{
    open spec fn spec_borrows(&self, out: (&'a mut T3, &'a mut T4)) -> bool {
        &&& *out.0 == self.3
        &&& *out.1 == self.4
    }

    open spec fn spec_keeps(&self, after: (T0, T1, T2, T3, T4, T5, T6, T7)) -> bool {
        &&& after.0 == self.0
        &&& after.1 == self.1
        &&& after.2 == self.2
        &&& after.5 == self.5
        &&& after.6 == self.6
        &&& after.7 == self.7
    }

    fn extract_mut(&'a mut self) -> (r: (&'a mut T3, &'a mut T4))
        ensures
            ({
                let out: (&'a mut T3, &'a mut T4) = r;
                *final(self) == (old(self).0, old(self).1, old(self).2, *final(out.0),
                    *final(out.1), old(self).5, old(self).6, old(self).7)
            }),
    {
        (&mut self.3, &mut self.4)
    }

    proof fn lemma_extract_mut_len() {
    }
}

impl<'a, T0: 'a, T1: 'a, T2: 'a, T3: 'a, T4: 'a, T5: 'a, T6: 'a, T7: 'a> TypedExtractMut<'a, 3, 6,
    (&'a mut T3, &'a mut T4, &'a mut T5)>
    for (T0, T1, T2, T3, T4, T5, T6, T7)
{
    open spec fn spec_borrows(&self, out: (&'a mut T3, &'a mut T4, &'a mut T5)) -> bool {
        &&& *out.0 == self.3
        &&& *out.1 == self.4
        &&& *out.2 == self.5
    }

    open spec fn spec_keeps(&self, after: (T0, T1, T2, T3, T4, T5, T6, T7)) -> bool {
        &&& after.0 == self.0
        &&& after.1 == self.1
        &&& after.2 == self.2
        &&& after.6 == self.6
        &&& after.7 == self.7
    }

    fn extract_mut(&'a mut self) -> (r: (&'a mut T3, &'a mut T4, &'a mut T5))
        ensures
            ({
                let out: (&'a mut T3, &'a mut T4, &'a mut T5) = r;
                *final(self) == (old(self).0, old(self).1, old(self).2, *final(out.0),
                    *final(out.1), *final(out.2), old(self).6, old(self).7)
            }),
    {
        (&mut self.3, &mut self.4, &mut self.5)
    }

    proof fn lemma_extract_mut_len() {
    }
}

impl<'a, T0: 'a, T1: 'a, T2: 'a, T3: 'a, T4: 'a, T5: 'a, T6: 'a, T7: 'a> TypedExtractMut<'a, 3, 7,
    (&'a mut T3, &'a mut T4, &'a mut T5, &'a mut T6)>
    for (T0, T1, T2, T3, T4, T5, T6, T7)
{
    open spec fn spec_borrows(&self, out: (&'a mut T3, &'a mut T4, &'a mut T5,
        &'a mut T6)) -> bool {
        &&& *out.0 == self.3
        &&& *out.1 == self.4
        &&& *out.2 == self.5
        &&& *out.3 == self.6
    }

    open spec fn spec_keeps(&self, after: (T0, T1, T2, T3, T4, T5, T6, T7)) -> bool {
        &&& after.0 == self.0
        &&& after.1 == self.1
        &&& after.2 == self.2
        &&& after.7 == self.7
    }

    fn extract_mut(&'a mut self) -> (r: (&'a mut T3, &'a mut T4, &'a mut T5, &'a mut T6))
        ensures
            ({
                let out: (&'a mut T3, &'a mut T4, &'a mut T5, &'a mut T6) = r;
                *final(self) == (old(self).0, old(self).1, old(self).2, *final(out.0),
                    *final(out.1), *final(out.2), *final(out.3), old(self).7)
            }),
    {
        (&mut self.3, &mut self.4, &mut self.5, &mut self.6)
    }

    proof fn lemma_extract_mut_len() {
    }
}

impl<'a, T0: 'a, T1: 'a, T2: 'a, T3: 'a, T4: 'a, T5: 'a, T6: 'a, T7: 'a> TypedExtractMut<'a, 3, 8,
    (&'a mut T3, &'a mut T4, &'a mut T5, &'a mut T6, &'a mut T7)>
    for (T0, T1, T2, T3, T4, T5, T6, T7)
{
    open spec fn spec_borrows(&self, out: (&'a mut T3, &'a mut T4, &'a mut T5, &'a mut T6,
        &'a mut T7)) -> bool {
        &&& *out.0 == self.3
        &&& *out.1 == self.4
        &&& *out.2 == self.5
        &&& *out.3 == self.6
        &&& *out.4 == self.7
    }

    open spec fn spec_keeps(&self, after: (T0, T1, T2, T3, T4, T5, T6, T7)) -> bool {
        &&& after.0 == self.0
        &&& after.1 == self.1
        &&& after.2 == self.2
    }

    fn extract_mut(&'a mut self) -> (r: (&'a mut T3, &'a mut T4, &'a mut T5, &'a mut T6,
        &'a mut T7))
        ensures
            ({
                let out: (&'a mut T3, &'a mut T4, &'a mut T5, &'a mut T6, &'a mut T7) = r;
                *final(self) == (old(self).0, old(self).1, old(self).2, *final(out.0),
                    *final(out.1), *final(out.2), *final(out.3), *final(out.4))
            }),
    {
        (&mut self.3, &mut self.4, &mut self.5, &mut self.6, &mut self.7)
    }

    proof fn lemma_extract_mut_len() {
    }
}

impl<'a, T0: 'a, T1: 'a, T2: 'a, T3: 'a, T4: 'a, T5: 'a, T6: 'a, T7: 'a> TypedExtractMut<'a, 4, 4,
    ()>
    for (T0, T1, T2, T3, T4, T5, T6, T7)
{
    open spec fn spec_borrows(&self, out: ()) -> bool {
        true
    }

    open spec fn spec_keeps(&self, after: (T0, T1, T2, T3, T4, T5, T6, T7)) -> bool {
        &&& after.0 == self.0
        &&& after.1 == self.1
        &&& after.2 == self.2
        &&& after.3 == self.3
        &&& after.4 == self.4
        &&& after.5 == self.5
        &&& after.6 == self.6
        &&& after.7 == self.7
    }

    fn extract_mut(&'a mut self) -> (r: ()) {
        ()
    }

    proof fn lemma_extract_mut_len() {
    }
}

impl<'a, T0: 'a, T1: 'a, T2: 'a, T3: 'a, T4: 'a, T5: 'a, T6: 'a, T7: 'a> TypedExtractMut<'a, 4, 5,
    (&'a mut T4,)>
    for (T0, T1, T2, T3, T4, T5, T6, T7)
{
    open spec fn spec_borrows(&self, out: (&'a mut T4,)) -> bool {
        *out.0 == self.4
    }

    open spec fn spec_keeps(&self, after: (T0, T1, T2, T3, T4, T5, T6, T7)) -> bool {
        &&& after.0 == self.0
        &&& after.1 == self.1
        &&& after.2 == self.2
        &&& after.3 == self.3
        &&& after.5 == self.5
        &&& after.6 == self.6
        &&& after.7 == self.7
    }

    fn extract_mut(&'a mut self) -> (r: (&'a mut T4,))
        ensures
            ({
                let out: (&'a mut T4,) = r;
                *final(self) == (old(self).0, old(self).1, old(self).2, old(self).3, *final(out.0),
                    old(self).5, old(self).6, old(self).7)
            }),
    {
        (&mut self.4,)
    }

    proof fn lemma_extract_mut_len() {
    }
}

impl<'a, T0: 'a, T1: 'a, T2: 'a, T3: 'a, T4: 'a, T5: 'a, T6: 'a, T7: 'a> TypedExtractMut<'a, 4, 6,
    (&'a mut T4, &'a mut T5)>
    for (T0, T1, T2, T3, T4, T5, T6, T7)
{
    open spec fn spec_borrows(&self, out: (&'a mut T4, &'a mut T5)) -> bool {
        &&& *out.0 == self.4
        &&& *out.1 == self.5
    }

    open spec fn spec_keeps(&self, after: (T0, T1, T2, T3, T4, T5, T6, T7)) -> bool {
        &&& after.0 == self.0
        &&& after.1 == self.1
        &&& after.2 == self.2
        &&& after.3 == self.3
        &&& after.6 == self.6
        &&& after.7 == self.7
    }

    fn extract_mut(&'a mut self) -> (r: (&'a mut T4, &'a mut T5))
        ensures
            ({
                let out: (&'a mut T4, &'a mut T5) = r;
                *final(self) == (old(self).0, old(self).1, old(self).2, old(self).3, *final(out.0),
                    *final(out.1), old(self).6, old(self).7)
            }),
    {
        (&mut self.4, &mut self.5)
    }

    proof fn lemma_extract_mut_len() {
    }
}

impl<'a, T0: 'a, T1: 'a, T2: 'a, T3: 'a, T4: 'a, T5: 'a, T6: 'a, T7: 'a> TypedExtractMut<'a, 4, 7,
    (&'a mut T4, &'a mut T5, &'a mut T6)>
    for (T0, T1, T2, T3, T4, T5, T6, T7)
{
    open spec fn spec_borrows(&self, out: (&'a mut T4, &'a mut T5, &'a mut T6)) -> bool {
        &&& *out.0 == self.4
        &&& *out.1 == self.5
        &&& *out.2 == self.6
    }

    open spec fn spec_keeps(&self, after: (T0, T1, T2, T3, T4, T5, T6, T7)) -> bool {
        &&& after.0 == self.0
        &&& after.1 == self.1
        &&& after.2 == self.2
        &&& after.3 == self.3
        &&& after.7 == self.7
    }

    fn extract_mut(&'a mut self) -> (r: (&'a mut T4, &'a mut T5, &'a mut T6))
        ensures
            ({
                let out: (&'a mut T4, &'a mut T5, &'a mut T6) = r;
                *final(self) == (old(self).0, old(self).1, old(self).2, old(self).3, *final(out.0),
                    *final(out.1), *final(out.2), old(self).7)
            }),
    {
        (&mut self.4, &mut self.5, &mut self.6)
    }

    proof fn lemma_extract_mut_len() {
    }
}

impl<'a, T0: 'a, T1: 'a, T2: 'a, T3: 'a, T4: 'a, T5: 'a, T6: 'a, T7: 'a> TypedExtractMut<'a, 4, 8,
    (&'a mut T4, &'a mut T5, &'a mut T6, &'a mut T7)>
    for (T0, T1, T2, T3, T4, T5, T6, T7)
{
    open spec fn spec_borrows(&self, out: (&'a mut T4, &'a mut T5, &'a mut T6,
        &'a mut T7)) -> bool {
        &&& *out.0 == self.4
        &&& *out.1 == self.5
        &&& *out.2 == self.6
        &&& *out.3 == self.7
    }

    open spec fn spec_keeps(&self, after: (T0, T1, T2, T3, T4, T5, T6, T7)) -> bool {
        &&& after.0 == self.0
        &&& after.1 == self.1
        &&& after.2 == self.2
        &&& after.3 == self.3
    }

    fn extract_mut(&'a mut self) -> (r: (&'a mut T4, &'a mut T5, &'a mut T6, &'a mut T7))
        ensures
            ({
                let out: (&'a mut T4, &'a mut T5, &'a mut T6, &'a mut T7) = r;
                *final(self) == (old(self).0, old(self).1, old(self).2, old(self).3, *final(out.0),
                    *final(out.1), *final(out.2), *final(out.3))
            }),
    {
        (&mut self.4, &mut self.5, &mut self.6, &mut self.7)
    }

    proof fn lemma_extract_mut_len() {
    }
}

impl<'a, T0: 'a, T1: 'a, T2: 'a, T3: 'a, T4: 'a, T5: 'a, T6: 'a, T7: 'a> TypedExtractMut<'a, 5, 5,
    ()>
    for (T0, T1, T2, T3, T4, T5, T6, T7)
{
    open spec fn spec_borrows(&self, out: ()) -> bool {
        true
    }

    open spec fn spec_keeps(&self, after: (T0, T1, T2, T3, T4, T5, T6, T7)) -> bool {
        &&& after.0 == self.0
        &&& after.1 == self.1
        &&& after.2 == self.2
        &&& after.3 == self.3
        &&& after.4 == self.4
        &&& after.5 == self.5
        &&& after.6 == self.6
        &&& after.7 == self.7
    }

    fn extract_mut(&'a mut self) -> (r: ()) {
        ()
    }

    proof fn lemma_extract_mut_len() {
    }
}

impl<'a, T0: 'a, T1: 'a, T2: 'a, T3: 'a, T4: 'a, T5: 'a, T6: 'a, T7: 'a> TypedExtractMut<'a, 5, 6,
    (&'a mut T5,)>
    for (T0, T1, T2, T3, T4, T5, T6, T7)
{
    open spec fn spec_borrows(&self, out: (&'a mut T5,)) -> bool {
        *out.0 == self.5
    }

    open spec fn spec_keeps(&self, after: (T0, T1, T2, T3, T4, T5, T6, T7)) -> bool {
        &&& after.0 == self.0
        &&& after.1 == self.1
        &&& after.2 == self.2
        &&& after.3 == self.3
        &&& after.4 == self.4
        &&& after.6 == self.6
        &&& after.7 == self.7
    }

    fn extract_mut(&'a mut self) -> (r: (&'a mut T5,))
        ensures
            ({
                let out: (&'a mut T5,) = r;
                *final(self) == (old(self).0, old(self).1, old(self).2, old(self).3, old(self).4,
                    *final(out.0), old(self).6, old(self).7)
            }),
    {
        (&mut self.5,)
    }

    proof fn lemma_extract_mut_len() {
    }
}

impl<'a, T0: 'a, T1: 'a, T2: 'a, T3: 'a, T4: 'a, T5: 'a, T6: 'a, T7: 'a> TypedExtractMut<'a, 5, 7,
    (&'a mut T5, &'a mut T6)>
    for (T0, T1, T2, T3, T4, T5, T6, T7)
{
    open spec fn spec_borrows(&self, out: (&'a mut T5, &'a mut T6)) -> bool {
        &&& *out.0 == self.5
        &&& *out.1 == self.6
    }

    open spec fn spec_keeps(&self, after: (T0, T1, T2, T3, T4, T5, T6, T7)) -> bool {
        &&& after.0 == self.0
        &&& after.1 == self.1
        &&& after.2 == self.2
        &&& after.3 == self.3
        &&& after.4 == self.4
        &&& after.7 == self.7
    }

    fn extract_mut(&'a mut self) -> (r: (&'a mut T5, &'a mut T6))
        ensures
            ({
                let out: (&'a mut T5, &'a mut T6) = r;
                *final(self) == (old(self).0, old(self).1, old(self).2, old(self).3, old(self).4,
                    *final(out.0), *final(out.1), old(self).7)
            }),
    {
        (&mut self.5, &mut self.6)
    }

    proof fn lemma_extract_mut_len() {
    }
}

impl<'a, T0: 'a, T1: 'a, T2: 'a, T3: 'a, T4: 'a, T5: 'a, T6: 'a, T7: 'a> TypedExtractMut<'a, 5, 8,
    (&'a mut T5, &'a mut T6, &'a mut T7)>
    for (T0, T1, T2, T3, T4, T5, T6, T7)
{
    open spec fn spec_borrows(&self, out: (&'a mut T5, &'a mut T6, &'a mut T7)) -> bool {
        &&& *out.0 == self.5
        &&& *out.1 == self.6
        &&& *out.2 == self.7
    }

    open spec fn spec_keeps(&self, after: (T0, T1, T2, T3, T4, T5, T6, T7)) -> bool {
        &&& after.0 == self.0
        &&& after.1 == self.1
        &&& after.2 == self.2
        &&& after.3 == self.3
        &&& after.4 == self.4
    }

    fn extract_mut(&'a mut self) -> (r: (&'a mut T5, &'a mut T6, &'a mut T7))
        ensures
            ({
                let out: (&'a mut T5, &'a mut T6, &'a mut T7) = r;
                *final(self) == (old(self).0, old(self).1, old(self).2, old(self).3, old(self).4,
                    *final(out.0), *final(out.1), *final(out.2))
            }),
    {
        (&mut self.5, &mut self.6, &mut self.7)
    }

    proof fn lemma_extract_mut_len() {
    }
}

impl<'a, T0: 'a, T1: 'a, T2: 'a, T3: 'a, T4: 'a, T5: 'a, T6: 'a, T7: 'a> TypedExtractMut<'a, 6, 6,
    ()>
    for (T0, T1, T2, T3, T4, T5, T6, T7)
{
    open spec fn spec_borrows(&self, out: ()) -> bool {
        true
    }

    open spec fn spec_keeps(&self, after: (T0, T1, T2, T3, T4, T5, T6, T7)) -> bool {
        &&& after.0 == self.0
        &&& after.1 == self.1
        &&& after.2 == self.2
        &&& after.3 == self.3
        &&& after.4 == self.4
        &&& after.5 == self.5
        &&& after.6 == self.6
        &&& after.7 == self.7
    }

    fn extract_mut(&'a mut self) -> (r: ()) {
        ()
    }

    proof fn lemma_extract_mut_len() {
    }
}

impl<'a, T0: 'a, T1: 'a, T2: 'a, T3: 'a, T4: 'a, T5: 'a, T6: 'a, T7: 'a> TypedExtractMut<'a, 6, 7,
    (&'a mut T6,)>
    for (T0, T1, T2, T3, T4, T5, T6, T7)
{
    open spec fn spec_borrows(&self, out: (&'a mut T6,)) -> bool {
        *out.0 == self.6
    }

    open spec fn spec_keeps(&self, after: (T0, T1, T2, T3, T4, T5, T6, T7)) -> bool {
        &&& after.0 == self.0
        &&& after.1 == self.1
        &&& after.2 == self.2
        &&& after.3 == self.3
        &&& after.4 == self.4
        &&& after.5 == self.5
        &&& after.7 == self.7
    }

    fn extract_mut(&'a mut self) -> (r: (&'a mut T6,))
        ensures
            ({
                let out: (&'a mut T6,) = r;
                *final(self) == (old(self).0, old(self).1, old(self).2, old(self).3, old(self).4,
                    old(self).5, *final(out.0), old(self).7)
            }),
    {
        (&mut self.6,)
    }

    proof fn lemma_extract_mut_len() {
    }
}

impl<'a, T0: 'a, T1: 'a, T2: 'a, T3: 'a, T4: 'a, T5: 'a, T6: 'a, T7: 'a> TypedExtractMut<'a, 6, 8,
    (&'a mut T6, &'a mut T7)>
    for (T0, T1, T2, T3, T4, T5, T6, T7)
{
    open spec fn spec_borrows(&self, out: (&'a mut T6, &'a mut T7)) -> bool {
        &&& *out.0 == self.6
        &&& *out.1 == self.7
    }

    open spec fn spec_keeps(&self, after: (T0, T1, T2, T3, T4, T5, T6, T7)) -> bool {
        &&& after.0 == self.0
        &&& after.1 == self.1
        &&& after.2 == self.2
        &&& after.3 == self.3
        &&& after.4 == self.4
        &&& after.5 == self.5
    }

    fn extract_mut(&'a mut self) -> (r: (&'a mut T6, &'a mut T7))
        ensures
            ({
                let out: (&'a mut T6, &'a mut T7) = r;
                *final(self) == (old(self).0, old(self).1, old(self).2, old(self).3, old(self).4,
                    old(self).5, *final(out.0), *final(out.1))
            }),
    {
        (&mut self.6, &mut self.7)
    }

    proof fn lemma_extract_mut_len() {
    }
}

impl<'a, T0: 'a, T1: 'a, T2: 'a, T3: 'a, T4: 'a, T5: 'a, T6: 'a, T7: 'a> TypedExtractMut<'a, 7, 7,
    ()>
    for (T0, T1, T2, T3, T4, T5, T6, T7)
{
    open spec fn spec_borrows(&self, out: ()) -> bool {
        true
    }

    open spec fn spec_keeps(&self, after: (T0, T1, T2, T3, T4, T5, T6, T7)) -> bool {
        &&& after.0 == self.0
        &&& after.1 == self.1
        &&& after.2 == self.2
        &&& after.3 == self.3
        &&& after.4 == self.4
        &&& after.5 == self.5
        &&& after.6 == self.6
        &&& after.7 == self.7
    }

    fn extract_mut(&'a mut self) -> (r: ()) {
        ()
    }

    proof fn lemma_extract_mut_len() {
    }
}

impl<'a, T0: 'a, T1: 'a, T2: 'a, T3: 'a, T4: 'a, T5: 'a, T6: 'a, T7: 'a> TypedExtractMut<'a, 7, 8,
    (&'a mut T7,)>
    for (T0, T1, T2, T3, T4, T5, T6, T7)
{
    open spec fn spec_borrows(&self, out: (&'a mut T7,)) -> bool {
        *out.0 == self.7
    }

    open spec fn spec_keeps(&self, after: (T0, T1, T2, T3, T4, T5, T6, T7)) -> bool {
        &&& after.0 == self.0
        &&& after.1 == self.1
        &&& after.2 == self.2
        &&& after.3 == self.3
        &&& after.4 == self.4
        &&& after.5 == self.5
        &&& after.6 == self.6
    }

    fn extract_mut(&'a mut self) -> (r: (&'a mut T7,))
        ensures
            ({
                let out: (&'a mut T7,) = r;
                *final(self) == (old(self).0, old(self).1, old(self).2, old(self).3, old(self).4,
                    old(self).5, old(self).6, *final(out.0))
            }),
    {
        (&mut self.7,)
    }

    proof fn lemma_extract_mut_len() {
    }
}

impl<'a, T0: 'a, T1: 'a, T2: 'a, T3: 'a, T4: 'a, T5: 'a, T6: 'a, T7: 'a, T8: 'a> TypedExtractMut<'a,
    0, 0, ()>
    for (T0, T1, T2, T3, T4, T5, T6, T7, T8)
{
    open spec fn spec_borrows(&self, out: ()) -> bool {
        true
    }

    open spec fn spec_keeps(&self, after: (T0, T1, T2, T3, T4, T5, T6, T7, T8)) -> bool {
        &&& after.0 == self.0
        &&& after.1 == self.1
        &&& after.2 == self.2
        &&& after.3 == self.3
        &&& after.4 == self.4
        &&& after.5 == self.5
        &&& after.6 == self.6
        &&& after.7 == self.7
        &&& after.8 == self.8
    }

    fn extract_mut(&'a mut self) -> (r: ()) {
        ()
    }

    proof fn lemma_extract_mut_len() {
    }
}

impl<'a, T0: 'a, T1: 'a, T2: 'a, T3: 'a, T4: 'a, T5: 'a, T6: 'a, T7: 'a, T8: 'a> TypedExtractMut<'a,
    0, 1, (&'a mut T0,)>
    for (T0, T1, T2, T3, T4, T5, T6, T7, T8)
{
    open spec fn spec_borrows(&self, out: (&'a mut T0,)) -> bool {
        *out.0 == self.0
    }

    open spec fn spec_keeps(&self, after: (T0, T1, T2, T3, T4, T5, T6, T7, T8)) -> bool {
        &&& after.1 == self.1
        &&& after.2 == self.2
        &&& after.3 == self.3
        &&& after.4 == self.4
        &&& after.5 == self.5
        &&& after.6 == self.6
        &&& after.7 == self.7
        &&& after.8 == self.8
    }

    fn extract_mut(&'a mut self) -> (r: (&'a mut T0,))
        ensures
            ({
                let out: (&'a mut T0,) = r;
                *final(self) == (*final(out.0), old(self).1, old(self).2, old(self).3, old(self).4,
                    old(self).5, old(self).6, old(self).7, old(self).8)
            }),
    {
        (&mut self.0,)
    }

    proof fn lemma_extract_mut_len() {
    }
}

impl<'a, T0: 'a, T1: 'a, T2: 'a, T3: 'a, T4: 'a, T5: 'a, T6: 'a, T7: 'a, T8: 'a> TypedExtractMut<'a,
    0, 2, (&'a mut T0, &'a mut T1)>
    for (T0, T1, T2, T3, T4, T5, T6, T7, T8)
{
    open spec fn spec_borrows(&self, out: (&'a mut T0, &'a mut T1)) -> bool {
        &&& *out.0 == self.0
        &&& *out.1 == self.1
    }

    open spec fn spec_keeps(&self, after: (T0, T1, T2, T3, T4, T5, T6, T7, T8)) -> bool {
        &&& after.2 == self.2
        &&& after.3 == self.3
        &&& after.4 == self.4
        &&& after.5 == self.5
        &&& after.6 == self.6
        &&& after.7 == self.7
        &&& after.8 == self.8
    }

    fn extract_mut(&'a mut self) -> (r: (&'a mut T0, &'a mut T1))
        ensures
            ({
                let out: (&'a mut T0, &'a mut T1) = r;
                *final(self) == (*final(out.0), *final(out.1), old(self).2, old(self).3,
                    old(self).4, old(self).5, old(self).6, old(self).7, old(self).8)
            }),
    {
        (&mut self.0, &mut self.1)
    }

    proof fn lemma_extract_mut_len() {
    }
}

impl<'a, T0: 'a, T1: 'a, T2: 'a, T3: 'a, T4: 'a, T5: 'a, T6: 'a, T7: 'a, T8: 'a> TypedExtractMut<'a,
    0, 3, (&'a mut T0, &'a mut T1, &'a mut T2)>
    for (T0, T1, T2, T3, T4, T5, T6, T7, T8)
{
    open spec fn spec_borrows(&self, out: (&'a mut T0, &'a mut T1, &'a mut T2)) -> bool {
        &&& *out.0 == self.0
        &&& *out.1 == self.1
        &&& *out.2 == self.2
    }

    open spec fn spec_keeps(&self, after: (T0, T1, T2, T3, T4, T5, T6, T7, T8)) -> bool {
        &&& after.3 == self.3
        &&& after.4 == self.4
        &&& after.5 == self.5
        &&& after.6 == self.6
        &&& after.7 == self.7
        &&& after.8 == self.8
    }

    fn extract_mut(&'a mut self) -> (r: (&'a mut T0, &'a mut T1, &'a mut T2))
        ensures
            ({
                let out: (&'a mut T0, &'a mut T1, &'a mut T2) = r;
                *final(self) == (*final(out.0), *final(out.1), *final(out.2), old(self).3,
                    old(self).4, old(self).5, old(self).6, old(self).7, old(self).8)
            }),
    {
        (&mut self.0, &mut self.1, &mut self.2)
    }

    proof fn lemma_extract_mut_len() {
    }
}

impl<'a, T0: 'a, T1: 'a, T2: 'a, T3: 'a, T4: 'a, T5: 'a, T6: 'a, T7: 'a, T8: 'a> TypedExtractMut<'a,
    0, 4, (&'a mut T0, &'a mut T1, &'a mut T2, &'a mut T3)>
    for (T0, T1, T2, T3, T4, T5, T6, T7, T8)
{
    open spec fn spec_borrows(&self, out: (&'a mut T0, &'a mut T1, &'a mut T2,
        &'a mut T3)) -> bool {
        &&& *out.0 == self.0
        &&& *out.1 == self.1
        &&& *out.2 == self.2
        &&& *out.3 == self.3
    }

    open spec fn spec_keeps(&self, after: (T0, T1, T2, T3, T4, T5, T6, T7, T8)) -> bool {
        &&& after.4 == self.4
        &&& after.5 == self.5
        &&& after.6 == self.6
        &&& after.7 == self.7
        &&& after.8 == self.8
    }

    fn extract_mut(&'a mut self) -> (r: (&'a mut T0, &'a mut T1, &'a mut T2, &'a mut T3))
        ensures
            ({
                let out: (&'a mut T0, &'a mut T1, &'a mut T2, &'a mut T3) = r;
                *final(self) == (*final(out.0), *final(out.1), *final(out.2), *final(out.3),
                    old(self).4, old(self).5, old(self).6, old(self).7, old(self).8)
            }),
    {
        (&mut self.0, &mut self.1, &mut self.2, &mut self.3)
    }

    proof fn lemma_extract_mut_len() {
    }
}

impl<'a, T0: 'a, T1: 'a, T2: 'a, T3: 'a, T4: 'a, T5: 'a, T6: 'a, T7: 'a, T8: 'a> TypedExtractMut<'a,
    0, 5, (&'a mut T0, &'a mut T1, &'a mut T2, &'a mut T3, &'a mut T4)>
    for (T0, T1, T2, T3, T4, T5, T6, T7, T8)
{
    open spec fn spec_borrows(&self, out: (&'a mut T0, &'a mut T1, &'a mut T2, &'a mut T3,
        &'a mut T4)) -> bool {
        &&& *out.0 == self.0
        &&& *out.1 == self.1
        &&& *out.2 == self.2
        &&& *out.3 == self.3
        &&& *out.4 == self.4
    }

    open spec fn spec_keeps(&self, after: (T0, T1, T2, T3, T4, T5, T6, T7, T8)) -> bool {
        &&& after.5 == self.5
        &&& after.6 == self.6
        &&& after.7 == self.7
        &&& after.8 == self.8
    }

    fn extract_mut(&'a mut self) -> (r: (&'a mut T0, &'a mut T1, &'a mut T2, &'a mut T3,
        &'a mut T4))
        ensures
            ({
                let out: (&'a mut T0, &'a mut T1, &'a mut T2, &'a mut T3, &'a mut T4) = r;
                *final(self) == (*final(out.0), *final(out.1), *final(out.2), *final(out.3),
                    *final(out.4), old(self).5, old(self).6, old(self).7, old(self).8)
            }),
    {
        (&mut self.0, &mut self.1, &mut self.2, &mut self.3, &mut self.4)
    }

    proof fn lemma_extract_mut_len() {
    }
}

impl<'a, T0: 'a, T1: 'a, T2: 'a, T3: 'a, T4: 'a, T5: 'a, T6: 'a, T7: 'a, T8: 'a> TypedExtractMut<'a,
    0, 6, (&'a mut T0, &'a mut T1, &'a mut T2, &'a mut T3, &'a mut T4, &'a mut T5)>
    for (T0, T1, T2, T3, T4, T5, T6, T7, T8)
{
    open spec fn spec_borrows(&self, out: (&'a mut T0, &'a mut T1, &'a mut T2, &'a mut T3,
        &'a mut T4, &'a mut T5)) -> bool {
        &&& *out.0 == self.0
        &&& *out.1 == self.1
        &&& *out.2 == self.2
        &&& *out.3 == self.3
        &&& *out.4 == self.4
        &&& *out.5 == self.5
    }

    open spec fn spec_keeps(&self, after: (T0, T1, T2, T3, T4, T5, T6, T7, T8)) -> bool {
        &&& after.6 == self.6
        &&& after.7 == self.7
        &&& after.8 == self.8
    }

    fn extract_mut(&'a mut self) -> (r: (&'a mut T0, &'a mut T1, &'a mut T2, &'a mut T3, &'a mut T4,
        &'a mut T5))
        ensures
            ({
                let out: (&'a mut T0, &'a mut T1, &'a mut T2, &'a mut T3, &'a mut T4,
                    &'a mut T5) = r;
                *final(self) == (*final(out.0), *final(out.1), *final(out.2), *final(out.3),
                    *final(out.4), *final(out.5), old(self).6, old(self).7, old(self).8)
            }),
    {
        (&mut self.0, &mut self.1, &mut self.2, &mut self.3, &mut self.4, &mut self.5)
    }

    proof fn lemma_extract_mut_len() {
    }
}

impl<'a, T0: 'a, T1: 'a, T2: 'a, T3: 'a, T4: 'a, T5: 'a, T6: 'a, T7: 'a, T8: 'a> TypedExtractMut<'a,
    0, 7, (&'a mut T0, &'a mut T1, &'a mut T2, &'a mut T3, &'a mut T4, &'a mut T5, &'a mut T6)>
    for (T0, T1, T2, T3, T4, T5, T6, T7, T8)
{
    open spec fn spec_borrows(&self, out: (&'a mut T0, &'a mut T1, &'a mut T2, &'a mut T3,
        &'a mut T4, &'a mut T5, &'a mut T6)) -> bool {
        &&& *out.0 == self.0
        &&& *out.1 == self.1
        &&& *out.2 == self.2
        &&& *out.3 == self.3
        &&& *out.4 == self.4
        &&& *out.5 == self.5
        &&& *out.6 == self.6
    }

    open spec fn spec_keeps(&self, after: (T0, T1, T2, T3, T4, T5, T6, T7, T8)) -> bool {
        &&& after.7 == self.7
        &&& after.8 == self.8
    }

    fn extract_mut(&'a mut self) -> (r: (&'a mut T0, &'a mut T1, &'a mut T2, &'a mut T3, &'a mut T4,
        &'a mut T5, &'a mut T6))
        ensures
            ({
                let out: (&'a mut T0, &'a mut T1, &'a mut T2, &'a mut T3, &'a mut T4, &'a mut T5,
                    &'a mut T6) = r;
                *final(self) == (*final(out.0), *final(out.1), *final(out.2), *final(out.3),
                    *final(out.4), *final(out.5), *final(out.6), old(self).7, old(self).8)
            }),
    {
        (&mut self.0, &mut self.1, &mut self.2, &mut self.3, &mut self.4, &mut self.5, &mut self.6)
    }

    proof fn lemma_extract_mut_len() {
    }
}

impl<'a, T0: 'a, T1: 'a, T2: 'a, T3: 'a, T4: 'a, T5: 'a, T6: 'a, T7: 'a, T8: 'a> TypedExtractMut<'a,
    0, 8, (&'a mut T0, &'a mut T1, &'a mut T2, &'a mut T3, &'a mut T4, &'a mut T5, &'a mut T6,
    &'a mut T7)>
    for (T0, T1, T2, T3, T4, T5, T6, T7, T8)
{
    open spec fn spec_borrows(&self, out: (&'a mut T0, &'a mut T1, &'a mut T2, &'a mut T3,
        &'a mut T4, &'a mut T5, &'a mut T6, &'a mut T7)) -> bool {
        &&& *out.0 == self.0
        &&& *out.1 == self.1
        &&& *out.2 == self.2
        &&& *out.3 == self.3
        &&& *out.4 == self.4
        &&& *out.5 == self.5
        &&& *out.6 == self.6
        &&& *out.7 == self.7
    }

    open spec fn spec_keeps(&self, after: (T0, T1, T2, T3, T4, T5, T6, T7, T8)) -> bool {
        after.8 == self.8
    }

    fn extract_mut(&'a mut self) -> (r: (&'a mut T0, &'a mut T1, &'a mut T2, &'a mut T3, &'a mut T4,
        &'a mut T5, &'a mut T6, &'a mut T7))
        ensures
            ({
                let out: (&'a mut T0, &'a mut T1, &'a mut T2, &'a mut T3, &'a mut T4, &'a mut T5,
                    &'a mut T6, &'a mut T7) = r;
                *final(self) == (*final(out.0), *final(out.1), *final(out.2), *final(out.3),
                    *final(out.4), *final(out.5), *final(out.6), *final(out.7), old(self).8)
            }),
    {
        (&mut self.0, &mut self.1, &mut self.2, &mut self.3, &mut self.4, &mut self.5, &mut self.6,
            &mut self.7)
    }

    proof fn lemma_extract_mut_len() {
    }
}

impl<'a, T0: 'a, T1: 'a, T2: 'a, T3: 'a, T4: 'a, T5: 'a, T6: 'a, T7: 'a, T8: 'a> TypedExtractMut<'a,
    0, 9, (&'a mut T0, &'a mut T1, &'a mut T2, &'a mut T3, &'a mut T4, &'a mut T5, &'a mut T6,
    &'a mut T7, &'a mut T8)>
    for (T0, T1, T2, T3, T4, T5, T6, T7, T8)
{
    open spec fn spec_borrows(&self, out: (&'a mut T0, &'a mut T1, &'a mut T2, &'a mut T3,
        &'a mut T4, &'a mut T5, &'a mut T6, &'a mut T7, &'a mut T8)) -> bool {
        &&& *out.0 == self.0
        &&& *out.1 == self.1
        &&& *out.2 == self.2
        &&& *out.3 == self.3
        &&& *out.4 == self.4
        &&& *out.5 == self.5
        &&& *out.6 == self.6
        &&& *out.7 == self.7
        &&& *out.8 == self.8
    }

    open spec fn spec_keeps(&self, after: (T0, T1, T2, T3, T4, T5, T6, T7, T8)) -> bool {
        true
    }

    fn extract_mut(&'a mut self) -> (r: (&'a mut T0, &'a mut T1, &'a mut T2, &'a mut T3, &'a mut T4,
        &'a mut T5, &'a mut T6, &'a mut T7, &'a mut T8))
        ensures
            ({
                let out: (&'a mut T0, &'a mut T1, &'a mut T2, &'a mut T3, &'a mut T4, &'a mut T5,
                    &'a mut T6, &'a mut T7, &'a mut T8) = r;
                *final(self) == (*final(out.0), *final(out.1), *final(out.2), *final(out.3),
                    *final(out.4), *final(out.5), *final(out.6), *final(out.7), *final(out.8))
            }),
    {
        (&mut self.0, &mut self.1, &mut self.2, &mut self.3, &mut self.4, &mut self.5, &mut self.6,
            &mut self.7, &mut self.8)
    }

    proof fn lemma_extract_mut_len() {
    }
}

impl<'a, T0: 'a, T1: 'a, T2: 'a, T3: 'a, T4: 'a, T5: 'a, T6: 'a, T7: 'a, T8: 'a> TypedExtractMut<'a,
    1, 1, ()>
    for (T0, T1, T2, T3, T4, T5, T6, T7, T8)
{
    open spec fn spec_borrows(&self, out: ()) -> bool {
        true
    }

    open spec fn spec_keeps(&self, after: (T0, T1, T2, T3, T4, T5, T6, T7, T8)) -> bool {
        &&& after.0 == self.0
        &&& after.1 == self.1
        &&& after.2 == self.2
        &&& after.3 == self.3
        &&& after.4 == self.4
        &&& after.5 == self.5
        &&& after.6 == self.6
        &&& after.7 == self.7
        &&& after.8 == self.8
    }

    fn extract_mut(&'a mut self) -> (r: ()) {
        ()
    }

    proof fn lemma_extract_mut_len() {
    }
}

impl<'a, T0: 'a, T1: 'a, T2: 'a, T3: 'a, T4: 'a, T5: 'a, T6: 'a, T7: 'a, T8: 'a> TypedExtractMut<'a,
    1, 2, (&'a mut T1,)>
    for (T0, T1, T2, T3, T4, T5, T6, T7, T8)
{
    open spec fn spec_borrows(&self, out: (&'a mut T1,)) -> bool {
        *out.0 == self.1
    }

    open spec fn spec_keeps(&self, after: (T0, T1, T2, T3, T4, T5, T6, T7, T8)) -> bool {
        &&& after.0 == self.0
        &&& after.2 == self.2
        &&& after.3 == self.3
        &&& after.4 == self.4
        &&& after.5 == self.5
        &&& after.6 == self.6
        &&& after.7 == self.7
        &&& after.8 == self.8
    }

    fn extract_mut(&'a mut self) -> (r: (&'a mut T1,))
        ensures
            ({
                let out: (&'a mut T1,) = r;
                *final(self) == (old(self).0, *final(out.0), old(self).2, old(self).3, old(self).4,
                    old(self).5, old(self).6, old(self).7, old(self).8)
            }),
    {
        (&mut self.1,)
    }

    proof fn lemma_extract_mut_len() {
    }
}

impl<'a, T0: 'a, T1: 'a, T2: 'a, T3: 'a, T4: 'a, T5: 'a, T6: 'a, T7: 'a, T8: 'a> TypedExtractMut<'a,
    1, 3, (&'a mut T1, &'a mut T2)>
    for (T0, T1, T2, T3, T4, T5, T6, T7, T8)
{
    open spec fn spec_borrows(&self, out: (&'a mut T1, &'a mut T2)) -> bool {
        &&& *out.0 == self.1
        &&& *out.1 == self.2
    }

    open spec fn spec_keeps(&self, after: (T0, T1, T2, T3, T4, T5, T6, T7, T8)) -> bool {
        &&& after.0 == self.0
        &&& after.3 == self.3
        &&& after.4 == self.4
        &&& after.5 == self.5
        &&& after.6 == self.6
        &&& after.7 == self.7
        &&& after.8 == self.8
    }

    fn extract_mut(&'a mut self) -> (r: (&'a mut T1, &'a mut T2))
        ensures
            ({
                let out: (&'a mut T1, &'a mut T2) = r;
                *final(self) == (old(self).0, *final(out.0), *final(out.1), old(self).3,
                    old(self).4, old(self).5, old(self).6, old(self).7, old(self).8)
            }),
    {
        (&mut self.1, &mut self.2)
    }

    proof fn lemma_extract_mut_len() {
    }
}

impl<'a, T0: 'a, T1: 'a, T2: 'a, T3: 'a, T4: 'a, T5: 'a, T6: 'a, T7: 'a, T8: 'a> TypedExtractMut<'a,
    1, 4, (&'a mut T1, &'a mut T2, &'a mut T3)>
    for (T0, T1, T2, T3, T4, T5, T6, T7, T8)
{
    open spec fn spec_borrows(&self, out: (&'a mut T1, &'a mut T2, &'a mut T3)) -> bool {
        &&& *out.0 == self.1
        &&& *out.1 == self.2
        &&& *out.2 == self.3
    }

    open spec fn spec_keeps(&self, after: (T0, T1, T2, T3, T4, T5, T6, T7, T8)) -> bool {
        &&& after.0 == self.0
        &&& after.4 == self.4
        &&& after.5 == self.5
        &&& after.6 == self.6
        &&& after.7 == self.7
        &&& after.8 == self.8
    }

    fn extract_mut(&'a mut self) -> (r: (&'a mut T1, &'a mut T2, &'a mut T3))
        ensures
            ({
                let out: (&'a mut T1, &'a mut T2, &'a mut T3) = r;
                *final(self) == (old(self).0, *final(out.0), *final(out.1), *final(out.2),
                    old(self).4, old(self).5, old(self).6, old(self).7, old(self).8)
            }),
    {
        (&mut self.1, &mut self.2, &mut self.3)
    }

    proof fn lemma_extract_mut_len() {
    }
}

impl<'a, T0: 'a, T1: 'a, T2: 'a, T3: 'a, T4: 'a, T5: 'a, T6: 'a, T7: 'a, T8: 'a> TypedExtractMut<'a,
    1, 5, (&'a mut T1, &'a mut T2, &'a mut T3, &'a mut T4)>
    for (T0, T1, T2, T3, T4, T5, T6, T7, T8)
{
    open spec fn spec_borrows(&self, out: (&'a mut T1, &'a mut T2, &'a mut T3,
        &'a mut T4)) -> bool {
        &&& *out.0 == self.1
        &&& *out.1 == self.2
        &&& *out.2 == self.3
        &&& *out.3 == self.4
    }

    open spec fn spec_keeps(&self, after: (T0, T1, T2, T3, T4, T5, T6, T7, T8)) -> bool {
        &&& after.0 == self.0
        &&& after.5 == self.5
        &&& after.6 == self.6
        &&& after.7 == self.7
        &&& after.8 == self.8
    }

    fn extract_mut(&'a mut self) -> (r: (&'a mut T1, &'a mut T2, &'a mut T3, &'a mut T4))
        ensures
            ({
                let out: (&'a mut T1, &'a mut T2, &'a mut T3, &'a mut T4) = r;
                *final(self) == (old(self).0, *final(out.0), *final(out.1), *final(out.2),
                    *final(out.3), old(self).5, old(self).6, old(self).7, old(self).8)
            }),
    {
        (&mut self.1, &mut self.2, &mut self.3, &mut self.4)
    }

    proof fn lemma_extract_mut_len() {
    }
}

impl<'a, T0: 'a, T1: 'a, T2: 'a, T3: 'a, T4: 'a, T5: 'a, T6: 'a, T7: 'a, T8: 'a> TypedExtractMut<'a,
    1, 6, (&'a mut T1, &'a mut T2, &'a mut T3, &'a mut T4, &'a mut T5)>
    for (T0, T1, T2, T3, T4, T5, T6, T7, T8)
{
    open spec fn spec_borrows(&self, out: (&'a mut T1, &'a mut T2, &'a mut T3, &'a mut T4,
        &'a mut T5)) -> bool {
        &&& *out.0 == self.1
        &&& *out.1 == self.2
        &&& *out.2 == self.3
        &&& *out.3 == self.4
        &&& *out.4 == self.5
    }

    open spec fn spec_keeps(&self, after: (T0, T1, T2, T3, T4, T5, T6, T7, T8)) -> bool {
        &&& after.0 == self.0
        &&& after.6 == self.6
        &&& after.7 == self.7
        &&& after.8 == self.8
    }

    fn extract_mut(&'a mut self) -> (r: (&'a mut T1, &'a mut T2, &'a mut T3, &'a mut T4,
        &'a mut T5))
        ensures
            ({
                let out: (&'a mut T1, &'a mut T2, &'a mut T3, &'a mut T4, &'a mut T5) = r;
                *final(self) == (old(self).0, *final(out.0), *final(out.1), *final(out.2),
                    *final(out.3), *final(out.4), old(self).6, old(self).7, old(self).8)
            }),
    {
        (&mut self.1, &mut self.2, &mut self.3, &mut self.4, &mut self.5)
    }

    proof fn lemma_extract_mut_len() {
    }
}

impl<'a, T0: 'a, T1: 'a, T2: 'a, T3: 'a, T4: 'a, T5: 'a, T6: 'a, T7: 'a, T8: 'a> TypedExtractMut<'a,
    1, 7, (&'a mut T1, &'a mut T2, &'a mut T3, &'a mut T4, &'a mut T5, &'a mut T6)>
    for (T0, T1, T2, T3, T4, T5, T6, T7, T8)
{
    open spec fn spec_borrows(&self, out: (&'a mut T1, &'a mut T2, &'a mut T3, &'a mut T4,
        &'a mut T5, &'a mut T6)) -> bool {
        &&& *out.0 == self.1
        &&& *out.1 == self.2
        &&& *out.2 == self.3
        &&& *out.3 == self.4
        &&& *out.4 == self.5
        &&& *out.5 == self.6
    }

    open spec fn spec_keeps(&self, after: (T0, T1, T2, T3, T4, T5, T6, T7, T8)) -> bool {
        &&& after.0 == self.0
        &&& after.7 == self.7
        &&& after.8 == self.8
    }

    fn extract_mut(&'a mut self) -> (r: (&'a mut T1, &'a mut T2, &'a mut T3, &'a mut T4, &'a mut T5,
        &'a mut T6))
        ensures
            ({
                let out: (&'a mut T1, &'a mut T2, &'a mut T3, &'a mut T4, &'a mut T5,
                    &'a mut T6) = r;
                *final(self) == (old(self).0, *final(out.0), *final(out.1), *final(out.2),
                    *final(out.3), *final(out.4), *final(out.5), old(self).7, old(self).8)
            }),
    {
        (&mut self.1, &mut self.2, &mut self.3, &mut self.4, &mut self.5, &mut self.6)
    }

    proof fn lemma_extract_mut_len() {
    }
}

impl<'a, T0: 'a, T1: 'a, T2: 'a, T3: 'a, T4: 'a, T5: 'a, T6: 'a, T7: 'a, T8: 'a> TypedExtractMut<'a,
    1, 8, (&'a mut T1, &'a mut T2, &'a mut T3, &'a mut T4, &'a mut T5, &'a mut T6, &'a mut T7)>
    for (T0, T1, T2, T3, T4, T5, T6, T7, T8)
{
    open spec fn spec_borrows(&self, out: (&'a mut T1, &'a mut T2, &'a mut T3, &'a mut T4,
        &'a mut T5, &'a mut T6, &'a mut T7)) -> bool {
        &&& *out.0 == self.1
        &&& *out.1 == self.2
        &&& *out.2 == self.3
        &&& *out.3 == self.4
        &&& *out.4 == self.5
        &&& *out.5 == self.6
        &&& *out.6 == self.7
    }

    open spec fn spec_keeps(&self, after: (T0, T1, T2, T3, T4, T5, T6, T7, T8)) -> bool {
        &&& after.0 == self.0
        &&& after.8 == self.8
    }

    fn extract_mut(&'a mut self) -> (r: (&'a mut T1, &'a mut T2, &'a mut T3, &'a mut T4, &'a mut T5,
        &'a mut T6, &'a mut T7))
        ensures
            ({
                let out: (&'a mut T1, &'a mut T2, &'a mut T3, &'a mut T4, &'a mut T5, &'a mut T6,
                    &'a mut T7) = r;
                *final(self) == (old(self).0, *final(out.0), *final(out.1), *final(out.2),
                    *final(out.3), *final(out.4), *final(out.5), *final(out.6), old(self).8)
            }),
    {
        (&mut self.1, &mut self.2, &mut self.3, &mut self.4, &mut self.5, &mut self.6, &mut self.7)
    }

    proof fn lemma_extract_mut_len() {
    }
}

impl<'a, T0: 'a, T1: 'a, T2: 'a, T3: 'a, T4: 'a, T5: 'a, T6: 'a, T7: 'a, T8: 'a> TypedExtractMut<'a,
    1, 9, (&'a mut T1, &'a mut T2, &'a mut T3, &'a mut T4, &'a mut T5, &'a mut T6, &'a mut T7,
    &'a mut T8)>
    for (T0, T1, T2, T3, T4, T5, T6, T7, T8)
{
    open spec fn spec_borrows(&self, out: (&'a mut T1, &'a mut T2, &'a mut T3, &'a mut T4,
        &'a mut T5, &'a mut T6, &'a mut T7, &'a mut T8)) -> bool {
        &&& *out.0 == self.1
        &&& *out.1 == self.2
        &&& *out.2 == self.3
        &&& *out.3 == self.4
        &&& *out.4 == self.5
        &&& *out.5 == self.6
        &&& *out.6 == self.7
        &&& *out.7 == self.8
    }

    open spec fn spec_keeps(&self, after: (T0, T1, T2, T3, T4, T5, T6, T7, T8)) -> bool {
        after.0 == self.0
    }

    fn extract_mut(&'a mut self) -> (r: (&'a mut T1, &'a mut T2, &'a mut T3, &'a mut T4, &'a mut T5,
        &'a mut T6, &'a mut T7, &'a mut T8))
        ensures
            ({
                let out: (&'a mut T1, &'a mut T2, &'a mut T3, &'a mut T4, &'a mut T5, &'a mut T6,
                    &'a mut T7, &'a mut T8) = r;
                *final(self) == (old(self).0, *final(out.0), *final(out.1), *final(out.2),
                    *final(out.3), *final(out.4), *final(out.5), *final(out.6), *final(out.7))
            }),
    {
        (&mut self.1, &mut self.2, &mut self.3, &mut self.4, &mut self.5, &mut self.6, &mut self.7,
            &mut self.8)
    }

    proof fn lemma_extract_mut_len() {
    }
}

impl<'a, T0: 'a, T1: 'a, T2: 'a, T3: 'a, T4: 'a, T5: 'a, T6: 'a, T7: 'a, T8: 'a> TypedExtractMut<'a,
    2, 2, ()>
    for (T0, T1, T2, T3, T4, T5, T6, T7, T8)
{
    open spec fn spec_borrows(&self, out: ()) -> bool {
        true
    }

    open spec fn spec_keeps(&self, after: (T0, T1, T2, T3, T4, T5, T6, T7, T8)) -> bool {
        &&& after.0 == self.0
        &&& after.1 == self.1
        &&& after.2 == self.2
        &&& after.3 == self.3
        &&& after.4 == self.4
        &&& after.5 == self.5
        &&& after.6 == self.6
        &&& after.7 == self.7
        &&& after.8 == self.8
    }

    fn extract_mut(&'a mut self) -> (r: ()) {
        ()
    }

    proof fn lemma_extract_mut_len() {
    }
}

impl<'a, T0: 'a, T1: 'a, T2: 'a, T3: 'a, T4: 'a, T5: 'a, T6: 'a, T7: 'a, T8: 'a> TypedExtractMut<'a,
    2, 3, (&'a mut T2,)>
    for (T0, T1, T2, T3, T4, T5, T6, T7, T8)
{
    open spec fn spec_borrows(&self, out: (&'a mut T2,)) -> bool {
        *out.0 == self.2
    }

    open spec fn spec_keeps(&self, after: (T0, T1, T2, T3, T4, T5, T6, T7, T8)) -> bool {
        &&& after.0 == self.0
        &&& after.1 == self.1
        &&& after.3 == self.3
        &&& after.4 == self.4
        &&& after.5 == self.5
        &&& after.6 == self.6
        &&& after.7 == self.7
        &&& after.8 == self.8
    }

    fn extract_mut(&'a mut self) -> (r: (&'a mut T2,))
        ensures
            ({
                let out: (&'a mut T2,) = r;
                *final(self) == (old(self).0, old(self).1, *final(out.0), old(self).3, old(self).4,
                    old(self).5, old(self).6, old(self).7, old(self).8)
            }),
    {
        (&mut self.2,)
    }

    proof fn lemma_extract_mut_len() {
    }
}

impl<'a, T0: 'a, T1: 'a, T2: 'a, T3: 'a, T4: 'a, T5: 'a, T6: 'a, T7: 'a, T8: 'a> TypedExtractMut<'a,
    2, 4, (&'a mut T2, &'a mut T3)>
    for (T0, T1, T2, T3, T4, T5, T6, T7, T8)
{
    open spec fn spec_borrows(&self, out: (&'a mut T2, &'a mut T3)) -> bool {
        &&& *out.0 == self.2
        &&& *out.1 == self.3
    }

    open spec fn spec_keeps(&self, after: (T0, T1, T2, T3, T4, T5, T6, T7, T8)) -> bool {
        &&& after.0 == self.0
        &&& after.1 == self.1
        &&& after.4 == self.4
        &&& after.5 == self.5
        &&& after.6 == self.6
        &&& after.7 == self.7
        &&& after.8 == self.8
    }

    fn extract_mut(&'a mut self) -> (r: (&'a mut T2, &'a mut T3))
        ensures
            ({
                let out: (&'a mut T2, &'a mut T3) = r;
                *final(self) == (old(self).0, old(self).1, *final(out.0), *final(out.1),
                    old(self).4, old(self).5, old(self).6, old(self).7, old(self).8)
            }),
    {
        (&mut self.2, &mut self.3)
    }

    proof fn lemma_extract_mut_len() {
    }
}

impl<'a, T0: 'a, T1: 'a, T2: 'a, T3: 'a, T4: 'a, T5: 'a, T6: 'a, T7: 'a, T8: 'a> TypedExtractMut<'a,
    2, 5, (&'a mut T2, &'a mut T3, &'a mut T4)>
    for (T0, T1, T2, T3, T4, T5, T6, T7, T8)
{
    open spec fn spec_borrows(&self, out: (&'a mut T2, &'a mut T3, &'a mut T4)) -> bool {
        &&& *out.0 == self.2
        &&& *out.1 == self.3
        &&& *out.2 == self.4
    }

    open spec fn spec_keeps(&self, after: (T0, T1, T2, T3, T4, T5, T6, T7, T8)) -> bool {
        &&& after.0 == self.0
        &&& after.1 == self.1
        &&& after.5 == self.5
        &&& after.6 == self.6
        &&& after.7 == self.7
        &&& after.8 == self.8
    }

    fn extract_mut(&'a mut self) -> (r: (&'a mut T2, &'a mut T3, &'a mut T4))
        ensures
            ({
                let out: (&'a mut T2, &'a mut T3, &'a mut T4) = r;
                *final(self) == (old(self).0, old(self).1, *final(out.0), *final(out.1),
                    *final(out.2), old(self).5, old(self).6, old(self).7, old(self).8)
            }),
    {
        (&mut self.2, &mut self.3, &mut self.4)
    }

    proof fn lemma_extract_mut_len() {
    }
}

impl<'a, T0: 'a, T1: 'a, T2: 'a, T3: 'a, T4: 'a, T5: 'a, T6: 'a, T7: 'a, T8: 'a> TypedExtractMut<'a,
    2, 6, (&'a mut T2, &'a mut T3, &'a mut T4, &'a mut T5)>
    for (T0, T1, T2, T3, T4, T5, T6, T7, T8)
{
    open spec fn spec_borrows(&self, out: (&'a mut T2, &'a mut T3, &'a mut T4,
        &'a mut T5)) -> bool {
        &&& *out.0 == self.2
        &&& *out.1 == self.3
        &&& *out.2 == self.4
        &&& *out.3 == self.5
    }

    open spec fn spec_keeps(&self, after: (T0, T1, T2, T3, T4, T5, T6, T7, T8)) -> bool {
        &&& after.0 == self.0
        &&& after.1 == self.1
        &&& after.6 == self.6
        &&& after.7 == self.7
        &&& after.8 == self.8
    }

    fn extract_mut(&'a mut self) -> (r: (&'a mut T2, &'a mut T3, &'a mut T4, &'a mut T5))
        ensures
            ({
                let out: (&'a mut T2, &'a mut T3, &'a mut T4, &'a mut T5) = r;
                *final(self) == (old(self).0, old(self).1, *final(out.0), *final(out.1),
                    *final(out.2), *final(out.3), old(self).6, old(self).7, old(self).8)
            }),
    {
        (&mut self.2, &mut self.3, &mut self.4, &mut self.5)
    }

    proof fn lemma_extract_mut_len() {
    }
}

impl<'a, T0: 'a, T1: 'a, T2: 'a, T3: 'a, T4: 'a, T5: 'a, T6: 'a, T7: 'a, T8: 'a> TypedExtractMut<'a,
    2, 7, (&'a mut T2, &'a mut T3, &'a mut T4, &'a mut T5, &'a mut T6)>
    for (T0, T1, T2, T3, T4, T5, T6, T7, T8)
{
    open spec fn spec_borrows(&self, out: (&'a mut T2, &'a mut T3, &'a mut T4, &'a mut T5,
        &'a mut T6)) -> bool {
        &&& *out.0 == self.2
        &&& *out.1 == self.3
        &&& *out.2 == self.4
        &&& *out.3 == self.5
        &&& *out.4 == self.6
    }

    open spec fn spec_keeps(&self, after: (T0, T1, T2, T3, T4, T5, T6, T7, T8)) -> bool {
        &&& after.0 == self.0
        &&& after.1 == self.1
        &&& after.7 == self.7
        &&& after.8 == self.8
    }

    fn extract_mut(&'a mut self) -> (r: (&'a mut T2, &'a mut T3, &'a mut T4, &'a mut T5,
        &'a mut T6))
        ensures
            ({
                let out: (&'a mut T2, &'a mut T3, &'a mut T4, &'a mut T5, &'a mut T6) = r;
                *final(self) == (old(self).0, old(self).1, *final(out.0), *final(out.1),
                    *final(out.2), *final(out.3), *final(out.4), old(self).7, old(self).8)
            }),
    {
        (&mut self.2, &mut self.3, &mut self.4, &mut self.5, &mut self.6)
    }

    proof fn lemma_extract_mut_len() {
    }
}

impl<'a, T0: 'a, T1: 'a, T2: 'a, T3: 'a, T4: 'a, T5: 'a, T6: 'a, T7: 'a, T8: 'a> TypedExtractMut<'a,
    2, 8, (&'a mut T2, &'a mut T3, &'a mut T4, &'a mut T5, &'a mut T6, &'a mut T7)>
    for (T0, T1, T2, T3, T4, T5, T6, T7, T8)
{
    open spec fn spec_borrows(&self, out: (&'a mut T2, &'a mut T3, &'a mut T4, &'a mut T5,
        &'a mut T6, &'a mut T7)) -> bool {
        &&& *out.0 == self.2
        &&& *out.1 == self.3
        &&& *out.2 == self.4
        &&& *out.3 == self.5
        &&& *out.4 == self.6
        &&& *out.5 == self.7
    }

    open spec fn spec_keeps(&self, after: (T0, T1, T2, T3, T4, T5, T6, T7, T8)) -> bool {
        &&& after.0 == self.0
        &&& after.1 == self.1
        &&& after.8 == self.8
    }

    fn extract_mut(&'a mut self) -> (r: (&'a mut T2, &'a mut T3, &'a mut T4, &'a mut T5, &'a mut T6,
        &'a mut T7))
        ensures
            ({
                let out: (&'a mut T2, &'a mut T3, &'a mut T4, &'a mut T5, &'a mut T6,
                    &'a mut T7) = r;
                *final(self) == (old(self).0, old(self).1, *final(out.0), *final(out.1),
                    *final(out.2), *final(out.3), *final(out.4), *final(out.5), old(self).8)
            }),
    {
        (&mut self.2, &mut self.3, &mut self.4, &mut self.5, &mut self.6, &mut self.7)
    }

    proof fn lemma_extract_mut_len() {
    }
}

impl<'a, T0: 'a, T1: 'a, T2: 'a, T3: 'a, T4: 'a, T5: 'a, T6: 'a, T7: 'a, T8: 'a> TypedExtractMut<'a,
    2, 9, (&'a mut T2, &'a mut T3, &'a mut T4, &'a mut T5, &'a mut T6, &'a mut T7, &'a mut T8)>
    for (T0, T1, T2, T3, T4, T5, T6, T7, T8)
{
    open spec fn spec_borrows(&self, out: (&'a mut T2, &'a mut T3, &'a mut T4, &'a mut T5,
        &'a mut T6, &'a mut T7, &'a mut T8)) -> bool {
        &&& *out.0 == self.2
        &&& *out.1 == self.3
        &&& *out.2 == self.4
        &&& *out.3 == self.5
        &&& *out.4 == self.6
        &&& *out.5 == self.7
        &&& *out.6 == self.8
    }

    open spec fn spec_keeps(&self, after: (T0, T1, T2, T3, T4, T5, T6, T7, T8)) -> bool {
        &&& after.0 == self.0
        &&& after.1 == self.1
    }

    fn extract_mut(&'a mut self) -> (r: (&'a mut T2, &'a mut T3, &'a mut T4, &'a mut T5, &'a mut T6,
        &'a mut T7, &'a mut T8))
        ensures
            ({
                let out: (&'a mut T2, &'a mut T3, &'a mut T4, &'a mut T5, &'a mut T6, &'a mut T7,
                    &'a mut T8) = r;
                *final(self) == (old(self).0, old(self).1, *final(out.0), *final(out.1),
                    *final(out.2), *final(out.3), *final(out.4), *final(out.5), *final(out.6))
            }),
    {
        (&mut self.2, &mut self.3, &mut self.4, &mut self.5, &mut self.6, &mut self.7, &mut self.8)
    }

    proof fn lemma_extract_mut_len() {
    }
}

impl<'a, T0: 'a, T1: 'a, T2: 'a, T3: 'a, T4: 'a, T5: 'a, T6: 'a, T7: 'a, T8: 'a> TypedExtractMut<'a,
    3, 3, ()>
    for (T0, T1, T2, T3, T4, T5, T6, T7, T8)
{
    open spec fn spec_borrows(&self, out: ()) -> bool {
        true
    }

    open spec fn spec_keeps(&self, after: (T0, T1, T2, T3, T4, T5, T6, T7, T8)) -> bool {
        &&& after.0 == self.0
        &&& after.1 == self.1
        &&& after.2 == self.2
        &&& after.3 == self.3
        &&& after.4 == self.4
        &&& after.5 == self.5
        &&& after.6 == self.6
        &&& after.7 == self.7
        &&& after.8 == self.8
    }

    fn extract_mut(&'a mut self) -> (r: ()) {
        ()
    }

    proof fn lemma_extract_mut_len() {
    }
}

impl<'a, T0: 'a, T1: 'a, T2: 'a, T3: 'a, T4: 'a, T5: 'a, T6: 'a, T7: 'a, T8: 'a> TypedExtractMut<'a,
    3, 4, (&'a mut T3,)>
    for (T0, T1, T2, T3, T4, T5, T6, T7, T8)
{
    open spec fn spec_borrows(&self, out: (&'a mut T3,)) -> bool {
        *out.0 == self.3
    }

    open spec fn spec_keeps(&self, after: (T0, T1, T2, T3, T4, T5, T6, T7, T8)) -> bool {
        &&& after.0 == self.0
        &&& after.1 == self.1
        &&& after.2 == self.2
        &&& after.4 == self.4
        &&& after.5 == self.5
        &&& after.6 == self.6
        &&& after.7 == self.7
        &&& after.8 == self.8
    }

    fn extract_mut(&'a mut self) -> (r: (&'a mut T3,))
        ensures
            ({
                let out: (&'a mut T3,) = r;
                *final(self) == (old(self).0, old(self).1, old(self).2, *final(out.0), old(self).4,
                    old(self).5, old(self).6, old(self).7, old(self).8)
            }),
    {
        (&mut self.3,)
    }

    proof fn lemma_extract_mut_len() {
    }
}

impl<'a, T0: 'a, T1: 'a, T2: 'a, T3: 'a, T4: 'a, T5: 'a, T6: 'a, T7: 'a, T8: 'a> TypedExtractMut<'a,
    3, 5, (&'a mut T3, &'a mut T4)>
    for (T0, T1, T2, T3, T4, T5, T6, T7, T8)
{
    open spec fn spec_borrows(&self, out: (&'a mut T3, &'a mut T4)) -> bool {
        &&& *out.0 == self.3
        &&& *out.1 == self.4
    }

    open spec fn spec_keeps(&self, after: (T0, T1, T2, T3, T4, T5, T6, T7, T8)) -> bool {
        &&& after.0 == self.0
        &&& after.1 == self.1
        &&& after.2 == self.2
        &&& after.5 == self.5
        &&& after.6 == self.6
        &&& after.7 == self.7
        &&& after.8 == self.8
    }

    fn extract_mut(&'a mut self) -> (r: (&'a mut T3, &'a mut T4))
        ensures
            ({
                let out: (&'a mut T3, &'a mut T4) = r;
                *final(self) == (old(self).0, old(self).1, old(self).2, *final(out.0),
                    *final(out.1), old(self).5, old(self).6, old(self).7, old(self).8)
            }),
    {
        (&mut self.3, &mut self.4)
    }

    proof fn lemma_extract_mut_len() {
    }
}

impl<'a, T0: 'a, T1: 'a, T2: 'a, T3: 'a, T4: 'a, T5: 'a, T6: 'a, T7: 'a, T8: 'a> TypedExtractMut<'a,
    3, 6, (&'a mut T3, &'a mut T4, &'a mut T5)>
    for (T0, T1, T2, T3, T4, T5, T6, T7, T8)
{
    open spec fn spec_borrows(&self, out: (&'a mut T3, &'a mut T4, &'a mut T5)) -> bool {
        &&& *out.0 == self.3
        &&& *out.1 == self.4
        &&& *out.2 == self.5
    }

    open spec fn spec_keeps(&self, after: (T0, T1, T2, T3, T4, T5, T6, T7, T8)) -> bool {
        &&& after.0 == self.0
        &&& after.1 == self.1
        &&& after.2 == self.2
        &&& after.6 == self.6
        &&& after.7 == self.7
        &&& after.8 == self.8
    }

    fn extract_mut(&'a mut self) -> (r: (&'a mut T3, &'a mut T4, &'a mut T5))
        ensures
            ({
                let out: (&'a mut T3, &'a mut T4, &'a mut T5) = r;
                *final(self) == (old(self).0, old(self).1, old(self).2, *final(out.0),
                    *final(out.1), *final(out.2), old(self).6, old(self).7, old(self).8)
            }),
    {
        (&mut self.3, &mut self.4, &mut self.5)
    }

    proof fn lemma_extract_mut_len() {
    }
}

impl<'a, T0: 'a, T1: 'a, T2: 'a, T3: 'a, T4: 'a, T5: 'a, T6: 'a, T7: 'a, T8: 'a> TypedExtractMut<'a,
    3, 7, (&'a mut T3, &'a mut T4, &'a mut T5, &'a mut T6)>
    for (T0, T1, T2, T3, T4, T5, T6, T7, T8)
{
    open spec fn spec_borrows(&self, out: (&'a mut T3, &'a mut T4, &'a mut T5,
        &'a mut T6)) -> bool {
        &&& *out.0 == self.3
        &&& *out.1 == self.4
        &&& *out.2 == self.5
        &&& *out.3 == self.6
    }

    open spec fn spec_keeps(&self, after: (T0, T1, T2, T3, T4, T5, T6, T7, T8)) -> bool {
        &&& after.0 == self.0
        &&& after.1 == self.1
        &&& after.2 == self.2
        &&& after.7 == self.7
        &&& after.8 == self.8
    }

    fn extract_mut(&'a mut self) -> (r: (&'a mut T3, &'a mut T4, &'a mut T5, &'a mut T6))
        ensures
            ({
                let out: (&'a mut T3, &'a mut T4, &'a mut T5, &'a mut T6) = r;
                *final(self) == (old(self).0, old(self).1, old(self).2, *final(out.0),
                    *final(out.1), *final(out.2), *final(out.3), old(self).7, old(self).8)
            }),
    {
        (&mut self.3, &mut self.4, &mut self.5, &mut self.6)
    }

    proof fn lemma_extract_mut_len() {
    }
}

impl<'a, T0: 'a, T1: 'a, T2: 'a, T3: 'a, T4: 'a, T5: 'a, T6: 'a, T7: 'a, T8: 'a> TypedExtractMut<'a,
    3, 8, (&'a mut T3, &'a mut T4, &'a mut T5, &'a mut T6, &'a mut T7)>
    for (T0, T1, T2, T3, T4, T5, T6, T7, T8)
{
    open spec fn spec_borrows(&self, out: (&'a mut T3, &'a mut T4, &'a mut T5, &'a mut T6,
        &'a mut T7)) -> bool {
        &&& *out.0 == self.3
        &&& *out.1 == self.4
        &&& *out.2 == self.5
        &&& *out.3 == self.6
        &&& *out.4 == self.7
    }

    open spec fn spec_keeps(&self, after: (T0, T1, T2, T3, T4, T5, T6, T7, T8)) -> bool {
        &&& after.0 == self.0
        &&& after.1 == self.1
        &&& after.2 == self.2
        &&& after.8 == self.8
    }

    fn extract_mut(&'a mut self) -> (r: (&'a mut T3, &'a mut T4, &'a mut T5, &'a mut T6,
        &'a mut T7))
        ensures
            ({
                let out: (&'a mut T3, &'a mut T4, &'a mut T5, &'a mut T6, &'a mut T7) = r;
                *final(self) == (old(self).0, old(self).1, old(self).2, *final(out.0),
                    *final(out.1), *final(out.2), *final(out.3), *final(out.4), old(self).8)
            }),
    {
        (&mut self.3, &mut self.4, &mut self.5, &mut self.6, &mut self.7)
    }

    proof fn lemma_extract_mut_len() {
    }
}

impl<'a, T0: 'a, T1: 'a, T2: 'a, T3: 'a, T4: 'a, T5: 'a, T6: 'a, T7: 'a, T8: 'a> TypedExtractMut<'a,
    3, 9, (&'a mut T3, &'a mut T4, &'a mut T5, &'a mut T6, &'a mut T7, &'a mut T8)>
    for (T0, T1, T2, T3, T4, T5, T6, T7, T8)
{
    open spec fn spec_borrows(&self, out: (&'a mut T3, &'a mut T4, &'a mut T5, &'a mut T6,
        &'a mut T7, &'a mut T8)) -> bool {
        &&& *out.0 == self.3
        &&& *out.1 == self.4
        &&& *out.2 == self.5
        &&& *out.3 == self.6
        &&& *out.4 == self.7
        &&& *out.5 == self.8
    }

    open spec fn spec_keeps(&self, after: (T0, T1, T2, T3, T4, T5, T6, T7, T8)) -> bool {
        &&& after.0 == self.0
        &&& after.1 == self.1
        &&& after.2 == self.2
    }

    fn extract_mut(&'a mut self) -> (r: (&'a mut T3, &'a mut T4, &'a mut T5, &'a mut T6, &'a mut T7,
        &'a mut T8))
        ensures
            ({
                let out: (&'a mut T3, &'a mut T4, &'a mut T5, &'a mut T6, &'a mut T7,
                    &'a mut T8) = r;
                *final(self) == (old(self).0, old(self).1, old(self).2, *final(out.0),
                    *final(out.1), *final(out.2), *final(out.3), *final(out.4), *final(out.5))
            }),
    {
        (&mut self.3, &mut self.4, &mut self.5, &mut self.6, &mut self.7, &mut self.8)
    }

    proof fn lemma_extract_mut_len() {
    }
}

impl<'a, T0: 'a, T1: 'a, T2: 'a, T3: 'a, T4: 'a, T5: 'a, T6: 'a, T7: 'a, T8: 'a> TypedExtractMut<'a,
    4, 4, ()>
    for (T0, T1, T2, T3, T4, T5, T6, T7, T8)
{
    open spec fn spec_borrows(&self, out: ()) -> bool {
        true
    }

    open spec fn spec_keeps(&self, after: (T0, T1, T2, T3, T4, T5, T6, T7, T8)) -> bool {
        &&& after.0 == self.0
        &&& after.1 == self.1
        &&& after.2 == self.2
        &&& after.3 == self.3
        &&& after.4 == self.4
        &&& after.5 == self.5
        &&& after.6 == self.6
        &&& after.7 == self.7
        &&& after.8 == self.8
    }

    fn extract_mut(&'a mut self) -> (r: ()) {
        ()
    }

    proof fn lemma_extract_mut_len() {
    }
}

impl<'a, T0: 'a, T1: 'a, T2: 'a, T3: 'a, T4: 'a, T5: 'a, T6: 'a, T7: 'a, T8: 'a> TypedExtractMut<'a,
    4, 5, (&'a mut T4,)>
    for (T0, T1, T2, T3, T4, T5, T6, T7, T8)
{
    open spec fn spec_borrows(&self, out: (&'a mut T4,)) -> bool {
        *out.0 == self.4
    }

    open spec fn spec_keeps(&self, after: (T0, T1, T2, T3, T4, T5, T6, T7, T8)) -> bool {
        &&& after.0 == self.0
        &&& after.1 == self.1
        &&& after.2 == self.2
        &&& after.3 == self.3
        &&& after.5 == self.5
        &&& after.6 == self.6
        &&& after.7 == self.7
        &&& after.8 == self.8
    }

    fn extract_mut(&'a mut self) -> (r: (&'a mut T4,))
        ensures
            ({
                let out: (&'a mut T4,) = r;
                *final(self) == (old(self).0, old(self).1, old(self).2, old(self).3, *final(out.0),
                    old(self).5, old(self).6, old(self).7, old(self).8)
            }),
    {
        (&mut self.4,)
    }

    proof fn lemma_extract_mut_len() {
    }
}

impl<'a, T0: 'a, T1: 'a, T2: 'a, T3: 'a, T4: 'a, T5: 'a, T6: 'a, T7: 'a, T8: 'a> TypedExtractMut<'a,
    4, 6, (&'a mut T4, &'a mut T5)>
    for (T0, T1, T2, T3, T4, T5, T6, T7, T8)
{
    open spec fn spec_borrows(&self, out: (&'a mut T4, &'a mut T5)) -> bool {
        &&& *out.0 == self.4
        &&& *out.1 == self.5
    }

    open spec fn spec_keeps(&self, after: (T0, T1, T2, T3, T4, T5, T6, T7, T8)) -> bool {
        &&& after.0 == self.0
        &&& after.1 == self.1
        &&& after.2 == self.2
        &&& after.3 == self.3
        &&& after.6 == self.6
        &&& after.7 == self.7
        &&& after.8 == self.8
    }

    fn extract_mut(&'a mut self) -> (r: (&'a mut T4, &'a mut T5))
        ensures
            ({
                let out: (&'a mut T4, &'a mut T5) = r;
                *final(self) == (old(self).0, old(self).1, old(self).2, old(self).3, *final(out.0),
                    *final(out.1), old(self).6, old(self).7, old(self).8)
            }),
    {
        (&mut self.4, &mut self.5)
    }

    proof fn lemma_extract_mut_len() {
    }
}

impl<'a, T0: 'a, T1: 'a, T2: 'a, T3: 'a, T4: 'a, T5: 'a, T6: 'a, T7: 'a, T8: 'a> TypedExtractMut<'a,
    4, 7, (&'a mut T4, &'a mut T5, &'a mut T6)>
    for (T0, T1, T2, T3, T4, T5, T6, T7, T8)
{
    open spec fn spec_borrows(&self, out: (&'a mut T4, &'a mut T5, &'a mut T6)) -> bool {
        &&& *out.0 == self.4
        &&& *out.1 == self.5
        &&& *out.2 == self.6
    }

    open spec fn spec_keeps(&self, after: (T0, T1, T2, T3, T4, T5, T6, T7, T8)) -> bool {
        &&& after.0 == self.0
        &&& after.1 == self.1
        &&& after.2 == self.2
        &&& after.3 == self.3
        &&& after.7 == self.7
        &&& after.8 == self.8
    }

    fn extract_mut(&'a mut self) -> (r: (&'a mut T4, &'a mut T5, &'a mut T6))
        ensures
            ({
                let out: (&'a mut T4, &'a mut T5, &'a mut T6) = r;
                *final(self) == (old(self).0, old(self).1, old(self).2, old(self).3, *final(out.0),
                    *final(out.1), *final(out.2), old(self).7, old(self).8)
            }),
    {
        (&mut self.4, &mut self.5, &mut self.6)
    }

    proof fn lemma_extract_mut_len() {
    }
}

impl<'a, T0: 'a, T1: 'a, T2: 'a, T3: 'a, T4: 'a, T5: 'a, T6: 'a, T7: 'a, T8: 'a> TypedExtractMut<'a,
    4, 8, (&'a mut T4, &'a mut T5, &'a mut T6, &'a mut T7)>
    for (T0, T1, T2, T3, T4, T5, T6, T7, T8)
{
    open spec fn spec_borrows(&self, out: (&'a mut T4, &'a mut T5, &'a mut T6,
        &'a mut T7)) -> bool {
        &&& *out.0 == self.4
        &&& *out.1 == self.5
        &&& *out.2 == self.6
        &&& *out.3 == self.7
    }

    open spec fn spec_keeps(&self, after: (T0, T1, T2, T3, T4, T5, T6, T7, T8)) -> bool {
        &&& after.0 == self.0
        &&& after.1 == self.1
        &&& after.2 == self.2
        &&& after.3 == self.3
        &&& after.8 == self.8
    }

    fn extract_mut(&'a mut self) -> (r: (&'a mut T4, &'a mut T5, &'a mut T6, &'a mut T7))
        ensures
            ({
                let out: (&'a mut T4, &'a mut T5, &'a mut T6, &'a mut T7) = r;
                *final(self) == (old(self).0, old(self).1, old(self).2, old(self).3, *final(out.0),
                    *final(out.1), *final(out.2), *final(out.3), old(self).8)
            }),
    {
        (&mut self.4, &mut self.5, &mut self.6, &mut self.7)
    }

    proof fn lemma_extract_mut_len() {
    }
}

impl<'a, T0: 'a, T1: 'a, T2: 'a, T3: 'a, T4: 'a, T5: 'a, T6: 'a, T7: 'a, T8: 'a> TypedExtractMut<'a,
    4, 9, (&'a mut T4, &'a mut T5, &'a mut T6, &'a mut T7, &'a mut T8)>
    for (T0, T1, T2, T3, T4, T5, T6, T7, T8)
{
    open spec fn spec_borrows(&self, out: (&'a mut T4, &'a mut T5, &'a mut T6, &'a mut T7,
        &'a mut T8)) -> bool {
        &&& *out.0 == self.4
        &&& *out.1 == self.5
        &&& *out.2 == self.6
        &&& *out.3 == self.7
        &&& *out.4 == self.8
    }

    open spec fn spec_keeps(&self, after: (T0, T1, T2, T3, T4, T5, T6, T7, T8)) -> bool {
        &&& after.0 == self.0
        &&& after.1 == self.1
        &&& after.2 == self.2
        &&& after.3 == self.3
    }

    fn extract_mut(&'a mut self) -> (r: (&'a mut T4, &'a mut T5, &'a mut T6, &'a mut T7,
        &'a mut T8))
        ensures
            ({
                let out: (&'a mut T4, &'a mut T5, &'a mut T6, &'a mut T7, &'a mut T8) = r;
                *final(self) == (old(self).0, old(self).1, old(self).2, old(self).3, *final(out.0),
                    *final(out.1), *final(out.2), *final(out.3), *final(out.4))
            }),
    {
        (&mut self.4, &mut self.5, &mut self.6, &mut self.7, &mut self.8)
    }

    proof fn lemma_extract_mut_len() {
    }
}

impl<'a, T0: 'a, T1: 'a, T2: 'a, T3: 'a, T4: 'a, T5: 'a, T6: 'a, T7: 'a, T8: 'a> TypedExtractMut<'a,
    5, 5, ()>
    for (T0, T1, T2, T3, T4, T5, T6, T7, T8)
{
    open spec fn spec_borrows(&self, out: ()) -> bool {
        true
    }

    open spec fn spec_keeps(&self, after: (T0, T1, T2, T3, T4, T5, T6, T7, T8)) -> bool {
        &&& after.0 == self.0
        &&& after.1 == self.1
        &&& after.2 == self.2
        &&& after.3 == self.3
        &&& after.4 == self.4
        &&& after.5 == self.5
        &&& after.6 == self.6
        &&& after.7 == self.7
        &&& after.8 == self.8
    }

    fn extract_mut(&'a mut self) -> (r: ()) {
        ()
    }

    proof fn lemma_extract_mut_len() {
    }
}

impl<'a, T0: 'a, T1: 'a, T2: 'a, T3: 'a, T4: 'a, T5: 'a, T6: 'a, T7: 'a, T8: 'a> TypedExtractMut<'a,
    5, 6, (&'a mut T5,)>
    for (T0, T1, T2, T3, T4, T5, T6, T7, T8)
{
    open spec fn spec_borrows(&self, out: (&'a mut T5,)) -> bool {
        *out.0 == self.5
    }

    open spec fn spec_keeps(&self, after: (T0, T1, T2, T3, T4, T5, T6, T7, T8)) -> bool {
        &&& after.0 == self.0
        &&& after.1 == self.1
        &&& after.2 == self.2
        &&& after.3 == self.3
        &&& after.4 == self.4
        &&& after.6 == self.6
        &&& after.7 == self.7
        &&& after.8 == self.8
    }

    fn extract_mut(&'a mut self) -> (r: (&'a mut T5,))
        ensures
            ({
                let out: (&'a mut T5,) = r;
                *final(self) == (old(self).0, old(self).1, old(self).2, old(self).3, old(self).4,
                    *final(out.0), old(self).6, old(self).7, old(self).8)
            }),
    {
        (&mut self.5,)
    }

    proof fn lemma_extract_mut_len() {
    }
}

impl<'a, T0: 'a, T1: 'a, T2: 'a, T3: 'a, T4: 'a, T5: 'a, T6: 'a, T7: 'a, T8: 'a> TypedExtractMut<'a,
    5, 7, (&'a mut T5, &'a mut T6)>
    for (T0, T1, T2, T3, T4, T5, T6, T7, T8)
{
    open spec fn spec_borrows(&self, out: (&'a mut T5, &'a mut T6)) -> bool {
        &&& *out.0 == self.5
        &&& *out.1 == self.6
    }

    open spec fn spec_keeps(&self, after: (T0, T1, T2, T3, T4, T5, T6, T7, T8)) -> bool {
        &&& after.0 == self.0
        &&& after.1 == self.1
        &&& after.2 == self.2
        &&& after.3 == self.3
        &&& after.4 == self.4
        &&& after.7 == self.7
        &&& after.8 == self.8
    }

    fn extract_mut(&'a mut self) -> (r: (&'a mut T5, &'a mut T6))
        ensures
            ({
                let out: (&'a mut T5, &'a mut T6) = r;
                *final(self) == (old(self).0, old(self).1, old(self).2, old(self).3, old(self).4,
                    *final(out.0), *final(out.1), old(self).7, old(self).8)
            }),
    {
        (&mut self.5, &mut self.6)
    }

    proof fn lemma_extract_mut_len() {
    }
}

impl<'a, T0: 'a, T1: 'a, T2: 'a, T3: 'a, T4: 'a, T5: 'a, T6: 'a, T7: 'a, T8: 'a> TypedExtractMut<'a,
    5, 8, (&'a mut T5, &'a mut T6, &'a mut T7)>
    for (T0, T1, T2, T3, T4, T5, T6, T7, T8)
{
    open spec fn spec_borrows(&self, out: (&'a mut T5, &'a mut T6, &'a mut T7)) -> bool {
        &&& *out.0 == self.5
        &&& *out.1 == self.6
        &&& *out.2 == self.7
    }

    open spec fn spec_keeps(&self, after: (T0, T1, T2, T3, T4, T5, T6, T7, T8)) -> bool {
        &&& after.0 == self.0
        &&& after.1 == self.1
        &&& after.2 == self.2
        &&& after.3 == self.3
        &&& after.4 == self.4
        &&& after.8 == self.8
    }

    fn extract_mut(&'a mut self) -> (r: (&'a mut T5, &'a mut T6, &'a mut T7))
        ensures
            ({
                let out: (&'a mut T5, &'a mut T6, &'a mut T7) = r;
                *final(self) == (old(self).0, old(self).1, old(self).2, old(self).3, old(self).4,
                    *final(out.0), *final(out.1), *final(out.2), old(self).8)
            }),
    {
        (&mut self.5, &mut self.6, &mut self.7)
    }

    proof fn lemma_extract_mut_len() {
    }
}

impl<'a, T0: 'a, T1: 'a, T2: 'a, T3: 'a, T4: 'a, T5: 'a, T6: 'a, T7: 'a, T8: 'a> TypedExtractMut<'a,
    5, 9, (&'a mut T5, &'a mut T6, &'a mut T7, &'a mut T8)>
    for (T0, T1, T2, T3, T4, T5, T6, T7, T8)
{
    open spec fn spec_borrows(&self, out: (&'a mut T5, &'a mut T6, &'a mut T7,
        &'a mut T8)) -> bool {
        &&& *out.0 == self.5
        &&& *out.1 == self.6
        &&& *out.2 == self.7
        &&& *out.3 == self.8
    }

    open spec fn spec_keeps(&self, after: (T0, T1, T2, T3, T4, T5, T6, T7, T8)) -> bool {
        &&& after.0 == self.0
        &&& after.1 == self.1
        &&& after.2 == self.2
        &&& after.3 == self.3
        &&& after.4 == self.4
    }

    fn extract_mut(&'a mut self) -> (r: (&'a mut T5, &'a mut T6, &'a mut T7, &'a mut T8))
        ensures
            ({
                let out: (&'a mut T5, &'a mut T6, &'a mut T7, &'a mut T8) = r;
                *final(self) == (old(self).0, old(self).1, old(self).2, old(self).3, old(self).4,
                    *final(out.0), *final(out.1), *final(out.2), *final(out.3))
            }),
    {
        (&mut self.5, &mut self.6, &mut self.7, &mut self.8)
    }

    proof fn lemma_extract_mut_len() {
    }
}

impl<'a, T0: 'a, T1: 'a, T2: 'a, T3: 'a, T4: 'a, T5: 'a, T6: 'a, T7: 'a, T8: 'a> TypedExtractMut<'a,
    6, 6, ()>
    for (T0, T1, T2, T3, T4, T5, T6, T7, T8)
{
    open spec fn spec_borrows(&self, out: ()) -> bool {
        true
    }

    open spec fn spec_keeps(&self, after: (T0, T1, T2, T3, T4, T5, T6, T7, T8)) -> bool {
        &&& after.0 == self.0
        &&& after.1 == self.1
        &&& after.2 == self.2
        &&& after.3 == self.3
        &&& after.4 == self.4
        &&& after.5 == self.5
        &&& after.6 == self.6
        &&& after.7 == self.7
        &&& after.8 == self.8
    }

    fn extract_mut(&'a mut self) -> (r: ()) {
        ()
    }

    proof fn lemma_extract_mut_len() {
    }
}

impl<'a, T0: 'a, T1: 'a, T2: 'a, T3: 'a, T4: 'a, T5: 'a, T6: 'a, T7: 'a, T8: 'a> TypedExtractMut<'a,
    6, 7, (&'a mut T6,)>
    for (T0, T1, T2, T3, T4, T5, T6, T7, T8)
{
    open spec fn spec_borrows(&self, out: (&'a mut T6,)) -> bool {
        *out.0 == self.6
    }

    open spec fn spec_keeps(&self, after: (T0, T1, T2, T3, T4, T5, T6, T7, T8)) -> bool {
        &&& after.0 == self.0
        &&& after.1 == self.1
        &&& after.2 == self.2
        &&& after.3 == self.3
        &&& after.4 == self.4
        &&& after.5 == self.5
        &&& after.7 == self.7
        &&& after.8 == self.8
    }

    fn extract_mut(&'a mut self) -> (r: (&'a mut T6,))
        ensures
            ({
                let out: (&'a mut T6,) = r;
                *final(self) == (old(self).0, old(self).1, old(self).2, old(self).3, old(self).4,
                    old(self).5, *final(out.0), old(self).7, old(self).8)
            }),
    {
        (&mut self.6,)
    }

    proof fn lemma_extract_mut_len() {
    }
}

impl<'a, T0: 'a, T1: 'a, T2: 'a, T3: 'a, T4: 'a, T5: 'a, T6: 'a, T7: 'a, T8: 'a> TypedExtractMut<'a,
    6, 8, (&'a mut T6, &'a mut T7)>
    for (T0, T1, T2, T3, T4, T5, T6, T7, T8)
{
    open spec fn spec_borrows(&self, out: (&'a mut T6, &'a mut T7)) -> bool {
        &&& *out.0 == self.6
        &&& *out.1 == self.7
    }

    open spec fn spec_keeps(&self, after: (T0, T1, T2, T3, T4, T5, T6, T7, T8)) -> bool {
        &&& after.0 == self.0
        &&& after.1 == self.1
        &&& after.2 == self.2
        &&& after.3 == self.3
        &&& after.4 == self.4
        &&& after.5 == self.5
        &&& after.8 == self.8
    }

    fn extract_mut(&'a mut self) -> (r: (&'a mut T6, &'a mut T7))
        ensures
            ({
                let out: (&'a mut T6, &'a mut T7) = r;
                *final(self) == (old(self).0, old(self).1, old(self).2, old(self).3, old(self).4,
                    old(self).5, *final(out.0), *final(out.1), old(self).8)
            }),
    {
        (&mut self.6, &mut self.7)
    }

    proof fn lemma_extract_mut_len() {
    }
}

impl<'a, T0: 'a, T1: 'a, T2: 'a, T3: 'a, T4: 'a, T5: 'a, T6: 'a, T7: 'a, T8: 'a> TypedExtractMut<'a,
    6, 9, (&'a mut T6, &'a mut T7, &'a mut T8)>
    for (T0, T1, T2, T3, T4, T5, T6, T7, T8)
{
    open spec fn spec_borrows(&self, out: (&'a mut T6, &'a mut T7, &'a mut T8)) -> bool {
        &&& *out.0 == self.6
        &&& *out.1 == self.7
        &&& *out.2 == self.8
    }

    open spec fn spec_keeps(&self, after: (T0, T1, T2, T3, T4, T5, T6, T7, T8)) -> bool {
        &&& after.0 == self.0
        &&& after.1 == self.1
        &&& after.2 == self.2
        &&& after.3 == self.3
        &&& after.4 == self.4
        &&& after.5 == self.5
    }

    fn extract_mut(&'a mut self) -> (r: (&'a mut T6, &'a mut T7, &'a mut T8))
        ensures
            ({
                let out: (&'a mut T6, &'a mut T7, &'a mut T8) = r;
                *final(self) == (old(self).0, old(self).1, old(self).2, old(self).3, old(self).4,
                    old(self).5, *final(out.0), *final(out.1), *final(out.2))
            }),
    {
        (&mut self.6, &mut self.7, &mut self.8)
    }

    proof fn lemma_extract_mut_len() {
    }
}

impl<'a, T0: 'a, T1: 'a, T2: 'a, T3: 'a, T4: 'a, T5: 'a, T6: 'a, T7: 'a, T8: 'a> TypedExtractMut<'a,
    7, 7, ()>
    for (T0, T1, T2, T3, T4, T5, T6, T7, T8)
{
    open spec fn spec_borrows(&self, out: ()) -> bool {
        true
    }

    open spec fn spec_keeps(&self, after: (T0, T1, T2, T3, T4, T5, T6, T7, T8)) -> bool {
        &&& after.0 == self.0
        &&& after.1 == self.1
        &&& after.2 == self.2
        &&& after.3 == self.3
        &&& after.4 == self.4
        &&& after.5 == self.5
        &&& after.6 == self.6
        &&& after.7 == self.7
        &&& after.8 == self.8
    }

    fn extract_mut(&'a mut self) -> (r: ()) {
        ()
    }

    proof fn lemma_extract_mut_len() {
    }
}

impl<'a, T0: 'a, T1: 'a, T2: 'a, T3: 'a, T4: 'a, T5: 'a, T6: 'a, T7: 'a, T8: 'a> TypedExtractMut<'a,
    7, 8, (&'a mut T7,)>
    for (T0, T1, T2, T3, T4, T5, T6, T7, T8)
{
    open spec fn spec_borrows(&self, out: (&'a mut T7,)) -> bool {
        *out.0 == self.7
    }

    open spec fn spec_keeps(&self, after: (T0, T1, T2, T3, T4, T5, T6, T7, T8)) -> bool {
        &&& after.0 == self.0
        &&& after.1 == self.1
        &&& after.2 == self.2
        &&& after.3 == self.3
        &&& after.4 == self.4
        &&& after.5 == self.5
        &&& after.6 == self.6
        &&& after.8 == self.8
    }

    fn extract_mut(&'a mut self) -> (r: (&'a mut T7,))
        ensures
            ({
                let out: (&'a mut T7,) = r;
                *final(self) == (old(self).0, old(self).1, old(self).2, old(self).3, old(self).4,
                    old(self).5, old(self).6, *final(out.0), old(self).8)
            }),
    {
        (&mut self.7,)
    }

    proof fn lemma_extract_mut_len() {
    }
}

impl<'a, T0: 'a, T1: 'a, T2: 'a, T3: 'a, T4: 'a, T5: 'a, T6: 'a, T7: 'a, T8: 'a> TypedExtractMut<'a,
    7, 9, (&'a mut T7, &'a mut T8)>
    for (T0, T1, T2, T3, T4, T5, T6, T7, T8)
{
    open spec fn spec_borrows(&self, out: (&'a mut T7, &'a mut T8)) -> bool {
        &&& *out.0 == self.7
        &&& *out.1 == self.8
    }

    open spec fn spec_keeps(&self, after: (T0, T1, T2, T3, T4, T5, T6, T7, T8)) -> bool {
        &&& after.0 == self.0
        &&& after.1 == self.1
        &&& after.2 == self.2
        &&& after.3 == self.3
        &&& after.4 == self.4
        &&& after.5 == self.5
        &&& after.6 == self.6
    }

    fn extract_mut(&'a mut self) -> (r: (&'a mut T7, &'a mut T8))
        ensures
            ({
                let out: (&'a mut T7, &'a mut T8) = r;
                *final(self) == (old(self).0, old(self).1, old(self).2, old(self).3, old(self).4,
                    old(self).5, old(self).6, *final(out.0), *final(out.1))
            }),
    {
        (&mut self.7, &mut self.8)
    }

    proof fn lemma_extract_mut_len() {
    }
}

impl<'a, T0: 'a, T1: 'a, T2: 'a, T3: 'a, T4: 'a, T5: 'a, T6: 'a, T7: 'a, T8: 'a> TypedExtractMut<'a,
    8, 8, ()>
    for (T0, T1, T2, T3, T4, T5, T6, T7, T8)
{
    open spec fn spec_borrows(&self, out: ()) -> bool {
        true
    }

    open spec fn spec_keeps(&self, after: (T0, T1, T2, T3, T4, T5, T6, T7, T8)) -> bool {
        &&& after.0 == self.0
        &&& after.1 == self.1
        &&& after.2 == self.2
        &&& after.3 == self.3
        &&& after.4 == self.4
        &&& after.5 == self.5
        &&& after.6 == self.6
        &&& after.7 == self.7
        &&& after.8 == self.8
    }

    fn extract_mut(&'a mut self) -> (r: ()) {
        ()
    }

    proof fn lemma_extract_mut_len() {
    }
}

impl<'a, T0: 'a, T1: 'a, T2: 'a, T3: 'a, T4: 'a, T5: 'a, T6: 'a, T7: 'a, T8: 'a> TypedExtractMut<'a,
    8, 9, (&'a mut T8,)>
    for (T0, T1, T2, T3, T4, T5, T6, T7, T8)
{
    open spec fn spec_borrows(&self, out: (&'a mut T8,)) -> bool {
        *out.0 == self.8
    }

    open spec fn spec_keeps(&self, after: (T0, T1, T2, T3, T4, T5, T6, T7, T8)) -> bool {
        &&& after.0 == self.0
        &&& after.1 == self.1
        &&& after.2 == self.2
        &&& after.3 == self.3
        &&& after.4 == self.4
        &&& after.5 == self.5
        &&& after.6 == self.6
        &&& after.7 == self.7
    }

    fn extract_mut(&'a mut self) -> (r: (&'a mut T8,))
        ensures
            ({
                let out: (&'a mut T8,) = r;
                *final(self) == (old(self).0, old(self).1, old(self).2, old(self).3, old(self).4,
                    old(self).5, old(self).6, old(self).7, *final(out.0))
            }),
    {
        (&mut self.8,)
    }

    proof fn lemma_extract_mut_len() {
    }
}

impl<'a, T0: 'a, T1: 'a, T2: 'a, T3: 'a, T4: 'a, T5: 'a, T6: 'a, T7: 'a, T8: 'a,
    T9: 'a> TypedExtractMut<'a, 0, 0, ()>
    for (T0, T1, T2, T3, T4, T5, T6, T7, T8, T9)
{
    open spec fn spec_borrows(&self, out: ()) -> bool {
        true
    }

    open spec fn spec_keeps(&self, after: (T0, T1, T2, T3, T4, T5, T6, T7, T8, T9)) -> bool {
        &&& after.0 == self.0
        &&& after.1 == self.1
        &&& after.2 == self.2
        &&& after.3 == self.3
        &&& after.4 == self.4
        &&& after.5 == self.5
        &&& after.6 == self.6
        &&& after.7 == self.7
        &&& after.8 == self.8
        &&& after.9 == self.9
    }

    fn extract_mut(&'a mut self) -> (r: ()) {
        ()
    }

    proof fn lemma_extract_mut_len() {
    }
}

impl<'a, T0: 'a, T1: 'a, T2: 'a, T3: 'a, T4: 'a, T5: 'a, T6: 'a, T7: 'a, T8: 'a,
    T9: 'a> TypedExtractMut<'a, 0, 1, (&'a mut T0,)>
    for (T0, T1, T2, T3, T4, T5, T6, T7, T8, T9)
{
    open spec fn spec_borrows(&self, out: (&'a mut T0,)) -> bool {
        *out.0 == self.0
    }

    open spec fn spec_keeps(&self, after: (T0, T1, T2, T3, T4, T5, T6, T7, T8, T9)) -> bool {
        &&& after.1 == self.1
        &&& after.2 == self.2
        &&& after.3 == self.3
        &&& after.4 == self.4
        &&& after.5 == self.5
        &&& after.6 == self.6
        &&& after.7 == self.7
        &&& after.8 == self.8
        &&& after.9 == self.9
    }

    fn extract_mut(&'a mut self) -> (r: (&'a mut T0,))
        ensures
            ({
                let out: (&'a mut T0,) = r;
                *final(self) == (*final(out.0), old(self).1, old(self).2, old(self).3, old(self).4,
                    old(self).5, old(self).6, old(self).7, old(self).8, old(self).9)
            }),
    {
        (&mut self.0,)
    }

    proof fn lemma_extract_mut_len() {
    }
}

impl<'a, T0: 'a, T1: 'a, T2: 'a, T3: 'a, T4: 'a, T5: 'a, T6: 'a, T7: 'a, T8: 'a,
    T9: 'a> TypedExtractMut<'a, 0, 2, (&'a mut T0, &'a mut T1)>
    for (T0, T1, T2, T3, T4, T5, T6, T7, T8, T9)
{
    open spec fn spec_borrows(&self, out: (&'a mut T0, &'a mut T1)) -> bool {
        &&& *out.0 == self.0
        &&& *out.1 == self.1
    }

    open spec fn spec_keeps(&self, after: (T0, T1, T2, T3, T4, T5, T6, T7, T8, T9)) -> bool {
        &&& after.2 == self.2
        &&& after.3 == self.3
        &&& after.4 == self.4
        &&& after.5 == self.5
        &&& after.6 == self.6
        &&& after.7 == self.7
        &&& after.8 == self.8
        &&& after.9 == self.9
    }

    fn extract_mut(&'a mut self) -> (r: (&'a mut T0, &'a mut T1))
        ensures
            ({
                let out: (&'a mut T0, &'a mut T1) = r;
                *final(self) == (*final(out.0), *final(out.1), old(self).2, old(self).3,
                    old(self).4, old(self).5, old(self).6, old(self).7, old(self).8, old(self).9)
            }),
    {
        (&mut self.0, &mut self.1)
    }

    proof fn lemma_extract_mut_len() {
    }
}

impl<'a, T0: 'a, T1: 'a, T2: 'a, T3: 'a, T4: 'a, T5: 'a, T6: 'a, T7: 'a, T8: 'a,
    T9: 'a> TypedExtractMut<'a, 0, 3, (&'a mut T0, &'a mut T1, &'a mut T2)>
    for (T0, T1, T2, T3, T4, T5, T6, T7, T8, T9)
{
    open spec fn spec_borrows(&self, out: (&'a mut T0, &'a mut T1, &'a mut T2)) -> bool {
        &&& *out.0 == self.0
        &&& *out.1 == self.1
        &&& *out.2 == self.2
    }

    open spec fn spec_keeps(&self, after: (T0, T1, T2, T3, T4, T5, T6, T7, T8, T9)) -> bool {
        &&& after.3 == self.3
        &&& after.4 == self.4
        &&& after.5 == self.5
        &&& after.6 == self.6
        &&& after.7 == self.7
        &&& after.8 == self.8
        &&& after.9 == self.9
    }

    fn extract_mut(&'a mut self) -> (r: (&'a mut T0, &'a mut T1, &'a mut T2))
        ensures
            ({
                let out: (&'a mut T0, &'a mut T1, &'a mut T2) = r;
                *final(self) == (*final(out.0), *final(out.1), *final(out.2), old(self).3,
                    old(self).4, old(self).5, old(self).6, old(self).7, old(self).8, old(self).9)
            }),
    {
        (&mut self.0, &mut self.1, &mut self.2)
    }

    proof fn lemma_extract_mut_len() {
    }
}

impl<'a, T0: 'a, T1: 'a, T2: 'a, T3: 'a, T4: 'a, T5: 'a, T6: 'a, T7: 'a, T8: 'a,
    T9: 'a> TypedExtractMut<'a, 0, 4, (&'a mut T0, &'a mut T1, &'a mut T2, &'a mut T3)>
    for (T0, T1, T2, T3, T4, T5, T6, T7, T8, T9)
{
    open spec fn spec_borrows(&self, out: (&'a mut T0, &'a mut T1, &'a mut T2,
        &'a mut T3)) -> bool {
        &&& *out.0 == self.0
        &&& *out.1 == self.1
        &&& *out.2 == self.2
        &&& *out.3 == self.3
    }

    open spec fn spec_keeps(&self, after: (T0, T1, T2, T3, T4, T5, T6, T7, T8, T9)) -> bool {
        &&& after.4 == self.4
        &&& after.5 == self.5
        &&& after.6 == self.6
        &&& after.7 == self.7
        &&& after.8 == self.8
        &&& after.9 == self.9
    }

    fn extract_mut(&'a mut self) -> (r: (&'a mut T0, &'a mut T1, &'a mut T2, &'a mut T3))
        ensures
            ({
                let out: (&'a mut T0, &'a mut T1, &'a mut T2, &'a mut T3) = r;
                *final(self) == (*final(out.0), *final(out.1), *final(out.2), *final(out.3),
                    old(self).4, old(self).5, old(self).6, old(self).7, old(self).8, old(self).9)
            }),
    {
        (&mut self.0, &mut self.1, &mut self.2, &mut self.3)
    }

    proof fn lemma_extract_mut_len() {
    }
}

impl<'a, T0: 'a, T1: 'a, T2: 'a, T3: 'a, T4: 'a, T5: 'a, T6: 'a, T7: 'a, T8: 'a,
    T9: 'a> TypedExtractMut<'a, 0, 5, (&'a mut T0, &'a mut T1, &'a mut T2, &'a mut T3, &'a mut T4)>
    for (T0, T1, T2, T3, T4, T5, T6, T7, T8, T9)
{
    open spec fn spec_borrows(&self, out: (&'a mut T0, &'a mut T1, &'a mut T2, &'a mut T3,
        &'a mut T4)) -> bool {
        &&& *out.0 == self.0
        &&& *out.1 == self.1
        &&& *out.2 == self.2
        &&& *out.3 == self.3
        &&& *out.4 == self.4
    }

    open spec fn spec_keeps(&self, after: (T0, T1, T2, T3, T4, T5, T6, T7, T8, T9)) -> bool {
        &&& after.5 == self.5
        &&& after.6 == self.6
        &&& after.7 == self.7
        &&& after.8 == self.8
        &&& after.9 == self.9
    }

    fn extract_mut(&'a mut self) -> (r: (&'a mut T0, &'a mut T1, &'a mut T2, &'a mut T3,
        &'a mut T4))
        ensures
            ({
                let out: (&'a mut T0, &'a mut T1, &'a mut T2, &'a mut T3, &'a mut T4) = r;
                *final(self) == (*final(out.0), *final(out.1), *final(out.2), *final(out.3),
                    *final(out.4), old(self).5, old(self).6, old(self).7, old(self).8, old(self).9)
            }),
    {
        (&mut self.0, &mut self.1, &mut self.2, &mut self.3, &mut self.4)
    }

    proof fn lemma_extract_mut_len() {
    }
}

impl<'a, T0: 'a, T1: 'a, T2: 'a, T3: 'a, T4: 'a, T5: 'a, T6: 'a, T7: 'a, T8: 'a,
    T9: 'a> TypedExtractMut<'a, 0, 6, (&'a mut T0, &'a mut T1, &'a mut T2, &'a mut T3, &'a mut T4,
    &'a mut T5)>
    for (T0, T1, T2, T3, T4, T5, T6, T7, T8, T9)
{
    open spec fn spec_borrows(&self, out: (&'a mut T0, &'a mut T1, &'a mut T2, &'a mut T3,
        &'a mut T4, &'a mut T5)) -> bool {
        &&& *out.0 == self.0
        &&& *out.1 == self.1
        &&& *out.2 == self.2
        &&& *out.3 == self.3
        &&& *out.4 == self.4
        &&& *out.5 == self.5
    }

    open spec fn spec_keeps(&self, after: (T0, T1, T2, T3, T4, T5, T6, T7, T8, T9)) -> bool {
        &&& after.6 == self.6
        &&& after.7 == self.7
        &&& after.8 == self.8
        &&& after.9 == self.9
    }

    fn extract_mut(&'a mut self) -> (r: (&'a mut T0, &'a mut T1, &'a mut T2, &'a mut T3, &'a mut T4,
        &'a mut T5))
        ensures
            ({
                let out: (&'a mut T0, &'a mut T1, &'a mut T2, &'a mut T3, &'a mut T4,
                    &'a mut T5) = r;
                *final(self) == (*final(out.0), *final(out.1), *final(out.2), *final(out.3),
                    *final(out.4), *final(out.5), old(self).6, old(self).7, old(self).8,
                    old(self).9)
            }),
    {
        (&mut self.0, &mut self.1, &mut self.2, &mut self.3, &mut self.4, &mut self.5)
    }

    proof fn lemma_extract_mut_len() {
    }
}

impl<'a, T0: 'a, T1: 'a, T2: 'a, T3: 'a, T4: 'a, T5: 'a, T6: 'a, T7: 'a, T8: 'a,
    T9: 'a> TypedExtractMut<'a, 0, 7, (&'a mut T0, &'a mut T1, &'a mut T2, &'a mut T3, &'a mut T4,
    &'a mut T5, &'a mut T6)>
    for (T0, T1, T2, T3, T4, T5, T6, T7, T8, T9)
{
    open spec fn spec_borrows(&self, out: (&'a mut T0, &'a mut T1, &'a mut T2, &'a mut T3,
        &'a mut T4, &'a mut T5, &'a mut T6)) -> bool {
        &&& *out.0 == self.0
        &&& *out.1 == self.1
        &&& *out.2 == self.2
        &&& *out.3 == self.3
        &&& *out.4 == self.4
        &&& *out.5 == self.5
        &&& *out.6 == self.6
    }

    open spec fn spec_keeps(&self, after: (T0, T1, T2, T3, T4, T5, T6, T7, T8, T9)) -> bool {
        &&& after.7 == self.7
        &&& after.8 == self.8
        &&& after.9 == self.9
    }

    fn extract_mut(&'a mut self) -> (r: (&'a mut T0, &'a mut T1, &'a mut T2, &'a mut T3, &'a mut T4,
        &'a mut T5, &'a mut T6))
        ensures
            ({
                let out: (&'a mut T0, &'a mut T1, &'a mut T2, &'a mut T3, &'a mut T4, &'a mut T5,
                    &'a mut T6) = r;
                *final(self) == (*final(out.0), *final(out.1), *final(out.2), *final(out.3),
                    *final(out.4), *final(out.5), *final(out.6), old(self).7, old(self).8,
                    old(self).9)
            }),
    {
        (&mut self.0, &mut self.1, &mut self.2, &mut self.3, &mut self.4, &mut self.5, &mut self.6)
    }

    proof fn lemma_extract_mut_len() {
    }
}

impl<'a, T0: 'a, T1: 'a, T2: 'a, T3: 'a, T4: 'a, T5: 'a, T6: 'a, T7: 'a, T8: 'a,
    T9: 'a> TypedExtractMut<'a, 0, 8, (&'a mut T0, &'a mut T1, &'a mut T2, &'a mut T3, &'a mut T4,
    &'a mut T5, &'a mut T6, &'a mut T7)>
    for (T0, T1, T2, T3, T4, T5, T6, T7, T8, T9)
{
    open spec fn spec_borrows(&self, out: (&'a mut T0, &'a mut T1, &'a mut T2, &'a mut T3,
        &'a mut T4, &'a mut T5, &'a mut T6, &'a mut T7)) -> bool {
        &&& *out.0 == self.0
        &&& *out.1 == self.1
        &&& *out.2 == self.2
        &&& *out.3 == self.3
        &&& *out.4 == self.4
        &&& *out.5 == self.5
        &&& *out.6 == self.6
        &&& *out.7 == self.7
    }

    open spec fn spec_keeps(&self, after: (T0, T1, T2, T3, T4, T5, T6, T7, T8, T9)) -> bool {
        &&& after.8 == self.8
        &&& after.9 == self.9
    }

    fn extract_mut(&'a mut self) -> (r: (&'a mut T0, &'a mut T1, &'a mut T2, &'a mut T3, &'a mut T4,
        &'a mut T5, &'a mut T6, &'a mut T7))
        ensures
            ({
                let out: (&'a mut T0, &'a mut T1, &'a mut T2, &'a mut T3, &'a mut T4, &'a mut T5,
                    &'a mut T6, &'a mut T7) = r;
                *final(self) == (*final(out.0), *final(out.1), *final(out.2), *final(out.3),
                    *final(out.4), *final(out.5), *final(out.6), *final(out.7), old(self).8,
                    old(self).9)
            }),
    {
        (&mut self.0, &mut self.1, &mut self.2, &mut self.3, &mut self.4, &mut self.5, &mut self.6,
            &mut self.7)
    }

    proof fn lemma_extract_mut_len() {
    }
}

impl<'a, T0: 'a, T1: 'a, T2: 'a, T3: 'a, T4: 'a, T5: 'a, T6: 'a, T7: 'a, T8: 'a,
    T9: 'a> TypedExtractMut<'a, 0, 9, (&'a mut T0, &'a mut T1, &'a mut T2, &'a mut T3, &'a mut T4,
    &'a mut T5, &'a mut T6, &'a mut T7, &'a mut T8)>
    for (T0, T1, T2, T3, T4, T5, T6, T7, T8, T9)
{
    open spec fn spec_borrows(&self, out: (&'a mut T0, &'a mut T1, &'a mut T2, &'a mut T3,
        &'a mut T4, &'a mut T5, &'a mut T6, &'a mut T7, &'a mut T8)) -> bool {
        &&& *out.0 == self.0
        &&& *out.1 == self.1
        &&& *out.2 == self.2
        &&& *out.3 == self.3
        &&& *out.4 == self.4
        &&& *out.5 == self.5
        &&& *out.6 == self.6
        &&& *out.7 == self.7
        &&& *out.8 == self.8
    }

    open spec fn spec_keeps(&self, after: (T0, T1, T2, T3, T4, T5, T6, T7, T8, T9)) -> bool {
        after.9 == self.9
    }

    fn extract_mut(&'a mut self) -> (r: (&'a mut T0, &'a mut T1, &'a mut T2, &'a mut T3, &'a mut T4,
        &'a mut T5, &'a mut T6, &'a mut T7, &'a mut T8))
        ensures
            ({
                let out: (&'a mut T0, &'a mut T1, &'a mut T2, &'a mut T3, &'a mut T4, &'a mut T5,
                    &'a mut T6, &'a mut T7, &'a mut T8) = r;
                *final(self) == (*final(out.0), *final(out.1), *final(out.2), *final(out.3),
                    *final(out.4), *final(out.5), *final(out.6), *final(out.7), *final(out.8),
                    old(self).9)
            }),
    {
        (&mut self.0, &mut self.1, &mut self.2, &mut self.3, &mut self.4, &mut self.5, &mut self.6,
            &mut self.7, &mut self.8)
    }

    proof fn lemma_extract_mut_len() {
    }
}

impl<'a, T0: 'a, T1: 'a, T2: 'a, T3: 'a, T4: 'a, T5: 'a, T6: 'a, T7: 'a, T8: 'a,
    T9: 'a> TypedExtractMut<'a, 0, 10, (&'a mut T0, &'a mut T1, &'a mut T2, &'a mut T3, &'a mut T4,
    &'a mut T5, &'a mut T6, &'a mut T7, &'a mut T8, &'a mut T9)>
    for (T0, T1, T2, T3, T4, T5, T6, T7, T8, T9)
{
    open spec fn spec_borrows(&self, out: (&'a mut T0, &'a mut T1, &'a mut T2, &'a mut T3,
        &'a mut T4, &'a mut T5, &'a mut T6, &'a mut T7, &'a mut T8, &'a mut T9)) -> bool {
        &&& *out.0 == self.0
        &&& *out.1 == self.1
        &&& *out.2 == self.2
        &&& *out.3 == self.3
        &&& *out.4 == self.4
        &&& *out.5 == self.5
        &&& *out.6 == self.6
        &&& *out.7 == self.7
        &&& *out.8 == self.8
        &&& *out.9 == self.9
    }

    open spec fn spec_keeps(&self, after: (T0, T1, T2, T3, T4, T5, T6, T7, T8, T9)) -> bool {
        true
    }

    fn extract_mut(&'a mut self) -> (r: (&'a mut T0, &'a mut T1, &'a mut T2, &'a mut T3, &'a mut T4,
        &'a mut T5, &'a mut T6, &'a mut T7, &'a mut T8, &'a mut T9))
        ensures
            ({
                let out: (&'a mut T0, &'a mut T1, &'a mut T2, &'a mut T3, &'a mut T4, &'a mut T5,
                    &'a mut T6, &'a mut T7, &'a mut T8, &'a mut T9) = r;
                *final(self) == (*final(out.0), *final(out.1), *final(out.2), *final(out.3),
                    *final(out.4), *final(out.5), *final(out.6), *final(out.7), *final(out.8),
                    *final(out.9))
            }),
    {
        (&mut self.0, &mut self.1, &mut self.2, &mut self.3, &mut self.4, &mut self.5, &mut self.6,
            &mut self.7, &mut self.8, &mut self.9)
    }

    proof fn lemma_extract_mut_len() {
    }
}

impl<'a, T0: 'a, T1: 'a, T2: 'a, T3: 'a, T4: 'a, T5: 'a, T6: 'a, T7: 'a, T8: 'a,
    T9: 'a> TypedExtractMut<'a, 1, 1, ()>
    for (T0, T1, T2, T3, T4, T5, T6, T7, T8, T9)
{
    open spec fn spec_borrows(&self, out: ()) -> bool {
        true
    }

    open spec fn spec_keeps(&self, after: (T0, T1, T2, T3, T4, T5, T6, T7, T8, T9)) -> bool {
        &&& after.0 == self.0
        &&& after.1 == self.1
        &&& after.2 == self.2
        &&& after.3 == self.3
        &&& after.4 == self.4
        &&& after.5 == self.5
        &&& after.6 == self.6
        &&& after.7 == self.7
        &&& after.8 == self.8
        &&& after.9 == self.9
    }

    fn extract_mut(&'a mut self) -> (r: ()) {
        ()
    }

    proof fn lemma_extract_mut_len() {
    }
}

impl<'a, T0: 'a, T1: 'a, T2: 'a, T3: 'a, T4: 'a, T5: 'a, T6: 'a, T7: 'a, T8: 'a,
    T9: 'a> TypedExtractMut<'a, 1, 2, (&'a mut T1,)>
    for (T0, T1, T2, T3, T4, T5, T6, T7, T8, T9)
{
    open spec fn spec_borrows(&self, out: (&'a mut T1,)) -> bool {
        *out.0 == self.1
    }

    open spec fn spec_keeps(&self, after: (T0, T1, T2, T3, T4, T5, T6, T7, T8, T9)) -> bool {
        &&& after.0 == self.0
        &&& after.2 == self.2
        &&& after.3 == self.3
        &&& after.4 == self.4
        &&& after.5 == self.5
        &&& after.6 == self.6
        &&& after.7 == self.7
        &&& after.8 == self.8
        &&& after.9 == self.9
    }

    fn extract_mut(&'a mut self) -> (r: (&'a mut T1,))
        ensures
            ({
                let out: (&'a mut T1,) = r;
                *final(self) == (old(self).0, *final(out.0), old(self).2, old(self).3, old(self).4,
                    old(self).5, old(self).6, old(self).7, old(self).8, old(self).9)
            }),
    {
        (&mut self.1,)
    }

    proof fn lemma_extract_mut_len() {
    }
}

impl<'a, T0: 'a, T1: 'a, T2: 'a, T3: 'a, T4: 'a, T5: 'a, T6: 'a, T7: 'a, T8: 'a,
    T9: 'a> TypedExtractMut<'a, 1, 3, (&'a mut T1, &'a mut T2)>
    for (T0, T1, T2, T3, T4, T5, T6, T7, T8, T9)
{
    open spec fn spec_borrows(&self, out: (&'a mut T1, &'a mut T2)) -> bool {
        &&& *out.0 == self.1
        &&& *out.1 == self.2
    }

    open spec fn spec_keeps(&self, after: (T0, T1, T2, T3, T4, T5, T6, T7, T8, T9)) -> bool {
        &&& after.0 == self.0
        &&& after.3 == self.3
        &&& after.4 == self.4
        &&& after.5 == self.5
        &&& after.6 == self.6
        &&& after.7 == self.7
        &&& after.8 == self.8
        &&& after.9 == self.9
    }

    fn extract_mut(&'a mut self) -> (r: (&'a mut T1, &'a mut T2))
        ensures
            ({
                let out: (&'a mut T1, &'a mut T2) = r;
                *final(self) == (old(self).0, *final(out.0), *final(out.1), old(self).3,
                    old(self).4, old(self).5, old(self).6, old(self).7, old(self).8, old(self).9)
            }),
    {
        (&mut self.1, &mut self.2)
    }

    proof fn lemma_extract_mut_len() {
    }
}

impl<'a, T0: 'a, T1: 'a, T2: 'a, T3: 'a, T4: 'a, T5: 'a, T6: 'a, T7: 'a, T8: 'a,
    T9: 'a> TypedExtractMut<'a, 1, 4, (&'a mut T1, &'a mut T2, &'a mut T3)>
    for (T0, T1, T2, T3, T4, T5, T6, T7, T8, T9)
{
    open spec fn spec_borrows(&self, out: (&'a mut T1, &'a mut T2, &'a mut T3)) -> bool {
        &&& *out.0 == self.1
        &&& *out.1 == self.2
        &&& *out.2 == self.3
    }

    open spec fn spec_keeps(&self, after: (T0, T1, T2, T3, T4, T5, T6, T7, T8, T9)) -> bool {
        &&& after.0 == self.0
        &&& after.4 == self.4
        &&& after.5 == self.5
        &&& after.6 == self.6
        &&& after.7 == self.7
        &&& after.8 == self.8
        &&& after.9 == self.9
    }

    fn extract_mut(&'a mut self) -> (r: (&'a mut T1, &'a mut T2, &'a mut T3))
        ensures
            ({
                let out: (&'a mut T1, &'a mut T2, &'a mut T3) = r;
                *final(self) == (old(self).0, *final(out.0), *final(out.1), *final(out.2),
                    old(self).4, old(self).5, old(self).6, old(self).7, old(self).8, old(self).9)
            }),
    {
        (&mut self.1, &mut self.2, &mut self.3)
    }

    proof fn lemma_extract_mut_len() {
    }
}

impl<'a, T0: 'a, T1: 'a, T2: 'a, T3: 'a, T4: 'a, T5: 'a, T6: 'a, T7: 'a, T8: 'a,
    T9: 'a> TypedExtractMut<'a, 1, 5, (&'a mut T1, &'a mut T2, &'a mut T3, &'a mut T4)>
    for (T0, T1, T2, T3, T4, T5, T6, T7, T8, T9)
{
    open spec fn spec_borrows(&self, out: (&'a mut T1, &'a mut T2, &'a mut T3,
        &'a mut T4)) -> bool {
        &&& *out.0 == self.1
        &&& *out.1 == self.2
        &&& *out.2 == self.3
        &&& *out.3 == self.4
    }

    open spec fn spec_keeps(&self, after: (T0, T1, T2, T3, T4, T5, T6, T7, T8, T9)) -> bool {
        &&& after.0 == self.0
        &&& after.5 == self.5
        &&& after.6 == self.6
        &&& after.7 == self.7
        &&& after.8 == self.8
        &&& after.9 == self.9
    }

    fn extract_mut(&'a mut self) -> (r: (&'a mut T1, &'a mut T2, &'a mut T3, &'a mut T4))
        ensures
            ({
                let out: (&'a mut T1, &'a mut T2, &'a mut T3, &'a mut T4) = r;
                *final(self) == (old(self).0, *final(out.0), *final(out.1), *final(out.2),
                    *final(out.3), old(self).5, old(self).6, old(self).7, old(self).8, old(self).9)
            }),
    {
        (&mut self.1, &mut self.2, &mut self.3, &mut self.4)
    }

    proof fn lemma_extract_mut_len() {
    }
}

impl<'a, T0: 'a, T1: 'a, T2: 'a, T3: 'a, T4: 'a, T5: 'a, T6: 'a, T7: 'a, T8: 'a,
    T9: 'a> TypedExtractMut<'a, 1, 6, (&'a mut T1, &'a mut T2, &'a mut T3, &'a mut T4, &'a mut T5)>
    for (T0, T1, T2, T3, T4, T5, T6, T7, T8, T9)
{
    open spec fn spec_borrows(&self, out: (&'a mut T1, &'a mut T2, &'a mut T3, &'a mut T4,
        &'a mut T5)) -> bool {
        &&& *out.0 == self.1
        &&& *out.1 == self.2
        &&& *out.2 == self.3
        &&& *out.3 == self.4
        &&& *out.4 == self.5
    }

    open spec fn spec_keeps(&self, after: (T0, T1, T2, T3, T4, T5, T6, T7, T8, T9)) -> bool {
        &&& after.0 == self.0
        &&& after.6 == self.6
        &&& after.7 == self.7
        &&& after.8 == self.8
        &&& after.9 == self.9
    }

    fn extract_mut(&'a mut self) -> (r: (&'a mut T1, &'a mut T2, &'a mut T3, &'a mut T4,
        &'a mut T5))
        ensures
            ({
                let out: (&'a mut T1, &'a mut T2, &'a mut T3, &'a mut T4, &'a mut T5) = r;
                *final(self) == (old(self).0, *final(out.0), *final(out.1), *final(out.2),
                    *final(out.3), *final(out.4), old(self).6, old(self).7, old(self).8,
                    old(self).9)
            }),
    {
        (&mut self.1, &mut self.2, &mut self.3, &mut self.4, &mut self.5)
    }

    proof fn lemma_extract_mut_len() {
    }
}

impl<'a, T0: 'a, T1: 'a, T2: 'a, T3: 'a, T4: 'a, T5: 'a, T6: 'a, T7: 'a, T8: 'a,
    T9: 'a> TypedExtractMut<'a, 1, 7, (&'a mut T1, &'a mut T2, &'a mut T3, &'a mut T4, &'a mut T5,
    &'a mut T6)>
    for (T0, T1, T2, T3, T4, T5, T6, T7, T8, T9)
{
    open spec fn spec_borrows(&self, out: (&'a mut T1, &'a mut T2, &'a mut T3, &'a mut T4,
        &'a mut T5, &'a mut T6)) -> bool {
        &&& *out.0 == self.1
        &&& *out.1 == self.2
        &&& *out.2 == self.3
        &&& *out.3 == self.4
        &&& *out.4 == self.5
        &&& *out.5 == self.6
    }

    open spec fn spec_keeps(&self, after: (T0, T1, T2, T3, T4, T5, T6, T7, T8, T9)) -> bool {
        &&& after.0 == self.0
        &&& after.7 == self.7
        &&& after.8 == self.8
        &&& after.9 == self.9
    }

    fn extract_mut(&'a mut self) -> (r: (&'a mut T1, &'a mut T2, &'a mut T3, &'a mut T4, &'a mut T5,
        &'a mut T6))
        ensures
            ({
                let out: (&'a mut T1, &'a mut T2, &'a mut T3, &'a mut T4, &'a mut T5,
                    &'a mut T6) = r;
                *final(self) == (old(self).0, *final(out.0), *final(out.1), *final(out.2),
                    *final(out.3), *final(out.4), *final(out.5), old(self).7, old(self).8,
                    old(self).9)
            }),
    {
        (&mut self.1, &mut self.2, &mut self.3, &mut self.4, &mut self.5, &mut self.6)
    }

    proof fn lemma_extract_mut_len() {
    }
}

impl<'a, T0: 'a, T1: 'a, T2: 'a, T3: 'a, T4: 'a, T5: 'a, T6: 'a, T7: 'a, T8: 'a,
    T9: 'a> TypedExtractMut<'a, 1, 8, (&'a mut T1, &'a mut T2, &'a mut T3, &'a mut T4, &'a mut T5,
    &'a mut T6, &'a mut T7)>
    for (T0, T1, T2, T3, T4, T5, T6, T7, T8, T9)
{
    open spec fn spec_borrows(&self, out: (&'a mut T1, &'a mut T2, &'a mut T3, &'a mut T4,
        &'a mut T5, &'a mut T6, &'a mut T7)) -> bool {
        &&& *out.0 == self.1
        &&& *out.1 == self.2
        &&& *out.2 == self.3
        &&& *out.3 == self.4
        &&& *out.4 == self.5
        &&& *out.5 == self.6
        &&& *out.6 == self.7
    }

    open spec fn spec_keeps(&self, after: (T0, T1, T2, T3, T4, T5, T6, T7, T8, T9)) -> bool {
        &&& after.0 == self.0
        &&& after.8 == self.8
        &&& after.9 == self.9
    }

    fn extract_mut(&'a mut self) -> (r: (&'a mut T1, &'a mut T2, &'a mut T3, &'a mut T4, &'a mut T5,
        &'a mut T6, &'a mut T7))
        ensures
            ({
                let out: (&'a mut T1, &'a mut T2, &'a mut T3, &'a mut T4, &'a mut T5, &'a mut T6,
                    &'a mut T7) = r;
                *final(self) == (old(self).0, *final(out.0), *final(out.1), *final(out.2),
                    *final(out.3), *final(out.4), *final(out.5), *final(out.6), old(self).8,
                    old(self).9)
            }),
    {
        (&mut self.1, &mut self.2, &mut self.3, &mut self.4, &mut self.5, &mut self.6, &mut self.7)
    }

    proof fn lemma_extract_mut_len() {
    }
}

impl<'a, T0: 'a, T1: 'a, T2: 'a, T3: 'a, T4: 'a, T5: 'a, T6: 'a, T7: 'a, T8: 'a,
    T9: 'a> TypedExtractMut<'a, 1, 9, (&'a mut T1, &'a mut T2, &'a mut T3, &'a mut T4, &'a mut T5,
    &'a mut T6, &'a mut T7, &'a mut T8)>
    for (T0, T1, T2, T3, T4, T5, T6, T7, T8, T9)
{
    open spec fn spec_borrows(&self, out: (&'a mut T1, &'a mut T2, &'a mut T3, &'a mut T4,
        &'a mut T5, &'a mut T6, &'a mut T7, &'a mut T8)) -> bool {
        &&& *out.0 == self.1
        &&& *out.1 == self.2
        &&& *out.2 == self.3
        &&& *out.3 == self.4
        &&& *out.4 == self.5
        &&& *out.5 == self.6
        &&& *out.6 == self.7
        &&& *out.7 == self.8
    }

    open spec fn spec_keeps(&self, after: (T0, T1, T2, T3, T4, T5, T6, T7, T8, T9)) -> bool {
        &&& after.0 == self.0
        &&& after.9 == self.9
    }

    fn extract_mut(&'a mut self) -> (r: (&'a mut T1, &'a mut T2, &'a mut T3, &'a mut T4, &'a mut T5,
        &'a mut T6, &'a mut T7, &'a mut T8))
        ensures
            ({
                let out: (&'a mut T1, &'a mut T2, &'a mut T3, &'a mut T4, &'a mut T5, &'a mut T6,
                    &'a mut T7, &'a mut T8) = r;
                *final(self) == (old(self).0, *final(out.0), *final(out.1), *final(out.2),
                    *final(out.3), *final(out.4), *final(out.5), *final(out.6), *final(out.7),
                    old(self).9)
            }),
    {
        (&mut self.1, &mut self.2, &mut self.3, &mut self.4, &mut self.5, &mut self.6, &mut self.7,
            &mut self.8)
    }

    proof fn lemma_extract_mut_len() {
    }
}

impl<'a, T0: 'a, T1: 'a, T2: 'a, T3: 'a, T4: 'a, T5: 'a, T6: 'a, T7: 'a, T8: 'a,
    T9: 'a> TypedExtractMut<'a, 1, 10, (&'a mut T1, &'a mut T2, &'a mut T3, &'a mut T4, &'a mut T5,
    &'a mut T6, &'a mut T7, &'a mut T8, &'a mut T9)>
    for (T0, T1, T2, T3, T4, T5, T6, T7, T8, T9)
{
    open spec fn spec_borrows(&self, out: (&'a mut T1, &'a mut T2, &'a mut T3, &'a mut T4,
        &'a mut T5, &'a mut T6, &'a mut T7, &'a mut T8, &'a mut T9)) -> bool {
        &&& *out.0 == self.1
        &&& *out.1 == self.2
        &&& *out.2 == self.3
        &&& *out.3 == self.4
        &&& *out.4 == self.5
        &&& *out.5 == self.6
        &&& *out.6 == self.7
        &&& *out.7 == self.8
        &&& *out.8 == self.9
    }

    open spec fn spec_keeps(&self, after: (T0, T1, T2, T3, T4, T5, T6, T7, T8, T9)) -> bool {
        after.0 == self.0
    }

    fn extract_mut(&'a mut self) -> (r: (&'a mut T1, &'a mut T2, &'a mut T3, &'a mut T4, &'a mut T5,
        &'a mut T6, &'a mut T7, &'a mut T8, &'a mut T9))
        ensures
            ({
                let out: (&'a mut T1, &'a mut T2, &'a mut T3, &'a mut T4, &'a mut T5, &'a mut T6,
                    &'a mut T7, &'a mut T8, &'a mut T9) = r;
                *final(self) == (old(self).0, *final(out.0), *final(out.1), *final(out.2),
                    *final(out.3), *final(out.4), *final(out.5), *final(out.6), *final(out.7),
                    *final(out.8))
            }),
    {
        (&mut self.1, &mut self.2, &mut self.3, &mut self.4, &mut self.5, &mut self.6, &mut self.7,
            &mut self.8, &mut self.9)
    }

    proof fn lemma_extract_mut_len() {
    }
}

impl<'a, T0: 'a, T1: 'a, T2: 'a, T3: 'a, T4: 'a, T5: 'a, T6: 'a, T7: 'a, T8: 'a,
    T9: 'a> TypedExtractMut<'a, 2, 2, ()>
    for (T0, T1, T2, T3, T4, T5, T6, T7, T8, T9)
{
    open spec fn spec_borrows(&self, out: ()) -> bool {
        true
    }

    open spec fn spec_keeps(&self, after: (T0, T1, T2, T3, T4, T5, T6, T7, T8, T9)) -> bool {
        &&& after.0 == self.0
        &&& after.1 == self.1
        &&& after.2 == self.2
        &&& after.3 == self.3
        &&& after.4 == self.4
        &&& after.5 == self.5
        &&& after.6 == self.6
        &&& after.7 == self.7
        &&& after.8 == self.8
        &&& after.9 == self.9
    }

    fn extract_mut(&'a mut self) -> (r: ()) {
        ()
    }

    proof fn lemma_extract_mut_len() {
    }
}

impl<'a, T0: 'a, T1: 'a, T2: 'a, T3: 'a, T4: 'a, T5: 'a, T6: 'a, T7: 'a, T8: 'a,
    T9: 'a> TypedExtractMut<'a, 2, 3, (&'a mut T2,)>
    for (T0, T1, T2, T3, T4, T5, T6, T7, T8, T9)
{
    open spec fn spec_borrows(&self, out: (&'a mut T2,)) -> bool {
        *out.0 == self.2
    }

    open spec fn spec_keeps(&self, after: (T0, T1, T2, T3, T4, T5, T6, T7, T8, T9)) -> bool {
        &&& after.0 == self.0
        &&& after.1 == self.1
        &&& after.3 == self.3
        &&& after.4 == self.4
        &&& after.5 == self.5
        &&& after.6 == self.6
        &&& after.7 == self.7
        &&& after.8 == self.8
        &&& after.9 == self.9
    }

    fn extract_mut(&'a mut self) -> (r: (&'a mut T2,))
        ensures
            ({
                let out: (&'a mut T2,) = r;
                *final(self) == (old(self).0, old(self).1, *final(out.0), old(self).3, old(self).4,
                    old(self).5, old(self).6, old(self).7, old(self).8, old(self).9)
            }),
    {
        (&mut self.2,)
    }

    proof fn lemma_extract_mut_len() {
    }
}

impl<'a, T0: 'a, T1: 'a, T2: 'a, T3: 'a, T4: 'a, T5: 'a, T6: 'a, T7: 'a, T8: 'a,
    T9: 'a> TypedExtractMut<'a, 2, 4, (&'a mut T2, &'a mut T3)>
    for (T0, T1, T2, T3, T4, T5, T6, T7, T8, T9)
{
    open spec fn spec_borrows(&self, out: (&'a mut T2, &'a mut T3)) -> bool {
        &&& *out.0 == self.2
        &&& *out.1 == self.3
    }

    open spec fn spec_keeps(&self, after: (T0, T1, T2, T3, T4, T5, T6, T7, T8, T9)) -> bool {
        &&& after.0 == self.0
        &&& after.1 == self.1
        &&& after.4 == self.4
        &&& after.5 == self.5
        &&& after.6 == self.6
        &&& after.7 == self.7
        &&& after.8 == self.8
        &&& after.9 == self.9
    }

    fn extract_mut(&'a mut self) -> (r: (&'a mut T2, &'a mut T3))
        ensures
            ({
                let out: (&'a mut T2, &'a mut T3) = r;
                *final(self) == (old(self).0, old(self).1, *final(out.0), *final(out.1),
                    old(self).4, old(self).5, old(self).6, old(self).7, old(self).8, old(self).9)
            }),
    {
        (&mut self.2, &mut self.3)
    }

    proof fn lemma_extract_mut_len() {
    }
}

impl<'a, T0: 'a, T1: 'a, T2: 'a, T3: 'a, T4: 'a, T5: 'a, T6: 'a, T7: 'a, T8: 'a,
    T9: 'a> TypedExtractMut<'a, 2, 5, (&'a mut T2, &'a mut T3, &'a mut T4)>
    for (T0, T1, T2, T3, T4, T5, T6, T7, T8, T9)
{
    open spec fn spec_borrows(&self, out: (&'a mut T2, &'a mut T3, &'a mut T4)) -> bool {
        &&& *out.0 == self.2
        &&& *out.1 == self.3
        &&& *out.2 == self.4
    }

    open spec fn spec_keeps(&self, after: (T0, T1, T2, T3, T4, T5, T6, T7, T8, T9)) -> bool {
        &&& after.0 == self.0
        &&& after.1 == self.1
        &&& after.5 == self.5
        &&& after.6 == self.6
        &&& after.7 == self.7
        &&& after.8 == self.8
        &&& after.9 == self.9
    }

    fn extract_mut(&'a mut self) -> (r: (&'a mut T2, &'a mut T3, &'a mut T4))
        ensures
            ({
                let out: (&'a mut T2, &'a mut T3, &'a mut T4) = r;
                *final(self) == (old(self).0, old(self).1, *final(out.0), *final(out.1),
                    *final(out.2), old(self).5, old(self).6, old(self).7, old(self).8, old(self).9)
            }),
    {
        (&mut self.2, &mut self.3, &mut self.4)
    }

    proof fn lemma_extract_mut_len() {
    }
}

impl<'a, T0: 'a, T1: 'a, T2: 'a, T3: 'a, T4: 'a, T5: 'a, T6: 'a, T7: 'a, T8: 'a,
    T9: 'a> TypedExtractMut<'a, 2, 6, (&'a mut T2, &'a mut T3, &'a mut T4, &'a mut T5)>
    for (T0, T1, T2, T3, T4, T5, T6, T7, T8, T9)
{
    open spec fn spec_borrows(&self, out: (&'a mut T2, &'a mut T3, &'a mut T4,
        &'a mut T5)) -> bool {
        &&& *out.0 == self.2
        &&& *out.1 == self.3
        &&& *out.2 == self.4
        &&& *out.3 == self.5
    }

    open spec fn spec_keeps(&self, after: (T0, T1, T2, T3, T4, T5, T6, T7, T8, T9)) -> bool {
        &&& after.0 == self.0
        &&& after.1 == self.1
        &&& after.6 == self.6
        &&& after.7 == self.7
        &&& after.8 == self.8
        &&& after.9 == self.9
    }

    fn extract_mut(&'a mut self) -> (r: (&'a mut T2, &'a mut T3, &'a mut T4, &'a mut T5))
        ensures
            ({
                let out: (&'a mut T2, &'a mut T3, &'a mut T4, &'a mut T5) = r;
                *final(self) == (old(self).0, old(self).1, *final(out.0), *final(out.1),
                    *final(out.2), *final(out.3), old(self).6, old(self).7, old(self).8,
                    old(self).9)
            }),
    {
        (&mut self.2, &mut self.3, &mut self.4, &mut self.5)
    }

    proof fn lemma_extract_mut_len() {
    }
}

impl<'a, T0: 'a, T1: 'a, T2: 'a, T3: 'a, T4: 'a, T5: 'a, T6: 'a, T7: 'a, T8: 'a,
    T9: 'a> TypedExtractMut<'a, 2, 7, (&'a mut T2, &'a mut T3, &'a mut T4, &'a mut T5, &'a mut T6)>
    for (T0, T1, T2, T3, T4, T5, T6, T7, T8, T9)
{
    open spec fn spec_borrows(&self, out: (&'a mut T2, &'a mut T3, &'a mut T4, &'a mut T5,
        &'a mut T6)) -> bool {
        &&& *out.0 == self.2
        &&& *out.1 == self.3
        &&& *out.2 == self.4
        &&& *out.3 == self.5
        &&& *out.4 == self.6
    }

    open spec fn spec_keeps(&self, after: (T0, T1, T2, T3, T4, T5, T6, T7, T8, T9)) -> bool {
        &&& after.0 == self.0
        &&& after.1 == self.1
        &&& after.7 == self.7
        &&& after.8 == self.8
        &&& after.9 == self.9
    }

    fn extract_mut(&'a mut self) -> (r: (&'a mut T2, &'a mut T3, &'a mut T4, &'a mut T5,
        &'a mut T6))
        ensures
            ({
                let out: (&'a mut T2, &'a mut T3, &'a mut T4, &'a mut T5, &'a mut T6) = r;
                *final(self) == (old(self).0, old(self).1, *final(out.0), *final(out.1),
                    *final(out.2), *final(out.3), *final(out.4), old(self).7, old(self).8,
                    old(self).9)
            }),
    {
        (&mut self.2, &mut self.3, &mut self.4, &mut self.5, &mut self.6)
    }

    proof fn lemma_extract_mut_len() {
    }
}

impl<'a, T0: 'a, T1: 'a, T2: 'a, T3: 'a, T4: 'a, T5: 'a, T6: 'a, T7: 'a, T8: 'a,
    T9: 'a> TypedExtractMut<'a, 2, 8, (&'a mut T2, &'a mut T3, &'a mut T4, &'a mut T5, &'a mut T6,
    &'a mut T7)>
    for (T0, T1, T2, T3, T4, T5, T6, T7, T8, T9)
{
    open spec fn spec_borrows(&self, out: (&'a mut T2, &'a mut T3, &'a mut T4, &'a mut T5,
        &'a mut T6, &'a mut T7)) -> bool {
        &&& *out.0 == self.2
        &&& *out.1 == self.3
        &&& *out.2 == self.4
        &&& *out.3 == self.5
        &&& *out.4 == self.6
        &&& *out.5 == self.7
    }

    open spec fn spec_keeps(&self, after: (T0, T1, T2, T3, T4, T5, T6, T7, T8, T9)) -> bool {
        &&& after.0 == self.0
        &&& after.1 == self.1
        &&& after.8 == self.8
        &&& after.9 == self.9
    }

    fn extract_mut(&'a mut self) -> (r: (&'a mut T2, &'a mut T3, &'a mut T4, &'a mut T5, &'a mut T6,
        &'a mut T7))
        ensures
            ({
                let out: (&'a mut T2, &'a mut T3, &'a mut T4, &'a mut T5, &'a mut T6,
                    &'a mut T7) = r;
                *final(self) == (old(self).0, old(self).1, *final(out.0), *final(out.1),
                    *final(out.2), *final(out.3), *final(out.4), *final(out.5), old(self).8,
                    old(self).9)
            }),
    {
        (&mut self.2, &mut self.3, &mut self.4, &mut self.5, &mut self.6, &mut self.7)
    }

    proof fn lemma_extract_mut_len() {
    }
}

impl<'a, T0: 'a, T1: 'a, T2: 'a, T3: 'a, T4: 'a, T5: 'a, T6: 'a, T7: 'a, T8: 'a,
    T9: 'a> TypedExtractMut<'a, 2, 9, (&'a mut T2, &'a mut T3, &'a mut T4, &'a mut T5, &'a mut T6,
    &'a mut T7, &'a mut T8)>
    for (T0, T1, T2, T3, T4, T5, T6, T7, T8, T9)
{
    open spec fn spec_borrows(&self, out: (&'a mut T2, &'a mut T3, &'a mut T4, &'a mut T5,
        &'a mut T6, &'a mut T7, &'a mut T8)) -> bool {
        &&& *out.0 == self.2
        &&& *out.1 == self.3
        &&& *out.2 == self.4
        &&& *out.3 == self.5
        &&& *out.4 == self.6
        &&& *out.5 == self.7
        &&& *out.6 == self.8
    }

    open spec fn spec_keeps(&self, after: (T0, T1, T2, T3, T4, T5, T6, T7, T8, T9)) -> bool {
        &&& after.0 == self.0
        &&& after.1 == self.1
        &&& after.9 == self.9
    }

    fn extract_mut(&'a mut self) -> (r: (&'a mut T2, &'a mut T3, &'a mut T4, &'a mut T5, &'a mut T6,
        &'a mut T7, &'a mut T8))
        ensures
            ({
                let out: (&'a mut T2, &'a mut T3, &'a mut T4, &'a mut T5, &'a mut T6, &'a mut T7,
                    &'a mut T8) = r;
                *final(self) == (old(self).0, old(self).1, *final(out.0), *final(out.1),
                    *final(out.2), *final(out.3), *final(out.4), *final(out.5), *final(out.6),
                    old(self).9)
            }),
    {
        (&mut self.2, &mut self.3, &mut self.4, &mut self.5, &mut self.6, &mut self.7, &mut self.8)
    }

    proof fn lemma_extract_mut_len() {
    }
}

impl<'a, T0: 'a, T1: 'a, T2: 'a, T3: 'a, T4: 'a, T5: 'a, T6: 'a, T7: 'a, T8: 'a,
    T9: 'a> TypedExtractMut<'a, 2, 10, (&'a mut T2, &'a mut T3, &'a mut T4, &'a mut T5, &'a mut T6,
    &'a mut T7, &'a mut T8, &'a mut T9)>
    for (T0, T1, T2, T3, T4, T5, T6, T7, T8, T9)
{
    open spec fn spec_borrows(&self, out: (&'a mut T2, &'a mut T3, &'a mut T4, &'a mut T5,
        &'a mut T6, &'a mut T7, &'a mut T8, &'a mut T9)) -> bool {
        &&& *out.0 == self.2
        &&& *out.1 == self.3
        &&& *out.2 == self.4
        &&& *out.3 == self.5
        &&& *out.4 == self.6
        &&& *out.5 == self.7
        &&& *out.6 == self.8
        &&& *out.7 == self.9
    }

    open spec fn spec_keeps(&self, after: (T0, T1, T2, T3, T4, T5, T6, T7, T8, T9)) -> bool {
        &&& after.0 == self.0
        &&& after.1 == self.1
    }

    fn extract_mut(&'a mut self) -> (r: (&'a mut T2, &'a mut T3, &'a mut T4, &'a mut T5, &'a mut T6,
        &'a mut T7, &'a mut T8, &'a mut T9))
        ensures
            ({
                let out: (&'a mut T2, &'a mut T3, &'a mut T4, &'a mut T5, &'a mut T6, &'a mut T7,
                    &'a mut T8, &'a mut T9) = r;
                *final(self) == (old(self).0, old(self).1, *final(out.0), *final(out.1),
                    *final(out.2), *final(out.3), *final(out.4), *final(out.5), *final(out.6),
                    *final(out.7))
            }),
    {
        (&mut self.2, &mut self.3, &mut self.4, &mut self.5, &mut self.6, &mut self.7, &mut self.8,
            &mut self.9)
    }

    proof fn lemma_extract_mut_len() {
    }
}

impl<'a, T0: 'a, T1: 'a, T2: 'a, T3: 'a, T4: 'a, T5: 'a, T6: 'a, T7: 'a, T8: 'a,
    T9: 'a> TypedExtractMut<'a, 3, 3, ()>
    for (T0, T1, T2, T3, T4, T5, T6, T7, T8, T9)
{
    open spec fn spec_borrows(&self, out: ()) -> bool {
        true
    }

    open spec fn spec_keeps(&self, after: (T0, T1, T2, T3, T4, T5, T6, T7, T8, T9)) -> bool {
        &&& after.0 == self.0
        &&& after.1 == self.1
        &&& after.2 == self.2
        &&& after.3 == self.3
        &&& after.4 == self.4
        &&& after.5 == self.5
        &&& after.6 == self.6
        &&& after.7 == self.7
        &&& after.8 == self.8
        &&& after.9 == self.9
    }

    fn extract_mut(&'a mut self) -> (r: ()) {
        ()
    }

    proof fn lemma_extract_mut_len() {
    }
}

impl<'a, T0: 'a, T1: 'a, T2: 'a, T3: 'a, T4: 'a, T5: 'a, T6: 'a, T7: 'a, T8: 'a,
    T9: 'a> TypedExtractMut<'a, 3, 4, (&'a mut T3,)>
    for (T0, T1, T2, T3, T4, T5, T6, T7, T8, T9)
{
    open spec fn spec_borrows(&self, out: (&'a mut T3,)) -> bool {
        *out.0 == self.3
    }

    open spec fn spec_keeps(&self, after: (T0, T1, T2, T3, T4, T5, T6, T7, T8, T9)) -> bool {
        &&& after.0 == self.0
        &&& after.1 == self.1
        &&& after.2 == self.2
        &&& after.4 == self.4
        &&& after.5 == self.5
        &&& after.6 == self.6
        &&& after.7 == self.7
        &&& after.8 == self.8
        &&& after.9 == self.9
    }

    fn extract_mut(&'a mut self) -> (r: (&'a mut T3,))
        ensures
            ({
                let out: (&'a mut T3,) = r;
                *final(self) == (old(self).0, old(self).1, old(self).2, *final(out.0), old(self).4,
                    old(self).5, old(self).6, old(self).7, old(self).8, old(self).9)
            }),
    {
        (&mut self.3,)
    }

    proof fn lemma_extract_mut_len() {
    }
}

impl<'a, T0: 'a, T1: 'a, T2: 'a, T3: 'a, T4: 'a, T5: 'a, T6: 'a, T7: 'a, T8: 'a,
    T9: 'a> TypedExtractMut<'a, 3, 5, (&'a mut T3, &'a mut T4)>
    for (T0, T1, T2, T3, T4, T5, T6, T7, T8, T9)
{
    open spec fn spec_borrows(&self, out: (&'a mut T3, &'a mut T4)) -> bool {
        &&& *out.0 == self.3
        &&& *out.1 == self.4
    }

    open spec fn spec_keeps(&self, after: (T0, T1, T2, T3, T4, T5, T6, T7, T8, T9)) -> bool {
        &&& after.0 == self.0
        &&& after.1 == self.1
        &&& after.2 == self.2
        &&& after.5 == self.5
        &&& after.6 == self.6
        &&& after.7 == self.7
        &&& after.8 == self.8
        &&& after.9 == self.9
    }

    fn extract_mut(&'a mut self) -> (r: (&'a mut T3, &'a mut T4))
        ensures
            ({
                let out: (&'a mut T3, &'a mut T4) = r;
                *final(self) == (old(self).0, old(self).1, old(self).2, *final(out.0),
                    *final(out.1), old(self).5, old(self).6, old(self).7, old(self).8, old(self).9)
            }),
    {
        (&mut self.3, &mut self.4)
    }

    proof fn lemma_extract_mut_len() {
    }
}

impl<'a, T0: 'a, T1: 'a, T2: 'a, T3: 'a, T4: 'a, T5: 'a, T6: 'a, T7: 'a, T8: 'a,
    T9: 'a> TypedExtractMut<'a, 3, 6, (&'a mut T3, &'a mut T4, &'a mut T5)>
    for (T0, T1, T2, T3, T4, T5, T6, T7, T8, T9)
{
    open spec fn spec_borrows(&self, out: (&'a mut T3, &'a mut T4, &'a mut T5)) -> bool {
        &&& *out.0 == self.3
        &&& *out.1 == self.4
        &&& *out.2 == self.5
    }

    open spec fn spec_keeps(&self, after: (T0, T1, T2, T3, T4, T5, T6, T7, T8, T9)) -> bool {
        &&& after.0 == self.0
        &&& after.1 == self.1
        &&& after.2 == self.2
        &&& after.6 == self.6
        &&& after.7 == self.7
        &&& after.8 == self.8
        &&& after.9 == self.9
    }

    fn extract_mut(&'a mut self) -> (r: (&'a mut T3, &'a mut T4, &'a mut T5))
        ensures
            ({
                let out: (&'a mut T3, &'a mut T4, &'a mut T5) = r;
                *final(self) == (old(self).0, old(self).1, old(self).2, *final(out.0),
                    *final(out.1), *final(out.2), old(self).6, old(self).7, old(self).8,
                    old(self).9)
            }),
    {
        (&mut self.3, &mut self.4, &mut self.5)
    }

    proof fn lemma_extract_mut_len() {
    }
}

impl<'a, T0: 'a, T1: 'a, T2: 'a, T3: 'a, T4: 'a, T5: 'a, T6: 'a, T7: 'a, T8: 'a,
    T9: 'a> TypedExtractMut<'a, 3, 7, (&'a mut T3, &'a mut T4, &'a mut T5, &'a mut T6)>
    for (T0, T1, T2, T3, T4, T5, T6, T7, T8, T9)
{
    open spec fn spec_borrows(&self, out: (&'a mut T3, &'a mut T4, &'a mut T5,
        &'a mut T6)) -> bool {
        &&& *out.0 == self.3
        &&& *out.1 == self.4
        &&& *out.2 == self.5
        &&& *out.3 == self.6
    }

    open spec fn spec_keeps(&self, after: (T0, T1, T2, T3, T4, T5, T6, T7, T8, T9)) -> bool {
        &&& after.0 == self.0
        &&& after.1 == self.1
        &&& after.2 == self.2
        &&& after.7 == self.7
        &&& after.8 == self.8
        &&& after.9 == self.9
    }

    fn extract_mut(&'a mut self) -> (r: (&'a mut T3, &'a mut T4, &'a mut T5, &'a mut T6))
        ensures
            ({
                let out: (&'a mut T3, &'a mut T4, &'a mut T5, &'a mut T6) = r;
                *final(self) == (old(self).0, old(self).1, old(self).2, *final(out.0),
                    *final(out.1), *final(out.2), *final(out.3), old(self).7, old(self).8,
                    old(self).9)
            }),
    {
        (&mut self.3, &mut self.4, &mut self.5, &mut self.6)
    }

    proof fn lemma_extract_mut_len() {
    }
}

impl<'a, T0: 'a, T1: 'a, T2: 'a, T3: 'a, T4: 'a, T5: 'a, T6: 'a, T7: 'a, T8: 'a,
    T9: 'a> TypedExtractMut<'a, 3, 8, (&'a mut T3, &'a mut T4, &'a mut T5, &'a mut T6, &'a mut T7)>
    for (T0, T1, T2, T3, T4, T5, T6, T7, T8, T9)
{
    open spec fn spec_borrows(&self, out: (&'a mut T3, &'a mut T4, &'a mut T5, &'a mut T6,
        &'a mut T7)) -> bool {
        &&& *out.0 == self.3
        &&& *out.1 == self.4
        &&& *out.2 == self.5
        &&& *out.3 == self.6
        &&& *out.4 == self.7
    }

    open spec fn spec_keeps(&self, after: (T0, T1, T2, T3, T4, T5, T6, T7, T8, T9)) -> bool {
        &&& after.0 == self.0
        &&& after.1 == self.1
        &&& after.2 == self.2
        &&& after.8 == self.8
        &&& after.9 == self.9
    }

    fn extract_mut(&'a mut self) -> (r: (&'a mut T3, &'a mut T4, &'a mut T5, &'a mut T6,
        &'a mut T7))
        ensures
            ({
                let out: (&'a mut T3, &'a mut T4, &'a mut T5, &'a mut T6, &'a mut T7) = r;
                *final(self) == (old(self).0, old(self).1, old(self).2, *final(out.0),
                    *final(out.1), *final(out.2), *final(out.3), *final(out.4), old(self).8,
                    old(self).9)
            }),
    {
        (&mut self.3, &mut self.4, &mut self.5, &mut self.6, &mut self.7)
    }

    proof fn lemma_extract_mut_len() {
    }
}

impl<'a, T0: 'a, T1: 'a, T2: 'a, T3: 'a, T4: 'a, T5: 'a, T6: 'a, T7: 'a, T8: 'a,
    T9: 'a> TypedExtractMut<'a, 3, 9, (&'a mut T3, &'a mut T4, &'a mut T5, &'a mut T6, &'a mut T7,
    &'a mut T8)>
    for (T0, T1, T2, T3, T4, T5, T6, T7, T8, T9)
{
    open spec fn spec_borrows(&self, out: (&'a mut T3, &'a mut T4, &'a mut T5, &'a mut T6,
        &'a mut T7, &'a mut T8)) -> bool {
        &&& *out.0 == self.3
        &&& *out.1 == self.4
        &&& *out.2 == self.5
        &&& *out.3 == self.6
        &&& *out.4 == self.7
        &&& *out.5 == self.8
    }

    open spec fn spec_keeps(&self, after: (T0, T1, T2, T3, T4, T5, T6, T7, T8, T9)) -> bool {
        &&& after.0 == self.0
        &&& after.1 == self.1
        &&& after.2 == self.2
        &&& after.9 == self.9
    }

    fn extract_mut(&'a mut self) -> (r: (&'a mut T3, &'a mut T4, &'a mut T5, &'a mut T6, &'a mut T7,
        &'a mut T8))
        ensures
            ({
                let out: (&'a mut T3, &'a mut T4, &'a mut T5, &'a mut T6, &'a mut T7,
                    &'a mut T8) = r;
                *final(self) == (old(self).0, old(self).1, old(self).2, *final(out.0),
                    *final(out.1), *final(out.2), *final(out.3), *final(out.4), *final(out.5),
                    old(self).9)
            }),
    {
        (&mut self.3, &mut self.4, &mut self.5, &mut self.6, &mut self.7, &mut self.8)
    }

    proof fn lemma_extract_mut_len() {
    }
}

impl<'a, T0: 'a, T1: 'a, T2: 'a, T3: 'a, T4: 'a, T5: 'a, T6: 'a, T7: 'a, T8: 'a,
    T9: 'a> TypedExtractMut<'a, 3, 10, (&'a mut T3, &'a mut T4, &'a mut T5, &'a mut T6, &'a mut T7,
    &'a mut T8, &'a mut T9)>
    for (T0, T1, T2, T3, T4, T5, T6, T7, T8, T9)
{
    open spec fn spec_borrows(&self, out: (&'a mut T3, &'a mut T4, &'a mut T5, &'a mut T6,
        &'a mut T7, &'a mut T8, &'a mut T9)) -> bool {
        &&& *out.0 == self.3
        &&& *out.1 == self.4
        &&& *out.2 == self.5
        &&& *out.3 == self.6
        &&& *out.4 == self.7
        &&& *out.5 == self.8
        &&& *out.6 == self.9
    }

    open spec fn spec_keeps(&self, after: (T0, T1, T2, T3, T4, T5, T6, T7, T8, T9)) -> bool {
        &&& after.0 == self.0
        &&& after.1 == self.1
        &&& after.2 == self.2
    }

    fn extract_mut(&'a mut self) -> (r: (&'a mut T3, &'a mut T4, &'a mut T5, &'a mut T6, &'a mut T7,
        &'a mut T8, &'a mut T9))
        ensures
            ({
                let out: (&'a mut T3, &'a mut T4, &'a mut T5, &'a mut T6, &'a mut T7, &'a mut T8,
                    &'a mut T9) = r;
                *final(self) == (old(self).0, old(self).1, old(self).2, *final(out.0),
                    *final(out.1), *final(out.2), *final(out.3), *final(out.4), *final(out.5),
                    *final(out.6))
            }),
    {
        (&mut self.3, &mut self.4, &mut self.5, &mut self.6, &mut self.7, &mut self.8, &mut self.9)
    }

    proof fn lemma_extract_mut_len() {
    }
}

impl<'a, T0: 'a, T1: 'a, T2: 'a, T3: 'a, T4: 'a, T5: 'a, T6: 'a, T7: 'a, T8: 'a,
    T9: 'a> TypedExtractMut<'a, 4, 4, ()>
    for (T0, T1, T2, T3, T4, T5, T6, T7, T8, T9)
{
    open spec fn spec_borrows(&self, out: ()) -> bool {
        true
    }

    open spec fn spec_keeps(&self, after: (T0, T1, T2, T3, T4, T5, T6, T7, T8, T9)) -> bool {
        &&& after.0 == self.0
        &&& after.1 == self.1
        &&& after.2 == self.2
        &&& after.3 == self.3
        &&& after.4 == self.4
        &&& after.5 == self.5
        &&& after.6 == self.6
        &&& after.7 == self.7
        &&& after.8 == self.8
        &&& after.9 == self.9
    }

    fn extract_mut(&'a mut self) -> (r: ()) {
        ()
    }

    proof fn lemma_extract_mut_len() {
    }
}

impl<'a, T0: 'a, T1: 'a, T2: 'a, T3: 'a, T4: 'a, T5: 'a, T6: 'a, T7: 'a, T8: 'a,
    T9: 'a> TypedExtractMut<'a, 4, 5, (&'a mut T4,)>
    for (T0, T1, T2, T3, T4, T5, T6, T7, T8, T9)
{
    open spec fn spec_borrows(&self, out: (&'a mut T4,)) -> bool {
        *out.0 == self.4
    }

    open spec fn spec_keeps(&self, after: (T0, T1, T2, T3, T4, T5, T6, T7, T8, T9)) -> bool {
        &&& after.0 == self.0
        &&& after.1 == self.1
        &&& after.2 == self.2
        &&& after.3 == self.3
        &&& after.5 == self.5
        &&& after.6 == self.6
        &&& after.7 == self.7
        &&& after.8 == self.8
        &&& after.9 == self.9
    }

    fn extract_mut(&'a mut self) -> (r: (&'a mut T4,))
        ensures
            ({
                let out: (&'a mut T4,) = r;
                *final(self) == (old(self).0, old(self).1, old(self).2, old(self).3, *final(out.0),
                    old(self).5, old(self).6, old(self).7, old(self).8, old(self).9)
            }),
    {
        (&mut self.4,)
    }

    proof fn lemma_extract_mut_len() {
    }
}

impl<'a, T0: 'a, T1: 'a, T2: 'a, T3: 'a, T4: 'a, T5: 'a, T6: 'a, T7: 'a, T8: 'a,
    T9: 'a> TypedExtractMut<'a, 4, 6, (&'a mut T4, &'a mut T5)>
    for (T0, T1, T2, T3, T4, T5, T6, T7, T8, T9)
{
    open spec fn spec_borrows(&self, out: (&'a mut T4, &'a mut T5)) -> bool {
        &&& *out.0 == self.4
        &&& *out.1 == self.5
    }

    open spec fn spec_keeps(&self, after: (T0, T1, T2, T3, T4, T5, T6, T7, T8, T9)) -> bool {
        &&& after.0 == self.0
        &&& after.1 == self.1
        &&& after.2 == self.2
        &&& after.3 == self.3
        &&& after.6 == self.6
        &&& after.7 == self.7
        &&& after.8 == self.8
        &&& after.9 == self.9
    }

    fn extract_mut(&'a mut self) -> (r: (&'a mut T4, &'a mut T5))
        ensures
            ({
                let out: (&'a mut T4, &'a mut T5) = r;
                *final(self) == (old(self).0, old(self).1, old(self).2, old(self).3, *final(out.0),
                    *final(out.1), old(self).6, old(self).7, old(self).8, old(self).9)
            }),
    {
        (&mut self.4, &mut self.5)
    }

    proof fn lemma_extract_mut_len() {
    }
}

impl<'a, T0: 'a, T1: 'a, T2: 'a, T3: 'a, T4: 'a, T5: 'a, T6: 'a, T7: 'a, T8: 'a,
    T9: 'a> TypedExtractMut<'a, 4, 7, (&'a mut T4, &'a mut T5, &'a mut T6)>
    for (T0, T1, T2, T3, T4, T5, T6, T7, T8, T9)
{
    open spec fn spec_borrows(&self, out: (&'a mut T4, &'a mut T5, &'a mut T6)) -> bool {
        &&& *out.0 == self.4
        &&& *out.1 == self.5
        &&& *out.2 == self.6
    }

    open spec fn spec_keeps(&self, after: (T0, T1, T2, T3, T4, T5, T6, T7, T8, T9)) -> bool {
        &&& after.0 == self.0
        &&& after.1 == self.1
        &&& after.2 == self.2
        &&& after.3 == self.3
        &&& after.7 == self.7
        &&& after.8 == self.8
        &&& after.9 == self.9
    }

    fn extract_mut(&'a mut self) -> (r: (&'a mut T4, &'a mut T5, &'a mut T6))
        ensures
            ({
                let out: (&'a mut T4, &'a mut T5, &'a mut T6) = r;
                *final(self) == (old(self).0, old(self).1, old(self).2, old(self).3, *final(out.0),
                    *final(out.1), *final(out.2), old(self).7, old(self).8, old(self).9)
            }),
    {
        (&mut self.4, &mut self.5, &mut self.6)
    }

    proof fn lemma_extract_mut_len() {
    }
}

impl<'a, T0: 'a, T1: 'a, T2: 'a, T3: 'a, T4: 'a, T5: 'a, T6: 'a, T7: 'a, T8: 'a,
    T9: 'a> TypedExtractMut<'a, 4, 8, (&'a mut T4, &'a mut T5, &'a mut T6, &'a mut T7)>
    for (T0, T1, T2, T3, T4, T5, T6, T7, T8, T9)
{
    open spec fn spec_borrows(&self, out: (&'a mut T4, &'a mut T5, &'a mut T6,
        &'a mut T7)) -> bool {
        &&& *out.0 == self.4
        &&& *out.1 == self.5
        &&& *out.2 == self.6
        &&& *out.3 == self.7
    }

    open spec fn spec_keeps(&self, after: (T0, T1, T2, T3, T4, T5, T6, T7, T8, T9)) -> bool {
        &&& after.0 == self.0
        &&& after.1 == self.1
        &&& after.2 == self.2
        &&& after.3 == self.3
        &&& after.8 == self.8
        &&& after.9 == self.9
    }

    fn extract_mut(&'a mut self) -> (r: (&'a mut T4, &'a mut T5, &'a mut T6, &'a mut T7))
        ensures
            ({
                let out: (&'a mut T4, &'a mut T5, &'a mut T6, &'a mut T7) = r;
                *final(self) == (old(self).0, old(self).1, old(self).2, old(self).3, *final(out.0),
                    *final(out.1), *final(out.2), *final(out.3), old(self).8, old(self).9)
            }),
    {
        (&mut self.4, &mut self.5, &mut self.6, &mut self.7)
    }

    proof fn lemma_extract_mut_len() {
    }
}

impl<'a, T0: 'a, T1: 'a, T2: 'a, T3: 'a, T4: 'a, T5: 'a, T6: 'a, T7: 'a, T8: 'a,
    T9: 'a> TypedExtractMut<'a, 4, 9, (&'a mut T4, &'a mut T5, &'a mut T6, &'a mut T7, &'a mut T8)>
    for (T0, T1, T2, T3, T4, T5, T6, T7, T8, T9)
{
    open spec fn spec_borrows(&self, out: (&'a mut T4, &'a mut T5, &'a mut T6, &'a mut T7,
        &'a mut T8)) -> bool {
        &&& *out.0 == self.4
        &&& *out.1 == self.5
        &&& *out.2 == self.6
        &&& *out.3 == self.7
        &&& *out.4 == self.8
    }

    open spec fn spec_keeps(&self, after: (T0, T1, T2, T3, T4, T5, T6, T7, T8, T9)) -> bool {
        &&& after.0 == self.0
        &&& after.1 == self.1
        &&& after.2 == self.2
        &&& after.3 == self.3
        &&& after.9 == self.9
    }

    fn extract_mut(&'a mut self) -> (r: (&'a mut T4, &'a mut T5, &'a mut T6, &'a mut T7,
        &'a mut T8))
        ensures
            ({
                let out: (&'a mut T4, &'a mut T5, &'a mut T6, &'a mut T7, &'a mut T8) = r;
                *final(self) == (old(self).0, old(self).1, old(self).2, old(self).3, *final(out.0),
                    *final(out.1), *final(out.2), *final(out.3), *final(out.4), old(self).9)
            }),
    {
        (&mut self.4, &mut self.5, &mut self.6, &mut self.7, &mut self.8)
    }

    proof fn lemma_extract_mut_len() {
    }
}

impl<'a, T0: 'a, T1: 'a, T2: 'a, T3: 'a, T4: 'a, T5: 'a, T6: 'a, T7: 'a, T8: 'a,
    T9: 'a> TypedExtractMut<'a, 4, 10, (&'a mut T4, &'a mut T5, &'a mut T6, &'a mut T7, &'a mut T8,
    &'a mut T9)>
    for (T0, T1, T2, T3, T4, T5, T6, T7, T8, T9)
{
    open spec fn spec_borrows(&self, out: (&'a mut T4, &'a mut T5, &'a mut T6, &'a mut T7,
        &'a mut T8, &'a mut T9)) -> bool {
        &&& *out.0 == self.4
        &&& *out.1 == self.5
        &&& *out.2 == self.6
        &&& *out.3 == self.7
        &&& *out.4 == self.8
        &&& *out.5 == self.9
    }

    open spec fn spec_keeps(&self, after: (T0, T1, T2, T3, T4, T5, T6, T7, T8, T9)) -> bool {
        &&& after.0 == self.0
        &&& after.1 == self.1
        &&& after.2 == self.2
        &&& after.3 == self.3
    }

    fn extract_mut(&'a mut self) -> (r: (&'a mut T4, &'a mut T5, &'a mut T6, &'a mut T7, &'a mut T8,
        &'a mut T9))
        ensures
            ({
                let out: (&'a mut T4, &'a mut T5, &'a mut T6, &'a mut T7, &'a mut T8,
                    &'a mut T9) = r;
                *final(self) == (old(self).0, old(self).1, old(self).2, old(self).3, *final(out.0),
                    *final(out.1), *final(out.2), *final(out.3), *final(out.4), *final(out.5))
            }),
    {
        (&mut self.4, &mut self.5, &mut self.6, &mut self.7, &mut self.8, &mut self.9)
    }

    proof fn lemma_extract_mut_len() {
    }
}

impl<'a, T0: 'a, T1: 'a, T2: 'a, T3: 'a, T4: 'a, T5: 'a, T6: 'a, T7: 'a, T8: 'a,
    T9: 'a> TypedExtractMut<'a, 5, 5, ()>
    for (T0, T1, T2, T3, T4, T5, T6, T7, T8, T9)
{
    open spec fn spec_borrows(&self, out: ()) -> bool {
        true
    }

    open spec fn spec_keeps(&self, after: (T0, T1, T2, T3, T4, T5, T6, T7, T8, T9)) -> bool {
        &&& after.0 == self.0
        &&& after.1 == self.1
        &&& after.2 == self.2
        &&& after.3 == self.3
        &&& after.4 == self.4
        &&& after.5 == self.5
        &&& after.6 == self.6
        &&& after.7 == self.7
        &&& after.8 == self.8
        &&& after.9 == self.9
    }

    fn extract_mut(&'a mut self) -> (r: ()) {
        ()
    }

    proof fn lemma_extract_mut_len() {
    }
}

impl<'a, T0: 'a, T1: 'a, T2: 'a, T3: 'a, T4: 'a, T5: 'a, T6: 'a, T7: 'a, T8: 'a,
    T9: 'a> TypedExtractMut<'a, 5, 6, (&'a mut T5,)>
    for (T0, T1, T2, T3, T4, T5, T6, T7, T8, T9)
{
    open spec fn spec_borrows(&self, out: (&'a mut T5,)) -> bool {
        *out.0 == self.5
    }

    open spec fn spec_keeps(&self, after: (T0, T1, T2, T3, T4, T5, T6, T7, T8, T9)) -> bool {
        &&& after.0 == self.0
        &&& after.1 == self.1
        &&& after.2 == self.2
        &&& after.3 == self.3
        &&& after.4 == self.4
        &&& after.6 == self.6
        &&& after.7 == self.7
        &&& after.8 == self.8
        &&& after.9 == self.9
    }

    fn extract_mut(&'a mut self) -> (r: (&'a mut T5,))
        ensures
            ({
                let out: (&'a mut T5,) = r;
                *final(self) == (old(self).0, old(self).1, old(self).2, old(self).3, old(self).4,
                    *final(out.0), old(self).6, old(self).7, old(self).8, old(self).9)
            }),
    {
        (&mut self.5,)
    }

    proof fn lemma_extract_mut_len() {
    }
}

impl<'a, T0: 'a, T1: 'a, T2: 'a, T3: 'a, T4: 'a, T5: 'a, T6: 'a, T7: 'a, T8: 'a,
    T9: 'a> TypedExtractMut<'a, 5, 7, (&'a mut T5, &'a mut T6)>
    for (T0, T1, T2, T3, T4, T5, T6, T7, T8, T9)
{
    open spec fn spec_borrows(&self, out: (&'a mut T5, &'a mut T6)) -> bool {
        &&& *out.0 == self.5
        &&& *out.1 == self.6
    }

    open spec fn spec_keeps(&self, after: (T0, T1, T2, T3, T4, T5, T6, T7, T8, T9)) -> bool {
        &&& after.0 == self.0
        &&& after.1 == self.1
        &&& after.2 == self.2
        &&& after.3 == self.3
        &&& after.4 == self.4
        &&& after.7 == self.7
        &&& after.8 == self.8
        &&& after.9 == self.9
    }

    fn extract_mut(&'a mut self) -> (r: (&'a mut T5, &'a mut T6))
        ensures
            ({
                let out: (&'a mut T5, &'a mut T6) = r;
                *final(self) == (old(self).0, old(self).1, old(self).2, old(self).3, old(self).4,
                    *final(out.0), *final(out.1), old(self).7, old(self).8, old(self).9)
            }),
    {
        (&mut self.5, &mut self.6)
    }

    proof fn lemma_extract_mut_len() {
    }
}

impl<'a, T0: 'a, T1: 'a, T2: 'a, T3: 'a, T4: 'a, T5: 'a, T6: 'a, T7: 'a, T8: 'a,
    T9: 'a> TypedExtractMut<'a, 5, 8, (&'a mut T5, &'a mut T6, &'a mut T7)>
    for (T0, T1, T2, T3, T4, T5, T6, T7, T8, T9)
{
    open spec fn spec_borrows(&self, out: (&'a mut T5, &'a mut T6, &'a mut T7)) -> bool {
        &&& *out.0 == self.5
        &&& *out.1 == self.6
        &&& *out.2 == self.7
    }

    open spec fn spec_keeps(&self, after: (T0, T1, T2, T3, T4, T5, T6, T7, T8, T9)) -> bool {
        &&& after.0 == self.0
        &&& after.1 == self.1
        &&& after.2 == self.2
        &&& after.3 == self.3
        &&& after.4 == self.4
        &&& after.8 == self.8
        &&& after.9 == self.9
    }

    fn extract_mut(&'a mut self) -> (r: (&'a mut T5, &'a mut T6, &'a mut T7))
        ensures
            ({
                let out: (&'a mut T5, &'a mut T6, &'a mut T7) = r;
                *final(self) == (old(self).0, old(self).1, old(self).2, old(self).3, old(self).4,
                    *final(out.0), *final(out.1), *final(out.2), old(self).8, old(self).9)
            }),
    {
        (&mut self.5, &mut self.6, &mut self.7)
    }

    proof fn lemma_extract_mut_len() {
    }
}

impl<'a, T0: 'a, T1: 'a, T2: 'a, T3: 'a, T4: 'a, T5: 'a, T6: 'a, T7: 'a, T8: 'a,
    T9: 'a> TypedExtractMut<'a, 5, 9, (&'a mut T5, &'a mut T6, &'a mut T7, &'a mut T8)>
    for (T0, T1, T2, T3, T4, T5, T6, T7, T8, T9)
{
    open spec fn spec_borrows(&self, out: (&'a mut T5, &'a mut T6, &'a mut T7,
        &'a mut T8)) -> bool {
        &&& *out.0 == self.5
        &&& *out.1 == self.6
        &&& *out.2 == self.7
        &&& *out.3 == self.8
    }

    open spec fn spec_keeps(&self, after: (T0, T1, T2, T3, T4, T5, T6, T7, T8, T9)) -> bool {
        &&& after.0 == self.0
        &&& after.1 == self.1
        &&& after.2 == self.2
        &&& after.3 == self.3
        &&& after.4 == self.4
        &&& after.9 == self.9
    }

    fn extract_mut(&'a mut self) -> (r: (&'a mut T5, &'a mut T6, &'a mut T7, &'a mut T8))
        ensures
            ({
                let out: (&'a mut T5, &'a mut T6, &'a mut T7, &'a mut T8) = r;
                *final(self) == (old(self).0, old(self).1, old(self).2, old(self).3, old(self).4,
                    *final(out.0), *final(out.1), *final(out.2), *final(out.3), old(self).9)
            }),
    {
        (&mut self.5, &mut self.6, &mut self.7, &mut self.8)
    }

    proof fn lemma_extract_mut_len() {
    }
}

impl<'a, T0: 'a, T1: 'a, T2: 'a, T3: 'a, T4: 'a, T5: 'a, T6: 'a, T7: 'a, T8: 'a,
    T9: 'a> TypedExtractMut<'a, 5, 10, (&'a mut T5, &'a mut T6, &'a mut T7, &'a mut T8,
    &'a mut T9)>
    for (T0, T1, T2, T3, T4, T5, T6, T7, T8, T9)
{
    open spec fn spec_borrows(&self, out: (&'a mut T5, &'a mut T6, &'a mut T7, &'a mut T8,
        &'a mut T9)) -> bool {
        &&& *out.0 == self.5
        &&& *out.1 == self.6
        &&& *out.2 == self.7
        &&& *out.3 == self.8
        &&& *out.4 == self.9
    }

    open spec fn spec_keeps(&self, after: (T0, T1, T2, T3, T4, T5, T6, T7, T8, T9)) -> bool {
        &&& after.0 == self.0
        &&& after.1 == self.1
        &&& after.2 == self.2
        &&& after.3 == self.3
        &&& after.4 == self.4
    }

    fn extract_mut(&'a mut self) -> (r: (&'a mut T5, &'a mut T6, &'a mut T7, &'a mut T8,
        &'a mut T9))
        ensures
            ({
                let out: (&'a mut T5, &'a mut T6, &'a mut T7, &'a mut T8, &'a mut T9) = r;
                *final(self) == (old(self).0, old(self).1, old(self).2, old(self).3, old(self).4,
                    *final(out.0), *final(out.1), *final(out.2), *final(out.3), *final(out.4))
            }),
    {
        (&mut self.5, &mut self.6, &mut self.7, &mut self.8, &mut self.9)
    }

    proof fn lemma_extract_mut_len() {
    }
}

impl<'a, T0: 'a, T1: 'a, T2: 'a, T3: 'a, T4: 'a, T5: 'a, T6: 'a, T7: 'a, T8: 'a,
    T9: 'a> TypedExtractMut<'a, 6, 6, ()>
    for (T0, T1, T2, T3, T4, T5, T6, T7, T8, T9)
{
    open spec fn spec_borrows(&self, out: ()) -> bool {
        true
    }

    open spec fn spec_keeps(&self, after: (T0, T1, T2, T3, T4, T5, T6, T7, T8, T9)) -> bool {
        &&& after.0 == self.0
        &&& after.1 == self.1
        &&& after.2 == self.2
        &&& after.3 == self.3
        &&& after.4 == self.4
        &&& after.5 == self.5
        &&& after.6 == self.6
        &&& after.7 == self.7
        &&& after.8 == self.8
        &&& after.9 == self.9
    }

    fn extract_mut(&'a mut self) -> (r: ()) {
        ()
    }

    proof fn lemma_extract_mut_len() {
    }
}

impl<'a, T0: 'a, T1: 'a, T2: 'a, T3: 'a, T4: 'a, T5: 'a, T6: 'a, T7: 'a, T8: 'a,
    T9: 'a> TypedExtractMut<'a, 6, 7, (&'a mut T6,)>
    for (T0, T1, T2, T3, T4, T5, T6, T7, T8, T9)
{
    open spec fn spec_borrows(&self, out: (&'a mut T6,)) -> bool {
        *out.0 == self.6
    }

    open spec fn spec_keeps(&self, after: (T0, T1, T2, T3, T4, T5, T6, T7, T8, T9)) -> bool {
        &&& after.0 == self.0
        &&& after.1 == self.1
        &&& after.2 == self.2
        &&& after.3 == self.3
        &&& after.4 == self.4
        &&& after.5 == self.5
        &&& after.7 == self.7
        &&& after.8 == self.8
        &&& after.9 == self.9
    }

    fn extract_mut(&'a mut self) -> (r: (&'a mut T6,))
        ensures
            ({
                let out: (&'a mut T6,) = r;
                *final(self) == (old(self).0, old(self).1, old(self).2, old(self).3, old(self).4,
                    old(self).5, *final(out.0), old(self).7, old(self).8, old(self).9)
            }),
    {
        (&mut self.6,)
    }

    proof fn lemma_extract_mut_len() {
    }
}

impl<'a, T0: 'a, T1: 'a, T2: 'a, T3: 'a, T4: 'a, T5: 'a, T6: 'a, T7: 'a, T8: 'a,
    T9: 'a> TypedExtractMut<'a, 6, 8, (&'a mut T6, &'a mut T7)>
    for (T0, T1, T2, T3, T4, T5, T6, T7, T8, T9)
{
    open spec fn spec_borrows(&self, out: (&'a mut T6, &'a mut T7)) -> bool {
        &&& *out.0 == self.6
        &&& *out.1 == self.7
    }

    open spec fn spec_keeps(&self, after: (T0, T1, T2, T3, T4, T5, T6, T7, T8, T9)) -> bool {
        &&& after.0 == self.0
        &&& after.1 == self.1
        &&& after.2 == self.2
        &&& after.3 == self.3
        &&& after.4 == self.4
        &&& after.5 == self.5
        &&& after.8 == self.8
        &&& after.9 == self.9
    }

    fn extract_mut(&'a mut self) -> (r: (&'a mut T6, &'a mut T7))
        ensures
            ({
                let out: (&'a mut T6, &'a mut T7) = r;
                *final(self) == (old(self).0, old(self).1, old(self).2, old(self).3, old(self).4,
                    old(self).5, *final(out.0), *final(out.1), old(self).8, old(self).9)
            }),
    {
        (&mut self.6, &mut self.7)
    }

    proof fn lemma_extract_mut_len() {
    }
}

impl<'a, T0: 'a, T1: 'a, T2: 'a, T3: 'a, T4: 'a, T5: 'a, T6: 'a, T7: 'a, T8: 'a,
    T9: 'a> TypedExtractMut<'a, 6, 9, (&'a mut T6, &'a mut T7, &'a mut T8)>
    for (T0, T1, T2, T3, T4, T5, T6, T7, T8, T9)
{
    open spec fn spec_borrows(&self, out: (&'a mut T6, &'a mut T7, &'a mut T8)) -> bool {
        &&& *out.0 == self.6
        &&& *out.1 == self.7
        &&& *out.2 == self.8
    }

    open spec fn spec_keeps(&self, after: (T0, T1, T2, T3, T4, T5, T6, T7, T8, T9)) -> bool {
        &&& after.0 == self.0
        &&& after.1 == self.1
        &&& after.2 == self.2
        &&& after.3 == self.3
        &&& after.4 == self.4
        &&& after.5 == self.5
        &&& after.9 == self.9
    }

    fn extract_mut(&'a mut self) -> (r: (&'a mut T6, &'a mut T7, &'a mut T8))
        ensures
            ({
                let out: (&'a mut T6, &'a mut T7, &'a mut T8) = r;
                *final(self) == (old(self).0, old(self).1, old(self).2, old(self).3, old(self).4,
                    old(self).5, *final(out.0), *final(out.1), *final(out.2), old(self).9)
            }),
    {
        (&mut self.6, &mut self.7, &mut self.8)
    }

    proof fn lemma_extract_mut_len() {
    }
}

impl<'a, T0: 'a, T1: 'a, T2: 'a, T3: 'a, T4: 'a, T5: 'a, T6: 'a, T7: 'a, T8: 'a,
    T9: 'a> TypedExtractMut<'a, 6, 10, (&'a mut T6, &'a mut T7, &'a mut T8, &'a mut T9)>
    for (T0, T1, T2, T3, T4, T5, T6, T7, T8, T9)
{
    open spec fn spec_borrows(&self, out: (&'a mut T6, &'a mut T7, &'a mut T8,
        &'a mut T9)) -> bool {
        &&& *out.0 == self.6
        &&& *out.1 == self.7
        &&& *out.2 == self.8
        &&& *out.3 == self.9
    }

    open spec fn spec_keeps(&self, after: (T0, T1, T2, T3, T4, T5, T6, T7, T8, T9)) -> bool {
        &&& after.0 == self.0
        &&& after.1 == self.1
        &&& after.2 == self.2
        &&& after.3 == self.3
        &&& after.4 == self.4
        &&& after.5 == self.5
    }

    fn extract_mut(&'a mut self) -> (r: (&'a mut T6, &'a mut T7, &'a mut T8, &'a mut T9))
        ensures
            ({
                let out: (&'a mut T6, &'a mut T7, &'a mut T8, &'a mut T9) = r;
                *final(self) == (old(self).0, old(self).1, old(self).2, old(self).3, old(self).4,
                    old(self).5, *final(out.0), *final(out.1), *final(out.2), *final(out.3))
            }),
    {
        (&mut self.6, &mut self.7, &mut self.8, &mut self.9)
    }

    proof fn lemma_extract_mut_len() {
    }
}

impl<'a, T0: 'a, T1: 'a, T2: 'a, T3: 'a, T4: 'a, T5: 'a, T6: 'a, T7: 'a, T8: 'a,
    T9: 'a> TypedExtractMut<'a, 7, 7, ()>
    for (T0, T1, T2, T3, T4, T5, T6, T7, T8, T9)
{
    open spec fn spec_borrows(&self, out: ()) -> bool {
        true
    }

    open spec fn spec_keeps(&self, after: (T0, T1, T2, T3, T4, T5, T6, T7, T8, T9)) -> bool {
        &&& after.0 == self.0
        &&& after.1 == self.1
        &&& after.2 == self.2
        &&& after.3 == self.3
        &&& after.4 == self.4
        &&& after.5 == self.5
        &&& after.6 == self.6
        &&& after.7 == self.7
        &&& after.8 == self.8
        &&& after.9 == self.9
    }

    fn extract_mut(&'a mut self) -> (r: ()) {
        ()
    }

    proof fn lemma_extract_mut_len() {
    }
}

impl<'a, T0: 'a, T1: 'a, T2: 'a, T3: 'a, T4: 'a, T5: 'a, T6: 'a, T7: 'a, T8: 'a,
    T9: 'a> TypedExtractMut<'a, 7, 8, (&'a mut T7,)>
    for (T0, T1, T2, T3, T4, T5, T6, T7, T8, T9)
{
    open spec fn spec_borrows(&self, out: (&'a mut T7,)) -> bool {
        *out.0 == self.7
    }

    open spec fn spec_keeps(&self, after: (T0, T1, T2, T3, T4, T5, T6, T7, T8, T9)) -> bool {
        &&& after.0 == self.0
        &&& after.1 == self.1
        &&& after.2 == self.2
        &&& after.3 == self.3
        &&& after.4 == self.4
        &&& after.5 == self.5
        &&& after.6 == self.6
        &&& after.8 == self.8
        &&& after.9 == self.9
    }

    fn extract_mut(&'a mut self) -> (r: (&'a mut T7,))
        ensures
            ({
                let out: (&'a mut T7,) = r;
                *final(self) == (old(self).0, old(self).1, old(self).2, old(self).3, old(self).4,
                    old(self).5, old(self).6, *final(out.0), old(self).8, old(self).9)
            }),
    {
        (&mut self.7,)
    }

    proof fn lemma_extract_mut_len() {
    }
}

impl<'a, T0: 'a, T1: 'a, T2: 'a, T3: 'a, T4: 'a, T5: 'a, T6: 'a, T7: 'a, T8: 'a,
    T9: 'a> TypedExtractMut<'a, 7, 9, (&'a mut T7, &'a mut T8)>
    for (T0, T1, T2, T3, T4, T5, T6, T7, T8, T9)
{
    open spec fn spec_borrows(&self, out: (&'a mut T7, &'a mut T8)) -> bool {
        &&& *out.0 == self.7
        &&& *out.1 == self.8
    }

    open spec fn spec_keeps(&self, after: (T0, T1, T2, T3, T4, T5, T6, T7, T8, T9)) -> bool {
        &&& after.0 == self.0
        &&& after.1 == self.1
        &&& after.2 == self.2
        &&& after.3 == self.3
        &&& after.4 == self.4
        &&& after.5 == self.5
        &&& after.6 == self.6
        &&& after.9 == self.9
    }

    fn extract_mut(&'a mut self) -> (r: (&'a mut T7, &'a mut T8))
        ensures
            ({
                let out: (&'a mut T7, &'a mut T8) = r;
                *final(self) == (old(self).0, old(self).1, old(self).2, old(self).3, old(self).4,
                    old(self).5, old(self).6, *final(out.0), *final(out.1), old(self).9)
            }),
    {
        (&mut self.7, &mut self.8)
    }

    proof fn lemma_extract_mut_len() {
    }
}

impl<'a, T0: 'a, T1: 'a, T2: 'a, T3: 'a, T4: 'a, T5: 'a, T6: 'a, T7: 'a, T8: 'a,
    T9: 'a> TypedExtractMut<'a, 7, 10, (&'a mut T7, &'a mut T8, &'a mut T9)>
    for (T0, T1, T2, T3, T4, T5, T6, T7, T8, T9)
{
    open spec fn spec_borrows(&self, out: (&'a mut T7, &'a mut T8, &'a mut T9)) -> bool {
        &&& *out.0 == self.7
        &&& *out.1 == self.8
        &&& *out.2 == self.9
    }

    open spec fn spec_keeps(&self, after: (T0, T1, T2, T3, T4, T5, T6, T7, T8, T9)) -> bool {
        &&& after.0 == self.0
        &&& after.1 == self.1
        &&& after.2 == self.2
        &&& after.3 == self.3
        &&& after.4 == self.4
        &&& after.5 == self.5
        &&& after.6 == self.6
    }

    fn extract_mut(&'a mut self) -> (r: (&'a mut T7, &'a mut T8, &'a mut T9))
        ensures
            ({
                let out: (&'a mut T7, &'a mut T8, &'a mut T9) = r;
                *final(self) == (old(self).0, old(self).1, old(self).2, old(self).3, old(self).4,
                    old(self).5, old(self).6, *final(out.0), *final(out.1), *final(out.2))
            }),
    {
        (&mut self.7, &mut self.8, &mut self.9)
    }

    proof fn lemma_extract_mut_len() {
    }
}

impl<'a, T0: 'a, T1: 'a, T2: 'a, T3: 'a, T4: 'a, T5: 'a, T6: 'a, T7: 'a, T8: 'a,
    T9: 'a> TypedExtractMut<'a, 8, 8, ()>
    for (T0, T1, T2, T3, T4, T5, T6, T7, T8, T9)
{
    open spec fn spec_borrows(&self, out: ()) -> bool {
        true
    }

    open spec fn spec_keeps(&self, after: (T0, T1, T2, T3, T4, T5, T6, T7, T8, T9)) -> bool {
        &&& after.0 == self.0
        &&& after.1 == self.1
        &&& after.2 == self.2
        &&& after.3 == self.3
        &&& after.4 == self.4
        &&& after.5 == self.5
        &&& after.6 == self.6
        &&& after.7 == self.7
        &&& after.8 == self.8
        &&& after.9 == self.9
    }

    fn extract_mut(&'a mut self) -> (r: ()) {
        ()
    }

    proof fn lemma_extract_mut_len() {
    }
}

impl<'a, T0: 'a, T1: 'a, T2: 'a, T3: 'a, T4: 'a, T5: 'a, T6: 'a, T7: 'a, T8: 'a,
    T9: 'a> TypedExtractMut<'a, 8, 9, (&'a mut T8,)>
    for (T0, T1, T2, T3, T4, T5, T6, T7, T8, T9)
{
    open spec fn spec_borrows(&self, out: (&'a mut T8,)) -> bool {
        *out.0 == self.8
    }

    open spec fn spec_keeps(&self, after: (T0, T1, T2, T3, T4, T5, T6, T7, T8, T9)) -> bool {
        &&& after.0 == self.0
        &&& after.1 == self.1
        &&& after.2 == self.2
        &&& after.3 == self.3
        &&& after.4 == self.4
        &&& after.5 == self.5
        &&& after.6 == self.6
        &&& after.7 == self.7
        &&& after.9 == self.9
    }

    fn extract_mut(&'a mut self) -> (r: (&'a mut T8,))
        ensures
            ({
                let out: (&'a mut T8,) = r;
                *final(self) == (old(self).0, old(self).1, old(self).2, old(self).3, old(self).4,
                    old(self).5, old(self).6, old(self).7, *final(out.0), old(self).9)
            }),
    {
        (&mut self.8,)
    }

    proof fn lemma_extract_mut_len() {
    }
}

impl<'a, T0: 'a, T1: 'a, T2: 'a, T3: 'a, T4: 'a, T5: 'a, T6: 'a, T7: 'a, T8: 'a,
    T9: 'a> TypedExtractMut<'a, 8, 10, (&'a mut T8, &'a mut T9)>
    for (T0, T1, T2, T3, T4, T5, T6, T7, T8, T9)
{
    open spec fn spec_borrows(&self, out: (&'a mut T8, &'a mut T9)) -> bool {
        &&& *out.0 == self.8
        &&& *out.1 == self.9
    }

    open spec fn spec_keeps(&self, after: (T0, T1, T2, T3, T4, T5, T6, T7, T8, T9)) -> bool {
        &&& after.0 == self.0
        &&& after.1 == self.1
        &&& after.2 == self.2
        &&& after.3 == self.3
        &&& after.4 == self.4
        &&& after.5 == self.5
        &&& after.6 == self.6
        &&& after.7 == self.7
    }

    fn extract_mut(&'a mut self) -> (r: (&'a mut T8, &'a mut T9))
        ensures
            ({
                let out: (&'a mut T8, &'a mut T9) = r;
                *final(self) == (old(self).0, old(self).1, old(self).2, old(self).3, old(self).4,
                    old(self).5, old(self).6, old(self).7, *final(out.0), *final(out.1))
            }),
    {
        (&mut self.8, &mut self.9)
    }

    proof fn lemma_extract_mut_len() {
    }
}

impl<'a, T0: 'a, T1: 'a, T2: 'a, T3: 'a, T4: 'a, T5: 'a, T6: 'a, T7: 'a, T8: 'a,
    T9: 'a> TypedExtractMut<'a, 9, 9, ()>
    for (T0, T1, T2, T3, T4, T5, T6, T7, T8, T9)
{
    open spec fn spec_borrows(&self, out: ()) -> bool {
        true
    }

    open spec fn spec_keeps(&self, after: (T0, T1, T2, T3, T4, T5, T6, T7, T8, T9)) -> bool {
        &&& after.0 == self.0
        &&& after.1 == self.1
        &&& after.2 == self.2
        &&& after.3 == self.3
        &&& after.4 == self.4
        &&& after.5 == self.5
        &&& after.6 == self.6
        &&& after.7 == self.7
        &&& after.8 == self.8
        &&& after.9 == self.9
    }

    fn extract_mut(&'a mut self) -> (r: ()) {
        ()
    }

    proof fn lemma_extract_mut_len() {
    }
}

impl<'a, T0: 'a, T1: 'a, T2: 'a, T3: 'a, T4: 'a, T5: 'a, T6: 'a, T7: 'a, T8: 'a,
    T9: 'a> TypedExtractMut<'a, 9, 10, (&'a mut T9,)>
    for (T0, T1, T2, T3, T4, T5, T6, T7, T8, T9)
{
    open spec fn spec_borrows(&self, out: (&'a mut T9,)) -> bool {
        *out.0 == self.9
    }

    open spec fn spec_keeps(&self, after: (T0, T1, T2, T3, T4, T5, T6, T7, T8, T9)) -> bool {
        &&& after.0 == self.0
        &&& after.1 == self.1
        &&& after.2 == self.2
        &&& after.3 == self.3
        &&& after.4 == self.4
        &&& after.5 == self.5
        &&& after.6 == self.6
        &&& after.7 == self.7
        &&& after.8 == self.8
    }

    fn extract_mut(&'a mut self) -> (r: (&'a mut T9,))
        ensures
            ({
                let out: (&'a mut T9,) = r;
                *final(self) == (old(self).0, old(self).1, old(self).2, old(self).3, old(self).4,
                    old(self).5, old(self).6, old(self).7, old(self).8, *final(out.0))
            }),
    {
        (&mut self.9,)
    }

    proof fn lemma_extract_mut_len() {
    }
}

impl<'a, T0: 'a, T1: 'a, T2: 'a, T3: 'a, T4: 'a, T5: 'a, T6: 'a, T7: 'a, T8: 'a, T9: 'a,
    T10: 'a> TypedExtractMut<'a, 0, 0, ()>
    for (T0, T1, T2, T3, T4, T5, T6, T7, T8, T9, T10)
{
    open spec fn spec_borrows(&self, out: ()) -> bool {
        true
    }

    open spec fn spec_keeps(&self, after: (T0, T1, T2, T3, T4, T5, T6, T7, T8, T9, T10)) -> bool {
        &&& after.0 == self.0
        &&& after.1 == self.1
        &&& after.2 == self.2
        &&& after.3 == self.3
        &&& after.4 == self.4
        &&& after.5 == self.5
        &&& after.6 == self.6
        &&& after.7 == self.7
        &&& after.8 == self.8
        &&& after.9 == self.9
        &&& after.10 == self.10
    }

    fn extract_mut(&'a mut self) -> (r: ()) {
        ()
    }

    proof fn lemma_extract_mut_len() {
    }
}

impl<'a, T0: 'a, T1: 'a, T2: 'a, T3: 'a, T4: 'a, T5: 'a, T6: 'a, T7: 'a, T8: 'a, T9: 'a,
    T10: 'a> TypedExtractMut<'a, 0, 1, (&'a mut T0,)>
    for (T0, T1, T2, T3, T4, T5, T6, T7, T8, T9, T10)
{
    open spec fn spec_borrows(&self, out: (&'a mut T0,)) -> bool {
        *out.0 == self.0
    }

    open spec fn spec_keeps(&self, after: (T0, T1, T2, T3, T4, T5, T6, T7, T8, T9, T10)) -> bool {
        &&& after.1 == self.1
        &&& after.2 == self.2
        &&& after.3 == self.3
        &&& after.4 == self.4
        &&& after.5 == self.5
        &&& after.6 == self.6
        &&& after.7 == self.7
        &&& after.8 == self.8
        &&& after.9 == self.9
        &&& after.10 == self.10
    }

    fn extract_mut(&'a mut self) -> (r: (&'a mut T0,))
        ensures
            ({
                let out: (&'a mut T0,) = r;
                *final(self) == (*final(out.0), old(self).1, old(self).2, old(self).3, old(self).4,
                    old(self).5, old(self).6, old(self).7, old(self).8, old(self).9, old(self).10)
            }),
    {
        (&mut self.0,)
    }

    proof fn lemma_extract_mut_len() {
    }
}

impl<'a, T0: 'a, T1: 'a, T2: 'a, T3: 'a, T4: 'a, T5: 'a, T6: 'a, T7: 'a, T8: 'a, T9: 'a,
    T10: 'a> TypedExtractMut<'a, 0, 2, (&'a mut T0, &'a mut T1)>
    for (T0, T1, T2, T3, T4, T5, T6, T7, T8, T9, T10)
{
    open spec fn spec_borrows(&self, out: (&'a mut T0, &'a mut T1)) -> bool {
        &&& *out.0 == self.0
        &&& *out.1 == self.1
    }

    open spec fn spec_keeps(&self, after: (T0, T1, T2, T3, T4, T5, T6, T7, T8, T9, T10)) -> bool {
        &&& after.2 == self.2
        &&& after.3 == self.3
        &&& after.4 == self.4
        &&& after.5 == self.5
        &&& after.6 == self.6
        &&& after.7 == self.7
        &&& after.8 == self.8
        &&& after.9 == self.9
        &&& after.10 == self.10
    }

    fn extract_mut(&'a mut self) -> (r: (&'a mut T0, &'a mut T1))
        ensures
            ({
                let out: (&'a mut T0, &'a mut T1) = r;
                *final(self) == (*final(out.0), *final(out.1), old(self).2, old(self).3,
                    old(self).4, old(self).5, old(self).6, old(self).7, old(self).8, old(self).9,
                    old(self).10)
            }),
    {
        (&mut self.0, &mut self.1)
    }

    proof fn lemma_extract_mut_len() {
    }
}

impl<'a, T0: 'a, T1: 'a, T2: 'a, T3: 'a, T4: 'a, T5: 'a, T6: 'a, T7: 'a, T8: 'a, T9: 'a,
    T10: 'a> TypedExtractMut<'a, 0, 3, (&'a mut T0, &'a mut T1, &'a mut T2)>
    for (T0, T1, T2, T3, T4, T5, T6, T7, T8, T9, T10)
{
    open spec fn spec_borrows(&self, out: (&'a mut T0, &'a mut T1, &'a mut T2)) -> bool {
        &&& *out.0 == self.0
        &&& *out.1 == self.1
        &&& *out.2 == self.2
    }

    open spec fn spec_keeps(&self, after: (T0, T1, T2, T3, T4, T5, T6, T7, T8, T9, T10)) -> bool {
        &&& after.3 == self.3
        &&& after.4 == self.4
        &&& after.5 == self.5
        &&& after.6 == self.6
        &&& after.7 == self.7
        &&& after.8 == self.8
        &&& after.9 == self.9
        &&& after.10 == self.10
    }

    fn extract_mut(&'a mut self) -> (r: (&'a mut T0, &'a mut T1, &'a mut T2))
        ensures
            ({
                let out: (&'a mut T0, &'a mut T1, &'a mut T2) = r;
                *final(self) == (*final(out.0), *final(out.1), *final(out.2), old(self).3,
                    old(self).4, old(self).5, old(self).6, old(self).7, old(self).8, old(self).9,
                    old(self).10)
            }),
    {
        (&mut self.0, &mut self.1, &mut self.2)
    }

    proof fn lemma_extract_mut_len() {
    }
}

impl<'a, T0: 'a, T1: 'a, T2: 'a, T3: 'a, T4: 'a, T5: 'a, T6: 'a, T7: 'a, T8: 'a, T9: 'a,
    T10: 'a> TypedExtractMut<'a, 0, 4, (&'a mut T0, &'a mut T1, &'a mut T2, &'a mut T3)>
    for (T0, T1, T2, T3, T4, T5, T6, T7, T8, T9, T10)
{
    open spec fn spec_borrows(&self, out: (&'a mut T0, &'a mut T1, &'a mut T2,
        &'a mut T3)) -> bool {
        &&& *out.0 == self.0
        &&& *out.1 == self.1
        &&& *out.2 == self.2
        &&& *out.3 == self.3
    }

    open spec fn spec_keeps(&self, after: (T0, T1, T2, T3, T4, T5, T6, T7, T8, T9, T10)) -> bool {
        &&& after.4 == self.4
        &&& after.5 == self.5
        &&& after.6 == self.6
        &&& after.7 == self.7
        &&& after.8 == self.8
        &&& after.9 == self.9
        &&& after.10 == self.10
    }

    fn extract_mut(&'a mut self) -> (r: (&'a mut T0, &'a mut T1, &'a mut T2, &'a mut T3))
        ensures
            ({
                let out: (&'a mut T0, &'a mut T1, &'a mut T2, &'a mut T3) = r;
                *final(self) == (*final(out.0), *final(out.1), *final(out.2), *final(out.3),
                    old(self).4, old(self).5, old(self).6, old(self).7, old(self).8, old(self).9,
                    old(self).10)
            }),
    {
        (&mut self.0, &mut self.1, &mut self.2, &mut self.3)
    }

    proof fn lemma_extract_mut_len() {
    }
}

impl<'a, T0: 'a, T1: 'a, T2: 'a, T3: 'a, T4: 'a, T5: 'a, T6: 'a, T7: 'a, T8: 'a, T9: 'a,
    T10: 'a> TypedExtractMut<'a, 0, 5, (&'a mut T0, &'a mut T1, &'a mut T2, &'a mut T3,
    &'a mut T4)>
    for (T0, T1, T2, T3, T4, T5, T6, T7, T8, T9, T10)
{
    open spec fn spec_borrows(&self, out: (&'a mut T0, &'a mut T1, &'a mut T2, &'a mut T3,
        &'a mut T4)) -> bool {
        &&& *out.0 == self.0
        &&& *out.1 == self.1
        &&& *out.2 == self.2
        &&& *out.3 == self.3
        &&& *out.4 == self.4
    }

    open spec fn spec_keeps(&self, after: (T0, T1, T2, T3, T4, T5, T6, T7, T8, T9, T10)) -> bool {
        &&& after.5 == self.5
        &&& after.6 == self.6
        &&& after.7 == self.7
        &&& after.8 == self.8
        &&& after.9 == self.9
        &&& after.10 == self.10
    }

    fn extract_mut(&'a mut self) -> (r: (&'a mut T0, &'a mut T1, &'a mut T2, &'a mut T3,
        &'a mut T4))
        ensures
            ({
                let out: (&'a mut T0, &'a mut T1, &'a mut T2, &'a mut T3, &'a mut T4) = r;
                *final(self) == (*final(out.0), *final(out.1), *final(out.2), *final(out.3),
                    *final(out.4), old(self).5, old(self).6, old(self).7, old(self).8, old(self).9,
                    old(self).10)
            }),
    {
        (&mut self.0, &mut self.1, &mut self.2, &mut self.3, &mut self.4)
    }

    proof fn lemma_extract_mut_len() {
    }
}

impl<'a, T0: 'a, T1: 'a, T2: 'a, T3: 'a, T4: 'a, T5: 'a, T6: 'a, T7: 'a, T8: 'a, T9: 'a,
    T10: 'a> TypedExtractMut<'a, 0, 6, (&'a mut T0, &'a mut T1, &'a mut T2, &'a mut T3, &'a mut T4,
    &'a mut T5)>
    for (T0, T1, T2, T3, T4, T5, T6, T7, T8, T9, T10)
{
    open spec fn spec_borrows(&self, out: (&'a mut T0, &'a mut T1, &'a mut T2, &'a mut T3,
        &'a mut T4, &'a mut T5)) -> bool {
        &&& *out.0 == self.0
        &&& *out.1 == self.1
        &&& *out.2 == self.2
        &&& *out.3 == self.3
        &&& *out.4 == self.4
        &&& *out.5 == self.5
    }

    open spec fn spec_keeps(&self, after: (T0, T1, T2, T3, T4, T5, T6, T7, T8, T9, T10)) -> bool {
        &&& after.6 == self.6
        &&& after.7 == self.7
        &&& after.8 == self.8
        &&& after.9 == self.9
        &&& after.10 == self.10
    }

    fn extract_mut(&'a mut self) -> (r: (&'a mut T0, &'a mut T1, &'a mut T2, &'a mut T3, &'a mut T4,
        &'a mut T5))
        ensures
            ({
                let out: (&'a mut T0, &'a mut T1, &'a mut T2, &'a mut T3, &'a mut T4,
                    &'a mut T5) = r;
                *final(self) == (*final(out.0), *final(out.1), *final(out.2), *final(out.3),
                    *final(out.4), *final(out.5), old(self).6, old(self).7, old(self).8,
                    old(self).9, old(self).10)
            }),
    {
        (&mut self.0, &mut self.1, &mut self.2, &mut self.3, &mut self.4, &mut self.5)
    }

    proof fn lemma_extract_mut_len() {
    }
}

impl<'a, T0: 'a, T1: 'a, T2: 'a, T3: 'a, T4: 'a, T5: 'a, T6: 'a, T7: 'a, T8: 'a, T9: 'a,
    T10: 'a> TypedExtractMut<'a, 0, 7, (&'a mut T0, &'a mut T1, &'a mut T2, &'a mut T3, &'a mut T4,
    &'a mut T5, &'a mut T6)>
    for (T0, T1, T2, T3, T4, T5, T6, T7, T8, T9, T10)
{
    open spec fn spec_borrows(&self, out: (&'a mut T0, &'a mut T1, &'a mut T2, &'a mut T3,
        &'a mut T4, &'a mut T5, &'a mut T6)) -> bool {
        &&& *out.0 == self.0
        &&& *out.1 == self.1
        &&& *out.2 == self.2
        &&& *out.3 == self.3
        &&& *out.4 == self.4
        &&& *out.5 == self.5
        &&& *out.6 == self.6
    }

    open spec fn spec_keeps(&self, after: (T0, T1, T2, T3, T4, T5, T6, T7, T8, T9, T10)) -> bool {
        &&& after.7 == self.7
        &&& after.8 == self.8
        &&& after.9 == self.9
        &&& after.10 == self.10
    }

    fn extract_mut(&'a mut self) -> (r: (&'a mut T0, &'a mut T1, &'a mut T2, &'a mut T3, &'a mut T4,
        &'a mut T5, &'a mut T6))
        ensures
            ({
                let out: (&'a mut T0, &'a mut T1, &'a mut T2, &'a mut T3, &'a mut T4, &'a mut T5,
                    &'a mut T6) = r;
                *final(self) == (*final(out.0), *final(out.1), *final(out.2), *final(out.3),
                    *final(out.4), *final(out.5), *final(out.6), old(self).7, old(self).8,
                    old(self).9, old(self).10)
            }),
    {
        (&mut self.0, &mut self.1, &mut self.2, &mut self.3, &mut self.4, &mut self.5, &mut self.6)
    }

    proof fn lemma_extract_mut_len() {
    }
}

impl<'a, T0: 'a, T1: 'a, T2: 'a, T3: 'a, T4: 'a, T5: 'a, T6: 'a, T7: 'a, T8: 'a, T9: 'a,
    T10: 'a> TypedExtractMut<'a, 0, 8, (&'a mut T0, &'a mut T1, &'a mut T2, &'a mut T3, &'a mut T4,
    &'a mut T5, &'a mut T6, &'a mut T7)>
    for (T0, T1, T2, T3, T4, T5, T6, T7, T8, T9, T10)
{
    open spec fn spec_borrows(&self, out: (&'a mut T0, &'a mut T1, &'a mut T2, &'a mut T3,
        &'a mut T4, &'a mut T5, &'a mut T6, &'a mut T7)) -> bool {
        &&& *out.0 == self.0
        &&& *out.1 == self.1
        &&& *out.2 == self.2
        &&& *out.3 == self.3
        &&& *out.4 == self.4
        &&& *out.5 == self.5
        &&& *out.6 == self.6
        &&& *out.7 == self.7
    }

    open spec fn spec_keeps(&self, after: (T0, T1, T2, T3, T4, T5, T6, T7, T8, T9, T10)) -> bool {
        &&& after.8 == self.8
        &&& after.9 == self.9
        &&& after.10 == self.10
    }

    fn extract_mut(&'a mut self) -> (r: (&'a mut T0, &'a mut T1, &'a mut T2, &'a mut T3, &'a mut T4,
        &'a mut T5, &'a mut T6, &'a mut T7))
        ensures
            ({
                let out: (&'a mut T0, &'a mut T1, &'a mut T2, &'a mut T3, &'a mut T4, &'a mut T5,
                    &'a mut T6, &'a mut T7) = r;
                *final(self) == (*final(out.0), *final(out.1), *final(out.2), *final(out.3),
                    *final(out.4), *final(out.5), *final(out.6), *final(out.7), old(self).8,
                    old(self).9, old(self).10)
            }),
    {
        (&mut self.0, &mut self.1, &mut self.2, &mut self.3, &mut self.4, &mut self.5, &mut self.6,
            &mut self.7)
    }

    proof fn lemma_extract_mut_len() {
    }
}

impl<'a, T0: 'a, T1: 'a, T2: 'a, T3: 'a, T4: 'a, T5: 'a, T6: 'a, T7: 'a, T8: 'a, T9: 'a,
    T10: 'a> TypedExtractMut<'a, 0, 9, (&'a mut T0, &'a mut T1, &'a mut T2, &'a mut T3, &'a mut T4,
    &'a mut T5, &'a mut T6, &'a mut T7, &'a mut T8)>
    for (T0, T1, T2, T3, T4, T5, T6, T7, T8, T9, T10)
{
    open spec fn spec_borrows(&self, out: (&'a mut T0, &'a mut T1, &'a mut T2, &'a mut T3,
        &'a mut T4, &'a mut T5, &'a mut T6, &'a mut T7, &'a mut T8)) -> bool {
        &&& *out.0 == self.0
        &&& *out.1 == self.1
        &&& *out.2 == self.2
        &&& *out.3 == self.3
        &&& *out.4 == self.4
        &&& *out.5 == self.5
        &&& *out.6 == self.6
        &&& *out.7 == self.7
        &&& *out.8 == self.8
    }

    open spec fn spec_keeps(&self, after: (T0, T1, T2, T3, T4, T5, T6, T7, T8, T9, T10)) -> bool {
        &&& after.9 == self.9
        &&& after.10 == self.10
    }

    fn extract_mut(&'a mut self) -> (r: (&'a mut T0, &'a mut T1, &'a mut T2, &'a mut T3, &'a mut T4,
        &'a mut T5, &'a mut T6, &'a mut T7, &'a mut T8))
        ensures
            ({
                let out: (&'a mut T0, &'a mut T1, &'a mut T2, &'a mut T3, &'a mut T4, &'a mut T5,
                    &'a mut T6, &'a mut T7, &'a mut T8) = r;
                *final(self) == (*final(out.0), *final(out.1), *final(out.2), *final(out.3),
                    *final(out.4), *final(out.5), *final(out.6), *final(out.7), *final(out.8),
                    old(self).9, old(self).10)
            }),
    {
        (&mut self.0, &mut self.1, &mut self.2, &mut self.3, &mut self.4, &mut self.5, &mut self.6,
            &mut self.7, &mut self.8)
    }

    proof fn lemma_extract_mut_len() {
    }
}

impl<'a, T0: 'a, T1: 'a, T2: 'a, T3: 'a, T4: 'a, T5: 'a, T6: 'a, T7: 'a, T8: 'a, T9: 'a,
    T10: 'a> TypedExtractMut<'a, 0, 10, (&'a mut T0, &'a mut T1, &'a mut T2, &'a mut T3, &'a mut T4,
    &'a mut T5, &'a mut T6, &'a mut T7, &'a mut T8, &'a mut T9)>
    for (T0, T1, T2, T3, T4, T5, T6, T7, T8, T9, T10)
{
    open spec fn spec_borrows(&self, out: (&'a mut T0, &'a mut T1, &'a mut T2, &'a mut T3,
        &'a mut T4, &'a mut T5, &'a mut T6, &'a mut T7, &'a mut T8, &'a mut T9)) -> bool {
        &&& *out.0 == self.0
        &&& *out.1 == self.1
        &&& *out.2 == self.2
        &&& *out.3 == self.3
        &&& *out.4 == self.4
        &&& *out.5 == self.5
        &&& *out.6 == self.6
        &&& *out.7 == self.7
        &&& *out.8 == self.8
        &&& *out.9 == self.9
    }

    open spec fn spec_keeps(&self, after: (T0, T1, T2, T3, T4, T5, T6, T7, T8, T9, T10)) -> bool {
        after.10 == self.10
    }

    fn extract_mut(&'a mut self) -> (r: (&'a mut T0, &'a mut T1, &'a mut T2, &'a mut T3, &'a mut T4,
        &'a mut T5, &'a mut T6, &'a mut T7, &'a mut T8, &'a mut T9))
        ensures
            ({
                let out: (&'a mut T0, &'a mut T1, &'a mut T2, &'a mut T3, &'a mut T4, &'a mut T5,
                    &'a mut T6, &'a mut T7, &'a mut T8, &'a mut T9) = r;
                *final(self) == (*final(out.0), *final(out.1), *final(out.2), *final(out.3),
                    *final(out.4), *final(out.5), *final(out.6), *final(out.7), *final(out.8),
                    *final(out.9), old(self).10)
            }),
    {
        (&mut self.0, &mut self.1, &mut self.2, &mut self.3, &mut self.4, &mut self.5, &mut self.6,
            &mut self.7, &mut self.8, &mut self.9)
    }

    proof fn lemma_extract_mut_len() {
    }
}

impl<'a, T0: 'a, T1: 'a, T2: 'a, T3: 'a, T4: 'a, T5: 'a, T6: 'a, T7: 'a, T8: 'a, T9: 'a,
    T10: 'a> TypedExtractMut<'a, 0, 11, (&'a mut T0, &'a mut T1, &'a mut T2, &'a mut T3, &'a mut T4,
    &'a mut T5, &'a mut T6, &'a mut T7, &'a mut T8, &'a mut T9, &'a mut T10)>
    for (T0, T1, T2, T3, T4, T5, T6, T7, T8, T9, T10)
{
    open spec fn spec_borrows(&self, out: (&'a mut T0, &'a mut T1, &'a mut T2, &'a mut T3,
        &'a mut T4, &'a mut T5, &'a mut T6, &'a mut T7, &'a mut T8, &'a mut T9,
        &'a mut T10)) -> bool {
        &&& *out.0 == self.0
        &&& *out.1 == self.1
        &&& *out.2 == self.2
        &&& *out.3 == self.3
        &&& *out.4 == self.4
        &&& *out.5 == self.5
        &&& *out.6 == self.6
        &&& *out.7 == self.7
        &&& *out.8 == self.8
        &&& *out.9 == self.9
        &&& *out.10 == self.10
    }

    open spec fn spec_keeps(&self, after: (T0, T1, T2, T3, T4, T5, T6, T7, T8, T9, T10)) -> bool {
        true
    }

    fn extract_mut(&'a mut self) -> (r: (&'a mut T0, &'a mut T1, &'a mut T2, &'a mut T3, &'a mut T4,
        &'a mut T5, &'a mut T6, &'a mut T7, &'a mut T8, &'a mut T9, &'a mut T10))
        ensures
            ({
                let out: (&'a mut T0, &'a mut T1, &'a mut T2, &'a mut T3, &'a mut T4, &'a mut T5,
                    &'a mut T6, &'a mut T7, &'a mut T8, &'a mut T9, &'a mut T10) = r;
                *final(self) == (*final(out.0), *final(out.1), *final(out.2), *final(out.3),
                    *final(out.4), *final(out.5), *final(out.6), *final(out.7), *final(out.8),
                    *final(out.9), *final(out.10))
            }),
    {
        (&mut self.0, &mut self.1, &mut self.2, &mut self.3, &mut self.4, &mut self.5, &mut self.6,
            &mut self.7, &mut self.8, &mut self.9, &mut self.10)
    }

    proof fn lemma_extract_mut_len() {
    }
}

impl<'a, T0: 'a, T1: 'a, T2: 'a, T3: 'a, T4: 'a, T5: 'a, T6: 'a, T7: 'a, T8: 'a, T9: 'a,
    T10: 'a> TypedExtractMut<'a, 1, 1, ()>
    for (T0, T1, T2, T3, T4, T5, T6, T7, T8, T9, T10)
{
    open spec fn spec_borrows(&self, out: ()) -> bool {
        true
    }

    open spec fn spec_keeps(&self, after: (T0, T1, T2, T3, T4, T5, T6, T7, T8, T9, T10)) -> bool {
        &&& after.0 == self.0
        &&& after.1 == self.1
        &&& after.2 == self.2
        &&& after.3 == self.3
        &&& after.4 == self.4
        &&& after.5 == self.5
        &&& after.6 == self.6
        &&& after.7 == self.7
        &&& after.8 == self.8
        &&& after.9 == self.9
        &&& after.10 == self.10
    }

    fn extract_mut(&'a mut self) -> (r: ()) {
        ()
    }

    proof fn lemma_extract_mut_len() {
    }
}

impl<'a, T0: 'a, T1: 'a, T2: 'a, T3: 'a, T4: 'a, T5: 'a, T6: 'a, T7: 'a, T8: 'a, T9: 'a,
    T10: 'a> TypedExtractMut<'a, 1, 2, (&'a mut T1,)>
    for (T0, T1, T2, T3, T4, T5, T6, T7, T8, T9, T10)
{
    open spec fn spec_borrows(&self, out: (&'a mut T1,)) -> bool {
        *out.0 == self.1
    }

    open spec fn spec_keeps(&self, after: (T0, T1, T2, T3, T4, T5, T6, T7, T8, T9, T10)) -> bool {
        &&& after.0 == self.0
        &&& after.2 == self.2
        &&& after.3 == self.3
        &&& after.4 == self.4
        &&& after.5 == self.5
        &&& after.6 == self.6
        &&& after.7 == self.7
        &&& after.8 == self.8
        &&& after.9 == self.9
        &&& after.10 == self.10
    }

    fn extract_mut(&'a mut self) -> (r: (&'a mut T1,))
        ensures
            ({
                let out: (&'a mut T1,) = r;
                *final(self) == (old(self).0, *final(out.0), old(self).2, old(self).3, old(self).4,
                    old(self).5, old(self).6, old(self).7, old(self).8, old(self).9, old(self).10)
            }),
    {
        (&mut self.1,)
    }

    proof fn lemma_extract_mut_len() {
    }
}

impl<'a, T0: 'a, T1: 'a, T2: 'a, T3: 'a, T4: 'a, T5: 'a, T6: 'a, T7: 'a, T8: 'a, T9: 'a,
    T10: 'a> TypedExtractMut<'a, 1, 3, (&'a mut T1, &'a mut T2)>
    for (T0, T1, T2, T3, T4, T5, T6, T7, T8, T9, T10)
{
    open spec fn spec_borrows(&self, out: (&'a mut T1, &'a mut T2)) -> bool {
        &&& *out.0 == self.1
        &&& *out.1 == self.2
    }

    open spec fn spec_keeps(&self, after: (T0, T1, T2, T3, T4, T5, T6, T7, T8, T9, T10)) -> bool {
        &&& after.0 == self.0
        &&& after.3 == self.3
        &&& after.4 == self.4
        &&& after.5 == self.5
        &&& after.6 == self.6
        &&& after.7 == self.7
        &&& after.8 == self.8
        &&& after.9 == self.9
        &&& after.10 == self.10
    }

    fn extract_mut(&'a mut self) -> (r: (&'a mut T1, &'a mut T2))
        ensures
            ({
                let out: (&'a mut T1, &'a mut T2) = r;
                *final(self) == (old(self).0, *final(out.0), *final(out.1), old(self).3,
                    old(self).4, old(self).5, old(self).6, old(self).7, old(self).8, old(self).9,
                    old(self).10)
            }),
    {
        (&mut self.1, &mut self.2)
    }

    proof fn lemma_extract_mut_len() {
    }
}

impl<'a, T0: 'a, T1: 'a, T2: 'a, T3: 'a, T4: 'a, T5: 'a, T6: 'a, T7: 'a, T8: 'a, T9: 'a,
    T10: 'a> TypedExtractMut<'a, 1, 4, (&'a mut T1, &'a mut T2, &'a mut T3)>
    for (T0, T1, T2, T3, T4, T5, T6, T7, T8, T9, T10)
{
    open spec fn spec_borrows(&self, out: (&'a mut T1, &'a mut T2, &'a mut T3)) -> bool {
        &&& *out.0 == self.1
        &&& *out.1 == self.2
        &&& *out.2 == self.3
    }

    open spec fn spec_keeps(&self, after: (T0, T1, T2, T3, T4, T5, T6, T7, T8, T9, T10)) -> bool {
        &&& after.0 == self.0
        &&& after.4 == self.4
        &&& after.5 == self.5
        &&& after.6 == self.6
        &&& after.7 == self.7
        &&& after.8 == self.8
        &&& after.9 == self.9
        &&& after.10 == self.10
    }

    fn extract_mut(&'a mut self) -> (r: (&'a mut T1, &'a mut T2, &'a mut T3))
        ensures
            ({
                let out: (&'a mut T1, &'a mut T2, &'a mut T3) = r;
                *final(self) == (old(self).0, *final(out.0), *final(out.1), *final(out.2),
                    old(self).4, old(self).5, old(self).6, old(self).7, old(self).8, old(self).9,
                    old(self).10)
            }),
    {
        (&mut self.1, &mut self.2, &mut self.3)
    }

    proof fn lemma_extract_mut_len() {
    }
}

impl<'a, T0: 'a, T1: 'a, T2: 'a, T3: 'a, T4: 'a, T5: 'a, T6: 'a, T7: 'a, T8: 'a, T9: 'a,
    T10: 'a> TypedExtractMut<'a, 1, 5, (&'a mut T1, &'a mut T2, &'a mut T3, &'a mut T4)>
    for (T0, T1, T2, T3, T4, T5, T6, T7, T8, T9, T10)
{
    open spec fn spec_borrows(&self, out: (&'a mut T1, &'a mut T2, &'a mut T3,
        &'a mut T4)) -> bool {
        &&& *out.0 == self.1
        &&& *out.1 == self.2
        &&& *out.2 == self.3
        &&& *out.3 == self.4
    }

    open spec fn spec_keeps(&self, after: (T0, T1, T2, T3, T4, T5, T6, T7, T8, T9, T10)) -> bool {
        &&& after.0 == self.0
        &&& after.5 == self.5
        &&& after.6 == self.6
        &&& after.7 == self.7
        &&& after.8 == self.8
        &&& after.9 == self.9
        &&& after.10 == self.10
    }

    fn extract_mut(&'a mut self) -> (r: (&'a mut T1, &'a mut T2, &'a mut T3, &'a mut T4))
        ensures
            ({
                let out: (&'a mut T1, &'a mut T2, &'a mut T3, &'a mut T4) = r;
                *final(self) == (old(self).0, *final(out.0), *final(out.1), *final(out.2),
                    *final(out.3), old(self).5, old(self).6, old(self).7, old(self).8, old(self).9,
                    old(self).10)
            }),
    {
        (&mut self.1, &mut self.2, &mut self.3, &mut self.4)
    }

    proof fn lemma_extract_mut_len() {
    }
}

impl<'a, T0: 'a, T1: 'a, T2: 'a, T3: 'a, T4: 'a, T5: 'a, T6: 'a, T7: 'a, T8: 'a, T9: 'a,
    T10: 'a> TypedExtractMut<'a, 1, 6, (&'a mut T1, &'a mut T2, &'a mut T3, &'a mut T4,
    &'a mut T5)>
    for (T0, T1, T2, T3, T4, T5, T6, T7, T8, T9, T10)
{
    open spec fn spec_borrows(&self, out: (&'a mut T1, &'a mut T2, &'a mut T3, &'a mut T4,
        &'a mut T5)) -> bool {
        &&& *out.0 == self.1
        &&& *out.1 == self.2
        &&& *out.2 == self.3
        &&& *out.3 == self.4
        &&& *out.4 == self.5
    }

    open spec fn spec_keeps(&self, after: (T0, T1, T2, T3, T4, T5, T6, T7, T8, T9, T10)) -> bool {
        &&& after.0 == self.0
        &&& after.6 == self.6
        &&& after.7 == self.7
        &&& after.8 == self.8
        &&& after.9 == self.9
        &&& after.10 == self.10
    }

    fn extract_mut(&'a mut self) -> (r: (&'a mut T1, &'a mut T2, &'a mut T3, &'a mut T4,
        &'a mut T5))
        ensures
            ({
                let out: (&'a mut T1, &'a mut T2, &'a mut T3, &'a mut T4, &'a mut T5) = r;
                *final(self) == (old(self).0, *final(out.0), *final(out.1), *final(out.2),
                    *final(out.3), *final(out.4), old(self).6, old(self).7, old(self).8,
                    old(self).9, old(self).10)
            }),
    {
        (&mut self.1, &mut self.2, &mut self.3, &mut self.4, &mut self.5)
    }

    proof fn lemma_extract_mut_len() {
    }
}

impl<'a, T0: 'a, T1: 'a, T2: 'a, T3: 'a, T4: 'a, T5: 'a, T6: 'a, T7: 'a, T8: 'a, T9: 'a,
    T10: 'a> TypedExtractMut<'a, 1, 7, (&'a mut T1, &'a mut T2, &'a mut T3, &'a mut T4, &'a mut T5,
    &'a mut T6)>
    for (T0, T1, T2, T3, T4, T5, T6, T7, T8, T9, T10)
{
    open spec fn spec_borrows(&self, out: (&'a mut T1, &'a mut T2, &'a mut T3, &'a mut T4,
        &'a mut T5, &'a mut T6)) -> bool {
        &&& *out.0 == self.1
        &&& *out.1 == self.2
        &&& *out.2 == self.3
        &&& *out.3 == self.4
        &&& *out.4 == self.5
        &&& *out.5 == self.6
    }

    open spec fn spec_keeps(&self, after: (T0, T1, T2, T3, T4, T5, T6, T7, T8, T9, T10)) -> bool {
        &&& after.0 == self.0
        &&& after.7 == self.7
        &&& after.8 == self.8
        &&& after.9 == self.9
        &&& after.10 == self.10
    }

    fn extract_mut(&'a mut self) -> (r: (&'a mut T1, &'a mut T2, &'a mut T3, &'a mut T4, &'a mut T5,
        &'a mut T6))
        ensures
            ({
                let out: (&'a mut T1, &'a mut T2, &'a mut T3, &'a mut T4, &'a mut T5,
                    &'a mut T6) = r;
                *final(self) == (old(self).0, *final(out.0), *final(out.1), *final(out.2),
                    *final(out.3), *final(out.4), *final(out.5), old(self).7, old(self).8,
                    old(self).9, old(self).10)
            }),
    {
        (&mut self.1, &mut self.2, &mut self.3, &mut self.4, &mut self.5, &mut self.6)
    }

    proof fn lemma_extract_mut_len() {
    }
}

impl<'a, T0: 'a, T1: 'a, T2: 'a, T3: 'a, T4: 'a, T5: 'a, T6: 'a, T7: 'a, T8: 'a, T9: 'a,
    T10: 'a> TypedExtractMut<'a, 1, 8, (&'a mut T1, &'a mut T2, &'a mut T3, &'a mut T4, &'a mut T5,
    &'a mut T6, &'a mut T7)>
    for (T0, T1, T2, T3, T4, T5, T6, T7, T8, T9, T10)
{
    open spec fn spec_borrows(&self, out: (&'a mut T1, &'a mut T2, &'a mut T3, &'a mut T4,
        &'a mut T5, &'a mut T6, &'a mut T7)) -> bool {
        &&& *out.0 == self.1
        &&& *out.1 == self.2
        &&& *out.2 == self.3
        &&& *out.3 == self.4
        &&& *out.4 == self.5
        &&& *out.5 == self.6
        &&& *out.6 == self.7
    }

    open spec fn spec_keeps(&self, after: (T0, T1, T2, T3, T4, T5, T6, T7, T8, T9, T10)) -> bool {
        &&& after.0 == self.0
        &&& after.8 == self.8
        &&& after.9 == self.9
        &&& after.10 == self.10
    }

    fn extract_mut(&'a mut self) -> (r: (&'a mut T1, &'a mut T2, &'a mut T3, &'a mut T4, &'a mut T5,
        &'a mut T6, &'a mut T7))
        ensures
            ({
                let out: (&'a mut T1, &'a mut T2, &'a mut T3, &'a mut T4, &'a mut T5, &'a mut T6,
                    &'a mut T7) = r;
                *final(self) == (old(self).0, *final(out.0), *final(out.1), *final(out.2),
                    *final(out.3), *final(out.4), *final(out.5), *final(out.6), old(self).8,
                    old(self).9, old(self).10)
            }),
    {
        (&mut self.1, &mut self.2, &mut self.3, &mut self.4, &mut self.5, &mut self.6, &mut self.7)
    }

    proof fn lemma_extract_mut_len() {
    }
}

impl<'a, T0: 'a, T1: 'a, T2: 'a, T3: 'a, T4: 'a, T5: 'a, T6: 'a, T7: 'a, T8: 'a, T9: 'a,
    T10: 'a> TypedExtractMut<'a, 1, 9, (&'a mut T1, &'a mut T2, &'a mut T3, &'a mut T4, &'a mut T5,
    &'a mut T6, &'a mut T7, &'a mut T8)>
    for (T0, T1, T2, T3, T4, T5, T6, T7, T8, T9, T10)
{
    open spec fn spec_borrows(&self, out: (&'a mut T1, &'a mut T2, &'a mut T3, &'a mut T4,
        &'a mut T5, &'a mut T6, &'a mut T7, &'a mut T8)) -> bool {
        &&& *out.0 == self.1
        &&& *out.1 == self.2
        &&& *out.2 == self.3
        &&& *out.3 == self.4
        &&& *out.4 == self.5
        &&& *out.5 == self.6
        &&& *out.6 == self.7
        &&& *out.7 == self.8
    }

    open spec fn spec_keeps(&self, after: (T0, T1, T2, T3, T4, T5, T6, T7, T8, T9, T10)) -> bool {
        &&& after.0 == self.0
        &&& after.9 == self.9
        &&& after.10 == self.10
    }

    fn extract_mut(&'a mut self) -> (r: (&'a mut T1, &'a mut T2, &'a mut T3, &'a mut T4, &'a mut T5,
        &'a mut T6, &'a mut T7, &'a mut T8))
        ensures
            ({
                let out: (&'a mut T1, &'a mut T2, &'a mut T3, &'a mut T4, &'a mut T5, &'a mut T6,
                    &'a mut T7, &'a mut T8) = r;
                *final(self) == (old(self).0, *final(out.0), *final(out.1), *final(out.2),
                    *final(out.3), *final(out.4), *final(out.5), *final(out.6), *final(out.7),
                    old(self).9, old(self).10)
            }),
    {
        (&mut self.1, &mut self.2, &mut self.3, &mut self.4, &mut self.5, &mut self.6, &mut self.7,
            &mut self.8)
    }

    proof fn lemma_extract_mut_len() {
    }
}

impl<'a, T0: 'a, T1: 'a, T2: 'a, T3: 'a, T4: 'a, T5: 'a, T6: 'a, T7: 'a, T8: 'a, T9: 'a,
    T10: 'a> TypedExtractMut<'a, 1, 10, (&'a mut T1, &'a mut T2, &'a mut T3, &'a mut T4, &'a mut T5,
    &'a mut T6, &'a mut T7, &'a mut T8, &'a mut T9)>
    for (T0, T1, T2, T3, T4, T5, T6, T7, T8, T9, T10)
{
    open spec fn spec_borrows(&self, out: (&'a mut T1, &'a mut T2, &'a mut T3, &'a mut T4,
        &'a mut T5, &'a mut T6, &'a mut T7, &'a mut T8, &'a mut T9)) -> bool {
        &&& *out.0 == self.1
        &&& *out.1 == self.2
        &&& *out.2 == self.3
        &&& *out.3 == self.4
        &&& *out.4 == self.5
        &&& *out.5 == self.6
        &&& *out.6 == self.7
        &&& *out.7 == self.8
        &&& *out.8 == self.9
    }

    open spec fn spec_keeps(&self, after: (T0, T1, T2, T3, T4, T5, T6, T7, T8, T9, T10)) -> bool {
        &&& after.0 == self.0
        &&& after.10 == self.10
    }

    fn extract_mut(&'a mut self) -> (r: (&'a mut T1, &'a mut T2, &'a mut T3, &'a mut T4, &'a mut T5,
        &'a mut T6, &'a mut T7, &'a mut T8, &'a mut T9))
        ensures
            ({
                let out: (&'a mut T1, &'a mut T2, &'a mut T3, &'a mut T4, &'a mut T5, &'a mut T6,
                    &'a mut T7, &'a mut T8, &'a mut T9) = r;
                *final(self) == (old(self).0, *final(out.0), *final(out.1), *final(out.2),
                    *final(out.3), *final(out.4), *final(out.5), *final(out.6), *final(out.7),
                    *final(out.8), old(self).10)
            }),
    {
        (&mut self.1, &mut self.2, &mut self.3, &mut self.4, &mut self.5, &mut self.6, &mut self.7,
            &mut self.8, &mut self.9)
    }

    proof fn lemma_extract_mut_len() {
    }
}

impl<'a, T0: 'a, T1: 'a, T2: 'a, T3: 'a, T4: 'a, T5: 'a, T6: 'a, T7: 'a, T8: 'a, T9: 'a,
    T10: 'a> TypedExtractMut<'a, 1, 11, (&'a mut T1, &'a mut T2, &'a mut T3, &'a mut T4, &'a mut T5,
    &'a mut T6, &'a mut T7, &'a mut T8, &'a mut T9, &'a mut T10)>
    for (T0, T1, T2, T3, T4, T5, T6, T7, T8, T9, T10)
{
    open spec fn spec_borrows(&self, out: (&'a mut T1, &'a mut T2, &'a mut T3, &'a mut T4,
        &'a mut T5, &'a mut T6, &'a mut T7, &'a mut T8, &'a mut T9, &'a mut T10)) -> bool {
        &&& *out.0 == self.1
        &&& *out.1 == self.2
        &&& *out.2 == self.3
        &&& *out.3 == self.4
        &&& *out.4 == self.5
        &&& *out.5 == self.6
        &&& *out.6 == self.7
        &&& *out.7 == self.8
        &&& *out.8 == self.9
        &&& *out.9 == self.10
    }

    open spec fn spec_keeps(&self, after: (T0, T1, T2, T3, T4, T5, T6, T7, T8, T9, T10)) -> bool {
        after.0 == self.0
    }

    fn extract_mut(&'a mut self) -> (r: (&'a mut T1, &'a mut T2, &'a mut T3, &'a mut T4, &'a mut T5,
        &'a mut T6, &'a mut T7, &'a mut T8, &'a mut T9, &'a mut T10))
        ensures
            ({
                let out: (&'a mut T1, &'a mut T2, &'a mut T3, &'a mut T4, &'a mut T5, &'a mut T6,
                    &'a mut T7, &'a mut T8, &'a mut T9, &'a mut T10) = r;
                *final(self) == (old(self).0, *final(out.0), *final(out.1), *final(out.2),
                    *final(out.3), *final(out.4), *final(out.5), *final(out.6), *final(out.7),
                    *final(out.8), *final(out.9))
            }),
    {
        (&mut self.1, &mut self.2, &mut self.3, &mut self.4, &mut self.5, &mut self.6, &mut self.7,
            &mut self.8, &mut self.9, &mut self.10)
    }

    proof fn lemma_extract_mut_len() {
    }
}

impl<'a, T0: 'a, T1: 'a, T2: 'a, T3: 'a, T4: 'a, T5: 'a, T6: 'a, T7: 'a, T8: 'a, T9: 'a,
    T10: 'a> TypedExtractMut<'a, 2, 2, ()>
    for (T0, T1, T2, T3, T4, T5, T6, T7, T8, T9, T10)
{
    open spec fn spec_borrows(&self, out: ()) -> bool {
        true
    }

    open spec fn spec_keeps(&self, after: (T0, T1, T2, T3, T4, T5, T6, T7, T8, T9, T10)) -> bool {
        &&& after.0 == self.0
        &&& after.1 == self.1
        &&& after.2 == self.2
        &&& after.3 == self.3
        &&& after.4 == self.4
        &&& after.5 == self.5
        &&& after.6 == self.6
        &&& after.7 == self.7
        &&& after.8 == self.8
        &&& after.9 == self.9
        &&& after.10 == self.10
    }

    fn extract_mut(&'a mut self) -> (r: ()) {
        ()
    }

    proof fn lemma_extract_mut_len() {
    }
}

impl<'a, T0: 'a, T1: 'a, T2: 'a, T3: 'a, T4: 'a, T5: 'a, T6: 'a, T7: 'a, T8: 'a, T9: 'a,
    T10: 'a> TypedExtractMut<'a, 2, 3, (&'a mut T2,)>
    for (T0, T1, T2, T3, T4, T5, T6, T7, T8, T9, T10)
{
    open spec fn spec_borrows(&self, out: (&'a mut T2,)) -> bool {
        *out.0 == self.2
    }

    open spec fn spec_keeps(&self, after: (T0, T1, T2, T3, T4, T5, T6, T7, T8, T9, T10)) -> bool {
        &&& after.0 == self.0
        &&& after.1 == self.1
        &&& after.3 == self.3
        &&& after.4 == self.4
        &&& after.5 == self.5
        &&& after.6 == self.6
        &&& after.7 == self.7
        &&& after.8 == self.8
        &&& after.9 == self.9
        &&& after.10 == self.10
    }

    fn extract_mut(&'a mut self) -> (r: (&'a mut T2,))
        ensures
            ({
                let out: (&'a mut T2,) = r;
                *final(self) == (old(self).0, old(self).1, *final(out.0), old(self).3, old(self).4,
                    old(self).5, old(self).6, old(self).7, old(self).8, old(self).9, old(self).10)
            }),
    {
        (&mut self.2,)
    }

    proof fn lemma_extract_mut_len() {
    }
}

impl<'a, T0: 'a, T1: 'a, T2: 'a, T3: 'a, T4: 'a, T5: 'a, T6: 'a, T7: 'a, T8: 'a, T9: 'a,
    T10: 'a> TypedExtractMut<'a, 2, 4, (&'a mut T2, &'a mut T3)>
    for (T0, T1, T2, T3, T4, T5, T6, T7, T8, T9, T10)
{
    open spec fn spec_borrows(&self, out: (&'a mut T2, &'a mut T3)) -> bool {
        &&& *out.0 == self.2
        &&& *out.1 == self.3
    }

    open spec fn spec_keeps(&self, after: (T0, T1, T2, T3, T4, T5, T6, T7, T8, T9, T10)) -> bool {
        &&& after.0 == self.0
        &&& after.1 == self.1
        &&& after.4 == self.4
        &&& after.5 == self.5
        &&& after.6 == self.6
        &&& after.7 == self.7
        &&& after.8 == self.8
        &&& after.9 == self.9
        &&& after.10 == self.10
    }

    fn extract_mut(&'a mut self) -> (r: (&'a mut T2, &'a mut T3))
        ensures
            ({
                let out: (&'a mut T2, &'a mut T3) = r;
                *final(self) == (old(self).0, old(self).1, *final(out.0), *final(out.1),
                    old(self).4, old(self).5, old(self).6, old(self).7, old(self).8, old(self).9,
                    old(self).10)
            }),
    {
        (&mut self.2, &mut self.3)
    }

    proof fn lemma_extract_mut_len() {
    }
}

impl<'a, T0: 'a, T1: 'a, T2: 'a, T3: 'a, T4: 'a, T5: 'a, T6: 'a, T7: 'a, T8: 'a, T9: 'a,
    T10: 'a> TypedExtractMut<'a, 2, 5, (&'a mut T2, &'a mut T3, &'a mut T4)>
    for (T0, T1, T2, T3, T4, T5, T6, T7, T8, T9, T10)
{
    open spec fn spec_borrows(&self, out: (&'a mut T2, &'a mut T3, &'a mut T4)) -> bool {
        &&& *out.0 == self.2
        &&& *out.1 == self.3
        &&& *out.2 == self.4
    }

    open spec fn spec_keeps(&self, after: (T0, T1, T2, T3, T4, T5, T6, T7, T8, T9, T10)) -> bool {
        &&& after.0 == self.0
        &&& after.1 == self.1
        &&& after.5 == self.5
        &&& after.6 == self.6
        &&& after.7 == self.7
        &&& after.8 == self.8
        &&& after.9 == self.9
        &&& after.10 == self.10
    }

    fn extract_mut(&'a mut self) -> (r: (&'a mut T2, &'a mut T3, &'a mut T4))
        ensures
            ({
                let out: (&'a mut T2, &'a mut T3, &'a mut T4) = r;
                *final(self) == (old(self).0, old(self).1, *final(out.0), *final(out.1),
                    *final(out.2), old(self).5, old(self).6, old(self).7, old(self).8, old(self).9,
                    old(self).10)
            }),
    {
        (&mut self.2, &mut self.3, &mut self.4)
    }

    proof fn lemma_extract_mut_len() {
    }
}

impl<'a, T0: 'a, T1: 'a, T2: 'a, T3: 'a, T4: 'a, T5: 'a, T6: 'a, T7: 'a, T8: 'a, T9: 'a,
    T10: 'a> TypedExtractMut<'a, 2, 6, (&'a mut T2, &'a mut T3, &'a mut T4, &'a mut T5)>
    for (T0, T1, T2, T3, T4, T5, T6, T7, T8, T9, T10)
{
    open spec fn spec_borrows(&self, out: (&'a mut T2, &'a mut T3, &'a mut T4,
        &'a mut T5)) -> bool {
        &&& *out.0 == self.2
        &&& *out.1 == self.3
        &&& *out.2 == self.4
        &&& *out.3 == self.5
    }

    open spec fn spec_keeps(&self, after: (T0, T1, T2, T3, T4, T5, T6, T7, T8, T9, T10)) -> bool {
        &&& after.0 == self.0
        &&& after.1 == self.1
        &&& after.6 == self.6
        &&& after.7 == self.7
        &&& after.8 == self.8
        &&& after.9 == self.9
        &&& after.10 == self.10
    }

    fn extract_mut(&'a mut self) -> (r: (&'a mut T2, &'a mut T3, &'a mut T4, &'a mut T5))
        ensures
            ({
                let out: (&'a mut T2, &'a mut T3, &'a mut T4, &'a mut T5) = r;
                *final(self) == (old(self).0, old(self).1, *final(out.0), *final(out.1),
                    *final(out.2), *final(out.3), old(self).6, old(self).7, old(self).8,
                    old(self).9, old(self).10)
            }),
    {
        (&mut self.2, &mut self.3, &mut self.4, &mut self.5)
    }

    proof fn lemma_extract_mut_len() {
    }
}

impl<'a, T0: 'a, T1: 'a, T2: 'a, T3: 'a, T4: 'a, T5: 'a, T6: 'a, T7: 'a, T8: 'a, T9: 'a,
    T10: 'a> TypedExtractMut<'a, 2, 7, (&'a mut T2, &'a mut T3, &'a mut T4, &'a mut T5,
    &'a mut T6)>
    for (T0, T1, T2, T3, T4, T5, T6, T7, T8, T9, T10)
{
    open spec fn spec_borrows(&self, out: (&'a mut T2, &'a mut T3, &'a mut T4, &'a mut T5,
        &'a mut T6)) -> bool {
        &&& *out.0 == self.2
        &&& *out.1 == self.3
        &&& *out.2 == self.4
        &&& *out.3 == self.5
        &&& *out.4 == self.6
    }

    open spec fn spec_keeps(&self, after: (T0, T1, T2, T3, T4, T5, T6, T7, T8, T9, T10)) -> bool {
        &&& after.0 == self.0
        &&& after.1 == self.1
        &&& after.7 == self.7
        &&& after.8 == self.8
        &&& after.9 == self.9
        &&& after.10 == self.10
    }

    fn extract_mut(&'a mut self) -> (r: (&'a mut T2, &'a mut T3, &'a mut T4, &'a mut T5,
        &'a mut T6))
        ensures
            ({
                let out: (&'a mut T2, &'a mut T3, &'a mut T4, &'a mut T5, &'a mut T6) = r;
                *final(self) == (old(self).0, old(self).1, *final(out.0), *final(out.1),
                    *final(out.2), *final(out.3), *final(out.4), old(self).7, old(self).8,
                    old(self).9, old(self).10)
            }),
    {
        (&mut self.2, &mut self.3, &mut self.4, &mut self.5, &mut self.6)
    }

    proof fn lemma_extract_mut_len() {
    }
}

impl<'a, T0: 'a, T1: 'a, T2: 'a, T3: 'a, T4: 'a, T5: 'a, T6: 'a, T7: 'a, T8: 'a, T9: 'a,
    T10: 'a> TypedExtractMut<'a, 2, 8, (&'a mut T2, &'a mut T3, &'a mut T4, &'a mut T5, &'a mut T6,
    &'a mut T7)>
    for (T0, T1, T2, T3, T4, T5, T6, T7, T8, T9, T10)
{
    open spec fn spec_borrows(&self, out: (&'a mut T2, &'a mut T3, &'a mut T4, &'a mut T5,
        &'a mut T6, &'a mut T7)) -> bool {
        &&& *out.0 == self.2
        &&& *out.1 == self.3
        &&& *out.2 == self.4
        &&& *out.3 == self.5
        &&& *out.4 == self.6
        &&& *out.5 == self.7
    }

    open spec fn spec_keeps(&self, after: (T0, T1, T2, T3, T4, T5, T6, T7, T8, T9, T10)) -> bool {
        &&& after.0 == self.0
        &&& after.1 == self.1
        &&& after.8 == self.8
        &&& after.9 == self.9
        &&& after.10 == self.10
    }

    fn extract_mut(&'a mut self) -> (r: (&'a mut T2, &'a mut T3, &'a mut T4, &'a mut T5, &'a mut T6,
        &'a mut T7))
        ensures
            ({
                let out: (&'a mut T2, &'a mut T3, &'a mut T4, &'a mut T5, &'a mut T6,
                    &'a mut T7) = r;
                *final(self) == (old(self).0, old(self).1, *final(out.0), *final(out.1),
                    *final(out.2), *final(out.3), *final(out.4), *final(out.5), old(self).8,
                    old(self).9, old(self).10)
            }),
    {
        (&mut self.2, &mut self.3, &mut self.4, &mut self.5, &mut self.6, &mut self.7)
    }

    proof fn lemma_extract_mut_len() {
    }
}

impl<'a, T0: 'a, T1: 'a, T2: 'a, T3: 'a, T4: 'a, T5: 'a, T6: 'a, T7: 'a, T8: 'a, T9: 'a,
    T10: 'a> TypedExtractMut<'a, 2, 9, (&'a mut T2, &'a mut T3, &'a mut T4, &'a mut T5, &'a mut T6,
    &'a mut T7, &'a mut T8)>
    for (T0, T1, T2, T3, T4, T5, T6, T7, T8, T9, T10)
{
    open spec fn spec_borrows(&self, out: (&'a mut T2, &'a mut T3, &'a mut T4, &'a mut T5,
        &'a mut T6, &'a mut T7, &'a mut T8)) -> bool {
        &&& *out.0 == self.2
        &&& *out.1 == self.3
        &&& *out.2 == self.4
        &&& *out.3 == self.5
        &&& *out.4 == self.6
        &&& *out.5 == self.7
        &&& *out.6 == self.8
    }

    open spec fn spec_keeps(&self, after: (T0, T1, T2, T3, T4, T5, T6, T7, T8, T9, T10)) -> bool {
        &&& after.0 == self.0
        &&& after.1 == self.1
        &&& after.9 == self.9
        &&& after.10 == self.10
    }

    fn extract_mut(&'a mut self) -> (r: (&'a mut T2, &'a mut T3, &'a mut T4, &'a mut T5, &'a mut T6,
        &'a mut T7, &'a mut T8))
        ensures
            ({
                let out: (&'a mut T2, &'a mut T3, &'a mut T4, &'a mut T5, &'a mut T6, &'a mut T7,
                    &'a mut T8) = r;
                *final(self) == (old(self).0, old(self).1, *final(out.0), *final(out.1),
                    *final(out.2), *final(out.3), *final(out.4), *final(out.5), *final(out.6),
                    old(self).9, old(self).10)
            }),
    {
        (&mut self.2, &mut self.3, &mut self.4, &mut self.5, &mut self.6, &mut self.7, &mut self.8)
    }

    proof fn lemma_extract_mut_len() {
    }
}

impl<'a, T0: 'a, T1: 'a, T2: 'a, T3: 'a, T4: 'a, T5: 'a, T6: 'a, T7: 'a, T8: 'a, T9: 'a,
    T10: 'a> TypedExtractMut<'a, 2, 10, (&'a mut T2, &'a mut T3, &'a mut T4, &'a mut T5, &'a mut T6,
    &'a mut T7, &'a mut T8, &'a mut T9)>
    for (T0, T1, T2, T3, T4, T5, T6, T7, T8, T9, T10)
{
    open spec fn spec_borrows(&self, out: (&'a mut T2, &'a mut T3, &'a mut T4, &'a mut T5,
        &'a mut T6, &'a mut T7, &'a mut T8, &'a mut T9)) -> bool {
        &&& *out.0 == self.2
        &&& *out.1 == self.3
        &&& *out.2 == self.4
        &&& *out.3 == self.5
        &&& *out.4 == self.6
        &&& *out.5 == self.7
        &&& *out.6 == self.8
        &&& *out.7 == self.9
    }

    open spec fn spec_keeps(&self, after: (T0, T1, T2, T3, T4, T5, T6, T7, T8, T9, T10)) -> bool {
        &&& after.0 == self.0
        &&& after.1 == self.1
        &&& after.10 == self.10
    }

    fn extract_mut(&'a mut self) -> (r: (&'a mut T2, &'a mut T3, &'a mut T4, &'a mut T5, &'a mut T6,
        &'a mut T7, &'a mut T8, &'a mut T9))
        ensures
            ({
                let out: (&'a mut T2, &'a mut T3, &'a mut T4, &'a mut T5, &'a mut T6, &'a mut T7,
                    &'a mut T8, &'a mut T9) = r;
                *final(self) == (old(self).0, old(self).1, *final(out.0), *final(out.1),
                    *final(out.2), *final(out.3), *final(out.4), *final(out.5), *final(out.6),
                    *final(out.7), old(self).10)
            }),
    {
        (&mut self.2, &mut self.3, &mut self.4, &mut self.5, &mut self.6, &mut self.7, &mut self.8,
            &mut self.9)
    }

    proof fn lemma_extract_mut_len() {
    }
}

impl<'a, T0: 'a, T1: 'a, T2: 'a, T3: 'a, T4: 'a, T5: 'a, T6: 'a, T7: 'a, T8: 'a, T9: 'a,
    T10: 'a> TypedExtractMut<'a, 2, 11, (&'a mut T2, &'a mut T3, &'a mut T4, &'a mut T5, &'a mut T6,
    &'a mut T7, &'a mut T8, &'a mut T9, &'a mut T10)>
    for (T0, T1, T2, T3, T4, T5, T6, T7, T8, T9, T10)
{
    open spec fn spec_borrows(&self, out: (&'a mut T2, &'a mut T3, &'a mut T4, &'a mut T5,
        &'a mut T6, &'a mut T7, &'a mut T8, &'a mut T9, &'a mut T10)) -> bool {
        &&& *out.0 == self.2
        &&& *out.1 == self.3
        &&& *out.2 == self.4
        &&& *out.3 == self.5
        &&& *out.4 == self.6
        &&& *out.5 == self.7
        &&& *out.6 == self.8
        &&& *out.7 == self.9
        &&& *out.8 == self.10
    }

    open spec fn spec_keeps(&self, after: (T0, T1, T2, T3, T4, T5, T6, T7, T8, T9, T10)) -> bool {
        &&& after.0 == self.0
        &&& after.1 == self.1
    }

    fn extract_mut(&'a mut self) -> (r: (&'a mut T2, &'a mut T3, &'a mut T4, &'a mut T5, &'a mut T6,
        &'a mut T7, &'a mut T8, &'a mut T9, &'a mut T10))
        ensures
            ({
                let out: (&'a mut T2, &'a mut T3, &'a mut T4, &'a mut T5, &'a mut T6, &'a mut T7,
                    &'a mut T8, &'a mut T9, &'a mut T10) = r;
                *final(self) == (old(self).0, old(self).1, *final(out.0), *final(out.1),
                    *final(out.2), *final(out.3), *final(out.4), *final(out.5), *final(out.6),
                    *final(out.7), *final(out.8))
            }),
    {
        (&mut self.2, &mut self.3, &mut self.4, &mut self.5, &mut self.6, &mut self.7, &mut self.8,
            &mut self.9, &mut self.10)
    }

    proof fn lemma_extract_mut_len() {
    }
}

impl<'a, T0: 'a, T1: 'a, T2: 'a, T3: 'a, T4: 'a, T5: 'a, T6: 'a, T7: 'a, T8: 'a, T9: 'a,
    T10: 'a> TypedExtractMut<'a, 3, 3, ()>
    for (T0, T1, T2, T3, T4, T5, T6, T7, T8, T9, T10)
{
    open spec fn spec_borrows(&self, out: ()) -> bool {
        true
    }

    open spec fn spec_keeps(&self, after: (T0, T1, T2, T3, T4, T5, T6, T7, T8, T9, T10)) -> bool {
        &&& after.0 == self.0
        &&& after.1 == self.1
        &&& after.2 == self.2
        &&& after.3 == self.3
        &&& after.4 == self.4
        &&& after.5 == self.5
        &&& after.6 == self.6
        &&& after.7 == self.7
        &&& after.8 == self.8
        &&& after.9 == self.9
        &&& after.10 == self.10
    }

    fn extract_mut(&'a mut self) -> (r: ()) {
        ()
    }

    proof fn lemma_extract_mut_len() {
    }
}

impl<'a, T0: 'a, T1: 'a, T2: 'a, T3: 'a, T4: 'a, T5: 'a, T6: 'a, T7: 'a, T8: 'a, T9: 'a,
    T10: 'a> TypedExtractMut<'a, 3, 4, (&'a mut T3,)>
    for (T0, T1, T2, T3, T4, T5, T6, T7, T8, T9, T10)
{
    open spec fn spec_borrows(&self, out: (&'a mut T3,)) -> bool {
        *out.0 == self.3
    }

    open spec fn spec_keeps(&self, after: (T0, T1, T2, T3, T4, T5, T6, T7, T8, T9, T10)) -> bool {
        &&& after.0 == self.0
        &&& after.1 == self.1
        &&& after.2 == self.2
        &&& after.4 == self.4
        &&& after.5 == self.5
        &&& after.6 == self.6
        &&& after.7 == self.7
        &&& after.8 == self.8
        &&& after.9 == self.9
        &&& after.10 == self.10
    }

    fn extract_mut(&'a mut self) -> (r: (&'a mut T3,))
        ensures
            ({
                let out: (&'a mut T3,) = r;
                *final(self) == (old(self).0, old(self).1, old(self).2, *final(out.0), old(self).4,
                    old(self).5, old(self).6, old(self).7, old(self).8, old(self).9, old(self).10)
            }),
    {
        (&mut self.3,)
    }

    proof fn lemma_extract_mut_len() {
    }
}

impl<'a, T0: 'a, T1: 'a, T2: 'a, T3: 'a, T4: 'a, T5: 'a, T6: 'a, T7: 'a, T8: 'a, T9: 'a,
    T10: 'a> TypedExtractMut<'a, 3, 5, (&'a mut T3, &'a mut T4)>
    for (T0, T1, T2, T3, T4, T5, T6, T7, T8, T9, T10)
{
    open spec fn spec_borrows(&self, out: (&'a mut T3, &'a mut T4)) -> bool {
        &&& *out.0 == self.3
        &&& *out.1 == self.4
    }

    open spec fn spec_keeps(&self, after: (T0, T1, T2, T3, T4, T5, T6, T7, T8, T9, T10)) -> bool {
        &&& after.0 == self.0
        &&& after.1 == self.1
        &&& after.2 == self.2
        &&& after.5 == self.5
        &&& after.6 == self.6
        &&& after.7 == self.7
        &&& after.8 == self.8
        &&& after.9 == self.9
        &&& after.10 == self.10
    }

    fn extract_mut(&'a mut self) -> (r: (&'a mut T3, &'a mut T4))
        ensures
            ({
                let out: (&'a mut T3, &'a mut T4) = r;
                *final(self) == (old(self).0, old(self).1, old(self).2, *final(out.0),
                    *final(out.1), old(self).5, old(self).6, old(self).7, old(self).8, old(self).9,
                    old(self).10)
            }),
    {
        (&mut self.3, &mut self.4)
    }

    proof fn lemma_extract_mut_len() {
    }
}

impl<'a, T0: 'a, T1: 'a, T2: 'a, T3: 'a, T4: 'a, T5: 'a, T6: 'a, T7: 'a, T8: 'a, T9: 'a,
    T10: 'a> TypedExtractMut<'a, 3, 6, (&'a mut T3, &'a mut T4, &'a mut T5)>
    for (T0, T1, T2, T3, T4, T5, T6, T7, T8, T9, T10)
{
    open spec fn spec_borrows(&self, out: (&'a mut T3, &'a mut T4, &'a mut T5)) -> bool {
        &&& *out.0 == self.3
        &&& *out.1 == self.4
        &&& *out.2 == self.5
    }

    open spec fn spec_keeps(&self, after: (T0, T1, T2, T3, T4, T5, T6, T7, T8, T9, T10)) -> bool {
        &&& after.0 == self.0
        &&& after.1 == self.1
        &&& after.2 == self.2
        &&& after.6 == self.6
        &&& after.7 == self.7
        &&& after.8 == self.8
        &&& after.9 == self.9
        &&& after.10 == self.10
    }

    fn extract_mut(&'a mut self) -> (r: (&'a mut T3, &'a mut T4, &'a mut T5))
        ensures
            ({
                let out: (&'a mut T3, &'a mut T4, &'a mut T5) = r;
                *final(self) == (old(self).0, old(self).1, old(self).2, *final(out.0),
                    *final(out.1), *final(out.2), old(self).6, old(self).7, old(self).8,
                    old(self).9, old(self).10)
            }),
    {
        (&mut self.3, &mut self.4, &mut self.5)
    }

    proof fn lemma_extract_mut_len() {
    }
}

impl<'a, T0: 'a, T1: 'a, T2: 'a, T3: 'a, T4: 'a, T5: 'a, T6: 'a, T7: 'a, T8: 'a, T9: 'a,
    T10: 'a> TypedExtractMut<'a, 3, 7, (&'a mut T3, &'a mut T4, &'a mut T5, &'a mut T6)>
    for (T0, T1, T2, T3, T4, T5, T6, T7, T8, T9, T10)
{
    open spec fn spec_borrows(&self, out: (&'a mut T3, &'a mut T4, &'a mut T5,
        &'a mut T6)) -> bool {
        &&& *out.0 == self.3
        &&& *out.1 == self.4
        &&& *out.2 == self.5
        &&& *out.3 == self.6
    }

    open spec fn spec_keeps(&self, after: (T0, T1, T2, T3, T4, T5, T6, T7, T8, T9, T10)) -> bool {
        &&& after.0 == self.0
        &&& after.1 == self.1
        &&& after.2 == self.2
        &&& after.7 == self.7
        &&& after.8 == self.8
        &&& after.9 == self.9
        &&& after.10 == self.10
    }

    fn extract_mut(&'a mut self) -> (r: (&'a mut T3, &'a mut T4, &'a mut T5, &'a mut T6))
        ensures
            ({
                let out: (&'a mut T3, &'a mut T4, &'a mut T5, &'a mut T6) = r;
                *final(self) == (old(self).0, old(self).1, old(self).2, *final(out.0),
                    *final(out.1), *final(out.2), *final(out.3), old(self).7, old(self).8,
                    old(self).9, old(self).10)
            }),
    {
        (&mut self.3, &mut self.4, &mut self.5, &mut self.6)
    }

    proof fn lemma_extract_mut_len() {
    }
}

impl<'a, T0: 'a, T1: 'a, T2: 'a, T3: 'a, T4: 'a, T5: 'a, T6: 'a, T7: 'a, T8: 'a, T9: 'a,
    T10: 'a> TypedExtractMut<'a, 3, 8, (&'a mut T3, &'a mut T4, &'a mut T5, &'a mut T6,
    &'a mut T7)>
    for (T0, T1, T2, T3, T4, T5, T6, T7, T8, T9, T10)
{
    open spec fn spec_borrows(&self, out: (&'a mut T3, &'a mut T4, &'a mut T5, &'a mut T6,
        &'a mut T7)) -> bool {
        &&& *out.0 == self.3
        &&& *out.1 == self.4
        &&& *out.2 == self.5
        &&& *out.3 == self.6
        &&& *out.4 == self.7
    }

    open spec fn spec_keeps(&self, after: (T0, T1, T2, T3, T4, T5, T6, T7, T8, T9, T10)) -> bool {
        &&& after.0 == self.0
        &&& after.1 == self.1
        &&& after.2 == self.2
        &&& after.8 == self.8
        &&& after.9 == self.9
        &&& after.10 == self.10
    }

    fn extract_mut(&'a mut self) -> (r: (&'a mut T3, &'a mut T4, &'a mut T5, &'a mut T6,
        &'a mut T7))
        ensures
            ({
                let out: (&'a mut T3, &'a mut T4, &'a mut T5, &'a mut T6, &'a mut T7) = r;
                *final(self) == (old(self).0, old(self).1, old(self).2, *final(out.0),
                    *final(out.1), *final(out.2), *final(out.3), *final(out.4), old(self).8,
                    old(self).9, old(self).10)
            }),
    {
        (&mut self.3, &mut self.4, &mut self.5, &mut self.6, &mut self.7)
    }

    proof fn lemma_extract_mut_len() {
    }
}

impl<'a, T0: 'a, T1: 'a, T2: 'a, T3: 'a, T4: 'a, T5: 'a, T6: 'a, T7: 'a, T8: 'a, T9: 'a,
    T10: 'a> TypedExtractMut<'a, 3, 9, (&'a mut T3, &'a mut T4, &'a mut T5, &'a mut T6, &'a mut T7,
    &'a mut T8)>
    for (T0, T1, T2, T3, T4, T5, T6, T7, T8, T9, T10)
{
    open spec fn spec_borrows(&self, out: (&'a mut T3, &'a mut T4, &'a mut T5, &'a mut T6,
        &'a mut T7, &'a mut T8)) -> bool {
        &&& *out.0 == self.3
        &&& *out.1 == self.4
        &&& *out.2 == self.5
        &&& *out.3 == self.6
        &&& *out.4 == self.7
        &&& *out.5 == self.8
    }

    open spec fn spec_keeps(&self, after: (T0, T1, T2, T3, T4, T5, T6, T7, T8, T9, T10)) -> bool {
        &&& after.0 == self.0
        &&& after.1 == self.1
        &&& after.2 == self.2
        &&& after.9 == self.9
        &&& after.10 == self.10
    }

    fn extract_mut(&'a mut self) -> (r: (&'a mut T3, &'a mut T4, &'a mut T5, &'a mut T6, &'a mut T7,
        &'a mut T8))
        ensures
            ({
                let out: (&'a mut T3, &'a mut T4, &'a mut T5, &'a mut T6, &'a mut T7,
                    &'a mut T8) = r;
                *final(self) == (old(self).0, old(self).1, old(self).2, *final(out.0),
                    *final(out.1), *final(out.2), *final(out.3), *final(out.4), *final(out.5),
                    old(self).9, old(self).10)
            }),
    {
        (&mut self.3, &mut self.4, &mut self.5, &mut self.6, &mut self.7, &mut self.8)
    }

    proof fn lemma_extract_mut_len() {
    }
}

impl<'a, T0: 'a, T1: 'a, T2: 'a, T3: 'a, T4: 'a, T5: 'a, T6: 'a, T7: 'a, T8: 'a, T9: 'a,
    T10: 'a> TypedExtractMut<'a, 3, 10, (&'a mut T3, &'a mut T4, &'a mut T5, &'a mut T6, &'a mut T7,
    &'a mut T8, &'a mut T9)>
    for (T0, T1, T2, T3, T4, T5, T6, T7, T8, T9, T10)
{
    open spec fn spec_borrows(&self, out: (&'a mut T3, &'a mut T4, &'a mut T5, &'a mut T6,
        &'a mut T7, &'a mut T8, &'a mut T9)) -> bool {
        &&& *out.0 == self.3
        &&& *out.1 == self.4
        &&& *out.2 == self.5
        &&& *out.3 == self.6
        &&& *out.4 == self.7
        &&& *out.5 == self.8
        &&& *out.6 == self.9
    }

    open spec fn spec_keeps(&self, after: (T0, T1, T2, T3, T4, T5, T6, T7, T8, T9, T10)) -> bool {
        &&& after.0 == self.0
        &&& after.1 == self.1
        &&& after.2 == self.2
        &&& after.10 == self.10
    }

    fn extract_mut(&'a mut self) -> (r: (&'a mut T3, &'a mut T4, &'a mut T5, &'a mut T6, &'a mut T7,
        &'a mut T8, &'a mut T9))
        ensures
            ({
                let out: (&'a mut T3, &'a mut T4, &'a mut T5, &'a mut T6, &'a mut T7, &'a mut T8,
                    &'a mut T9) = r;
                *final(self) == (old(self).0, old(self).1, old(self).2, *final(out.0),
                    *final(out.1), *final(out.2), *final(out.3), *final(out.4), *final(out.5),
                    *final(out.6), old(self).10)
            }),
    {
        (&mut self.3, &mut self.4, &mut self.5, &mut self.6, &mut self.7, &mut self.8, &mut self.9)
    }

    proof fn lemma_extract_mut_len() {
    }
}

impl<'a, T0: 'a, T1: 'a, T2: 'a, T3: 'a, T4: 'a, T5: 'a, T6: 'a, T7: 'a, T8: 'a, T9: 'a,
    T10: 'a> TypedExtractMut<'a, 3, 11, (&'a mut T3, &'a mut T4, &'a mut T5, &'a mut T6, &'a mut T7,
    &'a mut T8, &'a mut T9, &'a mut T10)>
    for (T0, T1, T2, T3, T4, T5, T6, T7, T8, T9, T10)
{
    open spec fn spec_borrows(&self, out: (&'a mut T3, &'a mut T4, &'a mut T5, &'a mut T6,
        &'a mut T7, &'a mut T8, &'a mut T9, &'a mut T10)) -> bool {
        &&& *out.0 == self.3
        &&& *out.1 == self.4
        &&& *out.2 == self.5
        &&& *out.3 == self.6
        &&& *out.4 == self.7
        &&& *out.5 == self.8
        &&& *out.6 == self.9
        &&& *out.7 == self.10
    }

    open spec fn spec_keeps(&self, after: (T0, T1, T2, T3, T4, T5, T6, T7, T8, T9, T10)) -> bool {
        &&& after.0 == self.0
        &&& after.1 == self.1
        &&& after.2 == self.2
    }

    fn extract_mut(&'a mut self) -> (r: (&'a mut T3, &'a mut T4, &'a mut T5, &'a mut T6, &'a mut T7,
        &'a mut T8, &'a mut T9, &'a mut T10))
        ensures
            ({
                let out: (&'a mut T3, &'a mut T4, &'a mut T5, &'a mut T6, &'a mut T7, &'a mut T8,
                    &'a mut T9, &'a mut T10) = r;
                *final(self) == (old(self).0, old(self).1, old(self).2, *final(out.0),
                    *final(out.1), *final(out.2), *final(out.3), *final(out.4), *final(out.5),
                    *final(out.6), *final(out.7))
            }),
    {
        (&mut self.3, &mut self.4, &mut self.5, &mut self.6, &mut self.7, &mut self.8, &mut self.9,
            &mut self.10)
    }

    proof fn lemma_extract_mut_len() {
    }
}

impl<'a, T0: 'a, T1: 'a, T2: 'a, T3: 'a, T4: 'a, T5: 'a, T6: 'a, T7: 'a, T8: 'a, T9: 'a,
    T10: 'a> TypedExtractMut<'a, 4, 4, ()>
    for (T0, T1, T2, T3, T4, T5, T6, T7, T8, T9, T10)
{
    open spec fn spec_borrows(&self, out: ()) -> bool {
        true
    }

    open spec fn spec_keeps(&self, after: (T0, T1, T2, T3, T4, T5, T6, T7, T8, T9, T10)) -> bool {
        &&& after.0 == self.0
        &&& after.1 == self.1
        &&& after.2 == self.2
        &&& after.3 == self.3
        &&& after.4 == self.4
        &&& after.5 == self.5
        &&& after.6 == self.6
        &&& after.7 == self.7
        &&& after.8 == self.8
        &&& after.9 == self.9
        &&& after.10 == self.10
    }

    fn extract_mut(&'a mut self) -> (r: ()) {
        ()
    }

    proof fn lemma_extract_mut_len() {
    }
}

impl<'a, T0: 'a, T1: 'a, T2: 'a, T3: 'a, T4: 'a, T5: 'a, T6: 'a, T7: 'a, T8: 'a, T9: 'a,
    T10: 'a> TypedExtractMut<'a, 4, 5, (&'a mut T4,)>
    for (T0, T1, T2, T3, T4, T5, T6, T7, T8, T9, T10)
{
    open spec fn spec_borrows(&self, out: (&'a mut T4,)) -> bool {
        *out.0 == self.4
    }

    open spec fn spec_keeps(&self, after: (T0, T1, T2, T3, T4, T5, T6, T7, T8, T9, T10)) -> bool {
        &&& after.0 == self.0
        &&& after.1 == self.1
        &&& after.2 == self.2
        &&& after.3 == self.3
        &&& after.5 == self.5
        &&& after.6 == self.6
        &&& after.7 == self.7
        &&& after.8 == self.8
        &&& after.9 == self.9
        &&& after.10 == self.10
    }

    fn extract_mut(&'a mut self) -> (r: (&'a mut T4,))
        ensures
            ({
                let out: (&'a mut T4,) = r;
                *final(self) == (old(self).0, old(self).1, old(self).2, old(self).3, *final(out.0),
                    old(self).5, old(self).6, old(self).7, old(self).8, old(self).9, old(self).10)
            }),
    {
        (&mut self.4,)
    }

    proof fn lemma_extract_mut_len() {
    }
}

impl<'a, T0: 'a, T1: 'a, T2: 'a, T3: 'a, T4: 'a, T5: 'a, T6: 'a, T7: 'a, T8: 'a, T9: 'a,
    T10: 'a> TypedExtractMut<'a, 4, 6, (&'a mut T4, &'a mut T5)>
    for (T0, T1, T2, T3, T4, T5, T6, T7, T8, T9, T10)
{
    open spec fn spec_borrows(&self, out: (&'a mut T4, &'a mut T5)) -> bool {
        &&& *out.0 == self.4
        &&& *out.1 == self.5
    }

    open spec fn spec_keeps(&self, after: (T0, T1, T2, T3, T4, T5, T6, T7, T8, T9, T10)) -> bool {
        &&& after.0 == self.0
        &&& after.1 == self.1
        &&& after.2 == self.2
        &&& after.3 == self.3
        &&& after.6 == self.6
        &&& after.7 == self.7
        &&& after.8 == self.8
        &&& after.9 == self.9
        &&& after.10 == self.10
    }

    fn extract_mut(&'a mut self) -> (r: (&'a mut T4, &'a mut T5))
        ensures
            ({
                let out: (&'a mut T4, &'a mut T5) = r;
                *final(self) == (old(self).0, old(self).1, old(self).2, old(self).3, *final(out.0),
                    *final(out.1), old(self).6, old(self).7, old(self).8, old(self).9,
                    old(self).10)
            }),
    {
        (&mut self.4, &mut self.5)
    }

    proof fn lemma_extract_mut_len() {
    }
}

impl<'a, T0: 'a, T1: 'a, T2: 'a, T3: 'a, T4: 'a, T5: 'a, T6: 'a, T7: 'a, T8: 'a, T9: 'a,
    T10: 'a> TypedExtractMut<'a, 4, 7, (&'a mut T4, &'a mut T5, &'a mut T6)>
    for (T0, T1, T2, T3, T4, T5, T6, T7, T8, T9, T10)
{
    open spec fn spec_borrows(&self, out: (&'a mut T4, &'a mut T5, &'a mut T6)) -> bool {
        &&& *out.0 == self.4
        &&& *out.1 == self.5
        &&& *out.2 == self.6
    }

    open spec fn spec_keeps(&self, after: (T0, T1, T2, T3, T4, T5, T6, T7, T8, T9, T10)) -> bool {
        &&& after.0 == self.0
        &&& after.1 == self.1
        &&& after.2 == self.2
        &&& after.3 == self.3
        &&& after.7 == self.7
        &&& after.8 == self.8
        &&& after.9 == self.9
        &&& after.10 == self.10
    }

    fn extract_mut(&'a mut self) -> (r: (&'a mut T4, &'a mut T5, &'a mut T6))
        ensures
            ({
                let out: (&'a mut T4, &'a mut T5, &'a mut T6) = r;
                *final(self) == (old(self).0, old(self).1, old(self).2, old(self).3, *final(out.0),
                    *final(out.1), *final(out.2), old(self).7, old(self).8, old(self).9,
                    old(self).10)
            }),
    {
        (&mut self.4, &mut self.5, &mut self.6)
    }

    proof fn lemma_extract_mut_len() {
    }
}

impl<'a, T0: 'a, T1: 'a, T2: 'a, T3: 'a, T4: 'a, T5: 'a, T6: 'a, T7: 'a, T8: 'a, T9: 'a,
    T10: 'a> TypedExtractMut<'a, 4, 8, (&'a mut T4, &'a mut T5, &'a mut T6, &'a mut T7)>
    for (T0, T1, T2, T3, T4, T5, T6, T7, T8, T9, T10)
{
    open spec fn spec_borrows(&self, out: (&'a mut T4, &'a mut T5, &'a mut T6,
        &'a mut T7)) -> bool {
        &&& *out.0 == self.4
        &&& *out.1 == self.5
        &&& *out.2 == self.6
        &&& *out.3 == self.7
    }

    open spec fn spec_keeps(&self, after: (T0, T1, T2, T3, T4, T5, T6, T7, T8, T9, T10)) -> bool {
        &&& after.0 == self.0
        &&& after.1 == self.1
        &&& after.2 == self.2
        &&& after.3 == self.3
        &&& after.8 == self.8
        &&& after.9 == self.9
        &&& after.10 == self.10
    }

    fn extract_mut(&'a mut self) -> (r: (&'a mut T4, &'a mut T5, &'a mut T6, &'a mut T7))
        ensures
            ({
                let out: (&'a mut T4, &'a mut T5, &'a mut T6, &'a mut T7) = r;
                *final(self) == (old(self).0, old(self).1, old(self).2, old(self).3, *final(out.0),
                    *final(out.1), *final(out.2), *final(out.3), old(self).8, old(self).9,
                    old(self).10)
            }),
    {
        (&mut self.4, &mut self.5, &mut self.6, &mut self.7)
    }

    proof fn lemma_extract_mut_len() {
    }
}

impl<'a, T0: 'a, T1: 'a, T2: 'a, T3: 'a, T4: 'a, T5: 'a, T6: 'a, T7: 'a, T8: 'a, T9: 'a,
    T10: 'a> TypedExtractMut<'a, 4, 9, (&'a mut T4, &'a mut T5, &'a mut T6, &'a mut T7,
    &'a mut T8)>
    for (T0, T1, T2, T3, T4, T5, T6, T7, T8, T9, T10)
{
    open spec fn spec_borrows(&self, out: (&'a mut T4, &'a mut T5, &'a mut T6, &'a mut T7,
        &'a mut T8)) -> bool {
        &&& *out.0 == self.4
        &&& *out.1 == self.5
        &&& *out.2 == self.6
        &&& *out.3 == self.7
        &&& *out.4 == self.8
    }

    open spec fn spec_keeps(&self, after: (T0, T1, T2, T3, T4, T5, T6, T7, T8, T9, T10)) -> bool {
        &&& after.0 == self.0
        &&& after.1 == self.1
        &&& after.2 == self.2
        &&& after.3 == self.3
        &&& after.9 == self.9
        &&& after.10 == self.10
    }

    fn extract_mut(&'a mut self) -> (r: (&'a mut T4, &'a mut T5, &'a mut T6, &'a mut T7,
        &'a mut T8))
        ensures
            ({
                let out: (&'a mut T4, &'a mut T5, &'a mut T6, &'a mut T7, &'a mut T8) = r;
                *final(self) == (old(self).0, old(self).1, old(self).2, old(self).3, *final(out.0),
                    *final(out.1), *final(out.2), *final(out.3), *final(out.4), old(self).9,
                    old(self).10)
            }),
    {
        (&mut self.4, &mut self.5, &mut self.6, &mut self.7, &mut self.8)
    }

    proof fn lemma_extract_mut_len() {
    }
}

impl<'a, T0: 'a, T1: 'a, T2: 'a, T3: 'a, T4: 'a, T5: 'a, T6: 'a, T7: 'a, T8: 'a, T9: 'a,
    T10: 'a> TypedExtractMut<'a, 4, 10, (&'a mut T4, &'a mut T5, &'a mut T6, &'a mut T7, &'a mut T8,
    &'a mut T9)>
    for (T0, T1, T2, T3, T4, T5, T6, T7, T8, T9, T10)
{
    open spec fn spec_borrows(&self, out: (&'a mut T4, &'a mut T5, &'a mut T6, &'a mut T7,
        &'a mut T8, &'a mut T9)) -> bool {
        &&& *out.0 == self.4
        &&& *out.1 == self.5
        &&& *out.2 == self.6
        &&& *out.3 == self.7
        &&& *out.4 == self.8
        &&& *out.5 == self.9
    }

    open spec fn spec_keeps(&self, after: (T0, T1, T2, T3, T4, T5, T6, T7, T8, T9, T10)) -> bool {
        &&& after.0 == self.0
        &&& after.1 == self.1
        &&& after.2 == self.2
        &&& after.3 == self.3
        &&& after.10 == self.10
    }

    fn extract_mut(&'a mut self) -> (r: (&'a mut T4, &'a mut T5, &'a mut T6, &'a mut T7, &'a mut T8,
        &'a mut T9))
        ensures
            ({
                let out: (&'a mut T4, &'a mut T5, &'a mut T6, &'a mut T7, &'a mut T8,
                    &'a mut T9) = r;
                *final(self) == (old(self).0, old(self).1, old(self).2, old(self).3, *final(out.0),
                    *final(out.1), *final(out.2), *final(out.3), *final(out.4), *final(out.5),
                    old(self).10)
            }),
    {
        (&mut self.4, &mut self.5, &mut self.6, &mut self.7, &mut self.8, &mut self.9)
    }

    proof fn lemma_extract_mut_len() {
    }
}

impl<'a, T0: 'a, T1: 'a, T2: 'a, T3: 'a, T4: 'a, T5: 'a, T6: 'a, T7: 'a, T8: 'a, T9: 'a,
    T10: 'a> TypedExtractMut<'a, 4, 11, (&'a mut T4, &'a mut T5, &'a mut T6, &'a mut T7, &'a mut T8,
    &'a mut T9, &'a mut T10)>
    for (T0, T1, T2, T3, T4, T5, T6, T7, T8, T9, T10)
{
    open spec fn spec_borrows(&self, out: (&'a mut T4, &'a mut T5, &'a mut T6, &'a mut T7,
        &'a mut T8, &'a mut T9, &'a mut T10)) -> bool {
        &&& *out.0 == self.4
        &&& *out.1 == self.5
        &&& *out.2 == self.6
        &&& *out.3 == self.7
        &&& *out.4 == self.8
        &&& *out.5 == self.9
        &&& *out.6 == self.10
    }

    open spec fn spec_keeps(&self, after: (T0, T1, T2, T3, T4, T5, T6, T7, T8, T9, T10)) -> bool {
        &&& after.0 == self.0
        &&& after.1 == self.1
        &&& after.2 == self.2
        &&& after.3 == self.3
    }

    fn extract_mut(&'a mut self) -> (r: (&'a mut T4, &'a mut T5, &'a mut T6, &'a mut T7, &'a mut T8,
        &'a mut T9, &'a mut T10))
        ensures
            ({
                let out: (&'a mut T4, &'a mut T5, &'a mut T6, &'a mut T7, &'a mut T8, &'a mut T9,
                    &'a mut T10) = r;
                *final(self) == (old(self).0, old(self).1, old(self).2, old(self).3, *final(out.0),
                    *final(out.1), *final(out.2), *final(out.3), *final(out.4), *final(out.5),
                    *final(out.6))
            }),
    {
        (&mut self.4, &mut self.5, &mut self.6, &mut self.7, &mut self.8, &mut self.9, &mut self.10)
    }

    proof fn lemma_extract_mut_len() {
    }
}

impl<'a, T0: 'a, T1: 'a, T2: 'a, T3: 'a, T4: 'a, T5: 'a, T6: 'a, T7: 'a, T8: 'a, T9: 'a,
    T10: 'a> TypedExtractMut<'a, 5, 5, ()>
    for (T0, T1, T2, T3, T4, T5, T6, T7, T8, T9, T10)
{
    open spec fn spec_borrows(&self, out: ()) -> bool {
        true
    }

    open spec fn spec_keeps(&self, after: (T0, T1, T2, T3, T4, T5, T6, T7, T8, T9, T10)) -> bool {
        &&& after.0 == self.0
        &&& after.1 == self.1
        &&& after.2 == self.2
        &&& after.3 == self.3
        &&& after.4 == self.4
        &&& after.5 == self.5
        &&& after.6 == self.6
        &&& after.7 == self.7
        &&& after.8 == self.8
        &&& after.9 == self.9
        &&& after.10 == self.10
    }

    fn extract_mut(&'a mut self) -> (r: ()) {
        ()
    }

    proof fn lemma_extract_mut_len() {
    }
}

impl<'a, T0: 'a, T1: 'a, T2: 'a, T3: 'a, T4: 'a, T5: 'a, T6: 'a, T7: 'a, T8: 'a, T9: 'a,
    T10: 'a> TypedExtractMut<'a, 5, 6, (&'a mut T5,)>
    for (T0, T1, T2, T3, T4, T5, T6, T7, T8, T9, T10)
{
    open spec fn spec_borrows(&self, out: (&'a mut T5,)) -> bool {
        *out.0 == self.5
    }

    open spec fn spec_keeps(&self, after: (T0, T1, T2, T3, T4, T5, T6, T7, T8, T9, T10)) -> bool {
        &&& after.0 == self.0
        &&& after.1 == self.1
        &&& after.2 == self.2
        &&& after.3 == self.3
        &&& after.4 == self.4
        &&& after.6 == self.6
        &&& after.7 == self.7
        &&& after.8 == self.8
        &&& after.9 == self.9
        &&& after.10 == self.10
    }

    fn extract_mut(&'a mut self) -> (r: (&'a mut T5,))
        ensures
            ({
                let out: (&'a mut T5,) = r;
                *final(self) == (old(self).0, old(self).1, old(self).2, old(self).3, old(self).4,
                    *final(out.0), old(self).6, old(self).7, old(self).8, old(self).9,
                    old(self).10)
            }),
    {
        (&mut self.5,)
    }

    proof fn lemma_extract_mut_len() {
    }
}

impl<'a, T0: 'a, T1: 'a, T2: 'a, T3: 'a, T4: 'a, T5: 'a, T6: 'a, T7: 'a, T8: 'a, T9: 'a,
    T10: 'a> TypedExtractMut<'a, 5, 7, (&'a mut T5, &'a mut T6)>
    for (T0, T1, T2, T3, T4, T5, T6, T7, T8, T9, T10)
{
    open spec fn spec_borrows(&self, out: (&'a mut T5, &'a mut T6)) -> bool {
        &&& *out.0 == self.5
        &&& *out.1 == self.6
    }

    open spec fn spec_keeps(&self, after: (T0, T1, T2, T3, T4, T5, T6, T7, T8, T9, T10)) -> bool {
        &&& after.0 == self.0
        &&& after.1 == self.1
        &&& after.2 == self.2
        &&& after.3 == self.3
        &&& after.4 == self.4
        &&& after.7 == self.7
        &&& after.8 == self.8
        &&& after.9 == self.9
        &&& after.10 == self.10
    }

    fn extract_mut(&'a mut self) -> (r: (&'a mut T5, &'a mut T6))
        ensures
            ({
                let out: (&'a mut T5, &'a mut T6) = r;
                *final(self) == (old(self).0, old(self).1, old(self).2, old(self).3, old(self).4,
                    *final(out.0), *final(out.1), old(self).7, old(self).8, old(self).9,
                    old(self).10)
            }),
    {
        (&mut self.5, &mut self.6)
    }

    proof fn lemma_extract_mut_len() {
    }
}

impl<'a, T0: 'a, T1: 'a, T2: 'a, T3: 'a, T4: 'a, T5: 'a, T6: 'a, T7: 'a, T8: 'a, T9: 'a,
    T10: 'a> TypedExtractMut<'a, 5, 8, (&'a mut T5, &'a mut T6, &'a mut T7)>
    for (T0, T1, T2, T3, T4, T5, T6, T7, T8, T9, T10)
{
    open spec fn spec_borrows(&self, out: (&'a mut T5, &'a mut T6, &'a mut T7)) -> bool {
        &&& *out.0 == self.5
        &&& *out.1 == self.6
        &&& *out.2 == self.7
    }

    open spec fn spec_keeps(&self, after: (T0, T1, T2, T3, T4, T5, T6, T7, T8, T9, T10)) -> bool {
        &&& after.0 == self.0
        &&& after.1 == self.1
        &&& after.2 == self.2
        &&& after.3 == self.3
        &&& after.4 == self.4
        &&& after.8 == self.8
        &&& after.9 == self.9
        &&& after.10 == self.10
    }

    fn extract_mut(&'a mut self) -> (r: (&'a mut T5, &'a mut T6, &'a mut T7))
        ensures
            ({
                let out: (&'a mut T5, &'a mut T6, &'a mut T7) = r;
                *final(self) == (old(self).0, old(self).1, old(self).2, old(self).3, old(self).4,
                    *final(out.0), *final(out.1), *final(out.2), old(self).8, old(self).9,
                    old(self).10)
            }),
    {
        (&mut self.5, &mut self.6, &mut self.7)
    }

    proof fn lemma_extract_mut_len() {
    }
}

impl<'a, T0: 'a, T1: 'a, T2: 'a, T3: 'a, T4: 'a, T5: 'a, T6: 'a, T7: 'a, T8: 'a, T9: 'a,
    T10: 'a> TypedExtractMut<'a, 5, 9, (&'a mut T5, &'a mut T6, &'a mut T7, &'a mut T8)>
    for (T0, T1, T2, T3, T4, T5, T6, T7, T8, T9, T10)
{
    open spec fn spec_borrows(&self, out: (&'a mut T5, &'a mut T6, &'a mut T7,
        &'a mut T8)) -> bool {
        &&& *out.0 == self.5
        &&& *out.1 == self.6
        &&& *out.2 == self.7
        &&& *out.3 == self.8
    }

    open spec fn spec_keeps(&self, after: (T0, T1, T2, T3, T4, T5, T6, T7, T8, T9, T10)) -> bool {
        &&& after.0 == self.0
        &&& after.1 == self.1
        &&& after.2 == self.2
        &&& after.3 == self.3
        &&& after.4 == self.4
        &&& after.9 == self.9
        &&& after.10 == self.10
    }

    fn extract_mut(&'a mut self) -> (r: (&'a mut T5, &'a mut T6, &'a mut T7, &'a mut T8))
        ensures
            ({
                let out: (&'a mut T5, &'a mut T6, &'a mut T7, &'a mut T8) = r;
                *final(self) == (old(self).0, old(self).1, old(self).2, old(self).3, old(self).4,
                    *final(out.0), *final(out.1), *final(out.2), *final(out.3), old(self).9,
                    old(self).10)
            }),
    {
        (&mut self.5, &mut self.6, &mut self.7, &mut self.8)
    }

    proof fn lemma_extract_mut_len() {
    }
}

impl<'a, T0: 'a, T1: 'a, T2: 'a, T3: 'a, T4: 'a, T5: 'a, T6: 'a, T7: 'a, T8: 'a, T9: 'a,
    T10: 'a> TypedExtractMut<'a, 5, 10, (&'a mut T5, &'a mut T6, &'a mut T7, &'a mut T8,
    &'a mut T9)>
    for (T0, T1, T2, T3, T4, T5, T6, T7, T8, T9, T10)
{
    open spec fn spec_borrows(&self, out: (&'a mut T5, &'a mut T6, &'a mut T7, &'a mut T8,
        &'a mut T9)) -> bool {
        &&& *out.0 == self.5
        &&& *out.1 == self.6
        &&& *out.2 == self.7
        &&& *out.3 == self.8
        &&& *out.4 == self.9
    }

    open spec fn spec_keeps(&self, after: (T0, T1, T2, T3, T4, T5, T6, T7, T8, T9, T10)) -> bool {
        &&& after.0 == self.0
        &&& after.1 == self.1
        &&& after.2 == self.2
        &&& after.3 == self.3
        &&& after.4 == self.4
        &&& after.10 == self.10
    }

    fn extract_mut(&'a mut self) -> (r: (&'a mut T5, &'a mut T6, &'a mut T7, &'a mut T8,
        &'a mut T9))
        ensures
            ({
                let out: (&'a mut T5, &'a mut T6, &'a mut T7, &'a mut T8, &'a mut T9) = r;
                *final(self) == (old(self).0, old(self).1, old(self).2, old(self).3, old(self).4,
                    *final(out.0), *final(out.1), *final(out.2), *final(out.3), *final(out.4),
                    old(self).10)
            }),
    {
        (&mut self.5, &mut self.6, &mut self.7, &mut self.8, &mut self.9)
    }

    proof fn lemma_extract_mut_len() {
    }
}

impl<'a, T0: 'a, T1: 'a, T2: 'a, T3: 'a, T4: 'a, T5: 'a, T6: 'a, T7: 'a, T8: 'a, T9: 'a,
    T10: 'a> TypedExtractMut<'a, 5, 11, (&'a mut T5, &'a mut T6, &'a mut T7, &'a mut T8, &'a mut T9,
    &'a mut T10)>
    for (T0, T1, T2, T3, T4, T5, T6, T7, T8, T9, T10)
{
    open spec fn spec_borrows(&self, out: (&'a mut T5, &'a mut T6, &'a mut T7, &'a mut T8,
        &'a mut T9, &'a mut T10)) -> bool {
        &&& *out.0 == self.5
        &&& *out.1 == self.6
        &&& *out.2 == self.7
        &&& *out.3 == self.8
        &&& *out.4 == self.9
        &&& *out.5 == self.10
    }

    open spec fn spec_keeps(&self, after: (T0, T1, T2, T3, T4, T5, T6, T7, T8, T9, T10)) -> bool {
        &&& after.0 == self.0
        &&& after.1 == self.1
        &&& after.2 == self.2
        &&& after.3 == self.3
        &&& after.4 == self.4
    }

    fn extract_mut(&'a mut self) -> (r: (&'a mut T5, &'a mut T6, &'a mut T7, &'a mut T8, &'a mut T9,
        &'a mut T10))
        ensures
            ({
                let out: (&'a mut T5, &'a mut T6, &'a mut T7, &'a mut T8, &'a mut T9,
                    &'a mut T10) = r;
                *final(self) == (old(self).0, old(self).1, old(self).2, old(self).3, old(self).4,
                    *final(out.0), *final(out.1), *final(out.2), *final(out.3), *final(out.4),
                    *final(out.5))
            }),
    {
        (&mut self.5, &mut self.6, &mut self.7, &mut self.8, &mut self.9, &mut self.10)
    }

    proof fn lemma_extract_mut_len() {
    }
}

impl<'a, T0: 'a, T1: 'a, T2: 'a, T3: 'a, T4: 'a, T5: 'a, T6: 'a, T7: 'a, T8: 'a, T9: 'a,
    T10: 'a> TypedExtractMut<'a, 6, 6, ()>
    for (T0, T1, T2, T3, T4, T5, T6, T7, T8, T9, T10)
{
    open spec fn spec_borrows(&self, out: ()) -> bool {
        true
    }

    open spec fn spec_keeps(&self, after: (T0, T1, T2, T3, T4, T5, T6, T7, T8, T9, T10)) -> bool {
        &&& after.0 == self.0
        &&& after.1 == self.1
        &&& after.2 == self.2
        &&& after.3 == self.3
        &&& after.4 == self.4
        &&& after.5 == self.5
        &&& after.6 == self.6
        &&& after.7 == self.7
        &&& after.8 == self.8
        &&& after.9 == self.9
        &&& after.10 == self.10
    }

    fn extract_mut(&'a mut self) -> (r: ()) {
        ()
    }

    proof fn lemma_extract_mut_len() {
    }
}

impl<'a, T0: 'a, T1: 'a, T2: 'a, T3: 'a, T4: 'a, T5: 'a, T6: 'a, T7: 'a, T8: 'a, T9: 'a,
    T10: 'a> TypedExtractMut<'a, 6, 7, (&'a mut T6,)>
    for (T0, T1, T2, T3, T4, T5, T6, T7, T8, T9, T10)
{
    open spec fn spec_borrows(&self, out: (&'a mut T6,)) -> bool {
        *out.0 == self.6
    }

    open spec fn spec_keeps(&self, after: (T0, T1, T2, T3, T4, T5, T6, T7, T8, T9, T10)) -> bool {
        &&& after.0 == self.0
        &&& after.1 == self.1
        &&& after.2 == self.2
        &&& after.3 == self.3
        &&& after.4 == self.4
        &&& after.5 == self.5
        &&& after.7 == self.7
        &&& after.8 == self.8
        &&& after.9 == self.9
        &&& after.10 == self.10
    }

    fn extract_mut(&'a mut self) -> (r: (&'a mut T6,))
        ensures
            ({
                let out: (&'a mut T6,) = r;
                *final(self) == (old(self).0, old(self).1, old(self).2, old(self).3, old(self).4,
                    old(self).5, *final(out.0), old(self).7, old(self).8, old(self).9,
                    old(self).10)
            }),
    {
        (&mut self.6,)
    }

    proof fn lemma_extract_mut_len() {
    }
}

impl<'a, T0: 'a, T1: 'a, T2: 'a, T3: 'a, T4: 'a, T5: 'a, T6: 'a, T7: 'a, T8: 'a, T9: 'a,
    T10: 'a> TypedExtractMut<'a, 6, 8, (&'a mut T6, &'a mut T7)>
    for (T0, T1, T2, T3, T4, T5, T6, T7, T8, T9, T10)
{
    open spec fn spec_borrows(&self, out: (&'a mut T6, &'a mut T7)) -> bool {
        &&& *out.0 == self.6
        &&& *out.1 == self.7
    }

    open spec fn spec_keeps(&self, after: (T0, T1, T2, T3, T4, T5, T6, T7, T8, T9, T10)) -> bool {
        &&& after.0 == self.0
        &&& after.1 == self.1
        &&& after.2 == self.2
        &&& after.3 == self.3
        &&& after.4 == self.4
        &&& after.5 == self.5
        &&& after.8 == self.8
        &&& after.9 == self.9
        &&& after.10 == self.10
    }

    fn extract_mut(&'a mut self) -> (r: (&'a mut T6, &'a mut T7))
        ensures
            ({
                let out: (&'a mut T6, &'a mut T7) = r;
                *final(self) == (old(self).0, old(self).1, old(self).2, old(self).3, old(self).4,
                    old(self).5, *final(out.0), *final(out.1), old(self).8, old(self).9,
                    old(self).10)
            }),
    {
        (&mut self.6, &mut self.7)
    }

    proof fn lemma_extract_mut_len() {
    }
}

impl<'a, T0: 'a, T1: 'a, T2: 'a, T3: 'a, T4: 'a, T5: 'a, T6: 'a, T7: 'a, T8: 'a, T9: 'a,
    T10: 'a> TypedExtractMut<'a, 6, 9, (&'a mut T6, &'a mut T7, &'a mut T8)>
    for (T0, T1, T2, T3, T4, T5, T6, T7, T8, T9, T10)
{
    open spec fn spec_borrows(&self, out: (&'a mut T6, &'a mut T7, &'a mut T8)) -> bool {
        &&& *out.0 == self.6
        &&& *out.1 == self.7
        &&& *out.2 == self.8
    }

    open spec fn spec_keeps(&self, after: (T0, T1, T2, T3, T4, T5, T6, T7, T8, T9, T10)) -> bool {
        &&& after.0 == self.0
        &&& after.1 == self.1
        &&& after.2 == self.2
        &&& after.3 == self.3
        &&& after.4 == self.4
        &&& after.5 == self.5
        &&& after.9 == self.9
        &&& after.10 == self.10
    }

    fn extract_mut(&'a mut self) -> (r: (&'a mut T6, &'a mut T7, &'a mut T8))
        ensures
            ({
                let out: (&'a mut T6, &'a mut T7, &'a mut T8) = r;
                *final(self) == (old(self).0, old(self).1, old(self).2, old(self).3, old(self).4,
                    old(self).5, *final(out.0), *final(out.1), *final(out.2), old(self).9,
                    old(self).10)
            }),
    {
        (&mut self.6, &mut self.7, &mut self.8)
    }

    proof fn lemma_extract_mut_len() {
    }
}

impl<'a, T0: 'a, T1: 'a, T2: 'a, T3: 'a, T4: 'a, T5: 'a, T6: 'a, T7: 'a, T8: 'a, T9: 'a,
    T10: 'a> TypedExtractMut<'a, 6, 10, (&'a mut T6, &'a mut T7, &'a mut T8, &'a mut T9)>
    for (T0, T1, T2, T3, T4, T5, T6, T7, T8, T9, T10)
{
    open spec fn spec_borrows(&self, out: (&'a mut T6, &'a mut T7, &'a mut T8,
        &'a mut T9)) -> bool {
        &&& *out.0 == self.6
        &&& *out.1 == self.7
        &&& *out.2 == self.8
        &&& *out.3 == self.9
    }

    open spec fn spec_keeps(&self, after: (T0, T1, T2, T3, T4, T5, T6, T7, T8, T9, T10)) -> bool {
        &&& after.0 == self.0
        &&& after.1 == self.1
        &&& after.2 == self.2
        &&& after.3 == self.3
        &&& after.4 == self.4
        &&& after.5 == self.5
        &&& after.10 == self.10
    }

    fn extract_mut(&'a mut self) -> (r: (&'a mut T6, &'a mut T7, &'a mut T8, &'a mut T9))
        ensures
            ({
                let out: (&'a mut T6, &'a mut T7, &'a mut T8, &'a mut T9) = r;
                *final(self) == (old(self).0, old(self).1, old(self).2, old(self).3, old(self).4,
                    old(self).5, *final(out.0), *final(out.1), *final(out.2), *final(out.3),
                    old(self).10)
            }),
    {
        (&mut self.6, &mut self.7, &mut self.8, &mut self.9)
    }

    proof fn lemma_extract_mut_len() {
    }
}

impl<'a, T0: 'a, T1: 'a, T2: 'a, T3: 'a, T4: 'a, T5: 'a, T6: 'a, T7: 'a, T8: 'a, T9: 'a,
    T10: 'a> TypedExtractMut<'a, 6, 11, (&'a mut T6, &'a mut T7, &'a mut T8, &'a mut T9,
    &'a mut T10)>
    for (T0, T1, T2, T3, T4, T5, T6, T7, T8, T9, T10)
{
    open spec fn spec_borrows(&self, out: (&'a mut T6, &'a mut T7, &'a mut T8, &'a mut T9,
        &'a mut T10)) -> bool {
        &&& *out.0 == self.6
        &&& *out.1 == self.7
        &&& *out.2 == self.8
        &&& *out.3 == self.9
        &&& *out.4 == self.10
    }

    open spec fn spec_keeps(&self, after: (T0, T1, T2, T3, T4, T5, T6, T7, T8, T9, T10)) -> bool {
        &&& after.0 == self.0
        &&& after.1 == self.1
        &&& after.2 == self.2
        &&& after.3 == self.3
        &&& after.4 == self.4
        &&& after.5 == self.5
    }

    fn extract_mut(&'a mut self) -> (r: (&'a mut T6, &'a mut T7, &'a mut T8, &'a mut T9,
        &'a mut T10))
        ensures
            ({
                let out: (&'a mut T6, &'a mut T7, &'a mut T8, &'a mut T9, &'a mut T10) = r;
                *final(self) == (old(self).0, old(self).1, old(self).2, old(self).3, old(self).4,
                    old(self).5, *final(out.0), *final(out.1), *final(out.2), *final(out.3),
                    *final(out.4))
            }),
    {
        (&mut self.6, &mut self.7, &mut self.8, &mut self.9, &mut self.10)
    }

    proof fn lemma_extract_mut_len() {
    }
}

impl<'a, T0: 'a, T1: 'a, T2: 'a, T3: 'a, T4: 'a, T5: 'a, T6: 'a, T7: 'a, T8: 'a, T9: 'a,
    T10: 'a> TypedExtractMut<'a, 7, 7, ()>
    for (T0, T1, T2, T3, T4, T5, T6, T7, T8, T9, T10)
{
    open spec fn spec_borrows(&self, out: ()) -> bool {
        true
    }

    open spec fn spec_keeps(&self, after: (T0, T1, T2, T3, T4, T5, T6, T7, T8, T9, T10)) -> bool {
        &&& after.0 == self.0
        &&& after.1 == self.1
        &&& after.2 == self.2
        &&& after.3 == self.3
        &&& after.4 == self.4
        &&& after.5 == self.5
        &&& after.6 == self.6
        &&& after.7 == self.7
        &&& after.8 == self.8
        &&& after.9 == self.9
        &&& after.10 == self.10
    }

    fn extract_mut(&'a mut self) -> (r: ()) {
        ()
    }

    proof fn lemma_extract_mut_len() {
    }
}

impl<'a, T0: 'a, T1: 'a, T2: 'a, T3: 'a, T4: 'a, T5: 'a, T6: 'a, T7: 'a, T8: 'a, T9: 'a,
    T10: 'a> TypedExtractMut<'a, 7, 8, (&'a mut T7,)>
    for (T0, T1, T2, T3, T4, T5, T6, T7, T8, T9, T10)
{
    open spec fn spec_borrows(&self, out: (&'a mut T7,)) -> bool {
        *out.0 == self.7
    }

    open spec fn spec_keeps(&self, after: (T0, T1, T2, T3, T4, T5, T6, T7, T8, T9, T10)) -> bool {
        &&& after.0 == self.0
        &&& after.1 == self.1
        &&& after.2 == self.2
        &&& after.3 == self.3
        &&& after.4 == self.4
        &&& after.5 == self.5
        &&& after.6 == self.6
        &&& after.8 == self.8
        &&& after.9 == self.9
        &&& after.10 == self.10
    }

    fn extract_mut(&'a mut self) -> (r: (&'a mut T7,))
        ensures
            ({
                let out: (&'a mut T7,) = r;
                *final(self) == (old(self).0, old(self).1, old(self).2, old(self).3, old(self).4,
                    old(self).5, old(self).6, *final(out.0), old(self).8, old(self).9,
                    old(self).10)
            }),
    {
        (&mut self.7,)
    }

    proof fn lemma_extract_mut_len() {
    }
}

impl<'a, T0: 'a, T1: 'a, T2: 'a, T3: 'a, T4: 'a, T5: 'a, T6: 'a, T7: 'a, T8: 'a, T9: 'a,
    T10: 'a> TypedExtractMut<'a, 7, 9, (&'a mut T7, &'a mut T8)>
    for (T0, T1, T2, T3, T4, T5, T6, T7, T8, T9, T10)
{
    open spec fn spec_borrows(&self, out: (&'a mut T7, &'a mut T8)) -> bool {
        &&& *out.0 == self.7
        &&& *out.1 == self.8
    }

    open spec fn spec_keeps(&self, after: (T0, T1, T2, T3, T4, T5, T6, T7, T8, T9, T10)) -> bool {
        &&& after.0 == self.0
        &&& after.1 == self.1
        &&& after.2 == self.2
        &&& after.3 == self.3
        &&& after.4 == self.4
        &&& after.5 == self.5
        &&& after.6 == self.6
        &&& after.9 == self.9
        &&& after.10 == self.10
    }

    fn extract_mut(&'a mut self) -> (r: (&'a mut T7, &'a mut T8))
        ensures
            ({
                let out: (&'a mut T7, &'a mut T8) = r;
                *final(self) == (old(self).0, old(self).1, old(self).2, old(self).3, old(self).4,
                    old(self).5, old(self).6, *final(out.0), *final(out.1), old(self).9,
                    old(self).10)
            }),
    {
        (&mut self.7, &mut self.8)
    }

    proof fn lemma_extract_mut_len() {
    }
}

impl<'a, T0: 'a, T1: 'a, T2: 'a, T3: 'a, T4: 'a, T5: 'a, T6: 'a, T7: 'a, T8: 'a, T9: 'a,
    T10: 'a> TypedExtractMut<'a, 7, 10, (&'a mut T7, &'a mut T8, &'a mut T9)>
    for (T0, T1, T2, T3, T4, T5, T6, T7, T8, T9, T10)
{
    open spec fn spec_borrows(&self, out: (&'a mut T7, &'a mut T8, &'a mut T9)) -> bool {
        &&& *out.0 == self.7
        &&& *out.1 == self.8
        &&& *out.2 == self.9
    }

    open spec fn spec_keeps(&self, after: (T0, T1, T2, T3, T4, T5, T6, T7, T8, T9, T10)) -> bool {
        &&& after.0 == self.0
        &&& after.1 == self.1
        &&& after.2 == self.2
        &&& after.3 == self.3
        &&& after.4 == self.4
        &&& after.5 == self.5
        &&& after.6 == self.6
        &&& after.10 == self.10
    }

    fn extract_mut(&'a mut self) -> (r: (&'a mut T7, &'a mut T8, &'a mut T9))
        ensures
            ({
                let out: (&'a mut T7, &'a mut T8, &'a mut T9) = r;
                *final(self) == (old(self).0, old(self).1, old(self).2, old(self).3, old(self).4,
                    old(self).5, old(self).6, *final(out.0), *final(out.1), *final(out.2),
                    old(self).10)
            }),
    {
        (&mut self.7, &mut self.8, &mut self.9)
    }

    proof fn lemma_extract_mut_len() {
    }
}

impl<'a, T0: 'a, T1: 'a, T2: 'a, T3: 'a, T4: 'a, T5: 'a, T6: 'a, T7: 'a, T8: 'a, T9: 'a,
    T10: 'a> TypedExtractMut<'a, 7, 11, (&'a mut T7, &'a mut T8, &'a mut T9, &'a mut T10)>
    for (T0, T1, T2, T3, T4, T5, T6, T7, T8, T9, T10)
{
    open spec fn spec_borrows(&self, out: (&'a mut T7, &'a mut T8, &'a mut T9,
        &'a mut T10)) -> bool {
        &&& *out.0 == self.7
        &&& *out.1 == self.8
        &&& *out.2 == self.9
        &&& *out.3 == self.10
    }

    open spec fn spec_keeps(&self, after: (T0, T1, T2, T3, T4, T5, T6, T7, T8, T9, T10)) -> bool {
        &&& after.0 == self.0
        &&& after.1 == self.1
        &&& after.2 == self.2
        &&& after.3 == self.3
        &&& after.4 == self.4
        &&& after.5 == self.5
        &&& after.6 == self.6
    }

    fn extract_mut(&'a mut self) -> (r: (&'a mut T7, &'a mut T8, &'a mut T9, &'a mut T10))
        ensures
            ({
                let out: (&'a mut T7, &'a mut T8, &'a mut T9, &'a mut T10) = r;
                *final(self) == (old(self).0, old(self).1, old(self).2, old(self).3, old(self).4,
                    old(self).5, old(self).6, *final(out.0), *final(out.1), *final(out.2),
                    *final(out.3))
            }),
    {
        (&mut self.7, &mut self.8, &mut self.9, &mut self.10)
    }

    proof fn lemma_extract_mut_len() {
    }
}

impl<'a, T0: 'a, T1: 'a, T2: 'a, T3: 'a, T4: 'a, T5: 'a, T6: 'a, T7: 'a, T8: 'a, T9: 'a,
    T10: 'a> TypedExtractMut<'a, 8, 8, ()>
    for (T0, T1, T2, T3, T4, T5, T6, T7, T8, T9, T10)
{
    open spec fn spec_borrows(&self, out: ()) -> bool {
        true
    }

    open spec fn spec_keeps(&self, after: (T0, T1, T2, T3, T4, T5, T6, T7, T8, T9, T10)) -> bool {
        &&& after.0 == self.0
        &&& after.1 == self.1
        &&& after.2 == self.2
        &&& after.3 == self.3
        &&& after.4 == self.4
        &&& after.5 == self.5
        &&& after.6 == self.6
        &&& after.7 == self.7
        &&& after.8 == self.8
        &&& after.9 == self.9
        &&& after.10 == self.10
    }

    fn extract_mut(&'a mut self) -> (r: ()) {
        ()
    }

    proof fn lemma_extract_mut_len() {
    }
}

impl<'a, T0: 'a, T1: 'a, T2: 'a, T3: 'a, T4: 'a, T5: 'a, T6: 'a, T7: 'a, T8: 'a, T9: 'a,
    T10: 'a> TypedExtractMut<'a, 8, 9, (&'a mut T8,)>
    for (T0, T1, T2, T3, T4, T5, T6, T7, T8, T9, T10)
{
    open spec fn spec_borrows(&self, out: (&'a mut T8,)) -> bool {
        *out.0 == self.8
    }

    open spec fn spec_keeps(&self, after: (T0, T1, T2, T3, T4, T5, T6, T7, T8, T9, T10)) -> bool {
        &&& after.0 == self.0
        &&& after.1 == self.1
        &&& after.2 == self.2
        &&& after.3 == self.3
        &&& after.4 == self.4
        &&& after.5 == self.5
        &&& after.6 == self.6
        &&& after.7 == self.7
        &&& after.9 == self.9
        &&& after.10 == self.10
    }

    fn extract_mut(&'a mut self) -> (r: (&'a mut T8,))
        ensures
            ({
                let out: (&'a mut T8,) = r;
                *final(self) == (old(self).0, old(self).1, old(self).2, old(self).3, old(self).4,
                    old(self).5, old(self).6, old(self).7, *final(out.0), old(self).9,
                    old(self).10)
            }),
    {
        (&mut self.8,)
    }

    proof fn lemma_extract_mut_len() {
    }
}

impl<'a, T0: 'a, T1: 'a, T2: 'a, T3: 'a, T4: 'a, T5: 'a, T6: 'a, T7: 'a, T8: 'a, T9: 'a,
    T10: 'a> TypedExtractMut<'a, 8, 10, (&'a mut T8, &'a mut T9)>
    for (T0, T1, T2, T3, T4, T5, T6, T7, T8, T9, T10)
{
    open spec fn spec_borrows(&self, out: (&'a mut T8, &'a mut T9)) -> bool {
        &&& *out.0 == self.8
        &&& *out.1 == self.9
    }

    open spec fn spec_keeps(&self, after: (T0, T1, T2, T3, T4, T5, T6, T7, T8, T9, T10)) -> bool {
        &&& after.0 == self.0
        &&& after.1 == self.1
        &&& after.2 == self.2
        &&& after.3 == self.3
        &&& after.4 == self.4
        &&& after.5 == self.5
        &&& after.6 == self.6
        &&& after.7 == self.7
        &&& after.10 == self.10
    }

    fn extract_mut(&'a mut self) -> (r: (&'a mut T8, &'a mut T9))
        ensures
            ({
                let out: (&'a mut T8, &'a mut T9) = r;
                *final(self) == (old(self).0, old(self).1, old(self).2, old(self).3, old(self).4,
                    old(self).5, old(self).6, old(self).7, *final(out.0), *final(out.1),
                    old(self).10)
            }),
    {
        (&mut self.8, &mut self.9)
    }

    proof fn lemma_extract_mut_len() {
    }
}

impl<'a, T0: 'a, T1: 'a, T2: 'a, T3: 'a, T4: 'a, T5: 'a, T6: 'a, T7: 'a, T8: 'a, T9: 'a,
    T10: 'a> TypedExtractMut<'a, 8, 11, (&'a mut T8, &'a mut T9, &'a mut T10)>
    for (T0, T1, T2, T3, T4, T5, T6, T7, T8, T9, T10)
{
    open spec fn spec_borrows(&self, out: (&'a mut T8, &'a mut T9, &'a mut T10)) -> bool {
        &&& *out.0 == self.8
        &&& *out.1 == self.9
        &&& *out.2 == self.10
    }

    open spec fn spec_keeps(&self, after: (T0, T1, T2, T3, T4, T5, T6, T7, T8, T9, T10)) -> bool {
        &&& after.0 == self.0
        &&& after.1 == self.1
        &&& after.2 == self.2
        &&& after.3 == self.3
        &&& after.4 == self.4
        &&& after.5 == self.5
        &&& after.6 == self.6
        &&& after.7 == self.7
    }

    fn extract_mut(&'a mut self) -> (r: (&'a mut T8, &'a mut T9, &'a mut T10))
        ensures
            ({
                let out: (&'a mut T8, &'a mut T9, &'a mut T10) = r;
                *final(self) == (old(self).0, old(self).1, old(self).2, old(self).3, old(self).4,
                    old(self).5, old(self).6, old(self).7, *final(out.0), *final(out.1),
                    *final(out.2))
            }),
    {
        (&mut self.8, &mut self.9, &mut self.10)
    }

    proof fn lemma_extract_mut_len() {
    }
}

impl<'a, T0: 'a, T1: 'a, T2: 'a, T3: 'a, T4: 'a, T5: 'a, T6: 'a, T7: 'a, T8: 'a, T9: 'a,
    T10: 'a> TypedExtractMut<'a, 9, 9, ()>
    for (T0, T1, T2, T3, T4, T5, T6, T7, T8, T9, T10)
{
    open spec fn spec_borrows(&self, out: ()) -> bool {
        true
    }

    open spec fn spec_keeps(&self, after: (T0, T1, T2, T3, T4, T5, T6, T7, T8, T9, T10)) -> bool {
        &&& after.0 == self.0
        &&& after.1 == self.1
        &&& after.2 == self.2
        &&& after.3 == self.3
        &&& after.4 == self.4
        &&& after.5 == self.5
        &&& after.6 == self.6
        &&& after.7 == self.7
        &&& after.8 == self.8
        &&& after.9 == self.9
        &&& after.10 == self.10
    }

    fn extract_mut(&'a mut self) -> (r: ()) {
        ()
    }

    proof fn lemma_extract_mut_len() {
    }
}

impl<'a, T0: 'a, T1: 'a, T2: 'a, T3: 'a, T4: 'a, T5: 'a, T6: 'a, T7: 'a, T8: 'a, T9: 'a,
    T10: 'a> TypedExtractMut<'a, 9, 10, (&'a mut T9,)>
    for (T0, T1, T2, T3, T4, T5, T6, T7, T8, T9, T10)
{
    open spec fn spec_borrows(&self, out: (&'a mut T9,)) -> bool {
        *out.0 == self.9
    }

    open spec fn spec_keeps(&self, after: (T0, T1, T2, T3, T4, T5, T6, T7, T8, T9, T10)) -> bool {
        &&& after.0 == self.0
        &&& after.1 == self.1
        &&& after.2 == self.2
        &&& after.3 == self.3
        &&& after.4 == self.4
        &&& after.5 == self.5
        &&& after.6 == self.6
        &&& after.7 == self.7
        &&& after.8 == self.8
        &&& after.10 == self.10
    }

    fn extract_mut(&'a mut self) -> (r: (&'a mut T9,))
        ensures
            ({
                let out: (&'a mut T9,) = r;
                *final(self) == (old(self).0, old(self).1, old(self).2, old(self).3, old(self).4,
                    old(self).5, old(self).6, old(self).7, old(self).8, *final(out.0),
                    old(self).10)
            }),
    {
        (&mut self.9,)
    }

    proof fn lemma_extract_mut_len() {
    }
}

impl<'a, T0: 'a, T1: 'a, T2: 'a, T3: 'a, T4: 'a, T5: 'a, T6: 'a, T7: 'a, T8: 'a, T9: 'a,
    T10: 'a> TypedExtractMut<'a, 9, 11, (&'a mut T9, &'a mut T10)>
    for (T0, T1, T2, T3, T4, T5, T6, T7, T8, T9, T10)
{
    open spec fn spec_borrows(&self, out: (&'a mut T9, &'a mut T10)) -> bool {
        &&& *out.0 == self.9
        &&& *out.1 == self.10
    }

    open spec fn spec_keeps(&self, after: (T0, T1, T2, T3, T4, T5, T6, T7, T8, T9, T10)) -> bool {
        &&& after.0 == self.0
        &&& after.1 == self.1
        &&& after.2 == self.2
        &&& after.3 == self.3
        &&& after.4 == self.4
        &&& after.5 == self.5
        &&& after.6 == self.6
        &&& after.7 == self.7
        &&& after.8 == self.8
    }

    fn extract_mut(&'a mut self) -> (r: (&'a mut T9, &'a mut T10))
        ensures
            ({
                let out: (&'a mut T9, &'a mut T10) = r;
                *final(self) == (old(self).0, old(self).1, old(self).2, old(self).3, old(self).4,
                    old(self).5, old(self).6, old(self).7, old(self).8, *final(out.0),
                    *final(out.1))
            }),
    {
        (&mut self.9, &mut self.10)
    }

    proof fn lemma_extract_mut_len() {
    }
}

impl<'a, T0: 'a, T1: 'a, T2: 'a, T3: 'a, T4: 'a, T5: 'a, T6: 'a, T7: 'a, T8: 'a, T9: 'a,
    T10: 'a> TypedExtractMut<'a, 10, 10, ()>
    for (T0, T1, T2, T3, T4, T5, T6, T7, T8, T9, T10)
{
    open spec fn spec_borrows(&self, out: ()) -> bool {
        true
    }

    open spec fn spec_keeps(&self, after: (T0, T1, T2, T3, T4, T5, T6, T7, T8, T9, T10)) -> bool {
        &&& after.0 == self.0
        &&& after.1 == self.1
        &&& after.2 == self.2
        &&& after.3 == self.3
        &&& after.4 == self.4
        &&& after.5 == self.5
        &&& after.6 == self.6
        &&& after.7 == self.7
        &&& after.8 == self.8
        &&& after.9 == self.9
        &&& after.10 == self.10
    }

    fn extract_mut(&'a mut self) -> (r: ()) {
        ()
    }

    proof fn lemma_extract_mut_len() {
    }
}

impl<'a, T0: 'a, T1: 'a, T2: 'a, T3: 'a, T4: 'a, T5: 'a, T6: 'a, T7: 'a, T8: 'a, T9: 'a,
    T10: 'a> TypedExtractMut<'a, 10, 11, (&'a mut T10,)>
    for (T0, T1, T2, T3, T4, T5, T6, T7, T8, T9, T10)
{
    open spec fn spec_borrows(&self, out: (&'a mut T10,)) -> bool {
        *out.0 == self.10
    }

    open spec fn spec_keeps(&self, after: (T0, T1, T2, T3, T4, T5, T6, T7, T8, T9, T10)) -> bool {
        &&& after.0 == self.0
        &&& after.1 == self.1
        &&& after.2 == self.2
        &&& after.3 == self.3
        &&& after.4 == self.4
        &&& after.5 == self.5
        &&& after.6 == self.6
        &&& after.7 == self.7
        &&& after.8 == self.8
        &&& after.9 == self.9
    }

    fn extract_mut(&'a mut self) -> (r: (&'a mut T10,))
        ensures
            ({
                let out: (&'a mut T10,) = r;
                *final(self) == (old(self).0, old(self).1, old(self).2, old(self).3, old(self).4,
                    old(self).5, old(self).6, old(self).7, old(self).8, old(self).9, *final(out.0))
            }),
    {
        (&mut self.10,)
    }

    proof fn lemma_extract_mut_len() {
    }
}

impl<'a, T0: 'a, T1: 'a, T2: 'a, T3: 'a, T4: 'a, T5: 'a, T6: 'a, T7: 'a, T8: 'a, T9: 'a, T10: 'a,
    T11: 'a> TypedExtractMut<'a, 0, 0, ()>
    for (T0, T1, T2, T3, T4, T5, T6, T7, T8, T9, T10, T11)
{
    open spec fn spec_borrows(&self, out: ()) -> bool {
        true
    }

    open spec fn spec_keeps(&self, after: (T0, T1, T2, T3, T4, T5, T6, T7, T8, T9, T10,
        T11)) -> bool {
        &&& after.0 == self.0
        &&& after.1 == self.1
        &&& after.2 == self.2
        &&& after.3 == self.3
        &&& after.4 == self.4
        &&& after.5 == self.5
        &&& after.6 == self.6
        &&& after.7 == self.7
        &&& after.8 == self.8
        &&& after.9 == self.9
        &&& after.10 == self.10
        &&& after.11 == self.11
    }

    fn extract_mut(&'a mut self) -> (r: ()) {
        ()
    }

    proof fn lemma_extract_mut_len() {
    }
}

impl<'a, T0: 'a, T1: 'a, T2: 'a, T3: 'a, T4: 'a, T5: 'a, T6: 'a, T7: 'a, T8: 'a, T9: 'a, T10: 'a,
    T11: 'a> TypedExtractMut<'a, 0, 1, (&'a mut T0,)>
    for (T0, T1, T2, T3, T4, T5, T6, T7, T8, T9, T10, T11)
{
    open spec fn spec_borrows(&self, out: (&'a mut T0,)) -> bool {
        *out.0 == self.0
    }

    open spec fn spec_keeps(&self, after: (T0, T1, T2, T3, T4, T5, T6, T7, T8, T9, T10,
        T11)) -> bool {
        &&& after.1 == self.1
        &&& after.2 == self.2
        &&& after.3 == self.3
        &&& after.4 == self.4
        &&& after.5 == self.5
        &&& after.6 == self.6
        &&& after.7 == self.7
        &&& after.8 == self.8
        &&& after.9 == self.9
        &&& after.10 == self.10
        &&& after.11 == self.11
    }

    fn extract_mut(&'a mut self) -> (r: (&'a mut T0,))
        ensures
            ({
                let out: (&'a mut T0,) = r;
                *final(self) == (*final(out.0), old(self).1, old(self).2, old(self).3, old(self).4,
                    old(self).5, old(self).6, old(self).7, old(self).8, old(self).9, old(self).10,
                    old(self).11)
            }),
    {
        (&mut self.0,)
    }

    proof fn lemma_extract_mut_len() {
    }
}

impl<'a, T0: 'a, T1: 'a, T2: 'a, T3: 'a, T4: 'a, T5: 'a, T6: 'a, T7: 'a, T8: 'a, T9: 'a, T10: 'a,
    T11: 'a> TypedExtractMut<'a, 0, 2, (&'a mut T0, &'a mut T1)>
    for (T0, T1, T2, T3, T4, T5, T6, T7, T8, T9, T10, T11)
{
    open spec fn spec_borrows(&self, out: (&'a mut T0, &'a mut T1)) -> bool {
        &&& *out.0 == self.0
        &&& *out.1 == self.1
    }

    open spec fn spec_keeps(&self, after: (T0, T1, T2, T3, T4, T5, T6, T7, T8, T9, T10,
        T11)) -> bool {
        &&& after.2 == self.2
        &&& after.3 == self.3
        &&& after.4 == self.4
        &&& after.5 == self.5
        &&& after.6 == self.6
        &&& after.7 == self.7
        &&& after.8 == self.8
        &&& after.9 == self.9
        &&& after.10 == self.10
        &&& after.11 == self.11
    }

    fn extract_mut(&'a mut self) -> (r: (&'a mut T0, &'a mut T1))
        ensures
            ({
                let out: (&'a mut T0, &'a mut T1) = r;
                *final(self) == (*final(out.0), *final(out.1), old(self).2, old(self).3,
                    old(self).4, old(self).5, old(self).6, old(self).7, old(self).8, old(self).9,
                    old(self).10, old(self).11)
            }),
    {
        (&mut self.0, &mut self.1)
    }

    proof fn lemma_extract_mut_len() {
    }
}

impl<'a, T0: 'a, T1: 'a, T2: 'a, T3: 'a, T4: 'a, T5: 'a, T6: 'a, T7: 'a, T8: 'a, T9: 'a, T10: 'a,
    T11: 'a> TypedExtractMut<'a, 0, 3, (&'a mut T0, &'a mut T1, &'a mut T2)>
    for (T0, T1, T2, T3, T4, T5, T6, T7, T8, T9, T10, T11)
{
    open spec fn spec_borrows(&self, out: (&'a mut T0, &'a mut T1, &'a mut T2)) -> bool {
        &&& *out.0 == self.0
        &&& *out.1 == self.1
        &&& *out.2 == self.2
    }

    open spec fn spec_keeps(&self, after: (T0, T1, T2, T3, T4, T5, T6, T7, T8, T9, T10,
        T11)) -> bool {
        &&& after.3 == self.3
        &&& after.4 == self.4
        &&& after.5 == self.5
        &&& after.6 == self.6
        &&& after.7 == self.7
        &&& after.8 == self.8
        &&& after.9 == self.9
        &&& after.10 == self.10
        &&& after.11 == self.11
    }

    fn extract_mut(&'a mut self) -> (r: (&'a mut T0, &'a mut T1, &'a mut T2))
        ensures
            ({
                let out: (&'a mut T0, &'a mut T1, &'a mut T2) = r;
                *final(self) == (*final(out.0), *final(out.1), *final(out.2), old(self).3,
                    old(self).4, old(self).5, old(self).6, old(self).7, old(self).8, old(self).9,
                    old(self).10, old(self).11)
            }),
    {
        (&mut self.0, &mut self.1, &mut self.2)
    }

    proof fn lemma_extract_mut_len() {
    }
}

impl<'a, T0: 'a, T1: 'a, T2: 'a, T3: 'a, T4: 'a, T5: 'a, T6: 'a, T7: 'a, T8: 'a, T9: 'a, T10: 'a,
    T11: 'a> TypedExtractMut<'a, 0, 4, (&'a mut T0, &'a mut T1, &'a mut T2, &'a mut T3)>
    for (T0, T1, T2, T3, T4, T5, T6, T7, T8, T9, T10, T11)
{
    open spec fn spec_borrows(&self, out: (&'a mut T0, &'a mut T1, &'a mut T2,
        &'a mut T3)) -> bool {
        &&& *out.0 == self.0
        &&& *out.1 == self.1
        &&& *out.2 == self.2
        &&& *out.3 == self.3
    }

    open spec fn spec_keeps(&self, after: (T0, T1, T2, T3, T4, T5, T6, T7, T8, T9, T10,
        T11)) -> bool {
        &&& after.4 == self.4
        &&& after.5 == self.5
        &&& after.6 == self.6
        &&& after.7 == self.7
        &&& after.8 == self.8
        &&& after.9 == self.9
        &&& after.10 == self.10
        &&& after.11 == self.11
    }

    fn extract_mut(&'a mut self) -> (r: (&'a mut T0, &'a mut T1, &'a mut T2, &'a mut T3))
        ensures
            ({
                let out: (&'a mut T0, &'a mut T1, &'a mut T2, &'a mut T3) = r;
                *final(self) == (*final(out.0), *final(out.1), *final(out.2), *final(out.3),
                    old(self).4, old(self).5, old(self).6, old(self).7, old(self).8, old(self).9,
                    old(self).10, old(self).11)
            }),
    {
        (&mut self.0, &mut self.1, &mut self.2, &mut self.3)
    }

    proof fn lemma_extract_mut_len() {
    }
}

impl<'a, T0: 'a, T1: 'a, T2: 'a, T3: 'a, T4: 'a, T5: 'a, T6: 'a, T7: 'a, T8: 'a, T9: 'a, T10: 'a,
    T11: 'a> TypedExtractMut<'a, 0, 5, (&'a mut T0, &'a mut T1, &'a mut T2, &'a mut T3,
    &'a mut T4)>
    for (T0, T1, T2, T3, T4, T5, T6, T7, T8, T9, T10, T11)
{
    open spec fn spec_borrows(&self, out: (&'a mut T0, &'a mut T1, &'a mut T2, &'a mut T3,
        &'a mut T4)) -> bool {
        &&& *out.0 == self.0
        &&& *out.1 == self.1
        &&& *out.2 == self.2
        &&& *out.3 == self.3
        &&& *out.4 == self.4
    }

    open spec fn spec_keeps(&self, after: (T0, T1, T2, T3, T4, T5, T6, T7, T8, T9, T10,
        T11)) -> bool {
        &&& after.5 == self.5
        &&& after.6 == self.6
        &&& after.7 == self.7
        &&& after.8 == self.8
        &&& after.9 == self.9
        &&& after.10 == self.10
        &&& after.11 == self.11
    }

    fn extract_mut(&'a mut self) -> (r: (&'a mut T0, &'a mut T1, &'a mut T2, &'a mut T3,
        &'a mut T4))
        ensures
            ({
                let out: (&'a mut T0, &'a mut T1, &'a mut T2, &'a mut T3, &'a mut T4) = r;
                *final(self) == (*final(out.0), *final(out.1), *final(out.2), *final(out.3),
                    *final(out.4), old(self).5, old(self).6, old(self).7, old(self).8, old(self).9,
                    old(self).10, old(self).11)
            }),
    {
        (&mut self.0, &mut self.1, &mut self.2, &mut self.3, &mut self.4)
    }

    proof fn lemma_extract_mut_len() {
    }
}

impl<'a, T0: 'a, T1: 'a, T2: 'a, T3: 'a, T4: 'a, T5: 'a, T6: 'a, T7: 'a, T8: 'a, T9: 'a, T10: 'a,
    T11: 'a> TypedExtractMut<'a, 0, 6, (&'a mut T0, &'a mut T1, &'a mut T2, &'a mut T3, &'a mut T4,
    &'a mut T5)>
    for (T0, T1, T2, T3, T4, T5, T6, T7, T8, T9, T10, T11)
{
    open spec fn spec_borrows(&self, out: (&'a mut T0, &'a mut T1, &'a mut T2, &'a mut T3,
        &'a mut T4, &'a mut T5)) -> bool {
        &&& *out.0 == self.0
        &&& *out.1 == self.1
        &&& *out.2 == self.2
        &&& *out.3 == self.3
        &&& *out.4 == self.4
        &&& *out.5 == self.5
    }

    open spec fn spec_keeps(&self, after: (T0, T1, T2, T3, T4, T5, T6, T7, T8, T9, T10,
        T11)) -> bool {
        &&& after.6 == self.6
        &&& after.7 == self.7
        &&& after.8 == self.8
        &&& after.9 == self.9
        &&& after.10 == self.10
        &&& after.11 == self.11
    }

    fn extract_mut(&'a mut self) -> (r: (&'a mut T0, &'a mut T1, &'a mut T2, &'a mut T3, &'a mut T4,
        &'a mut T5))
        ensures
            ({
                let out: (&'a mut T0, &'a mut T1, &'a mut T2, &'a mut T3, &'a mut T4,
                    &'a mut T5) = r;
                *final(self) == (*final(out.0), *final(out.1), *final(out.2), *final(out.3),
                    *final(out.4), *final(out.5), old(self).6, old(self).7, old(self).8,
                    old(self).9, old(self).10, old(self).11)
            }),
    {
        (&mut self.0, &mut self.1, &mut self.2, &mut self.3, &mut self.4, &mut self.5)
    }

    proof fn lemma_extract_mut_len() {
    }
}

impl<'a, T0: 'a, T1: 'a, T2: 'a, T3: 'a, T4: 'a, T5: 'a, T6: 'a, T7: 'a, T8: 'a, T9: 'a, T10: 'a,
    T11: 'a> TypedExtractMut<'a, 0, 7, (&'a mut T0, &'a mut T1, &'a mut T2, &'a mut T3, &'a mut T4,
    &'a mut T5, &'a mut T6)>
    for (T0, T1, T2, T3, T4, T5, T6, T7, T8, T9, T10, T11)
{
    open spec fn spec_borrows(&self, out: (&'a mut T0, &'a mut T1, &'a mut T2, &'a mut T3,
        &'a mut T4, &'a mut T5, &'a mut T6)) -> bool {
        &&& *out.0 == self.0
        &&& *out.1 == self.1
        &&& *out.2 == self.2
        &&& *out.3 == self.3
        &&& *out.4 == self.4
        &&& *out.5 == self.5
        &&& *out.6 == self.6
    }

    open spec fn spec_keeps(&self, after: (T0, T1, T2, T3, T4, T5, T6, T7, T8, T9, T10,
        T11)) -> bool {
        &&& after.7 == self.7
        &&& after.8 == self.8
        &&& after.9 == self.9
        &&& after.10 == self.10
        &&& after.11 == self.11
    }

    fn extract_mut(&'a mut self) -> (r: (&'a mut T0, &'a mut T1, &'a mut T2, &'a mut T3, &'a mut T4,
        &'a mut T5, &'a mut T6))
        ensures
            ({
                let out: (&'a mut T0, &'a mut T1, &'a mut T2, &'a mut T3, &'a mut T4, &'a mut T5,
                    &'a mut T6) = r;
                *final(self) == (*final(out.0), *final(out.1), *final(out.2), *final(out.3),
                    *final(out.4), *final(out.5), *final(out.6), old(self).7, old(self).8,
                    old(self).9, old(self).10, old(self).11)
            }),
    {
        (&mut self.0, &mut self.1, &mut self.2, &mut self.3, &mut self.4, &mut self.5, &mut self.6)
    }

    proof fn lemma_extract_mut_len() {
    }
}

impl<'a, T0: 'a, T1: 'a, T2: 'a, T3: 'a, T4: 'a, T5: 'a, T6: 'a, T7: 'a, T8: 'a, T9: 'a, T10: 'a,
    T11: 'a> TypedExtractMut<'a, 0, 8, (&'a mut T0, &'a mut T1, &'a mut T2, &'a mut T3, &'a mut T4,
    &'a mut T5, &'a mut T6, &'a mut T7)>
    for (T0, T1, T2, T3, T4, T5, T6, T7, T8, T9, T10, T11)
{
    open spec fn spec_borrows(&self, out: (&'a mut T0, &'a mut T1, &'a mut T2, &'a mut T3,
        &'a mut T4, &'a mut T5, &'a mut T6, &'a mut T7)) -> bool {
        &&& *out.0 == self.0
        &&& *out.1 == self.1
        &&& *out.2 == self.2
        &&& *out.3 == self.3
        &&& *out.4 == self.4
        &&& *out.5 == self.5
        &&& *out.6 == self.6
        &&& *out.7 == self.7
    }

    open spec fn spec_keeps(&self, after: (T0, T1, T2, T3, T4, T5, T6, T7, T8, T9, T10,
        T11)) -> bool {
        &&& after.8 == self.8
        &&& after.9 == self.9
        &&& after.10 == self.10
        &&& after.11 == self.11
    }

    fn extract_mut(&'a mut self) -> (r: (&'a mut T0, &'a mut T1, &'a mut T2, &'a mut T3, &'a mut T4,
        &'a mut T5, &'a mut T6, &'a mut T7))
        ensures
            ({
                let out: (&'a mut T0, &'a mut T1, &'a mut T2, &'a mut T3, &'a mut T4, &'a mut T5,
                    &'a mut T6, &'a mut T7) = r;
                *final(self) == (*final(out.0), *final(out.1), *final(out.2), *final(out.3),
                    *final(out.4), *final(out.5), *final(out.6), *final(out.7), old(self).8,
                    old(self).9, old(self).10, old(self).11)
            }),
    {
        (&mut self.0, &mut self.1, &mut self.2, &mut self.3, &mut self.4, &mut self.5, &mut self.6,
            &mut self.7)
    }

    proof fn lemma_extract_mut_len() {
    }
}

impl<'a, T0: 'a, T1: 'a, T2: 'a, T3: 'a, T4: 'a, T5: 'a, T6: 'a, T7: 'a, T8: 'a, T9: 'a, T10: 'a,
    T11: 'a> TypedExtractMut<'a, 0, 9, (&'a mut T0, &'a mut T1, &'a mut T2, &'a mut T3, &'a mut T4,
    &'a mut T5, &'a mut T6, &'a mut T7, &'a mut T8)>
    for (T0, T1, T2, T3, T4, T5, T6, T7, T8, T9, T10, T11)
{
    open spec fn spec_borrows(&self, out: (&'a mut T0, &'a mut T1, &'a mut T2, &'a mut T3,
        &'a mut T4, &'a mut T5, &'a mut T6, &'a mut T7, &'a mut T8)) -> bool {
        &&& *out.0 == self.0
        &&& *out.1 == self.1
        &&& *out.2 == self.2
        &&& *out.3 == self.3
        &&& *out.4 == self.4
        &&& *out.5 == self.5
        &&& *out.6 == self.6
        &&& *out.7 == self.7
        &&& *out.8 == self.8
    }

    open spec fn spec_keeps(&self, after: (T0, T1, T2, T3, T4, T5, T6, T7, T8, T9, T10,
        T11)) -> bool {
        &&& after.9 == self.9
        &&& after.10 == self.10
        &&& after.11 == self.11
    }

    fn extract_mut(&'a mut self) -> (r: (&'a mut T0, &'a mut T1, &'a mut T2, &'a mut T3, &'a mut T4,
        &'a mut T5, &'a mut T6, &'a mut T7, &'a mut T8))
        ensures
            ({
                let out: (&'a mut T0, &'a mut T1, &'a mut T2, &'a mut T3, &'a mut T4, &'a mut T5,
                    &'a mut T6, &'a mut T7, &'a mut T8) = r;
                *final(self) == (*final(out.0), *final(out.1), *final(out.2), *final(out.3),
                    *final(out.4), *final(out.5), *final(out.6), *final(out.7), *final(out.8),
                    old(self).9, old(self).10, old(self).11)
            }),
    {
        (&mut self.0, &mut self.1, &mut self.2, &mut self.3, &mut self.4, &mut self.5, &mut self.6,
            &mut self.7, &mut self.8)
    }

    proof fn lemma_extract_mut_len() {
    }
}

impl<'a, T0: 'a, T1: 'a, T2: 'a, T3: 'a, T4: 'a, T5: 'a, T6: 'a, T7: 'a, T8: 'a, T9: 'a, T10: 'a,
    T11: 'a> TypedExtractMut<'a, 0, 10, (&'a mut T0, &'a mut T1, &'a mut T2, &'a mut T3, &'a mut T4,
    &'a mut T5, &'a mut T6, &'a mut T7, &'a mut T8, &'a mut T9)>
    for (T0, T1, T2, T3, T4, T5, T6, T7, T8, T9, T10, T11)
{
    open spec fn spec_borrows(&self, out: (&'a mut T0, &'a mut T1, &'a mut T2, &'a mut T3,
        &'a mut T4, &'a mut T5, &'a mut T6, &'a mut T7, &'a mut T8, &'a mut T9)) -> bool {
        &&& *out.0 == self.0
        &&& *out.1 == self.1
        &&& *out.2 == self.2
        &&& *out.3 == self.3
        &&& *out.4 == self.4
        &&& *out.5 == self.5
        &&& *out.6 == self.6
        &&& *out.7 == self.7
        &&& *out.8 == self.8
        &&& *out.9 == self.9
    }

    open spec fn spec_keeps(&self, after: (T0, T1, T2, T3, T4, T5, T6, T7, T8, T9, T10,
        T11)) -> bool {
        &&& after.10 == self.10
        &&& after.11 == self.11
    }

    fn extract_mut(&'a mut self) -> (r: (&'a mut T0, &'a mut T1, &'a mut T2, &'a mut T3, &'a mut T4,
        &'a mut T5, &'a mut T6, &'a mut T7, &'a mut T8, &'a mut T9))
        ensures
            ({
                let out: (&'a mut T0, &'a mut T1, &'a mut T2, &'a mut T3, &'a mut T4, &'a mut T5,
                    &'a mut T6, &'a mut T7, &'a mut T8, &'a mut T9) = r;
                *final(self) == (*final(out.0), *final(out.1), *final(out.2), *final(out.3),
                    *final(out.4), *final(out.5), *final(out.6), *final(out.7), *final(out.8),
                    *final(out.9), old(self).10, old(self).11)
            }),
    {
        (&mut self.0, &mut self.1, &mut self.2, &mut self.3, &mut self.4, &mut self.5, &mut self.6,
            &mut self.7, &mut self.8, &mut self.9)
    }

    proof fn lemma_extract_mut_len() {
    }
}

impl<'a, T0: 'a, T1: 'a, T2: 'a, T3: 'a, T4: 'a, T5: 'a, T6: 'a, T7: 'a, T8: 'a, T9: 'a, T10: 'a,
    T11: 'a> TypedExtractMut<'a, 0, 11, (&'a mut T0, &'a mut T1, &'a mut T2, &'a mut T3, &'a mut T4,
    &'a mut T5, &'a mut T6, &'a mut T7, &'a mut T8, &'a mut T9, &'a mut T10)>
    for (T0, T1, T2, T3, T4, T5, T6, T7, T8, T9, T10, T11)
{
    open spec fn spec_borrows(&self, out: (&'a mut T0, &'a mut T1, &'a mut T2, &'a mut T3,
        &'a mut T4, &'a mut T5, &'a mut T6, &'a mut T7, &'a mut T8, &'a mut T9,
        &'a mut T10)) -> bool {
        &&& *out.0 == self.0
        &&& *out.1 == self.1
        &&& *out.2 == self.2
        &&& *out.3 == self.3
        &&& *out.4 == self.4
        &&& *out.5 == self.5
        &&& *out.6 == self.6
        &&& *out.7 == self.7
        &&& *out.8 == self.8
        &&& *out.9 == self.9
        &&& *out.10 == self.10
    }

    open spec fn spec_keeps(&self, after: (T0, T1, T2, T3, T4, T5, T6, T7, T8, T9, T10,
        T11)) -> bool {
        after.11 == self.11
    }

    fn extract_mut(&'a mut self) -> (r: (&'a mut T0, &'a mut T1, &'a mut T2, &'a mut T3, &'a mut T4,
        &'a mut T5, &'a mut T6, &'a mut T7, &'a mut T8, &'a mut T9, &'a mut T10))
        ensures
            ({
                let out: (&'a mut T0, &'a mut T1, &'a mut T2, &'a mut T3, &'a mut T4, &'a mut T5,
                    &'a mut T6, &'a mut T7, &'a mut T8, &'a mut T9, &'a mut T10) = r;
                *final(self) == (*final(out.0), *final(out.1), *final(out.2), *final(out.3),
                    *final(out.4), *final(out.5), *final(out.6), *final(out.7), *final(out.8),
                    *final(out.9), *final(out.10), old(self).11)
            }),
    {
        (&mut self.0, &mut self.1, &mut self.2, &mut self.3, &mut self.4, &mut self.5, &mut self.6,
            &mut self.7, &mut self.8, &mut self.9, &mut self.10)
    }

    proof fn lemma_extract_mut_len() {
    }
}

impl<'a, T0: 'a, T1: 'a, T2: 'a, T3: 'a, T4: 'a, T5: 'a, T6: 'a, T7: 'a, T8: 'a, T9: 'a, T10: 'a,
    T11: 'a> TypedExtractMut<'a, 0, 12, (&'a mut T0, &'a mut T1, &'a mut T2, &'a mut T3, &'a mut T4,
    &'a mut T5, &'a mut T6, &'a mut T7, &'a mut T8, &'a mut T9, &'a mut T10, &'a mut T11)>
    for (T0, T1, T2, T3, T4, T5, T6, T7, T8, T9, T10, T11)
{
    open spec fn spec_borrows(&self, out: (&'a mut T0, &'a mut T1, &'a mut T2, &'a mut T3,
        &'a mut T4, &'a mut T5, &'a mut T6, &'a mut T7, &'a mut T8, &'a mut T9, &'a mut T10,
        &'a mut T11)) -> bool {
        &&& *out.0 == self.0
        &&& *out.1 == self.1
        &&& *out.2 == self.2
        &&& *out.3 == self.3
        &&& *out.4 == self.4
        &&& *out.5 == self.5
        &&& *out.6 == self.6
        &&& *out.7 == self.7
        &&& *out.8 == self.8
        &&& *out.9 == self.9
        &&& *out.10 == self.10
        &&& *out.11 == self.11
    }

    open spec fn spec_keeps(&self, after: (T0, T1, T2, T3, T4, T5, T6, T7, T8, T9, T10,
        T11)) -> bool {
        true
    }

    fn extract_mut(&'a mut self) -> (r: (&'a mut T0, &'a mut T1, &'a mut T2, &'a mut T3, &'a mut T4,
        &'a mut T5, &'a mut T6, &'a mut T7, &'a mut T8, &'a mut T9, &'a mut T10, &'a mut T11))
        ensures
            ({
                let out: (&'a mut T0, &'a mut T1, &'a mut T2, &'a mut T3, &'a mut T4, &'a mut T5,
                    &'a mut T6, &'a mut T7, &'a mut T8, &'a mut T9, &'a mut T10, &'a mut T11) = r;
                *final(self) == (*final(out.0), *final(out.1), *final(out.2), *final(out.3),
                    *final(out.4), *final(out.5), *final(out.6), *final(out.7), *final(out.8),
                    *final(out.9), *final(out.10), *final(out.11))
            }),
    {
        (&mut self.0, &mut self.1, &mut self.2, &mut self.3, &mut self.4, &mut self.5, &mut self.6,
            &mut self.7, &mut self.8, &mut self.9, &mut self.10, &mut self.11)
    }

    proof fn lemma_extract_mut_len() {
    }
}

impl<'a, T0: 'a, T1: 'a, T2: 'a, T3: 'a, T4: 'a, T5: 'a, T6: 'a, T7: 'a, T8: 'a, T9: 'a, T10: 'a,
    T11: 'a> TypedExtractMut<'a, 1, 1, ()>
    for (T0, T1, T2, T3, T4, T5, T6, T7, T8, T9, T10, T11)
{
    open spec fn spec_borrows(&self, out: ()) -> bool {
        true
    }

    open spec fn spec_keeps(&self, after: (T0, T1, T2, T3, T4, T5, T6, T7, T8, T9, T10,
        T11)) -> bool {
        &&& after.0 == self.0
        &&& after.1 == self.1
        &&& after.2 == self.2
        &&& after.3 == self.3
        &&& after.4 == self.4
        &&& after.5 == self.5
        &&& after.6 == self.6
        &&& after.7 == self.7
        &&& after.8 == self.8
        &&& after.9 == self.9
        &&& after.10 == self.10
        &&& after.11 == self.11
    }

    fn extract_mut(&'a mut self) -> (r: ()) {
        ()
    }

    proof fn lemma_extract_mut_len() {
    }
}

impl<'a, T0: 'a, T1: 'a, T2: 'a, T3: 'a, T4: 'a, T5: 'a, T6: 'a, T7: 'a, T8: 'a, T9: 'a, T10: 'a,
    T11: 'a> TypedExtractMut<'a, 1, 2, (&'a mut T1,)>
    for (T0, T1, T2, T3, T4, T5, T6, T7, T8, T9, T10, T11)
{
    open spec fn spec_borrows(&self, out: (&'a mut T1,)) -> bool {
        *out.0 == self.1
    }

    open spec fn spec_keeps(&self, after: (T0, T1, T2, T3, T4, T5, T6, T7, T8, T9, T10,
        T11)) -> bool {
        &&& after.0 == self.0
        &&& after.2 == self.2
        &&& after.3 == self.3
        &&& after.4 == self.4
        &&& after.5 == self.5
        &&& after.6 == self.6
        &&& after.7 == self.7
        &&& after.8 == self.8
        &&& after.9 == self.9
        &&& after.10 == self.10
        &&& after.11 == self.11
    }

    fn extract_mut(&'a mut self) -> (r: (&'a mut T1,))
        ensures
            ({
                let out: (&'a mut T1,) = r;
                *final(self) == (old(self).0, *final(out.0), old(self).2, old(self).3, old(self).4,
                    old(self).5, old(self).6, old(self).7, old(self).8, old(self).9, old(self).10,
                    old(self).11)
            }),
    {
        (&mut self.1,)
    }

    proof fn lemma_extract_mut_len() {
    }
}

impl<'a, T0: 'a, T1: 'a, T2: 'a, T3: 'a, T4: 'a, T5: 'a, T6: 'a, T7: 'a, T8: 'a, T9: 'a, T10: 'a,
    T11: 'a> TypedExtractMut<'a, 1, 3, (&'a mut T1, &'a mut T2)>
    for (T0, T1, T2, T3, T4, T5, T6, T7, T8, T9, T10, T11)
{
    open spec fn spec_borrows(&self, out: (&'a mut T1, &'a mut T2)) -> bool {
        &&& *out.0 == self.1
        &&& *out.1 == self.2
    }

    open spec fn spec_keeps(&self, after: (T0, T1, T2, T3, T4, T5, T6, T7, T8, T9, T10,
        T11)) -> bool {
        &&& after.0 == self.0
        &&& after.3 == self.3
        &&& after.4 == self.4
        &&& after.5 == self.5
        &&& after.6 == self.6
        &&& after.7 == self.7
        &&& after.8 == self.8
        &&& after.9 == self.9
        &&& after.10 == self.10
        &&& after.11 == self.11
    }

    fn extract_mut(&'a mut self) -> (r: (&'a mut T1, &'a mut T2))
        ensures
            ({
                let out: (&'a mut T1, &'a mut T2) = r;
                *final(self) == (old(self).0, *final(out.0), *final(out.1), old(self).3,
                    old(self).4, old(self).5, old(self).6, old(self).7, old(self).8, old(self).9,
                    old(self).10, old(self).11)
            }),
    {
        (&mut self.1, &mut self.2)
    }

    proof fn lemma_extract_mut_len() {
    }
}

impl<'a, T0: 'a, T1: 'a, T2: 'a, T3: 'a, T4: 'a, T5: 'a, T6: 'a, T7: 'a, T8: 'a, T9: 'a, T10: 'a,
    T11: 'a> TypedExtractMut<'a, 1, 4, (&'a mut T1, &'a mut T2, &'a mut T3)>
    for (T0, T1, T2, T3, T4, T5, T6, T7, T8, T9, T10, T11)
{
    open spec fn spec_borrows(&self, out: (&'a mut T1, &'a mut T2, &'a mut T3)) -> bool {
        &&& *out.0 == self.1
        &&& *out.1 == self.2
        &&& *out.2 == self.3
    }

    open spec fn spec_keeps(&self, after: (T0, T1, T2, T3, T4, T5, T6, T7, T8, T9, T10,
        T11)) -> bool {
        &&& after.0 == self.0
        &&& after.4 == self.4
        &&& after.5 == self.5
        &&& after.6 == self.6
        &&& after.7 == self.7
        &&& after.8 == self.8
        &&& after.9 == self.9
        &&& after.10 == self.10
        &&& after.11 == self.11
    }

    fn extract_mut(&'a mut self) -> (r: (&'a mut T1, &'a mut T2, &'a mut T3))
        ensures
            ({
                let out: (&'a mut T1, &'a mut T2, &'a mut T3) = r;
                *final(self) == (old(self).0, *final(out.0), *final(out.1), *final(out.2),
                    old(self).4, old(self).5, old(self).6, old(self).7, old(self).8, old(self).9,
                    old(self).10, old(self).11)
            }),
    {
        (&mut self.1, &mut self.2, &mut self.3)
    }

    proof fn lemma_extract_mut_len() {
    }
}

impl<'a, T0: 'a, T1: 'a, T2: 'a, T3: 'a, T4: 'a, T5: 'a, T6: 'a, T7: 'a, T8: 'a, T9: 'a, T10: 'a,
    T11: 'a> TypedExtractMut<'a, 1, 5, (&'a mut T1, &'a mut T2, &'a mut T3, &'a mut T4)>
    for (T0, T1, T2, T3, T4, T5, T6, T7, T8, T9, T10, T11)
{
    open spec fn spec_borrows(&self, out: (&'a mut T1, &'a mut T2, &'a mut T3,
        &'a mut T4)) -> bool {
        &&& *out.0 == self.1
        &&& *out.1 == self.2
        &&& *out.2 == self.3
        &&& *out.3 == self.4
    }

    open spec fn spec_keeps(&self, after: (T0, T1, T2, T3, T4, T5, T6, T7, T8, T9, T10,
        T11)) -> bool {
        &&& after.0 == self.0
        &&& after.5 == self.5
        &&& after.6 == self.6
        &&& after.7 == self.7
        &&& after.8 == self.8
        &&& after.9 == self.9
        &&& after.10 == self.10
        &&& after.11 == self.11
    }

    fn extract_mut(&'a mut self) -> (r: (&'a mut T1, &'a mut T2, &'a mut T3, &'a mut T4))
        ensures
            ({
                let out: (&'a mut T1, &'a mut T2, &'a mut T3, &'a mut T4) = r;
                *final(self) == (old(self).0, *final(out.0), *final(out.1), *final(out.2),
                    *final(out.3), old(self).5, old(self).6, old(self).7, old(self).8, old(self).9,
                    old(self).10, old(self).11)
            }),
    {
        (&mut self.1, &mut self.2, &mut self.3, &mut self.4)
    }

    proof fn lemma_extract_mut_len() {
    }
}

impl<'a, T0: 'a, T1: 'a, T2: 'a, T3: 'a, T4: 'a, T5: 'a, T6: 'a, T7: 'a, T8: 'a, T9: 'a, T10: 'a,
    T11: 'a> TypedExtractMut<'a, 1, 6, (&'a mut T1, &'a mut T2, &'a mut T3, &'a mut T4,
    &'a mut T5)>
    for (T0, T1, T2, T3, T4, T5, T6, T7, T8, T9, T10, T11)
{
    open spec fn spec_borrows(&self, out: (&'a mut T1, &'a mut T2, &'a mut T3, &'a mut T4,
        &'a mut T5)) -> bool {
        &&& *out.0 == self.1
        &&& *out.1 == self.2
        &&& *out.2 == self.3
        &&& *out.3 == self.4
        &&& *out.4 == self.5
    }

    open spec fn spec_keeps(&self, after: (T0, T1, T2, T3, T4, T5, T6, T7, T8, T9, T10,
        T11)) -> bool {
        &&& after.0 == self.0
        &&& after.6 == self.6
        &&& after.7 == self.7
        &&& after.8 == self.8
        &&& after.9 == self.9
        &&& after.10 == self.10
        &&& after.11 == self.11
    }

    fn extract_mut(&'a mut self) -> (r: (&'a mut T1, &'a mut T2, &'a mut T3, &'a mut T4,
        &'a mut T5))
        ensures
            ({
                let out: (&'a mut T1, &'a mut T2, &'a mut T3, &'a mut T4, &'a mut T5) = r;
                *final(self) == (old(self).0, *final(out.0), *final(out.1), *final(out.2),
                    *final(out.3), *final(out.4), old(self).6, old(self).7, old(self).8,
                    old(self).9, old(self).10, old(self).11)
            }),
    {
        (&mut self.1, &mut self.2, &mut self.3, &mut self.4, &mut self.5)
    }

    proof fn lemma_extract_mut_len() {
    }
}

impl<'a, T0: 'a, T1: 'a, T2: 'a, T3: 'a, T4: 'a, T5: 'a, T6: 'a, T7: 'a, T8: 'a, T9: 'a, T10: 'a,
    T11: 'a> TypedExtractMut<'a, 1, 7, (&'a mut T1, &'a mut T2, &'a mut T3, &'a mut T4, &'a mut T5,
    &'a mut T6)>
    for (T0, T1, T2, T3, T4, T5, T6, T7, T8, T9, T10, T11)
{
    open spec fn spec_borrows(&self, out: (&'a mut T1, &'a mut T2, &'a mut T3, &'a mut T4,
        &'a mut T5, &'a mut T6)) -> bool {
        &&& *out.0 == self.1
        &&& *out.1 == self.2
        &&& *out.2 == self.3
        &&& *out.3 == self.4
        &&& *out.4 == self.5
        &&& *out.5 == self.6
    }

    open spec fn spec_keeps(&self, after: (T0, T1, T2, T3, T4, T5, T6, T7, T8, T9, T10,
        T11)) -> bool {
        &&& after.0 == self.0
        &&& after.7 == self.7
        &&& after.8 == self.8
        &&& after.9 == self.9
        &&& after.10 == self.10
        &&& after.11 == self.11
    }

    fn extract_mut(&'a mut self) -> (r: (&'a mut T1, &'a mut T2, &'a mut T3, &'a mut T4, &'a mut T5,
        &'a mut T6))
        ensures
            ({
                let out: (&'a mut T1, &'a mut T2, &'a mut T3, &'a mut T4, &'a mut T5,
                    &'a mut T6) = r;
                *final(self) == (old(self).0, *final(out.0), *final(out.1), *final(out.2),
                    *final(out.3), *final(out.4), *final(out.5), old(self).7, old(self).8,
                    old(self).9, old(self).10, old(self).11)
            }),
    {
        (&mut self.1, &mut self.2, &mut self.3, &mut self.4, &mut self.5, &mut self.6)
    }

    proof fn lemma_extract_mut_len() {
    }
}

impl<'a, T0: 'a, T1: 'a, T2: 'a, T3: 'a, T4: 'a, T5: 'a, T6: 'a, T7: 'a, T8: 'a, T9: 'a, T10: 'a,
    T11: 'a> TypedExtractMut<'a, 1, 8, (&'a mut T1, &'a mut T2, &'a mut T3, &'a mut T4, &'a mut T5,
    &'a mut T6, &'a mut T7)>
    for (T0, T1, T2, T3, T4, T5, T6, T7, T8, T9, T10, T11)
{
    open spec fn spec_borrows(&self, out: (&'a mut T1, &'a mut T2, &'a mut T3, &'a mut T4,
        &'a mut T5, &'a mut T6, &'a mut T7)) -> bool {
        &&& *out.0 == self.1
        &&& *out.1 == self.2
        &&& *out.2 == self.3
        &&& *out.3 == self.4
        &&& *out.4 == self.5
        &&& *out.5 == self.6
        &&& *out.6 == self.7
    }

    open spec fn spec_keeps(&self, after: (T0, T1, T2, T3, T4, T5, T6, T7, T8, T9, T10,
        T11)) -> bool {
        &&& after.0 == self.0
        &&& after.8 == self.8
        &&& after.9 == self.9
        &&& after.10 == self.10
        &&& after.11 == self.11
    }

    fn extract_mut(&'a mut self) -> (r: (&'a mut T1, &'a mut T2, &'a mut T3, &'a mut T4, &'a mut T5,
        &'a mut T6, &'a mut T7))
        ensures
            ({
                let out: (&'a mut T1, &'a mut T2, &'a mut T3, &'a mut T4, &'a mut T5, &'a mut T6,
                    &'a mut T7) = r;
                *final(self) == (old(self).0, *final(out.0), *final(out.1), *final(out.2),
                    *final(out.3), *final(out.4), *final(out.5), *final(out.6), old(self).8,
                    old(self).9, old(self).10, old(self).11)
            }),
    {
        (&mut self.1, &mut self.2, &mut self.3, &mut self.4, &mut self.5, &mut self.6, &mut self.7)
    }

    proof fn lemma_extract_mut_len() {
    }
}

impl<'a, T0: 'a, T1: 'a, T2: 'a, T3: 'a, T4: 'a, T5: 'a, T6: 'a, T7: 'a, T8: 'a, T9: 'a, T10: 'a,
    T11: 'a> TypedExtractMut<'a, 1, 9, (&'a mut T1, &'a mut T2, &'a mut T3, &'a mut T4, &'a mut T5,
    &'a mut T6, &'a mut T7, &'a mut T8)>
    for (T0, T1, T2, T3, T4, T5, T6, T7, T8, T9, T10, T11)
{
    open spec fn spec_borrows(&self, out: (&'a mut T1, &'a mut T2, &'a mut T3, &'a mut T4,
        &'a mut T5, &'a mut T6, &'a mut T7, &'a mut T8)) -> bool {
        &&& *out.0 == self.1
        &&& *out.1 == self.2
        &&& *out.2 == self.3
        &&& *out.3 == self.4
        &&& *out.4 == self.5
        &&& *out.5 == self.6
        &&& *out.6 == self.7
        &&& *out.7 == self.8
    }

    open spec fn spec_keeps(&self, after: (T0, T1, T2, T3, T4, T5, T6, T7, T8, T9, T10,
        T11)) -> bool {
        &&& after.0 == self.0
        &&& after.9 == self.9
        &&& after.10 == self.10
        &&& after.11 == self.11
    }

    fn extract_mut(&'a mut self) -> (r: (&'a mut T1, &'a mut T2, &'a mut T3, &'a mut T4, &'a mut T5,
        &'a mut T6, &'a mut T7, &'a mut T8))
        ensures
            ({
                let out: (&'a mut T1, &'a mut T2, &'a mut T3, &'a mut T4, &'a mut T5, &'a mut T6,
                    &'a mut T7, &'a mut T8) = r;
                *final(self) == (old(self).0, *final(out.0), *final(out.1), *final(out.2),
                    *final(out.3), *final(out.4), *final(out.5), *final(out.6), *final(out.7),
                    old(self).9, old(self).10, old(self).11)
            }),
    {
        (&mut self.1, &mut self.2, &mut self.3, &mut self.4, &mut self.5, &mut self.6, &mut self.7,
            &mut self.8)
    }

    proof fn lemma_extract_mut_len() {
    }
}

impl<'a, T0: 'a, T1: 'a, T2: 'a, T3: 'a, T4: 'a, T5: 'a, T6: 'a, T7: 'a, T8: 'a, T9: 'a, T10: 'a,
    T11: 'a> TypedExtractMut<'a, 1, 10, (&'a mut T1, &'a mut T2, &'a mut T3, &'a mut T4, &'a mut T5,
    &'a mut T6, &'a mut T7, &'a mut T8, &'a mut T9)>
    for (T0, T1, T2, T3, T4, T5, T6, T7, T8, T9, T10, T11)
{
    open spec fn spec_borrows(&self, out: (&'a mut T1, &'a mut T2, &'a mut T3, &'a mut T4,
        &'a mut T5, &'a mut T6, &'a mut T7, &'a mut T8, &'a mut T9)) -> bool {
        &&& *out.0 == self.1
        &&& *out.1 == self.2
        &&& *out.2 == self.3
        &&& *out.3 == self.4
        &&& *out.4 == self.5
        &&& *out.5 == self.6
        &&& *out.6 == self.7
        &&& *out.7 == self.8
        &&& *out.8 == self.9
    }

    open spec fn spec_keeps(&self, after: (T0, T1, T2, T3, T4, T5, T6, T7, T8, T9, T10,
        T11)) -> bool {
        &&& after.0 == self.0
        &&& after.10 == self.10
        &&& after.11 == self.11
    }

    fn extract_mut(&'a mut self) -> (r: (&'a mut T1, &'a mut T2, &'a mut T3, &'a mut T4, &'a mut T5,
        &'a mut T6, &'a mut T7, &'a mut T8, &'a mut T9))
        ensures
            ({
                let out: (&'a mut T1, &'a mut T2, &'a mut T3, &'a mut T4, &'a mut T5, &'a mut T6,
                    &'a mut T7, &'a mut T8, &'a mut T9) = r;
                *final(self) == (old(self).0, *final(out.0), *final(out.1), *final(out.2),
                    *final(out.3), *final(out.4), *final(out.5), *final(out.6), *final(out.7),
                    *final(out.8), old(self).10, old(self).11)
            }),
    {
        (&mut self.1, &mut self.2, &mut self.3, &mut self.4, &mut self.5, &mut self.6, &mut self.7,
            &mut self.8, &mut self.9)
    }

    proof fn lemma_extract_mut_len() {
    }
}

impl<'a, T0: 'a, T1: 'a, T2: 'a, T3: 'a, T4: 'a, T5: 'a, T6: 'a, T7: 'a, T8: 'a, T9: 'a, T10: 'a,
    T11: 'a> TypedExtractMut<'a, 1, 11, (&'a mut T1, &'a mut T2, &'a mut T3, &'a mut T4, &'a mut T5,
    &'a mut T6, &'a mut T7, &'a mut T8, &'a mut T9, &'a mut T10)>
    for (T0, T1, T2, T3, T4, T5, T6, T7, T8, T9, T10, T11)
{
    open spec fn spec_borrows(&self, out: (&'a mut T1, &'a mut T2, &'a mut T3, &'a mut T4,
        &'a mut T5, &'a mut T6, &'a mut T7, &'a mut T8, &'a mut T9, &'a mut T10)) -> bool {
        &&& *out.0 == self.1
        &&& *out.1 == self.2
        &&& *out.2 == self.3
        &&& *out.3 == self.4
        &&& *out.4 == self.5
        &&& *out.5 == self.6
        &&& *out.6 == self.7
        &&& *out.7 == self.8
        &&& *out.8 == self.9
        &&& *out.9 == self.10
    }

    open spec fn spec_keeps(&self, after: (T0, T1, T2, T3, T4, T5, T6, T7, T8, T9, T10,
        T11)) -> bool {
        &&& after.0 == self.0
        &&& after.11 == self.11
    }

    fn extract_mut(&'a mut self) -> (r: (&'a mut T1, &'a mut T2, &'a mut T3, &'a mut T4, &'a mut T5,
        &'a mut T6, &'a mut T7, &'a mut T8, &'a mut T9, &'a mut T10))
        ensures
            ({
                let out: (&'a mut T1, &'a mut T2, &'a mut T3, &'a mut T4, &'a mut T5, &'a mut T6,
                    &'a mut T7, &'a mut T8, &'a mut T9, &'a mut T10) = r;
                *final(self) == (old(self).0, *final(out.0), *final(out.1), *final(out.2),
                    *final(out.3), *final(out.4), *final(out.5), *final(out.6), *final(out.7),
                    *final(out.8), *final(out.9), old(self).11)
            }),
    {
        (&mut self.1, &mut self.2, &mut self.3, &mut self.4, &mut self.5, &mut self.6, &mut self.7,
            &mut self.8, &mut self.9, &mut self.10)
    }

    proof fn lemma_extract_mut_len() {
    }
}

impl<'a, T0: 'a, T1: 'a, T2: 'a, T3: 'a, T4: 'a, T5: 'a, T6: 'a, T7: 'a, T8: 'a, T9: 'a, T10: 'a,
    T11: 'a> TypedExtractMut<'a, 1, 12, (&'a mut T1, &'a mut T2, &'a mut T3, &'a mut T4, &'a mut T5,
    &'a mut T6, &'a mut T7, &'a mut T8, &'a mut T9, &'a mut T10, &'a mut T11)>
    for (T0, T1, T2, T3, T4, T5, T6, T7, T8, T9, T10, T11)
{
    open spec fn spec_borrows(&self, out: (&'a mut T1, &'a mut T2, &'a mut T3, &'a mut T4,
        &'a mut T5, &'a mut T6, &'a mut T7, &'a mut T8, &'a mut T9, &'a mut T10,
        &'a mut T11)) -> bool {
        &&& *out.0 == self.1
        &&& *out.1 == self.2
        &&& *out.2 == self.3
        &&& *out.3 == self.4
        &&& *out.4 == self.5
        &&& *out.5 == self.6
        &&& *out.6 == self.7
        &&& *out.7 == self.8
        &&& *out.8 == self.9
        &&& *out.9 == self.10
        &&& *out.10 == self.11
    }

    open spec fn spec_keeps(&self, after: (T0, T1, T2, T3, T4, T5, T6, T7, T8, T9, T10,
        T11)) -> bool {
        after.0 == self.0
    }

    fn extract_mut(&'a mut self) -> (r: (&'a mut T1, &'a mut T2, &'a mut T3, &'a mut T4, &'a mut T5,
        &'a mut T6, &'a mut T7, &'a mut T8, &'a mut T9, &'a mut T10, &'a mut T11))
        ensures
            ({
                let out: (&'a mut T1, &'a mut T2, &'a mut T3, &'a mut T4, &'a mut T5, &'a mut T6,
                    &'a mut T7, &'a mut T8, &'a mut T9, &'a mut T10, &'a mut T11) = r;
                *final(self) == (old(self).0, *final(out.0), *final(out.1), *final(out.2),
                    *final(out.3), *final(out.4), *final(out.5), *final(out.6), *final(out.7),
                    *final(out.8), *final(out.9), *final(out.10))
            }),
    {
        (&mut self.1, &mut self.2, &mut self.3, &mut self.4, &mut self.5, &mut self.6, &mut self.7,
            &mut self.8, &mut self.9, &mut self.10, &mut self.11)
    }

    proof fn lemma_extract_mut_len() {
    }
}

impl<'a, T0: 'a, T1: 'a, T2: 'a, T3: 'a, T4: 'a, T5: 'a, T6: 'a, T7: 'a, T8: 'a, T9: 'a, T10: 'a,
    T11: 'a> TypedExtractMut<'a, 2, 2, ()>
    for (T0, T1, T2, T3, T4, T5, T6, T7, T8, T9, T10, T11)
{
    open spec fn spec_borrows(&self, out: ()) -> bool {
        true
    }

    open spec fn spec_keeps(&self, after: (T0, T1, T2, T3, T4, T5, T6, T7, T8, T9, T10,
        T11)) -> bool {
        &&& after.0 == self.0
        &&& after.1 == self.1
        &&& after.2 == self.2
        &&& after.3 == self.3
        &&& after.4 == self.4
        &&& after.5 == self.5
        &&& after.6 == self.6
        &&& after.7 == self.7
        &&& after.8 == self.8
        &&& after.9 == self.9
        &&& after.10 == self.10
        &&& after.11 == self.11
    }

    fn extract_mut(&'a mut self) -> (r: ()) {
        ()
    }

    proof fn lemma_extract_mut_len() {
    }
}

impl<'a, T0: 'a, T1: 'a, T2: 'a, T3: 'a, T4: 'a, T5: 'a, T6: 'a, T7: 'a, T8: 'a, T9: 'a, T10: 'a,
    T11: 'a> TypedExtractMut<'a, 2, 3, (&'a mut T2,)>
    for (T0, T1, T2, T3, T4, T5, T6, T7, T8, T9, T10, T11)
{
    open spec fn spec_borrows(&self, out: (&'a mut T2,)) -> bool {
        *out.0 == self.2
    }

    open spec fn spec_keeps(&self, after: (T0, T1, T2, T3, T4, T5, T6, T7, T8, T9, T10,
        T11)) -> bool {
        &&& after.0 == self.0
        &&& after.1 == self.1
        &&& after.3 == self.3
        &&& after.4 == self.4
        &&& after.5 == self.5
        &&& after.6 == self.6
        &&& after.7 == self.7
        &&& after.8 == self.8
        &&& after.9 == self.9
        &&& after.10 == self.10
        &&& after.11 == self.11
    }

    fn extract_mut(&'a mut self) -> (r: (&'a mut T2,))
        ensures
            ({
                let out: (&'a mut T2,) = r;
                *final(self) == (old(self).0, old(self).1, *final(out.0), old(self).3, old(self).4,
                    old(self).5, old(self).6, old(self).7, old(self).8, old(self).9, old(self).10,
                    old(self).11)
            }),
    {
        (&mut self.2,)
    }

    proof fn lemma_extract_mut_len() {
    }
}

impl<'a, T0: 'a, T1: 'a, T2: 'a, T3: 'a, T4: 'a, T5: 'a, T6: 'a, T7: 'a, T8: 'a, T9: 'a, T10: 'a,
    T11: 'a> TypedExtractMut<'a, 2, 4, (&'a mut T2, &'a mut T3)>
    for (T0, T1, T2, T3, T4, T5, T6, T7, T8, T9, T10, T11)
{
    open spec fn spec_borrows(&self, out: (&'a mut T2, &'a mut T3)) -> bool {
        &&& *out.0 == self.2
        &&& *out.1 == self.3
    }

    open spec fn spec_keeps(&self, after: (T0, T1, T2, T3, T4, T5, T6, T7, T8, T9, T10,
        T11)) -> bool {
        &&& after.0 == self.0
        &&& after.1 == self.1
        &&& after.4 == self.4
        &&& after.5 == self.5
        &&& after.6 == self.6
        &&& after.7 == self.7
        &&& after.8 == self.8
        &&& after.9 == self.9
        &&& after.10 == self.10
        &&& after.11 == self.11
    }

    fn extract_mut(&'a mut self) -> (r: (&'a mut T2, &'a mut T3))
        ensures
            ({
                let out: (&'a mut T2, &'a mut T3) = r;
                *final(self) == (old(self).0, old(self).1, *final(out.0), *final(out.1),
                    old(self).4, old(self).5, old(self).6, old(self).7, old(self).8, old(self).9,
                    old(self).10, old(self).11)
            }),
    {
        (&mut self.2, &mut self.3)
    }

    proof fn lemma_extract_mut_len() {
    }
}

impl<'a, T0: 'a, T1: 'a, T2: 'a, T3: 'a, T4: 'a, T5: 'a, T6: 'a, T7: 'a, T8: 'a, T9: 'a, T10: 'a,
    T11: 'a> TypedExtractMut<'a, 2, 5, (&'a mut T2, &'a mut T3, &'a mut T4)>
    for (T0, T1, T2, T3, T4, T5, T6, T7, T8, T9, T10, T11)
{
    open spec fn spec_borrows(&self, out: (&'a mut T2, &'a mut T3, &'a mut T4)) -> bool {
        &&& *out.0 == self.2
        &&& *out.1 == self.3
        &&& *out.2 == self.4
    }

    open spec fn spec_keeps(&self, after: (T0, T1, T2, T3, T4, T5, T6, T7, T8, T9, T10,
        T11)) -> bool {
        &&& after.0 == self.0
        &&& after.1 == self.1
        &&& after.5 == self.5
        &&& after.6 == self.6
        &&& after.7 == self.7
        &&& after.8 == self.8
        &&& after.9 == self.9
        &&& after.10 == self.10
        &&& after.11 == self.11
    }

    fn extract_mut(&'a mut self) -> (r: (&'a mut T2, &'a mut T3, &'a mut T4))
        ensures
            ({
                let out: (&'a mut T2, &'a mut T3, &'a mut T4) = r;
                *final(self) == (old(self).0, old(self).1, *final(out.0), *final(out.1),
                    *final(out.2), old(self).5, old(self).6, old(self).7, old(self).8, old(self).9,
                    old(self).10, old(self).11)
            }),
    {
        (&mut self.2, &mut self.3, &mut self.4)
    }

    proof fn lemma_extract_mut_len() {
    }
}

impl<'a, T0: 'a, T1: 'a, T2: 'a, T3: 'a, T4: 'a, T5: 'a, T6: 'a, T7: 'a, T8: 'a, T9: 'a, T10: 'a,
    T11: 'a> TypedExtractMut<'a, 2, 6, (&'a mut T2, &'a mut T3, &'a mut T4, &'a mut T5)>
    for (T0, T1, T2, T3, T4, T5, T6, T7, T8, T9, T10, T11)
{
    open spec fn spec_borrows(&self, out: (&'a mut T2, &'a mut T3, &'a mut T4,
        &'a mut T5)) -> bool {
        &&& *out.0 == self.2
        &&& *out.1 == self.3
        &&& *out.2 == self.4
        &&& *out.3 == self.5
    }

    open spec fn spec_keeps(&self, after: (T0, T1, T2, T3, T4, T5, T6, T7, T8, T9, T10,
        T11)) -> bool {
        &&& after.0 == self.0
        &&& after.1 == self.1
        &&& after.6 == self.6
        &&& after.7 == self.7
        &&& after.8 == self.8
        &&& after.9 == self.9
        &&& after.10 == self.10
        &&& after.11 == self.11
    }

    fn extract_mut(&'a mut self) -> (r: (&'a mut T2, &'a mut T3, &'a mut T4, &'a mut T5))
        ensures
            ({
                let out: (&'a mut T2, &'a mut T3, &'a mut T4, &'a mut T5) = r;
                *final(self) == (old(self).0, old(self).1, *final(out.0), *final(out.1),
                    *final(out.2), *final(out.3), old(self).6, old(self).7, old(self).8,
                    old(self).9, old(self).10, old(self).11)
            }),
    {
        (&mut self.2, &mut self.3, &mut self.4, &mut self.5)
    }

    proof fn lemma_extract_mut_len() {
    }
}

impl<'a, T0: 'a, T1: 'a, T2: 'a, T3: 'a, T4: 'a, T5: 'a, T6: 'a, T7: 'a, T8: 'a, T9: 'a, T10: 'a,
    T11: 'a> TypedExtractMut<'a, 2, 7, (&'a mut T2, &'a mut T3, &'a mut T4, &'a mut T5,
    &'a mut T6)>
    for (T0, T1, T2, T3, T4, T5, T6, T7, T8, T9, T10, T11)
{
    open spec fn spec_borrows(&self, out: (&'a mut T2, &'a mut T3, &'a mut T4, &'a mut T5,
        &'a mut T6)) -> bool {
        &&& *out.0 == self.2
        &&& *out.1 == self.3
        &&& *out.2 == self.4
        &&& *out.3 == self.5
        &&& *out.4 == self.6
    }

    open spec fn spec_keeps(&self, after: (T0, T1, T2, T3, T4, T5, T6, T7, T8, T9, T10,
        T11)) -> bool {
        &&& after.0 == self.0
        &&& after.1 == self.1
        &&& after.7 == self.7
        &&& after.8 == self.8
        &&& after.9 == self.9
        &&& after.10 == self.10
        &&& after.11 == self.11
    }

    fn extract_mut(&'a mut self) -> (r: (&'a mut T2, &'a mut T3, &'a mut T4, &'a mut T5,
        &'a mut T6))
        ensures
            ({
                let out: (&'a mut T2, &'a mut T3, &'a mut T4, &'a mut T5, &'a mut T6) = r;
                *final(self) == (old(self).0, old(self).1, *final(out.0), *final(out.1),
                    *final(out.2), *final(out.3), *final(out.4), old(self).7, old(self).8,
                    old(self).9, old(self).10, old(self).11)
            }),
    {
        (&mut self.2, &mut self.3, &mut self.4, &mut self.5, &mut self.6)
    }

    proof fn lemma_extract_mut_len() {
    }
}

impl<'a, T0: 'a, T1: 'a, T2: 'a, T3: 'a, T4: 'a, T5: 'a, T6: 'a, T7: 'a, T8: 'a, T9: 'a, T10: 'a,
    T11: 'a> TypedExtractMut<'a, 2, 8, (&'a mut T2, &'a mut T3, &'a mut T4, &'a mut T5, &'a mut T6,
    &'a mut T7)>
    for (T0, T1, T2, T3, T4, T5, T6, T7, T8, T9, T10, T11)
{
    open spec fn spec_borrows(&self, out: (&'a mut T2, &'a mut T3, &'a mut T4, &'a mut T5,
        &'a mut T6, &'a mut T7)) -> bool {
        &&& *out.0 == self.2
        &&& *out.1 == self.3
        &&& *out.2 == self.4
        &&& *out.3 == self.5
        &&& *out.4 == self.6
        &&& *out.5 == self.7
    }

    open spec fn spec_keeps(&self, after: (T0, T1, T2, T3, T4, T5, T6, T7, T8, T9, T10,
        T11)) -> bool {
        &&& after.0 == self.0
        &&& after.1 == self.1
        &&& after.8 == self.8
        &&& after.9 == self.9
        &&& after.10 == self.10
        &&& after.11 == self.11
    }

    fn extract_mut(&'a mut self) -> (r: (&'a mut T2, &'a mut T3, &'a mut T4, &'a mut T5, &'a mut T6,
        &'a mut T7))
        ensures
            ({
                let out: (&'a mut T2, &'a mut T3, &'a mut T4, &'a mut T5, &'a mut T6,
                    &'a mut T7) = r;
                *final(self) == (old(self).0, old(self).1, *final(out.0), *final(out.1),
                    *final(out.2), *final(out.3), *final(out.4), *final(out.5), old(self).8,
                    old(self).9, old(self).10, old(self).11)
            }),
    {
        (&mut self.2, &mut self.3, &mut self.4, &mut self.5, &mut self.6, &mut self.7)
    }

    proof fn lemma_extract_mut_len() {
    }
}

impl<'a, T0: 'a, T1: 'a, T2: 'a, T3: 'a, T4: 'a, T5: 'a, T6: 'a, T7: 'a, T8: 'a, T9: 'a, T10: 'a,
    T11: 'a> TypedExtractMut<'a, 2, 9, (&'a mut T2, &'a mut T3, &'a mut T4, &'a mut T5, &'a mut T6,
    &'a mut T7, &'a mut T8)>
    for (T0, T1, T2, T3, T4, T5, T6, T7, T8, T9, T10, T11)
{
    open spec fn spec_borrows(&self, out: (&'a mut T2, &'a mut T3, &'a mut T4, &'a mut T5,
        &'a mut T6, &'a mut T7, &'a mut T8)) -> bool {
        &&& *out.0 == self.2
        &&& *out.1 == self.3
        &&& *out.2 == self.4
        &&& *out.3 == self.5
        &&& *out.4 == self.6
        &&& *out.5 == self.7
        &&& *out.6 == self.8
    }

    open spec fn spec_keeps(&self, after: (T0, T1, T2, T3, T4, T5, T6, T7, T8, T9, T10,
        T11)) -> bool {
        &&& after.0 == self.0
        &&& after.1 == self.1
        &&& after.9 == self.9
        &&& after.10 == self.10
        &&& after.11 == self.11
    }

    fn extract_mut(&'a mut self) -> (r: (&'a mut T2, &'a mut T3, &'a mut T4, &'a mut T5, &'a mut T6,
        &'a mut T7, &'a mut T8))
        ensures
            ({
                let out: (&'a mut T2, &'a mut T3, &'a mut T4, &'a mut T5, &'a mut T6, &'a mut T7,
                    &'a mut T8) = r;
                *final(self) == (old(self).0, old(self).1, *final(out.0), *final(out.1),
                    *final(out.2), *final(out.3), *final(out.4), *final(out.5), *final(out.6),
                    old(self).9, old(self).10, old(self).11)
            }),
    {
        (&mut self.2, &mut self.3, &mut self.4, &mut self.5, &mut self.6, &mut self.7, &mut self.8)
    }

    proof fn lemma_extract_mut_len() {
    }
}

impl<'a, T0: 'a, T1: 'a, T2: 'a, T3: 'a, T4: 'a, T5: 'a, T6: 'a, T7: 'a, T8: 'a, T9: 'a, T10: 'a,
    T11: 'a> TypedExtractMut<'a, 2, 10, (&'a mut T2, &'a mut T3, &'a mut T4, &'a mut T5, &'a mut T6,
    &'a mut T7, &'a mut T8, &'a mut T9)>
    for (T0, T1, T2, T3, T4, T5, T6, T7, T8, T9, T10, T11)
{
    open spec fn spec_borrows(&self, out: (&'a mut T2, &'a mut T3, &'a mut T4, &'a mut T5,
        &'a mut T6, &'a mut T7, &'a mut T8, &'a mut T9)) -> bool {
        &&& *out.0 == self.2
        &&& *out.1 == self.3
        &&& *out.2 == self.4
        &&& *out.3 == self.5
        &&& *out.4 == self.6
        &&& *out.5 == self.7
        &&& *out.6 == self.8
        &&& *out.7 == self.9
    }

    open spec fn spec_keeps(&self, after: (T0, T1, T2, T3, T4, T5, T6, T7, T8, T9, T10,
        T11)) -> bool {
        &&& after.0 == self.0
        &&& after.1 == self.1
        &&& after.10 == self.10
        &&& after.11 == self.11
    }

    fn extract_mut(&'a mut self) -> (r: (&'a mut T2, &'a mut T3, &'a mut T4, &'a mut T5, &'a mut T6,
        &'a mut T7, &'a mut T8, &'a mut T9))
        ensures
            ({
                let out: (&'a mut T2, &'a mut T3, &'a mut T4, &'a mut T5, &'a mut T6, &'a mut T7,
                    &'a mut T8, &'a mut T9) = r;
                *final(self) == (old(self).0, old(self).1, *final(out.0), *final(out.1),
                    *final(out.2), *final(out.3), *final(out.4), *final(out.5), *final(out.6),
                    *final(out.7), old(self).10, old(self).11)
            }),
    {
        (&mut self.2, &mut self.3, &mut self.4, &mut self.5, &mut self.6, &mut self.7, &mut self.8,
            &mut self.9)
    }

    proof fn lemma_extract_mut_len() {
    }
}

impl<'a, T0: 'a, T1: 'a, T2: 'a, T3: 'a, T4: 'a, T5: 'a, T6: 'a, T7: 'a, T8: 'a, T9: 'a, T10: 'a,
    T11: 'a> TypedExtractMut<'a, 2, 11, (&'a mut T2, &'a mut T3, &'a mut T4, &'a mut T5, &'a mut T6,
    &'a mut T7, &'a mut T8, &'a mut T9, &'a mut T10)>
    for (T0, T1, T2, T3, T4, T5, T6, T7, T8, T9, T10, T11)
{
    open spec fn spec_borrows(&self, out: (&'a mut T2, &'a mut T3, &'a mut T4, &'a mut T5,
        &'a mut T6, &'a mut T7, &'a mut T8, &'a mut T9, &'a mut T10)) -> bool {
        &&& *out.0 == self.2
        &&& *out.1 == self.3
        &&& *out.2 == self.4
        &&& *out.3 == self.5
        &&& *out.4 == self.6
        &&& *out.5 == self.7
        &&& *out.6 == self.8
        &&& *out.7 == self.9
        &&& *out.8 == self.10
    }

    open spec fn spec_keeps(&self, after: (T0, T1, T2, T3, T4, T5, T6, T7, T8, T9, T10,
        T11)) -> bool {
        &&& after.0 == self.0
        &&& after.1 == self.1
        &&& after.11 == self.11
    }

    fn extract_mut(&'a mut self) -> (r: (&'a mut T2, &'a mut T3, &'a mut T4, &'a mut T5, &'a mut T6,
        &'a mut T7, &'a mut T8, &'a mut T9, &'a mut T10))
        ensures
            ({
                let out: (&'a mut T2, &'a mut T3, &'a mut T4, &'a mut T5, &'a mut T6, &'a mut T7,
                    &'a mut T8, &'a mut T9, &'a mut T10) = r;
                *final(self) == (old(self).0, old(self).1, *final(out.0), *final(out.1),
                    *final(out.2), *final(out.3), *final(out.4), *final(out.5), *final(out.6),
                    *final(out.7), *final(out.8), old(self).11)
            }),
    {
        (&mut self.2, &mut self.3, &mut self.4, &mut self.5, &mut self.6, &mut self.7, &mut self.8,
            &mut self.9, &mut self.10)
    }

    proof fn lemma_extract_mut_len() {
    }
}

impl<'a, T0: 'a, T1: 'a, T2: 'a, T3: 'a, T4: 'a, T5: 'a, T6: 'a, T7: 'a, T8: 'a, T9: 'a, T10: 'a,
    T11: 'a> TypedExtractMut<'a, 2, 12, (&'a mut T2, &'a mut T3, &'a mut T4, &'a mut T5, &'a mut T6,
    &'a mut T7, &'a mut T8, &'a mut T9, &'a mut T10, &'a mut T11)>
    for (T0, T1, T2, T3, T4, T5, T6, T7, T8, T9, T10, T11)
{
    open spec fn spec_borrows(&self, out: (&'a mut T2, &'a mut T3, &'a mut T4, &'a mut T5,
        &'a mut T6, &'a mut T7, &'a mut T8, &'a mut T9, &'a mut T10, &'a mut T11)) -> bool {
        &&& *out.0 == self.2
        &&& *out.1 == self.3
        &&& *out.2 == self.4
        &&& *out.3 == self.5
        &&& *out.4 == self.6
        &&& *out.5 == self.7
        &&& *out.6 == self.8
        &&& *out.7 == self.9
        &&& *out.8 == self.10
        &&& *out.9 == self.11
    }

    open spec fn spec_keeps(&self, after: (T0, T1, T2, T3, T4, T5, T6, T7, T8, T9, T10,
        T11)) -> bool {
        &&& after.0 == self.0
        &&& after.1 == self.1
    }

    fn extract_mut(&'a mut self) -> (r: (&'a mut T2, &'a mut T3, &'a mut T4, &'a mut T5, &'a mut T6,
        &'a mut T7, &'a mut T8, &'a mut T9, &'a mut T10, &'a mut T11))
        ensures
            ({
                let out: (&'a mut T2, &'a mut T3, &'a mut T4, &'a mut T5, &'a mut T6, &'a mut T7,
                    &'a mut T8, &'a mut T9, &'a mut T10, &'a mut T11) = r;
                *final(self) == (old(self).0, old(self).1, *final(out.0), *final(out.1),
                    *final(out.2), *final(out.3), *final(out.4), *final(out.5), *final(out.6),
                    *final(out.7), *final(out.8), *final(out.9))
            }),
    {
        (&mut self.2, &mut self.3, &mut self.4, &mut self.5, &mut self.6, &mut self.7, &mut self.8,
            &mut self.9, &mut self.10, &mut self.11)
    }

    proof fn lemma_extract_mut_len() {
    }
}

impl<'a, T0: 'a, T1: 'a, T2: 'a, T3: 'a, T4: 'a, T5: 'a, T6: 'a, T7: 'a, T8: 'a, T9: 'a, T10: 'a,
    T11: 'a> TypedExtractMut<'a, 3, 3, ()>
    for (T0, T1, T2, T3, T4, T5, T6, T7, T8, T9, T10, T11)
{
    open spec fn spec_borrows(&self, out: ()) -> bool {
        true
    }

    open spec fn spec_keeps(&self, after: (T0, T1, T2, T3, T4, T5, T6, T7, T8, T9, T10,
        T11)) -> bool {
        &&& after.0 == self.0
        &&& after.1 == self.1
        &&& after.2 == self.2
        &&& after.3 == self.3
        &&& after.4 == self.4
        &&& after.5 == self.5
        &&& after.6 == self.6
        &&& after.7 == self.7
        &&& after.8 == self.8
        &&& after.9 == self.9
        &&& after.10 == self.10
        &&& after.11 == self.11
    }

    fn extract_mut(&'a mut self) -> (r: ()) {
        ()
    }

    proof fn lemma_extract_mut_len() {
    }
}

impl<'a, T0: 'a, T1: 'a, T2: 'a, T3: 'a, T4: 'a, T5: 'a, T6: 'a, T7: 'a, T8: 'a, T9: 'a, T10: 'a,
    T11: 'a> TypedExtractMut<'a, 3, 4, (&'a mut T3,)>
    for (T0, T1, T2, T3, T4, T5, T6, T7, T8, T9, T10, T11)
{
    open spec fn spec_borrows(&self, out: (&'a mut T3,)) -> bool {
        *out.0 == self.3
    }

    open spec fn spec_keeps(&self, after: (T0, T1, T2, T3, T4, T5, T6, T7, T8, T9, T10,
        T11)) -> bool {
        &&& after.0 == self.0
        &&& after.1 == self.1
        &&& after.2 == self.2
        &&& after.4 == self.4
        &&& after.5 == self.5
        &&& after.6 == self.6
        &&& after.7 == self.7
        &&& after.8 == self.8
        &&& after.9 == self.9
        &&& after.10 == self.10
        &&& after.11 == self.11
    }

    fn extract_mut(&'a mut self) -> (r: (&'a mut T3,))
        ensures
            ({
                let out: (&'a mut T3,) = r;
                *final(self) == (old(self).0, old(self).1, old(self).2, *final(out.0), old(self).4,
                    old(self).5, old(self).6, old(self).7, old(self).8, old(self).9, old(self).10,
                    old(self).11)
            }),
    {
        (&mut self.3,)
    }

    proof fn lemma_extract_mut_len() {
    }
}

impl<'a, T0: 'a, T1: 'a, T2: 'a, T3: 'a, T4: 'a, T5: 'a, T6: 'a, T7: 'a, T8: 'a, T9: 'a, T10: 'a,
    T11: 'a> TypedExtractMut<'a, 3, 5, (&'a mut T3, &'a mut T4)>
    for (T0, T1, T2, T3, T4, T5, T6, T7, T8, T9, T10, T11)
{
    open spec fn spec_borrows(&self, out: (&'a mut T3, &'a mut T4)) -> bool {
        &&& *out.0 == self.3
        &&& *out.1 == self.4
    }

    open spec fn spec_keeps(&self, after: (T0, T1, T2, T3, T4, T5, T6, T7, T8, T9, T10,
        T11)) -> bool {
        &&& after.0 == self.0
        &&& after.1 == self.1
        &&& after.2 == self.2
        &&& after.5 == self.5
        &&& after.6 == self.6
        &&& after.7 == self.7
        &&& after.8 == self.8
        &&& after.9 == self.9
        &&& after.10 == self.10
        &&& after.11 == self.11
    }

    fn extract_mut(&'a mut self) -> (r: (&'a mut T3, &'a mut T4))
        ensures
            ({
                let out: (&'a mut T3, &'a mut T4) = r;
                *final(self) == (old(self).0, old(self).1, old(self).2, *final(out.0),
                    *final(out.1), old(self).5, old(self).6, old(self).7, old(self).8, old(self).9,
                    old(self).10, old(self).11)
            }),
    {
        (&mut self.3, &mut self.4)
    }

    proof fn lemma_extract_mut_len() {
    }
}

impl<'a, T0: 'a, T1: 'a, T2: 'a, T3: 'a, T4: 'a, T5: 'a, T6: 'a, T7: 'a, T8: 'a, T9: 'a, T10: 'a,
    T11: 'a> TypedExtractMut<'a, 3, 6, (&'a mut T3, &'a mut T4, &'a mut T5)>
    for (T0, T1, T2, T3, T4, T5, T6, T7, T8, T9, T10, T11)
{
    open spec fn spec_borrows(&self, out: (&'a mut T3, &'a mut T4, &'a mut T5)) -> bool {
        &&& *out.0 == self.3
        &&& *out.1 == self.4
        &&& *out.2 == self.5
    }

    open spec fn spec_keeps(&self, after: (T0, T1, T2, T3, T4, T5, T6, T7, T8, T9, T10,
        T11)) -> bool {
        &&& after.0 == self.0
        &&& after.1 == self.1
        &&& after.2 == self.2
        &&& after.6 == self.6
        &&& after.7 == self.7
        &&& after.8 == self.8
        &&& after.9 == self.9
        &&& after.10 == self.10
        &&& after.11 == self.11
    }

    fn extract_mut(&'a mut self) -> (r: (&'a mut T3, &'a mut T4, &'a mut T5))
        ensures
            ({
                let out: (&'a mut T3, &'a mut T4, &'a mut T5) = r;
                *final(self) == (old(self).0, old(self).1, old(self).2, *final(out.0),
                    *final(out.1), *final(out.2), old(self).6, old(self).7, old(self).8,
                    old(self).9, old(self).10, old(self).11)
            }),
    {
        (&mut self.3, &mut self.4, &mut self.5)
    }

    proof fn lemma_extract_mut_len() {
    }
}

impl<'a, T0: 'a, T1: 'a, T2: 'a, T3: 'a, T4: 'a, T5: 'a, T6: 'a, T7: 'a, T8: 'a, T9: 'a, T10: 'a,
    T11: 'a> TypedExtractMut<'a, 3, 7, (&'a mut T3, &'a mut T4, &'a mut T5, &'a mut T6)>
    for (T0, T1, T2, T3, T4, T5, T6, T7, T8, T9, T10, T11)
{
    open spec fn spec_borrows(&self, out: (&'a mut T3, &'a mut T4, &'a mut T5,
        &'a mut T6)) -> bool {
        &&& *out.0 == self.3
        &&& *out.1 == self.4
        &&& *out.2 == self.5
        &&& *out.3 == self.6
    }

    open spec fn spec_keeps(&self, after: (T0, T1, T2, T3, T4, T5, T6, T7, T8, T9, T10,
        T11)) -> bool {
        &&& after.0 == self.0
        &&& after.1 == self.1
        &&& after.2 == self.2
        &&& after.7 == self.7
        &&& after.8 == self.8
        &&& after.9 == self.9
        &&& after.10 == self.10
        &&& after.11 == self.11
    }

    fn extract_mut(&'a mut self) -> (r: (&'a mut T3, &'a mut T4, &'a mut T5, &'a mut T6))
        ensures
            ({
                let out: (&'a mut T3, &'a mut T4, &'a mut T5, &'a mut T6) = r;
                *final(self) == (old(self).0, old(self).1, old(self).2, *final(out.0),
                    *final(out.1), *final(out.2), *final(out.3), old(self).7, old(self).8,
                    old(self).9, old(self).10, old(self).11)
            }),
    {
        (&mut self.3, &mut self.4, &mut self.5, &mut self.6)
    }

    proof fn lemma_extract_mut_len() {
    }
}

impl<'a, T0: 'a, T1: 'a, T2: 'a, T3: 'a, T4: 'a, T5: 'a, T6: 'a, T7: 'a, T8: 'a, T9: 'a, T10: 'a,
    T11: 'a> TypedExtractMut<'a, 3, 8, (&'a mut T3, &'a mut T4, &'a mut T5, &'a mut T6,
    &'a mut T7)>
    for (T0, T1, T2, T3, T4, T5, T6, T7, T8, T9, T10, T11)
{
    open spec fn spec_borrows(&self, out: (&'a mut T3, &'a mut T4, &'a mut T5, &'a mut T6,
        &'a mut T7)) -> bool {
        &&& *out.0 == self.3
        &&& *out.1 == self.4
        &&& *out.2 == self.5
        &&& *out.3 == self.6
        &&& *out.4 == self.7
    }

    open spec fn spec_keeps(&self, after: (T0, T1, T2, T3, T4, T5, T6, T7, T8, T9, T10,
        T11)) -> bool {
        &&& after.0 == self.0
        &&& after.1 == self.1
        &&& after.2 == self.2
        &&& after.8 == self.8
        &&& after.9 == self.9
        &&& after.10 == self.10
        &&& after.11 == self.11
    }

    fn extract_mut(&'a mut self) -> (r: (&'a mut T3, &'a mut T4, &'a mut T5, &'a mut T6,
        &'a mut T7))
        ensures
            ({
                let out: (&'a mut T3, &'a mut T4, &'a mut T5, &'a mut T6, &'a mut T7) = r;
                *final(self) == (old(self).0, old(self).1, old(self).2, *final(out.0),
                    *final(out.1), *final(out.2), *final(out.3), *final(out.4), old(self).8,
                    old(self).9, old(self).10, old(self).11)
            }),
    {
        (&mut self.3, &mut self.4, &mut self.5, &mut self.6, &mut self.7)
    }

    proof fn lemma_extract_mut_len() {
    }
}

impl<'a, T0: 'a, T1: 'a, T2: 'a, T3: 'a, T4: 'a, T5: 'a, T6: 'a, T7: 'a, T8: 'a, T9: 'a, T10: 'a,
    T11: 'a> TypedExtractMut<'a, 3, 9, (&'a mut T3, &'a mut T4, &'a mut T5, &'a mut T6, &'a mut T7,
    &'a mut T8)>
    for (T0, T1, T2, T3, T4, T5, T6, T7, T8, T9, T10, T11)
{
    open spec fn spec_borrows(&self, out: (&'a mut T3, &'a mut T4, &'a mut T5, &'a mut T6,
        &'a mut T7, &'a mut T8)) -> bool {
        &&& *out.0 == self.3
        &&& *out.1 == self.4
        &&& *out.2 == self.5
        &&& *out.3 == self.6
        &&& *out.4 == self.7
        &&& *out.5 == self.8
    }

    open spec fn spec_keeps(&self, after: (T0, T1, T2, T3, T4, T5, T6, T7, T8, T9, T10,
        T11)) -> bool {
        &&& after.0 == self.0
        &&& after.1 == self.1
        &&& after.2 == self.2
        &&& after.9 == self.9
        &&& after.10 == self.10
        &&& after.11 == self.11
    }

    fn extract_mut(&'a mut self) -> (r: (&'a mut T3, &'a mut T4, &'a mut T5, &'a mut T6, &'a mut T7,
        &'a mut T8))
        ensures
            ({
                let out: (&'a mut T3, &'a mut T4, &'a mut T5, &'a mut T6, &'a mut T7,
                    &'a mut T8) = r;
                *final(self) == (old(self).0, old(self).1, old(self).2, *final(out.0),
                    *final(out.1), *final(out.2), *final(out.3), *final(out.4), *final(out.5),
                    old(self).9, old(self).10, old(self).11)
            }),
    {
        (&mut self.3, &mut self.4, &mut self.5, &mut self.6, &mut self.7, &mut self.8)
    }

    proof fn lemma_extract_mut_len() {
    }
}

impl<'a, T0: 'a, T1: 'a, T2: 'a, T3: 'a, T4: 'a, T5: 'a, T6: 'a, T7: 'a, T8: 'a, T9: 'a, T10: 'a,
    T11: 'a> TypedExtractMut<'a, 3, 10, (&'a mut T3, &'a mut T4, &'a mut T5, &'a mut T6, &'a mut T7,
    &'a mut T8, &'a mut T9)>
    for (T0, T1, T2, T3, T4, T5, T6, T7, T8, T9, T10, T11)
{
    open spec fn spec_borrows(&self, out: (&'a mut T3, &'a mut T4, &'a mut T5, &'a mut T6,
        &'a mut T7, &'a mut T8, &'a mut T9)) -> bool {
        &&& *out.0 == self.3
        &&& *out.1 == self.4
        &&& *out.2 == self.5
        &&& *out.3 == self.6
        &&& *out.4 == self.7
        &&& *out.5 == self.8
        &&& *out.6 == self.9
    }

    open spec fn spec_keeps(&self, after: (T0, T1, T2, T3, T4, T5, T6, T7, T8, T9, T10,
        T11)) -> bool {
        &&& after.0 == self.0
        &&& after.1 == self.1
        &&& after.2 == self.2
        &&& after.10 == self.10
        &&& after.11 == self.11
    }

    fn extract_mut(&'a mut self) -> (r: (&'a mut T3, &'a mut T4, &'a mut T5, &'a mut T6, &'a mut T7,
        &'a mut T8, &'a mut T9))
        ensures
            ({
                let out: (&'a mut T3, &'a mut T4, &'a mut T5, &'a mut T6, &'a mut T7, &'a mut T8,
                    &'a mut T9) = r;
                *final(self) == (old(self).0, old(self).1, old(self).2, *final(out.0),
                    *final(out.1), *final(out.2), *final(out.3), *final(out.4), *final(out.5),
                    *final(out.6), old(self).10, old(self).11)
            }),
    {
        (&mut self.3, &mut self.4, &mut self.5, &mut self.6, &mut self.7, &mut self.8, &mut self.9)
    }

    proof fn lemma_extract_mut_len() {
    }
}

impl<'a, T0: 'a, T1: 'a, T2: 'a, T3: 'a, T4: 'a, T5: 'a, T6: 'a, T7: 'a, T8: 'a, T9: 'a, T10: 'a,
    T11: 'a> TypedExtractMut<'a, 3, 11, (&'a mut T3, &'a mut T4, &'a mut T5, &'a mut T6, &'a mut T7,
    &'a mut T8, &'a mut T9, &'a mut T10)>
    for (T0, T1, T2, T3, T4, T5, T6, T7, T8, T9, T10, T11)
{
    open spec fn spec_borrows(&self, out: (&'a mut T3, &'a mut T4, &'a mut T5, &'a mut T6,
        &'a mut T7, &'a mut T8, &'a mut T9, &'a mut T10)) -> bool {
        &&& *out.0 == self.3
        &&& *out.1 == self.4
        &&& *out.2 == self.5
        &&& *out.3 == self.6
        &&& *out.4 == self.7
        &&& *out.5 == self.8
        &&& *out.6 == self.9
        &&& *out.7 == self.10
    }

    open spec fn spec_keeps(&self, after: (T0, T1, T2, T3, T4, T5, T6, T7, T8, T9, T10,
        T11)) -> bool {
        &&& after.0 == self.0
        &&& after.1 == self.1
        &&& after.2 == self.2
        &&& after.11 == self.11
    }

    fn extract_mut(&'a mut self) -> (r: (&'a mut T3, &'a mut T4, &'a mut T5, &'a mut T6, &'a mut T7,
        &'a mut T8, &'a mut T9, &'a mut T10))
        ensures
            ({
                let out: (&'a mut T3, &'a mut T4, &'a mut T5, &'a mut T6, &'a mut T7, &'a mut T8,
                    &'a mut T9, &'a mut T10) = r;
                *final(self) == (old(self).0, old(self).1, old(self).2, *final(out.0),
                    *final(out.1), *final(out.2), *final(out.3), *final(out.4), *final(out.5),
                    *final(out.6), *final(out.7), old(self).11)
            }),
    {
        (&mut self.3, &mut self.4, &mut self.5, &mut self.6, &mut self.7, &mut self.8, &mut self.9,
            &mut self.10)
    }

    proof fn lemma_extract_mut_len() {
    }
}

impl<'a, T0: 'a, T1: 'a, T2: 'a, T3: 'a, T4: 'a, T5: 'a, T6: 'a, T7: 'a, T8: 'a, T9: 'a, T10: 'a,
    T11: 'a> TypedExtractMut<'a, 3, 12, (&'a mut T3, &'a mut T4, &'a mut T5, &'a mut T6, &'a mut T7,
    &'a mut T8, &'a mut T9, &'a mut T10, &'a mut T11)>
    for (T0, T1, T2, T3, T4, T5, T6, T7, T8, T9, T10, T11)
{
    open spec fn spec_borrows(&self, out: (&'a mut T3, &'a mut T4, &'a mut T5, &'a mut T6,
        &'a mut T7, &'a mut T8, &'a mut T9, &'a mut T10, &'a mut T11)) -> bool {
        &&& *out.0 == self.3
        &&& *out.1 == self.4
        &&& *out.2 == self.5
        &&& *out.3 == self.6
        &&& *out.4 == self.7
        &&& *out.5 == self.8
        &&& *out.6 == self.9
        &&& *out.7 == self.10
        &&& *out.8 == self.11
    }

    open spec fn spec_keeps(&self, after: (T0, T1, T2, T3, T4, T5, T6, T7, T8, T9, T10,
        T11)) -> bool {
        &&& after.0 == self.0
        &&& after.1 == self.1
        &&& after.2 == self.2
    }

    fn extract_mut(&'a mut self) -> (r: (&'a mut T3, &'a mut T4, &'a mut T5, &'a mut T6, &'a mut T7,
        &'a mut T8, &'a mut T9, &'a mut T10, &'a mut T11))
        ensures
            ({
                let out: (&'a mut T3, &'a mut T4, &'a mut T5, &'a mut T6, &'a mut T7, &'a mut T8,
                    &'a mut T9, &'a mut T10, &'a mut T11) = r;
                *final(self) == (old(self).0, old(self).1, old(self).2, *final(out.0),
                    *final(out.1), *final(out.2), *final(out.3), *final(out.4), *final(out.5),
                    *final(out.6), *final(out.7), *final(out.8))
            }),
    {
        (&mut self.3, &mut self.4, &mut self.5, &mut self.6, &mut self.7, &mut self.8, &mut self.9,
            &mut self.10, &mut self.11)
    }

    proof fn lemma_extract_mut_len() {
    }
}

impl<'a, T0: 'a, T1: 'a, T2: 'a, T3: 'a, T4: 'a, T5: 'a, T6: 'a, T7: 'a, T8: 'a, T9: 'a, T10: 'a,
    T11: 'a> TypedExtractMut<'a, 4, 4, ()>
    for (T0, T1, T2, T3, T4, T5, T6, T7, T8, T9, T10, T11)
{
    open spec fn spec_borrows(&self, out: ()) -> bool {
        true
    }

    open spec fn spec_keeps(&self, after: (T0, T1, T2, T3, T4, T5, T6, T7, T8, T9, T10,
        T11)) -> bool {
        &&& after.0 == self.0
        &&& after.1 == self.1
        &&& after.2 == self.2
        &&& after.3 == self.3
        &&& after.4 == self.4
        &&& after.5 == self.5
        &&& after.6 == self.6
        &&& after.7 == self.7
        &&& after.8 == self.8
        &&& after.9 == self.9
        &&& after.10 == self.10
        &&& after.11 == self.11
    }

    fn extract_mut(&'a mut self) -> (r: ()) {
        ()
    }

    proof fn lemma_extract_mut_len() {
    }
}

impl<'a, T0: 'a, T1: 'a, T2: 'a, T3: 'a, T4: 'a, T5: 'a, T6: 'a, T7: 'a, T8: 'a, T9: 'a, T10: 'a,
    T11: 'a> TypedExtractMut<'a, 4, 5, (&'a mut T4,)>
    for (T0, T1, T2, T3, T4, T5, T6, T7, T8, T9, T10, T11)
{
    open spec fn spec_borrows(&self, out: (&'a mut T4,)) -> bool {
        *out.0 == self.4
    }

    open spec fn spec_keeps(&self, after: (T0, T1, T2, T3, T4, T5, T6, T7, T8, T9, T10,
        T11)) -> bool {
        &&& after.0 == self.0
        &&& after.1 == self.1
        &&& after.2 == self.2
        &&& after.3 == self.3
        &&& after.5 == self.5
        &&& after.6 == self.6
        &&& after.7 == self.7
        &&& after.8 == self.8
        &&& after.9 == self.9
        &&& after.10 == self.10
        &&& after.11 == self.11
    }

    fn extract_mut(&'a mut self) -> (r: (&'a mut T4,))
        ensures
            ({
                let out: (&'a mut T4,) = r;
                *final(self) == (old(self).0, old(self).1, old(self).2, old(self).3, *final(out.0),
                    old(self).5, old(self).6, old(self).7, old(self).8, old(self).9, old(self).10,
                    old(self).11)
            }),
    {
        (&mut self.4,)
    }

    proof fn lemma_extract_mut_len() {
    }
}

impl<'a, T0: 'a, T1: 'a, T2: 'a, T3: 'a, T4: 'a, T5: 'a, T6: 'a, T7: 'a, T8: 'a, T9: 'a, T10: 'a,
    T11: 'a> TypedExtractMut<'a, 4, 6, (&'a mut T4, &'a mut T5)>
    for (T0, T1, T2, T3, T4, T5, T6, T7, T8, T9, T10, T11)
{
    open spec fn spec_borrows(&self, out: (&'a mut T4, &'a mut T5)) -> bool {
        &&& *out.0 == self.4
        &&& *out.1 == self.5
    }

    open spec fn spec_keeps(&self, after: (T0, T1, T2, T3, T4, T5, T6, T7, T8, T9, T10,
        T11)) -> bool {
        &&& after.0 == self.0
        &&& after.1 == self.1
        &&& after.2 == self.2
        &&& after.3 == self.3
        &&& after.6 == self.6
        &&& after.7 == self.7
        &&& after.8 == self.8
        &&& after.9 == self.9
        &&& after.10 == self.10
        &&& after.11 == self.11
    }

    fn extract_mut(&'a mut self) -> (r: (&'a mut T4, &'a mut T5))
        ensures
            ({
                let out: (&'a mut T4, &'a mut T5) = r;
                *final(self) == (old(self).0, old(self).1, old(self).2, old(self).3, *final(out.0),
                    *final(out.1), old(self).6, old(self).7, old(self).8, old(self).9, old(self).10,
                    old(self).11)
            }),
    {
        (&mut self.4, &mut self.5)
    }

    proof fn lemma_extract_mut_len() {
    }
}

impl<'a, T0: 'a, T1: 'a, T2: 'a, T3: 'a, T4: 'a, T5: 'a, T6: 'a, T7: 'a, T8: 'a, T9: 'a, T10: 'a,
    T11: 'a> TypedExtractMut<'a, 4, 7, (&'a mut T4, &'a mut T5, &'a mut T6)>
    for (T0, T1, T2, T3, T4, T5, T6, T7, T8, T9, T10, T11)
{
    open spec fn spec_borrows(&self, out: (&'a mut T4, &'a mut T5, &'a mut T6)) -> bool {
        &&& *out.0 == self.4
        &&& *out.1 == self.5
        &&& *out.2 == self.6
    }

    open spec fn spec_keeps(&self, after: (T0, T1, T2, T3, T4, T5, T6, T7, T8, T9, T10,
        T11)) -> bool {
        &&& after.0 == self.0
        &&& after.1 == self.1
        &&& after.2 == self.2
        &&& after.3 == self.3
        &&& after.7 == self.7
        &&& after.8 == self.8
        &&& after.9 == self.9
        &&& after.10 == self.10
        &&& after.11 == self.11
    }

    fn extract_mut(&'a mut self) -> (r: (&'a mut T4, &'a mut T5, &'a mut T6))
        ensures
            ({
                let out: (&'a mut T4, &'a mut T5, &'a mut T6) = r;
                *final(self) == (old(self).0, old(self).1, old(self).2, old(self).3, *final(out.0),
                    *final(out.1), *final(out.2), old(self).7, old(self).8, old(self).9,
                    old(self).10, old(self).11)
            }),
    {
        (&mut self.4, &mut self.5, &mut self.6)
    }

    proof fn lemma_extract_mut_len() {
    }
}

impl<'a, T0: 'a, T1: 'a, T2: 'a, T3: 'a, T4: 'a, T5: 'a, T6: 'a, T7: 'a, T8: 'a, T9: 'a, T10: 'a,
    T11: 'a> TypedExtractMut<'a, 4, 8, (&'a mut T4, &'a mut T5, &'a mut T6, &'a mut T7)>
    for (T0, T1, T2, T3, T4, T5, T6, T7, T8, T9, T10, T11)
{
    open spec fn spec_borrows(&self, out: (&'a mut T4, &'a mut T5, &'a mut T6,
        &'a mut T7)) -> bool {
        &&& *out.0 == self.4
        &&& *out.1 == self.5
        &&& *out.2 == self.6
        &&& *out.3 == self.7
    }

    open spec fn spec_keeps(&self, after: (T0, T1, T2, T3, T4, T5, T6, T7, T8, T9, T10,
        T11)) -> bool {
        &&& after.0 == self.0
        &&& after.1 == self.1
        &&& after.2 == self.2
        &&& after.3 == self.3
        &&& after.8 == self.8
        &&& after.9 == self.9
        &&& after.10 == self.10
        &&& after.11 == self.11
    }

    fn extract_mut(&'a mut self) -> (r: (&'a mut T4, &'a mut T5, &'a mut T6, &'a mut T7))
        ensures
            ({
                let out: (&'a mut T4, &'a mut T5, &'a mut T6, &'a mut T7) = r;
                *final(self) == (old(self).0, old(self).1, old(self).2, old(self).3, *final(out.0),
                    *final(out.1), *final(out.2), *final(out.3), old(self).8, old(self).9,
                    old(self).10, old(self).11)
            }),
    {
        (&mut self.4, &mut self.5, &mut self.6, &mut self.7)
    }

    proof fn lemma_extract_mut_len() {
    }
}

impl<'a, T0: 'a, T1: 'a, T2: 'a, T3: 'a, T4: 'a, T5: 'a, T6: 'a, T7: 'a, T8: 'a, T9: 'a, T10: 'a,
    T11: 'a> TypedExtractMut<'a, 4, 9, (&'a mut T4, &'a mut T5, &'a mut T6, &'a mut T7,
    &'a mut T8)>
    for (T0, T1, T2, T3, T4, T5, T6, T7, T8, T9, T10, T11)
{
    open spec fn spec_borrows(&self, out: (&'a mut T4, &'a mut T5, &'a mut T6, &'a mut T7,
        &'a mut T8)) -> bool {
        &&& *out.0 == self.4
        &&& *out.1 == self.5
        &&& *out.2 == self.6
        &&& *out.3 == self.7
        &&& *out.4 == self.8
    }

    open spec fn spec_keeps(&self, after: (T0, T1, T2, T3, T4, T5, T6, T7, T8, T9, T10,
        T11)) -> bool {
        &&& after.0 == self.0
        &&& after.1 == self.1
        &&& after.2 == self.2
        &&& after.3 == self.3
        &&& after.9 == self.9
        &&& after.10 == self.10
        &&& after.11 == self.11
    }

    fn extract_mut(&'a mut self) -> (r: (&'a mut T4, &'a mut T5, &'a mut T6, &'a mut T7,
        &'a mut T8))
        ensures
            ({
                let out: (&'a mut T4, &'a mut T5, &'a mut T6, &'a mut T7, &'a mut T8) = r;
                *final(self) == (old(self).0, old(self).1, old(self).2, old(self).3, *final(out.0),
                    *final(out.1), *final(out.2), *final(out.3), *final(out.4), old(self).9,
                    old(self).10, old(self).11)
            }),
    {
        (&mut self.4, &mut self.5, &mut self.6, &mut self.7, &mut self.8)
    }

    proof fn lemma_extract_mut_len() {
    }
}

impl<'a, T0: 'a, T1: 'a, T2: 'a, T3: 'a, T4: 'a, T5: 'a, T6: 'a, T7: 'a, T8: 'a, T9: 'a, T10: 'a,
    T11: 'a> TypedExtractMut<'a, 4, 10, (&'a mut T4, &'a mut T5, &'a mut T6, &'a mut T7, &'a mut T8,
    &'a mut T9)>
    for (T0, T1, T2, T3, T4, T5, T6, T7, T8, T9, T10, T11)
{
    open spec fn spec_borrows(&self, out: (&'a mut T4, &'a mut T5, &'a mut T6, &'a mut T7,
        &'a mut T8, &'a mut T9)) -> bool {
        &&& *out.0 == self.4
        &&& *out.1 == self.5
        &&& *out.2 == self.6
        &&& *out.3 == self.7
        &&& *out.4 == self.8
        &&& *out.5 == self.9
    }

    open spec fn spec_keeps(&self, after: (T0, T1, T2, T3, T4, T5, T6, T7, T8, T9, T10,
        T11)) -> bool {
        &&& after.0 == self.0
        &&& after.1 == self.1
        &&& after.2 == self.2
        &&& after.3 == self.3
        &&& after.10 == self.10
        &&& after.11 == self.11
    }

    fn extract_mut(&'a mut self) -> (r: (&'a mut T4, &'a mut T5, &'a mut T6, &'a mut T7, &'a mut T8,
        &'a mut T9))
        ensures
            ({
                let out: (&'a mut T4, &'a mut T5, &'a mut T6, &'a mut T7, &'a mut T8,
                    &'a mut T9) = r;
                *final(self) == (old(self).0, old(self).1, old(self).2, old(self).3, *final(out.0),
                    *final(out.1), *final(out.2), *final(out.3), *final(out.4), *final(out.5),
                    old(self).10, old(self).11)
            }),
    {
        (&mut self.4, &mut self.5, &mut self.6, &mut self.7, &mut self.8, &mut self.9)
    }

    proof fn lemma_extract_mut_len() {
    }
}

impl<'a, T0: 'a, T1: 'a, T2: 'a, T3: 'a, T4: 'a, T5: 'a, T6: 'a, T7: 'a, T8: 'a, T9: 'a, T10: 'a,
    T11: 'a> TypedExtractMut<'a, 4, 11, (&'a mut T4, &'a mut T5, &'a mut T6, &'a mut T7, &'a mut T8,
    &'a mut T9, &'a mut T10)>
    for (T0, T1, T2, T3, T4, T5, T6, T7, T8, T9, T10, T11)
{
    open spec fn spec_borrows(&self, out: (&'a mut T4, &'a mut T5, &'a mut T6, &'a mut T7,
        &'a mut T8, &'a mut T9, &'a mut T10)) -> bool {
        &&& *out.0 == self.4
        &&& *out.1 == self.5
        &&& *out.2 == self.6
        &&& *out.3 == self.7
        &&& *out.4 == self.8
        &&& *out.5 == self.9
        &&& *out.6 == self.10
    }

    open spec fn spec_keeps(&self, after: (T0, T1, T2, T3, T4, T5, T6, T7, T8, T9, T10,
        T11)) -> bool {
        &&& after.0 == self.0
        &&& after.1 == self.1
        &&& after.2 == self.2
        &&& after.3 == self.3
        &&& after.11 == self.11
    }

    fn extract_mut(&'a mut self) -> (r: (&'a mut T4, &'a mut T5, &'a mut T6, &'a mut T7, &'a mut T8,
        &'a mut T9, &'a mut T10))
        ensures
            ({
                let out: (&'a mut T4, &'a mut T5, &'a mut T6, &'a mut T7, &'a mut T8, &'a mut T9,
                    &'a mut T10) = r;
                *final(self) == (old(self).0, old(self).1, old(self).2, old(self).3, *final(out.0),
                    *final(out.1), *final(out.2), *final(out.3), *final(out.4), *final(out.5),
                    *final(out.6), old(self).11)
            }),
    {
        (&mut self.4, &mut self.5, &mut self.6, &mut self.7, &mut self.8, &mut self.9, &mut self.10)
    }

    proof fn lemma_extract_mut_len() {
    }
}

impl<'a, T0: 'a, T1: 'a, T2: 'a, T3: 'a, T4: 'a, T5: 'a, T6: 'a, T7: 'a, T8: 'a, T9: 'a, T10: 'a,
    T11: 'a> TypedExtractMut<'a, 4, 12, (&'a mut T4, &'a mut T5, &'a mut T6, &'a mut T7, &'a mut T8,
    &'a mut T9, &'a mut T10, &'a mut T11)>
    for (T0, T1, T2, T3, T4, T5, T6, T7, T8, T9, T10, T11)
{
    open spec fn spec_borrows(&self, out: (&'a mut T4, &'a mut T5, &'a mut T6, &'a mut T7,
        &'a mut T8, &'a mut T9, &'a mut T10, &'a mut T11)) -> bool {
        &&& *out.0 == self.4
        &&& *out.1 == self.5
        &&& *out.2 == self.6
        &&& *out.3 == self.7
        &&& *out.4 == self.8
        &&& *out.5 == self.9
        &&& *out.6 == self.10
        &&& *out.7 == self.11
    }

    open spec fn spec_keeps(&self, after: (T0, T1, T2, T3, T4, T5, T6, T7, T8, T9, T10,
        T11)) -> bool {
        &&& after.0 == self.0
        &&& after.1 == self.1
        &&& after.2 == self.2
        &&& after.3 == self.3
    }

    fn extract_mut(&'a mut self) -> (r: (&'a mut T4, &'a mut T5, &'a mut T6, &'a mut T7, &'a mut T8,
        &'a mut T9, &'a mut T10, &'a mut T11))
        ensures
            ({
                let out: (&'a mut T4, &'a mut T5, &'a mut T6, &'a mut T7, &'a mut T8, &'a mut T9,
                    &'a mut T10, &'a mut T11) = r;
                *final(self) == (old(self).0, old(self).1, old(self).2, old(self).3, *final(out.0),
                    *final(out.1), *final(out.2), *final(out.3), *final(out.4), *final(out.5),
                    *final(out.6), *final(out.7))
            }),
    {
        (&mut self.4, &mut self.5, &mut self.6, &mut self.7, &mut self.8, &mut self.9, &mut self.10,
            &mut self.11)
    }

    proof fn lemma_extract_mut_len() {
    }
}

impl<'a, T0: 'a, T1: 'a, T2: 'a, T3: 'a, T4: 'a, T5: 'a, T6: 'a, T7: 'a, T8: 'a, T9: 'a, T10: 'a,
    T11: 'a> TypedExtractMut<'a, 5, 5, ()>
    for (T0, T1, T2, T3, T4, T5, T6, T7, T8, T9, T10, T11)
{
    open spec fn spec_borrows(&self, out: ()) -> bool {
        true
    }

    open spec fn spec_keeps(&self, after: (T0, T1, T2, T3, T4, T5, T6, T7, T8, T9, T10,
        T11)) -> bool {
        &&& after.0 == self.0
        &&& after.1 == self.1
        &&& after.2 == self.2
        &&& after.3 == self.3
        &&& after.4 == self.4
        &&& after.5 == self.5
        &&& after.6 == self.6
        &&& after.7 == self.7
        &&& after.8 == self.8
        &&& after.9 == self.9
        &&& after.10 == self.10
        &&& after.11 == self.11
    }

    fn extract_mut(&'a mut self) -> (r: ()) {
        ()
    }

    proof fn lemma_extract_mut_len() {
    }
}

impl<'a, T0: 'a, T1: 'a, T2: 'a, T3: 'a, T4: 'a, T5: 'a, T6: 'a, T7: 'a, T8: 'a, T9: 'a, T10: 'a,
    T11: 'a> TypedExtractMut<'a, 5, 6, (&'a mut T5,)>
    for (T0, T1, T2, T3, T4, T5, T6, T7, T8, T9, T10, T11)
{
    open spec fn spec_borrows(&self, out: (&'a mut T5,)) -> bool {
        *out.0 == self.5
    }

    open spec fn spec_keeps(&self, after: (T0, T1, T2, T3, T4, T5, T6, T7, T8, T9, T10,
        T11)) -> bool {
        &&& after.0 == self.0
        &&& after.1 == self.1
        &&& after.2 == self.2
        &&& after.3 == self.3
        &&& after.4 == self.4
        &&& after.6 == self.6
        &&& after.7 == self.7
        &&& after.8 == self.8
        &&& after.9 == self.9
        &&& after.10 == self.10
        &&& after.11 == self.11
    }

    fn extract_mut(&'a mut self) -> (r: (&'a mut T5,))
        ensures
            ({
                let out: (&'a mut T5,) = r;
                *final(self) == (old(self).0, old(self).1, old(self).2, old(self).3, old(self).4,
                    *final(out.0), old(self).6, old(self).7, old(self).8, old(self).9, old(self).10,
                    old(self).11)
            }),
    {
        (&mut self.5,)
    }

    proof fn lemma_extract_mut_len() {
    }
}

impl<'a, T0: 'a, T1: 'a, T2: 'a, T3: 'a, T4: 'a, T5: 'a, T6: 'a, T7: 'a, T8: 'a, T9: 'a, T10: 'a,
    T11: 'a> TypedExtractMut<'a, 5, 7, (&'a mut T5, &'a mut T6)>
    for (T0, T1, T2, T3, T4, T5, T6, T7, T8, T9, T10, T11)
{
    open spec fn spec_borrows(&self, out: (&'a mut T5, &'a mut T6)) -> bool {
        &&& *out.0 == self.5
        &&& *out.1 == self.6
    }

    open spec fn spec_keeps(&self, after: (T0, T1, T2, T3, T4, T5, T6, T7, T8, T9, T10,
        T11)) -> bool {
        &&& after.0 == self.0
        &&& after.1 == self.1
        &&& after.2 == self.2
        &&& after.3 == self.3
        &&& after.4 == self.4
        &&& after.7 == self.7
        &&& after.8 == self.8
        &&& after.9 == self.9
        &&& after.10 == self.10
        &&& after.11 == self.11
    }

    fn extract_mut(&'a mut self) -> (r: (&'a mut T5, &'a mut T6))
        ensures
            ({
                let out: (&'a mut T5, &'a mut T6) = r;
                *final(self) == (old(self).0, old(self).1, old(self).2, old(self).3, old(self).4,
                    *final(out.0), *final(out.1), old(self).7, old(self).8, old(self).9,
                    old(self).10, old(self).11)
            }),
    {
        (&mut self.5, &mut self.6)
    }

    proof fn lemma_extract_mut_len() {
    }
}

impl<'a, T0: 'a, T1: 'a, T2: 'a, T3: 'a, T4: 'a, T5: 'a, T6: 'a, T7: 'a, T8: 'a, T9: 'a, T10: 'a,
    T11: 'a> TypedExtractMut<'a, 5, 8, (&'a mut T5, &'a mut T6, &'a mut T7)>
    for (T0, T1, T2, T3, T4, T5, T6, T7, T8, T9, T10, T11)
{
    open spec fn spec_borrows(&self, out: (&'a mut T5, &'a mut T6, &'a mut T7)) -> bool {
        &&& *out.0 == self.5
        &&& *out.1 == self.6
        &&& *out.2 == self.7
    }

    open spec fn spec_keeps(&self, after: (T0, T1, T2, T3, T4, T5, T6, T7, T8, T9, T10,
        T11)) -> bool {
        &&& after.0 == self.0
        &&& after.1 == self.1
        &&& after.2 == self.2
        &&& after.3 == self.3
        &&& after.4 == self.4
        &&& after.8 == self.8
        &&& after.9 == self.9
        &&& after.10 == self.10
        &&& after.11 == self.11
    }

    fn extract_mut(&'a mut self) -> (r: (&'a mut T5, &'a mut T6, &'a mut T7))
        ensures
            ({
                let out: (&'a mut T5, &'a mut T6, &'a mut T7) = r;
                *final(self) == (old(self).0, old(self).1, old(self).2, old(self).3, old(self).4,
                    *final(out.0), *final(out.1), *final(out.2), old(self).8, old(self).9,
                    old(self).10, old(self).11)
            }),
    {
        (&mut self.5, &mut self.6, &mut self.7)
    }

    proof fn lemma_extract_mut_len() {
    }
}

impl<'a, T0: 'a, T1: 'a, T2: 'a, T3: 'a, T4: 'a, T5: 'a, T6: 'a, T7: 'a, T8: 'a, T9: 'a, T10: 'a,
    T11: 'a> TypedExtractMut<'a, 5, 9, (&'a mut T5, &'a mut T6, &'a mut T7, &'a mut T8)>
    for (T0, T1, T2, T3, T4, T5, T6, T7, T8, T9, T10, T11)
{
    open spec fn spec_borrows(&self, out: (&'a mut T5, &'a mut T6, &'a mut T7,
        &'a mut T8)) -> bool {
        &&& *out.0 == self.5
        &&& *out.1 == self.6
        &&& *out.2 == self.7
        &&& *out.3 == self.8
    }

    open spec fn spec_keeps(&self, after: (T0, T1, T2, T3, T4, T5, T6, T7, T8, T9, T10,
        T11)) -> bool {
        &&& after.0 == self.0
        &&& after.1 == self.1
        &&& after.2 == self.2
        &&& after.3 == self.3
        &&& after.4 == self.4
        &&& after.9 == self.9
        &&& after.10 == self.10
        &&& after.11 == self.11
    }

    fn extract_mut(&'a mut self) -> (r: (&'a mut T5, &'a mut T6, &'a mut T7, &'a mut T8))
        ensures
            ({
                let out: (&'a mut T5, &'a mut T6, &'a mut T7, &'a mut T8) = r;
                *final(self) == (old(self).0, old(self).1, old(self).2, old(self).3, old(self).4,
                    *final(out.0), *final(out.1), *final(out.2), *final(out.3), old(self).9,
                    old(self).10, old(self).11)
            }),
    {
        (&mut self.5, &mut self.6, &mut self.7, &mut self.8)
    }

    proof fn lemma_extract_mut_len() {
    }
}

impl<'a, T0: 'a, T1: 'a, T2: 'a, T3: 'a, T4: 'a, T5: 'a, T6: 'a, T7: 'a, T8: 'a, T9: 'a, T10: 'a,
    T11: 'a> TypedExtractMut<'a, 5, 10, (&'a mut T5, &'a mut T6, &'a mut T7, &'a mut T8,
    &'a mut T9)>
    for (T0, T1, T2, T3, T4, T5, T6, T7, T8, T9, T10, T11)
{
    open spec fn spec_borrows(&self, out: (&'a mut T5, &'a mut T6, &'a mut T7, &'a mut T8,
        &'a mut T9)) -> bool {
        &&& *out.0 == self.5
        &&& *out.1 == self.6
        &&& *out.2 == self.7
        &&& *out.3 == self.8
        &&& *out.4 == self.9
    }

    open spec fn spec_keeps(&self, after: (T0, T1, T2, T3, T4, T5, T6, T7, T8, T9, T10,
        T11)) -> bool {
        &&& after.0 == self.0
        &&& after.1 == self.1
        &&& after.2 == self.2
        &&& after.3 == self.3
        &&& after.4 == self.4
        &&& after.10 == self.10
        &&& after.11 == self.11
    }

    fn extract_mut(&'a mut self) -> (r: (&'a mut T5, &'a mut T6, &'a mut T7, &'a mut T8,
        &'a mut T9))
        ensures
            ({
                let out: (&'a mut T5, &'a mut T6, &'a mut T7, &'a mut T8, &'a mut T9) = r;
                *final(self) == (old(self).0, old(self).1, old(self).2, old(self).3, old(self).4,
                    *final(out.0), *final(out.1), *final(out.2), *final(out.3), *final(out.4),
                    old(self).10, old(self).11)
            }),
    {
        (&mut self.5, &mut self.6, &mut self.7, &mut self.8, &mut self.9)
    }

    proof fn lemma_extract_mut_len() {
    }
}

impl<'a, T0: 'a, T1: 'a, T2: 'a, T3: 'a, T4: 'a, T5: 'a, T6: 'a, T7: 'a, T8: 'a, T9: 'a, T10: 'a,
    T11: 'a> TypedExtractMut<'a, 5, 11, (&'a mut T5, &'a mut T6, &'a mut T7, &'a mut T8, &'a mut T9,
    &'a mut T10)>
    for (T0, T1, T2, T3, T4, T5, T6, T7, T8, T9, T10, T11)
{
    open spec fn spec_borrows(&self, out: (&'a mut T5, &'a mut T6, &'a mut T7, &'a mut T8,
        &'a mut T9, &'a mut T10)) -> bool {
        &&& *out.0 == self.5
        &&& *out.1 == self.6
        &&& *out.2 == self.7
        &&& *out.3 == self.8
        &&& *out.4 == self.9
        &&& *out.5 == self.10
    }

    open spec fn spec_keeps(&self, after: (T0, T1, T2, T3, T4, T5, T6, T7, T8, T9, T10,
        T11)) -> bool {
        &&& after.0 == self.0
        &&& after.1 == self.1
        &&& after.2 == self.2
        &&& after.3 == self.3
        &&& after.4 == self.4
        &&& after.11 == self.11
    }

    fn extract_mut(&'a mut self) -> (r: (&'a mut T5, &'a mut T6, &'a mut T7, &'a mut T8, &'a mut T9,
        &'a mut T10))
        ensures
            ({
                let out: (&'a mut T5, &'a mut T6, &'a mut T7, &'a mut T8, &'a mut T9,
                    &'a mut T10) = r;
                *final(self) == (old(self).0, old(self).1, old(self).2, old(self).3, old(self).4,
                    *final(out.0), *final(out.1), *final(out.2), *final(out.3), *final(out.4),
                    *final(out.5), old(self).11)
            }),
    {
        (&mut self.5, &mut self.6, &mut self.7, &mut self.8, &mut self.9, &mut self.10)
    }

    proof fn lemma_extract_mut_len() {
    }
}

impl<'a, T0: 'a, T1: 'a, T2: 'a, T3: 'a, T4: 'a, T5: 'a, T6: 'a, T7: 'a, T8: 'a, T9: 'a, T10: 'a,
    T11: 'a> TypedExtractMut<'a, 5, 12, (&'a mut T5, &'a mut T6, &'a mut T7, &'a mut T8, &'a mut T9,
    &'a mut T10, &'a mut T11)>
    for (T0, T1, T2, T3, T4, T5, T6, T7, T8, T9, T10, T11)
{
    open spec fn spec_borrows(&self, out: (&'a mut T5, &'a mut T6, &'a mut T7, &'a mut T8,
        &'a mut T9, &'a mut T10, &'a mut T11)) -> bool {
        &&& *out.0 == self.5
        &&& *out.1 == self.6
        &&& *out.2 == self.7
        &&& *out.3 == self.8
        &&& *out.4 == self.9
        &&& *out.5 == self.10
        &&& *out.6 == self.11
    }

    open spec fn spec_keeps(&self, after: (T0, T1, T2, T3, T4, T5, T6, T7, T8, T9, T10,
        T11)) -> bool {
        &&& after.0 == self.0
        &&& after.1 == self.1
        &&& after.2 == self.2
        &&& after.3 == self.3
        &&& after.4 == self.4
    }

    fn extract_mut(&'a mut self) -> (r: (&'a mut T5, &'a mut T6, &'a mut T7, &'a mut T8, &'a mut T9,
        &'a mut T10, &'a mut T11))
        ensures
            ({
                let out: (&'a mut T5, &'a mut T6, &'a mut T7, &'a mut T8, &'a mut T9, &'a mut T10,
                    &'a mut T11) = r;
                *final(self) == (old(self).0, old(self).1, old(self).2, old(self).3, old(self).4,
                    *final(out.0), *final(out.1), *final(out.2), *final(out.3), *final(out.4),
                    *final(out.5), *final(out.6))
            }),
    {
        (&mut self.5, &mut self.6, &mut self.7, &mut self.8, &mut self.9, &mut self.10,
            &mut self.11)
    }

    proof fn lemma_extract_mut_len() {
    }
}

impl<'a, T0: 'a, T1: 'a, T2: 'a, T3: 'a, T4: 'a, T5: 'a, T6: 'a, T7: 'a, T8: 'a, T9: 'a, T10: 'a,
    T11: 'a> TypedExtractMut<'a, 6, 6, ()>
    for (T0, T1, T2, T3, T4, T5, T6, T7, T8, T9, T10, T11)
{
    open spec fn spec_borrows(&self, out: ()) -> bool {
        true
    }

    open spec fn spec_keeps(&self, after: (T0, T1, T2, T3, T4, T5, T6, T7, T8, T9, T10,
        T11)) -> bool {
        &&& after.0 == self.0
        &&& after.1 == self.1
        &&& after.2 == self.2
        &&& after.3 == self.3
        &&& after.4 == self.4
        &&& after.5 == self.5
        &&& after.6 == self.6
        &&& after.7 == self.7
        &&& after.8 == self.8
        &&& after.9 == self.9
        &&& after.10 == self.10
        &&& after.11 == self.11
    }

    fn extract_mut(&'a mut self) -> (r: ()) {
        ()
    }

    proof fn lemma_extract_mut_len() {
    }
}

impl<'a, T0: 'a, T1: 'a, T2: 'a, T3: 'a, T4: 'a, T5: 'a, T6: 'a, T7: 'a, T8: 'a, T9: 'a, T10: 'a,
    T11: 'a> TypedExtractMut<'a, 6, 7, (&'a mut T6,)>
    for (T0, T1, T2, T3, T4, T5, T6, T7, T8, T9, T10, T11)
{
    open spec fn spec_borrows(&self, out: (&'a mut T6,)) -> bool {
        *out.0 == self.6
    }

    open spec fn spec_keeps(&self, after: (T0, T1, T2, T3, T4, T5, T6, T7, T8, T9, T10,
        T11)) -> bool {
        &&& after.0 == self.0
        &&& after.1 == self.1
        &&& after.2 == self.2
        &&& after.3 == self.3
        &&& after.4 == self.4
        &&& after.5 == self.5
        &&& after.7 == self.7
        &&& after.8 == self.8
        &&& after.9 == self.9
        &&& after.10 == self.10
        &&& after.11 == self.11
    }

    fn extract_mut(&'a mut self) -> (r: (&'a mut T6,))
        ensures
            ({
                let out: (&'a mut T6,) = r;
                *final(self) == (old(self).0, old(self).1, old(self).2, old(self).3, old(self).4,
                    old(self).5, *final(out.0), old(self).7, old(self).8, old(self).9, old(self).10,
                    old(self).11)
            }),
    {
        (&mut self.6,)
    }

    proof fn lemma_extract_mut_len() {
    }
}

impl<'a, T0: 'a, T1: 'a, T2: 'a, T3: 'a, T4: 'a, T5: 'a, T6: 'a, T7: 'a, T8: 'a, T9: 'a, T10: 'a,
    T11: 'a> TypedExtractMut<'a, 6, 8, (&'a mut T6, &'a mut T7)>
    for (T0, T1, T2, T3, T4, T5, T6, T7, T8, T9, T10, T11)
{
    open spec fn spec_borrows(&self, out: (&'a mut T6, &'a mut T7)) -> bool {
        &&& *out.0 == self.6
        &&& *out.1 == self.7
    }

    open spec fn spec_keeps(&self, after: (T0, T1, T2, T3, T4, T5, T6, T7, T8, T9, T10,
        T11)) -> bool {
        &&& after.0 == self.0
        &&& after.1 == self.1
        &&& after.2 == self.2
        &&& after.3 == self.3
        &&& after.4 == self.4
        &&& after.5 == self.5
        &&& after.8 == self.8
        &&& after.9 == self.9
        &&& after.10 == self.10
        &&& after.11 == self.11
    }

    fn extract_mut(&'a mut self) -> (r: (&'a mut T6, &'a mut T7))
        ensures
            ({
                let out: (&'a mut T6, &'a mut T7) = r;
                *final(self) == (old(self).0, old(self).1, old(self).2, old(self).3, old(self).4,
                    old(self).5, *final(out.0), *final(out.1), old(self).8, old(self).9,
                    old(self).10, old(self).11)
            }),
    {
        (&mut self.6, &mut self.7)
    }

    proof fn lemma_extract_mut_len() {
    }
}

impl<'a, T0: 'a, T1: 'a, T2: 'a, T3: 'a, T4: 'a, T5: 'a, T6: 'a, T7: 'a, T8: 'a, T9: 'a, T10: 'a,
    T11: 'a> TypedExtractMut<'a, 6, 9, (&'a mut T6, &'a mut T7, &'a mut T8)>
    for (T0, T1, T2, T3, T4, T5, T6, T7, T8, T9, T10, T11)
{
    open spec fn spec_borrows(&self, out: (&'a mut T6, &'a mut T7, &'a mut T8)) -> bool {
        &&& *out.0 == self.6
        &&& *out.1 == self.7
        &&& *out.2 == self.8
    }

    open spec fn spec_keeps(&self, after: (T0, T1, T2, T3, T4, T5, T6, T7, T8, T9, T10,
        T11)) -> bool {
        &&& after.0 == self.0
        &&& after.1 == self.1
        &&& after.2 == self.2
        &&& after.3 == self.3
        &&& after.4 == self.4
        &&& after.5 == self.5
        &&& after.9 == self.9
        &&& after.10 == self.10
        &&& after.11 == self.11
    }

    fn extract_mut(&'a mut self) -> (r: (&'a mut T6, &'a mut T7, &'a mut T8))
        ensures
            ({
                let out: (&'a mut T6, &'a mut T7, &'a mut T8) = r;
                *final(self) == (old(self).0, old(self).1, old(self).2, old(self).3, old(self).4,
                    old(self).5, *final(out.0), *final(out.1), *final(out.2), old(self).9,
                    old(self).10, old(self).11)
            }),
    {
        (&mut self.6, &mut self.7, &mut self.8)
    }

    proof fn lemma_extract_mut_len() {
    }
}

impl<'a, T0: 'a, T1: 'a, T2: 'a, T3: 'a, T4: 'a, T5: 'a, T6: 'a, T7: 'a, T8: 'a, T9: 'a, T10: 'a,
    T11: 'a> TypedExtractMut<'a, 6, 10, (&'a mut T6, &'a mut T7, &'a mut T8, &'a mut T9)>
    for (T0, T1, T2, T3, T4, T5, T6, T7, T8, T9, T10, T11)
{
    open spec fn spec_borrows(&self, out: (&'a mut T6, &'a mut T7, &'a mut T8,
        &'a mut T9)) -> bool {
        &&& *out.0 == self.6
        &&& *out.1 == self.7
        &&& *out.2 == self.8
        &&& *out.3 == self.9
    }

    open spec fn spec_keeps(&self, after: (T0, T1, T2, T3, T4, T5, T6, T7, T8, T9, T10,
        T11)) -> bool {
        &&& after.0 == self.0
        &&& after.1 == self.1
        &&& after.2 == self.2
        &&& after.3 == self.3
        &&& after.4 == self.4
        &&& after.5 == self.5
        &&& after.10 == self.10
        &&& after.11 == self.11
    }

    fn extract_mut(&'a mut self) -> (r: (&'a mut T6, &'a mut T7, &'a mut T8, &'a mut T9))
        ensures
            ({
                let out: (&'a mut T6, &'a mut T7, &'a mut T8, &'a mut T9) = r;
                *final(self) == (old(self).0, old(self).1, old(self).2, old(self).3, old(self).4,
                    old(self).5, *final(out.0), *final(out.1), *final(out.2), *final(out.3),
                    old(self).10, old(self).11)
            }),
    {
        (&mut self.6, &mut self.7, &mut self.8, &mut self.9)
    }

    proof fn lemma_extract_mut_len() {
    }
}

impl<'a, T0: 'a, T1: 'a, T2: 'a, T3: 'a, T4: 'a, T5: 'a, T6: 'a, T7: 'a, T8: 'a, T9: 'a, T10: 'a,
    T11: 'a> TypedExtractMut<'a, 6, 11, (&'a mut T6, &'a mut T7, &'a mut T8, &'a mut T9,
    &'a mut T10)>
    for (T0, T1, T2, T3, T4, T5, T6, T7, T8, T9, T10, T11)
{
    open spec fn spec_borrows(&self, out: (&'a mut T6, &'a mut T7, &'a mut T8, &'a mut T9,
        &'a mut T10)) -> bool {
        &&& *out.0 == self.6
        &&& *out.1 == self.7
        &&& *out.2 == self.8
        &&& *out.3 == self.9
        &&& *out.4 == self.10
    }

    open spec fn spec_keeps(&self, after: (T0, T1, T2, T3, T4, T5, T6, T7, T8, T9, T10,
        T11)) -> bool {
        &&& after.0 == self.0
        &&& after.1 == self.1
        &&& after.2 == self.2
        &&& after.3 == self.3
        &&& after.4 == self.4
        &&& after.5 == self.5
        &&& after.11 == self.11
    }

    fn extract_mut(&'a mut self) -> (r: (&'a mut T6, &'a mut T7, &'a mut T8, &'a mut T9,
        &'a mut T10))
        ensures
            ({
                let out: (&'a mut T6, &'a mut T7, &'a mut T8, &'a mut T9, &'a mut T10) = r;
                *final(self) == (old(self).0, old(self).1, old(self).2, old(self).3, old(self).4,
                    old(self).5, *final(out.0), *final(out.1), *final(out.2), *final(out.3),
                    *final(out.4), old(self).11)
            }),
    {
        (&mut self.6, &mut self.7, &mut self.8, &mut self.9, &mut self.10)
    }

    proof fn lemma_extract_mut_len() {
    }
}

impl<'a, T0: 'a, T1: 'a, T2: 'a, T3: 'a, T4: 'a, T5: 'a, T6: 'a, T7: 'a, T8: 'a, T9: 'a, T10: 'a,
    T11: 'a> TypedExtractMut<'a, 6, 12, (&'a mut T6, &'a mut T7, &'a mut T8, &'a mut T9,
    &'a mut T10, &'a mut T11)>
    for (T0, T1, T2, T3, T4, T5, T6, T7, T8, T9, T10, T11)
{
    open spec fn spec_borrows(&self, out: (&'a mut T6, &'a mut T7, &'a mut T8, &'a mut T9,
        &'a mut T10, &'a mut T11)) -> bool {
        &&& *out.0 == self.6
        &&& *out.1 == self.7
        &&& *out.2 == self.8
        &&& *out.3 == self.9
        &&& *out.4 == self.10
        &&& *out.5 == self.11
    }

    open spec fn spec_keeps(&self, after: (T0, T1, T2, T3, T4, T5, T6, T7, T8, T9, T10,
        T11)) -> bool {
        &&& after.0 == self.0
        &&& after.1 == self.1
        &&& after.2 == self.2
        &&& after.3 == self.3
        &&& after.4 == self.4
        &&& after.5 == self.5
    }

    fn extract_mut(&'a mut self) -> (r: (&'a mut T6, &'a mut T7, &'a mut T8, &'a mut T9,
        &'a mut T10, &'a mut T11))
        ensures
            ({
                let out: (&'a mut T6, &'a mut T7, &'a mut T8, &'a mut T9, &'a mut T10,
                    &'a mut T11) = r;
                *final(self) == (old(self).0, old(self).1, old(self).2, old(self).3, old(self).4,
                    old(self).5, *final(out.0), *final(out.1), *final(out.2), *final(out.3),
                    *final(out.4), *final(out.5))
            }),
    {
        (&mut self.6, &mut self.7, &mut self.8, &mut self.9, &mut self.10, &mut self.11)
    }

    proof fn lemma_extract_mut_len() {
    }
}

impl<'a, T0: 'a, T1: 'a, T2: 'a, T3: 'a, T4: 'a, T5: 'a, T6: 'a, T7: 'a, T8: 'a, T9: 'a, T10: 'a,
    T11: 'a> TypedExtractMut<'a, 7, 7, ()>
    for (T0, T1, T2, T3, T4, T5, T6, T7, T8, T9, T10, T11)
{
    open spec fn spec_borrows(&self, out: ()) -> bool {
        true
    }

    open spec fn spec_keeps(&self, after: (T0, T1, T2, T3, T4, T5, T6, T7, T8, T9, T10,
        T11)) -> bool {
        &&& after.0 == self.0
        &&& after.1 == self.1
        &&& after.2 == self.2
        &&& after.3 == self.3
        &&& after.4 == self.4
        &&& after.5 == self.5
        &&& after.6 == self.6
        &&& after.7 == self.7
        &&& after.8 == self.8
        &&& after.9 == self.9
        &&& after.10 == self.10
        &&& after.11 == self.11
    }

    fn extract_mut(&'a mut self) -> (r: ()) {
        ()
    }

    proof fn lemma_extract_mut_len() {
    }
}

impl<'a, T0: 'a, T1: 'a, T2: 'a, T3: 'a, T4: 'a, T5: 'a, T6: 'a, T7: 'a, T8: 'a, T9: 'a, T10: 'a,
    T11: 'a> TypedExtractMut<'a, 7, 8, (&'a mut T7,)>
    for (T0, T1, T2, T3, T4, T5, T6, T7, T8, T9, T10, T11)
{
    open spec fn spec_borrows(&self, out: (&'a mut T7,)) -> bool {
        *out.0 == self.7
    }

    open spec fn spec_keeps(&self, after: (T0, T1, T2, T3, T4, T5, T6, T7, T8, T9, T10,
        T11)) -> bool {
        &&& after.0 == self.0
        &&& after.1 == self.1
        &&& after.2 == self.2
        &&& after.3 == self.3
        &&& after.4 == self.4
        &&& after.5 == self.5
        &&& after.6 == self.6
        &&& after.8 == self.8
        &&& after.9 == self.9
        &&& after.10 == self.10
        &&& after.11 == self.11
    }

    fn extract_mut(&'a mut self) -> (r: (&'a mut T7,))
        ensures
            ({
                let out: (&'a mut T7,) = r;
                *final(self) == (old(self).0, old(self).1, old(self).2, old(self).3, old(self).4,
                    old(self).5, old(self).6, *final(out.0), old(self).8, old(self).9, old(self).10,
                    old(self).11)
            }),
    {
        (&mut self.7,)
    }

    proof fn lemma_extract_mut_len() {
    }
}

impl<'a, T0: 'a, T1: 'a, T2: 'a, T3: 'a, T4: 'a, T5: 'a, T6: 'a, T7: 'a, T8: 'a, T9: 'a, T10: 'a,
    T11: 'a> TypedExtractMut<'a, 7, 9, (&'a mut T7, &'a mut T8)>
    for (T0, T1, T2, T3, T4, T5, T6, T7, T8, T9, T10, T11)
{
    open spec fn spec_borrows(&self, out: (&'a mut T7, &'a mut T8)) -> bool {
        &&& *out.0 == self.7
        &&& *out.1 == self.8
    }

    open spec fn spec_keeps(&self, after: (T0, T1, T2, T3, T4, T5, T6, T7, T8, T9, T10,
        T11)) -> bool {
        &&& after.0 == self.0
        &&& after.1 == self.1
        &&& after.2 == self.2
        &&& after.3 == self.3
        &&& after.4 == self.4
        &&& after.5 == self.5
        &&& after.6 == self.6
        &&& after.9 == self.9
        &&& after.10 == self.10
        &&& after.11 == self.11
    }

    fn extract_mut(&'a mut self) -> (r: (&'a mut T7, &'a mut T8))
        ensures
            ({
                let out: (&'a mut T7, &'a mut T8) = r;
                *final(self) == (old(self).0, old(self).1, old(self).2, old(self).3, old(self).4,
                    old(self).5, old(self).6, *final(out.0), *final(out.1), old(self).9,
                    old(self).10, old(self).11)
            }),
    {
        (&mut self.7, &mut self.8)
    }

    proof fn lemma_extract_mut_len() {
    }
}

impl<'a, T0: 'a, T1: 'a, T2: 'a, T3: 'a, T4: 'a, T5: 'a, T6: 'a, T7: 'a, T8: 'a, T9: 'a, T10: 'a,
    T11: 'a> TypedExtractMut<'a, 7, 10, (&'a mut T7, &'a mut T8, &'a mut T9)>
    for (T0, T1, T2, T3, T4, T5, T6, T7, T8, T9, T10, T11)
{
    open spec fn spec_borrows(&self, out: (&'a mut T7, &'a mut T8, &'a mut T9)) -> bool {
        &&& *out.0 == self.7
        &&& *out.1 == self.8
        &&& *out.2 == self.9
    }

    open spec fn spec_keeps(&self, after: (T0, T1, T2, T3, T4, T5, T6, T7, T8, T9, T10,
        T11)) -> bool {
        &&& after.0 == self.0
        &&& after.1 == self.1
        &&& after.2 == self.2
        &&& after.3 == self.3
        &&& after.4 == self.4
        &&& after.5 == self.5
        &&& after.6 == self.6
        &&& after.10 == self.10
        &&& after.11 == self.11
    }

    fn extract_mut(&'a mut self) -> (r: (&'a mut T7, &'a mut T8, &'a mut T9))
        ensures
            ({
                let out: (&'a mut T7, &'a mut T8, &'a mut T9) = r;
                *final(self) == (old(self).0, old(self).1, old(self).2, old(self).3, old(self).4,
                    old(self).5, old(self).6, *final(out.0), *final(out.1), *final(out.2),
                    old(self).10, old(self).11)
            }),
    {
        (&mut self.7, &mut self.8, &mut self.9)
    }

    proof fn lemma_extract_mut_len() {
    }
}

impl<'a, T0: 'a, T1: 'a, T2: 'a, T3: 'a, T4: 'a, T5: 'a, T6: 'a, T7: 'a, T8: 'a, T9: 'a, T10: 'a,
    T11: 'a> TypedExtractMut<'a, 7, 11, (&'a mut T7, &'a mut T8, &'a mut T9, &'a mut T10)>
    for (T0, T1, T2, T3, T4, T5, T6, T7, T8, T9, T10, T11)
{
    open spec fn spec_borrows(&self, out: (&'a mut T7, &'a mut T8, &'a mut T9,
        &'a mut T10)) -> bool {
        &&& *out.0 == self.7
        &&& *out.1 == self.8
        &&& *out.2 == self.9
        &&& *out.3 == self.10
    }

    open spec fn spec_keeps(&self, after: (T0, T1, T2, T3, T4, T5, T6, T7, T8, T9, T10,
        T11)) -> bool {
        &&& after.0 == self.0
        &&& after.1 == self.1
        &&& after.2 == self.2
        &&& after.3 == self.3
        &&& after.4 == self.4
        &&& after.5 == self.5
        &&& after.6 == self.6
        &&& after.11 == self.11
    }

    fn extract_mut(&'a mut self) -> (r: (&'a mut T7, &'a mut T8, &'a mut T9, &'a mut T10))
        ensures
            ({
                let out: (&'a mut T7, &'a mut T8, &'a mut T9, &'a mut T10) = r;
                *final(self) == (old(self).0, old(self).1, old(self).2, old(self).3, old(self).4,
                    old(self).5, old(self).6, *final(out.0), *final(out.1), *final(out.2),
                    *final(out.3), old(self).11)
            }),
    {
        (&mut self.7, &mut self.8, &mut self.9, &mut self.10)
    }

    proof fn lemma_extract_mut_len() {
    }
}

impl<'a, T0: 'a, T1: 'a, T2: 'a, T3: 'a, T4: 'a, T5: 'a, T6: 'a, T7: 'a, T8: 'a, T9: 'a, T10: 'a,
    T11: 'a> TypedExtractMut<'a, 7, 12, (&'a mut T7, &'a mut T8, &'a mut T9, &'a mut T10,
    &'a mut T11)>
    for (T0, T1, T2, T3, T4, T5, T6, T7, T8, T9, T10, T11)
{
    open spec fn spec_borrows(&self, out: (&'a mut T7, &'a mut T8, &'a mut T9, &'a mut T10,
        &'a mut T11)) -> bool {
        &&& *out.0 == self.7
        &&& *out.1 == self.8
        &&& *out.2 == self.9
        &&& *out.3 == self.10
        &&& *out.4 == self.11
    }

    open spec fn spec_keeps(&self, after: (T0, T1, T2, T3, T4, T5, T6, T7, T8, T9, T10,
        T11)) -> bool {
        &&& after.0 == self.0
        &&& after.1 == self.1
        &&& after.2 == self.2
        &&& after.3 == self.3
        &&& after.4 == self.4
        &&& after.5 == self.5
        &&& after.6 == self.6
    }

    fn extract_mut(&'a mut self) -> (r: (&'a mut T7, &'a mut T8, &'a mut T9, &'a mut T10,
        &'a mut T11))
        ensures
            ({
                let out: (&'a mut T7, &'a mut T8, &'a mut T9, &'a mut T10, &'a mut T11) = r;
                *final(self) == (old(self).0, old(self).1, old(self).2, old(self).3, old(self).4,
                    old(self).5, old(self).6, *final(out.0), *final(out.1), *final(out.2),
                    *final(out.3), *final(out.4))
            }),
    {
        (&mut self.7, &mut self.8, &mut self.9, &mut self.10, &mut self.11)
    }

    proof fn lemma_extract_mut_len() {
    }
}

impl<'a, T0: 'a, T1: 'a, T2: 'a, T3: 'a, T4: 'a, T5: 'a, T6: 'a, T7: 'a, T8: 'a, T9: 'a, T10: 'a,
    T11: 'a> TypedExtractMut<'a, 8, 8, ()>
    for (T0, T1, T2, T3, T4, T5, T6, T7, T8, T9, T10, T11)
{
    open spec fn spec_borrows(&self, out: ()) -> bool {
        true
    }

    open spec fn spec_keeps(&self, after: (T0, T1, T2, T3, T4, T5, T6, T7, T8, T9, T10,
        T11)) -> bool {
        &&& after.0 == self.0
        &&& after.1 == self.1
        &&& after.2 == self.2
        &&& after.3 == self.3
        &&& after.4 == self.4
        &&& after.5 == self.5
        &&& after.6 == self.6
        &&& after.7 == self.7
        &&& after.8 == self.8
        &&& after.9 == self.9
        &&& after.10 == self.10
        &&& after.11 == self.11
    }

    fn extract_mut(&'a mut self) -> (r: ()) {
        ()
    }

    proof fn lemma_extract_mut_len() {
    }
}

impl<'a, T0: 'a, T1: 'a, T2: 'a, T3: 'a, T4: 'a, T5: 'a, T6: 'a, T7: 'a, T8: 'a, T9: 'a, T10: 'a,
    T11: 'a> TypedExtractMut<'a, 8, 9, (&'a mut T8,)>
    for (T0, T1, T2, T3, T4, T5, T6, T7, T8, T9, T10, T11)
{
    open spec fn spec_borrows(&self, out: (&'a mut T8,)) -> bool {
        *out.0 == self.8
    }

    open spec fn spec_keeps(&self, after: (T0, T1, T2, T3, T4, T5, T6, T7, T8, T9, T10,
        T11)) -> bool {
        &&& after.0 == self.0
        &&& after.1 == self.1
        &&& after.2 == self.2
        &&& after.3 == self.3
        &&& after.4 == self.4
        &&& after.5 == self.5
        &&& after.6 == self.6
        &&& after.7 == self.7
        &&& after.9 == self.9
        &&& after.10 == self.10
        &&& after.11 == self.11
    }

    fn extract_mut(&'a mut self) -> (r: (&'a mut T8,))
        ensures
            ({
                let out: (&'a mut T8,) = r;
                *final(self) == (old(self).0, old(self).1, old(self).2, old(self).3, old(self).4,
                    old(self).5, old(self).6, old(self).7, *final(out.0), old(self).9, old(self).10,
                    old(self).11)
            }),
    {
        (&mut self.8,)
    }

    proof fn lemma_extract_mut_len() {
    }
}

impl<'a, T0: 'a, T1: 'a, T2: 'a, T3: 'a, T4: 'a, T5: 'a, T6: 'a, T7: 'a, T8: 'a, T9: 'a, T10: 'a,
    T11: 'a> TypedExtractMut<'a, 8, 10, (&'a mut T8, &'a mut T9)>
    for (T0, T1, T2, T3, T4, T5, T6, T7, T8, T9, T10, T11)
{
    open spec fn spec_borrows(&self, out: (&'a mut T8, &'a mut T9)) -> bool {
        &&& *out.0 == self.8
        &&& *out.1 == self.9
    }

    open spec fn spec_keeps(&self, after: (T0, T1, T2, T3, T4, T5, T6, T7, T8, T9, T10,
        T11)) -> bool {
        &&& after.0 == self.0
        &&& after.1 == self.1
        &&& after.2 == self.2
        &&& after.3 == self.3
        &&& after.4 == self.4
        &&& after.5 == self.5
        &&& after.6 == self.6
        &&& after.7 == self.7
        &&& after.10 == self.10
        &&& after.11 == self.11
    }

    fn extract_mut(&'a mut self) -> (r: (&'a mut T8, &'a mut T9))
        ensures
            ({
                let out: (&'a mut T8, &'a mut T9) = r;
                *final(self) == (old(self).0, old(self).1, old(self).2, old(self).3, old(self).4,
                    old(self).5, old(self).6, old(self).7, *final(out.0), *final(out.1),
                    old(self).10, old(self).11)
            }),
    {
        (&mut self.8, &mut self.9)
    }

    proof fn lemma_extract_mut_len() {
    }
}

impl<'a, T0: 'a, T1: 'a, T2: 'a, T3: 'a, T4: 'a, T5: 'a, T6: 'a, T7: 'a, T8: 'a, T9: 'a, T10: 'a,
    T11: 'a> TypedExtractMut<'a, 8, 11, (&'a mut T8, &'a mut T9, &'a mut T10)>
    for (T0, T1, T2, T3, T4, T5, T6, T7, T8, T9, T10, T11)
{
    open spec fn spec_borrows(&self, out: (&'a mut T8, &'a mut T9, &'a mut T10)) -> bool {
        &&& *out.0 == self.8
        &&& *out.1 == self.9
        &&& *out.2 == self.10
    }

    open spec fn spec_keeps(&self, after: (T0, T1, T2, T3, T4, T5, T6, T7, T8, T9, T10,
        T11)) -> bool {
        &&& after.0 == self.0
        &&& after.1 == self.1
        &&& after.2 == self.2
        &&& after.3 == self.3
        &&& after.4 == self.4
        &&& after.5 == self.5
        &&& after.6 == self.6
        &&& after.7 == self.7
        &&& after.11 == self.11
    }

    fn extract_mut(&'a mut self) -> (r: (&'a mut T8, &'a mut T9, &'a mut T10))
        ensures
            ({
                let out: (&'a mut T8, &'a mut T9, &'a mut T10) = r;
                *final(self) == (old(self).0, old(self).1, old(self).2, old(self).3, old(self).4,
                    old(self).5, old(self).6, old(self).7, *final(out.0), *final(out.1),
                    *final(out.2), old(self).11)
            }),
    {
        (&mut self.8, &mut self.9, &mut self.10)
    }

    proof fn lemma_extract_mut_len() {
    }
}

impl<'a, T0: 'a, T1: 'a, T2: 'a, T3: 'a, T4: 'a, T5: 'a, T6: 'a, T7: 'a, T8: 'a, T9: 'a, T10: 'a,
    T11: 'a> TypedExtractMut<'a, 8, 12, (&'a mut T8, &'a mut T9, &'a mut T10, &'a mut T11)>
    for (T0, T1, T2, T3, T4, T5, T6, T7, T8, T9, T10, T11)
{
    open spec fn spec_borrows(&self, out: (&'a mut T8, &'a mut T9, &'a mut T10,
        &'a mut T11)) -> bool {
        &&& *out.0 == self.8
        &&& *out.1 == self.9
        &&& *out.2 == self.10
        &&& *out.3 == self.11
    }

    open spec fn spec_keeps(&self, after: (T0, T1, T2, T3, T4, T5, T6, T7, T8, T9, T10,
        T11)) -> bool {
        &&& after.0 == self.0
        &&& after.1 == self.1
        &&& after.2 == self.2
        &&& after.3 == self.3
        &&& after.4 == self.4
        &&& after.5 == self.5
        &&& after.6 == self.6
        &&& after.7 == self.7
    }

    fn extract_mut(&'a mut self) -> (r: (&'a mut T8, &'a mut T9, &'a mut T10, &'a mut T11))
        ensures
            ({
                let out: (&'a mut T8, &'a mut T9, &'a mut T10, &'a mut T11) = r;
                *final(self) == (old(self).0, old(self).1, old(self).2, old(self).3, old(self).4,
                    old(self).5, old(self).6, old(self).7, *final(out.0), *final(out.1),
                    *final(out.2), *final(out.3))
            }),
    {
        (&mut self.8, &mut self.9, &mut self.10, &mut self.11)
    }

    proof fn lemma_extract_mut_len() {
    }
}

impl<'a, T0: 'a, T1: 'a, T2: 'a, T3: 'a, T4: 'a, T5: 'a, T6: 'a, T7: 'a, T8: 'a, T9: 'a, T10: 'a,
    T11: 'a> TypedExtractMut<'a, 9, 9, ()>
    for (T0, T1, T2, T3, T4, T5, T6, T7, T8, T9, T10, T11)
{
    open spec fn spec_borrows(&self, out: ()) -> bool {
        true
    }

    open spec fn spec_keeps(&self, after: (T0, T1, T2, T3, T4, T5, T6, T7, T8, T9, T10,
        T11)) -> bool {
        &&& after.0 == self.0
        &&& after.1 == self.1
        &&& after.2 == self.2
        &&& after.3 == self.3
        &&& after.4 == self.4
        &&& after.5 == self.5
        &&& after.6 == self.6
        &&& after.7 == self.7
        &&& after.8 == self.8
        &&& after.9 == self.9
        &&& after.10 == self.10
        &&& after.11 == self.11
    }

    fn extract_mut(&'a mut self) -> (r: ()) {
        ()
    }

    proof fn lemma_extract_mut_len() {
    }
}

impl<'a, T0: 'a, T1: 'a, T2: 'a, T3: 'a, T4: 'a, T5: 'a, T6: 'a, T7: 'a, T8: 'a, T9: 'a, T10: 'a,
    T11: 'a> TypedExtractMut<'a, 9, 10, (&'a mut T9,)>
    for (T0, T1, T2, T3, T4, T5, T6, T7, T8, T9, T10, T11)
{
    open spec fn spec_borrows(&self, out: (&'a mut T9,)) -> bool {
        *out.0 == self.9
    }

    open spec fn spec_keeps(&self, after: (T0, T1, T2, T3, T4, T5, T6, T7, T8, T9, T10,
        T11)) -> bool {
        &&& after.0 == self.0
        &&& after.1 == self.1
        &&& after.2 == self.2
        &&& after.3 == self.3
        &&& after.4 == self.4
        &&& after.5 == self.5
        &&& after.6 == self.6
        &&& after.7 == self.7
        &&& after.8 == self.8
        &&& after.10 == self.10
        &&& after.11 == self.11
    }

    fn extract_mut(&'a mut self) -> (r: (&'a mut T9,))
        ensures
            ({
                let out: (&'a mut T9,) = r;
                *final(self) == (old(self).0, old(self).1, old(self).2, old(self).3, old(self).4,
                    old(self).5, old(self).6, old(self).7, old(self).8, *final(out.0), old(self).10,
                    old(self).11)
            }),
    {
        (&mut self.9,)
    }

    proof fn lemma_extract_mut_len() {
    }
}

impl<'a, T0: 'a, T1: 'a, T2: 'a, T3: 'a, T4: 'a, T5: 'a, T6: 'a, T7: 'a, T8: 'a, T9: 'a, T10: 'a,
    T11: 'a> TypedExtractMut<'a, 9, 11, (&'a mut T9, &'a mut T10)>
    for (T0, T1, T2, T3, T4, T5, T6, T7, T8, T9, T10, T11)
{
    open spec fn spec_borrows(&self, out: (&'a mut T9, &'a mut T10)) -> bool {
        &&& *out.0 == self.9
        &&& *out.1 == self.10
    }

    open spec fn spec_keeps(&self, after: (T0, T1, T2, T3, T4, T5, T6, T7, T8, T9, T10,
        T11)) -> bool {
        &&& after.0 == self.0
        &&& after.1 == self.1
        &&& after.2 == self.2
        &&& after.3 == self.3
        &&& after.4 == self.4
        &&& after.5 == self.5
        &&& after.6 == self.6
        &&& after.7 == self.7
        &&& after.8 == self.8
        &&& after.11 == self.11
    }

    fn extract_mut(&'a mut self) -> (r: (&'a mut T9, &'a mut T10))
        ensures
            ({
                let out: (&'a mut T9, &'a mut T10) = r;
                *final(self) == (old(self).0, old(self).1, old(self).2, old(self).3, old(self).4,
                    old(self).5, old(self).6, old(self).7, old(self).8, *final(out.0),
                    *final(out.1), old(self).11)
            }),
    {
        (&mut self.9, &mut self.10)
    }

    proof fn lemma_extract_mut_len() {
    }
}

impl<'a, T0: 'a, T1: 'a, T2: 'a, T3: 'a, T4: 'a, T5: 'a, T6: 'a, T7: 'a, T8: 'a, T9: 'a, T10: 'a,
    T11: 'a> TypedExtractMut<'a, 9, 12, (&'a mut T9, &'a mut T10, &'a mut T11)>
    for (T0, T1, T2, T3, T4, T5, T6, T7, T8, T9, T10, T11)
{
    open spec fn spec_borrows(&self, out: (&'a mut T9, &'a mut T10, &'a mut T11)) -> bool {
        &&& *out.0 == self.9
        &&& *out.1 == self.10
        &&& *out.2 == self.11
    }

    open spec fn spec_keeps(&self, after: (T0, T1, T2, T3, T4, T5, T6, T7, T8, T9, T10,
        T11)) -> bool {
        &&& after.0 == self.0
        &&& after.1 == self.1
        &&& after.2 == self.2
        &&& after.3 == self.3
        &&& after.4 == self.4
        &&& after.5 == self.5
        &&& after.6 == self.6
        &&& after.7 == self.7
        &&& after.8 == self.8
    }

    fn extract_mut(&'a mut self) -> (r: (&'a mut T9, &'a mut T10, &'a mut T11))
        ensures
            ({
                let out: (&'a mut T9, &'a mut T10, &'a mut T11) = r;
                *final(self) == (old(self).0, old(self).1, old(self).2, old(self).3, old(self).4,
                    old(self).5, old(self).6, old(self).7, old(self).8, *final(out.0),
                    *final(out.1), *final(out.2))
            }),
    {
        (&mut self.9, &mut self.10, &mut self.11)
    }

    proof fn lemma_extract_mut_len() {
    }
}

impl<'a, T0: 'a, T1: 'a, T2: 'a, T3: 'a, T4: 'a, T5: 'a, T6: 'a, T7: 'a, T8: 'a, T9: 'a, T10: 'a,
    T11: 'a> TypedExtractMut<'a, 10, 10, ()>
    for (T0, T1, T2, T3, T4, T5, T6, T7, T8, T9, T10, T11)
{
    open spec fn spec_borrows(&self, out: ()) -> bool {
        true
    }

    open spec fn spec_keeps(&self, after: (T0, T1, T2, T3, T4, T5, T6, T7, T8, T9, T10,
        T11)) -> bool {
        &&& after.0 == self.0
        &&& after.1 == self.1
        &&& after.2 == self.2
        &&& after.3 == self.3
        &&& after.4 == self.4
        &&& after.5 == self.5
        &&& after.6 == self.6
        &&& after.7 == self.7
        &&& after.8 == self.8
        &&& after.9 == self.9
        &&& after.10 == self.10
        &&& after.11 == self.11
    }

    fn extract_mut(&'a mut self) -> (r: ()) {
        ()
    }

    proof fn lemma_extract_mut_len() {
    }
}

impl<'a, T0: 'a, T1: 'a, T2: 'a, T3: 'a, T4: 'a, T5: 'a, T6: 'a, T7: 'a, T8: 'a, T9: 'a, T10: 'a,
    T11: 'a> TypedExtractMut<'a, 10, 11, (&'a mut T10,)>
    for (T0, T1, T2, T3, T4, T5, T6, T7, T8, T9, T10, T11)
{
    open spec fn spec_borrows(&self, out: (&'a mut T10,)) -> bool {
        *out.0 == self.10
    }

    open spec fn spec_keeps(&self, after: (T0, T1, T2, T3, T4, T5, T6, T7, T8, T9, T10,
        T11)) -> bool {
        &&& after.0 == self.0
        &&& after.1 == self.1
        &&& after.2 == self.2
        &&& after.3 == self.3
        &&& after.4 == self.4
        &&& after.5 == self.5
        &&& after.6 == self.6
        &&& after.7 == self.7
        &&& after.8 == self.8
        &&& after.9 == self.9
        &&& after.11 == self.11
    }

    fn extract_mut(&'a mut self) -> (r: (&'a mut T10,))
        ensures
            ({
                let out: (&'a mut T10,) = r;
                *final(self) == (old(self).0, old(self).1, old(self).2, old(self).3, old(self).4,
                    old(self).5, old(self).6, old(self).7, old(self).8, old(self).9, *final(out.0),
                    old(self).11)
            }),
    {
        (&mut self.10,)
    }

    proof fn lemma_extract_mut_len() {
    }
}

impl<'a, T0: 'a, T1: 'a, T2: 'a, T3: 'a, T4: 'a, T5: 'a, T6: 'a, T7: 'a, T8: 'a, T9: 'a, T10: 'a,
    T11: 'a> TypedExtractMut<'a, 10, 12, (&'a mut T10, &'a mut T11)>
    for (T0, T1, T2, T3, T4, T5, T6, T7, T8, T9, T10, T11)
{
    open spec fn spec_borrows(&self, out: (&'a mut T10, &'a mut T11)) -> bool {
        &&& *out.0 == self.10
        &&& *out.1 == self.11
    }

    open spec fn spec_keeps(&self, after: (T0, T1, T2, T3, T4, T5, T6, T7, T8, T9, T10,
        T11)) -> bool {
        &&& after.0 == self.0
        &&& after.1 == self.1
        &&& after.2 == self.2
        &&& after.3 == self.3
        &&& after.4 == self.4
        &&& after.5 == self.5
        &&& after.6 == self.6
        &&& after.7 == self.7
        &&& after.8 == self.8
        &&& after.9 == self.9
    }

    fn extract_mut(&'a mut self) -> (r: (&'a mut T10, &'a mut T11))
        ensures
            ({
                let out: (&'a mut T10, &'a mut T11) = r;
                *final(self) == (old(self).0, old(self).1, old(self).2, old(self).3, old(self).4,
                    old(self).5, old(self).6, old(self).7, old(self).8, old(self).9, *final(out.0),
                    *final(out.1))
            }),
    {
        (&mut self.10, &mut self.11)
    }

    proof fn lemma_extract_mut_len() {
    }
}

impl<'a, T0: 'a, T1: 'a, T2: 'a, T3: 'a, T4: 'a, T5: 'a, T6: 'a, T7: 'a, T8: 'a, T9: 'a, T10: 'a,
    T11: 'a> TypedExtractMut<'a, 11, 11, ()>
    for (T0, T1, T2, T3, T4, T5, T6, T7, T8, T9, T10, T11)
{
    open spec fn spec_borrows(&self, out: ()) -> bool {
        true
    }

    open spec fn spec_keeps(&self, after: (T0, T1, T2, T3, T4, T5, T6, T7, T8, T9, T10,
        T11)) -> bool {
        &&& after.0 == self.0
        &&& after.1 == self.1
        &&& after.2 == self.2
        &&& after.3 == self.3
        &&& after.4 == self.4
        &&& after.5 == self.5
        &&& after.6 == self.6
        &&& after.7 == self.7
        &&& after.8 == self.8
        &&& after.9 == self.9
        &&& after.10 == self.10
        &&& after.11 == self.11
    }

    fn extract_mut(&'a mut self) -> (r: ()) {
        ()
    }

    proof fn lemma_extract_mut_len() {
    }
}

impl<'a, T0: 'a, T1: 'a, T2: 'a, T3: 'a, T4: 'a, T5: 'a, T6: 'a, T7: 'a, T8: 'a, T9: 'a, T10: 'a,
    T11: 'a> TypedExtractMut<'a, 11, 12, (&'a mut T11,)>
    for (T0, T1, T2, T3, T4, T5, T6, T7, T8, T9, T10, T11)
{
    open spec fn spec_borrows(&self, out: (&'a mut T11,)) -> bool {
        *out.0 == self.11
    }

    open spec fn spec_keeps(&self, after: (T0, T1, T2, T3, T4, T5, T6, T7, T8, T9, T10,
        T11)) -> bool {
        &&& after.0 == self.0
        &&& after.1 == self.1
        &&& after.2 == self.2
        &&& after.3 == self.3
        &&& after.4 == self.4
        &&& after.5 == self.5
        &&& after.6 == self.6
        &&& after.7 == self.7
        &&& after.8 == self.8
        &&& after.9 == self.9
        &&& after.10 == self.10
    }

    fn extract_mut(&'a mut self) -> (r: (&'a mut T11,))
        ensures
            ({
                let out: (&'a mut T11,) = r;
                *final(self) == (old(self).0, old(self).1, old(self).2, old(self).3, old(self).4,
                    old(self).5, old(self).6, old(self).7, old(self).8, old(self).9, old(self).10,
                    *final(out.0))
            }),
    {
        (&mut self.11,)
    }

    proof fn lemma_extract_mut_len() {
    }
}

} // verus!
