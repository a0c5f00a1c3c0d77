//! Which implementations a family has for a maximum length.
//!
//! Each operation of the crate is implemented once for every length of
//! sequence and every position, bound or range that is valid in it. This
//! module lists those implementations as rows of plain numbers, for any
//! maximum length. A row says for which length and where; it stands for the
//! implementation by value and for the one by exclusive reference alike.
//! What is left to whoever writes the implementations out is their text.

use vstd::prelude::*;
use crate::scale::{parse_int, spec_openers, spec_parse_int, ScaleError, MAX_NESTING};

verus! {

/// The positions from `lo` up to, and not including, `hi`, in order.
pub open spec fn spec_positions(lo: nat, hi: nat) -> Seq<usize> {
    if lo <= hi {
        Seq::new((hi - lo) as nat, |k: int| (lo + k) as usize)
    } else {
        Seq::empty()
    }
}

/// The positions from `lo` up to, and not including, `hi`, in order.
pub fn positions(lo: usize, hi: usize) -> (r: Vec<usize>)
    ensures
        r@ == spec_positions(lo as nat, hi as nat),
{
    let mut r: Vec<usize> = Vec::new();
    let mut i: usize = lo;
    while i < hi
        invariant
            lo <= i,
            i <= hi || lo > hi,
            lo <= hi ==> r@ == spec_positions(lo as nat, i as nat),
            lo > hi ==> r@ == Seq::<usize>::empty(),
        decreases hi - i,
    {
        r.push(i);
        i += 1;
    }
    r
}

/// One implementation of access: a sequence of `len` elements, at position
/// `index`.
#[derive(Clone, Copy, Debug, PartialEq, Eq, Structural)]
pub struct IndexImpl {
    /// Length of the sequence.
    pub len: usize,
    /// The position.
    pub index: usize,
}

impl IndexImpl {
    /// The position lies inside the sequence.
    pub open spec fn wf(&self) -> bool {
        self.index < self.len
    }

    /// The positions before this one.
    pub open spec fn spec_left_exclusive(&self) -> Seq<usize> {
        spec_positions(0, self.index as nat)
    }

    /// The positions up to this one, which is the last of them.
    pub open spec fn spec_left_inclusive(&self) -> Seq<usize> {
        spec_positions(0, (self.index + 1) as nat)
    }

    /// The positions after this one.
    pub open spec fn spec_right_exclusive(&self) -> Seq<usize> {
        spec_positions((self.index + 1) as nat, self.len as nat)
    }

    /// The positions from this one on, which is the first of them.
    pub open spec fn spec_right_inclusive(&self) -> Seq<usize> {
        spec_positions(self.index as nat, self.len as nat)
    }

    /// The positions that stay when this one is popped.
    pub open spec fn spec_pop_remainder(&self) -> Seq<usize> {
        self.spec_left_exclusive() + self.spec_right_exclusive()
    }

    /// The positions before this one.
    pub fn left_exclusive(&self) -> (r: Vec<usize>)
        ensures
            r@ == self.spec_left_exclusive(),
    {
        positions(0, self.index)
    }

    /// The positions up to this one, which is the last of them.
    pub fn left_inclusive(&self) -> (r: Vec<usize>)
        requires
            self.wf(),
        ensures
            r@ == self.spec_left_inclusive(),
    {
        positions(0, self.index + 1)
    }

    /// The positions after this one.
    pub fn right_exclusive(&self) -> (r: Vec<usize>)
        requires
            self.wf(),
        ensures
            r@ == self.spec_right_exclusive(),
    {
        positions(self.index + 1, self.len)
    }

    /// The positions from this one on, which is the first of them.
    pub fn right_inclusive(&self) -> (r: Vec<usize>)
        ensures
            r@ == self.spec_right_inclusive(),
    {
        positions(self.index, self.len)
    }

    /// The positions that stay when this one is popped.
    pub fn pop_remainder(&self) -> (r: Vec<usize>)
        requires
            self.wf(),
        ensures
            r@ == self.spec_pop_remainder(),
    {
        let mut r = self.left_exclusive();
        let mut right = self.right_exclusive();
        r.append(&mut right);
        r
    }
}

/// One implementation of splitting: a sequence of `len` elements, split
/// before position `index`.
#[derive(Clone, Copy, Debug, PartialEq, Eq, Structural)]
pub struct SplitImpl {
    /// Length of the sequence.
    pub len: usize,
    /// The bound: the first position of the right part.
    pub index: usize,
}

impl SplitImpl {
    /// The bound is a position of the sequence or its length.
    pub open spec fn wf(&self) -> bool {
        self.index <= self.len
    }

    /// The positions that the left part takes.
    pub open spec fn spec_left(&self) -> Seq<usize> {
        spec_positions(0, self.index as nat)
    }

    /// The positions that the right part takes.
    pub open spec fn spec_right(&self) -> Seq<usize> {
        spec_positions(self.index as nat, self.len as nat)
    }

    /// The positions that the left part takes.
    pub fn left(&self) -> (r: Vec<usize>)
        ensures
            r@ == self.spec_left(),
    {
        positions(0, self.index)
    }

    /// The positions that the right part takes.
    pub fn right(&self) -> (r: Vec<usize>)
        ensures
            r@ == self.spec_right(),
    {
        positions(self.index, self.len)
    }
}

/// One implementation of extraction: a sequence of `len` elements, and the
/// range from `start` up to, and not including, `end`.
#[derive(Clone, Copy, Debug, PartialEq, Eq, Structural)]
pub struct ExtractImpl {
    /// Length of the sequence.
    pub len: usize,
    /// First position of the range.
    pub start: usize,
    /// The position after the last one of the range.
    pub end: usize,
}

impl ExtractImpl {
    /// The range starts inside the sequence and ends inside it or at its
    /// length, not before it starts.
    pub open spec fn wf(&self) -> bool {
        self.start < self.len && self.start <= self.end <= self.len
    }

    /// The positions that the result takes.
    pub open spec fn spec_fields(&self) -> Seq<usize> {
        spec_positions(self.start as nat, self.end as nat)
    }

    /// The positions that the result takes.
    pub fn fields(&self) -> (r: Vec<usize>)
        ensures
            r@ == self.spec_fields(),
    {
        positions(self.start, self.end)
    }
}

/// The access implementations of the sequences of `len` elements: one for
/// each position, in order.
pub open spec fn spec_index_impls(len: usize) -> Seq<IndexImpl> {
    Seq::new(len as nat, |i: int| IndexImpl { len, index: i as usize })
}

/// The splitting implementations of the sequences of `len` elements: one
/// for each bound from zero to `len`, in order.
pub open spec fn spec_split_impls(len: usize) -> Seq<SplitImpl> {
    Seq::new((len + 1) as nat, |i: int| SplitImpl { len, index: i as usize })
}

/// The extraction implementations of the sequences of `len` elements that
/// start at `start`: one for each end from `start` to `len`, in order.
pub open spec fn spec_extract_row(len: usize, start: usize) -> Seq<ExtractImpl> {
    Seq::new(
        (len - start + 1) as nat,
        |d: int| ExtractImpl { len, start, end: (start + d) as usize },
    )
}

/// The extraction implementations of the sequences of `len` elements that
/// start before `starts`: row after row, by start.
pub open spec fn spec_extract_rows(len: usize, starts: nat) -> Seq<ExtractImpl>
    decreases starts,
{
    if starts == 0 {
        Seq::empty()
    } else {
        spec_extract_rows(len, (starts - 1) as nat) + spec_extract_row(len, (starts - 1) as usize)
    }
}

/// The extraction implementations of the sequences of `len` elements: one
/// for each start inside the sequence and each end from there to `len`.
pub open spec fn spec_extract_impls(len: usize) -> Seq<ExtractImpl> {
    spec_extract_rows(len, len as nat)
}

/// Implement access for a tuple of `n` elements.
pub fn typed_index_impls(n: usize) -> (r: Vec<IndexImpl>)
    ensures
        r@ == spec_index_impls(n),
{
    let mut r: Vec<IndexImpl> = Vec::new();
    let mut i: usize = 0;
    while i < n
        invariant
            i <= n,
            r@ == Seq::new(i as nat, |k: int| IndexImpl { len: n, index: k as usize }),
        decreases n - i,
    {
        r.push(IndexImpl { len: n, index: i });
        i += 1;
    }
    r
}

/// Implement splitting for a tuple of `n` elements.
pub fn typed_split_impls(n: usize) -> (r: Vec<SplitImpl>)
    ensures
        r@ == spec_split_impls(n),
{
    let mut r: Vec<SplitImpl> = Vec::new();
    let mut i: usize = 0;
    while i < n
        invariant
            i <= n,
            r@ == Seq::new(i as nat, |k: int| SplitImpl { len: n, index: k as usize }),
        decreases n - i,
    {
        r.push(SplitImpl { len: n, index: i });
        i += 1;
    }
    r.push(SplitImpl { len: n, index: n });
    r
}

/// Implement extraction for a tuple of `n` elements.
pub fn typed_extract_impls(n: usize) -> (r: Vec<ExtractImpl>)
    ensures
        r@ == spec_extract_impls(n),
{
    let mut r: Vec<ExtractImpl> = Vec::new();
    let mut i: usize = 0;
    while i < n
        invariant
            i <= n,
            r@ == spec_extract_rows(n, i as nat),
        decreases n - i,
    {
        let ghost before = r@;
        let mut j: usize = i;
        while j < n
            invariant
                i <= j <= n,
                i < n,
                r@ == before + Seq::new(
                    (j - i) as nat,
                    |d: int| ExtractImpl { len: n, start: i, end: (i + d) as usize },
                ),
            decreases n - j,
        {
            r.push(ExtractImpl { len: n, start: i, end: j });
            j += 1;
            assert(r@ =~= before + Seq::new(
                (j - i) as nat,
                |d: int| ExtractImpl { len: n, start: i, end: (i + d) as usize },
            ));
        }
        r.push(ExtractImpl { len: n, start: i, end: n });
        i += 1;
    }
    r
}

/// The access implementations of the sequences of up to `n` elements, by
/// length.
pub open spec fn spec_index_family(n: usize) -> Seq<IndexImpl>
    decreases n,
{
    if n == 0 {
        Seq::empty()
    } else {
        spec_index_family((n - 1) as usize) + spec_index_impls(n)
    }
}

/// The splitting implementations of the sequences of one to `n` elements, by
/// length.
pub open spec fn spec_split_family(n: usize) -> Seq<SplitImpl>
    decreases n,
{
    if n == 0 {
        Seq::empty()
    } else {
        spec_split_family((n - 1) as usize) + spec_split_impls(n)
    }
}

/// The extraction implementations of the sequences of up to `n` elements, by
/// length.
pub open spec fn spec_extract_family(n: usize) -> Seq<ExtractImpl>
    decreases n,
{
    if n == 0 {
        Seq::empty()
    } else {
        spec_extract_family((n - 1) as usize) + spec_extract_impls(n)
    }
}

/// The access implementations on tuples of fields less than or equal to
/// `n`.
pub fn index_family(n: usize) -> (r: Vec<IndexImpl>)
    ensures
        r@ == spec_index_family(n),
{
    let mut r: Vec<IndexImpl> = Vec::new();
    let mut len: usize = 0;
    while len < n
        invariant
            len <= n,
            r@ == spec_index_family(len),
        decreases n - len,
    {
        len += 1;
        let mut row = typed_index_impls(len);
        r.append(&mut row);
    }
    r
}

/// The splitting implementations on tuples of fields less than or equal to
/// `n`.
pub fn split_family(n: usize) -> (r: Vec<SplitImpl>)
    ensures
        r@ == spec_split_family(n),
{
    let mut r: Vec<SplitImpl> = Vec::new();
    let mut len: usize = 0;
    while len < n
        invariant
            len <= n,
            r@ == spec_split_family(len),
        decreases n - len,
    {
        len += 1;
        let mut row = typed_split_impls(len);
        r.append(&mut row);
    }
    r
}

/// The extraction implementations on tuples of fields less than or equal to
/// `n`.
pub fn extract_family(n: usize) -> (r: Vec<ExtractImpl>)
    ensures
        r@ == spec_extract_family(n),
{
    let mut r: Vec<ExtractImpl> = Vec::new();
    let mut len: usize = 0;
    while len < n
        invariant
            len <= n,
            r@ == spec_extract_family(len),
        decreases n - len,
    {
        len += 1;
        let mut row = typed_extract_impls(len);
        r.append(&mut row);
    }
    r
}

/// Two ranges that meet make one range: the positions before `mid` followed
/// by those from `mid` on are the positions of the whole.
pub proof fn lemma_positions_join(lo: nat, mid: nat, hi: nat)
    requires
        lo <= mid <= hi,
        hi <= usize::MAX,
    ensures
        spec_positions(lo, mid) + spec_positions(mid, hi) == spec_positions(lo, hi),
{
}

/// Around a position the parts fit together as they must, whatever the
/// length of the sequence:
///
/// - the positions before it, followed by the position, are the positions up
///   to it;
/// - the position, followed by the positions after it, are the positions
///   from it on;
/// - the positions before it followed by those from it on are all the
///   positions, and so are those up to it followed by those after it;
/// - without the position, one fewer is left: those before it followed by
///   those after it.
pub proof fn lemma_index_parts(row: IndexImpl)
    requires
        row.wf(),
    ensures
        row.spec_left_exclusive().push(row.index) == row.spec_left_inclusive(),
        seq![row.index] + row.spec_right_exclusive() == row.spec_right_inclusive(),
        row.spec_left_exclusive() + row.spec_right_inclusive() == spec_positions(
            0,
            row.len as nat,
        ),
        row.spec_left_inclusive() + row.spec_right_exclusive() == spec_positions(
            0,
            row.len as nat,
        ),
        row.spec_pop_remainder() == spec_positions(0, row.len as nat).remove(row.index as int),
        row.spec_pop_remainder().len() == row.len - 1,
{
}

/// The parts of a split have all the positions of the sequence between them,
/// in order, and the left part has as many as the bound says.
pub proof fn lemma_split_parts(row: SplitImpl)
    requires
        row.wf(),
    ensures
        row.spec_left() + row.spec_right() == spec_positions(0, row.len as nat),
        row.spec_left().len() == row.index,
        row.spec_right().len() == row.len - row.index,
{
    lemma_positions_join(0, row.index as nat, row.len as nat);
}

/// An extraction has one position for each position of its range, and each
/// is the position of the source that it is taken from. Over the full range
/// it has the positions of the whole sequence.
pub proof fn lemma_extract_fields(row: ExtractImpl)
    requires
        row.wf(),
    ensures
        row.spec_fields().len() == row.end - row.start,
        forall|k: int|
            0 <= k < row.end - row.start ==> #[trigger] row.spec_fields()[k] == row.start + k,
        row.start == 0 && row.end == row.len ==> row.spec_fields() == spec_positions(
            0,
            row.len as nat,
        ),
{
}

/// An extraction is what a split at its end, and then a split of the left
/// part at its start, leave in the middle.
pub proof fn lemma_extract_by_splits(row: ExtractImpl)
    requires
        row.wf(),
    ensures
        row.spec_fields() == (SplitImpl { len: row.len, index: row.end }).spec_left().skip(
            row.start as int,
        ),
{
    assert(row.spec_fields() =~= (SplitImpl { len: row.len, index: row.end }).spec_left().skip(
        row.start as int,
    ));
}

/// The access family for `n` holds valid rows only, of sequences of one to
/// `n` elements.
pub proof fn lemma_index_family_sound(n: usize, k: int)
    requires
        0 <= k < spec_index_family(n).len(),
    ensures
        spec_index_family(n)[k].wf(),
        1 <= spec_index_family(n)[k].len <= n,
    decreases n,
{
    if n > 0 {
        let before = spec_index_family((n - 1) as usize);
        if k < before.len() {
            lemma_index_family_sound((n - 1) as usize, k);
        }
    }
}

/// The access family for `n` holds every position of every sequence of one
/// to `n` elements.
pub proof fn lemma_index_family_complete(n: usize, row: IndexImpl)
    requires
        row.wf(),
        row.len <= n,
    ensures
        spec_index_family(n).contains(row),
    decreases n,
{
    let before = spec_index_family((n - 1) as usize);
    if row.len == n {
        assert(spec_index_family(n)[before.len() + row.index] == row);
    } else {
        lemma_index_family_complete((n - 1) as usize, row);
        let k = choose|k: int| 0 <= k < before.len() && before[k] == row;
        assert(spec_index_family(n)[k] == row);
    }
}

/// The splitting family for `n` holds valid rows only, of sequences of one
/// to `n` elements.
pub proof fn lemma_split_family_sound(n: usize, k: int)
    requires
        0 <= k < spec_split_family(n).len(),
    ensures
        spec_split_family(n)[k].wf(),
        1 <= spec_split_family(n)[k].len <= n,
    decreases n,
{
    if n > 0 {
        let before = spec_split_family((n - 1) as usize);
        if k < before.len() {
            lemma_split_family_sound((n - 1) as usize, k);
        }
    }
}

/// The splitting family for `n` holds every bound of every sequence of one
/// to `n` elements, the two ends included.
pub proof fn lemma_split_family_complete(n: usize, row: SplitImpl)
    requires
        row.wf(),
        1 <= row.len <= n,
    ensures
        spec_split_family(n).contains(row),
    decreases n,
{
    let before = spec_split_family((n - 1) as usize);
    if row.len == n {
        assert(spec_split_family(n)[before.len() + row.index] == row);
    } else {
        lemma_split_family_complete((n - 1) as usize, row);
        let k = choose|k: int| 0 <= k < before.len() && before[k] == row;
        assert(spec_split_family(n)[k] == row);
    }
}

/// The rows of extraction that start before `starts` are valid, and start
/// there.
proof fn lemma_extract_rows_sound(len: usize, starts: nat, k: int)
    requires
        starts <= len,
        0 <= k < spec_extract_rows(len, starts).len(),
    ensures
        spec_extract_rows(len, starts)[k].wf(),
        spec_extract_rows(len, starts)[k].len == len,
        spec_extract_rows(len, starts)[k].start < starts,
    decreases starts,
{
    if starts > 0 {
        let before = spec_extract_rows(len, (starts - 1) as nat);
        if k < before.len() {
            lemma_extract_rows_sound(len, (starts - 1) as nat, k);
        }
    }
}

/// The rows of extraction that start before `starts` hold every range that
/// starts there.
proof fn lemma_extract_rows_complete(len: usize, starts: nat, row: ExtractImpl)
    requires
        starts <= len,
        row.wf(),
        row.len == len,
        row.start < starts,
    ensures
        spec_extract_rows(len, starts).contains(row),
    decreases starts,
{
    let before = spec_extract_rows(len, (starts - 1) as nat);
    if row.start == starts - 1 {
        assert(spec_extract_rows(len, starts)[before.len() + (row.end - row.start)] == row);
    } else {
        lemma_extract_rows_complete(len, (starts - 1) as nat, row);
        let k = choose|k: int| 0 <= k < before.len() && before[k] == row;
        assert(spec_extract_rows(len, starts)[k] == row);
    }
}

/// The extraction family for `n` holds valid rows only, of sequences of one
/// to `n` elements.
pub proof fn lemma_extract_family_sound(n: usize, k: int)
    requires
        0 <= k < spec_extract_family(n).len(),
    ensures
        spec_extract_family(n)[k].wf(),
        1 <= spec_extract_family(n)[k].len <= n,
    decreases n,
{
    if n > 0 {
        let before = spec_extract_family((n - 1) as usize);
        if k < before.len() {
            lemma_extract_family_sound((n - 1) as usize, k);
        } else {
            lemma_extract_rows_sound(n, n as nat, k - before.len());
        }
    }
}

/// The extraction family for `n` holds every range of every sequence of one
/// to `n` elements, the empty ranges and the full one included.
pub proof fn lemma_extract_family_complete(n: usize, row: ExtractImpl)
    requires
        row.wf(),
        row.len <= n,
    ensures
        spec_extract_family(n).contains(row),
    decreases n,
{
    let before = spec_extract_family((n - 1) as usize);
    if row.len == n {
        lemma_extract_rows_complete(n, n as nat, row);
        let k = choose|k: int| 0 <= k < spec_extract_impls(n).len() && spec_extract_impls(n)[k] == row;
        assert(spec_extract_family(n)[before.len() + k] == row);
    } else {
        lemma_extract_family_complete((n - 1) as usize, row);
        let k = choose|k: int| 0 <= k < before.len() && before[k] == row;
        assert(spec_extract_family(n)[k] == row);
    }
}

/// The rows that a maximum length gives, or the error that stands in its
/// place.
pub open spec fn spec_index_from(
    scale: Result<usize, ScaleError>,
    r: Result<Vec<IndexImpl>, ScaleError>,
) -> bool {
    match scale {
        Ok(n) => r matches Ok(rows) && rows@ == spec_index_family(n),
        Err(e) => r matches Err(f) && f == e,
    }
}

/// The `TypedIndex` implementations for a maximum length that was read from a
/// text: the family for that length, and for a text that gave none the error
/// as it came.
pub fn index_from(scale: Result<usize, ScaleError>) -> (r: Result<Vec<IndexImpl>, ScaleError>)
    ensures
        spec_index_from(scale, r),
{
    match scale {
        Ok(n) => Ok(index_family(n)),
        Err(e) => Err(e),
    }
}

/// Implement `TypedIndex` on tuples of fields less than or equal to the given
/// integer literal.
///
/// The text is read by `parse_int`, and the rows are those that
/// `index_from` gives for what was read. A text with more than
/// `MAX_NESTING` opening brackets is refused as `TooDeep`, and no other is.
pub fn impl_typed_index(text: &str) -> (r: Result<Vec<IndexImpl>, ScaleError>)
    ensures
        exists|scale: Result<usize, ScaleError>|
            #[trigger] spec_parse_int(text@, scale) && spec_index_from(scale, r),
        r matches Err(ScaleError::TooDeep) <==> spec_openers(text@) > MAX_NESTING,
{
    index_from(parse_int(text))
}

/// The rows that a maximum length gives, or the error that stands in its
/// place.
pub open spec fn spec_split_from(
    scale: Result<usize, ScaleError>,
    r: Result<Vec<SplitImpl>, ScaleError>,
) -> bool {
    match scale {
        Ok(n) => r matches Ok(rows) && rows@ == spec_split_family(n),
        Err(e) => r matches Err(f) && f == e,
    }
}

/// The `TypedSplit` implementations for a maximum length that was read from a
/// text: the family for that length, and for a text that gave none the error
/// as it came.
pub fn split_from(scale: Result<usize, ScaleError>) -> (r: Result<Vec<SplitImpl>, ScaleError>)
    ensures
        spec_split_from(scale, r),
{
    match scale {
        Ok(n) => Ok(split_family(n)),
        Err(e) => Err(e),
    }
}

/// Implement `TypedSplit` on tuples of fields less than or equal to the given
/// integer literal.
///
/// The text is read by `parse_int`, and the rows are those that
/// `split_from` gives for what was read. A text with more than
/// `MAX_NESTING` opening brackets is refused as `TooDeep`, and no other is.
pub fn impl_typed_split(text: &str) -> (r: Result<Vec<SplitImpl>, ScaleError>)
    ensures
        exists|scale: Result<usize, ScaleError>|
            #[trigger] spec_parse_int(text@, scale) && spec_split_from(scale, r),
        r matches Err(ScaleError::TooDeep) <==> spec_openers(text@) > MAX_NESTING,
{
    split_from(parse_int(text))
}

/// The rows that a maximum length gives, or the error that stands in its
/// place.
pub open spec fn spec_extract_from(
    scale: Result<usize, ScaleError>,
    r: Result<Vec<ExtractImpl>, ScaleError>,
) -> bool {
    match scale {
        Ok(n) => r matches Ok(rows) && rows@ == spec_extract_family(n),
        Err(e) => r matches Err(f) && f == e,
    }
}

/// The `TypedExtract` implementations for a maximum length that was read from a
/// text: the family for that length, and for a text that gave none the error
/// as it came.
pub fn extract_from(scale: Result<usize, ScaleError>) -> (r: Result<Vec<ExtractImpl>, ScaleError>)
    ensures
        spec_extract_from(scale, r),
{
    match scale {
        Ok(n) => Ok(extract_family(n)),
        Err(e) => Err(e),
    }
}

/// Implement `TypedExtract` on tuples of fields less than or equal to the given
/// integer literal.
///
/// The text is read by `parse_int`, and the rows are those that
/// `extract_from` gives for what was read. A text with more than
/// `MAX_NESTING` opening brackets is refused as `TooDeep`, and no other is.
pub fn impl_typed_extract(text: &str) -> (r: Result<Vec<ExtractImpl>, ScaleError>)
    ensures
        exists|scale: Result<usize, ScaleError>|
            #[trigger] spec_parse_int(text@, scale) && spec_extract_from(scale, r),
        r matches Err(ScaleError::TooDeep) <==> spec_openers(text@) > MAX_NESTING,
{
    extract_from(parse_int(text))
}

} // verus!
