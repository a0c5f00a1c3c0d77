//! Access to, and decomposition of, tuples by position, with every position and
//! every part named by a type.
//!
//! A tuple is a sequence of fixed length whose elements may all differ in
//! type. A position is a marker type, [`tuple_index::TupleIndex0`] and its
//! successors. The traits of this crate give, for a sequence and a position,
//! the type of the element there, access to it, and the parts the sequence
//! falls into around it, and chain such parts together again. Which positions
//! a sequence has, and what type each part has, is settled when the code is
//! compiled; what each operation returns is stated in its contract and proved.
//!
//! # Limits
//!
//! Every operation is written out once for each length of sequence and each
//! position, bound, range or pair of positions that is valid in it, and the
//! number of these grows with the third and fourth power of the length. The
//! crate therefore stops at sequences of [`tuple_len::MAX_LENGTH`] elements,
//! which is twelve: lookup, access, chaining and every decomposition exist
//! for the empty sequence and the tuples of one to twelve elements, and for
//! no longer one. Positions are not bound to that limit. There are
//! [`tuple_index::MAX_POSITIONS`] markers, sixty-four, and their arithmetic
//! is defined and proved for all of them.

pub mod arithmetic;
pub mod chain;
pub mod generator;
pub mod indexed_tuple;
pub mod last_index;
pub mod nth_index;
pub mod prelude;
pub mod scale;
pub mod tuple_index;
pub mod tuple_key;
pub mod tuple_len;
pub mod typed_bound;
pub mod typed_bounds;
pub mod typed_extract;
pub mod typed_first;
pub mod typed_index;
pub mod typed_last;
pub mod typed_nth;
pub mod typed_ref;
pub mod typed_split;
pub mod typed_swap;
pub mod typed_tuple;
pub mod typed_tuple_ext;
pub mod typed_until;
pub mod typed_until_as;
