//! The traits and the position markers, for import in one place.

pub use crate::arithmetic::{TupleIndexAdd, TupleIndexSaturatingSub, TupleIndexSub};
pub use crate::chain::{ChainLeft, ChainRight};
pub use crate::indexed_tuple::IndexedTuple;
pub use crate::last_index::LastIndex;
pub use crate::nth_index::NthIndex;
pub use crate::tuple_key::TupleKey;
pub use crate::tuple_len::TupleLen;
pub use crate::typed_bound::TypedBound;
pub use crate::typed_bounds::TypedBounds;
pub use crate::typed_extract::{TypedExtract, TypedExtractMut};
pub use crate::typed_first::TypedFirst;
pub use crate::typed_index::TypedIndex;
pub use crate::typed_last::TypedLast;
pub use crate::typed_nth::TypedNth;
pub use crate::typed_ref::{TypedMut, TypedRef};
pub use crate::typed_split::{TypedSplit, TypedSplitMut};
pub use crate::typed_swap::TypedSwap;
pub use crate::typed_tuple::TypedTuple;
pub use crate::typed_tuple_ext::TypedTupleExt;
pub use crate::typed_until::TypedUntil;
pub use crate::typed_until_as::{Back, Countdown, NthIndexedAs, NthIndexedUntil};
pub use crate::tuple_index::{
    Next, Position, TupleIndex, TupleIndex0, TupleIndex1, TupleIndex2, TupleIndex3, TupleIndex4,
    TupleIndex5, TupleIndex6, TupleIndex7, TupleIndex8, TupleIndex9, TupleIndex10, TupleIndex11,
    TupleIndex12, TupleIndex13, TupleIndex14, TupleIndex15, TupleIndex16, TupleIndex17,
    TupleIndex18, TupleIndex19, TupleIndex20, TupleIndex21, TupleIndex22, TupleIndex23,
    TupleIndex24, TupleIndex25, TupleIndex26, TupleIndex27, TupleIndex28, TupleIndex29,
    TupleIndex30, TupleIndex31, TupleIndex32, TupleIndex33, TupleIndex34, TupleIndex35,
    TupleIndex36, TupleIndex37, TupleIndex38, TupleIndex39, TupleIndex40, TupleIndex41,
    TupleIndex42, TupleIndex43, TupleIndex44, TupleIndex45, TupleIndex46, TupleIndex47,
    TupleIndex48, TupleIndex49, TupleIndex50, TupleIndex51, TupleIndex52, TupleIndex53,
    TupleIndex54, TupleIndex55, TupleIndex56, TupleIndex57, TupleIndex58, TupleIndex59,
    TupleIndex60, TupleIndex61, TupleIndex62, TupleIndex63,
};
