//! Tests for splitting at a bound, extracting a range, and borrowing all
//! elements at once.

use typed_tuple::prelude::{
    TypedBound, TypedExtract, TypedExtractMut, TypedMut, TypedRef, TypedSplit, TypedSplitMut,
};

#[test]
fn test_extract_explicit_range() {
    let tuple = (0u8, 1u16, 2u32, 3u64, 4u128, 5u8, 6u16, 7u32);
    let extracted = TypedExtract::<1, 4, _>::extract(tuple);
    assert_eq!(extracted, (1u16, 2u32, 3u64));
    let extracted = TypedExtract::<2, 6, _>::extract(tuple);
    assert_eq!(extracted, (2u32, 3u64, 4u128, 5u8));
}

#[test]
fn test_extract_inferred_from_type_pattern() {
    let tuple = (0u8, 1u16, 2u32, 3u64, 4u128, 5u8, 6u16, 7u32);
    let extracted: (u64, _) = tuple.extract();
    assert_eq!(extracted, (3u64, 4u128));
    let extracted: (_, _, u128) = tuple.extract();
    assert_eq!(extracted, (2u32, 3u64, 4u128));
    let extracted: (u128,) = tuple.extract();
    assert_eq!(extracted, (4u128,));
}

#[test]
fn test_extract_one_bound_explicit() {
    let tuple = (0u8, 1u16, 2u32, 3u64, 4u128, 5u8, 6u16, 7u32);
    let extracted: (_, _) = TypedExtract::<6, 8, _>::extract(tuple);
    assert_eq!(extracted, (6u16, 7u32));
    let extracted: (u8, u16) = TypedExtract::<5, 7, _>::extract(tuple);
    assert_eq!(extracted, (5u8, 6u16));
    let extracted: (u8, u16) = TypedExtract::<0, 2, _>::extract(tuple);
    assert_eq!(extracted, (0u8, 1u16));
}

#[test]
fn test_extract_full_range_is_identity() {
    let one = (7u8,);
    assert_eq!(TypedExtract::<0, 1, _>::extract(one), one);
    let three = (1u8, "two", 3.0f64);
    assert_eq!(TypedExtract::<0, 3, _>::extract(three), three);
    let twelve = (0u8, 1u8, 2u8, 3u8, 4u8, 5u8, 6u8, 7u8, 8u8, 9u8, 10u8, 11u8);
    assert_eq!(TypedExtract::<0, 12, _>::extract(twelve), twelve);
}

#[test]
fn test_extract_empty_range() {
    let tuple = (1u8, 2u16, 3u32);
    let nothing: () = TypedExtract::<0, 0, _>::extract(tuple);
    assert_eq!(nothing, ());
    let nothing: () = TypedExtract::<2, 2, _>::extract(tuple);
    assert_eq!(nothing, ());
}

#[test]
fn test_extract_at_the_edges() {
    let tuple = (1u8, 2u16, 3u32, 4u64);
    let first: (u8,) = TypedExtract::<0, 1, _>::extract(tuple);
    assert_eq!(first, (1u8,));
    let last: (u64,) = TypedExtract::<3, 4, _>::extract(tuple);
    assert_eq!(last, (4u64,));
    let tail = TypedExtract::<1, 4, _>::extract(tuple);
    assert_eq!(tail, (2u16, 3u32, 4u64));
}

#[test]
fn test_extract_by_shared_reference() {
    let tuple = (String::from("a"), 1u16, String::from("c"));
    let (number, text): (&u16, &String) = TypedExtract::<1, 3, _>::extract(&tuple);
    assert_eq!(*number, 1u16);
    assert_eq!(text, "c");
    assert_eq!(tuple, (String::from("a"), 1u16, String::from("c")));
}

#[test]
fn test_extract_mut_writes_the_range_and_nothing_else() {
    let mut tuple = (0u8, 1u16, 2u32, 3u64);
    let (b, c) = TypedExtractMut::<1, 3, _>::extract_mut(&mut tuple);
    *b = 10;
    *c = 20;
    assert_eq!(tuple, (0u8, 10u16, 20u32, 3u64));
    let (middle,): (&mut u32,) = tuple.extract_mut();
    *middle += 1;
    assert_eq!(tuple, (0u8, 10u16, 21u32, 3u64));
    let (a, b, c, d) = TypedExtractMut::<0, 4, _>::extract_mut(&mut tuple);
    *a = 9;
    *b = 9;
    *c = 9;
    *d = 9;
    assert_eq!(tuple, (9u8, 9u16, 9u32, 9u64));
}

#[test]
fn test_extract_mut_of_an_empty_range_touches_nothing() {
    let mut tuple = (1u8, String::from("two"), 3u32);
    let nothing: () = TypedExtractMut::<1, 1, _>::extract_mut(&mut tuple);
    assert_eq!(nothing, ());
    let nothing: () = TypedExtractMut::<0, 0, _>::extract_mut(&mut tuple);
    assert_eq!(nothing, ());
    assert_eq!(tuple, (1u8, String::from("two"), 3u32));
}

#[test]
fn test_extract_mut_refers_to_the_elements_themselves() {
    let mut tuple = (String::from("a"), String::from("b"), String::from("c"));
    let (last,): (&mut String,) = TypedExtractMut::<2, 3, _>::extract_mut(&mut tuple);
    last.push('d');
    assert_eq!(tuple, (String::from("a"), String::from("b"), String::from("cd")));
}

#[test]
fn test_split_mut_writes_through_both_parts() {
    let mut tuple = (1u8, 2u16, 3u32, 4u64);
    let (left, right) = TypedSplitMut::<1, _, _>::split_mut(&mut tuple);
    *left.0 = 10;
    *right.2 = 40;
    assert_eq!(tuple, (10u8, 2u16, 3u32, 40u64));
    let (left, right): ((), _) = tuple.split_mut();
    assert_eq!(left, ());
    *right.1 = 20;
    assert_eq!(tuple, (10u8, 20u16, 3u32, 40u64));
    let (left, right): (_, ()) = tuple.split_mut();
    assert_eq!(right, ());
    *left.3 = 0;
    assert_eq!(tuple, (10u8, 20u16, 3u32, 0u64));
}

#[test]
fn test_split_mut_inferred_from_parts() {
    let mut tuple = (String::from("a"), String::from("b"), String::from("c"));
    let (_, last): (_, (&mut String,)) = tuple.split_mut();
    last.0.push('d');
    assert_eq!(tuple, (String::from("a"), String::from("b"), String::from("cd")));
}

#[test]
fn test_extract_by_exclusive_reference() {
    let mut tuple = (0u8, 1u16, 2u32);
    let (middle,): (&mut u16,) = tuple.into_mut().extract();
    *middle = 10;
    assert_eq!(tuple, (0u8, 10u16, 2u32));
    let (b, c) = TypedExtract::<1, 3, _>::extract(tuple.into_mut());
    *b += 1;
    *c += 1;
    assert_eq!(tuple, (0u8, 11u16, 3u32));
}

#[test]
fn test_split_by_index() {
    let tuple = (0u8, 1u16, 2u32, 3u64, 4u128);
    let (left, right) = TypedSplit::<3, _, _>::split(tuple);
    assert_eq!(left, (0u8, 1u16, 2u32));
    assert_eq!(right, (3u64, 4u128));
    let (left, right) = TypedSplit::<2, _, _>::split(tuple);
    assert_eq!(left, (0u8, 1u16));
    assert_eq!(right, (2u32, 3u64, 4u128));
}

#[test]
fn test_split_at_both_ends() {
    let tuple = (0u8, 1u16, 2u32, 3u64, 4u128);
    let (left, right) = TypedSplit::<0, _, _>::split(tuple);
    assert_eq!(left, ());
    assert_eq!(right, (0u8, 1u16, 2u32, 3u64, 4u128));
    let (left, right) = TypedSplit::<5, _, _>::split(tuple);
    assert_eq!(left, (0u8, 1u16, 2u32, 3u64, 4u128));
    assert_eq!(right, ());
}

#[test]
fn test_split_inferred_from_parts() {
    let tuple = (0u8, 1u16, 2u32, 3u64, 4u128);
    let (left, right): ((_, _, _), _) = TypedSplit::split(tuple);
    assert_eq!(left, (0u8, 1u16, 2u32));
    assert_eq!(right, (3u64, 4u128));
    let (left, right): (_, (_,)) = TypedSplit::split(tuple);
    assert_eq!(left, (0u8, 1u16, 2u32, 3u64));
    assert_eq!(right, (4u128,));
}

#[test]
fn test_split_by_shared_reference() {
    let tuple = (String::from("a"), String::from("b"), String::from("c"));
    let (_, last): (_, (&String,)) = TypedSplit::split(&tuple);
    assert_eq!(last.0, "c");
    let (first, rest) = TypedSplit::<1, _, _>::split(&tuple);
    assert_eq!(first, (&String::from("a"),));
    assert_eq!(rest, (&String::from("b"), &String::from("c")));
}

#[test]
fn test_split_by_exclusive_reference() {
    let mut tuple = (String::from("a"), String::from("b"), String::from("c"));
    let (_, last): (_, (&mut String,)) = TypedSplit::split(tuple.into_mut());
    last.0.push('d');
    assert_eq!(tuple, (String::from("a"), String::from("b"), String::from("cd")));
}

#[test]
fn test_bound_splits_as_split_does() {
    let tuple = (0u8, 1u16, 2u32, 3u64, 4u128);
    let (left, right) = TypedBound::<3, _, _>::split(tuple);
    assert_eq!((left, right), TypedSplit::<3, _, _>::split(tuple));
    let (left, right) = TypedBound::<0, _, _>::split(tuple);
    assert_eq!(left, ());
    assert_eq!(right, (0u8, 1u16, 2u32, 3u64, 4u128));
    let (l, r): ((_, _), _) = TypedBound::split(tuple);
    assert_eq!(l, (0u8, 1u16));
    assert_eq!(r, (2u32, 3u64, 4u128));
}

#[test]
fn test_into_ref_keeps_the_source() {
    let tuple = (String::from("a"), 2u8, 'c');
    let refs = tuple.into_ref();
    assert_eq!(refs, (&String::from("a"), &2u8, &'c'));
    assert_eq!(tuple.0, "a");
}

#[test]
fn test_into_mut_writes_through() {
    let mut tuple = (1u8, 2u16, 3u32);
    let (a, b, c) = tuple.into_mut();
    *a += 10;
    *b += 20;
    *c += 30;
    assert_eq!(tuple, (11u8, 22u16, 33u32));
}
