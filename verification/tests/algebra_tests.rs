//! Tests of how the operations compose: what is split chains back, a pop is a
//! split with its parts chained, and a swap undoes itself.

use typed_tuple::prelude::{
    Back, ChainLeft, ChainRight, Countdown, IndexedTuple, NthIndexedAs, LastIndex, NthIndex, Position, TupleIndex,
    TupleIndexAdd, TupleIndexSaturatingSub, TupleIndexSub, TupleKey, TupleLen, TypedBounds,
    TypedFirst, TypedIndex, TypedLast, TypedNth, TypedTuple, TypedTupleExt, TypedUntil,
    TupleIndex0, TupleIndex1, TupleIndex2, TupleIndex3, TupleIndex5, TupleIndex9, TupleIndex10,
    TupleIndex11, TupleIndex12, TupleIndex31, TupleIndex32, TupleIndex62, TupleIndex63,
};

#[test]
fn test_chain_right_and_left() {
    assert_eq!((1u8, 2u16).chain_right((3u32,)), (1u8, 2u16, 3u32));
    assert_eq!((3u32,).chain_left((1u8, 2u16)), (1u8, 2u16, 3u32));
    assert_eq!(().chain_right((1u8, 'x')), (1u8, 'x'));
    assert_eq!((1u8, 'x').chain_right(()), (1u8, 'x'));
    assert_eq!(().chain_right(()), ());
    assert_eq!(().chain_left((1u8,)), (1u8,));
    let six = (0u8, 1u8, 2u8, 3u8, 4u8, 5u8);
    assert_eq!(
        six.chain_right((6u16, 7u16, 8u16, 9u16, 10u16, 11u16)),
        (0u8, 1u8, 2u8, 3u8, 4u8, 5u8, 6u16, 7u16, 8u16, 9u16, 10u16, 11u16)
    );
}

#[test]
fn test_split_left_round_trip() {
    let tuple = (1u8, 2u16, 3u32, 4u64, 5i8);
    let (left, element, _) = tuple.split_exclusive::<TupleIndex2>();
    let (left_inclusive, right) = tuple.split_left::<TupleIndex2>();
    assert_eq!(left.chain_right((element,)), left_inclusive);
    assert_eq!(left_inclusive.chain_right(right), tuple);
}

#[test]
fn test_split_right_round_trip() {
    let tuple = (1u8, 2u16, 3u32, 4u64, 5i8);
    let (_, element, right) = tuple.split_exclusive::<TupleIndex2>();
    let (left, right_inclusive) = tuple.split_right::<TupleIndex2>();
    assert_eq!(right.chain_left((element,)), right_inclusive);
    assert_eq!(left.chain_right(right_inclusive), tuple);
    assert_eq!(right_inclusive.chain_left(left), tuple);
}

#[test]
fn test_round_trip_at_every_position() {
    let tuple = ('a', 1u8, "b", 2u16);
    let (l, r) = tuple.split_left::<TupleIndex0>();
    assert_eq!(l.chain_right(r), tuple);
    let (l, r) = tuple.split_left::<TupleIndex1>();
    assert_eq!(l.chain_right(r), tuple);
    let (l, r) = tuple.split_left::<TupleIndex2>();
    assert_eq!(l.chain_right(r), tuple);
    let (l, r) = tuple.split_left::<TupleIndex3>();
    assert_eq!(l.chain_right(r), tuple);
}

#[test]
fn test_pop_is_split_and_chain() {
    let tuple = (1u8, 2u16, 3u32);
    assert_eq!(tuple.pop::<TupleIndex1>(), (2u16, (1u8, 3u32)));
    let (left, element, right) = tuple.split_exclusive::<TupleIndex1>();
    assert_eq!(tuple.pop::<TupleIndex1>(), (element, left.chain_right(right)));
    let (left, element, right) = tuple.split_exclusive::<TupleIndex0>();
    assert_eq!(tuple.pop::<TupleIndex0>(), (element, left.chain_right(right)));
    let (left, element, right) = tuple.split_exclusive::<TupleIndex2>();
    assert_eq!(tuple.pop::<TupleIndex2>(), (element, left.chain_right(right)));
}

#[test]
fn test_swap_twice_restores() {
    let start = (1u32, "hello", 2u32, 'x', 3u32);
    let mut tuple = start;
    tuple.swap::<TupleIndex0, TupleIndex2>();
    assert_eq!(tuple, (2u32, "hello", 1u32, 'x', 3u32));
    tuple.swap::<TupleIndex0, TupleIndex2>();
    assert_eq!(tuple, start);
    tuple.swap::<TupleIndex2, TupleIndex0>();
    tuple.swap::<TupleIndex0, TupleIndex2>();
    assert_eq!(tuple, start);
}

#[test]
fn test_swap_with_itself_changes_nothing() {
    let mut tuple = (1u32, "hello", 2u32);
    tuple.swap::<TupleIndex0, TupleIndex0>();
    tuple.swap::<TupleIndex1, TupleIndex1>();
    tuple.swap::<TupleIndex2, TupleIndex2>();
    assert_eq!(tuple, (1u32, "hello", 2u32));
}

#[test]
fn test_swap_values_that_are_not_copy() {
    let mut tuple = (String::from("a"), 0u8, vec![1u8], String::from("b"));
    tuple.swap::<TupleIndex0, TupleIndex3>();
    assert_eq!(tuple, (String::from("b"), 0u8, vec![1u8], String::from("a")));
}

fn saturating<A, B>() -> usize
where
    A: TupleIndexSaturatingSub<B>,
    B: Position,
{
    <<A as TupleIndexSaturatingSub<B>>::Output as TupleIndex>::INDEX
}

fn check_saturating<A, B>()
where
    A: TupleIndex + TupleIndexSaturatingSub<B>,
    B: TupleIndex,
{
    assert_eq!(saturating::<A, B>(), A::INDEX.saturating_sub(B::INDEX));
}

#[test]
fn test_saturating_sub_clamps_at_zero() {
    assert_eq!(saturating::<TupleIndex2, TupleIndex10>(), 0);
    assert_eq!(saturating::<TupleIndex10, TupleIndex2>(), 8);
    check_saturating::<TupleIndex0, TupleIndex0>();
    check_saturating::<TupleIndex0, TupleIndex1>();
    check_saturating::<TupleIndex1, TupleIndex0>();
    check_saturating::<TupleIndex1, TupleIndex1>();
    check_saturating::<TupleIndex1, TupleIndex2>();
    check_saturating::<TupleIndex2, TupleIndex1>();
    check_saturating::<TupleIndex5, TupleIndex9>();
    check_saturating::<TupleIndex9, TupleIndex5>();
    check_saturating::<TupleIndex31, TupleIndex32>();
    check_saturating::<TupleIndex32, TupleIndex31>();
    check_saturating::<TupleIndex0, TupleIndex63>();
    check_saturating::<TupleIndex63, TupleIndex0>();
    check_saturating::<TupleIndex63, TupleIndex63>();
    check_saturating::<TupleIndex62, TupleIndex63>();
    check_saturating::<TupleIndex63, TupleIndex62>();
}

#[test]
fn test_position_values() {
    assert_eq!(<TupleIndex0 as TupleIndex>::INDEX, 0);
    assert_eq!(<TupleIndex1 as TupleIndex>::INDEX, 1);
    assert_eq!(<TupleIndex12 as TupleIndex>::INDEX, 12);
    assert_eq!(<TupleIndex63 as TupleIndex>::INDEX, 63);
    assert_eq!(typed_tuple::tuple_index::MAX_POSITIONS, 64);
    assert_eq!(typed_tuple::tuple_len::MAX_LENGTH, 12);
}

#[test]
fn test_position_identities() {
    type PlusZero = <TupleIndex9 as TupleIndexAdd<TupleIndex0>>::Output;
    assert_eq!(<PlusZero as TupleIndex>::INDEX, 9);
    type MinusZero = <TupleIndex9 as TupleIndexSub<TupleIndex0>>::Output;
    assert_eq!(<MinusZero as TupleIndex>::INDEX, 9);
    type MinusSelf = <TupleIndex9 as TupleIndexSub<TupleIndex9>>::Output;
    assert_eq!(<MinusSelf as TupleIndex>::INDEX, 0);
    type Largest = <TupleIndex31 as TupleIndexAdd<TupleIndex32>>::Output;
    assert_eq!(<Largest as TupleIndex>::INDEX, 63);
    type Back = <Largest as TupleIndexSub<TupleIndex32>>::Output;
    assert_eq!(<Back as TupleIndex>::INDEX, 31);
}

#[test]
fn test_single_element_boundary() {
    let tuple = (42u32,);
    assert_eq!(tuple.split_exclusive::<TupleIndex0>(), ((), 42u32, ()));
    assert_eq!(tuple.split_left::<TupleIndex0>(), ((42u32,), ()));
    assert_eq!(tuple.split_right::<TupleIndex0>(), ((), (42u32,)));
    assert_eq!(tuple.split_inclusive::<TupleIndex0>(), ((42u32,), (42u32,)));
    assert_eq!(tuple.pop::<TupleIndex0>(), (42u32, ()));
}

#[test]
fn test_first_and_last_position_boundary() {
    let tuple = (1u8, 2u16, 3u32);
    let (left, _, right) = tuple.split_exclusive::<TupleIndex0>();
    assert_eq!(left, ());
    assert_eq!(right, (2u16, 3u32));
    let (left, _, right) = tuple.split_exclusive::<TupleIndex2>();
    assert_eq!(left, (1u8, 2u16));
    assert_eq!(right, ());
    assert_eq!(tuple.split_right::<TupleIndex0>().1, tuple);
    assert_eq!(tuple.split_left::<TupleIndex2>().0, tuple);
}

#[test]
fn test_split_inclusive_clones_the_element() {
    let tuple = (1u8, String::from("mid"), 3u32);
    let (left, right) = tuple.split_inclusive::<TupleIndex1>();
    assert_eq!(left, (1u8, String::from("mid")));
    assert_eq!(right, (String::from("mid"), 3u32));
    let tuple = (1u8, 2u16, 3u32, 4u64, 5i8);
    let (left, right) = tuple.split_inclusive::<TupleIndex2>();
    assert_eq!(left, (1u8, 2u16, 3u32));
    assert_eq!(right, (3u32, 4u64, 5i8));
}

#[test]
fn test_extension_methods() {
    let tuple = (1u8, 2u16, 3u32, 4u64, 5i8);
    assert_eq!(tuple.pop_at::<TupleIndex2>(), (3u32, (1u8, 2u16, 4u64, 5i8)));
    assert_eq!(tuple.split_left_at::<TupleIndex2>(), ((1u8, 2u16, 3u32), (4u64, 5i8)));
    assert_eq!(tuple.split_right_at::<TupleIndex2>(), ((1u8, 2u16), (3u32, 4u64, 5i8)));
    assert_eq!(
        tuple.split_inclusive_at::<TupleIndex2>(),
        ((1u8, 2u16, 3u32), (3u32, 4u64, 5i8))
    );
    let mut tuple = (1u32, "hello", 2u32, 'x', 3u32);
    tuple.swap_at::<TupleIndex0, TupleIndex2>();
    assert_eq!(tuple, (2u32, "hello", 1u32, 'x', 3u32));
}

#[test]
fn test_map_mut_returns_and_writes() {
    let mut tuple = (10u32, 20u64);
    let result = tuple.map_mut(|x: &mut u32| {
        *x += 5;
        *x * 2
    });
    assert_eq!(result, 30u32);
    assert_eq!(tuple, (15u32, 20u64));
    let result = tuple.map_mut::<TupleIndex1, _, _>(|x| {
        *x *= 2;
        *x
    });
    assert_eq!(result, 40u64);
    assert_eq!(tuple, (15u32, 40u64));
}

#[test]
fn test_twelve_elements() {
    let mut tuple = (0u8, 1u16, 2u32, 3u64, 4i8, 5i16, 6i32, 7i64, 8usize, 9isize, 'a', "b");
    assert_eq!(*tuple.get::<TupleIndex11>(), "b");
    assert_eq!(*tuple.get::<<(u8, u16, u32, u64, i8, i16, i32, i64, usize, isize, char, &str) as LastIndex>::Last>(), "b");
    tuple.replace::<TupleIndex10>('z');
    let (left, element, right) = tuple.split_exclusive::<TupleIndex5>();
    assert_eq!(left, (0u8, 1u16, 2u32, 3u64, 4i8));
    assert_eq!(element, 5i16);
    assert_eq!(right, (6i32, 7i64, 8usize, 9isize, 'z', "b"));
    let (last, rest) = tuple.pop::<TupleIndex11>();
    assert_eq!(last, "b");
    assert_eq!(rest, (0u8, 1u16, 2u32, 3u64, 4i8, 5i16, 6i32, 7i64, 8usize, 9isize, 'z'));
}

fn first_of<TT: TypedFirst<u32>>(tuple: &TT) -> &u32 {
    tuple.get_at()
}

fn last_of<TT: TypedLast<u32>>(tuple: &TT) -> &u32 {
    tuple.get_at()
}

fn nth_of<Idx: TupleIndex, TT: TypedNth<Idx>>(tuple: &TT) -> &<TT as NthIndex<Idx>>::NthType {
    tuple.get_at()
}

fn split_around<Idx: Countdown, T, TT: IndexedTuple<Idx, T>>(tuple: TT) -> T {
    tuple.split_exclusive_at().1
}

fn one_before<Idx, TT>(tuple: &TT) -> &<TT as NthIndex<Back<Idx, TupleIndex1>>>::NthType
where
    Idx: Countdown,
    TT: TypedUntil<Idx>,
{
    TypedIndex::<Back<Idx, TupleIndex1>, _>::get_at(tuple)
}

fn two_before<Idx, TT>(tuple: &TT) -> &<TT as NthIndex<Back<Idx, TupleIndex2>>>::NthType
where
    Idx: Countdown,
    TT: TypedUntil<Idx>,
{
    TypedIndex::<Back<Idx, TupleIndex2>, _>::get_at(tuple)
}

fn same_start<Idx, A, B>(a: &A, b: &B) -> bool
where
    Idx: Countdown,
    A: TypedUntil<Idx> + NthIndexedAs<Idx, B>,
    B: TypedUntil<Idx>,
    <B as NthIndex<Idx>>::NthType: PartialEq,
{
    TypedIndex::<Idx, <B as NthIndex<Idx>>::NthType>::get_at(a)
        == TypedIndex::<Idx, <B as NthIndex<Idx>>::NthType>::get_at(b)
}

fn plus_zero<Idx: Countdown>() -> usize {
    <<Idx as TupleIndexAdd<TupleIndex0>>::Output as TupleIndex>::INDEX
}

fn minus_zero<Idx: Countdown>() -> usize {
    <<Idx as TupleIndexSub<TupleIndex0>>::Output as TupleIndex>::INDEX
}

fn minus_itself<Idx: Countdown>() -> usize {
    <<Idx as TupleIndexSub<Idx>>::Output as TupleIndex>::INDEX
}

fn first_by_identity<Idx, TT>(tuple: &TT) -> &u8
where
    Idx: Countdown,
    TT: TypedIndex<<Idx as TupleIndexSub<Idx>>::Output, u8>,
{
    TypedIndex::<TupleIndex0, u8>::get_at(tuple)
}

#[test]
fn test_identities_come_with_the_bound() {
    assert_eq!(plus_zero::<TupleIndex9>(), 9);
    assert_eq!(minus_zero::<TupleIndex9>(), 9);
    assert_eq!(minus_itself::<TupleIndex9>(), 0);
    assert_eq!(plus_zero::<TupleIndex0>(), 0);
    assert_eq!(minus_itself::<TupleIndex63>(), 0);
    assert_eq!(plus_zero::<TupleIndex63>(), 63);
    assert_eq!(*first_by_identity::<TupleIndex5, _>(&(7u8, 'x')), 7u8);
}

#[test]
fn test_counting_back_reaches_the_positions_before() {
    let tuple = (1u8, 2u16, 3u32, 4u64);
    assert_eq!(*one_before::<TupleIndex3, _>(&tuple), 3u32);
    assert_eq!(*two_before::<TupleIndex3, _>(&tuple), 2u16);
    assert_eq!(*one_before::<TupleIndex1, _>(&tuple), 1u8);
    assert_eq!(*two_before::<TupleIndex1, _>(&tuple), 1u8);
    assert_eq!(*one_before::<TupleIndex0, _>(&tuple), 1u8);
    assert_eq!(<Back<TupleIndex3, TupleIndex1> as TupleIndex>::INDEX, 2);
    assert_eq!(<Back<TupleIndex3, TupleIndex11> as TupleIndex>::INDEX, 0);
}

#[test]
fn test_sequences_that_agree_through_a_position() {
    let a = (1u8, 2u16, 3u32, 4u64);
    let b = (1u8, 2u16, 5u32, String::from("other"));
    assert!(same_start::<TupleIndex1, _, _>(&a, &b));
    assert!(!same_start::<TupleIndex2, _, _>(&a, &b));
    assert!(same_start::<TupleIndex0, _, _>(&a, &(1u8,)));
}

#[test]
fn test_first_last_and_nth() {
    assert_eq!(*first_of(&(3u32, 2u16, 1u8)), 3u32);
    assert_eq!(*first_of(&(42u32, "hello", 'x')), 42u32);
    assert_eq!(*last_of(&(1u8, 2u16, 3u32)), 3u32);
    assert_eq!(*last_of(&("hello", 'x', 42u32)), 42u32);
    assert_eq!(*nth_of::<TupleIndex1, _>(&(1u8, 2u16, 3u32)), 2u16);
    assert_eq!(split_around::<TupleIndex1, _, _>((1u8, 2u16, 3u32)), 2u16);
}

struct AgeMarker;

impl TupleKey<(u8, f64, &str)> for AgeMarker {
    type Idx = TupleIndex0;
}

impl TupleKey<(&str, f64, u8, bool)> for AgeMarker {
    type Idx = TupleIndex2;
}

impl TupleKey<(&str, u8, f64)> for AgeMarker {
    type Idx = TupleIndex1;
}

fn age<TT>(tuple: &TT) -> u8
where
    AgeMarker: TupleKey<TT>,
    TT: TypedIndex<<AgeMarker as TupleKey<TT>>::Idx, u8>,
{
    *tuple.get_at()
}

#[test]
fn test_tuple_key() {
    assert_eq!(age(&(15u8, 3.5f64, "Bob")), 15u8);
    assert_eq!(age(&("Charlie", 56u8, 3.5f64)), 56u8);
    assert_eq!(age(&("Diana", 4.2f64, 29u8, true)), 29u8);
}

fn count<TT: TupleLen>(_tuple: &TT) -> usize {
    core::mem::size_of::<TT>()
}

#[test]
fn test_parts_of_a_split_have_the_types_named() {
    let tuple = (1u8, 2u16, 3u32);
    let parts: (
        <(u8, u16, u32) as TypedBounds<TupleIndex1, u16>>::SplitLeftExclusive,
        u16,
        <(u8, u16, u32) as TypedBounds<TupleIndex1, u16>>::SplitRightExclusive,
    ) = tuple.split_exclusive_at();
    assert_eq!(parts, ((1u8,), 2u16, (3u32,)));
    let rest: <(u8, u16, u32) as TypedBounds<TupleIndex1, u16>>::PopOutput = tuple.pop::<TupleIndex1>().1;
    assert_eq!(rest, (1u8, 3u32));
    assert_eq!(count(&()), 0);
}
