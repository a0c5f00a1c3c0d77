//! Tests for the rows of implementations and for reading the maximum length.

use typed_tuple::generator::{
    extract_family, extract_from, impl_typed_extract, impl_typed_index, impl_typed_split,
    index_family, index_from, split_from,
    positions, split_family, typed_extract_impls, typed_index_impls, typed_split_impls, ExtractImpl,
    IndexImpl, SplitImpl,
};
use typed_tuple::scale::{
    openers, parse_decimal, parse_int, scale_of, Literal, ScaleError, MAX_NESTING,
};

#[test]
fn test_positions() {
    assert_eq!(positions(0, 0), Vec::<usize>::new());
    assert_eq!(positions(0, 3), vec![0, 1, 2]);
    assert_eq!(positions(2, 5), vec![2, 3, 4]);
    assert_eq!(positions(5, 2), Vec::<usize>::new());
}

#[test]
fn test_index_rows() {
    assert_eq!(typed_index_impls(0), Vec::<IndexImpl>::new());
    assert_eq!(
        typed_index_impls(3),
        vec![
            IndexImpl { len: 3, index: 0 },
            IndexImpl { len: 3, index: 1 },
            IndexImpl { len: 3, index: 2 },
        ]
    );
}

#[test]
fn test_parts_around_a_position() {
    let row = IndexImpl { len: 5, index: 2 };
    assert_eq!(row.left_exclusive(), vec![0, 1]);
    assert_eq!(row.left_inclusive(), vec![0, 1, 2]);
    assert_eq!(row.right_exclusive(), vec![3, 4]);
    assert_eq!(row.right_inclusive(), vec![2, 3, 4]);
    assert_eq!(row.pop_remainder(), vec![0, 1, 3, 4]);
    let first = IndexImpl { len: 3, index: 0 };
    assert_eq!(first.left_exclusive(), Vec::<usize>::new());
    assert_eq!(first.right_inclusive(), vec![0, 1, 2]);
    let last = IndexImpl { len: 3, index: 2 };
    assert_eq!(last.right_exclusive(), Vec::<usize>::new());
    assert_eq!(last.left_inclusive(), vec![0, 1, 2]);
    let only = IndexImpl { len: 1, index: 0 };
    assert_eq!(only.left_exclusive(), Vec::<usize>::new());
    assert_eq!(only.right_exclusive(), Vec::<usize>::new());
    assert_eq!(only.pop_remainder(), Vec::<usize>::new());
}

#[test]
fn test_parts_fit_together_at_every_position() {
    for row in index_family(64) {
        let all = positions(0, row.len);
        let mut joined = row.left_exclusive();
        joined.push(row.index);
        assert_eq!(joined, row.left_inclusive());
        joined.extend(row.right_exclusive());
        assert_eq!(joined, all);
        let mut joined = row.left_exclusive();
        joined.extend(row.right_inclusive());
        assert_eq!(joined, all);
        assert_eq!(row.pop_remainder().len(), row.len - 1);
        assert!(!row.pop_remainder().contains(&row.index));
    }
}

#[test]
fn test_split_rows() {
    assert_eq!(typed_split_impls(0), vec![SplitImpl { len: 0, index: 0 }]);
    let rows = typed_split_impls(2);
    assert_eq!(
        rows,
        vec![
            SplitImpl { len: 2, index: 0 },
            SplitImpl { len: 2, index: 1 },
            SplitImpl { len: 2, index: 2 },
        ]
    );
    assert_eq!(rows[0].left(), Vec::<usize>::new());
    assert_eq!(rows[0].right(), vec![0, 1]);
    assert_eq!(rows[1].left(), vec![0]);
    assert_eq!(rows[1].right(), vec![1]);
    assert_eq!(rows[2].left(), vec![0, 1]);
    assert_eq!(rows[2].right(), Vec::<usize>::new());
}

#[test]
fn test_split_parts_cover_the_sequence() {
    for row in split_family(12) {
        let mut all = row.left();
        all.extend(row.right());
        assert_eq!(all, positions(0, row.len));
        assert_eq!(row.left().len(), row.index);
    }
}

#[test]
fn test_extract_rows() {
    assert_eq!(typed_extract_impls(0), Vec::<ExtractImpl>::new());
    assert_eq!(
        typed_extract_impls(2),
        vec![
            ExtractImpl { len: 2, start: 0, end: 0 },
            ExtractImpl { len: 2, start: 0, end: 1 },
            ExtractImpl { len: 2, start: 0, end: 2 },
            ExtractImpl { len: 2, start: 1, end: 1 },
            ExtractImpl { len: 2, start: 1, end: 2 },
        ]
    );
    let row = ExtractImpl { len: 8, start: 1, end: 4 };
    assert_eq!(row.fields(), vec![1, 2, 3]);
    let full = ExtractImpl { len: 3, start: 0, end: 3 };
    assert_eq!(full.fields(), positions(0, 3));
}

#[test]
fn test_family_sizes() {
    assert_eq!(index_family(0).len(), 0);
    assert_eq!(index_family(12).len(), 78);
    assert_eq!(split_family(0).len(), 0);
    assert_eq!(split_family(12).len(), 90);
    assert_eq!(extract_family(0).len(), 0);
    assert_eq!(extract_family(1).len(), 2);
    assert_eq!(extract_family(12).len(), 442);
}

#[test]
fn test_families_go_by_length() {
    assert_eq!(
        index_family(2),
        vec![
            IndexImpl { len: 1, index: 0 },
            IndexImpl { len: 2, index: 0 },
            IndexImpl { len: 2, index: 1 },
        ]
    );
    assert_eq!(
        split_family(2),
        vec![
            SplitImpl { len: 1, index: 0 },
            SplitImpl { len: 1, index: 1 },
            SplitImpl { len: 2, index: 0 },
            SplitImpl { len: 2, index: 1 },
            SplitImpl { len: 2, index: 2 },
        ]
    );
    let family = extract_family(3);
    assert!(family.contains(&ExtractImpl { len: 3, start: 0, end: 3 }));
    assert!(family.contains(&ExtractImpl { len: 3, start: 2, end: 2 }));
    assert!(family.contains(&ExtractImpl { len: 1, start: 0, end: 0 }));
    assert!(!family.contains(&ExtractImpl { len: 3, start: 3, end: 3 }));
    assert!(!family.contains(&ExtractImpl { len: 3, start: 2, end: 1 }));
}

#[test]
fn test_parse_int_reads_literals() {
    assert!(matches!(parse_int("12"), Ok(12)));
    assert!(matches!(parse_int("0"), Ok(0)));
    assert!(matches!(parse_int(" 64 "), Ok(64)));
    assert!(matches!(parse_int("1_000"), Ok(1000)));
    assert!(matches!(parse_int("0x10"), Ok(16)));
    assert!(matches!(parse_int("0b101"), Ok(5)));
    assert!(matches!(parse_int("12usize"), Ok(12)));
}

#[test]
fn test_parse_int_refuses_what_is_no_literal() {
    assert!(matches!(parse_int(""), Err(ScaleError::Syntax(_))));
    assert!(matches!(parse_int("twelve"), Err(ScaleError::Syntax(_))));
    assert!(matches!(parse_int("1 + 2"), Err(ScaleError::Syntax(_))));
    assert!(matches!(parse_int("12 13"), Err(ScaleError::Syntax(_))));
}

#[test]
fn test_parse_int_refuses_other_literals() {
    assert!(matches!(parse_int("\"12\""), Err(ScaleError::ExpectedInteger)));
    assert!(matches!(parse_int("1.5"), Err(ScaleError::ExpectedInteger)));
    assert!(matches!(parse_int("true"), Err(ScaleError::ExpectedInteger)));
    assert!(matches!(parse_int("'1'"), Err(ScaleError::ExpectedInteger)));
}

#[test]
fn test_parse_int_refuses_negative_literals() {
    assert!(matches!(parse_int("-5"), Err(ScaleError::InvalidDigit)));
    assert!(matches!(parse_int("-0"), Err(ScaleError::InvalidDigit)));
    assert!(matches!(scale_of(&Literal::Int(String::from("-5"))), Err(ScaleError::InvalidDigit)));
}

#[test]
fn test_parse_int_refuses_what_does_not_fit() {
    assert!(matches!(parse_int("340282366920938463463374607431768211456"), Err(ScaleError::Overflow)));
    assert!(matches!(parse_int("18446744073709551615"), Ok(18446744073709551615usize)));
}

#[test]
fn test_parse_decimal() {
    assert!(matches!(parse_decimal("0"), Ok(0)));
    assert!(matches!(parse_decimal("007"), Ok(7)));
    assert!(matches!(parse_decimal("128"), Ok(128)));
    assert!(matches!(parse_decimal(""), Err(ScaleError::Empty)));
    assert!(matches!(parse_decimal("12a"), Err(ScaleError::InvalidDigit)));
    assert!(matches!(parse_decimal("+12"), Err(ScaleError::InvalidDigit)));
    assert!(matches!(parse_decimal("1_2"), Err(ScaleError::InvalidDigit)));
    assert!(matches!(parse_decimal("99999999999999999999999999"), Err(ScaleError::Overflow)));
    assert!(matches!(parse_decimal("99999999999999999999999999x"), Err(ScaleError::InvalidDigit)));
    assert!(matches!(parse_decimal(&usize::MAX.to_string()), Ok(usize::MAX)));
}

#[test]
fn test_scale_of() {
    assert!(matches!(scale_of(&Literal::Int(String::from("64"))), Ok(64)));
    assert!(matches!(scale_of(&Literal::Other), Err(ScaleError::ExpectedInteger)));
    assert!(matches!(scale_of(&Literal::Int(String::new())), Err(ScaleError::Empty)));
}

#[test]
fn test_messages() {
    assert_eq!(ScaleError::ExpectedInteger.message(), "Expected integer literal");
    assert_ne!(ScaleError::TooDeep.message(), ScaleError::Overflow.message());
    assert_ne!(ScaleError::Empty.message(), ScaleError::InvalidDigit.message());
}

#[test]
fn test_drivers() {
    assert_eq!(impl_typed_index("2").unwrap(), index_family(2));
    assert_eq!(impl_typed_split("2").unwrap(), split_family(2));
    assert_eq!(impl_typed_extract("2").unwrap(), extract_family(2));
    assert_eq!(impl_typed_index("12").unwrap().len(), 78);
    assert!(matches!(impl_typed_index("x"), Err(ScaleError::Syntax(_))));
    assert!(matches!(impl_typed_split("\"2\""), Err(ScaleError::ExpectedInteger)));
    assert!(matches!(
        impl_typed_extract("340282366920938463463374607431768211456"),
        Err(ScaleError::Overflow)
    ));
    assert!(matches!(impl_typed_index(&"(".repeat(65)), Err(ScaleError::TooDeep)));
}

#[test]
fn test_rows_from_what_was_read() {
    assert_eq!(index_from(Ok(2)).unwrap(), index_family(2));
    assert_eq!(split_from(Ok(0)).unwrap(), split_family(0));
    assert_eq!(extract_from(Ok(3)).unwrap(), extract_family(3));
    assert!(matches!(index_from(Err(ScaleError::Overflow)), Err(ScaleError::Overflow)));
    assert!(matches!(split_from(Err(ScaleError::TooDeep)), Err(ScaleError::TooDeep)));
    assert!(matches!(extract_from(Err(ScaleError::Empty)), Err(ScaleError::Empty)));
}

#[test]
fn test_openers() {
    assert_eq!(openers(""), 0);
    assert_eq!(openers("12"), 0);
    assert_eq!(openers("([{"), 3);
    assert_eq!(openers("f(x)[0] }"), 2);
    assert_eq!(openers("\"(\""), 1);
    assert_eq!(MAX_NESTING, 64);
}

#[test]
fn test_parse_int_refuses_deep_nesting() {
    let deep = "(".repeat(65);
    assert!(matches!(parse_int(&deep), Err(ScaleError::TooDeep)));
    let balanced = format!("{}1{}", "(".repeat(65), ")".repeat(65));
    assert!(matches!(parse_int(&balanced), Err(ScaleError::TooDeep)));
    let in_a_string = format!("\"{}\"", "[".repeat(65));
    assert!(matches!(parse_int(&in_a_string), Err(ScaleError::TooDeep)));
}

#[test]
fn test_parse_int_reads_up_to_the_nesting_bound() {
    let open = "(".repeat(64);
    assert!(matches!(parse_int(&open), Err(ScaleError::Syntax(_))));
    let balanced = format!("{}1{}", "(".repeat(64), ")".repeat(64));
    assert!(matches!(parse_int(&balanced), Err(ScaleError::Syntax(_))));
    let in_a_string = format!("\"{}\"", "{".repeat(64));
    assert!(matches!(parse_int(&in_a_string), Err(ScaleError::ExpectedInteger)));
}

#[test]
fn test_syntax_error_is_the_one_of_syn() {
    match parse_int("twelve") {
        Err(ScaleError::Syntax(inner)) => assert_eq!(inner.to_string(), "expected literal"),
        other => panic!("{:?}", other),
    }
}
