use geyser_postgres_transaction::number::{to_bigint, to_bigints, to_byte_strings, to_smallints};

#[test]
fn bigint_wraps_to_the_negative_side() {
    assert_eq!(to_bigint(0), 0);
    assert_eq!(to_bigint(42), 42);
    assert_eq!(to_bigint(9_223_372_036_854_775_807), i64::MAX);
    assert_eq!(to_bigint(9_223_372_036_854_775_808), i64::MIN);
    assert_eq!(to_bigint(u64::MAX), -1);
}

#[test]
fn lists_are_stored_in_order() {
    assert_eq!(to_bigints(&vec![1, u64::MAX, 7]), vec![1i64, -1, 7]);
    assert_eq!(to_bigints(&vec![]), Vec::<i64>::new());
    assert_eq!(to_smallints(&vec![0, 127, 128, 255]), vec![0i16, 127, 128, 255]);
    assert_eq!(to_byte_strings(&vec![[1u8, 2], [3, 4]]), vec![vec![1u8, 2], vec![3, 4]]);
}
