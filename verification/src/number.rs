//! Integers as the database holds them.
use vstd::prelude::*;

verus! {

/// The `BIGINT` with the same 64 bits as `x`: values that do not fit a signed integer wrap round
/// to the negative side.
pub open spec fn bigint(x: u64) -> i64 {
    if x <= i64::MAX {
        x as i64
    } else {
        (x - 0x1_0000_0000_0000_0000) as i64
    }
}

/// The same for a list of values.
pub open spec fn bigints(xs: Seq<u64>) -> Seq<i64> {
    xs.map_values(|x: u64| bigint(x))
}

/// The `SMALLINT`s that hold a list of bytes.
pub open spec fn smallints(xs: Seq<u8>) -> Seq<i16> {
    xs.map_values(|x: u8| x as i16)
}

/// The decimal digit for `n`, which is below ten.
pub open spec fn digit(n: nat) -> char {
    (n + '0' as nat) as char
}

/// `n` in decimal notation, without leading zeros.
pub open spec fn decimal(n: nat) -> Seq<char>
    decreases n,
{
    if n < 10 {
        seq![digit(n)]
    } else {
        decimal(n / 10).push(digit(n % 10))
    }
}

/// Reinterprets an unsigned value as a `BIGINT`.
pub fn to_bigint(x: u64) -> (r: i64)
    ensures
        r == bigint(x),
{
    let r: i64 = x as i64;
    assert((x as i64) == (if x <= 0x7fff_ffff_ffff_ffff {
        x as int
    } else {
        x - 0x1_0000_0000_0000_0000
    })) by (bit_vector);
    r
}

/// Reinterprets each value of a list as a `BIGINT`.
pub fn to_bigints(xs: &Vec<u64>) -> (r: Vec<i64>)
    ensures
        r@ == bigints(xs@),
{
    let mut r: Vec<i64> = Vec::with_capacity(xs.len());
    for i in 0..xs.len()
        invariant
            r@ == bigints(xs@.take(i as int)),
    {
        r.push(to_bigint(xs[i]));
        assert(r@ =~= bigints(xs@.take(i + 1)));
    }
    assert(xs@.take(xs@.len() as int) =~= xs@);
    r
}

/// Widens each byte of a list to a `SMALLINT`.
pub fn to_smallints(xs: &Vec<u8>) -> (r: Vec<i16>)
    ensures
        r@ == smallints(xs@),
{
    let mut r: Vec<i16> = Vec::with_capacity(xs.len());
    for i in 0..xs.len()
        invariant
            r@ == smallints(xs@.take(i as int)),
    {
        r.push(xs[i] as i16);
        assert(r@ =~= smallints(xs@.take(i + 1)));
    }
    assert(xs@.take(xs@.len() as int) =~= xs@);
    r
}

/// Copies a list of byte strings of a fixed length.
pub fn to_byte_strings<const N: usize>(xs: &Vec<[u8; N]>) -> (r: Vec<Vec<u8>>)
    ensures
        r.deep_view() == xs.deep_view(),
{
    let mut r: Vec<Vec<u8>> = Vec::with_capacity(xs.len());
    for i in 0..xs.len()
        invariant
            r@.len() == i,
            r.deep_view() == xs.deep_view().take(i as int),
    {
        let ghost before = r.deep_view();
        r.push(vstd::slice::slice_to_vec(xs[i].as_slice()));
        assert(r@[i as int].deep_view() =~= xs@[i as int].deep_view());
        assert(r.deep_view() =~= before.push(xs@[i as int].deep_view()));
        assert(r.deep_view() =~= xs.deep_view().take(i + 1));
    }
    assert(xs.deep_view().take(xs@.len() as int) =~= xs.deep_view());
    r
}

} // verus!
