use vstd::prelude::*;

verus! {

/// `2^64`, the modulus of `u64` arithmetic.
pub open spec fn pow2_64() -> int {
    0x1_0000_0000_0000_0000
}

/// The value that the cast of a signed clock reading to `u64` gives:
/// negative readings wrap around modulo `2^64`.
pub open spec fn wrap_i64_to_u64(t: int) -> int {
    if t >= 0 {
        t
    } else {
        t + pow2_64()
    }
}

/// The value that the cast of a `u64` to `i64` gives: values above
/// `i64::MAX` wrap around to negative ones.
pub open spec fn wrap_u64_to_i64(x: int) -> int {
    if x <= i64::MAX {
        x
    } else {
        x - pow2_64()
    }
}

/// `i64` subtraction that stops at the type's bounds.
pub open spec fn saturating_sub_i64(a: int, b: int) -> int {
    if a - b > i64::MAX {
        i64::MAX as int
    } else if a - b < i64::MIN {
        i64::MIN as int
    } else {
        a - b
    }
}

/// The smaller of two integers.
pub open spec fn min_int(a: int, b: int) -> int {
    if a <= b {
        a
    } else {
        b
    }
}

/// Reinterprets a signed value as unsigned (the `as u64` cast).
pub fn i64_as_u64(t: i64) -> (r: u64)
    ensures
        r == wrap_i64_to_u64(t as int),
{
    assert(t < 0 ==> (t as u64) as int == t + 0x1_0000_0000_0000_0000) by (bit_vector);
    assert(t >= 0 ==> (t as u64) as int == t) by (bit_vector);
    t as u64
}

/// Reinterprets an unsigned value as signed (the `as i64` cast).
pub fn u64_as_i64(x: u64) -> (r: i64)
    ensures
        r == wrap_u64_to_i64(x as int),
{
    assert(x > 0x7fff_ffff_ffff_ffff ==> (x as i64) as int == x - 0x1_0000_0000_0000_0000)
        by (bit_vector);
    assert(x <= 0x7fff_ffff_ffff_ffff ==> (x as i64) as int == x) by (bit_vector);
    x as i64
}

/// Keeps the low 64 bits of a `u128` (the `as u64` cast).
pub fn u128_as_u64(x: u128) -> (r: u64)
    ensures
        r == (x as int) % pow2_64(),
{
    assert((x as u64) as int == x % 0x1_0000_0000_0000_0000) by (bit_vector);
    x as u64
}

/// `i64` subtraction that saturates at the type's bounds.
pub fn i64_saturating_sub(a: i64, b: i64) -> (r: i64)
    ensures
        r == saturating_sub_i64(a as int, b as int),
{
    match a.checked_sub(b) {
        Some(d) => d,
        None => {
            if b < 0 {
                i64::MAX
            } else {
                i64::MIN
            }
        },
    }
}

} // verus!
