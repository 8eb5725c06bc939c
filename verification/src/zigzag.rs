//! ZigZag decoding of signed coordinates stored as unsigned integers.

use vstd::prelude::*;

verus! {

/// The signed integer that the ZigZag code `u` stands for: even codes are the
/// non-negative numbers in order, odd codes the negative ones.
pub open spec fn zigzag(u: u32) -> int {
    if u % 2 == 0 {
        (u / 2) as int
    } else {
        -((u / 2) as int) - 1
    }
}

/// Every ZigZag code stands for a value of `i32`.
pub proof fn zigzag_in_range(u: u32)
    ensures
        i32::MIN <= zigzag(u) <= i32::MAX,
{
}

/// Two different codes never stand for the same value.
pub proof fn zigzag_injective(a: u32, b: u32)
    requires
        zigzag(a) == zigzag(b),
    ensures
        a == b,
{
}

/// Every value of `i32` is the value of some code.
pub proof fn zigzag_surjective(v: i32) -> (u: u32)
    ensures
        zigzag(u) == v,
{
    if v >= 0 {
        (2 * v) as u32
    } else {
        (-2 * v - 1) as u32
    }
}

/// The value of a code is its upper bits, all of them flipped where the
/// lowest bit is set: `(u >> 1) ^ -(u & 1)` in two's complement.
pub proof fn zigzag_is_shift_and_flip(u: u32)
    ensures
        u & 1 == 0 ==> zigzag(u) == u >> 1,
        u & 1 == 1 ==> zigzag(u) == -((u >> 1) as int) - 1,
        u & 1 == 0 || u & 1 == 1,
{
    assert((u >> 1) == u / 2 && (u & 1) == u % 2) by (bit_vector);
}

/// Decodes one ZigZag code: `(u >> 1) ^ -(u & 1)`.
pub fn zagzig(u: u32) -> (v: i32)
    ensures
        v == zigzag(u),
{
    let half: u32 = u >> 1;
    let low: u32 = u & 1;
    assert(half == u / 2 && low == u % 2 && half <= 0x7fff_ffff) by (bit_vector)
        requires
            half == u >> 1,
            low == u & 1,
    ;
    let magnitude: i32 = half as i32;
    let mask: i32 = -(low as i32);
    assert(magnitude ^ mask == if low == 0 { magnitude as int } else { -magnitude - 1 }) by (bit_vector)
        requires
            0 <= magnitude,
            mask == if low == 0 { 0i32 } else { -1i32 },
    ;
    magnitude ^ mask
}

} // verus!
