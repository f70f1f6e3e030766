//! The numbers of the screen, which have 32 bits.

use vstd::prelude::*;

verus! {

/// The number from `-2^31` to `2^31 - 1` that differs from `n` by a multiple
/// of `2^32`.
pub open spec fn wrap32(n: int) -> i32 {
    ((n + 0x8000_0000) % 0x1_0000_0000 - 0x8000_0000) as i32
}

/// The low 32 bits of `n`, as a signed number.
pub fn low32(n: i64) -> (r: i32)
    ensures
        r == wrap32(n as int),
{
    #[verifier::truncate]
    let r: i32 = n as i32;
    assert(r == (n + 0x8000_0000) % 0x1_0000_0000 - 0x8000_0000) by (bit_vector)
        requires
            r == n as i32,
    ;
    r
}

/// The low 32 bits of a count, as a signed number.
pub fn count32(n: usize) -> (r: i32)
    ensures
        r == wrap32(n as int),
{
    let wide: u64 = n as u64;
    #[verifier::truncate]
    let r: i32 = wide as i32;
    assert(r == (wide + 0x8000_0000) % 0x1_0000_0000 - 0x8000_0000) by (bit_vector)
        requires
            r == wide as i32,
    ;
    r
}

/// A number that has 32 bits is shown as it is.
pub proof fn law_small_numbers_are_kept(n: int)
    requires
        i32::MIN <= n <= i32::MAX,
    ensures
        wrap32(n) == n,
{
}

/// The number shown for any number has its low 32 bits, and is the number
/// itself where 32 bits hold it.
pub proof fn law_low_bits_are_kept(n: int)
    ensures
        (wrap32(n) - n) % 0x1_0000_0000 == 0,
        i32::MIN <= n <= i32::MAX ==> wrap32(n) == n,
{
}

} // verus!
