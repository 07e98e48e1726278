use vstd::prelude::*;
use vstd::arithmetic::power2::{
    lemma2_to64, lemma_pow2_strictly_increases, lemma_pow2_unfold, pow2,
};
use vstd::bits::lemma_u32_shl_is_mul;

verus! {

/// The 32-bit word that the mathematical integer `x` wraps to.
pub open spec fn wrap(x: int) -> u32 {
    (x % 0x1_0000_0000) as u32
}

/// Bit `i` of `x`, as 0 or 1.
pub open spec fn bit(x: u32, i: u32) -> u32 {
    (x >> i) & 1u32
}

/// The value of the low `width` bits of `x`, read as a two's-complement number.
pub open spec fn signed_value(x: u32, width: nat) -> int
    recommends
        1 <= width <= 32,
{
    let m = x as int % pow2(width) as int;
    if m >= pow2((width - 1) as nat) {
        m - pow2(width)
    } else {
        m
    }
}

/// Sign-extends the low `width` bits of `value`.
pub fn sign_extend(value: u32, width: u32) -> (r: i32)
    requires
        1 <= width < 32,
    ensures
        r == signed_value(value, width as nat),
        -pow2((width - 1) as nat) <= r < pow2((width - 1) as nat),
{
    proof {
        lemma_pow2_strictly_increases(width as nat, 32);
        lemma_pow2_strictly_increases((width - 1) as nat, 31);
        lemma2_to64();
        lemma_u32_shl_is_mul(1, width);
        lemma_pow2_unfold(width as nat);
    }
    let size: u32 = 1u32 << width;
    let half: u32 = size / 2;
    let m: u32 = value % size;
    if m >= half {
        (m as i64 - size as i64) as i32
    } else {
        m as i32
    }
}

/// Adds two words with wrap-around.
pub fn add_wrapping(a: u32, b: u32) -> (r: u32)
    ensures
        r == wrap(a + b),
{
    let r = a.wrapping_add(b);
    assert(r == wrap(a + b));
    r
}

/// Subtracts two words with wrap-around.
pub fn sub_wrapping(a: u32, b: u32) -> (r: u32)
    ensures
        r == wrap(a - b),
{
    let r = a.wrapping_sub(b);
    assert(r == wrap(a - b));
    r
}

} // verus!

verus! {

/// Adds a signed amount to a word with wrap-around.
pub fn add_signed_wrapping(a: u32, b: i32) -> (r: u32)
    ensures
        r == wrap(a + b),
{
    let r = a.wrapping_add_signed(b);
    assert(r == wrap(a + b));
    r
}

} // verus!
