//! Bit counting on 32-bit words.

use vstd::prelude::*;
use vstd::arithmetic::power2::{lemma2_to64, lemma_pow2_unfold, pow2};

verus! {

/// Number of one bits in the binary representation of `x`.
pub open spec fn popcount(x: u32) -> nat
    decreases x,
{
    if x == 0 {
        0
    } else {
        (x % 2) as nat + popcount(x / 2)
    }
}

/// Position of the most significant one bit of `x`, counted from the least
/// significant bit; 0 for `x == 0`.
pub open spec fn highest_set_bit(x: u32) -> nat
    decreases x,
{
    if x <= 1 {
        0
    } else {
        1 + highest_set_bit(x / 2)
    }
}

/// A word below `2^k` has at most `k` one bits, the highest of them below `k`.
pub proof fn lemma_bit_bounds(x: u32, k: nat)
    requires
        x < pow2(k),
    ensures
        popcount(x) <= k,
        highest_set_bit(x) < k || k == 0,
        highest_set_bit(x) <= k,
    decreases k,
{
    if k == 0 {
        lemma2_to64();
    } else {
        lemma_pow2_unfold(k);
        lemma_bit_bounds(x / 2, (k - 1) as nat);
        if k == 1 {
            lemma2_to64();
        }
    }
}

/// Every 32-bit word has at most 32 one bits, at positions 0 to 31.
pub proof fn lemma_bit_bounds_u32(x: u32)
    ensures
        popcount(x) <= 32,
        highest_set_bit(x) <= 31,
        x != 0 ==> popcount(x) >= 1,
{
    lemma2_to64();
    lemma_bit_bounds(x, 32);
    lemma_popcount_positive(x);
}

/// A word other than zero has a one bit.
pub proof fn lemma_popcount_positive(x: u32)
    ensures
        x != 0 ==> popcount(x) >= 1,
    decreases x,
{
    if x != 0 && x % 2 == 0 {
        lemma_popcount_positive(x / 2);
    }
}

/// A word with exactly one one bit is the power of two at its highest set bit.
pub proof fn lemma_single_bit(x: u32)
    requires
        popcount(x) == 1,
    ensures
        x == pow2(highest_set_bit(x)),
    decreases x,
{
    lemma2_to64();
    if x > 1 {
        lemma_popcount_positive(x / 2);
        lemma_single_bit(x / 2);
        lemma_pow2_unfold(highest_set_bit(x));
    }
}

/// The power of two at position `bit` has exactly that one bit.
pub proof fn lemma_pow2_single_bit(bit: nat)
    requires
        bit < 32,
    ensures
        pow2(bit) <= u32::MAX,
        popcount(pow2(bit) as u32) == 1,
        highest_set_bit(pow2(bit) as u32) == bit,
    decreases bit,
{
    lemma2_to64();
    if bit == 0 {
        assert(popcount(1u32) == 1) by {
            assert(popcount(0u32) == 0);
        }
    } else {
        lemma_pow2_single_bit((bit - 1) as nat);
        lemma_pow2_unfold(bit);
        lemma_pow2_strictly_below(bit);
        let x = pow2(bit) as u32;
        assert(x / 2 == pow2((bit - 1) as nat));
        assert(x % 2 == 0);
    }
}

/// Powers of two below position 32 fit in 32 bits.
pub proof fn lemma_pow2_strictly_below(bit: nat)
    requires
        bit < 32,
    ensures
        0 < pow2(bit) <= 0x8000_0000,
    decreases bit,
{
    lemma2_to64();
    if bit > 0 {
        lemma_pow2_strictly_below((bit - 1) as nat);
        lemma_pow2_unfold(bit);
    }
}

/// Counts the one bits of `x`.
pub fn count_one_bits(x: u32) -> (count: u32)
    ensures
        count == popcount(x),
        count <= 32,
{
    let mut rest: u32 = x;
    let mut count: u32 = 0;
    proof {
        lemma_bit_bounds_u32(x);
    }
    while rest != 0
        invariant
            count + popcount(rest) == popcount(x),
            popcount(x) <= 32,
        decreases rest,
    {
        count = count + rest % 2;
        rest = rest / 2;
    }
    count
}

/// Finds the position of the most significant one bit of `x`.
pub fn first_leading_bit(x: u32) -> (bit: u32)
    ensures
        bit == highest_set_bit(x),
        bit <= 31,
{
    let mut rest: u32 = x;
    let mut bit: u32 = 0;
    proof {
        lemma_bit_bounds_u32(x);
    }
    while rest > 1
        invariant
            bit + highest_set_bit(rest) == highest_set_bit(x),
            highest_set_bit(x) <= 31,
        decreases rest,
    {
        bit = bit + 1;
        rest = rest / 2;
    }
    bit
}

} // verus!
