use vstd::prelude::*;
use vstd::arithmetic::power2::{pow2, lemma_pow2_pos, lemma_pow2_unfold, lemma_pow2_strictly_increases};
use vstd::bits::{lemma_usize_shl_is_mul, lemma_usize_pow2_no_overflow, low_bits_mask,
    lemma_usize_low_bits_mask_is_mod};

verus! {

/// `1 << c` as a usize is `2^c` for every class a block can have.
pub proof fn lemma_shl_pow2(c: usize)
    requires
        c < 32,
    ensures
        (1usize << c) as int == pow2(c as nat),
        pow2(c as nat) > 0,
{
    lemma_usize_pow2_no_overflow(c as nat);
    lemma_usize_shl_is_mul(1, c);
}

/// The buddy of an aligned block sits just above it when bit `c` is clear,
/// just below it when bit `c` is set, and the lower of the two is aligned to
/// the next class `d = c + 1`. Alignment is written with the low-bit mask.
pub proof fn lemma_buddy_bits(a: usize, c: usize, d: usize)
    requires
        c < 31,
        d == c + 1,
        a & (((1usize << c) - 1usize) as usize) == 0,
    ensures
        a & (1usize << c) == 0 ==> (a ^ (1usize << c)) == a + (1usize << c),
        a & (1usize << c) == 0 ==> a & (((1usize << d) - 1usize) as usize) == 0,
        a & (1usize << c) != 0 ==> (a ^ (1usize << c)) == a - (1usize << c),
        a & (1usize << c) != 0 ==> ((a - (1usize << c)) as usize) & (((1usize << d) - 1usize) as usize) == 0,
        (1usize << d) == (1usize << c) + (1usize << c),
{
    assert(a & (1usize << c) == 0 ==> (a ^ (1usize << c)) == a + (1usize << c)) by (bit_vector)
        requires c < 31, a & (((1usize << c) - 1usize) as usize) == 0;
    assert(a & (1usize << c) == 0 ==> a & (((1usize << d) - 1usize) as usize) == 0) by (bit_vector)
        requires c < 31, d == c + 1, a & (((1usize << c) - 1usize) as usize) == 0;
    assert(a & (1usize << c) != 0 ==> (a ^ (1usize << c)) == a - (1usize << c)) by (bit_vector)
        requires c < 31, a & (((1usize << c) - 1usize) as usize) == 0;
    assert(a & (1usize << c) != 0 ==> ((a - (1usize << c)) as usize) & (((1usize << d) - 1usize) as usize) == 0) by (bit_vector)
        requires c < 31, d == c + 1, a & (((1usize << c) - 1usize) as usize) == 0;
    assert((1usize << d) == (1usize << c) + (1usize << c)) by (bit_vector)
        requires c < 31, d == c + 1;
}

/// The buddy of a block aligned to `2^c` is the block just above it or just
/// below it, and the lower of the two is aligned to `2^(c+1)`.
pub proof fn lemma_buddy(a: usize, c: usize)
    requires
        c < 31,
        a as int % pow2(c as nat) as int == 0,
    ensures
        ((a ^ (1usize << c)) as int == a + pow2(c as nat) && a as int % pow2((c + 1) as nat) as int == 0)
            || ((a ^ (1usize << c)) as int == a - pow2(c as nat) && (a ^ (1usize << c)) as int % pow2(
            (c + 1) as nat) as int == 0),
{
    lemma_shl_pow2(c);
    lemma_shl_pow2((c + 1) as usize);
    lemma_usize_pow2_no_overflow(c as nat);
    lemma_usize_pow2_no_overflow((c + 1) as nat);
    lemma_usize_low_bits_mask_is_mod(a, c as nat);
    assert(((1usize << c) - 1usize) as usize == low_bits_mask(c as nat) as usize);
    lemma_buddy_bits(a, c, (c + 1) as usize);
    let b = a ^ (1usize << c);
    if a & (1usize << c) == 0 {
        lemma_usize_low_bits_mask_is_mod(a, (c + 1) as nat);
        assert(((1usize << ((c + 1) as usize)) - 1usize) as usize == low_bits_mask((c + 1) as nat) as usize);
    } else {
        lemma_usize_low_bits_mask_is_mod(b, (c + 1) as nat);
        assert(((1usize << ((c + 1) as usize)) - 1usize) as usize == low_bits_mask((c + 1) as nat) as usize);
    }
}

} // verus!
