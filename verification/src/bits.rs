//! Bit-scan primitives over sixteen-bit values: `fls` finds the highest set
//! bit, `ffs` the lowest. The mapping engine reads `fls(size)` as the
//! power-of-two bracket that `size` falls in.

use vstd::prelude::*;

verus! {

use vstd::arithmetic::power2::pow2;
use vstd::arithmetic::power2::lemma2_to64;
use vstd::arithmetic::power2::lemma_pow2_unfold;
use vstd::arithmetic::power2::lemma_pow2_strictly_increases;
use vstd::bits::lemma_u16_low_bits_mask_is_mod;
use vstd::bits::lemma_u16_shl_is_mul;
use vstd::bits::low_bits_mask;
use vstd::std_specs::bits::axiom_u16_leading_zeros;
use vstd::std_specs::bits::axiom_u16_trailing_zeros;
use vstd::std_specs::bits::u16_leading_zeros;
use vstd::std_specs::bits::u16_trailing_zeros;

/// Position of the highest set bit of `x`: the floor of the base-two
/// logarithm, with `spec_fls(x) == 0` for the empty value.
pub open spec fn spec_fls(x: int) -> nat
    recommends
        x >= 1,
    decreases x,
{
    if x < 2 {
        0
    } else {
        (1 + spec_fls(x / 2)) as nat
    }
}

/// `spec_fls(x)` names the power-of-two bracket holding `x`:
/// `pow2(spec_fls(x)) <= x < pow2(spec_fls(x) + 1)`.
pub proof fn lemma_fls_bounds(x: int)
    requires
        x >= 1,
    ensures
        pow2(spec_fls(x)) <= x < pow2(spec_fls(x) + 1),
    decreases x,
{
    if x < 2 {
        lemma2_to64();
    } else {
        lemma_fls_bounds(x / 2);
        let f: nat = spec_fls(x / 2);
        lemma_pow2_unfold(f + 1);
        lemma_pow2_unfold(f + 2);
    }
}

/// Larger values never fall in a lower bracket.
pub proof fn lemma_fls_monotonic(x: int, y: int)
    requires
        1 <= x <= y,
    ensures
        spec_fls(x) <= spec_fls(y),
{
    lemma_fls_bounds(x);
    lemma_fls_bounds(y);
    if spec_fls(y) < spec_fls(x) {
        if spec_fls(y) + 1 < spec_fls(x) {
            lemma_pow2_strictly_increases(spec_fls(y) + 1, spec_fls(x));
        }
        assert(pow2(spec_fls(y) + 1) <= pow2(spec_fls(x)));
    }
}

/// Only one power-of-two bracket holds `x`: the bracket bounds determine the
/// bit position.
pub proof fn lemma_fls_unique(x: int, g: nat)
    requires
        x >= 1,
        pow2(g) <= x < pow2(g + 1),
    ensures
        spec_fls(x) == g,
{
    lemma_fls_bounds(x);
    let f: nat = spec_fls(x);
    if f < g {
        if f + 1 < g {
            lemma_pow2_strictly_increases(f + 1, g);
        }
        assert(pow2(f + 1) <= pow2(g));
    }
    if f > g {
        if g + 1 < f {
            lemma_pow2_strictly_increases(g + 1, f);
        }
        assert(pow2(g + 1) <= pow2(f));
    }
}

/// A value whose bits above position `r` are clear and whose bit `r` is set
/// has its highest set bit exactly at `r`.
pub proof fn lemma_fls_of_shifted(x: u16, r: u16)
    requires
        r < 16,
        x >> r == 1,
    ensures
        spec_fls(x as int) == r,
    decreases r,
{
    if r == 0 {
        assert(x == 1) by (bit_vector)
            requires
                x >> 0u16 == 1,
        ;
    } else {
        let r1: u16 = (r - 1) as u16;
        assert((x >> 1u16) >> r1 == 1 && x >= 2 && x / 2 == (x >> 1u16)) by (bit_vector)
            requires
                0 < r < 16 && r1 == r - 1 && x >> r == 1,
        ;
        lemma_fls_of_shifted(x >> 1u16, r1);
    }
}

/// Shifting one left by `k` places produces the `k`-th power of two.
pub proof fn lemma_shl_one_is_pow2(k: u16)
    requires
        k < 16,
    ensures
        (1u16 << k) == pow2(k as nat),
{
    lemma2_to64();
    if k < 15 {
        lemma_pow2_strictly_increases(k as nat, 15);
    }
    lemma_u16_shl_is_mul(1u16, k);
}

/// Find Last Set: the zero-based position of the highest set bit, computed
/// from the leading-zero count.
pub fn fls(size: u16) -> (r: u8)
    requires
        size != 0,
    ensures
        r == spec_fls(size as int),
        r <= 15,
        pow2(r as nat) <= size < pow2(r as nat + 1),
{
    proof {
        axiom_u16_leading_zeros(size);
    }
    let lz: u32 = size.leading_zeros();
    let r: u8 = (16 - lz - 1) as u8;
    proof {
        let lzv: u16 = u16_leading_zeros(size) as u16;
        let sh: u16 = (15 - lzv) as u16;
        assert(size >> sh == 1) by (bit_vector)
            requires
                lzv <= 15,
                sh == 15 - lzv,
                size >> ((16 - lzv) as u16) == 0,
                (size >> sh) & 1u16 != 0,
        ;
        lemma_fls_of_shifted(size, sh);
        lemma_fls_bounds(size as int);
    }
    r
}

/// Find First Set: the zero-based position of the lowest set bit, computed
/// as the trailing-zero count; sixteen when no bit is set. For a non-zero
/// argument, `pow2(r)` divides the value and bit `r` itself is set.
pub fn ffs(x: u16) -> (r: u8)
    ensures
        r == u16_trailing_zeros(x),
        x == 0 ==> r == 16,
        x != 0 ==> r <= 15 && (x >> r as u16) & 1 == 1 && (x as nat) % pow2(r as nat) == 0,
{
    proof {
        axiom_u16_trailing_zeros(x);
        if x != 0 {
            let tz: u16 = u16_trailing_zeros(x) as u16;
            lemma_u16_low_bits_mask_is_mod(x, tz as nat);
            lemma_shl_one_is_pow2(tz);
            vstd::arithmetic::power2::lemma_pow2_pos(tz as nat);
            assert(x & (((1u16 << tz) - 1) as u16) == 0) by (bit_vector)
                requires
                    tz <= 15,
                    x << ((16 - tz) as u16) == 0,
            ;
            assert(low_bits_mask(tz as nat) == (1u16 << tz) - 1);
        }
    }
    x.trailing_zeros() as u8
}

} // verus!
