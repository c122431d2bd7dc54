//! The size-class mapping engine. `mapping_insert` names the exact class of
//! a freed block of a known size; `mapping_search` names a class whose every
//! member is large enough for a requested size, by first rounding the size up
//! to the top of its second-level subdivision.
//!
//! Sizes below [`SIZE_THRESHOLD`](crate::SIZE_THRESHOLD) fall in first-level
//! class 0, one second-level class per alignment unit. A size at or above the
//! threshold falls in the power-of-two bracket `f = fls(size)`, re-based by
//! `FLI_SHIFT - 1`, and its second-level class is the count of subdivision
//! widths `2^(f - SLI_LOG2)` that fit in it beyond the bracket base.

use vstd::prelude::*;

verus! {

use vstd::arithmetic::div_mod::lemma_div_is_ordered;
use vstd::arithmetic::div_mod::lemma_div_multiples_vanish;
use vstd::arithmetic::div_mod::lemma_div_multiples_vanish_fancy;
use vstd::arithmetic::div_mod::lemma_fundamental_div_mod;
use vstd::arithmetic::div_mod::lemma_mod_division_less_than_divisor;
use vstd::arithmetic::div_mod::lemma_mod_multiples_basic;
use vstd::arithmetic::mul::lemma_mul_inequality;
use vstd::arithmetic::mul::lemma_mul_is_associative;
use vstd::arithmetic::mul::lemma_mul_is_commutative;
use vstd::arithmetic::power2::pow2;
use vstd::arithmetic::power2::lemma2_to64;
use vstd::arithmetic::power2::lemma_pow2_adds;
use vstd::arithmetic::power2::lemma_pow2_pos;
use vstd::arithmetic::power2::lemma_pow2_strictly_increases;
use vstd::arithmetic::power2::lemma_pow2_unfold;
use vstd::bits::lemma_u16_shr_is_div;
use crate::bits::fls;
use crate::bits::lemma_fls_bounds;
use crate::bits::lemma_fls_monotonic;
use crate::bits::lemma_fls_unique;
use crate::bits::lemma_shl_one_is_pow2;
use crate::bits::spec_fls;
use crate::Index;
use crate::ALIGN_SIZE;
use crate::ALIGN_SIZE_LOG2;
use crate::FLI_SHIFT;
use crate::MAX_BLOCK_SIZE;
use crate::MAX_REQUEST_SIZE;
use crate::SIZE_THRESHOLD;
use crate::SLI;
use crate::SLI_LOG2;

/// The exact class of a block of `size` bytes. Below the threshold the
/// mapping is linear: one class per alignment unit. At or above it, the
/// first-level index names the power-of-two bracket of `size` (re-based to
/// follow the linear class), and the second-level index counts how many
/// subdivision widths `2^(fls(size) - SLI_LOG2)` fit in `size` past the
/// bracket base `2^fls(size)`.
pub open spec fn spec_mapping_insert(size: u16) -> Index {
    if size < SIZE_THRESHOLD {
        Index { fl: 0, sl: (size as int / ALIGN_SIZE as int) as u8 }
    } else {
        let f: nat = spec_fls(size as int);
        Index {
            fl: (f - (FLI_SHIFT - 1)) as u8,
            sl: (size as int / (pow2((f - SLI_LOG2) as nat) as int) - SLI) as u8,
        }
    }
}

/// The size that the search mapping classifies in place of `size`: at or
/// above the threshold, `size` moved to the top of its second-level
/// subdivision, so that every block in the resulting class can satisfy the
/// original request.
pub open spec fn spec_search_size(size: u16) -> int {
    if size < SIZE_THRESHOLD {
        size as int
    } else {
        size as int + pow2((spec_fls(size as int) - SLI_LOG2) as nat) - 1
    }
}

/// The class probed first for a request of `size` bytes.
pub open spec fn spec_mapping_search(size: u16) -> Index {
    spec_mapping_insert(spec_search_size(size) as u16)
}

/// A size at or above the threshold lies in a bracket between 2^6 and 2^15.
proof fn lemma_fls_threshold_range(size: u16)
    requires
        SIZE_THRESHOLD <= size,
    ensures
        6 <= spec_fls(size as int) <= 15,
{
    lemma_fls_bounds(size as int);
    lemma2_to64();
    let f: nat = spec_fls(size as int);
    if f < 6 {
        lemma_pow2_strictly_increases(f + 1, 6);
    }
    if f > 15 {
        if f > 16 {
            lemma_pow2_strictly_increases(16, f);
        }
    }
}

/// Dividing a bracketed size by its subdivision width leaves a quotient in
/// `[SLI, 2 * SLI)`: the bracket base contributes exactly `SLI` widths and
/// the remainder fewer than `SLI` more.
proof fn lemma_bracket_division(size: u16)
    requires
        SIZE_THRESHOLD <= size,
    ensures
        6 <= spec_fls(size as int) <= 15,
        pow2(spec_fls(size as int)) == 16 * pow2((spec_fls(size as int) - 4) as nat),
        16 <= size as int / (pow2((spec_fls(size as int) - 4) as nat) as int) < 32,
{
    let f: nat = spec_fls(size as int);
    lemma_fls_threshold_range(size);
    lemma_fls_bounds(size as int);
    let w: int = pow2((f - 4) as nat) as int;
    lemma_pow2_pos((f - 4) as nat);
    lemma_pow2_adds((f - 4) as nat, 4);
    lemma2_to64();
    assert(pow2(f) == 16 * w);
    lemma_pow2_unfold(f + 1);
    assert(pow2(f + 1) == 32 * w);
    lemma_div_multiples_vanish(16, w);
    lemma_div_is_ordered(16 * w, size as int, w);
    lemma_div_multiples_vanish_fancy(31, w - 1, w);
    lemma_div_is_ordered(size as int, 32 * w - 1, w);
}

/// The classification that `mapping_insert` trusts its callers to respect.
pub open spec fn insert_size_ok(size: u16) -> bool {
    size % ALIGN_SIZE as u16 == 0 && size <= MAX_BLOCK_SIZE
}

/// The classification that `mapping_search` trusts its callers to respect.
pub open spec fn search_size_ok(size: u16) -> bool {
    size % ALIGN_SIZE as u16 == 0 && size <= MAX_REQUEST_SIZE
}

/// The exact-fit classification, without the caller-contract checks of
/// [`mapping_insert`]: it classifies any sixteen-bit value and always yields
/// an in-range index.
pub fn mapping_insert_(size: u16) -> (i: Index)
    ensures
        i == spec_mapping_insert(size),
        i.wf(),
{
    let mut fl: u8;
    let sl: u8;
    if size < SIZE_THRESHOLD {
        fl = 0;
        sl = (size >> ALIGN_SIZE_LOG2) as u8;
        proof {
            lemma_u16_shr_is_div(size, ALIGN_SIZE_LOG2 as u16);
            lemma2_to64();
        }
    } else {
        fl = fls(size);
        proof {
            lemma_bracket_division(size);
        }
        let shifted: u16 = size >> (fl - SLI_LOG2);
        proof {
            lemma_u16_shr_is_div(size, (fl - SLI_LOG2) as u16);
        }
        sl = (shifted as u8) ^ SLI;
        proof {
            let y: u8 = shifted as u8;
            assert(y ^ 16u8 == ((y - 16) as u8)) by (bit_vector)
                requires
                    16 <= y < 32,
            ;
        }
        fl -= FLI_SHIFT - 1;
    }
    Index { fl, sl }
}

/// The exact-fit classification used when a freed block of exactly `size`
/// bytes is linked into a free list.
pub fn mapping_insert(size: u16) -> (i: Index)
    requires
        insert_size_ok(size),
    ensures
        i == spec_mapping_insert(size),
        i.wf(),
        size < SIZE_THRESHOLD ==> i.fl == 0 && i.sl == size as int / ALIGN_SIZE as int,
{
    mapping_insert_(size)
}

/// The good-fit classification, without the caller-contract checks of
/// [`mapping_search`]. The bound on `size` keeps the subdivision round-up
/// within sixteen bits.
pub fn mapping_search_(size: u16) -> (i: Index)
    requires
        size <= MAX_REQUEST_SIZE,
    ensures
        i == spec_mapping_search(size),
        i.wf(),
{
    let adjusted: u16 = if size >= SIZE_THRESHOLD {
        let f: u8 = fls(size);
        proof {
            lemma_fls_threshold_range(size);
            lemma_shl_one_is_pow2((f - SLI_LOG2) as u16);
            lemma_pow2_pos((f - 4) as nat);
            lemma_search_size_fits(size);
        }
        size + ((1u16 << (f - SLI_LOG2)) - 1)
    } else {
        size
    };
    mapping_insert_(adjusted)
}

/// The good-fit classification used on an allocation request: the first
/// free list whose blocks are all large enough to serve `size` bytes.
pub fn mapping_search(size: u16) -> (i: Index)
    requires
        search_size_ok(size),
    ensures
        i == spec_mapping_search(size),
        i.wf(),
{
    mapping_search_(size)
}

/// The search path's round-up stays within sixteen bits for every size the
/// search mapping accepts — the headroom that `MAX_REQUEST_SIZE` leaves.
proof fn lemma_search_size_fits(size: u16)
    requires
        SIZE_THRESHOLD <= size <= MAX_REQUEST_SIZE,
    ensures
        size <= spec_search_size(size) <= u16::MAX,
{
    let f: nat = spec_fls(size as int);
    lemma_fls_threshold_range(size);
    lemma_fls_bounds(size as int);
    lemma_pow2_pos((f - 4) as nat);
    lemma2_to64();
    if f <= 14 {
        lemma_pow2_strictly_increases(f, 15);
        if f < 14 {
            lemma_pow2_strictly_increases((f - 4) as nat, 10);
        }
    }
}

/// Below the threshold the two mappings agree exactly: the linear classes
/// are exact, so a search needs no round-up.
pub proof fn lemma_search_matches_insert_below_threshold(size: u16)
    requires
        size < SIZE_THRESHOLD,
    ensures
        spec_mapping_search(size) == spec_mapping_insert(size),
{
}

/// The mapping is monotonic: a larger block size never maps to a
/// lexicographically smaller `(fl, sl)` pair.
pub proof fn lemma_mapping_insert_monotonic(size1: u16, size2: u16)
    requires
        size1 <= size2,
        insert_size_ok(size1),
        insert_size_ok(size2),
    ensures
        spec_mapping_insert(size1).fl < spec_mapping_insert(size2).fl || (spec_mapping_insert(
            size1,
        ).fl == spec_mapping_insert(size2).fl && spec_mapping_insert(size1).sl
            <= spec_mapping_insert(size2).sl),
{
    if size2 < SIZE_THRESHOLD {
        lemma_div_is_ordered(size1 as int, size2 as int, ALIGN_SIZE as int);
    } else if size1 < SIZE_THRESHOLD {
        lemma_fls_threshold_range(size2);
        lemma_bracket_division(size2);
    } else {
        lemma_fls_monotonic(size1 as int, size2 as int);
        lemma_bracket_division(size1);
        lemma_bracket_division(size2);
        let f1: nat = spec_fls(size1 as int);
        let f2: nat = spec_fls(size2 as int);
        if f1 == f2 {
            lemma_pow2_pos((f1 - 4) as nat);
            lemma_div_is_ordered(size1 as int, size2 as int, pow2((f1 - 4) as nat) as int);
        }
    }
}

/// The class a search names is inhabited: the front of its subdivision is
/// itself a valid block size that the exact-fit mapping places in that class.
/// With [`lemma_search_never_underestimates`] the front is the smallest block
/// size of the class, and it is large enough for the request.
pub proof fn lemma_search_class_front(size: u16) -> (front: u16)
    requires
        SIZE_THRESHOLD <= size,
        search_size_ok(size),
    ensures
        insert_size_ok(front),
        spec_mapping_insert(front) == spec_mapping_search(size),
        size <= front,
{
    lemma_fls_threshold_range(size);
    lemma_search_size_fits(size);
    let r: int = spec_search_size(size);
    let ru: u16 = r as u16;
    lemma_fls_monotonic(size as int, r);
    lemma_fls_threshold_range(ru);
    lemma_fls_bounds(r);
    lemma_bracket_division(ru);
    let g: nat = spec_fls(r);
    let wg: int = pow2((g - 4) as nat) as int;
    lemma_pow2_pos((g - 4) as nat);
    let q: int = r / wg;
    let front_int: int = q * wg;

    // The front lies in the same bracket and subdivision as the round-up.
    lemma_fundamental_div_mod(r, wg);
    lemma_mod_division_less_than_divisor(r, wg);
    lemma_mul_is_commutative(wg, q);
    assert(front_int == r - r % wg);
    lemma_pow2_adds((g - 4) as nat, 4);
    lemma_pow2_unfold(g + 1);
    lemma2_to64();
    assert(pow2(g) == 16 * wg && pow2(g + 1) == 32 * wg);
    lemma_mul_inequality(16, q, wg);
    lemma_mul_inequality(q, 31, wg);
    assert(pow2(g) <= front_int < pow2(g + 1));
    let front: u16 = front_int as u16;
    lemma_fls_unique(front_int, g);

    // A whole number of subdivision widths is aligned: the width is a
    // multiple of the alignment unit from the sixth bracket up.
    lemma_pow2_adds((g - 6) as nat, 2);
    lemma_mul_is_associative(q, pow2((g - 6) as nat) as int, 4);
    lemma_mod_multiples_basic(q * (pow2((g - 6) as nat) as int), 4);
    assert(front_int % 4 == 0);
    lemma_fundamental_div_mod(front_int, 4);
    lemma_div_is_ordered(front_int, 65535, 4);
    assert(front_int <= 65532);

    // Same bracket, same subdivision: the exact class of the front is the
    // searched class.
    lemma_div_multiples_vanish(q, wg);
    assert(front_int / wg == q);
    assert(spec_mapping_insert(front) == spec_mapping_search(size));
    lemma_search_never_underestimates(size, front);
    front
}

/// The search index never under-estimates: every block size whose exact
/// class is the one `mapping_search` names for a request is large enough to
/// serve that request.
pub proof fn lemma_search_never_underestimates(size: u16, block: u16)
    requires
        SIZE_THRESHOLD <= size,
        search_size_ok(size),
        insert_size_ok(block),
        spec_mapping_insert(block) == spec_mapping_search(size),
    ensures
        block >= size,
{
    let f: nat = spec_fls(size as int);
    let w: int = pow2((f - 4) as nat) as int;
    lemma_fls_threshold_range(size);
    lemma_fls_bounds(size as int);
    lemma_pow2_pos((f - 4) as nat);
    lemma_search_size_fits(size);
    let r: int = spec_search_size(size);
    let ru: u16 = r as u16;
    assert(ru as int == r);
    lemma_fls_monotonic(size as int, r);
    let g: nat = spec_fls(r);
    lemma_fls_threshold_range(ru);
    lemma_fls_bounds(r);
    lemma_bracket_division(ru);
    let wg: int = pow2((g - 4) as nat) as int;
    lemma_pow2_pos((g - 4) as nat);

    // The searched class lies in the bracketed region, so the block is
    // bracketed too and shares the bracket and subdivision of the round-up.
    assert(block >= SIZE_THRESHOLD);
    lemma_bracket_division(block);
    let h: nat = spec_fls(block as int);
    assert(h == g);
    let q: int = r / wg;
    assert(block as int / wg == q);

    // The block sits at or past the front of its subdivision.
    lemma_fundamental_div_mod(block as int, wg);
    lemma_mod_division_less_than_divisor(block as int, wg);
    assert(block as int >= q * wg);

    // And that front is no smaller than the requested size.
    if g == f {
        lemma_fundamental_div_mod(r, w);
        lemma_mod_division_less_than_divisor(r, w);
        assert(q * w == r - r % w);
        assert(q * wg >= size as int);
    } else {
        // The round-up crossed into the next bracket: it can only have
        // reached the first subdivision there, whose front is the bracket
        // base, itself larger than any size of the old bracket.
        assert(g > f);
        if g >= f + 2 {
            lemma_pow2_unfold((f + 2) as nat);
            lemma_pow2_unfold((f + 1) as nat);
            lemma_pow2_strictly_increases((f - 4) as nat, f);
            if g > f + 2 {
                lemma_pow2_strictly_increases((f + 2) as nat, g);
            }
            assert(false);
        }
        assert(g == f + 1);
        lemma_pow2_unfold((g - 4) as nat);
        lemma_pow2_adds((g - 4) as nat, 4);
        lemma2_to64();
        assert(wg == 2 * w);
        assert(pow2(g) == 16 * wg);
        // 16 * wg <= r < 17 * wg, so the quotient is exactly 16.
        assert(r < pow2(f + 1) + w);
        lemma_div_multiples_vanish(16, wg);
        lemma_div_is_ordered(16 * wg, r, wg);
        lemma_div_multiples_vanish_fancy(16, wg - 1, wg);
        lemma_div_is_ordered(r, 17 * wg - 1, wg);
        assert(q == 16);
        assert(q * wg == pow2(g));
        assert((size as int) < pow2(f + 1));
    }
}

} // verus!
