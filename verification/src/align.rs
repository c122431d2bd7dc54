//! Alignment rounding: `round_down` and `round_up` move a value to the
//! nearest multiple of a non-zero alignment, downwards or upwards. The
//! allocator normalizes every size with these before classifying it.

use vstd::prelude::*;

verus! {

use vstd::arithmetic::div_mod::lemma_fundamental_div_mod;
use vstd::arithmetic::div_mod::lemma_mod_multiples_basic;

/// The largest multiple of `m` that is at most `x`.
pub open spec fn spec_round_down(x: int, m: int) -> int
    recommends
        m > 0,
{
    x - x % m
}

/// The smallest multiple of `m` that is at least `x`.
pub open spec fn spec_round_up(x: int, m: int) -> int
    recommends
        m > 0,
{
    if x % m == 0 {
        x
    } else {
        x + m - x % m
    }
}

/// Both rounding directions land on a multiple of `m`, within one alignment
/// unit of the starting value.
pub proof fn lemma_round_mod(x: int, m: int)
    requires
        m > 0,
    ensures
        spec_round_down(x, m) % m == 0,
        spec_round_down(x, m) <= x < spec_round_down(x, m) + m,
        spec_round_up(x, m) % m == 0,
        spec_round_up(x, m) - m < x <= spec_round_up(x, m),
{
    lemma_fundamental_div_mod(x, m);
    lemma_mod_multiples_basic(x / m, m);
    lemma_mod_multiples_basic(x / m + 1, m);
    assert((x / m) * m == m * (x / m)) by (nonlinear_arith);
    assert((x / m + 1) * m == m * (x / m) + m) by (nonlinear_arith);
}

/// Rounding down is idempotent: a value already on a multiple of `m` stays.
pub proof fn lemma_round_down_idempotent(x: int, m: int)
    requires
        m > 0,
    ensures
        spec_round_down(spec_round_down(x, m), m) == spec_round_down(x, m),
{
    lemma_round_mod(x, m);
}

/// Rounding up is idempotent, and a rounded value carries no remainder, so a
/// second round-up returns it with a zero shortfall.
pub proof fn lemma_round_up_idempotent(x: int, m: int)
    requires
        m > 0,
    ensures
        spec_round_up(x, m) % m == 0,
        spec_round_up(spec_round_up(x, m), m) == spec_round_up(x, m),
{
    lemma_round_mod(x, m);
}

/// Returns the largest value at most `x` that is a multiple of `multiple`;
/// `x` itself when it is already aligned.
pub fn round_down(x: usize, multiple: usize) -> (r: usize)
    requires
        multiple != 0,
    ensures
        r == spec_round_down(x as int, multiple as int),
        r as int % multiple as int == 0,
        r <= x,
        x - r < multiple,
{
    proof {
        lemma_round_mod(x as int, multiple as int);
        vstd::arithmetic::div_mod::lemma_mod_decreases(x as nat, multiple as nat);
    }
    let rem: usize = x % multiple;
    if rem == 0 {
        x
    } else {
        x - rem
    }
}

/// Returns the smallest value at least `x` that is a multiple of `multiple`,
/// paired with the remainder `x % multiple` — the amount by which `x` fell
/// short of the previous boundary, zero when already aligned.
pub fn round_up(x: usize, multiple: usize) -> (r: (usize, usize))
    requires
        multiple != 0,
        spec_round_up(x as int, multiple as int) <= usize::MAX,
    ensures
        r.0 == spec_round_up(x as int, multiple as int),
        r.1 == x as int % multiple as int,
        r.0 as int % multiple as int == 0,
        x <= r.0,
        r.0 - x < multiple,
{
    proof {
        lemma_round_mod(x as int, multiple as int);
    }
    let rem: usize = x % multiple;
    if rem == 0 {
        (x, 0)
    } else {
        (x + (multiple - rem), rem)
    }
}

} // verus!
