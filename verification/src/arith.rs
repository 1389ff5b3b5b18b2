//! Ceiling division over mathematical integers.
//!
//! The fee engine and the constant-product curve both round quotients up in
//! the pool's favor.  This module defines that rounding once, as a spec
//! function, together with the facts about it that the rest of the crate
//! needs: its relation to the shifted form `(x + d - 1) / d` that the
//! executable code computes, its bounds, its uniqueness, and its
//! monotonicity.

use vstd::prelude::*;
use vstd::arithmetic::div_mod::{
    lemma_div_is_ordered, lemma_div_pos_is_pos, lemma_fundamental_div_mod,
    lemma_fundamental_div_mod_converse, lemma_mod_bound,
};

verus! {

/// The quotient `x / d` rounded toward positive infinity: any non-zero
/// remainder rounds the result up by one.
pub open spec fn div_round_up(x: int, d: int) -> int {
    x / d + if x % d == 0 {
        0int
    } else {
        1int
    }
}

/// Rounding up equals the shifted floor division `(x + d - 1) / d` that the
/// executable code computes.
pub proof fn lemma_div_round_up_shift(x: int, d: int)
    requires
        x >= 0,
        d >= 1,
    ensures
        (x + d - 1) / d == div_round_up(x, d),
{
    let q = x / d;
    let r = x % d;
    lemma_fundamental_div_mod(x, d);
    lemma_mod_bound(x, d);
    if r == 0 {
        assert(x + d - 1 == q * d + (d - 1)) by (nonlinear_arith)
            requires
                x == d * q + r,
                r == 0,
        ;
        lemma_fundamental_div_mod_converse(x + d - 1, d, q, d - 1);
    } else {
        assert(x + d - 1 == (q + 1) * d + (r - 1)) by (nonlinear_arith)
            requires
                x == d * q + r,
        ;
        lemma_fundamental_div_mod_converse(x + d - 1, d, q + 1, r - 1);
    }
}

/// `d * div_round_up(x, d)` is the least multiple of `d` that is at least
/// `x`: it covers `x`, and overshoots by less than `d`.
pub proof fn lemma_div_round_up_bounds(x: int, d: int)
    requires
        x >= 0,
        d >= 1,
    ensures
        d * div_round_up(x, d) >= x,
        d * div_round_up(x, d) < x + d,
        div_round_up(x, d) >= 0,
{
    let q = x / d;
    let r = x % d;
    lemma_fundamental_div_mod(x, d);
    lemma_mod_bound(x, d);
    lemma_div_pos_is_pos(x, d);
    if r == 0 {
        assert(d * div_round_up(x, d) == x);
    } else {
        assert(d * (q + 1) == d * q + d) by (nonlinear_arith);
    }
}

/// The rounded-up quotient is the only value whose multiple of `d` lands in
/// the window `[x, x + d)`.
pub proof fn lemma_div_round_up_converse(x: int, d: int, q: int)
    requires
        x >= 0,
        d >= 1,
        d * q >= x,
        d * q < x + d,
    ensures
        div_round_up(x, d) == q,
{
    let c = div_round_up(x, d);
    lemma_div_round_up_bounds(x, d);
    assert(q <= c) by (nonlinear_arith)
        requires
            d >= 1,
            d * q < x + d,
            d * c >= x,
    ;
    assert(c <= q) by (nonlinear_arith)
        requires
            d >= 1,
            d * c < x + d,
            d * q >= x,
    ;
}

/// Rounding up is non-decreasing in the dividend.
pub proof fn lemma_div_round_up_ordered(x1: int, x2: int, d: int)
    requires
        0 <= x1 <= x2,
        d >= 1,
    ensures
        div_round_up(x1, d) <= div_round_up(x2, d),
{
    lemma_div_round_up_shift(x1, d);
    lemma_div_round_up_shift(x2, d);
    lemma_div_is_ordered(x1 + d - 1, x2 + d - 1, d);
}

} // verus!
