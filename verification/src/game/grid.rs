//! Wraparound arithmetic of the toroidal arena.

use vstd::prelude::*;
use vstd::arithmetic::div_mod::{
    lemma_fundamental_div_mod, lemma_fundamental_div_mod_converse, lemma_mod_bound,
};

verus! {

/// The coordinate `coord` brought into `[0, dimension)`: the mathematical
/// (never negative) remainder of `coord` by `dimension`.
pub open spec fn wrapped(coord: int, dimension: int) -> int {
    coord % dimension
}

/// A wrapped coordinate lies in `[0, dimension)`, whatever the coordinate.
pub proof fn lemma_wrapped_in_range(coord: int, dimension: int)
    requires
        dimension > 0,
    ensures
        0 <= wrapped(coord, dimension) < dimension,
{
    lemma_mod_bound(coord, dimension);
}

/// `q * d + r` with `0 <= r < d` has remainder `r`.
proof fn lemma_remainder_unique(x: int, d: int, q: int, r: int)
    requires
        d > 0,
        0 <= r < d,
        x == q * d + r,
    ensures
        x % d == r,
{
    lemma_fundamental_div_mod_converse(x, d, q, r);
}

/// The remainder that truncates toward zero, as the machine computes it: it
/// has the sign of `x`.
pub open spec fn truncated_remainder(x: int, d: int) -> int {
    if x >= 0 {
        x % d
    } else {
        -((-x) % d)
    }
}

/// The formula that [`wrap`] computes, `((x rem d) + d) rem d` with the
/// machine's remainder, gives the mathematical remainder, also for a negative
/// coordinate; and the sum in it stays below `2 * d`.
pub proof fn lemma_wrap_formula(x: int, d: int)
    requires
        d > 0,
    ensures
        0 < truncated_remainder(x, d) + d < 2 * d,
        truncated_remainder(truncated_remainder(x, d) + d, d) == wrapped(x, d),
        0 <= wrapped(x, d) < d,
{
    let shifted = truncated_remainder(x, d) + d;
    if x >= 0 {
        let m = x % d;
        lemma_fundamental_div_mod(x, d);
        lemma_remainder_unique(shifted, d, 1, m);
    } else {
        let a = -x;
        let m = a % d;
        let q = a / d;
        lemma_fundamental_div_mod(a, d);
        assert(a == q * d + m) by (nonlinear_arith)
            requires
                a == d * q + m,
        ;
        if m == 0 {
            lemma_remainder_unique(shifted, d, 1, 0);
            assert(x == (-q) * d + 0) by (nonlinear_arith)
                requires
                    x == -a,
                    a == q * d + m,
                    m == 0,
            ;
            lemma_remainder_unique(x, d, -q, 0);
        } else {
            lemma_remainder_unique(shifted, d, 0, d - m);
            assert(x == (-q - 1) * d + (d - m)) by (nonlinear_arith)
                requires
                    x == -a,
                    a == q * d + m,
            ;
            lemma_remainder_unique(x, d, -q - 1, d - m);
        }
    }
}

/// Wraps a coordinate of any size into `[0, dimension)`.
pub fn wrap_wide(coord: i64, dimension: i32) -> (r: i32)
    requires
        dimension > 0,
    ensures
        r == wrapped(coord as int, dimension as int),
        0 <= r < dimension,
{
    let d: i64 = dimension as i64;
    let shifted: i64 = (coord % d) + d;
    let r: i64 = shifted % d;
    proof {
        lemma_wrap_formula(coord as int, d as int);
    }
    r as i32
}

/// Wraps a coordinate into `[0, dimension)`; a coordinate that left the
/// arena on one side comes back in on the other.
pub fn wrap(coord: i32, dimension: i32) -> (r: i32)
    requires
        dimension > 0,
    ensures
        r == wrapped(coord as int, dimension as int),
        0 <= r < dimension,
{
    wrap_wide(coord as i64, dimension)
}

} // verus!
