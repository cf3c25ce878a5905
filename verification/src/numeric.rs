//! Integer division helpers for resolving percentages and repetition counts.
//!
//! All divisions in this crate round toward negative infinity (the rounding
//! of the mathematical `int` division), so the executable helpers here are
//! proved against plain `int` division.

use vstd::arithmetic::div_mod::{
    lemma_div_is_ordered, lemma_div_multiples_vanish, lemma_fundamental_div_mod,
    lemma_fundamental_div_mod_converse,
};
use vstd::prelude::*;

verus! {

/// Bound on the numerators accepted by the division helpers; large enough for
/// every product formed by the resolver, small enough that no intermediate
/// step can overflow `i64`.
pub const DIV_ARG_BOUND: i64 = 0x4000_0000_0000_0000;

/// An optional machine integer seen as an optional mathematical integer.
pub open spec fn opt_int(o: Option<i64>) -> Option<int> {
    match o {
        Some(v) => Some(v as int),
        None => None,
    }
}

/// The least integer greater than or equal to `n / d`, for positive `d`.
pub open spec fn div_ceil(n: int, d: int) -> int {
    (n + d - 1) / d
}

/// Flooring division of `n` by a positive divisor `d`.
pub fn floor_div(n: i64, d: i64) -> (q: i64)
    requires
        0 < d < DIV_ARG_BOUND,
        -DIV_ARG_BOUND < n < DIV_ARG_BOUND,
    ensures
        q == n as int / d as int,
{
    if n >= 0 {
        let q: u64 = (n as u64) / (d as u64);
        q as i64
    } else {
        let m: u64 = (-n) as u64;
        let q1: u64 = (m - 1) / (d as u64) + 1;
        proof {
            let ni = n as int;
            let di = d as int;
            let mi = m as int;
            let k = (mi - 1) / di;
            lemma_fundamental_div_mod(mi - 1, di);
            let r = ni - di * (-(k + 1));
            assert(0 <= r < di) by (nonlinear_arith)
                requires
                    ni == -mi,
                    di * k + ((mi - 1) % di) == mi - 1,
                    0 <= (mi - 1) % di < di,
                    r == ni - di * (-(k + 1)),
            ;
            lemma_fundamental_div_mod_converse(ni, di, -(k + 1), r);
        }
        -(q1 as i64)
    }
}

/// A quotient lies between the two given multiples of the divisor.
pub proof fn lemma_div_range(n: int, d: int, lo: int, hi: int)
    requires
        0 < d,
        lo * d <= n,
        n <= hi * d,
    ensures
        lo <= n / d <= hi,
{
    lemma_div_is_ordered(lo * d, n, d);
    lemma_div_is_ordered(n, hi * d, d);
    lemma_div_multiples_vanish(lo, d);
    lemma_div_multiples_vanish(hi, d);
    assert(lo * d == d * lo) by (nonlinear_arith);
    assert(hi * d == d * hi) by (nonlinear_arith);
    assert((lo * d) / d == lo);
    assert((hi * d) / d == hi);
}

/// Ceiling division of a non-negative `n` by a positive divisor `d`.
pub fn ceil_div(n: i64, d: i64) -> (q: i64)
    requires
        0 < d < DIV_ARG_BOUND,
        0 <= n < DIV_ARG_BOUND,
    ensures
        q == div_ceil(n as int, d as int),
{
    let q: u64 = ((n as u64) + (d as u64) - 1) / (d as u64);
    q as i64
}

} // verus!
