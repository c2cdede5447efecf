//! Shared integer arithmetic: flooring division, integer square root, and
//! the bound lemmas the movement and camera arithmetic lean on.

use vstd::arithmetic::div_mod::{
    lemma_div_by_multiple, lemma_div_is_ordered, lemma_div_pos_is_pos, lemma_fundamental_div_mod,
    lemma_fundamental_div_mod_converse, lemma_mod_bound,
};
use vstd::prelude::*;

verus! {

/// Whether `r` is the integer square root of `n`.
pub open spec fn is_sqrt(n: int, r: int) -> bool {
    0 <= r && r * r <= n && n < (r + 1) * (r + 1)
}

/// The integer square root: the unique `r` with `r * r <= n < (r+1) * (r+1)`.
pub open spec fn sqrt_floor(n: int) -> int {
    choose|r: int| is_sqrt(n, r)
}

/// Any witness of `is_sqrt` is the square root: roots are unique.
pub proof fn lemma_sqrt_unique(n: int, r: int)
    requires
        is_sqrt(n, r),
    ensures
        r == sqrt_floor(n),
{
    assert(exists|x: int| is_sqrt(n, x));
    let s = sqrt_floor(n);
    assert(is_sqrt(n, s));
    if r < s {
        assert((r + 1) * (r + 1) <= s * s) by (nonlinear_arith)
            requires
                0 <= r,
                r + 1 <= s,
        ;
    }
    if s < r {
        assert((s + 1) * (s + 1) <= r * r) by (nonlinear_arith)
            requires
                0 <= s,
                s + 1 <= r,
        ;
    }
}

/// The integer square root, by bisection.
pub fn isqrt_u64(n: u64) -> (r: u64)
    requires
        n <= 0x1000_0000_0000_0000,
    ensures
        is_sqrt(n as int, r as int),
        r <= 1_100_000_000,
{
    let mut lo: u64 = 0;
    let mut hi: u64 = 1_100_000_000;
    while lo < hi
        invariant
            lo <= hi <= 1_100_000_000,
            (lo as int) * (lo as int) <= n as int,
            (n as int) < (hi as int + 1) * (hi as int + 1),
        decreases hi - lo,
    {
        proof {
            lemma_fundamental_div_mod(hi as int - lo as int + 1, 2);
            lemma_mod_bound(hi as int - lo as int + 1, 2);
        }
        let mid = lo + (hi - lo + 1) / 2;
        proof {
            assert((mid as int) * (mid as int) <= 1_210_000_000_000_000_000) by (nonlinear_arith)
                requires
                    0 <= mid as int <= 1_100_000_000,
            ;
        }
        if mid * mid <= n {
            lo = mid;
        } else {
            hi = mid - 1;
        }
    }
    lo
}

/// Division rounding toward negative infinity, as `/` means in
/// specifications; the executable code adjusts the machine's truncating
/// division on negative operands.
pub fn div_floor(a: i64, b: i64) -> (q: i64)
    requires
        1 <= b <= 0x2000_0000_0000_0000,
        -0x2000_0000_0000_0000 <= a <= 0x2000_0000_0000_0000,
    ensures
        q == a as int / b as int,
        a >= 0 ==> 0 <= q <= a,
        a < 0 ==> a <= q <= 0,
{
    if a >= 0 {
        proof {
            let ai = a as int;
            let bi = b as int;
            lemma_fundamental_div_mod(ai, bi);
            lemma_mod_bound(ai, bi);
            lemma_div_pos_is_pos(ai, bi);
            assert(ai / bi <= bi * (ai / bi)) by (nonlinear_arith)
                requires
                    ai / bi >= 0,
                    bi >= 1,
            ;
        }
        a / b
    } else {
        let m: i64 = -a;
        let t: i64 = (m + b - 1) / b;
        proof {
            let mi = m as int;
            let bi = b as int;
            let ti = t as int;
            lemma_fundamental_div_mod(mi + bi - 1, bi);
            let s = (mi + bi - 1) % bi;
            lemma_mod_bound(mi + bi - 1, bi);
            assert(bi * ti == mi + bi - 1 - s);
            assert((-ti) * bi == -(bi * ti)) by (nonlinear_arith);
            lemma_fundamental_div_mod_converse(a as int, bi, -ti, bi - 1 - s);
            lemma_div_pos_is_pos(mi + bi - 1, bi);
            assert(ti <= mi) by (nonlinear_arith)
                requires
                    bi * ti == mi + bi - 1 - s,
                    0 <= s,
                    1 <= bi,
                    1 <= mi,
                    0 <= ti,
            ;
        }
        -t
    }
}

/// A product of a bounded factor and a bounded positive factor stays
/// within the product of the bounds.
pub proof fn lemma_mul_bound(a: int, amax: int, b: int, bmax: int)
    requires
        -amax <= a <= amax,
        0 <= amax,
        0 <= b <= bmax,
    ensures
        -(amax * bmax) <= a * b <= amax * bmax,
{
    assert(-(amax * bmax) <= a * b <= amax * bmax) by (nonlinear_arith)
        requires
            -amax <= a <= amax,
            0 <= amax,
            0 <= b <= bmax,
    ;
}

/// Scaling a magnitude no larger than `len` by `step / len` keeps it
/// between zero and `step`.
pub proof fn lemma_scaled_le(m: int, step: int, len: int)
    requires
        0 <= m <= len,
        1 <= len,
        0 <= step,
    ensures
        0 <= m * step / len <= step,
{
    assert(m * step <= len * step) by (nonlinear_arith)
        requires
            m <= len,
            0 <= step,
    ;
    assert(m * step >= 0) by (nonlinear_arith)
        requires
            0 <= m,
            0 <= step,
    ;
    lemma_div_pos_is_pos(m * step, len);
    lemma_div_is_ordered(m * step, len * step, len);
    assert(len * step == step * len) by (nonlinear_arith);
    lemma_div_by_multiple(step, len);
}

} // verus!
