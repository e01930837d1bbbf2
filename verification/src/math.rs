//! Integer arithmetic the engine is built on: floor and ceiling division
//! facts and the floor square root.

use vstd::prelude::*;

verus! {

/// Ceiling of `a / b`, meaningful for `a >= 0` and `b > 0`.
pub open spec fn ceil_div(a: int, b: int) -> int {
    (a + b - 1) / b
}

/// Floor division places `a` between consecutive multiples of `b`.
pub proof fn lemma_floor_div_bounds(a: int, b: int)
    requires
        0 <= a,
        0 < b,
    ensures
        0 <= a / b,
        b * (a / b) <= a < b * (a / b) + b,
{
    vstd::arithmetic::div_mod::lemma_fundamental_div_mod(a, b);
    vstd::arithmetic::div_mod::lemma_mod_bound(a, b);
    vstd::arithmetic::div_mod::lemma_div_pos_is_pos(a, b);
}

/// Comparing a floor quotient with `k` is comparing `a` with multiples of `b`.
pub proof fn lemma_floor_div_vs_mul(a: int, b: int, k: int)
    requires
        0 <= a,
        0 < b,
    ensures
        (a / b <= k) <==> (a < (k + 1) * b),
        (k <= a / b) <==> (k * b <= a),
{
    lemma_floor_div_bounds(a, b);
    let q = a / b;
    if q <= k {
        assert(a < (k + 1) * b) by (nonlinear_arith)
            requires
                a < b * q + b,
                q <= k,
                0 < b,
        ;
    }
    if a < (k + 1) * b && q > k {
        assert(false) by (nonlinear_arith)
            requires
                b * q <= a,
                a < (k + 1) * b,
                q >= k + 1,
                0 < b,
        ;
    }
    if k <= q {
        assert(k * b <= a) by (nonlinear_arith)
            requires
                b * q <= a,
                k <= q,
                0 < b,
        ;
    }
    if k * b <= a && q < k {
        assert(false) by (nonlinear_arith)
            requires
                a < b * q + b,
                k * b <= a,
                q <= k - 1,
                0 < b,
        ;
    }
}

/// The ceiling quotient times `b` covers `a` and overshoots by less than `b`.
pub proof fn lemma_ceil_div_bounds(a: int, b: int)
    requires
        0 <= a,
        0 < b,
    ensures
        0 <= ceil_div(a, b),
        a <= b * ceil_div(a, b) < a + b,
{
    lemma_floor_div_bounds(a + b - 1, b);
}

/// Comparing a ceiling quotient with `k` is comparing `a` with `k * b`.
pub proof fn lemma_ceil_div_vs_mul(a: int, b: int, k: int)
    requires
        0 <= a,
        0 < b,
    ensures
        (ceil_div(a, b) <= k) <==> (a <= k * b),
        (k <= ceil_div(a, b)) <==> ((k - 1) * b < a),
{
    lemma_floor_div_vs_mul(a + b - 1, b, k);
    lemma_floor_div_vs_mul(a + b - 1, b, k - 1);
    assert((a + b - 1 < (k + 1) * b) <==> (a <= k * b)) by (nonlinear_arith)
        requires
            0 < b,
    ;
    assert((k * b <= a + b - 1) <==> ((k - 1) * b < a)) by (nonlinear_arith)
        requires
            0 < b,
    ;
}

/// `r` is the integer square root of `x`, rounded down.
pub open spec fn is_floor_sqrt(x: int, r: int) -> bool {
    0 <= r && r * r <= x && x < (r + 1) * (r + 1)
}

/// The integer square root of `x`, rounded down.
pub open spec fn floor_sqrt(x: int) -> int {
    choose|r: int| is_floor_sqrt(x, r)
}

/// Every non-negative integer has a floor square root.
pub proof fn lemma_floor_sqrt_exists(x: int)
    requires
        0 <= x,
    ensures
        is_floor_sqrt(x, floor_sqrt(x)),
    decreases x,
{
    if x == 0 {
        assert(is_floor_sqrt(0, 0));
    } else {
        lemma_floor_sqrt_exists(x - 1);
        let r = floor_sqrt(x - 1);
        if (r + 1) * (r + 1) <= x {
            assert(x < (r + 2) * (r + 2)) by (nonlinear_arith)
                requires
                    x - 1 < (r + 1) * (r + 1),
                    0 <= r,
            ;
            assert(is_floor_sqrt(x, r + 1));
        } else {
            assert(is_floor_sqrt(x, r));
        }
    }
}

/// Floor square roots are unique, so any witness is `floor_sqrt`.
pub proof fn lemma_floor_sqrt_unique(x: int, r: int)
    requires
        is_floor_sqrt(x, r),
    ensures
        r == floor_sqrt(x),
{
    lemma_floor_sqrt_exists(x);
    let s = floor_sqrt(x);
    if r < s {
        assert(false) by (nonlinear_arith)
            requires
                0 <= r < s,
                s * s <= x,
                x < (r + 1) * (r + 1),
        ;
    }
    if s < r {
        assert(false) by (nonlinear_arith)
            requires
                0 <= s < r,
                r * r <= x,
                x < (s + 1) * (s + 1),
        ;
    }
}

/// Computes the floor square root of a 128-bit value by binary search.
pub fn isqrt_u128(x: u128) -> (r: u64)
    ensures
        r as int == floor_sqrt(x as int),
        is_floor_sqrt(x as int, r as int),
{
    let mut lo: u128 = 0;
    let mut hi: u128 = 0xFFFF_FFFF_FFFF_FFFF;
    proof {
        assert((x as int) < (hi as int + 1) * (hi as int + 1)) by (nonlinear_arith)
            requires
                x <= u128::MAX,
                hi == 0xFFFF_FFFF_FFFF_FFFFu128,
        ;
    }
    while lo < hi
        invariant
            lo <= hi <= 0xFFFF_FFFF_FFFF_FFFFu128,
            (lo as int) * (lo as int) <= x as int,
            (x as int) < (hi as int + 1) * (hi as int + 1),
        decreases hi - lo,
    {
        let mid: u128 = lo + (hi - lo + 1) / 2;
        proof {
            assert((mid as int) * (mid as int) <= (0xFFFF_FFFF_FFFF_FFFFu128 as int) * (0xFFFF_FFFF_FFFF_FFFFu128 as int)) by (nonlinear_arith)
                requires
                    0 <= mid as int <= 0xFFFF_FFFF_FFFF_FFFFu128 as int,
            ;
        }
        if mid * mid <= x {
            lo = mid;
        } else {
            hi = mid - 1;
        }
    }
    proof {
        lemma_floor_sqrt_unique(x as int, lo as int);
    }
    lo as u64
}

} // verus!
