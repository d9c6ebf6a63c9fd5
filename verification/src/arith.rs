//! Exact integer arithmetic behind the fixed-point formulas: a rounded
//! multiply–divide and an integer square root.

use vstd::prelude::*;
use crate::round_div;

verus! {

/// `n / d <= m` exactly when `n <= m * d + d - 1`, for positive `d`.
proof fn lemma_div_le_iff(n: int, d: int, m: int)
    requires
        n >= 0,
        d > 0,
        m >= 0,
    ensures
        n / d <= m <==> n <= m * d + d - 1,
{
    vstd::arithmetic::div_mod::lemma_fundamental_div_mod(n, d);
    assert(n / d <= m <==> n <= m * d + d - 1) by (nonlinear_arith)
        requires
            n >= 0,
            d > 0,
            m >= 0,
            n == d * (n / d) + n % d,
            0 <= n % d < d,
            n / d >= 0,
    {}
}

/// The rounded quotient `round_div(n, d)` fits below a cap `m` exactly when
/// `n` stays at or below `m * d + d - 1 - d / 2`.
proof fn lemma_round_fits(n: int, d: int, m: int)
    requires
        n >= 0,
        d > 0,
        m >= 0,
    ensures
        round_div(n, d) <= m <==> n <= m * d + d - 1 - d / 2,
        round_div(n, d) >= 0,
{
    lemma_div_le_iff(n + d / 2, d, m);
    vstd::arithmetic::div_mod::lemma_div_pos_is_pos(n + d / 2, d);
}

/// `x * c <= l` exactly when `x <= l / c`, for positive `c` and nonnegative
/// `x` and `l`.
proof fn lemma_mul_le_iff_div(x: int, c: int, l: int)
    requires
        x >= 0,
        c > 0,
        l >= 0,
    ensures
        x * c <= l <==> x <= l / c,
{
    vstd::arithmetic::div_mod::lemma_fundamental_div_mod(l, c);
    assert(x * c <= l <==> x <= l / c) by (nonlinear_arith)
        requires
            x >= 0,
            c > 0,
            l >= 0,
            l == c * (l / c) + l % c,
            0 <= l % c < c,
    {}
}

/// When the constant factor `a` is at most half the divisor `d`, the rounded
/// quotient `round_div(a * l, d)` fits in a `u64` for every `u64` value `l`.
pub proof fn lemma_round_le_max(a: int, l: int, d: int)
    requires
        0 <= a,
        0 <= l <= u64::MAX,
        0 < d,
        2 * a <= d,
    ensures
        0 <= round_div(a * l, d) <= u64::MAX,
{
    let m = u64::MAX as int;
    assert(a * l >= 0) by (nonlinear_arith)
        requires
            a >= 0,
            l >= 0,
    {}
    lemma_round_fits(a * l, d, m);
    vstd::arithmetic::div_mod::lemma_fundamental_div_mod(d, 2);
    assert(a * l <= m * d + d - 1 - d / 2) by (nonlinear_arith)
        requires
            0 <= a,
            0 <= l <= m,
            0 < d,
            2 * a <= d,
            m >= 1,
            d == 2 * (d / 2) + d % 2,
            0 <= d % 2 < 2,
    {}
}

/// Rounded product-quotient `round_div(a * b * c, d)` on plain integers.
///
/// Returns `None` exactly when the divisor is zero or the rounded quotient
/// does not fit in a `u64`; otherwise the result is the exact rounded value.
pub fn mul3_div_round(a: u64, b: u64, c: u64, d: u64) -> (r: Option<u64>)
    ensures
        r is Some <==> d > 0 && round_div(a * b * c, d as int) <= u64::MAX,
        r is Some ==> r->0 == round_div(a * b * c, d as int),
{
    if d == 0 {
        return None;
    }
    let ghost cap: int = u64::MAX as int;
    let ghost prod: int = a * b * c;
    let ghost dd: int = d as int;
    proof {
        assert(prod >= 0) by (nonlinear_arith)
            requires
                prod == a * b * c,
                a >= 0,
                b >= 0,
                c >= 0,
        {}
        lemma_round_fits(prod, dd, cap);
        assert(cap * dd + dd - 1 <= cap * cap + cap) by (nonlinear_arith)
            requires
                0 < dd <= cap,
        {}
        assert(cap * cap + cap < u128::MAX) by (nonlinear_arith)
            requires
                cap == u64::MAX,
        {}
        vstd::arithmetic::mul::lemma_mul_upper_bound(a as int, cap, b as int, cap);
    }
    // Largest numerator whose rounded quotient still fits in a u64.
    let lim: u128 = (u64::MAX as u128) * (d as u128) + ((d as u128) - 1) - (d as u128) / 2;
    let ab: u128 = (a as u128) * (b as u128);
    if c == 0 {
        proof {
            assert(prod == 0) by (nonlinear_arith)
                requires
                    prod == a * b * c,
                    c == 0,
            {}
            vstd::arithmetic::div_mod::lemma_remainder_upper(dd / 2, dd);
            vstd::arithmetic::div_mod::lemma_basic_div(dd / 2, dd);
        }
        return Some(0);
    }
    proof {
        lemma_mul_le_iff_div(ab as int, c as int, lim as int);
        assert(ab as int * c as int == prod) by (nonlinear_arith)
            requires
                ab == a as int * b as int,
                prod == a * b * c,
        {}
    }
    if ab > lim / (c as u128) {
        return None;
    }
    let abc: u128 = ab * (c as u128);
    let q: u128 = (abc + (d as u128) / 2) / (d as u128);
    proof {
        assert(q == round_div(prod, dd));
        assert(q <= cap);
    }
    Some(q as u64)
}

/// Largest integer whose square does not exceed `n`.
pub open spec fn sqrt_floor(n: nat) -> nat
    decreases n,
{
    if n == 0 {
        0
    } else {
        let s = sqrt_floor((n - 1) as nat);
        if (s + 1) * (s + 1) <= n {
            s + 1
        } else {
            s
        }
    }
}

/// `sqrt_floor(n)` squares to at most `n`, and the next integer squares past
/// `n`.
pub proof fn lemma_sqrt_floor_bounds(n: nat)
    ensures
        sqrt_floor(n) * sqrt_floor(n) <= n,
        n < (sqrt_floor(n) + 1) * (sqrt_floor(n) + 1),
    decreases n,
{
    if n > 0 {
        lemma_sqrt_floor_bounds((n - 1) as nat);
        let s = sqrt_floor((n - 1) as nat);
        if (s + 1) * (s + 1) <= n {
            assert(sqrt_floor(n) == s + 1);
            assert(n - 1 < (s + 1) * (s + 1));
            assert(n < (s + 2) * (s + 2)) by (nonlinear_arith)
                requires
                    n <= (s + 1) * (s + 1),
                    s >= 0,
            {}
        } else {
            assert(sqrt_floor(n) == s);
            assert(s * s <= n - 1 <= n);
        }
    } else {
        assert(sqrt_floor(n) == 0);
        assert(n < (0 + 1) * (0 + 1)) by (nonlinear_arith)
            requires
                n == 0,
        {}
    }
}

/// Any integer that squares to at most `n` while its successor squares past
/// `n` is `sqrt_floor(n)`.
pub proof fn lemma_sqrt_floor_unique(n: nat, r: nat)
    requires
        r * r <= n,
        n < (r + 1) * (r + 1),
    ensures
        r == sqrt_floor(n),
{
    lemma_sqrt_floor_bounds(n);
    let s = sqrt_floor(n);
    assert(r == s) by (nonlinear_arith)
        requires
            r * r <= n < (r + 1) * (r + 1),
            s * s <= n < (s + 1) * (s + 1),
            r >= 0,
            s >= 0,
    {}
}

/// Integer square root of a `u128`, by binary search.
pub fn isqrt(n: u128) -> (r: u64)
    ensures
        r == sqrt_floor(n as nat),
{
    if n == 0 {
        proof {
            assert(sqrt_floor(0) == 0);
        }
        return 0;
    }
    let mut lo: u128 = 0;
    let mut hi: u128 = 0x1_0000_0000_0000_0000;
    proof {
        assert((n as int) < (hi as int) * (hi as int)) by (nonlinear_arith)
            requires
                hi == 0x1_0000_0000_0000_0000u128,
                n <= u128::MAX,
        {}
    }
    while lo + 1 < hi
        invariant
            lo < hi <= 0x1_0000_0000_0000_0000u128,
            (lo as int) * (lo as int) <= n,
            (n as int) < (hi as int) * (hi as int),
        decreases hi - lo,
    {
        let mid: u128 = lo + (hi - lo) / 2;
        proof {
            assert(lo < mid < hi) by (nonlinear_arith)
                requires
                    lo + 1 < hi,
                    mid == lo + (hi - lo) / 2,
            {}
            assert((mid as int) * (mid as int) <= u128::MAX) by (nonlinear_arith)
                requires
                    mid < 0x1_0000_0000_0000_0000u128,
            {}
        }
        if mid * mid <= n {
            lo = mid;
        } else {
            hi = mid;
        }
    }
    proof {
        lemma_sqrt_floor_unique(n as nat, lo as nat);
    }
    lo as u64
}

} // verus!
