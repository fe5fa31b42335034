//! Exact integer arithmetic under the fixed-point kernel: truncating
//! division (the rounding rule of every scaled multiplication and division)
//! and the integer square root behind magnitudes.

use vstd::prelude::*;

verus! {

/// Integer division rounding toward zero, as Rust's `/` computes it.
/// Unspecified for `b == 0`, like `/` itself.
pub open spec fn div_trunc(a: int, b: int) -> int {
    if a == 0 {
        0
    } else if a > 0 && b > 0 {
        a / b
    } else if a < 0 && b < 0 {
        (a * -1) / (b * -1)
    } else if a < 0 {
        ((a * -1) / b) * -1
    } else {
        (a / (b * -1)) * -1
    }
}

/// A value representable by an `i64`.
pub open spec fn fits_i64(v: int) -> bool {
    i64::MIN <= v <= i64::MAX
}

/// A value representable by an `i128`.
pub open spec fn fits_i128(v: int) -> bool {
    i128::MIN <= v <= i128::MAX
}

/// Negating dividend and divisor together leaves the truncated quotient
/// unchanged, so a negative divisor reduces to a positive one.
pub proof fn lemma_div_trunc_negate(a: int, b: int)
    requires
        b < 0,
    ensures
        div_trunc(a, b) == div_trunc(-a, -b),
{
}

/// Truncating division is an odd function of the dividend.
pub proof fn lemma_div_trunc_neg(a: int, b: int)
    requires
        b > 0,
    ensures
        div_trunc(-a, b) == -div_trunc(a, b),
{
}

/// The division error: `div_trunc(a, b) * b` falls within `b` of `a`, on the
/// zero side of it.
pub proof fn lemma_div_trunc_bound(a: int, b: int)
    requires
        b > 0,
    ensures
        a >= 0 ==> a - b < div_trunc(a, b) * b <= a,
        a <= 0 ==> a <= div_trunc(a, b) * b < a + b,
{
    if a > 0 {
        vstd::arithmetic::div_mod::lemma_fundamental_div_mod(a, b);
        vstd::arithmetic::div_mod::lemma_mod_division_less_than_divisor(a, b);
        assert(b * (a / b) == (a / b) * b) by (nonlinear_arith);
    } else if a < 0 {
        let n = -a;
        let q = n / b;
        vstd::arithmetic::div_mod::lemma_fundamental_div_mod(n, b);
        vstd::arithmetic::div_mod::lemma_mod_division_less_than_divisor(n, b);
        assert(b * q == q * b) by (nonlinear_arith);
        assert(div_trunc(a, b) == -q);
        assert((-q) * b == -(q * b)) by (nonlinear_arith);
    }
}

/// A bound on the dividend gives the same bound, scaled down, on the
/// truncated quotient.
pub proof fn lemma_div_trunc_le(a: int, b: int, c: int)
    requires
        b > 0,
        c >= 0,
        -(c * b) <= a <= c * b,
    ensures
        -c <= div_trunc(a, b) <= c,
{
    lemma_div_trunc_bound(a, b);
    let q = div_trunc(a, b);
    if q > c {
        assert(q * b >= (c + 1) * b) by (nonlinear_arith)
            requires
                q >= c + 1,
                b > 0,
        ;
        assert((c + 1) * b == c * b + b) by (nonlinear_arith);
    }
    if q < -c {
        assert(q * b <= (-c - 1) * b) by (nonlinear_arith)
            requires
                q <= -c - 1,
                b > 0,
        ;
        assert((-c - 1) * b == -(c * b) - b) by (nonlinear_arith);
    }
}

/// The product of two `i64`-range values stays well inside the `i128`
/// range: at most `2^126`, and above `-2^126`.
pub proof fn lemma_mul_i64_bounds(a: int, b: int)
    by (nonlinear_arith)
    requires
        fits_i64(a),
        fits_i64(b),
    ensures
        -0x3fff_ffff_ffff_ffff_8000_0000_0000_0000 <= a * b
            <= 0x4000_0000_0000_0000_0000_0000_0000_0000,
{
}

/// The integer square root: the greatest `r` with `r * r <= n`.
pub open spec fn isqrt(n: nat) -> nat
    decreases n,
{
    if n == 0 {
        0
    } else {
        let r = isqrt((n - 1) as nat);
        if (r + 1) * (r + 1) <= n {
            r + 1
        } else {
            r
        }
    }
}

/// `isqrt(n)` squares to at most `n`, and the next integer squares past it.
pub proof fn lemma_isqrt_bounds(n: nat)
    ensures
        isqrt(n) * isqrt(n) <= n,
        n < (isqrt(n) + 1) * (isqrt(n) + 1),
    decreases n,
{
    let s = isqrt(n);
    if n == 0 {
        assert(s == 0);
        assert(s * s <= n) by (nonlinear_arith)
            requires
                s == 0,
                n == 0,
        ;
        assert(n < (s + 1) * (s + 1)) by (nonlinear_arith)
            requires
                s == 0,
                n == 0,
        ;
    } else {
        let m = (n - 1) as nat;
        lemma_isqrt_bounds(m);
        let r = isqrt(m);
        if (r + 1) * (r + 1) <= n {
            assert(s == r + 1);
            assert(s * s <= n);
            assert(n <= (r + 1) * (r + 1));
            assert(n < (s + 1) * (s + 1)) by (nonlinear_arith)
                requires
                    s == r + 1,
                    n <= (r + 1) * (r + 1),
            ;
        } else {
            assert(s == r);
            assert(s * s <= n);
            assert(n < (s + 1) * (s + 1));
        }
    }
    assert(s * s <= n);
    assert(n < (s + 1) * (s + 1));
}

/// The two bounds characterize the integer square root.
pub proof fn lemma_isqrt_unique(n: nat, r: nat)
    requires
        r * r <= n,
        n < (r + 1) * (r + 1),
    ensures
        r == isqrt(n),
{
    lemma_isqrt_bounds(n);
    let s = isqrt(n);
    if r < s {
        assert((r + 1) * (r + 1) <= s * s) by (nonlinear_arith)
            requires
                r + 1 <= s,
        ;
    }
    if s < r {
        assert((s + 1) * (s + 1) <= r * r) by (nonlinear_arith)
            requires
                s + 1 <= r,
        ;
    }
}

/// Runtime truncating division; returns exactly `div_trunc` on the inputs.
/// Relies on `i128::checked_div`, whose result Verus specifies; the quotient
/// of a positive divisor never leaves the `i128` range.
pub fn div_trunc_i128(a: i128, b: i128) -> (q: i128)
    requires
        b > 0,
    ensures
        q as int == div_trunc(a as int, b as int),
{
    proof {
        let ai = a as int;
        let bi = b as int;
        if ai < 0 {
            vstd::arithmetic::div_mod::lemma_div_pos_is_pos(-ai, bi);
            vstd::arithmetic::div_mod::lemma_div_nonincreasing(-ai, bi);
            assert(div_trunc(ai, bi) == ((ai * -1) / bi) * -1);
            assert(0 <= (-ai) / bi <= -ai);
            assert(ai * -1 == -ai);
        } else if ai > 0 {
            vstd::arithmetic::div_mod::lemma_div_pos_is_pos(ai, bi);
            vstd::arithmetic::div_mod::lemma_div_nonincreasing(ai, bi);
            assert(0 <= ai / bi <= ai);
        }
        assert(i128::MIN <= div_trunc(ai, bi) <= i128::MAX);
    }
    match a.checked_div(b) {
        Some(q) => q,
        None => {
            proof {
                assert(false);
            }
            0
        },
    }
}

/// Runtime `div_trunc(a * b, d)` for `i64`-range operands: the product is
/// taken exactly in `i128`, then divided with truncation.
pub fn mul_div_trunc(a: i64, b: i64, d: i128) -> (q: i64)
    requires
        d != 0,
        fits_i64(d as int),
        fits_i64(div_trunc(a as int * b as int, d as int)),
    ensures
        q as int == div_trunc(a as int * b as int, d as int),
{
    proof {
        lemma_mul_i64_bounds(a as int, b as int);
    }
    let p = (a as i128) * (b as i128);
    if d > 0 {
        let q = div_trunc_i128(p, d);
        q as i64
    } else {
        proof {
            lemma_div_trunc_negate(p as int, d as int);
        }
        let q = div_trunc_i128(-p, -d);
        q as i64
    }
}

/// Runtime integer square root by binary search over the result.
pub fn isqrt_u128(n: u128) -> (r: u64)
    ensures
        r as nat == isqrt(n as nat),
{
    let mut lo: u64 = 0;
    let mut hi: u64 = u64::MAX;
    proof {
        assert((hi as int + 1) * (hi as int + 1) > n as int) by (nonlinear_arith)
            requires
                hi as int + 1 == 0x1_0000_0000_0000_0000,
                n <= u128::MAX,
        ;
    }
    while lo < hi
        invariant
            lo <= hi,
            (lo as int) * (lo as int) <= n as int,
            (n as int) < (hi as int + 1) * (hi as int + 1),
        decreases hi - lo,
    {
        let mid: u64 = lo + (hi - lo) / 2 + 1;
        proof {
            assert((mid as int) * (mid as int) <= u128::MAX) by (nonlinear_arith)
                requires
                    mid <= u64::MAX,
            ;
        }
        let sq: u128 = (mid as u128) * (mid as u128);
        if sq <= n {
            lo = mid;
        } else {
            hi = mid - 1;
        }
    }
    proof {
        lemma_isqrt_unique(n as nat, lo as nat);
    }
    lo
}

} // verus!
