//! Fixed-point arithmetic helpers.
//!
//! All geometric quantities in this crate (UI points, device pixels,
//! texture coordinates, normalized device coordinates) are carried as
//! integers with sixteen fractional bits, so `FX_ONE` stands for the
//! real number one.  The helpers below give the crate one rounding
//! convention for each operation, stated exactly in their contracts.

use vstd::prelude::*;

verus! {

/// One in fixed-point representation: sixteen fractional bits.
pub const FX_ONE: i64 = 65536;

/// Half in fixed-point representation.
pub const FX_HALF: i64 = 32768;

/// Division truncated toward zero, for a positive divisor.
pub open spec fn spec_tdiv(n: int, d: int) -> int {
    if n >= 0 {
        n / d
    } else {
        -((-n) / d)
    }
}

/// Division rounded to the nearest integer, halves away from zero,
/// for a positive divisor.
pub open spec fn spec_rdiv(n: int, d: int) -> int {
    if n >= 0 {
        (n + d / 2) / d
    } else {
        -(((-n) + d / 2) / d)
    }
}

/// Division rounded toward negative infinity, for a positive divisor.
/// For a positive divisor this agrees with the mathematical `/` of
/// specifications, which is Euclidean.
pub open spec fn spec_fdiv(n: int, d: int) -> int {
    n / d
}

/// Remainder in `[0, d)`, for a positive divisor; agrees with the
/// mathematical `%` of specifications.
pub open spec fn spec_emod(n: int, d: int) -> int {
    n % d
}

/// Truncated division on `i128`, toward zero.
pub fn tdiv128(n: i128, d: i128) -> (r: i128)
    requires
        d > 0,
        n > i128::MIN,
    ensures
        r == spec_tdiv(n as int, d as int),
{
    if n >= 0 {
        n / d
    } else {
        -((-n) / d)
    }
}

/// Truncated division on `i64`, toward zero.
pub fn tdiv64(n: i64, d: i64) -> (r: i64)
    requires
        d > 0,
        n > i64::MIN,
    ensures
        r == spec_tdiv(n as int, d as int),
{
    if n >= 0 {
        n / d
    } else {
        -((-n) / d)
    }
}

/// The magnitude of a truncated quotient is bounded by any `b` whose
/// product with the divisor bounds the dividend.
pub proof fn lemma_tdiv_bound(n: int, d: int, b: int)
    requires
        d > 0,
        b >= 0,
        -(b * d) <= n <= b * d,
    ensures
        -b <= spec_tdiv(n, d) <= b,
{
    if n >= 0 {
        vstd::arithmetic::div_mod::lemma_fundamental_div_mod(n, d);
        vstd::arithmetic::div_mod::lemma_mod_bound(n, d);
        assert(0 <= n / d <= b) by (nonlinear_arith)
            requires
                n == d * (n / d) + n % d,
                0 <= n % d < d,
                0 <= n <= b * d,
                d > 0,
                b >= 0,
        ;
    } else {
        vstd::arithmetic::div_mod::lemma_fundamental_div_mod(-n, d);
        vstd::arithmetic::div_mod::lemma_mod_bound(-n, d);
        assert(0 <= (-n) / d <= b) by (nonlinear_arith)
            requires
                -n == d * ((-n) / d) + (-n) % d,
                0 <= (-n) % d < d,
                0 < -n <= b * d,
                d > 0,
                b >= 0,
        ;
    }
}

/// A truncated quotient of a nonnegative dividend is at least any `b`
/// whose product with the divisor the dividend reaches.
pub proof fn lemma_tdiv_lower(n: int, d: int, b: int)
    requires
        d > 0,
        b >= 0,
        n >= b * d,
    ensures
        spec_tdiv(n, d) >= b,
{
    vstd::arithmetic::div_mod::lemma_fundamental_div_mod(n, d);
    vstd::arithmetic::div_mod::lemma_mod_bound(n, d);
    assert(n / d >= b) by (nonlinear_arith)
        requires
            n == d * (n / d) + n % d,
            0 <= n % d < d,
            n >= b * d,
            d > 0,
            b >= 0,
    ;
}

/// Division on `i128` rounded to the nearest integer, halves away from
/// zero.  The bound on `n` leaves room for the added half divisor.
pub fn rdiv128(n: i128, d: i128) -> (r: i128)
    requires
        d > 0,
        -0x40000000000000000000000000000000 <= n <= 0x40000000000000000000000000000000,
        d <= 0x40000000000000000000000000000000,
    ensures
        r == spec_rdiv(n as int, d as int),
{
    if n >= 0 {
        (n + d / 2) / d
    } else {
        -(((-n) + d / 2) / d)
    }
}

/// Division on `i64` rounded toward negative infinity.
pub fn fdiv64(n: i64, d: i64) -> (r: i64)
    requires
        d > 0,
        n > i64::MIN + d,
    ensures
        r == spec_fdiv(n as int, d as int),
{
    if n >= 0 {
        n / d
    } else {
        proof {
            lemma_fdiv_negative(n as int, d as int);
        }
        if (-n) % d == 0 {
            -((-n) / d)
        } else {
            -((-n) / d) - 1
        }
    }
}

/// Remainder on `i64` in `[0, d)` (Euclidean).
pub fn emod64(n: i64, d: i64) -> (r: i64)
    requires
        d > 0,
        n > i64::MIN + d,
    ensures
        r == spec_emod(n as int, d as int),
{
    let q = fdiv64(n, d);
    proof {
        vstd::arithmetic::div_mod::lemma_fundamental_div_mod(n as int, d as int);
    }
    n - q * d
}

/// Widening product of two `i64` values; an `i128` always holds it.
pub fn mul_i64_wide(a: i64, b: i64) -> (r: i128)
    ensures
        r == a as int * b as int,
        -0x40000000000000000000000000000000 <= r <= 0x40000000000000000000000000000000,
{
    proof {
        assert(-0x40000000000000000000000000000000 <= (a as int) * (b as int)
            <= 0x40000000000000000000000000000000) by (nonlinear_arith)
            requires
                -0x8000000000000000 <= a as int <= 0x7fffffffffffffff,
                -0x8000000000000000 <= b as int <= 0x7fffffffffffffff,
        ;
    }
    (a as i128) * (b as i128)
}

/// Relates truncated and floor division of a negative dividend by a
/// positive divisor: they agree exactly when the divisor divides the
/// dividend, and differ by one otherwise.
proof fn lemma_fdiv_negative(n: int, d: int)
    requires
        d > 0,
        n < 0,
    ensures
        (-n) % d == 0 ==> n / d == -((-n) / d),
        (-n) % d != 0 ==> n / d == -((-n) / d) - 1,
{
    vstd::arithmetic::div_mod::lemma_fundamental_div_mod(n, d);
    vstd::arithmetic::div_mod::lemma_fundamental_div_mod(-n, d);
    vstd::arithmetic::div_mod::lemma_mod_bound(n, d);
    vstd::arithmetic::div_mod::lemma_mod_bound(-n, d);
    let q = n / d;
    let qn = (-n) / d;
    assert((n % d == 0) == (d * q == n));
    if n % d == 0 {
        assert(d * q == n);
        assert(-n == d * (-q)) by (nonlinear_arith)
            requires
                d * q == n,
        ;
        vstd::arithmetic::div_mod::lemma_fundamental_div_mod_converse(-n, d, -q, 0);
        assert(qn == -q);
    } else {
        let m = n % d;
        assert(n == d * q + m && 0 < m < d);
        assert(-n == d * (-q - 1) + (d - m)) by {
            assert(d * (-q - 1) == -(d * q) - d) by (nonlinear_arith);
        }
        assert(0 < d - m < d);
        vstd::arithmetic::div_mod::lemma_fundamental_div_mod_converse(-n, d, -q - 1, d - m);
        assert(qn == -q - 1);
    }
}

} // verus!
