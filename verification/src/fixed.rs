//! Fixed-point arithmetic.
//!
//! Lengths, positions and zoom factors are signed 64-bit integers that count
//! 1/65536ths: the number 1 is `ONE`, a zoom of 1.5 is `98304`. Products and
//! quotients are taken exactly in 128 bits, rounded down once, and brought
//! back into 64 bits by saturation.

use vstd::prelude::*;
use vstd::arithmetic::div_mod::lemma_fundamental_div_mod;
use vstd::arithmetic::div_mod::lemma_fundamental_div_mod_converse;

verus! {

/// The fixed-point representation of the number 1.
pub const ONE: i64 = 65536;

/// `v` brought into the range of `i64`.
pub open spec fn saturated(v: int) -> int {
    if v < i64::MIN {
        i64::MIN as int
    } else if v > i64::MAX {
        i64::MAX as int
    } else {
        v
    }
}

/// `a * b / c`, rounded down.
pub open spec fn mul_div(a: int, b: int, c: int) -> int {
    (a * b) / c
}

/// The midpoint of `lo` and `hi`, rounded down.
pub open spec fn midpoint(lo: int, hi: int) -> int {
    lo + (hi - lo) / 2
}

/// Rounding a negative quotient down is rounding its magnitude up.
pub proof fn lemma_floor_of_negative(m: int, c: int)
    requires
        m >= 0,
        c > 0,
    ensures
        (-m) / c == -((m + c - 1) / c),
{
    let n = m + c - 1;
    let q = n / c;
    let r = n % c;
    lemma_fundamental_div_mod(n, c);
    assert(c * q == q * c) by (nonlinear_arith);
    assert((-q) * c == -(q * c)) by (nonlinear_arith);
    lemma_fundamental_div_mod_converse(-m, c, -q, c - 1 - r);
}

/// A product of two 64-bit numbers fits in 127 bits.
pub proof fn lemma_product_bound(a: int, b: int)
    requires
        i64::MIN <= a <= i64::MAX,
        i64::MIN <= b <= i64::MAX,
    ensures
        -0x4000_0000_0000_0000_0000_0000_0000_0000 <= a * b
            <= 0x4000_0000_0000_0000_0000_0000_0000_0000,
{
    assert(-0x4000_0000_0000_0000_0000_0000_0000_0000 <= a * b
        <= 0x4000_0000_0000_0000_0000_0000_0000_0000) by (nonlinear_arith)
        requires
            -0x8000_0000_0000_0000 <= a <= 0x7fff_ffff_ffff_ffff,
            -0x8000_0000_0000_0000 <= b <= 0x7fff_ffff_ffff_ffff,
    ;
}

/// Dividing by a positive number brings a value no further from zero.
pub proof fn lemma_quotient_bound(n: int, c: int, bound: int)
    requires
        c >= 1,
        -bound <= n <= bound,
    ensures
        -bound <= n / c <= bound,
{
    lemma_fundamental_div_mod(n, c);
    let q = n / c;
    let r = n % c;
    assert(-bound <= q <= bound) by (nonlinear_arith)
        requires
            n == c * q + r,
            0 <= r < c,
            c >= 1,
            -bound <= n <= bound,
    ;
}

/// Scaling by `a / b` and back by `b / a` returns to within `b / a + 1` below
/// the start: each of the two divisions rounds down once.
pub proof fn lemma_scale_round_trip(u: int, a: int, b: int)
    requires
        a >= 1,
        b >= 1,
    ensures
        0 <= u - mul_div(mul_div(u, a, b), b, a) <= b / a + 1,
{
    let d = (u * a) / b;
    let e = (d * b) / a;
    lemma_fundamental_div_mod(u * a, b);
    lemma_fundamental_div_mod(d * b, a);
    lemma_fundamental_div_mod(b, a);
    let rd = (u * a) % b;
    let re = (d * b) % a;
    let k = b / a;
    let rk = b % a;
    assert(0 <= u - e <= k + 1) by (nonlinear_arith)
        requires
            a >= 1,
            b >= 1,
            u * a == b * d + rd,
            0 <= rd < b,
            d * b == a * e + re,
            0 <= re < a,
            b == a * k + rk,
            0 <= rk < a,
    ;
}

/// Brings a 128-bit value into 64 bits.
pub fn saturate(v: i128) -> (r: i64)
    ensures
        r == saturated(v as int),
{
    if v < i64::MIN as i128 {
        i64::MIN
    } else if v > i64::MAX as i128 {
        i64::MAX
    } else {
        v as i64
    }
}

/// `n / d`, rounded down.
pub fn floor_div(n: i128, d: i64) -> (r: i128)
    requires
        d > 0,
        -0x4000_0000_0000_0000_0000_0000_0000_0000 <= n <= 0x4000_0000_0000_0000_0000_0000_0000_0000,
    ensures
        r == (n as int) / (d as int),
{
    let c: i128 = d as i128;
    if n >= 0 {
        n / c
    } else {
        let m: i128 = -n;
        let q: i128 = (m + (c - 1)) / c;
        proof {
            lemma_floor_of_negative(m as int, c as int);
        }
        -q
    }
}

/// `a * b / c`, exact in 128 bits and rounded down.
pub fn mul_div_floor(a: i64, b: i64, c: i64) -> (r: i128)
    requires
        c > 0,
    ensures
        r == mul_div(a as int, b as int, c as int),
        -0x4000_0000_0000_0000_0000_0000_0000_0000 <= r <= 0x4000_0000_0000_0000_0000_0000_0000_0000,
{
    proof {
        lemma_product_bound(a as int, b as int);
        lemma_quotient_bound(a * b, c as int, 0x4000_0000_0000_0000_0000_0000_0000_0000);
    }
    floor_div((a as i128) * (b as i128), c)
}

} // verus!
