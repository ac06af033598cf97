//! Signed 16.16 fixed-point scalars.
//!
//! Every physical quantity in the simulation (positions, velocities,
//! masses, matrix entries) is a [`Fix`]: an `i64` holding the quantity
//! multiplied by [`SCALE`] = 2^16.  All operations are total: results
//! that would leave the `i64` range saturate, and every operation's
//! exact result — saturation and truncation included — is pinned by
//! its contract, so whole-simulation properties can be proved from the
//! scalar layer up.

use vstd::prelude::*;

verus! {

/// Raw units per 1.0: a `Fix` with raw value `r` denotes `r / SCALE`.
pub const SCALE: i64 = 65536;

/// A 16.16 fixed-point number; `raw` is the value times [`SCALE`].
#[derive(Clone, Copy, PartialEq, Eq, Structural, Debug)]
pub struct Fix {
    pub raw: i64,
}

impl View for Fix {
    type V = int;

    open spec fn view(&self) -> int {
        self.raw as int
    }
}

/// Magnitude of a mathematical integer.
pub open spec fn iabs(a: int) -> int {
    if a >= 0 {
        a
    } else {
        -a
    }
}

/// Saturation of a mathematical integer to the `i64` range.
pub open spec fn sat64(x: int) -> int {
    if x > i64::MAX as int {
        i64::MAX as int
    } else if x < i64::MIN as int {
        i64::MIN as int
    } else {
        x
    }
}

/// Quotient rounded toward zero, as `/` rounds on hardware integers.
pub open spec fn tdiv(a: int, b: int) -> int
    recommends
        b != 0,
{
    if (a >= 0) == (b >= 0) {
        iabs(a) / iabs(b)
    } else {
        -(iabs(a) / iabs(b))
    }
}

/// Raw value of a fixed-point sum.
pub open spec fn spec_add(a: int, b: int) -> int {
    sat64(a + b)
}

/// Raw value of a fixed-point difference.
pub open spec fn spec_sub(a: int, b: int) -> int {
    sat64(a - b)
}

/// Raw value of a fixed-point negation.
pub open spec fn spec_neg(a: int) -> int {
    sat64(-a)
}

/// Raw value of a fixed-point product: the double-width product,
/// rescaled with truncation toward zero, then saturated.
pub open spec fn spec_mul(a: int, b: int) -> int {
    sat64(tdiv(a * b, SCALE as int))
}

/// Raw value of a fixed-point quotient.
pub open spec fn spec_div(a: int, b: int) -> int
    recommends
        b != 0,
{
    sat64(tdiv(a * (SCALE as int), b))
}

/// Floor of the square root of a non-negative integer, by the
/// classical digit-pair recursion.
pub open spec fn isqrt(n: int) -> int
    recommends
        n >= 0,
    decreases n,
{
    if n < 1 {
        0
    } else {
        let r = 2 * isqrt(n / 4);
        if (r + 1) * (r + 1) <= n {
            r + 1
        } else {
            r
        }
    }
}

/// Raw value of a fixed-point square root: floor(sqrt(a * SCALE)).
pub open spec fn spec_sqrt(a: int) -> int
    recommends
        a >= 0,
{
    isqrt(a * (SCALE as int))
}

/// The square-root recursion returns the floor of the square root.
pub proof fn lemma_isqrt_bounds(n: int)
    requires
        n >= 0,
    ensures
        0 <= isqrt(n),
        isqrt(n) * isqrt(n) <= n,
        n < (isqrt(n) + 1) * (isqrt(n) + 1),
    decreases n,
{
    if n < 1 {
    } else {
        let m = n / 4;
        lemma_isqrt_bounds(m);
        let h = isqrt(m);
        let r = 2 * h;
        assert(4 * m <= n && n < 4 * m + 4);
        assert(r * r <= n) by (nonlinear_arith)
            requires
                h * h <= m,
                r == 2 * h,
                4 * m <= n,
        ;
        assert(n < (r + 2) * (r + 2)) by (nonlinear_arith)
            requires
                m < (h + 1) * (h + 1),
                r == 2 * h,
                n < 4 * m + 4,
        ;
    }
}

fn sat_to_i64(x: i128) -> (r: i64)
    ensures
        r as int == sat64(x as int),
{
    if x > i64::MAX as i128 {
        i64::MAX
    } else if x < i64::MIN as i128 {
        i64::MIN
    } else {
        x as i64
    }
}

fn tdiv_i128(a: i128, b: i128) -> (r: i128)
    requires
        b != 0,
        a > i128::MIN,
        b > i128::MIN,
    ensures
        r as int == tdiv(a as int, b as int),
{
    let neg: bool = (a < 0) != (b < 0);
    let ua: u128 = if a < 0 {
        (-a) as u128
    } else {
        a as u128
    };
    let ub: u128 = if b < 0 {
        (-b) as u128
    } else {
        b as u128
    };
    let q: u128 = ua / ub;
    proof {
        assert(ua as int / ub as int <= ua as int) by (nonlinear_arith)
            requires
                ub >= 1,
                ua >= 0,
        ;
    }
    if neg {
        -(q as i128)
    } else {
        q as i128
    }
}

impl Fix {
    /// The scalar 0.
    pub fn zero() -> (r: Fix)
        ensures
            r@ == 0,
    {
        Fix { raw: 0 }
    }

    /// The scalar 1.
    pub fn one() -> (r: Fix)
        ensures
            r@ == SCALE as int,
    {
        Fix { raw: SCALE }
    }

    /// The integer `v` as a fixed-point value.
    pub fn from_int(v: i64) -> (r: Fix)
        requires
            -140737488355328 <= v < 140737488355328,
        ensures
            r@ == v * (SCALE as int),
    {
        Fix { raw: v * SCALE }
    }

    /// The rational `num / den` as a fixed-point value.
    pub fn from_ratio(num: i64, den: i64) -> (r: Fix)
        requires
            den != 0,
            -140737488355328 <= num < 140737488355328,
            -140737488355328 <= den < 140737488355328,
        ensures
            r@ == spec_div(num * (SCALE as int), den * (SCALE as int)),
    {
        let a = Fix { raw: num * SCALE };
        let b = Fix { raw: den * SCALE };
        a.div(b)
    }

    /// Saturating fixed-point addition.
    pub fn add(self, other: Fix) -> (r: Fix)
        ensures
            r@ == spec_add(self@, other@),
    {
        let s: i128 = self.raw as i128 + other.raw as i128;
        Fix { raw: sat_to_i64(s) }
    }

    /// Saturating fixed-point subtraction.
    pub fn sub(self, other: Fix) -> (r: Fix)
        ensures
            r@ == spec_sub(self@, other@),
    {
        let s: i128 = self.raw as i128 - other.raw as i128;
        Fix { raw: sat_to_i64(s) }
    }

    /// Saturating fixed-point negation.
    pub fn neg(self) -> (r: Fix)
        ensures
            r@ == spec_neg(self@),
    {
        let s: i128 = -(self.raw as i128);
        Fix { raw: sat_to_i64(s) }
    }

    /// Saturating, truncating fixed-point multiplication.
    pub fn mul(self, other: Fix) -> (r: Fix)
        ensures
            r@ == spec_mul(self@, other@),
    {
        let a: i128 = self.raw as i128;
        let b: i128 = other.raw as i128;
        proof {
            assert(-0x40000000000000000000000000000000 <= (a as int) * (b as int)
                <= 0x40000000000000000000000000000000) by (nonlinear_arith)
                requires
                    -0x8000000000000000 <= a as int <= 0x7fffffffffffffff,
                    -0x8000000000000000 <= b as int <= 0x7fffffffffffffff,
            ;
        }
        let p: i128 = a * b;
        let q: i128 = tdiv_i128(p, SCALE as i128);
        Fix { raw: sat_to_i64(q) }
    }

    /// Saturating, truncating fixed-point division.
    pub fn div(self, other: Fix) -> (r: Fix)
        requires
            other@ != 0,
        ensures
            r@ == spec_div(self@, other@),
    {
        let s: i128 = self.raw as i128;
        proof {
            assert(-0x80000000000000000000 <= (s as int) * 65536 <= 0x80000000000000000000)
                by (nonlinear_arith)
                requires
                    -0x8000000000000000 <= s as int <= 0x7fffffffffffffff,
            ;
        }
        let p: i128 = s * (SCALE as i128);
        let q: i128 = tdiv_i128(p, other.raw as i128);
        Fix { raw: sat_to_i64(q) }
    }

    /// Fixed-point square root of a non-negative value.
    pub fn sqrt(self) -> (r: Fix)
        requires
            self@ >= 0,
        ensures
            r@ == spec_sqrt(self@),
            r@ >= 0,
    {
        let a: u128 = self.raw as u128;
        proof {
            assert((a as int) * 65536 < 0x80000000000000000000) by (nonlinear_arith)
                requires
                    0 <= a as int <= 0x7fffffffffffffff,
            ;
        }
        let n: u128 = a * (SCALE as u128);
        proof {
            lemma_isqrt_bounds(n as int);
        }
        let r: u128 = isqrt_u128(n);
        proof {
            assert((r as int) * (r as int) <= n as int);
            assert((r as int) < 0x10000000000) by (nonlinear_arith)
                requires
                    (r as int) * (r as int) <= n as int,
                    (n as int) < 0x80000000000000000000,
                    (r as int) >= 0,
            ;
        }
        Fix { raw: r as i64 }
    }

    /// Saturating absolute value.
    pub fn abs(self) -> (r: Fix)
        ensures
            r@ == sat64(iabs(self@)),
    {
        if self.raw < 0 {
            self.neg()
        } else {
            self
        }
    }

    /// Truncation of a fixed-point value to its integer part, toward zero.
    pub fn trunc(self) -> (r: i64)
        ensures
            r as int == tdiv(self@, SCALE as int),
    {
        proof {
            assert(iabs(self.raw as int) / 65536 <= iabs(self.raw as int)) by (nonlinear_arith)
                requires
                    iabs(self.raw as int) >= 0,
            ;
        }
        let q: i128 = tdiv_i128(self.raw as i128, SCALE as i128);
        q as i64
    }
}

fn isqrt_u128(n: u128) -> (r: u128)
    requires
        n < 0x1000000000000000000000000000000,
    ensures
        r as int == isqrt(n as int),
    decreases n,
{
    if n < 1 {
        0
    } else {
        proof {
            lemma_isqrt_bounds(n as int / 4);
        }
        let h: u128 = isqrt_u128(n / 4);
        proof {
            assert((h as int) * (h as int) <= (n as int) / 4);
            assert(4 * ((n as int) / 4) <= n as int);
            assert((n as int) / 4 < 0x400000000000000000000000000000);
            assert((h as int) < 0x800000000000000) by (nonlinear_arith)
                requires
                    (h as int) * (h as int) <= (n as int) / 4,
                    (n as int) / 4 < 0x400000000000000000000000000000,
                    (h as int) >= 0,
            ;
        }
        let r: u128 = 2 * h;
        proof {
            assert(((r + 1) as int) * (((r + 1) as int)) <= 0x1000000000000000000000000000000)
                by (nonlinear_arith)
                requires
                    0 <= (r as int) < 0x1000000000000000,
            ;
        }
        if (r + 1) * (r + 1) <= n {
            r + 1
        } else {
            r
        }
    }
}

/// Multiplying by zero gives zero exactly, saturation notwithstanding.
pub proof fn lemma_mul_zero(a: int)
    ensures
        spec_mul(0, a) == 0,
        spec_mul(a, 0) == 0,
{
    assert(0 * a == 0) by (nonlinear_arith);
    assert(a * 0 == 0) by (nonlinear_arith);
}

/// Dividing zero gives zero exactly.
pub proof fn lemma_div_zero(b: int)
    requires
        b != 0,
    ensures
        spec_div(0, b) == 0,
{
}

/// When the dividend is an exact multiple of a positive divisor, the
/// truncating quotient is that multiple.
pub proof fn lemma_tdiv_exact(q: int, b: int)
    requires
        b > 0,
    ensures
        tdiv(b * q, b) == q,
{
    vstd::arithmetic::div_mod::lemma_div_multiples_vanish(q, b);
    if q >= 0 {
        assert(b * q >= 0) by (nonlinear_arith)
            requires
                b > 0,
                q >= 0,
        ;
    } else {
        assert(b * q < 0) by (nonlinear_arith)
            requires
                b > 0,
                q < 0,
        ;
        vstd::arithmetic::div_mod::lemma_div_multiples_vanish(-q, b);
        assert(-(b * q) == b * (-q)) by (nonlinear_arith);
    }
}

/// Multiplying by one (the raw unit) is the identity on raw values.
pub proof fn lemma_mul_unit(a: int)
    requires
        i64::MIN <= a <= i64::MAX,
    ensures
        spec_mul(a, 65536) == a,
        spec_mul(65536, a) == a,
{
    lemma_tdiv_exact(a, 65536);
    assert(a * 65536 == 65536 * a) by (nonlinear_arith);
}

/// The square of plus or minus one unit is one unit.
pub proof fn lemma_unit_sq(a: int)
    requires
        a == 65536 || a == -65536,
    ensures
        spec_mul(a, a) == 65536,
{
    lemma_tdiv_exact(65536, 65536);
    assert(a * a == 65536 * 65536) by (nonlinear_arith)
        requires
            a == 65536 || a == -65536,
    ;
}

/// Dividing a value of at least one unit by a positive divisor no
/// larger than it gives at least one raw unit.
pub proof fn lemma_div_lower_bound(a: int, b: int)
    requires
        0 < b,
        b <= a * 65536,
        a * 65536 <= i64::MAX as int,
    ensures
        spec_div(a, b) >= 1,
        spec_div(a, b) <= a * 65536,
{
    assert((a * 65536) / b >= 1 && (a * 65536) / b <= a * 65536) by (nonlinear_arith)
        requires
            0 < b <= a * 65536,
    ;
}

/// Adding zero changes nothing when the operand is a valid raw value.
pub proof fn lemma_add_zero(a: int)
    requires
        i64::MIN <= a <= i64::MAX,
    ensures
        spec_add(a, 0) == a,
        spec_add(0, a) == a,
        spec_sub(a, 0) == a,
{
}

} // verus!
