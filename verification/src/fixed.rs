//! Signed fixed-point numbers.
//!
//! Every amount, rate and ratio in the lending core is a `Fixed`: an
//! `i128` count of subunits, `SCALE` of which make one whole unit.
//! Multiplication and division truncate toward zero, exactly as the
//! executable code computes them; the spec-level models `fmul` and
//! `fdiv` pin that rounding down to the subunit.

use vstd::arithmetic::div_mod::{lemma_div_is_ordered, lemma_div_nonincreasing, lemma_div_pos_is_pos};
use vstd::arithmetic::mul::{lemma_mul_inequality, lemma_mul_unary_negation};
use vstd::prelude::*;

verus! {

/// Number of subunits in one whole unit.
pub const SCALE: i128 = 1_000_000_000_000;

/// A signed fixed-point number: `units` subunits of `1 / SCALE` each.
#[derive(Clone, Copy, PartialEq, Eq, Structural, Debug)]
pub struct Fixed {
    pub units: i128,
}

impl View for Fixed {
    type V = int;

    open spec fn view(&self) -> int {
        self.units as int
    }
}

/// The fixed-point number holding `units` subunits.
pub open spec fn fx(units: int) -> Fixed
    recommends
        in_i128(units),
{
    Fixed { units: units as i128 }
}

/// Magnitude of a mathematical integer.
pub open spec fn abs_val(x: int) -> int {
    if x >= 0 {
        x
    } else {
        -x
    }
}

/// `x` fits in an `i128`.
pub open spec fn in_i128(x: int) -> bool {
    i128::MIN <= x && x <= i128::MAX
}

/// Division of `x` by `d`, truncating toward zero.
pub open spec fn tdiv(x: int, d: int) -> int
    recommends
        d != 0,
{
    if (x >= 0) == (d >= 0) {
        abs_val(x) / abs_val(d)
    } else {
        -(abs_val(x) / abs_val(d))
    }
}

/// Fixed-point product of two subunit counts.
pub open spec fn fmul(a: int, b: int) -> int {
    tdiv(a * b, SCALE as int)
}

/// Fixed-point quotient of two subunit counts.
pub open spec fn fdiv(a: int, b: int) -> int
    recommends
        b != 0,
{
    tdiv(a * SCALE, b)
}

/// The sign of a product is determined by the signs of its factors.
pub proof fn lemma_mul_signs(a: int, b: int)
    by (nonlinear_arith)
    ensures
        a >= 0 && b >= 0 ==> a * b >= 0,
        a <= 0 && b <= 0 ==> a * b >= 0,
        a >= 0 && b <= 0 ==> a * b <= 0,
        a <= 0 && b >= 0 ==> a * b <= 0,
        a != 0 && b != 0 ==> a * b != 0,
{
}

/// The magnitude of a product is the product of the magnitudes.
proof fn lemma_abs_mul(a: int, b: int)
    ensures
        abs_val(a * b) == abs_val(a) * abs_val(b),
{
    lemma_mul_signs(a, b);
    lemma_mul_unary_negation(a, b);
    lemma_mul_unary_negation(-a, b);
}

/// A fixed-point product of non-negative factors is non-negative.
pub proof fn lemma_fmul_nonneg(a: int, b: int)
    requires
        a >= 0,
        b >= 0,
    ensures
        fmul(a, b) >= 0,
{
    lemma_mul_signs(a, b);
    lemma_div_pos_is_pos(a * b, SCALE as int);
}

/// Scaling a non-negative amount by a rate of at most one whole unit
/// never enlarges it.
pub proof fn lemma_fmul_unit_bound(a: int, r: int)
    requires
        a >= 0,
        0 <= r,
        r <= SCALE,
    ensures
        0 <= fmul(a, r),
        fmul(a, r) <= a,
{
    lemma_fmul_nonneg(a, r);
    lemma_mul_inequality(r, SCALE as int, a);
    lemma_div_is_ordered(a * r, a * (SCALE as int), SCALE as int);
    vstd::arithmetic::div_mod::lemma_div_multiples_vanish(a, SCALE as int);
    assert(r * a == a * r) by (nonlinear_arith);
    assert((SCALE as int) * a == a * (SCALE as int)) by (nonlinear_arith);
}

/// A fixed-point quotient of a non-negative amount by a positive one
/// is non-negative.
pub proof fn lemma_fdiv_nonneg(a: int, b: int)
    requires
        a >= 0,
        b > 0,
    ensures
        fdiv(a, b) >= 0,
{
    lemma_mul_signs(a, SCALE as int);
    lemma_div_pos_is_pos(a * SCALE, b);
}

/// Magnitude of an `i128` other than the minimum.
fn abs_u(x: i128) -> (r: u128)
    requires
        x > i128::MIN,
    ensures
        r == abs_val(x as int),
{
    if x >= 0 {
        x as u128
    } else {
        (-x) as u128
    }
}

impl Fixed {
    /// The zero amount.
    pub fn zero() -> (r: Fixed)
        ensures
            r@ == 0,
    {
        Fixed { units: 0 }
    }

    /// The fixed-point number for `n` whole units.
    pub fn from_int(n: i64) -> (r: Fixed)
        ensures
            r@ == n * SCALE,
    {
        proof {
            lemma_mul_inequality(n as int, i64::MAX as int, SCALE as int);
            lemma_mul_inequality(i64::MIN as int, n as int, SCALE as int);
        }
        Fixed { units: (n as i128) * SCALE }
    }

    /// Sum; the caller keeps it within the machine range.
    pub fn plus(self, other: Fixed) -> (r: Fixed)
        requires
            in_i128(self@ + other@),
        ensures
            r@ == self@ + other@,
    {
        Fixed { units: self.units + other.units }
    }

    /// Difference; the caller keeps it within the machine range.
    pub fn minus(self, other: Fixed) -> (r: Fixed)
        requires
            in_i128(self@ - other@),
        ensures
            r@ == self@ - other@,
    {
        Fixed { units: self.units - other.units }
    }

    /// Fixed-point product, truncating toward zero.
    pub fn times(self, other: Fixed) -> (r: Fixed)
        requires
            abs_val(self@ * other@) <= i128::MAX,
        ensures
            r@ == fmul(self@, other@),
    {
        let ghost p: int = self@ * other@;
        if self.units == 0 || other.units == 0 {
            proof {
                lemma_mul_signs(self@, other@);
                assert(p == 0);
            }
            Fixed { units: 0 }
        } else {
            proof {
                lemma_abs_mul(self@, other@);
                lemma_mul_signs(self@, other@);
                lemma_mul_inequality(1, abs_val(other@), abs_val(self@));
                assert(abs_val(self@) * 1 == abs_val(self@)) by (nonlinear_arith);
                assert(abs_val(self@) * abs_val(other@) == abs_val(other@) * abs_val(self@))
                    by (nonlinear_arith);
                lemma_mul_inequality(1, abs_val(self@), abs_val(other@));
                assert(abs_val(other@) * 1 == abs_val(other@)) by (nonlinear_arith);
            }
            let ma = abs_u(self.units);
            let mb = abs_u(other.units);
            let q = (ma * mb) / (SCALE as u128);
            proof {
                lemma_div_nonincreasing(abs_val(p), SCALE as int);
            }
            let qi = q as i128;
            if (self.units < 0) != (other.units < 0) {
                Fixed { units: -qi }
            } else {
                Fixed { units: qi }
            }
        }
    }

    /// Product with a whole number of epochs; exact.
    pub fn times_epochs(self, epochs: u64) -> (r: Fixed)
        requires
            abs_val(self@ * epochs) <= i128::MAX,
        ensures
            r@ == self@ * epochs,
    {
        proof {
            lemma_abs_mul(self@, epochs as int);
        }
        Fixed { units: self.units * (epochs as i128) }
    }

    /// Fixed-point quotient, truncating toward zero.
    pub fn div_by(self, other: Fixed) -> (r: Fixed)
        requires
            other@ != 0,
            other@ > i128::MIN,
            abs_val(self@) * SCALE <= i128::MAX,
        ensures
            r@ == fdiv(self@, other@),
    {
        let ghost x: int = self@ * SCALE;
        proof {
            lemma_abs_mul(self@, SCALE as int);
            lemma_mul_signs(self@, SCALE as int);
            lemma_mul_inequality(1, SCALE as int, abs_val(self@));
            assert(abs_val(self@) * 1 == abs_val(self@)) by (nonlinear_arith);
        }
        let ma = abs_u(self.units);
        let mb = abs_u(other.units);
        let q = (ma * (SCALE as u128)) / mb;
        proof {
            lemma_div_is_ordered(abs_val(x), i128::MAX as int, abs_val(other@ ));
            lemma_div_pos_is_pos(abs_val(x), abs_val(other@));
            lemma_div_nonincreasing(abs_val(x), abs_val(other@));
        }
        let qi = q as i128;
        if (self.units < 0) != (other.units < 0) {
            Fixed { units: -qi }
        } else {
            Fixed { units: qi }
        }
    }

    /// Whether this amount is at most `other`.
    pub fn le(self, other: Fixed) -> (r: bool)
        ensures
            r == (self@ <= other@),
    {
        self.units <= other.units
    }

    /// Whether this amount is strictly below `other`.
    pub fn lt(self, other: Fixed) -> (r: bool)
        ensures
            r == (self@ < other@),
    {
        self.units < other.units
    }

    /// Whether this amount is zero.
    pub fn is_zero(self) -> (r: bool)
        ensures
            r == (self@ == 0),
    {
        self.units == 0
    }
}

} // verus!
