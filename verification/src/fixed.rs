//! Signed 31.32 fixed-point sample values with saturating arithmetic.
//!
//! A `Fixed` holds an amplitude as a raw `i64` count of steps of size
//! 2^-32, so full scale (`peak`, 1.0) is `FRAC_ONE` = 2^32 raw steps.
//! Every operation is total: results outside the representable range
//! saturate to the nearest bound instead of wrapping, and division by
//! zero saturates by the sign of the dividend.

use vstd::prelude::*;
use crate::sample::{FromSample, Sample};

verus! {

/// Raw steps per unit amplitude (2^32).
pub const FRAC_ONE: i64 = 0x1_0000_0000;

/// A fixed-point audio sample: `raw` counts steps of 2^-32.
#[derive(Clone, Copy, PartialEq, Eq, Structural, Debug)]
pub struct Fixed {
    pub raw: i64,
}

/// Clamps a mathematical integer into the `i64` range.
pub open spec fn sat64(x: int) -> int {
    if x > i64::MAX {
        i64::MAX as int
    } else if x < i64::MIN {
        i64::MIN as int
    } else {
        x
    }
}

/// Magnitude of a mathematical integer.
pub open spec fn mag(x: int) -> int {
    if x >= 0 {
        x
    } else {
        -x
    }
}

/// Division truncated toward zero, as the magnitude quotient carrying
/// the sign of the exact quotient.
pub open spec fn tz_div(a: int, b: int) -> int
    recommends
        b != 0,
{
    if (a < 0) == (b < 0) {
        mag(a) / mag(b)
    } else {
        -(mag(a) / mag(b))
    }
}

/// The raw value of a saturating fixed-point addition.
pub open spec fn add_raw(a: int, b: int) -> int {
    sat64(a + b)
}

/// The raw value of a saturating fixed-point subtraction.
pub open spec fn sub_raw(a: int, b: int) -> int {
    sat64(a - b)
}

/// The raw value of a saturating fixed-point negation.
pub open spec fn neg_raw(a: int) -> int {
    sat64(-a)
}

/// The raw value of a saturating fixed-point multiplication: the exact
/// raw product rescaled by 2^32, truncated toward zero.
pub open spec fn mul_raw(a: int, b: int) -> int {
    sat64(tz_div(a * b, FRAC_ONE as int))
}

/// The raw value of a saturating fixed-point division. A zero divisor
/// saturates by the sign of the dividend.
pub open spec fn div_raw(a: int, b: int) -> int {
    if b == 0 {
        if a > 0 {
            i64::MAX as int
        } else if a < 0 {
            i64::MIN as int
        } else {
            0
        }
    } else {
        sat64(tz_div(a * (FRAC_ONE as int), b))
    }
}

impl Fixed {
    pub open spec fn add_fx(self, other: Fixed) -> Fixed {
        Fixed { raw: add_raw(self.raw as int, other.raw as int) as i64 }
    }

    pub open spec fn sub_fx(self, other: Fixed) -> Fixed {
        Fixed { raw: sub_raw(self.raw as int, other.raw as int) as i64 }
    }

    pub open spec fn neg_fx(self) -> Fixed {
        Fixed { raw: neg_raw(self.raw as int) as i64 }
    }

    pub open spec fn mul_fx(self, other: Fixed) -> Fixed {
        Fixed { raw: mul_raw(self.raw as int, other.raw as int) as i64 }
    }

    pub open spec fn div_fx(self, other: Fixed) -> Fixed {
        Fixed { raw: div_raw(self.raw as int, other.raw as int) as i64 }
    }

    /// The fixed-point value of the rational `num / den`, truncated
    /// toward zero and saturated; a zero denominator saturates by the
    /// sign of the numerator.
    pub open spec fn ratio_fx(num: i64, den: i64) -> Fixed {
        Fixed { raw: div_raw(num as int, den as int) as i64 }
    }
}

/// Magnitude of an `i64`, computed without overflow at `i64::MIN`.
fn abs_u64(x: i64) -> (m: u64)
    ensures
        m as int == mag(x as int),
{
    if x >= 0 {
        x as u64
    } else {
        (-(x as i128)) as u64
    }
}

/// Rebuilds a signed saturated `Fixed` from a sign and a magnitude.
fn from_mag(negative: bool, m: u128) -> (r: Fixed)
    ensures
        r.raw as int == sat64(if negative { -(m as int) } else { m as int }),
{
    if negative {
        if m >= 0x8000_0000_0000_0000u128 {
            Fixed { raw: i64::MIN }
        } else {
            Fixed { raw: (-(m as i128)) as i64 }
        }
    } else {
        if m >= 0x8000_0000_0000_0000u128 {
            Fixed { raw: i64::MAX }
        } else {
            Fixed { raw: m as i64 }
        }
    }
}

/// The magnitude of a product is the product of the magnitudes, and the
/// product is negative exactly when the signs differ (and neither is zero).
pub(crate) proof fn lemma_mag_mul(a: int, b: int)
    by (nonlinear_arith)
    ensures
        mag(a * b) == mag(a) * mag(b),
        (a * b < 0) <==> ((a < 0) != (b < 0)) && a != 0 && b != 0,
        (a * b == 0) <==> (a == 0 || b == 0),
{
}

/// Full scale is the multiplicative identity: scaling by peak is
/// exact, in either order.
pub proof fn lemma_mul_one(x: Fixed)
    ensures
        x.mul_fx(Fixed::peak_spec()) == x,
        Fixed::peak_spec().mul_fx(x) == x,
{
    let a = x.raw as int;
    let f = FRAC_ONE as int;
    lemma_mag_mul(a, f);
    lemma_mag_mul(f, a);
    assert((mag(a) * f) / f == mag(a)) by {
        vstd::arithmetic::div_mod::lemma_div_by_multiple(mag(a), f);
    }
    assert(mag(a * f) / f == mag(a));
    assert(mag(f * a) / f == mag(a)) by {
        vstd::arithmetic::mul::lemma_mul_is_commutative(f, a);
    }
}

/// Divides the magnitudes of dividend and divisor and fixes the sign,
/// saturating the result; shared by multiplication and division.
fn signed_scaled_quotient(negative: bool, num: u128, den: u64) -> (r: Fixed)
    requires
        den > 0,
    ensures
        r.raw as int == sat64(
            if negative {
                -(num as int / den as int)
            } else {
                num as int / den as int
            },
        ),
{
    let q: u128 = num / (den as u128);
    from_mag(negative, q)
}

impl Sample for Fixed {
    open spec fn equilibrium_spec() -> Fixed {
        Fixed { raw: 0 }
    }

    open spec fn peak_spec() -> Fixed {
        Fixed { raw: FRAC_ONE }
    }

    open spec fn add_spec(self, other: Fixed) -> Fixed {
        self.add_fx(other)
    }

    open spec fn sub_spec(self, other: Fixed) -> Fixed {
        self.sub_fx(other)
    }

    open spec fn mul_spec(self, other: Fixed) -> Fixed {
        self.mul_fx(other)
    }

    open spec fn div_spec(self, other: Fixed) -> Fixed {
        self.div_fx(other)
    }

    open spec fn neg_spec(self) -> Fixed {
        self.neg_fx()
    }

    open spec fn from_ratio_spec(num: i64, den: i64) -> Fixed {
        Fixed::ratio_fx(num, den)
    }

    fn equilibrium() -> (r: Fixed) {
        Fixed { raw: 0 }
    }

    fn peak() -> (r: Fixed) {
        Fixed { raw: FRAC_ONE }
    }

    fn add(self, other: Fixed) -> (r: Fixed) {
        let s: i128 = self.raw as i128 + other.raw as i128;
        if s > i64::MAX as i128 {
            Fixed { raw: i64::MAX }
        } else if s < i64::MIN as i128 {
            Fixed { raw: i64::MIN }
        } else {
            Fixed { raw: s as i64 }
        }
    }

    fn sub(self, other: Fixed) -> (r: Fixed) {
        let s: i128 = self.raw as i128 - other.raw as i128;
        if s > i64::MAX as i128 {
            Fixed { raw: i64::MAX }
        } else if s < i64::MIN as i128 {
            Fixed { raw: i64::MIN }
        } else {
            Fixed { raw: s as i64 }
        }
    }

    fn mul(self, other: Fixed) -> (r: Fixed) {
        let negative: bool = (self.raw < 0) != (other.raw < 0);
        let am: u64 = abs_u64(self.raw);
        let bm: u64 = abs_u64(other.raw);
        proof {
            assert((am as int) * (bm as int) < 0x1_0000_0000_0000_0000_0000_0000_0000_0000int)
                by (nonlinear_arith)
                requires
                    am as int <= 0x8000_0000_0000_0000int,
                    bm as int <= 0x8000_0000_0000_0000int,
            ;
            lemma_mag_mul(self.raw as int, other.raw as int);
        }
        let p: u128 = (am as u128) * (bm as u128);
        signed_scaled_quotient(negative, p, FRAC_ONE as u64)
    }

    fn div(self, other: Fixed) -> (r: Fixed) {
        if other.raw == 0 {
            if self.raw > 0 {
                Fixed { raw: i64::MAX }
            } else if self.raw < 0 {
                Fixed { raw: i64::MIN }
            } else {
                Fixed { raw: 0 }
            }
        } else {
            let negative: bool = (self.raw < 0) != (other.raw < 0);
            let am: u64 = abs_u64(self.raw);
            let bm: u64 = abs_u64(other.raw);
            proof {
                assert((am as int) * (FRAC_ONE as int)
                    < 0x1_0000_0000_0000_0000_0000_0000_0000_0000int) by (nonlinear_arith)
                    requires
                        am as int <= 0xFFFF_FFFF_FFFF_FFFFint,
                ;
                lemma_mag_mul(self.raw as int, FRAC_ONE as int);
            }
            let num: u128 = (am as u128) * (FRAC_ONE as u128);
            signed_scaled_quotient(negative, num, bm)
        }
    }

    fn neg(self) -> (r: Fixed) {
        if self.raw == i64::MIN {
            Fixed { raw: i64::MAX }
        } else {
            Fixed { raw: -self.raw }
        }
    }

    fn from_ratio(num: i64, den: i64) -> (r: Fixed) {
        Fixed { raw: num }.div(Fixed { raw: den })
    }
}

impl FromSample<i64> for Fixed {
    /// Conversion from a whole number of units, saturated.
    open spec fn from_sample_spec(value: i64) -> Fixed {
        Fixed { raw: sat64((value as int) * (FRAC_ONE as int)) as i64 }
    }

    fn from_sample(value: i64) -> (r: Fixed) {
        let s: i128 = (value as i128) * (FRAC_ONE as i128);
        if s > i64::MAX as i128 {
            Fixed { raw: i64::MAX }
        } else if s < i64::MIN as i128 {
            Fixed { raw: i64::MIN }
        } else {
            Fixed { raw: s as i64 }
        }
    }
}

impl FromSample<Fixed> for Fixed {
    open spec fn from_sample_spec(value: Fixed) -> Fixed {
        value
    }

    fn from_sample(value: Fixed) -> (r: Fixed) {
        value
    }
}

} // verus!
