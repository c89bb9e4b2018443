//! Fixed-point square root, tangent and decibel-gain evaluation for
//! the biquad coefficient design.
//!
//! The square root is the exact integer square root of the rescaled
//! raw value. Tangent and gain are evaluated by short Horner schemes
//! over the saturating fixed-point operations; each executable
//! function is pinned to a specification twin built from the same
//! operations, so coefficient design is a mathematical function of its
//! inputs.

use vstd::prelude::*;
use crate::fixed::{Fixed, FRAC_ONE};
use crate::sample::Sample;

verus! {

/// `r` is the integer square root of `n`.
pub open spec fn is_isqrt(n: int, r: int) -> bool {
    0 <= r && r * r <= n < (r + 1) * (r + 1)
}

/// The integer square root of `n` (zero for negative `n`).
pub open spec fn isqrt_of(n: int) -> int {
    choose|r: int| is_isqrt(n, r)
}

/// Integer square roots are unique.
proof fn lemma_isqrt_unique(n: int, r1: int, r2: int)
    by (nonlinear_arith)
    requires
        is_isqrt(n, r1),
        is_isqrt(n, r2),
    ensures
        r1 == r2,
{
}

/// Binary search for the integer square root of a 128-bit value.
fn isqrt_u128(n: u128) -> (r: u64)
    ensures
        is_isqrt(n as int, r as int),
        r as int == isqrt_of(n as int),
{
    let mut lo: u64 = 0;
    let mut hi: u64 = 0xFFFF_FFFF_FFFF_FFFF;
    while lo < hi
        invariant
            (lo as int) * (lo as int) <= n as int,
            (n as int) < ((hi as int) + 1) * ((hi as int) + 1),
            lo <= hi,
        decreases hi - lo,
    {
        let mid: u64 = lo + (hi - lo) / 2;
        proof {
            assert(((mid as int) + 1) * ((mid as int) + 1)
                < 0x1_0000_0000_0000_0000_0000_0000_0000_0000int) by (nonlinear_arith)
                requires
                    mid as int <= 0xFFFF_FFFF_FFFF_FFFEint,
            ;
        }
        let sq: u128 = ((mid + 1) as u128) * ((mid + 1) as u128);
        if sq <= n {
            lo = mid + 1;
        } else {
            hi = mid;
        }
    }
    proof {
        assert(is_isqrt(n as int, lo as int));
        let w = choose|x: int| is_isqrt(n as int, x);
        lemma_isqrt_unique(n as int, w, lo as int);
    }
    lo
}

/// The raw value of the fixed-point square root: the integer square
/// root of the raw value rescaled by 2^32 (zero for values at or below
/// equilibrium, where no real root exists or it is zero).
pub open spec fn sqrt_raw(a: int) -> int {
    if a <= 0 {
        0
    } else {
        isqrt_of(a * (FRAC_ONE as int))
    }
}

impl Fixed {
    pub open spec fn sqrt_fx(self) -> Fixed {
        Fixed { raw: sqrt_raw(self.raw as int) as i64 }
    }

    /// Fixed-point square root, exact as an integer square root of the
    /// rescaled raw value; values at or below equilibrium map to
    /// equilibrium.
    pub fn sqrt(self) -> (r: Fixed)
        ensures
            r == self.sqrt_fx(),
    {
        if self.raw <= 0 {
            Fixed { raw: 0 }
        } else {
            let m: u128 = (self.raw as u128) * (FRAC_ONE as u128);
            let root: u64 = isqrt_u128(m);
            proof {
                assert(root as int <= 0x1_0000_0000_0000int) by (nonlinear_arith)
                    requires
                        is_isqrt(m as int, root as int),
                        (m as int) < 0x1_0000_0000_0000_0000_0000_0000int,
                ;
            }
            Fixed { raw: root as i64 }
        }
    }
}

/// An approximation of pi as a fixed-point constant.
pub open spec fn pi_fx() -> Fixed {
    Fixed::ratio_fx(245850922, 78256779)
}

/// An approximation of log2(10) / 20, the decibel-to-binary exponent
/// scale, as a fixed-point constant.
pub open spec fn db_exponent_scale_fx() -> Fixed {
    Fixed::ratio_fx(166096404744368, 1000000000000000)
}

/// An approximation of ln(2) as a fixed-point constant.
pub open spec fn ln2_fx() -> Fixed {
    Fixed::ratio_fx(6931471805599453, 10000000000000000)
}

/// The sine Horner scheme over the squared angle:
/// `theta * (1 - t/6 * (1 - t/20 * (1 - t/42 * (1 - t/72))))`.
pub open spec fn sin_poly_fx(theta: Fixed) -> Fixed {
    let one = Fixed::peak_spec();
    let t = theta.mul_fx(theta);
    let s4 = one.sub_fx(t.mul_fx(Fixed::ratio_fx(1, 72)));
    let s3 = one.sub_fx(t.mul_fx(Fixed::ratio_fx(1, 42)).mul_fx(s4));
    let s2 = one.sub_fx(t.mul_fx(Fixed::ratio_fx(1, 20)).mul_fx(s3));
    let s1 = one.sub_fx(t.mul_fx(Fixed::ratio_fx(1, 6)).mul_fx(s2));
    theta.mul_fx(s1)
}

/// The cosine Horner scheme over the squared angle:
/// `1 - t/2 * (1 - t/12 * (1 - t/30 * (1 - t/56 * (1 - t/90))))`.
pub open spec fn cos_poly_fx(theta: Fixed) -> Fixed {
    let one = Fixed::peak_spec();
    let t = theta.mul_fx(theta);
    let c5 = one.sub_fx(t.mul_fx(Fixed::ratio_fx(1, 90)));
    let c4 = one.sub_fx(t.mul_fx(Fixed::ratio_fx(1, 56)).mul_fx(c5));
    let c3 = one.sub_fx(t.mul_fx(Fixed::ratio_fx(1, 30)).mul_fx(c4));
    let c2 = one.sub_fx(t.mul_fx(Fixed::ratio_fx(1, 12)).mul_fx(c3));
    one.sub_fx(t.mul_fx(Fixed::ratio_fx(1, 2)).mul_fx(c2))
}

/// `tan(pi * x)` over fixed-point values: the quotient of the sine and
/// cosine schemes at `theta = pi * x`. Near `x = 0.5` the cosine
/// vanishes and the quotient saturates, as the true tangent diverges.
pub open spec fn tan_pi_spec(x: Fixed) -> Fixed {
    let theta = x.mul_fx(pi_fx());
    sin_poly_fx(theta).div_fx(cos_poly_fx(theta))
}

/// The exponential Horner scheme for `e^z`:
/// `1 + z * (1 + z/2 * (1 + z/3 * (... (1 + z/7) ...)))`.
pub open spec fn exp_poly_fx(z: Fixed) -> Fixed {
    let one = Fixed::peak_spec();
    let e7 = one.add_fx(z.mul_fx(Fixed::ratio_fx(1, 7)));
    let e6 = one.add_fx(z.mul_fx(Fixed::ratio_fx(1, 6)).mul_fx(e7));
    let e5 = one.add_fx(z.mul_fx(Fixed::ratio_fx(1, 5)).mul_fx(e6));
    let e4 = one.add_fx(z.mul_fx(Fixed::ratio_fx(1, 4)).mul_fx(e5));
    let e3 = one.add_fx(z.mul_fx(Fixed::ratio_fx(1, 3)).mul_fx(e4));
    let e2 = one.add_fx(z.mul_fx(Fixed::ratio_fx(1, 2)).mul_fx(e3));
    one.add_fx(z.mul_fx(e2))
}

/// `2^f` for a fractional exponent `0 <= f < 1`, as `e^(f * ln 2)`.
pub open spec fn exp2_frac_spec(f: Fixed) -> Fixed {
    exp_poly_fx(f.mul_fx(ln2_fx()))
}

/// `2^n` as a fixed-point value, by repeated doubling.
pub open spec fn pow2_fx(n: nat) -> Fixed
    decreases n,
{
    if n == 0 {
        Fixed::peak_spec()
    } else {
        pow2_fx((n - 1) as nat).add_fx(pow2_fx((n - 1) as nat))
    }
}

/// The gain factor of a decibel value: `10^(|g| / 20)`, evaluated as
/// `2^(|g| * log2(10) / 20)` with the exponent split into its integer
/// and fractional parts. Exponents of 31 or more exceed the
/// representable range and saturate to the maximum.
pub open spec fn gain_from_db_spec(g: Fixed) -> Fixed {
    let m = if g.raw < 0 {
        g.neg_fx()
    } else {
        g
    };
    let y = m.mul_fx(db_exponent_scale_fx());
    let n = (y.raw as int) / (FRAC_ONE as int);
    let f = Fixed { raw: ((y.raw as int) % (FRAC_ONE as int)) as i64 };
    if n >= 31 {
        Fixed { raw: i64::MAX }
    } else {
        exp2_frac_spec(f).mul_fx(pow2_fx(n as nat))
    }
}

impl Fixed {
    /// `tan(pi * x)`, the biquad frequency warp of a normalized cutoff.
    pub fn tan_pi(self) -> (r: Fixed)
        ensures
            r == tan_pi_spec(self),
    {
        let one = Fixed::peak();
        let theta = self.mul(pi_fx_exec());
        let t = theta.mul(theta);
        let s4 = one.sub(t.mul(Fixed::from_ratio(1, 72)));
        let s3 = one.sub(t.mul(Fixed::from_ratio(1, 42)).mul(s4));
        let s2 = one.sub(t.mul(Fixed::from_ratio(1, 20)).mul(s3));
        let s1 = one.sub(t.mul(Fixed::from_ratio(1, 6)).mul(s2));
        let sin_value = theta.mul(s1);
        let c5 = one.sub(t.mul(Fixed::from_ratio(1, 90)));
        let c4 = one.sub(t.mul(Fixed::from_ratio(1, 56)).mul(c5));
        let c3 = one.sub(t.mul(Fixed::from_ratio(1, 30)).mul(c4));
        let c2 = one.sub(t.mul(Fixed::from_ratio(1, 12)).mul(c3));
        let cos_value = one.sub(t.mul(Fixed::from_ratio(1, 2)).mul(c2));
        sin_value.div(cos_value)
    }

    /// The gain factor `10^(|self| / 20)` of a decibel value.
    pub fn gain_from_db(self) -> (r: Fixed)
        ensures
            r == gain_from_db_spec(self),
    {
        let m = if self.raw < 0 {
            self.neg()
        } else {
            self
        };
        let y = m.mul(db_exponent_scale_fx_exec());
        proof {
            lemma_nonneg_mul_nonneg(m, db_exponent_scale_fx());
        }
        let yraw: u64 = y.raw as u64;
        let whole: u64 = yraw / 0x1_0000_0000u64;
        let fraction: u64 = yraw % 0x1_0000_0000u64;
        if whole >= 31 {
            Fixed { raw: i64::MAX }
        } else {
            let f = Fixed { raw: fraction as i64 };
            let one = Fixed::peak();
            let z = f.mul(ln2_fx_exec());
            let e7 = one.add(z.mul(Fixed::from_ratio(1, 7)));
            let e6 = one.add(z.mul(Fixed::from_ratio(1, 6)).mul(e7));
            let e5 = one.add(z.mul(Fixed::from_ratio(1, 5)).mul(e6));
            let e4 = one.add(z.mul(Fixed::from_ratio(1, 4)).mul(e5));
            let e3 = one.add(z.mul(Fixed::from_ratio(1, 3)).mul(e4));
            let e2 = one.add(z.mul(Fixed::from_ratio(1, 2)).mul(e3));
            let p = one.add(z.mul(e2));
            let mut scale = Fixed::peak();
            let mut doublings: u64 = 0;
            while doublings < whole
                invariant
                    doublings <= whole,
                    whole < 31,
                    scale == pow2_fx(doublings as nat),
                decreases whole - doublings,
            {
                scale = scale.add(scale);
                doublings = doublings + 1;
            }
            p.mul(scale)
        }
    }
}

/// The product of two non-negative fixed-point values is non-negative.
proof fn lemma_nonneg_mul_nonneg(a: Fixed, b: Fixed)
    requires
        a.raw >= 0,
        b.raw >= 0,
    ensures
        a.mul_fx(b).raw >= 0,
{
    assert((a.raw as int) * (b.raw as int) >= 0) by (nonlinear_arith)
        requires
            a.raw as int >= 0,
            b.raw as int >= 0,
    ;
}

/// Executable value of the pi constant.
fn pi_fx_exec() -> (r: Fixed)
    ensures
        r == pi_fx(),
{
    Fixed::from_ratio(245850922, 78256779)
}

/// Executable value of the decibel exponent scale.
fn db_exponent_scale_fx_exec() -> (r: Fixed)
    ensures
        r == db_exponent_scale_fx(),
{
    Fixed::from_ratio(166096404744368, 1000000000000000)
}

/// Executable value of the ln(2) constant.
fn ln2_fx_exec() -> (r: Fixed)
    ensures
        r == ln2_fx(),
{
    Fixed::from_ratio(6931471805599453, 10000000000000000)
}

} // verus!
