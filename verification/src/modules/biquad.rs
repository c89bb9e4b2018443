//! A parametric second-order IIR filter section with seven selectable
//! responses, after the classic bilinear-transform cookbook design.
//!
//! Coefficients are recomputed as a unit whenever the type or the
//! parameters change, from the frequency warp `k = tan(pi * cutoff)`
//! and the gain factor `v = 10^(|peak_gain| / 20)`; they are never
//! partially stale. For the peak and shelf responses the sign of
//! `peak_gain` selects between a boost and a cut branch; at a flat
//! gain the two branches coincide.

use vstd::prelude::*;
use crate::fixed::{lemma_mul_one, Fixed};
use crate::fixed_math::{gain_from_db_spec, tan_pi_spec};
use crate::node::Node;
use crate::sample::Sample;

verus! {

/// The seven filter responses.
#[derive(Copy, Clone)]
pub enum BiquadType {
    Lowpass,
    Highpass,
    Bandpass,
    Notch,
    Peak,
    Lowshelf,
    Highshelf,
}

/// The design parameters: a normalized cutoff in cycles per sample
/// (meaningful in (0, 0.5)), a quality factor, and a gain in decibels
/// (meaningful for the peak and shelf responses).
#[derive(Copy, Clone, PartialEq, Eq, Structural, Debug)]
pub struct BiquadParameters {
    pub cutoff: Fixed,
    pub q: Fixed,
    pub peak_gain: Fixed,
}

/// The derived direct-form coefficients.
#[derive(Copy, Clone, PartialEq, Eq, Structural, Debug)]
pub struct BiquadCoefficients {
    pub a0: Fixed,
    pub a1: Fixed,
    pub a2: Fixed,
    pub b1: Fixed,
    pub b2: Fixed,
}

/// The lowpass design at warp `k` and quality `q`.
pub open spec fn lowpass_coeffs(k: Fixed, q: Fixed) -> BiquadCoefficients {
    let one = Fixed::peak_spec();
    let two = Fixed::ratio_fx(2, 1);
    let kk = k.mul_fx(k);
    let norm = one.div_fx(one.add_fx(k.div_fx(q)).add_fx(kk));
    let a0 = kk.mul_fx(norm);
    BiquadCoefficients {
        a0,
        a1: two.mul_fx(a0),
        a2: a0,
        b1: two.mul_fx(kk.sub_fx(one)).mul_fx(norm),
        b2: one.sub_fx(k.div_fx(q)).add_fx(kk).mul_fx(norm),
    }
}

/// The highpass design at warp `k` and quality `q`.
pub open spec fn highpass_coeffs(k: Fixed, q: Fixed) -> BiquadCoefficients {
    let one = Fixed::peak_spec();
    let two = Fixed::ratio_fx(2, 1);
    let kk = k.mul_fx(k);
    let norm = one.div_fx(one.add_fx(k.div_fx(q)).add_fx(kk));
    let a0 = one.mul_fx(norm);
    BiquadCoefficients {
        a0,
        a1: Fixed::ratio_fx(-2i64, 1).mul_fx(a0),
        a2: a0,
        b1: two.mul_fx(kk.sub_fx(one)).mul_fx(norm),
        b2: one.sub_fx(k.div_fx(q)).add_fx(kk).mul_fx(norm),
    }
}

/// The bandpass design at warp `k` and quality `q`.
pub open spec fn bandpass_coeffs(k: Fixed, q: Fixed) -> BiquadCoefficients {
    let one = Fixed::peak_spec();
    let two = Fixed::ratio_fx(2, 1);
    let kk = k.mul_fx(k);
    let norm = one.div_fx(one.add_fx(k.div_fx(q)).add_fx(kk));
    let a0 = k.div_fx(q).mul_fx(norm);
    BiquadCoefficients {
        a0,
        a1: Fixed::equilibrium_spec(),
        a2: a0.neg_fx(),
        b1: two.mul_fx(kk.sub_fx(one)).mul_fx(norm),
        b2: one.sub_fx(k.div_fx(q)).add_fx(kk).mul_fx(norm),
    }
}

/// The notch design at warp `k` and quality `q`.
pub open spec fn notch_coeffs(k: Fixed, q: Fixed) -> BiquadCoefficients {
    let one = Fixed::peak_spec();
    let two = Fixed::ratio_fx(2, 1);
    let kk = k.mul_fx(k);
    let norm = one.div_fx(one.add_fx(k.div_fx(q)).add_fx(kk));
    let a0 = one.add_fx(kk).mul_fx(norm);
    let a1 = two.mul_fx(kk.sub_fx(one)).mul_fx(norm);
    BiquadCoefficients {
        a0,
        a1,
        a2: a0,
        b1: a1,
        b2: one.sub_fx(k.div_fx(q)).add_fx(kk).mul_fx(norm),
    }
}

/// The peak design's boost branch (`peak_gain >= 0`).
pub open spec fn peak_boost_coeffs(k: Fixed, v: Fixed, q: Fixed) -> BiquadCoefficients {
    let one = Fixed::peak_spec();
    let two = Fixed::ratio_fx(2, 1);
    let kk = k.mul_fx(k);
    let norm = one.div_fx(one.add_fx(one.div_fx(q).mul_fx(k)).add_fx(kk));
    let a1 = two.mul_fx(kk.sub_fx(one)).mul_fx(norm);
    BiquadCoefficients {
        a0: one.add_fx(v.div_fx(q).mul_fx(k)).add_fx(kk).mul_fx(norm),
        a1,
        a2: one.sub_fx(v.div_fx(q).mul_fx(k)).add_fx(kk).mul_fx(norm),
        b1: a1,
        b2: one.sub_fx(one.div_fx(q).mul_fx(k)).add_fx(kk).mul_fx(norm),
    }
}

/// The peak design's cut branch (`peak_gain < 0`).
pub open spec fn peak_cut_coeffs(k: Fixed, v: Fixed, q: Fixed) -> BiquadCoefficients {
    let one = Fixed::peak_spec();
    let two = Fixed::ratio_fx(2, 1);
    let kk = k.mul_fx(k);
    let norm = one.div_fx(one.add_fx(v.div_fx(q).mul_fx(k)).add_fx(kk));
    let a1 = two.mul_fx(kk.sub_fx(one)).mul_fx(norm);
    BiquadCoefficients {
        a0: one.add_fx(one.div_fx(q).mul_fx(k)).add_fx(kk).mul_fx(norm),
        a1,
        a2: one.sub_fx(one.div_fx(q).mul_fx(k)).add_fx(kk).mul_fx(norm),
        b1: a1,
        b2: one.sub_fx(v.div_fx(q).mul_fx(k)).add_fx(kk).mul_fx(norm),
    }
}

/// The low-shelf design's boost branch (`peak_gain >= 0`).
pub open spec fn lowshelf_boost_coeffs(k: Fixed, v: Fixed) -> BiquadCoefficients {
    let one = Fixed::peak_spec();
    let two = Fixed::ratio_fx(2, 1);
    let kk = k.mul_fx(k);
    let sqrt2 = two.sqrt_fx();
    let sqrt2v = two.mul_fx(v).sqrt_fx();
    let vkk = v.mul_fx(k).mul_fx(k);
    let norm = one.div_fx(one.add_fx(sqrt2.mul_fx(k)).add_fx(kk));
    BiquadCoefficients {
        a0: one.add_fx(sqrt2v.mul_fx(k)).add_fx(vkk).mul_fx(norm),
        a1: two.mul_fx(vkk.sub_fx(one)).mul_fx(norm),
        a2: one.sub_fx(sqrt2v.mul_fx(k)).add_fx(vkk).mul_fx(norm),
        b1: two.mul_fx(kk.sub_fx(one)).mul_fx(norm),
        b2: one.sub_fx(sqrt2.mul_fx(k)).add_fx(kk).mul_fx(norm),
    }
}

/// The low-shelf design's cut branch (`peak_gain < 0`).
pub open spec fn lowshelf_cut_coeffs(k: Fixed, v: Fixed) -> BiquadCoefficients {
    let one = Fixed::peak_spec();
    let two = Fixed::ratio_fx(2, 1);
    let kk = k.mul_fx(k);
    let sqrt2 = two.sqrt_fx();
    let sqrt2v = two.mul_fx(v).sqrt_fx();
    let vkk = v.mul_fx(k).mul_fx(k);
    let norm = one.div_fx(one.add_fx(sqrt2v.mul_fx(k)).add_fx(vkk));
    BiquadCoefficients {
        a0: one.add_fx(sqrt2.mul_fx(k)).add_fx(kk).mul_fx(norm),
        a1: two.mul_fx(kk.sub_fx(one)).mul_fx(norm),
        a2: one.sub_fx(sqrt2.mul_fx(k)).add_fx(kk).mul_fx(norm),
        b1: two.mul_fx(vkk.sub_fx(one)).mul_fx(norm),
        b2: one.sub_fx(sqrt2v.mul_fx(k)).add_fx(vkk).mul_fx(norm),
    }
}

/// The high-shelf design's boost branch (`peak_gain >= 0`).
pub open spec fn highshelf_boost_coeffs(k: Fixed, v: Fixed) -> BiquadCoefficients {
    let one = Fixed::peak_spec();
    let two = Fixed::ratio_fx(2, 1);
    let kk = k.mul_fx(k);
    let sqrt2 = two.sqrt_fx();
    let sqrt2v = two.mul_fx(v).sqrt_fx();
    let norm = one.div_fx(one.add_fx(sqrt2.mul_fx(k)).add_fx(kk));
    BiquadCoefficients {
        a0: v.add_fx(sqrt2v.mul_fx(k)).add_fx(kk).mul_fx(norm),
        a1: two.mul_fx(kk.sub_fx(v)).mul_fx(norm),
        a2: v.sub_fx(sqrt2v.mul_fx(k)).add_fx(kk).mul_fx(norm),
        b1: two.mul_fx(kk.sub_fx(one)).mul_fx(norm),
        b2: one.sub_fx(sqrt2.mul_fx(k)).add_fx(kk).mul_fx(norm),
    }
}

/// The high-shelf design's cut branch (`peak_gain < 0`).
pub open spec fn highshelf_cut_coeffs(k: Fixed, v: Fixed) -> BiquadCoefficients {
    let one = Fixed::peak_spec();
    let two = Fixed::ratio_fx(2, 1);
    let kk = k.mul_fx(k);
    let sqrt2 = two.sqrt_fx();
    let sqrt2v = two.mul_fx(v).sqrt_fx();
    let norm = one.div_fx(v.add_fx(sqrt2v.mul_fx(k)).add_fx(kk));
    BiquadCoefficients {
        a0: one.add_fx(sqrt2.mul_fx(k)).add_fx(kk).mul_fx(norm),
        a1: two.mul_fx(kk.sub_fx(one)).mul_fx(norm),
        a2: one.sub_fx(sqrt2.mul_fx(k)).add_fx(kk).mul_fx(norm),
        b1: two.mul_fx(kk.sub_fx(v)).mul_fx(norm),
        b2: v.sub_fx(sqrt2v.mul_fx(k)).add_fx(kk).mul_fx(norm),
    }
}

/// The full coefficient design: a mathematical function of the type
/// and the parameters, with the branch of the peak and shelf designs
/// selected by the sign of `peak_gain`.
pub open spec fn coeffs_spec(biquad_type: BiquadType, p: BiquadParameters) -> BiquadCoefficients {
    let k = tan_pi_spec(p.cutoff);
    let v = gain_from_db_spec(p.peak_gain);
    match biquad_type {
        BiquadType::Lowpass => lowpass_coeffs(k, p.q),
        BiquadType::Highpass => highpass_coeffs(k, p.q),
        BiquadType::Bandpass => bandpass_coeffs(k, p.q),
        BiquadType::Notch => notch_coeffs(k, p.q),
        BiquadType::Peak => if p.peak_gain.raw >= 0 {
            peak_boost_coeffs(k, v, p.q)
        } else {
            peak_cut_coeffs(k, v, p.q)
        },
        BiquadType::Lowshelf => if p.peak_gain.raw >= 0 {
            lowshelf_boost_coeffs(k, v)
        } else {
            lowshelf_cut_coeffs(k, v)
        },
        BiquadType::Highshelf => if p.peak_gain.raw >= 0 {
            highshelf_boost_coeffs(k, v)
        } else {
            highshelf_cut_coeffs(k, v)
        },
    }
}

impl BiquadCoefficients {
    /// Recomputes all five coefficients as a unit from the type and
    /// the parameters.
    pub fn update(&mut self, biquad_type: BiquadType, parameters: BiquadParameters)
        ensures
            *final(self) == coeffs_spec(biquad_type, parameters),
    {
        let one = Fixed::peak();
        let two = Fixed::from_ratio(2, 1);
        let v = parameters.peak_gain.gain_from_db();
        let k = parameters.cutoff.tan_pi();
        let q = parameters.q;
        let kk = k.mul(k);

        match biquad_type {
            BiquadType::Lowpass => {
                let norm = one.div(one.add(k.div(q)).add(kk));
                self.a0 = kk.mul(norm);
                self.a1 = two.mul(self.a0);
                self.a2 = self.a0;
                self.b1 = two.mul(kk.sub(one)).mul(norm);
                self.b2 = one.sub(k.div(q)).add(kk).mul(norm);
            },
            BiquadType::Highpass => {
                let norm = one.div(one.add(k.div(q)).add(kk));
                self.a0 = one.mul(norm);
                self.a1 = Fixed::from_ratio(-2, 1).mul(self.a0);
                self.a2 = self.a0;
                self.b1 = two.mul(kk.sub(one)).mul(norm);
                self.b2 = one.sub(k.div(q)).add(kk).mul(norm);
            },
            BiquadType::Bandpass => {
                let norm = one.div(one.add(k.div(q)).add(kk));
                self.a0 = k.div(q).mul(norm);
                self.a1 = Fixed::equilibrium();
                self.a2 = self.a0.neg();
                self.b1 = two.mul(kk.sub(one)).mul(norm);
                self.b2 = one.sub(k.div(q)).add(kk).mul(norm);
            },
            BiquadType::Notch => {
                let norm = one.div(one.add(k.div(q)).add(kk));
                self.a0 = one.add(kk).mul(norm);
                self.a1 = two.mul(kk.sub(one)).mul(norm);
                self.a2 = self.a0;
                self.b1 = self.a1;
                self.b2 = one.sub(k.div(q)).add(kk).mul(norm);
            },
            BiquadType::Peak => {
                if parameters.peak_gain.raw >= 0 {
                    let norm = one.div(one.add(one.div(q).mul(k)).add(kk));
                    self.a1 = two.mul(kk.sub(one)).mul(norm);
                    self.a0 = one.add(v.div(q).mul(k)).add(kk).mul(norm);
                    self.a2 = one.sub(v.div(q).mul(k)).add(kk).mul(norm);
                    self.b1 = self.a1;
                    self.b2 = one.sub(one.div(q).mul(k)).add(kk).mul(norm);
                } else {
                    let norm = one.div(one.add(v.div(q).mul(k)).add(kk));
                    self.a1 = two.mul(kk.sub(one)).mul(norm);
                    self.a0 = one.add(one.div(q).mul(k)).add(kk).mul(norm);
                    self.a2 = one.sub(one.div(q).mul(k)).add(kk).mul(norm);
                    self.b1 = self.a1;
                    self.b2 = one.sub(v.div(q).mul(k)).add(kk).mul(norm);
                }
            },
            BiquadType::Lowshelf => {
                let sqrt2 = two.sqrt();
                let sqrt2v = two.mul(v).sqrt();
                let vkk = v.mul(k).mul(k);
                if parameters.peak_gain.raw >= 0 {
                    let norm = one.div(one.add(sqrt2.mul(k)).add(kk));
                    self.a0 = one.add(sqrt2v.mul(k)).add(vkk).mul(norm);
                    self.a1 = two.mul(vkk.sub(one)).mul(norm);
                    self.a2 = one.sub(sqrt2v.mul(k)).add(vkk).mul(norm);
                    self.b1 = two.mul(kk.sub(one)).mul(norm);
                    self.b2 = one.sub(sqrt2.mul(k)).add(kk).mul(norm);
                } else {
                    let norm = one.div(one.add(sqrt2v.mul(k)).add(vkk));
                    self.a0 = one.add(sqrt2.mul(k)).add(kk).mul(norm);
                    self.a1 = two.mul(kk.sub(one)).mul(norm);
                    self.a2 = one.sub(sqrt2.mul(k)).add(kk).mul(norm);
                    self.b1 = two.mul(vkk.sub(one)).mul(norm);
                    self.b2 = one.sub(sqrt2v.mul(k)).add(vkk).mul(norm);
                }
            },
            BiquadType::Highshelf => {
                let sqrt2 = two.sqrt();
                let sqrt2v = two.mul(v).sqrt();
                if parameters.peak_gain.raw >= 0 {
                    let norm = one.div(one.add(sqrt2.mul(k)).add(kk));
                    self.a0 = v.add(sqrt2v.mul(k)).add(kk).mul(norm);
                    self.a1 = two.mul(kk.sub(v)).mul(norm);
                    self.a2 = v.sub(sqrt2v.mul(k)).add(kk).mul(norm);
                    self.b1 = two.mul(kk.sub(one)).mul(norm);
                    self.b2 = one.sub(sqrt2.mul(k)).add(kk).mul(norm);
                } else {
                    let norm = one.div(v.add(sqrt2v.mul(k)).add(kk));
                    self.a0 = one.add(sqrt2.mul(k)).add(kk).mul(norm);
                    self.a1 = two.mul(kk.sub(one)).mul(norm);
                    self.a2 = one.sub(sqrt2.mul(k)).add(kk).mul(norm);
                    self.b1 = two.mul(kk.sub(v)).mul(norm);
                    self.b2 = v.sub(sqrt2v.mul(k)).add(kk).mul(norm);
                }
            },
        }
    }
}

/// The biquad filter: current type, parameters, derived coefficients
/// and the two feedback registers of the transposed direct form II.
pub struct Biquad {
    pub parameters: BiquadParameters,
    pub biquad_type: BiquadType,
    pub coefficients: BiquadCoefficients,
    pub z1: Fixed,
    pub z2: Fixed,
}

impl Biquad {
    /// A biquad with freshly designed coefficients and both feedback
    /// registers at rest.
    pub fn new(biquad_type: BiquadType, parameters: BiquadParameters) -> (r: Biquad)
        ensures
            r.biquad_type == biquad_type,
            r.parameters == parameters,
            r.coefficients == coeffs_spec(biquad_type, parameters),
            r.z1 == Fixed::equilibrium_spec(),
            r.z2 == Fixed::equilibrium_spec(),
    {
        let mut coefficients = BiquadCoefficients {
            a0: Fixed::equilibrium(),
            a1: Fixed::equilibrium(),
            a2: Fixed::equilibrium(),
            b1: Fixed::equilibrium(),
            b2: Fixed::equilibrium(),
        };
        coefficients.update(biquad_type, parameters);
        Biquad {
            parameters,
            biquad_type,
            coefficients,
            z1: Fixed::equilibrium(),
            z2: Fixed::equilibrium(),
        }
    }

    /// Switches the response type and recomputes the coefficients.
    pub fn set_type(&mut self, biquad_type: BiquadType)
        ensures
            final(self).biquad_type == biquad_type,
            final(self).parameters == old(self).parameters,
            final(self).coefficients == coeffs_spec(biquad_type, old(self).parameters),
            final(self).z1 == old(self).z1,
            final(self).z2 == old(self).z2,
    {
        self.biquad_type = biquad_type;
        self.coefficients.update(self.biquad_type, self.parameters);
    }

    /// Replaces the parameters and recomputes the coefficients.
    pub fn set_params(&mut self, params: BiquadParameters)
        ensures
            final(self).parameters == params,
            final(self).biquad_type == old(self).biquad_type,
            final(self).coefficients == coeffs_spec(old(self).biquad_type, params),
            final(self).z1 == old(self).z1,
            final(self).z2 == old(self).z2,
    {
        self.parameters = params;
        self.coefficients.update(self.biquad_type, self.parameters);
    }

    /// Replaces the parameters and the type together and recomputes
    /// the coefficients once.
    pub fn set_biquad(&mut self, params: BiquadParameters, biquad_type: BiquadType)
        ensures
            final(self).parameters == params,
            final(self).biquad_type == biquad_type,
            final(self).coefficients == coeffs_spec(biquad_type, params),
            final(self).z1 == old(self).z1,
            final(self).z2 == old(self).z2,
    {
        self.parameters = params;
        self.set_type(biquad_type);
    }

    /// One tick of the transposed direct form II:
    /// `out = input * a0 + z1`, then both registers are advanced. No
    /// output saturation beyond the sample type's own is applied.
    pub fn process(&mut self, input: Fixed) -> (out: Fixed)
        ensures
            out == input.mul_fx(old(self).coefficients.a0).add_fx(old(self).z1),
            final(self).z1 == input.mul_fx(old(self).coefficients.a1).add_fx(old(self).z2)
                .sub_fx(old(self).coefficients.b1.mul_fx(out)),
            final(self).z2 == input.mul_fx(old(self).coefficients.a2).sub_fx(
                old(self).coefficients.b2.mul_fx(out),
            ),
            final(self).coefficients == old(self).coefficients,
            final(self).parameters == old(self).parameters,
            final(self).biquad_type == old(self).biquad_type,
    {
        let out = input.mul(self.coefficients.a0).add(self.z1);
        self.z1 = input.mul(self.coefficients.a1).add(self.z2).sub(
            self.coefficients.b1.mul(out),
        );
        self.z2 = input.mul(self.coefficients.a2).sub(self.coefficients.b2.mul(out));
        out
    }
}

impl Default for Biquad {
    /// A lowpass at half the Nyquist range with a Butterworth-like
    /// quality factor and flat gain.
    fn default() -> (r: Biquad)
        ensures
            r.biquad_type is Lowpass,
            r.parameters == (BiquadParameters {
                cutoff: Fixed::ratio_fx(1, 2),
                q: Fixed::ratio_fx(707, 1000),
                peak_gain: Fixed::equilibrium_spec(),
            }),
            r.coefficients == coeffs_spec(BiquadType::Lowpass, r.parameters),
            r.z1 == Fixed::equilibrium_spec(),
            r.z2 == Fixed::equilibrium_spec(),
    {
        let biquad_type = BiquadType::Lowpass;
        let parameters = BiquadParameters {
            cutoff: Fixed::from_ratio(1, 2),
            q: Fixed::from_ratio(707, 1000),
            peak_gain: Fixed::equilibrium(),
        };
        Biquad::new(biquad_type, parameters)
    }
}

impl Node<Fixed, Fixed> for Biquad {
    open spec fn node_wf(&self) -> bool {
        true
    }

    fn process(&mut self, input: Fixed) -> Fixed {
        Biquad::process(self, input)
    }
}

/// The coefficient design is deterministic: it depends on nothing but
/// the type and the parameter record, so recomputing it from equal
/// inputs gives identical coefficients, whatever else happened before.
pub proof fn lemma_design_deterministic(
    t1: BiquadType,
    p1: BiquadParameters,
    t2: BiquadType,
    p2: BiquadParameters,
)
    requires
        t1 == t2,
        p1 == p2,
    ensures
        coeffs_spec(t1, p1) == coeffs_spec(t2, p2),
{
}

/// At a flat peak gain the boost and the cut branch of the peak and
/// shelf designs coincide numerically, because the gain factor is
/// exactly one there.
pub proof fn lemma_flat_gain_branches_coincide(p: BiquadParameters)
    requires
        p.peak_gain == Fixed::equilibrium_spec(),
    ensures
        peak_boost_coeffs(tan_pi_spec(p.cutoff), gain_from_db_spec(p.peak_gain), p.q)
            == peak_cut_coeffs(tan_pi_spec(p.cutoff), gain_from_db_spec(p.peak_gain), p.q),
        lowshelf_boost_coeffs(tan_pi_spec(p.cutoff), gain_from_db_spec(p.peak_gain))
            == lowshelf_cut_coeffs(tan_pi_spec(p.cutoff), gain_from_db_spec(p.peak_gain)),
        highshelf_boost_coeffs(tan_pi_spec(p.cutoff), gain_from_db_spec(p.peak_gain))
            == highshelf_cut_coeffs(tan_pi_spec(p.cutoff), gain_from_db_spec(p.peak_gain)),
{
    lemma_flat_gain_is_unity();
    let k = tan_pi_spec(p.cutoff);
    let v = gain_from_db_spec(p.peak_gain);
    let one = Fixed::peak_spec();
    let two = Fixed::ratio_fx(2, 1);
    assert(v == one);
    lemma_mul_one(two);
    assert(two.mul_fx(v) == two);
    lemma_mul_one(k);
    assert(v.mul_fx(k) == k);
    lemma_mul_one(k.mul_fx(k));
}

/// A flat (zero-decibel) peak gain maps to a gain factor of exactly
/// one.
pub proof fn lemma_flat_gain_is_unity()
    ensures
        gain_from_db_spec(Fixed::equilibrium_spec()) == Fixed::peak_spec(),
{
    let g = Fixed::equilibrium_spec();
    let y = g.mul_fx(crate::fixed_math::db_exponent_scale_fx());
    assert(y.raw == 0);
    let f = Fixed { raw: 0 };
    let z = f.mul_fx(crate::fixed_math::ln2_fx());
    assert(z.raw == 0);
    assert(crate::fixed_math::exp2_frac_spec(f) == Fixed::peak_spec());
    lemma_mul_one(Fixed::peak_spec());
}

} // verus!
