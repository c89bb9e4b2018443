//! A real-time digital-audio filter library: a Schroeder-Moorer (Freeverb)
//! reverberator built from delay-line, comb and allpass primitives, plus an
//! independent parametric biquad filter, all generic over a `Sample` numeric
//! abstraction with a verified fixed-point backend.

pub mod fixed;
pub mod fixed_math;
pub mod modules;
pub mod node;
pub mod sample;

pub use fixed::Fixed;
pub use modules::biquad::{Biquad, BiquadCoefficients, BiquadParameters, BiquadType};
pub use modules::{AllPass, Comb, DelayLine, Freeverb, LowpassFeedbackComb};
pub use node::{Node, ReadableNode};
pub use sample::{FromSample, IntoSample, Sample};
