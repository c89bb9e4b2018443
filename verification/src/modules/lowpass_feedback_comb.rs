//! The damped comb filter under its traditional Freeverb name,
//! `LowpassFeedbackComb`: an alias of the one canonical generic comb,
//! kept so that either name reads naturally at a call site.

use vstd::prelude::*;
use crate::modules::comb::Comb;

verus! {

pub type LowpassFeedbackComb<S> = Comb<S>;

} // verus!
