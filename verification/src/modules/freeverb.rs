//! The Schroeder-Moorer reverberator: 8 stereo comb pairs in parallel
//! feeding 4 stereo allpass pairs in series, with a coupled
//! parameter-control law for room size, dampening, freeze and the
//! wet/dry/width output mix.

use vstd::prelude::*;
use crate::fixed::{tz_div, Fixed, FRAC_ONE};
use crate::modules::all_pass::AllPass;
use crate::modules::comb::Comb;
use crate::node::Node;
use crate::sample::Sample;

verus! {

/// Offset between the left and right delay length of every pair,
/// decorrelating the channels.
pub const STEREO_SPREAD: usize = 23;

pub const COMB_TUNING_L1: usize = 1116;
pub const COMB_TUNING_R1: usize = 1116 + STEREO_SPREAD;
pub const COMB_TUNING_L2: usize = 1188;
pub const COMB_TUNING_R2: usize = 1188 + STEREO_SPREAD;
pub const COMB_TUNING_L3: usize = 1277;
pub const COMB_TUNING_R3: usize = 1277 + STEREO_SPREAD;
pub const COMB_TUNING_L4: usize = 1356;
pub const COMB_TUNING_R4: usize = 1356 + STEREO_SPREAD;
pub const COMB_TUNING_L5: usize = 1422;
pub const COMB_TUNING_R5: usize = 1422 + STEREO_SPREAD;
pub const COMB_TUNING_L6: usize = 1491;
pub const COMB_TUNING_R6: usize = 1491 + STEREO_SPREAD;
pub const COMB_TUNING_L7: usize = 1557;
pub const COMB_TUNING_R7: usize = 1557 + STEREO_SPREAD;
pub const COMB_TUNING_L8: usize = 1617;
pub const COMB_TUNING_R8: usize = 1617 + STEREO_SPREAD;

pub const ALLPASS_TUNING_L1: usize = 556;
pub const ALLPASS_TUNING_R1: usize = 556 + STEREO_SPREAD;
pub const ALLPASS_TUNING_L2: usize = 441;
pub const ALLPASS_TUNING_R2: usize = 441 + STEREO_SPREAD;
pub const ALLPASS_TUNING_L3: usize = 341;
pub const ALLPASS_TUNING_R3: usize = 341 + STEREO_SPREAD;
pub const ALLPASS_TUNING_L4: usize = 225;
pub const ALLPASS_TUNING_R4: usize = 225 + STEREO_SPREAD;

/// The first wet gain, applied to a channel's own tank output:
/// `wet * (width / 2 + 0.5)`.
pub open spec fn same_gain_spec<S: Sample>(wet: S, width: S) -> S {
    wet.mul_spec(width.div_spec(S::from_ratio_spec(2, 1)).add_spec(S::from_ratio_spec(1, 2)))
}

/// The second wet gain, applied to the opposite channel's tank output:
/// `wet * ((1 - width) / 2)`.
pub open spec fn other_gain_spec<S: Sample>(wet: S, width: S) -> S {
    wet.mul_spec(S::peak_spec().sub_spec(width).div_spec(S::from_ratio_spec(2, 1)))
}

/// The full Freeverb reverberator.
pub struct Freeverb<S: Sample> {
    pub comb_1: (Comb<S>, Comb<S>),
    pub comb_2: (Comb<S>, Comb<S>),
    pub comb_3: (Comb<S>, Comb<S>),
    pub comb_4: (Comb<S>, Comb<S>),
    pub comb_5: (Comb<S>, Comb<S>),
    pub comb_6: (Comb<S>, Comb<S>),
    pub comb_7: (Comb<S>, Comb<S>),
    pub comb_8: (Comb<S>, Comb<S>),
    pub allpass_1: (AllPass<S>, AllPass<S>),
    pub allpass_2: (AllPass<S>, AllPass<S>),
    pub allpass_3: (AllPass<S>, AllPass<S>),
    pub allpass_4: (AllPass<S>, AllPass<S>),
    /// `(same, other)`: the gain on a channel's own tank output and on
    /// the opposite channel's.
    pub wet_gains: (S, S),
    pub wet: S,
    pub width: S,
    pub dry: S,
    pub input_gain: S,
    pub dampening: S,
    pub room_size: S,
    pub frozen: bool,
}

impl<S: Sample> Freeverb<S> {
    pub open spec fn wf(self) -> bool {
        &&& self.comb_1.0.wf() && self.comb_1.1.wf()
        &&& self.comb_2.0.wf() && self.comb_2.1.wf()
        &&& self.comb_3.0.wf() && self.comb_3.1.wf()
        &&& self.comb_4.0.wf() && self.comb_4.1.wf()
        &&& self.comb_5.0.wf() && self.comb_5.1.wf()
        &&& self.comb_6.0.wf() && self.comb_6.1.wf()
        &&& self.comb_7.0.wf() && self.comb_7.1.wf()
        &&& self.comb_8.0.wf() && self.comb_8.1.wf()
        &&& self.allpass_1.0.wf() && self.allpass_1.1.wf()
        &&& self.allpass_2.0.wf() && self.allpass_2.1.wf()
        &&& self.allpass_3.0.wf() && self.allpass_3.1.wf()
        &&& self.allpass_4.0.wf() && self.allpass_4.1.wf()
    }

    /// A silent tank: every comb and allpass delay slot holds
    /// equilibrium, every cursor stands at the start, and every
    /// one-pole accumulator is at rest — the state construction
    /// leaves the reverberant network in.
    pub open spec fn tank_silent(self) -> bool {
        &&& self.comb_1.0.silent() && self.comb_1.1.silent()
        &&& self.comb_2.0.silent() && self.comb_2.1.silent()
        &&& self.comb_3.0.silent() && self.comb_3.1.silent()
        &&& self.comb_4.0.silent() && self.comb_4.1.silent()
        &&& self.comb_5.0.silent() && self.comb_5.1.silent()
        &&& self.comb_6.0.silent() && self.comb_6.1.silent()
        &&& self.comb_7.0.silent() && self.comb_7.1.silent()
        &&& self.comb_8.0.silent() && self.comb_8.1.silent()
        &&& self.allpass_1.0.silent() && self.allpass_1.1.silent()
        &&& self.allpass_2.0.silent() && self.allpass_2.1.silent()
        &&& self.allpass_3.0.silent() && self.allpass_3.1.silent()
        &&& self.allpass_4.0.silent() && self.allpass_4.1.silent()
    }

    /// The feedback all 16 combs run with: peak while frozen, else the
    /// scaled room size.
    pub open spec fn effective_feedback(self) -> S {
        if self.frozen {
            S::peak_spec()
        } else {
            self.room_size
        }
    }

    /// The dampening all 16 combs run with: equilibrium while frozen,
    /// else the scaled dampening.
    pub open spec fn effective_dampening(self) -> S {
        if self.frozen {
            S::equilibrium_spec()
        } else {
            self.dampening
        }
    }

    /// The mono tank input: `(left + right) * 0.015 * input_gain`.
    pub open spec fn mixed_input_spec(self, input: (S, S)) -> S {
        input.0.add_spec(input.1).mul_spec(S::from_ratio_spec(3, 200)).mul_spec(self.input_gain)
    }

    /// The sum of the 8 left comb outputs of the next tick.
    pub open spec fn tank_left_spec(self) -> S {
        S::equilibrium_spec()
            .add_spec(self.comb_1.0.output_spec())
            .add_spec(self.comb_2.0.output_spec())
            .add_spec(self.comb_3.0.output_spec())
            .add_spec(self.comb_4.0.output_spec())
            .add_spec(self.comb_5.0.output_spec())
            .add_spec(self.comb_6.0.output_spec())
            .add_spec(self.comb_7.0.output_spec())
            .add_spec(self.comb_8.0.output_spec())
    }

    /// The sum of the 8 right comb outputs of the next tick.
    pub open spec fn tank_right_spec(self) -> S {
        S::equilibrium_spec()
            .add_spec(self.comb_1.1.output_spec())
            .add_spec(self.comb_2.1.output_spec())
            .add_spec(self.comb_3.1.output_spec())
            .add_spec(self.comb_4.1.output_spec())
            .add_spec(self.comb_5.1.output_spec())
            .add_spec(self.comb_6.1.output_spec())
            .add_spec(self.comb_7.1.output_spec())
            .add_spec(self.comb_8.1.output_spec())
    }

    /// The left tank after the first allpass of the series.
    pub open spec fn diffused1_left(self) -> S {
        self.allpass_1.0.output_spec(self.tank_left_spec())
    }

    pub open spec fn diffused2_left(self) -> S {
        self.allpass_2.0.output_spec(self.diffused1_left())
    }

    pub open spec fn diffused3_left(self) -> S {
        self.allpass_3.0.output_spec(self.diffused2_left())
    }

    /// The left tank after the whole allpass series.
    pub open spec fn diffused_left(self) -> S {
        self.allpass_4.0.output_spec(self.diffused3_left())
    }

    /// The right tank after the first allpass of the series.
    pub open spec fn diffused1_right(self) -> S {
        self.allpass_1.1.output_spec(self.tank_right_spec())
    }

    pub open spec fn diffused2_right(self) -> S {
        self.allpass_2.1.output_spec(self.diffused1_right())
    }

    pub open spec fn diffused3_right(self) -> S {
        self.allpass_3.1.output_spec(self.diffused2_right())
    }

    /// The right tank after the whole allpass series.
    pub open spec fn diffused_right(self) -> S {
        self.allpass_4.1.output_spec(self.diffused3_right())
    }

    /// The left output frame:
    /// `tank_left * same + tank_right * other + left * dry`.
    pub open spec fn out_left_spec(self, input: (S, S)) -> S {
        self.diffused_left().mul_spec(self.wet_gains.0).add_spec(
            self.diffused_right().mul_spec(self.wet_gains.1),
        ).add_spec(input.0.mul_spec(self.dry))
    }

    /// The right output frame:
    /// `tank_right * same + tank_left * other + right * dry`.
    pub open spec fn out_right_spec(self, input: (S, S)) -> S {
        self.diffused_right().mul_spec(self.wet_gains.0).add_spec(
            self.diffused_left().mul_spec(self.wet_gains.1),
        ).add_spec(input.1.mul_spec(self.dry))
    }

    /// All 16 combs retuned in lockstep to `(fb, damp)`, everything
    /// else untouched.
    pub open spec fn combs_tuned(pre: Self, post: Self, fb: S, damp: S) -> bool {
        &&& Comb::tuned(pre.comb_1.0, post.comb_1.0, fb, damp)
        &&& Comb::tuned(pre.comb_1.1, post.comb_1.1, fb, damp)
        &&& Comb::tuned(pre.comb_2.0, post.comb_2.0, fb, damp)
        &&& Comb::tuned(pre.comb_2.1, post.comb_2.1, fb, damp)
        &&& Comb::tuned(pre.comb_3.0, post.comb_3.0, fb, damp)
        &&& Comb::tuned(pre.comb_3.1, post.comb_3.1, fb, damp)
        &&& Comb::tuned(pre.comb_4.0, post.comb_4.0, fb, damp)
        &&& Comb::tuned(pre.comb_4.1, post.comb_4.1, fb, damp)
        &&& Comb::tuned(pre.comb_5.0, post.comb_5.0, fb, damp)
        &&& Comb::tuned(pre.comb_5.1, post.comb_5.1, fb, damp)
        &&& Comb::tuned(pre.comb_6.0, post.comb_6.0, fb, damp)
        &&& Comb::tuned(pre.comb_6.1, post.comb_6.1, fb, damp)
        &&& Comb::tuned(pre.comb_7.0, post.comb_7.0, fb, damp)
        &&& Comb::tuned(pre.comb_7.1, post.comb_7.1, fb, damp)
        &&& Comb::tuned(pre.comb_8.0, post.comb_8.0, fb, damp)
        &&& Comb::tuned(pre.comb_8.1, post.comb_8.1, fb, damp)
    }

    /// The allpass bank untouched.
    pub open spec fn allpasses_unchanged(pre: Self, post: Self) -> bool {
        &&& post.allpass_1 == pre.allpass_1
        &&& post.allpass_2 == pre.allpass_2
        &&& post.allpass_3 == pre.allpass_3
        &&& post.allpass_4 == pre.allpass_4
    }

    /// The comb bank untouched.
    pub open spec fn combs_unchanged(pre: Self, post: Self) -> bool {
        &&& post.comb_1 == pre.comb_1
        &&& post.comb_2 == pre.comb_2
        &&& post.comb_3 == pre.comb_3
        &&& post.comb_4 == pre.comb_4
        &&& post.comb_5 == pre.comb_5
        &&& post.comb_6 == pre.comb_6
        &&& post.comb_7 == pre.comb_7
        &&& post.comb_8 == pre.comb_8
    }

    /// Retunes all 16 combs to the effective feedback and dampening:
    /// `(peak, equilibrium)` while frozen, else the scaled room size
    /// and dampening.
    fn update_combs(&mut self)
        ensures
            Self::combs_tuned(
                *old(self),
                *final(self),
                old(self).effective_feedback(),
                old(self).effective_dampening(),
            ),
            Self::allpasses_unchanged(*old(self), *final(self)),
            final(self).wet_gains == old(self).wet_gains,
            final(self).wet == old(self).wet,
            final(self).width == old(self).width,
            final(self).dry == old(self).dry,
            final(self).input_gain == old(self).input_gain,
            final(self).dampening == old(self).dampening,
            final(self).room_size == old(self).room_size,
            final(self).frozen == old(self).frozen,
    {
        let feedback = if self.frozen {
            S::peak()
        } else {
            self.room_size
        };
        let dampening = if self.frozen {
            S::equilibrium()
        } else {
            self.dampening
        };

        self.comb_1.0.set_feedback(feedback);
        self.comb_1.0.set_dampening(dampening);
        self.comb_1.1.set_feedback(feedback);
        self.comb_1.1.set_dampening(dampening);

        self.comb_2.0.set_feedback(feedback);
        self.comb_2.0.set_dampening(dampening);
        self.comb_2.1.set_feedback(feedback);
        self.comb_2.1.set_dampening(dampening);

        self.comb_3.0.set_feedback(feedback);
        self.comb_3.0.set_dampening(dampening);
        self.comb_3.1.set_feedback(feedback);
        self.comb_3.1.set_dampening(dampening);

        self.comb_4.0.set_feedback(feedback);
        self.comb_4.0.set_dampening(dampening);
        self.comb_4.1.set_feedback(feedback);
        self.comb_4.1.set_dampening(dampening);

        self.comb_5.0.set_feedback(feedback);
        self.comb_5.0.set_dampening(dampening);
        self.comb_5.1.set_feedback(feedback);
        self.comb_5.1.set_dampening(dampening);

        self.comb_6.0.set_feedback(feedback);
        self.comb_6.0.set_dampening(dampening);
        self.comb_6.1.set_feedback(feedback);
        self.comb_6.1.set_dampening(dampening);

        self.comb_7.0.set_feedback(feedback);
        self.comb_7.0.set_dampening(dampening);
        self.comb_7.1.set_feedback(feedback);
        self.comb_7.1.set_dampening(dampening);

        self.comb_8.0.set_feedback(feedback);
        self.comb_8.0.set_dampening(dampening);
        self.comb_8.1.set_feedback(feedback);
        self.comb_8.1.set_dampening(dampening);
    }

    /// Recomputes the wet gain pair from the wet level and the width:
    /// `(wet * (width / 2 + 0.5), wet * ((1 - width) / 2))`.
    fn update_wet_gains(&mut self)
        ensures
            final(self).wet_gains.0 == same_gain_spec(old(self).wet, old(self).width),
            final(self).wet_gains.1 == other_gain_spec(old(self).wet, old(self).width),
            Self::combs_unchanged(*old(self), *final(self)),
            Self::allpasses_unchanged(*old(self), *final(self)),
            final(self).wet == old(self).wet,
            final(self).width == old(self).width,
            final(self).dry == old(self).dry,
            final(self).input_gain == old(self).input_gain,
            final(self).dampening == old(self).dampening,
            final(self).room_size == old(self).room_size,
            final(self).frozen == old(self).frozen,
    {
        let two = S::from_ratio(2, 1);
        let half = S::from_ratio(1, 2);
        self.wet_gains = (
            self.wet.mul(self.width.div(two).add(half)),
            self.wet.mul(S::peak().sub(self.width).div(two)),
        );
    }

    /// Scales and stores the dampening, then retunes the comb bank.
    pub fn set_dampening(&mut self, value: S)
        ensures
            final(self).dampening == value.mul_spec(S::from_ratio_spec(2, 5)),
            Self::combs_tuned(
                *old(self),
                *final(self),
                final(self).effective_feedback(),
                final(self).effective_dampening(),
            ),
            Self::allpasses_unchanged(*old(self), *final(self)),
            final(self).wet_gains == old(self).wet_gains,
            final(self).wet == old(self).wet,
            final(self).width == old(self).width,
            final(self).dry == old(self).dry,
            final(self).input_gain == old(self).input_gain,
            final(self).room_size == old(self).room_size,
            final(self).frozen == old(self).frozen,
    {
        self.dampening = value.mul(S::from_ratio(2, 5));
        self.update_combs();
    }

    /// Freezes or thaws the tank: while frozen the input gain is cut to
    /// equilibrium and every comb recirculates losslessly with
    /// `(feedback, dampening) == (peak, equilibrium)`, whatever the
    /// stored room size and dampening.
    pub fn set_freeze(&mut self, frozen: bool)
        ensures
            final(self).frozen == frozen,
            final(self).input_gain == if frozen {
                S::equilibrium_spec()
            } else {
                S::peak_spec()
            },
            Self::combs_tuned(
                *old(self),
                *final(self),
                final(self).effective_feedback(),
                final(self).effective_dampening(),
            ),
            frozen ==> final(self).effective_feedback() == S::peak_spec()
                && final(self).effective_dampening() == S::equilibrium_spec(),
            Self::allpasses_unchanged(*old(self), *final(self)),
            final(self).wet_gains == old(self).wet_gains,
            final(self).wet == old(self).wet,
            final(self).width == old(self).width,
            final(self).dry == old(self).dry,
            final(self).dampening == old(self).dampening,
            final(self).room_size == old(self).room_size,
    {
        self.set_frozen(frozen);
    }

    /// Stores the freeze flag, cuts or restores the input gain, and
    /// retunes the comb bank.
    fn set_frozen(&mut self, frozen: bool)
        ensures
            final(self).frozen == frozen,
            final(self).input_gain == if frozen {
                S::equilibrium_spec()
            } else {
                S::peak_spec()
            },
            Self::combs_tuned(
                *old(self),
                *final(self),
                final(self).effective_feedback(),
                final(self).effective_dampening(),
            ),
            Self::allpasses_unchanged(*old(self), *final(self)),
            final(self).wet_gains == old(self).wet_gains,
            final(self).wet == old(self).wet,
            final(self).width == old(self).width,
            final(self).dry == old(self).dry,
            final(self).dampening == old(self).dampening,
            final(self).room_size == old(self).room_size,
    {
        self.frozen = frozen;
        self.input_gain = if frozen {
            S::equilibrium()
        } else {
            S::peak()
        };
        self.update_combs();
    }

    /// Scales and stores the wet level, then recomputes the wet gains.
    pub fn set_wet(&mut self, value: S)
        ensures
            final(self).wet == value.mul_spec(S::from_ratio_spec(3, 1)),
            final(self).wet_gains.0 == same_gain_spec(final(self).wet, old(self).width),
            final(self).wet_gains.1 == other_gain_spec(final(self).wet, old(self).width),
            Self::combs_unchanged(*old(self), *final(self)),
            Self::allpasses_unchanged(*old(self), *final(self)),
            final(self).width == old(self).width,
            final(self).dry == old(self).dry,
            final(self).input_gain == old(self).input_gain,
            final(self).dampening == old(self).dampening,
            final(self).room_size == old(self).room_size,
            final(self).frozen == old(self).frozen,
    {
        self.wet = value.mul(S::from_ratio(3, 1));
        self.update_wet_gains();
    }

    /// Stores the width, then recomputes the wet gains.
    pub fn set_width(&mut self, value: S)
        ensures
            final(self).width == value,
            final(self).wet_gains.0 == same_gain_spec(old(self).wet, value),
            final(self).wet_gains.1 == other_gain_spec(old(self).wet, value),
            Self::combs_unchanged(*old(self), *final(self)),
            Self::allpasses_unchanged(*old(self), *final(self)),
            final(self).wet == old(self).wet,
            final(self).dry == old(self).dry,
            final(self).input_gain == old(self).input_gain,
            final(self).dampening == old(self).dampening,
            final(self).room_size == old(self).room_size,
            final(self).frozen == old(self).frozen,
    {
        self.width = value;
        self.update_wet_gains();
    }

    /// Scales and stores the room size (`value * 0.28 + 0.7`), then
    /// retunes the comb bank.
    pub fn set_room_size(&mut self, value: S)
        ensures
            final(self).room_size == value.mul_spec(S::from_ratio_spec(7, 25)).add_spec(
                S::from_ratio_spec(7, 10),
            ),
            Self::combs_tuned(
                *old(self),
                *final(self),
                final(self).effective_feedback(),
                final(self).effective_dampening(),
            ),
            Self::allpasses_unchanged(*old(self), *final(self)),
            final(self).wet_gains == old(self).wet_gains,
            final(self).wet == old(self).wet,
            final(self).width == old(self).width,
            final(self).dry == old(self).dry,
            final(self).input_gain == old(self).input_gain,
            final(self).dampening == old(self).dampening,
            final(self).frozen == old(self).frozen,
    {
        self.room_size = value.mul(S::from_ratio(7, 25)).add(S::from_ratio(7, 10));
        self.update_combs();
    }

    /// Stores the dry level; nothing else changes.
    pub fn set_dry(&mut self, value: S)
        ensures
            final(self).dry == value,
            Self::combs_unchanged(*old(self), *final(self)),
            Self::allpasses_unchanged(*old(self), *final(self)),
            final(self).wet_gains == old(self).wet_gains,
            final(self).wet == old(self).wet,
            final(self).width == old(self).width,
            final(self).input_gain == old(self).input_gain,
            final(self).dampening == old(self).dampening,
            final(self).room_size == old(self).room_size,
            final(self).frozen == old(self).frozen,
    {
        self.dry = value;
    }

    /// A reverberator with the standard 44.1 kHz tunings, wet at full
    /// scale, width and dampening and room size at one half, dry at
    /// equilibrium, the tank unfrozen — and silent: every buffer
    /// pre-zeroed, every cursor at the start, every accumulator at
    /// rest.
    pub fn new() -> (r: Freeverb<S>)
        ensures
            r.wf(),
            r.tank_silent(),
            r.comb_1.0.delay_line.buffer@.len() == COMB_TUNING_L1,
            r.comb_1.1.delay_line.buffer@.len() == COMB_TUNING_R1,
            r.comb_2.0.delay_line.buffer@.len() == COMB_TUNING_L2,
            r.comb_2.1.delay_line.buffer@.len() == COMB_TUNING_R2,
            r.comb_3.0.delay_line.buffer@.len() == COMB_TUNING_L3,
            r.comb_3.1.delay_line.buffer@.len() == COMB_TUNING_R3,
            r.comb_4.0.delay_line.buffer@.len() == COMB_TUNING_L4,
            r.comb_4.1.delay_line.buffer@.len() == COMB_TUNING_R4,
            r.comb_5.0.delay_line.buffer@.len() == COMB_TUNING_L5,
            r.comb_5.1.delay_line.buffer@.len() == COMB_TUNING_R5,
            r.comb_6.0.delay_line.buffer@.len() == COMB_TUNING_L6,
            r.comb_6.1.delay_line.buffer@.len() == COMB_TUNING_R6,
            r.comb_7.0.delay_line.buffer@.len() == COMB_TUNING_L7,
            r.comb_7.1.delay_line.buffer@.len() == COMB_TUNING_R7,
            r.comb_8.0.delay_line.buffer@.len() == COMB_TUNING_L8,
            r.comb_8.1.delay_line.buffer@.len() == COMB_TUNING_R8,
            r.allpass_1.0.delay_line.buffer@.len() == ALLPASS_TUNING_L1,
            r.allpass_1.1.delay_line.buffer@.len() == ALLPASS_TUNING_R1,
            r.allpass_2.0.delay_line.buffer@.len() == ALLPASS_TUNING_L2,
            r.allpass_2.1.delay_line.buffer@.len() == ALLPASS_TUNING_R2,
            r.allpass_3.0.delay_line.buffer@.len() == ALLPASS_TUNING_L3,
            r.allpass_3.1.delay_line.buffer@.len() == ALLPASS_TUNING_R3,
            r.allpass_4.0.delay_line.buffer@.len() == ALLPASS_TUNING_L4,
            r.allpass_4.1.delay_line.buffer@.len() == ALLPASS_TUNING_R4,
            r.frozen == false,
            r.input_gain == S::peak_spec(),
            r.dry == S::equilibrium_spec(),
            r.width == S::from_ratio_spec(1, 2),
            r.wet == S::peak_spec().mul_spec(S::from_ratio_spec(3, 1)),
            r.dampening == S::from_ratio_spec(1, 2).mul_spec(S::from_ratio_spec(2, 5)),
            r.room_size == S::from_ratio_spec(1, 2).mul_spec(S::from_ratio_spec(7, 25)).add_spec(
                S::from_ratio_spec(7, 10),
            ),
            r.wet_gains.0 == same_gain_spec(r.wet, r.width),
            r.wet_gains.1 == other_gain_spec(r.wet, r.width),
            r.comb_1.0.feedback == r.room_size,
            r.comb_1.0.dampening == r.dampening,
            Self::combs_tuned(r, r, r.room_size, r.dampening),
    {
        let mut freeverb = Freeverb {
            comb_1: (Comb::new(COMB_TUNING_L1), Comb::new(COMB_TUNING_R1)),
            comb_2: (Comb::new(COMB_TUNING_L2), Comb::new(COMB_TUNING_R2)),
            comb_3: (Comb::new(COMB_TUNING_L3), Comb::new(COMB_TUNING_R3)),
            comb_4: (Comb::new(COMB_TUNING_L4), Comb::new(COMB_TUNING_R4)),
            comb_5: (Comb::new(COMB_TUNING_L5), Comb::new(COMB_TUNING_R5)),
            comb_6: (Comb::new(COMB_TUNING_L6), Comb::new(COMB_TUNING_R6)),
            comb_7: (Comb::new(COMB_TUNING_L7), Comb::new(COMB_TUNING_R7)),
            comb_8: (Comb::new(COMB_TUNING_L8), Comb::new(COMB_TUNING_R8)),
            allpass_1: (AllPass::new(ALLPASS_TUNING_L1), AllPass::new(ALLPASS_TUNING_R1)),
            allpass_2: (AllPass::new(ALLPASS_TUNING_L2), AllPass::new(ALLPASS_TUNING_R2)),
            allpass_3: (AllPass::new(ALLPASS_TUNING_L3), AllPass::new(ALLPASS_TUNING_R3)),
            allpass_4: (AllPass::new(ALLPASS_TUNING_L4), AllPass::new(ALLPASS_TUNING_R4)),
            wet_gains: (S::equilibrium(), S::equilibrium()),
            wet: S::equilibrium(),
            width: S::equilibrium(),
            dry: S::equilibrium(),
            input_gain: S::equilibrium(),
            dampening: S::equilibrium(),
            room_size: S::equilibrium(),
            frozen: false,
        };

        freeverb.set_wet(S::peak());
        freeverb.set_width(S::from_ratio(1, 2));
        freeverb.set_dampening(S::from_ratio(1, 2));
        freeverb.set_room_size(S::from_ratio(1, 2));
        freeverb.set_frozen(false);

        freeverb
    }

    /// One stereo tick: mixes the frame to mono, feeds all 16 combs,
    /// sums each channel's comb outputs, runs them through the allpass
    /// series, and mixes the wet pair with the dry input.
    pub fn process(&mut self, input: (S, S)) -> (r: (S, S))
        requires
            old(self).wf(),
        ensures
            final(self).wf(),
            r.0 == old(self).out_left_spec(input),
            r.1 == old(self).out_right_spec(input),
            Comb::comb_stepped(
                old(self).comb_1.0,
                final(self).comb_1.0,
                old(self).mixed_input_spec(input),
            ),
            Comb::comb_stepped(
                old(self).comb_1.1,
                final(self).comb_1.1,
                old(self).mixed_input_spec(input),
            ),
            Comb::comb_stepped(
                old(self).comb_2.0,
                final(self).comb_2.0,
                old(self).mixed_input_spec(input),
            ),
            Comb::comb_stepped(
                old(self).comb_2.1,
                final(self).comb_2.1,
                old(self).mixed_input_spec(input),
            ),
            Comb::comb_stepped(
                old(self).comb_3.0,
                final(self).comb_3.0,
                old(self).mixed_input_spec(input),
            ),
            Comb::comb_stepped(
                old(self).comb_3.1,
                final(self).comb_3.1,
                old(self).mixed_input_spec(input),
            ),
            Comb::comb_stepped(
                old(self).comb_4.0,
                final(self).comb_4.0,
                old(self).mixed_input_spec(input),
            ),
            Comb::comb_stepped(
                old(self).comb_4.1,
                final(self).comb_4.1,
                old(self).mixed_input_spec(input),
            ),
            Comb::comb_stepped(
                old(self).comb_5.0,
                final(self).comb_5.0,
                old(self).mixed_input_spec(input),
            ),
            Comb::comb_stepped(
                old(self).comb_5.1,
                final(self).comb_5.1,
                old(self).mixed_input_spec(input),
            ),
            Comb::comb_stepped(
                old(self).comb_6.0,
                final(self).comb_6.0,
                old(self).mixed_input_spec(input),
            ),
            Comb::comb_stepped(
                old(self).comb_6.1,
                final(self).comb_6.1,
                old(self).mixed_input_spec(input),
            ),
            Comb::comb_stepped(
                old(self).comb_7.0,
                final(self).comb_7.0,
                old(self).mixed_input_spec(input),
            ),
            Comb::comb_stepped(
                old(self).comb_7.1,
                final(self).comb_7.1,
                old(self).mixed_input_spec(input),
            ),
            Comb::comb_stepped(
                old(self).comb_8.0,
                final(self).comb_8.0,
                old(self).mixed_input_spec(input),
            ),
            Comb::comb_stepped(
                old(self).comb_8.1,
                final(self).comb_8.1,
                old(self).mixed_input_spec(input),
            ),
            AllPass::ap_stepped(
                old(self).allpass_1.0,
                final(self).allpass_1.0,
                old(self).tank_left_spec(),
            ),
            AllPass::ap_stepped(
                old(self).allpass_1.1,
                final(self).allpass_1.1,
                old(self).tank_right_spec(),
            ),
            AllPass::ap_stepped(
                old(self).allpass_2.0,
                final(self).allpass_2.0,
                old(self).diffused1_left(),
            ),
            AllPass::ap_stepped(
                old(self).allpass_2.1,
                final(self).allpass_2.1,
                old(self).diffused1_right(),
            ),
            AllPass::ap_stepped(
                old(self).allpass_3.0,
                final(self).allpass_3.0,
                old(self).diffused2_left(),
            ),
            AllPass::ap_stepped(
                old(self).allpass_3.1,
                final(self).allpass_3.1,
                old(self).diffused2_right(),
            ),
            AllPass::ap_stepped(
                old(self).allpass_4.0,
                final(self).allpass_4.0,
                old(self).diffused3_left(),
            ),
            AllPass::ap_stepped(
                old(self).allpass_4.1,
                final(self).allpass_4.1,
                old(self).diffused3_right(),
            ),
            final(self).wet_gains == old(self).wet_gains,
            final(self).wet == old(self).wet,
            final(self).width == old(self).width,
            final(self).dry == old(self).dry,
            final(self).input_gain == old(self).input_gain,
            final(self).dampening == old(self).dampening,
            final(self).room_size == old(self).room_size,
            final(self).frozen == old(self).frozen,
    {
        let input_mixed = input.0.add(input.1).mul(S::from_ratio(3, 200)).mul(self.input_gain);

        let mut out_l = S::equilibrium();
        let mut out_r = S::equilibrium();

        out_l = out_l.add(self.comb_1.0.process(input_mixed));
        out_r = out_r.add(self.comb_1.1.process(input_mixed));

        out_l = out_l.add(self.comb_2.0.process(input_mixed));
        out_r = out_r.add(self.comb_2.1.process(input_mixed));

        out_l = out_l.add(self.comb_3.0.process(input_mixed));
        out_r = out_r.add(self.comb_3.1.process(input_mixed));

        out_l = out_l.add(self.comb_4.0.process(input_mixed));
        out_r = out_r.add(self.comb_4.1.process(input_mixed));

        out_l = out_l.add(self.comb_5.0.process(input_mixed));
        out_r = out_r.add(self.comb_5.1.process(input_mixed));

        out_l = out_l.add(self.comb_6.0.process(input_mixed));
        out_r = out_r.add(self.comb_6.1.process(input_mixed));

        out_l = out_l.add(self.comb_7.0.process(input_mixed));
        out_r = out_r.add(self.comb_7.1.process(input_mixed));

        out_l = out_l.add(self.comb_8.0.process(input_mixed));
        out_r = out_r.add(self.comb_8.1.process(input_mixed));

        out_l = self.allpass_1.0.process(out_l);
        out_r = self.allpass_1.1.process(out_r);

        out_l = self.allpass_2.0.process(out_l);
        out_r = self.allpass_2.1.process(out_r);

        out_l = self.allpass_3.0.process(out_l);
        out_r = self.allpass_3.1.process(out_r);

        out_l = self.allpass_4.0.process(out_l);
        out_r = self.allpass_4.1.process(out_r);

        (
            out_l.mul(self.wet_gains.0).add(out_r.mul(self.wet_gains.1)).add(
                input.0.mul(self.dry),
            ),
            out_r.mul(self.wet_gains.0).add(out_l.mul(self.wet_gains.1)).add(
                input.1.mul(self.dry),
            ),
        )
    }
}

impl<S: Sample> Node<(S, S), (S, S)> for Freeverb<S> {
    open spec fn node_wf(&self) -> bool {
        self.wf()
    }

    fn process(&mut self, input: (S, S)) -> (S, S) {
        Freeverb::process(self, input)
    }
}

/// While the input gain stands at equilibrium — as it does whenever the
/// tank is frozen — the mono tank input is silence for every frame, the
/// same value a silent frame would produce: fresh input never reaches
/// the tank.
pub proof fn lemma_freeze_cuts_input(fv: Freeverb<Fixed>, input: (Fixed, Fixed))
    requires
        fv.input_gain == Fixed::equilibrium_spec(),
    ensures
        fv.mixed_input_spec(input) == Fixed::equilibrium_spec(),
        fv.mixed_input_spec(input) == fv.mixed_input_spec(
            (Fixed::equilibrium_spec(), Fixed::equilibrium_spec()),
        ),
{
}

/// With a silent tank — as construction leaves it — the wet path
/// contributes nothing to the next tick: every comb output is
/// equilibrium, the allpass series passes silence through, and the
/// output frame is the dry-scaled input alone.
pub proof fn lemma_silent_tank_output_is_dry(fv: Freeverb<Fixed>, input: (Fixed, Fixed))
    requires
        fv.wf(),
        fv.tank_silent(),
    ensures
        fv.out_left_spec(input) == input.0.mul_fx(fv.dry),
        fv.out_right_spec(input) == input.1.mul_fx(fv.dry),
{
    let f = FRAC_ONE as int;
    assert(0int / f == 0) by {
        vstd::arithmetic::div_mod::lemma_div_of0(f);
    }
    let zero = Fixed { raw: 0 };
    assert(fv.tank_left_spec() == zero);
    assert(fv.tank_right_spec() == zero);
    assert(fv.diffused_left() == zero);
    assert(fv.diffused_right() == zero);
}

/// A non-negative value divided by the fixed-point constant two has
/// its raw value halved, exactly.
proof fn lemma_halved(x: Fixed)
    requires
        0 <= x.raw,
    ensures
        x.div_fx(Fixed::ratio_fx(2, 1)).raw == (x.raw as int) / 2,
        0 <= (x.raw as int) / 2 <= x.raw,
{
    let f = FRAC_ONE as int;
    let w = x.raw as int;
    assert((2 * f * 1) / 1 == 2 * f) by {
        vstd::arithmetic::div_mod::lemma_div_by_multiple(2 * f, 1);
    }
    assert(Fixed::ratio_fx(2, 1).raw == 2 * f);
    assert(w * f >= 0) by {
        vstd::arithmetic::mul::lemma_mul_nonnegative(w, f);
    }
    assert((w * f) / (f * 2) == ((w * f) / f) / 2) by {
        vstd::arithmetic::div_mod::lemma_div_denominator(w * f, f, 2);
    }
    assert((w * f) / f == w) by {
        vstd::arithmetic::div_mod::lemma_div_by_multiple(w, f);
    }
    assert(tz_div(w * f, 2 * f) == w / 2);
    assert(w / 2 <= w) by {
        vstd::arithmetic::div_mod::lemma_div_nonincreasing(w, 2);
    }
    assert(w / 2 >= 0) by {
        vstd::arithmetic::div_mod::lemma_div_pos_is_pos(w, 2);
    }
}

/// Scaling a non-negative wet level by a gain of at most peak is the
/// rescaled raw product, never exceeding the wet level itself.
proof fn lemma_scaled(wet: Fixed, g: Fixed)
    requires
        0 <= wet.raw,
        0 <= g.raw <= FRAC_ONE,
    ensures
        wet.mul_fx(g).raw == ((wet.raw as int) * (g.raw as int)) / (FRAC_ONE as int),
        0 <= wet.mul_fx(g).raw <= wet.raw,
{
    let f = FRAC_ONE as int;
    let ww = wet.raw as int;
    let a = g.raw as int;
    assert(ww * a >= 0) by {
        vstd::arithmetic::mul::lemma_mul_nonnegative(ww, a);
    }
    assert(tz_div(ww * a, f) == (ww * a) / f);
    assert((ww * a) / f >= 0) by {
        vstd::arithmetic::div_mod::lemma_div_pos_is_pos(ww * a, f);
    }
    assert(ww * a <= ww * f) by {
        vstd::arithmetic::mul::lemma_mul_inequality(a, f, ww);
        vstd::arithmetic::mul::lemma_mul_is_commutative(a, ww);
        vstd::arithmetic::mul::lemma_mul_is_commutative(f, ww);
    }
    assert((ww * a) / f <= (ww * f) / f) by {
        vstd::arithmetic::div_mod::lemma_div_is_ordered(ww * a, ww * f, f);
    }
    assert((ww * f) / f == ww) by {
        vstd::arithmetic::div_mod::lemma_div_by_multiple(ww, f);
    }
}

/// The floor of a sum of quotients brackets the quotient of the sum.
proof fn lemma_floor_sum(u: int, v: int, d: int)
    requires
        d > 0,
        u >= 0,
        v >= 0,
    ensures
        u / d + v / d <= (u + v) / d <= u / d + v / d + 1,
{
    let q = u / d + v / d;
    let s = u % d + v % d;
    vstd::arithmetic::div_mod::lemma_fundamental_div_mod(u, d);
    vstd::arithmetic::div_mod::lemma_fundamental_div_mod(v, d);
    assert(d * q == d * (u / d) + d * (v / d)) by {
        vstd::arithmetic::mul::lemma_mul_is_distributive_add(d, u / d, v / d);
    }
    assert(u + v == d * q + s);
    if s < d {
        assert((d * q + s) / d == q) by {
            vstd::arithmetic::div_mod::lemma_div_multiples_vanish_fancy(q, s, d);
        }
    } else {
        assert(d * (q + 1) == d * q + d) by {
            vstd::arithmetic::mul::lemma_mul_is_distributive_add(d, q, 1);
        }
        assert(d * q + s == d * (q + 1) + (s - d));
        assert((d * (q + 1) + (s - d)) / d == q + 1) by {
            vstd::arithmetic::div_mod::lemma_div_multiples_vanish_fancy(q + 1, s - d, d);
        }
    }
}

/// Wet-gain conservation: for any non-negative wet level and any width
/// in the unit range, the two wet gains sum back to the wet level up
/// to the truncation slack of the fixed-point evaluation — at most two
/// raw steps plus one step per whole unit of the wet level — and never
/// exceed it.
pub proof fn lemma_wet_gain_conservation(wet: Fixed, width: Fixed)
    requires
        0 <= wet.raw,
        0 <= width.raw <= FRAC_ONE,
    ensures
        0 <= same_gain_spec::<Fixed>(wet, width).raw,
        0 <= other_gain_spec::<Fixed>(wet, width).raw,
        same_gain_spec::<Fixed>(wet, width).raw + other_gain_spec::<Fixed>(wet, width).raw
            <= wet.raw,
        wet.raw - same_gain_spec::<Fixed>(wet, width).raw - other_gain_spec::<Fixed>(
            wet,
            width,
        ).raw <= (wet.raw as int) / (FRAC_ONE as int) + 2,
{
    let f = FRAC_ONE as int;
    let w = width.raw as int;
    let ww = wet.raw as int;
    let two = Fixed::ratio_fx(2, 1);
    let half = Fixed::ratio_fx(1, 2);

    lemma_halved(width);
    let a_fx = width.div_fx(two).add_fx(half);
    assert(a_fx.raw == w / 2 + 0x8000_0000);

    let sub_w = Fixed::peak_spec().sub_fx(width);
    assert(sub_w.raw == f - w);
    lemma_halved(sub_w);
    let b_fx = sub_w.div_fx(two);
    let a = a_fx.raw as int;
    let b = b_fx.raw as int;

    // The two gain factors sum to peak, or one truncation step short.
    vstd::arithmetic::div_mod::lemma_fundamental_div_mod(w, 2);
    let wq = w / 2;
    let wr = w % 2;
    assert(f - w == 2 * ((f / 2) - wq) - wr) by {
        vstd::arithmetic::mul::lemma_mul_is_distributive_sub(2, f / 2, wq);
    }
    if wr == 0 {
        assert((2 * ((f / 2) - wq)) / 2 == (f / 2) - wq) by {
            vstd::arithmetic::div_mod::lemma_div_multiples_vanish((f / 2) - wq, 2);
        }
        assert(a + b == f);
    } else {
        assert(f - w == 2 * ((f / 2) - wq - 1) + 1) by {
            vstd::arithmetic::mul::lemma_mul_is_distributive_sub(2, (f / 2) - wq, 1);
        }
        assert((2 * ((f / 2) - wq - 1) + 1) / 2 == (f / 2) - wq - 1) by {
            vstd::arithmetic::div_mod::lemma_div_multiples_vanish_fancy((f / 2) - wq - 1, 1, 2);
        }
        assert(a + b == f - 1);
    }

    lemma_scaled(wet, a_fx);
    lemma_scaled(wet, b_fx);
    let sa = (ww * a) / f;
    let ob = (ww * b) / f;
    assert(same_gain_spec::<Fixed>(wet, width).raw == sa);
    assert(other_gain_spec::<Fixed>(wet, width).raw == ob);

    assert(ww * a + ww * b == ww * (a + b)) by {
        vstd::arithmetic::mul::lemma_mul_is_distributive_add(ww, a, b);
    }
    lemma_floor_sum(ww * a, ww * b, f);

    // Upper bound: the gains never sum past the wet level.
    assert(ww * (a + b) <= ww * f) by {
        vstd::arithmetic::mul::lemma_mul_inequality(a + b, f, ww);
        vstd::arithmetic::mul::lemma_mul_is_commutative(a + b, ww);
        vstd::arithmetic::mul::lemma_mul_is_commutative(f, ww);
    }
    assert((ww * (a + b)) / f <= (ww * f) / f) by {
        vstd::arithmetic::div_mod::lemma_div_is_ordered(ww * (a + b), ww * f, f);
    }
    assert((ww * f) / f == ww) by {
        vstd::arithmetic::div_mod::lemma_div_by_multiple(ww, f);
    }

    // Lower bound: at most one step per truncation, one per missing
    // factor unit.
    assert(ww * (f - 1) <= ww * (a + b)) by {
        vstd::arithmetic::mul::lemma_mul_inequality(f - 1, a + b, ww);
        vstd::arithmetic::mul::lemma_mul_is_commutative(a + b, ww);
        vstd::arithmetic::mul::lemma_mul_is_commutative(f - 1, ww);
    }
    assert((ww * (f - 1)) / f <= (ww * (a + b)) / f) by {
        vstd::arithmetic::div_mod::lemma_div_is_ordered(ww * (f - 1), ww * (a + b), f);
    }
    let c = ww / f;
    let rho = ww % f;
    vstd::arithmetic::div_mod::lemma_fundamental_div_mod(ww, f);
    assert(ww * (f - 1) == ww * f - ww) by {
        vstd::arithmetic::mul::lemma_mul_is_distributive_sub(ww, f, 1);
        vstd::arithmetic::mul::lemma_mul_basics(ww);
    }
    assert(ww * f - ww == f * (ww - c) - rho) by {
        vstd::arithmetic::mul::lemma_mul_is_distributive_sub(f, ww, c);
        vstd::arithmetic::mul::lemma_mul_is_commutative(ww, f);
    }
    if rho == 0 {
        assert((f * (ww - c)) / f == ww - c) by {
            vstd::arithmetic::div_mod::lemma_div_multiples_vanish(ww - c, f);
        }
        assert((ww * (f - 1)) / f == ww - c);
    } else {
        assert(f * (ww - c) - rho == f * (ww - c - 1) + (f - rho)) by {
            vstd::arithmetic::mul::lemma_mul_is_distributive_sub(f, ww - c, 1);
        }
        assert((f * (ww - c - 1) + (f - rho)) / f == ww - c - 1) by {
            vstd::arithmetic::div_mod::lemma_div_multiples_vanish_fancy(ww - c - 1, f - rho, f);
        }
        assert((ww * (f - 1)) / f == ww - c - 1);
    }
    assert(sa + ob >= (ww * (a + b)) / f - 1);
}

/// The width extremes of the wet-gain law, exactly: at full width the
/// cross gain vanishes, and at zero width the two gains are equal.
pub proof fn lemma_wet_gain_width_extremes(wet: Fixed)
    ensures
        other_gain_spec::<Fixed>(wet, Fixed::peak_spec()) == Fixed::equilibrium_spec(),
        same_gain_spec::<Fixed>(wet, Fixed::equilibrium_spec()) == other_gain_spec::<Fixed>(
            wet,
            Fixed::equilibrium_spec(),
        ),
{
    let f = FRAC_ONE as int;
    assert((2 * f * 1) / 1 == 2 * f) by {
        vstd::arithmetic::div_mod::lemma_div_by_multiple(2 * f, 1);
    }
    assert(Fixed::ratio_fx(2, 1).raw == 2 * f);
    assert(Fixed::peak_spec().sub_fx(Fixed::peak_spec()).raw == 0);
    assert(0int / (2 * f) == 0) by {
        vstd::arithmetic::div_mod::lemma_div_of0(2 * f);
    }
    assert(0int / f == 0) by {
        vstd::arithmetic::div_mod::lemma_div_of0(f);
    }
    assert(other_gain_spec::<Fixed>(wet, Fixed::peak_spec()).raw == 0);
    lemma_halved(Fixed::peak_spec());
    lemma_halved(Fixed::equilibrium_spec());
}

} // verus!
