//! A comb filter with one-pole damped feedback, built on a delay line.
//!
//! Each tick returns the delayed value, smooths it into a one-pole
//! accumulator, and writes the input plus the scaled accumulator back
//! into the line. The dampening and its complement are re-derived
//! together on every change, so `dampening + dampening_inverse == peak`
//! at all times.

use vstd::prelude::*;
use crate::fixed::Fixed;
use crate::modules::delay_line::{stepped_buffer, stepped_index, DelayLine};
use crate::node::Node;
use crate::sample::Sample;

verus! {

/// A damped feedback comb filter.
pub struct Comb<S: Sample> {
    pub delay_line: DelayLine<S>,
    pub feedback: S,
    pub filter_state: S,
    pub dampening: S,
    pub dampening_inverse: S,
}

impl<S: Sample> Comb<S> {
    pub open spec fn wf(self) -> bool {
        self.delay_line.wf()
    }

    /// The complement is always derived from the dampening, so the two
    /// sum back to peak wherever subtraction did not saturate.
    pub open spec fn damp_consistent(self) -> bool {
        self.dampening_inverse == S::peak_spec().sub_spec(self.dampening)
    }

    /// A comb whose tank is silent: every delay slot at equilibrium,
    /// the cursor at the start, and the accumulator at rest.
    pub open spec fn silent(self) -> bool {
        &&& self.delay_line.index == 0
        &&& forall|i: int|
            0 <= i < self.delay_line.buffer@.len() ==> self.delay_line.buffer@[i]
                == S::equilibrium_spec()
        &&& self.filter_state == S::equilibrium_spec()
    }

    /// The output of the next tick: the delayed value, read before the
    /// write.
    pub open spec fn output_spec(self) -> S {
        self.delay_line.delayed_spec()
    }

    /// The one-pole accumulator after the next tick:
    /// `output * dampening_inverse + filter_state * dampening`.
    pub open spec fn next_filter_state(self) -> S {
        self.output_spec().mul_spec(self.dampening_inverse).add_spec(
            self.filter_state.mul_spec(self.dampening),
        )
    }

    /// The value written into the delay line on the next tick:
    /// `input + filter_state' * feedback`.
    pub open spec fn write_value(self, input: S) -> S {
        input.add_spec(self.next_filter_state().mul_spec(self.feedback))
    }

    /// How one tick with `input` relates the pre- and post-states of a
    /// comb: the accumulator is smoothed, the write value enters the
    /// line, the cursor advances, and the gains stay.
    pub open spec fn comb_stepped(pre: Comb<S>, post: Comb<S>, input: S) -> bool {
        &&& post.filter_state == pre.next_filter_state()
        &&& post.delay_line.buffer@ == stepped_buffer(
            pre.delay_line.buffer@,
            pre.delay_line.index as int,
            pre.write_value(input),
        )
        &&& post.delay_line.index as int == stepped_index(
            pre.delay_line.buffer@.len() as int,
            pre.delay_line.index as int,
        )
        &&& post.feedback == pre.feedback
        &&& post.dampening == pre.dampening
        &&& post.dampening_inverse == pre.dampening_inverse
    }

    /// How retuning relates the pre- and post-states of a comb: the
    /// delayed signal and the accumulator stay, the gains are replaced
    /// and the dampening complement is re-derived.
    pub open spec fn tuned(pre: Comb<S>, post: Comb<S>, fb: S, damp: S) -> bool {
        &&& post.delay_line == pre.delay_line
        &&& post.filter_state == pre.filter_state
        &&& post.feedback == fb
        &&& post.dampening == damp
        &&& post.dampening_inverse == S::peak_spec().sub_spec(damp)
    }

    /// A comb over a fresh line of capacity `length`, with feedback and
    /// dampening at one half and the accumulator at rest.
    pub fn new(length: usize) -> (r: Comb<S>)
        requires
            length >= 1,
        ensures
            r.wf(),
            r.damp_consistent(),
            r.delay_line.index == 0,
            r.delay_line.buffer@.len() == length,
            forall|i: int| 0 <= i < length ==> r.delay_line.buffer@[i] == S::equilibrium_spec(),
            r.feedback == S::from_ratio_spec(1, 2),
            r.filter_state == S::equilibrium_spec(),
            r.dampening == S::from_ratio_spec(1, 2),
            r.dampening_inverse == S::peak_spec().sub_spec(S::from_ratio_spec(1, 2)),
    {
        let dampening = S::from_ratio(1, 2);
        Comb {
            delay_line: DelayLine::new(length),
            feedback: S::from_ratio(1, 2),
            filter_state: S::equilibrium(),
            dampening,
            dampening_inverse: S::peak().sub(dampening),
        }
    }

    /// Sets the dampening and atomically re-derives its complement.
    pub fn set_dampening(&mut self, value: S)
        ensures
            final(self).dampening == value,
            final(self).dampening_inverse == S::peak_spec().sub_spec(value),
            final(self).damp_consistent(),
            final(self).delay_line == old(self).delay_line,
            final(self).feedback == old(self).feedback,
            final(self).filter_state == old(self).filter_state,
    {
        self.dampening = value;
        self.dampening_inverse = S::peak().sub(value);
    }

    /// Sets the raw feedback gain; stability is the caller's charge.
    pub fn set_feedback(&mut self, value: S)
        ensures
            final(self).feedback == value,
            final(self).delay_line == old(self).delay_line,
            final(self).filter_state == old(self).filter_state,
            final(self).dampening == old(self).dampening,
            final(self).dampening_inverse == old(self).dampening_inverse,
    {
        self.feedback = value;
    }

    /// One tick: returns the delayed value, updates the one-pole
    /// accumulator, and writes `input + filter_state' * feedback` into
    /// the line.
    pub fn process(&mut self, input: S) -> (r: S)
        requires
            old(self).wf(),
        ensures
            final(self).wf(),
            r == old(self).output_spec(),
            Comb::comb_stepped(*old(self), *final(self), input),
            final(self).delay_line.buffer@.len() == old(self).delay_line.buffer@.len(),
    {
        let output = self.delay_line.read();
        self.filter_state = output.mul(self.dampening_inverse).add(
            self.filter_state.mul(self.dampening),
        );
        self.delay_line.process(input.add(self.filter_state.mul(self.feedback)));
        output
    }
}

/// The comb's standing invariant, exactly: for any dampening at or
/// above equilibrium, the re-derived complement restores peak, so
/// `dampening + dampening_inverse == peak` after every retuning.
pub proof fn lemma_dampening_partition(v: Fixed)
    requires
        0 <= v.raw,
    ensures
        v.add_fx(Fixed::peak_spec().sub_fx(v)) == Fixed::peak_spec(),
{
}

impl<S: Sample> Node<S, S> for Comb<S> {
    open spec fn node_wf(&self) -> bool {
        self.wf()
    }

    fn process(&mut self, input: S) -> S {
        Comb::process(self, input)
    }
}

} // verus!
