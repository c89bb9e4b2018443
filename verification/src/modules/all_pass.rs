//! The canonical Schroeder allpass section, built on a delay line.
//!
//! The feedback coefficient is fixed at one half and never
//! configurable; the section diffuses echo density without altering
//! the magnitude response.

use vstd::prelude::*;
use crate::modules::delay_line::{stepped_buffer, stepped_index, DelayLine};
use crate::node::Node;
use crate::sample::Sample;

verus! {

/// An allpass filter with feedback fixed at one half.
pub struct AllPass<S: Sample> {
    pub delay_line: DelayLine<S>,
}

impl<S: Sample> AllPass<S> {
    pub open spec fn wf(self) -> bool {
        self.delay_line.wf()
    }

    /// An allpass whose line is silent: every delay slot at
    /// equilibrium and the cursor at the start.
    pub open spec fn silent(self) -> bool {
        &&& self.delay_line.index == 0
        &&& forall|i: int|
            0 <= i < self.delay_line.buffer@.len() ==> self.delay_line.buffer@[i]
                == S::equilibrium_spec()
    }

    /// The output of the next tick: `-input + delayed`.
    pub open spec fn output_spec(self, input: S) -> S {
        input.neg_spec().add_spec(self.delay_line.delayed_spec())
    }

    /// The value written into the delay line on the next tick:
    /// `input + delayed * 0.5`.
    pub open spec fn write_value(self, input: S) -> S {
        input.add_spec(self.delay_line.delayed_spec().mul_spec(S::from_ratio_spec(1, 2)))
    }

    /// How one tick with `input` relates the pre- and post-states of an
    /// allpass: the write value enters the line and the cursor advances.
    pub open spec fn ap_stepped(pre: AllPass<S>, post: AllPass<S>, input: S) -> bool {
        &&& post.delay_line.buffer@ == stepped_buffer(
            pre.delay_line.buffer@,
            pre.delay_line.index as int,
            pre.write_value(input),
        )
        &&& post.delay_line.index as int == stepped_index(
            pre.delay_line.buffer@.len() as int,
            pre.delay_line.index as int,
        )
    }

    /// An allpass over a fresh line of capacity `length`.
    pub fn new(length: usize) -> (r: AllPass<S>)
        requires
            length >= 1,
        ensures
            r.wf(),
            r.delay_line.index == 0,
            r.delay_line.buffer@.len() == length,
            forall|i: int| 0 <= i < length ==> r.delay_line.buffer@[i] == S::equilibrium_spec(),
    {
        AllPass { delay_line: DelayLine::new(length) }
    }

    /// One tick: returns `-input + delayed` and writes
    /// `input + delayed * 0.5` into the line.
    pub fn process(&mut self, input: S) -> (r: S)
        requires
            old(self).wf(),
        ensures
            final(self).wf(),
            r == old(self).output_spec(input),
            AllPass::ap_stepped(*old(self), *final(self), input),
            final(self).delay_line.buffer@.len() == old(self).delay_line.buffer@.len(),
    {
        let delayed = self.delay_line.read();
        let output = input.neg().add(delayed);
        let feedback = S::from_ratio(1, 2);
        self.delay_line.process(input.add(delayed.mul(feedback)));
        output
    }
}

impl<S: Sample> Node<S, S> for AllPass<S> {
    open spec fn node_wf(&self) -> bool {
        self.wf()
    }

    fn process(&mut self, input: S) -> S {
        AllPass::process(self, input)
    }
}

} // verus!
