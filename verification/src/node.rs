//! The one-operation processing-unit interface that all filters share.

use vstd::prelude::*;

verus! {

/// A stateful processing unit, invoked exactly once per tick.
///
/// The behaviour of each implementation is specified on the inherent
/// `process` method of the implementing type; this trait only carries
/// the common shape for callers that plug nodes together generically.
pub trait Node<Input, Output> {
    /// The structural well-formedness that processing relies on and
    /// preserves (for a filter: its buffers are non-empty and every
    /// cursor is in range).
    spec fn node_wf(&self) -> bool;

    fn process(&mut self, input: Input) -> (output: Output)
        requires
            old(self).node_wf(),
        ensures
            final(self).node_wf(),
    ;
}

/// A node whose current output can be observed without mutating it,
/// letting feedback topologies sample a delay before writing to it.
pub trait ReadableNode<Output> {
    /// The structural well-formedness that reading relies on.
    spec fn readable_wf(&self) -> bool;

    fn read(&self) -> Output
        requires
            self.readable_wf(),
    ;
}

} // verus!
