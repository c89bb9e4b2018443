//! A fixed-capacity circular buffer implementing an exact N-sample delay.
//!
//! The buffer is allocated exactly once at construction and never
//! resized; a write cursor walks over it modulo the capacity. The value
//! `read()` returns at tick t is the value passed to `process()` at
//! tick t − N (equilibrium while t < N).

use vstd::prelude::*;
use crate::node::{Node, ReadableNode};
use crate::sample::Sample;

verus! {

/// An exact N-sample delay over a pre-zeroed ring buffer.
pub struct DelayLine<S: Sample> {
    pub buffer: Vec<S>,
    pub index: usize,
}

/// The buffer contents after one tick: the input overwrites the slot
/// under the cursor (the slot whose delayed value was just due).
pub open spec fn stepped_buffer<S: Sample>(buf: Seq<S>, idx: int, input: S) -> Seq<S> {
    buf.update(idx, input)
}

/// The cursor after one tick: advanced by one, wrapping at the capacity.
pub open spec fn stepped_index(len: int, idx: int) -> int {
    if idx + 1 < len {
        idx + 1
    } else {
        0
    }
}

impl<S: Sample> DelayLine<S> {
    /// The cursor is always a valid position of the never-empty buffer.
    pub open spec fn wf(self) -> bool {
        1 <= self.buffer@.len() && (self.index as int) < self.buffer@.len()
    }

    /// The delayed value currently due: the slot under the cursor.
    pub open spec fn delayed_spec(self) -> S {
        self.buffer@[self.index as int]
    }

    /// A line of capacity `length` with every slot at equilibrium and
    /// the cursor at the start.
    pub fn new(length: usize) -> (r: DelayLine<S>)
        requires
            length >= 1,
        ensures
            r.wf(),
            r.index == 0,
            r.buffer@.len() == length,
            forall|i: int| 0 <= i < length ==> r.buffer@[i] == S::equilibrium_spec(),
    {
        let mut buffer: Vec<S> = Vec::new();
        let mut filled: usize = 0;
        while filled < length
            invariant
                buffer@.len() == filled,
                filled <= length,
                forall|i: int| 0 <= i < filled ==> buffer@[i] == S::equilibrium_spec(),
            decreases length - filled,
        {
            buffer.push(S::equilibrium());
            filled = filled + 1;
        }
        DelayLine { buffer, index: 0 }
    }

    /// Returns the delayed value without mutating the line.
    pub fn read(&self) -> (r: S)
        requires
            self.wf(),
        ensures
            r == self.delayed_spec(),
    {
        self.buffer[self.index]
    }

    /// Stores `input` in the slot under the cursor (replacing the value
    /// `read()` would currently return), advances the cursor modulo the
    /// capacity, and returns the new current slot's value.
    pub fn process(&mut self, input: S) -> (r: S)
        requires
            old(self).wf(),
        ensures
            final(self).wf(),
            final(self).buffer@.len() == old(self).buffer@.len(),
            final(self).buffer@ == stepped_buffer(
                old(self).buffer@,
                old(self).index as int,
                input,
            ),
            final(self).index as int == stepped_index(
                old(self).buffer@.len() as int,
                old(self).index as int,
            ),
            r == final(self).delayed_spec(),
    {
        self.buffer[self.index] = input;
        if self.index < self.buffer.len() - 1 {
            self.index = self.index + 1;
        } else {
            self.index = 0;
        }
        self.read()
    }
}

impl<S: Sample> Node<S, S> for DelayLine<S> {
    open spec fn node_wf(&self) -> bool {
        self.wf()
    }

    fn process(&mut self, input: S) -> S {
        DelayLine::process(self, input)
    }
}

impl<S: Sample> ReadableNode<S> for DelayLine<S> {
    open spec fn readable_wf(&self) -> bool {
        self.wf()
    }

    fn read(&self) -> S {
        DelayLine::read(self)
    }
}

/// A buffer of capacity `n` holding silence in every slot.
pub open spec fn silent_line<S: Sample>(n: int) -> Seq<S> {
    Seq::new(n as nat, |i: int| S::equilibrium_spec())
}

/// The cursor of a fresh line of capacity `n` after `t` ticks.
pub open spec fn run_cursor(n: int, t: nat) -> int
    decreases t,
{
    if t == 0 {
        0
    } else {
        stepped_index(n, run_cursor(n, (t - 1) as nat))
    }
}

/// The sample a signal feeds at tick `s`: the signal's value there,
/// silence before its start and after its end.
pub open spec fn input_at<S: Sample>(inputs: Seq<S>, s: int) -> S {
    if 0 <= s < inputs.len() {
        inputs[s]
    } else {
        S::equilibrium_spec()
    }
}

/// The buffer of a fresh line of capacity `n` after `t` ticks of an
/// arbitrary signal.
pub open spec fn run_buffer<S: Sample>(n: int, inputs: Seq<S>, t: nat) -> Seq<S>
    decreases t,
{
    if t == 0 {
        silent_line::<S>(n)
    } else {
        stepped_buffer(
            run_buffer::<S>(n, inputs, (t - 1) as nat),
            run_cursor(n, (t - 1) as nat),
            input_at::<S>(inputs, t - 1),
        )
    }
}

/// The tick at which slot `j` was last written during the first `t`
/// ticks: the largest s < t with s equal to j modulo the capacity
/// (negative when the slot has not been written yet).
spec fn last_write(n: int, t: int, j: int) -> int {
    t - 1 - ((t - 1 - j) % n)
}

/// The cursor walks the buffer modulo the capacity.
pub proof fn lemma_run_cursor(n: int, t: nat)
    requires
        1 <= n,
    ensures
        run_cursor(n, t) == t % (n as nat),
    decreases t,
{
    if t == 0 {
        vstd::arithmetic::div_mod::lemma_small_mod(0nat, n as nat);
    } else {
        lemma_run_cursor(n, (t - 1) as nat);
        let c = (t - 1) as int % n;
        let q = (t - 1) as int / n;
        vstd::arithmetic::div_mod::lemma_fundamental_div_mod((t - 1) as int, n);
        if c + 1 < n {
            assert(t as int == q * n + (c + 1)) by {
                vstd::arithmetic::mul::lemma_mul_is_commutative(n, q);
            }
            vstd::arithmetic::div_mod::lemma_fundamental_div_mod_converse_mod(
                t as int,
                n,
                q,
                c + 1,
            );
        } else {
            assert(t as int == (q + 1) * n + 0) by {
                vstd::arithmetic::mul::lemma_mul_is_distributive_add_other_way(n, q, 1);
                vstd::arithmetic::mul::lemma_mul_is_commutative(n, q);
            }
            vstd::arithmetic::div_mod::lemma_fundamental_div_mod_converse_mod(
                t as int,
                n,
                q + 1,
                0,
            );
        }
    }
}

/// After `t` ticks, each slot holds the sample written on its latest
/// write tick, or silence if it has never been written.
proof fn lemma_run_buffer_state<S: Sample>(n: int, inputs: Seq<S>, t: nat)
    requires
        1 <= n,
    ensures
        run_buffer::<S>(n, inputs, t).len() == n,
        forall|j: int|
            0 <= j < n ==> run_buffer::<S>(n, inputs, t)[j] == input_at::<S>(
                inputs,
                last_write(n, t as int, j),
            ),
    decreases t,
{
    if t == 0 {
        assert forall|j: int| 0 <= j < n implies run_buffer::<S>(n, inputs, 0)[j] == input_at::<
            S,
        >(inputs, last_write(n, 0, j)) by {
            vstd::arithmetic::div_mod::lemma_mod_division_less_than_divisor(-1 - j, n);
        }
    } else {
        lemma_run_buffer_state::<S>(n, inputs, (t - 1) as nat);
        lemma_run_cursor(n, (t - 1) as nat);
        let c = (t - 1) as int % n;
        vstd::arithmetic::div_mod::lemma_mod_division_less_than_divisor((t - 1) as int, n);
        assert forall|j: int| 0 <= j < n implies run_buffer::<S>(n, inputs, t)[j] == input_at::<
            S,
        >(inputs, last_write(n, t as int, j)) by {
            vstd::arithmetic::div_mod::lemma_fundamental_div_mod((t - 1) as int, n);
            let q = (t - 1) as int / n;
            if j == c {
                // The slot just written: t - 1 - c is a multiple of n.
                assert(t - 1 - j == q * n) by {
                    vstd::arithmetic::mul::lemma_mul_is_commutative(n, q);
                }
                assert((q * n) % n == 0) by {
                    vstd::arithmetic::div_mod::lemma_mod_multiples_basic(q, n);
                }
                assert(last_write(n, t as int, j) == t - 1);
            } else {
                // An untouched slot: its last write tick is unchanged.
                let m0 = (t - 2 - j) % n;
                vstd::arithmetic::div_mod::lemma_mod_division_less_than_divisor(t - 2 - j, n);
                let q0 = (t - 2 - j) / n;
                vstd::arithmetic::div_mod::lemma_fundamental_div_mod(t - 2 - j, n);
                if m0 + 1 < n {
                    assert(t - 1 - j == q0 * n + (m0 + 1)) by {
                        vstd::arithmetic::mul::lemma_mul_is_commutative(n, q0);
                    }
                    vstd::arithmetic::div_mod::lemma_fundamental_div_mod_converse_mod(
                        t - 1 - j,
                        n,
                        q0,
                        m0 + 1,
                    );
                    assert(last_write(n, t as int, j) == last_write(n, (t - 1) as int, j));
                } else {
                    // m0 + 1 == n would put j on the cursor, against
                    // the case split.
                    assert(t - 1 - j == (q0 + 1) * n) by {
                        vstd::arithmetic::mul::lemma_mul_is_distributive_add_other_way(
                            n,
                            q0,
                            1,
                        );
                        vstd::arithmetic::mul::lemma_mul_is_commutative(n, q0 + 1);
                    }
                    assert(((q0 + 1) * n) % n == 0) by {
                        vstd::arithmetic::div_mod::lemma_mod_multiples_basic(q0 + 1, n);
                    }
                    assert((t - 1 - j) % n == 0);
                    assert(j == n * (-(q0 + 1)) + (t - 1)) by {
                        vstd::arithmetic::mul::lemma_mul_unary_negation(q0 + 1, n);
                        vstd::arithmetic::mul::lemma_mul_is_commutative(n, -(q0 + 1));
                    }
                    assert(j % n == (t - 1) % n) by {
                        vstd::arithmetic::div_mod::lemma_mod_multiples_vanish(
                            -(q0 + 1),
                            (t - 1) as int,
                            n,
                        );
                    }
                    assert(j % n == j) by {
                        vstd::arithmetic::div_mod::lemma_small_mod(j as nat, n as nat);
                    }
                    assert(false);
                }
            }
        }
    }
}

/// The exact N-sample delay, for every signal: the output of tick t —
/// the slot under the cursor after that tick — is the sample the
/// signal fed at tick t − (n − 1), and the value `read()` returns
/// before tick t is the sample fed at tick t − n (silence while the
/// signal has not been running that long).
pub proof fn lemma_exact_delay<S: Sample>(n: int, inputs: Seq<S>, t: nat)
    requires
        1 <= n,
    ensures
        run_buffer::<S>(n, inputs, t)[run_cursor(n, t)] == input_at::<S>(inputs, t - n),
{
    lemma_run_buffer_state::<S>(n, inputs, t);
    lemma_run_cursor(n, t);
    let c = t as int % n;
    vstd::arithmetic::div_mod::lemma_mod_division_less_than_divisor(t as int, n);
    vstd::arithmetic::div_mod::lemma_fundamental_div_mod(t as int, n);
    let q = t as int / n;
    // t - 1 - c is one short of the multiple q * n of the capacity.
    assert(t - 1 - c == q * n - 1) by {
        vstd::arithmetic::mul::lemma_mul_is_commutative(n, q);
    }
    assert(q * n - 1 == (q - 1) * n + (n - 1)) by {
        vstd::arithmetic::mul::lemma_mul_is_distributive_sub_other_way(n, q, 1);
    }
    vstd::arithmetic::div_mod::lemma_fundamental_div_mod_converse_mod(
        t - 1 - c,
        n,
        q - 1,
        n - 1,
    );
    assert(last_write(n, t as int, c) == t - n);
}

/// The delay-line impulse response: for any capacity n, feeding the
/// impulse [peak, equilibrium, equilibrium, ...] into a fresh line
/// yields equilibrium for each of the first n − 1 outputs and peak on
/// the nth. The output of tick t (counting from 0) is the slot under
/// the cursor after that tick.
pub proof fn lemma_impulse_response<S: Sample>(n: int, t: nat)
    requires
        1 <= n,
        t < n,
    ensures
        run_buffer::<S>(n, seq![S::peak_spec()], (t + 1) as nat)[run_cursor(
            n,
            (t + 1) as nat,
        )] == if t == n - 1 {
            S::peak_spec()
        } else {
            S::equilibrium_spec()
        },
{
    lemma_exact_delay::<S>(n, seq![S::peak_spec()], (t + 1) as nat);
}

} // verus!
