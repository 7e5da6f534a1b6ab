//! The biquad engine: coefficients, two-sample history, and the difference
//! equation applied sample by sample.
use crate::arith::{is_zero, minus, one, over, plus, times, zero};
use num_traits::Float;
use vstd::prelude::*;

verus! {

/// The six coefficients of the transfer function
/// `(b0 + b1 z^-1 + b2 z^-2) / (a0 + a1 z^-1 + a2 z^-2)`.
#[derive(Debug, Clone, Copy)]
pub struct Coefficients<T> {
    pub b0: T,
    pub b1: T,
    pub b2: T,
    pub a0: T,
    pub a1: T,
    pub a2: T,
}

/// The last two inputs (`x1`, `x2`) and the last two outputs (`y1`, `y2`).
#[derive(Debug, Clone, Copy)]
pub struct State<T> {
    pub x1: T,
    pub x2: T,
    pub y1: T,
    pub y2: T,
}

impl<T> State<T> {
    /// All four history slots hold one and the same value; `reset` writes
    /// the zero of `T` into each of them.
    pub open spec fn is_cleared(self) -> bool {
        &&& self.x2 == self.x1
        &&& self.y1 == self.x1
        &&& self.y2 == self.x1
    }
}

/// The history after one sample: input `x` went in and output `y` came out.
pub open spec fn step<T>(s: State<T>, x: T, y: T) -> State<T> {
    State { x1: x, x2: s.x1, y1: y, y2: s.y1 }
}

/// The history after the first `n` samples of a run that starts from `s`,
/// with inputs `xs` and outputs `ys`.
pub open spec fn run<T>(s: State<T>, xs: Seq<T>, ys: Seq<T>, n: nat) -> State<T>
    decreases n,
{
    if n == 0 {
        s
    } else {
        step(run(s, xs, ys, (n - 1) as nat), xs[n - 1], ys[n - 1])
    }
}

/// The processed-sample counter after `n` more samples: it grows by `n` and
/// stops at `u64::MAX`.
pub open spec fn counted(c: u64, n: nat) -> u64 {
    if c + n >= u64::MAX {
        u64::MAX
    } else {
        (c + n) as u64
    }
}

/// A run's history depends on the first `n` outputs only.
proof fn lemma_run_prefix<T>(s: State<T>, xs: Seq<T>, ys: Seq<T>, zs: Seq<T>, n: nat)
    requires
        n <= ys.len(),
        n <= zs.len(),
        forall|j: int| 0 <= j < n ==> ys[j] == zs[j],
    ensures
        run(s, xs, ys, n) == run(s, xs, zs, n),
    decreases n,
{
    if n > 0 {
        lemma_run_prefix(s, xs, ys, zs, (n - 1) as nat);
    }
}

/// The state a chain of steps reaches after its first `n` steps.
proof fn lemma_chain_prefix<T>(states: Seq<State<T>>, xs: Seq<T>, ys: Seq<T>, n: nat)
    requires
        xs.len() == ys.len(),
        states.len() == xs.len() + 1,
        n <= xs.len(),
        forall|i: int| 0 <= i < xs.len() ==> #[trigger] states[i + 1] == step(states[i], xs[i], ys[i]),
    ensures
        states[n as int] == run(states[0], xs, ys, n),
    decreases n,
{
    if n > 0 {
        lemma_chain_prefix(states, xs, ys, (n - 1) as nat);
        assert(states[(n - 1) + 1] == step(states[n - 1], xs[n - 1], ys[n - 1]));
    }
}

/// Whatever state a chain of single-sample steps reaches, a run over the
/// same inputs and outputs reaches too: processing a block is processing
/// its samples one after another, with the history carried forward.
pub proof fn lemma_block_is_sequential<T>(states: Seq<State<T>>, xs: Seq<T>, ys: Seq<T>)
    requires
        xs.len() == ys.len(),
        states.len() == xs.len() + 1,
        forall|i: int| 0 <= i < xs.len() ==> #[trigger] states[i + 1] == step(states[i], xs[i], ys[i]),
    ensures
        forall|i: int| 0 <= i <= xs.len() ==> #[trigger] states[i] == run(states[0], xs, ys, i as nat),
{
    assert forall|i: int| 0 <= i <= xs.len() implies #[trigger] states[i] == run(states[0], xs, ys, i as nat) by {
        lemma_chain_prefix(states, xs, ys, i as nat);
    }
}

/// Counting `n` samples and then one more is counting `n + 1` samples: the
/// counter after a block is the counter after as many single samples.
pub proof fn lemma_count_is_sequential(c: u64, n: nat)
    ensures
        counted(counted(c, n), 1) == counted(c, n + 1),
{
}

/// A second-order IIR filter in direct form I, with coefficients kept
/// divided by `a0`.
#[derive(Debug, Clone)]
pub struct DigitalBiquadFilter<T> {
    coefficients: Coefficients<T>,
    state: State<T>,
    iter: u64,
}

impl<T> DigitalBiquadFilter<T> {
    /// The coefficients in use.
    pub closed spec fn active(&self) -> Coefficients<T> {
        self.coefficients
    }

    /// The history the next sample is computed from.
    pub closed spec fn history(&self) -> State<T> {
        self.state
    }

    /// The number of samples processed since creation or the last reset.
    pub closed spec fn processed(&self) -> u64 {
        self.iter
    }

    /// The history is cleared and the counter is zero, as after `new`,
    /// `set_coefficients` or `reset`.
    pub open spec fn is_fresh(&self) -> bool {
        self.history().is_cleared() && self.processed() == 0
    }
}

impl<T: Float> DigitalBiquadFilter<T> {
    /// Creates a filter from `coefficients`, divided by `a0`, with a cleared
    /// history; `None` where `a0` is zero.
    pub fn new(coefficients: Coefficients<T>) -> (r: Option<Self>)
        ensures
            r matches Some(f) ==> f.is_fresh(),
    {
        if is_zero(coefficients.a0) {
            return None;
        }
        let mut filter = Self { coefficients, state: Self::cleared(), iter: 0 };
        filter.normalize_coefficients();
        Some(filter)
    }

    /// Filters one sample in place:
    /// `y = b0 x + b1 x1 + b2 x2 - a1 y1 - a2 y2`, then shifts the history.
    /// The coefficients were divided by `a0` once, when they were set, so
    /// `y` may differ in the last bit from dividing each term by `a0`.
    pub fn process(&mut self, sample: &mut T) -> (r: bool)
        ensures
            r,
            final(self).active() == old(self).active(),
            final(self).history() == step(old(self).history(), *old(sample), *final(sample)),
            final(self).processed() == counted(old(self).processed(), 1),
    {
        let c = self.coefficients;
        let s = self.state;
        let x = *sample;
        let output = minus(
            minus(plus(plus(times(c.b0, x), times(c.b1, s.x1)), times(c.b2, s.x2)), times(c.a1, s.y1)),
            times(c.a2, s.y2),
        );
        self.state = State { x1: x, x2: s.x1, y1: output, y2: s.y1 };
        *sample = output;
        if self.iter < u64::MAX {
            self.iter = self.iter + 1;
        }
        true
    }

    /// Filters `samples` in place, in order, as successive calls of
    /// `process`; fails on an empty block, which is left alone.
    pub fn process_block(&mut self, samples: &mut [T]) -> (r: bool)
        ensures
            r == (old(samples)@.len() > 0),
            final(samples)@.len() == old(samples)@.len(),
            !r ==> *final(self) == *old(self),
            final(self).active() == old(self).active(),
            final(self).history() == run(old(self).history(), old(samples)@, final(samples)@, old(samples)@.len()),
            final(self).processed() == counted(old(self).processed(), old(samples)@.len()),
    {
        let n = samples.len();
        if n == 0 {
            return false;
        }
        let ghost input = samples@;
        let mut i: usize = 0;
        while i < n
            invariant
                n == samples@.len(),
                input.len() == n,
                i <= n,
                self.active() == old(self).active(),
                forall|j: int| i <= j < n ==> samples@[j] == input[j],
                self.history() == run(old(self).history(), input, samples@, i as nat),
                self.processed() == counted(old(self).processed(), i as nat),
            decreases n - i,
        {
            let mut x = samples[i];
            self.process(&mut x);
            proof {
                lemma_run_prefix(old(self).history(), input, samples@, samples@.update(i as int, x), i as nat);
            }
            samples[i] = x;
            i = i + 1;
        }
        true
    }

    /// Replaces the coefficients with `coefficients` divided by `a0`, and
    /// clears the history; fails, changing nothing, where `a0` is zero.
    pub fn set_coefficients(&mut self, coefficients: Coefficients<T>) -> (r: bool)
        ensures
            !r ==> *final(self) == *old(self),
            r ==> final(self).is_fresh(),
    {
        if is_zero(coefficients.a0) {
            return false;
        }
        self.coefficients = coefficients;
        self.normalize_coefficients();
        self.reset();
        true
    }

    /// Clears the history and the counter; the coefficients stay.
    pub fn reset(&mut self)
        ensures
            final(self).active() == old(self).active(),
            final(self).is_fresh(),
    {
        self.state = Self::cleared();
        self.iter = 0;
    }

    /// A history with the zero of `T` in every slot.
    fn cleared() -> (r: State<T>)
        ensures
            r.is_cleared(),
    {
        let z = zero();
        State { x1: z, x2: z, y1: z, y2: z }
    }

    /// Divides every coefficient by `a0`, which then becomes one.
    fn normalize_coefficients(&mut self)
        ensures
            final(self).history() == old(self).history(),
            final(self).processed() == old(self).processed(),
    {
        let c = self.coefficients;
        let unit = one();
        let a0_inv = over(unit, c.a0);
        self.coefficients = Coefficients {
            b0: times(c.b0, a0_inv),
            b1: times(c.b1, a0_inv),
            b2: times(c.b2, a0_inv),
            a0: unit,
            a1: times(c.a1, a0_inv),
            a2: times(c.a2, a0_inv),
        };
    }
}

} // verus!
