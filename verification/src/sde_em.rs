//! The Euler-Maruyama stepper.
use vstd::prelude::*;
use crate::dop_shared::{IntegrationError, Stats};
use crate::numeric::{Scalar, State};
use crate::sde_shared::System;
use crate::trajectory::{em_state, is_step, step_count, Run};

verus! {

/// Computes the number of steps from `x` to `x_end` with step `h`.
pub fn num_steps<X: Scalar>(x: X, x_end: X, h: X) -> (n: usize)
    ensures
        n == step_count(x, x_end, h),
{
    x_end.minus(x).over(h).ceil().to_count()
}

/// Computes the state after one step of size `h` from `y`, given the drift and
/// the diffusion that the model gave for this step.
pub fn em_update<V: State>(y: V, drift: V, diffusion: V, h: V::Time) -> (y_new: V)
    ensures
        y_new == em_state(y, drift, diffusion, h),
{
    y.plus(drift.scale(h)).plus(diffusion.scale(h.sqrt()))
}

/// A fixed-step Euler-Maruyama integrator of the model `F` over states `V`.
///
/// A stepper is made for one run. A further run goes on from the sample that
/// the last one ended at and appends to what is recorded: nothing is reset.
pub struct SdeEm<V: State, F: System<V>> {
    f: F,
    x: V::Time,
    y: V,
    x_end: V::Time,
    step_size: V::Time,
    x_out: Vec<V::Time>,
    y_out: Vec<V>,
    stats: Stats,
}

impl<V: State, F: System<V>> View for SdeEm<V, F> {
    type V = Run<V, F>;

    closed spec fn view(&self) -> Run<V, F> {
        Run {
            model: self.f,
            x: self.x,
            y: self.y,
            x_end: self.x_end,
            step_size: self.step_size,
            times: self.x_out@,
            states: self.y_out@,
            stats: self.stats,
        }
    }
}

impl<V: State, F: System<V>> SdeEm<V, F> {
    /// Makes a stepper for the model `f` that starts at time `x` in state `y`
    /// and runs to `x_end` in steps of `step_size`. No argument is refused.
    pub fn new(f: F, x: V::Time, y: V, x_end: V::Time, step_size: V::Time) -> (s: Self)
        ensures
            s@ == Run::fresh(f, x, y, x_end, step_size),
            s@.wf(),
    {
        SdeEm { f, x, y, x_end, step_size, x_out: Vec::new(), y_out: Vec::new(), stats: Stats::new() }
    }

    /// Runs from the current sample to the end of the span: records the current
    /// sample, then takes `ceil((x_end - x) / step_size)` steps and records the
    /// sample after each. Returns the counters; it never fails.
    pub fn integrate(&mut self) -> (res: Result<Stats, IntegrationError>)
        requires
            old(self)@.wf(),
        ensures
            final(self)@.wf(),
            old(self)@.runs_to(final(self)@),
            res == Ok::<Stats, IntegrationError>(final(self)@.stats),
    {
        let ghost pre = self@;
        let ghost k = pre.times.len() as int;
        self.x_out.push(self.x);
        self.y_out.push(self.y);
        let n: usize = num_steps(self.x, self.x_end, self.step_size);
        let mut i: usize = 0;
        while i < n
            invariant
                i <= n,
                n == pre.steps_ahead(),
                k == pre.times.len(),
                pre.wf(),
                self@.model == pre.model,
                self@.x_end == pre.x_end,
                self@.step_size == pre.step_size,
                self@.times.len() == k + i + 1,
                self@.states.len() == k + i + 1,
                self@.times.take(k) == pre.times,
                self@.states.take(k) == pre.states,
                self@.times[k] == pre.x,
                self@.states[k] == pre.y,
                forall|j: int|
                    k < j < self@.times.len() ==> is_step(
                        pre.model,
                        pre.step_size,
                        self@.times[j - 1],
                        self@.states[j - 1],
                        #[trigger] self@.times[j],
                        self@.states[j],
                    ),
                self@.x == self@.times.last(),
                self@.y == self@.states.last(),
                self@.stats.function_evaluations == pre.stats.function_evaluations + i,
                self@.stats.accepted_steps == pre.stats.accepted_steps + i,
            decreases n - i,
        {
            let (x_new, y_new) = self.step();
            self.x_out.push(x_new);
            self.y_out.push(y_new);
            self.x = x_new;
            self.y = y_new;
            assert(self.stats.accepted_steps < self.x_out.len());
            self.stats.function_evaluations += 1;
            self.stats.accepted_steps += 1;
            i += 1;
        }
        Ok(self.stats)
    }

    /// Takes one step from the current sample, which it leaves as it is: the
    /// new time, and the new state from the model's drift and diffusion at the
    /// new time and the current state.
    fn step(&self) -> (next: (V::Time, V))
        ensures
            is_step(self@.model, self@.step_size, self@.x, self@.y, next.0, next.1),
    {
        let mut drift = self.y.zeros();
        let mut diffusion = self.y.zeros();
        let x_new = self.x.plus(self.step_size);
        self.f.deterministic(x_new, &self.y, &mut drift);
        self.f.stochastic(x_new, &self.y, &mut diffusion);
        let y_new = em_update(self.y, drift, diffusion, self.step_size);
        (x_new, y_new)
    }

    /// The times recorded so far.
    pub fn x_out(&self) -> (times: &Vec<V::Time>)
        ensures
            times@ == self@.times,
    {
        &self.x_out
    }

    /// The states recorded so far, one for each time of [`SdeEm::x_out`].
    pub fn y_out(&self) -> (states: &Vec<V>)
        ensures
            states@ == self@.states,
    {
        &self.y_out
    }
}

} // verus!
