//! The mathematical model of a run: the step count, the time grid, the update
//! rule, and what makes two sequences a trajectory of the scheme.
use vstd::prelude::*;
use crate::dop_shared::Stats;
use crate::numeric::{Scalar, State};
use crate::sde_shared::System;

verus! {

/// The number of steps from `x` to `x_end` with step `h`: `ceil((x_end - x) / h)`
/// as a count. Where the span is no multiple of `h`, the last step ends past `x_end`.
pub open spec fn step_count<X: Scalar>(x: X, x_end: X, h: X) -> usize {
    x_end.spec_minus(x).spec_over(h).spec_ceil().spec_to_count()
}

/// The time reached from `x` by `i` steps of size `h`, each added in turn.
pub open spec fn time_after<X: Scalar>(x: X, h: X, i: nat) -> X
    decreases i,
{
    if i == 0 {
        x
    } else {
        time_after(x, h, (i - 1) as nat).spec_plus(h)
    }
}

/// The Euler-Maruyama update `y + drift * h + diffusion * sqrt(h)`, added from the left.
pub open spec fn em_state<V: State>(y: V, drift: V, diffusion: V, h: V::Time) -> V {
    y.spec_plus(drift.spec_scale(h)).spec_plus(diffusion.spec_scale(h.spec_sqrt()))
}

/// The explicit Euler update `y + drift * h`.
pub open spec fn euler_state<V: State>(y: V, drift: V, h: V::Time) -> V {
    y.spec_plus(drift.spec_scale(h))
}

/// `(x1, y1)` is what one step of size `h` of the model `f` can make of `(x, y)`:
/// time moves on by `h`, and drift and diffusion are taken at the new time and
/// the old state.
pub open spec fn is_step<V: State, F: System<V>>(
    f: F,
    h: V::Time,
    x: V::Time,
    y: V,
    x1: V::Time,
    y1: V,
) -> bool {
    &&& x1 == x.spec_plus(h)
    &&& exists|l: V| #[trigger] f.diffusion(x1, y, l) && y1 == em_state(y, f.drift(x1, y), l, h)
}

/// `times` and `states` are the samples of one run of the model `f` with step
/// `h`: of equal length, each sample after the first one step from the one before.
pub open spec fn is_trajectory<V: State, F: System<V>>(
    f: F,
    h: V::Time,
    times: Seq<V::Time>,
    states: Seq<V>,
) -> bool {
    &&& times.len() == states.len()
    &&& forall|i: int|
        0 < i < times.len() ==> is_step(
            f,
            h,
            times[i - 1],
            states[i - 1],
            #[trigger] times[i],
            states[i],
        )
}

/// What a stepper holds, as mathematics: the model, the current sample, the end
/// of the span, the step size, the samples recorded so far and the counters.
pub struct Run<V: State, F> {
    pub model: F,
    pub x: V::Time,
    pub y: V,
    pub x_end: V::Time,
    pub step_size: V::Time,
    pub times: Seq<V::Time>,
    pub states: Seq<V>,
    pub stats: Stats,
}

impl<V: State, F: System<V>> Run<V, F> {
    /// As many times as states are recorded, and no counter is ahead of them.
    pub open spec fn wf(self) -> bool {
        &&& self.times.len() == self.states.len()
        &&& self.stats.function_evaluations <= self.times.len()
        &&& self.stats.accepted_steps <= self.times.len()
    }

    /// A stepper as it is made: nothing recorded, nothing counted.
    pub open spec fn fresh(f: F, x: V::Time, y: V, x_end: V::Time, step_size: V::Time) -> Self {
        Run {
            model: f,
            x,
            y,
            x_end,
            step_size,
            times: Seq::empty(),
            states: Seq::empty(),
            stats: Stats { function_evaluations: 0, accepted_steps: 0 },
        }
    }

    /// The number of steps that the next run takes.
    pub open spec fn steps_ahead(self) -> usize {
        step_count(self.x, self.x_end, self.step_size)
    }

    /// `post` is `self` after one run. What was recorded before stays; behind it
    /// stand the current sample and then one sample per step, a trajectory of the
    /// model; the last sample is the current one; model, end and step size are
    /// unchanged; both counters grow by the number of steps.
    pub open spec fn runs_to(self, post: Self) -> bool {
        let k = self.times.len() as int;
        let n = self.steps_ahead() as int;
        &&& post.model == self.model
        &&& post.x_end == self.x_end
        &&& post.step_size == self.step_size
        &&& post.times.len() == k + n + 1
        &&& post.states.len() == k + n + 1
        &&& post.times.take(k) == self.times
        &&& post.states.take(k) == self.states
        &&& post.times[k] == self.x
        &&& post.states[k] == self.y
        &&& is_trajectory(self.model, self.step_size, post.times.skip(k), post.states.skip(k))
        &&& post.x == post.times.last()
        &&& post.y == post.states.last()
        &&& post.stats.function_evaluations == self.stats.function_evaluations + n
        &&& post.stats.accepted_steps == self.stats.accepted_steps + n
    }
}

/// The state reached from `(x, y)` by `i` explicit Euler steps of size `h` of
/// the drift of `f`, each taken at the new time and the old state.
pub open spec fn euler_after<V: State, F: System<V>>(
    f: F,
    x: V::Time,
    y: V,
    h: V::Time,
    i: nat,
) -> V
    decreases i,
{
    if i == 0 {
        y
    } else {
        let before = euler_after(f, x, y, h, (i - 1) as nat);
        euler_state(before, f.drift(time_after(x, h, i), before), h)
    }
}

/// `y` scaled by `g`, `n` times over.
pub open spec fn scaled_times<V: State>(y: V, g: V::Time, n: nat) -> V
    decreases n,
{
    if n == 0 {
        y
    } else {
        scaled_times(y, g, (n - 1) as nat).spec_scale(g)
    }
}

/// The model `f` has no noise: zero is the only diffusion that it gives.
pub open spec fn no_diffusion<V: State, F: System<V>>(f: F) -> bool {
    forall|x: V::Time, y: V, l: V| #[trigger] f.diffusion(x, y, l) ==> l == y.spec_zeros()
}

/// The arithmetic of `V` is exact at zero: zero scaled is zero, and a state
/// plus zero is that state.
pub open spec fn zero_is_neutral<V: State>() -> bool {
    &&& forall|y: V, s: V::Time| #[trigger] y.spec_zeros().spec_scale(s) == y.spec_zeros()
    &&& forall|y: V, w: V| #[trigger] w.spec_plus(y.spec_zeros()) == w
}

/// A first run records one sample more than it takes steps, as many states as times.
pub proof fn lemma_first_run_length<V: State, F: System<V>>(
    f: F,
    x: V::Time,
    y: V,
    x_end: V::Time,
    step_size: V::Time,
    post: Run<V, F>,
)
    requires
        Run::fresh(f, x, y, x_end, step_size).runs_to(post),
    ensures
        post.times.len() == step_count(x, x_end, step_size) + 1,
        post.states.len() == post.times.len(),
{
}

/// A first run records the start first: the time and the state that the
/// stepper was made with.
pub proof fn lemma_first_run_starts_at_start<V: State, F: System<V>>(
    f: F,
    x: V::Time,
    y: V,
    x_end: V::Time,
    step_size: V::Time,
    post: Run<V, F>,
)
    requires
        Run::fresh(f, x, y, x_end, step_size).runs_to(post),
    ensures
        post.times.len() > 0,
        post.times[0] == x,
        post.states[0] == y,
{
}

/// All that a first run records is one trajectory of the model.
pub proof fn lemma_first_run_is_trajectory<V: State, F: System<V>>(
    f: F,
    x: V::Time,
    y: V,
    x_end: V::Time,
    step_size: V::Time,
    post: Run<V, F>,
)
    requires
        Run::fresh(f, x, y, x_end, step_size).runs_to(post),
    ensures
        is_trajectory(f, step_size, post.times, post.states),
{
    assert(post.times.skip(0) =~= post.times);
    assert(post.states.skip(0) =~= post.states);
}

/// The times of a trajectory are a grid of equal steps: each is the one before
/// plus the step size, so the `i`-th is the first with the step added `i` times.
pub proof fn lemma_fixed_step_grid<V: State, F: System<V>>(
    f: F,
    h: V::Time,
    times: Seq<V::Time>,
    states: Seq<V>,
)
    requires
        is_trajectory(f, h, times, states),
    ensures
        forall|i: int| 0 < i < times.len() ==> #[trigger] times[i] == times[i - 1].spec_plus(h),
        forall|i: int| 0 <= i < times.len() ==> #[trigger] times[i] == time_after(times[0], h, i as nat),
    decreases times.len(),
{
    if times.len() > 1 {
        let n = times.len() - 1;
        assert(is_trajectory(f, h, times.take(n), states.take(n)));
        lemma_fixed_step_grid(f, h, times.take(n), states.take(n));
        assert(times.take(n)[n - 1] == times[n - 1]);
        assert(times.take(n)[0] == times[0]);
        assert forall|i: int| 0 <= i < times.len() implies #[trigger] times[i] == time_after(
            times[0],
            h,
            i as nat,
        ) by {
            if i < n {
                assert(times.take(n)[i] == times[i]);
            } else {
                assert(is_step(f, h, times[n - 1], states[n - 1], times[n], states[n]));
            }
        }
    }
}

/// With arithmetic that is exact at zero, a step whose diffusion is zero is
/// the explicit Euler step of the drift alone: the noise term adds nothing.
pub proof fn lemma_zero_diffusion_step_is_euler<V: State>(y: V, drift: V, h: V::Time)
    requires
        zero_is_neutral::<V>(),
    ensures
        em_state(y, drift, y.spec_zeros(), h) == euler_state(y, drift, h),
{
    assert(y.spec_zeros().spec_scale(h.spec_sqrt()) == y.spec_zeros());
}

/// Without noise, and with arithmetic that is exact at zero, the scheme is the
/// explicit Euler method: the states of a trajectory are those that explicit
/// Euler steps of the drift reach from the first sample.
pub proof fn lemma_no_diffusion_is_explicit_euler<V: State, F: System<V>>(
    f: F,
    h: V::Time,
    times: Seq<V::Time>,
    states: Seq<V>,
)
    requires
        is_trajectory(f, h, times, states),
        no_diffusion::<V, F>(f),
        zero_is_neutral::<V>(),
    ensures
        forall|i: int|
            0 < i < states.len() ==> #[trigger] states[i] == euler_state(
                states[i - 1],
                f.drift(times[i], states[i - 1]),
                h,
            ),
        forall|i: int|
            0 <= i < states.len() ==> #[trigger] states[i] == euler_after(
                f,
                times[0],
                states[0],
                h,
                i as nat,
            ),
    decreases states.len(),
{
    assert forall|i: int| 0 < i < states.len() implies #[trigger] states[i] == euler_state(
        states[i - 1],
        f.drift(times[i], states[i - 1]),
        h,
    ) by {
        assert(is_step(f, h, times[i - 1], states[i - 1], times[i], states[i]));
        let y = states[i - 1];
        let l = choose|l: V| #[trigger]
            f.diffusion(times[i], y, l) && states[i] == em_state(y, f.drift(times[i], y), l, h);
        assert(l == y.spec_zeros());
        assert(y.spec_zeros().spec_scale(h.spec_sqrt()) == y.spec_zeros());
    }
    if states.len() > 1 {
        let n = states.len() - 1;
        assert(is_trajectory(f, h, times.take(n), states.take(n)));
        lemma_no_diffusion_is_explicit_euler(f, h, times.take(n), states.take(n));
        lemma_fixed_step_grid(f, h, times, states);
        assert(times.take(n)[0] == times[0]);
        assert(states.take(n)[0] == states[0]);
        assert forall|i: int| 0 <= i < states.len() implies #[trigger] states[i] == euler_after(
            f,
            times[0],
            states[0],
            h,
            i as nat,
        ) by {
            if i < n {
                assert(states.take(n)[i] == states[i]);
            } else {
                assert(states.take(n)[n - 1] == states[n - 1]);
            }
        }
    }
}

/// Without noise, a drift whose explicit Euler step scales every state by one
/// factor `g` gives a geometric trajectory: the `i`-th state is the first
/// scaled `i` times by `g`. For the drift `-k y` in exact arithmetic that
/// factor is `1 - k h`.
pub proof fn lemma_no_diffusion_linear_drift_is_geometric<V: State, F: System<V>>(
    f: F,
    h: V::Time,
    g: V::Time,
    times: Seq<V::Time>,
    states: Seq<V>,
)
    requires
        is_trajectory(f, h, times, states),
        no_diffusion::<V, F>(f),
        zero_is_neutral::<V>(),
        forall|x: V::Time, y: V| #[trigger] euler_state(y, f.drift(x, y), h) == y.spec_scale(g),
    ensures
        forall|i: int|
            0 <= i < states.len() ==> #[trigger] states[i] == scaled_times(states[0], g, i as nat),
    decreases states.len(),
{
    lemma_no_diffusion_is_explicit_euler(f, h, times, states);
    if states.len() > 1 {
        let n = states.len() - 1;
        assert(is_trajectory(f, h, times.take(n), states.take(n)));
        lemma_no_diffusion_linear_drift_is_geometric(f, h, g, times.take(n), states.take(n));
        assert(states.take(n)[0] == states[0]);
        assert forall|i: int| 0 <= i < states.len() implies #[trigger] states[i] == scaled_times(
            states[0],
            g,
            i as nat,
        ) by {
            if i < n {
                assert(states.take(n)[i] == states[i]);
            } else {
                assert(states.take(n)[n - 1] == states[n - 1]);
                assert(states[n] == euler_state(
                    states[n - 1],
                    f.drift(times[n], states[n - 1]),
                    h,
                ));
            }
        }
    }
}

/// After a first run both counters equal the number of steps taken.
pub proof fn lemma_first_run_counts<V: State, F: System<V>>(
    f: F,
    x: V::Time,
    y: V,
    x_end: V::Time,
    step_size: V::Time,
    post: Run<V, F>,
)
    requires
        Run::fresh(f, x, y, x_end, step_size).runs_to(post),
    ensures
        post.stats.accepted_steps == step_count(x, x_end, step_size),
        post.stats.function_evaluations == step_count(x, x_end, step_size),
{
}

/// A first run of no steps records the start alone and counts nothing.
pub proof fn lemma_run_of_no_steps<V: State, F: System<V>>(
    f: F,
    x: V::Time,
    y: V,
    x_end: V::Time,
    step_size: V::Time,
    post: Run<V, F>,
)
    requires
        Run::fresh(f, x, y, x_end, step_size).runs_to(post),
        step_count(x, x_end, step_size) == 0,
    ensures
        post.times == seq![x],
        post.states == seq![y],
        post.x == x,
        post.y == y,
        post.stats == (Stats { function_evaluations: 0, accepted_steps: 0 }),
{
    assert(post.times =~= seq![x]);
    assert(post.states =~= seq![y]);
}

} // verus!
