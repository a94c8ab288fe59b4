//! What a model of a stochastic differential equation has to provide.
use vstd::prelude::*;
use crate::numeric::State;

verus! {

/// A model `dy = drift dx + diffusion dW` over states `V`.
///
/// The drift is a function of time and state, named by [`System::drift`]. The
/// diffusion may be sampled: [`System::diffusion`] says which values a call may
/// write at a given time and state, and a model that promises nothing lets it
/// hold of every value.
///
/// The hook [`System::solout`] may stop a run and may change the model. What a
/// model may do there it says in [`System::stops`] and [`System::alters`]; one
/// that says nothing never stops and is never changed.
pub trait System<V: State>: Sized {
    /// The deterministic rate of change at time `x` and state `y`.
    spec fn drift(&self, x: V::Time, y: V) -> V;

    /// Whether `l` is a diffusion that the model may give at time `x` and state `y`.
    spec fn diffusion(&self, x: V::Time, y: V, l: V) -> bool;

    /// Writes the drift at `(x, y)` to `dy`, which comes in as zero.
    fn deterministic(&self, x: V::Time, y: &V, dy: &mut V)
        requires
            *old(dy) == y.spec_zeros(),
        ensures
            *final(dy) == self.drift(x, *y),
    ;

    /// Writes a diffusion at `(x, y)` to `dy`, which comes in as zero.
    fn stochastic(&self, x: V::Time, y: &V, dy: &mut V)
        requires
            *old(dy) == y.spec_zeros(),
        ensures
            self.diffusion(x, *y, *final(dy)),
    ;

    /// Whether the model, as it is before it observes the step to `(x, y)` with
    /// drift `dy`, may ask to stop there. A model that does not say otherwise
    /// never may.
    open spec fn stops(&self, x: V::Time, y: V, dy: V) -> bool {
        false
    }

    /// Whether the model, as it is before it observes the step to `(x, y)` with
    /// drift `dy`, may be changed by observing it. A model that does not say
    /// otherwise never is.
    open spec fn alters(&self, x: V::Time, y: V, dy: V) -> bool {
        false
    }

    /// Observes a step; `true` asks the caller to stop. It is returned only
    /// where the model may stop, and the model is changed only where it may be
    /// altered. By default the hook returns `false` and leaves the model as it
    /// is.
    ///
    /// Both clauses run one way. Where a model's own `stops` holds the result
    /// is left open, and where its own `alters` holds the model after the call
    /// is left open, also for a model that keeps this default hook.
    fn solout(&mut self, x: V::Time, y: &V, dy: &V) -> (stop: bool)
        ensures
            stop ==> old(self).stops(x, *y, *dy),
            !old(self).alters(x, *y, *dy) ==> *final(self) == *old(self),
    {
        false
    }
}

} // verus!
