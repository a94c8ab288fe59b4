//! What every integrator of this family reports: counters and the error.
use vstd::prelude::*;

verus! {

/// Counters of the work done by a stepper since it was made.
#[derive(Clone, Copy, Debug, PartialEq, Eq, Structural)]
pub struct Stats {
    pub function_evaluations: usize,
    pub accepted_steps: usize,
}

impl Stats {
    /// Both counters at zero.
    pub fn new() -> (stats: Stats)
        ensures
            stats == (Stats { function_evaluations: 0, accepted_steps: 0 }),
    {
        Stats { function_evaluations: 0, accepted_steps: 0 }
    }
}

/// The one way an integration can end without a result.
#[derive(Clone, Copy, Debug, PartialEq, Eq, Structural)]
pub enum IntegrationError {
    Failure,
}

} // verus!
