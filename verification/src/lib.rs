//! Fixed-step Euler-Maruyama integration of stochastic differential equations
//! `dy = a(x, y) dx + b(x, y) dW`.
//!
//! The stepper of [`sde_em`] drives a user's model ([`sde_shared::System`]) over a
//! grid of equal steps and records the trajectory. It is written once for every
//! number type: the numbers of the independent variable and the state vectors
//! come in through the two traits of [`numeric`], and every contract is stated
//! over the operations that those traits name. [`trajectory`] holds the
//! mathematical model of a run and what follows from it.
pub mod dop_shared;
pub mod numeric;
pub mod sde_em;
pub mod sde_shared;
pub mod trajectory;
