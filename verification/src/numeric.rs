//! The arithmetic that the stepper needs, as two traits.
//!
//! Each executable operation has a `spec_` twin that names its result. The
//! contracts say no more than that: an operation is a function of its
//! arguments. How the numbers round, overflow or saturate is the
//! implementor's affair, and nothing in this crate depends on it.
//!
//! An implementation written outside Verus gives each `spec_` twin as an
//! ordinary function with the body of the operation that it names; nothing
//! calls it.
use vstd::prelude::*;

verus! {

/// A number of the independent variable: a time, the end of the span, the step size.
pub trait Scalar: Copy {
    /// `self + rhs`.
    spec fn spec_plus(self, rhs: Self) -> Self;

    /// `self - rhs`.
    spec fn spec_minus(self, rhs: Self) -> Self;

    /// `self / rhs`.
    spec fn spec_over(self, rhs: Self) -> Self;

    /// The square root of `self`.
    spec fn spec_sqrt(self) -> Self;

    /// The least whole number that is not below `self`.
    spec fn spec_ceil(self) -> Self;

    /// `self` as a count of steps.
    spec fn spec_to_count(self) -> usize;

    fn plus(self, rhs: Self) -> (r: Self)
        ensures
            r == self.spec_plus(rhs),
    ;

    fn minus(self, rhs: Self) -> (r: Self)
        ensures
            r == self.spec_minus(rhs),
    ;

    fn over(self, rhs: Self) -> (r: Self)
        ensures
            r == self.spec_over(rhs),
    ;

    fn sqrt(self) -> (r: Self)
        ensures
            r == self.spec_sqrt(),
    ;

    fn ceil(self) -> (r: Self)
        ensures
            r == self.spec_ceil(),
    ;

    /// Converts to a count. An implementor maps what is not positive to zero
    /// and what is too large to the largest count, so that the call never fails.
    fn to_count(self) -> (n: usize)
        ensures
            n == self.spec_to_count(),
    ;
}

/// A state vector of fixed dimension over the numbers [`State::Time`].
pub trait State: Copy {
    /// The numbers that scale a state: those of the independent variable.
    type Time: Scalar;

    /// The zero vector of the dimension of `self`.
    spec fn spec_zeros(self) -> Self;

    /// `self * s`, component by component.
    spec fn spec_scale(self, s: Self::Time) -> Self;

    /// `self + rhs`, component by component.
    spec fn spec_plus(self, rhs: Self) -> Self;

    fn zeros(&self) -> (r: Self)
        ensures
            r == self.spec_zeros(),
    ;

    fn scale(self, s: Self::Time) -> (r: Self)
        ensures
            r == self.spec_scale(s),
    ;

    fn plus(self, rhs: Self) -> (r: Self)
        ensures
            r == self.spec_plus(rhs),
    ;
}

} // verus!
