use vstd::prelude::*;

verus! {

/// Addition within one quantity type (control outputs, accumulated integrals).
///
/// `plus_ok` says when the machine representation can carry the sum;
/// `plus_spec` gives the exact value that `plus` returns.
pub trait Plus: Sized {
    spec fn plus_ok(self, rhs: Self) -> bool;

    spec fn plus_spec(self, rhs: Self) -> Self;

    fn plus(self, rhs: Self) -> (r: Self)
        requires
            self.plus_ok(rhs),
        ensures
            r == self.plus_spec(rhs),
    ;
}

/// Subtraction within one quantity type (error signals).
pub trait Minus: Sized {
    spec fn minus_ok(self, rhs: Self) -> bool;

    spec fn minus_spec(self, rhs: Self) -> Self;

    fn minus(self, rhs: Self) -> (r: Self)
        requires
            self.minus_ok(rhs),
        ensures
            r == self.minus_spec(rhs),
    ;
}

/// Multiplication of one quantity type by another, yielding a third
/// (an error by a time step, a gain by the quantity it scales).
pub trait Times<Rhs>: Sized {
    type Output;

    spec fn times_ok(self, rhs: Rhs) -> bool;

    spec fn times_spec(self, rhs: Rhs) -> Self::Output;

    fn times(self, rhs: Rhs) -> (r: Self::Output)
        requires
            self.times_ok(rhs),
        ensures
            r == self.times_spec(rhs),
    ;
}

/// Division of one quantity type by another, yielding a third
/// (an error difference by a time step).
///
/// `div_ok` also rules out a zero-valued divisor: no quotient exists for
/// it, so the caller must never pass one.
pub trait DivBy<Rhs>: Sized {
    type Output;

    spec fn div_ok(self, rhs: Rhs) -> bool;

    spec fn div_spec(self, rhs: Rhs) -> Self::Output;

    fn div_by(self, rhs: Rhs) -> (r: Self::Output)
        requires
            self.div_ok(rhs),
        ensures
            r == self.div_spec(rhs),
    ;
}

} // verus!
