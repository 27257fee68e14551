use vstd::prelude::*;

use core::marker::PhantomData;

use crate::algebra::{DivBy, Minus, Plus, Times};

verus! {

/// A discrete-time PID controller over three quantity types:
///
/// - `Measure`: the error/measurement signal,
/// - `Control`: the output signal,
/// - `Time`: the elapsed-time step.
///
/// `update` advances the loop by one step; `output` reads the last result.
///
/// `update_ok` is the caller's obligation for one step: the step's divisor is
/// admissible (a zero-valued `elapsed` never is) and every intermediate
/// quantity fits its machine representation. `updated` relates the state
/// after a step to the state before it, exactly.
pub trait PidController<Measure, Control, Time>: Sized {
    spec fn update_ok(&self, error: Measure, elapsed: Time) -> bool;

    spec fn updated(pre: Self, error: Measure, elapsed: Time, post: Self) -> bool;

    spec fn controller_output(&self) -> Control;

    fn update(&mut self, error: Measure, elapsed: Time)
        requires
            old(self).update_ok(error, elapsed),
        ensures
            Self::updated(*old(self), error, elapsed, *final(self)),
    ;

    fn output(&self) -> (r: Control)
        ensures
            r == self.controller_output(),
    ;
}

/// The controller's state: three gains fixed at construction, the last
/// computed output, the error seen by the most recent update, and the
/// running integral of error over time.
///
/// The derived quantity types are:
///
/// - `Integral`: `Measure` times `Time`,
/// - `Derivative`: `Measure` divided by `Time`,
/// - `P`: the proportional gain, `Control` per `Measure`,
/// - `I`: the integral gain, `Control` per `Integral`,
/// - `D`: the derivative gain, `Control` per `Derivative`.
pub struct Controller<
    Measure,
    Control,
    Time,
    Integral = <Measure as Times<Time>>::Output,
    Derivative = <Measure as DivBy<Time>>::Output,
    P = <Control as DivBy<Measure>>::Output,
    I = <Control as DivBy<Integral>>::Output,
    D = <Control as DivBy<Derivative>>::Output,
> {
    k_p: P,
    k_i: I,
    k_d: D,
    output: Control,
    previous_error: Measure,
    accumulated_error: Integral,
    phantom_time: PhantomData<Time>,
    phantom_derivative: PhantomData<Derivative>,
}

impl<Measure, Control, Time, Integral, Derivative, P, I, D> Controller<
    Measure,
    Control,
    Time,
    Integral,
    Derivative,
    P,
    I,
    D,
> {
    /// The proportional gain, as set at construction.
    pub closed spec fn spec_k_p(&self) -> P {
        self.k_p
    }

    /// The integral gain, as set at construction.
    pub closed spec fn spec_k_i(&self) -> I {
        self.k_i
    }

    /// The derivative gain, as set at construction.
    pub closed spec fn spec_k_d(&self) -> D {
        self.k_d
    }

    /// The last computed control output (or the constructor seed).
    pub closed spec fn spec_output(&self) -> Control {
        self.output
    }

    /// The error of the most recent update (or the constructor seed).
    pub closed spec fn spec_previous_error(&self) -> Measure {
        self.previous_error
    }

    /// The running integral of error over time (or the constructor seed).
    pub closed spec fn spec_accumulated_error(&self) -> Integral {
        self.accumulated_error
    }

    /// A pure value constructor: any gains and seeds are accepted, and each
    /// lands in the field it names. Degenerate gains of zero simply disable
    /// their term.
    pub fn new(
        k_p: P,
        k_i: I,
        k_d: D,
        initial_output: Control,
        initial_error: Measure,
        initial_accumulated_error: Integral,
    ) -> (r: Controller<Measure, Control, Time, Integral, Derivative, P, I, D>)
        ensures
            r.spec_k_p() == k_p,
            r.spec_k_i() == k_i,
            r.spec_k_d() == k_d,
            r.spec_output() == initial_output,
            r.spec_previous_error() == initial_error,
            r.spec_accumulated_error() == initial_accumulated_error,
    {
        Controller {
            k_p,
            k_i,
            k_d,
            output: initial_output,
            previous_error: initial_error,
            accumulated_error: initial_accumulated_error,
            phantom_time: PhantomData,
            phantom_derivative: PhantomData,
        }
    }
}

impl<Measure, Control, Time, Integral, Derivative, P, I, D> PidController<
    Measure,
    Control,
    Time,
> for Controller<Measure, Control, Time, Integral, Derivative, P, I, D> where
    Measure: Minus + Times<Time, Output = Integral> + DivBy<Time, Output = Derivative> + Copy,
    Time: Copy,
    Control: Plus + Copy,
    Integral: Plus + Copy,
    P: Times<Measure, Output = Control> + Copy,
    I: Times<Integral, Output = Control> + Copy,
    D: Times<Derivative, Output = Control> + Copy,
 {
    /// One step is admissible when each arithmetic operation along the
    /// four-step sequence is: the step integral, the new accumulator, the
    /// backward difference, its quotient by `elapsed` (which rules out a
    /// zero-valued `elapsed`), the three gain terms, and their sum.
    open spec fn update_ok(&self, error: Measure, elapsed: Time) -> bool {
        let step = error.times_spec(elapsed);
        let acc = self.spec_accumulated_error().plus_spec(step);
        let diff = error.minus_spec(self.spec_previous_error());
        let delta = diff.div_spec(elapsed);
        let term_p = self.spec_k_p().times_spec(error);
        let term_i = self.spec_k_i().times_spec(acc);
        let term_d = self.spec_k_d().times_spec(delta);
        &&& error.times_ok(elapsed)
        &&& self.spec_accumulated_error().plus_ok(step)
        &&& error.minus_ok(self.spec_previous_error())
        &&& diff.div_ok(elapsed)
        &&& self.spec_k_p().times_ok(error)
        &&& self.spec_k_i().times_ok(acc)
        &&& self.spec_k_d().times_ok(delta)
        &&& term_p.plus_ok(term_i)
        &&& term_p.plus_spec(term_i).plus_ok(term_d)
    }

    /// Exactly the four-step update: the accumulator grows by
    /// `error * elapsed`; the output becomes
    /// `k_p * error + k_i * accumulated_error + k_d * error_delta`, where
    /// `error_delta` is `(error - previous_error) / elapsed`; the error is
    /// stored; and the gains are untouched.
    open spec fn updated(pre: Self, error: Measure, elapsed: Time, post: Self) -> bool {
        let acc = pre.spec_accumulated_error().plus_spec(error.times_spec(elapsed));
        let delta = error.minus_spec(pre.spec_previous_error()).div_spec(elapsed);
        &&& post.spec_k_p() == pre.spec_k_p()
        &&& post.spec_k_i() == pre.spec_k_i()
        &&& post.spec_k_d() == pre.spec_k_d()
        &&& post.spec_accumulated_error() == acc
        &&& post.spec_previous_error() == error
        &&& post.spec_output() == pre.spec_k_p().times_spec(error).plus_spec(
            pre.spec_k_i().times_spec(acc),
        ).plus_spec(pre.spec_k_d().times_spec(delta))
    }

    open spec fn controller_output(&self) -> Control {
        self.spec_output()
    }

    fn update(&mut self, error: Measure, elapsed: Time) {
        let acc = self.accumulated_error.plus(error.times(elapsed));
        self.accumulated_error = acc;
        let error_delta = error.minus(self.previous_error).div_by(elapsed);
        self.output = self.k_p.times(error).plus(self.k_i.times(acc)).plus(
            self.k_d.times(error_delta),
        );
        self.previous_error = error;
    }

    fn output(&self) -> (r: Control) {
        self.output
    }
}

} // verus!
