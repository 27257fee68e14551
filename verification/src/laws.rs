use vstd::prelude::*;

use crate::algebra::{DivBy, Minus, Plus, Times};
use crate::controller::{Controller, PidController};
use crate::rational::{rat_eq, rat_lt, rat_wf, Rat};

verus! {

/// A controller whose every quantity is a bare rational scalar.
pub type ScalarController = Controller<Rat, Rat, Rat>;

/// A product of a zero-numerator gain has numerator zero.
proof fn lemma_times_zero_num(k: Rat, x: Rat)
    requires
        k.num == 0,
        k.times_ok(x),
    ensures
        k.times_spec(x).num == 0,
        k.times_spec(x).den == k.den * x.den,
{
    assert(k.num * x.num == 0) by (nonlinear_arith)
        requires
            k.num == 0,
    ;
}

/// Adding a zero-valued rational only rescales numerator and denominator.
proof fn lemma_plus_zero_num(x: Rat, z: Rat)
    requires
        z.num == 0,
        x.plus_ok(z),
    ensures
        x.plus_spec(z).num == x.num * z.den,
        x.plus_spec(z).den == x.den * z.den,
{
    assert(z.num * x.den == 0) by (nonlinear_arith)
        requires
            z.num == 0,
    ;
}

/// Rescaling numerator and denominator of both sides preserves the cross
/// products' equality, whatever the scales.
proof fn lemma_cross_eq_scaled(a: int, b: int, p: int, q: int, r: int, s: int)
    by (nonlinear_arith)
    ensures
        ((a * p) * q) * ((b * r) * s) == ((a * r) * s) * ((b * p) * q),
{
}

/// Adding a strictly positive step to a well-formed rational strictly
/// increases it, in cross-product form.
proof fn lemma_step_increases(an: int, ad: int, sn: int, sd: int)
    by (nonlinear_arith)
    requires
        ad > 0,
        sd > 0,
        sn > 0,
    ensures
        an * (ad * sd) < (an * sd + sn * ad) * ad,
{
}

/// Multiplying both sides by one strictly positive rational preserves a
/// strict cross-product inequality.
proof fn lemma_scale_lt(x1: int, y1: int, x2: int, y2: int, kn: int, kd: int)
    by (nonlinear_arith)
    requires
        x1 * y2 < x2 * y1,
        kn > 0,
        kd > 0,
    ensures
        (kn * x1) * (kd * y2) < (kn * x2) * (kd * y1),
{
}

/// Adding one common rational to both sides preserves a strict
/// cross-product inequality, when the denominators are positive.
proof fn lemma_add_common_lt(a: int, b: int, u1: int, v1: int, u2: int, v2: int)
    by (nonlinear_arith)
    requires
        u1 * v2 < u2 * v1,
        b > 0,
        v1 > 0,
        v2 > 0,
    ensures
        (a * v1 + u1 * b) * (b * v2) < (a * v2 + u2 * b) * (b * v1),
{
}

/// Rescaling numerator and denominator of both sides by positive scales
/// preserves a strict cross-product inequality.
proof fn lemma_scale_pos_lt(x1: int, y1: int, x2: int, y2: int, c1: int, c2: int)
    by (nonlinear_arith)
    requires
        x1 * y2 < x2 * y1,
        c1 > 0,
        c2 > 0,
    ensures
        (x1 * c1) * (y2 * c2) < (x2 * c2) * (y1 * c1),
{
}

/// Pure-proportional stability: with zero-valued integral and derivative
/// gains, two successive updates with the same `(error, elapsed)` pair
/// produce outputs of equal value — the hidden accumulator state cannot
/// drift into the output.
pub proof fn lemma_pure_proportional_stability(
    pre: ScalarController,
    error: Rat,
    elapsed: Rat,
    mid: ScalarController,
    post: ScalarController,
)
    requires
        pre.spec_k_i().spec_is_zero(),
        pre.spec_k_d().spec_is_zero(),
        pre.update_ok(error, elapsed),
        <ScalarController as PidController<Rat, Rat, Rat>>::updated(pre, error, elapsed, mid),
        mid.update_ok(error, elapsed),
        <ScalarController as PidController<Rat, Rat, Rat>>::updated(mid, error, elapsed, post),
    ensures
        rat_eq(mid.spec_output(), post.spec_output()),
{
    let kp = pre.spec_k_p();
    let ki = pre.spec_k_i();
    let kd = pre.spec_k_d();
    let p = kp.times_spec(error);
    let step = error.times_spec(elapsed);

    let acc1 = pre.spec_accumulated_error().plus_spec(step);
    let delta1 = error.minus_spec(pre.spec_previous_error()).div_spec(elapsed);
    let i1 = ki.times_spec(acc1);
    let d1 = kd.times_spec(delta1);
    lemma_times_zero_num(ki, acc1);
    lemma_times_zero_num(kd, delta1);
    let sum1 = p.plus_spec(i1);
    lemma_plus_zero_num(p, i1);
    let out1 = sum1.plus_spec(d1);
    lemma_plus_zero_num(sum1, d1);
    assert(mid.spec_output() == out1);

    let acc2 = mid.spec_accumulated_error().plus_spec(step);
    let delta2 = error.minus_spec(mid.spec_previous_error()).div_spec(elapsed);
    let i2 = ki.times_spec(acc2);
    let d2 = kd.times_spec(delta2);
    lemma_times_zero_num(ki, acc2);
    lemma_times_zero_num(kd, delta2);
    let sum2 = p.plus_spec(i2);
    lemma_plus_zero_num(p, i2);
    let out2 = sum2.plus_spec(d2);
    lemma_plus_zero_num(sum2, d2);
    assert(post.spec_output() == out2);

    lemma_cross_eq_scaled(
        p.num as int,
        p.den as int,
        i1.den as int,
        d1.den as int,
        i2.den as int,
        d2.den as int,
    );
    assert(out1.num * out2.den == out2.num * out1.den);
}

/// Monotonic integral accumulation: with a strictly positive integral gain,
/// a zero-valued derivative gain, and a constant strictly positive error,
/// two successive updates with the same strictly positive `elapsed` give a
/// strictly increasing output — each step adds the strictly positive
/// increment `error * elapsed` to the accumulator, and the integral term
/// carries that increase into the output.
pub proof fn lemma_monotonic_integral_accumulation(
    pre: ScalarController,
    error: Rat,
    elapsed: Rat,
    mid: ScalarController,
    post: ScalarController,
)
    requires
        pre.spec_k_i().num > 0,
        rat_wf(pre.spec_k_i()),
        pre.spec_k_d().spec_is_zero(),
        rat_wf(pre.spec_k_d()),
        rat_wf(pre.spec_k_p()),
        rat_wf(pre.spec_previous_error()),
        rat_wf(pre.spec_accumulated_error()),
        error.num > 0,
        rat_wf(error),
        elapsed.num > 0,
        rat_wf(elapsed),
        pre.update_ok(error, elapsed),
        <ScalarController as PidController<Rat, Rat, Rat>>::updated(pre, error, elapsed, mid),
        mid.update_ok(error, elapsed),
        <ScalarController as PidController<Rat, Rat, Rat>>::updated(mid, error, elapsed, post),
    ensures
        rat_lt(mid.spec_output(), post.spec_output()),
{
    let kp = pre.spec_k_p();
    let ki = pre.spec_k_i();
    let kd = pre.spec_k_d();
    let p = kp.times_spec(error);
    let step = error.times_spec(elapsed);
    assert(step.num == error.num * elapsed.num);
    assert(step.den == error.den * elapsed.den);
    assert(step.num > 0 && step.den > 0) by (nonlinear_arith)
        requires
            step.num == error.num * elapsed.num,
            step.den == error.den * elapsed.den,
            error.num > 0,
            elapsed.num > 0,
            error.den > 0,
            elapsed.den > 0,
    ;
    assert(p.den == kp.den * error.den);
    assert(p.den > 0) by (nonlinear_arith)
        requires
            p.den == kp.den * error.den,
            kp.den > 0,
            error.den > 0,
    ;

    let acc0 = pre.spec_accumulated_error();
    let acc1 = acc0.plus_spec(step);
    assert(acc1.num == acc0.num * step.den + step.num * acc0.den);
    assert(acc1.den == acc0.den * step.den);
    assert(acc1.den > 0) by (nonlinear_arith)
        requires
            acc1.den == acc0.den * step.den,
            acc0.den > 0,
            step.den > 0,
    ;
    let acc2 = acc1.plus_spec(step);
    assert(acc2.num == acc1.num * step.den + step.num * acc1.den);
    assert(acc2.den == acc1.den * step.den);
    assert(acc2.den > 0) by (nonlinear_arith)
        requires
            acc2.den == acc1.den * step.den,
            acc1.den > 0,
            step.den > 0,
    ;

    // The accumulator strictly increases by one step.
    lemma_step_increases(acc1.num as int, acc1.den as int, step.num as int, step.den as int);
    assert(acc1.num * acc2.den < acc2.num * acc1.den);

    // The integral gain, strictly positive, carries the increase over.
    let i1 = ki.times_spec(acc1);
    let i2 = ki.times_spec(acc2);
    assert(i1.num == ki.num * acc1.num && i1.den == ki.den * acc1.den);
    assert(i2.num == ki.num * acc2.num && i2.den == ki.den * acc2.den);
    lemma_scale_lt(
        acc1.num as int,
        acc1.den as int,
        acc2.num as int,
        acc2.den as int,
        ki.num as int,
        ki.den as int,
    );
    assert(i1.num * i2.den < i2.num * i1.den);
    assert(i1.den > 0) by (nonlinear_arith)
        requires
            i1.den == ki.den * acc1.den,
            ki.den > 0,
            acc1.den > 0,
    ;
    assert(i2.den > 0) by (nonlinear_arith)
        requires
            i2.den == ki.den * acc2.den,
            ki.den > 0,
            acc2.den > 0,
    ;

    // The proportional term is the same in both sums.
    let sum1 = p.plus_spec(i1);
    let sum2 = p.plus_spec(i2);
    assert(sum1.num == p.num * i1.den + i1.num * p.den);
    assert(sum1.den == p.den * i1.den);
    assert(sum2.num == p.num * i2.den + i2.num * p.den);
    assert(sum2.den == p.den * i2.den);
    lemma_add_common_lt(
        p.num as int,
        p.den as int,
        i1.num as int,
        i1.den as int,
        i2.num as int,
        i2.den as int,
    );
    assert(sum1.num * sum2.den < sum2.num * sum1.den);

    // The derivative terms have numerator zero and positive denominators.
    let diff1 = error.minus_spec(pre.spec_previous_error());
    let delta1 = diff1.div_spec(elapsed);
    assert(diff1.den == error.den * pre.spec_previous_error().den);
    assert(diff1.den > 0) by (nonlinear_arith)
        requires
            diff1.den == error.den * pre.spec_previous_error().den,
            error.den > 0,
            pre.spec_previous_error().den > 0,
    ;
    assert(delta1.den == diff1.den * elapsed.num);
    assert(delta1.den > 0) by (nonlinear_arith)
        requires
            delta1.den == diff1.den * elapsed.num,
            diff1.den > 0,
            elapsed.num > 0,
    ;
    let diff2 = error.minus_spec(mid.spec_previous_error());
    let delta2 = diff2.div_spec(elapsed);
    assert(diff2.den == error.den * error.den);
    assert(diff2.den > 0) by (nonlinear_arith)
        requires
            diff2.den == error.den * error.den,
            error.den > 0,
    ;
    assert(delta2.den == diff2.den * elapsed.num);
    assert(delta2.den > 0) by (nonlinear_arith)
        requires
            delta2.den == diff2.den * elapsed.num,
            diff2.den > 0,
            elapsed.num > 0,
    ;
    let d1 = kd.times_spec(delta1);
    let d2 = kd.times_spec(delta2);
    lemma_times_zero_num(kd, delta1);
    lemma_times_zero_num(kd, delta2);
    assert(d1.den > 0) by (nonlinear_arith)
        requires
            d1.den == kd.den * delta1.den,
            kd.den > 0,
            delta1.den > 0,
    ;
    assert(d2.den > 0) by (nonlinear_arith)
        requires
            d2.den == kd.den * delta2.den,
            kd.den > 0,
            delta2.den > 0,
    ;

    // Appending the zero-valued derivative terms keeps the strict order.
    let out1 = sum1.plus_spec(d1);
    let out2 = sum2.plus_spec(d2);
    lemma_plus_zero_num(sum1, d1);
    lemma_plus_zero_num(sum2, d2);
    lemma_scale_pos_lt(
        sum1.num as int,
        sum1.den as int,
        sum2.num as int,
        sum2.den as int,
        d1.den as int,
        d2.den as int,
    );
    assert(mid.spec_output() == out1);
    assert(post.spec_output() == out2);
    assert(out1.num * out2.den < out2.num * out1.den);
}

/// Zero-history derivative: on the very first update after construction,
/// the backward difference is taken against the constructor's seed error,
/// so the derivative term of the new output is exactly
/// `k_d * ((error - initial_error) / elapsed)`.
pub proof fn lemma_zero_history_derivative<Measure, Control, Time, Integral, Derivative, P, I, D>(
    pre: Controller<Measure, Control, Time, Integral, Derivative, P, I, D>,
    initial_error: Measure,
    error: Measure,
    elapsed: Time,
    post: Controller<Measure, Control, Time, Integral, Derivative, P, I, D>,
) where
    Measure: Minus + Times<Time, Output = Integral> + DivBy<Time, Output = Derivative> + Copy,
    Time: Copy,
    Control: Plus + Copy,
    Integral: Plus + Copy,
    P: Times<Measure, Output = Control> + Copy,
    I: Times<Integral, Output = Control> + Copy,
    D: Times<Derivative, Output = Control> + Copy,

    requires
        pre.spec_previous_error() == initial_error,
        <Controller<Measure, Control, Time, Integral, Derivative, P, I, D> as PidController<
            Measure,
            Control,
            Time,
        >>::updated(pre, error, elapsed, post),
    ensures
        post.spec_output() == pre.spec_k_p().times_spec(error).plus_spec(
            pre.spec_k_i().times_spec(
                pre.spec_accumulated_error().plus_spec(error.times_spec(elapsed)),
            ),
        ).plus_spec(
            pre.spec_k_d().times_spec(error.minus_spec(initial_error).div_spec(elapsed)),
        ),
{
}

} // verus!
