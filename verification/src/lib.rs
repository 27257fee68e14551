//! A discrete-time PID (proportional-integral-derivative) control-loop
//! component, generic over the quantity types that flow through it, so that
//! dimensioned values (meters, joules, seconds) keep their units and a
//! unit-mismatched configuration is rejected at compile time.

mod algebra;
mod controller;
mod laws;
mod rational;
mod units;

pub use laws::{
    lemma_monotonic_integral_accumulation, lemma_pure_proportional_stability,
    lemma_zero_history_derivative, ScalarController,
};

pub use algebra::{DivBy, Minus, Plus, Times};
pub use controller::{Controller, PidController};
pub use rational::{in_i64, in_i64_sym, rat_eq, rat_lt, rat_wf, Rat};
pub use units::{
    Joules, JoulesPerMeter, JoulesPerMeterSecond, JoulesSecondPerMeter, MeterSeconds, Meters,
    MetersPerSecond, Seconds,
};
