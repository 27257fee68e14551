use vstd::prelude::*;

use crate::algebra::{DivBy, Minus, Plus, Times};
use crate::rational::Rat;

verus! {

/// A length, in meters: a measurement signal.
#[derive(Clone, Copy, Debug)]
pub struct Meters {
    pub value: Rat,
}

/// An energy, in joules: a control output.
#[derive(Clone, Copy, Debug)]
pub struct Joules {
    pub value: Rat,
}

/// A duration, in seconds: an elapsed-time step.
#[derive(Clone, Copy, Debug)]
pub struct Seconds {
    pub value: Rat,
}

/// Meters times seconds: the integral of a length over time.
#[derive(Clone, Copy, Debug)]
pub struct MeterSeconds {
    pub value: Rat,
}

/// Meters per second: the rate of change of a length.
#[derive(Clone, Copy, Debug)]
pub struct MetersPerSecond {
    pub value: Rat,
}

/// Joules per meter: a proportional gain for this unit family.
#[derive(Clone, Copy, Debug)]
pub struct JoulesPerMeter {
    pub value: Rat,
}

/// Joules per meter-second: an integral gain for this unit family.
#[derive(Clone, Copy, Debug)]
pub struct JoulesPerMeterSecond {
    pub value: Rat,
}

/// Joule-seconds per meter: a derivative gain for this unit family.
#[derive(Clone, Copy, Debug)]
pub struct JoulesSecondPerMeter {
    pub value: Rat,
}

impl Minus for Meters {
    open spec fn minus_ok(self, rhs: Meters) -> bool {
        self.value.minus_ok(rhs.value)
    }

    open spec fn minus_spec(self, rhs: Meters) -> Meters {
        Meters { value: self.value.minus_spec(rhs.value) }
    }

    fn minus(self, rhs: Meters) -> (r: Meters) {
        Meters { value: self.value.minus(rhs.value) }
    }
}

impl Times<Seconds> for Meters {
    type Output = MeterSeconds;

    open spec fn times_ok(self, rhs: Seconds) -> bool {
        self.value.times_ok(rhs.value)
    }

    open spec fn times_spec(self, rhs: Seconds) -> MeterSeconds {
        MeterSeconds { value: self.value.times_spec(rhs.value) }
    }

    fn times(self, rhs: Seconds) -> (r: MeterSeconds) {
        MeterSeconds { value: self.value.times(rhs.value) }
    }
}

impl DivBy<Seconds> for Meters {
    type Output = MetersPerSecond;

    open spec fn div_ok(self, rhs: Seconds) -> bool {
        self.value.div_ok(rhs.value)
    }

    open spec fn div_spec(self, rhs: Seconds) -> MetersPerSecond {
        MetersPerSecond { value: self.value.div_spec(rhs.value) }
    }

    fn div_by(self, rhs: Seconds) -> (r: MetersPerSecond) {
        MetersPerSecond { value: self.value.div_by(rhs.value) }
    }
}

impl Plus for Joules {
    open spec fn plus_ok(self, rhs: Joules) -> bool {
        self.value.plus_ok(rhs.value)
    }

    open spec fn plus_spec(self, rhs: Joules) -> Joules {
        Joules { value: self.value.plus_spec(rhs.value) }
    }

    fn plus(self, rhs: Joules) -> (r: Joules) {
        Joules { value: self.value.plus(rhs.value) }
    }
}

impl Plus for MeterSeconds {
    open spec fn plus_ok(self, rhs: MeterSeconds) -> bool {
        self.value.plus_ok(rhs.value)
    }

    open spec fn plus_spec(self, rhs: MeterSeconds) -> MeterSeconds {
        MeterSeconds { value: self.value.plus_spec(rhs.value) }
    }

    fn plus(self, rhs: MeterSeconds) -> (r: MeterSeconds) {
        MeterSeconds { value: self.value.plus(rhs.value) }
    }
}

impl DivBy<Meters> for Joules {
    type Output = JoulesPerMeter;

    open spec fn div_ok(self, rhs: Meters) -> bool {
        self.value.div_ok(rhs.value)
    }

    open spec fn div_spec(self, rhs: Meters) -> JoulesPerMeter {
        JoulesPerMeter { value: self.value.div_spec(rhs.value) }
    }

    fn div_by(self, rhs: Meters) -> (r: JoulesPerMeter) {
        JoulesPerMeter { value: self.value.div_by(rhs.value) }
    }
}

impl DivBy<MeterSeconds> for Joules {
    type Output = JoulesPerMeterSecond;

    open spec fn div_ok(self, rhs: MeterSeconds) -> bool {
        self.value.div_ok(rhs.value)
    }

    open spec fn div_spec(self, rhs: MeterSeconds) -> JoulesPerMeterSecond {
        JoulesPerMeterSecond { value: self.value.div_spec(rhs.value) }
    }

    fn div_by(self, rhs: MeterSeconds) -> (r: JoulesPerMeterSecond) {
        JoulesPerMeterSecond { value: self.value.div_by(rhs.value) }
    }
}

impl DivBy<MetersPerSecond> for Joules {
    type Output = JoulesSecondPerMeter;

    open spec fn div_ok(self, rhs: MetersPerSecond) -> bool {
        self.value.div_ok(rhs.value)
    }

    open spec fn div_spec(self, rhs: MetersPerSecond) -> JoulesSecondPerMeter {
        JoulesSecondPerMeter { value: self.value.div_spec(rhs.value) }
    }

    fn div_by(self, rhs: MetersPerSecond) -> (r: JoulesSecondPerMeter) {
        JoulesSecondPerMeter { value: self.value.div_by(rhs.value) }
    }
}

impl Times<Meters> for JoulesPerMeter {
    type Output = Joules;

    open spec fn times_ok(self, rhs: Meters) -> bool {
        self.value.times_ok(rhs.value)
    }

    open spec fn times_spec(self, rhs: Meters) -> Joules {
        Joules { value: self.value.times_spec(rhs.value) }
    }

    fn times(self, rhs: Meters) -> (r: Joules) {
        Joules { value: self.value.times(rhs.value) }
    }
}

impl Times<MeterSeconds> for JoulesPerMeterSecond {
    type Output = Joules;

    open spec fn times_ok(self, rhs: MeterSeconds) -> bool {
        self.value.times_ok(rhs.value)
    }

    open spec fn times_spec(self, rhs: MeterSeconds) -> Joules {
        Joules { value: self.value.times_spec(rhs.value) }
    }

    fn times(self, rhs: MeterSeconds) -> (r: Joules) {
        Joules { value: self.value.times(rhs.value) }
    }
}

impl Times<MetersPerSecond> for JoulesSecondPerMeter {
    type Output = Joules;

    open spec fn times_ok(self, rhs: MetersPerSecond) -> bool {
        self.value.times_ok(rhs.value)
    }

    open spec fn times_spec(self, rhs: MetersPerSecond) -> Joules {
        Joules { value: self.value.times_spec(rhs.value) }
    }

    fn times(self, rhs: MetersPerSecond) -> (r: Joules) {
        Joules { value: self.value.times(rhs.value) }
    }
}

} // verus!
