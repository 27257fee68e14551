use pid_control::{
    Controller, DivBy, Joules, JoulesPerMeter, JoulesPerMeterSecond, JoulesSecondPerMeter,
    MeterSeconds, Meters, MetersPerSecond, PidController, Rat, Seconds,
};

#[test]
fn with_units() {
    let mut controller: Controller<Meters, Joules, Seconds> = Controller::new(
        Joules { value: Rat::from_int(1) }.div_by(Meters { value: Rat::from_int(1) }),
        Joules { value: Rat::new(1, 5) }.div_by(MeterSeconds { value: Rat::from_int(1) }),
        Joules { value: Rat::new(1, 2) }.div_by(MetersPerSecond { value: Rat::from_int(1) }),
        Joules { value: Rat::from_int(0) },
        Meters { value: Rat::from_int(0) },
        MeterSeconds { value: Rat::from_int(0) },
    );

    controller.update(
        Meters { value: Rat::from_int(1) },
        Seconds { value: Rat::from_int(1) },
    );
}

#[test]
fn dimensioned_proportional_output() {
    let mut controller: Controller<Meters, Joules, Seconds> = Controller::new(
        JoulesPerMeter { value: Rat::from_int(2) },
        JoulesPerMeterSecond { value: Rat::from_int(0) },
        JoulesSecondPerMeter { value: Rat::from_int(0) },
        Joules { value: Rat::from_int(0) },
        Meters { value: Rat::from_int(0) },
        MeterSeconds { value: Rat::from_int(0) },
    );

    controller.update(
        Meters { value: Rat::from_int(3) },
        Seconds { value: Rat::from_int(1) },
    );
    assert_eq!(controller.output().value, Rat::from_int(6));
}

#[test]
fn dimensioned_full_update() {
    let mut controller: Controller<Meters, Joules, Seconds> = Controller::new(
        JoulesPerMeter { value: Rat::from_int(1) },
        JoulesPerMeterSecond { value: Rat::new(1, 5) },
        JoulesSecondPerMeter { value: Rat::new(1, 2) },
        Joules { value: Rat::from_int(0) },
        Meters { value: Rat::from_int(0) },
        MeterSeconds { value: Rat::from_int(0) },
    );

    controller.update(
        Meters { value: Rat::from_int(1) },
        Seconds { value: Rat::from_int(1) },
    );
    // 1*1 + (1/5)*1 + (1/2)*1 = 17/10 joules.
    assert_eq!(controller.output().value, Rat::new(17, 10));
}
