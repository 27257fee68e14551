use pid_control::{Controller, PidController, Rat, ScalarController};

#[test]
fn no_integral_gain() {
    let mut controller: ScalarController = Controller::new(
        Rat::from_int(1),
        Rat::from_int(0),
        Rat::from_int(0),
        Rat::from_int(0),
        Rat::from_int(0),
        Rat::from_int(0),
    );

    controller.update(Rat::from_int(1), Rat::from_int(1));
    let output_a = controller.output();

    controller.update(Rat::from_int(1), Rat::from_int(1));
    let output_b = controller.output();

    assert_eq!(output_a, output_b);
}

#[test]
fn with_integral_gain() {
    let mut controller: ScalarController = Controller::new(
        Rat::from_int(1),
        Rat::new(1, 2),
        Rat::from_int(0),
        Rat::from_int(0),
        Rat::from_int(0),
        Rat::from_int(0),
    );

    controller.update(Rat::from_int(1), Rat::from_int(1));
    let output_a = controller.output();

    controller.update(Rat::from_int(1), Rat::from_int(1));
    let output_b = controller.output();

    assert!(output_a < output_b);
}

#[test]
fn scenario_pure_proportional() {
    let mut controller: ScalarController = Controller::new(
        Rat::from_int(1),
        Rat::from_int(0),
        Rat::from_int(0),
        Rat::from_int(0),
        Rat::from_int(0),
        Rat::from_int(0),
    );

    controller.update(Rat::from_int(1), Rat::from_int(1));
    assert_eq!(controller.output(), Rat::from_int(1));

    controller.update(Rat::from_int(1), Rat::from_int(1));
    assert_eq!(controller.output(), Rat::from_int(1));
}

#[test]
fn scenario_integral_accumulation() {
    let mut controller: ScalarController = Controller::new(
        Rat::from_int(1),
        Rat::new(1, 2),
        Rat::from_int(0),
        Rat::from_int(0),
        Rat::from_int(0),
        Rat::from_int(0),
    );

    controller.update(Rat::from_int(1), Rat::from_int(1));
    let output_a = controller.output();
    assert_eq!(output_a, Rat::new(3, 2));

    controller.update(Rat::from_int(1), Rat::from_int(1));
    let output_b = controller.output();
    assert_eq!(output_b, Rat::from_int(2));
    assert!(output_a < output_b);
}

#[test]
fn first_update_uses_seed_error() {
    let mut controller: ScalarController = Controller::new(
        Rat::from_int(0),
        Rat::from_int(0),
        Rat::from_int(1),
        Rat::from_int(0),
        Rat::from_int(2),
        Rat::from_int(0),
    );

    controller.update(Rat::from_int(5), Rat::from_int(1));
    assert_eq!(controller.output(), Rat::from_int(3));
}

#[test]
fn full_formula_single_step() {
    let mut controller: ScalarController = Controller::new(
        Rat::from_int(1),
        Rat::new(1, 2),
        Rat::new(1, 4),
        Rat::from_int(0),
        Rat::from_int(1),
        Rat::from_int(2),
    );

    controller.update(Rat::from_int(3), Rat::from_int(2));
    assert_eq!(controller.output(), Rat::new(29, 4));
}

#[test]
fn negative_elapsed_divides_correctly() {
    let mut controller: ScalarController = Controller::new(
        Rat::from_int(0),
        Rat::from_int(0),
        Rat::from_int(1),
        Rat::from_int(0),
        Rat::from_int(0),
        Rat::from_int(0),
    );

    controller.update(Rat::from_int(2), Rat::new(-1, 1));
    assert_eq!(controller.output(), Rat::new(-2, 1));
}

#[test]
fn negative_error_decreases_integral_output() {
    let mut controller: ScalarController = Controller::new(
        Rat::from_int(0),
        Rat::from_int(1),
        Rat::from_int(0),
        Rat::from_int(0),
        Rat::from_int(0),
        Rat::from_int(0),
    );

    controller.update(Rat::new(-1, 1), Rat::from_int(1));
    let output_a = controller.output();
    assert_eq!(output_a, Rat::new(-1, 1));

    controller.update(Rat::new(-1, 1), Rat::from_int(1));
    let output_b = controller.output();
    assert_eq!(output_b, Rat::new(-2, 1));
    assert!(output_b < output_a);
}

#[test]
fn constant_zero_error_keeps_output_zero() {
    let mut controller: ScalarController = Controller::new(
        Rat::from_int(1),
        Rat::from_int(1),
        Rat::from_int(1),
        Rat::from_int(0),
        Rat::from_int(0),
        Rat::from_int(0),
    );

    controller.update(Rat::from_int(0), Rat::from_int(1));
    assert_eq!(controller.output(), Rat::from_int(0));

    controller.update(Rat::from_int(0), Rat::from_int(1));
    assert_eq!(controller.output(), Rat::from_int(0));
}

#[test]
fn rational_equality_ignores_representation() {
    assert_eq!(Rat::new(1, 2), Rat::new(2, 4));
    assert_ne!(Rat::new(1, 2), Rat::new(2, 3));
    assert!(Rat::new(1, 3) < Rat::new(1, 2));
}
