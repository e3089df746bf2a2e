use pendulum_control::controller::tick;
use pendulum_control::estimator::{normalize_deviation, ControllerState};
use pendulum_control::synthesizer::{
    perturbation, resolve_force, signal, telemetry, GainProfile, InputSnapshot, PlanarVector,
    PERTURBATION_MAGNITUDE,
};

fn no_input() -> InputSnapshot {
    InputSnapshot { push_left: false, push_right: false }
}

#[test]
fn deviation_concrete_scenarios() {
    assert_eq!(normalize_deviation(170), 10);
    assert_eq!(normalize_deviation(-170), -10);
}

#[test]
fn deviation_edges() {
    assert_eq!(normalize_deviation(180), 0);
    assert_eq!(normalize_deviation(-180), 0);
    assert_eq!(normalize_deviation(0), 180);
    assert_eq!(normalize_deviation(-1), -179);
    assert_eq!(normalize_deviation(1), 179);
    assert_eq!(normalize_deviation(90), 90);
    assert_eq!(normalize_deviation(-90), -90);
}

#[test]
fn estimator_first_step() {
    let mut state = ControllerState::default();
    state.advance(10);
    assert_eq!(state.acceleration, 0);
    assert_eq!(state.last_velocity, 0);
    assert_eq!(state.velocity, 10);
    assert_eq!(state.last_angle, 10);
    let gains = GainProfile::new(250000, 1300000, 0, 1);
    assert_eq!(signal(&gains, &state), 15_500_000);
}

#[test]
fn estimator_first_step_scaled_gains() {
    let mut state = ControllerState::default();
    state.advance(10);
    let gains = GainProfile::new(2 * 250000, 2 * 1300000, 0, 1);
    assert_eq!(signal(&gains, &state), 2 * 15_500_000);
}

#[test]
fn finite_difference_sequence() {
    let mut state = ControllerState::default();
    state.advance(3);
    assert_eq!(state.velocity, 3);
    assert_eq!(state.acceleration, 0);
    state.advance(7);
    assert_eq!(state.velocity, 4);
    assert_eq!(state.acceleration, 3);
    assert_eq!(state.last_velocity, 3);
    state.advance(12);
    assert_eq!(state.velocity, 5);
    assert_eq!(state.acceleration, 1);
    assert_eq!(state.last_angle, 12);
}

#[test]
fn zero_input_stability() {
    let mut state = ControllerState {
        last_angle: 0,
        velocity: 0,
        last_velocity: 5,
        acceleration: 9,
        last_time: 0,
    };
    let gains = GainProfile::default();
    state.advance(0);
    assert_eq!(state.velocity, 0);
    assert_eq!(state.acceleration, -5);
    state.advance(0);
    assert_eq!(state.velocity, 0);
    assert_eq!(state.acceleration, 0);
    assert_eq!(signal(&gains, &state), 0);
    state.advance(0);
    assert_eq!(state.velocity, 0);
    assert_eq!(state.acceleration, 0);
    assert_eq!(signal(&gains, &state), 0);
}

#[test]
fn observe_normalizes_then_steps() {
    let mut state = ControllerState::default();
    state.observe(170);
    assert_eq!(state.last_angle, 10);
    assert_eq!(state.velocity, 10);
    state.observe(-170);
    assert_eq!(state.last_angle, -10);
    assert_eq!(state.velocity, -20);
}

#[test]
fn perturbation_values() {
    assert_eq!(perturbation(&no_input()), 0);
    assert_eq!(perturbation(&InputSnapshot { push_left: true, push_right: false }), 1_000_000);
    assert_eq!(perturbation(&InputSnapshot { push_left: false, push_right: true }), -1_000_000);
    assert_eq!(perturbation(&InputSnapshot { push_left: true, push_right: true }), 0);
    assert_eq!(PERTURBATION_MAGNITUDE, 1_000_000);
}

#[test]
fn resolve_force_components() {
    let direction = PlanarVector { x: 3, y: -4 };
    let force = resolve_force(&direction, 10);
    assert_eq!(force.x, 30);
    assert_eq!(force.y, -40);
}

#[test]
fn force_additivity() {
    let direction = PlanarVector { x: 9999, y: -137 };
    let corrective: i64 = 15_500_000;
    let pushed: i64 = 1_000_000;
    let whole = resolve_force(&direction, corrective + pushed);
    let part_a = resolve_force(&direction, corrective);
    let part_b = resolve_force(&direction, pushed);
    assert_eq!(whole.x, part_a.x + part_b.x);
    assert_eq!(whole.y, part_a.y + part_b.y);
}

#[test]
fn tick_without_input() {
    let mut state = ControllerState::default();
    let gains = GainProfile::default();
    let direction = PlanarVector { x: 10000, y: 0 };
    let mut force = PlanarVector::zero();
    tick(&mut state, &gains, 170, &no_input(), &direction, &mut force);
    assert_eq!(state.last_angle, 10);
    assert_eq!(state.velocity, 10);
    assert_eq!(state.acceleration, 0);
    assert_eq!(force.x, 10000 * 15_500_000);
    assert_eq!(force.y, 0);
}

#[test]
fn tick_adds_perturbation_to_corrective() {
    let gains = GainProfile::default();
    let direction = PlanarVector { x: 10000, y: -250 };
    let input = InputSnapshot { push_left: true, push_right: false };

    let mut state = ControllerState::default();
    let mut force = PlanarVector::zero();
    tick(&mut state, &gains, 170, &input, &direction, &mut force);

    let mut reference = ControllerState::default();
    reference.observe(170);
    let corrective = resolve_force(&direction, signal(&gains, &reference));
    let pushed = resolve_force(&direction, 1_000_000);
    assert_eq!(force.x, corrective.x + pushed.x);
    assert_eq!(force.y, corrective.y + pushed.y);
}

#[test]
fn tick_accumulates_into_existing_force() {
    let mut state = ControllerState::default();
    let gains = GainProfile::new(1, 1, 1, 1);
    let direction = PlanarVector { x: 2, y: 3 };
    let mut force = PlanarVector { x: 7, y: -2 };
    tick(&mut state, &gains, 179, &no_input(), &direction, &mut force);
    // deviation 1: signal = 1*1 + 1*1 + 1*0 = 2
    assert_eq!(force.x, 7 + 2 * 2);
    assert_eq!(force.y, -2 + 3 * 2);
}

#[test]
fn output_scale_scales_whole_signal() {
    let mut state = ControllerState::default();
    state.advance(10);
    let gains = GainProfile::new(250000, 1300000, 0, 3);
    assert_eq!(signal(&gains, &state), 3 * 15_500_000);
}

#[test]
fn telemetry_reports_contributions() {
    let mut state = ControllerState::default();
    state.advance(10);
    let gains = GainProfile::default();
    let (deviation, proportional, velocity_part, acceleration_part) = telemetry(&gains, &state);
    assert_eq!(deviation, 10);
    assert_eq!(proportional, 2_500_000);
    assert_eq!(velocity_part, 13_000_000);
    assert_eq!(acceleration_part, 0);
}

#[test]
fn default_state_is_zeroed() {
    let state = ControllerState::default();
    assert_eq!(state.last_angle, 0);
    assert_eq!(state.velocity, 0);
    assert_eq!(state.last_velocity, 0);
    assert_eq!(state.acceleration, 0);
    assert_eq!(state.last_time, 0);
}

#[test]
fn default_gains_are_the_demo_tuning() {
    let gains = GainProfile::default();
    assert_eq!(gains.proportional, 250000);
    assert_eq!(gains.velocity_gain, 1300000);
    assert_eq!(gains.acceleration_gain, 0);
    assert_eq!(gains.output_scale, 1);
}

#[test]
fn tick_subtracts_negative_perturbation() {
    let gains = GainProfile::default();
    let direction = PlanarVector { x: 10000, y: 0 };
    let input = InputSnapshot { push_left: false, push_right: true };
    let mut state = ControllerState::default();
    let mut force = PlanarVector::zero();
    tick(&mut state, &gains, 170, &input, &direction, &mut force);
    assert_eq!(force.x, 10000 * (15_500_000 - 1_000_000));
    assert_eq!(force.y, 0);
}
