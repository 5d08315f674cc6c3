use motor_pid::pid::{limit, make_read_command, ControlParams, Feedback, LIMIT_MIN_DEADZONE_BITS};
use motor_pid::registers::Registers;

const PWM_MIN: f32 = 0.1;
const PWM_MAX: f32 = 1.0;

/// The limiter as the control law runs it: the caller performs the one
/// float addition, the library decides deadzone and clamp.
fn limit_f32(signal: f32, min: f32, max: f32) -> f32 {
    f32::from_bits(limit(
        signal.to_bits(),
        (signal + min).to_bits(),
        min.to_bits(),
        max.to_bits(),
    ))
}

#[test]
fn deadzone_constant_is_one_thousandth() {
    assert_eq!(f32::from_bits(LIMIT_MIN_DEADZONE_BITS), 0.001);
}

#[test]
fn limiter_zeroes_below_deadzone() {
    assert_eq!(limit_f32(0.0005, PWM_MIN, PWM_MAX), 0.0);
    assert_eq!(limit_f32(0.0, PWM_MIN, PWM_MAX), 0.0);
    assert_eq!(limit_f32(-3.0, PWM_MIN, PWM_MAX), 0.0);
}

#[test]
fn limiter_adds_then_clamps() {
    // the documented add-then-clamp behavior, reproduced literally
    assert_eq!(limit_f32(0.5, PWM_MIN, PWM_MAX), (0.5f32 + 0.1).clamp(0.1, 1.0));
    assert_eq!(limit_f32(0.5, PWM_MIN, PWM_MAX), 0.6);
    assert_eq!(limit_f32(2.0, PWM_MIN, PWM_MAX), 1.0);
    assert_eq!(limit_f32(0.001, PWM_MIN, PWM_MAX), 0.101);
}

#[test]
fn feedback_keeps_finite_components() {
    let f = Feedback::next(1.5f32.to_bits(), (-0.25f32).to_bits());
    assert_eq!(f.delta, 1.5f32.to_bits());
    assert_eq!(f.integration_component, (-0.25f32).to_bits());
}

#[test]
fn feedback_zeroes_nan_and_infinity() {
    // a zero integration time divides by zero upstream; the guard must
    // keep the poison out of the recurrence
    let nan = (0.0f32 / 0.0f32).to_bits();
    let f = Feedback::next(nan, f32::INFINITY.to_bits());
    assert_eq!(f32::from_bits(f.delta), 0.0);
    assert_eq!(f32::from_bits(f.integration_component), 0.0);
    assert!(f32::from_bits(f.delta).is_finite());
    assert!(f32::from_bits(f.integration_component).is_finite());
}

#[test]
fn feedback_default_is_zero() {
    let f: Feedback = Default::default();
    assert_eq!(f.delta, 0);
    assert_eq!(f.integration_component, 0);
}

#[test]
fn params_read_in_slot_order() {
    let mut regs = Registers::new();
    let values = vec![
        5.0f32.to_bits(),
        0.4f32.to_bits(),
        2.0f32.to_bits(),
        0.01f32.to_bits(),
    ];
    regs.write_holding_registers(0, &values).unwrap();
    let params = ControlParams::read(&regs);
    assert_eq!(params.target_frequency, 5.0f32.to_bits());
    assert_eq!(params.proportional_factor, 0.4f32.to_bits());
    assert_eq!(params.integration_time, 2.0f32.to_bits());
    assert_eq!(params.differentiation_time, 0.01f32.to_bits());
}

#[test]
fn read_command_masks_the_channel() {
    assert_eq!(make_read_command(0), 0b10001100 & (0 << 4));
    assert_eq!(make_read_command(5), 0b10001100 & (5 << 4));
}
