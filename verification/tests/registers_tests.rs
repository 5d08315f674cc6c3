use motor_pid::registers::{
    HoldingRegister, InputRegister, RegisterError, Registers, HOLDING_REGISTER_COUNT,
    INPUT_REGISTER_COUNT,
};

#[test]
fn fresh_table_defaults() {
    let regs = Registers::new();
    assert_eq!(regs.read_holding(HoldingRegister::TargetFrequency), 0);
    assert_eq!(regs.read_holding(HoldingRegister::ProportionalFactor), 0);
    assert_eq!(
        f32::from_bits(regs.read_holding(HoldingRegister::IntegrationTime)),
        f32::INFINITY
    );
    assert_eq!(regs.read_holding(HoldingRegister::DifferentiationTime), 0);
}

#[test]
fn read_all_input_slots_succeeds() {
    let regs = Registers::new();
    let all = regs.read_input_registers(0, INPUT_REGISTER_COUNT).unwrap();
    assert_eq!(all, vec![0u32; INPUT_REGISTER_COUNT]);
}

#[test]
fn read_past_the_end_is_rejected() {
    let regs = Registers::new();
    let r = regs.read_input_registers(INPUT_REGISTER_COUNT - 1, 2);
    assert_eq!(r, Err(RegisterError::Address));
}

#[test]
fn write_input_is_read_back() {
    let mut regs = Registers::new();
    let frequency = 20.0f32.to_bits();
    let signal = 0.6f32.to_bits();
    regs.write_input(InputRegister::Frequency, frequency);
    regs.write_input(InputRegister::ControlSignal, signal);
    let all = regs.read_input_registers(0, INPUT_REGISTER_COUNT).unwrap();
    assert_eq!(all, vec![frequency, signal]);
}

#[test]
fn write_holding_within_bounds() {
    let mut regs = Registers::new();
    let values = vec![5.0f32.to_bits(), 0.4f32.to_bits()];
    regs.write_holding_registers(0, &values).unwrap();
    assert_eq!(regs.read_holding(HoldingRegister::TargetFrequency), 5.0f32.to_bits());
    assert_eq!(regs.read_holding(HoldingRegister::ProportionalFactor), 0.4f32.to_bits());
    assert_eq!(
        f32::from_bits(regs.read_holding(HoldingRegister::IntegrationTime)),
        f32::INFINITY
    );
}

#[test]
fn write_holding_past_the_end_is_rejected() {
    let mut regs = Registers::new();
    let values = vec![1u32, 2u32];
    let r = regs.write_holding_registers(HOLDING_REGISTER_COUNT - 1, &values);
    assert_eq!(r, Err(RegisterError::Address));
    assert_eq!(regs.read_holding(HoldingRegister::DifferentiationTime), 0);
}

#[test]
fn read_all_holding_slots_succeeds() {
    let regs = Registers::new();
    let all = regs.read_holding_registers(0, HOLDING_REGISTER_COUNT).unwrap();
    assert_eq!(all, vec![0, 0, f32::INFINITY.to_bits(), 0]);
}

#[test]
fn read_holding_past_the_end_is_rejected() {
    let regs = Registers::new();
    let r = regs.read_holding_registers(HOLDING_REGISTER_COUNT - 1, 2);
    assert_eq!(r, Err(RegisterError::Address));
}

#[test]
fn write_input_registers_within_bounds() {
    let mut regs = Registers::new();
    let values = vec![20.0f32.to_bits(), 0.6f32.to_bits()];
    regs.write_input_registers(0, &values).unwrap();
    let all = regs.read_input_registers(0, INPUT_REGISTER_COUNT).unwrap();
    assert_eq!(all, values);
}

#[test]
fn write_input_registers_past_the_end_is_rejected() {
    let mut regs = Registers::new();
    let values = vec![1, 2];
    let r = regs.write_input_registers(1, &values);
    assert_eq!(r, Err(RegisterError::Address));
    let all = regs.read_input_registers(0, INPUT_REGISTER_COUNT).unwrap();
    assert_eq!(all, vec![0, 0]);
}
