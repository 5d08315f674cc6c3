use motor_pid::controller::{adc_read_command, ConfigError, Controller, ControllerOptions};
use motor_pid::registers::{HoldingRegister, InputRegister, Registers};

fn good_options() -> ControllerOptions {
    ControllerOptions {
        control_frequency: 10,
        time_window_bins: 10,
        reads_per_bin: 100,
        revolution_threshold_close: 0.3f32.to_bits(),
        revolution_threshold_far: 0.6f32.to_bits(),
    }
}

#[test]
fn construction_accepts_valid_options() {
    assert!(Controller::new(good_options()).is_ok());
}

#[test]
fn construction_rejects_zero_control_frequency() {
    let mut options = good_options();
    options.control_frequency = 0;
    assert_eq!(Controller::new(options).err(), Some(ConfigError::ZeroControlFrequency));
}

#[test]
fn construction_rejects_zero_window_bins() {
    let mut options = good_options();
    options.time_window_bins = 0;
    assert_eq!(Controller::new(options).err(), Some(ConfigError::ZeroTimeWindowBins));
}

#[test]
fn construction_rejects_zero_reads_per_bin() {
    let mut options = good_options();
    options.reads_per_bin = 0;
    assert_eq!(Controller::new(options).err(), Some(ConfigError::ZeroReadsPerBin));
}

#[test]
fn construction_rejects_unordered_thresholds() {
    let mut options = good_options();
    options.revolution_threshold_close = options.revolution_threshold_far;
    assert_eq!(Controller::new(options).err(), Some(ConfigError::ThresholdsOutOfOrder));
}

#[test]
fn crossing_counts_exactly_once() {
    let mut c = Controller::new(good_options()).unwrap();
    let regs = Registers::new();
    let low = 0.1f32.to_bits();
    let mid = 0.45f32.to_bits();
    let high = 0.9f32.to_bits();

    // Far -> Close: one count, held low samples do not count again
    c.read_phase(low);
    c.read_phase(low);
    c.read_phase(mid);
    // Close -> Far: no count
    c.read_phase(high);
    c.read_phase(high);
    // second crossing
    c.read_phase(low);

    let tick = c.control_tick_begin(&regs);
    assert_eq!(tick.revolutions_in_window, 2);
}

#[test]
fn sample_inside_band_changes_nothing() {
    let mut c = Controller::new(good_options()).unwrap();
    let regs = Registers::new();
    let mid = 0.45f32.to_bits();
    for _ in 0..10 {
        c.read_phase(mid);
    }
    let tick = c.control_tick_begin(&regs);
    assert_eq!(tick.revolutions_in_window, 0);
}

#[test]
fn control_tick_reads_params_and_rotates() {
    let mut c = Controller::new(good_options()).unwrap();
    let mut regs = Registers::new();
    regs.write_input(InputRegister::Frequency, 0);
    let tick = c.control_tick_begin(&regs);
    assert_eq!(tick.revolutions_in_window, 0);
    assert_eq!(
        f32::from_bits(tick.params.integration_time),
        f32::INFINITY,
        "default integration time disables the integral term"
    );
    assert_eq!(tick.params.target_frequency, 0);
    assert_eq!(tick.feedback.delta, 0);
    assert_eq!(tick.feedback.integration_component, 0);
}

#[test]
fn control_tick_finish_publishes_and_guards() {
    let mut c = Controller::new(good_options()).unwrap();
    let mut regs = Registers::new();
    let frequency = 20.0f32.to_bits();
    let signal = 0.6f32.to_bits();
    let nan = (0.0f32 / 0.0f32).to_bits();
    c.control_tick_finish(&mut regs, frequency, signal, 1.5f32.to_bits(), nan);
    let inputs = regs.read_input_registers(0, 2).unwrap();
    assert_eq!(inputs, vec![frequency, signal]);
    // the NaN integral memory was zeroed, the finite delta kept
    let tick = c.control_tick_begin(&regs);
    assert_eq!(tick.feedback.delta, 1.5f32.to_bits());
    assert_eq!(f32::from_bits(tick.feedback.integration_component), 0.0);
}

#[test]
fn twenty_crossings_over_one_window_read_twenty_hertz() {
    // control frequency 10, ten bins, one hundred reads per bin: one full
    // window lasts one second
    let mut c = Controller::new(good_options()).unwrap();
    let mut regs = Registers::new();
    let low = 0.1f32.to_bits();
    let high = 0.9f32.to_bits();

    let mut last_tick_revolutions: u64 = 0;
    for _bin in 0..10 {
        // two crossings, evenly spread over this bin's hundred reads
        for _half in 0..2 {
            for i in 0..50 {
                c.read_phase(if i < 25 { low } else { high });
            }
        }
        let tick = c.control_tick_begin(&regs);
        last_tick_revolutions = tick.revolutions_in_window;
        let frequency_hz = tick.revolutions_in_window as f32
            / ((1.0 / c.options().control_frequency as f32) * c.options().time_window_bins as f32);
        c.control_tick_finish(&mut regs, frequency_hz.to_bits(), 0, 0, 0);
    }
    assert_eq!(last_tick_revolutions, 20);
    let (num, den) = c.frequency_ratio();
    // after the tenth rotation the newest window lost one bin of activity
    assert_eq!(den, 10);
    let inputs = regs.read_input_registers(0, 1).unwrap();
    assert_eq!(f32::from_bits(inputs[0]), 20.0);
    assert!(num <= 20 * 10);
}

#[test]
fn frequency_ratio_is_exact() {
    let mut c = Controller::new(good_options()).unwrap();
    let (num, den) = c.frequency_ratio();
    assert_eq!((num, den), (0, 10));
    let low = 0.1f32.to_bits();
    let high = 0.9f32.to_bits();
    for _ in 0..3 {
        c.read_phase(low);
        c.read_phase(high);
    }
    let (num, den) = c.frequency_ratio();
    // three revolutions at control frequency ten over ten bins: 3 Hz
    assert_eq!((num, den), (30, 10));
}

#[test]
fn adc_read_command_masks_the_channel() {
    assert_eq!(adc_read_command(0), 0b10001100 & (0 << 4));
    assert_eq!(adc_read_command(3), 0b10001100 & (3 << 4));
    assert_eq!(adc_read_command(7), 0b10001100 & (7 << 4));
}

#[test]
fn construction_rejects_oversized_window() {
    let mut options = good_options();
    options.time_window_bins = u32::MAX as usize + 1;
    assert_eq!(Controller::new(options).err(), Some(ConfigError::WindowTooLarge));
}
