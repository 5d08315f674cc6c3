//! The discrete PID law's verified pieces. The law itself is float
//! arithmetic on register values and runs in the unverified shell; what is
//! verified here is everything the law needs that is exact on bit
//! patterns: reading the tunables out of the holding registers, the
//! anti-windup guard on the feedback memory, and the output limiter's
//! deadzone and clamp decisions.

use vstd::prelude::*;

use crate::float_bits::{
    clamp,
    clamp_bits,
    is_finite_bits,
    is_nan_bits,
    lt,
    lt_bits,
    order_key,
    F32_POS_ZERO_BITS,
};
use crate::registers::{HoldingRegister, Registers};

verus! {

/// Bit pattern of the limiter's deadzone epsilon, one thousandth.
pub const LIMIT_MIN_DEADZONE_BITS: u32 = 0x3A83_126F;

/// The four tunables one control tick works with, read together from the
/// holding registers, each as its bit pattern.
#[derive(Clone, Copy, PartialEq, Eq, Structural, Debug)]
pub struct ControlParams {
    pub target_frequency: u32,
    pub proportional_factor: u32,
    pub integration_time: u32,
    pub differentiation_time: u32,
}

impl ControlParams {
    /// Reads the four tunables out of the holding registers, in slot order.
    pub fn read(registers: &Registers) -> (r: ControlParams)
        requires
            registers.wf(),
        ensures
            r.target_frequency == registers.holding_view()[
                HoldingRegister::TargetFrequency.spec_index()
            ],
            r.proportional_factor == registers.holding_view()[
                HoldingRegister::ProportionalFactor.spec_index()
            ],
            r.integration_time == registers.holding_view()[
                HoldingRegister::IntegrationTime.spec_index()
            ],
            r.differentiation_time == registers.holding_view()[
                HoldingRegister::DifferentiationTime.spec_index()
            ],
    {
        ControlParams {
            target_frequency: registers.read_holding(HoldingRegister::TargetFrequency),
            proportional_factor: registers.read_holding(HoldingRegister::ProportionalFactor),
            integration_time: registers.read_holding(HoldingRegister::IntegrationTime),
            differentiation_time: registers.read_holding(HoldingRegister::DifferentiationTime),
        }
    }
}

/// The PID recurrence memory: the previous tick's delta and integral term,
/// each as its bit pattern. It is replaced wholesale each control tick.
#[derive(Clone, Copy, PartialEq, Eq, Structural, Debug)]
pub struct Feedback {
    pub delta: u32,
    pub integration_component: u32,
}

impl Default for Feedback {
    /// Fresh feedback: both components zero.
    fn default() -> (r: Feedback)
        ensures
            r.delta == 0,
            r.integration_component == 0,
    {
        Feedback { delta: 0, integration_component: 0 }
    }
}

impl Feedback {
    /// Both components are finite: no NaN or infinity sits in the
    /// recurrence memory.
    pub open spec fn finite(self) -> bool {
        is_finite_bits(self.delta) && is_finite_bits(self.integration_component)
    }

    /// The memory for the next tick: each component keeps its value when it
    /// is finite and resets to zero otherwise. This is the anti-windup
    /// guard: a NaN or infinity born of a zero integration time dies here
    /// instead of feeding back forever.
    pub fn next(delta_bits: u32, integration_bits: u32) -> (r: Feedback)
        ensures
            r.delta == if is_finite_bits(delta_bits) {
                delta_bits
            } else {
                F32_POS_ZERO_BITS
            },
            r.integration_component == if is_finite_bits(integration_bits) {
                integration_bits
            } else {
                F32_POS_ZERO_BITS
            },
            r.finite(),
    {
        Feedback {
            delta: crate::float_bits::finite_or_zero(delta_bits),
            integration_component: crate::float_bits::finite_or_zero(integration_bits),
        }
    }
}

/// What the output limiter returns: zero whenever the raw signal compares
/// below the deadzone epsilon, otherwise the already-shifted signal
/// clamped to the output range.
pub open spec fn limit_bits(signal: u32, shifted: u32, min: u32, max: u32) -> u32 {
    if lt_bits(signal, LIMIT_MIN_DEADZONE_BITS) {
        F32_POS_ZERO_BITS
    } else {
        clamp_bits(shifted, min, max)
    }
}

/// The output limiter. A raw signal below the deadzone epsilon yields
/// zero. Otherwise the result is the shifted signal, clamped to
/// `[min, max]`; `shifted` is the raw signal with `min` already added by
/// the caller — the one float addition in the limiter, reproduced here
/// literally from the control law it implements.
pub fn limit(signal: u32, shifted: u32, min: u32, max: u32) -> (r: u32)
    requires
        !is_nan_bits(min),
        !is_nan_bits(max),
        order_key(min) <= order_key(max),
    ensures
        r == limit_bits(signal, shifted, min, max),
{
    if lt(signal, LIMIT_MIN_DEADZONE_BITS) {
        F32_POS_ZERO_BITS
    } else {
        clamp(shifted, min, max)
    }
}

/// Builds the command byte sent to the analog converter to request a
/// one-shot read of the given channel: single-ended input mode with the
/// converter enabled, the channel number in bits 6 to 4.
pub fn make_read_command(channel: u8) -> (r: u8)
    requires
        channel < 8,
    ensures
        r == (0b10001100u8 & (channel << 4u8)),
{
    let default_read_command: u8 = 0b10001100;
    default_read_command & (channel << 4u8)
}

} // verus!
