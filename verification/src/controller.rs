//! The controller core: the options it is configured with, the read-phase
//! path that feeds sensor samples through the proximity state machine into
//! the revolution window, and the two halves of the control phase around
//! the float arithmetic that the unverified shell performs.

use vstd::prelude::*;

use crate::pid::{ControlParams, Feedback};
use crate::proximity::{goes_close, next_state};
use crate::registers::{InputRegister, Registers};
use crate::window::{rotated, sum_of, zero_bins, RevolutionWindow};

verus! {

/// The configuration the controller is built from, immutable afterwards.
/// The thresholds are ordered sample codes, as the proximity state machine
/// takes them.
#[derive(Clone, Copy, PartialEq, Eq, Structural, Debug)]
pub struct ControllerOptions {
    /// Control ticks per second; the window rotates once per control tick.
    pub control_frequency: u32,
    /// Number of bins the revolution window is broken into.
    pub time_window_bins: usize,
    /// Read ticks that fill one bin before the next control tick fires.
    pub reads_per_bin: u32,
    /// Sample code below which the state goes Close and a revolution is
    /// counted.
    pub revolution_threshold_close: u32,
    /// Sample code above which the state goes back to Far.
    pub revolution_threshold_far: u32,
}

impl ControllerOptions {
    /// What construction checks: all three rates positive, the window
    /// small enough for its sums to stay within machine bounds, and the
    /// close threshold strictly below the far one so that the hysteresis
    /// band cannot chatter.
    pub open spec fn valid(self) -> bool {
        &&& self.control_frequency > 0
        &&& 0 < self.time_window_bins <= u32::MAX
        &&& self.reads_per_bin > 0
        &&& self.revolution_threshold_close < self.revolution_threshold_far
    }
}

/// A fatal configuration fault, found at construction, before the loop
/// ever starts.
#[derive(Clone, Copy, PartialEq, Eq, Structural, Debug)]
pub enum ConfigError {
    ZeroControlFrequency,
    ZeroTimeWindowBins,
    WindowTooLarge,
    ZeroReadsPerBin,
    ThresholdsOutOfOrder,
}

/// The first fault construction finds in invalid options, in checking
/// order.
pub open spec fn first_config_error(options: ControllerOptions) -> ConfigError {
    if options.control_frequency == 0 {
        ConfigError::ZeroControlFrequency
    } else if options.time_window_bins == 0 {
        ConfigError::ZeroTimeWindowBins
    } else if options.time_window_bins > u32::MAX {
        ConfigError::WindowTooLarge
    } else if options.reads_per_bin == 0 {
        ConfigError::ZeroReadsPerBin
    } else {
        ConfigError::ThresholdsOutOfOrder
    }
}

/// What one control tick hands to the float control law: the window total
/// the frequency estimate is made of, the tunables read from the holding
/// registers, and the previous tick's feedback memory.
pub struct ControlTick {
    pub revolutions_in_window: u64,
    pub params: ControlParams,
    pub feedback: Feedback,
}

/// The controller's state between ticks.
pub struct Controller {
    options: ControllerOptions,
    revolutions: RevolutionWindow,
    is_close: bool,
    feedback: Feedback,
}

impl Controller {
    /// The options the controller was built with.
    pub closed spec fn spec_options(self) -> ControllerOptions {
        self.options
    }

    /// The revolution window's bins, oldest first.
    pub closed spec fn window_view(self) -> Seq<u32> {
        self.revolutions.view_bins()
    }

    /// Whether the proximity state stands Close.
    pub closed spec fn spec_is_close(self) -> bool {
        self.is_close
    }

    /// The feedback memory the next control tick will consume.
    pub closed spec fn spec_feedback(self) -> Feedback {
        self.feedback
    }

    pub open spec fn wf(self) -> bool {
        &&& self.spec_options().valid()
        &&& self.window_view().len() == self.spec_options().time_window_bins
    }

    /// Hidden well-formedness of the inner window.
    pub closed spec fn window_wf(self) -> bool {
        self.revolutions.wf() && self.revolutions.bin_count()
            == self.options.time_window_bins
    }

    /// Builds a controller, checking the configuration. Succeeds exactly on
    /// valid options; an invalid configuration is fatal and names its first
    /// fault. A fresh controller stands Far, with an all-zero window and
    /// zero feedback memory.
    pub fn new(options: ControllerOptions) -> (r: Result<Controller, ConfigError>)
        ensures
            r is Ok <==> options.valid(),
            r is Ok ==> {
                let c = r->Ok_0;
                &&& c.wf()
                &&& c.window_wf()
                &&& c.spec_options() == options
                &&& !c.spec_is_close()
                &&& c.window_view() == zero_bins(options.time_window_bins as nat)
                &&& c.spec_feedback() == (Feedback { delta: 0u32, integration_component: 0u32 })
            },
            r is Err ==> !options.valid() && r->Err_0 == first_config_error(options),
    {
        if options.control_frequency == 0 {
            return Err(ConfigError::ZeroControlFrequency);
        }
        if options.time_window_bins == 0 {
            return Err(ConfigError::ZeroTimeWindowBins);
        }
        if options.time_window_bins > u32::MAX as usize {
            return Err(ConfigError::WindowTooLarge);
        }
        if options.reads_per_bin == 0 {
            return Err(ConfigError::ZeroReadsPerBin);
        }
        if options.revolution_threshold_close >= options.revolution_threshold_far {
            return Err(ConfigError::ThresholdsOutOfOrder);
        }
        Ok(
            Controller {
                options,
                revolutions: RevolutionWindow::new(options.time_window_bins),
                is_close: false,
                feedback: Feedback { delta: 0, integration_component: 0 },
            },
        )
    }

    /// One read tick's worth of work on a sensor sample: the proximity
    /// state machine steps once, and a Far-to-Close crossing — and nothing
    /// else — records one revolution in the newest bin. A bin that has
    /// reached its counter's ceiling stays put rather than wrapping.
    pub fn read_phase(&mut self, value: u32)
        requires
            old(self).wf(),
            old(self).window_wf(),
        ensures
            final(self).wf(),
            final(self).window_wf(),
            final(self).spec_options() == old(self).spec_options(),
            final(self).spec_feedback() == old(self).spec_feedback(),
            final(self).spec_is_close() == next_state(
                old(self).spec_is_close(),
                value,
                old(self).spec_options().revolution_threshold_close,
                old(self).spec_options().revolution_threshold_far,
            ),
            final(self).window_view() == if goes_close(
                old(self).spec_is_close(),
                value,
                old(self).spec_options().revolution_threshold_close,
            ) && old(self).window_view().last() < u32::MAX {
                old(self).window_view().update(
                    old(self).window_view().len() - 1,
                    (old(self).window_view().last() + 1) as u32,
                )
            } else {
                old(self).window_view()
            },
    {
        if value < self.options.revolution_threshold_close && !self.is_close {
            self.is_close = true;
            let current = self.revolutions.current_bin();
            if current < u32::MAX {
                self.revolutions.increment_current();
            }
        } else if value > self.options.revolution_threshold_far && self.is_close {
            self.is_close = false;
        }
    }

    /// The first half of a control tick: reads the tunables from the
    /// holding registers, takes the window total that the frequency
    /// estimate divides, and rotates the window so the next bin starts
    /// empty. The float law in between is the shell's; the second half is
    /// `control_tick_finish`.
    pub fn control_tick_begin(&mut self, registers: &Registers) -> (r: ControlTick)
        requires
            old(self).wf(),
            old(self).window_wf(),
            registers.wf(),
        ensures
            final(self).wf(),
            final(self).window_wf(),
            final(self).spec_options() == old(self).spec_options(),
            final(self).spec_is_close() == old(self).spec_is_close(),
            final(self).spec_feedback() == old(self).spec_feedback(),
            r.revolutions_in_window == sum_of(old(self).window_view()),
            final(self).window_view() == rotated(old(self).window_view()),
            r.params == (ControlParams {
                target_frequency: registers.holding_view()[0],
                proportional_factor: registers.holding_view()[1],
                integration_time: registers.holding_view()[2],
                differentiation_time: registers.holding_view()[3],
            }),
            r.feedback == old(self).spec_feedback(),
    {
        let params = ControlParams::read(registers);
        let revolutions_in_window = self.revolutions.sum();
        self.revolutions.rotate();
        ControlTick { revolutions_in_window, params, feedback: self.feedback }
    }

    /// The second half of a control tick, after the shell has run the
    /// float law: publishes the frequency and the limited control signal
    /// into the input registers, in that slot order, and replaces the
    /// feedback memory wholesale through the anti-windup guard, so the
    /// stored memory is always finite.
    pub fn control_tick_finish(
        &mut self,
        registers: &mut Registers,
        frequency_bits: u32,
        control_signal_bits: u32,
        delta_bits: u32,
        integration_bits: u32,
    )
        requires
            old(self).wf(),
            old(self).window_wf(),
            old(registers).wf(),
        ensures
            final(self).wf(),
            final(self).window_wf(),
            final(registers).wf(),
            final(self).spec_options() == old(self).spec_options(),
            final(self).spec_is_close() == old(self).spec_is_close(),
            final(self).window_view() == old(self).window_view(),
            final(registers).holding_view() == old(registers).holding_view(),
            final(registers).input_view() == seq![frequency_bits, control_signal_bits],
            final(self).spec_feedback() == (Feedback {
                delta: if crate::float_bits::is_finite_bits(delta_bits) {
                    delta_bits
                } else {
                    0u32
                },
                integration_component: if crate::float_bits::is_finite_bits(integration_bits) {
                    integration_bits
                } else {
                    0u32
                },
            }),
            final(self).spec_feedback().finite(),
    {
        registers.write_input(InputRegister::Frequency, frequency_bits);
        registers.write_input(InputRegister::ControlSignal, control_signal_bits);
        proof {
            assert(registers.input_view() =~= seq![frequency_bits, control_signal_bits]);
        }
        self.feedback = Feedback::next(delta_bits, integration_bits);
    }

    /// The exact frequency estimate as a ratio of integers: the window
    /// total times the control frequency over the number of bins, which is
    /// the total divided by the window duration in seconds. An all-zero
    /// window yields a zero numerator, and only such a window does.
    pub fn frequency_ratio(&self) -> (r: (u128, u64))
        requires
            self.wf(),
            self.window_wf(),
        ensures
            r.0 == sum_of(self.window_view()) * self.spec_options().control_frequency,
            r.1 == self.spec_options().time_window_bins,
            r.1 > 0,
            r.0 == 0 <==> self.window_view() == zero_bins(self.window_view().len()),
    {
        let total = self.revolutions.sum();
        proof {
            assert((total as int) * (self.options.control_frequency as int) <= (u64::MAX as int) * (
            u32::MAX as int)) by (nonlinear_arith)
                requires
                    0 <= (total as int) <= (u64::MAX as int),
                    0 <= (self.options.control_frequency as int) <= (u32::MAX as int),
            ;
            assert((u64::MAX as int) * (u32::MAX as int) < u128::MAX as int);
        }
        let num: u128 = total as u128 * self.options.control_frequency as u128;
        proof {
            let s = sum_of(self.window_view());
            let f = self.spec_options().control_frequency as int;
            crate::window::lemma_sum_nonneg(self.window_view());
            assert(s * f == 0 <==> s == 0) by (nonlinear_arith)
                requires
                    f > 0,
                    s >= 0,
            ;
            crate::window::lemma_sum_zero_iff_all_zero(self.window_view());
            if s == 0 {
                assert(self.window_view() =~= zero_bins(self.window_view().len()));
            }
            if self.window_view() == zero_bins(self.window_view().len()) {
                assert(forall|i: int|
                    0 <= i < self.window_view().len() ==> self.window_view()[i] == 0);
            }
        }
        (num, self.options.time_window_bins as u64)
    }

    /// The options the controller runs with.
    pub fn options(&self) -> (r: ControllerOptions)
        ensures
            r == self.spec_options(),
    {
        self.options
    }
}

/// The window's bins after a sequence of read-phase steps with no control
/// tick in between: each sample steps exactly as `Controller::read_phase`
/// ensures, counting into the newest bin on a Far-to-Close crossing
/// unless that bin's counter has reached its ceiling.
pub open spec fn bins_after_reads(
    init: bool,
    bins: Seq<u32>,
    samples: Seq<u32>,
    threshold_close: u32,
    threshold_far: u32,
) -> Seq<u32>
    decreases samples.len(),
{
    if samples.len() == 0 {
        bins
    } else {
        let prev = bins_after_reads(init, bins, samples.drop_last(), threshold_close, threshold_far);
        if goes_close(
            crate::proximity::state_after(init, samples.drop_last(), threshold_close, threshold_far),
            samples.last(),
            threshold_close,
        ) && prev.last() < u32::MAX {
            prev.update(prev.len() - 1, (prev.last() + 1) as u32)
        } else {
            prev
        }
    }
}

/// A revolution is counted exactly once per Far-to-Close crossing, for
/// every sequence of samples: across one bin's worth of read phases the
/// newest bin — and with it the window total — grows by exactly the
/// number of crossings, and the older bins stay put. The ceiling bound
/// keeps the newest bin's counter from saturating along the way.
pub proof fn lemma_reads_count_each_crossing_once(
    init: bool,
    bins: Seq<u32>,
    samples: Seq<u32>,
    threshold_close: u32,
    threshold_far: u32,
)
    requires
        bins.len() > 0,
        bins.last() + crate::proximity::crossings(init, samples, threshold_close, threshold_far)
            <= u32::MAX,
    ensures
        ({
            let after = bins_after_reads(init, bins, samples, threshold_close, threshold_far);
            let counted = crate::proximity::crossings(init, samples, threshold_close, threshold_far);
            &&& after.len() == bins.len()
            &&& after.drop_last() == bins.drop_last()
            &&& after.last() == bins.last() + counted
            &&& sum_of(after) == sum_of(bins) + counted
        }),
    decreases samples.len(),
{
    crate::proximity::lemma_crossings_nonneg(init, samples, threshold_close, threshold_far);
    if samples.len() > 0 {
        lemma_reads_count_each_crossing_once(
            init,
            bins,
            samples.drop_last(),
            threshold_close,
            threshold_far,
        );
        let prev = bins_after_reads(init, bins, samples.drop_last(), threshold_close, threshold_far);
        let was_close = crate::proximity::state_after(
            init,
            samples.drop_last(),
            threshold_close,
            threshold_far,
        );
        if goes_close(was_close, samples.last(), threshold_close) {
            assert(prev.last() < u32::MAX);
            crate::window::lemma_sum_update_last(prev, (prev.last() + 1) as u32);
            let after = bins_after_reads(init, bins, samples, threshold_close, threshold_far);
            assert(after.drop_last() =~= prev.drop_last());
        }
    }
}

/// Builds the command byte sent to the analog converter to request a
/// one-shot read of the given channel: single-ended input mode with the
/// converter enabled, the channel number in bits 6 to 4.
pub fn adc_read_command(channel: u8) -> (r: u8)
    requires
        channel < 8,
    ensures
        r == (0b10001100u8 & (channel << 4u8)),
{
    let default_read_command: u8 = 0b10001100;
    default_read_command & (channel << 4u8)
}

} // verus!
