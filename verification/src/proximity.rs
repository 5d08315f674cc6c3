//! The proximity state machine. A sample below the close threshold takes
//! the state from Far to Close and counts one revolution; a sample above
//! the far threshold takes it from Close back to Far and counts nothing;
//! any other sample changes nothing. The gap between the two thresholds is
//! the hysteresis band that keeps the state from chattering.
//!
//! Samples and thresholds are ordered sample codes: for a normalized
//! non-negative sensor value its IEEE-754 bit pattern serves, since the
//! unsigned order of those patterns agrees with the order of the values; a
//! raw converter count serves equally well.

use vstd::prelude::*;

verus! {

/// A sample takes the state from Far to Close: it is below the close
/// threshold while the state is Far. This is the one situation in which a
/// revolution is counted.
pub open spec fn goes_close(is_close: bool, value: u32, threshold_close: u32) -> bool {
    !is_close && value < threshold_close
}

/// A sample takes the state from Close to Far: it is above the far
/// threshold while the state is Close. No revolution is counted here.
pub open spec fn goes_far(is_close: bool, value: u32, threshold_far: u32) -> bool {
    is_close && value > threshold_far
}

/// The state after one sample.
pub open spec fn next_state(
    is_close: bool,
    value: u32,
    threshold_close: u32,
    threshold_far: u32,
) -> bool {
    if goes_close(is_close, value, threshold_close) {
        true
    } else if goes_far(is_close, value, threshold_far) {
        false
    } else {
        is_close
    }
}

/// The state after a whole sequence of samples.
pub open spec fn state_after(
    init: bool,
    samples: Seq<u32>,
    threshold_close: u32,
    threshold_far: u32,
) -> bool
    decreases samples.len(),
{
    if samples.len() == 0 {
        init
    } else {
        next_state(
            state_after(init, samples.drop_last(), threshold_close, threshold_far),
            samples.last(),
            threshold_close,
            threshold_far,
        )
    }
}

/// How many revolutions a sequence of samples counts: one for each sample
/// that takes the state from Far to Close, and no other.
pub open spec fn crossings(
    init: bool,
    samples: Seq<u32>,
    threshold_close: u32,
    threshold_far: u32,
) -> int
    decreases samples.len(),
{
    if samples.len() == 0 {
        0
    } else {
        crossings(init, samples.drop_last(), threshold_close, threshold_far) + if goes_close(
            state_after(init, samples.drop_last(), threshold_close, threshold_far),
            samples.last(),
            threshold_close,
        ) {
            1int
        } else {
            0int
        }
    }
}

/// A sequence never counts a negative number of revolutions, and dropping
/// its last sample never increases the count.
pub proof fn lemma_crossings_nonneg(
    init: bool,
    samples: Seq<u32>,
    threshold_close: u32,
    threshold_far: u32,
)
    ensures
        crossings(init, samples, threshold_close, threshold_far) >= 0,
        samples.len() > 0 ==> crossings(init, samples.drop_last(), threshold_close, threshold_far)
            <= crossings(init, samples, threshold_close, threshold_far),
    decreases samples.len(),
{
    if samples.len() > 0 {
        lemma_crossings_nonneg(init, samples.drop_last(), threshold_close, threshold_far);
    }
}

/// While the state stands Close, it can only have left Close through a
/// sample above the far threshold: whenever the state is Close after `m`
/// samples and Far after `n`, some sample in between went above the far
/// threshold.
proof fn lemma_far_needs_high_sample(
    init: bool,
    samples: Seq<u32>,
    threshold_close: u32,
    threshold_far: u32,
    m: int,
    n: int,
)
    requires
        0 <= m <= n <= samples.len(),
        state_after(init, samples.take(m), threshold_close, threshold_far),
        !state_after(init, samples.take(n), threshold_close, threshold_far),
    ensures
        exists|k: int| m <= k < n && samples[k] > threshold_far,
    decreases n - m,
{
    assert(m < n);
    let before = state_after(init, samples.take(n - 1), threshold_close, threshold_far);
    assert(samples.take(n).drop_last() =~= samples.take(n - 1));
    assert(samples.take(n).last() == samples[n - 1]);
    if before {
        assert(goes_far(before, samples[n - 1], threshold_far));
        assert(samples[n - 1] > threshold_far);
    } else {
        lemma_far_needs_high_sample(init, samples, threshold_close, threshold_far, m, n - 1);
        let k = choose|k: int| m <= k < n - 1 && samples[k] > threshold_far;
        assert(m <= k < n && samples[k] > threshold_far);
    }
}

/// A revolution is counted at most once per crossing: between any two
/// counted samples the sensor must have gone above the far threshold, so a
/// single Far-to-Close crossing can never count twice.
pub proof fn lemma_one_count_per_crossing(
    init: bool,
    samples: Seq<u32>,
    threshold_close: u32,
    threshold_far: u32,
    i: int,
    j: int,
)
    requires
        0 <= i < j < samples.len(),
        goes_close(
            state_after(init, samples.take(i), threshold_close, threshold_far),
            samples[i],
            threshold_close,
        ),
        goes_close(
            state_after(init, samples.take(j), threshold_close, threshold_far),
            samples[j],
            threshold_close,
        ),
    ensures
        exists|k: int| i < k < j && samples[k] > threshold_far,
{
    assert(samples.take(i + 1).drop_last() =~= samples.take(i));
    assert(samples.take(i + 1).last() == samples[i]);
    assert(state_after(init, samples.take(i + 1), threshold_close, threshold_far));
    assert(!state_after(init, samples.take(j), threshold_close, threshold_far));
    lemma_far_needs_high_sample(init, samples, threshold_close, threshold_far, i + 1, j);
    let k = choose|k: int| i + 1 <= k < j && samples[k] > threshold_far;
    assert(i < k < j && samples[k] > threshold_far);
}

} // verus!
