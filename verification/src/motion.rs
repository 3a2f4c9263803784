//! Step counting from accelerometer samples.
//!
//! A sample counts as a step when its squared magnitude exceeds a fixed
//! threshold and more than a debounce window has passed since the last counted
//! step; a counter that has counted no step yet has no window to wait for.
//! This is an approximate peak detector, not a filtered pedometer: no
//! smoothing is applied, so one long swing that stays above the threshold is
//! counted again each time the debounce window has run out.

use crate::clock::elapsed;
use vstd::prelude::*;

verus! {

/// Magnitude, in thousandths of standard gravity, that a sample must exceed to
/// qualify as a step.
pub const STEP_THRESHOLD_MG: u64 = 1300;

/// Minimum spacing between two counted steps, in milliseconds.
pub const STEP_DEBOUNCE_MS: u64 = 300;

/// One 3-axis acceleration sample, each axis in thousandths of standard gravity.
#[derive(Clone, Copy, Debug, PartialEq, Eq, Structural)]
pub struct Accel {
    pub x: i32,
    pub y: i32,
    pub z: i32,
}

impl Accel {
    /// Squared magnitude of the sample.
    pub open spec fn magnitude_sq(self) -> int {
        self.x * self.x + self.y * self.y + self.z * self.z
    }

    /// The sample is strong enough to be a step.
    pub open spec fn is_peak(self) -> bool {
        self.magnitude_sq() > STEP_THRESHOLD_MG * STEP_THRESHOLD_MG
    }

    /// A sample with the given axis values.
    pub fn new(x: i32, y: i32, z: i32) -> (accel: Self)
        ensures
            accel == (Accel { x, y, z }),
    {
        Accel { x, y, z }
    }

    /// Whether the sample is strong enough to be a step.
    pub fn exceeds_threshold(&self) -> (peak: bool)
        ensures
            peak == self.is_peak(),
    {
        let x: i64 = self.x as i64;
        let y: i64 = self.y as i64;
        let z: i64 = self.z as i64;
        assert(0 <= x * x <= 0x4000_0000_0000_0000) by (nonlinear_arith)
            requires
                -0x8000_0000 <= x < 0x8000_0000,
        ;
        assert(0 <= y * y <= 0x4000_0000_0000_0000) by (nonlinear_arith)
            requires
                -0x8000_0000 <= y < 0x8000_0000,
        ;
        assert(0 <= z * z <= 0x4000_0000_0000_0000) by (nonlinear_arith)
            requires
                -0x8000_0000 <= z < 0x8000_0000,
        ;
        let sum: u64 = (x * x) as u64 + (y * y) as u64 + (z * z) as u64;
        sum > STEP_THRESHOLD_MG * STEP_THRESHOLD_MG
    }
}

/// A step count one higher, held at the largest count.
pub open spec fn count_up(steps: u32) -> u32 {
    if steps == u32::MAX {
        steps
    } else {
        (steps + 1) as u32
    }
}

/// Mathematical model of a [`StepCounter`].
pub struct StepState {
    /// Steps counted so far.
    pub steps: u32,
    /// Timestamp of the last counted step, once there is one.
    pub last_peak_ms: Option<u64>,
}

impl StepState {
    /// The counter at start-up: no step counted yet.
    pub open spec fn initial() -> StepState {
        StepState { steps: 0, last_peak_ms: None }
    }

    /// At `now_ms` no debounce window is running: no step was counted yet,
    /// or more than the window has passed since the last counted one.
    pub open spec fn window_over(self, now_ms: u64) -> bool {
        match self.last_peak_ms {
            None => true,
            Some(last_ms) => elapsed(now_ms, last_ms) > STEP_DEBOUNCE_MS,
        }
    }

    /// The sample `accel` seen at `now_ms` is counted as a step.
    pub open spec fn counts(self, now_ms: u64, accel: Accel) -> bool {
        accel.is_peak() && self.window_over(now_ms)
    }

    /// The counter after it has seen the sample `accel` at `now_ms`.
    pub open spec fn observed(self, now_ms: u64, accel: Accel) -> StepState {
        if self.counts(now_ms, accel) {
            StepState { steps: count_up(self.steps), last_peak_ms: Some(now_ms) }
        } else {
            self
        }
    }
}

/// The step counter.
pub struct StepCounter {
    steps: u32,
    last_peak_ms: Option<u64>,
}

impl View for StepCounter {
    type V = StepState;

    closed spec fn view(&self) -> StepState {
        StepState { steps: self.steps, last_peak_ms: self.last_peak_ms }
    }
}

impl StepCounter {
    /// A counter at zero that has counted no step yet.
    pub fn new() -> (counter: Self)
        ensures
            counter@ == StepState::initial(),
    {
        StepCounter { steps: 0, last_peak_ms: None }
    }

    /// Shows the counter a fresh sample and says whether it was counted as a step.
    pub fn observe(&mut self, now_ms: u64, accel: Accel) -> (counted: bool)
        ensures
            counted == old(self)@.counts(now_ms, accel),
            final(self)@ == old(self)@.observed(now_ms, accel),
            final(self)@.steps >= old(self)@.steps,
    {
        let window_over = match self.last_peak_ms {
            None => true,
            Some(last_ms) => now_ms.saturating_sub(last_ms) > STEP_DEBOUNCE_MS,
        };
        if accel.exceeds_threshold() && window_over {
            self.steps = self.steps.saturating_add(1);
            self.last_peak_ms = Some(now_ms);
            true
        } else {
            false
        }
    }

    /// Steps counted so far.
    pub fn steps(&self) -> (steps: u32)
        ensures
            steps == self@.steps,
    {
        self.steps
    }

    /// Timestamp of the last counted step, or nothing while no step was
    /// counted.
    pub fn last_peak_ms(&self) -> (last_peak_ms: Option<u64>)
        ensures
            last_peak_ms == self@.last_peak_ms,
    {
        self.last_peak_ms
    }
}

/// The step count never goes down, and one sample raises it by at most one.
pub proof fn lemma_steps_monotonic(counter: StepState, now_ms: u64, accel: Accel)
    ensures
        counter.steps <= counter.observed(now_ms, accel).steps <= counter.steps + 1,
{
}

/// A sample below the threshold changes nothing, whenever it comes.
pub proof fn lemma_weak_sample_ignored(counter: StepState, now_ms: u64, accel: Accel)
    requires
        !accel.is_peak(),
    ensures
        counter.observed(now_ms, accel) == counter,
{
}

/// A counter that has counted no step yet counts the first qualifying peak,
/// whenever it comes.
pub proof fn lemma_first_peak_counts(now_ms: u64, accel: Accel)
    requires
        accel.is_peak(),
    ensures
        StepState::initial().observed(now_ms, accel) == (StepState {
            steps: 1,
            last_peak_ms: Some(now_ms),
        }),
{
}

/// Two qualifying peaks within the debounce window of each other count as
/// exactly one step, on a counter that is fresh or whose window is over when
/// the first of them comes: the second is dropped and the window keeps
/// running from the first.
pub proof fn lemma_close_peaks_count_once(
    counter: StepState,
    first_ms: u64,
    first: Accel,
    second_ms: u64,
    second: Accel,
)
    requires
        first.is_peak(),
        second.is_peak(),
        counter.last_peak_ms matches Some(last_ms) ==> elapsed(first_ms, last_ms)
            > STEP_DEBOUNCE_MS,
        elapsed(second_ms, first_ms) <= STEP_DEBOUNCE_MS,
    ensures
        counter.observed(first_ms, first).observed(second_ms, second) == (StepState {
            steps: count_up(counter.steps),
            last_peak_ms: Some(first_ms),
        }),
{
}

/// Two qualifying peaks more than the debounce window apart both count, on a
/// counter that is fresh or whose window is over when the first of them
/// comes.
pub proof fn lemma_spaced_peaks_both_count(
    counter: StepState,
    first_ms: u64,
    first: Accel,
    second_ms: u64,
    second: Accel,
)
    requires
        first.is_peak(),
        second.is_peak(),
        counter.last_peak_ms matches Some(last_ms) ==> elapsed(first_ms, last_ms)
            > STEP_DEBOUNCE_MS,
        elapsed(second_ms, first_ms) > STEP_DEBOUNCE_MS,
    ensures
        counter.observed(first_ms, first).observed(second_ms, second) == (StepState {
            steps: count_up(count_up(counter.steps)),
            last_peak_ms: Some(second_ms),
        }),
{
}

/// On a fresh counter two qualifying peaks count as one step if they come
/// within the debounce window of each other, and as two if they come further
/// apart, whenever the first of them comes.
pub proof fn lemma_fresh_counter_debounces(
    first_ms: u64,
    first: Accel,
    second_ms: u64,
    second: Accel,
)
    requires
        first.is_peak(),
        second.is_peak(),
    ensures
        StepState::initial().observed(first_ms, first).observed(second_ms, second).steps == if elapsed(
            second_ms,
            first_ms,
        ) <= STEP_DEBOUNCE_MS {
            1u32
        } else {
            2u32
        },
{
}

} // verus!
