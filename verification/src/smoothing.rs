//! The timetable of a parameter glide.
//!
//! When the output gain is given a new target, the gain does not jump: it
//! approaches the target over a fixed time, one step per sample. How far a
//! step moves the gain is floating-point arithmetic and stays with the
//! caller. This module keeps count: how many steps the approach takes, and
//! what each sample's step is, so that the gain arrives on the sample on
//! which the time is up and rests from then on.

use vstd::prelude::*;

verus! {

/// Time the output gain takes to reach a new target, in milliseconds.
pub const OUTPUT_SMOOTHING_MS: u32 = 50;

/// What happens to the smoothed value on one sample.
#[derive(Clone, Copy, PartialEq, Eq, Structural, Debug)]
pub enum Advance {
    /// The value rests at its target.
    Hold,
    /// The value moves one step towards the target.
    Step,
    /// The value takes on the target itself.
    Arrive,
}

/// The number of samples that `time_ms` milliseconds last at
/// `sample_rate_hz`, rounded to the nearest whole sample.
pub open spec fn ramp_length(sample_rate_hz: u32, time_ms: u32) -> nat {
    ((sample_rate_hz as nat * time_ms as nat + 500) / 1000) as nat
}

/// The step that a sample takes while `steps_left` steps remain.
pub open spec fn advance_at(steps_left: nat) -> Advance {
    if steps_left == 0 {
        Advance::Hold
    } else if steps_left == 1 {
        Advance::Arrive
    } else {
        Advance::Step
    }
}

/// The steps that remain once the sample has taken its step.
pub open spec fn left_after(steps_left: nat) -> nat {
    if steps_left == 0 {
        0
    } else {
        (steps_left - 1) as nat
    }
}

/// The steps that remain after `samples` further samples.
pub open spec fn left_after_samples(steps_left: nat, samples: nat) -> nat
    decreases samples,
{
    if samples == 0 {
        steps_left
    } else {
        left_after(left_after_samples(steps_left, (samples - 1) as nat))
    }
}

/// Countdown of one glide.
#[derive(Debug)]
pub struct Ramp {
    steps_left: u64,
}

impl View for Ramp {
    type V = nat;

    /// The steps that remain until the value is at its target.
    closed spec fn view(&self) -> nat {
        self.steps_left as nat
    }
}

impl Ramp {
    /// A ramp at rest.
    pub fn new() -> (ramp: Ramp)
        ensures
            ramp@ == 0,
    {
        Ramp { steps_left: 0 }
    }

    /// Starts a glide of `time_ms` milliseconds at `sample_rate_hz`, in place
    /// of any glide under way, and returns the number of steps it will take.
    /// A glide of no steps leaves the ramp at rest: the value is to take on
    /// its target at once.
    pub fn retarget(&mut self, sample_rate_hz: u32, time_ms: u32) -> (steps: u64)
        ensures
            steps == ramp_length(sample_rate_hz, time_ms),
            final(self)@ == ramp_length(sample_rate_hz, time_ms),
    {
        let rate: u64 = sample_rate_hz as u64;
        let time: u64 = time_ms as u64;
        assert(rate * time <= 0xffff_ffff * 0xffff_ffff) by (nonlinear_arith)
            requires
                rate <= 0xffff_ffff,
                time <= 0xffff_ffff,
        ;
        let samples: u64 = (rate * time + 500) / 1000;
        self.steps_left = samples;
        samples
    }

    /// Takes the step of one sample and says what it does to the value.
    pub fn next(&mut self) -> (advance: Advance)
        ensures
            advance == advance_at(old(self)@),
            final(self)@ == left_after(old(self)@),
    {
        if self.steps_left == 0 {
            Advance::Hold
        } else if self.steps_left == 1 {
            self.steps_left = 0;
            Advance::Arrive
        } else {
            self.steps_left = self.steps_left - 1;
            Advance::Step
        }
    }

    /// Whether the value rests at its target.
    pub fn is_settled(&self) -> (settled: bool)
        ensures
            settled <==> self@ == 0,
    {
        self.steps_left == 0
    }
}

/// A glide of `length` steps arrives on time. Counting samples from one, the
/// samples before the `length`-th move the value a step, the `length`-th puts
/// it on the target, and every later one holds it there.
pub proof fn lemma_glide_arrives_on_time(length: nat, sample: nat)
    requires
        sample >= 1,
    ensures
        left_after_samples(length, sample) == if sample < length {
            (length - sample) as nat
        } else {
            0
        },
        advance_at(left_after_samples(length, (sample - 1) as nat)) == if sample < length {
            Advance::Step
        } else if sample == length {
            Advance::Arrive
        } else {
            Advance::Hold
        },
    decreases sample,
{
    if sample > 1 {
        lemma_glide_arrives_on_time(length, (sample - 1) as nat);
    } else {
        assert(left_after_samples(length, 0) == length);
    }
}

} // verus!
