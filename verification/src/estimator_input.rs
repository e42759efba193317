//! Promotion of raw plant evidence toward the estimator input.
//!
//! Angle conversion through the pendulum calibration and encoder scale is
//! floating-point measurement physics; what is decided here is whether a raw
//! observation may be promoted at all, and which capture time it carries.
use vstd::prelude::*;

use crate::arm_encoder::{counter_delta, saturating_add, saturating_add_i32, wrapping_counter_delta};
use crate::flags::has8;
use crate::plant_observation::{
    MeasurementQuality, RawObservation, quality_available, quality_io_ok, quality_stale,
    quality_timing_valid,
};
use crate::robot_domain::TimestampUs;

verus! {

#[derive(Debug, Clone, Copy, PartialEq, Eq, Structural)]
pub enum AdapterError {
    PendulumEvidenceUnavailable,
    ArmEncoderEvidenceUnavailable,
}

/// Converts one wrapping 16-bit hardware encoder counter into the Plant-owned
/// accumulated-count observation semantic.
#[derive(Debug, Clone, Copy, PartialEq, Eq, Structural)]
pub struct EncoderCounterAccumulator {
    previous_counter: u16,
    accumulated_count: i32,
}

impl EncoderCounterAccumulator {
    pub closed spec fn spec_previous_counter(self) -> u16 {
        self.previous_counter
    }

    pub closed spec fn spec_accumulated_count(self) -> i32 {
        self.accumulated_count
    }

    pub fn new(initial_counter: u16) -> (a: Self)
        ensures
            a.spec_previous_counter() == initial_counter,
            a.spec_accumulated_count() == 0,
    {
        EncoderCounterAccumulator { previous_counter: initial_counter, accumulated_count: 0 }
    }

    pub fn update(&mut self, counter: u16) -> (count: i32)
        ensures
            count == final(self).spec_accumulated_count(),
            count == saturating_add_i32(
                old(self).spec_accumulated_count() as int,
                counter_delta(counter, old(self).spec_previous_counter()),
            ),
            final(self).spec_previous_counter() == counter,
    {
        let delta = wrapping_counter_delta(counter, self.previous_counter);
        self.previous_counter = counter;
        self.accumulated_count = saturating_add(self.accumulated_count, delta);
        self.accumulated_count
    }

    pub fn accumulated_count(self) -> (c: i32)
        ensures
            c == self.spec_accumulated_count(),
    {
        self.accumulated_count
    }
}

/// Evidence may be promoted: available, I/O ok, timing valid and not stale.
pub open spec fn spec_usable(quality: MeasurementQuality) -> bool {
    &&& has8(quality@, quality_available())
    &&& has8(quality@, quality_io_ok())
    &&& has8(quality@, quality_timing_valid())
    &&& !has8(quality@, quality_stale())
}

pub fn usable(quality: MeasurementQuality) -> (b: bool)
    ensures
        b == spec_usable(quality),
{
    quality.contains(MeasurementQuality::available()) && quality.contains(
        MeasurementQuality::io_ok(),
    ) && quality.contains(MeasurementQuality::timing_valid()) && !quality.contains(
        MeasurementQuality::stale(),
    )
}

/// Gate one raw observation for promotion: both sensors' evidence must be
/// usable (the pendulum is checked first), and the promoted measurement
/// carries the later of the two capture times.
pub fn promotion_timestamp(observation: RawObservation) -> (r: Result<TimestampUs, AdapterError>)
    ensures
        !spec_usable(observation.pendulum.quality) ==> r == Err::<TimestampUs, AdapterError>(
            AdapterError::PendulumEvidenceUnavailable,
        ),
        spec_usable(observation.pendulum.quality) && !spec_usable(observation.arm_encoder.quality)
            ==> r == Err::<TimestampUs, AdapterError>(
            AdapterError::ArmEncoderEvidenceUnavailable,
        ),
        spec_usable(observation.pendulum.quality) && spec_usable(observation.arm_encoder.quality)
            ==> r == Ok::<TimestampUs, AdapterError>(
            if observation.pendulum.captured_at.0 >= observation.arm_encoder.captured_at.0 {
                observation.pendulum.captured_at
            } else {
                observation.arm_encoder.captured_at
            },
        ),
{
    if !usable(observation.pendulum.quality) {
        return Err(AdapterError::PendulumEvidenceUnavailable);
    }
    if !usable(observation.arm_encoder.quality) {
        return Err(AdapterError::ArmEncoderEvidenceUnavailable);
    }
    if observation.pendulum.captured_at.0 >= observation.arm_encoder.captured_at.0 {
        Ok(observation.pendulum.captured_at)
    } else {
        Ok(observation.arm_encoder.captured_at)
    }
}

} // verus!
