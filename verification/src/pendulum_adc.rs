//! Raw pendulum ADC acquisition boundary.
use vstd::prelude::*;

use crate::plant_observation::{MeasurementQuality, RawPendulumObservation};
use crate::robot_domain::TimestampUs;

verus! {

/// Firmware acquisition boundary for the pendulum potentiometer ADC evidence.
///
/// Calibration and angle conversion remain Plant measurement semantics; this
/// type only packages the raw ADC sample with capture time and acquisition
/// quality.
#[derive(Debug, Clone, Copy, PartialEq, Eq, Structural)]
pub struct PendulumAdcSensor;

impl PendulumAdcSensor {
    pub fn observation(adc_raw: u16, captured_at: TimestampUs, quality: MeasurementQuality) -> (o:
        RawPendulumObservation)
        ensures
            o == (RawPendulumObservation { captured_at, adc_raw, quality }),
    {
        RawPendulumObservation { captured_at, adc_raw, quality }
    }
}

} // verus!
