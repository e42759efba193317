//! ADC and encoder measurement-physics vocabulary.
use vstd::prelude::*;

verus! {

#[derive(Debug, Clone, Copy, PartialEq, Eq, Structural)]
pub enum PendulumCalibrationError {
    InvalidScale,
    InvalidDirection,
}

#[derive(Debug, Clone, Copy, PartialEq, Eq, Structural)]
pub enum EncoderScaleError {
    InvalidCountsPerRevolution,
    InvalidDirection,
}

/// A measurement direction is `+1` or `-1`.
pub open spec fn spec_valid_direction(direction: i8) -> bool {
    direction == 1 || direction == -1
}

pub fn valid_direction(direction: i8) -> (b: bool)
    ensures
        b == spec_valid_direction(direction),
{
    direction == 1 || direction == -1
}

} // verus!
