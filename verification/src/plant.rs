//! Drive mapping and measurement vocabulary of the observe-only plant.
use vstd::prelude::*;

verus! {

#[derive(Debug, Clone, Copy, PartialEq, Eq, Structural)]
pub enum DriveDirection {
    Stopped,
    Left,
    Right,
}

#[derive(Debug, Clone, Copy, PartialEq, Eq, Structural)]
pub enum DriveMapError {
    InvalidDutyLimit,
}

#[derive(Debug, Clone, Copy, PartialEq, Eq, Structural)]
pub enum EncoderScaleError {
    InvalidCountsPerRevolution,
    InvalidDirection,
}

#[derive(Debug, Clone, Copy, PartialEq, Eq, Structural)]
pub enum PendulumCalibrationError {
    InvalidScale,
    InvalidDirection,
}

/// Drive direction of a non-zero effort of the given sign: right when the
/// sign agrees with the configured polarity, left otherwise.
pub fn drive_direction(positive: bool, positive_is_right: bool) -> (d: DriveDirection)
    ensures
        d == if positive == positive_is_right {
            DriveDirection::Right
        } else {
            DriveDirection::Left
        },
{
    if positive == positive_is_right {
        DriveDirection::Right
    } else {
        DriveDirection::Left
    }
}

} // verus!
