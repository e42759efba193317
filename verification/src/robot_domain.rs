//! Physical-domain values that carry no floating-point payload.
use vstd::prelude::*;

verus! {

/// Timestamp in microseconds on the firmware monotonic timebase.
#[derive(Clone, Copy, Debug, PartialEq, Eq, Structural)]
pub struct TimestampUs(pub u64);

impl Default for TimestampUs {
    fn default() -> (t: Self)
        ensures
            t.0 == 0,
    {
        TimestampUs(0)
    }
}

/// Whether an estimated state may be trusted by Control and Supervisor.
#[derive(Clone, Copy, Debug, PartialEq, Eq, Structural)]
pub enum StateValidity {
    Invalid,
    Valid,
}

impl Default for StateValidity {
    fn default() -> (v: Self)
        ensures
            v == StateValidity::Invalid,
    {
        StateValidity::Invalid
    }
}

} // verus!
