//! Typestate markers of the motor authority.
use vstd::prelude::*;

verus! {

/// No output authority is held.
pub struct Disarmed;

/// Explicit maintenance output authority.
pub struct Maintenance;

/// Closed-loop control output authority.
pub struct Control;

/// Output is faulted and held safe-off until cleared.
pub struct Fault;

} // verus!
