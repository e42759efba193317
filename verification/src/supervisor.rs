//! Observe-only supervisor: motor authority states and their transitions.
//!
//! The authority owner drives a floating-point drive command into its motor
//! sink; which transitions and accesses are permitted is decided here.
use vstd::prelude::*;

verus! {

#[derive(Debug, Clone, Copy, PartialEq, Eq, Structural)]
pub enum AuthorityState {
    Disarmed,
    Maintenance,
    Control,
    Fault,
}

#[derive(Debug, Clone, Copy, PartialEq, Eq, Structural)]
pub enum AuthorityError {
    Busy,
    Faulted,
    NotMaintenance,
    NotControl,
}

#[derive(Debug, Clone, Copy, PartialEq, Eq, Structural)]
pub enum FaultReason {
    Sensor,
    Estimator,
    ControlSafety,
    Authority,
    Watchdog,
}

pub trait TelemetrySink {
    fn write(&mut self, bytes: &[u8]);
}

/// State and result of a request to enter `target` from `state`: only a
/// disarmed authority may be acquired.
pub open spec fn spec_enter(state: AuthorityState, target: AuthorityState) -> (
    AuthorityState,
    Result<(), AuthorityError>,
) {
    match state {
        AuthorityState::Disarmed => (target, Ok(())),
        AuthorityState::Fault => (state, Err(AuthorityError::Faulted)),
        _ => (state, Err(AuthorityError::Busy)),
    }
}

impl AuthorityState {
    /// Request to enter `target`.
    pub fn enter(self, target: AuthorityState) -> (r: (AuthorityState, Result<(), AuthorityError>))
        ensures
            r == spec_enter(self, target),
    {
        match self {
            AuthorityState::Disarmed => (target, Ok(())),
            AuthorityState::Fault => (self, Err(AuthorityError::Faulted)),
            _ => (self, Err(AuthorityError::Busy)),
        }
    }

    /// State after a release: a fault stays latched, anything else disarms.
    pub fn released(self) -> (s: AuthorityState)
        ensures
            s == if self == AuthorityState::Fault {
                AuthorityState::Fault
            } else {
                AuthorityState::Disarmed
            },
    {
        if self == AuthorityState::Fault {
            AuthorityState::Fault
        } else {
            AuthorityState::Disarmed
        }
    }

    /// Whether maintenance output may be applied now.
    pub fn maintenance_access(self) -> (r: Result<(), AuthorityError>)
        ensures
            r == if self == AuthorityState::Maintenance {
                Ok::<(), AuthorityError>(())
            } else if self == AuthorityState::Fault {
                Err(AuthorityError::Faulted)
            } else {
                Err(AuthorityError::NotMaintenance)
            },
    {
        if self != AuthorityState::Maintenance {
            return Err(
                if self == AuthorityState::Fault {
                    AuthorityError::Faulted
                } else {
                    AuthorityError::NotMaintenance
                },
            );
        }
        Ok(())
    }

    /// Whether control output may be applied now.
    pub fn control_access(self) -> (r: Result<(), AuthorityError>)
        ensures
            r == if self == AuthorityState::Control {
                Ok::<(), AuthorityError>(())
            } else if self == AuthorityState::Fault {
                Err(AuthorityError::Faulted)
            } else {
                Err(AuthorityError::NotControl)
            },
    {
        if self != AuthorityState::Control {
            return Err(
                if self == AuthorityState::Fault {
                    AuthorityError::Faulted
                } else {
                    AuthorityError::NotControl
                },
            );
        }
        Ok(())
    }
}

/// Maintenance and control authority exclude each other: holding one, a
/// request for the other is refused as `Busy` without a state change.
pub proof fn lemma_maintenance_and_control_exclude(state: AuthorityState)
    requires
        state == AuthorityState::Maintenance || state == AuthorityState::Control,
    ensures
        spec_enter(state, AuthorityState::Maintenance) == (state, Err::<(), AuthorityError>(
            AuthorityError::Busy,
        )),
        spec_enter(state, AuthorityState::Control) == (state, Err::<(), AuthorityError>(
            AuthorityError::Busy,
        )),
{
}

} // verus!
