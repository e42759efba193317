//! Supervisor-side command safety gate: profile, reasons, and the fail-closed
//! history checks.
//!
//! Magnitude and slew clamps are floating-point; whether a command may be
//! evaluated at all, and against what history, is decided here.
use vstd::prelude::*;

use crate::flags::{has8, is_bit8, lemma_with8};
use crate::robot_domain::TimestampUs;

verus! {

#[derive(Clone, Copy, Debug, PartialEq, Eq, Structural)]
pub enum SafetyProfileKind {
    Commissioning,
    Simulation,
}

/// Set of reasons for which a requested command was constrained.
#[derive(Clone, Copy, Debug, PartialEq, Eq, Structural)]
pub struct CommandConstraintReasons(u8);

impl View for CommandConstraintReasons {
    type V = u8;

    closed spec fn view(&self) -> u8 {
        self.0
    }
}

impl Default for CommandConstraintReasons {
    fn default() -> (r: Self)
        ensures
            r@ == 0,
    {
        CommandConstraintReasons(0)
    }
}

pub open spec fn constraint_magnitude() -> u8 {
    0x1
}

pub open spec fn constraint_slew() -> u8 {
    0x2
}

impl CommandConstraintReasons {
    pub fn none() -> (r: Self)
        ensures
            r@ == 0,
    {
        CommandConstraintReasons(0)
    }

    pub fn magnitude() -> (r: Self)
        ensures
            r@ == constraint_magnitude(),
    {
        CommandConstraintReasons(0x1)
    }

    pub fn slew() -> (r: Self)
        ensures
            r@ == constraint_slew(),
    {
        CommandConstraintReasons(0x2)
    }

    pub fn bits(self) -> (b: u8)
        ensures
            b == self@,
    {
        self.0
    }

    pub fn is_empty(self) -> (b: bool)
        ensures
            b == (self@ == 0),
    {
        self.0 == 0
    }

    pub fn contains(self, other: Self) -> (b: bool)
        ensures
            b == has8(self@, other@),
    {
        self.0 & other.0 == other.0
    }

    /// The reasons together with `other`.
    pub fn with(self, other: Self) -> (r: Self)
        requires
            is_bit8(other@),
        ensures
            r@ == self@ | other@,
            r@ != 0,
            forall|g: u8| is_bit8(g) ==> #[trigger] has8(r@, g) == (has8(self@, g) || other@ == g),
    {
        proof {
            lemma_with8(self@, other@);
        }
        CommandConstraintReasons(self.0 | other.0)
    }
}

#[derive(Clone, Copy, Debug, PartialEq, Eq, Structural)]
pub enum CommandSafetyError {
    Unconfigured,
    NonMonotonicTimestamp,
}

/// Slew window of a command issued at `timestamp`.
#[derive(Clone, Copy, Debug, PartialEq, Eq, Structural)]
pub enum SlewWindow {
    /// No history since configure/reset: the command starts from zero
    /// authority.
    FromZero,
    /// Microseconds elapsed since the previous accepted command.
    Elapsed(u64),
}

/// The history check that precedes every constrained command: an
/// unconfigured gate fails closed, and a timestamp earlier than the previous
/// accepted one is refused (without advancing the history).
pub fn slew_window(
    configured: bool,
    last_timestamp: Option<TimestampUs>,
    timestamp: TimestampUs,
) -> (w: Result<SlewWindow, CommandSafetyError>)
    ensures
        !configured ==> w == Err::<SlewWindow, CommandSafetyError>(
            CommandSafetyError::Unconfigured,
        ),
        configured ==> match last_timestamp {
            None => w == Ok::<SlewWindow, CommandSafetyError>(SlewWindow::FromZero),
            Some(prev) => if timestamp.0 < prev.0 {
                w == Err::<SlewWindow, CommandSafetyError>(
                    CommandSafetyError::NonMonotonicTimestamp,
                )
            } else {
                w == Ok::<SlewWindow, CommandSafetyError>(
                    SlewWindow::Elapsed((timestamp.0 - prev.0) as u64),
                )
            },
        },
{
    if !configured {
        return Err(CommandSafetyError::Unconfigured);
    }
    match last_timestamp {
        None => Ok(SlewWindow::FromZero),
        Some(previous) => {
            if timestamp.0 < previous.0 {
                Err(CommandSafetyError::NonMonotonicTimestamp)
            } else {
                Ok(SlewWindow::Elapsed(timestamp.0 - previous.0))
            }
        },
    }
}

} // verus!
