//! Hybrid control regimes and the capture/balance regime sequencing.
//!
//! The energy swing-up law, LQR blending and balance reference trajectories
//! work on floating-point state; what is decided here is the regime sequence,
//! from the threshold evidence that the numeric layer reports.
use vstd::prelude::*;

verus! {

/// Which control law currently owns the arm torque demand.
#[derive(Debug, Clone, Copy, PartialEq, Eq, Structural)]
pub enum ControlRegime {
    SwingUp,
    Capture,
    Balance,
}

#[derive(Debug, Clone, Copy, PartialEq, Eq, Structural)]
pub enum SwingUpError {
    InvalidConfig,
    InvalidState,
    Numeric,
}

#[derive(Debug, Clone, Copy, PartialEq, Eq, Structural)]
pub enum CapturePolicyError {
    InvalidConfig,
    InvalidState,
}

/// Phase of the optional moving arm reference used in Balance.
#[derive(Debug, Clone, Copy, PartialEq, Eq, Structural)]
pub enum BalanceReferencePhase {
    SpinDown,
    Recenter,
    Hold,
}

/// Diagnostic name of a balance reference phase.
pub open spec fn phase_name(phase: BalanceReferencePhase) -> Seq<char> {
    match phase {
        BalanceReferencePhase::SpinDown => "spin_down"@,
        BalanceReferencePhase::Recenter => "recenter"@,
        BalanceReferencePhase::Hold => "hold"@,
    }
}

impl BalanceReferencePhase {
    pub fn as_str(self) -> (s: &'static str)
        ensures
            s@ == phase_name(self),
    {
        match self {
            BalanceReferencePhase::SpinDown => "spin_down",
            BalanceReferencePhase::Recenter => "recenter",
            BalanceReferencePhase::Hold => "hold",
        }
    }
}

/// Threshold evidence of one valid, finite estimated state against the
/// capture policy thresholds.
///
/// `within_*_angle` means `|theta|` is at most that angle threshold;
/// `within_balance_*` means both `|theta|` and `|theta_dot|` are inside the
/// respective balance angle and rate thresholds.
#[derive(Debug, Clone, Copy, PartialEq, Eq, Structural)]
pub struct CaptureEvidence {
    pub within_capture_enter_angle: bool,
    pub within_capture_exit_angle: bool,
    pub within_balance_enter: bool,
    pub within_balance_exit: bool,
}

/// The regime and settle counter that follow one update.
pub open spec fn next_capture_state(
    regime: ControlRegime,
    settled_cycles: u16,
    settle_cycles: u16,
    e: CaptureEvidence,
) -> (ControlRegime, u16) {
    match regime {
        ControlRegime::SwingUp => if e.within_capture_enter_angle {
            (ControlRegime::Capture, 0)
        } else {
            (ControlRegime::SwingUp, settled_cycles)
        },
        ControlRegime::Capture => if !e.within_capture_exit_angle {
            (ControlRegime::SwingUp, 0)
        } else if e.within_balance_enter {
            let counted = if settled_cycles == u16::MAX {
                u16::MAX
            } else {
                (settled_cycles + 1) as u16
            };
            if counted >= settle_cycles {
                (ControlRegime::Balance, 0)
            } else {
                (ControlRegime::Capture, counted)
            }
        } else {
            (ControlRegime::Capture, 0)
        },
        ControlRegime::Balance => if !e.within_capture_exit_angle {
            (ControlRegime::SwingUp, 0)
        } else if !e.within_balance_exit {
            (ControlRegime::Capture, 0)
        } else {
            (ControlRegime::Balance, settled_cycles)
        },
    }
}

/// Regime state of the capture policy: SwingUp -> Capture -> Balance with
/// angle hysteresis and settle-cycle qualification.
#[derive(Debug, Clone, Copy, PartialEq, Eq, Structural)]
pub struct CaptureRegimeTracker {
    regime: ControlRegime,
    settled_cycles: u16,
    settle_cycles: u16,
}

impl CaptureRegimeTracker {
    pub closed spec fn spec_regime(self) -> ControlRegime {
        self.regime
    }

    pub closed spec fn spec_settled_cycles(self) -> u16 {
        self.settled_cycles
    }

    pub closed spec fn spec_settle_cycles(self) -> u16 {
        self.settle_cycles
    }

    /// Invariant: the settle count requirement is positive, and the count of
    /// consecutive settled Capture updates stays below it (and is zero outside
    /// Capture).
    pub closed spec fn wf(self) -> bool {
        &&& self.settle_cycles > 0
        &&& self.settled_cycles < self.settle_cycles
        &&& self.regime != ControlRegime::Capture ==> self.settled_cycles == 0
    }

    /// A tracker that requires `settle_cycles` consecutive settled updates in
    /// Capture before Balance; `None` when that count is zero.
    pub fn new(settle_cycles: u16) -> (t: Option<Self>)
        ensures
            settle_cycles == 0 <==> t is None,
            t matches Some(t) ==> {
                &&& t.wf()
                &&& t.spec_regime() == ControlRegime::SwingUp
                &&& t.spec_settled_cycles() == 0
                &&& t.spec_settle_cycles() == settle_cycles
            },
    {
        if settle_cycles == 0 {
            None
        } else {
            Some(CaptureRegimeTracker { regime: ControlRegime::SwingUp, settled_cycles: 0, settle_cycles })
        }
    }

    pub fn regime(&self) -> (r: ControlRegime)
        ensures
            r == self.spec_regime(),
    {
        self.regime
    }

    pub fn settle_cycles(&self) -> (n: u16)
        ensures
            n == self.spec_settle_cycles(),
    {
        self.settle_cycles
    }

    /// Return to SwingUp with a cleared settle count.
    pub fn reset(&mut self)
        requires
            old(self).wf(),
        ensures
            final(self).wf(),
            final(self).spec_regime() == ControlRegime::SwingUp,
            final(self).spec_settled_cycles() == 0,
            final(self).spec_settle_cycles() == old(self).spec_settle_cycles(),
    {
        self.regime = ControlRegime::SwingUp;
        self.settled_cycles = 0;
    }

    /// Advance the regime by one valid estimated state's threshold evidence.
    pub fn update(&mut self, evidence: CaptureEvidence) -> (r: ControlRegime)
        requires
            old(self).wf(),
        ensures
            final(self).wf(),
            (r, final(self).spec_settled_cycles()) == next_capture_state(
                old(self).spec_regime(),
                old(self).spec_settled_cycles(),
                old(self).spec_settle_cycles(),
                evidence,
            ),
            final(self).spec_regime() == r,
            final(self).spec_settle_cycles() == old(self).spec_settle_cycles(),
    {
        self.regime = match self.regime {
            ControlRegime::SwingUp => {
                if evidence.within_capture_enter_angle {
                    self.settled_cycles = 0;
                    ControlRegime::Capture
                } else {
                    ControlRegime::SwingUp
                }
            },
            ControlRegime::Capture => {
                if !evidence.within_capture_exit_angle {
                    self.settled_cycles = 0;
                    ControlRegime::SwingUp
                } else if evidence.within_balance_enter {
                    self.settled_cycles = self.settled_cycles.saturating_add(1);
                    if self.settled_cycles >= self.settle_cycles {
                        self.settled_cycles = 0;
                        ControlRegime::Balance
                    } else {
                        ControlRegime::Capture
                    }
                } else {
                    self.settled_cycles = 0;
                    ControlRegime::Capture
                }
            },
            ControlRegime::Balance => {
                if !evidence.within_capture_exit_angle {
                    self.settled_cycles = 0;
                    ControlRegime::SwingUp
                } else if !evidence.within_balance_exit {
                    self.settled_cycles = 0;
                    ControlRegime::Capture
                } else {
                    ControlRegime::Balance
                }
            },
        };
        self.regime
    }
}

/// Balance is never entered directly from SwingUp: one update from SwingUp
/// leads to SwingUp or Capture.
pub proof fn lemma_swing_up_never_jumps_to_balance(
    settled_cycles: u16,
    settle_cycles: u16,
    e: CaptureEvidence,
)
    ensures
        next_capture_state(ControlRegime::SwingUp, settled_cycles, settle_cycles, e).0
            != ControlRegime::Balance,
{
}

/// Capture entry depends on the capture-enter angle alone: from SwingUp the
/// next regime is Capture exactly when the angle is within that threshold,
/// whatever the other evidence says.
pub proof fn lemma_capture_entry_is_angle_only(
    settled_cycles: u16,
    settle_cycles: u16,
    e: CaptureEvidence,
)
    ensures
        (next_capture_state(ControlRegime::SwingUp, settled_cycles, settle_cycles, e).0
            == ControlRegime::Capture) == e.within_capture_enter_angle,
{
}

/// Balance that leaves its exit window while the angle stays inside the
/// capture exit angle falls back to Capture, not SwingUp.
pub proof fn lemma_balance_falls_back_to_capture_first(
    settled_cycles: u16,
    settle_cycles: u16,
    e: CaptureEvidence,
)
    requires
        e.within_capture_exit_angle,
        !e.within_balance_exit,
    ensures
        next_capture_state(ControlRegime::Balance, settled_cycles, settle_cycles, e).0
            == ControlRegime::Capture,
{
}

/// A balanced pendulum stays balanced: from Balance, evidence inside the
/// capture exit angle and inside the balance exit window keeps Balance, with
/// the settle count unchanged.
pub proof fn lemma_balance_holds_while_in_window(
    settled_cycles: u16,
    settle_cycles: u16,
    e: CaptureEvidence,
)
    requires
        e.within_capture_exit_angle,
        e.within_balance_exit,
    ensures
        next_capture_state(ControlRegime::Balance, settled_cycles, settle_cycles, e) == (
            ControlRegime::Balance,
            settled_cycles,
        ),
{
}

/// Capture holds while the angle stays inside the capture exit angle and the
/// state is not settled, and the settle count restarts from zero.
pub proof fn lemma_capture_holds_unsettled(
    settled_cycles: u16,
    settle_cycles: u16,
    e: CaptureEvidence,
)
    requires
        e.within_capture_exit_angle,
        !e.within_balance_enter,
    ensures
        next_capture_state(ControlRegime::Capture, settled_cycles, settle_cycles, e) == (
            ControlRegime::Capture,
            0u16,
        ),
{
}

/// SwingUp holds while the angle is outside the capture enter angle.
pub proof fn lemma_swing_up_holds_outside_capture(
    settled_cycles: u16,
    settle_cycles: u16,
    e: CaptureEvidence,
)
    requires
        !e.within_capture_enter_angle,
    ensures
        next_capture_state(ControlRegime::SwingUp, settled_cycles, settle_cycles, e).0
            == ControlRegime::SwingUp,
{
}

/// Any state outside the capture exit angle returns every regime to SwingUp.
pub proof fn lemma_capture_exit_angle_returns_to_swing_up(
    regime: ControlRegime,
    settled_cycles: u16,
    settle_cycles: u16,
    e: CaptureEvidence,
)
    requires
        !e.within_capture_exit_angle,
        !e.within_capture_enter_angle || regime != ControlRegime::SwingUp,
    ensures
        next_capture_state(regime, settled_cycles, settle_cycles, e).0 == ControlRegime::SwingUp,
{
}

/// Capture reaches Balance only after `settle_cycles` consecutive settled
/// updates: a tracker in Capture with `k` settled updates so far stays in
/// Capture on a settled update unless `k + 1` reaches the requirement, and
/// any unsettled update clears the count.
pub proof fn lemma_balance_requires_settled_cycles(
    t: CaptureRegimeTracker,
    e: CaptureEvidence,
)
    requires
        t.wf(),
        t.spec_regime() == ControlRegime::Capture,
        e.within_capture_exit_angle,
    ensures
        ({
            let (next, count) = next_capture_state(
                t.spec_regime(),
                t.spec_settled_cycles(),
                t.spec_settle_cycles(),
                e,
            );
            &&& next == ControlRegime::Balance <==> (e.within_balance_enter
                && t.spec_settled_cycles() + 1 >= t.spec_settle_cycles())
            &&& !e.within_balance_enter ==> count == 0
            &&& next == ControlRegime::Capture && e.within_balance_enter ==> count
                == t.spec_settled_cycles() + 1
        }),
{
    reveal(CaptureRegimeTracker::wf);
}

} // verus!
