//! Closed-loop request and configuration decisions of the control runtime.
//!
//! The runtime composes floating-point estimation, control and actuator
//! models; which operator requests are accepted in which runtime state is
//! decided here.
use vstd::prelude::*;

use crate::robot_domain::StateValidity;
use crate::runtime_state::{
    admission_allowed, authority_denied, run_permit_allowed, AdmissionContext, AuthorityContext, AdmissionDecision, AuthorityMode,
    ClosedLoopRequest, RunPermitContext, RunPermitDecision, RuntimeAuthority, RuntimePolicy,
    RuntimeState, SensorTimingHealth, WatchdogHealth,
};

verus! {

#[derive(Clone, Copy, Debug, PartialEq, Eq, Structural)]
pub enum ClosedLoopRequestError {
    NotReady,
    AlreadyActive,
    Faulted,
    OutputSafetyUnconfigured,
}

#[derive(Clone, Copy, Debug, PartialEq, Eq, Structural)]
pub enum CommandSafetyConfigError {
    ClosedLoopActive,
    Faulted,
}

/// Result of a closed-loop request in `state`.
pub open spec fn closed_loop_request_spec(state: RuntimeState, output_safety_configured: bool) -> Result<
    (),
    ClosedLoopRequestError,
> {
    match state {
        RuntimeState::Ready => if output_safety_configured {
            Ok(())
        } else {
            Err(ClosedLoopRequestError::OutputSafetyUnconfigured)
        },
        RuntimeState::Active(_) => Err(ClosedLoopRequestError::AlreadyActive),
        RuntimeState::Fault(_) => Err(ClosedLoopRequestError::Faulted),
        RuntimeState::Disabled => Err(ClosedLoopRequestError::NotReady),
    }
}

/// Result of an output-safety reconfiguration in `state`.
pub open spec fn command_safety_config_spec(state: RuntimeState) -> Result<
    (),
    CommandSafetyConfigError,
> {
    match state {
        RuntimeState::Active(_) => Err(CommandSafetyConfigError::ClosedLoopActive),
        RuntimeState::Fault(_) => Err(CommandSafetyConfigError::Faulted),
        _ => Ok(()),
    }
}

/// Whether a closed-loop request is accepted: only from Ready, and only once
/// output safety has been configured.
pub fn closed_loop_request_decision(state: RuntimeState, output_safety_configured: bool) -> (r:
    Result<(), ClosedLoopRequestError>)
    ensures
        r == match state {
            RuntimeState::Ready => if output_safety_configured {
                Ok::<(), ClosedLoopRequestError>(())
            } else {
                Err(ClosedLoopRequestError::OutputSafetyUnconfigured)
            },
            RuntimeState::Active(_) => Err(ClosedLoopRequestError::AlreadyActive),
            RuntimeState::Fault(_) => Err(ClosedLoopRequestError::Faulted),
            RuntimeState::Disabled => Err(ClosedLoopRequestError::NotReady),
        },
{
    match state {
        RuntimeState::Ready => {
            if !output_safety_configured {
                return Err(ClosedLoopRequestError::OutputSafetyUnconfigured);
            }
            Ok(())
        },
        RuntimeState::Active(_) => Err(ClosedLoopRequestError::AlreadyActive),
        RuntimeState::Fault(_) => Err(ClosedLoopRequestError::Faulted),
        RuntimeState::Disabled => Err(ClosedLoopRequestError::NotReady),
    }
}

/// Whether output safety may be (re)configured: never while closed loop is
/// active or faulted.
pub fn command_safety_config_decision(state: RuntimeState) -> (r: Result<
    (),
    CommandSafetyConfigError,
>)
    ensures
        r == match state {
            RuntimeState::Active(_) => Err(CommandSafetyConfigError::ClosedLoopActive),
            RuntimeState::Fault(_) => Err(CommandSafetyConfigError::Faulted),
            _ => Ok::<(), CommandSafetyConfigError>(()),
        },
{
    match state {
        RuntimeState::Active(_) => Err(CommandSafetyConfigError::ClosedLoopActive),
        RuntimeState::Fault(_) => Err(CommandSafetyConfigError::Faulted),
        RuntimeState::Ready | RuntimeState::Disabled => Ok(()),
    }
}

/// Return from Disabled to Ready; any other state is kept and reported.
pub fn enable_ready_transition(state: RuntimeState) -> (r: (RuntimeState, bool))
    ensures
        r == if state == RuntimeState::Disabled {
            (RuntimeState::Ready, true)
        } else {
            (state, false)
        },
{
    if state == RuntimeState::Disabled {
        (RuntimeState::Ready, true)
    } else {
        (state, false)
    }
}

/// State after closed-loop authority is released: Active falls back to the
/// non-actuating Ready state, any other state is kept.
pub fn released_state(state: RuntimeState) -> (r: RuntimeState)
    ensures
        r == if state is Active {
            RuntimeState::Ready
        } else {
            state
        },
{
    if matches!(state, RuntimeState::Active(_)) {
        RuntimeState::Ready
    } else {
        state
    }
}


/// Where one cycle's command goes once the supervisor has seen the cycle's
/// evidence.
#[derive(Clone, Copy, Debug, PartialEq, Eq, Structural)]
pub enum CommandRoute {
    /// The sample failed runtime qualification: no command is computed.
    Reject,
    /// Closed loop is not active: the mapped command goes to authority as it is.
    Direct,
    /// Closed loop is active: the command passes output safety first, and an
    /// output-safety error releases closed loop.
    Constrain,
}

pub open spec fn spec_command_route(state: RuntimeState, qualified: bool) -> CommandRoute {
    if !qualified {
        CommandRoute::Reject
    } else if state is Active {
        CommandRoute::Constrain
    } else {
        CommandRoute::Direct
    }
}

/// Per-cycle evidence that admission and the run permit read.
#[derive(Clone, Copy, Debug, PartialEq, Eq, Structural)]
pub struct LoopEvidence {
    pub timing: SensorTimingHealth,
    pub watchdog: WatchdogHealth,
    pub estimate_validity: StateValidity,
    pub runtime_qualified: bool,
}

/// Closed-loop intent, admission, run permit and physical-output authority
/// of the control runtime.
///
/// Authority is never directly mutable from outside: a caller submits an
/// explicit request; admission and the continuous run permit then own the
/// Ready -> Active transition and every release. Whenever this type releases
/// closed-loop authority, the caller must also reset its output-safety slew
/// history.
#[derive(Clone, Copy, Debug, PartialEq, Eq, Structural)]
pub struct ClosedLoopSupervisor {
    authority: RuntimeAuthority,
    runtime_state: RuntimeState,
    request: Option<ClosedLoopRequest>,
    last_admission: Option<AdmissionDecision>,
    last_run_permit: Option<RunPermitDecision>,
}

/// Authority mode and runtime state after closed-loop authority is released.
pub open spec fn released_mode(mode: AuthorityMode) -> AuthorityMode {
    if mode == AuthorityMode::Fault {
        AuthorityMode::Fault
    } else {
        AuthorityMode::Disarmed
    }
}

pub open spec fn spec_released_state(state: RuntimeState) -> RuntimeState {
    if state is Active {
        RuntimeState::Ready
    } else {
        state
    }
}

impl ClosedLoopSupervisor {
    pub closed spec fn spec_mode(self) -> AuthorityMode {
        self.authority.spec_mode()
    }

    pub closed spec fn spec_state(self) -> RuntimeState {
        self.runtime_state
    }

    pub closed spec fn spec_request(self) -> Option<ClosedLoopRequest> {
        self.request
    }

    pub closed spec fn spec_last_admission(self) -> Option<AdmissionDecision> {
        self.last_admission
    }

    pub closed spec fn spec_last_run_permit(self) -> Option<RunPermitDecision> {
        self.last_run_permit
    }

    /// Active exactly while closed-loop authority is held.
    pub open spec fn wf(self) -> bool {
        (self.spec_state() is Active) == (self.spec_mode() == AuthorityMode::ClosedLoop)
    }

    /// Ready, disarmed, with no request.
    pub fn new() -> (s: Self)
        ensures
            s.wf(),
            s.spec_state() == RuntimeState::Ready,
            s.spec_mode() == AuthorityMode::Disarmed,
            s.spec_request() is None,
            s.spec_last_admission() is None,
            s.spec_last_run_permit() is None,
    {
        ClosedLoopSupervisor {
            authority: RuntimeAuthority::new(),
            runtime_state: RuntimeState::Ready,
            request: None,
            last_admission: None,
            last_run_permit: None,
        }
    }

    pub fn runtime_state(&self) -> (r: RuntimeState)
        ensures
            r == self.spec_state(),
    {
        self.runtime_state
    }

    pub fn authority(&self) -> (a: RuntimeAuthority)
        ensures
            a.spec_mode() == self.spec_mode(),
    {
        self.authority
    }

    pub fn closed_loop_requested(&self) -> (b: bool)
        ensures
            b == self.spec_request() is Some,
    {
        self.request.is_some()
    }

    pub fn last_admission_decision(&self) -> (d: Option<AdmissionDecision>)
        ensures
            d == self.spec_last_admission(),
    {
        self.last_admission
    }

    pub fn last_run_permit_decision(&self) -> (d: Option<RunPermitDecision>)
        ensures
            d == self.spec_last_run_permit(),
    {
        self.last_run_permit
    }

    /// Record explicit intent to enter closed loop. A request changes neither
    /// the runtime state nor authority; it stays pending until admitted.
    pub fn request_closed_loop(
        &mut self,
        request: ClosedLoopRequest,
        output_safety_configured: bool,
    ) -> (r: Result<(), ClosedLoopRequestError>)
        requires
            old(self).wf(),
        ensures
            final(self).wf(),
            r == closed_loop_request_spec(old(self).spec_state(), output_safety_configured),
            final(self).spec_request() == if r is Ok {
                Some(request)
            } else {
                old(self).spec_request()
            },
            final(self).spec_state() == old(self).spec_state(),
            final(self).spec_mode() == old(self).spec_mode(),
            final(self).spec_last_admission() == old(self).spec_last_admission(),
            final(self).spec_last_run_permit() == old(self).spec_last_run_permit(),
    {
        let r = closed_loop_request_decision(self.runtime_state, output_safety_configured);
        if r.is_ok() {
            self.request = Some(request);
        }
        r
    }

    /// Where this cycle's command goes, once `update` has seen the cycle's
    /// evidence.
    pub fn command_route(&self, qualified: bool) -> (r: CommandRoute)
        ensures
            r == spec_command_route(self.spec_state(), qualified),
    {
        if !qualified {
            CommandRoute::Reject
        } else if matches!(self.runtime_state, RuntimeState::Active(_)) {
            CommandRoute::Constrain
        } else {
            CommandRoute::Direct
        }
    }

    /// Whether output safety may be reconfigured now.
    pub fn command_safety_config_allowed(&self) -> (r: Result<(), CommandSafetyConfigError>)
        ensures
            r == command_safety_config_spec(self.spec_state()),
    {
        command_safety_config_decision(self.runtime_state)
    }

    /// Release closed-loop authority after a runtime loss: the request is
    /// dropped, authority released, and an Active runtime returns to Ready.
    pub fn release_after_runtime_loss(&mut self)
        requires
            old(self).wf(),
        ensures
            final(self).wf(),
            final(self).spec_request() is None,
            final(self).spec_mode() == released_mode(old(self).spec_mode()),
            final(self).spec_state() == spec_released_state(old(self).spec_state()),
            final(self).spec_last_admission() == old(self).spec_last_admission(),
            final(self).spec_last_run_permit() == old(self).spec_last_run_permit(),
    {
        self.request = None;
        self.release_authority();
    }

    /// Explicitly cancel pending or active closed-loop intent.
    pub fn cancel_closed_loop(&mut self)
        requires
            old(self).wf(),
        ensures
            final(self).wf(),
            final(self).spec_request() is None,
            final(self).spec_last_admission() is None,
            final(self).spec_last_run_permit() is None,
            final(self).spec_mode() == released_mode(old(self).spec_mode()),
            final(self).spec_state() == spec_released_state(old(self).spec_state()),
    {
        self.request = None;
        self.last_admission = None;
        self.last_run_permit = None;
        self.release_authority();
    }

    /// Enter the fail-closed Disabled state, releasing non-fault authority.
    pub fn disable(&mut self)
        requires
            old(self).wf(),
        ensures
            final(self).wf(),
            final(self).spec_state() == RuntimeState::Disabled,
            final(self).spec_request() is None,
            final(self).spec_last_admission() is None,
            final(self).spec_last_run_permit() is None,
            final(self).spec_mode() == released_mode(old(self).spec_mode()),
    {
        self.cancel_closed_loop();
        self.runtime_state = RuntimeState::Disabled;
    }

    /// Return from Disabled to the non-actuating Ready state.
    pub fn enable_ready(&mut self) -> (changed: bool)
        requires
            old(self).wf(),
        ensures
            final(self).wf(),
            changed == (old(self).spec_state() == RuntimeState::Disabled),
            final(self).spec_state() == if changed {
                RuntimeState::Ready
            } else {
                old(self).spec_state()
            },
            final(self).spec_mode() == old(self).spec_mode(),
            final(self).spec_request() == old(self).spec_request(),
            final(self).spec_last_admission() == old(self).spec_last_admission(),
            final(self).spec_last_run_permit() == old(self).spec_last_run_permit(),
    {
        let (state, changed) = enable_ready_transition(self.runtime_state);
        self.runtime_state = state;
        changed
    }

    /// A re-primed estimator leaves no fresh state for continuous control:
    /// active authority does not survive it. Returns whether authority was
    /// released.
    pub fn on_estimator_reprime(&mut self) -> (released: bool)
        requires
            old(self).wf(),
        ensures
            final(self).wf(),
            released == old(self).spec_state() is Active,
            released ==> final(self).spec_request() is None && final(self).spec_state()
                == RuntimeState::Ready && final(self).spec_mode() == AuthorityMode::Disarmed,
            !released ==> *final(self) == *old(self),
            final(self).spec_last_admission() == old(self).spec_last_admission(),
            final(self).spec_last_run_permit() == old(self).spec_last_run_permit(),
    {
        if matches!(self.runtime_state, RuntimeState::Active(_)) {
            self.release_after_runtime_loss();
            true
        } else {
            false
        }
    }

    /// Advance closed-loop state for one computed cycle. While Active, the run
    /// permit is re-evaluated and its loss releases authority. From Ready, a
    /// pending request is judged for admission; an admitted request takes
    /// closed-loop authority and becomes Active in the requested regime.
    /// Returns whether authority was released.
    pub fn update(&mut self, evidence: LoopEvidence, within_boundary: Option<bool>) -> (released:
        bool)
        requires
            old(self).wf(),
        ensures
            final(self).wf(),
            ({
                let o = *old(self);
                let f = *final(self);
                let permit = |state: RuntimeState, mode: AuthorityMode| run_permit_allowed(
                    run_permit_context(state, mode, evidence),
                );
                if o.spec_state() is Active {
                    &&& f.spec_last_admission() is None
                    &&& f.spec_last_run_permit() == Some(
                        RunPermitDecision { allowed: permit(o.spec_state(), o.spec_mode()) },
                    )
                    &&& released == !permit(o.spec_state(), o.spec_mode())
                    &&& released ==> f.spec_request() is None && f.spec_state()
                        == RuntimeState::Ready && f.spec_mode() == AuthorityMode::Disarmed
                    &&& !released ==> f.spec_request() == o.spec_request() && f.spec_state()
                        == o.spec_state() && f.spec_mode() == o.spec_mode()
                } else if o.spec_state() != RuntimeState::Ready || o.spec_request() is None {
                    &&& !released
                    &&& f.spec_last_admission() is None
                    &&& f.spec_last_run_permit() is None
                    &&& f.spec_request() == o.spec_request()
                    &&& f.spec_state() == o.spec_state()
                    &&& f.spec_mode() == o.spec_mode()
                } else {
                    let admitted = admission_allowed(
                        within_boundary,
                        admission_context(o.spec_state(), o.spec_mode(), evidence),
                    );
                    &&& !released
                    &&& f.spec_last_admission() == Some(AdmissionDecision { allowed: admitted })
                    &&& f.spec_request() == o.spec_request()
                    &&& admitted ==> f.spec_state() == RuntimeState::Active(
                        o.spec_request().unwrap().spec_regime(),
                    ) && f.spec_mode() == AuthorityMode::ClosedLoop && f.spec_last_run_permit()
                        == Some(RunPermitDecision { allowed: true })
                    &&& !admitted ==> f.spec_state() == o.spec_state() && f.spec_mode()
                        == o.spec_mode() && f.spec_last_run_permit() is None
                }
            }),
    {
        self.last_admission = None;
        self.last_run_permit = None;

        if matches!(self.runtime_state, RuntimeState::Active(_)) {
            let permit = RuntimePolicy::run_permit(
                run_permit_context_of(self.runtime_state, self.authority.mode(), evidence),
            );
            self.last_run_permit = Some(permit);
            if !permit.allowed {
                self.release_after_runtime_loss();
                return true;
            }
            return false;
        }
        if self.runtime_state != RuntimeState::Ready {
            return false;
        }
        let request = match self.request {
            Some(request) => request,
            None => {
                return false;
            },
        };
        let admission = RuntimePolicy::admission(
            within_boundary,
            admission_context_of(self.runtime_state, self.authority.mode(), evidence),
        );
        self.last_admission = Some(admission);
        if !admission.allowed {
            return false;
        }
        // Admission proved disarmed authority, so entering closed loop succeeds.
        let entered = self.authority.enter_closed_loop();
        if entered.is_err() {
            return false;
        }
        self.runtime_state = RuntimeState::Active(request.regime());
        let permit = RuntimePolicy::run_permit(
            run_permit_context_of(self.runtime_state, self.authority.mode(), evidence),
        );
        self.last_run_permit = Some(permit);
        if !permit.allowed {
            self.release_after_runtime_loss();
            return true;
        }
        false
    }

    fn release_authority(&mut self)
        requires
            old(self).wf(),
        ensures
            final(self).wf(),
            final(self).spec_mode() == released_mode(old(self).spec_mode()),
            final(self).spec_state() == spec_released_state(old(self).spec_state()),
            final(self).spec_request() == old(self).spec_request(),
            final(self).spec_last_admission() == old(self).spec_last_admission(),
            final(self).spec_last_run_permit() == old(self).spec_last_run_permit(),
    {
        self.authority.release();
        self.runtime_state = released_state(self.runtime_state);
    }
}

pub open spec fn run_permit_context(
    state: RuntimeState,
    mode: AuthorityMode,
    e: LoopEvidence,
) -> RunPermitContext {
    RunPermitContext {
        runtime_state: state,
        timing: e.timing,
        watchdog: e.watchdog,
        estimate_validity: e.estimate_validity,
        runtime_qualified: e.runtime_qualified,
        authority_mode: mode,
    }
}

pub open spec fn admission_context(
    state: RuntimeState,
    mode: AuthorityMode,
    e: LoopEvidence,
) -> AdmissionContext {
    AdmissionContext {
        runtime_state: state,
        timing: e.timing,
        watchdog: e.watchdog,
        estimate_validity: e.estimate_validity,
        runtime_qualified: e.runtime_qualified,
        authority_mode: mode,
    }
}

fn run_permit_context_of(state: RuntimeState, mode: AuthorityMode, e: LoopEvidence) -> (c:
    RunPermitContext)
    ensures
        c == run_permit_context(state, mode, e),
{
    RunPermitContext {
        runtime_state: state,
        timing: e.timing,
        watchdog: e.watchdog,
        estimate_validity: e.estimate_validity,
        runtime_qualified: e.runtime_qualified,
        authority_mode: mode,
    }
}

fn admission_context_of(state: RuntimeState, mode: AuthorityMode, e: LoopEvidence) -> (c:
    AdmissionContext)
    ensures
        c == admission_context(state, mode, e),
{
    AdmissionContext {
        runtime_state: state,
        timing: e.timing,
        watchdog: e.watchdog,
        estimate_validity: e.estimate_validity,
        runtime_qualified: e.runtime_qualified,
        authority_mode: mode,
    }
}

/// Authority authorizes only a command that went through output safety: a
/// context that authority does not deny is one whose route is `Constrain`.
pub proof fn lemma_authorized_command_was_constrained(mode: AuthorityMode, context: AuthorityContext)
    requires
        !authority_denied(mode, context),
    ensures
        spec_command_route(context.runtime_state, context.runtime_qualified)
            == CommandRoute::Constrain,
{
}

/// An admitted request always enters closed loop with a granted run permit:
/// admission demands everything the run permit does, and disarmed authority.
pub proof fn lemma_admission_implies_run_permit(
    within_boundary: Option<bool>,
    evidence: LoopEvidence,
    regime: crate::hybrid_control::ControlRegime,
)
    requires
        admission_allowed(
            within_boundary,
            admission_context(RuntimeState::Ready, AuthorityMode::Disarmed, evidence),
        ),
    ensures
        run_permit_allowed(
            run_permit_context(RuntimeState::Active(regime), AuthorityMode::ClosedLoop, evidence),
        ),
{
}

} // verus!
