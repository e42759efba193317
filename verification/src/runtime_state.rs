//! Runtime policy, sensor timing, watchdog and physical-output authority.
use vstd::prelude::*;

use crate::actuator_model::BoundedActuatorCommand;
use crate::flags::{has16, is_bit16, lemma_with16};
use crate::hybrid_control::ControlRegime;
use crate::robot_domain::StateValidity;

verus! {

#[derive(Debug, Clone, Copy, PartialEq, Eq, Structural)]
pub enum FaultReason {
    Sensor,
    Estimator,
    RuntimeQualification,
    Authority,
    Watchdog,
}

/// Operational permission, kept separate from the control regime.
#[derive(Debug, Clone, Copy, PartialEq, Eq, Structural)]
pub enum RuntimeState {
    Disabled,
    Ready,
    Active(ControlRegime),
    Fault(FaultReason),
}

// ---------------------------------------------------------------------------
// Runtime qualification
// ---------------------------------------------------------------------------

/// Set of reasons for which one runtime sample was not qualified.
#[derive(Debug, Clone, Copy, PartialEq, Eq, Structural)]
pub struct QualificationReasons(u16);

impl View for QualificationReasons {
    type V = u16;

    closed spec fn view(&self) -> u16 {
        self.0
    }
}

pub open spec fn qualification_limit_config() -> u16 {
    0x1
}

pub open spec fn qualification_sensor_invalid() -> u16 {
    0x2
}

pub open spec fn qualification_estimate_not_ready() -> u16 {
    0x4
}

pub open spec fn qualification_state_nonfinite() -> u16 {
    0x8
}

pub open spec fn qualification_sample_timeout() -> u16 {
    0x10
}

pub open spec fn qualification_theta_limit() -> u16 {
    0x20
}

pub open spec fn qualification_phi_limit() -> u16 {
    0x40
}

pub open spec fn qualification_theta_rate_limit() -> u16 {
    0x80
}

pub open spec fn qualification_phi_rate_limit() -> u16 {
    0x100
}

impl QualificationReasons {
    pub fn none() -> (r: Self)
        ensures
            r@ == 0,
    {
        QualificationReasons(0)
    }

    pub fn limit_config() -> (r: Self)
        ensures
            r@ == qualification_limit_config(),
    {
        QualificationReasons(0x1)
    }

    pub fn sensor_invalid() -> (r: Self)
        ensures
            r@ == qualification_sensor_invalid(),
    {
        QualificationReasons(0x2)
    }

    pub fn estimate_not_ready() -> (r: Self)
        ensures
            r@ == qualification_estimate_not_ready(),
    {
        QualificationReasons(0x4)
    }

    pub fn state_nonfinite() -> (r: Self)
        ensures
            r@ == qualification_state_nonfinite(),
    {
        QualificationReasons(0x8)
    }

    pub fn sample_timeout() -> (r: Self)
        ensures
            r@ == qualification_sample_timeout(),
    {
        QualificationReasons(0x10)
    }

    pub fn theta_limit() -> (r: Self)
        ensures
            r@ == qualification_theta_limit(),
    {
        QualificationReasons(0x20)
    }

    pub fn phi_limit() -> (r: Self)
        ensures
            r@ == qualification_phi_limit(),
    {
        QualificationReasons(0x40)
    }

    pub fn theta_rate_limit() -> (r: Self)
        ensures
            r@ == qualification_theta_rate_limit(),
    {
        QualificationReasons(0x80)
    }

    pub fn phi_rate_limit() -> (r: Self)
        ensures
            r@ == qualification_phi_rate_limit(),
    {
        QualificationReasons(0x100)
    }

    pub fn bits(self) -> (b: u16)
        ensures
            b == self@,
    {
        self.0
    }

    pub fn is_empty(self) -> (b: bool)
        ensures
            b == (self@ == 0),
    {
        self.0 == 0
    }

    pub fn contains(self, other: Self) -> (b: bool)
        ensures
            b == has16(self@, other@),
    {
        self.0 & other.0 == other.0
    }

    fn with(self, other: Self) -> (r: Self)
        requires
            is_bit16(other@),
        ensures
            r@ == self@ | other@,
            r@ != 0,
            forall|g: u16| is_bit16(g) ==> #[trigger] has16(r@, g) == (has16(self@, g) || other@ == g),
            self@ & !0x1ffu16 == 0 && other@ <= 0x100 ==> r@ & !0x1ffu16 == 0,
    {
        proof {
            lemma_with16(self@, other@);
            let (x, f) = (self@, other@);
            assert(x & !0x1ffu16 == 0 && is_bit16(f) && f <= 0x100 ==> (x | f)
                & !0x1ffu16 == 0) by (bit_vector);
        }
        QualificationReasons(self.0 | other.0)
    }
}

/// Result of qualifying one runtime sample.
#[derive(Debug, Clone, Copy, PartialEq, Eq, Structural)]
pub struct RuntimeQualification {
    pub allowed: bool,
    pub reasons: QualificationReasons,
}

/// What qualification reads of one estimated state, judged against the
/// configured state limits by the numeric layer.
#[derive(Debug, Clone, Copy, PartialEq, Eq, Structural)]
pub struct StateEvidence {
    pub validity: StateValidity,
    /// All four state components are finite.
    pub finite: bool,
    /// `|theta|` exceeds a configured theta limit.
    pub theta_exceeds: bool,
    /// `|phi|` exceeds a configured phi limit.
    pub phi_exceeds: bool,
    /// `|theta_dot|` exceeds a configured theta-rate limit.
    pub theta_dot_exceeds: bool,
    /// `|phi_dot|` exceeds a configured phi-rate limit.
    pub phi_dot_exceeds: bool,
}

/// What qualification reads of the runtime limits.
#[derive(Debug, Clone, Copy, PartialEq, Eq, Structural)]
pub struct RuntimeLimitEvidence {
    /// Every configured angle/rate limit is finite and positive.
    pub valid: bool,
    pub max_sample_age_us: Option<u64>,
}

/// The sample carries a valid estimate.
pub open spec fn estimate_ready(state: Option<StateEvidence>) -> bool {
    state matches Some(s) && s.validity == StateValidity::Valid
}

/// The sample carries a valid, finite estimate.
pub open spec fn estimate_usable(state: Option<StateEvidence>) -> bool {
    state matches Some(s) && s.validity == StateValidity::Valid && s.finite
}

/// The sample is older than the configured maximum age.
pub open spec fn sample_too_old(sample_age_us: u64, limits: RuntimeLimitEvidence) -> bool {
    limits.max_sample_age_us matches Some(m) && sample_age_us > m
}

/// Some qualification check failed.
pub open spec fn qualification_fails(
    state: Option<StateEvidence>,
    sensor_valid: bool,
    sample_age_us: u64,
    limits: RuntimeLimitEvidence,
) -> bool {
    ||| !limits.valid
    ||| !sensor_valid
    ||| sample_too_old(sample_age_us, limits)
    ||| !estimate_ready(state)
    ||| (estimate_ready(state) && !state.unwrap().finite)
    ||| (estimate_usable(state) && (state.unwrap().theta_exceeds || state.unwrap().phi_exceeds
        || state.unwrap().theta_dot_exceeds || state.unwrap().phi_dot_exceeds))
}

pub struct RuntimePolicy;

impl RuntimePolicy {
    /// Qualify one runtime sample; every failed check contributes its reason.
    pub fn qualify(
        state: Option<StateEvidence>,
        sensor_valid: bool,
        sample_age_us: u64,
        limits: RuntimeLimitEvidence,
    ) -> (q: RuntimeQualification)
        ensures
            has16(q.reasons@, qualification_limit_config()) == !limits.valid,
            has16(q.reasons@, qualification_sensor_invalid()) == !sensor_valid,
            has16(q.reasons@, qualification_sample_timeout()) == sample_too_old(
                sample_age_us,
                limits,
            ),
            has16(q.reasons@, qualification_estimate_not_ready()) == !estimate_ready(state),
            has16(q.reasons@, qualification_state_nonfinite()) == (estimate_ready(state)
                && !state.unwrap().finite),
            has16(q.reasons@, qualification_theta_limit()) == (estimate_usable(state)
                && state.unwrap().theta_exceeds),
            has16(q.reasons@, qualification_phi_limit()) == (estimate_usable(state)
                && state.unwrap().phi_exceeds),
            has16(q.reasons@, qualification_theta_rate_limit()) == (estimate_usable(state)
                && state.unwrap().theta_dot_exceeds),
            has16(q.reasons@, qualification_phi_rate_limit()) == (estimate_usable(state)
                && state.unwrap().phi_dot_exceeds),
            q.reasons@ & !0x1ffu16 == 0,
            (q.reasons@ == 0) == !qualification_fails(state, sensor_valid, sample_age_us, limits),
            q.allowed == (q.reasons@ == 0),
    {
        let mut reasons = QualificationReasons::none();
        proof {
            lemma_with16(0, 1);
            assert(0u16 & !0x1ffu16 == 0) by (bit_vector);
        }
        if !limits.valid {
            reasons = reasons.with(QualificationReasons::limit_config());
        }
        if !sensor_valid {
            reasons = reasons.with(QualificationReasons::sensor_invalid());
        }
        if let Some(max_age) = limits.max_sample_age_us {
            if sample_age_us > max_age {
                reasons = reasons.with(QualificationReasons::sample_timeout());
            }
        }
        match state {
            Some(state) => {
                if state.validity == StateValidity::Valid {
                    if !state.finite {
                        reasons = reasons.with(QualificationReasons::state_nonfinite());
                    } else {
                        if state.theta_exceeds {
                            reasons = reasons.with(QualificationReasons::theta_limit());
                        }
                        if state.phi_exceeds {
                            reasons = reasons.with(QualificationReasons::phi_limit());
                        }
                        if state.theta_dot_exceeds {
                            reasons = reasons.with(QualificationReasons::theta_rate_limit());
                        }
                        if state.phi_dot_exceeds {
                            reasons = reasons.with(QualificationReasons::phi_rate_limit());
                        }
                    }
                } else {
                    reasons = reasons.with(QualificationReasons::estimate_not_ready());
                }
            },
            None => {
                reasons = reasons.with(QualificationReasons::estimate_not_ready());
            },
        }
        RuntimeQualification { allowed: reasons.is_empty(), reasons }
    }
}

// ---------------------------------------------------------------------------
// Sensor timing
// ---------------------------------------------------------------------------

#[derive(Clone, Copy, Debug, PartialEq, Eq, Structural)]
pub enum SensorTimingHealth {
    Startup,
    Healthy,
    Late,
    Timeout,
}

impl Default for SensorTimingHealth {
    fn default() -> (h: Self)
        ensures
            h == SensorTimingHealth::Startup,
    {
        SensorTimingHealth::Startup
    }
}

impl SensorTimingHealth {
    pub fn closed_loop_eligible(self) -> (b: bool)
        ensures
            b == (self == SensorTimingHealth::Healthy),
    {
        matches!(self, SensorTimingHealth::Healthy)
    }
}

/// Expected sensor period and the late/timeout thresholds.
#[derive(Clone, Copy, Debug, PartialEq, Eq, Structural)]
pub struct SensorTimingLimits {
    expected_period_us: u64,
    late_after_us: u64,
    timeout_after_us: u64,
}

impl SensorTimingLimits {
    pub closed spec fn spec_expected_period_us(self) -> u64 {
        self.expected_period_us
    }

    pub closed spec fn spec_late_after_us(self) -> u64 {
        self.late_after_us
    }

    pub closed spec fn spec_timeout_after_us(self) -> u64 {
        self.timeout_after_us
    }

    /// The thresholds are ordered: `0 < expected <= late < timeout`.
    pub open spec fn wf(self) -> bool {
        &&& self.spec_expected_period_us() > 0
        &&& self.spec_late_after_us() >= self.spec_expected_period_us()
        &&& self.spec_timeout_after_us() > self.spec_late_after_us()
    }

    /// Health of a sample that arrived `elapsed_us` after the previous one.
    pub open spec fn classify(self, elapsed_us: u64) -> SensorTimingHealth {
        if elapsed_us >= self.spec_timeout_after_us() {
            SensorTimingHealth::Timeout
        } else if elapsed_us >= self.spec_late_after_us() {
            SensorTimingHealth::Late
        } else {
            SensorTimingHealth::Healthy
        }
    }

    pub fn new(expected_period_us: u64, late_after_us: u64, timeout_after_us: u64) -> (l: Option<
        Self,
    >)
        ensures
            l is Some <==> (expected_period_us != 0 && late_after_us >= expected_period_us
                && timeout_after_us > late_after_us),
            l matches Some(l) ==> {
                &&& l.wf()
                &&& l.spec_expected_period_us() == expected_period_us
                &&& l.spec_late_after_us() == late_after_us
                &&& l.spec_timeout_after_us() == timeout_after_us
            },
    {
        if expected_period_us == 0 || late_after_us < expected_period_us || timeout_after_us
            <= late_after_us {
            None
        } else {
            Some(SensorTimingLimits { expected_period_us, late_after_us, timeout_after_us })
        }
    }

    pub fn classify_elapsed_us(self, elapsed_us: u64) -> (h: SensorTimingHealth)
        ensures
            h == self.classify(elapsed_us),
    {
        if elapsed_us >= self.timeout_after_us {
            SensorTimingHealth::Timeout
        } else if elapsed_us >= self.late_after_us {
            SensorTimingHealth::Late
        } else {
            SensorTimingHealth::Healthy
        }
    }

    pub fn expected_period_us(self) -> (p: u64)
        ensures
            p == self.spec_expected_period_us(),
    {
        self.expected_period_us
    }
}

/// `a - b`, or zero when `b > a`.
pub open spec fn sat_sub_u64(a: u64, b: u64) -> u64 {
    if a >= b {
        (a - b) as u64
    } else {
        0
    }
}

/// Sensor cadence monitor.
#[derive(Clone, Copy, Debug, PartialEq, Eq, Structural)]
pub struct SensorTimingMonitor {
    limits: SensorTimingLimits,
    started_at_us: u64,
    last_event_at_us: Option<u64>,
    cadence_verified: bool,
    health: SensorTimingHealth,
}

impl SensorTimingMonitor {
    pub closed spec fn spec_limits(self) -> SensorTimingLimits {
        self.limits
    }

    pub closed spec fn spec_started_at_us(self) -> u64 {
        self.started_at_us
    }

    pub closed spec fn spec_last_event_at_us(self) -> Option<u64> {
        self.last_event_at_us
    }

    /// At least two sensor events have been seen, so a cadence was measured.
    pub closed spec fn spec_cadence_verified(self) -> bool {
        self.cadence_verified
    }

    pub closed spec fn spec_health(self) -> SensorTimingHealth {
        self.health
    }

    pub fn new(limits: SensorTimingLimits, started_at_us: u64) -> (m: Self)
        ensures
            m.spec_limits() == limits,
            m.spec_started_at_us() == started_at_us,
            m.spec_last_event_at_us() is None,
            !m.spec_cadence_verified(),
            m.spec_health() == SensorTimingHealth::Startup,
    {
        SensorTimingMonitor {
            limits,
            started_at_us,
            last_event_at_us: None,
            cadence_verified: false,
            health: SensorTimingHealth::Startup,
        }
    }

    /// Record one sensor event; the first event only starts the cadence.
    pub fn on_event(&mut self, event_at_us: u64) -> (h: SensorTimingHealth)
        ensures
            h == final(self).spec_health(),
            h == match old(self).spec_last_event_at_us() {
                Some(previous) => old(self).spec_limits().classify(
                    sat_sub_u64(event_at_us, previous),
                ),
                None => SensorTimingHealth::Startup,
            },
            final(self).spec_cadence_verified() == (old(self).spec_cadence_verified()
                || old(self).spec_last_event_at_us() is Some),
            final(self).spec_last_event_at_us() == Some(event_at_us),
            final(self).spec_limits() == old(self).spec_limits(),
            final(self).spec_started_at_us() == old(self).spec_started_at_us(),
    {
        self.health = match self.last_event_at_us {
            Some(previous) => {
                self.cadence_verified = true;
                self.limits.classify_elapsed_us(event_at_us.saturating_sub(previous))
            },
            None => SensorTimingHealth::Startup,
        };
        self.last_event_at_us = Some(event_at_us);
        self.health
    }

    /// Re-evaluate health at `now_us` without a new event. Until a cadence has
    /// been verified, silence reads as Startup up to the timeout threshold.
    pub fn poll(&mut self, now_us: u64) -> (h: SensorTimingHealth)
        ensures
            h == final(self).spec_health(),
            ({
                let reference = match old(self).spec_last_event_at_us() {
                    Some(t) => t,
                    None => old(self).spec_started_at_us(),
                };
                let elapsed = sat_sub_u64(now_us, reference);
                h == if !old(self).spec_cadence_verified() && elapsed < old(
                    self,
                ).spec_limits().spec_timeout_after_us() {
                    SensorTimingHealth::Startup
                } else {
                    old(self).spec_limits().classify(elapsed)
                }
            }),
            final(self).spec_cadence_verified() == old(self).spec_cadence_verified(),
            final(self).spec_last_event_at_us() == old(self).spec_last_event_at_us(),
            final(self).spec_limits() == old(self).spec_limits(),
            final(self).spec_started_at_us() == old(self).spec_started_at_us(),
    {
        let reference = match self.last_event_at_us {
            Some(t) => t,
            None => self.started_at_us,
        };
        let elapsed = now_us.saturating_sub(reference);
        self.health = if !self.cadence_verified && elapsed < self.limits.timeout_after_us {
            SensorTimingHealth::Startup
        } else {
            self.limits.classify_elapsed_us(elapsed)
        };
        self.health
    }

    pub fn health(self) -> (h: SensorTimingHealth)
        ensures
            h == self.spec_health(),
    {
        self.health
    }
}

// ---------------------------------------------------------------------------
// Control watchdog
// ---------------------------------------------------------------------------

#[derive(Clone, Copy, Debug, PartialEq, Eq, Structural)]
pub enum WatchdogHealth {
    Disarmed,
    Healthy,
    Expired,
}

impl Default for WatchdogHealth {
    fn default() -> (h: Self)
        ensures
            h == WatchdogHealth::Disarmed,
    {
        WatchdogHealth::Disarmed
    }
}

#[derive(Clone, Copy, Debug, PartialEq, Eq, Structural)]
pub struct ControlWatchdog {
    timeout_us: u64,
    last_kick_us: Option<u64>,
}

impl ControlWatchdog {
    pub closed spec fn spec_timeout_us(self) -> u64 {
        self.timeout_us
    }

    pub closed spec fn spec_last_kick_us(self) -> Option<u64> {
        self.last_kick_us
    }

    /// Health of a watchdog at `now_us`.
    pub open spec fn spec_health(self, now_us: u64) -> WatchdogHealth {
        match self.spec_last_kick_us() {
            None => WatchdogHealth::Disarmed,
            Some(last) => if sat_sub_u64(now_us, last) <= self.spec_timeout_us() {
                WatchdogHealth::Healthy
            } else {
                WatchdogHealth::Expired
            },
        }
    }

    pub fn new(timeout_us: u64) -> (w: Option<Self>)
        ensures
            w is Some <==> timeout_us != 0,
            w matches Some(w) ==> w.spec_timeout_us() == timeout_us && w.spec_last_kick_us() is None,
    {
        if timeout_us == 0 {
            None
        } else {
            Some(ControlWatchdog { timeout_us, last_kick_us: None })
        }
    }

    pub fn kick(&mut self, now_us: u64)
        ensures
            final(self).spec_last_kick_us() == Some(now_us),
            final(self).spec_timeout_us() == old(self).spec_timeout_us(),
    {
        self.last_kick_us = Some(now_us);
    }

    pub fn disarm(&mut self)
        ensures
            final(self).spec_last_kick_us() is None,
            final(self).spec_timeout_us() == old(self).spec_timeout_us(),
    {
        self.last_kick_us = None;
    }

    pub fn health(self, now_us: u64) -> (h: WatchdogHealth)
        ensures
            h == self.spec_health(now_us),
    {
        match self.last_kick_us {
            None => WatchdogHealth::Disarmed,
            Some(last) => {
                if now_us.saturating_sub(last) <= self.timeout_us {
                    WatchdogHealth::Healthy
                } else {
                    WatchdogHealth::Expired
                }
            },
        }
    }
}

/// A kicked watchdog stays healthy for exactly its timeout after the kick,
/// and expires once more time has passed.
pub proof fn lemma_watchdog_expires_after_timeout(w: ControlWatchdog, kick_us: u64, now_us: u64)
    requires
        w.spec_last_kick_us() == Some(kick_us),
        now_us >= kick_us,
    ensures
        (w.spec_health(now_us) == WatchdogHealth::Healthy) == (now_us - kick_us
            <= w.spec_timeout_us()),
        (w.spec_health(now_us) == WatchdogHealth::Expired) == (now_us - kick_us
            > w.spec_timeout_us()),
{
}

// ---------------------------------------------------------------------------
// Physical-output authority
// ---------------------------------------------------------------------------

#[derive(Clone, Copy, Debug, PartialEq, Eq, Structural)]
pub enum AuthorityMode {
    Disarmed,
    ClosedLoop,
    Maintenance,
    Fault,
}

impl Default for AuthorityMode {
    fn default() -> (m: Self)
        ensures
            m == AuthorityMode::Disarmed,
    {
        AuthorityMode::Disarmed
    }
}

#[derive(Clone, Copy, Debug, PartialEq, Eq, Structural)]
pub enum ActuationAuthority {
    Denied,
    ClosedLoop,
}

/// Set of reasons for which closed-loop authority was denied or constrained.
#[derive(Clone, Copy, Debug, PartialEq, Eq, Structural)]
pub struct AuthorityReasons(u16);

impl View for AuthorityReasons {
    type V = u16;

    closed spec fn view(&self) -> u16 {
        self.0
    }
}

impl Default for AuthorityReasons {
    fn default() -> (r: Self)
        ensures
            r@ == 0,
    {
        AuthorityReasons(0)
    }
}

pub open spec fn authority_mode_reason() -> u16 {
    0x1
}

pub open spec fn authority_runtime_state_reason() -> u16 {
    0x2
}

pub open spec fn authority_sensor_timing_reason() -> u16 {
    0x4
}

pub open spec fn authority_watchdog_reason() -> u16 {
    0x8
}

pub open spec fn authority_estimate_invalid_reason() -> u16 {
    0x10
}

pub open spec fn authority_runtime_qualification_reason() -> u16 {
    0x20
}

pub open spec fn authority_actuator_saturated_reason() -> u16 {
    0x40
}

impl AuthorityReasons {
    pub fn none() -> (r: Self)
        ensures
            r@ == 0,
    {
        AuthorityReasons(0)
    }

    pub fn mode() -> (r: Self)
        ensures
            r@ == authority_mode_reason(),
    {
        AuthorityReasons(0x1)
    }

    pub fn runtime_state() -> (r: Self)
        ensures
            r@ == authority_runtime_state_reason(),
    {
        AuthorityReasons(0x2)
    }

    pub fn sensor_timing() -> (r: Self)
        ensures
            r@ == authority_sensor_timing_reason(),
    {
        AuthorityReasons(0x4)
    }

    pub fn watchdog() -> (r: Self)
        ensures
            r@ == authority_watchdog_reason(),
    {
        AuthorityReasons(0x8)
    }

    pub fn estimate_invalid() -> (r: Self)
        ensures
            r@ == authority_estimate_invalid_reason(),
    {
        AuthorityReasons(0x10)
    }

    pub fn runtime_qualification() -> (r: Self)
        ensures
            r@ == authority_runtime_qualification_reason(),
    {
        AuthorityReasons(0x20)
    }

    pub fn actuator_saturated() -> (r: Self)
        ensures
            r@ == authority_actuator_saturated_reason(),
    {
        AuthorityReasons(0x40)
    }

    pub fn bits(self) -> (b: u16)
        ensures
            b == self@,
    {
        self.0
    }

    pub fn contains(self, other: Self) -> (b: bool)
        ensures
            b == has16(self@, other@),
    {
        self.0 & other.0 == other.0
    }

    fn with(self, other: Self) -> (r: Self)
        requires
            is_bit16(other@),
        ensures
            r@ == self@ | other@,
            r@ != 0,
            forall|g: u16| is_bit16(g) ==> #[trigger] has16(r@, g) == (has16(self@, g) || other@ == g),
            self@ & !0x7fu16 == 0 && other@ <= 0x40 ==> r@ & !0x7fu16 == 0,
    {
        proof {
            lemma_with16(self@, other@);
            let (x, f) = (self@, other@);
            assert(x & !0x7fu16 == 0 && is_bit16(f) && f <= 0x40 ==> (x | f) & !0x7fu16
                == 0) by (bit_vector);
        }
        AuthorityReasons(self.0 | other.0)
    }
}

/// Everything besides the authority mode that closed-loop authority reads.
#[derive(Clone, Copy, Debug, PartialEq, Eq, Structural)]
pub struct AuthorityContext {
    pub runtime_state: RuntimeState,
    pub timing: SensorTimingHealth,
    pub watchdog: WatchdogHealth,
    pub estimate_validity: StateValidity,
    pub runtime_qualified: bool,
}

#[derive(Clone, Copy, Debug, PartialEq, Eq, Structural)]
pub struct AuthorityDecision {
    pub authority: ActuationAuthority,
    pub reasons: AuthorityReasons,
    pub constrained: bool,
}

impl AuthorityDecision {
    pub fn closed_loop_authorized(self) -> (b: bool)
        ensures
            b == (self.authority == ActuationAuthority::ClosedLoop),
    {
        matches!(self.authority, ActuationAuthority::ClosedLoop)
    }
}

/// Proof that one bounded command passed closed-loop runtime authority.
///
/// There is intentionally no public constructor.
#[derive(Clone, Copy, Debug, PartialEq)]
pub struct AuthorizedActuation<C, T> {
    command: BoundedActuatorCommand<C, T>,
}

impl<C: Copy, T: Copy> AuthorizedActuation<C, T> {
    pub closed spec fn spec_command(self) -> BoundedActuatorCommand<C, T> {
        self.command
    }

    pub fn command(self) -> (c: BoundedActuatorCommand<C, T>)
        ensures
            c == self.spec_command(),
    {
        self.command
    }
}

/// Proof that one bounded command passed explicit maintenance authority.
///
/// This is intentionally distinct from closed-loop `AuthorizedActuation`.
#[derive(Clone, Copy, Debug, PartialEq)]
pub struct MaintenanceActuation<C, T> {
    command: BoundedActuatorCommand<C, T>,
}

impl<C: Copy, T: Copy> MaintenanceActuation<C, T> {
    pub closed spec fn spec_command(self) -> BoundedActuatorCommand<C, T> {
        self.command
    }

    pub fn command(self) -> (c: BoundedActuatorCommand<C, T>)
        ensures
            c == self.spec_command(),
    {
        self.command
    }
}

#[derive(Clone, Copy, Debug, PartialEq)]
pub struct AuthorityOutcome<C, T> {
    decision: AuthorityDecision,
    authorized: Option<AuthorizedActuation<C, T>>,
}

impl<C: Copy, T: Copy> AuthorityOutcome<C, T> {
    pub closed spec fn spec_decision(self) -> AuthorityDecision {
        self.decision
    }

    pub closed spec fn spec_authorized(self) -> Option<AuthorizedActuation<C, T>> {
        self.authorized
    }

    pub fn decision(self) -> (d: AuthorityDecision)
        ensures
            d == self.spec_decision(),
    {
        self.decision
    }

    pub fn authorized(self) -> (a: Option<AuthorizedActuation<C, T>>)
        ensures
            a == self.spec_authorized(),
    {
        self.authorized
    }
}

#[derive(Clone, Copy, Debug, PartialEq, Eq, Structural)]
pub enum AuthorityError {
    Busy,
    Faulted,
    NotMaintenance,
}

/// Some closed-loop authority condition fails.
pub open spec fn authority_denied(mode: AuthorityMode, context: AuthorityContext) -> bool {
    ||| mode != AuthorityMode::ClosedLoop
    ||| !(context.runtime_state is Active)
    ||| context.timing != SensorTimingHealth::Healthy
    ||| context.watchdog != WatchdogHealth::Healthy
    ||| context.estimate_validity != StateValidity::Valid
    ||| !context.runtime_qualified
}

/// The mode after a request to enter `target` from `mode`, and its result.
pub open spec fn entered_mode(mode: AuthorityMode, target: AuthorityMode) -> (
    AuthorityMode,
    Result<(), AuthorityError>,
) {
    match mode {
        AuthorityMode::Disarmed => (target, Ok(())),
        AuthorityMode::Fault => (mode, Err(AuthorityError::Faulted)),
        _ => (mode, Err(AuthorityError::Busy)),
    }
}

/// Supervisor-owned physical-output authority.
///
/// Closed-loop and maintenance authority are mutually exclusive runtime modes.
#[derive(Clone, Copy, Debug, PartialEq, Eq, Structural)]
pub struct RuntimeAuthority {
    mode: AuthorityMode,
}

impl Default for RuntimeAuthority {
    fn default() -> (a: Self)
        ensures
            a.spec_mode() == AuthorityMode::Disarmed,
    {
        RuntimeAuthority::new()
    }
}

impl RuntimeAuthority {
    pub closed spec fn spec_mode(self) -> AuthorityMode {
        self.mode
    }

    /// An authority is nothing but its mode: two authorities in the same mode
    /// are the same value (so `new()` and `default()` are equal).
    pub proof fn lemma_mode_determines_authority(a: Self, b: Self)
        requires
            a.spec_mode() == b.spec_mode(),
        ensures
            a == b,
    {
    }

    pub fn new() -> (a: Self)
        ensures
            a.spec_mode() == AuthorityMode::Disarmed,
    {
        RuntimeAuthority { mode: AuthorityMode::Disarmed }
    }

    pub fn mode(self) -> (m: AuthorityMode)
        ensures
            m == self.spec_mode(),
    {
        self.mode
    }

    pub fn enter_closed_loop(&mut self) -> (r: Result<(), AuthorityError>)
        ensures
            (final(self).spec_mode(), r) == entered_mode(
                old(self).spec_mode(),
                AuthorityMode::ClosedLoop,
            ),
    {
        self.enter(AuthorityMode::ClosedLoop)
    }

    pub fn enter_maintenance(&mut self) -> (r: Result<(), AuthorityError>)
        ensures
            (final(self).spec_mode(), r) == entered_mode(
                old(self).spec_mode(),
                AuthorityMode::Maintenance,
            ),
    {
        self.enter(AuthorityMode::Maintenance)
    }

    /// Return to Disarmed unless faulted; a fault must be cleared explicitly.
    pub fn release(&mut self)
        ensures
            final(self).spec_mode() == if old(self).spec_mode() == AuthorityMode::Fault {
                AuthorityMode::Fault
            } else {
                AuthorityMode::Disarmed
            },
    {
        if self.mode != AuthorityMode::Fault {
            self.mode = AuthorityMode::Disarmed;
        }
    }

    pub fn enter_fault(&mut self)
        ensures
            final(self).spec_mode() == AuthorityMode::Fault,
    {
        self.mode = AuthorityMode::Fault;
    }

    pub fn clear_fault(&mut self)
        ensures
            final(self).spec_mode() == AuthorityMode::Disarmed,
    {
        self.mode = AuthorityMode::Disarmed;
    }

    /// Decide closed-loop authority for one bounded command. The command is
    /// promoted to an `AuthorizedActuation` exactly when no condition denies
    /// it; actuator saturation only marks the decision as constrained.
    pub fn evaluate<C: Copy, T: Copy>(
        self,
        context: AuthorityContext,
        command: BoundedActuatorCommand<C, T>,
    ) -> (o: AuthorityOutcome<C, T>)
        ensures
            ({
                let d = o.spec_decision();
                let denied = authority_denied(self.spec_mode(), context);
                &&& has16(d.reasons@, authority_mode_reason()) == (self.spec_mode()
                    != AuthorityMode::ClosedLoop)
                &&& has16(d.reasons@, authority_runtime_state_reason()) == !(
                context.runtime_state is Active)
                &&& has16(d.reasons@, authority_sensor_timing_reason()) == (context.timing
                    != SensorTimingHealth::Healthy)
                &&& has16(d.reasons@, authority_watchdog_reason()) == (context.watchdog
                    != WatchdogHealth::Healthy)
                &&& has16(d.reasons@, authority_estimate_invalid_reason()) == (
                context.estimate_validity != StateValidity::Valid)
                &&& has16(d.reasons@, authority_runtime_qualification_reason())
                    == !context.runtime_qualified
                &&& has16(d.reasons@, authority_actuator_saturated_reason()) == command.saturated
                &&& d.reasons@ & !0x7fu16 == 0
                &&& (d.reasons@ == 0) == (!denied && !command.saturated)
                &&& d.constrained == command.saturated
                &&& (d.authority == ActuationAuthority::ClosedLoop) == !denied
                &&& match o.spec_authorized() {
                    Some(a) => !denied && a.spec_command() == command,
                    None => denied,
                }
            }),
    {
        let mut reasons = AuthorityReasons::none();
        let mut denied = false;
        let mut constrained = false;
        proof {
            lemma_with16(0, 1);
            assert(0u16 & !0x7fu16 == 0) by (bit_vector);
        }
        if self.mode != AuthorityMode::ClosedLoop {
            reasons = reasons.with(AuthorityReasons::mode());
            denied = true;
        }
        if !matches!(context.runtime_state, RuntimeState::Active(_)) {
            reasons = reasons.with(AuthorityReasons::runtime_state());
            denied = true;
        }
        if !context.timing.closed_loop_eligible() {
            reasons = reasons.with(AuthorityReasons::sensor_timing());
            denied = true;
        }
        if context.watchdog != WatchdogHealth::Healthy {
            reasons = reasons.with(AuthorityReasons::watchdog());
            denied = true;
        }
        if context.estimate_validity != StateValidity::Valid {
            reasons = reasons.with(AuthorityReasons::estimate_invalid());
            denied = true;
        }
        if !context.runtime_qualified {
            reasons = reasons.with(AuthorityReasons::runtime_qualification());
            denied = true;
        }
        if command.saturated {
            reasons = reasons.with(AuthorityReasons::actuator_saturated());
            constrained = true;
        }
        let decision = AuthorityDecision {
            authority: if denied {
                ActuationAuthority::Denied
            } else {
                ActuationAuthority::ClosedLoop
            },
            reasons,
            constrained,
        };
        let authorized = if denied {
            None
        } else {
            Some(AuthorizedActuation { command })
        };
        AuthorityOutcome { decision, authorized }
    }

    /// Promote a command to maintenance output; only the Maintenance mode may.
    pub fn authorize_maintenance<C: Copy, T: Copy>(
        self,
        command: BoundedActuatorCommand<C, T>,
    ) -> (r: Result<MaintenanceActuation<C, T>, AuthorityError>)
        ensures
            match self.spec_mode() {
                AuthorityMode::Maintenance => r matches Ok(a) && a.spec_command() == command,
                AuthorityMode::Fault => r == Err::<MaintenanceActuation<C, T>, _>(
                    AuthorityError::Faulted,
                ),
                _ => r == Err::<MaintenanceActuation<C, T>, _>(AuthorityError::NotMaintenance),
            },
    {
        match self.mode {
            AuthorityMode::Maintenance => Ok(MaintenanceActuation { command }),
            AuthorityMode::Fault => Err(AuthorityError::Faulted),
            _ => Err(AuthorityError::NotMaintenance),
        }
    }

    fn enter(&mut self, target: AuthorityMode) -> (r: Result<(), AuthorityError>)
        ensures
            (final(self).spec_mode(), r) == entered_mode(old(self).spec_mode(), target),
    {
        match self.mode {
            AuthorityMode::Disarmed => {
                self.mode = target;
                Ok(())
            },
            AuthorityMode::Fault => Err(AuthorityError::Faulted),
            _ => Err(AuthorityError::Busy),
        }
    }
}

/// Closed-loop and maintenance authority are mutually exclusive: while one is
/// held, a request for the other fails with `Busy` and leaves the mode as is.
pub proof fn lemma_authority_modes_are_exclusive(mode: AuthorityMode)
    requires
        mode == AuthorityMode::ClosedLoop || mode == AuthorityMode::Maintenance,
    ensures
        entered_mode(mode, AuthorityMode::ClosedLoop) == (mode, Err::<(), AuthorityError>(
            AuthorityError::Busy,
        )),
        entered_mode(mode, AuthorityMode::Maintenance) == (mode, Err::<(), AuthorityError>(
            AuthorityError::Busy,
        )),
{
}

/// A fault is sticky: only `clear_fault` leaves it; entering either mode from
/// Fault fails with `Faulted`.
pub proof fn lemma_fault_is_sticky(target: AuthorityMode)
    ensures
        entered_mode(AuthorityMode::Fault, target) == (AuthorityMode::Fault, Err::<
            (),
            AuthorityError,
        >(AuthorityError::Faulted)),
{
}

/// Closed-loop authority requires every condition at once: a command is
/// authorized only in ClosedLoop mode, in an Active runtime state, with
/// healthy sensor timing and watchdog, a valid estimate and a qualified
/// sample.
pub proof fn lemma_authorization_requires_all_conditions(
    mode: AuthorityMode,
    context: AuthorityContext,
)
    requires
        !authority_denied(mode, context),
    ensures
        mode == AuthorityMode::ClosedLoop,
        context.runtime_state is Active,
        context.timing == SensorTimingHealth::Healthy,
        context.watchdog == WatchdogHealth::Healthy,
        context.estimate_validity == StateValidity::Valid,
        context.runtime_qualified,
{
}


// ---------------------------------------------------------------------------
// Closed-loop admission and run permit
// ---------------------------------------------------------------------------

/// Explicit operator/supervisor intent to enter closed loop in `regime`.
#[derive(Clone, Copy, Debug, PartialEq, Eq, Structural)]
pub struct ClosedLoopRequest {
    regime: ControlRegime,
}

impl ClosedLoopRequest {
    pub closed spec fn spec_regime(self) -> ControlRegime {
        self.regime
    }

    pub fn new(regime: ControlRegime) -> (r: Self)
        ensures
            r.spec_regime() == regime,
    {
        ClosedLoopRequest { regime }
    }

    pub fn regime(self) -> (g: ControlRegime)
        ensures
            g == self.spec_regime(),
    {
        self.regime
    }
}

/// What admission reads besides the near-upright boundary.
#[derive(Clone, Copy, Debug, PartialEq, Eq, Structural)]
pub struct AdmissionContext {
    pub runtime_state: RuntimeState,
    pub timing: SensorTimingHealth,
    pub watchdog: WatchdogHealth,
    pub estimate_validity: StateValidity,
    pub runtime_qualified: bool,
    pub authority_mode: AuthorityMode,
}

/// What the continuous run permit reads.
#[derive(Clone, Copy, Debug, PartialEq, Eq, Structural)]
pub struct RunPermitContext {
    pub runtime_state: RuntimeState,
    pub timing: SensorTimingHealth,
    pub watchdog: WatchdogHealth,
    pub estimate_validity: StateValidity,
    pub runtime_qualified: bool,
    pub authority_mode: AuthorityMode,
}

#[derive(Clone, Copy, Debug, PartialEq, Eq, Structural)]
pub struct AdmissionDecision {
    pub allowed: bool,
}

#[derive(Clone, Copy, Debug, PartialEq, Eq, Structural)]
pub struct RunPermitDecision {
    pub allowed: bool,
}

/// A request is admitted only from Ready with disarmed authority, healthy
/// sensor timing and watchdog, a valid qualified estimate, and a state inside
/// a configured near-upright boundary (`within_boundary` is `None` when no
/// boundary is configured, which refuses every request).
pub open spec fn admission_allowed(within_boundary: Option<bool>, c: AdmissionContext) -> bool {
    &&& c.runtime_state == RuntimeState::Ready
    &&& c.authority_mode == AuthorityMode::Disarmed
    &&& c.timing == SensorTimingHealth::Healthy
    &&& c.watchdog == WatchdogHealth::Healthy
    &&& c.estimate_validity == StateValidity::Valid
    &&& c.runtime_qualified
    &&& within_boundary == Some(true)
}

/// Closed loop may keep running only while Active with closed-loop authority,
/// healthy sensor timing and watchdog, and a valid qualified estimate.
pub open spec fn run_permit_allowed(c: RunPermitContext) -> bool {
    &&& c.runtime_state is Active
    &&& c.authority_mode == AuthorityMode::ClosedLoop
    &&& c.timing == SensorTimingHealth::Healthy
    &&& c.watchdog == WatchdogHealth::Healthy
    &&& c.estimate_validity == StateValidity::Valid
    &&& c.runtime_qualified
}

impl RuntimePolicy {
    /// Admission of a pending closed-loop request. The boundary is judged at
    /// admission only; it is not a continuous run-permit condition.
    pub fn admission(
        within_boundary: Option<bool>,
        context: AdmissionContext,
    ) -> (d: AdmissionDecision)
        ensures
            d.allowed == admission_allowed(within_boundary, context),
    {
        let allowed = context.runtime_state == RuntimeState::Ready && context.authority_mode
            == AuthorityMode::Disarmed && context.timing.closed_loop_eligible() && context.watchdog
            == WatchdogHealth::Healthy && context.estimate_validity == StateValidity::Valid
            && context.runtime_qualified && match within_boundary {
            Some(within) => within,
            None => false,
        };
        AdmissionDecision { allowed }
    }

    /// Continuous permission to keep closed-loop authority.
    pub fn run_permit(context: RunPermitContext) -> (d: RunPermitDecision)
        ensures
            d.allowed == run_permit_allowed(context),
    {
        let allowed = matches!(context.runtime_state, RuntimeState::Active(_))
            && context.authority_mode == AuthorityMode::ClosedLoop
            && context.timing.closed_loop_eligible() && context.watchdog == WatchdogHealth::Healthy
            && context.estimate_validity == StateValidity::Valid && context.runtime_qualified;
        RunPermitDecision { allowed }
    }
}

} // verus!
