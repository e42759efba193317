use rip::actuator_model::BoundedActuatorCommand;
use rip::hybrid_control::ControlRegime;
use rip::robot_domain::StateValidity;
use rip::runtime_state::{
    ActuationAuthority, AuthorityContext, AuthorityError, AuthorityMode, AuthorityReasons,
    ControlWatchdog, FaultReason, QualificationReasons, RuntimeAuthority, RuntimeLimitEvidence,
    RuntimePolicy, RuntimeState, SensorTimingHealth, SensorTimingLimits, SensorTimingMonitor,
    StateEvidence, WatchdogHealth,
};

fn command(saturated: bool) -> BoundedActuatorCommand<f32, f32> {
    BoundedActuatorCommand { command: 0.25f32, saturated, predicted_arm_torque: 0.05f32 }
}

fn healthy_context() -> AuthorityContext {
    AuthorityContext {
        runtime_state: RuntimeState::Active(ControlRegime::Balance),
        timing: SensorTimingHealth::Healthy,
        watchdog: WatchdogHealth::Healthy,
        estimate_validity: StateValidity::Valid,
        runtime_qualified: true,
    }
}

fn good_state() -> StateEvidence {
    StateEvidence {
        validity: StateValidity::Valid,
        finite: true,
        theta_exceeds: false,
        phi_exceeds: false,
        theta_dot_exceeds: false,
        phi_dot_exceeds: false,
    }
}

fn limits(max_sample_age_us: Option<u64>) -> RuntimeLimitEvidence {
    RuntimeLimitEvidence { valid: true, max_sample_age_us }
}

#[test]
fn closed_loop_token_requires_closed_loop_mode_and_healthy_context() {
    let mut authority = RuntimeAuthority::new();
    assert!(authority.evaluate(healthy_context(), command(false)).authorized().is_none());

    authority.enter_closed_loop().unwrap();
    assert!(authority.evaluate(healthy_context(), command(false)).authorized().is_some());
}

#[test]
fn actuator_saturation_is_explicitly_constrained_not_silently_dropped() {
    let mut authority = RuntimeAuthority::new();
    authority.enter_closed_loop().unwrap();
    let outcome = authority.evaluate(healthy_context(), command(true));

    assert!(outcome.authorized().is_some());
    assert!(outcome.decision().constrained);
    assert!(outcome.decision().reasons.contains(AuthorityReasons::actuator_saturated()));
}

#[test]
fn maintenance_and_closed_loop_modes_are_mutually_exclusive() {
    let mut authority = RuntimeAuthority::new();
    authority.enter_maintenance().unwrap();
    assert_eq!(authority.enter_closed_loop(), Err(AuthorityError::Busy));
    assert!(authority.authorize_maintenance(command(false)).is_ok());
}

#[test]
fn closed_loop_mode_blocks_maintenance_output() {
    let mut authority = RuntimeAuthority::new();
    authority.enter_closed_loop().unwrap();
    assert_eq!(authority.enter_maintenance(), Err(AuthorityError::Busy));
    assert_eq!(
        authority.authorize_maintenance(command(false)).err(),
        Some(AuthorityError::NotMaintenance)
    );
}

#[test]
fn fault_is_sticky_until_cleared() {
    let mut authority = RuntimeAuthority::new();
    authority.enter_closed_loop().unwrap();
    authority.enter_fault();
    authority.release();
    assert_eq!(authority.mode(), AuthorityMode::Fault);
    assert_eq!(authority.enter_closed_loop(), Err(AuthorityError::Faulted));
    assert_eq!(
        authority.authorize_maintenance(command(false)).err(),
        Some(AuthorityError::Faulted)
    );
    authority.clear_fault();
    assert_eq!(authority.mode(), AuthorityMode::Disarmed);
    assert!(authority.enter_maintenance().is_ok());
}

#[test]
fn every_failed_condition_is_reported() {
    let authority = RuntimeAuthority::new();
    let context = AuthorityContext {
        runtime_state: RuntimeState::Fault(FaultReason::Watchdog),
        timing: SensorTimingHealth::Late,
        watchdog: WatchdogHealth::Expired,
        estimate_validity: StateValidity::Invalid,
        runtime_qualified: false,
    };
    let decision = authority.evaluate(context, command(false)).decision();
    assert_eq!(decision.authority, ActuationAuthority::Denied);
    assert!(!decision.closed_loop_authorized());
    assert_eq!(decision.reasons.bits(), 0x3f);
    assert!(!decision.constrained);
}

#[test]
fn authorized_actuation_carries_the_evaluated_command() {
    let mut authority = RuntimeAuthority::new();
    authority.enter_closed_loop().unwrap();
    let outcome = authority.evaluate(healthy_context(), command(false));
    assert!(outcome.decision().closed_loop_authorized());
    assert_eq!(outcome.decision().reasons.bits(), 0);
    assert_eq!(outcome.authorized().unwrap().command(), command(false));
}

#[test]
fn watchdog_expires_after_configured_timeout() {
    let mut watchdog = ControlWatchdog::new(5_000).unwrap();
    assert_eq!(watchdog.health(1_000), WatchdogHealth::Disarmed);
    watchdog.kick(1_000);
    assert_eq!(watchdog.health(5_000), WatchdogHealth::Healthy);
    assert_eq!(watchdog.health(6_001), WatchdogHealth::Expired);
}

#[test]
fn watchdog_rejects_zero_timeout_and_disarms() {
    assert!(ControlWatchdog::new(0).is_none());
    let mut watchdog = ControlWatchdog::new(10).unwrap();
    watchdog.kick(100);
    assert_eq!(watchdog.health(110), WatchdogHealth::Healthy);
    watchdog.disarm();
    assert_eq!(watchdog.health(111), WatchdogHealth::Disarmed);
}

#[test]
fn qualification_passes_a_clean_sample() {
    let q = RuntimePolicy::qualify(Some(good_state()), true, 100, limits(Some(1_000)));
    assert!(q.allowed);
    assert!(q.reasons.is_empty());
}

#[test]
fn qualification_collects_every_failed_check() {
    let state = StateEvidence { theta_exceeds: true, phi_dot_exceeds: true, ..good_state() };
    let q = RuntimePolicy::qualify(Some(state), false, 2_000, limits(Some(1_000)));
    assert!(!q.allowed);
    assert!(q.reasons.contains(QualificationReasons::sensor_invalid()));
    assert!(q.reasons.contains(QualificationReasons::sample_timeout()));
    assert!(q.reasons.contains(QualificationReasons::theta_limit()));
    assert!(q.reasons.contains(QualificationReasons::phi_rate_limit()));
    assert!(!q.reasons.contains(QualificationReasons::phi_limit()));
    assert!(!q.reasons.contains(QualificationReasons::limit_config()));
}

#[test]
fn qualification_without_estimate_skips_limit_checks() {
    let q = RuntimePolicy::qualify(None, true, 0, limits(None));
    assert_eq!(q.reasons, QualificationReasons::estimate_not_ready());
    let nonfinite = StateEvidence { finite: false, theta_exceeds: true, ..good_state() };
    let q = RuntimePolicy::qualify(Some(nonfinite), true, 0, limits(None));
    assert_eq!(q.reasons, QualificationReasons::state_nonfinite());
    let bad_limits = RuntimeLimitEvidence { valid: false, max_sample_age_us: None };
    let q = RuntimePolicy::qualify(Some(good_state()), true, 0, bad_limits);
    assert_eq!(q.reasons, QualificationReasons::limit_config());
}

#[test]
fn sensor_timing_limits_must_be_ordered() {
    assert!(SensorTimingLimits::new(0, 10, 20).is_none());
    assert!(SensorTimingLimits::new(10, 5, 20).is_none());
    assert!(SensorTimingLimits::new(10, 20, 20).is_none());
    let l = SensorTimingLimits::new(10_000, 15_000, 30_000).unwrap();
    assert_eq!(l.expected_period_us(), 10_000);
    assert_eq!(l.classify_elapsed_us(14_999), SensorTimingHealth::Healthy);
    assert_eq!(l.classify_elapsed_us(15_000), SensorTimingHealth::Late);
    assert_eq!(l.classify_elapsed_us(30_000), SensorTimingHealth::Timeout);
}

#[test]
fn sensor_monitor_starts_up_then_classifies_cadence() {
    let l = SensorTimingLimits::new(10_000, 15_000, 30_000).unwrap();
    let mut monitor = SensorTimingMonitor::new(l, 0);
    assert_eq!(monitor.poll(29_999), SensorTimingHealth::Startup);
    assert_eq!(monitor.poll(30_000), SensorTimingHealth::Timeout);
    assert_eq!(monitor.on_event(1_000), SensorTimingHealth::Startup);
    assert_eq!(monitor.on_event(11_000), SensorTimingHealth::Healthy);
    assert_eq!(monitor.on_event(27_000), SensorTimingHealth::Late);
    assert_eq!(monitor.poll(40_000), SensorTimingHealth::Healthy);
    assert_eq!(monitor.poll(60_000), SensorTimingHealth::Timeout);
    assert_eq!(monitor.health(), SensorTimingHealth::Timeout);
    assert!(!SensorTimingHealth::Late.closed_loop_eligible());
}

#[test]
fn fresh_authority_equals_default_and_never_authorizes() {
    assert_eq!(RuntimeAuthority::new(), RuntimeAuthority::default());
    let outcome = RuntimeAuthority::new().evaluate(healthy_context(), command(false));
    assert!(outcome.authorized().is_none());
}
