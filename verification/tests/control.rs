use std::cell::RefCell;
use std::rc::Rc;

use rip::actuator_safety::{slew_window, CommandConstraintReasons, CommandSafetyError, SlewWindow};
use rip::control::{
    sample_timing as control_sample_timing, ControlSafety, EstimatorError as ControlEstimatorError,
    FaultSet as ControlFaultSet, LimitEvidence, SampleTiming as ControlTiming, StateEvidence,
};
use rip::control_domain::{
    evaluate_evidence, ActuatorMapper, sample_timing as domain_sample_timing,
    EstimatorError as DomainEstimatorError, FaultSet, MotorDirection, SafetyEvidence,
    SampleTiming as DomainTiming,
};
use rip::control_runtime::{
    closed_loop_request_decision, command_safety_config_decision, enable_ready_transition,
    released_state, ClosedLoopRequestError, ClosedLoopSupervisor, CommandRoute,
    CommandSafetyConfigError, LoopEvidence,
};
use rip::hybrid_control::{BalanceReferencePhase, CaptureEvidence, CaptureRegimeTracker, ControlRegime};
use rip::measurement_model::valid_direction;
use rip::plant::{drive_direction, DriveDirection};
use rip::plant_observation::{
    MeasurementQuality, RawArmEncoderObservation, RawObservation, RawPendulumObservation,
};
use rip::robot_domain::TimestampUs;
use rip::runtime_observation::{
    publish_cycle, publish_cycle_error, publish_raw, publish_regime, publish_runtime_health,
    snapshot, CycleSummary, RuntimeRecordSnapshot, CYCLE_COMPUTED, CYCLE_ERROR, CYCLE_REJECTED,
};
use rip::robot_domain::StateValidity;
use rip::runtime_state::{
    AdmissionContext, AuthorityMode, ClosedLoopRequest, FaultReason, RunPermitContext,
    RuntimePolicy, RuntimeState, SensorTimingHealth, WatchdogHealth,
};
use rip::software_spi::{bit_levels, OutputLine, SoftwareSpi};
use rip::state_estimator::{EstimatorError, SampleClock, SampleTiming};
use rip::supervisor::{AuthorityError, AuthorityState};
use rip::tb6612::{Tb6612BridgeMode, Tb6612Mapper};

fn evidence(enter: bool, exit: bool, balance_enter: bool, balance_exit: bool) -> CaptureEvidence {
    CaptureEvidence {
        within_capture_enter_angle: enter,
        within_capture_exit_angle: exit,
        within_balance_enter: balance_enter,
        within_balance_exit: balance_exit,
    }
}

/// |theta| = 0.30 rad with a high rate: inside the capture entry angle only.
fn near_upright_fast() -> CaptureEvidence {
    evidence(true, true, false, false)
}

/// |theta| = 0.40 rad: outside capture entry, inside the capture exit angle.
fn inside_exit_hysteresis() -> CaptureEvidence {
    evidence(false, true, false, false)
}

/// |theta| = 0.60 rad: outside every capture threshold.
fn far_from_upright() -> CaptureEvidence {
    evidence(false, false, false, false)
}

/// |theta| = 0.10 rad, |theta_dot| = 0.4 rad/s: settled.
fn settled() -> CaptureEvidence {
    evidence(true, true, true, true)
}

/// |theta| = 0.25 rad: outside balance exit, inside capture exit.
fn drifting() -> CaptureEvidence {
    evidence(true, true, false, false)
}

#[test]
fn capture_entry_is_angle_only_even_at_high_rate() {
    let mut tracker = CaptureRegimeTracker::new(3).unwrap();
    assert_eq!(tracker.update(near_upright_fast()), ControlRegime::Capture);
}

#[test]
fn capture_uses_angle_hysteresis_while_rate_remains_high() {
    let mut tracker = CaptureRegimeTracker::new(3).unwrap();
    assert_eq!(tracker.update(near_upright_fast()), ControlRegime::Capture);
    assert_eq!(tracker.update(inside_exit_hysteresis()), ControlRegime::Capture);
    assert_eq!(tracker.update(far_from_upright()), ControlRegime::SwingUp);
}

#[test]
fn capture_requires_settled_cycles_before_balance() {
    let mut tracker = CaptureRegimeTracker::new(3).unwrap();
    assert_eq!(tracker.update(near_upright_fast()), ControlRegime::Capture);
    assert_eq!(tracker.update(settled()), ControlRegime::Capture);
    assert_eq!(tracker.update(settled()), ControlRegime::Capture);
    assert_eq!(tracker.update(settled()), ControlRegime::Balance);
}

#[test]
fn unsettled_update_restarts_the_settle_count() {
    let mut tracker = CaptureRegimeTracker::new(2).unwrap();
    tracker.update(near_upright_fast());
    assert_eq!(tracker.update(settled()), ControlRegime::Capture);
    assert_eq!(tracker.update(near_upright_fast()), ControlRegime::Capture);
    assert_eq!(tracker.update(settled()), ControlRegime::Capture);
    assert_eq!(tracker.update(settled()), ControlRegime::Balance);
}

#[test]
fn balance_falls_back_to_capture_before_swing_up() {
    let mut tracker = CaptureRegimeTracker::new(3).unwrap();
    tracker.update(near_upright_fast());
    for _ in 0..3 {
        tracker.update(settled());
    }
    assert_eq!(tracker.regime(), ControlRegime::Balance);
    assert_eq!(tracker.update(drifting()), ControlRegime::Capture);
    assert_eq!(tracker.update(far_from_upright()), ControlRegime::SwingUp);
}

#[test]
fn tracker_rejects_zero_settle_cycles_and_resets() {
    assert!(CaptureRegimeTracker::new(0).is_none());
    let mut tracker = CaptureRegimeTracker::new(1).unwrap();
    assert_eq!(tracker.settle_cycles(), 1);
    tracker.update(near_upright_fast());
    assert_eq!(tracker.update(settled()), ControlRegime::Balance);
    tracker.reset();
    assert_eq!(tracker.regime(), ControlRegime::SwingUp);
    assert_eq!(tracker.update(settled()), ControlRegime::Capture);
}

#[test]
fn balance_reference_phases_have_diagnostic_names() {
    assert_eq!(BalanceReferencePhase::SpinDown.as_str(), "spin_down");
    assert_eq!(BalanceReferencePhase::Recenter.as_str(), "recenter");
    assert_eq!(BalanceReferencePhase::Hold.as_str(), "hold");
}

#[test]
fn timing_gap_causes_exactly_one_reprime_cycle_then_recovers() {
    let mut clock = SampleClock::new();
    assert_eq!(clock.observe(TimestampUs(1_000), 20_000), Ok(SampleTiming::Prime));
    assert_eq!(
        clock.observe(TimestampUs(11_000), 20_000),
        Ok(SampleTiming::Ready { elapsed_us: 10_000 })
    );
    assert_eq!(clock.observe(TimestampUs(50_000), 20_000), Ok(SampleTiming::Reprime));
    assert_eq!(
        clock.observe(TimestampUs(60_000), 20_000),
        Ok(SampleTiming::Ready { elapsed_us: 10_000 })
    );
}

#[test]
fn backward_timestamp_is_rejected() {
    let mut clock = SampleClock::new();
    clock.observe(TimestampUs(10_000), 20_000).unwrap();
    assert_eq!(
        clock.observe(TimestampUs(9_000), 20_000),
        Err(EstimatorError::InvalidTimestamp)
    );
    assert_eq!(clock.previous(), Some(TimestampUs(10_000)));
    clock.reset();
    assert_eq!(clock.observe(TimestampUs(9_000), 20_000), Ok(SampleTiming::Prime));
}

#[derive(Clone)]
struct TraceLine {
    id: u8,
    trace: Rc<RefCell<Vec<(u8, bool)>>>,
}

impl OutputLine for TraceLine {
    fn set_low(&mut self) {
        self.trace.borrow_mut().push((self.id, false));
    }

    fn set_high(&mut self) {
        self.trace.borrow_mut().push((self.id, true));
    }
}

#[test]
fn writes_msb_first_and_returns_clock_low() {
    let trace = Rc::new(RefCell::new(Vec::new()));
    let clock = TraceLine { id: 0, trace: trace.clone() };
    let data = TraceLine { id: 1, trace: trace.clone() };
    let mut spi = SoftwareSpi::new(clock, data, 0);
    trace.borrow_mut().clear();
    spi.write_byte(0b1010_0000);

    let events = trace.borrow();
    let data_levels: Vec<bool> =
        events.iter().filter(|(id, _)| *id == 1).map(|(_, level)| *level).collect();
    assert_eq!(data_levels, [true, false, true, false, false, false, false, false]);
    assert_eq!(events.last(), Some(&(0, false)));
}

#[test]
fn write_clocks_every_byte_in_order() {
    let trace = Rc::new(RefCell::new(Vec::new()));
    let clock = TraceLine { id: 0, trace: trace.clone() };
    let data = TraceLine { id: 1, trace: trace.clone() };
    let mut spi = SoftwareSpi::new(clock, data, 2);
    trace.borrow_mut().clear();
    spi.write(&[0x80, 0x01]);
    let events = trace.borrow();
    let rising_edges = events.iter().filter(|event| **event == (0, true)).count();
    assert_eq!(rising_edges, 16);
    let data_levels: Vec<bool> =
        events.iter().filter(|(id, _)| *id == 1).map(|(_, level)| *level).collect();
    assert_eq!(data_levels[0], true);
    assert_eq!(data_levels[15], true);
    assert_eq!(data_levels.iter().filter(|level| **level).count(), 2);
    drop(events);
    let (clock, data) = spi.into_inner();
    assert_eq!((clock.id, data.id), (0, 1));
}

#[test]
fn bit_levels_are_most_significant_first() {
    assert_eq!(bit_levels(0b1100_0001), [true, true, false, false, false, false, false, true]);
    assert_eq!(bit_levels(0), [false; 8]);
}

#[test]
fn safety_evidence_with_no_fault_allows_control() {
    let e = SafetyEvidence {
        limits_valid: true,
        sensor_valid: true,
        estimate_ready: true,
        state_finite: true,
        timestamp_matches: true,
        sample_age_us: 100,
        max_sample_age_us: Some(50_000),
        pendulum_angle_exceeds: false,
        arm_angle_exceeds: false,
        pendulum_rate_exceeds: false,
        arm_rate_exceeds: false,
    };
    assert!(evaluate_evidence(e).control_allowed());
    let invalid = SafetyEvidence { sensor_valid: false, sample_age_us: 60_000, ..e };
    let decision = evaluate_evidence(invalid);
    assert!(!decision.control_allowed());
    assert!(decision.faults.contains(FaultSet::sensor_invalid()));
    assert!(decision.faults.contains(FaultSet::sample_timeout()));
    assert!(!decision.faults.contains(FaultSet::config()));
}

#[test]
fn effort_direction_follows_sign() {
    assert_eq!(ActuatorMapper::direction_for_effort(true, false), MotorDirection::Right);
    assert_eq!(ActuatorMapper::direction_for_effort(false, true), MotorDirection::Left);
    assert_eq!(ActuatorMapper::direction_for_effort(false, false), MotorDirection::Stopped);
    assert_eq!(drive_direction(true, false), DriveDirection::Left);
    assert_eq!(drive_direction(false, false), DriveDirection::Right);
}

#[test]
fn control_safety_judges_limits_only_on_finite_state() {
    let limits = LimitEvidence { valid: true, max_sample_age_us: Some(100) };
    let state = StateEvidence {
        finite: false,
        theta_exceeds: true,
        phi_exceeds: false,
        theta_dot_exceeds: false,
        phi_dot_exceeds: false,
    };
    let d = ControlSafety::check_evidence(Some(state), true, true, 10, limits);
    assert!(!d.allowed);
    assert_eq!(d.faults, ControlFaultSet::state_nonfinite());
    let d = ControlSafety::check_evidence(None, true, true, 200, limits);
    assert!(d.faults.contains(ControlFaultSet::estimate_not_ready()));
    assert!(d.faults.contains(ControlFaultSet::sample_timeout()));
    let clean = StateEvidence { finite: true, theta_exceeds: false, ..state };
    assert!(ControlSafety::check_evidence(Some(clean), true, true, 100, limits).allowed);
}

#[test]
fn unconfigured_gate_fails_closed() {
    assert_eq!(
        slew_window(false, None, TimestampUs(1_000)),
        Err(CommandSafetyError::Unconfigured)
    );
}

#[test]
fn first_request_starts_from_zero_then_measures_elapsed_time() {
    assert_eq!(slew_window(true, None, TimestampUs(1_000)), Ok(SlewWindow::FromZero));
    assert_eq!(
        slew_window(true, Some(TimestampUs(200_000)), TimestampUs(400_000)),
        Ok(SlewWindow::Elapsed(200_000))
    );
    assert_eq!(
        slew_window(true, Some(TimestampUs(200_000)), TimestampUs(150_000)),
        Err(CommandSafetyError::NonMonotonicTimestamp)
    );
}

#[test]
fn constraint_reasons_combine() {
    let both = CommandConstraintReasons::magnitude().with(CommandConstraintReasons::slew());
    assert!(both.contains(CommandConstraintReasons::magnitude()));
    assert!(both.contains(CommandConstraintReasons::slew()));
    assert!(!CommandConstraintReasons::none().contains(CommandConstraintReasons::slew()));
    assert!(CommandConstraintReasons::none().is_empty());
}

fn healthy() -> LoopEvidence {
    LoopEvidence {
        timing: SensorTimingHealth::Healthy,
        watchdog: WatchdogHealth::Healthy,
        estimate_validity: StateValidity::Valid,
        runtime_qualified: true,
    }
}

fn balance_request() -> ClosedLoopRequest {
    ClosedLoopRequest::new(ControlRegime::Balance)
}

#[test]
fn closed_loop_request_requires_output_safety_configuration() {
    let mut supervisor = ClosedLoopSupervisor::new();
    assert_eq!(
        supervisor.request_closed_loop(balance_request(), false),
        Err(ClosedLoopRequestError::OutputSafetyUnconfigured)
    );
    assert!(!supervisor.closed_loop_requested());
    assert_eq!(
        closed_loop_request_decision(RuntimeState::Fault(FaultReason::Watchdog), true),
        Err(ClosedLoopRequestError::Faulted)
    );
}

#[test]
fn default_runtime_computes_without_granting_physical_authority() {
    let mut supervisor = ClosedLoopSupervisor::new();
    assert!(!supervisor.update(healthy(), Some(true)));
    assert_eq!(supervisor.runtime_state(), RuntimeState::Ready);
    assert_eq!(supervisor.authority().mode(), AuthorityMode::Disarmed);
    assert_eq!(supervisor.last_admission_decision(), None);
}

#[test]
fn explicit_request_and_admission_are_required_before_authority() {
    let mut supervisor = ClosedLoopSupervisor::new();
    supervisor.request_closed_loop(balance_request(), true).unwrap();
    assert_eq!(supervisor.runtime_state(), RuntimeState::Ready);
    assert!(!supervisor.update(healthy(), Some(true)));
    assert_eq!(supervisor.runtime_state(), RuntimeState::Active(ControlRegime::Balance));
    assert_eq!(supervisor.authority().mode(), AuthorityMode::ClosedLoop);
    assert!(supervisor.last_admission_decision().unwrap().allowed);
    assert!(supervisor.last_run_permit_decision().unwrap().allowed);
}

#[test]
fn admission_configuration_is_fail_closed() {
    let mut supervisor = ClosedLoopSupervisor::new();
    supervisor.request_closed_loop(balance_request(), true).unwrap();
    assert!(!supervisor.update(healthy(), None));
    assert_eq!(supervisor.runtime_state(), RuntimeState::Ready);
    assert!(!supervisor.last_admission_decision().unwrap().allowed);
    assert!(supervisor.closed_loop_requested());
    assert!(!supervisor.update(healthy(), Some(false)));
    assert_eq!(supervisor.runtime_state(), RuntimeState::Ready);
}

#[test]
fn output_safety_cannot_be_reconfigured_while_active() {
    let mut supervisor = ClosedLoopSupervisor::new();
    assert_eq!(supervisor.command_safety_config_allowed(), Ok(()));
    supervisor.request_closed_loop(balance_request(), true).unwrap();
    supervisor.update(healthy(), Some(true));
    assert_eq!(
        supervisor.command_safety_config_allowed(),
        Err(CommandSafetyConfigError::ClosedLoopActive)
    );
    assert_eq!(
        command_safety_config_decision(RuntimeState::Fault(FaultReason::Sensor)),
        Err(CommandSafetyConfigError::Faulted)
    );
}

#[test]
fn run_permit_loss_clears_intent_and_releases_authority() {
    let mut supervisor = ClosedLoopSupervisor::new();
    supervisor.request_closed_loop(balance_request(), true).unwrap();
    supervisor.update(healthy(), Some(true));
    let timeout = LoopEvidence { timing: SensorTimingHealth::Timeout, ..healthy() };
    assert!(supervisor.update(timeout, Some(true)));
    assert_eq!(supervisor.runtime_state(), RuntimeState::Ready);
    assert_eq!(supervisor.authority().mode(), AuthorityMode::Disarmed);
    assert!(!supervisor.closed_loop_requested());
    assert!(!supervisor.last_run_permit_decision().unwrap().allowed);

    // Healthy data alone cannot silently restart closed loop.
    assert!(!supervisor.update(healthy(), Some(true)));
    assert_eq!(supervisor.runtime_state(), RuntimeState::Ready);
    supervisor.request_closed_loop(balance_request(), true).unwrap();
    supervisor.update(healthy(), Some(true));
    assert_eq!(supervisor.runtime_state(), RuntimeState::Active(ControlRegime::Balance));
}

#[test]
fn estimator_reprime_releases_authority_and_clears_intent() {
    let mut supervisor = ClosedLoopSupervisor::new();
    supervisor.request_closed_loop(balance_request(), true).unwrap();
    supervisor.update(healthy(), Some(true));
    assert!(supervisor.on_estimator_reprime());
    assert_eq!(supervisor.runtime_state(), RuntimeState::Ready);
    assert!(!supervisor.closed_loop_requested());
    assert!(!supervisor.on_estimator_reprime());
    assert!(!supervisor.update(healthy(), Some(true)));
    assert_eq!(supervisor.authority().mode(), AuthorityMode::Disarmed);
}

#[test]
fn disable_requires_explicit_return_to_ready() {
    let mut supervisor = ClosedLoopSupervisor::new();
    supervisor.request_closed_loop(balance_request(), true).unwrap();
    supervisor.update(healthy(), Some(true));
    supervisor.disable();
    assert_eq!(supervisor.runtime_state(), RuntimeState::Disabled);
    assert_eq!(supervisor.authority().mode(), AuthorityMode::Disarmed);
    assert_eq!(
        supervisor.request_closed_loop(balance_request(), true),
        Err(ClosedLoopRequestError::NotReady)
    );
    assert!(supervisor.enable_ready());
    assert!(!supervisor.enable_ready());
    assert_eq!(supervisor.runtime_state(), RuntimeState::Ready);
    assert_eq!(enable_ready_transition(RuntimeState::Disabled), (RuntimeState::Ready, true));
    assert_eq!(released_state(RuntimeState::Active(ControlRegime::Capture)), RuntimeState::Ready);
}

#[test]
fn cancel_drops_intent_and_decisions() {
    let mut supervisor = ClosedLoopSupervisor::new();
    supervisor.request_closed_loop(balance_request(), true).unwrap();
    supervisor.update(healthy(), Some(true));
    supervisor.cancel_closed_loop();
    assert_eq!(supervisor.runtime_state(), RuntimeState::Ready);
    assert!(!supervisor.closed_loop_requested());
    assert_eq!(supervisor.last_admission_decision(), None);
    assert_eq!(supervisor.last_run_permit_decision(), None);
    assert_eq!(balance_request().regime(), ControlRegime::Balance);
}

#[test]
fn admission_and_run_permit_policies() {
    let context = AdmissionContext {
        runtime_state: RuntimeState::Ready,
        timing: SensorTimingHealth::Healthy,
        watchdog: WatchdogHealth::Healthy,
        estimate_validity: StateValidity::Valid,
        runtime_qualified: true,
        authority_mode: AuthorityMode::Disarmed,
    };
    assert!(RuntimePolicy::admission(Some(true), context).allowed);
    assert!(!RuntimePolicy::admission(None, context).allowed);
    let busy = AdmissionContext { authority_mode: AuthorityMode::Maintenance, ..context };
    assert!(!RuntimePolicy::admission(Some(true), busy).allowed);
    let permit = RunPermitContext {
        runtime_state: RuntimeState::Active(ControlRegime::Balance),
        timing: SensorTimingHealth::Healthy,
        watchdog: WatchdogHealth::Healthy,
        estimate_validity: StateValidity::Valid,
        runtime_qualified: true,
        authority_mode: AuthorityMode::ClosedLoop,
    };
    assert!(RuntimePolicy::run_permit(permit).allowed);
    let late = RunPermitContext { watchdog: WatchdogHealth::Expired, ..permit };
    assert!(!RuntimePolicy::run_permit(late).allowed);
}

#[test]
fn supervisor_authority_transitions() {
    let (state, result) = AuthorityState::Disarmed.enter(AuthorityState::Maintenance);
    assert_eq!((state, result), (AuthorityState::Maintenance, Ok(())));
    assert_eq!(state.enter(AuthorityState::Control), (state, Err(AuthorityError::Busy)));
    assert_eq!(state.maintenance_access(), Ok(()));
    assert_eq!(state.control_access(), Err(AuthorityError::NotControl));
    assert_eq!(state.released(), AuthorityState::Disarmed);
    let fault = AuthorityState::Fault;
    assert_eq!(fault.released(), AuthorityState::Fault);
    assert_eq!(fault.maintenance_access(), Err(AuthorityError::Faulted));
    assert_eq!(
        fault.enter(AuthorityState::Control),
        (AuthorityState::Fault, Err(AuthorityError::Faulted))
    );
}

#[test]
fn tb6612_modes_set_bridge_levels() {
    assert_eq!(Tb6612BridgeMode::Coast.levels(), (false, false, false));
    assert_eq!(Tb6612BridgeMode::DrivePositive.levels(), (true, false, true));
    assert_eq!(Tb6612BridgeMode::DriveNegative.levels(), (false, true, true));
    assert_eq!(Tb6612BridgeMode::Brake.levels(), (true, true, false));
    let mapper = Tb6612Mapper::new(true);
    assert_eq!(mapper.drive_mode(true), Tb6612BridgeMode::DrivePositive);
    assert_eq!(mapper.drive_mode(false), Tb6612BridgeMode::DriveNegative);
    let inverted = Tb6612Mapper::new(false);
    assert_eq!(inverted.drive_mode(true), Tb6612BridgeMode::DriveNegative);
}

#[test]
fn measurement_direction_must_be_unit() {
    assert!(valid_direction(1));
    assert!(valid_direction(-1));
    assert!(!valid_direction(0));
    assert!(!valid_direction(2));
}

fn raw() -> RawObservation {
    let quality = MeasurementQuality::available();
    RawObservation {
        sample_index: 9,
        pendulum: RawPendulumObservation {
            captured_at: TimestampUs(0x1_0000_0005),
            adc_raw: 2_048,
            quality,
        },
        arm_encoder: RawArmEncoderObservation {
            captured_at: TimestampUs(6),
            accumulated_count: -12,
            quality,
        },
    }
}

fn computed() -> CycleSummary {
    CycleSummary::Computed {
        theta_mrad: 1,
        theta_dot_mrad_s: 2,
        phi_mrad: 3,
        phi_dot_mrad_s: 4,
        demand_torque_unm: 5,
        bounded_command_ppm: 6,
        predicted_torque_unm: 7,
        actuator_saturated: true,
        authority_reasons: 0x40,
        authorized: true,
    }
}

#[test]
fn runtime_record_publishes_raw_and_computed_cycles() {
    let mut record = RuntimeRecordSnapshot::default();
    publish_raw(&mut record, raw());
    publish_cycle(&mut record, computed());
    publish_regime(&mut record, ControlRegime::Balance);
    publish_runtime_health(&mut record, SensorTimingHealth::Late, WatchdogHealth::Expired);
    let s = snapshot(&record);
    assert_eq!(s.sample_index, 9);
    assert_eq!(s.timestamp_us_low, 5);
    assert_eq!(s.pendulum_adc, 2_048);
    assert_eq!(s.arm_encoder_count, -12);
    assert_eq!(s.cycle, CYCLE_COMPUTED);
    assert!(s.authorized);
    assert_eq!(s.authority_reasons, 0x40);
    assert_eq!(s.control_regime, 2);
    assert_eq!(s.sensor_timing_health, 2);
    assert_eq!(s.watchdog_health, 2);
}

#[test]
fn rejected_or_failed_cycles_clear_stale_authority() {
    let mut record = RuntimeRecordSnapshot::default();
    publish_cycle(&mut record, computed());
    publish_cycle(&mut record, CycleSummary::Rejected { qualification_reasons: 0x21 });
    assert_eq!(record.cycle, CYCLE_REJECTED);
    assert_eq!(record.qualification_reasons, 0x21);
    assert!(!record.authorized);
    assert_eq!(record.bounded_command_ppm, 0);
    assert_eq!(record.theta_mrad, 1);
    publish_cycle(&mut record, computed());
    publish_cycle_error(&mut record);
    assert_eq!(record.cycle, CYCLE_ERROR);
    assert!(!record.authorized);
    assert!(!record.actuator_saturated);
}

#[test]
fn wrapping_sample_timing_primes_refuses_and_crosses_the_wrap() {
    assert_eq!(control_sample_timing(None, 5, 100), Ok(ControlTiming::Prime));
    assert_eq!(control_sample_timing(Some(5), 5, 100), Err(ControlEstimatorError::InvalidTimestamp));
    assert_eq!(control_sample_timing(Some(10), 5, 100), Err(ControlEstimatorError::InvalidTimestamp));
    assert_eq!(control_sample_timing(Some(5), 206, 100), Ok(ControlTiming::Prime));
    assert_eq!(control_sample_timing(Some(u32::MAX - 4), 5, 100), Ok(ControlTiming::Ready { elapsed_us: 10 }));
}

#[test]
fn control_domain_sample_timing_matches_the_wrapping_rule() {
    assert_eq!(domain_sample_timing(Some(1_000), 11_000, 20_000), Ok(DomainTiming::Ready { elapsed_us: 10_000 }));
    assert_eq!(domain_sample_timing(Some(1_000), 50_000, 20_000), Ok(DomainTiming::Prime));
    assert_eq!(domain_sample_timing(Some(0), 0x8000_0000, u32::MAX), Err(DomainEstimatorError::InvalidTimestamp));
}

#[test]
fn each_bit_is_set_up_while_the_clock_is_low_and_sampled_on_the_rising_edge() {
    let trace = Rc::new(RefCell::new(Vec::new()));
    let clock = TraceLine { id: 0, trace: trace.clone() };
    let data = TraceLine { id: 1, trace: trace.clone() };
    let mut spi = SoftwareSpi::new(clock, data, 0);
    assert_eq!(*trace.borrow(), vec![(0, false), (1, false)]);
    trace.borrow_mut().clear();
    spi.write_byte(0b1010_0000);
    let events = trace.borrow();
    assert_eq!(events.len(), 25);
    let bits = [true, false, true, false, false, false, false, false];
    for (i, bit) in bits.iter().enumerate() {
        assert_eq!(events[3 * i], (0, false));
        assert_eq!(events[3 * i + 1], (1, *bit));
        assert_eq!(events[3 * i + 2], (0, true));
    }
    assert_eq!(events[24], (0, false));
}

#[test]
fn every_structural_fault_sets_exactly_its_own_bit() {
    let all = SafetyEvidence {
        limits_valid: false,
        sensor_valid: false,
        estimate_ready: false,
        state_finite: false,
        timestamp_matches: false,
        sample_age_us: 60_000,
        max_sample_age_us: Some(50_000),
        pendulum_angle_exceeds: true,
        arm_angle_exceeds: true,
        pendulum_rate_exceeds: true,
        arm_rate_exceeds: true,
    };
    assert_eq!(evaluate_evidence(all).faults.bits(), 0x7fe);
}

#[test]
fn control_safety_sets_no_bit_outside_its_faults() {
    let limits = LimitEvidence { valid: false, max_sample_age_us: Some(100) };
    let state = StateEvidence {
        finite: true,
        theta_exceeds: true,
        phi_exceeds: true,
        theta_dot_exceeds: true,
        phi_dot_exceeds: true,
    };
    let d = ControlSafety::check_evidence(Some(state), false, false, 200, limits);
    assert_eq!(d.faults.bits(), 0x1ff & !0x8);
    let d = ControlSafety::check_evidence(None, true, true, 0, limits);
    assert_eq!(d.faults.bits(), 0x1 | 0x4);
}

#[test]
fn commands_are_constrained_exactly_while_closed_loop_is_active() {
    let mut supervisor = ClosedLoopSupervisor::new();
    assert_eq!(supervisor.command_route(false), CommandRoute::Reject);
    assert_eq!(supervisor.command_route(true), CommandRoute::Direct);
    supervisor.request_closed_loop(balance_request(), true).unwrap();
    supervisor.update(healthy(), Some(true));
    assert!(matches!(supervisor.runtime_state(), RuntimeState::Active(_)));
    assert_eq!(supervisor.command_route(true), CommandRoute::Constrain);
    assert_eq!(supervisor.command_route(false), CommandRoute::Reject);
    supervisor.release_after_runtime_loss();
    assert_eq!(supervisor.command_route(true), CommandRoute::Direct);
}
