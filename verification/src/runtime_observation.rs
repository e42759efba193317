//! Canonical live runtime snapshot.
//!
//! The record is a plain value owned by the caller; a target that shares it
//! between the control path and background services keeps it behind its own
//! synchronization. Cycle outcomes arrive already scaled to integer
//! milli/micro units by the numeric layer.
use vstd::prelude::*;

use crate::hybrid_control::ControlRegime;
use crate::plant_observation::RawObservation;
use crate::runtime_state::{SensorTimingHealth, WatchdogHealth};

verus! {

pub const CYCLE_IDLE: u32 = 0;

pub const CYCLE_PRIMED: u32 = 1;

pub const CYCLE_REJECTED: u32 = 2;

pub const CYCLE_COMPUTED: u32 = 3;

pub const CYCLE_ERROR: u32 = 4;

#[derive(Debug, Clone, Copy, PartialEq, Eq, Structural)]
pub struct RuntimeRecordSnapshot {
    pub sample_index: u32,
    pub timestamp_us_low: u32,
    pub pendulum_adc: u16,
    pub arm_encoder_count: i32,
    pub theta_mrad: i32,
    pub theta_dot_mrad_s: i32,
    pub phi_mrad: i32,
    pub phi_dot_mrad_s: i32,
    pub cycle: u32,
    pub control_regime: u32,
    pub demand_torque_unm: i32,
    pub bounded_command_ppm: i32,
    pub predicted_torque_unm: i32,
    pub actuator_saturated: bool,
    pub qualification_reasons: u32,
    pub authority_reasons: u32,
    pub authorized: bool,
    pub sensor_timing_health: u32,
    pub watchdog_health: u32,
}

/// The record before anything was published.
pub open spec fn spec_empty_record() -> RuntimeRecordSnapshot {
    RuntimeRecordSnapshot {
        sample_index: 0,
        timestamp_us_low: 0,
        pendulum_adc: 0,
        arm_encoder_count: 0,
        theta_mrad: 0,
        theta_dot_mrad_s: 0,
        phi_mrad: 0,
        phi_dot_mrad_s: 0,
        cycle: CYCLE_IDLE,
        control_regime: 0,
        demand_torque_unm: 0,
        bounded_command_ppm: 0,
        predicted_torque_unm: 0,
        actuator_saturated: false,
        qualification_reasons: 0,
        authority_reasons: 0,
        authorized: false,
        sensor_timing_health: 0,
        watchdog_health: 0,
    }
}

impl Default for RuntimeRecordSnapshot {
    fn default() -> (r: Self)
        ensures
            r == spec_empty_record(),
    {
        RuntimeRecordSnapshot {
            sample_index: 0,
            timestamp_us_low: 0,
            pendulum_adc: 0,
            arm_encoder_count: 0,
            theta_mrad: 0,
            theta_dot_mrad_s: 0,
            phi_mrad: 0,
            phi_dot_mrad_s: 0,
            cycle: CYCLE_IDLE,
            control_regime: 0,
            demand_torque_unm: 0,
            bounded_command_ppm: 0,
            predicted_torque_unm: 0,
            actuator_saturated: false,
            qualification_reasons: 0,
            authority_reasons: 0,
            authorized: false,
            sensor_timing_health: 0,
            watchdog_health: 0,
        }
    }
}

/// Integer summary of one control cycle outcome, in the record's units.
#[derive(Debug, Clone, Copy, PartialEq, Eq, Structural)]
pub enum CycleSummary {
    Primed,
    Rejected { qualification_reasons: u16 },
    Computed {
        theta_mrad: i32,
        theta_dot_mrad_s: i32,
        phi_mrad: i32,
        phi_dot_mrad_s: i32,
        demand_torque_unm: i32,
        bounded_command_ppm: i32,
        predicted_torque_unm: i32,
        actuator_saturated: bool,
        authority_reasons: u16,
        authorized: bool,
    },
}

/// Record code of a sensor timing health.
pub open spec fn spec_sensor_timing_code(health: SensorTimingHealth) -> u32 {
    match health {
        SensorTimingHealth::Startup => 0,
        SensorTimingHealth::Healthy => 1,
        SensorTimingHealth::Late => 2,
        SensorTimingHealth::Timeout => 3,
    }
}

/// Record code of a watchdog health.
pub open spec fn spec_watchdog_code(health: WatchdogHealth) -> u32 {
    match health {
        WatchdogHealth::Disarmed => 0,
        WatchdogHealth::Healthy => 1,
        WatchdogHealth::Expired => 2,
    }
}

/// Record code of a control regime.
pub open spec fn spec_regime_code(regime: ControlRegime) -> u32 {
    match regime {
        ControlRegime::SwingUp => 0,
        ControlRegime::Capture => 1,
        ControlRegime::Balance => 2,
    }
}

/// The record with its computed-cycle fields cleared.
pub open spec fn cleared_computed(r: RuntimeRecordSnapshot) -> RuntimeRecordSnapshot {
    RuntimeRecordSnapshot {
        demand_torque_unm: 0,
        bounded_command_ppm: 0,
        predicted_torque_unm: 0,
        actuator_saturated: false,
        authority_reasons: 0,
        authorized: false,
        ..r
    }
}

/// The record after publishing one cycle outcome.
pub open spec fn published_cycle(r: RuntimeRecordSnapshot, cycle: CycleSummary) -> RuntimeRecordSnapshot {
    match cycle {
        CycleSummary::Primed => RuntimeRecordSnapshot {
            cycle: CYCLE_PRIMED,
            qualification_reasons: 0,
            ..cleared_computed(r)
        },
        CycleSummary::Rejected { qualification_reasons } => RuntimeRecordSnapshot {
            cycle: CYCLE_REJECTED,
            qualification_reasons: qualification_reasons as u32,
            ..cleared_computed(r)
        },
        CycleSummary::Computed {
            theta_mrad,
            theta_dot_mrad_s,
            phi_mrad,
            phi_dot_mrad_s,
            demand_torque_unm,
            bounded_command_ppm,
            predicted_torque_unm,
            actuator_saturated,
            authority_reasons,
            authorized,
        } => RuntimeRecordSnapshot {
            cycle: CYCLE_COMPUTED,
            qualification_reasons: 0,
            theta_mrad,
            theta_dot_mrad_s,
            phi_mrad,
            phi_dot_mrad_s,
            demand_torque_unm,
            bounded_command_ppm,
            predicted_torque_unm,
            actuator_saturated,
            authority_reasons: authority_reasons as u32,
            authorized,
            ..r
        },
    }
}

fn clear_computed_snapshot(record: &mut RuntimeRecordSnapshot)
    ensures
        *final(record) == cleared_computed(*old(record)),
{
    record.demand_torque_unm = 0;
    record.bounded_command_ppm = 0;
    record.predicted_torque_unm = 0;
    record.actuator_saturated = false;
    record.authority_reasons = 0;
    record.authorized = false;
}

/// Publish the raw acquisition evidence of one sample.
pub fn publish_raw(record: &mut RuntimeRecordSnapshot, raw: RawObservation)
    ensures
        *final(record) == (RuntimeRecordSnapshot {
            sample_index: raw.sample_index,
            timestamp_us_low: raw.pendulum.captured_at.0 as u32,
            pendulum_adc: raw.pendulum.adc_raw,
            arm_encoder_count: raw.arm_encoder.accumulated_count,
            ..*old(record)
        }),
{
    record.sample_index = raw.sample_index;
    record.timestamp_us_low = raw.pendulum.captured_at.0 as u32;
    record.pendulum_adc = raw.pendulum.adc_raw;
    record.arm_encoder_count = raw.arm_encoder.accumulated_count;
}

/// Publish one cycle outcome. Only a computed cycle leaves state, command
/// and authority evidence behind; any other outcome clears it.
pub fn publish_cycle(record: &mut RuntimeRecordSnapshot, cycle: CycleSummary)
    ensures
        *final(record) == published_cycle(*old(record), cycle),
{
    match cycle {
        CycleSummary::Primed => {
            record.cycle = CYCLE_PRIMED;
            record.qualification_reasons = 0;
            clear_computed_snapshot(record);
        },
        CycleSummary::Rejected { qualification_reasons } => {
            record.cycle = CYCLE_REJECTED;
            record.qualification_reasons = qualification_reasons as u32;
            clear_computed_snapshot(record);
        },
        CycleSummary::Computed {
            theta_mrad,
            theta_dot_mrad_s,
            phi_mrad,
            phi_dot_mrad_s,
            demand_torque_unm,
            bounded_command_ppm,
            predicted_torque_unm,
            actuator_saturated,
            authority_reasons,
            authorized,
        } => {
            record.cycle = CYCLE_COMPUTED;
            record.qualification_reasons = 0;
            record.theta_mrad = theta_mrad;
            record.theta_dot_mrad_s = theta_dot_mrad_s;
            record.phi_mrad = phi_mrad;
            record.phi_dot_mrad_s = phi_dot_mrad_s;
            record.demand_torque_unm = demand_torque_unm;
            record.bounded_command_ppm = bounded_command_ppm;
            record.predicted_torque_unm = predicted_torque_unm;
            record.actuator_saturated = actuator_saturated;
            record.authority_reasons = authority_reasons as u32;
            record.authorized = authorized;
        },
    }
}

/// Publish a cycle that ended in a runtime error.
pub fn publish_cycle_error(record: &mut RuntimeRecordSnapshot)
    ensures
        *final(record) == (RuntimeRecordSnapshot {
            cycle: CYCLE_ERROR,
            qualification_reasons: 0,
            ..cleared_computed(*old(record))
        }),
{
    record.cycle = CYCLE_ERROR;
    record.qualification_reasons = 0;
    clear_computed_snapshot(record);
}

pub fn publish_regime(record: &mut RuntimeRecordSnapshot, regime: ControlRegime)
    ensures
        *final(record) == (RuntimeRecordSnapshot {
            control_regime: spec_regime_code(regime),
            ..*old(record)
        }),
{
    let code: u32 = match regime {
        ControlRegime::SwingUp => 0,
        ControlRegime::Capture => 1,
        ControlRegime::Balance => 2,
    };
    record.control_regime = code;
}

pub fn publish_runtime_health(
    record: &mut RuntimeRecordSnapshot,
    timing: SensorTimingHealth,
    watchdog: WatchdogHealth,
)
    ensures
        *final(record) == (RuntimeRecordSnapshot {
            sensor_timing_health: spec_sensor_timing_code(timing),
            watchdog_health: spec_watchdog_code(watchdog),
            ..*old(record)
        }),
{
    record.sensor_timing_health = sensor_timing_code(timing);
    record.watchdog_health = watchdog_code(watchdog);
}

/// The current runtime record.
pub fn snapshot(record: &RuntimeRecordSnapshot) -> (s: RuntimeRecordSnapshot)
    ensures
        s == *record,
{
    *record
}

pub fn sensor_timing_code(health: SensorTimingHealth) -> (c: u32)
    ensures
        c == spec_sensor_timing_code(health),
{
    match health {
        SensorTimingHealth::Startup => 0,
        SensorTimingHealth::Healthy => 1,
        SensorTimingHealth::Late => 2,
        SensorTimingHealth::Timeout => 3,
    }
}

pub fn watchdog_code(health: WatchdogHealth) -> (c: u32)
    ensures
        c == spec_watchdog_code(health),
{
    match health {
        WatchdogHealth::Disarmed => 0,
        WatchdogHealth::Healthy => 1,
        WatchdogHealth::Expired => 2,
    }
}

/// A cycle that did not compute a command never leaves a stale authorization
/// or command behind in the record.
pub proof fn lemma_non_computed_cycle_clears_authority(
    r: RuntimeRecordSnapshot,
    cycle: CycleSummary,
)
    requires
        !(cycle is Computed),
    ensures
        !published_cycle(r, cycle).authorized,
        published_cycle(r, cycle).authority_reasons == 0,
        published_cycle(r, cycle).bounded_command_ppm == 0,
        !published_cycle(r, cycle).actuator_saturated,
{
}

} // verus!
