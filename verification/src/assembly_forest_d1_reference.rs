//! Forest D1 reference assembly: populated devices and local-service rates.
use vstd::prelude::*;

verus! {

#[derive(Clone, Copy, Debug, PartialEq, Eq, Structural)]
pub enum ActuatorRole {
    RotaryArm,
}

#[derive(Clone, Copy, Debug, PartialEq, Eq, Structural)]
pub enum SensorRole {
    PendulumAngle,
    RotaryArmPosition,
}

#[derive(Clone, Copy, Debug, PartialEq, Eq, Structural)]
pub enum MotorPopulation {
    Installed(ActuatorRole),
    NotInstalled,
}

pub const TELEMETRY_DEFAULT_ENABLED: bool = false;

pub const TELEMETRY_RATE_HZ: u32 = 10;

pub const UI_REFRESH_HZ: u32 = 10;

pub const OLED_BACKGROUND_FLUSH_BYTES: usize = 8;

pub const OLED_PRESENT: bool = true;

/// Motor channel D1 is not populated.
pub fn d1_population() -> (p: MotorPopulation)
    ensures
        p == MotorPopulation::NotInstalled,
{
    MotorPopulation::NotInstalled
}

/// Motor channel D2 drives the rotary arm.
pub fn d2_population() -> (p: MotorPopulation)
    ensures
        p == MotorPopulation::Installed(ActuatorRole::RotaryArm),
{
    MotorPopulation::Installed(ActuatorRole::RotaryArm)
}

pub fn pendulum_sensor_role() -> (r: SensorRole)
    ensures
        r == SensorRole::PendulumAngle,
{
    SensorRole::PendulumAngle
}

pub fn arm_encoder_role() -> (r: SensorRole)
    ensures
        r == SensorRole::RotaryArmPosition,
{
    SensorRole::RotaryArmPosition
}

/// Control ticks between two telemetry publications.
pub fn telemetry_period_ticks(control_tick_hz: u32) -> (t: u32)
    ensures
        t == control_tick_hz / TELEMETRY_RATE_HZ,
{
    control_tick_hz / TELEMETRY_RATE_HZ
}

/// Control ticks between two UI refreshes.
pub fn ui_period_ticks(control_tick_hz: u32) -> (t: u32)
    ensures
        t == control_tick_hz / UI_REFRESH_HZ,
{
    control_tick_hz / UI_REFRESH_HZ
}

/// Phase counter and firing decision of one periodic background service.
///
/// Every control tick advances the phase (saturating); once it has reached the
/// period, the service fires on the first tick it is `ready`, and the phase
/// restarts. A service that is not ready keeps accumulating phase.
pub fn advance_phase(phase: u32, period: u32, ready: bool) -> (r: (u32, bool))
    ensures
        ({
            let next: u32 = if phase == u32::MAX {
                u32::MAX
            } else {
                (phase + 1) as u32
            };
            r == if next >= period && ready {
                (0u32, true)
            } else {
                (next, false)
            }
        }),
{
    let next = phase.saturating_add(1);
    if next >= period && ready {
        (0, true)
    } else {
        (next, false)
    }
}

} // verus!
