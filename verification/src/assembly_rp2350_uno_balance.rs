//! RP2350 UNO Balance assembly: shield channel roles and harness mapping.
use vstd::prelude::*;

use crate::board_uno_rp2350::{arm_encoder, arm_motor, pendulum_adc};

verus! {

#[derive(Clone, Copy, Debug, PartialEq, Eq, Structural)]
pub enum ActuatorRole {
    RotaryArm,
}

#[derive(Clone, Copy, Debug, PartialEq, Eq, Structural)]
pub enum SensorRole {
    PendulumAngle,
    RotaryArmPosition,
}

#[derive(Clone, Copy, Debug, PartialEq, Eq, Structural)]
pub enum ShieldMotorChannel {
    A,
}

#[derive(Clone, Copy, Debug, PartialEq, Eq, Structural)]
pub enum ShieldSignal {
    MaPlus,
    MaMinus,
    Encoder1A,
    Encoder1B,
    Vcc50,
    Ground,
    A0,
    Board3V3,
}

#[derive(Clone, Copy, Debug, PartialEq, Eq, Structural)]
pub struct HarnessPin {
    pub mechanism_pin: u8,
    pub shield_signal: ShieldSignal,
}

pub const TELEMETRY_DEFAULT_ENABLED: bool = false;

pub const CONTROL_OUTPUT_DEFAULT_ENABLED: bool = false;

pub fn rotary_arm_actuator() -> (r: ActuatorRole)
    ensures
        r == ActuatorRole::RotaryArm,
{
    ActuatorRole::RotaryArm
}

pub fn rotary_arm_channel() -> (c: ShieldMotorChannel)
    ensures
        c == ShieldMotorChannel::A,
{
    ShieldMotorChannel::A
}

pub fn pendulum_sensor_role() -> (r: SensorRole)
    ensures
        r == SensorRole::PendulumAngle,
{
    SensorRole::PendulumAngle
}

pub fn arm_encoder_role() -> (r: SensorRole)
    ensures
        r == SensorRole::RotaryArmPosition,
{
    SensorRole::RotaryArmPosition
}

/// The mechanism's own six-pin motor/encoder harness to UNO Balance JP2, in
/// mechanism pin order.
pub open spec fn spec_arm_motor_encoder_harness() -> Seq<HarnessPin> {
    seq![
        HarnessPin { mechanism_pin: 1, shield_signal: ShieldSignal::MaPlus },
        HarnessPin { mechanism_pin: 2, shield_signal: ShieldSignal::Vcc50 },
        HarnessPin { mechanism_pin: 3, shield_signal: ShieldSignal::Encoder1A },
        HarnessPin { mechanism_pin: 4, shield_signal: ShieldSignal::Encoder1B },
        HarnessPin { mechanism_pin: 5, shield_signal: ShieldSignal::Ground },
        HarnessPin { mechanism_pin: 6, shield_signal: ShieldSignal::MaMinus },
    ]
}

/// Pendulum potentiometer harness; the sensor stays a 3.3 V ratiometric
/// sensor and is not sourced from the shield VCC50 pin.
pub open spec fn spec_pendulum_sensor_harness() -> Seq<HarnessPin> {
    seq![
        HarnessPin { mechanism_pin: 1, shield_signal: ShieldSignal::Ground },
        HarnessPin { mechanism_pin: 2, shield_signal: ShieldSignal::Board3V3 },
        HarnessPin { mechanism_pin: 3, shield_signal: ShieldSignal::A0 },
    ]
}

pub fn arm_motor_encoder_harness() -> (h: [HarnessPin; 6])
    ensures
        h@ == spec_arm_motor_encoder_harness(),
{
    let h = [
        HarnessPin { mechanism_pin: 1, shield_signal: ShieldSignal::MaPlus },
        HarnessPin { mechanism_pin: 2, shield_signal: ShieldSignal::Vcc50 },
        HarnessPin { mechanism_pin: 3, shield_signal: ShieldSignal::Encoder1A },
        HarnessPin { mechanism_pin: 4, shield_signal: ShieldSignal::Encoder1B },
        HarnessPin { mechanism_pin: 5, shield_signal: ShieldSignal::Ground },
        HarnessPin { mechanism_pin: 6, shield_signal: ShieldSignal::MaMinus },
    ];
    assert(h@ =~= spec_arm_motor_encoder_harness());
    h
}

pub fn pendulum_sensor_harness() -> (h: [HarnessPin; 3])
    ensures
        h@ == spec_pendulum_sensor_harness(),
{
    let h = [
        HarnessPin { mechanism_pin: 1, shield_signal: ShieldSignal::Ground },
        HarnessPin { mechanism_pin: 2, shield_signal: ShieldSignal::Board3V3 },
        HarnessPin { mechanism_pin: 3, shield_signal: ShieldSignal::A0 },
    ];
    assert(h@ =~= spec_pendulum_sensor_harness());
    h
}

/// The board wiring matches the shield: motor A on GPIO 10/13/12, encoder 1
/// on GPIO 9/2, pendulum on ADC0 at GPIO 26.
pub fn board_mapping_is_consistent() -> (b: bool)
    ensures
        b,
{
    let motor = arm_motor();
    let encoder = arm_encoder();
    let adc = pendulum_adc();
    motor.pwm.gpio == 10 && motor.direction_1.gpio == 13 && motor.direction_2.gpio == 12
        && encoder.channel_a.gpio == 9 && encoder.channel_b.gpio == 2 && adc.gpio == 26
        && adc.channel == 0
}

/// The pendulum harness never sources the sensor from the 5 V shield rail.
pub proof fn lemma_pendulum_sensor_is_not_on_vcc50()
    ensures
        forall|i: int|
            0 <= i < 3 ==> #[trigger] spec_pendulum_sensor_harness()[i].shield_signal
                != ShieldSignal::Vcc50,
{
}

} // verus!
