//! UNO-form-factor RP2350 board wiring for the rotary arm and pendulum.
use vstd::prelude::*;

verus! {

#[derive(Clone, Copy, Debug, PartialEq, Eq, Structural)]
pub enum ArduinoPin {
    D2,
    D9,
    D10,
    D12,
    D13,
    A0,
}

#[derive(Clone, Copy, Debug, PartialEq, Eq, Structural)]
pub struct DigitalPin {
    pub arduino: ArduinoPin,
    pub gpio: u8,
}

impl DigitalPin {
    pub fn new(arduino: ArduinoPin, gpio: u8) -> (p: Self)
        ensures
            p == (DigitalPin { arduino, gpio }),
    {
        DigitalPin { arduino, gpio }
    }
}

#[derive(Clone, Copy, Debug, PartialEq, Eq, Structural)]
pub struct AdcWiring {
    pub arduino: ArduinoPin,
    pub gpio: u8,
    pub channel: u8,
}

#[derive(Clone, Copy, Debug, PartialEq, Eq, Structural)]
pub struct EncoderWiring {
    pub channel_a: DigitalPin,
    pub channel_b: DigitalPin,
}

#[derive(Clone, Copy, Debug, PartialEq, Eq, Structural)]
pub struct MotorWiring {
    pub pwm: DigitalPin,
    pub direction_1: DigitalPin,
    pub direction_2: DigitalPin,
}

pub const XTAL_FREQ_HZ: u32 = 12_000_000;

pub const CONTROL_TICK_HZ: u32 = 1_000;

pub const MOTOR_PWM_HZ: u32 = 20_000;

pub const ENCODER_SUPPLY_MV: u32 = 5_000;

pub const PENDULUM_SENSOR_SUPPLY_MV: u32 = 3_300;

/// The board's microcontroller.
pub fn mcu() -> (s: &'static str)
    ensures
        s@ == "RP2350A"@,
{
    "RP2350A"
}

pub open spec fn spec_arm_motor() -> MotorWiring {
    MotorWiring {
        pwm: DigitalPin { arduino: ArduinoPin::D10, gpio: 10 },
        direction_1: DigitalPin { arduino: ArduinoPin::D13, gpio: 13 },
        direction_2: DigitalPin { arduino: ArduinoPin::D12, gpio: 12 },
    }
}

pub open spec fn spec_arm_encoder() -> EncoderWiring {
    EncoderWiring {
        channel_a: DigitalPin { arduino: ArduinoPin::D9, gpio: 9 },
        channel_b: DigitalPin { arduino: ArduinoPin::D2, gpio: 2 },
    }
}

pub open spec fn spec_pendulum_adc() -> AdcWiring {
    AdcWiring { arduino: ArduinoPin::A0, gpio: 26, channel: 0 }
}

pub fn arm_motor() -> (w: MotorWiring)
    ensures
        w == spec_arm_motor(),
{
    MotorWiring {
        pwm: DigitalPin::new(ArduinoPin::D10, 10),
        direction_1: DigitalPin::new(ArduinoPin::D13, 13),
        direction_2: DigitalPin::new(ArduinoPin::D12, 12),
    }
}

pub fn arm_encoder() -> (w: EncoderWiring)
    ensures
        w == spec_arm_encoder(),
{
    EncoderWiring {
        channel_a: DigitalPin::new(ArduinoPin::D9, 9),
        channel_b: DigitalPin::new(ArduinoPin::D2, 2),
    }
}

pub fn pendulum_adc() -> (w: AdcWiring)
    ensures
        w == spec_pendulum_adc(),
{
    AdcWiring { arduino: ArduinoPin::A0, gpio: 26, channel: 0 }
}

/// The GPIOs of the active rotary signals: motor PWM and directions, both
/// encoder channels, and the pendulum ADC input.
pub open spec fn active_rotary_gpios() -> Seq<u8> {
    seq![
        spec_arm_motor().pwm.gpio,
        spec_arm_motor().direction_1.gpio,
        spec_arm_motor().direction_2.gpio,
        spec_arm_encoder().channel_a.gpio,
        spec_arm_encoder().channel_b.gpio,
        spec_pendulum_adc().gpio,
    ]
}

/// No two active rotary signals share a GPIO.
pub proof fn lemma_active_rotary_signals_do_not_share_gpio()
    ensures
        forall|i: int, j: int|
            0 <= i < j < 6 ==> #[trigger] active_rotary_gpios()[i] != #[trigger] active_rotary_gpios()[j],
{
}

} // verus!
