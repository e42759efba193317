//! Forest S1 D1 (STM32F103) board pin and peripheral wiring.
use vstd::prelude::*;

verus! {

#[derive(Clone, Copy, Debug, PartialEq, Eq, Structural)]
pub enum Port {
    A,
    B,
}

#[derive(Clone, Copy, Debug, PartialEq, Eq, Structural)]
pub struct Pin {
    pub port: Port,
    pub index: u8,
}

impl Pin {
    pub fn new(port: Port, index: u8) -> (p: Self)
        ensures
            p == (Pin { port, index }),
    {
        Pin { port, index }
    }
}

#[derive(Clone, Copy, Debug, PartialEq, Eq, Structural)]
pub enum TimerChannel {
    Tim2Ch1,
    Tim2Ch2,
    Tim3Ch3,
    Tim3Ch4,
}

#[derive(Clone, Copy, Debug, PartialEq, Eq, Structural)]
pub struct AdcWiring {
    pub pin: Pin,
    pub channel: u8,
}

#[derive(Clone, Copy, Debug, PartialEq, Eq, Structural)]
pub struct EncoderWiring {
    pub channel_a_pin: Pin,
    pub channel_a_timer: TimerChannel,
    pub channel_b_pin: Pin,
    pub channel_b_timer: TimerChannel,
}

#[derive(Clone, Copy, Debug, PartialEq, Eq, Structural)]
pub struct MotorWiring {
    pub pwm_pin: Pin,
    pub pwm_timer: TimerChannel,
    pub direction_1_pin: Pin,
    pub direction_2_pin: Pin,
}

#[derive(Clone, Copy, Debug, PartialEq, Eq, Structural)]
pub struct SerialWiring {
    pub tx_pin: Pin,
    pub rx_pin: Pin,
}

#[derive(Clone, Copy, Debug, PartialEq, Eq, Structural)]
pub struct OledWiring {
    pub clock_pin: Pin,
    pub data_pin: Pin,
    pub reset_pin: Pin,
    pub dc_pin: Pin,
}

pub const HSE_MHZ: u32 = 8;

pub const SYSTEM_CLOCK_MHZ: u32 = 72;

pub const SYSTEM_CLOCK_HZ: u32 = SYSTEM_CLOCK_MHZ * 1_000_000;

pub const OLED_REQUIRES_JTAG_DISABLE: bool = true;

pub const CONTROL_TICK_HZ: u32 = 1_000;

pub const MOTOR_PWM_HZ: u32 = 20_000;

pub const UART_BAUD: u32 = 115_200;

pub const OLED_SOFTWARE_SPI_HALF_PERIOD_PADDING: u8 = 6;

/// The board's microcontroller.
pub fn mcu() -> (s: &'static str)
    ensures
        s@ == "STM32F103C8T6"@,
{
    "STM32F103C8T6"
}

pub open spec fn pin(port: Port, index: u8) -> Pin {
    Pin { port, index }
}

pub open spec fn spec_pendulum_adc() -> AdcWiring {
    AdcWiring { pin: pin(Port::A, 7), channel: 7 }
}

pub open spec fn spec_battery_adc() -> AdcWiring {
    AdcWiring { pin: pin(Port::A, 6), channel: 6 }
}

pub open spec fn spec_arm_encoder() -> EncoderWiring {
    EncoderWiring {
        channel_a_pin: pin(Port::A, 0),
        channel_a_timer: TimerChannel::Tim2Ch1,
        channel_b_pin: pin(Port::A, 1),
        channel_b_timer: TimerChannel::Tim2Ch2,
    }
}

pub open spec fn spec_motor_d1() -> MotorWiring {
    MotorWiring {
        pwm_pin: pin(Port::B, 0),
        pwm_timer: TimerChannel::Tim3Ch3,
        direction_1_pin: pin(Port::B, 14),
        direction_2_pin: pin(Port::B, 15),
    }
}

pub open spec fn spec_motor_d2() -> MotorWiring {
    MotorWiring {
        pwm_pin: pin(Port::B, 1),
        pwm_timer: TimerChannel::Tim3Ch4,
        direction_1_pin: pin(Port::B, 13),
        direction_2_pin: pin(Port::B, 12),
    }
}

pub open spec fn spec_main_uart() -> SerialWiring {
    SerialWiring { tx_pin: pin(Port::A, 9), rx_pin: pin(Port::A, 10) }
}

pub open spec fn spec_oled() -> OledWiring {
    OledWiring {
        clock_pin: pin(Port::B, 5),
        data_pin: pin(Port::B, 4),
        reset_pin: pin(Port::B, 3),
        dc_pin: pin(Port::A, 15),
    }
}

pub fn pendulum_adc() -> (w: AdcWiring)
    ensures
        w == spec_pendulum_adc(),
{
    AdcWiring { pin: Pin::new(Port::A, 7), channel: 7 }
}

pub fn battery_adc() -> (w: AdcWiring)
    ensures
        w == spec_battery_adc(),
{
    AdcWiring { pin: Pin::new(Port::A, 6), channel: 6 }
}

pub fn arm_encoder() -> (w: EncoderWiring)
    ensures
        w == spec_arm_encoder(),
{
    EncoderWiring {
        channel_a_pin: Pin::new(Port::A, 0),
        channel_a_timer: TimerChannel::Tim2Ch1,
        channel_b_pin: Pin::new(Port::A, 1),
        channel_b_timer: TimerChannel::Tim2Ch2,
    }
}

pub fn motor_d1() -> (w: MotorWiring)
    ensures
        w == spec_motor_d1(),
{
    MotorWiring {
        pwm_pin: Pin::new(Port::B, 0),
        pwm_timer: TimerChannel::Tim3Ch3,
        direction_1_pin: Pin::new(Port::B, 14),
        direction_2_pin: Pin::new(Port::B, 15),
    }
}

pub fn motor_d2() -> (w: MotorWiring)
    ensures
        w == spec_motor_d2(),
{
    MotorWiring {
        pwm_pin: Pin::new(Port::B, 1),
        pwm_timer: TimerChannel::Tim3Ch4,
        direction_1_pin: Pin::new(Port::B, 13),
        direction_2_pin: Pin::new(Port::B, 12),
    }
}

pub fn main_uart() -> (w: SerialWiring)
    ensures
        w == spec_main_uart(),
{
    SerialWiring { tx_pin: Pin::new(Port::A, 9), rx_pin: Pin::new(Port::A, 10) }
}

pub fn oled() -> (w: OledWiring)
    ensures
        w == spec_oled(),
{
    OledWiring {
        clock_pin: Pin::new(Port::B, 5),
        data_pin: Pin::new(Port::B, 4),
        reset_pin: Pin::new(Port::B, 3),
        dc_pin: Pin::new(Port::A, 15),
    }
}

pub fn swdio() -> (p: Pin)
    ensures
        p == pin(Port::A, 13),
{
    Pin::new(Port::A, 13)
}

pub fn swclk() -> (p: Pin)
    ensures
        p == pin(Port::A, 14),
{
    Pin::new(Port::A, 14)
}

pub fn key_m() -> (p: Pin)
    ensures
        p == pin(Port::A, 3),
{
    Pin::new(Port::A, 3)
}

pub fn key_x() -> (p: Pin)
    ensures
        p == pin(Port::A, 2),
{
    Pin::new(Port::A, 2)
}

pub fn key_plus() -> (p: Pin)
    ensures
        p == pin(Port::A, 11),
{
    Pin::new(Port::A, 11)
}

pub fn key_minus() -> (p: Pin)
    ensures
        p == pin(Port::A, 12),
{
    Pin::new(Port::A, 12)
}

pub fn key_user() -> (p: Pin)
    ensures
        p == pin(Port::A, 5),
{
    Pin::new(Port::A, 5)
}

pub fn user_led() -> (p: Pin)
    ensures
        p == pin(Port::A, 4),
{
    Pin::new(Port::A, 4)
}

/// The OLED wiring claims neither serial-wire-debug pin, so SWD stays usable
/// after JTAG is disabled.
pub proof fn lemma_oled_wiring_keeps_swd_free()
    ensures
        ({
            let o = spec_oled();
            let swd = seq![pin(Port::A, 13), pin(Port::A, 14)];
            &&& !swd.contains(o.clock_pin)
            &&& !swd.contains(o.data_pin)
            &&& !swd.contains(o.reset_pin)
            &&& !swd.contains(o.dc_pin)
        }),
{
    let swd = seq![pin(Port::A, 13), pin(Port::A, 14)];
    assert(swd[0] == pin(Port::A, 13) && swd[1] == pin(Port::A, 14));
}

} // verus!
