use rip::assembly_forest_d1_reference::{
    d1_population, d2_population, telemetry_period_ticks, ui_period_ticks, ActuatorRole,
    MotorPopulation,
};
use rip::assembly_rp2350_uno_balance::{
    arm_motor_encoder_harness, board_mapping_is_consistent, pendulum_sensor_harness,
    rotary_arm_channel, ShieldMotorChannel, ShieldSignal, CONTROL_OUTPUT_DEFAULT_ENABLED,
};
use rip::board_forest_s1_d1::{self as forest, Port};
use rip::board_uno_rp2350::{self as uno, PENDULUM_SENSOR_SUPPLY_MV};

#[test]
fn mechanism_harness_selects_motor_a_and_encoder1() {
    let harness = arm_motor_encoder_harness();
    assert_eq!(rotary_arm_channel(), ShieldMotorChannel::A);
    assert_eq!(harness[0].shield_signal, ShieldSignal::MaPlus);
    assert_eq!(harness[2].shield_signal, ShieldSignal::Encoder1A);
    assert_eq!(harness[3].shield_signal, ShieldSignal::Encoder1B);
    assert_eq!(harness[5].shield_signal, ShieldSignal::MaMinus);
}

#[test]
fn pendulum_sensor_uses_board_3v3_not_vcc50() {
    let harness = pendulum_sensor_harness();
    assert_eq!(harness[1].shield_signal, ShieldSignal::Board3V3);
    assert_eq!(harness[2].shield_signal, ShieldSignal::A0);
}

#[test]
fn control_output_is_safe_by_default() {
    assert!(!CONTROL_OUTPUT_DEFAULT_ENABLED);
}

#[test]
fn board_mapping_is_consistent_for_uno_balance() {
    assert!(board_mapping_is_consistent());
}

#[test]
fn debug_port_and_oled_wiring_do_not_claim_swd_pins() {
    assert_ne!(forest::oled().clock_pin, forest::swdio());
    assert_ne!(forest::oled().data_pin, forest::swclk());
}

#[test]
fn oled_pins_sit_on_expected_ports() {
    let oled = forest::oled();
    assert_eq!(oled.clock_pin.port, Port::B);
    assert_eq!(oled.clock_pin.index, 5);
    assert_eq!(oled.dc_pin.port, Port::A);
    assert_eq!(oled.dc_pin.index, 15);
}

#[test]
fn rotary_arm_mapping_matches_uno_balance_channel_a() {
    assert_eq!(uno::arm_motor().pwm.gpio, 10);
    assert_eq!(uno::arm_motor().direction_1.gpio, 13);
    assert_eq!(uno::arm_motor().direction_2.gpio, 12);
    assert_eq!(uno::arm_encoder().channel_a.gpio, 9);
    assert_eq!(uno::arm_encoder().channel_b.gpio, 2);
}

#[test]
fn pendulum_angle_uses_adc0_on_gpio26() {
    assert_eq!(uno::pendulum_adc().gpio, 26);
    assert_eq!(uno::pendulum_adc().channel, 0);
    assert_eq!(PENDULUM_SENSOR_SUPPLY_MV, 3_300);
}

#[test]
fn active_rotary_signals_do_not_share_gpio() {
    let pins = [
        uno::arm_motor().pwm.gpio,
        uno::arm_motor().direction_1.gpio,
        uno::arm_motor().direction_2.gpio,
        uno::arm_encoder().channel_a.gpio,
        uno::arm_encoder().channel_b.gpio,
        uno::pendulum_adc().gpio,
    ];

    for (index, pin) in pins.iter().enumerate() {
        assert!(!pins[index + 1..].contains(pin));
    }
}

#[test]
fn reference_assembly_maps_the_installed_motor_to_d2() {
    assert_eq!(d2_population(), MotorPopulation::Installed(ActuatorRole::RotaryArm));
    assert_eq!(d1_population(), MotorPopulation::NotInstalled);
    assert_eq!(forest::motor_d2().pwm_pin.index, 1);
    assert_eq!(forest::motor_d1().pwm_pin.index, 0);
}

#[test]
fn reference_sensors_match_board_wiring() {
    assert_eq!(forest::pendulum_adc().channel, 7);
    assert_eq!(forest::arm_encoder().channel_a_pin.index, 0);
    assert_eq!(telemetry_period_ticks(1_000), 100);
    assert_eq!(ui_period_ticks(1_000), 100);
}

#[test]
fn period_ticks_round_down() {
    assert_eq!(telemetry_period_ticks(1_005), 100);
    assert_eq!(ui_period_ticks(9), 0);
}
