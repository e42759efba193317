use rip::arm_encoder;
use rip::estimator_input::{promotion_timestamp, usable, AdapterError, EncoderCounterAccumulator};
use rip::pendulum_adc::PendulumAdcSensor;
use rip::plant_observation::{
    MeasurementQuality, RawArmEncoderObservation, RawObservation, RawPendulumObservation,
};
use rip::robot_domain::TimestampUs;
use rip::runtime_state::SensorTimingHealth;
use rip::timing_evidence::{div_ceil_u32, snapshot, RuntimeTimingCharacterizer};

fn good_quality() -> MeasurementQuality {
    MeasurementQuality::available() | MeasurementQuality::io_ok() | MeasurementQuality::timing_valid()
}

fn observation_with(pendulum: MeasurementQuality, encoder: MeasurementQuality) -> RawObservation {
    RawObservation {
        sample_index: 7,
        pendulum: RawPendulumObservation {
            captured_at: TimestampUs(100),
            adc_raw: 2_010,
            quality: pendulum,
        },
        arm_encoder: RawArmEncoderObservation {
            captured_at: TimestampUs(101),
            accumulated_count: 250,
            quality: encoder,
        },
    }
}

#[test]
fn encoder_accumulator_handles_forward_counter_wrap() {
    let mut accumulator = EncoderCounterAccumulator::new(65_530);
    assert_eq!(accumulator.update(4), 10);
}

#[test]
fn encoder_accumulator_handles_reverse_counter_wrap() {
    let mut accumulator = EncoderCounterAccumulator::new(4);
    assert_eq!(accumulator.update(65_530), -10);
}

#[test]
fn extends_forward_counter_wrap() {
    let mut accumulator = arm_encoder::EncoderCounterAccumulator::new(65_530);
    assert_eq!(accumulator.update(4), 10);
}

#[test]
fn extends_reverse_counter_wrap() {
    let mut accumulator = arm_encoder::EncoderCounterAccumulator::new(4);
    assert_eq!(accumulator.update(65_530), -10);
}

#[test]
fn accumulated_count_tracks_successive_updates() {
    let mut accumulator = arm_encoder::EncoderCounterAccumulator::new(100);
    assert_eq!(accumulator.update(150), 50);
    assert_eq!(accumulator.update(120), 20);
    assert_eq!(accumulator.accumulated_count(), 20);
}

#[test]
fn encoder_observation_carries_capture_time_and_quality() {
    let mut accumulator = arm_encoder::EncoderCounterAccumulator::new(0);
    let observation = accumulator.observation(25, TimestampUs(9), good_quality());
    assert_eq!(observation.accumulated_count, 25);
    assert_eq!(observation.captured_at, TimestampUs(9));
    assert_eq!(observation.quality, good_quality());
}

#[test]
fn counter_delta_takes_the_shortest_signed_step() {
    assert_eq!(arm_encoder::wrapping_counter_delta(0, 65_535), 1);
    assert_eq!(arm_encoder::wrapping_counter_delta(65_535, 0), -1);
    assert_eq!(arm_encoder::wrapping_counter_delta(32_768, 0), -32_768);
}

#[test]
fn accumulated_count_saturates_at_i32_bounds() {
    assert_eq!(arm_encoder::saturating_add(i32::MAX, 5), i32::MAX);
    assert_eq!(arm_encoder::saturating_add(i32::MIN, -5), i32::MIN);
    assert_eq!(arm_encoder::saturating_add(-7, 5), -2);
}

#[test]
fn packages_raw_adc_without_applying_calibration() {
    let quality = MeasurementQuality::available() | MeasurementQuality::io_ok();
    let observation = PendulumAdcSensor::observation(2_928, TimestampUs(42), quality);
    assert_eq!(observation.adc_raw, 2_928);
    assert_eq!(observation.captured_at, TimestampUs(42));
    assert_eq!(observation.quality, quality);
}

#[test]
fn quality_flags_combine_by_union() {
    let mut quality = MeasurementQuality::none();
    quality |= MeasurementQuality::available();
    quality |= MeasurementQuality::stale();
    assert_eq!(quality.bits(), 0x9);
    assert!(quality.contains(MeasurementQuality::stale()));
    assert!(!quality.contains(MeasurementQuality::io_ok()));
}

#[test]
fn raw_observation_promotes_the_later_capture_time() {
    let observation = observation_with(good_quality(), good_quality());
    assert_eq!(promotion_timestamp(observation), Ok(TimestampUs(101)));
}

#[test]
fn stale_sensor_evidence_is_not_promoted() {
    let stale = good_quality() | MeasurementQuality::stale();
    let observation = observation_with(stale, good_quality());
    assert!(!usable(stale));
    assert_eq!(
        promotion_timestamp(observation),
        Err(AdapterError::PendulumEvidenceUnavailable)
    );
}

#[test]
fn arm_encoder_without_timing_is_not_promoted() {
    let weak = MeasurementQuality::available() | MeasurementQuality::io_ok();
    let observation = observation_with(good_quality(), weak);
    assert_eq!(
        promotion_timestamp(observation),
        Err(AdapterError::ArmEncoderEvidenceUnavailable)
    );
}

#[test]
fn division_rounds_execution_time_up() {
    assert_eq!(div_ceil_u32(73, 72), 2);
    assert_eq!(div_ceil_u32(72, 72), 1);
}

#[test]
fn division_of_zero_cycles_is_zero() {
    assert_eq!(div_ceil_u32(0, 72), 0);
    assert_eq!(div_ceil_u32(u32::MAX, 1), u32::MAX);
}

#[test]
fn first_admission_records_no_period() {
    let mut characterizer = RuntimeTimingCharacterizer::new(1_000);
    characterizer.observe_admission(5_000, 3);
    let evidence = snapshot(&characterizer);
    assert_eq!(evidence.admission_count, 1);
    assert_eq!(evidence.elapsed_ms, 5);
    assert_eq!(evidence.last_period_us, 0);
    assert_eq!(evidence.min_period_us, u32::MAX);
    assert_eq!(evidence.max_tick_phase_us, 3);
}

#[test]
fn skipped_admissions_are_inferred_as_missed_ticks() {
    let mut characterizer = RuntimeTimingCharacterizer::new(1_000);
    characterizer.observe_admission(1_000, 0);
    characterizer.observe_admission(2_010, 0);
    characterizer.observe_admission(5_000, 0);
    let evidence = snapshot(&characterizer);
    assert_eq!(evidence.admission_count, 3);
    assert_eq!(evidence.last_period_us, 2_990);
    assert_eq!(evidence.min_period_us, 1_010);
    assert_eq!(evidence.max_period_us, 2_990);
    assert_eq!(evidence.max_period_jitter_us, 10);
    assert_eq!(evidence.inferred_missed_tick_count, 2);
}

#[test]
fn long_cycles_count_as_deadline_overruns() {
    let mut characterizer = RuntimeTimingCharacterizer::new(1_000);
    characterizer.finish_cycle(72_000, 72);
    characterizer.finish_cycle(72_001, 72);
    let evidence = snapshot(&characterizer);
    assert_eq!(evidence.last_execution_us, 1_001);
    assert_eq!(evidence.max_execution_us, 1_001);
    assert_eq!(evidence.max_execution_cycles, 72_001);
    assert_eq!(evidence.deadline_overrun_count, 1);
}

#[test]
fn supervisor_and_error_counters_accumulate() {
    let mut characterizer = RuntimeTimingCharacterizer::new(1_000);
    characterizer.observe_supervisor_health(SensorTimingHealth::Late);
    characterizer.observe_supervisor_health(SensorTimingHealth::Timeout);
    characterizer.observe_supervisor_health(SensorTimingHealth::Healthy);
    characterizer.record_adc_error();
    characterizer.record_runtime_error();
    characterizer.record_runtime_error();
    let evidence = snapshot(&characterizer);
    assert_eq!(evidence.supervisor_late_count, 1);
    assert_eq!(evidence.supervisor_timeout_count, 1);
    assert_eq!(evidence.adc_error_count, 1);
    assert_eq!(evidence.runtime_error_count, 2);
}
