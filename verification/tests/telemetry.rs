use rip::runtime_observation::RuntimeRecordSnapshot;
use rip::telemetry::{
    encode_runtime_packet, packet_crc_is_valid, record_outcome, TelemetryPublisher,
    TelemetryPublisherStats, TelemetrySnapshot, TelemetryTransport, TelemetryTxOutcome,
    TELEMETRY_PACKET_KIND_RUNTIME, TELEMETRY_PACKET_LEN, TELEMETRY_PROTOCOL_VERSION,
};
use rip::timing_evidence::TimingEvidenceSnapshot;

#[derive(Default)]
struct MockTransport {
    busy_once: bool,
    packets: Vec<[u8; TELEMETRY_PACKET_LEN]>,
}

impl TelemetryTransport for MockTransport {
    type Error = ();

    fn try_send(&mut self, packet: &[u8]) -> Result<TelemetryTxOutcome, Self::Error> {
        if self.busy_once {
            self.busy_once = false;
            return Ok(TelemetryTxOutcome::Busy);
        }
        let mut copy = [0_u8; TELEMETRY_PACKET_LEN];
        copy.copy_from_slice(packet);
        self.packets.push(copy);
        Ok(TelemetryTxOutcome::Sent)
    }
}

struct FailingTransport;

impl TelemetryTransport for FailingTransport {
    type Error = u8;

    fn try_send(&mut self, _packet: &[u8]) -> Result<TelemetryTxOutcome, Self::Error> {
        Err(9)
    }
}

fn snapshot(sample_index: u32) -> TelemetrySnapshot {
    TelemetrySnapshot {
        sample_index,
        timestamp_us_low: sample_index * 1_000,
        cycle: 3,
        control_regime: 2,
        sensor_timing_health: 1,
        watchdog_health: 1,
        authorized: false,
        actuator_saturated: false,
        qualification_reasons: 0x12,
        authority_reasons: 0x34,
        theta_mrad: -45,
        theta_dot_mrad_s: 12,
        phi_mrad: 123,
        phi_dot_mrad_s: -8,
        demand_torque_unm: 7_000,
        bounded_command_ppm: 91_000,
        predicted_torque_unm: 6_500,
        inferred_missed_ticks: 2,
    }
}

#[test]
fn packet_has_identity_sequence_and_crc() {
    let packet = encode_runtime_packet(7, snapshot(11));
    assert_eq!(&packet[0..2], b"RI");
    assert_eq!(packet[2], TELEMETRY_PROTOCOL_VERSION);
    assert_eq!(packet[3], TELEMETRY_PACKET_KIND_RUNTIME);
    assert_eq!(u32::from_le_bytes(packet[4..8].try_into().unwrap()), 7);
    assert_eq!(u32::from_le_bytes(packet[12..16].try_into().unwrap()), 11);
    assert!(packet_crc_is_valid(&packet));
}

#[test]
fn packet_fields_sit_at_fixed_little_endian_offsets() {
    let packet = encode_runtime_packet(0x0102_0304, snapshot(11));
    assert_eq!(&packet[4..8], &[0x04, 0x03, 0x02, 0x01]);
    assert_eq!(u32::from_le_bytes(packet[8..12].try_into().unwrap()), 11_000);
    assert_eq!(&packet[16..24], &[3, 2, 1, 1, 0, 0, 0, 0]);
    assert_eq!(u32::from_le_bytes(packet[24..28].try_into().unwrap()), 0x12);
    assert_eq!(u32::from_le_bytes(packet[28..32].try_into().unwrap()), 0x34);
    assert_eq!(i32::from_le_bytes(packet[32..36].try_into().unwrap()), -45);
    assert_eq!(i32::from_le_bytes(packet[44..48].try_into().unwrap()), -8);
    assert_eq!(i32::from_le_bytes(packet[52..56].try_into().unwrap()), 91_000);
    assert_eq!(u16::from_le_bytes(packet[60..62].try_into().unwrap()), 2);
}

#[test]
fn packet_crc_is_ccitt_false_over_the_first_62_bytes() {
    let packet = encode_runtime_packet(7, snapshot(11));
    let mut crc: u16 = 0xffff;
    for byte in &packet[0..62] {
        crc ^= (*byte as u16) << 8;
        for _ in 0..8 {
            crc = if crc & 0x8000 != 0 { (crc << 1) ^ 0x1021 } else { crc << 1 };
        }
    }
    assert_eq!(u16::from_le_bytes(packet[62..64].try_into().unwrap()), crc);
}

#[test]
fn corrupted_packet_fails_crc_check() {
    let mut packet = encode_runtime_packet(7, snapshot(11));
    packet[20] ^= 1;
    assert!(!packet_crc_is_valid(&packet));
}

#[test]
fn busy_transport_drops_current_snapshot_without_replay() {
    let transport = MockTransport { busy_once: true, packets: Vec::new() };
    let mut publisher = TelemetryPublisher::new(transport);
    assert_eq!(publisher.publish_latest(snapshot(1)).unwrap(), TelemetryTxOutcome::Busy);
    assert_eq!(publisher.publish_latest(snapshot(2)).unwrap(), TelemetryTxOutcome::Sent);
    assert_eq!(publisher.stats().dropped_busy, 1);
    let transport = publisher.into_transport();
    assert_eq!(transport.packets.len(), 1);
    assert_eq!(u32::from_le_bytes(transport.packets[0][12..16].try_into().unwrap()), 2);
}

#[test]
fn sequence_advances_on_every_opportunity() {
    let transport = MockTransport { busy_once: true, packets: Vec::new() };
    let mut publisher = TelemetryPublisher::new(transport);
    publisher.publish_latest(snapshot(1)).unwrap();
    let expected = publisher.next_packet(snapshot(2));
    publisher.publish_latest(snapshot(2)).unwrap();
    assert_eq!(publisher.stats().opportunities, 2);
    assert_eq!(publisher.stats().sent, 1);
    let transport = publisher.into_transport();
    assert_eq!(transport.packets[0], expected);
    assert_eq!(u32::from_le_bytes(transport.packets[0][4..8].try_into().unwrap()), 1);
}

#[test]
fn transport_error_is_returned_and_not_counted_as_sent() {
    let mut publisher = TelemetryPublisher::new(FailingTransport);
    assert_eq!(publisher.publish_latest(snapshot(1)), Err(9));
    assert_eq!(publisher.stats().opportunities, 1);
    assert_eq!(publisher.stats().sent, 0);
    assert_eq!(publisher.stats().dropped_busy, 0);
}

#[test]
fn record_outcome_counts_each_answer() {
    let stats = TelemetryPublisherStats { opportunities: 3, sent: 1, dropped_busy: 1 };
    let sent = record_outcome(stats, TelemetryTxOutcome::Sent);
    assert_eq!(sent, TelemetryPublisherStats { opportunities: 3, sent: 2, dropped_busy: 1 });
    let busy = record_outcome(stats, TelemetryTxOutcome::Busy);
    assert_eq!(busy, TelemetryPublisherStats { opportunities: 3, sent: 1, dropped_busy: 2 });
}

#[test]
fn snapshot_from_records_saturates_narrow_fields() {
    let runtime = RuntimeRecordSnapshot {
        cycle: 300,
        control_regime: 2,
        sample_index: 5,
        ..RuntimeRecordSnapshot::default()
    };
    let timing = TimingEvidenceSnapshot {
        inferred_missed_tick_count: 70_000,
        ..TimingEvidenceSnapshot::default()
    };
    let s = TelemetrySnapshot::from_records(runtime, timing);
    assert_eq!(s.cycle, 255);
    assert_eq!(s.control_regime, 2);
    assert_eq!(s.sample_index, 5);
    assert_eq!(s.inferred_missed_ticks, u16::MAX);
}

#[test]
fn every_single_byte_change_breaks_the_crc() {
    let packet = encode_runtime_packet(0x0102_0304, snapshot(99));
    assert!(packet_crc_is_valid(&packet));
    for index in 0..packet.len() {
        for flip in 1..=255u8 {
            let mut corrupted = packet;
            corrupted[index] ^= flip;
            assert!(!packet_crc_is_valid(&corrupted), "byte {} xor {}", index, flip);
        }
    }
}
