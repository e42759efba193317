//! Latest-snapshot runtime telemetry protocol.
//!
//! One fixed-size little-endian packet per publication opportunity, closed by
//! a CRC-16/CCITT-FALSE over the first 62 bytes. A busy transport drops the
//! opportunity; nothing is queued for replay.
use vstd::prelude::*;

use crate::runtime_observation::RuntimeRecordSnapshot;
use crate::timing_evidence::{TimingEvidenceSnapshot, wrap_inc};

verus! {

pub const TELEMETRY_PROTOCOL_VERSION: u8 = 1;

pub const TELEMETRY_PACKET_KIND_RUNTIME: u8 = 1;

pub const TELEMETRY_PACKET_LEN: usize = 64;

/// Number of leading packet bytes that the CRC covers.
pub const TELEMETRY_CRC_COVERED_LEN: usize = 62;

#[derive(Clone, Copy, Debug, PartialEq, Eq, Structural)]
pub struct TelemetrySnapshot {
    pub timestamp_us_low: u32,
    pub sample_index: u32,
    pub cycle: u8,
    pub control_regime: u8,
    pub sensor_timing_health: u8,
    pub watchdog_health: u8,
    pub authorized: bool,
    pub actuator_saturated: bool,
    pub qualification_reasons: u32,
    pub authority_reasons: u32,
    pub theta_mrad: i32,
    pub theta_dot_mrad_s: i32,
    pub phi_mrad: i32,
    pub phi_dot_mrad_s: i32,
    pub demand_torque_unm: i32,
    pub bounded_command_ppm: i32,
    pub predicted_torque_unm: i32,
    pub inferred_missed_ticks: u16,
}

impl Default for TelemetrySnapshot {
    fn default() -> (s: Self)
        ensures
            s == (TelemetrySnapshot {
                timestamp_us_low: 0,
                sample_index: 0,
                cycle: 0,
                control_regime: 0,
                sensor_timing_health: 0,
                watchdog_health: 0,
                authorized: false,
                actuator_saturated: false,
                qualification_reasons: 0,
                authority_reasons: 0,
                theta_mrad: 0,
                theta_dot_mrad_s: 0,
                phi_mrad: 0,
                phi_dot_mrad_s: 0,
                demand_torque_unm: 0,
                bounded_command_ppm: 0,
                predicted_torque_unm: 0,
                inferred_missed_ticks: 0,
            }),
    {
        TelemetrySnapshot {
            timestamp_us_low: 0,
            sample_index: 0,
            cycle: 0,
            control_regime: 0,
            sensor_timing_health: 0,
            watchdog_health: 0,
            authorized: false,
            actuator_saturated: false,
            qualification_reasons: 0,
            authority_reasons: 0,
            theta_mrad: 0,
            theta_dot_mrad_s: 0,
            phi_mrad: 0,
            phi_dot_mrad_s: 0,
            demand_torque_unm: 0,
            bounded_command_ppm: 0,
            predicted_torque_unm: 0,
            inferred_missed_ticks: 0,
        }
    }
}

/// `x` clamped to the `u8` range.
pub open spec fn clamp_u8(x: u32) -> u8 {
    if x > u8::MAX {
        u8::MAX
    } else {
        x as u8
    }
}

/// `x` clamped to the `u16` range.
pub open spec fn clamp_u16(x: u32) -> u16 {
    if x > u16::MAX {
        u16::MAX
    } else {
        x as u16
    }
}

fn saturate_u8(x: u32) -> (r: u8)
    ensures
        r == clamp_u8(x),
{
    if x > u8::MAX as u32 {
        u8::MAX
    } else {
        x as u8
    }
}

fn saturate_u16(x: u32) -> (r: u16)
    ensures
        r == clamp_u16(x),
{
    if x > u16::MAX as u32 {
        u16::MAX
    } else {
        x as u16
    }
}

impl TelemetrySnapshot {
    /// The telemetry view of the runtime and timing records; code fields that
    /// do not fit one byte, and missed-tick counts that do not fit 16 bits,
    /// saturate.
    pub fn from_records(runtime: RuntimeRecordSnapshot, timing: TimingEvidenceSnapshot) -> (s:
        Self)
        ensures
            s == (TelemetrySnapshot {
                timestamp_us_low: runtime.timestamp_us_low,
                sample_index: runtime.sample_index,
                cycle: clamp_u8(runtime.cycle),
                control_regime: clamp_u8(runtime.control_regime),
                sensor_timing_health: clamp_u8(runtime.sensor_timing_health),
                watchdog_health: clamp_u8(runtime.watchdog_health),
                authorized: runtime.authorized,
                actuator_saturated: runtime.actuator_saturated,
                qualification_reasons: runtime.qualification_reasons,
                authority_reasons: runtime.authority_reasons,
                theta_mrad: runtime.theta_mrad,
                theta_dot_mrad_s: runtime.theta_dot_mrad_s,
                phi_mrad: runtime.phi_mrad,
                phi_dot_mrad_s: runtime.phi_dot_mrad_s,
                demand_torque_unm: runtime.demand_torque_unm,
                bounded_command_ppm: runtime.bounded_command_ppm,
                predicted_torque_unm: runtime.predicted_torque_unm,
                inferred_missed_ticks: clamp_u16(timing.inferred_missed_tick_count),
            }),
    {
        TelemetrySnapshot {
            timestamp_us_low: runtime.timestamp_us_low,
            sample_index: runtime.sample_index,
            cycle: saturate_u8(runtime.cycle),
            control_regime: saturate_u8(runtime.control_regime),
            sensor_timing_health: saturate_u8(runtime.sensor_timing_health),
            watchdog_health: saturate_u8(runtime.watchdog_health),
            authorized: runtime.authorized,
            actuator_saturated: runtime.actuator_saturated,
            qualification_reasons: runtime.qualification_reasons,
            authority_reasons: runtime.authority_reasons,
            theta_mrad: runtime.theta_mrad,
            theta_dot_mrad_s: runtime.theta_dot_mrad_s,
            phi_mrad: runtime.phi_mrad,
            phi_dot_mrad_s: runtime.phi_dot_mrad_s,
            demand_torque_unm: runtime.demand_torque_unm,
            bounded_command_ppm: runtime.bounded_command_ppm,
            predicted_torque_unm: runtime.predicted_torque_unm,
            inferred_missed_ticks: saturate_u16(timing.inferred_missed_tick_count),
        }
    }
}

// ---------------------------------------------------------------------------
// Wire format
// ---------------------------------------------------------------------------

/// Little-endian bytes of a `u16`.
pub open spec fn le16(v: u16) -> Seq<u8> {
    seq![v as u8, (v >> 8u16) as u8]
}

/// Little-endian bytes of a `u32`.
pub open spec fn le32(v: u32) -> Seq<u8> {
    seq![v as u8, (v >> 8u32) as u8, (v >> 16u32) as u8, (v >> 24u32) as u8]
}

/// The `u16` whose little-endian bytes are `b0, b1`.
pub open spec fn decode_le16(b0: u8, b1: u8) -> u16 {
    (b0 as u16) | ((b1 as u16) << 8u16)
}

/// The `u32` whose little-endian bytes start at `p[o]`.
pub open spec fn decode_le32(p: Seq<u8>, o: int) -> u32 {
    (p[o] as u32) | ((p[o + 1] as u32) << 8u32) | ((p[o + 2] as u32) << 16u32) | ((p[o
        + 3] as u32) << 24u32)
}

pub open spec fn bool_byte(b: bool) -> u8 {
    if b {
        1
    } else {
        0
    }
}

/// The 62 bytes of a runtime packet that the CRC covers.
pub open spec fn packet_body(sequence: u32, s: TelemetrySnapshot) -> Seq<u8> {
    seq![0x52u8, 0x49u8, TELEMETRY_PROTOCOL_VERSION, TELEMETRY_PACKET_KIND_RUNTIME] + le32(sequence)
        + le32(s.timestamp_us_low) + le32(s.sample_index) + seq![
        s.cycle,
        s.control_regime,
        s.sensor_timing_health,
        s.watchdog_health,
        bool_byte(s.authorized),
        bool_byte(s.actuator_saturated),
        0u8,
        0u8,
    ] + le32(s.qualification_reasons) + le32(s.authority_reasons) + le32(s.theta_mrad as u32)
        + le32(s.theta_dot_mrad_s as u32) + le32(s.phi_mrad as u32) + le32(
        s.phi_dot_mrad_s as u32,
    ) + le32(s.demand_torque_unm as u32) + le32(s.bounded_command_ppm as u32) + le32(
        s.predicted_torque_unm as u32,
    ) + le16(s.inferred_missed_ticks)
}

/// One CRC-16/CCITT-FALSE shift step (polynomial 0x1021).
pub open spec fn crc_shift(crc: u16) -> u16 {
    if crc & 0x8000u16 != 0 {
        (crc << 1u16) ^ 0x1021u16
    } else {
        crc << 1u16
    }
}

/// `k` shift steps.
pub open spec fn crc_shifts(crc: u16, k: nat) -> u16
    decreases k,
{
    if k == 0 {
        crc
    } else {
        crc_shift(crc_shifts(crc, (k - 1) as nat))
    }
}

/// The CRC register after folding in one byte.
pub open spec fn crc_byte(crc: u16, byte: u8) -> u16 {
    crc_shifts(crc ^ ((byte as u16) << 8u16), 8)
}

/// CRC-16/CCITT-FALSE (initial value 0xFFFF, no reflection, no final xor).
pub open spec fn spec_crc16(bytes: Seq<u8>) -> u16
    decreases bytes.len(),
{
    if bytes.len() == 0 {
        0xffff
    } else {
        crc_byte(spec_crc16(bytes.drop_last()), bytes.last())
    }
}

/// The complete 64-byte runtime packet.
pub open spec fn runtime_packet(sequence: u32, s: TelemetrySnapshot) -> Seq<u8> {
    packet_body(sequence, s) + le16(spec_crc16(packet_body(sequence, s)))
}

/// The trailing CRC of a 64-byte packet matches its first 62 bytes.
pub open spec fn spec_crc_is_valid(p: Seq<u8>) -> bool {
    spec_crc16(p.subrange(0, 62)) == decode_le16(p[62], p[63])
}

fn crc16_ccitt_false(bytes: &[u8]) -> (crc: u16)
    ensures
        crc == spec_crc16(bytes@),
{
    let mut crc: u16 = 0xffff;
    let mut i: usize = 0;
    while i < bytes.len()
        invariant
            i <= bytes@.len(),
            crc == spec_crc16(bytes@.subrange(0, i as int)),
        decreases bytes@.len() - i,
    {
        let byte = bytes[i];
        let start: u16 = crc ^ ((byte as u16) << 8u16);
        crc = start;
        let mut k: usize = 0;
        while k < 8
            invariant
                k <= 8,
                crc == crc_shifts(start, k as nat),
            decreases 8 - k,
        {
            crc = if crc & 0x8000 != 0 {
                (crc << 1u16) ^ 0x1021
            } else {
                crc << 1u16
            };
            k = k + 1;
        }
        proof {
            let next = bytes@.subrange(0, i + 1);
            assert(next.drop_last() =~= bytes@.subrange(0, i as int));
            assert(next.last() == byte);
        }
        i = i + 1;
    }
    proof {
        assert(bytes@.subrange(0, bytes@.len() as int) =~= bytes@);
    }
    crc
}

fn put_u16(out: &mut [u8; 64], offset: usize, value: u16)
    requires
        offset + 2 <= 64,
    ensures
        final(out)@ == old(out)@.update(offset as int, value as u8).update(
            offset + 1,
            (value >> 8u16) as u8,
        ),
{
    out[offset] = value as u8;
    out[offset + 1] = (value >> 8u16) as u8;
}

fn put_u32(out: &mut [u8; 64], offset: usize, value: u32)
    requires
        offset + 4 <= 64,
    ensures
        final(out)@ == old(out)@.update(offset as int, value as u8).update(
            offset + 1,
            (value >> 8u32) as u8,
        ).update(offset + 2, (value >> 16u32) as u8).update(offset + 3, (value >> 24u32) as u8),
{
    out[offset] = value as u8;
    out[offset + 1] = (value >> 8u32) as u8;
    out[offset + 2] = (value >> 16u32) as u8;
    out[offset + 3] = (value >> 24u32) as u8;
}

fn put_i32(out: &mut [u8; 64], offset: usize, value: i32)
    requires
        offset + 4 <= 64,
    ensures
        final(out)@ == old(out)@.update(offset as int, (value as u32) as u8).update(
            offset + 1,
            ((value as u32) >> 8u32) as u8,
        ).update(offset + 2, ((value as u32) >> 16u32) as u8).update(
            offset + 3,
            ((value as u32) >> 24u32) as u8,
        ),
{
    put_u32(out, offset, value as u32);
}

fn bool_to_byte(b: bool) -> (r: u8)
    ensures
        r == bool_byte(b),
{
    if b {
        1
    } else {
        0
    }
}

/// Encode one runtime packet: magic `RI`, version, kind, sequence, the
/// snapshot fields little-endian at fixed offsets, and the CRC.
pub fn encode_runtime_packet(sequence: u32, snapshot: TelemetrySnapshot) -> (out: [u8;
    TELEMETRY_PACKET_LEN])
    ensures
        out@ == runtime_packet(sequence, snapshot),
{
    let mut out = [0u8; 64];
    out[0] = 0x52;
    out[1] = 0x49;
    out[2] = TELEMETRY_PROTOCOL_VERSION;
    out[3] = TELEMETRY_PACKET_KIND_RUNTIME;
    put_u32(&mut out, 4, sequence);
    put_u32(&mut out, 8, snapshot.timestamp_us_low);
    put_u32(&mut out, 12, snapshot.sample_index);
    out[16] = snapshot.cycle;
    out[17] = snapshot.control_regime;
    out[18] = snapshot.sensor_timing_health;
    out[19] = snapshot.watchdog_health;
    out[20] = bool_to_byte(snapshot.authorized);
    out[21] = bool_to_byte(snapshot.actuator_saturated);
    put_u32(&mut out, 24, snapshot.qualification_reasons);
    put_u32(&mut out, 28, snapshot.authority_reasons);
    put_i32(&mut out, 32, snapshot.theta_mrad);
    put_i32(&mut out, 36, snapshot.theta_dot_mrad_s);
    put_i32(&mut out, 40, snapshot.phi_mrad);
    put_i32(&mut out, 44, snapshot.phi_dot_mrad_s);
    put_i32(&mut out, 48, snapshot.demand_torque_unm);
    put_i32(&mut out, 52, snapshot.bounded_command_ppm);
    put_i32(&mut out, 56, snapshot.predicted_torque_unm);
    put_u16(&mut out, 60, snapshot.inferred_missed_ticks);
    let ghost body = packet_body(sequence, snapshot);
    assert(out@.subrange(0, 62) =~= body);
    let crc = crc16_ccitt_false(&out[0..62]);
    put_u16(&mut out, 62, crc);
    assert(out@ =~= runtime_packet(sequence, snapshot));
    out
}

/// The packet's trailing CRC matches its first 62 bytes.
pub fn packet_crc_is_valid(packet: &[u8; TELEMETRY_PACKET_LEN]) -> (b: bool)
    ensures
        b == spec_crc_is_valid(packet@),
{
    let expected: u16 = (packet[62] as u16) | ((packet[63] as u16) << 8u16);
    crc16_ccitt_false(&packet[0..62]) == expected
}

proof fn lemma_le16_roundtrip(v: u16)
    ensures
        decode_le16(v as u8, (v >> 8u16) as u8) == v,
{
    assert(((v as u8) as u16) | ((((v >> 8u16) as u8) as u16) << 8u16) == v) by (bit_vector);
}

proof fn lemma_le32_roundtrip(v: u32)
    ensures
        ((v as u8) as u32) | ((((v >> 8u32) as u8) as u32) << 8u32) | ((((v >> 16u32) as u8) as u32)
            << 16u32) | ((((v >> 24u32) as u8) as u32) << 24u32) == v,
{
    assert(((v as u8) as u32) | ((((v >> 8u32) as u8) as u32) << 8u32) | ((((v >> 16u32) as u8)
        as u32) << 16u32) | ((((v >> 24u32) as u8) as u32) << 24u32) == v) by (bit_vector);
}

/// Every encoded runtime packet carries a valid CRC.
pub proof fn lemma_encoded_packet_crc_is_valid(sequence: u32, s: TelemetrySnapshot)
    ensures
        runtime_packet(sequence, s).len() == TELEMETRY_PACKET_LEN,
        spec_crc_is_valid(runtime_packet(sequence, s)),
{
    let p = runtime_packet(sequence, s);
    let body = packet_body(sequence, s);
    assert(p.subrange(0, 62) =~= body);
    lemma_le16_roundtrip(spec_crc16(body));
}

/// A receiver recovers the sequence number and every snapshot field from the
/// fixed offsets of an encoded runtime packet.
pub proof fn lemma_encoded_packet_decodes(sequence: u32, s: TelemetrySnapshot)
    ensures
        ({
            let p = runtime_packet(sequence, s);
            &&& p[0] == 0x52 && p[1] == 0x49
            &&& p[2] == TELEMETRY_PROTOCOL_VERSION
            &&& p[3] == TELEMETRY_PACKET_KIND_RUNTIME
            &&& decode_le32(p, 4) == sequence
            &&& decode_le32(p, 8) == s.timestamp_us_low
            &&& decode_le32(p, 12) == s.sample_index
            &&& p[16] == s.cycle
            &&& p[17] == s.control_regime
            &&& p[18] == s.sensor_timing_health
            &&& p[19] == s.watchdog_health
            &&& p[20] == bool_byte(s.authorized)
            &&& p[21] == bool_byte(s.actuator_saturated)
            &&& decode_le32(p, 24) == s.qualification_reasons
            &&& decode_le32(p, 28) == s.authority_reasons
            &&& decode_le32(p, 32) as i32 == s.theta_mrad
            &&& decode_le32(p, 36) as i32 == s.theta_dot_mrad_s
            &&& decode_le32(p, 40) as i32 == s.phi_mrad
            &&& decode_le32(p, 44) as i32 == s.phi_dot_mrad_s
            &&& decode_le32(p, 48) as i32 == s.demand_torque_unm
            &&& decode_le32(p, 52) as i32 == s.bounded_command_ppm
            &&& decode_le32(p, 56) as i32 == s.predicted_torque_unm
            &&& decode_le16(p[60], p[61]) == s.inferred_missed_ticks
        }),
{
    let p = runtime_packet(sequence, s);
    lemma_le32_roundtrip(sequence);
    lemma_le32_roundtrip(s.timestamp_us_low);
    lemma_le32_roundtrip(s.sample_index);
    lemma_le32_roundtrip(s.qualification_reasons);
    lemma_le32_roundtrip(s.authority_reasons);
    lemma_le32_roundtrip(s.theta_mrad as u32);
    lemma_le32_roundtrip(s.theta_dot_mrad_s as u32);
    lemma_le32_roundtrip(s.phi_mrad as u32);
    lemma_le32_roundtrip(s.phi_dot_mrad_s as u32);
    lemma_le32_roundtrip(s.demand_torque_unm as u32);
    lemma_le32_roundtrip(s.bounded_command_ppm as u32);
    lemma_le32_roundtrip(s.predicted_torque_unm as u32);
    lemma_le16_roundtrip(s.inferred_missed_ticks);
    lemma_i32_u32_roundtrip(s.theta_mrad);
    lemma_i32_u32_roundtrip(s.theta_dot_mrad_s);
    lemma_i32_u32_roundtrip(s.phi_mrad);
    lemma_i32_u32_roundtrip(s.phi_dot_mrad_s);
    lemma_i32_u32_roundtrip(s.demand_torque_unm);
    lemma_i32_u32_roundtrip(s.bounded_command_ppm);
    lemma_i32_u32_roundtrip(s.predicted_torque_unm);
}

proof fn lemma_i32_u32_roundtrip(v: i32)
    ensures
        (v as u32) as i32 == v,
{
    assert((v as u32) as i32 == v) by (bit_vector);
}

proof fn lemma_crc_shift_injective(a: u16, b: u16)
    by (bit_vector)
    ensures
        a != b ==> crc_shift(a) != crc_shift(b),
{
}

proof fn lemma_crc_shifts_injective(a: u16, b: u16, k: nat)
    requires
        a != b,
    ensures
        crc_shifts(a, k) != crc_shifts(b, k),
    decreases k,
{
    if k > 0 {
        lemma_crc_shifts_injective(a, b, (k - 1) as nat);
        lemma_crc_shift_injective(crc_shifts(a, (k - 1) as nat), crc_shifts(b, (k - 1) as nat));
    }
}

proof fn lemma_crc_byte_injective(a: u16, b: u16, x: u8, y: u8)
    requires
        a != b || x != y,
        a == b || x == y,
    ensures
        crc_byte(a, x) != crc_byte(b, y),
{
    assert((a != b || x != y) && (a == b || x == y) ==> a ^ ((x as u16) << 8u16) != b ^ ((
    y as u16) << 8u16)) by (bit_vector);
    lemma_crc_shifts_injective(a ^ ((x as u16) << 8u16), b ^ ((y as u16) << 8u16), 8);
}

/// Two byte strings of one length that differ in exactly one position have
/// different CRCs.
proof fn lemma_crc16_detects_one_change(s: Seq<u8>, t: Seq<u8>, i: int)
    requires
        s.len() == t.len(),
        0 <= i < s.len(),
        s[i] != t[i],
        forall|j: int| 0 <= j < s.len() && j != i ==> s[j] == t[j],
    ensures
        spec_crc16(s) != spec_crc16(t),
    decreases s.len(),
{
    let n = s.len() as int;
    if i == n - 1 {
        assert(s.drop_last() =~= t.drop_last());
        lemma_crc_byte_injective(spec_crc16(s.drop_last()), spec_crc16(t.drop_last()), s.last(), t.last());
    } else {
        lemma_crc16_detects_one_change(s.drop_last(), t.drop_last(), i);
        assert(s.last() == t.last());
        lemma_crc_byte_injective(spec_crc16(s.drop_last()), spec_crc16(t.drop_last()), s.last(), t.last());
    }
}

/// Changing any one byte of a 64-byte packet whose CRC is valid makes the
/// CRC invalid: the CRC detects every single-byte error.
pub proof fn lemma_single_byte_change_breaks_crc(p: Seq<u8>, i: int, v: u8)
    requires
        p.len() == TELEMETRY_PACKET_LEN,
        spec_crc_is_valid(p),
        0 <= i < TELEMETRY_PACKET_LEN,
        v != p[i],
    ensures
        !spec_crc_is_valid(p.update(i, v)),
{
    let q = p.update(i, v);
    let (a0, a1) = (p[62], p[63]);
    if i < 62 {
        assert(q[62] == a0 && q[63] == a1);
        lemma_crc16_detects_one_change(p.subrange(0, 62), q.subrange(0, 62), i);
    } else {
        assert(p.subrange(0, 62) =~= q.subrange(0, 62));
        assert(decode_le16(v, a1) != decode_le16(a0, a1) || v == a0) by (bit_vector);
        assert(decode_le16(a0, v) != decode_le16(a0, a1) || v == a1) by (bit_vector);
    }
}

// ---------------------------------------------------------------------------
// Publisher
// ---------------------------------------------------------------------------

/// Latest-snapshot only: the packet of the opportunity after a dropped one
/// carries the next sequence number, so the dropped packet is never sent
/// again, whatever the snapshots hold.
pub proof fn lemma_next_opportunity_never_replays(
    sequence: u32,
    dropped: TelemetrySnapshot,
    fresh: TelemetrySnapshot,
)
    ensures
        runtime_packet(wrap_inc(sequence), fresh) != runtime_packet(sequence, dropped),
{
    lemma_encoded_packet_decodes(sequence, dropped);
    lemma_encoded_packet_decodes(wrap_inc(sequence), fresh);
}

#[derive(Clone, Copy, Debug, PartialEq, Eq, Structural)]
pub enum TelemetryTxOutcome {
    Sent,
    Busy,
}

/// Non-blocking packet transport.
pub trait TelemetryTransport {
    type Error;

    fn try_send(&mut self, packet: &[u8]) -> Result<TelemetryTxOutcome, Self::Error>;
}

#[derive(Clone, Copy, Debug, PartialEq, Eq, Structural)]
pub struct TelemetryPublisherStats {
    pub opportunities: u32,
    pub sent: u32,
    pub dropped_busy: u32,
}

impl Default for TelemetryPublisherStats {
    fn default() -> (s: Self)
        ensures
            s == (TelemetryPublisherStats { opportunities: 0, sent: 0, dropped_busy: 0 }),
    {
        TelemetryPublisherStats { opportunities: 0, sent: 0, dropped_busy: 0 }
    }
}

/// Statistics after one publication opportunity that the transport answered
/// with `outcome`.
pub open spec fn counted_outcome(
    stats: TelemetryPublisherStats,
    outcome: TelemetryTxOutcome,
) -> TelemetryPublisherStats {
    match outcome {
        TelemetryTxOutcome::Sent => TelemetryPublisherStats { sent: wrap_inc(stats.sent), ..stats },
        TelemetryTxOutcome::Busy => TelemetryPublisherStats {
            dropped_busy: wrap_inc(stats.dropped_busy),
            ..stats
        },
    }
}

pub struct TelemetryPublisher<T: TelemetryTransport> {
    transport: T,
    next_sequence: u32,
    stats: TelemetryPublisherStats,
    handed: Ghost<Seq<Seq<u8>>>,
    answers: Ghost<Seq<Result<TelemetryTxOutcome, T::Error>>>,
}

impl<T: TelemetryTransport> TelemetryPublisher<T> {
    pub closed spec fn spec_transport(&self) -> T {
        self.transport
    }

    pub closed spec fn spec_next_sequence(&self) -> u32 {
        self.next_sequence
    }

    pub closed spec fn spec_stats(&self) -> TelemetryPublisherStats {
        self.stats
    }

    /// Every packet handed to `try_send` of the transport, oldest first.
    pub closed spec fn spec_handed(&self) -> Seq<Seq<u8>> {
        self.handed@
    }

    /// Every answer of `try_send`, in the order of `spec_handed`.
    pub closed spec fn spec_answers(&self) -> Seq<Result<TelemetryTxOutcome, T::Error>> {
        self.answers@
    }

    /// The `j`-th packet handed to the transport carries sequence number
    /// `j` (modulo 2^32), and the next one will carry the next number.
    pub open spec fn wf(&self) -> bool {
        &&& self.spec_next_sequence() == self.spec_handed().len() % 0x1_0000_0000
        &&& forall|j: int|
            0 <= j < self.spec_handed().len() ==> (#[trigger] self.spec_handed()[j]).len()
                == TELEMETRY_PACKET_LEN && decode_le32(self.spec_handed()[j], 4) == j
                % 0x1_0000_0000
    }

    pub fn new(transport: T) -> (p: Self)
        ensures
            p.wf(),
            p.spec_transport() == transport,
            p.spec_next_sequence() == 0,
            p.spec_stats() == (TelemetryPublisherStats { opportunities: 0, sent: 0, dropped_busy: 0 }),
            p.spec_handed() == Seq::<Seq<u8>>::empty(),
            p.spec_answers() == Seq::<Result<TelemetryTxOutcome, T::Error>>::empty(),
    {
        TelemetryPublisher {
            transport,
            next_sequence: 0,
            stats: TelemetryPublisherStats { opportunities: 0, sent: 0, dropped_busy: 0 },
            handed: Ghost(Seq::empty()),
            answers: Ghost(Seq::empty()),
        }
    }

    /// The packet that the next publication opportunity hands the transport.
    pub fn next_packet(&self, snapshot: TelemetrySnapshot) -> (p: [u8; TELEMETRY_PACKET_LEN])
        ensures
            p@ == runtime_packet(self.spec_next_sequence(), snapshot),
    {
        encode_runtime_packet(self.next_sequence, snapshot)
    }

    /// Publish only the freshest snapshot for this opportunity.
    ///
    /// The publisher owns no replay queue. If the transport is still busy with
    /// an older packet, this opportunity is dropped and the next call encodes
    /// the next fresh snapshot under the next sequence number.
    ///
    /// Each call hands the transport exactly one packet, encoded from the
    /// current sequence number and `snapshot`, and returns its answer.
    pub fn publish_latest(&mut self, snapshot: TelemetrySnapshot) -> (r: Result<
        TelemetryTxOutcome,
        T::Error,
    >)
        requires
            old(self).wf(),
        ensures
            final(self).wf(),
            final(self).spec_handed() == old(self).spec_handed().push(
                runtime_packet(old(self).spec_next_sequence(), snapshot),
            ),
            final(self).spec_answers() == old(self).spec_answers().push(r),
            final(self).spec_next_sequence() == wrap_inc(old(self).spec_next_sequence()),
            final(self).spec_stats().opportunities == wrap_inc(
                old(self).spec_stats().opportunities,
            ),
            match r {
                Ok(outcome) => final(self).spec_stats() == counted_outcome(
                    TelemetryPublisherStats {
                        opportunities: wrap_inc(old(self).spec_stats().opportunities),
                        ..old(self).spec_stats()
                    },
                    outcome,
                ),
                Err(_) => final(self).spec_stats().sent == old(self).spec_stats().sent
                    && final(self).spec_stats().dropped_busy == old(self).spec_stats().dropped_busy,
            },
    {
        let packet = self.next_packet(snapshot);
        self.next_sequence = self.next_sequence.wrapping_add(1);
        self.stats.opportunities = self.stats.opportunities.wrapping_add(1);
        let answer = self.transport.try_send(&packet);
        proof {
            lemma_encoded_packet_decodes(old(self).next_sequence, snapshot);
            lemma_encoded_packet_crc_is_valid(old(self).next_sequence, snapshot);
            self.handed@ = self.handed@.push(packet@);
            self.answers@ = self.answers@.push(answer);
            assert forall|j: int| 0 <= j < self.handed@.len() implies (#[trigger] self.handed@[j]).len()
                == TELEMETRY_PACKET_LEN && decode_le32(self.handed@[j], 4) == j % 0x1_0000_0000 by {
                if j < old(self).handed@.len() {
                    assert(self.handed@[j] == old(self).handed@[j]);
                }
            }
        }
        match answer {
            Ok(outcome) => {
                self.stats = record_outcome(self.stats, outcome);
                Ok(outcome)
            },
            Err(error) => Err(error),
        }
    }

    pub fn stats(&self) -> (s: TelemetryPublisherStats)
        ensures
            s == self.spec_stats(),
    {
        self.stats
    }

    pub fn transport(&self) -> (t: &T)
        ensures
            *t == self.spec_transport(),
    {
        &self.transport
    }

    pub fn transport_mut(&mut self) -> (t: &mut T)
        ensures
            *t == old(self).spec_transport(),
            final(self).spec_transport() == *final(t),
            final(self).spec_next_sequence() == old(self).spec_next_sequence(),
            final(self).spec_stats() == old(self).spec_stats(),
            final(self).spec_handed() == old(self).spec_handed(),
            final(self).spec_answers() == old(self).spec_answers(),
            final(self).wf() == old(self).wf(),
    {
        &mut self.transport
    }

    pub fn into_transport(self) -> (t: T)
        ensures
            t == self.spec_transport(),
    {
        self.transport
    }
}

/// No packet is handed to the transport twice within 2^32 publication
/// opportunities: a dropped snapshot is never offered again.
pub proof fn lemma_publisher_never_repeats<T: TelemetryTransport>(
    p: TelemetryPublisher<T>,
    i: int,
    j: int,
)
    requires
        p.wf(),
        0 <= i < j < p.spec_handed().len(),
        j - i < 0x1_0000_0000,
    ensures
        p.spec_handed()[i] != p.spec_handed()[j],
{
    assert(decode_le32(p.spec_handed()[i], 4) == i % 0x1_0000_0000);
    assert(decode_le32(p.spec_handed()[j], 4) == j % 0x1_0000_0000);
    assert(i % 0x1_0000_0000 != j % 0x1_0000_0000) by (nonlinear_arith)
        requires
            0 <= i < j,
            j - i < 0x1_0000_0000,
    ;
}

/// Count one transport answer in the publication statistics.
pub fn record_outcome(stats: TelemetryPublisherStats, outcome: TelemetryTxOutcome) -> (r:
    TelemetryPublisherStats)
    ensures
        r == counted_outcome(stats, outcome),
{
    match outcome {
        TelemetryTxOutcome::Sent => TelemetryPublisherStats {
            sent: stats.sent.wrapping_add(1),
            ..stats
        },
        TelemetryTxOutcome::Busy => TelemetryPublisherStats {
            dropped_busy: stats.dropped_busy.wrapping_add(1),
            ..stats
        },
    }
}

} // verus!
