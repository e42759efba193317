use rip::assembly_forest_d1_reference::advance_phase;
use rip::status::{
    raw_key_mask, KeyEvents, LocalUi, StatusPage, KEY_MINUS_MASK, KEY_M_MASK, KEY_PLUS_MASK,
    KEY_USER_MASK, KEY_X_MASK,
};
use rip::telemetry::{
    encode_runtime_packet, TelemetryPublisher, TelemetrySnapshot, TelemetryTransport,
    TelemetryTxOutcome, TELEMETRY_PACKET_LEN,
};
use rip::timebase::MicrosecondAccumulator;
use rip::uart_transport::{ByteTx, ByteWrite, UartTelemetryTransport};

#[test]
fn timebase_carries_partial_microseconds() {
    let mut timebase = MicrosecondAccumulator::new(72);
    assert_eq!(timebase.ticks_per_us(), 72);
    assert_eq!(timebase.advance(100).0, 1);
    assert_eq!(timebase.advance(44).0, 2);
    assert_eq!(timebase.advance(71).0, 2);
    assert_eq!(timebase.advance(1).0, 3);
}

#[test]
fn timebase_accounts_for_every_tick() {
    let mut timebase = MicrosecondAccumulator::new(7);
    let mut total: u64 = 0;
    for ticks in [3_u32, 11, 0, 6, 1_000_000, 13] {
        total += u64::from(ticks);
        assert_eq!(timebase.advance(ticks).0, total / 7);
    }
}

/// Scripted UART: writes bytes until it has taken `capacity`, then blocks;
/// fails on the byte with index `fail_at`, if any.
struct ScriptedTx {
    written: Vec<u8>,
    capacity: usize,
    fail_at: Option<usize>,
    attempts: usize,
}

impl ScriptedTx {
    fn new(capacity: usize, fail_at: Option<usize>) -> Self {
        Self { written: Vec::new(), capacity, fail_at, attempts: 0 }
    }
}

impl ByteTx for ScriptedTx {
    fn write_byte(&mut self, byte: u8) -> ByteWrite {
        let attempt = self.attempts;
        self.attempts += 1;
        if Some(attempt) == self.fail_at {
            return ByteWrite::Failed;
        }
        if self.written.len() >= self.capacity {
            return ByteWrite::WouldBlock;
        }
        self.written.push(byte);
        ByteWrite::Written
    }
}

fn packet(sample_index: u32) -> [u8; TELEMETRY_PACKET_LEN] {
    encode_runtime_packet(1, TelemetrySnapshot { sample_index, ..TelemetrySnapshot::default() })
}

#[test]
fn uart_transport_accepts_one_whole_packet_at_a_time() {
    let mut uart = UartTelemetryTransport::new(ScriptedTx::new(usize::MAX, None));
    assert!(uart.is_idle());
    assert_eq!(uart.try_send(&[1, 2, 3]), Err(()));
    assert_eq!(uart.try_send(&packet(1)), Ok(TelemetryTxOutcome::Sent));
    assert_eq!(uart.try_send(&packet(2)), Ok(TelemetryTxOutcome::Busy));
    assert!(!uart.is_idle());
}

#[test]
fn uart_service_sends_at_most_the_budget_per_call() {
    let mut uart = UartTelemetryTransport::new(ScriptedTx::new(usize::MAX, None));
    uart.try_send(&packet(7)).unwrap();
    uart.service(16);
    assert!(!uart.is_idle());
    uart.service(0);
    for _ in 0..3 {
        uart.service(16);
    }
    assert!(uart.is_idle());
    let tx = uart.into_inner();
    assert_eq!(tx.written, packet(7).to_vec());
}

#[test]
fn uart_service_stops_when_the_uart_would_block() {
    let mut uart = UartTelemetryTransport::new(ScriptedTx::new(10, None));
    uart.try_send(&packet(3)).unwrap();
    uart.service(64);
    assert!(!uart.is_idle());
    assert_eq!(uart.tx_errors(), 0);
    let tx = uart.into_inner();
    assert_eq!(tx.written.len(), 10);
}

#[test]
fn uart_write_error_drops_the_packet_and_counts() {
    let mut uart = UartTelemetryTransport::new(ScriptedTx::new(usize::MAX, Some(5)));
    uart.try_send(&packet(4)).unwrap();
    uart.service(64);
    assert!(uart.is_idle());
    assert_eq!(uart.tx_errors(), 1);
    assert_eq!(uart.try_send(&packet(5)), Ok(TelemetryTxOutcome::Sent));
}

#[test]
fn publisher_over_uart_drops_while_busy() {
    let uart = UartTelemetryTransport::new(ScriptedTx::new(usize::MAX, None));
    let mut publisher = TelemetryPublisher::new(uart);
    let snapshot = TelemetrySnapshot::default();
    assert_eq!(publisher.publish_latest(snapshot), Ok(TelemetryTxOutcome::Sent));
    assert_eq!(publisher.publish_latest(snapshot), Ok(TelemetryTxOutcome::Busy));
    publisher.transport_mut().service(64);
    assert_eq!(publisher.publish_latest(snapshot), Ok(TelemetryTxOutcome::Sent));
    assert_eq!(publisher.stats().dropped_busy, 1);
}

#[test]
fn raw_key_mask_sets_one_bit_per_pressed_key() {
    assert_eq!(raw_key_mask(false, false, false, false, false), 0);
    assert_eq!(raw_key_mask(true, false, false, false, true), KEY_M_MASK | KEY_USER_MASK);
    assert_eq!(raw_key_mask(true, true, true, true, true), 0x1f);
}

fn pressed(mask: u32) -> KeyEvents {
    KeyEvents { pressed: mask, released: 0, repeat: 0 }
}

#[test]
fn keys_step_pages_adjust_contrast_and_toggle_telemetry() {
    let mut ui = LocalUi::new();
    let actions = ui.handle_keys(pressed(KEY_M_MASK), false);
    assert_eq!(ui.page(), StatusPage::Sensor);
    assert_eq!(actions.contrast_raised, None);
    assert!(!actions.telemetry_enabled);

    let actions = ui.handle_keys(pressed(KEY_USER_MASK | KEY_X_MASK), false);
    assert_eq!(ui.page(), StatusPage::Status);
    assert!(actions.telemetry_enabled);

    let actions =
        ui.handle_keys(KeyEvents { pressed: 0, released: 0, repeat: KEY_PLUS_MASK }, true);
    assert_eq!(actions.contrast_raised, Some(0x8f));
    assert_eq!(actions.contrast_lowered, None);
    assert!(actions.telemetry_enabled);

    let actions = ui.handle_keys(pressed(KEY_PLUS_MASK | KEY_MINUS_MASK), true);
    assert_eq!(actions.contrast_raised, Some(0x9f));
    assert_eq!(actions.contrast_lowered, Some(0x8f));
    assert_eq!(ui.contrast(), 0x8f);
}

#[test]
fn periodic_service_fires_once_per_period_when_ready() {
    let mut phase = 0;
    let mut fired = 0;
    for _ in 0..250 {
        let (next, fire) = advance_phase(phase, 100, true);
        phase = next;
        if fire {
            fired += 1;
        }
    }
    assert_eq!(fired, 2);
    assert_eq!(phase, 50);
}

#[test]
fn periodic_service_waits_for_readiness() {
    assert_eq!(advance_phase(99, 100, false), (100, false));
    assert_eq!(advance_phase(100, 100, false), (101, false));
    assert_eq!(advance_phase(101, 100, true), (0, true));
    assert_eq!(advance_phase(u32::MAX, 100, false), (u32::MAX, false));
}
