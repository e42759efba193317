use rip::oled::{OledIo, OledRenderer, OledTextFrame, Ssd1315, OLED_BUFFER_SIZE};
use rip::runtime_observation::RuntimeRecordSnapshot;
use rip::status::{
    HealthState, KeyService, LocalUi, StatusPage, StatusView, KEY_DEBOUNCE_TICKS, KEY_M_MASK,
    KEY_REPEAT_DELAY_TICKS, KEY_REPEAT_TICKS, KEY_X_MASK,
};
use rip::timing_evidence::TimingEvidenceSnapshot;

#[derive(Default)]
struct MockIo {
    commands: Vec<u8>,
    data_bytes: usize,
    resets: u32,
}

impl OledIo for MockIo {
    fn reset(&mut self) {
        self.resets += 1;
    }

    fn write_command(&mut self, command: u8) {
        self.commands.push(command);
    }

    fn write_data(&mut self, data: &[u8]) {
        self.data_bytes += data.len();
    }
}

fn view() -> StatusView {
    StatusView {
        cycle: 3,
        control_regime: 2,
        timing: HealthState::Healthy,
        watchdog: HealthState::Healthy,
        authorized: false,
        actuator_saturated: false,
        telemetry_enabled: true,
        motor_sink_bound: false,
        theta_mrad: -45,
        phi_mrad: 123,
        ..StatusView::default()
    }
}

#[test]
fn status_frame_contains_runtime_state() {
    let frame = OledRenderer::render(view(), StatusPage::Status);
    assert!(frame.row(0).starts_with(b"STATUS 1/5"));
    assert!(frame.row(2).starts_with(b"REGIME BALANCE"));
    assert!(frame.row(6).starts_with(b"TELEM ON"));
}

#[test]
fn every_page_renders_its_title_and_position() {
    let pages = [
        (StatusPage::Status, b"STATUS 1/5".as_slice()),
        (StatusPage::Sensor, b"SENSOR 2/5".as_slice()),
        (StatusPage::Safety, b"SAFETY 3/5".as_slice()),
        (StatusPage::Control, b"CONTROL 4/5".as_slice()),
        (StatusPage::Maintenance, b"MAINT 5/5".as_slice()),
    ];
    for (page, title) in pages {
        let frame = OledRenderer::render(view(), page);
        assert!(frame.row(0).starts_with(title), "{:?}", page);
    }
}

#[test]
fn blank_frame_is_all_spaces() {
    let frame = OledTextFrame::blank();
    for index in 0..8 {
        assert!(frame.row(index).iter().all(|byte| *byte == b' '));
    }
}

#[test]
fn service_limits_each_background_transfer() {
    let mut display = Ssd1315::new(MockIo::default(), 0x7f);
    display.init();
    display.service(8);
    let io = display.into_inner();
    assert_eq!(io.resets, 1);
    assert_eq!(io.data_bytes, 8);
}

#[test]
fn full_flush_after_init_transfers_the_whole_framebuffer() {
    let mut display = Ssd1315::new(MockIo::default(), 0x7f);
    display.init();
    assert!(!display.is_idle());
    let mut rounds = 0;
    while !display.is_idle() {
        display.service(64);
        rounds += 1;
        assert!(rounds <= 64);
    }
    let io = display.into_inner();
    assert_eq!(io.data_bytes, OLED_BUFFER_SIZE);
}

#[test]
fn unchanged_frame_leaves_display_idle() {
    let mut display = Ssd1315::new(MockIo::default(), 0x7f);
    display.init();
    while !display.is_idle() {
        display.service(128);
    }
    display.write_frame(&OledTextFrame::blank());
    assert!(display.is_idle());
    let frame = OledRenderer::render(view(), StatusPage::Status);
    display.write_frame(&frame);
    assert!(!display.is_idle());
}

#[test]
fn contrast_is_sent_only_once_initialized() {
    let mut display = Ssd1315::new(MockIo::default(), 0x10);
    display.set_contrast(0x20);
    assert_eq!(display.contrast(), 0x20);
    let io = display.into_inner();
    assert!(io.commands.is_empty());

    let mut display = Ssd1315::new(MockIo::default(), 0x10);
    display.init();
    let before = display.into_inner().commands.len();
    let mut display = Ssd1315::new(MockIo::default(), 0x10);
    display.init();
    display.set_contrast(0x20);
    let io = display.into_inner();
    assert_eq!(io.commands.len(), before + 2);
    assert_eq!(&io.commands[before..], &[0x81, 0x20]);
}

#[test]
fn page_cycle_is_closed() {
    let page = StatusPage::Status.next().next().next().next().next();
    assert_eq!(page, StatusPage::Status);
}

#[test]
fn previous_undoes_next() {
    assert_eq!(StatusPage::Control.next().previous(), StatusPage::Control);
    assert_eq!(StatusPage::Status.previous(), StatusPage::Maintenance);
}

#[test]
fn key_service_requires_stable_debounce_before_press() {
    let mut keys = KeyService::new(0, 0);
    assert_eq!(keys.update(KEY_M_MASK, 1).pressed, 0);
    assert_eq!(keys.update(KEY_M_MASK, 20).pressed, 0);
    assert_eq!(keys.update(KEY_M_MASK, 21).pressed, KEY_M_MASK);
}

#[test]
fn bouncing_key_restarts_debounce() {
    let mut keys = KeyService::new(0, 0);
    assert_eq!(keys.update(KEY_X_MASK, 1).pressed, 0);
    assert_eq!(keys.update(0, 10).pressed, 0);
    assert_eq!(keys.update(KEY_X_MASK, 15).pressed, 0);
    assert_eq!(keys.update(KEY_X_MASK, 15 + KEY_DEBOUNCE_TICKS).pressed, KEY_X_MASK);
}

#[test]
fn held_key_repeats_then_releases() {
    let mut keys = KeyService::new(0, 0);
    keys.update(KEY_M_MASK, 1);
    assert_eq!(keys.update(KEY_M_MASK, 21).pressed, KEY_M_MASK);
    let pressed_at = 21;
    assert_eq!(keys.update(KEY_M_MASK, pressed_at + KEY_REPEAT_DELAY_TICKS - 1).repeat, 0);
    assert_eq!(keys.update(KEY_M_MASK, pressed_at + KEY_REPEAT_DELAY_TICKS).repeat, KEY_M_MASK);
    let first_repeat = pressed_at + KEY_REPEAT_DELAY_TICKS;
    assert_eq!(keys.update(KEY_M_MASK, first_repeat + KEY_REPEAT_TICKS).repeat, KEY_M_MASK);
    let release_seen = first_repeat + KEY_REPEAT_TICKS + 1;
    assert_eq!(keys.update(0, release_seen).released, 0);
    assert_eq!(keys.update(0, release_seen + KEY_DEBOUNCE_TICKS).released, KEY_M_MASK);
}

#[test]
fn local_ui_pages_and_contrast_saturate() {
    let mut ui = LocalUi::new();
    assert_eq!(ui.page(), StatusPage::Status);
    ui.previous_page();
    assert_eq!(ui.page(), StatusPage::Maintenance);
    ui.next_page();
    ui.next_page();
    assert_eq!(ui.page(), StatusPage::Sensor);
    assert_eq!(ui.contrast(), 0x7f);
    for _ in 0..20 {
        ui.increase_contrast();
    }
    assert_eq!(ui.contrast(), u8::MAX);
    for _ in 0..20 {
        ui.decrease_contrast();
    }
    assert_eq!(ui.contrast(), 0);
}

#[test]
fn status_view_decodes_health_codes_from_records() {
    let runtime = RuntimeRecordSnapshot {
        cycle: 3,
        sensor_timing_health: 2,
        watchdog_health: 2,
        theta_mrad: 17,
        ..RuntimeRecordSnapshot::default()
    };
    let timing = TimingEvidenceSnapshot {
        inferred_missed_tick_count: 4,
        deadline_overrun_count: 1,
        ..TimingEvidenceSnapshot::default()
    };
    let v = StatusView::from_records(runtime, timing, true, false);
    assert_eq!(v.cycle, 3);
    assert_eq!(v.watchdog, HealthState::Fault);
    assert_eq!(v.theta_mrad, 17);
    assert_eq!(v.inferred_missed_ticks, 4);
    assert_eq!(v.deadline_overruns, 1);
    assert!(v.telemetry_enabled);
    assert!(!v.motor_sink_bound);
}

#[derive(Debug, PartialEq)]
enum IoEvent {
    Reset,
    Command(u8),
    Data(usize),
}

#[derive(Default)]
struct TraceIo {
    events: Vec<IoEvent>,
}

impl OledIo for TraceIo {
    fn reset(&mut self) {
        self.events.push(IoEvent::Reset);
    }

    fn write_command(&mut self, command: u8) {
        self.events.push(IoEvent::Command(command));
    }

    fn write_data(&mut self, data: &[u8]) {
        self.events.push(IoEvent::Data(data.len()));
    }
}

#[test]
fn init_resets_before_configuring() {
    let mut display = Ssd1315::new(TraceIo::default(), 0x42);
    display.init();
    let io = display.into_inner();
    let expected: Vec<u8> = vec![
        0xae, 0x20, 0x02, 0x40, 0x23, 0x00, 0x2e, 0xd6, 0x00, 0x81, 0x42, 0xa1, 0xc8, 0xa6, 0xa8,
        0x3f, 0xd3, 0x00, 0xd5, 0x80, 0xd9, 0xf1, 0xad, 0x10, 0xda, 0x12, 0xdb, 0x20, 0x8d, 0x14,
        0xa4, 0xaf,
    ];
    assert_eq!(io.events[0], IoEvent::Reset);
    let commands: Vec<IoEvent> = expected.into_iter().map(IoEvent::Command).collect();
    assert_eq!(io.events[1..], commands[..]);
}

#[test]
fn each_service_call_makes_at_most_one_data_write() {
    let mut display = Ssd1315::new(TraceIo::default(), 0x7f);
    display.init();
    display.service(100);
    display.service(100);
    let io = display.into_inner();
    let tail: Vec<&IoEvent> = io.events.iter().skip(33).collect();
    assert_eq!(
        tail,
        vec![
            &IoEvent::Command(0xb0),
            &IoEvent::Command(0x00),
            &IoEvent::Command(0x10),
            &IoEvent::Data(100),
            &IoEvent::Data(28),
        ]
    );
}

#[test]
fn flush_after_init_takes_eight_pages_of_calls() {
    for m in [1usize, 7, 64, 100, 127, 128, 200] {
        let calls = 8 * ((128 + m - 1) / m);
        let mut display = Ssd1315::new(MockIo::default(), 0x7f);
        display.init();
        for _ in 0..calls - 1 {
            display.service(m);
        }
        assert!(!display.is_idle(), "m = {}", m);
        display.service(m);
        assert!(display.is_idle(), "m = {}", m);
    }
}

#[test]
fn service_before_init_touches_nothing() {
    let mut display = Ssd1315::new(TraceIo::default(), 0x7f);
    display.service(64);
    assert!(display.is_idle());
    assert!(display.into_inner().events.is_empty());
}

#[test]
fn redrawing_a_flushed_frame_keeps_the_display_idle() {
    let mut display = Ssd1315::new(MockIo::default(), 0x7f);
    display.init();
    let frame = OledRenderer::render(view(), StatusPage::Safety);
    display.write_frame(&frame);
    while !display.is_idle() {
        display.service(32);
    }
    display.write_frame(&frame);
    assert!(display.is_idle());
}
