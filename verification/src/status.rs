//! Local status pages and key semantics.
use vstd::prelude::*;

use crate::runtime_observation::RuntimeRecordSnapshot;
use crate::timing_evidence::TimingEvidenceSnapshot;

verus! {

pub const KEY_M_MASK: u32 = 1;

pub const KEY_X_MASK: u32 = 2;

pub const KEY_PLUS_MASK: u32 = 4;

pub const KEY_MINUS_MASK: u32 = 8;

pub const KEY_USER_MASK: u32 = 16;

pub const KEY_COUNT: usize = 5;

/// Ticks a raw key level must persist before it becomes the stable level.
pub const KEY_DEBOUNCE_TICKS: u32 = 20;

/// Ticks a key must be held before it starts repeating.
pub const KEY_REPEAT_DELAY_TICKS: u32 = 500;

/// Ticks between two repeats of a held key.
pub const KEY_REPEAT_TICKS: u32 = 150;

#[derive(Clone, Copy, Debug, PartialEq, Eq, Structural)]
pub enum HealthState {
    Unknown,
    Healthy,
    Late,
    Fault,
}

impl Default for HealthState {
    fn default() -> (h: Self)
        ensures
            h == HealthState::Unknown,
    {
        HealthState::Unknown
    }
}

#[derive(Clone, Copy, Debug, PartialEq, Eq, Structural)]
pub enum StatusPage {
    Status,
    Sensor,
    Safety,
    Control,
    Maintenance,
}

impl Default for StatusPage {
    fn default() -> (p: Self)
        ensures
            p == StatusPage::Status,
    {
        StatusPage::Status
    }
}

/// The page after `page` in the closed page cycle.
pub open spec fn spec_next_page(page: StatusPage) -> StatusPage {
    match page {
        StatusPage::Status => StatusPage::Sensor,
        StatusPage::Sensor => StatusPage::Safety,
        StatusPage::Safety => StatusPage::Control,
        StatusPage::Control => StatusPage::Maintenance,
        StatusPage::Maintenance => StatusPage::Status,
    }
}

/// The page before `page` in the closed page cycle.
pub open spec fn spec_previous_page(page: StatusPage) -> StatusPage {
    match page {
        StatusPage::Status => StatusPage::Maintenance,
        StatusPage::Sensor => StatusPage::Status,
        StatusPage::Safety => StatusPage::Sensor,
        StatusPage::Control => StatusPage::Safety,
        StatusPage::Maintenance => StatusPage::Control,
    }
}

impl StatusPage {
    pub fn next(self) -> (p: Self)
        ensures
            p == spec_next_page(self),
    {
        match self {
            StatusPage::Status => StatusPage::Sensor,
            StatusPage::Sensor => StatusPage::Safety,
            StatusPage::Safety => StatusPage::Control,
            StatusPage::Control => StatusPage::Maintenance,
            StatusPage::Maintenance => StatusPage::Status,
        }
    }

    pub fn previous(self) -> (p: Self)
        ensures
            p == spec_previous_page(self),
    {
        match self {
            StatusPage::Status => StatusPage::Maintenance,
            StatusPage::Sensor => StatusPage::Status,
            StatusPage::Safety => StatusPage::Sensor,
            StatusPage::Control => StatusPage::Safety,
            StatusPage::Maintenance => StatusPage::Control,
        }
    }
}

/// The page cycle is closed: five steps forward return to the start, and
/// stepping back undoes a step forward.
pub proof fn lemma_page_cycle_is_closed(page: StatusPage)
    ensures
        spec_next_page(spec_next_page(spec_next_page(spec_next_page(spec_next_page(page)))))
            == page,
        spec_previous_page(spec_next_page(page)) == page,
        spec_next_page(spec_previous_page(page)) == page,
{
}

#[derive(Clone, Copy, Debug, PartialEq, Eq, Structural)]
pub struct StatusView {
    pub cycle: u32,
    pub control_regime: u32,
    pub timing: HealthState,
    pub watchdog: HealthState,
    pub authorized: bool,
    pub actuator_saturated: bool,
    pub telemetry_enabled: bool,
    pub motor_sink_bound: bool,
    pub qualification_reasons: u32,
    pub authority_reasons: u32,
    pub pendulum_adc: u16,
    pub arm_encoder_count: i32,
    pub theta_mrad: i32,
    pub theta_dot_mrad_s: i32,
    pub phi_mrad: i32,
    pub phi_dot_mrad_s: i32,
    pub demand_torque_unm: i32,
    pub bounded_command_ppm: i32,
    pub predicted_torque_unm: i32,
    pub inferred_missed_ticks: u32,
    pub deadline_overruns: u32,
}

impl Default for StatusView {
    fn default() -> (v: Self)
        ensures
            v == spec_default_view(),
    {
        StatusView {
            cycle: 0,
            control_regime: 0,
            timing: HealthState::Unknown,
            watchdog: HealthState::Unknown,
            authorized: false,
            actuator_saturated: false,
            telemetry_enabled: false,
            motor_sink_bound: false,
            qualification_reasons: 0,
            authority_reasons: 0,
            pendulum_adc: 0,
            arm_encoder_count: 0,
            theta_mrad: 0,
            theta_dot_mrad_s: 0,
            phi_mrad: 0,
            phi_dot_mrad_s: 0,
            demand_torque_unm: 0,
            bounded_command_ppm: 0,
            predicted_torque_unm: 0,
            inferred_missed_ticks: 0,
            deadline_overruns: 0,
        }
    }
}

/// The all-zero, all-unknown view.
pub open spec fn spec_default_view() -> StatusView {
    StatusView {
        cycle: 0,
        control_regime: 0,
        timing: HealthState::Unknown,
        watchdog: HealthState::Unknown,
        authorized: false,
        actuator_saturated: false,
        telemetry_enabled: false,
        motor_sink_bound: false,
        qualification_reasons: 0,
        authority_reasons: 0,
        pendulum_adc: 0,
        arm_encoder_count: 0,
        theta_mrad: 0,
        theta_dot_mrad_s: 0,
        phi_mrad: 0,
        phi_dot_mrad_s: 0,
        demand_torque_unm: 0,
        bounded_command_ppm: 0,
        predicted_torque_unm: 0,
        inferred_missed_ticks: 0,
        deadline_overruns: 0,
    }
}

/// Display health of a recorded sensor-timing code.
pub open spec fn spec_sensor_health(code: u32) -> HealthState {
    match code {
        1 => HealthState::Healthy,
        2 => HealthState::Late,
        3 => HealthState::Fault,
        _ => HealthState::Unknown,
    }
}

/// Display health of a recorded watchdog code.
pub open spec fn spec_watchdog_health(code: u32) -> HealthState {
    match code {
        1 => HealthState::Healthy,
        2 => HealthState::Fault,
        _ => HealthState::Unknown,
    }
}

fn sensor_health(code: u32) -> (h: HealthState)
    ensures
        h == spec_sensor_health(code),
{
    match code {
        1 => HealthState::Healthy,
        2 => HealthState::Late,
        3 => HealthState::Fault,
        _ => HealthState::Unknown,
    }
}

fn watchdog_health(code: u32) -> (h: HealthState)
    ensures
        h == spec_watchdog_health(code),
{
    match code {
        1 => HealthState::Healthy,
        2 => HealthState::Fault,
        _ => HealthState::Unknown,
    }
}

impl StatusView {
    pub fn from_records(
        runtime: RuntimeRecordSnapshot,
        timing: TimingEvidenceSnapshot,
        telemetry_enabled: bool,
        motor_sink_bound: bool,
    ) -> (v: Self)
        ensures
            v == (StatusView {
                cycle: runtime.cycle,
                control_regime: runtime.control_regime,
                timing: spec_sensor_health(runtime.sensor_timing_health),
                watchdog: spec_watchdog_health(runtime.watchdog_health),
                authorized: runtime.authorized,
                actuator_saturated: runtime.actuator_saturated,
                telemetry_enabled,
                motor_sink_bound,
                qualification_reasons: runtime.qualification_reasons,
                authority_reasons: runtime.authority_reasons,
                pendulum_adc: runtime.pendulum_adc,
                arm_encoder_count: runtime.arm_encoder_count,
                theta_mrad: runtime.theta_mrad,
                theta_dot_mrad_s: runtime.theta_dot_mrad_s,
                phi_mrad: runtime.phi_mrad,
                phi_dot_mrad_s: runtime.phi_dot_mrad_s,
                demand_torque_unm: runtime.demand_torque_unm,
                bounded_command_ppm: runtime.bounded_command_ppm,
                predicted_torque_unm: runtime.predicted_torque_unm,
                inferred_missed_ticks: timing.inferred_missed_tick_count,
                deadline_overruns: timing.deadline_overrun_count,
            }),
    {
        StatusView {
            cycle: runtime.cycle,
            control_regime: runtime.control_regime,
            timing: sensor_health(runtime.sensor_timing_health),
            watchdog: watchdog_health(runtime.watchdog_health),
            authorized: runtime.authorized,
            actuator_saturated: runtime.actuator_saturated,
            telemetry_enabled,
            motor_sink_bound,
            qualification_reasons: runtime.qualification_reasons,
            authority_reasons: runtime.authority_reasons,
            pendulum_adc: runtime.pendulum_adc,
            arm_encoder_count: runtime.arm_encoder_count,
            theta_mrad: runtime.theta_mrad,
            theta_dot_mrad_s: runtime.theta_dot_mrad_s,
            phi_mrad: runtime.phi_mrad,
            phi_dot_mrad_s: runtime.phi_dot_mrad_s,
            demand_torque_unm: runtime.demand_torque_unm,
            bounded_command_ppm: runtime.bounded_command_ppm,
            predicted_torque_unm: runtime.predicted_torque_unm,
            inferred_missed_ticks: timing.inferred_missed_tick_count,
            deadline_overruns: timing.deadline_overrun_count,
        }
    }
}

// ---------------------------------------------------------------------------
// Keys
// ---------------------------------------------------------------------------

#[derive(Clone, Copy, Debug, PartialEq, Eq, Structural)]
pub struct KeyEvents {
    pub pressed: u32,
    pub released: u32,
    pub repeat: u32,
}

impl Default for KeyEvents {
    fn default() -> (e: Self)
        ensures
            e == (KeyEvents { pressed: 0, released: 0, repeat: 0 }),
    {
        KeyEvents { pressed: 0, released: 0, repeat: 0 }
    }
}

/// Pressed-key mask of the five front-panel key levels (`true` = pressed).
pub fn raw_key_mask(m: bool, x: bool, plus: bool, minus: bool, user: bool) -> (mask: u32)
    ensures
        mask == (if m {
            KEY_M_MASK
        } else {
            0
        }) + (if x {
            KEY_X_MASK
        } else {
            0
        }) + (if plus {
            KEY_PLUS_MASK
        } else {
            0
        }) + (if minus {
            KEY_MINUS_MASK
        } else {
            0
        }) + (if user {
            KEY_USER_MASK
        } else {
            0
        }),
{
    let mut mask: u32 = 0;
    if m {
        mask = mask + KEY_M_MASK;
    }
    if x {
        mask = mask + KEY_X_MASK;
    }
    if plus {
        mask = mask + KEY_PLUS_MASK;
    }
    if minus {
        mask = mask + KEY_MINUS_MASK;
    }
    if user {
        mask = mask + KEY_USER_MASK;
    }
    mask
}

/// Bit `k` of `mask` is set.
pub open spec fn bit(mask: u32, k: u32) -> bool {
    mask & (1u32 << k) != 0
}

/// Debounce and repeat state of one key.
pub struct KeySlot {
    pub candidate: bool,
    pub stable: bool,
    pub candidate_since: u32,
    pub pressed_since: u32,
    pub last_repeat: u32,
}

/// `a - b` wrapping in the `u32` tick domain.
pub open spec fn tick_sub(a: u32, b: u32) -> u32 {
    if a >= b {
        (a - b) as u32
    } else {
        (a - b + 0x1_0000_0000) as u32
    }
}

/// One key's next state and its (pressed, released, repeat) events for a
/// raw level at `tick`: a raw change restarts the candidate; a candidate that
/// persisted for the debounce time becomes stable (press or release); a held
/// stable key repeats after the repeat delay at the repeat interval.
pub open spec fn key_step(s: KeySlot, raw: bool, tick: u32) -> (KeySlot, bool, bool, bool) {
    if raw != s.candidate {
        (KeySlot { candidate: raw, candidate_since: tick, ..s }, false, false, false)
    } else if s.candidate != s.stable {
        if tick_sub(tick, s.candidate_since) < KEY_DEBOUNCE_TICKS {
            (s, false, false, false)
        } else if s.candidate {
            (
                KeySlot { stable: true, pressed_since: tick, last_repeat: tick, ..s },
                true,
                false,
                false,
            )
        } else {
            (KeySlot { stable: false, ..s }, false, true, false)
        }
    } else if s.stable && tick_sub(tick, s.pressed_since) >= KEY_REPEAT_DELAY_TICKS && tick_sub(
        tick,
        s.last_repeat,
    ) >= KEY_REPEAT_TICKS {
        (KeySlot { last_repeat: tick, ..s }, false, false, true)
    } else {
        (s, false, false, false)
    }
}

/// Debounced, auto-repeating service for the five front-panel keys.
#[derive(Clone, Copy, Debug, PartialEq, Eq)]
pub struct KeyService {
    stable_mask: u32,
    candidate_mask: u32,
    candidate_since: [u32; KEY_COUNT],
    pressed_since: [u32; KEY_COUNT],
    last_repeat: [u32; KEY_COUNT],
}

proof fn lemma_bit_set(m: u32, k: u32, j: u32)
    by (bit_vector)
    requires
        k < 32,
        j < 32,
    ensures
        ((m | (1u32 << k)) & (1u32 << j) != 0) == ((m & (1u32 << j) != 0) || k == j),
        ((m & !(1u32 << k)) & (1u32 << j) != 0) == ((m & (1u32 << j) != 0) && k != j),
        (0u32 & (1u32 << j)) == 0,
{
}

proof fn lemma_bit_set_all(m: u32, k: u32)
    requires
        k < 32,
    ensures
        forall|j: u32| j < 32 ==> #[trigger] bit(m | (1u32 << k), j) == (bit(m, j) || k == j),
        forall|j: u32| j < 32 ==> #[trigger] bit(m & !(1u32 << k), j) == (bit(m, j) && k != j),
        forall|j: u32| j < 32 ==> !#[trigger] bit(0, j),
{
    assert forall|j: u32| j < 32 implies #[trigger] bit(m | (1u32 << k), j) == (bit(m, j) || k
        == j) by {
        lemma_bit_set(m, k, j);
    }
    assert forall|j: u32| j < 32 implies #[trigger] bit(m & !(1u32 << k), j) == (bit(m, j) && k
        != j) by {
        lemma_bit_set(m, k, j);
    }
    assert forall|j: u32| j < 32 implies !#[trigger] bit(0, j) by {
        lemma_bit_set(m, k, j);
    }
}

impl KeyService {
    /// The debounce/repeat state of key `k`.
    pub closed spec fn slot(self, k: int) -> KeySlot {
        KeySlot {
            candidate: bit(self.candidate_mask, k as u32),
            stable: bit(self.stable_mask, k as u32),
            candidate_since: self.candidate_since@[k],
            pressed_since: self.pressed_since@[k],
            last_repeat: self.last_repeat@[k],
        }
    }

    /// Bit `k` of the stable (debounced) pressed mask.
    pub closed spec fn stable_bit(self, k: u32) -> bool {
        bit(self.stable_mask, k)
    }

    /// Bit `k` of the candidate pressed mask.
    pub closed spec fn candidate_bit(self, k: u32) -> bool {
        bit(self.candidate_mask, k)
    }

    /// Keys start stable at `initial_pressed_mask`, with every timer at `tick`.
    pub fn new(initial_pressed_mask: u32, tick: u32) -> (s: Self)
        ensures
            forall|k: u32| k < 32 ==> #[trigger] s.stable_bit(k) == bit(initial_pressed_mask, k),
            forall|k: u32| k < 32 ==> #[trigger] s.candidate_bit(k) == bit(initial_pressed_mask, k),
            forall|k: int|
                0 <= k < KEY_COUNT ==> #[trigger] s.slot(k) == (KeySlot {
                    candidate: bit(initial_pressed_mask, k as u32),
                    stable: bit(initial_pressed_mask, k as u32),
                    candidate_since: tick,
                    pressed_since: tick,
                    last_repeat: tick,
                }),
    {
        KeyService {
            stable_mask: initial_pressed_mask,
            candidate_mask: initial_pressed_mask,
            candidate_since: [tick; KEY_COUNT],
            pressed_since: [tick; KEY_COUNT],
            last_repeat: [tick; KEY_COUNT],
        }
    }

    /// Advance all five keys by one raw sample at `tick`.
    pub fn update(&mut self, raw_pressed_mask: u32, tick: u32) -> (events: KeyEvents)
        ensures
            forall|k: int|
                0 <= k < KEY_COUNT ==> {
                    let (next, pressed, released, repeat) = key_step(
                        #[trigger] old(self).slot(k),
                        bit(raw_pressed_mask, k as u32),
                        tick,
                    );
                    &&& final(self).slot(k) == next
                    &&& bit(events.pressed, k as u32) == pressed
                    &&& bit(events.released, k as u32) == released
                    &&& bit(events.repeat, k as u32) == repeat
                },
            forall|k: u32|
                KEY_COUNT <= k < 32 ==> #[trigger] final(self).stable_bit(k) == old(self).stable_bit(
                    k,
                ),
            forall|k: u32|
                KEY_COUNT <= k < 32 ==> #[trigger] final(self).candidate_bit(k) == old(
                    self,
                ).candidate_bit(k),
            forall|k: u32| KEY_COUNT <= k < 32 ==> !#[trigger] bit(events.pressed, k),
            forall|k: u32| KEY_COUNT <= k < 32 ==> !#[trigger] bit(events.released, k),
            forall|k: u32| KEY_COUNT <= k < 32 ==> !#[trigger] bit(events.repeat, k),
    {
        let mut events = KeyEvents { pressed: 0, released: 0, repeat: 0 };
        proof {
            lemma_bit_set_all(0, 0);
        }
        let ghost old_self = *self;
        let mut key: usize = 0;
        while key < KEY_COUNT
            invariant
                key <= KEY_COUNT,
                self.candidate_since@.len() == KEY_COUNT,
                self.pressed_since@.len() == KEY_COUNT,
                self.last_repeat@.len() == KEY_COUNT,
                forall|k: int|
                    0 <= k < key ==> {
                        let (next, pressed, released, repeat) = key_step(
                            #[trigger] old_self.slot(k),
                            bit(raw_pressed_mask, k as u32),
                            tick,
                        );
                        &&& self.slot(k) == next
                        &&& bit(events.pressed, k as u32) == pressed
                        &&& bit(events.released, k as u32) == released
                        &&& bit(events.repeat, k as u32) == repeat
                    },
                forall|k: int| key <= k < KEY_COUNT ==> #[trigger] self.slot(k) == old_self.slot(k),
                forall|k: u32| key <= k < 32 ==> !#[trigger] bit(events.pressed, k),
                forall|k: u32| key <= k < 32 ==> !#[trigger] bit(events.released, k),
                forall|k: u32| key <= k < 32 ==> !#[trigger] bit(events.repeat, k),
                forall|k: u32|
                    KEY_COUNT <= k < 32 ==> #[trigger] self.stable_bit(k) == old_self.stable_bit(k),
                forall|k: u32|
                    KEY_COUNT <= k < 32 ==> #[trigger] self.candidate_bit(k) == old_self.candidate_bit(
                        k,
                    ),
            decreases KEY_COUNT - key,
        {
            let k32: u32 = key as u32;
            let bit_value: u32 = 1u32 << k32;
            let ghost before = *self;
            let ghost events_before = events;
            let raw_pressed = raw_pressed_mask & bit_value != 0;
            let candidate_pressed = self.candidate_mask & bit_value != 0;
            let stable_pressed = self.stable_mask & bit_value != 0;
            proof {
                lemma_bit_set_all(self.candidate_mask, k32);
                lemma_bit_set_all(self.stable_mask, k32);
                lemma_bit_set_all(events.pressed, k32);
                lemma_bit_set_all(events.released, k32);
                lemma_bit_set_all(events.repeat, k32);
            }
            if raw_pressed != candidate_pressed {
                if raw_pressed {
                    self.candidate_mask = self.candidate_mask | bit_value;
                } else {
                    self.candidate_mask = self.candidate_mask & !bit_value;
                }
                self.candidate_since[key] = tick;
            } else if candidate_pressed != stable_pressed {
                if tick.wrapping_sub(self.candidate_since[key]) < KEY_DEBOUNCE_TICKS {
                } else if candidate_pressed {
                    self.stable_mask = self.stable_mask | bit_value;
                    self.pressed_since[key] = tick;
                    self.last_repeat[key] = tick;
                    events.pressed = events.pressed | bit_value;
                } else {
                    self.stable_mask = self.stable_mask & !bit_value;
                    events.released = events.released | bit_value;
                }
            } else if stable_pressed && tick.wrapping_sub(self.pressed_since[key])
                >= KEY_REPEAT_DELAY_TICKS && tick.wrapping_sub(self.last_repeat[key])
                >= KEY_REPEAT_TICKS {
                self.last_repeat[key] = tick;
                events.repeat = events.repeat | bit_value;
            }
            proof {
                let kk = key as int;
                assert(old_self.slot(kk) == before.slot(kk));
                assert(!bit(events_before.pressed, k32));
                assert(!bit(events_before.released, k32));
                assert(!bit(events_before.repeat, k32));
                let step = key_step(before.slot(kk), bit(raw_pressed_mask, k32), tick);
                assert(self.slot(kk) == step.0);
                assert(bit(events.pressed, k32) == step.1);
                assert(bit(events.released, k32) == step.2);
                assert(bit(events.repeat, k32) == step.3);
                assert forall|k: int| 0 <= k < KEY_COUNT && k != key implies #[trigger] self.slot(
                    k,
                ) == before.slot(k) by {
                    assert(bit(self.candidate_mask, k as u32) == bit(before.candidate_mask, k as u32));
                    assert(bit(self.stable_mask, k as u32) == bit(before.stable_mask, k as u32));
                }
                assert forall|k: int| 0 <= k < key implies ({
                    let (next, pressed, released, repeat) = key_step(
                        #[trigger] old_self.slot(k),
                        bit(raw_pressed_mask, k as u32),
                        tick,
                    );
                    &&& bit(events.pressed, k as u32) == pressed
                    &&& bit(events.released, k as u32) == released
                    &&& bit(events.repeat, k as u32) == repeat
                }) by {
                    assert(bit(events.pressed, k as u32) == bit(events_before.pressed, k as u32));
                    assert(bit(events.released, k as u32) == bit(events_before.released, k as u32));
                    assert(bit(events.repeat, k as u32) == bit(events_before.repeat, k as u32));
                }
                assert forall|k: u32| KEY_COUNT <= k < 32 implies #[trigger] self.stable_bit(k)
                    == old_self.stable_bit(k) by {
                    assert(before.stable_bit(k) == old_self.stable_bit(k));
                    assert(bit(self.stable_mask, k) == bit(before.stable_mask, k));
                }
                assert forall|k: u32| KEY_COUNT <= k < 32 implies #[trigger] self.candidate_bit(k)
                    == old_self.candidate_bit(k) by {
                    assert(before.candidate_bit(k) == old_self.candidate_bit(k));
                    assert(bit(self.candidate_mask, k) == bit(before.candidate_mask, k));
                }
                assert forall|k: u32| key < k < 32 implies !#[trigger] bit(events.pressed, k) by {
                    assert(bit(events.pressed, k) == bit(events_before.pressed, k));
                }
                assert forall|k: u32| key < k < 32 implies !#[trigger] bit(events.released, k) by {
                    assert(bit(events.released, k) == bit(events_before.released, k));
                }
                assert forall|k: u32| key < k < 32 implies !#[trigger] bit(events.repeat, k) by {
                    assert(bit(events.repeat, k) == bit(events_before.repeat, k));
                }
            }
            key = key + 1;
        }
        events
    }
}

/// A press is reported only for a key whose raw level has agreed with the
/// pressed candidate for at least the debounce time.
pub proof fn lemma_press_requires_debounce(s: KeySlot, raw: bool, tick: u32)
    requires
        key_step(s, raw, tick).1,
    ensures
        raw,
        s.candidate,
        !s.stable,
        tick_sub(tick, s.candidate_since) >= KEY_DEBOUNCE_TICKS,
        key_step(s, raw, tick).0.stable,
{
}

/// When each event is reported: a press exactly when a pressed raw level
/// has matched the unstable pressed candidate for at least 20 ticks, a
/// release likewise for a released level, and a repeat exactly when a stable
/// pressed key is held at least 500 ticks after its press and at least 150
/// ticks after its previous repeat.
pub proof fn lemma_key_events_exactly_when(s: KeySlot, raw: bool, tick: u32)
    ensures
        key_step(s, raw, tick).1 == (raw && s.candidate && !s.stable && tick_sub(
            tick,
            s.candidate_since,
        ) >= 20),
        key_step(s, raw, tick).2 == (!raw && !s.candidate && s.stable && tick_sub(
            tick,
            s.candidate_since,
        ) >= 20),
        key_step(s, raw, tick).3 == (raw && s.candidate && s.stable && tick_sub(
            tick,
            s.pressed_since,
        ) >= 500 && tick_sub(tick, s.last_repeat) >= 150),
{
}

/// A release is reported only for a stable pressed key whose raw level has
/// agreed with the released candidate for at least the debounce time.
pub proof fn lemma_release_requires_debounce(s: KeySlot, raw: bool, tick: u32)
    requires
        key_step(s, raw, tick).2,
    ensures
        !raw,
        !s.candidate,
        s.stable,
        tick_sub(tick, s.candidate_since) >= KEY_DEBOUNCE_TICKS,
        !key_step(s, raw, tick).0.stable,
{
}

/// A raw level that differs from the candidate restarts the debounce at
/// `tick`: no event, and the debounced level is kept.
pub proof fn lemma_raw_change_restarts_debounce(s: KeySlot, raw: bool, tick: u32)
    requires
        raw != s.candidate,
    ensures
        ({
            let (next, pressed, released, repeat) = key_step(s, raw, tick);
            &&& !pressed && !released && !repeat
            &&& next.candidate == raw
            &&& next.candidate_since == tick
            &&& next.stable == s.stable
        }),
{
}

/// One step reports at most one event for a key, and a press starts the
/// hold: the repeat delay and interval are measured from the press.
pub proof fn lemma_one_event_per_step(s: KeySlot, raw: bool, tick: u32)
    ensures
        ({
            let (next, pressed, released, repeat) = key_step(s, raw, tick);
            &&& !(pressed && released) && !(pressed && repeat) && !(released && repeat)
            &&& pressed ==> next.pressed_since == tick && next.last_repeat == tick
        }),
{
}

/// A repeat is reported only for a key held stable and pressed for at least
/// the repeat delay, at least one repeat interval after the previous repeat
/// (or the press); the key stays pressed.
pub proof fn lemma_repeat_requires_hold(s: KeySlot, raw: bool, tick: u32)
    requires
        key_step(s, raw, tick).3,
    ensures
        raw,
        s.candidate,
        s.stable,
        tick_sub(tick, s.pressed_since) >= KEY_REPEAT_DELAY_TICKS,
        tick_sub(tick, s.last_repeat) >= KEY_REPEAT_TICKS,
        key_step(s, raw, tick).0.stable,
{
}

/// A repeat restarts the repeat interval: after a repeat at `tick`, no step
/// at a tick less than one repeat interval later reports another repeat of
/// that key, whatever its raw level.
pub proof fn lemma_repeat_restarts_interval(
    s: KeySlot,
    raw: bool,
    tick: u32,
    later_raw: bool,
    later_tick: u32,
)
    requires
        key_step(s, raw, tick).3,
        tick_sub(later_tick, tick) < KEY_REPEAT_TICKS,
    ensures
        !key_step(key_step(s, raw, tick).0, later_raw, later_tick).3,
{
}

// ---------------------------------------------------------------------------
// Local UI
// ---------------------------------------------------------------------------

/// Contrast step applied by the +/- keys.
pub const CONTRAST_STEP: u8 = 16;

/// `key` is among the keys in `mask`.
pub open spec fn key_in(mask: u32, key: u32) -> bool {
    mask & key != 0
}

/// Contrast after one step up.
pub open spec fn contrast_up(c: u8) -> u8 {
    if c + CONTRAST_STEP > u8::MAX {
        u8::MAX
    } else {
        (c + CONTRAST_STEP) as u8
    }
}

/// Contrast after one step down.
pub open spec fn contrast_down(c: u8) -> u8 {
    if c < CONTRAST_STEP {
        0
    } else {
        (c - CONTRAST_STEP) as u8
    }
}

/// A contrast step moves the contrast by sixteen, stopping at the ends of
/// the range, and a step down undoes a step up that did not saturate.
pub proof fn lemma_contrast_steps(c: u8)
    ensures
        contrast_up(c) == if c as int + 16 > 255 {
            255
        } else {
            c as int + 16
        },
        contrast_down(c) == if (c as int) < 16 {
            0
        } else {
            c as int - 16
        },
        c as int + 16 <= 255 ==> contrast_down(contrast_up(c)) == c,
        c >= 16 ==> contrast_up(contrast_down(c)) == c,
{
}

/// What one tick of key handling asks of the display and the telemetry link.
#[derive(Clone, Copy, Debug, PartialEq, Eq, Structural)]
pub struct PanelActions {
    /// The contrast to send after a + step, if + was pressed or repeating.
    pub contrast_raised: Option<u8>,
    /// The contrast to send after a - step, if - was pressed or repeating.
    pub contrast_lowered: Option<u8>,
    pub telemetry_enabled: bool,
}

#[derive(Clone, Copy, Debug, PartialEq, Eq, Structural)]
pub struct LocalUi {
    page: StatusPage,
    contrast: u8,
}

impl Default for LocalUi {
    fn default() -> (ui: Self)
        ensures
            ui.spec_page() == StatusPage::Status,
            ui.spec_contrast() == 0x7f,
    {
        LocalUi::new()
    }
}

impl LocalUi {
    pub closed spec fn spec_page(self) -> StatusPage {
        self.page
    }

    pub closed spec fn spec_contrast(self) -> u8 {
        self.contrast
    }

    pub fn new() -> (ui: Self)
        ensures
            ui.spec_page() == StatusPage::Status,
            ui.spec_contrast() == 0x7f,
    {
        LocalUi { page: StatusPage::Status, contrast: 0x7f }
    }

    pub fn page(&self) -> (p: StatusPage)
        ensures
            p == self.spec_page(),
    {
        self.page
    }

    pub fn contrast(&self) -> (c: u8)
        ensures
            c == self.spec_contrast(),
    {
        self.contrast
    }

    pub fn next_page(&mut self)
        ensures
            final(self).spec_page() == spec_next_page(old(self).spec_page()),
            final(self).spec_contrast() == old(self).spec_contrast(),
    {
        self.page = self.page.next();
    }

    pub fn previous_page(&mut self)
        ensures
            final(self).spec_page() == spec_previous_page(old(self).spec_page()),
            final(self).spec_contrast() == old(self).spec_contrast(),
    {
        self.page = self.page.previous();
    }

    pub fn increase_contrast(&mut self) -> (c: u8)
        ensures
            c == final(self).spec_contrast(),
            c == if old(self).spec_contrast() + CONTRAST_STEP > u8::MAX {
                u8::MAX
            } else {
                (old(self).spec_contrast() + CONTRAST_STEP) as u8
            },
            final(self).spec_page() == old(self).spec_page(),
    {
        self.contrast = self.contrast.saturating_add(CONTRAST_STEP);
        self.contrast
    }

    /// Apply one tick of key events: M and X step the page forward and back,
    /// + and - (pressed or repeating) raise and lower the contrast, and the
    /// user key toggles telemetry. Each contrast change is reported so that it
    /// can be sent to the display.
    pub fn handle_keys(&mut self, events: KeyEvents, telemetry_enabled: bool) -> (a: PanelActions)
        ensures
            ({
                let after_m = if key_in(events.pressed, KEY_M_MASK) {
                    spec_next_page(old(self).spec_page())
                } else {
                    old(self).spec_page()
                };
                final(self).spec_page() == if key_in(events.pressed, KEY_X_MASK) {
                    spec_previous_page(after_m)
                } else {
                    after_m
                }
            }),
            ({
                let c0 = old(self).spec_contrast();
                let plus = key_in(events.pressed | events.repeat, KEY_PLUS_MASK);
                let minus = key_in(events.pressed | events.repeat, KEY_MINUS_MASK);
                let c1 = if plus {
                    contrast_up(c0)
                } else {
                    c0
                };
                let c2 = if minus {
                    contrast_down(c1)
                } else {
                    c1
                };
                &&& a.contrast_raised == if plus {
                    Some(c1)
                } else {
                    None
                }
                &&& a.contrast_lowered == if minus {
                    Some(c2)
                } else {
                    None
                }
                &&& final(self).spec_contrast() == c2
            }),
            a.telemetry_enabled == (telemetry_enabled != key_in(events.pressed, KEY_USER_MASK)),
    {
        if events.pressed & KEY_M_MASK != 0 {
            self.next_page();
        }
        if events.pressed & KEY_X_MASK != 0 {
            self.previous_page();
        }
        let held = events.pressed | events.repeat;
        let contrast_raised = if held & KEY_PLUS_MASK != 0 {
            Some(self.increase_contrast())
        } else {
            None
        };
        let contrast_lowered = if held & KEY_MINUS_MASK != 0 {
            Some(self.decrease_contrast())
        } else {
            None
        };
        let toggled = events.pressed & KEY_USER_MASK != 0;
        PanelActions { contrast_raised, contrast_lowered, telemetry_enabled: telemetry_enabled != toggled }
    }

    pub fn decrease_contrast(&mut self) -> (c: u8)
        ensures
            c == final(self).spec_contrast(),
            c == if old(self).spec_contrast() < CONTRAST_STEP {
                0
            } else {
                (old(self).spec_contrast() - CONTRAST_STEP) as u8
            },
            final(self).spec_page() == old(self).spec_page(),
    {
        self.contrast = self.contrast.saturating_sub(CONTRAST_STEP);
        self.contrast
    }
}

} // verus!
