//! Runtime timing characterization of admitted control cycles.
//!
//! The evidence record is owned by the characterizer; a target that shares it
//! with background services keeps the characterizer behind its own
//! synchronization and publishes `snapshot`.
use vstd::prelude::*;

use crate::runtime_state::{SensorTimingHealth, sat_sub_u64};

verus! {

#[derive(Debug, Clone, Copy, PartialEq, Eq, Structural)]
pub struct TimingEvidenceSnapshot {
    pub admission_count: u32,
    pub elapsed_ms: u32,
    pub last_period_us: u32,
    pub min_period_us: u32,
    pub max_period_us: u32,
    pub max_period_jitter_us: u32,
    pub max_tick_phase_us: u32,
    pub last_execution_us: u32,
    pub max_execution_us: u32,
    pub max_execution_cycles: u32,
    pub deadline_overrun_count: u32,
    pub inferred_missed_tick_count: u32,
    pub supervisor_late_count: u32,
    pub supervisor_timeout_count: u32,
    pub adc_error_count: u32,
    pub runtime_error_count: u32,
}

impl Default for TimingEvidenceSnapshot {
    fn default() -> (s: Self)
        ensures
            s == spec_zero_evidence(),
    {
        zero_evidence()
    }
}

/// The all-zero evidence record.
pub open spec fn spec_zero_evidence() -> TimingEvidenceSnapshot {
    TimingEvidenceSnapshot {
        admission_count: 0,
        elapsed_ms: 0,
        last_period_us: 0,
        min_period_us: 0,
        max_period_us: 0,
        max_period_jitter_us: 0,
        max_tick_phase_us: 0,
        last_execution_us: 0,
        max_execution_us: 0,
        max_execution_cycles: 0,
        deadline_overrun_count: 0,
        inferred_missed_tick_count: 0,
        supervisor_late_count: 0,
        supervisor_timeout_count: 0,
        adc_error_count: 0,
        runtime_error_count: 0,
    }
}

fn zero_evidence() -> (s: TimingEvidenceSnapshot)
    ensures
        s == spec_zero_evidence(),
{
    TimingEvidenceSnapshot {
        admission_count: 0,
        elapsed_ms: 0,
        last_period_us: 0,
        min_period_us: 0,
        max_period_us: 0,
        max_period_jitter_us: 0,
        max_tick_phase_us: 0,
        last_execution_us: 0,
        max_execution_us: 0,
        max_execution_cycles: 0,
        deadline_overrun_count: 0,
        inferred_missed_tick_count: 0,
        supervisor_late_count: 0,
        supervisor_timeout_count: 0,
        adc_error_count: 0,
        runtime_error_count: 0,
    }
}

/// The evidence record before any cycle: all zero except the minimum period,
/// which starts at `u32::MAX` so the first observed period replaces it.
pub open spec fn spec_initial_evidence() -> TimingEvidenceSnapshot {
    TimingEvidenceSnapshot { min_period_us: u32::MAX, ..spec_zero_evidence() }
}

/// `x + 1` wrapping at `u32::MAX`.
pub open spec fn wrap_inc(x: u32) -> u32 {
    if x == u32::MAX {
        0
    } else {
        (x + 1) as u32
    }
}

/// `x + y` wrapping at the `u32` range.
pub open spec fn wrap_add(x: u32, y: u32) -> u32 {
    ((x + y) % 0x1_0000_0000) as u32
}

/// `x` clamped to the `u32` range.
pub open spec fn clamp_u32(x: int) -> u32 {
    if x > u32::MAX {
        u32::MAX
    } else {
        x as u32
    }
}

pub open spec fn max_u32(a: u32, b: u32) -> u32 {
    if b > a {
        b
    } else {
        a
    }
}

pub open spec fn min_u32(a: u32, b: u32) -> u32 {
    if b < a {
        b
    } else {
        a
    }
}

/// Number of nominal periods an observed admission period spans, rounded to
/// the nearest whole period and at least one.
pub open spec fn observed_periods(period_us: u64, expected_us: u64) -> int {
    let n = (period_us + expected_us / 2) / (expected_us as int);
    if n < 1 {
        1
    } else {
        n
    }
}

/// Distance of an observed period from its nearest nominal multiple (the
/// nominal multiple saturating at `u64::MAX`).
pub open spec fn period_jitter(period_us: u64, expected_us: u64) -> int {
    let nominal = if observed_periods(period_us, expected_us) * expected_us > u64::MAX {
        u64::MAX as int
    } else {
        observed_periods(period_us, expected_us) * expected_us
    };
    if period_us >= nominal {
        period_us - nominal
    } else {
        nominal - period_us
    }
}

/// Evidence after one admission at `admitted_at_us` with TIM1 phase
/// `tick_phase_us`, following the admission at `previous` (if any).
pub open spec fn admitted_evidence(
    e: TimingEvidenceSnapshot,
    expected_period_us: u32,
    previous: Option<u64>,
    admitted_at_us: u64,
    tick_phase_us: u32,
) -> TimingEvidenceSnapshot {
    let base = TimingEvidenceSnapshot {
        admission_count: wrap_inc(e.admission_count),
        elapsed_ms: clamp_u32((admitted_at_us / 1000) as int),
        max_tick_phase_us: max_u32(e.max_tick_phase_us, tick_phase_us),
        ..e
    };
    match previous {
        None => base,
        Some(prev) => {
            let period = sat_sub_u64(admitted_at_us, prev);
            let period32 = clamp_u32(period as int);
            let missed = observed_periods(period, expected_period_us as u64) - 1;
            TimingEvidenceSnapshot {
                last_period_us: period32,
                min_period_us: min_u32(e.min_period_us, period32),
                max_period_us: max_u32(e.max_period_us, period32),
                max_period_jitter_us: max_u32(
                    e.max_period_jitter_us,
                    clamp_u32(period_jitter(period, expected_period_us as u64)),
                ),
                inferred_missed_tick_count: if missed != 0 {
                    wrap_add(e.inferred_missed_tick_count, clamp_u32(missed))
                } else {
                    e.inferred_missed_tick_count
                },
                ..base
            }
        },
    }
}

/// `ceil(value / divisor)`.
pub open spec fn div_ceil(value: u32, divisor: u32) -> int {
    (value + divisor - 1) / (divisor as int)
}

/// Evidence after one cycle that executed for `elapsed_cycles` cycle-counter
/// ticks at `ticks_per_us` ticks per microsecond.
pub open spec fn finished_evidence(
    e: TimingEvidenceSnapshot,
    expected_period_us: u32,
    elapsed_cycles: u32,
    ticks_per_us: u32,
) -> TimingEvidenceSnapshot {
    let execution_us = div_ceil(elapsed_cycles, ticks_per_us) as u32;
    TimingEvidenceSnapshot {
        last_execution_us: execution_us,
        max_execution_us: max_u32(e.max_execution_us, execution_us),
        max_execution_cycles: max_u32(e.max_execution_cycles, elapsed_cycles),
        deadline_overrun_count: if execution_us > expected_period_us {
            wrap_inc(e.deadline_overrun_count)
        } else {
            e.deadline_overrun_count
        },
        ..e
    }
}

/// `ceil(value / divisor)`: the whole microseconds needed to cover `value`
/// cycle-counter ticks.
pub fn div_ceil_u32(value: u32, divisor: u32) -> (q: u32)
    requires
        divisor != 0,
    ensures
        q == div_ceil(value, divisor),
        q as int * divisor >= value,
        (q as int - 1) * divisor < value || q == 0,
{
    let numerator: u64 = value as u64 + divisor as u64 - 1;
    let q64: u64 = numerator / divisor as u64;
    proof {
        let v = value as int;
        let d = divisor as int;
        let n = numerator as int;
        let qq = q64 as int;
        assert(qq * d <= n && n < qq * d + d) by (nonlinear_arith)
            requires
                qq == n / d,
                d > 0,
                n >= 0,
        ;
        assert(qq * d >= v && (qq - 1) * d < v) by (nonlinear_arith)
            requires
                qq * d <= n,
                n < qq * d + d,
                n == v + d - 1,
                d >= 1,
        ;
        assert(qq <= u32::MAX) by (nonlinear_arith)
            requires
                qq * d <= n,
                n == v + d - 1,
                d >= 1,
                v <= u32::MAX,
                d <= u32::MAX,
                qq >= 0,
        ;
    }
    q64 as u32
}

fn record_max(target: u32, value: u32) -> (r: u32)
    ensures
        r == max_u32(target, value),
{
    if value > target {
        value
    } else {
        target
    }
}

fn record_min(target: u32, value: u32) -> (r: u32)
    ensures
        r == min_u32(target, value),
{
    if value < target {
        value
    } else {
        target
    }
}

fn clamp_to_u32(value: u64) -> (r: u32)
    ensures
        r == clamp_u32(value as int),
{
    if value > u32::MAX as u64 {
        u32::MAX
    } else {
        value as u32
    }
}

pub struct RuntimeTimingCharacterizer {
    expected_period_us: u32,
    last_admitted_at_us: Option<u64>,
    evidence: TimingEvidenceSnapshot,
}

impl RuntimeTimingCharacterizer {
    pub closed spec fn spec_expected_period_us(&self) -> u32 {
        self.expected_period_us
    }

    pub closed spec fn spec_last_admitted_at_us(&self) -> Option<u64> {
        self.last_admitted_at_us
    }

    pub closed spec fn spec_evidence(&self) -> TimingEvidenceSnapshot {
        self.evidence
    }

    pub fn new(expected_period_us: u32) -> (c: Self)
        ensures
            c.spec_expected_period_us() == expected_period_us,
            c.spec_last_admitted_at_us() is None,
            c.spec_evidence() == spec_initial_evidence(),
    {
        RuntimeTimingCharacterizer {
            expected_period_us,
            last_admitted_at_us: None,
            evidence: TimingEvidenceSnapshot { min_period_us: u32::MAX, ..zero_evidence() },
        }
    }

    pub fn expected_period_us(&self) -> (p: u32)
        ensures
            p == self.spec_expected_period_us(),
    {
        self.expected_period_us
    }

    pub fn last_admitted_at_us(&self) -> (t: Option<u64>)
        ensures
            t == self.spec_last_admitted_at_us(),
    {
        self.last_admitted_at_us
    }

    /// Record one admitted control opportunity.
    ///
    /// The period since the previous admission is rounded to whole nominal
    /// periods; every period beyond the first counts as an inferred missed
    /// tick, and the distance to the nominal multiple is the period jitter.
    pub fn observe_admission(&mut self, admitted_at_us: u64, tick_phase_us: u32)
        requires
            old(self).spec_last_admitted_at_us() is Some ==> old(self).spec_expected_period_us()
                > 0,
            old(self).spec_last_admitted_at_us() matches Some(prev) ==> sat_sub_u64(
                admitted_at_us,
                prev,
            ) + old(self).spec_expected_period_us() / 2 <= u64::MAX,
        ensures
            final(self).spec_evidence() == admitted_evidence(
                old(self).spec_evidence(),
                old(self).spec_expected_period_us(),
                old(self).spec_last_admitted_at_us(),
                admitted_at_us,
                tick_phase_us,
            ),
            final(self).spec_last_admitted_at_us() == Some(admitted_at_us),
            final(self).spec_expected_period_us() == old(self).spec_expected_period_us(),
    {
        self.evidence.admission_count = self.evidence.admission_count.wrapping_add(1);
        self.evidence.elapsed_ms = clamp_to_u32(admitted_at_us / 1000);
        self.evidence.max_tick_phase_us = record_max(self.evidence.max_tick_phase_us, tick_phase_us);

        if let Some(previous) = self.last_admitted_at_us {
            let period_us = admitted_at_us.saturating_sub(previous);
            let period_u32 = clamp_to_u32(period_us);
            self.evidence.last_period_us = period_u32;
            self.evidence.min_period_us = record_min(self.evidence.min_period_us, period_u32);
            self.evidence.max_period_us = record_max(self.evidence.max_period_us, period_u32);

            let expected = self.expected_period_us as u64;
            let rounded = (period_us + expected / 2) / expected;
            let observed = if rounded < 1 {
                1
            } else {
                rounded
            };
            proof {
                let o = observed as int;
                let x = expected as int;
                assert((u64::MAX / expected) as int == (u64::MAX as int) / x);
                if observed > u64::MAX / expected {
                    assert(o * x > u64::MAX) by (nonlinear_arith)
                        requires
                            o > (u64::MAX as int) / x,
                            x > 0,
                    ;
                } else {
                    assert(o * x <= u64::MAX) by (nonlinear_arith)
                        requires
                            o <= (u64::MAX as int) / x,
                            x > 0,
                    ;
                }
            }
            let nominal = if observed > u64::MAX / expected {
                u64::MAX
            } else {
                observed * expected
            };
            let jitter = if period_us >= nominal {
                period_us - nominal
            } else {
                nominal - period_us
            };
            self.evidence.max_period_jitter_us = record_max(
                self.evidence.max_period_jitter_us,
                clamp_to_u32(jitter),
            );

            let inferred_missed = observed - 1;
            if inferred_missed != 0 {
                self.evidence.inferred_missed_tick_count =
                    self.evidence.inferred_missed_tick_count.wrapping_add(
                    clamp_to_u32(inferred_missed),
                );
            }
        }
        self.last_admitted_at_us = Some(admitted_at_us);
    }

    /// Count Supervisor late and timeout classifications.
    pub fn observe_supervisor_health(&mut self, health: SensorTimingHealth)
        ensures
            final(self).spec_evidence() == match health {
                SensorTimingHealth::Late => TimingEvidenceSnapshot {
                    supervisor_late_count: wrap_inc(old(self).spec_evidence().supervisor_late_count),
                    ..old(self).spec_evidence()
                },
                SensorTimingHealth::Timeout => TimingEvidenceSnapshot {
                    supervisor_timeout_count: wrap_inc(
                        old(self).spec_evidence().supervisor_timeout_count,
                    ),
                    ..old(self).spec_evidence()
                },
                _ => old(self).spec_evidence(),
            },
            final(self).spec_last_admitted_at_us() == old(self).spec_last_admitted_at_us(),
            final(self).spec_expected_period_us() == old(self).spec_expected_period_us(),
    {
        match health {
            SensorTimingHealth::Late => {
                self.evidence.supervisor_late_count =
                    self.evidence.supervisor_late_count.wrapping_add(1);
            },
            SensorTimingHealth::Timeout => {
                self.evidence.supervisor_timeout_count =
                    self.evidence.supervisor_timeout_count.wrapping_add(1);
            },
            SensorTimingHealth::Startup | SensorTimingHealth::Healthy => {},
        }
    }

    /// Record the execution time of one finished critical-path cycle; a cycle
    /// longer than the expected period is a deadline overrun.
    pub fn finish_cycle(&mut self, elapsed_cycles: u32, ticks_per_us: u32)
        requires
            ticks_per_us != 0,
        ensures
            final(self).spec_evidence() == finished_evidence(
                old(self).spec_evidence(),
                old(self).spec_expected_period_us(),
                elapsed_cycles,
                ticks_per_us,
            ),
            final(self).spec_last_admitted_at_us() == old(self).spec_last_admitted_at_us(),
            final(self).spec_expected_period_us() == old(self).spec_expected_period_us(),
    {
        let execution_us = div_ceil_u32(elapsed_cycles, ticks_per_us);
        self.evidence.last_execution_us = execution_us;
        self.evidence.max_execution_us = record_max(self.evidence.max_execution_us, execution_us);
        self.evidence.max_execution_cycles = record_max(
            self.evidence.max_execution_cycles,
            elapsed_cycles,
        );
        if execution_us > self.expected_period_us {
            self.evidence.deadline_overrun_count = self.evidence.deadline_overrun_count.wrapping_add(
                1,
            );
        }
    }

    pub fn record_adc_error(&mut self)
        ensures
            final(self).spec_evidence() == (TimingEvidenceSnapshot {
                adc_error_count: wrap_inc(old(self).spec_evidence().adc_error_count),
                ..old(self).spec_evidence()
            }),
            final(self).spec_last_admitted_at_us() == old(self).spec_last_admitted_at_us(),
            final(self).spec_expected_period_us() == old(self).spec_expected_period_us(),
    {
        self.evidence.adc_error_count = self.evidence.adc_error_count.wrapping_add(1);
    }

    pub fn record_runtime_error(&mut self)
        ensures
            final(self).spec_evidence() == (TimingEvidenceSnapshot {
                runtime_error_count: wrap_inc(old(self).spec_evidence().runtime_error_count),
                ..old(self).spec_evidence()
            }),
            final(self).spec_last_admitted_at_us() == old(self).spec_last_admitted_at_us(),
            final(self).spec_expected_period_us() == old(self).spec_expected_period_us(),
    {
        self.evidence.runtime_error_count = self.evidence.runtime_error_count.wrapping_add(1);
    }
}

/// The current timing evidence of `characterizer`.
pub fn snapshot(characterizer: &RuntimeTimingCharacterizer) -> (s: TimingEvidenceSnapshot)
    ensures
        s == characterizer.spec_evidence(),
{
    characterizer.evidence
}

/// What one admission records, stated field by field: the count goes up by
/// one, the elapsed time is the admission time in whole milliseconds
/// (saturating), the largest TIM1 phase and, after a previous admission, the
/// shortest and longest period and the largest period jitter are running
/// extremes that take in the new observation and never move back; the
/// execution and health counters are untouched.
pub proof fn lemma_admission_keeps_running_extremes(
    e: TimingEvidenceSnapshot,
    expected_period_us: u32,
    previous: Option<u64>,
    admitted_at_us: u64,
    tick_phase_us: u32,
)
    ensures
        ({
            let a = admitted_evidence(e, expected_period_us, previous, admitted_at_us, tick_phase_us);
            &&& a.admission_count == (e.admission_count + 1) % 0x1_0000_0000
            &&& a.elapsed_ms == if admitted_at_us / 1000 > u32::MAX {
                u32::MAX as int
            } else {
                (admitted_at_us / 1000) as int
            }
            &&& a.max_tick_phase_us >= e.max_tick_phase_us
            &&& a.max_tick_phase_us >= tick_phase_us
            &&& (a.max_tick_phase_us == e.max_tick_phase_us || a.max_tick_phase_us
                == tick_phase_us)
            &&& a.last_execution_us == e.last_execution_us
            &&& a.max_execution_us == e.max_execution_us
            &&& a.max_execution_cycles == e.max_execution_cycles
            &&& a.deadline_overrun_count == e.deadline_overrun_count
            &&& a.supervisor_late_count == e.supervisor_late_count
            &&& a.supervisor_timeout_count == e.supervisor_timeout_count
            &&& a.adc_error_count == e.adc_error_count
            &&& a.runtime_error_count == e.runtime_error_count
            &&& match previous {
                None => {
                    &&& a.last_period_us == e.last_period_us
                    &&& a.min_period_us == e.min_period_us
                    &&& a.max_period_us == e.max_period_us
                    &&& a.max_period_jitter_us == e.max_period_jitter_us
                    &&& a.inferred_missed_tick_count == e.inferred_missed_tick_count
                },
                Some(prev) => {
                    let period: int = if admitted_at_us >= prev {
                        admitted_at_us - prev
                    } else {
                        0
                    };
                    let period32: int = if period > u32::MAX {
                        u32::MAX as int
                    } else {
                        period
                    };
                    let jitter = clamp_u32(period_jitter(period as u64, expected_period_us as u64));
                    &&& a.last_period_us == period32
                    &&& a.min_period_us <= e.min_period_us
                    &&& a.min_period_us <= period32
                    &&& (a.min_period_us == e.min_period_us || a.min_period_us == period32)
                    &&& a.max_period_us >= e.max_period_us
                    &&& a.max_period_us >= period32
                    &&& (a.max_period_us == e.max_period_us || a.max_period_us == period32)
                    &&& a.max_period_jitter_us >= e.max_period_jitter_us
                    &&& a.max_period_jitter_us >= jitter
                    &&& (a.max_period_jitter_us == e.max_period_jitter_us
                        || a.max_period_jitter_us == jitter)
                    &&& a.inferred_missed_tick_count == (e.inferred_missed_tick_count + clamp_u32(
                        observed_periods(period as u64, expected_period_us as u64) - 1,
                    )) % 0x1_0000_0000
                },
            }
        }),
{
}

/// A period within half a nominal period of `k` whole periods spans `k`
/// observed periods (so `k - 1` inferred missed ticks), and its jitter is its
/// distance to `k` periods; a period under half a nominal period counts as
/// one period, at its distance from one period.
pub proof fn lemma_period_jitter_is_distance_to_nearest_multiple(
    k: u64,
    d: u64,
    late: bool,
    expected_us: u64,
)
    requires
        expected_us > 0,
        k >= 1,
        k * expected_us + expected_us <= u64::MAX,
        late ==> 2 * d < expected_us,
        !late ==> 2 * d <= expected_us && d <= k * expected_us,
    ensures
        ({
            let period: int = if late {
                k * expected_us + d
            } else {
                k * expected_us - d
            };
            &&& observed_periods(period as u64, expected_us) == k
            &&& period_jitter(period as u64, expected_us) == d
        }),
        forall|p: u64|
            2 * p < expected_us ==> #[trigger] observed_periods(p, expected_us) == 1
                && period_jitter(p, expected_us) == expected_us - p,
{
    let x = expected_us as int;
    let kk = k as int;
    let dd = d as int;
    let h = x / 2;
    assert forall|p: u64| 2 * p < expected_us implies #[trigger] observed_periods(p, expected_us)
        == 1 && period_jitter(p, expected_us) == expected_us - p by {
        let pp = p as int;
        assert((pp + x / 2) / x <= 1) by (nonlinear_arith)
            requires
                2 * pp < x,
                x > 0,
                pp >= 0,
        ;
        assert((pp + x / 2) / x >= 0) by (nonlinear_arith)
            requires
                x > 0,
                pp >= 0,
        ;
    }
    let period: int = if late {
        kk * x + dd
    } else {
        kk * x - dd
    };
    assert(2 * h <= x && x <= 2 * h + 1) by (nonlinear_arith)
        requires
            h == x / 2,
            x > 0,
    ;
    assert((period + h) / x == kk) by (nonlinear_arith)
        requires
            period == (if late {
                kk * x + dd
            } else {
                kk * x - dd
            }),
            late ==> 2 * dd < x,
            !late ==> 2 * dd <= x,
            2 * h <= x,
            x <= 2 * h + 1,
            dd >= 0,
            x > 0,
            kk >= 1,
    ;
}

/// What one finished cycle records, stated field by field: the execution
/// time is the cycle count rounded up to whole microseconds, the longest
/// execution time and cycle count are running maxima, and a cycle longer
/// than the expected period adds exactly one overrun.
pub proof fn lemma_finish_cycle_keeps_running_maxima(
    e: TimingEvidenceSnapshot,
    expected_period_us: u32,
    elapsed_cycles: u32,
    ticks_per_us: u32,
)
    requires
        ticks_per_us > 0,
    ensures
        ({
            let f = finished_evidence(e, expected_period_us, elapsed_cycles, ticks_per_us);
            let x = f.last_execution_us;
            &&& x * ticks_per_us >= elapsed_cycles
            &&& (x - 1) * ticks_per_us < elapsed_cycles || x == 0
            &&& f.max_execution_us >= e.max_execution_us
            &&& f.max_execution_us >= x
            &&& (f.max_execution_us == e.max_execution_us || f.max_execution_us == x)
            &&& f.max_execution_cycles >= e.max_execution_cycles
            &&& f.max_execution_cycles >= elapsed_cycles
            &&& (f.max_execution_cycles == e.max_execution_cycles || f.max_execution_cycles
                == elapsed_cycles)
            &&& f.deadline_overrun_count == if x > expected_period_us {
                (e.deadline_overrun_count + 1) % 0x1_0000_0000
            } else {
                e.deadline_overrun_count as int
            }
            &&& f.admission_count == e.admission_count
            &&& f.last_period_us == e.last_period_us
            &&& f.min_period_us == e.min_period_us
            &&& f.max_period_us == e.max_period_us
            &&& f.max_period_jitter_us == e.max_period_jitter_us
            &&& f.inferred_missed_tick_count == e.inferred_missed_tick_count
        }),
{
    let v = elapsed_cycles as int;
    let d = ticks_per_us as int;
    let n = v + d - 1;
    let q = n / d;
    assert(q * d <= n && n < q * d + d) by (nonlinear_arith)
        requires
            q == n / d,
            d > 0,
            n >= 0,
    ;
    assert(q * d >= v && (q - 1) * d < v) by (nonlinear_arith)
        requires
            q * d <= n,
            n < q * d + d,
            n == v + d - 1,
            d >= 1,
    ;
    assert(q <= u32::MAX) by (nonlinear_arith)
        requires
            q * d <= n,
            n == v + d - 1,
            d >= 1,
            v <= u32::MAX,
            d <= u32::MAX,
            q >= 0,
    ;
    assert(div_ceil(elapsed_cycles, ticks_per_us) == q);
}

/// An admission exactly one nominal period after the previous one infers no
/// missed tick and no jitter; one spanning `k` whole periods infers `k - 1`.
pub proof fn lemma_whole_periods_infer_missed_ticks(k: u64, expected_us: u64)
    requires
        expected_us > 0,
        k >= 1,
        k * expected_us + expected_us / 2 <= u64::MAX,
    ensures
        observed_periods((k * expected_us) as u64, expected_us) == k,
        period_jitter((k * expected_us) as u64, expected_us) == 0,
{
    let p = k * expected_us;
    let h = expected_us / 2;
    assert((p + h) / (expected_us as int) == k) by (nonlinear_arith)
        requires
            p == k * expected_us,
            h == expected_us / 2,
            expected_us > 0,
            k >= 1,
    ;
}

} // verus!
