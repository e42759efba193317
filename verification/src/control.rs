//! Observe-only control vocabulary and its safety check.
//!
//! Limit comparisons on the floating-point control state are made by the
//! numeric layer; the fault set that follows from them is decided here.
use vstd::prelude::*;

use crate::flags::{has16, is_bit16, lemma_with16};

verus! {

#[derive(Debug, Clone, Copy, PartialEq, Eq, Structural)]
pub enum EffortError {
    NonFinite,
    OutOfRange,
}

#[derive(Debug, Clone, Copy, PartialEq, Eq, Structural)]
pub enum EstimatorError {
    InvalidConfig,
    NonFiniteSample,
    InvalidTimestamp,
}

/// How one estimator sample on the wrapping 32-bit microsecond timebase
/// relates to the derivative history.
#[derive(Debug, Clone, Copy, PartialEq, Eq, Structural)]
pub enum SampleTiming {
    /// No history yet, or the gap exceeds the maximum: the sample becomes the
    /// new baseline.
    Prime,
    /// A fresh sample, this many microseconds after the previous one.
    Ready { elapsed_us: u32 },
}

/// `timestamp - previous` on the wrapping 32-bit timebase.
pub open spec fn wrapped_elapsed(timestamp_us: u32, previous_us: u32) -> int {
    if timestamp_us >= previous_us {
        timestamp_us - previous_us
    } else {
        timestamp_us - previous_us + 0x1_0000_0000
    }
}

/// Timing verdict of a sample at `timestamp_us` after `previous_us`: an
/// elapsed time of zero or of more than half the timebase is refused as a
/// timestamp that did not move forward.
pub open spec fn spec_sample_timing(
    previous_us: Option<u32>,
    timestamp_us: u32,
    max_gap_us: u32,
) -> Result<SampleTiming, EstimatorError> {
    match previous_us {
        None => Ok(SampleTiming::Prime),
        Some(p) => {
            let elapsed = wrapped_elapsed(timestamp_us, p);
            if elapsed == 0 || elapsed > i32::MAX {
                Err(EstimatorError::InvalidTimestamp)
            } else if elapsed > max_gap_us {
                Ok(SampleTiming::Prime)
            } else {
                Ok(SampleTiming::Ready { elapsed_us: elapsed as u32 })
            }
        },
    }
}

/// Classify one sample against the timestamp of the previous accepted one.
pub fn sample_timing(previous_us: Option<u32>, timestamp_us: u32, max_gap_us: u32) -> (r: Result<
    SampleTiming,
    EstimatorError,
>)
    ensures
        r == spec_sample_timing(previous_us, timestamp_us, max_gap_us),
{
    match previous_us {
        None => Ok(SampleTiming::Prime),
        Some(previous) => {
            let elapsed_us = timestamp_us.wrapping_sub(previous);
            if elapsed_us == 0 || elapsed_us > i32::MAX as u32 {
                Err(EstimatorError::InvalidTimestamp)
            } else if elapsed_us > max_gap_us {
                Ok(SampleTiming::Prime)
            } else {
                Ok(SampleTiming::Ready { elapsed_us })
            }
        },
    }
}

/// Time keeps moving across a wrap of the 32-bit timebase: a sample shortly
/// after the wrap is ready with the true elapsed time.
pub proof fn lemma_timebase_wrap_is_forward(previous_us: u32, timestamp_us: u32, max_gap_us: u32)
    requires
        timestamp_us < previous_us,
        timestamp_us + 0x1_0000_0000 - previous_us <= max_gap_us,
        timestamp_us + 0x1_0000_0000 - previous_us <= i32::MAX,
    ensures
        spec_sample_timing(Some(previous_us), timestamp_us, max_gap_us) == Ok::<
            SampleTiming,
            EstimatorError,
        >(SampleTiming::Ready { elapsed_us: (timestamp_us + 0x1_0000_0000 - previous_us) as u32 }),
{
}

/// Set of faults found by one safety check.
#[derive(Debug, Clone, Copy, PartialEq, Eq, Structural)]
pub struct FaultSet(u16);

impl View for FaultSet {
    type V = u16;

    closed spec fn view(&self) -> u16 {
        self.0
    }
}

pub open spec fn fault_limit_config() -> u16 {
    0x1
}

pub open spec fn fault_sensor_invalid() -> u16 {
    0x2
}

pub open spec fn fault_estimate_not_ready() -> u16 {
    0x4
}

pub open spec fn fault_state_nonfinite() -> u16 {
    0x8
}

pub open spec fn fault_sample_timeout() -> u16 {
    0x10
}

pub open spec fn fault_theta_limit() -> u16 {
    0x20
}

pub open spec fn fault_phi_limit() -> u16 {
    0x40
}

pub open spec fn fault_theta_rate_limit() -> u16 {
    0x80
}

pub open spec fn fault_phi_rate_limit() -> u16 {
    0x100
}

impl FaultSet {
    pub fn none() -> (f: Self)
        ensures
            f@ == 0,
    {
        FaultSet(0)
    }

    pub fn limit_config() -> (f: Self)
        ensures
            f@ == fault_limit_config(),
    {
        FaultSet(0x1)
    }

    pub fn sensor_invalid() -> (f: Self)
        ensures
            f@ == fault_sensor_invalid(),
    {
        FaultSet(0x2)
    }

    pub fn estimate_not_ready() -> (f: Self)
        ensures
            f@ == fault_estimate_not_ready(),
    {
        FaultSet(0x4)
    }

    pub fn state_nonfinite() -> (f: Self)
        ensures
            f@ == fault_state_nonfinite(),
    {
        FaultSet(0x8)
    }

    pub fn sample_timeout() -> (f: Self)
        ensures
            f@ == fault_sample_timeout(),
    {
        FaultSet(0x10)
    }

    pub fn theta_limit() -> (f: Self)
        ensures
            f@ == fault_theta_limit(),
    {
        FaultSet(0x20)
    }

    pub fn phi_limit() -> (f: Self)
        ensures
            f@ == fault_phi_limit(),
    {
        FaultSet(0x40)
    }

    pub fn theta_rate_limit() -> (f: Self)
        ensures
            f@ == fault_theta_rate_limit(),
    {
        FaultSet(0x80)
    }

    pub fn phi_rate_limit() -> (f: Self)
        ensures
            f@ == fault_phi_rate_limit(),
    {
        FaultSet(0x100)
    }

    pub fn bits(self) -> (b: u16)
        ensures
            b == self@,
    {
        self.0
    }

    pub fn is_empty(self) -> (b: bool)
        ensures
            b == (self@ == 0),
    {
        self.0 == 0
    }

    pub fn contains(self, other: Self) -> (b: bool)
        ensures
            b == has16(self@, other@),
    {
        self.0 & other.0 == other.0
    }

    fn with(self, other: Self) -> (r: Self)
        requires
            is_bit16(other@),
        ensures
            r@ == self@ | other@,
            r@ != 0,
            forall|g: u16| is_bit16(g) ==> #[trigger] has16(r@, g) == (has16(self@, g) || other@ == g),
            self@ & !0x1ffu16 == 0 && other@ <= 0x100 ==> r@ & !0x1ffu16 == 0,
    {
        proof {
            lemma_with16(self@, other@);
            let (x, f) = (self@, other@);
            assert(x & !0x1ffu16 == 0 && is_bit16(f) && f <= 0x100 ==> (x | f)
                & !0x1ffu16 == 0) by (bit_vector);
        }
        FaultSet(self.0 | other.0)
    }
}

#[derive(Debug, Clone, Copy, PartialEq, Eq, Structural)]
pub struct SafetyDecision {
    pub allowed: bool,
    pub faults: FaultSet,
}

/// What the safety check reads of one estimated control state, judged against the
/// configured limits by the numeric layer.
#[derive(Debug, Clone, Copy, PartialEq, Eq, Structural)]
pub struct StateEvidence {
    pub finite: bool,
    pub theta_exceeds: bool,
    pub phi_exceeds: bool,
    pub theta_dot_exceeds: bool,
    pub phi_dot_exceeds: bool,
}

/// What the safety check reads of the safety limits.
#[derive(Debug, Clone, Copy, PartialEq, Eq, Structural)]
pub struct LimitEvidence {
    /// Every configured angle/rate limit is finite and positive.
    pub valid: bool,
    pub max_sample_age_us: Option<u32>,
}

/// Some check failed.
pub open spec fn check_fails(
    state: Option<StateEvidence>,
    sensor_valid: bool,
    estimate_ready: bool,
    sample_age_us: u32,
    limits: LimitEvidence,
) -> bool {
    ||| !limits.valid
    ||| !sensor_valid
    ||| !estimate_ready
    ||| state is None
    ||| (limits.max_sample_age_us matches Some(m) && sample_age_us > m)
    ||| (state matches Some(s) && (!s.finite || s.theta_exceeds || s.phi_exceeds
        || s.theta_dot_exceeds || s.phi_dot_exceeds))
}

pub struct ControlSafety;

impl ControlSafety {
    /// Check one estimated state; every failed check contributes its fault,
    /// and limits are only judged on a finite state.
    pub fn check_evidence(
        state: Option<StateEvidence>,
        sensor_valid: bool,
        estimate_ready: bool,
        sample_age_us: u32,
        limits: LimitEvidence,
    ) -> (d: SafetyDecision)
        ensures
            has16(d.faults@, fault_limit_config()) == !limits.valid,
            has16(d.faults@, fault_sensor_invalid()) == !sensor_valid,
            has16(d.faults@, fault_estimate_not_ready()) == (!estimate_ready || state is None),
            has16(d.faults@, fault_sample_timeout()) == (limits.max_sample_age_us matches Some(m)
                && sample_age_us > m),
            has16(d.faults@, fault_state_nonfinite()) == (state matches Some(s) && !s.finite),
            has16(d.faults@, fault_theta_limit()) == (state matches Some(s) && s.finite
                && s.theta_exceeds),
            has16(d.faults@, fault_phi_limit()) == (state matches Some(s) && s.finite
                && s.phi_exceeds),
            has16(d.faults@, fault_theta_rate_limit()) == (state matches Some(s) && s.finite
                && s.theta_dot_exceeds),
            has16(d.faults@, fault_phi_rate_limit()) == (state matches Some(s) && s.finite
                && s.phi_dot_exceeds),
            (d.faults@ == 0) == !check_fails(
                state,
                sensor_valid,
                estimate_ready,
                sample_age_us,
                limits,
            ),
            d.faults@ & !0x1ffu16 == 0,
            d.allowed == (d.faults@ == 0),
    {
        let mut faults = FaultSet::none();
        proof {
            lemma_with16(0, 1);
            assert(0u16 & !0x1ffu16 == 0) by (bit_vector);
        }
        if !limits.valid {
            faults = faults.with(FaultSet::limit_config());
        }
        if !sensor_valid {
            faults = faults.with(FaultSet::sensor_invalid());
        }
        if !estimate_ready || state.is_none() {
            faults = faults.with(FaultSet::estimate_not_ready());
        }
        if let Some(max_age) = limits.max_sample_age_us {
            if sample_age_us > max_age {
                faults = faults.with(FaultSet::sample_timeout());
            }
        }
        if let Some(s) = state {
            if !s.finite {
                faults = faults.with(FaultSet::state_nonfinite());
            } else {
                if s.theta_exceeds {
                    faults = faults.with(FaultSet::theta_limit());
                }
                if s.phi_exceeds {
                    faults = faults.with(FaultSet::phi_limit());
                }
                if s.theta_dot_exceeds {
                    faults = faults.with(FaultSet::theta_rate_limit());
                }
                if s.phi_dot_exceeds {
                    faults = faults.with(FaultSet::phi_rate_limit());
                }
            }
        }
        SafetyDecision { allowed: faults.is_empty(), faults }
    }
}

} // verus!
