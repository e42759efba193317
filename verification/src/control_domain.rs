//! Control-domain vocabulary and the structural safety evaluation.
//!
//! Limit comparisons on the floating-point control state are made by the
//! numeric layer; the fault set that follows from them is decided here.
use vstd::prelude::*;

use crate::flags::{has32, is_bit32, lemma_with32};

verus! {

#[derive(Debug, Clone, Copy, PartialEq, Eq, Structural)]
pub enum ControlMode {
    Disabled,
    Idle,
    SwingUp,
    Capture,
    Balance,
    Fault,
}

#[derive(Debug, Clone, Copy, PartialEq, Eq, Structural)]
pub enum EffortError {
    NonFinite,
    OutOfRange,
}

#[derive(Debug, Clone, Copy, PartialEq, Eq, Structural)]
pub enum MotorDirection {
    Stopped,
    Left,
    Right,
}

#[derive(Debug, Clone, Copy, PartialEq, Eq, Structural)]
pub enum LqrConfigError {
    NonFiniteGain,
    InvalidOutputLimit,
}

#[derive(Debug, Clone, Copy, PartialEq, Eq, Structural)]
pub enum LqrError {
    InvalidState,
    Numeric,
}

#[derive(Debug, Clone, Copy, PartialEq, Eq, Structural)]
pub enum EstimatorError {
    InvalidConfig,
    NonFiniteSample,
    InvalidTimestamp,
}

/// How one estimator sample on the wrapping 32-bit microsecond timebase
/// relates to the derivative history.
#[derive(Debug, Clone, Copy, PartialEq, Eq, Structural)]
pub enum SampleTiming {
    /// No history yet, or the gap exceeds the maximum: the sample becomes the
    /// new baseline.
    Prime,
    /// A fresh sample, this many microseconds after the previous one.
    Ready { elapsed_us: u32 },
}

/// `timestamp - previous` on the wrapping 32-bit timebase.
pub open spec fn wrapped_elapsed(timestamp_us: u32, previous_us: u32) -> int {
    if timestamp_us >= previous_us {
        timestamp_us - previous_us
    } else {
        timestamp_us - previous_us + 0x1_0000_0000
    }
}

/// Timing verdict of a sample at `timestamp_us` after `previous_us`: an
/// elapsed time of zero or of more than half the timebase is refused as a
/// timestamp that did not move forward.
pub open spec fn spec_sample_timing(
    previous_us: Option<u32>,
    timestamp_us: u32,
    max_gap_us: u32,
) -> Result<SampleTiming, EstimatorError> {
    match previous_us {
        None => Ok(SampleTiming::Prime),
        Some(p) => {
            let elapsed = wrapped_elapsed(timestamp_us, p);
            if elapsed == 0 || elapsed > i32::MAX {
                Err(EstimatorError::InvalidTimestamp)
            } else if elapsed > max_gap_us {
                Ok(SampleTiming::Prime)
            } else {
                Ok(SampleTiming::Ready { elapsed_us: elapsed as u32 })
            }
        },
    }
}

/// Classify one sample against the timestamp of the previous accepted one.
pub fn sample_timing(previous_us: Option<u32>, timestamp_us: u32, max_gap_us: u32) -> (r: Result<
    SampleTiming,
    EstimatorError,
>)
    ensures
        r == spec_sample_timing(previous_us, timestamp_us, max_gap_us),
{
    match previous_us {
        None => Ok(SampleTiming::Prime),
        Some(previous) => {
            let elapsed_us = timestamp_us.wrapping_sub(previous);
            if elapsed_us == 0 || elapsed_us > i32::MAX as u32 {
                Err(EstimatorError::InvalidTimestamp)
            } else if elapsed_us > max_gap_us {
                Ok(SampleTiming::Prime)
            } else {
                Ok(SampleTiming::Ready { elapsed_us })
            }
        },
    }
}

/// Time keeps moving across a wrap of the 32-bit timebase: a sample shortly
/// after the wrap is ready with the true elapsed time.
pub proof fn lemma_timebase_wrap_is_forward(previous_us: u32, timestamp_us: u32, max_gap_us: u32)
    requires
        timestamp_us < previous_us,
        timestamp_us + 0x1_0000_0000 - previous_us <= max_gap_us,
        timestamp_us + 0x1_0000_0000 - previous_us <= i32::MAX,
    ensures
        spec_sample_timing(Some(previous_us), timestamp_us, max_gap_us) == Ok::<
            SampleTiming,
            EstimatorError,
        >(SampleTiming::Ready { elapsed_us: (timestamp_us + 0x1_0000_0000 - previous_us) as u32 }),
{
}

/// Maps a normalized effort onto the motor: the floating-point duty is
/// scaled by the numeric layer, the direction is decided here.
pub struct ActuatorMapper;

impl ActuatorMapper {
    /// Motor direction of a normalized effort: positive turns right, negative
    /// turns left, zero (or an effort that is neither) stops.
    pub fn direction_for_effort(positive: bool, negative: bool) -> (d: MotorDirection)
        requires
            !(positive && negative),
        ensures
            d == if positive {
                MotorDirection::Right
            } else if negative {
                MotorDirection::Left
            } else {
                MotorDirection::Stopped
            },
    {
        if positive {
            MotorDirection::Right
        } else if negative {
            MotorDirection::Left
        } else {
            MotorDirection::Stopped
        }
    }
}

/// Set of structural faults found by one safety evaluation.
#[derive(Debug, Clone, Copy, PartialEq, Eq, Structural)]
pub struct FaultSet(u32);

impl View for FaultSet {
    type V = u32;

    closed spec fn view(&self) -> u32 {
        self.0
    }
}

pub open spec fn fault_config() -> u32 {
    0x2
}

pub open spec fn fault_sensor_invalid() -> u32 {
    0x4
}

pub open spec fn fault_estimate_not_ready() -> u32 {
    0x8
}

pub open spec fn fault_state_nonfinite() -> u32 {
    0x10
}

pub open spec fn fault_timestamp() -> u32 {
    0x20
}

pub open spec fn fault_sample_timeout() -> u32 {
    0x40
}

pub open spec fn fault_pendulum_limit() -> u32 {
    0x80
}

pub open spec fn fault_arm_limit() -> u32 {
    0x100
}

pub open spec fn fault_pendulum_rate_limit() -> u32 {
    0x200
}

pub open spec fn fault_arm_rate_limit() -> u32 {
    0x400
}

impl FaultSet {
    pub fn none() -> (f: Self)
        ensures
            f@ == 0,
    {
        FaultSet(0)
    }

    pub fn config() -> (f: Self)
        ensures
            f@ == fault_config(),
    {
        FaultSet(0x2)
    }

    pub fn sensor_invalid() -> (f: Self)
        ensures
            f@ == fault_sensor_invalid(),
    {
        FaultSet(0x4)
    }

    pub fn estimate_not_ready() -> (f: Self)
        ensures
            f@ == fault_estimate_not_ready(),
    {
        FaultSet(0x8)
    }

    pub fn state_nonfinite() -> (f: Self)
        ensures
            f@ == fault_state_nonfinite(),
    {
        FaultSet(0x10)
    }

    pub fn timestamp() -> (f: Self)
        ensures
            f@ == fault_timestamp(),
    {
        FaultSet(0x20)
    }

    pub fn sample_timeout() -> (f: Self)
        ensures
            f@ == fault_sample_timeout(),
    {
        FaultSet(0x40)
    }

    pub fn pendulum_limit() -> (f: Self)
        ensures
            f@ == fault_pendulum_limit(),
    {
        FaultSet(0x80)
    }

    pub fn arm_limit() -> (f: Self)
        ensures
            f@ == fault_arm_limit(),
    {
        FaultSet(0x100)
    }

    pub fn pendulum_rate_limit() -> (f: Self)
        ensures
            f@ == fault_pendulum_rate_limit(),
    {
        FaultSet(0x200)
    }

    pub fn arm_rate_limit() -> (f: Self)
        ensures
            f@ == fault_arm_rate_limit(),
    {
        FaultSet(0x400)
    }

    pub fn bits(self) -> (b: u32)
        ensures
            b == self@,
    {
        self.0
    }

    pub fn is_empty(self) -> (b: bool)
        ensures
            b == (self@ == 0),
    {
        self.0 == 0
    }

    pub fn contains(self, other: Self) -> (b: bool)
        ensures
            b == has32(self@, other@),
    {
        (self.0 & other.0) == other.0
    }

    fn insert(&mut self, other: Self)
        requires
            is_bit32(other@),
        ensures
            final(self)@ == old(self)@ | other@,
            final(self)@ != 0,
            forall|g: u32|
                is_bit32(g) ==> #[trigger] has32(final(self)@, g) == (has32(old(self)@, g) || other@
                    == g),
            old(self)@ & !0x7feu32 == 0 && 2 <= other@ <= 0x400
                ==> final(self)@ & !0x7feu32 == 0,
    {
        proof {
            lemma_with32(self.0, other.0);
            let (x, f) = (self.0, other.0);
            assert(x & !0x7feu32 == 0 && is_bit32(f) && 2 <= f <= 0x400 ==> (x | f)
                & !0x7feu32 == 0) by (bit_vector);
        }
        self.0 = self.0 | other.0;
    }
}

#[derive(Debug, Clone, Copy, PartialEq, Eq, Structural)]
pub struct SafetyDecision {
    pub faults: FaultSet,
}

impl SafetyDecision {
    pub fn control_allowed(self) -> (b: bool)
        ensures
            b == (self.faults@ == 0),
    {
        self.faults.is_empty()
    }
}

/// What the structural safety evaluation reads of one control state and its
/// limits, judged by the numeric layer.
#[derive(Debug, Clone, Copy, PartialEq, Eq, Structural)]
pub struct SafetyEvidence {
    /// Every configured angle/rate limit is finite and positive.
    pub limits_valid: bool,
    pub sensor_valid: bool,
    pub estimate_ready: bool,
    /// All four state components are finite.
    pub state_finite: bool,
    /// The state timestamp equals the sensor timestamp.
    pub timestamp_matches: bool,
    pub sample_age_us: u32,
    pub max_sample_age_us: Option<u32>,
    /// A finite pendulum angle exceeds its configured limit.
    pub pendulum_angle_exceeds: bool,
    /// A finite arm angle exceeds its configured limit.
    pub arm_angle_exceeds: bool,
    /// A finite pendulum rate exceeds its configured limit.
    pub pendulum_rate_exceeds: bool,
    /// A finite arm rate exceeds its configured limit.
    pub arm_rate_exceeds: bool,
}

/// The sample is older than a configured maximum age.
pub open spec fn too_old(e: SafetyEvidence) -> bool {
    e.max_sample_age_us matches Some(m) && e.sample_age_us > m
}

/// Some structural check failed.
pub open spec fn any_fault(e: SafetyEvidence) -> bool {
    ||| !e.limits_valid
    ||| !e.sensor_valid
    ||| !e.estimate_ready
    ||| !e.state_finite
    ||| !e.timestamp_matches
    ||| too_old(e)
    ||| e.pendulum_angle_exceeds
    ||| e.arm_angle_exceeds
    ||| e.pendulum_rate_exceeds
    ||| e.arm_rate_exceeds
}

/// Evaluate every structural check; each failed check contributes its fault,
/// and control is allowed only with no fault.
pub fn evaluate_evidence(e: SafetyEvidence) -> (d: SafetyDecision)
    ensures
        has32(d.faults@, fault_config()) == !e.limits_valid,
        has32(d.faults@, fault_sensor_invalid()) == !e.sensor_valid,
        has32(d.faults@, fault_estimate_not_ready()) == !e.estimate_ready,
        has32(d.faults@, fault_state_nonfinite()) == !e.state_finite,
        has32(d.faults@, fault_timestamp()) == !e.timestamp_matches,
        has32(d.faults@, fault_sample_timeout()) == too_old(e),
        has32(d.faults@, fault_pendulum_limit()) == e.pendulum_angle_exceeds,
        has32(d.faults@, fault_arm_limit()) == e.arm_angle_exceeds,
        has32(d.faults@, fault_pendulum_rate_limit()) == e.pendulum_rate_exceeds,
        has32(d.faults@, fault_arm_rate_limit()) == e.arm_rate_exceeds,
        d.faults@ & !0x7feu32 == 0,
        (d.faults@ == 0) == !any_fault(e),
{
    let mut faults = FaultSet::none();
    proof {
        lemma_with32(0, 1);
        assert(0u32 & !0x7feu32 == 0) by (bit_vector);
    }
    if !e.limits_valid {
        faults.insert(FaultSet::config());
    }
    if !e.sensor_valid {
        faults.insert(FaultSet::sensor_invalid());
    }
    if !e.estimate_ready {
        faults.insert(FaultSet::estimate_not_ready());
    }
    if !e.state_finite {
        faults.insert(FaultSet::state_nonfinite());
    }
    if !e.timestamp_matches {
        faults.insert(FaultSet::timestamp());
    }
    if let Some(max_age) = e.max_sample_age_us {
        if e.sample_age_us > max_age {
            faults.insert(FaultSet::sample_timeout());
        }
    }
    if e.pendulum_angle_exceeds {
        faults.insert(FaultSet::pendulum_limit());
    }
    if e.arm_angle_exceeds {
        faults.insert(FaultSet::arm_limit());
    }
    if e.pendulum_rate_exceeds {
        faults.insert(FaultSet::pendulum_rate_limit());
    }
    if e.arm_rate_exceeds {
        faults.insert(FaultSet::arm_rate_limit());
    }
    SafetyDecision { faults }
}

} // verus!
