//! State-estimator vocabulary and sample-timing admission.
//!
//! Rates are floating-point finite differences; whether a measurement primes,
//! re-primes or extends the derivative history is decided here.
use vstd::prelude::*;

use crate::robot_domain::TimestampUs;

verus! {

#[derive(Debug, Clone, Copy, PartialEq, Eq, Structural)]
pub enum EstimatorError {
    InvalidConfig,
    NonFiniteMeasurement,
    InvalidTimestamp,
}

/// How one measurement relates to the derivative history.
#[derive(Debug, Clone, Copy, PartialEq, Eq, Structural)]
pub enum SampleTiming {
    /// No history yet: the measurement becomes the baseline.
    Prime,
    /// The gap since the previous measurement exceeds the maximum: the
    /// measurement becomes the new baseline instead of producing a rate.
    Reprime,
    /// A fresh measurement, this many microseconds after the previous one.
    Ready { elapsed_us: u64 },
}

/// Timing verdict of a measurement at `captured_at` after `previous`.
pub open spec fn spec_sample_timing(
    previous: Option<TimestampUs>,
    captured_at: TimestampUs,
    max_gap_us: u64,
) -> Result<SampleTiming, EstimatorError> {
    match previous {
        None => Ok(SampleTiming::Prime),
        Some(p) => if captured_at.0 <= p.0 {
            Err(EstimatorError::InvalidTimestamp)
        } else if captured_at.0 - p.0 > max_gap_us {
            Ok(SampleTiming::Reprime)
        } else {
            Ok(SampleTiming::Ready { elapsed_us: (captured_at.0 - p.0) as u64 })
        },
    }
}

/// Capture time of the last accepted measurement.
#[derive(Debug, Clone, Copy, PartialEq, Eq, Structural)]
pub struct SampleClock {
    previous: Option<TimestampUs>,
}

impl SampleClock {
    pub closed spec fn spec_previous(self) -> Option<TimestampUs> {
        self.previous
    }

    pub fn new() -> (c: Self)
        ensures
            c.spec_previous() is None,
    {
        SampleClock { previous: None }
    }

    /// Forget the history; the next measurement primes.
    pub fn reset(&mut self)
        ensures
            final(self).spec_previous() is None,
    {
        self.previous = None;
    }

    pub fn previous(&self) -> (p: Option<TimestampUs>)
        ensures
            p == self.spec_previous(),
    {
        self.previous
    }

    /// Admit one measurement: every accepted measurement (primed, re-primed or
    /// ready) becomes the history; a refused one leaves it untouched.
    pub fn observe(&mut self, captured_at: TimestampUs, max_gap_us: u64) -> (r: Result<
        SampleTiming,
        EstimatorError,
    >)
        ensures
            r == spec_sample_timing(old(self).spec_previous(), captured_at, max_gap_us),
            final(self).spec_previous() == if r is Ok {
                Some(captured_at)
            } else {
                old(self).spec_previous()
            },
    {
        let verdict = match self.previous {
            None => Ok(SampleTiming::Prime),
            Some(previous) => {
                if captured_at.0 <= previous.0 {
                    Err(EstimatorError::InvalidTimestamp)
                } else {
                    let elapsed_us = captured_at.0 - previous.0;
                    if elapsed_us > max_gap_us {
                        Ok(SampleTiming::Reprime)
                    } else {
                        Ok(SampleTiming::Ready { elapsed_us })
                    }
                }
            },
        };
        if verdict.is_ok() {
            self.previous = Some(captured_at);
        }
        verdict
    }
}

/// A timing gap causes exactly one re-prime: the gap sample becomes the new
/// baseline, and the next fresh sample within the maximum gap is ready again.
pub proof fn lemma_gap_reprimes_once_then_recovers(
    previous: TimestampUs,
    gap_sample: TimestampUs,
    next_sample: TimestampUs,
    max_gap_us: u64,
)
    requires
        gap_sample.0 > previous.0,
        gap_sample.0 - previous.0 > max_gap_us,
        next_sample.0 > gap_sample.0,
        next_sample.0 - gap_sample.0 <= max_gap_us,
    ensures
        spec_sample_timing(Some(previous), gap_sample, max_gap_us) == Ok::<
            SampleTiming,
            EstimatorError,
        >(SampleTiming::Reprime),
        spec_sample_timing(Some(gap_sample), next_sample, max_gap_us) == Ok::<
            SampleTiming,
            EstimatorError,
        >(SampleTiming::Ready { elapsed_us: (next_sample.0 - gap_sample.0) as u64 }),
{
}

/// A measurement that does not move time forward is refused.
pub proof fn lemma_backward_timestamp_is_refused(
    previous: TimestampUs,
    captured_at: TimestampUs,
    max_gap_us: u64,
)
    requires
        captured_at.0 <= previous.0,
    ensures
        spec_sample_timing(Some(previous), captured_at, max_gap_us) == Err::<
            SampleTiming,
            EstimatorError,
        >(EstimatorError::InvalidTimestamp),
{
}

} // verus!
