//! Rotary-arm encoder counter accumulation and raw observation.
use vstd::prelude::*;

use crate::plant_observation::{MeasurementQuality, RawArmEncoderObservation};
use crate::robot_domain::TimestampUs;

verus! {

/// Signed distance moved by a wrapping 16-bit counter from `previous` to
/// `counter`, read as the shortest step in `[-32768, 32767]`.
pub open spec fn counter_delta(counter: u16, previous: u16) -> int {
    let d = if counter >= previous {
        counter - previous
    } else {
        counter - previous + 65536
    };
    if d >= 32768 {
        d - 65536
    } else {
        d
    }
}

/// `a + b` clamped to the `i32` range.
pub open spec fn saturating_add_i32(a: int, b: int) -> i32 {
    if a + b > i32::MAX {
        i32::MAX
    } else if a + b < i32::MIN {
        i32::MIN
    } else {
        (a + b) as i32
    }
}

/// The signed 16-bit step from `previous` to `counter`.
pub fn wrapping_counter_delta(counter: u16, previous: u16) -> (d: i32)
    ensures
        d == counter_delta(counter, previous),
        -32768 <= d <= 32767,
{
    let raw: u16 = counter.wrapping_sub(previous);
    if raw >= 32768 {
        raw as i32 - 65536
    } else {
        raw as i32
    }
}

/// `a + b`, saturating at the `i32` bounds.
pub fn saturating_add(a: i32, b: i32) -> (s: i32)
    ensures
        s == saturating_add_i32(a as int, b as int),
{
    let wide: i64 = a as i64 + b as i64;
    if wide > i32::MAX as i64 {
        i32::MAX
    } else if wide < i32::MIN as i64 {
        i32::MIN
    } else {
        wide as i32
    }
}

/// Extends the wrapping STM32 timer counter into the Plant observation's
/// accumulated encoder-count semantic.
#[derive(Debug, Clone, Copy, PartialEq, Eq, Structural)]
pub struct EncoderCounterAccumulator {
    previous_counter: u16,
    accumulated_count: i32,
}

impl EncoderCounterAccumulator {
    pub closed spec fn spec_previous_counter(self) -> u16 {
        self.previous_counter
    }

    pub closed spec fn spec_accumulated_count(self) -> i32 {
        self.accumulated_count
    }

    pub fn new(initial_counter: u16) -> (a: Self)
        ensures
            a.spec_previous_counter() == initial_counter,
            a.spec_accumulated_count() == 0,
    {
        EncoderCounterAccumulator { previous_counter: initial_counter, accumulated_count: 0 }
    }

    /// Fold one counter reading into the accumulated count.
    pub fn update(&mut self, counter: u16) -> (count: i32)
        ensures
            count == final(self).spec_accumulated_count(),
            count == saturating_add_i32(
                old(self).spec_accumulated_count() as int,
                counter_delta(counter, old(self).spec_previous_counter()),
            ),
            final(self).spec_previous_counter() == counter,
    {
        let delta = wrapping_counter_delta(counter, self.previous_counter);
        self.previous_counter = counter;
        self.accumulated_count = saturating_add(self.accumulated_count, delta);
        self.accumulated_count
    }

    pub fn accumulated_count(self) -> (c: i32)
        ensures
            c == self.spec_accumulated_count(),
    {
        self.accumulated_count
    }

    /// Fold one counter reading and package it as a raw encoder observation.
    pub fn observation(
        &mut self,
        counter: u16,
        captured_at: TimestampUs,
        quality: MeasurementQuality,
    ) -> (o: RawArmEncoderObservation)
        ensures
            o.captured_at == captured_at,
            o.quality == quality,
            o.accumulated_count == final(self).spec_accumulated_count(),
            o.accumulated_count == saturating_add_i32(
                old(self).spec_accumulated_count() as int,
                counter_delta(counter, old(self).spec_previous_counter()),
            ),
            final(self).spec_previous_counter() == counter,
    {
        RawArmEncoderObservation { captured_at, accumulated_count: self.update(counter), quality }
    }
}

/// Away from saturation, the accumulated count is the start count plus the
/// shortest signed step, so a forward wrap of the 16-bit counter counts
/// forward and a reverse wrap counts backward.
pub proof fn lemma_counter_wrap_is_continuous(counter: u16, previous: u16)
    ensures
        counter >= previous && counter - previous < 32768 ==> counter_delta(counter, previous)
            == counter - previous,
        counter < previous && previous - counter > 32768 ==> counter_delta(counter, previous)
            == counter + 65536 - previous,
        counter > previous && counter - previous > 32768 ==> counter_delta(counter, previous)
            == counter - previous - 65536,
        counter <= previous && previous - counter <= 32768 ==> counter_delta(counter, previous)
            == counter - previous,
{
}

} // verus!
