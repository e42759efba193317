//! Raw plant observation semantics populated by the firmware acquisition path.
use vstd::prelude::*;

use core::ops::{BitOr, BitOrAssign};
use vstd::std_specs::ops::{BitOrSpec, BitOrSpecImpl};

use crate::flags::has8;
use crate::robot_domain::TimestampUs;

verus! {

/// Quality evidence attached to one raw plant observation.
#[derive(Clone, Copy, Debug, PartialEq, Eq, Structural)]
pub struct MeasurementQuality(u8);

impl View for MeasurementQuality {
    type V = u8;

    closed spec fn view(&self) -> u8 {
        self.0
    }
}

pub open spec fn quality_available() -> u8 {
    0x1
}

pub open spec fn quality_io_ok() -> u8 {
    0x2
}

pub open spec fn quality_timing_valid() -> u8 {
    0x4
}

pub open spec fn quality_stale() -> u8 {
    0x8
}

impl Default for MeasurementQuality {
    fn default() -> (q: Self)
        ensures
            q@ == 0,
    {
        MeasurementQuality(0)
    }
}

impl MeasurementQuality {
    pub fn none() -> (q: Self)
        ensures
            q@ == 0,
    {
        MeasurementQuality(0)
    }

    pub fn available() -> (q: Self)
        ensures
            q@ == quality_available(),
    {
        MeasurementQuality(0x1)
    }

    pub fn io_ok() -> (q: Self)
        ensures
            q@ == quality_io_ok(),
    {
        MeasurementQuality(0x2)
    }

    pub fn timing_valid() -> (q: Self)
        ensures
            q@ == quality_timing_valid(),
    {
        MeasurementQuality(0x4)
    }

    pub fn stale() -> (q: Self)
        ensures
            q@ == quality_stale(),
    {
        MeasurementQuality(0x8)
    }

    pub fn bits(self) -> (b: u8)
        ensures
            b == self@,
    {
        self.0
    }

    pub fn contains(self, flag: Self) -> (b: bool)
        ensures
            b == has8(self@, flag@),
    {
        self.0 & flag.0 == flag.0
    }
}

impl BitOr for MeasurementQuality {
    type Output = Self;

    fn bitor(self, rhs: Self) -> (q: Self::Output) {
        MeasurementQuality(self.0 | rhs.0)
    }
}

impl BitOrSpecImpl for MeasurementQuality {
    open spec fn obeys_bitor_spec() -> bool {
        true
    }

    open spec fn bitor_req(self, rhs: Self) -> bool {
        true
    }

    closed spec fn bitor_spec(self, rhs: Self) -> Self {
        MeasurementQuality(self@ | rhs@)
    }
}

/// `a | b` holds exactly the flags of `a` and of `b`.
pub broadcast proof fn lemma_bitor_view(a: MeasurementQuality, b: MeasurementQuality)
    ensures
        (#[trigger] BitOrSpec::bitor_spec(a, b))@ == a@ | b@,
{
}

impl BitOrAssign for MeasurementQuality {
    fn bitor_assign(&mut self, rhs: Self)
        ensures
            final(self)@ == old(self)@ | rhs@,
    {
        self.0 = self.0 | rhs.0;
    }
}

/// Raw conductive-plastic pendulum-sensor observation.
#[derive(Clone, Copy, Debug, PartialEq, Eq, Structural)]
pub struct RawPendulumObservation {
    pub captured_at: TimestampUs,
    pub adc_raw: u16,
    pub quality: MeasurementQuality,
}

/// Raw accumulated rotary-arm encoder observation.
#[derive(Clone, Copy, Debug, PartialEq, Eq, Structural)]
pub struct RawArmEncoderObservation {
    pub captured_at: TimestampUs,
    pub accumulated_count: i32,
    pub quality: MeasurementQuality,
}

/// One raw observation batch populated by the Firmware acquisition path.
#[derive(Clone, Copy, Debug, PartialEq, Eq, Structural)]
pub struct RawObservation {
    pub sample_index: u32,
    pub pendulum: RawPendulumObservation,
    pub arm_encoder: RawArmEncoderObservation,
}

} // verus!
