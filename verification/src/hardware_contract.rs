//! Hardware-facing traits that carry no floating-point payload.
use vstd::prelude::*;

verus! {

pub trait BusVoltageSensor {
    type Error;

    fn millivolts(&mut self) -> Result<u32, Self::Error>;
}

pub trait MonotonicClock {
    fn now_micros(&self) -> u32;
}

pub trait TelemetrySink {
    fn write(&mut self, bytes: &[u8]);
}

} // verus!
