//! Write-only mode-0 software SPI used by the reference OLED wiring.
use vstd::prelude::*;

verus! {

/// Minimal infallible digital-output contract used by the write-only software
/// SPI transport. Concrete MCU GPIO errors are impossible on the STM32F103
/// push-pull outputs used by the reference board.
pub trait OutputLine {
    fn set_low(&mut self);

    fn set_high(&mut self);
}

/// Data level of bit `i` (0 = first clocked out) of a byte sent MSB first.
pub open spec fn msb_first_bit(value: u8, i: int) -> bool {
    (value >> ((7 - i) as u8)) & 1u8 == 1u8
}

/// One level driven onto one of the two bus lines.
#[derive(Clone, Copy, Debug, PartialEq, Eq, Structural)]
pub enum SpiEvent {
    Clock(bool),
    Data(bool),
}

/// The events of the first `n` bits of `value`, MSB first: for each bit the
/// clock goes low, the data line takes the bit, then the clock rises.
pub open spec fn bit_events(value: u8, n: nat) -> Seq<SpiEvent> {
    Seq::new(
        3 * n,
        |k: int|
            if k % 3 == 0 {
                SpiEvent::Clock(false)
            } else if k % 3 == 1 {
                SpiEvent::Data(msb_first_bit(value, k / 3))
            } else {
                SpiEvent::Clock(true)
            },
    )
}

/// The events of one byte: its eight bits, then the clock is left low.
pub open spec fn byte_events(value: u8) -> Seq<SpiEvent> {
    bit_events(value, 8).push(SpiEvent::Clock(false))
}

/// The events of a byte sequence, each byte in turn.
pub open spec fn bytes_events(bytes: Seq<u8>) -> Seq<SpiEvent>
    decreases bytes.len(),
{
    if bytes.len() == 0 {
        Seq::empty()
    } else {
        bytes_events(bytes.drop_last()) + byte_events(bytes.last())
    }
}

/// Calls `core::hint::spin_loop`, a processor hint inside a busy-wait. The
/// contract claims nothing: the hint has no observable effect on the library's
/// state, and it always returns.
#[verifier::external_body]
fn spin_loop_hint() {
    core::hint::spin_loop();
}

/// Write-only mode-0 software SPI used by the reference OLED wiring.
///
/// This bus owns only clock/data signaling. Display reset and D/C semantics stay
/// with the OLED device adapter.
pub struct SoftwareSpi<C, D> {
    clock: C,
    data: D,
    half_period_padding: u8,
    /// Every level this bus has driven onto either line, oldest first.
    events: Ghost<Seq<SpiEvent>>,
}

proof fn lemma_shift_msb(value: u8, shifted: u8, i: u8)
    by (bit_vector)
    requires
        i < 8,
        shifted == value << i,
    ensures
        (shifted & 0x80u8 != 0) == ((value >> ((7 - i) as u8)) & 1u8 == 1u8),
        ((shifted << 1u8) == (value << ((i + 1) as u8))),
{
}

impl<C: OutputLine, D: OutputLine> SoftwareSpi<C, D> {
    pub closed spec fn spec_clock(&self) -> C {
        self.clock
    }

    pub closed spec fn spec_data(&self) -> D {
        self.data
    }

    pub closed spec fn spec_half_period_padding(&self) -> u8 {
        self.half_period_padding
    }

    /// Every level this bus has driven onto either line, oldest first.
    pub closed spec fn spec_events(&self) -> Seq<SpiEvent> {
        self.events@
    }

    /// Take ownership of both lines and drive them low.
    pub fn new(clock: C, data: D, half_period_padding: u8) -> (spi: Self)
        ensures
            spi.spec_half_period_padding() == half_period_padding,
            spi.spec_events() == seq![SpiEvent::Clock(false), SpiEvent::Data(false)],
    {
        let mut clock = clock;
        let mut data = data;
        clock.set_low();
        data.set_low();
        SoftwareSpi {
            clock,
            data,
            half_period_padding,
            events: Ghost(Seq::empty().push(SpiEvent::Clock(false)).push(SpiEvent::Data(false))),
        }
    }

    fn drive_clock(&mut self, high: bool)
        ensures
            final(self).events@ == old(self).events@.push(SpiEvent::Clock(high)),
            final(self).half_period_padding == old(self).half_period_padding,
    {
        if high {
            self.clock.set_high();
        } else {
            self.clock.set_low();
        }
        self.events = Ghost(self.events@.push(SpiEvent::Clock(high)));
    }

    fn drive_data(&mut self, high: bool)
        ensures
            final(self).events@ == old(self).events@.push(SpiEvent::Data(high)),
            final(self).half_period_padding == old(self).half_period_padding,
    {
        if high {
            self.data.set_high();
        } else {
            self.data.set_low();
        }
        self.events = Ghost(self.events@.push(SpiEvent::Data(high)));
    }

    /// Clock one byte out MSB first (the data line follows `bit_levels`), data
    /// set up while the clock is low and sampled on the rising edge; the clock
    /// is left low.
    pub fn write_byte(&mut self, value: u8)
        ensures
            final(self).spec_half_period_padding() == old(self).spec_half_period_padding(),
            final(self).spec_events() == old(self).spec_events() + byte_events(value),
    {
        let levels = bit_levels(value);
        let ghost events0 = self.events@;
        let mut i: usize = 0;
        while i < 8
            invariant
                i <= 8,
                self.half_period_padding == old(self).half_period_padding,
                events0 == old(self).events@,
                forall|j: int| 0 <= j < 8 ==> #[trigger] levels@[j] == msb_first_bit(value, j),
                self.events@ == events0 + bit_events(value, i as nat),
            decreases 8 - i,
        {
            self.drive_clock(false);
            self.drive_data(levels[i]);
            self.pad();
            self.drive_clock(true);
            self.pad();
            proof {
                assert(bit_events(value, i as nat).push(SpiEvent::Clock(false)).push(
                    SpiEvent::Data(levels@[i as int]),
                ).push(SpiEvent::Clock(true)) =~= bit_events(value, (i + 1) as nat));
            }
            i = i + 1;
        }
        self.drive_clock(false);
    }

    /// Clock out every byte in order.
    pub fn write(&mut self, bytes: &[u8])
        ensures
            final(self).spec_half_period_padding() == old(self).spec_half_period_padding(),
            final(self).spec_events() == old(self).spec_events() + bytes_events(bytes@),
    {
        let ghost events0 = self.events@;
        let mut i: usize = 0;
        while i < bytes.len()
            invariant
                i <= bytes@.len(),
                self.half_period_padding == old(self).half_period_padding,
                events0 == old(self).events@,
                self.events@ == events0 + bytes_events(bytes@.subrange(0, i as int)),
            decreases bytes@.len() - i,
        {
            self.write_byte(bytes[i]);
            proof {
                let next = bytes@.subrange(0, i + 1);
                assert(next.drop_last() =~= bytes@.subrange(0, i as int));
                assert(next.last() == bytes@[i as int]);
                assert(bytes_events(next) == bytes_events(bytes@.subrange(0, i as int))
                    + byte_events(bytes@[i as int]));
                assert(events0 + bytes_events(bytes@.subrange(0, i as int)) + byte_events(
                    bytes@[i as int],
                ) =~= events0 + (bytes_events(bytes@.subrange(0, i as int)) + byte_events(
                    bytes@[i as int],
                )));
            }
            i = i + 1;
        }
        assert(bytes@.subrange(0, bytes@.len() as int) =~= bytes@);
    }

    pub fn into_inner(self) -> (parts: (C, D))
        ensures
            parts == (self.spec_clock(), self.spec_data()),
    {
        (self.clock, self.data)
    }

    fn pad(&self) {
        let mut n: u8 = 0;
        while n < self.half_period_padding
            decreases self.half_period_padding - n,
        {
            spin_loop_hint();
            n = n + 1;
        }
    }
}

/// The eight data-line levels of one byte, in the order they are clocked out
/// (most significant bit first).
pub fn bit_levels(value: u8) -> (levels: [bool; 8])
    ensures
        forall|i: int| 0 <= i < 8 ==> #[trigger] levels@[i] == msb_first_bit(value, i),
{
    let mut levels = [false; 8];
    let mut shifted: u8 = value;
    let mut i: u8 = 0;
    assert(value << 0u8 == value) by (bit_vector);
    while i < 8
        invariant
            i <= 8,
            shifted == value << i,
            forall|j: int| 0 <= j < i ==> #[trigger] levels@[j] == msb_first_bit(value, j),
        decreases 8 - i,
    {
        proof {
            lemma_shift_msb(value, shifted, i);
        }
        levels[i as usize] = shifted & 0x80 != 0;
        shifted = shifted << 1u8;
        i = i + 1;
    }
    levels
}

} // verus!
