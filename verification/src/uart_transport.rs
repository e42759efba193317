//! Non-blocking UART telemetry transport: one pending packet drained byte by
//! byte in bounded background service calls.
use vstd::prelude::*;

use crate::telemetry::{TelemetryTransport, TelemetryTxOutcome, TELEMETRY_PACKET_LEN};

verus! {

/// Answer of a non-blocking single-byte UART write.
#[derive(Clone, Copy, Debug, PartialEq, Eq, Structural)]
pub enum ByteWrite {
    Written,
    WouldBlock,
    Failed,
}

/// Non-blocking single-byte transmitter.
pub trait ByteTx {
    fn write_byte(&mut self, byte: u8) -> ByteWrite;
}

/// `x + 1` wrapping at `u32::MAX`.
pub open spec fn wrap_inc(x: u32) -> u32 {
    if x == u32::MAX {
        0
    } else {
        (x + 1) as u32
    }
}

/// Bytes of `answers` that the UART accepted: every answer of one service
/// call but the last is `Written`, and a last answer that is not ends the call.
pub open spec fn accepted_count(answers: Seq<ByteWrite>) -> int {
    if answers.len() > 0 && !(answers.last() is Written) {
        answers.len() - 1
    } else {
        answers.len() as int
    }
}

pub struct UartTelemetryTransport<Tx> {
    tx: Tx,
    pending: [u8; TELEMETRY_PACKET_LEN],
    pending_len: usize,
    cursor: usize,
    tx_errors: u32,
    /// Every byte handed to the UART, oldest first.
    offered: Ghost<Seq<u8>>,
    /// The UART's answer to each of those bytes.
    answers: Ghost<Seq<ByteWrite>>,
}

impl<Tx: ByteTx> UartTelemetryTransport<Tx> {
    pub closed spec fn spec_pending(&self) -> Seq<u8> {
        self.pending@
    }

    pub closed spec fn spec_pending_len(&self) -> usize {
        self.pending_len
    }

    pub closed spec fn spec_cursor(&self) -> usize {
        self.cursor
    }

    pub closed spec fn spec_tx_errors(&self) -> u32 {
        self.tx_errors
    }

    /// Every byte handed to the UART so far, oldest first.
    pub closed spec fn spec_offered(&self) -> Seq<u8> {
        self.offered@
    }

    /// The UART's answer to each offered byte.
    pub closed spec fn spec_answers(&self) -> Seq<ByteWrite> {
        self.answers@
    }

    /// The answers the UART gave during the call that led from `old` to `self`.
    pub open spec fn new_answers(&self, old: &Self) -> Seq<ByteWrite> {
        self.spec_answers().subrange(old.spec_answers().len() as int, self.spec_answers().len() as int)
    }

    /// Either nothing is pending, or one whole packet is, partly sent.
    pub open spec fn wf(&self) -> bool {
        &&& self.spec_pending().len() == TELEMETRY_PACKET_LEN
        &&& (self.spec_pending_len() == 0 || self.spec_pending_len() == TELEMETRY_PACKET_LEN)
        &&& (self.spec_cursor() < self.spec_pending_len() || (self.spec_pending_len() == 0
            && self.spec_cursor() == 0))
    }

    pub fn new(tx: Tx) -> (t: Self)
        ensures
            t.wf(),
            t.spec_pending_len() == 0,
            t.spec_tx_errors() == 0,
            t.spec_offered() == Seq::<u8>::empty(),
            t.spec_answers() == Seq::<ByteWrite>::empty(),
            t.spec_tx() == tx,
    {
        UartTelemetryTransport {
            tx,
            pending: [0; TELEMETRY_PACKET_LEN],
            pending_len: 0,
            cursor: 0,
            tx_errors: 0,
            offered: Ghost(Seq::empty()),
            answers: Ghost(Seq::empty()),
        }
    }

    pub fn tx_errors(&self) -> (n: u32)
        ensures
            n == self.spec_tx_errors(),
    {
        self.tx_errors
    }

    /// Nothing is waiting to be sent.
    pub fn is_idle(&self) -> (b: bool)
        ensures
            b == (self.spec_pending_len() == 0),
    {
        self.pending_len == 0
    }

    /// Queue one whole packet if the previous one has drained.
    pub fn queue(&mut self, packet: &[u8]) -> (r: Result<TelemetryTxOutcome, ()>)
        ensures
            old(self).wf() ==> final(self).wf(),
            final(self).spec_tx_errors() == old(self).spec_tx_errors(),
            final(self).spec_offered() == old(self).spec_offered(),
            final(self).spec_answers() == old(self).spec_answers(),
            old(self).spec_pending_len() != 0 ==> r == Ok::<TelemetryTxOutcome, ()>(
                TelemetryTxOutcome::Busy,
            ) && final(self).spec_pending() == old(self).spec_pending()
                && final(self).spec_pending_len() == old(self).spec_pending_len()
                && final(self).spec_cursor() == old(self).spec_cursor(),
            old(self).spec_pending_len() == 0 && packet@.len() != TELEMETRY_PACKET_LEN ==> r
                == Err::<TelemetryTxOutcome, ()>(()) && final(self).spec_pending()
                == old(self).spec_pending() && final(self).spec_pending_len() == 0
                && final(self).spec_cursor() == old(self).spec_cursor(),
            old(self).spec_pending_len() == 0 && packet@.len() == TELEMETRY_PACKET_LEN ==> r
                == Ok::<TelemetryTxOutcome, ()>(TelemetryTxOutcome::Sent)
                && final(self).spec_pending() == packet@ && final(self).spec_pending_len()
                == TELEMETRY_PACKET_LEN && final(self).spec_cursor() == 0,
    {
        if self.pending_len != 0 {
            return Ok(TelemetryTxOutcome::Busy);
        }
        if packet.len() != TELEMETRY_PACKET_LEN {
            return Err(());
        }
        let mut i: usize = 0;
        while i < TELEMETRY_PACKET_LEN
            invariant
                i <= TELEMETRY_PACKET_LEN,
                packet@.len() == TELEMETRY_PACKET_LEN,
                self.pending@.len() == TELEMETRY_PACKET_LEN,
                forall|j: int| 0 <= j < i ==> self.pending@[j] == packet@[j],
                self.pending_len == 0,
                self.cursor == old(self).cursor,
                self.tx_errors == old(self).tx_errors,
                self.offered == old(self).offered,
                self.answers == old(self).answers,
            decreases TELEMETRY_PACKET_LEN - i,
        {
            self.pending[i] = packet[i];
            i = i + 1;
        }
        assert(self.pending@ =~= packet@);
        self.cursor = 0;
        self.pending_len = packet.len();
        Ok(TelemetryTxOutcome::Sent)
    }

    /// Send up to `max_bytes` pending bytes, in order from the cursor. Sending
    /// stops early when the UART would block; a write error drops the rest of
    /// the packet and is counted. A fully sent or dropped packet frees the
    /// transport.
    pub fn service(&mut self, max_bytes: usize)
        requires
            old(self).wf(),
        ensures
            final(self).wf(),
            final(self).spec_pending() == old(self).spec_pending(),
            ({
                let o = *old(self);
                let f = *final(self);
                let a = f.new_answers(&o);
                let sent = accepted_count(a);
                let stopped = a.len() > 0 && !(a.last() is Written);
                &&& f.spec_answers().len() >= o.spec_answers().len()
                &&& f.spec_answers().subrange(0, o.spec_answers().len() as int) == o.spec_answers()
                &&& forall|i: int| 0 <= i < sent ==> #[trigger] a[i] is Written
                &&& a.len() <= max_bytes
                &&& f.spec_offered() == o.spec_offered() + o.spec_pending().subrange(
                    o.spec_cursor() as int,
                    o.spec_cursor() + a.len(),
                )
                &&& stopped || sent == max_bytes || o.spec_cursor() + sent == o.spec_pending_len()
                &&& if stopped && a.last() is Failed {
                    &&& f.spec_pending_len() == 0
                    &&& f.spec_cursor() == 0
                    &&& f.spec_tx_errors() == wrap_inc(o.spec_tx_errors())
                } else {
                    &&& f.spec_tx_errors() == o.spec_tx_errors()
                    &&& if o.spec_cursor() + sent == o.spec_pending_len() {
                        f.spec_pending_len() == 0 && f.spec_cursor() == 0
                    } else {
                        f.spec_pending_len() == o.spec_pending_len() && f.spec_cursor()
                            == o.spec_cursor() + sent
                    }
                }
            }),
    {
        let ghost offered0 = self.offered@;
        let ghost answers0 = self.answers@;
        let ghost mut calls: Seq<ByteWrite> = Seq::empty();
        let mut serviced: usize = 0;
        let mut outcome = ByteWrite::Written;
        while matches!(outcome, ByteWrite::Written) && self.cursor < self.pending_len && serviced
            < max_bytes
            invariant
                self.pending@ == old(self).pending@,
                self.pending_len == old(self).pending_len,
                old(self).wf(),
                offered0 == old(self).offered@,
                answers0 == old(self).answers@,
                old(self).cursor <= self.cursor <= self.pending_len,
                serviced <= max_bytes,
                old(self).cursor + serviced <= old(self).pending_len,
                !(outcome is Written) ==> serviced < max_bytes,
                !(outcome is Failed) ==> self.cursor == old(self).cursor + serviced
                    && self.tx_errors == old(self).tx_errors,
                outcome is Failed ==> self.cursor == self.pending_len && self.tx_errors
                    == wrap_inc(old(self).tx_errors) && self.pending_len != 0,
                calls.len() == serviced + (if outcome is Written {
                    0int
                } else {
                    1int
                }),
                forall|i: int| 0 <= i < serviced ==> #[trigger] calls[i] is Written,
                !(outcome is Written) ==> calls.last() == outcome,
                old(self).cursor + calls.len() <= old(self).pending_len,
                self.answers@ == answers0 + calls,
                self.offered@ == offered0 + old(self).pending@.subrange(
                    old(self).cursor as int,
                    old(self).cursor + calls.len(),
                ),
            decreases max_bytes - serviced + (if outcome is Written {
                1int
            } else {
                0int
            }),
        {
            let byte = self.pending[self.cursor];
            outcome = self.tx.write_byte(byte);
            proof {
                assert(old(self).pending@.subrange(old(self).cursor as int, old(self).cursor
                    + calls.len() + 1) =~= old(self).pending@.subrange(
                    old(self).cursor as int,
                    old(self).cursor + calls.len(),
                ).push(byte));
                assert(answers0 + calls.push(outcome) =~= (answers0 + calls).push(outcome));
                assert(offered0 + old(self).pending@.subrange(
                    old(self).cursor as int,
                    old(self).cursor + calls.len(),
                ).push(byte) =~= (offered0 + old(self).pending@.subrange(
                    old(self).cursor as int,
                    old(self).cursor + calls.len(),
                )).push(byte));
            }
            self.offered = Ghost(self.offered@.push(byte));
            self.answers = Ghost(self.answers@.push(outcome));
            proof {
                calls = calls.push(outcome);
            }
            match outcome {
                ByteWrite::Written => {
                    self.cursor = self.cursor + 1;
                    serviced = serviced + 1;
                },
                ByteWrite::WouldBlock => {},
                ByteWrite::Failed => {
                    self.tx_errors = self.tx_errors.wrapping_add(1);
                    self.cursor = self.pending_len;
                },
            }
        }
        proof {
            assert(self.answers@.subrange(answers0.len() as int, self.answers@.len() as int)
                =~= calls);
            assert(self.answers@.subrange(0, answers0.len() as int) =~= answers0);
        }
        if self.cursor >= self.pending_len {
            self.cursor = 0;
            self.pending_len = 0;
        }
    }

    pub closed spec fn spec_tx(&self) -> Tx {
        self.tx
    }

    pub fn into_inner(self) -> (tx: Tx)
        ensures
            tx == self.spec_tx(),
    {
        self.tx
    }
}

impl<Tx: ByteTx> TelemetryTransport for UartTelemetryTransport<Tx> {
    type Error = ();

    /// Queue one whole packet; see `queue`.
    fn try_send(&mut self, packet: &[u8]) -> (r: Result<TelemetryTxOutcome, Self::Error>)
        ensures
            old(self).wf() ==> final(self).wf(),
            final(self).spec_tx_errors() == old(self).spec_tx_errors(),
            final(self).spec_offered() == old(self).spec_offered(),
            final(self).spec_answers() == old(self).spec_answers(),
            old(self).spec_pending_len() != 0 ==> r == Ok::<TelemetryTxOutcome, ()>(
                TelemetryTxOutcome::Busy,
            ) && final(self).spec_pending() == old(self).spec_pending()
                && final(self).spec_pending_len() == old(self).spec_pending_len()
                && final(self).spec_cursor() == old(self).spec_cursor(),
            old(self).spec_pending_len() == 0 && packet@.len() != TELEMETRY_PACKET_LEN ==> r
                == Err::<TelemetryTxOutcome, ()>(()) && final(self).spec_pending()
                == old(self).spec_pending() && final(self).spec_pending_len() == 0
                && final(self).spec_cursor() == old(self).spec_cursor(),
            old(self).spec_pending_len() == 0 && packet@.len() == TELEMETRY_PACKET_LEN ==> r
                == Ok::<TelemetryTxOutcome, ()>(TelemetryTxOutcome::Sent)
                && final(self).spec_pending() == packet@ && final(self).spec_pending_len()
                == TELEMETRY_PACKET_LEN && final(self).spec_cursor() == 0,
    {
        self.queue(packet)
    }
}

} // verus!
