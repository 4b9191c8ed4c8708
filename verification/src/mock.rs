//! In-memory implementations of the two collaborator ports, for exercising
//! the driver without hardware: a bus that serves scripted read responses
//! and records every transaction, and a delay that records every pause.

use vstd::prelude::*;
use crate::bus::Delayer;
use crate::bus::I2cBus;
use crate::bus::Transaction;

verus! {

/// The failure the mock transport reports: the script ran out, a scripted
/// response had the wrong length, or writes were told to fail.
#[derive(Debug, Clone, Copy, PartialEq, Eq, Structural)]
pub struct MockBusError;

/// One transaction as the mock bus recorded it.
pub enum RecordedTxn {
    /// A plain write of `data` to the device at `addr`.
    Write { addr: u8, data: Vec<u8> },
    /// A combined write-then-read: `data` written, `resp` read back.
    WriteRead { addr: u8, data: Vec<u8>, resp: Vec<u8> },
}

impl View for RecordedTxn {
    type V = Transaction;

    open spec fn view(&self) -> Transaction {
        match self {
            RecordedTxn::Write { addr, data } => Transaction::Write { addr: *addr, data: data@ },
            RecordedTxn::WriteRead { addr, data, resp } => Transaction::WriteRead {
                addr: *addr,
                data: data@,
                resp: resp@,
            },
        }
    }
}

/// A scripted bus: each write-then-read serves the next scripted response,
/// failing when the script is exhausted or the next response has the wrong
/// length; plain writes succeed unless `fail_writes` is set.  Every
/// completed transaction is recorded.
pub struct MockBus {
    replies: Vec<Vec<u8>>,
    next: usize,
    /// How many plain writes will still succeed; once 0, writes fail and
    /// leave no trace.
    pub write_budget: usize,
    /// The transactions completed so far, oldest first.
    pub recorded: Vec<RecordedTxn>,
}

impl MockBus {
    /// A mock bus that will serve the given read responses in order.
    pub fn new(replies: Vec<Vec<u8>>) -> (r: MockBus)
        ensures
            r.log() == Seq::<Transaction>::empty(),
    {
        let r = MockBus { replies, next: 0, write_budget: usize::MAX, recorded: Vec::new() };
        proof {
            assert(r.recorded@.map(|i: int, t: RecordedTxn| t@) =~= Seq::<Transaction>::empty());
        }
        r
    }

    /// How many transactions completed on this bus.
    pub fn transaction_count(&self) -> (r: usize)
        ensures
            r == self.log().len(),
    {
        self.recorded.len()
    }
}

impl I2cBus for MockBus {
    type BusError = MockBusError;

    closed spec fn log(&self) -> Seq<Transaction> {
        self.recorded@.map(|i: int, t: RecordedTxn| t@)
    }

    fn write_read(&mut self, addr: u8, data: Vec<u8>, read_len: usize) -> (r: Result<
        Vec<u8>,
        MockBusError,
    >) {
        let ghost data_view = data@;
        if self.next >= self.replies.len() {
            return Err(MockBusError);
        }
        let resp = vstd::slice::slice_to_vec(self.replies[self.next].as_slice());
        if resp.len() != read_len {
            return Err(MockBusError);
        }
        self.next = self.next + 1;
        let kept = vstd::slice::slice_to_vec(resp.as_slice());
        self.recorded.push(RecordedTxn::WriteRead { addr, data, resp: kept });
        proof {
            assert(self.recorded@.map(|i: int, t: RecordedTxn| t@) =~= old(self).log().push(
                Transaction::WriteRead { addr, data: data_view, resp: resp@ },
            ));
        }
        Ok(resp)
    }

    fn write(&mut self, addr: u8, data: Vec<u8>) -> (r: Result<(), MockBusError>) {
        let ghost data_view = data@;
        if self.write_budget == 0 {
            return Err(MockBusError);
        }
        self.write_budget = self.write_budget - 1;
        self.recorded.push(RecordedTxn::Write { addr, data });
        proof {
            assert(self.recorded@.map(|i: int, t: RecordedTxn| t@) =~= old(self).log().push(
                Transaction::Write { addr, data: data_view },
            ));
        }
        Ok(())
    }
}

/// A delay that only records the pauses it was asked for.
pub struct MockDelay {
    /// The pauses taken so far, in milliseconds, oldest first.
    pub recorded: Vec<u8>,
}

impl MockDelay {
    /// A mock delay with an empty history.
    pub fn new() -> (r: MockDelay)
        ensures
            r.delays() == Seq::<u8>::empty(),
    {
        MockDelay { recorded: Vec::new() }
    }
}

impl Delayer for MockDelay {
    open spec fn delays(&self) -> Seq<u8> {
        self.recorded@
    }

    fn delay_ms(&mut self, ms: u8) {
        self.recorded.push(ms);
    }
}

} // verus!
