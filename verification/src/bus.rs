//! The two collaborator ports of the driver: the two-wire bus and the
//! blocking delay.  Both are traits the caller implements; their contracts
//! are stated over a ghost log, so a verified caller knows exactly which
//! transactions a sequence of calls produced.

use vstd::prelude::*;

verus! {

/// One bus transaction, as recorded in a bus's ghost log.
pub enum Transaction {
    /// A plain write of `data` to the device at `addr`.
    Write { addr: u8, data: Seq<u8> },
    /// A combined write-then-read without an intervening stop condition:
    /// `data` was written to the device at `addr`, then `resp` was read back.
    WriteRead { addr: u8, data: Seq<u8>, resp: Seq<u8> },
}

/// A bus handle.  `log` is the ghost history of completed transactions: a
/// successful call appends exactly one transaction, a failed call appends
/// none.  Nothing is promised of the bytes a read returns beyond their
/// count — the device on the other end decides them.
pub trait I2cBus: Sized {
    /// The transport's own failure type (arbitration loss, missing
    /// acknowledge, timeout, ... at the transport's discretion).
    type BusError;

    /// The history of completed transactions on this handle.
    spec fn log(&self) -> Seq<Transaction>;

    /// Write `data` to the device at `addr`, then read `read_len` bytes
    /// back without releasing the bus in between.
    fn write_read(&mut self, addr: u8, data: Vec<u8>, read_len: usize) -> (r: Result<
        Vec<u8>,
        Self::BusError,
    >)
        ensures
            match r {
                Ok(resp) => {
                    &&& resp@.len() == read_len
                    &&& final(self).log() == old(self).log().push(
                        Transaction::WriteRead { addr, data: data@, resp: resp@ },
                    )
                },
                Err(_) => final(self).log() == old(self).log(),
            },
    ;

    /// Write `data` to the device at `addr` as a single transaction.
    fn write(&mut self, addr: u8, data: Vec<u8>) -> (r: Result<(), Self::BusError>)
        ensures
            match r {
                Ok(_) => final(self).log() == old(self).log().push(
                    Transaction::Write { addr, data: data@ },
                ),
                Err(_) => final(self).log() == old(self).log(),
            },
    ;
}

/// A blocking delay.  `delays` is the ghost history of pauses taken;
/// `delay_ms` blocks for the given number of milliseconds and appends it.
pub trait Delayer: Sized {
    /// The history of pauses taken on this handle, in milliseconds.
    spec fn delays(&self) -> Seq<u8>;

    /// Block for `ms` milliseconds.
    fn delay_ms(&mut self, ms: u8)
        ensures
            final(self).delays() == old(self).delays().push(ms),
    ;
}

} // verus!
