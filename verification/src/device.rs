//! The device session: owns the bus handle, the device's bus address and
//! the delay primitive, and implements checksum-verified register reads,
//! checksum-appended register writes, the two-phase EEPROM write sequence,
//! and the sensor operations built on them.

use vstd::prelude::*;
use crate::bus::Delayer;
use crate::bus::I2cBus;
use crate::bus::Transaction;
use crate::checksum::crc8;
use crate::protocol::id_of_words;
use crate::protocol::is_read_of;
use crate::protocol::ok_read;
use crate::protocol::read_pec_input;
use crate::protocol::replace_low_byte;
use crate::protocol::txn_word;
use crate::protocol::write_dir;
use crate::protocol::write_frame;
use crate::protocol::write_txn;

verus! {

/// Ambient temperature register (volatile).
pub const TA: u8 = 0x06;

/// Primary object temperature register (volatile).
pub const TOBJ1: u8 = 0x07;

/// Secondary object temperature register (volatile).
pub const TOBJ2: u8 = 0x08;

/// Calibration maximum register (EEPROM).
pub const TOMAX: u8 = 0x20;

/// Calibration minimum register (EEPROM).
pub const TOMIN: u8 = 0x21;

/// Device address register (EEPROM).
pub const ADDRESS: u8 = 0x2E;

/// Identity word 0 register.
pub const ID0: u8 = 0x3C;

/// Identity word 1 register.
pub const ID1: u8 = 0x3D;

/// Identity word 2 register.
pub const ID2: u8 = 0x3E;

/// Identity word 3 register.
pub const ID3: u8 = 0x3F;

/// The device's factory-default 7-bit bus address.
pub const DEFAULT_ADDRESS: u8 = 0x5A;

/// The settle interval, in milliseconds, after each phase of an EEPROM
/// write.
pub const EEPROM_SETTLE_MS: u8 = 5;

/// Everything a driver operation can fail with.
#[derive(Debug)]
pub enum Error<I2CError> {
    /// The transport reported a failure; the transaction did not complete.
    I2C(I2CError),
    /// The sensor signalled that no valid object reading is available.
    Flag,
    /// The received integrity byte did not match the recomputed code; the
    /// data was discarded.
    Crc,
    /// The given bus address is outside the legal range.
    InvalidAddress(u8),
}

impl<I2CError> From<I2CError> for Error<I2CError> {
    /// Wraps a transport failure.
    fn from(item: I2CError) -> (r: Self)
        ensures
            r == Error::<I2CError>::I2C(item),
    {
        Error::I2C(item)
    }
}

impl<I2CError> vstd::std_specs::convert::FromSpecImpl<I2CError> for Error<I2CError> {
    open spec fn obeys_from_spec() -> bool {
        true
    }

    open spec fn from_spec(item: I2CError) -> Self {
        Error::I2C(item)
    }
}

/// Whether `address` is a legal device bus address: nonzero and at most
/// 0x80.  (0x80, one past the conventional 7-bit maximum, is deliberately
/// allowed through.)
pub open spec fn valid_address_spec(address: u8) -> bool {
    address != 0 && address <= 0x80
}

/// Returns an error if the given address is not a valid bus address.
pub fn validate_address<T>(address: u8) -> (r: Result<(), Error<T>>)
    ensures
        match r {
            Ok(_) => valid_address_spec(address),
            Err(Error::InvalidAddress(a)) => a == address && !valid_address_spec(address),
            Err(_) => false,
        },
{
    if address > 0x80 || address == 0 {
        Err(Error::InvalidAddress(address))
    } else {
        Ok(())
    }
}

/// A session with one physical sensor: the exclusive owner of the bus
/// handle, the device's bus address, and the delay primitive.
pub struct Mlx90614<I2C, Delay> {
    i2c: I2C,
    address: u8,
    delay: Delay,
}

impl<I2C: I2cBus, Delay: Delayer> Mlx90614<I2C, Delay> {
    /// The history of bus transactions this session's bus handle has
    /// completed.
    pub closed spec fn bus_log(self) -> Seq<Transaction> {
        self.i2c.log()
    }

    /// The history of pauses this session's delay handle has taken.
    pub closed spec fn delay_log(self) -> Seq<u8> {
        self.delay.delays()
    }

    /// The bus address the session directs its transactions to.
    pub closed spec fn device_address(self) -> u8 {
        self.address
    }

    /// Neither log nor the device address differs between `self` and
    /// `post`.
    pub open spec fn unchanged(self, post: Self) -> bool {
        &&& post.device_address() == self.device_address()
        &&& post.bus_log() == self.bus_log()
        &&& post.delay_log() == self.delay_log()
    }

    /// `post` extends `self` by exactly one register-read transaction of
    /// `reg`, with the delay log and the device address unchanged.
    pub open spec fn read_step(self, post: Self, reg: u8) -> bool {
        &&& post.device_address() == self.device_address()
        &&& post.delay_log() == self.delay_log()
        &&& post.bus_log() == self.bus_log().push(post.bus_log().last())
        &&& is_read_of(post.bus_log().last(), self.device_address(), reg)
    }

    /// The outcome of a plain register read of `reg` surfaced as a raw
    /// count: exactly one read transaction on success or checksum failure,
    /// no trace on a transport failure, and the returned count is the
    /// transaction's little-endian word.
    pub open spec fn plain_read_outcome(
        self,
        post: Self,
        reg: u8,
        r: Result<i16, Error<I2C::BusError>>,
    ) -> bool {
        match r {
            Ok(v) => {
                &&& self.read_step(post, reg)
                &&& ok_read(post.bus_log().last(), self.device_address(), reg)
                &&& v == txn_word(post.bus_log().last()) as i16
            },
            Err(Error::Crc) => {
                &&& self.read_step(post, reg)
                &&& !ok_read(post.bus_log().last(), self.device_address(), reg)
            },
            Err(Error::I2C(_)) => self.unchanged(post),
            Err(_) => false,
        }
    }

    /// The outcome of an object-temperature read of `reg`: as a plain read,
    /// except that a word with bit 15 set is surfaced as `Flag` and never
    /// returned as a value.
    pub open spec fn object_read_outcome(
        self,
        post: Self,
        reg: u8,
        r: Result<i16, Error<I2C::BusError>>,
    ) -> bool {
        match r {
            Ok(v) => {
                &&& self.read_step(post, reg)
                &&& ok_read(post.bus_log().last(), self.device_address(), reg)
                &&& txn_word(post.bus_log().last()) & 0x8000 == 0
                &&& v == txn_word(post.bus_log().last()) as i16
            },
            Err(Error::Flag) => {
                &&& self.read_step(post, reg)
                &&& ok_read(post.bus_log().last(), self.device_address(), reg)
                &&& txn_word(post.bus_log().last()) & 0x8000 != 0
            },
            Err(Error::Crc) => {
                &&& self.read_step(post, reg)
                &&& !ok_read(post.bus_log().last(), self.device_address(), reg)
            },
            Err(Error::I2C(_)) => self.unchanged(post),
            Err(Error::InvalidAddress(_)) => false,
        }
    }

    /// The outcome of an EEPROM write of `value` to `reg`: on success,
    /// exactly two write transactions — first value 0 (erase), then `value`
    /// (program) — each followed by the fixed settle delay, with no read
    /// in between; on failure, either no trace or the erase phase alone.
    pub open spec fn eeprom_write_outcome(
        self,
        post: Self,
        reg: u8,
        value: u16,
        r: Result<(), I2C::BusError>,
    ) -> bool {
        &&& post.device_address() == self.device_address()
        &&& match r {
            Ok(_) => {
                &&& post.bus_log() == self.bus_log().push(
                    write_txn(self.device_address(), reg, 0),
                ).push(write_txn(self.device_address(), reg, value))
                &&& post.delay_log() == self.delay_log().push(EEPROM_SETTLE_MS).push(
                    EEPROM_SETTLE_MS,
                )
            },
            Err(_) => {
                ||| self.unchanged(post)
                ||| {
                    &&& post.bus_log() == self.bus_log().push(
                        write_txn(self.device_address(), reg, 0),
                    )
                    &&& post.delay_log() == self.delay_log().push(EEPROM_SETTLE_MS)
                }
            },
        }
    }

    /// Opens a session with the device at the factory-default address.
    pub fn new(i2c: I2C, delay: Delay) -> (r: Result<Self, Error<I2C::BusError>>)
        ensures
            r matches Ok(s) && s.device_address() == DEFAULT_ADDRESS && s.bus_log() == i2c.log()
                && s.delay_log() == delay.delays(),
    {
        Self::with_address(i2c, DEFAULT_ADDRESS, delay)
    }

    /// Opens a session with the device at `address`, rejecting an illegal
    /// address before any bus activity.
    pub fn with_address(i2c: I2C, address: u8, delay: Delay) -> (r: Result<
        Self,
        Error<I2C::BusError>,
    >)
        ensures
            match r {
                Ok(s) => {
                    &&& valid_address_spec(address)
                    &&& s.device_address() == address
                    &&& s.bus_log() == i2c.log()
                    &&& s.delay_log() == delay.delays()
                },
                Err(Error::InvalidAddress(a)) => a == address && !valid_address_spec(address),
                Err(_) => false,
            },
    {
        match validate_address::<I2C::BusError>(address) {
            Err(e) => Err(e),
            Ok(_) => Ok(Mlx90614 { i2c, address, delay }),
        }
    }

    /// Reads the primary object temperature as a raw count, failing with
    /// `Flag` when the sensor reports no valid reading.
    pub fn read_object(&mut self) -> (r: Result<i16, Error<I2C::BusError>>)
        ensures
            old(self).object_read_outcome(*final(self), TOBJ1, r),
    {
        match self.i2c_read(TOBJ1) {
            Ok(raw) => {
                if raw & 0x8000 != 0 {
                    Err(Error::Flag)
                } else {
                    Ok(raw as i16)
                }
            },
            Err(e) => Err(e),
        }
    }

    /// Reads the secondary object temperature as a raw count, failing with
    /// `Flag` when the sensor reports no valid reading.
    pub fn read_object2(&mut self) -> (r: Result<i16, Error<I2C::BusError>>)
        ensures
            old(self).object_read_outcome(*final(self), TOBJ2, r),
    {
        match self.i2c_read(TOBJ2) {
            Ok(raw) => {
                if raw & 0x8000 != 0 {
                    Err(Error::Flag)
                } else {
                    Ok(raw as i16)
                }
            },
            Err(e) => Err(e),
        }
    }

    /// Reads the ambient temperature as a raw count.
    pub fn read_ambient(&mut self) -> (r: Result<i16, Error<I2C::BusError>>)
        ensures
            old(self).plain_read_outcome(*final(self), TA, r),
    {
        match self.i2c_read(TA) {
            Ok(raw) => Ok(#[verifier::truncate] (raw as i16)),
            Err(e) => Err(e),
        }
    }

    /// Reads the calibration minimum as a raw count.
    pub fn get_min(&mut self) -> (r: Result<i16, Error<I2C::BusError>>)
        ensures
            old(self).plain_read_outcome(*final(self), TOMIN, r),
    {
        match self.i2c_read(TOMIN) {
            Ok(raw) => Ok(#[verifier::truncate] (raw as i16)),
            Err(e) => Err(e),
        }
    }

    /// Reads the calibration maximum as a raw count.
    pub fn get_max(&mut self) -> (r: Result<i16, Error<I2C::BusError>>)
        ensures
            old(self).plain_read_outcome(*final(self), TOMAX, r),
    {
        match self.i2c_read(TOMAX) {
            Ok(raw) => Ok(#[verifier::truncate] (raw as i16)),
            Err(e) => Err(e),
        }
    }

    /// Sets the calibration minimum to the given raw count through the
    /// EEPROM write sequence.
    pub fn set_min(&mut self, min: i16) -> (r: Result<(), I2C::BusError>)
        ensures
            old(self).eeprom_write_outcome(*final(self), TOMIN, min as u16, r),
    {
        self.eeprom_write(TOMIN, #[verifier::truncate] (min as u16))
    }

    /// Sets the calibration maximum to the given raw count through the
    /// EEPROM write sequence.
    pub fn set_max(&mut self, max: i16) -> (r: Result<(), I2C::BusError>)
        ensures
            old(self).eeprom_write_outcome(*final(self), TOMAX, max as u16, r),
    {
        self.eeprom_write(TOMAX, #[verifier::truncate] (max as u16))
    }

    /// Reads the device's bus address cell, surfacing its low byte.
    pub fn get_address(&mut self) -> (r: Result<u8, Error<I2C::BusError>>)
        ensures
            match r {
                Ok(a) => {
                    &&& old(self).read_step(*final(self), ADDRESS)
                    &&& ok_read(
                        final(self).bus_log().last(),
                        old(self).device_address(),
                        ADDRESS,
                    )
                    &&& a == txn_word(final(self).bus_log().last()) as u8
                },
                Err(Error::Crc) => {
                    &&& old(self).read_step(*final(self), ADDRESS)
                    &&& !ok_read(
                        final(self).bus_log().last(),
                        old(self).device_address(),
                        ADDRESS,
                    )
                },
                Err(Error::I2C(_)) => old(self).unchanged(*final(self)),
                Err(_) => false,
            },
    {
        match self.i2c_read(ADDRESS) {
            Ok(v) => Ok(#[verifier::truncate] (v as u8)),
            Err(e) => Err(e),
        }
    }

    /// Programs a new device bus address: validates it, reads the address
    /// cell, replaces only its low byte, and writes the cell back through
    /// the EEPROM write sequence.  The session keeps talking to the old
    /// address; the device adopts the new one on its next power cycle.
    pub fn set_address(&mut self, address: u8) -> (r: Result<(), Error<I2C::BusError>>)
        ensures
            final(self).device_address() == old(self).device_address(),
            match r {
                Ok(_) => ({
                    let dev = old(self).device_address();
                    let pre = old(self).bus_log();
                    let log = final(self).bus_log();
                    let n = pre.len() as int;
                    &&& valid_address_spec(address)
                    &&& log.len() == n + 3
                    &&& ok_read(log[n], dev, ADDRESS)
                    &&& log == pre.push(log[n]).push(write_txn(dev, ADDRESS, 0)).push(
                        write_txn(dev, ADDRESS, replace_low_byte(txn_word(log[n]), address)),
                    )
                    &&& final(self).delay_log() == old(self).delay_log().push(
                        EEPROM_SETTLE_MS,
                    ).push(EEPROM_SETTLE_MS)
                }),
                Err(Error::InvalidAddress(a)) => a == address && !valid_address_spec(address)
                    && old(self).unchanged(*final(self)),
                Err(Error::Crc) => {
                    &&& old(self).read_step(*final(self), ADDRESS)
                    &&& !ok_read(
                        final(self).bus_log().last(),
                        old(self).device_address(),
                        ADDRESS,
                    )
                },
                Err(Error::I2C(_)) => ({
                    let dev = old(self).device_address();
                    let pre = old(self).bus_log();
                    let log = final(self).bus_log();
                    let n = pre.len() as int;
                    ||| old(self).unchanged(*final(self))
                    ||| {
                        &&& ok_read(log[n], dev, ADDRESS)
                        &&& log == pre.push(log[n])
                        &&& final(self).delay_log() == old(self).delay_log()
                    }
                    ||| {
                        &&& ok_read(log[n], dev, ADDRESS)
                        &&& log == pre.push(log[n]).push(write_txn(dev, ADDRESS, 0))
                        &&& final(self).delay_log() == old(self).delay_log().push(
                            EEPROM_SETTLE_MS,
                        )
                    }
                }),
                Err(Error::Flag) => false,
            },
    {
        match validate_address::<I2C::BusError>(address) {
            Err(e) => {
                return Err(e);
            },
            Ok(_) => {},
        }
        let current = match self.i2c_read(ADDRESS) {
            Ok(v) => v,
            Err(e) => {
                return Err(e);
            },
        };
        let value = (current & 0xFF00) | (address as u16);
        match self.eeprom_write(ADDRESS, value) {
            Err(e) => Err(Error::I2C(e)),
            Ok(_) => Ok(()),
        }
    }

    /// Reads the four identity words and assembles them as a 64-bit value,
    /// word 0 in the lowest 16 bits and word 3 in the highest.
    pub fn get_id(&mut self) -> (r: Result<u64, Error<I2C::BusError>>)
        ensures
            final(self).device_address() == old(self).device_address(),
            final(self).delay_log() == old(self).delay_log(),
            match r {
                Ok(id) => ({
                    let dev = old(self).device_address();
                    let pre = old(self).bus_log();
                    let log = final(self).bus_log();
                    let n = pre.len() as int;
                    &&& log.len() == n + 4
                    &&& log == pre.push(log[n]).push(log[n + 1]).push(log[n + 2]).push(
                        log[n + 3],
                    )
                    &&& ok_read(log[n], dev, ID0)
                    &&& ok_read(log[n + 1], dev, ID1)
                    &&& ok_read(log[n + 2], dev, ID2)
                    &&& ok_read(log[n + 3], dev, ID3)
                    &&& id == id_of_words(
                        txn_word(log[n]),
                        txn_word(log[n + 1]),
                        txn_word(log[n + 2]),
                        txn_word(log[n + 3]),
                    )
                }),
                Err(Error::Crc) => ({
                    let pre = old(self).bus_log();
                    let log = final(self).bus_log();
                    let n = pre.len() as int;
                    n < log.len() <= n + 4 && log.take(n) == pre
                }),
                Err(Error::I2C(_)) => ({
                    let pre = old(self).bus_log();
                    let log = final(self).bus_log();
                    let n = pre.len() as int;
                    n <= log.len() <= n + 4 && log.take(n) == pre
                }),
                Err(_) => false,
            },
    {
        let ghost pre = self.bus_log();
        let id0 = match self.i2c_read(ID0) {
            Ok(v) => v,
            Err(e) => {
                proof {
                    assert(self.bus_log().take(pre.len() as int) =~= pre);
                }
                return Err(e);
            },
        };
        let id1 = match self.i2c_read(ID1) {
            Ok(v) => v,
            Err(e) => {
                proof {
                    assert(self.bus_log().take(pre.len() as int) =~= pre);
                }
                return Err(e);
            },
        };
        let id2 = match self.i2c_read(ID2) {
            Ok(v) => v,
            Err(e) => {
                proof {
                    assert(self.bus_log().take(pre.len() as int) =~= pre);
                }
                return Err(e);
            },
        };
        let id3 = match self.i2c_read(ID3) {
            Ok(v) => v,
            Err(e) => {
                proof {
                    assert(self.bus_log().take(pre.len() as int) =~= pre);
                }
                return Err(e);
            },
        };
        Ok(((id3 as u64) << 48) | ((id2 as u64) << 32) | ((id1 as u64) << 16) | (id0 as u64))
    }

    /// The bus handle, for inspection.
    pub fn bus(&self) -> (r: &I2C)
        ensures
            r.log() == self.bus_log(),
    {
        &self.i2c
    }

    /// The delay handle, for inspection.
    pub fn delay_handle(&self) -> (r: &Delay)
        ensures
            r.delays() == self.delay_log(),
    {
        &self.delay
    }

    /// The bus address the session directs its transactions to.
    pub fn address(&self) -> (r: u8)
        ensures
            r == self.device_address(),
    {
        self.address
    }

    /// Issues a combined write-then-read transaction for `reg`, recomputes
    /// the integrity byte over the received bytes and fails with `Crc` when
    /// it does not match; otherwise assembles the little-endian word.
    fn i2c_read(&mut self, reg: u8) -> (r: Result<u16, Error<I2C::BusError>>)
        ensures
            match r {
                Ok(v) => {
                    &&& old(self).read_step(*final(self), reg)
                    &&& ok_read(final(self).bus_log().last(), old(self).device_address(), reg)
                    &&& v == txn_word(final(self).bus_log().last())
                },
                Err(Error::Crc) => {
                    &&& old(self).read_step(*final(self), reg)
                    &&& !ok_read(
                        final(self).bus_log().last(),
                        old(self).device_address(),
                        reg,
                    )
                },
                Err(Error::I2C(_)) => old(self).unchanged(*final(self)),
                Err(_) => false,
            },
    {
        let mut request: Vec<u8> = Vec::new();
        request.push(reg);
        let ghost req = request@;
        match self.i2c.write_read(self.address, request, 3) {
            Err(e) => Err(Error::I2C(e)),
            Ok(resp) => {
                proof {
                    assert(req =~= seq![reg]);
                }
                let lsb = resp[0];
                let msb = resp[1];
                let pec = resp[2];
                let mut check: Vec<u8> = Vec::new();
                check.push(self.address << 1);
                check.push(reg);
                check.push((self.address << 1) | 1);
                check.push(lsb);
                check.push(msb);
                let crc = crc8(check.as_slice());
                proof {
                    assert(check@ =~= read_pec_input(self.address, reg, lsb, msb));
                }
                if crc != pec {
                    Err(Error::Crc)
                } else {
                    Ok(((msb as u16) << 8) | (lsb as u16))
                }
            },
        }
    }

    /// Computes the integrity byte over the outbound payload and issues a
    /// single write transaction `[reg, low byte, high byte, integrity]`.
    /// Success is the transport call completing without error; there is no
    /// read-back.
    fn i2c_write(&mut self, reg: u8, data: u16) -> (r: Result<(), I2C::BusError>)
        ensures
            match r {
                Ok(_) => {
                    &&& final(self).device_address() == old(self).device_address()
                    &&& final(self).delay_log() == old(self).delay_log()
                    &&& final(self).bus_log() == old(self).bus_log().push(
                        write_txn(old(self).device_address(), reg, data),
                    )
                },
                Err(_) => old(self).unchanged(*final(self)),
            },
    {
        let lsb = (data & 0xFF) as u8;
        let msb = (data >> 8) as u8;
        let mut pec_input: Vec<u8> = Vec::new();
        pec_input.push(self.address << 1);
        pec_input.push(reg);
        pec_input.push(lsb);
        pec_input.push(msb);
        let crc = crc8(pec_input.as_slice());
        let mut frame: Vec<u8> = Vec::new();
        frame.push(reg);
        frame.push(lsb);
        frame.push(msb);
        frame.push(crc);
        proof {
            assert(pec_input@ =~= seq![write_dir(self.address), reg, lsb, msb]);
            assert(frame@ =~= write_frame(self.address, reg, data));
        }
        self.i2c.write(self.address, frame)
    }

    /// The two-phase EEPROM write: erase the cell to 0, wait the settle
    /// interval, program `data`, and wait again.  A transport failure at
    /// any step is surfaced immediately and the sequence is abandoned; a
    /// failure of the programming write leaves the cell erased.
    fn eeprom_write(&mut self, reg: u8, data: u16) -> (r: Result<(), I2C::BusError>)
        ensures
            old(self).eeprom_write_outcome(*final(self), reg, data, r),
    {
        match self.i2c_write(reg, 0) {
            Err(e) => {
                return Err(e);
            },
            Ok(_) => {},
        }
        self.delay.delay_ms(EEPROM_SETTLE_MS);
        match self.i2c_write(reg, data) {
            Err(e) => {
                return Err(e);
            },
            Ok(_) => {},
        }
        self.delay.delay_ms(EEPROM_SETTLE_MS);
        Ok(())
    }
}

} // verus!
