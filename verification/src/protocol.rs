//! The wire format of register transactions: which bytes a register read or
//! write puts on the bus, and the checksum relation the three bytes of a
//! read response must satisfy.

use vstd::prelude::*;
use crate::bus::Transaction;
use crate::checksum::crc8_spec;

verus! {

/// The write-direction byte of a device address: the address shifted left
/// by one with the direction bit clear.
pub open spec fn write_dir(dev: u8) -> u8 {
    dev << 1
}

/// The read-direction byte of a device address: the address shifted left by
/// one with the direction bit set.
pub open spec fn read_dir(dev: u8) -> u8 {
    (dev << 1) | 1
}

/// The byte sequence the integrity byte of a register read is computed
/// over: write-direction byte, register address, read-direction byte, then
/// the two data bytes, low byte first.
pub open spec fn read_pec_input(dev: u8, reg: u8, lsb: u8, msb: u8) -> Seq<u8> {
    seq![write_dir(dev), reg, read_dir(dev), lsb, msb]
}

/// Whether the three received bytes of a register read (low byte, high
/// byte, integrity byte) satisfy the checksum relation.
pub open spec fn read_checksum_ok(dev: u8, reg: u8, resp: Seq<u8>) -> bool {
    &&& resp.len() == 3
    &&& crc8_spec(read_pec_input(dev, reg, resp[0], resp[1])) == resp[2]
}

/// The 16-bit value carried by a read response, assembled little-endian
/// from its first two bytes.
pub open spec fn word_of(resp: Seq<u8>) -> u16
    recommends
        resp.len() >= 2,
{
    ((resp[1] as u16) << 8) | (resp[0] as u16)
}

/// The payload of a register write: register address, low byte, high byte,
/// then the integrity byte computed over the write-direction byte and the
/// three payload bytes.
pub open spec fn write_frame(dev: u8, reg: u8, value: u16) -> Seq<u8> {
    let lsb = (value & 0xFF) as u8;
    let msb = (value >> 8) as u8;
    seq![reg, lsb, msb, crc8_spec(seq![write_dir(dev), reg, lsb, msb])]
}

/// The transaction a register write of `value` to `reg` on device `dev`
/// puts on the bus.
pub open spec fn write_txn(dev: u8, reg: u8, value: u16) -> Transaction {
    Transaction::Write { addr: dev, data: write_frame(dev, reg, value) }
}

/// Whether `t` is a register-read transaction of `reg` on device `dev`:
/// one address byte written, three bytes read back.
pub open spec fn is_read_of(t: Transaction, dev: u8, reg: u8) -> bool {
    &&& t matches Transaction::WriteRead { addr, data, resp }
    &&& addr == dev
    &&& data == seq![reg]
    &&& resp.len() == 3
}

/// The bytes read back in a write-then-read transaction.
pub open spec fn txn_resp(t: Transaction) -> Seq<u8> {
    match t {
        Transaction::WriteRead { resp, .. } => resp,
        Transaction::Write { .. } => Seq::empty(),
    }
}

/// The 16-bit value a read transaction carried.
pub open spec fn txn_word(t: Transaction) -> u16 {
    word_of(txn_resp(t))
}

/// Whether `t` is a register-read transaction of `reg` on device `dev`
/// whose response satisfies the checksum relation.
pub open spec fn ok_read(t: Transaction, dev: u8, reg: u8) -> bool {
    &&& is_read_of(t, dev, reg)
    &&& read_checksum_ok(dev, reg, txn_resp(t))
}

/// A 16-bit word with its low byte replaced by `b`.
pub open spec fn replace_low_byte(word: u16, b: u8) -> u16 {
    (word & 0xFF00) | (b as u16)
}

/// The 64-bit identity assembled from four identity words, word 0 in the
/// lowest 16 bits and word 3 in the highest.
pub open spec fn id_of_words(w0: u16, w1: u16, w2: u16, w3: u16) -> u64 {
    ((w3 as u64) << 48) | ((w2 as u64) << 32) | ((w1 as u64) << 16) | (w0 as u64)
}

} // verus!
