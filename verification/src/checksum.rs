//! The checksum engine: an 8-bit cyclic redundancy code over a byte
//! sequence, most-significant-bit first, polynomial 0x07, initial register
//! value 0, no reflection and no final exclusive-or.  It validates inbound
//! register data and is appended to outbound register writes.

use vstd::prelude::*;

verus! {

/// One shift of the code register: shift left, folding the polynomial in
/// when the top bit falls out.
pub open spec fn crc8_round(crc: u8) -> u8 {
    if crc & 0x80 != 0 {
        (crc << 1) ^ 0x07
    } else {
        crc << 1
    }
}

/// `n` successive rounds of the code register.
pub open spec fn crc8_rounds(crc: u8, n: nat) -> u8
    decreases n,
{
    if n == 0 {
        crc
    } else {
        crc8_round(crc8_rounds(crc, (n - 1) as nat))
    }
}

/// The code of a byte sequence: each byte is folded into the register and
/// followed by eight rounds; the empty sequence has code 0.
pub open spec fn crc8_spec(data: Seq<u8>) -> u8
    decreases data.len(),
{
    if data.len() == 0 {
        0
    } else {
        crc8_rounds(crc8_spec(data.drop_last()) ^ data.last(), 8)
    }
}

/// The code of the empty sequence is 0.
pub proof fn lemma_crc8_empty()
    ensures
        crc8_spec(Seq::<u8>::empty()) == 0,
{
}

/// Computes the 8-bit cyclic redundancy code of `data`.  The result is a
/// function of the bytes alone, so two calls on equal input return equal
/// codes.
pub fn crc8(data: &[u8]) -> (r: u8)
    ensures
        r == crc8_spec(data@),
{
    let mut crc: u8 = 0;
    let mut i: usize = 0;
    while i < data.len()
        invariant
            i <= data@.len(),
            crc == crc8_spec(data@.take(i as int)),
        decreases data@.len() - i,
    {
        crc = crc ^ data[i];
        let ghost folded = crc;
        let mut j: usize = 0;
        while j < 8
            invariant
                j <= 8,
                crc == crc8_rounds(folded, j as nat),
            decreases 8 - j,
        {
            if crc & 0x80 != 0 {
                crc = (crc << 1) ^ 0x07;
            } else {
                crc = crc << 1;
            }
            j = j + 1;
        }
        proof {
            assert(data@.take(i + 1).drop_last() =~= data@.take(i as int));
            assert(data@.take(i + 1).last() == data@[i as int]);
        }
        i = i + 1;
    }
    proof {
        assert(data@.take(data@.len() as int) =~= data@);
    }
    crc
}

} // verus!
