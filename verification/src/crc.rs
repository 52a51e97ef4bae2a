//! CRC-16-CCITT checksum engine.
//!
//! Polynomial 0x1021, initial value 0xFFFF, most-significant-bit first,
//! no final XOR. The checksum is computed over every word of a frame
//! except the trailing CRC word and compared against that word.

use vstd::prelude::*;

verus! {

/// One shift round: shift the accumulator left by one bit and fold the
/// polynomial in when the top bit was set.
pub open spec fn crc16_shift(c: u16) -> u16 {
    if c & 0x8000 != 0 {
        (c << 1) ^ 0x1021
    } else {
        c << 1
    }
}

/// `k` successive shift rounds.
pub open spec fn crc16_rounds(c: u16, k: nat) -> u16
    decreases k,
{
    if k == 0 {
        c
    } else {
        crc16_rounds(crc16_shift(c), (k - 1) as nat)
    }
}

/// Folding one input byte into the accumulator: XOR it into the high byte,
/// then perform eight shift rounds.
pub open spec fn crc16_step(c: u16, b: u8) -> u16 {
    crc16_rounds(c ^ ((b as u16) << 8), 8)
}

/// Folding a whole byte sequence into the accumulator, front to back.
pub open spec fn crc16_fold(c: u16, s: Seq<u8>) -> u16
    decreases s.len(),
{
    if s.len() == 0 {
        c
    } else {
        crc16_fold(crc16_step(c, s[0]), s.drop_first())
    }
}

/// The CRC-16-CCITT checksum of a byte sequence.
pub open spec fn spec_crc16(s: Seq<u8>) -> u16 {
    crc16_fold(0xFFFF, s)
}

/// Calculates the CRC-16-CCITT checksum for the given data.
pub fn crc16_ccitt_const(data: &[u8]) -> (crc: u16)
    ensures
        crc == spec_crc16(data@),
{
    let mut crc: u16 = 0xFFFF;
    let mut byte_idx: usize = 0;
    proof {
        assert(data@.skip(0) == data@);
    }
    while byte_idx < data.len()
        invariant
            byte_idx <= data.len(),
            spec_crc16(data@) == crc16_fold(crc, data@.skip(byte_idx as int)),
        decreases data.len() - byte_idx,
    {
        proof {
            assert(data@.skip(byte_idx as int)[0] == data@[byte_idx as int]);
            assert(data@.skip(byte_idx as int).drop_first() == data@.skip(byte_idx as int + 1));
        }
        crc = crc ^ ((data[byte_idx] as u16) << 8);
        let ghost c0 = crc;
        let mut bit_idx: usize = 0;
        while bit_idx < 8
            invariant
                bit_idx <= 8,
                crc16_rounds(crc, (8 - bit_idx) as nat) == crc16_rounds(c0, 8),
            decreases 8 - bit_idx,
        {
            if (crc & 0x8000) != 0 {
                crc = (crc << 1) ^ 0x1021;
            } else {
                crc = crc << 1;
            }
            bit_idx += 1;
        }
        byte_idx += 1;
    }
    crc
}

} // verus!
