//! CRC-16/CCITT over block payloads.
//!
//! Bit-serial form: 16-bit register starting at zero, polynomial 0x1021,
//! no input or output reflection and no final xor.  The checksum covers
//! only the 128-byte payload of a block, never its marker, sequence or
//! complement bytes, and travels on the wire high byte first.

use vstd::prelude::*;

verus! {

/// Generator polynomial of the checksum.
pub const CRC_POLY: u16 = 0x1021;

/// One shift of the bit-serial register: shift left, and fold the
/// polynomial in when the bit that fell out was set.
pub open spec fn crc_shift(c: u16) -> u16 {
    if c & 0x8000 != 0 {
        (c << 1) ^ CRC_POLY
    } else {
        c << 1
    }
}

/// The register after `k` shifts from `c`.
pub open spec fn crc_shift_n(c: u16, k: nat) -> u16
    decreases k,
{
    if k == 0 {
        c
    } else {
        crc_shift((crc_shift_n(c, (k - 1) as nat)))
    }
}

/// Folding one input byte into the register: xor it into the high half,
/// then shift eight times.
pub open spec fn crc_push_byte(c: u16, b: u8) -> u16 {
    crc_shift_n(c ^ ((b as u16) << 8), 8)
}

/// The CRC-16/CCITT of a byte sequence, from an all-zero register.
pub open spec fn crc16(s: Seq<u8>) -> u16
    decreases s.len(),
{
    if s.len() == 0 {
        0
    } else {
        crc_push_byte(crc16(s.drop_last()), s.last())
    }
}

/// High byte of the checksum, sent first on the wire.
pub open spec fn crc_hi(c: u16) -> u8 {
    (c >> 8) as u8
}

/// Low byte of the checksum, sent second.
pub open spec fn crc_lo(c: u16) -> u8 {
    (c & 0xFF) as u8
}

/// Computes the CRC-16/CCITT of `data`.
pub fn compute_crc16(data: &Vec<u8>) -> (r: u16)
    ensures
        r == crc16(data@),
{
    let mut crc: u16 = 0;
    let mut i: usize = 0;
    while i < data.len()
        invariant
            i <= data.len(),
            crc == crc16(data@.take(i as int)),
        decreases data.len() - i,
    {
        let b = data[i];
        crc = crc ^ ((b as u16) << 8);
        let ghost entry = crc;
        let mut k: usize = 0;
        while k < 8
            invariant
                k <= 8,
                crc == crc_shift_n(entry, k as nat),
            decreases 8 - k,
        {
            if crc & 0x8000 != 0 {
                crc = (crc << 1) ^ CRC_POLY;
            } else {
                crc = crc << 1;
            }
            k = k + 1;
        }
        proof {
            assert(data@.take(i + 1).drop_last() =~= data@.take(i as int));
            assert(data@.take(i + 1).last() == data@[i as int]);
        }
        i = i + 1;
    }
    proof {
        assert(data@.take(data@.len() as int) =~= data@);
    }
    crc
}

} // verus!
