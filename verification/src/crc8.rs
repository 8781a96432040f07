//! CRC-8 of the SafeSPI frames: polynomial 0x2F, initial value 0xFF,
//! most significant bit first, no final xor.
use vstd::prelude::*;

verus! {

/// Generator polynomial of the frame checksum (x^8 + x^5 + x^3 + x^2 + x + 1).
pub const CRC8_POLY: u8 = 0x2F;

/// Initial register value of the frame checksum.
pub const CRC8_INIT: u8 = 0xFF;

/// One bit step of a most-significant-bit-first CRC-8 register.
pub open spec fn crc8_bit_step(reg: u8, poly: u8) -> u8 {
    if reg & 0x80u8 != 0 {
        (reg << 1u8) ^ poly
    } else {
        reg << 1u8
    }
}

/// Eight bit steps of the register, starting from `reg`.
pub open spec fn crc8_shift8(reg: u8, poly: u8) -> u8 {
    crc8_bit_step(
        crc8_bit_step(
            crc8_bit_step(
                crc8_bit_step(
                    crc8_bit_step(
                        crc8_bit_step(crc8_bit_step(crc8_bit_step(reg, poly), poly), poly),
                        poly,
                    ),
                    poly,
                ),
                poly,
            ),
            poly,
        ),
        poly,
    )
}

/// The CRC-8 (width 8, not reflected, no final xor) of `data` with generator
/// `poly` and initial register `init`: each byte is xored into the register,
/// which is then shifted eight times.
pub open spec fn crc8(poly: u8, init: u8, data: Seq<u8>) -> u8
    decreases data.len(),
{
    if data.len() == 0 {
        init
    } else {
        crc8_shift8(crc8(poly, init, data.drop_last()) ^ data.last(), poly)
    }
}

/// The checksum that the SCH16T expects over `data`.
pub open spec fn frame_crc8(data: Seq<u8>) -> u8 {
    crc8(CRC8_POLY, CRC8_INIT, data)
}

/// Calls `crc::Crc::<u8>::checksum` of the `crc` crate with the algorithm
/// {width 8, poly 0x2F, init 0xFF, refin false, refout false, xorout 0}.
/// The claim is the textbook definition of that parameter set, which the
/// crate's table-driven implementation computes.
#[verifier::external_body]
pub(crate) fn checksum(data: &[u8]) -> (sum: u8)
    ensures
        sum == frame_crc8(data@),
{
    crc::Crc::<u8>::new(
        &crc::Algorithm {
            width: 8,
            poly: CRC8_POLY,
            init: CRC8_INIT,
            refin: false,
            refout: false,
            xorout: 0,
            check: 0,
            residue: 0,
        },
    ).checksum(data)
}

} // verus!
