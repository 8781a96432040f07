//! The 48-bit SafeSPI frames of the SCH16T, most significant byte first.
//!
//! Request frame (master out):
//! `[47:46]` chip address (TA9:TA8), `[45:38]` register address (TA7:TA0),
//! `[37]` write enable, `[36]` zero, `[35]` frame type, `[34:32]` zero,
//! `[31:8]` data, `[7:0]` CRC.
//!
//! Response frame (master in): as the request, with the sensor status in
//! `[33:32]`.
//!
//! The CRC of a frame is the CRC-8 of a zero byte followed by the five
//! bytes that precede the CRC byte.
use vstd::prelude::*;
use crate::crc8::{checksum, frame_crc8};
use crate::settings::{SensorStatus, sensor_status_from_code};

verus! {

/// Number of bytes in one frame.
pub const FRAME_LEN: usize = 6;

/// Largest value of a 48-bit frame word.
pub open spec fn frame_word_max() -> u64 {
    0xFFFF_FFFF_FFFFu64
}

/// The chip address field of a frame word.
pub open spec fn chip_address_of(w: u64) -> u8 {
    ((w >> 46u64) & 0x3u64) as u8
}

/// The register address field of a frame word.
pub open spec fn register_address_of(w: u64) -> u8 {
    ((w >> 38u64) & 0xFFu64) as u8
}

/// The write enable bit of a frame word.
pub open spec fn write_en_of(w: u64) -> bool {
    (w >> 37u64) & 0x1u64 == 1u64
}

/// The frame type bit of a frame word.
pub open spec fn frame_type_of(w: u64) -> bool {
    (w >> 35u64) & 0x1u64 == 1u64
}

/// The two-bit sensor status field of a response word.
pub open spec fn status_code_of(w: u64) -> u8 {
    ((w >> 32u64) & 0x3u64) as u8
}

/// The 24-bit data field of a frame word.
pub open spec fn data_of(w: u64) -> u32 {
    ((w >> 8u64) & 0xFF_FFFFu64) as u32
}

/// The CRC field of a frame word.
pub open spec fn crc_of(w: u64) -> u8 {
    (w & 0xFFu64) as u8
}

/// `w` with the field of `mask` at `offset` replaced by the low bits of `v`.
pub open spec fn with_field(w: u64, offset: u64, mask: u64, v: u64) -> u64 {
    (w & !(mask << offset)) | ((v & mask) << offset)
}

/// The six bytes of a frame word, most significant first.
pub open spec fn word_bytes(w: u64) -> Seq<u8> {
    seq![
        (w >> 40u64) as u8,
        (w >> 32u64) as u8,
        (w >> 24u64) as u8,
        (w >> 16u64) as u8,
        (w >> 8u64) as u8,
        w as u8,
    ]
}

/// The frame word of six bytes, most significant first.
pub open spec fn bytes_word(b: Seq<u8>) -> u64 {
    ((b[0] as u64) << 40u64) | ((b[1] as u64) << 32u64) | ((b[2] as u64) << 24u64) | ((
    b[3] as u64) << 16u64) | ((b[4] as u64) << 8u64) | (b[5] as u64)
}

/// What the CRC of a frame word covers: a zero byte, then the five bytes
/// before the CRC byte.
pub open spec fn crc_input(w: u64) -> Seq<u8> {
    seq![0u8] + word_bytes(w).take(5)
}

/// The CRC that a frame word should carry.
pub open spec fn expected_crc(w: u64) -> u8 {
    frame_crc8(crc_input(w))
}

pub(crate) proof fn lemma_crc_input_ignores_crc(w: u64, v: u64)
    ensures
        crc_input(with_field(w, 0, 0xFF, v)) == crc_input(w),
{
    let w2 = with_field(w, 0, 0xFF, v);
    assert((w2 >> 40u64) as u8 == (w >> 40u64) as u8 && (w2 >> 32u64) as u8 == (w >> 32u64) as u8
        && (w2 >> 24u64) as u8 == (w >> 24u64) as u8 && (w2 >> 16u64) as u8 == (w >> 16u64) as u8
        && (w2 >> 8u64) as u8 == (w >> 8u64) as u8) by (bit_vector)
        requires
            w2 == (w & !(0xFFu64 << 0u64)) | ((v & 0xFFu64) << 0u64),
    ;
    assert(word_bytes(w2).take(5) =~= word_bytes(w).take(5));
}

pub(crate) proof fn lemma_crc_field(w: u64, v: u8)
    ensures
        crc_of(with_field(w, 0, 0xFF, v as u64)) == v,
        with_field(with_field(w, 0, 0xFF, v as u64), 0, 0xFF, crc_of(w) as u64) == w,
        w <= frame_word_max() ==> with_field(w, 0, 0xFF, v as u64) <= frame_word_max(),
{
    let vv = v as u64;
    assert(((((w & !(0xFFu64 << 0u64)) | ((vv & 0xFFu64) << 0u64)) & 0xFFu64) as u8) == v)
        by (bit_vector)
        requires
            vv == v as u64,
    ;
    assert((((w & !(0xFFu64 << 0u64)) | ((vv & 0xFFu64) << 0u64)) & !(0xFFu64 << 0u64)) | ((((
    w & 0xFFu64) as u8) as u64 & 0xFFu64) << 0u64) == w) by (bit_vector);
    assert(w <= 0xFFFF_FFFF_FFFFu64 ==> (w & !(0xFFu64 << 0u64)) | ((vv & 0xFFu64) << 0u64)
        <= 0xFFFF_FFFF_FFFFu64) by (bit_vector);
}

/// A 48-bit frame word is recovered from its six bytes, and six bytes are
/// recovered from the word that they make.
pub proof fn frame_bytes_roundtrip(w: u64, b: Seq<u8>)
    ensures
        w <= frame_word_max() ==> bytes_word(word_bytes(w)) == w,
        b.len() == 6 ==> word_bytes(bytes_word(b)) == b,
{
    assert(w <= 0xFFFF_FFFF_FFFFu64 ==> (((w >> 40u64) as u8 as u64) << 40u64) | (((w >> 32u64) as u8 as u64) << 32u64) | (((w >> 24u64) as u8 as u64) << 24u64)
        | (((w >> 16u64) as u8 as u64) << 16u64) | (((w >> 8u64) as u8 as u64) << 8u64) | (w as u8 as u64) == w) by (bit_vector);
    if b.len() == 6 {
        let (b0, b1, b2, b3, b4, b5) = (b[0], b[1], b[2], b[3], b[4], b[5]);
        let x = bytes_word(b);
        assert((x >> 40u64) as u8 == b0 && (x >> 32u64) as u8 == b1 && (x >> 24u64) as u8 == b2
            && (x >> 16u64) as u8 == b3 && (x >> 8u64) as u8 == b4 && x as u8 == b5) by (bit_vector)
            requires
                x == ((b0 as u64) << 40u64) | ((b1 as u64) << 32u64) | ((b2 as u64) << 24u64) | ((
                b3 as u64) << 16u64) | ((b4 as u64) << 8u64) | (b5 as u64),
        ;
        assert(word_bytes(x) =~= b);
    }
}

/// A frame whose CRC field was computed over its own contents passes the
/// CRC check on the receiving side: the bytes on the wire give back the
/// same word, CRC included.
pub proof fn sent_frame_passes_crc_check(w: u64, v: u8)
    requires
        w <= frame_word_max(),
        v == expected_crc(w),
    ensures
        ({
            let sent = with_field(w, 0, 0xFF, v as u64);
            let received = bytes_word(word_bytes(sent));
            &&& received == sent
            &&& crc_of(received) == expected_crc(received)
        }),
{
    let sent = with_field(w, 0, 0xFF, v as u64);
    lemma_crc_field(w, v);
    lemma_crc_input_ignores_crc(w, v as u64);
    frame_bytes_roundtrip(sent, seq![]);
}

/// Each field of a request word reads back what was written to it, and a
/// write leaves the other fields as they were.
pub proof fn request_fields_read_back(w: u64, chip: u8, reg: u8, data: u32)
    ensures
        chip_address_of(with_field(w, 46, 0x3, chip as u64)) == chip % 4,
        register_address_of(with_field(w, 46, 0x3, chip as u64)) == register_address_of(w),
        data_of(with_field(w, 46, 0x3, chip as u64)) == data_of(w),
        crc_of(with_field(w, 46, 0x3, chip as u64)) == crc_of(w),
        register_address_of(with_field(w, 38, 0xFF, reg as u64)) == reg,
        chip_address_of(with_field(w, 38, 0xFF, reg as u64)) == chip_address_of(w),
        data_of(with_field(w, 38, 0xFF, reg as u64)) == data_of(w),
        crc_of(with_field(w, 38, 0xFF, reg as u64)) == crc_of(w),
        data_of(with_field(w, 8, 0xFF_FFFF, data as u64)) == data % 0x100_0000,
        chip_address_of(with_field(w, 8, 0xFF_FFFF, data as u64)) == chip_address_of(w),
        register_address_of(with_field(w, 8, 0xFF_FFFF, data as u64)) == register_address_of(w),
        crc_of(with_field(w, 8, 0xFF_FFFF, data as u64)) == crc_of(w),
        write_en_of(with_field(w, 37, 0x1, 1)),
        !write_en_of(with_field(w, 37, 0x1, 0)),
        frame_type_of(with_field(w, 35, 0x1, 1)),
        !frame_type_of(with_field(w, 35, 0x1, 0)),
{
    let c = chip as u64;
    let r = reg as u64;
    let d = data as u64;
    assert({
        let x = (w & !(0x3u64 << 46u64)) | ((c & 0x3u64) << 46u64);
        &&& ((x >> 46u64) & 0x3u64) as u8 == chip % 4
        &&& ((x >> 38u64) & 0xFFu64) == ((w >> 38u64) & 0xFFu64)
        &&& ((x >> 8u64) & 0xFF_FFFFu64) == ((w >> 8u64) & 0xFF_FFFFu64)
        &&& (x & 0xFFu64) == (w & 0xFFu64)
    }) by (bit_vector)
        requires
            c == chip as u64,
    ;
    assert({
        let x = (w & !(0xFFu64 << 38u64)) | ((r & 0xFFu64) << 38u64);
        &&& ((x >> 38u64) & 0xFFu64) as u8 == reg
        &&& ((x >> 46u64) & 0x3u64) == ((w >> 46u64) & 0x3u64)
        &&& ((x >> 8u64) & 0xFF_FFFFu64) == ((w >> 8u64) & 0xFF_FFFFu64)
        &&& (x & 0xFFu64) == (w & 0xFFu64)
    }) by (bit_vector)
        requires
            r == reg as u64,
    ;
    assert({
        let x = (w & !(0xFF_FFFFu64 << 8u64)) | ((d & 0xFF_FFFFu64) << 8u64);
        &&& ((x >> 8u64) & 0xFF_FFFFu64) as u32 == data % 0x100_0000
        &&& ((x >> 46u64) & 0x3u64) == ((w >> 46u64) & 0x3u64)
        &&& ((x >> 38u64) & 0xFFu64) == ((w >> 38u64) & 0xFFu64)
        &&& (x & 0xFFu64) == (w & 0xFFu64)
    }) by (bit_vector)
        requires
            d == data as u64,
    ;
    assert((((w & !(0x1u64 << 37u64)) | ((1u64 & 0x1u64) << 37u64)) >> 37u64) & 0x1u64 == 1u64
        && (((w & !(0x1u64 << 37u64)) | ((0u64 & 0x1u64) << 37u64)) >> 37u64) & 0x1u64 == 0u64
        && (((w & !(0x1u64 << 35u64)) | ((1u64 & 0x1u64) << 35u64)) >> 35u64) & 0x1u64 == 1u64
        && (((w & !(0x1u64 << 35u64)) | ((0u64 & 0x1u64) << 35u64)) >> 35u64) & 0x1u64 == 0u64)
        by (bit_vector);
}

/// Setting the CRC of a word whose low byte is clear adds it.
pub(crate) proof fn lemma_crc_adds(w: u64, v: u8)
    requires
        w % 0x100 == 0,
    ensures
        with_field(w, 0, 0xFF, v as u64) == w + v,
{
    let vv = v as u64;
    assert((w & !(0xFFu64 << 0u64)) | ((vv & 0xFFu64) << 0u64) == w + vv) by (bit_vector)
        requires
            w % 0x100 == 0 && vv < 256,
    ;
}

/// A request frame.
#[derive(Debug, Clone, Copy, PartialEq, Eq, Structural)]
pub struct FrameOut {
    bits: u64,
}

impl View for FrameOut {
    type V = u64;

    closed spec fn view(&self) -> u64 {
        self.bits
    }
}

impl Default for FrameOut {
    /// The all-zero frame.
    fn default() -> (f: Self)
        ensures
            f@ == 0,
    {
        FrameOut { bits: 0 }
    }
}

impl FrameOut {
    /// The 48-bit word of the frame.
    pub fn word(&self) -> (w: u64)
        ensures
            w == self@,
    {
        self.bits
    }

    /// Sets the chip address (the low two bits of `v`).
    pub fn set_chip_address(&mut self, v: u8)
        ensures
            final(self)@ == with_field(old(self)@, 46, 0x3, v as u64),
    {
        self.bits = (self.bits & !(0x3u64 << 46u64)) | (((v as u64) & 0x3u64) << 46u64);
    }

    /// Sets the register address.
    pub fn set_register_address(&mut self, v: u8)
        ensures
            final(self)@ == with_field(old(self)@, 38, 0xFF, v as u64),
    {
        self.bits = (self.bits & !(0xFFu64 << 38u64)) | (((v as u64) & 0xFFu64) << 38u64);
    }

    /// Sets the write enable bit.
    pub fn set_write_en(&mut self, v: bool)
        ensures
            final(self)@ == with_field(old(self)@, 37, 0x1, if v { 1 } else { 0 }),
    {
        let b: u64 = if v { 1 } else { 0 };
        self.bits = (self.bits & !(0x1u64 << 37u64)) | ((b & 0x1u64) << 37u64);
    }

    /// Sets the frame type bit.
    pub fn set_frame_type(&mut self, v: bool)
        ensures
            final(self)@ == with_field(old(self)@, 35, 0x1, if v { 1 } else { 0 }),
    {
        let b: u64 = if v { 1 } else { 0 };
        self.bits = (self.bits & !(0x1u64 << 35u64)) | ((b & 0x1u64) << 35u64);
    }

    /// Sets the data field (the low 24 bits of `v`).
    pub fn set_data(&mut self, v: u32)
        ensures
            final(self)@ == with_field(old(self)@, 8, 0xFF_FFFF, v as u64),
    {
        self.bits = (self.bits & !(0xFF_FFFFu64 << 8u64)) | (((v as u64) & 0xFF_FFFFu64) << 8u64);
    }

    /// Sets the CRC field.
    pub fn set_crc(&mut self, v: u8)
        ensures
            final(self)@ == with_field(old(self)@, 0, 0xFF, v as u64),
    {
        self.bits = (self.bits & !(0xFFu64 << 0u64)) | (((v as u64) & 0xFFu64) << 0u64);
    }

    /// The CRC field.
    pub fn crc(&self) -> (c: u8)
        ensures
            c == crc_of(self@),
    {
        (self.bits & 0xFF) as u8
    }

    /// The six bytes of the frame, most significant first.
    pub fn as_bytes(&self) -> (b: [u8; 6])
        ensures
            b@ == word_bytes(self@),
    {
        let w = self.bits;
        let b = [
            (w >> 40u64) as u8,
            (w >> 32u64) as u8,
            (w >> 24u64) as u8,
            (w >> 16u64) as u8,
            (w >> 8u64) as u8,
            w as u8,
        ];
        assert(b@ =~= word_bytes(w));
        b
    }

    /// Computes the CRC of the frame, stores it in the CRC field and
    /// returns it.
    pub fn compute_crc(&mut self) -> (sum: u8)
        ensures
            sum == expected_crc(old(self)@),
            final(self)@ == with_field(old(self)@, 0, 0xFF, sum as u64),
    {
        let ghost w0 = self.bits;
        self.set_crc(0);
        let b = self.as_bytes();
        let input = vec![0u8, b[0], b[1], b[2], b[3], b[4]];
        proof {
            lemma_crc_input_ignores_crc(w0, 0);
            assert(input@ =~= crc_input(self.bits));
        }
        let sum = checksum(input.as_slice());
        self.set_crc(sum);
        proof {
            lemma_crc_field(w0, 0);
            let w1 = with_field(w0, 0, 0xFF, 0);
            assert(with_field(w1, 0, 0xFF, sum as u64) == with_field(w0, 0, 0xFF, sum as u64))
                by (bit_vector)
                requires
                    w1 == (w0 & !(0xFFu64 << 0u64)) | ((0u64 & 0xFFu64) << 0u64),
            ;
        }
        sum
    }
}

/// A response frame.
#[derive(Debug, Clone, Copy, PartialEq, Eq, Structural)]
pub struct FrameIn {
    bits: u64,
}

impl View for FrameIn {
    type V = u64;

    closed spec fn view(&self) -> u64 {
        self.bits
    }
}

impl FrameIn {
    /// The frame that six received bytes hold, most significant first.
    pub fn from_bytes(b: [u8; 6]) -> (f: FrameIn)
        ensures
            f@ == bytes_word(b@),
            f@ <= frame_word_max(),
    {
        let (b0, b1, b2, b3, b4, b5) = (b[0], b[1], b[2], b[3], b[4], b[5]);
        let w = ((b0 as u64) << 40u64) | ((b1 as u64) << 32u64) | ((b2 as u64) << 24u64) | ((
        b3 as u64) << 16u64) | ((b4 as u64) << 8u64) | (b5 as u64);
        assert(((b0 as u64) << 40u64) | ((b1 as u64) << 32u64) | ((b2 as u64) << 24u64) | ((
        b3 as u64) << 16u64) | ((b4 as u64) << 8u64) | (b5 as u64) <= 0xFFFF_FFFF_FFFFu64)
            by (bit_vector);
        FrameIn { bits: w }
    }

    /// The 48-bit word of the frame.
    pub fn word(&self) -> (w: u64)
        ensures
            w == self@,
    {
        self.bits
    }

    /// The chip address field.
    pub fn chip_address(&self) -> (v: u8)
        ensures
            v == chip_address_of(self@),
    {
        ((self.bits >> 46u64) & 0x3) as u8
    }

    /// The register address field.
    pub fn register_address(&self) -> (v: u8)
        ensures
            v == register_address_of(self@),
    {
        ((self.bits >> 38u64) & 0xFF) as u8
    }

    /// The write enable bit.
    pub fn write_en(&self) -> (v: bool)
        ensures
            v == write_en_of(self@),
    {
        (self.bits >> 37u64) & 0x1 == 1
    }

    /// The frame type bit.
    pub fn frame_type(&self) -> (v: bool)
        ensures
            v == frame_type_of(self@),
    {
        (self.bits >> 35u64) & 0x1 == 1
    }

    /// The sensor status that the frame reports.
    pub fn sensor_status(&self) -> (s: SensorStatus)
        ensures
            s == sensor_status_from_code(status_code_of(self@)),
    {
        SensorStatus::from_code(((self.bits >> 32u64) & 0x3) as u8)
    }

    /// The data field.
    pub fn data(&self) -> (v: u32)
        ensures
            v == data_of(self@),
    {
        ((self.bits >> 8u64) & 0xFF_FFFF) as u32
    }

    /// The CRC field.
    pub fn crc(&self) -> (c: u8)
        ensures
            c == crc_of(self@),
    {
        (self.bits & 0xFF) as u8
    }

    /// Sets the CRC field.
    pub fn set_crc(&mut self, v: u8)
        ensures
            final(self)@ == with_field(old(self)@, 0, 0xFF, v as u64),
    {
        self.bits = (self.bits & !(0xFFu64 << 0u64)) | (((v as u64) & 0xFFu64) << 0u64);
    }

    /// Computes the CRC that the frame should carry, stores it in the CRC
    /// field and returns it.
    pub fn compute_crc(&mut self) -> (sum: u8)
        ensures
            sum == expected_crc(old(self)@),
            final(self)@ == with_field(old(self)@, 0, 0xFF, sum as u64),
    {
        let ghost w0 = self.bits;
        self.set_crc(0);
        let w = self.bits;
        let input = vec![0u8, (w >> 40u64) as u8, (w >> 32u64) as u8, (w >> 24u64) as u8,
            (w >> 16u64) as u8, (w >> 8u64) as u8];
        proof {
            lemma_crc_input_ignores_crc(w0, 0);
            assert(input@ =~= crc_input(self.bits));
        }
        let sum = checksum(input.as_slice());
        self.set_crc(sum);
        proof {
            let w1 = with_field(w0, 0, 0xFF, 0);
            assert(with_field(w1, 0, 0xFF, sum as u64) == with_field(w0, 0, 0xFF, sum as u64))
                by (bit_vector)
                requires
                    w1 == (w0 & !(0xFFu64 << 0u64)) | ((0u64 & 0xFFu64) << 0u64),
            ;
        }
        sum
    }

    /// Whether the received CRC is the one the frame should carry; the
    /// frame is left as it was.
    pub fn crc_ok(&mut self) -> (ok: bool)
        ensures
            ok == (crc_of(old(self)@) == expected_crc(old(self)@)),
            final(self)@ == old(self)@,
    {
        let rx_crc = self.crc();
        let crc = self.compute_crc();
        self.set_crc(rx_crc);
        proof {
            lemma_crc_field(old(self)@, crc);
        }
        rx_crc == crc
    }
}

} // verus!
