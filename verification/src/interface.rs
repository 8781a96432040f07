//! The SPI side of the driver: building request frames, checking response
//! frames, the sticky sensor status, and the order of frames for a register
//! read.
//!
//! SafeSPI answers every frame with the response to the frame before it.
//! A read of a register therefore sends the register's address, then one
//! more frame whose response carries the value. That second frame already
//! asks for the register most likely read next, so that a run of reads in
//! the expected order costs one frame per register.
use vstd::prelude::*;
use crate::config::{AddressPins, chip_address};
use crate::error::Error;
use crate::frame::{
    FrameIn, FrameOut, bytes_word, chip_address_of, crc_of, data_of, expected_crc,
    frame_type_of, frame_word_max, register_address_of, status_code_of, with_field, write_en_of,
};
use crate::registers::STAT_SUM;
use crate::settings::{SensorStatus, sensor_status_from_code};

verus! {

#[verifier::external_type_specification]
#[verifier::external_body]
#[verifier::reject_recursive_types(T)]
pub struct ExHeaplessVec<T, const N: usize>(heapless::Vec<T, N>);

/// The addresses that a `heapless::Vec<u8, 10>` holds, in order.
pub uninterp spec fn addr_list_items(v: heapless::Vec<u8, 10>) -> Seq<u8>;

/// `heapless::Vec::new`: an empty list.
#[verifier::external_body]
pub fn addr_list_new() -> (v: heapless::Vec<u8, 10>)
    ensures
        addr_list_items(v) == Seq::<u8>::empty(),
{
    heapless::Vec::new()
}

/// `heapless::Vec::from_slice`: a list holding the slice, or `Err` when the
/// slice is longer than the capacity of ten.
#[verifier::external_body]
pub fn addr_list_from_slice(s: &[u8]) -> (r: Result<heapless::Vec<u8, 10>, ()>)
    ensures
        r is Ok <==> s@.len() <= 10,
        r matches Ok(v) ==> addr_list_items(v) == s@,
{
    heapless::Vec::from_slice(s)
}

/// `heapless::Vec::push`: appends `x` when the list holds fewer than ten
/// items; else hands `x` back and leaves the list as it was.
#[verifier::external_body]
pub fn addr_list_push(v: &mut heapless::Vec<u8, 10>, x: u8) -> (r: Result<(), u8>)
    ensures
        r == (if addr_list_items(*old(v)).len() < 10 {
            Ok::<(), u8>(())
        } else {
            Err::<(), u8>(x)
        }),
        addr_list_items(*final(v)) == (if addr_list_items(*old(v)).len() < 10 {
            addr_list_items(*old(v)).push(x)
        } else {
            addr_list_items(*old(v))
        }),
{
    v.push(x)
}

/// `heapless::Vec::extend_from_slice`: appends the slice when it fits in the
/// capacity of ten; else returns `Err` and leaves the list as it was.
#[verifier::external_body]
pub fn addr_list_extend_from_slice(v: &mut heapless::Vec<u8, 10>, s: &[u8]) -> (r: Result<(), ()>)
    ensures
        r is Ok == (addr_list_items(*old(v)).len() + s@.len() <= 10),
        addr_list_items(*final(v)) == (if addr_list_items(*old(v)).len() + s@.len() <= 10 {
            addr_list_items(*old(v)) + s@
        } else {
            addr_list_items(*old(v))
        }),
{
    v.extend_from_slice(s)
}

/// `heapless::Vec::len`: the number of items, at most the capacity.
#[verifier::external_body]
pub fn addr_list_len(v: &heapless::Vec<u8, 10>) -> (n: usize)
    ensures
        n == addr_list_items(*v).len(),
        n <= 10,
{
    v.len()
}

/// Indexing a `heapless::Vec` (through its slice): the item at `i`.
#[verifier::external_body]
pub fn addr_list_get(v: &heapless::Vec<u8, 10>, i: usize) -> (x: u8)
    requires
        i < addr_list_items(*v).len(),
    ensures
        x == addr_list_items(*v)[i as int],
{
    v[i]
}

/// What the interface remembers between frames.
pub struct InterfaceView {
    /// The chip address of the sensor.
    pub address: u8,
    /// The register address of the last request frame.
    pub last_out_addr: u8,
    /// The worst status reported since it was last cleared.
    pub sticky_status: SensorStatus,
    /// The registers that a sample reads, in order.
    pub read_loop: Seq<u8>,
}

/// The SPI side of the driver.
pub struct Interface {
    address: u8,
    last_out_addr: u8,
    sticky_status: SensorStatus,
    read_loop_addrs: heapless::Vec<u8, 10>,
}

impl View for Interface {
    type V = InterfaceView;

    closed spec fn view(&self) -> InterfaceView {
        InterfaceView {
            address: self.address,
            last_out_addr: self.last_out_addr,
            sticky_status: self.sticky_status,
            read_loop: addr_list_items(self.read_loop_addrs),
        }
    }
}

/// The sticky status after a frame reported `last`: normal and
/// initialisation give way to whatever comes, saturation gives way only to
/// an error, and an error stays.
pub open spec fn sticky_after(sticky: SensorStatus, last: SensorStatus) -> SensorStatus {
    match sticky {
        SensorStatus::Normal | SensorStatus::Initialization => last,
        SensorStatus::Saturation => if last == SensorStatus::SensorError {
            last
        } else {
            sticky
        },
        SensorStatus::SensorError => sticky,
    }
}

/// The register that the frame after a request for `current` should ask
/// for: the one after `current` in the read loop (after the last one, the
/// first again, or the summary status when the sticky status is not
/// normal), and for a register outside the loop the next address.
pub open spec fn next_address(v: InterfaceView, current: u8) -> u8 {
    match v.read_loop.index_of_first(current) {
        Some(pos) => if pos + 1 == v.read_loop.len() {
            if v.sticky_status != SensorStatus::Normal {
                STAT_SUM
            } else {
                v.read_loop[0]
            }
        } else {
            v.read_loop[pos + 1]
        },
        None => (current + 1) as u8,
    }
}

/// The word of the request frame that asks the sensor at `chip` for
/// register `reg`, writing `data` when `write`, with its CRC.
pub open spec fn request_word(chip: u8, reg: u8, write: bool, data: u32) -> u64 {
    let w = (((chip % 4) as u64) * 0x4000_0000_0000u64 + (reg as u64) * 0x40_0000_0000u64 + (if write {
        0x20_0000_0000u64
    } else {
        0u64
    }) + 0x8_0000_0000u64 + ((data % 0x100_0000) as u64) * 0x100u64) as u64;
    (w + expected_crc(w)) as u64
}

proof fn lemma_request_word(chip: u8, reg: u8, write: bool, data: u32)
    ensures
        ({
            let wb: u64 = if write { 1 } else { 0 };
            let w0 = with_field(
                with_field(
                    with_field(with_field(with_field(0, 46, 0x3, chip as u64), 38, 0xFF, reg as u64), 37, 0x1, wb),
                    35,
                    0x1,
                    1,
                ),
                8,
                0xFF_FFFF,
                data as u64,
            );
            let w = ((chip % 4) as u64) * 0x4000_0000_0000u64 + (reg as u64) * 0x40_0000_0000u64 + (if write {
                0x20_0000_0000u64
            } else {
                0u64
            }) + 0x8_0000_0000u64 + ((data % 0x100_0000) as u64) * 0x100u64;
            &&& w0 == w
            &&& w % 0x100 == 0
            &&& w <= frame_word_max()
        }),
{
    let wb: u64 = if write { 1 } else { 0 };
    let c = chip as u64;
    let r = reg as u64;
    let d = data as u64;
    let w0 = with_field(
        with_field(
            with_field(with_field(with_field(0, 46, 0x3, c), 38, 0xFF, r), 37, 0x1, wb),
            35,
            0x1,
            1,
        ),
        8,
        0xFF_FFFF,
        d,
    );
    assert(w0 == (c % 4) * 0x4000_0000_0000u64 + r * 0x40_0000_0000u64 + wb * 0x20_0000_0000u64
        + 0x8_0000_0000u64 + (d % 0x100_0000) * 0x100u64) by (bit_vector)
        requires
            r < 256 && d < 0x1_0000_0000 && wb < 2,
            w0 == with_field(
                with_field(
                    with_field(with_field(with_field(0, 46, 0x3, c), 38, 0xFF, r), 37, 0x1, wb),
                    35,
                    0x1,
                    1,
                ),
                8,
                0xFF_FFFF,
                d,
            ),
    ;
}

impl Interface {
    /// The chip address is one of the four that the address pins select.
    #[verifier::type_invariant]
    spec fn chip_address_in_range(self) -> bool {
        self.address < 4
    }

    /// The chip address of the sensor.
    pub fn address(&self) -> (a: u8)
        ensures
            a == self@.address,
            a < 4,
    {
        proof {
            use_type_invariant(self);
        }
        self.address
    }

    /// A fresh interface for the sensor at `address`: no frame sent yet,
    /// status still initialising, no read loop.
    pub fn new(address: AddressPins) -> (i: Interface)
        ensures
            i@.address == chip_address(address),
            i@.last_out_addr == 0,
            i@.sticky_status == SensorStatus::Initialization,
            i@.read_loop == Seq::<u8>::empty(),
    {
        Interface {
            address: address.address(),
            last_out_addr: 0,
            sticky_status: SensorStatus::Initialization,
            read_loop_addrs: addr_list_new(),
        }
    }

    /// The worst status reported since it was last cleared.
    pub fn sticky_status(&self) -> (s: SensorStatus)
        ensures
            s == self@.sticky_status,
    {
        self.sticky_status
    }

    /// Starts a new run of status reports.
    pub fn clear_sticky_status(&mut self)
        ensures
            final(self)@ == (InterfaceView { sticky_status: SensorStatus::Normal, ..old(self)@ }),
    {
        proof {
            use_type_invariant(&*self);
        }
        self.sticky_status = SensorStatus::Normal;
    }

    /// Sets the registers that a sample reads, in order.
    pub fn set_read_loop_addrs(&mut self, addrs: heapless::Vec<u8, 10>)
        ensures
            final(self)@ == (InterfaceView { read_loop: addr_list_items(addrs), ..old(self)@ }),
    {
        proof {
            use_type_invariant(&*self);
        }
        self.read_loop_addrs = addrs;
    }

    /// The register that the frame after a request for `current` asks for.
    pub fn next_addr(&self, current: u8) -> (next: u8)
        requires
            current < 0xFF || self@.read_loop.contains(current),
        ensures
            next == next_address(self@, current),
    {
        let ghost s = addr_list_items(self.read_loop_addrs);
        let n = addr_list_len(&self.read_loop_addrs);
        let mut i: usize = 0;
        while i < n
            invariant
                n == s.len(),
                i <= n,
                s == addr_list_items(self.read_loop_addrs),
                forall|j: int| 0 <= j < i ==> s[j] != current,
            decreases n - i,
        {
            if addr_list_get(&self.read_loop_addrs, i) == current {
                proof {
                    s.index_of_first_ensures(current);
                    assert(s[i as int] == current);
                    assert(s.contains(current));
                    let p = s.index_of_first(current).unwrap();
                    assert(p == i);
                }
                let next_pos = i + 1;
                if next_pos == n {
                    if self.sticky_status != SensorStatus::Normal {
                        return STAT_SUM;
                    } else {
                        return addr_list_get(&self.read_loop_addrs, 0);
                    }
                } else {
                    return addr_list_get(&self.read_loop_addrs, next_pos);
                }
            }
            i = i + 1;
        }
        proof {
            s.index_of_first_ensures(current);
            assert(!s.contains(current));
        }
        current + 1
    }

    /// The request frame for register `addr`, writing `data` when `write`:
    /// this sensor's chip address, the 24-bit data field, the frame type
    /// bit set, and its CRC.
    pub fn make_frame(&self, addr: u8, write: bool, data: u32) -> (f: FrameOut)
        ensures
            f@ == request_word(self@.address, addr, write, data),
            self@.address < 4,
            chip_address_of(f@) == self@.address,
            register_address_of(f@) == addr,
            write_en_of(f@) == write,
            frame_type_of(f@),
            data_of(f@) == data % 0x100_0000,
            crc_of(f@) == expected_crc(f@),
            f@ <= frame_word_max(),
    {
        proof {
            use_type_invariant(self);
        }
        let mut frame = FrameOut::default();
        frame.set_chip_address(self.address);
        frame.set_register_address(addr);
        frame.set_write_en(write);
        frame.set_frame_type(true);
        frame.set_data(data);
        let ghost w = frame@;
        let sum = frame.compute_crc();
        proof {
            lemma_request_word(self.address, addr, write, data);
            let a = self.address;
            let c = a as u64;
            let r = addr as u64;
            let wb: u64 = if write { 1 } else { 0 };
            let d = data as u64;
            let s = sum as u64;
            let f = frame@;
            crate::frame::lemma_crc_adds(w, sum);
            crate::frame::lemma_crc_input_ignores_crc(w, s);
            crate::frame::lemma_crc_field(w, sum);
            assert(f == w + s);
            assert({
                &&& (f >> 46u64) & 0x3u64 == c % 4
                &&& (f >> 38u64) & 0xFFu64 == r
                &&& (f >> 37u64) & 0x1u64 == wb
                &&& (f >> 35u64) & 0x1u64 == 1u64
                &&& (f >> 8u64) & 0xFF_FFFFu64 == d % 0x100_0000
                &&& f & 0xFFu64 == s
                &&& f <= 0xFFFF_FFFF_FFFFu64
            }) by (bit_vector)
                requires
                    r < 256 && d < 0x1_0000_0000 && s < 256 && c < 256 && wb < 2,
                    f == (c % 4) * 0x4000_0000_0000u64 + r * 0x40_0000_0000u64 + wb
                        * 0x20_0000_0000u64 + 0x8_0000_0000u64 + (d % 0x100_0000) * 0x100u64 + s,
            ;
        }
        frame
    }

    /// The frame to send next while reading register `address`, and whether
    /// its response carries the register's value. When the last request
    /// was not for `address`, a frame asks for it first and its response
    /// is dropped; then a frame asks for the register expected next, and
    /// its response carries the value of `address`.
    pub fn read_frame_for(&self, address: u8) -> (step: (u8, bool))
        requires
            address < 0xFF || self@.read_loop.contains(address),
        ensures
            step == read_step(self@, address),
    {
        if self.last_out_addr != address {
            (address, false)
        } else {
            (self.next_addr(address), true)
        }
    }

    /// Takes in the six bytes that answered the request frame for `addr`.
    /// A response with a nonzero register address and a wrong CRC is an
    /// error, and leaves the interface as it was. Otherwise the frame's
    /// status is folded into the sticky status, `addr` becomes the last
    /// request, and the frame's data field is returned.
    pub fn finish_transfer<E>(&mut self, addr: u8, response: [u8; 6]) -> (r: Result<u32, Error<E>>)
        ensures
            response_crc_failed(bytes_word(response@)) ==> (r matches Err(Error::Crc)),
            response_crc_failed(bytes_word(response@)) ==> final(self)@ == old(self)@,
            !response_crc_failed(bytes_word(response@)) ==> r == Ok::<u32, Error<E>>(
                data_of(bytes_word(response@)),
            ) && final(self)@ == after_response(old(self)@, addr, bytes_word(response@)),
    {
        proof {
            use_type_invariant(&*self);
        }
        let mut frame = FrameIn::from_bytes(response);
        if frame.register_address() != 0 && !frame.crc_ok() {
            return Err(Error::Crc);
        }
        let last_status = frame.sensor_status();
        // keep the worst status seen: normal and initialising give way to
        // anything, saturation only to an error
        match (self.sticky_status, last_status) {
            (SensorStatus::Normal, _) | (SensorStatus::Initialization, _) => {
                self.sticky_status = last_status;
            },
            (SensorStatus::Saturation, SensorStatus::SensorError) => {
                self.sticky_status = last_status;
            },
            _ => {},
        }
        self.last_out_addr = addr;
        Ok(frame.data())
    }
}

/// Whether a response word fails its CRC check: a response to register
/// address zero is not checked.
pub open spec fn response_crc_failed(w: u64) -> bool {
    register_address_of(w) != 0 && crc_of(w) != expected_crc(w)
}

/// The interface after a request for `addr` was answered by the response
/// word `w`, which passed its CRC check.
pub open spec fn after_response(v: InterfaceView, addr: u8, w: u64) -> InterfaceView {
    InterfaceView {
        last_out_addr: addr,
        sticky_status: sticky_after(v.sticky_status, sensor_status_from_code(status_code_of(w))),
        ..v
    }
}

/// The next frame of a read of `address`, and whether its response
/// carries the value.
pub open spec fn read_step(v: InterfaceView, address: u8) -> (u8, bool) {
    if v.last_out_addr != address {
        (address, false)
    } else {
        (next_address(v, address), true)
    }
}


/// The sticky status after a run of frames reported `reports`, in order.
pub open spec fn sticky_over(s: SensorStatus, reports: Seq<SensorStatus>) -> SensorStatus
    decreases reports.len(),
{
    if reports.len() == 0 {
        s
    } else {
        sticky_after(sticky_over(s, reports.drop_last()), reports.last())
    }
}

/// Whether a status reports saturation or an error.
pub open spec fn is_fault(s: SensorStatus) -> bool {
    s == SensorStatus::Saturation || s == SensorStatus::SensorError
}

/// The sticky status reports the worst status since it was cleared: it is
/// a fault exactly when it was one or some frame reported one, it is an
/// error exactly when it was one or some frame reported one, and with no
/// fault anywhere it is the last report.
pub proof fn sticky_status_keeps_worst(s: SensorStatus, reports: Seq<SensorStatus>)
    ensures
        is_fault(sticky_over(s, reports)) <==> (is_fault(s) || exists|i: int|
            0 <= i < reports.len() && is_fault(#[trigger] reports[i])),
        (sticky_over(s, reports) == SensorStatus::SensorError) <==> (s == SensorStatus::SensorError
            || exists|i: int| 0 <= i < reports.len() && #[trigger] reports[i] == SensorStatus::SensorError),
        !is_fault(sticky_over(s, reports)) && reports.len() > 0 ==> sticky_over(s, reports)
            == reports.last(),
    decreases reports.len(),
{
    if reports.len() > 0 {
        let init = reports.drop_last();
        sticky_status_keeps_worst(s, init);
        if exists|i: int| 0 <= i < init.len() && is_fault(#[trigger] init[i]) {
            let i = choose|i: int| 0 <= i < init.len() && is_fault(#[trigger] init[i]);
            assert(reports[i] == init[i]);
        }
        if exists|i: int| 0 <= i < init.len() && #[trigger] init[i] == SensorStatus::SensorError {
            let i = choose|i: int| 0 <= i < init.len() && #[trigger] init[i] == SensorStatus::SensorError;
            assert(reports[i] == init[i]);
        }
        if exists|i: int| 0 <= i < reports.len() && is_fault(#[trigger] reports[i]) {
            let i = choose|i: int| 0 <= i < reports.len() && is_fault(#[trigger] reports[i]);
            if i < init.len() {
                assert(init[i] == reports[i]);
            }
        }
        if exists|i: int| 0 <= i < reports.len() && #[trigger] reports[i] == SensorStatus::SensorError {
            let i = choose|i: int| 0 <= i < reports.len() && #[trigger] reports[i] == SensorStatus::SensorError;
            if i < init.len() {
                assert(init[i] == reports[i]);
            }
        }
    }
}

/// A register read takes at most two frames, and the frame whose response
/// carries the value is sent right after a request for the register: when
/// the first step only asks for the register, the answer to it leaves the
/// interface with that register as the last request, so the next step is
/// the one that delivers the value.
pub proof fn register_read_delivers_requested_value(v: InterfaceView, address: u8, w: u64)
    ensures
        read_step(v, address).1 ==> v.last_out_addr == address,
        !read_step(v, address).1 ==> read_step(v, address).0 == address && ({
            let v2 = after_response(v, address, w);
            &&& v2.last_out_addr == address
            &&& read_step(v2, address).1
            &&& read_step(v2, address).0 == next_address(v2, address)
        }),
{
}

/// In a read loop without repeated registers, the frame after a request for
/// a loop register asks for the one after it, and after the last one for
/// the first again, or for the summary status when a frame reported
/// something other than normal: reading the loop in order costs one frame
/// per register.
pub proof fn read_loop_is_pipelined(v: InterfaceView, i: int)
    requires
        0 <= i < v.read_loop.len(),
        v.read_loop.no_duplicates(),
    ensures
        i + 1 < v.read_loop.len() ==> next_address(v, v.read_loop[i]) == v.read_loop[i + 1],
        i + 1 == v.read_loop.len() ==> next_address(v, v.read_loop[i]) == (if v.sticky_status
            == SensorStatus::Normal {
            v.read_loop[0]
        } else {
            STAT_SUM
        }),
{
    v.read_loop.index_of_first_ensures(v.read_loop[i]);
}


/// A register read in progress: the register, and the data field that the
/// next read frame carries.
pub struct RegisterRead {
    address: u8,
    data: u32,
}

/// The register of a read in progress and the data of its next frame.
pub struct RegisterReadView {
    pub address: u8,
    pub data: u32,
}

impl View for RegisterRead {
    type V = RegisterReadView;

    closed spec fn view(&self) -> RegisterReadView {
        RegisterReadView { address: self.address, data: self.data }
    }
}

impl RegisterRead {
    /// A read of `address`; its first frame carries zero data.
    pub fn new(address: u8) -> (r: RegisterRead)
        ensures
            r@.address == address,
            r@.data == 0,
    {
        RegisterRead { address, data: 0 }
    }

    /// The next frame of the read: the register it asks for, whether its
    /// response carries the value (see `read_step`), and its data field,
    /// which is zero for the first frame and then what the previous
    /// response carried.
    pub fn next_frame(&self, iface: &Interface) -> (f: (u8, bool, u32))
        requires
            self@.address < 0xFF || iface@.read_loop.contains(self@.address),
        ensures
            (f.0, f.1) == read_step(iface@, self@.address),
            f.2 == self@.data,
    {
        let (a, last) = iface.read_frame_for(self.address);
        (a, last, self.data)
    }

    /// Takes in the data that the response to the last frame carried.
    pub fn record(&mut self, data: u32)
        ensures
            final(self)@ == (RegisterReadView { data, ..old(self)@ }),
    {
        self.data = data;
    }
}

/// The request frames of a driver made for some address pins carry the
/// chip address that the pins select, 2 * TA9 + TA8 (both pins low: 0,
/// TA8 high: 1, TA9 high: 2, both high: 3), together with the register,
/// the write bit, the 24-bit data and the CRC of the frame.
pub proof fn request_frames_carry_the_pin_address(pins: AddressPins, reg: u8, write: bool, data: u32)
    ensures
        ({
            let ta8: int = if pins == AddressPins::Ta8HighTa9Low || pins == AddressPins::Ta8HighTa9High {
                1
            } else {
                0
            };
            let ta9: int = if pins == AddressPins::Ta8LowTa9High || pins == AddressPins::Ta8HighTa9High {
                1
            } else {
                0
            };
            let f = request_word(chip_address(pins), reg, write, data);
            &&& chip_address_of(f) == 2 * ta9 + ta8
            &&& register_address_of(f) == reg
            &&& write_en_of(f) == write
            &&& frame_type_of(f)
            &&& data_of(f) == data % 0x100_0000
            &&& crc_of(f) == expected_crc(f)
        }),
{
    let chip = chip_address(pins);
    lemma_request_word(chip, reg, write, data);
    let w = (((chip % 4) as u64) * 0x4000_0000_0000u64 + (reg as u64) * 0x40_0000_0000u64 + (if write {
        0x20_0000_0000u64
    } else {
        0u64
    }) + 0x8_0000_0000u64 + ((data % 0x100_0000) as u64) * 0x100u64) as u64;
    let sum = expected_crc(w);
    let f = request_word(chip, reg, write, data);
    crate::frame::lemma_crc_adds(w, sum);
    crate::frame::lemma_crc_input_ignores_crc(w, sum as u64);
    crate::frame::lemma_crc_field(w, sum);
    assert(f == w + sum);
    let c = chip as u64;
    let r = reg as u64;
    let wb: u64 = if write { 1 } else { 0 };
    let d = data as u64;
    let s = sum as u64;
    assert({
        &&& (f >> 46u64) & 0x3u64 == c % 4
        &&& (f >> 38u64) & 0xFFu64 == r
        &&& (f >> 37u64) & 0x1u64 == wb
        &&& (f >> 35u64) & 0x1u64 == 1u64
        &&& (f >> 8u64) & 0xFF_FFFFu64 == d % 0x100_0000
        &&& f & 0xFFu64 == s
    }) by (bit_vector)
        requires
            r < 256 && d < 0x1_0000_0000 && s < 256 && c < 256 && wb < 2,
            f == (c % 4) * 0x4000_0000_0000u64 + r * 0x40_0000_0000u64 + wb * 0x20_0000_0000u64
                + 0x8_0000_0000u64 + (d % 0x100_0000) * 0x100u64 + s,
    ;
}

/// What the interface takes from the six bytes of a response, read off the
/// bytes themselves: the register address is bits 5:0 of the first byte
/// followed by bits 7:6 of the second, the status code is bits 1:0 of the
/// second byte, the data is bytes 2 to 4 most significant first, and the
/// response is rejected exactly when its register address is not zero and
/// its last byte is not the CRC-8 of a zero byte followed by the first
/// five bytes.
pub proof fn response_fields_come_from_the_bytes(b: Seq<u8>)
    requires
        b.len() == 6,
    ensures
        ({
            let w = bytes_word(b);
            let reg = (b[0] % 64) * 4 + b[1] / 64;
            &&& register_address_of(w) == reg
            &&& status_code_of(w) == b[1] % 4
            &&& data_of(w) == b[2] * 0x1_0000 + b[3] * 0x100 + b[4]
            &&& response_crc_failed(w) == (reg != 0 && b[5] != crate::crc8::frame_crc8(
                seq![0u8, b[0], b[1], b[2], b[3], b[4]],
            ))
        }),
{
    let w = bytes_word(b);
    crate::frame::frame_bytes_roundtrip(0, b);
    assert(crate::frame::crc_input(w) =~= seq![0u8, b[0], b[1], b[2], b[3], b[4]]);
    let (b0, b1, b2, b3, b4, b5) = (b[0], b[1], b[2], b[3], b[4], b[5]);
    assert({
        &&& ((w >> 38u64) & 0xFFu64) as u8 == (b0 % 64) * 4 + b1 / 64
        &&& ((w >> 32u64) & 0x3u64) as u8 == b1 % 4
        &&& ((w >> 8u64) & 0xFF_FFFFu64) as u32 == (b2 as u32) * 0x1_0000 + (b3 as u32) * 0x100
            + (b4 as u32)
        &&& (w & 0xFFu64) as u8 == b5
    }) by (bit_vector)
        requires
            w == ((b0 as u64) << 40u64) | ((b1 as u64) << 32u64) | ((b2 as u64) << 24u64) | ((
            b3 as u64) << 16u64) | ((b4 as u64) << 8u64) | (b5 as u64),
    ;
}

} // verus!
