use sch16t::frame::FrameIn;
use sch16t::interface::{Interface, RegisterRead};
use sch16t::FullStatus;
use sch16t::{AddressPins, Error, SensorStatus};

fn crc8(data: &[u8]) -> u8 {
    let mut c: u8 = 0xFF;
    for b in data {
        c ^= b;
        for _ in 0..8 {
            c = if c & 0x80 != 0 { (c << 1) ^ 0x2F } else { c << 1 };
        }
    }
    c
}

/// Response bytes for register `reg` with status code `status` and `data`.
fn response(reg: u8, status: u8, data: u32) -> [u8; 6] {
    let w: u64 = (reg as u64) << 38 | 1 << 35 | (status as u64) << 32 | ((data & 0xFF_FFFF) as u64) << 8;
    let mut b = [0u8; 6];
    for i in 0..6 {
        b[i] = (w >> (40 - 8 * i)) as u8;
    }
    let mut input = vec![0u8];
    input.extend_from_slice(&b[..5]);
    b[5] = crc8(&input);
    b
}

#[test]
fn request_frames_carry_the_chip_address() {
    let i = Interface::new(AddressPins::Ta8HighTa9Low);
    let f = i.make_frame(0x33, true, 0x8A);
    assert_eq!(f.as_bytes(), [0x4c, 0xe8, 0x00, 0x00, 0x8a, 0x6f]);
    let j = Interface::new(AddressPins::Ta8HighTa9High);
    assert_eq!(j.make_frame(0x01, false, 0).as_bytes(), [0xc0, 0x48, 0x00, 0x00, 0x00, 0x93]);
}

#[test]
fn next_address_without_loop_is_the_following_register() {
    let i = Interface::new(AddressPins::Ta8LowTa9Low);
    assert_eq!(i.next_addr(0x14), 0x15);
    assert_eq!(i.next_addr(0x00), 0x01);
}

#[test]
fn next_address_follows_the_read_loop() {
    let mut i = Interface::new(AddressPins::Ta8LowTa9Low);
    i.set_read_loop_addrs(heapless::Vec::from_slice(&[1, 2, 3, 0x10]).unwrap());
    assert_eq!(i.next_addr(1), 2);
    assert_eq!(i.next_addr(3), 0x10);
    // the status is still initialising: after the loop comes the summary
    assert_eq!(i.next_addr(0x10), 0x14);
    i.clear_sticky_status();
    assert_eq!(i.sticky_status(), SensorStatus::Normal);
    assert_eq!(i.next_addr(0x10), 1);
    assert_eq!(i.next_addr(0x20), 0x21);
}

#[test]
fn first_occurrence_in_loop_counts() {
    let mut i = Interface::new(AddressPins::Ta8LowTa9Low);
    i.set_read_loop_addrs(heapless::Vec::from_slice(&[5, 6, 5, 7]).unwrap());
    assert_eq!(i.next_addr(5), 6);
}

#[test]
fn register_read_takes_address_frame_then_value_frame() {
    let mut i = Interface::new(AddressPins::Ta8LowTa9Low);
    assert_eq!(i.read_frame_for(0x14), (0x14, false));
    let r: Result<u32, Error<()>> = i.finish_transfer(0x14, response(0, 1, 0));
    assert!(matches!(r, Ok(0)));
    assert_eq!(i.read_frame_for(0x14), (0x15, true));
    let r: Result<u32, Error<()>> = i.finish_transfer(0x15, response(0x14, 1, 0xC000));
    assert!(matches!(r, Ok(0xC000)));
    // the next register in order is already requested
    assert_eq!(i.read_frame_for(0x15), (0x16, true));
    assert_eq!(i.read_frame_for(0x20), (0x20, false));
}

#[test]
fn bad_crc_is_an_error_and_changes_nothing() {
    let mut i = Interface::new(AddressPins::Ta8LowTa9Low);
    let mut bytes = response(0x14, 3, 0x1234);
    bytes[5] ^= 1;
    let r: Result<u32, Error<()>> = i.finish_transfer(0x15, bytes);
    assert!(matches!(r, Err(Error::Crc)));
    assert_eq!(i.sticky_status(), SensorStatus::Initialization);
    assert_eq!(i.read_frame_for(0x15), (0x15, false));
}

#[test]
fn response_to_address_zero_is_not_checked() {
    let mut i = Interface::new(AddressPins::Ta8LowTa9Low);
    let mut bytes = response(0, 1, 0x42);
    bytes[5] ^= 0xFF;
    let mut f = FrameIn::from_bytes(bytes);
    assert!(!f.crc_ok());
    let r: Result<u32, Error<()>> = i.finish_transfer(0x14, bytes);
    assert!(matches!(r, Ok(0x42)));
}

#[test]
fn sticky_status_keeps_the_worst() {
    let mut i = Interface::new(AddressPins::Ta8LowTa9Low);
    let steps: [(u8, SensorStatus); 6] = [
        (1, SensorStatus::Normal),
        (2, SensorStatus::Saturation),
        (1, SensorStatus::Saturation),
        (0, SensorStatus::Saturation),
        (3, SensorStatus::SensorError),
        (1, SensorStatus::SensorError),
    ];
    for (code, expected) in steps {
        let r: Result<u32, Error<()>> = i.finish_transfer(1, response(1, code, 0));
        assert!(r.is_ok());
        assert_eq!(i.sticky_status(), expected);
    }
    i.clear_sticky_status();
    let r: Result<u32, Error<()>> = i.finish_transfer(1, response(1, 0, 0));
    assert!(r.is_ok());
    assert_eq!(i.sticky_status(), SensorStatus::Initialization);
}

#[test]
fn read_frames_carry_the_previous_response() {
    let mut i = Interface::new(AddressPins::Ta8LowTa9High);
    assert_eq!(i.address(), 2);
    let mut read = RegisterRead::new(0x14);
    assert_eq!(read.next_frame(&i), (0x14, false, 0));
    let r: Result<u32, Error<()>> = i.finish_transfer(0x14, response(0, 1, 0x77));
    read.record(r.ok().unwrap());
    assert_eq!(read.next_frame(&i), (0x15, true, 0x77));
}

#[test]
fn default_full_status_is_all_clear() {
    let s = FullStatus::default();
    assert!(!s.init_ok());
    assert!(!s.sum.init_rdy && !s.com.mclk_ok && !s.acc_z.stc_n_ok);
    assert_eq!(s.sync_active.bits, 0);
    assert_eq!(s.info.bits, 0);
}
