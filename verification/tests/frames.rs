use sch16t::frame::{FrameIn, FrameOut};
use sch16t::SensorStatus;

#[test]
fn request_frame_bytes_and_crc() {
    let mut f = FrameOut::default();
    f.set_register_address(0x14);
    f.set_frame_type(true);
    let sum = f.compute_crc();
    assert_eq!(sum, 0x1c);
    assert_eq!(f.crc(), 0x1c);
    assert_eq!(f.as_bytes(), [0x05, 0x08, 0x00, 0x00, 0x00, 0x1c]);
    assert_eq!(f.word(), 0x0508_0000_001c);
}

#[test]
fn write_frame_with_every_field() {
    let mut f = FrameOut::default();
    f.set_chip_address(1);
    f.set_register_address(0x33);
    f.set_write_en(true);
    f.set_frame_type(true);
    f.set_data(0x8A);
    assert_eq!(f.compute_crc(), 0x6f);
    assert_eq!(f.as_bytes(), [0x4c, 0xe8, 0x00, 0x00, 0x8a, 0x6f]);
}

#[test]
fn crc_ignores_previous_crc_field() {
    let mut f = FrameOut::default();
    f.set_register_address(0x14);
    f.set_frame_type(true);
    f.set_crc(0xAA);
    assert_eq!(f.compute_crc(), 0x1c);
}

#[test]
fn data_field_keeps_low_24_bits() {
    let mut f = FrameOut::default();
    f.set_data(0xFF12_3456);
    assert_eq!(f.word(), 0x0000_1234_5600);
    f.set_chip_address(7);
    assert_eq!(f.word() >> 46, 3);
}

#[test]
fn response_frame_fields() {
    let f = FrameIn::from_bytes([0x05, 0x09, 0x00, 0xc0, 0x00, 0x3a]);
    assert_eq!(f.register_address(), 0x14);
    assert_eq!(f.chip_address(), 0);
    assert!(!f.write_en());
    assert!(f.frame_type());
    assert_eq!(f.sensor_status(), SensorStatus::Normal);
    assert_eq!(f.data(), 0x00c000);
    assert_eq!(f.crc(), 0x3a);
}

#[test]
fn response_crc_check() {
    let mut good = FrameIn::from_bytes([0x05, 0x09, 0x00, 0xc0, 0x00, 0x3a]);
    assert!(good.crc_ok());
    assert_eq!(good.crc(), 0x3a);
    let mut bad = FrameIn::from_bytes([0x05, 0x09, 0x00, 0xc0, 0x00, 0x3b]);
    assert!(!bad.crc_ok());
    assert_eq!(bad.crc(), 0x3b);
    assert_eq!(bad.compute_crc(), 0x3a);
    assert_eq!(bad.crc(), 0x3a);
}

#[test]
fn response_status_codes() {
    let sat = FrameIn::from_bytes([0x00, 0x4a, 0x0f, 0xff, 0xff, 0x49]);
    assert_eq!(sat.sensor_status(), SensorStatus::Saturation);
    assert_eq!(sat.data(), 0x0fffff);
    let err = FrameIn::from_bytes([0x00, 0x4b, 0x00, 0x01, 0x23, 0xb7]);
    assert_eq!(err.sensor_status(), SensorStatus::SensorError);
    let init = FrameIn::from_bytes([0x00, 0x48, 0x00, 0x01, 0x23, 0x47]);
    assert_eq!(init.sensor_status(), SensorStatus::Initialization);
}

#[test]
fn sent_frame_passes_check_on_receipt() {
    let mut f = FrameOut::default();
    f.set_chip_address(2);
    f.set_register_address(0x36);
    f.set_write_en(true);
    f.set_frame_type(true);
    f.set_data(0x0A);
    f.compute_crc();
    let bytes = f.as_bytes();
    assert_eq!(bytes, [0x8d, 0xa8, 0x00, 0x00, 0x0a, 0xe9]);
    let mut back = FrameIn::from_bytes(bytes);
    assert_eq!(back.word(), f.word());
    assert!(back.crc_ok());
}
