use sch16t::registers::{
    acc_ctrl_matches, acc_ctrl_value, axis_value, data_counter_value, filter_value,
    filter_value_holds, freq_counter_value, full_status_value, rate_ctrl_matches, rate_ctrl_value,
    temperature_value, user_if_matches, user_if_value,
};
use sch16t::status::{StatAccFields, StatComFields, StatRateComFields, StatRateFields, StatSumFields};
use sch16t::{
    AccDynamicRange, Config, DataCounter, DecimationRatio, Filter, HiSpd, Polarity,
    RateDynamicRange, SampleMode, SpiSupply, SyncDryMode,
};

fn custom_config() -> Config {
    Config {
        sample_mode: SampleMode::Decimation,
        dry_sync_mode: SyncDryMode::Dry,
        include_temperature: true,
        rate_range: RateDynamicRange::Dyn1,
        rate_x_lpf: Filter::Lpf1,
        rate_y_lpf: Filter::Lpf2,
        rate_z_lpf: Filter::Lpf3,
        rate_x_dec: DecimationRatio::Dec4,
        rate_y_dec: DecimationRatio::Dec5,
        accel_range: AccDynamicRange::Dyn2,
        accel_x_lpf: Filter::Lpf0,
        hi_speed: HiSpd::Mhz25,
        ..Default::default()
    }
}

#[test]
fn control_register_values() {
    let c = custom_config();
    // sync bits clear, data ready output set, polarity codes 0, drive strength 1 in bits 5 and 6
    assert_eq!(user_if_value(&c), 4 + 32 + 64);
    // range 1 twice, decimation 3, 4, 0
    assert_eq!(rate_ctrl_value(&c), 1 + 8 + 64 * 3 + 512 * 4);
    assert_eq!(acc_ctrl_value(&c), 2 + 16);
    assert_eq!(filter_value(Filter::Lpf1, Filter::Lpf2, Filter::Lpf3), 1 + 16 + 192);
    assert_eq!(filter_value(Filter::Lpf7, Filter::Lpf0, Filter::Lpf7), 7 + 7 * 64);
}

#[test]
fn written_values_read_back() {
    let c = custom_config();
    assert!(user_if_matches(user_if_value(&c), &c));
    assert!(rate_ctrl_matches(rate_ctrl_value(&c), &c));
    assert!(acc_ctrl_matches(acc_ctrl_value(&c), &c));
    let f = filter_value(c.rate_x_lpf, c.rate_y_lpf, c.rate_z_lpf);
    assert!(filter_value_holds(f, c.rate_x_lpf, c.rate_y_lpf, c.rate_z_lpf));
    let d = Config::default();
    assert!(user_if_matches(user_if_value(&d), &d));
    assert_eq!(user_if_value(&d), 0);
}

#[test]
fn mismatches_are_found() {
    let c = custom_config();
    assert!(!user_if_matches(user_if_value(&c) ^ 0x80, &c));
    assert!(!rate_ctrl_matches(rate_ctrl_value(&c) ^ 0x8, &c));
    // a range code that stands for no range
    assert!(!acc_ctrl_matches(0, &c));
    // filter code 6 stands for no filter
    assert!(!filter_value_holds(6, Filter::Lpf7, Filter::Lpf0, Filter::Lpf0));
    let sync = Config {
        dry_sync_mode: SyncDryMode::Sync,
        dry_sync_pol: Polarity::ActiveLow,
        spi_supply: SpiSupply::V18,
        ..Default::default()
    };
    assert_eq!(user_if_value(&sync), 1 + 2 + 8 + 16 + 128);
    assert!(user_if_matches(user_if_value(&sync), &sync));
    assert!(!user_if_matches(user_if_value(&sync), &Config::default()));
}

#[test]
fn axis_values_are_twenty_bit_signed() {
    assert_eq!(axis_value(0x000001), 1);
    assert_eq!(axis_value(0x07FFFF), 524287);
    assert_eq!(axis_value(0x080000), -524288);
    assert_eq!(axis_value(0x0FFFFF), -1);
    assert_eq!(axis_value(0xF00010), 16);
}

#[test]
fn other_outputs_decode() {
    assert_eq!(temperature_value(2500), 2500);
    assert_eq!(temperature_value(0xFF9C), -100);
    assert_eq!(temperature_value(0x12_8000), -32768);
    assert_eq!(data_counter_value(0x030201), DataCounter { x: 1, y: 2, z: 3 });
    assert_eq!(freq_counter_value(0xAB_CDEF), 0xCDEF);
}

#[test]
fn status_fields_decode() {
    let s = StatSumFields::from_bits(0xC000);
    assert!(s.init_rdy && s.cmn && !s.rate_x && !s.acc_z);
    let com = StatComFields::from_bits(0x7FF);
    assert!(com.ok());
    assert!(!StatComFields::from_bits(0x7FE).ok());
    assert!(StatRateComFields::from_bits(0x7F).ok());
    assert!(!StatRateComFields::from_bits(0x3F).ok());
    assert!(StatRateFields::from_bits(0x7).ok());
    assert!(!StatRateFields::from_bits(0x5).ok());
    assert!(StatAccFields::from_bits(0xF).ok());
    assert!(!StatAccFields::from_bits(0xE).ok());
}

fn good_status_values() -> Vec<u32> {
    vec![0xFF00, 0xFFF0, 0x7FF, 0x7F, 0x7, 0x7, 0x7, 0xF, 0xF, 0xF, 0x1234, 0xABCD]
}

#[test]
fn full_status_checks() {
    let v = good_status_values();
    let s = full_status_value(&v, 0);
    assert!(s.init_ok());
    assert_eq!(s.sync_active.bits, 0x1234);
    assert_eq!(s.info.bits, 0xABCD);
    // saturation does not count at start-up
    let mut sat = v.clone();
    sat[1] = 0;
    assert!(full_status_value(&sat, 0).init_ok());
    let mut not_ready = v.clone();
    not_ready[0] = 0x7F00;
    assert!(!full_status_value(&not_ready, 0).init_ok());
    let mut bad_axis = v.clone();
    bad_axis[9] = 0x7;
    assert!(!full_status_value(&bad_axis, 0).init_ok());
    let mut shifted = vec![0u32; 3];
    shifted.extend_from_slice(&v);
    assert_eq!(full_status_value(&shifted, 3), s);
}
