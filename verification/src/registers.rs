//! The register map of the SCH16T: register addresses, how the control
//! registers encode a configuration, and how the output and status
//! registers decode into values. Register values are the 24-bit data
//! fields of the frames.
use vstd::prelude::*;
use crate::config::{Config, SyncDryMode};
use crate::sample::DataCounter;
use crate::settings::{
    AccDynamicRange, DecimationRatio, Filter, HiSpd, Polarity, RateDynamicRange, SpiSupply,
    acc_range_code, acc_range_from_code, decimation_code, decimation_from_code,
    filter_code, filter_from_code, hi_speed_code, hi_speed_from_code, polarity_code,
    polarity_from_code, rate_range_code, rate_range_from_code, spi_supply_code,
    spi_supply_from_code,
};
use crate::status::{
    FullStatus, StatAccFields, StatComFields, StatInfoFields, StatRateComFields, StatRateFields,
    StatSumFields, StatSumSatFields, StatSyncActiveFields,
};

verus! {

/// Interpolated gyroscope x.
pub const RATE_X1: u8 = 0x01;
/// Interpolated gyroscope y.
pub const RATE_Y1: u8 = 0x02;
/// Interpolated gyroscope z.
pub const RATE_Z1: u8 = 0x03;
/// Interpolated accelerometer x.
pub const ACC_X1: u8 = 0x04;
/// Interpolated accelerometer y.
pub const ACC_Y1: u8 = 0x05;
/// Interpolated accelerometer z.
pub const ACC_Z1: u8 = 0x06;
/// Decimated gyroscope x.
pub const RATE_X2: u8 = 0x0A;
/// Decimated gyroscope y.
pub const RATE_Y2: u8 = 0x0B;
/// Decimated gyroscope z.
pub const RATE_Z2: u8 = 0x0C;
/// Decimated accelerometer x.
pub const ACC_X2: u8 = 0x0D;
/// Decimated accelerometer y.
pub const ACC_Y2: u8 = 0x0E;
/// Decimated accelerometer z.
pub const ACC_Z2: u8 = 0x0F;
/// Temperature.
pub const TEMP: u8 = 0x10;
/// Gyroscope data counters.
pub const RATE_DCNT: u8 = 0x11;
/// Accelerometer data counters.
pub const ACC_DCNT: u8 = 0x12;
/// Clock counter.
pub const FREQ_CNTR: u8 = 0x13;
/// Summary status.
pub const STAT_SUM: u8 = 0x14;
/// Saturation summary status.
pub const STAT_SUM_SAT: u8 = 0x15;
/// Common block status.
pub const STAT_COM: u8 = 0x16;
/// Shared gyroscope block status.
pub const STAT_RATE_COM: u8 = 0x17;
/// Gyroscope x status.
pub const STAT_RATE_X: u8 = 0x18;
/// Gyroscope y status.
pub const STAT_RATE_Y: u8 = 0x19;
/// Gyroscope z status.
pub const STAT_RATE_Z: u8 = 0x1A;
/// Accelerometer x status.
pub const STAT_ACC_X: u8 = 0x1B;
/// Accelerometer y status.
pub const STAT_ACC_Y: u8 = 0x1C;
/// Accelerometer z status.
pub const STAT_ACC_Z: u8 = 0x1D;
/// Synchronisation status.
pub const STAT_SYNC_ACTIVE: u8 = 0x1E;
/// Information register.
pub const STAT_INFO: u8 = 0x1F;
/// Gyroscope low pass filters.
pub const CTRL_FILT_RATE: u8 = 0x25;
/// Accelerometer low pass filters.
pub const CTRL_FILT_ACC12: u8 = 0x26;
/// Gyroscope range and decimation.
pub const CTRL_RATE: u8 = 0x28;
/// Accelerometer range and decimation.
pub const CTRL_ACC12: u8 = 0x29;
/// Interface settings.
pub const CTRL_USER_IF: u8 = 0x33;
/// Operation mode.
pub const CTRL_MODE: u8 = 0x35;
/// Reset control.
pub const CTRL_RESET: u8 = 0x36;

/// The value written to `CTRL_RESET` to reset the sensor.
pub const RESET_COMMAND: u32 = 0x0A;
/// `CTRL_MODE` with the sensor enabled.
pub const MODE_EN_SENSOR: u32 = 0x1;
/// `CTRL_MODE` with the sensor enabled and the end of initialisation set.
pub const MODE_EOI_EN_SENSOR: u32 = 0x3;

/// The three-bit code in a register value at `unit` (a power of two).
pub open spec fn code3_at(d: u32, unit: u32) -> u8 {
    ((d / unit) % 8) as u8
}

/// The one-bit code in a register value at `unit` (a power of two).
pub open spec fn code1_at(d: u32, unit: u32) -> u8 {
    ((d / unit) % 2) as u8
}

/// A flag as a one-bit code.
pub open spec fn flag_code(b: bool) -> u32 {
    if b { 1 } else { 0 }
}

/// The low pass filter register value for the filters of three axes:
/// x in bits 2:0, y in bits 5:3, z in bits 8:6.
pub open spec fn filter_word(x: Filter, y: Filter, z: Filter) -> u32 {
    (filter_code(x) + 8 * filter_code(y) + 64 * filter_code(z)) as u32
}

/// Whether a low pass filter register value holds the filters `x`, `y`
/// and `z`.
pub open spec fn filter_word_holds(d: u32, x: Filter, y: Filter, z: Filter) -> bool {
    &&& filter_from_code(code3_at(d, 1)) == Some(x)
    &&& filter_from_code(code3_at(d, 8)) == Some(y)
    &&& filter_from_code(code3_at(d, 64)) == Some(z)
}

/// `CTRL_RATE` for a configuration: the range in bits 2:0 and 5:3, the
/// decimation ratios of x, y and z in bits 8:6, 11:9 and 14:12.
pub open spec fn rate_ctrl_word(c: Config) -> u32 {
    (rate_range_code(c.rate_range) + 8 * rate_range_code(c.rate_range) + 64 * decimation_code(
        c.rate_x_dec,
    ) + 512 * decimation_code(c.rate_y_dec) + 4096 * decimation_code(c.rate_z_dec)) as u32
}

/// Whether a `CTRL_RATE` value holds the gyroscope settings of `c`.
pub open spec fn rate_ctrl_holds(d: u32, c: Config) -> bool {
    &&& rate_range_from_code(code3_at(d, 1)) == Some(c.rate_range)
    &&& rate_range_from_code(code3_at(d, 8)) == Some(c.rate_range)
    &&& decimation_from_code(code3_at(d, 64)) == Some(c.rate_x_dec)
    &&& decimation_from_code(code3_at(d, 512)) == Some(c.rate_y_dec)
    &&& decimation_from_code(code3_at(d, 4096)) == Some(c.rate_z_dec)
}

/// `CTRL_ACC12` for a configuration, laid out as `CTRL_RATE`.
pub open spec fn acc_ctrl_word(c: Config) -> u32 {
    (acc_range_code(c.accel_range) + 8 * acc_range_code(c.accel_range) + 64 * decimation_code(
        c.accel_x_dec,
    ) + 512 * decimation_code(c.accel_y_dec) + 4096 * decimation_code(c.accel_z_dec)) as u32
}

/// Whether a `CTRL_ACC12` value holds the accelerometer settings of `c`.
pub open spec fn acc_ctrl_holds(d: u32, c: Config) -> bool {
    &&& acc_range_from_code(code3_at(d, 1)) == Some(c.accel_range)
    &&& acc_range_from_code(code3_at(d, 8)) == Some(c.accel_range)
    &&& decimation_from_code(code3_at(d, 64)) == Some(c.accel_x_dec)
    &&& decimation_from_code(code3_at(d, 512)) == Some(c.accel_y_dec)
    &&& decimation_from_code(code3_at(d, 4096)) == Some(c.accel_z_dec)
}

/// `CTRL_USER_IF` for a configuration: bit 0 synchronised interpolation,
/// bit 1 synchronised decimation (both on in sync mode), bit 2 data ready
/// output (on in data ready mode), bits 3 and 4 the polarity of SYNC and
/// DRY, bits 5 and 6 the drive strength of MISO and DRY, bit 7 the SPI
/// supply.
pub open spec fn user_if_word(c: Config) -> u32 {
    (flag_code(c.dry_sync_mode == SyncDryMode::Sync) + 2 * flag_code(
        c.dry_sync_mode == SyncDryMode::Sync,
    ) + 4 * flag_code(c.dry_sync_mode == SyncDryMode::Dry) + 8 * polarity_code(c.dry_sync_pol)
        + 16 * polarity_code(c.dry_sync_pol) + 32 * hi_speed_code(c.hi_speed) + 64 * hi_speed_code(
        c.hi_speed,
    ) + 128 * spi_supply_code(c.spi_supply)) as u32
}

/// Whether a `CTRL_USER_IF` value holds the interface settings of `c`.
pub open spec fn user_if_holds(d: u32, c: Config) -> bool {
    &&& spi_supply_from_code(code1_at(d, 128)) == Some(c.spi_supply)
    &&& (code1_at(d, 2) == 1) == (c.dry_sync_mode == SyncDryMode::Sync)
    &&& (code1_at(d, 1) == 1) == (c.dry_sync_mode == SyncDryMode::Sync)
    &&& (code1_at(d, 4) == 1) == (c.dry_sync_mode == SyncDryMode::Dry)
    &&& polarity_from_code(code1_at(d, 8)) == Some(c.dry_sync_pol)
    &&& polarity_from_code(code1_at(d, 16)) == Some(c.dry_sync_pol)
    &&& hi_speed_from_code(code1_at(d, 32)) == Some(c.hi_speed)
    &&& hi_speed_from_code(code1_at(d, 64)) == Some(c.hi_speed)
}

/// The low pass filter register value for three axes.
pub fn filter_value(x: Filter, y: Filter, z: Filter) -> (d: u32)
    ensures
        d == filter_word(x, y, z),
{
    proof {
        crate::settings::filter_code_reads_back(x, 0);
        crate::settings::filter_code_reads_back(y, 0);
        crate::settings::filter_code_reads_back(z, 0);
    }
    x.code() as u32 + 8 * (y.code() as u32) + 64 * (z.code() as u32)
}

/// Whether a low pass filter register value holds `x`, `y` and `z`.
pub fn filter_value_holds(d: u32, x: Filter, y: Filter, z: Filter) -> (r: bool)
    ensures
        r == filter_word_holds(d, x, y, z),
{
    Filter::from_code((d % 8) as u8) == Some(x) && Filter::from_code(((d / 8) % 8) as u8) == Some(
        y,
    ) && Filter::from_code(((d / 64) % 8) as u8) == Some(z)
}

/// `CTRL_RATE` for a configuration.
pub fn rate_ctrl_value(c: &Config) -> (d: u32)
    ensures
        d == rate_ctrl_word(*c),
{
    proof {
        crate::settings::rate_range_code_reads_back(c.rate_range, 0);
        crate::settings::decimation_code_reads_back(c.rate_x_dec, 0);
        crate::settings::decimation_code_reads_back(c.rate_y_dec, 0);
        crate::settings::decimation_code_reads_back(c.rate_z_dec, 0);
    }
    let r = c.rate_range.code() as u32;
    r + 8 * r + 64 * (c.rate_x_dec.code() as u32) + 512 * (c.rate_y_dec.code() as u32) + 4096 * (
    c.rate_z_dec.code() as u32)
}

/// Whether a `CTRL_RATE` value holds the gyroscope settings of `c`.
pub fn rate_ctrl_matches(d: u32, c: &Config) -> (r: bool)
    ensures
        r == rate_ctrl_holds(d, *c),
{
    RateDynamicRange::from_code((d % 8) as u8) == Some(c.rate_range)
        && RateDynamicRange::from_code(((d / 8) % 8) as u8) == Some(c.rate_range)
        && DecimationRatio::from_code(((d / 64) % 8) as u8) == Some(c.rate_x_dec)
        && DecimationRatio::from_code(((d / 512) % 8) as u8) == Some(c.rate_y_dec)
        && DecimationRatio::from_code(((d / 4096) % 8) as u8) == Some(c.rate_z_dec)
}

/// `CTRL_ACC12` for a configuration.
pub fn acc_ctrl_value(c: &Config) -> (d: u32)
    ensures
        d == acc_ctrl_word(*c),
{
    proof {
        crate::settings::acc_range_code_reads_back(c.accel_range, 0);
        crate::settings::decimation_code_reads_back(c.accel_x_dec, 0);
        crate::settings::decimation_code_reads_back(c.accel_y_dec, 0);
        crate::settings::decimation_code_reads_back(c.accel_z_dec, 0);
    }
    let r = c.accel_range.code() as u32;
    r + 8 * r + 64 * (c.accel_x_dec.code() as u32) + 512 * (c.accel_y_dec.code() as u32) + 4096
        * (c.accel_z_dec.code() as u32)
}

/// Whether a `CTRL_ACC12` value holds the accelerometer settings of `c`.
pub fn acc_ctrl_matches(d: u32, c: &Config) -> (r: bool)
    ensures
        r == acc_ctrl_holds(d, *c),
{
    AccDynamicRange::from_code((d % 8) as u8) == Some(c.accel_range)
        && AccDynamicRange::from_code(((d / 8) % 8) as u8) == Some(c.accel_range)
        && DecimationRatio::from_code(((d / 64) % 8) as u8) == Some(c.accel_x_dec)
        && DecimationRatio::from_code(((d / 512) % 8) as u8) == Some(c.accel_y_dec)
        && DecimationRatio::from_code(((d / 4096) % 8) as u8) == Some(c.accel_z_dec)
}

/// `CTRL_USER_IF` for a configuration.
pub fn user_if_value(c: &Config) -> (d: u32)
    ensures
        d == user_if_word(*c),
{
    proof {
        crate::settings::polarity_code_reads_back(c.dry_sync_pol, 0);
        crate::settings::hi_speed_code_reads_back(c.hi_speed, 0);
        crate::settings::spi_supply_code_reads_back(c.spi_supply, 0);
    }
    let sync: u32 = if c.dry_sync_mode == SyncDryMode::Sync { 1 } else { 0 };
    let dry: u32 = if c.dry_sync_mode == SyncDryMode::Dry { 1 } else { 0 };
    let pol = c.dry_sync_pol.code() as u32;
    let spd = c.hi_speed.code() as u32;
    sync + 2 * sync + 4 * dry + 8 * pol + 16 * pol + 32 * spd + 64 * spd + 128 * (
    c.spi_supply.code() as u32)
}

/// Whether a `CTRL_USER_IF` value holds the interface settings of `c`.
pub fn user_if_matches(d: u32, c: &Config) -> (r: bool)
    ensures
        r == user_if_holds(d, *c),
{
    SpiSupply::from_code(((d / 128) % 2) as u8) == Some(c.spi_supply) && ((d / 2) % 2 == 1) == (
    c.dry_sync_mode == SyncDryMode::Sync) && (d % 2 == 1) == (c.dry_sync_mode == SyncDryMode::Sync)
        && ((d / 4) % 2 == 1) == (c.dry_sync_mode == SyncDryMode::Dry) && Polarity::from_code(
        ((d / 8) % 2) as u8,
    ) == Some(c.dry_sync_pol) && Polarity::from_code(((d / 16) % 2) as u8) == Some(c.dry_sync_pol)
        && HiSpd::from_code(((d / 32) % 2) as u8) == Some(c.hi_speed) && HiSpd::from_code(
        ((d / 64) % 2) as u8,
    ) == Some(c.hi_speed)
}

proof fn lemma_pack3(a: u32, b: u32, c: u32, d: u32, e: u32)
    requires
        a < 8,
        b < 8,
        c < 8,
        d < 8,
        e < 8,
    ensures
        ({
            let w = (a + 8 * b + 64 * c + 512 * d + 4096 * e) as u32;
            &&& code3_at(w, 1) == a
            &&& code3_at(w, 8) == b
            &&& code3_at(w, 64) == c
            &&& code3_at(w, 512) == d
            &&& code3_at(w, 4096) == e
        }),
{
    let w = (a + 8 * b + 64 * c + 512 * d + 4096 * e) as u32;
    assert(w % 8 == a && (w / 8) % 8 == b && (w / 64) % 8 == c && (w / 512) % 8 == d
        && (w / 4096) % 8 == e) by (bit_vector)
        requires
            a < 8 && b < 8 && c < 8 && d < 8 && e < 8,
            w == a + 8 * b + 64 * c + 512 * d + 4096 * e,
    ;
}

proof fn lemma_pack1(a: u32, b: u32, c: u32, d: u32, e: u32, f: u32, g: u32, h: u32)
    requires
        a < 2,
        b < 2,
        c < 2,
        d < 2,
        e < 2,
        f < 2,
        g < 2,
        h < 2,
    ensures
        ({
            let w = (a + 2 * b + 4 * c + 8 * d + 16 * e + 32 * f + 64 * g + 128 * h) as u32;
            &&& code1_at(w, 1) == a
            &&& code1_at(w, 2) == b
            &&& code1_at(w, 4) == c
            &&& code1_at(w, 8) == d
            &&& code1_at(w, 16) == e
            &&& code1_at(w, 32) == f
            &&& code1_at(w, 64) == g
            &&& code1_at(w, 128) == h
        }),
{
    let w = (a + 2 * b + 4 * c + 8 * d + 16 * e + 32 * f + 64 * g + 128 * h) as u32;
    assert(w % 2 == a && (w / 2) % 2 == b && (w / 4) % 2 == c && (w / 8) % 2 == d && (w / 16) % 2
        == e && (w / 32) % 2 == f && (w / 64) % 2 == g && (w / 128) % 2 == h) by (bit_vector)
        requires
            a < 2 && b < 2 && c < 2 && d < 2 && e < 2 && f < 2 && g < 2 && h < 2,
            w == a + 2 * b + 4 * c + 8 * d + 16 * e + 32 * f + 64 * g + 128 * h,
    ;
}

/// The interface register written for a configuration reads back as it.
pub proof fn user_if_reads_back(c: Config)
    ensures
        user_if_holds(user_if_word(c), c),
{
    crate::settings::polarity_code_reads_back(c.dry_sync_pol, 0);
    crate::settings::hi_speed_code_reads_back(c.hi_speed, 0);
    crate::settings::spi_supply_code_reads_back(c.spi_supply, 0);
    let sync = flag_code(c.dry_sync_mode == SyncDryMode::Sync);
    let dry = flag_code(c.dry_sync_mode == SyncDryMode::Dry);
    let pol = polarity_code(c.dry_sync_pol) as u32;
    let spd = hi_speed_code(c.hi_speed) as u32;
    let sup = spi_supply_code(c.spi_supply) as u32;
    lemma_pack1(sync, sync, dry, pol, pol, spd, spd, sup);
    assert(user_if_word(c) == (sync + 2 * sync + 4 * dry + 8 * pol + 16 * pol + 32 * spd + 64 * spd
        + 128 * sup) as u32);
}

/// The gyroscope control register written for a configuration reads back
/// as it.
pub proof fn rate_ctrl_reads_back(c: Config)
    ensures
        rate_ctrl_holds(rate_ctrl_word(c), c),
{
    crate::settings::rate_range_code_reads_back(c.rate_range, 0);
    crate::settings::decimation_code_reads_back(c.rate_x_dec, 0);
    crate::settings::decimation_code_reads_back(c.rate_y_dec, 0);
    crate::settings::decimation_code_reads_back(c.rate_z_dec, 0);
    let r = rate_range_code(c.rate_range) as u32;
    let x = decimation_code(c.rate_x_dec) as u32;
    let y = decimation_code(c.rate_y_dec) as u32;
    let z = decimation_code(c.rate_z_dec) as u32;
    lemma_pack3(r, r, x, y, z);
    assert(rate_ctrl_word(c) == (r + 8 * r + 64 * x + 512 * y + 4096 * z) as u32);
}

/// The accelerometer control register written for a configuration reads
/// back as it.
pub proof fn acc_ctrl_reads_back(c: Config)
    ensures
        acc_ctrl_holds(acc_ctrl_word(c), c),
{
    crate::settings::acc_range_code_reads_back(c.accel_range, 0);
    crate::settings::decimation_code_reads_back(c.accel_x_dec, 0);
    crate::settings::decimation_code_reads_back(c.accel_y_dec, 0);
    crate::settings::decimation_code_reads_back(c.accel_z_dec, 0);
    let r = acc_range_code(c.accel_range) as u32;
    let x = decimation_code(c.accel_x_dec) as u32;
    let y = decimation_code(c.accel_y_dec) as u32;
    let z = decimation_code(c.accel_z_dec) as u32;
    lemma_pack3(r, r, x, y, z);
    assert(acc_ctrl_word(c) == (r + 8 * r + 64 * x + 512 * y + 4096 * z) as u32);
}

/// A low pass filter register written for three filters reads back as
/// them.
pub proof fn filter_reads_back(x: Filter, y: Filter, z: Filter)
    ensures
        filter_word_holds(filter_word(x, y, z), x, y, z),
{
    crate::settings::filter_code_reads_back(x, 0);
    crate::settings::filter_code_reads_back(y, 0);
    crate::settings::filter_code_reads_back(z, 0);
    let a = filter_code(x) as u32;
    let b = filter_code(y) as u32;
    let d = filter_code(z) as u32;
    lemma_pack3(a, b, d, 0, 0);
    assert(filter_word(x, y, z) == (a + 8 * b + 64 * d + 512 * 0 + 4096 * 0) as u32);
}

/// The measurement of an output register: a 20-bit two's complement
/// number in bits 19:0.
pub open spec fn axis_value_of(d: u32) -> int {
    let v = d % 0x10_0000;
    if v >= 0x8_0000 {
        v - 0x10_0000
    } else {
        v as int
    }
}

/// Decodes the measurement of an output register.
pub fn axis_value(d: u32) -> (v: i32)
    ensures
        v as int == axis_value_of(d),
{
    let v = d % 0x10_0000;
    if v >= 0x8_0000 {
        (v as i32) - 0x10_0000
    } else {
        v as i32
    }
}

/// The temperature register's value: a 16-bit two's complement number in
/// bits 15:0, 100 LSB per degree Celsius.
pub open spec fn temperature_of(d: u32) -> int {
    let v = d % 0x1_0000;
    if v >= 0x8000 {
        v - 0x1_0000
    } else {
        v as int
    }
}

/// Decodes the temperature register.
pub fn temperature_value(d: u32) -> (t: i16)
    ensures
        t as int == temperature_of(d),
{
    let v = d % 0x1_0000;
    if v >= 0x8000 {
        ((v as i32) - 0x1_0000) as i16
    } else {
        v as i16
    }
}

/// The counters of a data counter register: x in bits 7:0, y in bits 15:8,
/// z in bits 23:16.
pub open spec fn data_counter_of(d: u32) -> DataCounter {
    DataCounter { x: (d % 0x100) as u8, y: ((d / 0x100) % 0x100) as u8, z: ((d / 0x1_0000) % 0x100) as u8 }
}

/// Decodes a data counter register.
pub fn data_counter_value(d: u32) -> (c: DataCounter)
    ensures
        c == data_counter_of(d),
{
    DataCounter {
        x: (d % 0x100) as u8,
        y: ((d / 0x100) % 0x100) as u8,
        z: ((d / 0x1_0000) % 0x100) as u8,
    }
}

/// Decodes the clock counter register: bits 15:0.
pub fn freq_counter_value(d: u32) -> (f: u16)
    ensures
        f == d % 0x1_0000,
{
    (d % 0x1_0000) as u16
}

/// The status registers in the order in which a full status is read:
/// `STAT_SUM` up to `STAT_INFO`, at consecutive addresses.
pub open spec fn full_status_addresses() -> Seq<u8> {
    Seq::new(12, |i: int| (STAT_SUM + i) as u8)
}

/// The full status that the values of the twelve status registers make,
/// in the order of `full_status_addresses`.
pub open spec fn full_status_of(v: Seq<u32>) -> FullStatus {
    FullStatus {
        sum: StatSumFields::from_bits_spec(v[0]),
        sum_sat: StatSumSatFields::from_bits_spec(v[1]),
        com: StatComFields::from_bits_spec(v[2]),
        rate_com: StatRateComFields::from_bits_spec(v[3]),
        rate_x: StatRateFields::from_bits_spec(v[4]),
        rate_y: StatRateFields::from_bits_spec(v[5]),
        rate_z: StatRateFields::from_bits_spec(v[6]),
        acc_x: StatAccFields::from_bits_spec(v[7]),
        acc_y: StatAccFields::from_bits_spec(v[8]),
        acc_z: StatAccFields::from_bits_spec(v[9]),
        sync_active: StatSyncActiveFields { bits: (v[10] % 0x1_0000) as u16 },
        info: StatInfoFields { bits: (v[11] % 0x1_0000) as u16 },
    }
}

/// Decodes the values of the twelve status registers that start at `at`.
pub fn full_status_value(v: &[u32], at: usize) -> (s: FullStatus)
    requires
        at + 12 <= v@.len(),
    ensures
        s == full_status_of(v@.subrange(at as int, at + 12)),
{
    let ghost w = v@.subrange(at as int, at + 12);
    assert(w[0] == v@[at as int] && w[1] == v@[at + 1] && w[2] == v@[at + 2] && w[3] == v@[at + 3]
        && w[4] == v@[at + 4] && w[5] == v@[at + 5] && w[6] == v@[at + 6] && w[7] == v@[at + 7]
        && w[8] == v@[at + 8] && w[9] == v@[at + 9] && w[10] == v@[at + 10] && w[11] == v@[at + 11]);
    FullStatus {
        sum: StatSumFields::from_bits(v[at]),
        sum_sat: StatSumSatFields::from_bits(v[at + 1]),
        com: StatComFields::from_bits(v[at + 2]),
        rate_com: StatRateComFields::from_bits(v[at + 3]),
        rate_x: StatRateFields::from_bits(v[at + 4]),
        rate_y: StatRateFields::from_bits(v[at + 5]),
        rate_z: StatRateFields::from_bits(v[at + 6]),
        acc_x: StatAccFields::from_bits(v[at + 7]),
        acc_y: StatAccFields::from_bits(v[at + 8]),
        acc_z: StatAccFields::from_bits(v[at + 9]),
        sync_active: StatSyncActiveFields::from_bits(v[at + 10]),
        info: StatInfoFields::from_bits(v[at + 11]),
    }
}

/// Each field of a full status is decoded from its own register, the
/// twelve values being those of registers 0x14 (`STAT_SUM`) to 0x1F
/// (`STAT_INFO`) in order: the summary from 0x14, the saturation summary
/// from 0x15, the common block from 0x16, the shared gyroscope block from
/// 0x17, gyroscope x, y, z from 0x18, 0x19, 0x1A, accelerometer x, y, z
/// from 0x1B, 0x1C, 0x1D, then 0x1E and 0x1F; every flag is its own bit.
pub proof fn full_status_fields_come_from_their_registers(v: Seq<u32>)
    requires
        v.len() >= 12,
    ensures
        full_status_addresses() == seq![0x14u8, 0x15, 0x16, 0x17, 0x18, 0x19, 0x1A, 0x1B, 0x1C, 0x1D, 0x1E, 0x1F],
        ({
            let s = full_status_of(v);
            &&& s.sum.init_rdy == (v[0] & 0x8000u32 != 0)
            &&& s.sum.cmn == (v[0] & 0x4000u32 != 0)
            &&& s.sum.rate_x == (v[0] & 0x2000u32 != 0)
            &&& s.sum.rate_y == (v[0] & 0x1000u32 != 0)
            &&& s.sum.rate_z == (v[0] & 0x800u32 != 0)
            &&& s.sum.acc_x == (v[0] & 0x400u32 != 0)
            &&& s.sum.acc_y == (v[0] & 0x200u32 != 0)
            &&& s.sum.acc_z == (v[0] & 0x100u32 != 0)
            &&& s.sum_sat.rate_x_1 == (v[1] & 0x8000u32 != 0)
            &&& s.sum_sat.rate_y_1 == (v[1] & 0x4000u32 != 0)
            &&& s.sum_sat.rate_z_1 == (v[1] & 0x2000u32 != 0)
            &&& s.sum_sat.acc_x_1 == (v[1] & 0x1000u32 != 0)
            &&& s.sum_sat.acc_y_1 == (v[1] & 0x800u32 != 0)
            &&& s.sum_sat.acc_z_1 == (v[1] & 0x400u32 != 0)
            &&& s.sum_sat.rate_x_2 == (v[1] & 0x200u32 != 0)
            &&& s.sum_sat.rate_y_2 == (v[1] & 0x100u32 != 0)
            &&& s.sum_sat.rate_z_2 == (v[1] & 0x80u32 != 0)
            &&& s.sum_sat.acc_x_2 == (v[1] & 0x40u32 != 0)
            &&& s.sum_sat.acc_y_2 == (v[1] & 0x20u32 != 0)
            &&& s.sum_sat.acc_z_2 == (v[1] & 0x10u32 != 0)
            &&& s.com.mclk_ok == (v[2] & 0x400u32 != 0)
            &&& s.com.dual_clock_ok == (v[2] & 0x200u32 != 0)
            &&& s.com.dsp_ok == (v[2] & 0x100u32 != 0)
            &&& s.com.svm_ok == (v[2] & 0x80u32 != 0)
            &&& s.com.hv_cp_ok == (v[2] & 0x40u32 != 0)
            &&& s.com.supply_ok == (v[2] & 0x20u32 != 0)
            &&& s.com.temp_ok == (v[2] & 0x10u32 != 0)
            &&& s.com.nmode_ok == (v[2] & 0x8u32 != 0)
            &&& s.com.nvm_sts_ok == (v[2] & 0x4u32 != 0)
            &&& s.com.cmn_sts_ok == (v[2] & 0x2u32 != 0)
            &&& s.com.cmn_sts_rdy == (v[2] & 0x1u32 != 0)
            &&& s.rate_com.pri_agc_ok == (v[3] & 0x40u32 != 0)
            &&& s.rate_com.gyro_pri_ok == (v[3] & 0x20u32 != 0)
            &&& s.rate_com.pri_start_ok == (v[3] & 0x10u32 != 0)
            &&& s.rate_com.gyro_hv_ok == (v[3] & 0x8u32 != 0)
            &&& s.rate_com.gyro_sd_sts_ok == (v[3] & 0x4u32 != 0)
            &&& s.rate_com.gyro_bond_sts_ok == (v[3] & 0x2u32 != 0)
            &&& s.rate_com.gyro_sts_rdy_ok == (v[3] & 0x1u32 != 0)
            &&& s.rate_x.stc_dig_ok == (v[4] & 0x4u32 != 0)
            &&& s.rate_x.stc_ana_ok == (v[4] & 0x2u32 != 0)
            &&& s.rate_x.qc_ok == (v[4] & 0x1u32 != 0)
            &&& s.rate_y.stc_dig_ok == (v[5] & 0x4u32 != 0)
            &&& s.rate_y.stc_ana_ok == (v[5] & 0x2u32 != 0)
            &&& s.rate_y.qc_ok == (v[5] & 0x1u32 != 0)
            &&& s.rate_z.stc_dig_ok == (v[6] & 0x4u32 != 0)
            &&& s.rate_z.stc_ana_ok == (v[6] & 0x2u32 != 0)
            &&& s.rate_z.qc_ok == (v[6] & 0x1u32 != 0)
            &&& s.acc_x.stc_dig_ok == (v[7] & 0x8u32 != 0)
            &&& s.acc_x.stc_tcap_ok == (v[7] & 0x4u32 != 0)
            &&& s.acc_x.stc_sdd_ok == (v[7] & 0x2u32 != 0)
            &&& s.acc_x.stc_n_ok == (v[7] & 0x1u32 != 0)
            &&& s.acc_y.stc_dig_ok == (v[8] & 0x8u32 != 0)
            &&& s.acc_y.stc_tcap_ok == (v[8] & 0x4u32 != 0)
            &&& s.acc_y.stc_sdd_ok == (v[8] & 0x2u32 != 0)
            &&& s.acc_y.stc_n_ok == (v[8] & 0x1u32 != 0)
            &&& s.acc_z.stc_dig_ok == (v[9] & 0x8u32 != 0)
            &&& s.acc_z.stc_tcap_ok == (v[9] & 0x4u32 != 0)
            &&& s.acc_z.stc_sdd_ok == (v[9] & 0x2u32 != 0)
            &&& s.acc_z.stc_n_ok == (v[9] & 0x1u32 != 0)
            &&& s.sync_active.bits == v[10] % 0x1_0000
            &&& s.info.bits == v[11] % 0x1_0000
        }),
{
    assert(full_status_addresses() =~= seq![0x14u8, 0x15, 0x16, 0x17, 0x18, 0x19, 0x1A, 0x1B, 0x1C, 0x1D, 0x1E, 0x1F]);
    crate::status::lemma_flag_masks(v[0]);
    crate::status::lemma_flag_masks(v[1]);
    crate::status::lemma_flag_masks(v[2]);
    crate::status::lemma_flag_masks(v[3]);
    crate::status::lemma_flag_masks(v[4]);
    crate::status::lemma_flag_masks(v[5]);
    crate::status::lemma_flag_masks(v[6]);
    crate::status::lemma_flag_masks(v[7]);
    crate::status::lemma_flag_masks(v[8]);
    crate::status::lemma_flag_masks(v[9]);
}

} // verus!
