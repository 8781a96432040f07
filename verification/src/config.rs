//! How the sensor is addressed and configured.
use vstd::prelude::*;
use crate::settings::{
    AccDynamicRange, DecimationRatio, Filter, HiSpd, Polarity, RateDynamicRange, SpiSupply,
};

verus! {

/// The SCH16T is addressed by pulling the TA8 and TA9 pins high or low.
#[derive(Debug, Clone, Copy, PartialEq, Eq, Structural)]
pub enum AddressPins {
    Ta8LowTa9Low,
    Ta8HighTa9Low,
    Ta8LowTa9High,
    Ta8HighTa9High,
}

/// The chip address that the pins select: TA9 is its high bit, TA8 its
/// low bit.
pub open spec fn chip_address(pins: AddressPins) -> u8 {
    match pins {
        AddressPins::Ta8LowTa9Low => 0,
        AddressPins::Ta8HighTa9Low => 1,
        AddressPins::Ta8LowTa9High => 2,
        AddressPins::Ta8HighTa9High => 3,
    }
}

impl AddressPins {
    /// The chip address that the pins select.
    pub fn address(&self) -> (a: u8)
        ensures
            a == chip_address(*self),
    {
        match self {
            AddressPins::Ta8LowTa9Low => 0,
            AddressPins::Ta8HighTa9Low => 1,
            AddressPins::Ta8LowTa9High => 2,
            AddressPins::Ta8HighTa9High => 3,
        }
    }
}

/// The main read mode of the sensor.
#[derive(Debug, Clone, Copy, PartialEq, Eq, Structural)]
pub enum SampleMode {
    /// Samples come from the interpolated registers; the decimation ratios
    /// are not used.
    Interpolate,
    /// Samples come from the decimated registers, with each axis'
    /// decimation ratio.
    Decimation,
}

impl Default for SampleMode {
    fn default() -> (m: Self)
        ensures
            m == SampleMode::Interpolate,
    {
        SampleMode::Interpolate
    }
}

/// The mode of the SYNC/DRY pin.
#[derive(Debug, Clone, Copy, PartialEq, Eq, Structural)]
pub enum SyncDryMode {
    /// The pin is not used.
    Off,
    /// The pin is a synchronisation input.
    Sync,
    /// The pin is a data ready output.
    Dry,
}

impl Default for SyncDryMode {
    fn default() -> (m: Self)
        ensures
            m == SyncDryMode::Off,
    {
        SyncDryMode::Off
    }
}

/// Sensor configuration. The default configuration is the one the sensor
/// has after a reset.
#[derive(Debug, Clone, Copy, PartialEq, Eq, Structural)]
pub struct Config {
    /// The main read mode.
    pub sample_mode: SampleMode,
    /// The mode of the SYNC/DRY pin.
    pub dry_sync_mode: SyncDryMode,
    /// Read the temperature with every sample.
    pub include_temperature: bool,
    /// Read the data counters with every sample.
    pub include_data_counters: bool,
    /// Read the clock counter with every sample.
    pub include_freq_counter: bool,
    /// Gyroscope dynamic range.
    pub rate_range: RateDynamicRange,
    /// Low pass filter of gyroscope x.
    pub rate_x_lpf: Filter,
    /// Low pass filter of gyroscope y.
    pub rate_y_lpf: Filter,
    /// Low pass filter of gyroscope z.
    pub rate_z_lpf: Filter,
    /// Decimation ratio of gyroscope x, used in decimation mode.
    pub rate_x_dec: DecimationRatio,
    /// Decimation ratio of gyroscope y, used in decimation mode.
    pub rate_y_dec: DecimationRatio,
    /// Decimation ratio of gyroscope z, used in decimation mode.
    pub rate_z_dec: DecimationRatio,
    /// Accelerometer dynamic range.
    pub accel_range: AccDynamicRange,
    /// Low pass filter of accelerometer x.
    pub accel_x_lpf: Filter,
    /// Low pass filter of accelerometer y.
    pub accel_y_lpf: Filter,
    /// Low pass filter of accelerometer z.
    pub accel_z_lpf: Filter,
    /// Decimation ratio of accelerometer x, used in decimation mode.
    pub accel_x_dec: DecimationRatio,
    /// Decimation ratio of accelerometer y, used in decimation mode.
    pub accel_y_dec: DecimationRatio,
    /// Decimation ratio of accelerometer z, used in decimation mode.
    pub accel_z_dec: DecimationRatio,
    /// Supply voltage of the SPI logic.
    pub spi_supply: SpiSupply,
    /// Drive strength of the MISO and DRY outputs.
    pub hi_speed: HiSpd,
    /// Polarity of the SYNC/DRY pin.
    pub dry_sync_pol: Polarity,
}

/// The configuration after a reset of the sensor.
pub open spec fn reset_config() -> Config {
    Config {
        sample_mode: SampleMode::Interpolate,
        dry_sync_mode: SyncDryMode::Off,
        include_temperature: false,
        include_data_counters: false,
        include_freq_counter: false,
        rate_range: RateDynamicRange::Dyn1,
        rate_x_lpf: Filter::Lpf0,
        rate_y_lpf: Filter::Lpf0,
        rate_z_lpf: Filter::Lpf0,
        rate_x_dec: DecimationRatio::Dec1,
        rate_y_dec: DecimationRatio::Dec1,
        rate_z_dec: DecimationRatio::Dec1,
        accel_range: AccDynamicRange::Dyn1,
        accel_x_lpf: Filter::Lpf0,
        accel_y_lpf: Filter::Lpf0,
        accel_z_lpf: Filter::Lpf0,
        accel_x_dec: DecimationRatio::Dec1,
        accel_y_dec: DecimationRatio::Dec1,
        accel_z_dec: DecimationRatio::Dec1,
        spi_supply: SpiSupply::V33,
        hi_speed: HiSpd::Mhz10,
        dry_sync_pol: Polarity::ActiveHigh,
    }
}

impl Default for Config {
    /// The configuration after a reset of the sensor.
    fn default() -> (c: Self)
        ensures
            c == reset_config(),
    {
        Config {
            sample_mode: SampleMode::default(),
            dry_sync_mode: SyncDryMode::default(),
            include_temperature: false,
            include_data_counters: false,
            include_freq_counter: false,
            rate_range: RateDynamicRange::default(),
            rate_x_lpf: Filter::default(),
            rate_y_lpf: Filter::default(),
            rate_z_lpf: Filter::default(),
            rate_x_dec: DecimationRatio::default(),
            rate_y_dec: DecimationRatio::default(),
            rate_z_dec: DecimationRatio::default(),
            accel_range: AccDynamicRange::default(),
            accel_x_lpf: Filter::default(),
            accel_y_lpf: Filter::default(),
            accel_z_lpf: Filter::default(),
            accel_x_dec: DecimationRatio::default(),
            accel_y_dec: DecimationRatio::default(),
            accel_z_dec: DecimationRatio::default(),
            spi_supply: SpiSupply::default(),
            hi_speed: HiSpd::default(),
            dry_sync_pol: Polarity::default(),
        }
    }
}

} // verus!
