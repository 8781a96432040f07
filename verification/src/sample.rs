//! The measurements that one sample delivers.
use vstd::prelude::*;

verus! {

/// Sample counters of the three axes of one sensor.
#[derive(Debug, Clone, Copy, PartialEq, Eq, Structural)]
pub struct DataCounter {
    pub x: u8,
    pub y: u8,
    pub z: u8,
}

/// Raw accelerometer data.
#[derive(Debug, Clone, Copy, PartialEq, Eq, Structural)]
pub struct RawAccel {
    /// x axis raw measurement
    pub x: i32,
    /// y axis raw measurement
    pub y: i32,
    /// z axis raw measurement
    pub z: i32,
    /// x axis was saturated for this sample window
    pub x_saturated: bool,
    /// y axis was saturated for this sample window
    pub y_saturated: bool,
    /// z axis was saturated for this sample window
    pub z_saturated: bool,
    /// LSB per m/s² for the configured range: divide the counts by it to
    /// get m/s².
    pub lsb_mss: i32,
    /// The data counters, when the configuration asks for them.
    pub data_counter: Option<DataCounter>,
}

impl RawAccel {
    /// Whether any axis is saturated.
    pub fn saturated(&self) -> (r: bool)
        ensures
            r == (self.x_saturated || self.y_saturated || self.z_saturated),
    {
        self.x_saturated || self.y_saturated || self.z_saturated
    }
}

/// Raw gyroscope data.
#[derive(Debug, Clone, Copy, PartialEq, Eq, Structural)]
pub struct RawRate {
    /// x axis raw measurement
    pub x: i32,
    /// y axis raw measurement
    pub y: i32,
    /// z axis raw measurement
    pub z: i32,
    /// x axis was saturated for this sample window
    pub x_saturated: bool,
    /// y axis was saturated for this sample window
    pub y_saturated: bool,
    /// z axis was saturated for this sample window
    pub z_saturated: bool,
    /// LSB per degree/s for the configured range: divide the counts by it
    /// to get degrees/s.
    pub lsb_ds: i32,
    /// The data counters, when the configuration asks for them.
    pub data_counter: Option<DataCounter>,
}

impl RawRate {
    /// Whether any axis is saturated.
    pub fn saturated(&self) -> (r: bool)
        ensures
            r == (self.x_saturated || self.y_saturated || self.z_saturated),
    {
        self.x_saturated || self.y_saturated || self.z_saturated
    }
}

/// A full gyroscope and accelerometer sample.
#[derive(Debug, Clone, Copy, PartialEq, Eq, Structural)]
pub struct RawSample {
    /// Accelerometer data
    pub accel: RawAccel,
    /// Gyroscope data
    pub rate: RawRate,
    /// The temperature at 100 LSB per degree Celsius, when the configuration
    /// asks for it.
    pub temp: Option<i16>,
    /// The clock counter, when the configuration asks for it.
    pub freq_counter: Option<u16>,
}

} // verus!
