//! The driver's error type.
use vstd::prelude::*;
use crate::status::{FullStatus, StatAccFields, StatComFields, StatRateComFields, StatRateFields};

verus! {

/// Main user-facing error.
#[derive(Debug)]
pub enum Error<E> {
    /// Bus error, see the inner error for details.
    Bus(E),
    /// The CRC of a received frame did not match.
    Crc,
    /// A read was asked for before the sensor was initialised.
    SensorNotInit,
    /// The configuration did not read back as written during start-up.
    ConfigFailed(FullStatus),
    /// The status after start-up reported a fault.
    InitError(FullStatus),
    /// The common block reported a fault while sampling.
    CommonError(StatComFields),
    /// Gyroscope x reported a fault while sampling.
    GyroXError((StatRateComFields, StatRateFields)),
    /// Gyroscope y reported a fault while sampling.
    GyroYError((StatRateComFields, StatRateFields)),
    /// Gyroscope z reported a fault while sampling.
    GyroZError((StatRateComFields, StatRateFields)),
    /// Accelerometer x reported a fault while sampling.
    AccXError(StatAccFields),
    /// Accelerometer y reported a fault while sampling.
    AccYError(StatAccFields),
    /// Accelerometer z reported a fault while sampling.
    AccZError(StatAccFields),
}

} // verus!
