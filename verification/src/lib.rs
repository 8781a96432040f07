//! Driver logic for the Murata SCH16T family of 6-axis IMUs: the SafeSPI
//! frame format with its CRC, the register map, the read pipeline of the
//! SPI interface, and the start-up and sampling procedures of the sensor.
//!
//! The procedures do no I/O themselves. Each one is a small state machine
//! that names the next register operation (`ops::Op`); the caller performs
//! it on the bus, through `interface::Interface`, and feeds the outcome
//! back, until the procedure finishes with its result.

pub mod crc8;
pub mod settings;
pub mod frame;
pub mod status;
pub mod config;
pub mod sample;
pub mod registers;
pub mod error;
pub mod interface;
pub mod ops;
pub mod sampling;
pub mod startup;
pub mod sensor;

pub use config::{AddressPins, Config, SampleMode, SyncDryMode};
pub use error::Error;
pub use sample::{DataCounter, RawAccel, RawRate, RawSample};
pub use sensor::Sch16t;
pub use settings::{
    AccDynamicRange, DecimationRatio, Filter, HiSpd, Polarity, RateDynamicRange, SensorStatus,
    SpiSupply,
};
pub use status::{
    FullStatus, StatAccFields, StatComFields, StatInfoFields, StatRateComFields, StatRateFields,
    StatSumFields, StatSumSatFields, StatSyncActiveFields,
};
