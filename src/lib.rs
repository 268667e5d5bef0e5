//! Driver for a Sensirion SGP30 air-quality gas sensor on a two-wire bus.
//!
//! The chip answers fixed 2-byte commands; data words travel big-endian,
//! each followed by a CRC-8 byte. `Sgp30` runs each operation to the end on
//! a blocking bus; `Sgp30Async` leaves the transfers and waits to the caller.

pub mod bus;
pub mod codec;
pub mod crc;
pub mod driver;
pub mod nonblocking;
pub mod types;

pub use crate::bus::{Bus, BusEvent, Delay, Wait};
pub use crate::codec::{decode_words_with_crc, ChecksumError, Command};
pub use crate::driver::{Error, Sgp30};
pub use crate::nonblocking::{Exchange, Operation, Reply, Sgp30Async};
pub use crate::types::{
    Baseline, FeatureSet, Humidity, HumidityError, Measurement, ProductType, RawSignals,
};
