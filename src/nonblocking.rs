//! The driver for callers that suspend while the sensor works. The bus
//! transfers and the waits belong to the caller's executor; this side decides
//! what to send, how long to wait, how much to read, and what the reply
//! means.
use vstd::prelude::*;

use crate::bus::Wait;
use crate::codec::{decode_words_with_crc, decoded_words, request_bytes, u16_to_be, Command};
use crate::driver::{
    baseline_data, baseline_of, humidity_data, measurement_of, raw_signals_of, selftest_passed,
    serial_of, Error,
};
use crate::types::{feature_set_of, Baseline, FeatureSet, Humidity, Measurement, RawSignals};

verus! {

/// An operation of the sensor, with the data it sends.
#[derive(Debug, Clone, Copy, PartialEq, Eq, Structural)]
pub enum Operation {
    /// Read the serial number.
    GetSerial,
    /// Run the on-chip self-test.
    SelfTest,
    /// Start air quality measurements, unless already started.
    InitAirQuality,
    /// Start air quality measurements even if they were started before.
    ForceInitAirQuality,
    /// Read an air quality measurement.
    MeasureAirQuality,
    /// Read the raw signals.
    MeasureRawSignals,
    /// Read the baseline.
    GetBaseline,
    /// Write the baseline.
    SetBaseline(Baseline),
    /// Write the humidity, or go back to the chip's default with `None`.
    SetHumidity(Option<Humidity>),
    /// Read the feature set.
    GetFeatureSet,
}

/// One exchange on the bus: write `request`, wait, then read `reply_len`
/// bytes (none when it is zero).
pub struct Exchange {
    /// The bytes to write.
    pub request: Vec<u8>,
    /// The time the chip needs before the reply can be read.
    pub wait: Wait,
    /// How many bytes to read after the wait.
    pub reply_len: usize,
}

/// What an operation returns.
#[derive(Debug, Clone, Copy)]
pub enum Reply {
    /// The operation has no reply.
    Done,
    /// The serial number.
    Serial([u8; 6]),
    /// Whether the self-test passed.
    SelfTest(bool),
    /// An air quality measurement.
    Measurement(Measurement),
    /// The raw signals.
    RawSignals(RawSignals),
    /// The baseline.
    Baseline(Baseline),
    /// The feature set.
    FeatureSet(FeatureSet),
}

impl Operation {
    /// Whether the operation needs measurements to be initialized.
    pub open spec fn needs_init(self) -> bool {
        match self {
            Operation::MeasureAirQuality | Operation::MeasureRawSignals | Operation::SetBaseline(_)
            | Operation::SetHumidity(_) => true,
            _ => false,
        }
    }

    /// The bytes the operation writes.
    pub open spec fn request(self) -> Seq<u8> {
        match self {
            Operation::GetSerial => Command::GetSerial.code(),
            Operation::SelfTest => Command::SelfTest.code(),
            Operation::InitAirQuality | Operation::ForceInitAirQuality => Command::InitAirQuality.code(),
            Operation::MeasureAirQuality => Command::MeasureAirQuality.code(),
            Operation::MeasureRawSignals => Command::MeasureRawSignals.code(),
            Operation::GetBaseline => Command::GetBaseline.code(),
            Operation::SetBaseline(b) => request_bytes(Command::SetBaseline, baseline_data(b)),
            Operation::SetHumidity(h) => request_bytes(
                Command::SetHumidity,
                humidity_data(
                    match h {
                        Some(x) => Some(&x),
                        None => None,
                    },
                ),
            ),
            Operation::GetFeatureSet => Command::GetFeatureSet.code(),
        }
    }

    /// The wait the datasheet gives for the operation.
    pub open spec fn wait(self) -> Wait {
        match self {
            Operation::GetSerial => Wait::Micros(500),
            Operation::SelfTest => Wait::Millis(220),
            Operation::MeasureAirQuality => Wait::Millis(12),
            Operation::MeasureRawSignals => Wait::Millis(25),
            Operation::GetFeatureSet => Wait::Millis(2),
            _ => Wait::Millis(10),
        }
    }

    /// The length of the operation's reply.
    pub open spec fn reply_len(self) -> nat {
        match self {
            Operation::GetSerial => 9,
            Operation::SelfTest | Operation::GetFeatureSet => 3,
            Operation::MeasureAirQuality | Operation::MeasureRawSignals | Operation::GetBaseline => 6,
            _ => 0,
        }
    }

    /// Whether `r` is what the operation returns for the checked reply
    /// bytes `b`.
    pub open spec fn answers(self, r: Reply, b: Seq<u8>) -> bool {
        match self {
            Operation::GetSerial => r is Serial && r->Serial_0@ == serial_of(b),
            Operation::SelfTest => r == Reply::SelfTest(selftest_passed(b)),
            Operation::MeasureAirQuality => r == Reply::Measurement(measurement_of(b)),
            Operation::MeasureRawSignals => r == Reply::RawSignals(raw_signals_of(b)),
            Operation::GetBaseline => r == Reply::Baseline(baseline_of(b)),
            Operation::GetFeatureSet => r == Reply::FeatureSet(feature_set_of(b[0], b[1])),
            _ => r == Reply::Done,
        }
    }
}

/// Async driver for the SGP30.
///
/// It holds the same state as `Sgp30`; the caller performs the transfers
/// and waits that `begin` describes and hands the reply to `finish`.
pub struct Sgp30Async<I2C, D> {
    /// The concrete I²C device implementation.
    i2c: I2C,
    /// The I²C device address.
    address: u8,
    /// The concrete Delay implementation.
    delay: D,
    /// Whether the air quality measurement was initialized.
    initialized: bool,
}

impl<I2C, D> Sgp30Async<I2C, D> {
    /// The bus handle.
    pub closed spec fn bus(&self) -> I2C {
        self.i2c
    }

    /// The delay handle.
    pub closed spec fn delay_handle(&self) -> D {
        self.delay
    }

    /// The device address.
    pub closed spec fn dev_address(&self) -> u8 {
        self.address
    }

    /// Whether the air quality measurement was initialized.
    pub closed spec fn is_initialized(&self) -> bool {
        self.initialized
    }

    /// Create a new instance of the SGP30 driver.
    pub fn new(i2c: I2C, address: u8, delay: D) -> (r: Self)
        ensures
            r.bus() == i2c,
            r.delay_handle() == delay,
            r.dev_address() == address,
            !r.is_initialized(),
    {
        Self { i2c, address, delay, initialized: false }
    }

    /// Destroy driver instance, return I²C bus instance.
    pub fn destroy(self) -> (r: I2C)
        ensures
            r == self.bus(),
    {
        self.i2c
    }

    /// The device address.
    pub fn address(&self) -> (r: u8)
        ensures
            r == self.dev_address(),
    {
        self.address
    }

    /// The bus and delay handles, for the transfers and waits of an
    /// exchange.
    pub fn handles(&mut self) -> (r: (&mut I2C, &mut D))
        ensures
            *r.0 == old(self).bus(),
            *r.1 == old(self).delay_handle(),
            final(self).bus() == *final(r.0),
            final(self).delay_handle() == *final(r.1),
            final(self).dev_address() == old(self).dev_address(),
            final(self).is_initialized() == old(self).is_initialized(),
    {
        (&mut self.i2c, &mut self.delay)
    }

    /// The exchange that `op` needs; `None` when there is nothing to do
    /// (initializing again). Fails with `Error::NotInitialized` for a
    /// measurement-class operation before initialization.
    pub fn begin<E>(&self, op: &Operation) -> (r: Result<Option<Exchange>, Error<E>>)
        ensures
            op.needs_init() && !self.is_initialized() ==> r is Err && r->Err_0 is NotInitialized,
            *op == Operation::InitAirQuality && self.is_initialized() ==> r is Ok && r->Ok_0 is None,
            !(op.needs_init() && !self.is_initialized()) && !(*op == Operation::InitAirQuality
                && self.is_initialized()) ==> {
                &&& r is Ok && r->Ok_0 is Some
                &&& r->Ok_0->Some_0.request@ == op.request()
                &&& r->Ok_0->Some_0.wait == op.wait()
                &&& r->Ok_0->Some_0.reply_len == op.reply_len()
            },
    {
        let needs_init = match op {
            Operation::MeasureAirQuality | Operation::MeasureRawSignals | Operation::SetBaseline(_)
            | Operation::SetHumidity(_) => true,
            _ => false,
        };
        if needs_init && !self.initialized {
            return Err(Error::NotInitialized);
        }
        let ex = match op {
            Operation::GetSerial => Exchange {
                request: command_request(Command::GetSerial),
                wait: Wait::Micros(500),
                reply_len: 9,
            },
            Operation::SelfTest => Exchange {
                request: command_request(Command::SelfTest),
                wait: Wait::Millis(220),
                reply_len: 3,
            },
            Operation::InitAirQuality => {
                if self.initialized {
                    return Ok(None);
                }
                Exchange {
                    request: command_request(Command::InitAirQuality),
                    wait: Wait::Millis(10),
                    reply_len: 0,
                }
            },
            Operation::ForceInitAirQuality => Exchange {
                request: command_request(Command::InitAirQuality),
                wait: Wait::Millis(10),
                reply_len: 0,
            },
            Operation::MeasureAirQuality => Exchange {
                request: command_request(Command::MeasureAirQuality),
                wait: Wait::Millis(12),
                reply_len: 6,
            },
            Operation::MeasureRawSignals => Exchange {
                request: command_request(Command::MeasureRawSignals),
                wait: Wait::Millis(25),
                reply_len: 6,
            },
            Operation::GetBaseline => Exchange {
                request: command_request(Command::GetBaseline),
                wait: Wait::Millis(10),
                reply_len: 6,
            },
            Operation::SetBaseline(baseline) => {
                let tvoc = u16_to_be(baseline.tvoc);
                let co2eq = u16_to_be(baseline.co2eq);
                let data = [tvoc[0], tvoc[1], co2eq[0], co2eq[1]];
                assert(data@ =~= baseline_data(*baseline));
                Exchange {
                    request: Command::SetBaseline.as_bytes_with_data(&data),
                    wait: Wait::Millis(10),
                    reply_len: 0,
                }
            },
            Operation::SetHumidity(humidity) => {
                let data = match humidity {
                    Some(humi) => humi.as_bytes(),
                    None => [0u8, 0u8],
                };
                assert(data@ =~= humidity_data(
                    match *humidity {
                        Some(x) => Some(&x),
                        None => None,
                    },
                ));
                Exchange {
                    request: Command::SetHumidity.as_bytes_with_data(&data),
                    wait: Wait::Millis(10),
                    reply_len: 0,
                }
            },
            Operation::GetFeatureSet => Exchange {
                request: command_request(Command::GetFeatureSet),
                wait: Wait::Millis(2),
                reply_len: 3,
            },
        };
        Ok(Some(ex))
    }

    /// Take the reply of the exchange that `begin` gave for `op`: check its
    /// checksums and say what it means. A successful initialization is
    /// recorded.
    pub fn finish<E>(&mut self, op: &Operation, reply: &[u8]) -> (r: Result<Reply, Error<E>>)
        requires
            reply@.len() == op.reply_len(),
        ensures
            final(self).bus() == old(self).bus(),
            final(self).delay_handle() == old(self).delay_handle(),
            final(self).dev_address() == old(self).dev_address(),
            final(self).is_initialized() == (old(self).is_initialized() || *op
                == Operation::InitAirQuality || *op == Operation::ForceInitAirQuality),
            decoded_words(reply@) is None ==> r is Err && r->Err_0 is Crc,
            decoded_words(reply@) is Some ==> r is Ok && op.answers(r->Ok_0, reply@),
    {
        let words = match decode_words_with_crc(reply) {
            Ok(words) => words,
            Err(_) => {
                return Err(Error::Crc);
            },
        };
        let r = match op {
            Operation::GetSerial => {
                let s = [reply[0], reply[1], reply[3], reply[4], reply[6], reply[7]];
                assert(s@ =~= serial_of(reply@));
                Reply::Serial(s)
            },
            Operation::SelfTest => Reply::SelfTest(reply[0] == 0xD4 && reply[1] == 0x00),
            Operation::MeasureAirQuality => Reply::Measurement(
                Measurement { co2eq_ppm: words[0], tvoc_ppb: words[1] },
            ),
            Operation::MeasureRawSignals => Reply::RawSignals(
                RawSignals { h2: words[0], ethanol: words[1] },
            ),
            Operation::GetBaseline => Reply::Baseline(Baseline { co2eq: words[0], tvoc: words[1] }),
            Operation::GetFeatureSet => Reply::FeatureSet(FeatureSet::parse(reply[0], reply[1])),
            Operation::InitAirQuality | Operation::ForceInitAirQuality => {
                self.initialized = true;
                Reply::Done
            },
            _ => Reply::Done,
        };
        Ok(r)
    }
}

/// The opcode of `command` as a request.
fn command_request(command: Command) -> (r: Vec<u8>)
    ensures
        r@ == command.code(),
{
    let code = command.as_bytes();
    let mut r: Vec<u8> = Vec::new();
    r.push(code[0]);
    r.push(code[1]);
    assert(r@ =~= command.code());
    r
}

} // verus!
