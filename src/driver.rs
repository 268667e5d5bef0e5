//! The blocking driver: each operation writes a command, waits the time the
//! datasheet gives for it, and reads and checks the reply.
use vstd::prelude::*;

use crate::bus::{Bus, BusEvent, Delay, LoggedBus, LoggedDelay, Wait};
use crate::codec::{
    be_bytes, be_word, decode_words_with_crc, decoded_words, request_bytes, u16_to_be, Command,
};
use crate::types::{feature_set_of, Baseline, FeatureSet, Humidity, Measurement, RawSignals};

verus! {

/// All possible errors in this crate
#[derive(Debug)]
pub enum Error<E> {
    /// I²C bus error during a write
    I2cWrite(E),
    /// I²C bus error during a read
    I2cRead(E),
    /// CRC checksum validation failed
    Crc,
    /// User tried to measure the air quality without starting the
    /// initialization phase.
    NotInitialized,
}

/// What was added to the log `before` to make `after`.
pub open spec fn since<T>(before: Seq<T>, after: Seq<T>) -> Seq<T> {
    after.skip(before.len() as int)
}

/// `after` is the log `before` with entries added at its end.
pub open spec fn extends<T>(before: Seq<T>, after: Seq<T>) -> bool {
    after == before + since(before, after)
}

/// Whether `e` writes `bytes` to the device at `address`.
pub open spec fn is_write_of<E>(e: BusEvent<E>, address: u8, bytes: Seq<u8>) -> bool {
    match e {
        BusEvent::Write { address: a, bytes: b, result: _ } => a == address && b == bytes,
        _ => false,
    }
}

/// Whether `e` reads `n` bytes from the device at `address`.
pub open spec fn is_read_of<E>(e: BusEvent<E>, address: u8, n: nat) -> bool {
    match e {
        BusEvent::Read { address: a, bytes: b, result: _ } => a == address && b.len() == n,
        _ => false,
    }
}

/// What the bus reported for the transfer `e`.
pub open spec fn outcome<E>(e: BusEvent<E>) -> Result<(), E> {
    match e {
        BusEvent::Write { address: _, bytes: _, result } => result,
        BusEvent::Read { address: _, bytes: _, result } => result,
    }
}

/// The bytes that the read `e` left in its buffer.
pub open spec fn read_bytes<E>(e: BusEvent<E>) -> Seq<u8> {
    match e {
        BusEvent::Read { address: _, bytes, result: _ } => bytes,
        _ => Seq::empty(),
    }
}

/// The transfers and waits of a command without a reply: one write of
/// `request`, then, if the bus took it, the wait.
pub open spec fn command_events<E>(
    ev: Seq<BusEvent<E>>,
    waits: Seq<Wait>,
    address: u8,
    request: Seq<u8>,
    wait: Wait,
) -> bool {
    &&& ev.len() == 1
    &&& is_write_of(ev[0], address, request)
    &&& if outcome(ev[0]) is Ok {
        waits == seq![wait]
    } else {
        waits.len() == 0
    }
}

/// The transfers and waits of a command with a reply: the write of
/// `request`, then, if the bus took it, the wait and a read of `n` bytes.
pub open spec fn query_events<E>(
    ev: Seq<BusEvent<E>>,
    waits: Seq<Wait>,
    address: u8,
    request: Seq<u8>,
    wait: Wait,
    n: nat,
) -> bool {
    &&& ev.len() >= 1
    &&& is_write_of(ev[0], address, request)
    &&& if outcome(ev[0]) is Ok {
        ev.len() == 2 && waits == seq![wait] && is_read_of(ev[1], address, n)
    } else {
        ev.len() == 1 && waits.len() == 0
    }
}

/// What a command without a reply returns after the transfers `ev`: `Ok`,
/// or the error of the failed write.
pub open spec fn command_result<E>(ev: Seq<BusEvent<E>>, r: Result<(), Error<E>>) -> bool {
    match outcome(ev[0]) {
        Ok(_) => r is Ok,
        Err(e) => r == Err::<(), Error<E>>(Error::I2cWrite(e)),
    }
}

/// What a command with a reply returns after the transfers `ev`: the error
/// of the failed write or read, a checksum error, or a value that `answer`
/// relates to the reply bytes.
pub open spec fn query_result<T, E>(
    ev: Seq<BusEvent<E>>,
    r: Result<T, Error<E>>,
    answer: spec_fn(T, Seq<u8>) -> bool,
) -> bool {
    match outcome(ev[0]) {
        Err(e) => r == Err::<T, Error<E>>(Error::I2cWrite(e)),
        Ok(_) => match outcome(ev[1]) {
            Err(e) => r == Err::<T, Error<E>>(Error::I2cRead(e)),
            Ok(_) => if decoded_words(read_bytes(ev[1])) is None {
                r is Err && r->Err_0 is Crc
            } else {
                r is Ok && answer(r->Ok_0, read_bytes(ev[1]))
            },
        },
    }
}

/// Whether `r` is what the driver returns for the write `e`.
pub open spec fn write_returned<E>(e: BusEvent<E>, r: Result<(), Error<E>>) -> bool {
    match outcome(e) {
        Ok(_) => r is Ok,
        Err(err) => r == Err::<(), Error<E>>(Error::I2cWrite(err)),
    }
}

/// Whether `r` is what the driver returns for the read `e`: the bus's error,
/// a checksum error, or the words of the reply.
pub open spec fn read_returned<E>(e: BusEvent<E>, r: Result<Vec<u16>, Error<E>>) -> bool {
    match outcome(e) {
        Err(err) => r == Err::<Vec<u16>, Error<E>>(Error::I2cRead(err)),
        Ok(_) => match decoded_words(read_bytes(e)) {
            Some(w) => r is Ok && r->Ok_0@ == w,
            None => r is Err && r->Err_0 is Crc,
        },
    }
}

/// The serial number in a 9-byte reply: the two data bytes of each group.
pub open spec fn serial_of(b: Seq<u8>) -> Seq<u8> {
    seq![b[0], b[1], b[3], b[4], b[6], b[7]]
}

/// Whether a self-test reply carries the success pattern `0xD4 0x00`.
pub open spec fn selftest_passed(b: Seq<u8>) -> bool {
    b[0] == 0xD4 && b[1] == 0x00
}

/// The measurement in a 6-byte reply.
pub open spec fn measurement_of(b: Seq<u8>) -> Measurement {
    Measurement { co2eq_ppm: be_word(b[0], b[1]), tvoc_ppb: be_word(b[3], b[4]) }
}

/// The raw signals in a 6-byte reply.
pub open spec fn raw_signals_of(b: Seq<u8>) -> RawSignals {
    RawSignals { h2: be_word(b[0], b[1]), ethanol: be_word(b[3], b[4]) }
}

/// The baseline in a 6-byte reply.
pub open spec fn baseline_of(b: Seq<u8>) -> Baseline {
    Baseline { co2eq: be_word(b[0], b[1]), tvoc: be_word(b[3], b[4]) }
}

/// The data of a set-baseline request: TVOC first, then CO₂eq, the reverse
/// of the order in which the sensor reports them.
pub open spec fn baseline_data(b: Baseline) -> Seq<u8> {
    be_bytes(b.tvoc) + be_bytes(b.co2eq)
}

/// The data of a set-humidity request: the fixed-point bytes, or two zero
/// bytes to go back to the chip's default.
pub open spec fn humidity_data(h: Option<&Humidity>) -> Seq<u8> {
    match h {
        Some(h) => seq![h.integer_part(), h.fractional_part()],
        None => seq![0u8, 0u8],
    }
}

/// Driver for the SGP30
pub struct Sgp30<I2C: Bus, D: Delay> {
    /// The concrete I²C device implementation, with its log.
    i2c: LoggedBus<I2C>,
    /// The I²C device address.
    address: u8,
    /// The concrete Delay implementation, with its log.
    delay: LoggedDelay<D>,
    /// Whether the air quality measurement was initialized.
    initialized: bool,
}

impl<I2C: Bus, D: Delay> Sgp30<I2C, D> {
    /// The bus handle.
    pub closed spec fn bus(&self) -> I2C {
        self.i2c.inner()
    }

    /// The delay handle.
    pub closed spec fn delay_handle(&self) -> D {
        self.delay.inner()
    }

    /// Every transfer this driver made on the bus, oldest first.
    pub closed spec fn bus_log(&self) -> Seq<BusEvent<I2C::Error>> {
        self.i2c.log()
    }

    /// Every wait this driver made, oldest first.
    pub closed spec fn wait_log(&self) -> Seq<Wait> {
        self.delay.waits()
    }

    /// The device address.
    pub closed spec fn dev_address(&self) -> u8 {
        self.address
    }

    /// Whether the air quality measurement was initialized.
    pub closed spec fn is_initialized(&self) -> bool {
        self.initialized
    }

    /// The transfers that `after` made on the bus since `before`.
    pub open spec fn bus_events(before: &Self, after: &Self) -> Seq<BusEvent<I2C::Error>> {
        since(before.bus_log(), after.bus_log())
    }

    /// The waits that `after` made since `before`.
    pub open spec fn waits_since(before: &Self, after: &Self) -> Seq<Wait> {
        since(before.wait_log(), after.wait_log())
    }

    /// `after` is `before` with more transfers and waits, and the same address.
    pub open spec fn continues(before: &Self, after: &Self) -> bool {
        &&& extends(before.bus_log(), after.bus_log())
        &&& extends(before.wait_log(), after.wait_log())
        &&& after.dev_address() == before.dev_address()
    }

    /// Create a new instance of the SGP30 driver.
    pub fn new(i2c: I2C, address: u8, delay: D) -> (r: Self)
        ensures
            r.bus() == i2c,
            r.delay_handle() == delay,
            r.dev_address() == address,
            !r.is_initialized(),
            r.bus_log() == Seq::<BusEvent<I2C::Error>>::empty(),
            r.wait_log() == Seq::<Wait>::empty(),
    {
        Sgp30 {
            i2c: LoggedBus::new(i2c),
            address,
            delay: LoggedDelay::new(delay),
            initialized: false,
        }
    }

    /// Destroy driver instance, return I²C bus instance.
    pub fn destroy(self) -> (r: I2C)
        ensures
            r == self.bus(),
    {
        self.i2c.into_inner()
    }

    /// Write `bytes` to the sensor.
    fn send(&mut self, bytes: &[u8]) -> (r: Result<(), Error<I2C::Error>>)
        ensures
            final(self).dev_address() == old(self).dev_address(),
            final(self).is_initialized() == old(self).is_initialized(),
            final(self).delay_handle() == old(self).delay_handle(),
            final(self).wait_log() == old(self).wait_log(),
            final(self).bus_log() == old(self).bus_log().push(final(self).bus_log().last()),
            is_write_of(final(self).bus_log().last(), old(self).dev_address(), bytes@),
            write_returned(final(self).bus_log().last(), r),
    {
        match self.i2c.write(self.address, bytes) {
            Ok(()) => Ok(()),
            Err(e) => Err(Error::I2cWrite(e)),
        }
    }

    fn wait_ms(&mut self, ms: u32)
        ensures
            final(self).dev_address() == old(self).dev_address(),
            final(self).is_initialized() == old(self).is_initialized(),
            final(self).bus() == old(self).bus(),
            final(self).bus_log() == old(self).bus_log(),
            final(self).wait_log() == old(self).wait_log().push(
                Wait::Millis(ms),
            ),
    {
        self.delay.delay_ms(ms);
    }

    fn wait_us(&mut self, us: u32)
        ensures
            final(self).dev_address() == old(self).dev_address(),
            final(self).is_initialized() == old(self).is_initialized(),
            final(self).bus() == old(self).bus(),
            final(self).bus_log() == old(self).bus_log(),
            final(self).wait_log() == old(self).wait_log().push(
                Wait::Micros(us),
            ),
    {
        self.delay.delay_us(us);
    }

    /// Read a reply into `buf` and check its checksums.
    fn receive<const N: usize>(&mut self, buf: &mut [u8; N]) -> (r: Result<Vec<u16>, Error<I2C::Error>>)
        ensures
            final(self).dev_address() == old(self).dev_address(),
            final(self).is_initialized() == old(self).is_initialized(),
            final(self).delay_handle() == old(self).delay_handle(),
            final(self).wait_log() == old(self).wait_log(),
            final(self).bus_log() == old(self).bus_log().push(final(self).bus_log().last()),
            is_read_of(final(self).bus_log().last(), old(self).dev_address(), N as nat),
            read_bytes(final(self).bus_log().last()) == final(buf)@,
            read_returned(final(self).bus_log().last(), r),
    {
        match self.i2c.read(self.address, buf) {
            Ok(()) => {},
            Err(e) => {
                return Err(Error::I2cRead(e));
            },
        }
        match decode_words_with_crc(buf) {
            Ok(words) => Ok(words),
            Err(_) => Err(Error::Crc),
        }
    }

    /// Send `command`, wait `ms` milliseconds, then read a reply of `N`
    /// bytes into `buf` and check it.
    fn query<const N: usize>(&mut self, command: Command, ms: u32, buf: &mut [u8; N]) -> (r:
        Result<Vec<u16>, Error<I2C::Error>>)
        ensures
            Self::continues(old(self), final(self)),
            final(self).is_initialized() == old(self).is_initialized(),
            query_events(
                Self::bus_events(old(self), final(self)),
                Self::waits_since(old(self), final(self)),
                old(self).dev_address(),
                command.code(),
                Wait::Millis(ms),
                N as nat,
            ),
            query_result(
                Self::bus_events(old(self), final(self)),
                r,
                |w: Vec<u16>, b: Seq<u8>| decoded_words(b) == Some(w@),
            ),
            outcome(Self::bus_events(old(self), final(self))[0]) is Ok ==> read_bytes(
                Self::bus_events(old(self), final(self))[1],
            ) == final(buf)@,
    {
        let ghost log0 = self.i2c.log();
        let ghost waits0 = self.delay.waits();
        let code = command.as_bytes();
        match self.send(&code) {
            Ok(()) => {},
            Err(e) => {
                assert(since(log0, self.i2c.log()) =~= seq![self.i2c.log().last()]);
                assert(self.i2c.log() =~= log0 + since(log0, self.i2c.log()));
                assert(self.delay.waits() =~= waits0 + since(waits0, self.delay.waits()));
                return Err(e);
            },
        }
        let ghost write = self.i2c.log().last();
        self.wait_ms(ms);
        let r = self.receive(buf);
        proof {
            assert(since(log0, self.i2c.log()) =~= seq![write, self.i2c.log().last()]);
            assert(self.i2c.log() =~= log0 + since(log0, self.i2c.log()));
            assert(since(waits0, self.delay.waits()) =~= seq![Wait::Millis(ms)]);
            assert(self.delay.waits() =~= waits0 + since(waits0, self.delay.waits()));
        }
        r
    }

    /// Write `command` followed by `data` (one or two words, each followed by
    /// its checksum), then, if the bus took it, wait `ms` milliseconds.
    fn send_command_and_data(&mut self, command: Command, data: &[u8], ms: u32) -> (r: Result<
        (),
        Error<I2C::Error>,
    >)
        requires
            data@.len() == 2 || data@.len() == 4,
        ensures
            Self::continues(old(self), final(self)),
            final(self).is_initialized() == old(self).is_initialized(),
            command_events(
                Self::bus_events(old(self), final(self)),
                Self::waits_since(old(self), final(self)),
                old(self).dev_address(),
                request_bytes(command, data@),
                Wait::Millis(ms),
            ),
            command_result(Self::bus_events(old(self), final(self)), r),
    {
        let payload = command.as_bytes_with_data(data);
        self.send_and_wait(payload.as_slice(), ms)
    }

    /// Write `request`, then, if the bus took it, wait `ms` milliseconds.
    fn send_and_wait(&mut self, request: &[u8], ms: u32) -> (r: Result<(), Error<I2C::Error>>)
        ensures
            Self::continues(old(self), final(self)),
            final(self).is_initialized() == old(self).is_initialized(),
            command_events(
                Self::bus_events(old(self), final(self)),
                Self::waits_since(old(self), final(self)),
                old(self).dev_address(),
                request@,
                Wait::Millis(ms),
            ),
            command_result(Self::bus_events(old(self), final(self)), r),
    {
        let ghost log0 = self.i2c.log();
        let ghost waits0 = self.delay.waits();
        let r = self.send(request);
        proof {
            assert(since(log0, self.i2c.log()) =~= seq![self.i2c.log().last()]);
            assert(self.i2c.log() =~= log0 + since(log0, self.i2c.log()));
        }
        match r {
            Ok(()) => {},
            Err(e) => {
                assert(self.delay.waits() =~= waits0 + since(waits0, self.delay.waits()));
                return Err(e);
            },
        }
        self.wait_ms(ms);
        proof {
            assert(since(waits0, self.delay.waits()) =~= seq![Wait::Millis(ms)]);
            assert(self.delay.waits() =~= waits0 + since(waits0, self.delay.waits()));
        }
        Ok(())
    }

    /// Return the 48 bit serial number of the SGP30: the data bytes of its
    /// 3-word reply, read 500 µs after the request.
    pub fn serial(&mut self) -> (r: Result<[u8; 6], Error<I2C::Error>>)
        ensures
            Self::continues(old(self), final(self)),
            final(self).is_initialized() == old(self).is_initialized(),
            query_events(
                Self::bus_events(old(self), final(self)),
                Self::waits_since(old(self), final(self)),
                old(self).dev_address(),
                Command::GetSerial.code(),
                Wait::Micros(500),
                9,
            ),
            query_result(
                Self::bus_events(old(self), final(self)),
                r,
                |s: [u8; 6], b: Seq<u8>| s@ == serial_of(b),
            ),
    {
        let ghost log0 = self.i2c.log();
        let ghost waits0 = self.delay.waits();
        let code = Command::GetSerial.as_bytes();
        match self.send(&code) {
            Ok(()) => {},
            Err(e) => {
                assert(since(log0, self.i2c.log()) =~= seq![self.i2c.log().last()]);
                assert(self.i2c.log() =~= log0 + since(log0, self.i2c.log()));
                assert(self.delay.waits() =~= waits0 + since(waits0, self.delay.waits()));
                return Err(e);
            },
        }
        let ghost write = self.i2c.log().last();
        self.wait_us(500);
        let mut buf = [0u8; 9];
        let r = self.receive(&mut buf);
        proof {
            assert(since(log0, self.i2c.log()) =~= seq![write, self.i2c.log().last()]);
            assert(self.i2c.log() =~= log0 + since(log0, self.i2c.log()));
            assert(since(waits0, self.delay.waits()) =~= seq![Wait::Micros(500)]);
            assert(self.delay.waits() =~= waits0 + since(waits0, self.delay.waits()));
        }
        match r {
            Ok(_) => {
                let s = [buf[0], buf[1], buf[3], buf[4], buf[6], buf[7]];
                assert(s@ =~= serial_of(buf@));
                Ok(s)
            },
            Err(e) => Err(e),
        }
    }
    /// Run an on-chip self-test and report whether it passed; the reply is
    /// read 220 ms after the request.
    pub fn selftest(&mut self) -> (r: Result<bool, Error<I2C::Error>>)
        ensures
            Self::continues(old(self), final(self)),
            final(self).is_initialized() == old(self).is_initialized(),
            query_events(
                Self::bus_events(old(self), final(self)),
                Self::waits_since(old(self), final(self)),
                old(self).dev_address(),
                Command::SelfTest.code(),
                Wait::Millis(220),
                3,
            ),
            query_result(
                Self::bus_events(old(self), final(self)),
                r,
                |p: bool, b: Seq<u8>| p == selftest_passed(b),
            ),
    {
        let mut buf = [0u8; 3];
        match self.query(Command::SelfTest, 220, &mut buf) {
            Ok(_) => Ok(buf[0] == 0xD4 && buf[1] == 0x00),
            Err(e) => Err(e),
        }
    }

    /// Initialize the air quality measurement, unless that was done before.
    ///
    /// After this, `measure()` must be called once a second for the chip's
    /// baseline compensation to work; for the first 15 s the chip reports
    /// fixed values of 400 ppm CO₂eq and 0 ppb TVOC. A new init is needed
    /// after every power-up or soft reset of the chip.
    pub fn init(&mut self) -> (r: Result<(), Error<I2C::Error>>)
        ensures
            old(self).is_initialized() ==> r is Ok && *final(self) == *old(self),
            !old(self).is_initialized() ==> {
                &&& Self::continues(old(self), final(self))
                &&& command_events(
                    Self::bus_events(old(self), final(self)),
                    Self::waits_since(old(self), final(self)),
                    old(self).dev_address(),
                    Command::InitAirQuality.code(),
                    Wait::Millis(10),
                )
                &&& command_result(Self::bus_events(old(self), final(self)), r)
                &&& final(self).is_initialized() == r is Ok
            },
    {
        if self.initialized {
            return Ok(());
        }
        self.force_init()
    }

    /// Like `init()`, but without checking whether the sensor is already
    /// initialized; needed after a soft or hard reset of the chip.
    pub fn force_init(&mut self) -> (r: Result<(), Error<I2C::Error>>)
        ensures
            Self::continues(old(self), final(self)),
            command_events(
                Self::bus_events(old(self), final(self)),
                Self::waits_since(old(self), final(self)),
                old(self).dev_address(),
                Command::InitAirQuality.code(),
                Wait::Millis(10),
            ),
            command_result(Self::bus_events(old(self), final(self)), r),
            final(self).is_initialized() == (r is Ok || old(self).is_initialized()),
    {
        let code = Command::InitAirQuality.as_bytes();
        let r = self.send_and_wait(&code, 10);
        if r.is_ok() {
            self.initialized = true;
        }
        r
    }

    /// Get an air quality measurement, read 12 ms after the request.
    ///
    /// Fails with `Error::NotInitialized`, without touching the bus, unless
    /// `init()` has succeeded.
    pub fn measure(&mut self) -> (r: Result<Measurement, Error<I2C::Error>>)
        ensures
            !old(self).is_initialized() ==> r is Err && r->Err_0 is NotInitialized && *final(self)
                == *old(self),
            old(self).is_initialized() ==> {
                &&& Self::continues(old(self), final(self))
                &&& final(self).is_initialized()
                &&& query_events(
                    Self::bus_events(old(self), final(self)),
                    Self::waits_since(old(self), final(self)),
                    old(self).dev_address(),
                    Command::MeasureAirQuality.code(),
                    Wait::Millis(12),
                    6,
                )
                &&& query_result(
                    Self::bus_events(old(self), final(self)),
                    r,
                    |m: Measurement, b: Seq<u8>| m == measurement_of(b),
                )
            },
    {
        if !self.initialized {
            return Err(Error::NotInitialized);
        }
        let mut buf = [0u8; 6];
        match self.query(Command::MeasureAirQuality, 12, &mut buf) {
            Ok(words) => Ok(Measurement { co2eq_ppm: words[0], tvoc_ppb: words[1] }),
            Err(e) => Err(e),
        }
    }

    /// Return the sensor's raw H2 and Ethanol signals, read 25 ms after the
    /// request; they are meant for testing the part.
    ///
    /// Fails with `Error::NotInitialized`, without touching the bus, unless
    /// `init()` has succeeded.
    pub fn measure_raw_signals(&mut self) -> (r: Result<RawSignals, Error<I2C::Error>>)
        ensures
            !old(self).is_initialized() ==> r is Err && r->Err_0 is NotInitialized && *final(self)
                == *old(self),
            old(self).is_initialized() ==> {
                &&& Self::continues(old(self), final(self))
                &&& final(self).is_initialized()
                &&& query_events(
                    Self::bus_events(old(self), final(self)),
                    Self::waits_since(old(self), final(self)),
                    old(self).dev_address(),
                    Command::MeasureRawSignals.code(),
                    Wait::Millis(25),
                    6,
                )
                &&& query_result(
                    Self::bus_events(old(self), final(self)),
                    r,
                    |s: RawSignals, b: Seq<u8>| s == raw_signals_of(b),
                )
            },
    {
        if !self.initialized {
            return Err(Error::NotInitialized);
        }
        let mut buf = [0u8; 6];
        match self.query(Command::MeasureRawSignals, 25, &mut buf) {
            Ok(words) => Ok(RawSignals { h2: words[0], ethanol: words[1] }),
            Err(e) => Err(e),
        }
    }

    /// Return the baseline values of the baseline correction algorithm,
    /// read 10 ms after the request. Store them to restore them with
    /// `set_baseline()` after a power-up.
    pub fn get_baseline(&mut self) -> (r: Result<Baseline, Error<I2C::Error>>)
        ensures
            Self::continues(old(self), final(self)),
            final(self).is_initialized() == old(self).is_initialized(),
            query_events(
                Self::bus_events(old(self), final(self)),
                Self::waits_since(old(self), final(self)),
                old(self).dev_address(),
                Command::GetBaseline.code(),
                Wait::Millis(10),
                6,
            ),
            query_result(
                Self::bus_events(old(self), final(self)),
                r,
                |v: Baseline, b: Seq<u8>| v == baseline_of(b),
            ),
    {
        let mut buf = [0u8; 6];
        match self.query(Command::GetBaseline, 10, &mut buf) {
            Ok(words) => Ok(Baseline { co2eq: words[0], tvoc: words[1] }),
            Err(e) => Err(e),
        }
    }

    /// Set the baseline values of the baseline correction algorithm; the
    /// TVOC value goes first on the wire. Waits 10 ms after the request.
    ///
    /// Fails with `Error::NotInitialized`, without touching the bus, unless
    /// `init()` has succeeded.
    pub fn set_baseline(&mut self, baseline: &Baseline) -> (r: Result<(), Error<I2C::Error>>)
        ensures
            !old(self).is_initialized() ==> r is Err && r->Err_0 is NotInitialized && *final(self)
                == *old(self),
            old(self).is_initialized() ==> {
                &&& Self::continues(old(self), final(self))
                &&& final(self).is_initialized()
                &&& command_events(
                    Self::bus_events(old(self), final(self)),
                    Self::waits_since(old(self), final(self)),
                    old(self).dev_address(),
                    request_bytes(Command::SetBaseline, baseline_data(*baseline)),
                    Wait::Millis(10),
                )
                &&& command_result(Self::bus_events(old(self), final(self)), r)
            },
    {
        if !self.initialized {
            return Err(Error::NotInitialized);
        }
        let tvoc = u16_to_be(baseline.tvoc);
        let co2eq = u16_to_be(baseline.co2eq);
        let data = [tvoc[0], tvoc[1], co2eq[0], co2eq[1]];
        assert(data@ =~= baseline_data(*baseline));
        self.send_command_and_data(Command::SetBaseline, &data, 10)
    }

    /// Set the absolute humidity that the chip compensates for, or with
    /// `None` go back to the chip's default (11.57 g/m³). Waits 10 ms after
    /// the request.
    ///
    /// Fails with `Error::NotInitialized`, without touching the bus, unless
    /// `init()` has succeeded.
    pub fn set_humidity(&mut self, humidity: Option<&Humidity>) -> (r: Result<(), Error<I2C::Error>>)
        ensures
            !old(self).is_initialized() ==> r is Err && r->Err_0 is NotInitialized && *final(self)
                == *old(self),
            old(self).is_initialized() ==> {
                &&& Self::continues(old(self), final(self))
                &&& final(self).is_initialized()
                &&& command_events(
                    Self::bus_events(old(self), final(self)),
                    Self::waits_since(old(self), final(self)),
                    old(self).dev_address(),
                    request_bytes(Command::SetHumidity, humidity_data(humidity)),
                    Wait::Millis(10),
                )
                &&& command_result(Self::bus_events(old(self), final(self)), r)
            },
    {
        if !self.initialized {
            return Err(Error::NotInitialized);
        }
        let data = match humidity {
            Some(humi) => humi.as_bytes(),
            None => [0u8, 0u8],
        };
        assert(data@ =~= humidity_data(humidity));
        self.send_command_and_data(Command::SetHumidity, &data, 10)
    }

    /// Get the feature set (product type and version), read 2 ms after the
    /// request.
    pub fn get_feature_set(&mut self) -> (r: Result<FeatureSet, Error<I2C::Error>>)
        ensures
            Self::continues(old(self), final(self)),
            final(self).is_initialized() == old(self).is_initialized(),
            query_events(
                Self::bus_events(old(self), final(self)),
                Self::waits_since(old(self), final(self)),
                old(self).dev_address(),
                Command::GetFeatureSet.code(),
                Wait::Millis(2),
                3,
            ),
            query_result(
                Self::bus_events(old(self), final(self)),
                r,
                |f: FeatureSet, b: Seq<u8>| f == feature_set_of(b[0], b[1]),
            ),
    {
        let mut buf = [0u8; 3];
        match self.query(Command::GetFeatureSet, 2, &mut buf) {
            Ok(_) => Ok(FeatureSet::parse(buf[0], buf[1])),
            Err(e) => Err(e),
        }
    }
}

} // verus!
