//! What the driver needs from its surroundings: a two-wire bus and a way to
//! wait. Callers implement these for their platform.
//!
//! The driver holds its bus and delay inside `LoggedBus` and `LoggedDelay`,
//! whose logs only a real call can extend; the driver's contracts speak of
//! its effect through these logs.
use vstd::prelude::*;

verus! {

/// One transfer on the bus.
pub enum BusEvent<E> {
    /// `bytes` were written to the device at `address`; `result` is what the
    /// bus reported.
    Write { address: u8, bytes: Seq<u8>, result: Result<(), E> },
    /// A read from the device at `address` left `bytes` in the buffer;
    /// `result` is what the bus reported.
    Read { address: u8, bytes: Seq<u8>, result: Result<(), E> },
}

/// How long to wait for the chip.
#[derive(Debug, Clone, Copy, PartialEq, Eq, Structural)]
pub enum Wait {
    /// This many microseconds.
    Micros(u32),
    /// This many milliseconds.
    Millis(u32),
}

/// A two-wire bus on which the driver talks to the sensor.
pub trait Bus {
    /// What a failed transfer reports.
    type Error;

    /// Write `bytes` to the device at `address`.
    fn write(&mut self, address: u8, bytes: &[u8]) -> Result<(), Self::Error>;

    /// Fill `buffer` with bytes read from the device at `address`.
    fn read(&mut self, address: u8, buffer: &mut [u8]) -> Result<(), Self::Error>;
}

/// A way to wait for the sensor to finish a command.
pub trait Delay {
    /// Wait at least `us` microseconds.
    fn delay_us(&mut self, us: u32);

    /// Wait at least `ms` milliseconds.
    fn delay_ms(&mut self, ms: u32);
}

/// A bus together with the log of every transfer made through it. The log
/// grows only by a call of the bus, and records what was handed to it and
/// what it gave back.
pub struct LoggedBus<B: Bus> {
    bus: B,
    log: Ghost<Seq<BusEvent<B::Error>>>,
}

impl<B: Bus> LoggedBus<B> {
    /// The bus.
    pub closed spec fn inner(&self) -> B {
        self.bus
    }

    /// Every transfer made through this handle, oldest first.
    pub closed spec fn log(&self) -> Seq<BusEvent<B::Error>> {
        self.log@
    }

    /// Start logging the transfers on `bus`.
    pub fn new(bus: B) -> (r: Self)
        ensures
            r.inner() == bus,
            r.log() == Seq::<BusEvent<B::Error>>::empty(),
    {
        LoggedBus { bus, log: Ghost(Seq::empty()) }
    }

    /// The bus, without its log.
    pub fn into_inner(self) -> (r: B)
        ensures
            r == self.inner(),
    {
        self.bus
    }

    /// Write `bytes` to the device at `address`.
    pub fn write(&mut self, address: u8, bytes: &[u8]) -> (r: Result<(), B::Error>)
        ensures
            final(self).log() == old(self).log().push(
                (BusEvent::Write { address, bytes: bytes@, result: r }),
            ),
    {
        let r = self.bus.write(address, bytes);
        self.log = Ghost(self.log@.push(BusEvent::Write { address, bytes: bytes@, result: r }));
        r
    }

    /// Fill `buffer` with bytes read from the device at `address`.
    pub fn read<const N: usize>(&mut self, address: u8, buffer: &mut [u8; N]) -> (r: Result<
        (),
        B::Error,
    >)
        ensures
            final(self).log() == old(self).log().push(
                (BusEvent::Read { address, bytes: final(buffer)@, result: r }),
            ),
    {
        let r = self.bus.read(address, buffer);
        self.log = Ghost(self.log@.push(BusEvent::Read { address, bytes: buffer@, result: r }));
        r
    }
}

/// A delay together with the log of every wait made through it. The log
/// grows only by a call of the delay.
pub struct LoggedDelay<D: Delay> {
    delay: D,
    waits: Ghost<Seq<Wait>>,
}

impl<D: Delay> LoggedDelay<D> {
    /// The delay.
    pub closed spec fn inner(&self) -> D {
        self.delay
    }

    /// Every wait made through this handle, oldest first.
    pub closed spec fn waits(&self) -> Seq<Wait> {
        self.waits@
    }

    /// Start logging the waits made with `delay`.
    pub fn new(delay: D) -> (r: Self)
        ensures
            r.inner() == delay,
            r.waits() == Seq::<Wait>::empty(),
    {
        LoggedDelay { delay, waits: Ghost(Seq::empty()) }
    }

    /// Wait at least `us` microseconds.
    pub fn delay_us(&mut self, us: u32)
        ensures
            final(self).waits() == old(self).waits().push(Wait::Micros(us)),
    {
        self.delay.delay_us(us);
        self.waits = Ghost(self.waits@.push(Wait::Micros(us)));
    }

    /// Wait at least `ms` milliseconds.
    pub fn delay_ms(&mut self, ms: u32)
        ensures
            final(self).waits() == old(self).waits().push(Wait::Millis(ms)),
    {
        self.delay.delay_ms(ms);
        self.waits = Ghost(self.waits@.push(Wait::Millis(ms)));
    }
}

} // verus!
