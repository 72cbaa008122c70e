//! The master-mode peripheral handles: construction from a validated pin
//! pair and a mode, the timeout budget of the blocking handle, and release.
use vstd::prelude::*;
use crate::engine::{Transfer, TransferView};
use crate::timing::{Hertz, Mode, Timing, MAX_FREQUENCY, standard_timing, standard_timing_spec};
use crate::transfer::{
    read_script, read_steps, valid_len, write_read_script, write_read_steps, write_script,
    write_steps, Step,
};

verus! {

/// Ownership of the first I2C peripheral.
pub struct I2C1;

/// Ownership of the second I2C peripheral.
pub struct I2C2;

/// Port B pins in their I2C alternate function.
pub struct PB6;
pub struct PB7;
pub struct PB8;
pub struct PB9;
pub struct PB10;
pub struct PB11;

/// Helper trait to ensure that the correct I2C pins are used for the corresponding interface
pub trait Pins<I2C> {
    const REMAP: bool;
}

impl Pins<I2C1> for (PB6, PB7) {
    const REMAP: bool = false;
}

impl Pins<I2C1> for (PB8, PB9) {
    const REMAP: bool = true;
}

impl Pins<I2C2> for (PB10, PB11) {
    const REMAP: bool = false;
}

/// Frequencies of the clock tree that the driver reads.
#[derive(Debug, Clone, Copy, PartialEq, Eq, Structural)]
pub struct Clocks {
    /// Clock of the peripheral bus the I2C controllers sit on.
    pub pclk1: Hertz,
    /// Core clock, which the cycle counter counts.
    pub sysclk: Hertz,
}

/// I2C peripheral operating in master mode
pub struct I2c<I2C, PINS> {
    i2c: I2C,
    pins: PINS,
    mode: Mode,
    pclk: u32,
    timing: Timing,
}

/// Blocking I2C: the peripheral with a cycle budget for every wait.
pub struct BlockingI2c<I2C, PINS> {
    nb: I2c<I2C, PINS>,
    data_timeout: u32,
}

/// Whether `mode` can be configured: standard, and at most `MAX_FREQUENCY`.
pub open spec fn supported(mode: Mode) -> bool {
    &&& mode is Standard
    &&& mode.frequency_spec() <= MAX_FREQUENCY
}

/// Whether `mode` can be configured.
pub fn supported_mode(mode: &Mode) -> (r: bool)
    ensures
        r == supported(*mode),
{
    match mode {
        Mode::Standard { frequency } => frequency.0 <= MAX_FREQUENCY,
        _ => false,
    }
}

impl<I2C, PINS> I2c<I2C, PINS> {
    pub closed spec fn peripheral_spec(&self) -> I2C {
        self.i2c
    }

    pub closed spec fn pins_spec(&self) -> PINS {
        self.pins
    }

    pub closed spec fn mode_spec(&self) -> Mode {
        self.mode
    }

    pub closed spec fn pclk_spec(&self) -> u32 {
        self.pclk
    }

    pub closed spec fn timing_spec(&self) -> Timing {
        self.timing
    }

    /// The timing fields were derived from the mode and the bus clock.
    pub open spec fn wf(&self) -> bool {
        &&& supported(self.mode_spec())
        &&& self.timing_spec() == standard_timing_spec(
            self.pclk_spec(),
            self.mode_spec().frequency_spec(),
        )
    }

    /// Configures the peripheral for `mode` on a bus clock of `pclk` Hz.
    fn configure(i2c: I2C, pins: PINS, mode: Mode, pclk: u32) -> (r: Self)
        requires
            supported(mode),
        ensures
            r.wf(),
            r.peripheral_spec() == i2c,
            r.pins_spec() == pins,
            r.mode_spec() == mode,
            r.pclk_spec() == pclk,
    {
        let f = mode.get_frequency();
        let timing = standard_timing(pclk, f.0);
        I2c { i2c, pins, mode, pclk, timing }
    }

    pub fn mode(&self) -> (r: Mode)
        ensures
            r == self.mode_spec(),
    {
        self.mode
    }

    pub fn pclk(&self) -> (r: u32)
        ensures
            r == self.pclk_spec(),
    {
        self.pclk
    }

    /// The timing-register fields to program while the peripheral is disabled.
    pub fn timing(&self) -> (r: Timing)
        ensures
            r == self.timing_spec(),
    {
        self.timing
    }

    /// Releases the I2C peripheral and associated pins
    pub fn free(self) -> (r: (I2C, PINS))
        ensures
            r == (self.peripheral_spec(), self.pins_spec()),
    {
        (self.i2c, self.pins)
    }
}

impl<PINS: Pins<I2C1>> I2c<I2C1, PINS> {
    /// Creates a generic I2C1 object on pins PB6 and PB7 or PB8 and PB9 (if remapped)
    pub fn i2c1(i2c: I2C1, pins: PINS, mode: Mode, clocks: Clocks) -> (r: Self)
        requires
            supported(mode),
        ensures
            r.wf(),
            r.peripheral_spec() == i2c,
            r.pins_spec() == pins,
            r.mode_spec() == mode,
            r.pclk_spec() == clocks.pclk1.0,
    {
        I2c::configure(i2c, pins, mode, clocks.pclk1.0)
    }
}

impl<PINS: Pins<I2C2>> I2c<I2C2, PINS> {
    /// Creates a generic I2C2 object on pins PB10 and PB11
    pub fn i2c2(i2c: I2C2, pins: PINS, mode: Mode, clocks: Clocks) -> (r: Self)
        requires
            supported(mode),
        ensures
            r.wf(),
            r.peripheral_spec() == i2c,
            r.pins_spec() == pins,
            r.mode_spec() == mode,
            r.pclk_spec() == clocks.pclk1.0,
    {
        I2c::configure(i2c, pins, mode, clocks.pclk1.0)
    }
}

/// Cycle budget of a wait: `data_timeout_us` microseconds at the core clock.
pub open spec fn budget_spec(clocks: Clocks, data_timeout_us: u32) -> int {
    data_timeout_us as int * (clocks.sysclk.0 as int / 1_000_000)
}

/// Whether the cycle budget for `data_timeout_us` fits the 32-bit counter.
pub fn budget_fits(clocks: Clocks, data_timeout_us: u32) -> (r: bool)
    ensures
        r == (budget_spec(clocks, data_timeout_us) <= u32::MAX),
{
    let sysclk_mhz = clocks.sysclk.0 / 1_000_000;
    data_timeout_us.checked_mul(sysclk_mhz).is_some()
}

/// Generates a blocking I2C instance from a universal I2C object
pub fn blocking_i2c<I2C, PINS>(i2c: I2c<I2C, PINS>, clocks: Clocks, data_timeout_us: u32) -> (r:
    BlockingI2c<I2C, PINS>)
    requires
        budget_spec(clocks, data_timeout_us) <= u32::MAX,
    ensures
        r.inner() == i2c,
        r.data_timeout_spec() == budget_spec(clocks, data_timeout_us),
{
    let sysclk_mhz = clocks.sysclk.0 / 1_000_000;
    BlockingI2c { nb: i2c, data_timeout: data_timeout_us * sysclk_mhz }
}

impl<I2C, PINS> BlockingI2c<I2C, PINS> {
    pub closed spec fn inner(&self) -> I2c<I2C, PINS> {
        self.nb
    }

    pub closed spec fn data_timeout_spec(&self) -> u32 {
        self.data_timeout
    }

    /// The cycle budget of every wait.
    pub fn data_timeout(&self) -> (r: u32)
        ensures
            r == self.data_timeout_spec(),
    {
        self.data_timeout
    }

    /// The underlying master-mode peripheral.
    pub fn i2c(&self) -> (r: &I2c<I2C, PINS>)
        ensures
            *r == self.inner(),
    {
        &self.nb
    }

    /// The transaction state at the start of carrying out `steps`.
    pub open spec fn fresh(&self, steps: Seq<Step>) -> TransferView {
        TransferView {
            steps,
            pos: 0,
            ready: false,
            started: None,
            received: Seq::empty(),
            failure: None,
            budget: self.data_timeout_spec(),
        }
    }

    /// The transaction that writes `bytes` (1 to 255 of them) to slave `addr`.
    pub fn write(&self, addr: u8, bytes: &[u8]) -> (r: Transfer)
        requires
            valid_len(bytes@.len() as int),
        ensures
            r.wf(),
            r@ == self.fresh(write_script(addr, bytes@)),
    {
        Transfer::new(write_steps(addr, bytes), self.data_timeout)
    }

    /// The transaction that reads `n` bytes (1 to 255) from slave `addr`.
    pub fn read(&self, addr: u8, n: usize) -> (r: Transfer)
        requires
            valid_len(n as int),
        ensures
            r.wf(),
            r@ == self.fresh(read_script(addr, n as nat)),
    {
        Transfer::new(read_steps(addr, n), self.data_timeout)
    }

    /// The transaction that writes `bytes` to slave `addr` and then reads
    /// `n` bytes from it under a repeated START; both lengths are 1 to 255.
    pub fn write_read(&self, addr: u8, bytes: &[u8], n: usize) -> (r: Transfer)
        requires
            valid_len(bytes@.len() as int),
            valid_len(n as int),
        ensures
            r.wf(),
            r@ == self.fresh(write_read_script(addr, bytes@, n as nat)),
    {
        Transfer::new(write_read_steps(addr, bytes, n), self.data_timeout)
    }

    /// Releases the I2C peripheral and associated pins
    pub fn free(self) -> (r: (I2C, PINS))
        ensures
            r == (self.inner().peripheral_spec(), self.inner().pins_spec()),
    {
        self.nb.free()
    }
}

impl<PINS: Pins<I2C1>> BlockingI2c<I2C1, PINS> {
    /// Creates a blocking I2C1 object on pins PB6 and PB7 or PB8 and PB9
    pub fn i2c1(i2c: I2C1, pins: PINS, mode: Mode, clocks: Clocks, data_timeout_us: u32) -> (r: Self)
        requires
            supported(mode),
            budget_spec(clocks, data_timeout_us) <= u32::MAX,
        ensures
            r.inner().wf(),
            r.inner().peripheral_spec() == i2c,
            r.inner().pins_spec() == pins,
            r.inner().mode_spec() == mode,
            r.inner().pclk_spec() == clocks.pclk1.0,
            r.data_timeout_spec() == budget_spec(clocks, data_timeout_us),
    {
        blocking_i2c(I2c::i2c1(i2c, pins, mode, clocks), clocks, data_timeout_us)
    }
}

impl<PINS: Pins<I2C2>> BlockingI2c<I2C2, PINS> {
    /// Creates a blocking I2C2 object on pins PB10 and PB11
    pub fn i2c2(i2c: I2C2, pins: PINS, mode: Mode, clocks: Clocks, data_timeout_us: u32) -> (r: Self)
        requires
            supported(mode),
            budget_spec(clocks, data_timeout_us) <= u32::MAX,
        ensures
            r.inner().wf(),
            r.inner().peripheral_spec() == i2c,
            r.inner().pins_spec() == pins,
            r.inner().mode_spec() == mode,
            r.inner().pclk_spec() == clocks.pclk1.0,
            r.data_timeout_spec() == budget_spec(clocks, data_timeout_us),
    {
        blocking_i2c(I2c::i2c2(i2c, pins, mode, clocks), clocks, data_timeout_us)
    }
}

} // verus!
