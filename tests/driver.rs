use i2c_master::driver::{blocking_i2c, budget_fits, supported_mode, BlockingI2c, Clocks, I2c, Pins, I2C1, I2C2, PB10, PB11, PB6, PB7, PB8, PB9};
use i2c_master::timing::{standard_timing, Hertz, Mode};

fn clocks() -> Clocks {
    Clocks { pclk1: Hertz(8_000_000), sysclk: Hertz(216_000_000) }
}

#[test]
fn pins_remap() {
    assert!(!<(PB6, PB7) as Pins<I2C1>>::REMAP);
    assert!(<(PB8, PB9) as Pins<I2C1>>::REMAP);
    assert!(!<(PB10, PB11) as Pins<I2C2>>::REMAP);
}

#[test]
fn i2c1_derives_timing() {
    let i2c = I2c::i2c1(I2C1, (PB6, PB7), Mode::standard(Hertz(100_000)), clocks());
    assert_eq!(i2c.pclk(), 8_000_000);
    assert_eq!(i2c.mode(), Mode::standard(Hertz(100_000)));
    assert_eq!(i2c.timing(), standard_timing(8_000_000, 100_000));
    let (_p, (_a, _b)) = i2c.free();
}

#[test]
fn i2c2_derives_timing() {
    let i2c = I2c::i2c2(I2C2, (PB10, PB11), Mode::standard(Hertz(400_000)), clocks());
    assert_eq!(i2c.timing(), standard_timing(8_000_000, 400_000));
}

#[test]
fn blocking_budget_is_microseconds_times_core_mhz() {
    let b = BlockingI2c::i2c1(I2C1, (PB8, PB9), Mode::standard(Hertz(100_000)), clocks(), 1_000);
    assert_eq!(b.data_timeout(), 216_000);
    assert_eq!(b.i2c().timing().scll, 39);
    let b = BlockingI2c::i2c2(I2C2, (PB10, PB11), Mode::standard(Hertz(100_000)), clocks(), 0);
    assert_eq!(b.data_timeout(), 0);
    let _ = b.free();
}

#[test]
fn blocking_from_generic_handle() {
    let i2c = I2c::i2c1(I2C1, (PB6, PB7), Mode::standard(Hertz(100_000)), clocks());
    let slow = Clocks { pclk1: Hertz(8_000_000), sysclk: Hertz(999_999) };
    let b = blocking_i2c(i2c, slow, 500);
    assert_eq!(b.data_timeout(), 0);
    let b = blocking_i2c(I2c::i2c1(I2C1, (PB6, PB7), Mode::standard(Hertz(100_000)), clocks()), clocks(), 10);
    assert_eq!(b.data_timeout(), 2_160);
}

#[test]
fn supported_modes() {
    assert!(supported_mode(&Mode::standard(Hertz(400_000))));
    assert!(!supported_mode(&Mode::standard(Hertz(400_001))));
    assert!(!supported_mode(&Mode::fast(Hertz(100_000))));
    assert!(!supported_mode(&Mode::fast_plus(Hertz(100_000))));
    assert!(budget_fits(clocks(), 1_000));
    assert!(!budget_fits(clocks(), u32::MAX));
}
