//! Bus modes and the derivation of the timing-register fields.
use vstd::prelude::*;

verus! {

/// A frequency in hertz.
#[derive(Debug, Clone, Copy, PartialEq, Eq, Structural)]
pub struct Hertz(pub u32);

/// Highest bus frequency any mode may ask for.
pub const MAX_FREQUENCY: u32 = 400_000;

/// Data-hold delay field used in standard mode.
pub const SDA_DELAY: u8 = 2;

/// Data-setup delay field used in standard mode.
pub const SCL_DELAY: u8 = 4;

/// Speed class of the bus, with the target SCL frequency. The user should
/// make sure that the requested frequency can be generated from the bus clock.
#[derive(Debug, Clone, Copy, PartialEq, Eq, Structural)]
pub enum Mode {
    Standard { frequency: Hertz },
    Fast { frequency: Hertz },
    FastPlus { frequency: Hertz },
}

impl Mode {
    pub open spec fn frequency_spec(self) -> u32 {
        match self {
            Mode::Standard { frequency } => frequency.0,
            Mode::Fast { frequency } => frequency.0,
            Mode::FastPlus { frequency } => frequency.0,
        }
    }

    pub fn standard(frequency: Hertz) -> (r: Mode)
        ensures
            r == (Mode::Standard { frequency }),
    {
        Mode::Standard { frequency }
    }

    pub fn fast(frequency: Hertz) -> (r: Mode)
        ensures
            r == (Mode::Fast { frequency }),
    {
        Mode::Fast { frequency }
    }

    pub fn fast_plus(frequency: Hertz) -> (r: Mode)
        ensures
            r == (Mode::FastPlus { frequency }),
    {
        Mode::FastPlus { frequency }
    }

    pub fn get_frequency(&self) -> (r: Hertz)
        ensures
            r.0 == self.frequency_spec(),
    {
        match self {
            Mode::Standard { frequency } => *frequency,
            Mode::Fast { frequency } => *frequency,
            Mode::FastPlus { frequency } => *frequency,
        }
    }
}

/// The fields of the timing register.
#[derive(Debug, Clone, Copy, PartialEq, Eq, Structural)]
pub struct Timing {
    pub presc: u8,
    pub scll: u8,
    pub sclh: u8,
    pub sdadel: u8,
    pub scldel: u8,
}

/// Why a mode cannot be configured.
#[derive(Debug, Clone, Copy, PartialEq, Eq, Structural)]
pub enum ConfigError {
    /// The target frequency is above `MAX_FREQUENCY`.
    FrequencyTooHigh,
    /// No timing derivation exists for this speed class yet.
    Unimplemented,
}

pub open spec fn ceil_div(a: int, b: int) -> int
    recommends
        b > 0,
{
    (a + b - 1) / b
}

pub open spec fn clamp(x: int, hi: int) -> int {
    if x < 0 {
        0
    } else if x > hi {
        hi
    } else {
        x
    }
}

/// Bus-clock cycles in half an SCL period: `ceil(pclk / (2 * frequency))`.
pub open spec fn half_period(pclk: int, frequency: int) -> int {
    ceil_div(pclk, 2 * frequency)
}

/// Low-period count for a half period of `n` cycles: `n - 1`, saturated
/// into the 8-bit field.
pub open spec fn scll_for(n: int) -> int {
    clamp(n - 1, 255)
}

/// Prescaler under which `s + 1` counts of the low period cover a half
/// period of `n` cycles: `ceil(n / (s + 1)) - 1`, saturated at 15.
pub open spec fn presc_for(n: int, s: int) -> int {
    clamp(ceil_div(n, s + 1) - 1, 15)
}

/// The standard-mode timing for bus clock `pclk` and target `frequency`:
/// SCL low and high both `ceil(pclk / (2 * frequency)) - 1` (capped at 255),
/// then the prescaler that stretches them to the target's half period. With
/// a zero target every field that divides saturates.
pub open spec fn standard_timing_spec(pclk: u32, frequency: u32) -> Timing {
    if frequency == 0 {
        Timing { presc: 15, scll: 255, sclh: 255, sdadel: SDA_DELAY, scldel: SCL_DELAY }
    } else {
        let n = half_period(pclk as int, frequency as int);
        let s = scll_for(n);
        let p = presc_for(n, s);
        Timing { presc: p as u8, scll: s as u8, sclh: s as u8, sdadel: SDA_DELAY, scldel: SCL_DELAY }
    }
}

/// Bus-clock cycles in one SCL period under timing `t`; the achieved SCL
/// frequency is the bus clock divided by this.
pub open spec fn period_cycles(t: Timing) -> int {
    (t.presc as int + 1) * ((t.scll as int + 1) + (t.sclh as int + 1))
}

/// Derives the standard-mode timing fields for bus clock `pclk` (Hz) and
/// target SCL `frequency` (Hz).
pub fn standard_timing(pclk: u32, frequency: u32) -> (t: Timing)
    requires
        frequency <= MAX_FREQUENCY,
    ensures
        t == standard_timing_spec(pclk, frequency),
{
    if frequency == 0 {
        return Timing { presc: 15, scll: 255, sclh: 255, sdadel: SDA_DELAY, scldel: SCL_DELAY };
    }
    let d: u64 = 2 * frequency as u64;
    let n: u64 = (pclk as u64 + d - 1) / d;
    assert(n == half_period(pclk as int, frequency as int));
    let s: u64 = if n == 0 {
        0
    } else if n > 256 {
        255
    } else {
        n - 1
    };
    assert(s == scll_for(n as int));
    let c: u64 = (n + s) / (s + 1);
    let p: u64 = if c == 0 {
        0
    } else if c > 16 {
        15
    } else {
        c - 1
    };
    assert(p == presc_for(n as int, s as int));
    Timing { presc: p as u8, scll: s as u8, sclh: s as u8, sdadel: SDA_DELAY, scldel: SCL_DELAY }
}

/// Derives the timing fields for `mode` on bus clock `pclk`; only standard
/// mode has a derivation.
pub fn timing_for(mode: &Mode, pclk: u32) -> (r: Result<Timing, ConfigError>)
    ensures
        mode.frequency_spec() > MAX_FREQUENCY ==> r == Err::<Timing, ConfigError>(
            ConfigError::FrequencyTooHigh,
        ),
        mode.frequency_spec() <= MAX_FREQUENCY ==> match *mode {
            Mode::Standard { frequency } => r == Ok::<Timing, ConfigError>(
                standard_timing_spec(pclk, frequency.0),
            ),
            _ => r == Err::<Timing, ConfigError>(ConfigError::Unimplemented),
        },
{
    let f = mode.get_frequency();
    if f.0 > MAX_FREQUENCY {
        return Err(ConfigError::FrequencyTooHigh);
    }
    match mode {
        Mode::Standard { frequency } => Ok(standard_timing(pclk, frequency.0)),
        _ => Err(ConfigError::Unimplemented),
    }
}

/// Facts of integer division by a positive divisor.
proof fn lemma_div_bounds(a: int, b: int)
    requires
        a >= 0,
        b > 0,
    ensures
        b * (a / b) <= a,
        a < b * (a / b) + b,
        a / b >= 0,
{
    vstd::arithmetic::div_mod::lemma_fundamental_div_mod(a, b);
    vstd::arithmetic::div_mod::lemma_mod_bound(a, b);
    vstd::arithmetic::div_mod::lemma_div_pos_is_pos(a, b);
}

/// Where the bus clock is between 20 and 512 times a nonzero target of at
/// most `MAX_FREQUENCY`, the standard timing keeps the prescaler within
/// 0..=15 with a symmetric duty cycle, and the achieved SCL frequency
/// `pclk / period_cycles(t)` is at most the target and at least 90% of it.
pub proof fn lemma_standard_timing_accuracy(pclk: u32, frequency: u32)
    requires
        1 <= frequency <= MAX_FREQUENCY,
        20 * frequency <= pclk,
        pclk <= 512 * frequency,
    ensures
        ({
            let t = standard_timing_spec(pclk, frequency);
            &&& t.presc <= 15
            &&& t.scll == t.sclh
            &&& pclk <= period_cycles(t) * frequency
            &&& 9 * period_cycles(t) * frequency <= 10 * pclk
        }),
{
    let f = frequency as int;
    let c = pclk as int;
    let d = 2 * f;
    let n = half_period(c, f);
    assert(n == (c + d - 1) / d);
    lemma_div_bounds(c + d - 1, d);
    assert(d * n >= c);
    assert(d * n < c + d);
    assert(n >= 10) by (nonlinear_arith)
        requires d * n >= c, c >= 20 * f, d == 2 * f, f >= 1;
    assert(n <= 256) by (nonlinear_arith)
        requires d * n < c + d, c <= 512 * f, d == 2 * f, f >= 1;
    let s = scll_for(n);
    assert(s == n - 1);
    lemma_div_bounds(n + n - 1, n);
    assert((n + n - 1) / n == 1) by (nonlinear_arith)
        requires n * ((n + n - 1) / n) <= n + n - 1, n + n - 1 < n * ((n + n - 1) / n) + n, n >= 10;
    let p = presc_for(n, s);
    assert(p == 0);
    let t = standard_timing_spec(pclk, frequency);
    assert(t.presc as int == 0 && t.scll as int == s && t.sclh as int == s);
    assert(period_cycles(t) == 2 * n);
    assert(c <= 2 * n * f) by (nonlinear_arith)
        requires d * n >= c, d == 2 * f;
    assert(9 * (2 * n) * f <= 10 * c) by (nonlinear_arith)
        requires d * n < c + d, d == 2 * f, c >= 20 * f, f >= 1;
}

} // verus!
