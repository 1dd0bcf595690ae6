//! The temperature model: from a colour temperature in Kelvin to the
//! intensity of each colour channel.
//!
//! The model is a blackbody approximation made of two logarithmic regressions,
//! one below the day temperature and one from it upward. All arithmetic is
//! fixed-point with fourteen decimal places, which holds the regression
//! coefficients exactly. The natural logarithm is the one quantity the model
//! cannot compute in integers: callers ask [`log_argument`] what to take the
//! logarithm of and hand the result to [`convert`].

use vstd::prelude::*;

verus! {

/// The value one in fixed-point: fourteen decimal places.
pub const UNIT: u64 = 100_000_000_000_000;

/// The neutral temperature, where the two regressions meet.
pub const TEMP_DAY: u32 = 6500;

/// The night preset.
pub const TEMP_NIGHT: u32 = 4500;

/// The zero reference: at and below it only red is left.
pub const TEMP_ZERO: u32 = 700;

/// Upper end of the range that the interactive control offers.
pub const TEMP_MAX: u32 = 10_000;

/// Green below the day temperature: constant term.
pub const GAMMA_K0GR: i64 = -147_751_309_139_817;

/// Green below the day temperature: slope.
pub const GAMMA_K1GR: i64 = 28_590_164_772_055;

/// Blue below the day temperature: constant term.
pub const GAMMA_K0BR: i64 = -438_321_650_114_872;

/// Blue below the day temperature: slope.
pub const GAMMA_K1BR: i64 = 62_121_587_694_470;

/// Red from the day temperature upward: constant term.
pub const GAMMA_K0RB: i64 = 175_390_204_039_018;

/// Red from the day temperature upward: slope.
pub const GAMMA_K1RB: i64 = -11_508_056_714_820;

/// Green from the day temperature upward: constant term.
pub const GAMMA_K0GB: i64 = 149_221_604_915_144;

/// Green from the day temperature upward: slope.
pub const GAMMA_K1GB: i64 = -7_513_509_588_921;

/// The three channel intensities as mathematical integers, in units of
/// `1 / UNIT`.
pub struct Tint {
    pub red: int,
    pub green: int,
    pub blue: int,
}

impl Tint {
    /// Every channel lies between zero and one.
    pub open spec fn in_gamut(self) -> bool {
        &&& 0 <= self.red <= UNIT
        &&& 0 <= self.green <= UNIT
        &&& 0 <= self.blue <= UNIT
    }
}

/// `x` limited to the interval from zero to one.
pub open spec fn clamp_unit(x: int) -> int {
    if x < 0 {
        0
    } else if x > UNIT {
        UNIT as int
    } else {
        x
    }
}

/// One regression line at the logarithm `log`, brought down to the
/// fixed-point grid and limited to the interval from zero to one:
/// `k0 + k1 * log`, all three in units of `1 / UNIT`.
pub open spec fn regression(k0: int, k1: int, log: int) -> int {
    clamp_unit((k0 * UNIT + k1 * log) / (UNIT as int))
}

/// What the model takes the natural logarithm of. At and below the zero
/// reference it takes none.
pub open spec fn log_argument_of(temp: int) -> Option<int> {
    if temp <= TEMP_ZERO {
        None
    } else if temp < TEMP_DAY {
        Some(temp - TEMP_ZERO)
    } else {
        Some(temp - (TEMP_DAY - TEMP_ZERO))
    }
}

/// The model itself. `log` stands for the natural logarithm of
/// `log_argument_of(temp)`, in units of `1 / UNIT`.
pub open spec fn tint_of(temp: int, log: int) -> Tint {
    if temp < TEMP_DAY {
        if temp > TEMP_ZERO {
            Tint {
                red: UNIT as int,
                green: regression(GAMMA_K0GR as int, GAMMA_K1GR as int, log),
                blue: regression(GAMMA_K0BR as int, GAMMA_K1BR as int, log),
            }
        } else {
            Tint { red: UNIT as int, green: 0, blue: 0 }
        }
    } else {
        Tint {
            red: regression(GAMMA_K0RB as int, GAMMA_K1RB as int, log),
            green: regression(GAMMA_K0GB as int, GAMMA_K1GB as int, log),
            blue: UNIT as int,
        }
    }
}

/// A multiplier for each colour channel, each between zero and one.
#[derive(Clone, Copy, Debug)]
pub struct ColorFactor {
    red: u64,
    green: u64,
    blue: u64,
}

impl View for ColorFactor {
    type V = Tint;

    closed spec fn view(&self) -> Tint {
        Tint { red: self.red as int, green: self.green as int, blue: self.blue as int }
    }
}

impl ColorFactor {
    #[verifier::type_invariant]
    spec fn channels_in_gamut(self) -> bool {
        self.red <= UNIT && self.green <= UNIT && self.blue <= UNIT
    }

    /// The factor with the given multipliers, each in units of `1 / UNIT`, if
    /// none of them is more than one.
    pub fn new(red: u64, green: u64, blue: u64) -> (factor: Option<ColorFactor>)
        ensures
            factor is Some <==> red <= UNIT && green <= UNIT && blue <= UNIT,
            factor matches Some(f) ==> f@ == (Tint {
                red: red as int,
                green: green as int,
                blue: blue as int,
            }),
    {
        if red <= UNIT && green <= UNIT && blue <= UNIT {
            Some(ColorFactor { red, green, blue })
        } else {
            None
        }
    }

    /// The red multiplier, in units of `1 / UNIT`.
    pub fn red(&self) -> (level: u64)
        ensures
            level == self@.red,
            level <= UNIT,
    {
        proof {
            use_type_invariant(self);
        }
        self.red
    }

    /// The green multiplier, in units of `1 / UNIT`.
    pub fn green(&self) -> (level: u64)
        ensures
            level == self@.green,
            level <= UNIT,
    {
        proof {
            use_type_invariant(self);
        }
        self.green
    }

    /// The blue multiplier, in units of `1 / UNIT`.
    pub fn blue(&self) -> (level: u64)
        ensures
            level == self@.blue,
            level <= UNIT,
    {
        proof {
            use_type_invariant(self);
        }
        self.blue
    }
}

/// Whatever the temperature and whatever is handed in for the logarithm, every
/// channel of the model lies between zero and one.
pub proof fn lemma_tint_in_gamut(temp: int, log: int)
    ensures
        tint_of(temp, log).in_gamut(),
{
}

/// At and below the zero reference the model is pure red, and no logarithm
/// enters it.
pub proof fn lemma_pure_red_at_zero_reference(temp: int, log: int)
    requires
        temp <= TEMP_ZERO,
    ensures
        tint_of(temp, log) == (Tint { red: UNIT as int, green: 0, blue: 0 }),
        log_argument_of(temp) is None,
{
}

/// The number whose natural logarithm [`convert`] needs for `temp`, or `None`
/// where it needs none. A number returned is at least one, so its logarithm
/// exists and is not negative.
pub fn log_argument(temp: u32) -> (arg: Option<u32>)
    ensures
        arg is Some <==> temp > TEMP_ZERO,
        arg matches Some(x) ==> log_argument_of(temp as int) == Some(x as int) && x >= 1,
{
    if temp <= TEMP_ZERO {
        None
    } else if temp < TEMP_DAY {
        Some(temp - TEMP_ZERO)
    } else {
        Some(temp - (TEMP_DAY - TEMP_ZERO))
    }
}

fn regress(k0: i64, k1: i64, log: u64) -> (level: u64)
    requires
        -10 * UNIT <= k0 <= 10 * UNIT,
        -10 * UNIT <= k1 <= 10 * UNIT,
    ensures
        level == regression(k0 as int, k1 as int, log as int),
        level <= UNIT,
{
    let one: i128 = UNIT as i128;
    assert(-10 * UNIT * UNIT <= k0 * UNIT <= 10 * UNIT * UNIT) by (nonlinear_arith)
        requires
            -10 * UNIT <= k0 <= 10 * UNIT,
    ;
    assert(-10 * UNIT * 0x1_0000_0000_0000_0000 <= k1 * log <= 10 * UNIT
        * 0x1_0000_0000_0000_0000) by (nonlinear_arith)
        requires
            -10 * UNIT <= k1 <= 10 * UNIT,
            0 <= log < 0x1_0000_0000_0000_0000,
    ;
    let raw: i128 = (k0 as i128) * one + (k1 as i128) * (log as i128);
    if raw <= 0 {
        0
    } else if raw >= one * one {
        UNIT
    } else {
        let floor: u128 = (raw as u128) / (UNIT as u128);
        floor as u64
    }
}

/// The colour factor of the temperature `temp`.
///
/// `log` is the natural logarithm of `log_argument(temp)` in units of
/// `1 / UNIT`; where `log_argument` returns `None` it is not looked at.
/// Every temperature is accepted: at and below the zero reference the factor
/// is pure red, and the day temperature itself belongs to the upper
/// regression.
pub fn convert(temp: u32, log: u64) -> (factor: ColorFactor)
    ensures
        factor@ == tint_of(temp as int, log as int),
        factor@.in_gamut(),
{
    if temp < TEMP_DAY {
        if temp > TEMP_ZERO {
            ColorFactor {
                red: UNIT,
                green: regress(GAMMA_K0GR, GAMMA_K1GR, log),
                blue: regress(GAMMA_K0BR, GAMMA_K1BR, log),
            }
        } else {
            ColorFactor { red: UNIT, green: 0, blue: 0 }
        }
    } else {
        ColorFactor {
            red: regress(GAMMA_K0RB, GAMMA_K1RB, log),
            green: regress(GAMMA_K0GB, GAMMA_K1GB, log),
            blue: UNIT,
        }
    }
}

} // verus!
