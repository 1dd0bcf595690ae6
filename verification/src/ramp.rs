//! The gamma ramp generator: from a ramp size and a colour factor to the
//! table that an output's hardware takes.
//!
//! Entry `i` of a channel is the brightness `GAMMA_MULT * i / size` times the
//! channel's factor, rounded half up. The division is carried out once, on
//! exact integers, so no entry is off by a rounding of an intermediate value.

use crate::temperature::{ColorFactor, Tint, UNIT};
use vstd::arithmetic::div_mod::{lemma_div_is_ordered, lemma_fundamental_div_mod};
use vstd::prelude::*;

verus! {

/// The brightest value a ramp entry can hold.
pub const GAMMA_MULT: u64 = 65535;

/// Why no ramp could be generated.
#[derive(Clone, Copy, Debug, PartialEq, Eq)]
pub enum RampError {
    /// The size asked for is zero or negative.
    InvalidSize,
}

/// Entry `i` of a channel with the factor `factor / UNIT` in a ramp of `size`
/// entries: `GAMMA_MULT * i / size * factor / UNIT`, rounded half up.
pub open spec fn level(size: int, factor: int, i: int) -> int {
    (2 * GAMMA_MULT * i * factor + size * UNIT) / (2 * size * UNIT)
}

/// A whole channel of `size` entries.
pub open spec fn channel(size: int, factor: int) -> Seq<u16> {
    Seq::new(size as nat, |i: int| level(size, factor, i) as u16)
}

/// No entry is smaller than the one before it.
pub open spec fn ascending(entries: Seq<u16>) -> bool {
    forall|i: int, j: int| 0 <= i <= j < entries.len() ==> entries[i] <= entries[j]
}

/// The three channels of a ramp, entry by entry.
pub struct Table {
    pub red: Seq<u16>,
    pub green: Seq<u16>,
    pub blue: Seq<u16>,
}

impl Table {
    /// The number of entries, where the three channels agree on it.
    pub open spec fn size(self) -> nat {
        self.red.len()
    }

    /// The shape every ramp has: at least one entry, as many in each
    /// channel, and no channel ever falling.
    pub open spec fn well_formed(self) -> bool {
        &&& self.red.len() > 0
        &&& self.green.len() == self.red.len()
        &&& self.blue.len() == self.red.len()
        &&& ascending(self.red)
        &&& ascending(self.green)
        &&& ascending(self.blue)
    }
}

/// The ramp of `size` entries for the factor `tint`.
pub open spec fn table_of(size: int, tint: Tint) -> Table {
    Table {
        red: channel(size, tint.red),
        green: channel(size, tint.green),
        blue: channel(size, tint.blue),
    }
}

/// What generating a ramp of `size` entries for `tint` comes to.
pub open spec fn ramp_of(size: int, tint: Tint) -> Result<Table, RampError> {
    if size <= 0 {
        Err(RampError::InvalidSize)
    } else {
        Ok(table_of(size, tint))
    }
}

/// A gamma ramp: for each brightness level, the intensity of each channel.
#[derive(Debug)]
pub struct GammaRamp {
    red: Vec<u16>,
    green: Vec<u16>,
    blue: Vec<u16>,
}

impl View for GammaRamp {
    type V = Table;

    closed spec fn view(&self) -> Table {
        Table { red: self.red@, green: self.green@, blue: self.blue@ }
    }
}

impl GammaRamp {
    #[verifier::type_invariant]
    spec fn shape(self) -> bool {
        self@.well_formed()
    }

    /// The number of entries in each channel.
    pub fn size(&self) -> (size: usize)
        ensures
            size == self@.size(),
            size > 0,
            self@.well_formed(),
    {
        proof {
            use_type_invariant(self);
        }
        self.red.len()
    }

    /// The red channel, darkest level first.
    pub fn red(&self) -> (entries: &Vec<u16>)
        ensures
            entries@ == self@.red,
            self@.well_formed(),
    {
        proof {
            use_type_invariant(self);
        }
        &self.red
    }

    /// The green channel, darkest level first.
    pub fn green(&self) -> (entries: &Vec<u16>)
        ensures
            entries@ == self@.green,
            self@.well_formed(),
    {
        proof {
            use_type_invariant(self);
        }
        &self.green
    }

    /// The blue channel, darkest level first.
    pub fn blue(&self) -> (entries: &Vec<u16>)
        ensures
            entries@ == self@.blue,
            self@.well_formed(),
    {
        proof {
            use_type_invariant(self);
        }
        &self.blue
    }
}

/// An entry lies between zero and `GAMMA_MULT` wherever the factor is at
/// most one: rounding never carries it past the top.
pub proof fn lemma_level_in_range(size: int, factor: int, i: int)
    requires
        0 <= i < size,
        0 <= factor <= UNIT,
    ensures
        0 <= level(size, factor, i) <= GAMMA_MULT,
{
    let num: int = 2 * GAMMA_MULT * i * factor + size * UNIT;
    let den: int = 2 * size * UNIT;
    assert(0 <= num < (GAMMA_MULT + 1) * den && den > 0) by (nonlinear_arith)
        requires
            num == 2 * GAMMA_MULT * i * factor + size * UNIT,
            den == 2 * size * UNIT,
            0 <= i < size,
            0 <= factor <= UNIT,
    ;
    lemma_fundamental_div_mod(num, den);
    assert(0 <= num / den <= GAMMA_MULT) by (nonlinear_arith)
        requires
            den > 0,
            0 <= num < (GAMMA_MULT + 1) * den,
            num == den * (num / den) + num % den,
            0 <= num % den < den,
    ;
}

/// An entry is the whole number nearest to the exact product, and of two
/// that are equally near the upper one: with `v` for the entry,
/// `v - 1/2 <= GAMMA_MULT * i / size * factor / UNIT < v + 1/2`.
pub proof fn lemma_level_rounds_half_up(size: int, factor: int, i: int)
    requires
        0 < size,
    ensures
        (2 * level(size, factor, i) - 1) * (size * UNIT) <= 2 * (GAMMA_MULT * i * factor),
        2 * (GAMMA_MULT * i * factor) < (2 * level(size, factor, i) + 1) * (size * UNIT),
{
    let num: int = 2 * GAMMA_MULT * i * factor + size * UNIT;
    let den: int = 2 * size * UNIT;
    let v: int = level(size, factor, i);
    lemma_fundamental_div_mod(num, den);
    assert((2 * v - 1) * (size * UNIT) <= 2 * (GAMMA_MULT * i * factor) && 2 * (GAMMA_MULT * i
        * factor) < (2 * v + 1) * (size * UNIT)) by (nonlinear_arith)
        requires
            num == 2 * GAMMA_MULT * i * factor + size * UNIT,
            den == 2 * size * UNIT,
            den > 0,
            num == den * v + num % den,
            0 <= num % den < den,
    ;
}

/// Entries never fall as the brightness level rises.
pub proof fn lemma_level_ascends(size: int, factor: int, i: int, j: int)
    requires
        0 < size,
        0 <= factor,
        0 <= i <= j,
    ensures
        level(size, factor, i) <= level(size, factor, j),
{
    assert(2 * GAMMA_MULT * i * factor <= 2 * GAMMA_MULT * j * factor) by (nonlinear_arith)
        requires
            0 <= factor,
            0 <= i <= j,
    ;
    lemma_div_is_ordered(
        2 * GAMMA_MULT * i * factor + size * UNIT,
        2 * GAMMA_MULT * j * factor + size * UNIT,
        2 * size * UNIT,
    );
}

/// A channel of the model has the right length, stays in range and never
/// falls.
pub proof fn lemma_channel_well_formed(size: int, factor: int)
    requires
        0 < size,
        0 <= factor <= UNIT,
    ensures
        channel(size, factor).len() == size,
        ascending(channel(size, factor)),
        forall|i: int|
            0 <= i < size ==> (#[trigger] channel(size, factor)[i]) == level(size, factor, i),
{
    let entries = channel(size, factor);
    assert forall|i: int| 0 <= i < size implies (#[trigger] entries[i]) == level(
        size,
        factor,
        i,
    ) by {
        lemma_level_in_range(size, factor, i);
    }
    assert forall|i: int, j: int| 0 <= i <= j < entries.len() implies entries[i]
        <= entries[j] by {
        lemma_level_in_range(size, factor, i);
        lemma_level_in_range(size, factor, j);
        lemma_level_ascends(size, factor, i, j);
    }
}

/// Every generated ramp has `size` entries in each channel, none of them
/// past `GAMMA_MULT`, and no channel ever falls from one level to the next.
pub proof fn lemma_generated_ramp_is_well_formed(size: int, tint: Tint)
    requires
        0 < size,
        tint.in_gamut(),
    ensures
        table_of(size, tint).well_formed(),
        table_of(size, tint).size() == size,
        forall|i: int|
            0 <= i < size - 1 ==> (#[trigger] table_of(size, tint).red[i]) <= table_of(
                size,
                tint,
            ).red[i + 1],
        forall|i: int|
            0 <= i < size - 1 ==> (#[trigger] table_of(size, tint).green[i]) <= table_of(
                size,
                tint,
            ).green[i + 1],
        forall|i: int|
            0 <= i < size - 1 ==> (#[trigger] table_of(size, tint).blue[i]) <= table_of(
                size,
                tint,
            ).blue[i + 1],
        forall|i: int| 0 <= i < size ==> 0 <= (#[trigger] table_of(size, tint).red[i]) <= GAMMA_MULT,
        forall|i: int|
            0 <= i < size ==> 0 <= (#[trigger] table_of(size, tint).green[i]) <= GAMMA_MULT,
        forall|i: int|
            0 <= i < size ==> 0 <= (#[trigger] table_of(size, tint).blue[i]) <= GAMMA_MULT,
{
    lemma_channel_well_formed(size, tint.red);
    lemma_channel_well_formed(size, tint.green);
    lemma_channel_well_formed(size, tint.blue);
}

/// Generating is a function of the size and the factor: whatever two runs
/// on the same inputs return, they return the same.
pub proof fn lemma_generate_is_deterministic(
    size: int,
    tint: Tint,
    first: Result<Table, RampError>,
    second: Result<Table, RampError>,
)
    requires
        first == ramp_of(size, tint),
        second == ramp_of(size, tint),
    ensures
        first == second,
        size <= 0 ==> first == Err::<Table, RampError>(RampError::InvalidSize),
{
}

fn entry(size: u32, factor: u64, i: u32) -> (value: u16)
    requires
        i < size,
        factor <= UNIT,
    ensures
        value == level(size as int, factor as int, i as int),
{
    proof {
        lemma_level_in_range(size as int, factor as int, i as int);
        assert(0 <= i * factor <= 0x1_0000_0000 * UNIT) by (nonlinear_arith)
            requires
                0 <= i < 0x1_0000_0000,
                0 <= factor <= UNIT,
        ;
    }
    let scaled: u128 = (i as u128) * (factor as u128);
    assert(2 * GAMMA_MULT * i * factor == 2 * GAMMA_MULT * scaled) by (nonlinear_arith)
        requires
            scaled == i * factor,
    ;
    let half: u128 = (size as u128) * (UNIT as u128);
    let num: u128 = 2 * (GAMMA_MULT as u128) * scaled + half;
    let den: u128 = 2 * half;
    let value: u128 = num / den;
    value as u16
}

/// The gamma ramp of `size` entries tinted by `factor`.
///
/// Fails with `InvalidSize` exactly when `size` is not positive. Otherwise
/// entry `i` of each channel is `level(size, f, i)` for that channel's
/// factor `f`.
pub fn generate(size: i32, factor: &ColorFactor) -> (result: Result<GammaRamp, RampError>)
    ensures
        size <= 0 <==> result is Err,
        (match result {
            Ok(ramp) => Ok(ramp@),
            Err(e) => Err(e),
        }) == ramp_of(size as int, factor@),
        result matches Ok(ramp) ==> ramp@.size() == size && ramp@.well_formed(),
{
    if size <= 0 {
        return Err(RampError::InvalidSize);
    }
    let n: u32 = size as u32;
    let f_red: u64 = factor.red();
    let f_green: u64 = factor.green();
    let f_blue: u64 = factor.blue();
    let mut red: Vec<u16> = Vec::new();
    let mut green: Vec<u16> = Vec::new();
    let mut blue: Vec<u16> = Vec::new();
    let mut i: u32 = 0;
    while i < n
        invariant
            i <= n,
            n == size,
            f_red <= UNIT,
            f_green <= UNIT,
            f_blue <= UNIT,
            red@.len() == i,
            green@.len() == i,
            blue@.len() == i,
            forall|k: int| 0 <= k < i ==> red@[k] == level(n as int, f_red as int, k),
            forall|k: int| 0 <= k < i ==> green@[k] == level(n as int, f_green as int, k),
            forall|k: int| 0 <= k < i ==> blue@[k] == level(n as int, f_blue as int, k),
        decreases n - i,
    {
        red.push(entry(n, f_red, i));
        green.push(entry(n, f_green, i));
        blue.push(entry(n, f_blue, i));
        i = i + 1;
    }
    proof {
        lemma_channel_well_formed(n as int, f_red as int);
        lemma_channel_well_formed(n as int, f_green as int);
        lemma_channel_well_formed(n as int, f_blue as int);
        assert(red@ =~= channel(n as int, f_red as int));
        assert(green@ =~= channel(n as int, f_green as int));
        assert(blue@ =~= channel(n as int, f_blue as int));
    }
    Ok(GammaRamp { red, green, blue })
}

} // verus!
