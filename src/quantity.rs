//! Fixed-point physical quantities.
//!
//! A declared bound is an integer in ten-millionths of its unit: the literal
//! `2_6000000` is 2.6, `0_0000899` is 0.0000899 (the underscore before the
//! last seven digits stands where the decimal point would). An average is
//! an integer in hundred-millionths of its unit, which makes the mean of two
//! declared bounds exact.

use vstd::prelude::*;

verus! {

/// How many steps of a declared bound make one unit.
pub const DECLARED_PER_UNIT: i128 = 10_000_000;

/// How many steps of an average make one unit.
pub const AVERAGE_PER_UNIT: i128 = 100_000_000;

/// 273.15, the offset from degrees Celsius to kelvin, in average steps.
pub const KELVIN_OFFSET: i128 = 273_15000000;

/// How many kilograms per cubic metre make one gram per cubic centimetre.
pub const KGM3_PER_GCM3: i128 = 1000;

/// The heat value conversion factor 238.8458966275, in ten-billionths.
pub const HEAT_FACTOR: i128 = 238_8458966275;

/// How many steps of the factor make one.
pub const HEAT_FACTOR_PER_UNIT: i128 = 10_000_000_000;

/// Degrees Celsius, in hundred-millionths of a degree.
pub type Celsius = i128;

/// Kelvin, in hundred-millionths of a kelvin.
pub type Kelvin = i128;

/// Grams per cubic centimetre, in hundred-millionths.
pub type Gcm3 = i128;

/// Kilograms per cubic metre, in hundred-millionths.
pub type KGm3 = i128;

/// The first heat value unit (kcal/kg by name), in hundred-millionths.
pub type KkalKg = i128;

/// The second heat value unit (MJ/kg by name), in units of 10^-18: an
/// average (10^-8) times the factor (10^-10), kept exact.
pub type MjKg = i128;

/// A declared closed interval `[min, max]` of a physical quantity, each bound
/// in ten-millionths of the unit. `min <= max` is not required.
#[derive(Clone, Copy, Debug, PartialEq, Eq, Structural)]
pub struct Span {
    pub min: i64,
    pub max: i64,
}

impl Span {
    /// The arithmetic mean `(min + max) / 2`, in average steps: an average
    /// step is a tenth of a declared step, so the mean is `(min + max) * 10 / 2`.
    pub open spec fn mean(self) -> int {
        (self.min + self.max) * 5
    }

    pub fn new(min: i64, max: i64) -> (r: Span)
        ensures
            r.min == min,
            r.max == max,
    {
        Span { min, max }
    }

    /// The mean of the two bounds, in average steps.
    pub fn average(&self) -> (r: i128)
        ensures
            r == self.mean(),
            average_in_range(r as int),
    {
        (self.min as i128 + self.max as i128) * 5
    }
}

/// A temperature in degrees Celsius expressed in kelvin.
pub open spec fn kelvin_of(c: int) -> int {
    c + KELVIN_OFFSET
}

/// A density in g/cm³ expressed in kg/m³.
pub open spec fn kgm3_of(d: int) -> int {
    d * KGM3_PER_GCM3
}

/// A heat value in the first unit expressed in the second.
pub open spec fn heat_converted(h: int) -> int {
    h * HEAT_FACTOR
}

/// The largest magnitude of an average: the mean of two `i64` bounds is
/// under this.
pub const AVERAGE_LIMIT: i128 = 100_000_000_000_000_000_000;

/// Whether `a` lies in the range of averages of declared bounds.
pub open spec fn average_in_range(a: int) -> bool {
    -AVERAGE_LIMIT <= a <= AVERAGE_LIMIT
}

/// Converts degrees Celsius to kelvin.
pub fn celsius_to_kelvin(c: Celsius) -> (r: Kelvin)
    requires
        average_in_range(c as int),
    ensures
        r == kelvin_of(c as int),
{
    c + KELVIN_OFFSET
}

/// Converts a density in g/cm³ to kg/m³.
pub fn gcm3_to_kgm3(d: Gcm3) -> (r: KGm3)
    requires
        average_in_range(d as int),
    ensures
        r == kgm3_of(d as int),
{
    d * KGM3_PER_GCM3
}

/// Converts a heat value from the first unit to the second.
pub fn convert_heat_value(h: KkalKg) -> (r: MjKg)
    requires
        average_in_range(h as int),
    ensures
        r == heat_converted(h as int),
{
    h * HEAT_FACTOR
}

} // verus!
