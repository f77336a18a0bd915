//! Temperatures, held exactly in nanokelvin.
use vstd::prelude::*;

use crate::fraction::Fraction;
use crate::text::{push_signed_decimal, signed_decimal};

verus! {

/// The offset between the Kelvin and Celsius scales, in nanokelvin.
pub const CELSIUS_OFFSET_NK: i64 = 273_150_000_000;

/// Units a temperature can be given in or read out in.
#[derive(Debug, Clone, Copy, PartialEq, Eq, Structural)]
pub enum TemperatureUnit {
    Kelvin,
    DegCelsius,
}

/// An absolute temperature in nanokelvin.
///
/// Values below absolute zero can be represented: they are a modelling error
/// of the caller, and nothing here fails on them.
#[derive(Debug, Clone, Copy, PartialEq, Eq, Structural)]
pub struct Temperature {
    pub nanokelvin: i64,
}

/// A reading in billionths of `unit` converted to nanokelvin.
pub open spec fn to_nanokelvin(value: int, unit: TemperatureUnit) -> int {
    match unit {
        TemperatureUnit::Kelvin => value,
        TemperatureUnit::DegCelsius => value + CELSIUS_OFFSET_NK,
    }
}

/// A temperature in nanokelvin read out in billionths of `unit`.
pub open spec fn from_nanokelvin(nk: int, unit: TemperatureUnit) -> int {
    match unit {
        TemperatureUnit::Kelvin => nk,
        TemperatureUnit::DegCelsius => nk - CELSIUS_OFFSET_NK,
    }
}

/// `nano / 10^9` rounded to the nearest integer, ties to the even one.
pub open spec fn round_billionths(nano: int) -> int {
    let q = nano / 1_000_000_000;
    let r = nano % 1_000_000_000;
    if r > 500_000_000 || (r == 500_000_000 && q % 2 == 1) {
        q + 1
    } else {
        q
    }
}

/// The suffix written after a formatted temperature.
pub open spec fn unit_suffix(unit: TemperatureUnit) -> Seq<char> {
    match unit {
        TemperatureUnit::Kelvin => seq![' ', 'K'],
        TemperatureUnit::DegCelsius => seq![' ', '\u{b0}', 'C'],
    }
}

impl Temperature {
    /// A temperature of `nanokelvin` nanokelvin.
    pub fn new(nanokelvin: i64) -> (t: Temperature)
        ensures
            t.nanokelvin == nanokelvin,
    {
        Temperature::new_with_unit(nanokelvin, TemperatureUnit::Kelvin)
    }

    /// A temperature of `value` billionths of `unit` (nanokelvin or
    /// nanodegrees Celsius).
    pub fn new_with_unit(value: i64, unit: TemperatureUnit) -> (t: Temperature)
        requires
            to_nanokelvin(value as int, unit) <= i64::MAX,
        ensures
            t.nanokelvin == to_nanokelvin(value as int, unit),
    {
        match unit {
            TemperatureUnit::Kelvin => Temperature { nanokelvin: value },
            TemperatureUnit::DegCelsius => Temperature { nanokelvin: value + CELSIUS_OFFSET_NK },
        }
    }

    /// This temperature in billionths of `unit`.
    pub fn as_unit(&self, unit: TemperatureUnit) -> (v: i64)
        requires
            i64::MIN <= from_nanokelvin(self.nanokelvin as int, unit),
        ensures
            v == from_nanokelvin(self.nanokelvin as int, unit),
    {
        match unit {
            TemperatureUnit::Kelvin => self.nanokelvin,
            TemperatureUnit::DegCelsius => self.nanokelvin - CELSIUS_OFFSET_NK,
        }
    }

    /// This temperature in nanokelvin.
    pub fn as_kelvin(&self) -> (v: i64)
        ensures
            v == self.nanokelvin,
    {
        self.as_unit(TemperatureUnit::Kelvin)
    }

    /// This temperature in nanodegrees Celsius.
    pub fn as_deg_celsius(&self) -> (v: i64)
        requires
            i64::MIN + CELSIUS_OFFSET_NK <= self.nanokelvin,
        ensures
            v == self.nanokelvin - CELSIUS_OFFSET_NK,
    {
        self.as_unit(TemperatureUnit::DegCelsius)
    }

    /// The temperature in whole `unit`s (nearest, ties to even), followed by
    /// the unit's symbol when `append_unit` is set.
    pub fn format(&self, unit: TemperatureUnit, append_unit: bool) -> (s: String)
        requires
            i64::MIN + CELSIUS_OFFSET_NK <= self.nanokelvin,
        ensures
            s@ == signed_decimal(round_billionths(from_nanokelvin(self.nanokelvin as int, unit)))
                + if append_unit { unit_suffix(unit) } else { Seq::empty() },
    {
        let raw = self.as_unit(unit);
        let q = raw.checked_div_euclid(1_000_000_000).unwrap();
        let r = raw.checked_rem_euclid(1_000_000_000).unwrap();
        let rounded: i64 = if r > 500_000_000 || (r == 500_000_000 && q.checked_rem_euclid(2).unwrap() == 1) {
            q + 1
        } else {
            q
        };
        let mut s = String::new();
        push_signed_decimal(&mut s, rounded);
        if append_unit {
            let suffix = match unit {
                TemperatureUnit::Kelvin => " K",
                TemperatureUnit::DegCelsius => " \u{b0}C",
            };
            proof {
                reveal_strlit(" K");
                reveal_strlit(" \u{b0}C");
            }
            s.append(suffix);
        } else {
            assert(s@ =~= s@ + Seq::<char>::empty());
        }
        s
    }

    /// The sum of two temperatures.
    pub fn add(self, rhs: Temperature) -> (t: Temperature)
        requires
            i64::MIN <= self.nanokelvin + rhs.nanokelvin <= i64::MAX,
        ensures
            t.nanokelvin == self.nanokelvin + rhs.nanokelvin,
    {
        Temperature::new(self.nanokelvin + rhs.nanokelvin)
    }

    /// The difference of two temperatures.
    pub fn sub(self, rhs: Temperature) -> (t: Temperature)
        requires
            i64::MIN <= self.nanokelvin - rhs.nanokelvin <= i64::MAX,
        ensures
            t.nanokelvin == self.nanokelvin - rhs.nanokelvin,
    {
        Temperature::new(self.nanokelvin - rhs.nanokelvin)
    }

    /// The ratio of two temperatures, as an exact fraction.
    pub fn div(self, rhs: Temperature) -> (r: Fraction)
        requires
            rhs.nanokelvin != 0,
        ensures
            r@ == (self.nanokelvin as int, rhs.nanokelvin as int),
    {
        Fraction { num: self.nanokelvin as i128, den: rhs.nanokelvin as i128 }
    }
}

} // verus!
