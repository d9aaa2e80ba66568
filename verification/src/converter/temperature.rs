//! Temperature units: the Celsius, Fahrenheit and Kelvin scales.
//!
//! Temperature scales differ in both zero point and slope, so a
//! conversion is not a single ratio: a value is first normalised to
//! Kelvin (Celsius: `v + 273.15`; Fahrenheit: `(v - 32) * 5/9 + 273.15`)
//! and then taken from Kelvin to the target scale by the inverse
//! formula. Both steps are exact on fractions once the decimal constants
//! are cleared of denominators: `273.15 == 27315/100`.

use vstd::prelude::*;

use crate::converter::error::UnitError;
use crate::converter::matches_alias;
use crate::converter::eq_ignore_case;
use crate::rational::Frac;
use crate::rational::Rational;
use crate::rational::frac_eq;
use crate::rational::frac_scale;

verus! {

/// A unit of temperature.
#[derive(Clone, Copy, Debug, PartialEq, Eq, Structural)]
pub enum TemperatureUnit {
    Celcius,
    Fahrenheit,
    Kelvin,
}

impl TemperatureUnit {
    /// The value `v` of scale `u`, normalised to Kelvin.
    ///
    /// Celsius: `v + 27315/100`. Fahrenheit: `(v - 32) * 5/9 + 27315/100`,
    /// which over a common denominator is `(500 v + 229835) / 900`.
    pub open spec fn spec_to_kelvin(u: TemperatureUnit, v: Frac) -> Frac {
        match u {
            TemperatureUnit::Celcius => Frac {
                num: 100 * v.num + 27315 * v.den,
                den: 100 * v.den,
            },
            TemperatureUnit::Fahrenheit => Frac {
                num: 500 * v.num + 229835 * v.den,
                den: 900 * v.den,
            },
            TemperatureUnit::Kelvin => v,
        }
    }

    /// The Kelvin value `k`, taken to scale `u`; the inverse of
    /// `spec_to_kelvin`. Celsius: `k - 27315/100`. Fahrenheit:
    /// `(k - 27315/100) * 9/5 + 32 == (900 k - 229835) / 500`.
    pub open spec fn spec_from_kelvin(u: TemperatureUnit, k: Frac) -> Frac {
        match u {
            TemperatureUnit::Celcius => Frac {
                num: 100 * k.num - 27315 * k.den,
                den: 100 * k.den,
            },
            TemperatureUnit::Fahrenheit => Frac {
                num: 900 * k.num - 229835 * k.den,
                den: 500 * k.den,
            },
            TemperatureUnit::Kelvin => k,
        }
    }

    /// Exact two-step temperature conversion: normalise to Kelvin, then
    /// take the result to the target scale.
    pub open spec fn spec_convert(from_unit: TemperatureUnit, to_unit: TemperatureUnit, v: Frac) -> Frac {
        Self::spec_from_kelvin(to_unit, Self::spec_to_kelvin(from_unit, v))
    }

    /// Converts `value` from `from_unit` to `to_unit`, exactly.
    pub fn convert(from_unit: &Self, to_unit: &Self, value: Rational) -> (r: Rational)
        requires
            value.wf(),
        ensures
            r@ == Self::spec_convert(*from_unit, *to_unit, value@),
            r@.den > 0,
    {
        let to_kelvin: Rational = match from_unit {
            TemperatureUnit::Celcius => Rational {
                num: 100 * value.num + 27315 * value.den,
                den: 100 * value.den,
            },
            TemperatureUnit::Fahrenheit => Rational {
                num: 500 * value.num + 229835 * value.den,
                den: 900 * value.den,
            },
            TemperatureUnit::Kelvin => value,
        };
        match to_unit {
            TemperatureUnit::Celcius => Rational {
                num: 100 * to_kelvin.num - 27315 * to_kelvin.den,
                den: 100 * to_kelvin.den,
            },
            TemperatureUnit::Fahrenheit => Rational {
                num: 900 * to_kelvin.num - 229835 * to_kelvin.den,
                den: 500 * to_kelvin.den,
            },
            TemperatureUnit::Kelvin => to_kelvin,
        }
    }

    /// The accepted spellings of each unit name, matched ignoring case.
    pub open spec fn spec_from_str(s: Seq<char>) -> Option<TemperatureUnit> {
        if matches_alias(s, "celcius") {
            Some(TemperatureUnit::Celcius)
        } else if matches_alias(s, "fahrenheit") {
            Some(TemperatureUnit::Fahrenheit)
        } else if matches_alias(s, "kelvin") {
            Some(TemperatureUnit::Kelvin)
        } else {
            None
        }
    }

    /// Parses a unit name, ignoring ASCII case. On failure the error
    /// carries the offending text verbatim.
    pub fn from_str(s: &str) -> (r: Result<TemperatureUnit, UnitError>)
        ensures
            match r {
                Ok(u) => Self::spec_from_str(s@) == Some(u),
                Err(e) => Self::spec_from_str(s@) is None && (e matches
                UnitError::UnknownUnit { unit, position } && unit@ == s@ && position@ == ""@),
            },
    {
        if eq_ignore_case(s, "celcius") {
            Ok(TemperatureUnit::Celcius)
        } else if eq_ignore_case(s, "fahrenheit") {
            Ok(TemperatureUnit::Fahrenheit)
        } else if eq_ignore_case(s, "kelvin") {
            Ok(TemperatureUnit::Kelvin)
        } else {
            Err(UnitError::UnknownUnit { unit: s.to_owned(), position: "" })
        }
    }

    /// The canonical (full, lower-case) name of this unit.
    pub open spec fn spec_name(self) -> Seq<char> {
        match self {
            TemperatureUnit::Celcius => "celcius"@,
            TemperatureUnit::Fahrenheit => "fahrenheit"@,
            TemperatureUnit::Kelvin => "kelvin"@,
        }
    }

    /// The canonical name of this unit.
    pub fn as_str(&self) -> (r: &'static str)
        ensures
            r@ == self.spec_name(),
    {
        match self {
            TemperatureUnit::Celcius => "celcius",
            TemperatureUnit::Fahrenheit => "fahrenheit",
            TemperatureUnit::Kelvin => "kelvin",
        }
    }

    /// The short display label of this unit.
    pub open spec fn spec_label(self) -> Seq<char> {
        match self {
            TemperatureUnit::Celcius => "\u{b0}C"@,
            TemperatureUnit::Fahrenheit => "\u{b0}F"@,
            TemperatureUnit::Kelvin => "K"@,
        }
    }

    /// The short display label of this unit, for human-readable output.
    pub fn label(&self) -> (r: &'static str)
        ensures
            r@ == self.spec_label(),
    {
        match self {
            TemperatureUnit::Celcius => "\u{b0}C",
            TemperatureUnit::Fahrenheit => "\u{b0}F",
            TemperatureUnit::Kelvin => "K",
        }
    }

    /// All temperature units.
    pub fn all() -> (v: Vec<TemperatureUnit>)
        ensures
            v@ == seq![
                TemperatureUnit::Celcius,
                TemperatureUnit::Fahrenheit,
                TemperatureUnit::Kelvin,
            ],
    {
        let mut v: Vec<TemperatureUnit> = Vec::new();
        v.push(TemperatureUnit::Celcius);
        v.push(TemperatureUnit::Fahrenheit);
        v.push(TemperatureUnit::Kelvin);
        proof {
            assert(v@ =~= seq![
                TemperatureUnit::Celcius,
                TemperatureUnit::Fahrenheit,
                TemperatureUnit::Kelvin,
            ]);
        }
        v
    }
}

/// Normalising to Kelvin and back to the same scale multiplies numerator
/// and denominator by the same constant, so it does not change the value.
pub open spec fn spec_unit_scale(u: TemperatureUnit) -> int {
    match u {
        TemperatureUnit::Celcius => 10000,
        TemperatureUnit::Fahrenheit => 450000,
        TemperatureUnit::Kelvin => 1,
    }
}

proof fn lemma_from_to_kelvin(u: TemperatureUnit, v: Frac)
    ensures
        TemperatureUnit::spec_from_kelvin(u, TemperatureUnit::spec_to_kelvin(u, v))
            == frac_scale(spec_unit_scale(u), v),
{
}

proof fn lemma_to_from_kelvin(u: TemperatureUnit, k: Frac)
    ensures
        TemperatureUnit::spec_to_kelvin(u, TemperatureUnit::spec_from_kelvin(u, k))
            == frac_scale(spec_unit_scale(u), k),
{
}

proof fn lemma_from_kelvin_scale(u: TemperatureUnit, k: Frac, c: int)
    ensures
        TemperatureUnit::spec_from_kelvin(u, frac_scale(c, k))
            == frac_scale(c, TemperatureUnit::spec_from_kelvin(u, k)),
{
    match u {
        TemperatureUnit::Celcius => {
            assert(100 * (c * k.num) - 27315 * (c * k.den) == c * (100 * k.num - 27315 * k.den))
                by (nonlinear_arith);
            assert(100 * (c * k.den) == c * (100 * k.den)) by (nonlinear_arith);
        },
        TemperatureUnit::Fahrenheit => {
            assert(900 * (c * k.num) - 229835 * (c * k.den) == c * (900 * k.num - 229835 * k.den))
                by (nonlinear_arith);
            assert(500 * (c * k.den) == c * (500 * k.den)) by (nonlinear_arith);
        },
        TemperatureUnit::Kelvin => {},
    }
}

/// Converting a temperature from scale `a` to scale `b` and back gives
/// the value back, exactly.
pub proof fn lemma_temperature_round_trip(a: TemperatureUnit, b: TemperatureUnit, v: Frac)
    ensures
        frac_eq(
            TemperatureUnit::spec_convert(b, a, TemperatureUnit::spec_convert(a, b, v)),
            v,
        ),
{
    let k = TemperatureUnit::spec_to_kelvin(a, v);
    let z = TemperatureUnit::spec_convert(b, a, TemperatureUnit::spec_convert(a, b, v));
    let ca = spec_unit_scale(a);
    let cb = spec_unit_scale(b);
    lemma_to_from_kelvin(b, k);
    lemma_from_kelvin_scale(a, k, cb);
    lemma_from_to_kelvin(a, v);
    assert(z.num * v.den == v.num * z.den) by (nonlinear_arith)
        requires
            z.num == cb * (ca * v.num),
            z.den == cb * (ca * v.den),
    ;
}

} // verus!
