//! Unit taxonomy and conversion dispatch.
//!
//! Each category of units (temperature, length, weight) lives in its own
//! submodule. This module resolves unit names against the categories in a
//! fixed priority order and dispatches a conversion request to the
//! category both operands belong to.

pub mod error;
pub mod length;
pub mod temperature;
pub mod weight;

use vstd::prelude::*;
use vstd::string::StrSliceExecFns;

use crate::converter::error::UnitError;
use crate::rational::Frac;
use crate::rational::Rational;
use crate::rational::frac_eq;

verus! {

/// Exact result of a ratio-based conversion: `v * rf / rt`, where `rf`
/// and `rt` are the ratios of the source and target units to the
/// category's base unit.
pub open spec fn spec_convert_ratio(rf: Frac, rt: Frac, v: Frac) -> Frac {
    Frac { num: v.num * rf.num * rt.den, den: v.den * rf.den * rt.num }
}

/// Converting a value from a unit to that same unit gives the value
/// back, whatever the ratio of the unit.
pub proof fn lemma_ratio_identity(r: Frac, v: Frac)
    ensures
        frac_eq(spec_convert_ratio(r, r, v), v),
{
    let w = spec_convert_ratio(r, r, v);
    assert(w.num * v.den == v.num * w.den) by (nonlinear_arith)
        requires
            w.num == v.num * r.num * r.den,
            w.den == v.den * r.den * r.num,
    ;
}

/// Converting a value from unit `a` to unit `b` and back gives the
/// value back, whatever the ratios of the two units.
pub proof fn lemma_ratio_round_trip(ra: Frac, rb: Frac, v: Frac)
    ensures
        frac_eq(spec_convert_ratio(rb, ra, spec_convert_ratio(ra, rb, v)), v),
{
    let w = spec_convert_ratio(ra, rb, v);
    let z = spec_convert_ratio(rb, ra, w);
    assert(z.num * v.den == v.num * z.den) by (nonlinear_arith)
        requires
            z.num == (v.num * ra.num * rb.den) * rb.num * ra.den,
            z.den == (v.den * ra.den * rb.num) * rb.den * ra.num,
    ;
}

/// ASCII lowercasing of one character; other characters are unchanged.
pub open spec fn lower_char(c: char) -> char {
    if 'A' <= c && c <= 'Z' {
        (((c as u8) + 32) as u8) as char
    } else {
        c
    }
}

/// ASCII lowercasing of a whole string.
pub open spec fn lower(s: Seq<char>) -> Seq<char> {
    s.map_values(|c: char| lower_char(c))
}

/// Whether the text `s` spells the alias `alias`, ignoring ASCII case.
pub open spec fn matches_alias(s: Seq<char>, alias: &str) -> bool {
    lower(s) == lower(alias@)
}

/// ASCII lowercasing of one character.
fn to_lower(c: char) -> (r: char)
    ensures
        r == lower_char(c),
{
    if 'A' <= c && c <= 'Z' {
        ((c as u8) + 32) as char
    } else {
        c
    }
}

/// Compares two strings for equality ignoring ASCII case.
pub fn eq_ignore_case(s: &str, t: &str) -> (r: bool)
    ensures
        r == (lower(s@) == lower(t@)),
{
    let n = s.unicode_len();
    let m = t.unicode_len();
    if n != m {
        proof {
            assert(lower(s@).len() != lower(t@).len());
        }
        return false;
    }
    let mut i: usize = 0;
    while i < n
        invariant
            i <= n,
            n == s@.len(),
            n == t@.len(),
            forall|j: int| 0 <= j < i ==> lower_char(s@[j]) == lower_char(t@[j]),
        decreases n - i,
    {
        let a = to_lower(s.get_char(i));
        let b = to_lower(t.get_char(i));
        if a != b {
            proof {
                assert(lower(s@)[i as int] != lower(t@)[i as int]);
            }
            return false;
        }
        i += 1;
    }
    proof {
        assert(lower(s@) =~= lower(t@));
    }
    true
}

/// Whether a string parses to the same unit in every category is
/// decided by its ASCII-lowered form alone: parsing is case-insensitive.
pub proof fn lemma_parse_case_insensitive(s: Seq<char>, t: Seq<char>)
    requires
        lower(s) == lower(t),
    ensures
        temperature::TemperatureUnit::spec_from_str(s) == temperature::TemperatureUnit::spec_from_str(t),
        length::LengthUnit::spec_from_str(s) == length::LengthUnit::spec_from_str(t),
        weight::WeightUnit::spec_from_str(s) == weight::WeightUnit::spec_from_str(t),
        spec_resolve(s) == spec_resolve(t),
{
}

/// A unit of any of the three categories, as produced by name
/// resolution.
#[derive(Clone, Copy, Debug, PartialEq, Eq, Structural)]
pub enum MetricSystem {
    Tempr(temperature::TemperatureUnit),
    Len(length::LengthUnit),
    Weight(weight::WeightUnit),
}

/// Resolution of a unit name against the categories in fixed priority
/// order: temperature first, then length, then weight. The first
/// category whose parser accepts the name wins.
pub open spec fn spec_resolve(s: Seq<char>) -> Option<MetricSystem> {
    match temperature::TemperatureUnit::spec_from_str(s) {
        Some(t) => Some(MetricSystem::Tempr(t)),
        None => match length::LengthUnit::spec_from_str(s) {
            Some(l) => Some(MetricSystem::Len(l)),
            None => match weight::WeightUnit::spec_from_str(s) {
                Some(w) => Some(MetricSystem::Weight(w)),
                None => None,
            },
        },
    }
}

/// Whether the two units belong to the same category, and so may be
/// inter-converted.
pub open spec fn same_category(a: MetricSystem, b: MetricSystem) -> bool {
    match (a, b) {
        (MetricSystem::Tempr(_), MetricSystem::Tempr(_)) => true,
        (MetricSystem::Len(_), MetricSystem::Len(_)) => true,
        (MetricSystem::Weight(_), MetricSystem::Weight(_)) => true,
        _ => false,
    }
}

/// Whether the unit belongs to a ratio-based category. Those categories
/// measure physical quantities that cannot go below zero, so negative
/// input values are rejected for them.
pub open spec fn ratio_based(m: MetricSystem) -> bool {
    match m {
        MetricSystem::Tempr(_) => false,
        MetricSystem::Len(_) => true,
        MetricSystem::Weight(_) => true,
    }
}

/// The exact conversion result within one category. Only meaningful
/// when `same_category(from, to)` holds; across categories it falls
/// back to the input, which no caller relies on.
pub open spec fn spec_category_convert(from: MetricSystem, to: MetricSystem, v: Frac) -> Frac {
    match (from, to) {
        (MetricSystem::Tempr(f), MetricSystem::Tempr(t)) =>
            temperature::TemperatureUnit::spec_convert(f, t, v),
        (MetricSystem::Len(f), MetricSystem::Len(t)) =>
            spec_convert_ratio(f.spec_ratio(), t.spec_ratio(), v),
        (MetricSystem::Weight(f), MetricSystem::Weight(t)) =>
            spec_convert_ratio(f.spec_ratio(), t.spec_ratio(), v),
        _ => v,
    }
}

impl MetricSystem {
    /// Resolves a unit name against all categories in priority order.
    /// On failure the error carries the offending text verbatim.
    pub fn from_str(s: &str) -> (r: Result<MetricSystem, UnitError>)
        ensures
            match r {
                Ok(m) => spec_resolve(s@) == Some(m),
                Err(e) => spec_resolve(s@) is None && (e matches
                UnitError::UnknownUnit { unit, position } && unit@ == s@ && position@ == ""@),
            },
    {
        if let Ok(t) = temperature::TemperatureUnit::from_str(s) {
            return Ok(MetricSystem::Tempr(t));
        }
        if let Ok(l) = length::LengthUnit::from_str(s) {
            return Ok(MetricSystem::Len(l));
        }
        if let Ok(w) = weight::WeightUnit::from_str(s) {
            return Ok(MetricSystem::Weight(w));
        }
        Err(UnitError::UnknownUnit { unit: s.to_owned(), position: "" })
    }

    /// The name of the category this unit belongs to.
    pub open spec fn spec_category_name(self) -> Seq<char> {
        match self {
            MetricSystem::Tempr(_) => "Temperature"@,
            MetricSystem::Len(_) => "Length"@,
            MetricSystem::Weight(_) => "Weight"@,
        }
    }

    /// The name of the category this unit belongs to.
    pub fn category_name(&self) -> (r: &'static str)
        ensures
            r@ == self.spec_category_name(),
    {
        match self {
            MetricSystem::Tempr(_) => "Temperature",
            MetricSystem::Len(_) => "Length",
            MetricSystem::Weight(_) => "Weight",
        }
    }

    /// The canonical name of the resolved unit.
    pub open spec fn spec_name(self) -> Seq<char> {
        match self {
            MetricSystem::Tempr(t) => t.spec_name(),
            MetricSystem::Len(l) => l.spec_name(),
            MetricSystem::Weight(w) => w.spec_name(),
        }
    }

    /// The canonical name of the resolved unit.
    pub fn as_str(&self) -> (r: &'static str)
        ensures
            r@ == self.spec_name(),
    {
        match self {
            MetricSystem::Tempr(t) => t.as_str(),
            MetricSystem::Len(l) => l.as_str(),
            MetricSystem::Weight(w) => w.as_str(),
        }
    }

    /// The short display label of the resolved unit.
    pub open spec fn spec_label(self) -> Seq<char> {
        match self {
            MetricSystem::Tempr(t) => t.spec_label(),
            MetricSystem::Len(l) => l.spec_label(),
            MetricSystem::Weight(w) => w.spec_label(),
        }
    }

    /// The short display label of the resolved unit.
    pub fn label(&self) -> (r: &'static str)
        ensures
            r@ == self.spec_label(),
    {
        match self {
            MetricSystem::Tempr(t) => t.label(),
            MetricSystem::Len(l) => l.label(),
            MetricSystem::Weight(w) => w.label(),
        }
    }
}

/// Resolves a unit name, recording which command argument the name came
/// from so that a failure can report it.
pub fn resolve_unit(s: &str, position: &'static str) -> (r: Result<MetricSystem, UnitError>)
    ensures
        match r {
            Ok(m) => spec_resolve(s@) == Some(m),
            Err(e) => spec_resolve(s@) is None && (e matches
            UnitError::UnknownUnit { unit, position: p } && unit@ == s@ && p@ == position@),
        },
{
    match MetricSystem::from_str(s) {
        Ok(m) => Ok(m),
        Err(_) => Err(UnitError::UnknownUnit { unit: s.to_owned(), position }),
    }
}

/// A completed conversion: the two resolved units, the input value and
/// the computed output, ready for display or history recording.
#[derive(Clone, Copy, Debug)]
pub struct Conversion {
    pub from: MetricSystem,
    pub to: MetricSystem,
    pub value: Rational,
    pub output: Rational,
}

/// Resolves both unit names, checks that they belong to one category,
/// rejects negative values for the ratio-based categories, and computes
/// the conversion. Exactly one error is possible for each way a request
/// can be invalid, and errors are detected before any conversion
/// arithmetic runs.
pub fn run_conversion(from_name: &str, to_name: &str, value: Rational) -> (r: Result<
    Conversion,
    UnitError,
>)
    requires
        value.wf(),
    ensures
        match r {
            Ok(c) => {
                &&& spec_resolve(from_name@) == Some(c.from)
                &&& spec_resolve(to_name@) == Some(c.to)
                &&& same_category(c.from, c.to)
                &&& (ratio_based(c.from) ==> value@.num >= 0)
                &&& c.value == value
                &&& c.output@ == spec_category_convert(c.from, c.to, value@)
                &&& c.output@.den > 0
            },
            Err(UnitError::UnknownUnit { unit, position }) => {
                ||| (spec_resolve(from_name@) is None && unit@ == from_name@ && position@
                == "--from"@)
                ||| (spec_resolve(from_name@) is Some && spec_resolve(to_name@) is None && unit@
                == to_name@ && position@ == "--to"@)
            },
            Err(UnitError::CrossCategoryConversion { from_category, to_category }) => {
                &&& (spec_resolve(from_name@) matches Some(f) && spec_resolve(to_name@) matches
                Some(t) && !same_category(f, t) && from_category@ == f.spec_category_name()
                && to_category@ == t.spec_category_name())
            },
            Err(UnitError::InvalidValue) => {
                &&& (spec_resolve(from_name@) matches Some(f) && spec_resolve(to_name@) matches
                Some(t) && same_category(f, t) && ratio_based(f) && value@.num < 0)
            },
        },
{
    let from = match resolve_unit(from_name, "--from") {
        Ok(m) => m,
        Err(e) => {
            return Err(e);
        },
    };
    let to = match resolve_unit(to_name, "--to") {
        Ok(m) => m,
        Err(e) => {
            return Err(e);
        },
    };
    match (from, to) {
        (MetricSystem::Tempr(f), MetricSystem::Tempr(t)) => {
            let output = temperature::TemperatureUnit::convert(&f, &t, value);
            Ok(Conversion { from, to, value, output })
        },
        (MetricSystem::Len(f), MetricSystem::Len(t)) => {
            if value.is_negative() {
                return Err(UnitError::InvalidValue);
            }
            let output = length::LengthUnit::convert(&f, &t, value);
            Ok(Conversion { from, to, value, output })
        },
        (MetricSystem::Weight(f), MetricSystem::Weight(t)) => {
            if value.is_negative() {
                return Err(UnitError::InvalidValue);
            }
            let output = weight::WeightUnit::convert(&f, &t, value);
            Ok(Conversion { from, to, value, output })
        },
        _ => Err(
            UnitError::CrossCategoryConversion {
                from_category: from.category_name(),
                to_category: to.category_name(),
            },
        ),
    }
}

/// The value `celc`, taken from the Celsius scale to the Fahrenheit
/// scale: exactly `celc * 9/5 + 32`.
pub fn celcius_to_fahrenheit(celc: Rational) -> (r: Rational)
    requires
        celc.wf(),
    ensures
        r@.num == 9 * celc@.num + 160 * celc@.den,
        r@.den == 5 * celc@.den,
        frac_eq(
            r@,
            temperature::TemperatureUnit::spec_convert(
                temperature::TemperatureUnit::Celcius,
                temperature::TemperatureUnit::Fahrenheit,
                celc@,
            ),
        ),
{
    let r = Rational { num: 9 * celc.num + 160 * celc.den, den: 5 * celc.den };
    proof {
        let full = temperature::TemperatureUnit::spec_convert(
            temperature::TemperatureUnit::Celcius,
            temperature::TemperatureUnit::Fahrenheit,
            celc@,
        );
        assert(full == crate::rational::frac_scale(10000, r@));
        crate::rational::lemma_scale_eq(10000, r@);
    }
    r
}

/// The value `celc`, taken from the Celsius scale to the Kelvin scale:
/// exactly `celc + 273.15`.
pub fn celcius_to_kelvin(celc: Rational) -> (r: Rational)
    requires
        celc.wf(),
    ensures
        r@ == temperature::TemperatureUnit::spec_convert(
            temperature::TemperatureUnit::Celcius,
            temperature::TemperatureUnit::Kelvin,
            celc@,
        ),
        r@.den > 0,
{
    Rational { num: 100 * celc.num + 27315 * celc.den, den: 100 * celc.den }
}

} // verus!
