//! Length units: metric lengths from the millimeter to the kilometer.

use vstd::prelude::*;

use crate::converter::error::UnitError;
use crate::converter::matches_alias;
use crate::converter::eq_ignore_case;
use crate::rational::Frac;
use crate::rational::Rational;
use crate::rational::frac_eq;
use crate::rational::MAX_MAGNITUDE;
use crate::rational::lemma_mul_bound;
use crate::rational::lemma_mul_pos;

verus! {

/// A unit of length. The base unit of the category is the meter.
#[derive(Clone, Copy, Debug, PartialEq, Eq, Structural)]
pub enum LengthUnit {
    Kilometer,
    Hectometer,
    Decameter,
    Meter,
    Decimeter,
    Centimeter,
    Milimeter,
}

impl LengthUnit {
    /// Ratio of this unit to the meter, as an exact fraction.
    pub open spec fn spec_ratio(self) -> Frac {
        match self {
            LengthUnit::Milimeter => Frac { num: 1, den: 1000 },
            LengthUnit::Centimeter => Frac { num: 1, den: 100 },
            LengthUnit::Decimeter => Frac { num: 1, den: 10 },
            LengthUnit::Meter => Frac { num: 1, den: 1 },
            LengthUnit::Decameter => Frac { num: 10, den: 1 },
            LengthUnit::Hectometer => Frac { num: 100, den: 1 },
            LengthUnit::Kilometer => Frac { num: 1000, den: 1 },
        }
    }

    /// Ratio of this unit to the meter.
    fn ratio(&self) -> (r: Rational)
        ensures
            r@ == self.spec_ratio(),
            1 <= r.num <= 1000,
            1 <= r.den <= 1000,
    {
        match self {
            LengthUnit::Milimeter => Rational { num: 1, den: 1000 },
            LengthUnit::Centimeter => Rational { num: 1, den: 100 },
            LengthUnit::Decimeter => Rational { num: 1, den: 10 },
            LengthUnit::Meter => Rational { num: 1, den: 1 },
            LengthUnit::Decameter => Rational { num: 10, den: 1 },
            LengthUnit::Hectometer => Rational { num: 100, den: 1 },
            LengthUnit::Kilometer => Rational { num: 1000, den: 1 },
        }
    }

    /// Converts `value` from `from_unit` to `to_unit`:
    /// exactly `value * ratio(from_unit) / ratio(to_unit)`.
    pub fn convert(from_unit: &Self, to_unit: &Self, value: Rational) -> (r: Rational)
        requires
            value.wf(),
        ensures
            r@ == crate::converter::spec_convert_ratio(
                from_unit.spec_ratio(),
                to_unit.spec_ratio(),
                value@,
            ),
            r@.den > 0,
    {
        let rf = from_unit.ratio();
        let rt = to_unit.ratio();
        proof {
            lemma_mul_bound(value.num as int, rf.num as int, MAX_MAGNITUDE as int + 1, 1000);
            lemma_mul_bound(
                value.num as int * rf.num as int,
                rt.den as int,
                (MAX_MAGNITUDE as int + 1) * 1000,
                1000,
            );
            lemma_mul_bound(value.den as int, rf.den as int, MAX_MAGNITUDE as int, 1000);
            lemma_mul_bound(
                value.den as int * rf.den as int,
                rt.num as int,
                MAX_MAGNITUDE as int * 1000,
                1000,
            );
            lemma_mul_pos(value.den as int, rf.den as int);
            lemma_mul_pos(value.den as int * rf.den as int, rt.num as int);
        }
        Rational { num: value.num * rf.num * rt.den, den: value.den * rf.den * rt.num }
    }

    /// The accepted spellings of each unit name, matched ignoring case:
    /// the full name and the usual abbreviation.
    pub open spec fn spec_from_str(s: Seq<char>) -> Option<LengthUnit> {
        if matches_alias(s, "kilometer") || matches_alias(s, "km") {
            Some(LengthUnit::Kilometer)
        } else if matches_alias(s, "hectometer") || matches_alias(s, "hm") {
            Some(LengthUnit::Hectometer)
        } else if matches_alias(s, "decameter") || matches_alias(s, "dam") {
            Some(LengthUnit::Decameter)
        } else if matches_alias(s, "meter") || matches_alias(s, "m") {
            Some(LengthUnit::Meter)
        } else if matches_alias(s, "decimeter") || matches_alias(s, "dm") {
            Some(LengthUnit::Decimeter)
        } else if matches_alias(s, "centimeter") || matches_alias(s, "cm") {
            Some(LengthUnit::Centimeter)
        } else if matches_alias(s, "milimeter") || matches_alias(s, "mm") {
            Some(LengthUnit::Milimeter)
        } else {
            None
        }
    }

    /// Parses a unit name, ignoring ASCII case. On failure the error
    /// carries the offending text verbatim.
    pub fn from_str(s: &str) -> (r: Result<LengthUnit, UnitError>)
        ensures
            match r {
                Ok(u) => Self::spec_from_str(s@) == Some(u),
                Err(e) => Self::spec_from_str(s@) is None && (e matches
                UnitError::UnknownUnit { unit, position } && unit@ == s@ && position@ == ""@),
            },
    {
        if eq_ignore_case(s, "kilometer") || eq_ignore_case(s, "km") {
            Ok(LengthUnit::Kilometer)
        } else if eq_ignore_case(s, "hectometer") || eq_ignore_case(s, "hm") {
            Ok(LengthUnit::Hectometer)
        } else if eq_ignore_case(s, "decameter") || eq_ignore_case(s, "dam") {
            Ok(LengthUnit::Decameter)
        } else if eq_ignore_case(s, "meter") || eq_ignore_case(s, "m") {
            Ok(LengthUnit::Meter)
        } else if eq_ignore_case(s, "decimeter") || eq_ignore_case(s, "dm") {
            Ok(LengthUnit::Decimeter)
        } else if eq_ignore_case(s, "centimeter") || eq_ignore_case(s, "cm") {
            Ok(LengthUnit::Centimeter)
        } else if eq_ignore_case(s, "milimeter") || eq_ignore_case(s, "mm") {
            Ok(LengthUnit::Milimeter)
        } else {
            Err(UnitError::UnknownUnit { unit: s.to_owned(), position: "" })
        }
    }

    /// The canonical (full, lower-case) name of this unit.
    pub open spec fn spec_name(self) -> Seq<char> {
        match self {
            LengthUnit::Kilometer => "kilometer"@,
            LengthUnit::Hectometer => "hectometer"@,
            LengthUnit::Decameter => "decameter"@,
            LengthUnit::Meter => "meter"@,
            LengthUnit::Decimeter => "decimeter"@,
            LengthUnit::Centimeter => "centimeter"@,
            LengthUnit::Milimeter => "milimeter"@,
        }
    }

    /// The canonical name of this unit.
    pub fn as_str(&self) -> (r: &'static str)
        ensures
            r@ == self.spec_name(),
    {
        match self {
            LengthUnit::Kilometer => "kilometer",
            LengthUnit::Hectometer => "hectometer",
            LengthUnit::Decameter => "decameter",
            LengthUnit::Meter => "meter",
            LengthUnit::Decimeter => "decimeter",
            LengthUnit::Centimeter => "centimeter",
            LengthUnit::Milimeter => "milimeter",
        }
    }

    /// The short display label of this unit.
    pub open spec fn spec_label(self) -> Seq<char> {
        match self {
            LengthUnit::Kilometer => "Km"@,
            LengthUnit::Hectometer => "Hm"@,
            LengthUnit::Decameter => "Dam"@,
            LengthUnit::Meter => "M"@,
            LengthUnit::Decimeter => "Dm"@,
            LengthUnit::Centimeter => "Cm"@,
            LengthUnit::Milimeter => "Mm"@,
        }
    }

    /// The short display label of this unit, for human-readable output.
    pub fn label(&self) -> (r: &'static str)
        ensures
            r@ == self.spec_label(),
    {
        match self {
            LengthUnit::Kilometer => "Km",
            LengthUnit::Hectometer => "Hm",
            LengthUnit::Decameter => "Dam",
            LengthUnit::Meter => "M",
            LengthUnit::Decimeter => "Dm",
            LengthUnit::Centimeter => "Cm",
            LengthUnit::Milimeter => "Mm",
        }
    }

    /// All length units, largest first.
    pub fn all() -> (v: Vec<LengthUnit>)
        ensures
            v@ == seq![
                LengthUnit::Kilometer,
                LengthUnit::Hectometer,
                LengthUnit::Decameter,
                LengthUnit::Meter,
                LengthUnit::Decimeter,
                LengthUnit::Centimeter,
                LengthUnit::Milimeter,
            ],
    {
        let mut v: Vec<LengthUnit> = Vec::new();
        v.push(LengthUnit::Kilometer);
        v.push(LengthUnit::Hectometer);
        v.push(LengthUnit::Decameter);
        v.push(LengthUnit::Meter);
        v.push(LengthUnit::Decimeter);
        v.push(LengthUnit::Centimeter);
        v.push(LengthUnit::Milimeter);
        proof {
            assert(v@ =~= seq![
                LengthUnit::Kilometer,
                LengthUnit::Hectometer,
                LengthUnit::Decameter,
                LengthUnit::Meter,
                LengthUnit::Decimeter,
                LengthUnit::Centimeter,
                LengthUnit::Milimeter,
            ]);
        }
        v
    }
}

/// Identity conversion: converting a length from a unit to that same
/// unit gives the value back, for every unit and every value.
pub proof fn lemma_identity_conversion(u: LengthUnit, v: Frac)
    ensures
        frac_eq(crate::converter::spec_convert_ratio(u.spec_ratio(), u.spec_ratio(), v), v),
{
    crate::converter::lemma_ratio_identity(u.spec_ratio(), v);
}

/// Round trip: converting a length from `a` to `b` and the result back
/// from `b` to `a` gives the value back exactly, for every pair of
/// units and every value.
pub proof fn lemma_round_trip(a: LengthUnit, b: LengthUnit, v: Frac)
    ensures
        frac_eq(
            crate::converter::spec_convert_ratio(
                b.spec_ratio(),
                a.spec_ratio(),
                crate::converter::spec_convert_ratio(a.spec_ratio(), b.spec_ratio(), v),
            ),
            v,
        ),
{
    crate::converter::lemma_ratio_round_trip(a.spec_ratio(), b.spec_ratio(), v);
}

} // verus!
