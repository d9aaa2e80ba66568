//! Weight units: metric weights from the milligram to the tonne.

use vstd::prelude::*;

use crate::converter::error::UnitError;
use crate::converter::matches_alias;
use crate::converter::eq_ignore_case;
use crate::rational::Frac;
use crate::rational::Rational;
use crate::rational::frac_eq;
use crate::rational::MAX_MAGNITUDE;
use crate::rational::lemma_mul_bound;
use crate::rational::lemma_mul_pos;

verus! {

/// A unit of weight. The base unit of the category is the gram.
#[derive(Clone, Copy, Debug, PartialEq, Eq, Structural)]
pub enum WeightUnit {
    Tonne,
    Kilogram,
    Hectogram,
    Decagram,
    Gram,
    Decigram,
    Centigram,
    Miligram,
}

impl WeightUnit {
    /// Ratio of this unit to the gram, as an exact fraction.
    pub open spec fn spec_ratio(self) -> Frac {
        match self {
            WeightUnit::Miligram => Frac { num: 1, den: 1000 },
            WeightUnit::Centigram => Frac { num: 1, den: 100 },
            WeightUnit::Decigram => Frac { num: 1, den: 10 },
            WeightUnit::Gram => Frac { num: 1, den: 1 },
            WeightUnit::Decagram => Frac { num: 10, den: 1 },
            WeightUnit::Hectogram => Frac { num: 100, den: 1 },
            WeightUnit::Kilogram => Frac { num: 1000, den: 1 },
            WeightUnit::Tonne => Frac { num: 1000000, den: 1 },
        }
    }

    /// Ratio of this unit to the gram.
    fn ratio(&self) -> (r: Rational)
        ensures
            r@ == self.spec_ratio(),
            1 <= r.num <= 1000000,
            1 <= r.den <= 1000,
    {
        match self {
            WeightUnit::Miligram => Rational { num: 1, den: 1000 },
            WeightUnit::Centigram => Rational { num: 1, den: 100 },
            WeightUnit::Decigram => Rational { num: 1, den: 10 },
            WeightUnit::Gram => Rational { num: 1, den: 1 },
            WeightUnit::Decagram => Rational { num: 10, den: 1 },
            WeightUnit::Hectogram => Rational { num: 100, den: 1 },
            WeightUnit::Kilogram => Rational { num: 1000, den: 1 },
            WeightUnit::Tonne => Rational { num: 1000000, den: 1 },
        }
    }

    /// Converts `value` from `from_unit` to `to_unit`:
    /// exactly `value * ratio(from_unit) / ratio(to_unit)`.
    pub fn convert(from_unit: &Self, to_unit: &Self, value: Rational) -> (r: Rational)
        requires
            value.wf(),
        ensures
            r@ == crate::converter::spec_convert_ratio(
                from_unit.spec_ratio(),
                to_unit.spec_ratio(),
                value@,
            ),
            r@.den > 0,
    {
        let rf = from_unit.ratio();
        let rt = to_unit.ratio();
        proof {
            lemma_mul_bound(value.num as int, rf.num as int, MAX_MAGNITUDE as int + 1, 1000000);
            lemma_mul_bound(
                value.num as int * rf.num as int,
                rt.den as int,
                (MAX_MAGNITUDE as int + 1) * 1000000,
                1000,
            );
            lemma_mul_bound(value.den as int, rf.den as int, MAX_MAGNITUDE as int, 1000);
            lemma_mul_bound(
                value.den as int * rf.den as int,
                rt.num as int,
                MAX_MAGNITUDE as int * 1000,
                1000000,
            );
            lemma_mul_pos(value.den as int, rf.den as int);
            lemma_mul_pos(value.den as int * rf.den as int, rt.num as int);
        }
        Rational { num: value.num * rf.num * rt.den, den: value.den * rf.den * rt.num }
    }

    /// The accepted spellings of each unit name, matched ignoring case:
    /// the full name and the usual abbreviation.
    pub open spec fn spec_from_str(s: Seq<char>) -> Option<WeightUnit> {
        if matches_alias(s, "tonne") || matches_alias(s, "t") {
            Some(WeightUnit::Tonne)
        } else if matches_alias(s, "kilogram") || matches_alias(s, "kg") {
            Some(WeightUnit::Kilogram)
        } else if matches_alias(s, "hectogram") || matches_alias(s, "hg") {
            Some(WeightUnit::Hectogram)
        } else if matches_alias(s, "decagram") || matches_alias(s, "dag") {
            Some(WeightUnit::Decagram)
        } else if matches_alias(s, "gram") || matches_alias(s, "g") {
            Some(WeightUnit::Gram)
        } else if matches_alias(s, "decigram") || matches_alias(s, "dg") {
            Some(WeightUnit::Decigram)
        } else if matches_alias(s, "centigram") || matches_alias(s, "cg") {
            Some(WeightUnit::Centigram)
        } else if matches_alias(s, "miligram") || matches_alias(s, "mg") {
            Some(WeightUnit::Miligram)
        } else {
            None
        }
    }

    /// Parses a unit name, ignoring ASCII case. On failure the error
    /// carries the offending text verbatim.
    pub fn from_str(s: &str) -> (r: Result<WeightUnit, UnitError>)
        ensures
            match r {
                Ok(u) => Self::spec_from_str(s@) == Some(u),
                Err(e) => Self::spec_from_str(s@) is None && (e matches
                UnitError::UnknownUnit { unit, position } && unit@ == s@ && position@ == ""@),
            },
    {
        if eq_ignore_case(s, "tonne") || eq_ignore_case(s, "t") {
            Ok(WeightUnit::Tonne)
        } else if eq_ignore_case(s, "kilogram") || eq_ignore_case(s, "kg") {
            Ok(WeightUnit::Kilogram)
        } else if eq_ignore_case(s, "hectogram") || eq_ignore_case(s, "hg") {
            Ok(WeightUnit::Hectogram)
        } else if eq_ignore_case(s, "decagram") || eq_ignore_case(s, "dag") {
            Ok(WeightUnit::Decagram)
        } else if eq_ignore_case(s, "gram") || eq_ignore_case(s, "g") {
            Ok(WeightUnit::Gram)
        } else if eq_ignore_case(s, "decigram") || eq_ignore_case(s, "dg") {
            Ok(WeightUnit::Decigram)
        } else if eq_ignore_case(s, "centigram") || eq_ignore_case(s, "cg") {
            Ok(WeightUnit::Centigram)
        } else if eq_ignore_case(s, "miligram") || eq_ignore_case(s, "mg") {
            Ok(WeightUnit::Miligram)
        } else {
            Err(UnitError::UnknownUnit { unit: s.to_owned(), position: "" })
        }
    }

    /// The canonical (full, lower-case) name of this unit.
    pub open spec fn spec_name(self) -> Seq<char> {
        match self {
            WeightUnit::Tonne => "tonne"@,
            WeightUnit::Kilogram => "kilogram"@,
            WeightUnit::Hectogram => "hectogram"@,
            WeightUnit::Decagram => "decagram"@,
            WeightUnit::Gram => "gram"@,
            WeightUnit::Decigram => "decigram"@,
            WeightUnit::Centigram => "centigram"@,
            WeightUnit::Miligram => "miligram"@,
        }
    }

    /// The canonical name of this unit.
    pub fn as_str(&self) -> (r: &'static str)
        ensures
            r@ == self.spec_name(),
    {
        match self {
            WeightUnit::Tonne => "tonne",
            WeightUnit::Kilogram => "kilogram",
            WeightUnit::Hectogram => "hectogram",
            WeightUnit::Decagram => "decagram",
            WeightUnit::Gram => "gram",
            WeightUnit::Decigram => "decigram",
            WeightUnit::Centigram => "centigram",
            WeightUnit::Miligram => "miligram",
        }
    }

    /// The short display label of this unit.
    pub open spec fn spec_label(self) -> Seq<char> {
        match self {
            WeightUnit::Tonne => "T"@,
            WeightUnit::Kilogram => "Kg"@,
            WeightUnit::Hectogram => "Hg"@,
            WeightUnit::Decagram => "Dag"@,
            WeightUnit::Gram => "g"@,
            WeightUnit::Decigram => "Dg"@,
            WeightUnit::Centigram => "Cg"@,
            WeightUnit::Miligram => "Mg"@,
        }
    }

    /// The short display label of this unit, for human-readable output.
    pub fn label(&self) -> (r: &'static str)
        ensures
            r@ == self.spec_label(),
    {
        match self {
            WeightUnit::Tonne => "T",
            WeightUnit::Kilogram => "Kg",
            WeightUnit::Hectogram => "Hg",
            WeightUnit::Decagram => "Dag",
            WeightUnit::Gram => "g",
            WeightUnit::Decigram => "Dg",
            WeightUnit::Centigram => "Cg",
            WeightUnit::Miligram => "Mg",
        }
    }

    /// All weight units, largest first.
    pub fn all() -> (v: Vec<WeightUnit>)
        ensures
            v@ == seq![
                WeightUnit::Tonne,
                WeightUnit::Kilogram,
                WeightUnit::Hectogram,
                WeightUnit::Decagram,
                WeightUnit::Gram,
                WeightUnit::Decigram,
                WeightUnit::Centigram,
                WeightUnit::Miligram,
            ],
    {
        let mut v: Vec<WeightUnit> = Vec::new();
        v.push(WeightUnit::Tonne);
        v.push(WeightUnit::Kilogram);
        v.push(WeightUnit::Hectogram);
        v.push(WeightUnit::Decagram);
        v.push(WeightUnit::Gram);
        v.push(WeightUnit::Decigram);
        v.push(WeightUnit::Centigram);
        v.push(WeightUnit::Miligram);
        proof {
            assert(v@ =~= seq![
                WeightUnit::Tonne,
                WeightUnit::Kilogram,
                WeightUnit::Hectogram,
                WeightUnit::Decagram,
                WeightUnit::Gram,
                WeightUnit::Decigram,
                WeightUnit::Centigram,
                WeightUnit::Miligram,
            ]);
        }
        v
    }
}

/// Identity conversion: converting a weight from a unit to that same
/// unit gives the value back, for every unit and every value.
pub proof fn lemma_identity_conversion(u: WeightUnit, v: Frac)
    ensures
        frac_eq(crate::converter::spec_convert_ratio(u.spec_ratio(), u.spec_ratio(), v), v),
{
    crate::converter::lemma_ratio_identity(u.spec_ratio(), v);
}

/// Round trip: converting a weight from `a` to `b` and the result back
/// from `b` to `a` gives the value back exactly, for every pair of
/// units and every value.
pub proof fn lemma_round_trip(a: WeightUnit, b: WeightUnit, v: Frac)
    ensures
        frac_eq(
            crate::converter::spec_convert_ratio(
                b.spec_ratio(),
                a.spec_ratio(),
                crate::converter::spec_convert_ratio(a.spec_ratio(), b.spec_ratio(), v),
            ),
            v,
        ),
{
    crate::converter::lemma_ratio_round_trip(a.spec_ratio(), b.spec_ratio(), v);
}

} // verus!
