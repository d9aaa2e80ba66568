use unitconv::converter::error::UnitError;
use unitconv::converter::length::LengthUnit;
use unitconv::converter::temperature::TemperatureUnit;
use unitconv::converter::weight::WeightUnit;
use unitconv::converter::resolve_unit;
use unitconv::converter::MetricSystem;
use unitconv::rational::Rational;

#[test]
fn parse_is_case_insensitive() {
    let a = LengthUnit::from_str("KM").unwrap();
    let b = LengthUnit::from_str("km").unwrap();
    let c = LengthUnit::from_str("kilometer").unwrap();
    assert_eq!(a, LengthUnit::Kilometer);
    assert_eq!(a, b);
    assert_eq!(b, c);
    let d = WeightUnit::from_str("KiLoGrAm").unwrap();
    assert_eq!(d, WeightUnit::Kilogram);
    let e = TemperatureUnit::from_str("CELCIUS").unwrap();
    assert_eq!(e, TemperatureUnit::Celcius);
}

#[test]
fn unknown_unit_carries_the_text() {
    let err = MetricSystem::from_str("bogus-unit").unwrap_err();
    match err {
        UnitError::UnknownUnit { unit, position } => {
            assert_eq!(unit, "bogus-unit");
            assert_eq!(position, "");
        }
        other => panic!("expected an unknown-unit error, got {:?}", other),
    }
}

#[test]
fn unknown_unit_names_the_argument() {
    let err = resolve_unit("bogus-unit", "--from").unwrap_err();
    match err {
        UnitError::UnknownUnit { unit, position } => {
            assert_eq!(unit, "bogus-unit");
            assert_eq!(position, "--from");
        }
        other => panic!("expected an unknown-unit error, got {:?}", other),
    }
}

#[test]
fn resolution_tries_every_category() {
    assert_eq!(
        MetricSystem::from_str("kelvin").unwrap(),
        MetricSystem::Tempr(TemperatureUnit::Kelvin)
    );
    assert_eq!(
        MetricSystem::from_str("dam").unwrap(),
        MetricSystem::Len(LengthUnit::Decameter)
    );
    assert_eq!(
        MetricSystem::from_str("dag").unwrap(),
        MetricSystem::Weight(WeightUnit::Decagram)
    );
}

#[test]
fn every_alias_parses() {
    let lengths = [
        ("kilometer", "km", LengthUnit::Kilometer),
        ("hectometer", "hm", LengthUnit::Hectometer),
        ("decameter", "dam", LengthUnit::Decameter),
        ("meter", "m", LengthUnit::Meter),
        ("decimeter", "dm", LengthUnit::Decimeter),
        ("centimeter", "cm", LengthUnit::Centimeter),
        ("milimeter", "mm", LengthUnit::Milimeter),
    ];
    for (full, short, unit) in lengths {
        assert_eq!(LengthUnit::from_str(full).unwrap(), unit);
        assert_eq!(LengthUnit::from_str(short).unwrap(), unit);
    }
    let weights = [
        ("tonne", "t", WeightUnit::Tonne),
        ("kilogram", "kg", WeightUnit::Kilogram),
        ("hectogram", "hg", WeightUnit::Hectogram),
        ("decagram", "dag", WeightUnit::Decagram),
        ("gram", "g", WeightUnit::Gram),
        ("decigram", "dg", WeightUnit::Decigram),
        ("centigram", "cg", WeightUnit::Centigram),
        ("miligram", "mg", WeightUnit::Miligram),
    ];
    for (full, short, unit) in weights {
        assert_eq!(WeightUnit::from_str(full).unwrap(), unit);
        assert_eq!(WeightUnit::from_str(short).unwrap(), unit);
    }
}

#[test]
fn names_and_labels() {
    assert_eq!(WeightUnit::Kilogram.as_str(), "kilogram");
    assert_eq!(WeightUnit::Kilogram.label(), "Kg");
    assert_eq!(LengthUnit::Kilometer.as_str(), "kilometer");
    assert_eq!(LengthUnit::Kilometer.label(), "Km");
    assert_eq!(TemperatureUnit::Celcius.as_str(), "celcius");
    assert_eq!(TemperatureUnit::Celcius.label(), "\u{b0}C");
    assert_eq!(TemperatureUnit::Kelvin.label(), "K");
}

#[test]
fn category_names() {
    assert_eq!(
        MetricSystem::Tempr(TemperatureUnit::Kelvin).category_name(),
        "Temperature"
    );
    assert_eq!(
        MetricSystem::Len(LengthUnit::Meter).category_name(),
        "Length"
    );
    assert_eq!(
        MetricSystem::Weight(WeightUnit::Gram).category_name(),
        "Weight"
    );
}

#[test]
fn unit_listings_are_complete() {
    assert_eq!(TemperatureUnit::all().len(), 3);
    assert_eq!(LengthUnit::all().len(), 7);
    assert_eq!(WeightUnit::all().len(), 8);
    assert_eq!(LengthUnit::all()[0], LengthUnit::Kilometer);
    assert_eq!(WeightUnit::all()[0], WeightUnit::Tonne);
}

#[test]
fn decimal_literals_parse_exactly() {
    let v = Rational::from_decimal_str("2.5").unwrap();
    assert!(v.eq_rational(&Rational::new(5, 2)));
    let w = Rational::from_decimal_str("-0.25").unwrap();
    assert!(w.eq_rational(&Rational::new(-1, 4)));
    let x = Rational::from_decimal_str("120").unwrap();
    assert_eq!(x.num, 120);
    assert_eq!(x.den, 1);
    let y = Rational::from_decimal_str("-5").unwrap();
    assert!(y.eq_rational(&Rational::from_integer(-5)));
    let z = Rational::from_decimal_str("00").unwrap();
    assert!(z.eq_rational(&Rational::from_integer(0)));
}

#[test]
fn malformed_decimal_literals_are_rejected() {
    assert!(Rational::from_decimal_str("").is_none());
    assert!(Rational::from_decimal_str("-").is_none());
    assert!(Rational::from_decimal_str(".").is_none());
    assert!(Rational::from_decimal_str("1.").is_none());
    assert!(Rational::from_decimal_str(".5").is_none());
    assert!(Rational::from_decimal_str("1.2.3").is_none());
    assert!(Rational::from_decimal_str("abc").is_none());
    assert!(Rational::from_decimal_str("1e3").is_none());
    assert!(Rational::from_decimal_str("+5").is_none());
    assert!(Rational::from_decimal_str("1234567890123456789").is_none());
}
