use unitconv::converter::celcius_to_fahrenheit;
use unitconv::converter::celcius_to_kelvin;
use unitconv::converter::length::LengthUnit;
use unitconv::converter::run_conversion;
use unitconv::converter::temperature::TemperatureUnit;
use unitconv::converter::weight::WeightUnit;
use unitconv::converter::MetricSystem;
use unitconv::rational::Rational;

#[test]
fn test_celc2fah() {
    let r = celcius_to_fahrenheit(Rational::from_integer(0));
    assert!(r.eq_rational(&Rational::from_integer(32)));
}

#[test]
fn test_celc2kel() {
    let r = celcius_to_kelvin(Rational::from_integer(0));
    assert!(r.eq_rational(&Rational::new(27315, 100)));
}

#[test]
fn test_celcius_to_fahrenheit() {
    let from = TemperatureUnit::from_str("celcius").unwrap();
    let to = TemperatureUnit::from_str("fahrenheit").unwrap();
    let result = TemperatureUnit::convert(&from, &to, Rational::from_integer(0));
    assert!(result.eq_rational(&Rational::from_integer(32)));
}

#[test]
fn celcius_to_kelvin_zero_is_273_15() {
    let c = run_conversion("celcius", "kelvin", Rational::from_integer(0)).unwrap();
    assert!(c.output.eq_rational(&Rational::new(27315, 100)));
}

#[test]
fn celcius_to_fahrenheit_zero_is_32() {
    let c = run_conversion("celcius", "fahrenheit", Rational::from_integer(0)).unwrap();
    assert!(c.output.eq_rational(&Rational::from_integer(32)));
}

#[test]
fn kilometer_to_meter_one_is_1000() {
    let v = Rational::from_decimal_str("1.0").unwrap();
    let c = run_conversion("kilometer", "meter", v).unwrap();
    assert!(c.output.eq_rational(&Rational::from_integer(1000)));
    assert_eq!(c.from, MetricSystem::Len(LengthUnit::Kilometer));
    assert_eq!(c.to, MetricSystem::Len(LengthUnit::Meter));
}

#[test]
fn kilogram_to_gram_2_5_is_2500() {
    let v = Rational::from_decimal_str("2.5").unwrap();
    let c = run_conversion("kilogram", "gram", v).unwrap();
    assert!(c.output.eq_rational(&Rational::from_integer(2500)));
}

#[test]
fn negative_length_is_rejected() {
    let v = Rational::from_integer(-5);
    let err = run_conversion("km", "m", v).unwrap_err();
    assert!(matches!(err, unitconv::converter::error::UnitError::InvalidValue));
}

#[test]
fn negative_weight_is_rejected() {
    let v = Rational::from_integer(-1);
    let err = run_conversion("kg", "g", v).unwrap_err();
    assert!(matches!(err, unitconv::converter::error::UnitError::InvalidValue));
}

#[test]
fn negative_temperature_is_accepted() {
    let v = Rational::from_integer(-5);
    let c = run_conversion("celcius", "fahrenheit", v).unwrap();
    assert!(c.output.eq_rational(&Rational::from_integer(23)));
}

#[test]
fn cross_category_is_rejected() {
    let err = run_conversion("celcius", "kilometer", Rational::from_integer(1)).unwrap_err();
    match err {
        unitconv::converter::error::UnitError::CrossCategoryConversion {
            from_category,
            to_category,
        } => {
            assert_eq!(from_category, "Temperature");
            assert_eq!(to_category, "Length");
        }
        other => panic!("expected a cross-category error, got {:?}", other),
    }
}

#[test]
fn identity_conversion_length() {
    let v = Rational::from_integer(7);
    let c = run_conversion("meter", "meter", v).unwrap();
    assert!(c.output.eq_rational(&v));
    let d = run_conversion("km", "km", v).unwrap();
    assert!(d.output.eq_rational(&v));
}

#[test]
fn identity_conversion_weight() {
    let v = Rational::new(3, 2);
    let c = run_conversion("gram", "gram", v).unwrap();
    assert!(c.output.eq_rational(&v));
    let d = run_conversion("tonne", "t", v).unwrap();
    assert!(d.output.eq_rational(&v));
}

#[test]
fn round_trip_length() {
    let v = Rational::from_integer(3);
    let there = LengthUnit::convert(&LengthUnit::Meter, &LengthUnit::Kilometer, v);
    let back = LengthUnit::convert(&LengthUnit::Kilometer, &LengthUnit::Meter, there);
    assert!(back.eq_rational(&v));
}

#[test]
fn round_trip_weight() {
    let v = Rational::new(5, 4);
    let there = WeightUnit::convert(&WeightUnit::Tonne, &WeightUnit::Centigram, v);
    let back = WeightUnit::convert(&WeightUnit::Centigram, &WeightUnit::Tonne, there);
    assert!(back.eq_rational(&v));
}

#[test]
fn round_trip_temperature() {
    let v = Rational::from_integer(10);
    let there = TemperatureUnit::convert(
        &TemperatureUnit::Fahrenheit,
        &TemperatureUnit::Celcius,
        v,
    );
    let back = TemperatureUnit::convert(
        &TemperatureUnit::Celcius,
        &TemperatureUnit::Fahrenheit,
        there,
    );
    assert!(back.eq_rational(&v));
}

#[test]
fn weight_ratio_table() {
    let v = Rational::from_integer(1);
    let c = run_conversion("tonne", "gram", v).unwrap();
    assert!(c.output.eq_rational(&Rational::from_integer(1_000_000)));
    let d = run_conversion("miligram", "gram", v).unwrap();
    assert!(d.output.eq_rational(&Rational::new(1, 1000)));
}

#[test]
fn length_ratio_table() {
    let v = Rational::from_integer(1);
    let c = run_conversion("hectometer", "decimeter", v).unwrap();
    assert!(c.output.eq_rational(&Rational::from_integer(1000)));
    let d = run_conversion("cm", "dam", v).unwrap();
    assert!(d.output.eq_rational(&Rational::new(1, 1000)));
}

#[test]
fn fahrenheit_to_kelvin_32_is_273_15() {
    let c = run_conversion("fahrenheit", "kelvin", Rational::from_integer(32)).unwrap();
    assert!(c.output.eq_rational(&Rational::new(27315, 100)));
}
