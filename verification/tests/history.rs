use unitconv::converter::run_conversion;
use unitconv::history::append_record;
use unitconv::history::load_or_empty;
use unitconv::history::render_line;
use unitconv::history::u64_to_string;
use unitconv::history::History;
use unitconv::rational::Rational;

#[test]
fn append_then_load_keeps_one_record() {
    let mut log: Vec<History> = Vec::new();
    let c = run_conversion("kilometer", "meter", Rational::from_integer(5)).unwrap();
    append_record(&mut log, History::of_conversion(&c));
    assert_eq!(log.len(), 1);
    assert_eq!(log[0].from_unit, "kilometer");
    assert_eq!(log[0].to_unit, "meter");
    assert!(log[0].value_unit.eq_rational(&Rational::from_integer(5)));
    assert!(log[0].output_unit.eq_rational(&Rational::from_integer(5000)));
}

#[test]
fn append_preserves_order() {
    let mut log: Vec<History> = Vec::new();
    let first = run_conversion("kilogram", "gram", Rational::from_integer(1)).unwrap();
    let second = run_conversion("celcius", "kelvin", Rational::from_integer(0)).unwrap();
    append_record(&mut log, History::of_conversion(&first));
    append_record(&mut log, History::of_conversion(&second));
    assert_eq!(log.len(), 2);
    assert_eq!(log[0].from_unit, "kilogram");
    assert_eq!(log[0].to_unit, "gram");
    assert_eq!(log[1].from_unit, "celcius");
    assert_eq!(log[1].to_unit, "kelvin");
}

#[test]
fn load_falls_open_to_empty() {
    let loaded = load_or_empty(None);
    assert!(loaded.is_empty());
    let mut log: Vec<History> = Vec::new();
    let c = run_conversion("m", "cm", Rational::from_integer(2)).unwrap();
    append_record(&mut log, History::of_conversion(&c));
    let reloaded = load_or_empty(Some(log));
    assert_eq!(reloaded.len(), 1);
    assert_eq!(reloaded[0].from_unit, "meter");
}

#[test]
fn renders_decimal_indexes() {
    assert_eq!(u64_to_string(0), "0");
    assert_eq!(u64_to_string(7), "7");
    assert_eq!(u64_to_string(120), "120");
    assert_eq!(u64_to_string(18446744073709551615), "18446744073709551615");
}

#[test]
fn renders_history_lines() {
    let line = render_line(1, "5", "kilometer", "5000", "meter");
    assert_eq!(line, "1. 5 kilometer = 5000 meter");
    let line = render_line(12, "0", "celcius", "273.15", "kelvin");
    assert_eq!(line, "12. 0 celcius = 273.15 kelvin");
}
