use slo_slicer::number::Number;

fn num(s: &str) -> Number {
    Number::parse(s).unwrap()
}

#[test]
fn number_reads_what_it_writes() {
    for text in ["0", "0.98", "99.5", "-3", "-0", "100", "12.000", "NaN", "inf", "-inf"] {
        assert_eq!(num(text).to_text(), text);
        assert_eq!(Number::parse(&num(text).to_text()), Some(num(text)));
    }
}

#[test]
fn number_refuses_malformed_text() {
    for text in ["", "-", ".", "1.", ".5", "abc", "--1", "+1", "1.2.3", "1e5", " 1", "nan", "Inf"] {
        assert_eq!(Number::parse(text), None, "{text:?} should be refused");
    }
}

#[test]
fn number_compares_with_whole_numbers() {
    assert!(num("0.98").lt(1));
    assert!(!num("0.98").lt(0));
    assert!(num("0.98").gt(0));
    assert!(num("1").le(1));
    assert!(num("1").ge(1));
    assert!(!num("1.0001").le(1));
    assert!(num("1.0001").gt(1));
    assert!(num("100").le(100));
    assert!(num("100.5").gt(100));
    assert!(!num("99.999").ge(100));
    assert!(num("-0.5").lt(0));
    assert!(!num("-0").lt(0));
    assert!(num("-0").le(0));
    assert!(num("-0").ge(0));
    assert!(num("12345678901234567890").gt(100));
}

#[test]
fn number_compares_infinities_and_nan() {
    assert!(num("inf").gt(100));
    assert!(!num("inf").le(100));
    assert!(num("-inf").lt(0));
    assert!(!num("-inf").ge(0));
    let nan = num("NaN");
    assert!(!nan.lt(1));
    assert!(!nan.le(1));
    assert!(!nan.gt(1));
    assert!(!nan.ge(1));
}

#[test]
fn number_compares_with_any_byte() {
    assert!(num("254.5").gt(254));
    assert!(num("254.5").lt(255));
    assert!(num("255").le(255));
    assert!(!num("255").lt(255));
    assert!(num("1000").gt(255));
    assert!(num("-300").lt(200));
}
