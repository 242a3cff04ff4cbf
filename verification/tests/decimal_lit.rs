use nutype_macros::decimal_lit::DecimalLit;

fn lit(s: &str) -> DecimalLit {
    s.parse::<DecimalLit>().unwrap()
}

#[test]
fn scale_insensitive_equality() {
    assert_eq!(lit("0.5"), lit("0.50"));
    assert_eq!(lit("1"), lit("1.000"));
}

#[test]
fn ordering() {
    assert!(lit("-0.1") < lit("0.1"));
    assert!(lit("1") < lit("1.5"));
    assert!(lit("-1.5") < lit("-1"));
}

#[test]
fn rejects_invalid_literal() {
    assert!("1.2.3".parse::<DecimalLit>().is_err());
    // Out of Decimal's range.
    assert!("1e40".parse::<DecimalLit>().is_err());
}

#[test]
fn parse_keeps_mantissa_and_scale() {
    let v = lit("1.50");
    assert_eq!(v.mantissa(), 150);
    assert_eq!(v.scale(), 2);
    let w = lit("-0.001");
    assert_eq!(w.mantissa(), -1);
    assert_eq!(w.scale(), 3);
    let big = lit("100000000000000000000");
    assert_eq!(big.mantissa(), 100000000000000000000i128);
    assert_eq!(big.scale(), 0);
}

#[test]
fn compare_gives_sign_of_difference() {
    assert_eq!(lit("0.5").compare(&lit("0.50")), 0);
    assert_eq!(lit("2").compare(&lit("1.99")), 1);
    assert_eq!(lit("-3").compare(&lit("0")), -1);
}

#[test]
fn equality_is_by_value_across_scales() {
    // a == b and b == c at different scales
    let a = lit("2");
    let b = lit("2.0");
    let c = lit("2.000");
    assert!(a == b && b == c && a == c);
    assert!(lit("2.0001") != lit("2"));
}

#[test]
fn ordering_is_transitive_on_examples() {
    let a = lit("-1.25");
    let b = lit("0.125");
    let c = lit("3");
    assert!(a < b && b < c && a < c);
    assert!(!(c < a));
    assert!(a.partial_cmp(&a) == Some(std::cmp::Ordering::Equal));
}

#[test]
fn parse_via_method() {
    assert!(DecimalLit::parse("abc").is_err());
    assert_eq!(DecimalLit::parse("12.5").unwrap().mantissa(), 125);
}
