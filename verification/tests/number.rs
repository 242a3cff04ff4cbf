use nutype_macros::number::{number_text, parse_integer, parse_integer_number};

fn chars(s: &str) -> Vec<char> {
    s.chars().collect()
}

#[test]
fn number_text_drops_underscores_and_keeps_the_sign() {
    let t: String = number_text(true, "1_000").into_iter().collect();
    assert_eq!(t, "-1000");
    let t: String = number_text(false, "12_3_4").into_iter().collect();
    assert_eq!(t, "1234");
}

#[test]
fn integers_are_read_like_str_parse() {
    assert_eq!(parse_integer::<i8>(&chars("-128")), Some(-128));
    assert_eq!(parse_integer::<i8>(&chars("127")), Some(127));
    assert_eq!(parse_integer::<i8>(&chars("128")), None);
    assert_eq!(parse_integer::<i8>(&chars("-129")), None);
    assert_eq!(parse_integer::<u8>(&chars("+255")), Some(255));
    assert_eq!(parse_integer::<u8>(&chars("-0")), None);
    assert_eq!(parse_integer::<u8>(&chars("")), None);
    assert_eq!(parse_integer::<u8>(&chars("+")), None);
    assert_eq!(parse_integer::<i32>(&chars("-")), None);
    assert_eq!(parse_integer::<i32>(&chars("+-5")), None);
    assert_eq!(parse_integer::<u16>(&chars("0x10")), None);
    assert_eq!(parse_integer::<u16>(&chars("5u16")), None);
    assert_eq!(parse_integer::<i128>(&chars("-170141183460469231731687303715884105728")), Some(i128::MIN));
    assert_eq!(parse_integer::<u128>(&chars("340282366920938463463374607431768211455")), Some(u128::MAX));
    assert_eq!(parse_integer::<u128>(&chars("340282366920938463463374607431768211456")), None);
    assert_eq!(parse_integer::<u64>(&chars("99999999999999999999999999999999999999999999")), None);
    assert_eq!(parse_integer::<usize>(&chars("007")), Some(7));
    assert_eq!(parse_integer::<isize>(&chars("-7")), Some(-7));
}

#[test]
fn agrees_with_std_on_samples() {
    for s in ["0", "-0", "+0", "42", "-42", "255", "256", "-1", "1_0", " 1", "00", "+"] {
        assert_eq!(parse_integer::<u8>(&chars(s)), s.parse::<u8>().ok(), "u8 {s}");
        assert_eq!(parse_integer::<i16>(&chars(s)), s.parse::<i16>().ok(), "i16 {s}");
    }
}

#[test]
fn bound_literals() {
    assert_eq!(parse_integer_number::<i32>(true, "1_000"), Ok(-1000));
    assert_eq!(parse_integer_number::<u8>(false, "25_5"), Ok(255));
    let err = parse_integer_number::<u8>(true, "5").unwrap_err();
    assert_eq!(err.into_iter().collect::<String>(), "-5");
    let err = parse_integer_number::<i32>(false, "1.5").unwrap_err();
    assert_eq!(err.into_iter().collect::<String>(), "1.5");
}
