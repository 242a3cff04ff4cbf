use nutype_macros::float::FloatValidatorKind;
use nutype_macros::integer::{IntegerSanitizerKind, IntegerValidatorKind};
use nutype_macros::kinds::{
    display_name, kind_from_str, parse_kind, possible_values, spelling, Case, KindParseError,
};
use nutype_macros::raw_validation::ExtraValidateAttrKind;

fn s(v: Vec<char>) -> String {
    v.into_iter().collect()
}

#[test]
fn snake_case_name_is_accepted() {
    let r = parse_kind::<IntegerValidatorKind>("greater_or_equal");
    assert!(matches!(r, Ok(IntegerValidatorKind::GreaterOrEqual)));
    let r = parse_kind::<IntegerValidatorKind>("less");
    assert!(matches!(r, Ok(IntegerValidatorKind::Less)));
    let r = parse_kind::<FloatValidatorKind>("finite");
    assert!(matches!(r, Ok(FloatValidatorKind::Finite)));
    let r = parse_kind::<ExtraValidateAttrKind>("error");
    assert!(matches!(r, Ok(ExtraValidateAttrKind::Error)));
}

#[test]
fn other_spellings_suggest_the_snake_case_name() {
    for name in ["GreaterOrEqual", "greaterOrEqual", "GREATER_OR_EQUAL", "greater-or-equal", "Greater Or Equal", "greaterorequal", "GREATERorequal_x"] {
        let r = parse_kind::<IntegerValidatorKind>(name);
        if name == "GREATERorequal_x" {
            assert!(matches!(r, Err(KindParseError::Unknown)));
        } else {
            assert!(matches!(r, Err(KindParseError::DidYouMean(IntegerValidatorKind::GreaterOrEqual))), "{name}");
        }
    }
    let r = parse_kind::<IntegerValidatorKind>("GREATER-OR-EQUAL");
    assert!(matches!(r, Err(KindParseError::DidYouMean(IntegerValidatorKind::GreaterOrEqual))));
    let r = parse_kind::<IntegerValidatorKind>("GREATEROREQUAL");
    assert!(matches!(r, Err(KindParseError::DidYouMean(IntegerValidatorKind::GreaterOrEqual))));
}

#[test]
fn unknown_name_is_refused() {
    assert!(matches!(parse_kind::<IntegerValidatorKind>("greatest"), Err(KindParseError::Unknown)));
    assert!(matches!(parse_kind::<IntegerValidatorKind>(""), Err(KindParseError::Unknown)));
}

#[test]
fn identifier_is_found_before_spellings() {
    assert!(matches!(kind_from_str::<IntegerSanitizerKind>("_Phantom"), Some(IntegerSanitizerKind::_Phantom)));
    assert!(matches!(kind_from_str::<IntegerSanitizerKind>("phantom"), Some(IntegerSanitizerKind::_Phantom)));
    assert!(kind_from_str::<IntegerSanitizerKind>("phantoms").is_none());
}

#[test]
fn display_names_are_snake_case() {
    assert_eq!(s(display_name(IntegerValidatorKind::LessOrEqual)), "less_or_equal");
    assert_eq!(s(display_name(FloatValidatorKind::Predicate)), "predicate");
    assert_eq!(s(display_name(IntegerSanitizerKind::_Phantom)), "phantom");
}

#[test]
fn possible_values_leave_out_phantom() {
    let v: Vec<String> = possible_values::<IntegerSanitizerKind>().into_iter().map(s).collect();
    assert_eq!(v, vec!["with".to_string()]);
    let v: Vec<String> = possible_values::<FloatValidatorKind>().into_iter().map(s).collect();
    assert_eq!(v, vec!["greater", "greater_or_equal", "less", "less_or_equal", "predicate", "finite"]);
}

#[test]
fn spellings_in_each_case() {
    let words = vec!["greater", "or", "equal"];
    let expect = [
        (Case::Snake, "greater_or_equal"),
        (Case::Camel, "greaterOrEqual"),
        (Case::Pascal, "GreaterOrEqual"),
        (Case::ScreamingSnake, "GREATER_OR_EQUAL"),
        (Case::Kebab, "greater-or-equal"),
        (Case::ScreamingKebab, "GREATER-OR-EQUAL"),
        (Case::Title, "Greater Or Equal"),
        (Case::Lower, "greaterorequal"),
        (Case::Upper, "GREATEROREQUAL"),
    ];
    for (case, text) in expect {
        assert_eq!(s(spelling(&words, case)), text);
    }
}

fn round_trips<K: nutype_macros::kinds::KindName + PartialEq + std::fmt::Debug>() {
    for k in K::all() {
        let name = s(display_name(k));
        match parse_kind::<K>(&name) {
            Ok(back) => assert_eq!(back, k),
            Err(_) => panic!("{name} is not read back"),
        }
    }
}

#[test]
fn every_kind_is_read_back_from_its_display_name() {
    round_trips::<IntegerValidatorKind>();
    round_trips::<IntegerSanitizerKind>();
    round_trips::<FloatValidatorKind>();
    round_trips::<nutype_macros::float::FloatSanitizerKind>();
    round_trips::<nutype_macros::decimal::DecimalValidatorKind>();
    round_trips::<nutype_macros::decimal::DecimalSanitizerKind>();
    round_trips::<nutype_macros::any::AnyValidatorKind>();
    round_trips::<nutype_macros::any::AnySanitizerKind>();
    round_trips::<ExtraValidateAttrKind>();
}
