use nutype_macros::attr_syntax::{
    decimal_default, read_attributes, tokens_of, split_on_commas, AnyGrammar, AttrSyntaxError, DecimalDefault,
    DecimalGrammar, FloatGrammar, IntegerGrammar,
};
use nutype_macros::attributes::AttrKeywordError;
use nutype_macros::float::FloatValidator;
use nutype_macros::integer::{IntegerSanitizer, IntegerValidator};
use nutype_macros::decimal::DecimalValidator;
use nutype_macros::models::{DeriveTrait, Features, NewUnchecked, RawValidation, TypedCustomFunction, ValueOrExpr};
use nutype_macros::raw_validation::RawValidationError;

fn features(new_unchecked: bool) -> Features {
    Features { serde: true, schemars08: false, arbitrary: false, valuable: false, new_unchecked, rust_decimal: true }
}

fn ts(s: &str) -> proc_macro2::TokenStream {
    s.parse().unwrap()
}

#[test]
fn commas_split_items_and_allow_a_trailing_one() {
    assert_eq!(split_on_commas(tokens_of(ts("a, b = 1, c(x, y),"))).len(), 3);
    assert_eq!(split_on_commas(tokens_of(ts(""))).len(), 0);
    let items = split_on_commas(tokens_of(ts("a,,b")));
    assert_eq!(items.len(), 3);
    assert!(items[1].is_empty());
}

#[test]
fn integer_attributes_are_read() {
    let a = read_attributes::<IntegerGrammar<u8>>(
        ts("sanitize(with = |x| x.min(100)), validate(greater = 5, less_or_equal = 1_00, predicate = is_even), derive(Debug, Clone), default = 10, new_unchecked, cfg_attr(test, derive(Default))"),
        features(true),
        "u8",
    )
    .ok()
    .unwrap();
    assert_eq!(a.sanitizers.len(), 1);
    match &a.sanitizers[0].item {
        IntegerSanitizer::With(TypedCustomFunction::Closure(c)) => assert_eq!(c.inputs.len(), 1),
        _ => panic!("expected a typed closure"),
    }
    match a.validation {
        Some(RawValidation::Standard { validators }) => {
            assert_eq!(validators.len(), 3);
            assert!(matches!(validators[0].item, IntegerValidator::Greater(ValueOrExpr::Value(5))));
            assert!(matches!(validators[1].item, IntegerValidator::LessOrEqual(ValueOrExpr::Value(100))));
            assert!(matches!(validators[2].item, IntegerValidator::Predicate(TypedCustomFunction::Path(_))));
        }
        _ => panic!("expected standard validation"),
    }
    let derived: Vec<DeriveTrait> = a.derive_traits.iter().map(|t| t.item).collect();
    assert_eq!(derived, vec![DeriveTrait::Debug, DeriveTrait::Clone]);
    assert!(a.default.is_some());
    assert_eq!(a.new_unchecked, NewUnchecked::On);
    assert_eq!(a.cfg_attr_entries.len(), 1);
    assert_eq!(a.cfg_attr_entries[0].predicate.to_string(), "test");
    assert_eq!(a.cfg_attr_entries[0].derive_traits[0].item, DeriveTrait::Default);
}

#[test]
fn integer_bounds_out_of_range_or_given_as_expressions_stay_expressions() {
    let a = read_attributes::<IntegerGrammar<u8>>(ts("validate(less = 300, greater = MIN_AGE)"), features(false), "u8")
        .ok()
        .unwrap();
    match a.validation {
        Some(RawValidation::Standard { validators }) => {
            assert!(matches!(validators[0].item, IntegerValidator::Less(ValueOrExpr::Expr(_))));
            assert!(matches!(validators[1].item, IntegerValidator::Greater(ValueOrExpr::Expr(_))));
        }
        _ => panic!("expected standard validation"),
    }
    let a = read_attributes::<IntegerGrammar<i32>>(ts("validate(greater_or_equal = -5)"), features(false), "i32")
        .ok()
        .unwrap();
    match a.validation {
        Some(RawValidation::Standard { validators }) => {
            assert!(matches!(validators[0].item, IntegerValidator::GreaterOrEqual(ValueOrExpr::Value(-5))));
        }
        _ => panic!("expected standard validation"),
    }
}

#[test]
fn float_and_decimal_bounds_are_read() {
    let a = read_attributes::<FloatGrammar>(ts("validate(finite, greater = -1_0.5)"), features(false), "f64").ok().unwrap();
    match a.validation {
        Some(RawValidation::Standard { validators }) => {
            assert!(matches!(validators[0].item, FloatValidator::Finite));
            match &validators[1].item {
                FloatValidator::Greater(ValueOrExpr::Value(lit)) => {
                    assert_eq!(lit.text.iter().collect::<String>(), "-10.5");
                }
                _ => panic!("expected a literal bound"),
            }
        }
        _ => panic!("expected standard validation"),
    }
    let a = read_attributes::<DecimalGrammar>(ts("validate(less = 1.25)"), features(false), "::rust_decimal::Decimal")
        .ok()
        .unwrap();
    match a.validation {
        Some(RawValidation::Standard { validators }) => match &validators[0].item {
            DecimalValidator::Less(ValueOrExpr::Value(d)) => {
                assert_eq!(d.mantissa(), 125);
                assert_eq!(d.scale(), 2);
            }
            _ => panic!("expected a literal bound"),
        },
        _ => panic!("expected standard validation"),
    }
}

#[test]
fn custom_validation_is_read() {
    let a = read_attributes::<AnyGrammar>(ts("validate(with = check, error = MyError)"), features(false), "").ok().unwrap();
    match a.validation {
        Some(RawValidation::Custom { error, .. }) => assert_eq!(error.0.to_string(), "MyError"),
        _ => panic!("expected custom validation"),
    }
    let e = read_attributes::<AnyGrammar>(ts("validate(with = check)"), features(false), "").err().unwrap();
    assert!(matches!(e, AttrSyntaxError::Validation(RawValidationError::WithWithoutError { .. })));
}

#[test]
fn attribute_syntax_errors() {
    let read = |s: &str| read_attributes::<IntegerGrammar<u8>>(ts(s), features(false), "u8").err().unwrap();
    assert!(matches!(read("sanitize"), AttrSyntaxError::Keyword(AttrKeywordError::NeedsParens { .. })));
    assert!(matches!(read("colour(red)"), AttrSyntaxError::Keyword(AttrKeywordError::Unknown { .. })));
    assert!(matches!(read("new_unchecked"), AttrSyntaxError::Keyword(AttrKeywordError::NewUncheckedFeatureOff { .. })));
    assert!(matches!(read("default"), AttrSyntaxError::ExpectedEq { .. }));
    assert!(matches!(read("default ="), AttrSyntaxError::MissingValue { .. }));
    assert!(matches!(read("derive(Debug) extra"), AttrSyntaxError::Unexpected { .. }));
    assert!(matches!(read("derive(Debug),, default = 1"), AttrSyntaxError::EmptyItem));
    assert!(matches!(read("\"text\""), AttrSyntaxError::ExpectedName { .. }));
    assert!(matches!(read("validate(greater)"), AttrSyntaxError::ExpectedEq { .. }));
    assert!(matches!(read("validate(bigger = 5)"), AttrSyntaxError::UnknownValidateAttr { .. }));
    assert!(matches!(read("sanitize(trim)"), AttrSyntaxError::UnknownSanitizer { did_you_mean: None, .. }));
    assert!(matches!(read("sanitize(With = f)"), AttrSyntaxError::UnknownSanitizer { did_you_mean: Some(_), .. }));
    assert!(matches!(read("sanitize(with = 5)"), AttrSyntaxError::ExpectedFunction { .. }));
    assert!(matches!(read("derive(Hashh)"), AttrSyntaxError::DeriveName { .. }));
    assert!(matches!(read("derive(Debug Clone)"), AttrSyntaxError::Unexpected { .. }));
    assert!(matches!(read("cfg_attr(, derive(Debug))"), AttrSyntaxError::MissingPredicate { .. }));
    assert!(matches!(read("cfg_attr(test, allow(dead_code))"), AttrSyntaxError::OnlyDeriveInCfgAttr { .. }));
    let e = read_attributes::<FloatGrammar>(ts("validate(finite = true)"), features(false), "f64").err().unwrap();
    assert!(matches!(e, AttrSyntaxError::Unexpected { .. }));
}

#[test]
fn decimal_default_literals_become_decimals() {
    let e: syn::Expr = syn::parse_str("-0.5").unwrap();
    match decimal_default(e).ok().unwrap() {
        DecimalDefault::Literal(d, _) => {
            assert_eq!(d.mantissa(), -5);
            assert_eq!(d.scale(), 1);
        }
        DecimalDefault::Expr(_) => panic!("expected a literal"),
    }
    let e: syn::Expr = syn::parse_str("Decimal::ZERO").unwrap();
    assert!(matches!(decimal_default(e).ok().unwrap(), DecimalDefault::Expr(_)));
    let e: syn::Expr = syn::parse_str("1e999999").unwrap();
    assert!(decimal_default(e).is_err());
}
