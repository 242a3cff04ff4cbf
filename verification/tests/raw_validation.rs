use nutype_macros::models::{CustomFunction, ErrorTypeName, RawValidation};
use nutype_macros::raw_validation::{raw_validation_from_attrs, RawValidationError, ValidateAttr};
use proc_macro2::{Ident, Span};

fn sp() -> Span {
    Span::call_site()
}

fn with() -> ValidateAttr<u8> {
    ValidateAttr::With(CustomFunction::Path(syn::parse_str::<syn::Path>("check").unwrap()), sp())
}

fn error() -> ValidateAttr<u8> {
    ValidateAttr::Error(ErrorTypeName(Ident::new("MyError", sp())), sp())
}

#[test]
fn standard_validators_in_order() {
    let r = raw_validation_from_attrs(vec![ValidateAttr::Standard(3), ValidateAttr::Standard(1)], sp());
    match r {
        Ok(RawValidation::Standard { validators }) => assert_eq!(validators, vec![3, 1]),
        _ => panic!("expected standard validators"),
    }
}

#[test]
fn custom_validation_needs_with_and_error() {
    assert!(matches!(raw_validation_from_attrs(vec![error(), with()], sp()), Ok(RawValidation::Custom { .. })));
    assert!(matches!(raw_validation_from_attrs(vec![with()], sp()), Err(RawValidationError::WithWithoutError { .. })));
    assert!(matches!(raw_validation_from_attrs(vec![error()], sp()), Err(RawValidationError::ErrorWithoutWith { .. })));
    assert!(matches!(raw_validation_from_attrs(Vec::<ValidateAttr<u8>>::new(), sp()), Err(RawValidationError::NoValidator { .. })));
}

#[test]
fn duplicates_and_mixing_are_refused() {
    assert!(matches!(raw_validation_from_attrs(vec![with(), with()], sp()), Err(RawValidationError::DuplicateWith { .. })));
    assert!(matches!(raw_validation_from_attrs(vec![error(), error(), with()], sp()), Err(RawValidationError::DuplicateError { .. })));
    assert!(matches!(
        raw_validation_from_attrs(vec![ValidateAttr::Standard(1), with(), error()], sp()),
        Err(RawValidationError::MixedWithStandard { .. })
    ));
}
