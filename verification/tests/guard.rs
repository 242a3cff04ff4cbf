use nutype_macros::validate::{join_spans_or_last, joined_or_fallback};
use nutype_macros::base::SpannedItem;
use nutype_macros::bounds::{validate_numeric_bounds, BoundsError};
use nutype_macros::float::{FloatSanitizer, FloatValidator, FloatValidatorKind};
use nutype_macros::guard::{validate_float_guard, validate_integer_guard, GuardError};
use nutype_macros::integer::{IntegerSanitizer, IntegerSanitizerKind, IntegerValidator, IntegerValidatorKind};
use nutype_macros::models::{Guard, RawGuard, RawValidation, TypedCustomFunction, Validation, ValueOrExpr};
use proc_macro2::Span;

fn sp<T>(item: T) -> SpannedItem<T> {
    SpannedItem::new(item, Span::call_site())
}

fn v(x: i32) -> ValueOrExpr<i32> {
    ValueOrExpr::Value(x)
}

fn e() -> ValueOrExpr<i32> {
    ValueOrExpr::Expr(syn::parse_str::<syn::Expr>("MAX").unwrap())
}

fn with_fn() -> TypedCustomFunction {
    TypedCustomFunction::Path(syn::parse_str::<syn::Path>("clamp").unwrap())
}

fn raw(validators: Vec<SpannedItem<IntegerValidator<i32>>>) -> RawGuard<SpannedItem<IntegerSanitizer<i32>>, SpannedItem<IntegerValidator<i32>>> {
    RawGuard { sanitizers: vec![], validation: Some(RawValidation::Standard { validators }) }
}

#[test]
fn consistent_bounds_are_accepted() {
    let vs = vec![sp(IntegerValidator::GreaterOrEqual(v(1))), sp(IntegerValidator::LessOrEqual(v(1)))];
    assert!(validate_numeric_bounds::<IntegerValidator<i32>, i32>(&vs).is_ok());
    let vs = vec![sp(IntegerValidator::Greater(v(1))), sp(IntegerValidator::Less(v(3)))];
    assert!(validate_numeric_bounds::<IntegerValidator<i32>, i32>(&vs).is_ok());
}

#[test]
fn each_bounds_error() {
    let vs = vec![sp(IntegerValidator::Greater(v(1))), sp(IntegerValidator::GreaterOrEqual(v(2)))];
    assert!(matches!(validate_numeric_bounds::<IntegerValidator<i32>, i32>(&vs), Err(BoundsError::LowerBoundTwice { .. })));
    let vs = vec![sp(IntegerValidator::LessOrEqual(v(1))), sp(IntegerValidator::Less(v(2)))];
    assert!(matches!(validate_numeric_bounds::<IntegerValidator<i32>, i32>(&vs), Err(BoundsError::UpperBoundTwice { .. })));
    let vs = vec![sp(IntegerValidator::Greater(v(2))), sp(IntegerValidator::Less(v(2)))];
    assert!(matches!(validate_numeric_bounds::<IntegerValidator<i32>, i32>(&vs), Err(BoundsError::GreaterNotBelowLess { .. })));
    let vs = vec![sp(IntegerValidator::GreaterOrEqual(v(5))), sp(IntegerValidator::LessOrEqual(v(4)))];
    assert!(matches!(validate_numeric_bounds::<IntegerValidator<i32>, i32>(&vs), Err(BoundsError::LowerAboveUpper { .. })));
}

#[test]
fn bounds_given_as_expressions_are_not_compared() {
    let vs = vec![sp(IntegerValidator::GreaterOrEqual(e())), sp(IntegerValidator::LessOrEqual(v(-100)))];
    assert!(validate_numeric_bounds::<IntegerValidator<i32>, i32>(&vs).is_ok());
}

#[test]
fn validated_guard_keeps_items_in_order_and_names_the_error() {
    let g = validate_integer_guard::<i32>(
        RawGuard {
            sanitizers: vec![sp(IntegerSanitizer::With(with_fn()))],
            validation: Some(RawValidation::Standard {
                validators: vec![sp(IntegerValidator::Less(v(10))), sp(IntegerValidator::Greater(v(0)))],
            }),
        },
        "Small",
    );
    match g {
        Ok(Guard::WithValidation { sanitizers, validation: Validation::Standard { validators, error_type_name } }) => {
            assert_eq!(sanitizers.len(), 1);
            assert_eq!(validators.len(), 2);
            assert!(matches!(validators[0], IntegerValidator::Less(ValueOrExpr::Value(10))));
            assert_eq!(error_type_name, "SmallError");
        }
        _ => panic!("expected a standard validation"),
    }
}

#[test]
fn guard_without_validation() {
    let g = validate_integer_guard::<i32>(RawGuard { sanitizers: vec![], validation: None }, "N");
    assert!(matches!(g, Ok(Guard::WithoutValidation { .. })));
}

#[test]
fn guard_errors() {
    let g = validate_integer_guard::<i32>(
        RawGuard { sanitizers: vec![sp(IntegerSanitizer::With(with_fn())), sp(IntegerSanitizer::With(with_fn()))], validation: None },
        "N",
    );
    match g {
        Err(GuardError::DuplicateSanitizer(d)) => assert_eq!(d.kind, IntegerSanitizerKind::With),
        _ => panic!("expected a duplicate sanitizer"),
    }
    let g = validate_integer_guard::<i32>(raw(vec![sp(IntegerValidator::Less(v(1))), sp(IntegerValidator::Less(v(2)))]), "N");
    match g {
        Err(GuardError::DuplicateValidator(d)) => assert_eq!(d.kind, IntegerValidatorKind::Less),
        _ => panic!("expected a duplicate validator"),
    }
    let g = validate_integer_guard::<i32>(raw(vec![sp(IntegerValidator::Greater(v(3))), sp(IntegerValidator::Less(v(1)))]), "N");
    assert!(matches!(g, Err(GuardError::Bounds(BoundsError::GreaterNotBelowLess { .. }))));
}

#[test]
fn float_guard_validation() {
    let g = validate_float_guard::<f64>(
        RawGuard {
            sanitizers: vec![],
            validation: Some(RawValidation::Standard {
                validators: vec![
                    sp(FloatValidator::Finite),
                    sp(FloatValidator::Finite),
                ],
            }),
        },
        "F",
    );
    match g {
        Err(GuardError::DuplicateValidator(d)) => assert_eq!(d.kind, FloatValidatorKind::Finite),
        _ => panic!("expected a duplicate validator"),
    }
    let g = validate_float_guard::<f64>(
        RawGuard {
            sanitizers: vec![sp(FloatSanitizer::With(with_fn()))],
            validation: Some(RawValidation::Standard {
                validators: vec![sp(FloatValidator::GreaterOrEqual(ValueOrExpr::Value(0.5))), sp(FloatValidator::LessOrEqual(ValueOrExpr::Value(0.25)))],
            }),
        },
        "F",
    );
    assert!(matches!(g, Err(GuardError::Bounds(BoundsError::LowerAboveUpper { .. }))));
}

#[test]
fn sanitizer_functions() {
    let s: IntegerSanitizer<i32> = IntegerSanitizer::With(with_fn());
    assert!(s.custom_fn().is_some());
    let p: IntegerSanitizer<i32> = IntegerSanitizer::_Phantom(std::marker::PhantomData);
    assert!(p.custom_fn().is_none());
}

#[test]
fn joined_span_or_fallback_is_returned() {
    let a = proc_macro2::Span::call_site();
    let b = proc_macro2::Span::mixed_site();
    // Spans cannot be compared outside a macro; both outcomes must be handled.
    let _ = joined_or_fallback(Some(a), b);
    let _ = joined_or_fallback(None, b);
    let _ = join_spans_or_last(a, b);
}
