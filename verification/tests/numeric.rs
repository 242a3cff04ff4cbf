use nutype_macros::float::FloatValidator;
use nutype_macros::integer::IntegerValidator;
use nutype_macros::models::{TypedCustomFunction, ValueOrExpr};
use nutype_macros::numeric::{
    error_variant, error_variants, rejecting_comparison, Comparison, ErrorVariant, NumericValidatorTokens,
    NumericValidatorView,
};

#[test]
fn rejecting_comparisons() {
    assert_eq!(rejecting_comparison(NumericValidatorView::Greater), Some(Comparison::Le));
    assert_eq!(rejecting_comparison(NumericValidatorView::GreaterOrEqual), Some(Comparison::Lt));
    assert_eq!(rejecting_comparison(NumericValidatorView::Less), Some(Comparison::Ge));
    assert_eq!(rejecting_comparison(NumericValidatorView::LessOrEqual), Some(Comparison::Gt));
    assert_eq!(rejecting_comparison(NumericValidatorView::Predicate), None);
    assert_eq!(rejecting_comparison(NumericValidatorView::Finite), None);
}

#[test]
fn rejecting_comparison_rejects_exactly_the_disallowed_values() {
    // greater = 5 allows 6, rejects 5
    let holds = |c: Comparison, v: i32, b: i32| match c {
        Comparison::Lt => v < b,
        Comparison::Le => v <= b,
        Comparison::Gt => v > b,
        Comparison::Ge => v >= b,
    };
    let c = rejecting_comparison(NumericValidatorView::Greater).unwrap();
    assert!(holds(c, 5, 5) && !holds(c, 6, 5));
    let c = rejecting_comparison(NumericValidatorView::LessOrEqual).unwrap();
    assert!(!holds(c, 5, 5) && holds(c, 6, 5));
}

#[test]
fn error_variants_follow_validators() {
    let vs: Vec<FloatValidator<f64>> = vec![
        FloatValidator::Finite,
        FloatValidator::Less(ValueOrExpr::Value(1.0)),
        FloatValidator::Predicate(TypedCustomFunction::Path(syn::parse_str::<syn::Path>("p").unwrap())),
    ];
    assert_eq!(
        error_variants(&vs),
        vec![ErrorVariant::FiniteViolated, ErrorVariant::LessViolated, ErrorVariant::PredicateViolated]
    );
    let iv: IntegerValidator<i8> = IntegerValidator::GreaterOrEqual(ValueOrExpr::Value(0));
    assert_eq!(iv.view(), NumericValidatorView::GreaterOrEqual);
    assert_eq!(error_variant(iv.view()), ErrorVariant::GreaterOrEqualViolated);
}

#[test]
fn distinct_kinds_give_distinct_error_variants() {
    let vs: Vec<IntegerValidator<u8>> = vec![
        IntegerValidator::Greater(ValueOrExpr::Value(1)),
        IntegerValidator::GreaterOrEqual(ValueOrExpr::Value(1)),
        IntegerValidator::Less(ValueOrExpr::Value(9)),
        IntegerValidator::LessOrEqual(ValueOrExpr::Value(9)),
        IntegerValidator::Predicate(TypedCustomFunction::Path(syn::parse_str::<syn::Path>("p").unwrap())),
    ];
    let variants = error_variants(&vs);
    for i in 0..variants.len() {
        for j in 0..variants.len() {
            if i != j {
                assert_ne!(variants[i], variants[j]);
            }
        }
    }
}
