use nutype_macros::arbitrary::{
    compute_basic_value_kind, compute_boundaries, decimal_arbitrary_plan, float_arbitrary_plan, guard_to_boundary,
    BasicValueKind, BoundRef, Boundaries, DecimalArbitraryError, DecimalArbitraryPlan, FloatArbitraryError,
    FloatArbitraryPlan, FloatGeneration, normalize_basic_value_for_boundaries,
};
use nutype_macros::decimal::{DecimalGuard, DecimalSanitizer, DecimalValidator};
use nutype_macros::decimal_lit::DecimalLit;
use nutype_macros::float::{FloatGuard, FloatSanitizer, FloatValidator, FloatValidatorKind};
use nutype_macros::integer::{IntegerGuard, IntegerValidator};
use nutype_macros::models::{CustomFunction, ErrorTypeName, Guard, TypedCustomFunction, Validation, ValueOrExpr};
use proc_macro2::{Ident, Span};

fn f(path: &str) -> TypedCustomFunction {
    TypedCustomFunction::Path(syn::parse_str::<syn::Path>(path).unwrap())
}

fn standard<S, V>(sanitizers: Vec<S>, validators: Vec<V>) -> Guard<S, V> {
    Guard::WithValidation { sanitizers, validation: Validation::Standard { validators, error_type_name: "E".to_string() } }
}

fn b(index: usize, is_inclusive: bool) -> Option<BoundRef> {
    Some(BoundRef { index, is_inclusive })
}

#[test]
fn integer_range_follows_the_bounds() {
    let g: IntegerGuard<i32> = standard(vec![], vec![IntegerValidator::Greater(ValueOrExpr::Value(0)), IntegerValidator::LessOrEqual(ValueOrExpr::Value(9))]);
    assert_eq!(guard_to_boundary(&g), Boundaries { lower: b(0, false), upper: b(1, true) });
    let g: IntegerGuard<i32> = Guard::WithoutValidation { sanitizers: vec![] };
    assert_eq!(guard_to_boundary(&g), Boundaries { lower: None, upper: None });
}

#[test]
fn later_bounds_win() {
    let vs: Vec<IntegerValidator<i32>> = vec![
        IntegerValidator::Less(ValueOrExpr::Value(9)),
        IntegerValidator::GreaterOrEqual(ValueOrExpr::Value(1)),
        IntegerValidator::LessOrEqual(ValueOrExpr::Value(5)),
    ];
    assert_eq!(compute_boundaries(&vs), Boundaries { lower: b(1, true), upper: b(2, true) });
}

#[test]
fn basic_value_kinds() {
    assert_eq!(compute_basic_value_kind(&vec![]), BasicValueKind::All);
    assert_eq!(compute_basic_value_kind(&vec![FloatValidatorKind::Predicate]), BasicValueKind::All);
    assert_eq!(compute_basic_value_kind(&vec![FloatValidatorKind::Less]), BasicValueKind::NotNaN);
    assert_eq!(compute_basic_value_kind(&vec![FloatValidatorKind::Less, FloatValidatorKind::Finite]), BasicValueKind::Finite);
}

#[test]
fn float_plans() {
    let g: FloatGuard<f32> = Guard::WithoutValidation { sanitizers: vec![FloatSanitizer::With(f("s"))] };
    assert_eq!(float_arbitrary_plan(&g), Ok(FloatArbitraryPlan::Unrestricted));
    let g: FloatGuard<f32> = standard(vec![], vec![FloatValidator::Finite, FloatValidator::Greater(ValueOrExpr::Value(0.0))]);
    assert_eq!(
        float_arbitrary_plan(&g),
        Ok(FloatArbitraryPlan::Bounded { basic: BasicValueKind::Finite, boundaries: Boundaries { lower: b(1, false), upper: None } })
    );
    let g: FloatGuard<f32> = standard(vec![FloatSanitizer::With(f("s"))], vec![FloatValidator::Predicate(f("p"))]);
    assert_eq!(float_arbitrary_plan(&g), Err(FloatArbitraryError::PredicateValidator));
    let g: FloatGuard<f32> = standard(vec![FloatSanitizer::With(f("s"))], vec![FloatValidator::Finite]);
    assert_eq!(float_arbitrary_plan(&g), Err(FloatArbitraryError::WithSanitizer));
}

fn d(s: &str) -> ValueOrExpr<DecimalLit> {
    ValueOrExpr::Value(s.parse::<DecimalLit>().unwrap())
}

#[test]
fn decimal_plans() {
    let g: DecimalGuard<DecimalLit> = Guard::WithoutValidation { sanitizers: vec![] };
    assert_eq!(decimal_arbitrary_plan(&g), Ok(DecimalArbitraryPlan::Unrestricted));
    let g: DecimalGuard<DecimalLit> = standard(vec![], vec![DecimalValidator::LessOrEqual(d("2.5")), DecimalValidator::GreaterOrEqual(d("0.5"))]);
    assert_eq!(decimal_arbitrary_plan(&g), Ok(DecimalArbitraryPlan::Bounded { lower: Some(1), upper: Some(0) }));
    let g: DecimalGuard<DecimalLit> = standard(vec![DecimalSanitizer::With(f("s"))], vec![]);
    assert_eq!(decimal_arbitrary_plan(&g), Err(DecimalArbitraryError::SanitizersWithValidation));
    let g: DecimalGuard<DecimalLit> = standard(vec![], vec![DecimalValidator::Greater(d("0"))]);
    assert_eq!(decimal_arbitrary_plan(&g), Err(DecimalArbitraryError::ExclusiveBound));
    let g: DecimalGuard<DecimalLit> = standard(vec![], vec![DecimalValidator::Predicate(f("p")), DecimalValidator::Less(d("1"))]);
    assert_eq!(decimal_arbitrary_plan(&g), Err(DecimalArbitraryError::Predicate));
    let g: DecimalGuard<DecimalLit> = Guard::WithValidation {
        sanitizers: vec![],
        validation: Validation::Custom {
            with: CustomFunction::Path(syn::parse_str::<syn::Path>("v").unwrap()),
            error: ErrorTypeName(Ident::new("E", Span::call_site())),
        },
    };
    assert_eq!(decimal_arbitrary_plan(&g), Err(DecimalArbitraryError::CustomValidation));
}

#[test]
fn float_generation_between_bounds_nudges_each_exclusive_bound() {
    let plan = FloatArbitraryPlan::Bounded {
        basic: BasicValueKind::NotNaN,
        boundaries: Boundaries { lower: b(0, false), upper: b(1, true) },
    };
    assert_eq!(
        normalize_basic_value_for_boundaries(plan),
        FloatGeneration::Scaled { lower: 0, upper: 1, lower_nudge: Some(0), upper_nudge: None }
    );
    let plan = FloatArbitraryPlan::Bounded {
        basic: BasicValueKind::NotNaN,
        boundaries: Boundaries { lower: b(2, true), upper: b(1, false) },
    };
    assert_eq!(
        normalize_basic_value_for_boundaries(plan),
        FloatGeneration::Scaled { lower: 2, upper: 1, lower_nudge: None, upper_nudge: Some(1) }
    );
    let plan = FloatArbitraryPlan::Bounded {
        basic: BasicValueKind::NotNaN,
        boundaries: Boundaries { lower: b(0, false), upper: b(1, false) },
    };
    assert_eq!(
        normalize_basic_value_for_boundaries(plan),
        FloatGeneration::Scaled { lower: 0, upper: 1, lower_nudge: Some(0), upper_nudge: Some(1) }
    );
}

#[test]
fn float_generation_with_one_bound_or_none() {
    assert_eq!(normalize_basic_value_for_boundaries(FloatArbitraryPlan::Unrestricted), FloatGeneration::Basic(BasicValueKind::All));
    let plan = FloatArbitraryPlan::Bounded { basic: BasicValueKind::Finite, boundaries: Boundaries { lower: b(0, false), upper: None } };
    assert_eq!(
        normalize_basic_value_for_boundaries(plan),
        FloatGeneration::AboveLower { basic: BasicValueKind::Finite, lower: BoundRef { index: 0, is_inclusive: false } }
    );
    let plan = FloatArbitraryPlan::Bounded { basic: BasicValueKind::NotNaN, boundaries: Boundaries { lower: None, upper: b(3, true) } };
    assert_eq!(
        normalize_basic_value_for_boundaries(plan),
        FloatGeneration::BelowUpper { basic: BasicValueKind::NotNaN, upper: BoundRef { index: 3, is_inclusive: true } }
    );
    let plan = FloatArbitraryPlan::Bounded { basic: BasicValueKind::All, boundaries: Boundaries { lower: None, upper: None } };
    assert_eq!(normalize_basic_value_for_boundaries(plan), FloatGeneration::Basic(BasicValueKind::All));
}
