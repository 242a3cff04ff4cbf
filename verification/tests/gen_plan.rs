use nutype_macros::gen_plan::{
    gen_test_should_have_consistent_lower_and_upper_boundaries, gen_test_should_have_valid_default_value,
    has_from_str_trait, lower_bound_position, newtype_names, upper_bound_position,
};
use nutype_macros::integer::{IntegerDeriveTrait, IntegerGuard, IntegerValidator};
use nutype_macros::models::{Guard, Validation, ValueOrExpr};

fn v(x: i64) -> ValueOrExpr<i64> {
    ValueOrExpr::Value(x)
}

#[test]
fn boundary_test_needs_both_bounds() {
    let vs = vec![IntegerValidator::LessOrEqual(v(5)), IntegerValidator::Greater(v(1))];
    assert_eq!(gen_test_should_have_consistent_lower_and_upper_boundaries(&vs), Some((0, 1)));
    let vs = vec![IntegerValidator::Less(v(5))];
    assert_eq!(gen_test_should_have_consistent_lower_and_upper_boundaries(&vs), None);
    assert_eq!(upper_bound_position(&vs), Some(0));
    assert_eq!(lower_bound_position(&vs), None);
}

#[test]
fn default_value_test_conditions() {
    assert!(gen_test_should_have_valid_default_value(true, false, true));
    assert!(!gen_test_should_have_valid_default_value(false, false, true));
    assert!(!gen_test_should_have_valid_default_value(true, true, true));
    assert!(!gen_test_should_have_valid_default_value(true, false, false));
}

#[test]
fn names_of_generated_items() {
    let g: IntegerGuard<i64> = Guard::WithValidation {
        sanitizers: vec![],
        validation: Validation::Standard { validators: vec![], error_type_name: "AgeError".to_string() },
    };
    let from_str = has_from_str_trait(&vec![IntegerDeriveTrait::Debug, IntegerDeriveTrait::FromStr]);
    assert!(from_str);
    assert!(!has_from_str_trait(&vec![IntegerDeriveTrait::Debug]));
    let n = newtype_names("Age", from_str, &g);
    assert_eq!(n.module_name, "__nutype_Age__");
    assert_eq!(n.parse_error_name.as_deref(), Some("AgeParseError"));
    assert_eq!(n.reimported_error_name.as_deref(), Some("AgeError"));
    let g: IntegerGuard<i64> = Guard::WithoutValidation { sanitizers: vec![] };
    let n = newtype_names("Age", false, &g);
    assert!(n.parse_error_name.is_none() && n.reimported_error_name.is_none());
}

#[test]
fn default_needs_a_value() {
    assert!(nutype_macros::gen_plan::check_default_value(true, false).is_err());
    assert!(nutype_macros::gen_plan::check_default_value(true, true).is_ok());
    assert!(nutype_macros::gen_plan::check_default_value(false, false).is_ok());
}
