use nutype_macros::any::{validate_any_derive_traits, AnyDeriveTrait, AnyGuard};
use nutype_macros::base::SpannedItem;
use nutype_macros::decimal::{validate_decimal_derive_traits, DecimalDeriveTrait};
use nutype_macros::derive::{parse_derive_trait, DeriveParseError, DeriveRefusal, NumericFamily, SerdeTrait};
use nutype_macros::float::{validate_float_derive_traits, FloatDeriveTrait, FloatGuard, FloatValidator};
use nutype_macros::integer::{split_traits, validate_integer_derive_traits, IntegerDeriveTrait, IntegerIrregularTrait, IntegerTransparentTrait};
use nutype_macros::models::{CfgAttrEntry, DeriveTrait, Features, Guard, Validation};
use nutype_macros::validate::validate_traits_from_xor_try_from;
use proc_macro2::Span;

fn traits(ts: &[DeriveTrait]) -> Vec<SpannedItem<DeriveTrait>> {
    ts.iter().map(|t| SpannedItem::new(*t, Span::call_site())).collect()
}

fn no_features() -> Features {
    Features { serde: false, schemars08: false, arbitrary: false, valuable: false, new_unchecked: false, rust_decimal: false }
}

#[test]
fn derive_names() {
    let all = Features { serde: true, schemars08: true, arbitrary: true, valuable: true, new_unchecked: true, rust_decimal: true };
    assert_eq!(parse_derive_trait("Debug", no_features()), Ok(DeriveTrait::Debug));
    assert_eq!(parse_derive_trait("Serialize", all), Ok(DeriveTrait::SerdeSerialize));
    assert_eq!(parse_derive_trait("Serialize", no_features()), Err(DeriveParseError::SerdeDisabled(SerdeTrait::Serialize)));
    assert_eq!(parse_derive_trait("Deserialize", no_features()), Err(DeriveParseError::SerdeDisabled(SerdeTrait::Deserialize)));
    assert_eq!(parse_derive_trait("JsonSchema", no_features()), Err(DeriveParseError::SchemarsDisabled));
    assert_eq!(parse_derive_trait("Arbitrary", no_features()), Err(DeriveParseError::ArbitraryDisabled));
    assert_eq!(parse_derive_trait("Valuable", no_features()), Err(DeriveParseError::ValuableDisabled));
    assert_eq!(parse_derive_trait("Serializable", all), Err(DeriveParseError::Unknown));
}

#[test]
fn integer_traits_are_deduplicated_in_order() {
    let r = validate_integer_derive_traits(&traits(&[DeriveTrait::Debug, DeriveTrait::Clone, DeriveTrait::Debug]), &vec![], true).ok().unwrap();
    assert_eq!(r.unconditional, vec![IntegerDeriveTrait::Debug, IntegerDeriveTrait::Clone]);
    assert!(r.conditional.is_empty());
}

#[test]
fn refused_integer_traits() {
    let r = validate_integer_derive_traits(&traits(&[DeriveTrait::From]), &vec![], true);
    assert_eq!(r.err().unwrap().reason, DeriveRefusal::FromWithValidation);
    assert!(validate_integer_derive_traits(&traits(&[DeriveTrait::From]), &vec![], false).is_ok());
    let r = validate_integer_derive_traits(&traits(&[DeriveTrait::IntoIterator]), &vec![], false);
    assert_eq!(r.err().unwrap().reason, DeriveRefusal::IntoIterator(NumericFamily::Integer));
    let r = validate_integer_derive_traits(&traits(&[DeriveTrait::From, DeriveTrait::TryFrom]), &vec![], false);
    assert_eq!(r.err().unwrap().reason, DeriveRefusal::FromAndTryFrom);
    assert!(validate_traits_from_xor_try_from(&traits(&[DeriveTrait::TryFrom])).is_ok());
}

#[test]
fn decimal_traits() {
    let r = validate_decimal_derive_traits(&traits(&[DeriveTrait::SchemarsJsonSchema]), &vec![], false);
    assert_eq!(r.err().unwrap().reason, DeriveRefusal::DecimalJsonSchema);
    let r = validate_decimal_derive_traits(&traits(&[DeriveTrait::ValuableValuable]), &vec![], false);
    assert_eq!(r.err().unwrap().reason, DeriveRefusal::DecimalValuable);
    assert_eq!(validate_decimal_derive_traits(&traits(&[DeriveTrait::Hash]), &vec![], false).ok().unwrap().unconditional, vec![DecimalDeriveTrait::Hash]);
}

fn float_guard(finite: bool) -> FloatGuard<f64> {
    if finite {
        Guard::WithValidation {
            sanitizers: vec![],
            validation: Validation::Standard { validators: vec![FloatValidator::Finite], error_type_name: "E".to_string() },
        }
    } else {
        Guard::WithoutValidation { sanitizers: vec![] }
    }
}

#[test]
fn float_traits() {
    let r = validate_float_derive_traits(&traits(&[DeriveTrait::Hash]), &float_guard(true), &vec![]);
    assert_eq!(r.err().unwrap().reason, DeriveRefusal::FloatHash);
    let r = validate_float_derive_traits(&traits(&[DeriveTrait::PartialEq, DeriveTrait::Eq]), &float_guard(false), &vec![]);
    assert_eq!(r.err().unwrap().reason, DeriveRefusal::FloatEqWithoutFinite);
    let r = validate_float_derive_traits(&traits(&[DeriveTrait::PartialOrd, DeriveTrait::Ord]), &float_guard(false), &vec![]);
    assert_eq!(r.err().unwrap().reason, DeriveRefusal::FloatOrdWithoutFinite);
    let r = validate_float_derive_traits(&traits(&[DeriveTrait::Eq]), &float_guard(true), &vec![]);
    assert_eq!(r.err().unwrap().reason, DeriveRefusal::EqRequiresPartialEq);
    let r = validate_float_derive_traits(&traits(&[DeriveTrait::PartialEq, DeriveTrait::Eq, DeriveTrait::Ord]), &float_guard(true), &vec![]);
    assert_eq!(r.err().unwrap().reason, DeriveRefusal::OrdRequiresPartialOrd);
    let r = validate_float_derive_traits(&traits(&[DeriveTrait::PartialOrd, DeriveTrait::Ord]), &float_guard(true), &vec![]);
    assert_eq!(r.err().unwrap().reason, DeriveRefusal::OrdRequiresEq);
    let ok = validate_float_derive_traits(
        &traits(&[DeriveTrait::PartialEq, DeriveTrait::Eq, DeriveTrait::PartialOrd, DeriveTrait::Ord]),
        &float_guard(true),
        &vec![],
    );
    assert_eq!(ok.ok().unwrap().unconditional, vec![FloatDeriveTrait::PartialEq, FloatDeriveTrait::Eq, FloatDeriveTrait::PartialOrd, FloatDeriveTrait::Ord]);
}

#[test]
fn any_traits() {
    let g: AnyGuard = Guard::WithoutValidation { sanitizers: vec![] };
    let r = validate_any_derive_traits(&g, &traits(&[DeriveTrait::SchemarsJsonSchema]), &vec![]);
    assert_eq!(r.err().unwrap().reason, DeriveRefusal::AnyJsonSchema);
    let r = validate_any_derive_traits(&g, &traits(&[DeriveTrait::IntoIterator, DeriveTrait::Debug]), &vec![]);
    assert_eq!(r.ok().unwrap().unconditional, vec![AnyDeriveTrait::IntoIterator, AnyDeriveTrait::Debug]);
}

#[test]
fn split_traits_partitions_in_order() {
    let (t, i) = split_traits(vec![IntegerDeriveTrait::Debug, IntegerDeriveTrait::FromStr, IntegerDeriveTrait::Hash, IntegerDeriveTrait::Display]);
    assert_eq!(t, vec![IntegerTransparentTrait::Debug, IntegerTransparentTrait::Hash]);
    assert_eq!(i, vec![IntegerIrregularTrait::FromStr, IntegerIrregularTrait::Display]);
}

#[test]
fn newtype_validation_of_derived_traits() {
    let g: nutype_macros::integer::IntegerGuard<u8> = Guard::WithoutValidation { sanitizers: vec![] };
    let r = nutype_macros::integer::IntegerNewtype::<u8>::validate(&g, &traits(&[DeriveTrait::From, DeriveTrait::Debug]), &vec![]);
    assert_eq!(r.ok().unwrap().unconditional, vec![IntegerDeriveTrait::From, IntegerDeriveTrait::Debug]);
    let r = nutype_macros::float::FloatNewtype::<f32>::validate(&float_guard32(), &traits(&[DeriveTrait::Hash]), &vec![]);
    assert_eq!(r.err().unwrap().reason, DeriveRefusal::FloatHash);
    let g: AnyGuard = Guard::WithoutValidation { sanitizers: vec![] };
    assert!(nutype_macros::any::AnyNewtype::validate(&g, &traits(&[DeriveTrait::Display]), &vec![]).is_ok());
}

fn float_guard32() -> FloatGuard<f32> {
    Guard::WithoutValidation { sanitizers: vec![] }
}

fn entry(predicate: &str, ts: &[DeriveTrait]) -> CfgAttrEntry {
    CfgAttrEntry { predicate: predicate.parse().unwrap(), derive_traits: traits(ts) }
}

#[test]
fn cfg_attr_derives_are_validated_with_the_plain_ones() {
    // Eq under cfg_attr needs PartialEq somewhere.
    let r = validate_float_derive_traits(&traits(&[DeriveTrait::Debug]), &float_guard(true), &vec![entry("test", &[DeriveTrait::Eq])]);
    assert_eq!(r.err().unwrap().reason, DeriveRefusal::EqRequiresPartialEq);
    // ... which may come from the plain list.
    let r = validate_float_derive_traits(&traits(&[DeriveTrait::PartialEq]), &float_guard(true), &vec![entry("test", &[DeriveTrait::Eq])])
        .ok()
        .unwrap();
    assert_eq!(r.unconditional, vec![FloatDeriveTrait::PartialEq]);
    assert_eq!(r.conditional, vec![vec![FloatDeriveTrait::Eq]]);
    // A refused trait under cfg_attr is refused.
    let r = validate_float_derive_traits(&traits(&[]), &float_guard(true), &vec![entry("unix", &[DeriveTrait::Hash])]);
    assert_eq!(r.err().unwrap().reason, DeriveRefusal::FloatHash);
    let r = validate_integer_derive_traits(&traits(&[DeriveTrait::Debug]), &vec![entry("unix", &[DeriveTrait::From])], true);
    assert_eq!(r.err().unwrap().reason, DeriveRefusal::FromWithValidation);
    // From and TryFrom may not be split between the lists.
    let r = validate_decimal_derive_traits(&traits(&[DeriveTrait::From]), &vec![entry("unix", &[DeriveTrait::TryFrom])], false);
    assert_eq!(r.err().unwrap().reason, DeriveRefusal::FromAndTryFrom);
    // Each list is converted on its own, entries in order.
    let g: AnyGuard = Guard::WithoutValidation { sanitizers: vec![] };
    let r = validate_any_derive_traits(
        &g,
        &traits(&[DeriveTrait::Debug, DeriveTrait::Clone]),
        &vec![entry("unix", &[DeriveTrait::FromStr, DeriveTrait::Borrow]), entry("test", &[DeriveTrait::Default, DeriveTrait::Debug])],
    )
    .ok()
    .unwrap();
    assert_eq!(r.unconditional, vec![AnyDeriveTrait::Debug, AnyDeriveTrait::Clone]);
    assert_eq!(
        r.conditional,
        vec![vec![AnyDeriveTrait::FromStr, AnyDeriveTrait::Borrow], vec![AnyDeriveTrait::Default, AnyDeriveTrait::Debug]]
    );
}
