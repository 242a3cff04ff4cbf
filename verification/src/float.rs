use vstd::prelude::*;

use core::marker::PhantomData;

use crate::base::{Kind, SpannedItem};
use crate::derive::{
    all_derive_traits, spec_all_derive_traits, spec_convert_all, spec_validate_derive_traits, spec_validated_derives,
    convert_derive_traits, validate_all_derive_traits, DeriveRefusal, DeriveTraitError, NumericFamily,
    TypedDeriveTrait, ValidatedDerives,
};
use crate::generatable::{GeneratableTrait, ToGeneratable};
use crate::models::{CfgAttrEntry, DeriveTrait, Guard, NumericBoundValidator, TypeTrait, TypedCustomFunction, ValueOrExpr};
use crate::validate::{find_trait, first_trait_position, lemma_first_trait_from};

verus! {

/// Sanitizer of a float newtype.
pub enum FloatSanitizer<T> {
    With(TypedCustomFunction),
    _Phantom(PhantomData<T>),
}

#[derive(Debug, Clone, Copy, PartialEq, Eq, Hash, Structural)]
pub enum FloatSanitizerKind {
    With,
    _Phantom,
}

impl<T> Kind for FloatSanitizer<T> {
    type Kind = FloatSanitizerKind;

    open spec fn spec_kind(&self) -> FloatSanitizerKind {
        match self {
            FloatSanitizer::With(_) => FloatSanitizerKind::With,
            FloatSanitizer::_Phantom(_) => FloatSanitizerKind::_Phantom,
        }
    }

    fn kind(&self) -> (k: FloatSanitizerKind) {
        match self {
            FloatSanitizer::With(_) => FloatSanitizerKind::With,
            FloatSanitizer::_Phantom(_) => FloatSanitizerKind::_Phantom,
        }
    }

    fn same_kind(&self, other: &Self) -> (r: bool) {
        self.kind() == other.kind()
    }
}

/// Validator of a float newtype.
pub enum FloatValidator<T> {
    Greater(ValueOrExpr<T>),
    GreaterOrEqual(ValueOrExpr<T>),
    Less(ValueOrExpr<T>),
    LessOrEqual(ValueOrExpr<T>),
    Predicate(TypedCustomFunction),
    Finite,
}

#[derive(Debug, Clone, Copy, PartialEq, Eq, Hash, Structural)]
pub enum FloatValidatorKind {
    Greater,
    GreaterOrEqual,
    Less,
    LessOrEqual,
    Predicate,
    Finite,
}

impl<T> Kind for FloatValidator<T> {
    type Kind = FloatValidatorKind;

    open spec fn spec_kind(&self) -> FloatValidatorKind {
        match self {
            FloatValidator::Greater(_) => FloatValidatorKind::Greater,
            FloatValidator::GreaterOrEqual(_) => FloatValidatorKind::GreaterOrEqual,
            FloatValidator::Less(_) => FloatValidatorKind::Less,
            FloatValidator::LessOrEqual(_) => FloatValidatorKind::LessOrEqual,
            FloatValidator::Predicate(_) => FloatValidatorKind::Predicate,
            FloatValidator::Finite => FloatValidatorKind::Finite,
        }
    }

    fn kind(&self) -> (k: FloatValidatorKind) {
        match self {
            FloatValidator::Greater(_) => FloatValidatorKind::Greater,
            FloatValidator::GreaterOrEqual(_) => FloatValidatorKind::GreaterOrEqual,
            FloatValidator::Less(_) => FloatValidatorKind::Less,
            FloatValidator::LessOrEqual(_) => FloatValidatorKind::LessOrEqual,
            FloatValidator::Predicate(_) => FloatValidatorKind::Predicate,
            FloatValidator::Finite => FloatValidatorKind::Finite,
        }
    }

    fn same_kind(&self, other: &Self) -> (r: bool) {
        self.kind() == other.kind()
    }
}

impl<T> NumericBoundValidator<T> for FloatValidator<T> {
    open spec fn spec_greater(&self) -> Option<T> {
        match self {
            FloatValidator::Greater(v) => v.spec_value(),
            _ => None,
        }
    }

    open spec fn spec_greater_or_equal(&self) -> Option<T> {
        match self {
            FloatValidator::GreaterOrEqual(v) => v.spec_value(),
            _ => None,
        }
    }

    open spec fn spec_less(&self) -> Option<T> {
        match self {
            FloatValidator::Less(v) => v.spec_value(),
            _ => None,
        }
    }

    open spec fn spec_less_or_equal(&self) -> Option<T> {
        match self {
            FloatValidator::LessOrEqual(v) => v.spec_value(),
            _ => None,
        }
    }

    fn greater(&self) -> (r: Option<&T>) {
        if let FloatValidator::Greater(ValueOrExpr::Value(value)) = self {
            Some(value)
        } else {
            None
        }
    }

    fn greater_or_equal(&self) -> (r: Option<&T>) {
        if let FloatValidator::GreaterOrEqual(ValueOrExpr::Value(value)) = self {
            Some(value)
        } else {
            None
        }
    }

    fn less(&self) -> (r: Option<&T>) {
        if let FloatValidator::Less(ValueOrExpr::Value(value)) = self {
            Some(value)
        } else {
            None
        }
    }

    fn less_or_equal(&self) -> (r: Option<&T>) {
        if let FloatValidator::LessOrEqual(ValueOrExpr::Value(value)) = self {
            Some(value)
        } else {
            None
        }
    }
}

pub type SpannedFloatSanitizer<T> = SpannedItem<FloatSanitizer<T>>;

pub type SpannedFloatValidator<T> = SpannedItem<FloatValidator<T>>;

pub type FloatGuard<T> = Guard<FloatSanitizer<T>, FloatValidator<T>>;

/// The float types a newtype can wrap.
#[derive(Debug, Clone, Copy, PartialEq, Eq, Hash, Structural)]
pub enum FloatInnerType {
    F32,
    F64,
}

/// Traits a float newtype can derive.
#[derive(Debug, Clone, Copy, PartialEq, Eq, Hash, Structural)]
pub enum FloatDeriveTrait {
    // Standard
    Debug,
    Clone,
    Copy,
    PartialEq,
    Eq,
    PartialOrd,
    Ord,
    FromStr,
    AsRef,
    Into,
    From,
    TryFrom,
    Borrow,
    Display,
    Default,
    Deref,
    // External crates
    SerdeSerialize,
    SerdeDeserialize,
    SchemarsJsonSchema,
    ArbitraryArbitrary,
    ValuableValuable,
}

impl TypeTrait for FloatDeriveTrait {
    open spec fn spec_is_from_str(&self) -> bool {
        *self == FloatDeriveTrait::FromStr
    }

    fn is_from_str(&self) -> (r: bool) {
        *self == FloatDeriveTrait::FromStr
    }
}

impl FloatDeriveTrait {
    pub open spec fn spec_is_default(&self) -> bool {
        *self == FloatDeriveTrait::Default
    }

    /// Whether this is the `Default` trait.
    pub fn is_default(&self) -> (r: bool)
        ensures
            r == self.spec_is_default(),
    {
        *self == FloatDeriveTrait::Default
    }
}

/// What the conversion of derived traits needs to know about a float guard.
#[derive(Debug, Clone, Copy, PartialEq, Eq, Structural)]
pub struct ValidationInfo {
    pub has_validation: bool,
    /// There is validation that excludes NaN (`finite`).
    pub has_nan_validation: bool,
}

/// There is a standard `finite` validator.
pub open spec fn spec_has_validation_against_nan<T>(guard: FloatGuard<T>) -> bool {
    match guard.spec_validators() {
        Some(vs) => exists|i: int| 0 <= i < vs.len() && #[trigger] vs[i].spec_kind() == FloatValidatorKind::Finite,
        None => false,
    }
}

/// Whether the guard has a `finite` validator, which excludes NaN.
pub fn has_validation_against_nan<T>(guard: &FloatGuard<T>) -> (r: bool)
    ensures
        r == spec_has_validation_against_nan(*guard),
{
    match guard.validators() {
        None => false,
        Some(validators) => {
            let n = validators.len();
            let mut i: usize = 0;
            while i < n
                invariant
                    n == validators@.len(),
                    i <= n,
                    guard.spec_validators() == Some(validators@),
                    forall|j: int| 0 <= j < i ==> #[trigger] validators@[j].spec_kind() != FloatValidatorKind::Finite,
                decreases n - i,
            {
                if validators[i].kind() == FloatValidatorKind::Finite {
                    assert(validators@[i as int].spec_kind() == FloatValidatorKind::Finite);
                    return true;
                }
                i = i + 1;
            }
            false
        },
    }
}

impl ValidationInfo {
    /// The validation facts of a float guard.
    pub fn from_guard<T>(guard: &FloatGuard<T>) -> (r: ValidationInfo)
        ensures
            r.has_validation == guard.spec_has_validation(),
            r.has_nan_validation == spec_has_validation_against_nan(*guard),
    {
        let has_validation = guard.has_validation();
        let has_nan_validation = has_validation_against_nan(guard);
        ValidationInfo { has_validation, has_nan_validation }
    }
}

/// The float trait a derived trait becomes. `Eq` and `Ord` need validation
/// that excludes NaN, `Hash` is never possible, `From` is refused when there
/// is validation.
pub open spec fn spec_to_float_derive_trait(tr: DeriveTrait, validation: ValidationInfo) -> Result<FloatDeriveTrait, DeriveRefusal> {
    match tr {
        DeriveTrait::Debug => Ok(FloatDeriveTrait::Debug),
        DeriveTrait::Display => Ok(FloatDeriveTrait::Display),
        DeriveTrait::Default => Ok(FloatDeriveTrait::Default),
        DeriveTrait::Clone => Ok(FloatDeriveTrait::Clone),
        DeriveTrait::PartialEq => Ok(FloatDeriveTrait::PartialEq),
        DeriveTrait::Into => Ok(FloatDeriveTrait::Into),
        DeriveTrait::Eq => if validation.has_nan_validation {
            Ok(FloatDeriveTrait::Eq)
        } else {
            Err(DeriveRefusal::FloatEqWithoutFinite)
        },
        DeriveTrait::PartialOrd => Ok(FloatDeriveTrait::PartialOrd),
        DeriveTrait::Ord => if validation.has_nan_validation {
            Ok(FloatDeriveTrait::Ord)
        } else {
            Err(DeriveRefusal::FloatOrdWithoutFinite)
        },
        DeriveTrait::FromStr => Ok(FloatDeriveTrait::FromStr),
        DeriveTrait::AsRef => Ok(FloatDeriveTrait::AsRef),
        DeriveTrait::Deref => Ok(FloatDeriveTrait::Deref),
        DeriveTrait::Hash => Err(DeriveRefusal::FloatHash),
        DeriveTrait::Borrow => Ok(FloatDeriveTrait::Borrow),
        DeriveTrait::Copy => Ok(FloatDeriveTrait::Copy),
        DeriveTrait::From => if validation.has_validation {
            Err(DeriveRefusal::FromWithValidation)
        } else {
            Ok(FloatDeriveTrait::From)
        },
        DeriveTrait::IntoIterator => Err(DeriveRefusal::IntoIterator(NumericFamily::Float)),
        DeriveTrait::TryFrom => Ok(FloatDeriveTrait::TryFrom),
        DeriveTrait::SerdeSerialize => Ok(FloatDeriveTrait::SerdeSerialize),
        DeriveTrait::SerdeDeserialize => Ok(FloatDeriveTrait::SerdeDeserialize),
        DeriveTrait::SchemarsJsonSchema => Ok(FloatDeriveTrait::SchemarsJsonSchema),
        DeriveTrait::ArbitraryArbitrary => Ok(FloatDeriveTrait::ArbitraryArbitrary),
        DeriveTrait::ValuableValuable => Ok(FloatDeriveTrait::ValuableValuable),
    }
}

/// Converts a derived trait into a trait of a float newtype.
pub fn to_float_derive_trait(tr: DeriveTrait, validation: ValidationInfo) -> (r: Result<FloatDeriveTrait, DeriveRefusal>)
    ensures
        r == spec_to_float_derive_trait(tr, validation),
{
    match tr {
        DeriveTrait::Debug => Ok(FloatDeriveTrait::Debug),
        DeriveTrait::Display => Ok(FloatDeriveTrait::Display),
        DeriveTrait::Default => Ok(FloatDeriveTrait::Default),
        DeriveTrait::Clone => Ok(FloatDeriveTrait::Clone),
        DeriveTrait::PartialEq => Ok(FloatDeriveTrait::PartialEq),
        DeriveTrait::Into => Ok(FloatDeriveTrait::Into),
        DeriveTrait::Eq => {
            if validation.has_nan_validation {
                Ok(FloatDeriveTrait::Eq)
            } else {
                Err(DeriveRefusal::FloatEqWithoutFinite)
            }
        },
        DeriveTrait::PartialOrd => Ok(FloatDeriveTrait::PartialOrd),
        DeriveTrait::Ord => {
            if validation.has_nan_validation {
                Ok(FloatDeriveTrait::Ord)
            } else {
                Err(DeriveRefusal::FloatOrdWithoutFinite)
            }
        },
        DeriveTrait::FromStr => Ok(FloatDeriveTrait::FromStr),
        DeriveTrait::AsRef => Ok(FloatDeriveTrait::AsRef),
        DeriveTrait::Deref => Ok(FloatDeriveTrait::Deref),
        DeriveTrait::Hash => Err(DeriveRefusal::FloatHash),
        DeriveTrait::Borrow => Ok(FloatDeriveTrait::Borrow),
        DeriveTrait::Copy => Ok(FloatDeriveTrait::Copy),
        DeriveTrait::From => {
            if validation.has_validation {
                Err(DeriveRefusal::FromWithValidation)
            } else {
                Ok(FloatDeriveTrait::From)
            }
        },
        DeriveTrait::IntoIterator => Err(DeriveRefusal::IntoIterator(NumericFamily::Float)),
        DeriveTrait::TryFrom => Ok(FloatDeriveTrait::TryFrom),
        DeriveTrait::SerdeSerialize => Ok(FloatDeriveTrait::SerdeSerialize),
        DeriveTrait::SerdeDeserialize => Ok(FloatDeriveTrait::SerdeDeserialize),
        DeriveTrait::SchemarsJsonSchema => Ok(FloatDeriveTrait::SchemarsJsonSchema),
        DeriveTrait::ArbitraryArbitrary => Ok(FloatDeriveTrait::ArbitraryArbitrary),
        DeriveTrait::ValuableValuable => Ok(FloatDeriveTrait::ValuableValuable),
    }
}

impl TypedDeriveTrait for FloatDeriveTrait {
    type Info = ValidationInfo;

    open spec fn spec_from_derive(tr: DeriveTrait, info: ValidationInfo) -> Result<FloatDeriveTrait, DeriveRefusal> {
        spec_to_float_derive_trait(tr, info)
    }

    fn from_derive(tr: DeriveTrait, info: ValidationInfo) -> (r: Result<FloatDeriveTrait, DeriveRefusal>) {
        to_float_derive_trait(tr, info)
    }

    fn same(&self, other: &Self) -> (r: bool) {
        *self == *other
    }
}

/// The span of the first occurrence of a trait (every trait of a dependency
/// check occurs, so the span is defined when it is used).
pub open spec fn span_of_first(traits: Seq<SpannedItem<DeriveTrait>>, tr: DeriveTrait) -> proc_macro2::Span {
    traits[first_trait_position(traits, tr)->0].span
}

/// The trait occurs among the derived traits.
pub open spec fn has_trait(traits: Seq<SpannedItem<DeriveTrait>>, tr: DeriveTrait) -> bool {
    first_trait_position(traits, tr) is Some
}

/// What validation of the traits of a float newtype answers: every trait is
/// converted first; then `Eq` needs `PartialEq`, `Ord` needs `PartialOrd` and
/// `Eq`; then the checks shared by all newtypes apply.
pub open spec fn spec_validate_float_derive_traits(
    traits: Seq<SpannedItem<DeriveTrait>>,
    validation: ValidationInfo,
) -> Result<Seq<FloatDeriveTrait>, DeriveTraitError> {
    match spec_convert_all::<FloatDeriveTrait>(traits, validation) {
        Err(e) => Err(e),
        Ok(_) => if has_trait(traits, DeriveTrait::Eq) && !has_trait(traits, DeriveTrait::PartialEq) {
            Err(DeriveTraitError { span: span_of_first(traits, DeriveTrait::Eq), reason: DeriveRefusal::EqRequiresPartialEq })
        } else if has_trait(traits, DeriveTrait::Ord) && !has_trait(traits, DeriveTrait::PartialOrd) {
            Err(DeriveTraitError { span: span_of_first(traits, DeriveTrait::Ord), reason: DeriveRefusal::OrdRequiresPartialOrd })
        } else if has_trait(traits, DeriveTrait::Ord) && !has_trait(traits, DeriveTrait::Eq) {
            Err(DeriveTraitError { span: span_of_first(traits, DeriveTrait::Ord), reason: DeriveRefusal::OrdRequiresEq })
        } else {
            spec_validate_derive_traits::<FloatDeriveTrait>(traits, validation)
        },
    }
}

/// Validates the traits to derive for a float newtype, given plainly and
/// under `cfg_attr`: the checks apply to all of them together.
pub fn validate_float_derive_traits<T>(
    plain_traits: &Vec<SpannedItem<DeriveTrait>>,
    guard: &FloatGuard<T>,
    cfg_attr_entries: &Vec<CfgAttrEntry>,
) -> (r: Result<ValidatedDerives<FloatDeriveTrait>, DeriveTraitError>)
    ensures
        spec_validated_derives::<FloatDeriveTrait>(
            plain_traits@,
            cfg_attr_entries@,
            ValidationInfo {
                has_validation: guard.spec_has_validation(),
                has_nan_validation: spec_has_validation_against_nan(*guard),
            },
            r,
            spec_validate_float_derive_traits(
                spec_all_derive_traits(plain_traits@, cfg_attr_entries@),
                ValidationInfo {
                    has_validation: guard.spec_has_validation(),
                    has_nan_validation: spec_has_validation_against_nan(*guard),
                },
            ),
        ),
{
    let validation = ValidationInfo::from_guard(guard);
    let all = all_derive_traits(plain_traits, cfg_attr_entries);
    let derive_traits = &all;

    // Convert all traits first, so that refused traits are reported before
    // the dependencies between them.
    if let Err(e) = convert_derive_traits::<FloatDeriveTrait>(derive_traits, validation) {
        return Err(e);
    }
    let maybe_eq = find_trait(derive_traits, DeriveTrait::Eq);
    let maybe_partial_eq = find_trait(derive_traits, DeriveTrait::PartialEq);
    let maybe_ord = find_trait(derive_traits, DeriveTrait::Ord);
    let maybe_partial_ord = find_trait(derive_traits, DeriveTrait::PartialOrd);
    proof {
        lemma_first_trait_from(derive_traits@, DeriveTrait::Eq, 0);
        lemma_first_trait_from(derive_traits@, DeriveTrait::Ord, 0);
    }
    if let (Some(eq), None) = (maybe_eq, maybe_partial_eq) {
        return Err(DeriveTraitError { span: derive_traits[eq].span, reason: DeriveRefusal::EqRequiresPartialEq });
    }
    if let Some(ord) = maybe_ord {
        if maybe_partial_ord.is_none() {
            return Err(DeriveTraitError { span: derive_traits[ord].span, reason: DeriveRefusal::OrdRequiresPartialOrd });
        } else if maybe_eq.is_none() {
            return Err(DeriveTraitError { span: derive_traits[ord].span, reason: DeriveRefusal::OrdRequiresEq });
        }
    }
    validate_all_derive_traits::<FloatDeriveTrait>(plain_traits, cfg_attr_entries, validation)
}

/// A float trait that is simply derived.
#[derive(Debug, Clone, Copy, PartialEq, Eq, Hash, Structural)]
pub enum FloatTransparentTrait {
    Debug,
    Clone,
    Copy,
    PartialEq,
    PartialOrd,
    SchemarsJsonSchema,
    ValuableValuable,
}

/// A float trait whose implementation is generated.
#[derive(Debug, Clone, Copy, PartialEq, Eq, Hash, Structural)]
pub enum FloatIrregularTrait {
    FromStr,
    AsRef,
    Deref,
    Into,
    From,
    Eq,
    Ord,
    TryFrom,
    Borrow,
    Display,
    Default,
    SerdeSerialize,
    SerdeDeserialize,
    ArbitraryArbitrary,
}

impl ToGeneratable<FloatTransparentTrait, FloatIrregularTrait> for FloatDeriveTrait {
    open spec fn spec_generatable(&self) -> GeneratableTrait<FloatTransparentTrait, FloatIrregularTrait> {
        match self {
            FloatDeriveTrait::Debug => GeneratableTrait::Transparent(FloatTransparentTrait::Debug),
            FloatDeriveTrait::Clone => GeneratableTrait::Transparent(FloatTransparentTrait::Clone),
            FloatDeriveTrait::Copy => GeneratableTrait::Transparent(FloatTransparentTrait::Copy),
            FloatDeriveTrait::PartialEq => GeneratableTrait::Transparent(FloatTransparentTrait::PartialEq),
            FloatDeriveTrait::Eq => GeneratableTrait::Irregular(FloatIrregularTrait::Eq),
            FloatDeriveTrait::PartialOrd => GeneratableTrait::Transparent(FloatTransparentTrait::PartialOrd),
            FloatDeriveTrait::Ord => GeneratableTrait::Irregular(FloatIrregularTrait::Ord),
            FloatDeriveTrait::FromStr => GeneratableTrait::Irregular(FloatIrregularTrait::FromStr),
            FloatDeriveTrait::AsRef => GeneratableTrait::Irregular(FloatIrregularTrait::AsRef),
            FloatDeriveTrait::Deref => GeneratableTrait::Irregular(FloatIrregularTrait::Deref),
            FloatDeriveTrait::From => GeneratableTrait::Irregular(FloatIrregularTrait::From),
            FloatDeriveTrait::Into => GeneratableTrait::Irregular(FloatIrregularTrait::Into),
            FloatDeriveTrait::TryFrom => GeneratableTrait::Irregular(FloatIrregularTrait::TryFrom),
            FloatDeriveTrait::Borrow => GeneratableTrait::Irregular(FloatIrregularTrait::Borrow),
            FloatDeriveTrait::Display => GeneratableTrait::Irregular(FloatIrregularTrait::Display),
            FloatDeriveTrait::Default => GeneratableTrait::Irregular(FloatIrregularTrait::Default),
            FloatDeriveTrait::SerdeSerialize => GeneratableTrait::Irregular(FloatIrregularTrait::SerdeSerialize),
            FloatDeriveTrait::SerdeDeserialize => GeneratableTrait::Irregular(FloatIrregularTrait::SerdeDeserialize),
            FloatDeriveTrait::ArbitraryArbitrary => GeneratableTrait::Irregular(FloatIrregularTrait::ArbitraryArbitrary),
            FloatDeriveTrait::SchemarsJsonSchema => GeneratableTrait::Transparent(FloatTransparentTrait::SchemarsJsonSchema),
            FloatDeriveTrait::ValuableValuable => GeneratableTrait::Transparent(FloatTransparentTrait::ValuableValuable),
        }
    }

    fn to_generatable(&self) -> (r: GeneratableTrait<FloatTransparentTrait, FloatIrregularTrait>) {
        match self {
            FloatDeriveTrait::Debug => GeneratableTrait::Transparent(FloatTransparentTrait::Debug),
            FloatDeriveTrait::Clone => GeneratableTrait::Transparent(FloatTransparentTrait::Clone),
            FloatDeriveTrait::Copy => GeneratableTrait::Transparent(FloatTransparentTrait::Copy),
            FloatDeriveTrait::PartialEq => GeneratableTrait::Transparent(FloatTransparentTrait::PartialEq),
            FloatDeriveTrait::Eq => GeneratableTrait::Irregular(FloatIrregularTrait::Eq),
            FloatDeriveTrait::PartialOrd => GeneratableTrait::Transparent(FloatTransparentTrait::PartialOrd),
            FloatDeriveTrait::Ord => GeneratableTrait::Irregular(FloatIrregularTrait::Ord),
            FloatDeriveTrait::FromStr => GeneratableTrait::Irregular(FloatIrregularTrait::FromStr),
            FloatDeriveTrait::AsRef => GeneratableTrait::Irregular(FloatIrregularTrait::AsRef),
            FloatDeriveTrait::Deref => GeneratableTrait::Irregular(FloatIrregularTrait::Deref),
            FloatDeriveTrait::From => GeneratableTrait::Irregular(FloatIrregularTrait::From),
            FloatDeriveTrait::Into => GeneratableTrait::Irregular(FloatIrregularTrait::Into),
            FloatDeriveTrait::TryFrom => GeneratableTrait::Irregular(FloatIrregularTrait::TryFrom),
            FloatDeriveTrait::Borrow => GeneratableTrait::Irregular(FloatIrregularTrait::Borrow),
            FloatDeriveTrait::Display => GeneratableTrait::Irregular(FloatIrregularTrait::Display),
            FloatDeriveTrait::Default => GeneratableTrait::Irregular(FloatIrregularTrait::Default),
            FloatDeriveTrait::SerdeSerialize => GeneratableTrait::Irregular(FloatIrregularTrait::SerdeSerialize),
            FloatDeriveTrait::SerdeDeserialize => GeneratableTrait::Irregular(FloatIrregularTrait::SerdeDeserialize),
            FloatDeriveTrait::ArbitraryArbitrary => GeneratableTrait::Irregular(FloatIrregularTrait::ArbitraryArbitrary),
            FloatDeriveTrait::SchemarsJsonSchema => GeneratableTrait::Transparent(FloatTransparentTrait::SchemarsJsonSchema),
            FloatDeriveTrait::ValuableValuable => GeneratableTrait::Transparent(FloatTransparentTrait::ValuableValuable),
        }
    }
}


impl<T> FloatSanitizer<T> {
    /// The function of a `with` sanitizer; none for the placeholder variant.
    pub fn custom_fn(&self) -> (r: Option<&TypedCustomFunction>)
        ensures
            match self {
                FloatSanitizer::With(f) => r == Some(f),
                FloatSanitizer::_Phantom(_) => r is None,
            },
    {
        match self {
            FloatSanitizer::With(f) => Some(f),
            FloatSanitizer::_Phantom(_) => None,
        }
    }
}


/// Newtypes over a float type `T`.
pub struct FloatNewtype<T>(pub PhantomData<T>);

impl<T> FloatNewtype<T> {
    /// Validates the traits to derive, given the validated guard.
    pub fn validate(
        guard: &FloatGuard<T>,
        derive_traits: &Vec<SpannedItem<DeriveTrait>>,
        cfg_attr_entries: &Vec<CfgAttrEntry>,
    ) -> (r: Result<ValidatedDerives<FloatDeriveTrait>, DeriveTraitError>)
        ensures
            spec_validated_derives::<FloatDeriveTrait>(
                derive_traits@,
                cfg_attr_entries@,
                ValidationInfo {
                    has_validation: guard.spec_has_validation(),
                    has_nan_validation: spec_has_validation_against_nan(*guard),
                },
                r,
                spec_validate_float_derive_traits(
                    spec_all_derive_traits(derive_traits@, cfg_attr_entries@),
                    ValidationInfo {
                        has_validation: guard.spec_has_validation(),
                        has_nan_validation: spec_has_validation_against_nan(*guard),
                    },
                ),
            ),
    {
        validate_float_derive_traits(derive_traits, guard, cfg_attr_entries)
    }
}


/// Law: `From` is accepted for a float newtype exactly when its guard has
/// no validation (any validation, not only `finite`): `From` would let
/// values bypass the validators. Without validation it becomes `From`.
pub proof fn lemma_float_from_exactly_without_validation<T>(guard: FloatGuard<T>)
    ensures
        ({
            let info = ValidationInfo {
                has_validation: guard.spec_has_validation(),
                has_nan_validation: spec_has_validation_against_nan(guard),
            };
            &&& spec_to_float_derive_trait(DeriveTrait::From, info) == Err::<FloatDeriveTrait, DeriveRefusal>(
                DeriveRefusal::FromWithValidation,
            ) <==> guard.spec_has_validation()
            &&& !guard.spec_has_validation() ==> spec_to_float_derive_trait(DeriveTrait::From, info) == Ok::<
                FloatDeriveTrait,
                DeriveRefusal,
            >(FloatDeriveTrait::From)
        }),
{
}


/// The derived trait of the same name as a plainly derived trait.
pub open spec fn float_transparent_origin(t: FloatTransparentTrait) -> FloatDeriveTrait {
    match t {
        FloatTransparentTrait::Debug => FloatDeriveTrait::Debug,
        FloatTransparentTrait::Clone => FloatDeriveTrait::Clone,
        FloatTransparentTrait::Copy => FloatDeriveTrait::Copy,
        FloatTransparentTrait::PartialEq => FloatDeriveTrait::PartialEq,
        FloatTransparentTrait::PartialOrd => FloatDeriveTrait::PartialOrd,
        FloatTransparentTrait::SchemarsJsonSchema => FloatDeriveTrait::SchemarsJsonSchema,
        FloatTransparentTrait::ValuableValuable => FloatDeriveTrait::ValuableValuable,
    }
}

/// The derived trait of the same name as a generated trait.
pub open spec fn float_irregular_origin(t: FloatIrregularTrait) -> FloatDeriveTrait {
    match t {
        FloatIrregularTrait::FromStr => FloatDeriveTrait::FromStr,
        FloatIrregularTrait::AsRef => FloatDeriveTrait::AsRef,
        FloatIrregularTrait::Deref => FloatDeriveTrait::Deref,
        FloatIrregularTrait::Into => FloatDeriveTrait::Into,
        FloatIrregularTrait::From => FloatDeriveTrait::From,
        FloatIrregularTrait::Eq => FloatDeriveTrait::Eq,
        FloatIrregularTrait::Ord => FloatDeriveTrait::Ord,
        FloatIrregularTrait::TryFrom => FloatDeriveTrait::TryFrom,
        FloatIrregularTrait::Borrow => FloatDeriveTrait::Borrow,
        FloatIrregularTrait::Display => FloatDeriveTrait::Display,
        FloatIrregularTrait::Default => FloatDeriveTrait::Default,
        FloatIrregularTrait::SerdeSerialize => FloatDeriveTrait::SerdeSerialize,
        FloatIrregularTrait::SerdeDeserialize => FloatDeriveTrait::SerdeDeserialize,
        FloatIrregularTrait::ArbitraryArbitrary => FloatDeriveTrait::ArbitraryArbitrary,
    }
}

/// Law: each trait asked for is derived or generated as the trait of the
/// same name (`Into` as `Into`, never as `From`).
pub proof fn lemma_float_traits_generated_as_themselves(t: FloatDeriveTrait)
    ensures
        match t.spec_generatable() {
            GeneratableTrait::Transparent(x) => float_transparent_origin(x) == t,
            GeneratableTrait::Irregular(y) => float_irregular_origin(y) == t,
        },
{
}


/// The trait asked for in `derive(..)` that a float trait stands for.
pub open spec fn float_derive_origin(t: FloatDeriveTrait) -> DeriveTrait {
    match t {
        FloatDeriveTrait::Debug => DeriveTrait::Debug,
        FloatDeriveTrait::Clone => DeriveTrait::Clone,
        FloatDeriveTrait::Copy => DeriveTrait::Copy,
        FloatDeriveTrait::PartialEq => DeriveTrait::PartialEq,
        FloatDeriveTrait::Eq => DeriveTrait::Eq,
        FloatDeriveTrait::PartialOrd => DeriveTrait::PartialOrd,
        FloatDeriveTrait::Ord => DeriveTrait::Ord,
        FloatDeriveTrait::FromStr => DeriveTrait::FromStr,
        FloatDeriveTrait::AsRef => DeriveTrait::AsRef,
        FloatDeriveTrait::Into => DeriveTrait::Into,
        FloatDeriveTrait::From => DeriveTrait::From,
        FloatDeriveTrait::TryFrom => DeriveTrait::TryFrom,
        FloatDeriveTrait::Borrow => DeriveTrait::Borrow,
        FloatDeriveTrait::Display => DeriveTrait::Display,
        FloatDeriveTrait::Default => DeriveTrait::Default,
        FloatDeriveTrait::Deref => DeriveTrait::Deref,
        FloatDeriveTrait::SerdeSerialize => DeriveTrait::SerdeSerialize,
        FloatDeriveTrait::SerdeDeserialize => DeriveTrait::SerdeDeserialize,
        FloatDeriveTrait::SchemarsJsonSchema => DeriveTrait::SchemarsJsonSchema,
        FloatDeriveTrait::ArbitraryArbitrary => DeriveTrait::ArbitraryArbitrary,
        FloatDeriveTrait::ValuableValuable => DeriveTrait::ValuableValuable,
    }
}

/// Law: a trait accepted for a float newtype is the trait of the same name,
/// whatever the validation.
pub proof fn lemma_float_accepted_trait_keeps_its_name(tr: DeriveTrait, info: ValidationInfo)
    ensures
        <FloatDeriveTrait as TypedDeriveTrait>::spec_from_derive(tr, info) matches Ok(t) ==> float_derive_origin(t) == tr,
{
}


/// Law: a float newtype may derive `Eq` or `Ord` exactly when `finite`
/// validation rules NaN out (NaN is not equal to itself), and never `Hash`.
pub proof fn lemma_float_eq_ord_need_finite_and_no_hash(info: ValidationInfo)
    ensures
        spec_to_float_derive_trait(DeriveTrait::Eq, info) is Ok <==> info.has_nan_validation,
        spec_to_float_derive_trait(DeriveTrait::Ord, info) is Ok <==> info.has_nan_validation,
        spec_to_float_derive_trait(DeriveTrait::Hash, info) is Err,
{
}

} // verus!
