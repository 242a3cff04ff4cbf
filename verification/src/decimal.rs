use vstd::prelude::*;

use core::marker::PhantomData;

use crate::base::{Kind, SpannedItem};
use crate::decimal_lit::DecimalLit;
use crate::derive::{
    spec_all_derive_traits, spec_validate_derive_traits, spec_validated_derives, validate_all_derive_traits, DeriveRefusal,
    DeriveTraitError, NumericFamily, TypedDeriveTrait, ValidatedDerives,
};
use crate::generatable::{GeneratableTrait, ToGeneratable};
use crate::models::{CfgAttrEntry, DeriveTrait, Guard, NumericBoundValidator, TypeTrait, TypedCustomFunction, ValueOrExpr};

verus! {

/// Sanitizer of a decimal newtype.
pub enum DecimalSanitizer<T> {
    With(TypedCustomFunction),
    _Phantom(PhantomData<T>),
}

#[derive(Debug, Clone, Copy, PartialEq, Eq, Hash, Structural)]
pub enum DecimalSanitizerKind {
    With,
    _Phantom,
}

impl<T> Kind for DecimalSanitizer<T> {
    type Kind = DecimalSanitizerKind;

    open spec fn spec_kind(&self) -> DecimalSanitizerKind {
        match self {
            DecimalSanitizer::With(_) => DecimalSanitizerKind::With,
            DecimalSanitizer::_Phantom(_) => DecimalSanitizerKind::_Phantom,
        }
    }

    fn kind(&self) -> (k: DecimalSanitizerKind) {
        match self {
            DecimalSanitizer::With(_) => DecimalSanitizerKind::With,
            DecimalSanitizer::_Phantom(_) => DecimalSanitizerKind::_Phantom,
        }
    }

    fn same_kind(&self, other: &Self) -> (r: bool) {
        self.kind() == other.kind()
    }
}

/// Validator of a decimal newtype.
pub enum DecimalValidator<T> {
    Greater(ValueOrExpr<T>),
    GreaterOrEqual(ValueOrExpr<T>),
    Less(ValueOrExpr<T>),
    LessOrEqual(ValueOrExpr<T>),
    Predicate(TypedCustomFunction),
}

#[derive(Debug, Clone, Copy, PartialEq, Eq, Hash, Structural)]
pub enum DecimalValidatorKind {
    Greater,
    GreaterOrEqual,
    Less,
    LessOrEqual,
    Predicate,
}

impl<T> Kind for DecimalValidator<T> {
    type Kind = DecimalValidatorKind;

    open spec fn spec_kind(&self) -> DecimalValidatorKind {
        match self {
            DecimalValidator::Greater(_) => DecimalValidatorKind::Greater,
            DecimalValidator::GreaterOrEqual(_) => DecimalValidatorKind::GreaterOrEqual,
            DecimalValidator::Less(_) => DecimalValidatorKind::Less,
            DecimalValidator::LessOrEqual(_) => DecimalValidatorKind::LessOrEqual,
            DecimalValidator::Predicate(_) => DecimalValidatorKind::Predicate,
        }
    }

    fn kind(&self) -> (k: DecimalValidatorKind) {
        match self {
            DecimalValidator::Greater(_) => DecimalValidatorKind::Greater,
            DecimalValidator::GreaterOrEqual(_) => DecimalValidatorKind::GreaterOrEqual,
            DecimalValidator::Less(_) => DecimalValidatorKind::Less,
            DecimalValidator::LessOrEqual(_) => DecimalValidatorKind::LessOrEqual,
            DecimalValidator::Predicate(_) => DecimalValidatorKind::Predicate,
        }
    }

    fn same_kind(&self, other: &Self) -> (r: bool) {
        self.kind() == other.kind()
    }
}

impl<T> NumericBoundValidator<T> for DecimalValidator<T> {
    open spec fn spec_greater(&self) -> Option<T> {
        match self {
            DecimalValidator::Greater(v) => v.spec_value(),
            _ => None,
        }
    }

    open spec fn spec_greater_or_equal(&self) -> Option<T> {
        match self {
            DecimalValidator::GreaterOrEqual(v) => v.spec_value(),
            _ => None,
        }
    }

    open spec fn spec_less(&self) -> Option<T> {
        match self {
            DecimalValidator::Less(v) => v.spec_value(),
            _ => None,
        }
    }

    open spec fn spec_less_or_equal(&self) -> Option<T> {
        match self {
            DecimalValidator::LessOrEqual(v) => v.spec_value(),
            _ => None,
        }
    }

    fn greater(&self) -> (r: Option<&T>) {
        if let DecimalValidator::Greater(ValueOrExpr::Value(value)) = self {
            Some(value)
        } else {
            None
        }
    }

    fn greater_or_equal(&self) -> (r: Option<&T>) {
        if let DecimalValidator::GreaterOrEqual(ValueOrExpr::Value(value)) = self {
            Some(value)
        } else {
            None
        }
    }

    fn less(&self) -> (r: Option<&T>) {
        if let DecimalValidator::Less(ValueOrExpr::Value(value)) = self {
            Some(value)
        } else {
            None
        }
    }

    fn less_or_equal(&self) -> (r: Option<&T>) {
        if let DecimalValidator::LessOrEqual(ValueOrExpr::Value(value)) = self {
            Some(value)
        } else {
            None
        }
    }
}

pub type SpannedDecimalSanitizer<T> = SpannedItem<DecimalSanitizer<T>>;

pub type SpannedDecimalValidator<T> = SpannedItem<DecimalValidator<T>>;

pub type DecimalGuard<T> = Guard<DecimalSanitizer<T>, DecimalValidator<T>>;

/// Traits a decimal newtype can derive: the same set as for integers but
/// `JsonSchema` (not supported yet) and `Valuable` (`Decimal` does not
/// implement it).
#[derive(Debug, Clone, Copy, PartialEq, Eq, Hash, Structural)]
pub enum DecimalDeriveTrait {
    // Standard
    Debug,
    Clone,
    Copy,
    PartialEq,
    Eq,
    PartialOrd,
    Ord,
    FromStr,
    AsRef,
    Into,
    From,
    TryFrom,
    Hash,
    Borrow,
    Display,
    Default,
    Deref,
    // External crates
    SerdeSerialize,
    SerdeDeserialize,
    ArbitraryArbitrary,
}

impl TypeTrait for DecimalDeriveTrait {
    open spec fn spec_is_from_str(&self) -> bool {
        *self == DecimalDeriveTrait::FromStr
    }

    fn is_from_str(&self) -> (r: bool) {
        *self == DecimalDeriveTrait::FromStr
    }
}

impl DecimalDeriveTrait {
    pub open spec fn spec_is_default(&self) -> bool {
        *self == DecimalDeriveTrait::Default
    }

    /// Whether this is the `Default` trait.
    pub fn is_default(&self) -> (r: bool)
        ensures
            r == self.spec_is_default(),
    {
        *self == DecimalDeriveTrait::Default
    }
}

/// The decimal trait a derived trait becomes.
pub open spec fn spec_to_decimal_derive_trait(tr: DeriveTrait, has_validation: bool) -> Result<DecimalDeriveTrait, DeriveRefusal> {
    match tr {
        DeriveTrait::Debug => Ok(DecimalDeriveTrait::Debug),
        DeriveTrait::Display => Ok(DecimalDeriveTrait::Display),
        DeriveTrait::Default => Ok(DecimalDeriveTrait::Default),
        DeriveTrait::Clone => Ok(DecimalDeriveTrait::Clone),
        DeriveTrait::PartialEq => Ok(DecimalDeriveTrait::PartialEq),
        DeriveTrait::Eq => Ok(DecimalDeriveTrait::Eq),
        DeriveTrait::PartialOrd => Ok(DecimalDeriveTrait::PartialOrd),
        DeriveTrait::Ord => Ok(DecimalDeriveTrait::Ord),
        DeriveTrait::Into => Ok(DecimalDeriveTrait::Into),
        DeriveTrait::FromStr => Ok(DecimalDeriveTrait::FromStr),
        DeriveTrait::AsRef => Ok(DecimalDeriveTrait::AsRef),
        DeriveTrait::Deref => Ok(DecimalDeriveTrait::Deref),
        DeriveTrait::Hash => Ok(DecimalDeriveTrait::Hash),
        DeriveTrait::Borrow => Ok(DecimalDeriveTrait::Borrow),
        DeriveTrait::Copy => Ok(DecimalDeriveTrait::Copy),
        DeriveTrait::SerdeSerialize => Ok(DecimalDeriveTrait::SerdeSerialize),
        DeriveTrait::SerdeDeserialize => Ok(DecimalDeriveTrait::SerdeDeserialize),
        DeriveTrait::ArbitraryArbitrary => Ok(DecimalDeriveTrait::ArbitraryArbitrary),
        DeriveTrait::TryFrom => Ok(DecimalDeriveTrait::TryFrom),
        DeriveTrait::From => if has_validation {
            Err(DeriveRefusal::FromWithValidation)
        } else {
            Ok(DecimalDeriveTrait::From)
        },
        DeriveTrait::IntoIterator => Err(DeriveRefusal::IntoIterator(NumericFamily::Decimal)),
        DeriveTrait::SchemarsJsonSchema => Err(DeriveRefusal::DecimalJsonSchema),
        DeriveTrait::ValuableValuable => Err(DeriveRefusal::DecimalValuable),
    }
}

/// Converts a derived trait into a trait of a decimal newtype.
pub fn to_decimal_derive_trait(tr: DeriveTrait, has_validation: bool) -> (r: Result<DecimalDeriveTrait, DeriveRefusal>)
    ensures
        r == spec_to_decimal_derive_trait(tr, has_validation),
{
    match tr {
        DeriveTrait::Debug => Ok(DecimalDeriveTrait::Debug),
        DeriveTrait::Display => Ok(DecimalDeriveTrait::Display),
        DeriveTrait::Default => Ok(DecimalDeriveTrait::Default),
        DeriveTrait::Clone => Ok(DecimalDeriveTrait::Clone),
        DeriveTrait::PartialEq => Ok(DecimalDeriveTrait::PartialEq),
        DeriveTrait::Eq => Ok(DecimalDeriveTrait::Eq),
        DeriveTrait::PartialOrd => Ok(DecimalDeriveTrait::PartialOrd),
        DeriveTrait::Ord => Ok(DecimalDeriveTrait::Ord),
        DeriveTrait::Into => Ok(DecimalDeriveTrait::Into),
        DeriveTrait::FromStr => Ok(DecimalDeriveTrait::FromStr),
        DeriveTrait::AsRef => Ok(DecimalDeriveTrait::AsRef),
        DeriveTrait::Deref => Ok(DecimalDeriveTrait::Deref),
        DeriveTrait::Hash => Ok(DecimalDeriveTrait::Hash),
        DeriveTrait::Borrow => Ok(DecimalDeriveTrait::Borrow),
        DeriveTrait::Copy => Ok(DecimalDeriveTrait::Copy),
        DeriveTrait::SerdeSerialize => Ok(DecimalDeriveTrait::SerdeSerialize),
        DeriveTrait::SerdeDeserialize => Ok(DecimalDeriveTrait::SerdeDeserialize),
        DeriveTrait::ArbitraryArbitrary => Ok(DecimalDeriveTrait::ArbitraryArbitrary),
        DeriveTrait::TryFrom => Ok(DecimalDeriveTrait::TryFrom),
        DeriveTrait::From => {
            if has_validation {
                Err(DeriveRefusal::FromWithValidation)
            } else {
                Ok(DecimalDeriveTrait::From)
            }
        },
        DeriveTrait::IntoIterator => Err(DeriveRefusal::IntoIterator(NumericFamily::Decimal)),
        DeriveTrait::SchemarsJsonSchema => Err(DeriveRefusal::DecimalJsonSchema),
        DeriveTrait::ValuableValuable => Err(DeriveRefusal::DecimalValuable),
    }
}

impl TypedDeriveTrait for DecimalDeriveTrait {
    /// Whether the newtype has validation.
    type Info = bool;

    open spec fn spec_from_derive(tr: DeriveTrait, info: bool) -> Result<DecimalDeriveTrait, DeriveRefusal> {
        spec_to_decimal_derive_trait(tr, info)
    }

    fn from_derive(tr: DeriveTrait, info: bool) -> (r: Result<DecimalDeriveTrait, DeriveRefusal>) {
        to_decimal_derive_trait(tr, info)
    }

    fn same(&self, other: &Self) -> (r: bool) {
        *self == *other
    }
}

/// A decimal trait that is simply derived.
#[derive(Debug, Clone, Copy, PartialEq, Eq, Hash, Structural)]
pub enum DecimalTransparentTrait {
    Debug,
    Clone,
    Copy,
    PartialEq,
    Eq,
    PartialOrd,
    Ord,
    Hash,
}

/// A decimal trait whose implementation is generated.
#[derive(Debug, Clone, Copy, PartialEq, Eq, Hash, Structural)]
pub enum DecimalIrregularTrait {
    FromStr,
    AsRef,
    Deref,
    From,
    TryFrom,
    Borrow,
    Into,
    Display,
    Default,
    SerdeSerialize,
    SerdeDeserialize,
    ArbitraryArbitrary,
}

impl DecimalIrregularTrait {
    pub open spec fn spec_has_generated_parse_error(&self) -> bool {
        *self == DecimalIrregularTrait::FromStr
    }

    /// `FromStr` generates a parse error type, which must be re-exported.
    pub fn has_generated_parse_error(&self) -> (r: bool)
        ensures
            r == self.spec_has_generated_parse_error(),
    {
        *self == DecimalIrregularTrait::FromStr
    }
}

impl ToGeneratable<DecimalTransparentTrait, DecimalIrregularTrait> for DecimalDeriveTrait {
    open spec fn spec_generatable(&self) -> GeneratableTrait<DecimalTransparentTrait, DecimalIrregularTrait> {
        match self {
            DecimalDeriveTrait::Debug => GeneratableTrait::Transparent(DecimalTransparentTrait::Debug),
            DecimalDeriveTrait::Clone => GeneratableTrait::Transparent(DecimalTransparentTrait::Clone),
            DecimalDeriveTrait::Copy => GeneratableTrait::Transparent(DecimalTransparentTrait::Copy),
            DecimalDeriveTrait::PartialEq => GeneratableTrait::Transparent(DecimalTransparentTrait::PartialEq),
            DecimalDeriveTrait::Eq => GeneratableTrait::Transparent(DecimalTransparentTrait::Eq),
            DecimalDeriveTrait::PartialOrd => GeneratableTrait::Transparent(DecimalTransparentTrait::PartialOrd),
            DecimalDeriveTrait::Ord => GeneratableTrait::Transparent(DecimalTransparentTrait::Ord),
            DecimalDeriveTrait::Hash => GeneratableTrait::Transparent(DecimalTransparentTrait::Hash),
            DecimalDeriveTrait::FromStr => GeneratableTrait::Irregular(DecimalIrregularTrait::FromStr),
            DecimalDeriveTrait::AsRef => GeneratableTrait::Irregular(DecimalIrregularTrait::AsRef),
            DecimalDeriveTrait::Deref => GeneratableTrait::Irregular(DecimalIrregularTrait::Deref),
            DecimalDeriveTrait::Into => GeneratableTrait::Irregular(DecimalIrregularTrait::Into),
            DecimalDeriveTrait::From => GeneratableTrait::Irregular(DecimalIrregularTrait::From),
            DecimalDeriveTrait::TryFrom => GeneratableTrait::Irregular(DecimalIrregularTrait::TryFrom),
            DecimalDeriveTrait::Borrow => GeneratableTrait::Irregular(DecimalIrregularTrait::Borrow),
            DecimalDeriveTrait::Display => GeneratableTrait::Irregular(DecimalIrregularTrait::Display),
            DecimalDeriveTrait::Default => GeneratableTrait::Irregular(DecimalIrregularTrait::Default),
            DecimalDeriveTrait::SerdeSerialize => GeneratableTrait::Irregular(DecimalIrregularTrait::SerdeSerialize),
            DecimalDeriveTrait::SerdeDeserialize => GeneratableTrait::Irregular(DecimalIrregularTrait::SerdeDeserialize),
            DecimalDeriveTrait::ArbitraryArbitrary => GeneratableTrait::Irregular(DecimalIrregularTrait::ArbitraryArbitrary),
        }
    }

    fn to_generatable(&self) -> (r: GeneratableTrait<DecimalTransparentTrait, DecimalIrregularTrait>) {
        match self {
            DecimalDeriveTrait::Debug => GeneratableTrait::Transparent(DecimalTransparentTrait::Debug),
            DecimalDeriveTrait::Clone => GeneratableTrait::Transparent(DecimalTransparentTrait::Clone),
            DecimalDeriveTrait::Copy => GeneratableTrait::Transparent(DecimalTransparentTrait::Copy),
            DecimalDeriveTrait::PartialEq => GeneratableTrait::Transparent(DecimalTransparentTrait::PartialEq),
            DecimalDeriveTrait::Eq => GeneratableTrait::Transparent(DecimalTransparentTrait::Eq),
            DecimalDeriveTrait::PartialOrd => GeneratableTrait::Transparent(DecimalTransparentTrait::PartialOrd),
            DecimalDeriveTrait::Ord => GeneratableTrait::Transparent(DecimalTransparentTrait::Ord),
            DecimalDeriveTrait::Hash => GeneratableTrait::Transparent(DecimalTransparentTrait::Hash),
            DecimalDeriveTrait::FromStr => GeneratableTrait::Irregular(DecimalIrregularTrait::FromStr),
            DecimalDeriveTrait::AsRef => GeneratableTrait::Irregular(DecimalIrregularTrait::AsRef),
            DecimalDeriveTrait::Deref => GeneratableTrait::Irregular(DecimalIrregularTrait::Deref),
            DecimalDeriveTrait::Into => GeneratableTrait::Irregular(DecimalIrregularTrait::Into),
            DecimalDeriveTrait::From => GeneratableTrait::Irregular(DecimalIrregularTrait::From),
            DecimalDeriveTrait::TryFrom => GeneratableTrait::Irregular(DecimalIrregularTrait::TryFrom),
            DecimalDeriveTrait::Borrow => GeneratableTrait::Irregular(DecimalIrregularTrait::Borrow),
            DecimalDeriveTrait::Display => GeneratableTrait::Irregular(DecimalIrregularTrait::Display),
            DecimalDeriveTrait::Default => GeneratableTrait::Irregular(DecimalIrregularTrait::Default),
            DecimalDeriveTrait::SerdeSerialize => GeneratableTrait::Irregular(DecimalIrregularTrait::SerdeSerialize),
            DecimalDeriveTrait::SerdeDeserialize => GeneratableTrait::Irregular(DecimalIrregularTrait::SerdeDeserialize),
            DecimalDeriveTrait::ArbitraryArbitrary => GeneratableTrait::Irregular(DecimalIrregularTrait::ArbitraryArbitrary),
        }
    }
}


/// Validates the traits to derive for a decimal newtype, given plainly and under
/// `cfg_attr`: the checks apply to all of them together.
pub fn validate_decimal_derive_traits(
    derive_traits: &Vec<SpannedItem<DeriveTrait>>,
    cfg_attr_entries: &Vec<CfgAttrEntry>,
    has_validation: bool,
) -> (r: Result<ValidatedDerives<DecimalDeriveTrait>, DeriveTraitError>)
    ensures
        spec_validated_derives::<DecimalDeriveTrait>(
            derive_traits@,
            cfg_attr_entries@,
            has_validation,
            r,
            spec_validate_derive_traits::<DecimalDeriveTrait>(spec_all_derive_traits(derive_traits@, cfg_attr_entries@), has_validation),
        ),
{
    validate_all_derive_traits::<DecimalDeriveTrait>(derive_traits, cfg_attr_entries, has_validation)
}


impl<T> DecimalSanitizer<T> {
    /// The function of a `with` sanitizer; none for the placeholder variant.
    pub fn custom_fn(&self) -> (r: Option<&TypedCustomFunction>)
        ensures
            match self {
                DecimalSanitizer::With(f) => r == Some(f),
                DecimalSanitizer::_Phantom(_) => r is None,
            },
    {
        match self {
            DecimalSanitizer::With(f) => Some(f),
            DecimalSanitizer::_Phantom(_) => None,
        }
    }
}


/// The types decimal bounds are given in.
pub trait DecimalType {
}

impl DecimalType for DecimalLit {
}

/// The inner type of a decimal newtype: `rust_decimal::Decimal`.
#[derive(Debug, Clone, Copy, PartialEq, Eq, Structural)]
pub struct DecimalInnerType;

/// Newtypes over `rust_decimal::Decimal`, with bounds given as `T`.
pub struct DecimalNewtype<T: DecimalType>(pub PhantomData<T>);

impl<T: DecimalType> DecimalNewtype<T> {
    /// Validates the traits to derive, given the validated guard.
    pub fn validate(
        guard: &DecimalGuard<T>,
        derive_traits: &Vec<SpannedItem<DeriveTrait>>,
        cfg_attr_entries: &Vec<CfgAttrEntry>,
    ) -> (r: Result<ValidatedDerives<DecimalDeriveTrait>, DeriveTraitError>)
        ensures
            spec_validated_derives::<DecimalDeriveTrait>(
                derive_traits@,
                cfg_attr_entries@,
                guard.spec_has_validation(),
                r,
                spec_validate_derive_traits::<DecimalDeriveTrait>(
                    spec_all_derive_traits(derive_traits@, cfg_attr_entries@),
                    guard.spec_has_validation(),
                ),
            ),
    {
        validate_decimal_derive_traits(derive_traits, cfg_attr_entries, guard.has_validation())
    }
}


/// Law: `From` is accepted for a decimal newtype exactly when its guard
/// has no validation: `From` would let values bypass the validators.
/// Without validation it becomes `From`.
pub proof fn lemma_decimal_from_exactly_without_validation<T>(guard: DecimalGuard<T>)
    ensures
        <DecimalDeriveTrait as TypedDeriveTrait>::spec_from_derive(DeriveTrait::From, guard.spec_has_validation()) == Err::<
            DecimalDeriveTrait,
            DeriveRefusal,
        >(DeriveRefusal::FromWithValidation) <==> guard.spec_has_validation(),
        !guard.spec_has_validation() ==> <DecimalDeriveTrait as TypedDeriveTrait>::spec_from_derive(
            DeriveTrait::From,
            guard.spec_has_validation(),
        ) == Ok::<DecimalDeriveTrait, DeriveRefusal>(DecimalDeriveTrait::From),
{
}


/// The derived trait of the same name as a plainly derived trait.
pub open spec fn decimal_transparent_origin(t: DecimalTransparentTrait) -> DecimalDeriveTrait {
    match t {
        DecimalTransparentTrait::Debug => DecimalDeriveTrait::Debug,
        DecimalTransparentTrait::Clone => DecimalDeriveTrait::Clone,
        DecimalTransparentTrait::Copy => DecimalDeriveTrait::Copy,
        DecimalTransparentTrait::PartialEq => DecimalDeriveTrait::PartialEq,
        DecimalTransparentTrait::Eq => DecimalDeriveTrait::Eq,
        DecimalTransparentTrait::PartialOrd => DecimalDeriveTrait::PartialOrd,
        DecimalTransparentTrait::Ord => DecimalDeriveTrait::Ord,
        DecimalTransparentTrait::Hash => DecimalDeriveTrait::Hash,
    }
}

/// The derived trait of the same name as a generated trait.
pub open spec fn decimal_irregular_origin(t: DecimalIrregularTrait) -> DecimalDeriveTrait {
    match t {
        DecimalIrregularTrait::FromStr => DecimalDeriveTrait::FromStr,
        DecimalIrregularTrait::AsRef => DecimalDeriveTrait::AsRef,
        DecimalIrregularTrait::Deref => DecimalDeriveTrait::Deref,
        DecimalIrregularTrait::From => DecimalDeriveTrait::From,
        DecimalIrregularTrait::TryFrom => DecimalDeriveTrait::TryFrom,
        DecimalIrregularTrait::Borrow => DecimalDeriveTrait::Borrow,
        DecimalIrregularTrait::Into => DecimalDeriveTrait::Into,
        DecimalIrregularTrait::Display => DecimalDeriveTrait::Display,
        DecimalIrregularTrait::Default => DecimalDeriveTrait::Default,
        DecimalIrregularTrait::SerdeSerialize => DecimalDeriveTrait::SerdeSerialize,
        DecimalIrregularTrait::SerdeDeserialize => DecimalDeriveTrait::SerdeDeserialize,
        DecimalIrregularTrait::ArbitraryArbitrary => DecimalDeriveTrait::ArbitraryArbitrary,
    }
}

/// Law: each trait asked for is derived or generated as the trait of the
/// same name (`Into` as `Into`, never as `From`).
pub proof fn lemma_decimal_traits_generated_as_themselves(t: DecimalDeriveTrait)
    ensures
        match t.spec_generatable() {
            GeneratableTrait::Transparent(x) => decimal_transparent_origin(x) == t,
            GeneratableTrait::Irregular(y) => decimal_irregular_origin(y) == t,
        },
{
}


/// The trait asked for in `derive(..)` that a decimal trait stands for.
pub open spec fn decimal_derive_origin(t: DecimalDeriveTrait) -> DeriveTrait {
    match t {
        DecimalDeriveTrait::Debug => DeriveTrait::Debug,
        DecimalDeriveTrait::Clone => DeriveTrait::Clone,
        DecimalDeriveTrait::Copy => DeriveTrait::Copy,
        DecimalDeriveTrait::PartialEq => DeriveTrait::PartialEq,
        DecimalDeriveTrait::Eq => DeriveTrait::Eq,
        DecimalDeriveTrait::PartialOrd => DeriveTrait::PartialOrd,
        DecimalDeriveTrait::Ord => DeriveTrait::Ord,
        DecimalDeriveTrait::FromStr => DeriveTrait::FromStr,
        DecimalDeriveTrait::AsRef => DeriveTrait::AsRef,
        DecimalDeriveTrait::Into => DeriveTrait::Into,
        DecimalDeriveTrait::From => DeriveTrait::From,
        DecimalDeriveTrait::TryFrom => DeriveTrait::TryFrom,
        DecimalDeriveTrait::Hash => DeriveTrait::Hash,
        DecimalDeriveTrait::Borrow => DeriveTrait::Borrow,
        DecimalDeriveTrait::Display => DeriveTrait::Display,
        DecimalDeriveTrait::Default => DeriveTrait::Default,
        DecimalDeriveTrait::Deref => DeriveTrait::Deref,
        DecimalDeriveTrait::SerdeSerialize => DeriveTrait::SerdeSerialize,
        DecimalDeriveTrait::SerdeDeserialize => DeriveTrait::SerdeDeserialize,
        DecimalDeriveTrait::ArbitraryArbitrary => DeriveTrait::ArbitraryArbitrary,
    }
}

/// Law: a trait accepted for a decimal newtype is the trait of the same name,
/// whatever the validation.
pub proof fn lemma_decimal_accepted_trait_keeps_its_name(tr: DeriveTrait, info: bool)
    ensures
        <DecimalDeriveTrait as TypedDeriveTrait>::spec_from_derive(tr, info) matches Ok(t) ==> decimal_derive_origin(t) == tr,
{
}

} // verus!
