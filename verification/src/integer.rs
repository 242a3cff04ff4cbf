use vstd::prelude::*;

use core::marker::PhantomData;

use crate::base::{Kind, SpannedItem};
use crate::derive::{
    spec_all_derive_traits, spec_validate_derive_traits, spec_validated_derives, validate_all_derive_traits, DeriveRefusal,
    DeriveTraitError, NumericFamily, TypedDeriveTrait, ValidatedDerives,
};
use crate::generatable::{spec_irregular_of, spec_transparent_of, split_into_generatable_traits};
use crate::generatable::{GeneratableTrait, ToGeneratable};
use crate::models::{CfgAttrEntry, DeriveTrait, Guard, NumericBoundValidator, TypeTrait, TypedCustomFunction, ValueOrExpr};

verus! {

/// Sanitizer of an integer newtype.
pub enum IntegerSanitizer<T> {
    With(TypedCustomFunction),
    _Phantom(PhantomData<T>),
}

#[derive(Debug, Clone, Copy, PartialEq, Eq, Hash, Structural)]
pub enum IntegerSanitizerKind {
    With,
    _Phantom,
}

impl<T> Kind for IntegerSanitizer<T> {
    type Kind = IntegerSanitizerKind;

    open spec fn spec_kind(&self) -> IntegerSanitizerKind {
        match self {
            IntegerSanitizer::With(_) => IntegerSanitizerKind::With,
            IntegerSanitizer::_Phantom(_) => IntegerSanitizerKind::_Phantom,
        }
    }

    fn kind(&self) -> (k: IntegerSanitizerKind) {
        match self {
            IntegerSanitizer::With(_) => IntegerSanitizerKind::With,
            IntegerSanitizer::_Phantom(_) => IntegerSanitizerKind::_Phantom,
        }
    }

    fn same_kind(&self, other: &Self) -> (r: bool) {
        self.kind() == other.kind()
    }
}

/// Validator of an integer newtype.
pub enum IntegerValidator<T> {
    Greater(ValueOrExpr<T>),
    GreaterOrEqual(ValueOrExpr<T>),
    Less(ValueOrExpr<T>),
    LessOrEqual(ValueOrExpr<T>),
    Predicate(TypedCustomFunction),
}

#[derive(Debug, Clone, Copy, PartialEq, Eq, Hash, Structural)]
pub enum IntegerValidatorKind {
    Greater,
    GreaterOrEqual,
    Less,
    LessOrEqual,
    Predicate,
}

impl<T> Kind for IntegerValidator<T> {
    type Kind = IntegerValidatorKind;

    open spec fn spec_kind(&self) -> IntegerValidatorKind {
        match self {
            IntegerValidator::Greater(_) => IntegerValidatorKind::Greater,
            IntegerValidator::GreaterOrEqual(_) => IntegerValidatorKind::GreaterOrEqual,
            IntegerValidator::Less(_) => IntegerValidatorKind::Less,
            IntegerValidator::LessOrEqual(_) => IntegerValidatorKind::LessOrEqual,
            IntegerValidator::Predicate(_) => IntegerValidatorKind::Predicate,
        }
    }

    fn kind(&self) -> (k: IntegerValidatorKind) {
        match self {
            IntegerValidator::Greater(_) => IntegerValidatorKind::Greater,
            IntegerValidator::GreaterOrEqual(_) => IntegerValidatorKind::GreaterOrEqual,
            IntegerValidator::Less(_) => IntegerValidatorKind::Less,
            IntegerValidator::LessOrEqual(_) => IntegerValidatorKind::LessOrEqual,
            IntegerValidator::Predicate(_) => IntegerValidatorKind::Predicate,
        }
    }

    fn same_kind(&self, other: &Self) -> (r: bool) {
        self.kind() == other.kind()
    }
}

impl<T> NumericBoundValidator<T> for IntegerValidator<T> {
    open spec fn spec_greater(&self) -> Option<T> {
        match self {
            IntegerValidator::Greater(v) => v.spec_value(),
            _ => None,
        }
    }

    open spec fn spec_greater_or_equal(&self) -> Option<T> {
        match self {
            IntegerValidator::GreaterOrEqual(v) => v.spec_value(),
            _ => None,
        }
    }

    open spec fn spec_less(&self) -> Option<T> {
        match self {
            IntegerValidator::Less(v) => v.spec_value(),
            _ => None,
        }
    }

    open spec fn spec_less_or_equal(&self) -> Option<T> {
        match self {
            IntegerValidator::LessOrEqual(v) => v.spec_value(),
            _ => None,
        }
    }

    fn greater(&self) -> (r: Option<&T>) {
        if let IntegerValidator::Greater(ValueOrExpr::Value(value)) = self {
            Some(value)
        } else {
            None
        }
    }

    fn greater_or_equal(&self) -> (r: Option<&T>) {
        if let IntegerValidator::GreaterOrEqual(ValueOrExpr::Value(value)) = self {
            Some(value)
        } else {
            None
        }
    }

    fn less(&self) -> (r: Option<&T>) {
        if let IntegerValidator::Less(ValueOrExpr::Value(value)) = self {
            Some(value)
        } else {
            None
        }
    }

    fn less_or_equal(&self) -> (r: Option<&T>) {
        if let IntegerValidator::LessOrEqual(ValueOrExpr::Value(value)) = self {
            Some(value)
        } else {
            None
        }
    }
}

pub type SpannedIntegerSanitizer<T> = SpannedItem<IntegerSanitizer<T>>;

pub type SpannedIntegerValidator<T> = SpannedItem<IntegerValidator<T>>;

pub type IntegerGuard<T> = Guard<IntegerSanitizer<T>, IntegerValidator<T>>;

/// The integer types a newtype can wrap.
#[derive(Debug, Clone, Copy, PartialEq, Eq, Hash, Structural)]
pub enum IntegerInnerType {
    U8,
    U16,
    U32,
    U64,
    U128,
    Usize,
    I8,
    I16,
    I32,
    I64,
    I128,
    Isize,
}

/// Traits an integer newtype can derive.
#[derive(Debug, Clone, Copy, PartialEq, Eq, Hash, Structural)]
pub enum IntegerDeriveTrait {
    // Standard
    Debug,
    Clone,
    Copy,
    PartialEq,
    Eq,
    PartialOrd,
    Ord,
    FromStr,
    AsRef,
    Into,
    From,
    TryFrom,
    Hash,
    Borrow,
    Display,
    Default,
    Deref,
    // External crates
    SerdeSerialize,
    SerdeDeserialize,
    SchemarsJsonSchema,
    ArbitraryArbitrary,
    ValuableValuable,
}

impl TypeTrait for IntegerDeriveTrait {
    open spec fn spec_is_from_str(&self) -> bool {
        *self == IntegerDeriveTrait::FromStr
    }

    fn is_from_str(&self) -> (r: bool) {
        *self == IntegerDeriveTrait::FromStr
    }
}

impl IntegerDeriveTrait {
    pub open spec fn spec_is_default(&self) -> bool {
        *self == IntegerDeriveTrait::Default
    }

    /// Whether this is the `Default` trait.
    pub fn is_default(&self) -> (r: bool)
        ensures
            r == self.spec_is_default(),
    {
        *self == IntegerDeriveTrait::Default
    }
}

/// The integer trait a derived trait becomes: every trait but `IntoIterator`
/// maps to the trait of the same name; `From` is refused when there is
/// validation (it would bypass it).
pub open spec fn spec_to_integer_derive_trait(tr: DeriveTrait, has_validation: bool) -> Result<IntegerDeriveTrait, DeriveRefusal> {
    match tr {
        DeriveTrait::Debug => Ok(IntegerDeriveTrait::Debug),
        DeriveTrait::Display => Ok(IntegerDeriveTrait::Display),
        DeriveTrait::Default => Ok(IntegerDeriveTrait::Default),
        DeriveTrait::Clone => Ok(IntegerDeriveTrait::Clone),
        DeriveTrait::PartialEq => Ok(IntegerDeriveTrait::PartialEq),
        DeriveTrait::Eq => Ok(IntegerDeriveTrait::Eq),
        DeriveTrait::PartialOrd => Ok(IntegerDeriveTrait::PartialOrd),
        DeriveTrait::Ord => Ok(IntegerDeriveTrait::Ord),
        DeriveTrait::Into => Ok(IntegerDeriveTrait::Into),
        DeriveTrait::FromStr => Ok(IntegerDeriveTrait::FromStr),
        DeriveTrait::AsRef => Ok(IntegerDeriveTrait::AsRef),
        DeriveTrait::Deref => Ok(IntegerDeriveTrait::Deref),
        DeriveTrait::Hash => Ok(IntegerDeriveTrait::Hash),
        DeriveTrait::Borrow => Ok(IntegerDeriveTrait::Borrow),
        DeriveTrait::Copy => Ok(IntegerDeriveTrait::Copy),
        DeriveTrait::SerdeSerialize => Ok(IntegerDeriveTrait::SerdeSerialize),
        DeriveTrait::SerdeDeserialize => Ok(IntegerDeriveTrait::SerdeDeserialize),
        DeriveTrait::SchemarsJsonSchema => Ok(IntegerDeriveTrait::SchemarsJsonSchema),
        DeriveTrait::ArbitraryArbitrary => Ok(IntegerDeriveTrait::ArbitraryArbitrary),
        DeriveTrait::ValuableValuable => Ok(IntegerDeriveTrait::ValuableValuable),
        DeriveTrait::TryFrom => Ok(IntegerDeriveTrait::TryFrom),
        DeriveTrait::From => if has_validation {
            Err(DeriveRefusal::FromWithValidation)
        } else {
            Ok(IntegerDeriveTrait::From)
        },
        DeriveTrait::IntoIterator => Err(DeriveRefusal::IntoIterator(NumericFamily::Integer)),
    }
}

/// Converts a derived trait into a trait of an integer newtype.
pub fn to_integer_derive_trait(tr: DeriveTrait, has_validation: bool) -> (r: Result<IntegerDeriveTrait, DeriveRefusal>)
    ensures
        r == spec_to_integer_derive_trait(tr, has_validation),
{
    match tr {
        DeriveTrait::Debug => Ok(IntegerDeriveTrait::Debug),
        DeriveTrait::Display => Ok(IntegerDeriveTrait::Display),
        DeriveTrait::Default => Ok(IntegerDeriveTrait::Default),
        DeriveTrait::Clone => Ok(IntegerDeriveTrait::Clone),
        DeriveTrait::PartialEq => Ok(IntegerDeriveTrait::PartialEq),
        DeriveTrait::Eq => Ok(IntegerDeriveTrait::Eq),
        DeriveTrait::PartialOrd => Ok(IntegerDeriveTrait::PartialOrd),
        DeriveTrait::Ord => Ok(IntegerDeriveTrait::Ord),
        DeriveTrait::Into => Ok(IntegerDeriveTrait::Into),
        DeriveTrait::FromStr => Ok(IntegerDeriveTrait::FromStr),
        DeriveTrait::AsRef => Ok(IntegerDeriveTrait::AsRef),
        DeriveTrait::Deref => Ok(IntegerDeriveTrait::Deref),
        DeriveTrait::Hash => Ok(IntegerDeriveTrait::Hash),
        DeriveTrait::Borrow => Ok(IntegerDeriveTrait::Borrow),
        DeriveTrait::Copy => Ok(IntegerDeriveTrait::Copy),
        DeriveTrait::SerdeSerialize => Ok(IntegerDeriveTrait::SerdeSerialize),
        DeriveTrait::SerdeDeserialize => Ok(IntegerDeriveTrait::SerdeDeserialize),
        DeriveTrait::SchemarsJsonSchema => Ok(IntegerDeriveTrait::SchemarsJsonSchema),
        DeriveTrait::ArbitraryArbitrary => Ok(IntegerDeriveTrait::ArbitraryArbitrary),
        DeriveTrait::ValuableValuable => Ok(IntegerDeriveTrait::ValuableValuable),
        DeriveTrait::TryFrom => Ok(IntegerDeriveTrait::TryFrom),
        DeriveTrait::From => {
            if has_validation {
                Err(DeriveRefusal::FromWithValidation)
            } else {
                Ok(IntegerDeriveTrait::From)
            }
        },
        DeriveTrait::IntoIterator => Err(DeriveRefusal::IntoIterator(NumericFamily::Integer)),
    }
}

impl TypedDeriveTrait for IntegerDeriveTrait {
    /// Whether the newtype has validation.
    type Info = bool;

    open spec fn spec_from_derive(tr: DeriveTrait, info: bool) -> Result<IntegerDeriveTrait, DeriveRefusal> {
        spec_to_integer_derive_trait(tr, info)
    }

    fn from_derive(tr: DeriveTrait, info: bool) -> (r: Result<IntegerDeriveTrait, DeriveRefusal>) {
        to_integer_derive_trait(tr, info)
    }

    fn same(&self, other: &Self) -> (r: bool) {
        *self == *other
    }
}

/// An integer trait that is simply derived.
#[derive(Debug, Clone, Copy, PartialEq, Eq, Hash, Structural)]
pub enum IntegerTransparentTrait {
    Debug,
    Clone,
    Copy,
    PartialEq,
    Eq,
    PartialOrd,
    Ord,
    Hash,
    SchemarsJsonSchema,
    ValuableValuable,
}

/// An integer trait whose implementation is generated.
#[derive(Debug, Clone, Copy, PartialEq, Eq, Hash, Structural)]
pub enum IntegerIrregularTrait {
    FromStr,
    AsRef,
    Deref,
    From,
    TryFrom,
    Borrow,
    Into,
    Display,
    Default,
    SerdeSerialize,
    SerdeDeserialize,
    ArbitraryArbitrary,
}

impl ToGeneratable<IntegerTransparentTrait, IntegerIrregularTrait> for IntegerDeriveTrait {
    open spec fn spec_generatable(&self) -> GeneratableTrait<IntegerTransparentTrait, IntegerIrregularTrait> {
        match self {
            IntegerDeriveTrait::Debug => GeneratableTrait::Transparent(IntegerTransparentTrait::Debug),
            IntegerDeriveTrait::Clone => GeneratableTrait::Transparent(IntegerTransparentTrait::Clone),
            IntegerDeriveTrait::Copy => GeneratableTrait::Transparent(IntegerTransparentTrait::Copy),
            IntegerDeriveTrait::PartialEq => GeneratableTrait::Transparent(IntegerTransparentTrait::PartialEq),
            IntegerDeriveTrait::Eq => GeneratableTrait::Transparent(IntegerTransparentTrait::Eq),
            IntegerDeriveTrait::PartialOrd => GeneratableTrait::Transparent(IntegerTransparentTrait::PartialOrd),
            IntegerDeriveTrait::Ord => GeneratableTrait::Transparent(IntegerTransparentTrait::Ord),
            IntegerDeriveTrait::Hash => GeneratableTrait::Transparent(IntegerTransparentTrait::Hash),
            IntegerDeriveTrait::FromStr => GeneratableTrait::Irregular(IntegerIrregularTrait::FromStr),
            IntegerDeriveTrait::AsRef => GeneratableTrait::Irregular(IntegerIrregularTrait::AsRef),
            IntegerDeriveTrait::Deref => GeneratableTrait::Irregular(IntegerIrregularTrait::Deref),
            IntegerDeriveTrait::Into => GeneratableTrait::Irregular(IntegerIrregularTrait::Into),
            IntegerDeriveTrait::From => GeneratableTrait::Irregular(IntegerIrregularTrait::From),
            IntegerDeriveTrait::TryFrom => GeneratableTrait::Irregular(IntegerIrregularTrait::TryFrom),
            IntegerDeriveTrait::Borrow => GeneratableTrait::Irregular(IntegerIrregularTrait::Borrow),
            IntegerDeriveTrait::Display => GeneratableTrait::Irregular(IntegerIrregularTrait::Display),
            IntegerDeriveTrait::Default => GeneratableTrait::Irregular(IntegerIrregularTrait::Default),
            IntegerDeriveTrait::SerdeSerialize => GeneratableTrait::Irregular(IntegerIrregularTrait::SerdeSerialize),
            IntegerDeriveTrait::SerdeDeserialize => GeneratableTrait::Irregular(IntegerIrregularTrait::SerdeDeserialize),
            IntegerDeriveTrait::SchemarsJsonSchema => GeneratableTrait::Transparent(IntegerTransparentTrait::SchemarsJsonSchema),
            IntegerDeriveTrait::ArbitraryArbitrary => GeneratableTrait::Irregular(IntegerIrregularTrait::ArbitraryArbitrary),
            IntegerDeriveTrait::ValuableValuable => GeneratableTrait::Transparent(IntegerTransparentTrait::ValuableValuable),
        }
    }

    fn to_generatable(&self) -> (r: GeneratableTrait<IntegerTransparentTrait, IntegerIrregularTrait>) {
        match self {
            IntegerDeriveTrait::Debug => GeneratableTrait::Transparent(IntegerTransparentTrait::Debug),
            IntegerDeriveTrait::Clone => GeneratableTrait::Transparent(IntegerTransparentTrait::Clone),
            IntegerDeriveTrait::Copy => GeneratableTrait::Transparent(IntegerTransparentTrait::Copy),
            IntegerDeriveTrait::PartialEq => GeneratableTrait::Transparent(IntegerTransparentTrait::PartialEq),
            IntegerDeriveTrait::Eq => GeneratableTrait::Transparent(IntegerTransparentTrait::Eq),
            IntegerDeriveTrait::PartialOrd => GeneratableTrait::Transparent(IntegerTransparentTrait::PartialOrd),
            IntegerDeriveTrait::Ord => GeneratableTrait::Transparent(IntegerTransparentTrait::Ord),
            IntegerDeriveTrait::Hash => GeneratableTrait::Transparent(IntegerTransparentTrait::Hash),
            IntegerDeriveTrait::FromStr => GeneratableTrait::Irregular(IntegerIrregularTrait::FromStr),
            IntegerDeriveTrait::AsRef => GeneratableTrait::Irregular(IntegerIrregularTrait::AsRef),
            IntegerDeriveTrait::Deref => GeneratableTrait::Irregular(IntegerIrregularTrait::Deref),
            IntegerDeriveTrait::Into => GeneratableTrait::Irregular(IntegerIrregularTrait::Into),
            IntegerDeriveTrait::From => GeneratableTrait::Irregular(IntegerIrregularTrait::From),
            IntegerDeriveTrait::TryFrom => GeneratableTrait::Irregular(IntegerIrregularTrait::TryFrom),
            IntegerDeriveTrait::Borrow => GeneratableTrait::Irregular(IntegerIrregularTrait::Borrow),
            IntegerDeriveTrait::Display => GeneratableTrait::Irregular(IntegerIrregularTrait::Display),
            IntegerDeriveTrait::Default => GeneratableTrait::Irregular(IntegerIrregularTrait::Default),
            IntegerDeriveTrait::SerdeSerialize => GeneratableTrait::Irregular(IntegerIrregularTrait::SerdeSerialize),
            IntegerDeriveTrait::SerdeDeserialize => GeneratableTrait::Irregular(IntegerIrregularTrait::SerdeDeserialize),
            IntegerDeriveTrait::SchemarsJsonSchema => GeneratableTrait::Transparent(IntegerTransparentTrait::SchemarsJsonSchema),
            IntegerDeriveTrait::ArbitraryArbitrary => GeneratableTrait::Irregular(IntegerIrregularTrait::ArbitraryArbitrary),
            IntegerDeriveTrait::ValuableValuable => GeneratableTrait::Transparent(IntegerTransparentTrait::ValuableValuable),
        }
    }
}


/// Validates the traits to derive for an integer newtype, given plainly and under
/// `cfg_attr`: the checks apply to all of them together.
pub fn validate_integer_derive_traits(
    derive_traits: &Vec<SpannedItem<DeriveTrait>>,
    cfg_attr_entries: &Vec<CfgAttrEntry>,
    has_validation: bool,
) -> (r: Result<ValidatedDerives<IntegerDeriveTrait>, DeriveTraitError>)
    ensures
        spec_validated_derives::<IntegerDeriveTrait>(
            derive_traits@,
            cfg_attr_entries@,
            has_validation,
            r,
            spec_validate_derive_traits::<IntegerDeriveTrait>(spec_all_derive_traits(derive_traits@, cfg_attr_entries@), has_validation),
        ),
{
    validate_all_derive_traits::<IntegerDeriveTrait>(derive_traits, cfg_attr_entries, has_validation)
}

/// Splits the traits of an integer newtype into those to derive and those to
/// implement, in order.
pub fn split_traits(input_traits: Vec<IntegerDeriveTrait>) -> (r: (Vec<IntegerTransparentTrait>, Vec<IntegerIrregularTrait>))
    ensures
        r.0@ == spec_transparent_of::<IntegerDeriveTrait, IntegerTransparentTrait, IntegerIrregularTrait>(input_traits@),
        r.1@ == spec_irregular_of::<IntegerDeriveTrait, IntegerTransparentTrait, IntegerIrregularTrait>(input_traits@),
{
    let split = split_into_generatable_traits(input_traits);
    (split.transparent_traits, split.irregular_traits)
}


impl<T> IntegerSanitizer<T> {
    /// The function of a `with` sanitizer; none for the placeholder variant.
    pub fn custom_fn(&self) -> (r: Option<&TypedCustomFunction>)
        ensures
            match self {
                IntegerSanitizer::With(f) => r == Some(f),
                IntegerSanitizer::_Phantom(_) => r is None,
            },
    {
        match self {
            IntegerSanitizer::With(f) => Some(f),
            IntegerSanitizer::_Phantom(_) => None,
        }
    }
}


/// The integer types a newtype can wrap.
pub trait IntegerType {
}

impl IntegerType for u8 {
}

impl IntegerType for u16 {
}

impl IntegerType for u32 {
}

impl IntegerType for u64 {
}

impl IntegerType for u128 {
}

impl IntegerType for usize {
}

impl IntegerType for i8 {
}

impl IntegerType for i16 {
}

impl IntegerType for i32 {
}

impl IntegerType for i64 {
}

impl IntegerType for i128 {
}

impl IntegerType for isize {
}

/// Newtypes over an integer type `T`.
pub struct IntegerNewtype<T: IntegerType>(pub PhantomData<T>);

impl<T: IntegerType> IntegerNewtype<T> {
    /// Validates the traits to derive, given the validated guard.
    pub fn validate(
        guard: &IntegerGuard<T>,
        derive_traits: &Vec<SpannedItem<DeriveTrait>>,
        cfg_attr_entries: &Vec<CfgAttrEntry>,
    ) -> (r: Result<ValidatedDerives<IntegerDeriveTrait>, DeriveTraitError>)
        ensures
            spec_validated_derives::<IntegerDeriveTrait>(
                derive_traits@,
                cfg_attr_entries@,
                guard.spec_has_validation(),
                r,
                spec_validate_derive_traits::<IntegerDeriveTrait>(
                    spec_all_derive_traits(derive_traits@, cfg_attr_entries@),
                    guard.spec_has_validation(),
                ),
            ),
    {
        validate_integer_derive_traits(derive_traits, cfg_attr_entries, guard.has_validation())
    }
}


/// Law: `From` is accepted for an integer newtype exactly when its guard
/// has no validation: `From` would let values bypass the validators.
/// Without validation it becomes `From`.
pub proof fn lemma_integer_from_exactly_without_validation<T>(guard: IntegerGuard<T>)
    ensures
        <IntegerDeriveTrait as TypedDeriveTrait>::spec_from_derive(DeriveTrait::From, guard.spec_has_validation()) == Err::<
            IntegerDeriveTrait,
            DeriveRefusal,
        >(DeriveRefusal::FromWithValidation) <==> guard.spec_has_validation(),
        !guard.spec_has_validation() ==> <IntegerDeriveTrait as TypedDeriveTrait>::spec_from_derive(
            DeriveTrait::From,
            guard.spec_has_validation(),
        ) == Ok::<IntegerDeriveTrait, DeriveRefusal>(IntegerDeriveTrait::From),
{
}


/// The derived trait of the same name as a plainly derived trait.
pub open spec fn integer_transparent_origin(t: IntegerTransparentTrait) -> IntegerDeriveTrait {
    match t {
        IntegerTransparentTrait::Debug => IntegerDeriveTrait::Debug,
        IntegerTransparentTrait::Clone => IntegerDeriveTrait::Clone,
        IntegerTransparentTrait::Copy => IntegerDeriveTrait::Copy,
        IntegerTransparentTrait::PartialEq => IntegerDeriveTrait::PartialEq,
        IntegerTransparentTrait::Eq => IntegerDeriveTrait::Eq,
        IntegerTransparentTrait::PartialOrd => IntegerDeriveTrait::PartialOrd,
        IntegerTransparentTrait::Ord => IntegerDeriveTrait::Ord,
        IntegerTransparentTrait::Hash => IntegerDeriveTrait::Hash,
        IntegerTransparentTrait::SchemarsJsonSchema => IntegerDeriveTrait::SchemarsJsonSchema,
        IntegerTransparentTrait::ValuableValuable => IntegerDeriveTrait::ValuableValuable,
    }
}

/// The derived trait of the same name as a generated trait.
pub open spec fn integer_irregular_origin(t: IntegerIrregularTrait) -> IntegerDeriveTrait {
    match t {
        IntegerIrregularTrait::FromStr => IntegerDeriveTrait::FromStr,
        IntegerIrregularTrait::AsRef => IntegerDeriveTrait::AsRef,
        IntegerIrregularTrait::Deref => IntegerDeriveTrait::Deref,
        IntegerIrregularTrait::From => IntegerDeriveTrait::From,
        IntegerIrregularTrait::TryFrom => IntegerDeriveTrait::TryFrom,
        IntegerIrregularTrait::Borrow => IntegerDeriveTrait::Borrow,
        IntegerIrregularTrait::Into => IntegerDeriveTrait::Into,
        IntegerIrregularTrait::Display => IntegerDeriveTrait::Display,
        IntegerIrregularTrait::Default => IntegerDeriveTrait::Default,
        IntegerIrregularTrait::SerdeSerialize => IntegerDeriveTrait::SerdeSerialize,
        IntegerIrregularTrait::SerdeDeserialize => IntegerDeriveTrait::SerdeDeserialize,
        IntegerIrregularTrait::ArbitraryArbitrary => IntegerDeriveTrait::ArbitraryArbitrary,
    }
}

/// Law: each trait asked for is derived or generated as the trait of the
/// same name (`Into` as `Into`, never as `From`).
pub proof fn lemma_integer_traits_generated_as_themselves(t: IntegerDeriveTrait)
    ensures
        match t.spec_generatable() {
            GeneratableTrait::Transparent(x) => integer_transparent_origin(x) == t,
            GeneratableTrait::Irregular(y) => integer_irregular_origin(y) == t,
        },
{
}


/// The trait asked for in `derive(..)` that a integer trait stands for.
pub open spec fn integer_derive_origin(t: IntegerDeriveTrait) -> DeriveTrait {
    match t {
        IntegerDeriveTrait::Debug => DeriveTrait::Debug,
        IntegerDeriveTrait::Clone => DeriveTrait::Clone,
        IntegerDeriveTrait::Copy => DeriveTrait::Copy,
        IntegerDeriveTrait::PartialEq => DeriveTrait::PartialEq,
        IntegerDeriveTrait::Eq => DeriveTrait::Eq,
        IntegerDeriveTrait::PartialOrd => DeriveTrait::PartialOrd,
        IntegerDeriveTrait::Ord => DeriveTrait::Ord,
        IntegerDeriveTrait::FromStr => DeriveTrait::FromStr,
        IntegerDeriveTrait::AsRef => DeriveTrait::AsRef,
        IntegerDeriveTrait::Into => DeriveTrait::Into,
        IntegerDeriveTrait::From => DeriveTrait::From,
        IntegerDeriveTrait::TryFrom => DeriveTrait::TryFrom,
        IntegerDeriveTrait::Hash => DeriveTrait::Hash,
        IntegerDeriveTrait::Borrow => DeriveTrait::Borrow,
        IntegerDeriveTrait::Display => DeriveTrait::Display,
        IntegerDeriveTrait::Default => DeriveTrait::Default,
        IntegerDeriveTrait::Deref => DeriveTrait::Deref,
        IntegerDeriveTrait::SerdeSerialize => DeriveTrait::SerdeSerialize,
        IntegerDeriveTrait::SerdeDeserialize => DeriveTrait::SerdeDeserialize,
        IntegerDeriveTrait::SchemarsJsonSchema => DeriveTrait::SchemarsJsonSchema,
        IntegerDeriveTrait::ArbitraryArbitrary => DeriveTrait::ArbitraryArbitrary,
        IntegerDeriveTrait::ValuableValuable => DeriveTrait::ValuableValuable,
    }
}

/// Law: a trait accepted for a integer newtype is the trait of the same name,
/// whatever the validation.
pub proof fn lemma_integer_accepted_trait_keeps_its_name(tr: DeriveTrait, info: bool)
    ensures
        <IntegerDeriveTrait as TypedDeriveTrait>::spec_from_derive(tr, info) matches Ok(t) ==> integer_derive_origin(t) == tr,
{
}

} // verus!
