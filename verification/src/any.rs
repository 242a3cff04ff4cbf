use vstd::prelude::*;

use crate::base::{Kind, SpannedItem};
use crate::derive::{
    spec_all_derive_traits, spec_validate_derive_traits, spec_validated_derives, validate_all_derive_traits, DeriveRefusal,
    DeriveTraitError, TypedDeriveTrait, ValidatedDerives,
};
use crate::generatable::{GeneratableTrait, ToGeneratable};
use crate::models::{CfgAttrEntry, CustomFunction, DeriveTrait, Guard, TypeTrait};

verus! {

/// Sanitizer of a newtype over an arbitrary type.
pub enum AnySanitizer {
    With(CustomFunction),
}

#[derive(Debug, Clone, Copy, PartialEq, Eq, Hash, Structural)]
pub enum AnySanitizerKind {
    With,
}

impl Kind for AnySanitizer {
    type Kind = AnySanitizerKind;

    open spec fn spec_kind(&self) -> AnySanitizerKind {
        AnySanitizerKind::With
    }

    fn kind(&self) -> (k: AnySanitizerKind) {
        AnySanitizerKind::With
    }

    fn same_kind(&self, other: &Self) -> (r: bool) {
        true
    }
}

/// Validator of a newtype over an arbitrary type.
pub enum AnyValidator {
    Predicate(CustomFunction),
}

#[derive(Debug, Clone, Copy, PartialEq, Eq, Hash, Structural)]
pub enum AnyValidatorKind {
    Predicate,
}

impl Kind for AnyValidator {
    type Kind = AnyValidatorKind;

    open spec fn spec_kind(&self) -> AnyValidatorKind {
        AnyValidatorKind::Predicate
    }

    fn kind(&self) -> (k: AnyValidatorKind) {
        AnyValidatorKind::Predicate
    }

    fn same_kind(&self, other: &Self) -> (r: bool) {
        true
    }
}

pub type SpannedAnySanitizer = SpannedItem<AnySanitizer>;

pub type SpannedAnyValidator = SpannedItem<AnyValidator>;

pub type AnyGuard = Guard<AnySanitizer, AnyValidator>;

/// Traits a newtype over an arbitrary type can derive.
#[derive(Debug, Clone, Copy, PartialEq, Eq, Hash, Structural)]
pub enum AnyDeriveTrait {
    // Standard
    Debug,
    Clone,
    Copy,
    PartialEq,
    Eq,
    PartialOrd,
    Ord,
    Display,
    AsRef,
    Into,
    From,
    Deref,
    Borrow,
    FromStr,
    TryFrom,
    Default,
    IntoIterator,
    Hash,
    // External crates
    SerdeSerialize,
    SerdeDeserialize,
    ArbitraryArbitrary,
    ValuableValuable,
}

impl TypeTrait for AnyDeriveTrait {
    open spec fn spec_is_from_str(&self) -> bool {
        *self == AnyDeriveTrait::FromStr
    }

    fn is_from_str(&self) -> (r: bool) {
        *self == AnyDeriveTrait::FromStr
    }
}

/// The trait a derived trait becomes for an arbitrary inner type: every trait
/// but `JsonSchema` maps to the trait of the same name. Validation does not
/// matter here: what an arbitrary type supports is the user's business.
pub open spec fn spec_to_any_derive_trait(tr: DeriveTrait) -> Result<AnyDeriveTrait, DeriveRefusal> {
    match tr {
        DeriveTrait::Debug => Ok(AnyDeriveTrait::Debug),
        DeriveTrait::Clone => Ok(AnyDeriveTrait::Clone),
        DeriveTrait::Copy => Ok(AnyDeriveTrait::Copy),
        DeriveTrait::PartialEq => Ok(AnyDeriveTrait::PartialEq),
        DeriveTrait::Eq => Ok(AnyDeriveTrait::Eq),
        DeriveTrait::Ord => Ok(AnyDeriveTrait::Ord),
        DeriveTrait::PartialOrd => Ok(AnyDeriveTrait::PartialOrd),
        DeriveTrait::Display => Ok(AnyDeriveTrait::Display),
        DeriveTrait::AsRef => Ok(AnyDeriveTrait::AsRef),
        DeriveTrait::Into => Ok(AnyDeriveTrait::Into),
        DeriveTrait::From => Ok(AnyDeriveTrait::From),
        DeriveTrait::Deref => Ok(AnyDeriveTrait::Deref),
        DeriveTrait::Borrow => Ok(AnyDeriveTrait::Borrow),
        DeriveTrait::FromStr => Ok(AnyDeriveTrait::FromStr),
        DeriveTrait::TryFrom => Ok(AnyDeriveTrait::TryFrom),
        DeriveTrait::Default => Ok(AnyDeriveTrait::Default),
        DeriveTrait::IntoIterator => Ok(AnyDeriveTrait::IntoIterator),
        DeriveTrait::SerdeSerialize => Ok(AnyDeriveTrait::SerdeSerialize),
        DeriveTrait::SerdeDeserialize => Ok(AnyDeriveTrait::SerdeDeserialize),
        DeriveTrait::Hash => Ok(AnyDeriveTrait::Hash),
        DeriveTrait::ArbitraryArbitrary => Ok(AnyDeriveTrait::ArbitraryArbitrary),
        DeriveTrait::ValuableValuable => Ok(AnyDeriveTrait::ValuableValuable),
        DeriveTrait::SchemarsJsonSchema => Err(DeriveRefusal::AnyJsonSchema),
    }
}

/// Converts a derived trait into a trait of a newtype over an arbitrary type.
pub fn to_any_derive_trait(tr: DeriveTrait, _has_validation: bool) -> (r: Result<AnyDeriveTrait, DeriveRefusal>)
    ensures
        r == spec_to_any_derive_trait(tr),
{
    match tr {
        DeriveTrait::Debug => Ok(AnyDeriveTrait::Debug),
        DeriveTrait::Clone => Ok(AnyDeriveTrait::Clone),
        DeriveTrait::Copy => Ok(AnyDeriveTrait::Copy),
        DeriveTrait::PartialEq => Ok(AnyDeriveTrait::PartialEq),
        DeriveTrait::Eq => Ok(AnyDeriveTrait::Eq),
        DeriveTrait::Ord => Ok(AnyDeriveTrait::Ord),
        DeriveTrait::PartialOrd => Ok(AnyDeriveTrait::PartialOrd),
        DeriveTrait::Display => Ok(AnyDeriveTrait::Display),
        DeriveTrait::AsRef => Ok(AnyDeriveTrait::AsRef),
        DeriveTrait::Into => Ok(AnyDeriveTrait::Into),
        DeriveTrait::From => Ok(AnyDeriveTrait::From),
        DeriveTrait::Deref => Ok(AnyDeriveTrait::Deref),
        DeriveTrait::Borrow => Ok(AnyDeriveTrait::Borrow),
        DeriveTrait::FromStr => Ok(AnyDeriveTrait::FromStr),
        DeriveTrait::TryFrom => Ok(AnyDeriveTrait::TryFrom),
        DeriveTrait::Default => Ok(AnyDeriveTrait::Default),
        DeriveTrait::IntoIterator => Ok(AnyDeriveTrait::IntoIterator),
        DeriveTrait::SerdeSerialize => Ok(AnyDeriveTrait::SerdeSerialize),
        DeriveTrait::SerdeDeserialize => Ok(AnyDeriveTrait::SerdeDeserialize),
        DeriveTrait::Hash => Ok(AnyDeriveTrait::Hash),
        DeriveTrait::ArbitraryArbitrary => Ok(AnyDeriveTrait::ArbitraryArbitrary),
        DeriveTrait::ValuableValuable => Ok(AnyDeriveTrait::ValuableValuable),
        DeriveTrait::SchemarsJsonSchema => Err(DeriveRefusal::AnyJsonSchema),
    }
}

impl TypedDeriveTrait for AnyDeriveTrait {
    /// Whether the newtype has validation (it changes nothing here).
    type Info = bool;

    open spec fn spec_from_derive(tr: DeriveTrait, info: bool) -> Result<AnyDeriveTrait, DeriveRefusal> {
        spec_to_any_derive_trait(tr)
    }

    fn from_derive(tr: DeriveTrait, info: bool) -> (r: Result<AnyDeriveTrait, DeriveRefusal>) {
        to_any_derive_trait(tr, info)
    }

    fn same(&self, other: &Self) -> (r: bool) {
        *self == *other
    }
}

/// A trait of an arbitrary-type newtype that is simply derived.
#[derive(Debug, Clone, Copy, PartialEq, Eq, Hash, Structural)]
pub enum AnyTransparentTrait {
    Debug,
    Clone,
    Copy,
    PartialEq,
    Eq,
    PartialOrd,
    Ord,
    Hash,
    ValuableValuable,
}

/// A trait of an arbitrary-type newtype whose implementation is generated.
#[derive(Debug, Clone, Copy, PartialEq, Eq, Hash, Structural)]
pub enum AnyIrregularTrait {
    AsRef,
    From,
    Into,
    Display,
    Deref,
    Borrow,
    FromStr,
    TryFrom,
    Default,
    IntoIterator,
    SerdeSerialize,
    SerdeDeserialize,
    ArbitraryArbitrary,
}

impl ToGeneratable<AnyTransparentTrait, AnyIrregularTrait> for AnyDeriveTrait {
    open spec fn spec_generatable(&self) -> GeneratableTrait<AnyTransparentTrait, AnyIrregularTrait> {
        match self {
            AnyDeriveTrait::Debug => GeneratableTrait::Transparent(AnyTransparentTrait::Debug),
            AnyDeriveTrait::Clone => GeneratableTrait::Transparent(AnyTransparentTrait::Clone),
            AnyDeriveTrait::Copy => GeneratableTrait::Transparent(AnyTransparentTrait::Copy),
            AnyDeriveTrait::Hash => GeneratableTrait::Transparent(AnyTransparentTrait::Hash),
            AnyDeriveTrait::PartialEq => GeneratableTrait::Transparent(AnyTransparentTrait::PartialEq),
            AnyDeriveTrait::Eq => GeneratableTrait::Transparent(AnyTransparentTrait::Eq),
            AnyDeriveTrait::PartialOrd => GeneratableTrait::Transparent(AnyTransparentTrait::PartialOrd),
            AnyDeriveTrait::Ord => GeneratableTrait::Transparent(AnyTransparentTrait::Ord),
            AnyDeriveTrait::AsRef => GeneratableTrait::Irregular(AnyIrregularTrait::AsRef),
            AnyDeriveTrait::From => GeneratableTrait::Irregular(AnyIrregularTrait::From),
            AnyDeriveTrait::Into => GeneratableTrait::Irregular(AnyIrregularTrait::Into),
            AnyDeriveTrait::Display => GeneratableTrait::Irregular(AnyIrregularTrait::Display),
            AnyDeriveTrait::Deref => GeneratableTrait::Irregular(AnyIrregularTrait::Deref),
            AnyDeriveTrait::Borrow => GeneratableTrait::Irregular(AnyIrregularTrait::Borrow),
            AnyDeriveTrait::FromStr => GeneratableTrait::Irregular(AnyIrregularTrait::FromStr),
            AnyDeriveTrait::TryFrom => GeneratableTrait::Irregular(AnyIrregularTrait::TryFrom),
            AnyDeriveTrait::Default => GeneratableTrait::Irregular(AnyIrregularTrait::Default),
            AnyDeriveTrait::IntoIterator => GeneratableTrait::Irregular(AnyIrregularTrait::IntoIterator),
            AnyDeriveTrait::SerdeSerialize => GeneratableTrait::Irregular(AnyIrregularTrait::SerdeSerialize),
            AnyDeriveTrait::SerdeDeserialize => GeneratableTrait::Irregular(AnyIrregularTrait::SerdeDeserialize),
            AnyDeriveTrait::ArbitraryArbitrary => GeneratableTrait::Irregular(AnyIrregularTrait::ArbitraryArbitrary),
            AnyDeriveTrait::ValuableValuable => GeneratableTrait::Transparent(AnyTransparentTrait::ValuableValuable),
        }
    }

    fn to_generatable(&self) -> (r: GeneratableTrait<AnyTransparentTrait, AnyIrregularTrait>) {
        match self {
            AnyDeriveTrait::Debug => GeneratableTrait::Transparent(AnyTransparentTrait::Debug),
            AnyDeriveTrait::Clone => GeneratableTrait::Transparent(AnyTransparentTrait::Clone),
            AnyDeriveTrait::Copy => GeneratableTrait::Transparent(AnyTransparentTrait::Copy),
            AnyDeriveTrait::Hash => GeneratableTrait::Transparent(AnyTransparentTrait::Hash),
            AnyDeriveTrait::PartialEq => GeneratableTrait::Transparent(AnyTransparentTrait::PartialEq),
            AnyDeriveTrait::Eq => GeneratableTrait::Transparent(AnyTransparentTrait::Eq),
            AnyDeriveTrait::PartialOrd => GeneratableTrait::Transparent(AnyTransparentTrait::PartialOrd),
            AnyDeriveTrait::Ord => GeneratableTrait::Transparent(AnyTransparentTrait::Ord),
            AnyDeriveTrait::AsRef => GeneratableTrait::Irregular(AnyIrregularTrait::AsRef),
            AnyDeriveTrait::From => GeneratableTrait::Irregular(AnyIrregularTrait::From),
            AnyDeriveTrait::Into => GeneratableTrait::Irregular(AnyIrregularTrait::Into),
            AnyDeriveTrait::Display => GeneratableTrait::Irregular(AnyIrregularTrait::Display),
            AnyDeriveTrait::Deref => GeneratableTrait::Irregular(AnyIrregularTrait::Deref),
            AnyDeriveTrait::Borrow => GeneratableTrait::Irregular(AnyIrregularTrait::Borrow),
            AnyDeriveTrait::FromStr => GeneratableTrait::Irregular(AnyIrregularTrait::FromStr),
            AnyDeriveTrait::TryFrom => GeneratableTrait::Irregular(AnyIrregularTrait::TryFrom),
            AnyDeriveTrait::Default => GeneratableTrait::Irregular(AnyIrregularTrait::Default),
            AnyDeriveTrait::IntoIterator => GeneratableTrait::Irregular(AnyIrregularTrait::IntoIterator),
            AnyDeriveTrait::SerdeSerialize => GeneratableTrait::Irregular(AnyIrregularTrait::SerdeSerialize),
            AnyDeriveTrait::SerdeDeserialize => GeneratableTrait::Irregular(AnyIrregularTrait::SerdeDeserialize),
            AnyDeriveTrait::ArbitraryArbitrary => GeneratableTrait::Irregular(AnyIrregularTrait::ArbitraryArbitrary),
            AnyDeriveTrait::ValuableValuable => GeneratableTrait::Transparent(AnyTransparentTrait::ValuableValuable),
        }
    }
}


/// Validates the traits to derive for a newtype of any other inner type,
/// given plainly and under `cfg_attr`: the checks apply to all of them
/// together.
pub fn validate_any_derive_traits(
    guard: &AnyGuard,
    derive_traits: &Vec<SpannedItem<DeriveTrait>>,
    cfg_attr_entries: &Vec<CfgAttrEntry>,
) -> (r: Result<ValidatedDerives<AnyDeriveTrait>, DeriveTraitError>)
    ensures
        spec_validated_derives::<AnyDeriveTrait>(
            derive_traits@,
            cfg_attr_entries@,
            guard.spec_has_validation(),
            r,
            spec_validate_derive_traits::<AnyDeriveTrait>(
                spec_all_derive_traits(derive_traits@, cfg_attr_entries@),
                guard.spec_has_validation(),
            ),
        ),
{
    validate_all_derive_traits::<AnyDeriveTrait>(derive_traits, cfg_attr_entries, guard.has_validation())
}


/// Newtypes over any other type.
pub struct AnyNewtype;

impl AnyNewtype {
    /// Validates the traits to derive, given the validated guard.
    pub fn validate(
        guard: &AnyGuard,
        derive_traits: &Vec<SpannedItem<DeriveTrait>>,
        cfg_attr_entries: &Vec<CfgAttrEntry>,
    ) -> (r: Result<ValidatedDerives<AnyDeriveTrait>, DeriveTraitError>)
        ensures
            spec_validated_derives::<AnyDeriveTrait>(
                derive_traits@,
                cfg_attr_entries@,
                guard.spec_has_validation(),
                r,
                spec_validate_derive_traits::<AnyDeriveTrait>(
                    spec_all_derive_traits(derive_traits@, cfg_attr_entries@),
                    guard.spec_has_validation(),
                ),
            ),
    {
        validate_any_derive_traits(guard, derive_traits, cfg_attr_entries)
    }
}


/// Law: a newtype over any other type may derive `From` whatever its
/// guard: the conversion does not look at the validation.
pub proof fn lemma_any_from_always_accepted(guard: AnyGuard)
    ensures
        <AnyDeriveTrait as TypedDeriveTrait>::spec_from_derive(DeriveTrait::From, guard.spec_has_validation()) == Ok::<
            AnyDeriveTrait,
            DeriveRefusal,
        >(AnyDeriveTrait::From),
{
}


/// The derived trait of the same name as a plainly derived trait.
pub open spec fn any_transparent_origin(t: AnyTransparentTrait) -> AnyDeriveTrait {
    match t {
        AnyTransparentTrait::Debug => AnyDeriveTrait::Debug,
        AnyTransparentTrait::Clone => AnyDeriveTrait::Clone,
        AnyTransparentTrait::Copy => AnyDeriveTrait::Copy,
        AnyTransparentTrait::PartialEq => AnyDeriveTrait::PartialEq,
        AnyTransparentTrait::Eq => AnyDeriveTrait::Eq,
        AnyTransparentTrait::PartialOrd => AnyDeriveTrait::PartialOrd,
        AnyTransparentTrait::Ord => AnyDeriveTrait::Ord,
        AnyTransparentTrait::Hash => AnyDeriveTrait::Hash,
        AnyTransparentTrait::ValuableValuable => AnyDeriveTrait::ValuableValuable,
    }
}

/// The derived trait of the same name as a generated trait.
pub open spec fn any_irregular_origin(t: AnyIrregularTrait) -> AnyDeriveTrait {
    match t {
        AnyIrregularTrait::AsRef => AnyDeriveTrait::AsRef,
        AnyIrregularTrait::From => AnyDeriveTrait::From,
        AnyIrregularTrait::Into => AnyDeriveTrait::Into,
        AnyIrregularTrait::Display => AnyDeriveTrait::Display,
        AnyIrregularTrait::Deref => AnyDeriveTrait::Deref,
        AnyIrregularTrait::Borrow => AnyDeriveTrait::Borrow,
        AnyIrregularTrait::FromStr => AnyDeriveTrait::FromStr,
        AnyIrregularTrait::TryFrom => AnyDeriveTrait::TryFrom,
        AnyIrregularTrait::Default => AnyDeriveTrait::Default,
        AnyIrregularTrait::IntoIterator => AnyDeriveTrait::IntoIterator,
        AnyIrregularTrait::SerdeSerialize => AnyDeriveTrait::SerdeSerialize,
        AnyIrregularTrait::SerdeDeserialize => AnyDeriveTrait::SerdeDeserialize,
        AnyIrregularTrait::ArbitraryArbitrary => AnyDeriveTrait::ArbitraryArbitrary,
    }
}

/// Law: each trait asked for is derived or generated as the trait of the
/// same name (`Into` as `Into`, never as `From`).
pub proof fn lemma_any_traits_generated_as_themselves(t: AnyDeriveTrait)
    ensures
        match t.spec_generatable() {
            GeneratableTrait::Transparent(x) => any_transparent_origin(x) == t,
            GeneratableTrait::Irregular(y) => any_irregular_origin(y) == t,
        },
{
}


/// The trait asked for in `derive(..)` that a any trait stands for.
pub open spec fn any_derive_origin(t: AnyDeriveTrait) -> DeriveTrait {
    match t {
        AnyDeriveTrait::Debug => DeriveTrait::Debug,
        AnyDeriveTrait::Clone => DeriveTrait::Clone,
        AnyDeriveTrait::Copy => DeriveTrait::Copy,
        AnyDeriveTrait::PartialEq => DeriveTrait::PartialEq,
        AnyDeriveTrait::Eq => DeriveTrait::Eq,
        AnyDeriveTrait::PartialOrd => DeriveTrait::PartialOrd,
        AnyDeriveTrait::Ord => DeriveTrait::Ord,
        AnyDeriveTrait::Display => DeriveTrait::Display,
        AnyDeriveTrait::AsRef => DeriveTrait::AsRef,
        AnyDeriveTrait::Into => DeriveTrait::Into,
        AnyDeriveTrait::From => DeriveTrait::From,
        AnyDeriveTrait::Deref => DeriveTrait::Deref,
        AnyDeriveTrait::Borrow => DeriveTrait::Borrow,
        AnyDeriveTrait::FromStr => DeriveTrait::FromStr,
        AnyDeriveTrait::TryFrom => DeriveTrait::TryFrom,
        AnyDeriveTrait::Default => DeriveTrait::Default,
        AnyDeriveTrait::IntoIterator => DeriveTrait::IntoIterator,
        AnyDeriveTrait::Hash => DeriveTrait::Hash,
        AnyDeriveTrait::SerdeSerialize => DeriveTrait::SerdeSerialize,
        AnyDeriveTrait::SerdeDeserialize => DeriveTrait::SerdeDeserialize,
        AnyDeriveTrait::ArbitraryArbitrary => DeriveTrait::ArbitraryArbitrary,
        AnyDeriveTrait::ValuableValuable => DeriveTrait::ValuableValuable,
    }
}

/// Law: a trait accepted for a any newtype is the trait of the same name,
/// whatever the validation.
pub proof fn lemma_any_accepted_trait_keeps_its_name(tr: DeriveTrait, info: bool)
    ensures
        <AnyDeriveTrait as TypedDeriveTrait>::spec_from_derive(tr, info) matches Ok(t) ==> any_derive_origin(t) == tr,
{
}

} // verus!
