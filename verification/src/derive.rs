use vstd::prelude::*;

use crate::base::SpannedItem;
use crate::models::{CfgAttrEntry, DeriveTrait, Features};
use crate::text::str_eq;
use crate::validate::{spec_from_and_try_from, validate_traits_from_xor_try_from};

verus! {

/// Why a name in `derive(..)` is not accepted.
#[derive(Debug, Clone, Copy, PartialEq, Eq, Structural)]
pub enum DeriveParseError {
    /// `Serialize` or `Deserialize` without the `serde` feature.
    SerdeDisabled(SerdeTrait),
    /// `JsonSchema` without the `schemars08` feature.
    SchemarsDisabled,
    /// `Arbitrary` without the `arbitrary` feature.
    ArbitraryDisabled,
    /// `Valuable` without the `valuable` feature.
    ValuableDisabled,
    /// A trait that cannot be derived at all.
    Unknown,
}

/// The two traits of serde.
#[derive(Debug, Clone, Copy, PartialEq, Eq, Structural)]
pub enum SerdeTrait {
    Serialize,
    Deserialize,
}

/// The trait a name in `derive(..)` stands for, given the enabled features.
pub open spec fn spec_parse_derive_trait(name: Seq<char>, features: Features) -> Result<DeriveTrait, DeriveParseError> {
    if name == "Debug"@ {
        Ok(DeriveTrait::Debug)
    } else if name == "Display"@ {
        Ok(DeriveTrait::Display)
    } else if name == "Clone"@ {
        Ok(DeriveTrait::Clone)
    } else if name == "Copy"@ {
        Ok(DeriveTrait::Copy)
    } else if name == "PartialEq"@ {
        Ok(DeriveTrait::PartialEq)
    } else if name == "Eq"@ {
        Ok(DeriveTrait::Eq)
    } else if name == "PartialOrd"@ {
        Ok(DeriveTrait::PartialOrd)
    } else if name == "Ord"@ {
        Ok(DeriveTrait::Ord)
    } else if name == "FromStr"@ {
        Ok(DeriveTrait::FromStr)
    } else if name == "AsRef"@ {
        Ok(DeriveTrait::AsRef)
    } else if name == "Deref"@ {
        Ok(DeriveTrait::Deref)
    } else if name == "TryFrom"@ {
        Ok(DeriveTrait::TryFrom)
    } else if name == "From"@ {
        Ok(DeriveTrait::From)
    } else if name == "Into"@ {
        Ok(DeriveTrait::Into)
    } else if name == "IntoIterator"@ {
        Ok(DeriveTrait::IntoIterator)
    } else if name == "Hash"@ {
        Ok(DeriveTrait::Hash)
    } else if name == "Borrow"@ {
        Ok(DeriveTrait::Borrow)
    } else if name == "Default"@ {
        Ok(DeriveTrait::Default)
    } else if name == "Serialize"@ {
        if features.serde { Ok(DeriveTrait::SerdeSerialize) } else { Err(DeriveParseError::SerdeDisabled(SerdeTrait::Serialize)) }
    } else if name == "Deserialize"@ {
        if features.serde { Ok(DeriveTrait::SerdeDeserialize) } else { Err(DeriveParseError::SerdeDisabled(SerdeTrait::Deserialize)) }
    } else if name == "JsonSchema"@ {
        if features.schemars08 { Ok(DeriveTrait::SchemarsJsonSchema) } else { Err(DeriveParseError::SchemarsDisabled) }
    } else if name == "Arbitrary"@ {
        if features.arbitrary { Ok(DeriveTrait::ArbitraryArbitrary) } else { Err(DeriveParseError::ArbitraryDisabled) }
    } else if name == "Valuable"@ {
        if features.valuable { Ok(DeriveTrait::ValuableValuable) } else { Err(DeriveParseError::ValuableDisabled) }
    } else {
        Err(DeriveParseError::Unknown)
    }
}

/// Reads a name given in `derive(..)`.
pub fn parse_derive_trait(name: &str, features: Features) -> (r: Result<DeriveTrait, DeriveParseError>)
    ensures
        r == spec_parse_derive_trait(name@, features),
{
    if str_eq(name, "Debug") {
        Ok(DeriveTrait::Debug)
    } else if str_eq(name, "Display") {
        Ok(DeriveTrait::Display)
    } else if str_eq(name, "Clone") {
        Ok(DeriveTrait::Clone)
    } else if str_eq(name, "Copy") {
        Ok(DeriveTrait::Copy)
    } else if str_eq(name, "PartialEq") {
        Ok(DeriveTrait::PartialEq)
    } else if str_eq(name, "Eq") {
        Ok(DeriveTrait::Eq)
    } else if str_eq(name, "PartialOrd") {
        Ok(DeriveTrait::PartialOrd)
    } else if str_eq(name, "Ord") {
        Ok(DeriveTrait::Ord)
    } else if str_eq(name, "FromStr") {
        Ok(DeriveTrait::FromStr)
    } else if str_eq(name, "AsRef") {
        Ok(DeriveTrait::AsRef)
    } else if str_eq(name, "Deref") {
        Ok(DeriveTrait::Deref)
    } else if str_eq(name, "TryFrom") {
        Ok(DeriveTrait::TryFrom)
    } else if str_eq(name, "From") {
        Ok(DeriveTrait::From)
    } else if str_eq(name, "Into") {
        Ok(DeriveTrait::Into)
    } else if str_eq(name, "IntoIterator") {
        Ok(DeriveTrait::IntoIterator)
    } else if str_eq(name, "Hash") {
        Ok(DeriveTrait::Hash)
    } else if str_eq(name, "Borrow") {
        Ok(DeriveTrait::Borrow)
    } else if str_eq(name, "Default") {
        Ok(DeriveTrait::Default)
    } else if str_eq(name, "Serialize") {
        if features.serde {
            Ok(DeriveTrait::SerdeSerialize)
        } else {
            Err(DeriveParseError::SerdeDisabled(SerdeTrait::Serialize))
        }
    } else if str_eq(name, "Deserialize") {
        if features.serde {
            Ok(DeriveTrait::SerdeDeserialize)
        } else {
            Err(DeriveParseError::SerdeDisabled(SerdeTrait::Deserialize))
        }
    } else if str_eq(name, "JsonSchema") {
        if features.schemars08 {
            Ok(DeriveTrait::SchemarsJsonSchema)
        } else {
            Err(DeriveParseError::SchemarsDisabled)
        }
    } else if str_eq(name, "Arbitrary") {
        if features.arbitrary {
            Ok(DeriveTrait::ArbitraryArbitrary)
        } else {
            Err(DeriveParseError::ArbitraryDisabled)
        }
    } else if str_eq(name, "Valuable") {
        if features.valuable {
            Ok(DeriveTrait::ValuableValuable)
        } else {
            Err(DeriveParseError::ValuableDisabled)
        }
    } else {
        Err(DeriveParseError::Unknown)
    }
}

/// The kinds of inner types with numeric bounds.
#[derive(Debug, Clone, Copy, PartialEq, Eq, Structural)]
pub enum NumericFamily {
    Integer,
    Float,
    Decimal,
}

/// Why a trait cannot be derived for a newtype.
#[derive(Debug, Clone, Copy, PartialEq, Eq, Structural)]
pub enum DeriveRefusal {
    /// `From` would bypass the validation; `TryFrom` is the way.
    FromWithValidation,
    /// `IntoIterator` needs a collection as the inner type.
    IntoIterator(NumericFamily),
    /// Floats cannot be hashed.
    FloatHash,
    /// `Eq` on a float needs `finite` validation (NaN is not equal to itself).
    FloatEqWithoutFinite,
    /// `Ord` on a float needs `finite` validation.
    FloatOrdWithoutFinite,
    /// `Eq` is asked for without `PartialEq`.
    EqRequiresPartialEq,
    /// `Ord` is asked for without `PartialOrd`.
    OrdRequiresPartialOrd,
    /// `Ord` is asked for without `Eq`.
    OrdRequiresEq,
    /// `JsonSchema` is not supported for `Decimal`.
    DecimalJsonSchema,
    /// `Decimal` does not implement `Valuable`.
    DecimalValuable,
    /// `JsonSchema` is not supported for arbitrary inner types.
    AnyJsonSchema,
    /// `From` and `TryFrom` are both asked for.
    FromAndTryFrom,
}

/// A trait that cannot be derived, with the span of its name in `derive(..)`.
pub struct DeriveTraitError {
    pub span: proc_macro2::Span,
    pub reason: DeriveRefusal,
}

/// The traits that can be derived for one kind of inner type.
pub trait TypedDeriveTrait: Sized + Copy {
    /// What the conversion needs to know about the guard.
    type Info: Copy;

    /// The typed trait a derived trait becomes, or why it cannot be derived.
    spec fn spec_from_derive(tr: DeriveTrait, info: Self::Info) -> Result<Self, DeriveRefusal>;

    fn from_derive(tr: DeriveTrait, info: Self::Info) -> (r: Result<Self, DeriveRefusal>)
        ensures
            r == Self::spec_from_derive(tr, info),
    ;

    fn same(&self, other: &Self) -> (r: bool)
        ensures
            r == (*self == *other),
    ;
}

/// The typed traits of the first `n` derived traits, each kept once, in the
/// order of first appearance; or the error of the first that is refused.
pub open spec fn spec_convert_prefix<DT: TypedDeriveTrait>(
    traits: Seq<SpannedItem<DeriveTrait>>,
    info: DT::Info,
    n: nat,
) -> Result<Seq<DT>, DeriveTraitError>
    decreases n,
{
    if n == 0 {
        Ok(Seq::empty())
    } else {
        match spec_convert_prefix::<DT>(traits, info, (n - 1) as nat) {
            Err(e) => Err(e),
            Ok(done) => match DT::spec_from_derive(traits[n - 1].item, info) {
                Err(reason) => Err(DeriveTraitError { span: traits[n - 1].span, reason }),
                Ok(t) => Ok(if done.contains(t) { done } else { done.push(t) }),
            },
        }
    }
}

/// The typed traits of all derived traits (see [`spec_convert_prefix`]).
pub open spec fn spec_convert_all<DT: TypedDeriveTrait>(
    traits: Seq<SpannedItem<DeriveTrait>>,
    info: DT::Info,
) -> Result<Seq<DT>, DeriveTraitError> {
    spec_convert_prefix::<DT>(traits, info, traits.len())
}

/// A converted list keeps each typed trait once.
pub proof fn lemma_convert_prefix_no_duplicates<DT: TypedDeriveTrait>(
    traits: Seq<SpannedItem<DeriveTrait>>,
    info: DT::Info,
    n: nat,
)
    ensures
        spec_convert_prefix::<DT>(traits, info, n) matches Ok(s) ==> s.no_duplicates(),
    decreases n,
{
    if n > 0 {
        lemma_convert_prefix_no_duplicates::<DT>(traits, info, (n - 1) as nat);
    }
}

/// A converted list holds exactly the typed traits of the derived traits:
/// each derived trait's typed trait is in it, and each of its traits comes
/// from a derived trait.
pub proof fn lemma_convert_prefix_complete<DT: TypedDeriveTrait>(
    traits: Seq<SpannedItem<DeriveTrait>>,
    info: DT::Info,
    n: nat,
)
    requires
        n <= traits.len(),
    ensures
        spec_convert_prefix::<DT>(traits, info, n) matches Ok(s) ==> {
            &&& forall|i: int|
                0 <= i < n ==> ((#[trigger] DT::spec_from_derive(traits[i].item, info)) matches Ok(t) && s.contains(t))
            &&& forall|k: int|
                0 <= k < s.len() ==> exists|i: int|
                    0 <= i < n && #[trigger] DT::spec_from_derive(traits[i].item, info) == Ok::<DT, DeriveRefusal>(
                        #[trigger] s[k],
                    )
        },
    decreases n,
{
    if n > 0 {
        lemma_convert_prefix_complete::<DT>(traits, info, (n - 1) as nat);
        if let Ok(s) = spec_convert_prefix::<DT>(traits, info, n) {
            let prev = spec_convert_prefix::<DT>(traits, info, (n - 1) as nat)->Ok_0;
            let t = DT::spec_from_derive(traits[n - 1].item, info)->Ok_0;
            assert forall|i: int| 0 <= i < n implies ((#[trigger] DT::spec_from_derive(traits[i].item, info)) matches Ok(u)
                && s.contains(u)) by {
                if i < n - 1 {
                    let u = DT::spec_from_derive(traits[i].item, info)->Ok_0;
                    assert(prev.contains(u));
                    let k = choose|k: int| 0 <= k < prev.len() && prev[k] == u;
                    if !prev.contains(t) {
                        assert(s[k] == u);
                    }
                } else {
                    if !prev.contains(t) {
                        assert(s[prev.len() as int] == t);
                    }
                }
            }
            assert forall|k: int| 0 <= k < s.len() implies exists|i: int|
                0 <= i < n && #[trigger] DT::spec_from_derive(traits[i].item, info) == Ok::<DT, DeriveRefusal>(
                    #[trigger] s[k],
                ) by {
                if k < prev.len() {
                    assert(s[k] == prev[k]);
                    let i = choose|i: int|
                        0 <= i < n - 1 && #[trigger] DT::spec_from_derive(traits[i].item, info) == Ok::<DT, DeriveRefusal>(
                            prev[k],
                        );
                    assert(DT::spec_from_derive(traits[i].item, info) == Ok::<DT, DeriveRefusal>(s[k]));
                } else {
                    assert(s[k] == t);
                    assert(DT::spec_from_derive(traits[n - 1].item, info) == Ok::<DT, DeriveRefusal>(s[k]));
                }
            }
        }
    }
}

/// Once a prefix is refused, every longer prefix is refused with the same error.
proof fn lemma_convert_prefix_err<DT: TypedDeriveTrait>(
    traits: Seq<SpannedItem<DeriveTrait>>,
    info: DT::Info,
    k: nat,
    m: nat,
)
    requires
        k <= m,
        spec_convert_prefix::<DT>(traits, info, k) is Err,
    ensures
        spec_convert_prefix::<DT>(traits, info, m) == spec_convert_prefix::<DT>(traits, info, k),
    decreases m - k,
{
    if k < m {
        lemma_convert_prefix_err::<DT>(traits, info, k, (m - 1) as nat);
    }
}

/// Converts every derived trait to its typed trait, each typed trait kept
/// once, in the order of first appearance; stops at the first refused trait.
pub fn convert_derive_traits<DT: TypedDeriveTrait>(
    traits: &Vec<SpannedItem<DeriveTrait>>,
    info: DT::Info,
) -> (r: Result<Vec<DT>, DeriveTraitError>)
    ensures
        match (r, spec_convert_all::<DT>(traits@, info)) {
            (Ok(v), Ok(s)) => v@ == s,
            (Err(e), Err(f)) => e == f,
            _ => false,
        },
{
    let n = traits.len();
    let mut out: Vec<DT> = Vec::new();
    let mut i: usize = 0;
    while i < n
        invariant
            n == traits@.len(),
            i <= n,
            spec_convert_prefix::<DT>(traits@, info, i as nat) == Ok::<Seq<DT>, DeriveTraitError>(out@),
        decreases n - i,
    {
        let st = &traits[i];
        match DT::from_derive(st.item, info) {
            Err(reason) => {
                proof {
                    lemma_convert_prefix_err::<DT>(traits@, info, (i + 1) as nat, n as nat);
                }
                return Err(DeriveTraitError { span: st.span, reason });
            },
            Ok(t) => {
                let mut found = false;
                let mut j: usize = 0;
                while j < out.len()
                    invariant
                        j <= out@.len(),
                        found == exists|k: int| 0 <= k < j && out@[k] == t,
                    decreases out@.len() - j,
                {
                    if out[j].same(&t) {
                        found = true;
                    }
                    j = j + 1;
                }
                if !found {
                    out.push(t);
                }
            },
        }
        i = i + 1;
    }
    Ok(out)
}

/// What validation of derived traits answers: `From` together with `TryFrom`
/// is refused first, then every trait is converted (see [`spec_convert_all`]).
pub open spec fn spec_validate_derive_traits<DT: TypedDeriveTrait>(
    traits: Seq<SpannedItem<DeriveTrait>>,
    info: DT::Info,
) -> Result<Seq<DT>, DeriveTraitError> {
    match spec_from_and_try_from(traits) {
        Some(span) => Err(DeriveTraitError { span, reason: DeriveRefusal::FromAndTryFrom }),
        None => spec_convert_all::<DT>(traits, info),
    }
}

/// Validates the traits to derive for one kind of inner type: refuses
/// `From` with `TryFrom`, then converts each trait, keeping each once.
pub fn validate_derive_traits<DT: TypedDeriveTrait>(
    traits: &Vec<SpannedItem<DeriveTrait>>,
    info: DT::Info,
) -> (r: Result<Vec<DT>, DeriveTraitError>)
    ensures
        match (r, spec_validate_derive_traits::<DT>(traits@, info)) {
            (Ok(v), Ok(s)) => v@ == s,
            (Err(e), Err(f)) => e == f,
            _ => false,
        },
{
    if let Err(e) = validate_traits_from_xor_try_from(traits) {
        return Err(DeriveTraitError { span: e.span, reason: DeriveRefusal::FromAndTryFrom });
    }
    convert_derive_traits(traits, info)
}


/// The traits of all `cfg_attr(.., derive(..))` entries, entry after entry.
pub open spec fn spec_cfg_attr_traits(entries: Seq<CfgAttrEntry>) -> Seq<SpannedItem<DeriveTrait>>
    decreases entries.len(),
{
    if entries.len() == 0 {
        Seq::empty()
    } else {
        spec_cfg_attr_traits(entries.drop_last()) + entries.last().derive_traits@
    }
}

/// Every trait asked for, plainly or under `cfg_attr`: the plain list first,
/// then the entries in order.
pub open spec fn spec_all_derive_traits(
    plain: Seq<SpannedItem<DeriveTrait>>,
    entries: Seq<CfgAttrEntry>,
) -> Seq<SpannedItem<DeriveTrait>> {
    plain + spec_cfg_attr_traits(entries)
}

/// Each trait of each `cfg_attr` entry is among the traits of all entries.
proof fn lemma_cfg_attr_traits_contains(entries: Seq<CfgAttrEntry>, j: int, k: int)
    requires
        0 <= j < entries.len(),
        0 <= k < entries[j].derive_traits@.len(),
    ensures
        spec_cfg_attr_traits(entries).contains(entries[j].derive_traits@[k]),
    decreases entries.len(),
{
    let prev = spec_cfg_attr_traits(entries.drop_last());
    let last = entries.last().derive_traits@;
    if j == entries.len() - 1 {
        assert((prev + last)[prev.len() + k] == last[k]);
    } else {
        lemma_cfg_attr_traits_contains(entries.drop_last(), j, k);
        let idx = choose|idx: int| 0 <= idx < prev.len() && prev[idx] == entries[j].derive_traits@[k];
        assert((prev + last)[idx] == prev[idx]);
    }
}

/// Collects every trait asked for, plainly or under `cfg_attr`.
pub fn all_derive_traits(
    plain: &Vec<SpannedItem<DeriveTrait>>,
    entries: &Vec<CfgAttrEntry>,
) -> (r: Vec<SpannedItem<DeriveTrait>>)
    ensures
        r@ == spec_all_derive_traits(plain@, entries@),
{
    let mut out: Vec<SpannedItem<DeriveTrait>> = Vec::new();
    let mut i: usize = 0;
    while i < plain.len()
        invariant
            i <= plain@.len(),
            out@ == plain@.subrange(0, i as int),
        decreases plain@.len() - i,
    {
        out.push(SpannedItem { item: plain[i].item, span: plain[i].span });
        assert(out@ =~= plain@.subrange(0, (i + 1) as int));
        i = i + 1;
    }
    assert(plain@.subrange(0, plain@.len() as int) =~= plain@);
    let mut j: usize = 0;
    while j < entries.len()
        invariant
            j <= entries@.len(),
            out@ == plain@ + spec_cfg_attr_traits(entries@.subrange(0, j as int)),
        decreases entries@.len() - j,
    {
        let traits = &entries[j].derive_traits;
        let ghost before = out@;
        let mut k: usize = 0;
        while k < traits.len()
            invariant
                k <= traits@.len(),
                out@ == before + traits@.subrange(0, k as int),
            decreases traits@.len() - k,
        {
            out.push(SpannedItem { item: traits[k].item, span: traits[k].span });
            assert(out@ =~= before + traits@.subrange(0, (k + 1) as int));
            k = k + 1;
        }
        proof {
            let next = entries@.subrange(0, (j + 1) as int);
            assert(next.drop_last() =~= entries@.subrange(0, j as int));
            assert(traits@.subrange(0, traits@.len() as int) =~= traits@);
            assert(out@ =~= plain@ + spec_cfg_attr_traits(next));
        }
        j = j + 1;
    }
    assert(entries@.subrange(0, entries@.len() as int) =~= entries@);
    out
}

/// A prefix converts without a refusal exactly when each of its traits does.
proof fn lemma_convert_prefix_ok<DT: TypedDeriveTrait>(
    traits: Seq<SpannedItem<DeriveTrait>>,
    info: DT::Info,
    n: nat,
)
    requires
        n <= traits.len(),
    ensures
        spec_convert_prefix::<DT>(traits, info, n) is Ok <==> forall|i: int|
            0 <= i < n ==> DT::spec_from_derive(#[trigger] traits[i].item, info) is Ok,
    decreases n,
{
    if n > 0 {
        lemma_convert_prefix_ok::<DT>(traits, info, (n - 1) as nat);
    }
}

/// Traits taken from a list that converts without a refusal convert without
/// a refusal too.
proof fn lemma_convert_all_ok_of_contained<DT: TypedDeriveTrait>(
    whole: Seq<SpannedItem<DeriveTrait>>,
    part: Seq<SpannedItem<DeriveTrait>>,
    info: DT::Info,
)
    requires
        spec_convert_all::<DT>(whole, info) is Ok,
        forall|i: int| 0 <= i < part.len() ==> whole.contains(#[trigger] part[i]),
    ensures
        spec_convert_all::<DT>(part, info) is Ok,
{
    lemma_convert_prefix_ok::<DT>(whole, info, whole.len());
    lemma_convert_prefix_ok::<DT>(part, info, part.len());
    assert forall|i: int| 0 <= i < part.len() implies DT::spec_from_derive(#[trigger] part[i].item, info) is Ok by {
        assert(whole.contains(part[i]));
        let idx = choose|idx: int| 0 <= idx < whole.len() && whole[idx] == part[i];
        assert(DT::spec_from_derive(whole[idx].item, info) is Ok);
    }
}

/// The typed traits to derive: those asked for plainly, and those of each
/// `cfg_attr` entry, in the order of the entries.
pub struct ValidatedDerives<DT> {
    pub unconditional: Vec<DT>,
    pub conditional: Vec<Vec<DT>>,
}

/// Each list of `derives` is the conversion of the list it comes from.
pub open spec fn spec_derives_converted<DT: TypedDeriveTrait>(
    plain: Seq<SpannedItem<DeriveTrait>>,
    entries: Seq<CfgAttrEntry>,
    info: DT::Info,
    derives: ValidatedDerives<DT>,
) -> bool {
    &&& spec_convert_all::<DT>(plain, info) == Ok::<Seq<DT>, DeriveTraitError>(derives.unconditional@)
    &&& derives.conditional@.len() == entries.len()
    &&& forall|j: int|
        0 <= j < entries.len() ==> spec_convert_all::<DT>(entries[j].derive_traits@, info) == Ok::<
            Seq<DT>,
            DeriveTraitError,
        >((#[trigger] derives.conditional@[j])@)
}

/// A validation of all traits answers as `checked` says: the same error, or
/// the converted lists when `checked` accepts.
pub open spec fn spec_validated_derives<DT: TypedDeriveTrait>(
    plain: Seq<SpannedItem<DeriveTrait>>,
    entries: Seq<CfgAttrEntry>,
    info: DT::Info,
    r: Result<ValidatedDerives<DT>, DeriveTraitError>,
    checked: Result<Seq<DT>, DeriveTraitError>,
) -> bool {
    match (r, checked) {
        (Ok(v), Ok(_)) => spec_derives_converted::<DT>(plain, entries, info, v),
        (Err(e), Err(f)) => e == f,
        _ => false,
    }
}

/// Validates the traits asked for, plainly and under `cfg_attr`: their union
/// must not hold both `From` and `TryFrom`, and each must be accepted (see
/// [`spec_validate_derive_traits`]); then each list is converted on its own.
pub fn validate_all_derive_traits<DT: TypedDeriveTrait>(
    plain: &Vec<SpannedItem<DeriveTrait>>,
    entries: &Vec<CfgAttrEntry>,
    info: DT::Info,
) -> (r: Result<ValidatedDerives<DT>, DeriveTraitError>)
    ensures
        spec_validated_derives::<DT>(
            plain@,
            entries@,
            info,
            r,
            spec_validate_derive_traits::<DT>(spec_all_derive_traits(plain@, entries@), info),
        ),
{
    let all = all_derive_traits(plain, entries);
    if let Err(e) = validate_derive_traits::<DT>(&all, info) {
        return Err(e);
    }
    let ghost union = all@;
    let ghost rest = spec_cfg_attr_traits(entries@);
    proof {
        assert forall|i: int| 0 <= i < plain@.len() implies union.contains(#[trigger] plain@[i]) by {
            assert(union[i] == plain@[i]);
        }
        lemma_convert_all_ok_of_contained::<DT>(union, plain@, info);
    }
    let unconditional = match convert_derive_traits::<DT>(plain, info) {
        Ok(v) => v,
        Err(e) => {
            return Err(e);
        },
    };
    let mut conditional: Vec<Vec<DT>> = Vec::new();
    let mut j: usize = 0;
    while j < entries.len()
        invariant
            j <= entries@.len(),
            union == spec_all_derive_traits(plain@, entries@),
            rest == spec_cfg_attr_traits(entries@),
            spec_convert_all::<DT>(union, info) is Ok,
            conditional@.len() == j,
            forall|k: int|
                0 <= k < j ==> spec_convert_all::<DT>(entries@[k].derive_traits@, info) == Ok::<
                    Seq<DT>,
                    DeriveTraitError,
                >((#[trigger] conditional@[k])@),
        decreases entries@.len() - j,
    {
        proof {
            let part = entries@[j as int].derive_traits@;
            assert forall|k: int| 0 <= k < part.len() implies union.contains(#[trigger] part[k]) by {
                lemma_cfg_attr_traits_contains(entries@, j as int, k);
                let idx = choose|idx: int| 0 <= idx < rest.len() && rest[idx] == part[k];
                assert(union[plain@.len() + idx] == rest[idx]);
            }
            lemma_convert_all_ok_of_contained::<DT>(union, part, info);
        }
        let converted = match convert_derive_traits::<DT>(&entries[j].derive_traits, info) {
            Ok(v) => v,
            Err(e) => {
                return Err(e);
            },
        };
        conditional.push(converted);
        j = j + 1;
    }
    Ok(ValidatedDerives { unconditional, conditional })
}

} // verus!
