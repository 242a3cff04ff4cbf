use vstd::prelude::*;

use crate::arbitrary::BoundKindOf;
use crate::base::{Kind, SpannedItem};
use crate::bounds::{bound_entry, BoundKind, first_bound_from, spec_bound_of, spec_validate_numeric_bounds};
use crate::guard::{items_of, spec_validate_numeric_guard, GuardError};
use crate::numeric::NumericValidatorTokens;
use crate::models::{Guard, NumericBoundValidator, RawGuard, RawValidation, TypeTrait, Validation};
use crate::validate::has_same_kind_pair;
use vstd::std_specs::cmp::PartialOrdSpec;
use crate::naming::{gen_module_name_for_type, gen_parse_error_name};

verus! {

/// Whether a validator sets an upper bound (`less` or `less_or_equal`).
pub open spec fn is_upper<V: BoundKindOf>(v: V) -> bool {
    v.spec_bound_kind() matches Some(BoundKind::Less | BoundKind::LessOrEqual)
}

/// Whether a validator sets a lower bound (`greater` or `greater_or_equal`).
pub open spec fn is_lower<V: BoundKindOf>(v: V) -> bool {
    v.spec_bound_kind() matches Some(BoundKind::Greater | BoundKind::GreaterOrEqual)
}

/// At most one validator of the list satisfies `upper` (if `upper`) or sets a
/// lower bound (if not).
pub open spec fn at_most_one_bound<V: BoundKindOf>(vs: Seq<V>, upper: bool) -> bool {
    forall|i: int, j: int|
        #![trigger vs[i], vs[j]]
        0 <= i < j < vs.len() ==> !(if upper {
            is_upper(vs[i]) && is_upper(vs[j])
        } else {
            is_lower(vs[i]) && is_lower(vs[j])
        })
}

/// The position of the only validator setting an upper bound (if `upper`) or
/// a lower bound, if any.
fn bound_position<V: BoundKindOf>(validators: &Vec<V>, upper: bool) -> (r: Option<usize>)
    requires
        at_most_one_bound(validators@, upper),
    ensures
        r matches Some(i) ==> i < validators@.len() && (if upper {
            is_upper(validators@[i as int])
        } else {
            is_lower(validators@[i as int])
        }),
        r is None ==> forall|j: int|
            0 <= j < validators@.len() ==> !(if upper {
                is_upper(#[trigger] validators@[j])
            } else {
                is_lower(validators@[j])
            }),
{
    let mut i: usize = 0;
    while i < validators.len()
        invariant
            i <= validators@.len(),
            forall|j: int|
                0 <= j < i ==> !(if upper {
                    is_upper(#[trigger] validators@[j])
                } else {
                    is_lower(validators@[j])
                }),
        decreases validators@.len() - i,
    {
        let k = validators[i].bound_kind();
        let hit = if upper {
            matches!(k, Some(BoundKind::Less) | Some(BoundKind::LessOrEqual))
        } else {
            matches!(k, Some(BoundKind::Greater) | Some(BoundKind::GreaterOrEqual))
        };
        if hit {
            return Some(i);
        }
        i = i + 1;
    }
    None
}

/// The only upper bound of a list of validators, if any (`less` and
/// `less_or_equal` never come together once the guard is validated).
pub fn upper_bound_position<V: BoundKindOf>(validators: &Vec<V>) -> (r: Option<usize>)
    requires
        at_most_one_bound(validators@, true),
    ensures
        r matches Some(i) ==> i < validators@.len() && is_upper(validators@[i as int]),
        r is None ==> forall|j: int| 0 <= j < validators@.len() ==> !is_upper(#[trigger] validators@[j]),
{
    bound_position(validators, true)
}

/// The only lower bound of a list of validators, if any.
pub fn lower_bound_position<V: BoundKindOf>(validators: &Vec<V>) -> (r: Option<usize>)
    requires
        at_most_one_bound(validators@, false),
    ensures
        r matches Some(i) ==> i < validators@.len() && is_lower(validators@[i as int]),
        r is None ==> forall|j: int| 0 <= j < validators@.len() ==> !is_lower(#[trigger] validators@[j]),
{
    bound_position(validators, false)
}

/// The bounds a generated test compares, `(upper, lower)`: the test is
/// generated when both bounds are given.
pub fn gen_test_should_have_consistent_lower_and_upper_boundaries<V: BoundKindOf>(validators: &Vec<V>) -> (r: Option<
    (usize, usize),
>)
    requires
        at_most_one_bound(validators@, true),
        at_most_one_bound(validators@, false),
    ensures
        r matches Some((u, l)) ==> u < validators@.len() && is_upper(validators@[u as int]) && l < validators@.len()
            && is_lower(validators@[l as int]),
        r is None ==> (forall|j: int| 0 <= j < validators@.len() ==> !is_upper(#[trigger] validators@[j])) || (forall|
            j: int,
        |
            0 <= j < validators@.len() ==> !is_lower(#[trigger] validators@[j])),
{
    let maybe_upper = upper_bound_position(validators);
    let maybe_lower = lower_bound_position(validators);
    match (maybe_upper, maybe_lower) {
        (Some(u), Some(l)) => Some((u, l)),
        _ => None,
    }
}

/// Whether a test that the default value passes validation is generated:
/// only with validation, without generics (which the test could not
/// instantiate), and with a default value.
pub fn gen_test_should_have_valid_default_value(has_validation: bool, has_generics: bool, has_default: bool) -> (r: bool)
    ensures
        r == (has_validation && !has_generics && has_default),
{
    has_validation && !has_generics && has_default
}


/// Whether `FromStr` is among the traits to generate.
pub fn has_from_str_trait<T: TypeTrait>(traits: &Vec<T>) -> (r: bool)
    ensures
        r == exists|i: int| 0 <= i < traits@.len() && (#[trigger] traits@[i]).spec_is_from_str(),
{
    let mut i: usize = 0;
    while i < traits.len()
        invariant
            i <= traits@.len(),
            forall|j: int| 0 <= j < i ==> !(#[trigger] traits@[j]).spec_is_from_str(),
        decreases traits@.len() - i,
    {
        if traits[i].is_from_str() {
            return true;
        }
        i = i + 1;
    }
    false
}

/// The names under which the generated items are reached.
pub struct NewtypeNames {
    /// The module the newtype is generated in.
    pub module_name: String,
    /// The error type of `FromStr`, generated and re-exported when `FromStr`
    /// is derived.
    pub parse_error_name: Option<String>,
    /// The generated validation error type, re-exported next to the newtype;
    /// a custom error type belongs to the user and is not re-exported.
    pub reimported_error_name: Option<String>,
}

/// The name of the validation error type to re-export: that of a standard
/// validation.
pub open spec fn spec_reimported_error<S, V>(guard: Guard<S, V>) -> Option<Seq<char>> {
    match guard {
        Guard::WithValidation { validation: Validation::Standard { error_type_name, .. }, .. } => Some(error_type_name@),
        _ => None,
    }
}

/// Names of the module, and of the error types to re-export from it.
pub fn newtype_names<S, V>(newtype_name: &str, has_from_str: bool, guard: &Guard<S, V>) -> (r: NewtypeNames)
    ensures
        r.module_name@ == "__nutype_"@ + newtype_name@ + "__"@,
        has_from_str ==> (r.parse_error_name matches Some(n) && n@ == newtype_name@ + "ParseError"@),
        !has_from_str ==> r.parse_error_name is None,
        spec_reimported_error(*guard) matches Some(e) ==> (r.reimported_error_name matches Some(n) && n@ == e),
        spec_reimported_error(*guard) is None ==> r.reimported_error_name is None,
{
    let module_name = gen_module_name_for_type(newtype_name);
    let parse_error_name = if has_from_str {
        Some(gen_parse_error_name(newtype_name))
    } else {
        None
    };
    let reimported_error_name = match guard {
        Guard::WithValidation { validation: Validation::Standard { error_type_name, .. }, .. } => Some(
            error_type_name.clone(),
        ),
        _ => None,
    };
    NewtypeNames { module_name, parse_error_name, reimported_error_name }
}


/// Every validator that sets a bound gives it as a value, not as an
/// expression.
pub open spec fn bounds_are_values<V: BoundKindOf + NumericBoundValidator<T>, T>(vs: Seq<V>) -> bool {
    forall|i: int|
        0 <= i < vs.len() ==> match (#[trigger] vs[i]).spec_bound_kind() {
            Some(k) => spec_bound_of::<V, T>(vs[i], k) is Some,
            None => true,
        }
}

proof fn lemma_first_bound_exists<V: NumericBoundValidator<T>, T>(
    vs: Seq<SpannedItem<V>>,
    kind: BoundKind,
    from: int,
    i: int,
)
    requires
        0 <= from <= i < vs.len(),
        spec_bound_of::<V, T>(vs[i].item, kind) is Some,
    ensures
        first_bound_from::<V, T>(vs, kind, from) is Some,
    decreases i - from,
{
    if spec_bound_of::<V, T>(vs[from].item, kind) is None {
        lemma_first_bound_exists::<V, T>(vs, kind, from + 1, i);
    }
}

/// In a validated list whose bounds are values, no two validators at
/// distinct positions set a bound on the same side.
proof fn lemma_same_side_refused<V, T: PartialOrdSpec>(vs: Seq<SpannedItem<V>>, i: int, j: int, upper: bool)
    where
        V: Kind + NumericBoundValidator<T> + NumericValidatorTokens,
    requires
        0 <= i < vs.len(),
        0 <= j < vs.len(),
        i != j,
        !has_same_kind_pair(vs),
        spec_validate_numeric_bounds::<V, T>(vs) is Ok,
        bounds_are_values::<V, T>(items_of(vs)),
    ensures
        upper ==> !(is_upper(vs[i].item) && is_upper(vs[j].item)),
        !upper ==> !(is_lower(vs[i].item) && is_lower(vs[j].item)),
{
    let items = items_of(vs);
    assert(items[i] == vs[i].item && items[j] == vs[j].item);
    let both = if upper {
        is_upper(vs[i].item) && is_upper(vs[j].item)
    } else {
        is_lower(vs[i].item) && is_lower(vs[j].item)
    };
    if !both {
    } else if vs[i].spec_kind() == vs[j].spec_kind() {
        assert(has_same_kind_pair(vs));
    } else {
        V::lemma_view_follows_kind(vs[i].item, vs[j].item);
        V::lemma_bound_kind_follows_view(vs[i].item);
        V::lemma_bound_kind_follows_view(vs[j].item);
        let (k1, k2) = if upper {
            (BoundKind::Less, BoundKind::LessOrEqual)
        } else {
            (BoundKind::Greater, BoundKind::GreaterOrEqual)
        };
        let (a, b) = if vs[i].item.spec_bound_kind() == Some(k1) {
            (i, j)
        } else {
            (j, i)
        };
        assert(vs[a].item.spec_bound_kind() == Some(k1));
        assert(vs[b].item.spec_bound_kind() == Some(k2));
        assert(spec_bound_of::<V, T>(items[a], k1) is Some);
        assert(spec_bound_of::<V, T>(items[b], k2) is Some);
        lemma_first_bound_exists::<V, T>(vs, k1, 0, a);
        lemma_first_bound_exists::<V, T>(vs, k2, 0, b);
        assert(bound_entry::<V, T>(vs, k1) is Some);
        assert(bound_entry::<V, T>(vs, k2) is Some);
    }
}

/// A guard of a numeric newtype that passes validation, with its bounds
/// given as values, has at most one lower and at most one upper bound: what
/// the generated test of consistent bounds reads.
pub proof fn lemma_validated_bounds_are_unique<S, V, T: PartialOrdSpec>(
    raw_guard: RawGuard<SpannedItem<S>, SpannedItem<V>>,
    newtype_name: Seq<char>,
    r: Result<Guard<S, V>, GuardError<S::Kind, V::Kind>>,
)
    where
        S: Kind,
        V: Kind + NumericBoundValidator<T> + NumericValidatorTokens,
    requires
        spec_validate_numeric_guard::<S, V, T>(raw_guard, newtype_name, r),
        r is Ok,
        bounds_are_values::<V, T>(crate::arbitrary::standard_validators(r->Ok_0)),
    ensures
        at_most_one_bound(crate::arbitrary::standard_validators(r->Ok_0), true),
        at_most_one_bound(crate::arbitrary::standard_validators(r->Ok_0), false),
{
    if let Some(RawValidation::Standard { validators }) = raw_guard.validation {
        let vs = validators@;
        let items = crate::arbitrary::standard_validators(r->Ok_0);
        assert(items == items_of(vs));
        assert forall|i: int, j: int| 0 <= i < j < items.len() implies !(is_upper(items[i]) && is_upper(items[j])) by {
            if is_upper(items[i]) && is_upper(items[j]) {
                lemma_same_side_refused::<V, T>(vs, i, j, true);
            }
        }
        assert forall|i: int, j: int| 0 <= i < j < items.len() implies !(is_lower(items[i]) && is_lower(items[j])) by {
            if is_lower(items[i]) && is_lower(items[j]) {
                lemma_same_side_refused::<V, T>(vs, i, j, false);
            }
        }
    }
}

/// `Default` is asked for, but no `default = ...` value is given.
pub struct MissingDefaultValue;

/// Refuses deriving `Default` without a default value.
pub fn check_default_value(derives_default: bool, has_default_value: bool) -> (r: Result<(), MissingDefaultValue>)
    ensures
        r is Err <==> (derives_default && !has_default_value),
{
    if derives_default && !has_default_value {
        Err(MissingDefaultValue)
    } else {
        Ok(())
    }
}

} // verus!
