use vstd::prelude::*;

use crate::base::{Kind, SpannedItem};
use crate::models::DeriveTrait;

verus! {

/// There are two distinct positions holding items of the same kind.
pub open spec fn has_same_kind_pair<T: Kind>(items: Seq<T>) -> bool {
    exists|i: int, j: int|
        0 <= i < items.len() && 0 <= j < items.len() && i != j
            && #[trigger] items[i].spec_kind() == #[trigger] items[j].spec_kind()
}

/// `(i1, i2)` is the first pair, in the order of a nested scan over `items`,
/// of two distinct positions holding items of the same kind.
pub open spec fn is_first_same_kind_pair<T: Kind>(items: Seq<T>, i1: int, i2: int) -> bool {
    &&& 0 <= i1 < items.len()
    &&& 0 <= i2 < items.len()
    &&& i1 != i2
    &&& items[i1].spec_kind() == items[i2].spec_kind()
    &&& forall|a: int, b: int|
        #![trigger items[a].spec_kind(), items[b].spec_kind()]
        0 <= a < items.len() && 0 <= b < items.len() && a != b && (a < i1 || (a == i1 && b < i2))
            ==> items[a].spec_kind() != items[b].spec_kind()
}

/// Finds the first two items that are of the same kind, scanning pairs of
/// positions in order.
pub fn detect_items_of_same_kind<T: Kind>(items: &Vec<T>) -> (r: Option<(usize, usize)>)
    ensures
        r is None <==> !has_same_kind_pair(items@),
        r matches Some((i1, i2)) ==> is_first_same_kind_pair(items@, i1 as int, i2 as int),
{
    let n = items.len();
    let mut i1: usize = 0;
    while i1 < n
        invariant
            n == items@.len(),
            i1 <= n,
            forall|a: int, b: int|
                #![trigger items@[a].spec_kind(), items@[b].spec_kind()]
                0 <= a < i1 && 0 <= b < n && a != b ==> items@[a].spec_kind() != items@[b].spec_kind(),
        decreases n - i1,
    {
        let mut i2: usize = 0;
        while i2 < n
            invariant
                n == items@.len(),
                i1 < n,
                i2 <= n,
                forall|a: int, b: int|
                    #![trigger items@[a].spec_kind(), items@[b].spec_kind()]
                    0 <= a < i1 && 0 <= b < n && a != b ==> items@[a].spec_kind() != items@[b].spec_kind(),
                forall|b: int|
                    0 <= b < i2 && i1 != b ==> items@[i1 as int].spec_kind() != #[trigger] items@[b].spec_kind(),
            decreases n - i2,
        {
            if i1 != i2 && items[i1].same_kind(&items[i2]) {
                return Some((i1, i2));
            }
            i2 = i2 + 1;
        }
        i1 = i1 + 1;
    }
    None
}

/// Two items of the same kind were given.
pub struct DuplicateError<K> {
    /// The kind that occurs twice.
    pub kind: K,
    /// Where to point the error: both occurrences when spans can be joined,
    /// otherwise the second one.
    pub span: proc_macro2::Span,
}

/// `Span::join` of proc_macro2: the span covering both, when both come from
/// the same file and joining is possible where the macro runs. What it
/// returns depends on the compiler session, so nothing is stated of it.
#[verifier::external_body]
fn span_join(span1: proc_macro2::Span, span2: proc_macro2::Span) -> Option<proc_macro2::Span> {
    span1.join(span2)
}

/// The joined span when there is one, otherwise the fallback span.
pub open spec fn spec_joined_or_fallback(joined: Option<proc_macro2::Span>, fallback: proc_macro2::Span) -> proc_macro2::Span {
    match joined {
        Some(span) => span,
        None => fallback,
    }
}

/// Picks the span an error points at, given the outcome of joining two spans:
/// the joined span when joining succeeded, otherwise the fallback.
pub fn joined_or_fallback(joined: Option<proc_macro2::Span>, fallback: proc_macro2::Span) -> (r: proc_macro2::Span)
    ensures
        r == spec_joined_or_fallback(joined, fallback),
{
    match joined {
        Some(span) => span,
        None => fallback,
    }
}

/// The span covering both spans if they can be joined, otherwise the second.
/// Whether joining succeeds depends on the compiler session the macro runs
/// in; what is returned for each outcome is stated by `joined_or_fallback`.
pub fn join_spans_or_last(span1: proc_macro2::Span, span2: proc_macro2::Span) -> (r: proc_macro2::Span) {
    let joined = span_join(span1, span2);
    joined_or_fallback(joined, span2)
}

/// Rejects items of which two are of the same kind (e.g. `greater` given
/// twice). The error names the kind of the first such pair.
pub fn validate_duplicates<T: Kind>(items: &Vec<SpannedItem<T>>) -> (r: Result<(), DuplicateError<T::Kind>>)
    ensures
        r is Ok <==> !has_same_kind_pair(items@),
        r matches Err(e) ==> exists|i1: int, i2: int|
            #![trigger is_first_same_kind_pair(items@, i1, i2)]
            is_first_same_kind_pair(items@, i1, i2) && e.kind == items@[i1].spec_kind(),
{
    if let Some((i1, i2)) = detect_items_of_same_kind(items) {
        let kind = items[i1].kind();
        let span = join_spans_or_last(items[i1].span, items[i2].span);
        return Err(DuplicateError { kind, span });
    }
    Ok(())
}

/// Position of the first trait equal to `tr`, at `from` or later.
pub open spec fn first_trait_from(traits: Seq<SpannedItem<DeriveTrait>>, tr: DeriveTrait, from: int) -> Option<int>
    decreases traits.len() - from,
{
    if from < 0 || from >= traits.len() {
        None
    } else if traits[from].item == tr {
        Some(from)
    } else {
        first_trait_from(traits, tr, from + 1)
    }
}

/// Position of the first trait equal to `tr`.
pub open spec fn first_trait_position(traits: Seq<SpannedItem<DeriveTrait>>, tr: DeriveTrait) -> Option<int> {
    first_trait_from(traits, tr, 0)
}

/// The first position at `from` or later holds `tr` when there is one.
pub proof fn lemma_first_trait_from(traits: Seq<SpannedItem<DeriveTrait>>, tr: DeriveTrait, from: int)
    requires
        0 <= from <= traits.len(),
    ensures
        first_trait_from(traits, tr, from) matches Some(i) ==> from <= i < traits.len() && traits[i].item == tr
            && forall|j: int| from <= j < i ==> #[trigger] traits[j].item != tr,
        first_trait_from(traits, tr, from) is None <==> forall|j: int| from <= j < traits.len() ==> #[trigger] traits[j].item != tr,
    decreases traits.len() - from,
{
    if from < traits.len() {
        lemma_first_trait_from(traits, tr, from + 1);
    }
}

/// Finds the position of the first trait equal to `tr`.
pub fn find_trait(traits: &Vec<SpannedItem<DeriveTrait>>, tr: DeriveTrait) -> (r: Option<usize>)
    ensures
        match r {
            Some(i) => first_trait_position(traits@, tr) == Some(i as int),
            None => first_trait_position(traits@, tr) is None,
        },
{
    let n = traits.len();
    let mut i: usize = 0;
    while i < n
        invariant
            n == traits@.len(),
            i <= n,
            first_trait_position(traits@, tr) == first_trait_from(traits@, tr, i as int),
        decreases n - i,
    {
        if traits[i].item == tr {
            return Some(i);
        }
        i = i + 1;
    }
    None
}

/// `From` and `TryFrom` were both asked for; the span is that of `TryFrom`.
pub struct FromAndTryFromError {
    pub span: proc_macro2::Span,
}

/// Where deriving both `From` and `TryFrom` is reported, if it is.
pub open spec fn spec_from_and_try_from(traits: Seq<SpannedItem<DeriveTrait>>) -> Option<proc_macro2::Span> {
    match (first_trait_position(traits, DeriveTrait::From), first_trait_position(traits, DeriveTrait::TryFrom)) {
        (Some(_), Some(j)) => Some(traits[j].span),
        _ => None,
    }
}

/// Rejects deriving both `From` and `TryFrom`: with `From` there is already
/// a blanket `TryFrom` in std. The error points at the first `TryFrom`.
pub fn validate_traits_from_xor_try_from(
    spanned_derive_traits: &Vec<SpannedItem<DeriveTrait>>,
) -> (r: Result<(), FromAndTryFromError>)
    ensures
        match spec_from_and_try_from(spanned_derive_traits@) {
            Some(span) => r == Err::<(), FromAndTryFromError>(FromAndTryFromError { span }),
            None => r is Ok,
        },
{
    let maybe_from = find_trait(spanned_derive_traits, DeriveTrait::From);
    let maybe_try_from = find_trait(spanned_derive_traits, DeriveTrait::TryFrom);
    match (maybe_from, maybe_try_from) {
        (Some(_), Some(try_from)) => {
            proof {
                lemma_first_trait_from(spanned_derive_traits@, DeriveTrait::TryFrom, 0);
            }
            Err(FromAndTryFromError { span: spanned_derive_traits[try_from].span })
        },
        _ => Ok(()),
    }
}

} // verus!
