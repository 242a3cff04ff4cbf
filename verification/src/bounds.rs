use vstd::prelude::*;

use core::cmp::Ordering;
use vstd::std_specs::cmp::PartialOrdSpec;

use crate::base::SpannedItem;
use crate::models::NumericBoundValidator;

verus! {

/// The four kinds of numeric bounds.
#[derive(Debug, Clone, Copy, PartialEq, Eq, Structural)]
pub enum BoundKind {
    Greater,
    GreaterOrEqual,
    Less,
    LessOrEqual,
}

/// The value of a bound of the given kind carried by a validator, if any.
pub open spec fn spec_bound_of<V: NumericBoundValidator<T>, T>(v: V, kind: BoundKind) -> Option<T> {
    match kind {
        BoundKind::Greater => v.spec_greater(),
        BoundKind::GreaterOrEqual => v.spec_greater_or_equal(),
        BoundKind::Less => v.spec_less(),
        BoundKind::LessOrEqual => v.spec_less_or_equal(),
    }
}

fn bound_of<V: NumericBoundValidator<T>, T>(v: &V, kind: BoundKind) -> (r: Option<&T>)
    ensures
        r matches Some(x) ==> spec_bound_of(*v, kind) == Some(*x),
        r is None ==> spec_bound_of(*v, kind) is None,
{
    match kind {
        BoundKind::Greater => v.greater(),
        BoundKind::GreaterOrEqual => v.greater_or_equal(),
        BoundKind::Less => v.less(),
        BoundKind::LessOrEqual => v.less_or_equal(),
    }
}

/// Position of the first validator, at `from` or later, carrying a bound of
/// the given kind whose value is known.
pub open spec fn first_bound_from<V: NumericBoundValidator<T>, T>(
    vs: Seq<SpannedItem<V>>,
    kind: BoundKind,
    from: int,
) -> Option<int>
    decreases vs.len() - from,
{
    if from < 0 || from >= vs.len() {
        None
    } else if spec_bound_of::<V, T>(vs[from].item, kind) is Some {
        Some(from)
    } else {
        first_bound_from::<V, T>(vs, kind, from + 1)
    }
}

/// Position of the first validator carrying a known bound of the given kind.
pub open spec fn first_bound<V: NumericBoundValidator<T>, T>(
    vs: Seq<SpannedItem<V>>,
    kind: BoundKind,
) -> Option<int> {
    first_bound_from::<V, T>(vs, kind, 0)
}

/// The value and the span of the first known bound of the given kind.
pub open spec fn bound_entry<V: NumericBoundValidator<T>, T>(
    vs: Seq<SpannedItem<V>>,
    kind: BoundKind,
) -> Option<(T, proc_macro2::Span)> {
    match first_bound::<V, T>(vs, kind) {
        Some(i) => Some((spec_bound_of::<V, T>(vs[i].item, kind)->0, vs[i].span)),
        None => None,
    }
}

/// `a >= b` as the partial order of `T` defines it.
pub open spec fn spec_ge<T: PartialOrdSpec>(a: T, b: T) -> bool {
    a.partial_cmp_spec(&b) matches Some(Ordering::Greater | Ordering::Equal)
}

/// `a > b` as the partial order of `T` defines it.
pub open spec fn spec_gt<T: PartialOrdSpec>(a: T, b: T) -> bool {
    a.partial_cmp_spec(&b) == Some(Ordering::Greater)
}

/// Why a set of numeric bounds is rejected. Each error points at the span of
/// the offending validator.
pub enum BoundsError {
    /// Both `greater` and `greater_or_equal` are given.
    LowerBoundTwice { span: proc_macro2::Span },
    /// Both `less` and `less_or_equal` are given.
    UpperBoundTwice { span: proc_macro2::Span },
    /// `greater` is equal to or above `less`.
    GreaterNotBelowLess { span: proc_macro2::Span },
    /// The lower bound is above the upper bound.
    LowerAboveUpper { span: proc_macro2::Span },
}

impl BoundsError {
    pub open spec fn spec_span(&self) -> proc_macro2::Span {
        match self {
            BoundsError::LowerBoundTwice { span } => *span,
            BoundsError::UpperBoundTwice { span } => *span,
            BoundsError::GreaterNotBelowLess { span } => *span,
            BoundsError::LowerAboveUpper { span } => *span,
        }
    }

    pub fn span(&self) -> (r: proc_macro2::Span)
        ensures
            r == self.spec_span(),
    {
        match self {
            BoundsError::LowerBoundTwice { span } => *span,
            BoundsError::UpperBoundTwice { span } => *span,
            BoundsError::GreaterNotBelowLess { span } => *span,
            BoundsError::LowerAboveUpper { span } => *span,
        }
    }
}

/// The lower bound: `greater` if given, else `greater_or_equal`.
pub open spec fn lower_bound_entry<V: NumericBoundValidator<T>, T>(vs: Seq<SpannedItem<V>>) -> Option<(T, proc_macro2::Span)> {
    match bound_entry::<V, T>(vs, BoundKind::Greater) {
        Some(e) => Some(e),
        None => bound_entry::<V, T>(vs, BoundKind::GreaterOrEqual),
    }
}

/// The upper bound: `less` if given, else `less_or_equal`.
pub open spec fn upper_bound_entry<V: NumericBoundValidator<T>, T>(vs: Seq<SpannedItem<V>>) -> Option<(T, proc_macro2::Span)> {
    match bound_entry::<V, T>(vs, BoundKind::Less) {
        Some(e) => Some(e),
        None => bound_entry::<V, T>(vs, BoundKind::LessOrEqual),
    }
}

/// The span of a bound entry.
pub open spec fn entry_span<T>(e: Option<(T, proc_macro2::Span)>) -> proc_macro2::Span {
    match e {
        Some((_, span)) => span,
        None => arbitrary(),
    }
}

/// What validation of numeric bounds answers, check by check in this order:
/// a lower bound given twice, an upper bound given twice, `greater` not below
/// `less`, the lower bound above the upper bound.
pub open spec fn spec_validate_numeric_bounds<V: NumericBoundValidator<T>, T: PartialOrdSpec>(
    vs: Seq<SpannedItem<V>>,
) -> Result<(), BoundsError> {
    let g = bound_entry::<V, T>(vs, BoundKind::Greater);
    let ge = bound_entry::<V, T>(vs, BoundKind::GreaterOrEqual);
    let l = bound_entry::<V, T>(vs, BoundKind::Less);
    let le = bound_entry::<V, T>(vs, BoundKind::LessOrEqual);
    if let (Some(_), Some((_, ge_span))) = (g, ge) {
        Err(BoundsError::LowerBoundTwice { span: ge_span })
    } else if let (Some(_), Some((_, le_span))) = (l, le) {
        Err(BoundsError::UpperBoundTwice { span: le_span })
    } else if (g, l) matches (Some((gv, _)), Some((lv, _))) && spec_ge(gv, lv) {
        Err(BoundsError::GreaterNotBelowLess { span: entry_span(l) })
    } else if (lower_bound_entry::<V, T>(vs), upper_bound_entry::<V, T>(vs)) matches (
        Some((lower, _)),
        Some((upper, _)),
    ) && spec_gt(lower, upper) {
        Err(BoundsError::LowerAboveUpper { span: entry_span(upper_bound_entry::<V, T>(vs)) })
    } else {
        Ok(())
    }
}

/// What validation of numeric bounds answers whatever order the values
/// obey: a bound given twice on one side is reported exactly as
/// [`spec_validate_numeric_bounds`] says; otherwise the answer is `Ok`, or a
/// rejection for the order of two values that are both given, pointing at
/// the upper one.
pub open spec fn spec_numeric_bounds_outcome<V: NumericBoundValidator<T>, T>(
    vs: Seq<SpannedItem<V>>,
    r: Result<(), BoundsError>,
) -> bool {
    let g = bound_entry::<V, T>(vs, BoundKind::Greater);
    let ge = bound_entry::<V, T>(vs, BoundKind::GreaterOrEqual);
    let l = bound_entry::<V, T>(vs, BoundKind::Less);
    let le = bound_entry::<V, T>(vs, BoundKind::LessOrEqual);
    if g is Some && ge is Some {
        r == Err::<(), BoundsError>(BoundsError::LowerBoundTwice { span: entry_span(ge) })
    } else if l is Some && le is Some {
        r == Err::<(), BoundsError>(BoundsError::UpperBoundTwice { span: entry_span(le) })
    } else {
        ||| r is Ok
        ||| g is Some && l is Some && r == Err::<(), BoundsError>(BoundsError::GreaterNotBelowLess { span: entry_span(l) })
        ||| lower_bound_entry::<V, T>(vs) is Some && upper_bound_entry::<V, T>(vs) is Some
            && r == Err::<(), BoundsError>(BoundsError::LowerAboveUpper { span: entry_span(upper_bound_entry::<V, T>(vs)) })
    }
}

/// Finds the first validator carrying a known bound of the given kind.
fn find_bound<'a, V: NumericBoundValidator<T>, T>(
    validators: &'a Vec<SpannedItem<V>>,
    kind: BoundKind,
) -> (r: Option<(&'a T, proc_macro2::Span)>)
    ensures
        r matches Some((v, s)) ==> bound_entry::<V, T>(validators@, kind) == Some((*v, s)),
        r is None ==> bound_entry::<V, T>(validators@, kind) is None,
{
    let n = validators.len();
    let mut i: usize = 0;
    while i < n
        invariant
            n == validators@.len(),
            i <= n,
            first_bound::<V, T>(validators@, kind) == first_bound_from::<V, T>(validators@, kind, i as int),
        decreases n - i,
    {
        let v = &validators[i];
        match bound_of(&v.item, kind) {
            Some(value) => {
                return Some((value, v.span));
            },
            None => {},
        }
        i = i + 1;
    }
    None
}

/// Checks that numeric bounds are given at most once per side and that they
/// leave room for at least one value: `greater` and `greater_or_equal` are
/// exclusive, so are `less` and `less_or_equal`; `greater` must be below
/// `less`; the lower bound must not be above the upper bound. Bounds given
/// as expressions are not compared.
pub fn validate_numeric_bounds<V, T>(validators: &Vec<SpannedItem<V>>) -> (r: Result<(), BoundsError>)
    where
        V: NumericBoundValidator<T>,
        T: PartialOrd + PartialOrdSpec,
    ensures
        spec_numeric_bounds_outcome::<V, T>(validators@, r),
        T::obeys_partial_cmp_spec() ==> r == spec_validate_numeric_bounds::<V, T>(validators@),
{
    let maybe_greater = find_bound(validators, BoundKind::Greater);
    let maybe_greater_or_equal = find_bound(validators, BoundKind::GreaterOrEqual);
    let maybe_less = find_bound(validators, BoundKind::Less);
    let maybe_less_or_equal = find_bound(validators, BoundKind::LessOrEqual);

    // greater VS greater_or_equal
    if let (Some(_), Some((_, ge_span))) = (maybe_greater, maybe_greater_or_equal) {
        return Err(BoundsError::LowerBoundTwice { span: ge_span });
    }
    // less VS less_or_equal
    if let (Some(_), Some((_, le_span))) = (maybe_less, maybe_less_or_equal) {
        return Err(BoundsError::UpperBoundTwice { span: le_span });
    }
    // greater VS less
    if let (Some((lower, _)), Some((upper, upper_span))) = (maybe_greater, maybe_less) {
        if lower.ge(upper) {
            return Err(BoundsError::GreaterNotBelowLess { span: upper_span });
        }
    }

    let maybe_lower_bound = match maybe_greater {
        Some(g) => Some(g),
        None => maybe_greater_or_equal,
    };
    let maybe_upper_bound = match maybe_less {
        Some(l) => Some(l),
        None => maybe_less_or_equal,
    };

    // lower VS upper
    if let (Some((lower, _)), Some((upper, upper_span))) = (maybe_lower_bound, maybe_upper_bound) {
        if lower.gt(upper) {
            return Err(BoundsError::LowerAboveUpper { span: upper_span });
        }
    }
    Ok(())
}

/// Bounds that pass validation are consistent: at most one lower bound and
/// at most one upper bound are given, `greater` lies below `less`, and the
/// lower bound is not above the upper bound.
pub proof fn lemma_accepted_bounds_are_consistent<V: NumericBoundValidator<T>, T: PartialOrdSpec>(
    vs: Seq<SpannedItem<V>>,
)
    requires
        spec_validate_numeric_bounds::<V, T>(vs) is Ok,
    ensures
        !(bound_entry::<V, T>(vs, BoundKind::Greater) is Some && bound_entry::<V, T>(vs, BoundKind::GreaterOrEqual) is Some),
        !(bound_entry::<V, T>(vs, BoundKind::Less) is Some && bound_entry::<V, T>(vs, BoundKind::LessOrEqual) is Some),
        (bound_entry::<V, T>(vs, BoundKind::Greater), bound_entry::<V, T>(vs, BoundKind::Less)) matches (
            Some((g, _)),
            Some((l, _)),
        ) ==> !spec_ge(g, l),
        (lower_bound_entry::<V, T>(vs), upper_bound_entry::<V, T>(vs)) matches (Some((lo, _)), Some((up, _)))
            ==> !spec_gt(lo, up),
{
}

} // verus!
