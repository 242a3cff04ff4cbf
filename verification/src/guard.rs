use vstd::prelude::*;

use vstd::std_specs::cmp::PartialOrdSpec;

use crate::any::{AnySanitizer, AnyValidator};
use crate::base::{Kind, SpannedItem};
use crate::bounds::{spec_numeric_bounds_outcome, spec_validate_numeric_bounds, validate_numeric_bounds, BoundsError};
use crate::decimal::{DecimalSanitizer, DecimalValidator};
use crate::float::{FloatSanitizer, FloatValidator};
use crate::integer::{IntegerSanitizer, IntegerValidator};
use crate::models::{Guard, NumericBoundValidator, RawGuard, RawValidation, Validation};
use crate::naming::gen_error_type_name;
use crate::validate::{has_same_kind_pair, is_first_same_kind_pair, validate_duplicates, DuplicateError};

verus! {

/// Why sanitizers and validators are rejected.
pub enum GuardError<SanitizerKind, ValidatorKind> {
    /// A sanitizer is given twice.
    DuplicateSanitizer(DuplicateError<SanitizerKind>),
    /// A validator is given twice.
    DuplicateValidator(DuplicateError<ValidatorKind>),
    /// Numeric bounds conflict.
    Bounds(BoundsError),
}

/// The items without their spans.
pub open spec fn items_of<T>(s: Seq<SpannedItem<T>>) -> Seq<T> {
    s.map_values(|x: SpannedItem<T>| x.item)
}

/// Drops the spans, keeping the items in order.
pub fn strip_spans<T>(spanned: Vec<SpannedItem<T>>) -> (r: Vec<T>)
    ensures
        r@ == items_of(spanned@),
{
    let ghost input = spanned@;
    let mut spanned = spanned;
    let mut out: Vec<T> = Vec::new();
    while spanned.len() > 0
        invariant
            input.len() == out@.len() + spanned@.len(),
            out@ == items_of(input.subrange(0, out@.len() as int)),
            spanned@ == input.subrange(out@.len() as int, input.len() as int),
        decreases spanned@.len(),
    {
        let first = spanned.remove(0);
        out.push(first.item);
        assert(items_of(input.subrange(0, out@.len() as int)) =~= out@);
        assert(spanned@ =~= input.subrange(out@.len() as int, input.len() as int));
    }
    assert(input.subrange(0, out@.len() as int) =~= input);
    out
}

/// The kind reported for items given twice: that of the first pair found.
pub open spec fn duplicate_kind_ok<T: Kind>(items: Seq<SpannedItem<T>>, kind: T::Kind) -> bool {
    exists|i1: int, i2: int|
        #![trigger is_first_same_kind_pair(items, i1, i2)]
        is_first_same_kind_pair(items, i1, i2) && kind == items[i1].spec_kind()
}

/// What validation of a numeric guard answers; `None` stands for the error
/// of a duplicated item (whose span is not stated).
pub open spec fn spec_validate_numeric_guard<S: Kind, V: Kind + NumericBoundValidator<T>, T: PartialOrdSpec>(
    raw_guard: RawGuard<SpannedItem<S>, SpannedItem<V>>,
    newtype_name: Seq<char>,
    r: Result<Guard<S, V>, GuardError<S::Kind, V::Kind>>,
) -> bool {
    if has_same_kind_pair(raw_guard.sanitizers@) {
        r matches Err(GuardError::DuplicateSanitizer(e)) && duplicate_kind_ok(raw_guard.sanitizers@, e.kind)
    } else {
        match raw_guard.validation {
            None => r matches Ok(Guard::WithoutValidation { sanitizers }) && sanitizers@ == items_of(
                raw_guard.sanitizers@,
            ),
            Some(RawValidation::Custom { with, error }) => r matches Ok(
                Guard::WithValidation { sanitizers, validation: Validation::Custom { with: w, error: e } },
            ) && sanitizers@ == items_of(raw_guard.sanitizers@) && w == with && e == error,
            Some(RawValidation::Standard { validators }) => if has_same_kind_pair(validators@) {
                r matches Err(GuardError::DuplicateValidator(e)) && duplicate_kind_ok(validators@, e.kind)
            } else {
                match spec_validate_numeric_bounds::<V, T>(validators@) {
                    Err(b) => r matches Err(GuardError::Bounds(e)) && e == b,
                    Ok(_) => r matches Ok(
                        Guard::WithValidation {
                            sanitizers,
                            validation: Validation::Standard { validators: vs, error_type_name },
                        },
                    ) && sanitizers@ == items_of(raw_guard.sanitizers@) && vs@ == items_of(validators@)
                        && error_type_name@ == newtype_name + "Error"@,
                }
            },
        }
    }
}

/// What validation of a numeric guard answers whatever order the bound
/// values obey: the same as [`spec_validate_numeric_guard`], except that for
/// a standard validation without duplicates the bounds check is only known
/// to answer as [`spec_numeric_bounds_outcome`] allows.
pub open spec fn spec_numeric_guard_outcome<S: Kind, V: Kind + NumericBoundValidator<T>, T>(
    raw_guard: RawGuard<SpannedItem<S>, SpannedItem<V>>,
    newtype_name: Seq<char>,
    r: Result<Guard<S, V>, GuardError<S::Kind, V::Kind>>,
) -> bool {
    if has_same_kind_pair(raw_guard.sanitizers@) {
        r matches Err(GuardError::DuplicateSanitizer(e)) && duplicate_kind_ok(raw_guard.sanitizers@, e.kind)
    } else {
        match raw_guard.validation {
            None => r matches Ok(Guard::WithoutValidation { sanitizers }) && sanitizers@ == items_of(
                raw_guard.sanitizers@,
            ),
            Some(RawValidation::Custom { with, error }) => r matches Ok(
                Guard::WithValidation { sanitizers, validation: Validation::Custom { with: w, error: e } },
            ) && sanitizers@ == items_of(raw_guard.sanitizers@) && w == with && e == error,
            Some(RawValidation::Standard { validators }) => if has_same_kind_pair(validators@) {
                r matches Err(GuardError::DuplicateValidator(e)) && duplicate_kind_ok(validators@, e.kind)
            } else {
                match r {
                    Err(GuardError::Bounds(e)) => spec_numeric_bounds_outcome::<V, T>(validators@, Err(e)),
                    Ok(
                        Guard::WithValidation {
                            sanitizers,
                            validation: Validation::Standard { validators: vs, error_type_name },
                        },
                    ) => spec_numeric_bounds_outcome::<V, T>(validators@, Ok(())) && sanitizers@ == items_of(
                        raw_guard.sanitizers@,
                    ) && vs@ == items_of(validators@) && error_type_name@ == newtype_name + "Error"@,
                    _ => false,
                }
            },
        }
    }
}

/// Validates sanitizers and validators of an integer, float or decimal
/// newtype: no sanitizer or validator given twice, numeric bounds
/// consistent; a standard validation gets an error type named after the
/// newtype (`{Name}Error`).
pub fn validate_numeric_guard<S, V, T>(
    raw_guard: RawGuard<SpannedItem<S>, SpannedItem<V>>,
    newtype_name: &str,
) -> (r: Result<Guard<S, V>, GuardError<S::Kind, V::Kind>>)
    where
        S: Kind,
        V: Kind + NumericBoundValidator<T>,
        T: PartialOrd + PartialOrdSpec,
    ensures
        spec_numeric_guard_outcome::<S, V, T>(raw_guard, newtype_name@, r),
        T::obeys_partial_cmp_spec() ==> spec_validate_numeric_guard::<S, V, T>(raw_guard, newtype_name@, r),
{
    let RawGuard { sanitizers: raw_sanitizers, validation: maybe_raw_validation } = raw_guard;
    if let Err(e) = validate_duplicates(&raw_sanitizers) {
        return Err(GuardError::DuplicateSanitizer(e));
    }
    let sanitizers = strip_spans(raw_sanitizers);
    match maybe_raw_validation {
        None => Ok(Guard::WithoutValidation { sanitizers }),
        Some(RawValidation::Custom { with, error }) => Ok(
            Guard::WithValidation { sanitizers, validation: Validation::Custom { with, error } },
        ),
        Some(RawValidation::Standard { validators }) => {
            if let Err(e) = validate_duplicates(&validators) {
                return Err(GuardError::DuplicateValidator(e));
            }
            if let Err(e) = validate_numeric_bounds::<V, T>(&validators) {
                return Err(GuardError::Bounds(e));
            }
            let error_type_name = gen_error_type_name(newtype_name);
            let validators = strip_spans(validators);
            Ok(
                Guard::WithValidation {
                    sanitizers,
                    validation: Validation::Standard { validators, error_type_name },
                },
            )
        },
    }
}

/// Validates the guard of an integer newtype.
pub fn validate_integer_guard<T: PartialOrd + PartialOrdSpec>(
    raw_guard: RawGuard<SpannedItem<IntegerSanitizer<T>>, SpannedItem<IntegerValidator<T>>>,
    newtype_name: &str,
) -> (r: Result<Guard<IntegerSanitizer<T>, IntegerValidator<T>>, GuardError<crate::integer::IntegerSanitizerKind, crate::integer::IntegerValidatorKind>>)
    ensures
        spec_numeric_guard_outcome::<IntegerSanitizer<T>, IntegerValidator<T>, T>(raw_guard, newtype_name@, r),
        T::obeys_partial_cmp_spec() ==> spec_validate_numeric_guard::<IntegerSanitizer<T>, IntegerValidator<T>, T>(
            raw_guard,
            newtype_name@,
            r,
        ),
{
    validate_numeric_guard::<IntegerSanitizer<T>, IntegerValidator<T>, T>(raw_guard, newtype_name)
}

/// Validates the guard of a float newtype.
pub fn validate_float_guard<T: PartialOrd + PartialOrdSpec>(
    raw_guard: RawGuard<SpannedItem<FloatSanitizer<T>>, SpannedItem<FloatValidator<T>>>,
    newtype_name: &str,
) -> (r: Result<Guard<FloatSanitizer<T>, FloatValidator<T>>, GuardError<crate::float::FloatSanitizerKind, crate::float::FloatValidatorKind>>)
    ensures
        spec_numeric_guard_outcome::<FloatSanitizer<T>, FloatValidator<T>, T>(raw_guard, newtype_name@, r),
        T::obeys_partial_cmp_spec() ==> spec_validate_numeric_guard::<FloatSanitizer<T>, FloatValidator<T>, T>(
            raw_guard,
            newtype_name@,
            r,
        ),
{
    validate_numeric_guard::<FloatSanitizer<T>, FloatValidator<T>, T>(raw_guard, newtype_name)
}

/// Validates the guard of a decimal newtype.
pub fn validate_decimal_guard<T: PartialOrd + PartialOrdSpec>(
    raw_guard: RawGuard<SpannedItem<DecimalSanitizer<T>>, SpannedItem<DecimalValidator<T>>>,
    newtype_name: &str,
) -> (r: Result<Guard<DecimalSanitizer<T>, DecimalValidator<T>>, GuardError<crate::decimal::DecimalSanitizerKind, crate::decimal::DecimalValidatorKind>>)
    ensures
        spec_numeric_guard_outcome::<DecimalSanitizer<T>, DecimalValidator<T>, T>(raw_guard, newtype_name@, r),
        T::obeys_partial_cmp_spec() ==> spec_validate_numeric_guard::<DecimalSanitizer<T>, DecimalValidator<T>, T>(
            raw_guard,
            newtype_name@,
            r,
        ),
{
    validate_numeric_guard::<DecimalSanitizer<T>, DecimalValidator<T>, T>(raw_guard, newtype_name)
}

/// What validation of the guard of an arbitrary-type newtype answers (like
/// [`spec_validate_numeric_guard`], with no bounds to check).
pub open spec fn spec_validate_any_guard(
    raw_guard: RawGuard<SpannedItem<AnySanitizer>, SpannedItem<AnyValidator>>,
    newtype_name: Seq<char>,
    r: Result<Guard<AnySanitizer, AnyValidator>, GuardError<crate::any::AnySanitizerKind, crate::any::AnyValidatorKind>>,
) -> bool {
    if has_same_kind_pair(raw_guard.sanitizers@) {
        r matches Err(GuardError::DuplicateSanitizer(e)) && duplicate_kind_ok(raw_guard.sanitizers@, e.kind)
    } else {
        match raw_guard.validation {
            None => r matches Ok(Guard::WithoutValidation { sanitizers }) && sanitizers@ == items_of(
                raw_guard.sanitizers@,
            ),
            Some(RawValidation::Custom { with, error }) => r matches Ok(
                Guard::WithValidation { sanitizers, validation: Validation::Custom { with: w, error: e } },
            ) && sanitizers@ == items_of(raw_guard.sanitizers@) && w == with && e == error,
            Some(RawValidation::Standard { validators }) => if has_same_kind_pair(validators@) {
                r matches Err(GuardError::DuplicateValidator(e)) && duplicate_kind_ok(validators@, e.kind)
            } else {
                r matches Ok(
                    Guard::WithValidation {
                        sanitizers,
                        validation: Validation::Standard { validators: vs, error_type_name },
                    },
                ) && sanitizers@ == items_of(raw_guard.sanitizers@) && vs@ == items_of(validators@)
                    && error_type_name@ == newtype_name + "Error"@
            },
        }
    }
}

/// Validates the guard of a newtype over an arbitrary type: no sanitizer or
/// validator given twice.
pub fn validate_any_guard(
    raw_guard: RawGuard<SpannedItem<AnySanitizer>, SpannedItem<AnyValidator>>,
    newtype_name: &str,
) -> (r: Result<Guard<AnySanitizer, AnyValidator>, GuardError<crate::any::AnySanitizerKind, crate::any::AnyValidatorKind>>)
    ensures
        spec_validate_any_guard(raw_guard, newtype_name@, r),
{
    let RawGuard { sanitizers: raw_sanitizers, validation: maybe_raw_validation } = raw_guard;
    if let Err(e) = validate_duplicates(&raw_sanitizers) {
        return Err(GuardError::DuplicateSanitizer(e));
    }
    let sanitizers = strip_spans(raw_sanitizers);
    match maybe_raw_validation {
        None => Ok(Guard::WithoutValidation { sanitizers }),
        Some(RawValidation::Custom { with, error }) => Ok(
            Guard::WithValidation { sanitizers, validation: Validation::Custom { with, error } },
        ),
        Some(RawValidation::Standard { validators }) => {
            if let Err(e) = validate_duplicates(&validators) {
                return Err(GuardError::DuplicateValidator(e));
            }
            let error_type_name = gen_error_type_name(newtype_name);
            let validators = strip_spans(validators);
            Ok(
                Guard::WithValidation {
                    sanitizers,
                    validation: Validation::Standard { validators, error_type_name },
                },
            )
        },
    }
}

} // verus!
