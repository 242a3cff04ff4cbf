use vstd::prelude::*;

use crate::models::{CustomFunction, ErrorTypeName, RawValidation};

verus! {

/// The validation attributes besides the validators themselves:
/// `error = ..` and `with = ..`.
#[derive(Debug, Clone, Copy, PartialEq, Eq, Hash, Structural)]
pub enum ExtraValidateAttrKind {
    Error,
    With,
}

/// One item of `validate(...)`: a standard validator, or one of the two
/// attributes of a custom validation.
pub enum ValidateAttr<Validator> {
    Standard(Validator),
    /// `error = ErrorType`, with the span of the error type.
    Error(ErrorTypeName, proc_macro2::Span),
    /// `with = function`, with the span of the function.
    With(CustomFunction, proc_macro2::Span),
}

/// Why the content of `validate(...)` is rejected.
pub enum RawValidationError {
    /// `error = ` given twice; the span is that of the second one.
    DuplicateError { span: proc_macro2::Span },
    /// `with = ` given twice; the span is that of the second one.
    DuplicateWith { span: proc_macro2::Span },
    /// `with = ` without `error = `.
    WithWithoutError { span: proc_macro2::Span },
    /// `error = ` without `with = `; the error type is named in the message.
    ErrorWithoutWith { error: ErrorTypeName, span: proc_macro2::Span },
    /// Nothing to validate with.
    NoValidator { span: proc_macro2::Span },
    /// `with`/`error` mixed with standard validators.
    MixedWithStandard { span: proc_macro2::Span },
}

/// What is collected while reading the items of `validate(...)`.
pub struct ValidateScan<Validator> {
    pub validators: Seq<Validator>,
    pub with: Option<CustomFunction>,
    pub error: Option<ErrorTypeName>,
}

/// Reads the first `n` items; stops at an attribute given twice.
pub open spec fn spec_scan_validate_attrs<V>(attrs: Seq<ValidateAttr<V>>, n: nat) -> Result<ValidateScan<V>, RawValidationError>
    decreases n,
{
    if n == 0 {
        Ok(ValidateScan { validators: Seq::empty(), with: None, error: None })
    } else {
        match spec_scan_validate_attrs(attrs, (n - 1) as nat) {
            Err(e) => Err(e),
            Ok(scan) => match attrs[n - 1] {
                ValidateAttr::Standard(v) => Ok(ValidateScan { validators: scan.validators.push(v), ..scan }),
                ValidateAttr::Error(error, span) => if scan.error is Some {
                    Err(RawValidationError::DuplicateError { span })
                } else {
                    Ok(ValidateScan { error: Some(error), ..scan })
                },
                ValidateAttr::With(with, span) => if scan.with is Some {
                    Err(RawValidationError::DuplicateWith { span })
                } else {
                    Ok(ValidateScan { with: Some(with), ..scan })
                },
            },
        }
    }
}

/// What `validate(...)` means: standard validators, or a custom function with
/// its error type; `with` and `error` go together and never with standard
/// validators; at least one validator is needed.
pub open spec fn spec_raw_validation<V>(
    attrs: Seq<ValidateAttr<V>>,
    input_span: proc_macro2::Span,
    r: Result<RawValidation<V>, RawValidationError>,
) -> bool {
    match spec_scan_validate_attrs(attrs, attrs.len()) {
        Err(e) => r == Err::<RawValidation<V>, RawValidationError>(e),
        Ok(scan) => if scan.validators.len() == 0 {
            match (scan.with, scan.error) {
                (Some(with), Some(error)) => r matches Ok(RawValidation::Custom { with: w, error: e }) && w == with
                    && e == error,
                (Some(_), None) => r == Err::<RawValidation<V>, RawValidationError>(
                    RawValidationError::WithWithoutError { span: input_span },
                ),
                (None, Some(error)) => r == Err::<RawValidation<V>, RawValidationError>(
                    RawValidationError::ErrorWithoutWith { error, span: input_span },
                ),
                (None, None) => r == Err::<RawValidation<V>, RawValidationError>(
                    RawValidationError::NoValidator { span: input_span },
                ),
            }
        } else if scan.with is None && scan.error is None {
            r matches Ok(RawValidation::Standard { validators }) && validators@ == scan.validators
        } else {
            r == Err::<RawValidation<V>, RawValidationError>(RawValidationError::MixedWithStandard { span: input_span })
        },
    }
}

/// Once reading stops at an error, reading more items gives the same error.
proof fn lemma_scan_err<V>(attrs: Seq<ValidateAttr<V>>, k: nat, m: nat)
    requires
        k <= m,
        spec_scan_validate_attrs(attrs, k) is Err,
    ensures
        spec_scan_validate_attrs(attrs, m) == spec_scan_validate_attrs(attrs, k),
    decreases m - k,
{
    if k < m {
        lemma_scan_err(attrs, k, (m - 1) as nat);
    }
}

/// Builds the validation from the items of `validate(...)`, in order.
#[verifier::loop_isolation(false)]
pub fn raw_validation_from_attrs<V>(attrs: Vec<ValidateAttr<V>>, input_span: proc_macro2::Span) -> (r: Result<
    RawValidation<V>,
    RawValidationError,
>)
    ensures
        spec_raw_validation(attrs@, input_span, r),
{
    let ghost input = attrs@;
    let mut attrs = attrs;
    let mut validators: Vec<V> = Vec::new();
    let mut maybe_with: Option<CustomFunction> = None;
    let mut maybe_error: Option<ErrorTypeName> = None;
    let ghost mut done: nat = 0;
    while attrs.len() > 0
        invariant
            input.len() == done + attrs@.len(),
            attrs@ == input.subrange(done as int, input.len() as int),
            spec_scan_validate_attrs(input, done) == Ok::<ValidateScan<V>, RawValidationError>(
                ValidateScan { validators: validators@, with: maybe_with, error: maybe_error },
            ),
        decreases attrs@.len(),
    {
        let attr = attrs.remove(0);
        proof {
            done = done + 1;
            assert(input[done - 1] == attr);
        }
        match attr {
            ValidateAttr::Standard(validator) => {
                validators.push(validator);
            },
            ValidateAttr::Error(error, span) => {
                if maybe_error.is_some() {
                    proof {
                        lemma_scan_err(input, done, input.len());
                    }
                    return Err(RawValidationError::DuplicateError { span });
                }
                maybe_error = Some(error);
            },
            ValidateAttr::With(with, span) => {
                if maybe_with.is_some() {
                    proof {
                        lemma_scan_err(input, done, input.len());
                    }
                    return Err(RawValidationError::DuplicateWith { span });
                }
                maybe_with = Some(with);
            },
        }
        assert(attrs@ =~= input.subrange(done as int, input.len() as int));
    }
    if validators.len() == 0 {
        match (maybe_with, maybe_error) {
            (Some(with), Some(error)) => Ok(RawValidation::Custom { with, error }),
            (Some(_), None) => Err(RawValidationError::WithWithoutError { span: input_span }),
            (None, Some(error)) => Err(RawValidationError::ErrorWithoutWith { error, span: input_span }),
            (None, None) => Err(RawValidationError::NoValidator { span: input_span }),
        }
    } else if maybe_with.is_none() && maybe_error.is_none() {
        Ok(RawValidation::Standard { validators })
    } else {
        Err(RawValidationError::MixedWithStandard { span: input_span })
    }
}

} // verus!
