use vstd::prelude::*;

use crate::base::SpannedItem;

verus! {

/// `proc_macro2::Ident`: a name written by the user (e.g. an error type).
#[verifier::external_type_specification]
#[verifier::external_body]
pub struct ExIdent(proc_macro2::Ident);

/// `syn::Expr`: an expression the user wrote (a bound given as a constant,
/// a default value). Carried through untouched.
#[verifier::external_type_specification]
#[verifier::external_body]
pub struct ExExpr(syn::Expr);

/// `syn::Path`: a path to a function or to a type.
#[verifier::external_type_specification]
#[verifier::external_body]
pub struct ExPath(syn::Path);

/// `syn::Error`: a diagnostic produced while reading the user's tokens.
/// Carried through untouched.
#[verifier::external_type_specification]
#[verifier::external_body]
pub struct ExSynError(syn::Error);

/// `syn::ExprClosure`: a closure the user wrote for `with =` or `predicate =`.
#[verifier::external_type_specification]
#[verifier::external_body]
pub struct ExExprClosure(syn::ExprClosure);

/// `proc_macro2::TokenStream`: the tokens of a `cfg` predicate, carried
/// through unread.
#[verifier::external_type_specification]
#[verifier::external_body]
pub struct ExTokenStream(proc_macro2::TokenStream);

/// `cfg_attr(predicate, derive(..))` in `#[nutype(..)]`: traits derived only
/// where the predicate holds.
pub struct CfgAttrEntry {
    pub predicate: proc_macro2::TokenStream,
    pub derive_traits: Vec<SpannedItem<DeriveTrait>>,
}

/// A function used by custom sanitizers and validators given with `with =`:
/// either a path to an existing function or a closure.
pub enum CustomFunction {
    Path(syn::Path),
    Closure(syn::ExprClosure),
}

/// Same as [`CustomFunction`], but a closure has its argument typed with the
/// inner type, so it can be used for code generation.
pub enum TypedCustomFunction {
    Path(syn::Path),
    Closure(syn::ExprClosure),
}

/// A bound given either as a value known while the macro expands (so it can
/// be checked against other bounds) or as an expression (a constant, a call).
pub enum ValueOrExpr<T> {
    Value(T),
    Expr(syn::Expr),
}

impl<T> ValueOrExpr<T> {
    pub open spec fn spec_value(&self) -> Option<T> {
        match self {
            ValueOrExpr::Value(v) => Some(*v),
            ValueOrExpr::Expr(_) => None,
        }
    }
}

/// The name of the validation error type given by the user with `error = `.
pub struct ErrorTypeName(pub proc_macro2::Ident);

/// How the inner value is validated.
pub enum Validation<Validator> {
    /// Validators provided by the library; the error type is generated and
    /// named after the newtype.
    Standard { validators: Vec<Validator>, error_type_name: String },
    /// A custom function returning `Result<(), Error>` with a user's error type.
    Custom { with: CustomFunction, error: ErrorTypeName },
}

/// Validated model of sanitizers and validators: what needs to be generated.
pub enum Guard<Sanitizer, Validator> {
    WithoutValidation { sanitizers: Vec<Sanitizer> },
    WithValidation { sanitizers: Vec<Sanitizer>, validation: Validation<Validator> },
}

impl<Sanitizer, Validator> Guard<Sanitizer, Validator> {
    pub open spec fn spec_has_validation(&self) -> bool {
        self is WithValidation
    }

    /// Whether the newtype has any validation (and therefore a fallible constructor).
    pub fn has_validation(&self) -> (r: bool)
        ensures
            r == self.spec_has_validation(),
    {
        match self {
            Guard::WithoutValidation { .. } => false,
            Guard::WithValidation { .. } => true,
        }
    }

    pub open spec fn spec_validators(&self) -> Option<Seq<Validator>> {
        match self {
            Guard::WithValidation { validation: Validation::Standard { validators, .. }, .. } => Some(
                validators@,
            ),
            _ => None,
        }
    }

    /// The standard validators, if the validation is standard.
    pub fn validators(&self) -> (r: Option<&Vec<Validator>>)
        ensures
            r matches Some(v) ==> self.spec_validators() == Some(v@),
            r is None ==> self.spec_validators() is None,
    {
        match self {
            Guard::WithValidation { validation: Validation::Standard { validators, .. }, .. } => Some(
                validators,
            ),
            _ => None,
        }
    }

    pub open spec fn spec_sanitizers(&self) -> Seq<Sanitizer> {
        match self {
            Guard::WithoutValidation { sanitizers } => sanitizers@,
            Guard::WithValidation { sanitizers, .. } => sanitizers@,
        }
    }
}

/// Parsed validation, not yet validated.
pub enum RawValidation<Validator> {
    Custom { with: CustomFunction, error: ErrorTypeName },
    Standard { validators: Vec<Validator> },
}

/// Parsed sanitizers and validation, not yet validated.
pub struct RawGuard<Sanitizer, Validator> {
    pub sanitizers: Vec<Sanitizer>,
    pub validation: Option<RawValidation<Validator>>,
}

/// A trait a user asks to derive with `derive(..)`.
#[derive(Debug, Clone, Copy, PartialEq, Eq, Hash, Structural)]
pub enum DeriveTrait {
    // Standard library
    Debug,
    Clone,
    Copy,
    PartialEq,
    Eq,
    PartialOrd,
    Ord,
    FromStr,
    AsRef,
    From,
    TryFrom,
    Into,
    IntoIterator,
    Hash,
    Borrow,
    Display,
    Default,
    Deref,
    // External crates
    SerdeSerialize,
    SerdeDeserialize,
    SchemarsJsonSchema,
    ArbitraryArbitrary,
    ValuableValuable,
}

/// Optional features of the `nutype` crate that change what the macro accepts.
#[derive(Debug, Clone, Copy, PartialEq, Eq, Structural)]
pub struct Features {
    pub serde: bool,
    pub schemars08: bool,
    pub arbitrary: bool,
    pub valuable: bool,
    pub new_unchecked: bool,
    pub rust_decimal: bool,
}

/// Whether `::new_unchecked()` is generated.
#[derive(Debug, Clone, Copy, PartialEq, Eq, Structural)]
pub enum NewUnchecked {
    Off,
    On,
}

/// Typed traits of a particular kind of inner type.
pub trait TypeTrait {
    spec fn spec_is_from_str(&self) -> bool;

    /// Whether this is the `FromStr` trait.
    fn is_from_str(&self) -> (r: bool)
        ensures
            r == self.spec_is_from_str(),
    ;
}

/// Access to numeric bounds of a validator, so validation of bounds can be
/// shared by integer, float and decimal validators. Each accessor gives the
/// value of a bound of the given kind when the validator is of that kind and
/// the bound is a value (not an expression).
pub trait NumericBoundValidator<T> {
    spec fn spec_greater(&self) -> Option<T>;

    spec fn spec_greater_or_equal(&self) -> Option<T>;

    spec fn spec_less(&self) -> Option<T>;

    spec fn spec_less_or_equal(&self) -> Option<T>;

    fn greater(&self) -> (r: Option<&T>)
        ensures
            r matches Some(v) ==> self.spec_greater() == Some(*v),
            r is None ==> self.spec_greater() is None,
    ;

    fn greater_or_equal(&self) -> (r: Option<&T>)
        ensures
            r matches Some(v) ==> self.spec_greater_or_equal() == Some(*v),
            r is None ==> self.spec_greater_or_equal() is None,
    ;

    fn less(&self) -> (r: Option<&T>)
        ensures
            r matches Some(v) ==> self.spec_less() == Some(*v),
            r is None ==> self.spec_less() is None,
    ;

    fn less_or_equal(&self) -> (r: Option<&T>)
        ensures
            r matches Some(v) ==> self.spec_less_or_equal() == Some(*v),
            r is None ==> self.spec_less_or_equal() is None,
    ;
}

} // verus!
