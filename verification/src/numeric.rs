use vstd::prelude::*;

use crate::arbitrary::BoundKindOf;
use crate::base::Kind;
use crate::bounds::BoundKind;
use crate::decimal::DecimalValidator;
use crate::float::FloatValidator;
use crate::integer::IntegerValidator;
use crate::validate::has_same_kind_pair;

verus! {

/// What the generated validation does with a numeric validator, whatever
/// the inner type.
#[derive(Debug, Clone, Copy, PartialEq, Eq, Structural)]
pub enum NumericValidatorView {
    Greater,
    GreaterOrEqual,
    Less,
    LessOrEqual,
    Predicate,
    Finite,
}

/// Numeric validators seen through [`NumericValidatorView`].
pub trait NumericValidatorTokens: Kind + BoundKindOf + Sized {
    spec fn spec_view(&self) -> NumericValidatorView;

    fn view(&self) -> (r: NumericValidatorView)
        ensures
            r == self.spec_view(),
    ;

    /// Two validators of different kinds are seen differently.
    proof fn lemma_view_follows_kind(a: Self, b: Self)
        ensures
            (a.spec_view() == b.spec_view()) == (a.spec_kind() == b.spec_kind()),
    ;

    /// The bound a validator sets is the one its view names.
    proof fn lemma_bound_kind_follows_view(a: Self)
        ensures
            a.spec_bound_kind() == spec_bound_kind_of_view(a.spec_view()),
    ;
}

/// The bound named by a view, if any.
pub open spec fn spec_bound_kind_of_view(v: NumericValidatorView) -> Option<BoundKind> {
    match v {
        NumericValidatorView::Greater => Some(BoundKind::Greater),
        NumericValidatorView::GreaterOrEqual => Some(BoundKind::GreaterOrEqual),
        NumericValidatorView::Less => Some(BoundKind::Less),
        NumericValidatorView::LessOrEqual => Some(BoundKind::LessOrEqual),
        _ => None,
    }
}

impl<T> NumericValidatorTokens for IntegerValidator<T> {
    open spec fn spec_view(&self) -> NumericValidatorView {
        match self {
            IntegerValidator::Greater(_) => NumericValidatorView::Greater,
            IntegerValidator::GreaterOrEqual(_) => NumericValidatorView::GreaterOrEqual,
            IntegerValidator::Less(_) => NumericValidatorView::Less,
            IntegerValidator::LessOrEqual(_) => NumericValidatorView::LessOrEqual,
            IntegerValidator::Predicate(_) => NumericValidatorView::Predicate,
        }
    }

    fn view(&self) -> (r: NumericValidatorView) {
        match self {
            IntegerValidator::Greater(_) => NumericValidatorView::Greater,
            IntegerValidator::GreaterOrEqual(_) => NumericValidatorView::GreaterOrEqual,
            IntegerValidator::Less(_) => NumericValidatorView::Less,
            IntegerValidator::LessOrEqual(_) => NumericValidatorView::LessOrEqual,
            IntegerValidator::Predicate(_) => NumericValidatorView::Predicate,
        }
    }

    proof fn lemma_view_follows_kind(a: Self, b: Self) {
    }

    proof fn lemma_bound_kind_follows_view(a: Self) {
    }
}

impl<T> NumericValidatorTokens for FloatValidator<T> {
    open spec fn spec_view(&self) -> NumericValidatorView {
        match self {
            FloatValidator::Greater(_) => NumericValidatorView::Greater,
            FloatValidator::GreaterOrEqual(_) => NumericValidatorView::GreaterOrEqual,
            FloatValidator::Less(_) => NumericValidatorView::Less,
            FloatValidator::LessOrEqual(_) => NumericValidatorView::LessOrEqual,
            FloatValidator::Predicate(_) => NumericValidatorView::Predicate,
            FloatValidator::Finite => NumericValidatorView::Finite,
        }
    }

    fn view(&self) -> (r: NumericValidatorView) {
        match self {
            FloatValidator::Greater(_) => NumericValidatorView::Greater,
            FloatValidator::GreaterOrEqual(_) => NumericValidatorView::GreaterOrEqual,
            FloatValidator::Less(_) => NumericValidatorView::Less,
            FloatValidator::LessOrEqual(_) => NumericValidatorView::LessOrEqual,
            FloatValidator::Predicate(_) => NumericValidatorView::Predicate,
            FloatValidator::Finite => NumericValidatorView::Finite,
        }
    }

    proof fn lemma_view_follows_kind(a: Self, b: Self) {
    }

    proof fn lemma_bound_kind_follows_view(a: Self) {
    }
}

impl<T> NumericValidatorTokens for DecimalValidator<T> {
    open spec fn spec_view(&self) -> NumericValidatorView {
        match self {
            DecimalValidator::Greater(_) => NumericValidatorView::Greater,
            DecimalValidator::GreaterOrEqual(_) => NumericValidatorView::GreaterOrEqual,
            DecimalValidator::Less(_) => NumericValidatorView::Less,
            DecimalValidator::LessOrEqual(_) => NumericValidatorView::LessOrEqual,
            DecimalValidator::Predicate(_) => NumericValidatorView::Predicate,
        }
    }

    fn view(&self) -> (r: NumericValidatorView) {
        match self {
            DecimalValidator::Greater(_) => NumericValidatorView::Greater,
            DecimalValidator::GreaterOrEqual(_) => NumericValidatorView::GreaterOrEqual,
            DecimalValidator::Less(_) => NumericValidatorView::Less,
            DecimalValidator::LessOrEqual(_) => NumericValidatorView::LessOrEqual,
            DecimalValidator::Predicate(_) => NumericValidatorView::Predicate,
        }
    }

    proof fn lemma_view_follows_kind(a: Self, b: Self) {
    }

    proof fn lemma_bound_kind_follows_view(a: Self) {
    }
}

/// A comparison `value OP bound`.
#[derive(Debug, Clone, Copy, PartialEq, Eq, Structural)]
pub enum Comparison {
    /// `value < bound`
    Lt,
    /// `value <= bound`
    Le,
    /// `value > bound`
    Gt,
    /// `value >= bound`
    Ge,
}

pub open spec fn spec_comparison_holds(c: Comparison, value: int, bound: int) -> bool {
    match c {
        Comparison::Lt => value < bound,
        Comparison::Le => value <= bound,
        Comparison::Gt => value > bound,
        Comparison::Ge => value >= bound,
    }
}

/// The comparison against its bound that makes the generated validation
/// reject a value: `val <= bound` for `greater`, `val < bound` for
/// `greater_or_equal`, `val >= bound` for `less`, `val > bound` for
/// `less_or_equal`; none for the validators without a bound.
pub open spec fn spec_rejecting_comparison(v: NumericValidatorView) -> Option<Comparison> {
    match v {
        NumericValidatorView::Greater => Some(Comparison::Le),
        NumericValidatorView::GreaterOrEqual => Some(Comparison::Lt),
        NumericValidatorView::Less => Some(Comparison::Ge),
        NumericValidatorView::LessOrEqual => Some(Comparison::Gt),
        _ => None,
    }
}

pub fn rejecting_comparison(v: NumericValidatorView) -> (r: Option<Comparison>)
    ensures
        r == spec_rejecting_comparison(v),
{
    match v {
        NumericValidatorView::Greater => Some(Comparison::Le),
        NumericValidatorView::GreaterOrEqual => Some(Comparison::Lt),
        NumericValidatorView::Less => Some(Comparison::Ge),
        NumericValidatorView::LessOrEqual => Some(Comparison::Gt),
        _ => None,
    }
}

/// What a bound validator allows, as its name says.
pub open spec fn spec_bound_allows(v: NumericValidatorView, value: int, bound: int) -> bool {
    match v {
        NumericValidatorView::Greater => value > bound,
        NumericValidatorView::GreaterOrEqual => value >= bound,
        NumericValidatorView::Less => value < bound,
        NumericValidatorView::LessOrEqual => value <= bound,
        _ => true,
    }
}

/// The generated check of a bound rejects exactly the values the bound does
/// not allow (on totally ordered values).
pub proof fn lemma_rejecting_comparison_is_exact(v: NumericValidatorView, value: int, bound: int)
    ensures
        spec_rejecting_comparison(v) matches Some(c) ==> (spec_comparison_holds(c, value, bound) <==> !spec_bound_allows(
            v,
            value,
            bound,
        )),
{
}

/// The variants of the generated validation error.
#[derive(Debug, Clone, Copy, PartialEq, Eq, Structural)]
pub enum ErrorVariant {
    GreaterViolated,
    GreaterOrEqualViolated,
    LessViolated,
    LessOrEqualViolated,
    PredicateViolated,
    FiniteViolated,
}

pub open spec fn spec_error_variant(v: NumericValidatorView) -> ErrorVariant {
    match v {
        NumericValidatorView::Greater => ErrorVariant::GreaterViolated,
        NumericValidatorView::GreaterOrEqual => ErrorVariant::GreaterOrEqualViolated,
        NumericValidatorView::Less => ErrorVariant::LessViolated,
        NumericValidatorView::LessOrEqual => ErrorVariant::LessOrEqualViolated,
        NumericValidatorView::Predicate => ErrorVariant::PredicateViolated,
        NumericValidatorView::Finite => ErrorVariant::FiniteViolated,
    }
}

/// The error variant reported when a validator rejects a value.
pub fn error_variant(v: NumericValidatorView) -> (r: ErrorVariant)
    ensures
        r == spec_error_variant(v),
{
    match v {
        NumericValidatorView::Greater => ErrorVariant::GreaterViolated,
        NumericValidatorView::GreaterOrEqual => ErrorVariant::GreaterOrEqualViolated,
        NumericValidatorView::Less => ErrorVariant::LessViolated,
        NumericValidatorView::LessOrEqual => ErrorVariant::LessOrEqualViolated,
        NumericValidatorView::Predicate => ErrorVariant::PredicateViolated,
        NumericValidatorView::Finite => ErrorVariant::FiniteViolated,
    }
}

/// The variants of the validation error, one per validator, in order.
pub open spec fn spec_error_variants<V: NumericValidatorTokens>(vs: Seq<V>) -> Seq<ErrorVariant> {
    vs.map_values(|v: V| spec_error_variant(v.spec_view()))
}

/// Lists the variants of the validation error of a newtype.
pub fn error_variants<V: NumericValidatorTokens>(validators: &Vec<V>) -> (r: Vec<ErrorVariant>)
    ensures
        r@ == spec_error_variants(validators@),
{
    let mut r: Vec<ErrorVariant> = Vec::new();
    let mut i: usize = 0;
    while i < validators.len()
        invariant
            i <= validators@.len(),
            r@ == spec_error_variants(validators@.subrange(0, i as int)),
        decreases validators@.len() - i,
    {
        r.push(error_variant(validators[i].view()));
        i = i + 1;
        assert(r@ =~= spec_error_variants(validators@.subrange(0, i as int)));
    }
    assert(validators@.subrange(0, validators@.len() as int) =~= validators@);
    r
}

/// Validators of distinct kinds give an error type whose variants are
/// distinct, so that the generated enum is well formed.
pub proof fn lemma_error_variants_distinct<V: NumericValidatorTokens>(vs: Seq<V>)
    requires
        !has_same_kind_pair(vs),
    ensures
        forall|i: int, j: int|
            0 <= i < vs.len() && 0 <= j < vs.len() && i != j ==> #[trigger] spec_error_variants(vs)[i]
                != #[trigger] spec_error_variants(vs)[j],
{
    assert forall|i: int, j: int|
        0 <= i < vs.len() && 0 <= j < vs.len() && i != j implies #[trigger] spec_error_variants(vs)[i]
        != #[trigger] spec_error_variants(vs)[j] by {
        V::lemma_view_follows_kind(vs[i], vs[j]);
        if spec_error_variants(vs)[i] == spec_error_variants(vs)[j] {
            assert(vs[i].spec_view() == vs[j].spec_view());
            assert(vs[i].spec_kind() == vs[j].spec_kind());
        }
    }
}

} // verus!
