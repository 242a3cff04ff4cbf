use vstd::prelude::*;

use crate::base::Kind;
use crate::bounds::BoundKind;
use crate::decimal::{DecimalGuard, DecimalValidator};
use crate::float::{FloatGuard, FloatSanitizer, FloatSanitizerKind, FloatValidator, FloatValidatorKind};
use crate::integer::{IntegerGuard, IntegerValidator};
use crate::gen_plan::{at_most_one_bound, is_lower, is_upper};
use crate::models::{Guard, Validation, ValueOrExpr};
use crate::number::IntegerLiteral;

verus! {

/// Validators that may set a numeric bound.
pub trait BoundKindOf {
    /// The kind of bound the validator sets, if any.
    spec fn spec_bound_kind(&self) -> Option<BoundKind>;

    fn bound_kind(&self) -> (r: Option<BoundKind>)
        ensures
            r == self.spec_bound_kind(),
    ;
}

impl<T> BoundKindOf for IntegerValidator<T> {
    open spec fn spec_bound_kind(&self) -> Option<BoundKind> {
        match self {
            IntegerValidator::Greater(_) => Some(BoundKind::Greater),
            IntegerValidator::GreaterOrEqual(_) => Some(BoundKind::GreaterOrEqual),
            IntegerValidator::Less(_) => Some(BoundKind::Less),
            IntegerValidator::LessOrEqual(_) => Some(BoundKind::LessOrEqual),
            IntegerValidator::Predicate(_) => None,
        }
    }

    fn bound_kind(&self) -> (r: Option<BoundKind>) {
        match self {
            IntegerValidator::Greater(_) => Some(BoundKind::Greater),
            IntegerValidator::GreaterOrEqual(_) => Some(BoundKind::GreaterOrEqual),
            IntegerValidator::Less(_) => Some(BoundKind::Less),
            IntegerValidator::LessOrEqual(_) => Some(BoundKind::LessOrEqual),
            IntegerValidator::Predicate(_) => None,
        }
    }
}

impl<T> BoundKindOf for FloatValidator<T> {
    open spec fn spec_bound_kind(&self) -> Option<BoundKind> {
        match self {
            FloatValidator::Greater(_) => Some(BoundKind::Greater),
            FloatValidator::GreaterOrEqual(_) => Some(BoundKind::GreaterOrEqual),
            FloatValidator::Less(_) => Some(BoundKind::Less),
            FloatValidator::LessOrEqual(_) => Some(BoundKind::LessOrEqual),
            _ => None,
        }
    }

    fn bound_kind(&self) -> (r: Option<BoundKind>) {
        match self {
            FloatValidator::Greater(_) => Some(BoundKind::Greater),
            FloatValidator::GreaterOrEqual(_) => Some(BoundKind::GreaterOrEqual),
            FloatValidator::Less(_) => Some(BoundKind::Less),
            FloatValidator::LessOrEqual(_) => Some(BoundKind::LessOrEqual),
            _ => None,
        }
    }
}

impl<T> BoundKindOf for DecimalValidator<T> {
    open spec fn spec_bound_kind(&self) -> Option<BoundKind> {
        match self {
            DecimalValidator::Greater(_) => Some(BoundKind::Greater),
            DecimalValidator::GreaterOrEqual(_) => Some(BoundKind::GreaterOrEqual),
            DecimalValidator::Less(_) => Some(BoundKind::Less),
            DecimalValidator::LessOrEqual(_) => Some(BoundKind::LessOrEqual),
            DecimalValidator::Predicate(_) => None,
        }
    }

    fn bound_kind(&self) -> (r: Option<BoundKind>) {
        match self {
            DecimalValidator::Greater(_) => Some(BoundKind::Greater),
            DecimalValidator::GreaterOrEqual(_) => Some(BoundKind::GreaterOrEqual),
            DecimalValidator::Less(_) => Some(BoundKind::Less),
            DecimalValidator::LessOrEqual(_) => Some(BoundKind::LessOrEqual),
            DecimalValidator::Predicate(_) => None,
        }
    }
}

/// A bound used to generate values: the position of the validator that sets
/// it, and whether the bound's value itself is allowed.
#[derive(Debug, Clone, Copy, PartialEq, Eq, Structural)]
pub struct BoundRef {
    pub index: usize,
    pub is_inclusive: bool,
}

/// The lower and the upper bound, if any.
#[derive(Debug, Clone, Copy, PartialEq, Eq, Structural)]
pub struct Boundaries {
    pub lower: Option<BoundRef>,
    pub upper: Option<BoundRef>,
}

/// The bounds set by the first `n` validators: for each side, the last
/// validator that sets a bound on it wins.
pub open spec fn spec_boundaries<V: BoundKindOf>(vs: Seq<V>, n: nat) -> Boundaries
    decreases n,
{
    if n == 0 {
        Boundaries { lower: None, upper: None }
    } else {
        let prev = spec_boundaries(vs, (n - 1) as nat);
        let i = (n - 1) as usize;
        match vs[n - 1].spec_bound_kind() {
            Some(BoundKind::Greater) => Boundaries { lower: Some(BoundRef { index: i, is_inclusive: false }), ..prev },
            Some(BoundKind::GreaterOrEqual) => Boundaries {
                lower: Some(BoundRef { index: i, is_inclusive: true }),
                ..prev
            },
            Some(BoundKind::Less) => Boundaries { upper: Some(BoundRef { index: i, is_inclusive: false }), ..prev },
            Some(BoundKind::LessOrEqual) => Boundaries { upper: Some(BoundRef { index: i, is_inclusive: true }), ..prev },
            None => prev,
        }
    }
}

/// The bounds used to generate values are those the validators set: the
/// lower one comes from the last `greater` or `greater_or_equal`, inclusive
/// exactly for `greater_or_equal`, and likewise the upper one from the last
/// `less` or `less_or_equal`; with no such validator there is no bound.
pub proof fn lemma_boundaries_follow_validators<V: BoundKindOf>(vs: Seq<V>, n: nat)
    requires
        n <= vs.len() <= usize::MAX,
    ensures
        spec_boundaries(vs, n).lower matches Some(b) ==> {
            &&& b.index < n
            &&& vs[b.index as int].spec_bound_kind() == Some(
                if b.is_inclusive {
                    BoundKind::GreaterOrEqual
                } else {
                    BoundKind::Greater
                },
            )
            &&& forall|j: int|
                b.index < j < n ==> !(#[trigger] vs[j].spec_bound_kind() matches Some(
                    BoundKind::Greater | BoundKind::GreaterOrEqual,
                ))
        },
        spec_boundaries(vs, n).lower is None ==> forall|j: int|
            0 <= j < n ==> !(#[trigger] vs[j].spec_bound_kind() matches Some(BoundKind::Greater | BoundKind::GreaterOrEqual)),
        spec_boundaries(vs, n).upper matches Some(b) ==> {
            &&& b.index < n
            &&& vs[b.index as int].spec_bound_kind() == Some(
                if b.is_inclusive {
                    BoundKind::LessOrEqual
                } else {
                    BoundKind::Less
                },
            )
            &&& forall|j: int|
                b.index < j < n ==> !(#[trigger] vs[j].spec_bound_kind() matches Some(
                    BoundKind::Less | BoundKind::LessOrEqual,
                ))
        },
        spec_boundaries(vs, n).upper is None ==> forall|j: int|
            0 <= j < n ==> !(#[trigger] vs[j].spec_bound_kind() matches Some(BoundKind::Less | BoundKind::LessOrEqual)),
    decreases n,
{
    if n > 0 {
        lemma_boundaries_follow_validators(vs, (n - 1) as nat);
    }
}

/// Finds the lower and the upper bound among validators.
pub fn compute_boundaries<V: BoundKindOf>(validators: &Vec<V>) -> (r: Boundaries)
    ensures
        r == spec_boundaries(validators@, validators@.len()),
{
    let mut b = Boundaries { lower: None, upper: None };
    let mut i: usize = 0;
    while i < validators.len()
        invariant
            i <= validators@.len(),
            b == spec_boundaries(validators@, i as nat),
        decreases validators@.len() - i,
    {
        match validators[i].bound_kind() {
            Some(BoundKind::Greater) => {
                b = Boundaries { lower: Some(BoundRef { index: i, is_inclusive: false }), ..b };
            },
            Some(BoundKind::GreaterOrEqual) => {
                b = Boundaries { lower: Some(BoundRef { index: i, is_inclusive: true }), ..b };
            },
            Some(BoundKind::Less) => {
                b = Boundaries { upper: Some(BoundRef { index: i, is_inclusive: false }), ..b };
            },
            Some(BoundKind::LessOrEqual) => {
                b = Boundaries { upper: Some(BoundRef { index: i, is_inclusive: true }), ..b };
            },
            None => {},
        }
        i = i + 1;
    }
    b
}

/// The standard validators of a guard; none without validation or with a
/// custom validation.
pub open spec fn standard_validators<S, V>(guard: Guard<S, V>) -> Seq<V> {
    match guard {
        Guard::WithValidation { validation: Validation::Standard { validators, .. }, .. } => validators@,
        _ => Seq::empty(),
    }
}

fn standard_validators_of<S, V>(guard: &Guard<S, V>) -> (r: Option<&Vec<V>>)
    ensures
        r matches Some(vs) ==> vs@ == standard_validators(*guard),
        r is None ==> standard_validators(*guard).len() == 0,
{
    match guard {
        Guard::WithValidation { validation: Validation::Standard { validators, .. }, .. } => Some(validators),
        _ => None,
    }
}

// Integer
//

/// Range in which values of an integer newtype are generated: from the type's
/// minimum, or from the lower bound (plus one when exclusive), to the type's
/// maximum, or to the upper bound (minus one when exclusive).
pub type IntegerArbitraryPlan = Boundaries;

/// Every bound of the validators is given as a literal, not as an
/// expression.
pub open spec fn integer_bounds_are_literals<T>(vs: Seq<IntegerValidator<T>>) -> bool {
    forall|i: int|
        0 <= i < vs.len() ==> match #[trigger] vs[i] {
            IntegerValidator::Greater(b) => b is Value,
            IntegerValidator::GreaterOrEqual(b) => b is Value,
            IntegerValidator::Less(b) => b is Value,
            IntegerValidator::LessOrEqual(b) => b is Value,
            IntegerValidator::Predicate(_) => true,
        }
}

/// Whether a validator lets the value `x` through; a bound given as an
/// expression, or a predicate, is not looked at.
pub open spec fn integer_validator_admits<T: IntegerLiteral>(v: IntegerValidator<T>, x: int) -> bool {
    match v {
        IntegerValidator::Greater(ValueOrExpr::Value(b)) => x > b.spec_int(),
        IntegerValidator::GreaterOrEqual(ValueOrExpr::Value(b)) => x >= b.spec_int(),
        IntegerValidator::Less(ValueOrExpr::Value(b)) => x < b.spec_int(),
        IntegerValidator::LessOrEqual(ValueOrExpr::Value(b)) => x <= b.spec_int(),
        _ => true,
    }
}

/// The smallest value generated: the type's minimum without a lower bound,
/// the bound under `greater_or_equal`, the bound plus one under `greater`.
pub open spec fn spec_arbitrary_min<T: IntegerLiteral>(vs: Seq<IntegerValidator<T>>, lower: Option<BoundRef>) -> int {
    match lower {
        None => T::spec_min(),
        Some(b) => match vs[b.index as int] {
            IntegerValidator::Greater(ValueOrExpr::Value(v)) => v.spec_int() + 1,
            IntegerValidator::GreaterOrEqual(ValueOrExpr::Value(v)) => v.spec_int(),
            _ => arbitrary(),
        },
    }
}

/// The largest value generated: the type's maximum without an upper bound,
/// the bound under `less_or_equal`, the bound minus one under `less`.
pub open spec fn spec_arbitrary_max<T: IntegerLiteral>(vs: Seq<IntegerValidator<T>>, upper: Option<BoundRef>) -> int {
    match upper {
        None => T::spec_max(),
        Some(b) => match vs[b.index as int] {
            IntegerValidator::Less(ValueOrExpr::Value(v)) => v.spec_int() - 1,
            IntegerValidator::LessOrEqual(ValueOrExpr::Value(v)) => v.spec_int(),
            _ => arbitrary(),
        },
    }
}

/// `x` lies in the range the plan generates from.
pub open spec fn in_arbitrary_range<T: IntegerLiteral>(vs: Seq<IntegerValidator<T>>, plan: Boundaries, x: int) -> bool {
    spec_arbitrary_min::<T>(vs, plan.lower) <= x <= spec_arbitrary_max::<T>(vs, plan.upper)
}

/// Law: with bounds given as literals, at most one on each side, the range
/// values are generated from holds exactly the values of the type that pass
/// every validator (e.g. `greater = 5, less = 10` on `i32` gives `6..=9`;
/// no bound gives the type's whole range).
pub proof fn lemma_integer_range_is_exact<T: IntegerLiteral>(vs: Seq<IntegerValidator<T>>, x: int)
    requires
        vs.len() <= usize::MAX,
        integer_bounds_are_literals(vs),
        at_most_one_bound(vs, true),
        at_most_one_bound(vs, false),
        T::spec_min() <= x <= T::spec_max(),
    ensures
        in_arbitrary_range::<T>(vs, spec_boundaries(vs, vs.len()), x) <==> forall|i: int|
            0 <= i < vs.len() ==> #[trigger] integer_validator_admits(vs[i], x),
{
    let n = vs.len();
    let plan = spec_boundaries(vs, n);
    lemma_boundaries_follow_validators(vs, n);
    if in_arbitrary_range::<T>(vs, plan, x) {
        assert forall|i: int| 0 <= i < n implies #[trigger] integer_validator_admits(vs[i], x) by {
            assert(integer_bounds_are_literals(vs) ==> match vs[i] {
                IntegerValidator::Greater(b) => b is Value,
                IntegerValidator::GreaterOrEqual(b) => b is Value,
                IntegerValidator::Less(b) => b is Value,
                IntegerValidator::LessOrEqual(b) => b is Value,
                IntegerValidator::Predicate(_) => true,
            });
            if is_lower(vs[i]) {
                let b = plan.lower->0;
                let k = b.index as int;
                if k < i {
                    assert(!(is_lower(vs[k]) && is_lower(vs[i])));
                } else if i < k {
                    assert(!(is_lower(vs[i]) && is_lower(vs[k])));
                }
                assert(k == i);
            } else if is_upper(vs[i]) {
                let b = plan.upper->0;
                let k = b.index as int;
                if k < i {
                    assert(!(is_upper(vs[k]) && is_upper(vs[i])));
                } else if i < k {
                    assert(!(is_upper(vs[i]) && is_upper(vs[k])));
                }
                assert(k == i);
            }
        }
    }
    if forall|i: int| 0 <= i < n ==> #[trigger] integer_validator_admits(vs[i], x) {
        if let Some(b) = plan.lower {
            assert(integer_validator_admits(vs[b.index as int], x));
            assert(match vs[b.index as int] {
                IntegerValidator::Greater(b) => b is Value,
                IntegerValidator::GreaterOrEqual(b) => b is Value,
                IntegerValidator::Less(b) => b is Value,
                IntegerValidator::LessOrEqual(b) => b is Value,
                IntegerValidator::Predicate(_) => true,
            });
        }
        if let Some(b) = plan.upper {
            assert(integer_validator_admits(vs[b.index as int], x));
            assert(match vs[b.index as int] {
                IntegerValidator::Greater(b) => b is Value,
                IntegerValidator::GreaterOrEqual(b) => b is Value,
                IntegerValidator::Less(b) => b is Value,
                IntegerValidator::LessOrEqual(b) => b is Value,
                IntegerValidator::Predicate(_) => true,
            });
        }
    }
}

/// The range in which values of an integer newtype are generated. A
/// `predicate` validator leaves no range to derive. With bounds given as
/// literals, at most one on each side, the range holds exactly the values of
/// the type that pass every validator.
pub fn guard_to_boundary<T: IntegerLiteral>(guard: &IntegerGuard<T>) -> (r: IntegerArbitraryPlan)
    requires
        forall|i: int|
            0 <= i < standard_validators(*guard).len() ==> !(#[trigger] standard_validators(*guard)[i] is Predicate),
    ensures
        r == spec_boundaries(standard_validators(*guard), standard_validators(*guard).len()),
        ({
            let vs = standard_validators(*guard);
            integer_bounds_are_literals(vs) && at_most_one_bound(vs, true) && at_most_one_bound(vs, false)
                ==> forall|x: int|
                T::spec_min() <= x <= T::spec_max() ==> (#[trigger] in_arbitrary_range::<T>(vs, r, x) <==> forall|
                    i: int,
                |
                    0 <= i < vs.len() ==> #[trigger] integer_validator_admits(vs[i], x))
        }),
{
    let r = match standard_validators_of(guard) {
        Some(validators) => {
            assert(validators@.len() == validators.len());
            compute_boundaries(validators)
        },
        None => Boundaries { lower: None, upper: None },
    };
    proof {
        let vs = standard_validators(*guard);
        if integer_bounds_are_literals(vs) && at_most_one_bound(vs, true) && at_most_one_bound(vs, false) {
            assert forall|x: int| T::spec_min() <= x <= T::spec_max() implies (#[trigger] in_arbitrary_range::<T>(
                vs,
                r,
                x,
            ) <==> forall|i: int| 0 <= i < vs.len() ==> #[trigger] integer_validator_admits(vs[i], x)) by {
                lemma_integer_range_is_exact::<T>(vs, x);
            }
        }
    }
    r
}

// Float
//

/// The values a float is first drawn from, before bounds are applied.
#[derive(Debug, Clone, Copy, PartialEq, Eq, Structural)]
pub enum BasicValueKind {
    /// All floats, NaN and infinities included.
    All,
    /// All floats but NaN.
    NotNaN,
    /// All floats but NaN and infinities.
    Finite,
}

pub open spec fn spec_basic_value_kind(kinds: Seq<FloatValidatorKind>) -> BasicValueKind {
    if kinds.contains(FloatValidatorKind::Finite) {
        BasicValueKind::Finite
    } else if kinds.contains(FloatValidatorKind::Greater) || kinds.contains(FloatValidatorKind::GreaterOrEqual)
        || kinds.contains(FloatValidatorKind::Less) || kinds.contains(FloatValidatorKind::LessOrEqual) {
        BasicValueKind::NotNaN
    } else {
        BasicValueKind::All
    }
}

/// A float validator that no NaN passes: a bound or `finite`.
pub open spec fn rejects_nan(k: FloatValidatorKind) -> bool {
    k is Greater || k is GreaterOrEqual || k is Less || k is LessOrEqual || k is Finite
}

/// Law: the floats drawn for `Arbitrary` pass the validators as far as NaN
/// and infinities go: any float (NaN included) is drawn only when no
/// validator rejects NaN; finite floats exactly when `finite` is given.
pub proof fn lemma_basic_value_kind_respects_validators(kinds: Seq<FloatValidatorKind>)
    ensures
        spec_basic_value_kind(kinds) == BasicValueKind::All <==> forall|i: int|
            0 <= i < kinds.len() ==> !rejects_nan(#[trigger] kinds[i]),
        spec_basic_value_kind(kinds) == BasicValueKind::Finite <==> exists|i: int|
            0 <= i < kinds.len() && #[trigger] kinds[i] == FloatValidatorKind::Finite,
{
    if spec_basic_value_kind(kinds) == BasicValueKind::All {
        assert forall|i: int| 0 <= i < kinds.len() implies !rejects_nan(#[trigger] kinds[i]) by {
            assert(kinds.contains(kinds[i]));
        }
    } else {
        let k = if kinds.contains(FloatValidatorKind::Finite) {
            FloatValidatorKind::Finite
        } else if kinds.contains(FloatValidatorKind::Greater) {
            FloatValidatorKind::Greater
        } else if kinds.contains(FloatValidatorKind::GreaterOrEqual) {
            FloatValidatorKind::GreaterOrEqual
        } else if kinds.contains(FloatValidatorKind::Less) {
            FloatValidatorKind::Less
        } else {
            FloatValidatorKind::LessOrEqual
        };
        assert(kinds.contains(k));
        let i = choose|i: int| 0 <= i < kinds.len() && kinds[i] == k;
        assert(rejects_nan(kinds[i]));
    }
    if exists|i: int| 0 <= i < kinds.len() && #[trigger] kinds[i] == FloatValidatorKind::Finite {
        let i = choose|i: int| 0 <= i < kinds.len() && #[trigger] kinds[i] == FloatValidatorKind::Finite;
        assert(kinds.contains(kinds[i]));
    }
}

fn contains_kind(kinds: &Vec<FloatValidatorKind>, k: FloatValidatorKind) -> (r: bool)
    ensures
        r == kinds@.contains(k),
{
    let mut i: usize = 0;
    while i < kinds.len()
        invariant
            i <= kinds@.len(),
            forall|j: int| 0 <= j < i ==> kinds@[j] != k,
        decreases kinds@.len() - i,
    {
        if kinds[i] == k {
            return true;
        }
        i = i + 1;
    }
    false
}

/// Which floats to draw from: finite ones under `finite`, non-NaN ones under a
/// bound, any otherwise.
pub fn compute_basic_value_kind(validators: &Vec<FloatValidatorKind>) -> (r: BasicValueKind)
    ensures
        r == spec_basic_value_kind(validators@),
{
    if contains_kind(validators, FloatValidatorKind::Finite) {
        BasicValueKind::Finite
    } else if contains_kind(validators, FloatValidatorKind::Greater) || contains_kind(
        validators,
        FloatValidatorKind::GreaterOrEqual,
    ) || contains_kind(validators, FloatValidatorKind::Less) || contains_kind(
        validators,
        FloatValidatorKind::LessOrEqual,
    ) {
        BasicValueKind::NotNaN
    } else {
        BasicValueKind::All
    }
}

/// How values of a float newtype are generated.
#[derive(Debug, Clone, Copy, PartialEq, Eq, Structural)]
pub enum FloatArbitraryPlan {
    /// Any float: nothing is validated.
    Unrestricted,
    /// A float of the basic kind, brought within the bounds.
    Bounded { basic: BasicValueKind, boundaries: Boundaries },
}

/// Why `Arbitrary` cannot be derived for a float newtype.
#[derive(Debug, Clone, Copy, PartialEq, Eq, Structural)]
pub enum FloatArbitraryError {
    PredicateValidator,
    WithSanitizer,
}

pub open spec fn spec_float_arbitrary_plan<T>(guard: FloatGuard<T>) -> Result<FloatArbitraryPlan, FloatArbitraryError> {
    match guard {
        Guard::WithoutValidation { .. } => Ok(FloatArbitraryPlan::Unrestricted),
        Guard::WithValidation { sanitizers, .. } => {
            let vs = standard_validators(guard);
            let kinds = vs.map_values(|v: FloatValidator<T>| v.spec_kind());
            if kinds.contains(FloatValidatorKind::Predicate) {
                Err(FloatArbitraryError::PredicateValidator)
            } else if sanitizers@.map_values(|s: FloatSanitizer<T>| s.spec_kind()).contains(FloatSanitizerKind::With) {
                Err(FloatArbitraryError::WithSanitizer)
            } else {
                Ok(
                    FloatArbitraryPlan::Bounded {
                        basic: spec_basic_value_kind(kinds),
                        boundaries: spec_boundaries(vs, vs.len()),
                    },
                )
            }
        },
    }
}

fn validator_kinds<T>(validators: &Vec<FloatValidator<T>>) -> (r: Vec<FloatValidatorKind>)
    ensures
        r@ == validators@.map_values(|v: FloatValidator<T>| v.spec_kind()),
{
    let mut r: Vec<FloatValidatorKind> = Vec::new();
    let mut i: usize = 0;
    while i < validators.len()
        invariant
            i <= validators@.len(),
            r@ == validators@.subrange(0, i as int).map_values(|v: FloatValidator<T>| v.spec_kind()),
        decreases validators@.len() - i,
    {
        r.push(validators[i].kind());
        i = i + 1;
        assert(r@ =~= validators@.subrange(0, i as int).map_values(|v: FloatValidator<T>| v.spec_kind()));
    }
    assert(validators@.subrange(0, validators@.len() as int) =~= validators@);
    r
}

fn has_with_sanitizer<T>(sanitizers: &Vec<FloatSanitizer<T>>) -> (r: bool)
    ensures
        r == sanitizers@.map_values(|s: FloatSanitizer<T>| s.spec_kind()).contains(FloatSanitizerKind::With),
{
    let ghost kinds = sanitizers@.map_values(|s: FloatSanitizer<T>| s.spec_kind());
    let mut i: usize = 0;
    while i < sanitizers.len()
        invariant
            i <= sanitizers@.len(),
            kinds == sanitizers@.map_values(|s: FloatSanitizer<T>| s.spec_kind()),
            forall|j: int| 0 <= j < i ==> kinds[j] != FloatSanitizerKind::With,
        decreases sanitizers@.len() - i,
    {
        if sanitizers[i].kind() == FloatSanitizerKind::With {
            assert(kinds[i as int] == FloatSanitizerKind::With);
            return true;
        }
        i = i + 1;
    }
    false
}

/// How values of a float newtype are generated for `Arbitrary`, or why they
/// cannot be: a `predicate` validator or a `with` sanitizer next to
/// validation leave no way to know which values pass.
pub fn float_arbitrary_plan<T>(guard: &FloatGuard<T>) -> (r: Result<FloatArbitraryPlan, FloatArbitraryError>)
    ensures
        r == spec_float_arbitrary_plan(*guard),
{
    match guard {
        Guard::WithoutValidation { .. } => Ok(FloatArbitraryPlan::Unrestricted),
        Guard::WithValidation { sanitizers, .. } => {
            let no_validators: Vec<FloatValidator<T>> = Vec::new();
            let validators = match standard_validators_of(guard) {
                Some(vs) => vs,
                None => &no_validators,
            };
            assert(validators@ =~= standard_validators(*guard));
            let kinds = validator_kinds(validators);
            if contains_kind(&kinds, FloatValidatorKind::Predicate) {
                return Err(FloatArbitraryError::PredicateValidator);
            }
            if has_with_sanitizer(sanitizers) {
                return Err(FloatArbitraryError::WithSanitizer);
            }
            let basic = compute_basic_value_kind(&kinds);
            let boundaries = compute_boundaries(validators);
            Ok(FloatArbitraryPlan::Bounded { basic, boundaries })
        },
    }
}

/// How a float is generated for `Arbitrary`, from a plan.
#[derive(Debug, Clone, Copy, PartialEq, Eq, Structural)]
pub enum FloatGeneration {
    /// A float of the basic kind, as drawn.
    Basic(BasicValueKind),
    /// A float in `[0, 1]` scaled into the range between the bounds at the
    /// given positions; then, when `lower_nudge` is set, moved above the
    /// value of that validator if it is not, and, when `upper_nudge` is set,
    /// moved below the value of that validator if it is not.
    Scaled { lower: usize, upper: usize, lower_nudge: Option<usize>, upper_nudge: Option<usize> },
    /// The absolute value of a basic float added to the lower bound, moved
    /// above it when the bound is exclusive.
    AboveLower { basic: BasicValueKind, lower: BoundRef },
    /// The absolute value of a basic float subtracted from the upper bound,
    /// moved below it when the bound is exclusive.
    BelowUpper { basic: BasicValueKind, upper: BoundRef },
}

/// The generation of a float from a plan. Between two bounds, each
/// exclusive bound gets its own nudge: the value is moved above an exclusive
/// lower bound and below an exclusive upper bound, so that neither excluded
/// value is produced.
pub open spec fn spec_float_generation(plan: FloatArbitraryPlan) -> FloatGeneration {
    match plan {
        FloatArbitraryPlan::Unrestricted => FloatGeneration::Basic(BasicValueKind::All),
        FloatArbitraryPlan::Bounded { basic, boundaries } => match (boundaries.lower, boundaries.upper) {
            (Some(l), Some(u)) => {
                let lower_nudge = if l.is_inclusive {
                    None
                } else {
                    Some(l.index)
                };
                let upper_nudge = if u.is_inclusive {
                    None
                } else {
                    Some(u.index)
                };
                FloatGeneration::Scaled { lower: l.index, upper: u.index, lower_nudge, upper_nudge }
            },
            (Some(l), None) => FloatGeneration::AboveLower { basic, lower: l },
            (None, Some(u)) => FloatGeneration::BelowUpper { basic, upper: u },
            (None, None) => FloatGeneration::Basic(basic),
        },
    }
}

/// Decides how floats are generated within the plan's bounds.
pub fn normalize_basic_value_for_boundaries(plan: FloatArbitraryPlan) -> (r: FloatGeneration)
    ensures
        r == spec_float_generation(plan),
{
    match plan {
        FloatArbitraryPlan::Unrestricted => FloatGeneration::Basic(BasicValueKind::All),
        FloatArbitraryPlan::Bounded { basic, boundaries } => match (boundaries.lower, boundaries.upper) {
            (Some(l), Some(u)) => {
                let lower_nudge = if l.is_inclusive {
                    None
                } else {
                    Some(l.index)
                };
                let upper_nudge = if u.is_inclusive {
                    None
                } else {
                    Some(u.index)
                };
                FloatGeneration::Scaled { lower: l.index, upper: u.index, lower_nudge, upper_nudge }
            },
            (Some(l), None) => FloatGeneration::AboveLower { basic, lower: l },
            (None, Some(u)) => FloatGeneration::BelowUpper { basic, upper: u },
            (None, None) => FloatGeneration::Basic(basic),
        },
    }
}

// Decimal
//

/// How values of a decimal newtype are generated.
#[derive(Debug, Clone, Copy, PartialEq, Eq, Structural)]
pub enum DecimalArbitraryPlan {
    /// Any decimal: nothing is validated.
    Unrestricted,
    /// A decimal within the inclusive bounds set by the validators at the
    /// given positions, if any.
    Bounded { lower: Option<usize>, upper: Option<usize> },
}

/// Why `Arbitrary` cannot be derived for a decimal newtype.
#[derive(Debug, Clone, Copy, PartialEq, Eq, Structural)]
pub enum DecimalArbitraryError {
    /// Sanitizers next to validation.
    SanitizersWithValidation,
    /// A custom validation function.
    CustomValidation,
    /// A `predicate` validator.
    Predicate,
    /// `greater` or `less`: only inclusive bounds are supported.
    ExclusiveBound,
}

/// Reads the first `n` validators: the last inclusive bound of each side
/// wins; the first `predicate` or exclusive bound stops the reading.
pub open spec fn spec_decimal_bounds<T>(vs: Seq<DecimalValidator<T>>, n: nat) -> Result<
    (Option<usize>, Option<usize>),
    DecimalArbitraryError,
>
    decreases n,
{
    if n == 0 {
        Ok((None, None))
    } else {
        match spec_decimal_bounds(vs, (n - 1) as nat) {
            Err(e) => Err(e),
            Ok((lower, upper)) => match vs[n - 1] {
                DecimalValidator::Predicate(_) => Err(DecimalArbitraryError::Predicate),
                DecimalValidator::Greater(_) | DecimalValidator::Less(_) => Err(DecimalArbitraryError::ExclusiveBound),
                DecimalValidator::GreaterOrEqual(_) => Ok((Some((n - 1) as usize), upper)),
                DecimalValidator::LessOrEqual(_) => Ok((lower, Some((n - 1) as usize))),
            },
        }
    }
}

proof fn lemma_decimal_bounds_err<T>(vs: Seq<DecimalValidator<T>>, k: nat, m: nat)
    requires
        k <= m,
        spec_decimal_bounds(vs, k) is Err,
    ensures
        spec_decimal_bounds(vs, m) == spec_decimal_bounds(vs, k),
    decreases m - k,
{
    if k < m {
        lemma_decimal_bounds_err(vs, k, (m - 1) as nat);
    }
}

pub open spec fn spec_decimal_arbitrary_plan<T>(guard: DecimalGuard<T>) -> Result<DecimalArbitraryPlan, DecimalArbitraryError> {
    match guard {
        Guard::WithoutValidation { .. } => Ok(DecimalArbitraryPlan::Unrestricted),
        Guard::WithValidation { sanitizers, validation } => match validation {
            Validation::Standard { validators, .. } => if sanitizers@.len() > 0 {
                Err(DecimalArbitraryError::SanitizersWithValidation)
            } else {
                match spec_decimal_bounds(validators@, validators@.len()) {
                    Err(e) => Err(e),
                    Ok((lower, upper)) => Ok(DecimalArbitraryPlan::Bounded { lower, upper }),
                }
            },
            Validation::Custom { .. } => Err(DecimalArbitraryError::CustomValidation),
        },
    }
}

/// How values of a decimal newtype are generated for `Arbitrary`, or why
/// they cannot be.
#[verifier::loop_isolation(false)]
pub fn decimal_arbitrary_plan<T>(guard: &DecimalGuard<T>) -> (r: Result<DecimalArbitraryPlan, DecimalArbitraryError>)
    ensures
        r == spec_decimal_arbitrary_plan(*guard),
{
    match guard {
        Guard::WithoutValidation { .. } => Ok(DecimalArbitraryPlan::Unrestricted),
        Guard::WithValidation { sanitizers, validation } => match validation {
            Validation::Standard { validators, .. } => {
                if sanitizers.len() > 0 {
                    return Err(DecimalArbitraryError::SanitizersWithValidation);
                }
                let mut lower: Option<usize> = None;
                let mut upper: Option<usize> = None;
                let mut i: usize = 0;
                while i < validators.len()
                    invariant
                        i <= validators@.len(),
                        spec_decimal_bounds(validators@, i as nat) == Ok::<
                            (Option<usize>, Option<usize>),
                            DecimalArbitraryError,
                        >((lower, upper)),
                    decreases validators@.len() - i,
                {
                    match &validators[i] {
                        DecimalValidator::Predicate(_) => {
                            proof {
                                lemma_decimal_bounds_err(validators@, (i + 1) as nat, validators@.len());
                            }
                            return Err(DecimalArbitraryError::Predicate);
                        },
                        DecimalValidator::Greater(_) | DecimalValidator::Less(_) => {
                            proof {
                                lemma_decimal_bounds_err(validators@, (i + 1) as nat, validators@.len());
                            }
                            return Err(DecimalArbitraryError::ExclusiveBound);
                        },
                        DecimalValidator::GreaterOrEqual(_) => {
                            lower = Some(i);
                        },
                        DecimalValidator::LessOrEqual(_) => {
                            upper = Some(i);
                        },
                    }
                    i = i + 1;
                }
                Ok(DecimalArbitraryPlan::Bounded { lower, upper })
            },
            Validation::Custom { .. } => Err(DecimalArbitraryError::CustomValidation),
        },
    }
}

} // verus!
