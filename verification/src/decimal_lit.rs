use vstd::prelude::*;

use core::cmp::Ordering;
use vstd::arithmetic::power::{lemma_pow_positive, pow};
use vstd::std_specs::cmp::{PartialEqSpecImpl, PartialOrdSpecImpl};

verus! {

/// `rust_decimal::Decimal`: a 96-bit integer mantissa with a decimal scale.
#[verifier::external_type_specification]
#[verifier::external_body]
pub struct ExDecimal(rust_decimal::Decimal);

/// `rust_decimal::Error`: why a string is not a decimal.
#[verifier::external_type_specification]
#[verifier::external_body]
pub struct ExDecimalError(rust_decimal::Error);

/// The largest scale of a `Decimal` (digits after the point).
pub const MAX_SCALE: u32 = 28;

/// The largest magnitude of a `Decimal` mantissa (96 bits).
pub const MAX_MANTISSA: i128 = 0xFFFF_FFFF_FFFF_FFFF_FFFF_FFFF;

/// Mantissa and scale that `Decimal::from_str` reads from a string, if the
/// string is a decimal it accepts (plain or scientific notation).
pub uninterp spec fn spec_parse_decimal(s: Seq<char>) -> Option<(i128, u32)>;

/// `rust_decimal::Decimal::from_str`, giving the mantissa and the scale of
/// the parsed decimal. Claimed: the result is a function of the string alone
/// (named `spec_parse_decimal`), and a `Decimal` always has a scale of at most
/// 28 and a mantissa of at most 96 bits, as rust_decimal documents. What
/// strings are accepted and which value they denote is not stated.
#[verifier::external_body]
fn decimal_from_str(s: &str) -> (r: Result<(i128, u32), rust_decimal::Error>)
    ensures
        r matches Ok(d) ==> spec_parse_decimal(s@) == Some(d) && d.1 <= MAX_SCALE
            && -MAX_MANTISSA <= d.0 <= MAX_MANTISSA,
        r is Err ==> spec_parse_decimal(s@) is None,
{
    let d: rust_decimal::Decimal = core::str::FromStr::from_str(s)?;
    Ok((d.mantissa(), d.scale()))
}

/// A well-formed `Decimal` representation.
pub open spec fn decimal_parts_wf(mantissa: i128, scale: u32) -> bool {
    scale <= MAX_SCALE && -MAX_MANTISSA <= mantissa <= MAX_MANTISSA
}

/// The sign of `m1 / 10^s1 - m2 / 10^s2`: -1, 0 or 1.
pub open spec fn spec_decimal_compare(m1: i128, s1: u32, m2: i128, s2: u32) -> int {
    let lhs = m1 as int * pow(10, s2 as nat);
    let rhs = m2 as int * pow(10, s1 as nat);
    if lhs < rhs {
        -1
    } else if lhs == rhs {
        0
    } else {
        1
    }
}

/// `Ord::cmp` of two `rust_decimal::Decimal`s built with
/// `Decimal::from_i128_with_scale`, as -1, 0 or 1. Claimed: decimals compare
/// by their numeric value `mantissa / 10^scale`, whatever their scales.
#[verifier::external_body]
fn compare_decimals(m1: i128, s1: u32, m2: i128, s2: u32) -> (r: i8)
    requires
        decimal_parts_wf(m1, s1),
        decimal_parts_wf(m2, s2),
    ensures
        r == spec_decimal_compare(m1, s1, m2, s2),
{
    let d1 = rust_decimal::Decimal::from_i128_with_scale(m1, s1);
    let d2 = rust_decimal::Decimal::from_i128_with_scale(m2, s2);
    match d1.cmp(&d2) {
        Ordering::Less => -1,
        Ordering::Equal => 0,
        Ordering::Greater => 1,
    }
}

/// A decimal literal read while the macro expands, kept as the mantissa and
/// the scale of a `rust_decimal::Decimal`. Comparison is by numeric value:
/// `0.5` equals `0.50`.
#[derive(Debug, Clone, Copy)]
pub struct DecimalLit {
    mantissa: i128,
    scale: u32,
}

impl DecimalLit {
    #[verifier::type_invariant]
    spec fn wf(self) -> bool {
        decimal_parts_wf(self.mantissa, self.scale)
    }

    pub closed spec fn spec_mantissa(self) -> i128 {
        self.mantissa
    }

    pub closed spec fn spec_scale(self) -> u32 {
        self.scale
    }

    /// The mantissa: the value is `mantissa / 10^scale`.
    pub fn mantissa(&self) -> (r: i128)
        ensures
            r == self.spec_mantissa(),
            -MAX_MANTISSA <= r <= MAX_MANTISSA,
    {
        proof {
            use_type_invariant(self);
        }
        self.mantissa
    }

    /// The number of digits after the decimal point.
    pub fn scale(&self) -> (r: u32)
        ensures
            r == self.spec_scale(),
            r <= MAX_SCALE,
    {
        proof {
            use_type_invariant(self);
        }
        self.scale
    }

    /// Reads a decimal literal the way `rust_decimal::Decimal` does.
    pub fn parse(s: &str) -> (r: Result<DecimalLit, rust_decimal::Error>)
        ensures
            r matches Ok(d) ==> spec_parse_decimal(s@) == Some((d.spec_mantissa(), d.spec_scale())),
            r is Err ==> spec_parse_decimal(s@) is None,
    {
        match decimal_from_str(s) {
            Ok((mantissa, scale)) => Ok(DecimalLit { mantissa, scale }),
            Err(e) => Err(e),
        }
    }

    /// The sign of `self - other`: -1, 0 or 1.
    pub open spec fn spec_compare(&self, other: &DecimalLit) -> int {
        spec_decimal_compare(self.spec_mantissa(), self.spec_scale(), other.spec_mantissa(), other.spec_scale())
    }

    /// Compares two decimals by numeric value: -1, 0 or 1.
    pub fn compare(&self, other: &DecimalLit) -> (r: i8)
        ensures
            r == self.spec_compare(other),
    {
        proof {
            use_type_invariant(self);
            use_type_invariant(other);
        }
        compare_decimals(self.mantissa, self.scale, other.mantissa, other.scale)
    }
}

impl core::str::FromStr for DecimalLit {
    type Err = rust_decimal::Error;

    fn from_str(s: &str) -> (r: Result<DecimalLit, rust_decimal::Error>)
        ensures
            r matches Ok(d) ==> spec_parse_decimal(s@) == Some((d.spec_mantissa(), d.spec_scale())),
            r is Err ==> spec_parse_decimal(s@) is None,
    {
        DecimalLit::parse(s)
    }
}

impl PartialEq for DecimalLit {
    fn eq(&self, other: &DecimalLit) -> (r: bool) {
        self.compare(other) == 0
    }
}

impl PartialEqSpecImpl for DecimalLit {
    open spec fn obeys_eq_spec() -> bool {
        true
    }

    open spec fn eq_spec(&self, other: &DecimalLit) -> bool {
        self.spec_compare(other) == 0
    }
}

impl Eq for DecimalLit {
}

/// Nonlinear step of transitivity: `a/pa <= b/pb` and `b/pb <= c/pc`
/// give `a/pa <= c/pc` for positive denominators.
proof fn lemma_cross_le_transitive(ma: int, pa: int, mb: int, pb: int, mc: int, pc: int)
    requires
        pa > 0,
        pb > 0,
        pc > 0,
        ma * pb <= mb * pa,
        mb * pc <= mc * pb,
    ensures
        ma * pc <= mc * pa,
{
    assert(ma * pb * pc <= mb * pa * pc) by (nonlinear_arith)
        requires ma * pb <= mb * pa, pc > 0;
    assert(mb * pc * pa <= mc * pb * pa) by (nonlinear_arith)
        requires mb * pc <= mc * pb, pa > 0;
    assert(ma * pc * pb <= mc * pa * pb) by (nonlinear_arith)
        requires ma * pb * pc <= mb * pa * pc, mb * pc * pa <= mc * pb * pa;
    assert(ma * pc <= mc * pa) by (nonlinear_arith)
        requires ma * pc * pb <= mc * pa * pb, pb > 0;
}

/// Strict version of [`lemma_cross_le_transitive`].
proof fn lemma_cross_lt_transitive(ma: int, pa: int, mb: int, pb: int, mc: int, pc: int)
    requires
        pa > 0,
        pb > 0,
        pc > 0,
        ma * pb < mb * pa,
        mb * pc <= mc * pb,
    ensures
        ma * pc < mc * pa,
{
    assert(ma * pb * pc < mb * pa * pc) by (nonlinear_arith)
        requires ma * pb < mb * pa, pc > 0;
    assert(mb * pc * pa <= mc * pb * pa) by (nonlinear_arith)
        requires mb * pc <= mc * pb, pa > 0;
    assert(ma * pc * pb < mc * pa * pb) by (nonlinear_arith)
        requires ma * pb * pc < mb * pa * pc, mb * pc * pa <= mc * pb * pa;
    assert(ma * pc < mc * pa) by (nonlinear_arith)
        requires ma * pc * pb < mc * pa * pb, pb > 0;
}

/// Law: comparing two decimals one way gives the opposite of comparing them
/// the other way (so `==` is symmetric, and `<` is the converse of `>`).
pub proof fn lemma_decimal_compare_antisymmetric(a: DecimalLit, b: DecimalLit)
    ensures
        a.spec_compare(&b) == -b.spec_compare(&a),
{
}

/// Law: the order of decimals is transitive: `a <= b` and `b <= c` give
/// `a <= c`, and the result is strict when `a < b`.
pub proof fn lemma_decimal_compare_transitive(a: DecimalLit, b: DecimalLit, c: DecimalLit)
    requires
        a.spec_compare(&b) <= 0,
        b.spec_compare(&c) <= 0,
    ensures
        a.spec_compare(&c) <= 0,
        a.spec_compare(&b) < 0 ==> a.spec_compare(&c) < 0,
{
    let pa = pow(10, a.spec_scale() as nat);
    let pb = pow(10, b.spec_scale() as nat);
    let pc = pow(10, c.spec_scale() as nat);
    lemma_pow_positive(10, a.spec_scale() as nat);
    lemma_pow_positive(10, b.spec_scale() as nat);
    lemma_pow_positive(10, c.spec_scale() as nat);
    let ma = a.spec_mantissa() as int;
    let mb = b.spec_mantissa() as int;
    let mc = c.spec_mantissa() as int;
    lemma_cross_le_transitive(ma, pa, mb, pb, mc, pc);
    if a.spec_compare(&b) < 0 {
        lemma_cross_lt_transitive(ma, pa, mb, pb, mc, pc);
    }
}

/// Law: equality of decimals ignores the scale: a decimal whose mantissa is
/// that of another times `10^k`, with a scale larger by `k`, is equal to it
/// (`0.50 == 0.5`, `1.000 == 1`).
pub proof fn lemma_decimal_equal_across_scales(a: DecimalLit, b: DecimalLit, k: nat)
    requires
        a.spec_scale() == b.spec_scale() + k,
        a.spec_mantissa() == b.spec_mantissa() * pow(10, k),
    ensures
        a.spec_compare(&b) == 0,
{
    let sb = b.spec_scale() as nat;
    vstd::arithmetic::power::lemma_pow_adds(10, sb, k);
    let mb = b.spec_mantissa() as int;
    assert(mb * pow(10, k) * pow(10, sb) == mb * pow(10, sb + k)) by (nonlinear_arith)
        requires pow(10, sb + k) == pow(10, sb) * pow(10, k);
}

/// The ordering a comparison result stands for.
pub open spec fn ordering_of(c: int) -> Option<Ordering> {
    if c < 0 {
        Some(Ordering::Less)
    } else if c == 0 {
        Some(Ordering::Equal)
    } else {
        Some(Ordering::Greater)
    }
}

impl PartialOrd for DecimalLit {
    fn partial_cmp(&self, other: &DecimalLit) -> (r: Option<Ordering>) {
        let c = self.compare(other);
        if c < 0 {
            Some(Ordering::Less)
        } else if c == 0 {
            Some(Ordering::Equal)
        } else {
            Some(Ordering::Greater)
        }
    }
}

impl PartialOrdSpecImpl for DecimalLit {
    open spec fn obeys_partial_cmp_spec() -> bool {
        true
    }

    open spec fn partial_cmp_spec(&self, other: &DecimalLit) -> Option<Ordering> {
        ordering_of(self.spec_compare(other))
    }
}

} // verus!
