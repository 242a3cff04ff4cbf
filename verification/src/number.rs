use vstd::prelude::*;

use crate::text::chars_of;

verus! {

/// The text a numeric bound is read from: a minus sign if one was written
/// before the literal, then the literal without its `_` separators.
pub open spec fn spec_number_text(negative: bool, lit: Seq<char>) -> Seq<char> {
    (if negative {
        seq!['-']
    } else {
        Seq::empty()
    }) + lit.filter(|c: char| c != '_')
}

/// Builds the text a numeric bound is read from (see `spec_number_text`).
pub fn number_text(negative: bool, lit: &str) -> (r: Vec<char>)
    ensures
        r@ == spec_number_text(negative, lit@),
{
    let chars = chars_of(lit);
    let mut out: Vec<char> = Vec::new();
    if negative {
        out.push('-');
    }
    let ghost head = out@;
    let mut i: usize = 0;
    while i < chars.len()
        invariant
            chars@ == lit@,
            i <= chars@.len(),
            head == (if negative {
                seq!['-']
            } else {
                Seq::<char>::empty()
            }),
            out@ == head + chars@.subrange(0, i as int).filter(|c: char| c != '_'),
        decreases chars@.len() - i,
    {
        let c = chars[i];
        proof {
            assert(chars@.subrange(0, i + 1) =~= chars@.subrange(0, i as int).push(c));
            chars@.subrange(0, i as int).lemma_filter_push(c, |c: char| c != '_');
        }
        if c != '_' {
            out.push(c);
            assert(out@ =~= head + chars@.subrange(0, i + 1).filter(|c: char| c != '_'));
        }
        i = i + 1;
    }
    assert(chars@.subrange(0, chars@.len() as int) =~= chars@);
    out
}

pub open spec fn is_digit(c: char) -> bool {
    '0' <= c && c <= '9'
}

pub open spec fn digit_value(c: char) -> int {
    (c as int) - ('0' as int)
}

/// The value of the first `n` decimal digits of `s`.
pub open spec fn digits_value(s: Seq<char>, n: nat) -> int
    decreases n,
{
    if n == 0 {
        0
    } else {
        digits_value(s, (n - 1) as nat) * 10 + digit_value(s[n - 1])
    }
}

/// Splits off a leading `+`, or a leading `-` for a signed type.
pub open spec fn spec_sign_split(s: Seq<char>, signed: bool) -> (bool, Seq<char>) {
    if s.len() > 0 && s[0] == '+' {
        (false, s.drop_first())
    } else if signed && s.len() > 0 && s[0] == '-' {
        (true, s.drop_first())
    } else {
        (false, s)
    }
}

/// What `str::parse` gives for an integer type with range `min..=max`: an
/// optional sign (`-` only for a signed type), one or more decimal digits,
/// and a value in range.
pub open spec fn spec_parse_integer(s: Seq<char>, min: int, max: int) -> Option<int> {
    let (negative, digits) = spec_sign_split(s, min < 0);
    if digits.len() == 0 || !(forall|i: int| 0 <= i < digits.len() ==> is_digit(#[trigger] digits[i])) {
        None
    } else {
        let m = digits_value(digits, digits.len());
        let v = if negative {
            -m
        } else {
            m
        };
        if min <= v && v <= max {
            Some(v)
        } else {
            None
        }
    }
}

/// The integer types a bound can be given in.
pub trait IntegerLiteral: Sized + Copy {
    spec fn spec_min() -> int;

    spec fn spec_max() -> int;

    /// The value as an integer.
    spec fn spec_int(self) -> int;

    /// The range holds zero and fits in `u128` on either side.
    proof fn lemma_range()
        ensures
            -u128::MAX <= Self::spec_min() <= 0 <= Self::spec_max() <= u128::MAX,
    ;

    fn is_signed() -> (r: bool)
        ensures
            r == (Self::spec_min() < 0),
    ;

    /// The largest magnitude of a value of the given sign.
    fn max_magnitude(negative: bool) -> (r: u128)
        ensures
            r == (if negative {
                -Self::spec_min()
            } else {
                Self::spec_max()
            }),
    ;

    /// The value of the given sign and magnitude.
    fn from_magnitude(negative: bool, m: u128) -> (r: Self)
        requires
            negative ==> m <= -Self::spec_min(),
            !negative ==> m <= Self::spec_max(),
        ensures
            r.spec_int() == (if negative {
                -m
            } else {
                m as int
            }),
    ;
}

proof fn lemma_digits_value_monotone(s: Seq<char>, k: nat, n: nat)
    requires
        k <= n <= s.len(),
        forall|i: int| 0 <= i < n ==> is_digit(#[trigger] s[i]),
    ensures
        0 <= digits_value(s, k) <= digits_value(s, n),
    decreases n,
{
    if n > 0 {
        if k < n {
            lemma_digits_value_monotone(s, k, (n - 1) as nat);
        }
        lemma_digits_value_monotone(s, (n - 1) as nat, (n - 1) as nat);
        assert(is_digit(s[n - 1]));
    }
}

proof fn lemma_digits_value_nonneg(s: Seq<char>, n: nat)
    requires
        n <= s.len(),
        forall|i: int| 0 <= i < n ==> is_digit(#[trigger] s[i]),
    ensures
        0 <= digits_value(s, n),
    decreases n,
{
    if n > 0 {
        lemma_digits_value_nonneg(s, (n - 1) as nat);
        assert(is_digit(s[n - 1]));
    }
}

/// Reads an integer of type `T` the way `str::parse` does.
#[verifier::loop_isolation(false)]
pub fn parse_integer<T: IntegerLiteral>(s: &Vec<char>) -> (r: Option<T>)
    ensures
        match spec_parse_integer(s@, T::spec_min(), T::spec_max()) {
            Some(v) => r matches Some(x) && x.spec_int() == v,
            None => r is None,
        },
{
    proof {
        T::lemma_range();
    }
    let signed = T::is_signed();
    let n = s.len();
    let mut negative = false;
    let mut start: usize = 0;
    if n > 0 && s[0] == '+' {
        start = 1;
    } else if signed && n > 0 && s[0] == '-' {
        negative = true;
        start = 1;
    }
    let ghost digits = spec_sign_split(s@, T::spec_min() < 0).1;
    assert(digits =~= s@.subrange(start as int, n as int));
    assert(negative == spec_sign_split(s@, T::spec_min() < 0).0);
    if start == n {
        assert(digits.len() == 0);
        return None;
    }
    let mut acc: u128 = 0;
    let mut i: usize = start;
    while i < n
        invariant
            start <= i <= n,
            n == s@.len(),
            digits == s@.subrange(start as int, n as int),
            forall|j: int| 0 <= j < i - start ==> is_digit(#[trigger] digits[j]),
            acc == digits_value(digits, (i - start) as nat),
        decreases n - i,
    {
        let c = s[i];
        if !('0' <= c && c <= '9') {
            assert(!is_digit(digits[i - start]));
            return None;
        }
        let d: u128 = ((c as u32) - ('0' as u32)) as u128;
        proof {
            assert(digits[i - start] == c);
        }
        match acc.checked_mul(10) {
            None => {
                proof {
                    lemma_digits_value_nonneg(digits, (i - start) as nat);
                    assert(digits_value(digits, (i - start + 1) as nat) == acc * 10 + d);
                    lemma_none_after_overflow(digits, (i - start + 1) as nat, T::spec_min(), T::spec_max(), negative);
                }
                return None;
            },
            Some(a) => match a.checked_add(d) {
                None => {
                    proof {
                        assert(digits_value(digits, (i - start + 1) as nat) == a + d);
                        lemma_none_after_overflow(digits, (i - start + 1) as nat, T::spec_min(), T::spec_max(), negative);
                    }
                    return None;
                },
                Some(b) => {
                    acc = b;
                },
            },
        }
        i = i + 1;
    }
    assert(digits.len() == n - start);
    assert(forall|j: int| 0 <= j < digits.len() ==> is_digit(#[trigger] digits[j]));
    let bound = T::max_magnitude(negative);
    if acc > bound {
        None
    } else {
        Some(T::from_magnitude(negative, acc))
    }
}

/// Once the digits read so far exceed `u128`, no integer type can hold the
/// number.
proof fn lemma_none_after_overflow(digits: Seq<char>, read: nat, min: int, max: int, negative: bool)
    requires
        read <= digits.len(),
        digits_value(digits, read) > u128::MAX,
        -min <= u128::MAX,
        max <= u128::MAX,
    ensures
        (forall|i: int| 0 <= i < digits.len() ==> is_digit(#[trigger] digits[i])) ==> {
            let m = digits_value(digits, digits.len());
            !(min <= (if negative {
                -m
            } else {
                m
            }) && (if negative {
                -m
            } else {
                m
            }) <= max)
        },
{
    if forall|i: int| 0 <= i < digits.len() ==> is_digit(#[trigger] digits[i]) {
        lemma_digits_value_monotone(digits, read, digits.len());
    }
}


impl IntegerLiteral for u8 {
    open spec fn spec_min() -> int {
        0
    }

    open spec fn spec_max() -> int {
        u8::MAX as int
    }

    open spec fn spec_int(self) -> int {
        self as int
    }

    proof fn lemma_range() {
    }

    fn is_signed() -> (r: bool) {
        false
    }

    fn max_magnitude(negative: bool) -> (r: u128) {
        if negative {
            0
        } else {
            u8::MAX as u128
        }
    }

    fn from_magnitude(negative: bool, m: u128) -> (r: Self) {
        m as u8
    }
}

impl IntegerLiteral for u16 {
    open spec fn spec_min() -> int {
        0
    }

    open spec fn spec_max() -> int {
        u16::MAX as int
    }

    open spec fn spec_int(self) -> int {
        self as int
    }

    proof fn lemma_range() {
    }

    fn is_signed() -> (r: bool) {
        false
    }

    fn max_magnitude(negative: bool) -> (r: u128) {
        if negative {
            0
        } else {
            u16::MAX as u128
        }
    }

    fn from_magnitude(negative: bool, m: u128) -> (r: Self) {
        m as u16
    }
}

impl IntegerLiteral for u32 {
    open spec fn spec_min() -> int {
        0
    }

    open spec fn spec_max() -> int {
        u32::MAX as int
    }

    open spec fn spec_int(self) -> int {
        self as int
    }

    proof fn lemma_range() {
    }

    fn is_signed() -> (r: bool) {
        false
    }

    fn max_magnitude(negative: bool) -> (r: u128) {
        if negative {
            0
        } else {
            u32::MAX as u128
        }
    }

    fn from_magnitude(negative: bool, m: u128) -> (r: Self) {
        m as u32
    }
}

impl IntegerLiteral for u64 {
    open spec fn spec_min() -> int {
        0
    }

    open spec fn spec_max() -> int {
        u64::MAX as int
    }

    open spec fn spec_int(self) -> int {
        self as int
    }

    proof fn lemma_range() {
    }

    fn is_signed() -> (r: bool) {
        false
    }

    fn max_magnitude(negative: bool) -> (r: u128) {
        if negative {
            0
        } else {
            u64::MAX as u128
        }
    }

    fn from_magnitude(negative: bool, m: u128) -> (r: Self) {
        m as u64
    }
}

impl IntegerLiteral for u128 {
    open spec fn spec_min() -> int {
        0
    }

    open spec fn spec_max() -> int {
        u128::MAX as int
    }

    open spec fn spec_int(self) -> int {
        self as int
    }

    proof fn lemma_range() {
    }

    fn is_signed() -> (r: bool) {
        false
    }

    fn max_magnitude(negative: bool) -> (r: u128) {
        if negative {
            0
        } else {
            u128::MAX as u128
        }
    }

    fn from_magnitude(negative: bool, m: u128) -> (r: Self) {
        m as u128
    }
}

impl IntegerLiteral for usize {
    open spec fn spec_min() -> int {
        0
    }

    open spec fn spec_max() -> int {
        usize::MAX as int
    }

    open spec fn spec_int(self) -> int {
        self as int
    }

    proof fn lemma_range() {
    }

    fn is_signed() -> (r: bool) {
        false
    }

    fn max_magnitude(negative: bool) -> (r: u128) {
        if negative {
            0
        } else {
            usize::MAX as u128
        }
    }

    fn from_magnitude(negative: bool, m: u128) -> (r: Self) {
        m as usize
    }
}

impl IntegerLiteral for i8 {
    open spec fn spec_min() -> int {
        i8::MIN as int
    }

    open spec fn spec_max() -> int {
        i8::MAX as int
    }

    open spec fn spec_int(self) -> int {
        self as int
    }

    proof fn lemma_range() {
    }

    fn is_signed() -> (r: bool) {
        true
    }

    fn max_magnitude(negative: bool) -> (r: u128) {
        if negative {
            (i8::MAX as u128) + 1
        } else {
            i8::MAX as u128
        }
    }

    fn from_magnitude(negative: bool, m: u128) -> (r: Self) {
        if negative {
            if m == (i8::MAX as u128) + 1 {
                i8::MIN
            } else {
                -(m as i8)
            }
        } else {
            m as i8
        }
    }
}

impl IntegerLiteral for i16 {
    open spec fn spec_min() -> int {
        i16::MIN as int
    }

    open spec fn spec_max() -> int {
        i16::MAX as int
    }

    open spec fn spec_int(self) -> int {
        self as int
    }

    proof fn lemma_range() {
    }

    fn is_signed() -> (r: bool) {
        true
    }

    fn max_magnitude(negative: bool) -> (r: u128) {
        if negative {
            (i16::MAX as u128) + 1
        } else {
            i16::MAX as u128
        }
    }

    fn from_magnitude(negative: bool, m: u128) -> (r: Self) {
        if negative {
            if m == (i16::MAX as u128) + 1 {
                i16::MIN
            } else {
                -(m as i16)
            }
        } else {
            m as i16
        }
    }
}

impl IntegerLiteral for i32 {
    open spec fn spec_min() -> int {
        i32::MIN as int
    }

    open spec fn spec_max() -> int {
        i32::MAX as int
    }

    open spec fn spec_int(self) -> int {
        self as int
    }

    proof fn lemma_range() {
    }

    fn is_signed() -> (r: bool) {
        true
    }

    fn max_magnitude(negative: bool) -> (r: u128) {
        if negative {
            (i32::MAX as u128) + 1
        } else {
            i32::MAX as u128
        }
    }

    fn from_magnitude(negative: bool, m: u128) -> (r: Self) {
        if negative {
            if m == (i32::MAX as u128) + 1 {
                i32::MIN
            } else {
                -(m as i32)
            }
        } else {
            m as i32
        }
    }
}

impl IntegerLiteral for i64 {
    open spec fn spec_min() -> int {
        i64::MIN as int
    }

    open spec fn spec_max() -> int {
        i64::MAX as int
    }

    open spec fn spec_int(self) -> int {
        self as int
    }

    proof fn lemma_range() {
    }

    fn is_signed() -> (r: bool) {
        true
    }

    fn max_magnitude(negative: bool) -> (r: u128) {
        if negative {
            (i64::MAX as u128) + 1
        } else {
            i64::MAX as u128
        }
    }

    fn from_magnitude(negative: bool, m: u128) -> (r: Self) {
        if negative {
            if m == (i64::MAX as u128) + 1 {
                i64::MIN
            } else {
                -(m as i64)
            }
        } else {
            m as i64
        }
    }
}

impl IntegerLiteral for i128 {
    open spec fn spec_min() -> int {
        i128::MIN as int
    }

    open spec fn spec_max() -> int {
        i128::MAX as int
    }

    open spec fn spec_int(self) -> int {
        self as int
    }

    proof fn lemma_range() {
    }

    fn is_signed() -> (r: bool) {
        true
    }

    fn max_magnitude(negative: bool) -> (r: u128) {
        if negative {
            (i128::MAX as u128) + 1
        } else {
            i128::MAX as u128
        }
    }

    fn from_magnitude(negative: bool, m: u128) -> (r: Self) {
        if negative {
            if m == (i128::MAX as u128) + 1 {
                i128::MIN
            } else {
                -(m as i128)
            }
        } else {
            m as i128
        }
    }
}

impl IntegerLiteral for isize {
    open spec fn spec_min() -> int {
        isize::MIN as int
    }

    open spec fn spec_max() -> int {
        isize::MAX as int
    }

    open spec fn spec_int(self) -> int {
        self as int
    }

    proof fn lemma_range() {
    }

    fn is_signed() -> (r: bool) {
        true
    }

    fn max_magnitude(negative: bool) -> (r: u128) {
        if negative {
            (isize::MAX as u128) + 1
        } else {
            isize::MAX as u128
        }
    }

    fn from_magnitude(negative: bool, m: u128) -> (r: Self) {
        if negative {
            if m == (isize::MAX as u128) + 1 {
                isize::MIN
            } else {
                -(m as isize)
            }
        } else {
            m as isize
        }
    }
}


/// Reads an integer bound: the literal's text, preceded by a minus if one was
/// written. On failure, gives back the text that was read, for the message.
pub fn parse_integer_number<T: IntegerLiteral>(negative: bool, lit: &str) -> (r: Result<T, Vec<char>>)
    ensures
        match spec_parse_integer(spec_number_text(negative, lit@), T::spec_min(), T::spec_max()) {
            Some(v) => r matches Ok(x) && x.spec_int() == v,
            None => r matches Err(text) && text@ == spec_number_text(negative, lit@),
        },
{
    let text = number_text(negative, lit);
    match parse_integer::<T>(&text) {
        Some(x) => Ok(x),
        None => Err(text),
    }
}

} // verus!
