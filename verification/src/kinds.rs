use vstd::prelude::*;

use crate::any::{AnySanitizerKind, AnyValidatorKind};
use crate::decimal::{DecimalSanitizerKind, DecimalValidatorKind};
use crate::float::{FloatSanitizerKind, FloatValidatorKind};
use crate::integer::{IntegerSanitizerKind, IntegerValidatorKind};
use crate::raw_validation::ExtraValidateAttrKind;
use crate::text::chars_of;

verus! {

/// The spellings under which a kind of sanitizer or validator is recognised:
/// the letter cases of its words.
#[derive(Debug, Clone, Copy, PartialEq, Eq, Structural)]
pub enum Case {
    /// snake_case
    Snake,
    /// camelCase
    Camel,
    /// PascalCase
    Pascal,
    /// SCREAMING_SNAKE_CASE
    ScreamingSnake,
    /// kebab-case
    Kebab,
    /// SCREAMING-KEBAB-CASE
    ScreamingKebab,
    /// Title Case
    Title,
    /// lowercase
    Lower,
    /// UPPERCASE
    Upper,
}

pub open spec fn spec_all_cases() -> Seq<Case> {
    seq![
        Case::Snake,
        Case::Camel,
        Case::Pascal,
        Case::ScreamingSnake,
        Case::Kebab,
        Case::ScreamingKebab,
        Case::Title,
        Case::Lower,
        Case::Upper,
    ]
}

/// All cases, in the order in which they are tried.
pub fn all_cases() -> (r: Vec<Case>)
    ensures
        r@ == spec_all_cases(),
{
    vec![
        Case::Snake,
        Case::Camel,
        Case::Pascal,
        Case::ScreamingSnake,
        Case::Kebab,
        Case::ScreamingKebab,
        Case::Title,
        Case::Lower,
        Case::Upper,
    ]
}

pub open spec fn ascii_upper(c: char) -> char {
    if 'a' <= c && c <= 'z' {
        ((c as u32) - 32) as char
    } else {
        c
    }
}

pub open spec fn ascii_lower(c: char) -> char {
    if 'A' <= c && c <= 'Z' {
        ((c as u32) + 32) as char
    } else {
        c
    }
}

fn to_ascii_upper(c: char) -> (r: char)
    ensures
        r == ascii_upper(c),
{
    if 'a' <= c && c <= 'z' {
        let b: u8 = c as u8;
        let u: u8 = b - 32;
        u as char
    } else {
        c
    }
}

fn to_ascii_lower(c: char) -> (r: char)
    ensures
        r == ascii_lower(c),
{
    if 'A' <= c && c <= 'Z' {
        let b: u8 = c as u8;
        let u: u8 = b + 32;
        u as char
    } else {
        c
    }
}

/// How the letters of a word are written in a case: all lower, all upper,
/// or capitalised.
pub open spec fn spec_word_in_case(word: Seq<char>, case: Case, first: bool) -> Seq<char> {
    match case {
        Case::Snake | Case::Kebab | Case::Lower => word.map_values(|c: char| ascii_lower(c)),
        Case::ScreamingSnake | Case::ScreamingKebab | Case::Upper => word.map_values(|c: char| ascii_upper(c)),
        Case::Pascal | Case::Title => spec_capitalized(word),
        Case::Camel => if first {
            word.map_values(|c: char| ascii_lower(c))
        } else {
            spec_capitalized(word)
        },
    }
}

/// First letter upper, the rest lower.
pub open spec fn spec_capitalized(word: Seq<char>) -> Seq<char> {
    Seq::new(word.len(), |i: int| if i == 0 { ascii_upper(word[i]) } else { ascii_lower(word[i]) })
}

/// The separator between the words of a case, if any.
pub open spec fn spec_separator(case: Case) -> Option<char> {
    match case {
        Case::Snake | Case::ScreamingSnake => Some('_'),
        Case::Kebab | Case::ScreamingKebab => Some('-'),
        Case::Title => Some(' '),
        _ => None,
    }
}

/// The spelling of the first `n` words in a case.
pub open spec fn spec_spelling_prefix(words: Seq<Seq<char>>, case: Case, n: nat) -> Seq<char>
    decreases n,
{
    if n == 0 {
        Seq::empty()
    } else {
        let before = spec_spelling_prefix(words, case, (n - 1) as nat);
        let sep = if n > 1 && spec_separator(case) is Some {
            seq![spec_separator(case)->0]
        } else {
            Seq::empty()
        };
        before + sep + spec_word_in_case(words[n - 1], case, n == 1)
    }
}

/// The spelling of words in a case, e.g. `greater_or_equal` or `GreaterOrEqual`.
pub open spec fn spec_spelling(words: Seq<Seq<char>>, case: Case) -> Seq<char> {
    spec_spelling_prefix(words, case, words.len())
}

fn separator(case: Case) -> (r: Option<char>)
    ensures
        r == spec_separator(case),
{
    match case {
        Case::Snake | Case::ScreamingSnake => Some('_'),
        Case::Kebab | Case::ScreamingKebab => Some('-'),
        Case::Title => Some(' '),
        _ => None,
    }
}

/// Writes words in a case.
pub fn spelling(words: &Vec<&'static str>, case: Case) -> (r: Vec<char>)
    ensures
        r@ == spec_spelling(words@.map_values(|w: &'static str| w@), case),
{
    let ghost ws = words@.map_values(|w: &'static str| w@);
    let mut out: Vec<char> = Vec::new();
    let mut i: usize = 0;
    while i < words.len()
        invariant
            i <= words@.len(),
            ws == words@.map_values(|w: &'static str| w@),
            out@ == spec_spelling_prefix(ws, case, i as nat),
        decreases words@.len() - i,
    {
        let ghost before = out@;
        if i > 0 {
            if let Some(sep) = separator(case) {
                out.push(sep);
            }
        }
        let ghost with_sep = out@;
        let ghost first: bool = i == 0;
        let word = chars_of(words[i]);
        let mut j: usize = 0;
        while j < word.len()
            invariant
                j <= word@.len(),
                word@ == ws[i as int],
                first == (i == 0),
                out@.len() == with_sep.len() + j,
                out@.subrange(0, with_sep.len() as int) == with_sep,
                forall|k: int| 0 <= k < j ==> out@[with_sep.len() + k] == #[trigger] spec_word_in_case(word@, case, first)[k],
            decreases word@.len() - j,
        {
            let c = word[j];
            let d = match case {
                Case::Snake | Case::Kebab | Case::Lower => to_ascii_lower(c),
                Case::ScreamingSnake | Case::ScreamingKebab | Case::Upper => to_ascii_upper(c),
                Case::Pascal | Case::Title => if j == 0 { to_ascii_upper(c) } else { to_ascii_lower(c) },
                Case::Camel => if i == 0 || j > 0 { to_ascii_lower(c) } else { to_ascii_upper(c) },
            };
            out.push(d);
            j = j + 1;
        }
        proof {
            let w = spec_word_in_case(ws[i as int], case, i == 0);
            assert(out@ =~= with_sep + w);
            let sep = if i + 1 > 1 && spec_separator(case) is Some {
                seq![spec_separator(case)->0]
            } else {
                Seq::empty()
            };
            assert(with_sep =~= before + sep);
        }
        i = i + 1;
    }
    out
}


/// Every case is one of the nine listed by `spec_all_cases`.
pub proof fn lemma_all_cases_complete(c: Case)
    ensures
        spec_all_cases().contains(c),
{
    let all = spec_all_cases();
    let i: int = match c {
        Case::Snake => 0,
        Case::Camel => 1,
        Case::Pascal => 2,
        Case::ScreamingSnake => 3,
        Case::Kebab => 4,
        Case::ScreamingKebab => 5,
        Case::Title => 6,
        Case::Lower => 7,
        Case::Upper => 8,
    };
    assert(all[i] == c);
}

/// A kind of sanitizer, validator or validation attribute, as named by the
/// user: each kind has a Rust identifier (e.g. `GreaterOrEqual`) made of
/// words (`greater`, `or`, `equal`).
pub trait KindName: Sized + Copy {
    /// All kinds, in declaration order.
    spec fn spec_all() -> Seq<Self>;

    /// The identifier of a kind, as written in its declaration.
    spec fn spec_ident(self) -> Seq<char>;

    /// The words of a kind's identifier, in lower case.
    spec fn spec_words(self) -> Seq<Seq<char>>;

    fn all() -> (r: Vec<Self>)
        ensures
            r@ == Self::spec_all(),
    ;

    fn ident(self) -> (r: &'static str)
        ensures
            r@ == self.spec_ident(),
    ;

    fn words(self) -> (r: Vec<&'static str>)
        ensures
            r@.map_values(|w: &'static str| w@) == self.spec_words(),
    ;
}

/// The name under which a kind is displayed and required: its words in
/// snake case.
pub open spec fn spec_display_name<K: KindName>(k: K) -> Seq<char> {
    spec_spelling(k.spec_words(), Case::Snake)
}

/// Tells whether `name` spells kind `k`: by its identifier, or else by its
/// words in one of the cases.
pub open spec fn spec_names<K: KindName>(k: K, name: Seq<char>, by_ident: bool) -> bool {
    if by_ident {
        k.spec_ident() == name
    } else {
        exists|c: Case| #[trigger] spec_spelling(k.spec_words(), c) == name
    }
}

/// The first kind from position `i` on that `name` spells.
pub open spec fn spec_find_kind<K: KindName>(all: Seq<K>, name: Seq<char>, by_ident: bool, i: int) -> Option<K>
    decreases all.len() - i,
{
    if i < 0 || i >= all.len() {
        None
    } else if spec_names(all[i], name, by_ident) {
        Some(all[i])
    } else {
        spec_find_kind(all, name, by_ident, i + 1)
    }
}

/// The kind a name stands for: the first kind whose identifier is the name,
/// else the first kind one of whose spellings is the name.
pub open spec fn spec_kind_from_str<K: KindName>(name: Seq<char>) -> Option<K> {
    match spec_find_kind(K::spec_all(), name, true, 0) {
        Some(k) => Some(k),
        None => spec_find_kind(K::spec_all(), name, false, 0),
    }
}

/// Compares two sequences of characters.
fn chars_eq(a: &Vec<char>, b: &Vec<char>) -> (r: bool)
    ensures
        r == (a@ == b@),
{
    if a.len() != b.len() {
        return false;
    }
    let mut i: usize = 0;
    while i < a.len()
        invariant
            a@.len() == b@.len(),
            i <= a@.len(),
            forall|j: int| 0 <= j < i ==> a@[j] == b@[j],
        decreases a@.len() - i,
    {
        if a[i] != b[i] {
            return false;
        }
        i = i + 1;
    }
    assert(a@ =~= b@);
    true
}

/// Tells whether `name` is one of the spellings of a kind's words.
fn spelled_in_some_case<K: KindName>(k: K, name: &Vec<char>) -> (r: bool)
    ensures
        r == spec_names(k, name@, false),
{
    let words = k.words();
    let cases = all_cases();
    let mut i: usize = 0;
    while i < cases.len()
        invariant
            cases@ == spec_all_cases(),
            words@.map_values(|w: &'static str| w@) == k.spec_words(),
            i <= cases@.len(),
            forall|j: int| 0 <= j < i ==> spec_spelling(k.spec_words(), #[trigger] cases@[j]) != name@,
        decreases cases@.len() - i,
    {
        let s = spelling(&words, cases[i]);
        if chars_eq(&s, name) {
            return true;
        }
        i = i + 1;
    }
    proof {
        assert forall|c: Case| spec_spelling(k.spec_words(), c) != name@ by {
            lemma_all_cases_complete(c);
            let j = choose|j: int| 0 <= j < cases@.len() && cases@[j] == c;
            assert(spec_spelling(k.spec_words(), cases@[j]) != name@);
        }
    }
    false
}

/// Tells whether `name` spells kind `k` (see `spec_names`).
fn names<K: KindName>(k: K, name: &Vec<char>, by_ident: bool) -> (r: bool)
    ensures
        r == spec_names(k, name@, by_ident),
{
    if by_ident {
        let ident = chars_of(k.ident());
        chars_eq(&ident, name)
    } else {
        spelled_in_some_case(k, name)
    }
}

fn find_kind<K: KindName>(all: &Vec<K>, name: &Vec<char>, by_ident: bool) -> (r: Option<K>)
    ensures
        r == spec_find_kind(all@, name@, by_ident, 0),
{
    let mut i: usize = 0;
    while i < all.len()
        invariant
            i <= all@.len(),
            spec_find_kind(all@, name@, by_ident, 0) == spec_find_kind(all@, name@, by_ident, i as int),
        decreases all@.len() - i,
    {
        let k = all[i];
        if names(k, name, by_ident) {
            return Some(k);
        }
        i = i + 1;
    }
    None
}

/// Reads a kind from its name the way a derived `FromStr` of a kind enum
/// does: the identifier first, then any of its spellings.
pub fn kind_from_str<K: KindName>(name: &str) -> (r: Option<K>)
    ensures
        r == spec_kind_from_str::<K>(name@),
{
    let chars = chars_of(name);
    let all = K::all();
    match find_kind(&all, &chars, true) {
        Some(k) => Some(k),
        None => find_kind(&all, &chars, false),
    }
}

/// Why a name is not accepted as a kind.
#[derive(Debug, PartialEq, Eq, Structural)]
pub enum KindParseError<K> {
    /// The name spells a kind, but not in snake case.
    DidYouMean(K),
    /// The name spells no kind.
    Unknown,
}

/// Reads a kind of sanitizer or validator; only the snake-case display name
/// is accepted.
pub open spec fn spec_parse_kind<K: KindName>(name: Seq<char>) -> Result<K, KindParseError<K>> {
    match spec_kind_from_str::<K>(name) {
        Some(k) => if spec_display_name(k) == name {
            Ok(k)
        } else {
            Err(KindParseError::DidYouMean(k))
        },
        None => Err(KindParseError::Unknown),
    }
}

/// The display name of a kind, in snake case.
pub fn display_name<K: KindName>(k: K) -> (r: Vec<char>)
    ensures
        r@ == spec_display_name(k),
{
    let words = k.words();
    spelling(&words, Case::Snake)
}

/// Reads a kind of sanitizer or validator from the identifier the user wrote.
pub fn parse_kind<K: KindName>(name: &str) -> (r: Result<K, KindParseError<K>>)
    ensures
        r == spec_parse_kind::<K>(name@),
{
    match kind_from_str::<K>(name) {
        Some(k) => {
            let strict = display_name(k);
            let chars = chars_of(name);
            if chars_eq(&strict, &chars) {
                Ok(k)
            } else {
                Err(KindParseError::DidYouMean(k))
            }
        },
        None => Err(KindParseError::Unknown),
    }
}

/// The display names of all kinds, in declaration order, except that of the
/// placeholder kind `phantom`: what an error lists as the possible values.
pub open spec fn spec_possible_values<K: KindName>() -> Seq<Seq<char>> {
    K::spec_all().map_values(|k: K| spec_display_name(k)).filter(|n: Seq<char>| n != "phantom"@)
}

/// Lists the names a user may write for a kind (see `spec_possible_values`).
pub fn possible_values<K: KindName>() -> (r: Vec<Vec<char>>)
    ensures
        r@.map_values(|v: Vec<char>| v@) == spec_possible_values::<K>(),
{
    let all = K::all();
    let phantom = chars_of("phantom");
    let ghost names = all@.map_values(|k: K| spec_display_name(k));
    let mut out: Vec<Vec<char>> = Vec::new();
    let mut i: usize = 0;
    while i < all.len()
        invariant
            all@ == K::spec_all(),
            phantom@ == "phantom"@,
            names == all@.map_values(|k: K| spec_display_name(k)),
            i <= all@.len(),
            out@.map_values(|v: Vec<char>| v@) == names.subrange(0, i as int).filter(|n: Seq<char>| n != "phantom"@),
        decreases all@.len() - i,
    {
        let name = display_name(all[i]);
        proof {
            assert(names.subrange(0, i + 1) =~= names.subrange(0, i as int).push(name@));
            names.subrange(0, i as int).lemma_filter_push(name@, |n: Seq<char>| n != "phantom"@);
        }
        if !chars_eq(&name, &phantom) {
            out.push(name);
        }
        i = i + 1;
        assert(out@.map_values(|v: Vec<char>| v@) =~= names.subrange(0, i as int).filter(|n: Seq<char>| n != "phantom"@));
    }
    assert(names.subrange(0, all@.len() as int) =~= names);
    out
}

/// The total length of the first `n` words.
pub open spec fn words_len(words: Seq<Seq<char>>, n: nat) -> nat
    decreases n,
{
    if n == 0 {
        0
    } else {
        words_len(words, (n - 1) as nat) + words[n - 1].len()
    }
}

proof fn lemma_word_in_case_len(word: Seq<char>, case: Case, first: bool)
    ensures
        spec_word_in_case(word, case, first).len() == word.len(),
{
}

/// A spelling is as long as its words, plus one separator between two words
/// in the cases that have one.
proof fn lemma_spelling_prefix_len(words: Seq<Seq<char>>, case: Case, n: nat)
    requires
        n <= words.len(),
    ensures
        spec_spelling_prefix(words, case, n).len() == words_len(words, n) + (if n > 0 && spec_separator(case) is Some {
            n - 1
        } else {
            0
        }),
    decreases n,
{
    if n > 0 {
        lemma_spelling_prefix_len(words, case, (n - 1) as nat);
        lemma_word_in_case_len(words[n - 1], case, n == 1);
    }
}

/// The first letter of a spelling in snake case is that of the first word,
/// in lower case.
proof fn lemma_snake_first_char(words: Seq<Seq<char>>, n: nat)
    requires
        1 <= n <= words.len(),
        words[0].len() > 0,
    ensures
        spec_spelling_prefix(words, Case::Snake, n).len() > 0,
        spec_spelling_prefix(words, Case::Snake, n)[0] == ascii_lower(words[0][0]),
    decreases n,
{
    lemma_spelling_prefix_len(words, Case::Snake, n);
    let before = spec_spelling_prefix(words, Case::Snake, (n - 1) as nat);
    let sep: Seq<char> = if n > 1 && spec_separator(Case::Snake) is Some {
        seq![spec_separator(Case::Snake)->0]
    } else {
        Seq::empty()
    };
    let w = spec_word_in_case(words[n - 1], Case::Snake, n == 1);
    assert(spec_spelling_prefix(words, Case::Snake, n) == before + sep + w);
    if n > 1 {
        lemma_snake_first_char(words, (n - 1) as nat);
        lemma_spelling_prefix_len(words, Case::Snake, (n - 1) as nat);
        assert((before + sep + w)[0] == before[0]);
    } else {
        assert(before.len() == 0);
        assert(sep.len() == 0);
        assert((before + sep + w)[0] == w[0]);
    }
}

/// No spelling of `words`, in any case, has length `l`.
pub open spec fn no_spelling_of_len(words: Seq<Seq<char>>, l: nat) -> bool {
    forall|c: Case| (#[trigger] spec_spelling(words, c)).len() != l
}

proof fn lemma_no_spelling_of_len(words: Seq<Seq<char>>, l: nat)
    requires
        words_len(words, words.len()) != l,
        words.len() == 0 || words_len(words, words.len()) + words.len() - 1 != l,
    ensures
        no_spelling_of_len(words, l),
{
    assert forall|c: Case| (#[trigger] spec_spelling(words, c)).len() != l by {
        lemma_spelling_prefix_len(words, c, words.len());
    }
}

proof fn lemma_find_none_by_ident<K: KindName>(all: Seq<K>, name: Seq<char>, i: int)
    requires
        0 <= i,
        forall|j: int| 0 <= j < all.len() ==> (#[trigger] all[j]).spec_ident() != name,
    ensures
        spec_find_kind(all, name, true, i) is None,
    decreases all.len() - i,
{
    if i < all.len() {
        lemma_find_none_by_ident(all, name, i + 1);
    }
}

proof fn lemma_find_by_spelling<K: KindName>(all: Seq<K>, name: Seq<char>, i: int, target: int)
    requires
        0 <= i <= target < all.len(),
        forall|j: int| i <= j < target ==> no_spelling_of_len((#[trigger] all[j]).spec_words(), name.len()),
        spec_spelling(all[target].spec_words(), Case::Snake) == name,
    ensures
        spec_find_kind(all, name, false, i) == Some(all[target]),
    decreases target - i,
{
    if i < target {
        assert(no_spelling_of_len(all[i].spec_words(), name.len()));
        if spec_names(all[i], name, false) {
            let c = choose|c: Case| #[trigger] spec_spelling(all[i].spec_words(), c) == name;
            assert(spec_spelling(all[i].spec_words(), c).len() != name.len());
        }
        lemma_find_by_spelling(all, name, i + 1, target);
    } else {
        assert(spec_spelling(all[target].spec_words(), Case::Snake) == name);
    }
}

/// Sufficient conditions for a kind to be read back from its display name:
/// no identifier is that name, and no kind listed before it has a spelling
/// of that length.
proof fn lemma_round_trip_of<K: KindName>(k: K, idx: int)
    requires
        0 <= idx < K::spec_all().len(),
        K::spec_all()[idx] == k,
        forall|j: int| 0 <= j < K::spec_all().len() ==> (#[trigger] K::spec_all()[j]).spec_ident() != spec_display_name(k),
        forall|j: int|
            0 <= j < idx ==> no_spelling_of_len((#[trigger] K::spec_all()[j]).spec_words(), spec_display_name(k).len()),
    ensures
        spec_parse_kind::<K>(spec_display_name(k)) == Ok::<K, KindParseError<K>>(k),
{
    let all = K::spec_all();
    let name = spec_display_name(k);
    lemma_find_none_by_ident(all, name, 0);
    lemma_find_by_spelling(all, name, 0, idx);
}

impl KindName for IntegerValidatorKind {
    open spec fn spec_all() -> Seq<Self> {
        seq![
            IntegerValidatorKind::Greater,
            IntegerValidatorKind::GreaterOrEqual,
            IntegerValidatorKind::Less,
            IntegerValidatorKind::LessOrEqual,
            IntegerValidatorKind::Predicate,
        ]
    }

    open spec fn spec_ident(self) -> Seq<char> {
        match self {
            IntegerValidatorKind::Greater => "Greater"@,
            IntegerValidatorKind::GreaterOrEqual => "GreaterOrEqual"@,
            IntegerValidatorKind::Less => "Less"@,
            IntegerValidatorKind::LessOrEqual => "LessOrEqual"@,
            IntegerValidatorKind::Predicate => "Predicate"@,
        }
    }

    open spec fn spec_words(self) -> Seq<Seq<char>> {
        match self {
            IntegerValidatorKind::Greater => seq!["greater"@],
            IntegerValidatorKind::GreaterOrEqual => seq!["greater"@, "or"@, "equal"@],
            IntegerValidatorKind::Less => seq!["less"@],
            IntegerValidatorKind::LessOrEqual => seq!["less"@, "or"@, "equal"@],
            IntegerValidatorKind::Predicate => seq!["predicate"@],
        }
    }

    fn all() -> (r: Vec<Self>) {
        let r = vec![
            IntegerValidatorKind::Greater,
            IntegerValidatorKind::GreaterOrEqual,
            IntegerValidatorKind::Less,
            IntegerValidatorKind::LessOrEqual,
            IntegerValidatorKind::Predicate,
        ];
        assert(r@ =~= Self::spec_all());
        r
    }

    fn ident(self) -> (r: &'static str) {
        match self {
            IntegerValidatorKind::Greater => "Greater",
            IntegerValidatorKind::GreaterOrEqual => "GreaterOrEqual",
            IntegerValidatorKind::Less => "Less",
            IntegerValidatorKind::LessOrEqual => "LessOrEqual",
            IntegerValidatorKind::Predicate => "Predicate",
        }
    }

    fn words(self) -> (r: Vec<&'static str>) {
        let r = match self {
            IntegerValidatorKind::Greater => vec!["greater"],
            IntegerValidatorKind::GreaterOrEqual => vec!["greater", "or", "equal"],
            IntegerValidatorKind::Less => vec!["less"],
            IntegerValidatorKind::LessOrEqual => vec!["less", "or", "equal"],
            IntegerValidatorKind::Predicate => vec!["predicate"],
        };
        assert(r@.map_values(|w: &'static str| w@) =~= self.spec_words());
        r
    }
}


impl KindName for IntegerSanitizerKind {
    open spec fn spec_all() -> Seq<Self> {
        seq![
            IntegerSanitizerKind::With,
            IntegerSanitizerKind::_Phantom,
        ]
    }

    open spec fn spec_ident(self) -> Seq<char> {
        match self {
            IntegerSanitizerKind::With => "With"@,
            IntegerSanitizerKind::_Phantom => "_Phantom"@,
        }
    }

    open spec fn spec_words(self) -> Seq<Seq<char>> {
        match self {
            IntegerSanitizerKind::With => seq!["with"@],
            IntegerSanitizerKind::_Phantom => seq!["phantom"@],
        }
    }

    fn all() -> (r: Vec<Self>) {
        let r = vec![
            IntegerSanitizerKind::With,
            IntegerSanitizerKind::_Phantom,
        ];
        assert(r@ =~= Self::spec_all());
        r
    }

    fn ident(self) -> (r: &'static str) {
        match self {
            IntegerSanitizerKind::With => "With",
            IntegerSanitizerKind::_Phantom => "_Phantom",
        }
    }

    fn words(self) -> (r: Vec<&'static str>) {
        let r = match self {
            IntegerSanitizerKind::With => vec!["with"],
            IntegerSanitizerKind::_Phantom => vec!["phantom"],
        };
        assert(r@.map_values(|w: &'static str| w@) =~= self.spec_words());
        r
    }
}

impl KindName for FloatSanitizerKind {
    open spec fn spec_all() -> Seq<Self> {
        seq![
            FloatSanitizerKind::With,
            FloatSanitizerKind::_Phantom,
        ]
    }

    open spec fn spec_ident(self) -> Seq<char> {
        match self {
            FloatSanitizerKind::With => "With"@,
            FloatSanitizerKind::_Phantom => "_Phantom"@,
        }
    }

    open spec fn spec_words(self) -> Seq<Seq<char>> {
        match self {
            FloatSanitizerKind::With => seq!["with"@],
            FloatSanitizerKind::_Phantom => seq!["phantom"@],
        }
    }

    fn all() -> (r: Vec<Self>) {
        let r = vec![
            FloatSanitizerKind::With,
            FloatSanitizerKind::_Phantom,
        ];
        assert(r@ =~= Self::spec_all());
        r
    }

    fn ident(self) -> (r: &'static str) {
        match self {
            FloatSanitizerKind::With => "With",
            FloatSanitizerKind::_Phantom => "_Phantom",
        }
    }

    fn words(self) -> (r: Vec<&'static str>) {
        let r = match self {
            FloatSanitizerKind::With => vec!["with"],
            FloatSanitizerKind::_Phantom => vec!["phantom"],
        };
        assert(r@.map_values(|w: &'static str| w@) =~= self.spec_words());
        r
    }
}

impl KindName for FloatValidatorKind {
    open spec fn spec_all() -> Seq<Self> {
        seq![
            FloatValidatorKind::Greater,
            FloatValidatorKind::GreaterOrEqual,
            FloatValidatorKind::Less,
            FloatValidatorKind::LessOrEqual,
            FloatValidatorKind::Predicate,
            FloatValidatorKind::Finite,
        ]
    }

    open spec fn spec_ident(self) -> Seq<char> {
        match self {
            FloatValidatorKind::Greater => "Greater"@,
            FloatValidatorKind::GreaterOrEqual => "GreaterOrEqual"@,
            FloatValidatorKind::Less => "Less"@,
            FloatValidatorKind::LessOrEqual => "LessOrEqual"@,
            FloatValidatorKind::Predicate => "Predicate"@,
            FloatValidatorKind::Finite => "Finite"@,
        }
    }

    open spec fn spec_words(self) -> Seq<Seq<char>> {
        match self {
            FloatValidatorKind::Greater => seq!["greater"@],
            FloatValidatorKind::GreaterOrEqual => seq!["greater"@, "or"@, "equal"@],
            FloatValidatorKind::Less => seq!["less"@],
            FloatValidatorKind::LessOrEqual => seq!["less"@, "or"@, "equal"@],
            FloatValidatorKind::Predicate => seq!["predicate"@],
            FloatValidatorKind::Finite => seq!["finite"@],
        }
    }

    fn all() -> (r: Vec<Self>) {
        let r = vec![
            FloatValidatorKind::Greater,
            FloatValidatorKind::GreaterOrEqual,
            FloatValidatorKind::Less,
            FloatValidatorKind::LessOrEqual,
            FloatValidatorKind::Predicate,
            FloatValidatorKind::Finite,
        ];
        assert(r@ =~= Self::spec_all());
        r
    }

    fn ident(self) -> (r: &'static str) {
        match self {
            FloatValidatorKind::Greater => "Greater",
            FloatValidatorKind::GreaterOrEqual => "GreaterOrEqual",
            FloatValidatorKind::Less => "Less",
            FloatValidatorKind::LessOrEqual => "LessOrEqual",
            FloatValidatorKind::Predicate => "Predicate",
            FloatValidatorKind::Finite => "Finite",
        }
    }

    fn words(self) -> (r: Vec<&'static str>) {
        let r = match self {
            FloatValidatorKind::Greater => vec!["greater"],
            FloatValidatorKind::GreaterOrEqual => vec!["greater", "or", "equal"],
            FloatValidatorKind::Less => vec!["less"],
            FloatValidatorKind::LessOrEqual => vec!["less", "or", "equal"],
            FloatValidatorKind::Predicate => vec!["predicate"],
            FloatValidatorKind::Finite => vec!["finite"],
        };
        assert(r@.map_values(|w: &'static str| w@) =~= self.spec_words());
        r
    }
}

impl KindName for DecimalSanitizerKind {
    open spec fn spec_all() -> Seq<Self> {
        seq![
            DecimalSanitizerKind::With,
            DecimalSanitizerKind::_Phantom,
        ]
    }

    open spec fn spec_ident(self) -> Seq<char> {
        match self {
            DecimalSanitizerKind::With => "With"@,
            DecimalSanitizerKind::_Phantom => "_Phantom"@,
        }
    }

    open spec fn spec_words(self) -> Seq<Seq<char>> {
        match self {
            DecimalSanitizerKind::With => seq!["with"@],
            DecimalSanitizerKind::_Phantom => seq!["phantom"@],
        }
    }

    fn all() -> (r: Vec<Self>) {
        let r = vec![
            DecimalSanitizerKind::With,
            DecimalSanitizerKind::_Phantom,
        ];
        assert(r@ =~= Self::spec_all());
        r
    }

    fn ident(self) -> (r: &'static str) {
        match self {
            DecimalSanitizerKind::With => "With",
            DecimalSanitizerKind::_Phantom => "_Phantom",
        }
    }

    fn words(self) -> (r: Vec<&'static str>) {
        let r = match self {
            DecimalSanitizerKind::With => vec!["with"],
            DecimalSanitizerKind::_Phantom => vec!["phantom"],
        };
        assert(r@.map_values(|w: &'static str| w@) =~= self.spec_words());
        r
    }
}

impl KindName for DecimalValidatorKind {
    open spec fn spec_all() -> Seq<Self> {
        seq![
            DecimalValidatorKind::Greater,
            DecimalValidatorKind::GreaterOrEqual,
            DecimalValidatorKind::Less,
            DecimalValidatorKind::LessOrEqual,
            DecimalValidatorKind::Predicate,
        ]
    }

    open spec fn spec_ident(self) -> Seq<char> {
        match self {
            DecimalValidatorKind::Greater => "Greater"@,
            DecimalValidatorKind::GreaterOrEqual => "GreaterOrEqual"@,
            DecimalValidatorKind::Less => "Less"@,
            DecimalValidatorKind::LessOrEqual => "LessOrEqual"@,
            DecimalValidatorKind::Predicate => "Predicate"@,
        }
    }

    open spec fn spec_words(self) -> Seq<Seq<char>> {
        match self {
            DecimalValidatorKind::Greater => seq!["greater"@],
            DecimalValidatorKind::GreaterOrEqual => seq!["greater"@, "or"@, "equal"@],
            DecimalValidatorKind::Less => seq!["less"@],
            DecimalValidatorKind::LessOrEqual => seq!["less"@, "or"@, "equal"@],
            DecimalValidatorKind::Predicate => seq!["predicate"@],
        }
    }

    fn all() -> (r: Vec<Self>) {
        let r = vec![
            DecimalValidatorKind::Greater,
            DecimalValidatorKind::GreaterOrEqual,
            DecimalValidatorKind::Less,
            DecimalValidatorKind::LessOrEqual,
            DecimalValidatorKind::Predicate,
        ];
        assert(r@ =~= Self::spec_all());
        r
    }

    fn ident(self) -> (r: &'static str) {
        match self {
            DecimalValidatorKind::Greater => "Greater",
            DecimalValidatorKind::GreaterOrEqual => "GreaterOrEqual",
            DecimalValidatorKind::Less => "Less",
            DecimalValidatorKind::LessOrEqual => "LessOrEqual",
            DecimalValidatorKind::Predicate => "Predicate",
        }
    }

    fn words(self) -> (r: Vec<&'static str>) {
        let r = match self {
            DecimalValidatorKind::Greater => vec!["greater"],
            DecimalValidatorKind::GreaterOrEqual => vec!["greater", "or", "equal"],
            DecimalValidatorKind::Less => vec!["less"],
            DecimalValidatorKind::LessOrEqual => vec!["less", "or", "equal"],
            DecimalValidatorKind::Predicate => vec!["predicate"],
        };
        assert(r@.map_values(|w: &'static str| w@) =~= self.spec_words());
        r
    }
}

impl KindName for AnySanitizerKind {
    open spec fn spec_all() -> Seq<Self> {
        seq![
            AnySanitizerKind::With,
        ]
    }

    open spec fn spec_ident(self) -> Seq<char> {
        match self {
            AnySanitizerKind::With => "With"@,
        }
    }

    open spec fn spec_words(self) -> Seq<Seq<char>> {
        match self {
            AnySanitizerKind::With => seq!["with"@],
        }
    }

    fn all() -> (r: Vec<Self>) {
        let r = vec![
            AnySanitizerKind::With,
        ];
        assert(r@ =~= Self::spec_all());
        r
    }

    fn ident(self) -> (r: &'static str) {
        match self {
            AnySanitizerKind::With => "With",
        }
    }

    fn words(self) -> (r: Vec<&'static str>) {
        let r = match self {
            AnySanitizerKind::With => vec!["with"],
        };
        assert(r@.map_values(|w: &'static str| w@) =~= self.spec_words());
        r
    }
}

impl KindName for AnyValidatorKind {
    open spec fn spec_all() -> Seq<Self> {
        seq![
            AnyValidatorKind::Predicate,
        ]
    }

    open spec fn spec_ident(self) -> Seq<char> {
        match self {
            AnyValidatorKind::Predicate => "Predicate"@,
        }
    }

    open spec fn spec_words(self) -> Seq<Seq<char>> {
        match self {
            AnyValidatorKind::Predicate => seq!["predicate"@],
        }
    }

    fn all() -> (r: Vec<Self>) {
        let r = vec![
            AnyValidatorKind::Predicate,
        ];
        assert(r@ =~= Self::spec_all());
        r
    }

    fn ident(self) -> (r: &'static str) {
        match self {
            AnyValidatorKind::Predicate => "Predicate",
        }
    }

    fn words(self) -> (r: Vec<&'static str>) {
        let r = match self {
            AnyValidatorKind::Predicate => vec!["predicate"],
        };
        assert(r@.map_values(|w: &'static str| w@) =~= self.spec_words());
        r
    }
}

impl KindName for ExtraValidateAttrKind {
    open spec fn spec_all() -> Seq<Self> {
        seq![
            ExtraValidateAttrKind::Error,
            ExtraValidateAttrKind::With,
        ]
    }

    open spec fn spec_ident(self) -> Seq<char> {
        match self {
            ExtraValidateAttrKind::Error => "Error"@,
            ExtraValidateAttrKind::With => "With"@,
        }
    }

    open spec fn spec_words(self) -> Seq<Seq<char>> {
        match self {
            ExtraValidateAttrKind::Error => seq!["error"@],
            ExtraValidateAttrKind::With => seq!["with"@],
        }
    }

    fn all() -> (r: Vec<Self>) {
        let r = vec![
            ExtraValidateAttrKind::Error,
            ExtraValidateAttrKind::With,
        ];
        assert(r@ =~= Self::spec_all());
        r
    }

    fn ident(self) -> (r: &'static str) {
        match self {
            ExtraValidateAttrKind::Error => "Error",
            ExtraValidateAttrKind::With => "With",
        }
    }

    fn words(self) -> (r: Vec<&'static str>) {
        let r = match self {
            ExtraValidateAttrKind::Error => vec!["error"],
            ExtraValidateAttrKind::With => vec!["with"],
        };
        assert(r@.map_values(|w: &'static str| w@) =~= self.spec_words());
        r
    }
}


/// Every kind of `IntegerValidatorKind` is read back from its snake-case name.
pub proof fn lemma_integer_validator_kind_round_trip(k: IntegerValidatorKind)
    ensures
        spec_parse_kind::<IntegerValidatorKind>(spec_display_name(k)) == Ok::<IntegerValidatorKind, KindParseError<IntegerValidatorKind>>(k),
{
    reveal_strlit("Greater");
    reveal_strlit("GreaterOrEqual");
    reveal_strlit("Less");
    reveal_strlit("LessOrEqual");
    reveal_strlit("Predicate");
    reveal_strlit("equal");
    reveal_strlit("greater");
    reveal_strlit("less");
    reveal_strlit("or");
    reveal_strlit("predicate");
    reveal_with_fuel(words_len, 4);
    let all = IntegerValidatorKind::spec_all();
    let name = spec_display_name(k);
    let ws = k.spec_words();
    lemma_spelling_prefix_len(ws, Case::Snake, ws.len());
    lemma_snake_first_char(ws, ws.len());
    assert forall|j: int| 0 <= j < all.len() implies (#[trigger] all[j]).spec_ident() != name by {
        if all[j].spec_ident() == name {
            assert(all[j].spec_ident()[0] == name[0]);
        }
    }
    match k {
        IntegerValidatorKind::Greater => {
            lemma_round_trip_of(k, 0);
        },
        IntegerValidatorKind::GreaterOrEqual => {
            lemma_no_spelling_of_len(all[0].spec_words(), name.len());
            lemma_round_trip_of(k, 1);
        },
        IntegerValidatorKind::Less => {
            lemma_no_spelling_of_len(all[0].spec_words(), name.len());
            lemma_no_spelling_of_len(all[1].spec_words(), name.len());
            lemma_round_trip_of(k, 2);
        },
        IntegerValidatorKind::LessOrEqual => {
            lemma_no_spelling_of_len(all[0].spec_words(), name.len());
            lemma_no_spelling_of_len(all[1].spec_words(), name.len());
            lemma_no_spelling_of_len(all[2].spec_words(), name.len());
            lemma_round_trip_of(k, 3);
        },
        IntegerValidatorKind::Predicate => {
            lemma_no_spelling_of_len(all[0].spec_words(), name.len());
            lemma_no_spelling_of_len(all[1].spec_words(), name.len());
            lemma_no_spelling_of_len(all[2].spec_words(), name.len());
            lemma_no_spelling_of_len(all[3].spec_words(), name.len());
            lemma_round_trip_of(k, 4);
        },
    }
}

/// Every kind of `IntegerSanitizerKind` is read back from its snake-case name.
pub proof fn lemma_integer_sanitizer_kind_round_trip(k: IntegerSanitizerKind)
    ensures
        spec_parse_kind::<IntegerSanitizerKind>(spec_display_name(k)) == Ok::<IntegerSanitizerKind, KindParseError<IntegerSanitizerKind>>(k),
{
    reveal_strlit("With");
    reveal_strlit("_Phantom");
    reveal_strlit("phantom");
    reveal_strlit("with");
    reveal_with_fuel(words_len, 4);
    let all = IntegerSanitizerKind::spec_all();
    let name = spec_display_name(k);
    let ws = k.spec_words();
    lemma_spelling_prefix_len(ws, Case::Snake, ws.len());
    lemma_snake_first_char(ws, ws.len());
    assert forall|j: int| 0 <= j < all.len() implies (#[trigger] all[j]).spec_ident() != name by {
        if all[j].spec_ident() == name {
            assert(all[j].spec_ident()[0] == name[0]);
        }
    }
    match k {
        IntegerSanitizerKind::With => {
            lemma_round_trip_of(k, 0);
        },
        IntegerSanitizerKind::_Phantom => {
            lemma_no_spelling_of_len(all[0].spec_words(), name.len());
            lemma_round_trip_of(k, 1);
        },
    }
}

/// Every kind of `FloatSanitizerKind` is read back from its snake-case name.
pub proof fn lemma_float_sanitizer_kind_round_trip(k: FloatSanitizerKind)
    ensures
        spec_parse_kind::<FloatSanitizerKind>(spec_display_name(k)) == Ok::<FloatSanitizerKind, KindParseError<FloatSanitizerKind>>(k),
{
    reveal_strlit("With");
    reveal_strlit("_Phantom");
    reveal_strlit("phantom");
    reveal_strlit("with");
    reveal_with_fuel(words_len, 4);
    let all = FloatSanitizerKind::spec_all();
    let name = spec_display_name(k);
    let ws = k.spec_words();
    lemma_spelling_prefix_len(ws, Case::Snake, ws.len());
    lemma_snake_first_char(ws, ws.len());
    assert forall|j: int| 0 <= j < all.len() implies (#[trigger] all[j]).spec_ident() != name by {
        if all[j].spec_ident() == name {
            assert(all[j].spec_ident()[0] == name[0]);
        }
    }
    match k {
        FloatSanitizerKind::With => {
            lemma_round_trip_of(k, 0);
        },
        FloatSanitizerKind::_Phantom => {
            lemma_no_spelling_of_len(all[0].spec_words(), name.len());
            lemma_round_trip_of(k, 1);
        },
    }
}

/// Every kind of `FloatValidatorKind` is read back from its snake-case name.
pub proof fn lemma_float_validator_kind_round_trip(k: FloatValidatorKind)
    ensures
        spec_parse_kind::<FloatValidatorKind>(spec_display_name(k)) == Ok::<FloatValidatorKind, KindParseError<FloatValidatorKind>>(k),
{
    reveal_strlit("Finite");
    reveal_strlit("Greater");
    reveal_strlit("GreaterOrEqual");
    reveal_strlit("Less");
    reveal_strlit("LessOrEqual");
    reveal_strlit("Predicate");
    reveal_strlit("equal");
    reveal_strlit("finite");
    reveal_strlit("greater");
    reveal_strlit("less");
    reveal_strlit("or");
    reveal_strlit("predicate");
    reveal_with_fuel(words_len, 4);
    let all = FloatValidatorKind::spec_all();
    let name = spec_display_name(k);
    let ws = k.spec_words();
    lemma_spelling_prefix_len(ws, Case::Snake, ws.len());
    lemma_snake_first_char(ws, ws.len());
    assert forall|j: int| 0 <= j < all.len() implies (#[trigger] all[j]).spec_ident() != name by {
        if all[j].spec_ident() == name {
            assert(all[j].spec_ident()[0] == name[0]);
        }
    }
    match k {
        FloatValidatorKind::Greater => {
            lemma_round_trip_of(k, 0);
        },
        FloatValidatorKind::GreaterOrEqual => {
            lemma_no_spelling_of_len(all[0].spec_words(), name.len());
            lemma_round_trip_of(k, 1);
        },
        FloatValidatorKind::Less => {
            lemma_no_spelling_of_len(all[0].spec_words(), name.len());
            lemma_no_spelling_of_len(all[1].spec_words(), name.len());
            lemma_round_trip_of(k, 2);
        },
        FloatValidatorKind::LessOrEqual => {
            lemma_no_spelling_of_len(all[0].spec_words(), name.len());
            lemma_no_spelling_of_len(all[1].spec_words(), name.len());
            lemma_no_spelling_of_len(all[2].spec_words(), name.len());
            lemma_round_trip_of(k, 3);
        },
        FloatValidatorKind::Predicate => {
            lemma_no_spelling_of_len(all[0].spec_words(), name.len());
            lemma_no_spelling_of_len(all[1].spec_words(), name.len());
            lemma_no_spelling_of_len(all[2].spec_words(), name.len());
            lemma_no_spelling_of_len(all[3].spec_words(), name.len());
            lemma_round_trip_of(k, 4);
        },
        FloatValidatorKind::Finite => {
            lemma_no_spelling_of_len(all[0].spec_words(), name.len());
            lemma_no_spelling_of_len(all[1].spec_words(), name.len());
            lemma_no_spelling_of_len(all[2].spec_words(), name.len());
            lemma_no_spelling_of_len(all[3].spec_words(), name.len());
            lemma_no_spelling_of_len(all[4].spec_words(), name.len());
            lemma_round_trip_of(k, 5);
        },
    }
}

/// Every kind of `DecimalSanitizerKind` is read back from its snake-case name.
pub proof fn lemma_decimal_sanitizer_kind_round_trip(k: DecimalSanitizerKind)
    ensures
        spec_parse_kind::<DecimalSanitizerKind>(spec_display_name(k)) == Ok::<DecimalSanitizerKind, KindParseError<DecimalSanitizerKind>>(k),
{
    reveal_strlit("With");
    reveal_strlit("_Phantom");
    reveal_strlit("phantom");
    reveal_strlit("with");
    reveal_with_fuel(words_len, 4);
    let all = DecimalSanitizerKind::spec_all();
    let name = spec_display_name(k);
    let ws = k.spec_words();
    lemma_spelling_prefix_len(ws, Case::Snake, ws.len());
    lemma_snake_first_char(ws, ws.len());
    assert forall|j: int| 0 <= j < all.len() implies (#[trigger] all[j]).spec_ident() != name by {
        if all[j].spec_ident() == name {
            assert(all[j].spec_ident()[0] == name[0]);
        }
    }
    match k {
        DecimalSanitizerKind::With => {
            lemma_round_trip_of(k, 0);
        },
        DecimalSanitizerKind::_Phantom => {
            lemma_no_spelling_of_len(all[0].spec_words(), name.len());
            lemma_round_trip_of(k, 1);
        },
    }
}

/// Every kind of `DecimalValidatorKind` is read back from its snake-case name.
pub proof fn lemma_decimal_validator_kind_round_trip(k: DecimalValidatorKind)
    ensures
        spec_parse_kind::<DecimalValidatorKind>(spec_display_name(k)) == Ok::<DecimalValidatorKind, KindParseError<DecimalValidatorKind>>(k),
{
    reveal_strlit("Greater");
    reveal_strlit("GreaterOrEqual");
    reveal_strlit("Less");
    reveal_strlit("LessOrEqual");
    reveal_strlit("Predicate");
    reveal_strlit("equal");
    reveal_strlit("greater");
    reveal_strlit("less");
    reveal_strlit("or");
    reveal_strlit("predicate");
    reveal_with_fuel(words_len, 4);
    let all = DecimalValidatorKind::spec_all();
    let name = spec_display_name(k);
    let ws = k.spec_words();
    lemma_spelling_prefix_len(ws, Case::Snake, ws.len());
    lemma_snake_first_char(ws, ws.len());
    assert forall|j: int| 0 <= j < all.len() implies (#[trigger] all[j]).spec_ident() != name by {
        if all[j].spec_ident() == name {
            assert(all[j].spec_ident()[0] == name[0]);
        }
    }
    match k {
        DecimalValidatorKind::Greater => {
            lemma_round_trip_of(k, 0);
        },
        DecimalValidatorKind::GreaterOrEqual => {
            lemma_no_spelling_of_len(all[0].spec_words(), name.len());
            lemma_round_trip_of(k, 1);
        },
        DecimalValidatorKind::Less => {
            lemma_no_spelling_of_len(all[0].spec_words(), name.len());
            lemma_no_spelling_of_len(all[1].spec_words(), name.len());
            lemma_round_trip_of(k, 2);
        },
        DecimalValidatorKind::LessOrEqual => {
            lemma_no_spelling_of_len(all[0].spec_words(), name.len());
            lemma_no_spelling_of_len(all[1].spec_words(), name.len());
            lemma_no_spelling_of_len(all[2].spec_words(), name.len());
            lemma_round_trip_of(k, 3);
        },
        DecimalValidatorKind::Predicate => {
            lemma_no_spelling_of_len(all[0].spec_words(), name.len());
            lemma_no_spelling_of_len(all[1].spec_words(), name.len());
            lemma_no_spelling_of_len(all[2].spec_words(), name.len());
            lemma_no_spelling_of_len(all[3].spec_words(), name.len());
            lemma_round_trip_of(k, 4);
        },
    }
}

/// Every kind of `AnySanitizerKind` is read back from its snake-case name.
pub proof fn lemma_any_sanitizer_kind_round_trip(k: AnySanitizerKind)
    ensures
        spec_parse_kind::<AnySanitizerKind>(spec_display_name(k)) == Ok::<AnySanitizerKind, KindParseError<AnySanitizerKind>>(k),
{
    reveal_strlit("With");
    reveal_strlit("with");
    reveal_with_fuel(words_len, 4);
    let all = AnySanitizerKind::spec_all();
    let name = spec_display_name(k);
    let ws = k.spec_words();
    lemma_spelling_prefix_len(ws, Case::Snake, ws.len());
    lemma_snake_first_char(ws, ws.len());
    assert forall|j: int| 0 <= j < all.len() implies (#[trigger] all[j]).spec_ident() != name by {
        if all[j].spec_ident() == name {
            assert(all[j].spec_ident()[0] == name[0]);
        }
    }
    match k {
        AnySanitizerKind::With => {
            lemma_round_trip_of(k, 0);
        },
    }
}

/// Every kind of `AnyValidatorKind` is read back from its snake-case name.
pub proof fn lemma_any_validator_kind_round_trip(k: AnyValidatorKind)
    ensures
        spec_parse_kind::<AnyValidatorKind>(spec_display_name(k)) == Ok::<AnyValidatorKind, KindParseError<AnyValidatorKind>>(k),
{
    reveal_strlit("Predicate");
    reveal_strlit("predicate");
    reveal_with_fuel(words_len, 4);
    let all = AnyValidatorKind::spec_all();
    let name = spec_display_name(k);
    let ws = k.spec_words();
    lemma_spelling_prefix_len(ws, Case::Snake, ws.len());
    lemma_snake_first_char(ws, ws.len());
    assert forall|j: int| 0 <= j < all.len() implies (#[trigger] all[j]).spec_ident() != name by {
        if all[j].spec_ident() == name {
            assert(all[j].spec_ident()[0] == name[0]);
        }
    }
    match k {
        AnyValidatorKind::Predicate => {
            lemma_round_trip_of(k, 0);
        },
    }
}

/// Every kind of `ExtraValidateAttrKind` is read back from its snake-case name.
pub proof fn lemma_extra_validate_attr_kind_round_trip(k: ExtraValidateAttrKind)
    ensures
        spec_parse_kind::<ExtraValidateAttrKind>(spec_display_name(k)) == Ok::<ExtraValidateAttrKind, KindParseError<ExtraValidateAttrKind>>(k),
{
    reveal_strlit("Error");
    reveal_strlit("With");
    reveal_strlit("error");
    reveal_strlit("with");
    reveal_with_fuel(words_len, 4);
    let all = ExtraValidateAttrKind::spec_all();
    let name = spec_display_name(k);
    let ws = k.spec_words();
    lemma_spelling_prefix_len(ws, Case::Snake, ws.len());
    lemma_snake_first_char(ws, ws.len());
    assert forall|j: int| 0 <= j < all.len() implies (#[trigger] all[j]).spec_ident() != name by {
        if all[j].spec_ident() == name {
            assert(all[j].spec_ident()[0] == name[0]);
        }
    }
    match k {
        ExtraValidateAttrKind::Error => {
            lemma_round_trip_of(k, 0);
        },
        ExtraValidateAttrKind::With => {
            lemma_no_spelling_of_len(all[0].spec_words(), name.len());
            lemma_round_trip_of(k, 1);
        },
    }
}

} // verus!
