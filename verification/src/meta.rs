use vstd::prelude::*;

use crate::base::SpannedItem;
use crate::float::FloatInnerType;
use crate::integer::IntegerInnerType;
use crate::models::Features;
use crate::attr_syntax::{split_on_commas, stream_of, tokens_of, trees_of};
use crate::text::chars_of;
use quote::ToTokens;
use syn::spanned::Spanned;

verus! {

/// The type of the field of the newtype, as far as the macro tells types
/// apart.
#[derive(Debug, Clone, Copy, PartialEq, Eq, Structural)]
pub enum InnerTypeKind {
    String,
    Integer(IntegerInnerType),
    Float(FloatInnerType),
    Decimal,
    /// Any other type.
    Any,
}

/// The characters that Unicode classes as white space (`char::is_whitespace`).
pub open spec fn is_unicode_whitespace(c: char) -> bool {
    ||| ('\u{9}' <= c && c <= '\u{d}')
    ||| c == ' '
    ||| c == '\u{85}'
    ||| c == '\u{a0}'
    ||| c == '\u{1680}'
    ||| ('\u{2000}' <= c && c <= '\u{200a}')
    ||| c == '\u{2028}'
    ||| c == '\u{2029}'
    ||| c == '\u{202f}'
    ||| c == '\u{205f}'
    ||| c == '\u{3000}'
}

pub fn is_whitespace(c: char) -> (r: bool)
    ensures
        r == is_unicode_whitespace(c),
{
    ('\u{9}' <= c && c <= '\u{d}') || c == ' ' || c == '\u{85}' || c == '\u{a0}' || c == '\u{1680}'
        || ('\u{2000}' <= c && c <= '\u{200a}') || c == '\u{2028}' || c == '\u{2029}' || c == '\u{202f}'
        || c == '\u{205f}' || c == '\u{3000}'
}

/// A type path with its white space removed, so that `rust_decimal :: Decimal`
/// and `rust_decimal::Decimal` read the same.
pub open spec fn spec_compact(s: Seq<char>) -> Seq<char> {
    s.filter(|c: char| !is_unicode_whitespace(c))
}

pub fn compact(s: &str) -> (r: Vec<char>)
    ensures
        r@ == spec_compact(s@),
{
    let chars = chars_of(s);
    let mut out: Vec<char> = Vec::new();
    let mut i: usize = 0;
    while i < chars.len()
        invariant
            chars@ == s@,
            i <= chars@.len(),
            out@ == chars@.subrange(0, i as int).filter(|c: char| !is_unicode_whitespace(c)),
        decreases chars@.len() - i,
    {
        let c = chars[i];
        proof {
            assert(chars@.subrange(0, i + 1) =~= chars@.subrange(0, i as int).push(c));
            chars@.subrange(0, i as int).lemma_filter_push(c, |c: char| !is_unicode_whitespace(c));
        }
        if !is_whitespace(c) {
            out.push(c);
        }
        i = i + 1;
    }
    assert(chars@.subrange(0, chars@.len() as int) =~= chars@);
    out
}

/// Compares characters with a string.
fn chars_are(a: &Vec<char>, b: &str) -> (r: bool)
    ensures
        r == (a@ == b@),
{
    let bs = chars_of(b);
    if a.len() != bs.len() {
        return false;
    }
    let mut i: usize = 0;
    while i < a.len()
        invariant
            a@.len() == bs@.len(),
            bs@ == b@,
            i <= a@.len(),
            forall|j: int| 0 <= j < i ==> a@[j] == bs@[j],
        decreases a@.len() - i,
    {
        if a[i] != bs[i] {
            return false;
        }
        i = i + 1;
    }
    assert(a@ =~= bs@);
    true
}

/// How the field's type, with its white space removed, is classified;
/// `Err` when it names `Decimal` while the `rust_decimal` feature is off.
pub open spec fn spec_classify_inner_type(t: Seq<char>, decimal_enabled: bool) -> Result<InnerTypeKind, ()> {
    if t == "String"@ {
        Ok(InnerTypeKind::String)
    } else if t == "u8"@ {
        Ok(InnerTypeKind::Integer(IntegerInnerType::U8))
    } else if t == "u16"@ {
        Ok(InnerTypeKind::Integer(IntegerInnerType::U16))
    } else if t == "u32"@ {
        Ok(InnerTypeKind::Integer(IntegerInnerType::U32))
    } else if t == "u64"@ {
        Ok(InnerTypeKind::Integer(IntegerInnerType::U64))
    } else if t == "u128"@ {
        Ok(InnerTypeKind::Integer(IntegerInnerType::U128))
    } else if t == "usize"@ {
        Ok(InnerTypeKind::Integer(IntegerInnerType::Usize))
    } else if t == "i8"@ {
        Ok(InnerTypeKind::Integer(IntegerInnerType::I8))
    } else if t == "i16"@ {
        Ok(InnerTypeKind::Integer(IntegerInnerType::I16))
    } else if t == "i32"@ {
        Ok(InnerTypeKind::Integer(IntegerInnerType::I32))
    } else if t == "i64"@ {
        Ok(InnerTypeKind::Integer(IntegerInnerType::I64))
    } else if t == "i128"@ {
        Ok(InnerTypeKind::Integer(IntegerInnerType::I128))
    } else if t == "isize"@ {
        Ok(InnerTypeKind::Integer(IntegerInnerType::Isize))
    } else if t == "f32"@ {
        Ok(InnerTypeKind::Float(FloatInnerType::F32))
    } else if t == "f64"@ {
        Ok(InnerTypeKind::Float(FloatInnerType::F64))
    } else if t == "Decimal"@ || t == "rust_decimal::Decimal"@ || t == "::rust_decimal::Decimal"@ {
        if decimal_enabled {
            Ok(InnerTypeKind::Decimal)
        } else {
            Err(())
        }
    } else {
        Ok(InnerTypeKind::Any)
    }
}

/// The Rust name of a primitive integer type.
pub open spec fn integer_type_name(k: IntegerInnerType) -> Seq<char> {
    match k {
        IntegerInnerType::U8 => "u8"@,
        IntegerInnerType::U16 => "u16"@,
        IntegerInnerType::U32 => "u32"@,
        IntegerInnerType::U64 => "u64"@,
        IntegerInnerType::U128 => "u128"@,
        IntegerInnerType::Usize => "usize"@,
        IntegerInnerType::I8 => "i8"@,
        IntegerInnerType::I16 => "i16"@,
        IntegerInnerType::I32 => "i32"@,
        IntegerInnerType::I64 => "i64"@,
        IntegerInnerType::I128 => "i128"@,
        IntegerInnerType::Isize => "isize"@,
    }
}

/// The Rust name of a primitive float type.
pub open spec fn float_type_name(k: FloatInnerType) -> Seq<char> {
    match k {
        FloatInnerType::F32 => "f32"@,
        FloatInnerType::F64 => "f64"@,
    }
}

/// Law: a field whose type is a primitive integer or float type is
/// classified as that very type (`u16` gives `U16`), whatever the
/// `rust_decimal` feature; and two different names never give the same
/// integer type.
pub proof fn lemma_primitive_types_classify_as_themselves(k: IntegerInnerType, f: FloatInnerType, decimal_enabled: bool)
    ensures
        spec_classify_inner_type(integer_type_name(k), decimal_enabled) == Ok::<InnerTypeKind, ()>(
            InnerTypeKind::Integer(k),
        ),
        spec_classify_inner_type(float_type_name(f), decimal_enabled) == Ok::<InnerTypeKind, ()>(InnerTypeKind::Float(f)),
        forall|j: IntegerInnerType| #[trigger] integer_type_name(j) == integer_type_name(k) ==> j == k,
{
    reveal_strlit("String");
    reveal_strlit("u8");
    reveal_strlit("u16");
    reveal_strlit("u32");
    reveal_strlit("u64");
    reveal_strlit("u128");
    reveal_strlit("usize");
    reveal_strlit("i8");
    reveal_strlit("i16");
    reveal_strlit("i32");
    reveal_strlit("i64");
    reveal_strlit("i128");
    reveal_strlit("isize");
    reveal_strlit("f32");
    reveal_strlit("f64");
    reveal_strlit("Decimal");
    reveal_strlit("rust_decimal::Decimal");
    reveal_strlit("::rust_decimal::Decimal");
    match k {
        IntegerInnerType::U8 => {
            assert("u8"@.len() != "String"@.len());
        },
        IntegerInnerType::U16 => {
            assert("u16"@.len() != "String"@.len());
            assert("u16"@.len() != "u8"@.len());
        },
        IntegerInnerType::U32 => {
            assert("u32"@.len() != "String"@.len());
            assert("u32"@.len() != "u8"@.len());
            assert("u32"@[1] != "u16"@[1]);
        },
        IntegerInnerType::U64 => {
            assert("u64"@.len() != "String"@.len());
            assert("u64"@.len() != "u8"@.len());
            assert("u64"@[1] != "u16"@[1]);
            assert("u64"@[1] != "u32"@[1]);
        },
        IntegerInnerType::U128 => {
            assert("u128"@.len() != "String"@.len());
            assert("u128"@.len() != "u8"@.len());
            assert("u128"@.len() != "u16"@.len());
            assert("u128"@.len() != "u32"@.len());
            assert("u128"@.len() != "u64"@.len());
        },
        IntegerInnerType::Usize => {
            assert("usize"@.len() != "String"@.len());
            assert("usize"@.len() != "u8"@.len());
            assert("usize"@.len() != "u16"@.len());
            assert("usize"@.len() != "u32"@.len());
            assert("usize"@.len() != "u64"@.len());
            assert("usize"@.len() != "u128"@.len());
        },
        IntegerInnerType::I8 => {
            assert("i8"@.len() != "String"@.len());
            assert("i8"@[0] != "u8"@[0]);
            assert("i8"@.len() != "u16"@.len());
            assert("i8"@.len() != "u32"@.len());
            assert("i8"@.len() != "u64"@.len());
            assert("i8"@.len() != "u128"@.len());
            assert("i8"@.len() != "usize"@.len());
        },
        IntegerInnerType::I16 => {
            assert("i16"@.len() != "String"@.len());
            assert("i16"@.len() != "u8"@.len());
            assert("i16"@[0] != "u16"@[0]);
            assert("i16"@[0] != "u32"@[0]);
            assert("i16"@[0] != "u64"@[0]);
            assert("i16"@.len() != "u128"@.len());
            assert("i16"@.len() != "usize"@.len());
            assert("i16"@.len() != "i8"@.len());
        },
        IntegerInnerType::I32 => {
            assert("i32"@.len() != "String"@.len());
            assert("i32"@.len() != "u8"@.len());
            assert("i32"@[0] != "u16"@[0]);
            assert("i32"@[0] != "u32"@[0]);
            assert("i32"@[0] != "u64"@[0]);
            assert("i32"@.len() != "u128"@.len());
            assert("i32"@.len() != "usize"@.len());
            assert("i32"@.len() != "i8"@.len());
            assert("i32"@[1] != "i16"@[1]);
        },
        IntegerInnerType::I64 => {
            assert("i64"@.len() != "String"@.len());
            assert("i64"@.len() != "u8"@.len());
            assert("i64"@[0] != "u16"@[0]);
            assert("i64"@[0] != "u32"@[0]);
            assert("i64"@[0] != "u64"@[0]);
            assert("i64"@.len() != "u128"@.len());
            assert("i64"@.len() != "usize"@.len());
            assert("i64"@.len() != "i8"@.len());
            assert("i64"@[1] != "i16"@[1]);
            assert("i64"@[1] != "i32"@[1]);
        },
        IntegerInnerType::I128 => {
            assert("i128"@.len() != "String"@.len());
            assert("i128"@.len() != "u8"@.len());
            assert("i128"@.len() != "u16"@.len());
            assert("i128"@.len() != "u32"@.len());
            assert("i128"@.len() != "u64"@.len());
            assert("i128"@[0] != "u128"@[0]);
            assert("i128"@.len() != "usize"@.len());
            assert("i128"@.len() != "i8"@.len());
            assert("i128"@.len() != "i16"@.len());
            assert("i128"@.len() != "i32"@.len());
            assert("i128"@.len() != "i64"@.len());
        },
        IntegerInnerType::Isize => {
            assert("isize"@.len() != "String"@.len());
            assert("isize"@.len() != "u8"@.len());
            assert("isize"@.len() != "u16"@.len());
            assert("isize"@.len() != "u32"@.len());
            assert("isize"@.len() != "u64"@.len());
            assert("isize"@.len() != "u128"@.len());
            assert("isize"@[0] != "usize"@[0]);
            assert("isize"@.len() != "i8"@.len());
            assert("isize"@.len() != "i16"@.len());
            assert("isize"@.len() != "i32"@.len());
            assert("isize"@.len() != "i64"@.len());
            assert("isize"@.len() != "i128"@.len());
        },
    }
    match f {
        FloatInnerType::F32 => {
            assert("f32"@.len() != "String"@.len());
            assert("f32"@.len() != "u8"@.len());
            assert("f32"@[0] != "u16"@[0]);
            assert("f32"@[0] != "u32"@[0]);
            assert("f32"@[0] != "u64"@[0]);
            assert("f32"@.len() != "u128"@.len());
            assert("f32"@.len() != "usize"@.len());
            assert("f32"@.len() != "i8"@.len());
            assert("f32"@[0] != "i16"@[0]);
            assert("f32"@[0] != "i32"@[0]);
            assert("f32"@[0] != "i64"@[0]);
            assert("f32"@.len() != "i128"@.len());
            assert("f32"@.len() != "isize"@.len());
        },
        FloatInnerType::F64 => {
            assert("f64"@.len() != "String"@.len());
            assert("f64"@.len() != "u8"@.len());
            assert("f64"@[0] != "u16"@[0]);
            assert("f64"@[0] != "u32"@[0]);
            assert("f64"@[0] != "u64"@[0]);
            assert("f64"@.len() != "u128"@.len());
            assert("f64"@.len() != "usize"@.len());
            assert("f64"@.len() != "i8"@.len());
            assert("f64"@[0] != "i16"@[0]);
            assert("f64"@[0] != "i32"@[0]);
            assert("f64"@[0] != "i64"@[0]);
            assert("f64"@.len() != "i128"@.len());
            assert("f64"@.len() != "isize"@.len());
            assert("f64"@[1] != "f32"@[1]);
        },
    }
    assert("u8"@.len() != "usize"@.len());
    assert("u16"@.len() != "u8"@.len());
    assert("u16"@[1] != "u32"@[1]);
    assert("u16"@[1] != "u64"@[1]);
    assert("u16"@.len() != "usize"@.len());
    assert("u32"@.len() != "u8"@.len());
    assert("u32"@[1] != "u64"@[1]);
    assert("u32"@.len() != "usize"@.len());
    assert("u64"@.len() != "u8"@.len());
    assert("u64"@.len() != "usize"@.len());
    assert("u128"@.len() != "u8"@.len());
    assert("u128"@.len() != "u16"@.len());
    assert("u128"@.len() != "u32"@.len());
    assert("u128"@.len() != "u64"@.len());
    assert("u128"@.len() != "usize"@.len());
    assert("i8"@[0] != "u8"@[0]);
    assert("i8"@.len() != "u16"@.len());
    assert("i8"@.len() != "u32"@.len());
    assert("i8"@.len() != "u64"@.len());
    assert("i8"@.len() != "u128"@.len());
    assert("i8"@.len() != "usize"@.len());
    assert("i8"@.len() != "isize"@.len());
    assert("i16"@.len() != "u8"@.len());
    assert("i16"@[0] != "u16"@[0]);
    assert("i16"@[0] != "u32"@[0]);
    assert("i16"@[0] != "u64"@[0]);
    assert("i16"@.len() != "u128"@.len());
    assert("i16"@.len() != "usize"@.len());
    assert("i16"@.len() != "i8"@.len());
    assert("i16"@[1] != "i32"@[1]);
    assert("i16"@[1] != "i64"@[1]);
    assert("i16"@.len() != "isize"@.len());
    assert("i32"@.len() != "u8"@.len());
    assert("i32"@[0] != "u16"@[0]);
    assert("i32"@[0] != "u32"@[0]);
    assert("i32"@[0] != "u64"@[0]);
    assert("i32"@.len() != "u128"@.len());
    assert("i32"@.len() != "usize"@.len());
    assert("i32"@.len() != "i8"@.len());
    assert("i32"@[1] != "i64"@[1]);
    assert("i32"@.len() != "isize"@.len());
    assert("i64"@.len() != "u8"@.len());
    assert("i64"@[0] != "u16"@[0]);
    assert("i64"@[0] != "u32"@[0]);
    assert("i64"@[0] != "u64"@[0]);
    assert("i64"@.len() != "u128"@.len());
    assert("i64"@.len() != "usize"@.len());
    assert("i64"@.len() != "i8"@.len());
    assert("i64"@.len() != "isize"@.len());
    assert("i128"@.len() != "u8"@.len());
    assert("i128"@.len() != "u16"@.len());
    assert("i128"@.len() != "u32"@.len());
    assert("i128"@.len() != "u64"@.len());
    assert("i128"@[0] != "u128"@[0]);
    assert("i128"@.len() != "usize"@.len());
    assert("i128"@.len() != "i8"@.len());
    assert("i128"@.len() != "i16"@.len());
    assert("i128"@.len() != "i32"@.len());
    assert("i128"@.len() != "i64"@.len());
    assert("i128"@.len() != "isize"@.len());
    assert("isize"@.len() != "u8"@.len());
    assert("isize"@.len() != "u16"@.len());
    assert("isize"@.len() != "u32"@.len());
    assert("isize"@.len() != "u64"@.len());
    assert("isize"@.len() != "u128"@.len());
    assert("isize"@[0] != "usize"@[0]);
}

/// Law: `String` is classified as a string newtype, and the three ways of
/// writing `Decimal` as a decimal newtype when the `rust_decimal` feature is
/// on, refused otherwise.
pub proof fn lemma_string_and_decimal_classify(decimal_enabled: bool)
    ensures
        spec_classify_inner_type("String"@, decimal_enabled) == Ok::<InnerTypeKind, ()>(InnerTypeKind::String),
        spec_classify_inner_type("Decimal"@, decimal_enabled) == (if decimal_enabled {
            Ok::<InnerTypeKind, ()>(InnerTypeKind::Decimal)
        } else {
            Err(())
        }),
        spec_classify_inner_type("rust_decimal::Decimal"@, decimal_enabled) == (if decimal_enabled {
            Ok::<InnerTypeKind, ()>(InnerTypeKind::Decimal)
        } else {
            Err(())
        }),
        spec_classify_inner_type("::rust_decimal::Decimal"@, decimal_enabled) == (if decimal_enabled {
            Ok::<InnerTypeKind, ()>(InnerTypeKind::Decimal)
        } else {
            Err(())
        }),
{
    reveal_strlit("String");
    reveal_strlit("u8");
    reveal_strlit("u16");
    reveal_strlit("u32");
    reveal_strlit("u64");
    reveal_strlit("u128");
    reveal_strlit("usize");
    reveal_strlit("i8");
    reveal_strlit("i16");
    reveal_strlit("i32");
    reveal_strlit("i64");
    reveal_strlit("i128");
    reveal_strlit("isize");
    reveal_strlit("f32");
    reveal_strlit("f64");
    reveal_strlit("Decimal");
    reveal_strlit("rust_decimal::Decimal");
    reveal_strlit("::rust_decimal::Decimal");
    assert("Decimal"@.len() != "String"@.len());
    assert("Decimal"@.len() != "u8"@.len());
    assert("Decimal"@.len() != "u16"@.len());
    assert("Decimal"@.len() != "u32"@.len());
    assert("Decimal"@.len() != "u64"@.len());
    assert("Decimal"@.len() != "u128"@.len());
    assert("Decimal"@.len() != "usize"@.len());
    assert("Decimal"@.len() != "i8"@.len());
    assert("Decimal"@.len() != "i16"@.len());
    assert("Decimal"@.len() != "i32"@.len());
    assert("Decimal"@.len() != "i64"@.len());
    assert("Decimal"@.len() != "i128"@.len());
    assert("Decimal"@.len() != "isize"@.len());
    assert("Decimal"@.len() != "f32"@.len());
    assert("Decimal"@.len() != "f64"@.len());
    assert("rust_decimal::Decimal"@.len() != "String"@.len());
    assert("rust_decimal::Decimal"@.len() != "u8"@.len());
    assert("rust_decimal::Decimal"@.len() != "u16"@.len());
    assert("rust_decimal::Decimal"@.len() != "u32"@.len());
    assert("rust_decimal::Decimal"@.len() != "u64"@.len());
    assert("rust_decimal::Decimal"@.len() != "u128"@.len());
    assert("rust_decimal::Decimal"@.len() != "usize"@.len());
    assert("rust_decimal::Decimal"@.len() != "i8"@.len());
    assert("rust_decimal::Decimal"@.len() != "i16"@.len());
    assert("rust_decimal::Decimal"@.len() != "i32"@.len());
    assert("rust_decimal::Decimal"@.len() != "i64"@.len());
    assert("rust_decimal::Decimal"@.len() != "i128"@.len());
    assert("rust_decimal::Decimal"@.len() != "isize"@.len());
    assert("rust_decimal::Decimal"@.len() != "f32"@.len());
    assert("rust_decimal::Decimal"@.len() != "f64"@.len());
    assert("rust_decimal::Decimal"@.len() != "Decimal"@.len());
    assert("::rust_decimal::Decimal"@.len() != "String"@.len());
    assert("::rust_decimal::Decimal"@.len() != "u8"@.len());
    assert("::rust_decimal::Decimal"@.len() != "u16"@.len());
    assert("::rust_decimal::Decimal"@.len() != "u32"@.len());
    assert("::rust_decimal::Decimal"@.len() != "u64"@.len());
    assert("::rust_decimal::Decimal"@.len() != "u128"@.len());
    assert("::rust_decimal::Decimal"@.len() != "usize"@.len());
    assert("::rust_decimal::Decimal"@.len() != "i8"@.len());
    assert("::rust_decimal::Decimal"@.len() != "i16"@.len());
    assert("::rust_decimal::Decimal"@.len() != "i32"@.len());
    assert("::rust_decimal::Decimal"@.len() != "i64"@.len());
    assert("::rust_decimal::Decimal"@.len() != "i128"@.len());
    assert("::rust_decimal::Decimal"@.len() != "isize"@.len());
    assert("::rust_decimal::Decimal"@.len() != "f32"@.len());
    assert("::rust_decimal::Decimal"@.len() != "f64"@.len());
    assert("::rust_decimal::Decimal"@.len() != "Decimal"@.len());
    assert("::rust_decimal::Decimal"@.len() != "rust_decimal::Decimal"@.len());
}

/// Classifies the field's type from its text (`Err` when it is `Decimal`
/// and the `rust_decimal` feature is off).
pub fn classify_inner_type(type_text: &str, decimal_enabled: bool) -> (r: Result<InnerTypeKind, ()>)
    ensures
        r == spec_classify_inner_type(spec_compact(type_text@), decimal_enabled),
{
    let t = compact(type_text);
    if chars_are(&t, "String") {
        Ok(InnerTypeKind::String)
    } else if chars_are(&t, "u8") {
        Ok(InnerTypeKind::Integer(IntegerInnerType::U8))
    } else if chars_are(&t, "u16") {
        Ok(InnerTypeKind::Integer(IntegerInnerType::U16))
    } else if chars_are(&t, "u32") {
        Ok(InnerTypeKind::Integer(IntegerInnerType::U32))
    } else if chars_are(&t, "u64") {
        Ok(InnerTypeKind::Integer(IntegerInnerType::U64))
    } else if chars_are(&t, "u128") {
        Ok(InnerTypeKind::Integer(IntegerInnerType::U128))
    } else if chars_are(&t, "usize") {
        Ok(InnerTypeKind::Integer(IntegerInnerType::Usize))
    } else if chars_are(&t, "i8") {
        Ok(InnerTypeKind::Integer(IntegerInnerType::I8))
    } else if chars_are(&t, "i16") {
        Ok(InnerTypeKind::Integer(IntegerInnerType::I16))
    } else if chars_are(&t, "i32") {
        Ok(InnerTypeKind::Integer(IntegerInnerType::I32))
    } else if chars_are(&t, "i64") {
        Ok(InnerTypeKind::Integer(IntegerInnerType::I64))
    } else if chars_are(&t, "i128") {
        Ok(InnerTypeKind::Integer(IntegerInnerType::I128))
    } else if chars_are(&t, "isize") {
        Ok(InnerTypeKind::Integer(IntegerInnerType::Isize))
    } else if chars_are(&t, "f32") {
        Ok(InnerTypeKind::Float(FloatInnerType::F32))
    } else if chars_are(&t, "f64") {
        Ok(InnerTypeKind::Float(FloatInnerType::F64))
    } else if chars_are(&t, "Decimal") || chars_are(&t, "rust_decimal::Decimal") || chars_are(
        &t,
        "::rust_decimal::Decimal",
    ) {
        if decimal_enabled {
            Ok(InnerTypeKind::Decimal)
        } else {
            Err(())
        }
    } else {
        Ok(InnerTypeKind::Any)
    }
}


/// One `key` or `key = value` item inside an attribute such as
/// `#[serde(...)]`: the key, the span of its path, and what was read of its
/// value.
pub struct NestedItem<V> {
    pub key: String,
    pub span: proc_macro2::Span,
    pub value: V,
}

/// The items of an attribute's list, in order, and the error that stopped
/// reading them when the list is malformed.
pub struct NestedMeta<V> {
    pub items: Vec<NestedItem<V>>,
    pub malformed: Option<syn::Error>,
}

/// An attribute of the struct or of its field: the attribute itself, which is
/// carried through, the first segment of its path, its span and, for
/// `#[serde(...)]`, its items.
pub struct AttrInfo<A, V> {
    pub attr: A,
    pub first_segment: Option<String>,
    pub span: proc_macro2::Span,
    pub serde: NestedMeta<V>,
}

/// The value of a field-level serde key: a path written as a string literal.
pub enum SerdePathValue {
    /// `key = "path"`: the path and the span of the string literal.
    Path(SpannedItem<syn::Path>),
    /// `key = value` where the value is not a string literal holding a path.
    Invalid(syn::Error),
    /// The key has no `= value`; the span is that of the key.
    NotAssigned { span: proc_macro2::Span },
}

/// A struct attribute; each serde item tells whether it is a bare key
/// (`transparent`, not `transparent = ..` or `transparent(..)`).
pub type StructAttr<A> = AttrInfo<A, bool>;

pub type FieldAttr<A> = AttrInfo<A, SerdePathValue>;

/// The field-level serde keys.
#[derive(Debug, Clone, Copy, PartialEq, Eq, Structural)]
pub enum SerdeKey {
    With,
    SerializeWith,
    DeserializeWith,
}

/// How serde is told to treat the newtype: `#[serde(transparent)]` on the
/// struct, `with`, `serialize_with` or `deserialize_with` on the field.
pub struct SerdeCustomization {
    pub transparent: Option<proc_macro2::Span>,
    pub with: Option<SpannedItem<syn::Path>>,
    pub serialize_with: Option<SpannedItem<syn::Path>>,
    pub deserialize_with: Option<SpannedItem<syn::Path>>,
}

/// Why the annotated item is refused.
pub enum MetaError {
    /// `#[derive(..)]` next to `#[nutype]`.
    DeriveNotAllowed { span: proc_macro2::Span },
    /// `#[schemars(..)]` on the struct.
    SchemarsNotSupported { span: proc_macro2::Span },
    /// `transparent` given twice.
    DuplicateTransparent { span: proc_macro2::Span },
    /// A serde key on the struct other than `transparent`.
    UnsupportedStructSerde { span: proc_macro2::Span },
    /// An attribute list that could not be read.
    Malformed(syn::Error),
    /// Not a tuple struct.
    NotTupleStruct { span: proc_macro2::Span },
    /// A tuple struct without a field.
    EmptyTupleStruct { span: proc_macro2::Span },
    /// A visibility on the field.
    FieldVisibility { span: proc_macro2::Span },
    /// `#[cfg(..)]` on the field.
    CfgOnField { span: proc_macro2::Span },
    /// A field-level serde key given twice.
    DuplicateFieldSerde { key: SerdeKey, span: proc_macro2::Span },
    /// `with` together with `serialize_with` or `deserialize_with`.
    WithCombined { key: SerdeKey, span: proc_macro2::Span },
    /// A serde key on the field other than the three supported ones.
    UnsupportedFieldSerde { span: proc_macro2::Span },
    /// A serde value that is not a path in a string literal.
    InvalidSerdePath(syn::Error),
    /// A field-level serde key without `= "path"`.
    MissingSerdePath { span: proc_macro2::Span },
    /// `Decimal` without the `rust_decimal` feature.
    DecimalFeatureMissing { span: proc_macro2::Span },
}

/// Tells whether an attribute's path starts with the given name.
pub open spec fn segment_is(seg: Option<String>, name: Seq<char>) -> bool {
    seg matches Some(s) && s@ == name
}

fn first_segment_is(seg: &Option<String>, name: &str) -> (r: bool)
    ensures
        r == segment_is(*seg, name@),
{
    match seg {
        Some(s) => crate::text::str_eq(s.as_str(), name),
        None => false,
    }
}

/// `#[doc = ..]`, i.e. a doc comment.
pub fn is_doc_attribute<A, V>(attr: &AttrInfo<A, V>) -> (r: bool)
    ensures
        r == segment_is(attr.first_segment, "doc"@),
{
    first_segment_is(&attr.first_segment, "doc")
}

/// `#[derive(..)]`.
pub fn is_derive_attribute<A, V>(attr: &AttrInfo<A, V>) -> (r: bool)
    ensures
        r == segment_is(attr.first_segment, "derive"@),
{
    first_segment_is(&attr.first_segment, "derive")
}

/// Reads one struct-level serde key.
pub open spec fn spec_struct_serde_step(
    transparent: Option<proc_macro2::Span>,
    item: NestedItem<bool>,
) -> Result<Option<proc_macro2::Span>, MetaError> {
    if item.key@ == "transparent"@ && item.value {
        if transparent is Some {
            Err(MetaError::DuplicateTransparent { span: item.span })
        } else {
            Ok(Some(item.span))
        }
    } else {
        Err(MetaError::UnsupportedStructSerde { span: item.span })
    }
}

/// Reads the first `n` struct-level serde keys.
pub open spec fn spec_struct_serde_prefix(
    items: Seq<NestedItem<bool>>,
    n: nat,
    transparent: Option<proc_macro2::Span>,
) -> Result<Option<proc_macro2::Span>, MetaError>
    decreases n,
{
    if n == 0 {
        Ok(transparent)
    } else {
        match spec_struct_serde_prefix(items, (n - 1) as nat, transparent) {
            Err(e) => Err(e),
            Ok(t) => spec_struct_serde_step(t, items[n - 1]),
        }
    }
}

proof fn lemma_struct_serde_err(items: Seq<NestedItem<bool>>, k: nat, m: nat, t: Option<proc_macro2::Span>)
    requires
        k <= m,
        spec_struct_serde_prefix(items, k, t) is Err,
    ensures
        spec_struct_serde_prefix(items, m, t) == spec_struct_serde_prefix(items, k, t),
    decreases m - k,
{
    if k < m {
        lemma_struct_serde_err(items, k, (m - 1) as nat, t);
    }
}

/// Reads a `#[serde(...)]` on the struct: only a bare `transparent`, at most
/// once.
pub open spec fn spec_struct_serde(
    items: Seq<NestedItem<bool>>,
    malformed: Option<syn::Error>,
    transparent: Option<proc_macro2::Span>,
) -> Result<Option<proc_macro2::Span>, MetaError> {
    match spec_struct_serde_prefix(items, items.len(), transparent) {
        Err(e) => Err(e),
        Ok(t) => match malformed {
            Some(e) => Err(MetaError::Malformed(e)),
            None => Ok(t),
        },
    }
}

/// Reads a `#[serde(...)]` on the struct.
#[verifier::loop_isolation(false)]
pub fn parse_struct_level_serde_attr(
    serde: NestedMeta<bool>,
    transparent: Option<proc_macro2::Span>,
) -> (r: Result<Option<proc_macro2::Span>, MetaError>)
    ensures
        r == spec_struct_serde(serde.items@, serde.malformed, transparent),
{
    let NestedMeta { items, malformed } = serde;
    let mut t = transparent;
    let mut i: usize = 0;
    while i < items.len()
        invariant
            i <= items@.len(),
            spec_struct_serde_prefix(items@, i as nat, transparent) == Ok::<Option<proc_macro2::Span>, MetaError>(t),
        decreases items@.len() - i,
    {
        let item = &items[i];
        if crate::text::str_eq(item.key.as_str(), "transparent") && item.value {
            if t.is_some() {
                proof {
                    lemma_struct_serde_err(items@, (i + 1) as nat, items@.len(), transparent);
                }
                return Err(MetaError::DuplicateTransparent { span: item.span });
            }
            t = Some(item.span);
        } else {
            proof {
                lemma_struct_serde_err(items@, (i + 1) as nat, items@.len(), transparent);
            }
            return Err(MetaError::UnsupportedStructSerde { span: item.span });
        }
        i = i + 1;
    }
    match malformed {
        Some(e) => Err(MetaError::Malformed(e)),
        None => Ok(t),
    }
}


/// Reads one field-level serde key: `with`, `serialize_with` or
/// `deserialize_with`, each at most once, `with` never with the other two.
pub open spec fn spec_field_serde_step(
    s: SerdeCustomization,
    item: NestedItem<SerdePathValue>,
) -> Result<SerdeCustomization, MetaError> {
    if item.key@ == "with"@ {
        if s.with is Some {
            Err(MetaError::DuplicateFieldSerde { key: SerdeKey::With, span: item.span })
        } else if s.serialize_with is Some || s.deserialize_with is Some {
            Err(MetaError::WithCombined { key: SerdeKey::With, span: item.span })
        } else {
            match item.value {
                SerdePathValue::Invalid(e) => Err(MetaError::InvalidSerdePath(e)),
                SerdePathValue::NotAssigned { span } => Err(MetaError::MissingSerdePath { span }),
                SerdePathValue::Path(p) => Ok(SerdeCustomization { with: Some(p), ..s }),
            }
        }
    } else if item.key@ == "serialize_with"@ {
        if s.serialize_with is Some {
            Err(MetaError::DuplicateFieldSerde { key: SerdeKey::SerializeWith, span: item.span })
        } else if s.with is Some {
            Err(MetaError::WithCombined { key: SerdeKey::SerializeWith, span: item.span })
        } else {
            match item.value {
                SerdePathValue::Invalid(e) => Err(MetaError::InvalidSerdePath(e)),
                SerdePathValue::NotAssigned { span } => Err(MetaError::MissingSerdePath { span }),
                SerdePathValue::Path(p) => Ok(SerdeCustomization { serialize_with: Some(p), ..s }),
            }
        }
    } else if item.key@ == "deserialize_with"@ {
        if s.deserialize_with is Some {
            Err(MetaError::DuplicateFieldSerde { key: SerdeKey::DeserializeWith, span: item.span })
        } else if s.with is Some {
            Err(MetaError::WithCombined { key: SerdeKey::DeserializeWith, span: item.span })
        } else {
            match item.value {
                SerdePathValue::Invalid(e) => Err(MetaError::InvalidSerdePath(e)),
                SerdePathValue::NotAssigned { span } => Err(MetaError::MissingSerdePath { span }),
                SerdePathValue::Path(p) => Ok(SerdeCustomization { deserialize_with: Some(p), ..s }),
            }
        }
    } else {
        Err(MetaError::UnsupportedFieldSerde { span: item.span })
    }
}

/// Reads the first `n` field-level serde keys.
pub open spec fn spec_field_serde_prefix(
    items: Seq<NestedItem<SerdePathValue>>,
    n: nat,
    s: SerdeCustomization,
) -> Result<SerdeCustomization, MetaError>
    decreases n,
{
    if n == 0 {
        Ok(s)
    } else {
        match spec_field_serde_prefix(items, (n - 1) as nat, s) {
            Err(e) => Err(e),
            Ok(t) => spec_field_serde_step(t, items[n - 1]),
        }
    }
}

proof fn lemma_field_serde_err(items: Seq<NestedItem<SerdePathValue>>, k: nat, m: nat, s: SerdeCustomization)
    requires
        k <= m,
        spec_field_serde_prefix(items, k, s) is Err,
    ensures
        spec_field_serde_prefix(items, m, s) == spec_field_serde_prefix(items, k, s),
    decreases m - k,
{
    if k < m {
        lemma_field_serde_err(items, k, (m - 1) as nat, s);
    }
}

/// Reads a `#[serde(...)]` on the field.
pub open spec fn spec_field_serde(
    items: Seq<NestedItem<SerdePathValue>>,
    malformed: Option<syn::Error>,
    s: SerdeCustomization,
) -> Result<SerdeCustomization, MetaError> {
    match spec_field_serde_prefix(items, items.len(), s) {
        Err(e) => Err(e),
        Ok(t) => match malformed {
            Some(e) => Err(MetaError::Malformed(e)),
            None => Ok(t),
        },
    }
}

/// Reads a `#[serde(...)]` on the field.
#[verifier::loop_isolation(false)]
pub fn parse_field_level_serde_attr(
    serde: NestedMeta<SerdePathValue>,
    s: SerdeCustomization,
) -> (r: Result<SerdeCustomization, MetaError>)
    ensures
        r == spec_field_serde(serde.items@, serde.malformed, s),
{
    let ghost input = serde.items@;
    let ghost init = s;
    let NestedMeta { items, malformed } = serde;
    let mut items = items;
    let mut s = s;
    let ghost mut done: nat = 0;
    while items.len() > 0
        invariant
            input.len() == done + items@.len(),
            items@ == input.subrange(done as int, input.len() as int),
            spec_field_serde_prefix(input, done, init) == Ok::<SerdeCustomization, MetaError>(s),
        decreases items@.len(),
    {
        let item = items.remove(0);
        proof {
            done = done + 1;
            assert(input[done - 1] == item);
        }
        let NestedItem { key, span, value } = item;
        if crate::text::str_eq(key.as_str(), "with") {
            if s.with.is_some() {
                proof { lemma_field_serde_err(input, done, input.len(), init); }
                return Err(MetaError::DuplicateFieldSerde { key: SerdeKey::With, span });
            }
            if s.serialize_with.is_some() || s.deserialize_with.is_some() {
                proof { lemma_field_serde_err(input, done, input.len(), init); }
                return Err(MetaError::WithCombined { key: SerdeKey::With, span });
            }
            match value {
                SerdePathValue::Invalid(e) => {
                    proof { lemma_field_serde_err(input, done, input.len(), init); }
                    return Err(MetaError::InvalidSerdePath(e));
                },
                SerdePathValue::NotAssigned { span } => {
                    proof { lemma_field_serde_err(input, done, input.len(), init); }
                    return Err(MetaError::MissingSerdePath { span });
                },
                SerdePathValue::Path(p) => {
                    s.with = Some(p);
                },
            }
        } else if crate::text::str_eq(key.as_str(), "serialize_with") {
            if s.serialize_with.is_some() {
                proof { lemma_field_serde_err(input, done, input.len(), init); }
                return Err(MetaError::DuplicateFieldSerde { key: SerdeKey::SerializeWith, span });
            }
            if s.with.is_some() {
                proof { lemma_field_serde_err(input, done, input.len(), init); }
                return Err(MetaError::WithCombined { key: SerdeKey::SerializeWith, span });
            }
            match value {
                SerdePathValue::Invalid(e) => {
                    proof { lemma_field_serde_err(input, done, input.len(), init); }
                    return Err(MetaError::InvalidSerdePath(e));
                },
                SerdePathValue::NotAssigned { span } => {
                    proof { lemma_field_serde_err(input, done, input.len(), init); }
                    return Err(MetaError::MissingSerdePath { span });
                },
                SerdePathValue::Path(p) => {
                    s.serialize_with = Some(p);
                },
            }
        } else if crate::text::str_eq(key.as_str(), "deserialize_with") {
            if s.deserialize_with.is_some() {
                proof { lemma_field_serde_err(input, done, input.len(), init); }
                return Err(MetaError::DuplicateFieldSerde { key: SerdeKey::DeserializeWith, span });
            }
            if s.with.is_some() {
                proof { lemma_field_serde_err(input, done, input.len(), init); }
                return Err(MetaError::WithCombined { key: SerdeKey::DeserializeWith, span });
            }
            match value {
                SerdePathValue::Invalid(e) => {
                    proof { lemma_field_serde_err(input, done, input.len(), init); }
                    return Err(MetaError::InvalidSerdePath(e));
                },
                SerdePathValue::NotAssigned { span } => {
                    proof { lemma_field_serde_err(input, done, input.len(), init); }
                    return Err(MetaError::MissingSerdePath { span });
                },
                SerdePathValue::Path(p) => {
                    s.deserialize_with = Some(p);
                },
            }
        } else {
            proof { lemma_field_serde_err(input, done, input.len(), init); }
            return Err(MetaError::UnsupportedFieldSerde { span });
        }
        assert(items@ =~= input.subrange(done as int, input.len() as int));
    }
    match malformed {
        Some(e) => Err(MetaError::Malformed(e)),
        None => Ok(s),
    }
}


/// Span of the first `#[derive(..)]` from position `i` on.
pub open spec fn spec_first_derive_from<A>(attrs: Seq<StructAttr<A>>, i: int) -> Option<proc_macro2::Span>
    decreases attrs.len() - i,
{
    if i < 0 || i >= attrs.len() {
        None
    } else if segment_is(attrs[i].first_segment, "derive"@) {
        Some(attrs[i].span)
    } else {
        spec_first_derive_from(attrs, i + 1)
    }
}

/// Refuses `#[derive(..)]` on the struct: traits are asked for inside
/// `#[nutype(derive(..))]`, so that the macro can check them.
pub fn intercept_derive_macro<A>(attrs: &Vec<StructAttr<A>>) -> (r: Result<(), MetaError>)
    ensures
        r == (match spec_first_derive_from(attrs@, 0) {
            Some(span) => Err(MetaError::DeriveNotAllowed { span }),
            None => Ok(()),
        }),
{
    let mut i: usize = 0;
    while i < attrs.len()
        invariant
            i <= attrs@.len(),
            spec_first_derive_from(attrs@, 0) == spec_first_derive_from(attrs@, i as int),
        decreases attrs@.len() - i,
    {
        if is_derive_attribute(&attrs[i]) {
            return Err(MetaError::DeriveNotAllowed { span: attrs[i].span });
        }
        i = i + 1;
    }
    Ok(())
}

/// What is collected from the struct's attributes.
pub struct StructAttrsScan<A> {
    pub doc: Seq<A>,
    pub forwarded: Seq<A>,
    pub transparent: Option<proc_macro2::Span>,
}

/// Sorts one attribute of the struct: doc comments are kept apart, serde
/// attributes are read, schemars attributes are refused, the rest is
/// forwarded to the generated struct.
pub open spec fn spec_struct_attr_step<A>(scan: StructAttrsScan<A>, a: StructAttr<A>) -> Result<StructAttrsScan<A>, MetaError> {
    if segment_is(a.first_segment, "doc"@) {
        Ok(StructAttrsScan { doc: scan.doc.push(a.attr), ..scan })
    } else if segment_is(a.first_segment, "derive"@) {
        Ok(scan)
    } else if segment_is(a.first_segment, "serde"@) {
        match spec_struct_serde(a.serde.items@, a.serde.malformed, scan.transparent) {
            Err(e) => Err(e),
            Ok(t) => Ok(StructAttrsScan { transparent: t, ..scan }),
        }
    } else if segment_is(a.first_segment, "schemars"@) {
        Err(MetaError::SchemarsNotSupported { span: a.span })
    } else {
        Ok(StructAttrsScan { forwarded: scan.forwarded.push(a.attr), ..scan })
    }
}

pub open spec fn spec_struct_attrs_prefix<A>(attrs: Seq<StructAttr<A>>, n: nat) -> Result<StructAttrsScan<A>, MetaError>
    decreases n,
{
    if n == 0 {
        Ok(StructAttrsScan { doc: Seq::empty(), forwarded: Seq::empty(), transparent: None })
    } else {
        match spec_struct_attrs_prefix(attrs, (n - 1) as nat) {
            Err(e) => Err(e),
            Ok(scan) => spec_struct_attr_step(scan, attrs[n - 1]),
        }
    }
}

proof fn lemma_struct_attrs_err<A>(attrs: Seq<StructAttr<A>>, k: nat, m: nat)
    requires
        k <= m,
        spec_struct_attrs_prefix(attrs, k) is Err,
    ensures
        spec_struct_attrs_prefix(attrs, m) == spec_struct_attrs_prefix(attrs, k),
    decreases m - k,
{
    if k < m {
        lemma_struct_attrs_err(attrs, k, (m - 1) as nat);
    }
}

/// The struct's attributes, sorted: doc comments, forwarded attributes, and
/// the span of `#[serde(transparent)]` if given.
pub struct PartitionedStructAttrs<A> {
    pub doc_attrs: Vec<A>,
    pub forwarded_attrs: Vec<A>,
    pub transparent: Option<proc_macro2::Span>,
}

/// Sorts the struct's attributes, in order.
#[verifier::loop_isolation(false)]
pub fn partition_struct_attrs<A>(attrs: Vec<StructAttr<A>>) -> (r: Result<PartitionedStructAttrs<A>, MetaError>)
    ensures
        match spec_struct_attrs_prefix(attrs@, attrs@.len()) {
            Err(e) => r is Err && r->Err_0 == e,
            Ok(scan) => r matches Ok(p) && p.doc_attrs@ == scan.doc && p.forwarded_attrs@ == scan.forwarded
                && p.transparent == scan.transparent,
        },
{
    let ghost input = attrs@;
    let mut attrs = attrs;
    let mut doc_attrs: Vec<A> = Vec::new();
    let mut forwarded_attrs: Vec<A> = Vec::new();
    let mut transparent: Option<proc_macro2::Span> = None;
    let ghost mut done: nat = 0;
    while attrs.len() > 0
        invariant
            input.len() == done + attrs@.len(),
            attrs@ == input.subrange(done as int, input.len() as int),
            spec_struct_attrs_prefix(input, done) == Ok::<StructAttrsScan<A>, MetaError>(
                StructAttrsScan { doc: doc_attrs@, forwarded: forwarded_attrs@, transparent },
            ),
        decreases attrs@.len(),
    {
        let a = attrs.remove(0);
        proof {
            done = done + 1;
            assert(input[done - 1] == a);
        }
        if is_doc_attribute(&a) {
            doc_attrs.push(a.attr);
        } else if is_derive_attribute(&a) {
        } else if first_segment_is(&a.first_segment, "serde") {
            match parse_struct_level_serde_attr(a.serde, transparent) {
                Err(e) => {
                    proof { lemma_struct_attrs_err(input, done, input.len()); }
                    return Err(e);
                },
                Ok(t) => {
                    transparent = t;
                },
            }
        } else if first_segment_is(&a.first_segment, "schemars") {
            proof { lemma_struct_attrs_err(input, done, input.len()); }
            return Err(MetaError::SchemarsNotSupported { span: a.span });
        } else {
            forwarded_attrs.push(a.attr);
        }
        assert(attrs@ =~= input.subrange(done as int, input.len() as int));
    }
    Ok(PartitionedStructAttrs { doc_attrs, forwarded_attrs, transparent })
}


/// Sorts one attribute of the field: serde attributes are read, `cfg` is
/// refused, the rest is forwarded to the generated field.
pub open spec fn spec_field_attr_step<A>(
    forwarded: Seq<A>,
    serde: SerdeCustomization,
    a: FieldAttr<A>,
) -> Result<(Seq<A>, SerdeCustomization), MetaError> {
    if segment_is(a.first_segment, "serde"@) {
        match spec_field_serde(a.serde.items@, a.serde.malformed, serde) {
            Err(e) => Err(e),
            Ok(s) => Ok((forwarded, s)),
        }
    } else if segment_is(a.first_segment, "cfg"@) {
        Err(MetaError::CfgOnField { span: a.span })
    } else {
        Ok((forwarded.push(a.attr), serde))
    }
}

pub open spec fn spec_field_attrs_prefix<A>(
    attrs: Seq<FieldAttr<A>>,
    n: nat,
    serde: SerdeCustomization,
) -> Result<(Seq<A>, SerdeCustomization), MetaError>
    decreases n,
{
    if n == 0 {
        Ok((Seq::empty(), serde))
    } else {
        match spec_field_attrs_prefix(attrs, (n - 1) as nat, serde) {
            Err(e) => Err(e),
            Ok((f, s)) => spec_field_attr_step(f, s, attrs[n - 1]),
        }
    }
}

proof fn lemma_field_attrs_err<A>(attrs: Seq<FieldAttr<A>>, k: nat, m: nat, serde: SerdeCustomization)
    requires
        k <= m,
        spec_field_attrs_prefix(attrs, k, serde) is Err,
    ensures
        spec_field_attrs_prefix(attrs, m, serde) == spec_field_attrs_prefix(attrs, k, serde),
    decreases m - k,
{
    if k < m {
        lemma_field_attrs_err(attrs, k, (m - 1) as nat, serde);
    }
}

/// Sorts the field's attributes, in order; returns those to forward and the
/// serde customization completed with the field's serde keys.
#[verifier::loop_isolation(false)]
pub fn partition_field_attrs<A>(attrs: Vec<FieldAttr<A>>, serde: SerdeCustomization) -> (r: Result<
    (Vec<A>, SerdeCustomization),
    MetaError,
>)
    ensures
        match spec_field_attrs_prefix(attrs@, attrs@.len(), serde) {
            Err(e) => r is Err && r->Err_0 == e,
            Ok((f, s)) => r matches Ok((fv, sv)) && fv@ == f && sv == s,
        },
{
    let ghost input = attrs@;
    let ghost init = serde;
    let mut attrs = attrs;
    let mut forwarded: Vec<A> = Vec::new();
    let mut s = serde;
    let ghost mut done: nat = 0;
    while attrs.len() > 0
        invariant
            input.len() == done + attrs@.len(),
            attrs@ == input.subrange(done as int, input.len() as int),
            spec_field_attrs_prefix(input, done, init) == Ok::<(Seq<A>, SerdeCustomization), MetaError>(
                (forwarded@, s),
            ),
        decreases attrs@.len(),
    {
        let a = attrs.remove(0);
        proof {
            done = done + 1;
            assert(input[done - 1] == a);
        }
        if first_segment_is(&a.first_segment, "serde") {
            match parse_field_level_serde_attr(a.serde, s) {
                Err(e) => {
                    proof { lemma_field_attrs_err(input, done, input.len(), init); }
                    return Err(e);
                },
                Ok(t) => {
                    s = t;
                },
            }
        } else if first_segment_is(&a.first_segment, "cfg") {
            proof { lemma_field_attrs_err(input, done, input.len(), init); }
            return Err(MetaError::CfgOnField { span: a.span });
        } else {
            forwarded.push(a.attr);
        }
        assert(attrs@ =~= input.subrange(done as int, input.len() as int));
    }
    Ok((forwarded, s))
}

/// What the annotated item is, as far as the macro cares.
#[derive(Debug, Clone, Copy, PartialEq, Eq, Structural)]
pub enum DataShape {
    /// A struct with named fields.
    NamedStruct,
    /// A tuple struct.
    TupleStruct,
    /// A struct without fields.
    UnitStruct,
    Enum,
    Union,
}

/// The first field of the tuple struct.
pub struct FieldInput<A> {
    /// The field has no visibility of its own.
    pub vis_inherited: bool,
    pub vis_span: proc_macro2::Span,
    pub attrs: Vec<FieldAttr<A>>,
    /// The field's type as written, e.g. `rust_decimal :: Decimal`.
    pub type_text: String,
    pub type_span: proc_macro2::Span,
}

/// The item annotated with `#[nutype]`, as plain values.
pub struct MetaInput<A> {
    pub attrs: Vec<StructAttr<A>>,
    pub span: proc_macro2::Span,
    pub shape: DataShape,
    /// The span of the tuple struct's fields.
    pub fields_span: proc_macro2::Span,
    pub first_field: Option<FieldInput<A>>,
}

/// The item as the macro goes on with it.
pub struct MetaModel<A> {
    pub doc_attrs: Vec<A>,
    pub forwarded_attrs: Vec<A>,
    pub inner_field_attrs: Vec<A>,
    pub serde_customization: SerdeCustomization,
    pub inner_type: InnerTypeKind,
}

/// `MetaModel` with sequences in place of vectors.
pub struct MetaView<A> {
    pub doc_attrs: Seq<A>,
    pub forwarded_attrs: Seq<A>,
    pub inner_field_attrs: Seq<A>,
    pub serde_customization: SerdeCustomization,
    pub inner_type: InnerTypeKind,
}

/// What reading the annotated item gives, check by check in this order:
/// no `#[derive]`, the struct's attributes, a tuple struct, with a field,
/// without visibility, the field's attributes, the field's type.
pub open spec fn spec_parse_meta<A>(input: MetaInput<A>, decimal_enabled: bool) -> Result<MetaView<A>, MetaError> {
    match spec_first_derive_from(input.attrs@, 0) {
        Some(span) => Err(MetaError::DeriveNotAllowed { span }),
        None => match spec_struct_attrs_prefix(input.attrs@, input.attrs@.len()) {
            Err(e) => Err(e),
            Ok(scan) => if input.shape != DataShape::TupleStruct {
                Err(MetaError::NotTupleStruct { span: input.span })
            } else {
                match input.first_field {
                    None => Err(MetaError::EmptyTupleStruct { span: input.fields_span }),
                    Some(field) => if !field.vis_inherited {
                        Err(MetaError::FieldVisibility { span: field.vis_span })
                    } else {
                        let init = SerdeCustomization {
                            transparent: scan.transparent,
                            with: None,
                            serialize_with: None,
                            deserialize_with: None,
                        };
                        match spec_field_attrs_prefix(field.attrs@, field.attrs@.len(), init) {
                            Err(e) => Err(e),
                            Ok((f, s)) => match spec_classify_inner_type(spec_compact(field.type_text@), decimal_enabled) {
                                Err(_) => Err(MetaError::DecimalFeatureMissing { span: field.type_span }),
                                Ok(inner) => Ok(
                                    MetaView {
                                        doc_attrs: scan.doc,
                                        forwarded_attrs: scan.forwarded,
                                        inner_field_attrs: f,
                                        serde_customization: s,
                                        inner_type: inner,
                                    },
                                ),
                            },
                        }
                    },
                }
            },
        },
    }
}

/// Refuses a visibility on the field: values must go through the guards.
pub fn validate_inner_field_visibility(vis_inherited: bool, vis_span: proc_macro2::Span) -> (r: Result<(), MetaError>)
    ensures
        r == (if vis_inherited {
            Ok(())
        } else {
            Err(MetaError::FieldVisibility { span: vis_span })
        }),
{
    if vis_inherited {
        Ok(())
    } else {
        Err(MetaError::FieldVisibility { span: vis_span })
    }
}

/// Reads the item annotated with `#[nutype]`.
pub fn parse_meta<A>(input: MetaInput<A>, decimal_enabled: bool) -> (r: Result<MetaModel<A>, MetaError>)
    ensures
        match spec_parse_meta(input, decimal_enabled) {
            Err(e) => r is Err && r->Err_0 == e,
            Ok(m) => r matches Ok(mm) && mm.doc_attrs@ == m.doc_attrs && mm.forwarded_attrs@ == m.forwarded_attrs
                && mm.inner_field_attrs@ == m.inner_field_attrs && mm.serde_customization == m.serde_customization
                && mm.inner_type == m.inner_type,
        },
{
    let MetaInput { attrs, span, shape, fields_span, first_field } = input;
    intercept_derive_macro(&attrs)?;
    let PartitionedStructAttrs { doc_attrs, forwarded_attrs, transparent } = partition_struct_attrs(attrs)?;
    if shape != DataShape::TupleStruct {
        return Err(MetaError::NotTupleStruct { span });
    }
    let field = match first_field {
        None => {
            return Err(MetaError::EmptyTupleStruct { span: fields_span });
        },
        Some(field) => field,
    };
    let FieldInput { vis_inherited, vis_span, attrs: field_attrs, type_text, type_span } = field;
    validate_inner_field_visibility(vis_inherited, vis_span)?;
    let init = SerdeCustomization { transparent, with: None, serialize_with: None, deserialize_with: None };
    let (inner_field_attrs, serde_customization) = partition_field_attrs(field_attrs, init)?;
    let inner_type = match classify_inner_type(type_text.as_str(), decimal_enabled) {
        Err(_) => {
            return Err(MetaError::DecimalFeatureMissing { span: type_span });
        },
        Ok(t) => t,
    };
    Ok(MetaModel { doc_attrs, forwarded_attrs, inner_field_attrs, serde_customization, inner_type })
}


/// Whether a skeleton of the newtype can be emitted next to an error: only
/// for a tuple struct with a field.
pub fn fallback_skeleton_applies(shape: DataShape, has_first_field: bool) -> (r: bool)
    ensures
        r == (shape == DataShape::TupleStruct && has_first_field),
{
    shape == DataShape::TupleStruct && has_first_field
}


// Reading the annotated item with syn
//

/// `syn::DeriveInput`: the item `#[nutype]` is put on, as syn reads it.
#[verifier::external_type_specification]
#[verifier::external_body]
pub struct ExDeriveInput(syn::DeriveInput);

/// `syn::Data`: the body of the item (struct, enum or union).
#[verifier::external_type_specification]
#[verifier::external_body]
pub struct ExData(syn::Data);

/// `syn::Attribute`: an outer attribute, carried through to the output.
#[verifier::external_type_specification]
#[verifier::external_body]
pub struct ExAttribute(syn::Attribute);

/// `syn::Field`: a field of the item.
#[verifier::external_type_specification]
#[verifier::external_body]
pub struct ExField(syn::Field);

/// `syn::Meta`: one item of an attribute's list, such as `with = "m"`.
#[verifier::external_type_specification]
#[verifier::external_body]
pub struct ExMeta(syn::Meta);

/// `syn::Visibility`: the item's visibility, repeated by the output.
#[verifier::external_type_specification]
#[verifier::external_body]
pub struct ExVisibility(syn::Visibility);

/// `syn::Generics`: the item's generics, repeated by the output.
#[verifier::external_type_specification]
#[verifier::external_body]
pub struct ExGenerics(syn::Generics);

/// `syn::parse2::<syn::DeriveInput>`: reads the annotated item. Nothing is
/// stated of which token streams syn accepts.
#[verifier::external_body]
fn parse_derive_input(tokens: proc_macro2::TokenStream) -> (r: Result<syn::DeriveInput, syn::Error>) {
    syn::parse2(tokens)
}

/// Moves the parts out of a `syn::DeriveInput`, with the span of the whole
/// item (`Spanned::span`).
#[verifier::external_body]
fn derive_input_parts(
    input: syn::DeriveInput,
) -> (r: (Vec<syn::Attribute>, proc_macro2::Ident, syn::Visibility, syn::Generics, syn::Data, proc_macro2::Span)) {
    let span = input.span();
    let syn::DeriveInput { attrs, vis, ident, generics, data } = input;
    (attrs, ident, vis, generics, data, span)
}

/// What kind of item `syn::Data` is, the span of a struct's fields
/// (`Spanned::span`, none for a unit struct, an enum or a union) and the
/// first field of a tuple struct, moved out.
#[verifier::external_body]
fn data_parts(data: syn::Data) -> (r: (DataShape, Option<proc_macro2::Span>, Option<syn::Field>)) {
    match data {
        syn::Data::Struct(s) => match s.fields {
            syn::Fields::Unnamed(f) => (DataShape::TupleStruct, Some(f.span()), f.unnamed.into_iter().next()),
            syn::Fields::Named(f) => (DataShape::NamedStruct, Some(f.span()), None),
            syn::Fields::Unit => (DataShape::UnitStruct, None, None),
        },
        syn::Data::Enum(_) => (DataShape::Enum, None, None),
        syn::Data::Union(_) => (DataShape::Union, None, None),
    }
}

/// Splits a field: its attributes, taken out of it; whether its visibility
/// is `syn::Visibility::Inherited`; the spans of its visibility and of its
/// type (`Spanned::span`); its type's tokens as text (`ToTokens`); and the
/// field left without attributes.
#[verifier::external_body]
fn field_parts(field: syn::Field) -> (r: (Vec<syn::Attribute>, bool, proc_macro2::Span, String, proc_macro2::Span, syn::Field)) {
    let mut field = field;
    let attrs = core::mem::take(&mut field.attrs);
    let vis_inherited = matches!(field.vis, syn::Visibility::Inherited);
    let vis_span = field.vis.span();
    let type_text = field.ty.to_token_stream().to_string();
    let type_span = field.ty.span();
    (attrs, vis_inherited, vis_span, type_text, type_span, field)
}

/// The first segment of an attribute's path as text (`Attribute::path`)
/// and the attribute's span (`Spanned::span`).
#[verifier::external_body]
fn attribute_head(attr: &syn::Attribute) -> (r: (Option<String>, proc_macro2::Span)) {
    (attr.path().segments.first().map(|segment| segment.ident.to_string()), attr.span())
}

/// The tokens inside an attribute's parentheses (`Meta::require_list`),
/// or syn's error when the attribute has no parenthesised list.
#[verifier::external_body]
fn attribute_list_tokens(attr: &syn::Attribute) -> (r: Result<proc_macro2::TokenStream, syn::Error>) {
    Ok(attr.meta.require_list()?.tokens.clone())
}

/// One item of an attribute's list, read by syn (`syn::parse2::<syn::Meta>`).
#[verifier::external_body]
fn parse_meta_item(ts: proc_macro2::TokenStream) -> (r: Result<syn::Meta, syn::Error>) {
    syn::parse2(ts)
}

/// The comma-separated items of an attribute's list, read in order up to
/// the first that syn refuses, whose error ends the list.
fn nested_metas(attr: &syn::Attribute) -> (r: (Vec<syn::Meta>, Option<syn::Error>)) {
    match attribute_list_tokens(attr) {
        Err(e) => (Vec::new(), Some(e)),
        Ok(ts) => {
            let mut items = split_on_commas(tokens_of(ts));
            let mut metas: Vec<syn::Meta> = Vec::new();
            while items.len() > 0
                decreases items@.len(),
            {
                let item = items.remove(0);
                match parse_meta_item(stream_of(&trees_of(item))) {
                    Ok(m) => metas.push(m),
                    Err(e) => {
                        return (metas, Some(e));
                    },
                }
            }
            (metas, None)
        },
    }
}

/// An item of an attribute's list: its path as text (`ToTokens`), the span
/// of its path, and whether the item is a bare path (`syn::Meta::Path`).
#[verifier::external_body]
fn meta_item_head(item: &syn::Meta) -> (r: (String, proc_macro2::Span, bool)) {
    let path = item.path();
    (path.to_token_stream().to_string(), path.span(), matches!(item, syn::Meta::Path(_)))
}

/// The value of an item of an attribute's list written `key = value`
/// (`syn::Meta::NameValue`), none for another form of item.
#[verifier::external_body]
fn meta_item_value(item: &syn::Meta) -> (r: Option<syn::Expr>) {
    match item {
        syn::Meta::NameValue(name_value) => Some(name_value.value.clone()),
        _ => None,
    }
}

/// A value read as serde reads a path: a string literal (`syn::LitStr`)
/// whose content is a path (`LitStr::parse`), with the literal's span; syn's
/// error when the value is not a string literal or its content is not a
/// path.
#[verifier::external_body]
fn path_in_string_literal(value: syn::Expr) -> (r: Result<SpannedItem<syn::Path>, syn::Error>) {
    let lit: syn::LitStr = syn::parse2(value.to_token_stream())?;
    let path: syn::Path = lit.parse().map_err(|err| {
        syn::Error::new(lit.span(), format!("Expected a path (e.g. `my_module::my_function`), like in serde: {err}"))
    })?;
    Ok(SpannedItem { item: path, span: lit.span() })
}

/// The items of a `#[serde(...)]` on the struct; a key's value is never
/// read there, only whether the item is a bare key.
fn struct_serde_items(metas: Vec<syn::Meta>) -> (r: Vec<NestedItem<bool>>)
    ensures
        r@.len() == metas@.len(),
{
    let mut items: Vec<NestedItem<bool>> = Vec::new();
    let mut i: usize = 0;
    while i < metas.len()
        invariant
            i <= metas@.len(),
            items@.len() == i,
        decreases metas@.len() - i,
    {
        let (key, span, bare) = meta_item_head(&metas[i]);
        items.push(NestedItem { key, span, value: bare });
        i = i + 1;
    }
    items
}

/// The items of a `#[serde(...)]` on the field, each with its value read as
/// a path; which keys may carry a path is decided by
/// [`spec_field_serde_step`], which looks at the value of those keys only.
fn field_serde_items(metas: Vec<syn::Meta>) -> (r: Vec<NestedItem<SerdePathValue>>)
    ensures
        r@.len() == metas@.len(),
{
    let mut items: Vec<NestedItem<SerdePathValue>> = Vec::new();
    let mut i: usize = 0;
    while i < metas.len()
        invariant
            i <= metas@.len(),
            items@.len() == i,
        decreases metas@.len() - i,
    {
        let (key, span, _bare) = meta_item_head(&metas[i]);
        let value = match meta_item_value(&metas[i]) {
            None => SerdePathValue::NotAssigned { span },
            Some(expr) => match path_in_string_literal(expr) {
                Ok(p) => SerdePathValue::Path(p),
                Err(e) => SerdePathValue::Invalid(e),
            },
        };
        items.push(NestedItem { key, span, value });
        i = i + 1;
    }
    items
}

/// No items and no error: what an attribute other than `serde` carries.
pub open spec fn no_nested_items<V>(n: NestedMeta<V>) -> bool {
    n.items@.len() == 0 && n.malformed is None
}

/// An attribute of the struct: its first segment and span, and, for
/// `#[serde(...)]` only, its items (or the error of a malformed list).
fn struct_attr_info(attr: syn::Attribute) -> (r: StructAttr<syn::Attribute>)
    ensures
        r.attr == attr,
        !segment_is(r.first_segment, "serde"@) ==> no_nested_items(r.serde),
{
    let (first_segment, span) = attribute_head(&attr);
    let serde = if first_segment_is(&first_segment, "serde") {
        let (metas, malformed) = nested_metas(&attr);
        NestedMeta { items: struct_serde_items(metas), malformed }
    } else {
        NestedMeta { items: Vec::new(), malformed: None }
    };
    AttrInfo { attr, first_segment, span, serde }
}

/// An attribute of the field: its first segment and span, and, for
/// `#[serde(...)]` only, its items (or the error of a malformed list).
fn field_attr_info(attr: syn::Attribute) -> (r: FieldAttr<syn::Attribute>)
    ensures
        r.attr == attr,
        !segment_is(r.first_segment, "serde"@) ==> no_nested_items(r.serde),
{
    let (first_segment, span) = attribute_head(&attr);
    let serde = if first_segment_is(&first_segment, "serde") {
        let (metas, malformed) = nested_metas(&attr);
        NestedMeta { items: field_serde_items(metas), malformed }
    } else {
        NestedMeta { items: Vec::new(), malformed: None }
    };
    AttrInfo { attr, first_segment, span, serde }
}

/// The attributes, read in order, each kept with what was read of it.
pub open spec fn attrs_read_in_order<V>(attrs: Seq<syn::Attribute>, infos: Seq<AttrInfo<syn::Attribute, V>>) -> bool {
    &&& infos.len() == attrs.len()
    &&& forall|i: int| 0 <= i < infos.len() ==> (#[trigger] infos[i]).attr == attrs[i]
    &&& forall|i: int|
        0 <= i < infos.len() ==> !segment_is((#[trigger] infos[i]).first_segment, "serde"@) ==> no_nested_items(
            infos[i].serde,
        )
}

fn struct_attr_infos(attrs: Vec<syn::Attribute>) -> (r: Vec<StructAttr<syn::Attribute>>)
    ensures
        attrs_read_in_order(attrs@, r@),
{
    let ghost input = attrs@;
    let mut attrs = attrs;
    let mut infos: Vec<StructAttr<syn::Attribute>> = Vec::new();
    while attrs.len() > 0
        invariant
            input.len() == infos@.len() + attrs@.len(),
            attrs@ == input.subrange(infos@.len() as int, input.len() as int),
            attrs_read_in_order(input.subrange(0, infos@.len() as int), infos@),
        decreases attrs@.len(),
    {
        let a = attrs.remove(0);
        infos.push(struct_attr_info(a));
        assert(attrs@ =~= input.subrange(infos@.len() as int, input.len() as int));
        assert(input.subrange(0, infos@.len() as int) =~= input.subrange(0, infos@.len() - 1).push(a));
    }
    assert(input.subrange(0, input.len() as int) =~= input);
    infos
}

fn field_attr_infos(attrs: Vec<syn::Attribute>) -> (r: Vec<FieldAttr<syn::Attribute>>)
    ensures
        attrs_read_in_order(attrs@, r@),
{
    let ghost input = attrs@;
    let mut attrs = attrs;
    let mut infos: Vec<FieldAttr<syn::Attribute>> = Vec::new();
    while attrs.len() > 0
        invariant
            input.len() == infos@.len() + attrs@.len(),
            attrs@ == input.subrange(infos@.len() as int, input.len() as int),
            attrs_read_in_order(input.subrange(0, infos@.len() as int), infos@),
        decreases attrs@.len(),
    {
        let a = attrs.remove(0);
        infos.push(field_attr_info(a));
        assert(attrs@ =~= input.subrange(infos@.len() as int, input.len() as int));
        assert(input.subrange(0, infos@.len() as int) =~= input.subrange(0, infos@.len() - 1).push(a));
    }
    assert(input.subrange(0, input.len() as int) =~= input);
    infos
}

/// What the output repeats of the item: its name, visibility and generics.
pub struct ItemHeader {
    pub ident: proc_macro2::Ident,
    pub vis: syn::Visibility,
    pub generics: syn::Generics,
}

/// The annotated item read by syn: its header, the plain model of what the
/// checks look at, and the first field, without attributes, when there is
/// one.
pub struct ReadItem {
    pub header: ItemHeader,
    pub input: MetaInput<syn::Attribute>,
    pub field: Option<syn::Field>,
}

/// A read item whose field is there exactly when the model has one.
pub open spec fn read_item_wf(item: ReadItem) -> bool {
    item.field is Some <==> item.input.first_field is Some
}

/// Reads the annotated item with syn into the library's model. What syn
/// accepts and what it reads is not stated; the attributes keep their order
/// and only `serde` attributes have their items read.
pub fn read_item(type_definition: proc_macro2::TokenStream) -> (r: Result<ReadItem, syn::Error>)
    ensures
        r matches Ok(item) ==> read_item_wf(item),
{
    let input = parse_derive_input(type_definition)?;
    let (attrs, ident, vis, generics, data, span) = derive_input_parts(input);
    let attrs = struct_attr_infos(attrs);
    let (shape, maybe_fields_span, maybe_field) = data_parts(data);
    let fields_span = match maybe_fields_span {
        Some(s) => s,
        None => span,
    };
    let (first_field, field) = match maybe_field {
        None => (None, None),
        Some(f) => {
            let (field_attrs, vis_inherited, vis_span, type_text, type_span, bare) = field_parts(f);
            let attrs = field_attr_infos(field_attrs);
            (Some(FieldInput { vis_inherited, vis_span, attrs, type_text, type_span }), Some(bare))
        },
    };
    Ok(
        ReadItem {
            header: ItemHeader { ident, vis, generics },
            input: MetaInput { attrs, span, shape, fields_span, first_field },
            field,
        },
    )
}

/// The annotated item, read and checked.
pub struct ReadMeta {
    pub header: ItemHeader,
    pub model: MetaModel<syn::Attribute>,
    /// The first field, without attributes.
    pub field: syn::Field,
}

/// Why the annotated item is refused, with its header when syn could read
/// the item.
pub struct MetaReadError {
    pub error: MetaError,
    pub header: Option<ItemHeader>,
}

/// The model agrees with the view that [`spec_parse_meta`] gives.
pub open spec fn model_is<A>(model: MetaModel<A>, view: MetaView<A>) -> bool {
    &&& model.doc_attrs@ == view.doc_attrs
    &&& model.forwarded_attrs@ == view.forwarded_attrs
    &&& model.inner_field_attrs@ == view.inner_field_attrs
    &&& model.serde_customization == view.serde_customization
    &&& model.inner_type == view.inner_type
}

/// Checks an item read by [`read_item`]: syn's error is reported as
/// malformed input; otherwise the answer is that of [`parse_meta`] on the
/// item's model, with the item's header and field.
pub fn meta_from_item(read: Result<ReadItem, syn::Error>, decimal_enabled: bool) -> (r: Result<ReadMeta, MetaReadError>)
    requires
        read matches Ok(item) ==> read_item_wf(item),
    ensures
        match read {
            Err(e) => r matches Err(err) && err.error == MetaError::Malformed(e) && err.header is None,
            Ok(item) => match spec_parse_meta(item.input, decimal_enabled) {
                Err(e) => r matches Err(err) && err.error == e && err.header == Some(item.header),
                Ok(v) => r matches Ok(m) && m.header == item.header && model_is(m.model, v) && item.field == Some(
                    m.field,
                ),
            },
        },
{
    let item = match read {
        Err(e) => {
            return Err(MetaReadError { error: MetaError::Malformed(e), header: None });
        },
        Ok(item) => item,
    };
    let ReadItem { header, input, field } = item;
    let fields_span = input.fields_span;
    match parse_meta(input, decimal_enabled) {
        Err(error) => Err(MetaReadError { error, header: Some(header) }),
        Ok(model) => match field {
            Some(field) => Ok(ReadMeta { header, model, field }),
            None => {
                // Not reached: `parse_meta` accepts only an item with a field.
                Err(MetaReadError { error: MetaError::EmptyTupleStruct { span: fields_span }, header: Some(header) })
            },
        },
    }
}

/// Reads and checks the item annotated with `#[nutype]`: the item is read
/// with syn ([`read_item`]) and then checked ([`meta_from_item`]).
pub fn read_meta(type_definition: proc_macro2::TokenStream, features: Features) -> (r: Result<ReadMeta, MetaReadError>)
    ensures
        r matches Err(e) ==> (e.header is None ==> e.error is Malformed),
        r matches Ok(m) ==> exists|input: MetaInput<syn::Attribute>|
            #[trigger] spec_parse_meta(input, features.rust_decimal) matches Ok(v) && model_is(m.model, v),
{
    let read = read_item(type_definition);
    meta_from_item(read, features.rust_decimal)
}

} // verus!
