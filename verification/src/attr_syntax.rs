use vstd::prelude::*;

use core::marker::PhantomData;

use crate::any::{AnySanitizer, AnySanitizerKind, AnyValidator, AnyValidatorKind};
use crate::attributes::{spec_classify_attr, classify_attr, AttrKeyword, AttrKeywordError, ParseableAttributes, ParsedAttr};
use crate::base::{Kind, SpannedItem};
use crate::closure::TokenKind;
use crate::decimal::{DecimalSanitizer, DecimalSanitizerKind, DecimalValidator, DecimalValidatorKind};
use crate::decimal_lit::DecimalLit;
use crate::derive::{parse_derive_trait, spec_parse_derive_trait};
use crate::float::{FloatSanitizer, FloatSanitizerKind, FloatValidator, FloatValidatorKind};
use crate::integer::{IntegerSanitizer, IntegerSanitizerKind, IntegerValidator, IntegerValidatorKind};
use crate::kinds::{display_name, parse_kind, KindName, KindParseError};
use crate::models::{CfgAttrEntry, CustomFunction, DeriveTrait, ErrorTypeName, Features, NewUnchecked, TypedCustomFunction, ValueOrExpr};
use crate::number::{number_text, parse_integer_number, spec_number_text, spec_parse_integer, IntegerLiteral};
use crate::raw_validation::{raw_validation_from_attrs, ExtraValidateAttrKind, ValidateAttr};

verus! {

/// `proc_macro2::TokenTree`: one token, or a delimited group of tokens.
#[verifier::external_type_specification]
#[verifier::external_body]
pub struct ExTokenTree(proc_macro2::TokenTree);

/// The delimiter of a group of tokens.
#[derive(Debug, Clone, Copy, PartialEq, Eq, Structural)]
pub enum Delim {
    Paren,
    Bracket,
    Brace,
    /// An invisible group.
    NoDelim,
}

/// What the grammar of `#[nutype(...)]` sees of a token.
pub enum AttrToken {
    Ident(String),
    Punct(char),
    /// A literal as written, e.g. `5`, `1_000u8` or `"abc"`.
    Literal(String),
    /// A delimited group and the tokens inside it.
    Group(Delim, proc_macro2::TokenStream),
}

/// A token with its span, and the token itself, kept to hand the tokens of
/// a value back to syn.
pub struct Tok {
    pub token: AttrToken,
    pub span: proc_macro2::Span,
    pub tree: proc_macro2::TokenTree,
}

/// The tokens of a stream, in order (`TokenStream::into_iter`).
#[verifier::external_body]
fn token_trees(ts: proc_macro2::TokenStream) -> (r: Vec<proc_macro2::TokenTree>) {
    ts.into_iter().collect()
}

/// What a token is, one variant of `proc_macro2::TokenTree` for one of
/// `AttrToken` (names, punctuation and literals as text, a group's
/// delimiter and inner stream), with the token's span.
#[verifier::external_body]
fn tok_of(tree: proc_macro2::TokenTree) -> (r: Tok) {
    let token = match &tree {
        proc_macro2::TokenTree::Ident(ident) => AttrToken::Ident(ident.to_string()),
        proc_macro2::TokenTree::Punct(punct) => AttrToken::Punct(punct.as_char()),
        proc_macro2::TokenTree::Literal(lit) => AttrToken::Literal(lit.to_string()),
        proc_macro2::TokenTree::Group(group) => AttrToken::Group(
            match group.delimiter() {
                proc_macro2::Delimiter::Parenthesis => Delim::Paren,
                proc_macro2::Delimiter::Bracket => Delim::Bracket,
                proc_macro2::Delimiter::Brace => Delim::Brace,
                proc_macro2::Delimiter::None => Delim::NoDelim,
            },
            group.stream(),
        ),
    };
    Tok { token, span: tree.span(), tree }
}

/// The tokens of a stream, each with what the grammar sees of it.
pub fn tokens_of(ts: proc_macro2::TokenStream) -> (r: Vec<Tok>) {
    let mut trees = token_trees(ts);
    let mut out: Vec<Tok> = Vec::new();
    while trees.len() > 0
        decreases trees@.len(),
    {
        let tree = trees.remove(0);
        out.push(tok_of(tree));
    }
    out
}

/// The token is the punctuation `c`.
pub open spec fn is_punct(t: Tok, c: char) -> bool {
    t.token matches AttrToken::Punct(p) && p == c
}

/// Splits tokens at the commas: `cur` is the item being read, `done` the
/// items read before it. A trailing comma ends the last item; an empty
/// item elsewhere is kept (and refused by the item's grammar).
pub open spec fn spec_split_commas_from(s: Seq<Tok>, cur: Seq<Tok>, done: Seq<Seq<Tok>>) -> Seq<Seq<Tok>>
    decreases s.len(),
{
    if s.len() == 0 {
        if cur.len() == 0 {
            done
        } else {
            done.push(cur)
        }
    } else if is_punct(s[0], ',') {
        spec_split_commas_from(s.drop_first(), Seq::empty(), done.push(cur))
    } else {
        spec_split_commas_from(s.drop_first(), cur.push(s[0]), done)
    }
}

/// The comma-separated items of a list of tokens.
pub open spec fn spec_split_commas(s: Seq<Tok>) -> Seq<Seq<Tok>> {
    spec_split_commas_from(s, Seq::empty(), Seq::empty())
}

/// The views of a list of token lists.
pub open spec fn views_of(v: Seq<Vec<Tok>>) -> Seq<Seq<Tok>> {
    v.map_values(|x: Vec<Tok>| x@)
}

/// Splits a list of tokens into its comma-separated items.
pub fn split_on_commas(tokens: Vec<Tok>) -> (r: Vec<Vec<Tok>>)
    ensures
        views_of(r@) == spec_split_commas(tokens@),
{
    let ghost input = tokens@;
    let mut tokens = tokens;
    let mut done: Vec<Vec<Tok>> = Vec::new();
    let mut cur: Vec<Tok> = Vec::new();
    assert(views_of(done@) =~= Seq::<Seq<Tok>>::empty());
    assert(cur@ =~= Seq::<Tok>::empty());
    while tokens.len() > 0
        invariant
            spec_split_commas(input) == spec_split_commas_from(tokens@, cur@, views_of(done@)),
        decreases tokens@.len(),
    {
        let ghost rest = tokens@;
        let ghost old_cur = cur@;
        let ghost old_done = views_of(done@);
        let t = tokens.remove(0);
        assert(tokens@ =~= rest.drop_first());
        assert(rest[0] == t);
        let is_comma = match &t.token {
            AttrToken::Punct(c) => *c == ',',
            _ => false,
        };
        assert(is_comma == is_punct(t, ','));
        if is_comma {
            let item = cur;
            cur = Vec::new();
            done.push(item);
            assert(views_of(done@) =~= old_done.push(old_cur));
            assert(cur@ =~= Seq::<Tok>::empty());
        } else {
            cur.push(t);
            assert(cur@ =~= old_cur.push(rest[0]));
        }
    }
    if cur.len() > 0 {
        let ghost before = done@;
        let last = cur;
        done.push(last);
        assert(views_of(done@) =~= views_of(before).push(last@));
    }
    done
}

/// Why the arguments of `#[nutype(...)]` cannot be read.
pub enum AttrSyntaxError {
    /// Two commas with nothing between them, or a leading comma.
    EmptyItem,
    /// An item does not start with a name.
    ExpectedName { span: proc_macro2::Span },
    /// The name of an attribute is refused (unknown, missing parentheses,
    /// `new_unchecked` without its feature).
    Keyword(AttrKeywordError),
    /// A token where the item should have ended.
    Unexpected { span: proc_macro2::Span },
    /// `=` is missing after a name that needs a value; the span is that of
    /// the name.
    ExpectedEq { span: proc_macro2::Span },
    /// Nothing follows `=`; the span is that of `=`.
    MissingValue { span: proc_macro2::Span },
    /// Something other than a name where a name is needed.
    ExpectedIdent { span: proc_macro2::Span },
    /// Something other than a path or a closure where a function is needed.
    ExpectedFunction { span: proc_macro2::Span },
    /// An unknown sanitizer; with its snake-case spelling when only the case
    /// differs.
    UnknownSanitizer { name: String, span: proc_macro2::Span, did_you_mean: Option<Vec<char>> },
    /// An unknown name inside `validate(...)`.
    UnknownValidateAttr { name: String, span: proc_macro2::Span },
    /// An unknown trait inside `derive(...)`.
    DeriveName { error: crate::derive::DeriveParseError, name: String, span: proc_macro2::Span },
    /// `cfg_attr(...)` without a predicate before the first comma.
    MissingPredicate { span: proc_macro2::Span },
    /// `cfg_attr(pred, ...)` where `...` is not `derive(...)`.
    OnlyDeriveInCfgAttr { span: proc_macro2::Span },
    /// The content of `validate(...)` is refused.
    Validation(crate::raw_validation::RawValidationError),
    /// syn refused an expression, a path, a closure or a type.
    Syn(syn::Error),
}

/// What follows the name of an attribute of `#[nutype(...)]`.
pub enum AttrBody {
    /// Nothing (`new_unchecked`).
    Bare,
    /// A parenthesised list: the group's span and the tokens inside.
    List(proc_macro2::Span, proc_macro2::TokenStream),
    /// The tokens after `=`.
    Value(Vec<Tok>),
}

/// One attribute of `#[nutype(...)]`, before its content is read.
pub struct AttrItem {
    pub keyword: AttrKeyword,
    pub span: proc_macro2::Span,
    pub body: AttrBody,
}

/// [`AttrBody`] with a sequence in place of the vector.
pub enum AttrBodyView {
    Bare,
    List(proc_macro2::Span, proc_macro2::TokenStream),
    Value(Seq<Tok>),
}

pub open spec fn body_view(b: AttrBody) -> AttrBodyView {
    match b {
        AttrBody::Bare => AttrBodyView::Bare,
        AttrBody::List(span, ts) => AttrBodyView::List(span, ts),
        AttrBody::Value(v) => AttrBodyView::Value(v@),
    }
}

/// The keyword takes a parenthesised list.
pub open spec fn takes_list(k: AttrKeyword) -> bool {
    k is Sanitize || k is Validate || k is Derive || k is CfgAttr
}

/// What one comma-separated item of `#[nutype(...)]` is: a name, then a
/// parenthesised list for `sanitize`, `validate`, `derive` and `cfg_attr`,
/// `= value` for `default`, nothing for `new_unchecked`.
pub open spec fn spec_attr_item(item: Seq<Tok>, new_unchecked_enabled: bool) -> Result<
    (AttrKeyword, proc_macro2::Span, AttrBodyView),
    AttrSyntaxError,
> {
    if item.len() == 0 {
        Err(AttrSyntaxError::EmptyItem)
    } else {
        match item[0].token {
            AttrToken::Ident(name) => {
                let span = item[0].span;
                let paren = item.len() > 1 && item[1].token matches AttrToken::Group(Delim::Paren, _);
                match spec_classify_attr(name@, span, paren, new_unchecked_enabled) {
                    Err(e) => Err(AttrSyntaxError::Keyword(e)),
                    Ok(k) => if takes_list(k) {
                        if item.len() > 2 {
                            Err(AttrSyntaxError::Unexpected { span: item[2].span })
                        } else {
                            match item[1].token {
                                AttrToken::Group(_, ts) => Ok((k, span, AttrBodyView::List(item[1].span, ts))),
                                _ => Err(AttrSyntaxError::Unexpected { span: item[1].span }),
                            }
                        }
                    } else if k is Default {
                        if item.len() < 2 || !is_punct(item[1], '=') {
                            Err(AttrSyntaxError::ExpectedEq { span })
                        } else if item.len() == 2 {
                            Err(AttrSyntaxError::MissingValue { span: item[1].span })
                        } else {
                            Ok((k, span, AttrBodyView::Value(item.subrange(2, item.len() as int))))
                        }
                    } else if item.len() > 1 {
                        Err(AttrSyntaxError::Unexpected { span: item[1].span })
                    } else {
                        Ok((k, span, AttrBodyView::Bare))
                    },
                }
            },
            _ => Err(AttrSyntaxError::ExpectedName { span: item[0].span }),
        }
    }
}

/// Reads one comma-separated item of `#[nutype(...)]`.
pub fn read_attr_item(item: Vec<Tok>, new_unchecked_enabled: bool) -> (r: Result<AttrItem, AttrSyntaxError>)
    ensures
        match spec_attr_item(item@, new_unchecked_enabled) {
            Ok((k, span, body)) => r matches Ok(a) && a.keyword == k && a.span == span && body_view(a.body) == body,
            Err(e) => r matches Err(f) && f == e,
        },
{
    let ghost input = item@;
    let mut item = item;
    if item.len() == 0 {
        return Err(AttrSyntaxError::EmptyItem);
    }
    let first = item.remove(0);
    let name = match first.token {
        AttrToken::Ident(name) => name,
        _ => {
            return Err(AttrSyntaxError::ExpectedName { span: first.span });
        },
    };
    let span = first.span;
    let paren = item.len() > 0 && match &item[0].token {
        AttrToken::Group(d, _) => *d == Delim::Paren,
        _ => false,
    };
    let keyword = match classify_attr(name.as_str(), span, paren, new_unchecked_enabled) {
        Err(e) => {
            return Err(AttrSyntaxError::Keyword(e));
        },
        Ok(k) => k,
    };
    match keyword {
        AttrKeyword::Sanitize | AttrKeyword::Validate | AttrKeyword::Derive | AttrKeyword::CfgAttr => {
            if item.len() > 1 {
                return Err(AttrSyntaxError::Unexpected { span: item[1].span });
            }
            let group = item.remove(0);
            match group.token {
                AttrToken::Group(_, ts) => Ok(AttrItem { keyword, span, body: AttrBody::List(group.span, ts) }),
                _ => Err(AttrSyntaxError::Unexpected { span: group.span }),
            }
        },
        AttrKeyword::Default => {
            let is_eq = item.len() > 0 && match &item[0].token {
                AttrToken::Punct(c) => *c == '=',
                _ => false,
            };
            if !is_eq {
                return Err(AttrSyntaxError::ExpectedEq { span });
            }
            let eq = item.remove(0);
            if item.len() == 0 {
                return Err(AttrSyntaxError::MissingValue { span: eq.span });
            }
            assert(item@ =~= input.subrange(2, input.len() as int));
            Ok(AttrItem { keyword, span, body: AttrBody::Value(item) })
        },
        AttrKeyword::NewUnchecked => {
            if item.len() > 0 {
                return Err(AttrSyntaxError::Unexpected { span: item[0].span });
            }
            Ok(AttrItem { keyword, span, body: AttrBody::Bare })
        },
    }
}

/// What follows a name inside `sanitize(...)` or `validate(...)`.
pub enum NamedValue {
    Bare,
    /// The tokens after `=`, with the span of `=`.
    Assigned(proc_macro2::Span, Vec<Tok>),
}

/// An item of `sanitize(...)` or `validate(...)`: a name, and nothing or
/// `= value`.
pub struct NamedItem {
    pub name: String,
    pub span: proc_macro2::Span,
    pub value: NamedValue,
}

/// [`NamedValue`] with a sequence in place of the vector.
pub enum NamedValueView {
    Bare,
    Assigned(proc_macro2::Span, Seq<Tok>),
}

pub open spec fn named_value_view(v: NamedValue) -> NamedValueView {
    match v {
        NamedValue::Bare => NamedValueView::Bare,
        NamedValue::Assigned(span, tokens) => NamedValueView::Assigned(span, tokens@),
    }
}

/// What one item of `sanitize(...)` or `validate(...)` is: a name, then
/// nothing or `=` and at least one token.
pub open spec fn spec_named_item(item: Seq<Tok>) -> Result<(String, proc_macro2::Span, NamedValueView), AttrSyntaxError> {
    if item.len() == 0 {
        Err(AttrSyntaxError::EmptyItem)
    } else {
        match item[0].token {
            AttrToken::Ident(name) => if item.len() == 1 {
                Ok((name, item[0].span, NamedValueView::Bare))
            } else if !is_punct(item[1], '=') {
                Err(AttrSyntaxError::Unexpected { span: item[1].span })
            } else if item.len() == 2 {
                Err(AttrSyntaxError::MissingValue { span: item[1].span })
            } else {
                Ok((name, item[0].span, NamedValueView::Assigned(item[1].span, item.subrange(2, item.len() as int))))
            },
            _ => Err(AttrSyntaxError::ExpectedName { span: item[0].span }),
        }
    }
}

/// Reads one item of `sanitize(...)` or `validate(...)`.
pub fn read_named_item(item: Vec<Tok>) -> (r: Result<NamedItem, AttrSyntaxError>)
    ensures
        match spec_named_item(item@) {
            Ok((name, span, value)) => r matches Ok(n) && n.name == name && n.span == span && named_value_view(n.value)
                == value,
            Err(e) => r matches Err(f) && f == e,
        },
{
    let ghost input = item@;
    let mut item = item;
    if item.len() == 0 {
        return Err(AttrSyntaxError::EmptyItem);
    }
    let first = item.remove(0);
    let name = match first.token {
        AttrToken::Ident(name) => name,
        _ => {
            return Err(AttrSyntaxError::ExpectedName { span: first.span });
        },
    };
    if item.len() == 0 {
        return Ok(NamedItem { name, span: first.span, value: NamedValue::Bare });
    }
    let is_eq = match &item[0].token {
        AttrToken::Punct(c) => *c == '=',
        _ => false,
    };
    if !is_eq {
        return Err(AttrSyntaxError::Unexpected { span: item[0].span });
    }
    let eq = item.remove(0);
    if item.len() == 0 {
        return Err(AttrSyntaxError::MissingValue { span: eq.span });
    }
    assert(item@ =~= input.subrange(2, input.len() as int));
    Ok(NamedItem { name, span: first.span, value: NamedValue::Assigned(eq.span, item) })
}

/// A number literal, possibly negative: `[-] literal`, with the literal's
/// text and span.
pub open spec fn spec_literal_number(value: Seq<Tok>) -> Option<(bool, String, proc_macro2::Span)> {
    if value.len() == 1 && value[0].token is Literal {
        Some((false, value[0].token->Literal_0, value[0].span))
    } else if value.len() == 2 && is_punct(value[0], '-') && value[1].token is Literal {
        Some((true, value[1].token->Literal_0, value[1].span))
    } else {
        None
    }
}

/// Reads a value that is a literal, possibly negative.
pub fn literal_number(value: &Vec<Tok>) -> (r: Option<(bool, String, proc_macro2::Span)>)
    ensures
        r == spec_literal_number(value@),
{
    if value.len() == 1 {
        match &value[0].token {
            AttrToken::Literal(text) => Some((false, text.clone(), value[0].span)),
            _ => None,
        }
    } else if value.len() == 2 {
        let minus = match &value[0].token {
            AttrToken::Punct(c) => *c == '-',
            _ => false,
        };
        if !minus {
            return None;
        }
        match &value[1].token {
            AttrToken::Literal(text) => Some((true, text.clone(), value[1].span)),
            _ => None,
        }
    } else {
        None
    }
}


// Values
//

/// A stream of the given tokens, in order (`FromIterator`).
#[verifier::external_body]
pub(crate) fn stream_of(trees: &Vec<proc_macro2::TokenTree>) -> (r: proc_macro2::TokenStream) {
    trees.iter().cloned().collect()
}

/// `syn::parse2::<syn::Expr>`.
#[verifier::external_body]
fn parse_expr(ts: proc_macro2::TokenStream) -> (r: Result<syn::Expr, syn::Error>) {
    syn::parse2(ts)
}

/// `syn::parse2::<syn::Path>`.
#[verifier::external_body]
fn parse_path(ts: proc_macro2::TokenStream) -> (r: Result<syn::Path, syn::Error>) {
    syn::parse2(ts)
}

/// `syn::parse2::<syn::ExprClosure>`.
#[verifier::external_body]
fn parse_closure(ts: proc_macro2::TokenStream) -> (r: Result<syn::ExprClosure, syn::Error>) {
    syn::parse2(ts)
}

/// `syn::parse_str::<syn::Type>`, then the type's tokens (`ToTokens`).
#[verifier::external_body]
fn type_trees(type_text: &str) -> (r: Result<Vec<proc_macro2::TokenTree>, syn::Error>) {
    let ty: syn::Type = syn::parse_str(type_text)?;
    Ok(quote::ToTokens::into_token_stream(ty).into_iter().collect())
}

/// The punctuation `:` (`proc_macro2::Punct::new` with `Spacing::Alone`).
#[verifier::external_body]
fn colon_tree() -> (r: proc_macro2::TokenTree) {
    proc_macro2::TokenTree::Punct(proc_macro2::Punct::new(':', proc_macro2::Spacing::Alone))
}

/// The identifier a token is, if it is one (`TokenTree::Ident`).
#[verifier::external_body]
fn ident_of(tree: proc_macro2::TokenTree) -> (r: Option<proc_macro2::Ident>) {
    match tree {
        proc_macro2::TokenTree::Ident(ident) => Some(ident),
        _ => None,
    }
}

/// The tokens themselves, in order.
pub(crate) fn trees_of(tokens: Vec<Tok>) -> (r: Vec<proc_macro2::TokenTree>)
    ensures
        r@ == tokens@.map_values(|t: Tok| t.tree),
{
    let ghost input = tokens@;
    let mut tokens = tokens;
    let mut out: Vec<proc_macro2::TokenTree> = Vec::new();
    while tokens.len() > 0
        invariant
            input.len() == out@.len() + tokens@.len(),
            tokens@ == input.subrange(out@.len() as int, input.len() as int),
            out@ == input.subrange(0, out@.len() as int).map_values(|t: Tok| t.tree),
        decreases tokens@.len(),
    {
        let t = tokens.remove(0);
        out.push(t.tree);
        assert(tokens@ =~= input.subrange(out@.len() as int, input.len() as int));
        assert(out@ =~= input.subrange(0, out@.len() as int).map_values(|t: Tok| t.tree));
    }
    assert(input.subrange(0, input.len() as int) =~= input);
    out
}

/// What `type_custom_closure` needs to know of a token.
pub open spec fn spec_token_kind(t: Tok) -> TokenKind {
    match t.token {
        AttrToken::Punct(c) => if c == '|' {
            TokenKind::Pipe
        } else {
            TokenKind::Other
        },
        AttrToken::Ident(name) => TokenKind::Ident(name),
        _ => TokenKind::Other,
    }
}

fn token_kinds(tokens: &Vec<Tok>) -> (r: Vec<TokenKind>)
    ensures
        r@ == tokens@.map_values(|t: Tok| spec_token_kind(t)),
{
    let mut out: Vec<TokenKind> = Vec::new();
    let mut i: usize = 0;
    while i < tokens.len()
        invariant
            i <= tokens@.len(),
            out@ == tokens@.subrange(0, i as int).map_values(|t: Tok| spec_token_kind(t)),
        decreases tokens@.len() - i,
    {
        let kind = match &tokens[i].token {
            AttrToken::Punct(c) => if *c == '|' {
                TokenKind::Pipe
            } else {
                TokenKind::Other
            },
            AttrToken::Ident(name) => TokenKind::Ident(name.clone()),
            _ => TokenKind::Other,
        };
        out.push(kind);
        i = i + 1;
        assert(out@ =~= tokens@.subrange(0, i as int).map_values(|t: Tok| spec_token_kind(t)));
    }
    assert(tokens@.subrange(0, tokens@.len() as int) =~= tokens@);
    out
}

/// The tokens of a value, which must not be empty.
fn value_tokens(value: NamedValue, name_span: proc_macro2::Span) -> (r: Result<Vec<Tok>, AttrSyntaxError>)
    ensures
        match named_value_view(value) {
            NamedValueView::Bare => r matches Err(e) && e == (AttrSyntaxError::ExpectedEq { span: name_span }),
            NamedValueView::Assigned(eq, t) => if t.len() == 0 {
                r matches Err(e) && e == (AttrSyntaxError::MissingValue { span: eq })
            } else {
                r matches Ok(v) && v@ == t
            },
        },
{
    match value {
        NamedValue::Bare => Err(AttrSyntaxError::ExpectedEq { span: name_span }),
        NamedValue::Assigned(eq, tokens) => if tokens.len() == 0 {
            Err(AttrSyntaxError::MissingValue { span: eq })
        } else {
            Ok(tokens)
        },
    }
}

/// Reads a function given by path or as a closure, as written; the span is
/// that of its first token.
pub fn read_custom_function(value: Vec<Tok>) -> (r: Result<(CustomFunction, proc_macro2::Span), AttrSyntaxError>)
    requires
        value@.len() > 0,
    ensures
        r matches Ok((_, span)) ==> span == value@[0].span,
        r matches Err(e) ==> e == (AttrSyntaxError::ExpectedFunction { span: value@[0].span }),
{
    let span = value[0].span;
    let trees = trees_of(value);
    match parse_path(stream_of(&trees)) {
        Ok(path) => Ok((CustomFunction::Path(path), span)),
        Err(_) => match parse_closure(stream_of(&trees)) {
            Ok(closure) => Ok((CustomFunction::Closure(closure), span)),
            Err(_) => Err(AttrSyntaxError::ExpectedFunction { span }),
        },
    }
}

/// Reads a function given by path or as a closure; a closure gets its
/// argument typed with `type_text` (see `type_custom_closure`). The span is
/// that of its first token.
pub fn read_typed_function(value: Vec<Tok>, type_text: &str) -> (r: Result<
    (TypedCustomFunction, proc_macro2::Span),
    AttrSyntaxError,
>)
    requires
        value@.len() > 0,
    ensures
        r matches Ok((_, span)) ==> span == value@[0].span,
        r matches Err(e) ==> e == (AttrSyntaxError::ExpectedFunction { span: value@[0].span }) || e is Syn,
{
    let span = value[0].span;
    let kinds = token_kinds(&value);
    let trees = trees_of(value);
    if let Ok(path) = parse_path(stream_of(&trees)) {
        return Ok((TypedCustomFunction::Path(path), span));
    }
    if parse_closure(stream_of(&trees)).is_err() {
        return Err(AttrSyntaxError::ExpectedFunction { span });
    }
    let ty = match type_trees(type_text) {
        Ok(ty) => ty,
        Err(e) => {
            return Err(AttrSyntaxError::Syn(e));
        },
    };
    let typed = crate::closure::type_custom_closure(trees, &kinds, colon_tree(), ty);
    match parse_closure(stream_of(&typed)) {
        Ok(closure) => Ok((TypedCustomFunction::Closure(closure), span)),
        Err(e) => Err(AttrSyntaxError::Syn(e)),
    }
}

/// Reads a value as an expression; the span is that of its first token.
fn read_expr(value: Vec<Tok>) -> (r: Result<(syn::Expr, proc_macro2::Span), AttrSyntaxError>)
    requires
        value@.len() > 0,
    ensures
        r matches Ok((_, span)) ==> span == value@[0].span,
        r matches Err(e) ==> e is Syn,
{
    let span = value[0].span;
    let trees = trees_of(value);
    match parse_expr(stream_of(&trees)) {
        Ok(e) => Ok((e, span)),
        Err(e) => Err(AttrSyntaxError::Syn(e)),
    }
}

/// Reads an integer bound: a literal of the type is its value (span of the
/// literal); anything else, a literal out of range included, is kept as an
/// expression.
pub fn read_integer_bound<T: IntegerLiteral>(value: Vec<Tok>) -> (r: Result<
    (ValueOrExpr<T>, proc_macro2::Span),
    AttrSyntaxError,
>)
    requires
        value@.len() > 0,
    ensures
        match spec_literal_number(value@) {
            Some((negative, text, span)) => match spec_parse_integer(
                spec_number_text(negative, text@),
                T::spec_min(),
                T::spec_max(),
            ) {
                Some(v) => r matches Ok((ValueOrExpr::Value(x), s)) && x.spec_int() == v && s == span,
                None => r matches Ok((ValueOrExpr::Expr(_), s)) ==> s == value@[0].span,
            },
            None => (r matches Ok((b, s)) ==> b is Expr && s == value@[0].span) && (r matches Err(e) ==> e is Syn),
        },
{
    if let Some((negative, text, span)) = literal_number(&value) {
        if let Ok(x) = parse_integer_number::<T>(negative, text.as_str()) {
            return Ok((ValueOrExpr::Value(x), span));
        }
    }
    let (e, span) = read_expr(value)?;
    Ok((ValueOrExpr::Expr(e), span))
}

/// A float bound written as a literal: its number text (sign included,
/// underscores left out) and the literal read as an expression. Reading the
/// text into a float is left to the caller.
pub struct FloatLiteral {
    pub text: Vec<char>,
    pub expr: syn::Expr,
}

/// Reads a float bound: a literal is kept with its number text; anything
/// else is an expression.
pub fn read_float_bound(value: Vec<Tok>) -> (r: Result<(ValueOrExpr<FloatLiteral>, proc_macro2::Span), AttrSyntaxError>)
    requires
        value@.len() > 0,
    ensures
        match spec_literal_number(value@) {
            Some((negative, text, span)) => (r matches Ok((b, s)) ==> b matches ValueOrExpr::Value(f) && f.text@
                == spec_number_text(negative, text@) && s == span),
            None => r matches Ok((b, s)) ==> b is Expr && s == value@[0].span,
        },
        r matches Err(e) ==> e is Syn,
{
    let literal = literal_number(&value);
    let (expr, first_span) = read_expr(value)?;
    match literal {
        Some((negative, text, span)) => {
            let text = number_text(negative, text.as_str());
            Ok((ValueOrExpr::Value(FloatLiteral { text, expr }), span))
        },
        None => Ok((ValueOrExpr::Expr(expr), first_span)),
    }
}

/// The string of the given characters (`FromIterator<char>` of `String`).
#[verifier::external_body]
fn string_from_chars(chars: &Vec<char>) -> (r: String)
    ensures
        r@ == chars@,
{
    chars.iter().collect()
}

/// Reads a decimal bound: a literal that `rust_decimal` reads (sign
/// included, underscores left out) is its value (span of the literal);
/// anything else is an expression.
pub fn read_decimal_bound(value: Vec<Tok>) -> (r: Result<(ValueOrExpr<DecimalLit>, proc_macro2::Span), AttrSyntaxError>)
    requires
        value@.len() > 0,
    ensures
        match spec_literal_number(value@) {
            Some((negative, text, span)) => match crate::decimal_lit::spec_parse_decimal(spec_number_text(negative, text@)) {
                Some((m, sc)) => r matches Ok((ValueOrExpr::Value(d), sp)) && d.spec_mantissa() == m && d.spec_scale()
                    == sc && sp == span,
                None => r matches Ok((ValueOrExpr::Expr(_), sp)) ==> sp == value@[0].span,
            },
            None => r matches Ok((b, sp)) ==> b is Expr && sp == value@[0].span,
        },
{
    if let Some((negative, text, span)) = literal_number(&value) {
        let s = string_from_chars(&number_text(negative, text.as_str()));
        if let Ok(d) = DecimalLit::parse(s.as_str()) {
            return Ok((ValueOrExpr::Value(d), span));
        }
    }
    let (e, span) = read_expr(value)?;
    Ok((ValueOrExpr::Expr(e), span))
}

/// A numeric literal that an expression is, possibly negated: whether it is
/// negated (`syn::UnOp::Neg`), and the literal's text and span (`LitInt` or
/// `LitFloat`).
#[verifier::external_body]
fn expr_number_literal(expr: &syn::Expr) -> (r: Option<(bool, String, proc_macro2::Span)>) {
    let (negative, inner) = match expr {
        syn::Expr::Unary(syn::ExprUnary { op: syn::UnOp::Neg(_), expr, .. }) => (true, expr.as_ref()),
        other => (false, other),
    };
    match inner {
        syn::Expr::Lit(syn::ExprLit { lit: syn::Lit::Int(li), .. }) => Some((negative, li.to_string(), li.span())),
        syn::Expr::Lit(syn::ExprLit { lit: syn::Lit::Float(lf), .. }) => Some((negative, lf.to_string(), lf.span())),
        _ => None,
    }
}

/// The default value of a decimal newtype: a bare number literal, read as
/// a decimal (it would otherwise be emitted as a float), or any other
/// expression, expected to be a `Decimal` already.
pub enum DecimalDefault {
    Literal(DecimalLit, proc_macro2::Span),
    Expr(syn::Expr),
}

/// Why the default value of a decimal newtype is refused: a number literal
/// that `rust_decimal` does not read, with its number text and span.
pub struct InvalidDecimalDefault {
    pub text: Vec<char>,
    pub span: proc_macro2::Span,
    pub error: rust_decimal::Error,
}

/// Reads the default value of a decimal newtype, given whether it is a
/// number literal (sign, text and span of the literal): a literal must be a
/// decimal that `rust_decimal` reads (sign included, underscores left out).
pub fn decimal_default_from(literal: Option<(bool, String, proc_macro2::Span)>, expr: syn::Expr) -> (r: Result<
    DecimalDefault,
    InvalidDecimalDefault,
>)
    ensures
        match literal {
            None => r matches Ok(DecimalDefault::Expr(e)) && e == expr,
            Some((negative, text, span)) => match crate::decimal_lit::spec_parse_decimal(spec_number_text(negative, text@)) {
                Some((m, sc)) => r matches Ok(DecimalDefault::Literal(d, sp)) && d.spec_mantissa() == m && d.spec_scale()
                    == sc && sp == span,
                None => r matches Err(e) && e.text@ == spec_number_text(negative, text@) && e.span == span,
            },
        },
{
    match literal {
        None => Ok(DecimalDefault::Expr(expr)),
        Some((negative, text, span)) => {
            let chars = number_text(negative, text.as_str());
            let s = string_from_chars(&chars);
            match DecimalLit::parse(s.as_str()) {
                Ok(d) => Ok(DecimalDefault::Literal(d, span)),
                Err(error) => Err(InvalidDecimalDefault { text: chars, span, error }),
            }
        },
    }
}

/// Reads the default value of a decimal newtype (see
/// [`decimal_default_from`]); whether the expression is a number literal is
/// read from syn's model of it.
pub fn decimal_default(expr: syn::Expr) -> (r: Result<DecimalDefault, InvalidDecimalDefault>) {
    let literal = expr_number_literal(&expr);
    decimal_default_from(literal, expr)
}

// Sanitizers and validators
//

/// The error for a name that is not one of the sanitizers of the inner type.
fn unknown_sanitizer<K: KindName>(name: String, span: proc_macro2::Span, e: KindParseError<K>) -> (r: AttrSyntaxError)
    ensures
        (r matches AttrSyntaxError::UnknownSanitizer { name: n, span: s, did_you_mean } && n == name && s == span
            && (did_you_mean is Some <==> e is DidYouMean)),
{
    let did_you_mean = match e {
        KindParseError::DidYouMean(k) => Some(display_name(k)),
        KindParseError::Unknown => None,
    };
    AttrSyntaxError::UnknownSanitizer { name, span, did_you_mean }
}

/// How the sanitizers and validators of one kind of inner type are read;
/// `inner_type` is the inner type as written, used to type closures.
pub trait AttrGrammar {
    type Sanitizer;
    type Validator: Kind<Kind = Self::ValidatorKind>;
    type ValidatorKind: KindName;

    fn read_sanitizer(item: NamedItem, inner_type: &str) -> Result<SpannedItem<Self::Sanitizer>, AttrSyntaxError>;

    /// Reads a validator of the given kind: what comes back is of that kind.
    fn read_validator(item: NamedItem, kind: Self::ValidatorKind, inner_type: &str) -> (r: Result<
        SpannedItem<Self::Validator>,
        AttrSyntaxError,
    >)
        ensures
            r matches Ok(v) ==> v.item.spec_kind() == kind,
    ;
}

/// Reads `with = function` for a sanitizer of a numeric inner type: the
/// function's closure is typed with the inner type.
fn read_with_sanitizer(item: NamedItem, inner_type: &str) -> (r: Result<(TypedCustomFunction, proc_macro2::Span), AttrSyntaxError>)
    ensures
        item.value is Bare ==> (r matches Err(e) && e == (AttrSyntaxError::ExpectedEq { span: item.span })),
{
    let value = value_tokens(item.value, item.span)?;
    read_typed_function(value, inner_type)
}

/// `&` followed by the inner type, the argument type of predicates.
fn reference_to(inner_type: &str) -> (r: String)
    ensures
        r@ == seq!['&'] + inner_type@,
{
    proof {
        reveal_strlit("&");
    }
    "&".to_owned().concat(inner_type)
}

/// Integer newtypes.
pub struct IntegerGrammar<T>(pub PhantomData<T>);

/// Reads an item of `sanitize(...)` of an integer newtype: only `with`.
pub fn read_integer_sanitizer<T>(item: NamedItem, inner_type: &str) -> (r: Result<
    SpannedItem<IntegerSanitizer<T>>,
    AttrSyntaxError,
>)
    ensures
        !(crate::kinds::spec_parse_kind::<IntegerSanitizerKind>(item.name@) matches Ok(IntegerSanitizerKind::With))
            ==> (r matches Err(e) && e is UnknownSanitizer),
        r matches Ok(s) ==> s.item is With,
{
    match parse_kind::<IntegerSanitizerKind>(item.name.as_str()) {
        Ok(IntegerSanitizerKind::With) => {
            let (f, span) = read_with_sanitizer(item, inner_type)?;
            Ok(SpannedItem { item: IntegerSanitizer::With(f), span })
        },
        Ok(IntegerSanitizerKind::_Phantom) => Err(
            AttrSyntaxError::UnknownSanitizer { name: item.name, span: item.span, did_you_mean: None },
        ),
        Err(e) => Err(unknown_sanitizer(item.name, item.span, e)),
    }
}

/// Reads a validator of an integer newtype of the given kind: `predicate`
/// takes a function of `&T`, the bounds take a number or an expression.
pub fn read_integer_validator<T: IntegerLiteral>(item: NamedItem, kind: IntegerValidatorKind, inner_type: &str) -> (r: Result<
    SpannedItem<IntegerValidator<T>>,
    AttrSyntaxError,
>)
    ensures
        r matches Ok(v) ==> crate::base::Kind::spec_kind(&v.item) == kind,
        item.value is Bare ==> (r matches Err(e) && e == (AttrSyntaxError::ExpectedEq { span: item.span })),
{
    let value = value_tokens(item.value, item.span)?;
    match kind {
        IntegerValidatorKind::Predicate => {
            let (f, span) = read_typed_function(value, reference_to(inner_type).as_str())?;
            Ok(SpannedItem { item: IntegerValidator::Predicate(f), span })
        },
        IntegerValidatorKind::Greater => {
            let (b, span) = read_integer_bound::<T>(value)?;
            Ok(SpannedItem { item: IntegerValidator::Greater(b), span })
        },
        IntegerValidatorKind::GreaterOrEqual => {
            let (b, span) = read_integer_bound::<T>(value)?;
            Ok(SpannedItem { item: IntegerValidator::GreaterOrEqual(b), span })
        },
        IntegerValidatorKind::Less => {
            let (b, span) = read_integer_bound::<T>(value)?;
            Ok(SpannedItem { item: IntegerValidator::Less(b), span })
        },
        IntegerValidatorKind::LessOrEqual => {
            let (b, span) = read_integer_bound::<T>(value)?;
            Ok(SpannedItem { item: IntegerValidator::LessOrEqual(b), span })
        },
    }
}

impl<T: IntegerLiteral> AttrGrammar for IntegerGrammar<T> {
    type Sanitizer = IntegerSanitizer<T>;
    type Validator = IntegerValidator<T>;
    type ValidatorKind = IntegerValidatorKind;

    fn read_sanitizer(item: NamedItem, inner_type: &str) -> Result<SpannedItem<IntegerSanitizer<T>>, AttrSyntaxError> {
        read_integer_sanitizer(item, inner_type)
    }

    fn read_validator(item: NamedItem, kind: IntegerValidatorKind, inner_type: &str) -> Result<
        SpannedItem<IntegerValidator<T>>,
        AttrSyntaxError,
    > {
        read_integer_validator(item, kind, inner_type)
    }
}

/// Float newtypes; bound literals are kept as text.
pub struct FloatGrammar;

/// Reads an item of `sanitize(...)` of a float newtype: only `with`.
pub fn read_float_sanitizer(item: NamedItem, inner_type: &str) -> (r: Result<
    SpannedItem<FloatSanitizer<FloatLiteral>>,
    AttrSyntaxError,
>)
    ensures
        !(crate::kinds::spec_parse_kind::<FloatSanitizerKind>(item.name@) matches Ok(FloatSanitizerKind::With))
            ==> (r matches Err(e) && e is UnknownSanitizer),
        r matches Ok(s) ==> s.item is With,
{
    match parse_kind::<FloatSanitizerKind>(item.name.as_str()) {
        Ok(FloatSanitizerKind::With) => {
            let (f, span) = read_with_sanitizer(item, inner_type)?;
            Ok(SpannedItem { item: FloatSanitizer::With(f), span })
        },
        Ok(FloatSanitizerKind::_Phantom) => Err(
            AttrSyntaxError::UnknownSanitizer { name: item.name, span: item.span, did_you_mean: None },
        ),
        Err(e) => Err(unknown_sanitizer(item.name, item.span, e)),
    }
}

/// Reads a validator of a float newtype of the given kind: `finite` takes
/// nothing, `predicate` a function of `&T`, the bounds a number or an
/// expression.
pub fn read_float_validator(item: NamedItem, kind: FloatValidatorKind, inner_type: &str) -> (r: Result<
    SpannedItem<FloatValidator<FloatLiteral>>,
    AttrSyntaxError,
>)
    ensures
        r matches Ok(v) ==> crate::base::Kind::spec_kind(&v.item) == kind,
        kind != FloatValidatorKind::Finite && item.value is Bare ==> (r matches Err(e) && e == (AttrSyntaxError::ExpectedEq { span: item.span })),
        kind == FloatValidatorKind::Finite ==> (r is Ok <==> item.value is Bare),
{
    if kind == FloatValidatorKind::Finite {
        return match item.value {
            NamedValue::Bare => Ok(SpannedItem { item: FloatValidator::Finite, span: item.span }),
            NamedValue::Assigned(eq, _) => Err(AttrSyntaxError::Unexpected { span: eq }),
        };
    }
    let value = value_tokens(item.value, item.span)?;
    match kind {
        FloatValidatorKind::Predicate => {
            let (f, span) = read_typed_function(value, reference_to(inner_type).as_str())?;
            Ok(SpannedItem { item: FloatValidator::Predicate(f), span })
        },
        FloatValidatorKind::Greater => {
            let (b, span) = read_float_bound(value)?;
            Ok(SpannedItem { item: FloatValidator::Greater(b), span })
        },
        FloatValidatorKind::GreaterOrEqual => {
            let (b, span) = read_float_bound(value)?;
            Ok(SpannedItem { item: FloatValidator::GreaterOrEqual(b), span })
        },
        FloatValidatorKind::Less => {
            let (b, span) = read_float_bound(value)?;
            Ok(SpannedItem { item: FloatValidator::Less(b), span })
        },
        _ => {
            let (b, span) = read_float_bound(value)?;
            Ok(SpannedItem { item: FloatValidator::LessOrEqual(b), span })
        },
    }
}

impl AttrGrammar for FloatGrammar {
    type Sanitizer = FloatSanitizer<FloatLiteral>;
    type Validator = FloatValidator<FloatLiteral>;
    type ValidatorKind = FloatValidatorKind;

    fn read_sanitizer(item: NamedItem, inner_type: &str) -> Result<SpannedItem<FloatSanitizer<FloatLiteral>>, AttrSyntaxError> {
        read_float_sanitizer(item, inner_type)
    }

    fn read_validator(item: NamedItem, kind: FloatValidatorKind, inner_type: &str) -> Result<
        SpannedItem<FloatValidator<FloatLiteral>>,
        AttrSyntaxError,
    > {
        read_float_validator(item, kind, inner_type)
    }
}

/// Decimal newtypes.
pub struct DecimalGrammar;

/// Reads an item of `sanitize(...)` of a decimal newtype: only `with`.
pub fn read_decimal_sanitizer(item: NamedItem, inner_type: &str) -> (r: Result<
    SpannedItem<DecimalSanitizer<DecimalLit>>,
    AttrSyntaxError,
>)
    ensures
        !(crate::kinds::spec_parse_kind::<DecimalSanitizerKind>(item.name@) matches Ok(DecimalSanitizerKind::With))
            ==> (r matches Err(e) && e is UnknownSanitizer),
        r matches Ok(s) ==> s.item is With,
{
    match parse_kind::<DecimalSanitizerKind>(item.name.as_str()) {
        Ok(DecimalSanitizerKind::With) => {
            let (f, span) = read_with_sanitizer(item, inner_type)?;
            Ok(SpannedItem { item: DecimalSanitizer::With(f), span })
        },
        Ok(DecimalSanitizerKind::_Phantom) => Err(
            AttrSyntaxError::UnknownSanitizer { name: item.name, span: item.span, did_you_mean: None },
        ),
        Err(e) => Err(unknown_sanitizer(item.name, item.span, e)),
    }
}

/// Reads a validator of a decimal newtype of the given kind.
pub fn read_decimal_validator(item: NamedItem, kind: DecimalValidatorKind, inner_type: &str) -> (r: Result<
    SpannedItem<DecimalValidator<DecimalLit>>,
    AttrSyntaxError,
>)
    ensures
        r matches Ok(v) ==> crate::base::Kind::spec_kind(&v.item) == kind,
        item.value is Bare ==> (r matches Err(e) && e == (AttrSyntaxError::ExpectedEq { span: item.span })),
{
    let value = value_tokens(item.value, item.span)?;
    match kind {
        DecimalValidatorKind::Predicate => {
            let (f, span) = read_typed_function(value, reference_to(inner_type).as_str())?;
            Ok(SpannedItem { item: DecimalValidator::Predicate(f), span })
        },
        DecimalValidatorKind::Greater => {
            let (b, span) = read_decimal_bound(value)?;
            Ok(SpannedItem { item: DecimalValidator::Greater(b), span })
        },
        DecimalValidatorKind::GreaterOrEqual => {
            let (b, span) = read_decimal_bound(value)?;
            Ok(SpannedItem { item: DecimalValidator::GreaterOrEqual(b), span })
        },
        DecimalValidatorKind::Less => {
            let (b, span) = read_decimal_bound(value)?;
            Ok(SpannedItem { item: DecimalValidator::Less(b), span })
        },
        DecimalValidatorKind::LessOrEqual => {
            let (b, span) = read_decimal_bound(value)?;
            Ok(SpannedItem { item: DecimalValidator::LessOrEqual(b), span })
        },
    }
}

impl AttrGrammar for DecimalGrammar {
    type Sanitizer = DecimalSanitizer<DecimalLit>;
    type Validator = DecimalValidator<DecimalLit>;
    type ValidatorKind = DecimalValidatorKind;

    fn read_sanitizer(item: NamedItem, inner_type: &str) -> Result<SpannedItem<DecimalSanitizer<DecimalLit>>, AttrSyntaxError> {
        read_decimal_sanitizer(item, inner_type)
    }

    fn read_validator(item: NamedItem, kind: DecimalValidatorKind, inner_type: &str) -> Result<
        SpannedItem<DecimalValidator<DecimalLit>>,
        AttrSyntaxError,
    > {
        read_decimal_validator(item, kind, inner_type)
    }
}

/// Newtypes over any other type; functions are kept as written.
pub struct AnyGrammar;

/// Reads an item of `sanitize(...)` of a newtype over any other type: only
/// `with`, whose function is kept as written.
pub fn read_any_sanitizer(item: NamedItem) -> (r: Result<SpannedItem<AnySanitizer>, AttrSyntaxError>)
    ensures
        crate::kinds::spec_parse_kind::<AnySanitizerKind>(item.name@) is Err ==> (r matches Err(e) && e is UnknownSanitizer),
        item.value is Bare ==> r is Err,
{
    match parse_kind::<AnySanitizerKind>(item.name.as_str()) {
        Ok(AnySanitizerKind::With) => {
            let value = value_tokens(item.value, item.span)?;
            let (f, span) = read_custom_function(value)?;
            Ok(SpannedItem { item: AnySanitizer::With(f), span })
        },
        Err(e) => Err(unknown_sanitizer(item.name, item.span, e)),
    }
}

/// Reads `predicate = function` of a newtype over any other type.
pub fn read_any_validator(item: NamedItem) -> (r: Result<SpannedItem<AnyValidator>, AttrSyntaxError>)
    ensures
        item.value is Bare ==> (r matches Err(e) && e == (AttrSyntaxError::ExpectedEq { span: item.span })),
{
    let value = value_tokens(item.value, item.span)?;
    let (f, span) = read_custom_function(value)?;
    Ok(SpannedItem { item: AnyValidator::Predicate(f), span })
}

impl AttrGrammar for AnyGrammar {
    type Sanitizer = AnySanitizer;
    type Validator = AnyValidator;
    type ValidatorKind = AnyValidatorKind;

    fn read_sanitizer(item: NamedItem, inner_type: &str) -> Result<SpannedItem<AnySanitizer>, AttrSyntaxError> {
        read_any_sanitizer(item)
    }

    fn read_validator(item: NamedItem, kind: AnyValidatorKind, inner_type: &str) -> Result<
        SpannedItem<AnyValidator>,
        AttrSyntaxError,
    > {
        read_any_validator(item)
    }
}


// Lists
//

/// Reads the items of `sanitize(...)`, in order.
pub fn sanitizers_from_tokens<G: AttrGrammar>(tokens: Vec<Tok>, inner_type: &str) -> (r: Result<
    Vec<SpannedItem<G::Sanitizer>>,
    AttrSyntaxError,
>)
    ensures
        r matches Ok(v) ==> v@.len() == spec_split_commas(tokens@).len() && forall|i: int|
            0 <= i < spec_split_commas(tokens@).len() ==> #[trigger] spec_named_item(spec_split_commas(tokens@)[i]) is Ok,
{
    let ghost items_view = spec_split_commas(tokens@);
    let mut items = split_on_commas(tokens);
    let mut out: Vec<SpannedItem<G::Sanitizer>> = Vec::new();
    while items.len() > 0
        invariant
            items_view.len() == out@.len() + items@.len(),
            views_of(items@) == items_view.subrange(out@.len() as int, items_view.len() as int),
            forall|i: int| 0 <= i < out@.len() ==> #[trigger] spec_named_item(items_view[i]) is Ok,
        decreases items@.len(),
    {
        let ghost before = items@;
        let item = items.remove(0);
        assert(item@ == items_view[out@.len() as int]) by {
            assert(views_of(before)[0] == before[0]@);
        }
        let named = read_named_item(item)?;
        let s = G::read_sanitizer(named, inner_type)?;
        out.push(s);
        assert(views_of(items@) =~= items_view.subrange(out@.len() as int, items_view.len() as int)) by {
            assert(items@ =~= before.drop_first());
            assert(views_of(items@) =~= views_of(before).drop_first());
        }
    }
    Ok(out)
}

/// Reads the items of `validate(...)`, in order: a name of a validator of
/// the inner type gives a validator; otherwise `error = Name` and
/// `with = function`; any other name is refused.
pub fn validate_attrs_from_tokens<G: AttrGrammar>(tokens: Vec<Tok>, inner_type: &str) -> (r: Result<
    Vec<ValidateAttr<SpannedItem<G::Validator>>>,
    AttrSyntaxError,
>)
    ensures
        r matches Ok(v) ==> v@.len() == spec_split_commas(tokens@).len() && forall|i: int|
            0 <= i < v@.len() ==> (#[trigger] spec_named_item(spec_split_commas(tokens@)[i]) matches Ok((name, _, _)) && (
            crate::kinds::spec_parse_kind::<G::ValidatorKind>(name@) is Ok ==> v@[i] is Standard) && (
            crate::kinds::spec_parse_kind::<G::ValidatorKind>(name@) is Err ==> !(v@[i] is Standard)) && (v@[i] matches ValidateAttr::Standard(x)
                ==> crate::kinds::spec_parse_kind::<G::ValidatorKind>(name@) == Ok::<G::ValidatorKind, KindParseError<G::ValidatorKind>>(x.item.spec_kind()))),
{
    let ghost items_view = spec_split_commas(tokens@);
    let mut items = split_on_commas(tokens);
    let mut out: Vec<ValidateAttr<SpannedItem<G::Validator>>> = Vec::new();
    while items.len() > 0
        invariant
            items_view.len() == out@.len() + items@.len(),
            views_of(items@) == items_view.subrange(out@.len() as int, items_view.len() as int),
            forall|i: int|
                0 <= i < out@.len() ==> (#[trigger] spec_named_item(items_view[i]) matches Ok((name, _, _)) && (
                crate::kinds::spec_parse_kind::<G::ValidatorKind>(name@) is Ok ==> out@[i] is Standard) && (
                crate::kinds::spec_parse_kind::<G::ValidatorKind>(name@) is Err ==> !(out@[i] is Standard)) && (out@[i] matches ValidateAttr::Standard(x)
                ==> crate::kinds::spec_parse_kind::<G::ValidatorKind>(name@) == Ok::<G::ValidatorKind, KindParseError<G::ValidatorKind>>(x.item.spec_kind()))),
        decreases items@.len(),
    {
        let ghost before = items@;
        let item = items.remove(0);
        assert(item@ == items_view[out@.len() as int]) by {
            assert(views_of(before)[0] == before[0]@);
        }
        let named = read_named_item(item)?;
        let attr = match parse_kind::<G::ValidatorKind>(named.name.as_str()) {
            Ok(kind) => ValidateAttr::Standard(G::read_validator(named, kind, inner_type)?),
            Err(_) => match parse_kind::<ExtraValidateAttrKind>(named.name.as_str()) {
                Ok(ExtraValidateAttrKind::Error) => {
                    let value = value_tokens(named.value, named.span)?;
                    let mut value = value;
                    if value.len() > 1 {
                        return Err(AttrSyntaxError::Unexpected { span: value[1].span });
                    }
                    let tok = value.remove(0);
                    let span = tok.span;
                    match ident_of(tok.tree) {
                        Some(ident) => ValidateAttr::Error(ErrorTypeName(ident), span),
                        None => {
                            return Err(AttrSyntaxError::ExpectedIdent { span });
                        },
                    }
                },
                Ok(ExtraValidateAttrKind::With) => {
                    let value = value_tokens(named.value, named.span)?;
                    let (f, span) = read_custom_function(value)?;
                    ValidateAttr::With(f, span)
                },
                Err(_) => {
                    return Err(AttrSyntaxError::UnknownValidateAttr { name: named.name, span: named.span });
                },
            },
        };
        out.push(attr);
        assert(views_of(items@) =~= items_view.subrange(out@.len() as int, items_view.len() as int)) by {
            assert(items@ =~= before.drop_first());
            assert(views_of(items@) =~= views_of(before).drop_first());
        }
    }
    Ok(out)
}

/// An item of `derive(...)`: a single name.
pub open spec fn spec_derive_name(item: Seq<Tok>) -> Result<(String, proc_macro2::Span), AttrSyntaxError> {
    if item.len() == 0 {
        Err(AttrSyntaxError::EmptyItem)
    } else if !(item[0].token is Ident) {
        Err(AttrSyntaxError::ExpectedIdent { span: item[0].span })
    } else if item.len() > 1 {
        Err(AttrSyntaxError::Unexpected { span: item[1].span })
    } else {
        Ok((item[0].token->Ident_0, item[0].span))
    }
}

/// The traits of the first `n` items of `derive(...)`, or the error of the
/// first item refused.
pub open spec fn spec_derive_prefix(items: Seq<Seq<Tok>>, n: nat, features: Features) -> Result<
    Seq<SpannedItem<DeriveTrait>>,
    AttrSyntaxError,
>
    decreases n,
{
    if n == 0 {
        Ok(Seq::empty())
    } else {
        match spec_derive_prefix(items, (n - 1) as nat, features) {
            Err(e) => Err(e),
            Ok(prev) => match spec_derive_name(items[n - 1]) {
                Err(e) => Err(e),
                Ok((name, span)) => match spec_parse_derive_trait(name@, features) {
                    Err(error) => Err(AttrSyntaxError::DeriveName { error, name, span }),
                    Ok(t) => Ok(prev.push(SpannedItem { item: t, span })),
                },
            },
        }
    }
}

proof fn lemma_derive_prefix_err(items: Seq<Seq<Tok>>, k: nat, m: nat, features: Features)
    requires
        k <= m,
        spec_derive_prefix(items, k, features) is Err,
    ensures
        spec_derive_prefix(items, m, features) == spec_derive_prefix(items, k, features),
    decreases m - k,
{
    if k < m {
        lemma_derive_prefix_err(items, k, (m - 1) as nat, features);
    }
}

/// The traits of `derive(...)`, or the error of the first item refused.
pub open spec fn spec_derive_list(tokens: Seq<Tok>, features: Features) -> Result<Seq<SpannedItem<DeriveTrait>>, AttrSyntaxError> {
    spec_derive_prefix(spec_split_commas(tokens), spec_split_commas(tokens).len(), features)
}

/// Reads the items of `derive(...)`: names of traits, in order.
pub fn derive_traits_from_tokens(tokens: Vec<Tok>, features: Features) -> (r: Result<
    Vec<SpannedItem<DeriveTrait>>,
    AttrSyntaxError,
>)
    ensures
        match spec_derive_list(tokens@, features) {
            Ok(s) => r matches Ok(v) && v@ == s,
            Err(e) => r matches Err(f) && f == e,
        },
{
    let ghost items_view = spec_split_commas(tokens@);
    let ghost list = spec_derive_list(tokens@, features);
    assert(list == spec_derive_prefix(items_view, items_view.len(), features));
    let mut items = split_on_commas(tokens);
    let mut out: Vec<SpannedItem<DeriveTrait>> = Vec::new();
    while items.len() > 0
        invariant
            items_view.len() == out@.len() + items@.len(),
            views_of(items@) == items_view.subrange(out@.len() as int, items_view.len() as int),
            list == spec_derive_prefix(items_view, items_view.len(), features),
            list == spec_derive_list(tokens@, features),
            spec_derive_prefix(items_view, out@.len() as nat, features) == Ok::<
                Seq<SpannedItem<DeriveTrait>>,
                AttrSyntaxError,
            >(out@),
        decreases items@.len(),
    {
        let ghost before = items@;
        let ghost done = out@.len();
        let item = items.remove(0);
        assert(item@ == items_view[done as int]) by {
            assert(views_of(before)[0] == before[0]@);
        }
        let mut item = item;
        if item.len() == 0 {
            proof {
                assert(spec_derive_prefix(items_view, (done + 1) as nat, features) == Err::<Seq<SpannedItem<DeriveTrait>>, AttrSyntaxError>(AttrSyntaxError::EmptyItem));
                lemma_derive_prefix_err(items_view, (done + 1) as nat, items_view.len(), features);
                assert(list == Err::<Seq<SpannedItem<DeriveTrait>>, AttrSyntaxError>(AttrSyntaxError::EmptyItem));
            }
            return Err(AttrSyntaxError::EmptyItem);
        }
        if item.len() > 1 {
            let is_ident = match &item[0].token {
                AttrToken::Ident(_) => true,
                _ => false,
            };
            if !is_ident {
                proof {
                    assert(spec_derive_prefix(items_view, (done + 1) as nat, features) == Err::<Seq<SpannedItem<DeriveTrait>>, AttrSyntaxError>(AttrSyntaxError::ExpectedIdent { span: item@[0].span }));
                lemma_derive_prefix_err(items_view, (done + 1) as nat, items_view.len(), features);
                assert(list == Err::<Seq<SpannedItem<DeriveTrait>>, AttrSyntaxError>(AttrSyntaxError::ExpectedIdent { span: item@[0].span }));
                }
                return Err(AttrSyntaxError::ExpectedIdent { span: item[0].span });
            }
            proof {
                assert(spec_derive_prefix(items_view, (done + 1) as nat, features) == Err::<Seq<SpannedItem<DeriveTrait>>, AttrSyntaxError>(AttrSyntaxError::Unexpected { span: item@[1].span }));
                lemma_derive_prefix_err(items_view, (done + 1) as nat, items_view.len(), features);
                assert(list == Err::<Seq<SpannedItem<DeriveTrait>>, AttrSyntaxError>(AttrSyntaxError::Unexpected { span: item@[1].span }));
            }
            return Err(AttrSyntaxError::Unexpected { span: item[1].span });
        }
        let tok = item.remove(0);
        let name = match tok.token {
            AttrToken::Ident(name) => name,
            _ => {
                proof { lemma_derive_prefix_err(items_view, (done + 1) as nat, items_view.len(), features); }
                return Err(AttrSyntaxError::ExpectedIdent { span: tok.span });
            },
        };
        match parse_derive_trait(name.as_str(), features) {
            Err(error) => {
                proof { lemma_derive_prefix_err(items_view, (done + 1) as nat, items_view.len(), features); }
                return Err(AttrSyntaxError::DeriveName { error, name, span: tok.span });
            },
            Ok(t) => {
                out.push(SpannedItem { item: t, span: tok.span });
            },
        }
        assert(views_of(items@) =~= items_view.subrange(out@.len() as int, items_view.len() as int)) by {
            assert(items@ =~= before.drop_first());
            assert(views_of(items@) =~= views_of(before).drop_first());
        }
    }
    assert(items_view.len() == out@.len());
    Ok(out)
}

/// Reads `predicate, derive(...)`, the content of `cfg_attr(...)`: the
/// predicate is the tokens before the first comma, carried through as
/// written.
pub fn cfg_attr_from_tokens(tokens: Vec<Tok>, group_span: proc_macro2::Span, features: Features) -> (r: Result<
    CfgAttrEntry,
    AttrSyntaxError,
>)
    ensures
        spec_split_commas(tokens@).len() == 0 || spec_split_commas(tokens@)[0].len() == 0 ==> (r matches Err(e) && e
            == (AttrSyntaxError::MissingPredicate { span: group_span })),
        r is Ok ==> spec_split_commas(tokens@).len() == 2 && spec_split_commas(tokens@)[1].len() == 2 && (
        spec_split_commas(tokens@)[1][0].token matches AttrToken::Ident(d) && d@ == "derive"@) && (
        spec_split_commas(tokens@)[1][1].token matches AttrToken::Group(Delim::Paren, _)),
{
    let ghost items_view = spec_split_commas(tokens@);
    let mut items = split_on_commas(tokens);
    if items.len() == 0 || items[0].len() == 0 {
        proof {
            if items@.len() > 0 {
                assert(views_of(items@)[0] == items@[0]@);
            }
        }
        return Err(AttrSyntaxError::MissingPredicate { span: group_span });
    }
    if items.len() != 2 {
        return Err(AttrSyntaxError::OnlyDeriveInCfgAttr { span: group_span });
    }
    let mut derive = items.remove(1);
    let predicate_tokens = items.remove(0);
    assert(derive@ == items_view[1]);
    if derive.len() != 2 {
        return Err(AttrSyntaxError::OnlyDeriveInCfgAttr { span: group_span });
    }
    let is_derive = match &derive[0].token {
        AttrToken::Ident(name) => crate::text::str_eq(name.as_str(), "derive"),
        _ => false,
    };
    if !is_derive {
        return Err(AttrSyntaxError::OnlyDeriveInCfgAttr { span: derive[0].span });
    }
    let group = derive.remove(1);
    let inner = match group.token {
        AttrToken::Group(d, ts) => if d == Delim::Paren {
            ts
        } else {
            return Err(AttrSyntaxError::OnlyDeriveInCfgAttr { span: group.span });
        },
        _ => {
            return Err(AttrSyntaxError::OnlyDeriveInCfgAttr { span: group.span });
        },
    };
    let derive_traits = derive_traits_from_tokens(tokens_of(inner), features)?;
    let predicate = stream_of(&trees_of(predicate_tokens));
    Ok(CfgAttrEntry { predicate, derive_traits })
}

/// The attributes of `#[nutype(...)]`, read: with the sanitizers and
/// validators of one kind of inner type.
pub type Attributes<G> = ParseableAttributes<
    SpannedItem<<G as AttrGrammar>::Sanitizer>,
    SpannedItem<<G as AttrGrammar>::Validator>,
>;

/// Some item of the list is `new_unchecked`.
pub open spec fn has_new_unchecked(items: Seq<Seq<Tok>>, n: int, new_unchecked_enabled: bool) -> bool {
    exists|i: int|
        0 <= i < n && #[trigger] spec_attr_item(items[i], new_unchecked_enabled) matches Ok((AttrKeyword::NewUnchecked, _, _))
}

/// Reads the arguments of `#[nutype(...)]`, given as tokens: the
/// comma-separated attributes in order, each read by its own grammar; an
/// attribute given again replaces the earlier one, `cfg_attr` entries add
/// up.
pub fn attributes_from_tokens<G: AttrGrammar>(tokens: Vec<Tok>, features: Features, inner_type: &str) -> (r: Result<
    Attributes<G>,
    AttrSyntaxError,
>)
    ensures
        r is Ok ==> forall|i: int|
            0 <= i < spec_split_commas(tokens@).len() ==> #[trigger] spec_attr_item(
                spec_split_commas(tokens@)[i],
                features.new_unchecked,
            ) is Ok,
        r matches Ok(a) ==> (a.new_unchecked == NewUnchecked::On <==> has_new_unchecked(
            spec_split_commas(tokens@),
            spec_split_commas(tokens@).len() as int,
            features.new_unchecked,
        )),
{
    let ghost items_view = spec_split_commas(tokens@);
    let mut items = split_on_commas(tokens);
    let mut attrs: Attributes<G> = ParseableAttributes::new();
    let ghost mut done: int = 0;
    while items.len() > 0
        invariant
            items_view.len() == done + items@.len(),
            0 <= done,
            views_of(items@) == items_view.subrange(done, items_view.len() as int),
            forall|i: int| 0 <= i < done ==> #[trigger] spec_attr_item(items_view[i], features.new_unchecked) is Ok,
            attrs.new_unchecked == NewUnchecked::On <==> has_new_unchecked(items_view, done, features.new_unchecked),
        decreases items@.len(),
    {
        let ghost before = items@;
        let item = items.remove(0);
        assert(item@ == items_view[done]) by {
            assert(views_of(before)[0] == before[0]@);
        }
        let ghost item_view = item@;
        let AttrItem { keyword, span: _, body } = read_attr_item(item, features.new_unchecked)?;
        let parsed = match body {
            AttrBody::List(group_span, ts) => match keyword {
                AttrKeyword::Sanitize => ParsedAttr::Sanitize(sanitizers_from_tokens::<G>(tokens_of(ts), inner_type)?),
                AttrKeyword::Validate => {
                    let attrs = validate_attrs_from_tokens::<G>(tokens_of(ts), inner_type)?;
                    match raw_validation_from_attrs(attrs, group_span) {
                        Ok(v) => ParsedAttr::Validate(v),
                        Err(e) => {
                            return Err(AttrSyntaxError::Validation(e));
                        },
                    }
                },
                AttrKeyword::Derive => ParsedAttr::Derive(derive_traits_from_tokens(tokens_of(ts), features)?),
                _ => ParsedAttr::CfgAttr(cfg_attr_from_tokens(tokens_of(ts), group_span, features)?),
            },
            AttrBody::Value(value) => {
                let (expr, _) = read_expr(value)?;
                ParsedAttr::Default(expr)
            },
            AttrBody::Bare => ParsedAttr::NewUnchecked,
        };
        let ghost is_new_unchecked = keyword == AttrKeyword::NewUnchecked;
        assert(is_new_unchecked == (parsed is NewUnchecked));
        attrs.apply(parsed);
        proof {
            assert(spec_attr_item(items_view[done], features.new_unchecked) is Ok);
            if is_new_unchecked {
                assert(has_new_unchecked(items_view, done + 1, features.new_unchecked));
            } else {
                assert(has_new_unchecked(items_view, done + 1, features.new_unchecked) == has_new_unchecked(
                    items_view,
                    done,
                    features.new_unchecked,
                ));
            }
            done = done + 1;
        }
        assert(views_of(items@) =~= items_view.subrange(done, items_view.len() as int)) by {
            assert(items@ =~= before.drop_first());
            assert(views_of(items@) =~= views_of(before).drop_first());
        }
    }
    Ok(attrs)
}

/// Reads the arguments of `#[nutype(...)]`: the tokens are taken apart by
/// proc_macro2 ([`tokens_of`]), then read by [`attributes_from_tokens`].
pub fn read_attributes<G: AttrGrammar>(ts: proc_macro2::TokenStream, features: Features, inner_type: &str) -> (r: Result<
    Attributes<G>,
    AttrSyntaxError,
>) {
    attributes_from_tokens::<G>(tokens_of(ts), features, inner_type)
}

} // verus!
