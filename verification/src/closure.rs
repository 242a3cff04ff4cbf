use vstd::prelude::*;

use crate::text::str_eq;

verus! {

/// What the typing of a closure needs to know of a token.
pub enum TokenKind {
    /// The punctuation `|`.
    Pipe,
    /// An identifier, e.g. `s` or `mut`.
    Ident(String),
    /// Anything else.
    Other,
}

pub open spec fn is_ident(t: TokenKind) -> bool {
    t is Ident
}

pub open spec fn is_mut(t: TokenKind) -> bool {
    t matches TokenKind::Ident(s) && s@ == "mut"@
}

/// Where `: Type` goes in a closure's tokens: after `|s` in `|s| ...`, after
/// `|mut s` in `|mut s| ...`; nowhere for anything else (a path to a
/// function, a closure with several arguments or a typed one).
pub open spec fn spec_type_position(ts: Seq<TokenKind>) -> Option<int> {
    if ts.len() >= 3 && ts[0] is Pipe && is_ident(ts[1]) && ts[2] is Pipe {
        Some(2)
    } else if ts.len() >= 4 && ts[0] is Pipe && is_mut(ts[1]) && is_ident(ts[2]) && ts[3] is Pipe {
        Some(3)
    } else {
        None
    }
}

fn is_pipe_token(t: &TokenKind) -> (r: bool)
    ensures
        r == (*t is Pipe),
{
    match t {
        TokenKind::Pipe => true,
        _ => false,
    }
}

fn is_ident_token(t: &TokenKind) -> (r: bool)
    ensures
        r == is_ident(*t),
{
    match t {
        TokenKind::Ident(_) => true,
        _ => false,
    }
}

fn is_mut_token(t: &TokenKind) -> (r: bool)
    ensures
        r == is_mut(*t),
{
    match t {
        TokenKind::Ident(s) => str_eq(s.as_str(), "mut"),
        _ => false,
    }
}

/// Finds where the argument's type goes in a closure (see `spec_type_position`).
pub fn type_position(kinds: &Vec<TokenKind>) -> (r: Option<usize>)
    ensures
        r matches Some(p) ==> spec_type_position(kinds@) == Some(p as int),
        r is None ==> spec_type_position(kinds@) is None,
{
    let n = kinds.len();
    if n >= 3 && is_pipe_token(&kinds[0]) && is_ident_token(&kinds[1]) && is_pipe_token(&kinds[2]) {
        Some(2)
    } else if n >= 4 && is_pipe_token(&kinds[0]) && is_mut_token(&kinds[1]) && is_ident_token(&kinds[2])
        && is_pipe_token(&kinds[3]) {
        Some(3)
    } else {
        None
    }
}

/// The tokens with `:` and the type's tokens put in at `pos`.
pub open spec fn spec_insert_type<T>(ts: Seq<T>, pos: int, colon: T, ty: Seq<T>) -> Seq<T> {
    ts.subrange(0, pos) + seq![colon] + ty + ts.subrange(pos, ts.len() as int)
}

/// Typing a closure only inserts `:` and the type: the tokens before and
/// after the insertion point are those of the closure, in order.
pub proof fn lemma_typing_only_inserts<T>(ts: Seq<T>, pos: int, colon: T, ty: Seq<T>)
    requires
        0 <= pos <= ts.len(),
    ensures
        spec_insert_type(ts, pos, colon, ty).len() == ts.len() + 1 + ty.len(),
        spec_insert_type(ts, pos, colon, ty).subrange(0, pos) == ts.subrange(0, pos),
        spec_insert_type(ts, pos, colon, ty)[pos] == colon,
        spec_insert_type(ts, pos, colon, ty).subrange(pos + 1, pos + 1 + ty.len()) == ty,
        spec_insert_type(ts, pos, colon, ty).subrange(pos + 1 + ty.len(), (ts.len() + 1 + ty.len()) as int) == ts.subrange(
            pos,
            ts.len() as int,
        ),
{
    let r = spec_insert_type(ts, pos, colon, ty);
    assert(r.subrange(0, pos) =~= ts.subrange(0, pos));
    assert(r.subrange(pos + 1, pos + 1 + ty.len()) =~= ty);
    assert(r.subrange(pos + 1 + ty.len(), (ts.len() + 1 + ty.len()) as int) =~= ts.subrange(pos, ts.len() as int));
}

/// Gives the argument of a one-argument closure its type, so that the
/// compiler does not have to infer it: `|s| s.trim()` becomes
/// `|s: String| s.trim()`. Other tokens are returned as they are. `kinds`
/// describes `tokens`, one for one.
pub fn type_custom_closure<T>(tokens: Vec<T>, kinds: &Vec<TokenKind>, colon: T, ty: Vec<T>) -> (r: Vec<T>)
    requires
        kinds@.len() == tokens@.len(),
    ensures
        match spec_type_position(kinds@) {
            Some(p) => r@ == spec_insert_type(tokens@, p, colon, ty@),
            None => r@ == tokens@,
        },
{
    match type_position(kinds) {
        None => tokens,
        Some(pos) => {
            let mut tokens = tokens;
            let ghost input = tokens@;
            let mut tail: Vec<T> = tokens.split_off(pos);
            tokens.push(colon);
            let ghost ty_view = ty@;
            let mut ty = ty;
            tokens.append(&mut ty);
            tokens.append(&mut tail);
            assert(tokens@ =~= spec_insert_type(input, pos as int, colon, ty_view));
            tokens
        },
    }
}

} // verus!
