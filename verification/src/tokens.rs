//! Macro input as plain tokens, their source text, and the extents of the
//! expressions and types in them.

use vstd::prelude::*;
use crate::text::{copy_string, push_char, str_eq};

verus! {

/// The delimiter of a group.
#[derive(Clone, Copy, PartialEq, Eq, Structural)]
pub enum Delim {
    Paren,
    Brace,
    Bracket,
    /// A group without visible delimiters.
    Invisible,
}

/// A token tree of macro input.
pub enum Tok {
    /// An identifier (a keyword too), as written.
    Ident(String),
    /// A punctuation character, and whether it is joined to the next one.
    Punct(char, bool),
    /// A literal, as written.
    Literal(String),
    /// A delimited group and the tokens inside it.
    Group(Delim, Vec<Tok>),
}

/// The opening delimiter of a group.
pub open spec fn open_text(d: Delim) -> Seq<char> {
    match d {
        Delim::Paren => seq!['('],
        Delim::Brace => seq!['{'],
        Delim::Bracket => seq!['['],
        Delim::Invisible => Seq::empty(),
    }
}

/// The closing delimiter of a group.
pub open spec fn close_text(d: Delim) -> Seq<char> {
    match d {
        Delim::Paren => seq![')'],
        Delim::Brace => seq!['}'],
        Delim::Bracket => seq![']'],
        Delim::Invisible => Seq::empty(),
    }
}

/// The source text of a token.
pub open spec fn tok_text(t: Tok) -> Seq<char>
    decreases t, 1int,
{
    match t {
        Tok::Ident(s) => s@,
        Tok::Punct(c, _) => seq![c],
        Tok::Literal(s) => s@,
        Tok::Group(d, inner) => open_text(d) + toks_text(inner@) + close_text(d),
    }
}

/// The source text of a token and the space after it: none after a
/// punctuation character joined to the next one.
pub open spec fn tok_piece(t: Tok) -> Seq<char>
    decreases t, 2int,
{
    tok_text(t) + match t {
        Tok::Punct(_, true) => Seq::empty(),
        _ => seq![' '],
    }
}

/// The source text of tokens one after the other.
pub open spec fn toks_text(ts: Seq<Tok>) -> Seq<char>
    decreases ts, 0int,
{
    if ts.len() == 0 {
        Seq::empty()
    } else {
        toks_text(ts.drop_last()) + tok_piece(ts.last())
    }
}

/// Appends the source text of a token and the space after it.
pub fn push_tok_text(out: &mut String, t: &Tok)
    ensures
        final(out)@ == old(out)@ + tok_piece(*t),
    decreases t, 2int,
{
    let ghost start = out@;
    match t {
        Tok::Ident(s) => {
            out.append(s.as_str());
            push_char(out, ' ');
        },
        Tok::Punct(c, joint) => {
            push_char(out, *c);
            if !*joint {
                push_char(out, ' ');
            }
        },
        Tok::Literal(s) => {
            out.append(s.as_str());
            push_char(out, ' ');
        },
        Tok::Group(d, inner) => {
            match d {
                Delim::Paren => push_char(out, '('),
                Delim::Brace => push_char(out, '{'),
                Delim::Bracket => push_char(out, '['),
                Delim::Invisible => {},
            }
            push_toks_text(out, inner);
            match d {
                Delim::Paren => push_char(out, ')'),
                Delim::Brace => push_char(out, '}'),
                Delim::Bracket => push_char(out, ']'),
                Delim::Invisible => {},
            }
            push_char(out, ' ');
        },
    }
    assert(out@ =~= start + tok_piece(*t));
}

/// Appends the source text of tokens one after the other.
pub fn push_toks_text(out: &mut String, ts: &Vec<Tok>)
    ensures
        final(out)@ == old(out)@ + toks_text(ts@),
    decreases ts, 0int,
{
    let ghost start = out@;
    let mut i: usize = 0;
    while i < ts.len()
        invariant
            i <= ts@.len(),
            out@ == start + toks_text(ts@.subrange(0, i as int)),
        decreases ts@.len() - i,
    {
        let ghost after = ts@.subrange(0, i + 1);
        assert(after.drop_last() =~= ts@.subrange(0, i as int));
        push_tok_text(out, &ts[i]);
        i = i + 1;
        assert(out@ =~= start + toks_text(ts@.subrange(0, i as int)));
    }
    assert(ts@.subrange(0, ts@.len() as int) =~= ts@);
}

/// Whether `syn` parses the source text `t` as one whole expression.
pub uninterp spec fn expr_text_ok(t: Seq<char>) -> bool;

/// Whether `syn` parses the source text `t` as one whole type.
pub uninterp spec fn type_text_ok(t: Seq<char>) -> bool;

/// The value of the string literal whose source text is `t`, when `syn`
/// reads `t` as one string literal.
pub uninterp spec fn lit_str_value(t: Seq<char>) -> Option<Seq<char>>;

/// `syn::parse_str::<syn::Expr>`: whether the text is one whole expression.
/// The text is first split into tokens: by the compiler inside a
/// procedural macro, after proc-macro2 has checked it with its own lexer,
/// and by that lexer elsewhere; for text that both accept they give the
/// same tokens, and `syn` alone decides the rest.
#[verifier::external_body]
fn syn_expr_ok(t: &str) -> (r: bool)
    ensures
        r == expr_text_ok(t@),
{
    syn::parse_str::<syn::Expr>(t).is_ok()
}

/// `syn::parse_str::<syn::Type>`: whether the text is one whole type, its
/// tokens read as for `syn_expr_ok`.
#[verifier::external_body]
fn syn_type_ok(t: &str) -> (r: bool)
    ensures
        r == type_text_ok(t@),
{
    syn::parse_str::<syn::Type>(t).is_ok()
}

/// `syn::parse_str::<syn::LitStr>` and `LitStr::value`: the value of the
/// string literal that the text is, read as for `syn_expr_ok`.
#[verifier::external_body]
pub(crate) fn syn_lit_str_value(t: &str) -> (r: Option<String>)
    ensures
        match r {
            Some(v) => lit_str_value(t@) == Some(v@),
            None => lit_str_value(t@) is None,
        },
{
    syn::parse_str::<syn::LitStr>(t).ok().map(|l| l.value())
}

/// Whether a token is the punctuation character `c`.
pub open spec fn is_punct(t: Tok, c: char) -> bool {
    match t {
        Tok::Punct(p, _) => p == c,
        _ => false,
    }
}

/// Whether the `k`-th position of `ts` ends a top-level piece: the end, or
/// a comma.
pub open spec fn piece_end(ts: Seq<Tok>, k: int) -> bool {
    k == ts.len() || (0 <= k < ts.len() && is_punct(ts[k], ','))
}

/// Whether the first `k` tokens of `ts`, ending a piece, are one whole
/// expression (`ty` false) or type (`ty` true).
pub open spec fn piece_ok(ts: Seq<Tok>, k: int, ty: bool) -> bool {
    &&& piece_end(ts, k)
    &&& if ty {
        type_text_ok(toks_text(ts.subrange(0, k)))
    } else {
        expr_text_ok(toks_text(ts.subrange(0, k)))
    }
}

/// The number of tokens of the expression (`ty` false) or type (`ty` true)
/// that `ts` starts with, searched from `k` on: the first end of a piece
/// before which the tokens are one whole expression or type. An expression
/// or type holds a top-level comma only where a shorter prefix is not yet
/// one (closure parameters, generic arguments), so this is where `syn`,
/// reading it from the start of `ts`, stops.
pub open spec fn extent_from(ts: Seq<Tok>, k: nat, ty: bool) -> Option<nat>
    decreases ts.len() + 1 - k,
{
    if k > ts.len() {
        None
    } else if piece_ok(ts, k as int, ty) {
        Some(k)
    } else {
        extent_from(ts, k + 1, ty)
    }
}

/// The number of tokens of the expression or type that `ts` starts with.
pub open spec fn extent(ts: Seq<Tok>, ty: bool) -> Option<nat> {
    extent_from(ts, 0, ty)
}

/// Finds the extent of the expression (`ty` false) or type (`ty` true)
/// that the tokens from `lo` on start with, as a count of tokens.
pub fn find_extent(ts: &Vec<Tok>, lo: usize, ty: bool) -> (r: Option<usize>)
    requires
        lo <= ts@.len(),
    ensures
        match r {
            Some(k) => extent(ts@.subrange(lo as int, ts@.len() as int), ty) == Some(k as nat) && k <= ts@.len()
                - lo,
            None => extent(ts@.subrange(lo as int, ts@.len() as int), ty) is None,
        },
{
    let ghost rest = ts@.subrange(lo as int, ts@.len() as int);
    let n = ts.len() - lo;
    let mut text = String::new();
    let mut k: usize = 0;
    while k <= n
        invariant
            n == rest.len(),
            lo + n == ts@.len(),
            ts@.len() == ts.len(),
            rest == ts@.subrange(lo as int, ts@.len() as int),
            k <= n + 1,
            k <= n ==> text@ == toks_text(rest.subrange(0, k as int)),
            extent(rest, ty) == extent_from(rest, k as nat, ty),
        decreases n + 1 - k,
    {
        let at_end = if k == n {
            true
        } else {
            match &ts[lo + k] {
                Tok::Punct(c, _) => *c == ',',
                _ => false,
            }
        };
        if at_end {
            let ok = if ty {
                syn_type_ok(text.as_str())
            } else {
                syn_expr_ok(text.as_str())
            };
            if ok {
                return Some(k);
            }
        }
        if k == n {
            proof {
                assert(extent_from(rest, (k + 1) as nat, ty) is None);
            }
            return None;
        }
        let ghost after = rest.subrange(0, k + 1);
        assert(after.drop_last() =~= rest.subrange(0, k as int));
        assert(after.last() == ts@[lo + k]);
        push_tok_text(&mut text, &ts[lo + k]);
        k = k + 1;
    }
    None
}


/// The words that `syn` does not take as an identifier: `_` and the
/// keywords of Rust.
pub open spec fn syn_keyword(s: Seq<char>) -> bool {
    s == "_"@
        || s == "abstract"@
        || s == "as"@
        || s == "async"@
        || s == "await"@
        || s == "become"@
        || s == "box"@
        || s == "break"@
        || s == "const"@
        || s == "continue"@
        || s == "crate"@
        || s == "do"@
        || s == "dyn"@
        || s == "else"@
        || s == "enum"@
        || s == "extern"@
        || s == "false"@
        || s == "final"@
        || s == "fn"@
        || s == "for"@
        || s == "if"@
        || s == "impl"@
        || s == "in"@
        || s == "let"@
        || s == "loop"@
        || s == "macro"@
        || s == "match"@
        || s == "mod"@
        || s == "move"@
        || s == "mut"@
        || s == "override"@
        || s == "priv"@
        || s == "pub"@
        || s == "ref"@
        || s == "return"@
        || s == "Self"@
        || s == "self"@
        || s == "static"@
        || s == "struct"@
        || s == "super"@
        || s == "trait"@
        || s == "true"@
        || s == "try"@
        || s == "type"@
        || s == "typeof"@
        || s == "unsafe"@
        || s == "unsized"@
        || s == "use"@
        || s == "virtual"@
        || s == "where"@
        || s == "while"@
        || s == "yield"@
}

/// Whether `s` is a word that `syn` does not take as an identifier.
pub fn is_syn_keyword(s: &str) -> (r: bool)
    ensures
        r == syn_keyword(s@),
{
    str_eq(s, "_")
        || str_eq(s, "abstract")
        || str_eq(s, "as")
        || str_eq(s, "async")
        || str_eq(s, "await")
        || str_eq(s, "become")
        || str_eq(s, "box")
        || str_eq(s, "break")
        || str_eq(s, "const")
        || str_eq(s, "continue")
        || str_eq(s, "crate")
        || str_eq(s, "do")
        || str_eq(s, "dyn")
        || str_eq(s, "else")
        || str_eq(s, "enum")
        || str_eq(s, "extern")
        || str_eq(s, "false")
        || str_eq(s, "final")
        || str_eq(s, "fn")
        || str_eq(s, "for")
        || str_eq(s, "if")
        || str_eq(s, "impl")
        || str_eq(s, "in")
        || str_eq(s, "let")
        || str_eq(s, "loop")
        || str_eq(s, "macro")
        || str_eq(s, "match")
        || str_eq(s, "mod")
        || str_eq(s, "move")
        || str_eq(s, "mut")
        || str_eq(s, "override")
        || str_eq(s, "priv")
        || str_eq(s, "pub")
        || str_eq(s, "ref")
        || str_eq(s, "return")
        || str_eq(s, "Self")
        || str_eq(s, "self")
        || str_eq(s, "static")
        || str_eq(s, "struct")
        || str_eq(s, "super")
        || str_eq(s, "trait")
        || str_eq(s, "true")
        || str_eq(s, "try")
        || str_eq(s, "type")
        || str_eq(s, "typeof")
        || str_eq(s, "unsafe")
        || str_eq(s, "unsized")
        || str_eq(s, "use")
        || str_eq(s, "virtual")
        || str_eq(s, "where")
        || str_eq(s, "while")
        || str_eq(s, "yield")
}

/// The identifier that a token is, when `syn` takes it as one.
pub open spec fn ident_tok(t: Tok) -> Option<Seq<char>> {
    match t {
        Tok::Ident(s) => if syn_keyword(s@) {
            None
        } else {
            Some(s@)
        },
        _ => None,
    }
}

/// The identifier that a token is, when `syn` takes it as one.
pub fn ident_of(t: &Tok) -> (r: Option<String>)
    ensures
        match r {
            Some(s) => ident_tok(*t) == Some(s@),
            None => ident_tok(*t) is None,
        },
{
    match t {
        Tok::Ident(s) => if is_syn_keyword(s.as_str()) {
            None
        } else {
            Some(copy_string(s))
        },
        _ => None,
    }
}

/// Whether a token is the punctuation character `c`.
pub fn punct_is(t: &Tok, c: char) -> (r: bool)
    ensures
        r == is_punct(*t, c),
{
    match t {
        Tok::Punct(p, _) => *p == c,
        _ => false,
    }
}

/// The source text of the tokens of `ts` from `lo` up to `hi`.
pub fn range_text(ts: &Vec<Tok>, lo: usize, hi: usize) -> (out: String)
    requires
        lo <= hi <= ts@.len(),
    ensures
        out@ == toks_text(ts@.subrange(lo as int, hi as int)),
{
    let mut out = String::new();
    let mut i: usize = lo;
    while i < hi
        invariant
            lo <= i <= hi,
            hi <= ts@.len(),
            out@ == toks_text(ts@.subrange(lo as int, i as int)),
        decreases hi - i,
    {
        let ghost after = ts@.subrange(lo as int, i + 1);
        assert(after.drop_last() =~= ts@.subrange(lo as int, i as int));
        assert(after.last() == ts@[i as int]);
        push_tok_text(&mut out, &ts[i]);
        i = i + 1;
    }
    out
}

} // verus!
