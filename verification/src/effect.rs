//! The input of `effect!`, and the decisions of reading it.
//!
//! Two forms are accepted: `watch: [a, b], || body` (or `deps:` in place of
//! `watch:`), and `deps: [a, b], run: || body, cleanup: || cleanup`.

use vstd::prelude::*;
use crate::tokens::{
    extent, find_extent, ident_of, ident_tok, is_punct, punct_is, range_text, toks_text, Delim, Tok,
};

verus! {

/// An effect: the signals it watches, its body and its optional cleanup,
/// each piece of code as source text.
pub struct Effect {
    pub deps: Vec<String>,
    pub body: String,
    pub cleanup: Option<String>,
}

/// Why the input of `effect!` was refused.
#[derive(PartialEq, Eq, Structural)]
pub enum EffectError {
    /// An identifier is missing (a keyword is no identifier).
    ExpectedIdent,
    /// The input does not start with `watch` or `deps`.
    ExpectedWatchOrDeps,
    /// A `:` is missing.
    ExpectedColon,
    /// The dependency list in square brackets is missing.
    ExpectedBrackets,
    /// A `,` is missing after the dependency list.
    ExpectedComma,
    /// An expression is missing.
    ExpectedExpression,
    /// The keyword after `run: ..,` is not `cleanup`.
    ExpectedCleanup,
    /// Tokens follow the end of the input.
    UnexpectedToken,
}

/// The message of an error.
pub open spec fn effect_error_message(e: EffectError) -> Seq<char> {
    match e {
        EffectError::ExpectedIdent => "expected identifier"@,
        EffectError::ExpectedWatchOrDeps => "expected `watch` or `deps`"@,
        EffectError::ExpectedColon => "expected `:`"@,
        EffectError::ExpectedBrackets => "expected square brackets"@,
        EffectError::ExpectedComma => "expected `,`"@,
        EffectError::ExpectedExpression => "expected an expression"@,
        EffectError::ExpectedCleanup => "expected `cleanup`"@,
        EffectError::UnexpectedToken => "unexpected token"@,
    }
}

impl EffectError {
    /// The message of the error.
    pub fn message(&self) -> (r: &'static str)
        ensures
            r@ == effect_error_message(*self),
    {
        match self {
            EffectError::ExpectedIdent => "expected identifier",
            EffectError::ExpectedWatchOrDeps => "expected `watch` or `deps`",
            EffectError::ExpectedColon => "expected `:`",
            EffectError::ExpectedBrackets => "expected square brackets",
            EffectError::ExpectedComma => "expected `,`",
            EffectError::ExpectedExpression => "expected an expression",
            EffectError::ExpectedCleanup => "expected `cleanup`",
            EffectError::UnexpectedToken => "unexpected token",
        }
    }
}

/// Checks the keyword that starts the input: `watch` or `deps`.
pub fn check_effect_keyword(kw: &str) -> (r: Result<(), EffectError>)
    ensures
        r is Ok <==> (kw@ == "watch"@ || kw@ == "deps"@),
        r is Err ==> r->Err_0 == EffectError::ExpectedWatchOrDeps,
{
    if crate::text::str_eq(kw, "watch") || crate::text::str_eq(kw, "deps") {
        Ok(())
    } else {
        Err(EffectError::ExpectedWatchOrDeps)
    }
}

/// Checks the keyword after the body of the structured form: `cleanup`.
pub fn check_cleanup_keyword(kw: &str) -> (r: Result<(), EffectError>)
    ensures
        r is Ok <==> kw@ == "cleanup"@,
        r is Err ==> r->Err_0 == EffectError::ExpectedCleanup,
{
    if crate::text::str_eq(kw, "cleanup") {
        Ok(())
    } else {
        Err(EffectError::ExpectedCleanup)
    }
}

/// Whether the structured form follows the dependency list: the next token
/// is the identifier `run`.
pub fn is_structured(next_ident: Option<&str>) -> (r: bool)
    ensures
        r == match next_ident {
            Some(id) => id@ == "run"@,
            None => false,
        },
{
    match next_ident {
        Some(id) => crate::text::str_eq(id, "run"),
        None => false,
    }
}


/// An effect as the grammar reads it: the dependencies, the body's text
/// and the cleanup's text.
pub struct EffectParts {
    pub deps: Seq<Seq<char>>,
    pub body: Seq<char>,
    pub cleanup: Option<Seq<char>>,
}

/// What an effect holds, as text.
pub open spec fn effect_parts(e: Effect) -> EffectParts {
    EffectParts {
        deps: e.deps@.map_values(|d: String| d@),
        body: e.body@,
        cleanup: match e.cleanup {
            Some(c) => Some(c@),
            None => None,
        },
    }
}

/// `acc` followed by the list in `r`, or the error of `r`.
pub open spec fn prepend(acc: Seq<Seq<char>>, r: Result<Seq<Seq<char>>, EffectError>) -> Result<Seq<Seq<char>>, EffectError> {
    match r {
        Ok(v) => Ok(acc + v),
        Err(e) => Err(e),
    }
}

/// The dependencies in the brackets, from the `i`-th token on: identifiers,
/// each followed by an optional `,`.
pub open spec fn deps_from(ts: Seq<Tok>, i: nat) -> Result<Seq<Seq<char>>, EffectError>
    decreases ts.len() - i,
{
    if i >= ts.len() {
        Ok(Seq::empty())
    } else {
        match ident_tok(ts[i as int]) {
            None => Err(EffectError::ExpectedIdent),
            Some(d) => {
                let j: nat = if i + 1 < ts.len() && is_punct(ts[i + 1 as int], ',') {
                    i + 2
                } else {
                    i + 1
                };
                prepend(seq![d], deps_from(ts, j))
            },
        }
    }
}

/// The tokens inside a square-bracket group.
pub open spec fn bracket_inner(t: Tok) -> Option<Seq<Tok>> {
    match t {
        Tok::Group(Delim::Bracket, inner) => Some(inner@),
        _ => None,
    }
}

/// An expression that must take all of `ts`: its text.
pub open spec fn whole_expr(ts: Seq<Tok>) -> Result<Seq<char>, EffectError> {
    match extent(ts, false) {
        None => Err(EffectError::ExpectedExpression),
        Some(k) => if k < ts.len() {
            Err(EffectError::UnexpectedToken)
        } else {
            Ok(toks_text(ts))
        },
    }
}

/// What follows `run: <body>,`: `cleanup: <expression>`.
pub open spec fn cleanup_part(deps: Seq<Seq<char>>, body: Seq<char>, c: Seq<Tok>) -> Result<EffectParts, EffectError> {
    if c.len() == 0 {
        Err(EffectError::ExpectedIdent)
    } else {
        match ident_tok(c[0]) {
            None => Err(EffectError::ExpectedIdent),
            Some(w) => if w != "cleanup"@ {
                Err(EffectError::ExpectedCleanup)
            } else if c.len() < 2 || !is_punct(c[1], ':') {
                Err(EffectError::ExpectedColon)
            } else {
                match whole_expr(c.subrange(2, c.len() as int)) {
                    Err(e) => Err(e),
                    Ok(t) => Ok(EffectParts { deps, body, cleanup: Some(t) }),
                }
            },
        }
    }
}

/// What follows the dependency list and its `,`: either `run: <body>`,
/// optionally followed by `, cleanup: <expression>`, or the body alone.
pub open spec fn effect_rest(deps: Seq<Seq<char>>, r: Seq<Tok>) -> Result<EffectParts, EffectError> {
    if r.len() > 0 && ident_tok(r[0]) == Some("run"@) {
        if r.len() < 2 || !is_punct(r[1], ':') {
            Err(EffectError::ExpectedColon)
        } else {
            let b = r.subrange(2, r.len() as int);
            match extent(b, false) {
                None => Err(EffectError::ExpectedExpression),
                Some(k) => if k == b.len() {
                    Ok(EffectParts { deps, body: toks_text(b), cleanup: None })
                } else {
                    cleanup_part(deps, toks_text(b.subrange(0, k as int)), b.subrange(k + 1 as int, b.len() as int))
                },
            }
        }
    } else {
        match whole_expr(r) {
            Err(e) => Err(e),
            Ok(t) => Ok(EffectParts { deps, body: t, cleanup: None }),
        }
    }
}

/// The grammar of `effect!`:
/// `(watch|deps) : [ id (,)? ... ] , ( run : E (, cleanup : E)? | E )`.
pub open spec fn effect_grammar(ts: Seq<Tok>) -> Result<EffectParts, EffectError> {
    if ts.len() == 0 {
        Err(EffectError::ExpectedIdent)
    } else {
        match ident_tok(ts[0]) {
            None => Err(EffectError::ExpectedIdent),
            Some(kw) => if !(kw == "watch"@ || kw == "deps"@) {
                Err(EffectError::ExpectedWatchOrDeps)
            } else if ts.len() < 2 || !is_punct(ts[1], ':') {
                Err(EffectError::ExpectedColon)
            } else if ts.len() < 3 || bracket_inner(ts[2]) is None {
                Err(EffectError::ExpectedBrackets)
            } else {
                match deps_from(bracket_inner(ts[2]).unwrap(), 0) {
                    Err(e) => Err(e),
                    Ok(deps) => if ts.len() < 4 || !is_punct(ts[3], ',') {
                        Err(EffectError::ExpectedComma)
                    } else {
                        effect_rest(deps, ts.subrange(4, ts.len() as int))
                    },
                }
            },
        }
    }
}

fn parse_deps(ts: &Vec<Tok>) -> (r: Result<Vec<String>, EffectError>)
    ensures
        match r {
            Ok(v) => deps_from(ts@, 0) == Ok::<Seq<Seq<char>>, EffectError>(v@.map_values(|d: String| d@)),
            Err(e) => deps_from(ts@, 0) == Err::<Seq<Seq<char>>, EffectError>(e),
        },
{
    let mut acc: Vec<String> = Vec::new();
    let mut i: usize = 0;
    while i < ts.len()
        invariant
            deps_from(ts@, 0) == prepend(acc@.map_values(|d: String| d@), deps_from(ts@, i as nat)),
        decreases ts@.len() - i,
    {
        match ident_of(&ts[i]) {
            None => {
                return Err(EffectError::ExpectedIdent);
            },
            Some(d) => {
                let ghost old_acc = acc@.map_values(|d: String| d@);
                let ghost dv = d@;
                acc.push(d);
                let j = if i + 1 < ts.len() && punct_is(&ts[i + 1], ',') {
                    i + 2
                } else {
                    i + 1
                };
                proof {
                    assert(acc@.map_values(|d: String| d@) =~= old_acc + seq![dv]);
                    let r = deps_from(ts@, j as nat);
                    match r {
                        Ok(v) => assert(old_acc + (seq![dv] + v) =~= (old_acc + seq![dv]) + v),
                        Err(_) => {},
                    }
                }
                i = j;
            },
        }
    }
    proof {
        assert(acc@.map_values(|d: String| d@) + Seq::<Seq<char>>::empty() =~= acc@.map_values(|d: String| d@));
    }
    Ok(acc)
}

/// An expression that must take all the tokens of `ts` from `lo` on: its
/// text.
fn parse_whole_expr(ts: &Vec<Tok>, lo: usize) -> (r: Result<String, EffectError>)
    requires
        lo <= ts@.len(),
    ensures
        match r {
            Ok(t) => whole_expr(ts@.subrange(lo as int, ts@.len() as int)) == Ok::<Seq<char>, EffectError>(t@),
            Err(e) => whole_expr(ts@.subrange(lo as int, ts@.len() as int)) == Err::<Seq<char>, EffectError>(e),
        },
{
    match find_extent(ts, lo, false) {
        None => Err(EffectError::ExpectedExpression),
        Some(k) => {
            if k < ts.len() - lo {
                Err(EffectError::UnexpectedToken)
            } else {
                Ok(range_text(ts, lo, ts.len()))
            }
        },
    }
}

/// Reads the input of `effect!`.
pub fn parse_effect(ts: &Vec<Tok>) -> (r: Result<Effect, EffectError>)
    ensures
        match r {
            Ok(e) => effect_grammar(ts@) == Ok::<EffectParts, EffectError>(effect_parts(e)),
            Err(x) => effect_grammar(ts@) == Err::<EffectParts, EffectError>(x),
        },
{
    let n = ts.len();
    if n == 0 {
        return Err(EffectError::ExpectedIdent);
    }
    let kw = match ident_of(&ts[0]) {
        Some(k) => k,
        None => {
            return Err(EffectError::ExpectedIdent);
        },
    };
    if let Err(e) = check_effect_keyword(kw.as_str()) {
        return Err(e);
    }
    if n < 2 || !punct_is(&ts[1], ':') {
        return Err(EffectError::ExpectedColon);
    }
    if n < 3 {
        return Err(EffectError::ExpectedBrackets);
    }
    let inner = match &ts[2] {
        Tok::Group(Delim::Bracket, inner) => inner,
        _ => {
            return Err(EffectError::ExpectedBrackets);
        },
    };
    let deps = match parse_deps(inner) {
        Ok(d) => d,
        Err(e) => {
            return Err(e);
        },
    };
    if n < 4 || !punct_is(&ts[3], ',') {
        return Err(EffectError::ExpectedComma);
    }
    let ghost r = ts@.subrange(4, n as int);
    let structured = if n > 4 {
        match ident_of(&ts[4]) {
            Some(w) => is_structured(Some(w.as_str())),
            None => false,
        }
    } else {
        false
    };
    assert(structured == (r.len() > 0 && ident_tok(r[0]) == Some("run"@)));
    if structured {
        if n < 6 || !punct_is(&ts[5], ':') {
            return Err(EffectError::ExpectedColon);
        }
        let ghost b = ts@.subrange(6, n as int);
        assert(r.subrange(2, r.len() as int) =~= b);
        match find_extent(ts, 6, false) {
            None => Err(EffectError::ExpectedExpression),
            Some(k) => {
                if k == n - 6 {
                    let body = range_text(ts, 6, n);
                    Ok(Effect { deps, body, cleanup: None })
                } else {
                    let body = range_text(ts, 6, 6 + k);
                    assert(b.subrange(0, k as int) =~= ts@.subrange(6, 6 + k));
                    let c0 = 6 + k + 1;
                    let ghost c = ts@.subrange(c0 as int, n as int);
                    assert(b.subrange(k + 1, b.len() as int) =~= c);
                    if c0 >= n {
                        return Err(EffectError::ExpectedIdent);
                    }
                    let w = match ident_of(&ts[c0]) {
                        Some(w) => w,
                        None => {
                            return Err(EffectError::ExpectedIdent);
                        },
                    };
                    if let Err(e) = check_cleanup_keyword(w.as_str()) {
                        return Err(e);
                    }
                    if c0 + 1 >= n || !punct_is(&ts[c0 + 1], ':') {
                        return Err(EffectError::ExpectedColon);
                    }
                    assert(c.subrange(2, c.len() as int) =~= ts@.subrange(c0 + 2, n as int));
                    match parse_whole_expr(ts, c0 + 2) {
                        Ok(t) => Ok(Effect { deps, body, cleanup: Some(t) }),
                        Err(e) => Err(e),
                    }
                }
            },
        }
    } else {
        match parse_whole_expr(ts, 4) {
            Ok(t) => Ok(Effect { deps, body: t, cleanup: None }),
            Err(e) => Err(e),
        }
    }
}

} // verus!
