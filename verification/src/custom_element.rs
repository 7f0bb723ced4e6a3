//! `quoin_element!`: a custom element is a struct of its props with a
//! `render` method for the chosen framework, re-exported from a hidden
//! `__quoin_elements` module.

use vstd::prelude::*;
use crate::emit::Framework;
use crate::ident::{ident_ok, is_valid_ident};
use crate::text::{joined, push_joined, render_each, texts};
use crate::tokens::{
    extent, find_extent, ident_of, ident_tok, is_punct, lit_str_value, punct_is, range_text, syn_lit_str_value,
    toks_text, Delim, Tok,
};

verus! {

/// The definition of a custom element: its name, its props and, when
/// given, its render closure as source text.
pub struct CustomElementDef {
    pub name: String,
    pub props: Vec<PropDef>,
    pub render_fn: Option<String>,
}

/// A prop of a custom element: `name: Type`.
pub struct PropDef {
    pub name: String,
    pub ty: String,
}

/// A public field of the element's struct.
pub open spec fn element_field(p: PropDef) -> Seq<char> {
    "pub "@ + p.name@ + " : "@ + p.ty@
}

/// The public fields of the element's struct, one per prop.
pub open spec fn element_fields(v: Seq<PropDef>) -> Seq<Seq<char>> {
    Seq::new(v.len(), |i: int| element_field(v[i]))
}

fn element_field_text(p: &PropDef) -> (out: String)
    ensures
        out@ == element_field(*p),
{
    let mut out = String::from_str("pub ");
    out.append(p.name.as_str());
    out.append(" : ");
    out.append(p.ty.as_str());
    out
}

/// The `render` method of the element `name` for a framework: the render
/// closure's code, or an empty `div` without one; without a framework, a
/// compile error.
pub open spec fn element_render(name: Seq<char>, render_fn: Option<String>, framework: Option<Framework>) -> Seq<char> {
    match framework {
        Some(Framework::Gpui) => "impl "@ + name
            + " { pub fn render<F, E>(&self, _ctx: &F) -> E where F: Clone, E: From<::gpui::Div>, { let _ = _ctx; "@
            + match render_fn {
            Some(r) => r@,
            None => "::gpui::div()"@,
        } + " } }"@,
        Some(Framework::Leptos) => "impl "@ + name + " { pub fn render(&self) -> impl leptos::prelude::IntoView { "@
            + match render_fn {
            Some(r) => r@,
            None => "leptos::prelude::view! { <div></div> }"@,
        } + " } }"@,
        Some(Framework::Dioxus) => "impl "@ + name
            + " { pub fn render(&self) -> dioxus::prelude::Element { dioxus::prelude::rsx! { "@ + match render_fn {
            Some(r) => r@,
            None => "div {}"@,
        } + " } } }"@,
        None => "compile_error!(\"quoin_element! requires a framework feature (gpui, leptos, or dioxus)\");"@,
    }
}

/// The whole expansion of a custom element.
pub open spec fn custom_element(def: CustomElementDef, framework: Option<Framework>) -> Seq<char> {
    let name = def.name@;
    "#[derive(Clone)] pub struct "@ + name + " { "@ + joined(element_fields(def.props@), ", "@) + " } "@
        + element_render(name, def.render_fn, framework)
        + " #[doc(hidden)] pub mod __quoin_elements { pub use super:: "@ + name + " as "@ + name + " ; }"@
}

/// Expands a custom element for a framework; the element's name must be an
/// identifier.
pub fn expand_custom_element(def: CustomElementDef, framework: Option<Framework>) -> (out: String)
    requires
        ident_ok(def.name@),
    ensures
        out@ == custom_element(def, framework),
{
    let name = def.name.as_str();
    let mut out = String::from_str("#[derive(Clone)] pub struct ");
    out.append(name);
    out.append(" { ");
    let fields = render_each(&def.props, element_field_text, Ghost(|p: PropDef| element_field(p)));
    assert(texts(fields@) =~= element_fields(def.props@));
    push_joined(&mut out, &fields, ", ");
    out.append(" } ");
    match framework {
        Some(Framework::Gpui) => {
            out.append("impl ");
            out.append(name);
            out.append(
                " { pub fn render<F, E>(&self, _ctx: &F) -> E where F: Clone, E: From<::gpui::Div>, { let _ = _ctx; ",
            );
            match &def.render_fn {
                Some(r) => out.append(r.as_str()),
                None => out.append("::gpui::div()"),
            }
            out.append(" } }");
        },
        Some(Framework::Leptos) => {
            out.append("impl ");
            out.append(name);
            out.append(" { pub fn render(&self) -> impl leptos::prelude::IntoView { ");
            match &def.render_fn {
                Some(r) => out.append(r.as_str()),
                None => out.append("leptos::prelude::view! { <div></div> }"),
            }
            out.append(" } }");
        },
        Some(Framework::Dioxus) => {
            out.append("impl ");
            out.append(name);
            out.append(" { pub fn render(&self) -> dioxus::prelude::Element { dioxus::prelude::rsx! { ");
            match &def.render_fn {
                Some(r) => out.append(r.as_str()),
                None => out.append("div {}"),
            }
            out.append(" } } }");
        },
        None => {
            out.append(
                "compile_error!(\"quoin_element! requires a framework feature (gpui, leptos, or dioxus)\");",
            );
        },
    }
    out.append(" #[doc(hidden)] pub mod __quoin_elements { pub use super:: ");
    out.append(name);
    out.append(" as ");
    out.append(name);
    out.append(" ; }");
    assert(out@ =~= custom_element(def, framework));
    out
}

/// Expands a custom element when its name is an identifier; `None` when it
/// is not.
pub fn try_expand_custom_element(def: CustomElementDef, framework: Option<Framework>) -> (out: Option<String>)
    ensures
        out is Some <==> ident_ok(def.name@),
        out is Some ==> out->0@ == custom_element(def, framework),
{
    if is_valid_ident(def.name.as_str()) {
        Some(expand_custom_element(def, framework))
    } else {
        None
    }
}

/// The expansion of a custom element registered under `name`: none is
/// registered, so always `None`.
pub fn resolve_custom_element(name: &str) -> (r: Option<String>)
    ensures
        r is None,
{
    None
}


/// Why the input of `quoin_element!` was refused.
#[derive(PartialEq, Eq, Structural)]
pub enum ElementError {
    /// The element's name, a string literal, is missing.
    ExpectedString,
    /// A `,` is missing.
    ExpectedComma,
    /// The props in curly braces are missing.
    ExpectedBraces,
    /// A prop's name is missing (a keyword is no identifier).
    ExpectedIdent,
    /// The `:` after a prop's name is missing.
    ExpectedColon,
    /// A prop's type is missing.
    ExpectedType,
    /// The render closure is no expression.
    ExpectedExpression,
    /// Tokens follow the end of the input.
    UnexpectedToken,
}

/// The message of an error.
pub open spec fn element_error_message(e: ElementError) -> Seq<char> {
    match e {
        ElementError::ExpectedString => "expected string literal"@,
        ElementError::ExpectedComma => "expected `,`"@,
        ElementError::ExpectedBraces => "expected curly braces"@,
        ElementError::ExpectedIdent => "expected identifier"@,
        ElementError::ExpectedColon => "expected `:`"@,
        ElementError::ExpectedType => "expected a type"@,
        ElementError::ExpectedExpression => "expected an expression"@,
        ElementError::UnexpectedToken => "unexpected token"@,
    }
}

impl ElementError {
    /// The message of the error.
    pub fn message(&self) -> (r: &'static str)
        ensures
            r@ == element_error_message(*self),
    {
        match self {
            ElementError::ExpectedString => "expected string literal",
            ElementError::ExpectedComma => "expected `,`",
            ElementError::ExpectedBraces => "expected curly braces",
            ElementError::ExpectedIdent => "expected identifier",
            ElementError::ExpectedColon => "expected `:`",
            ElementError::ExpectedType => "expected a type",
            ElementError::ExpectedExpression => "expected an expression",
            ElementError::UnexpectedToken => "unexpected token",
        }
    }
}

/// A custom element as the grammar reads it: its name, its props (name
/// and type text) and its render closure's text.
pub struct ElementParts {
    pub name: Seq<char>,
    pub props: Seq<(Seq<char>, Seq<char>)>,
    pub render_fn: Option<Seq<char>>,
}

/// What a definition holds, as text.
pub open spec fn element_parts(d: CustomElementDef) -> ElementParts {
    ElementParts {
        name: d.name@,
        props: d.props@.map_values(|p: PropDef| (p.name@, p.ty@)),
        render_fn: match d.render_fn {
            Some(r) => Some(r@),
            None => None,
        },
    }
}

/// `acc` followed by the props in `r`, or the error of `r`.
pub open spec fn prepend_props(
    acc: Seq<(Seq<char>, Seq<char>)>,
    r: Result<Seq<(Seq<char>, Seq<char>)>, ElementError>,
) -> Result<Seq<(Seq<char>, Seq<char>)>, ElementError> {
    match r {
        Ok(v) => Ok(acc + v),
        Err(e) => Err(e),
    }
}

/// The props in the braces, from the `i`-th token on: `name: Type`, each
/// but the last followed by `,` (the last one may be too).
pub open spec fn props_from(ts: Seq<Tok>, i: nat) -> Result<Seq<(Seq<char>, Seq<char>)>, ElementError>
    decreases ts.len() - i,
{
    if i >= ts.len() {
        Ok(Seq::empty())
    } else {
        match ident_tok(ts[i as int]) {
            None => Err(ElementError::ExpectedIdent),
            Some(nm) => if i + 1 >= ts.len() || !is_punct(ts[i + 1 as int], ':') {
                Err(ElementError::ExpectedColon)
            } else {
                let rest = ts.subrange(i + 2 as int, ts.len() as int);
                match extent(rest, true) {
                    None => Err(ElementError::ExpectedType),
                    Some(k) => {
                        let p = (nm, toks_text(rest.subrange(0, k as int)));
                        if i + 2 + k >= ts.len() {
                            Ok(seq![p])
                        } else {
                            prepend_props(seq![p], props_from(ts, i + 3 + k))
                        }
                    },
                }
            },
        }
    }
}

/// Whether a token can start the render closure: `(` or `|`.
pub open spec fn starts_closure(t: Tok) -> bool {
    match t {
        Tok::Group(Delim::Paren, _) => true,
        Tok::Punct(c, _) => c == '|',
        _ => false,
    }
}

/// The tokens inside a curly-brace group.
pub open spec fn brace_inner(t: Tok) -> Option<Seq<Tok>> {
    match t {
        Tok::Group(Delim::Brace, inner) => Some(inner@),
        _ => None,
    }
}

/// The optional render closure after the props: `, <closure>` taking the
/// rest of the input, a lone `,`, or nothing.
pub open spec fn render_part(r: Seq<Tok>) -> Result<Option<Seq<char>>, ElementError> {
    if r.len() == 0 {
        Ok(None)
    } else if !is_punct(r[0], ',') {
        Err(ElementError::UnexpectedToken)
    } else if r.len() == 1 {
        Ok(None)
    } else if !starts_closure(r[1]) {
        Err(ElementError::UnexpectedToken)
    } else {
        let e = r.subrange(1, r.len() as int);
        match extent(e, false) {
            None => Err(ElementError::ExpectedExpression),
            Some(k) => if k < e.len() {
                Err(ElementError::UnexpectedToken)
            } else {
                Ok(Some(toks_text(e)))
            },
        }
    }
}

/// The grammar of `quoin_element!`:
/// `"name" , { id : Type (, id : Type)* ,? } (, closure)? ,?`.
pub open spec fn element_grammar(ts: Seq<Tok>) -> Result<ElementParts, ElementError> {
    let name = if ts.len() == 0 {
        None
    } else {
        match ts[0] {
            Tok::Literal(t) => lit_str_value(t@),
            _ => None,
        }
    };
    match name {
        None => Err(ElementError::ExpectedString),
        Some(nm) => if ts.len() < 2 || !is_punct(ts[1], ',') {
            Err(ElementError::ExpectedComma)
        } else if ts.len() < 3 || brace_inner(ts[2]) is None {
            Err(ElementError::ExpectedBraces)
        } else {
            match props_from(brace_inner(ts[2]).unwrap(), 0) {
                Err(e) => Err(e),
                Ok(props) => match render_part(ts.subrange(3, ts.len() as int)) {
                    Err(e) => Err(e),
                    Ok(r) => Ok(ElementParts { name: nm, props, render_fn: r }),
                },
            }
        },
    }
}

fn parse_props(ts: &Vec<Tok>) -> (r: Result<Vec<PropDef>, ElementError>)
    ensures
        match r {
            Ok(v) => props_from(ts@, 0) == Ok::<Seq<(Seq<char>, Seq<char>)>, ElementError>(
                v@.map_values(|p: PropDef| (p.name@, p.ty@)),
            ),
            Err(e) => props_from(ts@, 0) == Err::<Seq<(Seq<char>, Seq<char>)>, ElementError>(e),
        },
{
    let n = ts.len();
    let mut acc: Vec<PropDef> = Vec::new();
    let mut i: usize = 0;
    while i < n
        invariant
            n == ts@.len(),
            props_from(ts@, 0) == prepend_props(
                acc@.map_values(|p: PropDef| (p.name@, p.ty@)),
                props_from(ts@, i as nat),
            ),
        decreases n - i,
    {
        let ghost old_acc = acc@.map_values(|p: PropDef| (p.name@, p.ty@));
        let nm = match ident_of(&ts[i]) {
            Some(nm) => nm,
            None => {
                return Err(ElementError::ExpectedIdent);
            },
        };
        if i + 1 >= n || !punct_is(&ts[i + 1], ':') {
            return Err(ElementError::ExpectedColon);
        }
        let k = match find_extent(ts, i + 2, true) {
            Some(k) => k,
            None => {
                return Err(ElementError::ExpectedType);
            },
        };
        let ty = range_text(ts, i + 2, i + 2 + k);
        proof {
            let rest = ts@.subrange(i + 2 as int, n as int);
            assert(rest.subrange(0, k as int) =~= ts@.subrange(i + 2 as int, i + 2 + k as int));
        }
        let ghost p = (nm@, ty@);
        acc.push(PropDef { name: nm, ty });
        proof {
            assert(acc@.map_values(|p: PropDef| (p.name@, p.ty@)) =~= old_acc + seq![p]);
        }
        if i + 2 + k >= n {
            proof {
                assert(old_acc + seq![p] =~= acc@.map_values(|p: PropDef| (p.name@, p.ty@)));
            }
            return Ok(acc);
        }
        proof {
            match props_from(ts@, (i + 3 + k) as nat) {
                Ok(v) => assert(old_acc + (seq![p] + v) =~= (old_acc + seq![p]) + v),
                Err(_) => {},
            }
        }
        i = i + 3 + k;
    }
    proof {
        assert(acc@.map_values(|p: PropDef| (p.name@, p.ty@)) + Seq::<(Seq<char>, Seq<char>)>::empty()
            =~= acc@.map_values(|p: PropDef| (p.name@, p.ty@)));
    }
    Ok(acc)
}

/// Reads the input of `quoin_element!`.
pub fn parse_custom_element(ts: &Vec<Tok>) -> (r: Result<CustomElementDef, ElementError>)
    ensures
        match r {
            Ok(d) => element_grammar(ts@) == Ok::<ElementParts, ElementError>(element_parts(d)),
            Err(e) => element_grammar(ts@) == Err::<ElementParts, ElementError>(e),
        },
{
    let n = ts.len();
    if n == 0 {
        return Err(ElementError::ExpectedString);
    }
    let name = match &ts[0] {
        Tok::Literal(t) => match syn_lit_str_value(t.as_str()) {
            Some(v) => v,
            None => {
                return Err(ElementError::ExpectedString);
            },
        },
        _ => {
            return Err(ElementError::ExpectedString);
        },
    };
    if n < 2 || !punct_is(&ts[1], ',') {
        return Err(ElementError::ExpectedComma);
    }
    if n < 3 {
        return Err(ElementError::ExpectedBraces);
    }
    let inner = match &ts[2] {
        Tok::Group(Delim::Brace, inner) => inner,
        _ => {
            return Err(ElementError::ExpectedBraces);
        },
    };
    let props = match parse_props(inner) {
        Ok(p) => p,
        Err(e) => {
            return Err(e);
        },
    };
    let ghost r = ts@.subrange(3, n as int);
    if n == 3 {
        return Ok(CustomElementDef { name, props, render_fn: None });
    }
    if !punct_is(&ts[3], ',') {
        return Err(ElementError::UnexpectedToken);
    }
    if n == 4 {
        return Ok(CustomElementDef { name, props, render_fn: None });
    }
    let starts = match &ts[4] {
        Tok::Group(Delim::Paren, _) => true,
        Tok::Punct(c, _) => *c == '|',
        _ => false,
    };
    if !starts {
        return Err(ElementError::UnexpectedToken);
    }
    assert(r.subrange(1, r.len() as int) =~= ts@.subrange(4, n as int));
    match find_extent(ts, 4, false) {
        None => Err(ElementError::ExpectedExpression),
        Some(k) => {
            if k < n - 4 {
                Err(ElementError::UnexpectedToken)
            } else {
                let t = range_text(ts, 4, n);
                Ok(CustomElementDef { name, props, render_fn: Some(t) })
            }
        },
    }
}

} // verus!
