use proc_macro2::{Delimiter, Spacing, TokenStream, TokenTree};
use quoin_macros_core::custom_element::{parse_custom_element, ElementError};
use quoin_macros_core::effect::{parse_effect, EffectError};
use quoin_macros_core::tokens::{Delim, Tok};

fn toks_of(ts: TokenStream) -> Vec<Tok> {
    ts.into_iter()
        .map(|tt| match tt {
            TokenTree::Ident(i) => Tok::Ident(i.to_string()),
            TokenTree::Punct(p) => Tok::Punct(p.as_char(), p.spacing() == Spacing::Joint),
            TokenTree::Literal(l) => Tok::Literal(l.to_string()),
            TokenTree::Group(g) => Tok::Group(
                match g.delimiter() {
                    Delimiter::Parenthesis => Delim::Paren,
                    Delimiter::Brace => Delim::Brace,
                    Delimiter::Bracket => Delim::Bracket,
                    Delimiter::None => Delim::Invisible,
                },
                toks_of(g.stream()),
            ),
        })
        .collect()
}

fn toks(s: &str) -> Vec<Tok> {
    toks_of(s.parse().unwrap())
}

fn norm(s: &str) -> String {
    s.parse::<TokenStream>().unwrap().to_string()
}

fn effect_err(s: &str) -> EffectError {
    match parse_effect(&toks(s)) {
        Ok(_) => panic!("accepted {}", s),
        Err(e) => e,
    }
}

fn element_err(s: &str) -> ElementError {
    match parse_custom_element(&toks(s)) {
        Ok(_) => panic!("accepted {}", s),
        Err(e) => e,
    }
}

#[test]
fn effect_legacy_form() {
    let e = parse_effect(&toks("watch: [a, b], || println!(\"x\")")).ok().unwrap();
    assert_eq!(e.deps, vec!["a".to_string(), "b".to_string()]);
    assert_eq!(norm(&e.body), norm("|| println!(\"x\")"));
    assert!(e.cleanup.is_none());
}

#[test]
fn effect_structured_form() {
    let e = parse_effect(&toks("deps: [count], run: move || count.get(), cleanup: || drop(x)")).ok().unwrap();
    assert_eq!(e.deps, vec!["count".to_string()]);
    assert_eq!(norm(&e.body), norm("move || count.get()"));
    assert_eq!(norm(&e.cleanup.unwrap()), norm("|| drop(x)"));
    let f = parse_effect(&toks("deps: [a b,], run: |x, y| x + y")).ok().unwrap();
    assert_eq!(f.deps, vec!["a".to_string(), "b".to_string()]);
    assert_eq!(norm(&f.body), norm("|x, y| x + y"));
    assert!(f.cleanup.is_none());
    let g = parse_effect(&toks("deps: [], run: |m: HashMap<u8, u8>| m.len()")).ok().unwrap();
    assert!(g.deps.is_empty());
    assert_eq!(norm(&g.body), norm("|m: HashMap<u8, u8>| m.len()"));
}

#[test]
fn effect_errors() {
    assert!(effect_err("foo: [a], x") == EffectError::ExpectedWatchOrDeps);
    assert!(effect_err("fn: [a], x") == EffectError::ExpectedIdent);
    assert!(effect_err("") == EffectError::ExpectedIdent);
    assert!(effect_err("watch [a], x") == EffectError::ExpectedColon);
    assert!(effect_err("watch: (a), x") == EffectError::ExpectedBrackets);
    assert!(effect_err("watch: [a] x") == EffectError::ExpectedComma);
    assert!(effect_err("watch: [1], x") == EffectError::ExpectedIdent);
    assert!(effect_err("watch: [self], x") == EffectError::ExpectedIdent);
    assert!(effect_err("deps: [a], run: x, teardown: y") == EffectError::ExpectedCleanup);
    assert!(effect_err("deps: [a], run: x, cleanup y") == EffectError::ExpectedColon);
    assert!(effect_err("deps: [a], run: x, cleanup: y, z") == EffectError::UnexpectedToken);
    assert!(effect_err("deps: [a], x, y") == EffectError::UnexpectedToken);
    assert!(effect_err("deps: [a],") == EffectError::ExpectedExpression);
    assert!(effect_err("deps: [a], run x") == EffectError::ExpectedColon);
    assert_eq!(EffectError::ExpectedCleanup.message(), "expected `cleanup`");
}

#[test]
fn element_grammar_reads_props_and_closure() {
    let d = parse_custom_element(&toks(
        "\"my_badge\", { label: String, count: HashMap<String, u32>, }, |p| quoin_render! { div {} }",
    ))
    .ok()
    .unwrap();
    assert_eq!(d.name, "my_badge");
    assert_eq!(d.props.len(), 2);
    assert_eq!(d.props[0].name, "label");
    assert_eq!(norm(&d.props[0].ty), norm("String"));
    assert_eq!(d.props[1].name, "count");
    assert_eq!(norm(&d.props[1].ty), norm("HashMap<String, u32>"));
    assert_eq!(norm(&d.render_fn.unwrap()), norm("|p| quoin_render! { div {} }"));
    let e = parse_custom_element(&toks("\"a\\u{62}\", {}")).ok().unwrap();
    assert_eq!(e.name, "ab");
    assert!(e.props.is_empty() && e.render_fn.is_none());
    let f = parse_custom_element(&toks("\"x\", { a: u8 },")).ok().unwrap();
    assert!(f.render_fn.is_none());
    let g = parse_custom_element(&toks("\"x\", {}, (|p| p)")).ok().unwrap();
    assert_eq!(norm(&g.render_fn.unwrap()), norm("(|p| p)"));
}

#[test]
fn element_errors() {
    assert!(element_err("x, {}") == ElementError::ExpectedString);
    assert!(element_err("1, {}") == ElementError::ExpectedString);
    assert!(element_err("\"x\" {}") == ElementError::ExpectedComma);
    assert!(element_err("\"x\", [a]") == ElementError::ExpectedBraces);
    assert!(element_err("\"x\", { a u32 }") == ElementError::ExpectedColon);
    assert!(element_err("\"x\", { fn: u32 }") == ElementError::ExpectedIdent);
    assert!(element_err("\"x\", { a: }") == ElementError::ExpectedType);
    assert!(element_err("\"x\", {}, foo") == ElementError::UnexpectedToken);
    assert!(element_err("\"x\", {} foo") == ElementError::UnexpectedToken);
    assert!(element_err("\"x\", {}, |p| p p") == ElementError::ExpectedExpression);
    assert_eq!(ElementError::ExpectedBraces.message(), "expected curly braces");
}
