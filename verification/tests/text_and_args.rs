use quoin_macros_core::ast::{Arg, Element, Expr, F32Text, Form, Lit, RenderNode};
use quoin_macros_core::emit::common::{
    extract_tab_children, find_arg_bool, find_arg_expr, find_arg_f32, find_arg_string,
};
use quoin_macros_core::ident::is_valid_ident;
use quoin_macros_core::emit::render_leptos::{emit_render, ExtractIds};
use quoin_macros_core::text::{ident_fragment_of, push_decimal, str_eq};

fn code(c: &str) -> Expr {
    Expr {
        code: c.to_string(),
        form: Form::Other,
        moved: c.to_string(),
        captures: vec![],
        idents: vec![],
        bg_class: None,
        icon_svg: None,
        styles: None,
    }
}

fn lit(v: &str) -> Expr {
    let mut e = code(&format!("{:?}", v));
    e.form = Form::Lit(Lit::Str(v.to_string()));
    e
}

fn boolean(b: bool) -> Expr {
    let mut e = code(if b { "true" } else { "false" });
    e.form = Form::Lit(Lit::Bool(b));
    e
}

fn arg(k: &str, v: Expr) -> Arg {
    Arg { key: k.to_string(), value: v }
}

fn el(name: &str, args: Vec<Arg>, children: Vec<RenderNode>) -> Element {
    Element {
        name: name.to_string(),
        args,
        children,
        children_expr: None,
        trigger_expr: None,
        attrs: vec![],
        generated: None,
    }
}

/// The text of the string literal that a Leptos tooltip writes for `s`.
fn literal_in_tooltip(s: &str) -> String {
    let tip = RenderNode::Element(el("tooltip", vec![arg("text", lit(s))], vec![]));
    let out = emit_render(&tip, &mut ExtractIds { next: 0 });
    let head = "{ use leptos::prelude::*; leptos::view! { <span title={ ";
    assert!(out.starts_with(head));
    let rest = &out[head.len()..];
    let end = rest.find(" }>{ ").unwrap();
    let literal = rest[..end].to_string();
    assert_eq!(out, format!("{}{} }}>{{ {} }}</span> }} }}", head, literal, literal));
    literal
}

#[test]
fn string_literal_escapes_quotes_backslashes_and_controls() {
    assert_eq!(literal_in_tooltip("plain"), "\"plain\"");
    assert_eq!(literal_in_tooltip("a\"b"), "\"a\\\"b\"");
    assert_eq!(literal_in_tooltip("a\\b"), "\"a\\\\b\"");
    assert_eq!(literal_in_tooltip("a\nb\tc\r"), "\"a\\nb\\tc\\r\"");
    assert_eq!(literal_in_tooltip("\u{1}"), "\"\\u{1}\"");
    assert_eq!(literal_in_tooltip("it's"), "\"it's\"");
    assert_eq!(literal_in_tooltip(""), "\"\"");
}

#[test]
fn string_literal_nul_and_non_printable() {
    assert_eq!(literal_in_tooltip("a\0b"), "\"a\\0b\"");
    assert_eq!(literal_in_tooltip("\u{0}1"), "\"\\x001\"");
    assert_eq!(literal_in_tooltip("e\u{301}"), "\"e\\u{301}\"");
    assert_eq!(literal_in_tooltip("é ü"), "\"é ü\"");
}

#[test]
fn string_literal_matches_proc_macro2() {
    for s in ["plain", "a\"b", "a\\b", "line\nbreak", "tab\t", "\u{7f}", "é ü", "\0", "\u{0}7", "\u{200b}"] {
        assert_eq!(literal_in_tooltip(s), proc_macro2::Literal::string(s).to_string());
    }
}

#[test]
fn decimal_numbers() {
    let mut s = String::from("id_");
    push_decimal(&mut s, 0);
    assert_eq!(s, "id_0");
    let mut s = String::new();
    push_decimal(&mut s, 40213);
    assert_eq!(s, "40213");
}

#[test]
fn str_eq_compares_texts() {
    assert!(str_eq("tabs", "tabs"));
    assert!(!str_eq("tabs", "tab_bar"));
}

#[test]
fn identifiers_are_checked_like_proc_macro2() {
    assert!(is_valid_ident("foo"));
    assert!(is_valid_ident("_x1"));
    assert!(is_valid_ident("Counter"));
    assert!(is_valid_ident("é"));
    assert!(!is_valid_ident(""));
    assert!(!is_valid_ident("9a"));
    assert!(!is_valid_ident("123"));
    assert!(!is_valid_ident("a-b"));
    assert!(!is_valid_ident("r#x"));
}

#[test]
fn ident_fragment_drops_raw_prefix() {
    assert_eq!(ident_fragment_of("r#type"), "type");
    assert_eq!(ident_fragment_of("Counter"), "Counter");
    assert_eq!(ident_fragment_of("r"), "r");
}

#[test]
fn find_arg_expr_takes_the_first_match() {
    let e = el("div", vec![arg("class", lit("a")), arg("id", code("x")), arg("class", lit("b"))], vec![]);
    assert_eq!(find_arg_expr(&e, "class").unwrap().code, "\"a\"");
    assert_eq!(find_arg_expr(&e, "id").unwrap().code, "x");
    assert!(find_arg_expr(&e, "missing").is_none());
}

#[test]
fn find_arg_string_needs_a_string_literal() {
    let e = el("div", vec![arg("label", lit("Name")), arg("title", code("t"))], vec![]);
    assert_eq!(find_arg_string(&e, "label"), Some("Name".to_string()));
    assert_eq!(find_arg_string(&e, "title"), None);
    assert_eq!(find_arg_string(&e, "other"), None);
}

#[test]
fn find_arg_bool_looks_for_a_true_literal() {
    let e = el("button", vec![arg("primary", boolean(false)), arg("primary", boolean(true)), arg("ghost", code("g"))], vec![]);
    assert!(find_arg_bool(&e, "primary"));
    assert!(!find_arg_bool(&e, "ghost"));
    assert!(!find_arg_bool(&e, "destructive"));
}

#[test]
fn find_arg_f32_reads_numeric_literals() {
    let mut h = code("48");
    h.form = Form::Lit(Lit::Int(Some(F32Text { token: "48f32".to_string(), display: "48".to_string() })));
    let e = el("virtual_list", vec![arg("estimated_height", h), arg("width", lit("wide"))], vec![]);
    let v = find_arg_f32(&e, "estimated_height").unwrap();
    assert_eq!(v.token, "48f32");
    assert_eq!(v.display, "48");
    assert!(find_arg_f32(&e, "width").is_none());
}

#[test]
fn tab_children_need_index_and_label() {
    let tabs = el(
        "tabs",
        vec![],
        vec![
            RenderNode::Element(el("tab", vec![arg("index", code("0")), arg("label", lit("One"))], vec![])),
            RenderNode::Element(el("tab", vec![arg("index", code("1"))], vec![])),
            RenderNode::Text("\"x\"".to_string()),
            RenderNode::Element(el("tab", vec![arg("label", lit("Two")), arg("index", code("2"))], vec![])),
        ],
    );
    let defs = extract_tab_children(&tabs);
    assert_eq!(defs.len(), 2);
    assert_eq!(defs[0].index.code, "0");
    assert_eq!(defs[0].label, "One");
    assert_eq!(defs[1].index.code, "2");
    assert_eq!(defs[1].label, "Two");
}
