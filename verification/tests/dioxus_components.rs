use quoin_macros_core::ast::{Arg, Element, Expr, F32Text, ForNode, Form, IfNode, Lit, RenderNode};
use quoin_macros_core::emit::render_dioxus::{emit_render, emit_render_inner, is_renderable};

fn toks(s: &str) -> String {
    s.parse::<proc_macro2::TokenStream>().unwrap().to_string()
}

fn code(c: &str) -> Expr {
    Expr {
        code: c.to_string(),
        form: Form::Other,
        moved: c.to_string(),
        captures: vec![],
        idents: vec![],
        bg_class: None,
        icon_svg: None,
        styles: None,
    }
}

fn lit(v: &str) -> Expr {
    let mut e = code(&format!("{:?}", v));
    e.form = Form::Lit(Lit::Str(v.to_string()));
    e
}

fn boolean(b: bool) -> Expr {
    let mut e = code(if b { "true" } else { "false" });
    e.form = Form::Lit(Lit::Bool(b));
    e
}

fn handler(c: &str, moved: &str, captures: &[&str]) -> Expr {
    let mut e = code(c);
    e.form = Form::Closure(vec![None]);
    e.moved = moved.to_string();
    e.captures = captures.iter().map(|s| s.to_string()).collect();
    e
}

fn arg(k: &str, v: Expr) -> Arg {
    Arg { key: k.to_string(), value: v }
}

fn el(name: &str, args: Vec<Arg>, children: Vec<RenderNode>) -> Element {
    Element {
        name: name.to_string(),
        args,
        children,
        children_expr: None,
        trigger_expr: None,
        attrs: vec![],
        generated: None,
    }
}

fn text(t: &str) -> RenderNode {
    RenderNode::Text(format!("{:?}", t))
}

fn rsx(e: Element) -> String {
    toks(&emit_render_inner(&RenderNode::Element(e)))
}

#[test]
fn dioxus_render_wraps_in_rsx() {
    let out = emit_render(&text("hi"));
    assert_eq!(toks(&out), toks("{ use dioxus::prelude::*; dioxus::prelude::rsx! { \"hi\" } }"));
}

#[test]
fn dioxus_separator_and_skeletons() {
    assert_eq!(rsx(el("separator", vec![], vec![])), toks("hr { }"));
    assert_eq!(
        rsx(el("separator", vec![arg("orientation", lit("vertical")), arg("class", code("cls"))], vec![])),
        toks("div { class: {cls}, }")
    );
    assert_eq!(rsx(el("skeleton", vec![], vec![])), toks("div { class: \"animate-pulse rounded-md bg-muted\" }"));
    assert_eq!(rsx(el("skeleton_avatar", vec![arg("class", lit("h-6"))], vec![])), toks("div { class: \"h-6\" }"));
}

#[test]
fn dioxus_progress_keeps_its_width_template() {
    let p = el("progress", vec![arg("value", code("v"))], vec![]);
    assert_eq!(
        rsx(p),
        toks("div { class: \"relative h-4 w-full overflow-hidden rounded-full bg-secondary\", div { class: \"h-full rounded-full bg-primary transition-all duration-300\", style: \"width: {#max}%\" } }")
    );
}

#[test]
fn dioxus_checkbox_shows_checked_only_with_a_handler() {
    let without = el("checkbox", vec![arg("checked", code("on"))], vec![]);
    assert_eq!(
        rsx(without),
        toks("input { r#type: \"checkbox\", class: \"h-4 w-4 rounded border border-input ring-offset-background accent-primary-500 cursor-pointer\", }")
    );
    let with = el("checkbox", vec![arg("checked", code("on")), arg("on_change", handler("|e| f(e)", "move |e| f(e)", &["f"])), arg("disabled", boolean(true))], vec![]);
    assert_eq!(
        rsx(with),
        toks("input { r#type: \"checkbox\", class: \"h-4 w-4 rounded border border-input ring-offset-background accent-primary-500 cursor-pointer\", checked: on, onchange: { let f = f.clone(); move |e| f(e) }, disabled: true, }")
    );
}

#[test]
fn dioxus_switch() {
    let s = el("switch", vec![arg("checked", code("on"))], vec![]);
    assert_eq!(
        rsx(s),
        toks("button { class: \"relative inline-flex h-6 w-11 shrink-0 cursor-pointer items-center rounded-full border-2 border-transparent transition-colors bg-input\", role: \"switch\", onclick: move |_| {}, input { r#type: \"checkbox\", checked: on, , class: \"sr-only peer\" }, div { class: \"pointer-events-none block h-5 w-5 rounded-full bg-background shadow-lg ring-0 transition-transform translate-x-0\" } }")
    );
}

#[test]
fn dioxus_radio_and_slider() {
    let r = el("radio", vec![arg("name", lit("n")), arg("value", lit("a"))], vec![]);
    assert_eq!(
        rsx(r),
        toks("input { r#type: \"radio\", class: \"h-4 w-4 rounded-full border border-input accent-primary-500 cursor-pointer\", name: \"n\", value: \"a\" }")
    );
    let s = el("slider", vec![arg("min", code("0")), arg("max", code("9"))], vec![]);
    assert_eq!(
        rsx(s),
        toks("input { r#type: \"range\", class: \"w-full h-2 rounded-lg appearance-none cursor-pointer accent-primary-500 bg-transparent\", min: 0, max: 9, }")
    );
}

#[test]
fn dioxus_tooltip_without_trigger() {
    assert_eq!(rsx(el("tooltip", vec![arg("text", lit("Hi"))], vec![])), toks("span { title: \"Hi\" } {\"Hi\"}"));
}

#[test]
fn dioxus_badge_and_scroll_area() {
    let b = el("badge", vec![], vec![text("n")]);
    assert_eq!(rsx(b), toks("span { class: \"inline-flex items-center px-1.5 rounded text-xs font-medium bg-gray-600 text-white\", \"n\" }"));
    let s = el("scroll_area", vec![arg("class", lit("h-8")), arg("direction", lit("both"))], vec![]);
    assert_eq!(rsx(s), toks("div { class: format!(\"{} {}\", \"h-8\", \"overflow-auto\"), }"));
}

#[test]
fn dioxus_clipboard_button_defaults_its_label() {
    let c = el("clipboard_button", vec![arg("copy_text", code("link")), arg("class", lit("btn"))], vec![]);
    assert_eq!(
        rsx(c),
        toks("button { class: \"btn\", onclick: move |_| { quoin::clipboard_write_text(&(link).to_string()); }, \"Copy\" }")
    );
}

#[test]
fn dioxus_virtual_list_and_styled_text() {
    let mut h = code("20.5");
    h.form = Form::Lit(Lit::Float(Some(F32Text { token: "20.5f32".to_string(), display: "20.5".to_string() })));
    let v = el("virtual_list", vec![arg("estimated_height", h)], vec![text("r")]);
    assert_eq!(rsx(v), toks("div { style: \"overflow-y: auto; height: 20.5px\", \"r\" }"));
    assert_eq!(rsx(el("styled_text", vec![arg("text", code("t"))], vec![])), toks("span { t }"));
    assert_eq!(rsx(el("styled_text", vec![], vec![])), toks("span {}"));
}

#[test]
fn dioxus_icon_with_svg() {
    let mut n = lit("star");
    n.icon_svg = Some("<svg></svg>".to_string());
    assert_eq!(rsx(el("icon", vec![arg("icon_name", n)], vec![])), toks("span { class: \"w-4 h-4 inline-block\", \"<svg></svg>\" }"));
}

#[test]
fn dioxus_button_and_input_are_html() {
    let b = el("button", vec![arg("on_click", handler("|_| go()", "move |_| go()", &[]))], vec![text("Go")]);
    assert_eq!(rsx(b), toks("button { onclick: {{ move |_| go() }}, \"Go\" }"));
    let i = el("input", vec![arg("value", code("name"))], vec![]);
    assert_eq!(
        rsx(i),
        toks("input { value: {name.get()}, oninput: move |ev: dioxus::prelude::Event<dioxus::prelude::FormData>| { name.set(ev.value()); }, }")
    );
}

#[test]
fn dioxus_tabs() {
    let mut on_click = handler("|i| pick(i)", "move |i| pick(i)", &[]);
    on_click.form = Form::Closure(vec![Some("i".to_string())]);
    on_click.idents = vec!["i".to_string(), "pick".to_string()];
    let t = el(
        "tabs",
        vec![arg("active", code("cur")), arg("on_click", on_click)],
        vec![RenderNode::Element(el("tab", vec![arg("label", lit("A")), arg("index", code("0"))], vec![]))],
    );
    assert!(is_renderable(&RenderNode::Element(el("tabs", vec![arg("active", code("cur")), arg("on_click", code("f"))], vec![]))));
    assert_eq!(
        rsx(t),
        toks("div { class: \"flex\", div { class: if 0 == cur { \"px-4 py-2 cursor-pointer text-white\" } else { \"px-4 py-2 cursor-pointer text-gray-400\" }, onclick: { let i = 0; let pick = pick.clone(); let __tab_on_click = move |i| pick(i); move |_| { __tab_on_click(i) } }, {\"A\"} } }")
    );
}

#[test]
fn dioxus_data_table() {
    let t = el(
        "data_table",
        vec![arg("rows", code("rows"))],
        vec![RenderNode::Element(el("column", vec![arg("label", lit("Name")), arg("render", code("|r| r.name"))], vec![]))],
    );
    assert_eq!(
        rsx(t),
        toks("table { thead { tr { th { \"Name\" } } } tbody { for __row in rows { tr { td { { (|r| r.name)(&__row) } } } } } }")
    );
    let missing_label = el(
        "data_table",
        vec![arg("rows", code("rows"))],
        vec![RenderNode::Element(el("column", vec![arg("render", code("f"))], vec![]))],
    );
    assert!(!is_renderable(&RenderNode::Element(missing_label)));
}

#[test]
fn dioxus_dropdown_without_trigger() {
    assert_eq!(rsx(el("dropdown_menu", vec![], vec![])), toks("div { \"dropdown: missing trigger\" }"));
}

#[test]
fn dioxus_if_and_for() {
    let i = IfNode {
        condition: "a".to_string(),
        then_branch: vec![text("x")],
        else_branch: Some(vec![RenderNode::If(IfNode { condition: "b".to_string(), then_branch: vec![text("y")], else_branch: None, attrs: vec![] })]),
        attrs: vec![],
    };
    assert_eq!(toks(&emit_render_inner(&RenderNode::If(i))), toks("if a { \"x\" } else if b { \"y\" }"));
    let f = ForNode { pat: "x".to_string(), iterable: "xs".to_string(), body: vec![RenderNode::Expr(code("x"))], attrs: vec![] };
    assert_eq!(toks(&emit_render_inner(&RenderNode::For(f))), toks("for x in xs { {x} }"));
}
