use quoin_macros_core::ast::{Arg, Element, Expr, F32Text, Form, Lit, RenderNode};
use quoin_macros_core::emit::render_leptos::{emit_render, ExtractIds};

fn toks(s: &str) -> String {
    s.parse::<proc_macro2::TokenStream>().unwrap().to_string()
}

fn code(c: &str) -> Expr {
    Expr {
        code: c.to_string(),
        form: Form::Other,
        moved: c.to_string(),
        captures: vec![],
        idents: vec![],
        bg_class: None,
        icon_svg: None,
        styles: None,
    }
}

fn lit(v: &str) -> Expr {
    let mut e = code(&format!("{:?}", v));
    e.form = Form::Lit(Lit::Str(v.to_string()));
    e
}

fn boolean(b: bool) -> Expr {
    let mut e = code(if b { "true" } else { "false" });
    e.form = Form::Lit(Lit::Bool(b));
    e
}

fn handler(c: &str, moved: &str, captures: &[&str]) -> Expr {
    let mut e = code(c);
    e.form = Form::Closure(vec![Some("x".to_string())]);
    e.moved = moved.to_string();
    e.captures = captures.iter().map(|s| s.to_string()).collect();
    e
}

fn arg(k: &str, v: Expr) -> Arg {
    Arg { key: k.to_string(), value: v }
}

fn el(name: &str, args: Vec<Arg>, children: Vec<RenderNode>) -> Element {
    Element {
        name: name.to_string(),
        args,
        children,
        children_expr: None,
        trigger_expr: None,
        attrs: vec![],
        generated: None,
    }
}

fn text(t: &str) -> RenderNode {
    RenderNode::Text(format!("{:?}", t))
}

fn render(e: Element) -> String {
    let mut ids = ExtractIds { next: 0 };
    toks(&emit_render(&RenderNode::Element(e), &mut ids))
}

fn view(bindings: &str, markup: &str) -> String {
    toks(&format!("{{ use leptos::prelude::*; {} leptos::view! {{ {} }} }}", bindings, markup))
}

#[test]
fn leptos_separator_tags() {
    assert_eq!(render(el("separator", vec![], vec![])), view("", "<hr />"));
    let vertical = el("separator", vec![arg("orientation", lit("vertical")), arg("class", lit("h-4"))], vec![]);
    assert_eq!(render(vertical), view("", "<div class=\"h-4\" />"));
}

#[test]
fn leptos_skeletons() {
    assert_eq!(render(el("skeleton", vec![], vec![])), view("", "<div class=\"animate-pulse rounded-md bg-muted\" />"));
    assert_eq!(
        render(el("skeleton_text", vec![arg("class", lit("w-1/2"))], vec![])),
        view("", "<div class=\"animate-pulse h-4 w-full rounded-md bg-muted w-1/2\" />")
    );
    assert_eq!(
        render(el("skeleton_avatar", vec![], vec![])),
        view("", "<div class=\"animate-pulse h-10 w-10 rounded-full bg-muted\" />")
    );
}

#[test]
fn leptos_progress_with_value_and_max() {
    let p = el("progress", vec![arg("value", code("done")), arg("max", code("total"))], vec![]);
    assert_eq!(
        render(p),
        view(
            "let __quoin_prog_val_0 = (done as f64) / (total as f64) * 100.0;",
            "<div class=\"relative h-4 w-full overflow-hidden rounded-full bg-secondary\"> <div class=\"h-full rounded-full bg-primary transition-all duration-300\" style={leptos::prelude::Signal::derive(move || format!(\"width: {}%\", __quoin_prog_val_0))} /> </div>"
        )
    );
}

#[test]
fn leptos_progress_without_value_is_indeterminate() {
    let p = el("progress", vec![arg("class", lit("mt-2"))], vec![]);
    assert_eq!(
        render(p),
        view(
            "",
            "<div class=\"relative h-4 w-full overflow-hidden rounded-full bg-secondary mt-2\"> <div class=\"h-full w-1/3 rounded-full bg-primary animate-indeterminate\" /> </div>"
        )
    );
}

#[test]
fn leptos_checkbox_binds_its_handler() {
    let cb = el(
        "checkbox",
        vec![arg("checked", code("on")), arg("on_change", handler("|x| f(x)", "move |x| f(x)", &["f"]))],
        vec![],
    );
    assert_eq!(
        render(cb),
        view(
            "let __quoin_cb_bind_0 = { let __handler = { let f = f.clone(); move |x| f(x) }; move |ev: leptos::ev::Event| { let checked = leptos::prelude::event_target_checked(&ev); __handler(checked); } };",
            "<input class=\"h-4 w-4 rounded border border-input ring-offset-background accent-primary-500 cursor-pointer\" r#type=\"checkbox\"# prop:checked={leptos::prelude::Signal::derive(move || on)} on:input=__quoin_cb_bind_0 />"
        )
    );
}

#[test]
fn leptos_radio_with_name_value_and_disabled() {
    let r = el(
        "radio",
        vec![arg("name", lit("size")), arg("value", lit("s")), arg("disabled", boolean(true))],
        vec![],
    );
    assert_eq!(
        render(r),
        view(
            "",
            "<input class=\"h-4 w-4 rounded-full border border-input ring-offset-background accent-primary-500 cursor-pointer\" r#type=\"radio\"# name=\"size\" value=\"s\" disabled=true />"
        )
    );
}

#[test]
fn leptos_slider_binds_its_input() {
    let s = el(
        "slider",
        vec![arg("value", code("v")), arg("min", code("0")), arg("max", code("10")), arg("on_input", handler("|x| set(x)", "move |x| set(x)", &[]))],
        vec![],
    );
    assert_eq!(
        render(s),
        view(
            "let __quoin_slider_bind_0 = { let __handler = { move |x| set(x) }; move |ev: leptos::ev::Event| { let val = leptos::prelude::event_target_value(&ev); __handler(val); } };",
            "<input class=\"w-full h-2 rounded-lg appearance-none cursor-pointer accent-primary-500 bg-transparent\" r#type=\"range\"# prop:value={leptos::prelude::Signal::derive(move || v)} min={0} max={10} on:input=__quoin_slider_bind_0 />"
        )
    );
}

#[test]
fn leptos_tooltip_with_and_without_trigger() {
    let plain = el("tooltip", vec![arg("text", lit("Hint"))], vec![]);
    assert_eq!(render(plain), view("", "<span title={\"Hint\"}>{\"Hint\"}</span>"));
    let mut with_trigger = el("tooltip", vec![arg("text", lit("Hint"))], vec![]);
    with_trigger.trigger_expr = Some(code("icon"));
    assert_eq!(
        render(with_trigger),
        view(
            "",
            "<div class=\"relative inline-block group\"> { {(icon).clone()} } <div class=\"absolute bottom-full left-1/2 -translate-x-1/2 mb-2 px-2 py-1 text-xs rounded bg-gray-800 text-white whitespace-nowrap shadow-lg z-50 hidden group-hover:block\"> {\"Hint\"} </div> </div>"
        )
    );
}

#[test]
fn leptos_radio_group_holds_children() {
    let g = el("radio_group", vec![], vec![text("a")]);
    assert_eq!(render(g), view("", "<div class=\"flex flex-col gap-2\"> \"a\" </div>"));
}

#[test]
fn leptos_badge_with_theme_color() {
    let mut color = code("Color::Red");
    color.bg_class = Some("bg-red-500".to_string());
    let b = el("badge", vec![arg("color", color)], vec![text("new")]);
    assert_eq!(
        render(b),
        view("", "<span class={concat!(\"inline-flex items-center px-1.5 rounded text-xs font-medium text-white \", \"bg-red-500\")}> \"new\" </span>")
    );
    let other = el("badge", vec![arg("color", code("c"))], vec![]);
    assert_eq!(
        render(other),
        view("", "<span class=\"inline-flex items-center px-1.5 rounded text-xs font-medium text-white\" style=format!(\"background-color: {}\", c)> </span>")
    );
}

#[test]
fn leptos_scroll_area_direction() {
    let s = el("scroll_area", vec![arg("direction", lit("horizontal")), arg("class", lit("h-40"))], vec![text("x")]);
    assert_eq!(render(s), view("", "<div class=format!(\"{} {}\", \"h-40\", \"overflow-x-auto\")> \"x\" </div>"));
    let d = el("scroll_area", vec![], vec![]);
    assert_eq!(render(d), view("", "<div class=\"overflow-y-auto\"> </div>"));
}

#[test]
fn leptos_virtual_list_height() {
    let mut h = code("48");
    h.form = Form::Lit(Lit::Int(Some(F32Text { token: "48f32".to_string(), display: "48".to_string() })));
    let v = el("virtual_list", vec![arg("estimated_height", h)], vec![text("row")]);
    assert_eq!(render(v), view("", "<div style=\"overflow-y: auto; height: 48px\"> \"row\" </div>"));
}

#[test]
fn leptos_clipboard_button_binds_copy_handler() {
    let c = el("clipboard_button", vec![arg("copy_text", code("url")), arg("class", lit("btn"))], vec![text("Copy")]);
    assert_eq!(
        render(c),
        view(
            "let __quoin_clip_0 = { let __ct: String = (url).to_string(); move |_: leptos::ev::MouseEvent| { quoin::clipboard_write_text(&__ct); } };",
            "<button class=\"btn\" on:click=__quoin_clip_0> \"Copy\" </button>"
        )
    );
}

#[test]
fn leptos_button_with_tooltip_and_click() {
    let b = el(
        "button",
        vec![arg("on_click", handler("|_| go()", "move |_| go()", &["go"])), arg("tooltip", lit("Go!"))],
        vec![text("Go")],
    );
    assert_eq!(
        render(b),
        view(
            "",
            "<div class=\"relative inline-block group\"> <button on:click={ let go = go.clone(); move |_| go() }> \"Go\" </button> <div class=\"absolute bottom-full left-1/2 -translate-x-1/2 mb-2 px-2 py-1 text-xs rounded bg-gray-800 text-white whitespace-nowrap shadow-lg z-50 hidden group-hover:block\"> {\"Go!\"} </div> </div>"
        )
    );
}

#[test]
fn leptos_input_binds_its_value() {
    let i = el("input", vec![arg("value", code("name")), arg("placeholder", lit("Name"))], vec![]);
    assert_eq!(
        render(i),
        view(
            "let __quoin_input_bind_0 = { let __signal = (name).clone(); move |ev: leptos::ev::Event| { __signal.set(leptos::prelude::event_target_value(&ev)); } };",
            "<input prop:value={ let __val = (name).clone(); move || __val.get() } placeholder=\"Name\" on:input=__quoin_input_bind_0 />"
        )
    );
}

#[test]
fn leptos_icon_known_and_unknown() {
    let mut name = lit("check");
    name.icon_svg = Some("<svg/>".to_string());
    let known = el("icon", vec![arg("icon_name", name)], vec![]);
    assert_eq!(render(known), view("", "<span class=\"w-4 h-4 inline-block\"> \"<svg/>\" </span>"));
    let unknown = el("icon", vec![arg("icon_name", lit("nope")), arg("class", lit("text-red"))], vec![]);
    assert_eq!(
        render(unknown),
        view("", "<span class=format!(\"{} w-4 h-4 inline-block\", \"text-red\")>\"\u{2753}\"</span>")
    );
}

#[test]
fn leptos_styled_text_plain_and_empty() {
    let plain = el("styled_text", vec![arg("text", code("msg"))], vec![]);
    assert_eq!(render(plain), view("", "<span>{msg}</span>"));
    let empty = el("styled_text", vec![], vec![]);
    assert_eq!(render(empty), view("", "<span></span>"));
}

#[test]
fn leptos_html_tag_mapping() {
    assert_eq!(render(el("text", vec![], vec![text("t")])), view("", "<p> \"t\" </p>"));
    assert_eq!(render(el("section", vec![], vec![])), view("", "<div></div>"));
    let mut with_children = el("ul", vec![], vec![]);
    with_children.children_expr = Some(code("items"));
    assert_eq!(
        render(with_children),
        view("", "<ul> {items.into_iter().map(|v| v.into_any()).collect::<Vec<_>>()} </ul>")
    );
}
