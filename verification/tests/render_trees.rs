use quoin_macros_core::ast::{Arg, Attr, Element, Expr, F32Text, ForNode, Form, IfNode, Lit, RenderNode, Styles};
use quoin_macros_core::emit::cfg::wrap_with_cfg;
use quoin_macros_core::emit::render_dioxus;
use quoin_macros_core::emit::render_gpui;
use quoin_macros_core::emit::render_gpui::dropdown_menu::dropdown_menu_items;
use quoin_macros_core::emit::render_gpui::virtual_list::emit_virtual_list_item_render;
use quoin_macros_core::emit::render_leptos;
use quoin_macros_core::emit::render_leptos::{next_extract_id, ExtractIds};

fn toks(s: &str) -> String {
    s.parse::<proc_macro2::TokenStream>().unwrap().to_string()
}

fn code(c: &str) -> Expr {
    Expr {
        code: c.to_string(),
        form: Form::Other,
        moved: c.to_string(),
        captures: vec![],
        idents: vec![],
        bg_class: None,
        icon_svg: None,
        styles: None,
    }
}

fn lit(v: &str) -> Expr {
    let mut e = code(&format!("{:?}", v));
    e.form = Form::Lit(Lit::Str(v.to_string()));
    e
}

fn boolean(b: bool) -> Expr {
    let mut e = code(if b { "true" } else { "false" });
    e.form = Form::Lit(Lit::Bool(b));
    e
}

fn path(p: &str, last: &str) -> Expr {
    let mut e = code(p);
    e.form = Form::Path(Some(last.to_string()));
    e
}

fn handler(c: &str, moved: &str, captures: &[&str]) -> Expr {
    let mut e = code(c);
    e.form = Form::Closure(vec![]);
    e.moved = moved.to_string();
    e.captures = captures.iter().map(|s| s.to_string()).collect();
    e
}

fn arg(k: &str, v: Expr) -> Arg {
    Arg { key: k.to_string(), value: v }
}

fn el(name: &str, args: Vec<Arg>, children: Vec<RenderNode>) -> Element {
    Element {
        name: name.to_string(),
        args,
        children,
        children_expr: None,
        trigger_expr: None,
        attrs: vec![],
        generated: None,
    }
}

fn node(e: Element) -> RenderNode {
    RenderNode::Element(e)
}

fn text(t: &str) -> RenderNode {
    RenderNode::Text(format!("{:?}", t))
}

fn cfg_attr(c: &str) -> Attr {
    Attr { is_cfg: true, code: c.to_string() }
}

// ---------------------------------------------------------------- GPUI

#[test]
fn gpui_text_is_itself() {
    assert_eq!(render_gpui::emit_render(&text("hi")), "\"hi\"");
}

#[test]
fn gpui_div_with_tailwind_styles() {
    let mut class = lit("flex p-2 hover:bg-red");
    class.styles = Some(Styles {
        normal: vec![".flex()".to_string(), ".p_2()".to_string()],
        hover: vec![".bg(red)".to_string()],
    });
    let tree = node(el("div", vec![arg("class", class)], vec![text("hi")]));
    assert!(render_gpui::is_renderable(&tree));
    let out = render_gpui::emit_render(&tree);
    assert_eq!(toks(&out), toks(r#"::gpui::div() .flex() .p_2() .hover(|__s| __s .bg(red)) .child("hi")"#));
}

#[test]
fn gpui_class_that_is_not_a_literal_adds_no_styles() {
    let mut class = code("my_class");
    class.styles = Some(Styles { normal: vec![".flex()".to_string()], hover: vec![] });
    assert!(render_gpui::try_transpile_class(&class).is_none());
    let tree = node(el("h1", vec![arg("class", class)], vec![]));
    let out = render_gpui::emit_render(&tree);
    assert_eq!(toks(&out), toks("::gpui::div().text_xl().font_weight(::gpui::FontWeight::BOLD)"));
}

#[test]
fn gpui_primary_button_with_click_handler() {
    let h = handler("|_| count.set(1)", "move |_| count.set(1)", &["count"]);
    let tree = node(el("button", vec![arg("primary", boolean(true)), arg("on_click", h)], vec![text("Go")]));
    let out = render_gpui::emit_render(&tree);
    let expected = r#"::gpui::div().cursor_pointer().rounded(::gpui::px(6.0)).px(::gpui::px(8.0)).py(::gpui::px(8.0))
        .flex().items_center().justify_center().text_color(::gpui::white())
        .bg(::gpui::rgb(0x2563eb)).child("Go")
        .on_mouse_down(::gpui::MouseButton::Left, { let count = count.clone(); let __handler = ::std::rc::Rc::new(move |_| count.set(1)); move |_, _, _| { __handler(()) } })"#;
    assert_eq!(toks(&out), toks(expected));
}

#[test]
fn gpui_ghost_button_has_no_background() {
    let tree = node(el("button", vec![arg("ghost", boolean(true))], vec![]));
    let out = render_gpui::emit_render(&tree);
    let expected = "::gpui::div().cursor_pointer().rounded(::gpui::px(6.0)).px(::gpui::px(8.0)).py(::gpui::px(8.0)).flex().items_center().justify_center().text_color(::gpui::white())";
    assert_eq!(toks(&out), toks(expected));
}

#[test]
fn gpui_if_else_if_chain() {
    let inner = IfNode {
        condition: "b".to_string(),
        then_branch: vec![text("two")],
        else_branch: Some(vec![text("three")]),
        attrs: vec![],
    };
    let outer = IfNode {
        condition: "a".to_string(),
        then_branch: vec![text("one")],
        else_branch: Some(vec![RenderNode::If(inner)]),
        attrs: vec![],
    };
    let out = render_gpui::emit_render(&RenderNode::If(outer));
    let expected = r#"{ if a { ::gpui::div().children(vec![ "one" ]) } else { { if b { ::gpui::div().children(vec![ "two" ]) } else { ::gpui::div().children(vec![ "three" ]) } } } }"#;
    assert_eq!(toks(&out), toks(expected));
}

#[test]
fn gpui_for_maps_the_body_over_the_iterable() {
    let f = ForNode {
        pat: "item".to_string(),
        iterable: "items".to_string(),
        body: vec![RenderNode::Expr(code("item.name.clone()")), text("!")],
        attrs: vec![],
    };
    let out = render_gpui::emit_render(&RenderNode::For(f));
    let expected = r#"{ ::gpui::div().children( items.into_iter().map(|item| { ::gpui::div().children(vec![ item.name.clone(), "!" ]) }).collect::<Vec<_>>() ) }"#;
    assert_eq!(toks(&out), toks(expected));
}

#[test]
fn gpui_cfg_of_an_element_is_carried_twice() {
    let mut e = el("div", vec![], vec![]);
    e.attrs = vec![cfg_attr("#[cfg(feature = \"x\")]"), Attr { is_cfg: false, code: "#[allow(unused)]".to_string() }];
    let out = render_gpui::emit_render(&node(e));
    let expected = r#"{ #[cfg(feature = "x")] { { #[cfg(feature = "x")] { ::gpui::div() } } } }"#;
    assert_eq!(toks(&out), toks(expected));
}

fn tabs_element(name: &str) -> Element {
    let on_click = handler("|i| select(i)", "move |i| select(i)", &[]);
    el(
        name,
        vec![arg("active", code("current")), arg("on_click", on_click)],
        vec![
            node(el("tab", vec![arg("index", code("0")), arg("label", lit("One"))], vec![])),
            node(el("tab", vec![arg("index", code("1"))], vec![])),
        ],
    )
}

#[test]
fn gpui_tabs_list_their_labels() {
    let tree = node(tabs_element("tabs"));
    assert!(render_gpui::is_renderable(&tree));
    let out = render_gpui::emit_render(&tree);
    let expected = r#"{
        let __active = current;
        let __on_click = ::std::rc::Rc::new(move |i| select(i));
        let __labels: Vec<(usize, String)> = vec![(0, "One".to_string()), (1, "".to_string())];
        let __tab_elements: Vec<::gpui::AnyElement> = __labels.iter().map(|(idx, label)| {
            let __is_active = *idx == __active;
            let mut __el = ::gpui::div().px(::gpui::px(16.0)).py(::gpui::px(8.0)).cursor_pointer().child(label.clone());
            if __is_active { __el = __el.text_color(::gpui::white()); }
            else { __el = __el.text_color(::gpui::rgb(0x9ca3af)); }
            let __idx = *idx;
            let __tab_on_click = __on_click.clone();
            __el.on_mouse_down(::gpui::MouseButton::Left, move |_, _, _| { __tab_on_click(__idx) }).into_any_element()
        }).collect();
        ::gpui::div().flex().children(__tab_elements)
    }"#;
    assert_eq!(toks(&out), toks(expected));
}

#[test]
fn gpui_tab_bar_is_tabs() {
    let a = render_gpui::emit_render(&node(tabs_element("tab_bar")));
    let b = render_gpui::emit_render(&node(tabs_element("tabs")));
    assert_eq!(a, b);
}

#[test]
fn gpui_tabs_need_active_on_click_and_indices() {
    let mut missing_index = tabs_element("tabs");
    missing_index.children.push(node(el("tab", vec![arg("label", lit("Three"))], vec![])));
    assert!(!render_gpui::is_renderable(&node(missing_index)));
    let no_active = el("tabs", vec![arg("on_click", code("f"))], vec![]);
    assert!(!render_gpui::is_renderable(&node(no_active)));
    let nested = el("div", vec![], vec![node(el("tab_bar", vec![], vec![]))]);
    assert!(!render_gpui::is_renderable(&node(nested)));
}

#[test]
fn gpui_data_table_with_sortable_column() {
    let mut width = code("80");
    width.form = Form::Lit(Lit::Int(Some(F32Text { token: "80f32".to_string(), display: "80".to_string() })));
    let sort = handler("|k, d| sort_by(k, d)", "move |k, d| sort_by(k, d)", &[]);
    let table = el(
        "data_table",
        vec![arg("rows", code("rows")), arg("on_sort", sort), arg("striped", boolean(true))],
        vec![
            node(el(
                "column",
                vec![arg("label", lit("Name")), arg("key", lit("name")), arg("sortable", boolean(true)), arg("width", width), arg("render", code("|r| r.name.clone()"))],
                vec![],
            )),
            node(el("column", vec![arg("render", code("|r| r.age"))], vec![])),
        ],
    );
    let tree = node(table);
    assert!(render_gpui::is_renderable(&tree));
    let out = render_gpui::emit_render(&tree);
    let expected = r#"{
        let __rows = rows;
        let __header = ::gpui::div().flex().children(vec![
            ::gpui::div().px(::gpui::px(12.0)).py(::gpui::px(8.0)).text_color(::gpui::rgb(0x6b7280)).font_weight(::gpui::FontWeight::MEDIUM).child("Name".to_string())
                .w(::gpui::px(80f32))
                .cursor_pointer().hover(|s| s.bg(::gpui::rgb(0x374151)))
                .on_mouse_down(::gpui::MouseButton::Left, {
                    let __handler = ::std::rc::Rc::new({ let __handler = ::std::rc::Rc::new(move |k, d| sort_by(k, d)); move |_, _, _| { __handler(()) } });
                    move |_, _, _| { __handler("name", "asc"); }
                })
                .into_any_element(),
            ::gpui::div().px(::gpui::px(12.0)).py(::gpui::px(8.0)).text_color(::gpui::rgb(0x6b7280)).font_weight(::gpui::FontWeight::MEDIUM).child("".to_string()).into_any_element()
        ]);
        let __row_elements: Vec<::gpui::AnyElement> = __rows.iter().enumerate().map(|(__i, __row)| {
            let mut __row_el = ::gpui::div().flex().children(vec![
                ::gpui::div().px(::gpui::px(12.0)).py(::gpui::px(8.0)).text_color(::gpui::rgb(0xffffff)).child((|r| r.name.clone())(&__row)).w(::gpui::px(80f32)).into_any_element(),
                ::gpui::div().px(::gpui::px(12.0)).py(::gpui::px(8.0)).text_color(::gpui::rgb(0xffffff)).child((|r| r.age)(&__row)).into_any_element()
            ]);
            if __i % 2 == 1 { __row_el = __row_el.bg(::gpui::rgb(0x1a1a2e)); }
            __row_el.into_any_element()
        }).collect::<Vec<_>>();
        ::gpui::div().flex_col().gap_1().size_full().child(__header).children(__row_elements)
    }"#;
    assert_eq!(toks(&out), toks(expected));
}

#[test]
fn gpui_data_table_needs_rows_and_renders() {
    let no_rows = el("data_table", vec![], vec![]);
    assert!(!render_gpui::is_renderable(&node(no_rows)));
    let no_render = el("data_table", vec![arg("rows", code("r"))], vec![node(el("column", vec![arg("label", lit("A"))], vec![]))]);
    assert!(!render_gpui::is_renderable(&node(no_render)));
}

#[test]
fn gpui_input_bound_to_a_signal() {
    let tree = node(el("input", vec![arg("value", path("self.name", "name")), arg("placeholder", lit("Your name"))], vec![]));
    let out = render_gpui::emit_render(&tree);
    let expected = r#"{
        let __input_id: &str = "__quoin_input_name";
        if !self._quoin_inputs.contains(__input_id) {
            let __initial_val: String = self.name.get();
            let __entity = cx.new::<quoin::InputState>(|cx| {
                let mut __state = quoin::InputState::new(window, cx);
                __state.set_placeholder("Your name", window, cx);
                __state.set_value(__initial_val, window, cx);
                __state
            });
            let __sub = cx.observe(&__entity, |this, __entity, cx| {
                let __new_val: String = __entity.read(cx).value().to_string();
                this.name.set(__new_val);
            });
            self._quoin_inputs.insert(__input_id.to_string(), __entity, __sub);
        } else {
            let __entity = self._quoin_inputs.get(__input_id).unwrap();
            let __current: String = __entity.read(cx).value().to_string();
            let __desired: String = self.name.get();
            if __current != __desired {
                __entity.update(cx, |__state, cx| { __state.set_value(__desired, window, cx); });
            }
        }
        let __entity = self._quoin_inputs.get(__input_id).unwrap().clone();
        quoin::Input::new(&__entity)
    }"#;
    assert_eq!(toks(&out), toks(expected));
}

#[test]
fn gpui_input_without_value_shows_placeholder() {
    let tree = node(el("input", vec![arg("placeholder", lit("Search"))], vec![]));
    let out = render_gpui::emit_render(&tree);
    let expected = r#"::gpui::div().rounded(::gpui::px(6.0)).px(::gpui::px(12.0)).py(::gpui::px(8.0))
        .bg(::gpui::rgb(0x1f2937)).border_1().border_color(::gpui::rgb(0x374151))
        .text_color(::gpui::rgb(0x9ca3af)).child("Search")"#;
    assert_eq!(toks(&out), toks(expected));
}

#[test]
fn gpui_clipboard_and_dropdown_without_required_parts() {
    let clip = render_gpui::emit_render(&node(el("clipboard_button", vec![], vec![text("ignored")])));
    assert_eq!(toks(&clip), toks(r#"::gpui::div().child("clipboard_button: missing copy_text")"#));
    let dd = render_gpui::emit_render(&node(el("dropdown_menu", vec![], vec![])));
    assert_eq!(toks(&dd), toks(r#"::gpui::div().child("dropdown: missing trigger")"#));
}

#[test]
fn gpui_clipboard_button_writes_copy_text() {
    let out = render_gpui::emit_render(&node(el("clipboard_button", vec![arg("copy_text", code("link"))], vec![text("Copy")])));
    let expected = r#"::gpui::div().cursor_pointer().rounded(::gpui::px(6.0)).px(::gpui::px(8.0)).py(::gpui::px(8.0))
        .flex().items_center().justify_center().text_color(::gpui::white()).bg(::gpui::rgb(0x4e4e4e))
        .child("Copy")
        .on_mouse_down(::gpui::MouseButton::Left, move |_, _, cx| {
            cx.write_to_clipboard(::gpui::ClipboardItem::new_string(link.to_string()));
        })"#;
    assert_eq!(toks(&out), toks(expected));
}

fn menu(generated: Option<&str>) -> Element {
    let mut dd = el(
        "dropdown_menu",
        vec![],
        vec![
            node(el("item", vec![arg("label", lit("Open")), arg("on_click", code("open"))], vec![])),
            node(el("item", vec![arg("label", lit("Broken"))], vec![])),
            node(el("separator", vec![], vec![])),
        ],
    );
    dd.trigger_expr = Some(code("\"Menu\""));
    dd.generated = generated.map(|g| g.to_string());
    dd
}

#[test]
fn gpui_generated_components_and_their_inputs() {
    let items = dropdown_menu_items(&menu(None));
    assert_eq!(items.len(), 1);
    assert_eq!(items[0].label, "\"Open\"");
    assert_eq!(items[0].on_click, "open");
    assert_eq!(render_gpui::emit_render(&node(menu(None))), "");
    assert_eq!(render_gpui::emit_render(&node(menu(Some("generated_menu()")))), "generated_menu()");

    let mut list = el("virtual_list", vec![arg("items", code("rows"))], vec![text("row")]);
    assert_eq!(toks(&emit_virtual_list_item_render(&list)), toks(r#"::gpui::div().children(vec!["row"]).into_any_element()"#));
    list.generated = Some("generated_list()".to_string());
    assert_eq!(render_gpui::emit_render(&node(list)), "generated_list()");
    assert!(!render_gpui::is_renderable(&node(el("virtual_list", vec![], vec![]))));
}

// ---------------------------------------------------------------- Leptos

#[test]
fn leptos_div_with_class_and_text() {
    let tree = node(el("div", vec![arg("class", lit("p-2"))], vec![text("hi")]));
    let mut ids = ExtractIds { next: 0 };
    assert!(render_leptos::is_renderable(&tree));
    let out = render_leptos::emit_render(&tree, &mut ids);
    assert_eq!(toks(&out), toks(r#"{ use leptos::prelude::*; leptos::view! { <div class="p-2">"hi"</div> } }"#));
    assert_eq!(ids.next, 0);
}

#[test]
fn leptos_for_binds_a_clone_of_the_iterable() {
    let f = ForNode {
        pat: "item".to_string(),
        iterable: "items".to_string(),
        body: vec![text("x")],
        attrs: vec![],
    };
    let mut ids = ExtractIds { next: 7 };
    let out = render_leptos::emit_render(&RenderNode::For(f), &mut ids);
    let expected = r#"{ use leptos::prelude::*;
        let __quoin_for_iter_7 = (items).clone();
        leptos::view! { { __quoin_for_iter_7.clone().into_iter().map(|item| { leptos::view! { "x" } }).collect::<Vec<_>>() } } }"#;
    assert_eq!(toks(&out), toks(expected));
    assert_eq!(ids.next, 8);
}

#[test]
fn leptos_if_without_else_is_a_then() {
    let i = IfNode { condition: "show".to_string(), then_branch: vec![text("yes")], else_branch: None, attrs: vec![] };
    let mut ids = ExtractIds { next: 0 };
    let out = render_leptos::emit_render(&RenderNode::If(i), &mut ids);
    let expected = r#"{ use leptos::prelude::*; leptos::view! { move || { use leptos::prelude::*; (show).then(|| { leptos::view! { "yes" } }.into_any()) } } }"#;
    assert_eq!(toks(&out), toks(expected));
}

#[test]
fn leptos_tabs_need_active_and_on_click() {
    let t = el("tabs", vec![arg("active", code("a"))], vec![]);
    assert!(!render_leptos::is_renderable(&node(t)));
    let ok = el("tabs", vec![arg("active", code("a")), arg("on_click", code("f"))], vec![]);
    assert!(render_leptos::is_renderable(&node(ok)));
    let hidden = el("separator", vec![], vec![node(el("tabs", vec![], vec![]))]);
    assert!(render_leptos::is_renderable(&node(hidden)));
}

#[test]
fn leptos_ids_are_taken_in_turn() {
    let mut ids = ExtractIds { next: 3 };
    assert_eq!(next_extract_id(&mut ids), 3);
    assert_eq!(next_extract_id(&mut ids), 4);
    assert_eq!(ids.next, 5);
    let mut last = ExtractIds { next: usize::MAX };
    assert_eq!(next_extract_id(&mut last), usize::MAX);
    assert_eq!(last.next, 0);
}

#[test]
fn leptos_nodes_compose() {
    let a = vec![node(el("clipboard_button", vec![arg("copy_text", code("t1"))], vec![]))];
    let b = vec![node(el("clipboard_button", vec![arg("copy_text", code("t2"))], vec![])), text("z")];
    let mut both = vec![node(el("clipboard_button", vec![arg("copy_text", code("t1"))], vec![]))];
    both.push(node(el("clipboard_button", vec![arg("copy_text", code("t2"))], vec![])));
    both.push(text("z"));

    let mut ids = ExtractIds { next: 0 };
    let mut binds = String::new();
    let whole = render_leptos::emit_nodes(&both, &mut binds, false, &mut ids, false);

    let mut ids2 = ExtractIds { next: 0 };
    let mut binds2 = String::new();
    let first = render_leptos::emit_nodes(&a, &mut binds2, false, &mut ids2, false);
    let second = render_leptos::emit_nodes(&b, &mut binds2, false, &mut ids2, false);
    assert_eq!(whole, format!("{}{}", first, second));
    assert_eq!(binds, binds2);
    assert_eq!(ids.next, ids2.next);
    assert_eq!(ids.next, 2);
    assert!(binds.contains("__quoin_clip_0") && binds.contains("__quoin_clip_1"));
}

// ---------------------------------------------------------------- Dioxus

#[test]
fn dioxus_div_with_class_and_text() {
    let tree = node(el("div", vec![arg("class", lit("p-2"))], vec![text("hi")]));
    assert!(render_dioxus::is_renderable(&tree));
    let out = render_dioxus::emit_render(&tree);
    assert_eq!(toks(&out), toks(r#"{ use dioxus::prelude::*; dioxus::prelude::rsx! { div { class: "p-2", "hi" } } }"#));
}

#[test]
fn dioxus_tab_bar_is_tabs() {
    let a = render_dioxus::emit_render(&node(tabs_element("tab_bar")));
    let b = render_dioxus::emit_render(&node(tabs_element("tabs")));
    assert_eq!(a, b);
}

#[test]
fn dioxus_data_table_needs_rows() {
    let t = el("data_table", vec![], vec![]);
    assert!(!render_dioxus::is_renderable(&node(t)));
}

// ---------------------------------------------------------------- laws

#[test]
fn cfg_free_attributes_leave_code_unchanged() {
    let attrs = vec![Attr { is_cfg: false, code: "#[allow(unused)]".to_string() }];
    assert_eq!(wrap_with_cfg(&attrs, "x".to_string()), "x");
    let with_cfg = vec![cfg_attr("#[cfg(test)]")];
    assert_eq!(toks(&wrap_with_cfg(&with_cfg, "x".to_string())), toks("{ #[cfg(test)] { x } }"));
}

#[test]
fn plain_trees_render_everywhere() {
    let tree = node(el(
        "div",
        vec![arg("class", lit("p-2"))],
        vec![
            node(el("button", vec![arg("on_click", code("f"))], vec![text("Go")])),
            RenderNode::If(IfNode { condition: "c".to_string(), then_branch: vec![text("a")], else_branch: Some(vec![text("b")]), attrs: vec![] }),
            RenderNode::For(ForNode { pat: "x".to_string(), iterable: "xs".to_string(), body: vec![RenderNode::Expr(code("x"))], attrs: vec![] }),
        ],
    ));
    assert!(render_gpui::is_renderable(&tree));
    assert!(render_leptos::is_renderable(&tree));
    assert!(render_dioxus::is_renderable(&tree));
}

#[test]
fn text_is_itself_everywhere() {
    let t = text("same");
    assert_eq!(render_gpui::emit_render(&t), "\"same\"");
    let mut ids = ExtractIds { next: 0 };
    let mut binds = String::new();
    assert_eq!(render_leptos::emit_node(&t, &mut binds, false, &mut ids, false), "\"same\"");
    assert_eq!(binds, "");
    assert_eq!(render_dioxus::emit_render_inner(&t), "\"same\"");
}

#[test]
fn ids_from_one_counter_count_up() {
    let mut ids = ExtractIds { next: 10 };
    let taken: Vec<usize> = (0..5).map(|_| next_extract_id(&mut ids)).collect();
    assert_eq!(taken, vec![10, 11, 12, 13, 14]);
    for i in 0..taken.len() {
        for j in (i + 1)..taken.len() {
            assert!(taken[i] < taken[j]);
        }
    }
    let mut top = ExtractIds { next: usize::MAX - 1 };
    assert_eq!(next_extract_id(&mut top), usize::MAX - 1);
    assert_eq!(next_extract_id(&mut top), usize::MAX);
    assert_eq!(next_extract_id(&mut top), 0);
}
