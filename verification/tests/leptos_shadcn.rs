use quoin_macros_core::ast::{Arg, Element, Expr, Form, Lit, RenderNode};
use quoin_macros_core::emit::render_leptos::{emit_view, renderable, ExtractIds};
use quoin_macros_core::emit::{Emitter, Framework, FrameworkEmitter};

fn toks(s: &str) -> String {
    s.parse::<proc_macro2::TokenStream>().unwrap().to_string()
}

fn code(c: &str) -> Expr {
    Expr {
        code: c.to_string(),
        form: Form::Other,
        moved: c.to_string(),
        captures: vec![],
        idents: vec![],
        bg_class: None,
        icon_svg: None,
        styles: None,
    }
}

fn lit(v: &str) -> Expr {
    let mut e = code(&format!("{:?}", v));
    e.form = Form::Lit(Lit::Str(v.to_string()));
    e
}

fn boolean(b: bool) -> Expr {
    let mut e = code(if b { "true" } else { "false" });
    e.form = Form::Lit(Lit::Bool(b));
    e
}

fn handler(c: &str) -> Expr {
    let mut e = code(c);
    e.form = Form::Closure(vec![Some("x".to_string())]);
    e
}

fn arg(k: &str, v: Expr) -> Arg {
    Arg { key: k.to_string(), value: v }
}

fn el(name: &str, args: Vec<Arg>, children: Vec<RenderNode>) -> Element {
    Element {
        name: name.to_string(),
        args,
        children,
        children_expr: None,
        trigger_expr: None,
        attrs: vec![],
        generated: None,
    }
}

fn text(t: &str) -> RenderNode {
    RenderNode::Text(format!("{:?}", t))
}

fn render(e: Element) -> String {
    let mut ids = ExtractIds { next: 0 };
    toks(&emit_view(&RenderNode::Element(e), &mut ids, true))
}

fn view(bindings: &str, markup: &str) -> String {
    toks(&format!("{{ use leptos::prelude::*; {} leptos::view! {{ {} }} }}", bindings, markup))
}

fn import(alias: &str, comp: &str) -> String {
    format!("let {} = leptos_shadcn_ui::{};", alias, comp)
}

#[test]
fn shadcn_separator_and_skeletons() {
    let sep = el("separator", vec![arg("orientation", lit("vertical")), arg("class", lit("h-4"))], vec![]);
    assert_eq!(render(sep), view(&import("Separator_0", "Separator"), "<Separator_0 class=\"h-4\" />"));
    let sk = el("skeleton_text", vec![arg("class", lit("w-8"))], vec![]);
    assert_eq!(
        render(sk),
        view(&import("Skeleton_0", "Skeleton"), "<Skeleton_0 class=\"animate-pulse h-4 w-full rounded-md bg-muted w-8\" />")
    );
    let av = el("skeleton_avatar", vec![], vec![]);
    assert_eq!(
        render(av),
        view(&import("Skeleton_0", "Skeleton"), "<Skeleton_0 class=\"animate-pulse h-10 w-10 rounded-full bg-muted\" />")
    );
}

#[test]
fn shadcn_progress_fraction() {
    let p = el("progress", vec![arg("value", code("v")), arg("max", code("m")), arg("class", lit("c"))], vec![]);
    assert_eq!(
        render(p),
        view(
            &import("Progress_0", "Progress"),
            "<Progress_0 value={leptos::prelude::Signal::derive(move || (v as f64) / (m as f64))} class={\"c\"} />"
        )
    );
    let q = el("progress", vec![arg("value", code("v"))], vec![]);
    assert_eq!(
        render(q),
        view(&import("Progress_0", "Progress"), "<Progress_0 value={leptos::prelude::Signal::derive(move || (v as f64) / 100.0)} />")
    );
}

#[test]
fn shadcn_checkbox_and_switch() {
    let c = el(
        "checkbox",
        vec![arg("checked", code("on")), arg("on_change", handler("|x| f(x)")), arg("disabled", boolean(true))],
        vec![],
    );
    assert_eq!(
        render(c),
        view(&import("Checkbox_0", "Checkbox"), "<Checkbox_0 checked={on} on_checked_change={{ |x| f(x) }} disabled={true} />")
    );
    let s = el("switch", vec![arg("class", lit("sw"))], vec![]);
    assert_eq!(render(s), view(&import("Switch_0", "Switch"), "<Switch_0 class={\"sw\"} disabled={false} />"));
}

#[test]
fn shadcn_radio_group_binds_after_its_items() {
    let item = el(
        "radio",
        vec![arg("value", lit("a")), arg("checked", code("sel")), arg("on_change", handler("|x| f(x)")), arg("class", lit("r"))],
        vec![],
    );
    let g = el("radio_group", vec![arg("class", lit("g"))], vec![RenderNode::Element(item)]);
    let binds = format!("{} {}", import("RadioGroupItem_0", "RadioGroupItem"), import("RadioGroup_1", "RadioGroup"));
    assert_eq!(
        render(g),
        view(
            &binds,
            "<RadioGroup_1 class=\"g\"> <RadioGroupItem_0 value=\"a\" checked=sel on_checked_change={ |x| f(x) } class=\"r\" disabled=false /> </RadioGroup_1>"
        )
    );
}

#[test]
fn shadcn_slider_props() {
    let s = el(
        "slider",
        vec![
            arg("value", code("v")),
            arg("min", code("lo")),
            arg("max", code("hi")),
            arg("step", code("st")),
            arg("on_input", handler("|x| f(x)")),
        ],
        vec![],
    );
    assert_eq!(
        render(s),
        view(
            &import("Slider_0", "Slider"),
            "<Slider_0 value={v} min={lo} max={hi} step={st} on_value_change={{ |x| f(x) }} disabled={false} />"
        )
    );
}

fn tip_binds(first: usize) -> String {
    format!(
        "{} {} {} {}",
        import(&format!("TooltipProvider_{}", first), "TooltipProvider"),
        import(&format!("Tooltip_{}", first + 1), "Tooltip"),
        import(&format!("TooltipTrigger_{}", first + 2), "TooltipTrigger"),
        import(&format!("TooltipContent_{}", first + 3), "TooltipContent")
    )
}

#[test]
fn shadcn_tooltip_with_and_without_trigger() {
    let plain = el("tooltip", vec![arg("text", lit("Hint"))], vec![]);
    assert_eq!(render(plain), view("", "<span title={\"Hint\"}>{\"Hint\"}</span>"));
    let mut with = el("tooltip", vec![arg("text", lit("Hint"))], vec![]);
    with.trigger_expr = Some(code("t"));
    assert_eq!(
        render(with),
        view(
            &tip_binds(0),
            "<TooltipProvider_0> <Tooltip_1> <TooltipTrigger_2> { { (t).clone() } } </TooltipTrigger_2> <TooltipContent_3> {\"Hint\"} </TooltipContent_3> </Tooltip_1> </TooltipProvider_0>"
        )
    );
}

#[test]
fn shadcn_badge_classes() {
    let grey = el("badge", vec![], vec![]);
    assert_eq!(
        render(grey),
        view(
            &import("Badge_0", "Badge"),
            "<Badge_0 class=\"inline-flex items-center px-1.5 rounded text-xs font-medium bg-gray-600 text-white\" />"
        )
    );
    let mut color = code("theme.red");
    color.bg_class = Some("bg-red-500".to_string());
    let themed = el("badge", vec![arg("color", color)], vec![text("x")]);
    assert_eq!(
        render(themed),
        view(
            &import("Badge_0", "Badge"),
            "<Badge_0 class={format!(\"inline-flex items-center px-1.5 rounded text-xs font-medium text-white {}\", \"bg-red-500\")}> \"x\" </Badge_0>"
        )
    );
    let other = el("badge", vec![arg("color", code("c"))], vec![text("y")]);
    assert_eq!(
        render(other),
        view(
            &import("Badge_0", "Badge"),
            "<Badge_0 class=\"inline-flex items-center px-1.5 rounded text-xs font-medium text-white\"> \"y\" </Badge_0>"
        )
    );
}

#[test]
fn shadcn_scroll_area_class() {
    let s = el("scroll_area", vec![arg("class", lit("h-40")), arg("direction", lit("both"))], vec![text("x")]);
    assert_eq!(render(s), view(&import("ScrollArea_0", "ScrollArea"), "<ScrollArea_0 class={\"h-40\"}> \"x\" </ScrollArea_0>"));
}

#[test]
fn shadcn_button_variants_and_tooltip() {
    let b = el(
        "button",
        vec![arg("destructive", boolean(true)), arg("on_click", handler("|x| f(x)")), arg("tooltip", lit("Del"))],
        vec![text("Go")],
    );
    let binds = format!("{} {}", import("Button_0", "Button"), tip_binds(1));
    assert_eq!(
        render(b),
        view(
            &binds,
            "<TooltipProvider_1> <Tooltip_2> <TooltipTrigger_3> <Button_0 variant={ leptos_shadcn_ui::ButtonVariant::Destructive } on_click={{ |x| f(x) }} disabled={false}> \"Go\" </Button_0> </TooltipTrigger_3> <TooltipContent_4> {\"Del\"} </TooltipContent_4> </Tooltip_2> </TooltipProvider_1>"
        )
    );
    let p = el("button", vec![arg("primary", boolean(true)), arg("class", code("c")), arg("disabled", boolean(true))], vec![]);
    assert_eq!(
        render(p),
        view(
            &import("Button_0", "Button"),
            "<Button_0 variant={ leptos_shadcn_ui::ButtonVariant::Default } class={c} disabled={true} />"
        )
    );
    let g = el("button", vec![arg("ghost", boolean(true))], vec![]);
    assert_eq!(
        render(g),
        view(&import("Button_0", "Button"), "<Button_0 variant={ leptos_shadcn_ui::ButtonVariant::Ghost } disabled={false} />")
    );
    let o = el("button", vec![], vec![]);
    assert_eq!(
        render(o),
        view(&import("Button_0", "Button"), "<Button_0 variant={ leptos_shadcn_ui::ButtonVariant::Outline } disabled={false} />")
    );
}

#[test]
fn shadcn_input_binds_its_value() {
    let i = el("input", vec![arg("value", code("name")), arg("placeholder", lit("Name"))], vec![]);
    let binds = format!(
        "let __quoin_input_bind_0 = {{ let __signal = (name).clone(); move |val: String| {{ __signal.set(val); }} }}; {}",
        import("Input_1", "Input")
    );
    assert_eq!(
        render(i),
        view(
            &binds,
            "<Input_1 value={ let __val = (name).clone(); leptos::prelude::Signal::derive(move || __val.get()) } on_change=__quoin_input_bind_0 placeholder={\"Name\"} />"
        )
    );
    let j = el(
        "input",
        vec![arg("on_input", handler("|x| f(x)")), arg("disabled", boolean(true)), arg("placeholder", lit(""))],
        vec![text("ignored")],
    );
    assert_eq!(render(j), view(&import("Input_0", "Input"), "<Input_0 on_change={{ |x| f(x) }} disabled=true />"));
}

#[test]
fn shadcn_tabs_triggers() {
    let tab = |l: &str, i: &str| RenderNode::Element(el("tab", vec![arg("label", lit(l)), arg("index", code(i))], vec![]));
    let t = el(
        "tabs",
        vec![arg("active", code("cur")), arg("on_click", handler("|i| pick(i)"))],
        vec![tab("A", "0"), text("skipped"), tab("B", "1")],
    );
    let binds = format!(
        "{} {} {}",
        import("Tabs_0", "Tabs"),
        import("TabsList_1", "TabsList"),
        import("TabsTrigger_2", "TabsTrigger")
    );
    assert_eq!(
        render(t),
        view(
            &binds,
            "<Tabs_0 value={leptos::prelude::Signal::derive(move || (cur).to_string())} on_value_change={ let __on_click = { |i| pick(i) }; move |val: String| { if let Ok(idx) = val.parse::<usize>() { __on_click(idx); } } }> <TabsList_1> <TabsTrigger_2 value={0.to_string()} class=\"text-white\">{\"A\"}</TabsTrigger_2> <TabsTrigger_2 value={1.to_string()} class=\"text-white\">{\"B\"}</TabsTrigger_2> </TabsList_1> </Tabs_0>"
        )
    );
    let bad = el("tabs", vec![arg("active", code("cur"))], vec![]);
    assert!(!renderable(&RenderNode::Element(bad), true));
}

#[test]
fn shadcn_dropdown_menu_items() {
    let missing = el("dropdown_menu", vec![], vec![]);
    assert_eq!(render(missing), view("", "<div>dropdown: missing trigger</div>"));
    let item = el("item", vec![arg("label", lit("Open")), arg("on_click", handler("|x| f(x)"))], vec![]);
    let mut m = el("dropdown_menu", vec![], vec![RenderNode::Element(item)]);
    m.trigger_expr = Some(code("t"));
    let binds = format!(
        "{} {} {} {}",
        import("DropdownMenu_0", "DropdownMenu"),
        import("DropdownMenuTrigger_1", "DropdownMenuTrigger"),
        import("DropdownMenuContent_2", "DropdownMenuContent"),
        import("DropdownMenuItem_3", "DropdownMenuItem")
    );
    assert_eq!(
        render(m),
        view(
            &binds,
            "<DropdownMenu_0> <DropdownMenuTrigger_1> { { (t).clone() } } </DropdownMenuTrigger_1> <DropdownMenuContent_2> <DropdownMenuItem_3 on_click={{ |x| f(x) }}>{\"Open\"}</DropdownMenuItem_3> </DropdownMenuContent_2> </DropdownMenu_0>"
        )
    );
}

#[test]
fn shadcn_data_table_columns() {
    let name_col = el(
        "column",
        vec![arg("label", lit("Name")), arg("render", code("|r| r.name.clone()")), arg("width", code("100"))],
        vec![],
    );
    let age_col = el("column", vec![arg("label", lit("Age"))], vec![]);
    let t = el(
        "data_table",
        vec![arg("rows", code("rows")), arg("striped", boolean(true))],
        vec![RenderNode::Element(name_col), RenderNode::Element(age_col)],
    );
    let binds = format!("let __quoin_col_0 = std::sync::Arc::new(|r| r.name.clone()); {}", import("Table_1", "Table"));
    assert_eq!(
        render(t),
        view(
            &binds,
            "<Table_1 class=\"w-full table-striped\"> <thead><tr> <th class=\"px-3 py-2 text-gray-400 font-medium\">{\"Name\"}</th> <th class=\"px-3 py-2 text-gray-400 font-medium\">{\"Age\"}</th> </tr></thead> <tbody> { let __rows = (rows).clone(); __rows.into_iter().map(|__row| { leptos::view! { <tr> <td class=\"px-3 py-2 text-white\">{ (&*__quoin_col_0)(&__row) }</td> <td class=\"px-3 py-2 text-white\"></td> </tr> } }).collect::<Vec<_>>() } </tbody> </Table_1>"
        )
    );
    let empty = el("data_table", vec![], vec![]);
    assert_eq!(
        render(empty),
        view(
            &import("Table_0", "Table"),
            "<Table_0 class=\"w-full\"> <thead><tr> </tr></thead> <tbody> { let __rows = (Vec::<()>::new()).clone(); __rows.into_iter().map(|__row| { leptos::view! { <tr> </tr> } }).collect::<Vec<_>>() } </tbody> </Table_0>"
        )
    );
}

#[test]
fn shadcn_ids_run_on_across_a_tree() {
    let tree = RenderNode::Root(vec![
        RenderNode::Element(el("separator", vec![], vec![])),
        RenderNode::Element(el("skeleton", vec![], vec![])),
    ]);
    let mut ids = ExtractIds { next: 5 };
    let out = emit_view(&tree, &mut ids, true);
    assert_eq!(ids.next, 7);
    let binds = format!("{} {}", import("Separator_5", "Separator"), import("Skeleton_6", "Skeleton"));
    assert_eq!(
        toks(&out),
        view(&binds, "<> <Separator_5 /> <Skeleton_6 class=\"animate-pulse rounded-md bg-muted\" /> </>")
    );
}

#[test]
fn shadcn_emitter_for_leptos_and_dioxus() {
    let node = RenderNode::Element(el("separator", vec![arg("class", lit("h-4"))], vec![]));
    let mut l = Emitter::with_shadcn(Some(Framework::Leptos), true);
    assert!(l.is_renderable(&node));
    assert_eq!(toks(&l.emit_render(&node)), view(&import("Separator_0", "Separator"), "<Separator_0 class=\"h-4\" />"));
    assert_eq!(l.ids.next, 1);
    let mut plain = Emitter::with_shadcn(Some(Framework::Leptos), false);
    assert_eq!(toks(&plain.emit_render(&node)), view("", "<hr class=\"h-4\" />"));
    let mut d = Emitter::with_shadcn(Some(Framework::Dioxus), true);
    assert_eq!(
        toks(&d.emit_render(&node)),
        toks("{ use dioxus::prelude::*; dioxus::prelude::rsx! { shadcn_dioxus::separator::Separator { class: \"h-4\", } } }")
    );
}

#[test]
fn plain_tree_is_renderable_by_every_emitter() {
    let tree = RenderNode::Root(vec![
        RenderNode::Element(el("button", vec![arg("on_click", handler("|x| f(x)"))], vec![text("Go")])),
        RenderNode::Element(el("badge", vec![], vec![text("new")])),
        RenderNode::Element(el("input", vec![arg("value", code("v"))], vec![])),
    ]);
    for fw in [None, Some(Framework::Gpui), Some(Framework::Leptos), Some(Framework::Dioxus)] {
        for sh in [false, true] {
            assert!(Emitter::with_shadcn(fw, sh).is_renderable(&tree));
        }
    }
    let tabs = RenderNode::Element(el("tabs", vec![arg("active", code("cur"))], vec![]));
    for fw in [Some(Framework::Gpui), Some(Framework::Leptos), Some(Framework::Dioxus)] {
        for sh in [false, true] {
            assert!(!Emitter::with_shadcn(fw, sh).is_renderable(&tabs));
        }
    }
}

fn dioxus_sh(node: &RenderNode) -> String {
    let mut d = Emitter::with_shadcn(Some(Framework::Dioxus), true);
    toks(&d.emit_render(node))
}

fn rsx(inner: &str) -> String {
    toks(&format!("{{ use dioxus::prelude::*; dioxus::prelude::rsx! {{ {} }} }}", inner))
}

#[test]
fn dioxus_shadcn_badges() {
    let mut color = code("theme.red");
    color.bg_class = Some("bg-red-500".to_string());
    let themed = RenderNode::Element(el("badge", vec![arg("color", color)], vec![text("x")]));
    assert_eq!(
        dioxus_sh(&themed),
        rsx("shadcn_dioxus::badge::Badge { class: \"inline-flex items-center px-1.5 rounded text-xs font-medium text-white bg-red-500\", \"x\" }")
    );
    let grey = RenderNode::Element(el("badge", vec![], vec![]));
    assert_eq!(
        dioxus_sh(&grey),
        rsx("shadcn_dioxus::badge::Badge { class: \"inline-flex items-center px-1.5 rounded text-xs font-medium bg-gray-600 text-white\" }")
    );
}

#[test]
fn dioxus_shadcn_button_classes() {
    let b = RenderNode::Element(el("button", vec![arg("primary", boolean(true))], vec![]));
    assert_eq!(
        dioxus_sh(&b),
        rsx("button { class: format!(\"{} {}{}\", \"inline-flex items-center justify-center rounded-md text-sm font-medium transition-colors cursor-pointer\", \"bg-primary text-primary-foreground hover:bg-primary/90\", \"\"), }")
    );
}

#[test]
fn rendering_twice_renumbers_or_repeats() {
    let mut l = Emitter::new(Some(Framework::Leptos));
    let plain = RenderNode::Element(el("div", vec![arg("class", lit("p-2"))], vec![text("hi")]));
    let a = l.emit_render(&plain);
    let b = l.emit_render(&plain);
    assert_eq!(a, b);
    assert_eq!(l.ids.next, 0);
    let bar = RenderNode::Element(el("progress", vec![arg("value", code("v"))], vec![]));
    let first = l.emit_render(&bar);
    assert_eq!(l.ids.next, 1);
    let second = l.emit_render(&bar);
    assert_eq!(l.ids.next, 2);
    assert_ne!(first, second);
    assert_eq!(first.replace("__quoin_prog_val_0", "__quoin_prog_val_1"), second);
    let mut s = Emitter::with_shadcn(Some(Framework::Leptos), true);
    let tip = {
        let mut t = el("tooltip", vec![arg("text", lit("Hint"))], vec![]);
        t.trigger_expr = Some(code("t"));
        RenderNode::Element(t)
    };
    let x = s.emit_render(&tip);
    let y = s.emit_render(&tip);
    assert_eq!(s.ids.next, 8);
    let renamed = x
        .replace("TooltipContent_3", "TooltipContent_7")
        .replace("TooltipTrigger_2", "TooltipTrigger_6")
        .replace("Tooltip_1", "Tooltip_5")
        .replace("TooltipProvider_0", "TooltipProvider_4");
    assert_eq!(renamed, y);
}
