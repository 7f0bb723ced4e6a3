//! The components whose RSX differs when `shadcn_dioxus` provides them.

use vstd::prelude::*;
use crate::ast::{Element, Expr, RenderNode};
use crate::emit::common::{arg_string, arg_true, find_arg_bool, find_arg_expr, find_arg_string, first_arg, has_arg, lemma_first_arg_some};
use crate::text::{str_eq, string_literal, string_literal_of};
use super::super::data_table::{column_complete, columns_complete};
use super::super::expr_child;
use super::super::form_controls::{checked_change, disabled_prop, find_checked_change, onchange_prop, prop, push_disabled, push_onchange, push_prop, slider_change};
use super::super::handler::{dioxus_handler, wrap_dioxus_handler};
use super::super::tier1_components::{class_attrs, push_class_attrs};
use super::super::tooltip::{emit_hover_tip, hover_tip, tip_text, tooltip};

verus! {

/// A separator: the `Separator` component with the `class` arguments.
pub open spec fn sh_separator(el: Element) -> Seq<char> {
    "shadcn_dioxus::separator::Separator { "@ + class_attrs(el.args@) + "}"@
}

/// Emits a separator.
pub fn emit_sh_separator(el: &Element) -> (out: String)
    ensures
        out@ == sh_separator(*el),
{
    let mut out = String::from_str("shadcn_dioxus::separator::Separator { ");
    push_class_attrs(&mut out, el);
    out.append("}");
    out
}

/// A skeleton: the `Skeleton` component with the skeleton's class.
pub open spec fn sh_skeleton_with(class: Seq<char>) -> Seq<char> {
    "shadcn_dioxus::skeleton::Skeleton { class: "@ + string_literal(class) + " }"@
}

/// Emits a skeleton with `class`.
pub fn emit_sh_skeleton_with(class: &str) -> (out: String)
    ensures
        out@ == sh_skeleton_with(class@),
{
    let mut out = String::from_str("shadcn_dioxus::skeleton::Skeleton { class: ");
    out.append(string_literal_of(class).as_str());
    out.append(" }");
    out
}

/// A progress bar: the `Progress` component with the value as a fraction
/// of `max` (of 100 without one), formatted as text.
pub open spec fn sh_progress(el: Element) -> Seq<char> {
    "shadcn_dioxus::progress::Progress { "@ + match first_arg(el.args@, "value"@) {
        Some(v) => match first_arg(el.args@, "max"@) {
            Some(m) => "value={format!(\"{}\", ( "@ + v.code@ + " as f64) / ( "@ + m.code@ + " as f64))} "@,
            None => "value={format!(\"{}\", ( "@ + v.code@ + " as f64) / 100.0)} "@,
        },
        None => Seq::empty(),
    } + "}"@
}

/// Emits a progress bar.
pub fn emit_sh_progress(el: &Element) -> (out: String)
    ensures
        out@ == sh_progress(*el),
{
    let mut out = String::from_str("shadcn_dioxus::progress::Progress { ");
    match find_arg_expr(el, "value") {
        Some(v) => match find_arg_expr(el, "max") {
            Some(m) => {
                out.append("value={format!(\"{}\", ( ");
                out.append(v.code.as_str());
                out.append(" as f64) / ( ");
                out.append(m.code.as_str());
                out.append(" as f64))} ");
            },
            None => {
                out.append("value={format!(\"{}\", ( ");
                out.append(v.code.as_str());
                out.append(" as f64) / 100.0)} ");
            },
        },
        None => {},
    }
    out.append("}");
    out
}

/// A checkbox: the `Checkbox` component; its `checked` argument is used
/// only together with a change handler.
pub open spec fn sh_checkbox(el: Element) -> Seq<char> {
    let checked = if checked_change(el) is Some {
        first_arg(el.args@, "checked"@)
    } else {
        None
    };
    "shadcn_dioxus::checkbox::Checkbox { "@ + prop("checked"@, checked) + onchange_prop(checked_change(el))
        + disabled_prop(el) + "}"@
}

/// Emits a checkbox.
pub fn emit_sh_checkbox(el: &Element) -> (out: String)
    ensures
        out@ == sh_checkbox(*el),
{
    let on_change_expr = find_checked_change(el);
    let checked_expr = if on_change_expr.is_some() {
        find_arg_expr(el, "checked")
    } else {
        None
    };
    let mut out = String::from_str("shadcn_dioxus::checkbox::Checkbox { ");
    push_prop(&mut out, "checked", checked_expr);
    push_onchange(&mut out, on_change_expr);
    push_disabled(&mut out, el);
    out.append("}");
    out
}

/// A toggle switch: the `Switch` component.
pub open spec fn sh_switch(el: Element) -> Seq<char> {
    "shadcn_dioxus::switch::Switch { "@ + prop("checked"@, first_arg(el.args@, "checked"@)) + onchange_prop(
        checked_change(el),
    ) + disabled_prop(el) + "}"@
}

/// Emits a toggle switch.
pub fn emit_sh_switch(el: &Element) -> (out: String)
    ensures
        out@ == sh_switch(*el),
{
    let mut out = String::from_str("shadcn_dioxus::switch::Switch { ");
    push_prop(&mut out, "checked", find_arg_expr(el, "checked"));
    push_onchange(&mut out, find_checked_change(el));
    push_disabled(&mut out, el);
    out.append("}");
    out
}

/// The element's string-literal `class`, or nothing.
pub open spec fn user_class(el: Element) -> Seq<char> {
    match arg_string(el.args@, "class"@) {
        Some(c) => c@,
        None => Seq::empty(),
    }
}

/// A group of radio buttons: the `RadioGroup` component with the user's
/// class, holding the child nodes, whose RSX is `kids`.
pub open spec fn sh_radio_group(el: Element, kids: Seq<char>) -> Seq<char> {
    "shadcn_dioxus::radio_group::RadioGroup { class: "@ + string_literal(user_class(el)) + ", "@ + kids + "}"@
}

/// Emits a group of radio buttons.
pub fn emit_sh_radio_group(el: &Element, kids: &str) -> (out: String)
    ensures
        out@ == sh_radio_group(*el, kids@),
{
    let user = match find_arg_string(el, "class") {
        Some(c) => c,
        None => String::new(),
    };
    let mut out = String::from_str("shadcn_dioxus::radio_group::RadioGroup { class: ");
    out.append(string_literal_of(user.as_str()).as_str());
    out.append(", ");
    out.append(kids);
    out.append("}");
    out
}

/// The `value` attribute of a radio button, written without a trailing
/// comma.
pub open spec fn radio_value(el: Element) -> Seq<char> {
    match first_arg(el.args@, "value"@) {
        Some(v) => "value: "@ + v.code@ + " "@,
        None => Seq::empty(),
    }
}

fn push_radio_value(out: &mut String, el: &Element)
    ensures
        final(out)@ == old(out)@ + radio_value(*el),
{
    let ghost start = out@;
    match find_arg_expr(el, "value") {
        Some(v) => {
            out.append("value: ");
            out.append(v.code.as_str());
            out.append(" ");
        },
        None => {},
    }
    assert(out@ =~= start + radio_value(*el));
}

/// A radio button: the `RadioGroupItem` component.
pub open spec fn sh_radio(el: Element) -> Seq<char> {
    "shadcn_dioxus::radio_group::RadioGroupItem { "@ + radio_value(el) + prop(
        "checked"@,
        first_arg(el.args@, "checked"@),
    ) + onchange_prop(first_arg(el.args@, "on_change"@)) + disabled_prop(el) + "}"@
}

/// Emits a radio button.
pub fn emit_sh_radio(el: &Element) -> (out: String)
    ensures
        out@ == sh_radio(*el),
{
    let mut out = String::from_str("shadcn_dioxus::radio_group::RadioGroupItem { ");
    push_radio_value(&mut out, el);
    push_prop(&mut out, "checked", find_arg_expr(el, "checked"));
    push_onchange(&mut out, find_arg_expr(el, "on_change"));
    push_disabled(&mut out, el);
    out.append("}");
    out
}

/// A slider: the `Slider` component.
pub open spec fn sh_slider(el: Element) -> Seq<char> {
    "shadcn_dioxus::slider::Slider { "@ + prop("value"@, first_arg(el.args@, "value"@)) + prop(
        "min"@,
        first_arg(el.args@, "min"@),
    ) + prop("max"@, first_arg(el.args@, "max"@)) + prop("step"@, first_arg(el.args@, "step"@))
        + onchange_prop(slider_change(el)) + disabled_prop(el) + "}"@
}

/// Emits a slider.
pub fn emit_sh_slider(el: &Element) -> (out: String)
    ensures
        out@ == sh_slider(*el),
{
    let mut out = String::from_str("shadcn_dioxus::slider::Slider { ");
    push_prop(&mut out, "value", find_arg_expr(el, "value"));
    push_prop(&mut out, "min", find_arg_expr(el, "min"));
    push_prop(&mut out, "max", find_arg_expr(el, "max"));
    push_prop(&mut out, "step", find_arg_expr(el, "step"));
    let on_change = match find_arg_expr(el, "on_change") {
        Some(h) => Some(h),
        None => find_arg_expr(el, "on_input"),
    };
    push_onchange(&mut out, on_change);
    push_disabled(&mut out, el);
    out.append("}");
    out
}

/// A tooltip: a `title` span without a trigger; with one, the `Tooltip`
/// component around the trigger and the text.
pub open spec fn sh_tooltip(el: Element) -> Seq<char> {
    match el.trigger_expr {
        None => tooltip(el),
        Some(t) => "shadcn_dioxus::tooltip::Tooltip { shadcn_dioxus::tooltip::TooltipTrigger { "@ + expr_child(t)
            + " } shadcn_dioxus::tooltip::TooltipContent { "@ + string_literal(tip_text(el)) + " } }"@,
    }
}

/// Emits a tooltip.
pub fn emit_sh_tooltip(el: &Element) -> (out: String)
    ensures
        out@ == sh_tooltip(*el),
{
    match &el.trigger_expr {
        None => super::super::tooltip::emit_tooltip(el),
        Some(t) => {
            let text = match find_arg_string(el, "text") {
                Some(s) => s,
                None => String::new(),
            };
            let mut out = String::from_str(
                "shadcn_dioxus::tooltip::Tooltip { shadcn_dioxus::tooltip::TooltipTrigger { ",
            );
            out.append("{ ");
            out.append(t.code.as_str());
            out.append(" }");
            out.append(" } shadcn_dioxus::tooltip::TooltipContent { ");
            out.append(string_literal_of(text.as_str()).as_str());
            out.append(" } }");
            assert(out@ =~= sh_tooltip(*el));
            out
        },
    }
}

/// One trigger of the tab list: a `tab` element with a `label` and an
/// `index`, calling `on_click` with its index.
pub open spec fn sh_tab_item(c: RenderNode, on_click: Expr) -> Seq<char> {
    match c {
        RenderNode::Element(e) => if e.name@ == "tab"@ {
            match (first_arg(e.args@, "label"@), first_arg(e.args@, "index"@)) {
                (Some(label), Some(index)) => "shadcn_dioxus::tabs::TabsTrigger { value: \"{#index.to_string()}\", onclick: { let __tab_on_click = "@
                    + on_click.moved@ + "; move |_| { __tab_on_click( "@ + index.code@ + " ); } }, "@
                    + label.code@ + " } "@,
                _ => Seq::empty(),
            }
        } else {
            Seq::empty()
        },
        _ => Seq::empty(),
    }
}

/// The triggers of the tab list, in order.
pub open spec fn sh_tab_items(cs: Seq<RenderNode>, on_click: Expr) -> Seq<char>
    decreases cs.len(),
{
    if cs.len() == 0 {
        Seq::empty()
    } else {
        sh_tab_items(cs.drop_last(), on_click) + sh_tab_item(cs.last(), on_click)
    }
}

/// A tab bar: the `Tabs` component with a trigger per tab; the element
/// needs an `active` and an `on_click` argument.
pub open spec fn sh_tabs(el: Element) -> Seq<char> {
    "shadcn_dioxus::tabs::Tabs { value: \"{#active_expr.to_string()}\", shadcn_dioxus::tabs::TabsList { "@
        + sh_tab_items(el.children@, first_arg(el.args@, "on_click"@).unwrap()) + "} }"@
}

fn push_sh_tab_item(out: &mut String, c: &RenderNode, on_click: &Expr)
    ensures
        final(out)@ == old(out)@ + sh_tab_item(*c, *on_click),
{
    let ghost start = out@;
    if let RenderNode::Element(e) = c {
        if str_eq(e.name.as_str(), "tab") {
            match (find_arg_expr(e, "label"), find_arg_expr(e, "index")) {
                (Some(label), Some(index)) => {
                    out.append(
                        "shadcn_dioxus::tabs::TabsTrigger { value: \"{#index.to_string()}\", onclick: { let __tab_on_click = ",
                    );
                    out.append(on_click.moved.as_str());
                    out.append("; move |_| { __tab_on_click( ");
                    out.append(index.code.as_str());
                    out.append(" ); } }, ");
                    out.append(label.code.as_str());
                    out.append(" } ");
                },
                _ => {},
            }
        }
    }
    assert(out@ =~= start + sh_tab_item(*c, *on_click));
}

/// Emits a tab bar.
pub fn emit_sh_tabs(el: &Element) -> (out: String)
    requires
        has_arg(el.args@, "active"@),
        has_arg(el.args@, "on_click"@),
    ensures
        out@ == sh_tabs(*el),
{
    proof {
        lemma_first_arg_some(el.args@, "on_click"@);
    }
    let on_click = find_arg_expr(el, "on_click").unwrap();
    let mut out = String::from_str(
        "shadcn_dioxus::tabs::Tabs { value: \"{#active_expr.to_string()}\", shadcn_dioxus::tabs::TabsList { ",
    );
    let ghost start = out@;
    let n = el.children.len();
    let mut i: usize = 0;
    while i < n
        invariant
            n == el.children@.len(),
            i <= n,
            out@ == start + sh_tab_items(el.children@.subrange(0, i as int), *on_click),
        decreases n - i,
    {
        let ghost after = el.children@.subrange(0, i + 1);
        assert(after.drop_last() =~= el.children@.subrange(0, i as int));
        assert(after.last() == el.children@[i as int]);
        push_sh_tab_item(&mut out, &el.children[i], on_click);
        i = i + 1;
        assert(out@ =~= start + sh_tab_items(el.children@.subrange(0, i as int), *on_click));
    }
    assert(el.children@.subrange(0, n as int) =~= el.children@);
    out.append("} }");
    out
}

/// The header cell (`header`) or the body cell of a `column` child.
pub open spec fn sh_cell(c: RenderNode, header: bool) -> Seq<char> {
    match c {
        RenderNode::Element(e) => if e.name@ == "column"@ {
            if header {
                "th { class: \"px-3 py-2 text-gray-400 font-medium\", "@ + first_arg(e.args@, "label"@).unwrap().code@
                    + " } "@
            } else {
                "td { class: \"px-3 py-2 text-white\", { ( "@ + first_arg(e.args@, "render"@).unwrap().code@
                    + " )(&__row) } } "@
            }
        } else {
            Seq::empty()
        },
        _ => Seq::empty(),
    }
}

/// The header cells or the body cells of the columns, in order.
pub open spec fn sh_cells(cs: Seq<RenderNode>, header: bool) -> Seq<char>
    decreases cs.len(),
{
    if cs.len() == 0 {
        Seq::empty()
    } else {
        sh_cells(cs.drop_last(), header) + sh_cell(cs.last(), header)
    }
}

/// A data table with the component library's classes; the element needs a
/// `rows` argument and each column a `label` and a `render` argument.
pub open spec fn sh_data_table(el: Element) -> Seq<char> {
    "table { class: \"w-full text-sm\", thead { tr { "@ + sh_cells(el.children@, true)
        + "} } tbody { for __row in "@ + first_arg(el.args@, "rows"@).unwrap().code@ + " { tr { "@ + sh_cells(
        el.children@,
        false,
    ) + "} } } }"@
}

fn push_sh_cells(out: &mut String, el: &Element, header: bool)
    requires
        columns_complete(el.children@),
    ensures
        final(out)@ == old(out)@ + sh_cells(el.children@, header),
{
    let ghost start = out@;
    let n = el.children.len();
    let mut i: usize = 0;
    while i < n
        invariant
            n == el.children@.len(),
            i <= n,
            columns_complete(el.children@),
            out@ == start + sh_cells(el.children@.subrange(0, i as int), header),
        decreases n - i,
    {
        let ghost after = el.children@.subrange(0, i + 1);
        assert(after.drop_last() =~= el.children@.subrange(0, i as int));
        assert(after.last() == el.children@[i as int]);
        if let RenderNode::Element(e) = &el.children[i] {
            if str_eq(e.name.as_str(), "column") {
                assert(column_complete(el.children@[i as int]));
                proof {
                    lemma_first_arg_some(e.args@, "label"@);
                    lemma_first_arg_some(e.args@, "render"@);
                }
                if header {
                    out.append("th { class: \"px-3 py-2 text-gray-400 font-medium\", ");
                    out.append(find_arg_expr(e, "label").unwrap().code.as_str());
                    out.append(" } ");
                } else {
                    out.append("td { class: \"px-3 py-2 text-white\", { ( ");
                    out.append(find_arg_expr(e, "render").unwrap().code.as_str());
                    out.append(" )(&__row) } } ");
                }
            }
        }
        i = i + 1;
        assert(out@ =~= start + sh_cells(el.children@.subrange(0, i as int), header));
    }
    assert(el.children@.subrange(0, n as int) =~= el.children@);
}

/// Emits a data table.
pub fn emit_sh_data_table(el: &Element) -> (out: String)
    requires
        has_arg(el.args@, "rows"@),
        columns_complete(el.children@),
    ensures
        out@ == sh_data_table(*el),
{
    proof {
        lemma_first_arg_some(el.args@, "rows"@);
    }
    let rows = find_arg_expr(el, "rows").unwrap();
    let mut out = String::from_str("table { class: \"w-full text-sm\", thead { tr { ");
    push_sh_cells(&mut out, el, true);
    out.append("} } tbody { for __row in ");
    out.append(rows.code.as_str());
    out.append(" { tr { ");
    push_sh_cells(&mut out, el, false);
    out.append("} } } }");
    out
}

/// One item of the menu: an `item` element with a `label` and an
/// `on_click` handler, as a `DropdownMenuItem`.
pub open spec fn sh_menu_item(c: RenderNode) -> Seq<char> {
    match c {
        RenderNode::Element(e) => if e.name@ == "item"@ {
            match (first_arg(e.args@, "label"@), first_arg(e.args@, "on_click"@)) {
                (Some(label), Some(on_click)) => "shadcn_dioxus::dropdown_menu::DropdownMenuItem { onclick: { "@
                    + dioxus_handler(on_click) + " }, "@ + label.code@ + " } "@,
                _ => Seq::empty(),
            }
        } else {
            Seq::empty()
        },
        _ => Seq::empty(),
    }
}

/// The items of the menu, in order.
pub open spec fn sh_menu_items(cs: Seq<RenderNode>) -> Seq<char>
    decreases cs.len(),
{
    if cs.len() == 0 {
        Seq::empty()
    } else {
        sh_menu_items(cs.drop_last()) + sh_menu_item(cs.last())
    }
}

/// A dropdown menu: without a trigger, a `div` saying so; with one, the
/// `DropdownMenu` component with the trigger and the items.
pub open spec fn sh_dropdown_menu(el: Element) -> Seq<char> {
    match el.trigger_expr {
        None => "div { \"dropdown: missing trigger\" }"@,
        Some(t) => "shadcn_dioxus::dropdown_menu::DropdownMenu { shadcn_dioxus::dropdown_menu::DropdownMenuTrigger { "@
            + expr_child(t) + " } shadcn_dioxus::dropdown_menu::DropdownMenuContent { "@ + sh_menu_items(el.children@)
            + "} }"@,
    }
}

fn push_sh_menu_item(out: &mut String, c: &RenderNode)
    ensures
        final(out)@ == old(out)@ + sh_menu_item(*c),
{
    let ghost start = out@;
    if let RenderNode::Element(e) = c {
        if str_eq(e.name.as_str(), "item") {
            match (find_arg_expr(e, "label"), find_arg_expr(e, "on_click")) {
                (Some(label), Some(on_click)) => {
                    out.append("shadcn_dioxus::dropdown_menu::DropdownMenuItem { onclick: { ");
                    out.append(wrap_dioxus_handler(on_click).as_str());
                    out.append(" }, ");
                    out.append(label.code.as_str());
                    out.append(" } ");
                },
                _ => {},
            }
        }
    }
    assert(out@ =~= start + sh_menu_item(*c));
}

/// Emits a dropdown menu.
pub fn emit_sh_dropdown_menu(el: &Element) -> (out: String)
    ensures
        out@ == sh_dropdown_menu(*el),
{
    match &el.trigger_expr {
        None => String::from_str("div { \"dropdown: missing trigger\" }"),
        Some(t) => {
            let mut out = String::from_str(
                "shadcn_dioxus::dropdown_menu::DropdownMenu { shadcn_dioxus::dropdown_menu::DropdownMenuTrigger { ",
            );
            out.append("{ ");
            out.append(t.code.as_str());
            out.append(" }");
            out.append(" } shadcn_dioxus::dropdown_menu::DropdownMenuContent { ");
            let ghost start = out@;
            let n = el.children.len();
            let mut i: usize = 0;
            while i < n
                invariant
                    n == el.children@.len(),
                    i <= n,
                    out@ == start + sh_menu_items(el.children@.subrange(0, i as int)),
                decreases n - i,
            {
                let ghost after = el.children@.subrange(0, i + 1);
                assert(after.drop_last() =~= el.children@.subrange(0, i as int));
                assert(after.last() == el.children@[i as int]);
                push_sh_menu_item(&mut out, &el.children[i]);
                i = i + 1;
                assert(out@ =~= start + sh_menu_items(el.children@.subrange(0, i as int)));
            }
            assert(el.children@.subrange(0, n as int) =~= el.children@);
            out.append("} }");
            assert(out@ =~= sh_dropdown_menu(*el));
            out
        },
    }
}

/// The class of a badge: the theme background of its `color`, grey
/// without one that the theme knows, grey without a colour.
pub open spec fn sh_badge_class(el: Element) -> Seq<char> {
    match first_arg(el.args@, "color"@) {
        Some(color) => match color.bg_class {
            Some(cls) => "inline-flex items-center px-1.5 rounded text-xs font-medium text-white "@ + cls@,
            None => "inline-flex items-center px-1.5 rounded text-xs font-medium text-white bg-gray-600"@,
        },
        None => "inline-flex items-center px-1.5 rounded text-xs font-medium bg-gray-600 text-white"@,
    }
}

/// A badge: the `Badge` component with its class, holding the child nodes,
/// whose RSX is `kids`.
pub open spec fn sh_badge(el: Element, kids: Seq<char>) -> Seq<char> {
    "shadcn_dioxus::badge::Badge { class: "@ + string_literal(sh_badge_class(el)) + if el.children@.len() == 0 {
        " }"@
    } else {
        ", "@ + kids + "}"@
    }
}

/// Emits a badge.
pub fn emit_sh_badge(el: &Element, kids: &str) -> (out: String)
    ensures
        out@ == sh_badge(*el, kids@),
{
    let class = match find_arg_expr(el, "color") {
        Some(color) => match &color.bg_class {
            Some(cls) => {
                let mut c = String::from_str("inline-flex items-center px-1.5 rounded text-xs font-medium text-white ");
                c.append(cls.as_str());
                c
            },
            None => String::from_str("inline-flex items-center px-1.5 rounded text-xs font-medium text-white bg-gray-600"),
        },
        None => String::from_str("inline-flex items-center px-1.5 rounded text-xs font-medium bg-gray-600 text-white"),
    };
    let mut out = String::from_str("shadcn_dioxus::badge::Badge { class: ");
    out.append(string_literal_of(class.as_str()).as_str());
    if el.children.len() == 0 {
        out.append(" }");
    } else {
        out.append(", ");
        out.append(kids);
        out.append("}");
    }
    out
}

/// The variant classes of a button: destructive, ghost, primary or
/// outlined, in that order of precedence.
pub open spec fn sh_variant_class(el: Element) -> Seq<char> {
    if arg_true(el.args@, "destructive"@) {
        "bg-destructive text-destructive-foreground hover:bg-destructive/90"@
    } else if arg_true(el.args@, "ghost"@) {
        "hover:bg-accent hover:text-accent-foreground"@
    } else if arg_true(el.args@, "primary"@) {
        "bg-primary text-primary-foreground hover:bg-primary/90"@
    } else {
        "border border-input bg-background hover:bg-accent hover:text-accent-foreground"@
    }
}

/// The class expression of a button: the base, variant and disabled
/// classes, then the user's class.
pub open spec fn sh_button_class(el: Element) -> Seq<char> {
    let base = string_literal(
        "inline-flex items-center justify-center rounded-md text-sm font-medium transition-colors cursor-pointer"@,
    );
    let variant = string_literal(sh_variant_class(el));
    let disabled = string_literal(
        if arg_true(el.args@, "disabled"@) {
            " opacity-50 pointer-events-none"@
        } else {
            Seq::empty()
        },
    );
    match first_arg(el.args@, "class"@) {
        Some(cls) => "format!(\"{} {}{} {}\", "@ + base + ", "@ + variant + ", "@ + disabled + ", "@ + cls.code@
            + ")"@,
        None => "format!(\"{} {}{}\", "@ + base + ", "@ + variant + ", "@ + disabled + ")"@,
    }
}

/// A button with the component library's classes, in a hover tooltip when
/// it has a string-literal `tooltip`; `kids` is the RSX of its children.
pub open spec fn sh_button(el: Element, kids: Seq<char>) -> Seq<char> {
    let click = match first_arg(el.args@, "on_click"@) {
        Some(h) => "onclick: { "@ + dioxus_handler(h) + " }, "@,
        None => Seq::empty(),
    };
    let inner = "button { class: "@ + sh_button_class(el) + ", "@ + click + if el.children@.len() == 0 {
        Seq::empty()
    } else {
        kids
    } + "}"@;
    match arg_string(el.args@, "tooltip"@) {
        Some(text) => hover_tip("\"relative inline-flex\""@, inner, text@),
        None => inner,
    }
}

#[verifier::rlimit(30)]
fn push_sh_button_class(out: &mut String, el: &Element)
    ensures
        final(out)@ == old(out)@ + sh_button_class(*el),
{
    let ghost start = out@;
    let variant = if find_arg_bool(el, "destructive") {
        "bg-destructive text-destructive-foreground hover:bg-destructive/90"
    } else if find_arg_bool(el, "ghost") {
        "hover:bg-accent hover:text-accent-foreground"
    } else if find_arg_bool(el, "primary") {
        "bg-primary text-primary-foreground hover:bg-primary/90"
    } else {
        "border border-input bg-background hover:bg-accent hover:text-accent-foreground"
    };
    let disabled = if find_arg_bool(el, "disabled") {
        " opacity-50 pointer-events-none"
    } else {
        ""
    };
    let base = string_literal_of(
        "inline-flex items-center justify-center rounded-md text-sm font-medium transition-colors cursor-pointer",
    );
    let class_expr = find_arg_expr(el, "class");
    match class_expr {
        Some(_) => out.append("format!(\"{} {}{} {}\", "),
        None => out.append("format!(\"{} {}{}\", "),
    }
    out.append(base.as_str());
    out.append(", ");
    out.append(string_literal_of(variant).as_str());
    out.append(", ");
    out.append(string_literal_of(disabled).as_str());
    match class_expr {
        Some(cls) => {
            out.append(", ");
            out.append(cls.code.as_str());
            out.append(")");
        },
        None => out.append(")"),
    }
    proof {
        reveal_strlit("");
        assert(""@ =~= Seq::<char>::empty());
        assert(disabled@ == (if arg_true(el.args@, "disabled"@) {
            " opacity-50 pointer-events-none"@
        } else {
            Seq::<char>::empty()
        }));
        assert(variant@ == sh_variant_class(*el));
    }
    assert(out@ =~= start + sh_button_class(*el));
}

/// Emits a button.
pub fn emit_sh_button(el: &Element, kids: &str) -> (out: String)
    ensures
        out@ == sh_button(*el, kids@),
{
    let mut inner = String::from_str("button { class: ");
    push_sh_button_class(&mut inner, el);
    inner.append(", ");
    match find_arg_expr(el, "on_click") {
        Some(h) => {
            inner.append("onclick: { ");
            inner.append(wrap_dioxus_handler(h).as_str());
            inner.append(" }, ");
        },
        None => {},
    }
    if el.children.len() != 0 {
        inner.append(kids);
    }
    inner.append("}");
    match find_arg_string(el, "tooltip") {
        Some(text) => emit_hover_tip("\"relative inline-flex\"", inner.as_str(), text.as_str()),
        None => inner,
    }
}

/// The base class of a text input.
pub open spec fn sh_input_base() -> Seq<char> {
    string_literal(
        "flex h-10 w-full rounded-md border border-input bg-background px-3 py-2 text-sm ring-offset-background file:border-0 file:text-sm placeholder:text-muted-foreground focus-visible:outline-none focus-visible:ring-2 focus-visible:ring-ring focus-visible:ring-offset-2 disabled:cursor-not-allowed disabled:opacity-50"@,
    )
}

/// The class expression of a text input: the base class, then the user's.
pub open spec fn sh_input_class(el: Element) -> Seq<char> {
    match first_arg(el.args@, "class"@) {
        Some(cls) => "format!(\"{} {}\", "@ + sh_input_base() + ", "@ + cls.code@ + ")"@,
        None => sh_input_base(),
    }
}

/// The `placeholder` attribute of a text input, for a non-empty one.
pub open spec fn sh_input_placeholder(el: Element) -> Seq<char> {
    match arg_string(el.args@, "placeholder"@) {
        Some(p) => if p@.len() == 0 {
            Seq::empty()
        } else {
            "placeholder: "@ + string_literal(p@) + ", "@
        },
        None => Seq::empty(),
    }
}

/// The `value` attribute of a text input: the signal's value.
pub open spec fn sh_input_value(el: Element) -> Seq<char> {
    match first_arg(el.args@, "value"@) {
        Some(v) => "value: { "@ + v.code@ + " .get() }, "@,
        None => Seq::empty(),
    }
}

/// The `oninput` attribute of a text input: the `on_input` handler, or
/// else a binding that writes what is typed to the `value` signal.
pub open spec fn sh_input_oninput(el: Element) -> Seq<char> {
    match first_arg(el.args@, "on_input"@) {
        Some(h) => "oninput: "@ + dioxus_handler(h) + ", "@,
        None => match first_arg(el.args@, "value"@) {
            Some(v) => "oninput: move |ev: dioxus::prelude::Event<dioxus::prelude::FormData>| { "@ + v.code@
                + " .set(ev.value()); }, "@,
            None => Seq::empty(),
        },
    }
}

/// A text input with the component library's classes.
pub open spec fn sh_input(el: Element) -> Seq<char> {
    "input { class: "@ + sh_input_class(el) + ", "@ + sh_input_placeholder(el) + sh_input_value(el)
        + sh_input_oninput(el) + disabled_prop(el) + "}"@
}

fn push_sh_input_class(out: &mut String, el: &Element)
    ensures
        final(out)@ == old(out)@ + sh_input_class(*el),
{
    let ghost start = out@;
    let base = string_literal_of(
        "flex h-10 w-full rounded-md border border-input bg-background px-3 py-2 text-sm ring-offset-background file:border-0 file:text-sm placeholder:text-muted-foreground focus-visible:outline-none focus-visible:ring-2 focus-visible:ring-ring focus-visible:ring-offset-2 disabled:cursor-not-allowed disabled:opacity-50",
    );
    match find_arg_expr(el, "class") {
        Some(cls) => {
            out.append("format!(\"{} {}\", ");
            out.append(base.as_str());
            out.append(", ");
            out.append(cls.code.as_str());
            out.append(")");
        },
        None => out.append(base.as_str()),
    }
    assert(out@ =~= start + sh_input_class(*el));
}

fn push_sh_input_placeholder(out: &mut String, el: &Element)
    ensures
        final(out)@ == old(out)@ + sh_input_placeholder(*el),
{
    let ghost start = out@;
    let placeholder = match find_arg_string(el, "placeholder") {
        Some(p) => p,
        None => String::new(),
    };
    if !placeholder.as_str().is_empty() {
        out.append("placeholder: ");
        out.append(string_literal_of(placeholder.as_str()).as_str());
        out.append(", ");
    }
    assert(out@ =~= start + sh_input_placeholder(*el));
}

fn push_sh_input_binding(out: &mut String, el: &Element)
    ensures
        final(out)@ == old(out)@ + sh_input_value(*el) + sh_input_oninput(*el),
{
    let ghost start = out@;
    let value = find_arg_expr(el, "value");
    match value {
        Some(v) => {
            out.append("value: { ");
            out.append(v.code.as_str());
            out.append(" .get() }, ");
        },
        None => {},
    }
    let ghost mid = out@;
    assert(mid =~= start + sh_input_value(*el));
    match find_arg_expr(el, "on_input") {
        Some(h) => {
            out.append("oninput: ");
            out.append(wrap_dioxus_handler(h).as_str());
            out.append(", ");
        },
        None => match value {
            Some(v) => {
                out.append("oninput: move |ev: dioxus::prelude::Event<dioxus::prelude::FormData>| { ");
                out.append(v.code.as_str());
                out.append(" .set(ev.value()); }, ");
            },
            None => {},
        },
    }
    assert(out@ =~= mid + sh_input_oninput(*el));
}

/// Emits a text input.
pub fn emit_sh_input(el: &Element) -> (out: String)
    ensures
        out@ == sh_input(*el),
{
    let mut out = String::from_str("input { class: ");
    push_sh_input_class(&mut out, el);
    out.append(", ");
    push_sh_input_placeholder(&mut out, el);
    push_sh_input_binding(&mut out, el);
    push_disabled(&mut out, el);
    out.append("}");
    assert(out@ =~= sh_input(*el));
    out
}

} // verus!
