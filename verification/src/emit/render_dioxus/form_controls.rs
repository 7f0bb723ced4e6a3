//! Checkboxes, switches, radio buttons and sliders in Dioxus RSX.

use vstd::prelude::*;
use crate::ast::{Element, Expr};
use crate::emit::common::{arg_string, arg_true, find_arg_bool, find_arg_expr, find_arg_string, first_arg};
use crate::text::{string_literal, string_literal_of};
use super::handler::{dioxus_handler, wrap_dioxus_handler};

verus! {

/// `name: <expr>, ` for a present argument, nothing for an absent one.
pub open spec fn prop(name: Seq<char>, e: Option<Expr>) -> Seq<char> {
    match e {
        Some(v) => name + ": "@ + v.code@ + ", "@,
        None => Seq::empty(),
    }
}

pub(crate) fn push_prop(out: &mut String, name: &str, e: Option<&Expr>)
    ensures
        final(out)@ == old(out)@ + prop(name@, match e {
            Some(v) => Some(*v),
            None => None,
        }),
{
    match e {
        Some(v) => {
            out.append(name);
            out.append(": ");
            out.append(v.code.as_str());
            out.append(", ");
        },
        None => {
            assert(final(out)@ =~= old(out)@ + Seq::<char>::empty());
        },
    }
}

/// `onchange: <handler>, ` for a present handler.
pub open spec fn onchange_prop(e: Option<Expr>) -> Seq<char> {
    match e {
        Some(h) => "onchange: "@ + dioxus_handler(h) + ", "@,
        None => Seq::empty(),
    }
}

pub(crate) fn push_onchange(out: &mut String, e: Option<&Expr>)
    ensures
        final(out)@ == old(out)@ + onchange_prop(match e {
            Some(v) => Some(*v),
            None => None,
        }),
{
    match e {
        Some(h) => {
            out.append("onchange: ");
            let w = wrap_dioxus_handler(h);
            out.append(w.as_str());
            out.append(", ");
        },
        None => {
            assert(final(out)@ =~= old(out)@ + Seq::<char>::empty());
        },
    }
}

/// `disabled: true, ` when the element is disabled.
pub open spec fn disabled_prop(el: Element) -> Seq<char> {
    if arg_true(el.args@, "disabled"@) {
        "disabled: true, "@
    } else {
        Seq::empty()
    }
}

pub(crate) fn push_disabled(out: &mut String, el: &Element)
    ensures
        final(out)@ == old(out)@ + disabled_prop(*el),
{
    if find_arg_bool(el, "disabled") {
        out.append("disabled: true, ");
    } else {
        assert(final(out)@ =~= old(out)@ + Seq::<char>::empty());
    }
}

/// The change handler of a checkbox or switch: `on_checked_change`, else
/// `on_change`.
pub open spec fn checked_change(el: Element) -> Option<Expr> {
    match first_arg(el.args@, "on_checked_change"@) {
        Some(h) => Some(h),
        None => first_arg(el.args@, "on_change"@),
    }
}

pub(crate) fn find_checked_change(el: &Element) -> (r: Option<&Expr>)
    ensures
        match r {
            Some(e) => checked_change(*el) == Some(*e),
            None => checked_change(*el) is None,
        },
{
    match find_arg_expr(el, "on_checked_change") {
        Some(h) => Some(h),
        None => find_arg_expr(el, "on_change"),
    }
}

/// A checkbox; its `checked` argument is used only together with a change
/// handler.
pub open spec fn checkbox(el: Element) -> Seq<char> {
    let user = match arg_string(el.args@, "class"@) {
        Some(c) => c@,
        None => Seq::empty(),
    };
    let base = "h-4 w-4 rounded border border-input ring-offset-background accent-primary-500 cursor-pointer"@;
    let full = if user.len() == 0 {
        base
    } else {
        user
    };
    let checked = if checked_change(el) is Some {
        first_arg(el.args@, "checked"@)
    } else {
        None
    };
    "input { r#type: \"checkbox\", class: "@ + string_literal(full) + ", "@ + prop(
        "checked"@,
        checked,
    ) + onchange_prop(checked_change(el)) + disabled_prop(el) + "}"@
}

/// Emits a checkbox.
pub fn emit_checkbox(el: &Element) -> (out: String)
    ensures
        out@ == checkbox(*el),
{
    let on_change_expr = find_checked_change(el);
    let checked_expr = if on_change_expr.is_some() {
        find_arg_expr(el, "checked")
    } else {
        None
    };
    let user_class = match find_arg_string(el, "class") {
        Some(c) => c,
        None => String::new(),
    };
    let base = "h-4 w-4 rounded border border-input ring-offset-background accent-primary-500 cursor-pointer";
    let full_class = if user_class.as_str().is_empty() {
        String::from_str(base)
    } else {
        user_class
    };
    let mut out = String::from_str("input { r#type: \"checkbox\", class: ");
    let lit = string_literal_of(full_class.as_str());
    out.append(lit.as_str());
    out.append(", ");
    push_prop(&mut out, "checked", checked_expr);
    push_onchange(&mut out, on_change_expr);
    push_disabled(&mut out, el);
    out.append("}");
    out
}

/// A toggle switch: a button holding a hidden checkbox and a thumb.
pub open spec fn switch(el: Element) -> Seq<char> {
    "button { class: "@ + string_literal(
        "relative inline-flex h-6 w-11 shrink-0 cursor-pointer items-center rounded-full border-2 border-transparent transition-colors bg-input"@,
    ) + ", role: \"switch\", "@ + disabled_prop(el)
        + "onclick: move |_| {}, input { r#type: \"checkbox\", "@ + prop(
        "checked"@,
        first_arg(el.args@, "checked"@),
    ) + onchange_prop(checked_change(el)) + ", class: \"sr-only peer\" }, div { class: "@
        + string_literal(
        "pointer-events-none block h-5 w-5 rounded-full bg-background shadow-lg ring-0 transition-transform translate-x-0"@,
    ) + " } }"@
}

/// Emits a toggle switch.
pub fn emit_switch(el: &Element) -> (out: String)
    ensures
        out@ == switch(*el),
{
    let checked_expr = find_arg_expr(el, "checked");
    let on_change_expr = find_checked_change(el);
    let track = string_literal_of(
        "relative inline-flex h-6 w-11 shrink-0 cursor-pointer items-center rounded-full border-2 border-transparent transition-colors bg-input",
    );
    let thumb = string_literal_of(
        "pointer-events-none block h-5 w-5 rounded-full bg-background shadow-lg ring-0 transition-transform translate-x-0",
    );
    let mut out = String::from_str("button { class: ");
    out.append(track.as_str());
    out.append(", role: \"switch\", ");
    push_disabled(&mut out, el);
    out.append("onclick: move |_| {}, input { r#type: \"checkbox\", ");
    push_prop(&mut out, "checked", checked_expr);
    push_onchange(&mut out, on_change_expr);
    out.append(", class: \"sr-only peer\" }, div { class: ");
    out.append(thumb.as_str());
    out.append(" } }");
    out
}

/// A group of radio buttons: a column holding the child nodes, whose RSX
/// is `kids`.
pub open spec fn radio_group(el: Element, kids: Seq<char>) -> Seq<char> {
    let user = match arg_string(el.args@, "class"@) {
        Some(c) => c@,
        None => Seq::empty(),
    };
    let cls = if user.len() == 0 {
        "flex flex-col gap-2"@
    } else {
        user
    };
    "div { class: "@ + string_literal(cls) + ", "@ + kids + "}"@
}

/// Emits a group of radio buttons.
pub fn emit_radio_group(el: &Element, kids: &str) -> (out: String)
    ensures
        out@ == radio_group(*el, kids@),
{
    let user_class = match find_arg_string(el, "class") {
        Some(c) => c,
        None => String::new(),
    };
    let cls = if user_class.as_str().is_empty() {
        String::from_str("flex flex-col gap-2")
    } else {
        user_class
    };
    let lit = string_literal_of(cls.as_str());
    let mut out = String::from_str("div { class: ");
    out.append(lit.as_str());
    out.append(", ");
    out.append(kids);
    out.append("}");
    out
}

/// A radio button; its `value` attribute is written without a trailing
/// comma.
pub open spec fn radio(el: Element) -> Seq<char> {
    "input { r#type: \"radio\", class: "@ + string_literal(
        "h-4 w-4 rounded-full border border-input accent-primary-500 cursor-pointer"@,
    ) + ", "@ + prop("checked"@, first_arg(el.args@, "checked"@)) + prop(
        "name"@,
        first_arg(el.args@, "name"@),
    ) + match first_arg(el.args@, "value"@) {
        Some(v) => "value: "@ + v.code@ + " "@,
        None => Seq::empty(),
    } + onchange_prop(first_arg(el.args@, "on_change"@)) + disabled_prop(el) + "}"@
}

/// Emits a radio button.
pub fn emit_radio(el: &Element) -> (out: String)
    ensures
        out@ == radio(*el),
{
    let base = string_literal_of(
        "h-4 w-4 rounded-full border border-input accent-primary-500 cursor-pointer",
    );
    let mut out = String::from_str("input { r#type: \"radio\", class: ");
    out.append(base.as_str());
    out.append(", ");
    push_prop(&mut out, "checked", find_arg_expr(el, "checked"));
    push_prop(&mut out, "name", find_arg_expr(el, "name"));
    let ghost mid = out@;
    match find_arg_expr(el, "value") {
        Some(v) => {
            out.append("value: ");
            out.append(v.code.as_str());
            out.append(" ");
        },
        None => {},
    }
    assert(out@ =~= mid + match first_arg(el.args@, "value"@) {
        Some(v) => "value: "@ + v.code@ + " "@,
        None => Seq::empty(),
    });
    push_onchange(&mut out, find_arg_expr(el, "on_change"));
    push_disabled(&mut out, el);
    out.append("}");
    out
}

/// The change handler of a slider: `on_change`, else `on_input`.
pub open spec fn slider_change(el: Element) -> Option<Expr> {
    match first_arg(el.args@, "on_change"@) {
        Some(h) => Some(h),
        None => first_arg(el.args@, "on_input"@),
    }
}

/// A slider: a range input.
pub open spec fn slider(el: Element) -> Seq<char> {
    "input { r#type: \"range\", class: "@ + string_literal(
        "w-full h-2 rounded-lg appearance-none cursor-pointer accent-primary-500 bg-transparent"@,
    ) + ", "@ + prop("value"@, first_arg(el.args@, "value"@)) + prop(
        "min"@,
        first_arg(el.args@, "min"@),
    ) + prop("max"@, first_arg(el.args@, "max"@)) + prop("step"@, first_arg(el.args@, "step"@))
        + onchange_prop(slider_change(el)) + disabled_prop(el) + "}"@
}

/// Emits a slider.
pub fn emit_slider(el: &Element) -> (out: String)
    ensures
        out@ == slider(*el),
{
    let base = string_literal_of(
        "w-full h-2 rounded-lg appearance-none cursor-pointer accent-primary-500 bg-transparent",
    );
    let mut out = String::from_str("input { r#type: \"range\", class: ");
    out.append(base.as_str());
    out.append(", ");
    push_prop(&mut out, "value", find_arg_expr(el, "value"));
    push_prop(&mut out, "min", find_arg_expr(el, "min"));
    push_prop(&mut out, "max", find_arg_expr(el, "max"));
    push_prop(&mut out, "step", find_arg_expr(el, "step"));
    let on_change = match find_arg_expr(el, "on_change") {
        Some(h) => Some(h),
        None => find_arg_expr(el, "on_input"),
    };
    push_onchange(&mut out, on_change);
    push_disabled(&mut out, el);
    out.append("}");
    out
}

} // verus!
