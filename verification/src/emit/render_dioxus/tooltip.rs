//! Tooltips in Dioxus RSX.

use vstd::prelude::*;
use crate::ast::Element;
use crate::emit::common::{arg_string, find_arg_string};
use crate::text::{string_literal, string_literal_of};
use super::expr_child;

verus! {

/// The tooltip text of an element: its string-literal `text` argument, or
/// nothing.
pub open spec fn tip_text(el: Element) -> Seq<char> {
    match arg_string(el.args@, "text"@) {
        Some(t) => t@,
        None => Seq::empty(),
    }
}

/// The hover wrapper that shows `text` above `trigger`, with `wrapper_class`
/// the class of the wrapping `div`.
pub open spec fn hover_tip(wrapper_class: Seq<char>, trigger: Seq<char>, text: Seq<char>) -> Seq<char> {
    "{ let mut __tip_open = dioxus::prelude::use_signal(|| false); dioxus::prelude::rsx! { div { class: "@
        + wrapper_class
        + ", onmouseenter: move |_| __tip_open.set(true), onmouseleave: move |_| __tip_open.set(false), "@
        + trigger
        + ", if *__tip_open.read() { div { class: \"absolute bottom-full left-1/2 -translate-x-1/2 mb-2 px-2 py-1 text-xs rounded bg-gray-800 text-white whitespace-nowrap shadow-lg z-50\", "@
        + string_literal(text) + " } } } } }"@
}

/// Emits the hover wrapper that shows `text` above `trigger`.
pub fn emit_hover_tip(wrapper_class: &str, trigger: &str, text: &str) -> (out: String)
    ensures
        out@ == hover_tip(wrapper_class@, trigger@, text@),
{
    let mut out = String::from_str(
        "{ let mut __tip_open = dioxus::prelude::use_signal(|| false); dioxus::prelude::rsx! { div { class: ",
    );
    out.append(wrapper_class);
    out.append(
        ", onmouseenter: move |_| __tip_open.set(true), onmouseleave: move |_| __tip_open.set(false), ",
    );
    out.append(trigger);
    out.append(
        ", if *__tip_open.read() { div { class: \"absolute bottom-full left-1/2 -translate-x-1/2 mb-2 px-2 py-1 text-xs rounded bg-gray-800 text-white whitespace-nowrap shadow-lg z-50\", ",
    );
    let lit = string_literal_of(text);
    out.append(lit.as_str());
    out.append(" } } } } }");
    out
}

/// A tooltip: a `title` span without a trigger, a hover wrapper around the
/// trigger with one.
pub open spec fn tooltip(el: Element) -> Seq<char> {
    let text = tip_text(el);
    match el.trigger_expr {
        None => "span { title: "@ + string_literal(text) + " } { "@ + string_literal(text) + " }"@,
        Some(t) => hover_tip("\"relative inline-block\""@, expr_child(t), text),
    }
}

/// Emits a tooltip.
pub fn emit_tooltip(el: &Element) -> (out: String)
    ensures
        out@ == tooltip(*el),
{
    let text = match find_arg_string(el, "text") {
        Some(t) => t,
        None => String::new(),
    };
    match &el.trigger_expr {
        None => {
            let lit = string_literal_of(text.as_str());
            let mut out = String::from_str("span { title: ");
            out.append(lit.as_str());
            out.append(" } { ");
            out.append(lit.as_str());
            out.append(" }");
            out
        },
        Some(t) => {
            let mut trigger = String::from_str("{ ");
            trigger.append(t.code.as_str());
            trigger.append(" }");
            emit_hover_tip("\"relative inline-block\"", trigger.as_str(), text.as_str())
        },
    }
}

} // verus!
