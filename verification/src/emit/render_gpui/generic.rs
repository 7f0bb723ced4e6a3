//! Other elements in GPUI: a `div`, larger and bold for `h1` and `h2`, with
//! its classes, its children and its mouse handlers.

use vstd::prelude::*;
use crate::ast::Element;
use crate::text::str_eq;
use super::button::{mouse_call, push_mouse_call};
use super::{gp_all_ok, gp_child_calls, hover_call, normal_calls, push_child_calls, push_hover_call, push_normal_calls};

verus! {

/// The start of an element's chain by its name.
pub open spec fn generic_head(name: Seq<char>) -> Seq<char> {
    if name == "div"@ {
        "::gpui::div()"@
    } else if name == "h1"@ {
        "::gpui::div().text_xl().font_weight(::gpui::FontWeight::BOLD)"@
    } else if name == "h2"@ {
        "::gpui::div().text_lg().font_weight(::gpui::FontWeight::BOLD)"@
    } else {
        "::gpui::div()"@
    }
}

/// An element: its chain start, its classes, its `children` expression or
/// else its child nodes, then its `on_click` and its `on_mouse_down`
/// handlers.
pub open spec fn gp_generic(el: Element) -> Seq<char>
    decreases el, 0int,
{
    generic_head(el.name@) + normal_calls(el) + hover_call(el) + match el.children_expr {
        Some(ce) => ".children( "@ + ce.code@ + " )"@,
        None => gp_child_calls(el.children@),
    } + mouse_call(el, "on_click"@) + mouse_call(el, "on_mouse_down"@)
}

/// Emits an element by the generic rule.
pub fn emit_generic_element(el: &Element) -> (out: String)
    requires
        el.children_expr is None ==> gp_all_ok(el.children@),
    ensures
        out@ == gp_generic(*el),
    decreases el, 0int,
{
    let name = el.name.as_str();
    let mut out = if str_eq(name, "div") {
        String::from_str("::gpui::div()")
    } else if str_eq(name, "h1") {
        String::from_str("::gpui::div().text_xl().font_weight(::gpui::FontWeight::BOLD)")
    } else if str_eq(name, "h2") {
        String::from_str("::gpui::div().text_lg().font_weight(::gpui::FontWeight::BOLD)")
    } else {
        String::from_str("::gpui::div()")
    };
    push_normal_calls(&mut out, el);
    push_hover_call(&mut out, el);
    match &el.children_expr {
        Some(ce) => {
            out.append(".children( ");
            out.append(ce.code.as_str());
            out.append(" )");
        },
        None => push_child_calls(&mut out, &el.children),
    }
    push_mouse_call(&mut out, el, "on_click");
    push_mouse_call(&mut out, el, "on_mouse_down");
    out
}

} // verus!
