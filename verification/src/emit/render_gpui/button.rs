//! Buttons in GPUI: a styled `div` with a background by its variant.

use vstd::prelude::*;
use crate::ast::Element;
use crate::emit::common::{arg_true, find_arg_bool, find_arg_expr, first_arg};
use super::handler::{gpui_handler, wrap_handler};
use super::{gp_all_ok, gp_child_calls, hover_call, normal_calls, push_child_calls, push_hover_call, push_normal_calls};

verus! {

/// A `.on_mouse_down(..)` call for the element's handler under `key`;
/// nothing without one.
pub open spec fn mouse_call(el: Element, key: Seq<char>) -> Seq<char> {
    match first_arg(el.args@, key) {
        Some(h) => ".on_mouse_down(::gpui::MouseButton::Left, "@ + gpui_handler(h) + " )"@,
        None => Seq::empty(),
    }
}

/// Appends the `.on_mouse_down(..)` call for the element's handler under
/// `key`.
pub fn push_mouse_call(out: &mut String, el: &Element, key: &str)
    ensures
        final(out)@ == old(out)@ + mouse_call(*el, key@),
{
    let ghost start = out@;
    match find_arg_expr(el, key) {
        Some(h) => {
            out.append(".on_mouse_down(::gpui::MouseButton::Left, ");
            out.append(wrap_handler(h).as_str());
            out.append(" )");
        },
        None => {},
    }
    assert(out@ =~= start + mouse_call(*el, key@));
}

/// The background of a button: blue when `primary`, red when
/// `destructive`, none when `ghost`, grey otherwise.
pub open spec fn button_bg(el: Element) -> Seq<char> {
    if arg_true(el.args@, "primary"@) {
        ".bg(::gpui::rgb(0x2563eb))"@
    } else if arg_true(el.args@, "destructive"@) {
        ".bg(::gpui::rgb(0xdc2626))"@
    } else if !arg_true(el.args@, "ghost"@) {
        ".bg(::gpui::rgb(0x4e4e4e))"@
    } else {
        Seq::empty()
    }
}

/// A button: its background, its classes, its children and its click
/// handler.
pub open spec fn gp_button(el: Element) -> Seq<char>
    decreases el, 0int,
{
    "::gpui::div().cursor_pointer().rounded(::gpui::px(6.0)).px(::gpui::px(8.0)).py(::gpui::px(8.0)).flex().items_center().justify_center().text_color(::gpui::white())"@
        + button_bg(el) + normal_calls(el) + hover_call(el) + gp_child_calls(el.children@)
        + mouse_call(el, "on_click"@)
}

/// Emits a button.
pub fn emit_button(el: &Element) -> (out: String)
    requires
        gp_all_ok(el.children@),
    ensures
        out@ == gp_button(*el),
    decreases el, 0int,
{
    let mut out = String::from_str(
        "::gpui::div().cursor_pointer().rounded(::gpui::px(6.0)).px(::gpui::px(8.0)).py(::gpui::px(8.0)).flex().items_center().justify_center().text_color(::gpui::white())",
    );
    let primary = find_arg_bool(el, "primary");
    let ghost_variant = find_arg_bool(el, "ghost");
    let destructive = find_arg_bool(el, "destructive");
    if primary {
        out.append(".bg(::gpui::rgb(0x2563eb))");
    } else if destructive {
        out.append(".bg(::gpui::rgb(0xdc2626))");
    } else if !ghost_variant {
        out.append(".bg(::gpui::rgb(0x4e4e4e))");
    }
    push_normal_calls(&mut out, el);
    push_hover_call(&mut out, el);
    push_child_calls(&mut out, &el.children);
    push_mouse_call(&mut out, el, "on_click");
    out
}

} // verus!
