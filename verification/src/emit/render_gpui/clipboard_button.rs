//! Clipboard buttons in GPUI: a button that writes `copy_text` to the
//! clipboard when pressed.

use vstd::prelude::*;
use crate::ast::Element;
use crate::emit::common::{find_arg_expr, first_arg, has_arg, lemma_first_arg_some};
use super::{gp_all_ok, gp_child_calls, normal_calls, push_child_calls, push_normal_calls};

verus! {

/// A clipboard button: without `copy_text`, a `div` saying so; with it, a
/// styled button with its classes (no hover state) and children whose
/// mouse-down writes the text to the clipboard.
pub open spec fn gp_clipboard_button(el: Element) -> Seq<char>
    decreases el, 0int,
{
    match first_arg(el.args@, "copy_text"@) {
        None => "::gpui::div().child(\"clipboard_button: missing copy_text\")"@,
        Some(ct) => "::gpui::div().cursor_pointer().rounded(::gpui::px(6.0)).px(::gpui::px(8.0)).py(::gpui::px(8.0)).flex().items_center().justify_center().text_color(::gpui::white()).bg(::gpui::rgb(0x4e4e4e))"@
            + normal_calls(el) + gp_child_calls(el.children@)
            + ".on_mouse_down(::gpui::MouseButton::Left, move |_, _, cx| { cx.write_to_clipboard(::gpui::ClipboardItem::new_string( "@
            + ct.code@ + " .to_string())); } )"@,
    }
}

/// Emits a clipboard button.
pub fn emit_clipboard_button(el: &Element) -> (out: String)
    requires
        has_arg(el.args@, "copy_text"@) ==> gp_all_ok(el.children@),
    ensures
        out@ == gp_clipboard_button(*el),
    decreases el, 0int,
{
    proof { lemma_first_arg_some(el.args@, "copy_text"@); }
    let copy_text = match find_arg_expr(el, "copy_text") {
        Some(e) => e,
        None => {
            return String::from_str("::gpui::div().child(\"clipboard_button: missing copy_text\")");
        },
    };
    let mut out = String::from_str(
        "::gpui::div().cursor_pointer().rounded(::gpui::px(6.0)).px(::gpui::px(8.0)).py(::gpui::px(8.0)).flex().items_center().justify_center().text_color(::gpui::white()).bg(::gpui::rgb(0x4e4e4e))",
    );
    push_normal_calls(&mut out, el);
    push_child_calls(&mut out, &el.children);
    out.append(
        ".on_mouse_down(::gpui::MouseButton::Left, move |_, _, cx| { cx.write_to_clipboard(::gpui::ClipboardItem::new_string( ",
    );
    out.append(copy_text.code.as_str());
    out.append(" .to_string())); } )");
    out
}

} // verus!
