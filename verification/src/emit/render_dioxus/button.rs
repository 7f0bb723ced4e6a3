//! Buttons in Dioxus RSX.

use vstd::prelude::*;
use crate::ast::Element;
use crate::emit::common::{arg_string, find_arg_string};
use super::generic::{emit_html_el_inner, html_el};
use super::tooltip::{emit_hover_tip, hover_tip};

verus! {

/// A button: a plain `button` element, wrapped in a hover tooltip when it
/// has a string-literal `tooltip` argument.
pub open spec fn button(el: Element, kids: Seq<char>) -> Seq<char> {
    let inner = html_el(el, "button"@, kids);
    match arg_string(el.args@, "tooltip"@) {
        Some(text) => hover_tip("\"relative inline-flex\""@, inner, text@),
        None => inner,
    }
}

/// Emits a button.
pub fn emit_button(el: &Element, kids: &str) -> (out: String)
    ensures
        out@ == button(*el, kids@),
{
    let tooltip_text = find_arg_string(el, "tooltip");
    let inner_button = emit_html_el_inner(el, "button", kids);
    match tooltip_text {
        Some(text) => emit_hover_tip("\"relative inline-flex\"", inner_button.as_str(), text.as_str()),
        None => inner_button,
    }
}

} // verus!
