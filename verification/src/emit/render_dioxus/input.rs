//! Text inputs in Dioxus RSX.

use vstd::prelude::*;
use crate::ast::Element;
use super::generic::{emit_html_el_inner, html_el};

verus! {

/// A text input: a plain `input` element, whose `value` signal is bound to
/// what is typed unless it has an `on_input` handler.
pub open spec fn input(el: Element, kids: Seq<char>) -> Seq<char> {
    html_el(el, "input"@, kids)
}

/// Emits a text input.
pub fn emit_input(el: &Element, kids: &str) -> (out: String)
    ensures
        out@ == input(*el, kids@),
{
    emit_html_el_inner(el, "input", kids)
}

} // verus!
