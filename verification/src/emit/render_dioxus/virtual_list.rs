//! Lists in Dioxus RSX. All items are rendered into a scrolling container;
//! `estimated_height` sets the container's height and does not limit which
//! items are rendered.

use vstd::prelude::*;
use crate::ast::Element;
use crate::emit::common::{arg_f32, find_arg_f32};
use crate::text::{string_literal, string_literal_of};

verus! {

/// The CSS style of the list's container.
pub open spec fn list_style(el: Element) -> Seq<char> {
    match arg_f32(el.args@, "estimated_height"@) {
        Some(h) => "overflow-y: auto; height: "@ + h.display@ + "px"@,
        None => "overflow-y: auto"@,
    }
}

/// A list: a scrolling `div` holding the child nodes, whose RSX is `kids`.
pub open spec fn virtual_list(el: Element, kids: Seq<char>) -> Seq<char> {
    "div { style: "@ + string_literal(list_style(el)) + ", "@ + kids + "}"@
}

/// Emits a list.
pub fn emit_virtual_list(el: &Element, kids: &str) -> (out: String)
    ensures
        out@ == virtual_list(*el, kids@),
{
    let style = match find_arg_f32(el, "estimated_height") {
        Some(h) => {
            let mut s = String::from_str("overflow-y: auto; height: ");
            s.append(h.display.as_str());
            s.append("px");
            s
        },
        None => String::from_str("overflow-y: auto"),
    };
    let lit = string_literal_of(style.as_str());
    let mut out = String::from_str("div { style: ");
    out.append(lit.as_str());
    out.append(", ");
    out.append(kids);
    out.append("}");
    out
}

} // verus!
