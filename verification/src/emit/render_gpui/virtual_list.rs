//! Virtual lists in GPUI: the list's code comes from the virtual-list code
//! generator, which takes the `items` expression, the estimated row height
//! (32 when not given), the list's `id` (`virtual-list` when not given) and
//! the row renderer built here from the child nodes.

use vstd::prelude::*;
use crate::ast::Element;
use super::{emit_nodes, gp_all_ok, gp_nodes};

verus! {

/// The row renderer of a virtual list: a `div` of the child nodes as an
/// `AnyElement`.
pub open spec fn virtual_list_item_render(el: Element) -> Seq<char> {
    gp_nodes(el.children@) + ".into_any_element()"@
}

/// Emits the row renderer of a virtual list.
pub fn emit_virtual_list_item_render(el: &Element) -> (out: String)
    requires
        gp_all_ok(el.children@),
    ensures
        out@ == virtual_list_item_render(*el),
{
    let mut out = emit_nodes(&el.children);
    out.append(".into_any_element()");
    out
}

/// A virtual list: the code that the generator produced for it, or nothing
/// when it was not run.
pub open spec fn gp_virtual_list(el: Element) -> Seq<char>
    decreases el, 0int,
{
    match el.generated {
        Some(g) => g@,
        None => Seq::empty(),
    }
}

/// Emits a virtual list.
pub fn emit_virtual_list(el: &Element) -> (out: String)
    ensures
        out@ == gp_virtual_list(*el),
    decreases el, 0int,
{
    match &el.generated {
        Some(g) => g.clone(),
        None => String::new(),
    }
}

} // verus!
