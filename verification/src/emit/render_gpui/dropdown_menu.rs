//! Dropdown menus in GPUI: the menu's code comes from the dropdown code
//! generator, which takes the trigger and the `item` children that have a
//! `label` and an `on_click`.

use vstd::prelude::*;
use crate::ast::{Element, RenderNode};
use crate::emit::common::{find_arg_expr, first_arg};
use crate::text::str_eq;

verus! {

/// One item of the menu: the code of its label and of its click handler.
pub struct MenuItemDef {
    pub label: String,
    pub on_click: String,
}

/// The item that a child makes: an `item` element with a `label` and an
/// `on_click`.
pub open spec fn menu_item_of(c: RenderNode) -> Option<(Seq<char>, Seq<char>)> {
    match c {
        RenderNode::Element(e) => if e.name@ == "item"@ {
            match (first_arg(e.args@, "label"@), first_arg(e.args@, "on_click"@)) {
                (Some(l), Some(h)) => Some((l.code@, h.code@)),
                _ => None,
            }
        } else {
            None
        },
        _ => None,
    }
}

/// The items that the children make, in order.
pub open spec fn menu_items_of(cs: Seq<RenderNode>) -> Seq<(Seq<char>, Seq<char>)>
    decreases cs.len(),
{
    if cs.len() == 0 {
        Seq::empty()
    } else {
        menu_items_of(cs.drop_last()) + match menu_item_of(cs.last()) {
            Some(x) => seq![x],
            None => Seq::empty(),
        }
    }
}

/// The items of a menu as the generator takes them.
pub open spec fn menu_defs_view(v: Seq<MenuItemDef>) -> Seq<(Seq<char>, Seq<char>)> {
    Seq::new(v.len(), |i: int| (v[i].label@, v[i].on_click@))
}

/// The items of a dropdown menu, in order.
pub fn dropdown_menu_items(el: &Element) -> (r: Vec<MenuItemDef>)
    ensures
        menu_defs_view(r@) == menu_items_of(el.children@),
{
    let mut r: Vec<MenuItemDef> = Vec::new();
    let n = el.children.len();
    let mut i: usize = 0;
    while i < n
        invariant
            n == el.children@.len(),
            i <= n,
            menu_defs_view(r@) == menu_items_of(el.children@.subrange(0, i as int)),
        decreases n - i,
    {
        let ghost after = el.children@.subrange(0, i + 1);
        assert(after.drop_last() =~= el.children@.subrange(0, i as int));
        assert(after.last() == el.children@[i as int]);
        let ghost before = r@;
        if let RenderNode::Element(e) = &el.children[i] {
            if str_eq(e.name.as_str(), "item") {
                match (find_arg_expr(e, "label"), find_arg_expr(e, "on_click")) {
                    (Some(l), Some(h)) => {
                        r.push(MenuItemDef { label: l.code.clone(), on_click: h.code.clone() });
                    },
                    _ => {},
                }
            }
        }
        assert(menu_defs_view(r@) =~= menu_defs_view(before) + match menu_item_of(el.children@[i as int]) {
            Some(x) => seq![x],
            None => Seq::empty(),
        });
        i = i + 1;
    }
    assert(el.children@.subrange(0, n as int) =~= el.children@);
    r
}

/// A dropdown menu: without a trigger, a `div` saying so; with one, the
/// code that the generator produced for it, or nothing when it was not
/// run.
pub open spec fn gp_dropdown_menu(el: Element) -> Seq<char>
    decreases el, 0int,
{
    match el.trigger_expr {
        None => "::gpui::div().child(\"dropdown: missing trigger\")"@,
        Some(_) => match el.generated {
            Some(g) => g@,
            None => Seq::empty(),
        },
    }
}

/// Emits a dropdown menu.
pub fn emit_dropdown_menu(el: &Element) -> (out: String)
    ensures
        out@ == gp_dropdown_menu(*el),
    decreases el, 0int,
{
    match &el.trigger_expr {
        None => String::from_str("::gpui::div().child(\"dropdown: missing trigger\")"),
        Some(_) => match &el.generated {
            Some(g) => g.clone(),
            None => String::new(),
        },
    }
}

} // verus!
