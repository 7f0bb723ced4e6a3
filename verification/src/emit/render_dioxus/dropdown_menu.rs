//! Dropdown menus in Dioxus RSX.

use vstd::prelude::*;
use crate::ast::{Element, RenderNode};
use crate::emit::common::{arg_true, find_arg_bool, find_arg_expr, first_arg};
use crate::text::{str_eq, string_literal, string_literal_of};
use super::expr_child;
use super::handler::{dioxus_handler, wrap_dioxus_handler};

verus! {

/// One item of the menu: an `item` element with a `label` and an
/// `on_click` handler; a `checked` item shows a check mark.
pub open spec fn menu_item(c: RenderNode) -> Seq<char> {
    match c {
        RenderNode::Element(e) => if e.name@ == "item"@ {
            match (first_arg(e.args@, "label"@), first_arg(e.args@, "on_click"@)) {
                (Some(label), Some(on_click)) => {
                    let mark = if arg_true(e.args@, "checked"@) {
                        "\u{2713} "@
                    } else {
                        ""@
                    };
                    "div { class: \"px-3 py-2 cursor-pointer text-white hover:bg-gray-600 flex items-center\", onclick: { let __item_handler = "@
                        + dioxus_handler(on_click)
                        + "; move |ev: dioxus::prelude::Event<dioxus::prelude::MouseData>| { ev.stop_propagation(); __open.set(false); __item_handler(ev); } }, "@
                        + string_literal(mark) + " "@ + label.code@ + " } "@
                },
                _ => Seq::empty(),
            }
        } else {
            Seq::empty()
        },
        _ => Seq::empty(),
    }
}

/// The items of the menu, in order.
pub open spec fn menu_items(cs: Seq<RenderNode>) -> Seq<char>
    decreases cs.len(),
{
    if cs.len() == 0 {
        Seq::empty()
    } else {
        menu_items(cs.drop_last()) + menu_item(cs.last())
    }
}

/// A dropdown menu: the trigger toggles a panel of items, and choosing an
/// item closes it.
pub open spec fn dropdown_menu(el: Element) -> Seq<char> {
    match el.trigger_expr {
        None => "div { \"dropdown: missing trigger\" }"@,
        Some(t) => "{ let mut __open = dioxus::prelude::use_signal(|| false); dioxus::prelude::rsx! { div { class: \"relative inline-block\", onclick: move |ev: dioxus::prelude::Event<dioxus::prelude::MouseData>| { ev.stop_propagation(); __open.toggle(); }, "@
            + expr_child(t)
            + ", if *__open.read() { div { class: \"absolute top-full left-0 z-50 min-w-32 rounded-md border border-gray-700 bg-gray-800 py-1 shadow-lg\", onclick: move |ev: dioxus::prelude::Event<dioxus::prelude::MouseData>| { ev.stop_propagation(); }, onmousedown: move |ev: dioxus::prelude::Event<dioxus::prelude::MouseData>| { ev.prevent_default(); }, "@
            + menu_items(el.children@) + "} } } } }"@,
    }
}

fn push_menu_item(out: &mut String, c: &RenderNode)
    ensures
        final(out)@ == old(out)@ + menu_item(*c),
{
    if let RenderNode::Element(e) = c {
        if str_eq(e.name.as_str(), "item") {
            match find_arg_expr(e, "label") {
                Some(label) => match find_arg_expr(e, "on_click") {
                    Some(on_click) => {
                        let checked = find_arg_bool(e, "checked");
                        let handler = wrap_dioxus_handler(on_click);
                        let mark = if checked {
                            string_literal_of("\u{2713} ")
                        } else {
                            string_literal_of("")
                        };
                        out.append(
                            "div { class: \"px-3 py-2 cursor-pointer text-white hover:bg-gray-600 flex items-center\", onclick: { let __item_handler = ",
                        );
                        out.append(handler.as_str());
                        out.append(
                            "; move |ev: dioxus::prelude::Event<dioxus::prelude::MouseData>| { ev.stop_propagation(); __open.set(false); __item_handler(ev); } }, ",
                        );
                        out.append(mark.as_str());
                        out.append(" ");
                        out.append(label.code.as_str());
                        out.append(" } ");
                        return;
                    },
                    None => {},
                },
                None => {},
            }
        }
    }
    assert(final(out)@ =~= old(out)@ + menu_item(*c));
}

/// Emits a dropdown menu.
pub fn emit_dropdown_menu(el: &Element) -> (out: String)
    ensures
        out@ == dropdown_menu(*el),
{
    let trigger_expr = match &el.trigger_expr {
        Some(e) => e,
        None => return String::from_str("div { \"dropdown: missing trigger\" }"),
    };
    let mut out = String::from_str(
        "{ let mut __open = dioxus::prelude::use_signal(|| false); dioxus::prelude::rsx! { div { class: \"relative inline-block\", onclick: move |ev: dioxus::prelude::Event<dioxus::prelude::MouseData>| { ev.stop_propagation(); __open.toggle(); }, ",
    );
    out.append("{ ");
    out.append(trigger_expr.code.as_str());
    out.append(" }");
    out.append(
        ", if *__open.read() { div { class: \"absolute top-full left-0 z-50 min-w-32 rounded-md border border-gray-700 bg-gray-800 py-1 shadow-lg\", onclick: move |ev: dioxus::prelude::Event<dioxus::prelude::MouseData>| { ev.stop_propagation(); }, onmousedown: move |ev: dioxus::prelude::Event<dioxus::prelude::MouseData>| { ev.prevent_default(); }, ",
    );
    let ghost start = out@;
    let n = el.children.len();
    let mut i: usize = 0;
    while i < n
        invariant
            n == el.children@.len(),
            i <= n,
            out@ == start + menu_items(el.children@.subrange(0, i as int)),
        decreases n - i,
    {
        let ghost after = el.children@.subrange(0, i + 1);
        assert(after.drop_last() =~= el.children@.subrange(0, i as int));
        assert(after.last() == el.children@[i as int]);
        push_menu_item(&mut out, &el.children[i]);
        i = i + 1;
        assert(out@ =~= start + menu_items(el.children@.subrange(0, i as int)));
    }
    assert(el.children@.subrange(0, n as int) =~= el.children@);
    out.append("} } } } }");
    assert(out@ =~= dropdown_menu(*el));
    out
}

} // verus!
