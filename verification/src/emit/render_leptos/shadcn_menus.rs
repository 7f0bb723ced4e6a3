//! Tab bars and dropdown menus built from `leptos_shadcn_ui` components.

use vstd::prelude::*;
use crate::ast::{Element, RenderNode};
use crate::emit::common::{find_arg_expr, first_arg, has_arg, lemma_first_arg_some};
use crate::text::str_eq;
use super::shadcn::{emit_import, import};
use super::{ExtractIds, Out, emit_expr, event_handler, expr_code, produced, wrap_event_handler};

verus! {

/// One trigger of the tab list: a `tab` element with a `label` and an
/// `index`, under the trigger alias `trig`.
pub open spec fn sh_tab_trigger(c: RenderNode, trig: Seq<char>) -> Seq<char> {
    match c {
        RenderNode::Element(e) => if e.name@ == "tab"@ {
            match (first_arg(e.args@, "label"@), first_arg(e.args@, "index"@)) {
                (Some(label), Some(index)) => "< "@ + trig + " value={ "@ + index.code@
                    + ".to_string() } class=\"text-white\">{ "@ + label.code@ + " }</ "@ + trig + " > "@,
                _ => Seq::empty(),
            }
        } else {
            Seq::empty()
        },
        _ => Seq::empty(),
    }
}

/// The triggers of the tab list, in order.
pub open spec fn sh_tab_triggers(cs: Seq<RenderNode>, trig: Seq<char>) -> Seq<char>
    decreases cs.len(),
{
    if cs.len() == 0 {
        Seq::empty()
    } else {
        sh_tab_triggers(cs.drop_last(), trig) + sh_tab_trigger(cs.last(), trig)
    }
}

/// A tab bar: the `Tabs`, `TabsList` and `TabsTrigger` components bound in
/// that order; the active tab's index is derived as a string and a chosen
/// tab's index, parsed back, goes to `on_click`. The element needs an
/// `active` and an `on_click` argument.
pub open spec fn lp_sh_tabs(el: Element, n: usize) -> Out {
    let t = import("Tabs_"@, "leptos_shadcn_ui::Tabs"@, n);
    let l = import("TabsList_"@, "leptos_shadcn_ui::TabsList"@, t.next);
    let r = import("TabsTrigger_"@, "leptos_shadcn_ui::TabsTrigger"@, l.next);
    let active = first_arg(el.args@, "active"@).unwrap();
    let on_click = first_arg(el.args@, "on_click"@).unwrap();
    Out {
        code: "< "@ + t.code + " value={leptos::prelude::Signal::derive(move || ( "@ + active.code@
            + " ).to_string())} on_value_change={ let __on_click = "@ + event_handler(on_click)
            + "; move |val: String| { if let Ok(idx) = val.parse::<usize>() { __on_click(idx); } } } > < "@
            + l.code + " > "@ + sh_tab_triggers(el.children@, r.code) + "</ "@ + l.code + " > </ "@ + t.code
            + " >"@,
        binds: t.binds + l.binds + r.binds,
        next: r.next,
    }
}

fn push_sh_tab_trigger(out: &mut String, c: &RenderNode, trig: &str)
    ensures
        final(out)@ == old(out)@ + sh_tab_trigger(*c, trig@),
{
    if let RenderNode::Element(e) = c {
        if str_eq(e.name.as_str(), "tab") {
            match find_arg_expr(e, "label") {
                Some(label) => match find_arg_expr(e, "index") {
                    Some(index) => {
                        out.append("< ");
                        out.append(trig);
                        out.append(" value={ ");
                        out.append(index.code.as_str());
                        out.append(".to_string() } class=\"text-white\">{ ");
                        out.append(label.code.as_str());
                        out.append(" }</ ");
                        out.append(trig);
                        out.append(" > ");
                        return;
                    },
                    None => {},
                },
                None => {},
            }
        }
    }
    assert(final(out)@ =~= old(out)@ + sh_tab_trigger(*c, trig@));
}

/// Emits a tab bar.
pub fn emit_sh_tabs(el: &Element, bindings: &mut String, ids: &mut ExtractIds) -> (out: String)
    requires
        has_arg(el.args@, "active"@),
        has_arg(el.args@, "on_click"@),
    ensures
        produced(lp_sh_tabs(*el, old(ids).next), out@, old(bindings)@, final(bindings)@, final(ids).next),
{
    proof {
        lemma_first_arg_some(el.args@, "active"@);
        lemma_first_arg_some(el.args@, "on_click"@);
    }
    let ghost b0 = bindings@;
    let ghost n0 = ids.next;
    let active_expr = find_arg_expr(el, "active").unwrap();
    let on_click_expr = find_arg_expr(el, "on_click").unwrap();
    let wrapped = wrap_event_handler(on_click_expr);
    let tabs = emit_import("Tabs_", "leptos_shadcn_ui::Tabs", bindings, ids);
    let list = emit_import("TabsList_", "leptos_shadcn_ui::TabsList", bindings, ids);
    let trig = emit_import("TabsTrigger_", "leptos_shadcn_ui::TabsTrigger", bindings, ids);
    let mut triggers = String::new();
    let n = el.children.len();
    let mut i: usize = 0;
    while i < n
        invariant
            n == el.children@.len(),
            i <= n,
            triggers@ == sh_tab_triggers(el.children@.subrange(0, i as int), trig@),
        decreases n - i,
    {
        let ghost after = el.children@.subrange(0, i + 1);
        assert(after.drop_last() =~= el.children@.subrange(0, i as int));
        assert(after.last() == el.children@[i as int]);
        push_sh_tab_trigger(&mut triggers, &el.children[i], trig.as_str());
        i = i + 1;
    }
    assert(el.children@.subrange(0, n as int) =~= el.children@);
    let mut out = String::from_str("< ");
    out.append(tabs.as_str());
    out.append(" value={leptos::prelude::Signal::derive(move || ( ");
    out.append(active_expr.code.as_str());
    out.append(" ).to_string())} on_value_change={ let __on_click = ");
    out.append(wrapped.as_str());
    out.append("; move |val: String| { if let Ok(idx) = val.parse::<usize>() { __on_click(idx); } } } > < ");
    out.append(list.as_str());
    out.append(" > ");
    out.append(triggers.as_str());
    out.append("</ ");
    out.append(list.as_str());
    out.append(" > </ ");
    out.append(tabs.as_str());
    out.append(" >");
    proof {
        let o = lp_sh_tabs(*el, n0);
        assert(bindings@ =~= b0 + o.binds);
        assert(out@ =~= o.code);
    }
    out
}

/// One item of the menu: an `item` element with a `label` and an
/// `on_click` handler, under the item alias `item`.
pub open spec fn sh_menu_item(c: RenderNode, item: Seq<char>) -> Seq<char> {
    match c {
        RenderNode::Element(e) => if e.name@ == "item"@ {
            match (first_arg(e.args@, "label"@), first_arg(e.args@, "on_click"@)) {
                (Some(label), Some(on_click)) => "< "@ + item + " on_click={ "@ + event_handler(on_click)
                    + " } >{ "@ + label.code@ + " }</ "@ + item + " > "@,
                _ => Seq::empty(),
            }
        } else {
            Seq::empty()
        },
        _ => Seq::empty(),
    }
}

/// The items of the menu, in order.
pub open spec fn sh_menu_items(cs: Seq<RenderNode>, item: Seq<char>) -> Seq<char>
    decreases cs.len(),
{
    if cs.len() == 0 {
        Seq::empty()
    } else {
        sh_menu_items(cs.drop_last(), item) + sh_menu_item(cs.last(), item)
    }
}

/// A dropdown menu: without a trigger, a placeholder; with one, the menu,
/// trigger, content and item components bound in that order, the trigger
/// in the menu's trigger and the items in its content.
pub open spec fn lp_sh_dropdown_menu(el: Element, n: usize, inside_for: bool) -> Out {
    match el.trigger_expr {
        None => Out { code: "<div>dropdown: missing trigger</div>"@, binds: Seq::empty(), next: n },
        Some(t) => {
            let m = import("DropdownMenu_"@, "leptos_shadcn_ui::DropdownMenu"@, n);
            let tr = import("DropdownMenuTrigger_"@, "leptos_shadcn_ui::DropdownMenuTrigger"@, m.next);
            let c = import("DropdownMenuContent_"@, "leptos_shadcn_ui::DropdownMenuContent"@, tr.next);
            let it = import("DropdownMenuItem_"@, "leptos_shadcn_ui::DropdownMenuItem"@, c.next);
            Out {
                code: "< "@ + m.code + " > < "@ + tr.code + " > { "@ + expr_code(t, inside_for) + " } </ "@
                    + tr.code + " > < "@ + c.code + " > "@ + sh_menu_items(el.children@, it.code) + "</ "@
                    + c.code + " > </ "@ + m.code + " >"@,
                binds: m.binds + tr.binds + c.binds + it.binds,
                next: it.next,
            }
        },
    }
}

fn push_sh_menu_item(out: &mut String, c: &RenderNode, item: &str)
    ensures
        final(out)@ == old(out)@ + sh_menu_item(*c, item@),
{
    if let RenderNode::Element(e) = c {
        if str_eq(e.name.as_str(), "item") {
            match find_arg_expr(e, "label") {
                Some(label) => match find_arg_expr(e, "on_click") {
                    Some(on_click) => {
                        let handler = wrap_event_handler(on_click);
                        out.append("< ");
                        out.append(item);
                        out.append(" on_click={ ");
                        out.append(handler.as_str());
                        out.append(" } >{ ");
                        out.append(label.code.as_str());
                        out.append(" }</ ");
                        out.append(item);
                        out.append(" > ");
                        return;
                    },
                    None => {},
                },
                None => {},
            }
        }
    }
    assert(final(out)@ =~= old(out)@ + sh_menu_item(*c, item@));
}

/// Emits a dropdown menu.
pub fn emit_sh_dropdown_menu(el: &Element, bindings: &mut String, inside_for: bool, ids: &mut ExtractIds) -> (out: String)
    ensures
        produced(lp_sh_dropdown_menu(*el, old(ids).next, inside_for), out@, old(bindings)@, final(bindings)@, final(ids).next),
{
    let ghost b0 = bindings@;
    let ghost n0 = ids.next;
    let trigger_expr = match &el.trigger_expr {
        Some(e) => e,
        None => {
            assert(bindings@ =~= b0 + Seq::<char>::empty());
            return String::from_str("<div>dropdown: missing trigger</div>");
        },
    };
    let menu = emit_import("DropdownMenu_", "leptos_shadcn_ui::DropdownMenu", bindings, ids);
    let trig = emit_import("DropdownMenuTrigger_", "leptos_shadcn_ui::DropdownMenuTrigger", bindings, ids);
    let content = emit_import("DropdownMenuContent_", "leptos_shadcn_ui::DropdownMenuContent", bindings, ids);
    let item = emit_import("DropdownMenuItem_", "leptos_shadcn_ui::DropdownMenuItem", bindings, ids);
    let mut items = String::new();
    let n = el.children.len();
    let mut i: usize = 0;
    while i < n
        invariant
            n == el.children@.len(),
            i <= n,
            items@ == sh_menu_items(el.children@.subrange(0, i as int), item@),
        decreases n - i,
    {
        let ghost after = el.children@.subrange(0, i + 1);
        assert(after.drop_last() =~= el.children@.subrange(0, i as int));
        assert(after.last() == el.children@[i as int]);
        push_sh_menu_item(&mut items, &el.children[i], item.as_str());
        i = i + 1;
    }
    assert(el.children@.subrange(0, n as int) =~= el.children@);
    let trigger = emit_expr(trigger_expr, inside_for);
    let mut out = String::from_str("< ");
    out.append(menu.as_str());
    out.append(" > < ");
    out.append(trig.as_str());
    out.append(" > { ");
    out.append(trigger.as_str());
    out.append(" } </ ");
    out.append(trig.as_str());
    out.append(" > < ");
    out.append(content.as_str());
    out.append(" > ");
    out.append(items.as_str());
    out.append("</ ");
    out.append(content.as_str());
    out.append(" > </ ");
    out.append(menu.as_str());
    out.append(" >");
    proof {
        let o = lp_sh_dropdown_menu(*el, n0, inside_for);
        assert(bindings@ =~= b0 + o.binds);
        assert(out@ =~= o.code);
    }
    out
}

} // verus!
