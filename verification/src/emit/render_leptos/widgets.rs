//! Tooltips, tab bars, dropdown menus, data tables, highlighted text and
//! icons in Leptos `view!` markup.

use vstd::prelude::*;
use crate::ast::{Element, Expr, RenderNode};
use crate::emit::common::{arg_string, arg_true, call_args, closure_param_idents, closure_params, find_arg_bool, find_arg_expr, find_arg_string, first_arg, has_arg, lemma_first_arg_some, param_bindings, push_call_args, push_param_bindings};
use crate::text::{str_eq, string_literal, string_literal_of};
use super::{ExtractIds, Out, emit_expr, event_handler, expr_code, id_name, make_id_name, next_extract_id, next_id, produced, wrap_event_handler};

verus! {

/// The tooltip text of an element: its string-literal `text` argument, or
/// nothing.
pub open spec fn tip_text(el: Element) -> Seq<char> {
    match arg_string(el.args@, "text"@) {
        Some(t) => t@,
        None => Seq::empty(),
    }
}

/// The group-hover wrapper that shows `text` above `inner`.
pub open spec fn hover_group(inner: Seq<char>, text: Seq<char>) -> Seq<char> {
    "<div class=\"relative inline-block group\"> "@ + inner
        + " <div class=\"absolute bottom-full left-1/2 -translate-x-1/2 mb-2 px-2 py-1 text-xs rounded bg-gray-800 text-white whitespace-nowrap shadow-lg z-50 hidden group-hover:block\"> { "@
        + string_literal(text) + " } </div> </div>"@
}

/// Emits the group-hover wrapper that shows `text` above `inner`.
pub fn emit_hover_group(inner: &str, text: &str) -> (out: String)
    ensures
        out@ == hover_group(inner@, text@),
{
    let mut out = String::from_str("<div class=\"relative inline-block group\"> ");
    out.append(inner);
    out.append(
        " <div class=\"absolute bottom-full left-1/2 -translate-x-1/2 mb-2 px-2 py-1 text-xs rounded bg-gray-800 text-white whitespace-nowrap shadow-lg z-50 hidden group-hover:block\"> { ",
    );
    let lit = string_literal_of(text);
    out.append(lit.as_str());
    out.append(" } </div> </div>");
    out
}

/// A tooltip: a `title` span without a trigger, a group-hover wrapper
/// around the trigger with one.
pub open spec fn lp_tooltip(el: Element, inside_for: bool) -> Seq<char> {
    let text = tip_text(el);
    match el.trigger_expr {
        None => "<span title={ "@ + string_literal(text) + " }>{ "@ + string_literal(text) + " }</span>"@,
        Some(t) => hover_group("{ "@ + expr_code(t, inside_for) + " }"@, text),
    }
}

/// Emits a tooltip.
pub fn emit_tooltip(el: &Element, inside_for: bool) -> (out: String)
    ensures
        out@ == lp_tooltip(*el, inside_for),
{
    let text = match find_arg_string(el, "text") {
        Some(t) => t,
        None => String::new(),
    };
    match &el.trigger_expr {
        None => {
            let lit = string_literal_of(text.as_str());
            let mut out = String::from_str("<span title={ ");
            out.append(lit.as_str());
            out.append(" }>{ ");
            out.append(lit.as_str());
            out.append(" }</span>");
            out
        },
        Some(t) => {
            let trigger = emit_expr(t, inside_for);
            let mut inner = String::from_str("{ ");
            inner.append(trigger.as_str());
            inner.append(" }");
            emit_hover_group(inner.as_str(), text.as_str())
        },
    }
}

/// One tab of the list: a `tab` element with a `label` and an `index`.
pub open spec fn tab_item(c: RenderNode, active: Expr, on_click: Expr) -> Seq<char> {
    match c {
        RenderNode::Element(e) => if e.name@ == "tab"@ {
            match (first_arg(e.args@, "label"@), first_arg(e.args@, "index"@)) {
                (Some(label), Some(index)) => {
                    let params = closure_params(on_click);
                    "<li class={move || if "@ + index.code@ + " == "@ + active.code@
                        + " { \"active\" } else { \"\" }} on:click={ "@ + param_bindings(
                        params,
                        index.code@,
                    ) + "let __tab_on_click = "@ + event_handler(on_click)
                        + "; move |_| { __tab_on_click( "@ + call_args(params) + ") } } >{ "@
                        + label.code@ + " }</li> "@
                },
                _ => Seq::empty(),
            }
        } else {
            Seq::empty()
        },
        _ => Seq::empty(),
    }
}

/// The tabs of the list, in order.
pub open spec fn tab_items(cs: Seq<RenderNode>, active: Expr, on_click: Expr) -> Seq<char>
    decreases cs.len(),
{
    if cs.len() == 0 {
        Seq::empty()
    } else {
        tab_items(cs.drop_last(), active, on_click) + tab_item(cs.last(), active, on_click)
    }
}

/// A tab bar; the element needs an `active` and an `on_click` argument.
pub open spec fn lp_tabs(el: Element) -> Seq<char> {
    "<ul class=\"tabs\"> "@ + tab_items(
        el.children@,
        first_arg(el.args@, "active"@).unwrap(),
        first_arg(el.args@, "on_click"@).unwrap(),
    ) + "</ul>"@
}

fn push_tab_item(out: &mut String, c: &RenderNode, active: &Expr, on_click: &Expr, params: &Vec<String>, wrapped: &String)
    requires
        params@ == closure_params(*on_click),
        wrapped@ == event_handler(*on_click),
    ensures
        final(out)@ == old(out)@ + tab_item(*c, *active, *on_click),
{
    if let RenderNode::Element(e) = c {
        if str_eq(e.name.as_str(), "tab") {
            match find_arg_expr(e, "label") {
                Some(label) => match find_arg_expr(e, "index") {
                    Some(index) => {
                        out.append("<li class={move || if ");
                        out.append(index.code.as_str());
                        out.append(" == ");
                        out.append(active.code.as_str());
                        out.append(" { \"active\" } else { \"\" }} on:click={ ");
                        push_param_bindings(out, params, index.code.as_str());
                        out.append("let __tab_on_click = ");
                        out.append(wrapped.as_str());
                        out.append("; move |_| { __tab_on_click( ");
                        push_call_args(out, params);
                        out.append(") } } >{ ");
                        out.append(label.code.as_str());
                        out.append(" }</li> ");
                        return;
                    },
                    None => {},
                },
                None => {},
            }
        }
    }
    assert(final(out)@ =~= old(out)@ + tab_item(*c, *active, *on_click));
}

/// Emits a tab bar.
pub fn emit_tabs(el: &Element) -> (out: String)
    requires
        has_arg(el.args@, "active"@),
        has_arg(el.args@, "on_click"@),
    ensures
        out@ == lp_tabs(*el),
{
    proof {
        lemma_first_arg_some(el.args@, "active"@);
        lemma_first_arg_some(el.args@, "on_click"@);
    }
    let active_expr = find_arg_expr(el, "active").unwrap();
    let on_click_expr = find_arg_expr(el, "on_click").unwrap();
    let params = closure_param_idents(on_click_expr);
    let wrapped = wrap_event_handler(on_click_expr);
    let mut out = String::from_str("<ul class=\"tabs\"> ");
    let ghost start = out@;
    let n = el.children.len();
    let mut i: usize = 0;
    while i < n
        invariant
            n == el.children@.len(),
            i <= n,
            params@ == closure_params(*on_click_expr),
            wrapped@ == event_handler(*on_click_expr),
            out@ == start + tab_items(el.children@.subrange(0, i as int), *active_expr, *on_click_expr),
        decreases n - i,
    {
        let ghost after = el.children@.subrange(0, i + 1);
        assert(after.drop_last() =~= el.children@.subrange(0, i as int));
        assert(after.last() == el.children@[i as int]);
        push_tab_item(&mut out, &el.children[i], active_expr, on_click_expr, &params, &wrapped);
        i = i + 1;
        assert(out@ =~= start + tab_items(el.children@.subrange(0, i as int), *active_expr, *on_click_expr));
    }
    assert(el.children@.subrange(0, n as int) =~= el.children@);
    out.append("</ul>");
    out
}

/// One item of the menu: an `item` element with a `label` and an
/// `on_click` handler; choosing it closes the menu, and a `checked` item
/// shows a check mark.
pub open spec fn menu_item(c: RenderNode, open: Seq<char>) -> Seq<char> {
    match c {
        RenderNode::Element(e) => if e.name@ == "item"@ {
            match (first_arg(e.args@, "label"@), first_arg(e.args@, "on_click"@)) {
                (Some(label), Some(on_click)) => {
                    let icon = if arg_true(e.args@, "checked"@) {
                        "<span class=\"mr-2\">\"\u{2713}\"</span>"@
                    } else {
                        Seq::empty()
                    };
                    "<div class=\"px-3 py-2 cursor-pointer text-white hover:bg-gray-600 flex items-center\" on:click={ let __item_handler = "@
                        + event_handler(on_click)
                        + "; move |ev: leptos::ev::MouseEvent| { ev.stop_propagation(); "@ + open
                        + ".set(false); ; __item_handler(ev); } } >{ "@ + icon + " }{ "@ + label.code@
                        + " }</div> "@
                },
                _ => Seq::empty(),
            }
        } else {
            Seq::empty()
        },
        _ => Seq::empty(),
    }
}

/// The items of the menu, in order.
pub open spec fn menu_items(cs: Seq<RenderNode>, open: Seq<char>) -> Seq<char>
    decreases cs.len(),
{
    if cs.len() == 0 {
        Seq::empty()
    } else {
        menu_items(cs.drop_last(), open) + menu_item(cs.last(), open)
    }
}

/// A dropdown menu: an open-state signal and a node reference are bound,
/// the trigger toggles the panel, and choosing an item closes it.
pub open spec fn lp_dropdown_menu(el: Element, n: usize, inside_for: bool) -> Out {
    match el.trigger_expr {
        None => Out { code: "<div>dropdown: missing trigger</div>"@, binds: Seq::empty(), next: n },
        Some(t) => {
            let open = id_name("__quoin_dd_open_"@, n);
            let node_ref = id_name("__quoin_dd_ref_"@, n);
            Out {
                code: "<div node_ref= "@ + node_ref
                    + " class=\"relative inline-block\" on:click=move |ev: leptos::ev::MouseEvent| { ev.stop_propagation(); "@
                    + open + ".update(|v| *v = !*v); } > { "@ + expr_code(t, inside_for) + " } { move || "@
                    + open
                    + ".get().then(|| { leptos::view! { <div class=\"absolute top-full left-0 z-50 min-w-32 rounded-md border border-gray-700 bg-gray-800 py-1 shadow-lg\" on:click=move |ev: leptos::ev::MouseEvent| { ev.stop_propagation(); } on:mousedown=move |ev: leptos::ev::MouseEvent| { ev.prevent_default(); } > "@
                    + menu_items(el.children@, open) + "</div> }.into_any() }) } </div>"@,
                binds: "let "@ + open + " = leptos::prelude::create_signal(false); let "@ + node_ref
                    + " = leptos::prelude::create_node_ref::<html::Div>(); "@,
                next: next_id(n),
            }
        },
    }
}

fn push_menu_item(out: &mut String, c: &RenderNode, open: &str)
    ensures
        final(out)@ == old(out)@ + menu_item(*c, open@),
{
    if let RenderNode::Element(e) = c {
        if str_eq(e.name.as_str(), "item") {
            match find_arg_expr(e, "label") {
                Some(label) => match find_arg_expr(e, "on_click") {
                    Some(on_click) => {
                        let checked = find_arg_bool(e, "checked");
                        let handler = wrap_event_handler(on_click);
                        out.append(
                            "<div class=\"px-3 py-2 cursor-pointer text-white hover:bg-gray-600 flex items-center\" on:click={ let __item_handler = ",
                        );
                        out.append(handler.as_str());
                        out.append("; move |ev: leptos::ev::MouseEvent| { ev.stop_propagation(); ");
                        out.append(open);
                        out.append(".set(false); ; __item_handler(ev); } } >{ ");
                        if checked {
                            out.append("<span class=\"mr-2\">\"\u{2713}\"</span>");
                        }
                        out.append(" }{ ");
                        out.append(label.code.as_str());
                        out.append(" }</div> ");
                        proof {
                            assert(final(out)@ =~= old(out)@ + menu_item(*c, open@));
                        }
                        return;
                    },
                    None => {},
                },
                None => {},
            }
        }
    }
    assert(final(out)@ =~= old(out)@ + menu_item(*c, open@));
}

/// Emits a dropdown menu.
pub fn emit_dropdown_menu(el: &Element, bindings: &mut String, inside_for: bool, ids: &mut ExtractIds) -> (out: String)
    ensures
        produced(lp_dropdown_menu(*el, old(ids).next, inside_for), out@, old(bindings)@, final(bindings)@, final(ids).next),
{
    let trigger_expr = match &el.trigger_expr {
        Some(e) => e,
        None => {
            assert(bindings@ =~= old(bindings)@ + Seq::<char>::empty());
            return String::from_str("<div>dropdown: missing trigger</div>");
        },
    };
    let dd_id = next_extract_id(ids);
    let open = make_id_name("__quoin_dd_open_", dd_id);
    let node_ref = make_id_name("__quoin_dd_ref_", dd_id);
    bindings.append("let ");
    bindings.append(open.as_str());
    bindings.append(" = leptos::prelude::create_signal(false); let ");
    bindings.append(node_ref.as_str());
    bindings.append(" = leptos::prelude::create_node_ref::<html::Div>(); ");
    let mut items = String::new();
    let n = el.children.len();
    let mut i: usize = 0;
    while i < n
        invariant
            n == el.children@.len(),
            i <= n,
            items@ == menu_items(el.children@.subrange(0, i as int), open@),
        decreases n - i,
    {
        let ghost after = el.children@.subrange(0, i + 1);
        assert(after.drop_last() =~= el.children@.subrange(0, i as int));
        assert(after.last() == el.children@[i as int]);
        push_menu_item(&mut items, &el.children[i], open.as_str());
        i = i + 1;
    }
    assert(el.children@.subrange(0, n as int) =~= el.children@);
    let trigger = emit_expr(trigger_expr, inside_for);
    let mut out = String::from_str("<div node_ref= ");
    out.append(node_ref.as_str());
    out.append(
        " class=\"relative inline-block\" on:click=move |ev: leptos::ev::MouseEvent| { ev.stop_propagation(); ",
    );
    out.append(open.as_str());
    out.append(".update(|v| *v = !*v); } > { ");
    out.append(trigger.as_str());
    out.append(" } { move || ");
    out.append(open.as_str());
    out.append(
        ".get().then(|| { leptos::view! { <div class=\"absolute top-full left-0 z-50 min-w-32 rounded-md border border-gray-700 bg-gray-800 py-1 shadow-lg\" on:click=move |ev: leptos::ev::MouseEvent| { ev.stop_propagation(); } on:mousedown=move |ev: leptos::ev::MouseEvent| { ev.prevent_default(); } > ",
    );
    out.append(items.as_str());
    out.append("</div> }.into_any() }) } </div>");
    proof {
        let o = lp_dropdown_menu(*el, old(ids).next, inside_for);
        assert(bindings@ =~= old(bindings)@ + o.binds);
        assert(out@ =~= o.code);
    }
    out
}

/// Text with the matches of a query highlighted: the plain text without a
/// `query`, an empty span without a `text`. With both, a bound closure
/// splits the text around case-insensitive matches.
pub open spec fn lp_styled_text(el: Element, n: usize) -> Out {
    match (first_arg(el.args@, "text"@), first_arg(el.args@, "query"@)) {
        (Some(text), None) => Out { code: "<span>{ "@ + text.code@ + " }</span>"@, binds: Seq::empty(), next: n },
        (Some(text), Some(query)) => {
            let name = id_name("__quoin_highlight_"@, n);
            Out {
                code: "{ "@ + name + " () }"@,
                binds: "let "@ + name + " = { let __text_val = ( "@ + text.code@
                    + " ).clone(); let __query_val = ( "@ + query.code@ + " ).clone(); "@
                    + highlight_closure() + " }; "@,
                next: next_id(n),
            }
        },
        (None, _) => Out { code: "<span></span>"@, binds: Seq::empty(), next: n },
    }
}

/// The closure that splits the text around case-insensitive matches of the
/// query and highlights the matches.
pub open spec fn highlight_closure() -> Seq<char> {
    "move || { if __query_val.is_empty() { return { use leptos::prelude::*; leptos::view! { <span>{__text_val.clone()}</span> } }.into_any(); } let mut __parts: Vec<leptos::prelude::AnyView> = Vec::new(); let mut __remaining = __text_val.as_str(); let __query_lower = __query_val.to_lowercase(); while let Some(__idx) = __remaining.to_lowercase().find(&__query_lower) { if __idx > 0 { let __before: &str = &__remaining[..__idx]; __parts.push({ use leptos::prelude::*; leptos::view! { <span>{__before}</span> } }.into_any()); } let __match: &str = &__remaining[__idx..__idx + __query_val.len()]; __parts.push({ use leptos::prelude::*; leptos::view! { <span class=\"bg-yellow-200 text-black\">{__match}</span> } }.into_any()); __remaining = &__remaining[__idx + __query_val.len()..]; } if !__remaining.is_empty() { __parts.push({ use leptos::prelude::*; leptos::view! { <span>{__remaining}</span> } }.into_any()); } { use leptos::prelude::*; leptos::view! { <span>{__parts.into_iter()}</span> } }.into_any() }"@
}

/// Emits highlighted text.
pub fn emit_styled_text(el: &Element, bindings: &mut String, ids: &mut ExtractIds) -> (out: String)
    ensures
        produced(lp_styled_text(*el, old(ids).next), out@, old(bindings)@, final(bindings)@, final(ids).next),
{
    match find_arg_expr(el, "text") {
        Some(text) => match find_arg_expr(el, "query") {
            None => {
                let mut out = String::from_str("<span>{ ");
                out.append(text.code.as_str());
                out.append(" }</span>");
                assert(bindings@ =~= old(bindings)@ + Seq::<char>::empty());
                out
            },
            Some(query) => {
                let hl_id = next_extract_id(ids);
                let name = make_id_name("__quoin_highlight_", hl_id);
                bindings.append("let ");
                bindings.append(name.as_str());
                bindings.append(" = { let __text_val = ( ");
                bindings.append(text.code.as_str());
                bindings.append(" ).clone(); let __query_val = ( ");
                bindings.append(query.code.as_str());
                bindings.append(" ).clone(); ");
                bindings.append(
                    "move || { if __query_val.is_empty() { return { use leptos::prelude::*; leptos::view! { <span>{__text_val.clone()}</span> } }.into_any(); } let mut __parts: Vec<leptos::prelude::AnyView> = Vec::new(); let mut __remaining = __text_val.as_str(); let __query_lower = __query_val.to_lowercase(); while let Some(__idx) = __remaining.to_lowercase().find(&__query_lower) { if __idx > 0 { let __before: &str = &__remaining[..__idx]; __parts.push({ use leptos::prelude::*; leptos::view! { <span>{__before}</span> } }.into_any()); } let __match: &str = &__remaining[__idx..__idx + __query_val.len()]; __parts.push({ use leptos::prelude::*; leptos::view! { <span class=\"bg-yellow-200 text-black\">{__match}</span> } }.into_any()); __remaining = &__remaining[__idx + __query_val.len()..]; } if !__remaining.is_empty() { __parts.push({ use leptos::prelude::*; leptos::view! { <span>{__remaining}</span> } }.into_any()); } { use leptos::prelude::*; leptos::view! { <span>{__parts.into_iter()}</span> } }.into_any() }",
                );
                bindings.append(" }; ");
                let mut out = String::from_str("{ ");
                out.append(name.as_str());
                out.append(" () }");
                proof {
                    let o = lp_styled_text(*el, old(ids).next);
                    assert(bindings@ =~= old(bindings)@ + o.binds);
                }
                out
            },
        },
        None => {
            assert(bindings@ =~= old(bindings)@ + Seq::<char>::empty());
            String::from_str("<span></span>")
        },
    }
}

} // verus!
