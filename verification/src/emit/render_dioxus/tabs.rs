//! Tab bars in Dioxus RSX.

use vstd::prelude::*;
use crate::ast::{Element, Expr, RenderNode};
use crate::emit::common::{call_args, clone_shadows, closure_param_idents, closure_params, find_arg_expr, first_arg, has_arg, lemma_first_arg_some, param_bindings, push_call_args, push_clone_shadows, push_param_bindings, strings_without, without};
use crate::text::str_eq;

verus! {

/// One tab of the bar: a `tab` element with a `label` and an `index`.
pub open spec fn tab_item(c: RenderNode, active: Expr, on_click: Expr) -> Seq<char> {
    match c {
        RenderNode::Element(e) => if e.name@ == "tab"@ {
            match (first_arg(e.args@, "label"@), first_arg(e.args@, "index"@)) {
                (Some(label), Some(index)) => {
                    let params = closure_params(on_click);
                    "div { class: if "@ + index.code@ + " == "@ + active.code@
                        + " { \"px-4 py-2 cursor-pointer text-white\" } else { \"px-4 py-2 cursor-pointer text-gray-400\" }, onclick: { "@
                        + param_bindings(params, index.code@) + clone_shadows(
                        without(on_click.idents@, params),
                    ) + "let __tab_on_click = "@ + on_click.moved@
                        + "; move |_| { __tab_on_click( "@ + call_args(params) + ") } }, { "@
                        + label.code@ + " } } "@
                },
                _ => Seq::empty(),
            }
        } else {
            Seq::empty()
        },
        _ => Seq::empty(),
    }
}

/// The tabs of the bar, in order.
pub open spec fn tab_items(cs: Seq<RenderNode>, active: Expr, on_click: Expr) -> Seq<char>
    decreases cs.len(),
{
    if cs.len() == 0 {
        Seq::empty()
    } else {
        tab_items(cs.drop_last(), active, on_click) + tab_item(cs.last(), active, on_click)
    }
}

/// A tab bar; the element needs an `active` and an `on_click` argument.
pub open spec fn tabs(el: Element) -> Seq<char> {
    "div { class: \"flex\", "@ + tab_items(
        el.children@,
        first_arg(el.args@, "active"@).unwrap(),
        first_arg(el.args@, "on_click"@).unwrap(),
    ) + "}"@
}

fn push_tab_item(out: &mut String, c: &RenderNode, active: &Expr, on_click: &Expr, params: &Vec<String>, body_idents: &Vec<String>)
    requires
        params@ == closure_params(*on_click),
        body_idents@ == without(on_click.idents@, params@),
    ensures
        final(out)@ == old(out)@ + tab_item(*c, *active, *on_click),
{
    if let RenderNode::Element(e) = c {
        if str_eq(e.name.as_str(), "tab") {
            match find_arg_expr(e, "label") {
                Some(label) => match find_arg_expr(e, "index") {
                    Some(index) => {
                        out.append("div { class: if ");
                        out.append(index.code.as_str());
                        out.append(" == ");
                        out.append(active.code.as_str());
                        out.append(
                            " { \"px-4 py-2 cursor-pointer text-white\" } else { \"px-4 py-2 cursor-pointer text-gray-400\" }, onclick: { ",
                        );
                        push_param_bindings(out, params, index.code.as_str());
                        push_clone_shadows(out, body_idents);
                        out.append("let __tab_on_click = ");
                        out.append(on_click.moved.as_str());
                        out.append("; move |_| { __tab_on_click( ");
                        push_call_args(out, params);
                        out.append(") } }, { ");
                        out.append(label.code.as_str());
                        out.append(" } } ");
                        return;
                    },
                    None => {},
                },
                None => {},
            }
        }
    }
    assert(final(out)@ =~= old(out)@ + tab_item(*c, *active, *on_click));
}

/// Emits a tab bar.
pub fn emit_tabs(el: &Element) -> (out: String)
    requires
        has_arg(el.args@, "active"@),
        has_arg(el.args@, "on_click"@),
    ensures
        out@ == tabs(*el),
{
    proof {
        lemma_first_arg_some(el.args@, "active"@);
        lemma_first_arg_some(el.args@, "on_click"@);
    }
    let active_expr = find_arg_expr(el, "active").unwrap();
    let on_click_expr = find_arg_expr(el, "on_click").unwrap();
    let params = closure_param_idents(on_click_expr);
    let body_idents = strings_without(&on_click_expr.idents, &params);
    let mut out = String::from_str("div { class: \"flex\", ");
    let ghost start = out@;
    let n = el.children.len();
    let mut i: usize = 0;
    while i < n
        invariant
            n == el.children@.len(),
            i <= n,
            params@ == closure_params(*on_click_expr),
            body_idents@ == without(on_click_expr.idents@, params@),
            out@ == start + tab_items(el.children@.subrange(0, i as int), *active_expr, *on_click_expr),
        decreases n - i,
    {
        let ghost after = el.children@.subrange(0, i + 1);
        assert(after.drop_last() =~= el.children@.subrange(0, i as int));
        assert(after.last() == el.children@[i as int]);
        push_tab_item(&mut out, &el.children[i], active_expr, on_click_expr, &params, &body_idents);
        i = i + 1;
        assert(out@ =~= start + tab_items(el.children@.subrange(0, i as int), *active_expr, *on_click_expr));
    }
    assert(el.children@.subrange(0, n as int) =~= el.children@);
    out.append("}");
    out
}

} // verus!
