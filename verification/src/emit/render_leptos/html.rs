//! Plain HTML tags in Leptos `view!` markup.

use vstd::prelude::*;
use crate::ast::{Arg, Element};
use crate::emit::common::{el_has_arg, find_arg_expr, first_arg, has_arg, lemma_first_arg_some};
use crate::text::str_eq;
use super::{lp_all_ok, ExtractIds, Out, emit_nodes, event_handler, id_name, lp_nodes, make_id_name, next_extract_id, next_id, produced, wrap_event_handler};

verus! {

/// The attribute that one argument becomes on a tag.
pub open spec fn tag_attr(a: Arg, tag: Seq<char>) -> Seq<char> {
    let k = a.key@;
    let v = a.value.code@;
    if k == "class"@ {
        "class= "@ + v + " "@
    } else if k == "id"@ {
        "id= "@ + v + " "@
    } else if k == "placeholder"@ {
        "placeholder= "@ + v + " "@
    } else if k == "disabled"@ {
        "disabled= "@ + v + " "@
    } else if k == "on_click"@ {
        "on:click= "@ + event_handler(a.value) + " "@
    } else if k == "on_mouse_down"@ {
        "on:mousedown= "@ + event_handler(a.value) + " "@
    } else if k == "on_input"@ {
        "on:input= "@ + event_handler(a.value) + " "@
    } else if k == "on_change"@ {
        "on:change= "@ + event_handler(a.value) + " "@
    } else if k == "value"@ {
        if tag == "input"@ {
            "prop:value={ let __val = ( "@ + v + " ).clone(); move || __val.get() } "@
        } else {
            "value={ "@ + v + " } "@
        }
    } else {
        Seq::empty()
    }
}

/// The attributes of all arguments, in order.
pub open spec fn tag_attrs(args: Seq<Arg>, tag: Seq<char>) -> Seq<char>
    decreases args.len(),
{
    if args.len() == 0 {
        Seq::empty()
    } else {
        tag_attrs(args.drop_last(), tag) + tag_attr(args.last(), tag)
    }
}

fn push_tag_attr(out: &mut String, a: &Arg, tag: &str)
    ensures
        final(out)@ == old(out)@ + tag_attr(*a, tag@),
{
    let k = a.key.as_str();
    let v = a.value.code.as_str();
    if str_eq(k, "class") {
        out.append("class= ");
        out.append(v);
        out.append(" ");
    } else if str_eq(k, "id") {
        out.append("id= ");
        out.append(v);
        out.append(" ");
    } else if str_eq(k, "placeholder") {
        out.append("placeholder= ");
        out.append(v);
        out.append(" ");
    } else if str_eq(k, "disabled") {
        out.append("disabled= ");
        out.append(v);
        out.append(" ");
    } else if str_eq(k, "on_click") {
        let h = wrap_event_handler(&a.value);
        out.append("on:click= ");
        out.append(h.as_str());
        out.append(" ");
    } else if str_eq(k, "on_mouse_down") {
        let h = wrap_event_handler(&a.value);
        out.append("on:mousedown= ");
        out.append(h.as_str());
        out.append(" ");
    } else if str_eq(k, "on_input") {
        let h = wrap_event_handler(&a.value);
        out.append("on:input= ");
        out.append(h.as_str());
        out.append(" ");
    } else if str_eq(k, "on_change") {
        let h = wrap_event_handler(&a.value);
        out.append("on:change= ");
        out.append(h.as_str());
        out.append(" ");
    } else if str_eq(k, "value") {
        if str_eq(tag, "input") {
            out.append("prop:value={ let __val = ( ");
            out.append(v);
            out.append(" ).clone(); move || __val.get() } ");
        } else {
            out.append("value={ ");
            out.append(v);
            out.append(" } ");
        }
    } else {
        assert(final(out)@ =~= old(out)@ + tag_attr(*a, tag@));
    }
}

/// Whether an `input` with a `value` and no `on_input` handler binds what
/// is typed back into its value signal.
pub open spec fn auto_binds(el: Element, tag: Seq<char>) -> bool {
    tag == "input"@ && has_arg(el.args@, "value"@) && !has_arg(el.args@, "on_input"@)
}

/// Whether a tag is written as a void element, `<tag ... />`.
pub open spec fn is_void(tag: Seq<char>) -> bool {
    tag == "input"@ || tag == "hr"@ || tag == "br"@ || tag == "img"@
}

/// A plain HTML tag: its attributes, the binding of a bound `input`, and
/// its children: the `children` expression, or else the child nodes.
pub open spec fn lp_html_tag(el: Element, tag: Seq<char>, n: usize, inside_for: bool, sh: bool) -> Out
    decreases el, 0int,
{
    let attrs = tag_attrs(el.args@, tag);
    let bind_name = id_name("__quoin_input_bind_"@, n);
    let (attrs2, binds1, n1) = if auto_binds(el, tag) {
        (
            attrs + "on:input= "@ + bind_name + " "@,
            "let "@ + bind_name + " = { let __signal = ( "@ + first_arg(
                el.args@,
                "value"@,
            ).unwrap().code@
                + " ).clone(); move |ev: leptos::ev::Event| { __signal.set(leptos::prelude::event_target_value(&ev)); } }; "@,
            next_id(n),
        )
    } else {
        (attrs, Seq::<char>::empty(), n)
    };
    let kids = match el.children_expr {
        Some(ce) => Out {
            code: "{ "@ + ce.code@ + " .into_iter().map(|v| v.into_any()).collect::<Vec<_>>() } "@,
            binds: Seq::empty(),
            next: n1,
        },
        None => lp_nodes(el.children@, n1, inside_for, sh),
    };
    let open = "< "@ + tag + " "@ + attrs2;
    let code = if is_void(tag) {
        open + "/>"@
    } else if el.children_expr is None && el.children@.len() == 0 {
        open + "></ "@ + tag + " >"@
    } else {
        open + "> "@ + kids.code + "</ "@ + tag + " >"@
    };
    Out { code, binds: binds1 + kids.binds, next: kids.next }
}

/// Emits a plain HTML tag.
pub fn emit_html_tag(el: &Element, tag: &str, bindings: &mut String, inside_for: bool, ids: &mut ExtractIds, sh: bool) -> (out: String)
    requires
        lp_all_ok(el.children@, sh),
    ensures
        produced(lp_html_tag(*el, tag@, old(ids).next, inside_for, sh), out@, old(bindings)@, final(bindings)@, final(ids).next),
    decreases el, 1int,
{
    emit_html_tag_inner(el, tag, bindings, inside_for, ids, sh)
}

/// Emits a plain HTML tag.
#[verifier::rlimit(40)]
pub fn emit_html_tag_inner(el: &Element, tag: &str, bindings: &mut String, inside_for: bool, ids: &mut ExtractIds, sh: bool) -> (out: String)
    requires
        lp_all_ok(el.children@, sh),
    ensures
        produced(lp_html_tag(*el, tag@, old(ids).next, inside_for, sh), out@, old(bindings)@, final(bindings)@, final(ids).next),
    decreases el, 0int,
{
    let ghost n0 = ids.next;
    let ghost b0 = bindings@;
    let mut attrs = String::new();
    let n = el.args.len();
    let mut i: usize = 0;
    while i < n
        invariant
            n == el.args@.len(),
            i <= n,
            attrs@ == tag_attrs(el.args@.subrange(0, i as int), tag@),
        decreases n - i,
    {
        let ghost after = el.args@.subrange(0, i + 1);
        assert(after.drop_last() =~= el.args@.subrange(0, i as int));
        assert(after.last() == el.args@[i as int]);
        push_tag_attr(&mut attrs, &el.args[i], tag);
        i = i + 1;
    }
    assert(el.args@.subrange(0, n as int) =~= el.args@);
    if str_eq(tag, "input") && el_has_arg(el, "value") && !el_has_arg(el, "on_input") {
        proof { lemma_first_arg_some(el.args@, "value"@); }
        let value_expr = find_arg_expr(el, "value").unwrap();
        let bind_id = next_extract_id(ids);
        let bind_name = make_id_name("__quoin_input_bind_", bind_id);
        bindings.append("let ");
        bindings.append(bind_name.as_str());
        bindings.append(" = { let __signal = ( ");
        bindings.append(value_expr.code.as_str());
        bindings.append(
            " ).clone(); move |ev: leptos::ev::Event| { __signal.set(leptos::prelude::event_target_value(&ev)); } }; ",
        );
        attrs.append("on:input= ");
        attrs.append(bind_name.as_str());
        attrs.append(" ");
    }
    let kids = match &el.children_expr {
        Some(ce) => {
            let mut k = String::from_str("{ ");
            k.append(ce.code.as_str());
            k.append(" .into_iter().map(|v| v.into_any()).collect::<Vec<_>>() } ");
            k
        },
        None => emit_nodes(&el.children, bindings, inside_for, ids, sh),
    };
    let mut out = String::from_str("< ");
    out.append(tag);
    out.append(" ");
    out.append(attrs.as_str());
    if str_eq(tag, "input") || str_eq(tag, "hr") || str_eq(tag, "br") || str_eq(tag, "img") {
        out.append("/>");
    } else if el.children_expr.is_none() && el.children.len() == 0 {
        out.append("></ ");
        out.append(tag);
        out.append(" >");
    } else {
        out.append("> ");
        out.append(kids.as_str());
        out.append("</ ");
        out.append(tag);
        out.append(" >");
    }
    assert(bindings@ =~= b0 + lp_html_tag(*el, tag@, n0, inside_for, sh).binds);
    out
}

} // verus!
