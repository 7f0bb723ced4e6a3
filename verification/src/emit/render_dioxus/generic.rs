//! Plain HTML elements in Dioxus RSX.

use vstd::prelude::*;
use crate::ast::{Arg, Element, Expr, Form, Lit};
use crate::emit::common::{first_arg, has_arg, el_has_arg, find_arg_expr};
use crate::text::str_eq;
use super::handler::{dioxus_handler, wrap_dioxus_handler};

verus! {

/// The HTML tag that an element name stands for.
pub open spec fn html_tag(name: Seq<char>) -> Seq<char> {
    if name == "div"@ {
        "div"@
    } else if name == "h1"@ {
        "h1"@
    } else if name == "h2"@ {
        "h2"@
    } else if name == "h3"@ {
        "h3"@
    } else if name == "p"@ || name == "text"@ {
        "p"@
    } else if name == "button"@ {
        "button"@
    } else if name == "input"@ {
        "input"@
    } else if name == "span"@ {
        "span"@
    } else if name == "label"@ {
        "label"@
    } else if name == "a"@ {
        "a"@
    } else if name == "ul"@ {
        "ul"@
    } else if name == "ol"@ {
        "ol"@
    } else if name == "li"@ {
        "li"@
    } else if name == "hr"@ {
        "hr"@
    } else if name == "br"@ {
        "br"@
    } else if name == "textarea"@ {
        "textarea"@
    } else if name == "select"@ {
        "select"@
    } else if name == "form"@ {
        "form"@
    } else if name == "img"@ {
        "img"@
    } else {
        "div"@
    }
}

fn html_tag_of(name: &str) -> (t: &'static str)
    ensures
        t@ == html_tag(name@),
{
    if str_eq(name, "div") {
        "div"
    } else if str_eq(name, "h1") {
        "h1"
    } else if str_eq(name, "h2") {
        "h2"
    } else if str_eq(name, "h3") {
        "h3"
    } else if str_eq(name, "p") || str_eq(name, "text") {
        "p"
    } else if str_eq(name, "button") {
        "button"
    } else if str_eq(name, "input") {
        "input"
    } else if str_eq(name, "span") {
        "span"
    } else if str_eq(name, "label") {
        "label"
    } else if str_eq(name, "a") {
        "a"
    } else if str_eq(name, "ul") {
        "ul"
    } else if str_eq(name, "ol") {
        "ol"
    } else if str_eq(name, "li") {
        "li"
    } else if str_eq(name, "hr") {
        "hr"
    } else if str_eq(name, "br") {
        "br"
    } else if str_eq(name, "textarea") {
        "textarea"
    } else if str_eq(name, "select") {
        "select"
    } else if str_eq(name, "form") {
        "form"
    } else if str_eq(name, "img") {
        "img"
    } else {
        "div"
    }
}

/// Argument keys that other elements read and a plain HTML element leaves
/// out.
pub open spec fn ignored_key(k: Seq<char>) -> bool {
    k == "primary"@ || k == "ghost"@ || k == "destructive"@ || k == "active"@ || k == "trigger"@
        || k == "rows"@ || k == "striped"@ || k == "items"@ || k == "estimated_height"@ || k
        == "copy_text"@ || k == "sortable"@ || k == "width"@ || k == "resizable"@ || k
        == "selectable"@ || k == "on_sort"@ || k == "bordered"@ || k == "size"@ || k
        == "navigate_to"@ || k == "cfg"@ || k == "label"@ || k == "render"@ || k == "key"@ || k
        == "index"@ || k == "text"@ || k == "query"@ || k == "color"@ || k == "direction"@ || k
        == "tooltip"@ || k == "icon_name"@
}

fn is_ignored_key(k: &str) -> (r: bool)
    ensures
        r == ignored_key(k@),
{
    str_eq(k, "primary") || str_eq(k, "ghost") || str_eq(k, "destructive") || str_eq(k, "active")
        || str_eq(k, "trigger") || str_eq(k, "rows") || str_eq(k, "striped") || str_eq(k, "items")
        || str_eq(k, "estimated_height") || str_eq(k, "copy_text") || str_eq(k, "sortable")
        || str_eq(k, "width") || str_eq(k, "resizable") || str_eq(k, "selectable") || str_eq(
        k,
        "on_sort",
    ) || str_eq(k, "bordered") || str_eq(k, "size") || str_eq(k, "navigate_to") || str_eq(
        k,
        "cfg",
    ) || str_eq(k, "label") || str_eq(k, "render") || str_eq(k, "key") || str_eq(k, "index")
        || str_eq(k, "text") || str_eq(k, "query") || str_eq(k, "color") || str_eq(
        k,
        "direction",
    ) || str_eq(k, "tooltip") || str_eq(k, "icon_name")
}

/// The event attribute that an argument key stands for.
pub open spec fn event_attr(k: Seq<char>) -> Option<Seq<char>> {
    if k == "on_click"@ {
        Some("onclick"@)
    } else if k == "on_mouse_down"@ {
        Some("onmousedown"@)
    } else if k == "on_mouse_up"@ {
        Some("onmouseup"@)
    } else if k == "on_mouse_enter"@ {
        Some("onmouseenter"@)
    } else if k == "on_mouse_leave"@ {
        Some("onmouseleave"@)
    } else if k == "on_input"@ {
        Some("oninput"@)
    } else if k == "on_change"@ {
        Some("onchange"@)
    } else {
        None
    }
}

fn event_attr_of(k: &str) -> (r: Option<&'static str>)
    ensures
        match r {
            Some(s) => event_attr(k@) == Some(s@),
            None => event_attr(k@) is None,
        },
{
    if str_eq(k, "on_click") {
        Some("onclick")
    } else if str_eq(k, "on_mouse_down") {
        Some("onmousedown")
    } else if str_eq(k, "on_mouse_up") {
        Some("onmouseup")
    } else if str_eq(k, "on_mouse_enter") {
        Some("onmouseenter")
    } else if str_eq(k, "on_mouse_leave") {
        Some("onmouseleave")
    } else if str_eq(k, "on_input") {
        Some("oninput")
    } else if str_eq(k, "on_change") {
        Some("onchange")
    } else {
        None
    }
}

/// The RSX attribute that one argument becomes on a tag.
pub open spec fn html_attr(a: Arg, tag: Seq<char>) -> Seq<char> {
    let k = a.key@;
    let v = a.value;
    if k == "children"@ {
        Seq::empty()
    } else if event_attr(k) is Some {
        event_attr(k).unwrap() + ": { "@ + dioxus_handler(v) + " }, "@
    } else if k == "value"@ {
        if tag == "input"@ {
            "value: { "@ + v.code@ + " .get() }, "@
        } else {
            "value: { "@ + v.code@ + " }, "@
        }
    } else if ignored_key(k) {
        Seq::empty()
    } else {
        match v.form {
            Form::Lit(Lit::Str(_)) => k + ": "@ + v.code@ + ", "@,
            _ => k + ": { "@ + v.code@ + " }, "@,
        }
    }
}

/// The RSX attributes of all arguments, in order.
pub open spec fn html_attrs(args: Seq<Arg>, tag: Seq<char>) -> Seq<char>
    decreases args.len(),
{
    if args.len() == 0 {
        Seq::empty()
    } else {
        html_attrs(args.drop_last(), tag) + html_attr(args.last(), tag)
    }
}

/// The value of the last argument with key `key`.
pub open spec fn last_arg(args: Seq<Arg>, key: Seq<char>) -> Option<Expr>
    decreases args.len(),
{
    if args.len() == 0 {
        None
    } else if args.last().key@ == key {
        Some(args.last().value)
    } else {
        last_arg(args.drop_last(), key)
    }
}

/// An `input` with a `value` and no `on_input` handler writes what is typed
/// back into its value signal.
pub open spec fn auto_bind(el: Element, tag: Seq<char>) -> Seq<char> {
    if tag == "input"@ && has_arg(el.args@, "value"@) && !has_arg(el.args@, "on_input"@) {
        "oninput: move |ev: dioxus::prelude::Event<dioxus::prelude::FormData>| { "@
            + first_arg(el.args@, "value"@).unwrap().code@ + " .set(ev.value()); }, "@
    } else {
        Seq::empty()
    }
}

/// `{ expr.into_iter() }` for an iterable of child elements.
pub open spec fn iter_child(e: Option<Expr>) -> Seq<char> {
    match e {
        Some(x) => "{ "@ + x.code@ + " .into_iter() } "@,
        None => Seq::empty(),
    }
}

/// A plain HTML element: its tag, its attributes, and its children (the
/// `children` argument, the `children` expression, then the child nodes,
/// whose RSX is `kids`).
pub open spec fn html_el(el: Element, name: Seq<char>, kids: Seq<char>) -> Seq<char> {
    let tag = html_tag(name);
    tag + " { "@ + html_attrs(el.args@, tag) + auto_bind(el, tag) + iter_child(
        last_arg(el.args@, "children"@),
    ) + iter_child(el.children_expr) + kids + "}"@
}

fn push_html_attr(out: &mut String, a: &Arg, tag: &str)
    ensures
        final(out)@ == old(out)@ + html_attr(*a, tag@),
{
    let k = a.key.as_str();
    let v = &a.value;
    if str_eq(k, "children") {
        assert(html_attr(*a, tag@) =~= Seq::<char>::empty());
        assert(final(out)@ =~= old(out)@ + html_attr(*a, tag@));
        return;
    }
    match event_attr_of(k) {
        Some(ev) => {
            out.append(ev);
            out.append(": { ");
            let h = wrap_dioxus_handler(v);
            out.append(h.as_str());
            out.append(" }, ");
            return;
        },
        None => {},
    }
    if str_eq(k, "value") {
        if str_eq(tag, "input") {
            out.append("value: { ");
            out.append(v.code.as_str());
            out.append(" .get() }, ");
        } else {
            out.append("value: { ");
            out.append(v.code.as_str());
            out.append(" }, ");
        }
    } else if is_ignored_key(k) {
        assert(html_attr(*a, tag@) =~= Seq::<char>::empty());
        assert(final(out)@ =~= old(out)@ + html_attr(*a, tag@));
    } else {
        match &v.form {
            Form::Lit(Lit::Str(_)) => {
                out.append(k);
                out.append(": ");
                out.append(v.code.as_str());
                out.append(", ");
            },
            _ => {
                out.append(k);
                out.append(": { ");
                out.append(v.code.as_str());
                out.append(" }, ");
            },
        }
    }
}

/// Emits a plain HTML element named `name_str`, with `kids` the RSX of its
/// child nodes.
pub fn emit_html_el(el: &Element, name_str: &str, kids: &str) -> (out: String)
    ensures
        out@ == html_el(*el, name_str@, kids@),
{
    emit_html_el_inner(el, name_str, kids)
}

/// Emits a plain HTML element named `name_str`, with `kids` the RSX of its
/// child nodes.
pub fn emit_html_el_inner(el: &Element, name_str: &str, kids: &str) -> (out: String)
    ensures
        out@ == html_el(*el, name_str@, kids@),
{
    let tag = html_tag_of(name_str);
    let mut out = String::from_str(tag);
    out.append(" { ");
    let ghost start = out@;
    let n = el.args.len();
    let mut i: usize = 0;
    let mut children_attr: Option<&Expr> = None;
    while i < n
        invariant
            n == el.args@.len(),
            i <= n,
            out@ == start + html_attrs(el.args@.subrange(0, i as int), tag@),
            match children_attr {
                Some(e) => last_arg(el.args@.subrange(0, i as int), "children"@) == Some(*e),
                None => last_arg(el.args@.subrange(0, i as int), "children"@) is None,
            },
        decreases n - i,
    {
        let ghost before = el.args@.subrange(0, i as int);
        let ghost after = el.args@.subrange(0, i + 1);
        assert(after.drop_last() =~= before);
        assert(after.last() == el.args@[i as int]);
        push_html_attr(&mut out, &el.args[i], tag);
        if str_eq(el.args[i].key.as_str(), "children") {
            children_attr = Some(&el.args[i].value);
        }
        i = i + 1;
        assert(out@ =~= start + html_attrs(el.args@.subrange(0, i as int), tag@));
    }
    assert(el.args@.subrange(0, n as int) =~= el.args@);
    let ghost mid = out@;
    if str_eq(tag, "input") && el_has_arg(el, "value") && !el_has_arg(el, "on_input") {
        proof { crate::emit::common::lemma_first_arg_some(el.args@, "value"@); }
        let value_expr = find_arg_expr(el, "value").unwrap();
        out.append("oninput: move |ev: dioxus::prelude::Event<dioxus::prelude::FormData>| { ");
        out.append(value_expr.code.as_str());
        out.append(" .set(ev.value()); }, ");
    }
    assert(out@ =~= mid + auto_bind(*el, tag@));
    let ghost mid2 = out@;
    match children_attr {
        Some(e) => {
            out.append("{ ");
            out.append(e.code.as_str());
            out.append(" .into_iter() } ");
        },
        None => {},
    }
    assert(out@ =~= mid2 + iter_child(last_arg(el.args@, "children"@)));
    let ghost mid3 = out@;
    match &el.children_expr {
        Some(e) => {
            out.append("{ ");
            out.append(e.code.as_str());
            out.append(" .into_iter() } ");
        },
        None => {},
    }
    assert(out@ =~= mid3 + iter_child(el.children_expr));
    out.append(kids);
    out.append("}");
    out
}

} // verus!
