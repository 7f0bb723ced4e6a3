//! Leptos `view!` emission for `quoin_render!`.
//!
//! Values that a `view!` needs outside its markup (event closures, derived
//! signals, cloned iterables) are bound with `let` before the `view!`; those
//! bindings are gathered, in order, as one text. Their names are numbered
//! from an id counter that every emitter threads through.
//!
//! Every emitter takes a flag `sh`: with it, the elements that the
//! `leptos_shadcn_ui` library provides become its components, each bound to
//! a numbered alias; without it, they become plain HTML.

pub mod containers;
pub mod form;
pub mod html;
pub mod renumber;
pub mod shadcn;
pub mod shadcn_containers;
pub mod shadcn_menus;
pub mod table;
pub mod tier1;
pub mod widgets;

use vstd::prelude::*;
use crate::ast::{Element, Expr, ForNode, IfNode, RenderNode, node_attrs};
use crate::emit::cfg::{cfg_wrapped, wrap_with_cfg};
use crate::emit::common::{clone_shadows, push_clone_shadows};
use crate::emit::common::{el_has_arg, has_arg};
use crate::text::{decimal, push_decimal, str_eq};
use self::containers::{
    emit_badge, emit_button, emit_clipboard_button, emit_icon, emit_input, emit_scroll_area, emit_virtual_list,
    lp_badge, lp_button, lp_clipboard_button, lp_icon, lp_input, lp_scroll_area, lp_virtual_list,
};
use self::form::{
    emit_checkbox, emit_radio, emit_radio_group, emit_slider, emit_switch, lp_checkbox, lp_radio, lp_radio_group,
    lp_slider, lp_switch,
};
use self::html::{emit_html_tag, lp_html_tag};
use self::shadcn::{
    emit_sh_progress, emit_sh_radio, emit_sh_separator, emit_sh_skeleton, emit_sh_slider, emit_sh_toggle,
    lp_sh_progress, lp_sh_radio, lp_sh_separator, lp_sh_skeleton, lp_sh_slider, lp_sh_toggle,
};
use self::shadcn_containers::{
    emit_sh_badge, emit_sh_button, emit_sh_input, emit_sh_radio_group, emit_sh_scroll_area, emit_sh_tooltip,
    lp_sh_badge, lp_sh_button, lp_sh_input, lp_sh_radio_group, lp_sh_scroll_area, lp_sh_tooltip,
};
use self::shadcn_menus::{emit_sh_dropdown_menu, emit_sh_tabs, lp_sh_dropdown_menu, lp_sh_tabs};
use self::table::{emit_data_table, emit_sh_data_table, lp_data_table, lp_sh_data_table};
use self::tier1::{
    emit_progress, emit_separator, emit_skeleton, emit_skeleton_avatar, emit_skeleton_text, lp_progress, lp_separator,
    lp_skeleton, lp_skeleton_avatar, lp_skeleton_text,
};
use self::widgets::{
    emit_dropdown_menu, emit_styled_text, emit_tabs, emit_tooltip, lp_dropdown_menu, lp_styled_text, lp_tabs,
    lp_tooltip,
};

verus! {

/// The counter that numbers the names of generated bindings.
pub struct ExtractIds {
    pub next: usize,
}

/// The id that follows `n`; the counter wraps around past `usize::MAX`.
pub open spec fn next_id(n: usize) -> usize {
    if n == usize::MAX {
        0
    } else {
        (n + 1) as usize
    }
}

/// Takes the next id: returns the counter's value and advances it.
pub fn next_extract_id(ids: &mut ExtractIds) -> (id: usize)
    ensures
        id == old(ids).next,
        final(ids).next == next_id(old(ids).next),
{
    let id = ids.next;
    ids.next = if id == usize::MAX { 0 } else { id + 1 };
    id
}

/// `prefix` followed by the decimal id.
pub open spec fn id_name(prefix: Seq<char>, id: usize) -> Seq<char> {
    prefix + decimal(id as nat)
}

/// `prefix` followed by the decimal id.
pub fn make_id_name(prefix: &str, id: usize) -> (r: String)
    ensures
        r@ == id_name(prefix@, id),
{
    let mut r = String::from_str(prefix);
    push_decimal(&mut r, id);
    r
}

/// What emitting a piece of the tree yields: its markup, the bindings it
/// adds, and the counter's value afterwards.
pub struct Out {
    pub code: Seq<char>,
    pub binds: Seq<char>,
    pub next: usize,
}

/// Whether an emitter returned `code` and, from bindings `b0`, left
/// bindings `b1` and the counter at `n1`, as `o` says.
pub open spec fn produced(o: Out, code: Seq<char>, b0: Seq<char>, b1: Seq<char>, n1: usize) -> bool {
    &&& code == o.code
    &&& b1 == b0 + o.binds
    &&& n1 == o.next
}

/// An event handler that owns clones of what it captures.
pub open spec fn event_handler(e: Expr) -> Seq<char> {
    "{ "@ + clone_shadows(e.captures@) + e.moved@ + " }"@
}

/// Wraps an event handler so that it owns clones of what it captures.
pub fn wrap_event_handler(handler_expr: &Expr) -> (out: String)
    ensures
        out@ == event_handler(*handler_expr),
{
    let mut out = String::from_str("{ ");
    push_clone_shadows(&mut out, &handler_expr.captures);
    out.append(handler_expr.moved.as_str());
    out.append(" }");
    out
}

/// An expression node: as it is inside a `for` body, a clone elsewhere so
/// that the enclosing closure stays `FnMut`.
pub open spec fn expr_code(e: Expr, inside_for: bool) -> Seq<char> {
    if inside_for {
        "{ "@ + e.code@ + " }"@
    } else {
        "{ ( "@ + e.code@ + " ).clone() }"@
    }
}

/// Emits an expression node.
pub fn emit_expr(e: &Expr, inside_for: bool) -> (out: String)
    ensures
        out@ == expr_code(*e, inside_for),
{
    if inside_for {
        let mut out = String::from_str("{ ");
        out.append(e.code.as_str());
        out.append(" }");
        out
    } else {
        let mut out = String::from_str("{ ( ");
        out.append(e.code.as_str());
        out.append(" ).clone() }");
        out
    }
}

/// A node's markup.
pub open spec fn lp_node(node: RenderNode, n: usize, inside_for: bool, sh: bool) -> Out
    decreases node, 0int,
{
    match node {
        RenderNode::Element(el) => lp_element(el, n, inside_for, sh),
        RenderNode::Text(t) => Out { code: t@, binds: Seq::empty(), next: n },
        RenderNode::Expr(e) => Out { code: expr_code(e, inside_for), binds: Seq::empty(), next: n },
        RenderNode::If(i) => lp_if(i, n, inside_for, sh),
        RenderNode::For(f) => lp_for(f, n, sh),
        RenderNode::Root(nodes) => if nodes@.len() == 1 {
            lp_node(nodes@[0], n, inside_for, sh)
        } else {
            let o = lp_nodes(nodes@, n, inside_for, sh);
            Out { code: "<> "@ + o.code + "</>"@, binds: o.binds, next: o.next }
        },
    }
}

/// The markup of nodes one after the other, each followed by a space.
pub open spec fn lp_nodes(nodes: Seq<RenderNode>, n: usize, inside_for: bool, sh: bool) -> Out
    decreases nodes, 0int,
{
    if nodes.len() == 0 {
        Out { code: Seq::empty(), binds: Seq::empty(), next: n }
    } else {
        let a = lp_nodes(nodes.drop_last(), n, inside_for, sh);
        let b = lp_node(nodes.last(), a.next, inside_for, sh);
        Out { code: a.code + b.code + seq![' '], binds: a.binds + b.binds, next: b.next }
    }
}

/// An element's markup, carrying its `cfg` attributes.
pub open spec fn lp_element(el: Element, n: usize, inside_for: bool, sh: bool) -> Out
    decreases el, 3int,
{
    let o = lp_dispatch(el, n, inside_for, sh);
    Out { code: cfg_wrapped(el.attrs@, o.code), binds: o.binds, next: o.next }
}

/// Markup that binds nothing and takes no id.
pub open spec fn plain(code: Seq<char>, n: usize) -> Out {
    Out { code, binds: Seq::empty(), next: n }
}

/// The HTML tag that an element of another name becomes: the tag of that
/// name for the tags known here, `p` for `text`, and `div` for the rest.
pub open spec fn html_tag_of(name: Seq<char>) -> Seq<char> {
    if name == "div"@ {
        "div"@
    } else if name == "h1"@ {
        "h1"@
    } else if name == "h2"@ {
        "h2"@
    } else if name == "h3"@ {
        "h3"@
    } else if name == "p"@ || name == "text"@ {
        "p"@
    } else if name == "span"@ {
        "span"@
    } else if name == "a"@ {
        "a"@
    } else if name == "ul"@ {
        "ul"@
    } else if name == "li"@ {
        "li"@
    } else if name == "label"@ {
        "label"@
    } else if name == "textarea"@ {
        "textarea"@
    } else if name == "select"@ {
        "select"@
    } else if name == "form"@ {
        "form"@
    } else if name == "img"@ {
        "img"@
    } else {
        "div"@
    }
}

fn html_tag_of_exec(name: &str) -> (r: &'static str)
    ensures
        r@ == html_tag_of(name@),
{
    if str_eq(name, "div") {
        "div"
    } else if str_eq(name, "h1") {
        "h1"
    } else if str_eq(name, "h2") {
        "h2"
    } else if str_eq(name, "h3") {
        "h3"
    } else if str_eq(name, "p") || str_eq(name, "text") {
        "p"
    } else if str_eq(name, "span") {
        "span"
    } else if str_eq(name, "a") {
        "a"
    } else if str_eq(name, "ul") {
        "ul"
    } else if str_eq(name, "li") {
        "li"
    } else if str_eq(name, "label") {
        "label"
    } else if str_eq(name, "textarea") {
        "textarea"
    } else if str_eq(name, "select") {
        "select"
    } else if str_eq(name, "form") {
        "form"
    } else if str_eq(name, "img") {
        "img"
    } else {
        "div"
    }
}

/// An element's markup by its name.
pub open spec fn lp_dispatch(el: Element, n: usize, inside_for: bool, sh: bool) -> Out
    decreases el, 2int,
{
    let name = el.name@;
    if name == "separator"@ {
        if sh {
            lp_sh_separator(el, n)
        } else {
            plain(lp_separator(el), n)
        }
    } else if name == "skeleton"@ {
        if sh {
            lp_sh_skeleton(el, "animate-pulse rounded-md bg-muted"@, n)
        } else {
            plain(lp_skeleton(el), n)
        }
    } else if name == "skeleton_text"@ {
        if sh {
            lp_sh_skeleton(el, "animate-pulse h-4 w-full rounded-md bg-muted"@, n)
        } else {
            plain(lp_skeleton_text(el), n)
        }
    } else if name == "skeleton_avatar"@ {
        if sh {
            lp_sh_skeleton(el, "animate-pulse h-10 w-10 rounded-full bg-muted"@, n)
        } else {
            plain(lp_skeleton_avatar(el), n)
        }
    } else if name == "progress"@ {
        if sh {
            lp_sh_progress(el, n)
        } else {
            lp_progress(el, n)
        }
    } else if name == "checkbox"@ {
        if sh {
            lp_sh_toggle(el, "Checkbox_"@, "leptos_shadcn_ui::Checkbox"@, n)
        } else {
            lp_checkbox(el, n)
        }
    } else if name == "switch"@ {
        if sh {
            lp_sh_toggle(el, "Switch_"@, "leptos_shadcn_ui::Switch"@, n)
        } else {
            lp_switch(el, n)
        }
    } else if name == "radio_group"@ {
        if sh {
            lp_sh_radio_group(el, n, inside_for)
        } else {
            lp_radio_group(el, n, inside_for)
        }
    } else if name == "radio"@ {
        if sh {
            lp_sh_radio(el, n)
        } else {
            lp_radio(el, n)
        }
    } else if name == "slider"@ {
        if sh {
            lp_sh_slider(el, n)
        } else {
            lp_slider(el, n)
        }
    } else if name == "tooltip"@ {
        if sh {
            lp_sh_tooltip(el, n, inside_for)
        } else {
            plain(lp_tooltip(el, inside_for), n)
        }
    } else if name == "tabs"@ {
        if sh {
            lp_sh_tabs(el, n)
        } else {
            plain(lp_tabs(el), n)
        }
    } else if name == "data_table"@ {
        if sh {
            lp_sh_data_table(el, n)
        } else {
            lp_data_table(el, n)
        }
    } else if name == "dropdown_menu"@ {
        if sh {
            lp_sh_dropdown_menu(el, n, inside_for)
        } else {
            lp_dropdown_menu(el, n, inside_for)
        }
    } else if name == "styled_text"@ {
        lp_styled_text(el, n)
    } else if name == "input"@ {
        if sh {
            lp_sh_input(el, n)
        } else {
            lp_input(el, n, inside_for)
        }
    } else if name == "badge"@ {
        if sh {
            lp_sh_badge(el, n, inside_for)
        } else {
            lp_badge(el, n, inside_for)
        }
    } else if name == "scroll_area"@ {
        if sh {
            lp_sh_scroll_area(el, n, inside_for)
        } else {
            lp_scroll_area(el, n, inside_for)
        }
    } else if name == "virtual_list"@ {
        lp_virtual_list(el, n, inside_for, sh)
    } else if name == "clipboard_button"@ {
        lp_clipboard_button(el, n, inside_for, sh)
    } else if name == "button"@ {
        if sh {
            lp_sh_button(el, n, inside_for)
        } else {
            lp_button(el, n, inside_for)
        }
    } else if name == "icon"@ {
        lp_icon(el, n, inside_for, sh)
    } else {
        lp_html_tag(el, html_tag_of(name), n, inside_for, sh)
    }
}

/// Whether the markup of an element of this name holds its child nodes.
pub open spec fn lp_renders_children(name: Seq<char>, sh: bool) -> bool {
    if name == "separator"@ {
        false
    } else if name == "skeleton"@ {
        false
    } else if name == "skeleton_text"@ {
        false
    } else if name == "skeleton_avatar"@ {
        false
    } else if name == "progress"@ {
        false
    } else if name == "checkbox"@ {
        false
    } else if name == "switch"@ {
        false
    } else if name == "radio_group"@ {
        true
    } else if name == "radio"@ {
        false
    } else if name == "slider"@ {
        false
    } else if name == "tooltip"@ {
        false
    } else if name == "tabs"@ {
        false
    } else if name == "data_table"@ {
        false
    } else if name == "dropdown_menu"@ {
        false
    } else if name == "styled_text"@ {
        false
    } else if name == "input"@ {
        !sh
    } else {
        true
    }
}

fn lp_renders_children_exec(name: &str, sh: bool) -> (r: bool)
    ensures
        r == lp_renders_children(name@, sh),
{
    if str_eq(name, "separator") {
        false
    } else if str_eq(name, "skeleton") {
        false
    } else if str_eq(name, "skeleton_text") {
        false
    } else if str_eq(name, "skeleton_avatar") {
        false
    } else if str_eq(name, "progress") {
        false
    } else if str_eq(name, "checkbox") {
        false
    } else if str_eq(name, "switch") {
        false
    } else if str_eq(name, "radio_group") {
        true
    } else if str_eq(name, "radio") {
        false
    } else if str_eq(name, "slider") {
        false
    } else if str_eq(name, "tooltip") {
        false
    } else if str_eq(name, "tabs") {
        false
    } else if str_eq(name, "data_table") {
        false
    } else if str_eq(name, "dropdown_menu") {
        false
    } else if str_eq(name, "styled_text") {
        false
    } else if str_eq(name, "input") {
        !sh
    } else {
        true
    }
}

/// Whether a node can be emitted: every tab bar whose markup is emitted
/// has an `active` and an `on_click` argument.
pub open spec fn lp_ok(node: RenderNode, sh: bool) -> bool
    decreases node,
{
    match node {
        RenderNode::Element(el) => lp_element_ok(el, sh),
        RenderNode::If(i) => lp_if_ok(i, sh),
        RenderNode::For(f) => lp_all_ok(f.body@, sh),
        RenderNode::Root(nodes) => lp_all_ok(nodes@, sh),
        _ => true,
    }
}

/// Whether an element can be emitted.
pub open spec fn lp_element_ok(el: Element, sh: bool) -> bool
    decreases el,
{
    &&& el.name@ == "tabs"@ ==> has_arg(el.args@, "active"@) && has_arg(el.args@, "on_click"@)
    &&& lp_renders_children(el.name@, sh) ==> lp_all_ok(el.children@, sh)
}

/// Whether both branches of an `if` node can be emitted.
pub open spec fn lp_if_ok(i: IfNode, sh: bool) -> bool
    decreases i,
{
    &&& lp_all_ok(i.then_branch@, sh)
    &&& match i.else_branch {
        Some(eb) => lp_all_ok(eb@, sh),
        None => true,
    }
}

/// Whether every node of `nodes` can be emitted.
pub open spec fn lp_all_ok(nodes: Seq<RenderNode>, sh: bool) -> bool
    decreases nodes,
{
    if nodes.len() == 0 {
        true
    } else {
        lp_all_ok(nodes.drop_last(), sh) && lp_ok(nodes.last(), sh)
    }
}

/// Each node of a sequence that can be emitted can be emitted.
pub proof fn lemma_lp_all_ok(nodes: Seq<RenderNode>, i: int, sh: bool)
    requires
        lp_all_ok(nodes, sh),
        0 <= i < nodes.len(),
    ensures
        lp_ok(nodes[i], sh),
        lp_all_ok(nodes.subrange(0, i + 1), sh),
    decreases nodes.len(),
{
    if i == nodes.len() - 1 {
        assert(nodes.subrange(0, i + 1) =~= nodes);
    } else {
        lemma_lp_all_ok(nodes.drop_last(), i, sh);
        assert(nodes.drop_last().subrange(0, i + 1) =~= nodes.subrange(0, i + 1));
    }
}

/// `if` node: a reactive closure, carrying the node's `cfg` attributes.
pub open spec fn lp_if(i: IfNode, n: usize, inside_for: bool, sh: bool) -> Out
    decreases i, 1int,
{
    let o = lp_if_body(i, n, inside_for, sh);
    Out {
        code: cfg_wrapped(i.attrs@, "move || { use leptos::prelude::*; "@ + o.code + " }"@),
        binds: o.binds,
        next: o.next,
    }
}

/// The body of an `if` node's closure; an `else` branch that is a single
/// `if` node continues the chain.
pub open spec fn lp_if_body(i: IfNode, n: usize, inside_for: bool, sh: bool) -> Out
    decreases i, 0int,
{
    let t = lp_nodes(i.then_branch@, n, inside_for, sh);
    let then_part = "if "@ + i.condition@ + " { { leptos::view! { "@ + t.code
        + "} }.into_any() } else { "@;
    match i.else_branch {
        Some(eb) => if eb@.len() == 1 && eb@[0] is If {
            match eb@[0] {
                RenderNode::If(nested) => {
                    let e = lp_if_body(nested, t.next, inside_for, sh);
                    Out { code: then_part + e.code + " }"@, binds: t.binds + e.binds, next: e.next }
                },
                _ => t,
            }
        } else {
            let e = lp_nodes(eb@, t.next, inside_for, sh);
            Out {
                code: then_part + "{ leptos::view! { "@ + e.code + "} }.into_any() }"@,
                binds: t.binds + e.binds,
                next: e.next,
            }
        },
        None => Out {
            code: "( "@ + i.condition@ + " ).then(|| { leptos::view! { "@ + t.code
                + "} }.into_any())"@,
            binds: t.binds,
            next: t.next,
        },
    }
}

/// `for` node: the iterable is cloned into a binding and mapped to views;
/// the node's `cfg` attributes are carried over.
pub open spec fn lp_for(f: ForNode, n: usize, sh: bool) -> Out
    decreases f, 0int,
{
    let b = lp_nodes(f.body@, n, true, sh);
    let name = id_name("__quoin_for_iter_"@, b.next);
    Out {
        code: cfg_wrapped(
            f.attrs@,
            "{ "@ + name + ".clone().into_iter().map(| "@ + f.pat@ + " | { leptos::view! { "@
                + b.code + "} }).collect::<Vec<_>>() }"@,
        ),
        binds: b.binds + "let "@ + name + " = ( "@ + f.iterable@ + " ).clone(); "@,
        next: next_id(b.next),
    }
}

/// The whole `view!` block for a node: the Leptos prelude, the bindings,
/// then the view, carrying the node's `cfg` attributes.
pub open spec fn lp_render(node: RenderNode, n: usize, sh: bool) -> Out {
    let o = lp_node(node, n, false, sh);
    Out {
        code: cfg_wrapped(
            node_attrs(node),
            "{ use leptos::prelude::*; "@ + o.binds + "leptos::view! { "@ + o.code + " } }"@,
        ),
        binds: Seq::empty(),
        next: o.next,
    }
}

/// Top-level render entry point: the node as a Leptos `view!` block.
pub fn emit_render(node: &RenderNode, ids: &mut ExtractIds) -> (out: String)
    requires
        lp_ok(*node, false),
    ensures
        out@ == lp_render(*node, old(ids).next, false).code,
        final(ids).next == lp_render(*node, old(ids).next, false).next,
{
    emit_view(node, ids, false)
}

/// The node as a Leptos `view!` block, with the components of
/// `leptos_shadcn_ui` when `sh` holds.
pub fn emit_view(node: &RenderNode, ids: &mut ExtractIds, sh: bool) -> (out: String)
    requires
        lp_ok(*node, sh),
    ensures
        out@ == lp_render(*node, old(ids).next, sh).code,
        final(ids).next == lp_render(*node, old(ids).next, sh).next,
{
    let mut bindings = String::new();
    let inner = emit_node(node, &mut bindings, false, ids, sh);
    let mut tokens = String::from_str("{ use leptos::prelude::*; ");
    tokens.append(bindings.as_str());
    tokens.append("leptos::view! { ");
    tokens.append(inner.as_str());
    tokens.append(" } }");
    wrap_with_cfg(node.attrs(), tokens)
}

/// Emits a node.
pub fn emit_node(node: &RenderNode, bindings: &mut String, inside_for: bool, ids: &mut ExtractIds, sh: bool) -> (out: String)
    requires
        lp_ok(*node, sh),
    ensures
        produced(lp_node(*node, old(ids).next, inside_for, sh), out@, old(bindings)@, final(bindings)@, final(ids).next),
    decreases node, 0int,
{
    match node {
        RenderNode::Element(el) => emit_element(el, bindings, inside_for, ids, sh),
        RenderNode::Text(t) => crate::text::copy_string(t),
        RenderNode::Expr(e) => emit_expr(e, inside_for),
        RenderNode::If(i) => emit_if(i, bindings, inside_for, ids, sh),
        RenderNode::For(f) => emit_for(f, bindings, ids, sh),
        RenderNode::Root(nodes) => {
            if nodes.len() == 1 {
                emit_node(&nodes[0], bindings, inside_for, ids, sh)
            } else {
                let inner = emit_nodes(nodes, bindings, inside_for, ids, sh);
                let mut out = String::from_str("<> ");
                out.append(inner.as_str());
                out.append("</>");
                out
            }
        },
    }
}

/// Emits nodes one after the other, each followed by a space.
pub fn emit_nodes(nodes: &Vec<RenderNode>, bindings: &mut String, inside_for: bool, ids: &mut ExtractIds, sh: bool) -> (out: String)
    requires
        lp_all_ok(nodes@, sh),
    ensures
        produced(lp_nodes(nodes@, old(ids).next, inside_for, sh), out@, old(bindings)@, final(bindings)@, final(ids).next),
    decreases nodes, 0int,
{
    let ghost b0 = bindings@;
    let ghost n0 = ids.next;
    let mut out = String::new();
    let mut i: usize = 0;
    while i < nodes.len()
        invariant
            i <= nodes@.len(),
            produced(lp_nodes(nodes@.subrange(0, i as int), n0, inside_for, sh), out@, b0, bindings@, ids.next),
            lp_all_ok(nodes@, sh),
        decreases nodes@.len() - i,
    {
        let ghost after = nodes@.subrange(0, i + 1);
        assert(after.drop_last() =~= nodes@.subrange(0, i as int));
        assert(after.last() == nodes@[i as int]);
        proof { lemma_lp_all_ok(nodes@, i as int, sh); }
        let t = emit_node(&nodes[i], bindings, inside_for, ids, sh);
        out.append(t.as_str());
        out.append(" ");
        proof { reveal_strlit(" "); }
        i = i + 1;
        assert(out@ =~= lp_nodes(nodes@.subrange(0, i as int), n0, inside_for, sh).code);
        assert(bindings@ =~= b0 + lp_nodes(nodes@.subrange(0, i as int), n0, inside_for, sh).binds);
    }
    assert(nodes@.subrange(0, nodes@.len() as int) =~= nodes@);
    out
}

/// Emits an element, carrying its `cfg` attributes.
pub fn emit_element(el: &Element, bindings: &mut String, inside_for: bool, ids: &mut ExtractIds, sh: bool) -> (out: String)
    requires
        lp_element_ok(*el, sh),
    ensures
        produced(lp_element(*el, old(ids).next, inside_for, sh), out@, old(bindings)@, final(bindings)@, final(ids).next),
    decreases el, 3int,
{
    let inner = emit_element_inner(el, bindings, inside_for, ids, sh);
    wrap_with_cfg(el.attrs.as_slice(), inner)
}

/// Emits an element by its name.
pub fn emit_element_inner(el: &Element, bindings: &mut String, inside_for: bool, ids: &mut ExtractIds, sh: bool) -> (out: String)
    requires
        lp_element_ok(*el, sh),
    ensures
        produced(lp_dispatch(*el, old(ids).next, inside_for, sh), out@, old(bindings)@, final(bindings)@, final(ids).next),
    decreases el, 2int,
{
    let name = el.name.as_str();
    if str_eq(name, "separator") {
        if sh {
            emit_sh_separator(el, bindings, ids)
        } else {
            emit_separator(el)
        }
    } else if str_eq(name, "skeleton") {
        if sh {
            emit_sh_skeleton(el, "animate-pulse rounded-md bg-muted", bindings, ids)
        } else {
            emit_skeleton(el)
        }
    } else if str_eq(name, "skeleton_text") {
        if sh {
            emit_sh_skeleton(el, "animate-pulse h-4 w-full rounded-md bg-muted", bindings, ids)
        } else {
            emit_skeleton_text(el)
        }
    } else if str_eq(name, "skeleton_avatar") {
        if sh {
            emit_sh_skeleton(el, "animate-pulse h-10 w-10 rounded-full bg-muted", bindings, ids)
        } else {
            emit_skeleton_avatar(el)
        }
    } else if str_eq(name, "progress") {
        if sh {
            emit_sh_progress(el, bindings, ids)
        } else {
            emit_progress(el, bindings, ids)
        }
    } else if str_eq(name, "checkbox") {
        if sh {
            emit_sh_toggle(el, "Checkbox_", "leptos_shadcn_ui::Checkbox", bindings, ids)
        } else {
            emit_checkbox(el, bindings, ids)
        }
    } else if str_eq(name, "switch") {
        if sh {
            emit_sh_toggle(el, "Switch_", "leptos_shadcn_ui::Switch", bindings, ids)
        } else {
            emit_switch(el, bindings, ids)
        }
    } else if str_eq(name, "radio_group") {
        if sh {
            emit_sh_radio_group(el, bindings, inside_for, ids)
        } else {
            emit_radio_group(el, bindings, inside_for, ids)
        }
    } else if str_eq(name, "radio") {
        if sh {
            emit_sh_radio(el, bindings, ids)
        } else {
            emit_radio(el, bindings, ids)
        }
    } else if str_eq(name, "slider") {
        if sh {
            emit_sh_slider(el, bindings, ids)
        } else {
            emit_slider(el, bindings, ids)
        }
    } else if str_eq(name, "tooltip") {
        if sh {
            emit_sh_tooltip(el, bindings, inside_for, ids)
        } else {
            emit_tooltip(el, inside_for)
        }
    } else if str_eq(name, "tabs") {
        if sh {
            emit_sh_tabs(el, bindings, ids)
        } else {
            emit_tabs(el)
        }
    } else if str_eq(name, "data_table") {
        if sh {
            emit_sh_data_table(el, bindings, ids)
        } else {
            emit_data_table(el, bindings, ids)
        }
    } else if str_eq(name, "dropdown_menu") {
        if sh {
            emit_sh_dropdown_menu(el, bindings, inside_for, ids)
        } else {
            emit_dropdown_menu(el, bindings, inside_for, ids)
        }
    } else if str_eq(name, "styled_text") {
        emit_styled_text(el, bindings, ids)
    } else if str_eq(name, "input") {
        if sh {
            emit_sh_input(el, bindings, ids)
        } else {
            emit_input(el, bindings, inside_for, ids)
        }
    } else if str_eq(name, "badge") {
        if sh {
            emit_sh_badge(el, bindings, inside_for, ids)
        } else {
            emit_badge(el, bindings, inside_for, ids)
        }
    } else if str_eq(name, "scroll_area") {
        if sh {
            emit_sh_scroll_area(el, bindings, inside_for, ids)
        } else {
            emit_scroll_area(el, bindings, inside_for, ids)
        }
    } else if str_eq(name, "virtual_list") {
        emit_virtual_list(el, bindings, inside_for, ids, sh)
    } else if str_eq(name, "clipboard_button") {
        emit_clipboard_button(el, bindings, inside_for, ids, sh)
    } else if str_eq(name, "button") {
        if sh {
            emit_sh_button(el, bindings, inside_for, ids)
        } else {
            emit_button(el, bindings, inside_for, ids)
        }
    } else if str_eq(name, "icon") {
        emit_icon(el, bindings, inside_for, ids, sh)
    } else {
        emit_html_tag(el, html_tag_of_exec(name), bindings, inside_for, ids, sh)
    }
}

/// Emits an `if` node.
pub fn emit_if(if_node: &IfNode, bindings: &mut String, inside_for: bool, ids: &mut ExtractIds, sh: bool) -> (out: String)
    requires
        lp_if_ok(*if_node, sh),
    ensures
        produced(lp_if(*if_node, old(ids).next, inside_for, sh), out@, old(bindings)@, final(bindings)@, final(ids).next),
    decreases if_node, 1int,
{
    let body = build_if_body(if_node, bindings, inside_for, ids, sh);
    let mut inner = String::from_str("move || { use leptos::prelude::*; ");
    inner.append(body.as_str());
    inner.append(" }");
    wrap_with_cfg(if_node.attrs.as_slice(), inner)
}

/// Emits the body of an `if` node's closure.
pub fn build_if_body(if_node: &IfNode, bindings: &mut String, inside_for: bool, ids: &mut ExtractIds, sh: bool) -> (out: String)
    requires
        lp_if_ok(*if_node, sh),
    ensures
        produced(lp_if_body(*if_node, old(ids).next, inside_for, sh), out@, old(bindings)@, final(bindings)@, final(ids).next),
    decreases if_node, 0int,
{
    let ghost b0 = bindings@;
    let ghost n0 = ids.next;
    let then_view = emit_nodes(&if_node.then_branch, bindings, inside_for, ids, sh);
    match &if_node.else_branch {
        Some(else_branch) => {
            let mut out = String::from_str("if ");
            out.append(if_node.condition.as_str());
            out.append(" { { leptos::view! { ");
            out.append(then_view.as_str());
            out.append("} }.into_any() } else { ");
            if else_branch.len() == 1 {
                proof { lemma_lp_all_ok(else_branch@, 0, sh); }
                if let RenderNode::If(nested_if) = &else_branch[0] {
                    let nested_body = build_if_body(nested_if, bindings, inside_for, ids, sh);
                    out.append(nested_body.as_str());
                    out.append(" }");
                    assert(bindings@ =~= b0 + lp_if_body(*if_node, n0, inside_for, sh).binds);
                    return out;
                }
            }
            let else_view = emit_nodes(else_branch, bindings, inside_for, ids, sh);
            out.append("{ leptos::view! { ");
            out.append(else_view.as_str());
            out.append("} }.into_any() }");
            assert(bindings@ =~= b0 + lp_if_body(*if_node, n0, inside_for, sh).binds);
            out
        },
        None => {
            let mut out = String::from_str("( ");
            out.append(if_node.condition.as_str());
            out.append(" ).then(|| { leptos::view! { ");
            out.append(then_view.as_str());
            out.append("} }.into_any())");
            out
        },
    }
}

/// Emits a `for` node.
pub fn emit_for(for_node: &ForNode, bindings: &mut String, ids: &mut ExtractIds, sh: bool) -> (out: String)
    requires
        lp_all_ok(for_node.body@, sh),
    ensures
        produced(lp_for(*for_node, old(ids).next, sh), out@, old(bindings)@, final(bindings)@, final(ids).next),
    decreases for_node, 0int,
{
    let ghost b0 = bindings@;
    let ghost n0 = ids.next;
    let body_view = emit_nodes(&for_node.body, bindings, true, ids, sh);
    let iter_id = next_extract_id(ids);
    let iter_name = make_id_name("__quoin_for_iter_", iter_id);
    bindings.append("let ");
    bindings.append(iter_name.as_str());
    bindings.append(" = ( ");
    bindings.append(for_node.iterable.as_str());
    bindings.append(" ).clone(); ");
    let mut inner = String::from_str("{ ");
    inner.append(iter_name.as_str());
    inner.append(".clone().into_iter().map(| ");
    inner.append(for_node.pat.as_str());
    inner.append(" | { leptos::view! { ");
    inner.append(body_view.as_str());
    inner.append("} }).collect::<Vec<_>>() }");
    assert(bindings@ =~= b0 + lp_for(*for_node, n0, sh).binds);
    wrap_with_cfg(for_node.attrs.as_slice(), inner)
}

/// Whether the node can be emitted: every tab bar whose markup is emitted
/// has an `active` and an `on_click` argument.
pub fn is_renderable(node: &RenderNode) -> (r: bool)
    ensures
        r == lp_ok(*node, false),
{
    renderable(node, false)
}

/// Whether the node can be emitted, with the components of
/// `leptos_shadcn_ui` when `sh` holds.
pub fn renderable(node: &RenderNode, sh: bool) -> (r: bool)
    ensures
        r == lp_ok(*node, sh),
    decreases node,
{
    match node {
        RenderNode::Element(el) => {
            let name = el.name.as_str();
            let tabs_ok = !str_eq(name, "tabs") || (el_has_arg(el, "active") && el_has_arg(el, "on_click"));
            tabs_ok && (!lp_renders_children_exec(name, sh) || all_renderable(&el.children, sh))
        },
        RenderNode::If(i) => all_renderable(&i.then_branch, sh) && match &i.else_branch {
            Some(eb) => all_renderable(eb, sh),
            None => true,
        },
        RenderNode::For(f) => all_renderable(&f.body, sh),
        RenderNode::Root(nodes) => all_renderable(nodes, sh),
        _ => true,
    }
}

/// Whether every node can be emitted.
pub fn all_renderable(nodes: &Vec<RenderNode>, sh: bool) -> (r: bool)
    ensures
        r == lp_all_ok(nodes@, sh),
    decreases nodes,
{
    let mut i: usize = 0;
    while i < nodes.len()
        invariant
            i <= nodes@.len(),
            lp_all_ok(nodes@.subrange(0, i as int), sh),
        decreases nodes@.len() - i,
    {
        let ghost after = nodes@.subrange(0, i + 1);
        assert(after.drop_last() =~= nodes@.subrange(0, i as int));
        if !renderable(&nodes[i], sh) {
            proof {
                if lp_all_ok(nodes@, sh) {
                    lemma_lp_all_ok(nodes@, i as int, sh);
                }
            }
            return false;
        }
        i = i + 1;
    }
    assert(nodes@.subrange(0, nodes@.len() as int) =~= nodes@);
    true
}

} // verus!
