//! Dioxus RSX with the `shadcn_dioxus` component library: the components
//! that it provides become its components, the others stay as they are.

pub mod components;

use vstd::prelude::*;
use crate::ast::{Element, ForNode, IfNode, RenderNode, node_attrs};
use crate::emit::cfg::{cfg_wrapped, wrap_with_cfg};
use crate::text::str_eq;
use super::generic::{emit_html_el, html_el};
use super::simple_components::{
    clipboard_button, emit_clipboard_button, emit_icon, emit_scroll_area, emit_styled_text, icon, scroll_area,
    styled_text,
};
use super::virtual_list::{emit_virtual_list, virtual_list};
use super::{effective_name, element_ok, expr_child};
use self::components::{
    emit_sh_badge, emit_sh_button, emit_sh_checkbox, emit_sh_data_table, emit_sh_dropdown_menu, emit_sh_input,
    emit_sh_progress, emit_sh_radio, emit_sh_radio_group, emit_sh_separator, emit_sh_skeleton_with, emit_sh_slider,
    emit_sh_switch, emit_sh_tabs, emit_sh_tooltip, sh_badge, sh_button, sh_checkbox, sh_data_table, sh_dropdown_menu,
    sh_input, sh_progress, sh_radio, sh_radio_group, sh_separator, sh_skeleton_with, sh_slider, sh_switch, sh_tabs,
    sh_tooltip,
};

verus! {

/// Whether the RSX of an element of this (effective) name holds its child
/// nodes.
pub open spec fn sh_renders_children(name: Seq<char>) -> bool {
    if name == "separator"@ {
        false
    } else if name == "skeleton"@ {
        false
    } else if name == "skeleton_text"@ {
        false
    } else if name == "skeleton_avatar"@ {
        false
    } else if name == "progress"@ {
        false
    } else if name == "checkbox"@ {
        false
    } else if name == "switch"@ {
        false
    } else if name == "radio_group"@ {
        true
    } else if name == "radio"@ {
        false
    } else if name == "slider"@ {
        false
    } else if name == "tooltip"@ {
        false
    } else if name == "tabs"@ {
        false
    } else if name == "data_table"@ {
        false
    } else if name == "dropdown_menu"@ {
        false
    } else if name == "styled_text"@ {
        false
    } else if name == "badge"@ {
        true
    } else if name == "scroll_area"@ {
        true
    } else if name == "virtual_list"@ {
        true
    } else if name == "clipboard_button"@ {
        true
    } else if name == "button"@ {
        true
    } else if name == "icon"@ {
        true
    } else if name == "input"@ {
        false
    } else {
        true
    }
}

fn sh_renders_children_exec(name: &str) -> (r: bool)
    ensures
        r == sh_renders_children(name@),
{
    if str_eq(name, "separator") {
        false
    } else if str_eq(name, "skeleton") {
        false
    } else if str_eq(name, "skeleton_text") {
        false
    } else if str_eq(name, "skeleton_avatar") {
        false
    } else if str_eq(name, "progress") {
        false
    } else if str_eq(name, "checkbox") {
        false
    } else if str_eq(name, "switch") {
        false
    } else if str_eq(name, "radio_group") {
        true
    } else if str_eq(name, "radio") {
        false
    } else if str_eq(name, "slider") {
        false
    } else if str_eq(name, "tooltip") {
        false
    } else if str_eq(name, "tabs") {
        false
    } else if str_eq(name, "data_table") {
        false
    } else if str_eq(name, "dropdown_menu") {
        false
    } else if str_eq(name, "styled_text") {
        false
    } else if str_eq(name, "badge") {
        true
    } else if str_eq(name, "scroll_area") {
        true
    } else if str_eq(name, "virtual_list") {
        true
    } else if str_eq(name, "clipboard_button") {
        true
    } else if str_eq(name, "button") {
        true
    } else if str_eq(name, "icon") {
        true
    } else if str_eq(name, "input") {
        false
    } else {
        true
    }
}

/// The RSX of an element by its name, with `kids` the RSX of its child
/// nodes.
pub open spec fn sh_dispatch(el: Element, kids: Seq<char>) -> Seq<char> {
    let name = effective_name(el.name@);
    if name == "separator"@ {
        sh_separator(el)
    } else if name == "skeleton"@ {
        sh_skeleton_with("animate-pulse rounded-md bg-muted"@)
    } else if name == "skeleton_text"@ {
        sh_skeleton_with("animate-pulse h-4 w-full rounded-md bg-muted"@)
    } else if name == "skeleton_avatar"@ {
        sh_skeleton_with("animate-pulse h-10 w-10 rounded-full bg-muted"@)
    } else if name == "progress"@ {
        sh_progress(el)
    } else if name == "checkbox"@ {
        sh_checkbox(el)
    } else if name == "switch"@ {
        sh_switch(el)
    } else if name == "radio_group"@ {
        sh_radio_group(el, kids)
    } else if name == "radio"@ {
        sh_radio(el)
    } else if name == "slider"@ {
        sh_slider(el)
    } else if name == "tooltip"@ {
        sh_tooltip(el)
    } else if name == "tabs"@ {
        sh_tabs(el)
    } else if name == "data_table"@ {
        sh_data_table(el)
    } else if name == "dropdown_menu"@ {
        sh_dropdown_menu(el)
    } else if name == "styled_text"@ {
        styled_text(el)
    } else if name == "badge"@ {
        sh_badge(el, kids)
    } else if name == "scroll_area"@ {
        scroll_area(el, kids)
    } else if name == "virtual_list"@ {
        virtual_list(el, kids)
    } else if name == "clipboard_button"@ {
        clipboard_button(el, kids)
    } else if name == "button"@ {
        sh_button(el, kids)
    } else if name == "icon"@ {
        icon(el, kids)
    } else if name == "input"@ {
        sh_input(el)
    } else {
        html_el(el, el.name@, kids)
    }
}

/// The RSX of a node.
pub open spec fn sh_inner(node: RenderNode) -> Seq<char>
    decreases node,
{
    match node {
        RenderNode::Element(el) => sh_element(el),
        RenderNode::Text(t) => t@,
        RenderNode::Expr(e) => expr_child(e),
        RenderNode::If(i) => sh_if(i),
        RenderNode::For(f) => sh_for(f),
        RenderNode::Root(nodes) => sh_nodes(nodes@),
    }
}

/// The RSX of nodes one after the other.
pub open spec fn sh_nodes(nodes: Seq<RenderNode>) -> Seq<char>
    decreases nodes,
{
    if nodes.len() == 0 {
        Seq::empty()
    } else {
        sh_nodes(nodes.drop_last()) + sh_inner(nodes.last()) + seq![' ']
    }
}

/// The RSX of an element, carrying its `cfg` attributes.
pub open spec fn sh_element(el: Element) -> Seq<char>
    decreases el,
{
    cfg_wrapped(el.attrs@, sh_dispatch(el, sh_nodes(el.children@)))
}

/// `if cond { ... } else ...`, an `else` branch that is a single `if` node
/// continuing the chain.
pub open spec fn sh_if(i: IfNode) -> Seq<char>
    decreases i,
{
    let head = "if "@ + i.condition@ + " { "@ + sh_nodes(i.then_branch@) + "}"@;
    match i.else_branch {
        Some(eb) => if eb@.len() == 1 && eb@[0] is If {
            match eb@[0] {
                RenderNode::If(nested) => head + " else "@ + sh_if(nested),
                _ => head,
            }
        } else {
            head + " else { "@ + sh_nodes(eb@) + "}"@
        },
        None => head,
    }
}

/// `for pat in iterable { ... }`.
pub open spec fn sh_for(f: ForNode) -> Seq<char>
    decreases f,
{
    "for "@ + f.pat@ + " in "@ + f.iterable@ + " { "@ + sh_nodes(f.body@) + "}"@
}

/// The whole `rsx!` invocation for a node, carrying the node's `cfg`
/// attributes.
pub open spec fn sh_render(node: RenderNode) -> Seq<char> {
    cfg_wrapped(
        node_attrs(node),
        "{ use dioxus::prelude::*; dioxus::prelude::rsx! { "@ + sh_inner(node) + " } }"@,
    )
}

/// Whether a node can be emitted: every tab bar that is emitted has an
/// `active` and an `on_click` argument, and every data table a `rows`
/// argument and a `label` and a `render` argument on each column.
pub open spec fn sh_ok(node: RenderNode) -> bool
    decreases node,
{
    match node {
        RenderNode::Element(el) => element_ok(el) && (sh_renders_children(effective_name(el.name@))
            ==> sh_all_ok(el.children@)),
        RenderNode::If(i) => sh_all_ok(i.then_branch@) && match i.else_branch {
            Some(eb) => sh_all_ok(eb@),
            None => true,
        },
        RenderNode::For(f) => sh_all_ok(f.body@),
        RenderNode::Root(nodes) => sh_all_ok(nodes@),
        _ => true,
    }
}

/// Whether every node of `nodes` can be emitted.
pub open spec fn sh_all_ok(nodes: Seq<RenderNode>) -> bool
    decreases nodes,
{
    if nodes.len() == 0 {
        true
    } else {
        sh_all_ok(nodes.drop_last()) && sh_ok(nodes.last())
    }
}

/// Each node of a sequence that can be emitted can be emitted.
pub proof fn lemma_sh_all_ok(nodes: Seq<RenderNode>, i: int)
    requires
        sh_all_ok(nodes),
        0 <= i < nodes.len(),
    ensures
        sh_ok(nodes[i]),
        sh_all_ok(nodes.subrange(0, i + 1)),
    decreases nodes.len(),
{
    if i == nodes.len() - 1 {
        assert(nodes.subrange(0, i + 1) =~= nodes);
    } else {
        lemma_sh_all_ok(nodes.drop_last(), i);
        assert(nodes.drop_last().subrange(0, i + 1) =~= nodes.subrange(0, i + 1));
    }
}

/// Top-level render entry point: the node as a `rsx!` invocation.
pub fn emit_render(node: &RenderNode) -> (out: String)
    requires
        sh_ok(*node),
    ensures
        out@ == sh_render(*node),
{
    let inner = emit_render_inner(node);
    let mut tokens = String::from_str("{ use dioxus::prelude::*; dioxus::prelude::rsx! { ");
    tokens.append(inner.as_str());
    tokens.append(" } }");
    wrap_with_cfg(node.attrs(), tokens)
}

/// The RSX of a node.
pub fn emit_render_inner(node: &RenderNode) -> (out: String)
    requires
        sh_ok(*node),
    ensures
        out@ == sh_inner(*node),
    decreases node,
{
    match node {
        RenderNode::Element(el) => emit_element(el),
        RenderNode::Text(t) => t.clone(),
        RenderNode::Expr(e) => {
            let mut out = String::from_str("{ ");
            out.append(e.code.as_str());
            out.append(" }");
            out
        },
        RenderNode::If(i) => emit_if(i),
        RenderNode::For(f) => emit_for(f),
        RenderNode::Root(nodes) => emit_nodes_inner(nodes),
    }
}

/// The RSX of nodes one after the other.
pub fn emit_nodes_inner(nodes: &Vec<RenderNode>) -> (out: String)
    requires
        sh_all_ok(nodes@),
    ensures
        out@ == sh_nodes(nodes@),
    decreases nodes,
{
    let mut out = String::new();
    let mut i: usize = 0;
    while i < nodes.len()
        invariant
            i <= nodes@.len(),
            sh_all_ok(nodes@),
            out@ == sh_nodes(nodes@.subrange(0, i as int)),
        decreases nodes@.len() - i,
    {
        proof { lemma_sh_all_ok(nodes@, i as int); }
        let t = emit_render_inner(&nodes[i]);
        out.append(t.as_str());
        out.append(" ");
        proof {
            reveal_strlit(" ");
            let after = nodes@.subrange(0, i + 1);
            assert(after.drop_last() =~= nodes@.subrange(0, i as int));
        }
        i = i + 1;
        assert(out@ =~= sh_nodes(nodes@.subrange(0, i as int)));
    }
    assert(nodes@.subrange(0, nodes@.len() as int) =~= nodes@);
    out
}

/// The RSX of an element, carrying its `cfg` attributes.
pub fn emit_element(el: &Element) -> (out: String)
    requires
        sh_ok(RenderNode::Element(*el)),
    ensures
        out@ == sh_element(*el),
    decreases el,
{
    let name_str = el.name.as_str();
    let effective = if str_eq(name_str, "tab_bar") { "tabs" } else { name_str };
    let kids = if sh_renders_children_exec(effective) {
        emit_nodes_inner(&el.children)
    } else {
        String::new()
    };
    let inner = emit_element_inner(el, kids.as_str());
    wrap_with_cfg(el.attrs.as_slice(), inner)
}

/// The RSX of an element by its name, with `kids` the RSX of its children.
pub fn emit_element_inner(el: &Element, kids: &str) -> (out: String)
    requires
        element_ok(*el),
        sh_renders_children(effective_name(el.name@)) ==> kids@ == sh_nodes(el.children@),
    ensures
        out@ == sh_dispatch(*el, sh_nodes(el.children@)),
{
    let name_str = el.name.as_str();
    let name = if str_eq(name_str, "tab_bar") { "tabs" } else { name_str };
    if str_eq(name, "separator") {
        emit_sh_separator(el)
    } else if str_eq(name, "skeleton") {
        emit_sh_skeleton_with("animate-pulse rounded-md bg-muted")
    } else if str_eq(name, "skeleton_text") {
        emit_sh_skeleton_with("animate-pulse h-4 w-full rounded-md bg-muted")
    } else if str_eq(name, "skeleton_avatar") {
        emit_sh_skeleton_with("animate-pulse h-10 w-10 rounded-full bg-muted")
    } else if str_eq(name, "progress") {
        emit_sh_progress(el)
    } else if str_eq(name, "checkbox") {
        emit_sh_checkbox(el)
    } else if str_eq(name, "switch") {
        emit_sh_switch(el)
    } else if str_eq(name, "radio_group") {
        emit_sh_radio_group(el, kids)
    } else if str_eq(name, "radio") {
        emit_sh_radio(el)
    } else if str_eq(name, "slider") {
        emit_sh_slider(el)
    } else if str_eq(name, "tooltip") {
        emit_sh_tooltip(el)
    } else if str_eq(name, "tabs") {
        emit_sh_tabs(el)
    } else if str_eq(name, "data_table") {
        emit_sh_data_table(el)
    } else if str_eq(name, "dropdown_menu") {
        emit_sh_dropdown_menu(el)
    } else if str_eq(name, "styled_text") {
        emit_styled_text(el)
    } else if str_eq(name, "badge") {
        emit_sh_badge(el, kids)
    } else if str_eq(name, "scroll_area") {
        emit_scroll_area(el, kids)
    } else if str_eq(name, "virtual_list") {
        emit_virtual_list(el, kids)
    } else if str_eq(name, "clipboard_button") {
        emit_clipboard_button(el, kids)
    } else if str_eq(name, "button") {
        emit_sh_button(el, kids)
    } else if str_eq(name, "icon") {
        emit_icon(el, kids)
    } else if str_eq(name, "input") {
        emit_sh_input(el)
    } else {
        emit_html_el(el, name_str, kids)
    }
}

/// Emits an `if` node.
pub fn emit_if(if_node: &IfNode) -> (out: String)
    requires
        sh_all_ok(if_node.then_branch@),
        match if_node.else_branch {
            Some(eb) => sh_all_ok(eb@),
            None => true,
        },
    ensures
        out@ == sh_if(*if_node),
    decreases if_node,
{
    let mut out = String::from_str("if ");
    out.append(if_node.condition.as_str());
    out.append(" { ");
    let then_tokens = emit_nodes_inner(&if_node.then_branch);
    out.append(then_tokens.as_str());
    out.append("}");
    match &if_node.else_branch {
        Some(else_branch) => {
            if else_branch.len() == 1 {
                proof { lemma_sh_all_ok(else_branch@, 0); }
                if let RenderNode::If(nested_if) = &else_branch[0] {
                    let nested = emit_if(nested_if);
                    out.append(" else ");
                    out.append(nested.as_str());
                    return out;
                }
            }
            let else_tokens = emit_nodes_inner(else_branch);
            out.append(" else { ");
            out.append(else_tokens.as_str());
            out.append("}");
            out
        },
        None => out,
    }
}

/// Emits a `for` node.
pub fn emit_for(for_node: &ForNode) -> (out: String)
    requires
        sh_all_ok(for_node.body@),
    ensures
        out@ == sh_for(*for_node),
    decreases for_node,
{
    let mut out = String::from_str("for ");
    out.append(for_node.pat.as_str());
    out.append(" in ");
    out.append(for_node.iterable.as_str());
    out.append(" { ");
    let body = emit_nodes_inner(&for_node.body);
    out.append(body.as_str());
    out.append("}");
    out
}

/// Whether the node can be emitted: every tab bar that is emitted has an
/// `active` and an `on_click` argument, and every data table a `rows`
/// argument and a `label` and a `render` argument on each column.
pub fn is_renderable(node: &RenderNode) -> (r: bool)
    ensures
        r == sh_ok(*node),
    decreases node,
{
    match node {
        RenderNode::Element(el) => {
            let name_str = el.name.as_str();
            let name = if str_eq(name_str, "tab_bar") { "tabs" } else { name_str };
            super::element_ok_exec(el) && (!sh_renders_children_exec(name) || all_renderable(&el.children))
        },
        RenderNode::If(i) => all_renderable(&i.then_branch) && match &i.else_branch {
            Some(eb) => all_renderable(eb),
            None => true,
        },
        RenderNode::For(f) => all_renderable(&f.body),
        RenderNode::Root(nodes) => all_renderable(nodes),
        _ => true,
    }
}

/// Whether every node can be emitted.
pub fn all_renderable(nodes: &Vec<RenderNode>) -> (r: bool)
    ensures
        r == sh_all_ok(nodes@),
    decreases nodes,
{
    let mut i: usize = 0;
    while i < nodes.len()
        invariant
            i <= nodes@.len(),
            sh_all_ok(nodes@.subrange(0, i as int)),
        decreases nodes@.len() - i,
    {
        let ghost after = nodes@.subrange(0, i + 1);
        assert(after.drop_last() =~= nodes@.subrange(0, i as int));
        if !is_renderable(&nodes[i]) {
            proof {
                if sh_all_ok(nodes@) {
                    lemma_sh_all_ok(nodes@, i as int);
                }
            }
            return false;
        }
        i = i + 1;
    }
    assert(nodes@.subrange(0, nodes@.len() as int) =~= nodes@);
    true
}

} // verus!
