//! Dioxus RSX emission for `quoin_render!`.

pub mod button;
pub mod control_flow;
pub mod data_table;
pub mod dropdown_menu;
pub mod form_controls;
pub mod generic;
pub mod handler;
pub mod input;
pub mod shadcn;
pub mod simple_components;
pub mod tabs;
pub mod tier1_components;
pub mod tooltip;
pub mod virtual_list;

use vstd::prelude::*;
use crate::ast::{Element, Expr, RenderNode, node_attrs};
use crate::emit::cfg::{cfg_wrapped, wrap_with_cfg};
use crate::text::str_eq;
use self::control_flow::{dx_for, dx_if, emit_for, emit_if};
use self::generic::{emit_html_el, html_el};
use self::button::{button, emit_button};
use self::data_table::{columns_complete, data_table, emit_data_table};
use self::dropdown_menu::{dropdown_menu, emit_dropdown_menu};
use self::form_controls::{checkbox, emit_checkbox, emit_radio, emit_radio_group, emit_slider, emit_switch, radio, radio_group, slider, switch};
use self::input::{emit_input, input};
use self::simple_components::{badge, clipboard_button, emit_badge, emit_clipboard_button, emit_icon, emit_scroll_area, emit_styled_text, icon, scroll_area, styled_text};
use self::tabs::{emit_tabs, tabs};
use self::tier1_components::{emit_progress, emit_separator, emit_skeleton, emit_skeleton_avatar, emit_skeleton_text, progress, separator, skeleton, skeleton_avatar, skeleton_text};
use self::tooltip::{emit_tooltip, tooltip};
use self::virtual_list::{emit_virtual_list, virtual_list};
use crate::emit::common::{el_has_arg, has_arg};
use crate::emit::render_dioxus::data_table::column_complete;

verus! {

/// `{ expr }`: an expression child.
pub open spec fn expr_child(e: Expr) -> Seq<char> {
    "{ "@ + e.code@ + " }"@
}

/// The RSX of a node.
pub open spec fn dx_inner(node: RenderNode) -> Seq<char>
    decreases node,
{
    match node {
        RenderNode::Element(el) => dx_element(el),
        RenderNode::Text(t) => t@,
        RenderNode::Expr(e) => expr_child(e),
        RenderNode::If(i) => dx_if(i),
        RenderNode::For(f) => dx_for(f),
        RenderNode::Root(nodes) => dx_nodes(nodes@),
    }
}

/// The RSX of nodes one after the other.
pub open spec fn dx_nodes(nodes: Seq<RenderNode>) -> Seq<char>
    decreases nodes,
{
    if nodes.len() == 0 {
        Seq::empty()
    } else {
        dx_nodes(nodes.drop_last()) + dx_inner(nodes.last()) + seq![' ']
    }
}

/// The RSX of an element, carrying its `cfg` attributes.
pub open spec fn dx_element(el: Element) -> Seq<char>
    decreases el,
{
    cfg_wrapped(el.attrs@, dx_dispatch(el, dx_nodes(el.children@)))
}

/// The name under which an element is emitted: `tab_bar` is another name
/// for `tabs`.
pub open spec fn effective_name(name: Seq<char>) -> Seq<char> {
    if name == "tab_bar"@ {
        "tabs"@
    } else {
        name
    }
}

/// The RSX of an element by its name, with `kids` the RSX of its child
/// nodes.
pub open spec fn dx_dispatch(el: Element, kids: Seq<char>) -> Seq<char> {
    let name = effective_name(el.name@);
    if name == "separator"@ {
        separator(el)
    } else if name == "skeleton"@ {
        skeleton(el)
    } else if name == "skeleton_text"@ {
        skeleton_text(el)
    } else if name == "skeleton_avatar"@ {
        skeleton_avatar(el)
    } else if name == "progress"@ {
        progress(el)
    } else if name == "checkbox"@ {
        checkbox(el)
    } else if name == "switch"@ {
        switch(el)
    } else if name == "radio_group"@ {
        radio_group(el, kids)
    } else if name == "radio"@ {
        radio(el)
    } else if name == "slider"@ {
        slider(el)
    } else if name == "tooltip"@ {
        tooltip(el)
    } else if name == "tabs"@ {
        tabs(el)
    } else if name == "data_table"@ {
        data_table(el)
    } else if name == "dropdown_menu"@ {
        dropdown_menu(el)
    } else if name == "styled_text"@ {
        styled_text(el)
    } else if name == "badge"@ {
        badge(el, kids)
    } else if name == "scroll_area"@ {
        scroll_area(el, kids)
    } else if name == "virtual_list"@ {
        virtual_list(el, kids)
    } else if name == "clipboard_button"@ {
        clipboard_button(el, kids)
    } else if name == "button"@ {
        button(el, kids)
    } else if name == "icon"@ {
        icon(el, kids)
    } else if name == "input"@ {
        input(el, kids)
    } else {
        html_el(el, el.name@, kids)
    }
}

/// Whether an element of this (effective) name renders its child nodes.
pub open spec fn renders_children(name: Seq<char>) -> bool {
    if name == "separator"@ {
        false
    } else if name == "skeleton"@ {
        false
    } else if name == "skeleton_text"@ {
        false
    } else if name == "skeleton_avatar"@ {
        false
    } else if name == "progress"@ {
        false
    } else if name == "checkbox"@ {
        false
    } else if name == "switch"@ {
        false
    } else if name == "radio_group"@ {
        true
    } else if name == "radio"@ {
        false
    } else if name == "slider"@ {
        false
    } else if name == "tooltip"@ {
        false
    } else if name == "tabs"@ {
        false
    } else if name == "data_table"@ {
        false
    } else if name == "dropdown_menu"@ {
        false
    } else if name == "styled_text"@ {
        false
    } else if name == "badge"@ {
        true
    } else if name == "scroll_area"@ {
        true
    } else if name == "virtual_list"@ {
        true
    } else if name == "clipboard_button"@ {
        true
    } else if name == "button"@ {
        true
    } else if name == "icon"@ {
        true
    } else if name == "input"@ {
        true
    } else {
        true
    }
}

fn renders_children_exec(name: &str) -> (r: bool)
    ensures
        r == renders_children(name@),
{
    if str_eq(name, "separator") {
        false
    } else if str_eq(name, "skeleton") {
        false
    } else if str_eq(name, "skeleton_text") {
        false
    } else if str_eq(name, "skeleton_avatar") {
        false
    } else if str_eq(name, "progress") {
        false
    } else if str_eq(name, "checkbox") {
        false
    } else if str_eq(name, "switch") {
        false
    } else if str_eq(name, "radio_group") {
        true
    } else if str_eq(name, "radio") {
        false
    } else if str_eq(name, "slider") {
        false
    } else if str_eq(name, "tooltip") {
        false
    } else if str_eq(name, "tabs") {
        false
    } else if str_eq(name, "data_table") {
        false
    } else if str_eq(name, "dropdown_menu") {
        false
    } else if str_eq(name, "styled_text") {
        false
    } else if str_eq(name, "badge") {
        true
    } else if str_eq(name, "scroll_area") {
        true
    } else if str_eq(name, "virtual_list") {
        true
    } else if str_eq(name, "clipboard_button") {
        true
    } else if str_eq(name, "button") {
        true
    } else if str_eq(name, "icon") {
        true
    } else if str_eq(name, "input") {
        true
    } else {
        true
    }
}

/// What an element needs of its own arguments and children: a tab bar an
/// `active` and an `on_click` argument; a data table a `rows` argument and
/// a `label` and a `render` argument on each column.
pub open spec fn element_ok(el: Element) -> bool {
    let name = effective_name(el.name@);
    &&& name == "tabs"@ ==> has_arg(el.args@, "active"@) && has_arg(el.args@, "on_click"@)
    &&& name == "data_table"@ ==> has_arg(el.args@, "rows"@) && columns_complete(el.children@)
}

/// Whether the node can be emitted: every element that is emitted has what
/// it needs.
pub open spec fn dx_ok(node: RenderNode) -> bool
    decreases node,
{
    match node {
        RenderNode::Element(el) => element_ok(el) && (renders_children(effective_name(el.name@))
            ==> dx_all_ok(el.children@)),
        RenderNode::If(i) => dx_all_ok(i.then_branch@) && match i.else_branch {
            Some(eb) => dx_all_ok(eb@),
            None => true,
        },
        RenderNode::For(f) => dx_all_ok(f.body@),
        RenderNode::Root(nodes) => dx_all_ok(nodes@),
        _ => true,
    }
}

/// Whether every node of `nodes` can be emitted.
pub open spec fn dx_all_ok(nodes: Seq<RenderNode>) -> bool
    decreases nodes,
{
    if nodes.len() == 0 {
        true
    } else {
        dx_all_ok(nodes.drop_last()) && dx_ok(nodes.last())
    }
}

/// Each node of a sequence that can be emitted can be emitted.
pub proof fn lemma_all_ok(nodes: Seq<RenderNode>, i: int)
    requires
        dx_all_ok(nodes),
        0 <= i < nodes.len(),
    ensures
        dx_ok(nodes[i]),
        dx_all_ok(nodes.subrange(0, i + 1)),
    decreases nodes.len(),
{
    if i == nodes.len() - 1 {
        assert(nodes.subrange(0, i + 1) =~= nodes);
    } else {
        lemma_all_ok(nodes.drop_last(), i);
        assert(nodes.drop_last().subrange(0, i + 1) =~= nodes.subrange(0, i + 1));
    }
}

/// The whole `rsx!` invocation for a node, with the Dioxus prelude in scope
/// and the node's `cfg` attributes carried over.
pub open spec fn dx_render(node: RenderNode) -> Seq<char> {
    cfg_wrapped(
        node_attrs(node),
        "{ use dioxus::prelude::*; dioxus::prelude::rsx! { "@ + dx_inner(node) + " } }"@,
    )
}

/// Top-level render entry point: the node as a `rsx!` invocation.
pub fn emit_render(node: &RenderNode) -> (out: String)
    requires
        dx_ok(*node),
    ensures
        out@ == dx_render(*node),
{
    let inner = emit_render_inner(node);
    let mut tokens = String::from_str("{ use dioxus::prelude::*; dioxus::prelude::rsx! { ");
    tokens.append(inner.as_str());
    tokens.append(" } }");
    wrap_with_cfg(node.attrs(), tokens)
}

/// The RSX of a node.
pub fn emit_render_inner(node: &RenderNode) -> (out: String)
    requires
        dx_ok(*node),
    ensures
        out@ == dx_inner(*node),
    decreases node,
{
    match node {
        RenderNode::Element(el) => emit_element(el),
        RenderNode::Text(t) => crate::text::copy_string(t),
        RenderNode::Expr(e) => {
            let mut out = String::from_str("{ ");
            out.append(e.code.as_str());
            out.append(" }");
            out
        },
        RenderNode::If(i) => emit_if(i),
        RenderNode::For(f) => emit_for(f),
        RenderNode::Root(nodes) => emit_nodes_inner(nodes),
    }
}

/// The RSX of nodes one after the other.
pub fn emit_nodes_inner(nodes: &Vec<RenderNode>) -> (out: String)
    requires
        dx_all_ok(nodes@),
    ensures
        out@ == dx_nodes(nodes@),
    decreases nodes,
{
    let mut out = String::new();
    let mut i: usize = 0;
    while i < nodes.len()
        invariant
            i <= nodes@.len(),
            dx_all_ok(nodes@),
            out@ == dx_nodes(nodes@.subrange(0, i as int)),
        decreases nodes@.len() - i,
    {
        proof { lemma_all_ok(nodes@, i as int); }
        let t = emit_render_inner(&nodes[i]);
        out.append(t.as_str());
        out.append(" ");
        proof {
            reveal_strlit(" ");
            let after = nodes@.subrange(0, i + 1);
            assert(after.drop_last() =~= nodes@.subrange(0, i as int));
        }
        i = i + 1;
        assert(out@ =~= dx_nodes(nodes@.subrange(0, i as int)));
    }
    assert(nodes@.subrange(0, nodes@.len() as int) =~= nodes@);
    out
}

/// The RSX of an element, carrying its `cfg` attributes.
pub fn emit_element(el: &Element) -> (out: String)
    requires
        dx_ok(RenderNode::Element(*el)),
    ensures
        out@ == dx_element(*el),
    decreases el,
{
    let name_str = el.name.as_str();
    let effective = if str_eq(name_str, "tab_bar") { "tabs" } else { name_str };
    let kids = if renders_children_exec(effective) {
        emit_nodes_inner(&el.children)
    } else {
        String::new()
    };
    let inner = emit_element_inner(el, kids.as_str());
    wrap_with_cfg(el.attrs.as_slice(), inner)
}

/// The RSX of an element by its name, with `kids` the RSX of its children.
pub fn emit_element_inner(el: &Element, kids: &str) -> (out: String)
    requires
        element_ok(*el),
        renders_children(effective_name(el.name@)) ==> kids@ == dx_nodes(el.children@),
    ensures
        out@ == dx_dispatch(*el, dx_nodes(el.children@)),
{
    let name_str = el.name.as_str();
    let name = if str_eq(name_str, "tab_bar") { "tabs" } else { name_str };
    if str_eq(name, "separator") {
        emit_separator(el)
    } else if str_eq(name, "skeleton") {
        emit_skeleton(el)
    } else if str_eq(name, "skeleton_text") {
        emit_skeleton_text(el)
    } else if str_eq(name, "skeleton_avatar") {
        emit_skeleton_avatar(el)
    } else if str_eq(name, "progress") {
        emit_progress(el)
    } else if str_eq(name, "checkbox") {
        emit_checkbox(el)
    } else if str_eq(name, "switch") {
        emit_switch(el)
    } else if str_eq(name, "radio_group") {
        emit_radio_group(el, kids)
    } else if str_eq(name, "radio") {
        emit_radio(el)
    } else if str_eq(name, "slider") {
        emit_slider(el)
    } else if str_eq(name, "tooltip") {
        emit_tooltip(el)
    } else if str_eq(name, "tabs") {
        emit_tabs(el)
    } else if str_eq(name, "data_table") {
        emit_data_table(el)
    } else if str_eq(name, "dropdown_menu") {
        emit_dropdown_menu(el)
    } else if str_eq(name, "styled_text") {
        emit_styled_text(el)
    } else if str_eq(name, "badge") {
        emit_badge(el, kids)
    } else if str_eq(name, "scroll_area") {
        emit_scroll_area(el, kids)
    } else if str_eq(name, "virtual_list") {
        emit_virtual_list(el, kids)
    } else if str_eq(name, "clipboard_button") {
        emit_clipboard_button(el, kids)
    } else if str_eq(name, "button") {
        emit_button(el, kids)
    } else if str_eq(name, "icon") {
        emit_icon(el, kids)
    } else if str_eq(name, "input") {
        emit_input(el, kids)
    } else {
        emit_html_el(el, name_str, kids)
    }
}

pub(crate) fn element_ok_exec(el: &Element) -> (r: bool)
    ensures
        r == element_ok(*el),
{
    let name_str = el.name.as_str();
    let name = if str_eq(name_str, "tab_bar") { "tabs" } else { name_str };
    let tabs_ok = !str_eq(name, "tabs") || (el_has_arg(el, "active") && el_has_arg(el, "on_click"));
    let table_ok = !str_eq(name, "data_table") || (el_has_arg(el, "rows") && columns_complete_exec(&el.children));
    tabs_ok && table_ok
}

fn columns_complete_exec(cs: &Vec<RenderNode>) -> (r: bool)
    ensures
        r == columns_complete(cs@),
{
    let mut i: usize = 0;
    while i < cs.len()
        invariant
            i <= cs@.len(),
            forall|j: int| 0 <= j < i ==> #[trigger] column_complete(cs@[j]),
        decreases cs@.len() - i,
    {
        if let RenderNode::Element(e) = &cs[i] {
            if str_eq(e.name.as_str(), "column") && !(el_has_arg(e, "label") && el_has_arg(e, "render")) {
                assert(!column_complete(cs@[i as int]));
                return false;
            }
        }
        i = i + 1;
    }
    true
}

/// Whether the node can be emitted: every tab bar that is emitted has an
/// `active` and an `on_click` argument, and every data table a `rows`
/// argument and a `label` and a `render` argument on each column.
pub fn is_renderable(node: &RenderNode) -> (r: bool)
    ensures
        r == dx_ok(*node),
    decreases node,
{
    match node {
        RenderNode::Element(el) => {
            let name_str = el.name.as_str();
            let name = if str_eq(name_str, "tab_bar") { "tabs" } else { name_str };
            element_ok_exec(el) && (!renders_children_exec(name) || all_renderable(&el.children))
        },
        RenderNode::If(i) => all_renderable(&i.then_branch) && match &i.else_branch {
            Some(eb) => all_renderable(eb),
            None => true,
        },
        RenderNode::For(f) => all_renderable(&f.body),
        RenderNode::Root(nodes) => all_renderable(nodes),
        _ => true,
    }
}

/// Whether every node can be emitted.
pub fn all_renderable(nodes: &Vec<RenderNode>) -> (r: bool)
    ensures
        r == dx_all_ok(nodes@),
    decreases nodes,
{
    let mut i: usize = 0;
    while i < nodes.len()
        invariant
            i <= nodes@.len(),
            dx_all_ok(nodes@.subrange(0, i as int)),
        decreases nodes@.len() - i,
    {
        let ghost after = nodes@.subrange(0, i + 1);
        assert(after.drop_last() =~= nodes@.subrange(0, i as int));
        if !is_renderable(&nodes[i]) {
            proof {
                if dx_all_ok(nodes@) {
                    lemma_all_ok(nodes@, i as int);
                }
            }
            return false;
        }
        i = i + 1;
    }
    assert(nodes@.subrange(0, nodes@.len() as int) =~= nodes@);
    true
}

} // verus!
