//! GPUI method chains for `quoin_render!`: each node becomes an element
//! expression, children joined with `.child(..)` or collected into a
//! `div().children(vec![..])`.

pub mod button;
pub mod clipboard_button;
pub mod data_table;
pub mod dropdown_menu;
pub mod generic;
pub mod handler;
pub mod input;
pub mod tabs;
pub mod virtual_list;

use vstd::prelude::*;
use crate::ast::{Element, Expr, ForNode, Form, IfNode, Lit, RenderNode, Styles, node_attrs};
use crate::emit::cfg::{cfg_wrapped, wrap_with_cfg};
use crate::emit::common::{el_has_arg, find_arg_expr, first_arg, has_arg};
use crate::emit::render_dioxus::effective_name;
use crate::text::{push_suffixed, str_eq, suffixed, texts};
use self::button::{emit_button, gp_button};
use self::clipboard_button::{emit_clipboard_button, gp_clipboard_button};
use self::data_table::{columns_rendered, columns_rendered_exec, emit_data_table, gp_data_table};
use self::dropdown_menu::{emit_dropdown_menu, gp_dropdown_menu};
use self::generic::{emit_generic_element, gp_generic};
use self::input::{emit_input, gp_input};
use self::tabs::{emit_tabs, gp_tabs, tabs_indexed, tabs_indexed_exec};
use self::virtual_list::{emit_virtual_list, gp_virtual_list};

verus! {

/// The Tailwind classes of an expression as GPUI calls, when the expression
/// is a string literal.
pub open spec fn lit_styles(e: Expr) -> Option<Styles> {
    match e.form {
        Form::Lit(Lit::Str(_)) => e.styles,
        _ => None,
    }
}

/// The GPUI calls of an expression's Tailwind classes, when the expression
/// is a string literal.
pub fn try_transpile_class(e: &Expr) -> (r: Option<&Styles>)
    ensures
        match r {
            Some(s) => lit_styles(*e) == Some(*s),
            None => lit_styles(*e) is None,
        },
{
    match &e.form {
        Form::Lit(Lit::Str(_)) => match &e.styles {
            Some(st) => Some(st),
            None => None,
        },
        _ => None,
    }
}

/// The GPUI calls of an element's `class` argument.
pub open spec fn class_styles(el: Element) -> Option<Styles> {
    match first_arg(el.args@, "class"@) {
        Some(e) => lit_styles(e),
        None => None,
    }
}

/// The calls for the normal state of the element's classes.
pub open spec fn normal_calls(el: Element) -> Seq<char> {
    match class_styles(el) {
        Some(st) => " "@ + suffixed(texts(st.normal@), " "@),
        None => Seq::empty(),
    }
}

/// The `.hover(..)` call for the hover state of the element's classes;
/// nothing when they have no hover state.
pub open spec fn hover_call(el: Element) -> Seq<char> {
    match class_styles(el) {
        Some(st) => if st.hover@.len() > 0 {
            ".hover(|__s| __s "@ + suffixed(texts(st.hover@), " "@) + ")"@
        } else {
            Seq::empty()
        },
        None => Seq::empty(),
    }
}

/// Appends the calls for the normal state of the element's classes.
pub fn push_normal_calls(out: &mut String, el: &Element)
    ensures
        final(out)@ == old(out)@ + normal_calls(*el),
{
    let ghost start = out@;
    match find_arg_expr(el, "class") {
        Some(class_expr) => match try_transpile_class(class_expr) {
            Some(styles) => {
                out.append(" ");
                push_suffixed(out, &styles.normal, " ");
            },
            None => {},
        },
        None => {},
    }
    assert(out@ =~= start + normal_calls(*el));
}

/// Appends the `.hover(..)` call of the element's classes.
pub fn push_hover_call(out: &mut String, el: &Element)
    ensures
        final(out)@ == old(out)@ + hover_call(*el),
{
    let ghost start = out@;
    match find_arg_expr(el, "class") {
        Some(class_expr) => match try_transpile_class(class_expr) {
            Some(styles) => {
                if styles.hover.len() > 0 {
                    out.append(".hover(|__s| __s ");
                    push_suffixed(out, &styles.hover, " ");
                    out.append(")");
                }
            },
            None => {},
        },
        None => {},
    }
    assert(out@ =~= start + hover_call(*el));
}

/// A node as a GPUI element expression, carrying its `cfg` attributes.
pub open spec fn gp_render(node: RenderNode) -> Seq<char>
    decreases node, 0int,
{
    cfg_wrapped(
        node_attrs(node),
        match node {
            RenderNode::Element(el) => gp_element(el),
            RenderNode::Text(t) => t@,
            RenderNode::Expr(e) => e.code@,
            RenderNode::If(i) => gp_if(i),
            RenderNode::For(f) => gp_for(f),
            RenderNode::Root(nodes) => gp_nodes(nodes@),
        },
    )
}

/// The nodes' element expressions, separated by commas.
pub open spec fn gp_list(nodes: Seq<RenderNode>) -> Seq<char>
    decreases nodes, 0int,
{
    if nodes.len() == 0 {
        Seq::empty()
    } else if nodes.len() == 1 {
        gp_render(nodes[0])
    } else {
        gp_list(nodes.drop_last()) + ", "@ + gp_render(nodes.last())
    }
}

/// A `div` holding the nodes as its children.
pub open spec fn gp_nodes(nodes: Seq<RenderNode>) -> Seq<char>
    decreases nodes, 1int,
{
    "::gpui::div().children(vec![ "@ + gp_list(nodes) + " ])"@
}

/// A `.child(..)` call for each node.
pub open spec fn gp_child_calls(nodes: Seq<RenderNode>) -> Seq<char>
    decreases nodes, 0int,
{
    if nodes.len() == 0 {
        Seq::empty()
    } else {
        gp_child_calls(nodes.drop_last()) + ".child( "@ + gp_render(nodes.last()) + " )"@
    }
}

/// An element, carrying its `cfg` attributes.
pub open spec fn gp_element(el: Element) -> Seq<char>
    decreases el, 2int,
{
    cfg_wrapped(el.attrs@, gp_dispatch(el))
}

/// An element by its name; `tab_bar` is another name for `tabs`.
pub open spec fn gp_dispatch(el: Element) -> Seq<char>
    decreases el, 1int,
{
    let name = effective_name(el.name@);
    if name == "button"@ {
        gp_button(el)
    } else if name == "input"@ {
        gp_input(el)
    } else if name == "tabs"@ {
        gp_tabs(el)
    } else if name == "data_table"@ {
        gp_data_table(el)
    } else if name == "virtual_list"@ {
        gp_virtual_list(el)
    } else if name == "dropdown_menu"@ {
        gp_dropdown_menu(el)
    } else if name == "clipboard_button"@ {
        gp_clipboard_button(el)
    } else {
        gp_generic(el)
    }
}

/// An `if` node: a block with an `if` expression; an `else` branch that is
/// a single `if` node continues the chain.  Carries the node's `cfg`
/// attributes.
pub open spec fn gp_if(i: IfNode) -> Seq<char>
    decreases i, 0int,
{
    let then_part = gp_nodes(i.then_branch@);
    cfg_wrapped(
        i.attrs@,
        match i.else_branch {
            Some(eb) => {
                let else_part = if eb@.len() == 1 && eb@[0] is If {
                    match eb@[0] {
                        RenderNode::If(nested) => gp_if(nested),
                        _ => Seq::empty(),
                    }
                } else {
                    gp_nodes(eb@)
                };
                "{ if "@ + i.condition@ + " { "@ + then_part + " } else { "@ + else_part + " } }"@
            },
            None => "{ if "@ + i.condition@ + " { "@ + then_part + " } }"@,
        },
    )
}

/// A `for` node: a `div` whose children are the body mapped over the
/// iterable.  Carries the node's `cfg` attributes.
pub open spec fn gp_for(f: ForNode) -> Seq<char>
    decreases f, 0int,
{
    cfg_wrapped(
        f.attrs@,
        "{ ::gpui::div().children( "@ + f.iterable@ + " .into_iter().map(| "@ + f.pat@ + " | { "@
            + gp_nodes(f.body@) + " }).collect::<Vec<_>>() ) }"@,
    )
}

/// Whether the element's markup holds its child nodes.
pub open spec fn gp_renders_children(el: Element) -> bool {
    let name = effective_name(el.name@);
    if name == "button"@ {
        true
    } else if name == "input"@ {
        false
    } else if name == "tabs"@ {
        false
    } else if name == "data_table"@ {
        false
    } else if name == "virtual_list"@ {
        true
    } else if name == "dropdown_menu"@ {
        false
    } else if name == "clipboard_button"@ {
        has_arg(el.args@, "copy_text"@)
    } else {
        el.children_expr is None
    }
}

/// Whether a node can be emitted: every tab bar that is emitted has an
/// `active` and an `on_click` argument and an `index` on each tab, every
/// data table a `rows` argument and a `render` argument on each column,
/// and every virtual list an `items` argument.
pub open spec fn gp_ok(node: RenderNode) -> bool
    decreases node,
{
    match node {
        RenderNode::Element(el) => gp_element_ok(el),
        RenderNode::If(i) => gp_if_ok(i),
        RenderNode::For(f) => gp_all_ok(f.body@),
        RenderNode::Root(nodes) => gp_all_ok(nodes@),
        _ => true,
    }
}

/// Whether an element can be emitted.
pub open spec fn gp_element_ok(el: Element) -> bool
    decreases el,
{
    let name = effective_name(el.name@);
    &&& name == "tabs"@ ==> has_arg(el.args@, "active"@) && has_arg(el.args@, "on_click"@) && tabs_indexed(
        el.children@,
    )
    &&& name == "data_table"@ ==> has_arg(el.args@, "rows"@) && columns_rendered(el.children@)
    &&& name == "virtual_list"@ ==> has_arg(el.args@, "items"@)
    &&& gp_renders_children(el) ==> gp_all_ok(el.children@)
}

/// Whether both branches of an `if` node can be emitted.
pub open spec fn gp_if_ok(i: IfNode) -> bool
    decreases i,
{
    &&& gp_all_ok(i.then_branch@)
    &&& match i.else_branch {
        Some(eb) => gp_all_ok(eb@),
        None => true,
    }
}

/// Whether every node of `nodes` can be emitted.
pub open spec fn gp_all_ok(nodes: Seq<RenderNode>) -> bool
    decreases nodes,
{
    if nodes.len() == 0 {
        true
    } else {
        gp_all_ok(nodes.drop_last()) && gp_ok(nodes.last())
    }
}

/// Each node of a sequence that can be emitted can be emitted.
pub proof fn lemma_gp_all_ok(nodes: Seq<RenderNode>, i: int)
    requires
        gp_all_ok(nodes),
        0 <= i < nodes.len(),
    ensures
        gp_ok(nodes[i]),
        gp_all_ok(nodes.subrange(0, i + 1)),
    decreases nodes.len(),
{
    if i == nodes.len() - 1 {
        assert(nodes.subrange(0, i + 1) =~= nodes);
    } else {
        lemma_gp_all_ok(nodes.drop_last(), i);
        assert(nodes.drop_last().subrange(0, i + 1) =~= nodes.subrange(0, i + 1));
    }
}

/// Top-level render entry point: the node as a GPUI element expression.
pub fn emit_render(node: &RenderNode) -> (out: String)
    requires
        gp_ok(*node),
    ensures
        out@ == gp_render(*node),
    decreases node, 0int,
{
    let inner = match node {
        RenderNode::Element(el) => emit_element(el),
        RenderNode::Text(t) => t.clone(),
        RenderNode::Expr(e) => e.code.clone(),
        RenderNode::If(i) => emit_if(i),
        RenderNode::For(f) => emit_for(f),
        RenderNode::Root(nodes) => emit_nodes(nodes),
    };
    wrap_with_cfg(node.attrs(), inner)
}

/// A `div` holding the nodes as its children.
pub fn emit_nodes(nodes: &Vec<RenderNode>) -> (out: String)
    requires
        gp_all_ok(nodes@),
    ensures
        out@ == gp_nodes(nodes@),
    decreases nodes, 1int,
{
    let mut out = String::from_str("::gpui::div().children(vec![ ");
    let ghost start = out@;
    let mut i: usize = 0;
    while i < nodes.len()
        invariant
            i <= nodes@.len(),
            gp_all_ok(nodes@),
            out@ == start + gp_list(nodes@.subrange(0, i as int)),
        decreases nodes@.len() - i,
    {
        proof { lemma_gp_all_ok(nodes@, i as int); }
        let ghost after = nodes@.subrange(0, i + 1);
        assert(after.drop_last() =~= nodes@.subrange(0, i as int));
        assert(after.last() == nodes@[i as int]);
        if i > 0 {
            out.append(", ");
        } else {
            assert(after =~= seq![nodes@[0]]);
        }
        let t = emit_render(&nodes[i]);
        out.append(t.as_str());
        i = i + 1;
        assert(out@ =~= start + gp_list(nodes@.subrange(0, i as int)));
    }
    assert(nodes@.subrange(0, nodes@.len() as int) =~= nodes@);
    out.append(" ])");
    out
}

/// Appends a `.child(..)` call for each node.
pub fn push_child_calls(out: &mut String, nodes: &Vec<RenderNode>)
    requires
        gp_all_ok(nodes@),
    ensures
        final(out)@ == old(out)@ + gp_child_calls(nodes@),
    decreases nodes, 0int,
{
    let ghost start = out@;
    let mut i: usize = 0;
    while i < nodes.len()
        invariant
            i <= nodes@.len(),
            gp_all_ok(nodes@),
            out@ == start + gp_child_calls(nodes@.subrange(0, i as int)),
        decreases nodes@.len() - i,
    {
        proof { lemma_gp_all_ok(nodes@, i as int); }
        let ghost after = nodes@.subrange(0, i + 1);
        assert(after.drop_last() =~= nodes@.subrange(0, i as int));
        assert(after.last() == nodes@[i as int]);
        let t = emit_render(&nodes[i]);
        out.append(".child( ");
        out.append(t.as_str());
        out.append(" )");
        i = i + 1;
        assert(out@ =~= start + gp_child_calls(nodes@.subrange(0, i as int)));
    }
    assert(nodes@.subrange(0, nodes@.len() as int) =~= nodes@);
}

/// Emits an element, carrying its `cfg` attributes.
pub fn emit_element(el: &Element) -> (out: String)
    requires
        gp_element_ok(*el),
    ensures
        out@ == gp_element(*el),
    decreases el, 2int,
{
    let inner = emit_element_inner(el);
    wrap_with_cfg(el.attrs.as_slice(), inner)
}

/// Emits an element by its name.
pub fn emit_element_inner(el: &Element) -> (out: String)
    requires
        gp_element_ok(*el),
    ensures
        out@ == gp_dispatch(*el),
    decreases el, 1int,
{
    let name_str = el.name.as_str();
    let name = if str_eq(name_str, "tab_bar") { "tabs" } else { name_str };
    if str_eq(name, "button") {
        emit_button(el)
    } else if str_eq(name, "input") {
        emit_input(el)
    } else if str_eq(name, "tabs") {
        emit_tabs(el)
    } else if str_eq(name, "data_table") {
        emit_data_table(el)
    } else if str_eq(name, "virtual_list") {
        emit_virtual_list(el)
    } else if str_eq(name, "dropdown_menu") {
        emit_dropdown_menu(el)
    } else if str_eq(name, "clipboard_button") {
        emit_clipboard_button(el)
    } else {
        emit_generic_element(el)
    }
}

/// Emits an `if` node.
pub fn emit_if(if_node: &IfNode) -> (out: String)
    requires
        gp_if_ok(*if_node),
    ensures
        out@ == gp_if(*if_node),
    decreases if_node, 0int,
{
    let then_branch = emit_nodes(&if_node.then_branch);
    let mut inner = String::from_str("{ if ");
    inner.append(if_node.condition.as_str());
    inner.append(" { ");
    inner.append(then_branch.as_str());
    match &if_node.else_branch {
        Some(else_branch) => {
            let else_tokens = if else_branch.len() == 1 {
                proof { lemma_gp_all_ok(else_branch@, 0); }
                match &else_branch[0] {
                    RenderNode::If(nested_if) => emit_if(nested_if),
                    _ => emit_nodes(else_branch),
                }
            } else {
                emit_nodes(else_branch)
            };
            inner.append(" } else { ");
            inner.append(else_tokens.as_str());
            inner.append(" } }");
        },
        None => {
            inner.append(" } }");
        },
    }
    wrap_with_cfg(if_node.attrs.as_slice(), inner)
}

/// Emits a `for` node.
pub fn emit_for(for_node: &ForNode) -> (out: String)
    requires
        gp_all_ok(for_node.body@),
    ensures
        out@ == gp_for(*for_node),
    decreases for_node, 0int,
{
    let body = emit_nodes(&for_node.body);
    let mut inner = String::from_str("{ ::gpui::div().children( ");
    inner.append(for_node.iterable.as_str());
    inner.append(" .into_iter().map(| ");
    inner.append(for_node.pat.as_str());
    inner.append(" | { ");
    inner.append(body.as_str());
    inner.append(" }).collect::<Vec<_>>() ) }");
    wrap_with_cfg(for_node.attrs.as_slice(), inner)
}

fn gp_renders_children_exec(el: &Element) -> (r: bool)
    ensures
        r == gp_renders_children(*el),
{
    let name_str = el.name.as_str();
    let name = if str_eq(name_str, "tab_bar") { "tabs" } else { name_str };
    if str_eq(name, "button") {
        true
    } else if str_eq(name, "input") {
        false
    } else if str_eq(name, "tabs") {
        false
    } else if str_eq(name, "data_table") {
        false
    } else if str_eq(name, "virtual_list") {
        true
    } else if str_eq(name, "dropdown_menu") {
        false
    } else if str_eq(name, "clipboard_button") {
        el_has_arg(el, "copy_text")
    } else {
        el.children_expr.is_none()
    }
}

/// Whether the node can be emitted: every tab bar that is emitted has an
/// `active` and an `on_click` argument and an `index` on each tab, every
/// data table a `rows` argument and a `render` argument on each column,
/// and every virtual list an `items` argument.
pub fn is_renderable(node: &RenderNode) -> (r: bool)
    ensures
        r == gp_ok(*node),
    decreases node,
{
    match node {
        RenderNode::Element(el) => {
            let name_str = el.name.as_str();
            let name = if str_eq(name_str, "tab_bar") { "tabs" } else { name_str };
            let tabs_ok = !str_eq(name, "tabs") || (el_has_arg(el, "active") && el_has_arg(el, "on_click")
                && tabs_indexed_exec(&el.children));
            let table_ok = !str_eq(name, "data_table") || (el_has_arg(el, "rows") && columns_rendered_exec(
                &el.children,
            ));
            let list_ok = !str_eq(name, "virtual_list") || el_has_arg(el, "items");
            tabs_ok && table_ok && list_ok && (!gp_renders_children_exec(el) || all_renderable(&el.children))
        },
        RenderNode::If(i) => all_renderable(&i.then_branch) && match &i.else_branch {
            Some(eb) => all_renderable(eb),
            None => true,
        },
        RenderNode::For(f) => all_renderable(&f.body),
        RenderNode::Root(nodes) => all_renderable(nodes),
        _ => true,
    }
}

/// Whether every node can be emitted.
pub fn all_renderable(nodes: &Vec<RenderNode>) -> (r: bool)
    ensures
        r == gp_all_ok(nodes@),
    decreases nodes,
{
    let mut i: usize = 0;
    while i < nodes.len()
        invariant
            i <= nodes@.len(),
            gp_all_ok(nodes@.subrange(0, i as int)),
        decreases nodes@.len() - i,
    {
        let ghost after = nodes@.subrange(0, i + 1);
        assert(after.drop_last() =~= nodes@.subrange(0, i as int));
        if !is_renderable(&nodes[i]) {
            proof {
                if gp_all_ok(nodes@) {
                    lemma_gp_all_ok(nodes@, i as int);
                }
            }
            return false;
        }
        i = i + 1;
    }
    assert(nodes@.subrange(0, nodes@.len() as int) =~= nodes@);
    true
}

} // verus!
