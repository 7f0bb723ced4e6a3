//! How the markup of a node depends on where the id counter starts: the
//! same node takes the same number of ids from any start, and markup that
//! takes no id does not depend on the start at all.

use vstd::prelude::*;
use crate::ast::{Element, IfNode, RenderNode};
use super::html::{auto_binds, lp_html_tag};
use super::table::columns_cols;
use super::{html_tag_of, lp_dispatch, lp_element, lp_for, lp_if, lp_if_body, lp_node, lp_nodes, Out};

verus! {

/// An upper bound on the number of ids that the markup of a node takes.
pub open spec fn id_bound(node: RenderNode) -> nat
    decreases node,
{
    match node {
        RenderNode::Element(el) => element_id_bound(el),
        RenderNode::If(i) => if_id_bound(i),
        RenderNode::For(f) => 1 + id_bound_all(f.body@),
        RenderNode::Root(nodes) => id_bound_all(nodes@),
        _ => 0,
    }
}

/// An upper bound on the number of ids that the markup of an element takes:
/// a few of its own, at most one per child column, and those of its
/// children.
pub open spec fn element_id_bound(el: Element) -> nat
    decreases el,
{
    5 + el.children@.len() + id_bound_all(el.children@)
}

/// An upper bound on the number of ids that the markup of an `if` node
/// takes.
pub open spec fn if_id_bound(i: IfNode) -> nat
    decreases i,
{
    id_bound_all(i.then_branch@) + match i.else_branch {
        Some(eb) => id_bound_all(eb@),
        None => 0,
    }
}

/// An upper bound on the number of ids that the markup of nodes takes.
pub open spec fn id_bound_all(nodes: Seq<RenderNode>) -> nat
    decreases nodes,
{
    if nodes.len() == 0 {
        0
    } else {
        id_bound_all(nodes.drop_last()) + id_bound(nodes.last())
    }
}

/// Markup `o1` emitted with the counter at `n` and `o2` emitted with it at
/// `m` take the same number of ids, at most `b`; when they take none, their
/// text and bindings are the same.
pub open spec fn renumbered(o1: Out, n: usize, o2: Out, m: usize, b: nat) -> bool {
    &&& n <= o1.next <= n + b
    &&& o1.next - n == o2.next - m
    &&& o1.next == n ==> o1.code == o2.code && o1.binds == o2.binds
}

/// Nodes emitted from two starts are renumbered copies of each other.
pub proof fn lemma_nodes_renumbered(nodes: Seq<RenderNode>, n: usize, m: usize, inside_for: bool, sh: bool)
    requires
        n + id_bound_all(nodes) <= usize::MAX,
        m + id_bound_all(nodes) <= usize::MAX,
    ensures
        renumbered(
            lp_nodes(nodes, n, inside_for, sh),
            n,
            lp_nodes(nodes, m, inside_for, sh),
            m,
            id_bound_all(nodes),
        ),
    decreases nodes, 0int,
{
    if nodes.len() > 0 {
        lemma_nodes_renumbered(nodes.drop_last(), n, m, inside_for, sh);
        let a1 = lp_nodes(nodes.drop_last(), n, inside_for, sh);
        let a2 = lp_nodes(nodes.drop_last(), m, inside_for, sh);
        lemma_node_renumbered(nodes.last(), a1.next, a2.next, inside_for, sh);
    }
}

/// A node emitted from two starts is a renumbered copy of itself.
pub proof fn lemma_node_renumbered(node: RenderNode, n: usize, m: usize, inside_for: bool, sh: bool)
    requires
        n + id_bound(node) <= usize::MAX,
        m + id_bound(node) <= usize::MAX,
    ensures
        renumbered(lp_node(node, n, inside_for, sh), n, lp_node(node, m, inside_for, sh), m, id_bound(node)),
    decreases node, 0int,
{
    match node {
        RenderNode::Element(el) => {
            assert(id_bound(node) == element_id_bound(el));
            lemma_element_renumbered(el, n, m, inside_for, sh);
            assert(lp_node(node, n, inside_for, sh) == lp_element(el, n, inside_for, sh));
            assert(lp_node(node, m, inside_for, sh) == lp_element(el, m, inside_for, sh));
            assert(renumbered(lp_element(el, n, inside_for, sh), n, lp_element(el, m, inside_for, sh), m, element_id_bound(el)));
            assert(renumbered(lp_node(node, n, inside_for, sh), n, lp_node(node, m, inside_for, sh), m, id_bound(node)));
        },
        RenderNode::If(i) => {
            lemma_if_body_renumbered(i, n, m, inside_for, sh);
            assert(lp_node(node, n, inside_for, sh) == lp_if(i, n, inside_for, sh));
            assert(lp_node(node, m, inside_for, sh) == lp_if(i, m, inside_for, sh));
        },
        RenderNode::For(f) => {
            lemma_nodes_renumbered(f.body@, n, m, true, sh);
            assert(lp_node(node, n, inside_for, sh) == lp_for(f, n, sh));
            assert(lp_node(node, m, inside_for, sh) == lp_for(f, m, sh));
        },
        RenderNode::Root(nodes) => {
            if nodes@.len() == 1 {
                assert(nodes@.drop_last().len() == 0);
                assert(id_bound_all(nodes@.drop_last()) == 0);
                assert(id_bound_all(nodes@) == id_bound(nodes@[0]));
                lemma_node_renumbered(nodes@[0], n, m, inside_for, sh);
                assert(lp_node(node, n, inside_for, sh) == lp_node(nodes@[0], n, inside_for, sh));
                assert(lp_node(node, m, inside_for, sh) == lp_node(nodes@[0], m, inside_for, sh));
            } else {
                lemma_nodes_renumbered(nodes@, n, m, inside_for, sh);
            }
        },
        _ => {},
    }
}

/// The body of an `if` node emitted from two starts is a renumbered copy
/// of itself.
pub proof fn lemma_if_body_renumbered(i: IfNode, n: usize, m: usize, inside_for: bool, sh: bool)
    requires
        n + if_id_bound(i) <= usize::MAX,
        m + if_id_bound(i) <= usize::MAX,
    ensures
        renumbered(lp_if_body(i, n, inside_for, sh), n, lp_if_body(i, m, inside_for, sh), m, if_id_bound(i)),
        renumbered(lp_if(i, n, inside_for, sh), n, lp_if(i, m, inside_for, sh), m, if_id_bound(i)),
    decreases i, 0int,
{
    lemma_nodes_renumbered(i.then_branch@, n, m, inside_for, sh);
    let t1 = lp_nodes(i.then_branch@, n, inside_for, sh);
    let t2 = lp_nodes(i.then_branch@, m, inside_for, sh);
    match i.else_branch {
        Some(eb) => {
            if eb@.len() == 1 && eb@[0] is If {
                match eb@[0] {
                    RenderNode::If(nested) => {
                        assert(eb@.drop_last().len() == 0);
                        assert(id_bound_all(eb@.drop_last()) == 0);
                        assert(id_bound_all(eb@) == id_bound(eb@[0]));
                        lemma_if_body_renumbered(nested, t1.next, t2.next, inside_for, sh);
                    },
                    _ => {},
                }
            } else {
                lemma_nodes_renumbered(eb@, t1.next, t2.next, inside_for, sh);
            }
        },
        None => {},
    }
}

/// An element emitted from two starts is a renumbered copy of itself.
pub proof fn lemma_element_renumbered(el: Element, n: usize, m: usize, inside_for: bool, sh: bool)
    requires
        n + element_id_bound(el) <= usize::MAX,
        m + element_id_bound(el) <= usize::MAX,
    ensures
        renumbered(
            lp_element(el, n, inside_for, sh),
            n,
            lp_element(el, m, inside_for, sh),
            m,
            element_id_bound(el),
        ),
    decreases el, 3int,
{
    lemma_dispatch_renumbered(el, n, m, inside_for, sh);
}

/// A plain HTML tag emitted from two starts is a renumbered copy of itself.
pub proof fn lemma_html_renumbered(el: Element, tag: Seq<char>, n: usize, m: usize, inside_for: bool, sh: bool)
    requires
        n + element_id_bound(el) <= usize::MAX,
        m + element_id_bound(el) <= usize::MAX,
    ensures
        renumbered(
            lp_html_tag(el, tag, n, inside_for, sh),
            n,
            lp_html_tag(el, tag, m, inside_for, sh),
            m,
            element_id_bound(el),
        ),
    decreases el, 0int,
{
    let n1: usize = if auto_binds(el, tag) {
        (n + 1) as usize
    } else {
        n
    };
    let m1: usize = if auto_binds(el, tag) {
        (m + 1) as usize
    } else {
        m
    };
    lemma_nodes_renumbered(el.children@, n1, m1, inside_for, sh);
}

/// The columns of a table emitted from two starts are renumbered copies of
/// each other: they take at most one id per child.
pub proof fn lemma_columns_renumbered(cs: Seq<RenderNode>, n: usize, m: usize, sh: bool)
    requires
        n + cs.len() <= usize::MAX,
        m + cs.len() <= usize::MAX,
    ensures
        n <= columns_cols(cs, n, sh).next <= n + cs.len(),
        columns_cols(cs, n, sh).next - n == columns_cols(cs, m, sh).next - m,
        columns_cols(cs, n, sh).next == n ==> columns_cols(cs, m, sh).next == m,
        columns_cols(cs, n, sh).next == n ==> columns_cols(cs, n, sh).heads == columns_cols(cs, m, sh).heads,
        columns_cols(cs, n, sh).next == n ==> columns_cols(cs, n, sh).cells == columns_cols(cs, m, sh).cells,
        columns_cols(cs, n, sh).next == n ==> columns_cols(cs, n, sh).binds == columns_cols(cs, m, sh).binds,
    decreases cs.len(),
{
    if cs.len() > 0 {
        lemma_columns_renumbered(cs.drop_last(), n, m, sh);
    }
}

/// An element emitted by its name from two starts is a renumbered copy of
/// itself.
#[verifier::rlimit(100)]
pub proof fn lemma_dispatch_renumbered(el: Element, n: usize, m: usize, inside_for: bool, sh: bool)
    requires
        n + element_id_bound(el) <= usize::MAX,
        m + element_id_bound(el) <= usize::MAX,
    ensures
        renumbered(
            lp_dispatch(el, n, inside_for, sh),
            n,
            lp_dispatch(el, m, inside_for, sh),
            m,
            element_id_bound(el),
        ),
    decreases el, 2int,
{
    let name = el.name@;
    let kids = el.children@;
    let o1 = lp_dispatch(el, n, inside_for, sh);
    let o2 = lp_dispatch(el, m, inside_for, sh);
    let b = element_id_bound(el);
    if name == "separator"@ || name == "skeleton"@ || name == "skeleton_text"@ || name == "skeleton_avatar"@ {
        assert(renumbered(o1, n, o2, m, b));
    } else if name == "progress"@ || name == "checkbox"@ || name == "switch"@ {
        assert(renumbered(o1, n, o2, m, b));
    } else if name == "radio_group"@ {
        lemma_nodes_renumbered(kids, n, m, inside_for, sh);
        lemma_nodes_renumbered(kids, n, m, inside_for, false);
        assert(renumbered(o1, n, o2, m, b));
    } else if name == "radio"@ || name == "slider"@ || name == "tooltip"@ || name == "tabs"@ {
        assert(renumbered(o1, n, o2, m, b));
    } else if name == "data_table"@ {
        lemma_columns_renumbered(kids, n, m, sh);
        assert(renumbered(o1, n, o2, m, b));
    } else if name == "dropdown_menu"@ || name == "styled_text"@ {
        assert(renumbered(o1, n, o2, m, b));
    } else if name == "input"@ {
        lemma_html_renumbered(el, "input"@, n, m, inside_for, false);
        assert(renumbered(o1, n, o2, m, b));
    } else if name == "badge"@ || name == "scroll_area"@ {
        lemma_nodes_renumbered(kids, n, m, inside_for, sh);
        lemma_nodes_renumbered(kids, n, m, inside_for, false);
        assert(renumbered(o1, n, o2, m, b));
    } else if name == "virtual_list"@ {
        lemma_nodes_renumbered(kids, n, m, inside_for, sh);
        assert(renumbered(o1, n, o2, m, b));
    } else if name == "clipboard_button"@ {
        lemma_nodes_renumbered(kids, (n + 1) as usize, (m + 1) as usize, inside_for, sh);
        lemma_html_renumbered(el, "button"@, n, m, inside_for, sh);
        assert(renumbered(o1, n, o2, m, b));
    } else if name == "button"@ {
        lemma_nodes_renumbered(kids, (n + 1) as usize, (m + 1) as usize, inside_for, true);
        lemma_html_renumbered(el, "button"@, n, m, inside_for, false);
        assert(renumbered(o1, n, o2, m, b));
    } else if name == "icon"@ {
        lemma_nodes_renumbered(kids, n, m, inside_for, sh);
        assert(renumbered(o1, n, o2, m, b));
    } else {
        lemma_html_renumbered(el, html_tag_of(name), n, m, inside_for, sh);
        assert(renumbered(o1, n, o2, m, b));
    }
}

} // verus!
