//! Properties of the emitters that hold across calls and frameworks.

use vstd::prelude::*;
use crate::ast::{Arg, Attr, Element, RenderNode};
use crate::emit::cfg::{cfg_wrapped, has_cfg};
use crate::emit::common::first_arg;
use crate::emit::render_dioxus::{dx_all_ok, dx_dispatch, dx_inner, dx_ok};
use crate::emit::render_dioxus::shadcn::{sh_all_ok, sh_dispatch, sh_inner, sh_ok};
use crate::emit::{render_code, render_next, render_ok, Framework};
use crate::emit::render_leptos::renumber::{id_bound, lemma_node_renumbered};
use crate::emit::render_gpui::{gp_all_ok, gp_dispatch, gp_ok, gp_render};
use crate::emit::render_leptos::{lp_all_ok, lp_node, lp_nodes, lp_ok, lp_render, next_id, Out};

verus! {

/// Without `cfg` attributes, a node's code is carried over unchanged.
pub proof fn law_cfg_transparent(attrs: Seq<Attr>, inner: Seq<char>)
    requires
        !has_cfg(attrs),
    ensures
        cfg_wrapped(attrs, inner) == inner,
{
}

/// The value of an element's argument is that of the first argument with
/// the key.
pub proof fn law_first_arg_is_first(args: Seq<Arg>, key: Seq<char>, i: int)
    requires
        0 <= i < args.len(),
        args[i].key@ == key,
        forall|j: int| 0 <= j < i ==> (#[trigger] args[j]).key@ != key,
    ensures
        first_arg(args, key) == Some(args[i].value),
    decreases i,
{
    if i > 0 {
        assert forall|j: int| 0 <= j < i - 1 implies (#[trigger] args.drop_first()[j]).key@ != key by {
            assert(args.drop_first()[j] == args[j + 1]);
        }
        law_first_arg_is_first(args.drop_first(), key, i - 1);
    }
}

/// `tab_bar` is another name for `tabs`: in GPUI and in Dioxus (plain or
/// with shadcn components), a `tab_bar` element is emitted as the `tabs`
/// element with the same arguments and children.
pub proof fn law_tab_bar_is_tabs(a: Element, b: Element, kids: Seq<char>)
    requires
        a.name@ == "tab_bar"@,
        b.name@ == "tabs"@,
        b == (Element { name: b.name, ..a }),
    ensures
        gp_dispatch(a) == gp_dispatch(b),
        dx_dispatch(a, kids) == dx_dispatch(b, kids),
        sh_dispatch(a, kids) == sh_dispatch(b, kids),
{
}

/// A text node is emitted as itself by every framework, and binds nothing
/// in Leptos.
pub proof fn law_text_is_itself(node: RenderNode, n: usize, inside_for: bool, sh: bool)
    requires
        node is Text,
    ensures
        gp_render(node) == node->Text_0@,
        dx_inner(node) == node->Text_0@,
        sh_inner(node) == node->Text_0@,
        lp_node(node, n, inside_for, sh) == (Out { code: node->Text_0@, binds: Seq::empty(), next: n }),
{
    assert(!has_cfg(Seq::<Attr>::empty()));
}

/// The counter's value after `k` ids were taken from it, starting at `n`.
pub open spec fn id_after(n: usize, k: nat) -> usize
    decreases k,
{
    if k == 0 {
        n
    } else {
        next_id(id_after(n, (k - 1) as nat))
    }
}

/// Before the counter passes `usize::MAX`, `k` takes advance it by `k`.
proof fn lemma_id_after(n: usize, k: nat)
    requires
        n + k <= usize::MAX,
    ensures
        id_after(n, k) == n + k,
    decreases k,
{
    if k > 0 {
        lemma_id_after(n, (k - 1) as nat);
    }
}

/// Ids taken one after another from one counter count up by one: the
/// `i`-th take from a counter at `n` returns `n + i`, so of the takes made
/// before the counter passes `usize::MAX`, a later one returns a larger id
/// and no two return the same id; the take right after another returns its
/// id plus one.
pub proof fn law_ids_count_up(n: usize, i: nat, j: nat)
    requires
        i < j,
        n + j <= usize::MAX,
    ensures
        id_after(n, i) == n + i,
        id_after(n, j) == n + j,
        id_after(n, i) < id_after(n, j),
        id_after(n, i + 1) == id_after(n, i) + 1,
{
    lemma_id_after(n, i);
    lemma_id_after(n, j);
    lemma_id_after(n, i + 1);
}

/// Two ids taken one after the other differ.
pub proof fn law_next_id_differs(n: usize)
    ensures
        next_id(n) != n,
{
}

/// Emitting a sequence of nodes in Leptos is emitting its two parts in
/// turn: the markup and the bindings are those of the first part followed
/// by those of the second, and the second part's ids start where the first
/// part's end.
pub proof fn law_leptos_nodes_compose(a: Seq<RenderNode>, b: Seq<RenderNode>, n: usize, inside_for: bool, sh: bool)
    ensures
        lp_nodes(a + b, n, inside_for, sh).code == lp_nodes(a, n, inside_for, sh).code + lp_nodes(
            b,
            lp_nodes(a, n, inside_for, sh).next,
            inside_for,
            sh,
        ).code,
        lp_nodes(a + b, n, inside_for, sh).binds == lp_nodes(a, n, inside_for, sh).binds + lp_nodes(
            b,
            lp_nodes(a, n, inside_for, sh).next,
            inside_for,
            sh,
        ).binds,
        lp_nodes(a + b, n, inside_for, sh).next == lp_nodes(b, lp_nodes(a, n, inside_for, sh).next, inside_for, sh).next,
    decreases b.len(),
{
    if b.len() == 0 {
        assert(a + b =~= a);
    } else {
        law_leptos_nodes_compose(a, b.drop_last(), n, inside_for, sh);
        assert((a + b).drop_last() =~= a + b.drop_last());
        assert((a + b).last() == b.last());
    }
}

/// Whether a render tree holds no tab bar, data table or virtual list,
/// at any depth.
pub open spec fn plain_node(node: RenderNode) -> bool
    decreases node,
{
    match node {
        RenderNode::Element(el) => plain_element(el),
        RenderNode::If(i) => plain_all(i.then_branch@) && match i.else_branch {
            Some(eb) => plain_all(eb@),
            None => true,
        },
        RenderNode::For(f) => plain_all(f.body@),
        RenderNode::Root(nodes) => plain_all(nodes@),
        _ => true,
    }
}

/// Whether an element is no tab bar, data table or virtual list, and its
/// children hold none.
pub open spec fn plain_element(el: Element) -> bool
    decreases el,
{
    &&& el.name@ != "tabs"@
    &&& el.name@ != "tab_bar"@
    &&& el.name@ != "data_table"@
    &&& el.name@ != "virtual_list"@
    &&& plain_all(el.children@)
}

/// Whether no node of `nodes` holds a tab bar, data table or virtual list.
pub open spec fn plain_all(nodes: Seq<RenderNode>) -> bool
    decreases nodes,
{
    if nodes.len() == 0 {
        true
    } else {
        plain_all(nodes.drop_last()) && plain_node(nodes.last())
    }
}

/// A render tree without tab bars, data tables and virtual lists can be
/// emitted for every framework.
pub proof fn law_plain_tree_renders_everywhere(node: RenderNode)
    requires
        plain_node(node),
    ensures
        gp_ok(node),
        lp_ok(node, false),
        lp_ok(node, true),
        dx_ok(node),
        sh_ok(node),
    decreases node,
{
    match node {
        RenderNode::Element(el) => {
            law_plain_nodes_render_everywhere(el.children@);
        },
        RenderNode::If(i) => {
            law_plain_nodes_render_everywhere(i.then_branch@);
            match i.else_branch {
                Some(eb) => law_plain_nodes_render_everywhere(eb@),
                None => {},
            }
        },
        RenderNode::For(f) => law_plain_nodes_render_everywhere(f.body@),
        RenderNode::Root(nodes) => law_plain_nodes_render_everywhere(nodes@),
        _ => {},
    }
}

/// Nodes without tab bars, data tables and virtual lists can be emitted
/// for every framework.
pub proof fn law_plain_nodes_render_everywhere(nodes: Seq<RenderNode>)
    requires
        plain_all(nodes),
    ensures
        gp_all_ok(nodes),
        lp_all_ok(nodes, false),
        lp_all_ok(nodes, true),
        dx_all_ok(nodes),
        sh_all_ok(nodes),
    decreases nodes,
{
    if nodes.len() > 0 {
        law_plain_nodes_render_everywhere(nodes.drop_last());
        law_plain_tree_renders_everywhere(nodes.last());
    }
}

/// A render tree without tab bars, data tables and virtual lists can be
/// emitted by every emitter: for each framework, with plain markup or with
/// the shadcn component libraries.
pub proof fn law_plain_tree_emits_everywhere(node: RenderNode, framework: Option<Framework>, shadcn: bool)
    requires
        plain_node(node),
    ensures
        render_ok(framework, shadcn, node),
{
    law_plain_tree_renders_everywhere(node);
}

/// Rendering a node in Leptos with the id counter at `n` or at `m` takes
/// the same number of ids, at most `id_bound(node)`, as long as the counter
/// does not pass `usize::MAX`; a rendering that takes no id is the same text
/// from either start.
pub proof fn law_leptos_render_renumbers(node: RenderNode, n: usize, m: usize, sh: bool)
    requires
        n + id_bound(node) <= usize::MAX,
        m + id_bound(node) <= usize::MAX,
    ensures
        n <= lp_render(node, n, sh).next <= n + id_bound(node),
        lp_render(node, n, sh).next - n == lp_render(node, m, sh).next - m,
        lp_render(node, n, sh).next == n ==> lp_render(node, n, sh).code == lp_render(node, m, sh).code,
{
    lemma_node_renumbered(node, n, m, false, sh);
}

/// An emitter that renders the same node twice: the second rendering
/// starts its ids where the first one ended and takes as many, so the two
/// use different ids; when the node takes no id, the two renderings are the
/// same text. (GPUI and Dioxus take no ids.)
pub proof fn law_render_twice(framework: Option<Framework>, shadcn: bool, node: RenderNode, n: usize)
    requires
        n + 2 * id_bound(node) <= usize::MAX,
    ensures
        n <= render_next(framework, shadcn, node, n),
        render_next(framework, shadcn, node, render_next(framework, shadcn, node, n)) - render_next(
            framework,
            shadcn,
            node,
            n,
        ) == render_next(framework, shadcn, node, n) - n,
        render_next(framework, shadcn, node, n) == n ==> render_code(
            framework,
            shadcn,
            node,
            render_next(framework, shadcn, node, n),
        ) == render_code(framework, shadcn, node, n),
{
    let n2 = render_next(framework, shadcn, node, n);
    match framework {
        Some(Framework::Leptos) => {
            lemma_node_renumbered(node, n, n, false, shadcn);
            assert(n2 <= n + id_bound(node));
            law_leptos_render_renumbers(node, n, n2, shadcn);
        },
        _ => {},
    }
}

/// The ids that one Leptos rendering takes from a counter at `n` are the
/// block from `n` up to where it leaves the counter: the `i`-th of them is
/// `n + i`, inside the block, and no two of them are the same, as long as
/// the counter does not pass `usize::MAX`.
pub proof fn law_rendering_ids_distinct(node: RenderNode, n: usize, sh: bool, i: nat, j: nat)
    requires
        n + id_bound(node) <= usize::MAX,
        i < j,
        n + j < lp_render(node, n, sh).next,
    ensures
        n <= id_after(n, i) < lp_render(node, n, sh).next,
        n <= id_after(n, j) < lp_render(node, n, sh).next,
        id_after(n, i) != id_after(n, j),
{
    law_leptos_render_renumbers(node, n, n, sh);
    law_ids_count_up(n, i, j);
}

} // verus!
