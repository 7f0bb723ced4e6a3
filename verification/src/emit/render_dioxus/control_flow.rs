//! `if` and `for` nodes in Dioxus RSX.

use vstd::prelude::*;
use crate::ast::{ForNode, IfNode, RenderNode};
use super::{dx_all_ok, dx_nodes, emit_nodes_inner, lemma_all_ok};

verus! {

/// `if cond { ... } else ...`; an `else` branch that is a single `if` node
/// becomes an `else if` chain.
pub open spec fn dx_if(i: IfNode) -> Seq<char>
    decreases i,
{
    let head = "if "@ + i.condition@ + " { "@ + dx_nodes(i.then_branch@) + "}"@;
    match i.else_branch {
        Some(eb) => if eb@.len() == 1 && eb@[0] is If {
            match eb@[0] {
                RenderNode::If(nested) => head + " else "@ + dx_if(nested),
                _ => head,
            }
        } else {
            head + " else { "@ + dx_nodes(eb@) + "}"@
        },
        None => head,
    }
}

/// `for pat in iterable { ... }`.
pub open spec fn dx_for(f: ForNode) -> Seq<char>
    decreases f,
{
    "for "@ + f.pat@ + " in "@ + f.iterable@ + " { "@ + dx_nodes(f.body@) + "}"@
}

/// Emits an `if` node.
pub fn emit_if(if_node: &IfNode) -> (out: String)
    requires
        dx_all_ok(if_node.then_branch@),
        match if_node.else_branch {
            Some(eb) => dx_all_ok(eb@),
            None => true,
        },
    ensures
        out@ == dx_if(*if_node),
    decreases if_node,
{
    let mut out = String::from_str("if ");
    out.append(if_node.condition.as_str());
    out.append(" { ");
    let then_tokens = emit_nodes_inner(&if_node.then_branch);
    out.append(then_tokens.as_str());
    out.append("}");
    match &if_node.else_branch {
        Some(else_branch) => {
            if else_branch.len() == 1 {
                proof { lemma_all_ok(else_branch@, 0); }
                if let RenderNode::If(nested_if) = &else_branch[0] {
                    let nested = emit_if(nested_if);
                    out.append(" else ");
                    out.append(nested.as_str());
                    return out;
                }
            }
            let else_tokens = emit_nodes_inner(else_branch);
            out.append(" else { ");
            out.append(else_tokens.as_str());
            out.append("}");
            out
        },
        None => out,
    }
}

/// Emits a `for` node.
pub fn emit_for(for_node: &ForNode) -> (out: String)
    requires
        dx_all_ok(for_node.body@),
    ensures
        out@ == dx_for(*for_node),
    decreases for_node,
{
    let mut out = String::from_str("for ");
    out.append(for_node.pat.as_str());
    out.append(" in ");
    out.append(for_node.iterable.as_str());
    out.append(" { ");
    let body = emit_nodes_inner(&for_node.body);
    out.append(body.as_str());
    out.append("}");
    out
}

} // verus!
