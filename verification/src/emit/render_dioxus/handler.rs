//! Event handlers in Dioxus RSX: captured values are cloned and the closure
//! is made `move`.

use vstd::prelude::*;
use crate::ast::Expr;
use crate::emit::common::{clone_shadows, push_clone_shadows};

verus! {

/// `{ let x = x.clone(); ... <handler as a move closure> }`.
pub open spec fn dioxus_handler(e: Expr) -> Seq<char> {
    "{ "@ + clone_shadows(e.captures@) + e.moved@ + " }"@
}

/// Wraps an event handler so that it owns clones of what it captures.
pub fn wrap_dioxus_handler(handler_expr: &Expr) -> (out: String)
    ensures
        out@ == dioxus_handler(*handler_expr),
{
    let mut out = String::from_str("{ ");
    push_clone_shadows(&mut out, &handler_expr.captures);
    out.append(handler_expr.moved.as_str());
    out.append(" }");
    out
}

} // verus!
