//! Event handlers in GPUI method chains.

use vstd::prelude::*;
use crate::ast::Expr;
use crate::emit::common::{clone_shadows, push_clone_shadows};

verus! {

/// A mouse handler: clones of what the handler captures, the handler as a
/// `move` closure in an `Rc`, and a three-argument closure that calls it.
pub open spec fn gpui_handler(e: Expr) -> Seq<char> {
    "{ "@ + clone_shadows(e.captures@) + "let __handler = ::std::rc::Rc::new( "@ + e.moved@
        + " ); move |_, _, _| { __handler(()) } }"@
}

/// Wraps an event handler as a GPUI mouse handler.
pub fn wrap_handler(handler_expr: &Expr) -> (out: String)
    ensures
        out@ == gpui_handler(*handler_expr),
{
    let mut out = String::from_str("{ ");
    push_clone_shadows(&mut out, &handler_expr.captures);
    out.append("let __handler = ::std::rc::Rc::new( ");
    out.append(handler_expr.moved.as_str());
    out.append(" ); move |_, _, _| { __handler(()) } }");
    out
}

} // verus!
