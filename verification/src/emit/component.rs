//! `component!` for a plain GPUI view: a props struct, a view struct with a
//! signal per state field, its constructor and actions, and its `Render`
//! impl, which borrows the state fields.

use vstd::prelude::*;
use crate::component_ast::ComponentAst;
use crate::text::{joined, push_joined, push_suffixed, suffixed};
use super::parts::{
    action_method_texts, action_methods, plain_state_field_texts, plain_state_fields, prop_field_texts, prop_fields,
    props_name, props_name_of, state_init_texts, state_inits, state_name_texts, state_names, state_ref_texts,
    state_refs, stmt_code_texts, stmt_codes,
};

verus! {

/// The whole plain GPUI view.
pub open spec fn plain_component(ast: ComponentAst) -> Seq<char> {
    let pn = props_name(ast.name@);
    "#[derive(Clone)] "@ + ast.vis@ + " struct "@ + pn + " { "@ + joined(prop_fields(ast.props@), ", "@) + " } "@
        + ast.vis@ + " struct "@ + ast.name@ + " { props: "@ + pn + " , "@
        + joined(plain_state_fields(ast.state@), ", "@)
        + " _quoin_inputs: quoin_ui_gpui::QuoinInputManager, } impl "@ + ast.name@
        + " { pub fn new(cx: &mut gpui::Context<Self>, ctx: quoin_gpui::GpuiContext, props: "@ + pn
        + " ) -> Self { use quoin::ReactiveContext; "@ + suffixed(state_inits(ast.state@), " "@)
        + "Self { props, "@ + suffixed(state_names(ast.state@), ", "@)
        + "_quoin_inputs: quoin_ui_gpui::QuoinInputManager::new(), } } "@
        + suffixed(action_methods(ast.actions@), " "@) + "} impl gpui::Render for "@ + ast.name@
        + " { fn render(&mut self, window: &mut gpui::Window, cx: &mut gpui::Context<Self>) -> impl gpui::IntoElement { use gpui::*; "@
        + suffixed(state_refs(ast.state@), " "@) + suffixed(stmt_codes(ast.render@), " "@) + "} }"@
}

/// Emits a plain GPUI view.
pub fn emit_component(ast: &ComponentAst) -> (out: String)
    ensures
        out@ == plain_component(*ast),
{
    let pn = props_name_of(ast.name.as_str());
    let mut out = String::from_str("#[derive(Clone)] ");
    out.append(ast.vis.as_str());
    out.append(" struct ");
    out.append(pn.as_str());
    out.append(" { ");
    push_joined(&mut out, &prop_field_texts(&ast.props), ", ");
    out.append(" } ");
    out.append(ast.vis.as_str());
    out.append(" struct ");
    out.append(ast.name.as_str());
    out.append(" { props: ");
    out.append(pn.as_str());
    out.append(" , ");
    push_joined(&mut out, &plain_state_field_texts(&ast.state), ", ");
    out.append(" _quoin_inputs: quoin_ui_gpui::QuoinInputManager, } impl ");
    out.append(ast.name.as_str());
    out.append(" { pub fn new(cx: &mut gpui::Context<Self>, ctx: quoin_gpui::GpuiContext, props: ");
    out.append(pn.as_str());
    out.append(" ) -> Self { use quoin::ReactiveContext; ");
    push_suffixed(&mut out, &state_init_texts(&ast.state), " ");
    out.append("Self { props, ");
    push_suffixed(&mut out, &state_name_texts(&ast.state), ", ");
    out.append("_quoin_inputs: quoin_ui_gpui::QuoinInputManager::new(), } } ");
    push_suffixed(&mut out, &action_method_texts(&ast.actions), " ");
    out.append("} impl gpui::Render for ");
    out.append(ast.name.as_str());
    out.append(
        " { fn render(&mut self, window: &mut gpui::Window, cx: &mut gpui::Context<Self>) -> impl gpui::IntoElement { use gpui::*; ",
    );
    push_suffixed(&mut out, &state_ref_texts(&ast.state), " ");
    push_suffixed(&mut out, &stmt_code_texts(&ast.render), " ");
    out.append("} }");
    assert(out@ =~= plain_component(*ast));
    out
}

} // verus!
