//! `component!` for GPUI: a props struct with defaults, a view struct that
//! holds the props, a signal per state field and an optional signal per
//! global, its constructor and actions, an optional `Drop`, and its
//! `Render` impl.

use vstd::prelude::*;
use crate::component_ast::ComponentAst;
use crate::text::{joined, push_joined, push_suffixed, suffixed, texts};
use super::parts::{
    action_method_texts, action_methods, global_clone_texts, global_clones, global_name_texts, global_names,
    gpui_global_field_texts, gpui_global_fields, gpui_global_init_texts, gpui_global_inits, gpui_state_field_texts,
    gpui_state_fields, prop_default_texts, prop_defaults, prop_field_texts, prop_fields, props_name, props_name_of,
    state_clone_texts, state_clones, state_init_texts, state_inits, state_name_texts, state_names, state_ref_texts,
    state_refs, stmt_code_texts, stmt_codes,
};

verus! {

/// The props struct and its `Default` impl.
pub open spec fn gpui_props(ast: ComponentAst) -> Seq<char> {
    let pn = props_name(ast.name@);
    "#[derive(Clone)] "@ + ast.vis@ + " struct "@ + pn + " { "@ + joined(prop_fields(ast.props@), ", "@)
        + " _phantom: ::std::marker::PhantomData<()>, } impl Default for "@ + pn
        + " { fn default() -> Self { Self { "@ + suffixed(prop_defaults(ast.props@), ", "@)
        + "_phantom: ::std::marker::PhantomData, } } } "@
}

/// The view struct.
pub open spec fn gpui_view_struct(ast: ComponentAst) -> Seq<char> {
    ast.vis@ + " struct "@ + ast.name@ + " { props: "@ + props_name(ast.name@) + " , "@
        + suffixed(gpui_state_fields(ast.state@), ", "@) + suffixed(gpui_global_fields(ast.globals@), ", "@)
        + "_quoin_inputs: quoin::QuoinInputManager, _subs: Vec<gpui::Subscription>, } "@
}

/// The statements of an optional block, each followed by a space.
pub open spec fn block_stmts(b: Option<Vec<String>>) -> Seq<char> {
    match b {
        Some(stmts) => suffixed(texts(stmts@), " "@),
        None => Seq::empty(),
    }
}

/// The constructor, which creates the signals, looks up the globals and
/// runs `on_mount`, and the actions as methods.
pub open spec fn gpui_view_impl(ast: ComponentAst) -> Seq<char> {
    "impl "@ + ast.name@
        + " { pub fn new(cx: &mut gpui::Context<Self>, ctx: quoin::GpuiContext, props: "@
        + props_name(ast.name@) + " ) -> Self { use quoin::ReactiveContext; use quoin::Signal; "@
        + suffixed(state_inits(ast.state@), " "@) + suffixed(gpui_global_inits(ast.globals@), " "@)
        + block_stmts(ast.on_mount) + "Self { props, "@ + suffixed(state_names(ast.state@), ", "@)
        + suffixed(global_names(ast.globals@), ", "@)
        + "_quoin_inputs: quoin::QuoinInputManager::new(), _subs: Vec::new(), } } "@
        + suffixed(action_methods(ast.actions@), " "@) + "} "@
}

/// The `Drop` impl that runs `on_unmount` with the state fields in scope;
/// nothing without `on_unmount`.
pub open spec fn gpui_drop_impl(ast: ComponentAst) -> Seq<char> {
    match ast.on_unmount {
        Some(stmts) => "impl Drop for "@ + ast.name@ + " { fn drop(&mut self) { use quoin::Signal; "@
            + suffixed(state_refs(ast.state@), " "@) + suffixed(texts(stmts@), " "@) + "} } "@,
        None => Seq::empty(),
    }
}

/// The `Render` impl: clones of the state fields and globals, then the
/// render body.
pub open spec fn gpui_render_impl(ast: ComponentAst) -> Seq<char> {
    "impl gpui::Render for "@ + ast.name@
        + " { fn render(&mut self, window: &mut gpui::Window, cx: &mut gpui::Context<Self>) -> impl gpui::IntoElement { use gpui::*; use quoin::Signal; "@
        + suffixed(state_clones(ast.state@), " "@) + suffixed(global_clones(ast.globals@), " "@)
        + suffixed(stmt_codes(ast.render@), " "@) + "} }"@
}

/// The whole GPUI component.
pub open spec fn gpui_component(ast: ComponentAst) -> Seq<char> {
    gpui_props(ast) + gpui_view_struct(ast) + gpui_view_impl(ast) + gpui_drop_impl(ast) + gpui_render_impl(ast)
}

/// Appends the statements of an optional block, each followed by a space.
pub fn push_block_stmts(out: &mut String, b: &Option<Vec<String>>)
    ensures
        final(out)@ == old(out)@ + block_stmts(*b),
{
    match b {
        Some(stmts) => push_suffixed(out, stmts, " "),
        None => {
            assert(final(out)@ =~= old(out)@ + block_stmts(*b));
        },
    }
}

fn push_gpui_props(out: &mut String, ast: &ComponentAst)
    ensures
        final(out)@ == old(out)@ + gpui_props(*ast),
{
    let ghost start = out@;
    let pn = props_name_of(ast.name.as_str());
    out.append("#[derive(Clone)] ");
    out.append(ast.vis.as_str());
    out.append(" struct ");
    out.append(pn.as_str());
    out.append(" { ");
    push_joined(out, &prop_field_texts(&ast.props), ", ");
    out.append(" _phantom: ::std::marker::PhantomData<()>, } impl Default for ");
    out.append(pn.as_str());
    out.append(" { fn default() -> Self { Self { ");
    push_suffixed(out, &prop_default_texts(&ast.props), ", ");
    out.append("_phantom: ::std::marker::PhantomData, } } } ");
    assert(out@ =~= start + gpui_props(*ast));
}

fn push_gpui_view_struct(out: &mut String, ast: &ComponentAst)
    ensures
        final(out)@ == old(out)@ + gpui_view_struct(*ast),
{
    let ghost start = out@;
    out.append(ast.vis.as_str());
    out.append(" struct ");
    out.append(ast.name.as_str());
    out.append(" { props: ");
    out.append(props_name_of(ast.name.as_str()).as_str());
    out.append(" , ");
    push_suffixed(out, &gpui_state_field_texts(&ast.state), ", ");
    push_suffixed(out, &gpui_global_field_texts(&ast.globals), ", ");
    out.append("_quoin_inputs: quoin::QuoinInputManager, _subs: Vec<gpui::Subscription>, } ");
    assert(out@ =~= start + gpui_view_struct(*ast));
}

fn push_gpui_view_impl(out: &mut String, ast: &ComponentAst)
    ensures
        final(out)@ == old(out)@ + gpui_view_impl(*ast),
{
    let ghost start = out@;
    out.append("impl ");
    out.append(ast.name.as_str());
    out.append(" { pub fn new(cx: &mut gpui::Context<Self>, ctx: quoin::GpuiContext, props: ");
    out.append(props_name_of(ast.name.as_str()).as_str());
    out.append(" ) -> Self { use quoin::ReactiveContext; use quoin::Signal; ");
    push_suffixed(out, &state_init_texts(&ast.state), " ");
    push_suffixed(out, &gpui_global_init_texts(&ast.globals), " ");
    push_block_stmts(out, &ast.on_mount);
    out.append("Self { props, ");
    push_suffixed(out, &state_name_texts(&ast.state), ", ");
    push_suffixed(out, &global_name_texts(&ast.globals), ", ");
    out.append("_quoin_inputs: quoin::QuoinInputManager::new(), _subs: Vec::new(), } } ");
    push_suffixed(out, &action_method_texts(&ast.actions), " ");
    out.append("} ");
    assert(out@ =~= start + gpui_view_impl(*ast));
}

fn push_gpui_drop_impl(out: &mut String, ast: &ComponentAst)
    ensures
        final(out)@ == old(out)@ + gpui_drop_impl(*ast),
{
    let ghost start = out@;
    match &ast.on_unmount {
        Some(stmts) => {
            out.append("impl Drop for ");
            out.append(ast.name.as_str());
            out.append(" { fn drop(&mut self) { use quoin::Signal; ");
            push_suffixed(out, &state_ref_texts(&ast.state), " ");
            push_suffixed(out, stmts, " ");
            out.append("} } ");
        },
        None => {},
    }
    assert(out@ =~= start + gpui_drop_impl(*ast));
}

fn push_gpui_render_impl(out: &mut String, ast: &ComponentAst)
    ensures
        final(out)@ == old(out)@ + gpui_render_impl(*ast),
{
    let ghost start = out@;
    out.append("impl gpui::Render for ");
    out.append(ast.name.as_str());
    out.append(
        " { fn render(&mut self, window: &mut gpui::Window, cx: &mut gpui::Context<Self>) -> impl gpui::IntoElement { use gpui::*; use quoin::Signal; ",
    );
    push_suffixed(out, &state_clone_texts(&ast.state), " ");
    push_suffixed(out, &global_clone_texts(&ast.globals), " ");
    push_suffixed(out, &stmt_code_texts(&ast.render), " ");
    out.append("} }");
    assert(out@ =~= start + gpui_render_impl(*ast));
}

/// Emits a GPUI component: the props struct with its defaults, the view
/// struct, its constructor and actions, a `Drop` impl when the component
/// has `on_unmount`, and its `Render` impl.
pub fn emit_component(ast: &ComponentAst) -> (out: String)
    ensures
        out@ == gpui_component(*ast),
{
    let mut out = String::new();
    push_gpui_props(&mut out, ast);
    push_gpui_view_struct(&mut out, ast);
    push_gpui_view_impl(&mut out, ast);
    push_gpui_drop_impl(&mut out, ast);
    push_gpui_render_impl(&mut out, ast);
    assert(out@ =~= gpui_component(*ast));
    out
}

} // verus!
