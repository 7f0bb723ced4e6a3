//! `component!` for Leptos: a `#[component]` function that creates the
//! signals, looks up the globals, binds the actions as closures over clones
//! of what they name, runs `on_mount`, registers `on_unmount` as cleanup,
//! and ends with the render body.

use vstd::prelude::*;
use crate::component_ast::{Action, ComponentAst};
use crate::emit::common::{clone_shadows, push_clone_shadows};
use crate::text::{push_suffixed, render_each, suffixed, texts};
use super::gpui::{block_stmts, push_block_stmts};
use super::parts::{leptos_global_init_texts, leptos_global_inits, state_init_texts, state_inits, stmt_code_texts, stmt_codes};

verus! {

/// An action as a closure that owns clones of every identifier its body
/// names.
pub open spec fn leptos_action(a: Action) -> Seq<char> {
    "let "@ + a.name@ + " = { "@ + clone_shadows(a.referenced@) + "move || "@ + a.block@ + " };"@
}

/// The actions as closures.
pub open spec fn leptos_actions(v: Seq<Action>) -> Seq<Seq<char>> {
    Seq::new(v.len(), |i: int| leptos_action(v[i]))
}

fn leptos_action_text(a: &Action) -> (out: String)
    ensures
        out@ == leptos_action(*a),
{
    let mut out = String::from_str("let ");
    out.append(a.name.as_str());
    out.append(" = { ");
    push_clone_shadows(&mut out, &a.referenced);
    out.append("move || ");
    out.append(a.block.as_str());
    out.append(" };");
    out
}

/// The `on_cleanup` registration of `on_unmount`; nothing without it.
pub open spec fn leptos_unmount(b: Option<Vec<String>>) -> Seq<char> {
    match b {
        Some(stmts) => "leptos::prelude::on_cleanup(move || { "@ + suffixed(texts(stmts@), " "@) + "}); "@,
        None => Seq::empty(),
    }
}

/// The whole Leptos component.
pub open spec fn leptos_component(ast: ComponentAst) -> Seq<char> {
    "#[leptos::prelude::component] "@ + ast.vis@ + " fn "@ + ast.name@
        + " () -> impl leptos::prelude::IntoView { use quoin::ReactiveContext; use quoin::Signal; use leptos::prelude::ElementChild; let ctx = quoin::LeptosContext::new(); "@
        + suffixed(state_inits(ast.state@), " "@) + suffixed(leptos_global_inits(ast.globals@), " "@)
        + suffixed(leptos_actions(ast.actions@), " "@) + block_stmts(ast.on_mount)
        + leptos_unmount(ast.on_unmount) + suffixed(stmt_codes(ast.render@), " "@) + "}"@
}

/// Emits a Leptos component.
pub fn emit_component(ast: &ComponentAst) -> (out: String)
    ensures
        out@ == leptos_component(*ast),
{
    let mut out = String::from_str("#[leptos::prelude::component] ");
    out.append(ast.vis.as_str());
    out.append(" fn ");
    out.append(ast.name.as_str());
    out.append(
        " () -> impl leptos::prelude::IntoView { use quoin::ReactiveContext; use quoin::Signal; use leptos::prelude::ElementChild; let ctx = quoin::LeptosContext::new(); ",
    );
    push_suffixed(&mut out, &state_init_texts(&ast.state), " ");
    push_suffixed(&mut out, &leptos_global_init_texts(&ast.globals), " ");
    let actions = render_each(&ast.actions, leptos_action_text, Ghost(|a: Action| leptos_action(a)));
    assert(texts(actions@) =~= leptos_actions(ast.actions@));
    push_suffixed(&mut out, &actions, " ");
    push_block_stmts(&mut out, &ast.on_mount);
    match &ast.on_unmount {
        Some(stmts) => {
            out.append("leptos::prelude::on_cleanup(move || { ");
            push_suffixed(&mut out, stmts, " ");
            out.append("}); ");
        },
        None => {},
    }
    push_suffixed(&mut out, &stmt_code_texts(&ast.render), " ");
    out.append("}");
    assert(out@ =~= leptos_component(*ast));
    out
}

} // verus!
