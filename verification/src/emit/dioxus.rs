//! `component!` for Dioxus: a props struct and a `#[component]` function
//! that creates the signals once, looks up the globals, binds the actions
//! as closures over clones of the state and globals they name, runs
//! `on_mount` as an effect and `on_unmount` on drop, and ends with the
//! render body and, where that body ends without a value, a placeholder
//! node.

use vstd::prelude::*;
use crate::component_ast::{Action, ComponentAst, Stmt, StmtKind, TypedParam};
use crate::emit::common::{clone_shadows, push_clone_shadows};
use crate::text::{joined, push_joined, push_suffixed, render_each, str_eq, suffixed, texts};
use super::parts::{
    dioxus_global_init_texts, dioxus_global_inits, dioxus_state_init_texts, dioxus_state_inits, global_name_texts,
    global_names, prop_field_texts, prop_fields, props_name, props_name_of, state_name_texts, state_names,
    stmt_code_texts, stmt_codes,
};

verus! {

/// The identifiers of `ids` that are among `keep` and not among `drop`,
/// in order.
pub open spec fn kept(ids: Seq<String>, keep: Seq<Seq<char>>, drop: Seq<Seq<char>>) -> Seq<String>
    decreases ids.len(),
{
    if ids.len() == 0 {
        Seq::empty()
    } else {
        kept(ids.drop_last(), keep, drop) + if keep.contains(ids.last()@) && !drop.contains(ids.last()@) {
            seq![ids.last()]
        } else {
            Seq::empty()
        }
    }
}

/// The names of an action's parameters.
pub open spec fn param_names(ps: Seq<TypedParam>) -> Seq<Seq<char>> {
    Seq::new(ps.len(), |i: int| ps[i].name@)
}

/// A parameter of an action's closure: `name: Type`.
pub open spec fn typed_param(p: TypedParam) -> Seq<char> {
    p.name@ + " : "@ + p.ty@
}

/// The parameters of an action's closure.
pub open spec fn typed_params(ps: Seq<TypedParam>) -> Seq<Seq<char>> {
    Seq::new(ps.len(), |i: int| typed_param(ps[i]))
}

/// An action as a closure that owns clones of the state fields and globals
/// (`names`) that its body names, its own parameters left out.
pub open spec fn dioxus_action(a: Action, names: Seq<Seq<char>>) -> Seq<char> {
    let shadows = clone_shadows(kept(a.referenced@, names, param_names(a.params@)));
    "let "@ + a.name@ + " = { "@ + shadows + if a.params@.len() == 0 {
        "move || "@
    } else {
        "move | "@ + joined(typed_params(a.params@), ", "@) + " | "@
    } + a.block@ + " };"@
}

/// The actions as closures.
pub open spec fn dioxus_actions(v: Seq<Action>, names: Seq<Seq<char>>) -> Seq<char>
    decreases v.len(),
{
    if v.len() == 0 {
        Seq::empty()
    } else {
        dioxus_actions(v.drop_last(), names) + dioxus_action(v.last(), names) + " "@
    }
}

/// Whether the render body ends without a value: it is empty, or its last
/// statement is a `let`, an item, or an expression with a semicolon.
pub open spec fn needs_fallback(render: Seq<Stmt>) -> bool {
    render.len() == 0 || match render.last().kind {
        StmtKind::Local => true,
        StmtKind::Item => true,
        StmtKind::ExprSemi => true,
        _ => false,
    }
}

/// The props struct and the head of the component function.
pub open spec fn dioxus_head(ast: ComponentAst) -> Seq<char> {
    "#[derive(Clone)] "@ + ast.vis@ + " struct "@ + props_name(ast.name@) + " { "@
        + joined(prop_fields(ast.props@), ", "@) + " } #[dioxus::prelude::component] "@ + ast.vis@ + " fn "@
        + ast.name@
        + " () -> dioxus::prelude::Element { use quoin::ReactiveContext; use quoin::Signal; let ctx = dioxus::prelude::use_hook(quoin::DioxusContext::new); "@
}

/// The lifecycle hooks: `on_mount` as an effect, `on_unmount` on drop.
pub open spec fn dioxus_lifecycle(ast: ComponentAst) -> Seq<char> {
    (match ast.on_mount {
        Some(stmts) => "dioxus::prelude::use_effect(move || { "@ + suffixed(texts(stmts@), " "@) + "}); "@,
        None => Seq::empty(),
    }) + match ast.on_unmount {
        Some(stmts) => "dioxus::prelude::use_drop(move || { "@ + suffixed(texts(stmts@), " "@) + "}); "@,
        None => Seq::empty(),
    }
}

/// The render body, with a placeholder node where it ends without a
/// value, and the closing brace.
pub open spec fn dioxus_tail(ast: ComponentAst) -> Seq<char> {
    suffixed(stmt_codes(ast.render@), " "@) + if needs_fallback(ast.render@) {
        "Ok(dioxus::prelude::VNode::placeholder()) "@
    } else {
        Seq::empty()
    } + "}"@
}

/// The whole Dioxus component.
pub open spec fn dioxus_component(ast: ComponentAst) -> Seq<char> {
    let names = state_names(ast.state@) + global_names(ast.globals@);
    dioxus_head(ast) + suffixed(dioxus_state_inits(ast.state@), " "@) + suffixed(
        dioxus_global_inits(ast.globals@),
        " "@,
    ) + dioxus_actions(ast.actions@, names) + dioxus_lifecycle(ast) + dioxus_tail(ast)
}

/// Whether some string of `v` has the text `s`.
fn has_string(v: &Vec<String>, s: &str) -> (r: bool)
    ensures
        r == texts(v@).contains(s@),
{
    let mut i: usize = 0;
    while i < v.len()
        invariant
            i <= v@.len(),
            forall|j: int| 0 <= j < i ==> (#[trigger] v@[j])@ != s@,
        decreases v@.len() - i,
    {
        if str_eq(v[i].as_str(), s) {
            assert(texts(v@)[i as int] == s@);
            return true;
        }
        i = i + 1;
    }
    assert forall|j: int| 0 <= j < texts(v@).len() implies texts(v@)[j] != s@ by {
        assert(v@[j]@ != s@);
    }
    false
}

/// The identifiers of `ids` that are among `keep` and not among `drop`.
fn kept_of(ids: &Vec<String>, keep: &Vec<String>, drop: &Vec<String>) -> (r: Vec<String>)
    ensures
        r@ == kept(ids@, texts(keep@), texts(drop@)),
{
    let mut r: Vec<String> = Vec::new();
    let mut i: usize = 0;
    while i < ids.len()
        invariant
            i <= ids@.len(),
            r@ == kept(ids@.subrange(0, i as int), texts(keep@), texts(drop@)),
        decreases ids@.len() - i,
    {
        let ghost after = ids@.subrange(0, i + 1);
        assert(after.drop_last() =~= ids@.subrange(0, i as int));
        if has_string(keep, ids[i].as_str()) && !has_string(drop, ids[i].as_str()) {
            r.push(ids[i].clone());
        }
        i = i + 1;
        assert(r@ =~= kept(ids@.subrange(0, i as int), texts(keep@), texts(drop@)));
    }
    assert(ids@.subrange(0, ids@.len() as int) =~= ids@);
    r
}

fn param_name_text(p: &TypedParam) -> (out: String)
    ensures
        out@ == p.name@,
{
    p.name.clone()
}

fn typed_param_text(p: &TypedParam) -> (out: String)
    ensures
        out@ == typed_param(*p),
{
    let mut out = p.name.clone();
    out.append(" : ");
    out.append(p.ty.as_str());
    out
}

fn push_dioxus_action(out: &mut String, a: &Action, names: &Vec<String>)
    ensures
        final(out)@ == old(out)@ + dioxus_action(*a, texts(names@)),
{
    let ghost start = out@;
    let pnames = render_each(&a.params, param_name_text, Ghost(|p: TypedParam| p.name@));
    assert(texts(pnames@) =~= param_names(a.params@));
    let shadows = kept_of(&a.referenced, names, &pnames);
    out.append("let ");
    out.append(a.name.as_str());
    out.append(" = { ");
    push_clone_shadows(out, &shadows);
    if a.params.len() == 0 {
        out.append("move || ");
    } else {
        out.append("move | ");
        let ps = render_each(&a.params, typed_param_text, Ghost(|p: TypedParam| typed_param(p)));
        assert(texts(ps@) =~= typed_params(a.params@));
        push_joined(out, &ps, ", ");
        out.append(" | ");
    }
    out.append(a.block.as_str());
    out.append(" };");
    assert(out@ =~= start + dioxus_action(*a, texts(names@)));
}

fn push_dioxus_actions(out: &mut String, v: &Vec<Action>, names: &Vec<String>)
    ensures
        final(out)@ == old(out)@ + dioxus_actions(v@, texts(names@)),
{
    let ghost start = out@;
    let mut i: usize = 0;
    while i < v.len()
        invariant
            i <= v@.len(),
            out@ == start + dioxus_actions(v@.subrange(0, i as int), texts(names@)),
        decreases v@.len() - i,
    {
        let ghost after = v@.subrange(0, i + 1);
        assert(after.drop_last() =~= v@.subrange(0, i as int));
        push_dioxus_action(out, &v[i], names);
        out.append(" ");
        i = i + 1;
        assert(out@ =~= start + dioxus_actions(v@.subrange(0, i as int), texts(names@)));
    }
    assert(v@.subrange(0, v@.len() as int) =~= v@);
}

fn needs_fallback_exec(render: &Vec<Stmt>) -> (r: bool)
    ensures
        r == needs_fallback(render@),
{
    if render.len() == 0 {
        true
    } else {
        match render[render.len() - 1].kind {
            StmtKind::Local => true,
            StmtKind::Item => true,
            StmtKind::ExprSemi => true,
            _ => false,
        }
    }
}

fn push_dioxus_head(out: &mut String, ast: &ComponentAst)
    ensures
        final(out)@ == old(out)@ + dioxus_head(*ast),
{
    let ghost start = out@;
    out.append("#[derive(Clone)] ");
    out.append(ast.vis.as_str());
    out.append(" struct ");
    out.append(props_name_of(ast.name.as_str()).as_str());
    out.append(" { ");
    push_joined(out, &prop_field_texts(&ast.props), ", ");
    out.append(" } #[dioxus::prelude::component] ");
    out.append(ast.vis.as_str());
    out.append(" fn ");
    out.append(ast.name.as_str());
    out.append(
        " () -> dioxus::prelude::Element { use quoin::ReactiveContext; use quoin::Signal; let ctx = dioxus::prelude::use_hook(quoin::DioxusContext::new); ",
    );
    assert(out@ =~= start + dioxus_head(*ast));
}

fn push_dioxus_lifecycle(out: &mut String, ast: &ComponentAst)
    ensures
        final(out)@ == old(out)@ + dioxus_lifecycle(*ast),
{
    let ghost start = out@;
    match &ast.on_mount {
        Some(stmts) => {
            out.append("dioxus::prelude::use_effect(move || { ");
            push_suffixed(out, stmts, " ");
            out.append("}); ");
        },
        None => {},
    }
    match &ast.on_unmount {
        Some(stmts) => {
            out.append("dioxus::prelude::use_drop(move || { ");
            push_suffixed(out, stmts, " ");
            out.append("}); ");
        },
        None => {},
    }
    assert(out@ =~= start + dioxus_lifecycle(*ast));
}

fn push_dioxus_tail(out: &mut String, ast: &ComponentAst)
    ensures
        final(out)@ == old(out)@ + dioxus_tail(*ast),
{
    let ghost start = out@;
    push_suffixed(out, &stmt_code_texts(&ast.render), " ");
    if needs_fallback_exec(&ast.render) {
        out.append("Ok(dioxus::prelude::VNode::placeholder()) ");
    }
    out.append("}");
    assert(out@ =~= start + dioxus_tail(*ast));
}

/// Emits a Dioxus component.
pub fn emit_component(ast: &ComponentAst) -> (out: String)
    ensures
        out@ == dioxus_component(*ast),
{
    let mut names = state_name_texts(&ast.state);
    let mut globals = global_name_texts(&ast.globals);
    let ghost sn = names@;
    let ghost gn = globals@;
    names.append(&mut globals);
    assert(texts(names@) =~= texts(sn) + texts(gn));
    let mut out = String::new();
    push_dioxus_head(&mut out, ast);
    push_suffixed(&mut out, &dioxus_state_init_texts(&ast.state), " ");
    push_suffixed(&mut out, &dioxus_global_init_texts(&ast.globals), " ");
    push_dioxus_actions(&mut out, &ast.actions, &names);
    push_dioxus_lifecycle(&mut out, ast);
    push_dioxus_tail(&mut out, ast);
    assert(out@ =~= dioxus_component(*ast));
    out
}

} // verus!
