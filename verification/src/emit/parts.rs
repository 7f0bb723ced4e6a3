//! Pieces of the component code: one text for each prop, state field,
//! global, action or statement of a component.

use vstd::prelude::*;
use crate::component_ast::{Action, GlobalField, PropField, StateField, Stmt};
use crate::text::{ident_fragment, ident_fragment_of, render_each, texts};

verus! {

/// The name of a component's props struct: the component's name, without
/// an `r#` prefix, followed by `Props`.
pub open spec fn props_name(name: Seq<char>) -> Seq<char> {
    ident_fragment(name) + "Props"@
}

/// The name of a component's props struct.
pub fn props_name_of(name: &str) -> (r: String)
    ensures
        r@ == props_name(name@),
{
    let mut r = String::from_str(ident_fragment_of(name));
    r.append("Props");
    r
}

/// The initializer of a prop in the props struct's `Default`: its default
/// value, or `Default::default()`.
pub open spec fn prop_default(p: PropField) -> Seq<char> {
    p.name@ + " : "@ + match p.default {
        Some(d) => d@,
        None => "Default::default()"@,
    }
}

/// The initializers of the props, one per prop.
pub open spec fn prop_defaults(v: Seq<PropField>) -> Seq<Seq<char>> {
    Seq::new(v.len(), |i: int| prop_default(v[i]))
}

fn prop_default_text(p: &PropField) -> (s: String)
    ensures
        s@ == prop_default(*p),
{
    let mut s = String::new();
    s.append(p.name.as_str());
    s.append(" : ");
    match &p.default {
        Some(d) => s.append(d.as_str()),
        None => s.append("Default::default()"),
    }
    s
}

/// The initializers of the props, one per prop.
pub fn prop_default_texts(v: &Vec<PropField>) -> (r: Vec<String>)
    ensures
        texts(r@) == prop_defaults(v@),
{
    let r = render_each(v, prop_default_text, Ghost(|x: PropField| prop_default(x)));
    assert(texts(r@) =~= prop_defaults(v@));
    r
}

/// A public field of the props struct: `pub name: Type`.
pub open spec fn prop_field(p: PropField) -> Seq<char> {
    "pub "@ + p.name@ + " : "@ + p.ty@
}

/// The public fields of the props struct, one per prop.
pub open spec fn prop_fields(v: Seq<PropField>) -> Seq<Seq<char>> {
    Seq::new(v.len(), |i: int| prop_field(v[i]))
}

fn prop_field_text(p: &PropField) -> (out: String)
    ensures
        out@ == prop_field(*p),
{
    let mut out = String::from_str("pub ");
    out.append(p.name.as_str());
    out.append(" : ");
    out.append(p.ty.as_str());
    out
}

/// The public fields of the props struct, one per prop.
pub fn prop_field_texts(v: &Vec<PropField>) -> (r: Vec<String>)
    ensures
        texts(r@) == prop_fields(v@),
{
    let r = render_each(v, prop_field_text, Ghost(|x: PropField| prop_field(x)));
    assert(texts(r@) =~= prop_fields(v@));
    r
}

/// The signal of a state field, created from its default value.
pub open spec fn state_init(sf: StateField) -> Seq<char> {
    "let "@ + sf.name@ + " = ctx.create_signal( "@ + sf.default@ + " );"@
}

/// The signals of the state fields, one per field.
pub open spec fn state_inits(v: Seq<StateField>) -> Seq<Seq<char>> {
    Seq::new(v.len(), |i: int| state_init(v[i]))
}

fn state_init_text(sf: &StateField) -> (out: String)
    ensures
        out@ == state_init(*sf),
{
    let mut out = String::from_str("let ");
    out.append(sf.name.as_str());
    out.append(" = ctx.create_signal( ");
    out.append(sf.default.as_str());
    out.append(" );");
    out
}

/// The signals of the state fields, one per field.
pub fn state_init_texts(v: &Vec<StateField>) -> (r: Vec<String>)
    ensures
        texts(r@) == state_inits(v@),
{
    let r = render_each(v, state_init_text, Ghost(|x: StateField| state_init(x)));
    assert(texts(r@) =~= state_inits(v@));
    r
}

/// The name of a state field.
pub open spec fn state_name(sf: StateField) -> Seq<char> {
    sf.name@
}

/// The names of the state fields.
pub open spec fn state_names(v: Seq<StateField>) -> Seq<Seq<char>> {
    Seq::new(v.len(), |i: int| state_name(v[i]))
}

fn state_name_text(sf: &StateField) -> (out: String)
    ensures
        out@ == state_name(*sf),
{
    let mut out = String::new();
    out.append(sf.name.as_str());
    out
}

/// The names of the state fields.
pub fn state_name_texts(v: &Vec<StateField>) -> (r: Vec<String>)
    ensures
        texts(r@) == state_names(v@),
{
    let r = render_each(v, state_name_text, Ghost(|x: StateField| state_name(x)));
    assert(texts(r@) =~= state_names(v@));
    r
}

/// The name of a global.
pub open spec fn global_name(g: GlobalField) -> Seq<char> {
    g.name@
}

/// The names of the globals.
pub open spec fn global_names(v: Seq<GlobalField>) -> Seq<Seq<char>> {
    Seq::new(v.len(), |i: int| global_name(v[i]))
}

fn global_name_text(g: &GlobalField) -> (out: String)
    ensures
        out@ == global_name(*g),
{
    let mut out = String::new();
    out.append(g.name.as_str());
    out
}

/// The names of the globals.
pub fn global_name_texts(v: &Vec<GlobalField>) -> (r: Vec<String>)
    ensures
        texts(r@) == global_names(v@),
{
    let r = render_each(v, global_name_text, Ghost(|x: GlobalField| global_name(x)));
    assert(texts(r@) =~= global_names(v@));
    r
}

/// A local borrowing a state field of `self`.
pub open spec fn state_ref(sf: StateField) -> Seq<char> {
    "let "@ + sf.name@ + " = &self."@ + sf.name@ + ";"@
}

/// The locals borrowing the state fields of `self`.
pub open spec fn state_refs(v: Seq<StateField>) -> Seq<Seq<char>> {
    Seq::new(v.len(), |i: int| state_ref(v[i]))
}

fn state_ref_text(sf: &StateField) -> (out: String)
    ensures
        out@ == state_ref(*sf),
{
    let mut out = String::from_str("let ");
    out.append(sf.name.as_str());
    out.append(" = &self.");
    out.append(sf.name.as_str());
    out.append(";");
    out
}

/// The locals borrowing the state fields of `self`.
pub fn state_ref_texts(v: &Vec<StateField>) -> (r: Vec<String>)
    ensures
        texts(r@) == state_refs(v@),
{
    let r = render_each(v, state_ref_text, Ghost(|x: StateField| state_ref(x)));
    assert(texts(r@) =~= state_refs(v@));
    r
}

/// A local holding a clone of a state field of `self`.
pub open spec fn state_clone(sf: StateField) -> Seq<char> {
    "let "@ + sf.name@ + " = self."@ + sf.name@ + ".clone();"@
}

/// The locals holding clones of the state fields of `self`.
pub open spec fn state_clones(v: Seq<StateField>) -> Seq<Seq<char>> {
    Seq::new(v.len(), |i: int| state_clone(v[i]))
}

fn state_clone_text(sf: &StateField) -> (out: String)
    ensures
        out@ == state_clone(*sf),
{
    let mut out = String::from_str("let ");
    out.append(sf.name.as_str());
    out.append(" = self.");
    out.append(sf.name.as_str());
    out.append(".clone();");
    out
}

/// The locals holding clones of the state fields of `self`.
pub fn state_clone_texts(v: &Vec<StateField>) -> (r: Vec<String>)
    ensures
        texts(r@) == state_clones(v@),
{
    let r = render_each(v, state_clone_text, Ghost(|x: StateField| state_clone(x)));
    assert(texts(r@) =~= state_clones(v@));
    r
}

/// A local holding a clone of a global of `self`.
pub open spec fn global_clone(g: GlobalField) -> Seq<char> {
    "let "@ + g.name@ + " = self."@ + g.name@ + ".clone();"@
}

/// The locals holding clones of the globals of `self`.
pub open spec fn global_clones(v: Seq<GlobalField>) -> Seq<Seq<char>> {
    Seq::new(v.len(), |i: int| global_clone(v[i]))
}

fn global_clone_text(g: &GlobalField) -> (out: String)
    ensures
        out@ == global_clone(*g),
{
    let mut out = String::from_str("let ");
    out.append(g.name.as_str());
    out.append(" = self.");
    out.append(g.name.as_str());
    out.append(".clone();");
    out
}

/// The locals holding clones of the globals of `self`.
pub fn global_clone_texts(v: &Vec<GlobalField>) -> (r: Vec<String>)
    ensures
        texts(r@) == global_clones(v@),
{
    let r = render_each(v, global_clone_text, Ghost(|x: GlobalField| global_clone(x)));
    assert(texts(r@) =~= global_clones(v@));
    r
}

/// An action as a method: its signature and its body.
pub open spec fn action_method(a: Action) -> Seq<char> {
    a.sig@ + " "@ + a.block@
}

/// The actions as methods.
pub open spec fn action_methods(v: Seq<Action>) -> Seq<Seq<char>> {
    Seq::new(v.len(), |i: int| action_method(v[i]))
}

fn action_method_text(a: &Action) -> (out: String)
    ensures
        out@ == action_method(*a),
{
    let mut out = String::new();
    out.append(a.sig.as_str());
    out.append(" ");
    out.append(a.block.as_str());
    out
}

/// The actions as methods.
pub fn action_method_texts(v: &Vec<Action>) -> (r: Vec<String>)
    ensures
        texts(r@) == action_methods(v@),
{
    let r = render_each(v, action_method_text, Ghost(|x: Action| action_method(x)));
    assert(texts(r@) =~= action_methods(v@));
    r
}

/// The source text of a statement.
pub open spec fn stmt_code(t: Stmt) -> Seq<char> {
    t.code@
}

/// The source texts of the statements.
pub open spec fn stmt_codes(v: Seq<Stmt>) -> Seq<Seq<char>> {
    Seq::new(v.len(), |i: int| stmt_code(v[i]))
}

fn stmt_code_text(t: &Stmt) -> (out: String)
    ensures
        out@ == stmt_code(*t),
{
    let mut out = String::new();
    out.append(t.code.as_str());
    out
}

/// The source texts of the statements.
pub fn stmt_code_texts(v: &Vec<Stmt>) -> (r: Vec<String>)
    ensures
        texts(r@) == stmt_codes(v@),
{
    let r = render_each(v, stmt_code_text, Ghost(|x: Stmt| stmt_code(x)));
    assert(texts(r@) =~= stmt_codes(v@));
    r
}

/// A state field of a GPUI view: a signal of the field's type.
pub open spec fn gpui_state_field(sf: StateField) -> Seq<char> {
    sf.name@ + " : quoin::GpuiSignal< "@ + sf.ty@ + " >"@
}

/// The state fields of a GPUI view.
pub open spec fn gpui_state_fields(v: Seq<StateField>) -> Seq<Seq<char>> {
    Seq::new(v.len(), |i: int| gpui_state_field(v[i]))
}

fn gpui_state_field_text(sf: &StateField) -> (out: String)
    ensures
        out@ == gpui_state_field(*sf),
{
    let mut out = String::new();
    out.append(sf.name.as_str());
    out.append(" : quoin::GpuiSignal< ");
    out.append(sf.ty.as_str());
    out.append(" >");
    out
}

/// The state fields of a GPUI view.
pub fn gpui_state_field_texts(v: &Vec<StateField>) -> (r: Vec<String>)
    ensures
        texts(r@) == gpui_state_fields(v@),
{
    let r = render_each(v, gpui_state_field_text, Ghost(|x: StateField| gpui_state_field(x)));
    assert(texts(r@) =~= gpui_state_fields(v@));
    r
}

/// A global of a GPUI view: an optional signal of the global's type.
pub open spec fn gpui_global_field(g: GlobalField) -> Seq<char> {
    g.name@ + " : Option<quoin::GpuiSignal< "@ + g.ty@ + " >>"@
}

/// The globals of a GPUI view.
pub open spec fn gpui_global_fields(v: Seq<GlobalField>) -> Seq<Seq<char>> {
    Seq::new(v.len(), |i: int| gpui_global_field(v[i]))
}

fn gpui_global_field_text(g: &GlobalField) -> (out: String)
    ensures
        out@ == gpui_global_field(*g),
{
    let mut out = String::new();
    out.append(g.name.as_str());
    out.append(" : Option<quoin::GpuiSignal< ");
    out.append(g.ty.as_str());
    out.append(" >>");
    out
}

/// The globals of a GPUI view.
pub fn gpui_global_field_texts(v: &Vec<GlobalField>) -> (r: Vec<String>)
    ensures
        texts(r@) == gpui_global_fields(v@),
{
    let r = render_each(v, gpui_global_field_text, Ghost(|x: GlobalField| gpui_global_field(x)));
    assert(texts(r@) =~= gpui_global_fields(v@));
    r
}

/// The lookup of a global in a GPUI view.
pub open spec fn gpui_global_init(g: GlobalField) -> Seq<char> {
    "let "@ + g.name@ + " : Option<quoin::GpuiSignal< "@ + g.ty@ + " >> = ctx.use_global::< "@ + g.ty@ + " >();"@
}

/// The lookups of the globals in a GPUI view.
pub open spec fn gpui_global_inits(v: Seq<GlobalField>) -> Seq<Seq<char>> {
    Seq::new(v.len(), |i: int| gpui_global_init(v[i]))
}

fn gpui_global_init_text(g: &GlobalField) -> (out: String)
    ensures
        out@ == gpui_global_init(*g),
{
    let mut out = String::from_str("let ");
    out.append(g.name.as_str());
    out.append(" : Option<quoin::GpuiSignal< ");
    out.append(g.ty.as_str());
    out.append(" >> = ctx.use_global::< ");
    out.append(g.ty.as_str());
    out.append(" >();");
    out
}

/// The lookups of the globals in a GPUI view.
pub fn gpui_global_init_texts(v: &Vec<GlobalField>) -> (r: Vec<String>)
    ensures
        texts(r@) == gpui_global_inits(v@),
{
    let r = render_each(v, gpui_global_init_text, Ghost(|x: GlobalField| gpui_global_init(x)));
    assert(texts(r@) =~= gpui_global_inits(v@));
    r
}

/// A state field of a plain GPUI view: a signal of the field's type.
pub open spec fn plain_state_field(sf: StateField) -> Seq<char> {
    sf.name@ + " : quoin_gpui::GpuiSignal< "@ + sf.ty@ + " >"@
}

/// The state fields of a plain GPUI view.
pub open spec fn plain_state_fields(v: Seq<StateField>) -> Seq<Seq<char>> {
    Seq::new(v.len(), |i: int| plain_state_field(v[i]))
}

fn plain_state_field_text(sf: &StateField) -> (out: String)
    ensures
        out@ == plain_state_field(*sf),
{
    let mut out = String::new();
    out.append(sf.name.as_str());
    out.append(" : quoin_gpui::GpuiSignal< ");
    out.append(sf.ty.as_str());
    out.append(" >");
    out
}

/// The state fields of a plain GPUI view.
pub fn plain_state_field_texts(v: &Vec<StateField>) -> (r: Vec<String>)
    ensures
        texts(r@) == plain_state_fields(v@),
{
    let r = render_each(v, plain_state_field_text, Ghost(|x: StateField| plain_state_field(x)));
    assert(texts(r@) =~= plain_state_fields(v@));
    r
}

/// The lookup of a global in a Leptos component.
pub open spec fn leptos_global_init(g: GlobalField) -> Seq<char> {
    "let "@ + g.name@ + " : Option<quoin::LeptosSignal< "@ + g.ty@ + " >> = ctx.use_global::< "@ + g.ty@ + " >();"@
}

/// The lookups of the globals in a Leptos component.
pub open spec fn leptos_global_inits(v: Seq<GlobalField>) -> Seq<Seq<char>> {
    Seq::new(v.len(), |i: int| leptos_global_init(v[i]))
}

fn leptos_global_init_text(g: &GlobalField) -> (out: String)
    ensures
        out@ == leptos_global_init(*g),
{
    let mut out = String::from_str("let ");
    out.append(g.name.as_str());
    out.append(" : Option<quoin::LeptosSignal< ");
    out.append(g.ty.as_str());
    out.append(" >> = ctx.use_global::< ");
    out.append(g.ty.as_str());
    out.append(" >();");
    out
}

/// The lookups of the globals in a Leptos component.
pub fn leptos_global_init_texts(v: &Vec<GlobalField>) -> (r: Vec<String>)
    ensures
        texts(r@) == leptos_global_inits(v@),
{
    let r = render_each(v, leptos_global_init_text, Ghost(|x: GlobalField| leptos_global_init(x)));
    assert(texts(r@) =~= leptos_global_inits(v@));
    r
}

/// The lookup of a global in a Dioxus component.
pub open spec fn dioxus_global_init(g: GlobalField) -> Seq<char> {
    "let "@ + g.name@ + " : Option<quoin::DioxusSignal< "@ + g.ty@ + " >> = ctx.use_global::< "@ + g.ty@ + " >();"@
}

/// The lookups of the globals in a Dioxus component.
pub open spec fn dioxus_global_inits(v: Seq<GlobalField>) -> Seq<Seq<char>> {
    Seq::new(v.len(), |i: int| dioxus_global_init(v[i]))
}

fn dioxus_global_init_text(g: &GlobalField) -> (out: String)
    ensures
        out@ == dioxus_global_init(*g),
{
    let mut out = String::from_str("let ");
    out.append(g.name.as_str());
    out.append(" : Option<quoin::DioxusSignal< ");
    out.append(g.ty.as_str());
    out.append(" >> = ctx.use_global::< ");
    out.append(g.ty.as_str());
    out.append(" >();");
    out
}

/// The lookups of the globals in a Dioxus component.
pub fn dioxus_global_init_texts(v: &Vec<GlobalField>) -> (r: Vec<String>)
    ensures
        texts(r@) == dioxus_global_inits(v@),
{
    let r = render_each(v, dioxus_global_init_text, Ghost(|x: GlobalField| dioxus_global_init(x)));
    assert(texts(r@) =~= dioxus_global_inits(v@));
    r
}

/// The signal of a state field in a Dioxus component, created once from its default value.
pub open spec fn dioxus_state_init(sf: StateField) -> Seq<char> {
    "let "@ + sf.name@ + " = dioxus::prelude::use_hook(|| ctx.create_signal( "@ + sf.default@ + " ));"@
}

/// The signals of the state fields in a Dioxus component.
pub open spec fn dioxus_state_inits(v: Seq<StateField>) -> Seq<Seq<char>> {
    Seq::new(v.len(), |i: int| dioxus_state_init(v[i]))
}

fn dioxus_state_init_text(sf: &StateField) -> (out: String)
    ensures
        out@ == dioxus_state_init(*sf),
{
    let mut out = String::from_str("let ");
    out.append(sf.name.as_str());
    out.append(" = dioxus::prelude::use_hook(|| ctx.create_signal( ");
    out.append(sf.default.as_str());
    out.append(" ));");
    out
}

/// The signals of the state fields in a Dioxus component.
pub fn dioxus_state_init_texts(v: &Vec<StateField>) -> (r: Vec<String>)
    ensures
        texts(r@) == dioxus_state_inits(v@),
{
    let r = render_each(v, dioxus_state_init_text, Ghost(|x: StateField| dioxus_state_init(x)));
    assert(texts(r@) =~= dioxus_state_inits(v@));
    r
}

} // verus!
