//! Leptos `view!` markup with the `leptos_shadcn_ui` component library:
//! each component that the library provides is bound to a fresh local
//! alias before the `view!` and used under that alias.

use vstd::prelude::*;
use crate::ast::{Element, Expr};
use crate::emit::common::{arg_string, arg_true, find_arg_bool, find_arg_expr, find_arg_string, first_arg};
use crate::text::{string_literal, string_literal_of};
use super::form::{arg_opt, checked_change, deref_opt, find_checked_change, slider_change};
use super::tier1::{class_props, class_with, class_with_exec, push_class_props};
use super::{ExtractIds, Out, event_handler, id_name, make_id_name, next_extract_id, next_id, produced, wrap_event_handler};

verus! {

/// Binding the library component `path` to the alias `prefix` followed by
/// the id `n`: yields the alias, its binding and the next id.
pub open spec fn import(prefix: Seq<char>, path: Seq<char>, n: usize) -> Out {
    Out {
        code: id_name(prefix, n),
        binds: "let "@ + id_name(prefix, n) + " = "@ + path + "; "@,
        next: next_id(n),
    }
}

/// Binds the library component `path` to a fresh alias and returns the
/// alias.
pub fn emit_import(prefix: &str, path: &str, bindings: &mut String, ids: &mut ExtractIds) -> (alias: String)
    ensures
        produced(import(prefix@, path@, old(ids).next), alias@, old(bindings)@, final(bindings)@, final(ids).next),
{
    let id = next_extract_id(ids);
    let alias = make_id_name(prefix, id);
    bindings.append("let ");
    bindings.append(alias.as_str());
    bindings.append(" = ");
    bindings.append(path);
    bindings.append("; ");
    proof {
        let i = import(prefix@, path@, old(ids).next);
        assert(bindings@ =~= old(bindings)@ + i.binds);
    }
    alias
}

/// The user's string-literal `class`, or nothing.
pub open spec fn user_class(el: Element) -> Seq<char> {
    match arg_string(el.args@, "class"@) {
        Some(c) => c@,
        None => Seq::empty(),
    }
}

pub(crate) fn user_class_exec(el: &Element) -> (r: String)
    ensures
        r@ == user_class(*el),
{
    match find_arg_string(el, "class") {
        Some(c) => c,
        None => String::new(),
    }
}

/// `class={"<user class>"} ` for a non-empty user class.
pub open spec fn braced_class(el: Element) -> Seq<char> {
    if user_class(el).len() == 0 {
        Seq::empty()
    } else {
        "class={ "@ + string_literal(user_class(el)) + " } "@
    }
}

pub(crate) fn push_braced_class(out: &mut String, el: &Element)
    ensures
        final(out)@ == old(out)@ + braced_class(*el),
{
    let ghost start = out@;
    let user = user_class_exec(el);
    if !user.as_str().is_empty() {
        out.append("class={ ");
        out.append(string_literal_of(user.as_str()).as_str());
        out.append(" } ");
    }
    assert(out@ =~= start + braced_class(*el));
}

/// `name={ <expr> } ` for a present argument.
pub open spec fn braced(name: Seq<char>, e: Option<Expr>) -> Seq<char> {
    match e {
        Some(v) => name + "={ "@ + v.code@ + " } "@,
        None => Seq::empty(),
    }
}

pub(crate) fn push_braced(out: &mut String, name: &str, e: Option<&Expr>)
    ensures
        final(out)@ == old(out)@ + braced(name@, deref_opt(e)),
{
    let ghost start = out@;
    match e {
        Some(v) => {
            out.append(name);
            out.append("={ ");
            out.append(v.code.as_str());
            out.append(" } ");
        },
        None => {},
    }
    assert(out@ =~= start + braced(name@, deref_opt(e)));
}

/// `name={ <handler> } ` for a present handler.
pub open spec fn handler_prop(name: Seq<char>, e: Option<Expr>) -> Seq<char> {
    match e {
        Some(h) => name + "={ "@ + event_handler(h) + " } "@,
        None => Seq::empty(),
    }
}

pub(crate) fn push_handler_prop(out: &mut String, name: &str, e: Option<&Expr>)
    ensures
        final(out)@ == old(out)@ + handler_prop(name@, deref_opt(e)),
{
    let ghost start = out@;
    match e {
        Some(h) => {
            out.append(name);
            out.append("={ ");
            out.append(wrap_event_handler(h).as_str());
            out.append(" } ");
        },
        None => {},
    }
    assert(out@ =~= start + handler_prop(name@, deref_opt(e)));
}

/// `true` or `false`.
pub open spec fn bool_text(b: bool) -> Seq<char> {
    if b {
        "true"@
    } else {
        "false"@
    }
}

pub(crate) fn bool_text_exec(b: bool) -> (r: &'static str)
    ensures
        r@ == bool_text(b),
{
    if b {
        "true"
    } else {
        "false"
    }
}

/// A separator: the `Separator` component with the `class` arguments.
pub open spec fn lp_sh_separator(el: Element, n: usize) -> Out {
    let i = import("Separator_"@, "leptos_shadcn_ui::Separator"@, n);
    Out { code: "< "@ + i.code + " "@ + class_props(el.args@) + "/>"@, binds: i.binds, next: i.next }
}

/// Emits a separator.
pub fn emit_sh_separator(el: &Element, bindings: &mut String, ids: &mut ExtractIds) -> (out: String)
    ensures
        produced(lp_sh_separator(*el, old(ids).next), out@, old(bindings)@, final(bindings)@, final(ids).next),
{
    let tag = emit_import("Separator_", "leptos_shadcn_ui::Separator", bindings, ids);
    let mut out = String::from_str("< ");
    out.append(tag.as_str());
    out.append(" ");
    push_class_props(&mut out, el);
    out.append("/>");
    out
}

/// A skeleton: the `Skeleton` component with the class `base` and the
/// user's class.
pub open spec fn lp_sh_skeleton(el: Element, base: Seq<char>, n: usize) -> Out {
    let i = import("Skeleton_"@, "leptos_shadcn_ui::Skeleton"@, n);
    Out { code: "< "@ + i.code + " class= "@ + string_literal(class_with(el, base)) + " />"@, binds: i.binds, next: i.next }
}

/// Emits a skeleton.
pub fn emit_sh_skeleton(el: &Element, base: &str, bindings: &mut String, ids: &mut ExtractIds) -> (out: String)
    ensures
        produced(lp_sh_skeleton(*el, base@, old(ids).next), out@, old(bindings)@, final(bindings)@, final(ids).next),
{
    let tag = emit_import("Skeleton_", "leptos_shadcn_ui::Skeleton", bindings, ids);
    let full = class_with_exec(el, base);
    let mut out = String::from_str("< ");
    out.append(tag.as_str());
    out.append(" class= ");
    out.append(string_literal_of(full.as_str()).as_str());
    out.append(" />");
    out
}

/// The value of a progress bar as a fraction of `max` (of 100 without one).
pub open spec fn progress_fraction(el: Element) -> Seq<char> {
    match first_arg(el.args@, "value"@) {
        Some(v) => "value={leptos::prelude::Signal::derive(move || "@ + match first_arg(el.args@, "max"@) {
            Some(m) => "( "@ + v.code@ + " as f64) / ( "@ + m.code@ + " as f64)"@,
            None => "( "@ + v.code@ + " as f64) / 100.0"@,
        } + ")} "@,
        None => Seq::empty(),
    }
}

/// A progress bar: the `Progress` component with the value as a fraction.
pub open spec fn lp_sh_progress(el: Element, n: usize) -> Out {
    let i = import("Progress_"@, "leptos_shadcn_ui::Progress"@, n);
    Out { code: "< "@ + i.code + " "@ + progress_fraction(el) + braced_class(el) + "/>"@, binds: i.binds, next: i.next }
}

/// Emits a progress bar.
pub fn emit_sh_progress(el: &Element, bindings: &mut String, ids: &mut ExtractIds) -> (out: String)
    ensures
        produced(lp_sh_progress(*el, old(ids).next), out@, old(bindings)@, final(bindings)@, final(ids).next),
{
    let tag = emit_import("Progress_", "leptos_shadcn_ui::Progress", bindings, ids);
    let mut out = String::from_str("< ");
    out.append(tag.as_str());
    out.append(" ");
    let ghost start = out@;
    match find_arg_expr(el, "value") {
        Some(v) => {
            out.append("value={leptos::prelude::Signal::derive(move || ");
            match find_arg_expr(el, "max") {
                Some(m) => {
                    out.append("( ");
                    out.append(v.code.as_str());
                    out.append(" as f64) / ( ");
                    out.append(m.code.as_str());
                    out.append(" as f64)");
                },
                None => {
                    out.append("( ");
                    out.append(v.code.as_str());
                    out.append(" as f64) / 100.0");
                },
            }
            out.append(")} ");
        },
        None => {},
    }
    assert(out@ =~= start + progress_fraction(*el));
    push_braced_class(&mut out, el);
    out.append("/>");
    out
}

/// A checkbox or switch: the library component `comp` (aliased under
/// `prefix`) with `checked`, the change handler and `disabled`.
pub open spec fn lp_sh_toggle(el: Element, prefix: Seq<char>, comp: Seq<char>, n: usize) -> Out {
    let i = import(prefix, comp, n);
    Out {
        code: "< "@ + i.code + " "@ + braced("checked"@, first_arg(el.args@, "checked"@)) + handler_prop(
            "on_checked_change"@,
            checked_change(el),
        ) + braced_class(el) + "disabled={ "@ + bool_text(arg_true(el.args@, "disabled"@)) + " } />"@,
        binds: i.binds,
        next: i.next,
    }
}

/// Emits a checkbox or switch.
pub fn emit_sh_toggle(el: &Element, prefix: &str, comp: &str, bindings: &mut String, ids: &mut ExtractIds) -> (out: String)
    ensures
        produced(lp_sh_toggle(*el, prefix@, comp@, old(ids).next), out@, old(bindings)@, final(bindings)@, final(ids).next),
{
    let tag = emit_import(prefix, comp, bindings, ids);
    let mut out = String::from_str("< ");
    out.append(tag.as_str());
    out.append(" ");
    push_braced(&mut out, "checked", arg_opt(el, "checked"));
    push_handler_prop(&mut out, "on_checked_change", find_checked_change(el));
    push_braced_class(&mut out, el);
    out.append("disabled={ ");
    out.append(bool_text_exec(find_arg_bool(el, "disabled")));
    out.append(" } />");
    out
}

/// `name= <expr> ` for a present argument.
pub open spec fn plain(name: Seq<char>, e: Option<Expr>) -> Seq<char> {
    match e {
        Some(v) => name + "= "@ + v.code@ + " "@,
        None => Seq::empty(),
    }
}

pub(crate) fn push_plain(out: &mut String, name: &str, e: Option<&Expr>)
    ensures
        final(out)@ == old(out)@ + plain(name@, deref_opt(e)),
{
    let ghost start = out@;
    match e {
        Some(v) => {
            out.append(name);
            out.append("= ");
            out.append(v.code.as_str());
            out.append(" ");
        },
        None => {},
    }
    assert(out@ =~= start + plain(name@, deref_opt(e)));
}

/// A radio button: the `RadioGroupItem` component.
pub open spec fn lp_sh_radio(el: Element, n: usize) -> Out {
    let i = import("RadioGroupItem_"@, "leptos_shadcn_ui::RadioGroupItem"@, n);
    let class = if user_class(el).len() == 0 {
        Seq::empty()
    } else {
        "class= "@ + string_literal(user_class(el)) + " "@
    };
    let handler = match first_arg(el.args@, "on_change"@) {
        Some(h) => "on_checked_change= "@ + event_handler(h) + " "@,
        None => Seq::empty(),
    };
    Out {
        code: "< "@ + i.code + " "@ + plain("value"@, first_arg(el.args@, "value"@)) + plain(
            "checked"@,
            first_arg(el.args@, "checked"@),
        ) + handler + class + "disabled= "@ + bool_text(arg_true(el.args@, "disabled"@)) + " />"@,
        binds: i.binds,
        next: i.next,
    }
}

/// Emits a radio button.
pub fn emit_sh_radio(el: &Element, bindings: &mut String, ids: &mut ExtractIds) -> (out: String)
    ensures
        produced(lp_sh_radio(*el, old(ids).next), out@, old(bindings)@, final(bindings)@, final(ids).next),
{
    let tag = emit_import("RadioGroupItem_", "leptos_shadcn_ui::RadioGroupItem", bindings, ids);
    let mut out = String::from_str("< ");
    out.append(tag.as_str());
    out.append(" ");
    push_plain(&mut out, "value", arg_opt(el, "value"));
    push_plain(&mut out, "checked", arg_opt(el, "checked"));
    let ghost s1 = out@;
    match find_arg_expr(el, "on_change") {
        Some(h) => {
            out.append("on_checked_change= ");
            out.append(wrap_event_handler(h).as_str());
            out.append(" ");
        },
        None => {},
    }
    let ghost s2 = out@;
    let user = user_class_exec(el);
    if !user.as_str().is_empty() {
        out.append("class= ");
        out.append(string_literal_of(user.as_str()).as_str());
        out.append(" ");
    }
    let ghost s3 = out@;
    out.append("disabled= ");
    out.append(bool_text_exec(find_arg_bool(el, "disabled")));
    out.append(" />");
    proof {
        let handler = match first_arg(el.args@, "on_change"@) {
            Some(h) => "on_checked_change= "@ + event_handler(h) + " "@,
            None => Seq::<char>::empty(),
        };
        assert(s2 =~= s1 + handler);
        let class = if user_class(*el).len() == 0 {
            Seq::<char>::empty()
        } else {
            "class= "@ + string_literal(user_class(*el)) + " "@
        };
        assert(s3 =~= s2 + class);
        assert(out@ =~= lp_sh_radio(*el, old(ids).next).code);
    }
    out
}

/// A slider: the `Slider` component.
pub open spec fn lp_sh_slider(el: Element, n: usize) -> Out {
    let i = import("Slider_"@, "leptos_shadcn_ui::Slider"@, n);
    Out {
        code: "< "@ + i.code + " "@ + braced("value"@, first_arg(el.args@, "value"@)) + braced(
            "min"@,
            first_arg(el.args@, "min"@),
        ) + braced("max"@, first_arg(el.args@, "max"@)) + braced("step"@, first_arg(el.args@, "step"@))
            + handler_prop("on_value_change"@, slider_change(el)) + braced_class(el) + "disabled={ "@ + bool_text(
            arg_true(el.args@, "disabled"@),
        ) + " } />"@,
        binds: i.binds,
        next: i.next,
    }
}

/// Emits a slider.
pub fn emit_sh_slider(el: &Element, bindings: &mut String, ids: &mut ExtractIds) -> (out: String)
    ensures
        produced(lp_sh_slider(*el, old(ids).next), out@, old(bindings)@, final(bindings)@, final(ids).next),
{
    let tag = emit_import("Slider_", "leptos_shadcn_ui::Slider", bindings, ids);
    let mut out = String::from_str("< ");
    out.append(tag.as_str());
    out.append(" ");
    push_braced(&mut out, "value", arg_opt(el, "value"));
    push_braced(&mut out, "min", arg_opt(el, "min"));
    push_braced(&mut out, "max", arg_opt(el, "max"));
    push_braced(&mut out, "step", arg_opt(el, "step"));
    let on_change = match find_arg_expr(el, "on_change") {
        Some(h) => Some(h),
        None => find_arg_expr(el, "on_input"),
    };
    push_handler_prop(&mut out, "on_value_change", on_change);
    push_braced_class(&mut out, el);
    out.append("disabled={ ");
    out.append(bool_text_exec(find_arg_bool(el, "disabled")));
    out.append(" } />");
    out
}

} // verus!
