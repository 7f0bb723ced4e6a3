//! Checkboxes, switches, radio buttons and sliders in Leptos `view!`
//! markup.

use vstd::prelude::*;
use crate::ast::{Element, Expr};
use crate::emit::common::{arg_string, arg_true, find_arg_bool, find_arg_expr, find_arg_string, first_arg};
use crate::text::{string_literal, string_literal_of};
use super::{lp_all_ok, ExtractIds, Out, emit_nodes, event_handler, id_name, lp_nodes, make_id_name, next_extract_id, next_id, produced, wrap_event_handler};
use super::tier1::{class_with, class_with_exec};

verus! {

fn opt(e: Option<&Expr>) -> (r: Option<&Expr>)
    ensures
        r == e,
{
    e
}

/// The `Option` of an expression reference, as an `Option` of the
/// expression.
pub open spec fn deref_opt(e: Option<&Expr>) -> Option<Expr> {
    match e {
        Some(v) => Some(*v),
        None => None,
    }
}

/// `prop:<name>={Signal::derive(move || <expr>)} ` for a present argument.
pub open spec fn derived_prop(name: Seq<char>, e: Option<Expr>) -> Seq<char> {
    match e {
        Some(v) => "prop:"@ + name + "={leptos::prelude::Signal::derive(move || "@ + v.code@ + ")} "@,
        None => Seq::empty(),
    }
}

fn push_derived_prop(out: &mut String, name: &str, e: Option<&Expr>)
    ensures
        final(out)@ == old(out)@ + derived_prop(name@, deref_opt(e)),
{
    match e {
        Some(v) => {
            out.append("prop:");
            out.append(name);
            out.append("={leptos::prelude::Signal::derive(move || ");
            out.append(v.code.as_str());
            out.append(")} ");
        },
        None => {
            assert(final(out)@ =~= old(out)@ + Seq::<char>::empty());
        },
    }
}

/// An `on:input` handler bound under `prefix` and the id `n`: it reads the
/// event target with `reader` and passes the result to the handler `h`.
/// Yields the `on:input= ` prop, the binding, and the next id.
pub open spec fn input_bind(h: Option<Expr>, prefix: Seq<char>, reader: Seq<char>, n: usize) -> Out {
    match h {
        Some(handler) => {
            let name = id_name(prefix, n);
            Out {
                code: "on:input= "@ + name + " "@,
                binds: "let "@ + name + " = { let __handler = "@ + event_handler(handler)
                    + "; move |ev: leptos::ev::Event| { "@ + reader + " } }; "@,
                next: next_id(n),
            }
        },
        None => Out { code: Seq::empty(), binds: Seq::empty(), next: n },
    }
}

/// The reader of a checked state.
pub open spec fn checked_reader() -> Seq<char> {
    "let checked = leptos::prelude::event_target_checked(&ev); __handler(checked);"@
}

/// The reader of a value.
pub open spec fn value_reader() -> Seq<char> {
    "let val = leptos::prelude::event_target_value(&ev); __handler(val);"@
}

fn push_input_bind(out: &mut String, bindings: &mut String, ids: &mut ExtractIds, h: Option<&Expr>, prefix: &str, reader: &str)
    ensures
        produced(input_bind(deref_opt(h), prefix@, reader@, old(ids).next), final(out)@.subrange(old(out)@.len() as int, final(out)@.len() as int), old(bindings)@, final(bindings)@, final(ids).next),
        final(out)@ == old(out)@ + input_bind(deref_opt(h), prefix@, reader@, old(ids).next).code,
{
    match h {
        Some(handler) => {
            let w = wrap_event_handler(handler);
            let id = next_extract_id(ids);
            let name = make_id_name(prefix, id);
            bindings.append("let ");
            bindings.append(name.as_str());
            bindings.append(" = { let __handler = ");
            bindings.append(w.as_str());
            bindings.append("; move |ev: leptos::ev::Event| { ");
            bindings.append(reader);
            bindings.append(" } }; ");
            out.append("on:input= ");
            out.append(name.as_str());
            out.append(" ");
            proof {
                let o = input_bind(deref_opt(h), prefix@, reader@, old(ids).next);
                assert(bindings@ =~= old(bindings)@ + o.binds);
                assert(out@ =~= old(out)@ + o.code);
                assert(out@.subrange(old(out)@.len() as int, out@.len() as int) =~= o.code);
            }
        },
        None => {
            assert(bindings@ =~= old(bindings)@ + Seq::<char>::empty());
            assert(out@ =~= old(out)@ + Seq::<char>::empty());
            assert(out@.subrange(old(out)@.len() as int, out@.len() as int) =~= Seq::<char>::empty());
        },
    }
}

/// `disabled=true ` when the element is disabled.
pub open spec fn disabled_prop(el: Element) -> Seq<char> {
    if arg_true(el.args@, "disabled"@) {
        "disabled=true "@
    } else {
        Seq::empty()
    }
}

fn push_disabled(out: &mut String, el: &Element)
    ensures
        final(out)@ == old(out)@ + disabled_prop(*el),
{
    if find_arg_bool(el, "disabled") {
        out.append("disabled=true ");
    } else {
        assert(final(out)@ =~= old(out)@ + Seq::<char>::empty());
    }
}

/// The change handler of a checkbox or switch: `on_checked_change`, else
/// `on_change`.
pub open spec fn checked_change(el: Element) -> Option<Expr> {
    match first_arg(el.args@, "on_checked_change"@) {
        Some(h) => Some(h),
        None => first_arg(el.args@, "on_change"@),
    }
}

pub(crate) fn find_checked_change(el: &Element) -> (r: Option<&Expr>)
    ensures
        deref_opt(r) == checked_change(*el),
{
    match find_arg_expr(el, "on_checked_change") {
        Some(h) => Some(h),
        None => find_arg_expr(el, "on_change"),
    }
}

pub(crate) fn arg_opt<'a>(el: &'a Element, key: &str) -> (r: Option<&'a Expr>)
    ensures
        deref_opt(r) == first_arg(el.args@, key@),
{
    find_arg_expr(el, key)
}

/// A checkbox: an `input` whose checked state is derived from `checked`
/// and whose changes go to the change handler through a binding.
pub open spec fn lp_checkbox(el: Element, n: usize) -> Out {
    let full = class_with(
        el,
        "h-4 w-4 rounded border border-input ring-offset-background accent-primary-500 cursor-pointer"@,
    );
    let b = input_bind(checked_change(el), "__quoin_cb_bind_"@, checked_reader(), n);
    Out {
        code: "< input class= "@ + string_literal(full) + " r#type=\"checkbox\"# "@ + derived_prop(
            "checked"@,
            first_arg(el.args@, "checked"@),
        ) + b.code + disabled_prop(el) + "/>"@,
        binds: b.binds,
        next: b.next,
    }
}

/// Emits a checkbox.
pub fn emit_checkbox(el: &Element, bindings: &mut String, ids: &mut ExtractIds) -> (out: String)
    ensures
        produced(lp_checkbox(*el, old(ids).next), out@, old(bindings)@, final(bindings)@, final(ids).next),
{
    let full = class_with_exec(
        el,
        "h-4 w-4 rounded border border-input ring-offset-background accent-primary-500 cursor-pointer",
    );
    let lit = string_literal_of(full.as_str());
    let mut out = String::from_str("< input class= ");
    out.append(lit.as_str());
    out.append(" r#type=\"checkbox\"# ");
    push_derived_prop(&mut out, "checked", arg_opt(el, "checked"));
    push_input_bind(&mut out, bindings, ids, find_checked_change(el), "__quoin_cb_bind_", "let checked = leptos::prelude::event_target_checked(&ev); __handler(checked);");
    push_disabled(&mut out, el);
    out.append("/>");
    out
}

/// The reactive class of a switch's track or thumb: `on` when the
/// `checked` expression holds, `off` otherwise.
pub open spec fn switch_class(name: Seq<char>, checked: Seq<char>, on: Seq<char>, off: Seq<char>) -> Seq<char> {
    "let "@ + name + " = leptos::prelude::Signal::derive(move || { if "@ + checked
        + ".map(|v| v.clone()).unwrap_or(false) { "@ + on + " } else { "@ + off + " } }); "@
}

fn push_switch_class(out: &mut String, name: &str, checked: &str, on: &str, off: &str)
    ensures
        final(out)@ == old(out)@ + switch_class(name@, checked@, on@, off@),
{
    out.append("let ");
    out.append(name);
    out.append(" = leptos::prelude::Signal::derive(move || { if ");
    out.append(checked);
    out.append(".map(|v| v.clone()).unwrap_or(false) { ");
    out.append(on);
    out.append(" } else { ");
    out.append(off);
    out.append(" } }); ");
}

/// The extra classes of a disabled switch.
pub open spec fn switch_disabled(el: Element) -> Seq<char> {
    if arg_true(el.args@, "disabled"@) {
        " opacity-50 pointer-events-none"@
    } else {
        ""@
    }
}

/// A toggle switch: a button holding a hidden checkbox, and a track and a
/// thumb whose classes follow `checked` through two derived signals.
pub open spec fn lp_switch(el: Element, n: usize) -> Out {
    let b = input_bind(checked_change(el), "__quoin_sw_bind_"@, checked_reader(), n);
    let track = id_name("__quoin_sw_track_"@, b.next);
    let thumb = id_name("__quoin_sw_thumb_"@, next_id(b.next));
    let checked = match first_arg(el.args@, "checked"@) {
        Some(c) => c.code@,
        None => Seq::empty(),
    };
    let dis = string_literal(switch_disabled(el));
    let thumb_cls = string_literal(
        "pointer-events-none block h-5 w-5 rounded-full bg-background shadow-lg ring-0 transition-transform"@,
    );
    let full = class_with(
        el,
        "relative inline-flex h-6 w-11 shrink-0 cursor-pointer items-center rounded-full border-2 border-transparent transition-colors"@,
    );
    Out {
        code: "<button type=\"button\" role=\"switch\" class= "@ + string_literal(full) + " disabled={ "@
            + (if arg_true(el.args@, "disabled"@) {
            "true"@
        } else {
            "false"@
        }) + " } on:click=move |_| {} > <input r#type=\"checkbox\"# "@ + derived_prop(
            "checked"@,
            first_arg(el.args@, "checked"@),
        ) + b.code + "class=\"sr-only peer\" /> <div class={ "@ + track + " } /> <div class={ "@
            + thumb + " } /> </button>"@,
        binds: b.binds + switch_class(
            track,
            checked,
            "concat!(\"bg-primary\", "@ + dis + ")"@,
            "concat!(\"bg-input\", "@ + dis + ")"@,
        ) + switch_class(
            thumb,
            checked,
            "concat!("@ + thumb_cls + ", \" \", \"translate-x-5\")"@,
            "concat!("@ + thumb_cls + ", \" \", \"translate-x-0\")"@,
        ),
        next: next_id(next_id(b.next)),
    }
}

/// Emits a toggle switch.
pub fn emit_switch(el: &Element, bindings: &mut String, ids: &mut ExtractIds) -> (out: String)
    ensures
        produced(lp_switch(*el, old(ids).next), out@, old(bindings)@, final(bindings)@, final(ids).next),
{
    let disabled = find_arg_bool(el, "disabled");
    let checked_expr = arg_opt(el, "checked");
    let mut props = String::new();
    push_derived_prop(&mut props, "checked", checked_expr);
    let ghost b0 = bindings@;
    push_input_bind(&mut props, bindings, ids, find_checked_change(el), "__quoin_sw_bind_", "let checked = leptos::prelude::event_target_checked(&ev); __handler(checked);");
    let ghost b1 = bindings@;
    let track_id = next_extract_id(ids);
    let track = make_id_name("__quoin_sw_track_", track_id);
    let thumb_id = next_extract_id(ids);
    let thumb = make_id_name("__quoin_sw_thumb_", thumb_id);
    let checked = match checked_expr {
        Some(c) => crate::text::copy_string(&c.code),
        None => String::new(),
    };
    let dis = if disabled {
        string_literal_of(" opacity-50 pointer-events-none")
    } else {
        string_literal_of("")
    };
    let thumb_cls = string_literal_of(
        "pointer-events-none block h-5 w-5 rounded-full bg-background shadow-lg ring-0 transition-transform",
    );
    let mut track_on = String::from_str("concat!(\"bg-primary\", ");
    track_on.append(dis.as_str());
    track_on.append(")");
    let mut track_off = String::from_str("concat!(\"bg-input\", ");
    track_off.append(dis.as_str());
    track_off.append(")");
    let mut thumb_on = String::from_str("concat!(");
    thumb_on.append(thumb_cls.as_str());
    thumb_on.append(", \" \", \"translate-x-5\")");
    let mut thumb_off = String::from_str("concat!(");
    thumb_off.append(thumb_cls.as_str());
    thumb_off.append(", \" \", \"translate-x-0\")");
    push_switch_class(bindings, track.as_str(), checked.as_str(), track_on.as_str(), track_off.as_str());
    push_switch_class(bindings, thumb.as_str(), checked.as_str(), thumb_on.as_str(), thumb_off.as_str());
    let full = class_with_exec(
        el,
        "relative inline-flex h-6 w-11 shrink-0 cursor-pointer items-center rounded-full border-2 border-transparent transition-colors",
    );
    let full_lit = string_literal_of(full.as_str());
    let mut out = String::from_str("<button type=\"button\" role=\"switch\" class= ");
    out.append(full_lit.as_str());
    out.append(" disabled={ ");
    if disabled {
        out.append("true");
    } else {
        out.append("false");
    }
    out.append(" } on:click=move |_| {} > <input r#type=\"checkbox\"# ");
    out.append(props.as_str());
    out.append("class=\"sr-only peer\" /> <div class={ ");
    out.append(track.as_str());
    out.append(" } /> <div class={ ");
    out.append(thumb.as_str());
    out.append(" } /> </button>");
    proof {
        let o = lp_switch(*el, old(ids).next);
        assert(bindings@ =~= b0 + o.binds);
        assert(out@ =~= o.code);
    }
    out
}

/// A radio button.
pub open spec fn lp_radio(el: Element, n: usize) -> Out {
    let full = class_with(
        el,
        "h-4 w-4 rounded-full border border-input ring-offset-background accent-primary-500 cursor-pointer"@,
    );
    let b = input_bind(first_arg(el.args@, "on_change"@), "__quoin_radio_bind_"@, checked_reader(), n);
    Out {
        code: "< input class= "@ + string_literal(full) + " r#type=\"radio\"# "@ + match first_arg(
            el.args@,
            "name"@,
        ) {
            Some(v) => "name= "@ + v.code@ + " "@,
            None => Seq::empty(),
        } + match first_arg(el.args@, "value"@) {
            Some(v) => "value= "@ + v.code@ + " "@,
            None => Seq::empty(),
        } + derived_prop("checked"@, first_arg(el.args@, "checked"@)) + b.code + disabled_prop(el)
            + "/>"@,
        binds: b.binds,
        next: b.next,
    }
}

fn push_plain_prop(out: &mut String, prefix: &str, e: Option<&Expr>)
    ensures
        final(out)@ == old(out)@ + match deref_opt(e) {
            Some(v) => prefix@ + v.code@ + " "@,
            None => Seq::empty(),
        },
{
    match e {
        Some(v) => {
            out.append(prefix);
            out.append(v.code.as_str());
            out.append(" ");
        },
        None => {
            assert(final(out)@ =~= old(out)@ + Seq::<char>::empty());
        },
    }
}

/// Emits a radio button.
pub fn emit_radio(el: &Element, bindings: &mut String, ids: &mut ExtractIds) -> (out: String)
    ensures
        produced(lp_radio(*el, old(ids).next), out@, old(bindings)@, final(bindings)@, final(ids).next),
{
    let full = class_with_exec(
        el,
        "h-4 w-4 rounded-full border border-input ring-offset-background accent-primary-500 cursor-pointer",
    );
    let lit = string_literal_of(full.as_str());
    let mut out = String::from_str("< input class= ");
    out.append(lit.as_str());
    out.append(" r#type=\"radio\"# ");
    push_plain_prop(&mut out, "name= ", arg_opt(el, "name"));
    push_plain_prop(&mut out, "value= ", arg_opt(el, "value"));
    push_derived_prop(&mut out, "checked", arg_opt(el, "checked"));
    push_input_bind(&mut out, bindings, ids, arg_opt(el, "on_change"), "__quoin_radio_bind_", "let checked = leptos::prelude::event_target_checked(&ev); __handler(checked);");
    push_disabled(&mut out, el);
    out.append("/>");
    out
}

/// `<name>={ <expr> } ` for a present argument.
pub open spec fn braced_prop(name: Seq<char>, e: Option<Expr>) -> Seq<char> {
    match e {
        Some(v) => name + "={ "@ + v.code@ + " } "@,
        None => Seq::empty(),
    }
}

fn push_braced_prop(out: &mut String, name: &str, e: Option<&Expr>)
    ensures
        final(out)@ == old(out)@ + braced_prop(name@, deref_opt(e)),
{
    match e {
        Some(v) => {
            out.append(name);
            out.append("={ ");
            out.append(v.code.as_str());
            out.append(" } ");
        },
        None => {
            assert(final(out)@ =~= old(out)@ + Seq::<char>::empty());
        },
    }
}

/// The change handler of a slider: `on_change`, else `on_input`.
pub open spec fn slider_change(el: Element) -> Option<Expr> {
    match first_arg(el.args@, "on_change"@) {
        Some(h) => Some(h),
        None => first_arg(el.args@, "on_input"@),
    }
}

/// A slider: a range input whose value is derived from `value`.
pub open spec fn lp_slider(el: Element, n: usize) -> Out {
    let full = class_with(
        el,
        "w-full h-2 rounded-lg appearance-none cursor-pointer accent-primary-500 bg-transparent"@,
    );
    let b = input_bind(slider_change(el), "__quoin_slider_bind_"@, value_reader(), n);
    Out {
        code: "< input class= "@ + string_literal(full) + " r#type=\"range\"# "@ + derived_prop(
            "value"@,
            first_arg(el.args@, "value"@),
        ) + braced_prop("min"@, first_arg(el.args@, "min"@)) + braced_prop(
            "max"@,
            first_arg(el.args@, "max"@),
        ) + braced_prop("step"@, first_arg(el.args@, "step"@)) + b.code + disabled_prop(el)
            + "/>"@,
        binds: b.binds,
        next: b.next,
    }
}

/// Emits a slider.
pub fn emit_slider(el: &Element, bindings: &mut String, ids: &mut ExtractIds) -> (out: String)
    ensures
        produced(lp_slider(*el, old(ids).next), out@, old(bindings)@, final(bindings)@, final(ids).next),
{
    let full = class_with_exec(
        el,
        "w-full h-2 rounded-lg appearance-none cursor-pointer accent-primary-500 bg-transparent",
    );
    let lit = string_literal_of(full.as_str());
    let mut out = String::from_str("< input class= ");
    out.append(lit.as_str());
    out.append(" r#type=\"range\"# ");
    push_derived_prop(&mut out, "value", arg_opt(el, "value"));
    push_braced_prop(&mut out, "min", arg_opt(el, "min"));
    push_braced_prop(&mut out, "max", arg_opt(el, "max"));
    push_braced_prop(&mut out, "step", arg_opt(el, "step"));
    let on_change = match find_arg_expr(el, "on_change") {
        Some(h) => Some(h),
        None => find_arg_expr(el, "on_input"),
    };
    push_input_bind(&mut out, bindings, ids, on_change, "__quoin_slider_bind_", "let val = leptos::prelude::event_target_value(&ev); __handler(val);");
    push_disabled(&mut out, el);
    out.append("/>");
    out
}

/// A group of radio buttons: a column holding the child nodes.
pub open spec fn lp_radio_group(el: Element, n: usize, inside_for: bool) -> Out
    decreases el, 1int,
{
    let kids = lp_nodes(el.children@, n, inside_for, false);
    let cls = match arg_string(el.args@, "class"@) {
        Some(c) => if c@.len() == 0 {
            "flex flex-col gap-2"@
        } else {
            c@
        },
        None => "flex flex-col gap-2"@,
    };
    Out {
        code: "<div class= "@ + string_literal(cls) + "> "@ + kids.code + "</div>"@,
        binds: kids.binds,
        next: kids.next,
    }
}

/// Emits a group of radio buttons.
pub fn emit_radio_group(el: &Element, bindings: &mut String, inside_for: bool, ids: &mut ExtractIds) -> (out: String)
    requires
        lp_all_ok(el.children@, false),
    ensures
        produced(lp_radio_group(*el, old(ids).next, inside_for), out@, old(bindings)@, final(bindings)@, final(ids).next),
    decreases el, 1int,
{
    let kids = emit_nodes(&el.children, bindings, inside_for, ids, false);
    let user_class = match find_arg_string(el, "class") {
        Some(c) => c,
        None => String::new(),
    };
    let cls = if user_class.as_str().is_empty() {
        String::from_str("flex flex-col gap-2")
    } else {
        user_class
    };
    let lit = string_literal_of(cls.as_str());
    let mut out = String::from_str("<div class= ");
    out.append(lit.as_str());
    out.append("> ");
    out.append(kids.as_str());
    out.append("</div>");
    out
}

} // verus!
