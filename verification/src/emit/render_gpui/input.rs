//! Text inputs in GPUI: a bound value keeps a persistent input entity in
//! the view's input manager, synchronised with the value's signal both
//! ways; other values are shown as text.

use vstd::prelude::*;
use crate::ast::{Element, Expr, Form};
use crate::emit::common::{arg_string, el_has_arg, find_arg_expr, find_arg_string, first_arg, has_arg};
use crate::text::{string_literal, string_literal_of};
use super::{normal_calls, push_normal_calls};

verus! {

/// The placeholder of an input: its string-literal `placeholder`, or
/// nothing.
pub open spec fn input_placeholder(el: Element) -> Seq<char> {
    match arg_string(el.args@, "placeholder"@) {
        Some(p) => p@,
        None => Seq::empty(),
    }
}

/// The identifier that a value expression binds to: the last segment of a
/// path, or a named field.
pub open spec fn value_ident(e: Expr) -> Option<String> {
    match e.form {
        Form::Path(id) => id,
        Form::Field(id) => id,
        _ => None,
    }
}

/// The box of an input that shows text.
pub open spec fn input_box() -> Seq<char> {
    "::gpui::div().rounded(::gpui::px(6.0)).px(::gpui::px(12.0)).py(::gpui::px(8.0)).bg(::gpui::rgb(0x1f2937)).border_1().border_color(::gpui::rgb(0x374151))"@
}

/// The input widget: inside a `div` with the element's classes when it has
/// a `class` argument, bare otherwise.
pub open spec fn input_construction(el: Element) -> Seq<char> {
    if has_arg(el.args@, "class"@) {
        "::gpui::div()"@ + normal_calls(el) + ".child(quoin::Input::new(&__entity).appearance(false))"@
    } else {
        "quoin::Input::new(&__entity)"@
    }
}

/// An input bound to the signal `self.<id>`: the entity is created once
/// under the id `__quoin_input_<id>`, seeded with the signal's value and
/// observed to write edits back; later renders push the signal's value into
/// the entity when they differ.
pub open spec fn bound_input(el: Element, id: Seq<char>) -> Seq<char> {
    let ph = string_literal(input_placeholder(el));
    "{ let __input_id: &str = "@ + string_literal("__quoin_input_"@ + id)
        + "; if !self._quoin_inputs.contains(__input_id) { let __initial_val: String = self. "@ + id
        + " .get(); let __entity = cx.new::<quoin::InputState>(|cx| { let mut __state = quoin::InputState::new(window, cx); __state.set_placeholder( "@
        + ph
        + " , window, cx); __state.set_value(__initial_val, window, cx); __state }); let __sub = cx.observe(&__entity, |this, __entity, cx| { let __new_val: String = __entity.read(cx).value().to_string(); this. "@
        + id
        + " .set(__new_val); }); self._quoin_inputs.insert(__input_id.to_string(), __entity, __sub); } else { let __entity = self._quoin_inputs.get(__input_id).unwrap(); let __current: String = __entity.read(cx).value().to_string(); let __desired: String = self. "@
        + id
        + " .get(); if __current != __desired { __entity.update(cx, |__state, cx| { __state.set_value(__desired, window, cx); }); } } let __entity = self._quoin_inputs.get(__input_id).unwrap().clone(); "@
        + input_construction(el) + " }"@
}

/// An input: without a `value`, a grey box with the placeholder; with a
/// value that names no signal, a box with the value; with one, the bound
/// input.
pub open spec fn gp_input(el: Element) -> Seq<char>
    decreases el, 0int,
{
    match first_arg(el.args@, "value"@) {
        None => input_box() + ".text_color(::gpui::rgb(0x9ca3af)).child( "@ + string_literal(input_placeholder(el))
            + " )"@ + normal_calls(el),
        Some(v) => match value_ident(v) {
            None => input_box() + ".text_color(::gpui::rgb(0xffffff)).child( "@ + v.code@ + " )"@ + normal_calls(el),
            Some(id) => bound_input(el, id@),
        },
    }
}

fn push_input_box(out: &mut String)
    ensures
        final(out)@ == old(out)@ + input_box(),
{
    out.append(
        "::gpui::div().rounded(::gpui::px(6.0)).px(::gpui::px(12.0)).py(::gpui::px(8.0)).bg(::gpui::rgb(0x1f2937)).border_1().border_color(::gpui::rgb(0x374151))",
    );
}

/// Emits an input.
pub fn emit_input(el: &Element) -> (out: String)
    ensures
        out@ == gp_input(*el),
    decreases el, 0int,
{
    let placeholder = match find_arg_string(el, "placeholder") {
        Some(p) => p,
        None => String::new(),
    };
    let ph = string_literal_of(placeholder.as_str());
    let value_expr = match find_arg_expr(el, "value") {
        Some(e) => e,
        None => {
            let mut out = String::new();
            push_input_box(&mut out);
            out.append(".text_color(::gpui::rgb(0x9ca3af)).child( ");
            out.append(ph.as_str());
            out.append(" )");
            push_normal_calls(&mut out, el);
            return out;
        },
    };
    let id = match &value_expr.form {
        Form::Path(id) => id,
        Form::Field(id) => id,
        _ => &None,
    };
    let id = match id {
        Some(id) => id,
        None => {
            let mut out = String::new();
            push_input_box(&mut out);
            out.append(".text_color(::gpui::rgb(0xffffff)).child( ");
            out.append(value_expr.code.as_str());
            out.append(" )");
            push_normal_calls(&mut out, el);
            return out;
        },
    };
    let mut id_text = String::from_str("__quoin_input_");
    id_text.append(id.as_str());
    let id_lit = string_literal_of(id_text.as_str());
    let mut out = String::from_str("{ let __input_id: &str = ");
    out.append(id_lit.as_str());
    out.append("; if !self._quoin_inputs.contains(__input_id) { let __initial_val: String = self. ");
    out.append(id.as_str());
    out.append(
        " .get(); let __entity = cx.new::<quoin::InputState>(|cx| { let mut __state = quoin::InputState::new(window, cx); __state.set_placeholder( ",
    );
    out.append(ph.as_str());
    out.append(
        " , window, cx); __state.set_value(__initial_val, window, cx); __state }); let __sub = cx.observe(&__entity, |this, __entity, cx| { let __new_val: String = __entity.read(cx).value().to_string(); this. ",
    );
    out.append(id.as_str());
    out.append(
        " .set(__new_val); }); self._quoin_inputs.insert(__input_id.to_string(), __entity, __sub); } else { let __entity = self._quoin_inputs.get(__input_id).unwrap(); let __current: String = __entity.read(cx).value().to_string(); let __desired: String = self. ",
    );
    out.append(id.as_str());
    out.append(
        " .get(); if __current != __desired { __entity.update(cx, |__state, cx| { __state.set_value(__desired, window, cx); }); } } let __entity = self._quoin_inputs.get(__input_id).unwrap().clone(); ",
    );
    if el_has_arg(el, "class") {
        out.append("::gpui::div()");
        push_normal_calls(&mut out, el);
        out.append(".child(quoin::Input::new(&__entity).appearance(false))");
    } else {
        out.append("quoin::Input::new(&__entity)");
    }
    out.append(" }");
    out
}

} // verus!
