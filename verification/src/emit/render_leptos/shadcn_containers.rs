//! The `leptos_shadcn_ui` components that hold child nodes or wrap other
//! markup: radio groups, tooltips, badges, scroll areas, buttons and text
//! inputs.

use vstd::prelude::*;
use crate::ast::Element;
use crate::emit::common::{arg_string, arg_true, find_arg_bool, find_arg_expr, find_arg_string, first_arg};
use crate::text::{string_literal, string_literal_of};
use super::form::arg_opt;
use super::shadcn::{
    bool_text, bool_text_exec, braced, emit_import, handler_prop, import, push_braced, push_handler_prop,
    user_class, user_class_exec,
};
use super::widgets::{emit_tooltip, lp_tooltip, tip_text};
use super::{
    lp_all_ok, ExtractIds, Out, emit_expr, emit_nodes, expr_code, id_name, lp_nodes, make_id_name, next_extract_id,
    next_id, produced,
};

verus! {

/// `inner` as the trigger of a library tooltip that shows `text`: the
/// provider, tooltip, trigger and content components are bound to fresh
/// aliases in that order.
pub open spec fn sh_tip(inner: Seq<char>, text: Seq<char>, n: usize) -> Out {
    let p = import("TooltipProvider_"@, "leptos_shadcn_ui::TooltipProvider"@, n);
    let t = import("Tooltip_"@, "leptos_shadcn_ui::Tooltip"@, p.next);
    let r = import("TooltipTrigger_"@, "leptos_shadcn_ui::TooltipTrigger"@, t.next);
    let c = import("TooltipContent_"@, "leptos_shadcn_ui::TooltipContent"@, r.next);
    Out {
        code: "< "@ + p.code + " > < "@ + t.code + " > < "@ + r.code + " > "@ + inner + " </ "@ + r.code
            + " > < "@ + c.code + " > { "@ + string_literal(text) + " } </ "@ + c.code + " > </ "@ + t.code
            + " > </ "@ + p.code + " >"@,
        binds: p.binds + t.binds + r.binds + c.binds,
        next: c.next,
    }
}

/// Wraps `inner` in a library tooltip that shows `text`.
pub fn emit_sh_tip(inner: &str, text: &str, bindings: &mut String, ids: &mut ExtractIds) -> (out: String)
    ensures
        produced(sh_tip(inner@, text@, old(ids).next), out@, old(bindings)@, final(bindings)@, final(ids).next),
{
    let p = emit_import("TooltipProvider_", "leptos_shadcn_ui::TooltipProvider", bindings, ids);
    let t = emit_import("Tooltip_", "leptos_shadcn_ui::Tooltip", bindings, ids);
    let r = emit_import("TooltipTrigger_", "leptos_shadcn_ui::TooltipTrigger", bindings, ids);
    let c = emit_import("TooltipContent_", "leptos_shadcn_ui::TooltipContent", bindings, ids);
    let mut out = String::from_str("< ");
    out.append(p.as_str());
    out.append(" > < ");
    out.append(t.as_str());
    out.append(" > < ");
    out.append(r.as_str());
    out.append(" > ");
    out.append(inner);
    out.append(" </ ");
    out.append(r.as_str());
    out.append(" > < ");
    out.append(c.as_str());
    out.append(" > { ");
    out.append(string_literal_of(text).as_str());
    out.append(" } </ ");
    out.append(c.as_str());
    out.append(" > </ ");
    out.append(t.as_str());
    out.append(" > </ ");
    out.append(p.as_str());
    out.append(" >");
    proof {
        let o = sh_tip(inner@, text@, old(ids).next);
        assert(bindings@ =~= old(bindings)@ + o.binds);
        assert(out@ =~= o.code);
    }
    out
}

/// A tooltip: without a trigger, the plain `title` span; with one, the
/// trigger in a library tooltip.
pub open spec fn lp_sh_tooltip(el: Element, n: usize, inside_for: bool) -> Out {
    match el.trigger_expr {
        None => Out { code: lp_tooltip(el, inside_for), binds: Seq::empty(), next: n },
        Some(t) => sh_tip("{ "@ + expr_code(t, inside_for) + " }"@, tip_text(el), n),
    }
}

/// Emits a tooltip.
pub fn emit_sh_tooltip(el: &Element, bindings: &mut String, inside_for: bool, ids: &mut ExtractIds) -> (out: String)
    ensures
        produced(lp_sh_tooltip(*el, old(ids).next, inside_for), out@, old(bindings)@, final(bindings)@, final(ids).next),
{
    match &el.trigger_expr {
        None => {
            assert(bindings@ =~= old(bindings)@ + Seq::<char>::empty());
            emit_tooltip(el, inside_for)
        },
        Some(t) => {
            let text = match find_arg_string(el, "text") {
                Some(s) => s,
                None => String::new(),
            };
            let trigger = emit_expr(t, inside_for);
            let mut inner = String::from_str("{ ");
            inner.append(trigger.as_str());
            inner.append(" }");
            emit_sh_tip(inner.as_str(), text.as_str(), bindings, ids)
        },
    }
}

/// A radio group: the `RadioGroup` component, bound after the child nodes,
/// with the user's string-literal class.
pub open spec fn lp_sh_radio_group(el: Element, n: usize, inside_for: bool) -> Out
    decreases el, 1int,
{
    let kids = lp_nodes(el.children@, n, inside_for, true);
    let i = import("RadioGroup_"@, "leptos_shadcn_ui::RadioGroup"@, kids.next);
    let class = if user_class(el).len() == 0 {
        Seq::empty()
    } else {
        "class= "@ + string_literal(user_class(el)) + " "@
    };
    Out {
        code: "< "@ + i.code + " "@ + class + "> "@ + kids.code + "</ "@ + i.code + " >"@,
        binds: kids.binds + i.binds,
        next: i.next,
    }
}

/// Emits a radio group.
pub fn emit_sh_radio_group(el: &Element, bindings: &mut String, inside_for: bool, ids: &mut ExtractIds) -> (out: String)
    requires
        lp_all_ok(el.children@, true),
    ensures
        produced(lp_sh_radio_group(*el, old(ids).next, inside_for), out@, old(bindings)@, final(bindings)@, final(ids).next),
    decreases el, 1int,
{
    let kids = emit_nodes(&el.children, bindings, inside_for, ids, true);
    let tag = emit_import("RadioGroup_", "leptos_shadcn_ui::RadioGroup", bindings, ids);
    let user = user_class_exec(el);
    let mut out = String::from_str("< ");
    out.append(tag.as_str());
    out.append(" ");
    let ghost s1 = out@;
    if !user.as_str().is_empty() {
        out.append("class= ");
        out.append(string_literal_of(user.as_str()).as_str());
        out.append(" ");
    }
    let ghost s2 = out@;
    out.append("> ");
    out.append(kids.as_str());
    out.append("</ ");
    out.append(tag.as_str());
    out.append(" >");
    proof {
        let o = lp_sh_radio_group(*el, old(ids).next, inside_for);
        let class = if user_class(*el).len() == 0 {
            Seq::<char>::empty()
        } else {
            "class= "@ + string_literal(user_class(*el)) + " "@
        };
        assert(s2 =~= s1 + class);
        assert(bindings@ =~= old(bindings)@ + o.binds);
        assert(out@ =~= o.code);
    }
    out
}

/// The class of a library badge: with a theme `color`, its background
/// class after the base classes; with another colour, the base classes;
/// without, a grey badge.
pub open spec fn sh_badge_class(el: Element) -> Seq<char> {
    match first_arg(el.args@, "color"@) {
        Some(color) => match color.bg_class {
            Some(cls) => "class={format!(\"inline-flex items-center px-1.5 rounded text-xs font-medium text-white {}\", "@
                + string_literal(cls@) + ")} "@,
            None => "class=\"inline-flex items-center px-1.5 rounded text-xs font-medium text-white\" "@,
        },
        None => "class=\"inline-flex items-center px-1.5 rounded text-xs font-medium bg-gray-600 text-white\" "@,
    }
}

fn push_sh_badge_class(out: &mut String, el: &Element)
    ensures
        final(out)@ == old(out)@ + sh_badge_class(*el),
{
    match find_arg_expr(el, "color") {
        Some(color) => match &color.bg_class {
            Some(cls) => {
                out.append(
                    "class={format!(\"inline-flex items-center px-1.5 rounded text-xs font-medium text-white {}\", ",
                );
                out.append(string_literal_of(cls.as_str()).as_str());
                out.append(")} ");
            },
            None => {
                out.append("class=\"inline-flex items-center px-1.5 rounded text-xs font-medium text-white\" ");
            },
        },
        None => {
            out.append("class=\"inline-flex items-center px-1.5 rounded text-xs font-medium bg-gray-600 text-white\" ");
        },
    }
    assert(final(out)@ =~= old(out)@ + sh_badge_class(*el));
}

/// A badge: the `Badge` component, bound after the child nodes; without
/// child nodes it closes itself.
pub open spec fn lp_sh_badge(el: Element, n: usize, inside_for: bool) -> Out
    decreases el, 1int,
{
    let kids = lp_nodes(el.children@, n, inside_for, true);
    let i = import("Badge_"@, "leptos_shadcn_ui::Badge"@, kids.next);
    let head = "< "@ + i.code + " "@ + sh_badge_class(el);
    Out {
        code: if el.children@.len() == 0 {
            head + "/>"@
        } else {
            head + "> "@ + kids.code + "</ "@ + i.code + " >"@
        },
        binds: kids.binds + i.binds,
        next: i.next,
    }
}

/// Emits a badge.
pub fn emit_sh_badge(el: &Element, bindings: &mut String, inside_for: bool, ids: &mut ExtractIds) -> (out: String)
    requires
        lp_all_ok(el.children@, true),
    ensures
        produced(lp_sh_badge(*el, old(ids).next, inside_for), out@, old(bindings)@, final(bindings)@, final(ids).next),
    decreases el, 1int,
{
    let kids = emit_nodes(&el.children, bindings, inside_for, ids, true);
    let tag = emit_import("Badge_", "leptos_shadcn_ui::Badge", bindings, ids);
    let mut out = String::from_str("< ");
    out.append(tag.as_str());
    out.append(" ");
    push_sh_badge_class(&mut out, el);
    if el.children.len() == 0 {
        out.append("/>");
    } else {
        out.append("> ");
        out.append(kids.as_str());
        out.append("</ ");
        out.append(tag.as_str());
        out.append(" >");
    }
    proof {
        let o = lp_sh_badge(*el, old(ids).next, inside_for);
        assert(bindings@ =~= old(bindings)@ + o.binds);
        assert(out@ =~= o.code);
    }
    out
}

/// A scroll area: the `ScrollArea` component, bound after the child nodes,
/// with the `class` expression.
pub open spec fn lp_sh_scroll_area(el: Element, n: usize, inside_for: bool) -> Out
    decreases el, 1int,
{
    let kids = lp_nodes(el.children@, n, inside_for, true);
    let i = import("ScrollArea_"@, "leptos_shadcn_ui::ScrollArea"@, kids.next);
    Out {
        code: "< "@ + i.code + " "@ + braced("class"@, first_arg(el.args@, "class"@)) + "> "@ + kids.code + "</ "@
            + i.code + " >"@,
        binds: kids.binds + i.binds,
        next: i.next,
    }
}

/// Emits a scroll area.
pub fn emit_sh_scroll_area(el: &Element, bindings: &mut String, inside_for: bool, ids: &mut ExtractIds) -> (out: String)
    requires
        lp_all_ok(el.children@, true),
    ensures
        produced(lp_sh_scroll_area(*el, old(ids).next, inside_for), out@, old(bindings)@, final(bindings)@, final(ids).next),
    decreases el, 1int,
{
    let kids = emit_nodes(&el.children, bindings, inside_for, ids, true);
    let tag = emit_import("ScrollArea_", "leptos_shadcn_ui::ScrollArea", bindings, ids);
    let mut out = String::from_str("< ");
    out.append(tag.as_str());
    out.append(" ");
    push_braced(&mut out, "class", arg_opt(el, "class"));
    out.append("> ");
    out.append(kids.as_str());
    out.append("</ ");
    out.append(tag.as_str());
    out.append(" >");
    proof {
        let o = lp_sh_scroll_area(*el, old(ids).next, inside_for);
        assert(bindings@ =~= old(bindings)@ + o.binds);
        assert(out@ =~= o.code);
    }
    out
}

/// The variant of a library button: `destructive`, then `ghost`, then
/// `primary` (the default variant); a button with none of them is outlined.
pub open spec fn sh_variant(el: Element) -> Seq<char> {
    if arg_true(el.args@, "destructive"@) {
        "Destructive"@
    } else if arg_true(el.args@, "ghost"@) {
        "Ghost"@
    } else if arg_true(el.args@, "primary"@) {
        "Default"@
    } else {
        "Outline"@
    }
}

fn sh_variant_exec(el: &Element) -> (r: &'static str)
    ensures
        r@ == sh_variant(*el),
{
    if find_arg_bool(el, "destructive") {
        "Destructive"
    } else if find_arg_bool(el, "ghost") {
        "Ghost"
    } else if find_arg_bool(el, "primary") {
        "Default"
    } else {
        "Outline"
    }
}

/// The properties of a library button: variant, class, click handler and
/// `disabled`.
pub open spec fn sh_button_props(el: Element) -> Seq<char> {
    "variant={ leptos_shadcn_ui::ButtonVariant::"@ + sh_variant(el) + " } "@ + braced(
        "class"@,
        first_arg(el.args@, "class"@),
    ) + handler_prop("on_click"@, first_arg(el.args@, "on_click"@)) + "disabled={ "@ + bool_text(
        arg_true(el.args@, "disabled"@),
    ) + " } "@
}

/// A button: the `Button` component, bound before the child nodes; with a
/// string-literal `tooltip`, wrapped in a library tooltip bound after them.
pub open spec fn lp_sh_button(el: Element, n: usize, inside_for: bool) -> Out
    decreases el, 1int,
{
    let i = import("Button_"@, "leptos_shadcn_ui::Button"@, n);
    let kids = lp_nodes(el.children@, i.next, inside_for, true);
    let button = if el.children@.len() == 0 {
        "< "@ + i.code + " "@ + sh_button_props(el) + "/>"@
    } else {
        "< "@ + i.code + " "@ + sh_button_props(el) + "> "@ + kids.code + "</ "@ + i.code + " >"@
    };
    match arg_string(el.args@, "tooltip"@) {
        Some(text) => {
            let w = sh_tip(button, text@, kids.next);
            Out { code: w.code, binds: i.binds + kids.binds + w.binds, next: w.next }
        },
        None => Out { code: button, binds: i.binds + kids.binds, next: kids.next },
    }
}

/// Emits a button.
#[verifier::rlimit(40)]
pub fn emit_sh_button(el: &Element, bindings: &mut String, inside_for: bool, ids: &mut ExtractIds) -> (out: String)
    requires
        lp_all_ok(el.children@, true),
    ensures
        produced(lp_sh_button(*el, old(ids).next, inside_for), out@, old(bindings)@, final(bindings)@, final(ids).next),
    decreases el, 1int,
{
    let ghost b0 = bindings@;
    let ghost n0 = ids.next;
    let tooltip_text = find_arg_string(el, "tooltip");
    let tag = emit_import("Button_", "leptos_shadcn_ui::Button", bindings, ids);
    let mut props = String::from_str("variant={ leptos_shadcn_ui::ButtonVariant::");
    props.append(sh_variant_exec(el));
    props.append(" } ");
    push_braced(&mut props, "class", arg_opt(el, "class"));
    push_handler_prop(&mut props, "on_click", arg_opt(el, "on_click"));
    props.append("disabled={ ");
    props.append(bool_text_exec(find_arg_bool(el, "disabled")));
    props.append(" } ");
    assert(props@ =~= sh_button_props(*el));
    let kids = emit_nodes(&el.children, bindings, inside_for, ids, true);
    let ghost b1 = bindings@;
    let mut button = String::from_str("< ");
    button.append(tag.as_str());
    button.append(" ");
    button.append(props.as_str());
    if el.children.len() == 0 {
        button.append("/>");
    } else {
        button.append("> ");
        button.append(kids.as_str());
        button.append("</ ");
        button.append(tag.as_str());
        button.append(" >");
    }
    match tooltip_text {
        Some(text) => {
            let out = emit_sh_tip(button.as_str(), text.as_str(), bindings, ids);
            proof {
                let o = lp_sh_button(*el, n0, inside_for);
                assert(bindings@ =~= b0 + o.binds);
                assert(out@ =~= o.code);
            }
            out
        },
        None => {
            proof {
                let o = lp_sh_button(*el, n0, inside_for);
                assert(bindings@ =~= b0 + o.binds);
                assert(button@ =~= o.code);
            }
            button
        },
    }
}

/// How a library input reports changes: to its `on_change` handler, else
/// to its `on_input` handler, else, with a `value`, through a bound closure
/// that sets the value's signal.
pub open spec fn sh_input_change(el: Element, n: usize) -> Out {
    match first_arg(el.args@, "on_change"@) {
        Some(h) => Out { code: handler_prop("on_change"@, Some(h)), binds: Seq::empty(), next: n },
        None => match first_arg(el.args@, "on_input"@) {
            Some(h) => Out { code: handler_prop("on_change"@, Some(h)), binds: Seq::empty(), next: n },
            None => match first_arg(el.args@, "value"@) {
                Some(v) => {
                    let name = id_name("__quoin_input_bind_"@, n);
                    Out {
                        code: "on_change= "@ + name + " "@,
                        binds: "let "@ + name + " = { let __signal = ( "@ + v.code@
                            + " ).clone(); move |val: String| { __signal.set(val); } }; "@,
                        next: next_id(n),
                    }
                },
                None => Out { code: Seq::empty(), binds: Seq::empty(), next: n },
            },
        },
    }
}

/// The value of a library input, derived from the `value` signal.
pub open spec fn sh_input_value(el: Element) -> Seq<char> {
    match first_arg(el.args@, "value"@) {
        Some(v) => "value={ let __val = ( "@ + v.code@
            + " ).clone(); leptos::prelude::Signal::derive(move || __val.get()) } "@,
        None => Seq::empty(),
    }
}

/// The placeholder of a library input: its non-empty string-literal
/// `placeholder`.
pub open spec fn sh_placeholder(el: Element) -> Seq<char> {
    match arg_string(el.args@, "placeholder"@) {
        Some(p) => if p@.len() == 0 {
            Seq::empty()
        } else {
            "placeholder={ "@ + string_literal(p@) + " } "@
        },
        None => Seq::empty(),
    }
}

/// A text input: the `Input` component, bound after the change binding;
/// it holds no child nodes.
pub open spec fn lp_sh_input(el: Element, n: usize) -> Out {
    let ch = sh_input_change(el, n);
    let i = import("Input_"@, "leptos_shadcn_ui::Input"@, ch.next);
    let disabled = if arg_true(el.args@, "disabled"@) {
        "disabled=true "@
    } else {
        Seq::empty()
    };
    Out {
        code: "< "@ + i.code + " "@ + sh_input_value(el) + ch.code + sh_placeholder(el) + braced(
            "class"@,
            first_arg(el.args@, "class"@),
        ) + disabled + "/>"@,
        binds: ch.binds + i.binds,
        next: i.next,
    }
}

fn emit_sh_input_change(el: &Element, bindings: &mut String, ids: &mut ExtractIds) -> (out: String)
    ensures
        produced(sh_input_change(*el, old(ids).next), out@, old(bindings)@, final(bindings)@, final(ids).next),
{
    let mut out = String::new();
    match find_arg_expr(el, "on_change") {
        Some(h) => {
            push_handler_prop(&mut out, "on_change", Some(h));
            assert(bindings@ =~= old(bindings)@ + Seq::<char>::empty());
        },
        None => match find_arg_expr(el, "on_input") {
            Some(h) => {
                push_handler_prop(&mut out, "on_change", Some(h));
                assert(bindings@ =~= old(bindings)@ + Seq::<char>::empty());
            },
            None => match find_arg_expr(el, "value") {
                Some(v) => {
                    let id = next_extract_id(ids);
                    let name = make_id_name("__quoin_input_bind_", id);
                    bindings.append("let ");
                    bindings.append(name.as_str());
                    bindings.append(" = { let __signal = ( ");
                    bindings.append(v.code.as_str());
                    bindings.append(" ).clone(); move |val: String| { __signal.set(val); } }; ");
                    out.append("on_change= ");
                    out.append(name.as_str());
                    out.append(" ");
                    proof {
                        let o = sh_input_change(*el, old(ids).next);
                        assert(bindings@ =~= old(bindings)@ + o.binds);
                        assert(out@ =~= o.code);
                    }
                },
                None => {
                    assert(bindings@ =~= old(bindings)@ + Seq::<char>::empty());
                    assert(out@ =~= Seq::<char>::empty());
                },
            },
        },
    }
    out
}

/// Emits a text input.
pub fn emit_sh_input(el: &Element, bindings: &mut String, ids: &mut ExtractIds) -> (out: String)
    ensures
        produced(lp_sh_input(*el, old(ids).next), out@, old(bindings)@, final(bindings)@, final(ids).next),
{
    let ghost b0 = bindings@;
    let ghost n0 = ids.next;
    let change = emit_sh_input_change(el, bindings, ids);
    let tag = emit_import("Input_", "leptos_shadcn_ui::Input", bindings, ids);
    let mut out = String::from_str("< ");
    out.append(tag.as_str());
    out.append(" ");
    let ghost s0 = out@;
    match find_arg_expr(el, "value") {
        Some(v) => {
            out.append("value={ let __val = ( ");
            out.append(v.code.as_str());
            out.append(" ).clone(); leptos::prelude::Signal::derive(move || __val.get()) } ");
        },
        None => {},
    }
    assert(out@ =~= s0 + sh_input_value(*el));
    out.append(change.as_str());
    let ghost s1 = out@;
    match find_arg_string(el, "placeholder") {
        Some(p) => {
            if !p.as_str().is_empty() {
                out.append("placeholder={ ");
                out.append(string_literal_of(p.as_str()).as_str());
                out.append(" } ");
            }
        },
        None => {},
    }
    assert(out@ =~= s1 + sh_placeholder(*el));
    push_braced(&mut out, "class", arg_opt(el, "class"));
    if find_arg_bool(el, "disabled") {
        out.append("disabled=true ");
    }
    out.append("/>");
    proof {
        let o = lp_sh_input(*el, n0);
        assert(bindings@ =~= b0 + o.binds);
        assert(out@ =~= o.code);
    }
    out
}

} // verus!
