//! Separators, skeletons and progress bars in Dioxus RSX.

use vstd::prelude::*;
use crate::ast::{Arg, Element, Form, Lit};
use crate::emit::common::{arg_string, find_arg_expr, find_arg_string, first_arg};
use crate::text::{str_eq, string_literal, string_literal_of};

verus! {

/// The tag of a separator: `hr` when horizontal (the default), else `div`.
pub open spec fn separator_tag(el: Element) -> Seq<char> {
    match arg_string(el.args@, "orientation"@) {
        Some(o) => if o@ == "horizontal"@ {
            "hr"@
        } else {
            "div"@
        },
        None => "hr"@,
    }
}

/// The tag of a separator element.
pub fn resolve_separator_tag(el: &Element) -> (t: String)
    ensures
        t@ == separator_tag(*el),
{
    let orientation = match find_arg_string(el, "orientation") {
        Some(o) => o,
        None => String::from_str("horizontal"),
    };
    if str_eq(orientation.as_str(), "horizontal") {
        String::from_str("hr")
    } else {
        String::from_str("div")
    }
}

/// The `class` attribute that a `class` argument becomes: a string literal
/// as it is, another expression in braces.
pub open spec fn class_attr(a: Arg) -> Seq<char> {
    if a.key@ == "class"@ {
        match a.value.form {
            Form::Lit(Lit::Str(_)) => "class: "@ + a.value.code@ + ", "@,
            _ => "class: { "@ + a.value.code@ + " }, "@,
        }
    } else {
        Seq::empty()
    }
}

/// The `class` attributes of all `class` arguments, in order.
pub open spec fn class_attrs(args: Seq<Arg>) -> Seq<char>
    decreases args.len(),
{
    if args.len() == 0 {
        Seq::empty()
    } else {
        class_attrs(args.drop_last()) + class_attr(args.last())
    }
}

/// Appends the `class` attributes of the element's `class` arguments.
pub fn push_class_attrs(out: &mut String, el: &Element)
    ensures
        final(out)@ == old(out)@ + class_attrs(el.args@),
{
    let ghost start = out@;
    let n = el.args.len();
    let mut i: usize = 0;
    while i < n
        invariant
            n == el.args@.len(),
            i <= n,
            out@ == start + class_attrs(el.args@.subrange(0, i as int)),
        decreases n - i,
    {
        let ghost after = el.args@.subrange(0, i + 1);
        assert(after.drop_last() =~= el.args@.subrange(0, i as int));
        assert(after.last() == el.args@[i as int]);
        let a = &el.args[i];
        if str_eq(a.key.as_str(), "class") {
            match &a.value.form {
                Form::Lit(Lit::Str(_)) => {
                    out.append("class: ");
                    out.append(a.value.code.as_str());
                    out.append(", ");
                },
                _ => {
                    out.append("class: { ");
                    out.append(a.value.code.as_str());
                    out.append(" }, ");
                },
            }
        }
        i = i + 1;
        assert(out@ =~= start + class_attrs(el.args@.subrange(0, i as int)));
    }
    assert(el.args@.subrange(0, n as int) =~= el.args@);
}

/// A separator: its tag with the `class` arguments as attributes.
pub open spec fn separator(el: Element) -> Seq<char> {
    separator_tag(el) + " { "@ + class_attrs(el.args@) + "}"@
}

/// Emits a separator.
pub fn emit_separator(el: &Element) -> (out: String)
    ensures
        out@ == separator(*el),
{
    let mut out = resolve_separator_tag(el);
    out.append(" { ");
    push_class_attrs(&mut out, el);
    out.append("}");
    out
}

/// The user's string-literal `class` argument, or `base` when there is none
/// or it is empty.
pub open spec fn class_or(el: Element, base: Seq<char>) -> Seq<char> {
    match arg_string(el.args@, "class"@) {
        Some(c) => if c@.len() == 0 {
            base
        } else {
            c@
        },
        None => base,
    }
}

fn class_or_exec(el: &Element, base: &str) -> (r: String)
    ensures
        r@ == class_or(*el, base@),
{
    let user_class = match find_arg_string(el, "class") {
        Some(c) => c,
        None => String::new(),
    };
    if user_class.as_str().is_empty() {
        String::from_str(base)
    } else {
        user_class
    }
}

/// `div { class: "<class>" }` with the user's class or `base`.
pub open spec fn classed_div(el: Element, base: Seq<char>) -> Seq<char> {
    "div { class: "@ + string_literal(class_or(el, base)) + " }"@
}

fn emit_classed_div(el: &Element, base: &str) -> (out: String)
    ensures
        out@ == classed_div(*el, base@),
{
    let cls = class_or_exec(el, base);
    let mut out = String::from_str("div { class: ");
    let lit = string_literal_of(cls.as_str());
    out.append(lit.as_str());
    out.append(" }");
    out
}

/// A skeleton placeholder.
pub open spec fn skeleton(el: Element) -> Seq<char> {
    classed_div(el, "animate-pulse rounded-md bg-muted"@)
}

/// Emits a skeleton placeholder.
pub fn emit_skeleton(el: &Element) -> (out: String)
    ensures
        out@ == skeleton(*el),
{
    emit_classed_div(el, "animate-pulse rounded-md bg-muted")
}

/// A skeleton line of text.
pub open spec fn skeleton_text(el: Element) -> Seq<char> {
    classed_div(el, "animate-pulse h-4 w-full rounded-md bg-muted"@)
}

/// Emits a skeleton line of text.
pub fn emit_skeleton_text(el: &Element) -> (out: String)
    ensures
        out@ == skeleton_text(*el),
{
    emit_classed_div(el, "animate-pulse h-4 w-full rounded-md bg-muted")
}

/// A skeleton avatar.
pub open spec fn skeleton_avatar(el: Element) -> Seq<char> {
    classed_div(el, "animate-pulse h-10 w-10 rounded-full bg-muted"@)
}

/// Emits a skeleton avatar.
pub fn emit_skeleton_avatar(el: &Element) -> (out: String)
    ensures
        out@ == skeleton_avatar(*el),
{
    emit_classed_div(el, "animate-pulse h-10 w-10 rounded-full bg-muted")
}

/// A progress bar: determinate with a `value`, indeterminate without.
pub open spec fn progress(el: Element) -> Seq<char> {
    let full = class_or(el, "relative h-4 w-full overflow-hidden rounded-full bg-secondary"@);
    match first_arg(el.args@, "value"@) {
        Some(_) => "div { class: "@ + string_literal(full) + ", div { class: "@ + string_literal(
            "h-full rounded-full bg-primary transition-all duration-300"@,
        ) + ", style: \"width: {#max}%\" } }"@,
        None => "div { class: "@ + string_literal(full) + ", div { class: "@ + string_literal(
            "h-full w-1/3 rounded-full bg-primary animate-indeterminate"@,
        ) + " } }"@,
    }
}

/// Emits a progress bar.
pub fn emit_progress(el: &Element) -> (out: String)
    ensures
        out@ == progress(*el),
{
    let full = class_or_exec(el, "relative h-4 w-full overflow-hidden rounded-full bg-secondary");
    let full_lit = string_literal_of(full.as_str());
    let mut out = String::from_str("div { class: ");
    out.append(full_lit.as_str());
    out.append(", div { class: ");
    match find_arg_expr(el, "value") {
        Some(_) => {
            let bar = string_literal_of("h-full rounded-full bg-primary transition-all duration-300");
            out.append(bar.as_str());
            out.append(", style: \"width: {#max}%\" } }");
        },
        None => {
            let bar = string_literal_of("h-full w-1/3 rounded-full bg-primary animate-indeterminate");
            out.append(bar.as_str());
            out.append(" } }");
        },
    }
    out
}

} // verus!
