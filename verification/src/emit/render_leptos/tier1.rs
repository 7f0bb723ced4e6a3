//! Separators, skeletons and progress bars in Leptos `view!` markup.

use vstd::prelude::*;
use crate::ast::{Arg, Element};
use crate::emit::common::{arg_string, find_arg_expr, find_arg_string, first_arg};
use crate::text::{str_eq, string_literal, string_literal_of};
use super::{ExtractIds, Out, id_name, make_id_name, next_extract_id, next_id, produced};

verus! {

/// The tag of a separator: `hr` when horizontal (the default), else `div`.
pub open spec fn separator_tag(el: Element) -> Seq<char> {
    let orientation = match arg_string(el.args@, "orientation"@) {
        Some(o) => o@,
        None => "horizontal"@,
    };
    if orientation == "horizontal"@ {
        "hr"@
    } else {
        "div"@
    }
}

/// The tag of a separator element.
pub fn resolve_separator_element(el: &Element) -> (t: &'static str)
    ensures
        t@ == separator_tag(*el),
{
    let orientation = match find_arg_string(el, "orientation") {
        Some(o) => o,
        None => String::from_str("horizontal"),
    };
    if str_eq(orientation.as_str(), "horizontal") {
        "hr"
    } else {
        "div"
    }
}

/// `class= <expr> ` for each `class` argument, in order.
pub open spec fn class_props(args: Seq<Arg>) -> Seq<char>
    decreases args.len(),
{
    if args.len() == 0 {
        Seq::empty()
    } else {
        class_props(args.drop_last()) + if args.last().key@ == "class"@ {
            "class= "@ + args.last().value.code@ + " "@
        } else {
            Seq::empty()
        }
    }
}

pub(crate) fn push_class_props(out: &mut String, el: &Element)
    ensures
        final(out)@ == old(out)@ + class_props(el.args@),
{
    let ghost start = out@;
    let n = el.args.len();
    let mut i: usize = 0;
    while i < n
        invariant
            n == el.args@.len(),
            i <= n,
            out@ == start + class_props(el.args@.subrange(0, i as int)),
        decreases n - i,
    {
        let ghost after = el.args@.subrange(0, i + 1);
        assert(after.drop_last() =~= el.args@.subrange(0, i as int));
        assert(after.last() == el.args@[i as int]);
        if str_eq(el.args[i].key.as_str(), "class") {
            out.append("class= ");
            out.append(el.args[i].value.code.as_str());
            out.append(" ");
        }
        i = i + 1;
        assert(out@ =~= start + class_props(el.args@.subrange(0, i as int)));
    }
    assert(el.args@.subrange(0, n as int) =~= el.args@);
}

/// A separator.
pub open spec fn lp_separator(el: Element) -> Seq<char> {
    "< "@ + separator_tag(el) + " "@ + class_props(el.args@) + "/>"@
}

/// Emits a separator.
pub fn emit_separator(el: &Element) -> (out: String)
    ensures
        out@ == lp_separator(*el),
{
    let tag = resolve_separator_element(el);
    let mut out = String::from_str("< ");
    out.append(tag);
    out.append(" ");
    push_class_props(&mut out, el);
    out.append("/>");
    out
}

/// `base`, followed by the user's string-literal `class` when it is given
/// and not empty.
pub open spec fn class_with(el: Element, base: Seq<char>) -> Seq<char> {
    match arg_string(el.args@, "class"@) {
        Some(c) => if c@.len() == 0 {
            base
        } else {
            base + " "@ + c@
        },
        None => base,
    }
}

/// `base`, followed by the user's class.
pub fn class_with_exec(el: &Element, base: &str) -> (r: String)
    ensures
        r@ == class_with(*el, base@),
{
    let user_class = match find_arg_string(el, "class") {
        Some(c) => c,
        None => String::new(),
    };
    if user_class.as_str().is_empty() {
        String::from_str(base)
    } else {
        let mut r = String::from_str(base);
        r.append(" ");
        r.append(user_class.as_str());
        r
    }
}

/// A skeleton `div` with the class `base` and the user's class.
pub open spec fn lp_skeleton_with(el: Element, base: Seq<char>) -> Seq<char> {
    "< div class= "@ + string_literal(class_with(el, base)) + " />"@
}

fn emit_skeleton_with(el: &Element, base: &str) -> (out: String)
    ensures
        out@ == lp_skeleton_with(*el, base@),
{
    let full = class_with_exec(el, base);
    let lit = string_literal_of(full.as_str());
    let mut out = String::from_str("< div class= ");
    out.append(lit.as_str());
    out.append(" />");
    out
}

/// A skeleton placeholder.
pub open spec fn lp_skeleton(el: Element) -> Seq<char> {
    lp_skeleton_with(el, "animate-pulse rounded-md bg-muted"@)
}

/// Emits a skeleton placeholder.
pub fn emit_skeleton(el: &Element) -> (out: String)
    ensures
        out@ == lp_skeleton(*el),
{
    emit_skeleton_with(el, "animate-pulse rounded-md bg-muted")
}

/// A skeleton line of text.
pub open spec fn lp_skeleton_text(el: Element) -> Seq<char> {
    lp_skeleton_with(el, "animate-pulse h-4 w-full rounded-md bg-muted"@)
}

/// Emits a skeleton line of text.
pub fn emit_skeleton_text(el: &Element) -> (out: String)
    ensures
        out@ == lp_skeleton_text(*el),
{
    emit_skeleton_with(el, "animate-pulse h-4 w-full rounded-md bg-muted")
}

/// A skeleton avatar.
pub open spec fn lp_skeleton_avatar(el: Element) -> Seq<char> {
    lp_skeleton_with(el, "animate-pulse h-10 w-10 rounded-full bg-muted"@)
}

/// Emits a skeleton avatar.
pub fn emit_skeleton_avatar(el: &Element) -> (out: String)
    ensures
        out@ == lp_skeleton_avatar(*el),
{
    emit_skeleton_with(el, "animate-pulse h-10 w-10 rounded-full bg-muted")
}

/// A progress bar: with a `value`, a bar whose width is the value as a
/// percentage of `max` (of 100 without one), derived from a binding;
/// without, an indeterminate bar.
pub open spec fn lp_progress(el: Element, n: usize) -> Out {
    let outer = string_literal(
        class_with(el, "relative h-4 w-full overflow-hidden rounded-full bg-secondary"@),
    );
    match first_arg(el.args@, "value"@) {
        Some(val) => {
            let pct = match first_arg(el.args@, "max"@) {
                Some(m) => "( "@ + val.code@ + " as f64 ) / ( "@ + m.code@ + " as f64 ) * 100.0"@,
                None => "( "@ + val.code@ + " as f64 )"@,
            };
            let name = id_name("__quoin_prog_val_"@, n);
            Out {
                code: "<div class= "@ + outer + "> <div class= "@ + string_literal(
                    "h-full rounded-full bg-primary transition-all duration-300"@,
                ) + " style={leptos::prelude::Signal::derive(move || format!(\"width: {}%\", "@ + name
                    + "))} /> </div>"@,
                binds: "let "@ + name + " = "@ + pct + "; "@,
                next: next_id(n),
            }
        },
        None => Out {
            code: "<div class= "@ + outer + "> <div class= "@ + string_literal(
                "h-full w-1/3 rounded-full bg-primary animate-indeterminate"@,
            ) + " /> </div>"@,
            binds: Seq::empty(),
            next: n,
        },
    }
}

/// Emits a progress bar.
pub fn emit_progress(el: &Element, bindings: &mut String, ids: &mut ExtractIds) -> (out: String)
    ensures
        produced(lp_progress(*el, old(ids).next), out@, old(bindings)@, final(bindings)@, final(ids).next),
{
    let full = class_with_exec(el, "relative h-4 w-full overflow-hidden rounded-full bg-secondary");
    let outer = string_literal_of(full.as_str());
    match find_arg_expr(el, "value") {
        Some(val) => {
            let mut pct = String::from_str("( ");
            pct.append(val.code.as_str());
            match find_arg_expr(el, "max") {
                Some(m) => {
                    pct.append(" as f64 ) / ( ");
                    pct.append(m.code.as_str());
                    pct.append(" as f64 ) * 100.0");
                },
                None => {
                    pct.append(" as f64 )");
                },
            }
            let val_id = next_extract_id(ids);
            let name = make_id_name("__quoin_prog_val_", val_id);
            bindings.append("let ");
            bindings.append(name.as_str());
            bindings.append(" = ");
            bindings.append(pct.as_str());
            bindings.append("; ");
            let bar = string_literal_of("h-full rounded-full bg-primary transition-all duration-300");
            let mut out = String::from_str("<div class= ");
            out.append(outer.as_str());
            out.append("> <div class= ");
            out.append(bar.as_str());
            out.append(" style={leptos::prelude::Signal::derive(move || format!(\"width: {}%\", ");
            out.append(name.as_str());
            out.append("))} /> </div>");
            proof {
                let o = lp_progress(*el, old(ids).next);
                assert(bindings@ =~= old(bindings)@ + o.binds);
            }
            out
        },
        None => {
            let bar = string_literal_of("h-full w-1/3 rounded-full bg-primary animate-indeterminate");
            let mut out = String::from_str("<div class= ");
            out.append(outer.as_str());
            out.append("> <div class= ");
            out.append(bar.as_str());
            out.append(" /> </div>");
            assert(bindings@ =~= old(bindings)@ + Seq::<char>::empty());
            out
        },
    }
}

} // verus!
