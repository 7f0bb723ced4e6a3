//! Badges, scroll areas, clipboard buttons, highlighted text and icons in
//! Dioxus RSX.

use vstd::prelude::*;
use crate::ast::{Arg, Element, Form, Lit};
use crate::emit::common::{arg_string, find_arg_expr, find_arg_string, first_arg};
use crate::text::{str_eq, string_literal, string_literal_of};
use super::generic::{emit_html_el, html_el};

verus! {

/// A badge; its `color` argument picks the background from the theme, and
/// the child nodes, whose RSX is `kids`, are its content.
pub open spec fn badge(el: Element, kids: Seq<char>) -> Seq<char> {
    match first_arg(el.args@, "color"@) {
        Some(color) => match color.bg_class {
            Some(cls) => "span { class: format!(\"inline-flex items-center px-1.5 rounded text-xs font-medium text-white {}\", "@
                + string_literal(cls@) + "), "@ + kids + "}"@,
            None => "span { class: \"inline-flex items-center px-1.5 rounded text-xs font-medium text-white bg-gray-600\", "@
                + kids + "}"@,
        },
        None => "span { class: \"inline-flex items-center px-1.5 rounded text-xs font-medium bg-gray-600 text-white\", "@
            + kids + "}"@,
    }
}

/// Emits a badge.
pub fn emit_badge(el: &Element, kids: &str) -> (out: String)
    ensures
        out@ == badge(*el, kids@),
{
    let mut out = match find_arg_expr(el, "color") {
        Some(color) => match &color.bg_class {
            Some(cls) => {
                let mut out = String::from_str(
                    "span { class: format!(\"inline-flex items-center px-1.5 rounded text-xs font-medium text-white {}\", ",
                );
                let lit = string_literal_of(cls.as_str());
                out.append(lit.as_str());
                out.append("), ");
                out
            },
            None => String::from_str(
                "span { class: \"inline-flex items-center px-1.5 rounded text-xs font-medium text-white bg-gray-600\", ",
            ),
        },
        None => String::from_str(
            "span { class: \"inline-flex items-center px-1.5 rounded text-xs font-medium bg-gray-600 text-white\", ",
        ),
    };
    out.append(kids);
    out.append("}");
    out
}

/// The overflow class of a scroll area's `direction`: horizontal, both, or
/// vertical (the default).
pub open spec fn overflow_class(el: Element) -> Seq<char> {
    let direction = match arg_string(el.args@, "direction"@) {
        Some(d) => d@,
        None => "vertical"@,
    };
    if direction == "horizontal"@ {
        "overflow-x-auto"@
    } else if direction == "both"@ {
        "overflow-auto"@
    } else {
        "overflow-y-auto"@
    }
}

fn overflow_class_of(el: &Element) -> (r: &'static str)
    ensures
        r@ == overflow_class(*el),
{
    let direction = match find_arg_string(el, "direction") {
        Some(d) => d,
        None => String::from_str("vertical"),
    };
    if str_eq(direction.as_str(), "horizontal") {
        "overflow-x-auto"
    } else if str_eq(direction.as_str(), "both") {
        "overflow-auto"
    } else {
        "overflow-y-auto"
    }
}

/// The `class` attribute of one `class` argument of a scroll area: the
/// user's class followed by the overflow class.
pub open spec fn scroll_class_attr(a: Arg, overflow: Seq<char>) -> Seq<char> {
    if a.key@ == "class"@ {
        "class: format!(\"{} {}\", "@ + a.value.code@ + ", "@ + string_literal(overflow) + "), "@
    } else {
        Seq::empty()
    }
}

/// The `class` attributes of the `class` arguments, in order.
pub open spec fn scroll_class_attrs(args: Seq<Arg>, overflow: Seq<char>) -> Seq<char>
    decreases args.len(),
{
    if args.len() == 0 {
        Seq::empty()
    } else {
        scroll_class_attrs(args.drop_last(), overflow) + scroll_class_attr(args.last(), overflow)
    }
}

/// A scroll area: a `div` that scrolls in the chosen direction, holding the
/// child nodes, whose RSX is `kids`.
pub open spec fn scroll_area(el: Element, kids: Seq<char>) -> Seq<char> {
    let overflow = overflow_class(el);
    let attrs = scroll_class_attrs(el.args@, overflow);
    "div { "@ + (if attrs.len() == 0 {
        "class: "@ + string_literal(overflow) + ", "@
    } else {
        attrs
    }) + kids + "}"@
}

/// Emits a scroll area.
pub fn emit_scroll_area(el: &Element, kids: &str) -> (out: String)
    ensures
        out@ == scroll_area(*el, kids@),
{
    let overflow = overflow_class_of(el);
    let overflow_lit = string_literal_of(overflow);
    let mut attrs = String::new();
    let n = el.args.len();
    let mut i: usize = 0;
    while i < n
        invariant
            n == el.args@.len(),
            i <= n,
            overflow_lit@ == string_literal(overflow@),
            attrs@ == scroll_class_attrs(el.args@.subrange(0, i as int), overflow@),
        decreases n - i,
    {
        let ghost after = el.args@.subrange(0, i + 1);
        assert(after.drop_last() =~= el.args@.subrange(0, i as int));
        assert(after.last() == el.args@[i as int]);
        let a = &el.args[i];
        if str_eq(a.key.as_str(), "class") {
            attrs.append("class: format!(\"{} {}\", ");
            attrs.append(a.value.code.as_str());
            attrs.append(", ");
            attrs.append(overflow_lit.as_str());
            attrs.append("), ");
        }
        i = i + 1;
        assert(attrs@ =~= scroll_class_attrs(el.args@.subrange(0, i as int), overflow@));
    }
    assert(el.args@.subrange(0, n as int) =~= el.args@);
    let mut out = String::from_str("div { ");
    if attrs.as_str().is_empty() {
        out.append("class: ");
        out.append(overflow_lit.as_str());
        out.append(", ");
    } else {
        out.append(attrs.as_str());
    }
    out.append(kids);
    out.append("}");
    out
}

/// The attribute of one argument of a clipboard button: `class` and
/// `disabled` carry over.
pub open spec fn clip_attr(a: Arg) -> Seq<char> {
    if a.key@ == "class"@ {
        match a.value.form {
            Form::Lit(Lit::Str(_)) => "class: "@ + a.value.code@ + ", "@,
            _ => "class: { "@ + a.value.code@ + " }, "@,
        }
    } else if a.key@ == "disabled"@ {
        "disabled: "@ + a.value.code@ + ", "@
    } else {
        Seq::empty()
    }
}

/// The attributes of a clipboard button, in order.
pub open spec fn clip_attrs(args: Seq<Arg>) -> Seq<char>
    decreases args.len(),
{
    if args.len() == 0 {
        Seq::empty()
    } else {
        clip_attrs(args.drop_last()) + clip_attr(args.last())
    }
}

/// A clipboard button: a button that copies `copy_text` when clicked, with
/// "Copy" as its content when it has no child nodes; without `copy_text` a
/// plain button.
pub open spec fn clipboard_button(el: Element, kids: Seq<char>) -> Seq<char> {
    match first_arg(el.args@, "copy_text"@) {
        None => html_el(el, "button"@, kids),
        Some(ct) => "button { "@ + clip_attrs(el.args@)
            + "onclick: move |_| { quoin::clipboard_write_text(&( "@ + ct.code@
            + " ).to_string()); }, "@ + (if el.children@.len() == 0 {
            "\"Copy\" "@
        } else {
            kids
        }) + "}"@,
    }
}

/// Emits a clipboard button.
pub fn emit_clipboard_button(el: &Element, kids: &str) -> (out: String)
    ensures
        out@ == clipboard_button(*el, kids@),
{
    let copy_text = match find_arg_expr(el, "copy_text") {
        Some(ct) => ct,
        None => return emit_html_el(el, "button", kids),
    };
    let mut out = String::from_str("button { ");
    let ghost start = out@;
    let n = el.args.len();
    let mut i: usize = 0;
    while i < n
        invariant
            n == el.args@.len(),
            i <= n,
            out@ == start + clip_attrs(el.args@.subrange(0, i as int)),
        decreases n - i,
    {
        let ghost after = el.args@.subrange(0, i + 1);
        assert(after.drop_last() =~= el.args@.subrange(0, i as int));
        assert(after.last() == el.args@[i as int]);
        let a = &el.args[i];
        if str_eq(a.key.as_str(), "class") {
            match &a.value.form {
                Form::Lit(Lit::Str(_)) => {
                    out.append("class: ");
                    out.append(a.value.code.as_str());
                    out.append(", ");
                },
                _ => {
                    out.append("class: { ");
                    out.append(a.value.code.as_str());
                    out.append(" }, ");
                },
            }
        } else if str_eq(a.key.as_str(), "disabled") {
            out.append("disabled: ");
            out.append(a.value.code.as_str());
            out.append(", ");
        }
        i = i + 1;
        assert(out@ =~= start + clip_attrs(el.args@.subrange(0, i as int)));
    }
    assert(el.args@.subrange(0, n as int) =~= el.args@);
    out.append("onclick: move |_| { quoin::clipboard_write_text(&( ");
    out.append(copy_text.code.as_str());
    out.append(" ).to_string()); }, ");
    if el.children.len() == 0 {
        out.append("\"Copy\" ");
    } else {
        out.append(kids);
    }
    out.append("}");
    out
}

/// The helper that splits the text around case-insensitive matches of the
/// query and highlights the matches.
pub open spec fn highlight_fn() -> Seq<char> {
    "{ fn __quoin_styled_text(__text_val: String, __query_val: String) -> dioxus::prelude::Element { let mut __parts: Vec<dioxus::prelude::Element> = Vec::new(); if !__query_val.is_empty() { let mut __remaining: &str = &__text_val; let __query_lower: String = __query_val.to_lowercase(); while let Some(__idx) = __remaining.to_lowercase().find(&__query_lower) { if __idx > 0 { let __before: String = __remaining[..__idx].to_string(); __parts.push(dioxus::prelude::rsx! { span { \"{__before}\" } }); } let __match_str: String = __remaining[__idx..__idx + __query_val.len()].to_string(); __parts.push(dioxus::prelude::rsx! { span { class: \"bg-yellow-200 text-black\", \"{__match_str}\" } }); __remaining = &__remaining[__idx + __query_val.len()..]; } } if __parts.is_empty() { __parts.push(dioxus::prelude::rsx! { span { \"{__text_val}\" } }); } dioxus::prelude::rsx! { span { {__parts.into_iter()} } } } __quoin_styled_text(( "@
}

/// Text with the matches of a query highlighted: the plain text without a
/// `query`, nothing without a `text`.
pub open spec fn styled_text(el: Element) -> Seq<char> {
    match (first_arg(el.args@, "text"@), first_arg(el.args@, "query"@)) {
        (Some(text), None) => "span { "@ + text.code@ + " }"@,
        (Some(text), Some(query)) => highlight_fn() + text.code@ + " ).clone(), ( "@ + query.code@
            + " ).clone()) }"@,
        (None, _) => "span {}"@,
    }
}

/// Emits highlighted text.
pub fn emit_styled_text(el: &Element) -> (out: String)
    ensures
        out@ == styled_text(*el),
{
    match find_arg_expr(el, "text") {
        Some(text) => match find_arg_expr(el, "query") {
            None => {
                let mut out = String::from_str("span { ");
                out.append(text.code.as_str());
                out.append(" }");
                out
            },
            Some(query) => {
                let mut out = String::from_str(
                    "{ fn __quoin_styled_text(__text_val: String, __query_val: String) -> dioxus::prelude::Element { let mut __parts: Vec<dioxus::prelude::Element> = Vec::new(); if !__query_val.is_empty() { let mut __remaining: &str = &__text_val; let __query_lower: String = __query_val.to_lowercase(); while let Some(__idx) = __remaining.to_lowercase().find(&__query_lower) { if __idx > 0 { let __before: String = __remaining[..__idx].to_string(); __parts.push(dioxus::prelude::rsx! { span { \"{__before}\" } }); } let __match_str: String = __remaining[__idx..__idx + __query_val.len()].to_string(); __parts.push(dioxus::prelude::rsx! { span { class: \"bg-yellow-200 text-black\", \"{__match_str}\" } }); __remaining = &__remaining[__idx + __query_val.len()..]; } } if __parts.is_empty() { __parts.push(dioxus::prelude::rsx! { span { \"{__text_val}\" } }); } dioxus::prelude::rsx! { span { {__parts.into_iter()} } } } __quoin_styled_text(( ",
                );
                out.append(text.code.as_str());
                out.append(" ).clone(), ( ");
                out.append(query.code.as_str());
                out.append(" ).clone()) }");
                out
            },
        },
        None => String::from_str("span {}"),
    }
}

/// The class of an icon: the user's `class` followed by the icon size.
pub open spec fn icon_class(el: Element) -> Seq<char> {
    match first_arg(el.args@, "class"@) {
        Some(c) => "format!(\"{} w-4 h-4 inline-block\", "@ + c.code@ + ")"@,
        None => "\"w-4 h-4 inline-block\""@,
    }
}

/// An icon: the SVG of the named icon, a question mark for an unknown name,
/// or, without a name, the child nodes (whose RSX is `kids`).
pub open spec fn icon(el: Element, kids: Seq<char>) -> Seq<char> {
    let head = "span { class: "@ + icon_class(el) + ", "@;
    match arg_string(el.args@, "icon_name"@) {
        Some(_) => match first_arg(el.args@, "icon_name"@).unwrap().icon_svg {
            Some(svg) => head + string_literal(svg@) + " }"@,
            None => head + "\"\\u{2753}\" }"@,
        },
        None => if el.children@.len() == 0 {
            head + "\"\\u{2753}\" }"@
        } else {
            head + kids + "}"@
        },
    }
}

/// Emits an icon.
pub fn emit_icon(el: &Element, kids: &str) -> (out: String)
    ensures
        out@ == icon(*el, kids@),
{
    let mut out = String::from_str("span { class: ");
    match find_arg_expr(el, "class") {
        Some(c) => {
            out.append("format!(\"{} w-4 h-4 inline-block\", ");
            out.append(c.code.as_str());
            out.append(")");
        },
        None => {
            out.append("\"w-4 h-4 inline-block\"");
        },
    }
    out.append(", ");
    match find_arg_string(el, "icon_name") {
        Some(_) => {
            let name_expr = find_arg_expr(el, "icon_name").unwrap();
            match &name_expr.icon_svg {
                Some(svg) => {
                    let lit = string_literal_of(svg.as_str());
                    out.append(lit.as_str());
                    out.append(" }");
                },
                None => {
                    out.append("\"\\u{2753}\" }");
                },
            }
        },
        None => {
            if el.children.len() == 0 {
                out.append("\"\\u{2753}\" }");
            } else {
                out.append(kids);
                out.append("}");
            }
        },
    }
    out
}

} // verus!
