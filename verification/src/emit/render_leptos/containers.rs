//! Badges, scroll areas, lists, clipboard buttons, buttons, inputs and
//! icons in Leptos `view!` markup: the elements that hold child nodes.

use vstd::prelude::*;
use crate::ast::{Arg, Element};
use crate::emit::common::{arg_f32, arg_string, find_arg_expr, find_arg_f32, find_arg_string, first_arg};
use crate::text::{str_eq, string_literal, string_literal_of};
use super::{lp_all_ok, ExtractIds, Out, emit_nodes, id_name, lp_nodes, make_id_name, next_extract_id, next_id, produced};
use super::html::{emit_html_tag_inner, lp_html_tag};
use super::widgets::{emit_hover_group, hover_group};

verus! {

/// A badge: with a theme `color`, a span with that background class; with
/// another colour, an inline background style; without, a grey badge.
pub open spec fn lp_badge(el: Element, n: usize, inside_for: bool) -> Out
    decreases el, 1int,
{
    let kids = lp_nodes(el.children@, n, inside_for, false);
    let code = match first_arg(el.args@, "color"@) {
        Some(color) => match color.bg_class {
            Some(cls) => "<span class={concat!(\"inline-flex items-center px-1.5 rounded text-xs font-medium text-white \", "@
                + string_literal(cls@) + ")}> "@ + kids.code + "</span>"@,
            None => "<span class=\"inline-flex items-center px-1.5 rounded text-xs font-medium text-white\" style=format!(\"background-color: {}\", "@
                + color.code@ + ") > "@ + kids.code + "</span>"@,
        },
        None => "<span class=\"inline-flex items-center px-1.5 rounded text-xs font-medium bg-gray-600 text-white\"> "@
            + kids.code + "</span>"@,
    };
    Out { code, binds: kids.binds, next: kids.next }
}

/// Emits a badge.
pub fn emit_badge(el: &Element, bindings: &mut String, inside_for: bool, ids: &mut ExtractIds) -> (out: String)
    requires
        lp_all_ok(el.children@, false),
    ensures
        produced(lp_badge(*el, old(ids).next, inside_for), out@, old(bindings)@, final(bindings)@, final(ids).next),
    decreases el, 1int,
{
    let kids = emit_nodes(&el.children, bindings, inside_for, ids, false);
    let mut out = match find_arg_expr(el, "color") {
        Some(color) => match &color.bg_class {
            Some(cls) => {
                let mut o = String::from_str(
                    "<span class={concat!(\"inline-flex items-center px-1.5 rounded text-xs font-medium text-white \", ",
                );
                let lit = string_literal_of(cls.as_str());
                o.append(lit.as_str());
                o.append(")}> ");
                o
            },
            None => {
                let mut o = String::from_str(
                    "<span class=\"inline-flex items-center px-1.5 rounded text-xs font-medium text-white\" style=format!(\"background-color: {}\", ",
                );
                o.append(color.code.as_str());
                o.append(") > ");
                o
            },
        },
        None => String::from_str(
            "<span class=\"inline-flex items-center px-1.5 rounded text-xs font-medium bg-gray-600 text-white\"> ",
        ),
    };
    out.append(kids.as_str());
    out.append("</span>");
    out
}

/// The overflow class of a scroll area's `direction`.
pub open spec fn overflow_class(el: Element) -> Seq<char> {
    let direction = match arg_string(el.args@, "direction"@) {
        Some(d) => d@,
        None => "vertical"@,
    };
    if direction == "horizontal"@ {
        "overflow-x-auto"@
    } else if direction == "both"@ {
        "overflow-auto"@
    } else {
        "overflow-y-auto"@
    }
}

fn overflow_class_of(el: &Element) -> (r: &'static str)
    ensures
        r@ == overflow_class(*el),
{
    let direction = match find_arg_string(el, "direction") {
        Some(d) => d,
        None => String::from_str("vertical"),
    };
    if str_eq(direction.as_str(), "horizontal") {
        "overflow-x-auto"
    } else if str_eq(direction.as_str(), "both") {
        "overflow-auto"
    } else {
        "overflow-y-auto"
    }
}

/// The `class` attributes of a scroll area's `class` arguments: the user's
/// class followed by the overflow class.
pub open spec fn scroll_classes(args: Seq<Arg>, overflow: Seq<char>) -> Seq<char>
    decreases args.len(),
{
    if args.len() == 0 {
        Seq::empty()
    } else {
        scroll_classes(args.drop_last(), overflow) + if args.last().key@ == "class"@ {
            "class=format!(\"{} {}\", "@ + args.last().value.code@ + ", "@ + string_literal(overflow)
                + ") "@
        } else {
            Seq::empty()
        }
    }
}

/// A scroll area: a `div` that scrolls in the chosen direction.
pub open spec fn lp_scroll_area(el: Element, n: usize, inside_for: bool) -> Out
    decreases el, 1int,
{
    let overflow = overflow_class(el);
    let attrs = scroll_classes(el.args@, overflow);
    let kids = lp_nodes(el.children@, n, inside_for, false);
    Out {
        code: "<div "@ + (if attrs.len() == 0 {
            "class= "@ + string_literal(overflow) + " "@
        } else {
            attrs
        }) + "> "@ + kids.code + "</div>"@,
        binds: kids.binds,
        next: kids.next,
    }
}

/// Emits a scroll area.
pub fn emit_scroll_area(el: &Element, bindings: &mut String, inside_for: bool, ids: &mut ExtractIds) -> (out: String)
    requires
        lp_all_ok(el.children@, false),
    ensures
        produced(lp_scroll_area(*el, old(ids).next, inside_for), out@, old(bindings)@, final(bindings)@, final(ids).next),
    decreases el, 1int,
{
    let ghost n0 = ids.next;
    let overflow = overflow_class_of(el);
    let overflow_lit = string_literal_of(overflow);
    let mut attrs = String::new();
    let n = el.args.len();
    let mut i: usize = 0;
    while i < n
        invariant
            n == el.args@.len(),
            i <= n,
            overflow_lit@ == string_literal(overflow@),
            attrs@ == scroll_classes(el.args@.subrange(0, i as int), overflow@),
        decreases n - i,
    {
        let ghost after = el.args@.subrange(0, i + 1);
        assert(after.drop_last() =~= el.args@.subrange(0, i as int));
        assert(after.last() == el.args@[i as int]);
        if str_eq(el.args[i].key.as_str(), "class") {
            attrs.append("class=format!(\"{} {}\", ");
            attrs.append(el.args[i].value.code.as_str());
            attrs.append(", ");
            attrs.append(overflow_lit.as_str());
            attrs.append(") ");
        }
        i = i + 1;
        assert(attrs@ =~= scroll_classes(el.args@.subrange(0, i as int), overflow@));
    }
    assert(el.args@.subrange(0, n as int) =~= el.args@);
    let kids = emit_nodes(&el.children, bindings, inside_for, ids, false);
    let mut out = String::from_str("<div ");
    if attrs.as_str().is_empty() {
        out.append("class= ");
        out.append(overflow_lit.as_str());
        out.append(" ");
    } else {
        out.append(attrs.as_str());
    }
    out.append("> ");
    out.append(kids.as_str());
    out.append("</div>");
    proof {
        let spec_out = lp_scroll_area(*el, n0, inside_for);
        assert(out@ =~= spec_out.code);
    }
    out
}

/// The CSS style of a list's container.
pub open spec fn list_style(el: Element) -> Seq<char> {
    match arg_f32(el.args@, "estimated_height"@) {
        Some(h) => "overflow-y: auto; height: "@ + h.display@ + "px"@,
        None => "overflow-y: auto"@,
    }
}

/// A list: a scrolling `div` holding all child nodes; `estimated_height`
/// sets its height and does not limit which items are rendered.
pub open spec fn lp_virtual_list(el: Element, n: usize, inside_for: bool, sh: bool) -> Out
    decreases el, 1int,
{
    let kids = lp_nodes(el.children@, n, inside_for, sh);
    Out {
        code: "<div style= "@ + string_literal(list_style(el)) + "> "@ + kids.code + "</div>"@,
        binds: kids.binds,
        next: kids.next,
    }
}

/// Emits a list.
pub fn emit_virtual_list(el: &Element, bindings: &mut String, inside_for: bool, ids: &mut ExtractIds, sh: bool) -> (out: String)
    requires
        lp_all_ok(el.children@, sh),
    ensures
        produced(lp_virtual_list(*el, old(ids).next, inside_for, sh), out@, old(bindings)@, final(bindings)@, final(ids).next),
    decreases el, 1int,
{
    let style = match find_arg_f32(el, "estimated_height") {
        Some(h) => {
            let mut s = String::from_str("overflow-y: auto; height: ");
            s.append(h.display.as_str());
            s.append("px");
            s
        },
        None => String::from_str("overflow-y: auto"),
    };
    let kids = emit_nodes(&el.children, bindings, inside_for, ids, sh);
    let lit = string_literal_of(style.as_str());
    let mut out = String::from_str("<div style= ");
    out.append(lit.as_str());
    out.append("> ");
    out.append(kids.as_str());
    out.append("</div>");
    out
}

/// The attributes of a clipboard button: `class`, `id` and `disabled`
/// carry over.
pub open spec fn clip_attrs(args: Seq<Arg>) -> Seq<char>
    decreases args.len(),
{
    if args.len() == 0 {
        Seq::empty()
    } else {
        let a = args.last();
        clip_attrs(args.drop_last()) + if a.key@ == "class"@ {
            "class= "@ + a.value.code@ + " "@
        } else if a.key@ == "id"@ {
            "id= "@ + a.value.code@ + " "@
        } else if a.key@ == "disabled"@ {
            "disabled= "@ + a.value.code@ + " "@
        } else {
            Seq::empty()
        }
    }
}

/// A clipboard button: a button whose click handler, bound under a fresh
/// name, copies `copy_text`; without `copy_text`, a plain button.
pub open spec fn lp_clipboard_button(el: Element, n: usize, inside_for: bool, sh: bool) -> Out
    decreases el, 1int,
{
    match first_arg(el.args@, "copy_text"@) {
        Some(ct) => {
            let name = id_name("__quoin_clip_"@, n);
            let kids = lp_nodes(el.children@, next_id(n), inside_for, sh);
            let open = "< button "@ + clip_attrs(el.args@) + "on:click= "@ + name;
            Out {
                code: if el.children@.len() == 0 {
                    open + " />"@
                } else {
                    open + " > "@ + kids.code + "</ button >"@
                },
                binds: "let "@ + name + " = { let __ct: String = ( "@ + ct.code@
                    + " ).to_string(); move |_: leptos::ev::MouseEvent| { quoin::clipboard_write_text(&__ct); } }; "@
                    + kids.binds,
                next: kids.next,
            }
        },
        None => lp_html_tag(el, "button"@, n, inside_for, sh),
    }
}

/// Emits a clipboard button.
pub fn emit_clipboard_button(el: &Element, bindings: &mut String, inside_for: bool, ids: &mut ExtractIds, sh: bool) -> (out: String)
    requires
        lp_all_ok(el.children@, sh),
    ensures
        produced(lp_clipboard_button(*el, old(ids).next, inside_for, sh), out@, old(bindings)@, final(bindings)@, final(ids).next),
    decreases el, 1int,
{
    let ghost b0 = bindings@;
    let ghost n0 = ids.next;
    match find_arg_expr(el, "copy_text") {
        Some(ct) => {
            let clip_id = next_extract_id(ids);
            let name = make_id_name("__quoin_clip_", clip_id);
            bindings.append("let ");
            bindings.append(name.as_str());
            bindings.append(" = { let __ct: String = ( ");
            bindings.append(ct.code.as_str());
            bindings.append(
                " ).to_string(); move |_: leptos::ev::MouseEvent| { quoin::clipboard_write_text(&__ct); } }; ",
            );
            let mut out = String::from_str("< button ");
            let ghost start = out@;
            let n = el.args.len();
            let mut i: usize = 0;
            while i < n
                invariant
                    n == el.args@.len(),
                    i <= n,
                    out@ == start + clip_attrs(el.args@.subrange(0, i as int)),
                decreases n - i,
            {
                let ghost after = el.args@.subrange(0, i + 1);
                assert(after.drop_last() =~= el.args@.subrange(0, i as int));
                assert(after.last() == el.args@[i as int]);
                let k = el.args[i].key.as_str();
                if str_eq(k, "class") {
                    out.append("class= ");
                    out.append(el.args[i].value.code.as_str());
                    out.append(" ");
                } else if str_eq(k, "id") {
                    out.append("id= ");
                    out.append(el.args[i].value.code.as_str());
                    out.append(" ");
                } else if str_eq(k, "disabled") {
                    out.append("disabled= ");
                    out.append(el.args[i].value.code.as_str());
                    out.append(" ");
                }
                i = i + 1;
                assert(out@ =~= start + clip_attrs(el.args@.subrange(0, i as int)));
            }
            assert(el.args@.subrange(0, n as int) =~= el.args@);
            let ghost b1 = bindings@;
            let kids = emit_nodes(&el.children, bindings, inside_for, ids, sh);
            out.append("on:click= ");
            out.append(name.as_str());
            if el.children.len() == 0 {
                out.append(" />");
            } else {
                out.append(" > ");
                out.append(kids.as_str());
                out.append("</ button >");
            }
            proof {
                let o = lp_clipboard_button(*el, n0, inside_for, sh);
                assert(bindings@ =~= b0 + o.binds);
                assert(out@ =~= o.code);
            }
            out
        },
        None => emit_html_tag_inner(el, "button", bindings, inside_for, ids, sh),
    }
}

/// A button: a plain `button` tag, in a group-hover wrapper when it has a
/// string-literal `tooltip`.
pub open spec fn lp_button(el: Element, n: usize, inside_for: bool) -> Out
    decreases el, 1int,
{
    let inner = lp_html_tag(el, "button"@, n, inside_for, false);
    match arg_string(el.args@, "tooltip"@) {
        Some(text) => Out { code: hover_group(inner.code, text@), binds: inner.binds, next: inner.next },
        None => inner,
    }
}

/// Emits a button.
pub fn emit_button(el: &Element, bindings: &mut String, inside_for: bool, ids: &mut ExtractIds) -> (out: String)
    requires
        lp_all_ok(el.children@, false),
    ensures
        produced(lp_button(*el, old(ids).next, inside_for), out@, old(bindings)@, final(bindings)@, final(ids).next),
    decreases el, 1int,
{
    let tooltip_text = find_arg_string(el, "tooltip");
    let inner_button = emit_html_tag_inner(el, "button", bindings, inside_for, ids, false);
    match tooltip_text {
        Some(text) => emit_hover_group(inner_button.as_str(), text.as_str()),
        None => inner_button,
    }
}

/// A text input: a plain `input` tag.
pub open spec fn lp_input(el: Element, n: usize, inside_for: bool) -> Out
    decreases el, 1int,
{
    lp_html_tag(el, "input"@, n, inside_for, false)
}

/// Emits a text input.
pub fn emit_input(el: &Element, bindings: &mut String, inside_for: bool, ids: &mut ExtractIds) -> (out: String)
    requires
        lp_all_ok(el.children@, false),
    ensures
        produced(lp_input(*el, old(ids).next, inside_for), out@, old(bindings)@, final(bindings)@, final(ids).next),
    decreases el, 1int,
{
    emit_html_tag_inner(el, "input", bindings, inside_for, ids, false)
}

/// The class of an icon: the user's `class` followed by the icon size.
pub open spec fn icon_class(el: Element) -> Seq<char> {
    match first_arg(el.args@, "class"@) {
        Some(c) => "format!(\"{} w-4 h-4 inline-block\", "@ + c.code@ + ")"@,
        None => "\"w-4 h-4 inline-block\""@,
    }
}

/// An icon: the SVG of the named icon, a question mark for an unknown name,
/// or, without a name, the child nodes.
pub open spec fn lp_icon(el: Element, n: usize, inside_for: bool, sh: bool) -> Out
    decreases el, 1int,
{
    let kids = lp_nodes(el.children@, n, inside_for, sh);
    let head = "<span class= "@ + icon_class(el) + ">"@;
    let unknown = head + "\"\u{2753}\"</span>"@;
    let code = match arg_string(el.args@, "icon_name"@) {
        Some(_) => match first_arg(el.args@, "icon_name"@).unwrap().icon_svg {
            Some(svg) => head + " "@ + string_literal(svg@) + " </span>"@,
            None => unknown,
        },
        None => if el.children@.len() == 0 {
            unknown
        } else {
            head + " "@ + kids.code + "</span>"@
        },
    };
    Out { code, binds: kids.binds, next: kids.next }
}

/// Emits an icon.
pub fn emit_icon(el: &Element, bindings: &mut String, inside_for: bool, ids: &mut ExtractIds, sh: bool) -> (out: String)
    requires
        lp_all_ok(el.children@, sh),
    ensures
        produced(lp_icon(*el, old(ids).next, inside_for, sh), out@, old(bindings)@, final(bindings)@, final(ids).next),
    decreases el, 1int,
{
    let name = find_arg_string(el, "icon_name");
    let kids = emit_nodes(&el.children, bindings, inside_for, ids, sh);
    let mut out = String::from_str("<span class= ");
    match find_arg_expr(el, "class") {
        Some(c) => {
            out.append("format!(\"{} w-4 h-4 inline-block\", ");
            out.append(c.code.as_str());
            out.append(")");
        },
        None => {
            out.append("\"w-4 h-4 inline-block\"");
        },
    }
    out.append(">");
    match name {
        Some(_) => {
            let name_expr = find_arg_expr(el, "icon_name").unwrap();
            match &name_expr.icon_svg {
                Some(svg) => {
                    let lit = string_literal_of(svg.as_str());
                    out.append(" ");
                    out.append(lit.as_str());
                    out.append(" </span>");
                },
                None => {
                    out.append("\"\u{2753}\"</span>");
                },
            }
        },
        None => {
            if el.children.len() == 0 {
                out.append("\"\u{2753}\"</span>");
            } else {
                out.append(" ");
                out.append(kids.as_str());
                out.append("</span>");
            }
        },
    }
    proof {
        let o = lp_icon(*el, old(ids).next, inside_for, sh);
        assert(out@ =~= o.code);
    }
    out
}

} // verus!
