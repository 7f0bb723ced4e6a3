//! Data tables in GPUI: a header row of the columns' labels, sortable ones
//! calling `on_sort` with their key, and a row per item of `rows` with a
//! cell per column rendered by the column's `render` closure.

use vstd::prelude::*;
use crate::ast::{Element, Expr, RenderNode};
use crate::emit::common::{arg_f32, arg_string, arg_true, el_has_arg, find_arg_bool, find_arg_expr, find_arg_f32, find_arg_string, first_arg, has_arg, lemma_first_arg_some};
use crate::text::{joined, push_joined, str_eq, string_literal, string_literal_of, texts};
use super::handler::{gpui_handler, wrap_handler};

verus! {

/// Whether a child that is a `column` has a `render` argument.
pub open spec fn column_rendered(c: RenderNode) -> bool {
    match c {
        RenderNode::Element(e) => e.name@ == "column"@ ==> has_arg(e.args@, "render"@),
        _ => true,
    }
}

/// Whether every `column` child has a `render` argument.
pub open spec fn columns_rendered(cs: Seq<RenderNode>) -> bool {
    forall|i: int| 0 <= i < cs.len() ==> #[trigger] column_rendered(cs[i])
}

/// Whether every `column` child has a `render` argument.
pub fn columns_rendered_exec(cs: &Vec<RenderNode>) -> (r: bool)
    ensures
        r == columns_rendered(cs@),
{
    let mut i: usize = 0;
    while i < cs.len()
        invariant
            i <= cs@.len(),
            forall|j: int| 0 <= j < i ==> #[trigger] column_rendered(cs@[j]),
        decreases cs@.len() - i,
    {
        if let RenderNode::Element(e) = &cs[i] {
            if str_eq(e.name.as_str(), "column") && !el_has_arg(e, "render") {
                assert(!column_rendered(cs@[i as int]));
                return false;
            }
        }
        i = i + 1;
    }
    true
}

/// The width of a column's cells, when the column gives one.
pub open spec fn width_call(e: Element) -> Seq<char> {
    match arg_f32(e.args@, "width"@) {
        Some(w) => ".w(::gpui::px( "@ + w.token@ + " ))"@,
        None => Seq::empty(),
    }
}

/// The text of a column's string-literal argument, or nothing.
pub open spec fn column_text(e: Element, key: Seq<char>) -> Seq<char> {
    match arg_string(e.args@, key) {
        Some(s) => s@,
        None => Seq::empty(),
    }
}

/// The header cell of a column.  A `sortable` column gets a pointer
/// cursor and, when the table has `on_sort`, a hover background and a
/// mouse-down that calls `on_sort` with the column's `key` and `"asc"`.
pub open spec fn header_cell(e: Element, on_sort: Option<Expr>) -> Seq<char> {
    "::gpui::div().px(::gpui::px(12.0)).py(::gpui::px(8.0)).text_color(::gpui::rgb(0x6b7280)).font_weight(::gpui::FontWeight::MEDIUM).child( "@
        + string_literal(column_text(e, "label"@)) + " .to_string())"@ + width_call(e)
        + if arg_true(e.args@, "sortable"@) {
        match on_sort {
            Some(h) => ".cursor_pointer().hover(|s| s.bg(::gpui::rgb(0x374151))).on_mouse_down(::gpui::MouseButton::Left, { let __handler = ::std::rc::Rc::new( "@
                + gpui_handler(h) + " ); move |_, _, _| { __handler( "@ + string_literal(column_text(e, "key"@))
                + " , \"asc\"); } })"@,
            None => ".cursor_pointer()"@,
        }
    } else {
        Seq::empty()
    } + ".into_any_element()"@
}

/// The cell of a column in a row: the `render` closure applied to the row.
pub open spec fn row_cell(e: Element) -> Seq<char> {
    "::gpui::div().px(::gpui::px(12.0)).py(::gpui::px(8.0)).text_color(::gpui::rgb(0xffffff)).child(( "@
        + first_arg(e.args@, "render"@).unwrap().code@ + " )(&__row))"@ + width_call(e) + ".into_any_element()"@
}

/// The header cells (`header`) or the row cells of the `column` children,
/// in order.
pub open spec fn column_cells(cs: Seq<RenderNode>, header: bool, on_sort: Option<Expr>) -> Seq<Seq<char>>
    decreases cs.len(),
{
    if cs.len() == 0 {
        Seq::empty()
    } else {
        column_cells(cs.drop_last(), header, on_sort) + match cs.last() {
            RenderNode::Element(e) => if e.name@ == "column"@ {
                seq![
                    if header {
                        header_cell(e, on_sort)
                    } else {
                        row_cell(e)
                    },
                ]
            } else {
                Seq::empty()
            },
            _ => Seq::empty(),
        }
    }
}

/// The rows: a `flex` row of cells for each item, every other row shaded
/// when the table is `striped`.
pub open spec fn row_renderer(el: Element) -> Seq<char> {
    let cells = joined(column_cells(el.children@, false, None), ", "@);
    if arg_true(el.args@, "striped"@) {
        "__rows.iter().enumerate().map(|(__i, __row)| { let mut __row_el = ::gpui::div().flex().children(vec![ "@
            + cells
            + " ]); if __i % 2 == 1 { __row_el = __row_el.bg(::gpui::rgb(0x1a1a2e)); } __row_el.into_any_element() }).collect::<Vec<_>>()"@
    } else {
        "__rows.iter().map(|__row| { ::gpui::div().flex().children(vec![ "@ + cells
            + " ]).into_any_element() }).collect::<Vec<_>>()"@
    }
}

/// A data table; the element needs a `rows` argument and a `render`
/// argument on each column.
pub open spec fn gp_data_table(el: Element) -> Seq<char>
    decreases el, 0int,
{
    "{ let __rows = "@ + first_arg(el.args@, "rows"@).unwrap().code@
        + "; let __header = ::gpui::div().flex().children(vec![ "@ + joined(
        column_cells(el.children@, true, first_arg(el.args@, "on_sort"@)),
        ", "@,
    ) + " ]); let __row_elements: Vec<::gpui::AnyElement> = "@ + row_renderer(el)
        + "; ::gpui::div().flex_col().gap_1().size_full().child(__header).children(__row_elements) }"@
}

fn push_width_call(out: &mut String, e: &Element)
    ensures
        final(out)@ == old(out)@ + width_call(*e),
{
    match find_arg_f32(e, "width") {
        Some(w) => {
            out.append(".w(::gpui::px( ");
            out.append(w.token.as_str());
            out.append(" ))");
        },
        None => {},
    }
}

fn header_cell_text(e: &Element, on_sort: Option<&Expr>) -> (out: String)
    ensures
        out@ == header_cell(*e, match on_sort {
            Some(h) => Some(*h),
            None => None,
        }),
{
    let label = match find_arg_string(e, "label") {
        Some(l) => l,
        None => String::new(),
    };
    let key = match find_arg_string(e, "key") {
        Some(k) => k,
        None => String::new(),
    };
    let mut out = String::from_str(
        "::gpui::div().px(::gpui::px(12.0)).py(::gpui::px(8.0)).text_color(::gpui::rgb(0x6b7280)).font_weight(::gpui::FontWeight::MEDIUM).child( ",
    );
    out.append(string_literal_of(label.as_str()).as_str());
    out.append(" .to_string())");
    push_width_call(&mut out, e);
    if find_arg_bool(e, "sortable") {
        match on_sort {
            Some(h) => {
                out.append(
                    ".cursor_pointer().hover(|s| s.bg(::gpui::rgb(0x374151))).on_mouse_down(::gpui::MouseButton::Left, { let __handler = ::std::rc::Rc::new( ",
                );
                out.append(wrap_handler(h).as_str());
                out.append(" ); move |_, _, _| { __handler( ");
                out.append(string_literal_of(key.as_str()).as_str());
                out.append(" , \"asc\"); } })");
            },
            None => out.append(".cursor_pointer()"),
        }
    }
    out.append(".into_any_element()");
    out
}

fn row_cell_text(e: &Element) -> (out: String)
    requires
        has_arg(e.args@, "render"@),
    ensures
        out@ == row_cell(*e),
{
    proof { lemma_first_arg_some(e.args@, "render"@); }
    let render = find_arg_expr(e, "render").unwrap();
    let mut out = String::from_str(
        "::gpui::div().px(::gpui::px(12.0)).py(::gpui::px(8.0)).text_color(::gpui::rgb(0xffffff)).child(( ",
    );
    out.append(render.code.as_str());
    out.append(" )(&__row))");
    push_width_call(&mut out, e);
    out.append(".into_any_element()");
    out
}

/// The header cells or the row cells of the `column` children.
fn column_cell_texts(cs: &Vec<RenderNode>, header: bool, on_sort: Option<&Expr>) -> (r: Vec<String>)
    requires
        !header ==> columns_rendered(cs@),
    ensures
        texts(r@) == column_cells(cs@, header, match on_sort {
            Some(h) => Some(*h),
            None => None,
        }),
{
    let ghost sort = match on_sort {
        Some(h) => Some(*h),
        None => None,
    };
    let mut r: Vec<String> = Vec::new();
    let n = cs.len();
    let mut i: usize = 0;
    while i < n
        invariant
            n == cs@.len(),
            i <= n,
            !header ==> columns_rendered(cs@),
            sort == match on_sort {
                Some(h) => Some(*h),
                None => None::<Expr>,
            },
            texts(r@) == column_cells(cs@.subrange(0, i as int), header, sort),
        decreases n - i,
    {
        let ghost after = cs@.subrange(0, i + 1);
        assert(after.drop_last() =~= cs@.subrange(0, i as int));
        assert(after.last() == cs@[i as int]);
        let ghost before = r@;
        if let RenderNode::Element(e) = &cs[i] {
            if str_eq(e.name.as_str(), "column") {
                if header {
                    r.push(header_cell_text(e, on_sort));
                } else {
                    assert(column_rendered(cs@[i as int]));
                    r.push(row_cell_text(e));
                }
            }
        }
        assert(texts(r@) =~= column_cells(after, header, sort));
        i = i + 1;
    }
    assert(cs@.subrange(0, n as int) =~= cs@);
    r
}

/// Emits a data table.
pub fn emit_data_table(el: &Element) -> (out: String)
    requires
        has_arg(el.args@, "rows"@),
        columns_rendered(el.children@),
    ensures
        out@ == gp_data_table(*el),
    decreases el, 0int,
{
    proof { lemma_first_arg_some(el.args@, "rows"@); }
    let rows_expr = find_arg_expr(el, "rows").unwrap();
    let on_sort_expr = find_arg_expr(el, "on_sort");
    let striped = find_arg_bool(el, "striped");
    let headers = column_cell_texts(&el.children, true, on_sort_expr);
    let cells = column_cell_texts(&el.children, false, None);
    let mut out = String::from_str("{ let __rows = ");
    out.append(rows_expr.code.as_str());
    out.append("; let __header = ::gpui::div().flex().children(vec![ ");
    push_joined(&mut out, &headers, ", ");
    out.append(" ]); let __row_elements: Vec<::gpui::AnyElement> = ");
    if striped {
        out.append(
            "__rows.iter().enumerate().map(|(__i, __row)| { let mut __row_el = ::gpui::div().flex().children(vec![ ",
        );
        push_joined(&mut out, &cells, ", ");
        out.append(
            " ]); if __i % 2 == 1 { __row_el = __row_el.bg(::gpui::rgb(0x1a1a2e)); } __row_el.into_any_element() }).collect::<Vec<_>>()",
        );
    } else {
        out.append("__rows.iter().map(|__row| { ::gpui::div().flex().children(vec![ ");
        push_joined(&mut out, &cells, ", ");
        out.append(" ]).into_any_element() }).collect::<Vec<_>>()");
    }
    out.append("; ::gpui::div().flex_col().gap_1().size_full().child(__header).children(__row_elements) }");
    out
}

} // verus!
