//! Data tables in Leptos `view!` markup.

use vstd::prelude::*;
use crate::ast::{Element, RenderNode};
use crate::emit::common::{arg_true, find_arg_bool, find_arg_expr, first_arg};
use crate::text::{str_eq, string_literal, string_literal_of};
use super::shadcn::{emit_import, import};
use super::{ExtractIds, id_name, make_id_name, next_extract_id, next_id};

verus! {

/// The header cells, body cells and bindings of a table's columns, and the
/// counter afterwards.
pub struct Cols {
    pub heads: Seq<char>,
    pub cells: Seq<char>,
    pub binds: Seq<char>,
    pub next: usize,
}

/// `style=format!("width: {}px", <width>) ` for a column with a `width`.
pub open spec fn width_style(e: Element) -> Seq<char> {
    match first_arg(e.args@, "width"@) {
        Some(w) => "style=format!(\"width: {}px\", "@ + w.code@ + ") "@,
        None => Seq::empty(),
    }
}

/// The cells of one child: a `column` element yields a header cell with its
/// `label` (empty by default) and a body cell that applies its `render`
/// closure, bound under a fresh name, to the row. A `width` sets the cells'
/// width, except in library tables (`sh`).
pub open spec fn column_cols(c: RenderNode, n: usize, sh: bool) -> Cols {
    match c {
        RenderNode::Element(e) => if e.name@ == "column"@ {
            let label = match first_arg(e.args@, "label"@) {
                Some(l) => l.code@,
                None => "\"\""@,
            };
            let width = if sh {
                Seq::empty()
            } else {
                width_style(e)
            };
            let head = "<th class=\"px-3 py-2 text-gray-400 font-medium\" "@ + width + ">{ "@
                + label + " }</th> "@;
            match first_arg(e.args@, "render"@) {
                Some(rc) => {
                    let name = id_name("__quoin_col_"@, n);
                    Cols {
                        heads: head,
                        cells: "<td class=\"px-3 py-2 text-white\" "@ + width + ">{ (&* "@
                            + name + ")(&__row) }</td> "@,
                        binds: "let "@ + name + " = std::sync::Arc::new( "@ + rc.code@ + " ); "@,
                        next: next_id(n),
                    }
                },
                None => Cols {
                    heads: head,
                    cells: "<td class=\"px-3 py-2 text-white\"></td> "@,
                    binds: Seq::empty(),
                    next: n,
                },
            }
        } else {
            Cols { heads: Seq::empty(), cells: Seq::empty(), binds: Seq::empty(), next: n }
        },
        _ => Cols { heads: Seq::empty(), cells: Seq::empty(), binds: Seq::empty(), next: n },
    }
}

/// The cells of all columns, in order.
pub open spec fn columns_cols(cs: Seq<RenderNode>, n: usize, sh: bool) -> Cols
    decreases cs.len(),
{
    if cs.len() == 0 {
        Cols { heads: Seq::empty(), cells: Seq::empty(), binds: Seq::empty(), next: n }
    } else {
        let a = columns_cols(cs.drop_last(), n, sh);
        let b = column_cols(cs.last(), a.next, sh);
        Cols {
            heads: a.heads + b.heads,
            cells: a.cells + b.cells,
            binds: a.binds + b.binds,
            next: b.next,
        }
    }
}

/// A data table: a header row of the column labels and a body that maps
/// the cloned `rows` (none by default) to rows of cells.
pub open spec fn lp_data_table(el: Element, n: usize) -> super::Out {
    let c = columns_cols(el.children@, n, false);
    let rows = match first_arg(el.args@, "rows"@) {
        Some(r) => r.code@,
        None => "Vec::<()>::new()"@,
    };
    let striped = if arg_true(el.args@, "striped"@) {
        " table-striped"@
    } else {
        ""@
    };
    super::Out {
        code: "<table class={concat!(\"w-full\", "@ + string_literal(striped) + ")}> <thead><tr> "@
            + c.heads + "</tr></thead> <tbody> { let __rows = ( "@ + rows
            + " ).clone(); __rows.into_iter().map(|__row| { leptos::view! { <tr> "@ + c.cells
            + "</tr> } }).collect::<Vec<_>>() } </tbody> </table>"@,
        binds: c.binds,
        next: c.next,
    }
}

fn push_width_style(out: &mut String, e: &Element)
    ensures
        final(out)@ == old(out)@ + width_style(*e),
{
    match find_arg_expr(e, "width") {
        Some(w) => {
            out.append("style=format!(\"width: {}px\", ");
            out.append(w.code.as_str());
            out.append(") ");
        },
        None => {
            assert(final(out)@ =~= old(out)@ + Seq::<char>::empty());
        },
    }
}

fn push_column(heads: &mut String, cells: &mut String, bindings: &mut String, ids: &mut ExtractIds, c: &RenderNode, sh: bool)
    ensures
        final(heads)@ == old(heads)@ + column_cols(*c, old(ids).next, sh).heads,
        final(cells)@ == old(cells)@ + column_cols(*c, old(ids).next, sh).cells,
        final(bindings)@ == old(bindings)@ + column_cols(*c, old(ids).next, sh).binds,
        final(ids).next == column_cols(*c, old(ids).next, sh).next,
{
    if let RenderNode::Element(e) = c {
        if str_eq(e.name.as_str(), "column") {
            heads.append("<th class=\"px-3 py-2 text-gray-400 font-medium\" ");
            if !sh {
                push_width_style(heads, e);
            }
            heads.append(">{ ");
            match find_arg_expr(e, "label") {
                Some(l) => heads.append(l.code.as_str()),
                None => heads.append("\"\""),
            }
            heads.append(" }</th> ");
            match find_arg_expr(e, "render") {
                Some(rc) => {
                    let col_id = next_extract_id(ids);
                    let name = make_id_name("__quoin_col_", col_id);
                    bindings.append("let ");
                    bindings.append(name.as_str());
                    bindings.append(" = std::sync::Arc::new( ");
                    bindings.append(rc.code.as_str());
                    bindings.append(" ); ");
                    cells.append("<td class=\"px-3 py-2 text-white\" ");
                    if !sh {
                        push_width_style(cells, e);
                    }
                    cells.append(">{ (&* ");
                    cells.append(name.as_str());
                    cells.append(")(&__row) }</td> ");
                },
                None => {
                    cells.append("<td class=\"px-3 py-2 text-white\"></td> ");
                    assert(bindings@ =~= old(bindings)@ + Seq::<char>::empty());
                },
            }
            proof {
                let o = column_cols(*c, old(ids).next, sh);
                assert(heads@ =~= old(heads)@ + o.heads);
                assert(cells@ =~= old(cells)@ + o.cells);
                assert(bindings@ =~= old(bindings)@ + o.binds);
            }
            return;
        }
    }
    assert(heads@ =~= old(heads)@ + Seq::<char>::empty());
    assert(cells@ =~= old(cells)@ + Seq::<char>::empty());
    assert(bindings@ =~= old(bindings)@ + Seq::<char>::empty());
}

/// Emits the header and body cells of the columns, binding their render
/// closures.
fn emit_columns(el: &Element, heads: &mut String, cells: &mut String, bindings: &mut String, ids: &mut ExtractIds, sh: bool)
    ensures
        final(heads)@ == old(heads)@ + columns_cols(el.children@, old(ids).next, sh).heads,
        final(cells)@ == old(cells)@ + columns_cols(el.children@, old(ids).next, sh).cells,
        final(bindings)@ == old(bindings)@ + columns_cols(el.children@, old(ids).next, sh).binds,
        final(ids).next == columns_cols(el.children@, old(ids).next, sh).next,
{
    let ghost n0 = ids.next;
    let ghost b0 = bindings@;
    let ghost h0 = heads@;
    let ghost c0 = cells@;
    let n = el.children.len();
    let mut i: usize = 0;
    while i < n
        invariant
            n == el.children@.len(),
            i <= n,
            heads@ == h0 + columns_cols(el.children@.subrange(0, i as int), n0, sh).heads,
            cells@ == c0 + columns_cols(el.children@.subrange(0, i as int), n0, sh).cells,
            bindings@ == b0 + columns_cols(el.children@.subrange(0, i as int), n0, sh).binds,
            ids.next == columns_cols(el.children@.subrange(0, i as int), n0, sh).next,
        decreases n - i,
    {
        let ghost after = el.children@.subrange(0, i + 1);
        assert(after.drop_last() =~= el.children@.subrange(0, i as int));
        assert(after.last() == el.children@[i as int]);
        push_column(heads, cells, bindings, ids, &el.children[i], sh);
        i = i + 1;
        assert(heads@ =~= h0 + columns_cols(el.children@.subrange(0, i as int), n0, sh).heads);
        assert(cells@ =~= c0 + columns_cols(el.children@.subrange(0, i as int), n0, sh).cells);
        assert(bindings@ =~= b0 + columns_cols(el.children@.subrange(0, i as int), n0, sh).binds);
    }
    assert(el.children@.subrange(0, n as int) =~= el.children@);
}

/// Emits a data table.
pub fn emit_data_table(el: &Element, bindings: &mut String, ids: &mut ExtractIds) -> (out: String)
    ensures
        super::produced(lp_data_table(*el, old(ids).next), out@, old(bindings)@, final(bindings)@, final(ids).next),
{
    let ghost n0 = ids.next;
    let striped = find_arg_bool(el, "striped");
    let mut heads = String::new();
    let mut cells = String::new();
    emit_columns(el, &mut heads, &mut cells, bindings, ids, false);
    let striped_lit = if striped {
        string_literal_of(" table-striped")
    } else {
        string_literal_of("")
    };
    let mut out = String::from_str("<table class={concat!(\"w-full\", ");
    out.append(striped_lit.as_str());
    out.append(")}> <thead><tr> ");
    out.append(heads.as_str());
    out.append("</tr></thead> <tbody> { let __rows = ( ");
    match find_arg_expr(el, "rows") {
        Some(r) => out.append(r.code.as_str()),
        None => out.append("Vec::<()>::new()"),
    }
    out.append(" ).clone(); __rows.into_iter().map(|__row| { leptos::view! { <tr> ");
    out.append(cells.as_str());
    out.append("</tr> } }).collect::<Vec<_>>() } </tbody> </table>");
    proof {
        let o = lp_data_table(*el, n0);
        assert(out@ =~= o.code);
    }
    out
}

/// A library data table: the columns as in a plain table but without
/// widths, then the `Table` component, bound after them, with the class
/// `w-full`, and ` table-striped` when `striped`.
pub open spec fn lp_sh_data_table(el: Element, n: usize) -> super::Out {
    let c = columns_cols(el.children@, n, true);
    let rows = match first_arg(el.args@, "rows"@) {
        Some(r) => r.code@,
        None => "Vec::<()>::new()"@,
    };
    let class = if arg_true(el.args@, "striped"@) {
        "w-full table-striped"@
    } else {
        "w-full"@
    };
    let i = import("Table_"@, "leptos_shadcn_ui::Table"@, c.next);
    super::Out {
        code: "< "@ + i.code + " class= "@ + string_literal(class) + " > <thead><tr> "@ + c.heads
            + "</tr></thead> <tbody> { let __rows = ( "@ + rows
            + " ).clone(); __rows.into_iter().map(|__row| { leptos::view! { <tr> "@ + c.cells
            + "</tr> } }).collect::<Vec<_>>() } </tbody> </ "@ + i.code + " >"@,
        binds: c.binds + i.binds,
        next: i.next,
    }
}

/// Emits a library data table.
pub fn emit_sh_data_table(el: &Element, bindings: &mut String, ids: &mut ExtractIds) -> (out: String)
    ensures
        super::produced(lp_sh_data_table(*el, old(ids).next), out@, old(bindings)@, final(bindings)@, final(ids).next),
{
    let ghost n0 = ids.next;
    let ghost b0 = bindings@;
    let mut heads = String::new();
    let mut cells = String::new();
    emit_columns(el, &mut heads, &mut cells, bindings, ids, true);
    let class = if find_arg_bool(el, "striped") {
        "w-full table-striped"
    } else {
        "w-full"
    };
    let tag = emit_import("Table_", "leptos_shadcn_ui::Table", bindings, ids);
    let mut out = String::from_str("< ");
    out.append(tag.as_str());
    out.append(" class= ");
    out.append(string_literal_of(class).as_str());
    out.append(" > <thead><tr> ");
    out.append(heads.as_str());
    out.append("</tr></thead> <tbody> { let __rows = ( ");
    match find_arg_expr(el, "rows") {
        Some(r) => out.append(r.code.as_str()),
        None => out.append("Vec::<()>::new()"),
    }
    out.append(" ).clone(); __rows.into_iter().map(|__row| { leptos::view! { <tr> ");
    out.append(cells.as_str());
    out.append("</tr> } }).collect::<Vec<_>>() } </tbody> </ ");
    out.append(tag.as_str());
    out.append(" >");
    proof {
        let o = lp_sh_data_table(*el, n0);
        assert(bindings@ =~= b0 + o.binds);
        assert(out@ =~= o.code);
    }
    out
}

} // verus!
