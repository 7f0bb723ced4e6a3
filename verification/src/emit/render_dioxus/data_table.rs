//! Data tables in Dioxus RSX.

use vstd::prelude::*;
use crate::ast::{Element, RenderNode};
use crate::emit::common::{find_arg_expr, first_arg, has_arg, lemma_first_arg_some};
use crate::text::str_eq;

verus! {

/// Whether a child node is a `column` element.
pub open spec fn is_column(c: RenderNode) -> bool {
    c matches RenderNode::Element(e) && e.name@ == "column"@
}

/// Whether a `column` child has a `label` and a `render` argument.
pub open spec fn column_complete(c: RenderNode) -> bool {
    match c {
        RenderNode::Element(e) => e.name@ == "column"@ ==> has_arg(e.args@, "label"@) && has_arg(
            e.args@,
            "render"@,
        ),
        _ => true,
    }
}

/// Whether every `column` child has a `label` and a `render` argument.
pub open spec fn columns_complete(cs: Seq<RenderNode>) -> bool {
    forall|i: int| 0 <= i < cs.len() ==> #[trigger] column_complete(cs[i])
}

/// The header cell of a column: `th { <label> }`.
pub open spec fn header_cell(c: RenderNode) -> Seq<char> {
    match c {
        RenderNode::Element(e) => if e.name@ == "column"@ {
            "th { "@ + first_arg(e.args@, "label"@).unwrap().code@ + " } "@
        } else {
            Seq::empty()
        },
        _ => Seq::empty(),
    }
}

/// The body cell of a column: its `render` closure applied to the row.
pub open spec fn row_cell(c: RenderNode) -> Seq<char> {
    match c {
        RenderNode::Element(e) => if e.name@ == "column"@ {
            "td { { ( "@ + first_arg(e.args@, "render"@).unwrap().code@ + " )(&__row) } } "@
        } else {
            Seq::empty()
        },
        _ => Seq::empty(),
    }
}

/// The header cells of the columns, in order.
pub open spec fn header_cells(cs: Seq<RenderNode>) -> Seq<char>
    decreases cs.len(),
{
    if cs.len() == 0 {
        Seq::empty()
    } else {
        header_cells(cs.drop_last()) + header_cell(cs.last())
    }
}

/// The body cells of the columns, in order.
pub open spec fn row_cells(cs: Seq<RenderNode>) -> Seq<char>
    decreases cs.len(),
{
    if cs.len() == 0 {
        Seq::empty()
    } else {
        row_cells(cs.drop_last()) + row_cell(cs.last())
    }
}

/// A data table: one header row of column labels, then one row per item of
/// `rows`.
pub open spec fn data_table(el: Element) -> Seq<char> {
    "table { thead { tr { "@ + header_cells(el.children@) + "} } tbody { for __row in "@
        + first_arg(el.args@, "rows"@).unwrap().code@ + " { tr { "@ + row_cells(el.children@)
        + "} } } }"@
}

fn push_cells(out: &mut String, el: &Element, header: bool)
    requires
        columns_complete(el.children@),
    ensures
        final(out)@ == old(out)@ + if header {
            header_cells(el.children@)
        } else {
            row_cells(el.children@)
        },
{
    let ghost start = out@;
    let n = el.children.len();
    let mut i: usize = 0;
    while i < n
        invariant
            n == el.children@.len(),
            i <= n,
            columns_complete(el.children@),
            out@ == start + if header {
                header_cells(el.children@.subrange(0, i as int))
            } else {
                row_cells(el.children@.subrange(0, i as int))
            },
        decreases n - i,
    {
        let ghost after = el.children@.subrange(0, i + 1);
        assert(after.drop_last() =~= el.children@.subrange(0, i as int));
        assert(after.last() == el.children@[i as int]);
        let ghost c = el.children@[i as int];
        if let RenderNode::Element(e) = &el.children[i] {
            if str_eq(e.name.as_str(), "column") {
                proof {
                    assert(column_complete(c));
                    lemma_first_arg_some(e.args@, "label"@);
                    lemma_first_arg_some(e.args@, "render"@);
                }
                if header {
                    let label = find_arg_expr(e, "label").unwrap();
                    out.append("th { ");
                    out.append(label.code.as_str());
                    out.append(" } ");
                } else {
                    let render = find_arg_expr(e, "render").unwrap();
                    out.append("td { { ( ");
                    out.append(render.code.as_str());
                    out.append(" )(&__row) } } ");
                }
            }
        }
        i = i + 1;
        assert(out@ =~= start + if header {
            header_cells(el.children@.subrange(0, i as int))
        } else {
            row_cells(el.children@.subrange(0, i as int))
        });
    }
    assert(el.children@.subrange(0, n as int) =~= el.children@);
}

/// Emits a data table; it needs a `rows` argument, and each column a
/// `label` and a `render` argument.
pub fn emit_data_table(el: &Element) -> (out: String)
    requires
        has_arg(el.args@, "rows"@),
        columns_complete(el.children@),
    ensures
        out@ == data_table(*el),
{
    proof { lemma_first_arg_some(el.args@, "rows"@); }
    let rows = find_arg_expr(el, "rows").unwrap();
    let mut out = String::from_str("table { thead { tr { ");
    push_cells(&mut out, el, true);
    out.append("} } tbody { for __row in ");
    out.append(rows.code.as_str());
    out.append(" { tr { ");
    push_cells(&mut out, el, false);
    out.append("} } } }");
    out
}

} // verus!
