//! Tab bars in GPUI: a row of labels, the active one white, each calling
//! the `on_click` handler with its index when pressed.

use vstd::prelude::*;
use crate::ast::{Element, RenderNode};
use crate::emit::common::{arg_string, el_has_arg, find_arg_expr, find_arg_string, first_arg, has_arg, lemma_first_arg_some};
use crate::text::{joined, push_joined, str_eq, string_literal, string_literal_of, texts};

verus! {

/// Whether a child that is a `tab` has an `index`.
pub open spec fn tab_indexed(c: RenderNode) -> bool {
    match c {
        RenderNode::Element(e) => e.name@ == "tab"@ ==> has_arg(e.args@, "index"@),
        _ => true,
    }
}

/// Whether every `tab` child has an `index`.
pub open spec fn tabs_indexed(cs: Seq<RenderNode>) -> bool {
    forall|i: int| 0 <= i < cs.len() ==> #[trigger] tab_indexed(cs[i])
}

/// Whether every `tab` child has an `index`.
pub fn tabs_indexed_exec(cs: &Vec<RenderNode>) -> (r: bool)
    ensures
        r == tabs_indexed(cs@),
{
    let mut i: usize = 0;
    while i < cs.len()
        invariant
            i <= cs@.len(),
            forall|j: int| 0 <= j < i ==> #[trigger] tab_indexed(cs@[j]),
        decreases cs@.len() - i,
    {
        if let RenderNode::Element(e) = &cs[i] {
            if str_eq(e.name.as_str(), "tab") && !el_has_arg(e, "index") {
                assert(!tab_indexed(cs@[i as int]));
                return false;
            }
        }
        i = i + 1;
    }
    true
}

/// The label entry of a `tab` child: its index and its string-literal
/// label, or an empty label.
pub open spec fn tab_label(c: RenderNode) -> Option<Seq<char>> {
    match c {
        RenderNode::Element(e) => if e.name@ == "tab"@ {
            Some(
                "( "@ + first_arg(e.args@, "index"@).unwrap().code@ + " , "@ + string_literal(
                    match arg_string(e.args@, "label"@) {
                        Some(l) => l@,
                        None => Seq::empty(),
                    },
                ) + " .to_string() )"@,
            )
        } else {
            None
        },
        _ => None,
    }
}

/// The label entries of the `tab` children, in order.
pub open spec fn tab_labels(cs: Seq<RenderNode>) -> Seq<Seq<char>>
    decreases cs.len(),
{
    if cs.len() == 0 {
        Seq::empty()
    } else {
        tab_labels(cs.drop_last()) + match tab_label(cs.last()) {
            Some(x) => seq![x],
            None => Seq::empty(),
        }
    }
}

/// A tab bar; the element needs an `active` and an `on_click` argument.
pub open spec fn gp_tabs(el: Element) -> Seq<char>
    decreases el, 0int,
{
    "{ let __active = "@ + first_arg(el.args@, "active"@).unwrap().code@
        + "; let __on_click = ::std::rc::Rc::new( "@ + first_arg(el.args@, "on_click"@).unwrap().moved@
        + " ); let __labels: Vec<(usize, String)> = vec![ "@ + joined(tab_labels(el.children@), ", "@)
        + " ]; let __tab_elements: Vec<::gpui::AnyElement> = __labels.iter().map(|(idx, label)| { let __is_active = *idx == __active; let mut __el = ::gpui::div().px(::gpui::px(16.0)).py(::gpui::px(8.0)).cursor_pointer().child(label.clone()); if __is_active { __el = __el.text_color(::gpui::white()); } else { __el = __el.text_color(::gpui::rgb(0x9ca3af)); } let __idx = *idx; let __tab_on_click = __on_click.clone(); __el.on_mouse_down(::gpui::MouseButton::Left, move |_, _, _| { __tab_on_click(__idx) } ).into_any_element() }).collect(); ::gpui::div().flex().children(__tab_elements) }"@
}

/// Emits a tab bar.
pub fn emit_tabs(el: &Element) -> (out: String)
    requires
        has_arg(el.args@, "active"@),
        has_arg(el.args@, "on_click"@),
        tabs_indexed(el.children@),
    ensures
        out@ == gp_tabs(*el),
    decreases el, 0int,
{
    proof {
        lemma_first_arg_some(el.args@, "active"@);
        lemma_first_arg_some(el.args@, "on_click"@);
    }
    let active_expr = find_arg_expr(el, "active").unwrap();
    let on_click_expr = find_arg_expr(el, "on_click").unwrap();
    let mut labels: Vec<String> = Vec::new();
    let n = el.children.len();
    let mut i: usize = 0;
    while i < n
        invariant
            n == el.children@.len(),
            i <= n,
            tabs_indexed(el.children@),
            texts(labels@) == tab_labels(el.children@.subrange(0, i as int)),
        decreases n - i,
    {
        let ghost after = el.children@.subrange(0, i + 1);
        assert(after.drop_last() =~= el.children@.subrange(0, i as int));
        assert(after.last() == el.children@[i as int]);
        let ghost before = labels@;
        if let RenderNode::Element(e) = &el.children[i] {
            if str_eq(e.name.as_str(), "tab") {
                assert(tab_indexed(el.children@[i as int]));
                proof { lemma_first_arg_some(e.args@, "index"@); }
                let label = match find_arg_string(e, "label") {
                    Some(l) => l,
                    None => String::new(),
                };
                let index = find_arg_expr(e, "index").unwrap();
                let mut entry = String::from_str("( ");
                entry.append(index.code.as_str());
                entry.append(" , ");
                entry.append(string_literal_of(label.as_str()).as_str());
                entry.append(" .to_string() )");
                labels.push(entry);
            }
        }
        assert(texts(labels@) =~= texts(before) + match tab_label(el.children@[i as int]) {
            Some(x) => seq![x],
            None => Seq::empty(),
        });
        i = i + 1;
    }
    assert(el.children@.subrange(0, n as int) =~= el.children@);
    let mut out = String::from_str("{ let __active = ");
    out.append(active_expr.code.as_str());
    out.append("; let __on_click = ::std::rc::Rc::new( ");
    out.append(on_click_expr.moved.as_str());
    out.append(" ); let __labels: Vec<(usize, String)> = vec![ ");
    push_joined(&mut out, &labels, ", ");
    out.append(
        " ]; let __tab_elements: Vec<::gpui::AnyElement> = __labels.iter().map(|(idx, label)| { let __is_active = *idx == __active; let mut __el = ::gpui::div().px(::gpui::px(16.0)).py(::gpui::px(8.0)).cursor_pointer().child(label.clone()); if __is_active { __el = __el.text_color(::gpui::white()); } else { __el = __el.text_color(::gpui::rgb(0x9ca3af)); } let __idx = *idx; let __tab_on_click = __on_click.clone(); __el.on_mouse_down(::gpui::MouseButton::Left, move |_, _, _| { __tab_on_click(__idx) } ).into_any_element() }).collect(); ::gpui::div().flex().children(__tab_elements) }",
    );
    out
}

} // verus!
