//! Reading the arguments of an element, shared by the render emitters.

use vstd::prelude::*;
use crate::ast::{Arg, Element, Expr, F32Text, Form, Lit, RenderNode, same_expr};
use crate::text::{copy_string, str_eq};

verus! {

/// The value of the first argument of `args` whose key is `key`.
pub open spec fn first_arg(args: Seq<Arg>, key: Seq<char>) -> Option<Expr>
    decreases args.len(),
{
    if args.len() == 0 {
        None
    } else if args[0].key@ == key {
        Some(args[0].value)
    } else {
        first_arg(args.drop_first(), key)
    }
}

/// The string value of `e` when it is a string literal.
pub open spec fn str_value(e: Expr) -> Option<String> {
    match e.form {
        Form::Lit(Lit::Str(s)) => Some(s),
        _ => None,
    }
}

/// The string value of the first argument with key `key`, when that
/// argument is a string literal.
pub open spec fn arg_string(args: Seq<Arg>, key: Seq<char>) -> Option<String> {
    match first_arg(args, key) {
        Some(e) => str_value(e),
        None => None,
    }
}

/// The `f32` value of the first argument with key `key`, when that argument
/// is a numeric literal that reads as an `f32`.
pub open spec fn arg_f32(args: Seq<Arg>, key: Seq<char>) -> Option<F32Text> {
    match first_arg(args, key) {
        Some(e) => match e.form {
            Form::Lit(Lit::Float(v)) => v,
            Form::Lit(Lit::Int(v)) => v,
            _ => None,
        },
        None => None,
    }
}

/// Whether some argument with key `key` is the literal `true`.
pub open spec fn arg_true(args: Seq<Arg>, key: Seq<char>) -> bool {
    exists|i: int|
        0 <= i < args.len() && (#[trigger] args[i]).key@ == key && args[i].value.form
            == Form::Lit(Lit::Bool(true))
}

/// The first argument of the element with the given key.
pub fn find_arg_expr<'a>(el: &'a Element, key: &str) -> (r: Option<&'a Expr>)
    ensures
        match r {
            Some(e) => first_arg(el.args@, key@) == Some(*e),
            None => first_arg(el.args@, key@) is None,
        },
{
    let n = el.args.len();
    let mut i: usize = 0;
    assert(el.args@.subrange(0, n as int) =~= el.args@);
    while i < n
        invariant
            n == el.args@.len(),
            i <= n,
            first_arg(el.args@, key@) == first_arg(el.args@.subrange(i as int, n as int), key@),
        decreases n - i,
    {
        let ghost rest = el.args@.subrange(i as int, n as int);
        assert(rest[0] == el.args@[i as int]);
        if str_eq(el.args[i].key.as_str(), key) {
            return Some(&el.args[i].value);
        }
        assert(rest.drop_first() =~= el.args@.subrange(i + 1, n as int));
        i = i + 1;
    }
    None
}

/// Extract a string argument from an element's argument list: the value of
/// the first argument with the key, when it is a string literal.
pub fn find_arg_string(el: &Element, key: &str) -> (r: Option<String>)
    ensures
        r == arg_string(el.args@, key@),
{
    match find_arg_expr(el, key) {
        Some(e) => match &e.form {
            Form::Lit(Lit::Str(s)) => Some(copy_string(s)),
            _ => None,
        },
        None => None,
    }
}

/// Extract a floating-point argument from an element's argument list: the
/// first argument with the key, when it is a float or integer literal that
/// reads as an `f32`.
pub fn find_arg_f32(el: &Element, key: &str) -> (r: Option<F32Text>)
    ensures
        r == arg_f32(el.args@, key@),
{
    match find_arg_expr(el, key) {
        Some(e) => match &e.form {
            Form::Lit(Lit::Float(v)) => crate::ast::copy_opt_f32(v),
            Form::Lit(Lit::Int(v)) => crate::ast::copy_opt_f32(v),
            _ => None,
        },
        None => None,
    }
}

/// Extract a boolean argument from an element's argument list: whether some
/// argument with the key is the literal `true`.
pub fn find_arg_bool(el: &Element, key: &str) -> (r: bool)
    ensures
        r == arg_true(el.args@, key@),
{
    let n = el.args.len();
    let mut i: usize = 0;
    while i < n
        invariant
            n == el.args@.len(),
            i <= n,
            forall|j: int|
                0 <= j < i ==> !((#[trigger] el.args@[j]).key@ == key@ && el.args@[j].value.form
                    == Form::Lit(Lit::Bool(true))),
        decreases n - i,
    {
        if str_eq(el.args[i].key.as_str(), key) {
            if let Form::Lit(Lit::Bool(true)) = &el.args[i].value.form {
                return true;
            }
        }
        i = i + 1;
    }
    false
}

/// Description of a single tab inside a `tabs` container.
pub struct TabDefinition {
    pub index: Expr,
    pub label: String,
}

/// The tab that a child node defines: an element named `tab` with an
/// `index` argument and a string-literal `label` argument.
pub open spec fn tab_of(c: RenderNode) -> Option<(Expr, String)> {
    match c {
        RenderNode::Element(e) => if e.name@ == "tab"@ {
            match (first_arg(e.args@, "index"@), arg_string(e.args@, "label"@)) {
                (Some(i), Some(l)) => Some((i, l)),
                _ => None,
            }
        } else {
            None
        },
        _ => None,
    }
}

/// The tabs that the nodes define, in order.
pub open spec fn tabs_of(cs: Seq<RenderNode>) -> Seq<(Expr, String)>
    decreases cs.len(),
{
    if cs.len() == 0 {
        Seq::empty()
    } else {
        tabs_of(cs.drop_last()) + match tab_of(cs.last()) {
            Some(t) => seq![t],
            None => Seq::empty(),
        }
    }
}

/// Extract tab definitions from children of a `tabs` element.
pub fn extract_tab_children(el: &Element) -> (r: Vec<TabDefinition>)
    ensures
        r@.len() == tabs_of(el.children@).len(),
        forall|i: int|
            0 <= i < r@.len() ==> same_expr(#[trigger] r@[i].index, tabs_of(el.children@)[i].0)
                && r@[i].label == tabs_of(el.children@)[i].1,
{
    let mut r: Vec<TabDefinition> = Vec::new();
    let n = el.children.len();
    let mut i: usize = 0;
    while i < n
        invariant
            n == el.children@.len(),
            i <= n,
            r@.len() == tabs_of(el.children@.subrange(0, i as int)).len(),
            forall|j: int|
                0 <= j < r@.len() ==> same_expr(#[trigger] r@[j].index, tabs_of(el.children@.subrange(0, i as int))[j].0)
                    && r@[j].label == tabs_of(el.children@.subrange(0, i as int))[j].1,
        decreases n - i,
    {
        let ghost before = el.children@.subrange(0, i as int);
        let ghost after = el.children@.subrange(0, i + 1);
        assert(after.drop_last() =~= before);
        assert(after.last() == el.children@[i as int]);
        if let RenderNode::Element(e) = &el.children[i] {
            if str_eq(e.name.as_str(), "tab") {
                match find_arg_expr(e, "index") {
                    Some(index) => {
                        match find_arg_string(e, "label") {
                            Some(label) => {
                                r.push(TabDefinition { index: index.copy(), label });
                            },
                            None => {},
                        }
                    },
                    None => {},
                }
            }
        }
        i = i + 1;
    }
    assert(el.children@.subrange(0, n as int) =~= el.children@);
    r
}

/// `let x = x.clone();` for each identifier `x` of `ids`, so that a `move`
/// closure captures clones.
pub open spec fn clone_shadows(ids: Seq<String>) -> Seq<char>
    decreases ids.len(),
{
    if ids.len() == 0 {
        Seq::empty()
    } else {
        clone_shadows(ids.drop_last()) + "let "@ + ids.last()@ + " = "@ + ids.last()@ + ".clone(); "@
    }
}

/// Appends `let x = x.clone();` to `out` for each identifier `x` of `ids`.
pub fn push_clone_shadows(out: &mut String, ids: &Vec<String>)
    ensures
        final(out)@ == old(out)@ + clone_shadows(ids@),
{
    let ghost start = out@;
    let mut i: usize = 0;
    while i < ids.len()
        invariant
            i <= ids@.len(),
            out@ == start + clone_shadows(ids@.subrange(0, i as int)),
        decreases ids@.len() - i,
    {
        out.append("let ");
        out.append(ids[i].as_str());
        out.append(" = ");
        out.append(ids[i].as_str());
        out.append(".clone(); ");
        proof {
            assert(ids@.subrange(0, i + 1).drop_last() =~= ids@.subrange(0, i as int));
        }
        i = i + 1;
        assert(out@ =~= start + clone_shadows(ids@.subrange(0, i as int)));
    }
    assert(ids@.subrange(0, ids@.len() as int) =~= ids@);
}

/// Whether some argument of `args` has the key `key`.
pub open spec fn has_arg(args: Seq<Arg>, key: Seq<char>) -> bool {
    exists|i: int| 0 <= i < args.len() && (#[trigger] args[i]).key@ == key
}

/// Whether the element has an argument with the key.
pub fn el_has_arg(el: &Element, key: &str) -> (r: bool)
    ensures
        r == has_arg(el.args@, key@),
{
    let n = el.args.len();
    let mut i: usize = 0;
    while i < n
        invariant
            n == el.args@.len(),
            i <= n,
            forall|j: int| 0 <= j < i ==> (#[trigger] el.args@[j]).key@ != key@,
        decreases n - i,
    {
        if str_eq(el.args[i].key.as_str(), key) {
            return true;
        }
        i = i + 1;
    }
    false
}

/// Whether `first_arg` finds an argument exactly when one has the key.
pub proof fn lemma_first_arg_some(args: Seq<Arg>, key: Seq<char>)
    ensures
        first_arg(args, key) is Some <==> has_arg(args, key),
    decreases args.len(),
{
    if args.len() > 0 {
        lemma_first_arg_some(args.drop_first(), key);
        if has_arg(args, key) && args[0].key@ != key {
            let i = choose|i: int| 0 <= i < args.len() && (#[trigger] args[i]).key@ == key;
            assert(args.drop_first()[i - 1] == args[i]);
        }
        if has_arg(args.drop_first(), key) {
            let i = choose|i: int| 0 <= i < args.drop_first().len() && (#[trigger] args.drop_first()[i]).key@ == key;
            assert(args[i + 1] == args.drop_first()[i]);
        }
    }
}

/// The identifiers of the ident patterns among `params`, in order.
pub open spec fn ident_params(params: Seq<Option<String>>) -> Seq<String>
    decreases params.len(),
{
    if params.len() == 0 {
        Seq::empty()
    } else {
        ident_params(params.drop_last()) + match params.last() {
            Some(id) => seq![id],
            None => Seq::empty(),
        }
    }
}

/// The identifiers that a closure names as its parameters.
pub open spec fn closure_params(e: Expr) -> Seq<String> {
    match e.form {
        Form::Closure(params) => ident_params(params@),
        _ => Seq::empty(),
    }
}

/// The parameter identifiers of a closure expression.
pub fn closure_param_idents(e: &Expr) -> (r: Vec<String>)
    ensures
        r@ == closure_params(*e),
{
    let mut r: Vec<String> = Vec::new();
    match &e.form {
        Form::Closure(params) => {
            let mut i: usize = 0;
            while i < params.len()
                invariant
                    i <= params@.len(),
                    r@ == ident_params(params@.subrange(0, i as int)),
                decreases params@.len() - i,
            {
                let ghost after = params@.subrange(0, i + 1);
                assert(after.drop_last() =~= params@.subrange(0, i as int));
                match &params[i] {
                    Some(id) => r.push(copy_string(id)),
                    None => {},
                }
                i = i + 1;
                assert(r@ =~= ident_params(params@.subrange(0, i as int)));
            }
            assert(params@.subrange(0, params@.len() as int) =~= params@);
        },
        _ => {},
    }
    r
}

/// The identifiers of `ids` that are not among `exclude`, in order.
pub open spec fn without(ids: Seq<String>, exclude: Seq<String>) -> Seq<String>
    decreases ids.len(),
{
    if ids.len() == 0 {
        Seq::empty()
    } else {
        without(ids.drop_last(), exclude) + if has_text(exclude, ids.last()@) {
            Seq::empty()
        } else {
            seq![ids.last()]
        }
    }
}

/// Whether some string of `v` has the text `s`.
pub open spec fn has_text(v: Seq<String>, s: Seq<char>) -> bool {
    exists|j: int| 0 <= j < v.len() && (#[trigger] v[j])@ == s
}

/// Whether some string of `v` has the text of `s`.
pub fn contains_string(v: &Vec<String>, s: &String) -> (r: bool)
    ensures
        r == has_text(v@, s@),
{
    let mut i: usize = 0;
    while i < v.len()
        invariant
            i <= v@.len(),
            forall|j: int| 0 <= j < i ==> (#[trigger] v@[j])@ != s@,
        decreases v@.len() - i,
    {
        if v[i] == *s {
            assert(v@[i as int]@ == s@);
            return true;
        }
        i = i + 1;
    }
    false
}

/// The identifiers of `ids` that are not among `exclude`.
pub fn strings_without(ids: &Vec<String>, exclude: &Vec<String>) -> (r: Vec<String>)
    ensures
        r@ == without(ids@, exclude@),
{
    let mut r: Vec<String> = Vec::new();
    let mut i: usize = 0;
    while i < ids.len()
        invariant
            i <= ids@.len(),
            r@ == without(ids@.subrange(0, i as int), exclude@),
        decreases ids@.len() - i,
    {
        let ghost after = ids@.subrange(0, i + 1);
        assert(after.drop_last() =~= ids@.subrange(0, i as int));
        if !contains_string(exclude, &ids[i]) {
            r.push(copy_string(&ids[i]));
        }
        i = i + 1;
        assert(r@ =~= without(ids@.subrange(0, i as int), exclude@));
    }
    assert(ids@.subrange(0, ids@.len() as int) =~= ids@);
    r
}

/// `let p = <index>;` for each parameter `p`.
pub open spec fn param_bindings(params: Seq<String>, index: Seq<char>) -> Seq<char>
    decreases params.len(),
{
    if params.len() == 0 {
        Seq::empty()
    } else {
        param_bindings(params.drop_last(), index) + "let "@ + params.last()@ + " = "@ + index
            + "; "@
    }
}

/// Appends `let p = <index>;` for each parameter `p`.
pub fn push_param_bindings(out: &mut String, params: &Vec<String>, index: &str)
    ensures
        final(out)@ == old(out)@ + param_bindings(params@, index@),
{
    let ghost start = out@;
    let mut i: usize = 0;
    while i < params.len()
        invariant
            i <= params@.len(),
            out@ == start + param_bindings(params@.subrange(0, i as int), index@),
        decreases params@.len() - i,
    {
        let ghost after = params@.subrange(0, i + 1);
        assert(after.drop_last() =~= params@.subrange(0, i as int));
        out.append("let ");
        out.append(params[i].as_str());
        out.append(" = ");
        out.append(index);
        out.append("; ");
        i = i + 1;
        assert(out@ =~= start + param_bindings(params@.subrange(0, i as int), index@));
    }
    assert(params@.subrange(0, params@.len() as int) =~= params@);
}

/// The parameters one after the other, as the arguments of the call.
pub open spec fn call_args(params: Seq<String>) -> Seq<char>
    decreases params.len(),
{
    if params.len() == 0 {
        Seq::empty()
    } else {
        call_args(params.drop_last()) + params.last()@ + " "@
    }
}

/// Appends the parameters one after the other.
pub fn push_call_args(out: &mut String, params: &Vec<String>)
    ensures
        final(out)@ == old(out)@ + call_args(params@),
{
    let ghost start = out@;
    let mut i: usize = 0;
    while i < params.len()
        invariant
            i <= params@.len(),
            out@ == start + call_args(params@.subrange(0, i as int)),
        decreases params@.len() - i,
    {
        let ghost after = params@.subrange(0, i + 1);
        assert(after.drop_last() =~= params@.subrange(0, i as int));
        out.append(params[i].as_str());
        out.append(" ");
        i = i + 1;
        assert(out@ =~= start + call_args(params@.subrange(0, i as int)));
    }
    assert(params@.subrange(0, params@.len() as int) =~= params@);
}

} // verus!
