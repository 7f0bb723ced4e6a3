//! The render tree of `quoin_render!` and the pieces of macro input that the
//! emitters read.
//!
//! Every piece of Rust code of the macro input is held as its source text;
//! what the emitters need to know about an expression beyond its text
//! (which literal it is, the parameters of a closure, the identifiers a
//! handler captures) is held beside it, filled in by the front end that
//! reads the macro input.

use vstd::prelude::*;
use crate::text::{copy_opt_string, copy_string, copy_strings};

verus! {

/// The two renderings of a numeric literal read as an `f32`: the
/// suffixed `f32` literal token, and the number as `Display` prints it.
pub struct F32Text {
    pub token: String,
    pub display: String,
}

/// What a literal expression is.
pub enum Lit {
    /// A string literal, with its value.
    Str(String),
    /// A boolean literal.
    Bool(bool),
    /// An integer literal; its value as an `f32`, when it reads as one.
    Int(Option<F32Text>),
    /// A floating-point literal; its value as an `f32`, when it reads as one.
    Float(Option<F32Text>),
    /// Any other literal.
    Other,
}

/// The shape of an expression, as far as the emitters look at it.
pub enum Form {
    Lit(Lit),
    /// A closure; for each input pattern, its identifier when the pattern is
    /// a plain identifier.
    Closure(Vec<Option<String>>),
    /// A path; the identifier of its last segment, when it has one.
    Path(Option<String>),
    /// A field access; the member's name when it is a named member.
    Field(Option<String>),
    Other,
}

/// The Tailwind classes of a string literal as GPUI style calls: the calls
/// for the normal state and those for the hover state, each as source text
/// such as `.flex()`.
pub struct Styles {
    pub normal: Vec<String>,
    pub hover: Vec<String>,
}

/// An expression of the macro input.
pub struct Expr {
    /// The expression's tokens, as source text.
    pub code: String,
    pub form: Form,
    /// The expression with `move` forced on it when it is a closure.
    pub moved: String,
    /// The identifiers that the expression, used as an event handler,
    /// captures from its surroundings; its own parameters left out.
    pub captures: Vec<String>,
    /// All identifiers that the expression, used as an event handler, names.
    pub idents: Vec<String>,
    /// The background class of the theme colour that the expression names,
    /// when it names one.
    pub bg_class: Option<String>,
    /// The SVG markup of the icon that the expression names, when it is a
    /// string literal naming a known icon.
    pub icon_svg: Option<String>,
    /// The expression's Tailwind classes as GPUI calls, when it is a
    /// string literal.
    pub styles: Option<Styles>,
}

/// An outer attribute of a render node.
pub struct Attr {
    /// Whether the attribute is a `cfg` attribute.
    pub is_cfg: bool,
    /// The attribute's tokens, as source text.
    pub code: String,
}

/// One `key: value` argument of an element.
pub struct Arg {
    pub key: String,
    pub value: Expr,
}

/// An element such as `div(class: "p-2") { ... }`.
pub struct Element {
    pub name: String,
    pub args: Vec<Arg>,
    pub children: Vec<RenderNode>,
    /// A `children` expression given in place of child nodes.
    pub children_expr: Option<Expr>,
    /// The trigger of a dropdown menu or tooltip.
    pub trigger_expr: Option<Expr>,
    pub attrs: Vec<Attr>,
    /// The GPUI code that the code generator of a dropdown menu or a
    /// virtual list produced for this element, when it was run.
    pub generated: Option<String>,
}

/// `if[cond] { ... } else { ... }`.
pub struct IfNode {
    pub condition: String,
    pub then_branch: Vec<RenderNode>,
    pub else_branch: Option<Vec<RenderNode>>,
    pub attrs: Vec<Attr>,
}

/// `for[pat in iterable] { ... }`.
pub struct ForNode {
    pub pat: String,
    pub iterable: String,
    pub body: Vec<RenderNode>,
    pub attrs: Vec<Attr>,
}

/// A node of the render tree.
pub enum RenderNode {
    Element(Element),
    /// A text literal, as source text.
    Text(String),
    Expr(Expr),
    If(IfNode),
    For(ForNode),
    Root(Vec<RenderNode>),
}

/// The outer attributes of a node: those of an element, an `if` or a
/// `for`; none for the other nodes.
pub open spec fn node_attrs(node: RenderNode) -> Seq<Attr> {
    match node {
        RenderNode::Element(el) => el.attrs@,
        RenderNode::If(i) => i.attrs@,
        RenderNode::For(f) => f.attrs@,
        _ => Seq::empty(),
    }
}

impl RenderNode {
    /// The outer attributes of the node.
    pub fn attrs(&self) -> (a: &[Attr])
        ensures
            a@ == node_attrs(*self),
    {
        match self {
            RenderNode::Element(el) => el.attrs.as_slice(),
            RenderNode::If(i) => i.attrs.as_slice(),
            RenderNode::For(f) => f.attrs.as_slice(),
            _ => &[],
        }
    }
}

impl F32Text {
    /// A copy of the value.
    pub fn copy(&self) -> (r: Self)
        ensures
            r == *self,
    {
        F32Text { token: copy_string(&self.token), display: copy_string(&self.display) }
    }
}

/// A copy of an optional `f32` rendering.
pub fn copy_opt_f32(v: &Option<F32Text>) -> (r: Option<F32Text>)
    ensures
        r == *v,
{
    match v {
        Some(x) => Some(x.copy()),
        None => None,
    }
}

impl Lit {
    /// A copy of the value.
    pub fn copy(&self) -> (r: Self)
        ensures
            r == *self,
    {
        match self {
            Lit::Str(s) => Lit::Str(copy_string(s)),
            Lit::Bool(b) => Lit::Bool(*b),
            Lit::Int(v) => Lit::Int(copy_opt_f32(v)),
            Lit::Float(v) => Lit::Float(copy_opt_f32(v)),
            Lit::Other => Lit::Other,
        }
    }
}

/// A copy of a list of optional strings.
pub fn copy_opt_strings(v: &Vec<Option<String>>) -> (r: Vec<Option<String>>)
    ensures
        r@ == v@,
{
    let mut r: Vec<Option<String>> = Vec::new();
    let mut i: usize = 0;
    while i < v.len()
        invariant
            i <= v.len(),
            r@ == v@.subrange(0, i as int),
        decreases v.len() - i,
    {
        r.push(copy_opt_string(&v[i]));
        i = i + 1;
    }
    r
}

/// Whether two forms hold the same values.
pub open spec fn same_form(a: Form, b: Form) -> bool {
    match (a, b) {
        (Form::Closure(x), Form::Closure(y)) => x@ == y@,
        (Form::Closure(_), _) => false,
        (_, Form::Closure(_)) => false,
        _ => a == b,
    }
}

/// Whether two style lists hold the same values.
pub open spec fn same_styles(a: Option<Styles>, b: Option<Styles>) -> bool {
    match (a, b) {
        (Some(x), Some(y)) => x.normal@ == y.normal@ && x.hover@ == y.hover@,
        (None, None) => true,
        _ => false,
    }
}

/// Whether two expressions hold the same values.
pub open spec fn same_expr(a: Expr, b: Expr) -> bool {
    &&& a.code == b.code
    &&& same_form(a.form, b.form)
    &&& a.moved == b.moved
    &&& a.captures@ == b.captures@
    &&& a.idents@ == b.idents@
    &&& a.bg_class == b.bg_class
    &&& a.icon_svg == b.icon_svg
    &&& same_styles(a.styles, b.styles)
}

impl Form {
    /// A copy of the value.
    pub fn copy(&self) -> (r: Self)
        ensures
            same_form(r, *self),
    {
        match self {
            Form::Lit(l) => Form::Lit(l.copy()),
            Form::Closure(p) => Form::Closure(copy_opt_strings(p)),
            Form::Path(s) => Form::Path(copy_opt_string(s)),
            Form::Field(s) => Form::Field(copy_opt_string(s)),
            Form::Other => Form::Other,
        }
    }
}

impl Styles {
    /// A copy of the value.
    pub fn copy(&self) -> (r: Self)
        ensures
            r.normal@ == self.normal@,
            r.hover@ == self.hover@,
    {
        Styles { normal: copy_strings(&self.normal), hover: copy_strings(&self.hover) }
    }
}

impl Expr {
    /// A copy of the expression.
    pub fn copy(&self) -> (r: Self)
        ensures
            same_expr(r, *self),
    {
        Expr {
            code: copy_string(&self.code),
            form: self.form.copy(),
            moved: copy_string(&self.moved),
            captures: copy_strings(&self.captures),
            idents: copy_strings(&self.idents),
            bg_class: copy_opt_string(&self.bg_class),
            icon_svg: copy_opt_string(&self.icon_svg),
            styles: match &self.styles {
                Some(st) => Some(st.copy()),
                None => None,
            },
        }
    }
}

} // verus!
