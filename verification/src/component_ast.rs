//! The input of `component!`: props, state, globals, actions, lifecycle
//! blocks and the render body, each piece of Rust code held as its source
//! text.

use vstd::prelude::*;

verus! {

/// A prop: `name: Type = default`.
pub struct PropField {
    pub name: String,
    pub ty: String,
    /// The default value, when the prop gives one.
    pub default: Option<String>,
}

/// A state field: `name: Type = default`.
pub struct StateField {
    pub name: String,
    pub ty: String,
    pub default: String,
}

/// A global: `name: Type`.
pub struct GlobalField {
    pub name: String,
    pub ty: String,
}

/// A typed parameter of an action whose pattern is a plain identifier.
pub struct TypedParam {
    pub name: String,
    pub ty: String,
}

/// An action: a function of the component.
pub struct Action {
    /// The whole signature, as source text.
    pub sig: String,
    /// The function's name.
    pub name: String,
    /// The body, braces included, as source text.
    pub block: String,
    /// The typed parameters whose pattern is a plain identifier, in order.
    pub params: Vec<TypedParam>,
    /// The identifiers that the body names, as the front end collects them.
    pub referenced: Vec<String>,
}

/// What kind of statement a statement is.
pub enum StmtKind {
    /// A `let` binding.
    Local,
    /// An item.
    Item,
    /// An expression without a trailing semicolon.
    Expr,
    /// An expression followed by a semicolon.
    ExprSemi,
    /// A macro invocation in statement position.
    Macro,
}

/// A statement of the render body.
pub struct Stmt {
    pub code: String,
    pub kind: StmtKind,
}

/// The whole input of `component!`.
pub struct ComponentAst {
    /// The visibility, as source text; empty when inherited.
    pub vis: String,
    pub name: String,
    pub props: Vec<PropField>,
    pub state: Vec<StateField>,
    pub globals: Vec<GlobalField>,
    pub actions: Vec<Action>,
    /// The statements of the `on_mount` block, when there is one.
    pub on_mount: Option<Vec<String>>,
    /// The statements of the `on_unmount` block, when there is one.
    pub on_unmount: Option<Vec<String>>,
    /// The statements of the render body.
    pub render: Vec<Stmt>,
}

} // verus!
