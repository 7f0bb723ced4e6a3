//! Framework-specific code emission for the `quoin` macros.

pub mod cfg;
pub mod common;
pub mod component;
pub mod dioxus;
pub mod gpui;
pub mod leptos;
pub mod parts;
pub mod render_dioxus;
pub mod render_gpui;
pub mod render_leptos;

use vstd::prelude::*;
use crate::ast::RenderNode;
use crate::component_ast::ComponentAst;
use crate::effect::Effect;
use self::render_dioxus::{dx_ok, dx_render};
use self::render_dioxus::shadcn::{sh_ok, sh_render};
use self::render_gpui::{gp_ok, gp_render};
use self::render_leptos::{ExtractIds, lp_ok, lp_render};

verus! {

/// The UI framework that code is emitted for.
#[derive(Clone, Copy, PartialEq, Eq, Structural)]
pub enum Framework {
    Gpui,
    Leptos,
    Dioxus,
}

/// What the framework emitters offer: a component, a render tree and an
/// effect as source text.
pub trait FrameworkEmitter {
    /// Whether the emitter can emit the render tree `node`.
    spec fn can_render(&self, node: RenderNode) -> bool;

    /// The code of a `component!`.
    fn emit_component(&self, ast: &ComponentAst) -> String;

    /// The code of a `quoin_render!`.
    fn emit_render(&mut self, node: &RenderNode) -> String
        requires
            old(self).can_render(*node),
    ;

    /// The code of an `effect!`.
    fn emit_effect(&self, eff: &Effect) -> String;
}

/// The emitter of one framework, or of none; `shadcn` selects, for Leptos
/// and Dioxus, the markup built from the shadcn component libraries. For
/// Leptos it numbers the bindings that it generates.
pub struct Emitter {
    pub framework: Option<Framework>,
    pub shadcn: bool,
    pub ids: ExtractIds,
}

/// Whether a render tree can be emitted for a framework.
pub open spec fn render_ok(framework: Option<Framework>, shadcn: bool, node: RenderNode) -> bool {
    match framework {
        Some(Framework::Gpui) => gp_ok(node),
        Some(Framework::Leptos) => lp_ok(node, shadcn),
        Some(Framework::Dioxus) => if shadcn {
            sh_ok(node)
        } else {
            dx_ok(node)
        },
        None => true,
    }
}

/// The code of a component for a framework; without one, a compile error.
pub open spec fn component_code(framework: Option<Framework>, ast: ComponentAst) -> Seq<char> {
    match framework {
        Some(Framework::Gpui) => self::gpui::gpui_component(ast),
        Some(Framework::Leptos) => self::leptos::leptos_component(ast),
        Some(Framework::Dioxus) => self::dioxus::dioxus_component(ast),
        None => "compile_error!(\"component! requires a framework feature\");"@,
    }
}

/// The code of a render tree for a framework, with `n` the next id of the
/// Leptos bindings; without a framework, a compile error.
pub open spec fn render_code(framework: Option<Framework>, shadcn: bool, node: RenderNode, n: usize) -> Seq<char> {
    match framework {
        Some(Framework::Gpui) => gp_render(node),
        Some(Framework::Leptos) => lp_render(node, n, shadcn).code,
        Some(Framework::Dioxus) => if shadcn {
            sh_render(node)
        } else {
            dx_render(node)
        },
        None => "compile_error!(\"quoin_render! requires a framework feature\");"@,
    }
}

/// The next id of the Leptos bindings after rendering `node`.
pub open spec fn render_next(framework: Option<Framework>, shadcn: bool, node: RenderNode, n: usize) -> usize {
    match framework {
        Some(Framework::Leptos) => lp_render(node, n, shadcn).next,
        _ => n,
    }
}

/// The code of an effect for a framework.  GPUI calls the body at once and
/// has no cleanup; Leptos and Dioxus register the body as an effect and the
/// cleanup to run when the component goes away.
pub open spec fn effect_code(framework: Option<Framework>, eff: Effect) -> Seq<char> {
    match framework {
        Some(Framework::Gpui) => match eff.cleanup {
            Some(_) => "compile_error!(\"effect! cleanup is not supported in GPUI.\")"@,
            None => "( "@ + eff.body@ + " )();"@,
        },
        Some(Framework::Leptos) => "leptos::prelude::create_effect(move |_| { "@ + eff.body@ + " ; });"@
            + match eff.cleanup {
            Some(c) => " leptos::prelude::on_cleanup(move || { "@ + c@ + " ; });"@,
            None => Seq::empty(),
        },
        Some(Framework::Dioxus) => "dioxus::prelude::use_effect(move || { "@ + eff.body@ + " ; });"@
            + match eff.cleanup {
            Some(c) => " dioxus::prelude::use_drop(move || { "@ + c@ + " ; });"@,
            None => Seq::empty(),
        },
        None => "compile_error!(\"effect! requires a framework feature\");"@,
    }
}

impl Emitter {
    /// An emitter for a framework, with plain markup and its binding ids
    /// starting at zero.
    pub fn new(framework: Option<Framework>) -> (r: Self)
        ensures
            r.framework == framework,
            !r.shadcn,
            r.ids.next == 0,
    {
        Emitter { framework, shadcn: false, ids: ExtractIds { next: 0 } }
    }

    /// An emitter for a framework, with the shadcn component libraries when
    /// `shadcn` holds, its binding ids starting at zero.
    pub fn with_shadcn(framework: Option<Framework>, shadcn: bool) -> (r: Self)
        ensures
            r.framework == framework,
            r.shadcn == shadcn,
            r.ids.next == 0,
    {
        Emitter { framework, shadcn, ids: ExtractIds { next: 0 } }
    }

    /// Whether the emitter can emit the render tree `node`.
    pub fn is_renderable(&self, node: &RenderNode) -> (r: bool)
        ensures
            r == render_ok(self.framework, self.shadcn, *node),
    {
        match self.framework {
            Some(Framework::Gpui) => self::render_gpui::is_renderable(node),
            Some(Framework::Leptos) => self::render_leptos::renderable(node, self.shadcn),
            Some(Framework::Dioxus) => if self.shadcn {
                self::render_dioxus::shadcn::is_renderable(node)
            } else {
                self::render_dioxus::is_renderable(node)
            },
            None => true,
        }
    }
}

impl FrameworkEmitter for Emitter {
    open spec fn can_render(&self, node: RenderNode) -> bool {
        render_ok(self.framework, self.shadcn, node)
    }

    fn emit_component(&self, ast: &ComponentAst) -> (out: String)
        ensures
            out@ == component_code(self.framework, *ast),
    {
        match self.framework {
            Some(Framework::Gpui) => self::gpui::emit_component(ast),
            Some(Framework::Leptos) => self::leptos::emit_component(ast),
            Some(Framework::Dioxus) => self::dioxus::emit_component(ast),
            None => String::from_str("compile_error!(\"component! requires a framework feature\");"),
        }
    }

    fn emit_render(&mut self, node: &RenderNode) -> (out: String)
        ensures
            out@ == render_code(old(self).framework, old(self).shadcn, *node, old(self).ids.next),
            final(self).framework == old(self).framework,
            final(self).shadcn == old(self).shadcn,
            final(self).ids.next == render_next(old(self).framework, old(self).shadcn, *node, old(self).ids.next),
    {
        match self.framework {
            Some(Framework::Gpui) => self::render_gpui::emit_render(node),
            Some(Framework::Leptos) => self::render_leptos::emit_view(node, &mut self.ids, self.shadcn),
            Some(Framework::Dioxus) => if self.shadcn {
                self::render_dioxus::shadcn::emit_render(node)
            } else {
                self::render_dioxus::emit_render(node)
            },
            None => String::from_str("compile_error!(\"quoin_render! requires a framework feature\");"),
        }
    }

    fn emit_effect(&self, eff: &Effect) -> (out: String)
        ensures
            out@ == effect_code(self.framework, *eff),
    {
        match self.framework {
            Some(Framework::Gpui) => match &eff.cleanup {
                Some(_) => String::from_str("compile_error!(\"effect! cleanup is not supported in GPUI.\")"),
                None => {
                    let mut out = String::from_str("( ");
                    out.append(eff.body.as_str());
                    out.append(" )();");
                    out
                },
            },
            Some(Framework::Leptos) => {
                let mut out = String::from_str("leptos::prelude::create_effect(move |_| { ");
                out.append(eff.body.as_str());
                out.append(" ; });");
                match &eff.cleanup {
                    Some(c) => {
                        out.append(" leptos::prelude::on_cleanup(move || { ");
                        out.append(c.as_str());
                        out.append(" ; });");
                    },
                    None => {},
                }
                out
            },
            Some(Framework::Dioxus) => {
                let mut out = String::from_str("dioxus::prelude::use_effect(move || { ");
                out.append(eff.body.as_str());
                out.append(" ; });");
                match &eff.cleanup {
                    Some(c) => {
                        out.append(" dioxus::prelude::use_drop(move || { ");
                        out.append(c.as_str());
                        out.append(" ; });");
                    },
                    None => {},
                }
                out
            },
            None => String::from_str("compile_error!(\"effect! requires a framework feature\");"),
        }
    }
}

} // verus!
