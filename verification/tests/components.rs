use quoin_macros_core::ast::RenderNode;
use quoin_macros_core::component_ast::{
    Action, ComponentAst, GlobalField, PropField, StateField, Stmt, StmtKind, TypedParam,
};
use quoin_macros_core::custom_element::{
    expand_custom_element, resolve_custom_element, try_expand_custom_element, CustomElementDef, PropDef,
};
use quoin_macros_core::effect::{check_cleanup_keyword, check_effect_keyword, is_structured, Effect, EffectError};
use quoin_macros_core::emit::parts::props_name_of;
use quoin_macros_core::emit::{Emitter, Framework, FrameworkEmitter};

fn toks(s: &str) -> String {
    s.parse::<proc_macro2::TokenStream>().unwrap().to_string()
}

fn s(x: &str) -> String {
    x.to_string()
}

fn counter(render_last: StmtKind) -> ComponentAst {
    ComponentAst {
        vis: s("pub"),
        name: s("Counter"),
        props: vec![
            PropField { name: s("step"), ty: s("u32"), default: Some(s("1")) },
            PropField { name: s("title"), ty: s("String"), default: None },
        ],
        state: vec![StateField { name: s("count"), ty: s("u32"), default: s("0") }],
        globals: vec![GlobalField { name: s("theme"), ty: s("Theme") }],
        actions: vec![Action {
            sig: s("fn add(&self, n: u32)"),
            name: s("add"),
            block: s("{ count.update(|c| *c += n); theme.get(); other(); }"),
            params: vec![TypedParam { name: s("n"), ty: s("u32") }],
            referenced: vec![s("count"), s("n"), s("theme"), s("other"), s("count")],
        }],
        on_mount: Some(vec![s("log(1);")]),
        on_unmount: Some(vec![s("log(2);")]),
        render: vec![Stmt { code: s("let x = 1;"), kind: StmtKind::Local }, Stmt { code: s("view(x)"), kind: render_last }],
    }
}

fn bare(name: &str) -> ComponentAst {
    ComponentAst {
        vis: s(""),
        name: s(name),
        props: vec![],
        state: vec![],
        globals: vec![],
        actions: vec![],
        on_mount: None,
        on_unmount: None,
        render: vec![],
    }
}

#[test]
fn props_struct_name() {
    assert_eq!(props_name_of("Counter"), "CounterProps");
    assert_eq!(props_name_of("r#type"), "typeProps");
}

#[test]
fn gpui_component_has_view_constructor_drop_and_render() {
    let out = Emitter::new(Some(Framework::Gpui)).emit_component(&counter(StmtKind::Expr));
    let expected = r#"
        #[derive(Clone)]
        pub struct CounterProps { pub step: u32, pub title: String _phantom: ::std::marker::PhantomData<()>, }
        impl Default for CounterProps {
            fn default() -> Self { Self { step: 1, title: Default::default(), _phantom: ::std::marker::PhantomData, } }
        }
        pub struct Counter {
            props: CounterProps,
            count: quoin::GpuiSignal<u32>,
            theme: Option<quoin::GpuiSignal<Theme>>,
            _quoin_inputs: quoin::QuoinInputManager,
            _subs: Vec<gpui::Subscription>,
        }
        impl Counter {
            pub fn new(cx: &mut gpui::Context<Self>, ctx: quoin::GpuiContext, props: CounterProps) -> Self {
                use quoin::ReactiveContext;
                use quoin::Signal;
                let count = ctx.create_signal(0);
                let theme: Option<quoin::GpuiSignal<Theme>> = ctx.use_global::<Theme>();
                log(1);
                Self { props, count, theme, _quoin_inputs: quoin::QuoinInputManager::new(), _subs: Vec::new(), }
            }
            fn add(&self, n: u32) { count.update(|c| *c += n); theme.get(); other(); }
        }
        impl Drop for Counter {
            fn drop(&mut self) { use quoin::Signal; let count = &self.count; log(2); }
        }
        impl gpui::Render for Counter {
            fn render(&mut self, window: &mut gpui::Window, cx: &mut gpui::Context<Self>) -> impl gpui::IntoElement {
                use gpui::*;
                use quoin::Signal;
                let count = self.count.clone();
                let theme = self.theme.clone();
                let x = 1;
                view(x)
            }
        }"#;
    assert_eq!(toks(&out), toks(expected));
}

#[test]
fn gpui_component_without_unmount_has_no_drop() {
    let out = Emitter::new(Some(Framework::Gpui)).emit_component(&bare("Empty"));
    assert!(!out.contains("Drop"));
    let expected = r#"
        #[derive(Clone)] struct EmptyProps { _phantom: ::std::marker::PhantomData<()>, }
        impl Default for EmptyProps { fn default() -> Self { Self { _phantom: ::std::marker::PhantomData, } } }
        struct Empty { props: EmptyProps, _quoin_inputs: quoin::QuoinInputManager, _subs: Vec<gpui::Subscription>, }
        impl Empty {
            pub fn new(cx: &mut gpui::Context<Self>, ctx: quoin::GpuiContext, props: EmptyProps) -> Self {
                use quoin::ReactiveContext; use quoin::Signal;
                Self { props, _quoin_inputs: quoin::QuoinInputManager::new(), _subs: Vec::new(), }
            }
        }
        impl gpui::Render for Empty {
            fn render(&mut self, window: &mut gpui::Window, cx: &mut gpui::Context<Self>) -> impl gpui::IntoElement {
                use gpui::*; use quoin::Signal;
            }
        }"#;
    assert_eq!(toks(&out), toks(expected));
}

#[test]
fn plain_gpui_component() {
    let out = quoin_macros_core::emit::component::emit_component(&counter(StmtKind::Expr));
    let expected = r#"
        #[derive(Clone)] pub struct CounterProps { pub step: u32, pub title: String }
        pub struct Counter { props: CounterProps, count: quoin_gpui::GpuiSignal<u32> _quoin_inputs: quoin_ui_gpui::QuoinInputManager, }
        impl Counter {
            pub fn new(cx: &mut gpui::Context<Self>, ctx: quoin_gpui::GpuiContext, props: CounterProps) -> Self {
                use quoin::ReactiveContext;
                let count = ctx.create_signal(0);
                Self { props, count, _quoin_inputs: quoin_ui_gpui::QuoinInputManager::new(), }
            }
            fn add(&self, n: u32) { count.update(|c| *c += n); theme.get(); other(); }
        }
        impl gpui::Render for Counter {
            fn render(&mut self, window: &mut gpui::Window, cx: &mut gpui::Context<Self>) -> impl gpui::IntoElement {
                use gpui::*;
                let count = &self.count;
                let x = 1;
                view(x)
            }
        }"#;
    assert_eq!(toks(&out), toks(expected));
}

#[test]
fn leptos_component_clones_what_actions_name() {
    let out = Emitter::new(Some(Framework::Leptos)).emit_component(&counter(StmtKind::Expr));
    let expected = r#"
        #[leptos::prelude::component]
        pub fn Counter() -> impl leptos::prelude::IntoView {
            use quoin::ReactiveContext;
            use quoin::Signal;
            use leptos::prelude::ElementChild;
            let ctx = quoin::LeptosContext::new();
            let count = ctx.create_signal(0);
            let theme: Option<quoin::LeptosSignal<Theme>> = ctx.use_global::<Theme>();
            let add = {
                let count = count.clone(); let n = n.clone(); let theme = theme.clone(); let other = other.clone(); let count = count.clone();
                move || { count.update(|c| *c += n); theme.get(); other(); }
            };
            log(1);
            leptos::prelude::on_cleanup(move || { log(2); });
            let x = 1;
            view(x)
        }"#;
    assert_eq!(toks(&out), toks(expected));
}

#[test]
fn dioxus_component_clones_only_state_and_globals() {
    let out = Emitter::new(Some(Framework::Dioxus)).emit_component(&counter(StmtKind::Expr));
    let expected = r#"
        #[derive(Clone)] pub struct CounterProps { pub step: u32, pub title: String }
        #[dioxus::prelude::component]
        pub fn Counter() -> dioxus::prelude::Element {
            use quoin::ReactiveContext;
            use quoin::Signal;
            let ctx = dioxus::prelude::use_hook(quoin::DioxusContext::new);
            let count = dioxus::prelude::use_hook(|| ctx.create_signal(0));
            let theme: Option<quoin::DioxusSignal<Theme>> = ctx.use_global::<Theme>();
            let add = {
                let count = count.clone(); let theme = theme.clone(); let count = count.clone();
                move |n: u32| { count.update(|c| *c += n); theme.get(); other(); }
            };
            dioxus::prelude::use_effect(move || { log(1); });
            dioxus::prelude::use_drop(move || { log(2); });
            let x = 1;
            view(x)
        }"#;
    assert_eq!(toks(&out), toks(expected));
}

#[test]
fn dioxus_component_adds_a_placeholder_when_render_ends_without_value() {
    let e = Emitter::new(Some(Framework::Dioxus));
    for kind in [StmtKind::ExprSemi, StmtKind::Local, StmtKind::Item] {
        let out = e.emit_component(&counter(kind));
        assert!(out.contains("view(x) Ok(dioxus::prelude::VNode::placeholder()) }"));
    }
    let with_macro = e.emit_component(&counter(StmtKind::Macro));
    assert!(!with_macro.contains("placeholder"));
    let empty = e.emit_component(&bare("Empty"));
    assert!(empty.ends_with("Ok(dioxus::prelude::VNode::placeholder()) }"));
}

#[test]
fn no_framework_means_compile_errors() {
    let mut e = Emitter::new(None);
    assert_eq!(e.emit_component(&bare("A")), "compile_error!(\"component! requires a framework feature\");");
    assert_eq!(e.emit_render(&RenderNode::Text(s("\"x\""))), "compile_error!(\"quoin_render! requires a framework feature\");");
    let eff = Effect { deps: vec![], body: s("|| f()"), cleanup: None };
    assert_eq!(e.emit_effect(&eff), "compile_error!(\"effect! requires a framework feature\");");
}

#[test]
fn emitter_renders_for_its_framework() {
    let t = RenderNode::Text(s("\"x\""));
    let mut g = Emitter::new(Some(Framework::Gpui));
    assert_eq!(g.emit_render(&t), "\"x\"");
    let mut d = Emitter::new(Some(Framework::Dioxus));
    assert_eq!(toks(&d.emit_render(&t)), toks("{ use dioxus::prelude::*; dioxus::prelude::rsx! { \"x\" } }"));
    let mut l = Emitter::new(Some(Framework::Leptos));
    let f = RenderNode::For(quoin_macros_core::ast::ForNode { pat: s("i"), iterable: s("v"), body: vec![], attrs: vec![] });
    let first = l.emit_render(&f);
    let second = l.emit_render(&f);
    assert!(first.contains("__quoin_for_iter_0"));
    assert!(second.contains("__quoin_for_iter_1"));
    assert_eq!(l.ids.next, 2);
}

#[test]
fn effects_per_framework() {
    let plain = Effect { deps: vec![s("count")], body: s("|| println!(\"{}\", count.get())"), cleanup: None };
    let with_cleanup = Effect { deps: vec![s("q")], body: s("|| fetch()"), cleanup: Some(s("|| cancel()")) };
    let g = Emitter::new(Some(Framework::Gpui));
    assert_eq!(toks(&g.emit_effect(&plain)), toks("(|| println!(\"{}\", count.get()))();"));
    assert_eq!(g.emit_effect(&with_cleanup), "compile_error!(\"effect! cleanup is not supported in GPUI.\")");
    let l = Emitter::new(Some(Framework::Leptos));
    assert_eq!(
        toks(&l.emit_effect(&with_cleanup)),
        toks("leptos::prelude::create_effect(move |_| { || fetch(); }); leptos::prelude::on_cleanup(move || { || cancel(); });")
    );
    assert_eq!(toks(&l.emit_effect(&plain)), toks("leptos::prelude::create_effect(move |_| { || println!(\"{}\", count.get()); });"));
    let d = Emitter::new(Some(Framework::Dioxus));
    assert_eq!(
        toks(&d.emit_effect(&with_cleanup)),
        toks("dioxus::prelude::use_effect(move || { || fetch(); }); dioxus::prelude::use_drop(move || { || cancel(); });")
    );
}

#[test]
fn effect_keywords() {
    assert!(check_effect_keyword("watch").is_ok());
    assert!(check_effect_keyword("deps").is_ok());
    let err = check_effect_keyword("run").unwrap_err();
    assert!(err == EffectError::ExpectedWatchOrDeps);
    assert_eq!(err.message(), "expected `watch` or `deps`");
    assert!(check_cleanup_keyword("cleanup").is_ok());
    let err = check_cleanup_keyword("teardown").unwrap_err();
    assert!(err == EffectError::ExpectedCleanup);
    assert_eq!(err.message(), "expected `cleanup`");
    assert!(is_structured(Some("run")));
    assert!(!is_structured(Some("move")));
    assert!(!is_structured(None));
}

fn badge_def(render: Option<&str>) -> CustomElementDef {
    CustomElementDef {
        name: s("Badge"),
        props: vec![PropDef { name: s("text"), ty: s("String") }, PropDef { name: s("color"), ty: s("u32") }],
        render_fn: render.map(s),
    }
}

#[test]
fn custom_element_for_each_framework() {
    let gpui = expand_custom_element(badge_def(Some("|p| quoin_render! { div {} }")), Some(Framework::Gpui));
    let expected = r#"
        #[derive(Clone)] pub struct Badge { pub text: String, pub color: u32 }
        impl Badge {
            pub fn render<F, E>(&self, _ctx: &F) -> E where F: Clone, E: From<::gpui::Div>, {
                let _ = _ctx;
                |p| quoin_render! { div {} }
            }
        }
        #[doc(hidden)] pub mod __quoin_elements { pub use super::Badge as Badge; }"#;
    assert_eq!(toks(&gpui), toks(expected));

    let leptos = expand_custom_element(badge_def(None), Some(Framework::Leptos));
    assert!(toks(&leptos).contains(&toks("pub fn render(&self) -> impl leptos::prelude::IntoView { leptos::prelude::view! { <div></div> } }")));
    let dioxus = expand_custom_element(badge_def(None), Some(Framework::Dioxus));
    assert!(toks(&dioxus).contains(&toks("pub fn render(&self) -> dioxus::prelude::Element { dioxus::prelude::rsx! { div {} } }")));
    let none = expand_custom_element(badge_def(None), None);
    assert!(none.contains("compile_error!(\"quoin_element! requires a framework feature (gpui, leptos, or dioxus)\");"));
}

#[test]
fn custom_element_name_must_be_an_identifier() {
    let mut def = badge_def(None);
    def.name = s("my-badge");
    assert!(try_expand_custom_element(def, Some(Framework::Gpui)).is_none());
    let ok = try_expand_custom_element(badge_def(None), Some(Framework::Gpui)).unwrap();
    assert!(ok.starts_with("#[derive(Clone)] pub struct Badge"));
}

#[test]
fn no_custom_element_is_registered() {
    assert!(resolve_custom_element("Badge").is_none());
    assert!(resolve_custom_element("").is_none());
}
