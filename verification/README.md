# quoin_macros_core

The code generators behind the `quoin` macros (`component!`,
`quoin_render!`, `effect!` and custom elements), written in Verus. Each
generator takes a plain model of the macro input and returns the generated
Rust source as text; its contract states that text exactly, as a spec
function over the model.

## Layout

- `src/ast.rs`, `src/component_ast.rs`: the models of a render tree and of
  a component.
- `src/emit/`: one generator per framework.
  - `gpui.rs`, `leptos.rs`, `dioxus.rs`, `component.rs`, `parts.rs`:
    components.
  - `render_gpui/`, `render_leptos/`, `render_dioxus/`: render trees, the
    last two with or without the shadcn component libraries.
  - `mod.rs`: the `Emitter` that picks a framework.
- `src/tokens.rs`: macro input as plain tokens, and the extents of the
  expressions and types in it.
- `src/effect.rs`, `src/custom_element.rs`: the grammars of `effect!` and
  `quoin_element!`, and custom elements.
- `src/text.rs`, `src/ident.rs`: string literals, numbers and identifiers.
- `src/laws.rs`: properties that span several generators.
- `app/lib.rs`: turning macro input into the library's tokens, and the
  generated text into token streams.
- `tests/`: the generators on concrete trees.
