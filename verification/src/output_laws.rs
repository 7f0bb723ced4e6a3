//! What the generated code must hold, whatever else it holds: the user's
//! handlers, attributes, effect bodies and render closures are carried
//! into it, and each event goes to its own attribute.

use vstd::prelude::*;
use crate::ast::{Arg, Element};
use crate::custom_element::{custom_element, CustomElementDef};
use crate::effect::Effect;
use crate::emit::common::first_arg;
use crate::emit::render_dioxus::effective_name;
use crate::emit::render_dioxus::generic::{event_attr, html_attr, html_attrs, html_el};
use crate::emit::render_dioxus::handler::dioxus_handler;
use crate::emit::render_gpui::generic::gp_generic;
use crate::emit::render_gpui::gp_dispatch;
use crate::emit::render_gpui::handler::gpui_handler;
use crate::emit::render_leptos::containers::lp_button;
use crate::emit::render_leptos::html::{lp_html_tag, tag_attrs};
use crate::emit::{effect_code, Framework};

verus! {

/// Whether `t` occurs in `s`.
pub open spec fn contains(s: Seq<char>, t: Seq<char>) -> bool {
    exists|k: int| 0 <= k && k + t.len() <= s.len() && #[trigger] s.subrange(k, k + t.len()) == t
}

/// Whether `s` starts with `p`.
pub open spec fn starts_with(s: Seq<char>, p: Seq<char>) -> bool {
    p.len() <= s.len() && s.subrange(0, p.len() as int) == p
}

/// A text occurs in itself with anything around it.
pub proof fn lemma_contains_mid(a: Seq<char>, t: Seq<char>, b: Seq<char>)
    ensures
        contains(a + t + b, t),
{
    let s = a + t + b;
    assert(s.subrange(a.len() as int, (a.len() + t.len()) as int) =~= t);
}

/// What occurs in a text occurs in it with anything around it.
pub proof fn lemma_contains_extend(s: Seq<char>, t: Seq<char>, a: Seq<char>, b: Seq<char>)
    requires
        contains(s, t),
    ensures
        contains(a + s + b, t),
{
    let k = choose|k: int| 0 <= k && k + t.len() <= s.len() && #[trigger] s.subrange(k, k + t.len()) == t;
    let w = a + s + b;
    assert(w.subrange(a.len() + k, a.len() + k + t.len()) =~= s.subrange(k, k + t.len()));
}

/// The `.on_mouse_down` call of GPUI that runs the handler `h` on a left
/// click.
pub open spec fn left_click_call(h: Seq<char>) -> Seq<char> {
    ".on_mouse_down(::gpui::MouseButton::Left, "@ + h + " )"@
}

/// In GPUI, an element that is no special component and has an `on_click`
/// argument reacts to left clicks with that argument's handler: its chain
/// holds the `.on_mouse_down(::gpui::MouseButton::Left, ..)` call of the
/// wrapped handler.
pub proof fn law_gpui_click_handler_kept(el: Element, h: crate::ast::Expr)
    requires
        first_arg(el.args@, "on_click"@) == Some(h),
        effective_name(el.name@) != "button"@,
        effective_name(el.name@) != "input"@,
        effective_name(el.name@) != "tabs"@,
        effective_name(el.name@) != "data_table"@,
        effective_name(el.name@) != "virtual_list"@,
        effective_name(el.name@) != "dropdown_menu"@,
        effective_name(el.name@) != "clipboard_button"@,
    ensures
        contains(gp_generic(el), left_click_call(gpui_handler(h))),
        contains(gp_dispatch(el), left_click_call(gpui_handler(h))),
{
    law_gpui_button_click_handler_kept(el, h);
    let g = gp_generic(el);
    let call = left_click_call(gpui_handler(h));
    let before = g.subrange(0, g.len() - call.len() - crate::emit::render_gpui::button::mouse_call(
        el,
        "on_mouse_down"@,
    ).len());
    let after = crate::emit::render_gpui::button::mouse_call(el, "on_mouse_down"@);
    assert(crate::emit::render_gpui::button::mouse_call(el, "on_click"@) == call);
    assert(g =~= before + call + after);
    lemma_contains_mid(before, call, after);
}

/// In GPUI, a button with an `on_click` argument reacts to left clicks
/// with that argument's handler.
pub proof fn law_gpui_button_click_handler_kept(el: Element, h: crate::ast::Expr)
    requires
        first_arg(el.args@, "on_click"@) == Some(h),
    ensures
        contains(crate::emit::render_gpui::button::gp_button(el), left_click_call(gpui_handler(h))),
{
    let g = crate::emit::render_gpui::button::gp_button(el);
    let call = left_click_call(gpui_handler(h));
    let before = g.subrange(0, g.len() - call.len());
    assert(g =~= before + call + Seq::<char>::empty());
    lemma_contains_mid(before, call, Seq::empty());
}

/// The characters of `s` other than `_`.
pub open spec fn without_underscores(s: Seq<char>) -> Seq<char>
    decreases s.len(),
{
    if s.len() == 0 {
        Seq::empty()
    } else {
        without_underscores(s.drop_last()) + if s.last() == '_' {
            Seq::empty()
        } else {
            seq![s.last()]
        }
    }
}

/// Whether `a` is the DOM event attribute of the argument key `k`: `k` is
/// `on_` and an event's words, and `a` is `on` and those words without the
/// underscores (`on_mouse_enter` gives `onmouseenter`).
pub open spec fn dom_event_of(k: Seq<char>, a: Seq<char>) -> bool {
    &&& k.len() > 3
    &&& k.subrange(0, 3) == "on_"@
    &&& a == "on"@ + without_underscores(k.subrange(3, k.len() as int))
}

/// In Dioxus, each event argument becomes the attribute of its own DOM
/// event: the key with `on_` replaced by `on` and the underscores dropped.
/// So two keys with different words never share an attribute.
#[verifier::spinoff_prover]
#[verifier::rlimit(100)]
pub proof fn law_dioxus_event_attribute(k: Seq<char>)
    requires
        event_attr(k) is Some,
    ensures
        dom_event_of(k, event_attr(k).unwrap()),
{
    reveal_with_fuel(without_underscores, 12);
    reveal_strlit("on_");
    reveal_strlit("on");
    if k == "on_click"@ {
        reveal_strlit("on_click");
        reveal_strlit("onclick");
        assert(k.subrange(0, 3) =~= "on_"@);
        assert(k.subrange(3, k.len() as int) =~= seq!['c', 'l', 'i', 'c', 'k']);
        assert(event_attr(k).unwrap() =~= "on"@ + seq!['c', 'l', 'i', 'c', 'k']);
        assert(without_underscores(seq!['c', 'l', 'i', 'c', 'k']) =~= seq!['c', 'l', 'i', 'c', 'k']);
    } else if k == "on_mouse_down"@ {
        reveal_strlit("on_mouse_down");
        reveal_strlit("onmousedown");
        let w = seq!['m', 'o', 'u', 's', 'e', '_', 'd', 'o', 'w', 'n'];
        assert(k.subrange(0, 3) =~= "on_"@);
        assert(k.subrange(3, k.len() as int) =~= w);
        assert(without_underscores(w) =~= seq!['m', 'o', 'u', 's', 'e', 'd', 'o', 'w', 'n']);
        assert(event_attr(k).unwrap() =~= "on"@ + seq!['m', 'o', 'u', 's', 'e', 'd', 'o', 'w', 'n']);
    } else if k == "on_mouse_up"@ {
        reveal_strlit("on_mouse_up");
        reveal_strlit("onmouseup");
        let w = seq!['m', 'o', 'u', 's', 'e', '_', 'u', 'p'];
        assert(k.subrange(0, 3) =~= "on_"@);
        assert(k.subrange(3, k.len() as int) =~= w);
        assert(without_underscores(w) =~= seq!['m', 'o', 'u', 's', 'e', 'u', 'p']);
        assert(event_attr(k).unwrap() =~= "on"@ + seq!['m', 'o', 'u', 's', 'e', 'u', 'p']);
    } else if k == "on_mouse_enter"@ {
        reveal_strlit("on_mouse_enter");
        reveal_strlit("onmouseenter");
        let w = seq!['m', 'o', 'u', 's', 'e', '_', 'e', 'n', 't', 'e', 'r'];
        assert(k.subrange(0, 3) =~= "on_"@);
        assert(k.subrange(3, k.len() as int) =~= w);
        assert(without_underscores(w) =~= seq!['m', 'o', 'u', 's', 'e', 'e', 'n', 't', 'e', 'r']);
        assert(event_attr(k).unwrap() =~= "on"@ + seq!['m', 'o', 'u', 's', 'e', 'e', 'n', 't', 'e', 'r']);
    } else if k == "on_mouse_leave"@ {
        reveal_strlit("on_mouse_leave");
        reveal_strlit("onmouseleave");
        let w = seq!['m', 'o', 'u', 's', 'e', '_', 'l', 'e', 'a', 'v', 'e'];
        assert(k.subrange(0, 3) =~= "on_"@);
        assert(k.subrange(3, k.len() as int) =~= w);
        assert(without_underscores(w) =~= seq!['m', 'o', 'u', 's', 'e', 'l', 'e', 'a', 'v', 'e']);
        assert(event_attr(k).unwrap() =~= "on"@ + seq!['m', 'o', 'u', 's', 'e', 'l', 'e', 'a', 'v', 'e']);
    } else if k == "on_input"@ {
        reveal_strlit("on_input");
        reveal_strlit("oninput");
        let w = seq!['i', 'n', 'p', 'u', 't'];
        assert(k.subrange(0, 3) =~= "on_"@);
        assert(k.subrange(3, k.len() as int) =~= w);
        assert(without_underscores(w) =~= w);
        assert(event_attr(k).unwrap() =~= "on"@ + w);
    } else if k == "on_change"@ {
        reveal_strlit("on_change");
        reveal_strlit("onchange");
        let w = seq!['c', 'h', 'a', 'n', 'g', 'e'];
        assert(k.subrange(0, 3) =~= "on_"@);
        assert(k.subrange(3, k.len() as int) =~= w);
        assert(without_underscores(w) =~= w);
        assert(event_attr(k).unwrap() =~= "on"@ + w);
    }
}

/// Whether a key is one of the plain attributes that a Leptos tag carries
/// over as they are.
pub open spec fn plain_attr_key(k: Seq<char>) -> bool {
    k == "class"@ || k == "id"@ || k == "placeholder"@ || k == "disabled"@
}

/// `key= value ` of an argument.
pub open spec fn attr_text(a: Arg) -> Seq<char> {
    a.key@ + "= "@ + a.value.code@ + " "@
}

/// The attribute of any argument is among the attributes of a tag.
pub proof fn lemma_tag_attrs_has(args: Seq<Arg>, tag: Seq<char>, i: int)
    requires
        0 <= i < args.len(),
    ensures
        contains(tag_attrs(args, tag), crate::emit::render_leptos::html::tag_attr(args[i], tag)),
    decreases args.len(),
{
    let t = crate::emit::render_leptos::html::tag_attr(args[i], tag);
    if i == args.len() - 1 {
        lemma_contains_mid(tag_attrs(args.drop_last(), tag), t, Seq::empty());
        assert(tag_attrs(args.drop_last(), tag) + t + Seq::<char>::empty() =~= tag_attrs(args, tag));
    } else {
        lemma_tag_attrs_has(args.drop_last(), tag, i);
        assert(args.drop_last()[i] == args[i]);
        let last = crate::emit::render_leptos::html::tag_attr(args.last(), tag);
        lemma_contains_extend(tag_attrs(args.drop_last(), tag), t, Seq::empty(), last);
        assert(Seq::<char>::empty() + tag_attrs(args.drop_last(), tag) + last =~= tag_attrs(args, tag));
    }
}

/// The attribute of any argument is among the RSX attributes of a tag.
pub proof fn lemma_html_attrs_has(args: Seq<Arg>, tag: Seq<char>, i: int)
    requires
        0 <= i < args.len(),
    ensures
        contains(html_attrs(args, tag), html_attr(args[i], tag)),
    decreases args.len(),
{
    let t = html_attr(args[i], tag);
    if i == args.len() - 1 {
        lemma_contains_mid(html_attrs(args.drop_last(), tag), t, Seq::empty());
        assert(html_attrs(args.drop_last(), tag) + t + Seq::<char>::empty() =~= html_attrs(args, tag));
    } else {
        lemma_html_attrs_has(args.drop_last(), tag, i);
        assert(args.drop_last()[i] == args[i]);
        let last = html_attr(args.last(), tag);
        lemma_contains_extend(html_attrs(args.drop_last(), tag), t, Seq::empty(), last);
        assert(Seq::<char>::empty() + html_attrs(args.drop_last(), tag) + last =~= html_attrs(args, tag));
    }
}

/// In Dioxus, a plain HTML element carries each event argument as the
/// attribute of its DOM event (see `law_dioxus_event_attribute`) bound to
/// the argument's wrapped handler.
#[verifier::spinoff_prover]
#[verifier::rlimit(100)]
pub proof fn law_dioxus_event_handler_kept(el: Element, name: Seq<char>, kids: Seq<char>, i: int)
    requires
        0 <= i < el.args@.len(),
        event_attr(el.args@[i].key@) is Some,
    ensures
        contains(
            html_el(el, name, kids),
            event_attr(el.args@[i].key@).unwrap() + ": { "@ + dioxus_handler(el.args@[i].value) + " }, "@,
        ),
{
    let a = el.args@[i];
    let k = a.key@;
    let tag = crate::emit::render_dioxus::generic::html_tag(name);
    reveal_strlit("children");
    reveal_strlit("on_click");
    reveal_strlit("on_input");
    reveal_strlit("on_mouse_down");
    reveal_strlit("on_mouse_up");
    reveal_strlit("on_mouse_enter");
    reveal_strlit("on_mouse_leave");
    reveal_strlit("on_change");
    if k == "children"@ {
        assert(event_attr(k) is None) by {
            assert("children"@[0] != "on_click"@[0]);
            assert("children"@[0] != "on_input"@[0]);
        }
    }
    let t = event_attr(k).unwrap() + ": { "@ + dioxus_handler(a.value) + " }, "@;
    assert(html_attr(a, tag) == t);
    lemma_html_attrs_has(el.args@, tag, i);
    let attrs = html_attrs(el.args@, tag);
    let out = html_el(el, name, kids);
    let pre = tag + " { "@;
    let post = out.subrange((pre.len() + attrs.len()) as int, out.len() as int);
    assert(out =~= pre + attrs + post);
    lemma_contains_extend(attrs, t, pre, post);
}

/// Every `class`, `id`, `placeholder` or `disabled` argument is among the
/// attributes of a tag.
#[verifier::spinoff_prover]
#[verifier::rlimit(100)]
pub proof fn lemma_tag_attrs_keep(args: Seq<Arg>, tag: Seq<char>, i: int)
    requires
        0 <= i < args.len(),
        plain_attr_key(args[i].key@),
    ensures
        contains(tag_attrs(args, tag), attr_text(args[i])),
    decreases args.len(),
{
    reveal_strlit("class");
    reveal_strlit("id");
    reveal_strlit("placeholder");
    reveal_strlit("disabled");
    reveal_strlit("class= ");
    reveal_strlit("id= ");
    reveal_strlit("placeholder= ");
    reveal_strlit("disabled= ");
    reveal_strlit("= ");
    if i == args.len() - 1 {
        let a = args.last();
        let k = a.key@;
        if k == "class"@ {
        } else if k == "id"@ {
            assert("id"@.len() != "class"@.len());
        } else if k == "placeholder"@ {
            assert("placeholder"@.len() != "class"@.len());
            assert("placeholder"@.len() != "id"@.len());
        } else {
            assert("disabled"@.len() != "class"@.len());
            assert("disabled"@.len() != "id"@.len());
            assert("disabled"@.len() != "placeholder"@.len());
        }
        assert(crate::emit::render_leptos::html::tag_attr(a, tag) =~= attr_text(a));
        lemma_contains_mid(tag_attrs(args.drop_last(), tag), attr_text(a), Seq::empty());
        assert(tag_attrs(args.drop_last(), tag) + attr_text(a) + Seq::<char>::empty() =~= tag_attrs(args, tag));
    } else {
        lemma_tag_attrs_keep(args.drop_last(), tag, i);
        assert(args.drop_last()[i] == args[i]);
        lemma_contains_extend(
            tag_attrs(args.drop_last(), tag),
            attr_text(args[i]),
            Seq::empty(),
            crate::emit::render_leptos::html::tag_attr(args.last(), tag),
        );
        assert(Seq::<char>::empty() + tag_attrs(args.drop_last(), tag) + crate::emit::render_leptos::html::tag_attr(
            args.last(),
            tag,
        ) =~= tag_attrs(args, tag));
    }
}

/// The text of a plain tag's markup starts with the tag and its
/// attributes; a bound input adds its handler after them.
proof fn lemma_html_tag_contains(el: Element, tag: Seq<char>, n: usize, inside_for: bool, sh: bool, t: Seq<char>)
    requires
        contains(tag_attrs(el.args@, tag), t),
    ensures
        contains(lp_html_tag(el, tag, n, inside_for, sh).code, t),
{
    let attrs = tag_attrs(el.args@, tag);
    let o = lp_html_tag(el, tag, n, inside_for, sh);
    let start = "< "@ + tag + " "@;
    let extra = if crate::emit::render_leptos::html::auto_binds(el, tag) {
        "on:input= "@ + crate::emit::render_leptos::id_name("__quoin_input_bind_"@, n) + " "@
    } else {
        Seq::empty()
    };
    let rest = o.code.subrange((start.len() + attrs.len() + extra.len()) as int, o.code.len() as int);
    assert(o.code =~= start + attrs + (extra + rest));
    lemma_contains_extend(attrs, t, start, extra + rest);
}

/// In Leptos, a plain HTML tag carries each of its `class`, `id`,
/// `placeholder` and `disabled` arguments as `key=value`; so does a plain
/// button.
pub proof fn law_leptos_tag_keeps_attributes(el: Element, tag: Seq<char>, n: usize, inside_for: bool, sh: bool, i: int)
    requires
        0 <= i < el.args@.len(),
        plain_attr_key(el.args@[i].key@),
    ensures
        contains(lp_html_tag(el, tag, n, inside_for, sh).code, attr_text(el.args@[i])),
        contains(lp_button(el, n, inside_for).code, attr_text(el.args@[i])),
{
    let t = attr_text(el.args@[i]);
    lemma_tag_attrs_keep(el.args@, tag, i);
    lemma_html_tag_contains(el, tag, n, inside_for, sh, t);
    lemma_tag_attrs_keep(el.args@, "button"@, i);
    lemma_html_tag_contains(el, "button"@, n, inside_for, false, t);
    let inner = lp_html_tag(el, "button"@, n, inside_for, false);
    let b = lp_button(el, n, inside_for);
    match crate::emit::common::arg_string(el.args@, "tooltip"@) {
        Some(text) => {
            let pre = "<div class=\"relative inline-block group\"> "@;
            let post = b.code.subrange((pre.len() + inner.code.len()) as int, b.code.len() as int);
            assert(b.code =~= pre + inner.code + post);
            lemma_contains_extend(inner.code, t, pre, post);
        },
        None => {},
    }
}

/// Whether a key is one of the events that a Leptos tag handles.
pub open spec fn leptos_event_key(k: Seq<char>) -> bool {
    k == "on_click"@ || k == "on_mouse_down"@ || k == "on_input"@ || k == "on_change"@
}

/// In Leptos, a plain HTML tag binds each event argument (`on_click`,
/// `on_mouse_down`, `on_input`, `on_change`) to the DOM event named by its
/// words without underscores (`on:click`, `on:mousedown`, ..), with the
/// argument's wrapped handler.
#[verifier::spinoff_prover]
#[verifier::rlimit(100)]
pub proof fn law_leptos_event_handler_kept(el: Element, tag: Seq<char>, n: usize, inside_for: bool, sh: bool, i: int)
    requires
        0 <= i < el.args@.len(),
        leptos_event_key(el.args@[i].key@),
    ensures
        contains(
            lp_html_tag(el, tag, n, inside_for, sh).code,
            "on:"@ + without_underscores(el.args@[i].key@.subrange(3, el.args@[i].key@.len() as int)) + "= "@
                + crate::emit::render_leptos::event_handler(el.args@[i].value) + " "@,
        ),
{
    let a = el.args@[i];
    let k = a.key@;
    reveal_with_fuel(without_underscores, 12);
    reveal_strlit("class");
    reveal_strlit("id");
    reveal_strlit("placeholder");
    reveal_strlit("disabled");
    reveal_strlit("on_click");
    reveal_strlit("on_mouse_down");
    reveal_strlit("on_input");
    reveal_strlit("on_change");
    reveal_strlit("on:");
    reveal_strlit("= ");
    reveal_strlit("on:click= ");
    reveal_strlit("on:mousedown= ");
    reveal_strlit("on:input= ");
    reveal_strlit("on:change= ");
    let h = crate::emit::render_leptos::event_handler(a.value);
    if k == "on_click"@ {
        assert("on_click"@[0] != "disabled"@[0]);
        let w = seq!['c', 'l', 'i', 'c', 'k'];
        assert(k.subrange(3, k.len() as int) =~= w);
        assert(without_underscores(w) =~= w);
        assert(crate::emit::render_leptos::html::tag_attr(a, tag) =~= "on:"@ + w + "= "@ + h + " "@);
    } else if k == "on_mouse_down"@ {
        let w = seq!['m', 'o', 'u', 's', 'e', '_', 'd', 'o', 'w', 'n'];
        let v = seq!['m', 'o', 'u', 's', 'e', 'd', 'o', 'w', 'n'];
        assert(k.subrange(3, k.len() as int) =~= w);
        assert(without_underscores(w) =~= v);
        assert(crate::emit::render_leptos::html::tag_attr(a, tag) =~= "on:"@ + v + "= "@ + h + " "@);
    } else if k == "on_input"@ {
        assert("on_input"@[0] != "disabled"@[0]);
        assert("on_input"@[3] != "on_click"@[3]);
        let w = seq!['i', 'n', 'p', 'u', 't'];
        assert(k.subrange(3, k.len() as int) =~= w);
        assert(without_underscores(w) =~= w);
        assert(crate::emit::render_leptos::html::tag_attr(a, tag) =~= "on:"@ + w + "= "@ + h + " "@);
    } else {
        let w = seq!['c', 'h', 'a', 'n', 'g', 'e'];
        assert(k.subrange(3, k.len() as int) =~= w);
        assert(without_underscores(w) =~= w);
        assert(crate::emit::render_leptos::html::tag_attr(a, tag) =~= "on:"@ + w + "= "@ + h + " "@);
    }
    lemma_tag_attrs_has(el.args@, tag, i);
    lemma_html_tag_contains(el, tag, n, inside_for, sh, crate::emit::render_leptos::html::tag_attr(a, tag));
}

/// In GPUI, an effect without a cleanup calls its body once: its code
/// holds the body.
pub proof fn law_gpui_effect_calls_body(e: Effect)
    requires
        e.cleanup is None,
    ensures
        contains(effect_code(Some(Framework::Gpui), e), e.body@),
{
    lemma_contains_mid("( "@, e.body@, " )();"@);
}

/// The effect call of a framework and the body it registers.
pub open spec fn effect_call(framework: Option<Framework>, body: Seq<char>) -> Seq<char> {
    match framework {
        Some(Framework::Leptos) => "leptos::prelude::create_effect(move |_| { "@ + body,
        _ => "dioxus::prelude::use_effect(move || { "@ + body,
    }
}

/// The cleanup call of a framework and the code it registers.
pub open spec fn cleanup_call(framework: Option<Framework>, c: Seq<char>) -> Seq<char> {
    match framework {
        Some(Framework::Leptos) => " leptos::prelude::on_cleanup(move || { "@ + c,
        _ => " dioxus::prelude::use_drop(move || { "@ + c,
    }
}

/// In Leptos and Dioxus, an effect's code starts by registering its body
/// with the framework's effect call, with or without a cleanup; a cleanup
/// only adds its own call after it: the code without the cleanup is the
/// start of the code with it.
pub proof fn law_effect_registers_body(framework: Option<Framework>, e: Effect)
    requires
        framework == Some(Framework::Leptos) || framework == Some(Framework::Dioxus),
    ensures
        starts_with(effect_code(framework, e), effect_call(framework, e.body@)),
        starts_with(effect_code(framework, e), effect_code(framework, Effect { cleanup: None, ..e })),
        e.cleanup is Some ==> contains(effect_code(framework, e), cleanup_call(framework, e.cleanup.unwrap()@)),
{
    let code = effect_code(framework, e);
    let plain = effect_code(framework, Effect { cleanup: None, ..e });
    let call = effect_call(framework, e.body@);
    assert(code.subrange(0, call.len() as int) =~= call);
    assert(code.subrange(0, plain.len() as int) =~= plain);
    match e.cleanup {
        Some(c) => {
            let cc = cleanup_call(framework, c@);
            let rest = " ; });"@;
            assert(code =~= plain + cc + rest);
            lemma_contains_mid(plain, cc, rest);
        },
        None => {},
    }
}

/// For every framework, the expansion of a custom element with a render
/// closure holds that closure's code, in its `render` method.
pub proof fn law_custom_element_keeps_render(def: CustomElementDef, framework: Option<Framework>)
    requires
        framework is Some,
        def.render_fn is Some,
    ensures
        contains(custom_element(def, framework), def.render_fn.unwrap()@),
{
    let out = custom_element(def, framework);
    let r = def.render_fn.unwrap()@;
    let head = crate::custom_element::element_render(def.name@, def.render_fn, framework);
    let pre = match framework {
        Some(Framework::Gpui) => "impl "@ + def.name@
            + " { pub fn render<F, E>(&self, _ctx: &F) -> E where F: Clone, E: From<::gpui::Div>, { let _ = _ctx; "@,
        Some(Framework::Leptos) => "impl "@ + def.name@
            + " { pub fn render(&self) -> impl leptos::prelude::IntoView { "@,
        _ => "impl "@ + def.name@ + " { pub fn render(&self) -> dioxus::prelude::Element { dioxus::prelude::rsx! { "@,
    };
    let post = head.subrange((pre.len() + r.len()) as int, head.len() as int);
    assert(head =~= pre + r + post);
    lemma_contains_mid(pre, r, post);
    let before = out.subrange(0, out.len() - head.len() - (" #[doc(hidden)] pub mod __quoin_elements { pub use super:: "@
        + def.name@ + " as "@ + def.name@ + " ; }"@).len());
    let after = " #[doc(hidden)] pub mod __quoin_elements { pub use super:: "@ + def.name@ + " as "@ + def.name@ + " ; }"@;
    assert(out =~= before + head + after);
    lemma_contains_extend(head, r, before, after);
}

} // verus!
