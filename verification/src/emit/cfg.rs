//! Carrying `#[cfg(...)]` attributes of render nodes over to the emitted code.

use vstd::prelude::*;
use crate::ast::Attr;

verus! {

/// Whether some attribute of `attrs` is a `cfg` attribute.
pub open spec fn has_cfg(attrs: Seq<Attr>) -> bool {
    exists|i: int| 0 <= i < attrs.len() && (#[trigger] attrs[i]).is_cfg
}

/// The text of the `cfg` attributes of `attrs`, in order, each followed by
/// a space.
pub open spec fn cfg_text(attrs: Seq<Attr>) -> Seq<char>
    decreases attrs.len(),
{
    if attrs.len() == 0 {
        Seq::empty()
    } else {
        cfg_text(attrs.drop_last()) + if attrs.last().is_cfg {
            attrs.last().code@ + seq![' ']
        } else {
            Seq::empty()
        }
    }
}

/// `inner` unchanged when no attribute is a `cfg` attribute; otherwise
/// `{ #[cfg(..)].. { inner } }`, which compiles `inner` only where the
/// `cfg` attributes hold.
pub open spec fn cfg_wrapped(attrs: Seq<Attr>, inner: Seq<char>) -> Seq<char> {
    if has_cfg(attrs) {
        seq!['{', ' '] + cfg_text(attrs) + seq!['{', ' '] + inner + seq![' ', '}', ' ', '}']
    } else {
        inner
    }
}

/// Wraps `inner` in a block that carries the `cfg` attributes of `attrs`;
/// `inner` is returned unchanged when there is none.
pub fn wrap_with_cfg(attrs: &[Attr], inner: String) -> (out: String)
    ensures
        out@ == cfg_wrapped(attrs@, inner@),
{
    let mut text = String::new();
    let mut any = false;
    let mut i: usize = 0;
    while i < attrs.len()
        invariant
            i <= attrs@.len(),
            text@ == cfg_text(attrs@.subrange(0, i as int)),
            any == has_cfg(attrs@.subrange(0, i as int)),
        decreases attrs@.len() - i,
    {
        let ghost before = attrs@.subrange(0, i as int);
        let ghost after = attrs@.subrange(0, i + 1);
        assert(after.drop_last() =~= before);
        if attrs[i].is_cfg {
            text.append(attrs[i].code.as_str());
            text.append(" ");
            proof { reveal_strlit(" "); }
            any = true;
            assert(after[i as int].is_cfg);
        } else {
            assert(forall|j: int| 0 <= j < after.len() && after[j].is_cfg ==> 0 <= j < before.len() && before[j].is_cfg);
        }
        i = i + 1;
        assert(text@ =~= cfg_text(attrs@.subrange(0, i as int)));
    }
    assert(attrs@.subrange(0, attrs@.len() as int) =~= attrs@);
    if any {
        let mut out = String::new();
        out.append("{ ");
        out.append(text.as_str());
        out.append("{ ");
        out.append(inner.as_str());
        out.append(" } }");
        proof {
            reveal_strlit("{ ");
            reveal_strlit(" } }");
        }
        assert(out@ =~= cfg_wrapped(attrs@, inner@));
        out
    } else {
        inner
    }
}

} // verus!
