//! Which texts are identifiers: the rule of proc-macro2's own lexer, over
//! the Unicode `XID_Start` and `XID_Continue` properties. Inside a
//! procedural macro `proc_macro2::Ident::new` leaves the check to the
//! compiler, which applies the same rule to the same Unicode properties.

use vstd::prelude::*;

verus! {

/// Whether a character has the Unicode property `XID_Start`.
pub uninterp spec fn xid_start(c: char) -> bool;

/// Whether a character has the Unicode property `XID_Continue`.
pub uninterp spec fn xid_continue(c: char) -> bool;

/// `unicode_ident::is_xid_start`: whether `c` has the Unicode property
/// `XID_Start`; of the ASCII characters, exactly the letters have it.
#[verifier::external_body]
fn is_xid_start(c: char) -> (r: bool)
    ensures
        r == xid_start(c),
        (c as u32) < 128 ==> (r <==> (('a' <= c && c <= 'z') || ('A' <= c && c <= 'Z'))),
{
    unicode_ident::is_xid_start(c)
}

/// `unicode_ident::is_xid_continue`: whether `c` has the Unicode property
/// `XID_Continue`; of the ASCII characters, exactly the letters, the
/// digits and `_` have it.
#[verifier::external_body]
fn is_xid_continue(c: char) -> (r: bool)
    ensures
        r == xid_continue(c),
        (c as u32) < 128 ==> (r <==> (('a' <= c && c <= 'z') || ('A' <= c && c <= 'Z') || ('0' <= c && c
            <= '9') || c == '_')),
{
    unicode_ident::is_xid_continue(c)
}

/// Whether `s` is an identifier by proc-macro2's rule: not empty, its first
/// character `_` or `XID_Start`, every other character `XID_Continue`.
pub open spec fn ident_ok(s: Seq<char>) -> bool {
    &&& s.len() > 0
    &&& s[0] == '_' || xid_start(s[0])
    &&& forall|i: int| 1 <= i < s.len() ==> xid_continue(#[trigger] s[i])
}

/// Whether `s` is an identifier.
pub fn is_valid_ident(s: &str) -> (r: bool)
    ensures
        r == ident_ok(s@),
{
    let n = s.unicode_len();
    if n == 0 {
        return false;
    }
    let first = s.get_char(0);
    if !(first == '_' || is_xid_start(first)) {
        return false;
    }
    let mut i: usize = 1;
    while i < n
        invariant
            n == s@.len(),
            1 <= i <= n,
            forall|j: int| 1 <= j < i ==> xid_continue(#[trigger] s@[j]),
        decreases n - i,
    {
        if !is_xid_continue(s.get_char(i)) {
            return false;
        }
        i = i + 1;
    }
    true
}

} // verus!
