//! Building blocks of the emitted source text: string literals, decimal
//! numbers and string comparison.

use vstd::prelude::*;

verus! {

/// How `char::escape_debug` writes the character `c`.
pub uninterp spec fn debug_escaped(c: char) -> Seq<char>;

/// How one character of a string is written inside its literal, `next`
/// being the character after it: a NUL as `\0`, or as `\x00` before an
/// octal digit; a single quote as itself; any other character as
/// `char::escape_debug` writes it.
pub open spec fn literal_char(c: char, next: Option<char>) -> Seq<char> {
    if c == '\0' {
        match next {
            Some(d) => if 48 <= (d as u32) && (d as u32) <= 55 {
                seq!['\\', 'x', '0', '0']
            } else {
                seq!['\\', '0']
            },
            None => seq!['\\', '0'],
        }
    } else if c == '\'' {
        seq!['\'']
    } else {
        debug_escaped(c)
    }
}

/// The `i`-th character of `s`, written inside a literal.
pub open spec fn literal_piece(s: Seq<char>, i: int) -> Seq<char> {
    literal_char(s[i], if i + 1 < s.len() { Some(s[i + 1]) } else { None })
}

/// The first `k` characters of `s`, written inside a literal.
pub open spec fn literal_upto(s: Seq<char>, k: nat) -> Seq<char>
    decreases k,
{
    if k == 0 {
        Seq::empty()
    } else {
        literal_upto(s, (k - 1) as nat) + literal_piece(s, k - 1)
    }
}

/// The source text of the Rust string literal whose value is `s`.
pub open spec fn string_literal(s: Seq<char>) -> Seq<char> {
    seq!['"'] + literal_upto(s, s.len()) + seq!['"']
}

/// The decimal digit `d`.
pub open spec fn digit_char(d: nat) -> char {
    (48 + d) as char
}

/// The decimal notation of `n`.
pub open spec fn decimal(n: nat) -> Seq<char>
    decreases n,
{
    if n < 10 {
        seq![digit_char(n)]
    } else {
        decimal(n / 10) + seq![digit_char(n % 10)]
    }
}

/// `String::push`: appends one character to the end of the string.
#[verifier::external_body]
pub(crate) fn push_char(s: &mut String, c: char)
    ensures
        final(s)@ == old(s)@.push(c),
{
    s.push(c);
}

/// `char::escape_debug`, printed: the escape of `c` as the `Debug` output
/// of a string writes it.
#[verifier::external_body]
fn escape_debug_of(c: char) -> (r: String)
    ensures
        r@ == debug_escaped(c),
{
    c.escape_debug().to_string()
}

/// The source text of a string literal whose value is `s`.
pub(crate) fn string_literal_of(s: &str) -> (lit: String)
    ensures
        lit@ == string_literal(s@),
{
    let mut out = String::new();
    push_char(&mut out, '"');
    let n = s.unicode_len();
    let mut i: usize = 0;
    while i < n
        invariant
            n == s@.len(),
            i <= n,
            out@ == seq!['"'] + literal_upto(s@, i as nat),
        decreases n - i,
    {
        let c = s.get_char(i);
        let next = if i + 1 < n {
            Some(s.get_char(i + 1))
        } else {
            None
        };
        let ghost before = out@;
        if c == '\0' {
            push_char(&mut out, '\\');
            match next {
                Some(d) => {
                    if 48 <= (d as u32) && (d as u32) <= 55 {
                        push_char(&mut out, 'x');
                        push_char(&mut out, '0');
                        push_char(&mut out, '0');
                    } else {
                        push_char(&mut out, '0');
                    }
                },
                None => push_char(&mut out, '0'),
            }
        } else if c == '\'' {
            push_char(&mut out, c);
        } else {
            let e = escape_debug_of(c);
            out.append(e.as_str());
        }
        assert(out@ =~= before + literal_piece(s@, i as int));
        i = i + 1;
    }
    push_char(&mut out, '"');
    out
}

/// Appends the decimal notation of `n` to `out`.
pub fn push_decimal(out: &mut String, n: usize)
    ensures
        final(out)@ == old(out)@ + decimal(n as nat),
    decreases n,
{
    if n >= 10 {
        push_decimal(out, n / 10);
    }
    let d = (n % 10) as u8;
    push_char(out, (48u8 + d) as char);
    assert(final(out)@ =~= old(out)@ + decimal(n as nat));
}

/// Whether the string `a` is `b`.
pub fn str_eq(a: &str, b: &str) -> (r: bool)
    ensures
        r == (a@ == b@),
{
    let x = a.to_owned();
    let y = b.to_owned();
    x == y
}

/// The parts one after the other, each followed by a space.
pub open spec fn spaced(parts: Seq<Seq<char>>) -> Seq<char>
    decreases parts.len(),
{
    if parts.len() == 0 {
        Seq::empty()
    } else {
        spaced(parts.drop_last()) + parts.last() + seq![' ']
    }
}

/// The texts of `v`, each followed by a space.
pub open spec fn spaced_strings(v: Seq<String>) -> Seq<char>
    decreases v.len(),
{
    if v.len() == 0 {
        Seq::empty()
    } else {
        spaced_strings(v.drop_last()) + v.last()@ + seq![' ']
    }
}

/// Appends each text of `v` to `out`, each followed by a space.
pub fn push_spaced(out: &mut String, v: &Vec<String>)
    ensures
        final(out)@ == old(out)@ + spaced_strings(v@),
{
    let ghost start = out@;
    let mut i: usize = 0;
    while i < v.len()
        invariant
            i <= v.len(),
            out@ == start + spaced_strings(v@.subrange(0, i as int)),
        decreases v.len() - i,
    {
        out.append(v[i].as_str());
        out.append(" ");
        proof {
            reveal_strlit(" ");
            assert(v@.subrange(0, i + 1).drop_last() =~= v@.subrange(0, i as int));
        }
        i = i + 1;
        assert(out@ =~= start + spaced_strings(v@.subrange(0, i as int)));
    }
    assert(v@.subrange(0, v.len() as int) =~= v@);
}

/// A copy of `s`.
pub fn copy_string(s: &String) -> (r: String)
    ensures
        r == *s,
{
    s.clone()
}

/// A copy of each string of `v`.
pub fn copy_strings(v: &Vec<String>) -> (r: Vec<String>)
    ensures
        r@ == v@,
{
    let mut r: Vec<String> = Vec::new();
    let mut i: usize = 0;
    while i < v.len()
        invariant
            i <= v.len(),
            r@ == v@.subrange(0, i as int),
        decreases v.len() - i,
    {
        r.push(v[i].clone());
        i = i + 1;
    }
    r
}

/// A copy of an optional string.
pub fn copy_opt_string(s: &Option<String>) -> (r: Option<String>)
    ensures
        r == *s,
{
    match s {
        Some(x) => Some(x.clone()),
        None => None,
    }
}

/// The texts of `v`.
pub open spec fn texts(v: Seq<String>) -> Seq<Seq<char>> {
    Seq::new(v.len(), |i: int| v[i]@)
}

/// The parts with `sep` between each two of them.
pub open spec fn joined(parts: Seq<Seq<char>>, sep: Seq<char>) -> Seq<char>
    decreases parts.len(),
{
    if parts.len() == 0 {
        Seq::empty()
    } else if parts.len() == 1 {
        parts[0]
    } else {
        joined(parts.drop_last(), sep) + sep + parts.last()
    }
}

/// The parts one after the other, each followed by `suffix`.
pub open spec fn suffixed(parts: Seq<Seq<char>>, suffix: Seq<char>) -> Seq<char>
    decreases parts.len(),
{
    if parts.len() == 0 {
        Seq::empty()
    } else {
        suffixed(parts.drop_last(), suffix) + parts.last() + suffix
    }
}

/// Appends the texts of `parts` to `out`, with `sep` between each two.
pub fn push_joined(out: &mut String, parts: &Vec<String>, sep: &str)
    ensures
        final(out)@ == old(out)@ + joined(texts(parts@), sep@),
{
    let ghost start = out@;
    let mut i: usize = 0;
    while i < parts.len()
        invariant
            i <= parts@.len(),
            out@ == start + joined(texts(parts@.subrange(0, i as int)), sep@),
        decreases parts@.len() - i,
    {
        if i > 0 {
            out.append(sep);
        }
        out.append(parts[i].as_str());
        proof {
            let before = texts(parts@.subrange(0, i as int));
            let after = texts(parts@.subrange(0, i + 1));
            assert(after.drop_last() =~= before);
            if i == 0 {
                assert(after =~= seq![parts@[0]@]);
            }
        }
        i = i + 1;
    }
    assert(parts@.subrange(0, parts@.len() as int) =~= parts@);
}

/// Appends the texts of `parts` to `out`, each followed by `suffix`.
pub fn push_suffixed(out: &mut String, parts: &Vec<String>, suffix: &str)
    ensures
        final(out)@ == old(out)@ + suffixed(texts(parts@), suffix@),
{
    let ghost start = out@;
    let mut i: usize = 0;
    while i < parts.len()
        invariant
            i <= parts@.len(),
            out@ == start + suffixed(texts(parts@.subrange(0, i as int)), suffix@),
        decreases parts@.len() - i,
    {
        out.append(parts[i].as_str());
        out.append(suffix);
        proof {
            let before = texts(parts@.subrange(0, i as int));
            let after = texts(parts@.subrange(0, i + 1));
            assert(after.drop_last() =~= before);
        }
        i = i + 1;
    }
    assert(parts@.subrange(0, parts@.len() as int) =~= parts@);
}

/// Each item of `v` rendered by `f`, whose results `g` describes.
pub(crate) fn render_each<T>(v: &Vec<T>, f: impl Fn(&T) -> String, Ghost(g): Ghost<spec_fn(T) -> Seq<char>>) -> (r: Vec<String>)
    requires
        forall|i: int| 0 <= i < v@.len() ==> call_requires(f, (&v@[i],)),
        forall|t: &T, s: String| call_ensures(f, (t,), s) ==> s@ == g(*t),
    ensures
        r@.len() == v@.len(),
        forall|i: int| 0 <= i < v@.len() ==> (#[trigger] r@[i])@ == g(v@[i]),
{
    let mut r: Vec<String> = Vec::new();
    let mut i: usize = 0;
    while i < v.len()
        invariant
            i <= v@.len(),
            r@.len() == i,
            forall|j: int| 0 <= j < v@.len() ==> call_requires(f, (&v@[j],)),
            forall|t: &T, s: String| call_ensures(f, (t,), s) ==> s@ == g(*t),
            forall|j: int| 0 <= j < i ==> (#[trigger] r@[j])@ == g(v@[j]),
        decreases v@.len() - i,
    {
        let s = f(&v[i]);
        r.push(s);
        i = i + 1;
    }
    r
}

/// An identifier as `format_ident!` splices it into a new identifier:
/// without its `r#` prefix.
pub open spec fn ident_fragment(s: Seq<char>) -> Seq<char> {
    if s.len() >= 2 && s[0] == 'r' && s[1] == '#' {
        s.subrange(2, s.len() as int)
    } else {
        s
    }
}

/// The identifier `s` without its `r#` prefix.
pub fn ident_fragment_of(s: &str) -> (r: &str)
    ensures
        r@ == ident_fragment(s@),
{
    let n = s.unicode_len();
    if n >= 2 && s.get_char(0) == 'r' && s.get_char(1) == '#' {
        s.substring_char(2, n)
    } else {
        s
    }
}

} // verus!
