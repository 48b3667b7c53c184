//! Verified helpers over strings: ASCII trimming, exact and
//! case-insensitive comparison, and prefix splitting.

use vstd::prelude::*;

verus! {

/// The whitespace characters that [`trim_ascii`] removes.
pub open spec fn is_ascii_space(c: char) -> bool {
    c == ' ' || c == '\t' || c == '\n' || c == '\r'
}

/// `s` without its leading ASCII whitespace.
pub open spec fn trim_start_spec(s: Seq<char>) -> Seq<char>
    decreases s.len(),
{
    if s.len() > 0 && is_ascii_space(s[0]) {
        trim_start_spec(s.drop_first())
    } else {
        s
    }
}

/// `s` without its trailing ASCII whitespace.
pub open spec fn trim_end_spec(s: Seq<char>) -> Seq<char>
    decreases s.len(),
{
    if s.len() > 0 && is_ascii_space(s.last()) {
        trim_end_spec(s.drop_last())
    } else {
        s
    }
}

/// `s` without leading and trailing ASCII whitespace.
pub open spec fn trim_spec(s: Seq<char>) -> Seq<char> {
    trim_end_spec(trim_start_spec(s))
}

/// The ASCII-lowercase counterpart of a character; other characters are
/// unchanged.
pub open spec fn lower_char(c: char) -> char {
    if 'A' <= c && c <= 'Z' {
        ((c as u32) + 32) as char
    } else {
        c
    }
}

/// `s` with every ASCII uppercase letter lowered.
pub open spec fn lower_seq(s: Seq<char>) -> Seq<char> {
    s.map_values(|c: char| lower_char(c))
}

/// True when the given character counts as ASCII whitespace; the executable
/// counterpart of [`is_ascii_space`].
fn is_space_char(c: char) -> (b: bool)
    ensures
        b == is_ascii_space(c),
{
    c == ' ' || c == '\t' || c == '\n' || c == '\r'
}

/// Skipping a run of leading whitespace does not change the trimmed string.
proof fn lemma_trim_start_skip(s: Seq<char>, k: int)
    requires
        0 <= k <= s.len(),
        forall|i: int| 0 <= i < k ==> is_ascii_space(#[trigger] s[i]),
    ensures
        trim_start_spec(s) == trim_start_spec(s.skip(k)),
    decreases k,
{
    if k > 0 {
        assert(s.drop_first() =~= s.skip(1));
        lemma_trim_start_skip(s.skip(1), k - 1);
        assert(s.skip(1).skip(k - 1) =~= s.skip(k));
    } else {
        assert(s.skip(0) =~= s);
    }
}

/// A string whose characters from position `m` on are whitespace, with no
/// whitespace at position `m - 1`, trims from the end to its first `m`
/// characters.
proof fn lemma_trim_end_take(u: Seq<char>, m: int)
    requires
        0 <= m <= u.len(),
        forall|i: int| m <= i < u.len() ==> is_ascii_space(#[trigger] u[i]),
        m == 0 || !is_ascii_space(u[m - 1]),
    ensures
        trim_end_spec(u) == u.take(m),
    decreases u.len(),
{
    if m == u.len() {
        assert(u.take(m) =~= u);
    } else {
        lemma_trim_end_take(u.drop_last(), m);
        assert(u.drop_last().take(m) =~= u.take(m));
    }
}

/// Removes leading and trailing ASCII whitespace.
pub fn trim_ascii(s: &str) -> (r: &str)
    ensures
        r@ == trim_spec(s@),
{
    let len = s.unicode_len();
    let mut start: usize = 0;
    while start < len && is_space_char(s.get_char(start))
        invariant
            start <= len,
            len == s@.len(),
            forall|i: int| 0 <= i < start ==> is_ascii_space(#[trigger] s@[i]),
        decreases len - start,
    {
        start = start + 1;
    }
    let mut end: usize = len;
    while end > start && is_space_char(s.get_char(end - 1))
        invariant
            start <= end <= len,
            len == s@.len(),
            forall|i: int| 0 <= i < start ==> is_ascii_space(#[trigger] s@[i]),
            forall|i: int| end <= i < len ==> is_ascii_space(#[trigger] s@[i]),
        decreases end,
    {
        end = end - 1;
    }
    proof {
        lemma_trim_start_skip(s@, start as int);
        if start < len {
            assert(s@.skip(start as int)[0] == s@[start as int]);
            assert(trim_start_spec(s@.skip(start as int)) == s@.skip(start as int));
        } else {
            assert(s@.skip(start as int) =~= Seq::<char>::empty());
        }
        let u = s@.skip(start as int);
        let m = end - start;
        assert(forall|i: int|
            m <= i < u.len() ==> is_ascii_space(#[trigger] u[i]) && u[i] == s@[i + start]);
        if m > 0 {
            assert(u[m - 1] == s@[end - 1]);
        }
        lemma_trim_end_take(u, m as int);
        assert(u.take(m as int) =~= s@.subrange(start as int, end as int));
    }
    s.substring_char(start, end)
}

/// True exactly when the two strings hold the same characters.
pub fn chars_eq(a: &str, b: &str) -> (r: bool)
    ensures
        r == (a@ == b@),
{
    let la = a.unicode_len();
    let lb = b.unicode_len();
    if la != lb {
        return false;
    }
    let mut i: usize = 0;
    while i < la
        invariant
            i <= la,
            la == a@.len() == b@.len(),
            forall|k: int| 0 <= k < i ==> a@[k] == b@[k],
        decreases la - i,
    {
        if s_ne(a.get_char(i), b.get_char(i)) {
            return false;
        }
        i = i + 1;
    }
    proof {
        assert(a@ =~= b@);
    }
    true
}

/// True when the two characters differ.
fn s_ne(a: char, b: char) -> (r: bool)
    ensures
        r == (a != b),
{
    a != b
}

/// True exactly when `a` equals `b` up to ASCII case; `b` is meant to be a
/// lowercase keyword.
pub fn eq_ignore_ascii_case(a: &str, b: &str) -> (r: bool)
    ensures
        r == (lower_seq(a@) == b@),
{
    let la = a.unicode_len();
    let lb = b.unicode_len();
    if la != lb {
        proof {
            assert(lower_seq(a@).len() == a@.len());
        }
        return false;
    }
    let mut i: usize = 0;
    while i < la
        invariant
            i <= la,
            la == a@.len() == b@.len(),
            forall|k: int| 0 <= k < i ==> lower_char(a@[k]) == b@[k],
        decreases la - i,
    {
        let c = a.get_char(i);
        let lowered: char = if 'A' <= c && c <= 'Z' {
            (((c as u32) + 32) as u8) as char
        } else {
            c
        };
        if s_ne(lowered, b.get_char(i)) {
            proof {
                assert(lower_seq(a@)[i as int] == lower_char(a@[i as int]));
            }
            return false;
        }
        i = i + 1;
    }
    proof {
        assert(lower_seq(a@) =~= b@);
    }
    true
}

/// Splits off a required prefix: returns the rest of `s` after `p` when `s`
/// begins with `p`, and nothing otherwise.
pub fn after_prefix<'a>(s: &'a str, p: &str) -> (r: Option<&'a str>)
    ensures
        match r {
            Some(rest) => s@.len() >= p@.len() && s@.take(p@.len() as int) == p@ && rest@
                == s@.skip(p@.len() as int),
            None => !(s@.len() >= p@.len() && s@.take(p@.len() as int) == p@),
        },
{
    let lp = p.unicode_len();
    let ls = s.unicode_len();
    if ls < lp {
        return None;
    }
    let mut i: usize = 0;
    while i < lp
        invariant
            i <= lp,
            lp == p@.len(),
            ls == s@.len(),
            lp <= ls,
            forall|k: int| 0 <= k < i ==> s@[k] == p@[k],
        decreases lp - i,
    {
        if s_ne(s.get_char(i), p.get_char(i)) {
            proof {
                assert(s@.take(p@.len() as int)[i as int] == s@[i as int]);
            }
            return None;
        }
        i = i + 1;
    }
    proof {
        assert(s@.take(p@.len() as int) =~= p@);
    }
    Some(s.substring_char(lp, ls))
}

} // verus!
