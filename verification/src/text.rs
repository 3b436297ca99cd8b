//! Character and string utilities shared by the gateway's components:
//! ASCII lower-casing, string comparison, and substring search.

use vstd::prelude::*;

verus! {

/// A lower-cased copy of an ASCII upper-case letter; any other character is
/// returned unchanged.
pub open spec fn lower_char(c: char) -> char {
    if 'A' as u32 <= c as u32 && c as u32 <= 'Z' as u32 {
        ((c as u32 + 32) as u8) as char
    } else {
        c
    }
}

/// Character-wise ASCII lower-casing of a character sequence.
pub open spec fn lower(s: Seq<char>) -> Seq<char> {
    s.map_values(|c: char| lower_char(c))
}

/// Whether the lower-casing of `s` has `lit` as a substring.
pub open spec fn has_lower_substring(s: Seq<char>, lit: Seq<char>) -> bool {
    exists|i: int|
        0 <= i && i + lit.len() <= s.len() && #[trigger] lower(
            s.subrange(i, i + lit.len() as int),
        ) == lit
}

/// Lower-casing a character twice is the same as doing it once.
pub proof fn lemma_lower_char_idempotent(c: char)
    ensures
        lower_char(lower_char(c)) == lower_char(c),
{
}

/// Lower-casing a sequence twice is the same as doing it once.
pub proof fn lemma_lower_idempotent(s: Seq<char>)
    ensures
        lower(lower(s)) == lower(s),
{
    assert forall|i: int| 0 <= i < s.len() implies lower(lower(s))[i] == lower(s)[i] by {
        lemma_lower_char_idempotent(s[i]);
    }
    assert(lower(lower(s)) =~= lower(s));
}

/// Lower-cases an ASCII upper-case letter and leaves every other character
/// unchanged.
pub fn to_lower_char(c: char) -> (r: char)
    ensures
        r == lower_char(c),
{
    let u = c as u32;
    if 'A' as u32 <= u && u <= 'Z' as u32 {
        ((u + 32) as u8) as char
    } else {
        c
    }
}

/// Exact (case-sensitive) equality of two string slices.
pub fn str_eq(a: &str, b: &str) -> (r: bool)
    ensures
        r == (a@ == b@),
{
    let n = a.unicode_len();
    let m = b.unicode_len();
    if n != m {
        return false;
    }
    for i in 0..n
        invariant
            n == a@.len(),
            n == b@.len(),
            forall|k: int| 0 <= k < i ==> a@[k] == b@[k],
    {
        if a.get_char(i) != b.get_char(i) {
            return false;
        }
    }
    proof {
        assert(a@ =~= b@);
    }
    true
}

/// Whether the lower-casing of `s[from..to]` equals `lit` exactly.
pub fn lower_matches(s: &str, from: usize, to: usize, lit: &str) -> (r: bool)
    requires
        from <= to <= s@.len(),
    ensures
        r == (lower(s@.subrange(from as int, to as int)) == lit@),
{
    let ghost sub = s@.subrange(from as int, to as int);
    let n = to - from;
    let m = lit.unicode_len();
    if n != m {
        proof {
            assert(lower(sub).len() == n);
        }
        return false;
    }
    for i in 0..n
        invariant
            from + n == to,
            to <= s@.len(),
            n == m,
            m == lit@.len(),
            sub == s@.subrange(from as int, to as int),
            forall|k: int| 0 <= k < i ==> lower(sub)[k] == lit@[k],
    {
        let c = to_lower_char(s.get_char(from + i));
        let d = lit.get_char(i);
        if c != d {
            proof {
                assert(sub[i as int] == s@[from + i]);
                assert(lower(sub)[i as int] == lower_char(sub[i as int]));
            }
            return false;
        }
    }
    proof {
        assert(lower(sub) =~= lit@);
    }
    true
}

/// Whether the lower-casing of `s` contains `lit` as a substring.
pub fn contains_lower(s: &str, lit: &str) -> (r: bool)
    ensures
        r == has_lower_substring(s@, lit@),
{
    let n = s.unicode_len();
    let m = lit.unicode_len();
    if m > n {
        return false;
    }
    if m == 0 {
        proof {
            assert(lower(s@.subrange(0, 0 + lit@.len() as int)) =~= lit@);
        }
        return true;
    }
    let mut i: usize = 0;
    while i <= n - m
        invariant
            m >= 1,
            m <= n,
            n == s@.len(),
            m == lit@.len(),
            i <= n - m + 1,
            forall|k: int|
                0 <= k < i ==> #[trigger] lower(s@.subrange(k, k + lit@.len() as int)) != lit@,
        decreases n - m + 1 - i,
    {
        if lower_matches(s, i, i + m, lit) {
            return true;
        }
        i = i + 1;
    }
    false
}

} // verus!
