//! Substring search over strings, plain and ASCII-case-insensitive.
//!
//! ADB output is matched by substring tests: the endpoint needle in
//! `devices` output, and the wakefulness tokens in the power dump. The
//! power dump is matched without regard to ASCII case (the dump is
//! lowercased before matching); device names are matched case-sensitively.
use vstd::prelude::*;

verus! {

/// `n` occurs in `h` as a contiguous run starting at `i`.
pub open spec fn matches_at(h: Seq<char>, n: Seq<char>, i: int) -> bool {
    0 <= i && i + n.len() <= h.len() && h.subrange(i, i + n.len() as int) == n
}

/// `n` occurs somewhere in `h`.
pub open spec fn contains_seq(h: Seq<char>, n: Seq<char>) -> bool {
    exists|i: int| matches_at(h, n, i)
}

/// Code point of `c` with ASCII upper-case letters folded to lower case.
pub open spec fn lower32(c: char) -> u32 {
    if 'A' <= c && c <= 'Z' {
        ((c as u32) + 32) as u32
    } else {
        c as u32
    }
}

/// `n` occurs at `i` in `h`, comparing characters ASCII-case-insensitively.
pub open spec fn ci_matches_at(h: Seq<char>, n: Seq<char>, i: int) -> bool {
    0 <= i && i + n.len() <= h.len() && forall|j: int|
        0 <= j < n.len() ==> lower32(h[i + j]) == lower32(n[j])
}

/// `n` occurs somewhere in `h`, ASCII-case-insensitively.
pub open spec fn ci_contains_seq(h: Seq<char>, n: Seq<char>) -> bool {
    exists|i: int| ci_matches_at(h, n, i)
}

fn chars_match_at(h: &str, n: &str, i: usize) -> (r: bool)
    requires
        i + n@.len() <= h@.len(),
        h@.len() <= usize::MAX,
    ensures
        r == matches_at(h@, n@, i as int),
{
    let n_len = n.unicode_len();
    let mut j: usize = 0;
    while j < n_len
        invariant
            n_len == n@.len(),
            i + n@.len() <= h@.len(),
            h@.len() <= usize::MAX,
            j <= n_len,
            forall|k: int| 0 <= k < j ==> h@[i + k] == n@[k],
        decreases n_len - j,
    {
        if h.get_char(i + j) != n.get_char(j) {
            assert(h@.subrange(i as int, i + n@.len() as int)[j as int] != n@[j as int]);
            return false;
        }
        j += 1;
    }
    assert(h@.subrange(i as int, i + n@.len() as int) =~= n@);
    true
}

/// Case-sensitive substring test: does `h` contain `n`?
pub fn str_contains(h: &str, n: &str) -> (r: bool)
    ensures
        r == contains_seq(h@, n@),
{
    let h_len = h.unicode_len();
    let n_len = n.unicode_len();
    if n_len > h_len {
        assert(forall|i: int| !matches_at(h@, n@, i));
        return false;
    }
    if n_len == 0 {
        assert(h@.subrange(0, 0) =~= n@);
        assert(matches_at(h@, n@, 0));
        return true;
    }
    let mut i: usize = 0;
    while i <= h_len - n_len
        invariant
            h_len == h@.len(),
            n_len == n@.len(),
            1 <= n_len <= h_len,
            i <= h_len - n_len + 1,
            forall|k: int| 0 <= k < i ==> !matches_at(h@, n@, k),
        decreases h_len - n_len - i + 1,
    {
        if chars_match_at(h, n, i) {
            assert(matches_at(h@, n@, i as int));
            return true;
        }
        i += 1;
    }
    assert(forall|k: int| !matches_at(h@, n@, k));
    false
}

fn ci_char_eq(a: char, b: char) -> (r: bool)
    ensures
        r == (lower32(a) == lower32(b)),
{
    let la: u32 = if a >= 'A' && a <= 'Z' {
        a as u32 + 32
    } else {
        a as u32
    };
    let lb: u32 = if b >= 'A' && b <= 'Z' {
        b as u32 + 32
    } else {
        b as u32
    };
    la == lb
}

fn ci_chars_match_at(h: &str, n: &str, i: usize) -> (r: bool)
    requires
        i + n@.len() <= h@.len(),
        h@.len() <= usize::MAX,
    ensures
        r == ci_matches_at(h@, n@, i as int),
{
    let n_len = n.unicode_len();
    let mut j: usize = 0;
    while j < n_len
        invariant
            n_len == n@.len(),
            i + n@.len() <= h@.len(),
            h@.len() <= usize::MAX,
            j <= n_len,
            forall|k: int| 0 <= k < j ==> lower32(h@[i + k]) == lower32(n@[k]),
        decreases n_len - j,
    {
        if !ci_char_eq(h.get_char(i + j), n.get_char(j)) {
            return false;
        }
        j += 1;
    }
    true
}

/// ASCII-case-insensitive substring test: does `h` contain `n` up to case?
pub fn str_contains_ci(h: &str, n: &str) -> (r: bool)
    ensures
        r == ci_contains_seq(h@, n@),
{
    let h_len = h.unicode_len();
    let n_len = n.unicode_len();
    if n_len > h_len {
        assert(forall|i: int| !ci_matches_at(h@, n@, i));
        return false;
    }
    if n_len == 0 {
        assert(ci_matches_at(h@, n@, 0));
        return true;
    }
    let mut i: usize = 0;
    while i <= h_len - n_len
        invariant
            h_len == h@.len(),
            n_len == n@.len(),
            1 <= n_len <= h_len,
            i <= h_len - n_len + 1,
            forall|k: int| 0 <= k < i ==> !ci_matches_at(h@, n@, k),
        decreases h_len - n_len - i + 1,
    {
        if ci_chars_match_at(h, n, i) {
            assert(ci_matches_at(h@, n@, i as int));
            return true;
        }
        i += 1;
    }
    assert(forall|k: int| !ci_matches_at(h@, n@, k));
    false
}

} // verus!
