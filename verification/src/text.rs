//! Case-insensitive substring matching, used by the duplicate guard and
//! the queue search.
//!
//! Folding is ASCII-only: `'A'..='Z'` map to their lower-case forms and
//! every other character stands for itself.

use vstd::prelude::*;

verus! {

/// ASCII lower-casing of one character; non-ASCII characters are unchanged.
pub open spec fn lower_char(c: char) -> char {
    if 'A' <= c && c <= 'Z' {
        (((c as u8) + 32) as char)
    } else {
        c
    }
}

/// The needle `n` occurs in the haystack `h` at offset `k`, comparing
/// characters case-insensitively.
pub open spec fn matches_at(h: Seq<char>, n: Seq<char>, k: int) -> bool {
    &&& 0 <= k
    &&& k + n.len() <= h.len()
    &&& forall|j: int| 0 <= j < n.len() ==> lower_char(h[k + j]) == lower_char(n[j])
}

/// The needle `n` occurs somewhere in the haystack `h`, comparing
/// characters case-insensitively.
pub open spec fn contains_ci(h: Seq<char>, n: Seq<char>) -> bool {
    exists|k: int| matches_at(h, n, k)
}

/// ASCII lower-casing of one character.
pub fn lower(c: char) -> (r: char)
    ensures
        r == lower_char(c),
{
    if 'A' <= c && c <= 'Z' {
        ((c as u8) + 32) as char
    } else {
        c
    }
}

/// Does `needle` occur in `haystack`, comparing case-insensitively?
pub fn str_contains_ci(haystack: &str, needle: &str) -> (r: bool)
    ensures
        r == contains_ci(haystack@, needle@),
{
    let hl = haystack.unicode_len();
    let nl = needle.unicode_len();
    if nl > hl {
        return false;
    }
    let mut k: usize = 0;
    while k <= hl - nl
        invariant
            hl == haystack@.len(),
            nl == needle@.len(),
            nl <= hl,
            k <= hl - nl + 1,
            forall|k2: int| 0 <= k2 < k ==> !matches_at(haystack@, needle@, k2),
        decreases hl - nl + 1 - k,
    {
        let mut j: usize = 0;
        let mut ok = true;
        while j < nl && ok
            invariant
                hl == haystack@.len(),
                nl == needle@.len(),
                nl <= hl,
                k <= hl - nl,
                j <= nl,
                ok ==> forall|j2: int| 0 <= j2 < j
                    ==> lower_char(haystack@[k + j2]) == lower_char(needle@[j2]),
                !ok ==> !matches_at(haystack@, needle@, k as int),
            decreases nl - j + (if ok { 1int } else { 0int }),
        {
            let hc = haystack.get_char(k + j);
            let nc = needle.get_char(j);
            if lower(hc) != lower(nc) {
                proof {
                    assert(matches_at(haystack@, needle@, k as int)
                        ==> lower_char(haystack@[k + j]) == lower_char(needle@[j as int]));
                }
                ok = false;
            } else {
                j += 1;
            }
        }
        if ok {
            assert(matches_at(haystack@, needle@, k as int));
            return true;
        }
        k += 1;
    }
    false
}

} // verus!
