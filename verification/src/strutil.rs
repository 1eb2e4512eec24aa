//! Verified helpers on strings: equality, substring search, stripping of
//! leading NUL padding (a known corruption artifact in the archives).

use vstd::prelude::*;
use vstd::string::*;

verus! {

/// Character-wise string equality, specified against the views.
pub fn str_eq(a: &str, b: &str) -> (r: bool)
    ensures
        r == (a@ == b@),
{
    let la = a.unicode_len();
    let lb = b.unicode_len();
    if la != lb {
        return false;
    }
    let mut i: usize = 0;
    while i < la
        invariant
            la == a@.len(),
            lb == b@.len(),
            la == lb,
            i <= la,
            forall|j: int| 0 <= j < i ==> a@[j] == b@[j],
        decreases la - i,
    {
        if a.get_char(i) != b.get_char(i) {
            proof {
                assert(a@[i as int] != b@[i as int]);
            }
            return false;
        }
        i += 1;
    }
    proof {
        assert(a@ =~= b@);
    }
    true
}

/// `needle` occurs contiguously somewhere in `hay`.
pub open spec fn spec_contains(hay: Seq<char>, needle: Seq<char>) -> bool {
    exists|i: int|
        0 <= i && i + needle.len() <= hay.len() && #[trigger] hay.subrange(i, i + needle.len())
            == needle
}

/// Substring search, specified against `spec_contains`.
pub fn str_contains(hay: &str, needle: &str) -> (r: bool)
    ensures
        r == spec_contains(hay@, needle@),
{
    let hl = hay.unicode_len();
    let nl = needle.unicode_len();
    if nl > hl {
        return false;
    }
    if nl == 0 {
        proof {
            assert(hay@.subrange(0, 0 + needle@.len() as int) =~= needle@);
        }
        return true;
    }
    let mut i: usize = 0;
    while i <= hl - nl
        invariant
            hl == hay@.len(),
            nl == needle@.len(),
            1 <= nl <= hl,
            i <= hl - nl + 1,
            forall|k: int| 0 <= k < i ==> #[trigger] hay@.subrange(k, k + nl) != needle@,
        decreases hl - i,
    {
        let mut j: usize = 0;
        let mut mismatch: bool = false;
        while j < nl
            invariant
                hl == hay@.len(),
                nl == needle@.len(),
                1 <= nl,
                i + nl <= hl,
                j <= nl,
                !mismatch ==> forall|m: int| 0 <= m < j ==> hay@[i + m] == needle@[m],
                mismatch ==> hay@.subrange(i as int, i + nl) != needle@,
            decreases nl - j,
        {
            if hay.get_char(i + j) != needle.get_char(j) {
                proof {
                    assert(hay@.subrange(i as int, i + nl)[j as int] == hay@[i + j]);
                }
                mismatch = true;
                j = nl;
            } else {
                j += 1;
            }
        }
        if !mismatch {
            proof {
                assert(hay@.subrange(i as int, i + nl) =~= needle@);
            }
            return true;
        }
        i += 1;
    }
    proof {
        assert(forall|k: int| 0 <= k && k + nl <= hl ==> #[trigger] hay@.subrange(k, k + nl) != needle@);
    }
    false
}

/// The Unicode lowercasing of a character sequence, as `str::to_lowercase`
/// computes it; it depends on the characters alone.
pub uninterp spec fn lower_of(s: Seq<char>) -> Seq<char>;

/// Relies on `str::to_lowercase`: the result is a function of the
/// characters alone, named `lower_of` here.
#[verifier::external_body]
pub fn lowercase(s: &str) -> (r: String)
    ensures
        r@ == lower_of(s@),
{
    s.to_lowercase()
}

/// Length of the maximal prefix of `s` that consists of NUL characters.
pub open spec fn nul_prefix_len(s: Seq<char>) -> int
    decreases s.len(),
{
    if s.len() == 0 || s[0] != '\0' {
        0
    } else {
        1 + nul_prefix_len(s.drop_first())
    }
}

proof fn lemma_nul_prefix_len(s: Seq<char>, i: int)
    requires
        0 <= i <= s.len(),
        forall|j: int| 0 <= j < i ==> s[j] == '\0',
        i == s.len() || s[i] != '\0',
    ensures
        nul_prefix_len(s) == i,
    decreases s.len(),
{
    if s.len() == 0 || s[0] != '\0' {
    } else {
        assert(s[0] == '\0');
        lemma_nul_prefix_len(s.drop_first(), i - 1);
    }
}

/// A line with its leading NUL padding removed.
pub open spec fn nul_stripped(s: Seq<char>) -> Seq<char> {
    s.subrange(nul_prefix_len(s), s.len() as int)
}

/// Strips the leading NUL padding off a line, leaving the rest unchanged.
pub fn strip_nul(s: &str) -> (r: String)
    ensures
        r@ == nul_stripped(s@),
{
    let len = s.unicode_len();
    let mut i: usize = 0;
    while i < len && s.get_char(i) == '\0'
        invariant
            len == s@.len(),
            i <= len,
            forall|j: int| 0 <= j < i ==> s@[j] == '\0',
        decreases len - i,
    {
        i += 1;
    }
    proof {
        lemma_nul_prefix_len(s@, i as int);
    }
    s.substring_char(i, len).to_owned()
}

} // verus!
