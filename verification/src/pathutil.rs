//! The final path component of a URI or path string.
//!
//! Downloaded resources are named by the basename of their source URI, and the
//! rewritten local manifest refers to them by that same basename.

use vstd::prelude::*;
use vstd::string::StrSliceExecFns;

verus! {

/// The suffix of `s` after its last '/', or all of `s` when it has none.
pub open spec fn basename_of(s: Seq<char>) -> Seq<char>
    decreases s.len(),
{
    if exists|i: int| 0 <= i < s.len() && s[i] == '/' {
        basename_of(s.subrange(1, s.len() as int))
    } else {
        s
    }
}

/// A string without '/' is its own basename.
pub proof fn lemma_basename_no_slash(s: Seq<char>)
    requires
        forall|i: int| 0 <= i < s.len() ==> s[i] != '/',
    ensures
        basename_of(s) == s,
{
}

/// When the last '/' of `s` stands at `j`, the basename is what follows it.
pub proof fn lemma_basename_split(s: Seq<char>, j: int)
    requires
        0 <= j < s.len(),
        s[j] == '/',
        forall|i: int| j < i < s.len() ==> s[i] != '/',
    ensures
        basename_of(s) == s.subrange(j + 1, s.len() as int),
    decreases j,
{
    let t = s.subrange(1, s.len() as int);
    assert(exists|i: int| 0 <= i < s.len() && s[i] == '/') by {
        assert(0 <= j < s.len() && s[j] == '/');
    }
    if j == 0 {
        assert(forall|i: int| 0 <= i < t.len() ==> t[i] != '/') by {
            assert(forall|i: int| 0 <= i < t.len() ==> t[i] == s[i + 1]);
        }
        lemma_basename_no_slash(t);
        assert(t =~= s.subrange(1, s.len() as int));
    } else {
        assert(t[j - 1] == '/');
        assert(forall|i: int| j - 1 < i < t.len() ==> t[i] != '/') by {
            assert(forall|i: int| 0 <= i < t.len() ==> t[i] == s[i + 1]);
        }
        lemma_basename_split(t, j - 1);
        assert(t.subrange(j, t.len() as int) =~= s.subrange(j + 1, s.len() as int));
    }
}

/// The basename of `src`: everything after the last '/', or `src` itself when
/// it holds none.  Empty exactly when `src` is empty or ends with '/'.
pub fn basename(src: &str) -> (r: String)
    ensures
        r@ == basename_of(src@),
{
    let n = src.unicode_len();
    let mut cut: usize = 0;
    let mut i: usize = 0;
    while i < n
        invariant
            n == src@.len(),
            0 <= cut <= i <= n,
            forall|m: int| cut <= m < i ==> src@[m] != '/',
            cut > 0 ==> src@[cut - 1] == '/',
        decreases n - i,
    {
        if src.get_char(i) == '/' {
            cut = i + 1;
        }
        i += 1;
    }
    proof {
        if cut == 0 {
            lemma_basename_no_slash(src@);
            assert(src@.subrange(0, n as int) =~= src@);
        } else {
            lemma_basename_split(src@, cut - 1);
        }
    }
    src.substring_char(cut, n).to_owned()
}

} // verus!
