//! Character-level string helpers: equality, and splitting a
//! `"Key: Value"` command-line header argument.

use vstd::prelude::*;
use vstd::string::StrSliceExecFns;

verus! {

/// Character-by-character string equality.
pub fn str_eq(a: &str, b: &str) -> (r: bool)
    ensures
        r == (a@ == b@),
{
    let n = a.unicode_len();
    if n != b.unicode_len() {
        return false;
    }
    let mut i: usize = 0;
    while i < n
        invariant
            n == a@.len(),
            n == b@.len(),
            0 <= i <= n,
            forall|m: int| 0 <= m < i ==> a@[m] == b@[m],
        decreases n - i,
    {
        if a.get_char(i) != b.get_char(i) {
            assert(a@[i as int] != b@[i as int]);
            return false;
        }
        i += 1;
    }
    proof {
        assert(a@ =~= b@);
    }
    true
}

/// Where `s` first reads `": "`, the key before it and the value after it.
pub open spec fn kv_split_of(s: Seq<char>) -> Option<(Seq<char>, Seq<char>)>
    decreases s.len(),
{
    if s.len() < 2 {
        None
    } else if s[0] == ':' && s[1] == ' ' {
        Some((Seq::empty(), s.subrange(2, s.len() as int)))
    } else {
        match kv_split_of(s.subrange(1, s.len() as int)) {
            Some(kv) => Some((seq![s[0]] + kv.0, kv.1)),
            None => None,
        }
    }
}

/// When the first `": "` of `s` stands at `j`, the split is around it.
pub proof fn lemma_kv_split_at(s: Seq<char>, j: int)
    requires
        0 <= j,
        j + 2 <= s.len(),
        s[j] == ':' && s[j + 1] == ' ',
        forall|i: int| 0 <= i < j ==> !((#[trigger] s[i]) == ':' && s[i + 1] == ' '),
    ensures
        kv_split_of(s) == Some((s.subrange(0, j), s.subrange(j + 2, s.len() as int))),
    decreases j,
{
    let t = s.subrange(1, s.len() as int);
    if j == 0 {
        assert(s.subrange(0, 0) =~= Seq::<char>::empty());
    } else {
        assert(!(s[0] == ':' && s[1] == ' '));
        assert(t[j - 1] == ':' && t[j] == ' ');
        assert forall|i: int| 0 <= i < j - 1 implies !((#[trigger] t[i]) == ':' && t[i + 1]
            == ' ') by {
            assert(t[i] == s[i + 1]);
            assert(t[i + 1] == s[i + 2]);
            assert(!(s[i + 1] == ':' && s[i + 2] == ' '));
        }
        lemma_kv_split_at(t, j - 1);
        assert(seq![s[0]] + t.subrange(0, j - 1) =~= s.subrange(0, j));
        assert(t.subrange(j + 1, t.len() as int) =~= s.subrange(j + 2, s.len() as int));
    }
}

/// When no `": "` occurs in `s`, there is no split.
pub proof fn lemma_kv_split_none(s: Seq<char>)
    requires
        forall|i: int| 0 <= i && i + 1 < s.len() ==> !((#[trigger] s[i]) == ':' && s[i + 1] == ' '),
    ensures
        kv_split_of(s) is None,
    decreases s.len(),
{
    if s.len() >= 2 {
        let t = s.subrange(1, s.len() as int);
        assert forall|i: int| 0 <= i && i + 1 < t.len() implies !((#[trigger] t[i]) == ':' && t[i + 1]
            == ' ') by {
            assert(t[i] == s[i + 1]);
            assert(t[i + 1] == s[i + 2]);
            assert(!(s[i + 1] == ':' && s[i + 2] == ' '));
        }
        lemma_kv_split_none(t);
    }
}

/// Splits a `"Key: Value"` argument at its first `": "`.  Fails exactly when
/// `s` holds no `": "`.
pub fn parse_key_val(s: &str) -> (r: Result<(String, String), crate::DownloadError>)
    ensures
        match kv_split_of(s@) {
            Some(kv) => r is Ok && r.unwrap().0@ == kv.0 && r.unwrap().1@ == kv.1,
            None => r == Err::<(String, String), _>(crate::DownloadError::ResolutionError),
        },
{
    let n = s.unicode_len();
    let mut i: usize = 0;
    while n - i > 1
        invariant
            n == s@.len(),
            0 <= i <= n,
            forall|m: int| 0 <= m < i ==> !((#[trigger] s@[m]) == ':' && s@[m + 1] == ' '),
        decreases n - i,
    {
        if s.get_char(i) == ':' && s.get_char(i + 1) == ' ' {
            proof {
                lemma_kv_split_at(s@, i as int);
            }
            let key = s.substring_char(0, i).to_owned();
            let val = s.substring_char(i + 2, n).to_owned();
            return Ok((key, val));
        }
        i += 1;
    }
    proof {
        lemma_kv_split_none(s@);
    }
    Err(crate::DownloadError::ResolutionError)
}

} // verus!
