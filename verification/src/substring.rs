//! Literal substring containment over character sequences: the specification,
//! and a verified search over `&str`.

use vstd::prelude::*;

verus! {

/// `pat` occurs in `hay` starting at character position `i`.
pub open spec fn is_match_at(hay: Seq<char>, pat: Seq<char>, i: int) -> bool {
    &&& 0 <= i
    &&& i + pat.len() <= hay.len()
    &&& hay.subrange(i, i + pat.len() as int) == pat
}

/// `pat` occurs somewhere in `hay` as a contiguous run of characters.
pub open spec fn contains_substring(hay: Seq<char>, pat: Seq<char>) -> bool {
    exists|i: int| is_match_at(hay, pat, i)
}

/// Whether `pat` occurs in `hay` at character position `i` exactly.
fn matches_at(hay: &str, pat: &str, i: usize, pat_len: usize) -> (r: bool)
    requires
        pat_len == pat@.len(),
        i + pat_len <= hay@.len(),
        hay@.len() <= usize::MAX,
    ensures
        r == is_match_at(hay@, pat@, i as int),
{
    let mut j: usize = 0;
    while j < pat_len
        invariant
            pat_len == pat@.len(),
            i + pat_len <= hay@.len(),
            hay@.len() <= usize::MAX,
            j <= pat_len,
            forall|k: int| 0 <= k < j ==> hay@[i + k] == pat@[k],
        decreases pat_len - j,
    {
        if hay.get_char(i + j) != pat.get_char(j) {
            proof {
                let s = hay@.subrange(i as int, i + pat@.len());
                assert(s[j as int] == hay@[i + j]);
                assert(s != pat@);
            }
            return false;
        }
        j = j + 1;
    }
    proof {
        let s = hay@.subrange(i as int, i + pat@.len());
        assert(forall|k: int| 0 <= k < pat@.len() ==> s[k] == hay@[i + k]);
        assert(s =~= pat@);
    }
    true
}

/// Whether `pat` occurs as a contiguous substring of `hay`
/// (case-sensitive, character exact).
pub fn str_contains(hay: &str, pat: &str) -> (r: bool)
    ensures
        r == contains_substring(hay@, pat@),
{
    let hay_len = hay.unicode_len();
    let pat_len = pat.unicode_len();
    if pat_len == 0 {
        proof {
            assert(hay@.subrange(0, 0) =~= pat@);
            assert(is_match_at(hay@, pat@, 0));
        }
        return true;
    }
    if pat_len > hay_len {
        proof {
            assert(forall|k: int| !is_match_at(hay@, pat@, k));
        }
        return false;
    }
    let bound = hay_len - pat_len;
    let mut i: usize = 0;
    while i <= bound
        invariant
            hay_len == hay@.len(),
            pat_len == pat@.len(),
            0 < pat_len <= hay_len,
            bound == hay_len - pat_len,
            i <= bound + 1,
            forall|k: int| 0 <= k < i ==> !is_match_at(hay@, pat@, k),
        decreases bound + 1 - i,
    {
        if matches_at(hay, pat, i, pat_len) {
            return true;
        }
        i = i + 1;
    }
    proof {
        assert(forall|k: int| is_match_at(hay@, pat@, k) ==> 0 <= k <= bound);
    }
    false
}

} // verus!
