//! Small verified string helpers.
use vstd::prelude::*;
use vstd::string::StrSliceExecFns;

verus! {

/// Compares two string slices character by character.
pub fn str_equals(a: &str, b: &str) -> (r: bool)
    ensures
        r == (a@ == b@),
{
    let n = a.unicode_len();
    if n != b.unicode_len() {
        return false;
    }
    let mut i: usize = 0;
    while i < n
        invariant
            n == a@.len(),
            n == b@.len(),
            i <= n,
            forall|k: int| 0 <= k < i ==> a@[k] == b@[k],
        decreases n - i,
    {
        if a.get_char(i) != b.get_char(i) {
            return false;
        }
        i = i + 1;
    }
    assert(a@ =~= b@);
    true
}

/// `r` is `s` with every leading and trailing NUL removed: the characters
/// before `lo` and from `hi` on are NUL, and the kept part starts and ends
/// with a character other than NUL.
pub open spec fn null_trim_bounds(s: Seq<char>, lo: int, hi: int) -> bool {
    &&& 0 <= lo <= hi <= s.len()
    &&& forall|k: int| 0 <= k < lo ==> s[k] == '\0'
    &&& forall|k: int| hi <= k < s.len() ==> s[k] == '\0'
    &&& lo < hi ==> s[lo] != '\0' && s[hi - 1] != '\0'
}

pub open spec fn is_null_trim(s: Seq<char>, r: Seq<char>) -> bool {
    exists|lo: int, hi: int| null_trim_bounds(s, lo, hi) && r == s.subrange(lo, hi)
}

/// The NULs of `s` all stand before or after its other characters.
pub open spec fn nulls_only_at_ends(s: Seq<char>) -> bool {
    forall|i: int, j: int, k: int|
        0 <= i < j < k < s.len() && s[i] != '\0' && s[k] != '\0' ==> s[j] != '\0'
}

/// The name held in a NUL-padded text buffer starts at the first character
/// other than NUL (`lo`) and runs up to the next NUL or the end (`hi`).
pub open spec fn padded_name_bounds(s: Seq<char>, lo: int, hi: int) -> bool {
    &&& 0 <= lo <= hi <= s.len()
    &&& forall|k: int| 0 <= k < lo ==> s[k] == '\0'
    &&& lo < s.len() ==> s[lo] != '\0'
    &&& forall|k: int| lo <= k < hi ==> s[k] != '\0'
    &&& hi < s.len() ==> s[hi] == '\0'
}

/// `r` is the name held in the NUL-padded text `s`.
pub open spec fn is_padded_name(s: Seq<char>, r: Seq<char>) -> bool {
    exists|lo: int, hi: int| padded_name_bounds(s, lo, hi) && r == s.subrange(lo, hi)
}

/// Reads the name out of a NUL-padded text: skips the leading NULs and keeps
/// what follows up to the next NUL.
pub fn padded_name(s: &str) -> (r: String)
    ensures
        is_padded_name(s@, r@),
        forall|i: int| 0 <= i < r@.len() ==> r@[i] != '\0',
{
    let n = s.unicode_len();
    let mut lo: usize = 0;
    while lo < n && s.get_char(lo) == '\0'
        invariant
            n == s@.len(),
            lo <= n,
            forall|k: int| 0 <= k < lo ==> s@[k] == '\0',
        decreases n - lo,
    {
        lo = lo + 1;
    }
    let mut hi: usize = lo;
    while hi < n && s.get_char(hi) != '\0'
        invariant
            n == s@.len(),
            lo <= hi <= n,
            forall|k: int| lo <= k < hi ==> s@[k] != '\0',
        decreases n - hi,
    {
        hi = hi + 1;
    }
    let r = s.substring_char(lo, hi).to_string();
    assert(padded_name_bounds(s@, lo as int, hi as int));
    r
}

/// The name is determined by the text: two readings of one text agree.
pub proof fn lemma_padded_name_unique(s: Seq<char>, r1: Seq<char>, r2: Seq<char>)
    requires
        is_padded_name(s, r1),
        is_padded_name(s, r2),
    ensures
        r1 == r2,
{
    let (lo1, hi1) = choose|lo: int, hi: int| padded_name_bounds(s, lo, hi) && r1 == s.subrange(lo, hi);
    let (lo2, hi2) = choose|lo: int, hi: int| padded_name_bounds(s, lo, hi) && r2 == s.subrange(lo, hi);
    if lo1 < lo2 {
        assert(s[lo1] == '\0');
    } else if lo2 < lo1 {
        assert(s[lo2] == '\0');
    }
    assert(lo1 == lo2);
    if hi1 < hi2 {
        assert(s[hi1] != '\0');
    } else if hi2 < hi1 {
        assert(s[hi2] != '\0');
    }
    assert(r1 =~= r2);
}

/// A name read from a padded text holds no NUL; where the NULs of the text
/// stood only at its ends, it is the text with its leading and trailing NULs
/// removed.
pub proof fn lemma_padded_name_clean(s: Seq<char>, r: Seq<char>)
    requires
        is_padded_name(s, r),
    ensures
        forall|i: int| 0 <= i < r.len() ==> r[i] != '\0',
        nulls_only_at_ends(s) ==> is_null_trim(s, r),
{
    let (lo, hi) = choose|lo: int, hi: int| padded_name_bounds(s, lo, hi) && r == s.subrange(lo, hi);
    assert forall|i: int| 0 <= i < r.len() implies r[i] != '\0' by {
        assert(r[i] == s[lo + i]);
    }
    if nulls_only_at_ends(s) {
        assert forall|k: int| hi <= k < s.len() implies s[k] == '\0' by {
            if k > hi && s[k] != '\0' {
                assert(s[lo] != '\0' && s[hi] == '\0');
            }
        }
        assert(null_trim_bounds(s, lo, hi));
    }
}

} // verus!
