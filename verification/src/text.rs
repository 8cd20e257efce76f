//! Verified text utilities: character-exact string equality, substring
//! search, and display truncation.

use vstd::prelude::*;
use vstd::string::StrSliceExecFns;
use vstd::string::StringExecFns;

verus! {

/// `needle` occurs in `hay` starting at position `i`.
pub open spec fn matches_at(hay: Seq<char>, needle: Seq<char>, i: int) -> bool {
    &&& 0 <= i
    &&& i + needle.len() <= hay.len()
    &&& hay.subrange(i, i + needle.len()) == needle
}

/// `needle` occurs somewhere in `hay`; the empty text occurs everywhere.
pub open spec fn is_substring(hay: Seq<char>, needle: Seq<char>) -> bool {
    exists|i: int| matches_at(hay, needle, i)
}

/// Character-for-character equality of two string slices.
pub fn str_eq(a: &str, b: &str) -> (r: bool)
    ensures
        r == (a@ == b@),
{
    let n = a.unicode_len();
    if n != b.unicode_len() {
        return false;
    }
    let mut i: usize = 0;
    while i < n
        invariant
            n == a@.len(),
            n == b@.len(),
            i <= n,
            forall|k: int| 0 <= k < i ==> a@[k] == b@[k],
        decreases n - i,
    {
        if a.get_char(i) != b.get_char(i) {
            return false;
        }
        i = i + 1;
    }
    assert(a@ =~= b@);
    true
}

/// Whether the characters of `hay` starting at `at` equal `needle`.
fn matches_prefix_at(hay: &str, needle: &str, at: usize) -> (r: bool)
    requires
        at + needle@.len() <= hay@.len(),
        hay@.len() <= usize::MAX,
    ensures
        r == matches_at(hay@, needle@, at as int),
{
    let n = needle.unicode_len();
    let mut j: usize = 0;
    while j < n
        invariant
            n == needle@.len(),
            at + n <= hay@.len(),
            hay@.len() <= usize::MAX,
            j <= n,
            forall|k: int| 0 <= k < j ==> hay@[at + k] == needle@[k],
        decreases n - j,
    {
        if hay.get_char(at + j) != needle.get_char(j) {
            assert(hay@.subrange(at as int, at + n)[j as int] == hay@[at + j]);
            return false;
        }
        j = j + 1;
    }
    assert(hay@.subrange(at as int, at + n) =~= needle@);
    true
}

/// Whether `needle` occurs anywhere in `hay`.
pub fn contains_substring(hay: &str, needle: &str) -> (r: bool)
    ensures
        r == is_substring(hay@, needle@),
{
    let h = hay.unicode_len();
    let n = needle.unicode_len();
    if n > h {
        return false;
    }
    let last = h - n;
    let mut i: usize = 0;
    while i < last
        invariant
            h == hay@.len(),
            n == needle@.len(),
            n <= h,
            last == h - n,
            i <= last,
            forall|k: int| 0 <= k < i ==> !matches_at(hay@, needle@, k),
        decreases last - i,
    {
        if matches_prefix_at(hay, needle, i) {
            assert(matches_at(hay@, needle@, i as int));
            return true;
        }
        i = i + 1;
    }
    if matches_prefix_at(hay, needle, last) {
        assert(matches_at(hay@, needle@, last as int));
        return true;
    }
    assert forall|k: int| !matches_at(hay@, needle@, k) by {
        if 0 <= k <= last {
            assert(!matches_at(hay@, needle@, k));
        }
    }
    false
}

/// What `limit` returns: the text unchanged when it has at most `n`
/// characters, else its first `n` characters followed by an ellipsis.
pub open spec fn limited(s: Seq<char>, n: int) -> Seq<char> {
    if s.len() > n {
        s.subrange(0, n) + "..."@
    } else {
        s
    }
}

/// Truncation of display text to a character budget.
pub trait LimitString: View<V = Seq<char>> {
    /// Return the text unchanged when it has at most `limit` characters,
    /// else its first `limit` characters followed by `...`.
    fn limit(&self, limit: usize) -> (r: String)
        ensures
            r@ == limited(self@, limit as int),
    ;
}

impl LimitString for String {
    fn limit(&self, limit: usize) -> (r: String) {
        let n = self.as_str().unicode_len();
        if n > limit {
            let prefix = self.as_str().substring_char(0, limit);
            let mut r = String::from_str(prefix);
            r.append("...");
            r
        } else {
            self.clone()
        }
    }
}

} // verus!
