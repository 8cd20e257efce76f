//! Ordered header multimap: keys compare ASCII-case-insensitively,
//! duplicate keys are preserved in insertion order, and values are only
//! ever appended, never overwritten.

use vstd::prelude::*;
use vstd::string::StrSliceExecFns;
use vstd::string::StringExecFns;

verus! {

/// One header line: a name and one value.
pub struct HeaderEntry {
    pub name: String,
    pub value: String,
}

impl View for HeaderEntry {
    type V = (Seq<char>, Seq<char>);

    open spec fn view(&self) -> (Seq<char>, Seq<char>) {
        (self.name@, self.value@)
    }
}

impl Clone for HeaderEntry {
    fn clone(&self) -> (r: Self)
        ensures
            r@ == self@,
    {
        HeaderEntry { name: self.name.clone(), value: self.value.clone() }
    }
}

/// ASCII-case-insensitive equality of two characters.
pub open spec fn chars_eq_nocase(a: char, b: char) -> bool {
    ||| a == b
    ||| (65 <= a as u32 <= 90 && b as u32 == a as u32 + 32)
    ||| (65 <= b as u32 <= 90 && a as u32 == b as u32 + 32)
}

/// ASCII-case-insensitive equality of two header names.
pub open spec fn keys_eq_nocase(a: Seq<char>, b: Seq<char>) -> bool {
    &&& a.len() == b.len()
    &&& forall|i: int| 0 <= i < a.len() ==> chars_eq_nocase(a[i], b[i])
}

/// Compare two header names, ignoring ASCII case.
pub fn names_eq_nocase(a: &str, b: &str) -> (r: bool)
    ensures
        r == keys_eq_nocase(a@, b@),
{
    let n = a.unicode_len();
    if n != b.unicode_len() {
        return false;
    }
    let mut i: usize = 0;
    while i < n
        invariant
            n == a@.len(),
            n == b@.len(),
            i <= n,
            forall|k: int| 0 <= k < i ==> chars_eq_nocase(a@[k], b@[k]),
        decreases n - i,
    {
        let ca = a.get_char(i);
        let cb = b.get_char(i);
        let au = ca as u32;
        let bu = cb as u32;
        let same = ca == cb || (65 <= au && au <= 90 && bu == au + 32) || (65 <= bu && bu <= 90
            && au == bu + 32);
        if !same {
            return false;
        }
        i = i + 1;
    }
    true
}

/// The values that stand under `key` in `h`, in insertion order, compared
/// case-insensitively.
pub open spec fn values_for(h: Seq<(Seq<char>, Seq<char>)>, key: Seq<char>) -> Seq<Seq<char>>
    decreases h.len(),
{
    if h.len() == 0 {
        Seq::empty()
    } else {
        let rest = values_for(h.drop_last(), key);
        if keys_eq_nocase(h.last().0, key) {
            rest.push(h.last().1)
        } else {
            rest
        }
    }
}

/// The ordered header multimap.
pub struct HeaderMap {
    entries: Vec<HeaderEntry>,
}

impl View for HeaderMap {
    type V = Seq<(Seq<char>, Seq<char>)>;

    closed spec fn view(&self) -> Seq<(Seq<char>, Seq<char>)> {
        self.entries@.map_values(|e: HeaderEntry| e@)
    }
}

impl Clone for HeaderMap {
    fn clone(&self) -> (r: Self)
        ensures
            r@ == self@,
    {
        let mut entries: Vec<HeaderEntry> = Vec::new();
        let mut i: usize = 0;
        while i < self.entries.len()
            invariant
                i <= self.entries@.len(),
                entries@.len() == i as int,
                forall|k: int| 0 <= k < i ==> entries@[k]@ == self.entries@[k]@,
            decreases self.entries@.len() - i,
        {
            entries.push(self.entries[i].clone());
            i = i + 1;
        }
        let r = HeaderMap { entries };
        proof {
            assert(r@ =~= self@);
        }
        r
    }
}

impl HeaderMap {
    /// An empty header map.
    pub fn new() -> (r: HeaderMap)
        ensures
            r@ == Seq::<(Seq<char>, Seq<char>)>::empty(),
    {
        let r = HeaderMap { entries: Vec::new() };
        proof {
            assert(r@ =~= Seq::<(Seq<char>, Seq<char>)>::empty());
        }
        r
    }

    /// How many header lines the map holds.
    pub fn len(&self) -> (r: usize)
        ensures
            r == self@.len(),
    {
        self.entries.len()
    }

    /// The header line at position `i`.
    pub fn entry_at(&self, i: usize) -> (r: &HeaderEntry)
        requires
            i < self@.len(),
        ensures
            r@ == self@[i as int],
    {
        &self.entries[i]
    }

    /// Add one value under `name`; existing values are kept, never replaced.
    pub fn append(&mut self, name: &str, value: &str)
        ensures
            final(self)@ == old(self)@.push((name@, value@)),
    {
        self.entries.push(
            HeaderEntry { name: String::from_str(name), value: String::from_str(value) },
        );
        proof {
            assert(self@ =~= old(self)@.push((name@, value@)));
        }
    }

    /// All values under `name` (ignoring ASCII case of the name), in
    /// insertion order.
    pub fn values_of(&self, name: &str) -> (r: Vec<String>)
        ensures
            r@.map_values(|v: String| v@) == values_for(self@, name@),
    {
        let mut r: Vec<String> = Vec::new();
        let mut i: usize = 0;
        while i < self.entries.len()
            invariant
                i <= self.entries@.len(),
                r@.map_values(|v: String| v@) == values_for(
                    self@.subrange(0, i as int),
                    name@,
                ),
            decreases self.entries@.len() - i,
        {
            proof {
                assert(self@.subrange(0, i as int + 1).drop_last() =~= self@.subrange(
                    0,
                    i as int,
                ));
                assert(self@.subrange(0, i as int + 1).last() == self@[i as int]);
            }
            if names_eq_nocase(self.entries[i].name.as_str(), name) {
                r.push(self.entries[i].value.clone());
                proof {
                    assert(r@.map_values(|v: String| v@) =~= values_for(
                        self@.subrange(0, i as int + 1),
                        name@,
                    ));
                }
            } else {
                proof {
                    assert(r@.map_values(|v: String| v@) =~= values_for(
                        self@.subrange(0, i as int + 1),
                        name@,
                    ));
                }
            }
            i = i + 1;
        }
        proof {
            assert(self@.subrange(0, self@.len() as int) =~= self@);
        }
        r
    }

    /// Whether the exact line (`name`, `value`) is present, character for
    /// character.
    pub fn contains_entry(&self, name: &str, value: &str) -> (r: bool)
        ensures
            r == self@.contains((name@, value@)),
    {
        let mut i: usize = 0;
        while i < self.entries.len()
            invariant
                i <= self.entries@.len(),
                forall|k: int| 0 <= k < i ==> self@[k] != (name@, value@),
            decreases self.entries@.len() - i,
        {
            if crate::text::str_eq(self.entries[i].name.as_str(), name) && crate::text::str_eq(
                self.entries[i].value.as_str(),
                value,
            ) {
                assert(self@[i as int] == (name@, value@));
                return true;
            }
            i = i + 1;
        }
        false
    }
}

} // verus!
