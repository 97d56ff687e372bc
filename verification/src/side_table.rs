//! An explicit side table keyed by native window handle.
//!
//! The window system offers one machine word of per-window extra data; the
//! router uses it to recover the host bound to a window. The library models
//! that storage as an association from handle to host address with unique
//! keys: each window is bound at most once and only read thereafter.

use vstd::prelude::*;

verus! {

/// No two entries share a key.
pub open spec fn unique_keys(s: Seq<(usize, usize)>) -> bool {
    forall|i: int, j: int| #![trigger s[i], s[j]] 0 <= i < j < s.len() ==> s[i].0 != s[j].0
}

/// The map an entry sequence denotes, later entries taking precedence.
pub open spec fn map_of(s: Seq<(usize, usize)>) -> Map<usize, usize>
    decreases s.len(),
{
    if s.len() == 0 {
        Map::empty()
    } else {
        map_of(s.drop_last()).insert(s.last().0, s.last().1)
    }
}

/// Every entry's key is in the denoted map's domain.
proof fn lemma_map_of_contains_at(s: Seq<(usize, usize)>, i: int)
    requires
        0 <= i < s.len(),
    ensures
        map_of(s).dom().contains(s[i].0),
    decreases s.len(),
{
    if i < s.len() - 1 {
        lemma_map_of_contains_at(s.drop_last(), i);
    }
}

/// With unique keys, the denoted map sends each entry's key to its value.
proof fn lemma_map_of_value_at(s: Seq<(usize, usize)>, i: int)
    requires
        unique_keys(s),
        0 <= i < s.len(),
    ensures
        map_of(s).dom().contains(s[i].0),
        map_of(s)[s[i].0] == s[i].1,
    decreases s.len(),
{
    if i < s.len() - 1 {
        lemma_map_of_value_at(s.drop_last(), i);
    }
}

/// A key held by no entry is outside the denoted map's domain.
proof fn lemma_map_of_absent(s: Seq<(usize, usize)>, k: usize)
    requires
        forall|i: int| 0 <= i < s.len() ==> (#[trigger] s[i]).0 != k,
    ensures
        !map_of(s).dom().contains(k),
    decreases s.len(),
{
    if s.len() > 0 {
        lemma_map_of_absent(s.drop_last(), k);
    }
}

/// Association of native window handles to bound host addresses.
pub struct SideTable {
    entries: Vec<(usize, usize)>,
}

impl View for SideTable {
    type V = Map<usize, usize>;

    closed spec fn view(&self) -> Map<usize, usize> {
        map_of(self.entries@)
    }
}

impl SideTable {
    /// Internal invariant: keys are unique, so each binding is unambiguous.
    pub closed spec fn wf(&self) -> bool {
        unique_keys(self.entries@)
    }

    /// An empty table: no window is bound.
    pub fn new() -> (t: SideTable)
        ensures
            t.wf(),
            t@ == Map::<usize, usize>::empty(),
    {
        SideTable { entries: Vec::new() }
    }

    /// Looks the key up; `Some` exactly when the key is bound, with its value.
    pub fn get(&self, key: usize) -> (r: Option<usize>)
        requires
            self.wf(),
        ensures
            match r {
                Some(v) => self@.dom().contains(key) && self@[key] == v,
                None => !self@.dom().contains(key),
            },
    {
        let n = self.entries.len();
        let mut i: usize = 0;
        while i < n
            invariant
                i <= n,
                n == self.entries@.len(),
                self.wf(),
                forall|j: int| 0 <= j < i ==> (#[trigger] self.entries@[j]).0 != key,
            decreases n - i,
        {
            let e = self.entries[i];
            if e.0 == key {
                proof {
                    lemma_map_of_value_at(self.entries@, i as int);
                }
                return Some(e.1);
            }
            i = i + 1;
        }
        proof {
            lemma_map_of_absent(self.entries@, key);
        }
        None
    }

    /// Whether the key is bound.
    pub fn contains(&self, key: usize) -> (r: bool)
        requires
            self.wf(),
        ensures
            r == self@.dom().contains(key),
    {
        self.get(key).is_some()
    }

    /// Binds a fresh key. A key is bound at most once, so the caller must
    /// know it is not yet present.
    pub fn insert(&mut self, key: usize, value: usize)
        requires
            old(self).wf(),
            !old(self)@.dom().contains(key),
        ensures
            final(self).wf(),
            final(self)@ == old(self)@.insert(key, value),
    {
        proof {
            assert forall|i: int| 0 <= i < self.entries@.len() implies (#[trigger] self
                .entries@[i]).0 != key by {
                if self.entries@[i].0 == key {
                    lemma_map_of_contains_at(self.entries@, i);
                }
            }
        }
        let ghost before = self.entries@;
        self.entries.push((key, value));
        proof {
            assert(self.entries@.drop_last() =~= before);
        }
    }
}

} // verus!
