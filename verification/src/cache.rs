//! The L1 cache: an in-memory map from function id to the artifact most
//! recently cached for it. Inserting for a present id overwrites (last
//! writer wins); the map view of the cache is what the fetcher's contracts
//! speak of.

use vstd::prelude::*;
use crate::artifact::{ArtifactView, FetchedFunction};

verus! {

/// The map denoted by a key-value sequence, later entries winning.
pub open spec fn map_of(s: Seq<(u128, FetchedFunction)>) -> Map<u128, ArtifactView>
    decreases s.len(),
{
    if s.len() == 0 {
        Map::empty()
    } else {
        map_of(s.drop_last()).insert(s.last().0, s.last().1@)
    }
}

/// No function id occurs twice in the backing sequence.
pub open spec fn unique_keys(s: Seq<(u128, FetchedFunction)>) -> bool {
    forall|i: int, j: int| 0 <= i < j < s.len() ==> (#[trigger] s[i]).0 != (#[trigger] s[j]).0
}

/// A key is in the map exactly when some entry carries it.
proof fn lemma_map_of_contains(s: Seq<(u128, FetchedFunction)>, k: u128)
    ensures
        map_of(s).contains_key(k) <==> exists|i: int| 0 <= i < s.len() && (#[trigger] s[i]).0 == k,
    decreases s.len(),
{
    if s.len() > 0 {
        lemma_map_of_contains(s.drop_last(), k);
        if s.last().0 == k {
            assert(s[s.len() - 1].0 == k);
        } else if map_of(s).contains_key(k) {
            let i = choose|i: int| 0 <= i < s.len() - 1 && (#[trigger] s.drop_last()[i]).0 == k;
            assert(s[i].0 == k);
        } else {
            assert(forall|i: int| 0 <= i < s.len() - 1 ==> (#[trigger] s[i]).0 == s.drop_last()[i].0);
        }
    }
}

/// With unique keys, the map's value for a key is the value of the one
/// entry that carries it.
proof fn lemma_map_of_value(s: Seq<(u128, FetchedFunction)>, i: int)
    requires
        unique_keys(s),
        0 <= i < s.len(),
    ensures
        map_of(s).contains_key(s[i].0),
        map_of(s)[s[i].0] == s[i].1@,
    decreases s.len(),
{
    if i == s.len() - 1 {
        lemma_map_of_contains(s, s[i].0);
    } else {
        assert(s.drop_last()[i] == s[i]);
        lemma_map_of_value(s.drop_last(), i);
        assert(s.last().0 != s[i].0);
    }
}

/// Overwriting the entry that carries a key updates the map at that key.
proof fn lemma_map_of_update(s: Seq<(u128, FetchedFunction)>, i: int, f: FetchedFunction)
    requires
        unique_keys(s),
        0 <= i < s.len(),
    ensures
        map_of(s.update(i, (s[i].0, f))) == map_of(s).insert(s[i].0, f@),
    decreases s.len(),
{
    let k = s[i].0;
    let t = s.update(i, (k, f));
    if i == s.len() - 1 {
        assert(t.drop_last() =~= s.drop_last());
        assert(map_of(t) =~= map_of(s).insert(k, f@));
    } else {
        assert(t.drop_last() =~= s.drop_last().update(i, (k, f)));
        assert(s.drop_last()[i] == s[i]);
        lemma_map_of_update(s.drop_last(), i, f);
        assert(t.last() == s.last());
        assert(s.last().0 != k);
        assert(map_of(t) =~= map_of(s).insert(k, f@));
    }
}

/// The L1 in-memory cache.
pub struct MemoryCache {
    entries: Vec<(u128, FetchedFunction)>,
}

impl View for MemoryCache {
    type V = Map<u128, ArtifactView>;

    closed spec fn view(&self) -> Map<u128, ArtifactView> {
        map_of(self.entries@)
    }
}

impl MemoryCache {
    /// The cache's structural invariant: one entry per function id.
    pub closed spec fn wf(&self) -> bool {
        unique_keys(self.entries@)
    }

    /// An empty cache.
    pub fn new() -> (r: Self)
        ensures
            r.wf(),
            r@ == Map::<u128, ArtifactView>::empty(),
    {
        MemoryCache { entries: Vec::new() }
    }

    /// A shared handle to the artifact cached for `id`, if any.
    pub fn lookup(&self, id: u128) -> (r: Option<&FetchedFunction>)
        requires
            self.wf(),
        ensures
            match r {
                Some(f) => self@.contains_key(id) && f@ == self@[id],
                None => !self@.contains_key(id),
            },
    {
        let n = self.entries.len();
        let mut i: usize = 0;
        while i < n
            invariant
                self.wf(),
                n == self.entries@.len(),
                i <= n,
                forall|j: int| 0 <= j < i ==> (#[trigger] self.entries@[j]).0 != id,
            decreases n - i,
        {
            if self.entries[i].0 == id {
                proof {
                    lemma_map_of_value(self.entries@, i as int);
                }
                return Some(&self.entries[i].1);
            }
            i = i + 1;
        }
        proof {
            lemma_map_of_contains(self.entries@, id);
        }
        None
    }

    /// Caches `f` for `id`, overwriting any entry already there.
    pub fn insert(&mut self, id: u128, f: FetchedFunction)
        requires
            old(self).wf(),
        ensures
            final(self).wf(),
            final(self)@ == old(self)@.insert(id, f@),
    {
        let n = self.entries.len();
        let mut i: usize = 0;
        while i < n
            invariant
                self.wf(),
                self.entries@ == old(self).entries@,
                n == self.entries@.len(),
                i <= n,
                forall|j: int| 0 <= j < i ==> (#[trigger] self.entries@[j]).0 != id,
            decreases n - i,
        {
            if self.entries[i].0 == id {
                proof {
                    lemma_map_of_update(self.entries@, i as int, f);
                }
                self.entries[i] = (id, f);
                proof {
                    assert(unique_keys(self.entries@)) by {
                        assert(forall|j: int| 0 <= j < self.entries@.len() && j != i ==> (
                        #[trigger] self.entries@[j]) == old(self).entries@[j]);
                    }
                }
                return ;
            }
            i = i + 1;
        }
        self.entries.push((id, f));
        proof {
            assert(self.entries@.drop_last() =~= old(self).entries@);
            assert(unique_keys(self.entries@)) by {
                assert(forall|j: int| 0 <= j < self.entries@.len() - 1 ==> (
                #[trigger] self.entries@[j]) == old(self).entries@[j]);
            }
        }
    }
}

} // verus!
