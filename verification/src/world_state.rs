//! An explicit world-state capability: the key-value store every operation
//! reads and writes.
//!
//! The host normally owns this store; operations receive it as an explicit
//! argument instead of reaching for ambient context, so the core stays
//! host-agnostic and testable.  Its abstract value is a map from byte keys to
//! byte values; `set` fully overwrites any prior value (last write wins).

use vstd::prelude::*;
use vstd::slice::slice_to_vec;

verus! {

/// Compares two byte strings for equality.
pub fn bytes_eq(a: &[u8], b: &[u8]) -> (r: bool)
    ensures
        r == (a@ == b@),
{
    if a.len() != b.len() {
        proof {
            assert(a@ != b@);
        }
        return false;
    }
    let n = a.len();
    let mut i: usize = 0;
    while i < n
        invariant
            n == a@.len() == b@.len(),
            i <= n,
            forall|k: int| 0 <= k < i ==> a@[k] == b@[k],
        decreases n - i,
    {
        if a[i] != b[i] {
            return false;
        }
        i = i + 1;
    }
    proof {
        assert(a@ =~= b@);
    }
    true
}

/// The key-value world state, as a list of entries with pairwise distinct
/// keys.
pub struct WorldState {
    entries: Vec<(Vec<u8>, Vec<u8>)>,
}

/// The map held by a list of key-value entries; a later entry for the same
/// key would win, though well-formed states never hold one.
pub closed spec fn map_of(entries: Seq<(Vec<u8>, Vec<u8>)>) -> Map<Seq<u8>, Seq<u8>>
    decreases entries.len(),
{
    if entries.len() == 0 {
        Map::empty()
    } else {
        map_of(entries.drop_last()).insert(entries.last().0@, entries.last().1@)
    }
}

proof fn lemma_map_of_contains(entries: Seq<(Vec<u8>, Vec<u8>)>, key: Seq<u8>)
    ensures
        map_of(entries).contains_key(key) <==> exists|i: int|
            0 <= i < entries.len() && entries[i].0@ == key,
    decreases entries.len(),
{
    if entries.len() > 0 {
        lemma_map_of_contains(entries.drop_last(), key);
        if entries.last().0@ == key {
            assert(entries[entries.len() - 1].0@ == key);
        } else if map_of(entries).contains_key(key) {
            let i = choose|i: int| 0 <= i < entries.drop_last().len() && entries.drop_last()[i].0@ == key;
            assert(entries[i].0@ == key);
        } else if exists|i: int| 0 <= i < entries.len() && entries[i].0@ == key {
            let i = choose|i: int| 0 <= i < entries.len() && entries[i].0@ == key;
            assert(entries.drop_last()[i].0@ == key);
        }
    }
}

proof fn lemma_map_of_index(entries: Seq<(Vec<u8>, Vec<u8>)>, i: int)
    requires
        0 <= i < entries.len(),
        forall|j: int, k: int|
            0 <= j < k < entries.len() ==> entries[j].0@ != entries[k].0@,
    ensures
        map_of(entries).contains_key(entries[i].0@),
        map_of(entries)[entries[i].0@] == entries[i].1@,
    decreases entries.len(),
{
    if i == entries.len() - 1 {
    } else {
        lemma_map_of_index(entries.drop_last(), i);
        assert(entries.drop_last()[i] == entries[i]);
        assert(entries.last().0@ != entries[i].0@);
    }
}

proof fn lemma_map_of_update(entries: Seq<(Vec<u8>, Vec<u8>)>, i: int, pair: (Vec<u8>, Vec<u8>))
    requires
        0 <= i < entries.len(),
        forall|j: int, k: int|
            0 <= j < k < entries.len() ==> entries[j].0@ != entries[k].0@,
        pair.0@ == entries[i].0@,
    ensures
        map_of(entries.update(i, pair)) == map_of(entries).insert(pair.0@, pair.1@),
    decreases entries.len(),
{
    let updated = entries.update(i, pair);
    if i == entries.len() - 1 {
        assert(updated.drop_last() =~= entries.drop_last());
        assert(map_of(updated) =~= map_of(entries).insert(pair.0@, pair.1@));
    } else {
        lemma_map_of_update(entries.drop_last(), i, pair);
        assert(updated.drop_last() =~= entries.drop_last().update(i, pair));
        assert(updated.last() == entries.last());
        assert(entries.last().0@ != pair.0@);
        assert(map_of(updated) =~= map_of(entries).insert(pair.0@, pair.1@));
    }
}

impl View for WorldState {
    type V = Map<Seq<u8>, Seq<u8>>;

    closed spec fn view(&self) -> Map<Seq<u8>, Seq<u8>> {
        map_of(self.entries@)
    }
}

impl WorldState {
    /// Well-formed: no two entries share a key.
    pub closed spec fn wf(self) -> bool {
        forall|j: int, k: int|
            0 <= j < k < self.entries@.len() ==> self.entries@[j].0@ != self.entries@[k].0@
    }

    /// An empty world state.
    pub fn new() -> (s: WorldState)
        ensures
            s.wf(),
            s@ == Map::<Seq<u8>, Seq<u8>>::empty(),
    {
        WorldState { entries: Vec::new() }
    }

    /// Fetches the bytes stored under `key`, or reports their absence.
    pub fn get(&self, key: &[u8]) -> (r: Option<Vec<u8>>)
        requires
            self.wf(),
        ensures
            match r {
                Some(value) => self@.contains_key(key@) && value@ == self@[key@],
                None => !self@.contains_key(key@),
            },
    {
        let n = self.entries.len();
        let mut i: usize = 0;
        while i < n
            invariant
                self.wf(),
                n == self.entries@.len(),
                i <= n,
                forall|k: int| 0 <= k < i ==> self.entries@[k].0@ != key@,
            decreases n - i,
        {
            if bytes_eq(self.entries[i].0.as_slice(), key) {
                let value = slice_to_vec(self.entries[i].1.as_slice());
                proof {
                    lemma_map_of_index(self.entries@, i as int);
                }
                return Some(value);
            }
            i = i + 1;
        }
        proof {
            lemma_map_of_contains(self.entries@, key@);
        }
        None
    }

    /// Stores `value` under `key`, fully overwriting any prior value.
    pub fn set(&mut self, key: &[u8], value: Vec<u8>)
        requires
            old(self).wf(),
        ensures
            final(self).wf(),
            final(self)@ == old(self)@.insert(key@, value@),
    {
        let n = self.entries.len();
        let mut i: usize = 0;
        while i < n
            invariant
                self == old(self),
                self.wf(),
                n == self.entries@.len(),
                i <= n,
                forall|k: int| 0 <= k < i ==> self.entries@[k].0@ != key@,
            decreases n - i,
        {
            if bytes_eq(self.entries[i].0.as_slice(), key) {
                let pair = (slice_to_vec(key), value);
                proof {
                    lemma_map_of_update(self.entries@, i as int, pair);
                }
                self.entries[i] = pair;
                return ;
            }
            i = i + 1;
        }
        let pair = (slice_to_vec(key), value);
        proof {
            lemma_map_of_contains(self.entries@, key@);
            assert(self.entries@.push(pair).drop_last() =~= self.entries@);
        }
        self.entries.push(pair);
    }
}

} // verus!
