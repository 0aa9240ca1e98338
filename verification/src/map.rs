//! Maps from keys to values, with unique keys.
use crate::key::RedisKey;
use crate::value::{map_view, RedisValue, ValueView};
use vstd::prelude::*;

verus! {

/// The entries of a map as the contracts see them: pairs of a key's bytes and a
/// value.
pub type Entries = Seq<(Seq<u8>, ValueView)>;

/// Whether some entry has the key.
pub open spec fn has_key(entries: Entries, key: Seq<u8>) -> bool {
    exists|i: int| 0 <= i < entries.len() && (#[trigger] entries[i]).0 == key
}

/// The position of an entry with the key, where there is one.
pub open spec fn index_of_key(entries: Entries, key: Seq<u8>) -> int {
    choose|i: int| 0 <= i < entries.len() && (#[trigger] entries[i]).0 == key
}

/// Whether no two entries have the same key.
pub open spec fn keys_distinct(entries: Entries) -> bool {
    forall|i: int, j: int|
        0 <= i < j < entries.len() ==> (#[trigger] entries[i]).0 != (#[trigger] entries[j]).0
}

/// The value stored under the key, if any.
pub open spec fn lookup(entries: Entries, key: Seq<u8>) -> Option<ValueView> {
    if has_key(entries, key) {
        Some(entries[index_of_key(entries, key)].1)
    } else {
        None
    }
}

/// The entries as a mathematical map, in which their order does not show.
pub open spec fn to_map(entries: Entries) -> Map<Seq<u8>, ValueView> {
    Map::new(|k: Seq<u8>| has_key(entries, k), |k: Seq<u8>| entries[index_of_key(entries, k)].1)
}

/// The entries after a value is stored under a key: the entry with that key is
/// replaced where there is one, and a new entry is added at the end otherwise.
pub open spec fn with_entry(entries: Entries, key: Seq<u8>, value: ValueView) -> Entries {
    if has_key(entries, key) {
        entries.update(index_of_key(entries, key), (key, value))
    } else {
        entries.push((key, value))
    }
}

/// Storing a value keeps the keys distinct, and is the insertion of the
/// mathematical map.
pub proof fn lemma_with_entry(entries: Entries, key: Seq<u8>, value: ValueView)
    requires
        keys_distinct(entries),
    ensures
        keys_distinct(with_entry(entries, key, value)),
        to_map(with_entry(entries, key, value)) == to_map(entries).insert(key, value),
{
    let after = with_entry(entries, key, value);
    if has_key(entries, key) {
        let at = index_of_key(entries, key);
        assert forall|i: int, j: int| 0 <= i < j < after.len() implies (#[trigger] after[i]).0 != (
        #[trigger] after[j]).0 by {
            assert(after[i].0 == entries[i].0);
            assert(after[j].0 == entries[j].0);
        }
        assert forall|k: Seq<u8>| has_key(after, k) == has_key(entries, k) by {
            if has_key(after, k) {
                let i = index_of_key(after, k);
                assert(entries[i].0 == k);
            }
            if has_key(entries, k) {
                let i = index_of_key(entries, k);
                assert(after[i].0 == k);
            }
        }
        assert forall|k: Seq<u8>| has_key(after, k) implies #[trigger] to_map(after)[k] == to_map(
            entries,
        ).insert(key, value)[k] by {
            let i = index_of_key(after, k);
            assert(entries[i].0 == k);
            let j = index_of_key(entries, k);
            if i != j {
                if i < j {
                    assert(entries[i].0 != entries[j].0);
                } else {
                    assert(entries[j].0 != entries[i].0);
                }
            }
            if k == key {
                if i != at {
                    if i < at {
                        assert(entries[i].0 != entries[at].0);
                    } else {
                        assert(entries[at].0 != entries[i].0);
                    }
                }
            }
        }
        assert(to_map(after).dom() =~= to_map(entries).insert(key, value).dom());
        assert(to_map(after) =~= to_map(entries).insert(key, value));
    } else {
        let n = entries.len() as int;
        assert forall|i: int, j: int| 0 <= i < j < after.len() implies (#[trigger] after[i]).0 != (
        #[trigger] after[j]).0 by {
            if j == n {
                assert(entries[i].0 != key);
            } else {
                assert(after[i].0 == entries[i].0);
                assert(after[j].0 == entries[j].0);
            }
        }
        assert(after[n].0 == key);
        assert forall|k: Seq<u8>| has_key(after, k) == (has_key(entries, k) || k == key) by {
            if has_key(after, k) {
                let i = index_of_key(after, k);
                if i < n {
                    assert(entries[i].0 == k);
                }
            }
            if has_key(entries, k) {
                let i = index_of_key(entries, k);
                assert(after[i].0 == k);
            }
        }
        assert forall|k: Seq<u8>| has_key(after, k) implies #[trigger] to_map(after)[k] == to_map(
            entries,
        ).insert(key, value)[k] by {
            let i = index_of_key(after, k);
            if k == key {
                if i < n {
                    assert(entries[i].0 == k);
                }
            } else {
                assert(entries[i].0 == k);
                let j = index_of_key(entries, k);
                if i != j {
                    if i < j {
                        assert(entries[i].0 != entries[j].0);
                    } else {
                        assert(entries[j].0 != entries[i].0);
                    }
                }
            }
        }
        assert(to_map(after).dom() =~= to_map(entries).insert(key, value).dom());
        assert(to_map(after) =~= to_map(entries).insert(key, value));
    }
}

/// A map from keys to values. No two entries have the same key.
#[derive(Debug)]
pub struct RedisMap {
    pub(crate) inner: Vec<(RedisKey, RedisValue)>,
}

impl View for RedisMap {
    type V = Entries;

    open spec fn view(&self) -> Entries {
        map_view(*self)
    }
}

impl RedisMap {
    /// What holds of every map: its keys are distinct.
    #[verifier::type_invariant]
    pub closed spec fn wf(&self) -> bool {
        keys_distinct(self@)
    }

    /// An empty map.
    pub fn new() -> (m: RedisMap)
        ensures
            m@ == Entries::empty(),
    {
        let m = RedisMap { inner: Vec::new() };
        assert(m@ =~= Entries::empty());
        m
    }

    /// The number of entries.
    pub fn len(&self) -> (n: usize)
        ensures
            n == self@.len(),
            keys_distinct(self@),
    {
        proof {
            use_type_invariant(self);
        }
        self.inner.len()
    }

    /// The position of the entry with the key, if there is one.
    fn position(&self, key: &RedisKey) -> (r: Option<usize>)
        ensures
            keys_distinct(self@),
            r is Some <==> has_key(self@, key@),
            r is Some ==> r->Some_0 < self@.len() && r->Some_0 == index_of_key(self@, key@),
    {
        proof {
            use_type_invariant(self);
        }
        let n: usize = self.inner.len();
        let mut i: usize = 0;
        while i < n
            invariant
                i <= n,
                n == self.inner.len(),
                n == self@.len(),
                keys_distinct(self@),
                forall|j: int| 0 <= j < i ==> (#[trigger] self@[j]).0 != key@,
            decreases n - i,
        {
            if self.inner[i].0.same_as(key) {
                proof {
                    assert(self@[i as int].0 == key@);
                    let c = index_of_key(self@, key@);
                    if c < i {
                        assert(self@[c].0 != self@[i as int].0);
                    } else if c > i {
                        assert(self@[i as int].0 != self@[c].0);
                    }
                }
                return Some(i);
            }
            i += 1;
        }
        None
    }

    /// Whether the map has an entry with the key.
    pub fn contains_key(&self, key: &RedisKey) -> (r: bool)
        ensures
            r == has_key(self@, key@),
    {
        self.position(key).is_some()
    }

    /// The value stored under the key, if any.
    pub fn get(&self, key: &RedisKey) -> (r: Option<&RedisValue>)
        ensures
            r is Some <==> has_key(self@, key@),
            r is Some ==> Some(r->Some_0@) == lookup(self@, key@),
    {
        match self.position(key) {
            Some(i) => Some(&self.inner[i].1),
            None => None,
        }
    }

    /// Stores the value under the key. Where the key had a value, that value is
    /// replaced and returned.
    pub fn insert(&mut self, key: RedisKey, value: RedisValue) -> (r: Option<RedisValue>)
        ensures
            final(self)@ == with_entry(old(self)@, key@, value@),
            to_map(final(self)@) == to_map(old(self)@).insert(key@, value@),
            r is Some <==> has_key(old(self)@, key@),
            r is Some ==> Some(r->Some_0@) == lookup(old(self)@, key@),
    {
        proof {
            use_type_invariant(&*self);
            lemma_with_entry(self@, key@, value@);
        }
        let at = self.position(&key);
        let mut inner: Vec<(RedisKey, RedisValue)> = Vec::new();
        std::mem::swap(&mut self.inner, &mut inner);
        let r = match at {
            Some(i) => {
                let mut entry = (key, value);
                std::mem::swap(&mut inner[i], &mut entry);
                Some(entry.1)
            },
            None => {
                inner.push((key, value));
                None
            },
        };
        proof {
            let after = RedisMap { inner };
            assert(after@ =~= with_entry(old(self)@, key@, value@));
        }
        self.inner = inner;
        r
    }

    /// Leaves an empty map in place and returns the map that was there.
    pub fn take(&mut self) -> (m: RedisMap)
        ensures
            m@ == old(self)@,
            final(self)@ == Entries::empty(),
    {
        proof {
            use_type_invariant(&*self);
        }
        let mut inner: Vec<(RedisKey, RedisValue)> = Vec::new();
        std::mem::swap(&mut self.inner, &mut inner);
        assert(self@ =~= Entries::empty());
        let m = RedisMap { inner };
        assert(m@ =~= old(self)@);
        m
    }

    /// The entries of the map, lent.
    pub fn entries(&self) -> (entries: &[(RedisKey, RedisValue)])
        ensures
            entries@.len() == self@.len(),
            forall|i: int|
                0 <= i < entries@.len() ==> (#[trigger] entries@[i]).0@ == self@[i].0
                    && entries@[i].1@ == self@[i].1,
            keys_distinct(self@),
    {
        proof {
            use_type_invariant(self);
        }
        self.inner.as_slice()
    }

    /// The entries of the map.
    pub fn inner(self) -> (entries: Vec<(RedisKey, RedisValue)>)
        ensures
            entries.len() == self@.len(),
            forall|i: int|
                0 <= i < entries.len() ==> (#[trigger] entries[i]).0@ == self@[i].0 && entries[i].1@
                    == self@[i].1,
            keys_distinct(self@),
    {
        proof {
            use_type_invariant(&self);
        }
        self.inner
    }
}

impl RedisMap {
    /// A map with the same entries.
    pub fn duplicate(&self) -> (r: RedisMap)
        ensures
            r@ == self@,
        decreases self,
    {
        proof {
            use_type_invariant(self);
        }
        let n: usize = self.inner.len();
        let mut copy: Vec<(RedisKey, RedisValue)> = Vec::new();
        let mut i: usize = 0;
        while i < n
            invariant
                i <= n,
                n == self.inner.len(),
                copy.len() == i,
                forall|j: int|
                    0 <= j < i ==> (#[trigger] copy[j]).0@ == self.inner[j].0@ && copy[j].1@
                        == self.inner[j].1@,
            decreases n - i,
        {
            copy.push((self.inner[i].0.duplicate(), self.inner[i].1.duplicate()));
            i += 1;
        }
        proof {
            use_type_invariant(self);
            let r = RedisMap { inner: copy };
            assert(r@ =~= self@);
        }
        RedisMap { inner: copy }
    }
}

} // verus!
