//! The caches of encoded content: a map from the digest of some content and
//! the name of an encoding to what was made of that content in that
//! encoding. Nothing is ever evicted.

use crate::model::{CacheKey, CacheKeyView};
use vstd::prelude::*;

verus! {

/// A cache keyed by content digest and encoding name.
#[derive(Debug)]
pub struct Cache<V> {
    entries: Vec<(CacheKey, V)>,
}

/// The map that a list of entries stands for: an entry counts over the ones
/// that follow it.
spec fn entries_map<V>(entries: Seq<(CacheKey, V)>) -> Map<CacheKeyView, V>
    decreases entries.len(),
{
    if entries.len() == 0 {
        Map::empty()
    } else {
        entries_map(entries.drop_first()).insert(entries[0].0@, entries[0].1)
    }
}

proof fn first_match_is_mapped<V>(entries: Seq<(CacheKey, V)>, key: CacheKeyView, at: int)
    requires
        0 <= at < entries.len(),
        entries[at].0@ == key,
        forall|j: int| 0 <= j < at ==> entries[j].0@ != key,
    ensures
        entries_map(entries).contains_key(key),
        entries_map(entries)[key] == entries[at].1,
    decreases entries.len(),
{
    if at > 0 {
        let rest = entries.drop_first();
        assert(rest[at - 1] == entries[at]);
        assert forall|j: int| 0 <= j < at - 1 implies rest[j].0@ != key by {
            assert(rest[j] == entries[j + 1]);
        }
        first_match_is_mapped(rest, key, at - 1);
    }
}

proof fn no_match_is_unmapped<V>(entries: Seq<(CacheKey, V)>, key: CacheKeyView)
    requires
        forall|j: int| 0 <= j < entries.len() ==> entries[j].0@ != key,
    ensures
        !entries_map(entries).contains_key(key),
    decreases entries.len(),
{
    if entries.len() > 0 {
        let rest = entries.drop_first();
        assert forall|j: int| 0 <= j < rest.len() implies rest[j].0@ != key by {
            assert(rest[j] == entries[j + 1]);
        }
        no_match_is_unmapped(rest, key);
    }
}

proof fn replacing_first_match<V>(entries: Seq<(CacheKey, V)>, at: int, entry: (CacheKey, V))
    requires
        0 <= at < entries.len(),
        entries[at].0@ == entry.0@,
        forall|j: int| 0 <= j < at ==> entries[j].0@ != entry.0@,
    ensures
        entries_map(entries.update(at, entry)) == entries_map(entries).insert(entry.0@, entry.1),
    decreases entries.len(),
{
    let rest = entries.drop_first();
    let updated = entries.update(at, entry);
    if at == 0 {
        assert(updated.drop_first() =~= rest);
        assert(entries_map(updated) =~= entries_map(entries).insert(entry.0@, entry.1));
    } else {
        assert(rest[at - 1] == entries[at]);
        assert forall|j: int| 0 <= j < at - 1 implies rest[j].0@ != entry.0@ by {
            assert(rest[j] == entries[j + 1]);
        }
        replacing_first_match(rest, at - 1, entry);
        assert(updated.drop_first() =~= rest.update(at - 1, entry));
        assert(updated[0] == entries[0]);
        assert(entries[0].0@ != entry.0@);
        assert(entries_map(updated) =~= entries_map(entries).insert(entry.0@, entry.1));
    }
}

proof fn adding_new_key<V>(entries: Seq<(CacheKey, V)>, entry: (CacheKey, V))
    requires
        forall|j: int| 0 <= j < entries.len() ==> entries[j].0@ != entry.0@,
    ensures
        entries_map(entries.push(entry)) == entries_map(entries).insert(entry.0@, entry.1),
    decreases entries.len(),
{
    let pushed = entries.push(entry);
    if entries.len() == 0 {
        assert(pushed.drop_first() =~= entries);
        assert(entries_map(pushed) =~= entries_map(entries).insert(entry.0@, entry.1));
    } else {
        let rest = entries.drop_first();
        assert forall|j: int| 0 <= j < rest.len() implies rest[j].0@ != entry.0@ by {
            assert(rest[j] == entries[j + 1]);
        }
        adding_new_key(rest, entry);
        assert(pushed.drop_first() =~= rest.push(entry));
        assert(pushed[0] == entries[0]);
        assert(entries[0].0@ != entry.0@);
        assert(entries_map(pushed) =~= entries_map(entries).insert(entry.0@, entry.1));
    }
}

impl<V> Cache<V> {
    /// What the cache holds, as a map from keys to values.
    pub closed spec fn view(&self) -> Map<CacheKeyView, V> {
        entries_map(self.entries@)
    }

    /// An empty cache.
    pub fn new() -> (c: Cache<V>)
        ensures
            c@ == Map::<CacheKeyView, V>::empty(),
    {
        Cache { entries: Vec::new() }
    }

    fn position(&self, key: &CacheKey) -> (r: Option<usize>)
        ensures
            match r {
                Some(at) => {
                    &&& at < self.entries@.len()
                    &&& self.entries@[at as int].0@ == key@
                    &&& forall|j: int| 0 <= j < at ==> self.entries@[j].0@ != key@
                },
                None => forall|j: int| 0 <= j < self.entries@.len() ==> self.entries@[j].0@ != key@,
            },
    {
        let mut i: usize = 0;
        while i < self.entries.len()
            invariant
                i <= self.entries.len(),
                forall|j: int| 0 <= j < i ==> self.entries@[j].0@ != key@,
            decreases self.entries.len() - i,
        {
            if self.entries[i].0.same_as(key) {
                return Some(i);
            }
            i += 1;
        }
        None
    }

    /// The value stored under `key`, if there is one.
    pub fn get(&self, key: &CacheKey) -> (r: Option<&V>)
        ensures
            match r {
                Some(v) => self@.contains_key(key@) && self@[key@] == *v,
                None => !self@.contains_key(key@),
            },
    {
        match self.position(key) {
            Some(at) => {
                proof {
                    first_match_is_mapped(self.entries@, key@, at as int);
                }
                Some(&self.entries[at].1)
            },
            None => {
                proof {
                    no_match_is_unmapped(self.entries@, key@);
                }
                None
            },
        }
    }

    /// Stores `value` under `key`, in place of what was stored there before.
    pub fn insert(&mut self, key: CacheKey, value: V)
        ensures
            final(self)@ == old(self)@.insert(key@, value),
    {
        match self.position(&key) {
            Some(at) => {
                proof {
                    replacing_first_match(self.entries@, at as int, (key, value));
                }
                self.entries.set(at, (key, value));
            },
            None => {
                proof {
                    adding_new_key(self.entries@, (key, value));
                }
                self.entries.push((key, value));
            },
        }
    }
}

} // verus!
