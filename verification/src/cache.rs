//! The get-or-load map: one live store for each key.
//!
//! A cache is reached through `&mut`, so whoever holds it is alone with it:
//! looking a key up and inserting what was loaded for it happen in one
//! piece, and no second load for the same key can slip in between.

use vstd::prelude::*;
use crate::error::LoadError;
use crate::store::Store;

verus! {

/// What a cache can be keyed by: a value with a model, which can be
/// compared and copied by that model.
pub trait CacheKey: View + Sized {
    fn same(&self, other: &Self) -> (same: bool)
        ensures
            same == (self@ == other@),
    ;

    fn duplicate(&self) -> (copy: Self)
        ensures
            copy@ == self@,
    ;
}

impl CacheKey for String {
    fn same(&self, other: &Self) -> (same: bool) {
        *self == *other
    }

    fn duplicate(&self) -> (copy: Self) {
        self.clone()
    }
}

/// A key and the store loaded for it.
struct CacheEntry<K, V> {
    key: K,
    store: Store<V>,
}

/// The stores loaded so far, each under its key. Nothing is ever evicted.
pub struct StoreCache<K, V> {
    entries: Vec<CacheEntry<K, V>>,
}

/// No key occurs twice.
spec fn distinct_keys<K: CacheKey, V>(entries: Seq<CacheEntry<K, V>>) -> bool {
    forall|i: int, j: int|
        0 <= i < j < entries.len() ==> (#[trigger] entries[i]).key@ != (#[trigger] entries[j]).key@
}

/// The entry at `i` is the one for `key`.
spec fn keyed_at<K: CacheKey, V>(entries: Seq<CacheEntry<K, V>>, i: int, key: K::V) -> bool {
    0 <= i < entries.len() && entries[i].key@ == key
}

/// The entries as a map from keys to stores.
spec fn as_map<K: CacheKey, V>(entries: Seq<CacheEntry<K, V>>) -> Map<K::V, Store<V>> {
    Map::new(
        |key: K::V| exists|i: int| keyed_at(entries, i, key),
        |key: K::V| entries[choose|i: int| keyed_at(entries, i, key)].store,
    )
}

proof fn lemma_entry_in_map<K: CacheKey, V>(entries: Seq<CacheEntry<K, V>>, i: int)
    requires
        distinct_keys(entries),
        0 <= i < entries.len(),
    ensures
        as_map(entries).contains_key(entries[i].key@),
        as_map(entries)[entries[i].key@] == entries[i].store,
{
    let key = entries[i].key@;
    assert(keyed_at(entries, i, key));
    let found = choose|j: int| keyed_at(entries, j, key);
    assert(keyed_at(entries, found, key));
    if found < i {
        assert(entries[found].key@ != entries[i].key@);
    } else if i < found {
        assert(entries[i].key@ != entries[found].key@);
    }
}

proof fn lemma_replace_store<K: CacheKey, V>(entries: Seq<CacheEntry<K, V>>, i: int, store: Store<V>)
    requires
        distinct_keys(entries),
        0 <= i < entries.len(),
    ensures
        distinct_keys(entries.update(i, CacheEntry { key: entries[i].key, store })),
        as_map(entries.update(i, CacheEntry { key: entries[i].key, store })) == as_map(entries).insert(
            entries[i].key@,
            store,
        ),
{
    let after = entries.update(i, CacheEntry { key: entries[i].key, store });
    assert forall|a: int, b: int| 0 <= a < b < after.len() implies (#[trigger] after[a]).key@ != (
    #[trigger] after[b]).key@ by {
        assert(entries[a].key@ != entries[b].key@);
    }
    let target = as_map(entries).insert(entries[i].key@, store);
    assert forall|key: K::V| as_map(after).contains_key(key) <==> target.contains_key(key) by {
        if as_map(after).contains_key(key) {
            let j = choose|j: int| keyed_at(after, j, key);
            assert(keyed_at(entries, j, key));
        }
        if target.contains_key(key) {
            if key == entries[i].key@ {
                assert(keyed_at(after, i, key));
            } else {
                let j = choose|j: int| keyed_at(entries, j, key);
                assert(keyed_at(after, j, key));
            }
        }
    }
    assert forall|key: K::V| as_map(after).contains_key(key) implies as_map(after)[key]
        == target[key] by {
        let j = choose|j: int| keyed_at(after, j, key);
        lemma_entry_in_map(after, j);
        if j != i {
            assert(keyed_at(entries, j, key));
            lemma_entry_in_map(entries, j);
        }
    }
    assert(as_map(after) =~= target);
}

proof fn lemma_add_entry<K: CacheKey, V>(entries: Seq<CacheEntry<K, V>>, entry: CacheEntry<K, V>)
    requires
        distinct_keys(entries),
        !as_map(entries).contains_key(entry.key@),
    ensures
        distinct_keys(entries.push(entry)),
        as_map(entries.push(entry)) == as_map(entries).insert(entry.key@, entry.store),
{
    let after = entries.push(entry);
    let last = entries.len() as int;
    assert forall|a: int, b: int| 0 <= a < b < after.len() implies (#[trigger] after[a]).key@ != (
    #[trigger] after[b]).key@ by {
        if b == last {
            if after[a].key@ == entry.key@ {
                assert(keyed_at(entries, a, entry.key@));
            }
        } else {
            assert(entries[a].key@ != entries[b].key@);
        }
    }
    let target = as_map(entries).insert(entry.key@, entry.store);
    assert forall|key: K::V| as_map(after).contains_key(key) <==> target.contains_key(key) by {
        if as_map(after).contains_key(key) {
            let j = choose|j: int| keyed_at(after, j, key);
            if j != last {
                assert(keyed_at(entries, j, key));
            }
        }
        if target.contains_key(key) {
            if key == entry.key@ {
                assert(keyed_at(after, last, key));
            } else {
                let j = choose|j: int| keyed_at(entries, j, key);
                assert(keyed_at(after, j, key));
            }
        }
    }
    assert forall|key: K::V| as_map(after).contains_key(key) implies as_map(after)[key]
        == target[key] by {
        let j = choose|j: int| keyed_at(after, j, key);
        lemma_entry_in_map(after, j);
        if j != last {
            assert(keyed_at(entries, j, key));
            lemma_entry_in_map(entries, j);
        }
    }
    assert(as_map(after) =~= target);
}

impl<K: CacheKey, V> View for StoreCache<K, V> {
    type V = Map<K::V, Store<V>>;

    closed spec fn view(&self) -> Map<K::V, Store<V>> {
        as_map(self.entries@)
    }
}

impl<K: CacheKey, V> StoreCache<K, V> {
    /// Each key has one entry.
    pub closed spec fn wf(&self) -> bool {
        distinct_keys(self.entries@)
    }

    /// A cache that holds nothing.
    pub fn new() -> (cache: Self)
        ensures
            cache.wf(),
            cache@ == Map::<K::V, Store<V>>::empty(),
    {
        let cache = StoreCache { entries: Vec::new() };
        assert(cache@ =~= Map::<K::V, Store<V>>::empty()) by {
            assert forall|key: K::V| !as_map(cache.entries@).contains_key(key) by {
                if as_map(cache.entries@).contains_key(key) {
                    let j = choose|j: int| keyed_at(cache.entries@, j, key);
                    assert(keyed_at(cache.entries@, j, key));
                }
            }
        }
        cache
    }

    fn position(&self, key: &K) -> (found: Option<usize>)
        ensures
            match found {
                Some(i) => keyed_at(self.entries@, i as int, key@),
                None => !self@.contains_key(key@),
            },
    {
        let mut i: usize = 0;
        while i < self.entries.len()
            invariant
                i <= self.entries@.len(),
                forall|j: int| 0 <= j < i ==> !keyed_at(self.entries@, j, key@),
            decreases self.entries@.len() - i,
        {
            if self.entries[i].key.same(key) {
                return Some(i);
            }
            i += 1;
        }
        proof {
            if self@.contains_key(key@) {
                let j = choose|j: int| keyed_at(self.entries@, j, key@);
                assert(keyed_at(self.entries@, j, key@));
            }
        }
        None
    }

    fn entry_mut(&mut self, i: usize) -> (store: &mut Store<V>)
        requires
            old(self).wf(),
            i < old(self).entries@.len(),
        ensures
            *store == old(self).entries@[i as int].store,
            final(self).wf(),
            final(self)@ == old(self)@.insert(old(self).entries@[i as int].key@, *final(store)),
    {
        proof {
            let before = self.entries@;
            assert forall|after: Store<V>|
                distinct_keys(
                    #[trigger] before.update(
                        i as int,
                        CacheEntry { key: before[i as int].key, store: after },
                    ),
                ) && as_map(
                    before.update(i as int, CacheEntry { key: before[i as int].key, store: after }),
                ) == as_map(before).insert(before[i as int].key@, after) by {
                lemma_replace_store(before, i as int, after);
            }
        }
        &mut self.entries[i].store
    }

    /// Whether a store is loaded for `key`.
    pub fn contains(&self, key: &K) -> (present: bool)
        ensures
            present == self@.contains_key(key@),
    {
        match self.position(key) {
            Some(i) => {
                assert(keyed_at(self.entries@, i as int, key@));
                true
            },
            None => false,
        }
    }

    /// The number of stores loaded.
    pub fn len(&self) -> (count: usize)
        requires
            self.wf(),
        ensures
            count == self@.len(),
            self@.dom().finite(),
    {
        proof {
            lemma_map_size(self.entries@);
        }
        self.entries.len()
    }

    /// The store for `key`: the one already loaded, or else the one that
    /// `loader` gives, which is kept from then on. A failed load leaves the
    /// cache as it was. The loader is asked only for a key that has no
    /// store yet, and then once: for a key that has one it need not even
    /// be fit to be called.
    pub fn get_or_load<F>(&mut self, key: &K, loader: F) -> (result: Result<
        &mut Store<V>,
        LoadError,
    >) where F: FnOnce(&K) -> Result<Store<V>, LoadError>
        requires
            old(self).wf(),
            !old(self)@.contains_key(key@) ==> call_requires(loader, (key,)),
        ensures
            final(self).wf(),
            match result {
                Ok(store) => {
                    &&& final(self)@ == old(self)@.insert(key@, *final(store))
                    &&& if old(self)@.contains_key(key@) {
                        *store == old(self)@[key@]
                    } else {
                        call_ensures(loader, (key,), Ok(*store))
                    }
                },
                Err(error) => {
                    &&& !old(self)@.contains_key(key@)
                    &&& final(self)@ == old(self)@
                    &&& call_ensures(loader, (key,), Err(error))
                },
            },
    {
        match self.position(key) {
            Some(i) => {
                proof {
                    lemma_entry_in_map(self.entries@, i as int);
                }
                Ok(self.entry_mut(i))
            },
            None => {
                match loader(key) {
                    Ok(store) => {
                        let entry = CacheEntry { key: key.duplicate(), store };
                        proof {
                            lemma_add_entry(self.entries@, entry);
                        }
                        self.entries.push(entry);
                        let last = self.entries.len() - 1;
                        proof {
                            lemma_entry_in_map(self.entries@, last as int);
                        }
                        Ok(self.entry_mut(last))
                    },
                    Err(error) => Err(error),
                }
            },
        }
    }
}

proof fn lemma_map_size<K: CacheKey, V>(entries: Seq<CacheEntry<K, V>>)
    requires
        distinct_keys(entries),
    ensures
        as_map(entries).dom().finite(),
        as_map(entries).len() == entries.len(),
    decreases entries.len(),
{
    if entries.len() == 0 {
        assert(as_map(entries) =~= Map::<K::V, Store<V>>::empty()) by {
            assert forall|key: K::V| !as_map(entries).contains_key(key) by {
                if as_map(entries).contains_key(key) {
                    let j = choose|j: int| keyed_at(entries, j, key);
                    assert(keyed_at(entries, j, key));
                }
            }
        }
    } else {
        let front = entries.drop_last();
        let last = entries.last();
        assert forall|a: int, b: int| 0 <= a < b < front.len() implies (#[trigger] front[a]).key@ != (
        #[trigger] front[b]).key@ by {
            assert(entries[a].key@ != entries[b].key@);
        }
        lemma_map_size(front);
        if as_map(front).contains_key(last.key@) {
            let j = choose|j: int| keyed_at(front, j, last.key@);
            assert(keyed_at(front, j, last.key@));
            assert(entries[j].key@ != entries[entries.len() - 1].key@);
        }
        lemma_add_entry(front, last);
        assert(front.push(last) =~= entries);
    }
}

} // verus!
