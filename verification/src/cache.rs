//! A response cache: entries keyed by string, each valid for a fixed time
//! after it was stored, the least recently used evicted first when full.

use vstd::prelude::*;
use crate::text::str_eq;

verus! {

/// One cached value and when it was stored.
pub struct CacheEntry<V> {
    key: String,
    value: V,
    stored_at_ms: u64,
}

/// A cache entry as key, value and storing time.
pub type EntryView<V> = (Seq<char>, V, u64);

/// Entries as key, value and storing time.
spec fn view_entries<V>(v: Seq<CacheEntry<V>>) -> Seq<EntryView<V>> {
    v.map_values(|e: CacheEntry<V>| (e.key@, e.value, e.stored_at_ms))
}

/// A cache of values keyed by string, with a capacity and a time-to-live.
pub struct GenericCache<V> {
    entries: Vec<CacheEntry<V>>,
    capacity: usize,
    ttl_ms: u64,
}

/// Whether no key occurs twice.
pub open spec fn distinct_keys<V>(s: Seq<EntryView<V>>) -> bool {
    forall|i: int, j: int| 0 <= i < j < s.len() ==> s[i].0 != s[j].0
}

/// Whether `key` has an entry.
pub open spec fn has_key<V>(s: Seq<EntryView<V>>, key: Seq<char>) -> bool {
    exists|i: int| 0 <= i < s.len() && #[trigger] s[i].0 == key
}

/// The position of the entry of `key`, when it has one.
pub open spec fn key_pos<V>(s: Seq<EntryView<V>>, key: Seq<char>) -> int {
    choose|i: int| 0 <= i < s.len() && #[trigger] s[i].0 == key
}

/// Whether a value stored at `stored_ms` is still valid at `now_ms`: less
/// than `ttl_ms` has passed (a clock that reads earlier counts as no time).
pub open spec fn is_fresh(stored_ms: u64, now_ms: u64, ttl_ms: u64) -> bool {
    (if now_ms >= stored_ms { now_ms - stored_ms } else { 0 }) < ttl_ms
}

/// The entries without the one of `key`.
pub open spec fn without_key<V>(s: Seq<EntryView<V>>, key: Seq<char>) -> Seq<EntryView<V>> {
    if has_key(s, key) {
        s.remove(key_pos(s, key))
    } else {
        s
    }
}

/// The entries after storing `value` under `key` at `now_ms`: the old entry
/// of `key` goes, the least recently used entry goes when the cache is
/// full, and the new entry becomes the most recently used. A cache of
/// capacity 0 stores nothing.
pub open spec fn stored<V>(s: Seq<EntryView<V>>, capacity: nat, key: Seq<char>, value: V, now_ms: u64) -> Seq<EntryView<V>> {
    if capacity == 0 {
        s
    } else {
        let rest = without_key(s, key);
        let kept = if rest.len() >= capacity { rest.drop_first() } else { rest };
        kept.push((key, value, now_ms))
    }
}

/// The value a lookup of `key` at `now_ms` finds: the stored one while it
/// is fresh.
pub open spec fn lookup<V>(s: Seq<EntryView<V>>, ttl_ms: u64, key: Seq<char>, now_ms: u64) -> Option<V> {
    if has_key(s, key) && is_fresh(s[key_pos(s, key)].2, now_ms, ttl_ms) {
        Some(s[key_pos(s, key)].1)
    } else {
        None
    }
}

/// The entries after a lookup of `key` at `now_ms`: a fresh entry becomes
/// the most recently used, a stale one goes.
pub open spec fn after_lookup<V>(s: Seq<EntryView<V>>, ttl_ms: u64, key: Seq<char>, now_ms: u64) -> Seq<EntryView<V>> {
    if has_key(s, key) {
        let p = key_pos(s, key);
        if is_fresh(s[p].2, now_ms, ttl_ms) {
            s.remove(p).push(s[p])
        } else {
            s.remove(p)
        }
    } else {
        s
    }
}

impl<V> GenericCache<V> {
    /// The entries, least recently used first.
    pub closed spec fn entries(&self) -> Seq<EntryView<V>> {
        view_entries(self.entries@)
    }

    /// The capacity.
    pub closed spec fn spec_capacity(&self) -> nat {
        self.capacity as nat
    }

    /// The time-to-live, in milliseconds.
    pub closed spec fn spec_ttl(&self) -> u64 {
        self.ttl_ms
    }

    /// Keys are distinct and the entries fit in the capacity.
    pub open spec fn well_formed(&self) -> bool {
        distinct_keys(self.entries()) && self.entries().len() <= self.spec_capacity()
    }

    /// Every cache is well formed.
    #[verifier::type_invariant]
    spec fn inv(&self) -> bool {
        self.well_formed()
    }

    /// An empty cache holding at most `capacity` entries, each valid for
    /// `ttl_ms` milliseconds.
    pub fn new(capacity: usize, ttl_ms: u64) -> (c: Self)
        ensures
            c.well_formed(),
            c.entries() == Seq::<EntryView<V>>::empty(),
            c.spec_capacity() == capacity,
            c.spec_ttl() == ttl_ms,
    {
        let c = GenericCache { entries: Vec::new(), capacity, ttl_ms };
        assert(c.entries() =~= Seq::<EntryView<V>>::empty());
        c
    }

    fn position_in(&self, entries: &Vec<CacheEntry<V>>, key: &str) -> (r: Option<usize>)
        ensures
            match r {
                Some(i) => i < entries@.len() && view_entries(entries@)[i as int].0 == key@,
                None => !has_key(view_entries(entries@), key@),
            },
    {
        let mut i: usize = 0;
        while i < entries.len()
            invariant
                i <= entries@.len(),
                forall|k: int| 0 <= k < i ==> view_entries(entries@)[k].0 != key@,
            decreases entries.len() - i,
        {
            if str_eq(entries[i].key.as_str(), key) {
                return Some(i);
            }
            i = i + 1;
        }
        None
    }

    /// Number of entries.
    pub fn len(&self) -> (n: usize)
        ensures
            n == self.entries().len(),
    {
        self.entries.len()
    }

    /// Remove every entry.
    pub fn clear(&mut self)
        ensures
            final(self).entries() == Seq::<EntryView<V>>::empty(),
            final(self).spec_capacity() == old(self).spec_capacity(),
            final(self).spec_ttl() == old(self).spec_ttl(),
            final(self).well_formed(),
    {
        self.entries = Vec::new();
        assert(self.entries() =~= Seq::<EntryView<V>>::empty());
    }
}

impl<V: Clone> GenericCache<V> {
    /// Look `key` up at `now_ms`: a clone of the stored value while it is
    /// fresh, which then becomes the most recently used; a stale entry is
    /// removed.
    pub fn get(&mut self, key: &str, now_ms: u64) -> (r: Option<V>)
        ensures
            final(self).well_formed(),
            final(self).spec_capacity() == old(self).spec_capacity(),
            final(self).spec_ttl() == old(self).spec_ttl(),
            final(self).entries() == after_lookup(old(self).entries(), old(self).spec_ttl(), key@, now_ms),
            match lookup(old(self).entries(), old(self).spec_ttl(), key@, now_ms) {
                Some(v) => r matches Some(x) && cloned(v, x),
                None => r is None,
            },
    {
        proof {
            use_type_invariant(&*self);
        }
        let ghost old_entries = self.entries();
        match self.position_in(&self.entries, key) {
            None => None,
            Some(i) => {
                let mut entries: Vec<CacheEntry<V>> = Vec::new();
                std::mem::swap(&mut entries, &mut self.entries);
                assert(view_entries(entries@) == old_entries);
                proof {
                    assert(old_entries[i as int].0 == key@);
                    assert(has_key(old_entries, key@));
                    let p = key_pos(old_entries, key@);
                    assert(old_entries[p].0 == key@);
                    assert(p == i);
                }
                let entry = entries.remove(i);
                let elapsed = now_ms.saturating_sub(entry.stored_at_ms);
                if elapsed < self.ttl_ms {
                    let value = entry.value.clone();
                    entries.push(entry);
                    proof {
                        let s = view_entries(entries@);
                        assert(s =~= old_entries.remove(i as int).push(old_entries[i as int]));
                        assert forall|a: int, b: int| 0 <= a < b < s.len() implies s[a].0 != s[b].0 by {
                            if b == s.len() - 1 {
                                if a >= i {
                                    assert(s[a] == old_entries[a + 1]);
                                } else {
                                    assert(s[a] == old_entries[a]);
                                }
                            } else {
                                let ao = if a >= i { a + 1 } else { a };
                                let bo = if b >= i { b + 1 } else { b };
                                assert(s[a] == old_entries[ao]);
                                assert(s[b] == old_entries[bo]);
                            }
                        }
                    }
                    self.entries = entries;
                    Some(value)
                } else {
                    proof {
                        let s = view_entries(entries@);
                        assert(s =~= old_entries.remove(i as int));
                        assert forall|a: int, b: int| 0 <= a < b < s.len() implies s[a].0 != s[b].0 by {
                            let ao = if a >= i { a + 1 } else { a };
                            let bo = if b >= i { b + 1 } else { b };
                            assert(s[a] == old_entries[ao]);
                            assert(s[b] == old_entries[bo]);
                        }
                    }
                    self.entries = entries;
                    None
                }
            },
        }
    }
}

impl<V> GenericCache<V> {
    /// Store `value` under `key` at `now_ms`, replacing the old entry of the
    /// key and evicting the least recently used entry when the cache is full.
    pub fn insert(&mut self, key: String, value: V, now_ms: u64)
        ensures
            final(self).well_formed(),
            final(self).spec_capacity() == old(self).spec_capacity(),
            final(self).spec_ttl() == old(self).spec_ttl(),
            final(self).entries() == stored(old(self).entries(), old(self).spec_capacity(), key@, value, now_ms),
    {
        proof {
            use_type_invariant(&*self);
        }
        if self.capacity == 0 {
            return;
        }
        let ghost old_entries = self.entries();
        let mut entries: Vec<CacheEntry<V>> = Vec::new();
        std::mem::swap(&mut entries, &mut self.entries);
        assert(view_entries(entries@) == old_entries);
        match self.position_in(&entries, key.as_str()) {
            Some(i) => {
                proof {
                    assert(has_key(old_entries, key@));
                    let p = key_pos(old_entries, key@);
                    assert(old_entries[p].0 == key@);
                    assert(p == i);
                }
                let _ = entries.remove(i);
                proof {
                    assert(view_entries(entries@) =~= old_entries.remove(i as int));
                }
            },
            None => {},
        }
        let ghost rest = view_entries(entries@);
        assert(rest == without_key(old_entries, key@));
        assert forall|a: int, b: int| 0 <= a < b < rest.len() implies rest[a].0 != rest[b].0 && rest[a].0 != key@ by {
            if has_key(old_entries, key@) {
                let i = key_pos(old_entries, key@);
                let ao = if a >= i { a + 1 } else { a };
                let bo = if b >= i { b + 1 } else { b };
                assert(rest[a] == old_entries[ao]);
                assert(rest[b] == old_entries[bo]);
            } else {
                assert(old_entries[a].0 != key@);
            }
        }
        assert forall|a: int| 0 <= a < rest.len() implies rest[a].0 != key@ by {
            if has_key(old_entries, key@) {
                let i = key_pos(old_entries, key@);
                let ao = if a >= i { a + 1 } else { a };
                assert(rest[a] == old_entries[ao]);
            } else {
                assert(old_entries[a].0 != key@);
            }
        }
        if entries.len() >= self.capacity {
            let _ = entries.remove(0);
            assert(view_entries(entries@) =~= rest.drop_first());
        }
        let ghost kept = view_entries(entries@);
        entries.push(CacheEntry { key, value, stored_at_ms: now_ms });
        proof {
            let s = view_entries(entries@);
            assert(s =~= kept.push((key@, value, now_ms)));
            assert forall|a: int, b: int| 0 <= a < b < s.len() implies s[a].0 != s[b].0 by {
                if rest.len() >= self.capacity {
                    assert(s[a] == rest[a + 1]);
                    if b < s.len() - 1 {
                        assert(s[b] == rest[b + 1]);
                    }
                } else {
                    assert(s[a] == rest[a]);
                    if b < s.len() - 1 {
                        assert(s[b] == rest[b]);
                    }
                }
            }
        }
        self.entries = entries;
    }
}

/// Storing a value and then looking its key up while the value is fresh
/// finds that value, in a well-formed cache that can hold anything at all.
pub proof fn lemma_lookup_after_store<V>(s: Seq<EntryView<V>>, capacity: nat, ttl_ms: u64, key: Seq<char>, value: V, stored_ms: u64, now_ms: u64)
    requires
        distinct_keys(s),
        capacity > 0,
        is_fresh(stored_ms, now_ms, ttl_ms),
    ensures
        lookup(stored(s, capacity, key, value, stored_ms), ttl_ms, key, now_ms) == Some(value),
{
    let t = stored(s, capacity, key, value, stored_ms);
    let last = t.len() - 1;
    assert(t[last].0 == key);
    assert(has_key(t, key));
    let p = key_pos(t, key);
    let rest = without_key(s, key);
    assert forall|a: int| 0 <= a < rest.len() implies rest[a].0 != key by {
        if has_key(s, key) {
            let i = key_pos(s, key);
            assert(s[i].0 == key);
            let ao = if a >= i { a + 1 } else { a };
            assert(rest[a] == s[ao]);
            if ao < i {
                assert(s[ao].0 != s[i].0);
            } else {
                assert(s[i].0 != s[ao].0);
            }
        } else {
            assert(s[a].0 != key);
        }
    }
    if p != last {
        let kept = if rest.len() >= capacity { rest.drop_first() } else { rest };
        assert(t[p] == kept[p]);
        if rest.len() >= capacity {
            assert(kept[p] == rest[p + 1]);
        }
    }
}

/// A looked-up key of a cache whose keys are distinct is still found right
/// afterwards while its value is fresh: the lookup keeps the entry and its
/// value.
pub proof fn lemma_lookup_repeats<V>(s: Seq<EntryView<V>>, ttl_ms: u64, key: Seq<char>, now_ms: u64, later_ms: u64)
    requires
        distinct_keys(s),
        lookup(s, ttl_ms, key, now_ms) is Some,
        has_key(s, key) && is_fresh(s[key_pos(s, key)].2, later_ms, ttl_ms),
    ensures
        lookup(after_lookup(s, ttl_ms, key, now_ms), ttl_ms, key, later_ms) == lookup(s, ttl_ms, key, now_ms),
{
    let p = key_pos(s, key);
    let t = after_lookup(s, ttl_ms, key, now_ms);
    let last = t.len() - 1;
    assert(t[last] == s[p]);
    assert(has_key(t, key));
    let q = key_pos(t, key);
    if q != last {
        let qo = if q >= p { q + 1 } else { q };
        assert(t[q] == s[qo]);
        assert(s[qo].0 == key);
        assert(qo != p);
    }
}

/// Storing a key in a cache with room for it, or that already holds it,
/// leaves what a lookup of any other key finds unchanged.
pub proof fn lemma_store_keeps_other_keys<V>(s: Seq<EntryView<V>>, capacity: nat, ttl_ms: u64, key: Seq<char>, value: V, stored_ms: u64, other: Seq<char>, now_ms: u64)
    requires
        distinct_keys(s),
        s.len() <= capacity,
        s.len() < capacity || has_key(s, key),
        other != key,
    ensures
        lookup(stored(s, capacity, key, value, stored_ms), ttl_ms, other, now_ms) == lookup(s, ttl_ms, other, now_ms),
{
    let t = stored(s, capacity, key, value, stored_ms);
    let rest = without_key(s, key);
    if has_key(s, key) {
        let i = key_pos(s, key);
        assert(s[i].0 == key);
        assert(rest.len() == s.len() - 1);
    }
    assert(t == rest.push((key, value, stored_ms)));
    // Every entry of `rest` is the entry of `s` at the same place, or one
    // place further once past the removed entry.
    assert forall|a: int| 0 <= a < rest.len() implies #[trigger] rest[a] == s[if has_key(s, key) && a >= key_pos(s, key) { a + 1 } else { a }] by {
    }
    if has_key(s, other) {
        let p = key_pos(s, other);
        assert(s[p].0 == other);
        let j = if has_key(s, key) && p > key_pos(s, key) { p - 1 } else { p };
        if has_key(s, key) {
            assert(p != key_pos(s, key));
        }
        assert(rest[j] == s[p]);
        assert(t[j] == s[p]);
        assert(has_key(t, other));
        let q = key_pos(t, other);
        assert(t[q].0 == other);
        assert(q != t.len() - 1);
        let qo = if has_key(s, key) && q >= key_pos(s, key) { q + 1 } else { q };
        assert(t[q] == rest[q]);
        assert(rest[q] == s[qo]);
        if qo != p {
            if qo < p {
                assert(s[qo].0 != s[p].0);
            } else {
                assert(s[p].0 != s[qo].0);
            }
        }
    } else {
        if has_key(t, other) {
            let q = key_pos(t, other);
            assert(t[q].0 == other);
            assert(q != t.len() - 1);
            let qo = if has_key(s, key) && q >= key_pos(s, key) { q + 1 } else { q };
            assert(t[q] == rest[q]);
            assert(rest[q] == s[qo]);
            assert(s[qo].0 == other);
        }
    }
}

/// Storing a new key in a full cache evicts the least recently used entry,
/// the first one.
pub proof fn lemma_store_evicts_least_recent<V>(s: Seq<EntryView<V>>, capacity: nat, key: Seq<char>, value: V, stored_ms: u64)
    requires
        distinct_keys(s),
        capacity > 0,
        s.len() == capacity,
        !has_key(s, key),
    ensures
        !has_key(stored(s, capacity, key, value, stored_ms), s[0].0),
        has_key(stored(s, capacity, key, value, stored_ms), key),
{
    let t = stored(s, capacity, key, value, stored_ms);
    assert(without_key(s, key) == s);
    assert(t == s.drop_first().push((key, value, stored_ms)));
    assert(t[t.len() - 1].0 == key);
    if s[0].0 == key {
        assert(has_key(s, key));
    }
    if has_key(t, s[0].0) {
        let q = key_pos(t, s[0].0);
        assert(t[q].0 == s[0].0);
        if q < t.len() - 1 {
            assert(t[q] == s[q + 1]);
            assert(s[0].0 != s[q + 1].0);
        }
    }
}

/// A response cache: response bodies keyed by URL.
pub type ResponseCache = GenericCache<String>;

} // verus!
