//! The threshold-signature data store: a bounded cache of verification
//! material keyed by (subject, registry version), evicting the oldest
//! inserted entry when full.
use vstd::prelude::*;
use crate::types::RegistryVersion;

verus! {

/// Maximum number of entries held by a [`ThresholdSigDataStore`].
pub const THRESHOLD_SIG_DATA_STORE_CAPACITY: usize = 9;

/// An entry as contracts see it: subject, registry version, material.
pub type EntryView = (u64, u64, Seq<u8>);

/// Entry `i` of `s` holds the key `(subject, version)`.
pub open spec fn key_at(s: Seq<EntryView>, i: int, subject: u64, version: u64) -> bool {
    0 <= i < s.len() && s[i].0 == subject && s[i].1 == version
}

/// No two entries share a key.
pub open spec fn keys_unique(s: Seq<EntryView>) -> bool {
    forall|i: int, j: int|
        0 <= i < s.len() && 0 <= j < s.len() && i != j ==> (s[i].0 != s[j].0 || s[i].1 != s[j].1)
}

/// The store's invariant: within capacity, keys unique.
pub open spec fn store_wf(s: Seq<EntryView>) -> bool {
    s.len() <= THRESHOLD_SIG_DATA_STORE_CAPACITY && keys_unique(s)
}

/// Some entry holds the key.
pub open spec fn has_key(s: Seq<EntryView>, subject: u64, version: u64) -> bool {
    exists|i: int| key_at(s, i, subject, version)
}

/// The material stored under a key, if any.
pub open spec fn lookup(s: Seq<EntryView>, subject: u64, version: u64) -> Option<Seq<u8>> {
    if has_key(s, subject, version) {
        Some(s[choose|i: int| key_at(s, i, subject, version)].2)
    } else {
        None
    }
}

/// The entries after inserting `data` under `(subject, version)`: an entry
/// with that key is replaced in place; otherwise the new entry is appended,
/// after evicting the oldest one if the store is full.
pub open spec fn inserted(s: Seq<EntryView>, subject: u64, version: u64, data: Seq<u8>) -> Seq<
    EntryView,
> {
    if has_key(s, subject, version) {
        s.update(choose|i: int| key_at(s, i, subject, version), (subject, version, data))
    } else if s.len() < THRESHOLD_SIG_DATA_STORE_CAPACITY {
        s.push((subject, version, data))
    } else {
        s.drop_first().push((subject, version, data))
    }
}

/// The entries after inserting each of `es` in order, starting from `s`.
pub open spec fn inserted_all(s: Seq<EntryView>, es: Seq<EntryView>) -> Seq<EntryView>
    decreases es.len(),
{
    if es.len() == 0 {
        s
    } else {
        let e = es.last();
        inserted(inserted_all(s, es.drop_last()), e.0, e.1, e.2)
    }
}

/// Under unique keys, the entry found by `lookup` is the one at `i`.
pub proof fn lemma_lookup_at(s: Seq<EntryView>, i: int, subject: u64, version: u64)
    requires
        keys_unique(s),
        key_at(s, i, subject, version),
    ensures
        lookup(s, subject, version) == Some(s[i].2),
{
    let k = choose|k: int| key_at(s, k, subject, version);
    assert(key_at(s, k, subject, version));
}

/// Inserting keeps the store within capacity and its keys unique.
pub proof fn lemma_insert_keeps_wf(s: Seq<EntryView>, subject: u64, version: u64, data: Seq<u8>)
    requires
        store_wf(s),
    ensures
        store_wf(inserted(s, subject, version, data)),
{
    let r = inserted(s, subject, version, data);
    if has_key(s, subject, version) {
        let k = choose|i: int| key_at(s, i, subject, version);
        assert(key_at(s, k, subject, version));
        assert forall|i: int, j: int|
            0 <= i < r.len() && 0 <= j < r.len() && i != j implies (r[i].0 != r[j].0 || r[i].1
            != r[j].1) by {
            if i != k && j != k {
                assert(r[i] == s[i] && r[j] == s[j]);
            }
        }
    } else if s.len() < THRESHOLD_SIG_DATA_STORE_CAPACITY {
        assert forall|i: int, j: int|
            0 <= i < r.len() && 0 <= j < r.len() && i != j implies (r[i].0 != r[j].0 || r[i].1
            != r[j].1) by {
            if i < s.len() && j < s.len() {
                assert(r[i] == s[i] && r[j] == s[j]);
            } else if i < s.len() {
                assert(!key_at(s, i, subject, version));
            } else {
                assert(!key_at(s, j, subject, version));
            }
        }
    } else {
        assert forall|i: int, j: int|
            0 <= i < r.len() && 0 <= j < r.len() && i != j implies (r[i].0 != r[j].0 || r[i].1
            != r[j].1) by {
            let n = s.len() - 1;
            if i < n && j < n {
                assert(r[i] == s[i + 1] && r[j] == s[j + 1]);
            } else if i < n {
                assert(r[i] == s[i + 1]);
                assert(!key_at(s, i + 1, subject, version));
            } else {
                assert(r[j] == s[j + 1]);
                assert(!key_at(s, j + 1, subject, version));
            }
        }
    }
}

/// However many insertions are made into an empty store, it never holds
/// more than its capacity, and its keys stay unique.
pub proof fn lemma_capacity_invariant(es: Seq<EntryView>)
    ensures
        store_wf(inserted_all(Seq::empty(), es)),
        inserted_all(Seq::empty(), es).len() <= THRESHOLD_SIG_DATA_STORE_CAPACITY,
    decreases es.len(),
{
    if es.len() > 0 {
        lemma_capacity_invariant(es.drop_last());
        let e = es.last();
        lemma_insert_keeps_wf(inserted_all(Seq::empty(), es.drop_last()), e.0, e.1, e.2);
    }
}

/// Right after inserting `data` under a key, looking that key up gives `data`.
pub proof fn lemma_read_after_write(s: Seq<EntryView>, subject: u64, version: u64, data: Seq<u8>)
    requires
        store_wf(s),
    ensures
        lookup(inserted(s, subject, version, data), subject, version) == Some(data),
{
    let r = inserted(s, subject, version, data);
    lemma_insert_keeps_wf(s, subject, version, data);
    if has_key(s, subject, version) {
        let k = choose|i: int| key_at(s, i, subject, version);
        assert(key_at(r, k, subject, version));
        lemma_lookup_at(r, k, subject, version);
    } else {
        assert(key_at(r, r.len() - 1, subject, version));
        lemma_lookup_at(r, r.len() - 1, subject, version);
    }
}

/// Inserting up to capacity entries with distinct keys into an empty store
/// keeps them all, in order.
proof fn lemma_fill_in_order(es: Seq<EntryView>, n: int)
    requires
        0 <= n <= es.len(),
        n <= THRESHOLD_SIG_DATA_STORE_CAPACITY,
        keys_unique(es),
    ensures
        inserted_all(Seq::empty(), es.take(n)) == es.take(n),
    decreases n,
{
    if n > 0 {
        lemma_fill_in_order(es, n - 1);
        let prev = es.take(n - 1);
        assert(es.take(n).drop_last() =~= prev);
        let e = es[n - 1];
        assert(!has_key(prev, e.0, e.1)) by {
            assert forall|i: int| !key_at(prev, i, e.0, e.1) by {
                if 0 <= i < prev.len() {
                    assert(prev[i] == es[i]);
                }
            }
        }
        assert(prev.push(e) =~= es.take(n));
    }
}

/// Inserting capacity-plus-one entries with distinct keys, in order, into an
/// empty store evicts the first and keeps the last.
pub proof fn lemma_eviction_order(es: Seq<EntryView>)
    requires
        es.len() == THRESHOLD_SIG_DATA_STORE_CAPACITY + 1,
        keys_unique(es),
    ensures
        lookup(inserted_all(Seq::empty(), es), es[0].0, es[0].1) is None,
        lookup(inserted_all(Seq::empty(), es), es.last().0, es.last().1) == Some(es.last().2),
{
    let c = THRESHOLD_SIG_DATA_STORE_CAPACITY as int;
    lemma_fill_in_order(es, c);
    let prev = es.take(c);
    assert(es.drop_last() =~= prev);
    let e = es.last();
    assert(!has_key(prev, e.0, e.1)) by {
        assert forall|i: int| !key_at(prev, i, e.0, e.1) by {
            if 0 <= i < prev.len() {
                assert(prev[i] == es[i]);
            }
        }
    }
    let r = inserted_all(Seq::empty(), es);
    assert(r =~= es.subrange(1, c + 1));
    assert(!has_key(r, es[0].0, es[0].1)) by {
        assert forall|i: int| !key_at(r, i, es[0].0, es[0].1) by {
            if 0 <= i < r.len() {
                assert(r[i] == es[i + 1]);
            }
        }
    }
    assert(key_at(r, c - 1, e.0, e.1));
    lemma_lookup_at(r, c - 1, e.0, e.1);
}

/// One cached entry.
struct StoreEntry {
    subject: u64,
    registry_version: RegistryVersion,
    data: Vec<u8>,
}

/// Threshold verification material per (subject, registry version), oldest
/// inserted first.
pub struct ThresholdSigDataStore {
    entries: Vec<StoreEntry>,
}

impl View for ThresholdSigDataStore {
    type V = Seq<EntryView>;

    closed spec fn view(&self) -> Seq<EntryView> {
        self.entries@.map_values(|e: StoreEntry| (e.subject, e.registry_version.0, e.data@))
    }
}

impl ThresholdSigDataStore {
    /// The store's invariant.
    pub open spec fn wf(&self) -> bool {
        store_wf(self@)
    }

    /// The capacity of every store.
    pub const CAPACITY: usize = THRESHOLD_SIG_DATA_STORE_CAPACITY;

    /// Creates an empty store.
    pub fn new() -> (r: Self)
        ensures
            r@ == Seq::<EntryView>::empty(),
            r.wf(),
    {
        let r = ThresholdSigDataStore { entries: Vec::new() };
        assert(r@ =~= Seq::<EntryView>::empty());
        r
    }

    /// Number of entries held.
    pub fn size(&self) -> (r: usize)
        ensures
            r == self@.len(),
    {
        self.entries.len()
    }

    /// Position of the entry with the given key, if any.
    fn position(&self, subject: u64, registry_version: RegistryVersion) -> (r: Option<usize>)
        ensures
            r is None ==> !has_key(self@, subject, registry_version.0),
            r matches Some(i) ==> key_at(self@, i as int, subject, registry_version.0),
    {
        let mut i: usize = 0;
        while i < self.entries.len()
            invariant
                i <= self.entries@.len(),
                self@.len() == self.entries@.len(),
                forall|j: int| 0 <= j < i ==> !key_at(self@, j, subject, registry_version.0),
            decreases self.entries@.len() - i,
        {
            let e = &self.entries[i];
            if e.subject == subject && e.registry_version.0 == registry_version.0 {
                return Some(i);
            }
            i = i + 1;
        }
        None
    }

    /// Adds `data` under `(subject, registry_version)`, replacing an entry
    /// with that key in place; when the store is full and the key is new,
    /// the oldest inserted entry is evicted first.
    pub fn insert(&mut self, subject: u64, registry_version: RegistryVersion, data: Vec<u8>)
        requires
            old(self).wf(),
        ensures
            final(self)@ == inserted(old(self)@, subject, registry_version.0, data@),
            final(self).wf(),
    {
        let ghost s = self@;
        let ghost d = data@;
        proof {
            lemma_insert_keeps_wf(s, subject, registry_version.0, d);
        }
        let entry = StoreEntry { subject, registry_version, data };
        match self.position(subject, registry_version) {
            Some(i) => {
                proof {
                    let k = choose|k: int| key_at(s, k, subject, registry_version.0);
                    assert(key_at(s, k, subject, registry_version.0));
                    assert(k == i as int);
                }
                self.entries.set(i, entry);
                assert(self@ =~= s.update(i as int, (subject, registry_version.0, d)));
            },
            None => {
                if self.entries.len() < THRESHOLD_SIG_DATA_STORE_CAPACITY {
                    self.entries.push(entry);
                    assert(self@ =~= s.push((subject, registry_version.0, d)));
                } else {
                    let _evicted = self.entries.remove(0);
                    self.entries.push(entry);
                    assert(self@ =~= s.drop_first().push((subject, registry_version.0, d)));
                }
            },
        }
    }

    /// The material stored under `(subject, registry_version)`; `None` when
    /// it is not (or no longer) held.
    pub fn get(&self, subject: u64, registry_version: RegistryVersion) -> (r: Option<&Vec<u8>>)
        requires
            self.wf(),
        ensures
            r is None <==> lookup(self@, subject, registry_version.0) is None,
            r matches Some(d) ==> lookup(self@, subject, registry_version.0) == Some(d@),
    {
        match self.position(subject, registry_version) {
            Some(i) => {
                proof {
                    lemma_lookup_at(self@, i as int, subject, registry_version.0);
                }
                Some(&self.entries[i].data)
            },
            None => None,
        }
    }
}

} // verus!
