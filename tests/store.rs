use ic_crypto::lockable::LockableThresholdSigDataStore;
use ic_crypto::store::{ThresholdSigDataStore, THRESHOLD_SIG_DATA_STORE_CAPACITY};
use ic_crypto::types::RegistryVersion;

fn material(n: u64) -> Vec<u8> {
    vec![n as u8, 0xaa, (n >> 8) as u8]
}

#[test]
fn size_never_exceeds_capacity() {
    let mut store = ThresholdSigDataStore::new();
    for i in 0..(3 * THRESHOLD_SIG_DATA_STORE_CAPACITY as u64) {
        store.insert(i % 4, RegistryVersion(i), material(i));
        assert!(store.size() <= THRESHOLD_SIG_DATA_STORE_CAPACITY);
    }
    assert_eq!(store.size(), THRESHOLD_SIG_DATA_STORE_CAPACITY);
    assert_eq!(ThresholdSigDataStore::CAPACITY, THRESHOLD_SIG_DATA_STORE_CAPACITY);
}

#[test]
fn oldest_entry_is_evicted_first() {
    let mut store = ThresholdSigDataStore::new();
    let n = THRESHOLD_SIG_DATA_STORE_CAPACITY as u64 + 1;
    for i in 1..=n {
        store.insert(7, RegistryVersion(i), material(i));
    }
    assert_eq!(store.get(7, RegistryVersion(1)), None);
    assert_eq!(store.get(7, RegistryVersion(2)), Some(&material(2)));
    assert_eq!(store.get(7, RegistryVersion(n)), Some(&material(n)));
}

#[test]
fn read_after_write_returns_material() {
    let mut store = ThresholdSigDataStore::new();
    store.insert(1, RegistryVersion(5), material(5));
    store.insert(2, RegistryVersion(5), material(6));
    assert_eq!(store.get(1, RegistryVersion(5)), Some(&material(5)));
    assert_eq!(store.get(2, RegistryVersion(5)), Some(&material(6)));
    assert_eq!(store.get(3, RegistryVersion(5)), None);
}

#[test]
fn reinsert_replaces_in_place_without_eviction() {
    let mut store = ThresholdSigDataStore::new();
    let cap = THRESHOLD_SIG_DATA_STORE_CAPACITY as u64;
    for i in 1..=cap {
        store.insert(0, RegistryVersion(i), material(i));
    }
    store.insert(0, RegistryVersion(1), material(100));
    assert_eq!(store.size(), THRESHOLD_SIG_DATA_STORE_CAPACITY);
    assert_eq!(store.get(0, RegistryVersion(1)), Some(&material(100)));
    // Entry 1 keeps its place as the oldest: the next new key evicts it.
    store.insert(0, RegistryVersion(cap + 1), material(cap + 1));
    assert_eq!(store.get(0, RegistryVersion(1)), None);
    assert_eq!(store.get(0, RegistryVersion(2)), Some(&material(2)));
}

#[test]
fn end_to_end_fill_query_and_evict() {
    let lockable = LockableThresholdSigDataStore::new();
    let cap = THRESHOLD_SIG_DATA_STORE_CAPACITY as u64;
    for epoch in 1..=cap {
        let (mut store, handle) = lockable.write();
        store.insert(3, RegistryVersion(epoch), material(epoch));
        handle.release_write(store);
    }
    let handle = lockable.read();
    assert_eq!(handle.borrow().get(3, RegistryVersion(cap + 5)), None);
    assert_eq!(handle.borrow().size(), THRESHOLD_SIG_DATA_STORE_CAPACITY);
    handle.release_read();

    let (mut store, handle) = lockable.write();
    store.insert(3, RegistryVersion(cap + 5), material(cap + 5));
    handle.release_write(store);

    let handle = lockable.read();
    assert_eq!(handle.borrow().get(3, RegistryVersion(1)), None);
    assert_eq!(handle.borrow().get(3, RegistryVersion(cap + 5)), Some(&material(cap + 5)));
    handle.release_read();
}

#[test]
fn readers_share_the_lock() {
    let lockable = LockableThresholdSigDataStore::new();
    let (mut store, handle) = lockable.write();
    for epoch in 1..=4u64 {
        store.insert(epoch, RegistryVersion(epoch), material(epoch));
    }
    handle.release_write(store);
    let first = lockable.read();
    let second = lockable.read();
    for epoch in 1..=4u64 {
        assert_eq!(first.borrow().get(epoch, RegistryVersion(epoch)), Some(&material(epoch)));
        assert_eq!(second.borrow().get(epoch, RegistryVersion(epoch)), Some(&material(epoch)));
    }
    first.release_read();
    second.release_read();
}
