//! The data store behind a reader/writer lock: any number of readers at a
//! time, writers exclusive and served before readers that come after them.
use vstd::prelude::*;
use vstd::rwlock::{ReadHandle, RwLock, RwLockPredicate, WriteHandle};
use crate::store::ThresholdSigDataStore;

verus! {

/// What every store held by the lock satisfies.
pub struct StoreInvariant;

impl RwLockPredicate<ThresholdSigDataStore> for StoreInvariant {
    open spec fn inv(self, v: ThresholdSigDataStore) -> bool {
        v.wf()
    }
}

/// A [`ThresholdSigDataStore`] wrapped by a reader/writer lock.
pub struct LockableThresholdSigDataStore {
    threshold_sig_data_store: RwLock<ThresholdSigDataStore, StoreInvariant>,
}

impl LockableThresholdSigDataStore {
    #[verifier::type_invariant]
    spec fn lock_keeps_invariant(&self) -> bool {
        self.threshold_sig_data_store.pred() == StoreInvariant
    }

    /// The lock guarding the store.
    pub closed spec fn lock(&self) -> RwLock<ThresholdSigDataStore, StoreInvariant> {
        self.threshold_sig_data_store
    }

    /// Creates a lock around an empty store.
    pub fn new() -> (r: Self)
        ensures
            r.lock().pred() == StoreInvariant,
    {
        LockableThresholdSigDataStore {
            threshold_sig_data_store: RwLock::new(ThresholdSigDataStore::new(), Ghost(StoreInvariant)),
        }
    }

    /// Takes the write lock: hands out the store, which goes back into the
    /// lock, well-formed, through `release_write` on the handle.
    pub fn write(&self) -> (r: (ThresholdSigDataStore, WriteHandle<'_, ThresholdSigDataStore, StoreInvariant>))
        ensures
            r.0.wf(),
            r.1.rwlock() == self.lock(),
            self.lock().pred() == StoreInvariant,
    {
        proof {
            use_type_invariant(self);
        }
        self.threshold_sig_data_store.acquire_write()
    }

    /// Takes a read lock, shared with other readers; `release_read` on the
    /// handle gives it back.
    pub fn read(&self) -> (r: ReadHandle<'_, ThresholdSigDataStore, StoreInvariant>)
        ensures
            r.view().wf(),
            r.rwlock() == self.lock(),
            self.lock().pred() == StoreInvariant,
    {
        proof {
            use_type_invariant(self);
        }
        self.threshold_sig_data_store.acquire_read()
    }
}

} // verus!
