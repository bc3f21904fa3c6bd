//! The concurrency guard: a reader-writer wrapper that shares one model
//! state across any number of concurrent readers, with exclusive writers for
//! a whole-state replacement (reload).
//!
//! Readers never observe a partially-initialized state: the lock's invariant
//! allows only well-formed model states, a writer must hand in a well-formed
//! replacement before any reader resumes, and no read is granted while
//! a writer holds the lock.

use vstd::prelude::*;
use vstd::rwlock::{ReadHandle, RwLock, RwLockPredicate};

use crate::errors::PredictError;
use crate::model::{predict_post, Embedding, ModelState};

verus! {

/// The lock invariant: every value the lock ever holds — and so every value
/// a reader can observe — is a fully-loaded, well-formed model state.
pub struct WellFormedState;

impl RwLockPredicate<ModelState> for WellFormedState {
    open spec fn inv(self, s: ModelState) -> bool {
        s.wf()
    }
}

/// One shared model service instance behind a reader-writer lock: unlimited
/// concurrent readers, or one exclusive writer, never both.
pub struct ServiceGuard {
    lock: RwLock<ModelState, WellFormedState>,
}

impl ServiceGuard {
    /// The guard's lock allows exactly the well-formed model states.
    pub closed spec fn wf(&self) -> bool {
        self.lock.pred() == (WellFormedState {  })
    }

    /// Puts one freshly loaded model state under the guard.
    pub fn new(state: ModelState) -> (g: ServiceGuard)
        requires
            state.wf(),
        ensures
            g.wf(),
    {
        ServiceGuard { lock: RwLock::new(state, Ghost(WellFormedState {  })) }
    }

    /// Acquires shared read access. Any number of callers may hold read
    /// access at once; the state they observe is well-formed.
    pub fn read(&self) -> (h: ReadHandle<'_, ModelState, WellFormedState>)
        requires
            self.wf(),
        ensures
            h.view().wf(),
    {
        self.lock.acquire_read()
    }

    /// One whole request under read access: acquires the shared lock, runs
    /// `predict` against the state it observes, releases the lock. The
    /// outcome satisfies the contract of `predict` against some well-formed
    /// state: the one this reader observed.
    pub fn predict(&self, text: &str) -> (r: Result<Embedding, PredictError>)
        requires
            self.wf(),
        ensures
            exists|s: ModelState| s.wf() && #[trigger] predict_post(s, text@, r),
    {
        let handle = self.lock.acquire_read();
        let r = handle.borrow().predict(text);
        handle.release_read();
        r
    }

    /// Exclusive write access: replaces the whole model state (reload). The
    /// call blocks until all in-flight readers are done, grants no reader access
    /// while it runs, and hands back the state it displaced.
    pub fn replace(&self, new_state: ModelState) -> (old_state: ModelState)
        requires
            self.wf(),
            new_state.wf(),
        ensures
            old_state.wf(),
    {
        let (displaced, write_handle) = self.lock.acquire_write();
        write_handle.release_write(new_state);
        displaced
    }
}

} // verus!
