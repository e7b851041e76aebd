//! The status store: one runtime status per session, owned behind a
//! verified reader/writer lock.
//!
//! Exactly one background consumer folds events through [`StatusStore::apply`],
//! while any number of reader threads take snapshots through
//! [`StatusStore::snapshot`]. Both are short, non-suspending critical
//! sections; the lock is never held across anything else. The lock cannot
//! be poisoned: the code run under it is verified not to panic.

use vstd::prelude::*;
use vstd::rwlock::{RwLock, RwLockPredicate};

use crate::event::{apply_player_event, PlayerEvent};
use crate::status::{spec_snapshot, SpircRuntimeStatus, SpircStatusSnapshot, StatusView};

verus! {

/// The lock invariant of a status store: the protected status is always
/// well formed.
pub struct StatusInv {}

impl RwLockPredicate<SpircRuntimeStatus> for StatusInv {
    open spec fn inv(self, s: SpircRuntimeStatus) -> bool {
        s@.wf()
    }
}

/// Owns the sole mutable status of a session. Writers and readers are
/// serialized by the lock, so every snapshot is a consistent copy of the
/// status after some prefix of the applied events.
pub struct StatusStore {
    lock: RwLock<SpircRuntimeStatus, StatusInv>,
}

impl StatusStore {
    /// A fresh store holding the all-default status.
    pub fn new() -> StatusStore {
        StatusStore { lock: RwLock::new(SpircRuntimeStatus::default(), Ghost(StatusInv {})) }
    }

    /// Folds one event into the status under the write lock, at clock
    /// reading `now_ms`. The fold is [`apply_player_event`]; the lock
    /// invariant guarantees it runs on a well-formed status and leaves one.
    pub fn apply(&self, event: PlayerEvent, now_ms: u64) {
        let (mut status, handle) = self.lock.acquire_write();
        apply_player_event(&mut status, event, now_ms);
        handle.release_write(status);
    }

    /// An independently owned snapshot of some well-formed status the
    /// store held while the read lock was in hand, resolved at clock
    /// reading `now_ms`. The reported position never exceeds a known
    /// duration.
    pub fn snapshot(&self, now_ms: u64) -> (r: SpircStatusSnapshot)
        ensures
            exists|s: StatusView| s.wf() && r@ == spec_snapshot(s, now_ms),
            r@.duration_ms > 0 ==> r@.position_ms <= r@.duration_ms,
    {
        let handle = self.lock.acquire_read();
        let snapshot = handle.borrow().snapshot(now_ms);
        handle.release_read();
        snapshot
    }
}

} // verus!
