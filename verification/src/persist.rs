//! The hand-off between the arbiter and the persistence writer: a
//! coalescing slot of depth one. A writer that falls behind only ever
//! persists the newest pending snapshot; older unconsumed snapshots are
//! superseded. Persistence is best-effort: a failed write of a taken
//! snapshot touches neither the store nor future offers.

use vstd::prelude::*;
use crate::user_db::UserDB;

verus! {

/// The slot the arbiter offers snapshots into and the persistence writer
/// drains.
#[derive(Debug)]
pub struct SnapshotSlot {
    pub slot: Option<UserDB>,
}

impl SnapshotSlot {
    /// An empty slot: nothing pending.
    pub fn new() -> (r: Self)
        ensures
            r.slot is None,
    {
        SnapshotSlot { slot: None }
    }

    /// Offer a snapshot: it becomes the pending one, superseding whatever
    /// was pending before.
    pub fn offer(&mut self, snap: UserDB)
        ensures
            final(self).slot == Some(snap),
    {
        self.slot = Some(snap);
    }

    /// Drain the slot: the newest pending snapshot, if any, leaves it.
    pub fn take(&mut self) -> (r: Option<UserDB>)
        ensures
            r == old(self).slot,
            final(self).slot is None,
    {
        self.slot.take()
    }
}

} // verus!
