//! The cancellation registry: one slot for the handle of the currently
//! executing session (the task handle) and one for the listener itself (the
//! server handle). Handles are identified by strictly increasing numbers, so
//! a handle taken out of a slot can never reappear there: whoever holds the
//! slot's current handle holds the handle of the *current* session, never a
//! stale one.

use vstd::prelude::*;

verus! {

pub struct CancelRegistry {
    /// The next handle number to issue; strictly increases.
    pub next_id: u64,
    /// The handle of the currently executing session, if one is installed.
    pub task: Option<u64>,
    /// The handle of the listening server, if one is installed.
    pub server: Option<u64>,
}

impl CancelRegistry {
    /// Every installed handle was issued earlier.
    pub open spec fn wf(self) -> bool {
        &&& match self.task {
            Some(id) => id < self.next_id,
            None => true,
        }
        &&& match self.server {
            Some(id) => id < self.next_id,
            None => true,
        }
    }

    pub fn new() -> (r: CancelRegistry)
        ensures
            r.wf(),
            r.next_id == 0,
            r.task is None,
            r.server is None,
    {
        CancelRegistry { next_id: 0, task: None, server: None }
    }

    /// Installs a fresh task handle, returning its number and whatever
    /// handle the slot held before. The new number was never issued before,
    /// so no stale session can be confused with the new one.
    pub fn install_task(&mut self) -> (r: (u64, Option<u64>))
        requires
            old(self).wf(),
            old(self).next_id < u64::MAX,
        ensures
            final(self).wf(),
            r.0 == old(self).next_id,
            r.1 == old(self).task,
            final(self).task == Some(r.0),
            final(self).server == old(self).server,
            final(self).next_id == old(self).next_id + 1,
    {
        let id = self.next_id;
        self.next_id = self.next_id + 1;
        let prev = self.task.take();
        self.task = Some(id);
        (id, prev)
    }

    /// Installs a fresh server handle, returning its number and whatever
    /// handle the slot held before.
    pub fn install_server(&mut self) -> (r: (u64, Option<u64>))
        requires
            old(self).wf(),
            old(self).next_id < u64::MAX,
        ensures
            final(self).wf(),
            r.0 == old(self).next_id,
            r.1 == old(self).server,
            final(self).server == Some(r.0),
            final(self).task == old(self).task,
            final(self).next_id == old(self).next_id + 1,
    {
        let id = self.next_id;
        self.next_id = self.next_id + 1;
        let prev = self.server.take();
        self.server = Some(id);
        (id, prev)
    }

    /// Empties the task slot, returning the handle it held. Taking from an
    /// empty slot is a no-op: cancellation is idempotent.
    pub fn take_task(&mut self) -> (r: Option<u64>)
        requires
            old(self).wf(),
        ensures
            final(self).wf(),
            r == old(self).task,
            final(self).task is None,
            final(self).server == old(self).server,
            final(self).next_id == old(self).next_id,
    {
        self.task.take()
    }

    /// Empties the server slot, returning the handle it held.
    pub fn take_server(&mut self) -> (r: Option<u64>)
        requires
            old(self).wf(),
        ensures
            final(self).wf(),
            r == old(self).server,
            final(self).server is None,
            final(self).task == old(self).task,
            final(self).next_id == old(self).next_id,
    {
        self.server.take()
    }
}

/// Handle freshness: a newly installed task handle differs from every
/// handle the registry had ever installed before, in either slot.
pub proof fn lemma_installed_handle_fresh(pre: CancelRegistry, post: CancelRegistry, id: u64)
    requires
        pre.wf(),
        id == pre.next_id,
        post.task == Some(id),
    ensures
        post.task != pre.task,
        post.task != pre.server,
{
}

} // verus!
