//! The shared, lock-protected handle: reference-counted ownership of one
//! entity, with exclusive access for mutation and brief shared access for
//! snapshots.
//!
//! The lock is a verified reader-writer lock, so acquisition cannot fail: a
//! poisoned-lock state cannot arise, because no verified holder can panic
//! while the lock is held.

use crate::entity::Observable;
use std::sync::Arc;
use vstd::prelude::*;
use vstd::rwlock::RwLock;
use vstd::rwlock::RwLockPredicate;
use vstd::rwlock::WriteHandle;

verus! {

/// The lock invariant of a shared entity: every state stored behind the
/// handle is quiescent, because no operation registers a listener, queues an
/// event, or requests shutdown.
pub struct QuiescentPred {}

impl RwLockPredicate<Observable> for QuiescentPred {
    open spec fn inv(self, v: Observable) -> bool {
        v.quiescent()
    }
}

/// A shared handle to one lock-protected entity. Duplicating the handle
/// shares the entity; the entity lives until the last handle is dropped.
pub struct SharedObservable {
    handle: Arc<RwLock<Observable, QuiescentPred>>,
}

impl SharedObservable {
    /// The handle's lock was set up with the quiescent invariant.
    pub closed spec fn wf(self) -> bool {
        (*self.handle).pred() == (QuiescentPred {  })
    }

    /// Whether the lock behind this handle can hold the state `e`.
    pub closed spec fn stores(self, e: Observable) -> bool {
        (*self.handle).inv(e)
    }

    /// Law: every state a well-formed shared handle can hold keeps the
    /// listener collection and the pending-event queue empty and the
    /// shutdown flag clear — nothing in the interface inserts into either
    /// collection or sets the flag.
    pub proof fn lemma_stored_state_quiescent(self, e: Observable)
        requires
            self.wf(),
            self.stores(e),
        ensures
            e.quiescent(),
    {
    }

    /// Duplicates the handle. Both handles refer to the same entity: no
    /// entity data is copied, and mutation through either handle is visible
    /// through the other.
    pub fn clone_handle(&self) -> (other: SharedObservable)
        ensures
            other == *self,
    {
        SharedObservable { handle: self.handle.clone() }
    }

    /// The number of live handles sharing the entity at the instant of the
    /// call: at least this one.
    pub fn reference_count(&self) -> (n: usize)
        ensures
            n >= 1,
    {
        arc_strong_count(&self.handle)
    }

    /// Takes the lock briefly and renders a point-in-time debug snapshot.
    /// Whatever state the read observes, it is quiescent, so the snapshot
    /// always shows a listener count and a pending-event count of zero.
    pub fn snapshot(&self) -> (s: String)
        requires
            self.wf(),
        ensures
            exists|name: Seq<char>| s@ == crate::render::snapshot_text(name, 0, 0),
    {
        let read = self.handle.acquire_read();
        let entity = read.borrow();
        let s = entity.debug_snapshot();
        proof {
            assert(s@ == crate::render::snapshot_text(read.view().name@, 0, 0));
        }
        read.release_read();
        s
    }

    /// Blocks until no other holder has exclusive access, then yields the
    /// entity's current state together with the handle through which a state
    /// must be stored back to release the lock. Releasing demands a
    /// quiescent state, which is what every operation here leaves behind.
    pub fn acquire_exclusive(&self) -> (ret: (
        Observable,
        WriteHandle<'_, Observable, QuiescentPred>,
    ))
        requires
            self.wf(),
        ensures
            ret.0.quiescent(),
            ret.1.rwlock().pred() == (QuiescentPred {  }),
    {
        self.handle.acquire_write()
    }

    /// Acquires exclusive access, replaces the entity's name with `new_name`
    /// unconditionally, and releases the lock. Every other field is left as
    /// it was, so the state stays quiescent.
    pub fn mutate_name(&self, new_name: String)
        requires
            self.wf(),
    {
        let (mut entity, write) = self.acquire_exclusive();
        entity.set_name(new_name);
        write.release_write(entity);
    }
}

impl Observable {
    /// A shared, lock-protected handle wrapping a fresh entity with the
    /// given name, no listeners, no pending events and the shutdown flag
    /// clear. Construction cannot fail; any name is accepted.
    pub fn new(name: &str) -> (shared: SharedObservable)
        ensures
            shared.wf(),
    {
        let entity = Observable::new1(name);
        SharedObservable { handle: Arc::new(RwLock::new(entity, Ghost(QuiescentPred {  }))) }
    }
}

/// Relies on std's `Arc::strong_count`: it returns the number of live handles
/// that share the allocation, and the handle passed in is one of them.
#[verifier::external_body]
fn arc_strong_count(handle: &Arc<RwLock<Observable, QuiescentPred>>) -> (n: usize)
    ensures
        n >= 1,
{
    Arc::strong_count(handle)
}

} // verus!
