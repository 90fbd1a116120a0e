//! Resource manager and the typed `Resource` wrapper: mutually-exclusive,
//! authorization-tagged access to shared state across tasks and handlers.
//!
//! Each slot pairs a lock flag with a task-authorization bitmask fixed at
//! creation. The manager is an explicit value owned by the embedding, which
//! keeps every lock and unlock inside its global critical section; on this
//! single-core model that makes the test-and-set of `lock` atomic with
//! respect to every other kernel path.
use vstd::prelude::*;

use crate::MAX_RESOURCES;
use crate::errors::KernelError;

verus! {

/// Dense identifier of a resource slot, allocated sequentially.
pub type ResourceId = usize;

/// One slot of the resource table.
#[derive(Clone, Copy, Debug, PartialEq, Eq, Structural)]
pub struct ResourceControlBlock {
    /// Bitmask of the task ids authorized to contend for this resource;
    /// fixed at creation, immutable for the resource's lifetime.
    pub task_mask: u32,
    /// Mutually-exclusive hold flag.
    pub locked: bool,
}

/// A lock request on `slots[id]` is granted exactly when the slot is free.
pub open spec fn lock_grants(slots: Seq<ResourceControlBlock>, id: int) -> bool {
    !slots[id].locked
}

/// The table after a lock request on `id`: the slot is held afterwards
/// whether the request was granted (it takes the lock) or denied (the holder
/// keeps it); every other slot, and every authorization mask, is untouched.
pub open spec fn lock_post(slots: Seq<ResourceControlBlock>, id: int) -> Seq<
    ResourceControlBlock,
> {
    slots.update(id, (ResourceControlBlock { task_mask: slots[id].task_mask, locked: true }))
}

/// The table after an unlock of `id`: the slot is free, everything else is
/// untouched. No ownership token exists: any caller may clear the flag.
pub open spec fn unlock_post(slots: Seq<ResourceControlBlock>, id: int) -> Seq<
    ResourceControlBlock,
> {
    slots.update(id, (ResourceControlBlock { task_mask: slots[id].task_mask, locked: false }))
}

/// The resource table.
pub struct ResourceManager {
    /// The allocated slots, indexed by `ResourceId`.
    pub slots: Vec<ResourceControlBlock>,
}

impl ResourceManager {
    /// The table never outgrows its configured capacity.
    pub open spec fn wf(self) -> bool {
        self.slots@.len() <= MAX_RESOURCES
    }

    /// An empty resource table.
    pub fn new() -> (r: Self)
        ensures
            r.wf(),
            r.slots@.len() == 0,
    {
        ResourceManager { slots: Vec::new() }
    }

    /// Allocates the next slot with the given authorization mask, unlocked.
    /// Succeeds exactly while the table is below capacity; a failed attempt
    /// returns `CapacityExceeded` and leaves the table unchanged.
    pub fn create(&mut self, tasks_mask: u32) -> (r: Result<ResourceId, KernelError>)
        requires
            old(self).wf(),
        ensures
            final(self).wf(),
            old(self).slots@.len() < MAX_RESOURCES ==> r == Result::<ResourceId, KernelError>::Ok(
                old(self).slots@.len() as ResourceId,
            ) && final(self).slots@ == old(self).slots@.push(
                (ResourceControlBlock { task_mask: tasks_mask, locked: false }),
            ),
            old(self).slots@.len() == MAX_RESOURCES ==> r == Result::<
                ResourceId,
                KernelError,
            >::Err(KernelError::CapacityExceeded) && final(self).slots@ == old(self).slots@,
    {
        if self.slots.len() < MAX_RESOURCES {
            let id = self.slots.len();
            self.slots.push(ResourceControlBlock { task_mask: tasks_mask, locked: false });
            Ok(id)
        } else {
            Err(KernelError::CapacityExceeded)
        }
    }

    /// Test-and-set of the hold flag, run inside the global critical
    /// section: returns `true` and takes the lock exactly when the slot is
    /// free. Authorization against `task_mask` is not enforced here; it is
    /// left to the caller composing `Resource::acquire`.
    pub fn lock(&mut self, id: ResourceId) -> (granted: bool)
        requires
            id < old(self).slots@.len(),
        ensures
            granted == lock_grants(old(self).slots@, id as int),
            final(self).slots@ == lock_post(old(self).slots@, id as int),
            final(self).slots@[id as int].task_mask == old(self).slots@[id as int].task_mask,
    {
        if self.slots[id].locked {
            proof {
                assert(lock_post(self.slots@, id as int) =~= self.slots@);
            }
            false
        } else {
            let mask = self.slots[id].task_mask;
            self.slots.set(id, ResourceControlBlock { task_mask: mask, locked: true });
            true
        }
    }

    /// Unconditionally clears the hold flag inside the global critical
    /// section, whoever set it; everything else is untouched.
    pub fn unlock(&mut self, id: ResourceId)
        requires
            id < old(self).slots@.len(),
        ensures
            final(self).slots@ == unlock_post(old(self).slots@, id as int),
            !final(self).slots@[id as int].locked,
            final(self).slots@[id as int].task_mask == old(self).slots@[id as int].task_mask,
    {
        let mask = self.slots[id].task_mask;
        self.slots.set(id, ResourceControlBlock { task_mask: mask, locked: false });
    }
}

/// Pairs a value with the id of the resource slot that guards it. Task code
/// is meant to reach the value only through the scoped `acquire` path or the
/// privilege-gated bypass `access`; the arbitration state itself lives in
/// the `ResourceManager` slot named by `id`.
#[derive(Debug)]
pub struct Resource<T> {
    /// The guarded value.
    pub inner: T,
    /// The slot of the resource manager that guards it.
    pub id: ResourceId,
}

impl<T> Resource<T> {
    /// Wraps `val` under the already-allocated slot `id`.
    pub fn new(val: T, id: ResourceId) -> (r: Self)
        ensures
            r.inner == val,
            r.id == id,
    {
        Resource { inner: val, id }
    }

    /// Scoped, critical-section-protected access: attempts the lock and, if
    /// granted, runs `handler` on the guarded value and releases the lock on
    /// the way out, so a granted acquire always returns with the hold flag
    /// clear. If the lock is denied the handler is never invoked and nothing
    /// else happens — no error, no retry, no blocking; the resource table is
    /// observably unchanged either way.
    pub fn acquire<F: Fn(&T)>(&self, manager: &mut ResourceManager, handler: F)
        requires
            self.id < old(manager).slots@.len(),
            call_requires(handler, (&self.inner,)),
        ensures
            final(manager).slots@ =~= old(manager).slots@,
            lock_grants(old(manager).slots@, self.id as int) ==> !final(manager).slots@[self.id
                as int].locked && call_ensures(handler, (&self.inner,), ()),
    {
        if manager.lock(self.id) {
            handler(&self.inner);
            manager.unlock(self.id);
        }
    }

    /// Privilege-gated bypass of the locking path: hands out a raw reference
    /// to the guarded value exactly when the caller reports the kernel's
    /// privileged execution mode (as read from the hardware by the
    /// embedding). Not a concurrency-safe path: the caller must guarantee
    /// exclusivity on its own.
    pub fn access(&self, privileged: bool) -> (r: Option<&T>)
        ensures
            match r {
                Some(v) => privileged && *v == self.inner,
                None => !privileged,
            },
    {
        if privileged {
            Some(&self.inner)
        } else {
            None
        }
    }
}

/// Registers a value as a new resource: allocates the next slot with the
/// given authorization mask and wraps the value under it. Fails with
/// `CapacityExceeded`, leaving the table unchanged, exactly when the table
/// is full.
pub fn create<T>(manager: &mut ResourceManager, resource: T, tasks_mask: u32) -> (r: Result<
    Resource<T>,
    KernelError,
>)
    requires
        old(manager).wf(),
    ensures
        final(manager).wf(),
        old(manager).slots@.len() < MAX_RESOURCES ==> match r {
            Result::Ok(res) => res.id == old(manager).slots@.len() && res.inner == resource
                && final(manager).slots@ == old(manager).slots@.push(
                (ResourceControlBlock { task_mask: tasks_mask, locked: false }),
            ),
            Result::Err(_) => false,
        },
        old(manager).slots@.len() == MAX_RESOURCES ==> (r matches Result::Err(e) && e
            == KernelError::CapacityExceeded && final(manager).slots@ == old(manager).slots@),
{
    match manager.create(tasks_mask) {
        Ok(id) => Ok(Resource::new(resource, id)),
        Err(e) => Err(e),
    }
}

/// Mutual exclusion: while a resource is held, a further lock request on it
/// is denied — in particular, immediately after a granted request, a second
/// request is denied — so at most one granted `acquire` is ever inside a
/// resource at a time on this single-core model.
pub proof fn lemma_lock_mutual_exclusion(slots: Seq<ResourceControlBlock>, id: int)
    requires
        0 <= id < slots.len(),
        lock_grants(slots, id),
    ensures
        !lock_grants(lock_post(slots, id), id),
{
}

/// Authorization-mask immutability: a lock request and an unlock both
/// preserve every slot's `task_mask`, so the mask set at creation is never
/// observed to change for the resource's lifetime.
pub proof fn lemma_mask_immutable(slots: Seq<ResourceControlBlock>, id: int)
    requires
        0 <= id < slots.len(),
    ensures
        forall|j: int|
            0 <= j < slots.len() ==> lock_post(slots, id)[j].task_mask == slots[j].task_mask,
        forall|j: int|
            0 <= j < slots.len() ==> unlock_post(slots, id)[j].task_mask == slots[j].task_mask,
{
}

} // verus!
