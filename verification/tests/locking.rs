use std::cell::RefCell;

use rt_kernel::errors::KernelError;
use rt_kernel::resources::create;
use rt_kernel::resources::Resource;
use rt_kernel::resources::ResourceManager;
use rt_kernel::MAX_RESOURCES;

#[test]
fn resource_ids_are_allocated_sequentially() {
    let mut rm = ResourceManager::new();
    assert_eq!(rm.create(0b01), Ok(0));
    assert_eq!(rm.create(0b10), Ok(1));
    assert_eq!(rm.create(0b11), Ok(2));
    assert_eq!(rm.slots.len(), 3);
    assert!(!rm.slots[0].locked);
    assert_eq!(rm.slots[1].task_mask, 0b10);
}

#[test]
fn resource_creation_beyond_capacity_is_rejected_and_changes_nothing() {
    let mut rm = ResourceManager::new();
    for i in 0..MAX_RESOURCES {
        assert_eq!(rm.create(i as u32), Ok(i));
    }
    assert_eq!(rm.create(0xffff), Err(KernelError::CapacityExceeded));
    assert_eq!(rm.slots.len(), MAX_RESOURCES);
    for i in 0..MAX_RESOURCES {
        assert_eq!(rm.slots[i].task_mask, i as u32);
        assert!(!rm.slots[i].locked);
    }
}

#[test]
fn second_lock_without_unlock_is_denied() {
    let mut rm = ResourceManager::new();
    let id = rm.create(0b11).unwrap();
    assert!(rm.lock(id));
    assert!(!rm.lock(id));
    assert!(!rm.lock(id));
    rm.unlock(id);
    assert!(rm.lock(id));
}

#[test]
fn unlock_frees_the_slot_unconditionally() {
    let mut rm = ResourceManager::new();
    let id = rm.create(0b1).unwrap();
    // No ownership token: an unlock releases even a lock it never took.
    rm.unlock(id);
    assert!(!rm.slots[id].locked);
    assert!(rm.lock(id));
    rm.unlock(id);
    assert!(!rm.slots[id].locked);
}

#[test]
fn task_mask_never_changes_after_creation() {
    let mut rm = ResourceManager::new();
    let id = rm.create(0b1010).unwrap();
    assert_eq!(rm.slots[id].task_mask, 0b1010);
    assert!(rm.lock(id));
    assert_eq!(rm.slots[id].task_mask, 0b1010);
    assert!(!rm.lock(id));
    assert_eq!(rm.slots[id].task_mask, 0b1010);
    rm.unlock(id);
    assert_eq!(rm.slots[id].task_mask, 0b1010);
}

#[test]
fn granted_acquire_runs_the_handler_and_releases() {
    let mut rm = ResourceManager::new();
    let res = create(&mut rm, RefCell::new(Vec::<u32>::new()), 0b10).unwrap();
    res.acquire(&mut rm, |v| v.borrow_mut().push(42));
    // The handler ran, and the hold flag is clear again on return.
    assert_eq!(*res.inner.borrow(), vec![42]);
    assert!(!rm.slots[res.id].locked);
    res.acquire(&mut rm, |v| v.borrow_mut().push(7));
    assert_eq!(*res.inner.borrow(), vec![42, 7]);
}

#[test]
fn denied_acquire_silently_skips_the_handler() {
    let mut rm = ResourceManager::new();
    let res = create(&mut rm, RefCell::new(Vec::<u32>::new()), 0b10).unwrap();
    assert!(rm.lock(res.id));
    // The resource is held: the handler must never run, and no error surfaces.
    res.acquire(&mut rm, |v| v.borrow_mut().push(42));
    assert!(res.inner.borrow().is_empty());
    // The denial did not release the holder's lock either.
    assert!(rm.slots[res.id].locked);
}

#[test]
fn access_is_privilege_gated() {
    let res = Resource::new(5u32, 0);
    assert_eq!(res.access(true), Some(&5));
    assert_eq!(res.access(false), None);
}

#[test]
fn create_wraps_the_value_under_the_new_slot() {
    let mut rm = ResourceManager::new();
    let a = create(&mut rm, 17u32, 0b01).unwrap();
    let b = create(&mut rm, 23u32, 0b10).unwrap();
    assert_eq!((a.id, a.inner), (0, 17));
    assert_eq!((b.id, b.inner), (1, 23));
    assert_eq!(rm.slots[0].task_mask, 0b01);
    assert_eq!(rm.slots[1].task_mask, 0b10);
}
