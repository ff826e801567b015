use std::collections::BTreeMap;
use wasmhost::component::erase::{Erase, Stored};
use wasmhost::component::error::ResourceTableError;
use wasmhost::component::resource::Resource;
use wasmhost::component::resource_table::{ResourceTable, DEFAULT_MAX_CAPACITY};
use wasmhost::component::resources::{
    buffer_usage, vec_usage, FixedHostHeapUsage, HostHeapUsage,
};

#[test]
fn test_free_list() {
    let mut table = ResourceTable::<()>::new();

    let x = table.push(()).unwrap();
    assert_eq!(x.rep(), 0);

    let y = table.push(()).unwrap();
    assert_eq!(y.rep(), 1);

    // Deleting x should put it on the free list, so the next entry should have the same rep.
    table.delete_maybe_debug(x, false).unwrap();
    let x = table.push(()).unwrap();
    assert_eq!(x.rep(), 0);

    // Deleting x and then y should yield indices 1 and then 0 for new entries.
    table.delete_maybe_debug(x, false).unwrap();
    table.delete_maybe_debug(y, false).unwrap();

    let y = table.push(()).unwrap();
    assert_eq!(y.rep(), 1);

    let x = table.push(()).unwrap();
    assert_eq!(x.rep(), 0);

    // As the free list is empty, this entry will have a new id.
    let x = table.push(()).unwrap();
    assert_eq!(x.rep(), 2);
}

/// Variable-size resource: what it reports can change through mutation.
#[derive(Debug, PartialEq)]
struct Metered(usize);

impl HostHeapUsage for Metered {
    fn reports(&self, bytes: usize) -> bool {
        bytes == self.host_heap_usage()
    }

    fn host_heap_usage(&self) -> usize {
        self.0
    }
}

/// Fixed-size resource: it always reports its inline size.
#[derive(Debug, PartialEq)]
struct Fixed(u64);

impl FixedHostHeapUsage for Fixed {}

#[test]
fn test_heap_usage_push_delete() {
    let mut table = ResourceTable::<Metered>::new();
    assert_eq!(table.current_host_heap_usage(), 0);

    let r1 = table.push(Metered(100)).unwrap();
    assert_eq!(table.current_host_heap_usage(), 100);

    let r2 = table.push(Metered(200)).unwrap();
    assert_eq!(table.current_host_heap_usage(), 300);

    table.delete(r1).unwrap();
    assert_eq!(table.current_host_heap_usage(), 200);

    table.delete(r2).unwrap();
    assert_eq!(table.current_host_heap_usage(), 0);
}

#[test]
fn test_heap_usage_limit_enforced() {
    let mut table = ResourceTable::<Metered>::new();
    table.set_max_host_heap_usage(Some(250));

    table.push(Metered(100)).unwrap();
    table.push(Metered(100)).unwrap();

    // This would take us to 300, exceeding the limit.
    let err = table.push(Metered(101)).unwrap_err();
    assert!(matches!(err, ResourceTableError::HostMemoryLimitExceeded));

    // Usage should remain at 200 since the third push was rejected.
    assert_eq!(table.current_host_heap_usage(), 200);
}

#[test]
fn test_heap_usage_limit_exact_boundary() {
    let mut table = ResourceTable::<Metered>::new();
    table.set_max_host_heap_usage(Some(200));

    // Exactly at the limit should succeed.
    table.push(Metered(100)).unwrap();
    table.push(Metered(100)).unwrap();

    // One byte over should fail.
    let err = table.push(Metered(1)).unwrap_err();
    assert!(matches!(err, ResourceTableError::HostMemoryLimitExceeded));
}

#[test]
fn test_get_mut_fixed_no_tracking_overhead() {
    // get_mut is available for Fixed and returns &mut T directly.
    // The counter never changes because the size is fixed.
    let size = core::mem::size_of::<Fixed>();
    let mut table = ResourceTable::<Fixed>::new();
    let r = table.push(Fixed(1)).unwrap();
    assert_eq!(table.current_host_heap_usage(), size);

    // Mutate through get_mut — counter must remain stable.
    table.get_mut(&r).unwrap().0 = 42;
    assert_eq!(table.current_host_heap_usage(), size);

    table.delete(r).unwrap();
    assert_eq!(table.current_host_heap_usage(), 0);
}

#[test]
fn test_update_resource_grow() {
    let mut table = ResourceTable::<Metered>::new();
    table.set_max_host_heap_usage(Some(300));

    let r = table.push(Metered(100)).unwrap();
    assert_eq!(table.current_host_heap_usage(), 100);

    // Grow the resource.
    table.update_resource(&r, |t| t.0 = 200).unwrap();
    assert_eq!(table.current_host_heap_usage(), 200);

    // Shrink the resource.
    table.update_resource(&r, |t| t.0 = 50).unwrap();
    assert_eq!(table.current_host_heap_usage(), 50);
}

#[test]
fn test_update_resource_exceeds_limit() {
    let mut table = ResourceTable::<Metered>::new();
    table.set_max_host_heap_usage(Some(150));

    let r = table.push(Metered(100)).unwrap();

    // Growing to 200 exceeds the limit — error is returned immediately.
    let err = table.update_resource(&r, |t| t.0 = 200).unwrap_err();
    assert!(matches!(err, ResourceTableError::HostMemoryLimitExceeded));

    // Counter still reflects the actual (over-limit) size.
    assert_eq!(table.current_host_heap_usage(), 200);
}

#[test]
fn test_update_resource_delete_after_growth() {
    // After an update_resource growth, delete should correctly subtract the
    // new cached size, returning the counter to zero.
    let mut table = ResourceTable::<Metered>::new();
    let r = table.push(Metered(100)).unwrap();

    table.update_resource(&r, |t| t.0 = 300).unwrap();
    assert_eq!(table.current_host_heap_usage(), 300);

    table.delete(r).unwrap();
    assert_eq!(table.current_host_heap_usage(), 0);
}

#[test]
fn test_heap_usage_push_child() {
    let mut table = ResourceTable::<Metered>::new();
    table.set_max_host_heap_usage(Some(250));

    let parent = table.push(Metered(100)).unwrap();
    assert_eq!(table.current_host_heap_usage(), 100);

    let child = table.push_child(Metered(100), &parent).unwrap();
    assert_eq!(table.current_host_heap_usage(), 200);

    // A child that would exceed the limit is rejected.
    let err = table.push_child(Metered(51), &parent).unwrap_err();
    assert!(matches!(err, ResourceTableError::HostMemoryLimitExceeded));
    assert_eq!(table.current_host_heap_usage(), 200);

    table.delete(child).unwrap();
    assert_eq!(table.current_host_heap_usage(), 100);
}

#[test]
fn test_retain_and_release_host_heap_usage() {
    let mut table = ResourceTable::<Metered>::new();
    table.set_max_host_heap_usage(Some(300));

    // Reserve 200 bytes manually.
    table.retain_host_heap_usage(200).unwrap();
    assert_eq!(table.current_host_heap_usage(), 200);

    // Reserving 101 more should fail (would be 301 > 300).
    let err = table.retain_host_heap_usage(101).unwrap_err();
    assert!(matches!(err, ResourceTableError::HostMemoryLimitExceeded));

    // Release 100, leaving 100.
    table.release_host_heap_usage(100);
    assert_eq!(table.current_host_heap_usage(), 100);

    // Now reserving 200 should succeed (total = 300).
    table.retain_host_heap_usage(200).unwrap();
    assert_eq!(table.current_host_heap_usage(), 300);
}

#[test]
fn test_no_limit_no_error() {
    let mut table = ResourceTable::<Metered>::new();
    // No limit set — pushing large values should always succeed.
    for _ in 0..100 {
        table.push(Metered(1_000_000)).unwrap();
    }
    assert_eq!(table.current_host_heap_usage(), 100_000_000);
}

#[test]
fn test_remove_limit() {
    let mut table = ResourceTable::<Metered>::new();
    table.set_max_host_heap_usage(Some(100));

    table.push(Metered(100)).unwrap();
    assert!(table.push(Metered(1)).is_err());

    // Remove the limit — now the same push should succeed.
    table.set_max_host_heap_usage(None);
    table.push(Metered(1)).unwrap();
}

#[test]
fn test_borrow_mut_finish_updates_counter() {
    let mut table = ResourceTable::<Metered>::new();
    let r = table.push(Metered(100)).unwrap();
    assert_eq!(table.current_host_heap_usage(), 100);

    {
        let mut guard = table.borrow_mut(&r).unwrap();
        guard.deref_mut().0 = 250;
        guard.finish().unwrap();
    }
    assert_eq!(table.current_host_heap_usage(), 250);

    table.delete(r).unwrap();
    assert_eq!(table.current_host_heap_usage(), 0);
}

#[test]
fn test_borrow_mut_drop_without_finish_still_updates() {
    let mut table = ResourceTable::<Metered>::new();
    let r = table.push(Metered(100)).unwrap();
    assert_eq!(table.current_host_heap_usage(), 100);

    {
        let mut guard = table.borrow_mut(&r).unwrap();
        guard.deref_mut().0 = 300;
        // drop without finish()
    }
    assert_eq!(table.current_host_heap_usage(), 300);
}

#[test]
fn test_borrow_mut_finish_returns_error_on_over_limit() {
    let mut table = ResourceTable::<Metered>::new();
    table.set_max_host_heap_usage(Some(150));

    let r = table.push(Metered(100)).unwrap();

    let mut guard = table.borrow_mut(&r).unwrap();
    guard.deref_mut().0 = 200;
    let err = guard.finish().unwrap_err();
    assert!(matches!(err, ResourceTableError::HostMemoryLimitExceeded));

    // Counter is updated to reflect reality even on error.
    assert_eq!(table.current_host_heap_usage(), 200);
}

#[test]
fn test_borrow_mut_no_mutation_is_noop() {
    let mut table = ResourceTable::<Metered>::new();
    let r = table.push(Metered(100)).unwrap();

    {
        let guard = table.borrow_mut(&r).unwrap();
        guard.finish().unwrap();
    }
    assert_eq!(table.current_host_heap_usage(), 100);
}

#[test]
fn test_borrow_mut_shrink() {
    let mut table = ResourceTable::<Metered>::new();
    let r = table.push(Metered(200)).unwrap();

    {
        let mut guard = table.borrow_mut(&r).unwrap();
        guard.deref_mut().0 = 50;
        guard.finish().unwrap();
    }
    assert_eq!(table.current_host_heap_usage(), 50);
}

#[test]
fn test_heap_usage_not_leaked_on_push_full() {
    // When push() fails because the table is full, the speculatively-added
    // usage must be rolled back so the counter stays accurate.
    let mut table = ResourceTable::<Metered>::new();
    table.set_max_capacity(1);
    table.set_max_host_heap_usage(Some(1000));

    let r = table.push(Metered(100)).unwrap();
    assert_eq!(table.current_host_heap_usage(), 100);

    // The table is now full (capacity 1, one entry); this push should fail
    // with Full, not HostMemoryLimitExceeded.
    let err = table.push(Metered(100)).unwrap_err();
    assert!(matches!(err, ResourceTableError::Full));

    // Counter must be unchanged — no leak.
    assert_eq!(table.current_host_heap_usage(), 100);

    table.delete(r).unwrap();
    assert_eq!(table.current_host_heap_usage(), 0);
}

#[test]
fn test_max_capacity() {
    let mut table = ResourceTable::<()>::new();
    assert_eq!(table.max_capacity(), DEFAULT_MAX_CAPACITY);

    table.set_max_capacity(0);
    assert_eq!(table.max_capacity(), 0);
    assert!(table.push(()).is_err());

    table.set_max_capacity(1);
    assert_eq!(table.max_capacity(), 1);
    let x = table.push(()).unwrap();
    assert!(table.push(()).is_err());

    table.set_max_capacity(0);
    assert!(table.push(()).is_err());
    table.delete(x).unwrap();
    let x = table.push(()).unwrap();
    table.delete(x).unwrap();

    table.set_max_capacity(10);

    let handles = (0..10).map(|_| table.push(()).unwrap()).collect::<Vec<_>>();
    assert!(table.push(()).is_err());
    for handle in handles {
        table.delete(handle).unwrap();
    }

    table.push(()).unwrap();
}

/// Two kinds of resources in one table.
#[derive(Debug, PartialEq)]
enum Either {
    Metered(Metered),
    Fixed(Fixed),
}

impl HostHeapUsage for Either {
    fn reports(&self, bytes: usize) -> bool {
        bytes == self.host_heap_usage()
    }

    fn host_heap_usage(&self) -> usize {
        match self {
            Either::Metered(t) => t.host_heap_usage(),
            Either::Fixed(t) => t.host_heap_usage(),
        }
    }
}

impl Erase<Either> for Metered {
    fn erased(self) -> Either {
        self.erase()
    }

    fn recovered(u: Either) -> Option<Metered> {
        Self::downcast(u).ok()
    }

    fn stored_is_found(self) {}

    fn found_is_stored(_: Either) {}

    fn usage_is_kept(self, _: usize) {}

    fn erase(self) -> Either {
        Either::Metered(self)
    }

    fn downcast(u: Either) -> Result<Metered, Either> {
        match u {
            Either::Metered(t) => Ok(t),
            other => Err(other),
        }
    }

    fn downcast_ref(u: &Either) -> Option<&Metered> {
        match u {
            Either::Metered(t) => Some(t),
            _ => None,
        }
    }

    fn downcast_mut(u: &mut Either) -> Option<&mut Metered> {
        match u {
            Either::Metered(t) => Some(t),
            _ => None,
        }
    }
}

impl Erase<Either> for Fixed {
    fn erased(self) -> Either {
        self.erase()
    }

    fn recovered(u: Either) -> Option<Fixed> {
        Self::downcast(u).ok()
    }

    fn stored_is_found(self) {}

    fn found_is_stored(_: Either) {}

    fn usage_is_kept(self, _: usize) {}

    fn erase(self) -> Either {
        Either::Fixed(self)
    }

    fn downcast(u: Either) -> Result<Fixed, Either> {
        match u {
            Either::Fixed(t) => Ok(t),
            other => Err(other),
        }
    }

    fn downcast_ref(u: &Either) -> Option<&Fixed> {
        match u {
            Either::Fixed(t) => Some(t),
            _ => None,
        }
    }

    fn downcast_mut(u: &mut Either) -> Option<&mut Fixed> {
        match u {
            Either::Fixed(t) => Some(t),
            _ => None,
        }
    }
}

#[test]
fn values_of_two_types_are_told_apart() {
    let mut table = ResourceTable::<Either>::new();
    let a = table.push(Metered(7)).unwrap();
    let b = table.push(Fixed(9)).unwrap();
    assert_eq!(table.get(&a).unwrap(), &Metered(7));
    assert_eq!(table.get(&b).unwrap(), &Fixed(9));

    let wrong: Resource<Fixed> = Resource::new_borrow(a.rep());
    assert!(!wrong.owned());
    assert_eq!(table.get(&wrong).unwrap_err(), ResourceTableError::WrongType);
    assert_eq!(table.get_mut(&wrong).unwrap_err(), ResourceTableError::WrongType);
    let wrong: Resource<Metered> = Resource::new_borrow(b.rep());
    assert!(matches!(table.borrow_mut(&wrong), Err(ResourceTableError::WrongType)));
    assert_eq!(
        table.update_resource(&wrong, |t| t.0).unwrap_err(),
        ResourceTableError::WrongType
    );
}

#[test]
fn deletion_under_the_wrong_type_changes_nothing() {
    let mut table = ResourceTable::<Either>::new();
    let a = table.push(Metered(7)).unwrap();
    let wrong: Resource<Fixed> = Resource::new_own(a.rep());
    assert_eq!(table.delete(wrong).unwrap_err(), ResourceTableError::WrongType);
    assert_eq!(table.get(&a).unwrap(), &Metered(7));
    assert_eq!(table.current_host_heap_usage(), 7);

    // Children are a reason to refuse that comes first.
    let child = table.push_child(Fixed(1), &a).unwrap();
    let wrong: Resource<Fixed> = Resource::new_own(a.rep());
    assert_eq!(table.delete(wrong).unwrap_err(), ResourceTableError::HasChildren);
    assert_eq!(table.delete(child).unwrap(), Fixed(1));
    assert_eq!(table.delete(a).unwrap(), Metered(7));
    assert_eq!(table.current_host_heap_usage(), 0);
}

#[test]
fn a_sum_that_is_not_representable_is_over_the_limit() {
    let mut table = ResourceTable::<Metered>::new();
    table.set_max_host_heap_usage(Some(usize::MAX));
    table.retain_host_heap_usage(usize::MAX).unwrap();
    assert_eq!(
        table.retain_host_heap_usage(1),
        Err(ResourceTableError::HostMemoryLimitExceeded)
    );
    assert_eq!(table.current_host_heap_usage(), usize::MAX);
    assert_eq!(
        table.push(Metered(1)).unwrap_err(),
        ResourceTableError::HostMemoryLimitExceeded
    );
    assert_eq!(table.update_usage(1, 2), Err(ResourceTableError::HostMemoryLimitExceeded));
    assert_eq!(table.current_host_heap_usage(), usize::MAX);
    assert_eq!(table.update_usage(2, 2), Ok(()));
}

#[test]
fn shrinking_is_reported_while_the_total_is_over_the_limit() {
    let mut table = ResourceTable::<Metered>::new();
    table.set_max_host_heap_usage(Some(150));
    let r = table.push(Metered(100)).unwrap();
    let over = Err(ResourceTableError::HostMemoryLimitExceeded);
    assert_eq!(table.update_resource(&r, |t| t.0 = 200), over);
    assert_eq!(table.current_host_heap_usage(), 200);
    assert_eq!(table.update_resource(&r, |t| t.0 = 180), over);
    assert_eq!(table.current_host_heap_usage(), 180);
    let mut guard = table.borrow_mut(&r).unwrap();
    guard.deref_mut().0 = 160;
    assert_eq!(guard.finish(), over);
    assert_eq!(table.current_host_heap_usage(), 160);
    assert_eq!(table.update_resource(&r, |t| t.0 = 150), Ok(()));
    assert_eq!(table.current_host_heap_usage(), 150);
    assert_eq!(table.delete(r).unwrap(), Metered(150));
}

#[test]
fn the_total_is_what_is_held_and_retained() {
    let mut table = ResourceTable::<Metered>::new();
    table.set_max_host_heap_usage(Some(1000));
    let a = table.push(Metered(100)).unwrap();
    let b = table.push_child(Metered(30), &a).unwrap();
    table.retain_host_heap_usage(50).unwrap();
    assert!(table.retain_host_heap_usage(2000).is_err());
    assert!(table.push(Metered(2000)).is_err());
    assert!(table.push_child(Metered(1), &Resource::<Metered>::new_own(9)).is_err());
    assert!(table.update_resource(&a, |t| t.0 = 950).is_err());
    assert_eq!(table.current_host_heap_usage(), 950 + 30 + 50);
    assert!(table.delete(Resource::<Metered>::new_own(a.rep())).is_err());
    table.release_host_heap_usage(20);
    table.delete(b).unwrap();
    assert_eq!(table.current_host_heap_usage(), 950 + 30);
    table.delete(a).unwrap();
    assert_eq!(table.current_host_heap_usage(), 30);
}

#[test]
fn unused_indices_are_used_once_each() {
    let mut table = ResourceTable::<()>::new();
    let mut handles: Vec<Resource<()>> = (0..6).map(|_| table.push(()).unwrap()).collect();
    table.delete(handles.remove(4)).unwrap();
    table.delete(handles.remove(1)).unwrap();
    table.delete(handles.remove(2)).unwrap();
    let mut got: Vec<u32> = (0..3).map(|_| table.push(()).unwrap().rep()).collect();
    assert_eq!(got, vec![3, 1, 4]);
    got.sort();
    assert_eq!(got, vec![1, 3, 4]);
    assert_eq!(table.push(()).unwrap().rep(), 6);
}

#[test]
fn buffers_are_counted_by_capacity() {
    assert_eq!(buffer_usage(24, 100), 124);
    assert_eq!(buffer_usage(usize::MAX, 1), usize::MAX);
    let inline = core::mem::size_of::<Vec<Metered>>();
    let place = core::mem::size_of::<Metered>();
    // The second reports less than its own place, which counts as nothing more.
    let v = vec![Metered(place + 5), Metered(0)];
    assert_eq!(vec_usage(&v, 10), inline + 10 * place + 5);
    assert_eq!(vec_usage(&v, 2), inline + 2 * place + 5);
}

#[test]
fn nothing_is_found_at_an_unused_index() {
    let mut table = ResourceTable::<Metered>::new();
    let key: Resource<Metered> = Resource::new_own(5);
    assert_eq!(table.get(&key).unwrap_err(), ResourceTableError::NotPresent);
    assert!(matches!(table.get_any_mut(5), Err(ResourceTableError::NotPresent)));
    assert!(matches!(table.borrow_mut(&key), Err(ResourceTableError::NotPresent)));
    assert!(matches!(table.iter_children(&key), Err(ResourceTableError::NotPresent)));
    assert_eq!(table.push_child(Metered(3), &key).unwrap_err(), ResourceTableError::NotPresent);
    // A refused child is not counted.
    assert_eq!(table.current_host_heap_usage(), 0);
    assert_eq!(table.delete(key).unwrap_err(), ResourceTableError::NotPresent);
}

#[test]
fn a_parent_outlives_its_children() {
    let mut table = ResourceTable::<Metered>::new();
    let parent = table.push(Metered(1)).unwrap();
    let child = table.push_child(Metered(2), &parent).unwrap();
    let key = parent.rep();
    assert_eq!(table.delete(parent).unwrap_err(), ResourceTableError::HasChildren);
    assert_eq!(table.current_host_heap_usage(), 3);
    assert_eq!(table.delete(child).unwrap(), Metered(2));
    let parent: Resource<Metered> = Resource::new_own(key);
    assert_eq!(table.delete(parent).unwrap(), Metered(1));
    assert!(table.is_empty());
}

#[test]
fn children_are_added_and_removed() {
    let mut table = ResourceTable::<Metered>::new();
    let parent = table.push(Metered(1)).unwrap();
    let child = table.push(Metered(2)).unwrap();
    let p = parent.rep();
    let c = child.rep();
    let own = |rep: u32| -> Resource<Metered> { Resource::new_own(rep) };

    table.add_child(own(c), own(p)).unwrap();
    assert_eq!(table.iter_children(&own(p)).unwrap().len(), 1);
    assert_eq!(table.delete(own(p)).unwrap_err(), ResourceTableError::HasChildren);

    table.remove_child(own(c), own(p)).unwrap();
    assert_eq!(table.iter_children(&own(p)).unwrap().len(), 0);
    table.delete(own(p)).unwrap();
    assert_eq!(table.get(&own(c)).unwrap(), &Metered(2));

    // Neither end may be missing.
    assert_eq!(table.add_child(own(9), own(c)).unwrap_err(), ResourceTableError::NotPresent);
    assert_eq!(table.add_child(own(c), own(9)).unwrap_err(), ResourceTableError::NotPresent);
    assert_eq!(table.remove_child(own(9), own(c)).unwrap_err(), ResourceTableError::NotPresent);
    // A refused tie leaves the child free of one.
    let other = table.push(Metered(3)).unwrap();
    table.add_child(own(c), own(other.rep())).unwrap();
}

#[test]
fn children_come_in_the_order_of_their_indices() {
    let mut table = ResourceTable::<Metered>::new();
    let x = table.push(Metered(10)).unwrap();
    let parent = table.push(Metered(11)).unwrap();
    table.push_child(Metered(12), &parent).unwrap();
    table.delete(x).unwrap();
    table.push_child(Metered(13), &parent).unwrap();
    let children = table.iter_children(&parent).unwrap();
    let values: Vec<usize> = children
        .iter()
        .map(|s| match s {
            Stored::Value(t) => t.0,
            Stored::Tombstone => 0,
        })
        .collect();
    assert_eq!(values, vec![13, 12]);
}

#[test]
fn entries_are_paired_with_the_values_of_a_map() {
    let mut table = ResourceTable::<Metered>::new();
    table.push(Metered(1)).unwrap();
    table.push(Metered(2)).unwrap();
    table.push(Metered(3)).unwrap();
    let mut map: BTreeMap<u32, char> = BTreeMap::new();
    map.insert(9, 'z');
    map.insert(2, 'c');
    map.insert(0, 'a');
    let mut seen = Vec::new();
    for (entry, value) in table.iter_entries(map) {
        match entry {
            Ok(Stored::Value(t)) => {
                t.0 += 10;
                seen.push((t.0, value));
            }
            Ok(Stored::Tombstone) => panic!("no entry was deleted"),
            Err(e) => {
                assert_eq!(e, ResourceTableError::NotPresent);
                seen.push((0, value));
            }
        }
    }
    assert_eq!(seen, vec![(11, 'a'), (13, 'c'), (0, 'z')]);
    let key = |rep: u32| -> Resource<Metered> { Resource::new_own(rep) };
    assert_eq!(table.get(&key(0)).unwrap(), &Metered(11));
    assert_eq!(table.get(&key(1)).unwrap(), &Metered(2));
    assert_eq!(table.get(&key(2)).unwrap(), &Metered(13));
    // The counter is not told.
    assert_eq!(table.current_host_heap_usage(), 6);
}

#[test]
fn all_entries_can_be_changed() {
    let mut table = ResourceTable::<Metered>::new();
    table.push(Metered(1)).unwrap();
    let b = table.push(Metered(2)).unwrap();
    table.push(Metered(3)).unwrap();
    table.delete(b).unwrap();
    let mut n = 0;
    for entry in table.iter_mut() {
        if let Stored::Value(t) = entry {
            n += 1;
            t.0 *= 100;
        }
    }
    assert_eq!(n, 2);
    let key = |rep: u32| -> Resource<Metered> { Resource::new_own(rep) };
    assert_eq!(table.get(&key(0)).unwrap(), &Metered(100));
    assert_eq!(table.get(&key(2)).unwrap(), &Metered(300));
}

#[test]
fn a_mark_keeps_the_index_out_of_use() {
    let mut table = ResourceTable::<Metered>::new();
    let x = table.push(Metered(4)).unwrap();
    let key = x.rep();
    assert_eq!(table.delete_maybe_debug(x, true).unwrap(), Metered(4));
    assert!(table.is_empty());
    assert_eq!(table.current_host_heap_usage(), 0);
    let again: Resource<Metered> = Resource::new_own(key);
    assert_eq!(table.get(&again).unwrap_err(), ResourceTableError::WrongType);
    assert_eq!(table.push(Metered(5)).unwrap().rep(), 1);
    assert_eq!(table.fmt(), "[1]");
    // The mark is an entry like others.
    assert_eq!(table.iter_mut().len(), 2);
    assert!(matches!(table.get_any_mut(key), Ok(Stored::Tombstone)));
}

#[test]
fn the_indices_in_use_are_shown() {
    let mut table = ResourceTable::<()>::new();
    assert_eq!(table.fmt(), "[]");
    let mut handles = Vec::new();
    for _ in 0..12 {
        handles.push(table.push(()).unwrap());
    }
    assert_eq!(table.fmt(), "[0, 1, 2, 3, 4, 5, 6, 7, 8, 9, 10, 11]");
    for handle in handles.drain(1..10) {
        table.delete(handle).unwrap();
    }
    assert_eq!(table.fmt(), "[0, 10, 11]");
}

#[test]
fn a_borrow_shows_the_value() {
    let mut table = ResourceTable::<Metered>::default();
    let r = table.push(Metered(100)).unwrap();
    let guard = table.borrow_mut(&r).unwrap();
    assert_eq!(guard.deref(), &Metered(100));
    assert_eq!(guard.usage_before, 100);
    guard.finish().unwrap();
}

#[test]
fn an_update_hands_out_what_the_closure_returns() {
    let mut table = ResourceTable::<Metered>::with_capacity(4);
    let r = table.push(Metered(5)).unwrap();
    let old = table.update_resource(&r, |t| core::mem::replace(&mut t.0, 8)).unwrap();
    assert_eq!(old, 5);
    assert_eq!(table.current_host_heap_usage(), 8);
    let missing: Resource<Metered> = Resource::new_own(1);
    assert_eq!(
        table.update_resource(&missing, |t| t.0).unwrap_err(),
        ResourceTableError::NotPresent
    );
}

#[test]
fn the_counter_stops_at_the_ends() {
    let mut table = ResourceTable::<Metered>::new();
    table.retain_host_heap_usage(usize::MAX).unwrap();
    table.retain_host_heap_usage(1).unwrap();
    assert_eq!(table.current_host_heap_usage(), usize::MAX);
    table.release_host_heap_usage(usize::MAX);
    assert_eq!(table.current_host_heap_usage(), 0);
    assert_eq!(table.update_usage(5, 2), Ok(()));
    assert_eq!(table.current_host_heap_usage(), 0);
    assert_eq!(table.check_and_add_usage(3), Ok(()));
    assert_eq!(table.current_host_heap_usage(), 3);
}

#[test]
fn measured_values_are_inserted_as_they_are_measured() {
    let mut table = ResourceTable::<Metered>::new();
    table.set_max_host_heap_usage(Some(10));
    assert_eq!(table.push_measured(Metered(1), 6, None), Ok(0));
    assert_eq!(table.push_measured(Metered(1), 4, Some(0)), Ok(1));
    assert_eq!(table.current_host_heap_usage(), 10);
    assert_eq!(
        table.push_measured(Metered(1), 1, None),
        Err(ResourceTableError::HostMemoryLimitExceeded)
    );
    assert_eq!(
        table.push_measured(Metered(1), 0, Some(7)),
        Err(ResourceTableError::NotPresent)
    );
    assert!(matches!(table.delete_entry(0, false), Err(ResourceTableError::HasChildren)));
    let entry = match table.delete_entry(1, false) {
        Ok(entry) => entry,
        Err(_) => panic!("the entry has no children"),
    };
    assert_eq!(entry.parent, Some(0));
    assert!(matches!(entry.entry, Stored::Value(Metered(1))));
}

#[test]
fn errors_have_their_texts() {
    assert_eq!(ResourceTableError::Full.message(), "resource table has no free keys");
    assert_eq!(ResourceTableError::NotPresent.message(), "resource not present");
    assert_eq!(ResourceTableError::WrongType.message(), "resource is of another type");
    assert_eq!(ResourceTableError::HasChildren.message(), "resource has children");
    assert_eq!(
        ResourceTableError::HostMemoryLimitExceeded.message(),
        "host heap memory limit exceeded for resource table"
    );
}

#[test]
fn fixed_types_report_their_size() {
    assert_eq!(().host_heap_usage(), 0);
    assert_eq!(true.host_heap_usage(), 1);
    assert_eq!(7u8.host_heap_usage(), 1);
    assert_eq!(7u16.host_heap_usage(), 2);
    assert_eq!(7u32.host_heap_usage(), 4);
    assert_eq!(7u64.host_heap_usage(), 8);
    assert_eq!(7u128.host_heap_usage(), 16);
    assert_eq!(7i8.host_heap_usage(), 1);
    assert_eq!(7i16.host_heap_usage(), 2);
    assert_eq!(7i32.host_heap_usage(), 4);
    assert_eq!(7i64.host_heap_usage(), 8);
    assert_eq!(7i128.host_heap_usage(), 16);
    assert_eq!('x'.host_heap_usage(), 4);
    assert_eq!(Fixed(3).host_heap_usage(), 8);
}

#[test]
fn owned_buffers_are_counted() {
    let mut s = String::with_capacity(100);
    s.push('x');
    let inline = core::mem::size_of::<String>();
    assert!(s.host_heap_usage() >= inline + 100);
    assert_eq!(s.host_heap_usage(), inline + s.capacity());

    let mut v: Vec<u32> = Vec::with_capacity(10);
    v.push(1);
    assert_eq!(v.host_heap_usage(), core::mem::size_of::<Vec<u32>>() + 4 * v.capacity());
    assert!(v.capacity() >= 10);

    // Each string's own bytes come on top of its place in the buffer.
    let nested = vec![String::from("abc"), String::from("defgh")];
    let own = nested[0].capacity() + nested[1].capacity();
    assert_eq!(
        nested.host_heap_usage(),
        core::mem::size_of::<Vec<String>>() + nested.capacity() * inline + own
    );
    let unit = vec![(), ()];
    assert_eq!(unit.host_heap_usage(), core::mem::size_of::<Vec<()>>());
}

#[test]
fn wrappers_add_what_the_inner_value_owns() {
    let text = String::from("abc");
    let own = text.capacity();
    let some = Some(text);
    assert_eq!(some.host_heap_usage(), core::mem::size_of::<Option<String>>() + own);
    let none: Option<String> = None;
    assert_eq!(none.host_heap_usage(), core::mem::size_of::<Option<String>>());
    let ok: Result<String, u8> = Ok(String::from("abc"));
    assert_eq!(
        ok.host_heap_usage(),
        core::mem::size_of::<Result<String, u8>>() + ok.as_ref().unwrap().capacity()
    );
    let err: Result<String, u8> = Err(1);
    assert_eq!(err.host_heap_usage(), core::mem::size_of::<Result<String, u8>>());
}

#[test]
fn an_error_of_unknown_size_reports_its_pointer() {
    let e = anyhow::Error::msg("unknown");
    assert_eq!(e.host_heap_usage(), core::mem::size_of::<anyhow::Error>());
}

#[test]
fn a_borrow_let_go_of_counts_before_what_follows() {
    let mut table = ResourceTable::<Either>::new();
    table.set_max_host_heap_usage(Some(1000));
    let a = table.push(Metered(100)).unwrap();
    let b = table.push(Metered(200)).unwrap();

    // A push is held to the total with what was let go of.
    table.borrow_mut(&a).unwrap().deref_mut().0 = 700;
    assert_eq!(
        table.push(Metered(101)).unwrap_err(),
        ResourceTableError::HostMemoryLimitExceeded
    );
    assert_eq!(table.current_host_heap_usage(), 900);
    let c = table.push(Metered(100)).unwrap();
    assert_eq!(table.current_host_heap_usage(), 1000);

    // Going over the limit is ignored, and the next borrow counts from there.
    table.borrow_mut(&a).unwrap().deref_mut().0 = 800;
    assert_eq!(table.current_host_heap_usage(), 1100);
    table.borrow_mut(&b).unwrap().deref_mut().0 = 0;
    assert_eq!(table.current_host_heap_usage(), 900);

    // Nothing is counted twice, whatever is done next.
    table.borrow_mut(&a).unwrap().deref_mut().0 = 10;
    table.update_resource(&a, |t| t.0 += 10).unwrap();
    assert_eq!(table.current_host_heap_usage(), 120);
    table.borrow_mut(&c).unwrap().deref_mut().0 = 30;
    table.get_any_mut(c.rep()).unwrap();
    assert_eq!(table.current_host_heap_usage(), 50);
    table.borrow_mut(&b).unwrap().deref_mut().0 = 5;
    table.retain_host_heap_usage(45).unwrap();
    assert_eq!(table.current_host_heap_usage(), 100);
    table.borrow_mut(&b).unwrap().deref_mut().0 = 15;
    table.release_host_heap_usage(45);
    assert_eq!(table.current_host_heap_usage(), 65);
    table.borrow_mut(&b).unwrap().deref_mut().0 = 25;
    assert!(table.borrow_mut(&Resource::<Fixed>::new_own(b.rep())).is_err());
    assert_eq!(table.current_host_heap_usage(), 75);

    // A deletion takes off what the value uses by then.
    table.borrow_mut(&a).unwrap().deref_mut().0 = 60;
    assert_eq!(table.delete(a).unwrap(), Metered(60));
    assert_eq!(table.current_host_heap_usage(), 55);
    table.borrow_mut(&c).unwrap().deref_mut().0 = 3;
    table.iter_mut();
    assert_eq!(table.delete(c).unwrap(), Metered(3));
    table.borrow_mut(&b).unwrap().deref_mut().0 = 4;
    table.iter_entries(BTreeMap::from([(b.rep(), ())]));
    assert_eq!(table.delete(b).unwrap(), Metered(4));
    assert_eq!(table.current_host_heap_usage(), 0);
}
