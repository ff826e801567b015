//! The table that maps handles to the resources they stand for.

use crate::component::erase::{Erase, Stored};
use crate::component::error::ResourceTableError;
use crate::component::resource::Resource;
use crate::component::resources::{FixedHostHeapUsage, HostHeapUsage};
use crate::component::table_view::{EntryView, TableView};
use std::collections::{BTreeMap, BTreeSet};
use vstd::prelude::*;
use vstd::string::*;

verus! {

/// Whether a deletion leaves a mark in place of the entry, so that the index is
/// never used again. Of help when handles are debugged.
pub const DELETE_WITH_TOMBSTONE: bool = false;

/// The capacity of a new table: high enough that it seldom needs changing, low
/// enough that exhausting it is no problem for the host.
pub const DEFAULT_MAX_CAPACITY: usize = 1_000_000;

/// An entry of the table, with its place in the family of entries.
///
/// Parents and children are referred to by table index.
pub struct TableEntry<U> {
    /// What the entry holds.
    pub entry: Stored<U>,
    /// The index of the parent of this entry, if it has one.
    pub parent: Option<u32>,
    /// The indices of any children of this entry.
    pub children: BTreeSet<u32>,
}

impl<U> View for TableEntry<U> {
    type V = EntryView<U>;

    open spec fn view(&self) -> EntryView<U> {
        EntryView { value: self.entry, parent: self.parent, children: self.children@ }
    }
}

impl<U> TableEntry<U> {
    /// An entry without children.
    pub fn new(entry: Stored<U>, parent: Option<u32>) -> (e: TableEntry<U>)
        ensures
            e@ == EntryView::fresh(entry, parent),
    {
        TableEntry { entry, parent, children: BTreeSet::new() }
    }

    /// Lists `child`, which is not listed yet, among the children.
    pub fn add_child(&mut self, child: u32)
        requires
            !old(self)@.children.contains(child),
        ensures
            final(self)@ == (EntryView {
                children: old(self)@.children.insert(child),
                ..old(self)@
            }),
    {
        self.children.insert(child);
    }

    /// Strikes `child`, which is listed, from the list of children.
    pub fn remove_child(&mut self, child: u32)
        requires
            old(self)@.children.contains(child),
        ensures
            final(self)@ == (EntryView {
                children: old(self)@.children.remove(child),
                ..old(self)@
            }),
    {
        self.children.remove(&child);
    }
}

/// A slot of the table.
pub enum Entry<U> {
    /// Nothing is here; `next` is the slot that follows in the free list.
    Free { next: Option<usize> },
    /// An entry is here.
    Occupied { entry: TableEntry<U> },
}

impl<U> Entry<U> {
    /// The entry in this slot, if there is one.
    pub open spec fn slot(self) -> Option<EntryView<U>> {
        match self {
            Entry::Free { .. } => None,
            Entry::Occupied { entry } => Some(entry@),
        }
    }

    /// The entry in this slot, if there is one.
    pub fn occupied(&self) -> (r: Option<&TableEntry<U>>)
        ensures
            match r {
                Some(e) => *self == (Entry::Occupied { entry: *e }),
                None => *self is Free,
            },
    {
        match self {
            Entry::Occupied { entry } => Some(entry),
            Entry::Free { .. } => None,
        }
    }

    /// The entry in this slot, to be changed, if there is one.
    pub fn occupied_mut(&mut self) -> (r: Option<&mut TableEntry<U>>)
        ensures
            match r {
                Some(e) => *old(self) == (Entry::Occupied { entry: *e }) && *final(self) == (
                Entry::Occupied { entry: *final(e) }),
                None => *old(self) is Free && *final(self) == *old(self),
            },
    {
        match self {
            Entry::Occupied { entry } => Some(entry),
            Entry::Free { .. } => None,
        }
    }
}

/// A table that maps a `Resource<T>` to its `T`, for any type `T` that can be
/// stored in the universe `U`.
pub struct ResourceTable<U> {
    entries: Vec<Entry<U>>,
    free_head: Option<usize>,
    max_capacity: usize,
    /// The current total host heap usage, in bytes, of all resources in the table.
    current_host_heap_usage: usize,
    /// The most that the total may become, if there is a limit.
    max_host_heap_usage: Option<usize>,
    /// Whether a value was borrowed to be changed and was not measured again.
    open: bool,
    /// The index of that value.
    open_key: u32,
    /// What that value used when it was borrowed.
    open_before: usize,
    /// The free slots, in the order in which they are linked.
    free_list: Ghost<Seq<int>>,
}

impl<U> View for ResourceTable<U> {
    type V = TableView<U>;

    closed spec fn view(&self) -> TableView<U> {
        TableView {
            slots: self.entries@.map_values(|e: Entry<U>| e.slot()),
            free: self.free_list@,
            max_capacity: self.max_capacity,
            usage: self.current_host_heap_usage,
            limit: self.max_host_heap_usage,
            borrowed: if self.open {
                Some((self.open_key, self.open_before))
            } else {
                None
            },
        }
    }
}

impl<U: HostHeapUsage> ResourceTable<U> {
    /// The slot that follows the `i`th of the free list.
    spec fn free_after(free: Seq<int>, i: int) -> Option<usize> {
        if i + 1 < free.len() {
            Some(free[i + 1] as usize)
        } else {
            None
        }
    }

    /// The links in the slots make up the free list.
    spec fn links_ok(&self) -> bool {
        let free = self.free_list@;
        &&& self.free_head == Self::free_after(free, -1)
        &&& forall|i: int|
            0 <= i < free.len() ==> 0 <= #[trigger] free[i] < self.entries@.len()
                && self.entries@[free[i]] == (Entry::<U>::Free {
                next: Self::free_after(free, i),
            })
    }

    /// The table is in order. Every operation keeps it so.
    pub closed spec fn wf(&self) -> bool {
        self.links_ok() && self@.inv()
    }

    /// In a table that is in order, the free list names each unused index once,
    /// and an entry lists as its children exactly the entries that name it as
    /// their parent.
    pub proof fn law_table_in_order(&self)
        requires
            self.wf(),
        ensures
            self@.inv(),
    {
    }

    /// Creates an empty table.
    pub fn new() -> (table: ResourceTable<U>)
        ensures
            table.wf(),
            table@ == TableView::<U>::empty(DEFAULT_MAX_CAPACITY),
    {
        ResourceTable::with_capacity(0)
    }

    /// Creates an empty table with room for `capacity` entries.
    pub fn with_capacity(capacity: usize) -> (table: ResourceTable<U>)
        ensures
            table.wf(),
            table@ == TableView::<U>::empty(DEFAULT_MAX_CAPACITY),
    {
        let table = ResourceTable {
            entries: Vec::with_capacity(capacity),
            free_head: None,
            max_capacity: DEFAULT_MAX_CAPACITY,
            current_host_heap_usage: 0,
            max_host_heap_usage: None,
            open: false,
            open_key: 0,
            open_before: 0,
            free_list: Ghost(Seq::empty()),
        };
        assert(table@.slots =~= Seq::empty());
        table
    }

    /// Pops an index off the free list, if it is not empty. The slot keeps its
    /// link, but is no longer in the list.
    fn pop_free_list(&mut self) -> (r: Option<usize>)
        requires
            old(self).links_ok(),
        ensures
            match r {
                Some(ix) => {
                    &&& old(self).free_list@.len() > 0
                    &&& ix == old(self).free_list@[0]
                    &&& ix < old(self).entries@.len()
                    &&& final(self).free_list@ == old(self).free_list@.drop_first()
                },
                None => {
                    &&& old(self).free_list@.len() == 0
                    &&& final(self).free_list@ == old(self).free_list@
                },
            },
            final(self)@ == old(self)@.pop_outcome().0,
            r is Some <==> old(self)@.pop_outcome().1 is Some,
            r matches Some(ix) ==> old(self)@.pop_outcome().1 == Some(ix as int),
            final(self).links_ok(),
            final(self).entries@ == old(self).entries@,
            final(self).max_capacity == old(self).max_capacity,
            final(self).current_host_heap_usage == old(self).current_host_heap_usage,
            final(self).max_host_heap_usage == old(self).max_host_heap_usage,
    {
        if let Some(ix) = self.free_head {
            let ghost free = self.free_list@;
            assert(0 <= free[0] < self.entries.len());
            assert(free[0] == ix);
            match &self.entries[ix] {
                Entry::Free { next } => {
                    self.free_head = *next;
                },
                Entry::Occupied { .. } => {
                },
            }
            self.free_list = Ghost(free.drop_first());
            assert forall|i: int| 0 <= i < self.free_list@.len() implies 0 <= #[trigger]
            self.free_list@[i] < self.entries@.len() && self.entries@[self.free_list@[i]] == (
            Entry::<U>::Free { next: Self::free_after(self.free_list@, i) }) by {
                assert(self.free_list@[i] == free[i + 1]);
            }
            Some(ix)
        } else {
            None
        }
    }

    /// Puts a new entry into the table and returns its index: that of a free
    /// slot if there is one, and else one at the end of the table.
    fn push_(&mut self, e: TableEntry<U>) -> (r: Result<u32, ResourceTableError>)
        requires
            old(self).wf(),
        ensures
            match r {
                Ok(ix) => {
                    &&& old(self)@.next_slot() == Some(ix)
                    &&& final(self)@ == old(self)@.placed(e@)
                },
                Err(x) => {
                    &&& x == ResourceTableError::Full
                    &&& old(self)@.next_slot() is None
                    &&& final(self)@ == old(self)@
                },
            },
            final(self).links_ok(),
    {
        if let Some(free) = self.pop_free_list() {
            let ghost popped = *self;
            self.entries.set(free, Entry::Occupied { entry: e });
            proof {
                assert forall|i: int| 0 <= i < self.free_list@.len() implies 0 <= #[trigger]
                self.free_list@[i] < self.entries@.len() && self.entries@[self.free_list@[i]] == (
                Entry::<U>::Free { next: Self::free_after(self.free_list@, i) }) by {
                    assert(self.free_list@[i] == old(self).free_list@[i + 1]);
                    assert(old(self)@.free[i + 1] != old(self)@.free[0]);
                    assert(popped.entries@[popped.free_list@[i]] is Free);
                }
                assert(self@.slots =~= old(self)@.slots.update(free as int, Some(e@)));
            }
            Ok(free as u32)
        } else {
            if self.entries.len() >= self.max_capacity {
                return Err(ResourceTableError::Full);
            }
            if self.entries.len() > u32::MAX as usize {
                return Err(ResourceTableError::Full);
            }
            let ix: u32 = self.entries.len() as u32;
            self.entries.push(Entry::Occupied { entry: e });
            assert(self@.slots =~= old(self)@.slots.push(Some(e@)));
            Ok(ix)
        }
    }

    /// Frees the slot `ix`, which holds an entry, and returns that entry. The
    /// index is added to the free list or, with `debug`, marked as deleted and
    /// not made available again, which helps to find handles that are used
    /// after deletion.
    fn free_entry(&mut self, ix: usize, debug: bool) -> (e: TableEntry<U>)
        requires
            old(self).wf(),
            ix <= u32::MAX,
            old(self)@.occupied(ix as u32),
        ensures
            e@ == old(self)@.entry(ix as u32),
            final(self)@ == old(self)@.freed(ix as u32, debug),
            final(self).links_ok(),
    {
        let ghost free = self.free_list@;
        assert forall|i: int| 0 <= i < free.len() implies #[trigger] free[i] != ix by {
            assert(self@.slots[self@.free[i]] is None);
        }
        let mut slot = if debug {
            Entry::Occupied { entry: TableEntry::new(Stored::Tombstone, None) }
        } else {
            Entry::Free { next: self.free_head }
        };
        std::mem::swap(&mut self.entries[ix], &mut slot);
        if !debug {
            self.free_head = Some(ix);
            self.free_list = Ghost(seq![ix as int] + free);
            assert forall|i: int| 0 <= i < self.free_list@.len() implies 0 <= #[trigger]
            self.free_list@[i] < self.entries@.len() && self.entries@[self.free_list@[i]] == (
            Entry::<U>::Free { next: Self::free_after(self.free_list@, i) }) by {
                if i > 0 {
                    assert(self.free_list@[i] == free[i - 1]);
                }
            }
        }
        assert(self@.slots =~= old(self)@.freed(ix as u32, debug).slots);
        match slot {
            Entry::Occupied { entry } => entry,
            Entry::Free { .. } => vstd::pervasive::unreached(),
        }
    }

    /// The entry at `key`.
    fn occupied(&self, key: u32) -> (r: Result<&TableEntry<U>, ResourceTableError>)
        ensures
            match r {
                Ok(e) => self@.occupied(key) && e@ == self@.entry(key),
                Err(x) => !self@.occupied(key) && x == ResourceTableError::NotPresent,
            },
    {
        let ix: usize = key as usize;
        if ix < self.entries.len() {
            match self.entries[ix].occupied() {
                Some(e) => Ok(e),
                None => Err(ResourceTableError::NotPresent),
            }
        } else {
            Err(ResourceTableError::NotPresent)
        }
    }

    /// The entry at `key`, to be changed.
    fn occupied_mut(&mut self, key: u32) -> (r: Result<&mut TableEntry<U>, ResourceTableError>)
        requires
            old(self).links_ok(),
        ensures
            match r {
                Ok(e) => {
                    &&& old(self)@.occupied(key)
                    &&& e@ == old(self)@.entry(key)
                    &&& final(self)@ == old(self)@.with_entry(key, (*final(e))@)
                },
                Err(x) => {
                    &&& !old(self)@.occupied(key)
                    &&& x == ResourceTableError::NotPresent
                    &&& final(self)@ == old(self)@
                },
            },
            final(self).links_ok(),
    {
        let ix: usize = key as usize;
        if ix < self.entries.len() {
            match self.entries[ix].occupied_mut() {
                Some(e) => Ok(e),
                None => Err(ResourceTableError::NotPresent),
            }
        } else {
            Err(ResourceTableError::NotPresent)
        }
    }

    /// The entry at `key`, the table's running total, and whether the borrow that
    /// was opened is still open, all to be changed.
    fn occupied_and_account(&mut self, key: u32) -> (r: Result<
        (&mut TableEntry<U>, &mut usize, &mut bool),
        ResourceTableError,
    >)
        requires
            old(self).links_ok(),
            old(self)@.borrowed is Some,
        ensures
            match r {
                Ok((e, total, open)) => {
                    &&& old(self)@.occupied(key)
                    &&& e@ == old(self)@.entry(key)
                    &&& *total == old(self)@.usage
                    &&& *open
                    &&& final(self)@ == old(self)@.with_entry(key, (*final(e))@).with_usage(
                        *final(total),
                    ).with_borrowed(
                        if *final(open) {
                            old(self)@.borrowed
                        } else {
                            None
                        },
                    )
                },
                Err(x) => {
                    &&& !old(self)@.occupied(key)
                    &&& x == ResourceTableError::NotPresent
                    &&& final(self)@ == old(self)@
                },
            },
            final(self).links_ok(),
    {
        let ix: usize = key as usize;
        if ix < self.entries.len() {
            match self.entries[ix].occupied_mut() {
                Some(e) => Ok((e, &mut self.current_host_heap_usage, &mut self.open)),
                None => Err(ResourceTableError::NotPresent),
            }
        } else {
            Err(ResourceTableError::NotPresent)
        }
    }

    /// Returns whether this table is empty, that is, holds no value. Takes time
    /// proportional to the number of slots.
    pub fn is_empty(&self) -> (b: bool)
        ensures
            b == self@.holds_nothing(),
    {
        for i in 0..self.entries.len()
            invariant
                forall|j: int|
                    0 <= j < i ==> ((#[trigger] self.entries@[j]) is Occupied
                        ==> self.entries@[j]->entry.entry is Tombstone),
        {
            if let Some(e) = self.entries[i].occupied() {
                if !e.entry.is_tombstone() {
                    assert(self@.slots[i as int] == Some(e@));
                    return false;
                }
            }
        }
        true
    }

    /// Returns the maximum capacity of this table, in elements, before adding
    /// any more is refused.
    pub fn max_capacity(&self) -> (max: usize)
        ensures
            max == self@.max_capacity,
    {
        self.max_capacity
    }

    /// Configures the maximum number of entries that may be present within this
    /// table. Entries that are there stay, however many they are.
    pub fn set_max_capacity(&mut self, max: usize)
        requires
            old(self).wf(),
        ensures
            final(self).wf(),
            final(self)@ == (TableView { max_capacity: max, ..old(self)@ }),
    {
        self.max_capacity = max;
        proof {
            self.lemma_same_contents(*old(self));
        }
    }

    /// Sets the maximum allowed total host heap usage, in bytes, of the
    /// resources in this table. `None` removes the limit.
    pub fn set_max_host_heap_usage(&mut self, max: Option<usize>)
        requires
            old(self).wf(),
        ensures
            final(self).wf(),
            final(self)@ == (TableView { limit: max, ..old(self)@ }),
    {
        self.max_host_heap_usage = max;
        proof {
            self.lemma_same_contents(*old(self));
        }
    }

    /// Returns the current total host heap usage, in bytes, of all resources
    /// held in this table. A value whose borrow was let go of without being
    /// finished counts with what it uses now.
    pub fn current_host_heap_usage(&self) -> (bytes: usize)
        ensures
            exists|settled: TableView<U>| #[trigger]
                self@.settles_to(settled) && bytes == settled.usage,
    {
        let mut total: usize = self.current_host_heap_usage;
        let ghost mut settled = self@.with_borrowed(None);
        if self.open {
            if let Ok(e) = self.occupied(self.open_key) {
                if let Stored::Value(value) = &e.entry {
                    let after: usize = value.host_heap_usage();
                    let _ = update_total(&mut total, None, self.open_before, after);
                    proof {
                        settled = settled.with_usage(total);
                    }
                }
            }
        }
        assert(self@.settles_to(settled));
        total
    }

    /// Accounts for a borrow that was let go of without being finished, if there
    /// is one. Going over the limit is ignored.
    pub(crate) fn settle(&mut self)
        requires
            old(self).wf(),
        ensures
            final(self).wf(),
            old(self)@.settles_to(final(self)@),
            final(self)@.borrowed is None,
    {
        self.current_host_heap_usage = self.current_host_heap_usage();
        self.open = false;
        proof {
            self.lemma_same_contents(*old(self));
        }
    }

    /// A table is in order if another with the same slots and free list is.
    proof fn lemma_same_contents(&self, other: ResourceTable<U>)
        requires
            other.wf(),
            self.entries@ == other.entries@,
            self.free_list == other.free_list,
            self.free_head == other.free_head,
        ensures
            self.wf(),
    {
        assert(self@.slots == other@.slots);
        assert forall|p: u32, c: u32| #[trigger]
            self@.has_child(p, c) <==> self@.parent_of(c) == Some(p) by {
            assert(other@.has_child(p, c) <==> other@.parent_of(c) == Some(p));
        }
    }

    /// Records that `size` additional bytes of host heap are managed outside
    /// the table but count towards its limit. Refused if that would exceed the
    /// limit.
    pub fn retain_host_heap_usage(&mut self, size: usize) -> (r: Result<(), ResourceTableError>)
        requires
            old(self).wf(),
        ensures
            final(self).wf(),
            exists|settled: TableView<U>| #[trigger]
                old(self)@.settles_to(settled) && (final(self)@, r)
                    == settled.retain_outcome(size),
    {
        self.check_and_add_usage(size)
    }

    /// Undoes a previous call to `retain_host_heap_usage`, releasing `size`
    /// bytes from the tracked total. To release more than is tracked is a
    /// mistake of the caller.
    pub fn release_host_heap_usage(&mut self, size: usize)
        requires
            old(self).wf(),
            forall|settled: TableView<U>| #[trigger]
                old(self)@.settles_to(settled) ==> size <= settled.usage,
        ensures
            final(self).wf(),
            exists|settled: TableView<U>| #[trigger]
                old(self)@.settles_to(settled) && final(self)@
                    == settled.release_outcome(size),
    {
        self.settle();
        let ghost start = *self;
        self.current_host_heap_usage = self.current_host_heap_usage.saturating_sub(size);
        proof {
            self.lemma_same_contents(start);
        }
    }

    /// Checks whether adding `extra` bytes to the current usage would exceed
    /// the limit, and if not, adds them.
    pub fn check_and_add_usage(&mut self, extra: usize) -> (r: Result<(), ResourceTableError>)
        requires
            old(self).wf(),
        ensures
            final(self).wf(),
            exists|settled: TableView<U>| #[trigger]
                old(self)@.settles_to(settled) && (final(self)@, r)
                    == settled.retain_outcome(extra),
    {
        self.settle();
        let ghost start = *self;
        if let Some(max) = self.max_host_heap_usage {
            // A sum that is not representable is over any limit.
            match self.current_host_heap_usage.checked_add(extra) {
                Some(new_usage) => {
                    if new_usage > max {
                        return Err(ResourceTableError::HostMemoryLimitExceeded);
                    }
                },
                None => return Err(ResourceTableError::HostMemoryLimitExceeded),
            }
        }
        self.current_host_heap_usage = self.current_host_heap_usage.saturating_add(extra);
        proof {
            self.lemma_same_contents(start);
        }
        Ok(())
    }

    /// Adjusts the running total for a resource whose usage has changed from
    /// `old_usage` to `new_usage`.
    ///
    /// The total is updated in any case, so that it stays accurate. If it is
    /// then over the limit, the error is returned.
    pub fn update_usage(&mut self, old_usage: usize, new_usage: usize) -> (r: Result<
        (),
        ResourceTableError,
    >)
        requires
            old(self).wf(),
        ensures
            final(self).wf(),
            exists|settled: TableView<U>| #[trigger]
                old(self)@.settles_to(settled) && (final(self)@, r)
                    == settled.adjust_outcome(old_usage, new_usage),
    {
        self.settle();
        let ghost start = *self;
        let r = update_total(
            &mut self.current_host_heap_usage,
            self.max_host_heap_usage,
            old_usage,
            new_usage,
        );
        proof {
            self.lemma_same_contents(start);
        }
        r
    }

    /// Inserts a value that uses `usage` bytes, as a child of `parent` if one is
    /// named, and returns its index. A refusal leaves the table as it is.
    pub fn push_measured(&mut self, value: U, usage: usize, parent: Option<u32>) -> (r: Result<
        u32,
        ResourceTableError,
    >)
        requires
            old(self).wf(),
        ensures
            final(self).wf(),
            exists|settled: TableView<U>| #[trigger]
                old(self)@.settles_to(settled) && (final(self)@, r)
                    == settled.push_outcome(value, usage, parent),
    {
        self.settle();
        let ghost start = *self;
        let before: usize = self.current_host_heap_usage;
        self.check_and_add_usage(usage)?;
        let ghost counted = *self;
        if let Some(p) = parent {
            if let Err(e) = self.occupied(p) {
                // Roll back the usage that was added above.
                self.current_host_heap_usage = before;
                proof {
                    self.lemma_same_contents(counted);
                }
                return Err(e);
            }
        }
        proof {
            crate::component::table_view::lemma_push_keeps_inv(start@, value, usage, parent);
        }
        match self.push_(TableEntry::new(Stored::Value(value), parent)) {
            Ok(ix) => {
                if let Some(p) = parent {
                    assert(!start@.has_child(p, ix));
                    assert(self@.entry(p) == start@.entry(p));
                    match self.occupied_mut(p) {
                        Ok(e) => e.add_child(ix),
                        Err(e) => return Err(e),
                    }
                }
                assert(self@ =~= start@.push_outcome(value, usage, parent).0);
                Ok(ix)
            },
            Err(e) => {
                // Roll back the usage that was added above.
                self.current_host_heap_usage = before;
                assert(self@ =~= start@);
                Err(e)
            },
        }
    }

    /// Inserts a new value into this table and returns the handle by which it
    /// is referred to from now on.
    pub fn push<T: Erase<U>>(&mut self, entry: T) -> (r: Result<
        Resource<T>,
        ResourceTableError,
    >)
        requires
            old(self).wf(),
        ensures
            final(self).wf(),
            exists|settled: TableView<U>, usage: usize|
                #[trigger] old(self)@.settles_to(settled) && #[trigger] entry.reports(usage)
                    && pushed(
                    settled,
                    final(self)@,
                    entry.erased(),
                    usage,
                    None,
                    r,
                ),
    {
        let usage: usize = entry.host_heap_usage();
        match self.push_measured(entry.erase(), usage, None) {
            Ok(ix) => Ok(Resource::new_own(ix)),
            Err(e) => Err(e),
        }
    }

    /// Inserts a resource at the next available index, and tracks that it has a
    /// parent resource.
    ///
    /// The parent must exist to create a child. It cannot be deleted while it
    /// has children, so a child may refer to its parent by index.
    pub fn push_child<T: Erase<U>, P>(
        &mut self,
        entry: T,
        parent: &Resource<P>,
    ) -> (r: Result<Resource<T>, ResourceTableError>)
        requires
            old(self).wf(),
        ensures
            final(self).wf(),
            exists|settled: TableView<U>, usage: usize|
                #[trigger] old(self)@.settles_to(settled) && #[trigger] entry.reports(usage)
                    && pushed(
                    settled,
                    final(self)@,
                    entry.erased(),
                    usage,
                    Some(parent.index()),
                    r,
                ),
    {
        let usage: usize = entry.host_heap_usage();
        match self.push_measured(entry.erase(), usage, Some(parent.rep())) {
            Ok(ix) => Ok(Resource::new_own(ix)),
            Err(e) => Err(e),
        }
    }

    /// Adds an already resident child to a resource. The child must not have a
    /// parent yet.
    pub fn add_child<T, P>(&mut self, child: Resource<T>, parent: Resource<P>) -> (r: Result<
        (),
        ResourceTableError,
    >)
        requires
            old(self).wf(),
            old(self)@.parent_of(child.index()) is None,
        ensures
            final(self).wf(),
            (final(self)@, r) == old(self)@.add_child_outcome(child.index(), parent.index()),
    {
        proof {
            crate::component::table_view::lemma_add_child_keeps_inv(
                old(self)@,
                child.index(),
                parent.index(),
            );
        }
        if let Err(e) = self.occupied(parent.rep()) {
            return Err(e);
        }
        match self.occupied_mut(child.rep()) {
            Ok(entry) => {
                entry.parent = Some(parent.rep());
            },
            Err(e) => return Err(e),
        }
        match self.occupied_mut(parent.rep()) {
            Ok(entry) => entry.add_child(child.rep()),
            Err(e) => return Err(e),
        }
        Ok(())
    }

    /// Removes a child from a resource, but leaves it in the table. The child
    /// must be a child of `parent`.
    pub fn remove_child<T, P>(&mut self, child: Resource<T>, parent: Resource<P>) -> (r: Result<
        (),
        ResourceTableError,
    >)
        requires
            old(self).wf(),
            old(self)@.occupied(child.index()) ==> old(self)@.parent_of(child.index()) == Some(
                parent.index(),
            ),
        ensures
            final(self).wf(),
            (final(self)@, r) == old(self)@.remove_child_outcome(child.index(), parent.index()),
    {
        proof {
            crate::component::table_view::lemma_remove_child_keeps_inv(
                old(self)@,
                child.index(),
                parent.index(),
            );
        }
        match self.occupied_mut(child.rep()) {
            Ok(entry) => {
                entry.parent = None;
            },
            Err(e) => return Err(e),
        }
        match self.occupied_mut(parent.rep()) {
            Ok(entry) => entry.remove_child(child.rep()),
            Err(e) => return Err(e),
        }
        Ok(())
    }

    /// Gets an immutable reference to the resource of a given type at a given
    /// index.
    pub fn get<T: Erase<U>>(&self, key: &Resource<T>) -> (r: Result<&T, ResourceTableError>)
        ensures
            match r {
                Ok(t) => self@.get_outcome::<T>(key.index()) == Ok::<T, ResourceTableError>(*t),
                Err(e) => self@.get_outcome::<T>(key.index()) == Err::<T, ResourceTableError>(e),
            },
    {
        match self.get_(key.rep()) {
            Ok(stored) => match stored.downcast_ref() {
                Some(t) => Ok(t),
                None => Err(ResourceTableError::WrongType),
            },
            Err(e) => Err(e),
        }
    }

    /// What is stored at `key`.
    fn get_(&self, key: u32) -> (r: Result<&Stored<U>, ResourceTableError>)
        ensures
            match r {
                Ok(stored) => self@.occupied(key) && *stored == self@.entry(key).value,
                Err(e) => !self@.occupied(key) && e == ResourceTableError::NotPresent,
            },
    {
        match self.occupied(key) {
            Ok(e) => Ok(&e.entry),
            Err(e) => Err(e),
        }
    }

    /// Gets a mutable reference to the resource of a given type at a given
    /// index.
    ///
    /// For types of fixed footprint only: no change of the value then changes
    /// what it uses, so the tracked total needs no update.
    pub fn get_mut<T: Erase<U> + FixedHostHeapUsage>(&mut self, key: &Resource<T>) -> (r: Result<
        &mut T,
        ResourceTableError,
    >)
        requires
            old(self).wf(),
        ensures
            final(self).wf(),
            exists|settled: TableView<U>|
                {
                    &&& #[trigger] old(self)@.settles_to(settled)
                    &&& match r {
                        Ok(t) => {
                            &&& settled.get_outcome::<T>(key.index()) == Ok::<
                                T,
                                ResourceTableError,
                            >(*t)
                            &&& final(self)@ == settled.with_value(
                                key.index(),
                                Stored::Value((*final(t)).erased()),
                            )
                        },
                        Err(e) => {
                            &&& settled.get_outcome::<T>(key.index()) == Err::<
                                T,
                                ResourceTableError,
                            >(e)
                            &&& final(self)@ == settled
                        },
                    }
                },
    {
        match self.get_any_mut(key.rep()) {
            Ok(stored) => match stored.downcast_mut() {
                Some(t) => Ok(t),
                None => Err(ResourceTableError::WrongType),
            },
            Err(e) => Err(e),
        }
    }

    /// Returns what is stored at the `key` index, whatever its type.
    ///
    /// A change made through this reference is not tracked in the host heap
    /// usage. Prefer `get_mut`, `borrow_mut` or `update_resource`.
    pub fn get_any_mut(&mut self, key: u32) -> (r: Result<&mut Stored<U>, ResourceTableError>)
        requires
            old(self).wf(),
        ensures
            final(self).wf(),
            exists|settled: TableView<U>|
                {
                    &&& #[trigger] old(self)@.settles_to(settled)
                    &&& match r {
                        Ok(stored) => {
                            &&& settled.occupied(key)
                            &&& *stored == settled.entry(key).value
                            &&& final(self)@ == settled.with_value(key, *final(stored))
                        },
                        Err(e) => {
                            &&& !settled.occupied(key)
                            &&& e == ResourceTableError::NotPresent
                            &&& final(self)@ == settled
                        },
                    }
                },
    {
        self.settle();
        let ghost start = *self;
        proof {
            assert forall|e: EntryView<U>|
                start@.occupied(key) && e == (EntryView {
                    value: e.value,
                    ..start@.entry(key)
                }) implies (#[trigger] start@.with_entry(key, e)).inv() by {
                crate::component::table_view::lemma_with_value_keeps_inv(start@, key, e.value);
            }
        }
        match self.occupied_mut(key) {
            Ok(e) => Ok(&mut e.entry),
            Err(e) => Err(e),
        }
    }

    /// Removes the specified entry, which the handle owns, from the table. What
    /// is of another type stays.
    pub fn delete<T: Erase<U>>(&mut self, resource: Resource<T>) -> (r: Result<
        T,
        ResourceTableError,
    >)
        requires
            old(self).wf(),
            resource.is_owned(),
        ensures
            final(self).wf(),
            exists|settled: TableView<U>, usage: usize|
                #[trigger] old(self)@.settles_to(settled) && #[trigger] measured(r, usage) && (
                final(self)@, r) == settled.delete_outcome::<T>(
                    resource.index(),
                    DELETE_WITH_TOMBSTONE,
                    usage,
                ),
    {
        self.delete_maybe_debug(resource, DELETE_WITH_TOMBSTONE)
    }

    /// Removes the specified entry, which the handle owns, from the table. With
    /// `debug` its index is marked and never used again. What is of another type
    /// stays.
    pub fn delete_maybe_debug<T: Erase<U>>(
        &mut self,
        resource: Resource<T>,
        debug: bool,
    ) -> (r: Result<T, ResourceTableError>)
        requires
            old(self).wf(),
            resource.is_owned(),
        ensures
            final(self).wf(),
            exists|settled: TableView<U>, usage: usize|
                #[trigger] old(self)@.settles_to(settled) && #[trigger] measured(r, usage) && (
                final(self)@, r) == settled.delete_outcome::<T>(
                    resource.index(),
                    debug,
                    usage,
                ),
    {
        self.settle();
        if let Ok(e) = self.occupied(resource.rep()) {
            if e.children.is_empty() && e.entry.downcast_ref::<T>().is_none() {
                assert(measured(Err::<T, ResourceTableError>(ResourceTableError::WrongType), 0));
                return Err(ResourceTableError::WrongType);
            }
        }
        let entry = match self.delete_entry(resource.rep(), debug) {
            Ok(entry) => entry,
            Err(e) => {
                assert(measured(Err::<T, ResourceTableError>(e), 0));
                return Err(e);
            },
        };
        // Sample the usage from the value before consuming the entry.
        let usage: usize = match entry.entry.downcast_ref::<T>() {
            Some(t) => t.host_heap_usage(),
            None => vstd::pervasive::unreached(),
        };
        let _ = self.update_usage(usage, 0);
        match entry.entry.downcast::<T>() {
            Ok(t) => {
                assert(measured(Ok::<T, ResourceTableError>(t), usage));
                Ok(t)
            },
            Err(_) => vstd::pervasive::unreached(),
        }
    }

    /// Takes the entry at `key` out of the table, and off its parent's list of
    /// children. An entry that has children is not taken.
    pub fn delete_entry(&mut self, key: u32, debug: bool) -> (r: Result<
        TableEntry<U>,
        ResourceTableError,
    >)
        requires
            old(self).wf(),
        ensures
            final(self).wf(),
            exists|settled: TableView<U>|
                {
                    &&& #[trigger] old(self)@.settles_to(settled)
                    &&& final(self)@ == settled.take_outcome(key, debug).0
                    &&& match (r, settled.take_outcome(key, debug).1) {
                        (Ok(e), Ok(x)) => e@ == x,
                        (Err(e), Err(x)) => e == x,
                        _ => false,
                    }
                },
    {
        self.settle();
        let ghost start = *self;
        proof {
            crate::component::table_view::lemma_take_keeps_inv(start@, key, debug);
        }
        match self.occupied(key) {
            Ok(e) => {
                if !e.children.is_empty() {
                    return Err(ResourceTableError::HasChildren);
                }
            },
            Err(e) => return Err(e),
        }
        let e = self.free_entry(key as usize, debug);
        if let Some(parent) = e.parent {
            // The parent is still present because it cannot be deleted while it
            // has children.
            match self.occupied_mut(parent) {
                Ok(p) => p.remove_child(key),
                Err(_) => vstd::pervasive::unreached(),
            }
        }
        Ok(e)
    }

    /// Changes a resource in place and keeps the tracked host heap usage up to
    /// date.
    ///
    /// The closure may change the value freely and return anything. Afterwards
    /// the table's total is adjusted by what the value reports. If that exceeds
    /// the limit, the change is not rolled back, but the error is returned in
    /// place of the closure's result.
    #[verifier::spinoff_prover]
    pub fn update_resource<T: Erase<U>, F: FnOnce(&mut T) -> R, R>(
        &mut self,
        resource: &Resource<T>,
        updater: F,
    ) -> (r: Result<R, ResourceTableError>)
        requires
            old(self).wf(),
            forall|t: &mut T|
                old(self)@.get_outcome::<T>(resource.index()) == Ok::<T, ResourceTableError>(*t)
                    ==> #[trigger] updater.requires((t,)),
        ensures
            final(self).wf(),
            exists|settled: TableView<U>|
                {
                    &&& #[trigger] old(self)@.settles_to(settled)
                    &&& match settled.get_outcome::<T>(resource.index()) {
                        Err(e) => final(self)@ == settled && r == Err::<R, ResourceTableError>(e),
                        Ok(value) => exists|t: &mut T, result: R|
                            {
                                &&& *t == value
                                &&& #[trigger] updater.ensures((t,), result)
                                &&& exists|before: usize, after: usize| #[trigger]
                                    remeasured(value, *final(t), before, after) && updated(
                                        settled.with_value(
                                            resource.index(),
                                            Stored::Value((*final(t)).erased()),
                                        ),
                                        final(self)@,
                                        before,
                                        after,
                                        result,
                                        r,
                                    )
                            },
                    }
                },
    {
        let key: u32 = resource.rep();
        let old_usage: usize;
        let new_usage: usize;
        let result: R;
        match self.get_any_mut(key) {
            Ok(stored) => match stored.downcast_mut::<T>() {
                Some(t) => {
                    let ghost value = *t;
                    old_usage = t.host_heap_usage();
                    result = updater(t);
                    new_usage = t.host_heap_usage();
                    assert(remeasured(value, *t, old_usage, new_usage));
                },
                None => {
                    return Err(ResourceTableError::WrongType);
                },
            },
            Err(e) => {
                return Err(e);
            },
        }
        let ghost changed = self@;
        let ghost answer = result;
        let r = match self.update_usage(old_usage, new_usage) {
            Ok(()) => Ok(result),
            Err(e) => Err(e),
        };
        assert(updated(changed, self@, old_usage, new_usage, answer, r));
        r
    }

    /// Gets a tracked mutable borrow of a variable-size resource.
    ///
    /// When the change is complete, call [`ResourceBorrow::finish`] to update
    /// the table's total; it returns an error if that is now over the limit. If
    /// the borrow is let go of without it, the total is updated all the same, and
    /// going over the limit is ignored.
    ///
    /// For types of fixed footprint `get_mut` is simpler.
    pub fn borrow_mut<'a, T: Erase<U>>(&'a mut self, key: &Resource<T>) -> (r: Result<
        ResourceBorrow<'a, T>,
        ResourceTableError,
    >)
        requires
            old(self).wf(),
        ensures
            exists|settled: TableView<U>|
                {
                    &&& #[trigger] old(self)@.settles_to(settled)
                    &&& match r {
                        Ok(b) => {
                            &&& settled.get_outcome::<T>(key.index()) == Ok::<
                                T,
                                ResourceTableError,
                            >(*b.value)
                            &&& (*b.value).reports(b.usage_before)
                            &&& *b.total == settled.usage
                            &&& b.limit == settled.limit
                            &&& *b.open
                            &&& final(self)@ == settled.with_value(
                                key.index(),
                                Stored::Value((*final(b.value)).erased()),
                            ).with_usage(*final(b.total)).with_borrowed(
                                if *final(b.open) {
                                    Some((key.index(), b.usage_before))
                                } else {
                                    None
                                },
                            )
                        },
                        Err(e) => {
                            &&& settled.get_outcome::<T>(key.index()) == Err::<
                                T,
                                ResourceTableError,
                            >(e)
                            &&& final(self)@ == settled
                        },
                    }
                },
            final(self).wf(),
    {
        self.settle();
        let ghost start = self@;
        let usage_before: usize = match self.get(key) {
            Ok(value) => value.host_heap_usage(),
            Err(e) => return Err(e),
        };
        let limit = self.max_host_heap_usage;
        self.open_key = key.rep();
        self.open_before = usage_before;
        self.open = true;
        let ghost opened = start.with_borrowed(Some((key.index(), usage_before)));
        proof {
            assert(self@ =~= opened);
            assert forall|e: EntryView<U>, usage: usize, borrowed: Option<(u32, usize)>|
                e == (EntryView { value: e.value, ..start.entry(key.index()) }) implies (
            #[trigger] opened.with_entry(key.index(), e).with_usage(usage).with_borrowed(
                borrowed,
            )).inv() by {
                let changed = start.with_value(key.index(), e.value);
                crate::component::table_view::lemma_with_value_keeps_inv(
                    start,
                    key.index(),
                    e.value,
                );
                crate::component::table_view::lemma_same_slots_keep_inv(
                    changed,
                    opened.with_entry(key.index(), e).with_usage(usage).with_borrowed(borrowed),
                );
            }
        }
        match self.occupied_and_account(key.rep()) {
            Ok((entry, total, open)) => match entry.entry.downcast_mut::<T>() {
                Some(value) => Ok(ResourceBorrow { usage_before, limit, value, total, open }),
                None => vstd::pervasive::unreached(),
            },
            Err(_) => vstd::pervasive::unreached(),
        }
    }

    /// All slots, for a change of the values in them.
    fn slots(&mut self) -> (slots: &mut [Entry<U>])
        requires
            old(self).wf(),
        ensures
            slots@.len() == old(self)@.slots.len(),
            forall|k: int|
                0 <= k < slots@.len() ==> old(self)@.slots[k] == (#[trigger] slots@[k]).slot(),
            Self::values_changed(slots@, final(slots)@) ==> {
                &&& final(self).links_ok()
                &&& old(self)@.same_shape(final(self)@)
                &&& forall|k: int|
                    0 <= k < slots@.len() ==> #[trigger] final(self)@.slots[k] == final(
                        slots)@[k].slot()
            },
    {
        self.entries.as_mut_slice()
    }

    /// The slots `after` differ from those before in nothing but the values that
    /// the entries hold.
    spec fn values_changed(before: Seq<Entry<U>>, after: Seq<Entry<U>>) -> bool {
        &&& after.len() == before.len()
        &&& forall|k: int|
            #![trigger before[k]]
            #![trigger after[k]]
            0 <= k < before.len() ==> match (before[k], after[k]) {
                (Entry::Occupied { entry: e }, Entry::Occupied { entry: f }) => {
                    f.parent == e.parent && f.children == e.children
                },
                (Entry::Free { .. }, f) => f == before[k],
                _ => false,
            }
    }

    /// What is stored at each key of the map, to be changed, together with the
    /// map's value for that key, in the order of the keys. As the keys are
    /// unique, the references are to different entries.
    pub fn iter_entries<'a, T>(&'a mut self, map: BTreeMap<u32, T>) -> (r: Vec<
        (Result<&'a mut Stored<U>, ResourceTableError>, T),
    >)
        requires
            old(self).wf(),
        ensures
            exists|settled: TableView<U>|
                {
                    &&& #[trigger] old(self)@.settles_to(settled)
                    &&& exists|order: Seq<u32>| #[trigger]
                        crate::component::ordered::lists(order, map@.dom()) && r@.len()
                            == order.len() && (forall|i: int|
                            0 <= i < r@.len() ==> (#[trigger] r@[i]).1 == map@[order[i]]
                                && match r@[i].0 {
                                Ok(stored) => {
                                    &&& settled.occupied(order[i])
                                    &&& settled.entry(order[i]).value == *stored
                                    &&& final(self)@.entry(order[i]).value == *final(stored)
                                },
                                Err(e) => !settled.occupied(order[i]) && e
                                    == ResourceTableError::NotPresent,
                            })
                    &&& settled.same_shape(final(self)@)
                    &&& forall|k: u32| #[trigger]
                        settled.occupied(k) && !map@.contains_key(k) ==> final(self)@.entry(k)
                            == settled.entry(k)
                },
            final(self).wf(),
    {
        self.settle();
        let ghost start = *self;
        let keys = crate::component::ordered::keys(&map);
        proof {
            assert forall|t: TableView<U>| #[trigger] start@.same_shape(t) implies t.inv() by {
                crate::component::table_view::lemma_same_shape_keeps_inv(start@, t);
            }
        }
        let slots = self.slots();
        stored_at(slots, &keys, map)
    }

    /// What is stored in the entries of this table, to be changed, in the order
    /// of their indices.
    pub fn iter_mut(&mut self) -> (r: Vec<&mut Stored<U>>)
        requires
            old(self).wf(),
        ensures
            exists|settled: TableView<U>|
                {
                    &&& #[trigger] old(self)@.settles_to(settled)
                    &&& exists|order: Seq<u32>| #[trigger]
                        crate::component::ordered::lists(order, settled.keys()) && r@.len()
                            == order.len() && (forall|i: int|
                            0 <= i < r@.len() ==> *(#[trigger] r@[i]) == settled.entry(
                                order[i],
                            ).value
                                && *final(r@[i]) == final(self)@.entry(order[i]).value)
                    &&& settled.same_shape(final(self)@)
                },
            final(self).wf(),
    {
        self.settle();
        let ghost start = *self;
        proof {
            assert forall|t: TableView<U>| #[trigger] start@.same_shape(t) implies t.inv() by {
                crate::component::table_view::lemma_same_shape_keeps_inv(start@, t);
            }
        }
        let slots = self.slots();
        assert forall|order: Seq<u32>| #[trigger] lists_occupied(order, slots@) implies
            crate::component::ordered::lists(order, start@.keys()) by {
            assert forall|k: u32| #[trigger]
                start@.keys().contains(k) <==> order.contains(k) by {
                if start@.keys().contains(k) {
                    assert(slots@[k as int] is Occupied);
                }
            }
        }
        all_stored(slots)
    }

    /// The indices at which this table holds a value, as a text for debugging.
    pub fn fmt(&self) -> (text: String)
        ensures
            text@ == crate::component::debug::debug_text(self@),
    {
        proof {
            reveal_strlit("[");
            reveal_strlit(", ");
            reveal_strlit("]");
        }
        let mut text = String::new();
        text.append("[");
        assert(text@ =~= seq!['['] + crate::component::debug::listing(seq![]));
        let mut wrote = false;
        for index in 0..self.entries.len()
            invariant
                ", "@ == seq![',', ' '],
                text@ == seq!['['] + crate::component::debug::listing(
                    crate::component::debug::shown(self@, index as nat),
                ),
                wrote == (crate::component::debug::shown(self@, index as nat).len() > 0),
        {
            let ghost shown = crate::component::debug::shown(self@, index as nat);
            if let Some(e) = self.entries[index].occupied() {
                if !e.entry.is_tombstone() {
                    if wrote {
                        text.append(", ");
                    } else {
                        wrote = true;
                    }
                    crate::component::debug::append_decimal(&mut text, index);
                    proof {
                        assert(shown.push(index as nat).drop_last() =~= shown);
                        assert(text@ =~= seq!['['] + crate::component::debug::listing(
                            shown.push(index as nat),
                        ));
                    }
                }
            }
        }
        text.append("]");
        text
    }

    /// What is stored in the children of the given parent, in the order of
    /// their indices.
    pub fn iter_children<T>(&self, parent: &Resource<T>) -> (r: Result<
        Vec<&Stored<U>>,
        ResourceTableError,
    >)
        requires
            self.wf(),
        ensures
            match r {
                Ok(items) => {
                    &&& self@.occupied(parent.index())
                    &&& exists|order: Seq<u32>| #[trigger]
                        crate::component::ordered::lists(
                            order,
                            self@.entry(parent.index()).children,
                        ) && items@.len() == order.len() && forall|i: int|
                            0 <= i < order.len() ==> *(#[trigger] items@[i]) == self@.entry(
                                order[i],
                            ).value
                },
                Err(e) => !self@.occupied(parent.index()) && e == ResourceTableError::NotPresent,
            },
    {
        let entry = self.occupied(parent.rep())?;
        let mut items: Vec<&Stored<U>> = Vec::new();
        let order = crate::component::ordered::members(&entry.children);
        for i in 0..order.len()
            invariant
                self.wf(),
                self@.occupied(parent.index()),
                crate::component::ordered::lists(
                    order@,
                    self@.entry(parent.index()).children,
                ),
                items@.len() == i,
                forall|j: int|
                    0 <= j < items@.len() ==> *(#[trigger] items@[j]) == self@.entry(
                        order@[j],
                    ).value,
        {
            assert(self@.has_child(parent.index(), order@[i as int]));
            match self.occupied(order[i]) {
                Ok(e) => items.push(&e.entry),
                Err(_) => vstd::pervasive::unreached(),
            }
        }
        Ok(items)
    }
}

/// For each of the ascending `keys`, what is stored in that slot, to be changed,
/// with the value that the map has for the key.
fn stored_at<'a, U: HostHeapUsage, T>(
    slots: &'a mut [Entry<U>],
    keys: &Vec<u32>,
    map: BTreeMap<u32, T>,
) -> (r: Vec<(Result<&'a mut Stored<U>, ResourceTableError>, T)>)
    requires
        crate::component::ordered::lists(keys@, map@.dom()),
    ensures
        r@.len() == keys@.len(),
        final(slots)@.len() == old(slots)@.len(),
        forall|i: int|
            0 <= i < r@.len() ==> (#[trigger] r@[i]).1 == map@[keys@[i]] && match r@[i].0 {
                Ok(stored) => {
                    &&& keys@[i] < old(slots)@.len()
                    &&& old(slots)@[keys@[i] as int] matches Entry::Occupied { entry }
                    &&& entry.entry == *stored
                    &&& final(slots)@[keys@[i] as int] == (Entry::Occupied {
                        entry: TableEntry { entry: *final(stored), ..entry },
                    })
                },
                Err(e) => {
                    &&& e == ResourceTableError::NotPresent
                    &&& keys@[i] < old(slots)@.len() ==> old(slots)@[keys@[i] as int] is Free
                        && final(slots)@[keys@[i] as int] == old(slots)@[keys@[i] as int]
                },
            },
        forall|k: int|
            0 <= k < old(slots)@.len() && (forall|j: int|
                0 <= j < keys@.len() ==> #[trigger] keys@[j] != k) ==> #[trigger] final(slots)@[k]
                == old(slots)@[k],
        ResourceTable::<U>::values_changed(old(slots)@, final(slots)@),
{
    let n: usize = slots.len();
    let ghost before = slots@;
    let mut r: Vec<(Result<&'a mut Stored<U>, ResourceTableError>, T)> = Vec::new();
    let mut values = map;
    let mut rest: &'a mut [Entry<U>] = slots;
    let mut base: usize = 0;
    for i in 0..keys.len()
        invariant
            base <= n,
            n == before.len(),
            before == old(slots)@,
            crate::component::ordered::lists(keys@, map@.dom()),
            forall|j: int|
                i <= j < keys@.len() ==> values@.contains_key(#[trigger] keys@[j])
                    && values@[keys@[j]] == map@[keys@[j]],
            forall|j: int| i <= j < keys@.len() ==> base <= #[trigger] keys@[j],
            rest@ == before.subrange(base as int, n as int),
            final(old(slots))@.len() == base + final(rest)@.len(),
            final(old(slots))@.skip(base as int) == final(rest)@,
            r@.len() == i,
            forall|j: int| 0 <= j < r@.len() ==> #[trigger] keys@[j] < base || n <= keys@[j],
            forall|j: int|
                0 <= j < r@.len() ==> (#[trigger] r@[j]).1 == map@[keys@[j]] && match r@[j].0 {
                    Ok(stored) => {
                        &&& keys@[j] < base
                        &&& before[keys@[j] as int] matches Entry::Occupied { entry }
                        &&& entry.entry == *stored
                        &&& final(old(slots))@[keys@[j] as int] == (Entry::Occupied {
                            entry: TableEntry { entry: *final(stored), ..entry },
                        })
                    },
                    Err(e) => {
                        &&& e == ResourceTableError::NotPresent
                        &&& keys@[j] < n ==> {
                            let index = keys@[j] as int;
                            before[index] is Free && final(old(slots))@[index] == before[index]
                        }
                    },
                },
            forall|k: int|
                0 <= k < base && (forall|j: int|
                    0 <= j < keys@.len() ==> #[trigger] keys@[j] != k) ==> #[trigger] final(
                    old(slots))@[k] == before[k],
    {
        let k: usize = keys[i] as usize;
        let value = match values.remove(&keys[i]) {
            Some(value) => value,
            None => vstd::pervasive::unreached(),
        };
        let whole = rest;
        if k < n {
            let ghost start = base as int;
            assert(base <= keys@[i as int]);
            let (left, right) = whole.split_at_mut(k - base + 1);
            rest = right;
            base = k + 1;
            match left.last_mut() {
                Some(slot) => match slot.occupied_mut() {
                    Some(entry) => r.push((Ok(&mut entry.entry), value)),
                    None => r.push((Err(ResourceTableError::NotPresent), value)),
                },
                None => vstd::pervasive::unreached(),
            }
            assert(final(old(slots))@.skip(base as int) =~= final(old(slots))@.skip(start).skip(
                base - start,
            ));
            assert(final(old(slots))@.skip(base as int) =~= final(rest)@);
            assert forall|m: int| start <= m < base implies #[trigger] final(old(slots))@[m]
                == final(old(slots))@.skip(start)[m - start] by {}
        } else {
            rest = whole;
            r.push((Err(ResourceTableError::NotPresent), value));
        }
    }
    assert forall|m: int| base <= m < n implies #[trigger] final(old(slots))@[m] == final(
        old(slots))@.skip(base as int)[m - base] by {}
    assert forall|k: int|
        #![trigger before[k]]
        #![trigger final(old(slots))@[k]]
        0 <= k < n implies match (before[k], final(old(slots))@[k]) {
        (Entry::Occupied { entry: e }, Entry::Occupied { entry: f }) => {
            f.parent == e.parent && f.children == e.children
        },
        (Entry::Free { .. }, f) => f == before[k],
        _ => false,
    } by {
        if exists|j: int| 0 <= j < keys@.len() && #[trigger] keys@[j] == k {
            let j = choose|j: int| 0 <= j < keys@.len() && #[trigger] keys@[j] == k;
            let given = r@[j];
        }
    }
    r
}

impl<U: HostHeapUsage> Default for ResourceTable<U> {
    fn default() -> (table: ResourceTable<U>)
        ensures
            table.wf(),
            table@ == TableView::<U>::empty(DEFAULT_MAX_CAPACITY),
    {
        ResourceTable::new()
    }
}

/// `order` lists the slots that hold an entry.
spec fn lists_occupied<U>(order: Seq<u32>, slots: Seq<Entry<U>>) -> bool {
    &&& forall|i: int, j: int| 0 <= i < j < order.len() ==> order[i] < order[j]
    &&& forall|i: int|
        0 <= i < order.len() ==> #[trigger] order[i] < slots.len()
            && slots[order[i] as int] is Occupied
    &&& forall|k: int|
        0 <= k < slots.len() && (#[trigger] slots[k]) is Occupied ==> order.contains(k as u32)
}

/// What is stored in the slots, to be changed.
fn all_stored<'a, U: HostHeapUsage>(slots: &'a mut [Entry<U>]) -> (r: Vec<&'a mut Stored<U>>)
    requires
        old(slots)@.len() <= 0x1_0000_0000,
    ensures
        ResourceTable::<U>::values_changed(old(slots)@, final(slots)@),
        exists|order: Seq<u32>| #[trigger]
            lists_occupied(order, old(slots)@) && r@.len() == order.len() && (forall|i: int|
                0 <= i < r@.len() ==> *(#[trigger] r@[i]) == old(
                    slots)@[order[i] as int]->entry.entry && *final(r@[i]) == final(
                    slots)@[order[i] as int]->entry.entry),
{
    let n: usize = slots.len();
    let ghost before = slots@;
    let ghost mut order: Seq<u32> = Seq::empty();
    let mut r: Vec<&'a mut Stored<U>> = Vec::new();
    let mut rest: &'a mut [Entry<U>] = slots;
    for base in 0..n
        invariant
            n == before.len(),
            n <= 0x1_0000_0000,
            before == old(slots)@,
            rest@ == before.subrange(base as int, n as int),
            final(old(slots))@.len() == base + final(rest)@.len(),
            final(old(slots))@.skip(base as int) == final(rest)@,
            ResourceTable::<U>::values_changed(
                before.take(base as int),
                final(old(slots))@.take(base as int),
            ),
            lists_occupied(order, before.take(base as int)),
            r@.len() == order.len(),
            forall|i: int|
                0 <= i < r@.len() ==> *(#[trigger] r@[i]) == before[order[i] as int]->entry.entry
                    && *final(r@[i]) == final(old(slots))@[order[i] as int]->entry.entry,
    {
        let ghost listed = order;
        let whole = rest;
        let (left, right) = whole.split_at_mut(1);
        rest = right;
        match left.first_mut() {
            Some(slot) => match slot.occupied_mut() {
                Some(entry) => {
                    r.push(&mut entry.entry);
                    proof {
                        order = order.push(base as u32);
                    }
                },
                None => {},
            },
            None => vstd::pervasive::unreached(),
        }
        assert(final(old(slots))@.skip(base + 1) =~= final(old(slots))@.skip(base as int).skip(1));
        assert(final(old(slots))@.skip(base + 1) =~= final(rest)@);
        assert(final(old(slots))@[base as int] == final(old(slots))@.skip(base as int)[0]);
        assert(lists_occupied(order, before.take(base + 1))) by {
            let next = before.take(base + 1);
            assert forall|k: int| 0 <= k < next.len() && (#[trigger] next[k]) is Occupied implies
                order.contains(k as u32) by {
                if k < base {
                    assert(before.take(base as int)[k] is Occupied);
                    let i = choose|i: int| 0 <= i < listed.len() && listed[i] == k as u32;
                    assert(order[i] == k as u32);
                } else {
                    assert(order.last() == k as u32);
                }
            }
        }
    }
    assert(before.take(n as int) =~= before);
    assert(final(old(slots))@.take(n as int) =~= final(old(slots))@);
    r
}

/// A mutable borrow of a variable-size resource of a [`ResourceTable`].
///
/// Returned by [`ResourceTable::borrow_mut`]. When the change of the value is
/// complete, [`finish`](Self::finish) updates the table's running total. After a
/// borrow that is let go of without it, the table measures the value again by
/// itself, and ignores that the total may be over the limit.
pub struct ResourceBorrow<'a, T: HostHeapUsage> {
    /// The usage at the time the borrow was created.
    pub usage_before: usize,
    /// The most that the table's total may become, if there is a limit.
    pub limit: Option<usize>,
    /// The value in the table entry.
    pub value: &'a mut T,
    /// The table's running total.
    pub total: &'a mut usize,
    /// Whether the value is still to be measured again.
    pub open: &'a mut bool,
}

impl<'a, T: HostHeapUsage> ResourceBorrow<'a, T> {
    /// Completes the mutable borrow: measures the value again and updates the
    /// table's total.
    ///
    /// Returns an error if the total is now over the limit; it is updated all
    /// the same.
    pub fn finish(self) -> (r: Result<(), ResourceTableError>)
        ensures
            *final(self.value) == *old(self.value),
            !*final(self.open),
            exists|after: usize| #[trigger]
                (*old(self.value)).reports(after) && *final(self.total)
                    == crate::component::table_view::moved_total(
                    *old(self.total),
                    self.usage_before,
                    after,
                ) && r == (if self.limit is Some && crate::component::table_view::moved(
                    *old(self.total),
                    self.usage_before,
                    after,
                ) > self.limit->0 {
                    Err(ResourceTableError::HostMemoryLimitExceeded)
                } else {
                    Ok(())
                }),
    {
        let new_usage: usize = self.value.host_heap_usage();
        *self.open = false;
        update_total(self.total, self.limit, self.usage_before, new_usage)
    }

    /// The borrowed value.
    pub fn deref(&self) -> (value: &T)
        ensures
            *value == *old(self.value),
    {
        self.value
    }

    /// The borrowed value, to be changed.
    pub fn deref_mut(&mut self) -> (value: &mut T)
        ensures
            *value == *old(self).value,
            final(self).usage_before == old(self).usage_before,
            final(self).limit == old(self).limit,
            final(self).total == old(self).total,
            final(self).open == old(self).open,
            *final(self).value == *final(value),
            *final(final(self).value) == *final(old(self).value),
    {
        self.value
    }
}

/// A value that reported `before` became one that reports `after`.
pub open spec fn remeasured<T: HostHeapUsage>(
    value: T,
    changed: T,
    before: usize,
    after: usize,
) -> bool {
    value.reports(before) && changed.reports(after)
}

/// `r` is the answer, and `adjusted` the table, once a change was made in
/// `changed`: the total follows the value's usage from `before` to `after`, and
/// the answer is the `result` of the change unless that is over the limit.
pub open spec fn updated<U, R>(
    changed: TableView<U>,
    adjusted: TableView<U>,
    before: usize,
    after: usize,
    result: R,
    r: Result<R, ResourceTableError>,
) -> bool {
    let outcome = changed.adjust_outcome(before, after);
    &&& adjusted == outcome.0
    &&& match outcome.1 {
        Ok(()) => r == Ok::<R, ResourceTableError>(result),
        Err(e) => r == Err::<R, ResourceTableError>(e),
    }
}

/// `usage` is what the value reports that was handed out, if one was.
pub open spec fn measured<T: HostHeapUsage>(
    r: Result<T, ResourceTableError>,
    usage: usize,
) -> bool {
    r matches Ok(t) ==> t.reports(usage)
}

/// `r` is the answer to, and `after` the table after, inserting into `before` a
/// value that uses `usage` bytes, as a child of `parent` if one is named.
pub open spec fn pushed<U, T>(
    before: TableView<U>,
    after: TableView<U>,
    value: U,
    usage: usize,
    parent: Option<u32>,
    r: Result<Resource<T>, ResourceTableError>,
) -> bool {
    let outcome = before.push_outcome(value, usage, parent);
    &&& after == outcome.0
    &&& match (r, outcome.1) {
        (Ok(resource), Ok(ix)) => resource.index() == ix && resource.is_owned(),
        (Err(e), Err(x)) => e == x,
        _ => false,
    }
}

/// Adjusts a running total, which should not exceed `limit`, for a resource
/// whose usage has changed from `old_usage` to `new_usage`.
fn update_total(total: &mut usize, limit: Option<usize>, old_usage: usize, new_usage: usize) -> (r:
    Result<(), ResourceTableError>)
    ensures
        *final(total) == crate::component::table_view::moved_total(
            *old(total),
            old_usage,
            new_usage,
        ),
        r == (if limit is Some && crate::component::table_view::moved(
            *old(total),
            old_usage,
            new_usage,
        ) > limit->0 {
            Err(ResourceTableError::HostMemoryLimitExceeded)
        } else {
            Ok(())
        }),
{
    if new_usage >= old_usage {
        let delta: usize = new_usage - old_usage;
        match total.checked_add(delta) {
            Some(projected) => {
                *total = projected;
            },
            None => {
                // What is not representable is over any limit.
                *total = usize::MAX;
                if limit.is_some() {
                    return Err(ResourceTableError::HostMemoryLimitExceeded);
                }
            },
        }
    } else {
        let delta: usize = old_usage - new_usage;
        *total = total.saturating_sub(delta);
    }
    match limit {
        Some(max) if *total > max => Err(ResourceTableError::HostMemoryLimitExceeded),
        _ => Ok(()),
    }
}

} // verus!
