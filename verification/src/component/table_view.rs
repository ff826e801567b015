//! The mathematical model of a resource table: what it holds, and what each
//! operation makes of it.

use crate::component::erase::{Erase, Stored};
use crate::component::error::ResourceTableError;
use crate::component::resources::HostHeapUsage;
use vstd::prelude::*;

verus! {

/// Addition that stops at the largest representable number.
pub open spec fn sat_add(a: usize, b: usize) -> usize {
    if a + b > usize::MAX {
        usize::MAX
    } else {
        (a + b) as usize
    }
}

/// Subtraction that stops at zero.
pub open spec fn sat_sub(a: usize, b: usize) -> usize {
    if a < b {
        0
    } else {
        (a - b) as usize
    }
}

/// What a running total comes to once one of its parts went from `before` to
/// `after`, be it representable or not.
pub open spec fn moved(total: usize, before: usize, after: usize) -> int {
    if after >= before {
        total + (after - before)
    } else {
        sat_sub(total, (before - after) as usize) as int
    }
}

/// A running total once one of its parts went from `before` to `after`.
pub open spec fn moved_total(total: usize, before: usize, after: usize) -> usize {
    crate::component::resources::reported(moved(total, before, after))
}

/// One entry: what it holds, its parent and its children, by table index.
#[verifier::ext_equal]
pub struct EntryView<U> {
    pub value: Stored<U>,
    pub parent: Option<u32>,
    pub children: Set<u32>,
}

impl<U> EntryView<U> {
    /// An entry that was just created: it has no children yet.
    pub open spec fn fresh(value: Stored<U>, parent: Option<u32>) -> Self {
        EntryView { value, parent, children: Set::empty() }
    }
}

/// The contents of a table.
///
/// `slots` gives for each index the entry there, if there is one. `free` lists
/// the indices without an entry; the first of them is the next to be used.
/// `usage` is the tracked host heap usage and `limit` the most it may become.
/// `borrowed` is the index of a value that was borrowed to be changed and has not
/// been measured again, with what it used before.
#[verifier::ext_equal]
pub struct TableView<U> {
    pub slots: Seq<Option<EntryView<U>>>,
    pub free: Seq<int>,
    pub max_capacity: usize,
    pub usage: usize,
    pub limit: Option<usize>,
    pub borrowed: Option<(u32, usize)>,
}

impl<U> TableView<U> {
    /// Whether there is an entry at `key`.
    pub open spec fn occupied(self, key: u32) -> bool {
        key < self.slots.len() && self.slots[key as int] is Some
    }

    /// The indices of all entries.
    pub open spec fn keys(self) -> Set<u32> {
        Set::new(|key: u32| self.occupied(key))
    }

    /// The entry at `key`.
    pub open spec fn entry(self, key: u32) -> EntryView<U>
        recommends
            self.occupied(key),
    {
        self.slots[key as int]->0
    }

    /// Whether `child` is listed among the children of `parent`.
    pub open spec fn has_child(self, parent: u32, child: u32) -> bool {
        self.occupied(parent) && self.entry(parent).children.contains(child)
    }

    /// The parent that the entry at `key` names, if there is an entry and it
    /// names one.
    pub open spec fn parent_of(self, key: u32) -> Option<u32> {
        if self.occupied(key) {
            self.entry(key).parent
        } else {
            None
        }
    }

    /// The free list names each index without an entry, once.
    pub open spec fn free_inv(self) -> bool {
        &&& self.free.no_duplicates()
        &&& forall|i: int|
            0 <= i < self.free.len() ==> 0 <= #[trigger] self.free[i] < self.slots.len()
                && self.slots[self.free[i]] is None
        &&& forall|k: int|
            0 <= k < self.slots.len() && (#[trigger] self.slots[k]) is None
                ==> self.free.contains(k)
    }

    /// Parents and children agree: an entry lists as its children exactly the
    /// entries that name it as their parent. In particular a parent and a child
    /// that is named both exist.
    pub open spec fn family_inv(self) -> bool {
        forall|p: u32, c: u32|
            #[trigger] self.has_child(p, c) <==> self.parent_of(c) == Some(p)
    }

    /// What holds of every table: indices fit the handles, and the free list
    /// and the families are in order.
    pub open spec fn inv(self) -> bool {
        &&& self.slots.len() <= 0x1_0000_0000
        &&& self.free_inv()
        &&& self.family_inv()
    }

    /// The table before anything is done with it.
    pub open spec fn empty(max_capacity: usize) -> Self {
        TableView {
            slots: Seq::empty(),
            free: Seq::empty(),
            max_capacity,
            usage: 0,
            limit: None,
            borrowed: None,
        }
    }

    /// No entry holds a value: each index is free, or marked as deleted.
    pub open spec fn holds_nothing(self) -> bool {
        forall|k: int|
            0 <= k < self.slots.len() ==> (#[trigger] self.slots[k] matches Some(e)
                ==> e.value is Tombstone)
    }

    /// The index that the next entry gets: the first of the free list, or else
    /// the end of the table, as long as that is within the capacity and within
    /// what a handle can hold.
    pub open spec fn next_slot(self) -> Option<u32> {
        if self.free.len() > 0 {
            Some(self.free[0] as u32)
        } else if self.slots.len() < self.max_capacity && self.slots.len() <= u32::MAX {
            Some(self.slots.len() as u32)
        } else {
            None
        }
    }

    /// The first of the free list.
    pub open spec fn head(self) -> Option<int> {
        if self.free.len() > 0 {
            Some(self.free[0])
        } else {
            None
        }
    }

    /// Taking the first index off the free list.
    pub open spec fn pop_outcome(self) -> (Self, Option<int>) {
        if self.free.len() > 0 {
            (TableView { free: self.free.drop_first(), ..self }, self.head())
        } else {
            (self, None)
        }
    }

    /// The indices that come off the free list until it is empty.
    pub open spec fn pops(self) -> Seq<int>
        decreases self.free.len(),
    {
        match self.pop_outcome() {
            (_, None) => seq![],
            (rest, Some(ix)) => seq![ix] + rest.pops(),
        }
    }

    /// The table with `e` at the index that is next.
    pub open spec fn placed(self, e: EntryView<U>) -> Self {
        if self.free.len() > 0 {
            TableView {
                slots: self.slots.update(self.free[0], Some(e)),
                free: self.free.drop_first(),
                ..self
            }
        } else {
            TableView { slots: self.slots.push(Some(e)), ..self }
        }
    }

    /// The table with `e` for what was at `key`.
    pub open spec fn with_entry(self, key: u32, e: EntryView<U>) -> Self {
        TableView { slots: self.slots.update(key as int, Some(e)), ..self }
    }

    /// The table with `value` for the value that was at `key`.
    pub open spec fn with_value(self, key: u32, value: Stored<U>) -> Self {
        self.with_entry(key, EntryView { value, ..self.entry(key) })
    }

    /// The table with `parent` as what the entry at `key` names as its parent.
    pub open spec fn with_parent(self, key: u32, parent: Option<u32>) -> Self {
        self.with_entry(key, EntryView { parent, ..self.entry(key) })
    }

    /// The table with `child` added to the children of `parent`, if a parent is
    /// named.
    pub open spec fn child_added(self, parent: Option<u32>, child: u32) -> Self {
        match parent {
            Some(p) => self.with_entry(
                p,
                EntryView { children: self.entry(p).children.insert(child), ..self.entry(p) },
            ),
            None => self,
        }
    }

    /// The table with `child` removed from the children of `parent`, if a
    /// parent is named.
    pub open spec fn child_removed(self, parent: Option<u32>, child: u32) -> Self {
        match parent {
            Some(p) => self.with_entry(
                p,
                EntryView { children: self.entry(p).children.remove(child), ..self.entry(p) },
            ),
            None => self,
        }
    }

    /// The table without the entry at `key`. The index becomes the first of the
    /// free list, or, with `debug`, is marked and never used again.
    pub open spec fn freed(self, key: u32, debug: bool) -> Self {
        if debug {
            self.with_entry(key, EntryView::fresh(Stored::Tombstone, None))
        } else {
            TableView {
                slots: self.slots.update(key as int, None),
                free: seq![key as int] + self.free,
                ..self
            }
        }
    }

    /// `other` differs from this table in nothing but the values that its
    /// entries hold.
    pub open spec fn same_shape(self, other: Self) -> bool {
        &&& other.slots.len() == self.slots.len()
        &&& forall|k: int|
            #![trigger self.slots[k]]
            #![trigger other.slots[k]]
            0 <= k < self.slots.len() ==> match (self.slots[k], other.slots[k]) {
                (Some(e), Some(f)) => f.parent == e.parent && f.children == e.children,
                (None, None) => true,
                _ => false,
            }
        &&& other == (TableView { slots: other.slots, ..self })
    }

    /// The table with another tracked usage.
    pub open spec fn with_usage(self, usage: usize) -> Self {
        TableView { usage, ..self }
    }

    /// The table with another borrow that is not settled, or with none.
    pub open spec fn with_borrowed(self, borrowed: Option<(u32, usize)>) -> Self {
        TableView { borrowed, ..self }
    }

    /// Whether `extra` more bytes would be more than the limit allows.
    pub open spec fn over_limit(self, extra: usize) -> bool {
        self.limit matches Some(max) && self.usage + extra > max
    }

    /// Adding `extra` bytes to the tracked usage: refused, without a change, if
    /// that is over the limit.
    pub open spec fn retain_outcome(self, extra: usize) -> (Self, Result<
        (),
        ResourceTableError,
    >) {
        if self.over_limit(extra) {
            (self, Err(ResourceTableError::HostMemoryLimitExceeded))
        } else {
            (self.with_usage(sat_add(self.usage, extra)), Ok(()))
        }
    }

    /// Taking `size` bytes, which are no more than are tracked, from the tracked
    /// usage.
    pub open spec fn release_outcome(self, size: usize) -> Self
        recommends
            size <= self.usage,
    {
        self.with_usage(sat_sub(self.usage, size))
    }

    /// The tracked usage once a value's own usage went from `before` to `after`.
    pub open spec fn adjusted_usage(self, before: usize, after: usize) -> usize {
        moved_total(self.usage, before, after)
    }

    /// A value's own usage went from `before` to `after`. The tracked usage
    /// follows in any case; if it is then over the limit, that is reported.
    pub open spec fn adjust_outcome(self, before: usize, after: usize) -> (Self, Result<
        (),
        ResourceTableError,
    >) {
        (
            self.with_usage(self.adjusted_usage(before, after)),
            if self.limit matches Some(max) && moved(self.usage, before, after) > max {
                Err(ResourceTableError::HostMemoryLimitExceeded)
            } else {
                Ok(())
            },
        )
    }

    /// Inserting `value`, which uses `usage` bytes, as a child of `parent` if
    /// one is named. A refusal leaves the table as it is.
    pub open spec fn push_outcome(
        self,
        value: U,
        usage: usize,
        parent: Option<u32>,
    ) -> (Self, Result<u32, ResourceTableError>) {
        if self.over_limit(usage) {
            (self, Err(ResourceTableError::HostMemoryLimitExceeded))
        } else if parent matches Some(p) && !self.occupied(p) {
            (self, Err(ResourceTableError::NotPresent))
        } else {
            match self.next_slot() {
                None => (self, Err(ResourceTableError::Full)),
                Some(ix) => (
                    self.placed(EntryView::fresh(Stored::Value(value), parent)).child_added(
                        parent,
                        ix,
                    ).with_usage(sat_add(self.usage, usage)),
                    Ok(ix),
                ),
            }
        }
    }

    /// Making the entry at `child` a child of the one at `parent`.
    pub open spec fn add_child_outcome(self, child: u32, parent: u32) -> (Self, Result<
        (),
        ResourceTableError,
    >) {
        if !self.occupied(child) || !self.occupied(parent) {
            (self, Err(ResourceTableError::NotPresent))
        } else {
            (self.with_parent(child, Some(parent)).child_added(Some(parent), child), Ok(()))
        }
    }

    /// Parting the entry at `child` from its parent.
    pub open spec fn remove_child_outcome(self, child: u32, parent: u32) -> (Self, Result<
        (),
        ResourceTableError,
    >) {
        if !self.occupied(child) {
            (self, Err(ResourceTableError::NotPresent))
        } else {
            (self.with_parent(child, None).child_removed(Some(parent), child), Ok(()))
        }
    }

    /// Taking the entry at `key` out of the table.
    pub open spec fn take_outcome(self, key: u32, debug: bool) -> (Self, Result<
        EntryView<U>,
        ResourceTableError,
    >) {
        if !self.occupied(key) {
            (self, Err(ResourceTableError::NotPresent))
        } else if !self.entry(key).children.is_empty() {
            (self, Err(ResourceTableError::HasChildren))
        } else {
            let e = self.entry(key);
            (self.freed(key, debug).child_removed(e.parent, key), Ok(e))
        }
    }
}

impl<U: HostHeapUsage> TableView<U> {
    /// Deleting the `T` at `key`, which uses `usage` bytes. What is no `T` stays.
    pub open spec fn delete_outcome<T: Erase<U>>(
        self,
        key: u32,
        debug: bool,
        usage: usize,
    ) -> (Self, Result<T, ResourceTableError>) {
        match self.take_outcome(key, debug) {
            (t, Err(e)) => (t, Err(e)),
            (t, Ok(e)) => match e.value.as_type::<T>() {
                Some(v) => (t.with_usage(t.adjusted_usage(usage, 0)), Ok(v)),
                None => (self, Err(ResourceTableError::WrongType)),
            },
        }
    }

    /// What looking for a `T` at `key` gives.
    pub open spec fn get_outcome<T: Erase<U>>(self, key: u32) -> Result<T, ResourceTableError> {
        if !self.occupied(key) {
            Err(ResourceTableError::NotPresent)
        } else {
            match self.entry(key).value.as_type::<T>() {
                Some(t) => Ok(t),
                None => Err(ResourceTableError::WrongType),
            }
        }
    }

    /// `settled` is this table once a borrow that was let go of without being
    /// finished is accounted for: the total follows what the value uses now, and
    /// going over the limit is ignored. A table without such a borrow stays as it
    /// is.
    pub open spec fn settles_to(self, settled: Self) -> bool {
        match self.borrowed {
            None => settled == self,
            Some((key, before)) => if self.occupied(key) && self.entry(key).value is Value {
                exists|after: usize| #[trigger]
                    self.entry(key).value->Value_0.reports(after) && settled
                        == self.with_borrowed(None).with_usage(
                        moved_total(self.usage, before, after),
                    )
            } else {
                settled == self.with_borrowed(None)
            },
        }
    }
}

/// A new entry keeps the table in order.
pub proof fn lemma_push_keeps_inv<U>(
    t: TableView<U>,
    value: U,
    usage: usize,
    parent: Option<u32>,
)
    requires
        t.inv(),
    ensures
        t.push_outcome(value, usage, parent).0.inv(),
        t.next_slot() matches Some(ix) ==> !t.occupied(ix) && t.placed(
            EntryView::fresh(Stored::Value(value), parent),
        ).entry(ix) == EntryView::fresh(Stored::Value(value), parent),
        t.next_slot() matches Some(ix) ==> forall|p: u32| !#[trigger] t.has_child(p, ix),
{
    let (r, out) = t.push_outcome(value, usage, parent);
    if t.next_slot() is Some {
        let ix = t.next_slot()->0;
        let e = EntryView::fresh(Stored::Value(value), parent);
        assert(!t.occupied(ix));
        assert forall|p: u32| !#[trigger] t.has_child(p, ix) by {
            assert(t.has_child(p, ix) <==> t.parent_of(ix) == Some(p));
        }
        if t.free.len() > 0 {
            assert(t.free[0] < t.slots.len());
            assert(ix as int == t.free[0]);
        }
        if out is Ok {
            assert(r.free =~= t.placed(e).free);
            assert forall|k: int| 0 <= k < r.slots.len() && (#[trigger] r.slots[k]) is None implies
                r.free.contains(k) by {
                assert(t.slots[k] is None);
                assert(t.free.contains(k));
                let i = choose|i: int| 0 <= i < t.free.len() && t.free[i] == k;
                assert(i != 0);
                assert(r.free[i - 1] == k);
            }
            assert forall|i: int| 0 <= i < r.free.len() implies 0 <= #[trigger] r.free[i]
                < r.slots.len() && r.slots[r.free[i]] is None by {
                assert(r.free[i] == t.free[i + 1]);
                assert(t.free[i + 1] != t.free[0]);
            }
            assert forall|p: u32, c: u32| #[trigger]
                r.has_child(p, c) <==> r.parent_of(c) == Some(p) by {
                assert(t.has_child(p, c) <==> t.parent_of(c) == Some(p));
                assert(!t.has_child(p, ix)) by {
                    assert(t.has_child(p, ix) <==> t.parent_of(ix) == Some(p));
                }
                assert(t.has_child(ix, c) <==> t.parent_of(c) == Some(ix));
            }
        }
    }
}

/// Another value in an entry keeps the table in order.
pub proof fn lemma_with_value_keeps_inv<U>(t: TableView<U>, key: u32, value: Stored<U>)
    requires
        t.inv(),
        t.occupied(key),
    ensures
        t.with_value(key, value).inv(),
{
    let r = t.with_value(key, value);
    assert(r.free_inv()) by {
        assert forall|k: int| 0 <= k < r.slots.len() && (#[trigger] r.slots[k]) is None implies
            r.free.contains(k) by {
            assert(t.slots[k] is None);
        }
    }
    assert forall|p: u32, c: u32| #[trigger]
        r.has_child(p, c) <==> r.parent_of(c) == Some(p) by {
        assert(t.has_child(p, c) <==> t.parent_of(c) == Some(p));
    }
}

/// Other values in the entries keep the table in order.
pub proof fn lemma_same_shape_keeps_inv<U>(t: TableView<U>, r: TableView<U>)
    requires
        t.inv(),
        t.same_shape(r),
    ensures
        r.inv(),
{
    assert forall|p: u32, c: u32| #[trigger]
        r.has_child(p, c) <==> r.parent_of(c) == Some(p) by {
        assert(t.has_child(p, c) <==> t.parent_of(c) == Some(p));
    }
}

/// A table with the same slots and the same free list is in order too.
pub proof fn lemma_same_slots_keep_inv<U>(t: TableView<U>, r: TableView<U>)
    requires
        t.inv(),
        r.slots == t.slots,
        r.free == t.free,
    ensures
        r.inv(),
{
    assert forall|p: u32, c: u32| #[trigger]
        r.has_child(p, c) <==> r.parent_of(c) == Some(p) by {
        assert(t.has_child(p, c) <==> t.parent_of(c) == Some(p));
    }
}

/// A new family tie keeps the table in order, provided that the child had no
/// parent.
pub proof fn lemma_add_child_keeps_inv<U>(t: TableView<U>, child: u32, parent: u32)
    requires
        t.inv(),
        t.parent_of(child) is None,
    ensures
        t.add_child_outcome(child, parent).0.inv(),
        !t.has_child(parent, child),
{
    assert(t.has_child(parent, child) <==> t.parent_of(child) == Some(parent));
    let r = t.add_child_outcome(child, parent).0;
    if t.occupied(child) && t.occupied(parent) {
        assert(r.free_inv()) by {
            assert forall|k: int| 0 <= k < r.slots.len() && (#[trigger] r.slots[k]) is None implies
                r.free.contains(k) by {
                assert(t.slots[k] is None);
            }
        }
        assert forall|p: u32, c: u32| #[trigger]
            r.has_child(p, c) <==> r.parent_of(c) == Some(p) by {
            assert(t.has_child(p, c) <==> t.parent_of(c) == Some(p));
        }
    }
}

/// Undoing a family tie keeps the table in order, provided that it is there.
pub proof fn lemma_remove_child_keeps_inv<U>(t: TableView<U>, child: u32, parent: u32)
    requires
        t.inv(),
        t.occupied(child) ==> t.parent_of(child) == Some(parent),
    ensures
        t.remove_child_outcome(child, parent).0.inv(),
        t.occupied(child) ==> t.has_child(parent, child),
{
    let r = t.remove_child_outcome(child, parent).0;
    assert(t.has_child(parent, child) <==> t.parent_of(child) == Some(parent));
    if t.occupied(child) {
        assert(r.free_inv()) by {
            assert forall|k: int| 0 <= k < r.slots.len() && (#[trigger] r.slots[k]) is None implies
                r.free.contains(k) by {
                assert(t.slots[k] is None);
            }
        }
        assert forall|p: u32, c: u32| #[trigger]
            r.has_child(p, c) <==> r.parent_of(c) == Some(p) by {
            assert(t.has_child(p, c) <==> t.parent_of(c) == Some(p));
        }
    }
}

/// Taking an entry out keeps the table in order, and the entry's parent, if it
/// has one, is another entry that is there and stays there.
pub proof fn lemma_take_keeps_inv<U>(t: TableView<U>, key: u32, debug: bool)
    requires
        t.inv(),
    ensures
        t.take_outcome(key, debug).0.inv(),
        t.take_outcome(key, debug).1 is Ok ==> (t.parent_of(key) matches Some(p) ==> p != key
            && t.has_child(p, key)),
{
    let (r, out) = t.take_outcome(key, debug);
    if out is Ok {
        let e = t.entry(key);
        if e.parent is Some {
            let p = e.parent->0;
            assert(t.has_child(p, key) <==> t.parent_of(key) == Some(p));
        }
        if debug {
            assert(r.free == t.free);
            assert forall|k: int| 0 <= k < r.slots.len() && (#[trigger] r.slots[k]) is None implies
                r.free.contains(k) by {
                assert(t.slots[k] is None);
            }
        } else {
            assert(r.free == seq![key as int] + t.free);
            assert forall|k: int| 0 <= k < r.slots.len() && (#[trigger] r.slots[k]) is None implies
                r.free.contains(k) by {
                if k == key {
                    assert(r.free[0] == k);
                } else {
                    assert(t.slots[k] is None);
                    let i = choose|i: int| 0 <= i < t.free.len() && t.free[i] == k;
                    assert(r.free[i + 1] == k);
                }
            }
            assert forall|i: int| 0 <= i < r.free.len() implies 0 <= #[trigger] r.free[i]
                < r.slots.len() && r.slots[r.free[i]] is None by {
                if i > 0 {
                    assert(r.free[i] == t.free[i - 1]);
                }
            }
            assert(r.free.no_duplicates()) by {
                assert forall|i: int, j: int|
                    0 <= i < r.free.len() && 0 <= j < r.free.len() && i != j implies r.free[i]
                    != r.free[j] by {
                    if i > 0 {
                        assert(r.free[i] == t.free[i - 1]);
                    }
                    if j > 0 {
                        assert(r.free[j] == t.free[j - 1]);
                    }
                }
            }
        }
        assert forall|p: u32, c: u32| #[trigger]
            r.has_child(p, c) <==> r.parent_of(c) == Some(p) by {
            assert(t.has_child(p, c) <==> t.parent_of(c) == Some(p));
            assert(!t.has_child(key, c));
        }
    }
}

} // verus!
