//! What holds of a resource table across operations.
//!
//! The laws speak of the outcomes that the operations of
//! [`ResourceTable`](crate::component::resource_table::ResourceTable) state in
//! their contracts.

use crate::component::erase::{Erase, Stored};
use crate::component::error::ResourceTableError;
use crate::component::resources::HostHeapUsage;
use crate::component::table_view::{EntryView, TableView};
use vstd::prelude::*;

verus! {

/// What was inserted is found under the index that was handed out.
pub proof fn law_pushed_value_is_found<U: HostHeapUsage, T: Erase<U>>(
    t: TableView<U>,
    value: T,
    usage: usize,
    parent: Option<u32>,
)
    requires
        t.inv(),
    ensures
        ({
            let (r, out) = t.push_outcome(value.erased(), usage, parent);
            out matches Ok(ix) ==> r.get_outcome::<T>(ix) == Ok::<T, ResourceTableError>(value)
        }),
{
    value.stored_is_found();
    crate::component::table_view::lemma_push_keeps_inv(t, value.erased(), usage, parent);
    assert(forall|k: int| 0 <= k < t.free.len() ==> 0 <= #[trigger] t.free[k] < t.slots.len());
}

/// What was inserted is handed back by a deletion that measures it as it was
/// measured before. All else is then as it was: the other entries, the tracked
/// usage (unless it had reached the largest number) and the settings.
pub proof fn law_delete_undoes_push<U: HostHeapUsage, T: Erase<U>>(
    t: TableView<U>,
    value: T,
    usage: usize,
    parent: Option<u32>,
    debug: bool,
)
    requires
        t.inv(),
        t.usage + usage <= usize::MAX,
    ensures
        ({
            let (r, out) = t.push_outcome(value.erased(), usage, parent);
            out matches Ok(ix) ==> {
                let (s, back) = r.delete_outcome::<T>(ix, debug, usage);
                &&& back == Ok::<T, ResourceTableError>(value)
                &&& s.usage == t.usage
                &&& s.limit == t.limit && s.max_capacity == t.max_capacity
                &&& forall|k: u32| k != ix ==> #[trigger] s.occupied(k) == t.occupied(k)
                &&& forall|k: u32| #[trigger] t.occupied(k) ==> s.entry(k) == t.entry(k)
                &&& !debug && t.free.len() > 0 ==> s == t
            }
        }),
{
    value.stored_is_found();
    crate::component::table_view::lemma_push_keeps_inv(t, value.erased(), usage, parent);
    let (r, out) = t.push_outcome(value.erased(), usage, parent);
    if out is Ok {
        let ix = out->Ok_0;
        let s = r.delete_outcome::<T>(ix, debug, usage).0;
        if t.free.len() > 0 {
            assert(0 <= t.free[0] < t.slots.len());
        }
        assert forall|p: u32| !t.has_child(p, ix) by {
            assert(t.has_child(p, ix) <==> t.parent_of(ix) == Some(p));
        }
        assert(r.entry(ix).children =~= Set::<u32>::empty());
        if parent is Some {
            let p = parent->0;
            assert(t.occupied(p) && p != ix);
            assert(!t.has_child(p, ix));
            assert(t.entry(p).children.insert(ix).remove(ix) =~= t.entry(p).children);
        }
        assert forall|k: u32| #[trigger] t.occupied(k) implies s.entry(k) == t.entry(k) by {
            assert(k != ix);
        }
        if !debug && t.free.len() > 0 {
            assert(s.slots =~= t.slots) by {
                assert(t.slots[ix as int] is None);
            }
            assert(seq![ix as int] + t.free.drop_first() =~= t.free);
            assert(s =~= t);
        }
    }
}

/// A deleted index is the next to be used, whatever the capacity has become.
pub proof fn law_deleted_index_is_reused<U>(
    t: TableView<U>,
    key: u32,
    max_capacity: usize,
    value: U,
    usage: usize,
)
    requires
        t.inv(),
        t.take_outcome(key, false).1 is Ok,
    ensures
        ({
            let s = TableView { max_capacity, ..t.take_outcome(key, false).0 };
            s.push_outcome(value, usage, None).1 == (if s.over_limit(usage) {
                Err::<u32, ResourceTableError>(ResourceTableError::HostMemoryLimitExceeded)
            } else {
                Ok(key)
            })
        }),
{
}

/// Of two deleted indices the one deleted last is used first.
pub proof fn law_free_list_is_last_in_first_out<U>(
    t: TableView<U>,
    first: u32,
    second: u32,
    a: U,
    b: U,
)
    requires
        t.inv(),
        t.limit is None,
        t.take_outcome(first, false).1 is Ok,
        t.take_outcome(first, false).0.take_outcome(second, false).1 is Ok,
    ensures
        ({
            let deleted = t.take_outcome(first, false).0.take_outcome(second, false).0;
            let (s, x) = deleted.push_outcome(a, 0, None);
            let (_, y) = s.push_outcome(b, 0, None);
            x == Ok::<u32, ResourceTableError>(second) && y == Ok::<u32, ResourceTableError>(first)
        }),
{
    let deleted = t.take_outcome(first, false).0.take_outcome(second, false).0;
    assert(deleted.free =~= seq![second as int, first as int] + t.free);
    assert(deleted.free.drop_first() =~= seq![first as int] + t.free);
}

/// Taking indices off the free list until it is empty gives exactly the indices
/// without an entry, each of them once. The first attempt gives none if and only
/// if there is an entry at every index.
pub proof fn law_free_list_is_the_unused_indices<U>(t: TableView<U>)
    requires
        t.inv(),
    ensures
        t.pops().no_duplicates(),
        forall|k: int| #[trigger]
            t.pops().contains(k) <==> 0 <= k < t.slots.len() && t.slots[k] is None,
        t.pop_outcome().1 is None <==> (forall|k: int|
            0 <= k < t.slots.len() ==> (#[trigger] t.slots[k]) is Some),
{
    lemma_pops_is_the_free_list(t);
    assert forall|k: int| #[trigger] t.pops().contains(k) implies 0 <= k < t.slots.len()
        && t.slots[k] is None by {
        let i = choose|i: int| 0 <= i < t.free.len() && t.free[i] == k;
        assert(t.slots[t.free[i]] is None);
    }
    if t.free.len() > 0 {
        assert(t.slots[t.free[0]] is None);
    }
    if exists|k: int| 0 <= k < t.slots.len() && (#[trigger] t.slots[k]) is None {
        let k = choose|k: int| 0 <= k < t.slots.len() && (#[trigger] t.slots[k]) is None;
        assert(t.free.contains(k));
    }
}

proof fn lemma_pops_is_the_free_list<U>(t: TableView<U>)
    ensures
        t.pops() == t.free,
    decreases t.free.len(),
{
    if t.free.len() > 0 {
        lemma_pops_is_the_free_list(t.pop_outcome().0);
        assert(seq![t.free[0]] + t.free.drop_first() =~= t.free);
    } else {
        assert(t.pops() =~= t.free);
    }
}

/// An index that is freed is the next to come off the free list, and that puts
/// the head of the list back to what it was. Nothing but the entry at the index
/// has changed.
pub proof fn law_freed_index_is_popped_next<U>(t: TableView<U>, key: u32)
    requires
        t.inv(),
        t.occupied(key),
    ensures
        ({
            let freed = t.freed(key, false);
            let (popped, ix) = freed.pop_outcome();
            &&& ix == Some(key as int)
            &&& popped.head() == t.head()
            &&& popped.free == t.free
            &&& !freed.occupied(key)
            &&& freed.slots.len() == t.slots.len()
            &&& forall|k: u32| k != key ==> #[trigger] freed.occupied(k) == t.occupied(k)
            &&& forall|k: u32| k != key && #[trigger] t.occupied(k) ==> freed.entry(k) == t.entry(k)
            &&& freed.usage == t.usage && freed.limit == t.limit && freed.max_capacity
                == t.max_capacity
            &&& popped == (TableView { slots: freed.slots, ..t })
        }),
{
    let freed = t.freed(key, false);
    assert(freed.free.drop_first() =~= t.free);
}

/// A new entry never takes an index at which there is an entry, a mark of a
/// deletion among them.
pub proof fn law_push_takes_an_unused_index<U>(
    t: TableView<U>,
    value: U,
    usage: usize,
    parent: Option<u32>,
)
    requires
        t.inv(),
    ensures
        ({
            let (r, out) = t.push_outcome(value, usage, parent);
            out matches Ok(ix) ==> {
                &&& !t.occupied(ix)
                &&& r.occupied(ix)
                &&& forall|k: u32| #[trigger] t.occupied(k) ==> r.occupied(k)
                    && r.entry(k).value == t.entry(k).value && r.entry(k).parent
                    == t.entry(k).parent
                &&& forall|k: u32| #[trigger] r.occupied(k) ==> k == ix || t.occupied(k)
            }
        }),
{
    crate::component::table_view::lemma_push_keeps_inv(t, value, usage, parent);
    if t.free.len() > 0 {
        assert(0 <= t.free[0] < t.slots.len());
    }
}

/// A deletion with a mark leaves the index in use: nothing is found there under
/// any type, and a second deletion finds nothing of the type either.
pub proof fn law_marked_index_stays_dead<U: HostHeapUsage, T: Erase<U>>(
    t: TableView<U>,
    key: u32,
    usage: usize,
)
    requires
        t.inv(),
        t.take_outcome(key, true).1 is Ok,
    ensures
        ({
            let r = t.take_outcome(key, true).0;
            &&& r.get_outcome::<T>(key) == Err::<T, ResourceTableError>(
                ResourceTableError::WrongType,
            )
            &&& r.delete_outcome::<T>(key, true, usage).1 == Err::<T, ResourceTableError>(
                ResourceTableError::WrongType,
            )
        }),
{
    crate::component::table_view::lemma_take_keeps_inv(t, key, true);
}

/// After a deletion nothing is found at the index.
pub proof fn law_deleted_value_is_gone<U: HostHeapUsage, T: Erase<U>>(t: TableView<U>, key: u32)
    requires
        t.inv(),
        t.take_outcome(key, false).1 is Ok,
    ensures
        t.take_outcome(key, false).0.get_outcome::<T>(key) == Err::<T, ResourceTableError>(
            ResourceTableError::NotPresent,
        ),
{
    crate::component::table_view::lemma_take_keeps_inv(t, key, false);
}

/// A refused insertion leaves no trace.
pub proof fn law_refused_push_changes_nothing<U>(
    t: TableView<U>,
    value: U,
    usage: usize,
    parent: Option<u32>,
)
    ensures
        t.push_outcome(value, usage, parent).1 is Err ==> t.push_outcome(value, usage, parent).0
            == t,
{
}

/// A refused deletion of an entry that is there, or of one that is not, leaves
/// no trace.
pub proof fn law_refused_take_changes_nothing<U>(t: TableView<U>, key: u32, debug: bool)
    ensures
        t.take_outcome(key, debug).1 is Err ==> t.take_outcome(key, debug).0 == t,
{
}

/// A deletion that is refused, also for the type of the handle, leaves no trace.
pub proof fn law_refused_delete_changes_nothing<U: HostHeapUsage, T: Erase<U>>(
    t: TableView<U>,
    key: u32,
    debug: bool,
    usage: usize,
)
    ensures
        t.delete_outcome::<T>(key, debug, usage).1 is Err ==> t.delete_outcome::<T>(
            key,
            debug,
            usage,
        ).0 == t,
{
}

/// What is found after a deletion was there before, and a deletion hands out
/// what was there.
pub proof fn law_deletion_leaves_the_rest<U: HostHeapUsage, T: Erase<U>, V: Erase<U>>(
    t: TableView<U>,
    key: u32,
    other: u32,
    debug: bool,
    usage: usize,
)
    requires
        t.inv(),
    ensures
        ({
            let (r, out) = t.delete_outcome::<T>(key, debug, usage);
            &&& out is Ok ==> t.get_outcome::<T>(key) == out
            &&& r.get_outcome::<V>(other) is Ok ==> t.get_outcome::<V>(other) == r.get_outcome::<V>(
                other,
            )
        }),
{
    crate::component::table_view::lemma_take_keeps_inv(t, key, debug);
}

/// A parent cannot be deleted before its children.
pub proof fn law_parent_outlives_children<U>(t: TableView<U>, parent: u32, child: u32, debug: bool)
    requires
        t.inv(),
        t.parent_of(child) == Some(parent),
    ensures
        t.take_outcome(parent, debug) == (
            t,
            Err::<EntryView<U>, ResourceTableError>(ResourceTableError::HasChildren),
        ),
{
    assert(t.has_child(parent, child) <==> t.parent_of(child) == Some(parent));
}

/// The parent that an entry names is in the table.
pub proof fn law_parent_is_present<U>(t: TableView<U>, child: u32)
    requires
        t.inv(),
    ensures
        t.parent_of(child) matches Some(p) ==> t.occupied(p) && t.entry(p).children.contains(child),
{
    if t.parent_of(child) is Some {
        let p = t.parent_of(child)->0;
        assert(t.has_child(p, child) <==> t.parent_of(child) == Some(p));
    }
}

/// A child is created only under a parent that is present, and is then listed
/// among that parent's children.
pub proof fn law_child_is_listed<U>(t: TableView<U>, value: U, usage: usize, parent: u32)
    requires
        t.inv(),
    ensures
        ({
            let (r, out) = t.push_outcome(value, usage, Some(parent));
            out matches Ok(ix) ==> t.occupied(parent) && r.parent_of(ix) == Some(parent)
                && r.has_child(parent, ix)
        }),
{
    crate::component::table_view::lemma_push_keeps_inv(t, value, usage, Some(parent));
    let (r, out) = t.push_outcome(value, usage, Some(parent));
    if t.free.len() > 0 {
        assert(0 <= t.free[0] < t.slots.len());
    }
    if out is Ok {
        assert(r.has_child(parent, out->Ok_0) <==> r.parent_of(out->Ok_0) == Some(parent));
    }
}

/// Once its children are deleted an entry can be deleted.
pub proof fn law_deletion_of_last_child_frees_parent<U>(
    t: TableView<U>,
    parent: u32,
    child: u32,
    debug: bool,
)
    requires
        t.inv(),
        t.parent_of(child) == Some(parent),
        t.entry(parent).children == set![child],
        t.entry(child).children.is_empty(),
    ensures
        t.take_outcome(child, debug).1 is Ok,
        t.take_outcome(child, debug).0.take_outcome(parent, debug).1 is Ok,
{
    crate::component::table_view::lemma_take_keeps_inv(t, child, debug);
    let r = t.take_outcome(child, debug).0;
    assert(r.entry(parent).children =~= Set::<u32>::empty());
}

/// Adding a child and removing it again leaves the table as it was.
pub proof fn law_remove_child_undoes_add_child<U>(t: TableView<U>, child: u32, parent: u32)
    requires
        t.inv(),
        t.parent_of(child) is None,
        t.add_child_outcome(child, parent).1 is Ok,
    ensures
        t.add_child_outcome(child, parent).0.remove_child_outcome(child, parent) == (
            t,
            Ok::<(), ResourceTableError>(()),
        ),
{
    let r = t.add_child_outcome(child, parent).0;
    let s = r.remove_child_outcome(child, parent).0;
    assert(!t.has_child(parent, child)) by {
        assert(t.has_child(parent, child) <==> t.parent_of(child) == Some(parent));
    }
    assert(t.entry(parent).children.insert(child).remove(child) =~= t.entry(parent).children);
    assert(s.slots =~= t.slots);
    assert(s =~= t);
}

/// Bytes that were retained and are released again leave the table as it was.
pub proof fn law_release_undoes_retain<U>(t: TableView<U>, size: usize)
    requires
        t.usage + size <= usize::MAX,
        t.retain_outcome(size).1 is Ok,
    ensures
        ({
            let r = t.retain_outcome(size).0;
            r.release_outcome(size) == t
        }),
{
}

/// Without a limit nothing is refused for its size.
pub proof fn law_no_limit_no_refusal<U>(
    t: TableView<U>,
    value: U,
    usage: usize,
    parent: Option<u32>,
    before: usize,
)
    requires
        t.limit is None,
    ensures
        t.push_outcome(value, usage, parent).1 != Err::<u32, ResourceTableError>(
            ResourceTableError::HostMemoryLimitExceeded,
        ),
        t.retain_outcome(usage).1 is Ok,
        t.adjust_outcome(before, usage).1 is Ok,
{
}

/// Neither an insertion nor a retention that is accepted goes over the limit,
/// and one that reaches it exactly is accepted.
pub proof fn law_limit_is_kept<U>(
    t: TableView<U>,
    max: usize,
    value: U,
    usage: usize,
    parent: Option<u32>,
)
    requires
        t.limit == Some(max),
    ensures
        t.push_outcome(value, usage, parent).1 is Ok ==> t.push_outcome(
            value,
            usage,
            parent,
        ).0.usage <= max,
        t.retain_outcome(usage).1 is Ok ==> t.retain_outcome(usage).0.usage <= max,
        t.usage + usage == max ==> t.retain_outcome(usage).1 is Ok && t.push_outcome(
            value,
            usage,
            parent,
        ).1 != Err::<u32, ResourceTableError>(ResourceTableError::HostMemoryLimitExceeded),
{
}

/// A change in place is counted in any case, and reported exactly if the total
/// is then over the limit, whether the value grew or shrank.
pub proof fn law_change_is_counted_anyway<U>(t: TableView<U>, before: usize, after: usize)
    requires
        before <= t.usage,
        t.usage - before + after <= usize::MAX,
    ensures
        t.adjust_outcome(before, after).0.usage == t.usage - before + after,
        t.adjust_outcome(before, after).1 is Err <==> (t.limit matches Some(max) && t.usage - before
            + after > max),
{
}

/// A table without free indices takes entries up to its capacity, and no more.
pub proof fn law_capacity_bounds_growth<U>(t: TableView<U>, value: U)
    requires
        t.inv(),
        t.limit is None,
        t.free.len() == 0,
        t.slots.len() <= u32::MAX,
    ensures
        t.push_outcome(value, 0, None).1 == (if t.slots.len() < t.max_capacity {
            Ok(t.slots.len() as u32)
        } else {
            Err::<u32, ResourceTableError>(ResourceTableError::Full)
        }),
{
}

/// The sum of what the slots cost.
pub open spec fn total(costs: Seq<nat>) -> nat
    decreases costs.len(),
{
    if costs.len() == 0 {
        0
    } else {
        total(costs.drop_last()) + costs.last()
    }
}

/// What one slot more or less costs moves the sum by as much.
pub proof fn lemma_total_update(costs: Seq<nat>, i: int, cost: nat)
    requires
        0 <= i < costs.len(),
    ensures
        total(costs.update(i, cost)) == total(costs) - costs[i] + cost,
        costs[i] <= total(costs),
    decreases costs.len(),
{
    if i == costs.len() - 1 {
        assert(costs.update(i, cost).drop_last() =~= costs.drop_last());
    } else {
        lemma_total_update(costs.drop_last(), i, cost);
        assert(costs.update(i, cost).drop_last() =~= costs.drop_last().update(i, cost));
    }
}

/// The tracked usage is the sum of what the entries cost, of which an index
/// without an entry costs nothing, and of the bytes retained beside them.
pub open spec fn accounted<U>(t: TableView<U>, costs: Seq<nat>, retained: nat) -> bool {
    &&& costs.len() == t.slots.len()
    &&& forall|k: int|
        0 <= k < costs.len() && t.slots[k] is None ==> #[trigger] costs[k] == 0
    &&& t.usage == total(costs) + retained
}

/// An insertion keeps the tracked usage equal to the total: the new entry costs
/// what it was measured to use. The total must be representable.
pub proof fn law_push_keeps_the_account<U>(
    t: TableView<U>,
    costs: Seq<nat>,
    retained: nat,
    value: U,
    usage: usize,
    parent: Option<u32>,
)
    requires
        t.inv(),
        accounted(t, costs, retained),
        t.usage + usage <= usize::MAX,
    ensures
        ({
            let (r, out) = t.push_outcome(value, usage, parent);
            match out {
                Ok(ix) => accounted(
                    r,
                    if ix < costs.len() {
                        costs.update(ix as int, usage as nat)
                    } else {
                        costs.push(usage as nat)
                    },
                    retained,
                ),
                Err(_) => accounted(r, costs, retained),
            }
        }),
{
    crate::component::table_view::lemma_push_keeps_inv(t, value, usage, parent);
    let (r, out) = t.push_outcome(value, usage, parent);
    if out is Ok {
        let ix = out->Ok_0;
        if t.free.len() > 0 {
            assert(0 <= t.free[0] < t.slots.len());
            lemma_total_update(costs, ix as int, usage as nat);
        } else {
            assert(costs.push(usage as nat).drop_last() =~= costs);
        }
    }
}

/// A deletion keeps the tracked usage equal to the total, provided that the
/// value is measured to use what it costs. One that fails leaves both.
pub proof fn law_delete_keeps_the_account<U: HostHeapUsage, T: Erase<U>>(
    t: TableView<U>,
    costs: Seq<nat>,
    retained: nat,
    key: u32,
    usage: usize,
    debug: bool,
)
    requires
        t.inv(),
        accounted(t, costs, retained),
        t.occupied(key) ==> usage == costs[key as int],
    ensures
        ({
            let (r, out) = t.delete_outcome::<T>(key, debug, usage);
            match out {
                Ok(_) => accounted(r, costs.update(key as int, 0), retained),
                Err(_) => accounted(r, costs, retained),
            }
        }),
{
    crate::component::table_view::lemma_take_keeps_inv(t, key, debug);
    if t.occupied(key) {
        lemma_total_update(costs, key as int, 0);
    }
}

/// A change in place keeps the tracked usage equal to the total, provided that
/// the value was measured to use what it costs. The total must be
/// representable.
pub proof fn law_update_keeps_the_account<U>(
    t: TableView<U>,
    costs: Seq<nat>,
    retained: nat,
    key: u32,
    value: Stored<U>,
    before: usize,
    after: usize,
)
    requires
        t.inv(),
        accounted(t, costs, retained),
        t.occupied(key),
        before == costs[key as int],
        t.usage - before + after <= usize::MAX,
    ensures
        accounted(
            t.with_value(key, value).adjust_outcome(before, after).0,
            costs.update(key as int, after as nat),
            retained,
        ),
{
    lemma_total_update(costs, key as int, after as nat);
}

/// Retained bytes are counted beside the entries.
pub proof fn law_retain_keeps_the_account<U>(
    t: TableView<U>,
    costs: Seq<nat>,
    retained: nat,
    size: usize,
)
    requires
        accounted(t, costs, retained),
        t.usage + size <= usize::MAX,
    ensures
        accounted(
            t.retain_outcome(size).0,
            costs,
            if t.retain_outcome(size).1 is Ok {
                retained + size as nat
            } else {
                retained
            },
        ),
{
}

/// Bytes that were retained and are released are no longer counted beside the
/// entries.
pub proof fn law_release_keeps_the_account<U>(
    t: TableView<U>,
    costs: Seq<nat>,
    retained: nat,
    size: usize,
)
    requires
        accounted(t, costs, retained),
        size <= retained,
    ensures
        accounted(t.release_outcome(size), costs, (retained - size) as nat),
{
}

/// A new table is empty, and its account is balanced.
pub proof fn law_new_table_is_empty<U>(max_capacity: usize)
    ensures
        TableView::<U>::empty(max_capacity).inv(),
        TableView::<U>::empty(max_capacity).holds_nothing(),
        accounted(TableView::<U>::empty(max_capacity), seq![], 0),
{
}

/// A borrow that is finished has the same effect as an update in place: the same
/// table, and an error on the same condition.
pub proof fn law_finished_borrow_is_an_update<U>(
    t: TableView<U>,
    key: u32,
    value: Stored<U>,
    before: usize,
    after: usize,
)
    requires
        t.inv(),
        t.occupied(key),
    ensures
        ({
            let total = crate::component::table_view::moved_total(t.usage, before, after);
            let exact = crate::component::table_view::moved(t.usage, before, after);
            let (r, out) = t.with_value(key, value).adjust_outcome(before, after);
            &&& r == t.with_value(key, value).with_usage(total)
            &&& out is Err <==> t.limit is Some && exact > t.limit->0
        }),
{
}

/// A borrow that is let go of without being finished moves the total as one that
/// is finished does: by the difference of what the value uses now to what it used
/// when it was borrowed.
pub proof fn law_borrow_let_go_is_accounted_for<U: HostHeapUsage>(
    t: TableView<U>,
    key: u32,
    value: U,
    before: usize,
    settled: TableView<U>,
)
    requires
        t.occupied(key),
        t.borrowed is None,
        t.with_value(key, Stored::Value(value)).with_borrowed(Some((key, before))).settles_to(
            settled,
        ),
    ensures
        exists|after: usize| #[trigger]
            value.reports(after) && settled == t.with_value(
                key,
                Stored::Value(value),
            ).adjust_outcome(before, after).0,
{
    let abandoned = t.with_value(key, Stored::Value(value)).with_borrowed(Some((key, before)));
    assert(abandoned.entry(key).value == Stored::Value(value));
    let after = choose|after: usize| #[trigger]
        value.reports(after) && settled == abandoned.with_borrowed(None).with_usage(
            crate::component::table_view::moved_total(abandoned.usage, before, after),
        );
    assert(settled =~= t.with_value(key, Stored::Value(value)).adjust_outcome(before, after).0);
}

/// Accounting for a borrow changes nothing but the total, and once it is done
/// there is nothing left to account for.
pub proof fn law_settling_moves_the_total_alone<U: HostHeapUsage>(
    t: TableView<U>,
    settled: TableView<U>,
)
    requires
        t.settles_to(settled),
    ensures
        settled == t.with_borrowed(None).with_usage(settled.usage),
        t.borrowed is None ==> settled == t,
        forall|again: TableView<U>| #[trigger] settled.settles_to(again) <==> again == settled,
{
}

/// A retention is refused if and only if there is a limit and the tracked usage
/// and the new bytes together are more than it. What is accepted is added to the
/// usage, which stops at the largest number. Nothing else changes.
pub proof fn law_retention_is_refused_exactly_over_the_limit<U>(t: TableView<U>, size: usize)
    ensures
        ({
            let (r, out) = t.retain_outcome(size);
            let refused = match t.limit {
                Some(max) => t.usage + size > max,
                None => false,
            };
            &&& refused ==> out == Err::<(), ResourceTableError>(
                ResourceTableError::HostMemoryLimitExceeded,
            ) && r == t
            &&& !refused ==> out == Ok::<(), ResourceTableError>(())
            &&& !refused && t.usage + size <= usize::MAX ==> r.usage == t.usage + size
            &&& !refused && t.usage + size > usize::MAX ==> r.usage == usize::MAX
            &&& r.slots == t.slots && r.free == t.free && r.max_capacity == t.max_capacity
            &&& r.limit == t.limit && r.borrowed == t.borrowed
        }),
{
}

/// An insertion is refused for its size if and only if there is a limit and the
/// tracked usage and the new bytes together are more than it. Else it is refused
/// if a parent is named that is not there, and else if there is an entry at every
/// index and the table has reached its capacity or the last index of a handle.
/// In no other way is it refused.
pub proof fn law_insertion_is_refused_exactly<U>(
    t: TableView<U>,
    value: U,
    usage: usize,
    parent: Option<u32>,
)
    requires
        t.inv(),
    ensures
        ({
            let (r, out) = t.push_outcome(value, usage, parent);
            let too_large = match t.limit {
                Some(max) => t.usage + usage > max,
                None => false,
            };
            let orphan = match parent {
                Some(p) => !(p < t.slots.len() && t.slots[p as int] is Some),
                None => false,
            };
            let full = (forall|k: int|
                0 <= k < t.slots.len() ==> (#[trigger] t.slots[k]) is Some) && (t.slots.len()
                >= t.max_capacity || t.slots.len() > u32::MAX);
            &&& out is Err ==> r == t
            &&& too_large ==> out == Err::<u32, ResourceTableError>(
                ResourceTableError::HostMemoryLimitExceeded,
            )
            &&& !too_large && orphan ==> out == Err::<u32, ResourceTableError>(
                ResourceTableError::NotPresent,
            )
            &&& !too_large && !orphan && full ==> out == Err::<u32, ResourceTableError>(
                ResourceTableError::Full,
            )
            &&& !too_large && !orphan && !full ==> out is Ok
        }),
{
    if t.free.len() > 0 {
        assert(t.slots[t.free[0]] is None);
    }
    if exists|k: int| 0 <= k < t.slots.len() && (#[trigger] t.slots[k]) is None {
        let k = choose|k: int| 0 <= k < t.slots.len() && (#[trigger] t.slots[k]) is None;
        assert(t.free.contains(k));
    }
}

/// An insertion that is accepted puts the value at an index that was not in use,
/// with the parent that was named and without children. That parent has one child
/// more; all other entries and the settings stay. The bytes are added to the
/// tracked usage, which stops at the largest number. The table grows only if
/// there was an entry at every index.
pub proof fn law_insertion_adds_one_entry<U>(
    t: TableView<U>,
    value: U,
    usage: usize,
    parent: Option<u32>,
)
    requires
        t.inv(),
        t.push_outcome(value, usage, parent).1 is Ok,
    ensures
        ({
            let (r, out) = t.push_outcome(value, usage, parent);
            let ix = out->Ok_0;
            &&& !(ix < t.slots.len() && t.slots[ix as int] is Some)
            &&& ix < r.slots.len() && r.slots[ix as int] is Some
            &&& r.slots[ix as int]->0.value == Stored::Value(value)
            &&& r.slots[ix as int]->0.parent == parent
            &&& forall|c: u32| !#[trigger] r.slots[ix as int]->0.children.contains(c)
            &&& forall|k: int|
                0 <= k < t.slots.len() && k != ix && Some(k as u32) != parent
                    ==> #[trigger] r.slots[k] == t.slots[k]
            &&& parent matches Some(p) ==> {
                let (e, f) = (t.slots[p as int]->0, r.slots[p as int]->0);
                &&& r.slots[p as int] is Some
                &&& f.value == e.value && f.parent == e.parent
                &&& forall|c: u32| #[trigger]
                    f.children.contains(c) <==> e.children.contains(c) || c == ix
            }
            &&& r.slots.len() == (if exists|k: int|
                0 <= k < t.slots.len() && (#[trigger] t.slots[k]) is None {
                t.slots.len()
            } else {
                t.slots.len() + 1
            })
            &&& t.usage + usage <= usize::MAX ==> r.usage == t.usage + usage
            &&& t.usage + usage > usize::MAX ==> r.usage == usize::MAX
            &&& r.limit == t.limit && r.max_capacity == t.max_capacity && r.borrowed == t.borrowed
        }),
{
    crate::component::table_view::lemma_push_keeps_inv(t, value, usage, parent);
    let (r, out) = t.push_outcome(value, usage, parent);
    let ix = out->Ok_0;
    if t.free.len() > 0 {
        assert(0 <= t.free[0] < t.slots.len());
        assert(t.slots[t.free[0]] is None);
    }
    if exists|k: int| 0 <= k < t.slots.len() && (#[trigger] t.slots[k]) is None {
        let k = choose|k: int| 0 <= k < t.slots.len() && (#[trigger] t.slots[k]) is None;
        assert(t.free.contains(k));
    }
    assert(r.entry(ix).children =~= Set::<u32>::empty());
}

/// An entry is taken out if and only if it is there and has no children; else the
/// table stays as it is, and the reason is given. What is handed out is the entry.
pub proof fn law_taking_is_refused_exactly<U>(t: TableView<U>, key: u32, debug: bool)
    ensures
        ({
            let (r, out) = t.take_outcome(key, debug);
            let present = key < t.slots.len() && t.slots[key as int] is Some;
            let childless = forall|c: u32| !#[trigger] t.slots[key as int]->0.children.contains(c);
            &&& !present ==> r == t && out == Err::<EntryView<U>, ResourceTableError>(
                ResourceTableError::NotPresent,
            )
            &&& present && !childless ==> r == t && out == Err::<EntryView<U>, ResourceTableError>(
                ResourceTableError::HasChildren,
            )
            &&& present && childless ==> out == Ok::<EntryView<U>, ResourceTableError>(
                t.slots[key as int]->0,
            )
        }),
{
    if t.occupied(key) {
        let children = t.entry(key).children;
        if forall|c: u32| !#[trigger] children.contains(c) {
            assert(children =~= Set::<u32>::empty());
        }
        if children.is_empty() {
            assert forall|c: u32| !#[trigger] children.contains(c) by {}
        }
    }
}

/// Taking an entry out leaves nothing at its index, or with `debug` a mark that
/// has neither parent nor children. Its parent has one child less. All other
/// entries, the tracked usage and the settings stay.
pub proof fn law_taking_removes_one_entry<U>(t: TableView<U>, key: u32, debug: bool)
    requires
        t.inv(),
        t.take_outcome(key, debug).1 is Ok,
    ensures
        ({
            let r = t.take_outcome(key, debug).0;
            let parent = t.slots[key as int]->0.parent;
            &&& r.slots.len() == t.slots.len()
            &&& !debug ==> r.slots[key as int] is None
            &&& debug ==> {
                &&& r.slots[key as int] is Some
                &&& r.slots[key as int]->0.value is Tombstone
                &&& r.slots[key as int]->0.parent is None
                &&& forall|c: u32| !#[trigger] r.slots[key as int]->0.children.contains(c)
            }
            &&& forall|k: int|
                0 <= k < t.slots.len() && k != key && Some(k as u32) != parent
                    ==> #[trigger] r.slots[k] == t.slots[k]
            &&& parent matches Some(p) ==> {
                let (e, f) = (t.slots[p as int]->0, r.slots[p as int]->0);
                &&& p != key && p < t.slots.len() && r.slots[p as int] is Some
                &&& f.value == e.value && f.parent == e.parent
                &&& forall|c: u32| #[trigger]
                    f.children.contains(c) <==> e.children.contains(c) && c != key
            }
            &&& r.usage == t.usage && r.limit == t.limit && r.max_capacity == t.max_capacity
            &&& r.borrowed == t.borrowed
        }),
{
    crate::component::table_view::lemma_take_keeps_inv(t, key, debug);
    assert(t.occupied(key));
    if t.parent_of(key) is Some {
        let p = t.parent_of(key)->0;
        assert(t.has_child(p, key) <==> t.parent_of(key) == Some(p));
    }
}

/// A deletion takes the entry out if it is there, has no children and is of the
/// type; else nothing changes, and the reason is given. What the value uses is
/// subtracted from the tracked usage, which stops at zero.
pub proof fn law_deletion_is_refused_exactly<U: HostHeapUsage, T: Erase<U>>(
    t: TableView<U>,
    key: u32,
    debug: bool,
    usage: usize,
)
    ensures
        ({
            let (r, out) = t.delete_outcome::<T>(key, debug, usage);
            let (taken, entry) = t.take_outcome(key, debug);
            match entry {
                Err(e) => r == t && out == Err::<T, ResourceTableError>(e),
                Ok(e) => match e.value {
                    Stored::Value(u) => match T::recovered(u) {
                        Some(v) => {
                            &&& out == Ok::<T, ResourceTableError>(v)
                            &&& r.slots == taken.slots && r.free == taken.free
                            &&& usage <= t.usage ==> r.usage == t.usage - usage
                            &&& usage > t.usage ==> r.usage == 0
                            &&& r.limit == t.limit && r.max_capacity == t.max_capacity
                            &&& r.borrowed == t.borrowed
                        },
                        None => r == t && out == Err::<T, ResourceTableError>(
                            ResourceTableError::WrongType,
                        ),
                    },
                    Stored::Tombstone => r == t && out == Err::<T, ResourceTableError>(
                        ResourceTableError::WrongType,
                    ),
                },
            }
        }),
{
}

/// A value is found if and only if there is an entry at the index that holds a
/// value of the type.
pub proof fn law_lookup_finds_exactly_what_is_there<U: HostHeapUsage, T: Erase<U>>(
    t: TableView<U>,
    key: u32,
)
    ensures
        ({
            let present = key < t.slots.len() && t.slots[key as int] is Some;
            let stored = t.slots[key as int]->0.value;
            &&& !present ==> t.get_outcome::<T>(key) == Err::<T, ResourceTableError>(
                ResourceTableError::NotPresent,
            )
            &&& present && (stored is Tombstone || T::recovered(stored->Value_0) is None)
                ==> t.get_outcome::<T>(key) == Err::<T, ResourceTableError>(
                ResourceTableError::WrongType,
            )
            &&& present && stored is Value && T::recovered(stored->Value_0) is Some
                ==> t.get_outcome::<T>(key) == Ok::<T, ResourceTableError>(
                T::recovered(stored->Value_0)->0,
            )
        }),
{
}

/// If both entries are there and the child has no parent, the child is added: it
/// names the parent, the parent lists it beside the children it had, and nothing
/// else changes. If one of them is not there, nothing changes, and that is the
/// answer.
pub proof fn law_adding_a_child_ties_the_two<U>(t: TableView<U>, child: u32, parent: u32)
    requires
        t.inv(),
        t.parent_of(child) is None,
    ensures
        ({
            let (r, out) = t.add_child_outcome(child, parent);
            let present = child < t.slots.len() && t.slots[child as int] is Some && parent
                < t.slots.len() && t.slots[parent as int] is Some;
            &&& !present ==> r == t && out == Err::<(), ResourceTableError>(
                ResourceTableError::NotPresent,
            )
            &&& present ==> {
                &&& out == Ok::<(), ResourceTableError>(())
                &&& r.slots.len() == t.slots.len()
                &&& forall|k: int|
                    0 <= k < t.slots.len() ==> (#[trigger] r.slots[k] is Some <==> t.slots[k] is Some)
                &&& forall|k: int|
                    0 <= k < t.slots.len() && t.slots[k] is Some ==> (#[trigger] r.slots[k])->0.value
                        == t.slots[k]->0.value
                &&& forall|k: int|
                    0 <= k < t.slots.len() && t.slots[k] is Some ==> (#[trigger] r.slots[k])->0.parent
                        == (if k == child {
                        Some(parent)
                    } else {
                        t.slots[k]->0.parent
                    })
                &&& forall|k: int, c: u32|
                    0 <= k < t.slots.len() && t.slots[k] is Some ==> (
                    #[trigger] r.slots[k]->0.children.contains(c) <==> t.slots[k]->0.children.contains(
                        c,
                    ) || (k == parent && c == child))
                &&& r.free == t.free && r.usage == t.usage && r.limit == t.limit
                &&& r.max_capacity == t.max_capacity && r.borrowed == t.borrowed
            }
        }),
{
}

/// Parting a child from its parent is refused only if the child is not there.
/// After it the child names no parent, the parent no longer lists it, and nothing
/// else has changed.
pub proof fn law_removing_a_child_unties_the_two<U>(t: TableView<U>, child: u32, parent: u32)
    requires
        t.inv(),
        t.occupied(child) ==> t.parent_of(child) == Some(parent),
    ensures
        ({
            let (r, out) = t.remove_child_outcome(child, parent);
            let present = child < t.slots.len() && t.slots[child as int] is Some;
            &&& !present ==> r == t && out == Err::<(), ResourceTableError>(
                ResourceTableError::NotPresent,
            )
            &&& present ==> {
                &&& out == Ok::<(), ResourceTableError>(())
                &&& r.slots.len() == t.slots.len()
                &&& forall|k: int|
                    0 <= k < t.slots.len() ==> (#[trigger] r.slots[k] is Some <==> t.slots[k] is Some)
                &&& forall|k: int|
                    0 <= k < t.slots.len() && t.slots[k] is Some ==> (#[trigger] r.slots[k])->0.value
                        == t.slots[k]->0.value
                &&& forall|k: int|
                    0 <= k < t.slots.len() && t.slots[k] is Some ==> (#[trigger] r.slots[k])->0.parent
                        == (if k == child {
                        None
                    } else {
                        t.slots[k]->0.parent
                    })
                &&& forall|k: int, c: u32|
                    0 <= k < t.slots.len() && t.slots[k] is Some ==> (
                    #[trigger] r.slots[k]->0.children.contains(c) <==> t.slots[k]->0.children.contains(
                        c,
                    ) && !(k == parent && c == child))
                &&& r.free == t.free && r.usage == t.usage && r.limit == t.limit
                &&& r.max_capacity == t.max_capacity && r.borrowed == t.borrowed
            }
        }),
{
    if t.occupied(child) {
        assert(t.has_child(parent, child) <==> t.parent_of(child) == Some(parent));
    }
}

/// A value that went from `before` to `after` moves the tracked usage by the
/// difference, within what is representable. The limit is reported as exceeded if
/// and only if there is one and the exact sum is more than it. Nothing else
/// changes.
pub proof fn law_change_moves_the_usage_by_the_difference<U>(
    t: TableView<U>,
    before: usize,
    after: usize,
)
    ensures
        ({
            let (r, out) = t.adjust_outcome(before, after);
            let exact = if t.usage - before + after < 0 {
                0
            } else {
                t.usage - before + after
            };
            &&& r.usage == (if exact > usize::MAX {
                usize::MAX as int
            } else {
                exact
            })
            &&& (t.limit is Some && exact > t.limit->0) ==> out == Err::<(), ResourceTableError>(
                ResourceTableError::HostMemoryLimitExceeded,
            )
            &&& !(t.limit is Some && exact > t.limit->0) ==> out == Ok::<(), ResourceTableError>(())
            &&& r.slots == t.slots && r.free == t.free && r.max_capacity == t.max_capacity
            &&& r.limit == t.limit && r.borrowed == t.borrowed
        }),
{
}

/// A release takes its bytes off the tracked usage, and changes nothing else.
pub proof fn law_release_subtracts<U>(t: TableView<U>, size: usize)
    requires
        size <= t.usage,
    ensures
        ({
            let r = t.release_outcome(size);
            &&& r.usage == t.usage - size
            &&& r.slots == t.slots && r.free == t.free && r.max_capacity == t.max_capacity
            &&& r.limit == t.limit && r.borrowed == t.borrowed
        }),
{
}

/// A borrow that was let go of is accounted for by the difference between what
/// the value reports now and what it used before, within what is representable,
/// whatever the limit is.
pub proof fn law_settling_moves_the_usage_by_the_difference<U: HostHeapUsage>(
    t: TableView<U>,
    settled: TableView<U>,
    key: u32,
    before: usize,
    value: U,
)
    requires
        t.settles_to(settled),
        t.borrowed == Some((key, before)),
        key < t.slots.len() && t.slots[key as int] is Some,
        t.slots[key as int]->0.value == Stored::Value(value),
    ensures
        settled.borrowed is None,
        exists|after: usize| #[trigger]
            value.reports(after) && settled.usage == ({
                let exact = t.usage - before + after;
                if exact < 0 {
                    0
                } else if exact > usize::MAX {
                    usize::MAX as int
                } else {
                    exact
                }
            }),
        settled.slots == t.slots && settled.free == t.free && settled.limit == t.limit,
        settled.max_capacity == t.max_capacity,
{
}

/// A table holds nothing if and only if no index has an entry with a value.
pub proof fn law_empty_table_has_no_value<U>(t: TableView<U>)
    requires
        t.inv(),
    ensures
        t.holds_nothing() <==> !(exists|key: u32|
            key < t.slots.len() && (#[trigger] t.slots[key as int]) is Some
                && t.slots[key as int]->0.value is Value),
{
    if t.holds_nothing() {
        assert forall|key: u32|
            !(key < t.slots.len() && (#[trigger] t.slots[key as int]) is Some
                && t.slots[key as int]->0.value is Value) by {}
    } else {
        let k = choose|k: int|
            0 <= k < t.slots.len() && !(#[trigger] t.slots[k] matches Some(e)
                ==> e.value is Tombstone);
        assert(t.slots[(k as u32) as int] == t.slots[k]);
    }
}

/// A change that keeps to the limit is answered with its result; one that does not is
/// answered with the limit that is exceeded, though the change stays and is counted.
pub proof fn law_change_is_answered_by_the_limit<U, R>(
    changed: TableView<U>,
    adjusted: TableView<U>,
    before: usize,
    after: usize,
    result: R,
    r: Result<R, ResourceTableError>,
)
    requires
        crate::component::resource_table::updated(changed, adjusted, before, after, result, r),
        before <= changed.usage,
        changed.usage - before + after <= usize::MAX,
    ensures
        adjusted.usage == changed.usage - before + after,
        adjusted.slots == changed.slots,
        match changed.limit {
            Some(max) if changed.usage - before + after > max => r == Err::<R, ResourceTableError>(
                ResourceTableError::HostMemoryLimitExceeded,
            ),
            _ => r == Ok::<R, ResourceTableError>(result),
        },
{
}

} // verus!
