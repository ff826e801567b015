//! What the account of a table comes to after any number of calls.

use crate::component::erase::{Erase, Stored};
use crate::component::resource_table::DEFAULT_MAX_CAPACITY;
use crate::component::resources::HostHeapUsage;
use crate::component::table_view::TableView;
use vstd::prelude::*;

verus! {

/// A call of an operation that can change a table.
#[allow(inconsistent_fields)]
pub enum Call<U> {
    /// An insertion, as a child if a parent is named.
    Push { value: U, parent: Option<u32> },
    /// A change of the value at an index to another, by an update in place or a
    /// borrow, finished or let go of, under a handle of the right type or not.
    Change { key: u32, value: U, right_type: bool },
    /// A change through a plain reference.
    Replace { key: u32, value: U },
    /// A deletion, under a handle of the right type or not.
    Delete { key: u32, debug: bool, right_type: bool },
    Retain { size: usize },
    Release { size: usize },
    AddChild { child: u32, parent: u32 },
    RemoveChild { child: u32, parent: u32 },
    SetLimit { limit: Option<usize> },
    SetCapacity { max_capacity: usize },
}

/// The value at an index, if there is one.
pub open spec fn value_at<U>(t: TableView<U>, key: u32) -> Option<U> {
    if t.occupied(key) {
        match t.entry(key).value {
            Stored::Value(u) => Some(u),
            Stored::Tombstone => None,
        }
    } else {
        None
    }
}

/// The table after a call. A value uses what `figure` gives for it.
pub open spec fn after<U>(t: TableView<U>, call: Call<U>, figure: spec_fn(U) -> usize) -> TableView<
    U,
> {
    match call {
        Call::Push { value, parent } => t.push_outcome(value, figure(value), parent).0,
        Call::Change { key, value, right_type } => match value_at(t, key) {
            Some(was) if right_type => t.with_value(key, Stored::Value(value)).adjust_outcome(
                figure(was),
                figure(value),
            ).0,
            _ => t,
        },
        Call::Replace { key, value } => match value_at(t, key) {
            Some(_) => t.with_value(key, Stored::Value(value)),
            None => t,
        },
        Call::Delete { key, debug, right_type } => match (
            value_at(t, key),
            t.take_outcome(key, debug),
        ) {
            (Some(was), (r, Ok(_))) if right_type => r.with_usage(
                r.adjusted_usage(figure(was), 0),
            ),
            _ => t,
        },
        Call::Retain { size } => t.retain_outcome(size).0,
        Call::Release { size } => t.release_outcome(size),
        Call::AddChild { child, parent } => t.add_child_outcome(child, parent).0,
        Call::RemoveChild { child, parent } => t.remove_child_outcome(child, parent).0,
        Call::SetLimit { limit } => TableView { limit, ..t },
        Call::SetCapacity { max_capacity } => TableView { max_capacity, ..t },
    }
}

/// By how much a call changes what is retained beside the resources.
pub open spec fn retained_by<U>(t: TableView<U>, call: Call<U>) -> int {
    match call {
        Call::Retain { size } => if t.retain_outcome(size).1 is Ok {
            size as int
        } else {
            0
        },
        Call::Release { size } => -(size as int),
        _ => 0,
    }
}

/// The call is made as it is meant to be, with `beside` bytes retained, and the
/// total that it leads to is representable. A change through a plain reference
/// is one of a value of fixed footprint, and only what was retained is released.
pub open spec fn proper<U>(
    t: TableView<U>,
    beside: int,
    call: Call<U>,
    figure: spec_fn(U) -> usize,
) -> bool {
    match call {
        Call::Push { value, parent } => t.push_outcome(value, figure(value), parent).1 is Ok
            ==> t.usage + figure(value) <= usize::MAX,
        Call::Change { key, value, right_type } => right_type ==> (value_at(t, key) matches
            Some(was) ==> t.usage - figure(was) + figure(value) <= usize::MAX),
        Call::Replace { key, value } => value_at(t, key) matches Some(was) ==> figure(was)
            == figure(value),
        Call::Retain { size } => t.retain_outcome(size).1 is Ok ==> t.usage + size <= usize::MAX,
        Call::Release { size } => size <= beside,
        Call::AddChild { child, parent } => t.parent_of(child) is None,
        Call::RemoveChild { child, parent } => t.occupied(child) ==> t.parent_of(child) == Some(
            parent,
        ),
        _ => true,
    }
}

/// A new table after the calls.
pub open spec fn run<U>(calls: Seq<Call<U>>, figure: spec_fn(U) -> usize) -> TableView<U>
    decreases calls.len(),
{
    if calls.len() == 0 {
        TableView::empty(DEFAULT_MAX_CAPACITY)
    } else {
        after(run(calls.drop_last(), figure), calls.last(), figure)
    }
}

/// What the calls have retained and not released.
pub open spec fn retained<U>(calls: Seq<Call<U>>, figure: spec_fn(U) -> usize) -> int
    decreases calls.len(),
{
    if calls.len() == 0 {
        0
    } else {
        retained(calls.drop_last(), figure) + retained_by(
            run(calls.drop_last(), figure),
            calls.last(),
        )
    }
}

/// Each of the calls is proper when it is made.
pub open spec fn all_proper<U>(calls: Seq<Call<U>>, figure: spec_fn(U) -> usize) -> bool
    decreases calls.len(),
{
    calls.len() == 0 || {
        &&& all_proper(calls.drop_last(), figure)
        &&& proper(
            run(calls.drop_last(), figure),
            retained(calls.drop_last(), figure),
            calls.last(),
            figure,
        )
    }
}

/// What each slot costs: what the resource uses that it holds.
pub open spec fn costs<U>(t: TableView<U>, figure: spec_fn(U) -> usize) -> Seq<nat> {
    Seq::new(
        t.slots.len(),
        |k: int|
            match t.slots[k] {
                Some(e) => match e.value {
                    Stored::Value(u) => figure(u) as nat,
                    Stored::Tombstone => 0,
                },
                None => 0,
            },
    )
}

/// The sum of what the resources use that a table holds.
pub open spec fn held<U>(t: TableView<U>, figure: spec_fn(U) -> usize) -> nat {
    crate::component::table_laws::total(costs(t, figure))
}

proof fn lemma_call_keeps_inv<U>(
    t: TableView<U>,
    beside: int,
    call: Call<U>,
    figure: spec_fn(U) -> usize,
)
    requires
        t.inv(),
        proper(t, beside, call, figure),
    ensures
        after(t, call, figure).inv(),
{
    match call {
        Call::Push { value, parent } => {
            crate::component::table_view::lemma_push_keeps_inv(t, value, figure(value), parent);
        },
        Call::Change { key, value, right_type } => {
            if value_at(t, key) is Some && right_type {
                let r = t.with_value(key, Stored::Value(value));
                crate::component::table_view::lemma_with_value_keeps_inv(
                    t,
                    key,
                    Stored::Value(value),
                );
                crate::component::table_view::lemma_same_slots_keep_inv(
                    r,
                    r.with_usage(after(t, call, figure).usage),
                );
            }
        },
        Call::Replace { key, value } => {
            if value_at(t, key) is Some {
                crate::component::table_view::lemma_with_value_keeps_inv(
                    t,
                    key,
                    Stored::Value(value),
                );
            }
        },
        Call::Delete { key, debug, right_type } => {
            crate::component::table_view::lemma_take_keeps_inv(t, key, debug);
            let taken = t.take_outcome(key, debug).0;
            crate::component::table_view::lemma_same_slots_keep_inv(
                taken,
                taken.with_usage(after(t, call, figure).usage),
            );
        },
        Call::Retain { .. } | Call::Release { .. } => {
            crate::component::table_view::lemma_same_slots_keep_inv(
                t,
                after(t, call, figure),
            );
        },
        Call::AddChild { child, parent } => {
            crate::component::table_view::lemma_add_child_keeps_inv(t, child, parent);
        },
        Call::RemoveChild { child, parent } => {
            crate::component::table_view::lemma_remove_child_keeps_inv(t, child, parent);
        },
        Call::SetLimit { .. } | Call::SetCapacity { .. } => {
            let r = after(t, call, figure);
            assert(t.same_shape(TableView { max_capacity: t.max_capacity, limit: t.limit, ..r }));
            assert forall|p: u32, c: u32| #[trigger]
                r.has_child(p, c) <==> r.parent_of(c) == Some(p) by {
                assert(t.has_child(p, c) <==> t.parent_of(c) == Some(p));
            }
        },
    }
}

proof fn lemma_call_keeps_account<U>(
    t: TableView<U>,
    beside: int,
    call: Call<U>,
    figure: spec_fn(U) -> usize,
)
    requires
        t.inv(),
        proper(t, beside, call, figure),
        beside >= 0,
        t.usage == held(t, figure) + beside,
    ensures
        ({
            let r = after(t, call, figure);
            r.usage == held(r, figure) + beside + retained_by(t, call)
        }),
        beside + retained_by(t, call) >= 0,
{
    let r = after(t, call, figure);
    let c = costs(t, figure);
    let d = costs(r, figure);
    match call {
        Call::Push { value, parent } => {
            crate::component::table_view::lemma_push_keeps_inv(t, value, figure(value), parent);
            if t.push_outcome(value, figure(value), parent).1 is Ok {
                let ix = t.next_slot()->0 as int;
                if t.free.len() > 0 {
                    assert(t.slots[t.free[0]] is None);
                    crate::component::table_laws::lemma_total_update(c, ix, figure(value) as nat);
                    assert(d =~= c.update(ix, figure(value) as nat));
                } else {
                    assert(d =~= c.push(figure(value) as nat));
                    assert(d.drop_last() =~= c);
                }
            }
        },
        Call::Change { key, value, right_type } => {
            if value_at(t, key) is Some && right_type {
                crate::component::table_laws::lemma_total_update(
                    c,
                    key as int,
                    figure(value) as nat,
                );
                assert(d =~= c.update(key as int, figure(value) as nat));
            }
        },
        Call::AddChild { child, parent } => {
            crate::component::table_view::lemma_add_child_keeps_inv(t, child, parent);
            assert(d =~= c);
        },
        Call::RemoveChild { child, parent } => {
            crate::component::table_view::lemma_remove_child_keeps_inv(t, child, parent);
            assert(d =~= c);
        },
        Call::Delete { key, debug, right_type } => {
            crate::component::table_view::lemma_take_keeps_inv(t, key, debug);
            if value_at(t, key) is Some && t.take_outcome(key, debug).1 is Ok && right_type {
                crate::component::table_laws::lemma_total_update(c, key as int, 0);
                assert(d =~= c.update(key as int, 0));
            }
        },
        _ => {
            assert(d =~= c);
        },
    }
}

/// After any calls the tracked usage is the sum of what the resources use that
/// are held, and of what is retained beside them, whether or not any of the
/// calls was refused. The table is in order.
pub proof fn law_total_is_what_is_held<U>(calls: Seq<Call<U>>, figure: spec_fn(U) -> usize)
    requires
        all_proper(calls, figure),
    ensures
        run(calls, figure).inv(),
        retained(calls, figure) >= 0,
        run(calls, figure).usage == held(run(calls, figure), figure) + retained(calls, figure),
    decreases calls.len(),
{
    if calls.len() > 0 {
        let before = calls.drop_last();
        law_total_is_what_is_held(before, figure);
        let t = run(before, figure);
        lemma_call_keeps_inv(t, retained(before, figure), calls.last(), figure);
        lemma_call_keeps_account(t, retained(before, figure), calls.last(), figure);
    } else {
        assert(costs(run(calls, figure), figure) =~= Seq::<nat>::empty());
    }
}

/// The operations under a handle of type `T` are calls: a deletion, a change in
/// place, and a change through a borrow that was let go of, once it is accounted
/// for.
pub proof fn law_operations_are_calls<U: HostHeapUsage, T: Erase<U>>(
    t: TableView<U>,
    key: u32,
    debug: bool,
    value: T,
    figure: spec_fn(U) -> usize,
)
    ensures
        ({
            let right_type = t.get_outcome::<T>(key) is Ok;
            let usage = figure(value_at(t, key)->0);
            after(t, Call::Delete { key, debug, right_type }, figure) == t.delete_outcome::<T>(
                key,
                debug,
                usage,
            ).0
        }),
        ({
            let right_type = t.get_outcome::<T>(key) is Ok;
            let changed = t.with_value(key, Stored::Value(value.erased()));
            let call = Call::Change { key, value: value.erased(), right_type };
            after(t, call, figure) == (match t.get_outcome::<T>(key) {
                Ok(was) => changed.adjust_outcome(figure(was.erased()), figure(value.erased())).0,
                Err(_) => t,
            })
        }),
        forall|settled: TableView<U>|
            t.get_outcome::<T>(key) is Ok && t.borrowed is None && (forall|bytes: usize| #[trigger]
                value.reports(bytes) ==> bytes == figure(value.erased()))
                && #[trigger] t.with_value(key, Stored::Value(value.erased())).with_borrowed(
                Some((key, figure(value_at(t, key)->0))),
            ).settles_to(settled) ==> settled == after(
                t,
                Call::Change { key, value: value.erased(), right_type: true },
                figure,
            ),
{
    assert forall|bytes: usize| #[trigger] value.erased().reports(bytes) implies value.reports(
        bytes,
    ) by {
        value.usage_is_kept(bytes);
    }
    if value_at(t, key) is Some {
        T::found_is_stored(value_at(t, key)->0);
    }
}

} // verus!
