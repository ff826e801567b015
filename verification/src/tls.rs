//! Client connections over TLS: the resources that a guest sees of them, and how
//! they come and go in the resource table.
//!
//! The handshake itself, the streams and the waiting are done outside; they are
//! handed in as closures.

use crate::component::erase::{Erase, Stored};
use crate::component::error::ResourceTableError;
use crate::component::resource::Resource;
use crate::component::resource_table::{ResourceTable, DELETE_WITH_TOMBSTONE};
use crate::component::resources::{buffer_usage, FixedHostHeapUsage, HostHeapUsage};
use crate::component::table_view::TableView;
use vstd::prelude::*;

verus! {

/// Represents the handshake which will be used to configure the connection: the
/// name of the server, and the transport `Tr` to it.
pub struct HostClientHandshake<Tr> {
    pub server_name: String,
    pub transport: Tr,
}

/// The inline size and the buffer of the name, by its capacity. What the
/// transport owns is not known.
impl<Tr> HostHeapUsage for HostClientHandshake<Tr> {
    open spec fn reports(&self, bytes: usize) -> bool {
        exists|capacity: usize| #[trigger]
            call_ensures(String::capacity, (&self.server_name,), capacity) && bytes
                == crate::component::resources::reported(
                vstd::layout::size_of::<HostClientHandshake<Tr>>() + capacity,
            )
    }

    fn host_heap_usage(&self) -> (bytes: usize) {
        let capacity: usize = self.server_name.capacity();
        buffer_usage(core::mem::size_of::<HostClientHandshake<Tr>>(), capacity)
    }
}

/// Provides the streams once the handshake is completed, from the future `F`.
pub struct HostFutureClientStreams<F>(pub F);

/// The inline size. What the future owns changes as it completes, and is not
/// known.
impl<F> HostHeapUsage for HostFutureClientStreams<F> {
    open spec fn reports(&self, bytes: usize) -> bool {
        bytes as nat == vstd::layout::size_of::<HostFutureClientStreams<F>>()
    }

    fn host_heap_usage(&self) -> (bytes: usize) {
        core::mem::size_of::<HostFutureClientStreams<F>>()
    }
}

/// Represents the connection, and is used to shut it down.
pub struct HostClientConnection<C>(pub C);

/// To close a connection changes its state, but not its size.
impl<C> FixedHostHeapUsage for HostClientConnection<C> {

}

/// What a future has to offer.
pub enum FutureOutput<T> {
    /// The result, for the first time.
    Ready(T),
    /// The result was handed out before.
    Consumed,
    /// There is no result yet.
    Pending,
}

/// The handles that a completed handshake gives: the connection, its input and
/// its output.
pub type Streams<C, I, O> = (Resource<HostClientConnection<C>>, Resource<I>, Resource<O>);

/// Inserting a connection, and its input and output as children of it. If an
/// insertion is refused, those before it stay.
pub open spec fn connection_outcome<U>(
    t: TableView<U>,
    client: (U, usize),
    input: (U, usize),
    output: (U, usize),
) -> (TableView<U>, Result<(u32, u32, u32), ResourceTableError>) {
    match t.push_outcome(client.0, client.1, None) {
        (t1, Err(e)) => (t1, Err(e)),
        (t1, Ok(c)) => match t1.push_outcome(input.0, input.1, Some(c)) {
            (t2, Err(e)) => (t2, Err(e)),
            (t2, Ok(i)) => match t2.push_outcome(output.0, output.1, Some(c)) {
                (t3, Err(e)) => (t3, Err(e)),
                (t3, Ok(o)) => (t3, Ok((c, i, o))),
            },
        },
    }
}

/// The measured uses of a connection, its input and its output.
pub open spec fn measured3<C, I: HostHeapUsage, O: HostHeapUsage>(
    client: HostClientConnection<C>,
    input: I,
    output: O,
    a: usize,
    b: usize,
    c: usize,
) -> bool {
    client.reports(a) && input.reports(b) && output.reports(c)
}

/// `r` is the answer to, and `after` the table after, inserting a connection, its
/// input and its output, which use `a`, `b` and `c` bytes.
pub open spec fn connected<U, C, I, O>(
    before: TableView<U>,
    after: TableView<U>,
    client: (U, usize),
    input: (U, usize),
    output: (U, usize),
    r: Result<Streams<C, I, O>, ResourceTableError>,
) -> bool {
    let outcome = connection_outcome(before, client, input, output);
    &&& after == outcome.0
    &&& match (r, outcome.1) {
        (Ok((x, y, z)), Ok((i, j, k))) => {
            &&& x.index() == i && y.index() == j && z.index() == k
            &&& x.is_owned() && y.is_owned() && z.is_owned()
        },
        (Err(e), Err(f)) => e == f,
        _ => false,
    }
}

/// Inserts a connection, its input and its output, each with the bytes that it
/// uses, and returns their indices.
pub fn push_measured_connection<U: HostHeapUsage>(
    table: &mut ResourceTable<U>,
    client: (U, usize),
    input: (U, usize),
    output: (U, usize),
) -> (r: Result<(u32, u32, u32), ResourceTableError>)
    requires
        old(table).wf(),
    ensures
        final(table).wf(),
        exists|settled: TableView<U>|
            {
                &&& #[trigger] old(table)@.settles_to(settled)
                &&& (final(table)@, r) == connection_outcome(settled, client, input, output)
            },
{
    let c: u32 = match table.push_measured(client.0, client.1, None) {
        Ok(c) => c,
        Err(e) => return Err(e),
    };
    let i: u32 = match table.push_measured(input.0, input.1, Some(c)) {
        Ok(i) => i,
        Err(e) => return Err(e),
    };
    match table.push_measured(output.0, output.1, Some(c)) {
        Ok(o) => Ok((c, i, o)),
        Err(e) => Err(e),
    }
}

/// Inserts what a completed handshake gave.
pub fn push_connection<U: HostHeapUsage, C, I: Erase<U>, O: Erase<U>>(
    table: &mut ResourceTable<U>,
    client: HostClientConnection<C>,
    input: I,
    output: O,
) -> (r: Result<Streams<C, I, O>, ResourceTableError>) where HostClientConnection<C>: Erase<U>
    requires
        old(table).wf(),
    ensures
        final(table).wf(),
        exists|settled: TableView<U>|
            {
                &&& #[trigger] old(table)@.settles_to(settled)
                &&& exists|a: usize, b: usize, c: usize| #[trigger]
                    measured3(client, input, output, a, b, c) && connected(
                        settled,
                        final(table)@,
                        (client.erased(), a),
                        (input.erased(), b),
                        (output.erased(), c),
                        r,
                    )
            },
{
    table.settle();
    let ghost start = table@;
    let a: usize = client.host_heap_usage();
    let b: usize = input.host_heap_usage();
    let c: usize = output.host_heap_usage();
    assert(measured3(client, input, output, a, b, c));
    let ghost erased = (client.erased(), input.erased(), output.erased());
    let r = match push_measured_connection(
        table,
        (client.erase(), a),
        (input.erase(), b),
        (output.erase(), c),
    ) {
        Ok((x, y, z)) => Ok((Resource::new_own(x), Resource::new_own(y), Resource::new_own(z))),
        Err(e) => Err(e),
    };
    assert(connected(start, table@, (erased.0, a), (erased.1, b), (erased.2, c), r));
    r
}

/// `r` is the answer to, and `after` the table after, deleting the `T` at `key`,
/// which uses `usage` bytes.
pub open spec fn deleted<U: HostHeapUsage, T: Erase<U>>(
    before: TableView<U>,
    after: TableView<U>,
    key: u32,
    usage: usize,
    r: Result<T, ResourceTableError>,
) -> bool {
    &&& r matches Ok(t) ==> t.reports(usage)
    &&& (after, r) == before.delete_outcome::<T>(key, DELETE_WITH_TOMBSTONE, usage)
}

/// Takes a resource out of the table.
fn take<U: HostHeapUsage, T: Erase<U>>(table: &mut ResourceTable<U>, this: Resource<T>) -> (r:
    Result<T, ResourceTableError>)
    requires
        old(table).wf(),
        this.is_owned(),
    ensures
        final(table).wf(),
        exists|settled: TableView<U>|
            {
                &&& #[trigger] old(table)@.settles_to(settled)
                &&& exists|usage: usize| #[trigger]
                    deleted(settled, final(table)@, this.index(), usage, r)
            },
{
    table.settle();
    let ghost start = table@;
    let ghost key = this.index();
    let r = table.delete(this);
    proof {
        let usage = choose|usage: usize| #[trigger]
            crate::component::resource_table::measured(r, usage) && (table@, r)
                == start.delete_outcome::<T>(key, DELETE_WITH_TOMBSTONE, usage);
        assert(deleted(start, table@, key, usage, r));
    }
    r
}

/// A handshake was made by `join` of the streams, and `r` is the answer to, and
/// `after` the table after, inserting it.
pub open spec fn joined<U: HostHeapUsage, I, O, Tr, J: FnOnce(I, O) -> Tr>(
    before: TableView<U>,
    after: TableView<U>,
    server_name: String,
    input: I,
    output: O,
    join: J,
    transport: Tr,
    usage: usize,
    r: Result<Resource<HostClientHandshake<Tr>>, ResourceTableError>,
) -> bool where HostClientHandshake<Tr>: Erase<U> {
    let handshake = HostClientHandshake { server_name, transport };
    &&& join.ensures((input, output), transport)
    &&& handshake.reports(usage)
    &&& crate::component::resource_table::pushed(
        before,
        after,
        handshake.erased(),
        usage,
        None,
        r,
    )
}

/// Creates a handshake from the streams of a connection, which leave the table;
/// `join` makes them into a transport.
pub fn client_handshake_new<
    U: HostHeapUsage,
    I: Erase<U>,
    O: Erase<U>,
    Tr,
    J: FnOnce(I, O) -> Tr,
>(
    table: &mut ResourceTable<U>,
    server_name: String,
    input: Resource<I>,
    output: Resource<O>,
    join: J,
) -> (r: Result<Resource<HostClientHandshake<Tr>>, ResourceTableError>) where
    HostClientHandshake<Tr>: Erase<U>,

    requires
        old(table).wf(),
        input.is_owned(),
        output.is_owned(),
        forall|i: I, o: O|
            old(table)@.get_outcome::<I>(input.index()) == Ok::<I, ResourceTableError>(i)
                && old(table)@.get_outcome::<O>(output.index()) == Ok::<O, ResourceTableError>(o)
                ==> #[trigger] join.requires((i, o)),
    ensures
        final(table).wf(),
        exists|settled: TableView<U>|
            {
                &&& #[trigger] old(table)@.settles_to(settled)
                &&& exists|t1: TableView<U>, i: Result<I, ResourceTableError>, a: usize| #[trigger]
                    deleted(settled, t1, input.index(), a, i) && match i {
                        Err(e) => final(table)@ == t1 && (r matches Err(x) && x == e),
                        Ok(i) => exists|
                            t2: TableView<U>,
                            o: Result<O, ResourceTableError>,
                            b: usize,
                        | #[trigger]
                            deleted(t1, t2, output.index(), b, o) && match o {
                                Err(e) => final(table)@ == t2 && (r matches Err(x) && x == e),
                                Ok(o) => exists|transport: Tr, c: usize| #[trigger]
                                    joined(
                                        t2,
                                        final(table)@,
                                        server_name,
                                        i,
                                        o,
                                        join,
                                        transport,
                                        c,
                                        r,
                                    ),
                            },
                    }
            },
{
    table.settle();
    let ghost start = table@;
    let ghost keys = (input.index(), output.index());
    proof {
        table.law_table_in_order();
    }
    let i = take(table, input);
    let ghost t1 = table@;
    let ghost taken = i;
    let input = match i {
        Ok(i) => i,
        Err(e) => return Err(e),
    };
    let o = take(table, output);
    let ghost t2 = table@;
    let ghost second = o;
    let output = match o {
        Ok(o) => o,
        Err(e) => return Err(e),
    };
    let ghost streams = (input, output);
    let ghost join_ = join;
    proof {
        let a = choose|a: usize| #[trigger] deleted(start, t1, keys.0, a, taken);
        crate::component::table_laws::law_deletion_leaves_the_rest::<U, I, O>(
            start,
            keys.0,
            keys.1,
            DELETE_WITH_TOMBSTONE,
            a,
        );
        let b = choose|b: usize| #[trigger] deleted(t1, t2, keys.1, b, second);
        assert(t1.get_outcome::<O>(keys.1) == second);
    }
    let transport = join(input, output);
    let handshake = HostClientHandshake { server_name, transport };
    let ghost made = handshake;
    let r = table.push(handshake);
    proof {
        let c = choose|c: usize| #[trigger]
            made.reports(c) && crate::component::resource_table::pushed(
                t2,
                table@,
                made.erased(),
                c,
                None,
                r,
            );
        assert(joined(
            t2,
            table@,
            server_name,
            streams.0,
            streams.1,
            join_,
            made.transport,
            c,
            r,
        ));
    }
    r
}

/// The future that `connect` made of a handshake was inserted: `r` is the answer
/// and `after` the table.
pub open spec fn started<U: HostHeapUsage, Tr, F, K: FnOnce(String, Tr) -> F>(
    before: TableView<U>,
    after: TableView<U>,
    handshake: HostClientHandshake<Tr>,
    connect: K,
    future: F,
    usage: usize,
    r: Result<Resource<HostFutureClientStreams<F>>, ResourceTableError>,
) -> bool where HostFutureClientStreams<F>: Erase<U> {
    let streams = HostFutureClientStreams(future);
    &&& connect.ensures((handshake.server_name, handshake.transport), future)
    &&& streams.reports(usage)
    &&& crate::component::resource_table::pushed(before, after, streams.erased(), usage, None, r)
}

/// Starts a handshake, which leaves the table; `connect` makes it into a future
/// of the streams.
pub fn client_handshake_finish<U: HostHeapUsage, Tr, F, K: FnOnce(String, Tr) -> F>(
    table: &mut ResourceTable<U>,
    this: Resource<HostClientHandshake<Tr>>,
    connect: K,
) -> (r: Result<Resource<HostFutureClientStreams<F>>, ResourceTableError>) where
    HostClientHandshake<Tr>: Erase<U>,
    HostFutureClientStreams<F>: Erase<U>,

    requires
        old(table).wf(),
        this.is_owned(),
        forall|server_name: String, transport: Tr|
            old(table)@.get_outcome::<HostClientHandshake<Tr>>(this.index()) == Ok::<
                HostClientHandshake<Tr>,
                ResourceTableError,
            >(HostClientHandshake { server_name, transport }) ==> #[trigger] connect.requires(
                (server_name, transport),
            ),
    ensures
        final(table).wf(),
        exists|settled: TableView<U>|
            {
                &&& #[trigger] old(table)@.settles_to(settled)
                &&& exists|
                    t1: TableView<U>,
                    h: Result<HostClientHandshake<Tr>, ResourceTableError>,
                    a: usize,
                | #[trigger]
                    deleted(settled, t1, this.index(), a, h) && match h {
                        Err(e) => final(table)@ == t1 && (r matches Err(x) && x == e),
                        Ok(h) => exists|future: F, b: usize| #[trigger]
                            started(t1, final(table)@, h, connect, future, b, r),
                    }
            },
{
    let h = take(table, this);
    let ghost t1 = table@;
    let handshake = match h {
        Ok(h) => h,
        Err(e) => return Err(e),
    };
    let ghost taken = handshake;
    let ghost connect_ = connect;
    let future = connect(handshake.server_name, handshake.transport);
    let streams = HostFutureClientStreams(future);
    let ghost made = streams;
    let r = table.push(streams);
    proof {
        let b = choose|b: usize| #[trigger]
            made.reports(b) && crate::component::resource_table::pushed(
                t1,
                table@,
                made.erased(),
                b,
                None,
                r,
            );
        assert(started(t1, table@, taken, connect_, made.0, b, r));
    }
    r
}

/// Deletes a handshake that was not started.
pub fn client_handshake_drop<U: HostHeapUsage, Tr>(
    table: &mut ResourceTable<U>,
    this: Resource<HostClientHandshake<Tr>>,
) -> (r: Result<(), ResourceTableError>) where HostClientHandshake<Tr>: Erase<U>
    requires
        old(table).wf(),
        this.is_owned(),
    ensures
        final(table).wf(),
        exists|settled: TableView<U>|
            {
                &&& #[trigger] old(table)@.settles_to(settled)
                &&& exists|h: Result<HostClientHandshake<Tr>, ResourceTableError>, a: usize|
                    #[trigger] deleted(settled, final(table)@, this.index(), a, h)
                        && same_verdict(h, r)
            },
{
    drop_resource(table, this)
}

/// Both are fine, or both have the same error.
pub open spec fn same_verdict<T>(
    a: Result<T, ResourceTableError>,
    b: Result<(), ResourceTableError>,
) -> bool {
    match (a, b) {
        (Ok(_), Ok(())) => true,
        (Err(e), Err(f)) => e == f,
        _ => false,
    }
}

/// Deletes a resource and lets go of it.
fn drop_resource<U: HostHeapUsage, T: Erase<U>>(
    table: &mut ResourceTable<U>,
    this: Resource<T>,
) -> (r: Result<(), ResourceTableError>)
    requires
        old(table).wf(),
        this.is_owned(),
    ensures
        final(table).wf(),
        exists|settled: TableView<U>|
            {
                &&& #[trigger] old(table)@.settles_to(settled)
                &&& exists|t: Result<T, ResourceTableError>, a: usize|
                    #[trigger] deleted(settled, final(table)@, this.index(), a, t)
                        && same_verdict(t, r)
            },
{
    let t = take(table, this);
    let ghost gt = t;
    let r = match t {
        Ok(_) => Ok(()),
        Err(e) => Err(e),
    };
    assert(same_verdict(gt, r));
    r
}

/// What is asked of the future of a handshake: nothing yet, or for the first
/// time the handles to the streams or to an error, or that it was asked before.
pub type GetResult<C, I, O, E> = Option<Result<Result<Streams<C, I, O>, Resource<E>>, ()>>;

/// `r` is the answer to, and `after` the table after, a future gave `output`. What
/// was inserted was measured to use `usages` bytes.
pub open spec fn delivered<
    U: HostHeapUsage,
    C,
    I: Erase<U>,
    O: Erase<U>,
    E: Erase<U>,
>(
    before: TableView<U>,
    after: TableView<U>,
    output: FutureOutput<Result<(HostClientConnection<C>, I, O), E>>,
    usages: (usize, usize, usize),
    r: Result<GetResult<C, I, O, E>, ResourceTableError>,
) -> bool where HostClientConnection<C>: Erase<U> {
    match output {
        FutureOutput::Ready(Ok((client, input, output))) => {
            let outcome = connection_outcome(
                before,
                (client.erased(), usages.0),
                (input.erased(), usages.1),
                (output.erased(), usages.2),
            );
            &&& measured3(client, input, output, usages.0, usages.1, usages.2)
            &&& after == outcome.0
            &&& match (r, outcome.1) {
                (Ok(Some(Ok(Ok((x, y, z))))), Ok((i, j, k))) => {
                    &&& x.index() == i && y.index() == j && z.index() == k
                    &&& x.is_owned() && y.is_owned() && z.is_owned()
                },
                (Err(e), Err(f)) => e == f,
                _ => false,
            }
        },
        FutureOutput::Ready(Err(error)) => {
            let outcome = before.push_outcome(error.erased(), usages.0, None);
            &&& error.reports(usages.0)
            &&& after == outcome.0
            &&& match (r, outcome.1) {
                (Ok(Some(Ok(Err(x)))), Ok(i)) => x.index() == i && x.is_owned(),
                (Err(e), Err(f)) => e == f,
                _ => false,
            }
        },
        FutureOutput::Consumed => after == before && (r matches Ok(Some(Err(())))),
        FutureOutput::Pending => after == before && (r matches Ok(None)),
    }
}

/// Inserts what a future gave into the table, and returns the handles.
pub fn deliver<
    U: HostHeapUsage,
    C,
    I: Erase<U>,
    O: Erase<U>,
    E: Erase<U>,
>(
    table: &mut ResourceTable<U>,
    output: FutureOutput<Result<(HostClientConnection<C>, I, O), E>>,
) -> (r: Result<GetResult<C, I, O, E>, ResourceTableError>) where HostClientConnection<C>: Erase<U>
    requires
        old(table).wf(),
    ensures
        final(table).wf(),
        exists|settled: TableView<U>|
            {
                &&& #[trigger] old(table)@.settles_to(settled)
                &&& exists|usages: (usize, usize, usize)| #[trigger]
                    delivered(settled, final(table)@, output, usages, r)
            },
{
    table.settle();
    let ghost start = table@;
    let ghost offered = output;
    let ghost mut usages: (usize, usize, usize) = (0, 0, 0);
    let r = match output {
        FutureOutput::Ready(Ok((client, input, output))) => {
            let ghost (c, i, o) = (client, input, output);
            let pushed = push_connection(table, client, input, output);
            proof {
                let (x, y, z) = choose|x: usize, y: usize, z: usize| #[trigger]
                    measured3(c, i, o, x, y, z) && connected(
                        start,
                        table@,
                        (c.erased(), x),
                        (i.erased(), y),
                        (o.erased(), z),
                        pushed,
                    );
                usages = (x, y, z);
            }
            match pushed {
                Ok(streams) => Ok(Some(Ok(Ok(streams)))),
                Err(e) => Err(e),
            }
        },
        FutureOutput::Ready(Err(error)) => {
            let ghost er = error;
            let pushed = table.push(error);
            proof {
                let u = choose|u: usize| #[trigger]
                    er.reports(u) && crate::component::resource_table::pushed(
                        start,
                        table@,
                        er.erased(),
                        u,
                        None,
                        pushed,
                    );
                usages = (u, 0, 0);
            }
            match pushed {
                Ok(error) => Ok(Some(Ok(Err(error)))),
                Err(e) => Err(e),
            }
        },
        FutureOutput::Consumed => Ok(Some(Err(()))),
        FutureOutput::Pending => Ok(None),
    };
    assert(delivered(start, table@, offered, usages, r));
    r
}

/// Asks for the streams of a handshake; `poll` asks the future.
pub fn future_client_streams_get<
    U: HostHeapUsage,
    F,
    C,
    I: Erase<U>,
    O: Erase<U>,
    E: Erase<U>,
    P: FnOnce(&mut F) -> FutureOutput<Result<(HostClientConnection<C>, I, O), E>>,
>(
    table: &mut ResourceTable<U>,
    this: Resource<HostFutureClientStreams<F>>,
    poll: P,
) -> (r: Result<GetResult<C, I, O, E>, ResourceTableError>) where
    HostFutureClientStreams<F>: Erase<U>,
    HostClientConnection<C>: Erase<U>,

    requires
        old(table).wf(),
        forall|f: &mut F|
            old(table)@.get_outcome::<HostFutureClientStreams<F>>(this.index()) == Ok::<
                HostFutureClientStreams<F>,
                ResourceTableError,
            >(HostFutureClientStreams(*f)) ==> #[trigger] poll.requires((f,)),
    ensures
        final(table).wf(),
        exists|settled: TableView<U>|
            {
                &&& #[trigger] old(table)@.settles_to(settled)
                &&& match settled.get_outcome::<HostFutureClientStreams<F>>(this.index()) {
                    Err(e) => final(table)@ == settled && (r matches Err(x) && x == e),
                    Ok(streams) => exists|
                        f: &mut F,
                        output: FutureOutput<Result<(HostClientConnection<C>, I, O), E>>,
                        usages: (usize, usize, usize),
                    |
                        *f == streams.0 && #[trigger] poll.ensures((f,), output)
                            && #[trigger] delivered(
                            settled.with_value(
                                this.index(),
                                Stored::Value(HostFutureClientStreams(*final(f)).erased()),
                            ),
                            final(table)@,
                            output,
                            usages,
                            r,
                        ),
                }
            },
{
    let output = match table.get_any_mut(this.rep()) {
        Ok(stored) => match stored.downcast_mut::<HostFutureClientStreams<F>>() {
            Some(streams) => poll(&mut streams.0),
            None => return Err(ResourceTableError::WrongType),
        },
        Err(e) => return Err(e),
    };
    // The borrow ends before the table is changed again.
    deliver(table, output)
}

/// Deletes the future of a handshake.
pub fn future_client_streams_drop<U: HostHeapUsage, F>(
    table: &mut ResourceTable<U>,
    this: Resource<HostFutureClientStreams<F>>,
) -> (r: Result<(), ResourceTableError>) where HostFutureClientStreams<F>: Erase<U>
    requires
        old(table).wf(),
        this.is_owned(),
    ensures
        final(table).wf(),
        exists|settled: TableView<U>|
            {
                &&& #[trigger] old(table)@.settles_to(settled)
                &&& exists|t: Result<HostFutureClientStreams<F>, ResourceTableError>, a: usize|
                    #[trigger] deleted(settled, final(table)@, this.index(), a, t)
                        && same_verdict(t, r)
            },
{
    drop_resource(table, this)
}

/// Shuts down the output of a connection; `close` does so and says how it went.
pub fn client_connection_close_output<U: HostHeapUsage, C, R, K: FnOnce(&mut C) -> R>(
    table: &mut ResourceTable<U>,
    this: Resource<HostClientConnection<C>>,
    close: K,
) -> (r: Result<R, ResourceTableError>) where HostClientConnection<C>: Erase<U>
    requires
        old(table).wf(),
        forall|c: &mut C|
            old(table)@.get_outcome::<HostClientConnection<C>>(this.index()) == Ok::<
                HostClientConnection<C>,
                ResourceTableError,
            >(HostClientConnection(*c)) ==> #[trigger] close.requires((c,)),
    ensures
        final(table).wf(),
        exists|settled: TableView<U>|
            {
                &&& #[trigger] old(table)@.settles_to(settled)
                &&& match settled.get_outcome::<HostClientConnection<C>>(this.index()) {
                    Err(e) => final(table)@ == settled && (r matches Err(x) && x == e),
                    Ok(connection) => exists|c: &mut C, result: R|
                        {
                            &&& *c == connection.0
                            &&& #[trigger] close.ensures((c,), result)
                            &&& final(table)@ == settled.with_value(
                                this.index(),
                                Stored::Value(HostClientConnection(*final(c)).erased()),
                            )
                            &&& r matches Ok(x)
                            &&& x == result
                        },
                }
            },
{
    match table.get_mut(&this) {
        Ok(connection) => Ok(close(&mut connection.0)),
        Err(e) => Err(e),
    }
}

/// Deletes a connection.
pub fn client_connection_drop<U: HostHeapUsage, C>(
    table: &mut ResourceTable<U>,
    this: Resource<HostClientConnection<C>>,
) -> (r: Result<(), ResourceTableError>) where HostClientConnection<C>: Erase<U>
    requires
        old(table).wf(),
        this.is_owned(),
    ensures
        final(table).wf(),
        exists|settled: TableView<U>|
            {
                &&& #[trigger] old(table)@.settles_to(settled)
                &&& exists|t: Result<HostClientConnection<C>, ResourceTableError>, a: usize|
                    #[trigger] deleted(settled, final(table)@, this.index(), a, t)
                        && same_verdict(t, r)
            },
{
    drop_resource(table, this)
}

/// The streams of a connection are its children: each of the three is found
/// under its own handle, and the connection cannot be deleted before the
/// streams.
pub proof fn law_connection_outlives_its_streams<U: HostHeapUsage, C, I: Erase<U>, O: Erase<U>>(
    t: TableView<U>,
    client: HostClientConnection<C>,
    input: I,
    output: O,
    usages: (usize, usize, usize),
    debug: bool,
) where HostClientConnection<C>: Erase<U>
    requires
        t.inv(),
    ensures
        ({
            let (r, out) = connection_outcome(
                t,
                (client.erased(), usages.0),
                (input.erased(), usages.1),
                (output.erased(), usages.2),
            );
            out matches Ok((c, i, o)) ==> {
                &&& c != i && c != o && i != o
                &&& r.inv()
                &&& r.get_outcome::<HostClientConnection<C>>(c) == Ok::<
                    HostClientConnection<C>,
                    ResourceTableError,
                >(client)
                &&& r.get_outcome::<I>(i) == Ok::<I, ResourceTableError>(input)
                &&& r.get_outcome::<O>(o) == Ok::<O, ResourceTableError>(output)
                &&& r.parent_of(i) == Some(c) && r.parent_of(o) == Some(c)
                &&& r.take_outcome(c, debug).1 == Err::<
                    crate::component::table_view::EntryView<U>,
                    ResourceTableError,
                >(ResourceTableError::HasChildren)
            }
        }),
{
    client.stored_is_found();
    input.stored_is_found();
    output.stored_is_found();
    let (t1, x) = t.push_outcome(client.erased(), usages.0, None);
    crate::component::table_view::lemma_push_keeps_inv(t, client.erased(), usages.0, None);
    crate::component::table_laws::law_push_takes_an_unused_index(
        t,
        client.erased(),
        usages.0,
        None,
    );
    crate::component::table_laws::law_pushed_value_is_found(t, client, usages.0, None);
    if x is Ok {
        let c = x->Ok_0;
        let (t2, y) = t1.push_outcome(input.erased(), usages.1, Some(c));
        crate::component::table_view::lemma_push_keeps_inv(t1, input.erased(), usages.1, Some(c));
        crate::component::table_laws::law_push_takes_an_unused_index(
            t1,
            input.erased(),
            usages.1,
            Some(c),
        );
        crate::component::table_laws::law_pushed_value_is_found(t1, input, usages.1, Some(c));
        crate::component::table_laws::law_child_is_listed(t1, input.erased(), usages.1, c);
        if y is Ok {
            let i = y->Ok_0;
            let (t3, z) = t2.push_outcome(output.erased(), usages.2, Some(c));
            crate::component::table_view::lemma_push_keeps_inv(
                t2,
                output.erased(),
                usages.2,
                Some(c),
            );
            crate::component::table_laws::law_push_takes_an_unused_index(
                t2,
                output.erased(),
                usages.2,
                Some(c),
            );
            crate::component::table_laws::law_pushed_value_is_found(t2, output, usages.2, Some(c));
            crate::component::table_laws::law_child_is_listed(t2, output.erased(), usages.2, c);
            if z is Ok {
                crate::component::table_laws::law_parent_outlives_children(t3, c, i, debug);
            }
        }
    }
}

/// A future that is pending, or was asked before, changes nothing in the table.
pub proof fn law_nothing_new_changes_nothing<
    U: HostHeapUsage,
    C,
    I: Erase<U>,
    O: Erase<U>,
    E: Erase<U>,
>(
    before: TableView<U>,
    after: TableView<U>,
    output: FutureOutput<Result<(HostClientConnection<C>, I, O), E>>,
    usages: (usize, usize, usize),
    r: Result<GetResult<C, I, O, E>, ResourceTableError>,
) where HostClientConnection<C>: Erase<U>
    requires
        delivered(before, after, output, usages, r),
        output !is Ready,
    ensures
        after == before,
{
}

/// Without a limit on the usage, and with room at three indices more, a connection
/// is inserted. With a limit it is inserted if what the three use together keeps to
/// it; it is refused if it does not, and what was inserted before the refusal stays.
pub proof fn law_connection_is_inserted_if_there_is_room<U>(
    t: TableView<U>,
    client: (U, usize),
    input: (U, usize),
    output: (U, usize),
)
    requires
        t.inv(),
        t.slots.len() + 3 <= t.max_capacity,
        t.slots.len() + 3 <= u32::MAX,
        t.usage + client.1 + input.1 + output.1 <= usize::MAX,
    ensures
        ({
            let (r, out) = connection_outcome(t, client, input, output);
            let all = t.usage + client.1 + input.1 + output.1;
            let refused = Err::<(u32, u32, u32), ResourceTableError>(
                ResourceTableError::HostMemoryLimitExceeded,
            );
            match t.limit {
                Some(max) if all > max => {
                    &&& out == refused
                    &&& t.usage + client.1 > max ==> r == t
                    &&& t.usage + client.1 <= max && t.usage + client.1 + input.1 > max ==> r.usage
                        == t.usage + client.1
                    &&& t.usage + client.1 + input.1 <= max ==> r.usage == t.usage + client.1
                        + input.1
                },
                _ => out is Ok && r.usage == all,
            }
        }),
{
    let (t1, x) = t.push_outcome(client.0, client.1, None);
    crate::component::table_laws::law_insertion_is_refused_exactly(t, client.0, client.1, None);
    crate::component::table_view::lemma_push_keeps_inv(t, client.0, client.1, None);
    if x is Ok {
        let c = x->Ok_0;
        crate::component::table_laws::law_insertion_adds_one_entry(t, client.0, client.1, None);
        let (t2, y) = t1.push_outcome(input.0, input.1, Some(c));
        crate::component::table_laws::law_insertion_is_refused_exactly(
            t1,
            input.0,
            input.1,
            Some(c),
        );
        crate::component::table_view::lemma_push_keeps_inv(t1, input.0, input.1, Some(c));
        if y is Ok {
            crate::component::table_laws::law_insertion_adds_one_entry(
                t1,
                input.0,
                input.1,
                Some(c),
            );
            crate::component::table_laws::law_insertion_is_refused_exactly(
                t2,
                output.0,
                output.1,
                Some(c),
            );
            if t2.push_outcome(output.0, output.1, Some(c)).1 is Ok {
                crate::component::table_laws::law_insertion_adds_one_entry(
                    t2,
                    output.0,
                    output.1,
                    Some(c),
                );
            }
        }
    }
}

/// What a future gave is found under the handles that are returned, each under its
/// own: the connection, the input and the output, or the error. A future that was
/// asked before is answered so, and one that is pending has no answer.
pub proof fn law_delivered_handles_find_what_was_given<
    U: HostHeapUsage,
    C,
    I: Erase<U>,
    O: Erase<U>,
    E: Erase<U>,
>(
    before: TableView<U>,
    after: TableView<U>,
    output: FutureOutput<Result<(HostClientConnection<C>, I, O), E>>,
    usages: (usize, usize, usize),
    r: Result<GetResult<C, I, O, E>, ResourceTableError>,
) where HostClientConnection<C>: Erase<U>
    requires
        before.inv(),
        delivered(before, after, output, usages, r),
    ensures
        match (output, r) {
            (FutureOutput::Ready(Ok((client, i, o))), Ok(answer)) => {
                &&& answer matches Some(Ok(Ok((x, y, z))))
                &&& after.get_outcome::<HostClientConnection<C>>(x.index()) == Ok::<
                    HostClientConnection<C>,
                    ResourceTableError,
                >(client)
                &&& after.get_outcome::<I>(y.index()) == Ok::<I, ResourceTableError>(i)
                &&& after.get_outcome::<O>(z.index()) == Ok::<O, ResourceTableError>(o)
                &&& after.parent_of(y.index()) == Some(x.index())
                &&& after.parent_of(z.index()) == Some(x.index())
                &&& x.is_owned() && y.is_owned() && z.is_owned()
            },
            (FutureOutput::Ready(Err(error)), Ok(answer)) => {
                &&& answer matches Some(Ok(Err(x)))
                &&& after.get_outcome::<E>(x.index()) == Ok::<E, ResourceTableError>(error)
                &&& x.is_owned()
            },
            (FutureOutput::Consumed, _) => r matches Ok(Some(Err(()))),
            (FutureOutput::Pending, _) => r matches Ok(None),
            (_, Err(_)) => true,
        },
        before.limit is None && before.slots.len() + 3 <= before.max_capacity
            && before.slots.len() + 3 <= u32::MAX ==> r is Ok,
{
    match output {
        FutureOutput::Ready(Ok((client, i, o))) => {
            law_connection_outlives_its_streams(before, client, i, o, usages, true);
            lemma_unlimited_connection(
                before,
                (client.erased(), usages.0),
                (i.erased(), usages.1),
                (o.erased(), usages.2),
            );
        },
        FutureOutput::Ready(Err(error)) => {
            crate::component::table_laws::law_pushed_value_is_found(
                before,
                error,
                usages.0,
                None,
            );
            crate::component::table_laws::law_insertion_is_refused_exactly(
                before,
                error.erased(),
                usages.0,
                None,
            );
        },
        _ => {},
    }
}

/// Without a limit on the usage a connection is inserted if there is room.
proof fn lemma_unlimited_connection<U>(
    t: TableView<U>,
    client: (U, usize),
    input: (U, usize),
    output: (U, usize),
)
    requires
        t.inv(),
    ensures
        t.limit is None && t.slots.len() + 3 <= t.max_capacity && t.slots.len() + 3 <= u32::MAX
            ==> connection_outcome(t, client, input, output).1 is Ok,
{
    let (t1, x) = t.push_outcome(client.0, client.1, None);
    crate::component::table_laws::law_insertion_is_refused_exactly(t, client.0, client.1, None);
    crate::component::table_view::lemma_push_keeps_inv(t, client.0, client.1, None);
    if x is Ok {
        let c = x->Ok_0;
        crate::component::table_laws::law_insertion_adds_one_entry(t, client.0, client.1, None);
        let (t2, y) = t1.push_outcome(input.0, input.1, Some(c));
        crate::component::table_laws::law_insertion_is_refused_exactly(
            t1,
            input.0,
            input.1,
            Some(c),
        );
        crate::component::table_view::lemma_push_keeps_inv(t1, input.0, input.1, Some(c));
        if y is Ok {
            crate::component::table_laws::law_insertion_adds_one_entry(
                t1,
                input.0,
                input.1,
                Some(c),
            );
            crate::component::table_laws::law_insertion_is_refused_exactly(
                t2,
                output.0,
                output.1,
                Some(c),
            );
        }
    }
}

/// A handshake that was made is found under its handle, with the name of the
/// server and with what `join` made of the streams; it has no parent. A future that
/// was made of a handshake is found under its handle, and is what `connect` made of
/// the handshake.
pub proof fn law_handshake_is_found<
    U: HostHeapUsage,
    I,
    O,
    Tr,
    F,
    J: FnOnce(I, O) -> Tr,
    K: FnOnce(String, Tr) -> F,
>(
    before: TableView<U>,
    after: TableView<U>,
    handshake: HostClientHandshake<Tr>,
    input: I,
    output: O,
    join: J,
    connect: K,
    future: F,
    usage: usize,
    made: Result<Resource<HostClientHandshake<Tr>>, ResourceTableError>,
    begun: Result<Resource<HostFutureClientStreams<F>>, ResourceTableError>,
) where HostClientHandshake<Tr>: Erase<U>, HostFutureClientStreams<F>: Erase<U>
    requires
        before.inv(),
    ensures
        joined(
            before,
            after,
            handshake.server_name,
            input,
            output,
            join,
            handshake.transport,
            usage,
            made,
        ) ==> {
            &&& join.ensures((input, output), handshake.transport)
            &&& before.limit is None && before.slots.len() < before.max_capacity
                && before.slots.len() < u32::MAX ==> made is Ok
            &&& made matches Ok(h) ==> {
                &&& after.get_outcome::<HostClientHandshake<Tr>>(h.index()) == Ok::<
                    HostClientHandshake<Tr>,
                    ResourceTableError,
                >(handshake)
                &&& after.parent_of(h.index()) is None
                &&& h.is_owned()
            }
        },
        started(before, after, handshake, connect, future, usage, begun) ==> {
            &&& connect.ensures((handshake.server_name, handshake.transport), future)
            &&& before.limit is None && before.slots.len() < before.max_capacity
                && before.slots.len() < u32::MAX ==> begun is Ok
            &&& begun matches Ok(f) ==> {
                &&& after.get_outcome::<HostFutureClientStreams<F>>(f.index()) == Ok::<
                    HostFutureClientStreams<F>,
                    ResourceTableError,
                >(HostFutureClientStreams(future))
                &&& after.parent_of(f.index()) is None
                &&& f.is_owned()
            }
        },
{
    let streams = HostFutureClientStreams(future);
    crate::component::table_laws::law_pushed_value_is_found(before, handshake, usage, None);
    crate::component::table_laws::law_pushed_value_is_found(before, streams, usage, None);
    crate::component::table_laws::law_insertion_is_refused_exactly(
        before,
        handshake.erased(),
        usage,
        None,
    );
    crate::component::table_laws::law_insertion_is_refused_exactly(
        before,
        streams.erased(),
        usage,
        None,
    );
    if before.push_outcome(handshake.erased(), usage, None).1 is Ok {
        crate::component::table_laws::law_insertion_adds_one_entry(
            before,
            handshake.erased(),
            usage,
            None,
        );
    }
    if before.push_outcome(streams.erased(), usage, None).1 is Ok {
        crate::component::table_laws::law_insertion_adds_one_entry(
            before,
            streams.erased(),
            usage,
            None,
        );
    }
}

/// What is taken out of the table is what was there, and what it reports leaves
/// the tracked usage. It is not found after. Nothing is taken out if there is no
/// such value, or if it has children.
pub proof fn law_taken_resource_is_what_was_there<U: HostHeapUsage, T: Erase<U>>(
    before: TableView<U>,
    after: TableView<U>,
    key: u32,
    usage: usize,
    r: Result<T, ResourceTableError>,
)
    requires
        before.inv(),
        deleted(before, after, key, usage, r),
    ensures
        match r {
            Ok(t) => {
                &&& before.get_outcome::<T>(key) == Ok::<T, ResourceTableError>(t)
                &&& t.reports(usage)
                &&& after.get_outcome::<T>(key) is Err
                &&& usage <= before.usage ==> after.usage == before.usage - usage
            },
            Err(_) => after == before,
        },
        before.get_outcome::<T>(key) is Ok && (forall|c: u32|
            !#[trigger] before.entry(key).children.contains(c)) ==> r is Ok,
{
    crate::component::table_laws::law_deletion_is_refused_exactly::<U, T>(
        before,
        key,
        DELETE_WITH_TOMBSTONE,
        usage,
    );
    crate::component::table_laws::law_taking_is_refused_exactly(
        before,
        key,
        DELETE_WITH_TOMBSTONE,
    );
    crate::component::table_laws::law_lookup_finds_exactly_what_is_there::<U, T>(before, key);
    crate::component::table_laws::law_lookup_finds_exactly_what_is_there::<U, T>(after, key);
    if before.take_outcome(key, DELETE_WITH_TOMBSTONE).1 is Ok {
        crate::component::table_laws::law_taking_removes_one_entry(
            before,
            key,
            DELETE_WITH_TOMBSTONE,
        );
    }
}

/// A handshake has the bytes of its own place and of the buffer of the name, which
/// holds at least the name. A future has those of its own place alone.
pub proof fn law_handshake_usage<Tr, F>(
    h: HostClientHandshake<Tr>,
    f: HostFutureClientStreams<F>,
    bytes: usize,
)
    requires
        vstd::layout::size_of::<HostClientHandshake<Tr>>() + isize::MAX <= usize::MAX,
    ensures
        h.reports(bytes) ==> {
            let buffer = bytes - vstd::layout::size_of::<HostClientHandshake<Tr>>();
            vstd::utf8::encode_utf8(h.server_name@).len() <= buffer <= isize::MAX
        },
        f.reports(bytes) <==> bytes as nat == vstd::layout::size_of::<HostFutureClientStreams<F>>(),
{
}

} // verus!
