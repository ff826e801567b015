use std::sync::Arc;
use wasmhost::component::erase::Erase;
use wasmhost::component::error::ResourceTableError;
use wasmhost::component::resource::Resource;
use wasmhost::component::resource_table::ResourceTable;
use wasmhost::component::resources::{FixedHostHeapUsage, HostHeapUsage};
use wasmhost::contref::{ContRef, GcRootIndex, HeapType, Unrooted};
use wasmhost::tls::{
    client_connection_close_output, client_connection_drop, client_handshake_drop,
    client_handshake_finish, client_handshake_new, deliver, future_client_streams_drop,
    future_client_streams_get, push_measured_connection, FutureOutput, HostClientConnection,
    HostClientHandshake, HostFutureClientStreams,
};
use wasmhost::udp::{
    IncomingDatagramStream, OutgoingDatagramStream, SocketAddr, SocketAddressFamily,
};

#[derive(Debug, PartialEq)]
struct Input(u8);

#[derive(Debug, PartialEq)]
struct Output(u8);

#[derive(Debug, PartialEq)]
struct Failure(String);

impl FixedHostHeapUsage for Input {}

impl FixedHostHeapUsage for Output {}

impl HostHeapUsage for Failure {
    fn reports(&self, bytes: usize) -> bool {
        bytes == self.host_heap_usage()
    }

    fn host_heap_usage(&self) -> usize {
        self.0.capacity()
    }
}

type Ready = Result<(HostClientConnection<bool>, Input, Output), Failure>;

type Handshake = HostClientHandshake<(u8, u8)>;

type Future = HostFutureClientStreams<Option<Ready>>;

type Connection = HostClientConnection<bool>;

enum Any {
    Input(Input),
    Output(Output),
    Failure(Failure),
    Handshake(Handshake),
    Future(Future),
    Connection(Connection),
}

impl HostHeapUsage for Any {
    fn reports(&self, bytes: usize) -> bool {
        bytes == self.host_heap_usage()
    }

    fn host_heap_usage(&self) -> usize {
        match self {
            Any::Input(t) => t.host_heap_usage(),
            Any::Output(t) => t.host_heap_usage(),
            Any::Failure(t) => t.host_heap_usage(),
            Any::Handshake(t) => t.host_heap_usage(),
            Any::Future(t) => t.host_heap_usage(),
            Any::Connection(t) => t.host_heap_usage(),
        }
    }
}

impl Erase<Any> for Input {
    fn erased(self) -> Any {
        self.erase()
    }

    fn recovered(u: Any) -> Option<Input> {
        Self::downcast(u).ok()
    }

    fn stored_is_found(self) {}

    fn found_is_stored(_: Any) {}

    fn usage_is_kept(self, _: usize) {}

    fn erase(self) -> Any {
        Any::Input(self)
    }

    fn downcast(u: Any) -> Result<Input, Any> {
        match u {
            Any::Input(t) => Ok(t),
            other => Err(other),
        }
    }

    fn downcast_ref(u: &Any) -> Option<&Input> {
        match u {
            Any::Input(t) => Some(t),
            _ => None,
        }
    }

    fn downcast_mut(u: &mut Any) -> Option<&mut Input> {
        match u {
            Any::Input(t) => Some(t),
            _ => None,
        }
    }
}

impl Erase<Any> for Output {
    fn erased(self) -> Any {
        self.erase()
    }

    fn recovered(u: Any) -> Option<Output> {
        Self::downcast(u).ok()
    }

    fn stored_is_found(self) {}

    fn found_is_stored(_: Any) {}

    fn usage_is_kept(self, _: usize) {}

    fn erase(self) -> Any {
        Any::Output(self)
    }

    fn downcast(u: Any) -> Result<Output, Any> {
        match u {
            Any::Output(t) => Ok(t),
            other => Err(other),
        }
    }

    fn downcast_ref(u: &Any) -> Option<&Output> {
        match u {
            Any::Output(t) => Some(t),
            _ => None,
        }
    }

    fn downcast_mut(u: &mut Any) -> Option<&mut Output> {
        match u {
            Any::Output(t) => Some(t),
            _ => None,
        }
    }
}

impl Erase<Any> for Failure {
    fn erased(self) -> Any {
        self.erase()
    }

    fn recovered(u: Any) -> Option<Failure> {
        Self::downcast(u).ok()
    }

    fn stored_is_found(self) {}

    fn found_is_stored(_: Any) {}

    fn usage_is_kept(self, _: usize) {}

    fn erase(self) -> Any {
        Any::Failure(self)
    }

    fn downcast(u: Any) -> Result<Failure, Any> {
        match u {
            Any::Failure(t) => Ok(t),
            other => Err(other),
        }
    }

    fn downcast_ref(u: &Any) -> Option<&Failure> {
        match u {
            Any::Failure(t) => Some(t),
            _ => None,
        }
    }

    fn downcast_mut(u: &mut Any) -> Option<&mut Failure> {
        match u {
            Any::Failure(t) => Some(t),
            _ => None,
        }
    }
}

impl Erase<Any> for Handshake {
    fn erased(self) -> Any {
        self.erase()
    }

    fn recovered(u: Any) -> Option<Handshake> {
        Self::downcast(u).ok()
    }

    fn stored_is_found(self) {}

    fn found_is_stored(_: Any) {}

    fn usage_is_kept(self, _: usize) {}

    fn erase(self) -> Any {
        Any::Handshake(self)
    }

    fn downcast(u: Any) -> Result<Handshake, Any> {
        match u {
            Any::Handshake(t) => Ok(t),
            other => Err(other),
        }
    }

    fn downcast_ref(u: &Any) -> Option<&Handshake> {
        match u {
            Any::Handshake(t) => Some(t),
            _ => None,
        }
    }

    fn downcast_mut(u: &mut Any) -> Option<&mut Handshake> {
        match u {
            Any::Handshake(t) => Some(t),
            _ => None,
        }
    }
}

impl Erase<Any> for Future {
    fn erased(self) -> Any {
        self.erase()
    }

    fn recovered(u: Any) -> Option<Future> {
        Self::downcast(u).ok()
    }

    fn stored_is_found(self) {}

    fn found_is_stored(_: Any) {}

    fn usage_is_kept(self, _: usize) {}

    fn erase(self) -> Any {
        Any::Future(self)
    }

    fn downcast(u: Any) -> Result<Future, Any> {
        match u {
            Any::Future(t) => Ok(t),
            other => Err(other),
        }
    }

    fn downcast_ref(u: &Any) -> Option<&Future> {
        match u {
            Any::Future(t) => Some(t),
            _ => None,
        }
    }

    fn downcast_mut(u: &mut Any) -> Option<&mut Future> {
        match u {
            Any::Future(t) => Some(t),
            _ => None,
        }
    }
}

impl Erase<Any> for Connection {
    fn erased(self) -> Any {
        self.erase()
    }

    fn recovered(u: Any) -> Option<Connection> {
        Self::downcast(u).ok()
    }

    fn stored_is_found(self) {}

    fn found_is_stored(_: Any) {}

    fn usage_is_kept(self, _: usize) {}

    fn erase(self) -> Any {
        Any::Connection(self)
    }

    fn downcast(u: Any) -> Result<Connection, Any> {
        match u {
            Any::Connection(t) => Ok(t),
            other => Err(other),
        }
    }

    fn downcast_ref(u: &Any) -> Option<&Connection> {
        match u {
            Any::Connection(t) => Some(t),
            _ => None,
        }
    }

    fn downcast_mut(u: &mut Any) -> Option<&mut Connection> {
        match u {
            Any::Connection(t) => Some(t),
            _ => None,
        }
    }
}

/// Hands the result out once.
fn poll(future: &mut Option<Ready>) -> FutureOutput<Ready> {
    match future.take() {
        Some(ready) => FutureOutput::Ready(ready),
        None => FutureOutput::Consumed,
    }
}

fn handshake(table: &mut ResourceTable<Any>) -> Resource<Handshake> {
    let input = table.push(Input(1)).unwrap();
    let output = table.push(Output(2)).unwrap();
    let name = String::from("host");
    match client_handshake_new(table, name, input, output, |i: Input, o: Output| (i.0, o.0)) {
        Ok(h) => h,
        Err(e) => panic!("{:?}", e),
    }
}

#[test]
fn a_handshake_runs_from_streams_to_streams() {
    let mut table = ResourceTable::<Any>::new();
    let h = handshake(&mut table);
    // The streams left the table, and the last index is used again.
    assert_eq!(h.rep(), 1);
    assert_eq!(table.fmt(), "[1]");
    assert_eq!(table.get(&h).map(|h| h.server_name.as_str()).ok(), Some("host"));

    let future = client_handshake_finish(&mut table, h, |name: String, tr: (u8, u8)| {
        assert_eq!(name, "host");
        Some(Ok((HostClientConnection(false), Input(tr.0), Output(tr.1))))
    });
    let key = match future {
        Ok(f) => f.rep(),
        Err(e) => panic!("{:?}", e),
    };

    let got = future_client_streams_get(&mut table, Resource::<Future>::new_own(key), poll);
    let (client, input, output) = match got {
        Ok(Some(Ok(Ok(streams)))) => streams,
        _ => panic!("the streams are ready"),
    };
    assert_eq!(table.get(&input).unwrap(), &Input(1));
    assert_eq!(table.get(&output).unwrap(), &Output(2));

    // The second time the result is gone.
    let got = future_client_streams_get(&mut table, Resource::<Future>::new_own(key), poll);
    assert!(matches!(got, Ok(Some(Err(())))));
    assert!(future_client_streams_drop(&mut table, Resource::<Future>::new_own(key)).is_ok());

    // The connection outlives its streams.
    let c = client.rep();
    let closed = client_connection_close_output(
        &mut table,
        Resource::<Connection>::new_own(c),
        |open: &mut bool| {
            *open = true;
            7
        },
    );
    assert!(matches!(closed, Ok(7)));
    assert!(
        matches!(table.get(&Resource::<Connection>::new_own(c)), Ok(HostClientConnection(true))),
    );
    assert!(matches!(
        client_connection_drop(&mut table, Resource::<Connection>::new_own(c)),
        Err(ResourceTableError::HasChildren)
    ));
    table.delete(input).unwrap();
    table.delete(output).unwrap();
    assert!(client_connection_drop(&mut table, client).is_ok());
    assert!(table.is_empty());
    assert_eq!(table.current_host_heap_usage(), 0);
}

#[test]
fn a_missing_stream_stops_a_handshake() {
    let mut table = ResourceTable::<Any>::new();
    let input = table.push(Input(1)).unwrap();
    let missing = Resource::<Output>::new_own(9);
    let r = client_handshake_new(
        &mut table,
        String::from("host"),
        input,
        missing,
        |i: Input, o: Output| (i.0, o.0),
    );
    assert!(matches!(r, Err(ResourceTableError::NotPresent)));
    // The stream that was there is gone all the same.
    assert!(table.is_empty());
}

#[test]
fn a_handshake_can_be_dropped() {
    let mut table = ResourceTable::<Any>::new();
    let h = handshake(&mut table);
    assert!(client_handshake_drop(&mut table, h).is_ok());
    assert!(table.is_empty());
    let gone = Resource::<Handshake>::new_own(1);
    assert!(matches!(
        client_handshake_drop(&mut table, gone),
        Err(ResourceTableError::NotPresent)
    ));
    let gone = Resource::<Handshake>::new_own(1);
    let r = client_handshake_finish(&mut table, gone, |_: String, _: (u8, u8)| -> Option<Ready> {
        None
    });
    assert!(matches!(r, Err(ResourceTableError::NotPresent)));
}

#[test]
fn a_failed_handshake_gives_an_error() {
    let mut table = ResourceTable::<Any>::new();
    let r = deliver::<Any, bool, Input, Output, Failure>(
        &mut table,
        FutureOutput::Ready(Err(Failure(String::from("refused")))),
    );
    let error = match r {
        Ok(Some(Ok(Err(error)))) => error,
        _ => panic!("the handshake failed"),
    };
    assert_eq!(table.get(&error).unwrap(), &Failure(String::from("refused")));
    let r = deliver::<Any, bool, Input, Output, Failure>(&mut table, FutureOutput::Pending);
    assert!(matches!(r, Ok(None)));
    assert_eq!(table.fmt(), "[0]");
}

#[test]
fn a_connection_that_does_not_fit_stays_in_part() {
    let mut table = ResourceTable::<u32>::new();
    table.set_max_host_heap_usage(Some(30));
    let r = push_measured_connection(&mut table, (1, 10), (2, 20), (3, 30));
    assert_eq!(r, Err(ResourceTableError::HostMemoryLimitExceeded));
    assert_eq!(table.fmt(), "[0, 1]");
    assert_eq!(table.current_host_heap_usage(), 30);
    let mut table = ResourceTable::<u32>::new();
    assert_eq!(push_measured_connection(&mut table, (1, 1), (2, 1), (3, 1)), Ok((0, 1, 2)));
}

#[test]
fn the_future_must_be_there() {
    let mut table = ResourceTable::<Any>::new();
    let wrong = table.push(Input(1)).unwrap();
    let r = future_client_streams_get(
        &mut table,
        Resource::<Future>::new_own(wrong.rep()),
        poll,
    );
    assert!(matches!(r, Err(ResourceTableError::WrongType)));
    let r = future_client_streams_get(&mut table, Resource::<Future>::new_own(5), poll);
    assert!(matches!(r, Err(ResourceTableError::NotPresent)));
    let r = client_connection_close_output(
        &mut table,
        Resource::<Connection>::new_own(5),
        |_: &mut bool| (),
    );
    assert!(matches!(r, Err(ResourceTableError::NotPresent)));
}

#[test]
fn a_handshake_counts_the_name() {
    let h = HostClientHandshake { server_name: String::from("example"), transport: 0u64 };
    assert_eq!(
        h.host_heap_usage(),
        core::mem::size_of::<HostClientHandshake<u64>>() + h.server_name.capacity()
    );
    assert_eq!(HostFutureClientStreams(0u64).host_heap_usage(), 8);
    assert_eq!(HostClientConnection(0u32).host_heap_usage(), 4);
}

#[test]
fn datagram_streams_have_a_fixed_size() {
    let runtime = tokio::runtime::Builder::new_current_thread().enable_io().build().unwrap();
    let socket = runtime.block_on(tokio::net::UdpSocket::bind("127.0.0.1:0")).unwrap();
    let socket = Arc::new(socket);
    let incoming = IncomingDatagramStream {
        inner: socket.clone(),
        remote_address: Some(SocketAddr::V4 { ip: 0x7f00_0001, port: 80 }),
    };
    assert_eq!(incoming.host_heap_usage(), core::mem::size_of::<IncomingDatagramStream>());
    let outgoing = OutgoingDatagramStream::<()> {
        inner: socket,
        remote_address: None,
        family: SocketAddressFamily::Ipv4,
        socket_addr_check: None,
        check_send_permit_count: 0,
    };
    assert_eq!(outgoing.host_heap_usage(), core::mem::size_of::<OutgoingDatagramStream<()>>());
}

#[test]
fn continuation_references() {
    let r = ContRef::from_index(GcRootIndex { store_id: 3, place: 8 });
    assert_eq!(r.to_raw(true), Ok(0));
    assert_eq!(r.to_raw(false), Err(Unrooted));
    assert_eq!(ContRef::_from_raw(0), None);
    assert_eq!(r._matches_ty(&HeapType::Cont), Ok(true));
    assert_eq!(r._matches_ty(&HeapType::ConcreteCont(4)), Ok(true));
    assert_eq!(r._matches_ty(&HeapType::Other(4)), Ok(false));
    assert!(r.comes_from_same_store(3));
    assert!(!r.comes_from_same_store(4));
}
