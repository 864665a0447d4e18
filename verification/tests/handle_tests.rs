use msquic::callback::{callback_status, raw_conn_callback};
use msquic::connection_event::{CONNECTION_EVENT_CONNECTED, CONNECTION_EVENT_SHUTDOWN_COMPLETE};
use msquic::handle::{OpenOutcome, OpenRequest};
use msquic::{
    Configuration, Connection, ConnectionEvent, ConnectionRef, Handle, HandleKind, Listener,
    ListenerRef, RawConnectionEvent, RawConnectionPayload, Registration, Status, StatusCode, Step,
    Stream, StreamOpenFlags, StreamRef,
};
use std::cell::RefCell;
use std::collections::HashMap;
use std::rc::Rc;

type ConnCallback = dyn FnMut(ConnectionRef, ConnectionEvent) -> Result<(), Status>;

/// A stand-in for the native library and for the allocator of callbacks: it
/// keeps a context slot for each open handle, counts the close calls, and
/// delivers a last event from inside the close call of a connection.
struct FakeTable {
    next_handle: Handle,
    next_context: usize,
    slots: HashMap<Handle, usize>,
    callbacks: HashMap<usize, Box<ConnCallback>>,
    close_calls: HashMap<Handle, usize>,
    released: Vec<usize>,
    fail_next_open: Option<u32>,
    trace: Vec<String>,
}

impl FakeTable {
    fn new() -> FakeTable {
        FakeTable {
            next_handle: 0x1000,
            next_context: 0x10,
            slots: HashMap::new(),
            callbacks: HashMap::new(),
            close_calls: HashMap::new(),
            released: Vec::new(),
            fail_next_open: None,
            trace: Vec::new(),
        }
    }

    fn box_callback(&mut self, callback: Box<ConnCallback>) -> usize {
        let context = self.next_context;
        self.next_context += 0x10;
        self.callbacks.insert(context, callback);
        context
    }

    fn get_context(&self, handle: Handle) -> usize {
        match self.slots.get(&handle) {
            Some(context) => *context,
            None => 0,
        }
    }

    fn closes(&self, handle: Handle) -> usize {
        match self.close_calls.get(&handle) {
            Some(count) => *count,
            None => 0,
        }
    }

    fn deliver(&mut self, handle: Handle, raw: RawConnectionEvent) -> u32 {
        let context = self.get_context(handle);
        assert!(raw.is_projectable());
        assert_ne!(context, 0, "no callback is attached");
        let (connection, event) = raw_conn_callback(handle, context, &raw);
        let callback = self
            .callbacks
            .get_mut(&context)
            .expect("the callback was dropped while the handle was open");
        let outcome = callback(connection, event);
        callback_status(outcome)
    }

    fn open(&mut self, request: &OpenRequest) -> (u32, Handle) {
        if let Some(status) = self.fail_next_open.take() {
            return (status, 0);
        }
        let handle = self.next_handle;
        self.next_handle += 0x100;
        self.slots.insert(handle, request.context);
        (0, handle)
    }

    fn run(&mut self, plan: &[Step]) {
        for step in plan {
            match *step {
                Step::Close { kind, handle } => {
                    self.trace.push(format!("close {:?} {:#x}", kind, handle));
                    assert!(self.slots.contains_key(&handle), "closed twice");
                    if kind == HandleKind::Connection && self.get_context(handle) != 0 {
                        let raw = RawConnectionEvent {
                            kind: CONNECTION_EVENT_SHUTDOWN_COMPLETE,
                            payload: RawConnectionPayload::ShutdownComplete {
                                handshake_completed: 1,
                                peer_acknowledged_shutdown: 0,
                                app_close_in_progress: 1,
                            },
                        };
                        self.deliver(handle, raw);
                    }
                    self.slots.remove(&handle);
                    *self.close_calls.entry(handle).or_insert(0) += 1;
                }
                Step::SetContext { handle, context } => {
                    self.trace.push(format!("set-context {:#x} {:#x}", handle, context));
                    if let Some(slot) = self.slots.get_mut(&handle) {
                        *slot = context;
                    }
                }
                Step::SetCallbackHandler { kind, handle, context } => {
                    self.trace
                        .push(format!("set-handler {:?} {:#x} {:#x}", kind, handle, context));
                    let slot = self.slots.get_mut(&handle).expect("handle is not open");
                    *slot = context;
                }
                Step::Release { kind, context } => {
                    self.trace.push(format!("release {:?} {:#x}", kind, context));
                    let callback = self.callbacks.remove(&context);
                    assert!(callback.is_some(), "released twice");
                    self.released.push(context);
                    drop(callback);
                }
            }
        }
    }
}

/// Counts its drops and writes them to a shared log.
struct DropGuard {
    name: &'static str,
    log: Rc<RefCell<Vec<String>>>,
}

impl Drop for DropGuard {
    fn drop(&mut self) {
        self.log.borrow_mut().push(format!("drop {}", self.name));
    }
}

fn guarded_callback(name: &'static str, log: &Rc<RefCell<Vec<String>>>) -> Box<ConnCallback> {
    let guard = DropGuard {
        name,
        log: log.clone(),
    };
    let log = log.clone();
    Box::new(move |_connection: ConnectionRef, event: ConnectionEvent| {
        let _keep = &guard;
        if let ConnectionEvent::ShutdownComplete { .. } = event {
            log.borrow_mut().push(format!("shutdown-complete seen by {}", guard.name));
        }
        Ok(())
    })
}

fn drops_of(log: &Rc<RefCell<Vec<String>>>, name: &str) -> usize {
    let wanted = format!("drop {}", name);
    log.borrow().iter().filter(|line| **line == wanted).count()
}

fn open_connection(
    table: &mut FakeTable,
    registration: &Registration,
    callback: Box<ConnCallback>,
) -> (Connection, Result<(), Status>) {
    let mut connection = Connection::new();
    let context = table.box_callback(callback);
    let attached = table.get_context(connection.as_raw());
    let request = connection.open(registration, context, attached);
    table.run(&request.before);
    let (status, handle) = table.open(&request);
    let OpenOutcome { after, result } = connection.open_complete(context, status, handle);
    table.run(&after);
    (connection, result)
}

#[test]
fn new_wrappers_are_empty() {
    assert_eq!(Connection::new().as_raw(), 0);
    assert_eq!(Listener::new().as_raw(), 0);
    assert_eq!(Stream::new().as_raw(), 0);
    assert_eq!(Connection::default().as_raw(), 0);
    assert_eq!(Listener::default().into_raw(), 0);
    assert_eq!(Stream::default().into_raw(), 0);
}

#[test]
fn raw_handle_round_trip() {
    let stream = Stream::from_raw(0x55);
    assert_eq!(stream.as_raw(), 0x55);
    assert_eq!(stream.into_raw(), 0x55);
    let registration = Registration::from_raw(0x66);
    assert_eq!(registration.as_raw(), 0x66);
    let configuration = Configuration::from_raw(0x77);
    assert_eq!(configuration.into_raw(), 0x77);
}

#[test]
fn registration_new_follows_the_status() {
    let opened = Registration::new(0, 0x40).unwrap();
    assert_eq!(opened.as_raw(), 0x40);
    let pending = Configuration::new(u32::from(StatusCode::QUIC_STATUS_PENDING), 0x41).unwrap();
    assert_eq!(pending.as_raw(), 0x41);
    let failed = Registration::new(u32::from(StatusCode::QUIC_STATUS_OUT_OF_MEMORY), 0);
    assert_eq!(
        failed.unwrap_err(),
        Status::new(StatusCode::QUIC_STATUS_OUT_OF_MEMORY)
    );
}

#[test]
fn close_plan_of_connection_is_close_clear_release() {
    let mut connection = Connection::from_raw(0x1000);
    let plan = connection.close_inner(0x20);
    assert_eq!(
        plan,
        vec![
            Step::Close {
                kind: HandleKind::Connection,
                handle: 0x1000
            },
            Step::SetContext {
                handle: 0x1000,
                context: 0
            },
            Step::Release {
                kind: HandleKind::Connection,
                context: 0x20
            },
        ]
    );
    assert_eq!(connection.as_raw(), 0);
    assert_eq!(connection.close_inner(0x20), vec![]);
}

#[test]
fn close_plan_without_callback_releases_nothing() {
    let mut listener = Listener::from_raw(0x1000);
    assert_eq!(
        listener.close_inner(0),
        vec![
            Step::Close {
                kind: HandleKind::Listener,
                handle: 0x1000
            },
            Step::SetContext {
                handle: 0x1000,
                context: 0
            },
        ]
    );
    let stream = Stream::from_raw(0x2000);
    assert_eq!(
        stream.close(0x30),
        vec![
            Step::Close {
                kind: HandleKind::Stream,
                handle: 0x2000
            },
            Step::SetContext {
                handle: 0x2000,
                context: 0
            },
            Step::Release {
                kind: HandleKind::Stream,
                context: 0x30
            },
        ]
    );
}

#[test]
fn close_plan_of_registration_and_configuration_is_one_call() {
    let mut registration = Registration::from_raw(0x10);
    assert_eq!(
        registration.close_inner(),
        vec![Step::Close {
            kind: HandleKind::Registration,
            handle: 0x10
        }]
    );
    assert_eq!(registration.close_inner(), vec![]);
    let configuration = Configuration::from_raw(0x20);
    assert_eq!(
        configuration.close(),
        vec![Step::Close {
            kind: HandleKind::Configuration,
            handle: 0x20
        }]
    );
    assert_eq!(Configuration::from_raw(0).close(), vec![]);
}

#[test]
fn set_callback_handler_plan_detaches_first() {
    let connection = Connection::from_raw(0x1000);
    assert_eq!(
        connection.set_callback_handler(0x40, 0),
        vec![Step::SetCallbackHandler {
            kind: HandleKind::Connection,
            handle: 0x1000,
            context: 0x40
        }]
    );
    assert_eq!(
        connection.set_callback_handler(0x50, 0x40),
        vec![
            Step::SetContext {
                handle: 0x1000,
                context: 0
            },
            Step::Release {
                kind: HandleKind::Connection,
                context: 0x40
            },
            Step::SetCallbackHandler {
                kind: HandleKind::Connection,
                handle: 0x1000,
                context: 0x50
            },
        ]
    );
    assert_eq!(connection.consume_callback_ctx(0), vec![]);
    assert_eq!(
        connection.consume_callback_ctx(0x50),
        vec![
            Step::SetContext {
                handle: 0x1000,
                context: 0
            },
            Step::Release {
                kind: HandleKind::Connection,
                context: 0x50
            },
        ]
    );
}

#[test]
fn stream_open_request_carries_parent_and_flags() {
    let connection = Connection::from_raw(0x1000);
    let stream = Stream::new();
    let flags = StreamOpenFlags::from_bits(msquic::flags::STREAM_OPEN_FLAG_UNIDIRECTIONAL).unwrap();
    let request = stream.open(&connection, flags, 0x60, 0);
    assert_eq!(request.before, vec![]);
    assert_eq!(request.kind, HandleKind::Stream);
    assert_eq!(request.parent, 0x1000);
    assert_eq!(request.flags, 1);
    assert_eq!(request.context, 0x60);
    let listener = Listener::new();
    let request = listener.open(&Registration::from_raw(0x10), 0x70, 0);
    assert_eq!(request.kind, HandleKind::Listener);
    assert_eq!(request.parent, 0x10);
    assert_eq!(request.flags, 0);
}

#[test]
fn second_callback_handler_drops_the_first_exactly_once() {
    let log = Rc::new(RefCell::new(Vec::new()));
    let mut table = FakeTable::new();
    let registration = Registration::from_raw(0x10);
    let (connection, result) = open_connection(
        &mut table,
        &registration,
        Box::new(|_connection: ConnectionRef, _event: ConnectionEvent| Ok(())),
    );
    assert!(result.is_ok());

    let first = table.box_callback(guarded_callback("first", &log));
    let attached = table.get_context(connection.as_raw());
    table.run(&connection.set_callback_handler(first, attached));
    assert_eq!(drops_of(&log, "first"), 0);

    let second = table.box_callback(guarded_callback("second", &log));
    let attached = table.get_context(connection.as_raw());
    assert_eq!(attached, first);
    table.run(&connection.set_callback_handler(second, attached));

    assert_eq!(drops_of(&log, "first"), 1);
    assert_eq!(drops_of(&log, "second"), 0);
    assert_eq!(table.get_context(connection.as_raw()), second);
    assert_eq!(table.callbacks.len(), 1);
    assert!(table.callbacks.contains_key(&second));
}

#[test]
fn close_delivers_the_last_event_before_the_callback_is_dropped() {
    let log = Rc::new(RefCell::new(Vec::new()));
    let mut table = FakeTable::new();
    let registration = Registration::from_raw(0x10);
    let (mut connection, result) =
        open_connection(&mut table, &registration, guarded_callback("guard", &log));
    assert!(result.is_ok());
    let handle = connection.as_raw();

    let attached = table.get_context(handle);
    table.run(&connection.close_inner(attached));

    assert_eq!(
        *log.borrow(),
        vec![
            "shutdown-complete seen by guard".to_string(),
            "drop guard".to_string()
        ]
    );
    assert_eq!(drops_of(&log, "guard"), 1);
    assert_eq!(table.closes(handle), 1);
    assert!(table.callbacks.is_empty());
    assert_eq!(connection.as_raw(), 0);

    // The wrapper is empty now: retiring it again makes no call.
    let attached = table.get_context(connection.as_raw());
    table.run(&connection.close_inner(attached));
    assert_eq!(table.closes(handle), 1);
    assert_eq!(drops_of(&log, "guard"), 1);
}

#[test]
fn dropping_a_ref_closes_nothing() {
    let log = Rc::new(RefCell::new(Vec::new()));
    let mut table = FakeTable::new();
    let registration = Registration::from_raw(0x10);
    let (connection, _) =
        open_connection(&mut table, &registration, guarded_callback("guard", &log));
    let handle = connection.as_raw();

    let mut borrowed = ConnectionRef::from_raw(handle);
    assert_eq!(borrowed.as_raw(), handle);
    let plan = borrowed.release();
    assert_eq!(plan, vec![]);
    table.run(&plan);
    assert_eq!(borrowed.as_raw(), 0);
    assert_eq!(table.closes(handle), 0);
    assert_eq!(drops_of(&log, "guard"), 0);

    let attached = table.get_context(handle);
    table.run(&connection.close(attached));
    assert_eq!(table.closes(handle), 1);
    assert_eq!(drops_of(&log, "guard"), 1);
}

#[test]
fn refs_of_every_kind_release_without_a_call() {
    let mut stream = StreamRef::from_raw(0x30);
    assert_eq!(stream.as_raw(), 0x30);
    assert_eq!(stream.release(), vec![]);
    assert_eq!(stream.as_raw(), 0);
    let mut listener = ListenerRef::from_raw(0x40);
    assert_eq!(listener.release(), vec![]);
    assert_eq!(listener.as_raw(), 0);
}

#[test]
fn failed_open_drops_the_callback_and_returns_the_status() {
    let log = Rc::new(RefCell::new(Vec::new()));
    let mut table = FakeTable::new();
    table.fail_next_open = Some(u32::from(StatusCode::QUIC_STATUS_INVALID_STATE));
    let registration = Registration::from_raw(0x10);
    let (connection, result) =
        open_connection(&mut table, &registration, guarded_callback("guard", &log));
    assert_eq!(
        result,
        Err(Status::new(StatusCode::QUIC_STATUS_INVALID_STATE))
    );
    assert_eq!(connection.as_raw(), 0);
    assert_eq!(drops_of(&log, "guard"), 1);
    assert!(table.callbacks.is_empty());
}

#[test]
fn open_over_an_attached_callback_drops_it_first() {
    let connection = Connection::from_raw(0x1000);
    let request = connection.open(&Registration::from_raw(0x10), 0x80, 0x70);
    assert_eq!(
        request.before,
        vec![
            Step::SetContext {
                handle: 0x1000,
                context: 0
            },
            Step::Release {
                kind: HandleKind::Connection,
                context: 0x70
            },
        ]
    );
    assert_eq!(request.kind, HandleKind::Connection);
    assert_eq!(request.context, 0x80);
}

#[test]
fn connected_event_reaches_the_callback() {
    let seen: Rc<RefCell<Vec<(bool, Vec<u8>)>>> = Rc::new(RefCell::new(Vec::new()));
    let mut table = FakeTable::new();
    let registration = Registration::new(0, 0x10).unwrap();
    let sink = seen.clone();
    let (connection, result) = open_connection(
        &mut table,
        &registration,
        Box::new(move |_connection: ConnectionRef, event: ConnectionEvent| {
            if let ConnectionEvent::Connected {
                session_resumed,
                negotiated_alpn,
            } = event
            {
                sink.borrow_mut()
                    .push((session_resumed, negotiated_alpn.to_vec()));
            }
            Ok(())
        }),
    );
    assert!(result.is_ok());
    let alpn = b"h3";
    let status = table.deliver(
        connection.as_raw(),
        RawConnectionEvent {
            kind: CONNECTION_EVENT_CONNECTED,
            payload: RawConnectionPayload::Connected {
                session_resumed: 0,
                negotiated_alpn: alpn,
            },
        },
    );
    assert_eq!(status, 0);
    assert_eq!(*seen.borrow(), vec![(false, b"h3".to_vec())]);
}

#[test]
fn callback_error_becomes_the_native_status() {
    assert_eq!(callback_status(Ok(())), 0);
    assert_eq!(
        callback_status(Err(Status::new(StatusCode::QUIC_STATUS_ABORTED))),
        125
    );
    assert_eq!(callback_status(Err(Status(0xdead))), 0xdead);
}

#[test]
fn only_a_listener_callback_is_shared() {
    assert!(HandleKind::Listener.needs_shared_callback());
    assert!(!HandleKind::Connection.needs_shared_callback());
    assert!(!HandleKind::Stream.needs_shared_callback());
    assert!(HandleKind::Connection.calls_back());
    assert!(HandleKind::Stream.calls_back());
    assert!(HandleKind::Listener.calls_back());
    assert!(!HandleKind::Registration.calls_back());
    assert!(!HandleKind::Configuration.calls_back());
}

#[test]
fn trampolines_invoke_the_callback_and_return_its_status() {
    let mut seen = Vec::new();
    let raw = RawConnectionEvent {
        kind: CONNECTION_EVENT_CONNECTED,
        payload: RawConnectionPayload::Connected {
            session_resumed: 1,
            negotiated_alpn: b"h3",
        },
    };
    let status = msquic::callback::dispatch_connection_event(
        0x1000,
        0x10,
        &mut |connection: ConnectionRef, event: ConnectionEvent| {
            seen.push(connection.as_raw());
            match event {
                ConnectionEvent::Connected {
                    session_resumed: true,
                    negotiated_alpn: b"h3",
                } => Ok(()),
                _ => Err(Status::new(StatusCode::QUIC_STATUS_INTERNAL_ERROR)),
            }
        },
        &raw,
    );
    assert_eq!(status, 0);
    let status = msquic::callback::dispatch_connection_event(
        0x2000,
        0x10,
        &mut |connection: ConnectionRef, _event: ConnectionEvent| {
            seen.push(connection.as_raw());
            Err(Status::new(StatusCode::QUIC_STATUS_CONNECTION_REFUSED))
        },
        &raw,
    );
    assert_eq!(status, 111);
    assert_eq!(seen, vec![0x1000, 0x2000]);
}

#[test]
fn listener_and_stream_trampolines() {
    let raw = msquic::RawListenerEvent {
        kind: msquic::listener_event::LISTENER_EVENT_STOP_COMPLETE,
        payload: msquic::RawListenerPayload::StopComplete {
            app_close_in_progress: 0,
        },
    };
    let status = msquic::callback::dispatch_listener_event(
        0x3000,
        0x10,
        &|listener: ListenerRef, event: msquic::ListenerEvent| {
            assert_eq!(listener.as_raw(), 0x3000);
            assert!(matches!(
                event,
                msquic::ListenerEvent::StopComplete {
                    app_close_in_progress: false
                }
            ));
            Err(Status(77))
        },
        &raw,
    );
    assert_eq!(status, 77);

    let mut raw = msquic::RawStreamEvent {
        kind: msquic::stream_event::STREAM_EVENT_CANCEL_ON_LOSS,
        payload: msquic::RawStreamPayload::CancelOnLoss { error_code: 1 },
    };
    let status = msquic::callback::dispatch_stream_event(
        0x4000,
        0x10,
        &mut |stream: StreamRef, event: msquic::StreamEvent| {
            assert_eq!(stream.as_raw(), 0x4000);
            if let msquic::StreamEvent::CancelOnLoss { error_code } = event {
                *error_code = 99;
            }
            Ok(())
        },
        &mut raw,
    );
    assert_eq!(status, 0);
    assert!(matches!(
        raw.payload,
        msquic::RawStreamPayload::CancelOnLoss { error_code: 99 }
    ));
    assert_eq!(raw.kind, msquic::stream_event::STREAM_EVENT_CANCEL_ON_LOSS);
}
