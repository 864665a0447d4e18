use msquic::callback::{
    callback_status, raw_conn_callback, raw_listener_callback, raw_stream_callback,
};
use msquic::connection_event::{CONNECTION_EVENT_CONNECTED, CONNECTION_EVENT_PEER_STREAM_STARTED};
use msquic::handle::OpenOutcome;
use msquic::listener_event::LISTENER_EVENT_NEW_CONNECTION;
use msquic::stream_event::STREAM_EVENT_RECEIVE;
use msquic::{
    Addr, BufferRef, Configuration, Connection, ConnectionEvent, ConnectionRef, CredentialConfig,
    Handle, HandleKind, Listener, ListenerEvent, ListenerRef, RawConnectionEvent,
    RawConnectionPayload, RawListenerEvent, RawListenerPayload, RawNewConnectionInfo,
    RawStreamEvent, RawStreamPayload, Registration, RegistrationConfig, SendFlags, Settings,
    SocketAddress, Status, Step, Stream, StreamEvent, StreamOpenFlags, StreamRef,
};
use std::cell::RefCell;
use std::collections::HashMap;
use std::rc::Rc;

type ConnectionCallback = dyn FnMut(ConnectionRef, ConnectionEvent) -> Result<(), Status>;
type ListenerCallback = dyn Fn(ListenerRef, ListenerEvent) -> Result<(), Status>;
type StreamCallback = dyn FnMut(StreamRef, StreamEvent) -> Result<(), Status>;

enum Boxed {
    Connection(Box<ConnectionCallback>),
    Listener(Box<ListenerCallback>),
    Stream(Box<StreamCallback>),
}

/// What a callback asks for; it is carried out when the callback has
/// returned.
enum Command {
    AdoptConnection {
        connection: Handle,
        callback: Box<ConnectionCallback>,
    },
    AdoptStream {
        stream: Handle,
        callback: Box<StreamCallback>,
    },
    Send {
        stream: Handle,
        text: Vec<u8>,
    },
}

type Queue = Rc<RefCell<Vec<Command>>>;

/// A stand-in for the native library with both ends of a connection in one
/// process.
struct Native {
    next_handle: Handle,
    next_context: usize,
    slots: HashMap<Handle, usize>,
    heap: HashMap<usize, Boxed>,
    peers: HashMap<Handle, Handle>,
    parents: HashMap<Handle, Handle>,
    closes: HashMap<Handle, usize>,
    queue: Queue,
}

impl Native {
    fn new(queue: Queue) -> Native {
        Native {
            next_handle: 0x1000,
            next_context: 0x8,
            slots: HashMap::new(),
            heap: HashMap::new(),
            peers: HashMap::new(),
            parents: HashMap::new(),
            closes: HashMap::new(),
            queue,
        }
    }

    fn allocate(&mut self, boxed: Boxed) -> usize {
        let context = self.next_context;
        self.next_context += 8;
        self.heap.insert(context, boxed);
        context
    }

    fn create(&mut self, context: usize) -> Handle {
        let handle = self.next_handle;
        self.next_handle += 0x10;
        self.slots.insert(handle, context);
        handle
    }

    fn get_context(&self, handle: Handle) -> usize {
        self.slots.get(&handle).copied().unwrap_or(0)
    }

    fn run(&mut self, plan: &[Step]) {
        for step in plan {
            match *step {
                Step::Close { handle, .. } => {
                    assert!(self.slots.remove(&handle).is_some(), "closed twice");
                    *self.closes.entry(handle).or_insert(0) += 1;
                }
                Step::SetContext { handle, context } => {
                    if let Some(slot) = self.slots.get_mut(&handle) {
                        *slot = context;
                    }
                }
                Step::SetCallbackHandler {
                    kind,
                    handle,
                    context,
                } => {
                    let matches = match self.heap.get(&context) {
                        Some(Boxed::Connection(_)) => kind == HandleKind::Connection,
                        Some(Boxed::Listener(_)) => kind == HandleKind::Listener,
                        Some(Boxed::Stream(_)) => kind == HandleKind::Stream,
                        None => false,
                    };
                    assert!(matches, "the callback is not one of {:?}", kind);
                    *self.slots.get_mut(&handle).expect("not open") = context;
                }
                Step::Release { context, .. } => {
                    assert!(self.heap.remove(&context).is_some(), "dropped twice");
                }
            }
        }
    }

    fn deliver_to_listener(&mut self, listener: Handle, raw: RawListenerEvent) -> u32 {
        let context = self.get_context(listener);
        assert!(raw.is_projectable());
        let (borrowed, event) = raw_listener_callback(listener, context, &raw);
        match self.heap.get(&context) {
            Some(Boxed::Listener(callback)) => callback_status(callback(borrowed, event)),
            _ => panic!("no listener callback"),
        }
    }

    fn deliver_to_connection(&mut self, connection: Handle, raw: RawConnectionEvent) -> u32 {
        let context = self.get_context(connection);
        assert!(raw.is_projectable());
        let (borrowed, event) = raw_conn_callback(connection, context, &raw);
        match self.heap.get_mut(&context) {
            Some(Boxed::Connection(callback)) => callback_status(callback(borrowed, event)),
            _ => panic!("no connection callback"),
        }
    }

    fn deliver_to_stream(&mut self, stream: Handle, text: &[u8]) -> (u32, u64) {
        let context = self.get_context(stream);
        let buffers = [BufferRef::from(text)];
        let mut raw = RawStreamEvent {
            kind: STREAM_EVENT_RECEIVE,
            payload: RawStreamPayload::Receive {
                absolute_offset: 0,
                total_buffer_length: text.len() as u64,
                buffers: &buffers,
                flags: 0,
            },
        };
        assert!(raw.is_projectable());
        let status = {
            let (borrowed, event) = raw_stream_callback(stream, context, &mut raw);
            match self.heap.get_mut(&context) {
                Some(Boxed::Stream(callback)) => callback_status(callback(borrowed, event)),
                _ => panic!("no stream callback"),
            }
        };
        let taken = match raw.payload {
            RawStreamPayload::Receive {
                total_buffer_length,
                ..
            } => total_buffer_length,
            _ => panic!("the record changed its arm"),
        };
        (status, taken)
    }

    /// Carries out what the callbacks asked for, until nothing is left.
    fn settle(&mut self) {
        loop {
            let commands: Vec<Command> = self.queue.borrow_mut().drain(..).collect();
            if commands.is_empty() {
                return;
            }
            for command in commands {
                match command {
                    Command::AdoptConnection {
                        connection,
                        callback,
                    } => {
                        let context = self.allocate(Boxed::Connection(callback));
                        let attached = self.get_context(connection);
                        let borrowed = ConnectionRef::from_raw(connection);
                        let plan = borrowed.set_callback_handler(context, attached);
                        self.run(&plan);
                    }
                    Command::AdoptStream { stream, callback } => {
                        let context = self.allocate(Boxed::Stream(callback));
                        let attached = self.get_context(stream);
                        let borrowed = StreamRef::from_raw(stream);
                        let plan = borrowed.set_callback_handler(context, attached);
                        self.run(&plan);
                    }
                    Command::Send { stream, text } => self.send(stream, &text),
                }
            }
        }
    }

    /// The native send call: the bytes arrive on the peer's end of the
    /// stream, which is created, and announced to the peer's connection,
    /// when the first bytes arrive.
    fn send(&mut self, stream: Handle, text: &[u8]) {
        let buffers = [BufferRef::from(text)];
        let request = Stream::from_raw(stream).send(&buffers, SendFlags::empty(), 0);
        assert_eq!(request.handle, stream);
        assert_eq!(request.buffer_count, 1);
        let sent: Vec<u8> = request.buffers[0].as_bytes().to_vec();
        let peer = match self.peers.get(&stream) {
            Some(peer) => *peer,
            None => {
                let peer = self.create(0);
                self.peers.insert(stream, peer);
                self.peers.insert(peer, stream);
                let connection = self.peers[&self.parents[&stream]];
                self.parents.insert(peer, connection);
                let status = self.deliver_to_connection(
                    connection,
                    RawConnectionEvent {
                        kind: CONNECTION_EVENT_PEER_STREAM_STARTED,
                        payload: RawConnectionPayload::PeerStreamStarted {
                            stream: peer,
                            flags: 0,
                        },
                    },
                );
                assert_eq!(status, 0);
                self.settle();
                peer
            }
        };
        let (status, taken) = self.deliver_to_stream(peer, &sent);
        assert_eq!(status, 0);
        assert_eq!(taken, sent.len() as u64);
    }
}

fn loopback(port: u16) -> Addr {
    Addr::from(SocketAddress::V4 {
        ip: [127, 0, 0, 1],
        port,
    })
}

#[test]
fn both_sides_receive_what_the_other_sent() {
    let queue: Queue = Rc::new(RefCell::new(Vec::new()));
    let mut native = Native::new(queue.clone());
    let server_received: Rc<RefCell<Vec<u8>>> = Rc::new(RefCell::new(Vec::new()));
    let client_received: Rc<RefCell<Vec<u8>>> = Rc::new(RefCell::new(Vec::new()));
    let client_events: Rc<RefCell<Vec<String>>> = Rc::new(RefCell::new(Vec::new()));

    let config = RegistrationConfig::new().set_app_name(String::from("qtest"));
    assert_eq!(config.as_ffi().app_name, Some(b"qtest\0".as_slice()));
    let registration = Registration::new(0, native.create(0)).unwrap();

    let alpn = [BufferRef::from("qtest")];
    let settings = Settings::new().set_PeerBidiStreamCount(1);
    let request = Configuration::open_request(&registration, &alpn, Some(&settings));
    assert_eq!(request.alpn_count, 1);
    let configuration = Configuration::new(0, native.create(0)).unwrap();
    let credential = CredentialConfig::new_client();
    assert_eq!(configuration.load_credential(&credential).config.flags, 1);

    // The server: a listener that adopts every connection, a connection
    // callback that adopts every stream, a stream callback that answers.
    let mut listener = Listener::new();
    let listener_queue = queue.clone();
    let stream_sink = server_received.clone();
    let listener_callback: Box<ListenerCallback> = Box::new(move |_listener, event| {
        if let ListenerEvent::NewConnection { info, connection } = event {
            assert_eq!(info.negotiated_alpn, b"qtest");
            let connection_queue = listener_queue.clone();
            let stream_sink = stream_sink.clone();
            listener_queue.borrow_mut().push(Command::AdoptConnection {
                connection: connection.as_raw(),
                callback: Box::new(move |_connection, event| {
                    if let ConnectionEvent::PeerStreamStarted { stream, .. } = event {
                        let stream_queue = connection_queue.clone();
                        let stream_sink = stream_sink.clone();
                        let handle = stream.as_raw();
                        connection_queue.borrow_mut().push(Command::AdoptStream {
                            stream: handle,
                            callback: Box::new(move |stream, event| {
                                if let StreamEvent::Receive { buffers, .. } = event {
                                    for buffer in buffers {
                                        stream_sink
                                            .borrow_mut()
                                            .extend_from_slice(buffer.as_bytes());
                                    }
                                    stream_queue.borrow_mut().push(Command::Send {
                                        stream: stream.as_raw(),
                                        text: b"hello from server".to_vec(),
                                    });
                                }
                                Ok(())
                            }),
                        });
                    }
                    Ok(())
                }),
            });
        }
        Ok(())
    });
    let context = native.allocate(Boxed::Listener(listener_callback));
    let request = listener.open(&registration, context, native.get_context(listener.as_raw()));
    native.run(&request.before);
    let handle = native.create(request.context);
    let OpenOutcome { after, result } = listener.open_complete(context, 0, handle);
    native.run(&after);
    assert_eq!(result, Ok(()));
    let address = loopback(4567);
    let request = listener.start(&alpn, Some(&address));
    assert_eq!(request.listener, listener.as_raw());
    assert_eq!(request.local_address.unwrap().port(), 4567);

    // The client: a connection whose callback records what it sees.
    let mut client = Connection::new();
    let events = client_events.clone();
    let client_callback: Box<ConnectionCallback> = Box::new(move |_connection, event| {
        if let ConnectionEvent::Connected {
            negotiated_alpn, ..
        } = event
        {
            events
                .borrow_mut()
                .push(format!("connected {:?}", negotiated_alpn));
        }
        Ok(())
    });
    let context = native.allocate(Boxed::Connection(client_callback));
    let request = client.open(&registration, context, native.get_context(client.as_raw()));
    native.run(&request.before);
    let handle = native.create(request.context);
    let OpenOutcome { after, result } = client.open_complete(context, 0, handle);
    native.run(&after);
    assert_eq!(result, Ok(()));
    let start = client.start(&configuration, "127.0.0.1", 4567);
    assert_eq!(start.server_name.as_bytes_with_nul(), b"127.0.0.1\0");
    assert_eq!(start.server_port, 4567);

    // The handshake: the server's end of the connection is created and
    // announced to the listener, and both ends hear that they are connected.
    let accepted = native.create(0);
    native.peers.insert(client.as_raw(), accepted);
    native.peers.insert(accepted, client.as_raw());
    let status = native.deliver_to_listener(
        listener.as_raw(),
        RawListenerEvent {
            kind: LISTENER_EVENT_NEW_CONNECTION,
            payload: RawListenerPayload::NewConnection {
                info: RawNewConnectionInfo {
                    quic_version: 1,
                    local_address: loopback(4567),
                    remote_address: loopback(50000),
                    crypto_buffer: &[],
                    client_alpn_list: b"\x05qtest",
                    server_name: b"127.0.0.1",
                    negotiated_alpn: b"qtest",
                },
                connection: accepted,
            },
        },
    );
    assert_eq!(status, 0);
    native.settle();
    assert_ne!(native.get_context(accepted), 0);
    for end in [client.as_raw(), accepted] {
        let status = native.deliver_to_connection(
            end,
            RawConnectionEvent {
                kind: CONNECTION_EVENT_CONNECTED,
                payload: RawConnectionPayload::Connected {
                    session_resumed: 0,
                    negotiated_alpn: b"qtest",
                },
            },
        );
        assert_eq!(status, 0);
    }
    assert_eq!(
        *client_events.borrow(),
        vec![format!("connected {:?}", b"qtest")]
    );

    // The client opens a stream and says hello; the server answers.
    let mut stream = Stream::new();
    let sink = client_received.clone();
    let stream_callback: Box<StreamCallback> = Box::new(move |_stream, event| {
        if let StreamEvent::Receive { buffers, .. } = event {
            for buffer in buffers {
                sink.borrow_mut().extend_from_slice(buffer.as_bytes());
            }
        }
        Ok(())
    });
    let context = native.allocate(Boxed::Stream(stream_callback));
    let request = stream.open(
        &client,
        StreamOpenFlags::empty(),
        context,
        native.get_context(stream.as_raw()),
    );
    assert_eq!(request.parent, client.as_raw());
    native.run(&request.before);
    let handle = native.create(request.context);
    native.parents.insert(handle, client.as_raw());
    let OpenOutcome { after, result } = stream.open_complete(context, 0, handle);
    native.run(&after);
    assert_eq!(result, Ok(()));

    native.send(stream.as_raw(), b"hello from client");
    native.settle();

    assert_eq!(*server_received.borrow(), b"hello from client");
    assert_eq!(*client_received.borrow(), b"hello from server");

    // Everything is closed: each handle once, and no callback is left.
    let server_stream = Stream::from_raw(native.peers[&stream.as_raw()]);
    let server_connection = Connection::from_raw(accepted);
    let handles = [
        stream.as_raw(),
        server_stream.as_raw(),
        client.as_raw(),
        accepted,
        listener.as_raw(),
        configuration.as_raw(),
        registration.as_raw(),
    ];
    let attached = native.get_context(stream.as_raw());
    native.run(&stream.close(attached));
    let attached = native.get_context(server_stream.as_raw());
    native.run(&server_stream.close(attached));
    let attached = native.get_context(client.as_raw());
    native.run(&client.close(attached));
    let attached = native.get_context(accepted);
    native.run(&server_connection.close(attached));
    let attached = native.get_context(listener.as_raw());
    native.run(&listener.close(attached));
    native.run(&configuration.close());
    native.run(&registration.close());
    for handle in handles {
        assert_eq!(native.closes[&handle], 1, "{:#x}", handle);
    }
    assert!(native.slots.is_empty());
    assert!(native.heap.is_empty());
}
