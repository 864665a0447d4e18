use msquic::addr::{ADDRESS_FAMILY_INET, ADDRESS_FAMILY_INET6};
use msquic::callback::{raw_listener_callback, raw_stream_callback};
use msquic::connection_event::{
    CONNECTION_EVENT_CONNECTED, CONNECTION_EVENT_DATAGRAM_RECEIVED,
    CONNECTION_EVENT_DATAGRAM_SEND_STATE_CHANGED, CONNECTION_EVENT_DATAGRAM_STATE_CHANGED,
    CONNECTION_EVENT_IDEAL_PROCESSOR_CHANGED, CONNECTION_EVENT_LOCAL_ADDRESS_CHANGED,
    CONNECTION_EVENT_PATH_ADDED, CONNECTION_EVENT_PATH_REMOVED,
    CONNECTION_EVENT_PATH_STATUS_CHANGED, CONNECTION_EVENT_PEER_ADDRESS_CHANGED,
    CONNECTION_EVENT_PEER_CERTIFICATE_RECEIVED, CONNECTION_EVENT_PEER_NEEDS_STREAMS,
    CONNECTION_EVENT_PEER_STREAM_STARTED, CONNECTION_EVENT_RESUMED,
    CONNECTION_EVENT_RESUMPTION_TICKET_RECEIVED, CONNECTION_EVENT_SHUTDOWN_COMPLETE,
    CONNECTION_EVENT_SHUTDOWN_INITIATED_BY_PEER,
    CONNECTION_EVENT_SHUTDOWN_INITIATED_BY_TRANSPORT, CONNECTION_EVENT_STREAMS_AVAILABLE,
};
use msquic::listener_event::{LISTENER_EVENT_NEW_CONNECTION, LISTENER_EVENT_STOP_COMPLETE};
use msquic::stream_event::{
    STREAM_EVENT_CANCEL_ON_LOSS, STREAM_EVENT_IDEAL_SEND_BUFFER_SIZE, STREAM_EVENT_PEER_ACCEPTED,
    STREAM_EVENT_PEER_RECEIVE_ABORTED, STREAM_EVENT_PEER_SEND_ABORTED,
    STREAM_EVENT_PEER_SEND_SHUTDOWN, STREAM_EVENT_RECEIVE, STREAM_EVENT_SEND_COMPLETE,
    STREAM_EVENT_SEND_SHUTDOWN_COMPLETE, STREAM_EVENT_SHUTDOWN_COMPLETE,
    STREAM_EVENT_START_COMPLETE,
};
use msquic::{
    Addr, BufferRef, ConnectionEvent, DatagramSendState, ListenerEvent, NewConnectionInfo,
    RawConnectionEvent, RawConnectionPayload, RawListenerEvent, RawListenerPayload,
    RawNewConnectionInfo, RawStreamEvent, RawStreamPayload, SocketAddress, Status, StatusCode,
    StreamEvent,
};

fn v4(last: u8, port: u16) -> Addr {
    Addr::from(SocketAddress::V4 {
        ip: [127, 0, 0, last],
        port,
    })
}

fn project(kind: u32, payload: RawConnectionPayload) -> ConnectionEvent {
    let raw = RawConnectionEvent { kind, payload };
    assert!(raw.is_projectable());
    ConnectionEvent::from(&raw)
}

#[test]
fn connected_borrows_the_negotiated_alpn() {
    let alpn = b"h3".to_vec();
    let event = project(
        CONNECTION_EVENT_CONNECTED,
        RawConnectionPayload::Connected {
            session_resumed: 1,
            negotiated_alpn: &alpn,
        },
    );
    match event {
        ConnectionEvent::Connected {
            session_resumed,
            negotiated_alpn,
        } => {
            assert!(session_resumed);
            assert_eq!(negotiated_alpn, b"h3");
            assert_eq!(negotiated_alpn.as_ptr(), alpn.as_ptr());
        }
        _ => panic!("not Connected"),
    }
}

#[test]
fn an_empty_buffer_projects_to_an_empty_slice() {
    let event = project(
        CONNECTION_EVENT_CONNECTED,
        RawConnectionPayload::Connected {
            session_resumed: 0,
            negotiated_alpn: &[],
        },
    );
    match event {
        ConnectionEvent::Connected {
            session_resumed,
            negotiated_alpn,
        } => {
            assert!(!session_resumed);
            assert_eq!(negotiated_alpn.len(), 0);
        }
        _ => panic!("not Connected"),
    }
    let event = project(
        CONNECTION_EVENT_RESUMED,
        RawConnectionPayload::Resumed {
            resumption_state: &[],
        },
    );
    assert!(matches!(
        event,
        ConnectionEvent::Resumed {
            resumption_state: []
        }
    ));
    let event = project(
        CONNECTION_EVENT_DATAGRAM_RECEIVED,
        RawConnectionPayload::DatagramReceived {
            buffer: &[],
            flags: 0,
        },
    );
    match event {
        ConnectionEvent::DatagramReceived { buffer, flags } => {
            assert_eq!(buffer.as_bytes().len(), 0);
            assert!(flags.is_empty());
        }
        _ => panic!("not DatagramReceived"),
    }
}

#[test]
fn shutdown_events_carry_status_and_error_code() {
    let event = project(
        CONNECTION_EVENT_SHUTDOWN_INITIATED_BY_TRANSPORT,
        RawConnectionPayload::ShutdownInitiatedByTransport {
            status: 110,
            error_code: 7,
        },
    );
    match event {
        ConnectionEvent::ShutdownInitiatedByTransport { status, error_code } => {
            assert_eq!(status, Status::new(StatusCode::QUIC_STATUS_CONNECTION_TIMEOUT));
            assert_eq!(error_code, 7);
        }
        _ => panic!("not ShutdownInitiatedByTransport"),
    }
    let event = project(
        CONNECTION_EVENT_SHUTDOWN_INITIATED_BY_PEER,
        RawConnectionPayload::ShutdownInitiatedByPeer {
            error_code: u64::MAX,
        },
    );
    assert!(matches!(
        event,
        ConnectionEvent::ShutdownInitiatedByPeer {
            error_code: u64::MAX
        }
    ));
    let event = project(
        CONNECTION_EVENT_SHUTDOWN_COMPLETE,
        RawConnectionPayload::ShutdownComplete {
            handshake_completed: 1,
            peer_acknowledged_shutdown: 0,
            app_close_in_progress: 2,
        },
    );
    assert!(matches!(
        event,
        ConnectionEvent::ShutdownComplete {
            handshake_completed: true,
            peer_acknowledged_shutdown: false,
            app_close_in_progress: true
        }
    ));
}

#[test]
fn address_events_carry_the_address() {
    let event = project(
        CONNECTION_EVENT_LOCAL_ADDRESS_CHANGED,
        RawConnectionPayload::LocalAddressChanged {
            address: v4(1, 4567),
        },
    );
    match event {
        ConnectionEvent::LocalAddressChanged { address } => {
            assert_eq!(
                address.as_socket(),
                Some(SocketAddress::V4 {
                    ip: [127, 0, 0, 1],
                    port: 4567
                })
            );
        }
        _ => panic!("not LocalAddressChanged"),
    }
    let event = project(
        CONNECTION_EVENT_PEER_ADDRESS_CHANGED,
        RawConnectionPayload::PeerAddressChanged {
            address: v4(2, 443),
        },
    );
    match event {
        ConnectionEvent::PeerAddressChanged { address } => assert_eq!(address.port(), 443),
        _ => panic!("not PeerAddressChanged"),
    }
}

#[test]
fn peer_stream_started_borrows_the_stream() {
    let event = project(
        CONNECTION_EVENT_PEER_STREAM_STARTED,
        RawConnectionPayload::PeerStreamStarted {
            stream: 0x7700,
            flags: 1,
        },
    );
    match event {
        ConnectionEvent::PeerStreamStarted { mut stream, flags } => {
            assert_eq!(stream.as_raw(), 0x7700);
            assert_eq!(flags.bits(), 1);
            assert_eq!(stream.release(), vec![]);
        }
        _ => panic!("not PeerStreamStarted"),
    }
}

#[test]
fn undefined_flags_are_not_projectable() {
    let raw = RawConnectionEvent {
        kind: CONNECTION_EVENT_PEER_STREAM_STARTED,
        payload: RawConnectionPayload::PeerStreamStarted {
            stream: 0x7700,
            flags: 0x100,
        },
    };
    assert!(!raw.is_projectable());
    let raw = RawConnectionEvent {
        kind: CONNECTION_EVENT_DATAGRAM_RECEIVED,
        payload: RawConnectionPayload::DatagramReceived {
            buffer: b"x",
            flags: 4,
        },
    };
    assert!(!raw.is_projectable());
    let raw = RawConnectionEvent {
        kind: CONNECTION_EVENT_DATAGRAM_SEND_STATE_CHANGED,
        payload: RawConnectionPayload::DatagramSendStateChanged {
            client_context: 0,
            state: 7,
        },
    };
    assert!(!raw.is_projectable());
}

#[test]
fn a_payload_under_the_wrong_discriminant_is_not_projectable() {
    let raw = RawConnectionEvent {
        kind: CONNECTION_EVENT_RESUMED,
        payload: RawConnectionPayload::Connected {
            session_resumed: 0,
            negotiated_alpn: b"h3",
        },
    };
    assert!(!raw.is_projectable());
    let raw = RawListenerEvent {
        kind: LISTENER_EVENT_NEW_CONNECTION,
        payload: RawListenerPayload::StopComplete {
            app_close_in_progress: 0,
        },
    };
    assert!(!raw.is_projectable());
    let raw = RawStreamEvent {
        kind: STREAM_EVENT_RECEIVE,
        payload: RawStreamPayload::PeerAccepted,
    };
    assert!(!raw.is_projectable());
}

#[test]
fn unknown_discriminants_are_told_apart() {
    for kind in 0..=15 {
        assert!(RawConnectionEvent::knows_kind(kind));
    }
    for kind in 16..=18 {
        assert!(!RawConnectionEvent::knows_kind(kind));
    }
    for kind in 19..=21 {
        assert!(RawConnectionEvent::knows_kind(kind));
    }
    assert!(!RawConnectionEvent::knows_kind(22));
    assert!(!RawConnectionEvent::knows_kind(u32::MAX));
    assert!(RawListenerEvent::knows_kind(0));
    assert!(RawListenerEvent::knows_kind(1));
    assert!(!RawListenerEvent::knows_kind(2));
    for kind in 0..=10 {
        assert!(RawStreamEvent::knows_kind(kind));
    }
    assert!(!RawStreamEvent::knows_kind(11));
    let raw = RawConnectionEvent {
        kind: 16,
        payload: RawConnectionPayload::PeerNeedsStreams { bidirectional: 1 },
    };
    assert!(!raw.is_projectable());
}

#[test]
fn counts_and_switches_are_projected() {
    assert!(matches!(
        project(
            CONNECTION_EVENT_STREAMS_AVAILABLE,
            RawConnectionPayload::StreamsAvailable {
                bidirectional_count: 100,
                unidirectional_count: 3
            }
        ),
        ConnectionEvent::StreamsAvailable {
            bidirectional_count: 100,
            unidirectional_count: 3
        }
    ));
    assert!(matches!(
        project(
            CONNECTION_EVENT_PEER_NEEDS_STREAMS,
            RawConnectionPayload::PeerNeedsStreams { bidirectional: 0 }
        ),
        ConnectionEvent::PeerNeedsStreams {
            bidirectional: false
        }
    ));
    assert!(matches!(
        project(
            CONNECTION_EVENT_IDEAL_PROCESSOR_CHANGED,
            RawConnectionPayload::IdealProcessorChanged {
                ideal_processor: 5,
                partition_index: 6
            }
        ),
        ConnectionEvent::IdealProcessorChanged {
            ideal_processor: 5,
            partition_index: 6
        }
    ));
    assert!(matches!(
        project(
            CONNECTION_EVENT_DATAGRAM_STATE_CHANGED,
            RawConnectionPayload::DatagramStateChanged {
                send_enabled: 1,
                max_send_length: 1200
            }
        ),
        ConnectionEvent::DatagramStateChanged {
            send_enabled: true,
            max_send_length: 1200
        }
    ));
}

#[test]
fn datagram_events_are_projected() {
    let event = project(
        CONNECTION_EVENT_DATAGRAM_RECEIVED,
        RawConnectionPayload::DatagramReceived {
            buffer: b"ping",
            flags: 3,
        },
    );
    match event {
        ConnectionEvent::DatagramReceived { buffer, flags } => {
            assert_eq!(buffer.as_bytes(), b"ping");
            assert_eq!(flags.bits(), 3);
        }
        _ => panic!("not DatagramReceived"),
    }
    let expected = [
        DatagramSendState::Unknown,
        DatagramSendState::Sent,
        DatagramSendState::LostSuspect,
        DatagramSendState::LostDiscarded,
        DatagramSendState::Acknowledged,
        DatagramSendState::AcknowledgedSpurious,
        DatagramSendState::Canceled,
    ];
    for (raw_state, wanted) in expected.iter().enumerate() {
        let event = project(
            CONNECTION_EVENT_DATAGRAM_SEND_STATE_CHANGED,
            RawConnectionPayload::DatagramSendStateChanged {
                client_context: 0xabc,
                state: raw_state as u32,
            },
        );
        match event {
            ConnectionEvent::DatagramSendStateChanged {
                client_context,
                state,
            } => {
                assert_eq!(client_context, 0xabc);
                assert_eq!(state, *wanted);
            }
            _ => panic!("not DatagramSendStateChanged"),
        }
        assert_eq!(DatagramSendState::lookup(raw_state as u32), Some(*wanted));
    }
    assert_eq!(DatagramSendState::lookup(7), None);
}

#[test]
fn resumption_and_certificate_events_are_projected() {
    assert!(matches!(
        project(
            CONNECTION_EVENT_RESUMED,
            RawConnectionPayload::Resumed {
                resumption_state: b"state"
            }
        ),
        ConnectionEvent::Resumed {
            resumption_state: b"state"
        }
    ));
    assert!(matches!(
        project(
            CONNECTION_EVENT_RESUMPTION_TICKET_RECEIVED,
            RawConnectionPayload::ResumptionTicketReceived {
                resumption_ticket: b"ticket"
            }
        ),
        ConnectionEvent::ResumptionTicketReceived {
            resumption_ticket: b"ticket"
        }
    ));
    let event = project(
        CONNECTION_EVENT_PEER_CERTIFICATE_RECEIVED,
        RawConnectionPayload::PeerCertificateReceived {
            certificate: 0x10,
            deferred_error_flags: 2,
            deferred_status: 200000513,
            chain: 0x20,
        },
    );
    match event {
        ConnectionEvent::PeerCertificateReceived {
            certificate,
            deferred_error_flags,
            deferred_status,
            chain,
        } => {
            assert_eq!(certificate, 0x10);
            assert_eq!(deferred_error_flags, 2);
            assert_eq!(
                deferred_status.try_as_status_code(),
                Ok(StatusCode::QUIC_STATUS_CERT_EXPIRED)
            );
            assert_eq!(chain, 0x20);
        }
        _ => panic!("not PeerCertificateReceived"),
    }
}

#[test]
fn path_events_are_projected() {
    let peer = v4(9, 1);
    let local = v4(8, 2);
    match project(
        CONNECTION_EVENT_PATH_ADDED,
        RawConnectionPayload::PathAdded {
            peer_address: peer,
            local_address: local,
            path_id: 4,
        },
    ) {
        ConnectionEvent::PathAdded {
            peer_address,
            local_address,
            path_id,
        } => {
            assert_eq!(peer_address.as_socket(), peer.as_socket());
            assert_eq!(local_address.as_socket(), local.as_socket());
            assert_eq!(path_id, 4);
        }
        _ => panic!("not PathAdded"),
    }
    assert!(matches!(
        project(
            CONNECTION_EVENT_PATH_REMOVED,
            RawConnectionPayload::PathRemoved {
                peer_address: peer,
                local_address: local,
                path_id: 5
            }
        ),
        ConnectionEvent::PathRemoved { path_id: 5, .. }
    ));
    assert!(matches!(
        project(
            CONNECTION_EVENT_PATH_STATUS_CHANGED,
            RawConnectionPayload::PathStatusChanged {
                peer_address: peer,
                local_address: local,
                path_id: 6,
                is_active: 1
            }
        ),
        ConnectionEvent::PathStatusChanged {
            path_id: 6,
            is_active: true,
            ..
        }
    ));
}

#[test]
fn new_connection_borrows_the_connection_and_its_buffers() {
    let info = RawNewConnectionInfo {
        quic_version: 1,
        local_address: v4(1, 4567),
        remote_address: v4(1, 50000),
        crypto_buffer: b"crypto",
        client_alpn_list: b"\x05qtest",
        server_name: b"localhost",
        negotiated_alpn: b"qtest",
    };
    let raw = RawListenerEvent {
        kind: LISTENER_EVENT_NEW_CONNECTION,
        payload: RawListenerPayload::NewConnection {
            info,
            connection: 0x900,
        },
    };
    assert!(raw.is_projectable());
    let (listener, event) = raw_listener_callback(0x800, 0x10, &raw);
    assert_eq!(listener.as_raw(), 0x800);
    match event {
        ListenerEvent::NewConnection { info, connection } => {
            assert_eq!(connection.as_raw(), 0x900);
            assert_eq!(info.quic_version, 1);
            assert_eq!(info.local_address.port(), 4567);
            assert_eq!(info.remote_address.port(), 50000);
            assert_eq!(info.crypto_buffer, b"crypto");
            assert_eq!(info.client_alpn_list, b"\x05qtest");
            assert_eq!(info.server_name, b"localhost");
            assert_eq!(info.negotiated_alpn, b"qtest");
        }
        _ => panic!("not NewConnection"),
    }
}

#[test]
fn new_connection_info_with_empty_buffers() {
    let raw = RawNewConnectionInfo {
        quic_version: 0xff00_001d,
        local_address: v4(1, 1),
        remote_address: v4(1, 2),
        crypto_buffer: &[],
        client_alpn_list: &[],
        server_name: &[],
        negotiated_alpn: &[],
    };
    let info = NewConnectionInfo::from(&raw);
    assert_eq!(info.quic_version, 0xff00_001d);
    assert!(info.crypto_buffer.is_empty());
    assert!(info.client_alpn_list.is_empty());
    assert!(info.server_name.is_empty());
    assert!(info.negotiated_alpn.is_empty());
}

#[test]
fn stop_complete_is_projected() {
    let raw = RawListenerEvent {
        kind: LISTENER_EVENT_STOP_COMPLETE,
        payload: RawListenerPayload::StopComplete {
            app_close_in_progress: 1,
        },
    };
    assert!(raw.is_projectable());
    assert!(matches!(
        ListenerEvent::from(&raw),
        ListenerEvent::StopComplete {
            app_close_in_progress: true
        }
    ));
}

#[test]
fn receive_lets_the_application_lower_the_total_length() {
    let first = b"hello from ";
    let second = b"client";
    let buffers = [BufferRef::from(&first[..]), BufferRef::from(&second[..])];
    let mut raw = RawStreamEvent {
        kind: STREAM_EVENT_RECEIVE,
        payload: RawStreamPayload::Receive {
            absolute_offset: 40,
            total_buffer_length: 17,
            buffers: &buffers,
            flags: 2,
        },
    };
    assert!(raw.is_projectable());
    {
        let (stream, event) = raw_stream_callback(0x500, 0x10, &mut raw);
        assert_eq!(stream.as_raw(), 0x500);
        match event {
            StreamEvent::Receive {
                absolute_offset,
                total_buffer_length,
                buffers,
                flags,
            } => {
                assert_eq!(absolute_offset, 40);
                assert_eq!(*total_buffer_length, 17);
                assert_eq!(buffers.len(), 2);
                let mut text = Vec::new();
                for buffer in buffers {
                    text.extend_from_slice(buffer.as_bytes());
                }
                assert_eq!(text, b"hello from client");
                assert_eq!(flags.bits(), 2);
                *total_buffer_length = 11;
            }
            _ => panic!("not Receive"),
        }
    }
    match raw.payload {
        RawStreamPayload::Receive {
            absolute_offset,
            total_buffer_length,
            buffers,
            flags,
        } => {
            assert_eq!(absolute_offset, 40);
            assert_eq!(total_buffer_length, 11);
            assert_eq!(buffers.len(), 2);
            assert_eq!(flags, 2);
        }
        _ => panic!("the record changed its arm"),
    }
    assert_eq!(raw.kind, STREAM_EVENT_RECEIVE);
}

#[test]
fn cancel_on_loss_lets_the_application_set_the_error_code() {
    let mut raw = RawStreamEvent {
        kind: STREAM_EVENT_CANCEL_ON_LOSS,
        payload: RawStreamPayload::CancelOnLoss { error_code: 0 },
    };
    assert!(raw.is_projectable());
    match StreamEvent::from(&mut raw) {
        StreamEvent::CancelOnLoss { error_code } => {
            assert_eq!(*error_code, 0);
            *error_code = 0x1234;
        }
        _ => panic!("not CancelOnLoss"),
    }
    assert!(matches!(
        raw.payload,
        RawStreamPayload::CancelOnLoss { error_code: 0x1234 }
    ));
}

#[test]
fn receive_with_no_buffers_is_empty() {
    let mut raw = RawStreamEvent {
        kind: STREAM_EVENT_RECEIVE,
        payload: RawStreamPayload::Receive {
            absolute_offset: 0,
            total_buffer_length: 0,
            buffers: &[],
            flags: 0,
        },
    };
    assert!(raw.is_projectable());
    match StreamEvent::from(&mut raw) {
        StreamEvent::Receive {
            total_buffer_length,
            buffers,
            ..
        } => {
            assert_eq!(*total_buffer_length, 0);
            assert!(buffers.is_empty());
        }
        _ => panic!("not Receive"),
    }
}

#[test]
fn stream_events_without_out_fields_are_projected() {
    let mut raw = RawStreamEvent {
        kind: STREAM_EVENT_START_COMPLETE,
        payload: RawStreamPayload::StartComplete {
            status: 0,
            id: 4,
            peer_accepted: 1,
        },
    };
    match StreamEvent::from(&mut raw) {
        StreamEvent::StartComplete {
            status,
            id,
            peer_accepted,
        } => {
            assert!(status.is_ok());
            assert_eq!(id, 4);
            assert!(peer_accepted);
        }
        _ => panic!("not StartComplete"),
    }
    let mut raw = RawStreamEvent {
        kind: STREAM_EVENT_SEND_COMPLETE,
        payload: RawStreamPayload::SendComplete {
            canceled: 0,
            client_context: 0x77,
        },
    };
    assert!(matches!(
        StreamEvent::from(&mut raw),
        StreamEvent::SendComplete {
            cancelled: false,
            client_context: 0x77
        }
    ));
    let mut raw = RawStreamEvent {
        kind: STREAM_EVENT_PEER_SEND_SHUTDOWN,
        payload: RawStreamPayload::PeerSendShutdown,
    };
    assert!(raw.is_projectable());
    assert!(matches!(
        StreamEvent::from(&mut raw),
        StreamEvent::PeerSendShutdown
    ));
    let mut raw = RawStreamEvent {
        kind: STREAM_EVENT_PEER_SEND_ABORTED,
        payload: RawStreamPayload::PeerSendAborted { error_code: 9 },
    };
    assert!(matches!(
        StreamEvent::from(&mut raw),
        StreamEvent::PeerSendAborted { error_code: 9 }
    ));
    let mut raw = RawStreamEvent {
        kind: STREAM_EVENT_PEER_RECEIVE_ABORTED,
        payload: RawStreamPayload::PeerReceiveAborted { error_code: 10 },
    };
    assert!(matches!(
        StreamEvent::from(&mut raw),
        StreamEvent::PeerReceiveAborted { error_code: 10 }
    ));
    let mut raw = RawStreamEvent {
        kind: STREAM_EVENT_SEND_SHUTDOWN_COMPLETE,
        payload: RawStreamPayload::SendShutdownComplete { graceful: 1 },
    };
    assert!(matches!(
        StreamEvent::from(&mut raw),
        StreamEvent::SendShutdownComplete { graceful: true }
    ));
    let mut raw = RawStreamEvent {
        kind: STREAM_EVENT_IDEAL_SEND_BUFFER_SIZE,
        payload: RawStreamPayload::IdealSendBufferSize { byte_count: 65536 },
    };
    assert!(matches!(
        StreamEvent::from(&mut raw),
        StreamEvent::IdealSendBufferSize { byte_count: 65536 }
    ));
    let mut raw = RawStreamEvent {
        kind: STREAM_EVENT_PEER_ACCEPTED,
        payload: RawStreamPayload::PeerAccepted,
    };
    assert!(matches!(
        StreamEvent::from(&mut raw),
        StreamEvent::PeerAccepted
    ));
}

#[test]
fn stream_shutdown_complete_is_projected() {
    let mut raw = RawStreamEvent {
        kind: STREAM_EVENT_SHUTDOWN_COMPLETE,
        payload: RawStreamPayload::ShutdownComplete {
            connection_shutdown: 1,
            app_close_in_progress: 0,
            connection_shutdown_by_app: 1,
            connection_closed_remotely: 0,
            connection_error_code: 3,
            connection_close_status: 125,
        },
    };
    assert!(raw.is_projectable());
    match StreamEvent::from(&mut raw) {
        StreamEvent::ShutdownComplete {
            connection_shutdown,
            app_close_in_progress,
            connection_shutdown_by_app,
            connection_closed_remotely,
            connection_error_code,
            connection_close_status,
        } => {
            assert!(connection_shutdown);
            assert!(!app_close_in_progress);
            assert!(connection_shutdown_by_app);
            assert!(!connection_closed_remotely);
            assert_eq!(connection_error_code, 3);
            assert_eq!(
                connection_close_status,
                Status::new(StatusCode::QUIC_STATUS_ABORTED)
            );
        }
        _ => panic!("not ShutdownComplete"),
    }
}

#[test]
fn address_families_are_told_apart() {
    let v6 = SocketAddress::V6 {
        ip: [0, 0, 0, 0, 0, 0, 0, 0, 0, 0, 0, 0, 0, 0, 0, 1],
        port: 443,
        flow_info: 5,
        scope_id: 6,
    };
    let addr = Addr::from(v6);
    assert_eq!(addr.family, ADDRESS_FAMILY_INET6);
    assert_eq!(addr.port, [1, 187]);
    assert_eq!(addr.port(), 443);
    assert_eq!(addr.as_socket(), Some(v6));

    let v4 = SocketAddress::V4 {
        ip: [127, 0, 0, 1],
        port: 4567,
    };
    let mut addr = Addr::from(v4);
    assert_eq!(addr.family, ADDRESS_FAMILY_INET);
    assert_eq!(addr.port, [0x11, 0xd7]);
    assert_eq!(addr.as_socket(), Some(v4));
    addr.family = 0;
    assert_eq!(addr.as_socket(), None);
    addr.family = 77;
    assert_eq!(addr.as_socket(), None);
    assert_eq!(addr.port(), 4567);
}

#[test]
fn address_families_are_those_of_the_platform() {
    assert_eq!(msquic::addr::ADDRESS_FAMILY_UNSPEC as i32, c_types::AF_UNSPEC);
    assert_eq!(ADDRESS_FAMILY_INET as i32, c_types::AF_INET);
    assert_eq!(ADDRESS_FAMILY_INET6 as i32, c_types::AF_INET6);
}
