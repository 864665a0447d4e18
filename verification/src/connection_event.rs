//! Projection of native connection events: from the native event record, an
//! integer discriminant with a payload that has no tag of its own, to a tagged
//! event that borrows the native buffers for the length of one callback.

use crate::addr::Addr;
use crate::buffer::BufferRef;
use crate::flags::{ReceiveFlags, StreamOpenFlags, RECEIVE_FLAGS_ALL, STREAM_OPEN_FLAGS_ALL};
use crate::handle::StreamRef;
use crate::native::Handle;
use crate::status::{Status, QUIC_STATUS};
use crate::types::{u62, DatagramSendState};
use vstd::prelude::*;

verus! {

/// The handshake is complete.
pub const CONNECTION_EVENT_CONNECTED: u32 = 0;

/// The transport started the shutdown process.
pub const CONNECTION_EVENT_SHUTDOWN_INITIATED_BY_TRANSPORT: u32 = 1;

/// The peer application started the shutdown process.
pub const CONNECTION_EVENT_SHUTDOWN_INITIATED_BY_PEER: u32 = 2;

/// The connection is ready for its handle to be closed.
pub const CONNECTION_EVENT_SHUTDOWN_COMPLETE: u32 = 3;

/// The local address changed.
pub const CONNECTION_EVENT_LOCAL_ADDRESS_CHANGED: u32 = 4;

/// The peer's address changed.
pub const CONNECTION_EVENT_PEER_ADDRESS_CHANGED: u32 = 5;

/// The peer opened a stream.
pub const CONNECTION_EVENT_PEER_STREAM_STARTED: u32 = 6;

/// More streams may be opened.
pub const CONNECTION_EVENT_STREAMS_AVAILABLE: u32 = 7;

/// The peer is out of streams.
pub const CONNECTION_EVENT_PEER_NEEDS_STREAMS: u32 = 8;

/// The processor that suits the connection best changed.
pub const CONNECTION_EVENT_IDEAL_PROCESSOR_CHANGED: u32 = 9;

/// Whether datagrams can be sent, or how long one may be, changed.
pub const CONNECTION_EVENT_DATAGRAM_STATE_CHANGED: u32 = 10;

/// A datagram arrived.
pub const CONNECTION_EVENT_DATAGRAM_RECEIVED: u32 = 11;

/// A datagram that was sent changed its state.
pub const CONNECTION_EVENT_DATAGRAM_SEND_STATE_CHANGED: u32 = 12;

/// The connection was resumed; server only.
pub const CONNECTION_EVENT_RESUMED: u32 = 13;

/// A resumption ticket arrived; client only.
pub const CONNECTION_EVENT_RESUMPTION_TICKET_RECEIVED: u32 = 14;

/// The peer's certificate arrived.
pub const CONNECTION_EVENT_PEER_CERTIFICATE_RECEIVED: u32 = 15;

/// A path was added.
pub const CONNECTION_EVENT_PATH_ADDED: u32 = 19;

/// A path was removed.
pub const CONNECTION_EVENT_PATH_REMOVED: u32 = 20;

/// A path became active or inactive.
pub const CONNECTION_EVENT_PATH_STATUS_CHANGED: u32 = 21;

/// The payload of a native connection event: the arm of the native record
/// that the discriminant names, with each field as the native record holds it
/// and each buffer as the slice that its pointer and length designate.
#[derive(Debug, Clone, Copy)]
pub enum RawConnectionPayload<'a> {
    Connected { session_resumed: u8, negotiated_alpn: &'a [u8] },
    ShutdownInitiatedByTransport { status: QUIC_STATUS, error_code: u64 },
    ShutdownInitiatedByPeer { error_code: u64 },
    ShutdownComplete {
        handshake_completed: u8,
        peer_acknowledged_shutdown: u8,
        app_close_in_progress: u8,
    },
    LocalAddressChanged { address: Addr },
    PeerAddressChanged { address: Addr },
    PeerStreamStarted { stream: Handle, flags: u32 },
    StreamsAvailable { bidirectional_count: u16, unidirectional_count: u16 },
    PeerNeedsStreams { bidirectional: u8 },
    IdealProcessorChanged { ideal_processor: u16, partition_index: u16 },
    DatagramStateChanged { send_enabled: u8, max_send_length: u16 },
    DatagramReceived { buffer: &'a [u8], flags: u32 },
    DatagramSendStateChanged { client_context: usize, state: u32 },
    Resumed { resumption_state: &'a [u8] },
    ResumptionTicketReceived { resumption_ticket: &'a [u8] },
    PeerCertificateReceived {
        certificate: usize,
        deferred_error_flags: u32,
        deferred_status: QUIC_STATUS,
        chain: usize,
    },
    PathAdded { peer_address: Addr, local_address: Addr, path_id: u32 },
    PathRemoved { peer_address: Addr, local_address: Addr, path_id: u32 },
    PathStatusChanged { peer_address: Addr, local_address: Addr, path_id: u32, is_active: u8 },
}

/// A native connection event record: an integer discriminant and the payload
/// that it names.
#[derive(Debug, Clone, Copy)]
pub struct RawConnectionEvent<'a> {
    /// The integer discriminant.
    pub kind: u32,
    /// The payload, read from the arm that the discriminant names.
    pub payload: RawConnectionPayload<'a>,
}

/// Connection callback events.
#[allow(inconsistent_fields)]
#[derive(Debug)]
pub enum ConnectionEvent<'a> {
    Connected { session_resumed: bool, negotiated_alpn: &'a [u8] },
    /// The transport started the shutdown process.
    ShutdownInitiatedByTransport { status: Status, error_code: u62 },
    /// The peer application started the shutdown process.
    ShutdownInitiatedByPeer { error_code: u62 },
    /// Ready for the handle to be closed.
    ShutdownComplete {
        handshake_completed: bool,
        peer_acknowledged_shutdown: bool,
        app_close_in_progress: bool,
    },
    LocalAddressChanged { address: Addr },
    PeerAddressChanged { address: Addr },
    /// Stream ownership and cleanup is on the application, which must set the
    /// stream's callback handler before it returns from the connection
    /// callback.
    PeerStreamStarted { stream: StreamRef, flags: StreamOpenFlags },
    StreamsAvailable { bidirectional_count: u16, unidirectional_count: u16 },
    PeerNeedsStreams { bidirectional: bool },
    IdealProcessorChanged { ideal_processor: u16, partition_index: u16 },
    DatagramStateChanged { send_enabled: bool, max_send_length: u16 },
    DatagramReceived { buffer: BufferRef<'a>, flags: ReceiveFlags },
    DatagramSendStateChanged { client_context: usize, state: DatagramSendState },
    /// Server-only; provides resumption data, if any.
    Resumed { resumption_state: &'a [u8] },
    /// Client-only; provides ticket to persist, if any.
    ResumptionTicketReceived { resumption_ticket: &'a [u8] },
    /// Only where the credential asks for the peer's certificate.
    PeerCertificateReceived {
        certificate: usize,
        deferred_error_flags: u32,
        deferred_status: Status,
        chain: usize,
    },
    PathAdded { peer_address: Addr, local_address: Addr, path_id: u32 },
    PathRemoved { peer_address: Addr, local_address: Addr, path_id: u32 },
    PathStatusChanged { peer_address: Addr, local_address: Addr, path_id: u32, is_active: bool },
}

impl<'a> RawConnectionEvent<'a> {
    /// Whether `kind` is a discriminant that the library maps.
    pub open spec fn is_known_kind(kind: u32) -> bool {
        kind <= CONNECTION_EVENT_PEER_CERTIFICATE_RECEIVED || (CONNECTION_EVENT_PATH_ADDED <= kind
            <= CONNECTION_EVENT_PATH_STATUS_CHANGED)
    }

    /// The discriminant that names the arm of `payload`.
    pub open spec fn kind_of(payload: RawConnectionPayload<'a>) -> u32 {
        match payload {
            RawConnectionPayload::Connected { .. } => CONNECTION_EVENT_CONNECTED,
            RawConnectionPayload::ShutdownInitiatedByTransport { .. } => {
                CONNECTION_EVENT_SHUTDOWN_INITIATED_BY_TRANSPORT
            },
            RawConnectionPayload::ShutdownInitiatedByPeer { .. } => {
                CONNECTION_EVENT_SHUTDOWN_INITIATED_BY_PEER
            },
            RawConnectionPayload::ShutdownComplete { .. } => CONNECTION_EVENT_SHUTDOWN_COMPLETE,
            RawConnectionPayload::LocalAddressChanged { .. } => {
                CONNECTION_EVENT_LOCAL_ADDRESS_CHANGED
            },
            RawConnectionPayload::PeerAddressChanged { .. } => {
                CONNECTION_EVENT_PEER_ADDRESS_CHANGED
            },
            RawConnectionPayload::PeerStreamStarted { .. } => CONNECTION_EVENT_PEER_STREAM_STARTED,
            RawConnectionPayload::StreamsAvailable { .. } => CONNECTION_EVENT_STREAMS_AVAILABLE,
            RawConnectionPayload::PeerNeedsStreams { .. } => CONNECTION_EVENT_PEER_NEEDS_STREAMS,
            RawConnectionPayload::IdealProcessorChanged { .. } => {
                CONNECTION_EVENT_IDEAL_PROCESSOR_CHANGED
            },
            RawConnectionPayload::DatagramStateChanged { .. } => {
                CONNECTION_EVENT_DATAGRAM_STATE_CHANGED
            },
            RawConnectionPayload::DatagramReceived { .. } => CONNECTION_EVENT_DATAGRAM_RECEIVED,
            RawConnectionPayload::DatagramSendStateChanged { .. } => {
                CONNECTION_EVENT_DATAGRAM_SEND_STATE_CHANGED
            },
            RawConnectionPayload::Resumed { .. } => CONNECTION_EVENT_RESUMED,
            RawConnectionPayload::ResumptionTicketReceived { .. } => {
                CONNECTION_EVENT_RESUMPTION_TICKET_RECEIVED
            },
            RawConnectionPayload::PeerCertificateReceived { .. } => {
                CONNECTION_EVENT_PEER_CERTIFICATE_RECEIVED
            },
            RawConnectionPayload::PathAdded { .. } => CONNECTION_EVENT_PATH_ADDED,
            RawConnectionPayload::PathRemoved { .. } => CONNECTION_EVENT_PATH_REMOVED,
            RawConnectionPayload::PathStatusChanged { .. } => CONNECTION_EVENT_PATH_STATUS_CHANGED,
        }
    }

    /// Whether every field of `payload` holds a value that the native library
    /// defines: flags without an undefined bit, a send state that exists, a
    /// buffer whose length a native length field holds.
    pub open spec fn payload_is_valid(payload: RawConnectionPayload<'a>) -> bool {
        match payload {
            RawConnectionPayload::PeerStreamStarted { flags, .. } => flags & !STREAM_OPEN_FLAGS_ALL
                == 0,
            RawConnectionPayload::DatagramReceived { buffer, flags } => {
                &&& flags & !RECEIVE_FLAGS_ALL == 0
                &&& buffer@.len() <= u32::MAX
            },
            RawConnectionPayload::DatagramSendStateChanged { state, .. } => {
                DatagramSendState::is_known(state)
            },
            _ => true,
        }
    }

    /// Whether this record can be projected: its payload is the arm that its
    /// discriminant names, and the payload is valid. The discriminant is then
    /// one that the library maps.
    pub open spec fn projectable(&self) -> bool {
        &&& self.kind == RawConnectionEvent::kind_of(self.payload)
        &&& RawConnectionEvent::payload_is_valid(self.payload)
    }

    /// Whether `kind` is a discriminant that the library maps. An event with
    /// any other is never projected, not even to an empty event: the callback
    /// is aborted instead.
    pub fn knows_kind(kind: u32) -> (known: bool)
        ensures
            known == RawConnectionEvent::is_known_kind(kind),
    {
        kind <= CONNECTION_EVENT_PEER_CERTIFICATE_RECEIVED || (CONNECTION_EVENT_PATH_ADDED <= kind
            && kind <= CONNECTION_EVENT_PATH_STATUS_CHANGED)
    }

    /// Whether this record can be projected.
    pub fn is_projectable(&self) -> (yes: bool)
        ensures
            yes == self.projectable(),
            yes ==> RawConnectionEvent::is_known_kind(self.kind),
    {
        match self.payload {
            RawConnectionPayload::Connected { .. } => self.kind == CONNECTION_EVENT_CONNECTED,
            RawConnectionPayload::ShutdownInitiatedByTransport { .. } => {
                self.kind == CONNECTION_EVENT_SHUTDOWN_INITIATED_BY_TRANSPORT
            },
            RawConnectionPayload::ShutdownInitiatedByPeer { .. } => {
                self.kind == CONNECTION_EVENT_SHUTDOWN_INITIATED_BY_PEER
            },
            RawConnectionPayload::ShutdownComplete { .. } => {
                self.kind == CONNECTION_EVENT_SHUTDOWN_COMPLETE
            },
            RawConnectionPayload::LocalAddressChanged { .. } => {
                self.kind == CONNECTION_EVENT_LOCAL_ADDRESS_CHANGED
            },
            RawConnectionPayload::PeerAddressChanged { .. } => {
                self.kind == CONNECTION_EVENT_PEER_ADDRESS_CHANGED
            },
            RawConnectionPayload::PeerStreamStarted { flags, .. } => {
                self.kind == CONNECTION_EVENT_PEER_STREAM_STARTED && flags & !STREAM_OPEN_FLAGS_ALL
                    == 0
            },
            RawConnectionPayload::StreamsAvailable { .. } => {
                self.kind == CONNECTION_EVENT_STREAMS_AVAILABLE
            },
            RawConnectionPayload::PeerNeedsStreams { .. } => {
                self.kind == CONNECTION_EVENT_PEER_NEEDS_STREAMS
            },
            RawConnectionPayload::IdealProcessorChanged { .. } => {
                self.kind == CONNECTION_EVENT_IDEAL_PROCESSOR_CHANGED
            },
            RawConnectionPayload::DatagramStateChanged { .. } => {
                self.kind == CONNECTION_EVENT_DATAGRAM_STATE_CHANGED
            },
            RawConnectionPayload::DatagramReceived { buffer, flags } => {
                self.kind == CONNECTION_EVENT_DATAGRAM_RECEIVED && flags & !RECEIVE_FLAGS_ALL == 0
                    && buffer.len() <= 0xffff_ffff
            },
            RawConnectionPayload::DatagramSendStateChanged { state, .. } => {
                self.kind == CONNECTION_EVENT_DATAGRAM_SEND_STATE_CHANGED
                    && DatagramSendState::lookup(state).is_some()
            },
            RawConnectionPayload::Resumed { .. } => self.kind == CONNECTION_EVENT_RESUMED,
            RawConnectionPayload::ResumptionTicketReceived { .. } => {
                self.kind == CONNECTION_EVENT_RESUMPTION_TICKET_RECEIVED
            },
            RawConnectionPayload::PeerCertificateReceived { .. } => {
                self.kind == CONNECTION_EVENT_PEER_CERTIFICATE_RECEIVED
            },
            RawConnectionPayload::PathAdded { .. } => self.kind == CONNECTION_EVENT_PATH_ADDED,
            RawConnectionPayload::PathRemoved { .. } => self.kind == CONNECTION_EVENT_PATH_REMOVED,
            RawConnectionPayload::PathStatusChanged { .. } => {
                self.kind == CONNECTION_EVENT_PATH_STATUS_CHANGED
            },
        }
    }
}

impl<'a> ConnectionEvent<'a> {
    /// Whether this event is the projection of `raw`: the variant that the
    /// discriminant of `raw` names, with every field taken from the matching
    /// arm. An integer that stands for a truth value is true unless it is
    /// zero; a buffer is borrowed, not copied; a handle is borrowed, not owned.
    pub open spec fn is_projection_of(self, raw: RawConnectionEvent<'a>) -> bool {
        match (raw.payload, self) {
            (
                RawConnectionPayload::Connected { session_resumed: resumed, negotiated_alpn: alpn },
                ConnectionEvent::Connected { session_resumed, negotiated_alpn },
            ) => session_resumed == (resumed != 0) && negotiated_alpn == alpn,
            (
                RawConnectionPayload::ShutdownInitiatedByTransport { status: code, error_code: error },
                ConnectionEvent::ShutdownInitiatedByTransport { status, error_code },
            ) => status == Status(code) && error_code == error,
            (
                RawConnectionPayload::ShutdownInitiatedByPeer { error_code: error },
                ConnectionEvent::ShutdownInitiatedByPeer { error_code },
            ) => error_code == error,
            (
                RawConnectionPayload::ShutdownComplete {
                    handshake_completed: completed,
                    peer_acknowledged_shutdown: acknowledged,
                    app_close_in_progress: closing,
                },
                ConnectionEvent::ShutdownComplete {
                    handshake_completed,
                    peer_acknowledged_shutdown,
                    app_close_in_progress,
                },
            ) => {
                &&& handshake_completed == (completed != 0)
                &&& peer_acknowledged_shutdown == (acknowledged != 0)
                &&& app_close_in_progress == (closing != 0)
            },
            (
                RawConnectionPayload::LocalAddressChanged { address: local },
                ConnectionEvent::LocalAddressChanged { address },
            ) => address == local,
            (
                RawConnectionPayload::PeerAddressChanged { address: peer },
                ConnectionEvent::PeerAddressChanged { address },
            ) => address == peer,
            (
                RawConnectionPayload::PeerStreamStarted { stream: handle, flags: bits },
                ConnectionEvent::PeerStreamStarted { stream, flags },
            ) => stream.raw() == handle && flags.bits() == bits,
            (
                RawConnectionPayload::StreamsAvailable {
                    bidirectional_count: bidirectional,
                    unidirectional_count: unidirectional,
                },
                ConnectionEvent::StreamsAvailable { bidirectional_count, unidirectional_count },
            ) => bidirectional_count == bidirectional && unidirectional_count == unidirectional,
            (
                RawConnectionPayload::PeerNeedsStreams { bidirectional: needs },
                ConnectionEvent::PeerNeedsStreams { bidirectional },
            ) => bidirectional == (needs != 0),
            (
                RawConnectionPayload::IdealProcessorChanged {
                    ideal_processor: processor,
                    partition_index: partition,
                },
                ConnectionEvent::IdealProcessorChanged { ideal_processor, partition_index },
            ) => ideal_processor == processor && partition_index == partition,
            (
                RawConnectionPayload::DatagramStateChanged {
                    send_enabled: enabled,
                    max_send_length: length,
                },
                ConnectionEvent::DatagramStateChanged { send_enabled, max_send_length },
            ) => send_enabled == (enabled != 0) && max_send_length == length,
            (
                RawConnectionPayload::DatagramReceived { buffer: bytes, flags: bits },
                ConnectionEvent::DatagramReceived { buffer, flags },
            ) => buffer == BufferRef::holding(bytes@) && flags.bits() == bits,
            (
                RawConnectionPayload::DatagramSendStateChanged {
                    client_context: context,
                    state: code,
                },
                ConnectionEvent::DatagramSendStateChanged { client_context, state },
            ) => client_context == context && state == DatagramSendState::of(code),
            (
                RawConnectionPayload::Resumed { resumption_state: bytes },
                ConnectionEvent::Resumed { resumption_state },
            ) => resumption_state == bytes,
            (
                RawConnectionPayload::ResumptionTicketReceived { resumption_ticket: bytes },
                ConnectionEvent::ResumptionTicketReceived { resumption_ticket },
            ) => resumption_ticket == bytes,
            (
                RawConnectionPayload::PeerCertificateReceived {
                    certificate: peer_certificate,
                    deferred_error_flags: error_flags,
                    deferred_status: code,
                    chain: peer_chain,
                },
                ConnectionEvent::PeerCertificateReceived {
                    certificate,
                    deferred_error_flags,
                    deferred_status,
                    chain,
                },
            ) => {
                &&& certificate == peer_certificate
                &&& deferred_error_flags == error_flags
                &&& deferred_status == Status(code)
                &&& chain == peer_chain
            },
            (
                RawConnectionPayload::PathAdded { peer_address: peer, local_address: local, path_id: id },
                ConnectionEvent::PathAdded { peer_address, local_address, path_id },
            ) => peer_address == peer && local_address == local && path_id == id,
            (
                RawConnectionPayload::PathRemoved {
                    peer_address: peer,
                    local_address: local,
                    path_id: id,
                },
                ConnectionEvent::PathRemoved { peer_address, local_address, path_id },
            ) => peer_address == peer && local_address == local && path_id == id,
            (
                RawConnectionPayload::PathStatusChanged {
                    peer_address: peer,
                    local_address: local,
                    path_id: id,
                    is_active: active,
                },
                ConnectionEvent::PathStatusChanged { peer_address, local_address, path_id, is_active },
            ) => {
                &&& peer_address == peer
                &&& local_address == local
                &&& path_id == id
                &&& is_active == (active != 0)
            },
            _ => false,
        }
    }

    /// Projects a native connection event. The record must be projectable: an
    /// event with a discriminant that the library does not map is never
    /// projected, and of a payload only the arm that the discriminant names
    /// is read.
    pub fn from(raw: &RawConnectionEvent<'a>) -> (event: ConnectionEvent<'a>)
        requires
            raw.projectable(),
        ensures
            event.is_projection_of(*raw),
    {
        match raw.payload {
            RawConnectionPayload::Connected { session_resumed, negotiated_alpn } => {
                ConnectionEvent::Connected {
                    session_resumed: session_resumed != 0,
                    negotiated_alpn,
                }
            },
            RawConnectionPayload::ShutdownInitiatedByTransport { status, error_code } => {
                ConnectionEvent::ShutdownInitiatedByTransport { status: Status(status), error_code }
            },
            RawConnectionPayload::ShutdownInitiatedByPeer { error_code } => {
                ConnectionEvent::ShutdownInitiatedByPeer { error_code }
            },
            RawConnectionPayload::ShutdownComplete {
                handshake_completed,
                peer_acknowledged_shutdown,
                app_close_in_progress,
            } => ConnectionEvent::ShutdownComplete {
                handshake_completed: handshake_completed != 0,
                peer_acknowledged_shutdown: peer_acknowledged_shutdown != 0,
                app_close_in_progress: app_close_in_progress != 0,
            },
            RawConnectionPayload::LocalAddressChanged { address } => {
                ConnectionEvent::LocalAddressChanged { address }
            },
            RawConnectionPayload::PeerAddressChanged { address } => {
                ConnectionEvent::PeerAddressChanged { address }
            },
            RawConnectionPayload::PeerStreamStarted { stream, flags } => {
                match StreamOpenFlags::from_bits(flags) {
                    Some(flags) => ConnectionEvent::PeerStreamStarted {
                        stream: StreamRef::from_raw(stream),
                        flags,
                    },
                    None => vstd::pervasive::unreached(),
                }
            },
            RawConnectionPayload::StreamsAvailable { bidirectional_count, unidirectional_count } => {
                ConnectionEvent::StreamsAvailable { bidirectional_count, unidirectional_count }
            },
            RawConnectionPayload::PeerNeedsStreams { bidirectional } => {
                ConnectionEvent::PeerNeedsStreams { bidirectional: bidirectional != 0 }
            },
            RawConnectionPayload::IdealProcessorChanged { ideal_processor, partition_index } => {
                ConnectionEvent::IdealProcessorChanged { ideal_processor, partition_index }
            },
            RawConnectionPayload::DatagramStateChanged { send_enabled, max_send_length } => {
                ConnectionEvent::DatagramStateChanged {
                    send_enabled: send_enabled != 0,
                    max_send_length,
                }
            },
            RawConnectionPayload::DatagramReceived { buffer, flags } => {
                match ReceiveFlags::from_bits(flags) {
                    Some(flags) => ConnectionEvent::DatagramReceived {
                        buffer: BufferRef::from_ffi_ref(buffer),
                        flags,
                    },
                    None => vstd::pervasive::unreached(),
                }
            },
            RawConnectionPayload::DatagramSendStateChanged { client_context, state } => {
                ConnectionEvent::DatagramSendStateChanged {
                    client_context,
                    state: DatagramSendState::from(state),
                }
            },
            RawConnectionPayload::Resumed { resumption_state } => {
                ConnectionEvent::Resumed { resumption_state }
            },
            RawConnectionPayload::ResumptionTicketReceived { resumption_ticket } => {
                ConnectionEvent::ResumptionTicketReceived { resumption_ticket }
            },
            RawConnectionPayload::PeerCertificateReceived {
                certificate,
                deferred_error_flags,
                deferred_status,
                chain,
            } => ConnectionEvent::PeerCertificateReceived {
                certificate,
                deferred_error_flags,
                deferred_status: Status(deferred_status),
                chain,
            },
            RawConnectionPayload::PathAdded { peer_address, local_address, path_id } => {
                ConnectionEvent::PathAdded { peer_address, local_address, path_id }
            },
            RawConnectionPayload::PathRemoved { peer_address, local_address, path_id } => {
                ConnectionEvent::PathRemoved { peer_address, local_address, path_id }
            },
            RawConnectionPayload::PathStatusChanged {
                peer_address,
                local_address,
                path_id,
                is_active,
            } => ConnectionEvent::PathStatusChanged {
                peer_address,
                local_address,
                path_id,
                is_active: is_active != 0,
            },
        }
    }
}

} // verus!
