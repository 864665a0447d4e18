//! Projection of native stream events. Two of them hold a field that the
//! application may overwrite before it returns from the callback; the event
//! borrows such a field mutably from the native record, so that what the
//! application writes is what the native library reads.

use crate::buffer::BufferRef;
use crate::flags::{ReceiveFlags, RECEIVE_FLAGS_ALL};
use crate::status::{Status, QUIC_STATUS};
use crate::types::u62;
use vstd::prelude::*;

verus! {

/// The stream was started, or failed to start.
pub const STREAM_EVENT_START_COMPLETE: u32 = 0;

/// Data arrived.
pub const STREAM_EVENT_RECEIVE: u32 = 1;

/// A send was completed or canceled.
pub const STREAM_EVENT_SEND_COMPLETE: u32 = 2;

/// The peer closed its direction of the stream.
pub const STREAM_EVENT_PEER_SEND_SHUTDOWN: u32 = 3;

/// The peer aborted its direction of the stream.
pub const STREAM_EVENT_PEER_SEND_ABORTED: u32 = 4;

/// The peer will read no more.
pub const STREAM_EVENT_PEER_RECEIVE_ABORTED: u32 = 5;

/// The local direction of the stream is shut down.
pub const STREAM_EVENT_SEND_SHUTDOWN_COMPLETE: u32 = 6;

/// Both directions are shut down: the handle can be closed.
pub const STREAM_EVENT_SHUTDOWN_COMPLETE: u32 = 7;

/// The send buffer size that suits the stream best changed.
pub const STREAM_EVENT_IDEAL_SEND_BUFFER_SIZE: u32 = 8;

/// The peer accepted the stream.
pub const STREAM_EVENT_PEER_ACCEPTED: u32 = 9;

/// A send is to be canceled because of loss.
pub const STREAM_EVENT_CANCEL_ON_LOSS: u32 = 10;

/// The payload of a native stream event: the arm of the native record that
/// the discriminant names, with each field as the native record holds it and
/// the buffers as borrowed views.
#[derive(Debug)]
pub enum RawStreamPayload<'a> {
    StartComplete { status: QUIC_STATUS, id: u64, peer_accepted: u8 },
    Receive {
        absolute_offset: u64,
        /// Read by the native library after the callback: how many of the
        /// bytes the application has taken.
        total_buffer_length: u64,
        buffers: &'a [BufferRef<'a>],
        flags: u32,
    },
    SendComplete { canceled: u8, client_context: usize },
    PeerSendShutdown,
    PeerSendAborted { error_code: u64 },
    PeerReceiveAborted { error_code: u64 },
    SendShutdownComplete { graceful: u8 },
    ShutdownComplete {
        connection_shutdown: u8,
        app_close_in_progress: u8,
        connection_shutdown_by_app: u8,
        connection_closed_remotely: u8,
        connection_error_code: u64,
        connection_close_status: QUIC_STATUS,
    },
    IdealSendBufferSize { byte_count: u64 },
    PeerAccepted,
    CancelOnLoss {
        /// Read by the native library after the callback: the error code
        /// with which the stream is reset.
        error_code: u64,
    },
}

/// A native stream event record: an integer discriminant and the payload that
/// it names.
#[derive(Debug)]
pub struct RawStreamEvent<'a> {
    /// The integer discriminant.
    pub kind: u32,
    /// The payload, read from the arm that the discriminant names.
    pub payload: RawStreamPayload<'a>,
}

/// Stream callback events.
#[allow(inconsistent_fields)]
#[derive(Debug)]
pub enum StreamEvent<'a> {
    StartComplete { status: Status, id: u62, peer_accepted: bool },
    Receive {
        absolute_offset: u64,
        /// In and out: the number of bytes in the buffers, which the
        /// application may lower to the number that it has taken.
        total_buffer_length: &'a mut u64,
        buffers: &'a [BufferRef<'a>],
        flags: ReceiveFlags,
    },
    SendComplete { cancelled: bool, client_context: usize },
    PeerSendShutdown,
    PeerSendAborted { error_code: u62 },
    PeerReceiveAborted { error_code: u62 },
    SendShutdownComplete { graceful: bool },
    ShutdownComplete {
        connection_shutdown: bool,
        app_close_in_progress: bool,
        connection_shutdown_by_app: bool,
        connection_closed_remotely: bool,
        connection_error_code: u62,
        connection_close_status: Status,
    },
    IdealSendBufferSize { byte_count: u64 },
    PeerAccepted,
    CancelOnLoss {
        /// Out: the error code with which the stream is reset.
        error_code: &'a mut u62,
    },
}

impl<'a> RawStreamEvent<'a> {
    /// Whether `kind` is a discriminant that the library maps.
    pub open spec fn is_known_kind(kind: u32) -> bool {
        kind <= STREAM_EVENT_CANCEL_ON_LOSS
    }

    /// The discriminant that names the arm of `payload`.
    pub open spec fn kind_of(payload: RawStreamPayload<'a>) -> u32 {
        match payload {
            RawStreamPayload::StartComplete { .. } => STREAM_EVENT_START_COMPLETE,
            RawStreamPayload::Receive { .. } => STREAM_EVENT_RECEIVE,
            RawStreamPayload::SendComplete { .. } => STREAM_EVENT_SEND_COMPLETE,
            RawStreamPayload::PeerSendShutdown => STREAM_EVENT_PEER_SEND_SHUTDOWN,
            RawStreamPayload::PeerSendAborted { .. } => STREAM_EVENT_PEER_SEND_ABORTED,
            RawStreamPayload::PeerReceiveAborted { .. } => STREAM_EVENT_PEER_RECEIVE_ABORTED,
            RawStreamPayload::SendShutdownComplete { .. } => STREAM_EVENT_SEND_SHUTDOWN_COMPLETE,
            RawStreamPayload::ShutdownComplete { .. } => STREAM_EVENT_SHUTDOWN_COMPLETE,
            RawStreamPayload::IdealSendBufferSize { .. } => STREAM_EVENT_IDEAL_SEND_BUFFER_SIZE,
            RawStreamPayload::PeerAccepted => STREAM_EVENT_PEER_ACCEPTED,
            RawStreamPayload::CancelOnLoss { .. } => STREAM_EVENT_CANCEL_ON_LOSS,
        }
    }

    /// Whether every field of `payload` holds a value that the native library
    /// defines: flags without an undefined bit.
    pub open spec fn payload_is_valid(payload: RawStreamPayload<'a>) -> bool {
        match payload {
            RawStreamPayload::Receive { flags, .. } => flags & !RECEIVE_FLAGS_ALL == 0,
            _ => true,
        }
    }

    /// Whether this record can be projected: its payload is the arm that its
    /// discriminant names, and the payload is valid. The discriminant is then
    /// one that the library maps.
    pub open spec fn projectable(&self) -> bool {
        &&& self.kind == RawStreamEvent::kind_of(self.payload)
        &&& RawStreamEvent::payload_is_valid(self.payload)
    }

    /// The record with `value` in the field that the application may
    /// overwrite, for an event that has one; the record itself for any other.
    pub open spec fn with_out_value(self, value: u64) -> RawStreamEvent<'a> {
        match self.payload {
            RawStreamPayload::Receive { absolute_offset, total_buffer_length, buffers, flags } => {
                RawStreamEvent {
                    kind: self.kind,
                    payload: RawStreamPayload::Receive {
                        absolute_offset,
                        total_buffer_length: value,
                        buffers,
                        flags,
                    },
                }
            },
            RawStreamPayload::CancelOnLoss { error_code } => RawStreamEvent {
                kind: self.kind,
                payload: RawStreamPayload::CancelOnLoss { error_code: value },
            },
            _ => self,
        }
    }

    /// Whether `kind` is a discriminant that the library maps. An event with
    /// any other is never projected, not even to an empty event: the callback
    /// is aborted instead.
    pub fn knows_kind(kind: u32) -> (known: bool)
        ensures
            known == RawStreamEvent::is_known_kind(kind),
    {
        kind <= STREAM_EVENT_CANCEL_ON_LOSS
    }

    /// Whether this record can be projected.
    pub fn is_projectable(&self) -> (yes: bool)
        ensures
            yes == self.projectable(),
            yes ==> RawStreamEvent::is_known_kind(self.kind),
    {
        match &self.payload {
            RawStreamPayload::StartComplete { .. } => self.kind == STREAM_EVENT_START_COMPLETE,
            RawStreamPayload::Receive { flags, .. } => {
                self.kind == STREAM_EVENT_RECEIVE && *flags & !RECEIVE_FLAGS_ALL == 0
            },
            RawStreamPayload::SendComplete { .. } => self.kind == STREAM_EVENT_SEND_COMPLETE,
            RawStreamPayload::PeerSendShutdown => self.kind == STREAM_EVENT_PEER_SEND_SHUTDOWN,
            RawStreamPayload::PeerSendAborted { .. } => self.kind == STREAM_EVENT_PEER_SEND_ABORTED,
            RawStreamPayload::PeerReceiveAborted { .. } => {
                self.kind == STREAM_EVENT_PEER_RECEIVE_ABORTED
            },
            RawStreamPayload::SendShutdownComplete { .. } => {
                self.kind == STREAM_EVENT_SEND_SHUTDOWN_COMPLETE
            },
            RawStreamPayload::ShutdownComplete { .. } => {
                self.kind == STREAM_EVENT_SHUTDOWN_COMPLETE
            },
            RawStreamPayload::IdealSendBufferSize { .. } => {
                self.kind == STREAM_EVENT_IDEAL_SEND_BUFFER_SIZE
            },
            RawStreamPayload::PeerAccepted => self.kind == STREAM_EVENT_PEER_ACCEPTED,
            RawStreamPayload::CancelOnLoss { .. } => self.kind == STREAM_EVENT_CANCEL_ON_LOSS,
        }
    }
}

impl<'a> StreamEvent<'a> {
    /// Whether this event is the projection of `raw`: the variant that the
    /// discriminant of `raw` names, with every field taken from the matching
    /// arm. A field that the application may overwrite holds, at first, what
    /// the native record holds.
    pub open spec fn is_projection_of(self, raw: RawStreamEvent<'a>) -> bool {
        match (raw.payload, self) {
            (
                RawStreamPayload::StartComplete { status: code, id: stream_id, peer_accepted: accepted },
                StreamEvent::StartComplete { status, id, peer_accepted },
            ) => status == Status(code) && id == stream_id && peer_accepted == (accepted != 0),
            (
                RawStreamPayload::Receive {
                    absolute_offset: offset,
                    total_buffer_length: total,
                    buffers: views,
                    flags: bits,
                },
                StreamEvent::Receive { absolute_offset, total_buffer_length, buffers, flags },
            ) => {
                &&& absolute_offset == offset
                &&& *total_buffer_length == total
                &&& buffers == views
                &&& flags.bits() == bits
            },
            (
                RawStreamPayload::SendComplete { canceled, client_context: context },
                StreamEvent::SendComplete { cancelled, client_context },
            ) => cancelled == (canceled != 0) && client_context == context,
            (RawStreamPayload::PeerSendShutdown, StreamEvent::PeerSendShutdown) => true,
            (
                RawStreamPayload::PeerSendAborted { error_code: error },
                StreamEvent::PeerSendAborted { error_code },
            ) => error_code == error,
            (
                RawStreamPayload::PeerReceiveAborted { error_code: error },
                StreamEvent::PeerReceiveAborted { error_code },
            ) => error_code == error,
            (
                RawStreamPayload::SendShutdownComplete { graceful: flag },
                StreamEvent::SendShutdownComplete { graceful },
            ) => graceful == (flag != 0),
            (
                RawStreamPayload::ShutdownComplete {
                    connection_shutdown: shutdown,
                    app_close_in_progress: closing,
                    connection_shutdown_by_app: by_app,
                    connection_closed_remotely: remotely,
                    connection_error_code: error,
                    connection_close_status: code,
                },
                StreamEvent::ShutdownComplete {
                    connection_shutdown,
                    app_close_in_progress,
                    connection_shutdown_by_app,
                    connection_closed_remotely,
                    connection_error_code,
                    connection_close_status,
                },
            ) => {
                &&& connection_shutdown == (shutdown != 0)
                &&& app_close_in_progress == (closing != 0)
                &&& connection_shutdown_by_app == (by_app != 0)
                &&& connection_closed_remotely == (remotely != 0)
                &&& connection_error_code == error
                &&& connection_close_status == Status(code)
            },
            (
                RawStreamPayload::IdealSendBufferSize { byte_count: count },
                StreamEvent::IdealSendBufferSize { byte_count },
            ) => byte_count == count,
            (RawStreamPayload::PeerAccepted, StreamEvent::PeerAccepted) => true,
            (
                RawStreamPayload::CancelOnLoss { error_code: error },
                StreamEvent::CancelOnLoss { error_code },
            ) => *error_code == error,
            _ => false,
        }
    }

    /// Projects a native stream event. The record must be projectable: an
    /// event with a discriminant that the library does not map is never
    /// projected. What the application writes through the event is written
    /// to the native record, and nothing else of the record changes.
    pub fn from<'b: 'a>(value: &'a mut RawStreamEvent<'b>) -> (event: StreamEvent<'a>)
        requires
            old(value).projectable(),
        ensures
            event.is_projection_of(*old(value)),
            match event {
                StreamEvent::Receive { total_buffer_length, .. } => *final(value) == old(
                    value,
                ).with_out_value(*final(total_buffer_length)),
                StreamEvent::CancelOnLoss { error_code } => *final(value) == old(
                    value,
                ).with_out_value(*final(error_code)),
                _ => *final(value) == *old(value),
            },
    {
        match &mut value.payload {
            RawStreamPayload::StartComplete { status, id, peer_accepted } => {
                StreamEvent::StartComplete {
                    status: Status(*status),
                    id: *id,
                    peer_accepted: *peer_accepted != 0,
                }
            },
            RawStreamPayload::Receive { absolute_offset, total_buffer_length, buffers, flags } => {
                match ReceiveFlags::from_bits(*flags) {
                    Some(flags) => StreamEvent::Receive {
                        absolute_offset: *absolute_offset,
                        total_buffer_length,
                        buffers: *buffers,
                        flags,
                    },
                    None => vstd::pervasive::unreached(),
                }
            },
            RawStreamPayload::SendComplete { canceled, client_context } => {
                StreamEvent::SendComplete {
                    cancelled: *canceled != 0,
                    client_context: *client_context,
                }
            },
            RawStreamPayload::PeerSendShutdown => StreamEvent::PeerSendShutdown,
            RawStreamPayload::PeerSendAborted { error_code } => {
                StreamEvent::PeerSendAborted { error_code: *error_code }
            },
            RawStreamPayload::PeerReceiveAborted { error_code } => {
                StreamEvent::PeerReceiveAborted { error_code: *error_code }
            },
            RawStreamPayload::SendShutdownComplete { graceful } => {
                StreamEvent::SendShutdownComplete { graceful: *graceful != 0 }
            },
            RawStreamPayload::ShutdownComplete {
                connection_shutdown,
                app_close_in_progress,
                connection_shutdown_by_app,
                connection_closed_remotely,
                connection_error_code,
                connection_close_status,
            } => StreamEvent::ShutdownComplete {
                connection_shutdown: *connection_shutdown != 0,
                app_close_in_progress: *app_close_in_progress != 0,
                connection_shutdown_by_app: *connection_shutdown_by_app != 0,
                connection_closed_remotely: *connection_closed_remotely != 0,
                connection_error_code: *connection_error_code,
                connection_close_status: Status(*connection_close_status),
            },
            RawStreamPayload::IdealSendBufferSize { byte_count } => {
                StreamEvent::IdealSendBufferSize { byte_count: *byte_count }
            },
            RawStreamPayload::PeerAccepted => StreamEvent::PeerAccepted,
            RawStreamPayload::CancelOnLoss { error_code } => StreamEvent::CancelOnLoss { error_code },
        }
    }
}

} // verus!
