//! Projection of native listener events.

use crate::addr::Addr;
use crate::handle::ConnectionRef;
use crate::native::Handle;
use vstd::prelude::*;

verus! {

/// A connection arrived.
pub const LISTENER_EVENT_NEW_CONNECTION: u32 = 0;

/// The listener stopped.
pub const LISTENER_EVENT_STOP_COMPLETE: u32 = 1;

/// What the native library knows of a connection that arrived, as the native
/// record holds it, with each buffer as the slice that its pointer and length
/// designate.
#[derive(Debug, Clone, Copy)]
pub struct RawNewConnectionInfo<'a> {
    pub quic_version: u32,
    pub local_address: Addr,
    pub remote_address: Addr,
    pub crypto_buffer: &'a [u8],
    pub client_alpn_list: &'a [u8],
    pub server_name: &'a [u8],
    pub negotiated_alpn: &'a [u8],
}

/// What the native library knows of a connection that arrived. The buffers are
/// borrowed from the native library until the callback returns.
#[derive(Debug, Clone, Copy)]
pub struct NewConnectionInfo<'a> {
    pub quic_version: u32,
    pub local_address: Addr,
    pub remote_address: Addr,
    pub crypto_buffer: &'a [u8],
    pub client_alpn_list: &'a [u8],
    pub server_name: &'a [u8],
    pub negotiated_alpn: &'a [u8],
}

impl<'a> NewConnectionInfo<'a> {
    /// The information that `raw` holds.
    pub open spec fn of(raw: RawNewConnectionInfo<'a>) -> NewConnectionInfo<'a> {
        NewConnectionInfo {
            quic_version: raw.quic_version,
            local_address: raw.local_address,
            remote_address: raw.remote_address,
            crypto_buffer: raw.crypto_buffer,
            client_alpn_list: raw.client_alpn_list,
            server_name: raw.server_name,
            negotiated_alpn: raw.negotiated_alpn,
        }
    }

    /// Takes every field from the native record; no buffer is copied.
    pub fn from(value: &RawNewConnectionInfo<'a>) -> (info: NewConnectionInfo<'a>)
        ensures
            info == NewConnectionInfo::of(*value),
    {
        NewConnectionInfo {
            quic_version: value.quic_version,
            local_address: value.local_address,
            remote_address: value.remote_address,
            crypto_buffer: value.crypto_buffer,
            client_alpn_list: value.client_alpn_list,
            server_name: value.server_name,
            negotiated_alpn: value.negotiated_alpn,
        }
    }
}

/// The payload of a native listener event: the arm of the native record that
/// the discriminant names.
#[derive(Debug, Clone, Copy)]
pub enum RawListenerPayload<'a> {
    NewConnection { info: RawNewConnectionInfo<'a>, connection: Handle },
    StopComplete { app_close_in_progress: u8 },
}

/// A native listener event record: an integer discriminant and the payload
/// that it names.
#[derive(Debug, Clone, Copy)]
pub struct RawListenerEvent<'a> {
    /// The integer discriminant.
    pub kind: u32,
    /// The payload, read from the arm that the discriminant names.
    pub payload: RawListenerPayload<'a>,
}

/// Listener callback events.
#[derive(Debug)]
pub enum ListenerEvent<'a> {
    /// The application must take ownership of the new connection, and set its
    /// configuration, before it returns from the callback.
    NewConnection { info: NewConnectionInfo<'a>, connection: ConnectionRef },
    StopComplete { app_close_in_progress: bool },
}

impl<'a> RawListenerEvent<'a> {
    /// Whether `kind` is a discriminant that the library maps.
    pub open spec fn is_known_kind(kind: u32) -> bool {
        kind == LISTENER_EVENT_NEW_CONNECTION || kind == LISTENER_EVENT_STOP_COMPLETE
    }

    /// The discriminant that names the arm of `payload`.
    pub open spec fn kind_of(payload: RawListenerPayload<'a>) -> u32 {
        match payload {
            RawListenerPayload::NewConnection { .. } => LISTENER_EVENT_NEW_CONNECTION,
            RawListenerPayload::StopComplete { .. } => LISTENER_EVENT_STOP_COMPLETE,
        }
    }

    /// Whether this record can be projected: its payload is the arm that its
    /// discriminant names. The discriminant is then one that the library maps.
    pub open spec fn projectable(&self) -> bool {
        self.kind == RawListenerEvent::kind_of(self.payload)
    }

    /// Whether `kind` is a discriminant that the library maps. An event with
    /// any other is never projected, not even to an empty event: the callback
    /// is aborted instead.
    pub fn knows_kind(kind: u32) -> (known: bool)
        ensures
            known == RawListenerEvent::is_known_kind(kind),
    {
        kind == LISTENER_EVENT_NEW_CONNECTION || kind == LISTENER_EVENT_STOP_COMPLETE
    }

    /// Whether this record can be projected.
    pub fn is_projectable(&self) -> (yes: bool)
        ensures
            yes == self.projectable(),
            yes ==> RawListenerEvent::is_known_kind(self.kind),
    {
        match self.payload {
            RawListenerPayload::NewConnection { .. } => self.kind == LISTENER_EVENT_NEW_CONNECTION,
            RawListenerPayload::StopComplete { .. } => self.kind == LISTENER_EVENT_STOP_COMPLETE,
        }
    }
}

impl<'a> ListenerEvent<'a> {
    /// Whether this event is the projection of `raw`: the variant that the
    /// discriminant of `raw` names, with every field taken from the matching
    /// arm, and the new connection borrowed, not owned.
    pub open spec fn is_projection_of(self, raw: RawListenerEvent<'a>) -> bool {
        match (raw.payload, self) {
            (
                RawListenerPayload::NewConnection { info: raw_info, connection: handle },
                ListenerEvent::NewConnection { info, connection },
            ) => info == NewConnectionInfo::of(raw_info) && connection.raw() == handle,
            (
                RawListenerPayload::StopComplete { app_close_in_progress: closing },
                ListenerEvent::StopComplete { app_close_in_progress },
            ) => app_close_in_progress == (closing != 0),
            _ => false,
        }
    }

    /// Projects a native listener event. The record must be projectable: an
    /// event with a discriminant that the library does not map is never
    /// projected.
    pub fn from(value: &RawListenerEvent<'a>) -> (event: ListenerEvent<'a>)
        requires
            value.projectable(),
        ensures
            event.is_projection_of(*value),
    {
        match value.payload {
            RawListenerPayload::NewConnection { info, connection } => ListenerEvent::NewConnection {
                info: NewConnectionInfo::from(&info),
                connection: ConnectionRef::from_raw(connection),
            },
            RawListenerPayload::StopComplete { app_close_in_progress } => {
                ListenerEvent::StopComplete { app_close_in_progress: app_close_in_progress != 0 }
            },
        }
    }
}

} // verus!
