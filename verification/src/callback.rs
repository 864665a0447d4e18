//! The trampolines: what the function that the native library calls for
//! every event of an object does. On the way in, the raw handle becomes a
//! borrowed wrapper and the raw event a projected event; the callback is
//! borrowed from the context, never taken out of it. On the way out, what the
//! callback returned becomes the native status.

use crate::connection_event::{ConnectionEvent, RawConnectionEvent};
use crate::handle::{ConnectionRef, ListenerRef, StreamRef};
use crate::listener_event::{ListenerEvent, RawListenerEvent};
use crate::native::{Context, Handle, NULL_CONTEXT};
use crate::status::{Status, StatusCode, QUIC_STATUS};
use crate::stream_event::{RawStreamEvent, StreamEvent};
use vstd::prelude::*;

verus! {

/// The native status for what a callback returned: success for nothing, the
/// status itself for an error.
pub open spec fn status_of(outcome: Result<(), Status>) -> QUIC_STATUS {
    match outcome {
        Ok(_) => StatusCode::QUIC_STATUS_SUCCESS.raw(),
        Err(status) => status.0,
    }
}

/// Maps what a callback returned to the status that the trampoline returns to
/// the native library.
pub fn callback_status(outcome: Result<(), Status>) -> (status: QUIC_STATUS)
    ensures
        status == status_of(outcome),
{
    match outcome {
        Ok(_) => StatusCode::QUIC_STATUS_SUCCESS.to_raw(),
        Err(status) => status.0,
    }
}

/// The way into the trampoline of connections: what to invoke the callback
/// with. The context must hold a callback, and the event must be one that can
/// be projected.
pub fn raw_conn_callback<'a>(
    connection: Handle,
    context: Context,
    event: &RawConnectionEvent<'a>,
) -> (arguments: (ConnectionRef, ConnectionEvent<'a>))
    requires
        context != NULL_CONTEXT,
        event.projectable(),
    ensures
        arguments.0.raw() == connection,
        arguments.1.is_projection_of(*event),
{
    let conn = ConnectionRef::from_raw(connection);
    let event = ConnectionEvent::from(event);
    (conn, event)
}

/// The way into the trampoline of listeners: what to invoke the callback
/// with. The context must hold a callback, and the event must be one that can
/// be projected.
pub fn raw_listener_callback<'a>(
    listener: Handle,
    context: Context,
    event: &RawListenerEvent<'a>,
) -> (arguments: (ListenerRef, ListenerEvent<'a>))
    requires
        context != NULL_CONTEXT,
        event.projectable(),
    ensures
        arguments.0.raw() == listener,
        arguments.1.is_projection_of(*event),
{
    let listener_ref = ListenerRef::from_raw(listener);
    let event = ListenerEvent::from(event);
    (listener_ref, event)
}

/// The way into the trampoline of streams: what to invoke the callback with.
/// The context must hold a callback, and the event must be one that can be
/// projected. What the callback writes through the event is written to the
/// native record.
pub fn raw_stream_callback<'a, 'b: 'a>(
    stream: Handle,
    context: Context,
    event: &'a mut RawStreamEvent<'b>,
) -> (arguments: (StreamRef, StreamEvent<'a>))
    requires
        context != NULL_CONTEXT,
        old(event).projectable(),
    ensures
        arguments.0.raw() == stream,
        arguments.1.is_projection_of(*old(event)),
        match arguments.1 {
            StreamEvent::Receive { total_buffer_length, .. } => *final(event) == old(
                event,
            ).with_out_value(*final(total_buffer_length)),
            StreamEvent::CancelOnLoss { error_code } => *final(event) == old(
                event,
            ).with_out_value(*final(error_code)),
            _ => *final(event) == *old(event),
        },
{
    let stream_ref = StreamRef::from_raw(stream);
    let event = StreamEvent::from(event);
    (stream_ref, event)
}

/// The trampoline of connections: invokes `callback`, the callback that the
/// context holds, with the borrowed connection and the projected event, and
/// returns the native status for what it returned. The callback is borrowed
/// mutably: the native library never runs it concurrently with itself.
pub fn dispatch_connection_event<'a, F>(
    connection: Handle,
    context: Context,
    callback: &mut F,
    event: &RawConnectionEvent<'a>,
) -> (status: QUIC_STATUS) where F: FnMut(ConnectionRef, ConnectionEvent<'a>) -> Result<(), Status>
    requires
        context != NULL_CONTEXT,
        event.projectable(),
        forall|any: F, borrowed: ConnectionRef, projected: ConnectionEvent<'a>|
            call_requires(any, (borrowed, projected)),
    ensures
        exists|borrowed: ConnectionRef, projected: ConnectionEvent<'a>, outcome: Result<(), Status>|
            {
                &&& borrowed.raw() == connection
                &&& projected.is_projection_of(*event)
                &&& call_ensures(*old(callback), (borrowed, projected), outcome)
                &&& status == status_of(outcome)
            },
{
    let (borrowed, projected) = raw_conn_callback(connection, context, event);
    let ghost handed = (borrowed, projected);
    let outcome = callback(borrowed, projected);
    assert(call_ensures(*old(callback), handed, outcome));
    callback_status(outcome)
}

/// The trampoline of listeners: invokes `callback`, the callback that the
/// context holds, with the borrowed listener and the projected event, and
/// returns the native status for what it returned. The callback is borrowed
/// shared: the native library may run it on several threads at once.
pub fn dispatch_listener_event<'a, F>(
    listener: Handle,
    context: Context,
    callback: &F,
    event: &RawListenerEvent<'a>,
) -> (status: QUIC_STATUS) where F: Fn(ListenerRef, ListenerEvent<'a>) -> Result<(), Status>
    requires
        context != NULL_CONTEXT,
        event.projectable(),
        forall|borrowed: ListenerRef, projected: ListenerEvent<'a>|
            call_requires(*callback, (borrowed, projected)),
    ensures
        exists|borrowed: ListenerRef, projected: ListenerEvent<'a>, outcome: Result<(), Status>|
            {
                &&& borrowed.raw() == listener
                &&& projected.is_projection_of(*event)
                &&& call_ensures(*callback, (borrowed, projected), outcome)
                &&& status == status_of(outcome)
            },
{
    let (borrowed, projected) = raw_listener_callback(listener, context, event);
    let ghost handed = (borrowed, projected);
    let outcome = callback(borrowed, projected);
    assert(call_ensures(*callback, handed, outcome));
    callback_status(outcome)
}

/// The trampoline of streams: invokes `callback`, the callback that the
/// context holds, with the borrowed stream and the projected event, and
/// returns the native status for what it returned. Of the native record,
/// nothing changes but the field that the application may overwrite, in an
/// event that has one.
pub fn dispatch_stream_event<'a, 'b: 'a, F>(
    stream: Handle,
    context: Context,
    callback: &mut F,
    event: &'a mut RawStreamEvent<'b>,
) -> (status: QUIC_STATUS) where F: FnMut(StreamRef, StreamEvent<'a>) -> Result<(), Status>
    requires
        context != NULL_CONTEXT,
        old(event).projectable(),
        forall|any: F, borrowed: StreamRef, projected: StreamEvent<'a>|
            call_requires(any, (borrowed, projected)),
    ensures
        exists|borrowed: StreamRef, projected: StreamEvent<'a>, outcome: Result<(), Status>|
            {
                &&& borrowed.raw() == stream
                &&& projected.is_projection_of(*old(event))
                &&& call_ensures(*old(callback), (borrowed, projected), outcome)
                &&& status == status_of(outcome)
            },
        exists|value: u64| *final(event) == old(event).with_out_value(value),
{
    let (borrowed, projected) = raw_stream_callback(stream, context, event);
    let ghost handed = (borrowed, projected);
    let outcome = callback(borrowed, projected);
    assert(call_ensures(*old(callback), handed, outcome));
    callback_status(outcome)
}

} // verus!
