//! The handle wrappers: one owning wrapper for each of the five kinds of
//! native object, and a non-owning one for each kind that the native library
//! hands to a callback.
//!
//! A wrapper holds one native handle, or the null handle when no native object
//! stands behind it. Its operations decide which native calls are due and in
//! which order, and return them for the glue to make: a wrapper is empty or
//! open, and `open`, `set_callback_handler` and `close` move it between the
//! two.

use crate::flags::StreamOpenFlags;
use crate::native::{
    Context, Handle, HandleKind, NativeObject, Step, World, NULL_CONTEXT, NULL_HANDLE,
};
use crate::status::{raw_is_ok, Status, QUIC_STATUS};
use vstd::prelude::*;

verus! {

/// The calls that take the callback in the slot of `handle` out of use: clear
/// the slot, then drop the callback. Nothing is due where no callback is
/// attached.
pub open spec fn detach_plan(kind: HandleKind, handle: Handle, attached: Context) -> Seq<Step> {
    if attached == NULL_CONTEXT {
        Seq::empty()
    } else {
        seq![
            Step::SetContext { handle, context: NULL_CONTEXT },
            Step::Release { kind, context: attached },
        ]
    }
}

/// The calls that replace the callback of `handle` by the one boxed at
/// `context`: take the attached one out of use, then install the new one.
pub open spec fn install_plan(
    kind: HandleKind,
    handle: Handle,
    attached: Context,
    context: Context,
) -> Seq<Step> {
    detach_plan(kind, handle, attached).push(Step::SetCallbackHandler { kind, handle, context })
}

/// The calls that retire `handle`. Nothing is due for the null handle. For an
/// object with a callback, the native close call comes first, while the
/// callback is still allocated; only when it has returned is the slot cleared
/// and the callback dropped. For an object without one, the close call is all.
pub open spec fn close_plan(kind: HandleKind, handle: Handle, attached: Context) -> Seq<Step> {
    if handle == NULL_HANDLE {
        Seq::empty()
    } else if !kind.has_callback() {
        seq![Step::Close { kind, handle }]
    } else if attached == NULL_CONTEXT {
        seq![Step::Close { kind, handle }, Step::SetContext { handle, context: NULL_CONTEXT }]
    } else {
        seq![
            Step::Close { kind, handle },
            Step::SetContext { handle, context: NULL_CONTEXT },
            Step::Release { kind, context: attached },
        ]
    }
}

/// The calls that follow a native open call that was handed the callback
/// boxed at `context`: none after success, the drop of that callback, which
/// was never installed, after failure.
pub open spec fn open_aftermath(kind: HandleKind, status: QUIC_STATUS, context: Context) -> Seq<
    Step,
> {
    if raw_is_ok(status) {
        Seq::empty()
    } else {
        seq![Step::Release { kind, context }]
    }
}

fn detach_steps(kind: HandleKind, handle: Handle, attached: Context) -> (plan: Vec<Step>)
    ensures
        plan@ == detach_plan(kind, handle, attached),
{
    let mut plan: Vec<Step> = Vec::new();
    if attached != NULL_CONTEXT {
        plan.push(Step::SetContext { handle, context: NULL_CONTEXT });
        plan.push(Step::Release { kind, context: attached });
    }
    assert(plan@ =~= detach_plan(kind, handle, attached));
    plan
}

fn install_steps(
    kind: HandleKind,
    handle: Handle,
    attached: Context,
    context: Context,
) -> (plan: Vec<Step>)
    ensures
        plan@ == install_plan(kind, handle, attached, context),
{
    let mut plan = detach_steps(kind, handle, attached);
    plan.push(Step::SetCallbackHandler { kind, handle, context });
    plan
}

fn close_steps(kind: HandleKind, handle: Handle, attached: Context) -> (plan: Vec<Step>)
    ensures
        plan@ == close_plan(kind, handle, attached),
{
    let mut plan: Vec<Step> = Vec::new();
    if handle != NULL_HANDLE {
        plan.push(Step::Close { kind, handle });
        if kind.calls_back() {
            plan.push(Step::SetContext { handle, context: NULL_CONTEXT });
            if attached != NULL_CONTEXT {
                plan.push(Step::Release { kind, context: attached });
            }
        }
    }
    assert(plan@ =~= close_plan(kind, handle, attached));
    plan
}

fn aftermath_steps(kind: HandleKind, status: QUIC_STATUS, context: Context) -> (plan: Vec<Step>)
    ensures
        plan@ == open_aftermath(kind, status, context),
{
    let mut plan: Vec<Step> = Vec::new();
    if !Status(status).is_ok() {
        plan.push(Step::Release { kind, context });
    }
    assert(plan@ =~= open_aftermath(kind, status, context));
    plan
}

/// The native open call of an object with a callback, and what comes before
/// it.
#[derive(Debug)]
pub struct OpenRequest {
    /// The calls to make before the open call, in order.
    pub before: Vec<Step>,
    /// The kind of object to open; it selects the open call and the
    /// trampoline that is handed to it.
    pub kind: HandleKind,
    /// The handle of the parent object.
    pub parent: Handle,
    /// The flags of the open call, for a kind that takes any.
    pub flags: u32,
    /// The boxed callback to hand to the open call as its context.
    pub context: Context,
}

/// What follows a native open call.
#[derive(Debug)]
pub struct OpenOutcome {
    /// The calls to make after the open call, in order.
    pub after: Vec<Step>,
    /// What the operation returns to the application.
    pub result: Result<(), Status>,
}

/// The execution context for processing connections on the application's
/// behalf. It is opened first and must outlive every object opened through it.
#[derive(Debug)]
pub struct Registration {
    handle: Handle,
}

impl Registration {
    /// The handle that this wrapper holds.
    pub closed spec fn raw(&self) -> Handle {
        self.handle
    }

    /// Whether no native object stands behind this wrapper.
    pub open spec fn is_empty(&self) -> bool {
        self.raw() == NULL_HANDLE
    }

    /// Takes the reply of the native open call for a registration: the
    /// wrapper of the new handle on success, the status as the error on failure.
    pub fn new(status: QUIC_STATUS, handle: Handle) -> (opened: Result<Registration, Status>)
        ensures
            raw_is_ok(status) ==> opened is Ok && opened->Ok_0.raw() == handle,
            !raw_is_ok(status) ==> opened is Err && opened->Err_0 == Status(status),
    {
        match Status::ok_from_raw(status) {
            Ok(()) => Ok(Registration { handle }),
            Err(status) => Err(status),
        }
    }

    /// Takes ownership of a raw handle.
    pub fn from_raw(h: Handle) -> (wrapper: Self)
        ensures
            wrapper.raw() == h,
    {
        Registration { handle: h }
    }

    /// The raw handle, which stays owned by this wrapper.
    pub fn as_raw(&self) -> (h: Handle)
        ensures
            h == self.raw(),
    {
        self.handle
    }

    /// Gives the raw handle up: nothing is closed, and closing it becomes the
    /// caller's duty.
    pub fn into_raw(self) -> (h: Handle)
        ensures
            h == self.raw(),
    {
        self.handle
    }

    /// Retires the native object: returns the calls to make and leaves the
    /// wrapper empty, so that retiring it again asks for nothing.
    pub fn close_inner(&mut self) -> (plan: Vec<Step>)
        ensures
            plan@ == close_plan(HandleKind::Registration, old(self).raw(), NULL_CONTEXT),
            final(self).is_empty(),
    {
        let plan = close_steps(HandleKind::Registration, self.handle, NULL_CONTEXT);
        self.handle = NULL_HANDLE;
        plan
    }

    /// Closes the handle and consumes the wrapper.
    pub fn close(self) -> (plan: Vec<Step>)
        ensures
            plan@ == close_plan(HandleKind::Registration, self.raw(), NULL_CONTEXT),
    {
        close_steps(HandleKind::Registration, self.handle, NULL_CONTEXT)
    }
}

/// Specifies how to configure a connection.
#[derive(Debug)]
pub struct Configuration {
    handle: Handle,
}

impl Configuration {
    /// The handle that this wrapper holds.
    pub closed spec fn raw(&self) -> Handle {
        self.handle
    }

    /// Whether no native object stands behind this wrapper.
    pub open spec fn is_empty(&self) -> bool {
        self.raw() == NULL_HANDLE
    }

    /// Takes the reply of the native open call for a configuration: the
    /// wrapper of the new handle on success, the status as the error on failure.
    pub fn new(status: QUIC_STATUS, handle: Handle) -> (opened: Result<Configuration, Status>)
        ensures
            raw_is_ok(status) ==> opened is Ok && opened->Ok_0.raw() == handle,
            !raw_is_ok(status) ==> opened is Err && opened->Err_0 == Status(status),
    {
        match Status::ok_from_raw(status) {
            Ok(()) => Ok(Configuration { handle }),
            Err(status) => Err(status),
        }
    }

    /// Takes ownership of a raw handle.
    pub fn from_raw(h: Handle) -> (wrapper: Self)
        ensures
            wrapper.raw() == h,
    {
        Configuration { handle: h }
    }

    /// The raw handle, which stays owned by this wrapper.
    pub fn as_raw(&self) -> (h: Handle)
        ensures
            h == self.raw(),
    {
        self.handle
    }

    /// Gives the raw handle up: nothing is closed, and closing it becomes the
    /// caller's duty.
    pub fn into_raw(self) -> (h: Handle)
        ensures
            h == self.raw(),
    {
        self.handle
    }

    /// Retires the native object: returns the calls to make and leaves the
    /// wrapper empty, so that retiring it again asks for nothing.
    pub fn close_inner(&mut self) -> (plan: Vec<Step>)
        ensures
            plan@ == close_plan(HandleKind::Configuration, old(self).raw(), NULL_CONTEXT),
            final(self).is_empty(),
    {
        let plan = close_steps(HandleKind::Configuration, self.handle, NULL_CONTEXT);
        self.handle = NULL_HANDLE;
        plan
    }

    /// Closes the handle and consumes the wrapper.
    pub fn close(self) -> (plan: Vec<Step>)
        ensures
            plan@ == close_plan(HandleKind::Configuration, self.raw(), NULL_CONTEXT),
    {
        close_steps(HandleKind::Configuration, self.handle, NULL_CONTEXT)
    }
}

/// A single QUIC connection. The native library never runs its callback
/// concurrently with itself.
#[derive(Debug)]
pub struct Connection {
    handle: Handle,
}

impl Connection {
    /// The handle that this wrapper holds.
    pub closed spec fn raw(&self) -> Handle {
        self.handle
    }

    /// Whether no native object stands behind this wrapper.
    pub open spec fn is_empty(&self) -> bool {
        self.raw() == NULL_HANDLE
    }

    /// An empty wrapper.
    pub fn new() -> (wrapper: Connection)
        ensures
            wrapper.is_empty(),
    {
        Connection { handle: NULL_HANDLE }
    }

    /// Takes ownership of a raw handle.
    pub fn from_raw(h: Handle) -> (wrapper: Self)
        ensures
            wrapper.raw() == h,
    {
        Connection { handle: h }
    }

    /// The raw handle, which stays owned by this wrapper.
    pub fn as_raw(&self) -> (h: Handle)
        ensures
            h == self.raw(),
    {
        self.handle
    }

    /// Gives the raw handle up: nothing is closed, and closing it and
    /// dropping its callback become the caller's duty.
    pub fn into_raw(self) -> (h: Handle)
        ensures
            h == self.raw(),
    {
        self.handle
    }

    /// The calls that take the callback attached to this handle out of use,
    /// where `attached` is what the native get-context call returned for it.
    pub fn consume_callback_ctx(&self, attached: Context) -> (plan: Vec<Step>)
        ensures
            plan@ == detach_plan(HandleKind::Connection, self.raw(), attached),
    {
        detach_steps(HandleKind::Connection, self.handle, attached)
    }

    /// Prepares the native open call of a connection under `registration`,
    /// with the callback boxed at `context`. A callback still attached to
    /// this wrapper's handle (`attached` is what the native get-context call
    /// returned for it) is taken out of use first.
    pub fn open(
        &self,
        registration: &Registration,
        context: Context,
        attached: Context,
    ) -> (request: OpenRequest)
        ensures
            request.before@ == detach_plan(HandleKind::Connection, self.raw(), attached),
            request.kind == HandleKind::Connection,
            request.parent == registration.raw(),
            request.flags == 0,
            request.context == context,
    {
        OpenRequest {
            before: detach_steps(HandleKind::Connection, self.handle, attached),
            kind: HandleKind::Connection,
            parent: registration.as_raw(),
            flags: 0,
            context,
        }
    }

    /// Takes the reply of the native open call that was handed the callback
    /// boxed at `context`. On success the wrapper holds the new handle. On
    /// failure the wrapper is as before, the status is the error, and the
    /// callback, which was never installed, is dropped.
    pub fn open_complete(
        &mut self,
        context: Context,
        status: QUIC_STATUS,
        handle: Handle,
    ) -> (outcome: OpenOutcome)
        ensures
            outcome.after@ == open_aftermath(HandleKind::Connection, status, context),
            outcome.result == Status(status).outcome(),
            final(self).raw() == (if raw_is_ok(status) {
                handle
            } else {
                old(self).raw()
            }),
    {
        let result = Status::ok_from_raw(status);
        if result.is_ok() {
            self.handle = handle;
        }
        OpenOutcome { after: aftermath_steps(HandleKind::Connection, status, context), result }
    }

    /// The calls that make the callback boxed at `context` the callback of
    /// this handle. The callback attached before (`attached` is what the
    /// native get-context call returned) is taken out of use first, so that
    /// one callback at most is alive for the handle.
    pub fn set_callback_handler(&self, context: Context, attached: Context) -> (plan: Vec<Step>)
        ensures
            plan@ == install_plan(HandleKind::Connection, self.raw(), attached, context),
    {
        install_steps(HandleKind::Connection, self.handle, attached, context)
    }

    /// Retires the native object: returns the calls to make and leaves the
    /// wrapper empty, so that retiring it again asks for nothing. `attached`
    /// is what the native get-context call returned for the handle.
    pub fn close_inner(&mut self, attached: Context) -> (plan: Vec<Step>)
        ensures
            plan@ == close_plan(HandleKind::Connection, old(self).raw(), attached),
            final(self).is_empty(),
    {
        let plan = close_steps(HandleKind::Connection, self.handle, attached);
        self.handle = NULL_HANDLE;
        plan
    }

    /// Closes the handle and consumes the wrapper.
    pub fn close(self, attached: Context) -> (plan: Vec<Step>)
        ensures
            plan@ == close_plan(HandleKind::Connection, self.raw(), attached),
    {
        close_steps(HandleKind::Connection, self.handle, attached)
    }
}

impl Default for Connection {
    fn default() -> (wrapper: Self)
        ensures
            wrapper.is_empty(),
    {
        Connection::new()
    }
}

/// A connection that is borrowed for the length of one callback: the same
/// representation as the owning wrapper, but ending it closes nothing.
#[derive(Debug)]
pub struct ConnectionRef(Connection);

impl ConnectionRef {
    /// The handle that this wrapper borrows.
    pub closed spec fn raw(&self) -> Handle {
        self.0.raw()
    }

    /// The wrapper through which the borrowed handle is used.
    pub closed spec fn inner(&self) -> Connection {
        self.0
    }

    /// Borrows a raw handle for the length of one callback.
    pub fn from_raw(handle: Handle) -> (wrapper: Self)
        ensures
            wrapper.raw() == handle,
            wrapper.inner().raw() == handle,
    {
        ConnectionRef(Connection { handle })
    }

    /// Ends the borrow: the wrapper forgets its handle, and no call is due,
    /// for it never owned the native object.
    pub fn release(&mut self) -> (plan: Vec<Step>)
        ensures
            plan@ == Seq::<Step>::empty(),
            final(self).raw() == NULL_HANDLE,
    {
        self.0.handle = NULL_HANDLE;
        Vec::new()
    }
}

impl std::ops::Deref for ConnectionRef {
    type Target = Connection;

    fn deref(&self) -> (target: &Connection)
        ensures
            *target == self.inner(),
            target.raw() == self.raw(),
    {
        &self.0
    }
}

/// A single server listener. The native library may run its callback on
/// several threads at once.
#[derive(Debug)]
pub struct Listener {
    handle: Handle,
}

impl Listener {
    /// The handle that this wrapper holds.
    pub closed spec fn raw(&self) -> Handle {
        self.handle
    }

    /// Whether no native object stands behind this wrapper.
    pub open spec fn is_empty(&self) -> bool {
        self.raw() == NULL_HANDLE
    }

    /// An empty wrapper.
    pub fn new() -> (wrapper: Listener)
        ensures
            wrapper.is_empty(),
    {
        Listener { handle: NULL_HANDLE }
    }

    /// Takes ownership of a raw handle.
    pub fn from_raw(h: Handle) -> (wrapper: Self)
        ensures
            wrapper.raw() == h,
    {
        Listener { handle: h }
    }

    /// The raw handle, which stays owned by this wrapper.
    pub fn as_raw(&self) -> (h: Handle)
        ensures
            h == self.raw(),
    {
        self.handle
    }

    /// Gives the raw handle up: nothing is closed, and closing it and
    /// dropping its callback become the caller's duty.
    pub fn into_raw(self) -> (h: Handle)
        ensures
            h == self.raw(),
    {
        self.handle
    }

    /// The calls that take the callback attached to this handle out of use,
    /// where `attached` is what the native get-context call returned for it.
    pub fn consume_callback_ctx(&self, attached: Context) -> (plan: Vec<Step>)
        ensures
            plan@ == detach_plan(HandleKind::Listener, self.raw(), attached),
    {
        detach_steps(HandleKind::Listener, self.handle, attached)
    }

    /// Prepares the native open call of a listener under `registration`,
    /// with the callback boxed at `context`. A callback still attached to
    /// this wrapper's handle (`attached` is what the native get-context call
    /// returned for it) is taken out of use first.
    pub fn open(
        &self,
        registration: &Registration,
        context: Context,
        attached: Context,
    ) -> (request: OpenRequest)
        ensures
            request.before@ == detach_plan(HandleKind::Listener, self.raw(), attached),
            request.kind == HandleKind::Listener,
            request.parent == registration.raw(),
            request.flags == 0,
            request.context == context,
    {
        OpenRequest {
            before: detach_steps(HandleKind::Listener, self.handle, attached),
            kind: HandleKind::Listener,
            parent: registration.as_raw(),
            flags: 0,
            context,
        }
    }

    /// Takes the reply of the native open call that was handed the callback
    /// boxed at `context`. On success the wrapper holds the new handle. On
    /// failure the wrapper is as before, the status is the error, and the
    /// callback, which was never installed, is dropped.
    pub fn open_complete(
        &mut self,
        context: Context,
        status: QUIC_STATUS,
        handle: Handle,
    ) -> (outcome: OpenOutcome)
        ensures
            outcome.after@ == open_aftermath(HandleKind::Listener, status, context),
            outcome.result == Status(status).outcome(),
            final(self).raw() == (if raw_is_ok(status) {
                handle
            } else {
                old(self).raw()
            }),
    {
        let result = Status::ok_from_raw(status);
        if result.is_ok() {
            self.handle = handle;
        }
        OpenOutcome { after: aftermath_steps(HandleKind::Listener, status, context), result }
    }

    /// The calls that make the callback boxed at `context` the callback of
    /// this handle. The callback attached before (`attached` is what the
    /// native get-context call returned) is taken out of use first, so that
    /// one callback at most is alive for the handle.
    pub fn set_callback_handler(&self, context: Context, attached: Context) -> (plan: Vec<Step>)
        ensures
            plan@ == install_plan(HandleKind::Listener, self.raw(), attached, context),
    {
        install_steps(HandleKind::Listener, self.handle, attached, context)
    }

    /// Retires the native object: returns the calls to make and leaves the
    /// wrapper empty, so that retiring it again asks for nothing. `attached`
    /// is what the native get-context call returned for the handle.
    pub fn close_inner(&mut self, attached: Context) -> (plan: Vec<Step>)
        ensures
            plan@ == close_plan(HandleKind::Listener, old(self).raw(), attached),
            final(self).is_empty(),
    {
        let plan = close_steps(HandleKind::Listener, self.handle, attached);
        self.handle = NULL_HANDLE;
        plan
    }

    /// Closes the handle and consumes the wrapper.
    pub fn close(self, attached: Context) -> (plan: Vec<Step>)
        ensures
            plan@ == close_plan(HandleKind::Listener, self.raw(), attached),
    {
        close_steps(HandleKind::Listener, self.handle, attached)
    }
}

impl Default for Listener {
    fn default() -> (wrapper: Self)
        ensures
            wrapper.is_empty(),
    {
        Listener::new()
    }
}

/// A listener that is borrowed for the length of one callback: the same
/// representation as the owning wrapper, but ending it closes nothing.
#[derive(Debug)]
pub struct ListenerRef(Listener);

impl ListenerRef {
    /// The handle that this wrapper borrows.
    pub closed spec fn raw(&self) -> Handle {
        self.0.raw()
    }

    /// The wrapper through which the borrowed handle is used.
    pub closed spec fn inner(&self) -> Listener {
        self.0
    }

    /// Borrows a raw handle for the length of one callback.
    pub fn from_raw(handle: Handle) -> (wrapper: Self)
        ensures
            wrapper.raw() == handle,
            wrapper.inner().raw() == handle,
    {
        ListenerRef(Listener { handle })
    }

    /// Ends the borrow: the wrapper forgets its handle, and no call is due,
    /// for it never owned the native object.
    pub fn release(&mut self) -> (plan: Vec<Step>)
        ensures
            plan@ == Seq::<Step>::empty(),
            final(self).raw() == NULL_HANDLE,
    {
        self.0.handle = NULL_HANDLE;
        Vec::new()
    }
}

impl std::ops::Deref for ListenerRef {
    type Target = Listener;

    fn deref(&self) -> (target: &Listener)
        ensures
            *target == self.inner(),
            target.raw() == self.raw(),
    {
        &self.0
    }
}

/// A single QUIC stream on a parent connection. The native library never
/// runs its callback concurrently with itself.
#[derive(Debug)]
pub struct Stream {
    handle: Handle,
}

impl Stream {
    /// The handle that this wrapper holds.
    pub closed spec fn raw(&self) -> Handle {
        self.handle
    }

    /// Whether no native object stands behind this wrapper.
    pub open spec fn is_empty(&self) -> bool {
        self.raw() == NULL_HANDLE
    }

    /// An empty wrapper.
    pub fn new() -> (wrapper: Stream)
        ensures
            wrapper.is_empty(),
    {
        Stream { handle: NULL_HANDLE }
    }

    /// Takes ownership of a raw handle.
    pub fn from_raw(h: Handle) -> (wrapper: Self)
        ensures
            wrapper.raw() == h,
    {
        Stream { handle: h }
    }

    /// The raw handle, which stays owned by this wrapper.
    pub fn as_raw(&self) -> (h: Handle)
        ensures
            h == self.raw(),
    {
        self.handle
    }

    /// Gives the raw handle up: nothing is closed, and closing it and
    /// dropping its callback become the caller's duty.
    pub fn into_raw(self) -> (h: Handle)
        ensures
            h == self.raw(),
    {
        self.handle
    }

    /// The calls that take the callback attached to this handle out of use,
    /// where `attached` is what the native get-context call returned for it.
    pub fn consume_callback_ctx(&self, attached: Context) -> (plan: Vec<Step>)
        ensures
            plan@ == detach_plan(HandleKind::Stream, self.raw(), attached),
    {
        detach_steps(HandleKind::Stream, self.handle, attached)
    }

    /// Prepares the native open call of a stream on `connection`, with `flags`,
    /// with the callback boxed at `context`. A callback still attached to
    /// this wrapper's handle (`attached` is what the native get-context call
    /// returned for it) is taken out of use first.
    pub fn open(
        &self,
        connection: &Connection,
        flags: StreamOpenFlags,
        context: Context,
        attached: Context,
    ) -> (request: OpenRequest)
        ensures
            request.before@ == detach_plan(HandleKind::Stream, self.raw(), attached),
            request.kind == HandleKind::Stream,
            request.parent == connection.raw(),
            request.flags == flags.bits(),
            request.context == context,
    {
        OpenRequest {
            before: detach_steps(HandleKind::Stream, self.handle, attached),
            kind: HandleKind::Stream,
            parent: connection.as_raw(),
            flags: flags.bits(),
            context,
        }
    }

    /// Takes the reply of the native open call that was handed the callback
    /// boxed at `context`. On success the wrapper holds the new handle. On
    /// failure the wrapper is as before, the status is the error, and the
    /// callback, which was never installed, is dropped.
    pub fn open_complete(
        &mut self,
        context: Context,
        status: QUIC_STATUS,
        handle: Handle,
    ) -> (outcome: OpenOutcome)
        ensures
            outcome.after@ == open_aftermath(HandleKind::Stream, status, context),
            outcome.result == Status(status).outcome(),
            final(self).raw() == (if raw_is_ok(status) {
                handle
            } else {
                old(self).raw()
            }),
    {
        let result = Status::ok_from_raw(status);
        if result.is_ok() {
            self.handle = handle;
        }
        OpenOutcome { after: aftermath_steps(HandleKind::Stream, status, context), result }
    }

    /// The calls that make the callback boxed at `context` the callback of
    /// this handle. The callback attached before (`attached` is what the
    /// native get-context call returned) is taken out of use first, so that
    /// one callback at most is alive for the handle.
    pub fn set_callback_handler(&self, context: Context, attached: Context) -> (plan: Vec<Step>)
        ensures
            plan@ == install_plan(HandleKind::Stream, self.raw(), attached, context),
    {
        install_steps(HandleKind::Stream, self.handle, attached, context)
    }

    /// Retires the native object: returns the calls to make and leaves the
    /// wrapper empty, so that retiring it again asks for nothing. `attached`
    /// is what the native get-context call returned for the handle.
    pub fn close_inner(&mut self, attached: Context) -> (plan: Vec<Step>)
        ensures
            plan@ == close_plan(HandleKind::Stream, old(self).raw(), attached),
            final(self).is_empty(),
    {
        let plan = close_steps(HandleKind::Stream, self.handle, attached);
        self.handle = NULL_HANDLE;
        plan
    }

    /// Closes the handle and consumes the wrapper.
    pub fn close(self, attached: Context) -> (plan: Vec<Step>)
        ensures
            plan@ == close_plan(HandleKind::Stream, self.raw(), attached),
    {
        close_steps(HandleKind::Stream, self.handle, attached)
    }
}

impl Default for Stream {
    fn default() -> (wrapper: Self)
        ensures
            wrapper.is_empty(),
    {
        Stream::new()
    }
}

/// A stream that is borrowed for the length of one callback: the same
/// representation as the owning wrapper, but ending it closes nothing.
#[derive(Debug)]
pub struct StreamRef(Stream);

impl StreamRef {
    /// The handle that this wrapper borrows.
    pub closed spec fn raw(&self) -> Handle {
        self.0.raw()
    }

    /// The wrapper through which the borrowed handle is used.
    pub closed spec fn inner(&self) -> Stream {
        self.0
    }

    /// Borrows a raw handle for the length of one callback.
    pub fn from_raw(handle: Handle) -> (wrapper: Self)
        ensures
            wrapper.raw() == handle,
            wrapper.inner().raw() == handle,
    {
        StreamRef(Stream { handle })
    }

    /// Ends the borrow: the wrapper forgets its handle, and no call is due,
    /// for it never owned the native object.
    pub fn release(&mut self) -> (plan: Vec<Step>)
        ensures
            plan@ == Seq::<Step>::empty(),
            final(self).raw() == NULL_HANDLE,
    {
        self.0.handle = NULL_HANDLE;
        Vec::new()
    }
}

impl std::ops::Deref for StreamRef {
    type Target = Stream;

    fn deref(&self) -> (target: &Stream)
        ensures
            *target == self.inner(),
            target.raw() == self.raw(),
    {
        &self.0
    }
}

proof fn lemma_run_one(world: World, a: Step)
    ensures
        world.apply_all(seq![a]) == world.apply(a),
        world.admits_all(seq![a]) == world.admits(a),
{
    reveal_with_fuel(World::apply_all, 2);
    reveal_with_fuel(World::admits_all, 2);
    assert(seq![a].drop_first() =~= Seq::<Step>::empty());
}

proof fn lemma_run_two(world: World, a: Step, b: Step)
    ensures
        world.apply_all(seq![a, b]) == world.apply(a).apply(b),
        world.admits_all(seq![a, b]) == (world.admits(a) && world.apply(a).admits(b)),
{
    assert(seq![a, b].drop_first() =~= seq![b]);
    lemma_run_one(world.apply(a), b);
}

proof fn lemma_run_three(world: World, a: Step, b: Step, c: Step)
    ensures
        world.apply_all(seq![a, b, c]) == world.apply(a).apply(b).apply(c),
        world.admits_all(seq![a, b, c]) == (world.admits(a) && world.apply(a).admits(b)
            && world.apply(a).apply(b).admits(c)),
{
    assert(seq![a, b, c].drop_first() =~= seq![b, c]);
    lemma_run_two(world.apply(a), b, c);
}

/// A safe step keeps the invariant of handle management.
pub proof fn lemma_step_keeps_well_formed(world: World, step: Step)
    requires
        world.well_formed(),
        world.admits(step),
    ensures
        world.apply(step).well_formed(),
{
    let after = world.apply(step);
    match step {
        Step::Close { kind, handle } => {
            assert(after.well_formed());
        },
        Step::SetContext { handle, context } => {
            assert(after.well_formed());
        },
        Step::SetCallbackHandler { kind, handle, context } => {
            assert(after.well_formed());
        },
        Step::Release { kind, context } => {
            assert forall|handle: Handle| #[trigger]
                after.objects.contains_key(handle) implies after.objects[handle].context
                == NULL_CONTEXT || after.holds(
                after.objects[handle].kind,
                after.objects[handle].context,
            ) by {
                assert(world.objects.contains_key(handle));
            }
            assert(after.well_formed());
        },
    }
}

/// Closing an open object with a callback is safe at every call, closes the
/// native object exactly once, and drops its callback exactly once and only
/// after the native close call, during which the callback was still allocated:
/// the last invocation, made from inside the close call, finds it, and when
/// that invocation is over the callback has not been dropped yet. Everything
/// else is as before.
pub proof fn lemma_close_then_release(world: World, kind: HandleKind, handle: Handle)
    requires
        world.well_formed(),
        world.is_open(handle),
        world.objects[handle].kind == kind,
        kind.has_callback(),
    ensures
        ({
            let attached = world.context_of(handle);
            let plan = close_plan(kind, handle, attached);
            let after = world.apply_all(plan);
            &&& world.admits_all(plan)
            &&& plan[0] == Step::Close { kind, handle }
            &&& world.admits(plan[0])
            &&& attached != NULL_CONTEXT ==> world.apply(plan[0]).is_live(attached) && plan.last()
                == Step::Release { kind, context: attached }
            &&& after.well_formed()
            &&& after.objects == world.objects.remove(handle)
            &&& after.closed == world.closed.insert(handle)
            &&& after.closed.count(handle) == world.closed.count(handle) + 1
            &&& attached != NULL_CONTEXT ==> {
                &&& world.apply(plan[0]).invoked == world.invoked.insert(attached)
                &&& world.apply(plan[0]).released == world.released
                &&& after.invoked.count(attached) == world.invoked.count(attached) + 1
                &&& after.callbacks == world.callbacks.remove(attached)
                &&& after.released == world.released.insert(attached)
                &&& after.released.count(attached) == world.released.count(attached) + 1
            }
            &&& attached == NULL_CONTEXT ==> {
                &&& after.invoked == world.invoked
                &&& after.callbacks == world.callbacks
                &&& after.released == world.released
            }
        }),
{
    let attached = world.context_of(handle);
    let close = Step::Close { kind, handle };
    let clear = Step::SetContext { handle, context: NULL_CONTEXT };
    let closed = world.apply(close);
    assert(closed.objects =~= world.objects.remove(handle));
    assert(closed.apply(clear) == closed);
    lemma_step_keeps_well_formed(world, close);
    if attached == NULL_CONTEXT {
        lemma_run_two(world, close, clear);
    } else {
        let release = Step::Release { kind, context: attached };
        lemma_run_three(world, close, clear, release);
        assert(!closed.is_attached(attached)) by {
            if closed.is_attached(attached) {
                let other = choose|other: Handle| #[trigger]
                    closed.objects.contains_key(other) && closed.objects[other].context
                        == attached;
                assert(world.objects.contains_key(other));
                assert(world.objects.contains_key(handle));
            }
        }
        lemma_step_keeps_well_formed(closed, release);
    }
}

/// Closing an open object without a callback is the native close call alone,
/// made exactly once.
pub proof fn lemma_close_without_callback(world: World, kind: HandleKind, handle: Handle)
    requires
        world.well_formed(),
        world.is_open(handle),
        world.objects[handle].kind == kind,
        world.context_of(handle) == NULL_CONTEXT,
        !kind.has_callback(),
    ensures
        ({
            let plan = close_plan(kind, handle, NULL_CONTEXT);
            let after = world.apply_all(plan);
            &&& world.admits_all(plan)
            &&& after.well_formed()
            &&& after.objects == world.objects.remove(handle)
            &&& after.closed.count(handle) == world.closed.count(handle) + 1
            &&& after.callbacks == world.callbacks
            &&& after.released == world.released
        }),
{
    let close = Step::Close { kind, handle };
    lemma_run_one(world, close);
    lemma_step_keeps_well_formed(world, close);
}

/// Closing an empty wrapper asks for nothing, whatever the world.
pub proof fn lemma_close_of_empty_is_nothing(world: World, kind: HandleKind, attached: Context)
    ensures
        close_plan(kind, NULL_HANDLE, attached) == Seq::<Step>::empty(),
        world.apply_all(close_plan(kind, NULL_HANDLE, attached)) == world,
{
}

/// Taking the callback of an open object out of use is safe at every call:
/// the slot is cleared first, so that the native library cannot reach the
/// callback any more, and then the callback is dropped, exactly once. Nothing
/// happens where no callback is attached.
pub proof fn lemma_detach_clears_then_releases(world: World, kind: HandleKind, handle: Handle)
    requires
        world.well_formed(),
        world.is_open(handle),
        world.objects[handle].kind == kind,
    ensures
        ({
            let attached = world.context_of(handle);
            let plan = detach_plan(kind, handle, attached);
            let after = world.apply_all(plan);
            &&& world.admits_all(plan)
            &&& after.well_formed()
            &&& after.is_open(handle)
            &&& after.context_of(handle) == NULL_CONTEXT
            &&& after.closed == world.closed
            &&& attached != NULL_CONTEXT ==> {
                &&& plan == seq![
                    Step::SetContext { handle, context: NULL_CONTEXT },
                    Step::Release { kind, context: attached },
                ]
                &&& !after.is_live(attached)
                &&& after.callbacks == world.callbacks.remove(attached)
                &&& after.released.count(attached) == world.released.count(attached) + 1
            }
            &&& attached == NULL_CONTEXT ==> after == world
        }),
{
    let attached = world.context_of(handle);
    if attached != NULL_CONTEXT {
        let clear = Step::SetContext { handle, context: NULL_CONTEXT };
        let release = Step::Release { kind, context: attached };
        lemma_run_two(world, clear, release);
        let cleared = world.apply(clear);
        lemma_step_keeps_well_formed(world, clear);
        assert(!cleared.is_attached(attached)) by {
            if cleared.is_attached(attached) {
                let other = choose|other: Handle| #[trigger]
                    cleared.objects.contains_key(other) && cleared.objects[other].context
                        == attached;
                assert(world.objects.contains_key(other));
                assert(world.objects.contains_key(handle));
            }
        }
        lemma_step_keeps_well_formed(cleared, release);
    }
}

/// Installing a freshly boxed callback on an open object is safe at every
/// call and leaves exactly that callback attached: the one attached before is
/// dropped exactly once, after the slot was cleared, and nothing else changes.
pub proof fn lemma_install_replaces_callback(
    world: World,
    kind: HandleKind,
    handle: Handle,
    context: Context,
)
    requires
        world.well_formed(),
        world.is_open(handle),
        world.objects[handle].kind == kind,
        world.holds(kind, context),
        !world.is_attached(context),
    ensures
        ({
            let attached = world.context_of(handle);
            let plan = install_plan(kind, handle, attached, context);
            let after = world.apply_all(plan);
            &&& world.admits_all(plan)
            &&& after.well_formed()
            &&& after.is_open(handle)
            &&& after.context_of(handle) == context
            &&& after.is_live(context)
            &&& after.objects == world.objects.insert(handle, NativeObject { kind, context })
            &&& after.closed == world.closed
            &&& attached != NULL_CONTEXT ==> {
                &&& !after.is_live(attached)
                &&& after.callbacks == world.callbacks.remove(attached)
                &&& after.released == world.released.insert(attached)
                &&& after.released.count(attached) == world.released.count(attached) + 1
            }
            &&& attached == NULL_CONTEXT ==> {
                &&& after.callbacks == world.callbacks
                &&& after.released == world.released
            }
        }),
{
    let attached = world.context_of(handle);
    let install = Step::SetCallbackHandler { kind, handle, context };
    assert(attached != context) by {
        if attached == context {
            assert(world.objects.contains_key(handle));
            assert(world.is_attached(context));
        }
    }
    if attached == NULL_CONTEXT {
        assert(install_plan(kind, handle, attached, context) =~= seq![install]);
        lemma_run_one(world, install);
        let after = world.apply(install);
        assert(after.objects =~= world.objects.insert(handle, NativeObject { kind, context }));
        lemma_step_keeps_well_formed(world, install);
    } else {
        let clear = Step::SetContext { handle, context: NULL_CONTEXT };
        let release = Step::Release { kind, context: attached };
        assert(install_plan(kind, handle, attached, context) =~= seq![clear, release, install]);
        lemma_run_three(world, clear, release, install);
        let cleared = world.apply(clear);
        lemma_step_keeps_well_formed(world, clear);
        assert(!cleared.is_attached(attached)) by {
            if cleared.is_attached(attached) {
                let other = choose|other: Handle| #[trigger]
                    cleared.objects.contains_key(other) && cleared.objects[other].context
                        == attached;
                assert(world.objects.contains_key(other));
                assert(world.objects.contains_key(handle));
            }
        }
        lemma_step_keeps_well_formed(cleared, release);
        let released = cleared.apply(release);
        assert(released.admits(install));
        lemma_step_keeps_well_formed(released, install);
        let after = released.apply(install);
        assert(after.objects =~= world.objects.insert(handle, NativeObject { kind, context }));
    }
}

/// After two callbacks were installed on one handle in succession, exactly one
/// is alive for it, the second: the first was dropped exactly once by the time
/// the second was installed.
pub proof fn lemma_second_install_drops_first(
    world: World,
    kind: HandleKind,
    handle: Handle,
    first: Context,
    second: Context,
)
    requires
        world.well_formed(),
        world.is_open(handle),
        world.objects[handle].kind == kind,
        world.holds(kind, first),
        !world.is_attached(first),
        second != NULL_CONTEXT,
        !world.is_live(second),
        !world.is_attached(second),
    ensures
        ({
            let once = world.apply_all(
                install_plan(kind, handle, world.context_of(handle), first),
            ).boxed(kind, second);
            let plan = install_plan(kind, handle, once.context_of(handle), second);
            let twice = once.apply_all(plan);
            &&& once.context_of(handle) == first
            &&& once.admits_all(plan)
            &&& twice.well_formed()
            &&& twice.context_of(handle) == second
            &&& twice.is_live(second)
            &&& !twice.is_live(first)
            &&& twice.released.count(first) == world.released.count(first) + 1
            &&& twice.released.count(second) == world.released.count(second)
            &&& twice.closed == world.closed
        }),
{
    lemma_install_replaces_callback(world, kind, handle, first);
    let attached = world.context_of(handle);
    let installed = world.apply_all(install_plan(kind, handle, attached, first));
    let once = installed.boxed(kind, second);
    assert(first != second);
    assert(first != NULL_CONTEXT);
    assert(once.well_formed());
    assert(!once.is_attached(second)) by {
        if once.is_attached(second) {
            let other = choose|other: Handle| #[trigger]
                once.objects.contains_key(other) && once.objects[other].context == second;
            if other == handle {
            } else {
                assert(world.objects.contains_key(other));
                assert(world.is_attached(second));
            }
        }
    }
    lemma_install_replaces_callback(once, kind, handle, second);
    if attached != NULL_CONTEXT {
        assert(attached != first) by {
            if attached == first {
                assert(world.objects.contains_key(handle));
            }
        }
    }
}

/// Ending the borrow of a handle makes no native call, so the native object
/// is not closed; closing the owning wrapper of the same handle closes it
/// exactly once.
pub proof fn lemma_borrow_closes_nothing(world: World, kind: HandleKind, handle: Handle)
    requires
        world.well_formed(),
        world.is_open(handle),
        world.objects[handle].kind == kind,
    ensures
        ({
            let borrowed = world.apply_all(Seq::<Step>::empty());
            let owned = borrowed.apply_all(close_plan(kind, handle, borrowed.context_of(handle)));
            &&& borrowed == world
            &&& borrowed.closed.count(handle) == world.closed.count(handle)
            &&& borrowed.is_open(handle)
            &&& owned.closed.count(handle) == world.closed.count(handle) + 1
            &&& !owned.is_open(handle)
        }),
{
    if kind.has_callback() {
        lemma_close_then_release(world, kind, handle);
    } else {
        let close = Step::Close { kind, handle };
        let attached = world.context_of(handle);
        assert(close_plan(kind, handle, attached) =~= seq![close]);
        lemma_run_one(world, close);
    }
}

/// A native open call that fails leaks nothing: the callback that was boxed
/// for it is dropped exactly once, and nothing else changes.
pub proof fn lemma_failed_open_drops_callback(
    world: World,
    kind: HandleKind,
    status: QUIC_STATUS,
    context: Context,
)
    requires
        world.well_formed(),
        !raw_is_ok(status),
        world.holds(kind, context),
        !world.is_attached(context),
    ensures
        ({
            let plan = open_aftermath(kind, status, context);
            let after = world.apply_all(plan);
            &&& world.admits_all(plan)
            &&& after.well_formed()
            &&& after.objects == world.objects
            &&& after.callbacks == world.callbacks.remove(context)
            &&& after.released.count(context) == world.released.count(context) + 1
            &&& after.closed == world.closed
        }),
{
    let release = Step::Release { kind, context };
    lemma_run_one(world, release);
    lemma_step_keeps_well_formed(world, release);
}

/// A native open call that succeeds asks for nothing more, and the new object
/// with the boxed callback in its slot keeps the invariant.
pub proof fn lemma_successful_open_attaches_callback(
    world: World,
    kind: HandleKind,
    status: QUIC_STATUS,
    handle: Handle,
    context: Context,
)
    requires
        world.well_formed(),
        raw_is_ok(status),
        handle != NULL_HANDLE,
        !world.is_open(handle),
        world.holds(kind, context),
        !world.is_attached(context),
    ensures
        open_aftermath(kind, status, context) == Seq::<Step>::empty(),
        world.opened(kind, handle, context).well_formed(),
        world.opened(kind, handle, context).context_of(handle) == context,
        world.opened(kind, handle, context).callbacks == world.callbacks,
{
    let after = world.opened(kind, handle, context);
    assert forall|a: Handle, b: Handle|
        #![trigger after.objects.contains_key(a), after.objects.contains_key(b)]
        after.objects.contains_key(a) && after.objects.contains_key(b)
            && after.objects[a].context == after.objects[b].context && after.objects[a].context
            != NULL_CONTEXT implies a == b by {
        if a != handle {
            assert(world.objects.contains_key(a));
        }
        if b != handle {
            assert(world.objects.contains_key(b));
        }
    }
}

/// A whole life of an object with a callback leaks nothing and frees nothing
/// twice: after it was opened with one callback, given another, and closed,
/// the open objects and the allocated callbacks are what they were before,
/// the object was closed exactly once, and each of the two callbacks was
/// dropped exactly once. Every call on the way is safe.
pub proof fn lemma_whole_life_leaks_nothing(
    world: World,
    kind: HandleKind,
    handle: Handle,
    first: Context,
    second: Context,
)
    requires
        world.well_formed(),
        kind.has_callback(),
        handle != NULL_HANDLE,
        !world.is_open(handle),
        first != NULL_CONTEXT,
        second != NULL_CONTEXT,
        first != second,
        !world.is_live(first),
        !world.is_live(second),
        !world.is_attached(first),
        !world.is_attached(second),
    ensures
        ({
            let opened = world.boxed(kind, first).opened(kind, handle, first);
            let boxed = opened.boxed(kind, second);
            let install = install_plan(kind, handle, boxed.context_of(handle), second);
            let replaced = boxed.apply_all(install);
            let close = close_plan(kind, handle, replaced.context_of(handle));
            let closed = replaced.apply_all(close);
            &&& opened.well_formed()
            &&& boxed.admits_all(install)
            &&& replaced.admits_all(close)
            &&& closed.well_formed()
            &&& closed.objects == world.objects
            &&& closed.callbacks == world.callbacks
            &&& closed.closed.count(handle) == world.closed.count(handle) + 1
            &&& closed.released.count(first) == world.released.count(first) + 1
            &&& closed.released.count(second) == world.released.count(second) + 1
        }),
{
    let allocated = world.boxed(kind, first);
    assert(allocated.well_formed());
    assert(!allocated.is_attached(first)) by {
        if allocated.is_attached(first) {
            let other = choose|other: Handle| #[trigger]
                allocated.objects.contains_key(other) && allocated.objects[other].context
                    == first;
            assert(world.objects.contains_key(other));
            assert(world.is_attached(first));
        }
    }
    lemma_successful_open_attaches_callback(allocated, kind, 0, handle, first);
    let opened = allocated.opened(kind, handle, first);
    let boxed = opened.boxed(kind, second);
    assert(boxed.well_formed());
    assert(!boxed.is_attached(second)) by {
        if boxed.is_attached(second) {
            let other = choose|other: Handle| #[trigger]
                boxed.objects.contains_key(other) && boxed.objects[other].context == second;
            if other != handle {
                assert(world.objects.contains_key(other));
                assert(world.is_attached(second));
            }
        }
    }
    lemma_install_replaces_callback(boxed, kind, handle, second);
    let replaced = boxed.apply_all(install_plan(kind, handle, boxed.context_of(handle), second));
    lemma_close_then_release(replaced, kind, handle);
    let closed = replaced.apply_all(close_plan(kind, handle, replaced.context_of(handle)));
    assert(closed.objects =~= world.objects);
    assert(closed.callbacks =~= world.callbacks);
}

} // verus!
