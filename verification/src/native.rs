//! The calls that handle management asks of the native library and of the
//! allocator of callbacks, and a model of what those calls act on.
//!
//! A handle wrapper never makes a native call itself. Each of its operations
//! returns the calls to make, in the order in which they must be made. The
//! model says what each call does to the native objects and to the boxed
//! callbacks, and when a call is safe; the laws about handle management are
//! stated over it.

use vstd::multiset::Multiset;
use vstd::prelude::*;

verus! {

/// An opaque native handle: an address-sized value that identifies one native
/// object to the native library.
pub type Handle = usize;

/// The address of a boxed callback, as it is stored in a native context slot.
pub type Context = usize;

/// The handle of a wrapper with no native object behind it.
pub const NULL_HANDLE: Handle = 0;

/// The context of a slot with no callback attached.
pub const NULL_CONTEXT: Context = 0;

/// The five kinds of native object.
#[derive(Debug, Clone, Copy, PartialEq, Eq, Structural)]
pub enum HandleKind {
    Registration,
    Configuration,
    Connection,
    Listener,
    Stream,
}

impl HandleKind {
    /// Whether objects of this kind call back into the application, and so
    /// have a callback attached through their context slot.
    pub open spec fn has_callback(self) -> bool {
        self == HandleKind::Connection || self == HandleKind::Listener || self
            == HandleKind::Stream
    }

    /// Whether the native library may run the callback of one object of this
    /// kind on several threads at once. It never does so for a connection or
    /// a stream; it may for a listener.
    pub open spec fn callback_is_shared(self) -> bool {
        self == HandleKind::Listener
    }

    /// Whether objects of this kind have a callback.
    pub fn calls_back(self) -> (yes: bool)
        ensures
            yes == self.has_callback(),
    {
        match self {
            HandleKind::Connection | HandleKind::Listener | HandleKind::Stream => true,
            HandleKind::Registration | HandleKind::Configuration => false,
        }
    }

    /// Whether a callback of this kind must tolerate concurrent invocation,
    /// and so may capture only state that is safe to share.
    pub fn needs_shared_callback(self) -> (yes: bool)
        ensures
            yes == self.callback_is_shared(),
    {
        match self {
            HandleKind::Listener => true,
            _ => false,
        }
    }
}

/// One call for the glue to make on behalf of a handle operation.
#[derive(Debug, Clone, Copy, PartialEq, Eq, Structural)]
pub enum Step {
    /// The native close call of `kind` on `handle`. It returns only when the
    /// native library has delivered its last callback for the object.
    Close { kind: HandleKind, handle: Handle },
    /// The native set-context call: store `context` in the slot of `handle`.
    SetContext { handle: Handle, context: Context },
    /// The native set-callback-handler call: install the trampoline of `kind`
    /// on `handle`, with `context` in its slot.
    SetCallbackHandler { kind: HandleKind, handle: Handle, context: Context },
    /// Take back the boxed callback of `kind` at `context` and drop it.
    Release { kind: HandleKind, context: Context },
}

/// What the native library holds for one open object.
pub struct NativeObject {
    pub kind: HandleKind,
    pub context: Context,
}

/// What the calls act on: the native objects that are open, the boxed
/// callbacks that are allocated, each with the kind of object that it was
/// boxed for, and how often each handle was closed and each callback invoked
/// for a last event and dropped.
pub struct World {
    /// The open native objects, by handle.
    pub objects: Map<Handle, NativeObject>,
    /// The boxed callbacks that are allocated and not yet dropped, by address,
    /// each with the kind of object whose callback it is. A callback of one
    /// kind must never be invoked or dropped as one of another.
    pub callbacks: Map<Context, HandleKind>,
    /// The native close calls made so far.
    pub closed: Multiset<Handle>,
    /// The callbacks that the native library has invoked from inside a close
    /// call, to deliver the last event of the object.
    pub invoked: Multiset<Context>,
    /// The callbacks dropped so far.
    pub released: Multiset<Context>,
}

impl World {
    /// Whether `handle` stands for an open native object.
    pub open spec fn is_open(self, handle: Handle) -> bool {
        self.objects.contains_key(handle)
    }

    /// What the native get-context call returns for `handle`: the slot of an
    /// open object, null for anything else.
    pub open spec fn context_of(self, handle: Handle) -> Context {
        if self.objects.contains_key(handle) {
            self.objects[handle].context
        } else {
            NULL_CONTEXT
        }
    }

    /// Whether a boxed callback is allocated at `context`.
    pub open spec fn is_live(self, context: Context) -> bool {
        self.callbacks.contains_key(context)
    }

    /// Whether a boxed callback for objects of `kind` is allocated at
    /// `context`.
    pub open spec fn holds(self, kind: HandleKind, context: Context) -> bool {
        self.callbacks.contains_key(context) && self.callbacks[context] == kind
    }

    /// Whether the slot of some open object holds `context`.
    pub open spec fn is_attached(self, context: Context) -> bool {
        exists|handle: Handle| #[trigger]
            self.objects.contains_key(handle) && self.objects[handle].context == context
    }

    /// The invariant of handle management: neither the null handle nor the
    /// null context stands for anything; the slot of every open object is null
    /// or holds an allocated callback of the object's kind, so that the native
    /// library can invoke the callback of any open object at any time; and no
    /// callback is in the slots of two objects.
    pub open spec fn well_formed(self) -> bool {
        &&& !self.objects.contains_key(NULL_HANDLE)
        &&& !self.callbacks.contains_key(NULL_CONTEXT)
        &&& forall|handle: Handle| #[trigger]
            self.objects.contains_key(handle) ==> self.objects[handle].context == NULL_CONTEXT
                || self.holds(self.objects[handle].kind, self.objects[handle].context)
        &&& forall|a: Handle, b: Handle|
            #![trigger self.objects.contains_key(a), self.objects.contains_key(b)]
            self.objects.contains_key(a) && self.objects.contains_key(b)
                && self.objects[a].context == self.objects[b].context && self.objects[a].context
                != NULL_CONTEXT ==> a == b
    }

    /// Whether `step` is safe here. A close needs an open object of that kind
    /// whose callback, if it has one, is still allocated: the native library
    /// may invoke it a last time before the call returns. A callback that is
    /// put into the slot of an open object must be allocated, of the object's
    /// kind, and in no other slot. A callback that is dropped must be
    /// allocated, must be dropped as a callback of the kind that it was boxed
    /// for, and no open object may still hold it.
    pub open spec fn admits(self, step: Step) -> bool {
        match step {
            Step::Close { kind, handle } => {
                &&& self.objects.contains_key(handle)
                &&& self.objects[handle].kind == kind
                &&& (self.objects[handle].context == NULL_CONTEXT || self.holds(
                    kind,
                    self.objects[handle].context,
                ))
            },
            Step::SetContext { handle, context } => {
                ||| context == NULL_CONTEXT
                ||| !self.objects.contains_key(handle)
                ||| {
                    &&& self.holds(self.objects[handle].kind, context)
                    &&& !self.is_attached(context) || self.context_of(handle) == context
                }
            },
            Step::SetCallbackHandler { kind, handle, context } => {
                &&& self.objects.contains_key(handle)
                &&& self.objects[handle].kind == kind
                &&& self.holds(kind, context)
                &&& !self.is_attached(context) || self.context_of(handle) == context
            },
            Step::Release { kind, context } => {
                &&& self.holds(kind, context)
                &&& !self.is_attached(context)
            },
        }
    }

    /// The world after `step`. A close invokes the callback of the object, if
    /// it has one, a last time, and then the object is gone. Setting the
    /// context of a handle that is not open changes nothing.
    pub open spec fn apply(self, step: Step) -> World {
        match step {
            Step::Close { kind, handle } => World {
                objects: self.objects.remove(handle),
                closed: self.closed.insert(handle),
                invoked: if self.context_of(handle) == NULL_CONTEXT {
                    self.invoked
                } else {
                    self.invoked.insert(self.context_of(handle))
                },
                ..self
            },
            Step::SetContext { handle, context } => if self.objects.contains_key(handle) {
                World {
                    objects: self.objects.insert(
                        handle,
                        NativeObject { kind: self.objects[handle].kind, context },
                    ),
                    ..self
                }
            } else {
                self
            },
            Step::SetCallbackHandler { kind, handle, context } => if self.objects.contains_key(
                handle,
            ) {
                World {
                    objects: self.objects.insert(
                        handle,
                        NativeObject { kind: self.objects[handle].kind, context },
                    ),
                    ..self
                }
            } else {
                self
            },
            Step::Release { kind, context } => World {
                callbacks: self.callbacks.remove(context),
                released: self.released.insert(context),
                ..self
            },
        }
    }

    /// Whether every step of `steps` is safe when they are made in order.
    pub open spec fn admits_all(self, steps: Seq<Step>) -> bool
        decreases steps.len(),
    {
        if steps.len() == 0 {
            true
        } else {
            self.admits(steps[0]) && self.apply(steps[0]).admits_all(steps.drop_first())
        }
    }

    /// The world after the steps of `steps`, made in order.
    pub open spec fn apply_all(self, steps: Seq<Step>) -> World
        decreases steps.len(),
    {
        if steps.len() == 0 {
            self
        } else {
            self.apply(steps[0]).apply_all(steps.drop_first())
        }
    }

    /// The world after a callback for objects of `kind` was boxed at
    /// `context`.
    pub open spec fn boxed(self, kind: HandleKind, context: Context) -> World {
        World { callbacks: self.callbacks.insert(context, kind), ..self }
    }

    /// The world after a native open call succeeded and returned `handle`,
    /// with `context` in the slot of the new object.
    pub open spec fn opened(self, kind: HandleKind, handle: Handle, context: Context) -> World {
        World { objects: self.objects.insert(handle, NativeObject { kind, context }), ..self }
    }
}

} // verus!
