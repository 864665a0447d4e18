//! Ownership and callback-context management for handles of a native QUIC
//! transport library, with the status model and event projection that it
//! rests on.
//!
//! The native library is reached through a table of functions. Nothing here
//! calls it: every operation on a handle returns the native calls that are
//! due, in their order, and takes their replies as plain values. What is
//! proved is that the order is safe: a native object is closed while its
//! callback is still allocated, a callback is dropped exactly once and only
//! when no native object can invoke it, and a borrowed handle closes nothing.

pub mod addr;
pub mod api;
pub mod buffer;
pub mod callback;
pub mod config;
pub mod connection_event;
pub mod cstring;
pub mod error;
pub mod flags;
pub mod handle;
pub mod listener_event;
pub mod native;
pub mod request;
pub mod settings;
pub mod status;
pub mod stream_event;
pub mod text;
pub mod types;

pub use addr::{Addr, SocketAddress};
pub use api::{Api, QuicPerformanceCounters};
pub use buffer::{slice_conv, BufferRef, SliceSource};
pub use config::{
    CertificateFile, CertificateFileProtected, CertificateHash, CertificateHashStore,
    CertificatePkcs12, Credential, CredentialConfig, ExecutionProfile, RegistrationConfig,
};
pub use connection_event::{ConnectionEvent, RawConnectionEvent, RawConnectionPayload};
pub use error::{Error, ErrorCode};
pub use flags::{
    AllowedCipherSuiteFlags, CertificateHashStoreFlags, ConnectionShutdownFlags, CredentialFlags,
    ReceiveFlags, SendFlags, StreamOpenFlags, StreamShutdownFlags, StreamStartFlags,
};
pub use handle::{
    Configuration, Connection, ConnectionRef, Listener, ListenerRef, Registration, Stream,
    StreamRef,
};
pub use listener_event::{
    ListenerEvent, NewConnectionInfo, RawListenerEvent, RawListenerPayload, RawNewConnectionInfo,
};
pub use native::{Context, Handle, HandleKind, Step};
pub use settings::{ServerResumptionLevel, Settings};
pub use status::{Status, StatusCode};
pub use stream_event::{RawStreamEvent, RawStreamPayload, StreamEvent};
pub use types::{
    DatagramSendState, HandshakeInfo, QuicListenerStatistics, QuicTlsSecrets, TicketKeyConfig,
    TlsProvider,
};
