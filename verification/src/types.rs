//! Small enumerations of the native library, each with the native integer of
//! every value.

use vstd::prelude::*;

verus! {

/// Unsigned 62-bit integer.
#[allow(non_camel_case_types)]
pub type u62 = u64;

/// C-style bool.
pub type BOOLEAN = u8;

/// Key information for TLS session ticket encryption.
#[derive(Debug, Clone, Copy)]
pub struct TicketKeyConfig {
    pub id: [u8; 16],
    pub material: [u8; 64],
    pub material_length: u8,
}

/// The version of TLS that a handshake agreed on.
pub type TlsProtocolVersion = u32;

/// No known version of TLS.
pub const TLS_PROTOCOL_UNKNOWN: TlsProtocolVersion = 0;

/// TLS 1.3.
pub const TLS_PROTOCOL_1_3: TlsProtocolVersion = 12288;

/// The cipher that a handshake agreed on.
pub type CipherAlgorithm = u32;

pub const CIPHER_ALGORITHM_NONE: CipherAlgorithm = 0;

pub const CIPHER_ALGORITHM_AES_128: CipherAlgorithm = 26126;

pub const CIPHER_ALGORITHM_AES_256: CipherAlgorithm = 26128;

pub const CIPHER_ALGORITHM_CHACHA20: CipherAlgorithm = 26130;

/// The hash that a handshake agreed on.
pub type HashAlgorithm = u32;

pub const HASH_ALGORITHM_NONE: HashAlgorithm = 0;

pub const HASH_ALGORITHM_SHA_256: HashAlgorithm = 32780;

pub const HASH_ALGORITHM_SHA_384: HashAlgorithm = 32781;

/// The key exchange that a handshake agreed on.
pub type KeyExchangeAlgorithm = u32;

pub const KEY_EXCHANGE_ALGORITHM_NONE: KeyExchangeAlgorithm = 0;

/// The cipher suite that a handshake agreed on.
pub type CipherSuite = u32;

pub const CIPHER_SUITE_TLS_AES_128_GCM_SHA256: CipherSuite = 4865;

pub const CIPHER_SUITE_TLS_AES_256_GCM_SHA384: CipherSuite = 4866;

pub const CIPHER_SUITE_TLS_CHACHA20_POLY1305_SHA256: CipherSuite = 4867;

/// What a TLS handshake agreed on.
#[derive(Debug, Clone, Copy, PartialEq, Eq)]
pub struct HandshakeInfo {
    pub tls_protocol_version: TlsProtocolVersion,
    pub cipher_algorithm: CipherAlgorithm,
    pub cipher_strength: i32,
    pub hash: HashAlgorithm,
    pub hash_strength: i32,
    pub key_exchange_algorithm: KeyExchangeAlgorithm,
    pub key_exchange_strength: i32,
    pub cipher_suite: CipherSuite,
}

/// A helper struct for accessing listener statistics.
#[derive(Debug, Clone, Copy, PartialEq, Eq)]
pub struct QuicListenerStatistics {
    pub total_accepted_connections: u64,
    pub total_rejected_connections: u64,
    pub binding: u64,
}

/// The length of the longest TLS secret.
pub const QUIC_TLS_SECRETS_MAX_SECRET_LEN: usize = 64;

/// The secrets of a TLS session, for the diagnosis of its traffic.
#[derive(Debug, Clone, Copy)]
pub struct QuicTlsSecrets {
    pub secret_length: u8,
    pub flags: u8,
    pub client_random: [u8; 32],
    pub client_early_traffic_secret: [u8; 64],
    pub client_handshake_traffic_secret: [u8; 64],
    pub server_handshake_traffic_secret: [u8; 64],
    pub client_traffic_secret0: [u8; 64],
    pub server_traffic_secret0: [u8; 64],
}

/// The native integer of the TLS provider Schannel.
pub const TLS_PROVIDER_SCHANNEL: u32 = 0;

/// The native integer of the TLS provider OpenSSL.
pub const TLS_PROVIDER_OPENSSL: u32 = 1;

/// The different possible TLS providers used by the native library.
#[derive(Debug, Clone, Copy, PartialEq, Eq, Structural)]
pub enum TlsProvider {
    Schannel,
    Openssl,
}

impl TlsProvider {
    /// The native integer of this provider.
    pub open spec fn raw(self) -> u32 {
        match self {
            TlsProvider::Schannel => TLS_PROVIDER_SCHANNEL,
            TlsProvider::Openssl => TLS_PROVIDER_OPENSSL,
        }
    }

    /// Whether `value` is the native integer of a provider.
    pub open spec fn is_known(value: u32) -> bool {
        value == TLS_PROVIDER_SCHANNEL || value == TLS_PROVIDER_OPENSSL
    }

    /// The provider with the native integer `value`.
    pub open spec fn of(value: u32) -> TlsProvider {
        if value == TLS_PROVIDER_SCHANNEL {
            TlsProvider::Schannel
        } else {
            TlsProvider::Openssl
        }
    }

    /// The native integer of this provider.
    pub fn to_raw(self) -> (value: u32)
        ensures
            value == self.raw(),
            TlsProvider::is_known(value),
            TlsProvider::of(value) == self,
    {
        match self {
            TlsProvider::Schannel => TLS_PROVIDER_SCHANNEL,
            TlsProvider::Openssl => TLS_PROVIDER_OPENSSL,
        }
    }

    /// The provider with the native integer `value`, if there is one.
    pub fn lookup(value: u32) -> (found: Option<TlsProvider>)
        ensures
            found == (if TlsProvider::is_known(value) {
                Some(TlsProvider::of(value))
            } else {
                None
            }),
    {
        if value == TLS_PROVIDER_SCHANNEL {
            Some(TlsProvider::Schannel)
        } else if value == TLS_PROVIDER_OPENSSL {
            Some(TlsProvider::Openssl)
        } else {
            None
        }
    }

    /// The provider with the native integer `value`, which must be that of a
    /// provider.
    pub fn from(value: u32) -> (provider: TlsProvider)
        requires
            TlsProvider::is_known(value),
        ensures
            provider == TlsProvider::of(value),
            provider.raw() == value,
    {
        if value == TLS_PROVIDER_SCHANNEL {
            TlsProvider::Schannel
        } else {
            TlsProvider::Openssl
        }
    }
}

impl From<TlsProvider> for u32 {
    fn from(value: TlsProvider) -> (raw: u32) {
        value.to_raw()
    }
}

impl vstd::std_specs::convert::FromSpecImpl<TlsProvider> for u32 {
    open spec fn obeys_from_spec() -> bool {
        true
    }

    open spec fn from_spec(value: TlsProvider) -> u32 {
        value.raw()
    }
}

/// The native integer of a datagram that is not yet sent.
pub const DATAGRAM_SEND_UNKNOWN: u32 = 0;

/// The native integer of a datagram that is sent and awaits acknowledgment.
pub const DATAGRAM_SEND_SENT: u32 = 1;

/// The native integer of a datagram that is suspected lost but still tracked.
pub const DATAGRAM_SEND_LOST_SUSPECT: u32 = 2;

/// The native integer of a datagram that is lost and no longer tracked.
pub const DATAGRAM_SEND_LOST_DISCARDED: u32 = 3;

/// The native integer of a datagram that is acknowledged.
pub const DATAGRAM_SEND_ACKNOWLEDGED: u32 = 4;

/// The native integer of a datagram that is acknowledged after it was
/// suspected lost.
pub const DATAGRAM_SEND_ACKNOWLEDGED_SPURIOUS: u32 = 5;

/// The native integer of a datagram that was canceled before it was sent.
pub const DATAGRAM_SEND_CANCELED: u32 = 6;

/// What became of a datagram that was handed to the native library.
#[derive(Debug, Clone, Copy, PartialEq, Eq, Structural)]
pub enum DatagramSendState {
    /// Not yet sent.
    Unknown,
    /// Sent and awaiting acknowledgment.
    Sent,
    /// Suspected as lost, but still tracked.
    LostSuspect,
    /// Lost and no longer being tracked.
    LostDiscarded,
    /// Acknowledged.
    Acknowledged,
    /// Acknowledged after being suspected lost.
    AcknowledgedSpurious,
    /// Canceled before send.
    Canceled,
}

impl DatagramSendState {
    /// The native integer of this state.
    pub open spec fn raw(self) -> u32 {
        match self {
            DatagramSendState::Unknown => DATAGRAM_SEND_UNKNOWN,
            DatagramSendState::Sent => DATAGRAM_SEND_SENT,
            DatagramSendState::LostSuspect => DATAGRAM_SEND_LOST_SUSPECT,
            DatagramSendState::LostDiscarded => DATAGRAM_SEND_LOST_DISCARDED,
            DatagramSendState::Acknowledged => DATAGRAM_SEND_ACKNOWLEDGED,
            DatagramSendState::AcknowledgedSpurious => DATAGRAM_SEND_ACKNOWLEDGED_SPURIOUS,
            DatagramSendState::Canceled => DATAGRAM_SEND_CANCELED,
        }
    }

    /// Whether `value` is the native integer of a state.
    pub open spec fn is_known(value: u32) -> bool {
        value <= DATAGRAM_SEND_CANCELED
    }

    /// The state with the native integer `value`.
    pub open spec fn of(value: u32) -> DatagramSendState {
        if value == DATAGRAM_SEND_UNKNOWN {
            DatagramSendState::Unknown
        } else if value == DATAGRAM_SEND_SENT {
            DatagramSendState::Sent
        } else if value == DATAGRAM_SEND_LOST_SUSPECT {
            DatagramSendState::LostSuspect
        } else if value == DATAGRAM_SEND_LOST_DISCARDED {
            DatagramSendState::LostDiscarded
        } else if value == DATAGRAM_SEND_ACKNOWLEDGED {
            DatagramSendState::Acknowledged
        } else if value == DATAGRAM_SEND_ACKNOWLEDGED_SPURIOUS {
            DatagramSendState::AcknowledgedSpurious
        } else {
            DatagramSendState::Canceled
        }
    }

    /// The state with the native integer `value`, if there is one.
    pub fn lookup(value: u32) -> (found: Option<DatagramSendState>)
        ensures
            found == (if DatagramSendState::is_known(value) {
                Some(DatagramSendState::of(value))
            } else {
                None
            }),
    {
        match value {
            0 => Some(DatagramSendState::Unknown),
            1 => Some(DatagramSendState::Sent),
            2 => Some(DatagramSendState::LostSuspect),
            3 => Some(DatagramSendState::LostDiscarded),
            4 => Some(DatagramSendState::Acknowledged),
            5 => Some(DatagramSendState::AcknowledgedSpurious),
            6 => Some(DatagramSendState::Canceled),
            _ => None,
        }
    }

    /// The state with the native integer `value`, which must be that of a
    /// state.
    pub fn from(value: u32) -> (state: DatagramSendState)
        requires
            DatagramSendState::is_known(value),
        ensures
            state == DatagramSendState::of(value),
            state.raw() == value,
    {
        match value {
            0 => DatagramSendState::Unknown,
            1 => DatagramSendState::Sent,
            2 => DatagramSendState::LostSuspect,
            3 => DatagramSendState::LostDiscarded,
            4 => DatagramSendState::Acknowledged,
            5 => DatagramSendState::AcknowledgedSpurious,
            _ => DatagramSendState::Canceled,
        }
    }
}

} // verus!
