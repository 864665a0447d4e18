//! Flag sets: each is a set of bits of a 32-bit integer of the native library,
//! with the bits that the native library defines named by constants.
//!
//! A flag set is built from named bits and read back as the integer. Bits that
//! the set does not define are refused by `from_bits`, dropped by
//! `from_bits_truncate` and kept by `from_bits_retain`.

use vstd::prelude::*;

verus! {

/// No bit of `ConnectionShutdownFlags`.
pub const CONNECTION_SHUTDOWN_FLAG_NONE: u32 = 0;

/// Don't send the close frame over the network.
pub const CONNECTION_SHUTDOWN_FLAG_SILENT: u32 = 1;

/// The bits that `ConnectionShutdownFlags` defines.
pub const CONNECTION_SHUTDOWN_FLAGS_ALL: u32 = 0x1;

/// Controls connection shutdown behavior.
#[derive(Debug, Clone, Copy, PartialEq, Eq, Structural)]
pub struct ConnectionShutdownFlags {
    bits: u32,
}

impl ConnectionShutdownFlags {
    /// The bits of this set.
    pub closed spec fn view_bits(&self) -> u32 {
        self.bits
    }

    /// The set with no bit.
    pub fn empty() -> (flags: Self)
        ensures
            flags.bits() == 0,
    {
        ConnectionShutdownFlags { bits: 0 }
    }

    /// The set with every bit that is defined.
    pub fn all() -> (flags: Self)
        ensures
            flags.bits() == CONNECTION_SHUTDOWN_FLAGS_ALL,
    {
        ConnectionShutdownFlags { bits: CONNECTION_SHUTDOWN_FLAGS_ALL }
    }

    /// The bits of this set.
    #[verifier::when_used_as_spec(view_bits)]
    pub fn bits(&self) -> (bits: u32)
        ensures
            bits == self.view_bits(),
    {
        self.bits
    }

    /// The set with exactly the bits of `bits`, unless one of them is not
    /// defined.
    pub fn from_bits(bits: u32) -> (flags: Option<Self>)
        ensures
            bits & !CONNECTION_SHUTDOWN_FLAGS_ALL == 0 ==> flags is Some && flags->Some_0.bits() == bits,
            bits & !CONNECTION_SHUTDOWN_FLAGS_ALL != 0 ==> flags is None,
    {
        if bits & !CONNECTION_SHUTDOWN_FLAGS_ALL == 0 {
            Some(ConnectionShutdownFlags { bits })
        } else {
            None
        }
    }

    /// The set with the bits of `bits` that are defined.
    pub fn from_bits_truncate(bits: u32) -> (flags: Self)
        ensures
            flags.bits() == bits & CONNECTION_SHUTDOWN_FLAGS_ALL,
    {
        ConnectionShutdownFlags { bits: bits & CONNECTION_SHUTDOWN_FLAGS_ALL }
    }

    /// The set with exactly the bits of `bits`, defined or not.
    pub fn from_bits_retain(bits: u32) -> (flags: Self)
        ensures
            flags.bits() == bits,
    {
        ConnectionShutdownFlags { bits }
    }

    /// Whether the set has no bit.
    pub fn is_empty(&self) -> (empty: bool)
        ensures
            empty == (self.bits() == 0),
    {
        self.bits == 0
    }

    /// Whether every bit of `other` is in this set.
    pub fn contains(&self, other: Self) -> (yes: bool)
        ensures
            yes == (self.bits() & other.bits() == other.bits()),
    {
        self.bits & other.bits == other.bits
    }

    /// The set with the bits of both.
    pub fn union(self, other: Self) -> (flags: Self)
        ensures
            flags.bits() == self.bits() | other.bits(),
    {
        ConnectionShutdownFlags { bits: self.bits | other.bits }
    }

    /// Adds the bits of `other` to this set.
    pub fn insert(&mut self, other: Self)
        ensures
            final(self).bits() == old(self).bits() | other.bits(),
    {
        self.bits = self.bits | other.bits;
    }
}

/// No bit of `StreamOpenFlags`.
pub const STREAM_OPEN_FLAG_NONE: u32 = 0;

/// The bit `UNIDIRECTIONAL` of `StreamOpenFlags`.
pub const STREAM_OPEN_FLAG_UNIDIRECTIONAL: u32 = 1;

/// The bit `ZERO_RTT` of `StreamOpenFlags`.
pub const STREAM_OPEN_FLAG_ZERO_RTT: u32 = 2;

/// The bit `DELAY_ID_FC_UPDATES` of `StreamOpenFlags`.
pub const STREAM_OPEN_FLAG_DELAY_ID_FC_UPDATES: u32 = 4;

/// The bits that `StreamOpenFlags` defines.
pub const STREAM_OPEN_FLAGS_ALL: u32 = 0x7;

/// Controls stream open behavior.
#[derive(Debug, Clone, Copy, PartialEq, Eq, Structural)]
pub struct StreamOpenFlags {
    bits: u32,
}

impl StreamOpenFlags {
    /// The bits of this set.
    pub closed spec fn view_bits(&self) -> u32 {
        self.bits
    }

    /// The set with no bit.
    pub fn empty() -> (flags: Self)
        ensures
            flags.bits() == 0,
    {
        StreamOpenFlags { bits: 0 }
    }

    /// The set with every bit that is defined.
    pub fn all() -> (flags: Self)
        ensures
            flags.bits() == STREAM_OPEN_FLAGS_ALL,
    {
        StreamOpenFlags { bits: STREAM_OPEN_FLAGS_ALL }
    }

    /// The bits of this set.
    #[verifier::when_used_as_spec(view_bits)]
    pub fn bits(&self) -> (bits: u32)
        ensures
            bits == self.view_bits(),
    {
        self.bits
    }

    /// The set with exactly the bits of `bits`, unless one of them is not
    /// defined.
    pub fn from_bits(bits: u32) -> (flags: Option<Self>)
        ensures
            bits & !STREAM_OPEN_FLAGS_ALL == 0 ==> flags is Some && flags->Some_0.bits() == bits,
            bits & !STREAM_OPEN_FLAGS_ALL != 0 ==> flags is None,
    {
        if bits & !STREAM_OPEN_FLAGS_ALL == 0 {
            Some(StreamOpenFlags { bits })
        } else {
            None
        }
    }

    /// The set with the bits of `bits` that are defined.
    pub fn from_bits_truncate(bits: u32) -> (flags: Self)
        ensures
            flags.bits() == bits & STREAM_OPEN_FLAGS_ALL,
    {
        StreamOpenFlags { bits: bits & STREAM_OPEN_FLAGS_ALL }
    }

    /// The set with exactly the bits of `bits`, defined or not.
    pub fn from_bits_retain(bits: u32) -> (flags: Self)
        ensures
            flags.bits() == bits,
    {
        StreamOpenFlags { bits }
    }

    /// Whether the set has no bit.
    pub fn is_empty(&self) -> (empty: bool)
        ensures
            empty == (self.bits() == 0),
    {
        self.bits == 0
    }

    /// Whether every bit of `other` is in this set.
    pub fn contains(&self, other: Self) -> (yes: bool)
        ensures
            yes == (self.bits() & other.bits() == other.bits()),
    {
        self.bits & other.bits == other.bits
    }

    /// The set with the bits of both.
    pub fn union(self, other: Self) -> (flags: Self)
        ensures
            flags.bits() == self.bits() | other.bits(),
    {
        StreamOpenFlags { bits: self.bits | other.bits }
    }

    /// Adds the bits of `other` to this set.
    pub fn insert(&mut self, other: Self)
        ensures
            final(self).bits() == old(self).bits() | other.bits(),
    {
        self.bits = self.bits | other.bits;
    }
}

/// No bit of `StreamStartFlags`.
pub const STREAM_START_FLAG_NONE: u32 = 0;

/// The bit `IMMEDIATE` of `StreamStartFlags`.
pub const STREAM_START_FLAG_IMMEDIATE: u32 = 1;

/// The bit `FAIL_BLOCKED` of `StreamStartFlags`.
pub const STREAM_START_FLAG_FAIL_BLOCKED: u32 = 2;

/// The bit `SHUTDOWN_ON_FAIL` of `StreamStartFlags`.
pub const STREAM_START_FLAG_SHUTDOWN_ON_FAIL: u32 = 4;

/// The bit `INDICATE_PEER_ACCEPT` of `StreamStartFlags`.
pub const STREAM_START_FLAG_INDICATE_PEER_ACCEPT: u32 = 8;

/// The bit `PRIORITY_WORK` of `StreamStartFlags`.
pub const STREAM_START_FLAG_PRIORITY_WORK: u32 = 16;

/// The bits that `StreamStartFlags` defines.
pub const STREAM_START_FLAGS_ALL: u32 = 0x1f;

/// Controls stream start behavior.
#[derive(Debug, Clone, Copy, PartialEq, Eq, Structural)]
pub struct StreamStartFlags {
    bits: u32,
}

impl StreamStartFlags {
    /// The bits of this set.
    pub closed spec fn view_bits(&self) -> u32 {
        self.bits
    }

    /// The set with no bit.
    pub fn empty() -> (flags: Self)
        ensures
            flags.bits() == 0,
    {
        StreamStartFlags { bits: 0 }
    }

    /// The set with every bit that is defined.
    pub fn all() -> (flags: Self)
        ensures
            flags.bits() == STREAM_START_FLAGS_ALL,
    {
        StreamStartFlags { bits: STREAM_START_FLAGS_ALL }
    }

    /// The bits of this set.
    #[verifier::when_used_as_spec(view_bits)]
    pub fn bits(&self) -> (bits: u32)
        ensures
            bits == self.view_bits(),
    {
        self.bits
    }

    /// The set with exactly the bits of `bits`, unless one of them is not
    /// defined.
    pub fn from_bits(bits: u32) -> (flags: Option<Self>)
        ensures
            bits & !STREAM_START_FLAGS_ALL == 0 ==> flags is Some && flags->Some_0.bits() == bits,
            bits & !STREAM_START_FLAGS_ALL != 0 ==> flags is None,
    {
        if bits & !STREAM_START_FLAGS_ALL == 0 {
            Some(StreamStartFlags { bits })
        } else {
            None
        }
    }

    /// The set with the bits of `bits` that are defined.
    pub fn from_bits_truncate(bits: u32) -> (flags: Self)
        ensures
            flags.bits() == bits & STREAM_START_FLAGS_ALL,
    {
        StreamStartFlags { bits: bits & STREAM_START_FLAGS_ALL }
    }

    /// The set with exactly the bits of `bits`, defined or not.
    pub fn from_bits_retain(bits: u32) -> (flags: Self)
        ensures
            flags.bits() == bits,
    {
        StreamStartFlags { bits }
    }

    /// Whether the set has no bit.
    pub fn is_empty(&self) -> (empty: bool)
        ensures
            empty == (self.bits() == 0),
    {
        self.bits == 0
    }

    /// Whether every bit of `other` is in this set.
    pub fn contains(&self, other: Self) -> (yes: bool)
        ensures
            yes == (self.bits() & other.bits() == other.bits()),
    {
        self.bits & other.bits == other.bits
    }

    /// The set with the bits of both.
    pub fn union(self, other: Self) -> (flags: Self)
        ensures
            flags.bits() == self.bits() | other.bits(),
    {
        StreamStartFlags { bits: self.bits | other.bits }
    }

    /// Adds the bits of `other` to this set.
    pub fn insert(&mut self, other: Self)
        ensures
            final(self).bits() == old(self).bits() | other.bits(),
    {
        self.bits = self.bits | other.bits;
    }
}

/// No bit of `StreamShutdownFlags`.
pub const STREAM_SHUTDOWN_FLAG_NONE: u32 = 0;

/// The bit `GRACEFUL` of `StreamShutdownFlags`.
pub const STREAM_SHUTDOWN_FLAG_GRACEFUL: u32 = 1;

/// The bit `ABORT_SEND` of `StreamShutdownFlags`.
pub const STREAM_SHUTDOWN_FLAG_ABORT_SEND: u32 = 2;

/// The bit `ABORT_RECEIVE` of `StreamShutdownFlags`.
pub const STREAM_SHUTDOWN_FLAG_ABORT_RECEIVE: u32 = 4;

/// Both abort bits of `StreamShutdownFlags`: that of sending and that of
/// receiving.
pub const STREAM_SHUTDOWN_FLAG_ABORT: u32 = 6;

/// The bit `IMMEDIATE` of `StreamShutdownFlags`.
pub const STREAM_SHUTDOWN_FLAG_IMMEDIATE: u32 = 8;

/// The bit `INLINE` of `StreamShutdownFlags`.
pub const STREAM_SHUTDOWN_FLAG_INLINE: u32 = 16;

/// The bits that `StreamShutdownFlags` defines.
pub const STREAM_SHUTDOWN_FLAGS_ALL: u32 = 0x1f;

/// Controls stream shutdown behavior.
#[derive(Debug, Clone, Copy, PartialEq, Eq, Structural)]
pub struct StreamShutdownFlags {
    bits: u32,
}

impl StreamShutdownFlags {
    /// The bits of this set.
    pub closed spec fn view_bits(&self) -> u32 {
        self.bits
    }

    /// The set with no bit.
    pub fn empty() -> (flags: Self)
        ensures
            flags.bits() == 0,
    {
        StreamShutdownFlags { bits: 0 }
    }

    /// The set with every bit that is defined.
    pub fn all() -> (flags: Self)
        ensures
            flags.bits() == STREAM_SHUTDOWN_FLAGS_ALL,
    {
        StreamShutdownFlags { bits: STREAM_SHUTDOWN_FLAGS_ALL }
    }

    /// The bits of this set.
    #[verifier::when_used_as_spec(view_bits)]
    pub fn bits(&self) -> (bits: u32)
        ensures
            bits == self.view_bits(),
    {
        self.bits
    }

    /// The set with exactly the bits of `bits`, unless one of them is not
    /// defined.
    pub fn from_bits(bits: u32) -> (flags: Option<Self>)
        ensures
            bits & !STREAM_SHUTDOWN_FLAGS_ALL == 0 ==> flags is Some && flags->Some_0.bits() == bits,
            bits & !STREAM_SHUTDOWN_FLAGS_ALL != 0 ==> flags is None,
    {
        if bits & !STREAM_SHUTDOWN_FLAGS_ALL == 0 {
            Some(StreamShutdownFlags { bits })
        } else {
            None
        }
    }

    /// The set with the bits of `bits` that are defined.
    pub fn from_bits_truncate(bits: u32) -> (flags: Self)
        ensures
            flags.bits() == bits & STREAM_SHUTDOWN_FLAGS_ALL,
    {
        StreamShutdownFlags { bits: bits & STREAM_SHUTDOWN_FLAGS_ALL }
    }

    /// The set with exactly the bits of `bits`, defined or not.
    pub fn from_bits_retain(bits: u32) -> (flags: Self)
        ensures
            flags.bits() == bits,
    {
        StreamShutdownFlags { bits }
    }

    /// Whether the set has no bit.
    pub fn is_empty(&self) -> (empty: bool)
        ensures
            empty == (self.bits() == 0),
    {
        self.bits == 0
    }

    /// Whether every bit of `other` is in this set.
    pub fn contains(&self, other: Self) -> (yes: bool)
        ensures
            yes == (self.bits() & other.bits() == other.bits()),
    {
        self.bits & other.bits == other.bits
    }

    /// The set with the bits of both.
    pub fn union(self, other: Self) -> (flags: Self)
        ensures
            flags.bits() == self.bits() | other.bits(),
    {
        StreamShutdownFlags { bits: self.bits | other.bits }
    }

    /// Adds the bits of `other` to this set.
    pub fn insert(&mut self, other: Self)
        ensures
            final(self).bits() == old(self).bits() | other.bits(),
    {
        self.bits = self.bits | other.bits;
    }
}

/// No bit of `SendFlags`.
pub const SEND_FLAG_NONE: u32 = 0;

/// The bit `ALLOW_0_RTT` of `SendFlags`.
pub const SEND_FLAG_ALLOW_0_RTT: u32 = 1;

/// The bit `START` of `SendFlags`.
pub const SEND_FLAG_START: u32 = 2;

/// The bit `FIN` of `SendFlags`.
pub const SEND_FLAG_FIN: u32 = 4;

/// The bit `DGRAM_PRIORITY` of `SendFlags`.
pub const SEND_FLAG_DGRAM_PRIORITY: u32 = 8;

/// The bit `DELAY_SEND` of `SendFlags`.
pub const SEND_FLAG_DELAY_SEND: u32 = 16;

/// The bit `CANCEL_ON_LOSS` of `SendFlags`.
pub const SEND_FLAG_CANCEL_ON_LOSS: u32 = 32;

/// The bit `PRIORITY_WORK` of `SendFlags`.
pub const SEND_FLAG_PRIORITY_WORK: u32 = 64;

/// The bit `CANCEL_ON_BLOCKED` of `SendFlags`.
pub const SEND_FLAG_CANCEL_ON_BLOCKED: u32 = 128;

/// The bits that `SendFlags` defines.
pub const SEND_FLAGS_ALL: u32 = 0xff;

/// Controls stream and datagram send behavior.
#[derive(Debug, Clone, Copy, PartialEq, Eq, Structural)]
pub struct SendFlags {
    bits: u32,
}

impl SendFlags {
    /// The bits of this set.
    pub closed spec fn view_bits(&self) -> u32 {
        self.bits
    }

    /// The set with no bit.
    pub fn empty() -> (flags: Self)
        ensures
            flags.bits() == 0,
    {
        SendFlags { bits: 0 }
    }

    /// The set with every bit that is defined.
    pub fn all() -> (flags: Self)
        ensures
            flags.bits() == SEND_FLAGS_ALL,
    {
        SendFlags { bits: SEND_FLAGS_ALL }
    }

    /// The bits of this set.
    #[verifier::when_used_as_spec(view_bits)]
    pub fn bits(&self) -> (bits: u32)
        ensures
            bits == self.view_bits(),
    {
        self.bits
    }

    /// The set with exactly the bits of `bits`, unless one of them is not
    /// defined.
    pub fn from_bits(bits: u32) -> (flags: Option<Self>)
        ensures
            bits & !SEND_FLAGS_ALL == 0 ==> flags is Some && flags->Some_0.bits() == bits,
            bits & !SEND_FLAGS_ALL != 0 ==> flags is None,
    {
        if bits & !SEND_FLAGS_ALL == 0 {
            Some(SendFlags { bits })
        } else {
            None
        }
    }

    /// The set with the bits of `bits` that are defined.
    pub fn from_bits_truncate(bits: u32) -> (flags: Self)
        ensures
            flags.bits() == bits & SEND_FLAGS_ALL,
    {
        SendFlags { bits: bits & SEND_FLAGS_ALL }
    }

    /// The set with exactly the bits of `bits`, defined or not.
    pub fn from_bits_retain(bits: u32) -> (flags: Self)
        ensures
            flags.bits() == bits,
    {
        SendFlags { bits }
    }

    /// Whether the set has no bit.
    pub fn is_empty(&self) -> (empty: bool)
        ensures
            empty == (self.bits() == 0),
    {
        self.bits == 0
    }

    /// Whether every bit of `other` is in this set.
    pub fn contains(&self, other: Self) -> (yes: bool)
        ensures
            yes == (self.bits() & other.bits() == other.bits()),
    {
        self.bits & other.bits == other.bits
    }

    /// The set with the bits of both.
    pub fn union(self, other: Self) -> (flags: Self)
        ensures
            flags.bits() == self.bits() | other.bits(),
    {
        SendFlags { bits: self.bits | other.bits }
    }

    /// Adds the bits of `other` to this set.
    pub fn insert(&mut self, other: Self)
        ensures
            final(self).bits() == old(self).bits() | other.bits(),
    {
        self.bits = self.bits | other.bits;
    }
}

/// No bit of `ReceiveFlags`.
pub const RECEIVE_FLAG_NONE: u32 = 0;

/// The bit `ZERO_RTT` of `ReceiveFlags`.
pub const RECEIVE_FLAG_ZERO_RTT: u32 = 1;

/// The bit `FIN` of `ReceiveFlags`.
pub const RECEIVE_FLAG_FIN: u32 = 2;

/// The bits that `ReceiveFlags` defines.
pub const RECEIVE_FLAGS_ALL: u32 = 0x3;

/// Says how received data arrived.
#[derive(Debug, Clone, Copy, PartialEq, Eq, Structural)]
pub struct ReceiveFlags {
    bits: u32,
}

impl ReceiveFlags {
    /// The bits of this set.
    pub closed spec fn view_bits(&self) -> u32 {
        self.bits
    }

    /// The set with no bit.
    pub fn empty() -> (flags: Self)
        ensures
            flags.bits() == 0,
    {
        ReceiveFlags { bits: 0 }
    }

    /// The set with every bit that is defined.
    pub fn all() -> (flags: Self)
        ensures
            flags.bits() == RECEIVE_FLAGS_ALL,
    {
        ReceiveFlags { bits: RECEIVE_FLAGS_ALL }
    }

    /// The bits of this set.
    #[verifier::when_used_as_spec(view_bits)]
    pub fn bits(&self) -> (bits: u32)
        ensures
            bits == self.view_bits(),
    {
        self.bits
    }

    /// The set with exactly the bits of `bits`, unless one of them is not
    /// defined.
    pub fn from_bits(bits: u32) -> (flags: Option<Self>)
        ensures
            bits & !RECEIVE_FLAGS_ALL == 0 ==> flags is Some && flags->Some_0.bits() == bits,
            bits & !RECEIVE_FLAGS_ALL != 0 ==> flags is None,
    {
        if bits & !RECEIVE_FLAGS_ALL == 0 {
            Some(ReceiveFlags { bits })
        } else {
            None
        }
    }

    /// The set with the bits of `bits` that are defined.
    pub fn from_bits_truncate(bits: u32) -> (flags: Self)
        ensures
            flags.bits() == bits & RECEIVE_FLAGS_ALL,
    {
        ReceiveFlags { bits: bits & RECEIVE_FLAGS_ALL }
    }

    /// The set with exactly the bits of `bits`, defined or not.
    pub fn from_bits_retain(bits: u32) -> (flags: Self)
        ensures
            flags.bits() == bits,
    {
        ReceiveFlags { bits }
    }

    /// Whether the set has no bit.
    pub fn is_empty(&self) -> (empty: bool)
        ensures
            empty == (self.bits() == 0),
    {
        self.bits == 0
    }

    /// Whether every bit of `other` is in this set.
    pub fn contains(&self, other: Self) -> (yes: bool)
        ensures
            yes == (self.bits() & other.bits() == other.bits()),
    {
        self.bits & other.bits == other.bits
    }

    /// The set with the bits of both.
    pub fn union(self, other: Self) -> (flags: Self)
        ensures
            flags.bits() == self.bits() | other.bits(),
    {
        ReceiveFlags { bits: self.bits | other.bits }
    }

    /// Adds the bits of `other` to this set.
    pub fn insert(&mut self, other: Self)
        ensures
            final(self).bits() == old(self).bits() | other.bits(),
    {
        self.bits = self.bits | other.bits;
    }
}

/// No bit of `CertificateHashStoreFlags`.
pub const CERTIFICATE_HASH_STORE_FLAG_NONE: u32 = 0;

/// The bit `MACHINE_STORE` of `CertificateHashStoreFlags`.
pub const CERTIFICATE_HASH_STORE_FLAG_MACHINE_STORE: u32 = 1;

/// The bits that `CertificateHashStoreFlags` defines.
pub const CERTIFICATE_HASH_STORE_FLAGS_ALL: u32 = 0x1;

/// Modifies the default certificate hash store configuration.
#[derive(Debug, Clone, Copy, PartialEq, Eq, Structural)]
pub struct CertificateHashStoreFlags {
    bits: u32,
}

impl CertificateHashStoreFlags {
    /// The bits of this set.
    pub closed spec fn view_bits(&self) -> u32 {
        self.bits
    }

    /// The set with no bit.
    pub fn empty() -> (flags: Self)
        ensures
            flags.bits() == 0,
    {
        CertificateHashStoreFlags { bits: 0 }
    }

    /// The set with every bit that is defined.
    pub fn all() -> (flags: Self)
        ensures
            flags.bits() == CERTIFICATE_HASH_STORE_FLAGS_ALL,
    {
        CertificateHashStoreFlags { bits: CERTIFICATE_HASH_STORE_FLAGS_ALL }
    }

    /// The bits of this set.
    #[verifier::when_used_as_spec(view_bits)]
    pub fn bits(&self) -> (bits: u32)
        ensures
            bits == self.view_bits(),
    {
        self.bits
    }

    /// The set with exactly the bits of `bits`, unless one of them is not
    /// defined.
    pub fn from_bits(bits: u32) -> (flags: Option<Self>)
        ensures
            bits & !CERTIFICATE_HASH_STORE_FLAGS_ALL == 0 ==> flags is Some && flags->Some_0.bits() == bits,
            bits & !CERTIFICATE_HASH_STORE_FLAGS_ALL != 0 ==> flags is None,
    {
        if bits & !CERTIFICATE_HASH_STORE_FLAGS_ALL == 0 {
            Some(CertificateHashStoreFlags { bits })
        } else {
            None
        }
    }

    /// The set with the bits of `bits` that are defined.
    pub fn from_bits_truncate(bits: u32) -> (flags: Self)
        ensures
            flags.bits() == bits & CERTIFICATE_HASH_STORE_FLAGS_ALL,
    {
        CertificateHashStoreFlags { bits: bits & CERTIFICATE_HASH_STORE_FLAGS_ALL }
    }

    /// The set with exactly the bits of `bits`, defined or not.
    pub fn from_bits_retain(bits: u32) -> (flags: Self)
        ensures
            flags.bits() == bits,
    {
        CertificateHashStoreFlags { bits }
    }

    /// Whether the set has no bit.
    pub fn is_empty(&self) -> (empty: bool)
        ensures
            empty == (self.bits() == 0),
    {
        self.bits == 0
    }

    /// Whether every bit of `other` is in this set.
    pub fn contains(&self, other: Self) -> (yes: bool)
        ensures
            yes == (self.bits() & other.bits() == other.bits()),
    {
        self.bits & other.bits == other.bits
    }

    /// The set with the bits of both.
    pub fn union(self, other: Self) -> (flags: Self)
        ensures
            flags.bits() == self.bits() | other.bits(),
    {
        CertificateHashStoreFlags { bits: self.bits | other.bits }
    }

    /// Adds the bits of `other` to this set.
    pub fn insert(&mut self, other: Self)
        ensures
            final(self).bits() == old(self).bits() | other.bits(),
    {
        self.bits = self.bits | other.bits;
    }
}

/// No bit of `CredentialFlags`.
pub const CREDENTIAL_FLAG_NONE: u32 = 0;

/// The bit `CLIENT` of `CredentialFlags`.
pub const CREDENTIAL_FLAG_CLIENT: u32 = 1;

/// The bit `LOAD_ASYNCHRONOUS` of `CredentialFlags`.
pub const CREDENTIAL_FLAG_LOAD_ASYNCHRONOUS: u32 = 2;

/// The bit `NO_CERTIFICATE_VALIDATION` of `CredentialFlags`.
pub const CREDENTIAL_FLAG_NO_CERTIFICATE_VALIDATION: u32 = 4;

/// The bit `ENABLE_OCSP` of `CredentialFlags`.
pub const CREDENTIAL_FLAG_ENABLE_OCSP: u32 = 8;

/// The bit `INDICATE_CERTIFICATE_RECEIVED` of `CredentialFlags`.
pub const CREDENTIAL_FLAG_INDICATE_CERTIFICATE_RECEIVED: u32 = 16;

/// The bit `DEFER_CERTIFICATE_VALIDATION` of `CredentialFlags`.
pub const CREDENTIAL_FLAG_DEFER_CERTIFICATE_VALIDATION: u32 = 32;

/// The bit `REQUIRE_CLIENT_AUTHENTICATION` of `CredentialFlags`.
pub const CREDENTIAL_FLAG_REQUIRE_CLIENT_AUTHENTICATION: u32 = 64;

/// The bit `USE_TLS_BUILTIN_CERTIFICATE_VALIDATION` of `CredentialFlags`.
pub const CREDENTIAL_FLAG_USE_TLS_BUILTIN_CERTIFICATE_VALIDATION: u32 = 128;

/// The bit `REVOCATION_CHECK_END_CERT` of `CredentialFlags`.
pub const CREDENTIAL_FLAG_REVOCATION_CHECK_END_CERT: u32 = 256;

/// The bit `REVOCATION_CHECK_CHAIN` of `CredentialFlags`.
pub const CREDENTIAL_FLAG_REVOCATION_CHECK_CHAIN: u32 = 512;

/// The bit `REVOCATION_CHECK_CHAIN_EXCLUDE_ROOT` of `CredentialFlags`.
pub const CREDENTIAL_FLAG_REVOCATION_CHECK_CHAIN_EXCLUDE_ROOT: u32 = 1024;

/// The bit `IGNORE_NO_REVOCATION_CHECK` of `CredentialFlags`.
pub const CREDENTIAL_FLAG_IGNORE_NO_REVOCATION_CHECK: u32 = 2048;

/// The bit `IGNORE_REVOCATION_OFFLINE` of `CredentialFlags`.
pub const CREDENTIAL_FLAG_IGNORE_REVOCATION_OFFLINE: u32 = 4096;

/// The bit `SET_ALLOWED_CIPHER_SUITES` of `CredentialFlags`.
pub const CREDENTIAL_FLAG_SET_ALLOWED_CIPHER_SUITES: u32 = 8192;

/// The bit `USE_PORTABLE_CERTIFICATES` of `CredentialFlags`.
pub const CREDENTIAL_FLAG_USE_PORTABLE_CERTIFICATES: u32 = 16384;

/// The bit `USE_SUPPLIED_CREDENTIALS` of `CredentialFlags`.
pub const CREDENTIAL_FLAG_USE_SUPPLIED_CREDENTIALS: u32 = 32768;

/// The bit `USE_SYSTEM_MAPPER` of `CredentialFlags`.
pub const CREDENTIAL_FLAG_USE_SYSTEM_MAPPER: u32 = 65536;

/// The bit `CACHE_ONLY_URL_RETRIEVAL` of `CredentialFlags`.
pub const CREDENTIAL_FLAG_CACHE_ONLY_URL_RETRIEVAL: u32 = 131072;

/// The bit `REVOCATION_CHECK_CACHE_ONLY` of `CredentialFlags`.
pub const CREDENTIAL_FLAG_REVOCATION_CHECK_CACHE_ONLY: u32 = 262144;

/// The bit `INPROC_PEER_CERTIFICATE` of `CredentialFlags`.
pub const CREDENTIAL_FLAG_INPROC_PEER_CERTIFICATE: u32 = 524288;

/// The bit `SET_CA_CERTIFICATE_FILE` of `CredentialFlags`.
pub const CREDENTIAL_FLAG_SET_CA_CERTIFICATE_FILE: u32 = 1048576;

/// The bit `DISABLE_AIA` of `CredentialFlags`.
pub const CREDENTIAL_FLAG_DISABLE_AIA: u32 = 2097152;

/// The bits that `CredentialFlags` defines.
pub const CREDENTIAL_FLAGS_ALL: u32 = 0xffffffff;

/// Modifies the default credential configuration. Every bit is accepted.
#[derive(Debug, Clone, Copy, PartialEq, Eq, Structural)]
pub struct CredentialFlags {
    bits: u32,
}

impl CredentialFlags {
    /// The bits of this set.
    pub closed spec fn view_bits(&self) -> u32 {
        self.bits
    }

    /// The set with no bit.
    pub fn empty() -> (flags: Self)
        ensures
            flags.bits() == 0,
    {
        CredentialFlags { bits: 0 }
    }

    /// The set with every bit that is defined.
    pub fn all() -> (flags: Self)
        ensures
            flags.bits() == CREDENTIAL_FLAGS_ALL,
    {
        CredentialFlags { bits: CREDENTIAL_FLAGS_ALL }
    }

    /// The bits of this set.
    #[verifier::when_used_as_spec(view_bits)]
    pub fn bits(&self) -> (bits: u32)
        ensures
            bits == self.view_bits(),
    {
        self.bits
    }

    /// The set with exactly the bits of `bits`, unless one of them is not
    /// defined.
    pub fn from_bits(bits: u32) -> (flags: Option<Self>)
        ensures
            bits & !CREDENTIAL_FLAGS_ALL == 0 ==> flags is Some && flags->Some_0.bits() == bits,
            bits & !CREDENTIAL_FLAGS_ALL != 0 ==> flags is None,
    {
        if bits & !CREDENTIAL_FLAGS_ALL == 0 {
            Some(CredentialFlags { bits })
        } else {
            None
        }
    }

    /// The set with the bits of `bits` that are defined.
    pub fn from_bits_truncate(bits: u32) -> (flags: Self)
        ensures
            flags.bits() == bits & CREDENTIAL_FLAGS_ALL,
    {
        CredentialFlags { bits: bits & CREDENTIAL_FLAGS_ALL }
    }

    /// The set with exactly the bits of `bits`, defined or not.
    pub fn from_bits_retain(bits: u32) -> (flags: Self)
        ensures
            flags.bits() == bits,
    {
        CredentialFlags { bits }
    }

    /// Whether the set has no bit.
    pub fn is_empty(&self) -> (empty: bool)
        ensures
            empty == (self.bits() == 0),
    {
        self.bits == 0
    }

    /// Whether every bit of `other` is in this set.
    pub fn contains(&self, other: Self) -> (yes: bool)
        ensures
            yes == (self.bits() & other.bits() == other.bits()),
    {
        self.bits & other.bits == other.bits
    }

    /// The set with the bits of both.
    pub fn union(self, other: Self) -> (flags: Self)
        ensures
            flags.bits() == self.bits() | other.bits(),
    {
        CredentialFlags { bits: self.bits | other.bits }
    }

    /// Adds the bits of `other` to this set.
    pub fn insert(&mut self, other: Self)
        ensures
            final(self).bits() == old(self).bits() | other.bits(),
    {
        self.bits = self.bits | other.bits;
    }
}

impl Default for CredentialFlags {
    fn default() -> (flags: Self)
        ensures
            flags.bits() == 0,
    {
        CredentialFlags::empty()
    }
}

/// No bit of `AllowedCipherSuiteFlags`.
pub const ALLOWED_CIPHER_SUITE_NONE: u32 = 0;

/// The bit `AES_128_GCM_SHA256` of `AllowedCipherSuiteFlags`.
pub const ALLOWED_CIPHER_SUITE_AES_128_GCM_SHA256: u32 = 1;

/// The bit `AES_256_GCM_SHA384` of `AllowedCipherSuiteFlags`.
pub const ALLOWED_CIPHER_SUITE_AES_256_GCM_SHA384: u32 = 2;

/// The bit `CHACHA20_POLY1305_SHA256` of `AllowedCipherSuiteFlags`.
pub const ALLOWED_CIPHER_SUITE_CHACHA20_POLY1305_SHA256: u32 = 4;

/// The bits that `AllowedCipherSuiteFlags` defines.
pub const ALLOWED_CIPHER_SUITE_FLAGS_ALL: u32 = 0xffffffff;

/// Set of allowed TLS cipher suites. Every bit is accepted.
#[derive(Debug, Clone, Copy, PartialEq, Eq, Structural)]
pub struct AllowedCipherSuiteFlags {
    bits: u32,
}

impl AllowedCipherSuiteFlags {
    /// The bits of this set.
    pub closed spec fn view_bits(&self) -> u32 {
        self.bits
    }

    /// The set with no bit.
    pub fn empty() -> (flags: Self)
        ensures
            flags.bits() == 0,
    {
        AllowedCipherSuiteFlags { bits: 0 }
    }

    /// The set with every bit that is defined.
    pub fn all() -> (flags: Self)
        ensures
            flags.bits() == ALLOWED_CIPHER_SUITE_FLAGS_ALL,
    {
        AllowedCipherSuiteFlags { bits: ALLOWED_CIPHER_SUITE_FLAGS_ALL }
    }

    /// The bits of this set.
    #[verifier::when_used_as_spec(view_bits)]
    pub fn bits(&self) -> (bits: u32)
        ensures
            bits == self.view_bits(),
    {
        self.bits
    }

    /// The set with exactly the bits of `bits`, unless one of them is not
    /// defined.
    pub fn from_bits(bits: u32) -> (flags: Option<Self>)
        ensures
            bits & !ALLOWED_CIPHER_SUITE_FLAGS_ALL == 0 ==> flags is Some && flags->Some_0.bits() == bits,
            bits & !ALLOWED_CIPHER_SUITE_FLAGS_ALL != 0 ==> flags is None,
    {
        if bits & !ALLOWED_CIPHER_SUITE_FLAGS_ALL == 0 {
            Some(AllowedCipherSuiteFlags { bits })
        } else {
            None
        }
    }

    /// The set with the bits of `bits` that are defined.
    pub fn from_bits_truncate(bits: u32) -> (flags: Self)
        ensures
            flags.bits() == bits & ALLOWED_CIPHER_SUITE_FLAGS_ALL,
    {
        AllowedCipherSuiteFlags { bits: bits & ALLOWED_CIPHER_SUITE_FLAGS_ALL }
    }

    /// The set with exactly the bits of `bits`, defined or not.
    pub fn from_bits_retain(bits: u32) -> (flags: Self)
        ensures
            flags.bits() == bits,
    {
        AllowedCipherSuiteFlags { bits }
    }

    /// Whether the set has no bit.
    pub fn is_empty(&self) -> (empty: bool)
        ensures
            empty == (self.bits() == 0),
    {
        self.bits == 0
    }

    /// Whether every bit of `other` is in this set.
    pub fn contains(&self, other: Self) -> (yes: bool)
        ensures
            yes == (self.bits() & other.bits() == other.bits()),
    {
        self.bits & other.bits == other.bits
    }

    /// The set with the bits of both.
    pub fn union(self, other: Self) -> (flags: Self)
        ensures
            flags.bits() == self.bits() | other.bits(),
    {
        AllowedCipherSuiteFlags { bits: self.bits | other.bits }
    }

    /// Adds the bits of `other` to this set.
    pub fn insert(&mut self, other: Self)
        ensures
            final(self).bits() == old(self).bits() | other.bits(),
    {
        self.bits = self.bits | other.bits;
    }
}

impl Default for AllowedCipherSuiteFlags {
    fn default() -> (flags: Self)
        ensures
            flags.bits() == 0,
    {
        AllowedCipherSuiteFlags::empty()
    }
}

} // verus!
