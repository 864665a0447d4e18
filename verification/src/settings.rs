//! The settings of the native library: for each entry a value and a mark that
//! says whether the value was set. The native library takes its own default
//! for every entry that is not marked.

use vstd::prelude::*;

verus! {

/// The native integer of the server resumption level at which nothing can be
/// resumed.
pub const SERVER_NO_RESUME: u32 = 0;

/// The native integer of the server resumption level at which a connection
/// can be resumed.
pub const SERVER_RESUME_ONLY: u32 = 1;

/// The native integer of the server resumption level at which a connection
/// can be resumed and can carry early data.
pub const SERVER_RESUME_AND_ZERORTT: u32 = 2;

/// Type of resumption behavior on the server side.
#[derive(Debug, Clone, Copy, PartialEq, Eq, Structural)]
pub enum ServerResumptionLevel {
    NoResume,
    ResumeOnly,
    ResumeAndZerortt,
}

impl ServerResumptionLevel {
    /// The native integer of this level.
    pub open spec fn raw(self) -> u32 {
        match self {
            ServerResumptionLevel::NoResume => SERVER_NO_RESUME,
            ServerResumptionLevel::ResumeOnly => SERVER_RESUME_ONLY,
            ServerResumptionLevel::ResumeAndZerortt => SERVER_RESUME_AND_ZERORTT,
        }
    }

    /// The native integer of this level.
    pub fn to_raw(self) -> (value: u32)
        ensures
            value == self.raw(),
    {
        match self {
            ServerResumptionLevel::NoResume => SERVER_NO_RESUME,
            ServerResumptionLevel::ResumeOnly => SERVER_RESUME_ONLY,
            ServerResumptionLevel::ResumeAndZerortt => SERVER_RESUME_AND_ZERORTT,
        }
    }
}

impl From<ServerResumptionLevel> for u32 {
    fn from(value: ServerResumptionLevel) -> (raw: u32) {
        value.to_raw()
    }
}

impl vstd::std_specs::convert::FromSpecImpl<ServerResumptionLevel> for u32 {
    open spec fn obeys_from_spec() -> bool {
        true
    }

    open spec fn from_spec(value: ServerResumptionLevel) -> u32 {
        value.raw()
    }
}

/// For each entry of the settings, whether its value was set.
#[allow(non_snake_case)]
#[derive(Debug, Clone, Copy, PartialEq, Eq)]
pub struct SettingsIsSet {
    pub MaxBytesPerKey: bool,
    pub HandshakeIdleTimeoutMs: bool,
    pub IdleTimeoutMs: bool,
    pub MtuDiscoverySearchCompleteTimeoutUs: bool,
    pub TlsClientMaxSendBuffer: bool,
    pub TlsServerMaxSendBuffer: bool,
    pub StreamRecvWindowDefault: bool,
    pub StreamRecvBufferDefault: bool,
    pub ConnFlowControlWindow: bool,
    pub MaxWorkerQueueDelayUs: bool,
    pub MaxStatelessOperations: bool,
    pub InitialWindowPackets: bool,
    pub SendIdleTimeoutMs: bool,
    pub InitialRttMs: bool,
    pub MaxAckDelayMs: bool,
    pub DisconnectTimeoutMs: bool,
    pub KeepAliveIntervalMs: bool,
    pub CongestionControlAlgorithm: bool,
    pub PeerBidiStreamCount: bool,
    pub PeerUnidiStreamCount: bool,
    pub MaxBindingStatelessOperations: bool,
    pub StatelessOperationExpirationMs: bool,
    pub MinimumMtu: bool,
    pub MaximumMtu: bool,
    pub SendBufferingEnabled: bool,
    pub PacingEnabled: bool,
    pub MigrationEnabled: bool,
    pub DatagramReceiveEnabled: bool,
    pub ServerResumptionLevel: bool,
    pub MaxOperationsPerDrain: bool,
    pub MtuDiscoveryMissingProbeCount: bool,
    pub DestCidUpdateIdleTimeoutMs: bool,
    pub GreaseQuicBitEnabled: bool,
    pub EcnEnabled: bool,
    pub HyStartEnabled: bool,
    pub StreamRecvWindowBidiLocalDefault: bool,
    pub StreamRecvWindowBidiRemoteDefault: bool,
    pub StreamRecvWindowUnidiDefault: bool,
}

/// The native settings: the marks and the values. An entry that is switched
/// on or off holds one or zero.
#[allow(non_snake_case)]
#[allow(non_camel_case_types)]
#[derive(Debug, Clone, Copy, PartialEq, Eq)]
pub struct QUIC_SETTINGS {
    pub IsSet: SettingsIsSet,
    pub MaxBytesPerKey: u64,
    pub HandshakeIdleTimeoutMs: u64,
    pub IdleTimeoutMs: u64,
    pub MtuDiscoverySearchCompleteTimeoutUs: u64,
    pub TlsClientMaxSendBuffer: u32,
    pub TlsServerMaxSendBuffer: u32,
    pub StreamRecvWindowDefault: u32,
    pub StreamRecvBufferDefault: u32,
    pub ConnFlowControlWindow: u32,
    pub MaxWorkerQueueDelayUs: u32,
    pub MaxStatelessOperations: u32,
    pub InitialWindowPackets: u32,
    pub SendIdleTimeoutMs: u32,
    pub InitialRttMs: u32,
    pub MaxAckDelayMs: u32,
    pub DisconnectTimeoutMs: u32,
    pub KeepAliveIntervalMs: u32,
    pub CongestionControlAlgorithm: u16,
    pub PeerBidiStreamCount: u16,
    pub PeerUnidiStreamCount: u16,
    pub MaxBindingStatelessOperations: u16,
    pub StatelessOperationExpirationMs: u16,
    pub MinimumMtu: u16,
    pub MaximumMtu: u16,
    pub SendBufferingEnabled: u8,
    pub PacingEnabled: u8,
    pub MigrationEnabled: u8,
    pub DatagramReceiveEnabled: u8,
    pub ServerResumptionLevel: u8,
    pub MaxOperationsPerDrain: u8,
    pub MtuDiscoveryMissingProbeCount: u8,
    pub DestCidUpdateIdleTimeoutMs: u32,
    pub GreaseQuicBitEnabled: u8,
    pub EcnEnabled: u8,
    pub HyStartEnabled: u8,
    pub StreamRecvWindowBidiLocalDefault: u32,
    pub StreamRecvWindowBidiRemoteDefault: u32,
    pub StreamRecvWindowUnidiDefault: u32,
}

impl QUIC_SETTINGS {
    /// The settings with no entry marked and zero in every value.
    pub open spec fn zeroed() -> QUIC_SETTINGS {
        QUIC_SETTINGS {
            IsSet: SettingsIsSet {
                MaxBytesPerKey: false,
                HandshakeIdleTimeoutMs: false,
                IdleTimeoutMs: false,
                MtuDiscoverySearchCompleteTimeoutUs: false,
                TlsClientMaxSendBuffer: false,
                TlsServerMaxSendBuffer: false,
                StreamRecvWindowDefault: false,
                StreamRecvBufferDefault: false,
                ConnFlowControlWindow: false,
                MaxWorkerQueueDelayUs: false,
                MaxStatelessOperations: false,
                InitialWindowPackets: false,
                SendIdleTimeoutMs: false,
                InitialRttMs: false,
                MaxAckDelayMs: false,
                DisconnectTimeoutMs: false,
                KeepAliveIntervalMs: false,
                CongestionControlAlgorithm: false,
                PeerBidiStreamCount: false,
                PeerUnidiStreamCount: false,
                MaxBindingStatelessOperations: false,
                StatelessOperationExpirationMs: false,
                MinimumMtu: false,
                MaximumMtu: false,
                SendBufferingEnabled: false,
                PacingEnabled: false,
                MigrationEnabled: false,
                DatagramReceiveEnabled: false,
                ServerResumptionLevel: false,
                MaxOperationsPerDrain: false,
                MtuDiscoveryMissingProbeCount: false,
                DestCidUpdateIdleTimeoutMs: false,
                GreaseQuicBitEnabled: false,
                EcnEnabled: false,
                HyStartEnabled: false,
                StreamRecvWindowBidiLocalDefault: false,
                StreamRecvWindowBidiRemoteDefault: false,
                StreamRecvWindowUnidiDefault: false,
            },
            MaxBytesPerKey: 0,
            HandshakeIdleTimeoutMs: 0,
            IdleTimeoutMs: 0,
            MtuDiscoverySearchCompleteTimeoutUs: 0,
            TlsClientMaxSendBuffer: 0,
            TlsServerMaxSendBuffer: 0,
            StreamRecvWindowDefault: 0,
            StreamRecvBufferDefault: 0,
            ConnFlowControlWindow: 0,
            MaxWorkerQueueDelayUs: 0,
            MaxStatelessOperations: 0,
            InitialWindowPackets: 0,
            SendIdleTimeoutMs: 0,
            InitialRttMs: 0,
            MaxAckDelayMs: 0,
            DisconnectTimeoutMs: 0,
            KeepAliveIntervalMs: 0,
            CongestionControlAlgorithm: 0,
            PeerBidiStreamCount: 0,
            PeerUnidiStreamCount: 0,
            MaxBindingStatelessOperations: 0,
            StatelessOperationExpirationMs: 0,
            MinimumMtu: 0,
            MaximumMtu: 0,
            SendBufferingEnabled: 0,
            PacingEnabled: 0,
            MigrationEnabled: 0,
            DatagramReceiveEnabled: 0,
            ServerResumptionLevel: 0,
            MaxOperationsPerDrain: 0,
            MtuDiscoveryMissingProbeCount: 0,
            DestCidUpdateIdleTimeoutMs: 0,
            GreaseQuicBitEnabled: 0,
            EcnEnabled: 0,
            HyStartEnabled: 0,
            StreamRecvWindowBidiLocalDefault: 0,
            StreamRecvWindowBidiRemoteDefault: 0,
            StreamRecvWindowUnidiDefault: 0,
        }
    }
}

/// Settings of the native library, built entry by entry.
#[derive(Debug, Clone, Copy)]
pub struct Settings {
    inner: QUIC_SETTINGS,
}

impl View for Settings {
    type V = QUIC_SETTINGS;

    closed spec fn view(&self) -> QUIC_SETTINGS {
        self.inner
    }
}

impl Default for Settings {
    fn default() -> (settings: Self)
        ensures
            settings@ == QUIC_SETTINGS::zeroed(),
    {
        Settings {
            inner: QUIC_SETTINGS {
                IsSet: SettingsIsSet {
                MaxBytesPerKey: false,
                HandshakeIdleTimeoutMs: false,
                IdleTimeoutMs: false,
                MtuDiscoverySearchCompleteTimeoutUs: false,
                TlsClientMaxSendBuffer: false,
                TlsServerMaxSendBuffer: false,
                StreamRecvWindowDefault: false,
                StreamRecvBufferDefault: false,
                ConnFlowControlWindow: false,
                MaxWorkerQueueDelayUs: false,
                MaxStatelessOperations: false,
                InitialWindowPackets: false,
                SendIdleTimeoutMs: false,
                InitialRttMs: false,
                MaxAckDelayMs: false,
                DisconnectTimeoutMs: false,
                KeepAliveIntervalMs: false,
                CongestionControlAlgorithm: false,
                PeerBidiStreamCount: false,
                PeerUnidiStreamCount: false,
                MaxBindingStatelessOperations: false,
                StatelessOperationExpirationMs: false,
                MinimumMtu: false,
                MaximumMtu: false,
                SendBufferingEnabled: false,
                PacingEnabled: false,
                MigrationEnabled: false,
                DatagramReceiveEnabled: false,
                ServerResumptionLevel: false,
                MaxOperationsPerDrain: false,
                MtuDiscoveryMissingProbeCount: false,
                DestCidUpdateIdleTimeoutMs: false,
                GreaseQuicBitEnabled: false,
                EcnEnabled: false,
                HyStartEnabled: false,
                StreamRecvWindowBidiLocalDefault: false,
                StreamRecvWindowBidiRemoteDefault: false,
                StreamRecvWindowUnidiDefault: false,
                },
                MaxBytesPerKey: 0,
                HandshakeIdleTimeoutMs: 0,
                IdleTimeoutMs: 0,
                MtuDiscoverySearchCompleteTimeoutUs: 0,
                TlsClientMaxSendBuffer: 0,
                TlsServerMaxSendBuffer: 0,
                StreamRecvWindowDefault: 0,
                StreamRecvBufferDefault: 0,
                ConnFlowControlWindow: 0,
                MaxWorkerQueueDelayUs: 0,
                MaxStatelessOperations: 0,
                InitialWindowPackets: 0,
                SendIdleTimeoutMs: 0,
                InitialRttMs: 0,
                MaxAckDelayMs: 0,
                DisconnectTimeoutMs: 0,
                KeepAliveIntervalMs: 0,
                CongestionControlAlgorithm: 0,
                PeerBidiStreamCount: 0,
                PeerUnidiStreamCount: 0,
                MaxBindingStatelessOperations: 0,
                StatelessOperationExpirationMs: 0,
                MinimumMtu: 0,
                MaximumMtu: 0,
                SendBufferingEnabled: 0,
                PacingEnabled: 0,
                MigrationEnabled: 0,
                DatagramReceiveEnabled: 0,
                ServerResumptionLevel: 0,
                MaxOperationsPerDrain: 0,
                MtuDiscoveryMissingProbeCount: 0,
                DestCidUpdateIdleTimeoutMs: 0,
                GreaseQuicBitEnabled: 0,
                EcnEnabled: 0,
                HyStartEnabled: 0,
                StreamRecvWindowBidiLocalDefault: 0,
                StreamRecvWindowBidiRemoteDefault: 0,
                StreamRecvWindowUnidiDefault: 0,
            },
        }
    }
}

impl Settings {
    /// The settings with no entry set.
    pub fn new() -> (settings: Self)
        ensures
            settings@ == QUIC_SETTINGS::zeroed(),
    {
        Settings::default()
    }

    /// The native settings.
    pub fn as_ffi_ref(&self) -> (raw: &QUIC_SETTINGS)
        ensures
            *raw == self@,
    {
        &self.inner
    }
}

/// The setters, one for each entry, named as the native library names the
/// entry. Each marks its entry as set, stores the value, and leaves every
/// other entry as it was.
#[allow(non_snake_case)]
impl Settings {
    pub fn set_MaxBytesPerKey(self, value: u64) -> (settings: Self)
        ensures
            settings@ == (QUIC_SETTINGS {
                IsSet: SettingsIsSet { MaxBytesPerKey: true, ..self@.IsSet },
                MaxBytesPerKey: value,
                ..self@
            }),
    {
        Settings {
            inner: QUIC_SETTINGS {
                IsSet: SettingsIsSet { MaxBytesPerKey: true, ..self.inner.IsSet },
                MaxBytesPerKey: value,
                ..self.inner
            },
        }
    }

    pub fn set_HandshakeIdleTimeoutMs(self, value: u64) -> (settings: Self)
        ensures
            settings@ == (QUIC_SETTINGS {
                IsSet: SettingsIsSet { HandshakeIdleTimeoutMs: true, ..self@.IsSet },
                HandshakeIdleTimeoutMs: value,
                ..self@
            }),
    {
        Settings {
            inner: QUIC_SETTINGS {
                IsSet: SettingsIsSet { HandshakeIdleTimeoutMs: true, ..self.inner.IsSet },
                HandshakeIdleTimeoutMs: value,
                ..self.inner
            },
        }
    }

    pub fn set_IdleTimeoutMs(self, value: u64) -> (settings: Self)
        ensures
            settings@ == (QUIC_SETTINGS {
                IsSet: SettingsIsSet { IdleTimeoutMs: true, ..self@.IsSet },
                IdleTimeoutMs: value,
                ..self@
            }),
    {
        Settings {
            inner: QUIC_SETTINGS {
                IsSet: SettingsIsSet { IdleTimeoutMs: true, ..self.inner.IsSet },
                IdleTimeoutMs: value,
                ..self.inner
            },
        }
    }

    pub fn set_MtuDiscoverySearchCompleteTimeoutUs(self, value: u64) -> (settings: Self)
        ensures
            settings@ == (QUIC_SETTINGS {
                IsSet: SettingsIsSet { MtuDiscoverySearchCompleteTimeoutUs: true, ..self@.IsSet },
                MtuDiscoverySearchCompleteTimeoutUs: value,
                ..self@
            }),
    {
        Settings {
            inner: QUIC_SETTINGS {
                IsSet: SettingsIsSet { MtuDiscoverySearchCompleteTimeoutUs: true, ..self.inner.IsSet },
                MtuDiscoverySearchCompleteTimeoutUs: value,
                ..self.inner
            },
        }
    }

    pub fn set_TlsClientMaxSendBuffer(self, value: u32) -> (settings: Self)
        ensures
            settings@ == (QUIC_SETTINGS {
                IsSet: SettingsIsSet { TlsClientMaxSendBuffer: true, ..self@.IsSet },
                TlsClientMaxSendBuffer: value,
                ..self@
            }),
    {
        Settings {
            inner: QUIC_SETTINGS {
                IsSet: SettingsIsSet { TlsClientMaxSendBuffer: true, ..self.inner.IsSet },
                TlsClientMaxSendBuffer: value,
                ..self.inner
            },
        }
    }

    pub fn set_TlsServerMaxSendBuffer(self, value: u32) -> (settings: Self)
        ensures
            settings@ == (QUIC_SETTINGS {
                IsSet: SettingsIsSet { TlsServerMaxSendBuffer: true, ..self@.IsSet },
                TlsServerMaxSendBuffer: value,
                ..self@
            }),
    {
        Settings {
            inner: QUIC_SETTINGS {
                IsSet: SettingsIsSet { TlsServerMaxSendBuffer: true, ..self.inner.IsSet },
                TlsServerMaxSendBuffer: value,
                ..self.inner
            },
        }
    }

    pub fn set_StreamRecvWindowDefault(self, value: u32) -> (settings: Self)
        ensures
            settings@ == (QUIC_SETTINGS {
                IsSet: SettingsIsSet { StreamRecvWindowDefault: true, ..self@.IsSet },
                StreamRecvWindowDefault: value,
                ..self@
            }),
    {
        Settings {
            inner: QUIC_SETTINGS {
                IsSet: SettingsIsSet { StreamRecvWindowDefault: true, ..self.inner.IsSet },
                StreamRecvWindowDefault: value,
                ..self.inner
            },
        }
    }

    pub fn set_StreamRecvBufferDefault(self, value: u32) -> (settings: Self)
        ensures
            settings@ == (QUIC_SETTINGS {
                IsSet: SettingsIsSet { StreamRecvBufferDefault: true, ..self@.IsSet },
                StreamRecvBufferDefault: value,
                ..self@
            }),
    {
        Settings {
            inner: QUIC_SETTINGS {
                IsSet: SettingsIsSet { StreamRecvBufferDefault: true, ..self.inner.IsSet },
                StreamRecvBufferDefault: value,
                ..self.inner
            },
        }
    }

    pub fn set_ConnFlowControlWindow(self, value: u32) -> (settings: Self)
        ensures
            settings@ == (QUIC_SETTINGS {
                IsSet: SettingsIsSet { ConnFlowControlWindow: true, ..self@.IsSet },
                ConnFlowControlWindow: value,
                ..self@
            }),
    {
        Settings {
            inner: QUIC_SETTINGS {
                IsSet: SettingsIsSet { ConnFlowControlWindow: true, ..self.inner.IsSet },
                ConnFlowControlWindow: value,
                ..self.inner
            },
        }
    }

    pub fn set_MaxWorkerQueueDelayUs(self, value: u32) -> (settings: Self)
        ensures
            settings@ == (QUIC_SETTINGS {
                IsSet: SettingsIsSet { MaxWorkerQueueDelayUs: true, ..self@.IsSet },
                MaxWorkerQueueDelayUs: value,
                ..self@
            }),
    {
        Settings {
            inner: QUIC_SETTINGS {
                IsSet: SettingsIsSet { MaxWorkerQueueDelayUs: true, ..self.inner.IsSet },
                MaxWorkerQueueDelayUs: value,
                ..self.inner
            },
        }
    }

    pub fn set_MaxStatelessOperations(self, value: u32) -> (settings: Self)
        ensures
            settings@ == (QUIC_SETTINGS {
                IsSet: SettingsIsSet { MaxStatelessOperations: true, ..self@.IsSet },
                MaxStatelessOperations: value,
                ..self@
            }),
    {
        Settings {
            inner: QUIC_SETTINGS {
                IsSet: SettingsIsSet { MaxStatelessOperations: true, ..self.inner.IsSet },
                MaxStatelessOperations: value,
                ..self.inner
            },
        }
    }

    pub fn set_InitialWindowPackets(self, value: u32) -> (settings: Self)
        ensures
            settings@ == (QUIC_SETTINGS {
                IsSet: SettingsIsSet { InitialWindowPackets: true, ..self@.IsSet },
                InitialWindowPackets: value,
                ..self@
            }),
    {
        Settings {
            inner: QUIC_SETTINGS {
                IsSet: SettingsIsSet { InitialWindowPackets: true, ..self.inner.IsSet },
                InitialWindowPackets: value,
                ..self.inner
            },
        }
    }

    pub fn set_SendIdleTimeoutMs(self, value: u32) -> (settings: Self)
        ensures
            settings@ == (QUIC_SETTINGS {
                IsSet: SettingsIsSet { SendIdleTimeoutMs: true, ..self@.IsSet },
                SendIdleTimeoutMs: value,
                ..self@
            }),
    {
        Settings {
            inner: QUIC_SETTINGS {
                IsSet: SettingsIsSet { SendIdleTimeoutMs: true, ..self.inner.IsSet },
                SendIdleTimeoutMs: value,
                ..self.inner
            },
        }
    }

    pub fn set_InitialRttMs(self, value: u32) -> (settings: Self)
        ensures
            settings@ == (QUIC_SETTINGS {
                IsSet: SettingsIsSet { InitialRttMs: true, ..self@.IsSet },
                InitialRttMs: value,
                ..self@
            }),
    {
        Settings {
            inner: QUIC_SETTINGS {
                IsSet: SettingsIsSet { InitialRttMs: true, ..self.inner.IsSet },
                InitialRttMs: value,
                ..self.inner
            },
        }
    }

    pub fn set_MaxAckDelayMs(self, value: u32) -> (settings: Self)
        ensures
            settings@ == (QUIC_SETTINGS {
                IsSet: SettingsIsSet { MaxAckDelayMs: true, ..self@.IsSet },
                MaxAckDelayMs: value,
                ..self@
            }),
    {
        Settings {
            inner: QUIC_SETTINGS {
                IsSet: SettingsIsSet { MaxAckDelayMs: true, ..self.inner.IsSet },
                MaxAckDelayMs: value,
                ..self.inner
            },
        }
    }

    pub fn set_DisconnectTimeoutMs(self, value: u32) -> (settings: Self)
        ensures
            settings@ == (QUIC_SETTINGS {
                IsSet: SettingsIsSet { DisconnectTimeoutMs: true, ..self@.IsSet },
                DisconnectTimeoutMs: value,
                ..self@
            }),
    {
        Settings {
            inner: QUIC_SETTINGS {
                IsSet: SettingsIsSet { DisconnectTimeoutMs: true, ..self.inner.IsSet },
                DisconnectTimeoutMs: value,
                ..self.inner
            },
        }
    }

    pub fn set_KeepAliveIntervalMs(self, value: u32) -> (settings: Self)
        ensures
            settings@ == (QUIC_SETTINGS {
                IsSet: SettingsIsSet { KeepAliveIntervalMs: true, ..self@.IsSet },
                KeepAliveIntervalMs: value,
                ..self@
            }),
    {
        Settings {
            inner: QUIC_SETTINGS {
                IsSet: SettingsIsSet { KeepAliveIntervalMs: true, ..self.inner.IsSet },
                KeepAliveIntervalMs: value,
                ..self.inner
            },
        }
    }

    pub fn set_CongestionControlAlgorithm(self, value: u16) -> (settings: Self)
        ensures
            settings@ == (QUIC_SETTINGS {
                IsSet: SettingsIsSet { CongestionControlAlgorithm: true, ..self@.IsSet },
                CongestionControlAlgorithm: value,
                ..self@
            }),
    {
        Settings {
            inner: QUIC_SETTINGS {
                IsSet: SettingsIsSet { CongestionControlAlgorithm: true, ..self.inner.IsSet },
                CongestionControlAlgorithm: value,
                ..self.inner
            },
        }
    }

    pub fn set_PeerBidiStreamCount(self, value: u16) -> (settings: Self)
        ensures
            settings@ == (QUIC_SETTINGS {
                IsSet: SettingsIsSet { PeerBidiStreamCount: true, ..self@.IsSet },
                PeerBidiStreamCount: value,
                ..self@
            }),
    {
        Settings {
            inner: QUIC_SETTINGS {
                IsSet: SettingsIsSet { PeerBidiStreamCount: true, ..self.inner.IsSet },
                PeerBidiStreamCount: value,
                ..self.inner
            },
        }
    }

    pub fn set_PeerUnidiStreamCount(self, value: u16) -> (settings: Self)
        ensures
            settings@ == (QUIC_SETTINGS {
                IsSet: SettingsIsSet { PeerUnidiStreamCount: true, ..self@.IsSet },
                PeerUnidiStreamCount: value,
                ..self@
            }),
    {
        Settings {
            inner: QUIC_SETTINGS {
                IsSet: SettingsIsSet { PeerUnidiStreamCount: true, ..self.inner.IsSet },
                PeerUnidiStreamCount: value,
                ..self.inner
            },
        }
    }

    pub fn set_MaxBindingStatelessOperations(self, value: u16) -> (settings: Self)
        ensures
            settings@ == (QUIC_SETTINGS {
                IsSet: SettingsIsSet { MaxBindingStatelessOperations: true, ..self@.IsSet },
                MaxBindingStatelessOperations: value,
                ..self@
            }),
    {
        Settings {
            inner: QUIC_SETTINGS {
                IsSet: SettingsIsSet { MaxBindingStatelessOperations: true, ..self.inner.IsSet },
                MaxBindingStatelessOperations: value,
                ..self.inner
            },
        }
    }

    pub fn set_StatelessOperationExpirationMs(self, value: u16) -> (settings: Self)
        ensures
            settings@ == (QUIC_SETTINGS {
                IsSet: SettingsIsSet { StatelessOperationExpirationMs: true, ..self@.IsSet },
                StatelessOperationExpirationMs: value,
                ..self@
            }),
    {
        Settings {
            inner: QUIC_SETTINGS {
                IsSet: SettingsIsSet { StatelessOperationExpirationMs: true, ..self.inner.IsSet },
                StatelessOperationExpirationMs: value,
                ..self.inner
            },
        }
    }

    pub fn set_MinimumMtu(self, value: u16) -> (settings: Self)
        ensures
            settings@ == (QUIC_SETTINGS {
                IsSet: SettingsIsSet { MinimumMtu: true, ..self@.IsSet },
                MinimumMtu: value,
                ..self@
            }),
    {
        Settings {
            inner: QUIC_SETTINGS {
                IsSet: SettingsIsSet { MinimumMtu: true, ..self.inner.IsSet },
                MinimumMtu: value,
                ..self.inner
            },
        }
    }

    pub fn set_MaximumMtu(self, value: u16) -> (settings: Self)
        ensures
            settings@ == (QUIC_SETTINGS {
                IsSet: SettingsIsSet { MaximumMtu: true, ..self@.IsSet },
                MaximumMtu: value,
                ..self@
            }),
    {
        Settings {
            inner: QUIC_SETTINGS {
                IsSet: SettingsIsSet { MaximumMtu: true, ..self.inner.IsSet },
                MaximumMtu: value,
                ..self.inner
            },
        }
    }

    pub fn set_SendBufferingEnabled(self) -> (settings: Self)
        ensures
            settings@ == (QUIC_SETTINGS {
                IsSet: SettingsIsSet { SendBufferingEnabled: true, ..self@.IsSet },
                SendBufferingEnabled: 1,
                ..self@
            }),
    {
        Settings {
            inner: QUIC_SETTINGS {
                IsSet: SettingsIsSet { SendBufferingEnabled: true, ..self.inner.IsSet },
                SendBufferingEnabled: 1,
                ..self.inner
            },
        }
    }

    pub fn set_PacingEnabled(self) -> (settings: Self)
        ensures
            settings@ == (QUIC_SETTINGS {
                IsSet: SettingsIsSet { PacingEnabled: true, ..self@.IsSet },
                PacingEnabled: 1,
                ..self@
            }),
    {
        Settings {
            inner: QUIC_SETTINGS {
                IsSet: SettingsIsSet { PacingEnabled: true, ..self.inner.IsSet },
                PacingEnabled: 1,
                ..self.inner
            },
        }
    }

    pub fn set_MigrationEnabled(self) -> (settings: Self)
        ensures
            settings@ == (QUIC_SETTINGS {
                IsSet: SettingsIsSet { MigrationEnabled: true, ..self@.IsSet },
                MigrationEnabled: 1,
                ..self@
            }),
    {
        Settings {
            inner: QUIC_SETTINGS {
                IsSet: SettingsIsSet { MigrationEnabled: true, ..self.inner.IsSet },
                MigrationEnabled: 1,
                ..self.inner
            },
        }
    }

    pub fn set_DatagramReceiveEnabled(self) -> (settings: Self)
        ensures
            settings@ == (QUIC_SETTINGS {
                IsSet: SettingsIsSet { DatagramReceiveEnabled: true, ..self@.IsSet },
                DatagramReceiveEnabled: 1,
                ..self@
            }),
    {
        Settings {
            inner: QUIC_SETTINGS {
                IsSet: SettingsIsSet { DatagramReceiveEnabled: true, ..self.inner.IsSet },
                DatagramReceiveEnabled: 1,
                ..self.inner
            },
        }
    }

    pub fn set_ServerResumptionLevel(self, value: ServerResumptionLevel) -> (settings: Self)
        ensures
            settings@ == (QUIC_SETTINGS {
                IsSet: SettingsIsSet { ServerResumptionLevel: true, ..self@.IsSet },
                ServerResumptionLevel: value.raw() as u8,
                ..self@
            }),
    {
        Settings {
            inner: QUIC_SETTINGS {
                IsSet: SettingsIsSet { ServerResumptionLevel: true, ..self.inner.IsSet },
                ServerResumptionLevel: value.to_raw() as u8,
                ..self.inner
            },
        }
    }

    pub fn set_MaxOperationsPerDrain(self, value: u8) -> (settings: Self)
        ensures
            settings@ == (QUIC_SETTINGS {
                IsSet: SettingsIsSet { MaxOperationsPerDrain: true, ..self@.IsSet },
                MaxOperationsPerDrain: value,
                ..self@
            }),
    {
        Settings {
            inner: QUIC_SETTINGS {
                IsSet: SettingsIsSet { MaxOperationsPerDrain: true, ..self.inner.IsSet },
                MaxOperationsPerDrain: value,
                ..self.inner
            },
        }
    }

    pub fn set_MtuDiscoveryMissingProbeCount(self, value: u8) -> (settings: Self)
        ensures
            settings@ == (QUIC_SETTINGS {
                IsSet: SettingsIsSet { MtuDiscoveryMissingProbeCount: true, ..self@.IsSet },
                MtuDiscoveryMissingProbeCount: value,
                ..self@
            }),
    {
        Settings {
            inner: QUIC_SETTINGS {
                IsSet: SettingsIsSet { MtuDiscoveryMissingProbeCount: true, ..self.inner.IsSet },
                MtuDiscoveryMissingProbeCount: value,
                ..self.inner
            },
        }
    }

    pub fn set_DestCidUpdateIdleTimeoutMs(self, value: u32) -> (settings: Self)
        ensures
            settings@ == (QUIC_SETTINGS {
                IsSet: SettingsIsSet { DestCidUpdateIdleTimeoutMs: true, ..self@.IsSet },
                DestCidUpdateIdleTimeoutMs: value,
                ..self@
            }),
    {
        Settings {
            inner: QUIC_SETTINGS {
                IsSet: SettingsIsSet { DestCidUpdateIdleTimeoutMs: true, ..self.inner.IsSet },
                DestCidUpdateIdleTimeoutMs: value,
                ..self.inner
            },
        }
    }

    pub fn set_GreaseQuicBitEnabled(self) -> (settings: Self)
        ensures
            settings@ == (QUIC_SETTINGS {
                IsSet: SettingsIsSet { GreaseQuicBitEnabled: true, ..self@.IsSet },
                GreaseQuicBitEnabled: 1,
                ..self@
            }),
    {
        Settings {
            inner: QUIC_SETTINGS {
                IsSet: SettingsIsSet { GreaseQuicBitEnabled: true, ..self.inner.IsSet },
                GreaseQuicBitEnabled: 1,
                ..self.inner
            },
        }
    }

    pub fn set_EcnEnabled(self) -> (settings: Self)
        ensures
            settings@ == (QUIC_SETTINGS {
                IsSet: SettingsIsSet { EcnEnabled: true, ..self@.IsSet },
                EcnEnabled: 1,
                ..self@
            }),
    {
        Settings {
            inner: QUIC_SETTINGS {
                IsSet: SettingsIsSet { EcnEnabled: true, ..self.inner.IsSet },
                EcnEnabled: 1,
                ..self.inner
            },
        }
    }

    pub fn set_HyStartEnabled(self) -> (settings: Self)
        ensures
            settings@ == (QUIC_SETTINGS {
                IsSet: SettingsIsSet { HyStartEnabled: true, ..self@.IsSet },
                HyStartEnabled: 1,
                ..self@
            }),
    {
        Settings {
            inner: QUIC_SETTINGS {
                IsSet: SettingsIsSet { HyStartEnabled: true, ..self.inner.IsSet },
                HyStartEnabled: 1,
                ..self.inner
            },
        }
    }

    pub fn set_StreamRecvWindowBidiLocalDefault(self, value: u32) -> (settings: Self)
        ensures
            settings@ == (QUIC_SETTINGS {
                IsSet: SettingsIsSet { StreamRecvWindowBidiLocalDefault: true, ..self@.IsSet },
                StreamRecvWindowBidiLocalDefault: value,
                ..self@
            }),
    {
        Settings {
            inner: QUIC_SETTINGS {
                IsSet: SettingsIsSet { StreamRecvWindowBidiLocalDefault: true, ..self.inner.IsSet },
                StreamRecvWindowBidiLocalDefault: value,
                ..self.inner
            },
        }
    }

    pub fn set_StreamRecvWindowBidiRemoteDefault(self, value: u32) -> (settings: Self)
        ensures
            settings@ == (QUIC_SETTINGS {
                IsSet: SettingsIsSet { StreamRecvWindowBidiRemoteDefault: true, ..self@.IsSet },
                StreamRecvWindowBidiRemoteDefault: value,
                ..self@
            }),
    {
        Settings {
            inner: QUIC_SETTINGS {
                IsSet: SettingsIsSet { StreamRecvWindowBidiRemoteDefault: true, ..self.inner.IsSet },
                StreamRecvWindowBidiRemoteDefault: value,
                ..self.inner
            },
        }
    }

    pub fn set_StreamRecvWindowUnidiDefault(self, value: u32) -> (settings: Self)
        ensures
            settings@ == (QUIC_SETTINGS {
                IsSet: SettingsIsSet { StreamRecvWindowUnidiDefault: true, ..self@.IsSet },
                StreamRecvWindowUnidiDefault: value,
                ..self@
            }),
    {
        Settings {
            inner: QUIC_SETTINGS {
                IsSet: SettingsIsSet { StreamRecvWindowUnidiDefault: true, ..self.inner.IsSet },
                StreamRecvWindowUnidiDefault: value,
                ..self.inner
            },
        }
    }
}

} // verus!
