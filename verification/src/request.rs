//! The native calls that take more than a handle: what the glue hands to each
//! of them, worked out from what the application gave. The reply of every one
//! of these calls is a native status, which `Status::ok_from_raw` classifies.

use crate::addr::{Addr, ADDRESS_FAMILY_UNSPEC};
use crate::buffer::{native_length, BufferRef};
use crate::config::{text_bytes, CredentialConfig, RawCredentialConfig};
use crate::cstring::NulString;
use crate::flags::SendFlags;
use crate::handle::{Configuration, Connection, Listener, Registration, Stream};
use crate::native::{Handle, NULL_CONTEXT};
use crate::settings::{Settings, QUIC_SETTINGS};
use vstd::prelude::*;

verus! {

/// The count that a native call is given for `len` buffers: the call counts
/// them in 32 bits.
fn native_count(len: usize) -> (count: u32)
    ensures
        count == native_length(len as nat),
{
    ((len as u64) % 0x1_0000_0000) as u32
}

/// The native open call of a configuration.
#[derive(Debug, Clone, Copy)]
pub struct ConfigurationOpenRequest<'a> {
    /// The handle of the registration.
    pub registration: Handle,
    /// The protocol names to negotiate.
    pub alpn: &'a [BufferRef<'a>],
    /// The number of protocol names.
    pub alpn_count: u32,
    /// The settings, or nothing for a null pointer and a size of zero.
    pub settings: Option<&'a QUIC_SETTINGS>,
    /// The context of the configuration, which has none.
    pub context: usize,
}

/// The native call that loads a credential into a configuration.
#[derive(Debug, Clone, Copy)]
pub struct LoadCredentialRequest<'a> {
    /// The handle of the configuration.
    pub configuration: Handle,
    /// The native credential configuration.
    pub config: RawCredentialConfig<'a>,
}

impl Configuration {
    /// Prepares the native open call of a configuration under
    /// `registration`, for the protocol names `alpn` and, where given, the
    /// settings `settings`.
    pub fn open_request<'a>(
        registration: &Registration,
        alpn: &'a [BufferRef<'a>],
        settings: Option<&'a Settings>,
    ) -> (request: ConfigurationOpenRequest<'a>)
        ensures
            request.registration == registration.raw(),
            request.alpn == alpn,
            request.alpn_count == native_length(alpn@.len()),
            match settings {
                Some(given) => request.settings is Some && *request.settings->Some_0 == given@,
                None => request.settings is None,
            },
            request.context == NULL_CONTEXT,
    {
        ConfigurationOpenRequest {
            registration: registration.as_raw(),
            alpn,
            alpn_count: native_count(alpn.len()),
            settings: match settings {
                Some(given) => Some(given.as_ffi_ref()),
                None => None,
            },
            context: NULL_CONTEXT,
        }
    }

    /// Prepares the native call that loads the credential of `cred_config`
    /// into this configuration.
    pub fn load_credential<'a>(
        &self,
        cred_config: &'a CredentialConfig,
    ) -> (request: LoadCredentialRequest<'a>)
        ensures
            request.configuration == self.raw(),
            request.config.flags == cred_config.credential_flags(),
            request.config.cred_type == cred_config.credential().type_of(),
            request.config.certificate.describes(&cred_config.credential()),
            crate::config::is_native_text(request.config.principal, cred_config.principal()),
            request.config.allowed_cipher_suites == cred_config.allowed_cipher_suites(),
            crate::config::is_native_text(
                request.config.ca_certificate_file,
                cred_config.ca_certificate_file(),
            ),
    {
        LoadCredentialRequest { configuration: self.as_raw(), config: cred_config.as_ffi() }
    }
}

/// The native call that starts a connection.
#[derive(Debug)]
pub struct ConnectionStartRequest {
    /// The handle of the connection.
    pub connection: Handle,
    /// The handle of the configuration.
    pub configuration: Handle,
    /// The address family to resolve the server's name in: any.
    pub family: u16,
    /// The server's name, in the form that the native library reads.
    pub server_name: NulString,
    /// The server's port.
    pub server_port: u16,
}

/// The native call that sends buffers, on a stream or as a datagram.
#[derive(Debug, Clone, Copy)]
pub struct SendRequest<'a> {
    /// The handle of the stream or of the connection.
    pub handle: Handle,
    /// The buffers, which must stay where they are until the native library
    /// reports that the send is complete.
    pub buffers: &'a [BufferRef<'a>],
    /// The number of buffers.
    pub buffer_count: u32,
    /// The bits of the send flags.
    pub flags: u32,
    /// A value of the application's, which the native library hands back
    /// when it reports on the send.
    pub client_send_context: usize,
}

impl Connection {
    /// Prepares the native call that starts this connection towards
    /// `server_name`, which must hold no zero byte, at `server_port`.
    pub fn start(
        &self,
        configuration: &Configuration,
        server_name: &str,
        server_port: u16,
    ) -> (request: ConnectionStartRequest)
        requires
            !text_bytes(server_name@).contains(0u8),
        ensures
            request.connection == self.raw(),
            request.configuration == configuration.raw(),
            request.family == ADDRESS_FAMILY_UNSPEC,
            request.server_name@ == text_bytes(server_name@),
            request.server_port == server_port,
    {
        let name = NulString::new(server_name);
        ConnectionStartRequest {
            connection: self.as_raw(),
            configuration: configuration.as_raw(),
            family: ADDRESS_FAMILY_UNSPEC,
            server_name: name.unwrap(),
            server_port,
        }
    }

    /// Prepares the native call that sends `buffers` as a datagram.
    pub fn datagram_send<'a>(
        &self,
        buffers: &'a [BufferRef<'a>],
        flags: SendFlags,
        client_send_context: usize,
    ) -> (request: SendRequest<'a>)
        ensures
            request.handle == self.raw(),
            request.buffers == buffers,
            request.buffer_count == native_length(buffers@.len()),
            request.flags == flags.bits(),
            request.client_send_context == client_send_context,
    {
        SendRequest {
            handle: self.as_raw(),
            buffers,
            buffer_count: native_count(buffers.len()),
            flags: flags.bits(),
            client_send_context,
        }
    }
}

/// The native call that starts a listener.
#[derive(Debug, Clone, Copy)]
pub struct ListenerStartRequest<'a> {
    /// The handle of the listener.
    pub listener: Handle,
    /// The protocol names to accept.
    pub alpn: &'a [BufferRef<'a>],
    /// The number of protocol names.
    pub alpn_count: u32,
    /// The address to listen on, or nothing for a null pointer.
    pub local_address: Option<Addr>,
}

impl Listener {
    /// Prepares the native call that starts this listener for the protocol
    /// names `alpn`, on `local_address` where one is given.
    pub fn start<'a>(
        &self,
        alpn: &'a [BufferRef<'a>],
        local_address: Option<&Addr>,
    ) -> (request: ListenerStartRequest<'a>)
        ensures
            request.listener == self.raw(),
            request.alpn == alpn,
            request.alpn_count == native_length(alpn@.len()),
            match local_address {
                Some(address) => request.local_address == Some(*address),
                None => request.local_address is None,
            },
    {
        ListenerStartRequest {
            listener: self.as_raw(),
            alpn,
            alpn_count: native_count(alpn.len()),
            local_address: match local_address {
                Some(address) => Some(*address),
                None => None,
            },
        }
    }
}

impl Stream {
    /// Prepares the native call that sends `buffers` on this stream.
    pub fn send<'a>(
        &self,
        buffers: &'a [BufferRef<'a>],
        flags: SendFlags,
        client_send_context: usize,
    ) -> (request: SendRequest<'a>)
        ensures
            request.handle == self.raw(),
            request.buffers == buffers,
            request.buffer_count == native_length(buffers@.len()),
            request.flags == flags.bits(),
            request.client_send_context == client_send_context,
    {
        SendRequest {
            handle: self.as_raw(),
            buffers,
            buffer_count: native_count(buffers.len()),
            flags: flags.bits(),
            client_send_context,
        }
    }
}

} // verus!
