//! The status model: the native library's integer status code, its
//! classification into success and failure, and the closed enumeration of
//! well-known codes. The codes are those of the library's POSIX builds, where a
//! status is an unsigned integer that reads, as a signed one, as failure when
//! it is above zero.

use crate::text::{lower_hex, push_lower_hex};
use vstd::prelude::*;
use vstd::string::StringExecFns;

verus! {

/// The native status integer.
#[allow(non_camel_case_types)]
pub type QUIC_STATUS = u32;

/// The well-known status codes.
#[allow(non_camel_case_types)]
#[derive(Debug, Clone, Copy, PartialEq, Eq, Structural)]
pub enum StatusCode {
    QUIC_STATUS_SUCCESS,
    QUIC_STATUS_PENDING,
    QUIC_STATUS_CONTINUE,
    QUIC_STATUS_OUT_OF_MEMORY,
    QUIC_STATUS_INVALID_PARAMETER,
    QUIC_STATUS_INVALID_STATE,
    QUIC_STATUS_NOT_SUPPORTED,
    QUIC_STATUS_NOT_FOUND,
    QUIC_STATUS_BUFFER_TOO_SMALL,
    QUIC_STATUS_HANDSHAKE_FAILURE,
    QUIC_STATUS_ABORTED,
    QUIC_STATUS_ADDRESS_IN_USE,
    QUIC_STATUS_INVALID_ADDRESS,
    QUIC_STATUS_CONNECTION_TIMEOUT,
    QUIC_STATUS_CONNECTION_IDLE,
    QUIC_STATUS_UNREACHABLE,
    QUIC_STATUS_INTERNAL_ERROR,
    QUIC_STATUS_CONNECTION_REFUSED,
    QUIC_STATUS_PROTOCOL_ERROR,
    QUIC_STATUS_VER_NEG_ERROR,
    QUIC_STATUS_TLS_ERROR,
    QUIC_STATUS_USER_CANCELED,
    QUIC_STATUS_ALPN_NEG_FAILURE,
    QUIC_STATUS_STREAM_LIMIT_REACHED,
    QUIC_STATUS_ALPN_IN_USE,
    QUIC_STATUS_CLOSE_NOTIFY,
    QUIC_STATUS_BAD_CERTIFICATE,
    QUIC_STATUS_UNSUPPORTED_CERTIFICATE,
    QUIC_STATUS_REVOKED_CERTIFICATE,
    QUIC_STATUS_EXPIRED_CERTIFICATE,
    QUIC_STATUS_UNKNOWN_CERTIFICATE,
    QUIC_STATUS_REQUIRED_CERTIFICATE,
    QUIC_STATUS_CERT_EXPIRED,
    QUIC_STATUS_CERT_UNTRUSTED_ROOT,
    QUIC_STATUS_CERT_NO_CERT,
}

impl StatusCode {
    /// The native integer of this code.
    pub open spec fn raw(self) -> u32 {
        match self {
            StatusCode::QUIC_STATUS_SUCCESS => 0u32,
            StatusCode::QUIC_STATUS_PENDING => 4294967294u32,
            StatusCode::QUIC_STATUS_CONTINUE => 4294967295u32,
            StatusCode::QUIC_STATUS_OUT_OF_MEMORY => 12u32,
            StatusCode::QUIC_STATUS_INVALID_PARAMETER => 22u32,
            StatusCode::QUIC_STATUS_INVALID_STATE => 1u32,
            StatusCode::QUIC_STATUS_NOT_SUPPORTED => 95u32,
            StatusCode::QUIC_STATUS_NOT_FOUND => 2u32,
            StatusCode::QUIC_STATUS_BUFFER_TOO_SMALL => 75u32,
            StatusCode::QUIC_STATUS_HANDSHAKE_FAILURE => 103u32,
            StatusCode::QUIC_STATUS_ABORTED => 125u32,
            StatusCode::QUIC_STATUS_ADDRESS_IN_USE => 98u32,
            StatusCode::QUIC_STATUS_INVALID_ADDRESS => 97u32,
            StatusCode::QUIC_STATUS_CONNECTION_TIMEOUT => 110u32,
            StatusCode::QUIC_STATUS_CONNECTION_IDLE => 62u32,
            StatusCode::QUIC_STATUS_UNREACHABLE => 113u32,
            StatusCode::QUIC_STATUS_INTERNAL_ERROR => 5u32,
            StatusCode::QUIC_STATUS_CONNECTION_REFUSED => 111u32,
            StatusCode::QUIC_STATUS_PROTOCOL_ERROR => 71u32,
            StatusCode::QUIC_STATUS_VER_NEG_ERROR => 93u32,
            StatusCode::QUIC_STATUS_TLS_ERROR => 126u32,
            StatusCode::QUIC_STATUS_USER_CANCELED => 130u32,
            StatusCode::QUIC_STATUS_ALPN_NEG_FAILURE => 92u32,
            StatusCode::QUIC_STATUS_STREAM_LIMIT_REACHED => 86u32,
            StatusCode::QUIC_STATUS_ALPN_IN_USE => 91u32,
            StatusCode::QUIC_STATUS_CLOSE_NOTIFY => 200000256u32,
            StatusCode::QUIC_STATUS_BAD_CERTIFICATE => 200000298u32,
            StatusCode::QUIC_STATUS_UNSUPPORTED_CERTIFICATE => 200000299u32,
            StatusCode::QUIC_STATUS_REVOKED_CERTIFICATE => 200000300u32,
            StatusCode::QUIC_STATUS_EXPIRED_CERTIFICATE => 200000301u32,
            StatusCode::QUIC_STATUS_UNKNOWN_CERTIFICATE => 200000302u32,
            StatusCode::QUIC_STATUS_REQUIRED_CERTIFICATE => 200000372u32,
            StatusCode::QUIC_STATUS_CERT_EXPIRED => 200000513u32,
            StatusCode::QUIC_STATUS_CERT_UNTRUSTED_ROOT => 200000514u32,
            StatusCode::QUIC_STATUS_CERT_NO_CERT => 200000515u32,
        }
    }

    /// The code's name, which is also its display text.
    pub open spec fn name(self) -> &'static str {
        match self {
            StatusCode::QUIC_STATUS_SUCCESS => "QUIC_STATUS_SUCCESS",
            StatusCode::QUIC_STATUS_PENDING => "QUIC_STATUS_PENDING",
            StatusCode::QUIC_STATUS_CONTINUE => "QUIC_STATUS_CONTINUE",
            StatusCode::QUIC_STATUS_OUT_OF_MEMORY => "QUIC_STATUS_OUT_OF_MEMORY",
            StatusCode::QUIC_STATUS_INVALID_PARAMETER => "QUIC_STATUS_INVALID_PARAMETER",
            StatusCode::QUIC_STATUS_INVALID_STATE => "QUIC_STATUS_INVALID_STATE",
            StatusCode::QUIC_STATUS_NOT_SUPPORTED => "QUIC_STATUS_NOT_SUPPORTED",
            StatusCode::QUIC_STATUS_NOT_FOUND => "QUIC_STATUS_NOT_FOUND",
            StatusCode::QUIC_STATUS_BUFFER_TOO_SMALL => "QUIC_STATUS_BUFFER_TOO_SMALL",
            StatusCode::QUIC_STATUS_HANDSHAKE_FAILURE => "QUIC_STATUS_HANDSHAKE_FAILURE",
            StatusCode::QUIC_STATUS_ABORTED => "QUIC_STATUS_ABORTED",
            StatusCode::QUIC_STATUS_ADDRESS_IN_USE => "QUIC_STATUS_ADDRESS_IN_USE",
            StatusCode::QUIC_STATUS_INVALID_ADDRESS => "QUIC_STATUS_INVALID_ADDRESS",
            StatusCode::QUIC_STATUS_CONNECTION_TIMEOUT => "QUIC_STATUS_CONNECTION_TIMEOUT",
            StatusCode::QUIC_STATUS_CONNECTION_IDLE => "QUIC_STATUS_CONNECTION_IDLE",
            StatusCode::QUIC_STATUS_UNREACHABLE => "QUIC_STATUS_UNREACHABLE",
            StatusCode::QUIC_STATUS_INTERNAL_ERROR => "QUIC_STATUS_INTERNAL_ERROR",
            StatusCode::QUIC_STATUS_CONNECTION_REFUSED => "QUIC_STATUS_CONNECTION_REFUSED",
            StatusCode::QUIC_STATUS_PROTOCOL_ERROR => "QUIC_STATUS_PROTOCOL_ERROR",
            StatusCode::QUIC_STATUS_VER_NEG_ERROR => "QUIC_STATUS_VER_NEG_ERROR",
            StatusCode::QUIC_STATUS_TLS_ERROR => "QUIC_STATUS_TLS_ERROR",
            StatusCode::QUIC_STATUS_USER_CANCELED => "QUIC_STATUS_USER_CANCELED",
            StatusCode::QUIC_STATUS_ALPN_NEG_FAILURE => "QUIC_STATUS_ALPN_NEG_FAILURE",
            StatusCode::QUIC_STATUS_STREAM_LIMIT_REACHED => "QUIC_STATUS_STREAM_LIMIT_REACHED",
            StatusCode::QUIC_STATUS_ALPN_IN_USE => "QUIC_STATUS_ALPN_IN_USE",
            StatusCode::QUIC_STATUS_CLOSE_NOTIFY => "QUIC_STATUS_CLOSE_NOTIFY",
            StatusCode::QUIC_STATUS_BAD_CERTIFICATE => "QUIC_STATUS_BAD_CERTIFICATE",
            StatusCode::QUIC_STATUS_UNSUPPORTED_CERTIFICATE => "QUIC_STATUS_UNSUPPORTED_CERTIFICATE",
            StatusCode::QUIC_STATUS_REVOKED_CERTIFICATE => "QUIC_STATUS_REVOKED_CERTIFICATE",
            StatusCode::QUIC_STATUS_EXPIRED_CERTIFICATE => "QUIC_STATUS_EXPIRED_CERTIFICATE",
            StatusCode::QUIC_STATUS_UNKNOWN_CERTIFICATE => "QUIC_STATUS_UNKNOWN_CERTIFICATE",
            StatusCode::QUIC_STATUS_REQUIRED_CERTIFICATE => "QUIC_STATUS_REQUIRED_CERTIFICATE",
            StatusCode::QUIC_STATUS_CERT_EXPIRED => "QUIC_STATUS_CERT_EXPIRED",
            StatusCode::QUIC_STATUS_CERT_UNTRUSTED_ROOT => "QUIC_STATUS_CERT_UNTRUSTED_ROOT",
            StatusCode::QUIC_STATUS_CERT_NO_CERT => "QUIC_STATUS_CERT_NO_CERT",
        }
    }

    /// Whether the native library documents this code as success or as still
    /// in progress, rather than as a failure.
    pub open spec fn is_success_class(self) -> bool {
        self == StatusCode::QUIC_STATUS_SUCCESS || self == StatusCode::QUIC_STATUS_PENDING
            || self == StatusCode::QUIC_STATUS_CONTINUE
    }

    /// The well-known code with the native integer `value`, if there is one.
    pub open spec fn lookup(value: u32) -> Option<StatusCode> {
        if exists|code: StatusCode| code.raw() == value {
            Some(choose|code: StatusCode| code.raw() == value)
        } else {
            None
        }
    }

    /// The native integer of this code.
    pub fn to_raw(self) -> (value: u32)
        ensures
            value == self.raw(),
    {
        match self {
            StatusCode::QUIC_STATUS_SUCCESS => 0u32,
            StatusCode::QUIC_STATUS_PENDING => 4294967294u32,
            StatusCode::QUIC_STATUS_CONTINUE => 4294967295u32,
            StatusCode::QUIC_STATUS_OUT_OF_MEMORY => 12u32,
            StatusCode::QUIC_STATUS_INVALID_PARAMETER => 22u32,
            StatusCode::QUIC_STATUS_INVALID_STATE => 1u32,
            StatusCode::QUIC_STATUS_NOT_SUPPORTED => 95u32,
            StatusCode::QUIC_STATUS_NOT_FOUND => 2u32,
            StatusCode::QUIC_STATUS_BUFFER_TOO_SMALL => 75u32,
            StatusCode::QUIC_STATUS_HANDSHAKE_FAILURE => 103u32,
            StatusCode::QUIC_STATUS_ABORTED => 125u32,
            StatusCode::QUIC_STATUS_ADDRESS_IN_USE => 98u32,
            StatusCode::QUIC_STATUS_INVALID_ADDRESS => 97u32,
            StatusCode::QUIC_STATUS_CONNECTION_TIMEOUT => 110u32,
            StatusCode::QUIC_STATUS_CONNECTION_IDLE => 62u32,
            StatusCode::QUIC_STATUS_UNREACHABLE => 113u32,
            StatusCode::QUIC_STATUS_INTERNAL_ERROR => 5u32,
            StatusCode::QUIC_STATUS_CONNECTION_REFUSED => 111u32,
            StatusCode::QUIC_STATUS_PROTOCOL_ERROR => 71u32,
            StatusCode::QUIC_STATUS_VER_NEG_ERROR => 93u32,
            StatusCode::QUIC_STATUS_TLS_ERROR => 126u32,
            StatusCode::QUIC_STATUS_USER_CANCELED => 130u32,
            StatusCode::QUIC_STATUS_ALPN_NEG_FAILURE => 92u32,
            StatusCode::QUIC_STATUS_STREAM_LIMIT_REACHED => 86u32,
            StatusCode::QUIC_STATUS_ALPN_IN_USE => 91u32,
            StatusCode::QUIC_STATUS_CLOSE_NOTIFY => 200000256u32,
            StatusCode::QUIC_STATUS_BAD_CERTIFICATE => 200000298u32,
            StatusCode::QUIC_STATUS_UNSUPPORTED_CERTIFICATE => 200000299u32,
            StatusCode::QUIC_STATUS_REVOKED_CERTIFICATE => 200000300u32,
            StatusCode::QUIC_STATUS_EXPIRED_CERTIFICATE => 200000301u32,
            StatusCode::QUIC_STATUS_UNKNOWN_CERTIFICATE => 200000302u32,
            StatusCode::QUIC_STATUS_REQUIRED_CERTIFICATE => 200000372u32,
            StatusCode::QUIC_STATUS_CERT_EXPIRED => 200000513u32,
            StatusCode::QUIC_STATUS_CERT_UNTRUSTED_ROOT => 200000514u32,
            StatusCode::QUIC_STATUS_CERT_NO_CERT => 200000515u32,
        }
    }

    /// Finds the well-known code with the native integer `value`.
    pub fn from_raw(value: u32) -> (found: Option<StatusCode>)
        ensures
            found == StatusCode::lookup(value),
            found matches Some(code) ==> code.raw() == value,
            found is None ==> forall|code: StatusCode| code.raw() != value,
    {
        let found = match value {
            0u32 => Some(StatusCode::QUIC_STATUS_SUCCESS),
            4294967294u32 => Some(StatusCode::QUIC_STATUS_PENDING),
            4294967295u32 => Some(StatusCode::QUIC_STATUS_CONTINUE),
            12u32 => Some(StatusCode::QUIC_STATUS_OUT_OF_MEMORY),
            22u32 => Some(StatusCode::QUIC_STATUS_INVALID_PARAMETER),
            1u32 => Some(StatusCode::QUIC_STATUS_INVALID_STATE),
            95u32 => Some(StatusCode::QUIC_STATUS_NOT_SUPPORTED),
            2u32 => Some(StatusCode::QUIC_STATUS_NOT_FOUND),
            75u32 => Some(StatusCode::QUIC_STATUS_BUFFER_TOO_SMALL),
            103u32 => Some(StatusCode::QUIC_STATUS_HANDSHAKE_FAILURE),
            125u32 => Some(StatusCode::QUIC_STATUS_ABORTED),
            98u32 => Some(StatusCode::QUIC_STATUS_ADDRESS_IN_USE),
            97u32 => Some(StatusCode::QUIC_STATUS_INVALID_ADDRESS),
            110u32 => Some(StatusCode::QUIC_STATUS_CONNECTION_TIMEOUT),
            62u32 => Some(StatusCode::QUIC_STATUS_CONNECTION_IDLE),
            113u32 => Some(StatusCode::QUIC_STATUS_UNREACHABLE),
            5u32 => Some(StatusCode::QUIC_STATUS_INTERNAL_ERROR),
            111u32 => Some(StatusCode::QUIC_STATUS_CONNECTION_REFUSED),
            71u32 => Some(StatusCode::QUIC_STATUS_PROTOCOL_ERROR),
            93u32 => Some(StatusCode::QUIC_STATUS_VER_NEG_ERROR),
            126u32 => Some(StatusCode::QUIC_STATUS_TLS_ERROR),
            130u32 => Some(StatusCode::QUIC_STATUS_USER_CANCELED),
            92u32 => Some(StatusCode::QUIC_STATUS_ALPN_NEG_FAILURE),
            86u32 => Some(StatusCode::QUIC_STATUS_STREAM_LIMIT_REACHED),
            91u32 => Some(StatusCode::QUIC_STATUS_ALPN_IN_USE),
            200000256u32 => Some(StatusCode::QUIC_STATUS_CLOSE_NOTIFY),
            200000298u32 => Some(StatusCode::QUIC_STATUS_BAD_CERTIFICATE),
            200000299u32 => Some(StatusCode::QUIC_STATUS_UNSUPPORTED_CERTIFICATE),
            200000300u32 => Some(StatusCode::QUIC_STATUS_REVOKED_CERTIFICATE),
            200000301u32 => Some(StatusCode::QUIC_STATUS_EXPIRED_CERTIFICATE),
            200000302u32 => Some(StatusCode::QUIC_STATUS_UNKNOWN_CERTIFICATE),
            200000372u32 => Some(StatusCode::QUIC_STATUS_REQUIRED_CERTIFICATE),
            200000513u32 => Some(StatusCode::QUIC_STATUS_CERT_EXPIRED),
            200000514u32 => Some(StatusCode::QUIC_STATUS_CERT_UNTRUSTED_ROOT),
            200000515u32 => Some(StatusCode::QUIC_STATUS_CERT_NO_CERT),
            _ => None,
        };
        proof {
            match found {
                Some(code) => {
                    assert(code.raw() == value);
                    lemma_raw_is_injective(code, choose|other: StatusCode| other.raw() == value);
                },
                None => {
                    assert forall|code: StatusCode| code.raw() != value by {
                        lemma_raw_is_known(code);
                    }
                },
            }
        }
        found
    }

    /// The code's name.
    pub fn to_string(&self) -> (text: String)
        ensures
            text@ == self.name()@,
    {
        let literal: &'static str = match self {
            StatusCode::QUIC_STATUS_SUCCESS => "QUIC_STATUS_SUCCESS",
            StatusCode::QUIC_STATUS_PENDING => "QUIC_STATUS_PENDING",
            StatusCode::QUIC_STATUS_CONTINUE => "QUIC_STATUS_CONTINUE",
            StatusCode::QUIC_STATUS_OUT_OF_MEMORY => "QUIC_STATUS_OUT_OF_MEMORY",
            StatusCode::QUIC_STATUS_INVALID_PARAMETER => "QUIC_STATUS_INVALID_PARAMETER",
            StatusCode::QUIC_STATUS_INVALID_STATE => "QUIC_STATUS_INVALID_STATE",
            StatusCode::QUIC_STATUS_NOT_SUPPORTED => "QUIC_STATUS_NOT_SUPPORTED",
            StatusCode::QUIC_STATUS_NOT_FOUND => "QUIC_STATUS_NOT_FOUND",
            StatusCode::QUIC_STATUS_BUFFER_TOO_SMALL => "QUIC_STATUS_BUFFER_TOO_SMALL",
            StatusCode::QUIC_STATUS_HANDSHAKE_FAILURE => "QUIC_STATUS_HANDSHAKE_FAILURE",
            StatusCode::QUIC_STATUS_ABORTED => "QUIC_STATUS_ABORTED",
            StatusCode::QUIC_STATUS_ADDRESS_IN_USE => "QUIC_STATUS_ADDRESS_IN_USE",
            StatusCode::QUIC_STATUS_INVALID_ADDRESS => "QUIC_STATUS_INVALID_ADDRESS",
            StatusCode::QUIC_STATUS_CONNECTION_TIMEOUT => "QUIC_STATUS_CONNECTION_TIMEOUT",
            StatusCode::QUIC_STATUS_CONNECTION_IDLE => "QUIC_STATUS_CONNECTION_IDLE",
            StatusCode::QUIC_STATUS_UNREACHABLE => "QUIC_STATUS_UNREACHABLE",
            StatusCode::QUIC_STATUS_INTERNAL_ERROR => "QUIC_STATUS_INTERNAL_ERROR",
            StatusCode::QUIC_STATUS_CONNECTION_REFUSED => "QUIC_STATUS_CONNECTION_REFUSED",
            StatusCode::QUIC_STATUS_PROTOCOL_ERROR => "QUIC_STATUS_PROTOCOL_ERROR",
            StatusCode::QUIC_STATUS_VER_NEG_ERROR => "QUIC_STATUS_VER_NEG_ERROR",
            StatusCode::QUIC_STATUS_TLS_ERROR => "QUIC_STATUS_TLS_ERROR",
            StatusCode::QUIC_STATUS_USER_CANCELED => "QUIC_STATUS_USER_CANCELED",
            StatusCode::QUIC_STATUS_ALPN_NEG_FAILURE => "QUIC_STATUS_ALPN_NEG_FAILURE",
            StatusCode::QUIC_STATUS_STREAM_LIMIT_REACHED => "QUIC_STATUS_STREAM_LIMIT_REACHED",
            StatusCode::QUIC_STATUS_ALPN_IN_USE => "QUIC_STATUS_ALPN_IN_USE",
            StatusCode::QUIC_STATUS_CLOSE_NOTIFY => "QUIC_STATUS_CLOSE_NOTIFY",
            StatusCode::QUIC_STATUS_BAD_CERTIFICATE => "QUIC_STATUS_BAD_CERTIFICATE",
            StatusCode::QUIC_STATUS_UNSUPPORTED_CERTIFICATE => "QUIC_STATUS_UNSUPPORTED_CERTIFICATE",
            StatusCode::QUIC_STATUS_REVOKED_CERTIFICATE => "QUIC_STATUS_REVOKED_CERTIFICATE",
            StatusCode::QUIC_STATUS_EXPIRED_CERTIFICATE => "QUIC_STATUS_EXPIRED_CERTIFICATE",
            StatusCode::QUIC_STATUS_UNKNOWN_CERTIFICATE => "QUIC_STATUS_UNKNOWN_CERTIFICATE",
            StatusCode::QUIC_STATUS_REQUIRED_CERTIFICATE => "QUIC_STATUS_REQUIRED_CERTIFICATE",
            StatusCode::QUIC_STATUS_CERT_EXPIRED => "QUIC_STATUS_CERT_EXPIRED",
            StatusCode::QUIC_STATUS_CERT_UNTRUSTED_ROOT => "QUIC_STATUS_CERT_UNTRUSTED_ROOT",
            StatusCode::QUIC_STATUS_CERT_NO_CERT => "QUIC_STATUS_CERT_NO_CERT",
        };
        String::from_str(literal)
    }
}

/// No two well-known codes share a native integer.
pub proof fn lemma_raw_is_injective(a: StatusCode, b: StatusCode)
    requires
        a.raw() == b.raw(),
    ensures
        a == b,
{
}

/// Every well-known code has one of the listed native integers.
proof fn lemma_raw_is_known(code: StatusCode)
    ensures
        code.raw() == 0u32
            || code.raw() == 4294967294u32
            || code.raw() == 4294967295u32
            || code.raw() == 12u32
            || code.raw() == 22u32
            || code.raw() == 1u32
            || code.raw() == 95u32
            || code.raw() == 2u32
            || code.raw() == 75u32
            || code.raw() == 103u32
            || code.raw() == 125u32
            || code.raw() == 98u32
            || code.raw() == 97u32
            || code.raw() == 110u32
            || code.raw() == 62u32
            || code.raw() == 113u32
            || code.raw() == 5u32
            || code.raw() == 111u32
            || code.raw() == 71u32
            || code.raw() == 93u32
            || code.raw() == 126u32
            || code.raw() == 130u32
            || code.raw() == 92u32
            || code.raw() == 86u32
            || code.raw() == 91u32
            || code.raw() == 200000256u32
            || code.raw() == 200000298u32
            || code.raw() == 200000299u32
            || code.raw() == 200000300u32
            || code.raw() == 200000301u32
            || code.raw() == 200000302u32
            || code.raw() == 200000372u32
            || code.raw() == 200000513u32
            || code.raw() == 200000514u32
            || code.raw() == 200000515u32,
{
}

/// A lookup of a code's own native integer finds that code again.
pub proof fn lemma_lookup_of_raw(code: StatusCode)
    ensures
        StatusCode::lookup(code.raw()) == Some(code),
{
    lemma_raw_is_injective(code, choose|other: StatusCode| other.raw() == code.raw());
}

/// Whether a native status integer means success or still in progress. Read as
/// a signed integer of the same width, the status is a failure exactly when it
/// is above zero.
pub open spec fn raw_is_ok(raw: u32) -> bool {
    raw == 0 || raw > 0x7fff_ffff
}

/// The classification is the sign test on the status read as a signed integer.
pub proof fn lemma_raw_is_ok_is_sign_test(raw: u32)
    ensures
        raw_is_ok(raw) <==> (raw as i32) <= 0,
{
    assert((raw == 0 || raw > 0x7fff_ffffu32) <==> (raw as i32) <= 0i32) by (bit_vector);
}

/// A status of the native library: the native integer, kept as it came.
#[derive(Debug, Clone, Copy, PartialEq, Eq, Structural)]
pub struct Status(pub QUIC_STATUS);

impl Status {
    /// Whether this status means success or still in progress.
    pub open spec fn succeeded(self) -> bool {
        raw_is_ok(self.0)
    }

    /// What a native call that returned this status comes to: nothing for
    /// success or pending, the status itself as the error for a failure.
    pub open spec fn outcome(self) -> Result<(), Status> {
        if self.succeeded() {
            Ok(())
        } else {
            Err(self)
        }
    }

    /// The display text: the code's name and the native integer in hexadecimal
    /// for a well-known code, the integer alone for any other.
    pub open spec fn display(self) -> Seq<char> {
        match StatusCode::lookup(self.0) {
            Some(code) => code.name()@ + " (0x"@ + lower_hex(self.0 as nat) + ")"@,
            None => "0x"@ + lower_hex(self.0 as nat),
        }
    }

    /// The debug text, in the shape of a structure with a code and a message.
    pub open spec fn debug_text(self) -> Seq<char> {
        "Error { code: 0x"@ + lower_hex(self.0 as nat) + ", message: "@ + (match StatusCode::lookup(
            self.0,
        ) {
            Some(code) => code.name()@,
            None => "\"unknown quic error\""@,
        }) + " }"@
    }

    /// The status of a well-known code.
    pub fn new(ec: StatusCode) -> (status: Self)
        ensures
            status.0 == ec.raw(),
    {
        Status(ec.to_raw())
    }

    /// The well-known code of this status, or a message where it has none. The
    /// native integer stays in the status either way.
    pub fn try_as_status_code(&self) -> (code: Result<StatusCode, &'static str>)
        ensures
            match StatusCode::lookup(self.0) {
                Some(known) => code == Ok::<StatusCode, &'static str>(known),
                None => code is Err && code->Err_0@ == "Unknown QUIC_STATUS"@,
            },
    {
        match StatusCode::from_raw(self.0) {
            Some(known) => Ok(known),
            None => Err("Unknown QUIC_STATUS"),
        }
    }

    /// Classifies a native status integer: nothing for success or pending, the
    /// status itself as the error for a failure.
    pub fn ok_from_raw(ec: QUIC_STATUS) -> (outcome: Result<(), Status>)
        ensures
            outcome == Status(ec).outcome(),
    {
        let e = Status(ec);
        if e.is_ok() {
            Ok(())
        } else {
            Err(e)
        }
    }

    /// Whether this status means success or still in progress.
    pub fn is_ok(&self) -> (ok: bool)
        ensures
            ok == self.succeeded(),
    {
        self.0 == 0 || self.0 > 0x7fff_ffff
    }

    /// The display text of this status.
    pub fn to_string(&self) -> (text: String)
        ensures
            text@ == self.display(),
    {
        let mut text = String::new();
        match StatusCode::from_raw(self.0) {
            Some(code) => {
                let name = code.to_string();
                text.append(name.as_str());
                text.append(" (0x");
                push_lower_hex(&mut text, self.0);
                text.append(")");
                assert(text@ =~= self.display());
            },
            None => {
                text.append("0x");
                push_lower_hex(&mut text, self.0);
                assert(text@ =~= self.display());
            },
        }
        text
    }

    /// The debug text of this status.
    pub fn to_debug_string(&self) -> (text: String)
        ensures
            text@ == self.debug_text(),
    {
        let mut text = String::new();
        text.append("Error { code: 0x");
        push_lower_hex(&mut text, self.0);
        text.append(", message: ");
        match StatusCode::from_raw(self.0) {
            Some(code) => {
                let name = code.to_string();
                text.append(name.as_str());
            },
            None => {
                text.append("\"unknown quic error\"");
            },
        }
        text.append(" }");
        assert(text@ =~= self.debug_text());
        text
    }
}

impl From<QUIC_STATUS> for Status {
    fn from(value: QUIC_STATUS) -> (status: Self) {
        Status(value)
    }
}

impl vstd::std_specs::convert::FromSpecImpl<QUIC_STATUS> for Status {
    open spec fn obeys_from_spec() -> bool {
        true
    }

    open spec fn from_spec(value: QUIC_STATUS) -> Self {
        Status(value)
    }
}

impl From<StatusCode> for Status {
    fn from(value: StatusCode) -> (status: Self) {
        Status::new(value)
    }
}

impl vstd::std_specs::convert::FromSpecImpl<StatusCode> for Status {
    open spec fn obeys_from_spec() -> bool {
        true
    }

    open spec fn from_spec(value: StatusCode) -> Self {
        Status(value.raw())
    }
}

impl From<StatusCode> for QUIC_STATUS {
    fn from(value: StatusCode) -> (raw: Self) {
        value.to_raw()
    }
}

impl vstd::std_specs::convert::FromSpecImpl<StatusCode> for QUIC_STATUS {
    open spec fn obeys_from_spec() -> bool {
        true
    }

    open spec fn from_spec(value: StatusCode) -> Self {
        value.raw()
    }
}

/// Every well-known code is classified as the native library documents it:
/// success, pending and continue are not failures, every other code is.
pub proof fn lemma_known_codes_classified(code: StatusCode)
    ensures
        Status(code.raw()).succeeded() == code.is_success_class(),
{
}

} // verus!
