//! The status model in the signed convention: the native library's status as
//! a signed integer that is a failure exactly when it is negative, with the
//! well-known codes as the library's Windows builds number them.

use crate::status::{Status, StatusCode};
use crate::text::{push_signed_decimal, signed_decimal};
use vstd::prelude::*;
use vstd::string::StringExecFns;

verus! {

/// The native status integer in the signed convention.
#[allow(non_camel_case_types)]
pub type QUIC_ERROR = i32;

/// The well-known codes in the signed convention.
#[allow(non_camel_case_types)]
#[derive(Debug, Clone, Copy, PartialEq, Eq, Structural)]
pub enum ErrorCode {
    QUIC_ERROR_SUCCESS,
    QUIC_ERROR_PENDING,
    QUIC_ERROR_CONTINUE,
    QUIC_ERROR_OUT_OF_MEMORY,
    QUIC_ERROR_INVALID_PARAMETER,
    QUIC_ERROR_INVALID_STATE,
    QUIC_ERROR_NOT_SUPPORTED,
    QUIC_ERROR_NOT_FOUND,
    QUIC_ERROR_BUFFER_TOO_SMALL,
    QUIC_ERROR_HANDSHAKE_FAILURE,
    QUIC_ERROR_ABORTED,
    QUIC_ERROR_ADDRESS_IN_USE,
    QUIC_ERROR_INVALID_ADDRESS,
    QUIC_ERROR_CONNECTION_TIMEOUT,
    QUIC_ERROR_CONNECTION_IDLE,
    QUIC_ERROR_UNREACHABLE,
    QUIC_ERROR_INTERNAL_ERROR,
    QUIC_ERROR_CONNECTION_REFUSED,
    QUIC_ERROR_PROTOCOL_ERROR,
    QUIC_ERROR_VER_NEG_ERROR,
    QUIC_ERROR_TLS_ERROR,
    QUIC_ERROR_USER_CANCELED,
    QUIC_ERROR_ALPN_NEG_FAILURE,
    QUIC_ERROR_STREAM_LIMIT_REACHED,
    QUIC_ERROR_ALPN_IN_USE,
    QUIC_ERROR_CLOSE_NOTIFY,
    QUIC_ERROR_BAD_CERTIFICATE,
    QUIC_ERROR_UNSUPPORTED_CERTIFICATE,
    QUIC_ERROR_REVOKED_CERTIFICATE,
    QUIC_ERROR_EXPIRED_CERTIFICATE,
    QUIC_ERROR_UNKNOWN_CERTIFICATE,
    QUIC_ERROR_REQUIRED_CERTIFICATE,
    QUIC_ERROR_CERT_EXPIRED,
    QUIC_ERROR_CERT_UNTRUSTED_ROOT,
    QUIC_ERROR_CERT_NO_CERT,
}

impl ErrorCode {
    /// The native integer of this code.
    pub open spec fn raw(self) -> i32 {
        match self {
            ErrorCode::QUIC_ERROR_SUCCESS => 0i32,
            ErrorCode::QUIC_ERROR_PENDING => 459749i32,
            ErrorCode::QUIC_ERROR_CONTINUE => 459998i32,
            ErrorCode::QUIC_ERROR_OUT_OF_MEMORY => -2147024882i32,
            ErrorCode::QUIC_ERROR_INVALID_PARAMETER => -2147024809i32,
            ErrorCode::QUIC_ERROR_INVALID_STATE => -2147019873i32,
            ErrorCode::QUIC_ERROR_NOT_SUPPORTED => -2147467262i32,
            ErrorCode::QUIC_ERROR_NOT_FOUND => -2147023728i32,
            ErrorCode::QUIC_ERROR_BUFFER_TOO_SMALL => -2147024774i32,
            ErrorCode::QUIC_ERROR_HANDSHAKE_FAILURE => -2143223808i32,
            ErrorCode::QUIC_ERROR_ABORTED => -2147467260i32,
            ErrorCode::QUIC_ERROR_ADDRESS_IN_USE => -2147014848i32,
            ErrorCode::QUIC_ERROR_INVALID_ADDRESS => -2147014847i32,
            ErrorCode::QUIC_ERROR_CONNECTION_TIMEOUT => -2143223802i32,
            ErrorCode::QUIC_ERROR_CONNECTION_IDLE => -2143223803i32,
            ErrorCode::QUIC_ERROR_UNREACHABLE => -2147023664i32,
            ErrorCode::QUIC_ERROR_INTERNAL_ERROR => -2143223805i32,
            ErrorCode::QUIC_ERROR_CONNECTION_REFUSED => -2147023671i32,
            ErrorCode::QUIC_ERROR_PROTOCOL_ERROR => -2143223804i32,
            ErrorCode::QUIC_ERROR_VER_NEG_ERROR => -2143223807i32,
            ErrorCode::QUIC_ERROR_TLS_ERROR => -2147013864i32,
            ErrorCode::QUIC_ERROR_USER_CANCELED => -2143223806i32,
            ErrorCode::QUIC_ERROR_ALPN_NEG_FAILURE => -2143223801i32,
            ErrorCode::QUIC_ERROR_STREAM_LIMIT_REACHED => -2143223800i32,
            ErrorCode::QUIC_ERROR_ALPN_IN_USE => -2143223799i32,
            ErrorCode::QUIC_ERROR_CLOSE_NOTIFY => -2143223552i32,
            ErrorCode::QUIC_ERROR_BAD_CERTIFICATE => -2143223510i32,
            ErrorCode::QUIC_ERROR_UNSUPPORTED_CERTIFICATE => -2143223509i32,
            ErrorCode::QUIC_ERROR_REVOKED_CERTIFICATE => -2143223508i32,
            ErrorCode::QUIC_ERROR_EXPIRED_CERTIFICATE => -2143223507i32,
            ErrorCode::QUIC_ERROR_UNKNOWN_CERTIFICATE => -2143223506i32,
            ErrorCode::QUIC_ERROR_REQUIRED_CERTIFICATE => -2143223436i32,
            ErrorCode::QUIC_ERROR_CERT_EXPIRED => -2146762495i32,
            ErrorCode::QUIC_ERROR_CERT_UNTRUSTED_ROOT => -2146762487i32,
            ErrorCode::QUIC_ERROR_CERT_NO_CERT => -2146893042i32,
        }
    }

    /// The code's name, which is also its display text.
    pub open spec fn name(self) -> &'static str {
        match self {
            ErrorCode::QUIC_ERROR_SUCCESS => "QUIC_ERROR_SUCCESS",
            ErrorCode::QUIC_ERROR_PENDING => "QUIC_ERROR_PENDING",
            ErrorCode::QUIC_ERROR_CONTINUE => "QUIC_ERROR_CONTINUE",
            ErrorCode::QUIC_ERROR_OUT_OF_MEMORY => "QUIC_ERROR_OUT_OF_MEMORY",
            ErrorCode::QUIC_ERROR_INVALID_PARAMETER => "QUIC_ERROR_INVALID_PARAMETER",
            ErrorCode::QUIC_ERROR_INVALID_STATE => "QUIC_ERROR_INVALID_STATE",
            ErrorCode::QUIC_ERROR_NOT_SUPPORTED => "QUIC_ERROR_NOT_SUPPORTED",
            ErrorCode::QUIC_ERROR_NOT_FOUND => "QUIC_ERROR_NOT_FOUND",
            ErrorCode::QUIC_ERROR_BUFFER_TOO_SMALL => "QUIC_ERROR_BUFFER_TOO_SMALL",
            ErrorCode::QUIC_ERROR_HANDSHAKE_FAILURE => "QUIC_ERROR_HANDSHAKE_FAILURE",
            ErrorCode::QUIC_ERROR_ABORTED => "QUIC_ERROR_ABORTED",
            ErrorCode::QUIC_ERROR_ADDRESS_IN_USE => "QUIC_ERROR_ADDRESS_IN_USE",
            ErrorCode::QUIC_ERROR_INVALID_ADDRESS => "QUIC_ERROR_INVALID_ADDRESS",
            ErrorCode::QUIC_ERROR_CONNECTION_TIMEOUT => "QUIC_ERROR_CONNECTION_TIMEOUT",
            ErrorCode::QUIC_ERROR_CONNECTION_IDLE => "QUIC_ERROR_CONNECTION_IDLE",
            ErrorCode::QUIC_ERROR_UNREACHABLE => "QUIC_ERROR_UNREACHABLE",
            ErrorCode::QUIC_ERROR_INTERNAL_ERROR => "QUIC_ERROR_INTERNAL_ERROR",
            ErrorCode::QUIC_ERROR_CONNECTION_REFUSED => "QUIC_ERROR_CONNECTION_REFUSED",
            ErrorCode::QUIC_ERROR_PROTOCOL_ERROR => "QUIC_ERROR_PROTOCOL_ERROR",
            ErrorCode::QUIC_ERROR_VER_NEG_ERROR => "QUIC_ERROR_VER_NEG_ERROR",
            ErrorCode::QUIC_ERROR_TLS_ERROR => "QUIC_ERROR_TLS_ERROR",
            ErrorCode::QUIC_ERROR_USER_CANCELED => "QUIC_ERROR_USER_CANCELED",
            ErrorCode::QUIC_ERROR_ALPN_NEG_FAILURE => "QUIC_ERROR_ALPN_NEG_FAILURE",
            ErrorCode::QUIC_ERROR_STREAM_LIMIT_REACHED => "QUIC_ERROR_STREAM_LIMIT_REACHED",
            ErrorCode::QUIC_ERROR_ALPN_IN_USE => "QUIC_ERROR_ALPN_IN_USE",
            ErrorCode::QUIC_ERROR_CLOSE_NOTIFY => "QUIC_ERROR_CLOSE_NOTIFY",
            ErrorCode::QUIC_ERROR_BAD_CERTIFICATE => "QUIC_ERROR_BAD_CERTIFICATE",
            ErrorCode::QUIC_ERROR_UNSUPPORTED_CERTIFICATE => "QUIC_ERROR_UNSUPPORTED_CERTIFICATE",
            ErrorCode::QUIC_ERROR_REVOKED_CERTIFICATE => "QUIC_ERROR_REVOKED_CERTIFICATE",
            ErrorCode::QUIC_ERROR_EXPIRED_CERTIFICATE => "QUIC_ERROR_EXPIRED_CERTIFICATE",
            ErrorCode::QUIC_ERROR_UNKNOWN_CERTIFICATE => "QUIC_ERROR_UNKNOWN_CERTIFICATE",
            ErrorCode::QUIC_ERROR_REQUIRED_CERTIFICATE => "QUIC_ERROR_REQUIRED_CERTIFICATE",
            ErrorCode::QUIC_ERROR_CERT_EXPIRED => "QUIC_ERROR_CERT_EXPIRED",
            ErrorCode::QUIC_ERROR_CERT_UNTRUSTED_ROOT => "QUIC_ERROR_CERT_UNTRUSTED_ROOT",
            ErrorCode::QUIC_ERROR_CERT_NO_CERT => "QUIC_ERROR_CERT_NO_CERT",
        }
    }

    /// The same condition in the enumeration of the unsigned convention.
    pub open spec fn status_code(self) -> StatusCode {
        match self {
            ErrorCode::QUIC_ERROR_SUCCESS => StatusCode::QUIC_STATUS_SUCCESS,
            ErrorCode::QUIC_ERROR_PENDING => StatusCode::QUIC_STATUS_PENDING,
            ErrorCode::QUIC_ERROR_CONTINUE => StatusCode::QUIC_STATUS_CONTINUE,
            ErrorCode::QUIC_ERROR_OUT_OF_MEMORY => StatusCode::QUIC_STATUS_OUT_OF_MEMORY,
            ErrorCode::QUIC_ERROR_INVALID_PARAMETER => StatusCode::QUIC_STATUS_INVALID_PARAMETER,
            ErrorCode::QUIC_ERROR_INVALID_STATE => StatusCode::QUIC_STATUS_INVALID_STATE,
            ErrorCode::QUIC_ERROR_NOT_SUPPORTED => StatusCode::QUIC_STATUS_NOT_SUPPORTED,
            ErrorCode::QUIC_ERROR_NOT_FOUND => StatusCode::QUIC_STATUS_NOT_FOUND,
            ErrorCode::QUIC_ERROR_BUFFER_TOO_SMALL => StatusCode::QUIC_STATUS_BUFFER_TOO_SMALL,
            ErrorCode::QUIC_ERROR_HANDSHAKE_FAILURE => StatusCode::QUIC_STATUS_HANDSHAKE_FAILURE,
            ErrorCode::QUIC_ERROR_ABORTED => StatusCode::QUIC_STATUS_ABORTED,
            ErrorCode::QUIC_ERROR_ADDRESS_IN_USE => StatusCode::QUIC_STATUS_ADDRESS_IN_USE,
            ErrorCode::QUIC_ERROR_INVALID_ADDRESS => StatusCode::QUIC_STATUS_INVALID_ADDRESS,
            ErrorCode::QUIC_ERROR_CONNECTION_TIMEOUT => StatusCode::QUIC_STATUS_CONNECTION_TIMEOUT,
            ErrorCode::QUIC_ERROR_CONNECTION_IDLE => StatusCode::QUIC_STATUS_CONNECTION_IDLE,
            ErrorCode::QUIC_ERROR_UNREACHABLE => StatusCode::QUIC_STATUS_UNREACHABLE,
            ErrorCode::QUIC_ERROR_INTERNAL_ERROR => StatusCode::QUIC_STATUS_INTERNAL_ERROR,
            ErrorCode::QUIC_ERROR_CONNECTION_REFUSED => StatusCode::QUIC_STATUS_CONNECTION_REFUSED,
            ErrorCode::QUIC_ERROR_PROTOCOL_ERROR => StatusCode::QUIC_STATUS_PROTOCOL_ERROR,
            ErrorCode::QUIC_ERROR_VER_NEG_ERROR => StatusCode::QUIC_STATUS_VER_NEG_ERROR,
            ErrorCode::QUIC_ERROR_TLS_ERROR => StatusCode::QUIC_STATUS_TLS_ERROR,
            ErrorCode::QUIC_ERROR_USER_CANCELED => StatusCode::QUIC_STATUS_USER_CANCELED,
            ErrorCode::QUIC_ERROR_ALPN_NEG_FAILURE => StatusCode::QUIC_STATUS_ALPN_NEG_FAILURE,
            ErrorCode::QUIC_ERROR_STREAM_LIMIT_REACHED => StatusCode::QUIC_STATUS_STREAM_LIMIT_REACHED,
            ErrorCode::QUIC_ERROR_ALPN_IN_USE => StatusCode::QUIC_STATUS_ALPN_IN_USE,
            ErrorCode::QUIC_ERROR_CLOSE_NOTIFY => StatusCode::QUIC_STATUS_CLOSE_NOTIFY,
            ErrorCode::QUIC_ERROR_BAD_CERTIFICATE => StatusCode::QUIC_STATUS_BAD_CERTIFICATE,
            ErrorCode::QUIC_ERROR_UNSUPPORTED_CERTIFICATE => StatusCode::QUIC_STATUS_UNSUPPORTED_CERTIFICATE,
            ErrorCode::QUIC_ERROR_REVOKED_CERTIFICATE => StatusCode::QUIC_STATUS_REVOKED_CERTIFICATE,
            ErrorCode::QUIC_ERROR_EXPIRED_CERTIFICATE => StatusCode::QUIC_STATUS_EXPIRED_CERTIFICATE,
            ErrorCode::QUIC_ERROR_UNKNOWN_CERTIFICATE => StatusCode::QUIC_STATUS_UNKNOWN_CERTIFICATE,
            ErrorCode::QUIC_ERROR_REQUIRED_CERTIFICATE => StatusCode::QUIC_STATUS_REQUIRED_CERTIFICATE,
            ErrorCode::QUIC_ERROR_CERT_EXPIRED => StatusCode::QUIC_STATUS_CERT_EXPIRED,
            ErrorCode::QUIC_ERROR_CERT_UNTRUSTED_ROOT => StatusCode::QUIC_STATUS_CERT_UNTRUSTED_ROOT,
            ErrorCode::QUIC_ERROR_CERT_NO_CERT => StatusCode::QUIC_STATUS_CERT_NO_CERT,
        }
    }

    /// The well-known code with the native integer `value`, if there is one.
    pub open spec fn lookup(value: i32) -> Option<ErrorCode> {
        if exists|code: ErrorCode| code.raw() == value {
            Some(choose|code: ErrorCode| code.raw() == value)
        } else {
            None
        }
    }

    /// The native integer of this code.
    pub fn to_raw(self) -> (value: i32)
        ensures
            value == self.raw(),
    {
        match self {
            ErrorCode::QUIC_ERROR_SUCCESS => 0i32,
            ErrorCode::QUIC_ERROR_PENDING => 459749i32,
            ErrorCode::QUIC_ERROR_CONTINUE => 459998i32,
            ErrorCode::QUIC_ERROR_OUT_OF_MEMORY => -2147024882i32,
            ErrorCode::QUIC_ERROR_INVALID_PARAMETER => -2147024809i32,
            ErrorCode::QUIC_ERROR_INVALID_STATE => -2147019873i32,
            ErrorCode::QUIC_ERROR_NOT_SUPPORTED => -2147467262i32,
            ErrorCode::QUIC_ERROR_NOT_FOUND => -2147023728i32,
            ErrorCode::QUIC_ERROR_BUFFER_TOO_SMALL => -2147024774i32,
            ErrorCode::QUIC_ERROR_HANDSHAKE_FAILURE => -2143223808i32,
            ErrorCode::QUIC_ERROR_ABORTED => -2147467260i32,
            ErrorCode::QUIC_ERROR_ADDRESS_IN_USE => -2147014848i32,
            ErrorCode::QUIC_ERROR_INVALID_ADDRESS => -2147014847i32,
            ErrorCode::QUIC_ERROR_CONNECTION_TIMEOUT => -2143223802i32,
            ErrorCode::QUIC_ERROR_CONNECTION_IDLE => -2143223803i32,
            ErrorCode::QUIC_ERROR_UNREACHABLE => -2147023664i32,
            ErrorCode::QUIC_ERROR_INTERNAL_ERROR => -2143223805i32,
            ErrorCode::QUIC_ERROR_CONNECTION_REFUSED => -2147023671i32,
            ErrorCode::QUIC_ERROR_PROTOCOL_ERROR => -2143223804i32,
            ErrorCode::QUIC_ERROR_VER_NEG_ERROR => -2143223807i32,
            ErrorCode::QUIC_ERROR_TLS_ERROR => -2147013864i32,
            ErrorCode::QUIC_ERROR_USER_CANCELED => -2143223806i32,
            ErrorCode::QUIC_ERROR_ALPN_NEG_FAILURE => -2143223801i32,
            ErrorCode::QUIC_ERROR_STREAM_LIMIT_REACHED => -2143223800i32,
            ErrorCode::QUIC_ERROR_ALPN_IN_USE => -2143223799i32,
            ErrorCode::QUIC_ERROR_CLOSE_NOTIFY => -2143223552i32,
            ErrorCode::QUIC_ERROR_BAD_CERTIFICATE => -2143223510i32,
            ErrorCode::QUIC_ERROR_UNSUPPORTED_CERTIFICATE => -2143223509i32,
            ErrorCode::QUIC_ERROR_REVOKED_CERTIFICATE => -2143223508i32,
            ErrorCode::QUIC_ERROR_EXPIRED_CERTIFICATE => -2143223507i32,
            ErrorCode::QUIC_ERROR_UNKNOWN_CERTIFICATE => -2143223506i32,
            ErrorCode::QUIC_ERROR_REQUIRED_CERTIFICATE => -2143223436i32,
            ErrorCode::QUIC_ERROR_CERT_EXPIRED => -2146762495i32,
            ErrorCode::QUIC_ERROR_CERT_UNTRUSTED_ROOT => -2146762487i32,
            ErrorCode::QUIC_ERROR_CERT_NO_CERT => -2146893042i32,
        }
    }

    /// Finds the well-known code with the native integer `value`.
    pub fn from_raw(value: i32) -> (found: Option<ErrorCode>)
        ensures
            found == ErrorCode::lookup(value),
            found matches Some(code) ==> code.raw() == value,
            found is None ==> forall|code: ErrorCode| code.raw() != value,
    {
        let found = match value {
            0i32 => Some(ErrorCode::QUIC_ERROR_SUCCESS),
            459749i32 => Some(ErrorCode::QUIC_ERROR_PENDING),
            459998i32 => Some(ErrorCode::QUIC_ERROR_CONTINUE),
            -2147024882i32 => Some(ErrorCode::QUIC_ERROR_OUT_OF_MEMORY),
            -2147024809i32 => Some(ErrorCode::QUIC_ERROR_INVALID_PARAMETER),
            -2147019873i32 => Some(ErrorCode::QUIC_ERROR_INVALID_STATE),
            -2147467262i32 => Some(ErrorCode::QUIC_ERROR_NOT_SUPPORTED),
            -2147023728i32 => Some(ErrorCode::QUIC_ERROR_NOT_FOUND),
            -2147024774i32 => Some(ErrorCode::QUIC_ERROR_BUFFER_TOO_SMALL),
            -2143223808i32 => Some(ErrorCode::QUIC_ERROR_HANDSHAKE_FAILURE),
            -2147467260i32 => Some(ErrorCode::QUIC_ERROR_ABORTED),
            -2147014848i32 => Some(ErrorCode::QUIC_ERROR_ADDRESS_IN_USE),
            -2147014847i32 => Some(ErrorCode::QUIC_ERROR_INVALID_ADDRESS),
            -2143223802i32 => Some(ErrorCode::QUIC_ERROR_CONNECTION_TIMEOUT),
            -2143223803i32 => Some(ErrorCode::QUIC_ERROR_CONNECTION_IDLE),
            -2147023664i32 => Some(ErrorCode::QUIC_ERROR_UNREACHABLE),
            -2143223805i32 => Some(ErrorCode::QUIC_ERROR_INTERNAL_ERROR),
            -2147023671i32 => Some(ErrorCode::QUIC_ERROR_CONNECTION_REFUSED),
            -2143223804i32 => Some(ErrorCode::QUIC_ERROR_PROTOCOL_ERROR),
            -2143223807i32 => Some(ErrorCode::QUIC_ERROR_VER_NEG_ERROR),
            -2147013864i32 => Some(ErrorCode::QUIC_ERROR_TLS_ERROR),
            -2143223806i32 => Some(ErrorCode::QUIC_ERROR_USER_CANCELED),
            -2143223801i32 => Some(ErrorCode::QUIC_ERROR_ALPN_NEG_FAILURE),
            -2143223800i32 => Some(ErrorCode::QUIC_ERROR_STREAM_LIMIT_REACHED),
            -2143223799i32 => Some(ErrorCode::QUIC_ERROR_ALPN_IN_USE),
            -2143223552i32 => Some(ErrorCode::QUIC_ERROR_CLOSE_NOTIFY),
            -2143223510i32 => Some(ErrorCode::QUIC_ERROR_BAD_CERTIFICATE),
            -2143223509i32 => Some(ErrorCode::QUIC_ERROR_UNSUPPORTED_CERTIFICATE),
            -2143223508i32 => Some(ErrorCode::QUIC_ERROR_REVOKED_CERTIFICATE),
            -2143223507i32 => Some(ErrorCode::QUIC_ERROR_EXPIRED_CERTIFICATE),
            -2143223506i32 => Some(ErrorCode::QUIC_ERROR_UNKNOWN_CERTIFICATE),
            -2143223436i32 => Some(ErrorCode::QUIC_ERROR_REQUIRED_CERTIFICATE),
            -2146762495i32 => Some(ErrorCode::QUIC_ERROR_CERT_EXPIRED),
            -2146762487i32 => Some(ErrorCode::QUIC_ERROR_CERT_UNTRUSTED_ROOT),
            -2146893042i32 => Some(ErrorCode::QUIC_ERROR_CERT_NO_CERT),
            _ => None,
        };
        proof {
            match found {
                Some(code) => {
                    assert(code.raw() == value);
                    lemma_error_raw_is_injective(
                        code,
                        choose|other: ErrorCode| other.raw() == value,
                    );
                },
                None => {
                    assert forall|code: ErrorCode| code.raw() != value by {
                        lemma_error_raw_is_known(code);
                    }
                },
            }
        }
        found
    }

    /// The code's name.
    pub fn to_string(&self) -> (text: String)
        ensures
            text@ == self.name()@,
    {
        let literal: &'static str = match self {
            ErrorCode::QUIC_ERROR_SUCCESS => "QUIC_ERROR_SUCCESS",
            ErrorCode::QUIC_ERROR_PENDING => "QUIC_ERROR_PENDING",
            ErrorCode::QUIC_ERROR_CONTINUE => "QUIC_ERROR_CONTINUE",
            ErrorCode::QUIC_ERROR_OUT_OF_MEMORY => "QUIC_ERROR_OUT_OF_MEMORY",
            ErrorCode::QUIC_ERROR_INVALID_PARAMETER => "QUIC_ERROR_INVALID_PARAMETER",
            ErrorCode::QUIC_ERROR_INVALID_STATE => "QUIC_ERROR_INVALID_STATE",
            ErrorCode::QUIC_ERROR_NOT_SUPPORTED => "QUIC_ERROR_NOT_SUPPORTED",
            ErrorCode::QUIC_ERROR_NOT_FOUND => "QUIC_ERROR_NOT_FOUND",
            ErrorCode::QUIC_ERROR_BUFFER_TOO_SMALL => "QUIC_ERROR_BUFFER_TOO_SMALL",
            ErrorCode::QUIC_ERROR_HANDSHAKE_FAILURE => "QUIC_ERROR_HANDSHAKE_FAILURE",
            ErrorCode::QUIC_ERROR_ABORTED => "QUIC_ERROR_ABORTED",
            ErrorCode::QUIC_ERROR_ADDRESS_IN_USE => "QUIC_ERROR_ADDRESS_IN_USE",
            ErrorCode::QUIC_ERROR_INVALID_ADDRESS => "QUIC_ERROR_INVALID_ADDRESS",
            ErrorCode::QUIC_ERROR_CONNECTION_TIMEOUT => "QUIC_ERROR_CONNECTION_TIMEOUT",
            ErrorCode::QUIC_ERROR_CONNECTION_IDLE => "QUIC_ERROR_CONNECTION_IDLE",
            ErrorCode::QUIC_ERROR_UNREACHABLE => "QUIC_ERROR_UNREACHABLE",
            ErrorCode::QUIC_ERROR_INTERNAL_ERROR => "QUIC_ERROR_INTERNAL_ERROR",
            ErrorCode::QUIC_ERROR_CONNECTION_REFUSED => "QUIC_ERROR_CONNECTION_REFUSED",
            ErrorCode::QUIC_ERROR_PROTOCOL_ERROR => "QUIC_ERROR_PROTOCOL_ERROR",
            ErrorCode::QUIC_ERROR_VER_NEG_ERROR => "QUIC_ERROR_VER_NEG_ERROR",
            ErrorCode::QUIC_ERROR_TLS_ERROR => "QUIC_ERROR_TLS_ERROR",
            ErrorCode::QUIC_ERROR_USER_CANCELED => "QUIC_ERROR_USER_CANCELED",
            ErrorCode::QUIC_ERROR_ALPN_NEG_FAILURE => "QUIC_ERROR_ALPN_NEG_FAILURE",
            ErrorCode::QUIC_ERROR_STREAM_LIMIT_REACHED => "QUIC_ERROR_STREAM_LIMIT_REACHED",
            ErrorCode::QUIC_ERROR_ALPN_IN_USE => "QUIC_ERROR_ALPN_IN_USE",
            ErrorCode::QUIC_ERROR_CLOSE_NOTIFY => "QUIC_ERROR_CLOSE_NOTIFY",
            ErrorCode::QUIC_ERROR_BAD_CERTIFICATE => "QUIC_ERROR_BAD_CERTIFICATE",
            ErrorCode::QUIC_ERROR_UNSUPPORTED_CERTIFICATE => "QUIC_ERROR_UNSUPPORTED_CERTIFICATE",
            ErrorCode::QUIC_ERROR_REVOKED_CERTIFICATE => "QUIC_ERROR_REVOKED_CERTIFICATE",
            ErrorCode::QUIC_ERROR_EXPIRED_CERTIFICATE => "QUIC_ERROR_EXPIRED_CERTIFICATE",
            ErrorCode::QUIC_ERROR_UNKNOWN_CERTIFICATE => "QUIC_ERROR_UNKNOWN_CERTIFICATE",
            ErrorCode::QUIC_ERROR_REQUIRED_CERTIFICATE => "QUIC_ERROR_REQUIRED_CERTIFICATE",
            ErrorCode::QUIC_ERROR_CERT_EXPIRED => "QUIC_ERROR_CERT_EXPIRED",
            ErrorCode::QUIC_ERROR_CERT_UNTRUSTED_ROOT => "QUIC_ERROR_CERT_UNTRUSTED_ROOT",
            ErrorCode::QUIC_ERROR_CERT_NO_CERT => "QUIC_ERROR_CERT_NO_CERT",
        };
        String::from_str(literal)
    }
}

/// No two well-known codes share a native integer.
pub proof fn lemma_error_raw_is_injective(a: ErrorCode, b: ErrorCode)
    requires
        a.raw() == b.raw(),
    ensures
        a == b,
{
}

/// Every well-known code has one of the listed native integers.
proof fn lemma_error_raw_is_known(code: ErrorCode)
    ensures
        code.raw() == 0i32
            || code.raw() == 459749i32
            || code.raw() == 459998i32
            || code.raw() == -2147024882i32
            || code.raw() == -2147024809i32
            || code.raw() == -2147019873i32
            || code.raw() == -2147467262i32
            || code.raw() == -2147023728i32
            || code.raw() == -2147024774i32
            || code.raw() == -2143223808i32
            || code.raw() == -2147467260i32
            || code.raw() == -2147014848i32
            || code.raw() == -2147014847i32
            || code.raw() == -2143223802i32
            || code.raw() == -2143223803i32
            || code.raw() == -2147023664i32
            || code.raw() == -2143223805i32
            || code.raw() == -2147023671i32
            || code.raw() == -2143223804i32
            || code.raw() == -2143223807i32
            || code.raw() == -2147013864i32
            || code.raw() == -2143223806i32
            || code.raw() == -2143223801i32
            || code.raw() == -2143223800i32
            || code.raw() == -2143223799i32
            || code.raw() == -2143223552i32
            || code.raw() == -2143223510i32
            || code.raw() == -2143223509i32
            || code.raw() == -2143223508i32
            || code.raw() == -2143223507i32
            || code.raw() == -2143223506i32
            || code.raw() == -2143223436i32
            || code.raw() == -2146762495i32
            || code.raw() == -2146762487i32
            || code.raw() == -2146893042i32,
{
}

/// A lookup of a code's own native integer finds that code again.
pub proof fn lemma_error_lookup_of_raw(code: ErrorCode)
    ensures
        ErrorCode::lookup(code.raw()) == Some(code),
{
    lemma_error_raw_is_injective(code, choose|other: ErrorCode| other.raw() == code.raw());
}

/// The signed integer with the same 32 bits as `value`.
pub open spec fn reinterpret_signed(value: u32) -> i32 {
    if value <= 0x7fff_ffff {
        value as i32
    } else {
        (value - 0x1_0000_0000) as i32
    }
}

/// An error of the native library: the native integer in the signed
/// convention, kept as it came.
#[derive(Debug, Clone, Copy, PartialEq, Eq, Structural)]
pub struct Error(pub QUIC_ERROR);

impl Error {
    /// Whether this value means success or still in progress: it is not
    /// negative.
    pub open spec fn succeeded(self) -> bool {
        self.0 >= 0
    }

    /// The display text: the code's name and the native integer in decimal for
    /// a well-known code, the integer alone for any other.
    pub open spec fn display(self) -> Seq<char> {
        match ErrorCode::lookup(self.0) {
            Some(code) => code.name()@ + " ("@ + signed_decimal(self.0 as int) + ")"@,
            None => signed_decimal(self.0 as int),
        }
    }

    /// The debug text, in the shape of a structure with a code and a message.
    pub open spec fn debug_text(self) -> Seq<char> {
        "Error { code: "@ + signed_decimal(self.0 as int) + ", message: "@ + (match ErrorCode::lookup(
            self.0,
        ) {
            Some(code) => code.name()@,
            None => "\"unknown quic error\""@,
        }) + " }"@
    }

    /// The error of a well-known code.
    pub fn new(ec: ErrorCode) -> (error: Self)
        ensures
            error.0 == ec.raw(),
    {
        Error(ec.to_raw())
    }

    /// The well-known code of this error, or a message where it has none.
    pub fn try_as_error_code(&self) -> (code: Result<ErrorCode, &'static str>)
        ensures
            match ErrorCode::lookup(self.0) {
                Some(known) => code == Ok::<ErrorCode, &'static str>(known),
                None => code is Err && code->Err_0@ == "Unknown QUIC_ERROR"@,
            },
    {
        match ErrorCode::from_raw(self.0) {
            Some(known) => Ok(known),
            None => Err("Unknown QUIC_ERROR"),
        }
    }

    /// The error with the native integer `ec`.
    pub fn from_raw(ec: QUIC_ERROR) -> (error: Self)
        ensures
            error.0 == ec,
    {
        Error(ec)
    }

    /// The error whose native integer has the 32 bits of `ec`.
    pub fn from_u32(ec: u32) -> (error: Self)
        ensures
            error.0 == reinterpret_signed(ec),
    {
        if ec <= 0x7fff_ffff {
            Error(ec as i32)
        } else {
            Error((ec as i64 - 0x1_0000_0000) as i32)
        }
    }

    /// Nothing for success or pending, the error itself for a failure.
    pub fn ok(self) -> (outcome: Result<(), Self>)
        ensures
            outcome == (if self.succeeded() {
                Ok::<(), Error>(())
            } else {
                Err::<(), Error>(self)
            }),
    {
        if self.0 < 0 {
            Err(self)
        } else {
            Ok(())
        }
    }

    /// The display text of this error.
    pub fn to_string(&self) -> (text: String)
        ensures
            text@ == self.display(),
    {
        let mut text = String::new();
        match ErrorCode::from_raw(self.0) {
            Some(code) => {
                let name = code.to_string();
                text.append(name.as_str());
                text.append(" (");
                push_signed_decimal(&mut text, self.0);
                text.append(")");
                assert(text@ =~= self.display());
            },
            None => {
                push_signed_decimal(&mut text, self.0);
                assert(text@ =~= self.display());
            },
        }
        text
    }

    /// The debug text of this error.
    pub fn to_debug_string(&self) -> (text: String)
        ensures
            text@ == self.debug_text(),
    {
        let mut text = String::new();
        text.append("Error { code: ");
        push_signed_decimal(&mut text, self.0);
        text.append(", message: ");
        match ErrorCode::from_raw(self.0) {
            Some(code) => {
                let name = code.to_string();
                text.append(name.as_str());
            },
            None => {
                text.append("\"unknown quic error\"");
            },
        }
        text.append(" }");
        assert(text@ =~= self.debug_text());
        text
    }
}

impl From<QUIC_ERROR> for Error {
    fn from(value: QUIC_ERROR) -> (error: Self) {
        Error(value)
    }
}

impl vstd::std_specs::convert::FromSpecImpl<QUIC_ERROR> for Error {
    open spec fn obeys_from_spec() -> bool {
        true
    }

    open spec fn from_spec(value: QUIC_ERROR) -> Self {
        Error(value)
    }
}

impl From<ErrorCode> for Error {
    fn from(value: ErrorCode) -> (error: Self) {
        Error::new(value)
    }
}

impl vstd::std_specs::convert::FromSpecImpl<ErrorCode> for Error {
    open spec fn obeys_from_spec() -> bool {
        true
    }

    open spec fn from_spec(value: ErrorCode) -> Self {
        Error(value.raw())
    }
}

impl From<ErrorCode> for QUIC_ERROR {
    fn from(value: ErrorCode) -> (raw: Self) {
        value.to_raw()
    }
}

impl vstd::std_specs::convert::FromSpecImpl<ErrorCode> for QUIC_ERROR {
    open spec fn obeys_from_spec() -> bool {
        true
    }

    open spec fn from_spec(value: ErrorCode) -> Self {
        value.raw()
    }
}

/// Every well-known code is classified as the native library documents it, in
/// the signed convention and in the unsigned one alike: success, pending and
/// continue are not failures, every other code is a failure in both.
pub proof fn lemma_conventions_agree(code: ErrorCode)
    ensures
        Error(code.raw()).succeeded() == code.status_code().is_success_class(),
        Status(code.status_code().raw()).succeeded() == code.status_code().is_success_class(),
        Error(code.raw()).succeeded() == Status(code.status_code().raw()).succeeded(),
{
}

/// Every code of the unsigned convention is the counterpart of one of the
/// signed convention.
pub proof fn lemma_every_status_code_has_a_counterpart(status: StatusCode)
    ensures
        exists|code: ErrorCode| code.status_code() == status,
{
    match status {
        StatusCode::QUIC_STATUS_SUCCESS => {
            assert(ErrorCode::QUIC_ERROR_SUCCESS.status_code() == status);
        },
        StatusCode::QUIC_STATUS_PENDING => {
            assert(ErrorCode::QUIC_ERROR_PENDING.status_code() == status);
        },
        StatusCode::QUIC_STATUS_CONTINUE => {
            assert(ErrorCode::QUIC_ERROR_CONTINUE.status_code() == status);
        },
        StatusCode::QUIC_STATUS_OUT_OF_MEMORY => {
            assert(ErrorCode::QUIC_ERROR_OUT_OF_MEMORY.status_code() == status);
        },
        StatusCode::QUIC_STATUS_INVALID_PARAMETER => {
            assert(ErrorCode::QUIC_ERROR_INVALID_PARAMETER.status_code() == status);
        },
        StatusCode::QUIC_STATUS_INVALID_STATE => {
            assert(ErrorCode::QUIC_ERROR_INVALID_STATE.status_code() == status);
        },
        StatusCode::QUIC_STATUS_NOT_SUPPORTED => {
            assert(ErrorCode::QUIC_ERROR_NOT_SUPPORTED.status_code() == status);
        },
        StatusCode::QUIC_STATUS_NOT_FOUND => {
            assert(ErrorCode::QUIC_ERROR_NOT_FOUND.status_code() == status);
        },
        StatusCode::QUIC_STATUS_BUFFER_TOO_SMALL => {
            assert(ErrorCode::QUIC_ERROR_BUFFER_TOO_SMALL.status_code() == status);
        },
        StatusCode::QUIC_STATUS_HANDSHAKE_FAILURE => {
            assert(ErrorCode::QUIC_ERROR_HANDSHAKE_FAILURE.status_code() == status);
        },
        StatusCode::QUIC_STATUS_ABORTED => {
            assert(ErrorCode::QUIC_ERROR_ABORTED.status_code() == status);
        },
        StatusCode::QUIC_STATUS_ADDRESS_IN_USE => {
            assert(ErrorCode::QUIC_ERROR_ADDRESS_IN_USE.status_code() == status);
        },
        StatusCode::QUIC_STATUS_INVALID_ADDRESS => {
            assert(ErrorCode::QUIC_ERROR_INVALID_ADDRESS.status_code() == status);
        },
        StatusCode::QUIC_STATUS_CONNECTION_TIMEOUT => {
            assert(ErrorCode::QUIC_ERROR_CONNECTION_TIMEOUT.status_code() == status);
        },
        StatusCode::QUIC_STATUS_CONNECTION_IDLE => {
            assert(ErrorCode::QUIC_ERROR_CONNECTION_IDLE.status_code() == status);
        },
        StatusCode::QUIC_STATUS_UNREACHABLE => {
            assert(ErrorCode::QUIC_ERROR_UNREACHABLE.status_code() == status);
        },
        StatusCode::QUIC_STATUS_INTERNAL_ERROR => {
            assert(ErrorCode::QUIC_ERROR_INTERNAL_ERROR.status_code() == status);
        },
        StatusCode::QUIC_STATUS_CONNECTION_REFUSED => {
            assert(ErrorCode::QUIC_ERROR_CONNECTION_REFUSED.status_code() == status);
        },
        StatusCode::QUIC_STATUS_PROTOCOL_ERROR => {
            assert(ErrorCode::QUIC_ERROR_PROTOCOL_ERROR.status_code() == status);
        },
        StatusCode::QUIC_STATUS_VER_NEG_ERROR => {
            assert(ErrorCode::QUIC_ERROR_VER_NEG_ERROR.status_code() == status);
        },
        StatusCode::QUIC_STATUS_TLS_ERROR => {
            assert(ErrorCode::QUIC_ERROR_TLS_ERROR.status_code() == status);
        },
        StatusCode::QUIC_STATUS_USER_CANCELED => {
            assert(ErrorCode::QUIC_ERROR_USER_CANCELED.status_code() == status);
        },
        StatusCode::QUIC_STATUS_ALPN_NEG_FAILURE => {
            assert(ErrorCode::QUIC_ERROR_ALPN_NEG_FAILURE.status_code() == status);
        },
        StatusCode::QUIC_STATUS_STREAM_LIMIT_REACHED => {
            assert(ErrorCode::QUIC_ERROR_STREAM_LIMIT_REACHED.status_code() == status);
        },
        StatusCode::QUIC_STATUS_ALPN_IN_USE => {
            assert(ErrorCode::QUIC_ERROR_ALPN_IN_USE.status_code() == status);
        },
        StatusCode::QUIC_STATUS_CLOSE_NOTIFY => {
            assert(ErrorCode::QUIC_ERROR_CLOSE_NOTIFY.status_code() == status);
        },
        StatusCode::QUIC_STATUS_BAD_CERTIFICATE => {
            assert(ErrorCode::QUIC_ERROR_BAD_CERTIFICATE.status_code() == status);
        },
        StatusCode::QUIC_STATUS_UNSUPPORTED_CERTIFICATE => {
            assert(ErrorCode::QUIC_ERROR_UNSUPPORTED_CERTIFICATE.status_code() == status);
        },
        StatusCode::QUIC_STATUS_REVOKED_CERTIFICATE => {
            assert(ErrorCode::QUIC_ERROR_REVOKED_CERTIFICATE.status_code() == status);
        },
        StatusCode::QUIC_STATUS_EXPIRED_CERTIFICATE => {
            assert(ErrorCode::QUIC_ERROR_EXPIRED_CERTIFICATE.status_code() == status);
        },
        StatusCode::QUIC_STATUS_UNKNOWN_CERTIFICATE => {
            assert(ErrorCode::QUIC_ERROR_UNKNOWN_CERTIFICATE.status_code() == status);
        },
        StatusCode::QUIC_STATUS_REQUIRED_CERTIFICATE => {
            assert(ErrorCode::QUIC_ERROR_REQUIRED_CERTIFICATE.status_code() == status);
        },
        StatusCode::QUIC_STATUS_CERT_EXPIRED => {
            assert(ErrorCode::QUIC_ERROR_CERT_EXPIRED.status_code() == status);
        },
        StatusCode::QUIC_STATUS_CERT_UNTRUSTED_ROOT => {
            assert(ErrorCode::QUIC_ERROR_CERT_UNTRUSTED_ROOT.status_code() == status);
        },
        StatusCode::QUIC_STATUS_CERT_NO_CERT => {
            assert(ErrorCode::QUIC_ERROR_CERT_NO_CERT.status_code() == status);
        },
    }
}

} // verus!
