use msquic::error::{Error, ErrorCode};
use msquic::status::{Status, StatusCode};

#[test]
fn error_fmt_test() {
    let err = Status::new(StatusCode::QUIC_STATUS_ABORTED);
    assert_eq!(err.to_string(), "QUIC_STATUS_ABORTED (0x7d)");
    assert_eq!(
        err.to_debug_string(),
        "Error { code: 0x7d, message: QUIC_STATUS_ABORTED }"
    );
    let ec = err.try_as_status_code().unwrap();
    assert_eq!(ec.to_string(), "QUIC_STATUS_ABORTED");
}

#[test]
fn error_ok_test() {
    assert!(!Status::new(StatusCode::QUIC_STATUS_ABORTED).is_ok());
    assert!(Status::new(StatusCode::QUIC_STATUS_SUCCESS).is_ok());
    assert!(Status::ok_from_raw(u32::from(StatusCode::QUIC_STATUS_PENDING)).is_ok());
}

#[test]
fn error_error_fmt_test() {
    let err = Error::new(ErrorCode::QUIC_ERROR_ABORTED);
    assert_eq!(err.to_string(), "QUIC_ERROR_ABORTED (-2147467260)");
    assert_eq!(
        err.to_debug_string(),
        "Error { code: -2147467260, message: QUIC_ERROR_ABORTED }"
    );
    let ec = err.try_as_error_code().unwrap();
    assert_eq!(ec.to_string(), "QUIC_ERROR_ABORTED");
}

#[test]
fn error_error_ok_test() {
    assert!(Error::new(ErrorCode::QUIC_ERROR_ABORTED).ok().is_err());
    assert!(Error::new(ErrorCode::QUIC_ERROR_SUCCESS).ok().is_ok());
    assert!(Error::from_raw(i32::from(ErrorCode::QUIC_ERROR_PENDING))
        .ok()
        .is_ok());
}

const POSIX_CODES: [(StatusCode, u32); 35] = [
    (StatusCode::QUIC_STATUS_SUCCESS, 0),
    (StatusCode::QUIC_STATUS_PENDING, 0xffff_fffe),
    (StatusCode::QUIC_STATUS_CONTINUE, 0xffff_ffff),
    (StatusCode::QUIC_STATUS_OUT_OF_MEMORY, 12),
    (StatusCode::QUIC_STATUS_INVALID_PARAMETER, 22),
    (StatusCode::QUIC_STATUS_INVALID_STATE, 1),
    (StatusCode::QUIC_STATUS_NOT_SUPPORTED, 95),
    (StatusCode::QUIC_STATUS_NOT_FOUND, 2),
    (StatusCode::QUIC_STATUS_BUFFER_TOO_SMALL, 75),
    (StatusCode::QUIC_STATUS_HANDSHAKE_FAILURE, 103),
    (StatusCode::QUIC_STATUS_ABORTED, 125),
    (StatusCode::QUIC_STATUS_ADDRESS_IN_USE, 98),
    (StatusCode::QUIC_STATUS_INVALID_ADDRESS, 97),
    (StatusCode::QUIC_STATUS_CONNECTION_TIMEOUT, 110),
    (StatusCode::QUIC_STATUS_CONNECTION_IDLE, 62),
    (StatusCode::QUIC_STATUS_UNREACHABLE, 113),
    (StatusCode::QUIC_STATUS_INTERNAL_ERROR, 5),
    (StatusCode::QUIC_STATUS_CONNECTION_REFUSED, 111),
    (StatusCode::QUIC_STATUS_PROTOCOL_ERROR, 71),
    (StatusCode::QUIC_STATUS_VER_NEG_ERROR, 93),
    (StatusCode::QUIC_STATUS_TLS_ERROR, 126),
    (StatusCode::QUIC_STATUS_USER_CANCELED, 130),
    (StatusCode::QUIC_STATUS_ALPN_NEG_FAILURE, 92),
    (StatusCode::QUIC_STATUS_STREAM_LIMIT_REACHED, 86),
    (StatusCode::QUIC_STATUS_ALPN_IN_USE, 91),
    (StatusCode::QUIC_STATUS_CLOSE_NOTIFY, 200000256),
    (StatusCode::QUIC_STATUS_BAD_CERTIFICATE, 200000298),
    (StatusCode::QUIC_STATUS_UNSUPPORTED_CERTIFICATE, 200000299),
    (StatusCode::QUIC_STATUS_REVOKED_CERTIFICATE, 200000300),
    (StatusCode::QUIC_STATUS_EXPIRED_CERTIFICATE, 200000301),
    (StatusCode::QUIC_STATUS_UNKNOWN_CERTIFICATE, 200000302),
    (StatusCode::QUIC_STATUS_REQUIRED_CERTIFICATE, 200000372),
    (StatusCode::QUIC_STATUS_CERT_EXPIRED, 200000513),
    (StatusCode::QUIC_STATUS_CERT_UNTRUSTED_ROOT, 200000514),
    (StatusCode::QUIC_STATUS_CERT_NO_CERT, 200000515),
];

const SIGNED_CODES: [ErrorCode; 35] = [
    ErrorCode::QUIC_ERROR_SUCCESS,
    ErrorCode::QUIC_ERROR_PENDING,
    ErrorCode::QUIC_ERROR_CONTINUE,
    ErrorCode::QUIC_ERROR_OUT_OF_MEMORY,
    ErrorCode::QUIC_ERROR_INVALID_PARAMETER,
    ErrorCode::QUIC_ERROR_INVALID_STATE,
    ErrorCode::QUIC_ERROR_NOT_SUPPORTED,
    ErrorCode::QUIC_ERROR_NOT_FOUND,
    ErrorCode::QUIC_ERROR_BUFFER_TOO_SMALL,
    ErrorCode::QUIC_ERROR_HANDSHAKE_FAILURE,
    ErrorCode::QUIC_ERROR_ABORTED,
    ErrorCode::QUIC_ERROR_ADDRESS_IN_USE,
    ErrorCode::QUIC_ERROR_INVALID_ADDRESS,
    ErrorCode::QUIC_ERROR_CONNECTION_TIMEOUT,
    ErrorCode::QUIC_ERROR_CONNECTION_IDLE,
    ErrorCode::QUIC_ERROR_UNREACHABLE,
    ErrorCode::QUIC_ERROR_INTERNAL_ERROR,
    ErrorCode::QUIC_ERROR_CONNECTION_REFUSED,
    ErrorCode::QUIC_ERROR_PROTOCOL_ERROR,
    ErrorCode::QUIC_ERROR_VER_NEG_ERROR,
    ErrorCode::QUIC_ERROR_TLS_ERROR,
    ErrorCode::QUIC_ERROR_USER_CANCELED,
    ErrorCode::QUIC_ERROR_ALPN_NEG_FAILURE,
    ErrorCode::QUIC_ERROR_STREAM_LIMIT_REACHED,
    ErrorCode::QUIC_ERROR_ALPN_IN_USE,
    ErrorCode::QUIC_ERROR_CLOSE_NOTIFY,
    ErrorCode::QUIC_ERROR_BAD_CERTIFICATE,
    ErrorCode::QUIC_ERROR_UNSUPPORTED_CERTIFICATE,
    ErrorCode::QUIC_ERROR_REVOKED_CERTIFICATE,
    ErrorCode::QUIC_ERROR_EXPIRED_CERTIFICATE,
    ErrorCode::QUIC_ERROR_UNKNOWN_CERTIFICATE,
    ErrorCode::QUIC_ERROR_REQUIRED_CERTIFICATE,
    ErrorCode::QUIC_ERROR_CERT_EXPIRED,
    ErrorCode::QUIC_ERROR_CERT_UNTRUSTED_ROOT,
    ErrorCode::QUIC_ERROR_CERT_NO_CERT,
];

#[test]
fn every_known_code_is_classified_alike_in_both_conventions() {
    for (index, (code, raw)) in POSIX_CODES.iter().enumerate() {
        let documented_ok = index < 3;
        let status = Status::new(*code);
        assert_eq!(status.0, *raw);
        assert_eq!(status.is_ok(), documented_ok, "{:?}", code);
        assert_eq!(Status::ok_from_raw(*raw).is_ok(), documented_ok);
        assert_eq!(status.is_ok(), (*raw as i32) <= 0);
        let signed = Error::new(SIGNED_CODES[index]);
        assert_eq!(signed.ok().is_ok(), documented_ok, "{:?}", SIGNED_CODES[index]);
        assert_eq!(
            signed.try_as_error_code().unwrap().to_string()[11..],
            code.to_string()[12..]
        );
    }
}

#[test]
fn pending_is_ok_in_both_conventions() {
    assert!(Status::new(StatusCode::QUIC_STATUS_PENDING).is_ok());
    assert!(Status::new(StatusCode::QUIC_STATUS_CONTINUE).is_ok());
    assert!(Error::new(ErrorCode::QUIC_ERROR_PENDING).ok().is_ok());
    assert!(Error::new(ErrorCode::QUIC_ERROR_CONTINUE).ok().is_ok());
    assert_eq!(i32::from(ErrorCode::QUIC_ERROR_PENDING), 0x703e5);
    assert_eq!(u32::from(StatusCode::QUIC_STATUS_PENDING), 0xffff_fffe);
}

#[test]
fn known_codes_round_trip_through_their_integer() {
    for (code, raw) in POSIX_CODES.iter() {
        assert_eq!(StatusCode::from_raw(*raw), Some(*code));
        assert_eq!(code.to_raw(), *raw);
        assert_eq!(Status(*raw).try_as_status_code(), Ok(*code));
        assert_eq!(Status::from(*code), Status(*raw));
        assert_eq!(Status::from(*raw), Status(*raw));
    }
    for code in SIGNED_CODES.iter() {
        assert_eq!(ErrorCode::from_raw(code.to_raw()), Some(*code));
        assert_eq!(Error::from(*code), Error(code.to_raw()));
        assert_eq!(Error::from(code.to_raw()).try_as_error_code(), Ok(*code));
    }
}

#[test]
fn unknown_codes_keep_their_integer() {
    let status = Status(0xdead);
    assert_eq!(status.try_as_status_code(), Err("Unknown QUIC_STATUS"));
    assert_eq!(status.0, 0xdead);
    assert_eq!(status.to_string(), "0xdead");
    assert_eq!(
        status.to_debug_string(),
        "Error { code: 0xdead, message: \"unknown quic error\" }"
    );
    assert!(!status.is_ok());
    assert_eq!(Status::ok_from_raw(0xdead), Err(Status(0xdead)));
    assert_eq!(StatusCode::from_raw(3), None);

    let error = Error(-5);
    assert_eq!(error.try_as_error_code(), Err("Unknown QUIC_ERROR"));
    assert_eq!(error.to_string(), "-5");
    assert_eq!(
        error.to_debug_string(),
        "Error { code: -5, message: \"unknown quic error\" }"
    );
    assert_eq!(error.ok(), Err(Error(-5)));
    assert_eq!(Error(7).to_string(), "7");
    assert_eq!(Error(7).ok(), Ok(()));
}

#[test]
fn status_text_is_hexadecimal_without_padding() {
    assert_eq!(Status(0).to_string(), "QUIC_STATUS_SUCCESS (0x0)");
    assert_eq!(
        Status(0xffff_fffe).to_string(),
        "QUIC_STATUS_PENDING (0xfffffffe)"
    );
    assert_eq!(Status(16).to_string(), "0x10");
    assert_eq!(
        Status(200000513).to_string(),
        "QUIC_STATUS_CERT_EXPIRED (0xbebc401)"
    );
    for raw in [0u32, 9, 10, 15, 16, 255, 256, 4095, 0x7fff_ffff, 0x8000_0000, u32::MAX] {
        let text = Status(raw).to_string();
        assert!(text.ends_with(&format!("{:x}", raw)) || text.ends_with(&format!("{:x})", raw)));
    }
}

#[test]
fn error_text_is_signed_decimal() {
    assert_eq!(Error(0).to_string(), "QUIC_ERROR_SUCCESS (0)");
    assert_eq!(Error(i32::MIN).to_string(), "-2147483648");
    assert_eq!(Error(i32::MAX).to_string(), "2147483647");
    assert_eq!(Error(459749).to_string(), "QUIC_ERROR_PENDING (459749)");
    for raw in [-1i32, -9, -10, -99, -100, 1, 9, 10, 99, 100, 1234567890] {
        assert_eq!(Error(raw).to_string(), format!("{}", raw));
    }
}

#[test]
fn from_u32_keeps_the_bits() {
    assert_eq!(Error::from_u32(0).0, 0);
    assert_eq!(Error::from_u32(0x7fff_ffff).0, i32::MAX);
    assert_eq!(Error::from_u32(0x8000_0000).0, i32::MIN);
    assert_eq!(Error::from_u32(0x8000_4004).0, -2147467260);
    assert_eq!(Error::from_u32(u32::MAX).0, -1);
    assert_eq!(
        Error::from_u32(0x8000_4004).try_as_error_code(),
        Ok(ErrorCode::QUIC_ERROR_ABORTED)
    );
    for raw in [1u32, 0x703e5, 0x8007_000e, 0x8041_0174, 0xffff_fffe] {
        assert_eq!(Error::from_u32(raw).0, raw as i32);
    }
}
