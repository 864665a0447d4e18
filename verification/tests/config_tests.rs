use msquic::config::{
    RawCertificate, CREDENTIAL_TYPE_CERTIFICATE_FILE, CREDENTIAL_TYPE_CERTIFICATE_FILE_PROTECTED,
    CREDENTIAL_TYPE_CERTIFICATE_HASH, CREDENTIAL_TYPE_CERTIFICATE_HASH_STORE,
    CREDENTIAL_TYPE_CERTIFICATE_PKCS12, CREDENTIAL_TYPE_NONE,
};
use msquic::cstring::NulString;
use msquic::flags::{
    ALLOWED_CIPHER_SUITE_AES_128_GCM_SHA256, CERTIFICATE_HASH_STORE_FLAG_MACHINE_STORE,
    CREDENTIAL_FLAG_CLIENT, CREDENTIAL_FLAG_NO_CERTIFICATE_VALIDATION,
    CREDENTIAL_FLAG_SET_ALLOWED_CIPHER_SUITES, CREDENTIAL_FLAG_SET_CA_CERTIFICATE_FILE,
};
use msquic::{
    AllowedCipherSuiteFlags, CertificateFile, CertificateFileProtected, CertificateHash,
    CertificateHashStore, CertificateHashStoreFlags, CertificatePkcs12, Credential,
    CredentialConfig, CredentialFlags, ExecutionProfile, RegistrationConfig, Status, StatusCode,
};

#[test]
fn hash_test() {
    let hex_str = "0E31650DFB5283AB820E3735FD2B254A286F46B3";
    let hash = CertificateHash::from_str(hex_str).expect("fail to convert hash");
    let hex = hash.to_hex_string();
    assert_eq!(hex_str, hex);
}

#[test]
fn hash_bytes_are_decoded_pair_by_pair() {
    let hash = CertificateHash::from_str("000102030405060708090a0b0c0d0e0f10fF7f80").unwrap();
    assert_eq!(
        hash.sha_hash(),
        [0, 1, 2, 3, 4, 5, 6, 7, 8, 9, 10, 11, 12, 13, 14, 15, 16, 255, 127, 128]
    );
    assert_eq!(
        hash.to_hex_string(),
        "000102030405060708090A0B0C0D0E0F10FF7F80"
    );
}

#[test]
fn hash_of_bytes_round_trips_through_text() {
    let mut bytes = [0u8; 20];
    for (i, byte) in bytes.iter_mut().enumerate() {
        *byte = (i * 13 + 7) as u8;
    }
    let text = CertificateHash::new(bytes).to_hex_string();
    assert_eq!(text.len(), 40);
    assert_eq!(CertificateHash::from_str(&text).unwrap().sha_hash(), bytes);
}

#[test]
fn hash_text_of_wrong_length_is_an_invalid_parameter() {
    let invalid = Status::new(StatusCode::QUIC_STATUS_INVALID_PARAMETER);
    assert_eq!(CertificateHash::from_str("").unwrap_err(), invalid);
    assert_eq!(CertificateHash::from_str("0E31").unwrap_err(), invalid);
    assert_eq!(
        CertificateHash::from_str("0E31650DFB5283AB820E3735FD2B254A286F46B").unwrap_err(),
        invalid
    );
    assert_eq!(
        CertificateHash::from_str("0E31650DFB5283AB820E3735FD2B254A286F46B3A").unwrap_err(),
        invalid
    );
    assert_eq!(CertificateHash::decode_hex("00").unwrap_err(), invalid);
}

#[test]
fn hash_text_with_a_bad_digit_is_an_invalid_parameter() {
    let invalid = Status::new(StatusCode::QUIC_STATUS_INVALID_PARAMETER);
    assert_eq!(
        CertificateHash::from_str("0G31650DFB5283AB820E3735FD2B254A286F46B3").unwrap_err(),
        invalid
    );
    assert_eq!(
        CertificateHash::from_str("0E31650DFB5283AB820E3735FD2B254A286F46 3").unwrap_err(),
        invalid
    );
    assert_eq!(
        CertificateHash::from_str("-131650DFB5283AB820E3735FD2B254A286F46B3").unwrap_err(),
        invalid
    );
    assert_eq!(
        CertificateHash::from_str("0E31650DFB5283AB820E3735FD2B254A286F46\u{e9}").unwrap_err(),
        invalid
    );
}

#[test]
fn a_plus_sign_stands_before_one_digit() {
    let hash = CertificateHash::from_str("+E31650DFB5283AB820E3735FD2B254A286F46+3").unwrap();
    let bytes = hash.sha_hash();
    assert_eq!(bytes[0], 0x0e);
    assert_eq!(bytes[1], 0x31);
    assert_eq!(bytes[19], 0x03);
    assert_eq!(
        u8::from_str_radix("+E", 16).unwrap(),
        bytes[0],
        "a pair is read as the standard library reads a number in base sixteen"
    );
    let invalid = Status::new(StatusCode::QUIC_STATUS_INVALID_PARAMETER);
    assert_eq!(
        CertificateHash::from_str("++31650DFB5283AB820E3735FD2B254A286F46B3").unwrap_err(),
        invalid
    );
    assert_eq!(
        CertificateHash::from_str("0+31650DFB5283AB820E3735FD2B254A286F46B3").unwrap_err(),
        invalid
    );
}

#[test]
fn every_pair_is_read_as_the_standard_library_reads_it() {
    let candidates = b"0123456789abcdefABCDEF+-gG xX_\0";
    for high in candidates.iter() {
        for low in candidates.iter() {
            let pair = [*high, *low];
            let pair_text = std::str::from_utf8(&pair).unwrap();
            let mut text = String::from(pair_text);
            text.push_str("00000000000000000000000000000000000000");
            let expected = u8::from_str_radix(pair_text, 16).ok();
            let got = CertificateHash::from_str(&text).ok().map(|hash| hash.sha_hash()[0]);
            assert_eq!(got, expected, "pair {:?}", pair_text);
        }
    }
}

#[test]
fn nul_string_ends_in_zero() {
    let name = NulString::new("MY").unwrap();
    assert_eq!(name.as_bytes_with_nul(), b"MY\0");
    let empty = NulString::new("").unwrap();
    assert_eq!(empty.as_bytes_with_nul(), b"\0");
    assert!(NulString::new("a\0b").is_none());
    assert!(NulString::accepts("quic"));
    assert!(!NulString::accepts("qu\0ic"));
    assert!(!NulString::accepts("\0"));
}

#[test]
fn registration_config_describes_itself() {
    let config = RegistrationConfig::new();
    let raw = config.as_ffi();
    assert!(raw.app_name.is_none());
    assert_eq!(raw.execution_profile, 0);

    let config = RegistrationConfig::default()
        .set_app_name(String::from("qtest"))
        .set_execution_profile(ExecutionProfile::RealTime);
    let raw = config.as_ffi();
    assert_eq!(raw.app_name, Some(b"qtest\0".as_slice()));
    assert_eq!(raw.execution_profile, 3);
    assert_eq!(u32::from(ExecutionProfile::LowLatency), 0);
    assert_eq!(u32::from(ExecutionProfile::MaxThroughput), 1);
    assert_eq!(u32::from(ExecutionProfile::Scavenger), 2);
    assert_eq!(ExecutionProfile::default(), ExecutionProfile::LowLatency);
}

#[test]
fn new_client_has_the_client_flag_and_no_credential() {
    let config = CredentialConfig::new_client();
    let raw = config.as_ffi();
    assert_eq!(raw.flags, CREDENTIAL_FLAG_CLIENT);
    assert_eq!(raw.cred_type, CREDENTIAL_TYPE_NONE);
    assert!(matches!(raw.certificate, RawCertificate::Null));
    assert!(raw.principal.is_none());
    assert_eq!(raw.allowed_cipher_suites, 0);
    assert!(raw.ca_certificate_file.is_none());
}

#[test]
fn credential_flags_are_additive() {
    let config = CredentialConfig::new_client().set_credential_flags(
        CredentialFlags::from_bits(CREDENTIAL_FLAG_NO_CERTIFICATE_VALIDATION).unwrap(),
    );
    assert_eq!(
        config.as_ffi().flags,
        CREDENTIAL_FLAG_CLIENT | CREDENTIAL_FLAG_NO_CERTIFICATE_VALIDATION
    );
    let config = config
        .set_allowed_cipher_suites(
            AllowedCipherSuiteFlags::from_bits(ALLOWED_CIPHER_SUITE_AES_128_GCM_SHA256).unwrap(),
        )
        .set_ca_certificate_file(String::from("./ca.pem"))
        .set_principal(String::from("me"));
    let raw = config.as_ffi();
    assert_eq!(
        raw.flags,
        CREDENTIAL_FLAG_CLIENT
            | CREDENTIAL_FLAG_NO_CERTIFICATE_VALIDATION
            | CREDENTIAL_FLAG_SET_ALLOWED_CIPHER_SUITES
            | CREDENTIAL_FLAG_SET_CA_CERTIFICATE_FILE
    );
    assert_eq!(raw.allowed_cipher_suites, 1);
    assert_eq!(raw.ca_certificate_file, Some(b"./ca.pem\0".as_slice()));
    assert_eq!(raw.principal, Some(b"me\0".as_slice()));
}

#[test]
fn each_credential_has_its_type_and_structure() {
    let config = CredentialConfig::new()
        .set_credential(Credential::CertificateHash(CertificateHash::new([7; 20])));
    let raw = config.as_ffi();
    assert_eq!(raw.cred_type, CREDENTIAL_TYPE_CERTIFICATE_HASH);
    match raw.certificate {
        RawCertificate::Hash(hash) => assert_eq!(hash.sha_hash(), [7; 20]),
        _ => panic!("not a hash"),
    }

    let config = config.set_credential(Credential::CertificateFile(CertificateFile::new(
        String::from("./no_key"),
        String::from("./no_cert"),
    )));
    let raw = config.as_ffi();
    assert_eq!(raw.cred_type, CREDENTIAL_TYPE_CERTIFICATE_FILE);
    match raw.certificate {
        RawCertificate::File(file) => {
            assert_eq!(file.private_key_file, b"./no_key\0");
            assert_eq!(file.certificate_file, b"./no_cert\0");
        }
        _ => panic!("not a file"),
    }

    let config = config.set_credential(Credential::CertificateFileProtected(
        CertificateFileProtected::new(
            String::from("key"),
            String::from("cert"),
            String::from("secret"),
        ),
    ));
    let raw = config.as_ffi();
    assert_eq!(raw.cred_type, CREDENTIAL_TYPE_CERTIFICATE_FILE_PROTECTED);
    match raw.certificate {
        RawCertificate::FileProtected(file) => {
            assert_eq!(file.private_key_file, b"key\0");
            assert_eq!(file.certificate_file, b"cert\0");
            assert_eq!(file.private_key_password, b"secret\0");
        }
        _ => panic!("not a protected file"),
    }

    let config = config.set_credential(Credential::CertificatePkcs12(CertificatePkcs12::new(
        vec![1, 2, 3],
        NulString::new("pw"),
    )));
    let raw = config.as_ffi();
    assert_eq!(raw.cred_type, CREDENTIAL_TYPE_CERTIFICATE_PKCS12);
    match raw.certificate {
        RawCertificate::Pkcs12(certificate) => {
            assert_eq!(certificate.asn1_blob, &[1, 2, 3]);
            assert_eq!(certificate.asn1_blob_length, 3);
            assert_eq!(certificate.private_key_password, Some(b"pw\0".as_slice()));
        }
        _ => panic!("not a PKCS#12 certificate"),
    }

    let config = config.set_credential(Credential::CertificateContext(0));
    assert_eq!(config.as_ffi().cred_type, 3);
    assert!(matches!(
        config.as_ffi().certificate,
        RawCertificate::Context(0)
    ));
}

#[test]
fn hash_store_holds_the_name_with_zeros_behind() {
    let store = CertificateHashStore::new(
        CertificateHashStoreFlags::from_bits(CERTIFICATE_HASH_STORE_FLAG_MACHINE_STORE).unwrap(),
        [0; 20],
        String::from("MY"),
    );
    assert_eq!(store.flag_bits(), 1);
    assert_eq!(store.hash_bytes(), [0; 20]);
    let name = store.name_bytes();
    assert_eq!(&name[..3], b"MY\0");
    assert!(name[2..].iter().all(|byte| *byte == 0));

    let config =
        CredentialConfig::new().set_credential(Credential::CertificateHashStore(store));
    let raw = config.as_ffi();
    assert_eq!(raw.cred_type, CREDENTIAL_TYPE_CERTIFICATE_HASH_STORE);
    match raw.certificate {
        RawCertificate::HashStore(store) => assert_eq!(&store.name_bytes()[..2], b"MY"),
        _ => panic!("not a hash store"),
    }
}
