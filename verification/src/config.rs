//! The builders of registration and credential configuration. A builder owns
//! what it is given, strings in the form that the native library reads, and
//! describes the native structure only on demand: the description borrows
//! from the builder, which must outlive it.

use crate::buffer::native_length;
use crate::cstring::NulString;
use crate::flags::{
    AllowedCipherSuiteFlags, CertificateHashStoreFlags, CredentialFlags,
    CREDENTIAL_FLAG_CLIENT, CREDENTIAL_FLAG_SET_ALLOWED_CIPHER_SUITES,
    CREDENTIAL_FLAG_SET_CA_CERTIFICATE_FILE,
};
use crate::status::{Status, StatusCode};
use crate::text::{push_upper_hex_byte, upper_hex_bytes, upper_hex_char};
use vstd::prelude::*;
use vstd::string::StringSliceAdditionalSpecFns;

verus! {

/// The bytes of a text: its UTF-8 encoding.
pub open spec fn text_bytes(text: Seq<char>) -> Seq<u8> {
    vstd::utf8::encode_utf8(text)
}

/// The native integer of the execution profile for low latency.
pub const EXECUTION_PROFILE_LOW_LATENCY: u32 = 0;

/// The native integer of the execution profile for maximal throughput.
pub const EXECUTION_PROFILE_TYPE_MAX_THROUGHPUT: u32 = 1;

/// The native integer of the execution profile for background work.
pub const EXECUTION_PROFILE_TYPE_SCAVENGER: u32 = 2;

/// The native integer of the execution profile for real-time work.
pub const EXECUTION_PROFILE_TYPE_REAL_TIME: u32 = 3;

/// Configures how to process a registration's workload.
#[derive(Debug, Clone, Copy, PartialEq, Eq, Structural)]
pub enum ExecutionProfile {
    LowLatency,
    MaxThroughput,
    Scavenger,
    RealTime,
}

impl ExecutionProfile {
    /// The native integer of this profile.
    pub open spec fn raw(self) -> u32 {
        match self {
            ExecutionProfile::LowLatency => EXECUTION_PROFILE_LOW_LATENCY,
            ExecutionProfile::MaxThroughput => EXECUTION_PROFILE_TYPE_MAX_THROUGHPUT,
            ExecutionProfile::Scavenger => EXECUTION_PROFILE_TYPE_SCAVENGER,
            ExecutionProfile::RealTime => EXECUTION_PROFILE_TYPE_REAL_TIME,
        }
    }

    /// The native integer of this profile.
    pub fn to_raw(self) -> (value: u32)
        ensures
            value == self.raw(),
    {
        match self {
            ExecutionProfile::LowLatency => EXECUTION_PROFILE_LOW_LATENCY,
            ExecutionProfile::MaxThroughput => EXECUTION_PROFILE_TYPE_MAX_THROUGHPUT,
            ExecutionProfile::Scavenger => EXECUTION_PROFILE_TYPE_SCAVENGER,
            ExecutionProfile::RealTime => EXECUTION_PROFILE_TYPE_REAL_TIME,
        }
    }
}

impl Default for ExecutionProfile {
    fn default() -> (profile: Self)
        ensures
            profile == ExecutionProfile::LowLatency,
    {
        ExecutionProfile::LowLatency
    }
}

impl From<ExecutionProfile> for u32 {
    fn from(value: ExecutionProfile) -> (raw: u32) {
        value.to_raw()
    }
}

impl vstd::std_specs::convert::FromSpecImpl<ExecutionProfile> for u32 {
    open spec fn obeys_from_spec() -> bool {
        true
    }

    open spec fn from_spec(value: ExecutionProfile) -> u32 {
        value.raw()
    }
}

/// The native registration configuration, as a description that borrows from
/// its builder.
#[derive(Debug, Clone, Copy)]
pub struct RawRegistrationConfig<'a> {
    /// The application's name with its terminating zero, or nothing for a
    /// null pointer.
    pub app_name: Option<&'a [u8]>,
    /// The native integer of the execution profile.
    pub execution_profile: u32,
}

/// Whether `raw` is the text `text`, or its absence, in the form that the
/// native library reads: the bytes with a terminating zero, or nothing.
pub open spec fn is_native_text(raw: Option<&[u8]>, text: Option<Seq<u8>>) -> bool {
    match (raw, text) {
        (Some(bytes), Some(text)) => bytes@ == text.push(0u8),
        (None, None) => true,
        _ => false,
    }
}

/// Specifies the configuration for a new registration.
#[derive(Debug)]
pub struct RegistrationConfig {
    app_name: Option<NulString>,
    execution_profile: ExecutionProfile,
}

impl RegistrationConfig {
    /// The bytes of the application's name, if one was set.
    pub closed spec fn app_name(&self) -> Option<Seq<u8>> {
        match self.app_name {
            Some(name) => Some(name@),
            None => None,
        }
    }

    /// The execution profile.
    pub closed spec fn execution_profile(&self) -> ExecutionProfile {
        self.execution_profile
    }

    /// The configuration with no name and the profile for low latency.
    pub fn new() -> (config: Self)
        ensures
            config.app_name() is None,
            config.execution_profile() == ExecutionProfile::LowLatency,
    {
        RegistrationConfig { app_name: None, execution_profile: ExecutionProfile::LowLatency }
    }

    /// Sets the application's name, which must hold no zero byte.
    pub fn set_app_name(self, value: String) -> (config: Self)
        requires
            !text_bytes(value@).contains(0u8),
        ensures
            config.app_name() == Some(text_bytes(value@)),
            config.execution_profile() == self.execution_profile(),
    {
        let mut config = self;
        config.app_name = NulString::new(value.as_str());
        config
    }

    /// Sets the execution profile.
    pub fn set_execution_profile(self, value: ExecutionProfile) -> (config: Self)
        ensures
            config.app_name() == self.app_name(),
            config.execution_profile() == value,
    {
        let mut config = self;
        config.execution_profile = value;
        config
    }

    /// Describes the native structure. The name is a null pointer where none
    /// was set.
    pub fn as_ffi(&self) -> (raw: RawRegistrationConfig<'_>)
        ensures
            is_native_text(raw.app_name, self.app_name()),
            raw.execution_profile == self.execution_profile().raw(),
    {
        RawRegistrationConfig {
            app_name: match &self.app_name {
                Some(name) => Some(name.as_bytes_with_nul()),
                None => None,
            },
            execution_profile: self.execution_profile.to_raw(),
        }
    }
}

impl Default for RegistrationConfig {
    fn default() -> (config: Self)
        ensures
            config.app_name() is None,
            config.execution_profile() == ExecutionProfile::LowLatency,
    {
        RegistrationConfig::new()
    }
}

/// The value of one byte written as one hexadecimal digit, in either case.
pub open spec fn hex_digit_value(digit: u8) -> Option<u8> {
    if 48 <= digit <= 57 {
        Some((digit - 48) as u8)
    } else if 97 <= digit <= 102 {
        Some((digit - 87) as u8)
    } else if 65 <= digit <= 70 {
        Some((digit - 55) as u8)
    } else {
        None
    }
}

/// The value of two bytes read as a hexadecimal number: two digits, or a plus
/// sign and one digit.
pub open spec fn hex_pair_value(high: u8, low: u8) -> Option<u8> {
    if high == 43 {
        hex_digit_value(low)
    } else {
        match (hex_digit_value(high), hex_digit_value(low)) {
            (Some(sixteens), Some(ones)) => Some((sixteens * 16 + ones) as u8),
            _ => None,
        }
    }
}

/// The twenty bytes that forty bytes of text stand for, two bytes of text for
/// each; nothing where the text has another length or one of its pairs is no
/// hexadecimal number.
pub open spec fn decoded_hash(text: Seq<u8>) -> Option<Seq<u8>> {
    if text.len() == 40 && forall|i: int|
        0 <= i < 20 ==> (#[trigger] hex_pair_value(text[2 * i], text[2 * i + 1])) is Some {
        Some(Seq::new(20, |i: int| hex_pair_value(text[2 * i], text[2 * i + 1]).unwrap()))
    } else {
        None
    }
}

fn hex_digit(digit: u8) -> (value: Option<u8>)
    ensures
        value == hex_digit_value(digit),
{
    if 48 <= digit && digit <= 57 {
        Some(digit - 48)
    } else if 97 <= digit && digit <= 102 {
        Some(digit - 87)
    } else if 65 <= digit && digit <= 70 {
        Some(digit - 55)
    } else {
        None
    }
}

fn hex_pair(high: u8, low: u8) -> (value: Option<u8>)
    ensures
        value == hex_pair_value(high, low),
{
    if high == 43 {
        hex_digit(low)
    } else {
        match (hex_digit(high), hex_digit(low)) {
            (Some(sixteens), Some(ones)) => Some(sixteens * 16 + ones),
            _ => None,
        }
    }
}

/// The 20-byte hash, or thumbprint, of a certificate.
#[derive(Debug, Clone, Copy)]
pub struct CertificateHash {
    sha_hash: [u8; 20],
}

impl View for CertificateHash {
    type V = Seq<u8>;

    closed spec fn view(&self) -> Seq<u8> {
        self.sha_hash@
    }
}

impl CertificateHash {
    /// The hash with the bytes `hash`.
    pub fn new(hash: [u8; 20]) -> (made: Self)
        ensures
            made@ == hash@,
    {
        CertificateHash { sha_hash: hash }
    }

    /// The bytes of the hash.
    pub fn sha_hash(&self) -> (hash: [u8; 20])
        ensures
            hash@ == self@,
    {
        self.sha_hash
    }

    /// Construct from string hash: forty bytes of text that stand for the
    /// twenty bytes of the hash. Any other text is an invalid parameter.
    pub fn from_str(s: &str) -> (made: Result<Self, Status>)
        ensures
            match decoded_hash(s.spec_bytes()) {
                Some(hash) => made is Ok && made->Ok_0@ == hash,
                None => made is Err && made->Err_0 == Status(
                    StatusCode::QUIC_STATUS_INVALID_PARAMETER.raw(),
                ),
            },
    {
        match CertificateHash::decode_hex(s) {
            Ok(hash) => Ok(CertificateHash::new(hash)),
            Err(status) => Err(status),
        }
    }

    /// To hex string: every byte of the hash as two upper-case digits.
    pub fn to_hex_string(&self) -> (text: String)
        ensures
            text@ == upper_hex_bytes(self@),
    {
        let mut text = String::new();
        let mut i: usize = 0;
        while i < 20
            invariant
                i <= 20,
                self@.len() == 20,
                text@ == upper_hex_bytes(self@.take(i as int)),
            decreases 20 - i,
        {
            push_upper_hex_byte(&mut text, self.sha_hash[i]);
            i += 1;
            assert(text@ =~= upper_hex_bytes(self@.take(i as int)));
        }
        assert(self@.take(20) =~= self@);
        text
    }

    /// Converts the hex string of a hash into the bytes of the hash.
    pub fn decode_hex(s: &str) -> (decoded: Result<[u8; 20], Status>)
        ensures
            match decoded_hash(s.spec_bytes()) {
                Some(hash) => decoded is Ok && decoded->Ok_0@ == hash,
                None => decoded is Err && decoded->Err_0 == Status(
                    StatusCode::QUIC_STATUS_INVALID_PARAMETER.raw(),
                ),
            },
    {
        let text = s.as_bytes();
        let mut buff = [0u8; 20];
        if text.len() != 40 {
            return Err(Status::new(StatusCode::QUIC_STATUS_INVALID_PARAMETER));
        }
        let mut i: usize = 0;
        while i < 20
            invariant
                i <= 20,
                text@.len() == 40,
                text@ == s.spec_bytes(),
                forall|k: int|
                    0 <= k < i ==> (#[trigger] hex_pair_value(text@[2 * k], text@[2 * k + 1]))
                        == Some(buff@[k]),
            decreases 20 - i,
        {
            match hex_pair(text[2 * i], text[2 * i + 1]) {
                Some(byte) => {
                    buff[i] = byte;
                },
                None => {
                    assert(hex_pair_value(text@[2 * i], text@[2 * i + 1]) is None);
                    return Err(Status::new(StatusCode::QUIC_STATUS_INVALID_PARAMETER));
                },
            }
            i += 1;
        }
        assert(buff@ =~= decoded_hash(text@).unwrap());
        Ok(buff)
    }
}

/// The 20-byte hash, or thumbprint, of a certificate together with the name of
/// the store that holds it.
#[derive(Debug, Clone, Copy)]
pub struct CertificateHashStore {
    flags: u32,
    sha_hash: [u8; 20],
    store_name: [u8; 128],
}

impl CertificateHashStore {
    /// The bits of the flags.
    pub closed spec fn flags(&self) -> u32 {
        self.flags
    }

    /// The bytes of the hash.
    pub closed spec fn sha_hash(&self) -> Seq<u8> {
        self.sha_hash@
    }

    /// The 128 bytes of the field that holds the store's name.
    pub closed spec fn store_name(&self) -> Seq<u8> {
        self.store_name@
    }

    /// The field of 128 bytes that holds the name `name`: its bytes, and zero
    /// in all that follows them.
    pub open spec fn name_field(name: Seq<u8>) -> Seq<u8> {
        Seq::new(
            128,
            |i: int|
                if i < name.len() {
                    name[i]
                } else {
                    0u8
                },
        )
    }

    /// The hash `hash` in the store named `store_name`. The name must hold no
    /// zero byte and, with its terminating zero, fit in 128 bytes.
    pub fn new(flags: CertificateHashStoreFlags, hash: [u8; 20], store_name: String) -> (made:
        Self)
        requires
            !text_bytes(store_name@).contains(0u8),
            text_bytes(store_name@).len() < 128,
        ensures
            made.flags() == flags.bits(),
            made.sha_hash() == hash@,
            made.store_name() == CertificateHashStore::name_field(text_bytes(store_name@)),
    {
        let name = store_name.as_str().as_bytes();
        let mut name_buff = [0u8; 128];
        let mut i: usize = 0;
        while i < name.len()
            invariant
                i <= name@.len() < 128,
                forall|k: int| 0 <= k < i ==> name_buff@[k] == name@[k],
                forall|k: int| i <= k < 128 ==> name_buff@[k] == 0,
            decreases name@.len() - i,
        {
            name_buff[i] = name[i];
            i += 1;
        }
        assert(name_buff@ =~= CertificateHashStore::name_field(name@));
        CertificateHashStore { flags: flags.bits(), sha_hash: hash, store_name: name_buff }
    }

    /// The bits of the flags.
    pub fn flag_bits(&self) -> (bits: u32)
        ensures
            bits == self.flags(),
    {
        self.flags
    }

    /// The bytes of the hash.
    pub fn hash_bytes(&self) -> (hash: [u8; 20])
        ensures
            hash@ == self.sha_hash(),
    {
        self.sha_hash
    }

    /// The field that holds the store's name.
    pub fn name_bytes(&self) -> (name: [u8; 128])
        ensures
            name@ == self.store_name(),
    {
        self.store_name
    }
}

/// The native structure of the file paths of a certificate, as a description
/// that borrows from its owner: each path with its terminating zero.
#[derive(Debug, Clone, Copy)]
pub struct RawCertificateFile<'a> {
    pub private_key_file: &'a [u8],
    pub certificate_file: &'a [u8],
}

/// The file paths of a certificate.
#[derive(Debug)]
pub struct CertificateFile {
    private_key_file: NulString,
    certificate_file: NulString,
}

impl CertificateFile {
    /// The bytes of the path of the private key.
    pub closed spec fn private_key_file(&self) -> Seq<u8> {
        self.private_key_file@
    }

    /// The bytes of the path of the certificate.
    pub closed spec fn certificate_file(&self) -> Seq<u8> {
        self.certificate_file@
    }

    /// The two paths, neither of which may hold a zero byte.
    pub fn new(private_key_file: String, certificate_file: String) -> (made: Self)
        requires
            !text_bytes(private_key_file@).contains(0u8),
            !text_bytes(certificate_file@).contains(0u8),
        ensures
            made.private_key_file() == text_bytes(private_key_file@),
            made.certificate_file() == text_bytes(certificate_file@),
    {
        let key = NulString::new(private_key_file.as_str());
        let cert = NulString::new(certificate_file.as_str());
        CertificateFile { private_key_file: key.unwrap(), certificate_file: cert.unwrap() }
    }

    /// Describes the native structure.
    pub fn as_ffi_ref(&self) -> (raw: RawCertificateFile<'_>)
        ensures
            raw.private_key_file@ == self.private_key_file().push(0u8),
            raw.certificate_file@ == self.certificate_file().push(0u8),
    {
        RawCertificateFile {
            private_key_file: self.private_key_file.as_bytes_with_nul(),
            certificate_file: self.certificate_file.as_bytes_with_nul(),
        }
    }
}

/// The native structure of the file paths of a protected certificate, as a
/// description that borrows from its owner: each text with its terminating
/// zero.
#[derive(Debug, Clone, Copy)]
pub struct RawCertificateFileProtected<'a> {
    pub private_key_file: &'a [u8],
    pub certificate_file: &'a [u8],
    pub private_key_password: &'a [u8],
}

/// The file paths of a protected certificate, and the password of its key.
#[derive(Debug)]
pub struct CertificateFileProtected {
    private_key_file: NulString,
    certificate_file: NulString,
    private_key_password: NulString,
}

impl CertificateFileProtected {
    /// The bytes of the path of the private key.
    pub closed spec fn private_key_file(&self) -> Seq<u8> {
        self.private_key_file@
    }

    /// The bytes of the path of the certificate.
    pub closed spec fn certificate_file(&self) -> Seq<u8> {
        self.certificate_file@
    }

    /// The bytes of the password of the private key.
    pub closed spec fn private_key_password(&self) -> Seq<u8> {
        self.private_key_password@
    }

    /// The two paths and the password, none of which may hold a zero byte.
    pub fn new(
        private_key_file: String,
        certificate_file: String,
        private_key_password: String,
    ) -> (made: Self)
        requires
            !text_bytes(private_key_file@).contains(0u8),
            !text_bytes(certificate_file@).contains(0u8),
            !text_bytes(private_key_password@).contains(0u8),
        ensures
            made.private_key_file() == text_bytes(private_key_file@),
            made.certificate_file() == text_bytes(certificate_file@),
            made.private_key_password() == text_bytes(private_key_password@),
    {
        let key = NulString::new(private_key_file.as_str());
        let cert = NulString::new(certificate_file.as_str());
        let pwd = NulString::new(private_key_password.as_str());
        CertificateFileProtected {
            private_key_file: key.unwrap(),
            certificate_file: cert.unwrap(),
            private_key_password: pwd.unwrap(),
        }
    }

    /// Describes the native structure.
    pub fn as_ffi_ref(&self) -> (raw: RawCertificateFileProtected<'_>)
        ensures
            raw.private_key_file@ == self.private_key_file().push(0u8),
            raw.certificate_file@ == self.certificate_file().push(0u8),
            raw.private_key_password@ == self.private_key_password().push(0u8),
    {
        RawCertificateFileProtected {
            private_key_file: self.private_key_file.as_bytes_with_nul(),
            certificate_file: self.certificate_file.as_bytes_with_nul(),
            private_key_password: self.private_key_password.as_bytes_with_nul(),
        }
    }
}

/// The native structure of a PKCS#12 certificate, as a description that
/// borrows from its owner.
#[derive(Debug, Clone, Copy)]
pub struct RawCertificatePkcs12<'a> {
    /// The binary blob.
    pub asn1_blob: &'a [u8],
    /// The length of the blob, as the native 32-bit length field holds it.
    pub asn1_blob_length: u32,
    /// The password with its terminating zero, or nothing for a null pointer.
    pub private_key_password: Option<&'a [u8]>,
}

/// The binary blob of a PKCS#12 certificate, and the password of its key.
#[derive(Debug)]
pub struct CertificatePkcs12 {
    asn1_blob: Vec<u8>,
    private_key_password: Option<NulString>,
}

impl CertificatePkcs12 {
    /// The bytes of the blob.
    pub closed spec fn asn1_blob(&self) -> Seq<u8> {
        self.asn1_blob@
    }

    /// The bytes of the password, if there is one.
    pub closed spec fn private_key_password(&self) -> Option<Seq<u8>> {
        match self.private_key_password {
            Some(password) => Some(password@),
            None => None,
        }
    }

    /// The blob and the password of its key.
    pub fn new(asn1_blob: Vec<u8>, private_key_password: Option<NulString>) -> (made: Self)
        ensures
            made.asn1_blob() == asn1_blob@,
            made.private_key_password() == (match private_key_password {
                Some(password) => Some(password@),
                None => None,
            }),
    {
        CertificatePkcs12 { asn1_blob, private_key_password }
    }

    /// Describes the native structure.
    pub fn as_ffi_ref(&self) -> (raw: RawCertificatePkcs12<'_>)
        ensures
            raw.asn1_blob@ == self.asn1_blob(),
            raw.asn1_blob_length == native_length(self.asn1_blob().len()),
            is_native_text(raw.private_key_password, self.private_key_password()),
    {
        let length: u64 = (self.asn1_blob.len() as u64) % 0x1_0000_0000;
        RawCertificatePkcs12 {
            asn1_blob: self.asn1_blob.as_slice(),
            asn1_blob_length: length as u32,
            private_key_password: match &self.private_key_password {
                Some(password) => Some(password.as_bytes_with_nul()),
                None => None,
            },
        }
    }
}

/// The native integer of the credential type of no credential.
pub const CREDENTIAL_TYPE_NONE: u32 = 0;

/// The native integer of the credential type of a certificate hash.
pub const CREDENTIAL_TYPE_CERTIFICATE_HASH: u32 = 1;

/// The native integer of the credential type of a certificate hash and store.
pub const CREDENTIAL_TYPE_CERTIFICATE_HASH_STORE: u32 = 2;

/// The native integer of the credential type of a certificate context.
pub const CREDENTIAL_TYPE_CERTIFICATE_CONTEXT: u32 = 3;

/// The native integer of the credential type of certificate files.
pub const CREDENTIAL_TYPE_CERTIFICATE_FILE: u32 = 4;

/// The native integer of the credential type of protected certificate files.
pub const CREDENTIAL_TYPE_CERTIFICATE_FILE_PROTECTED: u32 = 5;

/// The native integer of the credential type of a PKCS#12 certificate.
pub const CREDENTIAL_TYPE_CERTIFICATE_PKCS12: u32 = 6;

/// Type of credentials used for a connection.
#[derive(Debug)]
pub enum Credential {
    /// No credential: what a client has.
    NoCredential,
    /// Schannel only.
    CertificateHash(CertificateHash),
    /// Schannel only.
    CertificateHashStore(CertificateHashStore),
    /// A certificate context of the platform, by its address.
    CertificateContext(usize),
    CertificateFile(CertificateFile),
    CertificateFileProtected(CertificateFileProtected),
    CertificatePkcs12(CertificatePkcs12),
}

impl Credential {
    /// The native integer of the type of this credential.
    pub open spec fn type_of(&self) -> u32 {
        match self {
            Credential::NoCredential => CREDENTIAL_TYPE_NONE,
            Credential::CertificateHash(_) => CREDENTIAL_TYPE_CERTIFICATE_HASH,
            Credential::CertificateHashStore(_) => CREDENTIAL_TYPE_CERTIFICATE_HASH_STORE,
            Credential::CertificateContext(_) => CREDENTIAL_TYPE_CERTIFICATE_CONTEXT,
            Credential::CertificateFile(_) => CREDENTIAL_TYPE_CERTIFICATE_FILE,
            Credential::CertificateFileProtected(_) => CREDENTIAL_TYPE_CERTIFICATE_FILE_PROTECTED,
            Credential::CertificatePkcs12(_) => CREDENTIAL_TYPE_CERTIFICATE_PKCS12,
        }
    }
}

impl Default for Credential {
    fn default() -> (credential: Self)
        ensures
            credential is NoCredential,
    {
        Credential::NoCredential
    }
}

/// What the certificate field of the native credential configuration points
/// to: nothing, or the native structure of the credential's type.
#[derive(Debug, Clone, Copy)]
pub enum RawCertificate<'a> {
    /// A null pointer.
    Null,
    Hash(&'a CertificateHash),
    HashStore(&'a CertificateHashStore),
    Context(usize),
    File(RawCertificateFile<'a>),
    FileProtected(RawCertificateFileProtected<'a>),
    Pkcs12(RawCertificatePkcs12<'a>),
}

impl<'a> RawCertificate<'a> {
    /// Whether this is the native form of `credential`.
    pub open spec fn describes(self, credential: &Credential) -> bool {
        match (self, credential) {
            (RawCertificate::Null, Credential::NoCredential) => true,
            (RawCertificate::Hash(raw), Credential::CertificateHash(hash)) => raw == hash,
            (RawCertificate::HashStore(raw), Credential::CertificateHashStore(store)) => raw
                == store,
            (RawCertificate::Context(raw), Credential::CertificateContext(context)) => raw
                == context,
            (RawCertificate::File(raw), Credential::CertificateFile(file)) => {
                &&& raw.private_key_file@ == file.private_key_file().push(0u8)
                &&& raw.certificate_file@ == file.certificate_file().push(0u8)
            },
            (RawCertificate::FileProtected(raw), Credential::CertificateFileProtected(file)) => {
                &&& raw.private_key_file@ == file.private_key_file().push(0u8)
                &&& raw.certificate_file@ == file.certificate_file().push(0u8)
                &&& raw.private_key_password@ == file.private_key_password().push(0u8)
            },
            (RawCertificate::Pkcs12(raw), Credential::CertificatePkcs12(certificate)) => {
                &&& raw.asn1_blob@ == certificate.asn1_blob()
                &&& raw.asn1_blob_length == native_length(certificate.asn1_blob().len())
                &&& is_native_text(raw.private_key_password, certificate.private_key_password())
            },
            _ => false,
        }
    }
}

/// The native credential configuration, as a description that borrows from
/// its builder.
#[derive(Debug, Clone, Copy)]
pub struct RawCredentialConfig<'a> {
    /// The native integer of the credential's type.
    pub cred_type: u32,
    /// The bits of the credential flags.
    pub flags: u32,
    /// What the certificate field points to.
    pub certificate: RawCertificate<'a>,
    /// The principal with its terminating zero, or nothing for a null pointer.
    pub principal: Option<&'a [u8]>,
    /// The bits of the allowed cipher suites.
    pub allowed_cipher_suites: u32,
    /// The path of the file of certificate authorities with its terminating
    /// zero, or nothing for a null pointer.
    pub ca_certificate_file: Option<&'a [u8]>,
}

/// Specifies the configuration for a new credential.
#[derive(Debug)]
pub struct CredentialConfig {
    credential_flags: CredentialFlags,
    credential: Credential,
    principal: Option<NulString>,
    allowed_cipher_suites: AllowedCipherSuiteFlags,
    ca_certificate_file: Option<NulString>,
}

impl CredentialConfig {
    /// The bits of the credential flags.
    pub closed spec fn credential_flags(&self) -> u32 {
        self.credential_flags.bits()
    }

    /// The credential.
    pub closed spec fn credential(&self) -> Credential {
        self.credential
    }

    /// The bytes of the principal, if one was set.
    pub closed spec fn principal(&self) -> Option<Seq<u8>> {
        match self.principal {
            Some(principal) => Some(principal@),
            None => None,
        }
    }

    /// The bits of the allowed cipher suites.
    pub closed spec fn allowed_cipher_suites(&self) -> u32 {
        self.allowed_cipher_suites.bits()
    }

    /// The bytes of the path of the file of certificate authorities, if one
    /// was set.
    pub closed spec fn ca_certificate_file(&self) -> Option<Seq<u8>> {
        match self.ca_certificate_file {
            Some(file) => Some(file@),
            None => None,
        }
    }

    /// Whether this configuration is as fresh as `new` makes it: no flag, no
    /// credential, no principal, no cipher suite, no file.
    pub open spec fn is_blank(&self) -> bool {
        &&& self.credential_flags() == 0
        &&& self.credential() is NoCredential
        &&& self.principal() is None
        &&& self.allowed_cipher_suites() == 0
        &&& self.ca_certificate_file() is None
    }

    /// The blank configuration.
    pub fn new() -> (config: Self)
        ensures
            config.is_blank(),
    {
        CredentialConfig {
            credential_flags: CredentialFlags::empty(),
            credential: Credential::NoCredential,
            principal: None,
            allowed_cipher_suites: AllowedCipherSuiteFlags::empty(),
            ca_certificate_file: None,
        }
    }

    /// Adds credential flags: flags are additive when set several times.
    pub fn set_credential_flags(self, value: CredentialFlags) -> (config: Self)
        ensures
            config.credential_flags() == self.credential_flags() | value.bits(),
            config.credential() == self.credential(),
            config.principal() == self.principal(),
            config.allowed_cipher_suites() == self.allowed_cipher_suites(),
            config.ca_certificate_file() == self.ca_certificate_file(),
    {
        let mut config = self;
        config.credential_flags = config.credential_flags.union(value);
        config
    }

    /// Sets the credential, in place of the one set before.
    pub fn set_credential(self, value: Credential) -> (config: Self)
        ensures
            config.credential_flags() == self.credential_flags(),
            config.credential() == value,
            config.principal() == self.principal(),
            config.allowed_cipher_suites() == self.allowed_cipher_suites(),
            config.ca_certificate_file() == self.ca_certificate_file(),
    {
        let mut config = self;
        config.credential = value;
        config
    }

    /// Sets the principal, which must hold no zero byte.
    pub fn set_principal(self, value: String) -> (config: Self)
        requires
            !text_bytes(value@).contains(0u8),
        ensures
            config.credential_flags() == self.credential_flags(),
            config.credential() == self.credential(),
            config.principal() == Some(text_bytes(value@)),
            config.allowed_cipher_suites() == self.allowed_cipher_suites(),
            config.ca_certificate_file() == self.ca_certificate_file(),
    {
        let mut config = self;
        config.principal = NulString::new(value.as_str());
        config
    }

    /// Sets the allowed cipher suites, and the flag that says that they are
    /// set.
    pub fn set_allowed_cipher_suites(self, value: AllowedCipherSuiteFlags) -> (config: Self)
        ensures
            config.credential_flags() == self.credential_flags()
                | CREDENTIAL_FLAG_SET_ALLOWED_CIPHER_SUITES,
            config.credential() == self.credential(),
            config.principal() == self.principal(),
            config.allowed_cipher_suites() == value.bits(),
            config.ca_certificate_file() == self.ca_certificate_file(),
    {
        let mut config = self;
        config.credential_flags = config.credential_flags.union(
            CredentialFlags::from_bits_retain(CREDENTIAL_FLAG_SET_ALLOWED_CIPHER_SUITES),
        );
        config.allowed_cipher_suites = value;
        config
    }

    /// Sets the path of the file of certificate authorities, which must hold
    /// no zero byte, and the flag that says that it is set.
    pub fn set_ca_certificate_file(self, value: String) -> (config: Self)
        requires
            !text_bytes(value@).contains(0u8),
        ensures
            config.credential_flags() == self.credential_flags()
                | CREDENTIAL_FLAG_SET_CA_CERTIFICATE_FILE,
            config.credential() == self.credential(),
            config.principal() == self.principal(),
            config.allowed_cipher_suites() == self.allowed_cipher_suites(),
            config.ca_certificate_file() == Some(text_bytes(value@)),
    {
        let mut config = self;
        config.credential_flags = config.credential_flags.union(
            CredentialFlags::from_bits_retain(CREDENTIAL_FLAG_SET_CA_CERTIFICATE_FILE),
        );
        config.ca_certificate_file = NulString::new(value.as_str());
        config
    }

    /// Describes the native structure: the flags, the type of the credential
    /// and the structure of that type, and each text as a pointer that is
    /// null where the text was not set.
    pub fn as_ffi(&self) -> (raw: RawCredentialConfig<'_>)
        ensures
            raw.flags == self.credential_flags(),
            raw.cred_type == self.credential().type_of(),
            raw.certificate.describes(&self.credential()),
            is_native_text(raw.principal, self.principal()),
            raw.allowed_cipher_suites == self.allowed_cipher_suites(),
            is_native_text(raw.ca_certificate_file, self.ca_certificate_file()),
    {
        let (cred_type, certificate) = match &self.credential {
            Credential::NoCredential => (CREDENTIAL_TYPE_NONE, RawCertificate::Null),
            Credential::CertificateHash(hash) => (
                CREDENTIAL_TYPE_CERTIFICATE_HASH,
                RawCertificate::Hash(hash),
            ),
            Credential::CertificateHashStore(hash) => (
                CREDENTIAL_TYPE_CERTIFICATE_HASH_STORE,
                RawCertificate::HashStore(hash),
            ),
            Credential::CertificateContext(ctx) => (
                CREDENTIAL_TYPE_CERTIFICATE_CONTEXT,
                RawCertificate::Context(*ctx),
            ),
            Credential::CertificateFile(file) => (
                CREDENTIAL_TYPE_CERTIFICATE_FILE,
                RawCertificate::File(file.as_ffi_ref()),
            ),
            Credential::CertificateFileProtected(file) => (
                CREDENTIAL_TYPE_CERTIFICATE_FILE_PROTECTED,
                RawCertificate::FileProtected(file.as_ffi_ref()),
            ),
            Credential::CertificatePkcs12(cert) => (
                CREDENTIAL_TYPE_CERTIFICATE_PKCS12,
                RawCertificate::Pkcs12(cert.as_ffi_ref()),
            ),
        };
        RawCredentialConfig {
            cred_type,
            flags: self.credential_flags.bits(),
            certificate,
            principal: match &self.principal {
                Some(principal) => Some(principal.as_bytes_with_nul()),
                None => None,
            },
            allowed_cipher_suites: self.allowed_cipher_suites.bits(),
            ca_certificate_file: match &self.ca_certificate_file {
                Some(file) => Some(file.as_bytes_with_nul()),
                None => None,
            },
        }
    }

    /// The configuration of a client: the client flag and no credential.
    pub fn new_client() -> (config: Self)
        ensures
            config.credential_flags() == CREDENTIAL_FLAG_CLIENT,
            config.credential() is NoCredential,
            config.principal() is None,
            config.allowed_cipher_suites() == 0,
            config.ca_certificate_file() is None,
    {
        let config = CredentialConfig::new().set_credential_flags(
            CredentialFlags::from_bits_retain(CREDENTIAL_FLAG_CLIENT),
        ).set_credential(Credential::NoCredential);
        assert(0u32 | 1u32 == 1u32) by (bit_vector);
        config
    }
}

impl Default for CredentialConfig {
    fn default() -> (config: Self)
        ensures
            config.is_blank(),
    {
        CredentialConfig::new()
    }
}

/// The hex string of a hash stands for that hash: reading back what
/// `to_hex_string` wrote gives the bytes that it was written from.
pub proof fn lemma_hash_text_round_trip(hash: Seq<u8>, text: Seq<char>)
    requires
        hash.len() == 20,
        text == upper_hex_bytes(hash),
    ensures
        decoded_hash(text_bytes(text)) == Some(hash),
{
    assert(vstd::utf8::is_ascii_chars(text)) by {
        assert forall|i: int| 0 <= i < text.len() implies '\0' <= #[trigger] text[i]
            <= '\u{7f}' by {
            let byte = hash[i / 2];
            assert(byte / 16 < 16 && byte % 16 < 16);
        }
    }
    vstd::utf8::is_ascii_chars_encode_utf8(text);
    let bytes = text_bytes(text);
    assert(bytes.len() == 40);
    assert forall|i: int| 0 <= i < 20 implies (#[trigger] hex_pair_value(
        bytes[2 * i],
        bytes[2 * i + 1],
    )) == Some(hash[i]) by {
        let byte = hash[i];
        assert(text[2 * i] == upper_hex_char(byte / 16));
        assert(text[2 * i + 1] == upper_hex_char(byte % 16));
        assert(bytes[2 * i] == text[2 * i] as u8);
        assert(bytes[2 * i + 1] == text[2 * i + 1] as u8);
        assert(byte == (byte / 16) * 16 + byte % 16);
    }
    assert(decoded_hash(bytes).unwrap() =~= hash);
}

/// Whether `digit` is a decimal digit or one of the letters A to F in upper
/// case.
pub open spec fn is_upper_hex_digit(digit: char) -> bool {
    ('0' <= digit <= '9') || ('A' <= digit <= 'F')
}

/// A hash that was read from forty upper-case hexadecimal digits is written
/// back as the same forty digits.
pub proof fn lemma_upper_hex_text_is_canonical(text: Seq<char>)
    requires
        text.len() == 40,
        forall|i: int| 0 <= i < 40 ==> is_upper_hex_digit(#[trigger] text[i]),
    ensures
        decoded_hash(text_bytes(text)) is Some,
        upper_hex_bytes(decoded_hash(text_bytes(text)).unwrap()) == text,
{
    assert(vstd::utf8::is_ascii_chars(text)) by {
        assert forall|i: int| 0 <= i < text.len() implies '\0' <= #[trigger] text[i]
            <= '\u{7f}' by {
            assert(is_upper_hex_digit(text[i]));
        }
    }
    vstd::utf8::is_ascii_chars_encode_utf8(text);
    let bytes = text_bytes(text);
    assert forall|k: int| 0 <= k < 40 implies {
        &&& hex_digit_value(#[trigger] bytes[k]) is Some
        &&& hex_digit_value(bytes[k]).unwrap() < 16
        &&& upper_hex_char(hex_digit_value(bytes[k]).unwrap()) == text[k]
        &&& bytes[k] != 43
    } by {
        assert(is_upper_hex_digit(text[k]));
        assert(bytes[k] == text[k] as u8);
    }
    assert forall|i: int| 0 <= i < 20 implies (#[trigger] hex_pair_value(
        bytes[2 * i],
        bytes[2 * i + 1],
    )) is Some by {
        assert(hex_digit_value(bytes[2 * i]) is Some);
        assert(hex_digit_value(bytes[2 * i + 1]) is Some);
    }
    let hash = decoded_hash(bytes).unwrap();
    assert forall|k: int| 0 <= k < 40 implies upper_hex_bytes(hash)[k] == text[k] by {
        let i = k / 2;
        let high = hex_digit_value(bytes[2 * i]).unwrap();
        let low = hex_digit_value(bytes[2 * i + 1]).unwrap();
        assert(hex_digit_value(bytes[2 * i]) is Some);
        assert(hex_digit_value(bytes[2 * i + 1]) is Some);
        assert(hash[i] == hex_pair_value(bytes[2 * i], bytes[2 * i + 1]).unwrap());
        assert(hash[i] == high * 16 + low);
        assert(hash[i] / 16 == high && hash[i] % 16 == low);
        if k % 2 == 0 {
            assert(k == 2 * i);
        } else {
            assert(k == 2 * i + 1);
        }
    }
    assert(upper_hex_bytes(hash) =~= text);
}

} // verus!
