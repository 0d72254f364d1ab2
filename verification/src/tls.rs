//! The TLS layer under a connection.
//!
//! The connection is not protected by a chain of trust: the server is accepted
//! whatever certificate it shows. What protects it is the authentication that
//! follows, which is bound to the public key of the certificate that the
//! server showed.

use tokio_rustls::rustls::pki_types::InvalidDnsNameError;
use tokio_rustls::rustls::pki_types::ServerName;
use vstd::prelude::*;
use x509_cert::der::Decode as _;

verus! {

/// The name of a TLS server: a host name or an address.
#[verifier::external_type_specification]
#[verifier::external_body]
pub struct ExServerName<'a>(tokio_rustls::rustls::pki_types::ServerName<'a>);

/// A text is no server name.
#[verifier::external_type_specification]
#[verifier::external_body]
pub struct ExInvalidDnsNameError(tokio_rustls::rustls::pki_types::InvalidDnsNameError);

/// Bytes are not the encoding that was asked for.
#[verifier::external_type_specification]
#[verifier::external_body]
pub struct ExDerError(x509_cert::der::Error);

/// Why the TLS layer could not be set up.
#[derive(Debug)]
pub enum TlsError {
    /// The host to connect to is not a name for a TLS server.
    InvalidServerName(InvalidDnsNameError),
    /// The server showed no certificate.
    MissingPeerCertificate,
    /// The certificate of the server cannot be decoded.
    InvalidCertificate(x509_cert::der::Error),
    /// The public key of the server is not a whole number of bytes.
    UnalignedPublicKey,
}

/// How the TLS client behaves.
#[derive(Clone, Copy, Debug, PartialEq, Eq, Structural)]
pub struct TlsSettings {
    /// Whether the certificate of the server has to be trusted.
    pub verify_server: bool,
    /// Whether the client shows a certificate.
    pub client_certificate: bool,
    /// Whether session keys are logged to the file named by `SSLKEYLOGFILE`.
    pub log_keys: bool,
    /// Whether an earlier TLS session may be resumed.
    pub resumption: bool,
}

/// The signature schemes of TLS handshakes.
#[allow(non_camel_case_types)]
#[derive(Clone, Copy, Debug, PartialEq, Eq, Structural)]
pub enum SignatureScheme {
    RSA_PKCS1_SHA1,
    ECDSA_SHA1_Legacy,
    RSA_PKCS1_SHA256,
    ECDSA_NISTP256_SHA256,
    RSA_PKCS1_SHA384,
    ECDSA_NISTP384_SHA384,
    RSA_PKCS1_SHA512,
    ECDSA_NISTP521_SHA512,
    RSA_PSS_SHA256,
    RSA_PSS_SHA384,
    RSA_PSS_SHA512,
    ED25519,
    ED448,
}

/// A public key as a certificate holds it: bytes, of whose last one some bits
/// may not count.
#[derive(Debug)]
pub struct KeyBits {
    pub bytes: Vec<u8>,
    pub unused_bits: u8,
}

impl View for KeyBits {
    type V = (Seq<u8>, u8);

    open spec fn view(&self) -> (Seq<u8>, u8) {
        (self.bytes@, self.unused_bits)
    }
}

/// The subject public key, with its number of unused bits, that
/// `x509_cert::Certificate::from_der` finds in these bytes; nothing where they
/// are no certificate.
pub uninterp spec fn certificate_key(der: Seq<u8>) -> Option<(Seq<u8>, u8)>;

/// The server name that `ServerName::try_from` makes of this text; nothing
/// where it is refused.
pub uninterp spec fn server_name_of(text: Seq<char>) -> Option<ServerName<'static>>;

/// `x509_cert::Certificate::from_der`, and from the certificate the bit string
/// of its subject public key.
#[verifier::external_body]
fn decode_subject_public_key(der: &[u8]) -> (key: Result<KeyBits, x509_cert::der::Error>)
    ensures
        match key {
            Ok(key) => certificate_key(der@) == Some(key@),
            Err(_) => certificate_key(der@) is None,
        },
{
    x509_cert::Certificate::from_der(der).map(
        |certificate| {
            let key = certificate.tbs_certificate.subject_public_key_info.subject_public_key;
            KeyBits { bytes: key.raw_bytes().to_vec(), unused_bits: key.unused_bits() }
        },
    )
}

/// `ServerName::try_from` on a text: a host name or an address.
#[verifier::external_body]
fn parse_server_name(text: String) -> (name: Result<ServerName<'static>, InvalidDnsNameError>)
    ensures
        match name {
            Ok(name) => server_name_of(text@) == Some(name),
            Err(_) => server_name_of(text@) is None,
        },
{
    ServerName::try_from(text)
}

/// The name by which the TLS client addresses the host.
pub fn tls_server_name(host: String) -> (name: Result<ServerName<'static>, TlsError>)
    ensures
        match name {
            Ok(name) => server_name_of(host@) == Some(name),
            Err(TlsError::InvalidServerName(_)) => server_name_of(host@) is None,
            Err(_) => false,
        },
{
    match parse_server_name(host) {
        Ok(name) => Ok(name),
        Err(error) => Err(TlsError::InvalidServerName(error)),
    }
}

/// The bytes of a public key that is a whole number of bytes.
pub fn aligned_key_bytes(key: KeyBits) -> (bytes: Result<Vec<u8>, TlsError>)
    ensures
        match bytes {
            Ok(bytes) => key.unused_bits == 0 && bytes@ == key.bytes@,
            Err(TlsError::UnalignedPublicKey) => key.unused_bits != 0,
            Err(_) => false,
        },
{
    if key.unused_bits == 0 {
        Ok(key.bytes)
    } else {
        Err(TlsError::UnalignedPublicKey)
    }
}

/// What [`extract_tls_server_public_key`] owes for a certificate.
pub open spec fn is_public_key_of(cert: Seq<u8>, key: Result<Vec<u8>, TlsError>) -> bool {
    match key {
        Ok(key) => certificate_key(cert) == Some((key@, 0u8)),
        Err(TlsError::InvalidCertificate(_)) => certificate_key(cert) is None,
        Err(TlsError::UnalignedPublicKey) => certificate_key(cert) matches Some((_, unused_bits))
            && unused_bits != 0,
        Err(_) => false,
    }
}

/// The public key in the certificate of the server.
pub fn extract_tls_server_public_key(cert: &[u8]) -> (key: Result<Vec<u8>, TlsError>)
    ensures
        is_public_key_of(cert@, key),
{
    match decode_subject_public_key(cert) {
        Ok(key) => aligned_key_bytes(key),
        Err(error) => Err(TlsError::InvalidCertificate(error)),
    }
}

/// The public key to which the authentication is bound: that of the first of
/// the certificates that the server showed.
pub fn server_public_key(certificates: Option<&[Vec<u8>]>) -> (key: Result<Vec<u8>, TlsError>)
    ensures
        match certificates {
            Some(certificates) => if certificates@.len() > 0 {
                is_public_key_of(certificates@[0]@, key)
            } else {
                key matches Err(TlsError::MissingPeerCertificate)
            },
            None => key matches Err(TlsError::MissingPeerCertificate),
        },
{
    match certificates {
        Some(certificates) => if certificates.len() > 0 {
            extract_tls_server_public_key(&certificates[0])
        } else {
            Err(TlsError::MissingPeerCertificate)
        },
        None => Err(TlsError::MissingPeerCertificate),
    }
}

/// How the TLS client behaves under a remote desktop connection: it trusts
/// whoever answers, shows no certificate of its own, logs its keys where
/// `SSLKEYLOGFILE` asks for it, and never resumes a session, because the
/// authentication that follows does not support it.
pub fn tls_settings() -> (settings: TlsSettings)
    ensures
        settings == (TlsSettings {
            verify_server: false,
            client_certificate: false,
            log_keys: true,
            resumption: false,
        }),
{
    TlsSettings { verify_server: false, client_certificate: false, log_keys: true, resumption: false }
}

/// The signature schemes that the client accepts, in its order of listing.
pub open spec fn verify_schemes() -> Seq<SignatureScheme> {
    seq![
        SignatureScheme::RSA_PKCS1_SHA1,
        SignatureScheme::ECDSA_SHA1_Legacy,
        SignatureScheme::RSA_PKCS1_SHA256,
        SignatureScheme::ECDSA_NISTP256_SHA256,
        SignatureScheme::RSA_PKCS1_SHA384,
        SignatureScheme::ECDSA_NISTP384_SHA384,
        SignatureScheme::RSA_PKCS1_SHA512,
        SignatureScheme::ECDSA_NISTP521_SHA512,
        SignatureScheme::RSA_PSS_SHA256,
        SignatureScheme::RSA_PSS_SHA384,
        SignatureScheme::RSA_PSS_SHA512,
        SignatureScheme::ED25519,
        SignatureScheme::ED448,
    ]
}

/// The verifier of a client that accepts every server.
#[derive(Clone, Copy, Debug)]
pub struct NoCertificateVerification;

impl NoCertificateVerification {
    /// The signature schemes that the client accepts from a server.
    pub fn supported_verify_schemes(&self) -> (schemes: Vec<SignatureScheme>)
        ensures
            schemes@ == verify_schemes(),
    {
        vec![
            SignatureScheme::RSA_PKCS1_SHA1,
            SignatureScheme::ECDSA_SHA1_Legacy,
            SignatureScheme::RSA_PKCS1_SHA256,
            SignatureScheme::ECDSA_NISTP256_SHA256,
            SignatureScheme::RSA_PKCS1_SHA384,
            SignatureScheme::ECDSA_NISTP384_SHA384,
            SignatureScheme::RSA_PKCS1_SHA512,
            SignatureScheme::ECDSA_NISTP521_SHA512,
            SignatureScheme::RSA_PSS_SHA256,
            SignatureScheme::RSA_PSS_SHA384,
            SignatureScheme::RSA_PSS_SHA512,
            SignatureScheme::ED25519,
            SignatureScheme::ED448,
        ]
    }
}

/// The client accepts every signature scheme, and lists each of them once.
pub proof fn law_verify_schemes_are_all(scheme: SignatureScheme)
    ensures
        verify_schemes().contains(scheme),
        verify_schemes().no_duplicates(),
{
    let schemes = verify_schemes();
    assert(schemes[0] == SignatureScheme::RSA_PKCS1_SHA1);
    assert(schemes[1] == SignatureScheme::ECDSA_SHA1_Legacy);
    assert(schemes[2] == SignatureScheme::RSA_PKCS1_SHA256);
    assert(schemes[3] == SignatureScheme::ECDSA_NISTP256_SHA256);
    assert(schemes[4] == SignatureScheme::RSA_PKCS1_SHA384);
    assert(schemes[5] == SignatureScheme::ECDSA_NISTP384_SHA384);
    assert(schemes[6] == SignatureScheme::RSA_PKCS1_SHA512);
    assert(schemes[7] == SignatureScheme::ECDSA_NISTP521_SHA512);
    assert(schemes[8] == SignatureScheme::RSA_PSS_SHA256);
    assert(schemes[9] == SignatureScheme::RSA_PSS_SHA384);
    assert(schemes[10] == SignatureScheme::RSA_PSS_SHA512);
    assert(schemes[11] == SignatureScheme::ED25519);
    assert(schemes[12] == SignatureScheme::ED448);
}

/// The key bits of a certificate are modelled by the very bytes and number that
/// they hold.
pub proof fn law_key_bits(key: KeyBits)
    ensures
        key@.0 == key.bytes@,
        key@.1 == key.unused_bits,
{
}

/// A public key that is a whole number of bytes is taken as it is, of whatever
/// length, and any other is refused as unaligned.
pub proof fn law_aligned_key_is_kept(key: KeyBits, bytes: Result<Vec<u8>, TlsError>)
    requires
        call_ensures(aligned_key_bytes, (key,), bytes),
    ensures
        key.unused_bits == 0 ==> (bytes matches Ok(bytes) && bytes@ == key.bytes@),
        key.unused_bits != 0 ==> bytes matches Err(TlsError::UnalignedPublicKey),
{
}

/// A certificate gives the very bytes of its public key, of whatever length,
/// where these are whole bytes. It gives nothing where they are not, nor where
/// it cannot be decoded, and says which of the two it was.
pub proof fn law_public_key_is_whole(cert: &[u8], key: Result<Vec<u8>, TlsError>)
    requires
        call_ensures(extract_tls_server_public_key, (cert,), key),
    ensures
        match certificate_key(cert@) {
            Some((bytes, unused_bits)) => if unused_bits == 0 {
                key matches Ok(key) && key@ == bytes
            } else {
                key matches Err(TlsError::UnalignedPublicKey)
            },
            None => key matches Err(TlsError::InvalidCertificate(_)),
        },
{
}

/// The authentication is bound to the key of the first certificate, however many
/// follow: it is the key that the first certificate alone gives. A server that
/// shows none is refused.
pub proof fn law_key_of_first_certificate(
    certificates: Option<&[Vec<u8>]>,
    key: Result<Vec<u8>, TlsError>,
)
    requires
        call_ensures(server_public_key, (certificates,), key),
    ensures
        certificates is None ==> key matches Err(TlsError::MissingPeerCertificate),
        certificates matches Some(shown) ==> shown@.len() == 0 ==> key matches Err(
            TlsError::MissingPeerCertificate,
        ),
        certificates matches Some(shown) ==> shown@.len() > 0 ==> match certificate_key(
            shown@[0]@,
        ) {
            Some((bytes, unused_bits)) => if unused_bits == 0 {
                key matches Ok(key) && key@ == bytes
            } else {
                key matches Err(TlsError::UnalignedPublicKey)
            },
            None => key matches Err(TlsError::InvalidCertificate(_)),
        },
{
}

/// A host is addressed by the server name that it spells, and refused exactly
/// where it spells none.
pub proof fn law_server_name(host: String, name: Result<ServerName<'static>, TlsError>)
    requires
        call_ensures(tls_server_name, (host,), name),
    ensures
        match server_name_of(host@) {
            Some(expected) => name matches Ok(name) && name == expected,
            None => name matches Err(TlsError::InvalidServerName(_)),
        },
{
}

/// The TLS client accepts any server, shows no certificate, logs its keys where
/// asked to, and resumes no session.
pub proof fn law_tls_settings(settings: TlsSettings)
    requires
        call_ensures(tls_settings, (), settings),
    ensures
        !settings.verify_server,
        !settings.client_certificate,
        settings.log_keys,
        !settings.resumption,
{
}

/// Every signature scheme is listed, each of them once.
pub proof fn law_supported_schemes(
    verifier: &NoCertificateVerification,
    schemes: Vec<SignatureScheme>,
    scheme: SignatureScheme,
)
    requires
        call_ensures(NoCertificateVerification::supported_verify_schemes, (verifier,), schemes),
    ensures
        exists|i: int| 0 <= i < schemes@.len() && #[trigger] schemes@[i] == scheme,
        forall|i: int, j: int|
            0 <= i < schemes@.len() && 0 <= j < schemes@.len() && #[trigger] schemes@[i]
                == #[trigger] schemes@[j] ==> i == j,
{
    law_verify_schemes_are_all(scheme);
}

} // verus!
