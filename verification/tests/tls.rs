use rdp_screenshot::tls::{
    aligned_key_bytes, extract_tls_server_public_key, server_public_key, tls_server_name,
    tls_settings, KeyBits, NoCertificateVerification, SignatureScheme, TlsError,
};

/// A certificate for an eight byte key.
const CERTIFICATE: [u8; 123] = [
    0x30, 0x79, 0x30, 0x65, 0xa0, 0x03, 0x02, 0x01, 0x02, 0x02, 0x01, 0x01, 0x30, 0x05, 0x06, 0x03,
    0x2b, 0x65, 0x70, 0x30, 0x0f, 0x31, 0x0d, 0x30, 0x0b, 0x06, 0x03, 0x55, 0x04, 0x03, 0x0c, 0x04,
    0x68, 0x6f, 0x73, 0x74, 0x30, 0x1e, 0x17, 0x0d, 0x32, 0x34, 0x30, 0x31, 0x30, 0x31, 0x30, 0x30,
    0x30, 0x30, 0x30, 0x30, 0x5a, 0x17, 0x0d, 0x33, 0x34, 0x30, 0x31, 0x30, 0x31, 0x30, 0x30, 0x30,
    0x30, 0x30, 0x30, 0x5a, 0x30, 0x0f, 0x31, 0x0d, 0x30, 0x0b, 0x06, 0x03, 0x55, 0x04, 0x03, 0x0c,
    0x04, 0x68, 0x6f, 0x73, 0x74, 0x30, 0x12, 0x30, 0x05, 0x06, 0x03, 0x2b, 0x65, 0x70, 0x03, 0x09,
    0x00, 0x01, 0x02, 0x03, 0x04, 0x05, 0x06, 0x07, 0x08, 0x30, 0x05, 0x06, 0x03, 0x2b, 0x65, 0x70,
    0x03, 0x09, 0x00, 0x00, 0x00, 0x00, 0x00, 0x00, 0x00, 0x00, 0x00,
];

/// Where the certificate says how many bits of its key do not count.
const UNUSED_BITS: usize = 96;

#[test]
fn key_of_a_certificate() {
    let key = extract_tls_server_public_key(&CERTIFICATE).unwrap();
    assert_eq!(key, [1, 2, 3, 4, 5, 6, 7, 8]);
}

#[test]
fn key_that_is_not_aligned() {
    let mut certificate = CERTIFICATE;
    certificate[UNUSED_BITS] = 3;
    assert!(matches!(
        extract_tls_server_public_key(&certificate),
        Err(TlsError::UnalignedPublicKey)
    ));
}

#[test]
fn bytes_that_are_no_certificate() {
    assert!(matches!(extract_tls_server_public_key(&[]), Err(TlsError::InvalidCertificate(_))));
    assert!(matches!(
        extract_tls_server_public_key(&CERTIFICATE[..122]),
        Err(TlsError::InvalidCertificate(_))
    ));
    let mut longer = CERTIFICATE.to_vec();
    longer.push(0);
    assert!(matches!(extract_tls_server_public_key(&longer), Err(TlsError::InvalidCertificate(_))));
}

#[test]
fn aligned_bits_are_bytes() {
    let key = KeyBits { bytes: vec![9, 8, 7], unused_bits: 0 };
    assert_eq!(aligned_key_bytes(key).unwrap(), [9, 8, 7]);
    let key = KeyBits { bytes: vec![9, 8, 0], unused_bits: 7 };
    assert!(matches!(aligned_key_bytes(key), Err(TlsError::UnalignedPublicKey)));
}

#[test]
fn first_certificate_counts() {
    let certificates = vec![CERTIFICATE.to_vec(), vec![1, 2, 3]];
    assert_eq!(server_public_key(Some(&certificates)).unwrap(), [1, 2, 3, 4, 5, 6, 7, 8]);
    let certificates = vec![vec![1, 2, 3], CERTIFICATE.to_vec()];
    assert!(matches!(
        server_public_key(Some(&certificates)),
        Err(TlsError::InvalidCertificate(_))
    ));
}

#[test]
fn server_without_a_certificate() {
    assert!(matches!(server_public_key(None), Err(TlsError::MissingPeerCertificate)));
    assert!(matches!(server_public_key(Some(&[])), Err(TlsError::MissingPeerCertificate)));
}

#[test]
fn server_names() {
    assert_eq!(
        tls_server_name("host.example.com".to_owned()).unwrap().to_str(),
        "host.example.com"
    );
    assert_eq!(tls_server_name("192.0.2.1".to_owned()).unwrap().to_str(), "192.0.2.1");
    assert!(matches!(
        tls_server_name("not a host".to_owned()),
        Err(TlsError::InvalidServerName(_))
    ));
    assert!(matches!(tls_server_name(String::new()), Err(TlsError::InvalidServerName(_))));
}

#[test]
fn settings_of_the_client() {
    let settings = tls_settings();
    assert!(!settings.verify_server);
    assert!(!settings.client_certificate);
    assert!(settings.log_keys);
    assert!(!settings.resumption);
}

#[test]
fn schemes_in_their_order() {
    assert_eq!(
        NoCertificateVerification.supported_verify_schemes(),
        [
            SignatureScheme::RSA_PKCS1_SHA1,
            SignatureScheme::ECDSA_SHA1_Legacy,
            SignatureScheme::RSA_PKCS1_SHA256,
            SignatureScheme::ECDSA_NISTP256_SHA256,
            SignatureScheme::RSA_PKCS1_SHA384,
            SignatureScheme::ECDSA_NISTP384_SHA384,
            SignatureScheme::RSA_PKCS1_SHA512,
            SignatureScheme::ECDSA_NISTP521_SHA512,
            SignatureScheme::RSA_PSS_SHA256,
            SignatureScheme::RSA_PSS_SHA384,
            SignatureScheme::RSA_PSS_SHA512,
            SignatureScheme::ED25519,
            SignatureScheme::ED448,
        ]
    );
}
