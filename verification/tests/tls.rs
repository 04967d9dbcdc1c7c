use rdp_client::error::ClientError;
use rdp_client::tls::{
    public_key_of, server_public_key, supported_verify_schemes, SignatureScheme, SubjectPublicKey,
};

fn tlv(tag: u8, contents: &[u8]) -> Vec<u8> {
    assert!(contents.len() < 256);
    let mut encoded = vec![tag];
    if contents.len() > 127 {
        encoded.push(0x81);
    }
    encoded.push(contents.len() as u8);
    encoded.extend_from_slice(contents);
    encoded
}

fn sequence(parts: &[Vec<u8>]) -> Vec<u8> {
    tlv(0x30, &parts.concat())
}

/// A certificate with this public key; the key's last bits may be unused.
fn certificate(unused_bits: u8, key: &[u8]) -> Vec<u8> {
    let bit_string = |unused: u8, octets: &[u8]| tlv(0x03, &[&[unused], octets].concat());
    let rsa = vec![0x2A, 0x86, 0x48, 0x86, 0xF7, 0x0D, 0x01, 0x01, 0x0B];
    let algorithm = || sequence(&[tlv(0x06, &rsa)]);
    let time = || tlv(0x17, b"240101000000Z");
    let certified = sequence(&[
        tlv(0xA0, &tlv(0x02, &[2])),
        tlv(0x02, &[1]),
        algorithm(),
        sequence(&[]),
        sequence(&[time(), time()]),
        sequence(&[]),
        sequence(&[algorithm(), bit_string(unused_bits, key)]),
    ]);
    sequence(&[certified, algorithm(), bit_string(0, &[0])])
}

#[test]
fn the_key_is_taken_from_the_first_certificate() {
    let chain = vec![certificate(0, &[1, 2, 3, 4]), certificate(0, &[9])];
    let key = server_public_key(Some(&chain)).expect("the certificate is valid");
    assert_eq!(key, vec![1, 2, 3, 4]);
}

#[test]
fn a_key_of_broken_bytes_is_invalid() {
    let chain = vec![certificate(4, &[1, 0xF0])];
    assert!(matches!(server_public_key(Some(&chain)), Err(ClientError::PublicKeyInvalid)));
}

#[test]
fn a_certificate_has_to_be_one() {
    let chain = vec![vec![0x30, 0x01]];
    match server_public_key(Some(&chain)) {
        Err(error @ ClientError::CertificateInvalid(_)) => assert!(!error.message().is_empty()),
        other => panic!("unexpected outcome {other:?}"),
    }
}

#[test]
fn a_server_without_a_certificate_is_refused() {
    assert!(matches!(server_public_key(None), Err(ClientError::CertificateMissing)));
    let empty: Vec<Vec<u8>> = Vec::new();
    assert!(matches!(server_public_key(Some(&empty)), Err(ClientError::CertificateMissing)));
}

#[test]
fn a_found_key_is_checked() {
    let whole = SubjectPublicKey { unused_bits: 0, octets: vec![7, 8] };
    assert_eq!(public_key_of(Ok(whole)).expect("the key is whole"), vec![7, 8]);
    let broken = SubjectPublicKey { unused_bits: 1, octets: vec![7, 8] };
    assert!(matches!(public_key_of(Ok(broken)), Err(ClientError::PublicKeyInvalid)));
    match public_key_of(Err(String::from("bad"))) {
        Err(error) => assert_eq!(error.message(), "bad"),
        Ok(key) => panic!("unexpected key {key:?}"),
    }
}

#[test]
fn the_signature_schemes_are_named_in_order() {
    let schemes = supported_verify_schemes();
    assert_eq!(schemes.len(), 13);
    assert_eq!(
        schemes,
        vec![
            SignatureScheme::RSA_PKCS1_SHA1,
            SignatureScheme::ECDSA_SHA1_Legacy,
            SignatureScheme::RSA_PKCS1_SHA256,
            SignatureScheme::ECDSA_NISTP256_SHA256,
            SignatureScheme::RSA_PKCS1_SHA384,
            SignatureScheme::ECDSA_NISTP384_SHA384,
            SignatureScheme::RSA_PKCS1_SHA512,
            SignatureScheme::ECDSA_NISTP521_SHA512,
            SignatureScheme::RSA_PSS_SHA256,
            SignatureScheme::RSA_PSS_SHA384,
            SignatureScheme::RSA_PSS_SHA512,
            SignatureScheme::ED25519,
            SignatureScheme::ED448,
        ]
    );
}
