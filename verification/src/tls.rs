//! The server's identity: the certificate that it shows, and the key in it.
use crate::error::ClientError;
use vstd::prelude::*;
use x509_cert::der::Decode;
use x509_cert::Certificate;

verus! {

/// The signature schemes that the client says it accepts.
#[derive(Debug, Clone, Copy, PartialEq, Eq, Structural)]
#[allow(non_camel_case_types)]
pub enum SignatureScheme {
    RSA_PKCS1_SHA1,
    ECDSA_SHA1_Legacy,
    RSA_PKCS1_SHA256,
    ECDSA_NISTP256_SHA256,
    RSA_PKCS1_SHA384,
    ECDSA_NISTP384_SHA384,
    RSA_PKCS1_SHA512,
    ECDSA_NISTP521_SHA512,
    RSA_PSS_SHA256,
    RSA_PSS_SHA384,
    RSA_PSS_SHA512,
    ED25519,
    ED448,
}

/// The signature schemes that the client says it accepts, in the order in which it names them.
pub open spec fn accepted_schemes() -> Seq<SignatureScheme> {
    seq![
        SignatureScheme::RSA_PKCS1_SHA1,
        SignatureScheme::ECDSA_SHA1_Legacy,
        SignatureScheme::RSA_PKCS1_SHA256,
        SignatureScheme::ECDSA_NISTP256_SHA256,
        SignatureScheme::RSA_PKCS1_SHA384,
        SignatureScheme::ECDSA_NISTP384_SHA384,
        SignatureScheme::RSA_PKCS1_SHA512,
        SignatureScheme::ECDSA_NISTP521_SHA512,
        SignatureScheme::RSA_PSS_SHA256,
        SignatureScheme::RSA_PSS_SHA384,
        SignatureScheme::RSA_PSS_SHA512,
        SignatureScheme::ED25519,
        SignatureScheme::ED448,
    ]
}

/// The signature schemes that the client says it accepts.
pub fn supported_verify_schemes() -> (schemes: Vec<SignatureScheme>)
    ensures
        schemes@ == accepted_schemes(),
{
    vec![
        SignatureScheme::RSA_PKCS1_SHA1,
        SignatureScheme::ECDSA_SHA1_Legacy,
        SignatureScheme::RSA_PKCS1_SHA256,
        SignatureScheme::ECDSA_NISTP256_SHA256,
        SignatureScheme::RSA_PKCS1_SHA384,
        SignatureScheme::ECDSA_NISTP384_SHA384,
        SignatureScheme::RSA_PKCS1_SHA512,
        SignatureScheme::ECDSA_NISTP521_SHA512,
        SignatureScheme::RSA_PSS_SHA256,
        SignatureScheme::RSA_PSS_SHA384,
        SignatureScheme::RSA_PSS_SHA512,
        SignatureScheme::ED25519,
        SignatureScheme::ED448,
    ]
}

/// The public key in a certificate: a string of bits, the last few of which may be unused.
#[derive(Debug)]
pub struct SubjectPublicKey {
    pub unused_bits: u8,
    pub octets: Vec<u8>,
}

/// The contents of a [`SubjectPublicKey`].
pub struct SubjectPublicKeyView {
    pub unused_bits: u8,
    pub octets: Seq<u8>,
}

impl View for SubjectPublicKey {
    type V = SubjectPublicKeyView;

    open spec fn view(&self) -> SubjectPublicKeyView {
        SubjectPublicKeyView { unused_bits: self.unused_bits, octets: self.octets@ }
    }
}

/// The key that `Certificate::from_der` finds in bytes, or the text of its error.
pub uninterp spec fn certificate_key(der: Seq<u8>) -> Result<SubjectPublicKeyView, Seq<char>>;

/// `x509_cert::Certificate::from_der`, of whose result only the bits of the public key are kept.
#[verifier::external_body]
fn parse_certificate(der: &[u8]) -> (key: Result<SubjectPublicKey, String>)
    ensures
        match certificate_key(der@) {
            Ok(bits) => key matches Ok(found) && found@ == bits,
            Err(detail) => key matches Err(told) && told@ == detail,
        },
{
    let certificate = Certificate::from_der(der).map_err(|e| e.to_string())?;
    let bits = certificate.tbs_certificate.subject_public_key_info.subject_public_key;
    Ok(SubjectPublicKey { unused_bits: bits.unused_bits(), octets: bits.raw_bytes().to_vec() })
}

impl SubjectPublicKey {
    /// The bytes of the key, if it is a whole number of them.
    pub fn into_bytes(self) -> (bytes: Option<Vec<u8>>)
        ensures
            self.unused_bits == 0 ==> bytes == Some(self.octets),
            self.unused_bits != 0 ==> bytes is None,
    {
        if self.unused_bits != 0 {
            None
        } else {
            Some(self.octets)
        }
    }
}

/// What comes of the key that was found in the server's certificate.
pub open spec fn is_key_of(
    key: Result<Vec<u8>, ClientError>,
    found: Result<SubjectPublicKeyView, Seq<char>>,
) -> bool {
    match found {
        Ok(bits) => if bits.unused_bits == 0 {
            key matches Ok(bytes) && bytes@ == bits.octets
        } else {
            key matches Err(ClientError::PublicKeyInvalid)
        },
        Err(detail) => key matches Err(ClientError::CertificateInvalid(told)) && told@ == detail,
    }
}

/// The bytes of the key that was found in the server's certificate.
pub fn public_key_of(found: Result<SubjectPublicKey, String>) -> (key: Result<
    Vec<u8>,
    ClientError,
>)
    ensures
        is_key_of(
            key,
            match found {
                Ok(bits) => Ok(bits@),
                Err(detail) => Err(detail@),
            },
        ),
        found matches Ok(bits) ==> (key is Ok <==> bits.unused_bits == 0),
        found matches Ok(bits) ==> (key is Ok ==> key->Ok_0@ == bits.octets@),
        found matches Ok(bits) ==> (key is Err ==> key->Err_0 is PublicKeyInvalid),
        found matches Err(detail) ==> key is Err && key->Err_0 is CertificateInvalid
            && key->Err_0->CertificateInvalid_0@ == detail@,
{
    match found {
        Ok(bits) => match bits.into_bytes() {
            Some(bytes) => Ok(bytes),
            None => Err(ClientError::PublicKeyInvalid),
        },
        Err(detail) => Err(ClientError::CertificateInvalid(detail)),
    }
}

/// The public key of the server, which shows its own certificate first. The certificates are
/// given in their encoded form; `None` stands for a server that has shown none at all.
pub fn server_public_key(certificates: Option<&Vec<Vec<u8>>>) -> (key: Result<
    Vec<u8>,
    ClientError,
>)
    ensures
        match certificates {
            Some(chain) if chain@.len() > 0 => is_key_of(key, certificate_key(chain@[0]@)),
            _ => key matches Err(ClientError::CertificateMissing),
        },
{
    match certificates {
        Some(chain) => {
            if chain.len() == 0 {
                return Err(ClientError::CertificateMissing);
            }
            public_key_of(parse_certificate(chain[0].as_slice()))
        },
        None => Err(ClientError::CertificateMissing),
    }
}

/// A key is handed on as it was found if it is a whole number of bytes, and refused otherwise; the
/// error of a certificate that could not be read is passed on with its text.
pub proof fn a_key_is_a_whole_number_of_bytes(
    key: Result<Vec<u8>, ClientError>,
    found: Result<SubjectPublicKeyView, Seq<char>>,
)
    requires
        is_key_of(key, found),
    ensures
        key is Ok <==> found is Ok && found->Ok_0.unused_bits == 0,
        key is Ok ==> key->Ok_0@ == found->Ok_0.octets,
        found is Ok && key is Err ==> key->Err_0 is PublicKeyInvalid,
        found is Err ==> key->Err_0 is CertificateInvalid && key->Err_0->CertificateInvalid_0@
            == found->Err_0,
{
}

/// The view of a key holds what the key holds.
pub proof fn key_views_are_faithful(key: SubjectPublicKey)
    ensures
        key@.unused_bits == key.unused_bits,
        key@.octets == key.octets@,
{
}

/// The client names thirteen signature schemes, none of them twice.
pub proof fn no_scheme_is_named_twice(i: int, j: int)
    ensures
        accepted_schemes().len() == 13,
        0 <= i < j < 13 ==> accepted_schemes()[i] != accepted_schemes()[j],
{
}

} // verus!
