//! The self-signed certificate that the server role presents.
//!
//! Certificate and key are held as their DER encodings. The key carries the
//! format that its first bytes announce, so that it can be handed to the TLS
//! stack in the right wrapping.

use crate::error::ErrorKind;
use crate::error::TunnelError;
use vstd::prelude::*;

verus! {

/// The encodings of a private key that are told apart.
#[derive(Clone, Copy, Debug, PartialEq, Eq, Structural)]
pub enum KeyFormat {
    /// An RSA private key as of PKCS#1.
    Pkcs1,
    /// An elliptic-curve private key as of SEC1.
    Sec1,
    /// A private key of any algorithm as of PKCS#8.
    Pkcs8,
}

/// A private key: its DER encoding and the format of that encoding.
#[derive(Clone, Debug, PartialEq, Eq)]
pub struct PrivateKey {
    pub format: KeyFormat,
    pub der: Vec<u8>,
}

/// Where the content of the outer DER sequence of `der` starts: after the
/// tag, the first length byte and as many further length bytes as the first
/// one announces.
pub open spec fn key_body_offset(der: Seq<u8>) -> int {
    if der[1] >= 128 {
        2 + (der[1] - 128)
    } else {
        2
    }
}

/// The format that the first bytes of a DER-encoded private key announce.
/// Every format is a sequence that starts with a version, an integer of one
/// byte. In PKCS#8 a sequence follows the version; otherwise version 0 is
/// PKCS#1 and version 1 is SEC1.
pub open spec fn key_format(der: Seq<u8>) -> Option<KeyFormat> {
    if der.len() < 2 || der[0] != 0x30 || key_body_offset(der) > der.len() {
        None
    } else {
        let body = der.skip(key_body_offset(der));
        if body.len() >= 4 && body[0] == 0x02 && body[1] == 0x01 && body[3] == 0x30 {
            Some(KeyFormat::Pkcs8)
        } else if body.len() >= 3 && body[0] == 0x02 && body[1] == 0x01 && body[2] == 0x00 {
            Some(KeyFormat::Pkcs1)
        } else if body.len() >= 3 && body[0] == 0x02 && body[1] == 0x01 && body[2] == 0x01 {
            Some(KeyFormat::Sec1)
        } else {
            None
        }
    }
}

/// `rcgen::Error`, the error of the certificate generator. Nothing is known
/// of a value but that it can be displayed.
#[verifier::external_type_specification]
#[verifier::external_body]
pub struct ExCertificateError(rcgen::Error);

/// `rcgen::generate_simple_self_signed`, with the certificate and the key
/// pair that it made read out as DER by `Certificate::der` and
/// `KeyPair::serialize_der`. The key pair is drawn at random, so nothing is
/// claimed of the result.
#[verifier::external_body]
fn self_signed(san: Vec<String>) -> (r: Result<(Vec<u8>, Vec<u8>), rcgen::Error>) {
    match rcgen::generate_simple_self_signed(san) {
        Ok(made) => Ok((made.cert.der().to_vec(), made.signing_key.serialize_der())),
        Err(e) => Err(e),
    }
}

/// `rustls::pki_types::PrivateKeyDer::try_from` on the bytes of a key: it
/// looks at the first bytes of the DER encoding as `key_format` says, and
/// refuses every other input with one fixed text.
#[verifier::external_body]
fn detect_key_format(der: &Vec<u8>) -> (r: Result<KeyFormat, &'static str>)
    ensures
        r matches Ok(format) ==> key_format(der@) == Some(format),
        r matches Err(text) ==> key_format(der@) is None && text@
            == "unknown or invalid key format"@,
{
    match rustls::pki_types::PrivateKeyDer::try_from(der.as_slice()) {
        Ok(rustls::pki_types::PrivateKeyDer::Pkcs1(_)) => Ok(KeyFormat::Pkcs1),
        Ok(rustls::pki_types::PrivateKeyDer::Sec1(_)) => Ok(KeyFormat::Sec1),
        Ok(rustls::pki_types::PrivateKeyDer::Pkcs8(_)) => Ok(KeyFormat::Pkcs8),
        Ok(_) => Err("unknown or invalid key format"),
        Err(text) => Err(text),
    }
}

/// Puts a certificate and its private key together, both in DER. The key is
/// accepted exactly when its first bytes announce one of the known formats;
/// the result then holds the certificate as the only one of its chain and
/// the key under that format. Any other key is refused with an error of
/// category `Other`.
pub fn bundle_certificate(cert_der: Vec<u8>, key_der: Vec<u8>) -> (r: Result<
    (Vec<Vec<u8>>, PrivateKey),
    TunnelError,
>)
    ensures
        match key_format(key_der@) {
            Some(format) => r matches Ok((certs, key)) && certs@.len() == 1 && certs@[0]
                == cert_der && key.format == format && key.der == key_der,
            None => r matches Err(e) && e.kind == ErrorKind::Other && e.message@
                == "unknown or invalid key format"@,
        },
{
    match detect_key_format(&key_der) {
        Ok(format) => {
            let mut certs: Vec<Vec<u8>> = Vec::new();
            certs.push(cert_der);
            Ok((certs, PrivateKey { format, der: key_der }))
        },
        Err(text) => Err(TunnelError::new(ErrorKind::Other, text.to_owned())),
    }
}

/// Makes a fresh key pair and a self-signed certificate that is valid for
/// the names in `san`. The key pair is random, so the result is not a
/// function of `san`: what holds of every result is that a success carries
/// exactly one certificate and a key whose format is the one that its bytes
/// announce, as `bundle_certificate` puts them together, and that a failure
/// is of category `Other`.
pub fn generate_certificate(san: Vec<String>) -> (r: Result<
    (Vec<Vec<u8>>, PrivateKey),
    TunnelError,
>)
    ensures
        match r {
            Ok((certs, key)) => certs@.len() == 1 && key_format(key.der@) == Some(key.format),
            Err(e) => e.kind == ErrorKind::Other,
        },
{
    match self_signed(san) {
        Ok((cert_der, key_der)) => bundle_certificate(cert_der, key_der),
        Err(e) => Err(TunnelError::other(e)),
    }
}

} // verus!
