use openssl::cms::{CMSOptions, CmsContentInfo};
use openssl::error::ErrorStack;
use openssl::pkey::{PKey, Private};
use openssl::x509::X509;
use vstd::prelude::*;

use crate::error::SignError;

verus! {

#[verifier::external_type_specification]
#[verifier::external_body]
pub struct ExX509(X509);

#[verifier::external_type_specification]
#[verifier::external_body]
#[verifier::reject_recursive_types(T)]
pub struct ExPKey<T>(PKey<T>);

#[verifier::external_type_specification]
#[verifier::external_body]
pub struct ExPrivate(Private);

#[verifier::external_type_specification]
#[verifier::external_body]
pub struct ExCmsContentInfo(CmsContentInfo);

#[verifier::external_type_specification]
#[verifier::external_body]
pub struct ExErrorStack(ErrorStack);

/// The largest input that OpenSSL's in-memory reader accepts (`c_int::MAX`);
/// a longer one makes it panic.
pub const MEM_BIO_MAX: usize = 0x7fff_ffff;

/// Leave the signer's certificate out of the signature container.
pub const CMS_NOCERTS: u32 = 0x2;

/// Detached signature: the signed content is not embedded.
pub const CMS_DETACHED: u32 = 0x40;

/// Sign the content as binary, with no text canonicalisation.
pub const CMS_BINARY: u32 = 0x80;

/// No signed attributes.
pub const CMS_NOATTR: u32 = 0x100;

/// No S/MIME capabilities attribute.
pub const CMS_NOSMIMECAP: u32 = 0x200;

/// The options that a module signature is made with.
pub const MODULE_SIGN_FLAGS: u32 = CMS_NOCERTS | CMS_BINARY | CMS_DETACHED | CMS_NOATTR
    | CMS_NOSMIMECAP;

/// Whether OpenSSL's DER certificate decoder (`d2i_X509`) accepts these
/// bytes; this depends on the bytes alone.
pub uninterp spec fn der_cert_accepted(der: Seq<u8>) -> bool;

/// Relies on openssl's `X509::from_der`: decodes a DER certificate, and
/// succeeds exactly on the bytes that `d2i_X509` accepts.
#[verifier::external_body]
fn x509_from_der(der: &[u8]) -> (r: Result<X509, ErrorStack>)
    ensures
        r is Ok <==> der_cert_accepted(der@),
{
    X509::from_der(der)
}

/// Relies on openssl's `X509::from_pem`: decodes a PEM certificate. It
/// asserts that the input is at most `c_int::MAX` bytes long.
#[verifier::external_body]
fn x509_from_pem(pem: &[u8]) -> Result<X509, ErrorStack>
    requires
        pem@.len() <= MEM_BIO_MAX,
{
    X509::from_pem(pem)
}

/// Relies on openssl's `PKey::private_key_from_pem`: decodes a PEM private
/// key. It asserts that the input is at most `c_int::MAX` bytes long.
#[verifier::external_body]
fn pkey_from_pem(pem: &[u8]) -> Result<PKey<Private>, ErrorStack>
    requires
        pem@.len() <= MEM_BIO_MAX,
{
    PKey::private_key_from_pem(pem)
}

/// Relies on openssl's `CmsContentInfo::sign`: signs `data` with the
/// certificate and key under the option bits `flags`. It asserts that the
/// data is at most `c_int::MAX` bytes long.
#[verifier::external_body]
fn cms_sign(cert: &X509, key: &PKey<Private>, data: &[u8], flags: u32) -> Result<
    CmsContentInfo,
    ErrorStack,
>
    requires
        data@.len() <= MEM_BIO_MAX,
{
    CmsContentInfo::sign(
        Some(cert.as_ref()),
        Some(key.as_ref()),
        None,
        Some(data),
        CMSOptions::from_bits_truncate(flags),
    )
}

/// Relies on openssl's `CmsContentInfoRef::to_der`: serialises the container.
#[verifier::external_body]
fn cms_to_der(info: &CmsContentInfo) -> Result<Vec<u8>, ErrorStack> {
    info.to_der()
}

/// How a certificate file is encoded.
#[derive(Debug, Clone, Copy, PartialEq, Eq, Structural)]
pub enum CertEncoding {
    Der,
    Pem,
}

/// A certificate is read as DER when it starts like an ASN.1 SEQUENCE with a
/// long-form length (`0x30`, then `0x81` to `0x84`), and as PEM otherwise.
pub open spec fn spec_cert_encoding(data: Seq<u8>) -> CertEncoding {
    if data.len() >= 2 && data[0] == 0x30 && 0x81 <= data[1] <= 0x84 {
        CertEncoding::Der
    } else {
        CertEncoding::Pem
    }
}

/// Tells DER from PEM by the first two bytes.
pub fn cert_encoding(data: &[u8]) -> (r: CertEncoding)
    ensures
        r == spec_cert_encoding(data@),
{
    if data.len() >= 2 && data[0] == 0x30 && 0x81 <= data[1] && data[1] <= 0x84 {
        CertEncoding::Der
    } else {
        CertEncoding::Pem
    }
}

/// Decodes a certificate from the contents of its file, as DER or PEM as
/// `cert_encoding` decides, with no fallback from one decoder to the other:
/// DER-looking input succeeds exactly when the DER decoder accepts it.
pub fn load_x509(data: &[u8]) -> (r: Result<X509, SignError>)
    ensures
        spec_cert_encoding(data@) == CertEncoding::Der ==> (r is Ok <==> der_cert_accepted(
            data@,
        )),
        spec_cert_encoding(data@) == CertEncoding::Der && !der_cert_accepted(data@) ==> r
            == Err::<X509, SignError>(SignError::CertDecode),
        r matches Err(e) ==> e == SignError::CertDecode || e == SignError::InputTooLarge,
        r == Err::<X509, SignError>(SignError::InputTooLarge) <==> spec_cert_encoding(data@)
            == CertEncoding::Pem && data@.len() > MEM_BIO_MAX,
{
    let decoded = match cert_encoding(data) {
        CertEncoding::Der => x509_from_der(data),
        CertEncoding::Pem => {
            if data.len() > MEM_BIO_MAX {
                return Err(SignError::InputTooLarge);
            }
            x509_from_pem(data)
        },
    };
    match decoded {
        Ok(cert) => Ok(cert),
        Err(_) => Err(SignError::CertDecode),
    }
}

/// Decodes a PEM private key from the contents of its file.
pub fn load_private_key(pem: &[u8]) -> (r: Result<PKey<Private>, SignError>)
    ensures
        r matches Err(e) ==> e == SignError::KeyDecode || e == SignError::InputTooLarge,
        r == Err::<PKey<Private>, SignError>(SignError::InputTooLarge) <==> pem@.len()
            > MEM_BIO_MAX,
{
    if pem.len() > MEM_BIO_MAX {
        return Err(SignError::InputTooLarge);
    }
    match pkey_from_pem(pem) {
        Ok(key) => Ok(key),
        Err(_) => Err(SignError::KeyDecode),
    }
}

/// Makes the detached CMS signature of the module contents, with no
/// certificates, no signed attributes and no S/MIME capabilities, and
/// returns it as DER.
pub fn sign_contents(cert: &X509, key: &PKey<Private>, contents: &[u8]) -> (r: Result<
    Vec<u8>,
    SignError,
>)
    ensures
        r matches Err(e) ==> e == SignError::Sign || e == SignError::SignatureEncode || e
            == SignError::InputTooLarge,
        r matches Err(e) ==> (e == SignError::InputTooLarge <==> contents@.len() > MEM_BIO_MAX),
        contents@.len() > MEM_BIO_MAX ==> r is Err,
{
    if contents.len() > MEM_BIO_MAX {
        return Err(SignError::InputTooLarge);
    }
    let info = match cms_sign(cert, key, contents, MODULE_SIGN_FLAGS) {
        Ok(info) => info,
        Err(_) => return Err(SignError::Sign),
    };
    match cms_to_der(&info) {
        Ok(der) => Ok(der),
        Err(_) => Err(SignError::SignatureEncode),
    }
}

} // verus!
