use vstd::prelude::*;
use vstd::string::*;

verus! {

/// Why signing a module failed. Every failure ends the whole operation.
#[derive(Debug, Clone, Copy, PartialEq, Eq, Structural)]
pub enum SignError {
    /// The private key path was not given.
    MissingKey,
    /// The certificate path was not given.
    MissingCert,
    /// The module path was not given.
    MissingModule,
    /// The private key is not a valid PEM-encoded key.
    KeyDecode,
    /// The certificate is valid neither as DER nor as PEM.
    CertDecode,
    /// The signing operation rejected its inputs.
    Sign,
    /// The signature container could not be serialised as DER.
    SignatureEncode,
    /// An input is too large to be handed to the cryptographic library.
    InputTooLarge,
    /// The signature blob is longer than the trailer's 32-bit length field allows.
    SignatureTooLong,
}

/// The text that describes each failure; it names the failing step.
pub open spec fn spec_message(e: SignError) -> Seq<char> {
    match e {
        SignError::MissingKey => "missing required parameter: key"@,
        SignError::MissingCert => "missing required parameter: x509"@,
        SignError::MissingModule => "missing required parameter: module"@,
        SignError::KeyDecode => "failed to read PEM formatted private key"@,
        SignError::CertDecode => "failed to read DER or PEM encoded X509 certificate"@,
        SignError::Sign => "failed to sign kernel module using CMS"@,
        SignError::SignatureEncode => "failed to convert signature to DER format"@,
        SignError::InputTooLarge => "input too large for the cryptographic library"@,
        SignError::SignatureTooLong => "signature length does not fit in 32 bits"@,
    }
}

impl SignError {
    /// A human-readable description of the failure, naming the failing step.
    pub fn message(&self) -> (r: String)
        ensures
            r@ == spec_message(*self),
    {
        match self {
            SignError::MissingKey => String::from_str("missing required parameter: key"),
            SignError::MissingCert => String::from_str("missing required parameter: x509"),
            SignError::MissingModule => String::from_str("missing required parameter: module"),
            SignError::KeyDecode => String::from_str("failed to read PEM formatted private key"),
            SignError::CertDecode => String::from_str("failed to read DER or PEM encoded X509 certificate"),
            SignError::Sign => String::from_str("failed to sign kernel module using CMS"),
            SignError::SignatureEncode => String::from_str("failed to convert signature to DER format"),
            SignError::InputTooLarge => String::from_str("input too large for the cryptographic library"),
            SignError::SignatureTooLong => String::from_str("signature length does not fit in 32 bits"),
        }
    }
}

} // verus!
