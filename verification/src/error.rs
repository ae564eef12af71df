//! The errors of table iteration and of signature extraction.

use crate::text::{append_decimal, append_hex_two_wide, spec_decimal, spec_hex_two_wide};
use vstd::prelude::*;
use vstd::string::StringExecFns;

verus! {

/// Error of constructing or advancing an
/// [`AttributeCertificateIterator`](crate::AttributeCertificateIterator).
#[derive(Clone, Copy, Debug, PartialEq, Eq, Structural)]
pub enum AttributeCertificateError {
    /// The certificate table's range is out of bounds.
    OutOfBounds,
    /// The certificate table's size does not match the sum of the
    /// certificate entries' aligned sizes.
    InvalidSize,
    /// The size of an entry in the certificate table is invalid.
    InvalidCertificateSize {
        /// Size (in bytes) stored in the certificate entry header.
        size: u32,
    },
}

/// Error returned by
/// [`AttributeCertificate::get_authenticode_signature`](crate::AttributeCertificate::get_authenticode_signature).
///
/// `E` is the error of the signature parser that the payload is handed to.
#[derive(Clone, Copy, Debug, PartialEq, Eq)]
pub enum AttributeCertificateAuthenticodeError<E> {
    /// Attribute certificate revision does not match
    /// [`WIN_CERT_REVISION_2_0`](crate::WIN_CERT_REVISION_2_0).
    InvalidCertificateRevision(u16),
    /// Attribute certificate type does not match
    /// [`WIN_CERT_TYPE_PKCS_SIGNED_DATA`](crate::WIN_CERT_TYPE_PKCS_SIGNED_DATA).
    InvalidCertificateType(u16),
    /// Attribute certificate data is not a valid Authenticode signature.
    InvalidSignature(E),
}

impl AttributeCertificateError {
    /// The message of the error.
    pub open spec fn spec_to_string(self) -> Seq<char> {
        match self {
            AttributeCertificateError::OutOfBounds => "certificate table range is out of bounds"@,
            AttributeCertificateError::InvalidSize =>
                "certificate table size does not match the sum of the certificate entry's aligned sizes"@,
            AttributeCertificateError::InvalidCertificateSize { size } =>
                "certificate table contains an entry with an invalid size: "@ + spec_decimal(
                    size as nat,
                ),
        }
    }

    /// Describes the error in words; an invalid entry size is given in
    /// decimal.
    pub fn to_string(&self) -> (message: String)
        ensures
            message@ == self.spec_to_string(),
    {
        match self {
            AttributeCertificateError::OutOfBounds => String::from_str(
                "certificate table range is out of bounds",
            ),
            AttributeCertificateError::InvalidSize => String::from_str(
                "certificate table size does not match the sum of the certificate entry's aligned sizes",
            ),
            AttributeCertificateError::InvalidCertificateSize { size } => {
                let mut message = String::from_str(
                    "certificate table contains an entry with an invalid size: ",
                );
                append_decimal(&mut message, *size);
                message
            },
        }
    }
}

impl<E> AttributeCertificateAuthenticodeError<E> {
    /// The message of the error, where `signature_error` is the message of
    /// the parser's own error.
    pub open spec fn spec_to_string(self, signature_error: Seq<char>) -> Seq<char> {
        match self {
            AttributeCertificateAuthenticodeError::InvalidCertificateRevision(revision) =>
                "invalid attribute certificate revision: "@ + spec_hex_two_wide(revision as nat),
            AttributeCertificateAuthenticodeError::InvalidCertificateType(certificate_type) =>
                "invalid attribute certificate type: "@ + spec_hex_two_wide(
                    certificate_type as nat,
                ),
            AttributeCertificateAuthenticodeError::InvalidSignature(_) => "invalid signature: "@
                + signature_error,
        }
    }

    /// Describes the error in words; a revision or a certificate type is
    /// given in hexadecimal, at least two digits wide. `signature_error` is
    /// the message of the parser's own error, and is used only for
    /// `InvalidSignature`.
    pub fn to_string(&self, signature_error: &str) -> (message: String)
        ensures
            message@ == self.spec_to_string(signature_error@),
    {
        match self {
            AttributeCertificateAuthenticodeError::InvalidCertificateRevision(revision) => {
                let mut message = String::from_str("invalid attribute certificate revision: ");
                append_hex_two_wide(&mut message, *revision);
                message
            },
            AttributeCertificateAuthenticodeError::InvalidCertificateType(certificate_type) => {
                let mut message = String::from_str("invalid attribute certificate type: ");
                append_hex_two_wide(&mut message, *certificate_type);
                message
            },
            AttributeCertificateAuthenticodeError::InvalidSignature(_) => {
                let mut message = String::from_str("invalid signature: ");
                message.append(signature_error);
                message
            },
        }
    }
}

} // verus!
