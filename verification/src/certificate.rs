//! One decoded entry of the attribute certificate table.

use crate::error::AttributeCertificateAuthenticodeError;
use vstd::prelude::*;

verus! {

/// Current version of the `WIN_CERTIFICATE` structure.
pub const WIN_CERT_REVISION_2_0: u16 = 0x0200;

/// Certificate contains a PKCS#7 `SignedData` structure.
pub const WIN_CERT_TYPE_PKCS_SIGNED_DATA: u16 = 0x0002;

/// Raw data for a PE attribute certificate.
///
/// Note that PE attribute certificates are not related to X.509 attribute
/// certificates.
#[derive(Debug)]
pub struct AttributeCertificate<'a> {
    /// `WIN_CERTIFICATE` version number.
    pub revision: u16,
    /// Certificate type.
    pub certificate_type: u16,
    /// Raw certificate data (not including the header).
    pub data: &'a [u8],
}

/// What an [`AttributeCertificate`] stands for: its two header fields and
/// the bytes of its payload.
pub ghost struct AttributeCertificateView {
    pub revision: u16,
    pub certificate_type: u16,
    pub data: Seq<u8>,
}

impl<'a> View for AttributeCertificate<'a> {
    type V = AttributeCertificateView;

    open spec fn view(&self) -> AttributeCertificateView {
        AttributeCertificateView {
            revision: self.revision,
            certificate_type: self.certificate_type,
            data: self.data@,
        }
    }
}

/// The error, if any, that the header fields alone decide: the revision is
/// looked at first, the certificate type only where the revision is right.
pub open spec fn spec_header_error<E>(
    revision: u16,
    certificate_type: u16,
) -> Option<AttributeCertificateAuthenticodeError<E>> {
    if revision != WIN_CERT_REVISION_2_0 {
        Some(AttributeCertificateAuthenticodeError::InvalidCertificateRevision(revision))
    } else if certificate_type != WIN_CERT_TYPE_PKCS_SIGNED_DATA {
        Some(AttributeCertificateAuthenticodeError::InvalidCertificateType(certificate_type))
    } else {
        None
    }
}

/// The result of signature extraction on an entry whose header is accepted,
/// given what the parser made of the payload.
pub open spec fn spec_signature_result<S, E>(parsed: Result<S, E>) -> Result<
    S,
    AttributeCertificateAuthenticodeError<E>,
> {
    match parsed {
        Ok(signature) => Ok(signature),
        Err(e) => Err(AttributeCertificateAuthenticodeError::InvalidSignature(e)),
    }
}

impl<'a> AttributeCertificate<'a> {
    /// Get the certificate data as an Authenticode signature.
    ///
    /// The header is checked first, the revision before the certificate
    /// type. Only where both are as Authenticode requires is `parse` called,
    /// once, on the payload; its error comes back as `InvalidSignature`.
    pub fn get_authenticode_signature<S, E, F>(&self, parse: F) -> (result: Result<
        S,
        AttributeCertificateAuthenticodeError<E>,
    >) where F: FnOnce(&'a [u8]) -> Result<S, E>
        requires
            spec_header_error::<E>(self.revision, self.certificate_type) is None
                ==> parse.requires((self.data,)),
        ensures
            match spec_header_error::<E>(self.revision, self.certificate_type) {
                Some(e) => result == Err::<S, _>(e),
                None => exists|parsed: Result<S, E>|
                    parse.ensures((self.data,), parsed) && result == spec_signature_result(
                        parsed,
                    ),
            },
    {
        if self.revision != WIN_CERT_REVISION_2_0 {
            return Err(
                AttributeCertificateAuthenticodeError::InvalidCertificateRevision(self.revision),
            );
        }
        if self.certificate_type != WIN_CERT_TYPE_PKCS_SIGNED_DATA {
            return Err(
                AttributeCertificateAuthenticodeError::InvalidCertificateType(
                    self.certificate_type,
                ),
            );
        }
        let parsed = parse(self.data);
        signature_result(parsed)
    }
}

/// Turns the parser's verdict on a payload into the result of signature
/// extraction: a signature is passed on, an error is wrapped as
/// `InvalidSignature`.
pub fn signature_result<S, E>(parsed: Result<S, E>) -> (result: Result<
    S,
    AttributeCertificateAuthenticodeError<E>,
>)
    ensures
        result == spec_signature_result(parsed),
{
    match parsed {
        Ok(signature) => Ok(signature),
        Err(e) => Err(AttributeCertificateAuthenticodeError::InvalidSignature(e)),
    }
}

} // verus!
