//! Parsing and structural validation of the attribute certificate table of a
//! PE image: the container in which Authenticode signatures are stored.
//!
//! The table is untrusted input. Every function here is verified never to
//! read out of bounds and never to overflow, and its contract states what it
//! returns over a mathematical model of the table's bytes.

pub mod align;
pub mod certificate;
pub mod encoding;
pub mod error;
pub mod iterator;
pub mod table;
pub mod text;
pub mod wire;

pub use align::align_up_to_8;
pub use certificate::{
    AttributeCertificate, WIN_CERT_REVISION_2_0, WIN_CERT_TYPE_PKCS_SIGNED_DATA,
};
pub use error::{AttributeCertificateAuthenticodeError, AttributeCertificateError};
pub use iterator::{check_total_size_valid, AttributeCertificateIterator, PeOffsetError, PeTrait};
