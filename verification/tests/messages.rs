use authenticode::text::{append_decimal, append_hex, append_hex_two_wide};
use authenticode::{AttributeCertificateAuthenticodeError, AttributeCertificateError};

#[test]
fn table_errors_describe_themselves() {
    assert_eq!(
        AttributeCertificateError::OutOfBounds.to_string(),
        "certificate table range is out of bounds"
    );
    assert_eq!(
        AttributeCertificateError::InvalidSize.to_string(),
        "certificate table size does not match the sum of the certificate entry's aligned sizes"
    );
    assert_eq!(
        AttributeCertificateError::InvalidCertificateSize { size: 4 }.to_string(),
        "certificate table contains an entry with an invalid size: 4"
    );
    assert_eq!(
        AttributeCertificateError::InvalidCertificateSize { size: u32::MAX }.to_string(),
        "certificate table contains an entry with an invalid size: 4294967295"
    );
    assert_eq!(
        AttributeCertificateError::InvalidCertificateSize { size: 0 }.to_string(),
        "certificate table contains an entry with an invalid size: 0"
    );
}

#[test]
fn signature_errors_describe_themselves() {
    let revision: AttributeCertificateAuthenticodeError<()> =
        AttributeCertificateAuthenticodeError::InvalidCertificateRevision(0x0300);
    assert_eq!(revision.to_string("unused"), "invalid attribute certificate revision: 300");
    let revision: AttributeCertificateAuthenticodeError<()> =
        AttributeCertificateAuthenticodeError::InvalidCertificateRevision(0x5);
    assert_eq!(revision.to_string(""), "invalid attribute certificate revision: 05");
    let certificate_type: AttributeCertificateAuthenticodeError<()> =
        AttributeCertificateAuthenticodeError::InvalidCertificateType(0xabcd);
    assert_eq!(certificate_type.to_string(""), "invalid attribute certificate type: abcd");
    let certificate_type: AttributeCertificateAuthenticodeError<()> =
        AttributeCertificateAuthenticodeError::InvalidCertificateType(0);
    assert_eq!(certificate_type.to_string(""), "invalid attribute certificate type: 00");
    let signature = AttributeCertificateAuthenticodeError::InvalidSignature(7u8);
    assert_eq!(signature.to_string("bad length"), "invalid signature: bad length");
}

#[test]
fn numbers_are_written_as_std_formats_them() {
    for n in [0u32, 7, 9, 10, 11, 99, 100, 1234, 65535, 65536, 1_000_000, u32::MAX] {
        let mut out = String::from("n=");
        append_decimal(&mut out, n);
        assert_eq!(out, format!("n={n}"));
    }
    for n in [0u16, 1, 9, 10, 15, 16, 17, 255, 256, 0x0200, 0xbeef, u16::MAX] {
        let mut out = String::from("x");
        append_hex(&mut out, n);
        assert_eq!(out, format!("x{n:x}"));
        let mut out = String::new();
        append_hex_two_wide(&mut out, n);
        assert_eq!(out, format!("{n:02x}"));
    }
}
