use rustscan_rs::probes::handshake_cert_info;
use rustscan_rs::tls::parse_cert;

/// A self-signed P-256 certificate for `CN=scan.example, O=Example Org`.
const CERT_DER: &[u8] = &[
    48, 130, 1, 156, 48, 130, 1, 66, 160, 3, 2, 1, 2, 2, 1, 7, 48, 10, 6, 8, 42, 134, 72, 206,
    61, 4, 3, 2, 48, 45, 49, 21, 48, 19, 6, 3, 85, 4, 3, 12, 12, 115, 99, 97, 110, 46, 101, 120,
    97, 109, 112, 108, 101, 49, 20, 48, 18, 6, 3, 85, 4, 10, 12, 11, 69, 120, 97, 109, 112, 108,
    101, 32, 79, 114, 103, 48, 30, 23, 13, 50, 54, 49, 49, 49, 55, 49, 49, 49, 53, 53, 57, 90,
    23, 13, 50, 55, 49, 49, 49, 55, 49, 49, 49, 53, 53, 57, 90, 48, 45, 49, 21, 48, 19, 6, 3,
    85, 4, 3, 12, 12, 115, 99, 97, 110, 46, 101, 120, 97, 109, 112, 108, 101, 49, 20, 48, 18, 6,
    3, 85, 4, 10, 12, 11, 69, 120, 97, 109, 112, 108, 101, 32, 79, 114, 103, 48, 89, 48, 19, 6,
    7, 42, 134, 72, 206, 61, 2, 1, 6, 8, 42, 134, 72, 206, 61, 3, 1, 7, 3, 66, 0, 4, 80, 75,
    140, 99, 226, 87, 126, 224, 58, 178, 226, 10, 9, 183, 20, 24, 208, 92, 182, 182, 159, 206,
    201, 172, 181, 14, 56, 161, 120, 87, 144, 160, 222, 66, 51, 18, 244, 50, 41, 198, 214, 186,
    102, 49, 174, 210, 15, 151, 42, 253, 58, 91, 171, 135, 104, 27, 137, 207, 101, 48, 202, 168,
    114, 98, 163, 83, 48, 81, 48, 29, 6, 3, 85, 29, 14, 4, 22, 4, 20, 196, 206, 224, 202, 165,
    26, 139, 218, 67, 206, 48, 151, 154, 160, 96, 102, 63, 128, 220, 231, 48, 31, 6, 3, 85, 29,
    35, 4, 24, 48, 22, 128, 20, 196, 206, 224, 202, 165, 26, 139, 218, 67, 206, 48, 151, 154,
    160, 96, 102, 63, 128, 220, 231, 48, 15, 6, 3, 85, 29, 19, 1, 1, 255, 4, 5, 48, 3, 1, 1,
    255, 48, 10, 6, 8, 42, 134, 72, 206, 61, 4, 3, 2, 3, 72, 0, 48, 69, 2, 33, 0, 192, 206, 218,
    221, 213, 221, 119, 170, 209, 150, 67, 1, 236, 202, 63, 244, 246, 198, 130, 227, 87, 152,
    108, 121, 131, 26, 79, 109, 74, 114, 114, 95, 2, 32, 56, 59, 178, 27, 77, 241, 120, 223, 20,
    225, 115, 123, 242, 212, 110, 170, 238, 6, 176, 115, 79, 94, 197, 130, 124, 94, 160, 28, 60,
    112, 163, 39
];

#[test]
fn certificate_fields_are_extracted() {
    let info = parse_cert(CERT_DER).expect("certificate parses");
    assert_eq!(info.subject, "CN=scan.example, O=Example Org");
    assert_eq!(info.issuer, "CN=scan.example, O=Example Org");
    assert!(info.not_before.contains("2026"), "{}", info.not_before);
    assert!(info.not_after.contains("2027"), "{}", info.not_after);
}

#[test]
fn handshake_reports_first_certificate() {
    let info = handshake_cert_info(Some(CERT_DER));
    assert_eq!(info.subject, "CN=scan.example, O=Example Org");
}

#[test]
fn truncated_certificate_is_rejected() {
    assert!(parse_cert(&CERT_DER[..100]).is_none());
    assert!(parse_cert(&[]).is_none());
}
