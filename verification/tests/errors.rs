use std::io;

use rustscan_rs::errors::RustScanError;

#[test]
fn port_errors_render_their_values() {
    let e = RustScanError::InvalidPortRange { start: 100, end: 50 };
    assert_eq!(e.message(), "invalid port range: start port 100 is greater than end port 50");
    let e = RustScanError::PortOutOfRange { port: 70000 };
    assert_eq!(e.message(), "port value 70000 is out of the valid range 1–65535");
}

#[test]
fn limit_errors_render_their_values() {
    let e = RustScanError::InvalidTimeout { ms: 0 };
    assert_eq!(
        e.message(),
        "timeout value 0ms is invalid — must be between 1 ms and 300 000 ms (5 min)"
    );
    let e = RustScanError::InvalidConcurrency { value: 20000, max: 10000 };
    assert_eq!(
        e.message(),
        "concurrency value 20000 is invalid — must be between 1 and 10000"
    );
}

#[test]
fn wrapped_errors_keep_their_own_text() {
    let e = RustScanError::Io(io::Error::other("disk full"));
    assert_eq!(e.message(), "I/O error: disk full");
    let json_err = serde_json::from_str::<u32>("x").unwrap_err();
    let expected = format!("JSON serialization error: {json_err}");
    assert_eq!(RustScanError::Json(json_err).message(), expected);
}

#[test]
fn target_errors_render_their_input() {
    let e = RustScanError::DnsResolutionFailed { host: "nowhere.invalid".to_string() };
    assert_eq!(e.message(), "could not resolve hostname: nowhere.invalid");
    let e = RustScanError::InvalidTarget { target: "a b".to_string() };
    assert_eq!(
        e.message(),
        "invalid target 'a b': must be a valid IP address, CIDR range, or hostname"
    );
    let e = RustScanError::InvalidCidr {
        input: "10.0.0.0/99".to_string(),
        reason: "invalid prefix".to_string(),
    };
    assert_eq!(e.message(), "invalid CIDR notation '10.0.0.0/99': invalid prefix");
    let e = RustScanError::CidrTooLarge {
        input: "10.0.0.0/8".to_string(),
        count: 16777216,
        max: 65536,
    };
    assert_eq!(
        e.message(),
        "CIDR range '10.0.0.0/8' has 16777216 addresses which exceeds the safety limit of 65536 — use a longer prefix (e.g., /16 or higher)"
    );
}
