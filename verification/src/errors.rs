//! Typed error hierarchy.
//!
//! All domain-specific failures are variants of [`RustScanError`]; each
//! has a user-facing message.
use vstd::prelude::*;
use vstd::string::to_string_from_display_ensures;
use crate::text::{decimal, u64_to_decimal};

verus! {

/// Operating-system I/O error, carried through unchanged.
#[verifier::external_type_specification]
#[verifier::external_body]
pub struct ExIoError(std::io::Error);

/// JSON serialization error, carried through unchanged.
#[verifier::external_type_specification]
#[verifier::external_body]
pub struct ExJsonError(serde_json::Error);

/// Top-level error type.
#[derive(Debug)]
pub enum RustScanError {
    /// `--start-port` is greater than `--end-port`.
    InvalidPortRange { start: u16, end: u16 },
    /// A port number is outside the 1–65535 range.
    PortOutOfRange { port: u32 },
    /// The timeout is zero or exceeds the ceiling.
    InvalidTimeout { ms: u64 },
    /// The concurrency is zero or exceeds the maximum.
    InvalidConcurrency { value: usize, max: usize },
    /// An underlying I/O error.
    Io(std::io::Error),
    /// A JSON serialization failure.
    Json(serde_json::Error),
    /// A hostname could not be resolved.
    DnsResolutionFailed { host: String },
    /// The target is neither an IP address, a CIDR range nor a hostname.
    InvalidTarget { target: String },
    /// The CIDR string could not be parsed.
    InvalidCidr { input: String, reason: String },
    /// The CIDR range expands to more addresses than the safety limit.
    CidrTooLarge { input: String, count: u64, max: u64 },
}

impl RustScanError {
    /// Whether `m` is the user-facing message of this error.  A wrapped
    /// I/O or JSON error contributes its own rendering after the prefix.
    pub open spec fn is_message(&self, m: Seq<char>) -> bool {
        match self {
            RustScanError::InvalidPortRange { start, end } => m == "invalid port range: start port "@
                + decimal(*start as nat) + " is greater than end port "@ + decimal(*end as nat),
            RustScanError::PortOutOfRange { port } => m == "port value "@ + decimal(*port as nat)
                + " is out of the valid range 1–65535"@,
            RustScanError::InvalidTimeout { ms } => m == "timeout value "@ + decimal(*ms as nat)
                + "ms is invalid — must be between 1 ms and 300 000 ms (5 min)"@,
            RustScanError::InvalidConcurrency { value, max } => m == "concurrency value "@
                + decimal(*value as nat) + " is invalid — must be between 1 and "@ + decimal(
                *max as nat,
            ),
            RustScanError::Io(e) => exists|t: String|
                to_string_from_display_ensures::<std::io::Error>(e, t) && m == "I/O error: "@
                    + t@,
            RustScanError::Json(e) => exists|t: String|
                to_string_from_display_ensures::<serde_json::Error>(e, t) && m
                    == "JSON serialization error: "@ + t@,
            RustScanError::DnsResolutionFailed { host } => m == "could not resolve hostname: "@
                + host@,
            RustScanError::InvalidTarget { target } => m == "invalid target '"@ + target@
                + "': must be a valid IP address, CIDR range, or hostname"@,
            RustScanError::InvalidCidr { input, reason } => m == "invalid CIDR notation '"@
                + input@ + "': "@ + reason@,
            RustScanError::CidrTooLarge { input, count, max } => m == "CIDR range '"@ + input@
                + "' has "@ + decimal(*count as nat)
                + " addresses which exceeds the safety limit of "@ + decimal(*max as nat)
                + " — use a longer prefix (e.g., /16 or higher)"@,
        }
    }

    /// The user-facing message of this error.
    pub fn message(&self) -> (r: String)
        ensures
            self.is_message(r@),
    {
        match self {
            RustScanError::InvalidPortRange { start, end } => {
                let mut m = String::from_str("invalid port range: start port ");
                m.append(u64_to_decimal(*start as u64).as_str());
                m.append(" is greater than end port ");
                m.append(u64_to_decimal(*end as u64).as_str());
                m
            },
            RustScanError::PortOutOfRange { port } => {
                let mut m = String::from_str("port value ");
                m.append(u64_to_decimal(*port as u64).as_str());
                m.append(" is out of the valid range 1–65535");
                m
            },
            RustScanError::InvalidTimeout { ms } => {
                let mut m = String::from_str("timeout value ");
                m.append(u64_to_decimal(*ms).as_str());
                m.append("ms is invalid — must be between 1 ms and 300 000 ms (5 min)");
                m
            },
            RustScanError::InvalidConcurrency { value, max } => {
                let mut m = String::from_str("concurrency value ");
                m.append(u64_to_decimal(*value as u64).as_str());
                m.append(" is invalid — must be between 1 and ");
                m.append(u64_to_decimal(*max as u64).as_str());
                m
            },
            RustScanError::Io(e) => {
                let t = e.to_string();
                let mut m = String::from_str("I/O error: ");
                m.append(t.as_str());
                m
            },
            RustScanError::Json(e) => {
                let t = e.to_string();
                let mut m = String::from_str("JSON serialization error: ");
                m.append(t.as_str());
                m
            },
            RustScanError::DnsResolutionFailed { host } => {
                let mut m = String::from_str("could not resolve hostname: ");
                m.append(host.as_str());
                m
            },
            RustScanError::InvalidTarget { target } => {
                let mut m = String::from_str("invalid target '");
                m.append(target.as_str());
                m.append("': must be a valid IP address, CIDR range, or hostname");
                m
            },
            RustScanError::InvalidCidr { input, reason } => {
                let mut m = String::from_str("invalid CIDR notation '");
                m.append(input.as_str());
                m.append("': ");
                m.append(reason.as_str());
                m
            },
            RustScanError::CidrTooLarge { input, count, max } => {
                let mut m = String::from_str("CIDR range '");
                m.append(input.as_str());
                m.append("' has ");
                m.append(u64_to_decimal(*count).as_str());
                m.append(" addresses which exceeds the safety limit of ");
                m.append(u64_to_decimal(*max).as_str());
                m.append(" — use a longer prefix (e.g., /16 or higher)");
                m
            },
        }
    }
}

} // verus!
