//! Scan configuration as given on the command line, and its semantic
//! validation.
use vstd::prelude::*;

use crate::errors::RustScanError;
use crate::text::{is_blank, spec_is_blank};

verus! {

/// Lowest acceptable port number.
pub const PORT_MIN: u16 = 1;
/// Highest acceptable port number.
pub const PORT_MAX: u16 = 65535;
/// Default starting port for a scan.
pub const DEFAULT_START_PORT: u16 = 1;
/// Default ending port for a scan.
pub const DEFAULT_END_PORT: u16 = 1024;
/// Default connection timeout in milliseconds.
pub const DEFAULT_TIMEOUT_MS: u64 = 1500;
/// Upper ceiling for timeouts (5 minutes).
pub const MAX_TIMEOUT_MS: u64 = 300000;
/// Default number of concurrent tasks.
pub const DEFAULT_CONCURRENCY: usize = 1000;
/// Hard upper limit on concurrency.
pub const MAX_CONCURRENCY: usize = 65535;

/// Above this concurrency the operating system's file-descriptor limits
/// usually need raising.
pub const HIGH_CONCURRENCY: usize = 10000;

/// The scan options chosen by the user.
#[derive(Debug, Clone)]
pub struct CliArgs {
    /// Target IP address, CIDR range or hostname.
    pub target: String,
    /// First port of the scan range.
    pub start_port: u16,
    /// Last port of the scan range.
    pub end_port: u16,
    /// Per-connection timeout in milliseconds.
    pub timeout: u64,
    /// Maximum number of concurrent probe tasks.
    pub concurrency: usize,
    /// JSON output (`Some("")` for stdout, `Some(path)` for a file).
    pub json: Option<String>,
    /// CSV output.
    pub csv: Option<String>,
    /// HTML report output.
    pub html: Option<String>,
    /// Perform a UDP scan.
    pub udp: bool,
    /// Perform a TCP scan.
    pub tcp: bool,
    /// Grab service banners on open ports.
    pub banner: bool,
    /// Reverse-resolve scanned addresses.
    pub resolve_dns: bool,
    /// Probe open ports for TLS.
    pub tls: bool,
    /// Log verbosity (number of `-v` flags).
    pub verbose: u8,
}

/// The output serialization format chosen by the user.
#[derive(Debug, Clone, Copy, PartialEq, Eq, Structural)]
pub enum OutputFormat {
    /// Plain human-readable text (default).
    Text,
    /// JSON (`--json`).
    Json,
    /// CSV (`--csv`).
    Csv,
    /// HTML report (`--html`).
    Html,
}

impl CliArgs {
    /// The first validation rule that the arguments break, in the order the
    /// rules are checked, with the error it is reported as; `None` when the
    /// arguments are valid.
    pub open spec fn validation_failure(self) -> Option<RustScanError> {
        if spec_is_blank(self.target@) {
            Some(RustScanError::InvalidTarget { target: self.target })
        } else if self.start_port == 0 {
            Some(RustScanError::PortOutOfRange { port: 0 })
        } else if self.end_port == 0 {
            Some(RustScanError::PortOutOfRange { port: 0 })
        } else if self.start_port > self.end_port {
            Some(RustScanError::InvalidPortRange { start: self.start_port, end: self.end_port })
        } else if self.timeout == 0 || self.timeout > MAX_TIMEOUT_MS {
            Some(RustScanError::InvalidTimeout { ms: self.timeout })
        } else if self.concurrency == 0 || self.concurrency > MAX_CONCURRENCY {
            Some(
                RustScanError::InvalidConcurrency {
                    value: self.concurrency,
                    max: MAX_CONCURRENCY,
                },
            )
        } else {
            None
        }
    }

    /// The output format that the output options select.
    pub open spec fn spec_output_format(self) -> OutputFormat {
        if self.json is Some {
            OutputFormat::Json
        } else if self.csv is Some {
            OutputFormat::Csv
        } else if self.html is Some {
            OutputFormat::Html
        } else {
            OutputFormat::Text
        }
    }

    /// Returns true if a TCP scan should be performed (the default when
    /// neither `--tcp` nor `--udp` is given).
    pub fn do_tcp(&self) -> (r: bool)
        ensures
            r == (self.tcp || !self.udp),
    {
        self.tcp || !self.udp
    }

    /// Returns true if a UDP scan should be performed.
    pub fn do_udp(&self) -> (r: bool)
        ensures
            r == self.udp,
    {
        self.udp
    }

    /// Semantic validation that argument parsing cannot express.
    ///
    /// Fails when the target is blank, a port is 0, the port range is
    /// inverted, the timeout is 0 or above [`MAX_TIMEOUT_MS`], or the
    /// concurrency is 0 or above [`MAX_CONCURRENCY`]; the first rule broken
    /// decides the error.
    pub fn validate(&self) -> (r: Result<(), RustScanError>)
        ensures
            r is Ok <==> self.validation_failure() is None,
            r matches Err(e) ==> self.validation_failure() == Some(e),
    {
        self.validate_target()?;
        self.validate_ports()?;
        self.validate_timeout()?;
        self.validate_concurrency()?;
        Ok(())
    }

    /// Derive the output format selected by the user.
    pub fn output_format(&self) -> (r: OutputFormat)
        ensures
            r == self.spec_output_format(),
    {
        if self.json.is_some() {
            OutputFormat::Json
        } else if self.csv.is_some() {
            OutputFormat::Csv
        } else if self.html.is_some() {
            OutputFormat::Html
        } else {
            OutputFormat::Text
        }
    }

    fn validate_target(&self) -> (r: Result<(), RustScanError>)
        ensures
            r is Ok <==> !spec_is_blank(self.target@),
            r matches Err(e) ==> e == (RustScanError::InvalidTarget { target: self.target }),
    {
        if is_blank(self.target.as_str()) {
            return Err(RustScanError::InvalidTarget { target: self.target.clone() });
        }
        Ok(())
    }

    fn validate_ports(&self) -> (r: Result<(), RustScanError>)
        ensures
            r is Ok <==> (self.start_port != 0 && self.end_port != 0 && self.start_port
                <= self.end_port),
            r matches Err(e) ==> e == (if self.start_port == 0 || self.end_port == 0 {
                RustScanError::PortOutOfRange { port: 0 }
            } else {
                RustScanError::InvalidPortRange { start: self.start_port, end: self.end_port }
            }),
    {
        if self.start_port == 0 {
            return Err(RustScanError::PortOutOfRange { port: self.start_port as u32 });
        }
        if self.end_port == 0 {
            return Err(RustScanError::PortOutOfRange { port: self.end_port as u32 });
        }
        if self.start_port > self.end_port {
            return Err(RustScanError::InvalidPortRange { start: self.start_port, end: self.end_port });
        }
        Ok(())
    }

    fn validate_timeout(&self) -> (r: Result<(), RustScanError>)
        ensures
            r is Ok <==> (self.timeout != 0 && self.timeout <= MAX_TIMEOUT_MS),
            r matches Err(e) ==> e == (RustScanError::InvalidTimeout { ms: self.timeout }),
    {
        if self.timeout == 0 || self.timeout > MAX_TIMEOUT_MS {
            return Err(RustScanError::InvalidTimeout { ms: self.timeout });
        }
        Ok(())
    }

    fn validate_concurrency(&self) -> (r: Result<(), RustScanError>)
        ensures
            r is Ok <==> (self.concurrency != 0 && self.concurrency <= MAX_CONCURRENCY),
            r matches Err(e) ==> e == (RustScanError::InvalidConcurrency {
                value: self.concurrency,
                max: MAX_CONCURRENCY,
            }),
    {
        if self.concurrency == 0 || self.concurrency > MAX_CONCURRENCY {
            return Err(
                RustScanError::InvalidConcurrency { value: self.concurrency, max: MAX_CONCURRENCY },
            );
        }
        Ok(())
    }
}

/// The log level selected by the number of `-v` flags.
pub open spec fn spec_log_level(verbosity: u8) -> Seq<char> {
    if verbosity == 0 {
        "warn"@
    } else if verbosity == 1 {
        "info"@
    } else if verbosity == 2 {
        "debug"@
    } else {
        "trace"@
    }
}

/// The default log level for a verbosity: `warn`, `info`, `debug`, then
/// `trace` for three flags or more.
pub fn log_level(verbosity: u8) -> (r: &'static str)
    ensures
        r@ == spec_log_level(verbosity),
{
    match verbosity {
        0 => "warn",
        1 => "info",
        2 => "debug",
        _ => "trace",
    }
}

/// The name of an output format in the startup banner.
pub open spec fn spec_format_label(f: OutputFormat) -> Seq<char> {
    match f {
        OutputFormat::Text => "text (default)"@,
        OutputFormat::Json => "json"@,
        OutputFormat::Csv => "csv"@,
        OutputFormat::Html => "html"@,
    }
}

/// The name of an output format in the startup banner.
pub fn format_label(f: OutputFormat) -> (r: &'static str)
    ensures
        r@ == spec_format_label(f),
{
    match f {
        OutputFormat::Text => "text (default)",
        OutputFormat::Json => "json",
        OutputFormat::Csv => "csv",
        OutputFormat::Html => "html",
    }
}

impl CliArgs {
    /// The optional probes that are switched on, in banner order.
    pub open spec fn spec_enabled_probes(self) -> Seq<Seq<char>> {
        (if self.banner { seq!["banner-grab"@] } else { Seq::empty() }) + (if self.resolve_dns {
            seq!["dns-resolve"@]
        } else {
            Seq::empty()
        }) + (if self.tls { seq!["tls-probe"@] } else { Seq::empty() })
    }

    /// The optional probes that are switched on: banner grabbing, reverse
    /// DNS, TLS probing.
    pub fn enabled_probes(&self) -> (r: Vec<&'static str>)
        ensures
            r@.map_values(|s: &'static str| s@) == self.spec_enabled_probes(),
    {
        let mut extras: Vec<&'static str> = Vec::new();
        if self.banner {
            extras.push("banner-grab");
        }
        if self.resolve_dns {
            extras.push("dns-resolve");
        }
        if self.tls {
            extras.push("tls-probe");
        }
        assert(extras@.map_values(|s: &'static str| s@) =~= self.spec_enabled_probes());
        extras
    }

    /// The startup banner is shown for every output format but JSON.
    pub fn shows_startup_banner(&self) -> (r: bool)
        ensures
            r == (self.spec_output_format() != OutputFormat::Json),
    {
        self.output_format() != OutputFormat::Json
    }

    /// The hint about `-v` is shown for plain text output without `-v`.
    pub fn shows_verbosity_hint(&self) -> (r: bool)
        ensures
            r == (self.verbose == 0 && self.spec_output_format() == OutputFormat::Text),
    {
        self.verbose == 0 && self.output_format() == OutputFormat::Text
    }

    /// The concurrency is high enough to warn about descriptor limits.
    pub fn concurrency_is_high(&self) -> (r: bool)
        ensures
            r == (self.concurrency > HIGH_CONCURRENCY),
    {
        self.concurrency > HIGH_CONCURRENCY
    }
}

/// The arguments are valid exactly when the target is not blank, the
/// ports satisfy 1 <= start <= end, the timeout is between 1 ms and
/// [`MAX_TIMEOUT_MS`], and the concurrency between 1 and
/// [`MAX_CONCURRENCY`].
pub proof fn lemma_valid_arguments(args: CliArgs)
    ensures
        args.validation_failure() is None <==> {
            &&& !spec_is_blank(args.target@)
            &&& 1 <= args.start_port <= args.end_port
            &&& 1 <= args.timeout <= MAX_TIMEOUT_MS
            &&& 1 <= args.concurrency <= MAX_CONCURRENCY
        },
{
}

} // verus!
