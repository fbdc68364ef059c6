use rustscan_rs::cli::{
    format_label, log_level, CliArgs, OutputFormat, DEFAULT_CONCURRENCY, DEFAULT_TIMEOUT_MS,
    MAX_CONCURRENCY, MAX_TIMEOUT_MS,
};
use rustscan_rs::errors::RustScanError;

/// Build a minimal valid `CliArgs`.
fn valid_args() -> CliArgs {
    CliArgs {
        target: "127.0.0.1".to_string(),
        start_port: 1,
        end_port: 1024,
        timeout: DEFAULT_TIMEOUT_MS,
        concurrency: DEFAULT_CONCURRENCY,
        json: None,
        csv: None,
        html: None,
        banner: false,
        resolve_dns: false,
        tls: false,
        tcp: true,
        udp: false,
        verbose: 0,
    }
}

#[test]
fn valid_configuration_passes() {
    assert!(valid_args().validate().is_ok());
}

#[test]
fn inverted_port_range_fails() {
    let mut args = valid_args();
    args.start_port = 1024;
    args.end_port = 1;
    let err = args.validate().unwrap_err();
    assert!(matches!(err, RustScanError::InvalidPortRange { .. }));
}

#[test]
fn zero_start_port_fails() {
    let mut args = valid_args();
    args.start_port = 0;
    let err = args.validate().unwrap_err();
    assert!(matches!(err, RustScanError::PortOutOfRange { .. }));
}

#[test]
fn zero_timeout_fails() {
    let mut args = valid_args();
    args.timeout = 0;
    let err = args.validate().unwrap_err();
    assert!(matches!(err, RustScanError::InvalidTimeout { .. }));
}

#[test]
fn timeout_at_ceiling_passes() {
    let mut args = valid_args();
    args.timeout = MAX_TIMEOUT_MS;
    assert!(args.validate().is_ok());
}

#[test]
fn timeout_above_ceiling_fails() {
    let mut args = valid_args();
    args.timeout = MAX_TIMEOUT_MS + 1;
    assert!(matches!(
        args.validate().unwrap_err(),
        RustScanError::InvalidTimeout { .. }
    ));
}

#[test]
fn zero_concurrency_fails() {
    let mut args = valid_args();
    args.concurrency = 0;
    assert!(matches!(
        args.validate().unwrap_err(),
        RustScanError::InvalidConcurrency { .. }
    ));
}

#[test]
fn concurrency_at_max_passes() {
    let mut args = valid_args();
    args.concurrency = MAX_CONCURRENCY;
    assert!(args.validate().is_ok());
}

#[test]
fn concurrency_above_max_fails() {
    let mut args = valid_args();
    args.concurrency = MAX_CONCURRENCY + 1;
    assert!(matches!(
        args.validate().unwrap_err(),
        RustScanError::InvalidConcurrency { .. }
    ));
}

#[test]
fn empty_target_fails() {
    let mut args = valid_args();
    args.target = "   ".to_string();
    assert!(matches!(
        args.validate().unwrap_err(),
        RustScanError::InvalidTarget { .. }
    ));
}

#[test]
fn output_format_defaults_to_text() {
    assert_eq!(valid_args().output_format(), OutputFormat::Text);
}

#[test]
fn output_format_json() {
    let mut args = valid_args();
    args.json = Some("".to_string());
    assert_eq!(args.output_format(), OutputFormat::Json);
}

// ── Further cases ────────────────────────────────────────────────────────

#[test]
fn zero_end_port_reports_port_zero() {
    let mut args = valid_args();
    args.end_port = 0;
    match args.validate().unwrap_err() {
        RustScanError::PortOutOfRange { port } => assert_eq!(port, 0),
        other => panic!("unexpected error {other:?}"),
    }
}

#[test]
fn inverted_range_reports_both_ports() {
    let mut args = valid_args();
    args.start_port = 100;
    args.end_port = 50;
    match args.validate().unwrap_err() {
        RustScanError::InvalidPortRange { start, end } => {
            assert_eq!((start, end), (100, 50));
        }
        other => panic!("unexpected error {other:?}"),
    }
}

#[test]
fn blank_target_is_checked_before_ports() {
    let mut args = valid_args();
    args.target = "\t\u{3000} \n".to_string();
    args.start_port = 0;
    match args.validate().unwrap_err() {
        RustScanError::InvalidTarget { target } => assert_eq!(target, "\t\u{3000} \n"),
        other => panic!("unexpected error {other:?}"),
    }
}

#[test]
fn concurrency_error_reports_maximum() {
    let mut args = valid_args();
    args.concurrency = 70000;
    match args.validate().unwrap_err() {
        RustScanError::InvalidConcurrency { value, max } => {
            assert_eq!((value, max), (70000, 65535));
        }
        other => panic!("unexpected error {other:?}"),
    }
}

#[test]
fn timeout_error_reports_value() {
    let mut args = valid_args();
    args.timeout = 300_001;
    match args.validate().unwrap_err() {
        RustScanError::InvalidTimeout { ms } => assert_eq!(ms, 300_001),
        other => panic!("unexpected error {other:?}"),
    }
}

#[test]
fn output_format_priority() {
    let mut args = valid_args();
    args.csv = Some("out.csv".to_string());
    args.html = Some("out.html".to_string());
    assert_eq!(args.output_format(), OutputFormat::Csv);
    args.csv = None;
    assert_eq!(args.output_format(), OutputFormat::Html);
    args.json = Some("x".to_string());
    assert_eq!(args.output_format(), OutputFormat::Json);
}

#[test]
fn tcp_is_default_protocol() {
    let mut args = valid_args();
    args.tcp = false;
    args.udp = false;
    assert!(args.do_tcp());
    assert!(!args.do_udp());
    args.udp = true;
    assert!(!args.do_tcp());
    assert!(args.do_udp());
    args.tcp = true;
    assert!(args.do_tcp());
}

#[test]
fn log_levels_by_verbosity() {
    assert_eq!(log_level(0), "warn");
    assert_eq!(log_level(1), "info");
    assert_eq!(log_level(2), "debug");
    assert_eq!(log_level(3), "trace");
    assert_eq!(log_level(200), "trace");
}

#[test]
fn startup_banner_decisions() {
    let mut args = valid_args();
    assert!(args.shows_startup_banner());
    assert!(args.shows_verbosity_hint());
    assert!(args.enabled_probes().is_empty());
    args.banner = true;
    args.tls = true;
    assert_eq!(args.enabled_probes(), vec!["banner-grab", "tls-probe"]);
    args.resolve_dns = true;
    assert_eq!(args.enabled_probes(), vec!["banner-grab", "dns-resolve", "tls-probe"]);
    args.verbose = 1;
    assert!(!args.shows_verbosity_hint());
    args.json = Some(String::new());
    assert!(!args.shows_startup_banner());
    assert_eq!(format_label(OutputFormat::Text), "text (default)");
    assert_eq!(format_label(OutputFormat::Html), "html");
    args.concurrency = 10_001;
    assert!(args.concurrency_is_high());
    args.concurrency = 10_000;
    assert!(!args.concurrency_is_high());
}

#[test]
fn test_invalid_start_port_rejected() {
    let mut args = valid_args();
    args.start_port = 0;
    let err = args.validate().unwrap_err();
    assert!(err
        .message()
        .contains("port value 0 is out of the valid range 1–65535"));
}

#[test]
fn test_inverted_port_range_rejected() {
    let mut args = valid_args();
    args.start_port = 100;
    args.end_port = 50;
    let err = args.validate().unwrap_err();
    assert!(matches!(err, RustScanError::InvalidPortRange { start: 100, end: 50 }));
    assert!(err
        .message()
        .contains("start port 100 is greater than end port 50"));
}
