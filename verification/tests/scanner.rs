use std::time::Duration;

use rustscan_rs::cli::CliArgs;
use rustscan_rs::ip::IpAddress;
use rustscan_rs::scanner::{
    tcp_followups, tcp_port_result, tcp_status, udp_port_result, udp_status,
    ConnectOutcome, IoFailure, PortResult, PortStatus, ReplyOutcome, ScanCollector, ScanConfig, ScanResult,
};
use rustscan_rs::service::{detect_service, Transport};
use rustscan_rs::tls::TlsCertInfo;

fn make_result(statuses: &[(u16, PortStatus)]) -> ScanResult {
    ScanResult {
        target: "127.0.0.1".to_string(),
        hostname: None,
        total_ports: statuses.len() as u32,
        elapsed: Duration::from_millis(1),
        ports: statuses
            .iter()
            .map(|(p, s)| PortResult {
                port: *p,
                protocol: Transport::Tcp,
                status: s.clone(),
                service: detect_service(*p, Transport::Tcp),
                banner: None,
                tls: false,
                tls_cert: None,
            })
            .collect(),
    }
}

#[test]
fn open_count_counts_only_open_ports() {
    let scan = make_result(&[
        (22, PortStatus::Open),
        (80, PortStatus::Open),
        (443, PortStatus::Closed),
        (8080, PortStatus::Filtered),
    ]);
    assert_eq!(scan.open_count(), 2);
}

#[test]
fn open_ports_iter_filters_correctly() {
    let scan = make_result(&[
        (22, PortStatus::Open),
        (80, PortStatus::Closed),
        (443, PortStatus::Open),
    ]);
    let open: Vec<u16> = scan.open_ports().iter().map(|r| r.port).collect();
    assert_eq!(open, vec![22, 443]);
}

// ── Further cases ────────────────────────────────────────────────────────

fn config(start: u16, end: u16, tcp: bool, udp: bool) -> ScanConfig {
    ScanConfig {
        addr: IpAddress::V4(0x7f000001),
        start_port: start,
        end_port: end,
        timeout: Duration::from_millis(200),
        concurrency: 10,
        banner: false,
        tls: false,
        resolve_dns: false,
        tcp,
        udp,
    }
}

#[test]
fn open_filtered_counts_as_open() {
    let scan = make_result(&[(53, PortStatus::OpenFiltered), (54, PortStatus::Closed)]);
    assert_eq!(scan.open_count(), 1);
}

#[test]
fn tcp_outcomes_classify_ports() {
    assert_eq!(tcp_status(ConnectOutcome::Connected), Some(PortStatus::Open));
    assert_eq!(tcp_status(ConnectOutcome::TimedOut), Some(PortStatus::Filtered));
    assert_eq!(
        tcp_status(ConnectOutcome::Failed(IoFailure::ConnectionRefused)),
        Some(PortStatus::Closed)
    );
    for kind in [
        IoFailure::TimedOut,
        IoFailure::HostUnreachable,
        IoFailure::NetworkUnreachable,
        IoFailure::PermissionDenied,
    ] {
        assert_eq!(tcp_status(ConnectOutcome::Failed(kind)), Some(PortStatus::Filtered));
    }
    assert_eq!(tcp_status(ConnectOutcome::Failed(IoFailure::Other)), None);
    assert_eq!(tcp_status(ConnectOutcome::Failed(IoFailure::ConnectionReset)), None);
}

#[test]
fn udp_outcomes_classify_ports() {
    assert_eq!(udp_status(ReplyOutcome::Received), PortStatus::Open);
    assert_eq!(udp_status(ReplyOutcome::TimedOut), PortStatus::OpenFiltered);
    assert_eq!(udp_status(ReplyOutcome::Failed(IoFailure::ConnectionReset)), PortStatus::Closed);
    assert_eq!(udp_status(ReplyOutcome::Failed(IoFailure::PermissionDenied)), PortStatus::Closed);
    assert_eq!(udp_status(ReplyOutcome::Failed(IoFailure::Other)), PortStatus::OpenFiltered);
}

#[test]
fn open_tcp_port_keeps_banner_and_certificate() {
    let cert = TlsCertInfo {
        subject: "CN=example".into(),
        issuer: "CN=ca".into(),
        not_before: "a".into(),
        not_after: "b".into(),
    };
    let r = tcp_port_result(443, ConnectOutcome::Connected, Some("hi".into()), Some(cert.clone()))
        .unwrap();
    assert_eq!(r.port, 443);
    assert_eq!(r.status, PortStatus::Open);
    assert_eq!(r.service.name, "HTTPS");
    assert_eq!(r.banner.as_deref(), Some("hi"));
    assert!(r.tls);
    assert_eq!(r.tls_cert, Some(cert));
}

#[test]
fn closed_tcp_port_has_no_banner() {
    let r = tcp_port_result(
        22,
        ConnectOutcome::Failed(IoFailure::ConnectionRefused),
        Some("ignored".into()),
        None,
    )
    .unwrap();
    assert_eq!(r.status, PortStatus::Closed);
    assert_eq!(r.banner, None);
    assert!(!r.tls);
    assert!(tcp_port_result(22, ConnectOutcome::Failed(IoFailure::Other), None, None).is_none());
}

#[test]
fn udp_port_result_uses_udp_service_hint() {
    let r = udp_port_result(53, ReplyOutcome::TimedOut);
    assert_eq!(r.protocol, Transport::Udp);
    assert_eq!(r.status, PortStatus::OpenFiltered);
    assert_eq!(r.service.transport, Transport::Udp);
    assert!(!r.tls);
}

#[test]
fn followups_only_for_open_ports() {
    assert_eq!(tcp_followups(PortStatus::Open, true, false), (true, false));
    assert_eq!(tcp_followups(PortStatus::Open, true, true), (true, true));
    assert_eq!(tcp_followups(PortStatus::Closed, true, true), (false, false));
}

#[test]
fn protocols_default_to_tcp() {
    assert_eq!(config(1, 10, false, false).protocols(), vec![Transport::Tcp]);
    assert_eq!(config(1, 10, true, true).protocols(), vec![Transport::Tcp, Transport::Udp]);
    assert_eq!(config(1, 10, false, true).protocols(), vec![Transport::Udp]);
}

#[test]
fn jobs_cover_every_port_and_protocol() {
    let c = config(5, 8, true, true);
    let jobs = c.jobs();
    assert_eq!(jobs.len() as u32, c.total_ports());
    assert_eq!(c.total_ports(), 8);
    assert_eq!(jobs[0], (5, Transport::Tcp));
    assert_eq!(jobs[1], (5, Transport::Udp));
    assert_eq!(jobs[7], (8, Transport::Udp));
    let full = config(1, 65535, true, false);
    assert_eq!(full.jobs().len(), 65535);
    assert_eq!(full.total_ports(), 65535);
}

#[test]
fn collector_assembles_results_in_port_order() {
    let mut c = config(1, 4, false, true);
    c.resolve_dns = true;
    let mut collector = ScanCollector::new(c);
    assert_eq!(collector.jobs().len(), 4);
    for k in [3usize, 1, 2, 0] {
        let port = collector.jobs()[k].0;
        let (next, ok) = collector.record(k, udp_port_result(port, ReplyOutcome::Received));
        assert!(ok);
        collector = next;
    }
    let r = collector
        .finish(Some("localhost".to_string()), Duration::from_millis(3))
        .expect("every probe answered");
    let ports: Vec<u16> = r.ports.iter().map(|p| p.port).collect();
    assert_eq!(ports, vec![1, 2, 3, 4]);
    assert_eq!(r.total_ports, 4);
    assert_eq!(r.target, "127.0.0.1");
    assert_eq!(r.hostname.as_deref(), Some("localhost"));
    assert_eq!(r.elapsed, Duration::from_millis(3));
}

#[test]
fn collector_covers_both_protocols() {
    let mut collector = ScanCollector::new(config(10, 11, true, true));
    let jobs = collector.jobs().clone();
    assert_eq!(jobs.len(), 4);
    for (k, (port, proto)) in jobs.into_iter().enumerate().rev() {
        let result = match proto {
            Transport::Udp => udp_port_result(port, ReplyOutcome::Received),
            _ => tcp_port_result(port, ConnectOutcome::Connected, None, None).unwrap(),
        };
        let (next, ok) = collector.record(k, result);
        assert!(ok);
        collector = next;
    }
    let r = collector.finish(None, Duration::from_millis(1)).unwrap();
    let keys: Vec<(u16, Transport)> = r.ports.iter().map(|p| (p.port, p.protocol)).collect();
    assert_eq!(
        keys,
        vec![(10, Transport::Tcp), (10, Transport::Udp), (11, Transport::Tcp), (11, Transport::Udp)]
    );
    assert_eq!(r.total_ports, 4);
}

#[test]
fn collector_rejects_mismatched_or_repeated_results() {
    let collector = ScanCollector::new(config(1, 2, true, false));
    let (collector, ok) = collector.record(0, udp_port_result(1, ReplyOutcome::Received));
    assert!(!ok);
    let (collector, ok) = collector.record(0, tcp_port_result(2, ConnectOutcome::Connected, None, None).unwrap());
    assert!(!ok);
    let (collector, ok) = collector.record(5, tcp_port_result(1, ConnectOutcome::Connected, None, None).unwrap());
    assert!(!ok);
    let (collector, ok) = collector.record(0, tcp_port_result(1, ConnectOutcome::Connected, None, None).unwrap());
    assert!(ok);
    let (collector, ok) = collector.record(0, tcp_port_result(1, ConnectOutcome::Connected, None, None).unwrap());
    assert!(!ok);
    assert!(collector.finish(None, Duration::from_millis(1)).is_none());
}

#[test]
fn collector_ignores_hostname_without_dns() {
    let collector = ScanCollector::new(config(80, 80, true, false));
    let (collector, ok) = collector.record(0, tcp_port_result(80, ConnectOutcome::Connected, None, None).unwrap());
    assert!(ok);
    let r = collector.finish(Some("web".to_string()), Duration::from_millis(1)).unwrap();
    assert!(r.hostname.is_none());
    assert_eq!(r.ports.len(), 1);
    assert_eq!(r.open_count(), 1);
}

#[test]
fn inverted_range_has_no_ports() {
    let c = config(10, 5, true, false);
    assert_eq!(c.total_ports(), 0);
    assert!(c.jobs().is_empty());
    let collector = ScanCollector::new(c);
    assert!(collector.jobs().is_empty());
    let r = collector.finish(None, Duration::from_millis(1)).unwrap();
    assert!(r.ports.is_empty());
    assert_eq!(r.total_ports, 0);
}

#[test]
fn config_from_arguments() {
    let args = CliArgs {
        target: "h".into(),
        start_port: 10,
        end_port: 20,
        timeout: 5,
        concurrency: 3,
        json: None,
        csv: None,
        html: None,
        udp: true,
        tcp: false,
        banner: true,
        resolve_dns: false,
        tls: true,
        verbose: 0,
    };
    let c = ScanConfig::from_args(&args, IpAddress::V4(1), Duration::from_millis(5));
    assert!(!c.tcp);
    assert!(c.udp);
    assert!(c.banner && c.tls && !c.resolve_dns);
    assert_eq!((c.start_port, c.end_port, c.concurrency), (10, 20, 3));
}
