use std::time::Duration;

use rustscan_rs::export::{flatten_results, status_label, ExportRecord};
use rustscan_rs::output::{
    csv_line, csv_lines, escape, hosts_with_open_ports, html_detail, port_proto, text_detail,
    total_open_ports, transport_label, Escaping,
};
use rustscan_rs::report::ReportTemplate;
use rustscan_rs::scanner::{PortResult, PortStatus, ScanResult};
use rustscan_rs::service::{detect_service, ServiceInfo, Transport};
use rustscan_rs::tls::TlsCertInfo;

#[test]
fn test_export_record_mapping() {
    let pr = PortResult {
        port: 80,
        protocol: Transport::Tcp,
        status: PortStatus::Open,
        service: ServiceInfo { name: "http", transport: Transport::Tcp, description: "web server" },
        banner: Some("nginx".to_string()),
        tls: false,
        tls_cert: None,
    };

    let rec = ExportRecord::from_scan_result("127.0.0.1", None, &pr);
    assert_eq!(rec.host, "127.0.0.1");
    assert_eq!(rec.port, 80);
    assert_eq!(rec.status, "open");
    assert_eq!(rec.banner.as_deref(), Some("nginx"));
}

// ── Further cases ────────────────────────────────────────────────────────

fn port(p: u16, status: PortStatus, banner: Option<&str>, cert: bool) -> PortResult {
    let tls_cert = if cert {
        Some(TlsCertInfo {
            subject: "CN=a".into(),
            issuer: "CN=b".into(),
            not_before: String::new(),
            not_after: String::new(),
        })
    } else {
        None
    };
    PortResult {
        port: p,
        protocol: Transport::Tcp,
        status,
        service: detect_service(p, Transport::Tcp),
        banner: banner.map(|b| b.to_string()),
        tls: cert,
        tls_cert,
    }
}

fn host(target: &str, hostname: Option<&str>, ports: Vec<PortResult>) -> ScanResult {
    ScanResult {
        target: target.into(),
        hostname: hostname.map(|h| h.to_string()),
        total_ports: ports.len() as u32,
        elapsed: Duration::from_millis(10),
        ports,
    }
}

fn sample() -> Vec<ScanResult> {
    vec![
        host(
            "10.0.0.1",
            Some("gw.local"),
            vec![
                port(22, PortStatus::Open, Some("SSH-2.0"), false),
                port(23, PortStatus::Closed, None, false),
                port(443, PortStatus::Open, None, true),
            ],
        ),
        host("10.0.0.2", None, vec![port(80, PortStatus::Filtered, None, false)]),
        host("10.0.0.3", None, vec![port(53, PortStatus::OpenFiltered, Some("a\"b<c>"), false)]),
    ]
}

#[test]
fn record_carries_certificate_and_hostname() {
    let pr = port(443, PortStatus::Open, None, true);
    let name = "gw.local".to_string();
    let rec = ExportRecord::from_scan_result("10.0.0.1", Some(&name), &pr);
    assert_eq!(rec.hostname.as_deref(), Some("gw.local"));
    assert_eq!(rec.service, "HTTPS");
    assert_eq!(rec.tls_subject.as_deref(), Some("CN=a"));
    assert_eq!(rec.tls_issuer.as_deref(), Some("CN=b"));
    assert_eq!(rec.banner, None);
}

#[test]
fn flatten_keeps_only_open_ports_in_order() {
    let results = sample();
    let flat = flatten_results(&results);
    let rows: Vec<(String, u16, String)> =
        flat.iter().map(|r| (r.host.clone(), r.port, r.status.clone())).collect();
    assert_eq!(
        rows,
        vec![
            ("10.0.0.1".to_string(), 22, "open".to_string()),
            ("10.0.0.1".to_string(), 443, "open".to_string()),
            ("10.0.0.3".to_string(), 53, "open|filtered".to_string()),
        ]
    );
    assert_eq!(flat[0].hostname.as_deref(), Some("gw.local"));
    assert_eq!(flat[2].hostname, None);
}

#[test]
fn status_labels() {
    assert_eq!(status_label(PortStatus::Open), "open");
    assert_eq!(status_label(PortStatus::Closed), "closed");
    assert_eq!(status_label(PortStatus::Filtered), "filtered");
    assert_eq!(status_label(PortStatus::OpenFiltered), "open|filtered");
}

#[test]
fn report_summary_counts() {
    let results = sample();
    let rep = ReportTemplate::new(&results, "now".into(), "1.00s".into());
    assert_eq!(rep.total_hosts, 3);
    assert_eq!(rep.total_open_ports, 3);
    assert_eq!(rep.records.len(), 3);
    assert_eq!(rep.current_time, "now");
    assert_eq!(hosts_with_open_ports(&results), 2);
    assert_eq!(total_open_ports(&results), 3);
}

#[test]
fn csv_rendering() {
    let results = sample();
    let lines = csv_lines(&results);
    assert_eq!(
        lines,
        vec![
            "Host,Port,Status,TLS,Service,Banner".to_string(),
            "10.0.0.1,22/tcp,open,false,SSH,\"SSH-2.0\"".to_string(),
            "10.0.0.1,443/tcp,open,true,HTTPS,\"\"".to_string(),
            "10.0.0.3,53/tcp,open|filtered,false,DNS,\"a\"\"b<c>\"".to_string(),
        ]
    );
    let p = port(8080, PortStatus::Open, None, false);
    assert_eq!(csv_line("h", &p), "h,8080/tcp,open,false,HTTP-PROXY,\"\"");
}

#[test]
fn escaping() {
    assert_eq!(escape("a\"b\"\"", Escaping::CsvQuoted), "a\"\"b\"\"\"\"");
    assert_eq!(escape("<script>x</script>", Escaping::Html), "&lt;script&gt;x&lt;/script&gt;");
    assert_eq!(escape("plain — text", Escaping::Html), "plain — text");
    assert_eq!(escape("", Escaping::Html), "");
}

#[test]
fn detail_columns() {
    let with_banner = port(22, PortStatus::Open, Some("<SSH>"), false);
    assert_eq!(text_detail(&with_banner), "<SSH>");
    assert_eq!(html_detail(&with_banner), "<code>&lt;SSH&gt;</code>");
    let known = port(80, PortStatus::Open, None, false);
    assert_eq!(text_detail(&known), "HyperText Transfer Protocol");
    assert_eq!(html_detail(&known), "HyperText Transfer Protocol");
    let unknown = port(31337, PortStatus::Open, None, false);
    assert_eq!(text_detail(&unknown), "");
    assert_eq!(html_detail(&unknown), "No service mapping for this port");
}

#[test]
fn port_and_protocol_labels() {
    let mut p = port(53, PortStatus::Open, None, false);
    assert_eq!(port_proto(&p), "53/tcp");
    p.protocol = Transport::Udp;
    assert_eq!(port_proto(&p), "53/udp");
    assert_eq!(transport_label(Transport::TcpUdp), "tcp/udp");
}
