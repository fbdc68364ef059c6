use std::time::Duration;

use rustscan_rs::json_report::{json_port, json_report, transport_name, JsonReport};
use rustscan_rs::scanner::{PortResult, PortStatus, ScanResult};
use rustscan_rs::service::{detect_service, Transport};

fn port(p: u16, protocol: Transport, status: PortStatus, banner: Option<&str>) -> PortResult {
    PortResult {
        port: p,
        protocol,
        status,
        service: detect_service(p, protocol),
        banner: banner.map(|b| b.to_string()),
        tls: p == 443,
        tls_cert: None,
    }
}

fn host(target: &str, ports: Vec<PortResult>) -> ScanResult {
    ScanResult {
        target: target.into(),
        hostname: None,
        total_ports: ports.len() as u32,
        elapsed: Duration::from_millis(10),
        ports,
    }
}

#[test]
fn transport_names_are_variant_names() {
    assert_eq!(transport_name(Transport::Tcp), "Tcp");
    assert_eq!(transport_name(Transport::Udp), "Udp");
    assert_eq!(transport_name(Transport::TcpUdp), "TcpUdp");
}

#[test]
fn port_record_carries_status_banner_and_service() {
    let j = json_port(&port(22, Transport::Tcp, PortStatus::Open, Some("SSH-2.0")));
    assert_eq!(j.port, 22);
    assert_eq!(j.status, "open");
    assert!(!j.is_tls);
    assert_eq!(j.banner.as_deref(), Some("SSH-2.0"));
    assert_eq!(j.service.name, "SSH");
    assert_eq!(j.service.transport, "Tcp");
    assert!(j.service.known);
    let j = json_port(&port(55000, Transport::Udp, PortStatus::OpenFiltered, None));
    assert_eq!(j.status, "open|filtered");
    assert!(j.banner.is_none());
    assert_eq!(j.service.name, "EPHEMERAL");
    let j = json_port(&port(4, Transport::Tcp, PortStatus::Closed, None));
    assert_eq!(j.service.name, "Unknown");
    assert!(!j.service.known);
}

#[test]
fn single_host_document_is_the_host() {
    let results = vec![host(
        "127.0.0.1",
        vec![
            port(22, Transport::Tcp, PortStatus::Open, None),
            port(23, Transport::Tcp, PortStatus::Closed, None),
            port(443, Transport::Tcp, PortStatus::Open, None),
        ],
    )];
    match json_report("localhost", &results, &[12], 15) {
        JsonReport::Single { target, host } => {
            assert_eq!(target, "localhost");
            assert_eq!(host.host, "127.0.0.1");
            assert_eq!(host.total_ports, 3);
            assert_eq!(host.open_count, 2);
            assert_eq!(host.elapsed_ms, 12);
            assert_eq!(host.open_ports, vec![22, 443]);
            let ports: Vec<u16> = host.all_ports.iter().map(|p| p.port).collect();
            assert_eq!(ports, vec![22, 23, 443]);
            assert!(host.all_ports[2].is_tls);
        }
        JsonReport::Multi { .. } => panic!("one host gives the single-host document"),
    }
}

#[test]
fn multi_host_document_sums_open_ports() {
    let results = vec![
        host("10.0.0.1", vec![port(80, Transport::Tcp, PortStatus::Open, None)]),
        host("10.0.0.2", vec![port(80, Transport::Tcp, PortStatus::Filtered, None)]),
        host(
            "10.0.0.3",
            vec![
                port(53, Transport::Udp, PortStatus::Open, None),
                port(80, Transport::Tcp, PortStatus::Open, None),
            ],
        ),
    ];
    match json_report("10.0.0.0/30", &results, &[1, 2, 3], 7) {
        JsonReport::Multi { target_spec, hosts_scanned, total_open_ports, total_elapsed_ms, hosts } => {
            assert_eq!(target_spec, "10.0.0.0/30");
            assert_eq!(hosts_scanned, 3);
            assert_eq!(total_open_ports, 3);
            assert_eq!(total_elapsed_ms, 7);
            let names: Vec<&str> = hosts.iter().map(|h| h.host.as_str()).collect();
            assert_eq!(names, vec!["10.0.0.1", "10.0.0.2", "10.0.0.3"]);
            assert!(hosts[1].open_ports.is_empty());
            assert_eq!(hosts[2].open_ports, vec![53, 80]);
            assert_eq!(hosts[2].elapsed_ms, 3);
            assert_eq!(hosts[2].all_ports[0].service.transport, "Udp");
        }
        JsonReport::Single { .. } => panic!("several hosts give the multi-host document"),
    }
}

#[test]
fn empty_scan_gives_multi_host_document() {
    match json_report("nothing", &[], &[], 0) {
        JsonReport::Multi { hosts_scanned, hosts, .. } => {
            assert_eq!(hosts_scanned, 0);
            assert!(hosts.is_empty());
        }
        JsonReport::Single { .. } => panic!("no hosts give the multi-host document"),
    }
}
