use rustscan_rs::service::{detect_service, ServiceInfo, Transport};

#[test]
fn ftp_detected_on_port_21() {
    let s = detect_service(21, Transport::Tcp);
    assert_eq!(s.name, "FTP");
    assert_eq!(s.transport, Transport::Tcp);
    assert!(s.is_known());
}

#[test]
fn ssh_detected_on_port_22() {
    let s = detect_service(22, Transport::Tcp);
    assert_eq!(s.name, "SSH");
    assert!(s.is_known());
}

#[test]
fn http_detected_on_port_80() {
    let s = detect_service(80, Transport::Tcp);
    assert_eq!(s.name, "HTTP");
}

#[test]
fn https_detected_on_port_443() {
    let s = detect_service(443, Transport::Tcp);
    assert_eq!(s.name, "HTTPS");
}

#[test]
fn smb_detected_on_port_445() {
    let s = detect_service(445, Transport::Tcp);
    assert_eq!(s.name, "SMB");
}

#[test]
fn mysql_detected_on_port_3306() {
    let s = detect_service(3306, Transport::Tcp);
    assert_eq!(s.name, "MYSQL");
}

#[test]
fn rdp_detected_on_port_3389() {
    let s = detect_service(3389, Transport::Tcp);
    assert_eq!(s.name, "RDP");
    assert!(s.is_known());
}

#[test]
fn postgresql_detected_on_port_5432() {
    let s = detect_service(5432, Transport::Tcp);
    assert_eq!(s.name, "POSTGRESQL");
}

#[test]
fn redis_detected_on_port_6379() {
    let s = detect_service(6379, Transport::Tcp);
    assert_eq!(s.name, "REDIS");
}

#[test]
fn http_proxy_detected_on_port_8080() {
    let s = detect_service(8080, Transport::Tcp);
    assert_eq!(s.name, "HTTP-PROXY");
}

#[test]
fn mongodb_detected_on_port_27017() {
    let s = detect_service(27017, Transport::Tcp);
    assert_eq!(s.name, "MONGODB");
}

// ── Mixed-protocol ports ──────────────────────────────────────────────

#[test]
fn dns_is_tcp_udp() {
    // if probed as TCP, it will refine to TCP
    assert_eq!(detect_service(53, Transport::Tcp).transport, Transport::Tcp);
}

#[test]
fn ntp_is_udp() {
    assert_eq!(detect_service(123, Transport::Udp).transport, Transport::Udp);
}

// ── Unknown / ephemeral ───────────────────────────────────────────────

#[test]
fn unknown_port_returns_unknown() {
    let s = detect_service(31337, Transport::Tcp);
    assert_eq!(s.name, "Unknown");
    assert!(!s.is_known());
}

#[test]
fn port_zero_returns_unknown() {
    let s = detect_service(0, Transport::Tcp);
    assert!(!s.is_known());
}

#[test]
fn ephemeral_port_has_ephemeral_label() {
    // 49152 is the start of IANA's dynamic/private port range
    let s = detect_service(49152, Transport::Tcp);
    assert_eq!(s.name, "EPHEMERAL");
    assert!(s.is_known()); // "EPHEMERAL" is a known category
}

#[test]
fn high_dynamic_port_is_ephemeral() {
    let s = detect_service(60000, Transport::Tcp);
    assert_eq!(s.name, "EPHEMERAL");
}

#[test]
fn max_port_is_ephemeral() {
    let s = detect_service(65535, Transport::Tcp);
    assert_eq!(s.name, "EPHEMERAL");
}

// ── ServiceInfo helpers ───────────────────────────────────────────────

#[test]
fn display_known_service_includes_name_and_description() {
    let s = detect_service(22, Transport::Tcp); // SSH
    let d = s.display();
    assert!(d.contains("SSH"));
    assert!(d.contains("Secure Shell"));
}

#[test]
fn display_unknown_returns_unknown_string() {
    let s = detect_service(31337, Transport::Tcp);
    assert_eq!(s.display(), "Unknown");
}

#[test]
fn service_info_is_copy() {
    let s = detect_service(80, Transport::Tcp);
    let s2 = s; // copy, not move
    let _s3 = s; // the first copy is still usable
    assert_eq!(s2.name, "HTTP");
}

// ── Commonly required ports ───────────────────────────────────────────

#[test]
fn required_ports_all_known() {
    let required = [21, 22, 25, 53, 80, 110, 143, 443, 445, 3306, 3389, 5432, 6379, 8080];
    for port in required {
        let s = detect_service(port, Transport::Tcp);
        assert!(
            s.is_known(),
            "port {port} should be known, got '{}'",
            s.name
        );
    }
}

// ── Further cases ────────────────────────────────────────────────────────

#[test]
fn dns_probed_over_udp_reports_udp() {
    let s = detect_service(53, Transport::Udp);
    assert_eq!(s.name, "DNS");
    assert_eq!(s.transport, Transport::Udp);
}

#[test]
fn single_transport_service_keeps_its_transport() {
    // NTP is a UDP service even when probed over TCP.
    assert_eq!(detect_service(123, Transport::Tcp).transport, Transport::Udp);
    // SSH is a TCP service even when probed over UDP.
    assert_eq!(detect_service(22, Transport::Udp).transport, Transport::Tcp);
}

#[test]
fn unknown_port_takes_probed_transport() {
    let s = detect_service(31337, Transport::Udp);
    assert_eq!(s.transport, Transport::Udp);
    assert_eq!(s.description, "No service mapping for this port");
}

#[test]
fn sap_port_inside_dynamic_range_keeps_its_entry() {
    let s = detect_service(50000, Transport::Tcp);
    assert_eq!(s.name, "SAP");
    assert_eq!(detect_service(49999, Transport::Tcp).name, "EPHEMERAL");
    assert_eq!(detect_service(49151, Transport::Tcp).name, "Unknown");
}

#[test]
fn display_joins_name_and_description() {
    let s = detect_service(80, Transport::Tcp);
    assert_eq!(s.display(), "HTTP — HyperText Transfer Protocol");
}

#[test]
fn every_port_is_classified_consistently() {
    for port in 0..=u16::MAX {
        let s = detect_service(port, Transport::Tcp);
        assert_eq!(s.is_known(), s.name != "Unknown");
        assert_ne!(s.transport, Transport::TcpUdp);
        let u = detect_service(port, Transport::Udp);
        assert_eq!(s.name, u.name);
        assert_eq!(s.description, u.description);
    }
}

#[test]
fn hand_built_service_info() {
    let s = ServiceInfo { name: "http", transport: Transport::Tcp, description: "web server" };
    assert!(s.is_known());
    assert_eq!(s.display(), "http — web server");
}
