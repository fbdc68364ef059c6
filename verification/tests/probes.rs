use rustscan_rs::probes::{
    banner_start, banner_step, clean_banner, handshake_cert_info, BannerAction, BannerEvent,
    BannerPhase,
};
use rustscan_rs::tls::parse_cert;

#[test]
fn clean_banner_removes_newlines_and_control_chars() {
    let raw = b"SSH-2.0-OpenSSH_8.2p1 Ubuntu-4ubuntu0.5\r\nSome other junk";
    let cleaned = clean_banner(raw);
    assert_eq!(cleaned, "SSH-2.0-OpenSSH_8.2p1 Ubuntu-4ubuntu0.5");
}

#[test]
fn clean_banner_handles_binary_garbage() {
    let raw = [0xff, 0x00, 0x1b, b'H', b'T', b'T', b'P', 0x00];
    let cleaned = clean_banner(&raw);
    assert_eq!(cleaned, "HTTP");
}

// ── Further cases ────────────────────────────────────────────────────────

/// The cleaning as the text-based definition states it.
fn reference_clean(data: &[u8]) -> String {
    let raw = String::from_utf8_lossy(data);
    raw.lines()
        .next()
        .unwrap_or("")
        .chars()
        .filter(|c| !c.is_control() && c.is_ascii())
        .collect::<String>()
        .trim()
        .to_string()
}

#[test]
fn clean_banner_edge_cases() {
    assert_eq!(clean_banner(b""), "");
    assert_eq!(clean_banner(b"\n220 ready"), "");
    assert_eq!(clean_banner(b"   220  mail ready  \r\n"), "220  mail ready");
    assert_eq!(clean_banner("caf\u{e9} \u{2014} ok".as_bytes()), "caf  ok");
    assert_eq!(clean_banner(b"\tkey\x7fvalue"), "keyvalue");
}

#[test]
fn clean_banner_agrees_with_lossy_decoding() {
    let mut x: u32 = 12345;
    for len in 0..300usize {
        let mut v = Vec::new();
        for _ in 0..len {
            x = x.wrapping_mul(1_103_515_245).wrapping_add(12_345);
            v.push((x >> 16) as u8);
        }
        assert_eq!(clean_banner(&v), reference_clean(&v));
    }
}

#[test]
fn clean_banner_is_idempotent() {
    let once = clean_banner(b"  FTP server\x01 ready \nmore");
    assert_eq!(clean_banner(once.as_bytes()), once);
}

#[test]
fn banner_from_greeting() {
    let (phase, action) = banner_start();
    assert_eq!(phase, BannerPhase::Greeting);
    assert!(matches!(action, BannerAction::Read));
    let (_, action) = banner_step(phase, BannerEvent::Received(b"SSH-2.0-x\r\n".to_vec()));
    match action {
        BannerAction::Finish(Some(b)) => assert_eq!(b, "SSH-2.0-x"),
        other => panic!("unexpected {other:?}"),
    }
}

#[test]
fn banner_from_http_probe() {
    let (phase, action) = banner_step(BannerPhase::Greeting, BannerEvent::Silent);
    assert_eq!(phase, BannerPhase::Probe);
    match action {
        BannerAction::Send(bytes) => assert_eq!(bytes, b"HEAD / HTTP/1.0\r\n\r\n".to_vec()),
        other => panic!("unexpected {other:?}"),
    }
    let (phase, action) = banner_step(phase, BannerEvent::Sent);
    assert_eq!(phase, BannerPhase::Reply);
    assert!(matches!(action, BannerAction::Read));
    let (_, action) = banner_step(phase, BannerEvent::Received(b"HTTP/1.0 200 OK\r\n".to_vec()));
    assert!(matches!(action, BannerAction::Finish(Some(ref b)) if b == "HTTP/1.0 200 OK"));
}

#[test]
fn banner_gives_up_quietly() {
    let (phase, _) = banner_step(BannerPhase::Greeting, BannerEvent::Received(Vec::new()));
    assert_eq!(phase, BannerPhase::Probe);
    let (_, action) = banner_step(BannerPhase::Probe, BannerEvent::SendFailed);
    assert!(matches!(action, BannerAction::Finish(None)));
    let (_, action) = banner_step(BannerPhase::Reply, BannerEvent::Silent);
    assert!(matches!(action, BannerAction::Finish(None)));
    let (_, action) = banner_step(BannerPhase::Reply, BannerEvent::Received(Vec::new()));
    assert!(matches!(action, BannerAction::Finish(None)));
}

#[test]
fn handshake_without_certificate_reports_placeholder() {
    let info = handshake_cert_info(None);
    assert_eq!(info.subject, "Unknown (TLS Handshake OK)");
    assert_eq!(info.issuer, "Unknown");
    assert_eq!(info.not_before, "");
    assert_eq!(info.not_after, "");
}

#[test]
fn unparsable_certificate_reports_placeholder() {
    let junk = [0x30u8, 0x03, 0x01, 0x02, 0x03];
    assert!(parse_cert(&junk).is_none());
    let info = handshake_cert_info(Some(&junk[..]));
    assert_eq!(info.subject, "Unknown (TLS Handshake OK)");
    assert_eq!(info.issuer, "Unknown");
    assert_eq!(info.not_before, "");
    assert_eq!(info.not_after, "");
}
