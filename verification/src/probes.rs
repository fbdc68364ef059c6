//! Service probing decisions: cleaning a grabbed banner, the banner
//! grabbing exchange, and what a completed TLS handshake reports.
//!
//! The sockets, timeouts and the TLS handshake itself are carried out by
//! the application, which reports each outcome back here.
use vstd::prelude::*;

use crate::text::{all_ascii, ascii_chars, ascii_string};
use crate::tls::{TlsCertInfo, parse_cert, x509_fields, holds_fields};

verus! {

/// A printable ASCII byte (not a control character, not beyond ASCII).
pub open spec fn is_printable(b: u8) -> bool {
    32 <= b && b <= 126
}

/// Index of the first line feed at or after `i`, or the length.
pub open spec fn line_end_from(s: Seq<u8>, i: int) -> int
    decreases s.len() - i,
{
    if 0 <= i < s.len() && s[i] != 10 {
        line_end_from(s, i + 1)
    } else {
        i
    }
}

/// The bytes before the first line feed.
pub open spec fn first_line(s: Seq<u8>) -> Seq<u8> {
    s.subrange(0, line_end_from(s, 0))
}

/// The printable bytes of `s`, in order.
pub open spec fn printable_only(s: Seq<u8>) -> Seq<u8>
    decreases s.len(),
{
    if s.len() == 0 {
        s
    } else if is_printable(s.last()) {
        printable_only(s.drop_last()).push(s.last())
    } else {
        printable_only(s.drop_last())
    }
}

/// Index of the first non-space byte at or after `i`.
pub open spec fn skip_spaces_from(s: Seq<u8>, i: int) -> int
    decreases s.len() - i,
{
    if 0 <= i < s.len() && s[i] == 32 {
        skip_spaces_from(s, i + 1)
    } else {
        i
    }
}

/// Index just past the last non-space byte before `j`, not below `lo`.
pub open spec fn back_spaces_from(s: Seq<u8>, lo: int, j: int) -> int
    decreases j - lo,
{
    if lo < j && j <= s.len() && s[j - 1] == 32 {
        back_spaces_from(s, lo, j - 1)
    } else {
        j
    }
}

/// `s` without leading and trailing spaces.
pub open spec fn strip_spaces(s: Seq<u8>) -> Seq<u8> {
    let a = skip_spaces_from(s, 0);
    s.subrange(a, back_spaces_from(s, a, s.len() as int))
}

/// The cleaned banner bytes: the first line, without control and
/// non-ASCII characters, without surrounding spaces.
pub open spec fn clean_banner_bytes(data: Seq<u8>) -> Seq<u8> {
    strip_spaces(printable_only(first_line(data)))
}

/// The cleaned banner text.
pub open spec fn spec_clean_banner(data: Seq<u8>) -> Seq<char> {
    ascii_chars(clean_banner_bytes(data))
}

/// Every byte is printable.
pub open spec fn all_printable(s: Seq<u8>) -> bool {
    forall|i: int| 0 <= i < s.len() ==> is_printable(#[trigger] s[i])
}

proof fn lemma_printable_only_printable(s: Seq<u8>)
    ensures
        all_printable(printable_only(s)),
        printable_only(s).len() <= s.len(),
    decreases s.len(),
{
    if s.len() > 0 {
        lemma_printable_only_printable(s.drop_last());
    }
}

proof fn lemma_printable_only_identity(s: Seq<u8>)
    requires
        all_printable(s),
    ensures
        printable_only(s) == s,
    decreases s.len(),
{
    if s.len() > 0 {
        assert(all_printable(s.drop_last()));
        lemma_printable_only_identity(s.drop_last());
        assert(s.drop_last().push(s.last()) =~= s);
    }
}

proof fn lemma_line_end_no_newline(s: Seq<u8>, i: int)
    requires
        0 <= i <= s.len(),
        all_printable(s),
    ensures
        line_end_from(s, i) == s.len(),
    decreases s.len() - i,
{
    if i < s.len() {
        assert(is_printable(s[i]));
        lemma_line_end_no_newline(s, i + 1);
    }
}

proof fn lemma_skip_spaces(s: Seq<u8>, i: int)
    requires
        0 <= i <= s.len(),
    ensures
        i <= skip_spaces_from(s, i) <= s.len(),
        skip_spaces_from(s, i) < s.len() ==> s[skip_spaces_from(s, i)] != 32,
        forall|k: int| i <= k < skip_spaces_from(s, i) ==> s[k] == 32,
    decreases s.len() - i,
{
    if i < s.len() && s[i] == 32 {
        lemma_skip_spaces(s, i + 1);
    }
}

proof fn lemma_back_spaces(s: Seq<u8>, lo: int, j: int)
    requires
        0 <= lo <= j <= s.len(),
    ensures
        lo <= back_spaces_from(s, lo, j) <= j,
        back_spaces_from(s, lo, j) > lo ==> s[back_spaces_from(s, lo, j) - 1] != 32,
        forall|k: int| back_spaces_from(s, lo, j) <= k < j ==> s[k] == 32,
    decreases j - lo,
{
    if lo < j && s[j - 1] == 32 {
        lemma_back_spaces(s, lo, j - 1);
    }
}

/// The stripped text neither starts nor ends with a space.
proof fn lemma_strip_spaces_shape(s: Seq<u8>)
    ensures
        strip_spaces(s).len() > 0 ==> strip_spaces(s)[0] != 32,
        strip_spaces(s).len() > 0 ==> strip_spaces(s).last() != 32,
        strip_spaces(s).len() <= s.len(),
        0 <= skip_spaces_from(s, 0),
        skip_spaces_from(s, 0) + strip_spaces(s).len() <= s.len(),
        forall|k: int| 0 <= k < strip_spaces(s).len() ==> #[trigger] strip_spaces(s)[k] == s[k
            + skip_spaces_from(s, 0)],
{
    lemma_skip_spaces(s, 0);
    let a = skip_spaces_from(s, 0);
    lemma_back_spaces(s, a, s.len() as int);
}

/// Stripping a text that neither starts nor ends with a space keeps it.
proof fn lemma_strip_spaces_identity(s: Seq<u8>)
    requires
        s.len() > 0 ==> s[0] != 32 && s.last() != 32,
    ensures
        strip_spaces(s) == s,
{
    assert(skip_spaces_from(s, 0) == 0);
    if s.len() > 0 {
        assert(back_spaces_from(s, 0, s.len() as int) == s.len());
    }
    assert(s.subrange(0, s.len() as int) =~= s);
}

/// Cleaning a banner yields printable ASCII on a single line, without
/// surrounding spaces.
pub proof fn lemma_clean_banner_shape(data: Seq<u8>)
    ensures
        all_printable(clean_banner_bytes(data)),
        clean_banner_bytes(data).len() > 0 ==> clean_banner_bytes(data)[0] != 32,
        clean_banner_bytes(data).len() > 0 ==> clean_banner_bytes(data).last() != 32,
{
    let p = printable_only(first_line(data));
    lemma_printable_only_printable(first_line(data));
    lemma_strip_spaces_shape(p);
    lemma_skip_spaces(p, 0);
    let t = clean_banner_bytes(data);
    assert forall|k: int| 0 <= k < t.len() implies is_printable(#[trigger] t[k]) by {
        assert(t[k] == p[k + skip_spaces_from(p, 0)]);
    }
}

/// Cleaning is idempotent: a cleaned banner cleans to itself.
pub proof fn lemma_clean_banner_idempotent(data: Seq<u8>)
    ensures
        clean_banner_bytes(clean_banner_bytes(data)) == clean_banner_bytes(data),
{
    let t = clean_banner_bytes(data);
    lemma_clean_banner_shape(data);
    lemma_line_end_no_newline(t, 0);
    assert(first_line(t) =~= t);
    lemma_printable_only_identity(t);
    lemma_strip_spaces_identity(t);
}

/// Strip control characters and non-ASCII characters from the first line
/// of a banner, and trim the surrounding spaces.
pub fn clean_banner(data: &[u8]) -> (r: String)
    ensures
        r@ == spec_clean_banner(data@),
{
    let ghost s = data@;
    let mut kept: Vec<u8> = Vec::new();
    let mut i: usize = 0;
    assert(s.subrange(0, 0) =~= Seq::<u8>::empty());
    while i < data.len() && data[i] != 10
        invariant
            s == data@,
            i <= s.len(),
            line_end_from(s, 0) == line_end_from(s, i as int),
            kept@ == printable_only(s.subrange(0, i as int)),
        decreases s.len() - i,
    {
        let b = data[i];
        if 32 <= b && b <= 126 {
            kept.push(b);
        }
        assert(s.subrange(0, i + 1).drop_last() =~= s.subrange(0, i as int));
        i = i + 1;
    }
    let ghost p = kept@;
    assert(p == printable_only(first_line(s)));
    let n = kept.len();
    let mut a: usize = 0;
    while a < n && kept[a] == 32
        invariant
            p == kept@,
            n == p.len(),
            a <= n,
            skip_spaces_from(p, 0) == skip_spaces_from(p, a as int),
        decreases n - a,
    {
        a = a + 1;
    }
    let mut b: usize = n;
    while b > a && kept[b - 1] == 32
        invariant
            p == kept@,
            n == p.len(),
            a <= b <= n,
            a == skip_spaces_from(p, 0),
            back_spaces_from(p, a as int, n as int) == back_spaces_from(p, a as int, b as int),
        decreases b,
    {
        b = b - 1;
    }
    let mut out: Vec<u8> = Vec::new();
    let mut k: usize = a;
    while k < b
        invariant
            p == kept@,
            a <= k <= b <= p.len(),
            out@ == p.subrange(a as int, k as int),
        decreases b - k,
    {
        out.push(kept[k]);
        assert(p.subrange(a as int, k + 1) =~= p.subrange(a as int, k as int).push(p[k as int]));
        k = k + 1;
    }
    proof {
        assert(out@ == clean_banner_bytes(s));
        lemma_clean_banner_shape(s);
        assert(all_ascii(out@));
    }
    ascii_string(out)
}

/// Where the banner exchange stands.
#[derive(Debug, Clone, Copy, PartialEq, Eq, Structural)]
pub enum BannerPhase {
    /// Waiting for a greeting the service sends unprompted (SSH, FTP, SMTP).
    Greeting,
    /// Sending the HTTP probe to a service that waits for the client.
    Probe,
    /// Waiting for the reply to the probe.
    Reply,
}

/// What happened since the last action.
#[derive(Debug, Clone)]
pub enum BannerEvent {
    /// Data arrived (possibly none: end of stream).
    Received(Vec<u8>),
    /// Nothing arrived within the wait, or the read failed.
    Silent,
    /// The probe was written.
    Sent,
    /// Writing the probe failed.
    SendFailed,
}

/// What to do next.
#[derive(Debug, Clone)]
pub enum BannerAction {
    /// Read from the connection, waiting a bounded time.
    Read,
    /// Write these bytes to the connection.
    Send(Vec<u8>),
    /// The exchange is over, with this banner if one was grabbed.
    Finish(Option<String>),
}

/// The minimal HTTP request sent to services that wait for the client:
/// `HEAD / HTTP/1.0` followed by an empty line.
pub open spec fn http_probe() -> Seq<u8> {
    seq![72u8, 69u8, 65u8, 68u8, 32u8, 47u8, 32u8, 72u8, 84u8, 84u8, 80u8, 47u8, 49u8, 46u8, 48u8, 13u8, 10u8, 13u8, 10u8]
}

fn http_probe_bytes() -> (r: Vec<u8>)
    ensures
        r@ == http_probe(),
{
    let r: Vec<u8> = vec![72u8, 69u8, 65u8, 68u8, 32u8, 47u8, 32u8, 72u8, 84u8, 84u8, 80u8, 47u8, 49u8, 46u8, 48u8, 13u8, 10u8, 13u8, 10u8];
    assert(r@ =~= http_probe());
    r
}

/// The first step of the banner exchange: read the greeting.
pub fn banner_start() -> (r: (BannerPhase, BannerAction))
    ensures
        r.0 == BannerPhase::Greeting,
        r.1 is Read,
{
    (BannerPhase::Greeting, BannerAction::Read)
}

/// The banner exchange, one event at a time.
///
/// A non-empty greeting is the banner.  Otherwise the HTTP probe is sent
/// and a non-empty reply to it is the banner; a failed write or an empty
/// reply ends the exchange without a banner.
pub fn banner_step(phase: BannerPhase, event: BannerEvent) -> (r: (BannerPhase, BannerAction))
    ensures
        match (phase, event) {
            (BannerPhase::Greeting, BannerEvent::Received(data)) if data@.len() > 0 => r.1 matches
                BannerAction::Finish(Some(b)) && b@ == spec_clean_banner(data@),
            (BannerPhase::Greeting, BannerEvent::Received(_)) | (
                BannerPhase::Greeting,
                BannerEvent::Silent,
            ) => r.0 == BannerPhase::Probe && (r.1 matches BannerAction::Send(bytes) && bytes@
                == http_probe()),
            (BannerPhase::Probe, BannerEvent::Sent) => r.0 == BannerPhase::Reply && r.1 is Read,
            (BannerPhase::Reply, BannerEvent::Received(data)) if data@.len() > 0 => r.1 matches
                BannerAction::Finish(Some(b)) && b@ == spec_clean_banner(data@),
            _ => r.1 matches BannerAction::Finish(None),
        },
{
    match (phase, event) {
        (BannerPhase::Greeting, BannerEvent::Received(data)) => {
            if data.len() > 0 {
                (phase, BannerAction::Finish(Some(clean_banner(data.as_slice()))))
            } else {
                (BannerPhase::Probe, BannerAction::Send(http_probe_bytes()))
            }
        },
        (BannerPhase::Greeting, BannerEvent::Silent) => {
            (BannerPhase::Probe, BannerAction::Send(http_probe_bytes()))
        },
        (BannerPhase::Probe, BannerEvent::Sent) => (BannerPhase::Reply, BannerAction::Read),
        (BannerPhase::Reply, BannerEvent::Received(data)) => {
            if data.len() > 0 {
                (phase, BannerAction::Finish(Some(clean_banner(data.as_slice()))))
            } else {
                (phase, BannerAction::Finish(None))
            }
        },
        _ => (phase, BannerAction::Finish(None)),
    }
}

/// What a completed TLS handshake reports.  The port speaks TLS either way,
/// so the answer is always a certificate record: the metadata of the
/// server's first certificate when it sent one that parses, and placeholder
/// metadata when no certificate could be extracted or parsed.
pub fn handshake_cert_info(first_cert: Option<&[u8]>) -> (r: TlsCertInfo)
    ensures
        match first_cert {
            Some(der) => match x509_fields(der@) {
                Some(f) => holds_fields(r, f),
                None => is_placeholder_cert(r),
            },
            None => is_placeholder_cert(r),
        },
{
    let parsed = match first_cert {
        Some(der) => parse_cert(der),
        None => None,
    };
    match parsed {
        Some(info) => info,
        None => placeholder_cert(),
    }
}

/// The record of a TLS handshake whose certificate is unknown.
pub open spec fn is_placeholder_cert(info: TlsCertInfo) -> bool {
    &&& info.subject@ == "Unknown (TLS Handshake OK)"@
    &&& info.issuer@ == "Unknown"@
    &&& info.not_before@ == ""@
    &&& info.not_after@ == ""@
}

fn placeholder_cert() -> (r: TlsCertInfo)
    ensures
        is_placeholder_cert(r),
{
    TlsCertInfo {
        subject: String::from_str("Unknown (TLS Handshake OK)"),
        issuer: String::from_str("Unknown"),
        not_before: String::from_str(""),
        not_after: String::from_str(""),
    }
}

} // verus!
