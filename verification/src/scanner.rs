//! Scan results and the decisions of the scanning engine: which probes to
//! run, how a probe outcome classifies a port, and how per-port results are
//! assembled into a host result.
//!
//! The concurrent probing itself (sockets, timeouts, task scheduling) is
//! carried out by the application, which reports each outcome back here.
use vstd::prelude::*;

use std::time::Duration;

use crate::cli::CliArgs;
use crate::ip::{IpAddress, ip_text, ip_to_string};
use vstd::arithmetic::div_mod::lemma_div_is_ordered;
use crate::service::{ServiceInfo, Transport, detect_service};
use crate::tls::TlsCertInfo;

verus! {

/// The state of a port as determined by a probe.
#[derive(Debug, Clone, Copy, PartialEq, Eq, Structural)]
pub enum PortStatus {
    /// Handshake succeeded (TCP) or the port answered (UDP).
    Open,
    /// The port is actively closed (TCP reset, ICMP port unreachable).
    Closed,
    /// The attempt timed out or the host is unreachable.
    Filtered,
    /// A UDP probe got no answer: open, or silently firewalled.
    OpenFiltered,
}

/// The result of probing a single port.
#[derive(Debug, Clone)]
pub struct PortResult {
    /// The probed port number.
    pub port: u16,
    /// The transport protocol that was probed.
    pub protocol: Transport,
    /// What the probe observed.
    pub status: PortStatus,
    /// Port-based service identification.
    pub service: ServiceInfo,
    /// The grabbed service banner, if any.
    pub banner: Option<String>,
    /// Whether a TLS handshake succeeded.
    pub tls: bool,
    /// TLS certificate metadata, when a TLS handshake succeeded.
    pub tls_cert: Option<TlsCertInfo>,
}

/// Aggregated results of a host scan.
#[derive(Debug)]
pub struct ScanResult {
    /// The scanned address, as text.
    pub target: String,
    /// The reverse-DNS name of the target, if requested and found.
    pub hostname: Option<String>,
    /// Number of probes in the requested range (ports times protocols).
    pub total_ports: u32,
    /// Wall-clock time for the full scan.
    pub elapsed: Duration,
    /// Every port result, sorted ascending by port number.
    pub ports: Vec<PortResult>,
}

/// All parameters needed to run a host scan.
#[derive(Debug, Clone, Copy)]
pub struct ScanConfig {
    /// The target IP address.
    pub addr: IpAddress,
    /// First port to probe (inclusive).
    pub start_port: u16,
    /// Last port to probe (inclusive).
    pub end_port: u16,
    /// Per-connection timeout.
    pub timeout: Duration,
    /// Maximum number of probes in flight at any moment.
    pub concurrency: usize,
    /// Grab service banners on open ports.
    pub banner: bool,
    /// Probe open ports for TLS support.
    pub tls: bool,
    /// Reverse-resolve the target address.
    pub resolve_dns: bool,
    /// Scan TCP ports.
    pub tcp: bool,
    /// Scan UDP ports.
    pub udp: bool,
}

/// The kinds of I/O failure that decide how a port is classified; every
/// other kind is `Other`.
#[derive(Debug, Clone, Copy, PartialEq, Eq, Structural)]
pub enum IoFailure {
    ConnectionRefused,
    ConnectionReset,
    TimedOut,
    HostUnreachable,
    NetworkUnreachable,
    PermissionDenied,
    Other,
}

/// What a TCP connect attempt came to.
#[derive(Debug, Clone, Copy, PartialEq, Eq, Structural)]
pub enum ConnectOutcome {
    /// No answer within the timeout.
    TimedOut,
    /// The handshake completed.
    Connected,
    /// The attempt failed with an I/O error.
    Failed(IoFailure),
}

/// What waiting for a UDP reply came to.
#[derive(Debug, Clone, Copy, PartialEq, Eq, Structural)]
pub enum ReplyOutcome {
    /// No reply within the timeout.
    TimedOut,
    /// A datagram came back.
    Received,
    /// Receiving failed with an I/O error.
    Failed(IoFailure),
}

impl PortResult {
    /// The result is consistent: its service hint is the one for its port
    /// and protocol, and it counts as TLS exactly when it carries
    /// certificate metadata.
    pub open spec fn well_formed(self) -> bool {
        &&& self.service.describes(self.port, self.protocol)
        &&& self.tls == (self.tls_cert is Some)
    }

    /// The port counts as open (a UDP port that stayed silent included).
    pub open spec fn is_open(self) -> bool {
        self.status == PortStatus::Open || self.status == PortStatus::OpenFiltered
    }
}

/// The open results of a list, in their order.
pub open spec fn open_results(s: Seq<PortResult>) -> Seq<PortResult>
    decreases s.len(),
{
    if s.len() == 0 {
        Seq::empty()
    } else if s.last().is_open() {
        open_results(s.drop_last()).push(s.last())
    } else {
        open_results(s.drop_last())
    }
}

/// The open results of a list are its results whose status is open or
/// open-or-filtered, in their order.
pub proof fn lemma_open_results_filter(s: Seq<PortResult>)
    ensures
        open_results(s) == s.filter(
            |p: PortResult| p.status == PortStatus::Open || p.status == PortStatus::OpenFiltered,
        ),
    decreases s.len(),
{
    reveal(Seq::filter);
    if s.len() > 0 {
        lemma_open_results_filter(s.drop_last());
    }
}

/// The open results of a list are at most as many as the results.
pub proof fn lemma_open_results_len(s: Seq<PortResult>)
    ensures
        open_results(s).len() <= s.len(),
    decreases s.len(),
{
    if s.len() > 0 {
        lemma_open_results_len(s.drop_last());
    }
}

impl ScanResult {
    /// The results are sorted ascending by port.
    pub open spec fn well_formed(self) -> bool {
        forall|i: int, j: int| 0 <= i < j < self.ports@.len() ==> self.ports@[i].port <= self.ports@[j].port
    }

    /// The open ports, in the order of the results.
    pub fn open_ports(&self) -> (r: Vec<&PortResult>)
        ensures
            r@.map_values(|p: &PortResult| *p) == open_results(self.ports@),
    {
        let mut out: Vec<&PortResult> = Vec::new();
        let mut i: usize = 0;
        assert(self.ports@.subrange(0, 0) =~= Seq::<PortResult>::empty());
        while i < self.ports.len()
            invariant
                i <= self.ports@.len(),
                out@.map_values(|p: &PortResult| *p) == open_results(
                    self.ports@.subrange(0, i as int),
                ),
            decreases self.ports@.len() - i,
        {
            let p = &self.ports[i];
            let ghost prev = out@;
            if p.status == PortStatus::Open || p.status == PortStatus::OpenFiltered {
                out.push(p);
                assert(out@.map_values(|p: &PortResult| *p) =~= prev.map_values(
                    |p: &PortResult| *p,
                ).push(*p));
            }
            assert(self.ports@.subrange(0, i + 1).drop_last() =~= self.ports@.subrange(0, i as int));
            i = i + 1;
        }
        assert(self.ports@.subrange(0, self.ports@.len() as int) =~= self.ports@);
        out
    }

    /// Count of open ports discovered.
    pub fn open_count(&self) -> (r: usize)
        ensures
            r == open_results(self.ports@).len(),
    {
        let open = self.open_ports();
        assert(open@.len() == open@.map_values(|p: &PortResult| *p).len());
        open.len()
    }
}

/// How a TCP connect outcome classifies the port; `None` for an I/O error
/// that is neither a refusal nor a sign of filtering (a hard error).
pub open spec fn spec_tcp_status(outcome: ConnectOutcome) -> Option<PortStatus> {
    match outcome {
        ConnectOutcome::TimedOut => Some(PortStatus::Filtered),
        ConnectOutcome::Connected => Some(PortStatus::Open),
        ConnectOutcome::Failed(kind) => match kind {
            IoFailure::ConnectionRefused => Some(PortStatus::Closed),
            IoFailure::TimedOut | IoFailure::HostUnreachable | IoFailure::NetworkUnreachable
            | IoFailure::PermissionDenied => Some(PortStatus::Filtered),
            _ => None,
        },
    }
}

/// How a UDP reply outcome classifies the port.
pub open spec fn spec_udp_status(outcome: ReplyOutcome) -> PortStatus {
    match outcome {
        ReplyOutcome::TimedOut => PortStatus::OpenFiltered,
        ReplyOutcome::Received => PortStatus::Open,
        ReplyOutcome::Failed(kind) => match kind {
            IoFailure::ConnectionReset | IoFailure::PermissionDenied => PortStatus::Closed,
            _ => PortStatus::OpenFiltered,
        },
    }
}

/// Classify a TCP connect outcome: a completed handshake is open, a
/// refusal closed, a timeout, unreachable host or network, or a denied
/// permission filtered; any other I/O error is a hard error (`None`).
pub fn tcp_status(outcome: ConnectOutcome) -> (r: Option<PortStatus>)
    ensures
        r == spec_tcp_status(outcome),
        (r == Some(PortStatus::Open)) <==> outcome == ConnectOutcome::Connected,
        (r == Some(PortStatus::Closed)) <==> outcome == ConnectOutcome::Failed(
            IoFailure::ConnectionRefused,
        ),
        r != Some(PortStatus::OpenFiltered),
{
    match outcome {
        ConnectOutcome::TimedOut => Some(PortStatus::Filtered),
        ConnectOutcome::Connected => Some(PortStatus::Open),
        ConnectOutcome::Failed(kind) => match kind {
            IoFailure::ConnectionRefused => Some(PortStatus::Closed),
            IoFailure::TimedOut | IoFailure::HostUnreachable | IoFailure::NetworkUnreachable
            | IoFailure::PermissionDenied => Some(PortStatus::Filtered),
            _ => None,
        },
    }
}

/// Classify a UDP reply outcome: a reply means open, an ICMP port
/// unreachable (connection reset) or a denied permission closed, and
/// silence or any other error open-or-filtered.
pub fn udp_status(outcome: ReplyOutcome) -> (r: PortStatus)
    ensures
        r == spec_udp_status(outcome),
        (r == PortStatus::Open) <==> outcome == ReplyOutcome::Received,
        (r == PortStatus::Closed) <==> (outcome == ReplyOutcome::Failed(IoFailure::ConnectionReset)
            || outcome == ReplyOutcome::Failed(IoFailure::PermissionDenied)),
        r != PortStatus::Filtered,
{
    match outcome {
        ReplyOutcome::TimedOut => PortStatus::OpenFiltered,
        ReplyOutcome::Received => PortStatus::Open,
        ReplyOutcome::Failed(kind) => match kind {
            IoFailure::ConnectionReset | IoFailure::PermissionDenied => PortStatus::Closed,
            _ => PortStatus::OpenFiltered,
        },
    }
}

/// A TCP port is open exactly when the handshake completed and closed
/// exactly when the connection was refused; a timeout, an unreachable host
/// or network and a denied permission mark it filtered, and every other
/// I/O error is a hard error that classifies nothing.
pub proof fn lemma_tcp_classification(outcome: ConnectOutcome)
    ensures
        (spec_tcp_status(outcome) == Some(PortStatus::Open)) <==> outcome == ConnectOutcome::Connected,
        (spec_tcp_status(outcome) == Some(PortStatus::Closed)) <==> outcome == ConnectOutcome::Failed(
            IoFailure::ConnectionRefused,
        ),
        (spec_tcp_status(outcome) == Some(PortStatus::Filtered)) <==> (outcome
            == ConnectOutcome::TimedOut || outcome == ConnectOutcome::Failed(IoFailure::TimedOut)
            || outcome == ConnectOutcome::Failed(IoFailure::HostUnreachable) || outcome
            == ConnectOutcome::Failed(IoFailure::NetworkUnreachable) || outcome
            == ConnectOutcome::Failed(IoFailure::PermissionDenied)),
        spec_tcp_status(outcome) != Some(PortStatus::OpenFiltered),
        (spec_tcp_status(outcome) is None) <==> (outcome == ConnectOutcome::Failed(
            IoFailure::ConnectionReset,
        ) || outcome == ConnectOutcome::Failed(IoFailure::Other)),
{
}

/// A UDP port is open only when a datagram came back, and closed only on
/// an ICMP port unreachable (a reset connection) or a denied permission;
/// silence and every other receive error leave it open-or-filtered.
pub proof fn lemma_udp_classification(outcome: ReplyOutcome)
    ensures
        (spec_udp_status(outcome) == PortStatus::Open) <==> outcome == ReplyOutcome::Received,
        (spec_udp_status(outcome) == PortStatus::Closed) <==> (outcome == ReplyOutcome::Failed(
            IoFailure::ConnectionReset,
        ) || outcome == ReplyOutcome::Failed(IoFailure::PermissionDenied)),
        spec_udp_status(outcome) != PortStatus::Filtered,
        outcome == ReplyOutcome::TimedOut ==> spec_udp_status(outcome) == PortStatus::OpenFiltered,
        forall|kind: IoFailure|
            outcome == ReplyOutcome::Failed(kind) && kind != IoFailure::ConnectionReset && kind
                != IoFailure::PermissionDenied ==> spec_udp_status(outcome) == PortStatus::OpenFiltered,
{
}

/// Whether an open TCP port gets the banner probe and the TLS probe.
pub fn tcp_followups(status: PortStatus, do_banner: bool, do_tls: bool) -> (r: (bool, bool))
    ensures
        r.0 == (status == PortStatus::Open && do_banner),
        r.1 == (status == PortStatus::Open && do_tls),
{
    (status == PortStatus::Open && do_banner, status == PortStatus::Open && do_tls)
}

/// `r` is the result of probing `port` over `protocol` with the given
/// status, banner and certificate.
pub open spec fn is_port_result(
    r: PortResult,
    port: u16,
    protocol: Transport,
    status: PortStatus,
    banner: Option<String>,
    tls_cert: Option<TlsCertInfo>,
) -> bool {
    &&& r.port == port
    &&& r.protocol == protocol
    &&& r.status == status
    &&& r.service.describes(port, protocol)
    &&& r.banner == banner
    &&& r.tls_cert == tls_cert
    &&& r.tls == (tls_cert is Some)
}

/// Assemble the result of a TCP probe.  A port that is not open carries
/// neither banner nor certificate; a port counts as TLS exactly when a
/// certificate summary was obtained.  `None` for a hard I/O error.
pub fn tcp_port_result(
    port: u16,
    outcome: ConnectOutcome,
    banner: Option<String>,
    tls_cert: Option<TlsCertInfo>,
) -> (r: Option<PortResult>)
    ensures
        match spec_tcp_status(outcome) {
            None => r is None,
            Some(status) => r matches Some(pr) && if status == PortStatus::Open {
                is_port_result(pr, port, Transport::Tcp, status, banner, tls_cert)
            } else {
                is_port_result(pr, port, Transport::Tcp, status, None, None)
            },
        },
{
    match tcp_status(outcome) {
        None => None,
        Some(status) => {
            if status == PortStatus::Open {
                let tls = tls_cert.is_some();
                Some(
                    PortResult {
                        port,
                        protocol: Transport::Tcp,
                        status,
                        service: detect_service(port, Transport::Tcp),
                        banner,
                        tls,
                        tls_cert,
                    },
                )
            } else {
                Some(
                    PortResult {
                        port,
                        protocol: Transport::Tcp,
                        status,
                        service: detect_service(port, Transport::Tcp),
                        banner: None,
                        tls: false,
                        tls_cert: None,
                    },
                )
            }
        },
    }
}

/// Assemble the result of a UDP probe (no banner, no TLS).
pub fn udp_port_result(port: u16, outcome: ReplyOutcome) -> (r: PortResult)
    ensures
        is_port_result(r, port, Transport::Udp, spec_udp_status(outcome), None, None),
{
    PortResult {
        port,
        protocol: Transport::Udp,
        status: udp_status(outcome),
        service: detect_service(port, Transport::Udp),
        banner: None,
        tls: false,
        tls_cert: None,
    }
}

/// The protocols a scan probes: TCP and/or UDP as configured, TCP when
/// neither is.
pub open spec fn spec_scan_protocols(tcp: bool, udp: bool) -> Seq<Transport> {
    if tcp && udp {
        seq![Transport::Tcp, Transport::Udp]
    } else if udp {
        seq![Transport::Udp]
    } else {
        seq![Transport::Tcp]
    }
}

/// Number of probes of a scan: ports in the requested range (none when
/// the range is inverted) times protocols.
pub open spec fn spec_total_ports(config: ScanConfig) -> nat {
    let ports: nat = if config.end_port >= config.start_port {
        (config.end_port - config.start_port + 1) as nat
    } else {
        0
    };
    ports * spec_scan_protocols(config.tcp, config.udp).len()
}

/// The probes of a scan, port by port and, within a port, protocol by
/// protocol.
pub open spec fn spec_scan_jobs(config: ScanConfig) -> Seq<(u16, Transport)> {
    let protos = spec_scan_protocols(config.tcp, config.udp);
    let n = protos.len();
    let ports: int = if config.end_port >= config.start_port {
        config.end_port - config.start_port + 1
    } else {
        0
    };
    Seq::new(
        (ports * n) as nat,
        |k: int| ((config.start_port + k / n as int) as u16, protos[k % n as int]),
    )
}

impl ScanConfig {
    /// The scan parameters for one address of a validated command line.
    pub fn from_args(args: &CliArgs, addr: IpAddress, timeout: Duration) -> (r: ScanConfig)
        ensures
            r.addr == addr,
            r.start_port == args.start_port,
            r.end_port == args.end_port,
            r.timeout == timeout,
            r.concurrency == args.concurrency,
            r.banner == args.banner,
            r.tls == args.tls,
            r.resolve_dns == args.resolve_dns,
            r.tcp == (args.tcp || !args.udp),
            r.udp == args.udp,
    {
        ScanConfig {
            addr,
            start_port: args.start_port,
            end_port: args.end_port,
            timeout,
            concurrency: args.concurrency,
            banner: args.banner,
            tls: args.tls,
            resolve_dns: args.resolve_dns,
            tcp: args.do_tcp(),
            udp: args.do_udp(),
        }
    }

    /// The protocols this scan probes.
    pub fn protocols(&self) -> (r: Vec<Transport>)
        ensures
            r@ == spec_scan_protocols(self.tcp, self.udp),
            1 <= r@.len() <= 2,
    {
        let mut protocols: Vec<Transport> = Vec::new();
        if self.tcp {
            protocols.push(Transport::Tcp);
        }
        if self.udp {
            protocols.push(Transport::Udp);
        }
        if protocols.len() == 0 {
            protocols.push(Transport::Tcp);
        }
        assert(protocols@ =~= spec_scan_protocols(self.tcp, self.udp));
        protocols
    }

    /// Number of probes in the requested range: ports times protocols.
    pub fn total_ports(&self) -> (r: u32)
        ensures
            r == spec_total_ports(*self),
    {
        let n = self.protocols().len() as u32;
        let ports: u32 = if self.end_port >= self.start_port {
            (self.end_port - self.start_port) as u32 + 1
        } else {
            0
        };
        assert(ports * n <= 65536 * 2) by (nonlinear_arith)
            requires
                ports <= 65536,
                n <= 2,
        ;
        ports * n
    }

    /// Every probe of the scan, in the order they are launched.
    pub fn jobs(&self) -> (r: Vec<(u16, Transport)>)
        ensures
            r@ == spec_scan_jobs(*self),
    {
        let protocols = self.protocols();
        let n: usize = protocols.len();
        let mut jobs: Vec<(u16, Transport)> = Vec::new();
        if self.end_port < self.start_port {
            assert(jobs@ =~= spec_scan_jobs(*self));
            return jobs;
        }
        let ghost start = self.start_port as int;
        let ghost total = (self.end_port - start + 1) * n;
        let ghost spec_jobs = spec_scan_jobs(*self);
        assert(spec_jobs.len() == total);
        let mut port: u16 = self.start_port;
        loop
            invariant_except_break
                jobs@.len() == (port - start) * n,
            invariant
                protocols@ == spec_scan_protocols(self.tcp, self.udp),
                n == protocols@.len(),
                1 <= n <= 2,
                spec_jobs == spec_scan_jobs(*self),
                spec_jobs.len() == total,
                total == (self.end_port - start + 1) * n,
                start == self.start_port,
                self.start_port <= port <= self.end_port,
                forall|k: int| 0 <= k < jobs@.len() ==> #[trigger] jobs@[k] == spec_jobs[k],
            ensures
                jobs@.len() == total,
                forall|k: int| 0 <= k < jobs@.len() ==> #[trigger] jobs@[k] == spec_jobs[k],
            decreases self.end_port - port,
        {
            let mut j: usize = 0;
            while j < n
                invariant
                    protocols@ == spec_scan_protocols(self.tcp, self.udp),
                    n == protocols@.len(),
                    1 <= n <= 2,
                    spec_jobs == spec_scan_jobs(*self),
                    spec_jobs.len() == total,
                    total == (self.end_port - start + 1) * n,
                    start == self.start_port,
                    self.start_port <= port <= self.end_port,
                    j <= n,
                    jobs@.len() == (port - start) * n + j,
                    forall|k: int| 0 <= k < jobs@.len() ==> #[trigger] jobs@[k] == spec_jobs[k],
                decreases n - j,
            {
                proof {
                    let k = (port - start) * n + j;
                    let q = port - start;
                    assert(k / n as int == q && k % n as int == j) by (nonlinear_arith)
                        requires
                            k == q * n + j,
                            0 <= j < n,
                            q >= 0,
                    ;
                    assert(k < total) by (nonlinear_arith)
                        requires
                            k == q * n + j,
                            0 <= j < n,
                            q <= self.end_port - start,
                            total == (self.end_port - start + 1) * n,
                    ;
                    assert(spec_jobs[k] == (port, protocols@[j as int]));
                }
                jobs.push((port, protocols[j]));
                j = j + 1;
            }
            proof {
                let q = port - start;
                assert(q * n + n == (q + 1) * n) by (nonlinear_arith);
            }
            if port == self.end_port {
                break;
            }
            port = port + 1;
        }
        assert(jobs@ =~= spec_scan_jobs(*self));
        jobs
    }
}

/// Every port of the range is probed over every configured protocol, and
/// the number of probes is the scan's port total.
pub proof fn lemma_jobs_cover_range(config: ScanConfig, port: u16, proto: Transport)
    requires
        config.start_port <= config.end_port,
        config.start_port <= port <= config.end_port,
        spec_scan_protocols(config.tcp, config.udp).contains(proto),
    ensures
        spec_scan_jobs(config).len() == spec_total_ports(config),
        spec_scan_jobs(config).contains((port, proto)),
{
    let protos = spec_scan_protocols(config.tcp, config.udp);
    let n = protos.len();
    let jobs = spec_scan_jobs(config);
    let j = choose|j: int| 0 <= j < protos.len() && protos[j] == proto;
    let q = port - config.start_port;
    let k = q * n + j;
    assert(n == 1 || n == 2);
    assert(k / n as int == q && k % n as int == j) by (nonlinear_arith)
        requires
            k == q * n + j,
            0 <= j < n,
            q >= 0,
    ;
    assert(k < jobs.len()) by (nonlinear_arith)
        requires
            k == q * n + j,
            0 <= j < n,
            q <= config.end_port - config.start_port,
            jobs.len() == (config.end_port - config.start_port + 1) * n,
    ;
    assert(jobs[k] == (port, proto));
}

/// Every probe result the library assembles is consistent.
pub proof fn lemma_assembled_results_well_formed(
    r: PortResult,
    port: u16,
    protocol: Transport,
    status: PortStatus,
    banner: Option<String>,
    tls_cert: Option<TlsCertInfo>,
)
    requires
        is_port_result(r, port, protocol, status, banner, tls_cert),
    ensures
        r.well_formed(),
{
}

/// The probe a result answers: its port and protocol.
pub open spec fn probe_key(p: PortResult) -> (u16, Transport) {
    (p.port, p.protocol)
}

/// The probe list holds as many probes as the scan's port total, and lists
/// them ascending by port.
pub proof fn lemma_jobs_sorted(config: ScanConfig)
    ensures
        spec_scan_jobs(config).len() == spec_total_ports(config),
        forall|i: int, j: int|
            0 <= i < j < spec_scan_jobs(config).len() ==> (#[trigger] spec_scan_jobs(config)[i]).0
                <= (#[trigger] spec_scan_jobs(config)[j]).0,
{
    let jobs = spec_scan_jobs(config);
    let n = spec_scan_protocols(config.tcp, config.udp).len() as int;
    assert(n == 1 || n == 2);
    if config.end_port >= config.start_port {
        let len = config.end_port - config.start_port + 1;
        assert forall|i: int, j: int| 0 <= i < j < jobs.len() implies (
        #[trigger] jobs[i]).0 <= (#[trigger] jobs[j]).0 by {
            lemma_div_is_ordered(i, j, n);
            assert(j / n < len) by (nonlinear_arith)
                requires
                    0 <= j < len * n,
                    n > 0,
            ;
            assert(i / n >= 0) by (nonlinear_arith)
                requires
                    i >= 0,
                    n > 0,
            ;
        }
    }
}

/// Gathers the results of a host scan, one per probe of its plan, as they
/// arrive in completion order, and assembles the host result once every
/// probe has answered.
pub struct ScanCollector {
    config: ScanConfig,
    jobs: Vec<(u16, Transport)>,
    slots: Vec<Option<PortResult>>,
}

impl ScanCollector {
    #[verifier::type_invariant]
    spec fn inv(self) -> bool {
        &&& self.jobs@ == spec_scan_jobs(self.config)
        &&& self.slots@.len() == self.jobs@.len()
        &&& forall|k: int|
            0 <= k < self.slots@.len() && (#[trigger] self.slots@[k]) is Some ==> probe_key(
                self.slots@[k]->0,
            ) == self.jobs@[k]
    }

    /// The scan being collected.
    pub closed spec fn config(self) -> ScanConfig {
        self.config
    }

    /// The result received for each probe of the plan so far, in plan order.
    pub closed spec fn received(self) -> Seq<Option<PortResult>> {
        self.slots@
    }

    /// An empty collection for the probes of `config`.
    pub fn new(config: ScanConfig) -> (r: Self)
        ensures
            r.config() == config,
            r.received().len() == spec_scan_jobs(config).len(),
            forall|k: int| 0 <= k < r.received().len() ==> (#[trigger] r.received()[k]) is None,
    {
        let jobs = config.jobs();
        let mut slots: Vec<Option<PortResult>> = Vec::new();
        let mut i: usize = 0;
        while i < jobs.len()
            invariant
                i <= jobs@.len(),
                slots@.len() == i,
                forall|k: int| 0 <= k < i ==> (#[trigger] slots@[k]) is None,
            decreases jobs@.len() - i,
        {
            slots.push(None);
            i = i + 1;
        }
        ScanCollector { config, jobs, slots }
    }

    /// The probes of the plan, in the order they are launched.
    pub fn jobs(&self) -> (r: &Vec<(u16, Transport)>)
        ensures
            r@ == spec_scan_jobs(self.config()),
    {
        proof {
            use_type_invariant(self);
        }
        &self.jobs
    }

    /// Record the result of probe `k` of the plan.  It is accepted when `k`
    /// is a probe of the plan that has not answered yet and the result is
    /// for that probe's port and protocol; otherwise nothing changes.
    pub fn record(self, k: usize, result: PortResult) -> (r: (Self, bool))
        ensures
            r.0.config() == self.config(),
            r.1 == (k < self.received().len() && self.received()[k as int] is None && probe_key(
                result,
            ) == spec_scan_jobs(self.config())[k as int]),
            r.1 ==> r.0.received() == self.received().update(k as int, Some(result)),
            !r.1 ==> r.0.received() == self.received(),
    {
        proof {
            use_type_invariant(&self);
        }
        let ScanCollector { config, jobs, mut slots } = self;
        if k < slots.len() && slots[k].is_none() && result.port == jobs[k].0 && result.protocol
            == jobs[k].1 {
            slots.set(k, Some(result));
            (ScanCollector { config, jobs, slots }, true)
        } else {
            (ScanCollector { config, jobs, slots }, false)
        }
    }

    /// The host result, once every probe has answered (`None` before).
    ///
    /// The results come in plan order, so they are sorted by port and hold
    /// exactly one result per probe; the port total is the number of probes.
    pub fn finish(self, hostname: Option<String>, elapsed: Duration) -> (r: Option<ScanResult>)
        ensures
            r is Some <==> forall|k: int|
                0 <= k < self.received().len() ==> (#[trigger] self.received()[k]) is Some,
            r matches Some(res) ==> {
                &&& res.target@ == ip_text(self.config().addr)
                &&& res.hostname == if self.config().resolve_dns {
                    hostname
                } else {
                    None
                }
                &&& res.elapsed == elapsed
                &&& res.total_ports == spec_total_ports(self.config())
                &&& res.ports@.len() == res.total_ports
                &&& res.ports@.map_values(|p: PortResult| probe_key(p)) == spec_scan_jobs(
                    self.config(),
                )
                &&& res.ports@ == self.received().map_values(|o: Option<PortResult>| o->0)
                &&& res.well_formed()
            },
    {
        proof {
            use_type_invariant(&self);
            lemma_jobs_sorted(self.config);
        }
        let ghost received = self.slots@;
        let ghost jobs = self.jobs@;
        let config = self.config;
        let mut slots = self.slots;
        let mut reversed: Vec<PortResult> = Vec::new();
        while slots.len() > 0
            invariant
                received == self.received(),
                slots@ == received.subrange(0, slots@.len() as int),
                reversed@.len() + slots@.len() == received.len(),
                forall|k: int|
                    0 <= k < reversed@.len() ==> received[received.len() - 1 - k] == Some(
                        #[trigger] reversed@[k],
                    ),
            decreases slots@.len(),
        {
            let ghost before = slots@;
            match slots.pop() {
                Some(Some(p)) => {
                    reversed.push(p);
                },
                _ => {
                    assert(before[before.len() - 1] == received[before.len() - 1]);
                    assert(self.received()[before.len() - 1] is None);
                    return None;
                },
            }
            assert(slots@ =~= received.subrange(0, slots@.len() as int));
        }
        let mut ports: Vec<PortResult> = Vec::new();
        while reversed.len() > 0
            invariant
                ports@.len() + reversed@.len() == received.len(),
                forall|k: int|
                    0 <= k < reversed@.len() ==> received[received.len() - 1 - k] == Some(
                        #[trigger] reversed@[k],
                    ),
                forall|k: int| 0 <= k < ports@.len() ==> received[k] == Some(#[trigger] ports@[k]),
            decreases reversed@.len(),
        {
            let p = reversed.pop().unwrap();
            ports.push(p);
        }
        let total_ports = config.total_ports();
        let target = ip_to_string(config.addr);
        let host = if config.resolve_dns {
            hostname
        } else {
            None
        };
        proof {
            assert(received == self.received());
            assert forall|k: int| 0 <= k < received.len() implies (#[trigger] received[k]) is Some by {
                assert(received[k] == Some(ports@[k]));
            }
            assert(ports@ =~= received.map_values(|o: Option<PortResult>| o->0));
            assert(ports@.map_values(|p: PortResult| probe_key(p)) =~= jobs);
        }
        Some(ScanResult { target, hostname: host, total_ports, elapsed, ports })
    }
}

} // verus!
