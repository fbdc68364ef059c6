//! The JSON document of a scan, as plain values: one record per probed
//! port, one per host, and the document itself, shaped for a single host
//! or for several.  The application turns it into JSON text.
use vstd::prelude::*;

use crate::export::{status_label, status_text};
use crate::html_output::summary_open_total;
use crate::output::total_open_ports;
use crate::scanner::{PortResult, PortStatus, ScanResult, lemma_open_results_filter, open_results};
use crate::service::{ServiceInfo, Transport};

verus! {

/// The service of a port in the document.
#[derive(Debug, Clone, Copy)]
pub struct JsonService {
    /// Service name.
    pub name: &'static str,
    /// Transport, as its variant name: `Tcp`, `Udp` or `TcpUdp`.
    pub transport: &'static str,
    /// One-line description.
    pub description: &'static str,
    /// Whether the port is in the service database.
    pub known: bool,
}

/// One probed port in the document.
#[derive(Debug)]
pub struct JsonPort {
    /// Port number.
    pub port: u16,
    /// Status label.
    pub status: &'static str,
    /// Whether the port speaks TLS.
    pub is_tls: bool,
    /// The grabbed banner, if any.
    pub banner: Option<String>,
    /// The identified service.
    pub service: JsonService,
}

/// One scanned host in the document.
#[derive(Debug)]
pub struct JsonHost {
    /// The scanned address.
    pub host: String,
    /// Number of probes of the scan.
    pub total_ports: u32,
    /// Number of open ports.
    pub open_count: usize,
    /// Time the host scan took, in milliseconds.
    pub elapsed_ms: u128,
    /// The open port numbers, in scan order.
    pub open_ports: Vec<u16>,
    /// Every probed port, in scan order.
    pub all_ports: Vec<JsonPort>,
}

/// The document: the host itself for a single-host scan, a summary and
/// every host otherwise.
#[derive(Debug)]
pub enum JsonReport {
    /// The scan of one host of target `target`.
    Single { target: String, host: JsonHost },
    /// The scan of several hosts (or none) of target `target_spec`.
    Multi {
        target_spec: String,
        hosts_scanned: usize,
        total_open_ports: usize,
        total_elapsed_ms: u128,
        hosts: Vec<JsonHost>,
    },
}

/// The variant name of a transport.
pub open spec fn transport_name_text(t: Transport) -> Seq<char> {
    match t {
        Transport::Tcp => "Tcp"@,
        Transport::Udp => "Udp"@,
        Transport::TcpUdp => "TcpUdp"@,
    }
}

/// The variant name of a transport.
pub fn transport_name(t: Transport) -> (r: &'static str)
    ensures
        r@ == transport_name_text(t),
{
    match t {
        Transport::Tcp => "Tcp",
        Transport::Udp => "Udp",
        Transport::TcpUdp => "TcpUdp",
    }
}

/// The text of an optional string.
pub open spec fn opt_text(o: Option<String>) -> Option<Seq<char>> {
    match o {
        Some(s) => Some(s@),
        None => None,
    }
}

/// `j` is the record of service `s`.
pub open spec fn is_json_service(j: JsonService, s: ServiceInfo) -> bool {
    &&& j.name@ == s.name@
    &&& j.transport@ == transport_name_text(s.transport)
    &&& j.description@ == s.description@
    &&& j.known == s.spec_is_known()
}

/// `j` is the record of probed port `p`.
pub open spec fn is_json_port(j: JsonPort, p: PortResult) -> bool {
    &&& j.port == p.port
    &&& j.status@ == status_text(p.status)
    &&& j.is_tls == p.tls
    &&& opt_text(j.banner) == opt_text(p.banner)
    &&& is_json_service(j.service, p.service)
}

/// `j` is the record of host scan `r`, which took `elapsed_ms`.
pub open spec fn is_json_host(j: JsonHost, r: ScanResult, elapsed_ms: u128) -> bool {
    &&& j.host@ == r.target@
    &&& j.total_ports == r.total_ports
    &&& j.open_count == open_results(r.ports@).len()
    &&& j.elapsed_ms == elapsed_ms
    &&& j.open_ports@ == open_results(r.ports@).map_values(|p: PortResult| p.port)
    &&& j.all_ports@.len() == r.ports@.len()
    &&& forall|i: int| 0 <= i < r.ports@.len() ==> is_json_port(#[trigger] j.all_ports@[i], r.ports@[i])
}

/// `j` is the document of a scan of target `spec` with host results
/// `results`, each host taking `host_elapsed_ms` and the whole scan
/// `total_elapsed_ms`: the host itself when there is exactly one, else the
/// number of hosts, of open ports over all of them, and every host in
/// order.
pub open spec fn is_json_report(
    j: JsonReport,
    spec: Seq<char>,
    results: Seq<ScanResult>,
    host_elapsed_ms: Seq<u128>,
    total_elapsed_ms: u128,
) -> bool {
    if results.len() == 1 {
        match j {
            JsonReport::Single { target, host } => target@ == spec && is_json_host(
                host,
                results[0],
                host_elapsed_ms[0],
            ),
            _ => false,
        }
    } else {
        match j {
            JsonReport::Multi { target_spec, hosts_scanned, total_open_ports, total_elapsed_ms: ms, hosts } => {
                &&& target_spec@ == spec
                &&& hosts_scanned == results.len()
                &&& total_open_ports == summary_open_total(results)
                &&& ms == total_elapsed_ms
                &&& hosts@.len() == results.len()
                &&& forall|i: int|
                    0 <= i < results.len() ==> is_json_host(
                        #[trigger] hosts@[i],
                        results[i],
                        host_elapsed_ms[i],
                    )
            },
            _ => false,
        }
    }
}

/// A host record lists as open exactly the ports whose status is open or
/// open-or-filtered, in scan order, and counts them; it has one record per
/// probed port, in scan order, each with that port's number, status label
/// and TLS flag.
pub proof fn lemma_json_host_open_ports(j: JsonHost, r: ScanResult, elapsed_ms: u128)
    requires
        is_json_host(j, r, elapsed_ms),
    ensures
        j.open_ports@ == r.ports@.filter(
            |p: PortResult| p.status == PortStatus::Open || p.status == PortStatus::OpenFiltered,
        ).map_values(|p: PortResult| p.port),
        j.open_count == j.open_ports@.len(),
        j.host@ == r.target@,
        j.total_ports == r.total_ports,
        j.elapsed_ms == elapsed_ms,
        j.all_ports@.len() == r.ports@.len(),
        forall|i: int|
            0 <= i < r.ports@.len() ==> {
                let q = #[trigger] j.all_ports@[i];
                let p = r.ports@[i];
                &&& q.port == p.port
                &&& q.is_tls == p.tls
                &&& p.status == PortStatus::Open ==> q.status@ == "open"@
                &&& p.status == PortStatus::Closed ==> q.status@ == "closed"@
                &&& p.status == PortStatus::Filtered ==> q.status@ == "filtered"@
                &&& p.status == PortStatus::OpenFiltered ==> q.status@ == "open|filtered"@
            },
{
    lemma_open_results_filter(r.ports@);
    assert forall|i: int| 0 <= i < r.ports@.len() implies {
        let q = #[trigger] j.all_ports@[i];
        let p = r.ports@[i];
        &&& q.port == p.port
        &&& q.is_tls == p.tls
        &&& p.status == PortStatus::Open ==> q.status@ == "open"@
        &&& p.status == PortStatus::Closed ==> q.status@ == "closed"@
        &&& p.status == PortStatus::Filtered ==> q.status@ == "filtered"@
        &&& p.status == PortStatus::OpenFiltered ==> q.status@ == "open|filtered"@
    } by {
        assert(is_json_port(j.all_ports@[i], r.ports@[i]));
    }
}

/// The document of a scan of exactly one host is that host's record;
/// any other number of hosts gives the summary with every host's record in
/// scan order, the host count and the open ports counted over all hosts.
pub proof fn lemma_json_report_shape(
    j: JsonReport,
    spec: Seq<char>,
    results: Seq<ScanResult>,
    host_elapsed_ms: Seq<u128>,
    total_elapsed_ms: u128,
)
    requires
        is_json_report(j, spec, results, host_elapsed_ms, total_elapsed_ms),
    ensures
        (j is Single) <==> results.len() == 1,
        j matches JsonReport::Single { target, host } ==> target@ == spec && host.host@
            == results[0].target@ && host.open_ports@ == results[0].ports@.filter(
            |p: PortResult| p.status == PortStatus::Open || p.status == PortStatus::OpenFiltered,
        ).map_values(|p: PortResult| p.port),
        j matches JsonReport::Multi { target_spec, hosts_scanned, total_elapsed_ms: ms, hosts, .. }
            ==> target_spec@ == spec && hosts_scanned == results.len() && ms == total_elapsed_ms
            && hosts@.len() == results.len() && forall|i: int|
            0 <= i < results.len() ==> (#[trigger] hosts@[i]).host@ == results[i].target@
                && hosts@[i].open_ports@ == results[i].ports@.filter(
                |p: PortResult|
                    p.status == PortStatus::Open || p.status == PortStatus::OpenFiltered,
            ).map_values(|p: PortResult| p.port),
{
    match j {
        JsonReport::Single { target, host } => {
            lemma_json_host_open_ports(host, results[0], host_elapsed_ms[0]);
        },
        JsonReport::Multi { hosts, .. } => {
            assert forall|i: int| 0 <= i < results.len() implies (#[trigger] hosts@[i]).host@
                == results[i].target@ && hosts@[i].open_ports@ == results[i].ports@.filter(
                |p: PortResult|
                    p.status == PortStatus::Open || p.status == PortStatus::OpenFiltered,
            ).map_values(|p: PortResult| p.port) by {
                lemma_json_host_open_ports(hosts@[i], results[i], host_elapsed_ms[i]);
            }
        },
    }
}

/// The record of a service.
pub fn json_service(s: ServiceInfo) -> (r: JsonService)
    ensures
        is_json_service(r, s),
{
    JsonService {
        name: s.name,
        transport: transport_name(s.transport),
        description: s.description,
        known: s.is_known(),
    }
}

/// The record of a probed port.
pub fn json_port(p: &PortResult) -> (r: JsonPort)
    ensures
        is_json_port(r, *p),
{
    let banner = match &p.banner {
        Some(b) => Some(b.clone()),
        None => None,
    };
    JsonPort {
        port: p.port,
        status: status_label(p.status),
        is_tls: p.tls,
        banner,
        service: json_service(p.service),
    }
}

/// The record of a host scan that took `elapsed_ms`.
pub fn json_host(r: &ScanResult, elapsed_ms: u128) -> (j: JsonHost)
    ensures
        is_json_host(j, *r, elapsed_ms),
{
    let open = r.open_ports();
    let ghost open_spec = open_results(r.ports@);
    let mut open_ports: Vec<u16> = Vec::new();
    let mut i: usize = 0;
    while i < open.len()
        invariant
            i <= open@.len(),
            open@.map_values(|p: &PortResult| *p) == open_spec,
            open_ports@ == open_spec.subrange(0, i as int).map_values(|p: PortResult| p.port),
        decreases open@.len() - i,
    {
        proof {
            assert(open@.map_values(|p: &PortResult| *p)[i as int] == *open@[i as int]);
        }
        open_ports.push(open[i].port);
        assert(open_spec.subrange(0, i + 1).map_values(|p: PortResult| p.port) =~= open_spec.subrange(
            0,
            i as int,
        ).map_values(|p: PortResult| p.port).push(open_spec[i as int].port));
        i = i + 1;
    }
    assert(open@.len() == open@.map_values(|p: &PortResult| *p).len());
    assert(open_spec.subrange(0, open@.len() as int) =~= open_spec);
    let mut all_ports: Vec<JsonPort> = Vec::new();
    let mut k: usize = 0;
    while k < r.ports.len()
        invariant
            k <= r.ports@.len(),
            all_ports@.len() == k,
            forall|m: int| 0 <= m < k ==> is_json_port(#[trigger] all_ports@[m], r.ports@[m]),
        decreases r.ports@.len() - k,
    {
        all_ports.push(json_port(&r.ports[k]));
        k = k + 1;
    }
    JsonHost {
        host: r.target.clone(),
        total_ports: r.total_ports,
        open_count: open.len(),
        elapsed_ms,
        open_ports,
        all_ports,
    }
}

/// The JSON document of a scan of target `spec`: `results` in scan order,
/// `host_elapsed_ms` the milliseconds each host took and
/// `total_elapsed_ms` those of the whole scan.
pub fn json_report(
    spec: &str,
    results: &[ScanResult],
    host_elapsed_ms: &[u128],
    total_elapsed_ms: u128,
) -> (r: JsonReport)
    requires
        host_elapsed_ms@.len() == results@.len(),
    ensures
        is_json_report(r, spec@, results@, host_elapsed_ms@, total_elapsed_ms),
{
    if results.len() == 1 {
        let host = json_host(&results[0], host_elapsed_ms[0]);
        return JsonReport::Single { target: String::from_str(spec), host };
    }
    let mut hosts: Vec<JsonHost> = Vec::new();
    let mut i: usize = 0;
    while i < results.len()
        invariant
            i <= results@.len(),
            host_elapsed_ms@.len() == results@.len(),
            hosts@.len() == i,
            forall|m: int|
                0 <= m < i ==> is_json_host(#[trigger] hosts@[m], results@[m], host_elapsed_ms@[m]),
        decreases results@.len() - i,
    {
        hosts.push(json_host(&results[i], host_elapsed_ms[i]));
        i = i + 1;
    }
    JsonReport::Multi {
        target_spec: String::from_str(spec),
        hosts_scanned: results.len(),
        total_open_ports: total_open_ports(results),
        total_elapsed_ms,
        hosts,
    }
}

} // verus!
