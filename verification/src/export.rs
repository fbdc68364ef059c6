//! Flattening scan results into one record per open port, the shape used
//! by the JSON and CSV exports and by the HTML report.
use vstd::prelude::*;

use crate::scanner::{PortResult, PortStatus, ScanResult, open_results};

verus! {

/// A flattened export record: one open port of one host.
#[derive(Debug, Clone)]
pub struct ExportRecord {
    pub host: String,
    pub hostname: Option<String>,
    pub port: u16,
    pub service: String,
    pub banner: Option<String>,
    pub tls_subject: Option<String>,
    pub tls_issuer: Option<String>,
    pub status: String,
}

/// The label of a port status: `open`, `closed`, `filtered` or
/// `open|filtered`.
pub open spec fn status_text(s: PortStatus) -> Seq<char> {
    match s {
        PortStatus::Open => "open"@,
        PortStatus::Closed => "closed"@,
        PortStatus::Filtered => "filtered"@,
        PortStatus::OpenFiltered => "open|filtered"@,
    }
}

/// The label of a port status.
pub fn status_label(s: PortStatus) -> (r: &'static str)
    ensures
        r@ == status_text(s),
{
    match s {
        PortStatus::Open => "open",
        PortStatus::Closed => "closed",
        PortStatus::Filtered => "filtered",
        PortStatus::OpenFiltered => "open|filtered",
    }
}

/// The text of an optional string.
pub open spec fn opt_text(o: Option<String>) -> Option<Seq<char>> {
    match o {
        Some(s) => Some(s@),
        None => None,
    }
}

fn clone_opt(o: &Option<String>) -> (r: Option<String>)
    ensures
        opt_text(r) == opt_text(*o),
{
    match o {
        Some(s) => Some(s.clone()),
        None => None,
    }
}

impl ExportRecord {
    /// The record describes port result `p` of host `ip` named `hostname`.
    pub open spec fn describes(self, ip: Seq<char>, hostname: Option<Seq<char>>, p: PortResult) -> bool {
        &&& self.host@ == ip
        &&& opt_text(self.hostname) == hostname
        &&& self.port == p.port
        &&& self.service@ == p.service.name@
        &&& opt_text(self.banner) == opt_text(p.banner)
        &&& opt_text(self.tls_subject) == match p.tls_cert {
            Some(c) => Some(c.subject@),
            None => None,
        }
        &&& opt_text(self.tls_issuer) == match p.tls_cert {
            Some(c) => Some(c.issuer@),
            None => None,
        }
        &&& self.status@ == status_text(p.status)
    }

    /// Map one port result of a host into a record.
    pub fn from_scan_result(ip: &str, hostname: Option<&String>, port_result: &PortResult) -> (r: Self)
        ensures
            r.describes(
                ip@,
                match hostname {
                    Some(h) => Some(h@),
                    None => None,
                },
                *port_result,
            ),
    {
        let (tls_subject, tls_issuer) = match &port_result.tls_cert {
            Some(cert) => (Some(cert.subject.clone()), Some(cert.issuer.clone())),
            None => (None, None),
        };
        let host_name = match hostname {
            Some(h) => Some(h.clone()),
            None => None,
        };
        ExportRecord {
            host: String::from_str(ip),
            hostname: host_name,
            port: port_result.port,
            service: String::from_str(port_result.service.name),
            banner: clone_opt(&port_result.banner),
            tls_subject,
            tls_issuer,
            status: String::from_str(status_label(port_result.status)),
        }
    }
}

/// The open ports of a host, each with the host's address and name.
pub open spec fn host_rows(r: ScanResult) -> Seq<(Seq<char>, Option<Seq<char>>, PortResult)> {
    open_results(r.ports@).map_values(
        |p: PortResult| (r.target@, opt_text(r.hostname), p),
    )
}

/// The open ports of every host, host by host.
pub open spec fn export_rows(rs: Seq<ScanResult>) -> Seq<(Seq<char>, Option<Seq<char>>, PortResult)>
    decreases rs.len(),
{
    if rs.len() == 0 {
        Seq::empty()
    } else {
        export_rows(rs.drop_last()) + host_rows(rs.last())
    }
}

/// `records` holds one record per row, in order.
pub open spec fn records_for(
    records: Seq<ExportRecord>,
    rows: Seq<(Seq<char>, Option<Seq<char>>, PortResult)>,
) -> bool {
    &&& records.len() == rows.len()
    &&& forall|k: int|
        0 <= k < rows.len() ==> #[trigger] records[k].describes(rows[k].0, rows[k].1, rows[k].2)
}

/// Every result that `open_results` keeps is open.
pub proof fn lemma_open_results_are_open(s: Seq<PortResult>)
    ensures
        forall|k: int| 0 <= k < open_results(s).len() ==> #[trigger] open_results(s)[k].is_open(),
    decreases s.len(),
{
    if s.len() > 0 {
        lemma_open_results_are_open(s.drop_last());
        let prev = open_results(s.drop_last());
        assert forall|k: int| 0 <= k < open_results(s).len() implies #[trigger] open_results(
            s,
        )[k].is_open() by {
            if k < prev.len() {
                assert(open_results(s)[k] == prev[k]);
            }
        }
    }
}

/// Only open ports are exported: every record's status is `open` or
/// `open|filtered`.
pub proof fn lemma_exported_ports_are_open(rs: Seq<ScanResult>)
    ensures
        forall|k: int| 0 <= k < export_rows(rs).len() ==> #[trigger] export_rows(rs)[k].2.is_open(),
    decreases rs.len(),
{
    if rs.len() > 0 {
        lemma_exported_ports_are_open(rs.drop_last());
        lemma_open_results_are_open(rs.last().ports@);
        let a = export_rows(rs.drop_last());
        let b = host_rows(rs.last());
        assert forall|k: int| 0 <= k < export_rows(rs).len() implies #[trigger] export_rows(
            rs,
        )[k].2.is_open() by {
            if k >= a.len() {
                assert(export_rows(rs)[k] == b[k - a.len()]);
            } else {
                assert(export_rows(rs)[k] == a[k]);
            }
        }
    }
}

/// Convert a list of scan results into one record per open port, host by
/// host and, within a host, in the order of its results.
pub fn flatten_results(results: &[ScanResult]) -> (r: Vec<ExportRecord>)
    ensures
        records_for(r@, export_rows(results@)),
{
    let mut flat: Vec<ExportRecord> = Vec::new();
    let mut i: usize = 0;
    assert(results@.subrange(0, 0) =~= Seq::<ScanResult>::empty());
    while i < results.len()
        invariant
            i <= results@.len(),
            records_for(flat@, export_rows(results@.subrange(0, i as int))),
        decreases results@.len() - i,
    {
        let r = &results[i];
        let open = r.open_ports();
        let hostname: Option<&String> = match &r.hostname {
            Some(h) => Some(h),
            None => None,
        };
        let ghost before = export_rows(results@.subrange(0, i as int));
        let ghost rows = host_rows(*r);
        let mut j: usize = 0;
        while j < open.len()
            invariant
                j <= open@.len(),
                open@.map_values(|p: &PortResult| *p) == open_results(r.ports@),
                rows == host_rows(*r),
                hostname == match &r.hostname {
                    Some(h) => Some(h),
                    None => None::<&String>,
                },
                records_for(flat@, before + rows.subrange(0, j as int)),
            decreases open@.len() - j,
        {
            let rec = ExportRecord::from_scan_result(r.target.as_str(), hostname, open[j]);
            let ghost prev = flat@;
            flat.push(rec);
            proof {
                let target = before + rows.subrange(0, j + 1);
                assert(target =~= (before + rows.subrange(0, j as int)).push(rows[j as int]));
                assert(open@.map_values(|p: &PortResult| *p)[j as int] == *open@[j as int]);
                assert forall|k: int| 0 <= k < target.len() implies #[trigger] flat@[k].describes(
                    target[k].0,
                    target[k].1,
                    target[k].2,
                ) by {
                    if k < prev.len() {
                        assert(flat@[k] == prev[k]);
                    }
                }
            }
            j = j + 1;
        }
        proof {
            assert(rows.subrange(0, open@.len() as int) =~= rows);
            assert(results@.subrange(0, i + 1).drop_last() =~= results@.subrange(0, i as int));
            assert(results@.subrange(0, i + 1).last() == *r);
        }
        i = i + 1;
    }
    assert(results@.subrange(0, results@.len() as int) =~= results@);
    flat
}

} // verus!
