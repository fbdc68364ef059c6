//! The data of the HTML report: summary figures and one record per open
//! port.  The application renders it with its template engine.
use vstd::prelude::*;

use crate::export::{ExportRecord, export_rows, flatten_results, records_for};
use crate::scanner::ScanResult;

verus! {

/// Everything the HTML report shows.
#[derive(Debug, Clone)]
pub struct ReportTemplate {
    /// When the report was generated.
    pub current_time: String,
    /// Number of hosts scanned.
    pub total_hosts: usize,
    /// Number of open ports over all hosts.
    pub total_open_ports: usize,
    /// Total scan duration, as text.
    pub elapsed: String,
    /// One record per open port.
    pub records: Vec<ExportRecord>,
}

impl ReportTemplate {
    /// The report of a scan: the number of hosts, the number of open ports
    /// over all hosts, and one record per open port.
    pub fn new(results: &[ScanResult], current_time: String, elapsed: String) -> (r: Self)
        ensures
            r.current_time == current_time,
            r.elapsed == elapsed,
            r.total_hosts == results@.len(),
            r.total_open_ports == export_rows(results@).len(),
            records_for(r.records@, export_rows(results@)),
    {
        let records = flatten_results(results);
        ReportTemplate {
            current_time,
            total_hosts: results.len(),
            total_open_ports: records.len(),
            elapsed,
            records,
        }
    }
}

} // verus!
