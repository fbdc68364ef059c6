//! The HTML page of a scan written to standard output: a summary of the
//! scan, then one block per host with a table of its open ports.  The
//! application formats the elapsed time and prints the lines.
use vstd::prelude::*;

use crate::export::export_rows;
use crate::output::{html_detail, html_detail_text, port_proto, port_proto_text, total_open_ports};
use crate::scanner::{PortResult, ScanResult, open_results};
use crate::terminal::{line_texts, push_line};
use crate::text::{decimal, u64_to_decimal};

verus! {

/// The document head, up to the title.
pub open spec fn page_head_lines() -> Seq<Seq<char>> {
    seq![
        "<!DOCTYPE html>"@,
        "<html lang=\"en\">"@,
        "<head>"@,
        "  <meta charset=\"UTF-8\">"@,
    ]
}

/// The style sheet and the opening of the body and of the summary.
pub open spec fn page_style_lines() -> Seq<Seq<char>> {
    seq![
        "  <style>"@,
        "    body { font-family: -apple-system, BlinkMacSystemFont, 'Segoe UI', Roboto, sans-serif; margin: 40px; color: #333; background: #f9f9f9; }"@,
        "    h1, h2 { color: #111; }"@,
        "    .summary { background: #fff; padding: 20px; border-radius: 8px; box-shadow: 0 1px 3px rgba(0,0,0,0.1); margin-bottom: 30px; }"@,
        "    .host-block { background: #fff; padding: 20px; border-radius: 8px; box-shadow: 0 1px 3px rgba(0,0,0,0.1); margin-bottom: 30px; }"@,
        "    table { width: 100%; border-collapse: collapse; margin-top: 15px; }"@,
        "    th, td { text-align: left; padding: 12px; border-bottom: 1px solid #eee; }"@,
        "    th { background: #fdfdfd; font-weight: 600; color: #555; }"@,
        "    .badge-open { background: #e6f4ea; color: #1e8e3e; padding: 4px 8px; border-radius: 4px; font-size: 0.85em; font-weight: bold; }"@,
        "    .badge-tls { background: #fce8e6; color: #d93025; padding: 4px 8px; border-radius: 4px; font-size: 0.85em; font-weight: bold; margin-left: 5px; }"@,
        "    code { background: #f4f4f4; padding: 2px 5px; border-radius: 3px; font-size: 0.9em; }"@,
        "  </style>"@,
        "</head>"@,
        "<body>"@,
        "  <h1>Rustscan-rs Report</h1>"@,
        "  <div class=\"summary\">"@,
    ]
}

/// The open header and opening rows of a host's table.
pub open spec fn port_table_head_lines() -> Seq<Seq<char>> {
    seq![
        "    <table>"@,
        "      <thead>"@,
        "        <tr>"@,
        "          <th>Port</th>"@,
        "          <th>Service</th>"@,
        "          <th>Description / Banner</th>"@,
        "        </tr>"@,
        "      </thead>"@,
        "      <tbody>"@,
    ]
}

/// The end of a host's table.
pub open spec fn port_table_foot_lines() -> Seq<Seq<char>> {
    seq![
        "      </tbody>"@,
        "    </table>"@,
    ]
}

/// The number of open ports over all hosts, as counted for the summary
/// (saturating at `usize::MAX`).
pub open spec fn summary_open_total(results: Seq<ScanResult>) -> nat {
    if export_rows(results).len() <= usize::MAX {
        export_rows(results).len()
    } else {
        usize::MAX as nat
    }
}

/// The summary figures of the page.
pub open spec fn page_summary_lines(spec: Seq<char>, results: Seq<ScanResult>, elapsed: Seq<char>) -> Seq<Seq<char>> {
    seq![
        "    <p><strong>Target:</strong> "@ + spec + "</p>"@,
        "    <p><strong>Hosts Scanned:</strong> "@ + decimal(results.len()) + "</p>"@,
        "    <p><strong>Total Open Ports:</strong> "@ + decimal(summary_open_total(results)) + "</p>"@,
        "    <p><strong>Total Elapsed Time:</strong> "@ + elapsed + "s</p>"@,
        "  </div>"@,
    ]
}

/// The rows of an open port in a host's table: its `port/protocol` badge
/// (with a TLS badge when it speaks TLS), its service name and its
/// description cell.
pub open spec fn port_row_lines(p: PortResult) -> Seq<Seq<char>> {
    seq![
        "        <tr>"@,
        "          <td><span class=\"badge-open\">"@ + port_proto_text(p) + "</span>"@ + (if p.tls {
            "<span class=\"badge-tls\">TLS</span>"@
        } else {
            Seq::empty()
        }) + "</td>"@,
        "          <td>"@ + p.service.name@ + "</td>"@,
        "          <td>"@ + html_detail_text(p) + "</td>"@,
        "        </tr>"@,
    ]
}

/// The rows of the first `n` of `ports`.
pub open spec fn port_rows(ports: Seq<PortResult>, n: nat) -> Seq<Seq<char>>
    decreases n,
{
    if n == 0 {
        Seq::empty()
    } else {
        port_rows(ports, (n - 1) as nat) + port_row_lines(ports[n - 1])
    }
}

/// The block of one host: "No open ports found." when it has none, else a
/// table with the rows of its open ports in scan order.
pub open spec fn host_section_lines(r: ScanResult) -> Seq<Seq<char>> {
    let open = open_results(r.ports@);
    seq!["  <div class=\"host-block\">"@, "    <h2>Host: "@ + r.target@ + "</h2>"@] + (if open.len() == 0 {
        seq!["    <p>No open ports found.</p>"@]
    } else {
        port_table_head_lines() + port_rows(open, open.len()) + port_table_foot_lines()
    }) + seq!["  </div>"@]
}

/// The blocks of the first `n` hosts.
pub open spec fn host_sections(results: Seq<ScanResult>, n: nat) -> Seq<Seq<char>>
    decreases n,
{
    if n == 0 {
        Seq::empty()
    } else {
        host_sections(results, (n - 1) as nat) + host_section_lines(results[n - 1])
    }
}

/// The HTML page of a scan of the target `spec` that took `elapsed`
/// seconds.
pub open spec fn html_page_lines(spec: Seq<char>, results: Seq<ScanResult>, elapsed: Seq<char>) -> Seq<Seq<char>> {
    page_head_lines() + seq!["  <title>Scan Report: "@ + spec + "</title>"@] + page_style_lines()
        + page_summary_lines(spec, results, elapsed) + host_sections(results, results.len()) + seq![
        "</body>"@,
        "</html>"@,
    ]
}

fn push_port_row(lines: &mut Vec<String>, p: &PortResult)
    ensures
        line_texts(final(lines)@) == line_texts(old(lines)@) + port_row_lines(*p),
{
    let ghost start = line_texts(lines@);
    push_line(lines, String::from_str("        <tr>"));
    let mut t = String::from_str("          <td><span class=\"badge-open\">");
    let pp = port_proto(p);
    t.append(pp.as_str());
    t.append("</span>");
    let ghost before_badge = t@;
    if p.tls {
        t.append("<span class=\"badge-tls\">TLS</span>");
    } else {
        assert(t@ =~= before_badge + Seq::<char>::empty());
    }
    t.append("</td>");
    push_line(lines, t);
    let mut t = String::from_str("          <td>");
    t.append(p.service.name);
    t.append("</td>");
    push_line(lines, t);
    let mut t = String::from_str("          <td>");
    let d = html_detail(p);
    t.append(d.as_str());
    t.append("</td>");
    push_line(lines, t);
    push_line(lines, String::from_str("        </tr>"));
    assert(line_texts(lines@) =~= start + port_row_lines(*p));
}

fn push_host_section(lines: &mut Vec<String>, r: &ScanResult)
    ensures
        line_texts(final(lines)@) == line_texts(old(lines)@) + host_section_lines(*r),
{
    let ghost start = line_texts(lines@);
    push_line(lines, String::from_str("  <div class=\"host-block\">"));
    let mut t = String::from_str("    <h2>Host: ");
    t.append(r.target.as_str());
    t.append("</h2>");
    push_line(lines, t);
    let ghost opened = line_texts(lines@);
    let open = r.open_ports();
    let ghost open_spec = open_results(r.ports@);
    assert(open@.len() == open@.map_values(|p: &PortResult| *p).len());
    if open.len() == 0 {
        push_line(lines, String::from_str("    <p>No open ports found.</p>"));
    } else {
        push_line(lines, String::from_str("    <table>"));
        push_line(lines, String::from_str("      <thead>"));
        push_line(lines, String::from_str("        <tr>"));
        push_line(lines, String::from_str("          <th>Port</th>"));
        push_line(lines, String::from_str("          <th>Service</th>"));
        push_line(lines, String::from_str("          <th>Description / Banner</th>"));
        push_line(lines, String::from_str("        </tr>"));
        push_line(lines, String::from_str("      </thead>"));
        push_line(lines, String::from_str("      <tbody>"));
        let ghost head = line_texts(lines@);
        assert(head =~= opened + port_table_head_lines());
        let mut j: usize = 0;
        while j < open.len()
            invariant
                j <= open@.len(),
                open@.map_values(|p: &PortResult| *p) == open_spec,
                line_texts(lines@) == head + port_rows(open_spec, j as nat),
            decreases open@.len() - j,
        {
            push_port_row(lines, open[j]);
            proof {
                assert(open@.map_values(|p: &PortResult| *p)[j as int] == *open@[j as int]);
                assert(port_rows(open_spec, (j + 1) as nat) == port_rows(open_spec, j as nat)
                    + port_row_lines(open_spec[j as int]));
            }
            j = j + 1;
        }
        push_line(lines, String::from_str("      </tbody>"));
        push_line(lines, String::from_str("    </table>"));
    }
    push_line(lines, String::from_str("  </div>"));
    assert(line_texts(lines@) =~= start + host_section_lines(*r));
}

/// The lines of the HTML page of a scan of the target `spec`: `results` in
/// scan order, `elapsed` the seconds the scan took, as text.
pub fn html_page(spec: &str, results: &[ScanResult], elapsed: &str) -> (r: Vec<String>)
    ensures
        line_texts(r@) == html_page_lines(spec@, results@, elapsed@),
{
    let mut lines: Vec<String> = Vec::new();
    let ghost empty = line_texts(lines@);
    assert(empty =~= Seq::<Seq<char>>::empty());
    push_line(&mut lines, String::from_str("<!DOCTYPE html>"));
    push_line(&mut lines, String::from_str("<html lang=\"en\">"));
    push_line(&mut lines, String::from_str("<head>"));
    push_line(&mut lines, String::from_str("  <meta charset=\"UTF-8\">"));
    let mut t = String::from_str("  <title>Scan Report: ");
    t.append(spec);
    t.append("</title>");
    push_line(&mut lines, t);
    push_line(&mut lines, String::from_str("  <style>"));
    push_line(&mut lines, String::from_str("    body { font-family: -apple-system, BlinkMacSystemFont, 'Segoe UI', Roboto, sans-serif; margin: 40px; color: #333; background: #f9f9f9; }"));
    push_line(&mut lines, String::from_str("    h1, h2 { color: #111; }"));
    push_line(&mut lines, String::from_str("    .summary { background: #fff; padding: 20px; border-radius: 8px; box-shadow: 0 1px 3px rgba(0,0,0,0.1); margin-bottom: 30px; }"));
    push_line(&mut lines, String::from_str("    .host-block { background: #fff; padding: 20px; border-radius: 8px; box-shadow: 0 1px 3px rgba(0,0,0,0.1); margin-bottom: 30px; }"));
    push_line(&mut lines, String::from_str("    table { width: 100%; border-collapse: collapse; margin-top: 15px; }"));
    push_line(&mut lines, String::from_str("    th, td { text-align: left; padding: 12px; border-bottom: 1px solid #eee; }"));
    push_line(&mut lines, String::from_str("    th { background: #fdfdfd; font-weight: 600; color: #555; }"));
    push_line(&mut lines, String::from_str("    .badge-open { background: #e6f4ea; color: #1e8e3e; padding: 4px 8px; border-radius: 4px; font-size: 0.85em; font-weight: bold; }"));
    push_line(&mut lines, String::from_str("    .badge-tls { background: #fce8e6; color: #d93025; padding: 4px 8px; border-radius: 4px; font-size: 0.85em; font-weight: bold; margin-left: 5px; }"));
    push_line(&mut lines, String::from_str("    code { background: #f4f4f4; padding: 2px 5px; border-radius: 3px; font-size: 0.9em; }"));
    push_line(&mut lines, String::from_str("  </style>"));
    push_line(&mut lines, String::from_str("</head>"));
    push_line(&mut lines, String::from_str("<body>"));
    push_line(&mut lines, String::from_str("  <h1>Rustscan-rs Report</h1>"));
    push_line(&mut lines, String::from_str("  <div class=\"summary\">"));
    let mut t = String::from_str("    <p><strong>Target:</strong> ");
    t.append(spec);
    t.append("</p>");
    push_line(&mut lines, t);
    let mut t = String::from_str("    <p><strong>Hosts Scanned:</strong> ");
    let n = u64_to_decimal(results.len() as u64);
    t.append(n.as_str());
    t.append("</p>");
    push_line(&mut lines, t);
    let mut t = String::from_str("    <p><strong>Total Open Ports:</strong> ");
    let n = u64_to_decimal(total_open_ports(results) as u64);
    t.append(n.as_str());
    t.append("</p>");
    push_line(&mut lines, t);
    let mut t = String::from_str("    <p><strong>Total Elapsed Time:</strong> ");
    t.append(elapsed);
    t.append("s</p>");
    push_line(&mut lines, t);
    push_line(&mut lines, String::from_str("  </div>"));
    let ghost head = line_texts(lines@);
    assert(head =~= page_head_lines() + seq!["  <title>Scan Report: "@ + spec@ + "</title>"@]
        + page_style_lines() + page_summary_lines(spec@, results@, elapsed@));
    let mut i: usize = 0;
    while i < results.len()
        invariant
            i <= results@.len(),
            line_texts(lines@) == head + host_sections(results@, i as nat),
        decreases results@.len() - i,
    {
        push_host_section(&mut lines, &results[i]);
        i = i + 1;
    }
    push_line(&mut lines, String::from_str("</body>"));
    push_line(&mut lines, String::from_str("</html>"));
    assert(line_texts(lines@) =~= html_page_lines(spec@, results@, elapsed@));
    lines
}

} // verus!
