//! The text of the result renderings: escaping, CSV lines, the cells of
//! the HTML output and the columns of the terminal report, and the counts
//! their summaries show.
use vstd::prelude::*;

use crate::export::{status_label, status_text, export_rows};
use crate::scanner::{PortResult, ScanResult, open_results};
use crate::service::Transport;
use crate::text::{ascii_chars, ascii_string, decimal, decimal_bytes, lemma_decimal_ascii, push_decimal};

verus! {

/// How special characters are escaped.
#[derive(Debug, Clone, Copy, PartialEq, Eq, Structural)]
pub enum Escaping {
    /// Inside a quoted CSV field: `"` becomes `""`.
    CsvQuoted,
    /// Inside HTML text: `<` and `>` become `&lt;` and `&gt;`.
    Html,
}

/// The replacement of one character.
pub open spec fn escape_char(c: char, mode: Escaping) -> Seq<char> {
    match mode {
        Escaping::CsvQuoted => if c == '"' { seq!['"', '"'] } else { seq![c] },
        Escaping::Html => if c == '<' {
            seq!['&', 'l', 't', ';']
        } else if c == '>' {
            seq!['&', 'g', 't', ';']
        } else {
            seq![c]
        },
    }
}

/// `s` with every special character replaced.
pub open spec fn escaped(s: Seq<char>, mode: Escaping) -> Seq<char>
    decreases s.len(),
{
    if s.len() == 0 {
        s
    } else {
        escaped(s.drop_last(), mode) + escape_char(s.last(), mode)
    }
}

/// The replacement text of `c`, when it is special.
fn replacement(c: char, mode: Escaping) -> (r: Option<&'static str>)
    ensures
        match r {
            Some(t) => t@ == escape_char(c, mode) && escape_char(c, mode) != seq![c],
            None => escape_char(c, mode) == seq![c],
        },
{
    proof {
        reveal_strlit("\"\"");
        reveal_strlit("&lt;");
        reveal_strlit("&gt;");
    }
    match mode {
        Escaping::CsvQuoted => if c == '"' {
            assert("\"\""@ =~= seq!['"', '"']);
            Some("\"\"")
        } else {
            None
        },
        Escaping::Html => if c == '<' {
            assert("&lt;"@ =~= seq!['&', 'l', 't', ';']);
            Some("&lt;")
        } else if c == '>' {
            assert("&gt;"@ =~= seq!['&', 'g', 't', ';']);
            Some("&gt;")
        } else {
            None
        },
    }
}

proof fn lemma_escaped_push(s: Seq<char>, c: char, mode: Escaping)
    ensures
        escaped(s.push(c), mode) == escaped(s, mode) + escape_char(c, mode),
{
    assert(s.push(c).drop_last() =~= s);
}

/// Escape the special characters of `s`.
pub fn escape(s: &str, mode: Escaping) -> (r: String)
    ensures
        r@ == escaped(s@, mode),
{
    let n = s.unicode_len();
    let mut out = String::new();
    let mut last: usize = 0;
    let mut i: usize = 0;
    assert(s@.subrange(0, 0) =~= Seq::<char>::empty());
    while i < n
        invariant
            n == s@.len(),
            last <= i <= n,
            out@ + s@.subrange(last as int, i as int) == escaped(s@.subrange(0, i as int), mode),
        decreases n - i,
    {
        let c = s.get_char(i);
        let ghost pre = s@.subrange(0, i as int);
        proof {
            lemma_escaped_push(pre, c, mode);
            assert(s@.subrange(0, i + 1) =~= pre.push(c));
        }
        match replacement(c, mode) {
            Some(t) => {
                let run = s.substring_char(last, i);
                out.append(run);
                out.append(t);
                last = i + 1;
                assert(s@.subrange(last as int, i + 1) =~= Seq::<char>::empty());
            },
            None => {
                assert(s@.subrange(last as int, i + 1) =~= s@.subrange(last as int, i as int).push(
                    c,
                ));
            },
        }
        i = i + 1;
    }
    let run = s.substring_char(last, n);
    out.append(run);
    assert(s@.subrange(0, n as int) =~= s@);
    out
}

/// The lower-case name of a transport: `tcp`, `udp` or `tcp/udp`.
pub open spec fn transport_text(t: Transport) -> Seq<char> {
    match t {
        Transport::Tcp => "tcp"@,
        Transport::Udp => "udp"@,
        Transport::TcpUdp => "tcp/udp"@,
    }
}

/// The lower-case name of a transport.
pub fn transport_label(t: Transport) -> (r: &'static str)
    ensures
        r@ == transport_text(t),
{
    match t {
        Transport::Tcp => "tcp",
        Transport::Udp => "udp",
        Transport::TcpUdp => "tcp/udp",
    }
}

/// `port/protocol`, e.g. `443/tcp`.
pub open spec fn port_proto_text(p: PortResult) -> Seq<char> {
    decimal(p.port as nat) + "/"@ + transport_text(p.protocol)
}

/// `port/protocol` of a result.
pub fn port_proto(p: &PortResult) -> (r: String)
    ensures
        r@ == port_proto_text(*p),
{
    let mut v: Vec<u8> = Vec::new();
    push_decimal(&mut v, p.port as u64);
    proof {
        lemma_decimal_ascii(p.port as nat);
    }
    let mut s = ascii_string(v);
    s.append("/");
    s.append(transport_label(p.protocol));
    s
}

/// `true` or `false`.
pub open spec fn bool_text(b: bool) -> Seq<char> {
    if b { "true"@ } else { "false"@ }
}

/// The CSV line of an open port:
/// `host,port/proto,status,tls,service,"banner"`, the banner with its
/// quotes doubled.
pub open spec fn csv_line_text(target: Seq<char>, p: PortResult) -> Seq<char> {
    target + ","@ + port_proto_text(p) + ","@ + status_text(p.status) + ","@ + bool_text(p.tls)
        + ","@ + p.service.name@ + ",\""@ + escaped(
        match p.banner {
            Some(b) => b@,
            None => Seq::empty(),
        },
        Escaping::CsvQuoted,
    ) + "\""@
}

/// The CSV line of one port of a host.
pub fn csv_line(target: &str, p: &PortResult) -> (r: String)
    ensures
        r@ == csv_line_text(target@, *p),
{
    let mut s = String::from_str(target);
    s.append(",");
    let pp = port_proto(p);
    s.append(pp.as_str());
    s.append(",");
    s.append(status_label(p.status));
    s.append(",");
    s.append(if p.tls { "true" } else { "false" });
    s.append(",");
    s.append(p.service.name);
    s.append(",\"");
    let banner = match &p.banner {
        Some(b) => escape(b.as_str(), Escaping::CsvQuoted),
        None => escape("", Escaping::CsvQuoted),
    };
    proof {
        reveal_strlit("");
    }
    s.append(banner.as_str());
    s.append("\"");
    s
}

/// The header line of the CSV output.
pub open spec fn csv_header_text() -> Seq<char> {
    "Host,Port,Status,TLS,Service,Banner"@
}

/// The CSV lines of the open ports of every host, after the header.
pub open spec fn csv_lines_text(rs: Seq<ScanResult>) -> Seq<Seq<char>> {
    seq![csv_header_text()] + export_rows(rs).map_values(
        |row: (Seq<char>, Option<Seq<char>>, PortResult)| csv_line_text(row.0, row.2),
    )
}

/// The CSV output: the header line, then one line per open port, host by
/// host.
pub fn csv_lines(results: &[ScanResult]) -> (r: Vec<String>)
    ensures
        r@.map_values(|s: String| s@) == csv_lines_text(results@),
{
    let mut lines: Vec<String> = Vec::new();
    lines.push(String::from_str("Host,Port,Status,TLS,Service,Banner"));
    let mut i: usize = 0;
    assert(results@.subrange(0, 0) =~= Seq::<ScanResult>::empty());
    while i < results.len()
        invariant
            i <= results@.len(),
            lines@.map_values(|s: String| s@) == csv_lines_text(results@.subrange(0, i as int)),
        decreases results@.len() - i,
    {
        let r = &results[i];
        let open = r.open_ports();
        let ghost before = lines@.map_values(|s: String| s@);
        let ghost rows = open_results(r.ports@).map_values(|p: PortResult| csv_line_text(r.target@, p));
        let mut j: usize = 0;
        while j < open.len()
            invariant
                j <= open@.len(),
                open@.map_values(|p: &PortResult| *p) == open_results(r.ports@),
                rows == open_results(r.ports@).map_values(|p: PortResult| csv_line_text(r.target@, p)),
                lines@.map_values(|s: String| s@) == before + rows.subrange(0, j as int),
            decreases open@.len() - j,
        {
            let line = csv_line(r.target.as_str(), open[j]);
            let ghost prev = lines@;
            lines.push(line);
            proof {
                assert(open@.map_values(|p: &PortResult| *p)[j as int] == *open@[j as int]);
                assert(lines@.map_values(|s: String| s@) =~= prev.map_values(|s: String| s@).push(
                    line@,
                ));
                assert(rows.subrange(0, j + 1) =~= rows.subrange(0, j as int).push(rows[j as int]));
            }
            j = j + 1;
        }
        proof {
            let sub = results@.subrange(0, i + 1);
            assert(sub.drop_last() =~= results@.subrange(0, i as int));
            assert(rows.subrange(0, open@.len() as int) =~= rows);
            let hr = crate::export::host_rows(sub.last());
            assert(hr.map_values(
                |row: (Seq<char>, Option<Seq<char>>, PortResult)| csv_line_text(row.0, row.2),
            ) =~= rows);
            assert(export_rows(sub) == export_rows(sub.drop_last()) + hr);
            assert(export_rows(sub).map_values(
                |row: (Seq<char>, Option<Seq<char>>, PortResult)| csv_line_text(row.0, row.2),
            ) =~= export_rows(sub.drop_last()).map_values(
                |row: (Seq<char>, Option<Seq<char>>, PortResult)| csv_line_text(row.0, row.2),
            ) + rows);
        }
        i = i + 1;
    }
    assert(results@.subrange(0, results@.len() as int) =~= results@);
    lines
}

/// The detail column of the terminal output: the banner when one was
/// grabbed, else the description of a known service, else nothing.
pub open spec fn text_detail_text(p: PortResult) -> Seq<char> {
    match p.banner {
        Some(b) => b@,
        None => if p.service.spec_is_known() {
            p.service.description@
        } else {
            Seq::empty()
        },
    }
}

/// The detail column of a port in the terminal output.
pub fn text_detail(p: &PortResult) -> (r: String)
    ensures
        r@ == text_detail_text(*p),
{
    match &p.banner {
        Some(b) => b.clone(),
        None => if p.service.is_known() {
            String::from_str(p.service.description)
        } else {
            String::new()
        },
    }
}

/// The description cell of the HTML output: the banner as escaped code
/// when one was grabbed, else the service description.
pub open spec fn html_detail_text(p: PortResult) -> Seq<char> {
    match p.banner {
        Some(b) => "<code>"@ + escaped(b@, Escaping::Html) + "</code>"@,
        None => p.service.description@,
    }
}

/// The description cell of a port in the HTML output.
pub fn html_detail(p: &PortResult) -> (r: String)
    ensures
        r@ == html_detail_text(*p),
{
    match &p.banner {
        Some(b) => {
            let mut s = String::from_str("<code>");
            let e = escape(b.as_str(), Escaping::Html);
            s.append(e.as_str());
            s.append("</code>");
            s
        },
        None => String::from_str(p.service.description),
    }
}

/// Number of hosts with at least one open port.
pub open spec fn hosts_with_open(rs: Seq<ScanResult>) -> nat
    decreases rs.len(),
{
    if rs.len() == 0 {
        0
    } else {
        hosts_with_open(rs.drop_last()) + if open_results(rs.last().ports@).len() > 0 {
            1nat
        } else {
            0nat
        }
    }
}

proof fn lemma_hosts_with_open_bound(rs: Seq<ScanResult>)
    ensures
        hosts_with_open(rs) <= rs.len(),
    decreases rs.len(),
{
    if rs.len() > 0 {
        lemma_hosts_with_open_bound(rs.drop_last());
    }
}

/// Number of hosts with at least one open port.
pub fn hosts_with_open_ports(results: &[ScanResult]) -> (r: usize)
    ensures
        r == hosts_with_open(results@),
{
    let mut count: usize = 0;
    let mut i: usize = 0;
    assert(results@.subrange(0, 0) =~= Seq::<ScanResult>::empty());
    while i < results.len()
        invariant
            i <= results@.len(),
            count == hosts_with_open(results@.subrange(0, i as int)),
        decreases results@.len() - i,
    {
        proof {
            lemma_hosts_with_open_bound(results@.subrange(0, i as int));
            assert(results@.subrange(0, i + 1).drop_last() =~= results@.subrange(0, i as int));
        }
        if results[i].open_count() > 0 {
            count = count + 1;
        }
        i = i + 1;
    }
    assert(results@.subrange(0, results@.len() as int) =~= results@);
    count
}

proof fn lemma_export_rows_len(rs: Seq<ScanResult>)
    ensures
        rs.len() > 0 ==> export_rows(rs).len() == export_rows(rs.drop_last()).len() + open_results(
            rs.last().ports@,
        ).len(),
{
}

/// Number of open ports over all hosts (saturating at `usize::MAX`).
pub fn total_open_ports(results: &[ScanResult]) -> (r: usize)
    ensures
        r == if export_rows(results@).len() <= usize::MAX {
            export_rows(results@).len()
        } else {
            usize::MAX as nat
        },
{
    let mut total: usize = 0;
    let mut i: usize = 0;
    assert(results@.subrange(0, 0) =~= Seq::<ScanResult>::empty());
    while i < results.len()
        invariant
            i <= results@.len(),
            total == if export_rows(results@.subrange(0, i as int)).len() <= usize::MAX {
                export_rows(results@.subrange(0, i as int)).len()
            } else {
                usize::MAX as nat
            },
        decreases results@.len() - i,
    {
        let sub = Ghost(results@.subrange(0, i + 1));
        proof {
            assert(sub@.drop_last() =~= results@.subrange(0, i as int));
            lemma_export_rows_len(sub@);
        }
        total = total.saturating_add(results[i].open_count());
        i = i + 1;
    }
    assert(results@.subrange(0, results@.len() as int) =~= results@);
    total
}

} // verus!
