//! The terminal output: the startup banner and the lines of the coloured
//! text report of a scan, from the summary of a multi-host scan down to
//! one row per open port.  The application formats the elapsed times and
//! prints the lines.
use vstd::prelude::*;

use crate::output::{hosts_with_open, hosts_with_open_ports, port_proto, port_proto_text, text_detail, text_detail_text};
use crate::scanner::{PortResult, PortStatus, ScanResult, lemma_open_results_filter, open_results};
use crate::cli::{CliArgs, OutputFormat, format_label, spec_format_label};
use crate::targets::ResolvedTarget;
use crate::text::{decimal, u64_to_decimal};

verus! {

/// Bold text.
pub open spec fn ansi_bold() -> Seq<char> {
    "\x1b[1m"@
}

/// Green text.
pub open spec fn ansi_green() -> Seq<char> {
    "\x1b[32m"@
}

/// Red text.
pub open spec fn ansi_red() -> Seq<char> {
    "\x1b[31m"@
}

/// Cyan text.
pub open spec fn ansi_cyan() -> Seq<char> {
    "\x1b[36m"@
}

/// Yellow text.
pub open spec fn ansi_yellow() -> Seq<char> {
    "\x1b[33m"@
}

/// Dimmed text.
pub open spec fn ansi_dim() -> Seq<char> {
    "\x1b[2m"@
}

/// Back to plain text.
pub open spec fn ansi_reset() -> Seq<char> {
    "\x1b[0m"@
}

fn bold() -> (r: &'static str)
    ensures
        r@ == ansi_bold(),
{
    "\x1b[1m"
}

fn green() -> (r: &'static str)
    ensures
        r@ == ansi_green(),
{
    "\x1b[32m"
}

fn red() -> (r: &'static str)
    ensures
        r@ == ansi_red(),
{
    "\x1b[31m"
}

fn cyan() -> (r: &'static str)
    ensures
        r@ == ansi_cyan(),
{
    "\x1b[36m"
}

fn yellow() -> (r: &'static str)
    ensures
        r@ == ansi_yellow(),
{
    "\x1b[33m"
}

fn dim() -> (r: &'static str)
    ensures
        r@ == ansi_dim(),
{
    "\x1b[2m"
}

fn reset() -> (r: &'static str)
    ensures
        r@ == ansi_reset(),
{
    "\x1b[0m"
}

/// The texts of a list of lines.
pub open spec fn line_texts(lines: Seq<String>) -> Seq<Seq<char>> {
    lines.map_values(|l: String| l@)
}

pub(crate) fn push_line(lines: &mut Vec<String>, line: String)
    ensures
        line_texts(final(lines)@) == line_texts(old(lines)@).push(line@),
{
    let ghost line_text = line@;
    lines.push(line);
    assert(line_texts(lines@) =~= line_texts(old(lines)@).push(line_text));
}

/// `s` left-aligned in a column of `width` characters: followed by spaces
/// up to that width, unchanged when it is already as wide.
pub open spec fn padded(s: Seq<char>, width: nat) -> Seq<char> {
    if s.len() >= width {
        s
    } else {
        s + Seq::new((width - s.len()) as nat, |i: int| ' ')
    }
}

/// `s` left-aligned in a column of `width` characters.
pub fn pad_right(s: &str, width: usize) -> (r: String)
    ensures
        r@ == padded(s@, width as nat),
{
    let n = s.unicode_len();
    let mut r = String::from_str(s);
    if n >= width {
        return r;
    }
    let mut k: usize = 0;
    assert(r@ =~= s@ + Seq::new(0, |i: int| ' '));
    while k < width - n
        invariant
            n == s@.len(),
            n < width,
            k <= width - n,
            r@ == s@ + Seq::new(k as nat, |i: int| ' '),
        decreases width - n - k,
    {
        r.append(" ");
        k = k + 1;
        proof {
            reveal_strlit(" ");
            assert(" "@ =~= seq![' ']);
        }
        assert(r@ =~= s@ + Seq::new(k as nat, |i: int| ' '));
    }
    r
}

/// The colour of a count: red for none, green otherwise.
pub open spec fn count_colour(n: nat) -> Seq<char> {
    if n == 0 {
        ansi_red()
    } else {
        ansi_green()
    }
}

fn count_colour_code(n: usize) -> (r: &'static str)
    ensures
        r@ == count_colour(n as nat),
{
    if n == 0 {
        red()
    } else {
        green()
    }
}

/// A labelled figure: `  name: value`, the name in yellow.
pub open spec fn stat_line(name: Seq<char>, value: Seq<char>) -> Seq<char> {
    "  "@ + ansi_yellow() + name + ansi_reset() + " "@ + value
}

fn make_stat_line(name: &str, value: &str) -> (r: String)
    ensures
        r@ == stat_line(name@, value@),
{
    let mut s = String::from_str("  ");
    s.append(yellow());
    s.append(name);
    s.append(reset());
    s.append(" ");
    s.append(value);
    s
}

/// A count in red when it is zero and in green otherwise.
pub open spec fn coloured_count(n: nat) -> Seq<char> {
    count_colour(n) + decimal(n) + ansi_reset()
}

fn make_coloured_count(n: usize) -> (r: String)
    ensures
        r@ == coloured_count(n as nat),
{
    let mut s = String::from_str(count_colour_code(n));
    let d = u64_to_decimal(n as u64);
    s.append(d.as_str());
    s.append(reset());
    s
}

/// A number of seconds, with its unit.
pub open spec fn seconds_text(secs: Seq<char>) -> Seq<char> {
    secs + "s"@
}

fn make_seconds(secs: &str) -> (r: String)
    ensures
        r@ == seconds_text(secs@),
{
    let mut s = String::from_str(secs);
    s.append("s");
    s
}

/// A cyan rule line: `rule` between the colour codes.
pub open spec fn rule_line(rule: Seq<char>) -> Seq<char> {
    ansi_cyan() + rule + ansi_reset()
}

fn make_rule_line(rule: &str) -> (r: String)
    ensures
        r@ == rule_line(rule@),
{
    let mut s = String::from_str(cyan());
    s.append(rule);
    s.append(reset());
    s
}

/// The heavy rule around the summary of a multi-host scan.
pub open spec fn heavy_rule() -> Seq<char> {
    "══════════════════════════════════════════════════"@
}

/// The thin rule around the figures of a host.
pub open spec fn thin_rule() -> Seq<char> {
    "  ────────────────────────────────────────"@
}

/// A heading in bold cyan.
pub open spec fn heading_line(text: Seq<char>) -> Seq<char> {
    ansi_bold() + ansi_cyan() + text + ansi_reset()
}

fn make_heading_line(text: &str) -> (r: String)
    ensures
        r@ == heading_line(text@),
{
    let mut s = String::from_str(bold());
    s.append(cyan());
    s.append(text);
    s.append(reset());
    s
}

/// The summary that opens the report of a multi-host scan.
pub open spec fn summary_lines(label: Seq<char>, results: Seq<ScanResult>, total_elapsed: Seq<char>) -> Seq<Seq<char>> {
    seq![
        Seq::empty(),
        heading_line("Scan Results — "@ + label),
        rule_line(heavy_rule()),
        stat_line("Hosts scanned  :"@, decimal(results.len())),
        stat_line("Hosts with open:"@, coloured_count(hosts_with_open(results))),
        stat_line("Total elapsed  :"@, seconds_text(total_elapsed)),
        rule_line(heavy_rule()),
        Seq::empty(),
    ]
}

/// The marker of a TLS port in the table.
pub open spec fn tls_marker(tls: bool) -> Seq<char> {
    if tls {
        "🔒"@
    } else {
        " "@
    }
}

/// The table row of an open port: its `port/protocol`, the TLS marker, the
/// service name and the banner or description.
pub open spec fn open_port_row(p: PortResult) -> Seq<char> {
    "    "@ + ansi_green() + "▶"@ + ansi_reset() + "  "@ + ansi_bold() + padded(port_proto_text(p), 8)
        + ansi_reset() + " "@ + tls_marker(p.tls) + "   "@ + ansi_cyan() + padded(p.service.name@, 12)
        + ansi_reset() + " "@ + ansi_dim() + text_detail_text(p) + ansi_reset()
}

/// The table row of an open port.
pub fn port_row(p: &PortResult) -> (r: String)
    ensures
        r@ == open_port_row(*p),
{
    let mut s = String::from_str("    ");
    s.append(green());
    s.append("▶");
    s.append(reset());
    s.append("  ");
    s.append(bold());
    let pp = pad_right(port_proto(p).as_str(), 8);
    s.append(pp.as_str());
    s.append(reset());
    s.append(" ");
    s.append(if p.tls { "🔒" } else { " " });
    s.append("   ");
    s.append(cyan());
    let name = pad_right(p.service.name, 12);
    s.append(name.as_str());
    s.append(reset());
    s.append(" ");
    s.append(dim());
    let detail = text_detail(p);
    s.append(detail.as_str());
    s.append(reset());
    s
}

/// The line that stands for an empty table.
pub open spec fn no_open_line() -> Seq<char> {
    "  "@ + ansi_dim() + "No open ports in range."@ + ansi_reset()
}

/// The three lines above the rows of the table.
pub open spec fn table_head_lines() -> Seq<Seq<char>> {
    seq![
        "  "@ + ansi_bold() + ansi_green() + "OPEN PORTS:"@ + ansi_reset(),
        "  "@ + ansi_dim() + "  PORT  TLS SERVICE      DESCRIPTION / BANNER"@ + ansi_reset(),
        "  "@ + ansi_dim() + "  ───────────────────────────────────────────────────────"@ + ansi_reset(),
    ]
}

/// The open ports of a host: "No open ports in range." when it has none,
/// else the table header and one row per open port, in scan order.
pub open spec fn open_table_lines(r: ScanResult) -> Seq<Seq<char>> {
    let open = open_results(r.ports@);
    if open.len() == 0 {
        seq![no_open_line()]
    } else {
        table_head_lines() + open.map_values(|p: PortResult| open_port_row(p))
    }
}

/// The heading of a host's block: a branch of the tree in a multi-host
/// scan, else a title with the target and the address.
pub open spec fn host_heading_lines(spec: Seq<char>, r: ScanResult, multi: bool) -> Seq<Seq<char>> {
    if multi {
        seq![heading_line("  ┌─ "@ + r.target@)]
    } else {
        seq![Seq::empty(), heading_line("Scan Results — "@ + spec + " ("@ + r.target@ + ")"@)]
    }
}

/// The figures of a host between two thin rules; the elapsed time only
/// when it is the one host of the scan.
pub open spec fn host_figure_lines(r: ScanResult, elapsed: Seq<char>, multi: bool) -> Seq<Seq<char>> {
    seq![
        rule_line(thin_rule()),
        stat_line("Ports scanned :"@, decimal(r.total_ports as nat)),
        stat_line("Open ports    :"@, coloured_count(open_results(r.ports@).len())),
    ] + (if multi {
        Seq::empty()
    } else {
        seq![stat_line("Elapsed       :"@, seconds_text(elapsed))]
    }) + seq![rule_line(thin_rule())]
}

/// The block of one host, closed by an empty line.
pub open spec fn host_block_lines(spec: Seq<char>, r: ScanResult, elapsed: Seq<char>, multi: bool) -> Seq<Seq<char>> {
    host_heading_lines(spec, r, multi) + host_figure_lines(r, elapsed, multi) + open_table_lines(r)
        + seq![Seq::empty()]
}

/// The block of a host counts as open the ports whose status is open or
/// open-or-filtered, and lists exactly those: "No open ports in range."
/// when there are none, else the table head and one row per such port, in
/// scan order, as many rows as the "Open ports" figure says.
pub proof fn lemma_host_block_table(spec: Seq<char>, r: ScanResult, elapsed: Seq<char>, multi: bool)
    ensures
        ({
            let b = host_block_lines(spec, r, elapsed, multi);
            let open = r.ports@.filter(
                |p: PortResult| p.status == PortStatus::Open || p.status == PortStatus::OpenFiltered,
            );
            let h: int = if multi { 1 } else { 2 };
            let t: int = if multi { 5 } else { 7 };
            &&& b[h + 2] == stat_line("Open ports    :"@, coloured_count(open.len()))
            &&& b.last() == Seq::<char>::empty()
            &&& open.len() == 0 ==> b.len() == t + 2 && b[t] == "  "@ + ansi_dim()
                + "No open ports in range."@ + ansi_reset()
            &&& open.len() > 0 ==> {
                &&& b.len() == t + 3 + open.len() + 1
                &&& b[t] == "  "@ + ansi_bold() + ansi_green() + "OPEN PORTS:"@ + ansi_reset()
                &&& b.subrange(t + 3, t + 3 + open.len()) == open.map_values(
                    |p: PortResult| open_port_row(p),
                )
            }
        }),
{
    lemma_open_results_filter(r.ports@);
    let b = host_block_lines(spec, r, elapsed, multi);
    let open = open_results(r.ports@);
    let t: int = if multi { 5 } else { 7 };
    if open.len() > 0 {
        assert(b.subrange(t + 3, t + 3 + open.len()) =~= open.map_values(
            |p: PortResult| open_port_row(p),
        ));
    }
}

/// A host's block appears whole in the report: alone when the scan has one
/// host, else after the summary, each host's block in scan order.
pub proof fn lemma_text_report_blocks(
    spec: Seq<char>,
    label: Seq<char>,
    results: Seq<ScanResult>,
    total_elapsed: Seq<char>,
    host_elapsed: Seq<Seq<char>>,
)
    requires
        host_elapsed.len() == results.len(),
    ensures
        results.len() == 1 ==> text_report_lines(spec, label, results, total_elapsed, host_elapsed)
            == host_block_lines(spec, results[0], host_elapsed[0], false),
        results.len() > 1 ==> text_report_lines(
            spec,
            label,
            results,
            total_elapsed,
            host_elapsed,
        ).subrange(0, 8) == summary_lines(label, results, total_elapsed),
        forall|i: int|
            #![trigger report_block_start(spec, results, host_elapsed, i)]
            0 <= i < results.len() ==> report_block_start(spec, results, host_elapsed, i)
                + host_block_lines(spec, results[i], host_elapsed[i], results.len() > 1).len()
                <= text_report_lines(spec, label, results, total_elapsed, host_elapsed).len()
                && text_report_lines(spec, label, results, total_elapsed, host_elapsed).subrange(
                report_block_start(spec, results, host_elapsed, i),
                report_block_start(spec, results, host_elapsed, i) + host_block_lines(
                    spec,
                    results[i],
                    host_elapsed[i],
                    results.len() > 1,
                ).len(),
            ) == host_block_lines(spec, results[i], host_elapsed[i], results.len() > 1),
        forall|i: int, j: int|
            0 <= i < j < results.len() ==> #[trigger] report_block_start(spec, results, host_elapsed, i)
                + host_block_lines(spec, results[i], host_elapsed[i], results.len() > 1).len()
                <= #[trigger] report_block_start(spec, results, host_elapsed, j),
{
    let multi = results.len() > 1;
    let rep = text_report_lines(spec, label, results, total_elapsed, host_elapsed);
    let pre = if multi {
        summary_lines(label, results, total_elapsed)
    } else {
        Seq::empty()
    };
    let blocks = host_blocks(spec, results, host_elapsed, multi, results.len());
    assert(rep == pre + blocks);
    if results.len() == 1 {
        assert(host_blocks(spec, results, host_elapsed, multi, 0) =~= Seq::<Seq<char>>::empty());
        assert(rep =~= host_block_lines(spec, results[0], host_elapsed[0], false));
    }
    if multi {
        assert(rep.subrange(0, 8) =~= pre);
    }
    assert forall|i: int| 0 <= i < results.len() implies #[trigger] report_block_start(spec, results, host_elapsed, i)
        + host_block_lines(spec, results[i], host_elapsed[i], multi).len() <= rep.len() && rep.subrange(
        report_block_start(spec, results, host_elapsed, i),
        report_block_start(spec, results, host_elapsed, i) + host_block_lines(
            spec,
            results[i],
            host_elapsed[i],
            multi,
        ).len(),
    ) == host_block_lines(spec, results[i], host_elapsed[i], multi) by {
        let blk = host_block_lines(spec, results[i], host_elapsed[i], multi);
        lemma_block_at_offset(spec, results, host_elapsed, multi, results.len(), i);
        let o = block_offset(spec, results, host_elapsed, multi, i);
        assert(pre.len() == if multi { 8int } else { 0int });
        assert(rep.subrange(pre.len() + o, pre.len() + o + blk.len()) =~= blocks.subrange(o, o + blk.len()));
    }
    assert forall|i: int, j: int| 0 <= i < j < results.len() implies #[trigger] report_block_start(spec, results, host_elapsed, i)
        + host_block_lines(spec, results[i], host_elapsed[i], multi).len()
        <= #[trigger] report_block_start(spec, results, host_elapsed, j) by {
        lemma_block_offsets_ordered(spec, results, host_elapsed, multi, i, j);
    }
}

/// Where the block of host `i` starts in the report: after the summary
/// of a multi-host scan and the blocks of the hosts before it.
pub open spec fn report_block_start(spec: Seq<char>, results: Seq<ScanResult>, host_elapsed: Seq<Seq<char>>, i: int) -> int {
    (if results.len() > 1 { 8int } else { 0int }) + block_offset(spec, results, host_elapsed, results.len() > 1, i)
}

/// Where the block of host `i` starts among the host blocks.
pub open spec fn block_offset(spec: Seq<char>, results: Seq<ScanResult>, host_elapsed: Seq<Seq<char>>, multi: bool, i: int) -> int {
    host_blocks(spec, results, host_elapsed, multi, i as nat).len() as int
}

proof fn lemma_host_blocks_prefix(spec: Seq<char>, results: Seq<ScanResult>, host_elapsed: Seq<Seq<char>>, multi: bool, m: nat, n: nat)
    requires
        m <= n,
    ensures
        host_blocks(spec, results, host_elapsed, multi, n).len() >= host_blocks(spec, results, host_elapsed, multi, m).len(),
        host_blocks(spec, results, host_elapsed, multi, n).subrange(0, host_blocks(spec, results, host_elapsed, multi, m).len() as int)
            == host_blocks(spec, results, host_elapsed, multi, m),
    decreases n - m,
{
    if m < n {
        lemma_host_blocks_prefix(spec, results, host_elapsed, multi, m, (n - 1) as nat);
        let a = host_blocks(spec, results, host_elapsed, multi, (n - 1) as nat);
        let c = host_blocks(spec, results, host_elapsed, multi, m);
        let full = host_blocks(spec, results, host_elapsed, multi, n);
        assert(full.subrange(0, a.len() as int) =~= a);
        assert(full.subrange(0, c.len() as int) =~= a.subrange(0, c.len() as int));
    } else {
        let c = host_blocks(spec, results, host_elapsed, multi, m);
        assert(c.subrange(0, c.len() as int) =~= c);
    }
}

proof fn lemma_block_at_offset(spec: Seq<char>, results: Seq<ScanResult>, host_elapsed: Seq<Seq<char>>, multi: bool, n: nat, i: int)
    requires
        0 <= i < n,
    ensures
        ({
            let o = block_offset(spec, results, host_elapsed, multi, i);
            let blk = host_block_lines(spec, results[i], host_elapsed[i], multi);
            let all = host_blocks(spec, results, host_elapsed, multi, n);
            &&& o + blk.len() <= all.len()
            &&& all.subrange(o, o + blk.len()) == blk
        }),
{
    let o = block_offset(spec, results, host_elapsed, multi, i);
    let blk = host_block_lines(spec, results[i], host_elapsed[i], multi);
    let next = host_blocks(spec, results, host_elapsed, multi, (i + 1) as nat);
    assert(next == host_blocks(spec, results, host_elapsed, multi, i as nat) + blk);
    assert(next.subrange(o, o + blk.len()) =~= blk);
    lemma_host_blocks_prefix(spec, results, host_elapsed, multi, (i + 1) as nat, n);
    let all = host_blocks(spec, results, host_elapsed, multi, n);
    assert(all.subrange(o, o + blk.len()) =~= all.subrange(0, next.len() as int).subrange(o, o + blk.len()));
}

proof fn lemma_block_offsets_ordered(spec: Seq<char>, results: Seq<ScanResult>, host_elapsed: Seq<Seq<char>>, multi: bool, i: int, j: int)
    requires
        0 <= i < j,
    ensures
        block_offset(spec, results, host_elapsed, multi, i) + host_block_lines(spec, results[i], host_elapsed[i], multi).len()
            <= block_offset(spec, results, host_elapsed, multi, j),
{
    let next = host_blocks(spec, results, host_elapsed, multi, (i + 1) as nat);
    assert(next == host_blocks(spec, results, host_elapsed, multi, i as nat) + host_block_lines(spec, results[i], host_elapsed[i], multi));
    lemma_host_blocks_prefix(spec, results, host_elapsed, multi, (i + 1) as nat, j as nat);
}

/// The blocks of the first `n` hosts.
pub open spec fn host_blocks(spec: Seq<char>, results: Seq<ScanResult>, host_elapsed: Seq<Seq<char>>, multi: bool, n: nat) -> Seq<Seq<char>>
    decreases n,
{
    if n == 0 {
        Seq::empty()
    } else {
        host_blocks(spec, results, host_elapsed, multi, (n - 1) as nat) + host_block_lines(
            spec,
            results[n - 1],
            host_elapsed[n - 1],
            multi,
        )
    }
}

/// The terminal report of a scan of the target `spec` (shown as `label`
/// when several hosts were scanned): the summary when there are several
/// hosts, then the block of each host in order.
pub open spec fn text_report_lines(spec: Seq<char>, label: Seq<char>, results: Seq<ScanResult>, total_elapsed: Seq<char>, host_elapsed: Seq<Seq<char>>) -> Seq<Seq<char>> {
    let multi = results.len() > 1;
    (if multi {
        summary_lines(label, results, total_elapsed)
    } else {
        Seq::empty()
    }) + host_blocks(spec, results, host_elapsed, multi, results.len())
}

fn heavy_rule_str() -> (r: &'static str)
    ensures
        r@ == heavy_rule(),
{
    "══════════════════════════════════════════════════"
}

fn thin_rule_str() -> (r: &'static str)
    ensures
        r@ == thin_rule(),
{
    "  ────────────────────────────────────────"
}

fn push_summary(lines: &mut Vec<String>, label: &str, results: &[ScanResult], total_elapsed: &str)
    ensures
        line_texts(final(lines)@) == line_texts(old(lines)@) + summary_lines(
            label@,
            results@,
            total_elapsed@,
        ),
{
    let ghost start = line_texts(lines@);
    push_line(lines, String::new());
    let mut title = String::from_str("Scan Results — ");
    title.append(label);
    push_line(lines, make_heading_line(title.as_str()));
    push_line(lines, make_rule_line(heavy_rule_str()));
    let n = u64_to_decimal(results.len() as u64);
    push_line(lines, make_stat_line("Hosts scanned  :", n.as_str()));
    let h = make_coloured_count(hosts_with_open_ports(results));
    push_line(lines, make_stat_line("Hosts with open:", h.as_str()));
    let e = make_seconds(total_elapsed);
    push_line(lines, make_stat_line("Total elapsed  :", e.as_str()));
    push_line(lines, make_rule_line(heavy_rule_str()));
    push_line(lines, String::new());
    assert(line_texts(lines@) =~= start + summary_lines(label@, results@, total_elapsed@));
}

fn push_host_block(lines: &mut Vec<String>, spec: &str, r: &ScanResult, elapsed: &str, multi: bool)
    ensures
        line_texts(final(lines)@) == line_texts(old(lines)@) + host_block_lines(
            spec@,
            *r,
            elapsed@,
            multi,
        ),
{
    let ghost start = line_texts(lines@);
    if multi {
        let mut t = String::from_str("  ┌─ ");
        t.append(r.target.as_str());
        push_line(lines, make_heading_line(t.as_str()));
    } else {
        push_line(lines, String::new());
        let mut t = String::from_str("Scan Results — ");
        t.append(spec);
        t.append(" (");
        t.append(r.target.as_str());
        t.append(")");
        push_line(lines, make_heading_line(t.as_str()));
    }
    let ghost after_heading = line_texts(lines@);
    assert(after_heading =~= start + host_heading_lines(spec@, *r, multi));
    let open = r.open_ports();
    let ghost open_spec = open_results(r.ports@);
    assert(open@.len() == open@.map_values(|p: &PortResult| *p).len());
    push_line(lines, make_rule_line(thin_rule_str()));
    let total = u64_to_decimal(r.total_ports as u64);
    push_line(lines, make_stat_line("Ports scanned :", total.as_str()));
    let count = make_coloured_count(open.len());
    push_line(lines, make_stat_line("Open ports    :", count.as_str()));
    if !multi {
        let e = make_seconds(elapsed);
        push_line(lines, make_stat_line("Elapsed       :", e.as_str()));
    }
    push_line(lines, make_rule_line(thin_rule_str()));
    let ghost after_figures = line_texts(lines@);
    assert(after_figures =~= after_heading + host_figure_lines(*r, elapsed@, multi));
    if open.len() == 0 {
        let mut t = String::from_str("  ");
        t.append(dim());
        t.append("No open ports in range.");
        t.append(reset());
        push_line(lines, t);
    } else {
        let mut t = String::from_str("  ");
        t.append(bold());
        t.append(green());
        t.append("OPEN PORTS:");
        t.append(reset());
        push_line(lines, t);
        let mut t = String::from_str("  ");
        t.append(dim());
        t.append("  PORT  TLS SERVICE      DESCRIPTION / BANNER");
        t.append(reset());
        push_line(lines, t);
        let mut t = String::from_str("  ");
        t.append(dim());
        t.append("  ───────────────────────────────────────────────────────");
        t.append(reset());
        push_line(lines, t);
        let ghost head = line_texts(lines@);
        assert(head =~= after_figures + table_head_lines());
        let ghost rows = open_spec.map_values(|p: PortResult| open_port_row(p));
        let mut j: usize = 0;
        while j < open.len()
            invariant
                j <= open@.len(),
                open@.map_values(|p: &PortResult| *p) == open_spec,
                rows == open_spec.map_values(|p: PortResult| open_port_row(p)),
                line_texts(lines@) == head + rows.subrange(0, j as int),
            decreases open@.len() - j,
        {
            let row = port_row(open[j]);
            push_line(lines, row);
            proof {
                assert(open@.map_values(|p: &PortResult| *p)[j as int] == *open@[j as int]);
                assert(rows.subrange(0, j + 1) =~= rows.subrange(0, j as int).push(rows[j as int]));
            }
            j = j + 1;
        }
        assert(rows.subrange(0, open@.len() as int) =~= rows);
    }
    let ghost after_table = line_texts(lines@);
    assert(after_table =~= after_figures + open_table_lines(*r));
    push_line(lines, String::new());
    assert(line_texts(lines@) =~= start + host_block_lines(spec@, *r, elapsed@, multi));
}

/// The lines of the terminal report of a scan of `resolved`: `results` in
/// scan order, `total_elapsed` the seconds the whole scan took and
/// `host_elapsed` those of each host, as text.
pub fn text_report(
    resolved: &ResolvedTarget,
    results: &[ScanResult],
    total_elapsed: &str,
    host_elapsed: &Vec<String>,
) -> (r: Vec<String>)
    requires
        host_elapsed@.len() == results@.len(),
    ensures
        line_texts(r@) == text_report_lines(
            resolved.spec@,
            resolved.spec_display_label(),
            results@,
            total_elapsed@,
            host_elapsed@.map_values(|s: String| s@),
        ),
{
    let ghost els = host_elapsed@.map_values(|s: String| s@);
    let multi = results.len() > 1;
    let mut lines: Vec<String> = Vec::new();
    assert(line_texts(lines@) =~= Seq::<Seq<char>>::empty());
    if multi {
        let label = resolved.display_label();
        push_summary(&mut lines, label.as_str(), results, total_elapsed);
    }
    let ghost head = line_texts(lines@);
    assert(head =~= if multi {
        summary_lines(resolved.spec_display_label(), results@, total_elapsed@)
    } else {
        Seq::empty()
    });
    let mut i: usize = 0;
    while i < results.len()
        invariant
            i <= results@.len(),
            host_elapsed@.len() == results@.len(),
            els == host_elapsed@.map_values(|s: String| s@),
            multi == (results@.len() > 1),
            line_texts(lines@) == head + host_blocks(resolved.spec@, results@, els, multi, i as nat),
        decreases results@.len() - i,
    {
        push_host_block(&mut lines, resolved.spec.as_str(), &results[i], host_elapsed[i].as_str(), multi);
        proof {
            assert(els[i as int] == host_elapsed@[i as int]@);
        }
        i = i + 1;
    }
    lines
}

/// `parts` joined by `sep`.
pub open spec fn joined(parts: Seq<Seq<char>>, sep: Seq<char>) -> Seq<char>
    decreases parts.len(),
{
    if parts.len() == 0 {
        Seq::empty()
    } else if parts.len() == 1 {
        parts[0]
    } else {
        joined(parts.drop_last(), sep) + sep + parts.last()
    }
}

/// `parts` joined by `sep`.
pub fn join(parts: &Vec<&'static str>, sep: &str) -> (r: String)
    ensures
        r@ == joined(parts@.map_values(|s: &'static str| s@), sep@),
{
    let ghost texts = parts@.map_values(|s: &'static str| s@);
    let mut r = String::new();
    let mut i: usize = 0;
    assert(texts.subrange(0, 0) =~= Seq::<Seq<char>>::empty());
    while i < parts.len()
        invariant
            i <= parts@.len(),
            texts == parts@.map_values(|s: &'static str| s@),
            r@ == joined(texts.subrange(0, i as int), sep@),
        decreases parts@.len() - i,
    {
        let ghost before = texts.subrange(0, i as int);
        let ghost after = texts.subrange(0, i + 1);
        assert(after.drop_last() =~= before);
        if i > 0 {
            r.append(sep);
        } else {
            assert(r@ =~= Seq::<char>::empty());
        }
        r.append(parts[i]);
        proof {
            if i == 0 {
                assert(r@ =~= after[0]);
            }
        }
        i = i + 1;
    }
    assert(texts.subrange(0, parts@.len() as int) =~= texts);
    r
}

/// The rule around the startup banner.
pub open spec fn banner_rule() -> Seq<char> {
    "─────────────────────────────────────────────────"@
}

fn banner_rule_str() -> (r: &'static str)
    ensures
        r@ == banner_rule(),
{
    "─────────────────────────────────────────────────"
}

/// The startup banner: the scanner's name and `version`, the target (as
/// `label`), the port range, timeout, concurrency, enabled probes (when
/// any) and output format, and the hint about `-v` when it is shown; no
/// lines at all for JSON output.
pub open spec fn startup_banner_text(args: CliArgs, label: Seq<char>, version: Seq<char>) -> Seq<Seq<char>> {
    if args.spec_output_format() == OutputFormat::Json {
        Seq::empty()
    } else {
        seq![
            Seq::empty(),
            ansi_bold() + ansi_cyan() + "rustscan-rs"@ + ansi_reset() + " v"@ + version
                + " — high-performance async port scanner"@,
            rule_line(banner_rule()),
            stat_line("Target      :"@, label),
            stat_line("Port range  :"@, decimal(args.start_port as nat) + "–"@ + decimal(args.end_port as nat)),
            stat_line("Timeout     :"@, decimal(args.timeout as nat) + " ms"@),
            stat_line("Concurrency :"@, decimal(args.concurrency as nat) + " tasks"@),
        ] + (if args.spec_enabled_probes().len() > 0 {
            seq![stat_line("Probes      :"@, joined(args.spec_enabled_probes(), ", "@))]
        } else {
            Seq::empty()
        }) + seq![stat_line("Output      :"@, spec_format_label(args.spec_output_format()))] + (
        if args.verbose == 0 && args.spec_output_format() == OutputFormat::Text {
            seq![
                Seq::empty(),
                "  "@ + ansi_green() + "hint:"@ + ansi_reset()
                    + " use -v for informational logging, -vv for debug"@,
            ]
        } else {
            Seq::empty()
        }) + seq![rule_line(banner_rule()), Seq::empty()]
    }
}

/// The lines of the startup banner for a scan of `resolved` by scanner
/// release `version`.
pub fn startup_banner(args: &CliArgs, resolved: &ResolvedTarget, version: &str) -> (r: Vec<String>)
    ensures
        line_texts(r@) == startup_banner_text(*args, resolved.spec_display_label(), version@),
{
    let mut lines: Vec<String> = Vec::new();
    assert(line_texts(lines@) =~= Seq::<Seq<char>>::empty());
    if !args.shows_startup_banner() {
        return lines;
    }
    push_line(&mut lines, String::new());
    let mut t = String::from_str(bold());
    t.append(cyan());
    t.append("rustscan-rs");
    t.append(reset());
    t.append(" v");
    t.append(version);
    t.append(" — high-performance async port scanner");
    push_line(&mut lines, t);
    push_line(&mut lines, make_rule_line(banner_rule_str()));
    let label = resolved.display_label();
    push_line(&mut lines, make_stat_line("Target      :", label.as_str()));
    let mut v = u64_to_decimal(args.start_port as u64);
    v.append("–");
    let e = u64_to_decimal(args.end_port as u64);
    v.append(e.as_str());
    push_line(&mut lines, make_stat_line("Port range  :", v.as_str()));
    let mut v = u64_to_decimal(args.timeout);
    v.append(" ms");
    push_line(&mut lines, make_stat_line("Timeout     :", v.as_str()));
    let mut v = u64_to_decimal(args.concurrency as u64);
    v.append(" tasks");
    push_line(&mut lines, make_stat_line("Concurrency :", v.as_str()));
    let ghost head = line_texts(lines@);
    let extras = args.enabled_probes();
    assert(extras@.len() == extras@.map_values(|s: &'static str| s@).len());
    if extras.len() > 0 {
        let v = join(&extras, ", ");
        push_line(&mut lines, make_stat_line("Probes      :", v.as_str()));
    }
    let ghost with_probes = line_texts(lines@);
    assert(with_probes =~= head + (if args.spec_enabled_probes().len() > 0 {
        seq![stat_line("Probes      :"@, joined(args.spec_enabled_probes(), ", "@))]
    } else {
        Seq::empty()
    }));
    push_line(&mut lines, make_stat_line("Output      :", format_label(args.output_format())));
    let ghost with_output = line_texts(lines@);
    if args.shows_verbosity_hint() {
        push_line(&mut lines, String::new());
        let mut t = String::from_str("  ");
        t.append(green());
        t.append("hint:");
        t.append(reset());
        t.append(" use -v for informational logging, -vv for debug");
        push_line(&mut lines, t);
    }
    let ghost with_hint = line_texts(lines@);
    assert(with_hint =~= with_output + (if args.verbose == 0 && args.spec_output_format() == OutputFormat::Text {
        seq![
            Seq::empty(),
            "  "@ + ansi_green() + "hint:"@ + ansi_reset() + " use -v for informational logging, -vv for debug"@,
        ]
    } else {
        Seq::empty()
    }));
    push_line(&mut lines, make_rule_line(banner_rule_str()));
    push_line(&mut lines, String::new());
    assert(line_texts(lines@) =~= startup_banner_text(*args, resolved.spec_display_label(), version@));
    lines
}

} // verus!
