//! Target specification parsing and CIDR expansion.
//!
//! A target is a bare IP address, a CIDR range (expanded to every address
//! it holds) or a hostname, whose DNS resolution is left to the caller.
use vstd::prelude::*;

use crate::errors::RustScanError;
use crate::ip::{
    lemma_network_addresses_ascending,
    IpAddress,
    Network,
    address_count,
    ip_text,
    ip_text_bytes,
    ip_to_string,
    lemma_ip_text_ascii,
    network_addresses,
    push_ip,
    spec_address_count,
    spec_network_addresses,
};
use crate::text::{
    ascii_chars,
    ascii_string,
    contains_char,
    decimal,
    decimal_bytes,
    lemma_decimal_ascii,
    push_decimal,
    spec_trim,
    trim,
    u64_to_decimal,
};

verus! {

/// Ranges expanding to more than this many hosts deserve a notice.
pub const CIDR_WARN_THRESHOLD: u64 = 256;

/// Hard upper limit on the number of addresses expanded from one CIDR
/// range (a /16).
pub const MAX_CIDR_HOSTS: u64 = 65536;

/// What `<ipnetwork::IpNetwork as FromStr>::from_str` yields for a text:
/// the network (its address as written and its prefix), or `None` when the
/// text is not CIDR notation.
pub uninterp spec fn ipnetwork_from_str(s: Seq<char>) -> Option<Network>;

/// The network spans a single address (prefix /32 or /128).
pub open spec fn is_single_address(net: Network) -> bool {
    match net {
        Network::V4 { prefix, .. } => prefix == 32,
        Network::V6 { prefix, .. } => prefix == 128,
    }
}

/// Parses CIDR notation by calling `<ipnetwork::IpNetwork as FromStr>::from_str`.
///
/// The contract claims what the crate's source shows: the result is
/// `ipnetwork_from_str` of the text; the only error that function returns
/// is `InvalidAddr(text)`, whose message is `invalid address: ` and the
/// text; prefixes are at most 32 (IPv4) and 128 (IPv6); a text without `/`
/// is parsed as a bare address with a full-length prefix.
#[verifier::external_body]
fn parse_ipnetwork(s: &str) -> (r: Result<Network, String>)
    ensures
        match r {
            Ok(n) => ipnetwork_from_str(s@) == Some(n),
            Err(e) => ipnetwork_from_str(s@) is None && e@ == "invalid address: "@ + s@,
        },
        r matches Ok(n) ==> match n {
            Network::V4 { prefix, .. } => prefix <= 32,
            Network::V6 { prefix, .. } => prefix <= 128,
        },
        !s@.contains('/') ==> (r matches Ok(n) ==> is_single_address(n)),
{
    match s.parse::<ipnetwork::IpNetwork>() {
        Ok(ipnetwork::IpNetwork::V4(n)) => Ok(Network::V4 { addr: u32::from(n.ip()), prefix: n.prefix() }),
        Ok(ipnetwork::IpNetwork::V6(n)) => Ok(Network::V6 { addr: u128::from(n.ip()), prefix: n.prefix() }),
        Err(e) => Err(e.to_string()),
    }
}

/// What kind of target the user specified, before DNS resolution.
#[derive(Debug, Clone, PartialEq, Eq)]
pub enum TargetKind {
    /// A bare IP address.
    Single(IpAddress),
    /// A CIDR network, expanded to its full address list.
    Network(Network),
    /// A hostname that the caller resolves.
    Hostname(String),
}

/// The result of parsing a target string: its kind and the addresses to
/// scan (empty for a hostname until it is resolved).
#[derive(Debug, Clone)]
pub struct ResolvedTarget {
    /// The target text, trimmed.
    pub spec: String,
    /// What kind of target was detected.
    pub kind: TargetKind,
    /// IP addresses to scan.
    pub addrs: Vec<IpAddress>,
}

/// The address a network was written with.
pub open spec fn network_ip(net: Network) -> IpAddress {
    match net {
        Network::V4 { addr, .. } => IpAddress::V4(addr),
        Network::V6 { addr, .. } => IpAddress::V6(addr),
    }
}

/// The prefix length of a network.
pub open spec fn network_prefix(net: Network) -> u8 {
    match net {
        Network::V4 { prefix, .. } => prefix,
        Network::V6 { prefix, .. } => prefix,
    }
}

/// CIDR text of a network: its address as written, `/`, and the prefix.
pub open spec fn network_text(net: Network) -> Seq<char> {
    ip_text(network_ip(net)) + "/"@ + decimal(network_prefix(net) as nat)
}

/// `r` holds a target of the given text, kind and addresses.
pub open spec fn is_target(
    r: Result<ResolvedTarget, RustScanError>,
    text: Seq<char>,
    kind: TargetKind,
    addrs: Seq<IpAddress>,
) -> bool {
    match r {
        Ok(rt) => rt.spec@ == text && rt.kind == kind && rt.addrs@ == addrs,
        Err(_) => false,
    }
}

/// `r` holds an unresolved hostname target for `text`.
pub open spec fn is_hostname_target(r: Result<ResolvedTarget, RustScanError>, text: Seq<char>) -> bool {
    match r {
        Ok(rt) => rt.spec@ == text && rt.addrs@.len() == 0 && match rt.kind {
            TargetKind::Hostname(h) => h@ == text,
            _ => false,
        },
        Err(_) => false,
    }
}

/// The outcome of parsing CIDR notation `t`.
pub open spec fn cidr_outcome(t: Seq<char>, r: Result<ResolvedTarget, RustScanError>) -> bool {
    match ipnetwork_from_str(t) {
        None => match r {
            Err(RustScanError::InvalidCidr { input, reason }) => input@ == t && reason@
                == "invalid address: "@ + t,
            _ => false,
        },
        Some(net) => network_outcome(t, net, r),
    }
}

/// The outcome of parsing target text `s`: the text is trimmed; text with
/// a `/` is CIDR notation; other text is a bare address when it parses as
/// one, and a hostname otherwise.
pub open spec fn parse_target_outcome(s: Seq<char>, r: Result<ResolvedTarget, RustScanError>) -> bool {
    let t = spec_trim(s);
    if t.contains('/') {
        cidr_outcome(t, r)
    } else {
        match ipnetwork_from_str(t) {
            Some(net) => is_target(r, t, TargetKind::Single(network_ip(net)), seq![network_ip(net)]),
            None => is_hostname_target(r, t),
        }
    }
}

impl ResolvedTarget {
    /// The address list agrees with the kind of target: a bare address is
    /// scanned alone, a network is scanned whole, a hostname has at most
    /// the one address it resolved to.
    pub open spec fn well_formed(self) -> bool {
        match self.kind {
            TargetKind::Single(ip) => self.addrs@ == seq![ip],
            TargetKind::Network(net) => self.addrs@ == spec_network_addresses(net),
            TargetKind::Hostname(_) => self.addrs@.len() <= 1,
        }
    }

    /// The banner label of the target.
    pub open spec fn spec_display_label(self) -> Seq<char> {
        match self.kind {
            TargetKind::Single(ip) => ip_text(ip),
            TargetKind::Network(net) => network_text(net) + " ("@ + decimal(self.addrs@.len())
                + " hosts)"@,
            TargetKind::Hostname(h) => if self.addrs@.len() == 0 {
                h@
            } else {
                h@ + " → "@ + ip_text(self.addrs@[0])
            },
        }
    }

    /// A CIDR range large enough to deserve a notice (more than
    /// [`CIDR_WARN_THRESHOLD`] addresses).
    pub fn is_large_range(&self) -> (r: bool)
        ensures
            r == (self.kind is Network && self.addrs@.len() > CIDR_WARN_THRESHOLD),
    {
        match self.kind {
            TargetKind::Network(_) => self.addrs.len() as u64 > CIDR_WARN_THRESHOLD,
            _ => false,
        }
    }

    /// True when more than one address is to be scanned.
    pub fn is_multi_host(&self) -> (r: bool)
        ensures
            r == (self.addrs@.len() > 1),
    {
        self.addrs.len() > 1
    }

    /// A short human-readable label: the address, the network with its
    /// host count (`192.168.1.0/24 (256 hosts)`), or the hostname with the
    /// address it resolved to (`example.com → 93.184.216.34`).
    pub fn display_label(&self) -> (r: String)
        ensures
            r@ == self.spec_display_label(),
    {
        match &self.kind {
            TargetKind::Single(ip) => ip_to_string(*ip),
            TargetKind::Network(net) => {
                let mut s = network_to_string(*net);
                s.append(" (");
                let n = u64_to_decimal(self.addrs.len() as u64);
                s.append(n.as_str());
                s.append(" hosts)");
                s
            },
            TargetKind::Hostname(h) => {
                if self.addrs.len() == 0 {
                    h.clone()
                } else {
                    let mut s = h.clone();
                    s.append(" → ");
                    let a = ip_to_string(self.addrs[0]);
                    s.append(a.as_str());
                    s
                }
            },
        }
    }

    /// Replace the address list with the single address a DNS lookup gave.
    pub fn with_addr(self, addr: IpAddress) -> (r: Self)
        ensures
            r.spec == self.spec,
            r.kind == self.kind,
            r.addrs@ == seq![addr],
    {
        let mut addrs: Vec<IpAddress> = Vec::new();
        addrs.push(addr);
        assert(addrs@ =~= seq![addr]);
        ResolvedTarget { spec: self.spec, kind: self.kind, addrs }
    }
}

/// CIDR text of a network.
pub fn network_to_string(net: Network) -> (r: String)
    ensures
        r@ == network_text(net),
{
    let mut v: Vec<u8> = Vec::new();
    let (ip, prefix) = match net {
        Network::V4 { addr, prefix } => (IpAddress::V4(addr), prefix),
        Network::V6 { addr, prefix } => (IpAddress::V6(addr), prefix),
    };
    push_ip(&mut v, ip);
    v.push(47u8);
    push_decimal(&mut v, prefix as u64);
    proof {
        lemma_ip_text_ascii(ip);
        lemma_decimal_ascii(prefix as nat);
        assert(v@ =~= ip_text_bytes(ip) + seq![47u8] + decimal_bytes(prefix as nat));
        reveal_strlit("/");
        assert(ascii_chars(v@) =~= ip_text(ip) + "/"@ + decimal(prefix as nat));
    }
    ascii_string(v)
}

/// Parse a raw target string.
///
/// The text is trimmed first.  Text containing `/` is CIDR notation: it
/// fails with `InvalidCidr` when it does not parse, and with `CidrTooLarge`
/// when the range holds more than [`MAX_CIDR_HOSTS`] addresses; otherwise
/// every address of the range is listed in ascending order.  Other text is
/// a bare IP address when it parses as one and a hostname otherwise; a
/// hostname never fails here.
pub fn parse_target(s: &str) -> (r: Result<ResolvedTarget, RustScanError>)
    ensures
        parse_target_outcome(s@, r),
{
    let t = trim(s);
    if contains_char(t, '/') {
        return parse_cidr(t);
    }
    let parsed = match parse_ipnetwork(t) {
        Ok(net) => Some(net),
        Err(_) => None,
    };
    Ok(address_target(t, parsed))
}

/// The target for text `t` without `/`, given what parsing it as an
/// address gave: that address alone when it parsed (`Some`), else a
/// hostname for the caller to resolve.
pub open spec fn address_outcome(t: Seq<char>, parsed: Option<Network>, r: ResolvedTarget) -> bool {
    &&& r.spec@ == t
    &&& match parsed {
        Some(net) => r.kind == TargetKind::Single(network_ip(net)) && r.addrs@ == seq![network_ip(net)],
        None => r.addrs@.len() == 0 && match r.kind {
            TargetKind::Hostname(h) => h@ == t,
            _ => false,
        },
    }
}

/// The target for text `t` without `/`, given what parsing it as an
/// address gave.
pub fn address_target(t: &str, parsed: Option<Network>) -> (r: ResolvedTarget)
    ensures
        address_outcome(t@, parsed, r),
{
    match parsed {
        Some(net) => {
            let ip = match net {
                Network::V4 { addr, .. } => IpAddress::V4(addr),
                Network::V6 { addr, .. } => IpAddress::V6(addr),
            };
            let mut addrs: Vec<IpAddress> = Vec::new();
            addrs.push(ip);
            assert(addrs@ =~= seq![ip]);
            ResolvedTarget { spec: String::from_str(t), kind: TargetKind::Single(ip), addrs }
        },
        None => {
            let addrs: Vec<IpAddress> = Vec::new();
            ResolvedTarget {
                spec: String::from_str(t),
                kind: TargetKind::Hostname(String::from_str(t)),
                addrs,
            }
        },
    }
}

/// Parse text that contains `/` as a CIDR network and expand it.
fn parse_cidr(s: &str) -> (r: Result<ResolvedTarget, RustScanError>)
    ensures
        cidr_outcome(s@, r),
{
    match parse_ipnetwork(s) {
        Ok(network) => cidr_target(s, network),
        Err(reason) => Err(RustScanError::InvalidCidr { input: String::from_str(s), reason }),
    }
}

/// The outcome for CIDR text `t` that parsed as network `net`: the range
/// when it holds at most [`MAX_CIDR_HOSTS`] addresses, else `CidrTooLarge`.
pub open spec fn network_outcome(t: Seq<char>, net: Network, r: Result<ResolvedTarget, RustScanError>) -> bool {
    if spec_address_count(net) > MAX_CIDR_HOSTS {
        match r {
            Err(RustScanError::CidrTooLarge { input, count, max }) => input@ == t && count
                == spec_address_count(net) && max == MAX_CIDR_HOSTS,
            _ => false,
        }
    } else {
        is_target(r, t, TargetKind::Network(net), spec_network_addresses(net))
    }
}

/// The target for CIDR text `s` that parsed as `network`: every address of
/// the range, or `CidrTooLarge` when the range holds more than
/// [`MAX_CIDR_HOSTS`] addresses.
pub fn cidr_target(s: &str, network: Network) -> (r: Result<ResolvedTarget, RustScanError>)
    ensures
        network_outcome(s@, network, r),
{
    let count = address_count(network);
    if count > MAX_CIDR_HOSTS {
        return Err(
            RustScanError::CidrTooLarge { input: String::from_str(s), count, max: MAX_CIDR_HOSTS },
        );
    }
    let addrs = network_addresses(network);
    Ok(ResolvedTarget { spec: String::from_str(s), kind: TargetKind::Network(network), addrs })
}

/// The first IPv4 address of a list, if it holds one.
pub open spec fn first_ipv4(s: Seq<IpAddress>) -> Option<IpAddress>
    decreases s.len(),
{
    if s.len() == 0 {
        None
    } else if s[0] is V4 {
        Some(s[0])
    } else {
        first_ipv4(s.drop_first())
    }
}

/// The address a hostname lookup settles on: the first IPv4 address, else
/// the first address, else none.
pub open spec fn preferred_address(s: Seq<IpAddress>) -> Option<IpAddress> {
    match first_ipv4(s) {
        Some(a) => Some(a),
        None => if s.len() > 0 { Some(s[0]) } else { None },
    }
}

/// The address a lookup settles on is the first IPv4 address in lookup
/// order when there is one; otherwise the first address, and none for an
/// empty lookup.
pub proof fn lemma_preferred_address(s: Seq<IpAddress>)
    ensures
        (exists|i: int| 0 <= i < s.len() && s[i] is V4) ==> exists|i: int|
            0 <= i < s.len() && s[i] is V4 && (forall|j: int| 0 <= j < i ==> !(s[j] is V4))
                && preferred_address(s) == Some(#[trigger] s[i]),
        (forall|i: int| 0 <= i < s.len() ==> !(#[trigger] s[i] is V4)) && s.len() > 0
            ==> preferred_address(s) == Some(s[0]),
        s.len() == 0 ==> preferred_address(s) is None,
{
    lemma_first_ipv4(s);
}

proof fn lemma_first_ipv4(s: Seq<IpAddress>)
    ensures
        match first_ipv4(s) {
            Some(a) => exists|i: int|
                0 <= i < s.len() && s[i] is V4 && (forall|j: int| 0 <= j < i ==> !(s[j] is V4))
                    && a == #[trigger] s[i],
            None => forall|i: int| 0 <= i < s.len() ==> !(#[trigger] s[i] is V4),
        },
    decreases s.len(),
{
    if s.len() > 0 && !(s[0] is V4) {
        let t = s.drop_first();
        lemma_first_ipv4(t);
        match first_ipv4(t) {
            Some(a) => {
                let k = choose|k: int|
                    0 <= k < t.len() && t[k] is V4 && (forall|j: int| 0 <= j < k ==> !(t[j] is V4))
                        && a == #[trigger] t[k];
                assert(s[k + 1] == t[k]);
                assert forall|j: int| 0 <= j < k + 1 implies !(s[j] is V4) by {
                    if j > 0 {
                        assert(s[j] == t[j - 1]);
                    }
                }
            },
            None => {
                assert forall|i: int| 0 <= i < s.len() implies !(#[trigger] s[i] is V4) by {
                    if i > 0 {
                        assert(s[i] == t[i - 1]);
                    }
                }
            },
        }
    } else if s.len() > 0 {
        assert(s[0] is V4);
    }
}

/// Choose among the addresses a DNS lookup returned, preferring IPv4.
pub fn pick_resolved_address(addrs: &Vec<IpAddress>) -> (r: Option<IpAddress>)
    ensures
        r == preferred_address(addrs@),
        (exists|i: int| 0 <= i < addrs@.len() && addrs@[i] is V4) ==> exists|i: int|
            0 <= i < addrs@.len() && addrs@[i] is V4 && (forall|j: int|
                0 <= j < i ==> !(addrs@[j] is V4)) && r == Some(#[trigger] addrs@[i]),
        (forall|i: int| 0 <= i < addrs@.len() ==> !(#[trigger] addrs@[i] is V4)) && addrs@.len()
            > 0 ==> r == Some(addrs@[0]),
        addrs@.len() == 0 ==> r is None,
{
    proof {
        lemma_preferred_address(addrs@);
    }
    let mut i: usize = 0;
    assert(addrs@.skip(0) =~= addrs@);
    while i < addrs.len()
        invariant
            i <= addrs@.len(),
            first_ipv4(addrs@) == first_ipv4(addrs@.skip(i as int)),
        decreases addrs@.len() - i,
    {
        assert(addrs@.skip(i as int).drop_first() =~= addrs@.skip(i + 1));
        if let IpAddress::V4(_) = addrs[i] {
            proof {
                lemma_preferred_address(addrs@);
            }
            return Some(addrs[i]);
        }
        i = i + 1;
    }
    if addrs.len() > 0 {
        Some(addrs[0])
    } else {
        None
    }
}

/// A parsed target lists the addresses its kind calls for (one for a bare
/// address, all of them for a range, none yet for a hostname), and never
/// more than [`MAX_CIDR_HOSTS`].
pub proof fn lemma_parsed_target_well_formed(s: Seq<char>, r: Result<ResolvedTarget, RustScanError>)
    requires
        parse_target_outcome(s, r),
    ensures
        match r {
            Ok(rt) => rt.well_formed() && rt.addrs@.len() <= MAX_CIDR_HOSTS,
            Err(_) => true,
        },
{
    let t = spec_trim(s);
    if t.contains('/') {
        if let Some(net) = ipnetwork_from_str(t) {
            if spec_address_count(net) <= MAX_CIDR_HOSTS {
                lemma_network_addresses_ascending(net);
            }
        }
    }
}

/// Resolving a hostname target to one address keeps it well formed.
pub proof fn lemma_resolved_hostname_well_formed(t: ResolvedTarget, addr: IpAddress, r: ResolvedTarget)
    requires
        t.kind is Hostname,
        r.kind == t.kind,
        r.addrs@ == seq![addr],
    ensures
        r.well_formed(),
        r.addrs@.len() == 1,
{
}

} // verus!
