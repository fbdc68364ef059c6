//! IP addresses and networks as plain integers: their text forms, the size
//! of a network and the list of its addresses.
use vstd::prelude::*;
use vstd::arithmetic::power2::{
    pow2,
    lemma2_to64,
    lemma_pow2_adds,
    lemma_pow2_pos,
    lemma_pow2_strictly_increases,
    lemma_pow2_unfold,
};
use vstd::arithmetic::div_mod::{lemma_fundamental_div_mod, lemma_mod_pos_bound};

use crate::text::{all_ascii, ascii_chars, ascii_string, decimal_bytes, lemma_decimal_ascii, push_decimal};

verus! {

/// An IPv4 or IPv6 address, as its 32- or 128-bit number.
#[derive(Debug, Clone, Copy, PartialEq, Eq, PartialOrd, Ord, Hash, Structural)]
pub enum IpAddress {
    V4(u32),
    V6(u128),
}

/// A network in CIDR notation: the address as written and the prefix
/// length (at most 32 for IPv4, 128 for IPv6).
#[derive(Debug, Clone, Copy, PartialEq, Eq, Hash, Structural)]
pub enum Network {
    V4 { addr: u32, prefix: u8 },
    V6 { addr: u128, prefix: u8 },
}

/// Number of host bits of a network (address bits not fixed by the prefix).
pub open spec fn host_bits(net: Network) -> nat {
    match net {
        Network::V4 { prefix, .. } => if prefix >= 32 { 0 } else { (32 - prefix) as nat },
        Network::V6 { prefix, .. } => if prefix >= 128 { 0 } else { (128 - prefix) as nat },
    }
}

/// Number of addresses in a network, capped at `u64::MAX` for IPv6
/// networks of 2^64 addresses or more.
pub open spec fn spec_address_count(net: Network) -> nat {
    match net {
        Network::V4 { .. } => pow2(host_bits(net)),
        Network::V6 { .. } => if host_bits(net) >= 64 {
            u64::MAX as nat
        } else {
            pow2(host_bits(net))
        },
    }
}

/// The first (network) address of a network: the address with its host
/// bits cleared.
pub open spec fn network_base(net: Network) -> nat {
    match net {
        Network::V4 { addr, .. } => (addr as nat / pow2(host_bits(net))) * pow2(host_bits(net)),
        Network::V6 { addr, .. } => (addr as nat / pow2(host_bits(net))) * pow2(host_bits(net)),
    }
}

/// Every address of a network, from the network address up to the
/// broadcast address, in ascending order.
pub open spec fn spec_network_addresses(net: Network) -> Seq<IpAddress> {
    match net {
        Network::V4 { .. } => Seq::new(
            pow2(host_bits(net)),
            |i: int| IpAddress::V4((network_base(net) + i) as u32),
        ),
        Network::V6 { .. } => Seq::new(
            pow2(host_bits(net)),
            |i: int| IpAddress::V6((network_base(net) + i) as u128),
        ),
    }
}

/// `2^h` as a `u64`.
fn pow2_u64(h: u32) -> (r: u64)
    requires
        h <= 63,
    ensures
        r == pow2(h as nat),
{
    let mut r: u64 = 1;
    let mut i: u32 = 0;
    proof {
        lemma2_to64();
    }
    while i < h
        invariant
            i <= h <= 63,
            r == pow2(i as nat),
            pow2(64) == 0x10000000000000000,
        decreases h - i,
    {
        proof {
            lemma_pow2_unfold((i + 1) as nat);
            lemma_pow2_strictly_increases((i + 1) as nat, 64);
        }
        r = r * 2;
        i = i + 1;
    }
    r
}

/// Number of addresses in a network, without enumerating them.
pub fn address_count(network: Network) -> (r: u64)
    ensures
        r == spec_address_count(network),
{
    match network {
        Network::V4 { prefix, .. } => {
            let h: u32 = if prefix >= 32 { 0 } else { 32 - prefix as u32 };
            pow2_u64(h)
        },
        Network::V6 { prefix, .. } => {
            let h: u32 = if prefix >= 128 { 0 } else { 128 - prefix as u32 };
            if h >= 64 {
                u64::MAX
            } else {
                pow2_u64(h)
            }
        },
    }
}

/// An aligned block of `size` numbers that holds `a` lies inside
/// `[0, size * k)` whenever `a` does.
proof fn lemma_aligned_block(a: nat, size: nat, k: nat)
    requires
        size > 0,
        a < size * k,
    ensures
        (a / size) * size <= a,
        (a / size) * size + size <= size * k,
{
    lemma_fundamental_div_mod(a as int, size as int);
    lemma_mod_pos_bound(a as int, size as int);
    let q = a / size;
    assert(size * q <= a);
    assert(q < k) by (nonlinear_arith)
        requires
            size * q <= a,
            a < size * k,
            size > 0,
    ;
    assert(q * size + size <= size * k) by (nonlinear_arith)
        requires
            q < k,
            size > 0,
    ;
}

/// A network of at most 65 536 addresses has at most 16 host bits.
proof fn lemma_small_network(net: Network)
    requires
        spec_address_count(net) <= 65536,
    ensures
        host_bits(net) <= 16,
        spec_address_count(net) == pow2(host_bits(net)),
{
    lemma2_to64();
    if host_bits(net) > 16 {
        lemma_pow2_strictly_increases(16, host_bits(net));
    }
}

/// Every address of a network of at most 65 536 addresses.
pub fn network_addresses(net: Network) -> (r: Vec<IpAddress>)
    requires
        spec_address_count(net) <= 65536,
    ensures
        r@ == spec_network_addresses(net),
{
    proof {
        lemma_small_network(net);
        lemma2_to64();
    }
    let size: u64 = address_count(net);
    let mut out: Vec<IpAddress> = Vec::new();
    match net {
        Network::V4 { addr, prefix } => {
            let ghost h = host_bits(net);
            proof {
                lemma_block_fits(net);
            }
            let a: u64 = addr as u64;
            let base: u64 = (a / size) * size;
            let mut i: u64 = 0;
            while i < size
                invariant
                    size == pow2(h),
                    base == network_base(net),
                    base + size <= 0x1_0000_0000,
                    i <= size,
                    net == (Network::V4 { addr, prefix }),
                    out@.len() == i,
                    forall|j: int| 0 <= j < i ==> out@[j] == IpAddress::V4((base + j) as u32),
                decreases size - i,
            {
                out.push(IpAddress::V4((base + i) as u32));
                i = i + 1;
            }
        },
        Network::V6 { addr, prefix } => {
            let ghost h = host_bits(net);
            proof {
                lemma_block_fits(net);
            }
            let a: u128 = addr;
            let s: u128 = size as u128;
            let base: u128 = (a / s) * s;
            let mut i: u128 = 0;
            while i < s
                invariant
                    s == pow2(h),
                    s == size,
                    base == network_base(net),
                    base + s <= 0x1_0000_0000_0000_0000_0000_0000_0000_0000,
                    i <= s,
                    net == (Network::V6 { addr, prefix }),
                    out@.len() == i,
                    forall|j: int| 0 <= j < i ==> out@[j] == IpAddress::V6((base + j) as u128),
                decreases s - i,
            {
                out.push(IpAddress::V6(base + i));
                i = i + 1;
            }
        },
    }
    assert(out@ =~= spec_network_addresses(net));
    out
}

/// The four octets of an IPv4 address, most significant first.
pub open spec fn ipv4_octets(a: u32) -> Seq<u8> {
    seq![(a >> 24u32) as u8, (a >> 16u32) as u8, (a >> 8u32) as u8, a as u8]
}

/// Dotted-quad text of an IPv4 address, e.g. `192.168.1.1`.
pub open spec fn ipv4_text_bytes(a: u32) -> Seq<u8> {
    let o = ipv4_octets(a);
    decimal_bytes(o[0] as nat) + seq![46u8] + decimal_bytes(o[1] as nat) + seq![46u8]
        + decimal_bytes(o[2] as nat) + seq![46u8] + decimal_bytes(o[3] as nat)
}

/// Appends the dotted-quad text of `a`.
pub fn push_ipv4(out: &mut Vec<u8>, a: u32)
    ensures
        final(out)@ == old(out)@ + ipv4_text_bytes(a),
{
    push_decimal(out, ((a >> 24u32) as u8) as u64);
    out.push(46u8);
    push_decimal(out, ((a >> 16u32) as u8) as u64);
    out.push(46u8);
    push_decimal(out, ((a >> 8u32) as u8) as u64);
    out.push(46u8);
    push_decimal(out, (a as u8) as u64);
    assert(final(out)@ =~= old(out)@ + ipv4_text_bytes(a));
}

/// The eight 16-bit groups of an IPv6 address, most significant first.
pub open spec fn segments(a: u128) -> Seq<u16> {
    seq![
        (a >> 112u32) as u16,
        (a >> 96u32) as u16,
        (a >> 80u32) as u16,
        (a >> 64u32) as u16,
        (a >> 48u32) as u16,
        (a >> 32u32) as u16,
        (a >> 16u32) as u16,
        a as u16,
    ]
}

/// Lower-case hexadecimal digit for `d < 16`.
pub open spec fn hex_digit(d: nat) -> u8 {
    if d < 10 { (48 + d) as u8 } else { (87 + d) as u8 }
}

/// Lower-case hexadecimal representation of `n` without leading zeros.
pub open spec fn hex_bytes(n: nat) -> Seq<u8>
    decreases n,
{
    if n < 16 {
        seq![hex_digit(n)]
    } else {
        hex_bytes(n / 16).push(hex_digit(n % 16))
    }
}

/// Groups in hexadecimal, separated by colons.
pub open spec fn hex_join(xs: Seq<u16>) -> Seq<u8>
    decreases xs.len(),
{
    if xs.len() == 0 {
        Seq::empty()
    } else if xs.len() == 1 {
        hex_bytes(xs[0] as nat)
    } else {
        hex_join(xs.drop_last()) + seq![58u8] + hex_bytes(xs.last() as nat)
    }
}

/// `s[start..start + len]` is a run of zero groups.
pub open spec fn is_zero_run(s: Seq<u16>, start: int, len: int) -> bool {
    &&& 0 <= start
    &&& 0 <= len
    &&& start + len <= s.len()
    &&& forall|k: int| start <= k < start + len ==> s[k] == 0
}

/// `s[start..start + len]` is the first of the longest runs of zero groups
/// (an empty run at 0 when there is no zero group).
pub open spec fn is_longest_zero_run(s: Seq<u16>, start: int, len: int) -> bool {
    &&& is_zero_run(s, start, len)
    &&& forall|st: int, l: int| #[trigger] is_zero_run(s, st, l) ==> l <= len
    &&& forall|st: int| #[trigger] is_zero_run(s, st, len) ==> start <= st
}

/// Start and length of the first longest run of zero groups.
pub open spec fn longest_zero_run(s: Seq<u16>) -> (int, int) {
    choose|p: (int, int)| is_longest_zero_run(s, p.0, p.1)
}

/// An IPv4-mapped IPv6 address (`::ffff:a.b.c.d`).
pub open spec fn is_ipv4_mapped(s: Seq<u16>) -> bool {
    s[0] == 0 && s[1] == 0 && s[2] == 0 && s[3] == 0 && s[4] == 0 && s[5] == 0xffff
}

/// Canonical text of an IPv6 address: lower-case hexadecimal groups, the
/// first longest run of two or more zero groups shortened to `::`, and
/// IPv4-mapped addresses written as `::ffff:` and a dotted quad.
pub open spec fn ipv6_text_bytes(a: u128) -> Seq<u8> {
    let s = segments(a);
    if is_ipv4_mapped(s) {
        seq![58u8, 58u8, 102u8, 102u8, 102u8, 102u8, 58u8] + ipv4_text_bytes(a as u32)
    } else {
        let p = longest_zero_run(s);
        if p.1 > 1 {
            hex_join(s.subrange(0, p.0)) + seq![58u8, 58u8] + hex_join(
                s.subrange(p.0 + p.1, 8),
            )
        } else {
            hex_join(s)
        }
    }
}

/// Text form of an address.
pub open spec fn ip_text_bytes(ip: IpAddress) -> Seq<u8> {
    match ip {
        IpAddress::V4(a) => ipv4_text_bytes(a),
        IpAddress::V6(a) => ipv6_text_bytes(a),
    }
}

/// Text form of an address, as characters.
pub open spec fn ip_text(ip: IpAddress) -> Seq<char> {
    ascii_chars(ip_text_bytes(ip))
}

/// Appends the hexadecimal digits of `n`.
fn push_hex(out: &mut Vec<u8>, n: u16)
    ensures
        final(out)@ == old(out)@ + hex_bytes(n as nat),
    decreases n,
{
    if n >= 16 {
        push_hex(out, n / 16);
    }
    let d: u8 = (n % 16) as u8;
    if d < 10 {
        out.push(48u8 + d);
    } else {
        out.push(87u8 + d);
    }
    assert(hex_bytes(n as nat) =~= if n < 16 {
        seq![hex_digit(n as nat)]
    } else {
        hex_bytes((n / 16) as nat).push(hex_digit((n % 16) as nat))
    });
}

/// Appends `segs[from..to]` in hexadecimal, separated by colons.
fn push_hex_groups(out: &mut Vec<u8>, segs: &Vec<u16>, from: usize, to: usize)
    requires
        from <= to <= segs@.len(),
    ensures
        final(out)@ == old(out)@ + hex_join(segs@.subrange(from as int, to as int)),
{
    let mut i: usize = from;
    assert(segs@.subrange(from as int, from as int) =~= Seq::<u16>::empty());
    while i < to
        invariant
            from <= i <= to <= segs@.len(),
            out@ == old(out)@ + hex_join(segs@.subrange(from as int, i as int)),
        decreases to - i,
    {
        let ghost prev = out@;
        if i > from {
            out.push(58u8);
        }
        push_hex(out, segs[i]);
        proof {
            let sub = segs@.subrange(from as int, i + 1);
            assert(sub.drop_last() =~= segs@.subrange(from as int, i as int));
            if i == from {
                assert(sub =~= seq![segs@[i as int]]);
            }
        }
        i = i + 1;
    }
}

/// The first longest run of zero groups.
fn find_longest_zero_run(segs: &Vec<u16>) -> (r: (usize, usize))
    requires
        segs@.len() == 8,
    ensures
        is_longest_zero_run(segs@, r.0 as int, r.1 as int),
{
    let ghost s = segs@;
    let mut best_s: usize = 0;
    let mut best_l: usize = 0;
    let mut cur_l: usize = 0;
    let mut i: usize = 0;
    while i < 8
        invariant
            s == segs@,
            s.len() == 8,
            i <= 8,
            cur_l <= i,
            cur_l <= best_l,
            is_zero_run(s, i - cur_l, cur_l as int),
            i - cur_l == 0 || s[i - cur_l - 1] != 0,
            is_zero_run(s, best_s as int, best_l as int),
            best_s + best_l <= i,
            forall|st: int, l: int| #[trigger] is_zero_run(s, st, l) && st + l <= i ==> l <= best_l,
            forall|st: int|
                #[trigger] is_zero_run(s, st, best_l as int) && st + best_l <= i ==> best_s <= st,
        decreases 8 - i,
    {
        if segs[i] == 0 {
            cur_l = cur_l + 1;
            if cur_l > best_l {
                best_s = i + 1 - cur_l;
                best_l = cur_l;
            }
        } else {
            cur_l = 0;
        }
        i = i + 1;
        proof {
            assert forall|st: int, l: int| #[trigger]
                is_zero_run(s, st, l) && st + l <= i implies l <= best_l by {
                if st + l == i && l > cur_l {
                    assert(s[i - cur_l - 1] == 0);
                }
            }
            assert forall|st: int| #[trigger]
                is_zero_run(s, st, best_l as int) && st + best_l <= i implies best_s <= st by {
                if st + best_l == i && best_l > 0 && st < best_s {
                    assert(s[st + best_l - 1] == 0);
                }
            }
        }
    }
    (best_s, best_l)
}

proof fn lemma_longest_zero_run_unique(s: Seq<u16>, a: int, b: int)
    requires
        is_longest_zero_run(s, a, b),
    ensures
        longest_zero_run(s) == (a, b),
{
    let w: (int, int) = (a, b);
    assert(is_longest_zero_run(s, w.0, w.1));
    let p = longest_zero_run(s);
    assert(is_longest_zero_run(s, p.0, p.1));
    assert(is_zero_run(s, a, b));
    assert(is_zero_run(s, p.0, p.1));
    assert(p.1 <= b && b <= p.1);
    assert(is_zero_run(s, a, p.1));
    assert(is_zero_run(s, p.0, b));
}

/// Appends the canonical text of an IPv6 address.
pub fn push_ipv6(out: &mut Vec<u8>, a: u128)
    ensures
        final(out)@ == old(out)@ + ipv6_text_bytes(a),
{
    let mut segs: Vec<u16> = Vec::new();
    segs.push((a >> 112u32) as u16);
    segs.push((a >> 96u32) as u16);
    segs.push((a >> 80u32) as u16);
    segs.push((a >> 64u32) as u16);
    segs.push((a >> 48u32) as u16);
    segs.push((a >> 32u32) as u16);
    segs.push((a >> 16u32) as u16);
    segs.push(a as u16);
    assert(segs@ =~= segments(a));
    if segs[0] == 0 && segs[1] == 0 && segs[2] == 0 && segs[3] == 0 && segs[4] == 0 && segs[5]
        == 0xffff {
        out.push(58u8);
        out.push(58u8);
        out.push(102u8);
        out.push(102u8);
        out.push(102u8);
        out.push(102u8);
        out.push(58u8);
        push_ipv4(out, a as u32);
        assert(final(out)@ =~= old(out)@ + ipv6_text_bytes(a));
    } else {
        let (st, len) = find_longest_zero_run(&segs);
        proof {
            lemma_longest_zero_run_unique(segs@, st as int, len as int);
        }
        if len > 1 {
            push_hex_groups(out, &segs, 0, st);
            out.push(58u8);
            out.push(58u8);
            push_hex_groups(out, &segs, st + len, 8);
            assert(final(out)@ =~= old(out)@ + ipv6_text_bytes(a));
        } else {
            push_hex_groups(out, &segs, 0, 8);
            assert(segs@.subrange(0, 8) =~= segs@);
        }
    }
}

/// Hexadecimal digits are ASCII.
proof fn lemma_hex_ascii(n: nat)
    ensures
        all_ascii(hex_bytes(n)),
    decreases n,
{
    if n >= 16 {
        lemma_hex_ascii(n / 16);
    }
}

/// Hexadecimal groups are ASCII.
proof fn lemma_hex_join_ascii(xs: Seq<u16>)
    ensures
        all_ascii(hex_join(xs)),
    decreases xs.len(),
{
    if xs.len() == 1 {
        lemma_hex_ascii(xs[0] as nat);
    } else if xs.len() > 1 {
        lemma_hex_join_ascii(xs.drop_last());
        lemma_hex_ascii(xs.last() as nat);
    }
}

/// Address text is ASCII.
pub proof fn lemma_ip_text_ascii(ip: IpAddress)
    ensures
        all_ascii(ip_text_bytes(ip)),
{
    match ip {
        IpAddress::V4(a) => {
            let o = ipv4_octets(a);
            lemma_decimal_ascii(o[0] as nat);
            lemma_decimal_ascii(o[1] as nat);
            lemma_decimal_ascii(o[2] as nat);
            lemma_decimal_ascii(o[3] as nat);
        },
        IpAddress::V6(a) => {
            let s = segments(a);
            let o = ipv4_octets(a as u32);
            lemma_decimal_ascii(o[0] as nat);
            lemma_decimal_ascii(o[1] as nat);
            lemma_decimal_ascii(o[2] as nat);
            lemma_decimal_ascii(o[3] as nat);
            let p = longest_zero_run(s);
            lemma_hex_join_ascii(s);
            lemma_hex_join_ascii(s.subrange(0, p.0));
            lemma_hex_join_ascii(s.subrange(p.0 + p.1, 8));
        },
    }
}

/// Appends the text form of an address.
pub fn push_ip(out: &mut Vec<u8>, ip: IpAddress)
    ensures
        final(out)@ == old(out)@ + ip_text_bytes(ip),
{
    match ip {
        IpAddress::V4(a) => push_ipv4(out, a),
        IpAddress::V6(a) => push_ipv6(out, a),
    }
}

/// Text form of an address: dotted quad for IPv4, canonical compressed
/// hexadecimal for IPv6.
pub fn ip_to_string(ip: IpAddress) -> (r: String)
    ensures
        r@ == ip_text(ip),
{
    let mut v: Vec<u8> = Vec::new();
    push_ip(&mut v, ip);
    proof {
        lemma_ip_text_ascii(ip);
        assert(v@ =~= ip_text_bytes(ip));
    }
    ascii_string(v)
}

/// The number an address stands for.
pub open spec fn addr_value(ip: IpAddress) -> nat {
    match ip {
        IpAddress::V4(a) => a as nat,
        IpAddress::V6(a) => a as nat,
    }
}

/// A network's addresses fit the address width: the block from the
/// network address holds exactly `count` consecutive numbers.
proof fn lemma_block_fits(net: Network)
    requires
        spec_address_count(net) <= 65536,
    ensures
        match net {
            Network::V4 { .. } => network_base(net) + pow2(host_bits(net)) <= 0x1_0000_0000,
            Network::V6 { .. } => network_base(net) + pow2(host_bits(net))
                <= 0x1_0000_0000_0000_0000_0000_0000_0000_0000,
        },
{
    lemma_small_network(net);
    lemma2_to64();
    let h = host_bits(net);
    lemma_pow2_pos(h);
    match net {
        Network::V4 { addr, .. } => {
            lemma_pow2_adds(h, (32 - h) as nat);
            lemma_aligned_block(addr as nat, pow2(h), pow2((32 - h) as nat));
        },
        Network::V6 { addr, .. } => {
            lemma_pow2_adds(h, (128 - h) as nat);
            lemma_pow2_adds(64, 64);
            lemma_aligned_block(addr as nat, pow2(h), pow2((128 - h) as nat));
        },
    }
}

/// A CIDR range within the expansion limit lists exactly as many addresses
/// as it holds, in strictly ascending order, from the network address to
/// the broadcast address.
pub proof fn lemma_network_addresses_ascending(net: Network)
    requires
        spec_address_count(net) <= 65536,
    ensures
        spec_network_addresses(net).len() == spec_address_count(net),
        addr_value(spec_network_addresses(net)[0]) == network_base(net),
        addr_value(spec_network_addresses(net).last()) == network_base(net) + spec_address_count(
            net,
        ) - 1,
        forall|i: int, j: int|
            0 <= i < j < spec_network_addresses(net).len() ==> addr_value(
                #[trigger] spec_network_addresses(net)[i],
            ) < addr_value(#[trigger] spec_network_addresses(net)[j]),
{
    lemma_small_network(net);
    lemma_block_fits(net);
    lemma_pow2_pos(host_bits(net));
    let s = spec_network_addresses(net);
    assert forall|i: int| 0 <= i < s.len() implies addr_value(#[trigger] s[i]) == network_base(net)
        + i by {}
}

} // verus!
