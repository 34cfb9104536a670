//! Network addresses as plain values: IP addresses and socket addresses,
//! with their textual forms.
use crate::text::{decimal, decimal_chars, extend_chars};
use vstd::prelude::*;

verus! {

/// An IPv4 or IPv6 address, held as its integer value (most significant
/// byte first, as the address is written).
#[derive(Clone, Copy, Debug, PartialEq, Eq, Structural, Hash)]
pub enum IpAddress {
    V4(u32),
    V6(u128),
}

/// A socket address: IP address and port, with the IPv6 flow information
/// and scope id (both zero for IPv4).
#[derive(Clone, Copy, Debug, PartialEq, Eq, Structural, Hash)]
pub struct SocketAddress {
    pub ip: IpAddress,
    pub port: u16,
    pub flowinfo: u32,
    pub scope_id: u32,
}

impl SocketAddress {
    /// An IPv4 socket address from its four octets and port.
    pub fn v4(a: u8, b: u8, c: u8, d: u8, port: u16) -> (s: SocketAddress)
        ensures
            s.ip == IpAddress::V4(ipv4_value(a, b, c, d)),
            s.port == port,
            s.flowinfo == 0,
            s.scope_id == 0,
    {
        let v: u32 = (a as u32) * 16777216 + (b as u32) * 65536 + (c as u32) * 256 + (d as u32);
        SocketAddress { ip: IpAddress::V4(v), port, flowinfo: 0, scope_id: 0 }
    }

    /// The IP address part.
    pub fn ip(&self) -> (ip: IpAddress)
        ensures
            ip == self.ip,
    {
        self.ip
    }

    /// The port part.
    pub fn port(&self) -> (p: u16)
        ensures
            p == self.port,
    {
        self.port
    }
}

/// The integer value of the IPv4 address `a.b.c.d`.
pub open spec fn ipv4_value(a: u8, b: u8, c: u8, d: u8) -> u32 {
    (a as int * 16777216 + b as int * 65536 + c as int * 256 + d as int) as u32
}

/// The four octets of an IPv4 address value, most significant first.
pub open spec fn octets(v: u32) -> Seq<nat> {
    seq![(v / 16777216) as nat, ((v / 65536) % 256) as nat, ((v / 256) % 256) as nat, (v % 256) as nat]
}

/// The dotted-decimal text of an IPv4 address value.
pub open spec fn ipv4_text(v: u32) -> Seq<char> {
    let o = octets(v);
    decimal(o[0]) + seq!['.'] + decimal(o[1]) + seq!['.'] + decimal(o[2]) + seq!['.'] + decimal(o[3])
}

/// The last `k` 16-bit segments of `v`, most significant first.
pub open spec fn low_segments(v: nat, k: nat) -> Seq<nat>
    decreases k,
{
    if k == 0 {
        Seq::empty()
    } else {
        low_segments(v / 65536, (k - 1) as nat).push(v % 65536)
    }
}

/// The eight 16-bit segments of an IPv6 address value, most significant
/// first.
pub open spec fn segments6(v: u128) -> Seq<nat> {
    low_segments(v as nat, 8)
}

/// A lower-case hexadecimal digit.
pub open spec fn hex_digit(d: nat) -> char {
    if d < 10 {
        ((d + 48) as u32) as char
    } else {
        ((d + 87) as u32) as char
    }
}

/// The lower-case hexadecimal text of `n`, without leading zeros.
pub open spec fn hex(n: nat) -> Seq<char>
    decreases n,
{
    if n < 16 {
        seq![hex_digit(n)]
    } else {
        hex(n / 16).push(hex_digit(n % 16))
    }
}

/// Segments in hexadecimal, separated by `:`.
pub open spec fn hex_groups(segs: Seq<nat>) -> Seq<char>
    decreases segs.len(),
{
    if segs.len() == 0 {
        Seq::empty()
    } else if segs.len() == 1 {
        hex(segs[0])
    } else {
        hex_groups(segs.drop_last()) + seq![':'] + hex(segs.last())
    }
}

/// The first longest run of zero segments, as `(start, length)`, found by
/// scanning from index `i` with the longest and the current run so far.
pub open spec fn zero_run_from(
    segs: Seq<nat>,
    i: int,
    longest: (int, int),
    current: (int, int),
) -> (int, int)
    decreases segs.len() - i,
{
    if i < 0 || i >= segs.len() {
        longest
    } else if segs[i] == 0 {
        let cur = if current.1 == 0 {
            (i, 1int)
        } else {
            (current.0, current.1 + 1)
        };
        let best = if cur.1 > longest.1 {
            cur
        } else {
            longest
        };
        zero_run_from(segs, i + 1, best, cur)
    } else {
        zero_run_from(segs, i + 1, longest, (0int, 0int))
    }
}

/// Whether an IPv6 address is an IPv4-mapped address (`::ffff:a.b.c.d`).
pub open spec fn is_ipv4_mapped(segs: Seq<nat>) -> bool {
    segs[0] == 0 && segs[1] == 0 && segs[2] == 0 && segs[3] == 0 && segs[4] == 0 && segs[5]
        == 65535
}

/// The text of an IPv6 address value: IPv4-mapped addresses as
/// `::ffff:` and the dotted IPv4 address, all others as hexadecimal groups
/// with the first longest run of two or more zero groups written as `::`.
pub open spec fn ipv6_text(v: u128) -> Seq<char> {
    let segs = segments6(v);
    if is_ipv4_mapped(segs) {
        "::ffff:"@ + ipv4_text((v % 4294967296) as u32)
    } else {
        let (start, len) = zero_run_from(segs, 0, (0, 0), (0, 0));
        if len > 1 {
            hex_groups(segs.subrange(0, start)) + seq![':', ':'] + hex_groups(
                segs.subrange(start + len, 8),
            )
        } else {
            hex_groups(segs)
        }
    }
}

/// The text of an IP address.
pub open spec fn ip_text(ip: IpAddress) -> Seq<char> {
    match ip {
        IpAddress::V4(v) => ipv4_text(v),
        IpAddress::V6(v) => ipv6_text(v),
    }
}

/// The text of a socket address: `ip:port` for IPv4, `[ip]:port` or
/// `[ip%scope]:port` for IPv6.
pub open spec fn socket_text(a: SocketAddress) -> Seq<char> {
    match a.ip {
        IpAddress::V4(v) => ipv4_text(v) + seq![':'] + decimal(a.port as nat),
        IpAddress::V6(v) => if a.scope_id == 0 {
            seq!['['] + ipv6_text(v) + seq![']', ':'] + decimal(a.port as nat)
        } else {
            seq!['['] + ipv6_text(v) + seq!['%'] + decimal(a.scope_id as nat) + seq![']', ':']
                + decimal(a.port as nat)
        },
    }
}

/// Appends the dotted-decimal text of an IPv4 address value to `out`.
pub fn push_ipv4_text(out: &mut Vec<char>, v: u32)
    ensures
        final(out)@ == old(out)@ + ipv4_text(v),
{
    let a = decimal_chars((v / 16777216) as u64);
    let b = decimal_chars(((v / 65536) % 256) as u64);
    let c = decimal_chars(((v / 256) % 256) as u64);
    let d = decimal_chars((v % 256) as u64);
    let ghost o = octets(v);
    assert(a@ == decimal(o[0]) && b@ == decimal(o[1]) && c@ == decimal(o[2]) && d@ == decimal(o[3]));
    extend_chars(out, &a);
    out.push('.');
    extend_chars(out, &b);
    out.push('.');
    extend_chars(out, &c);
    out.push('.');
    extend_chars(out, &d);
    assert(final(out)@ =~= old(out)@ + ipv4_text(v)) by {
        assert(out@ =~= old(out)@ + a@ + seq!['.'] + b@ + seq!['.'] + c@ + seq!['.'] + d@);
    }
}

proof fn lemma_low_segments_len(v: nat, k: nat)
    ensures
        low_segments(v, k).len() == k,
    decreases k,
{
    if k > 0 {
        lemma_low_segments_len(v / 65536, (k - 1) as nat);
    }
}

fn low_segments_exec(v: u128, k: usize) -> (r: Vec<u16>)
    requires
        k <= 8,
    ensures
        r@.len() == k,
        forall|i: int| 0 <= i < k ==> r@[i] as nat == #[trigger] low_segments(v as nat, k as nat)[i],
    decreases k,
{
    if k == 0 {
        Vec::new()
    } else {
        let mut r = low_segments_exec(v / 65536, k - 1);
        r.push((v % 65536) as u16);
        proof {
            let l = low_segments(v as nat, k as nat);
            lemma_low_segments_len(v as nat, k as nat);
            lemma_low_segments_len((v / 65536) as nat, (k - 1) as nat);
            assert((v / 65536) as nat == (v as nat) / 65536);
            assert(l == low_segments((v / 65536) as nat, (k - 1) as nat).push((v % 65536) as nat));
            assert forall|i: int| 0 <= i < k implies r@[i] as nat == #[trigger] l[i] by {
                if i < k - 1 {
                    assert(l[i] == low_segments((v / 65536) as nat, (k - 1) as nat)[i]);
                }
            }
        }
        r
    }
}

fn hex_chars(n: u64) -> (v: Vec<char>)
    ensures
        v@ == hex(n as nat),
    decreases n,
{
    let d = (n % 16) as u8;
    let c = if d < 10 {
        (d + 48) as char
    } else {
        (d + 87) as char
    };
    assert(c == hex_digit((n % 16) as nat));
    if n < 16 {
        let mut v: Vec<char> = Vec::new();
        v.push(c);
        assert(v@ =~= seq![c]);
        v
    } else {
        let mut v = hex_chars(n / 16);
        v.push(c);
        v
    }
}

fn push_hex_groups(out: &mut Vec<char>, segs: &Vec<u16>, from: usize, to: usize)
    requires
        from <= to <= segs@.len(),
    ensures
        final(out)@ == old(out)@ + hex_groups(
            segs@.subrange(from as int, to as int).map_values(|x: u16| x as nat),
        ),
{
    let ghost o = out@;
    let ghost all = segs@.map_values(|x: u16| x as nat);
    let mut k = from;
    while k < to
        invariant
            from <= k <= to <= segs@.len(),
            all == segs@.map_values(|x: u16| x as nat),
            out@ == o + hex_groups(all.subrange(from as int, k as int)),
        decreases to - k,
    {
        let ghost prev = all.subrange(from as int, k as int);
        let ghost next = all.subrange(from as int, k + 1);
        assert(next.drop_last() =~= prev);
        assert(next.last() == segs@[k as int] as nat);
        if k > from {
            out.push(':');
        }
        let h = hex_chars(segs[k] as u64);
        extend_chars(out, &h);
        k = k + 1;
        assert(out@ =~= o + hex_groups(next));
    }
    assert(all.subrange(from as int, to as int) =~= segs@.subrange(from as int, to as int).map_values(
        |x: u16| x as nat,
    ));
}

/// Appends the text of an IPv6 address value to `out`.
pub fn push_ipv6_text(out: &mut Vec<char>, v: u128)
    ensures
        final(out)@ == old(out)@ + ipv6_text(v),
{
    let segs = low_segments_exec(v, 8);
    let ghost sp = segments6(v);
    let ghost sn = segs@.map_values(|x: u16| x as nat);
    proof {
        lemma_low_segments_len(v as nat, 8);
    }
    assert(sn =~= sp);
    if segs[0] == 0 && segs[1] == 0 && segs[2] == 0 && segs[3] == 0 && segs[4] == 0 && segs[5]
        == 65535 {
        let p = crate::text::chars_of("::ffff:");
        extend_chars(out, &p);
        push_ipv4_text(out, (v % 4294967296) as u32);
        return;
    }
    let mut longest: (usize, usize) = (0, 0);
    let mut current: (usize, usize) = (0, 0);
    let mut i: usize = 0;
    while i < 8
        invariant
            i <= 8,
            segs@.len() == 8,
            sp == segs@.map_values(|x: u16| x as nat),
            current.1 <= i,
            longest.0 + longest.1 <= 8,
            longest.1 <= 8,
            current.0 + current.1 <= i,
            zero_run_from(sp, 0, (0, 0), (0, 0)) == zero_run_from(
                sp,
                i as int,
                (longest.0 as int, longest.1 as int),
                (current.0 as int, current.1 as int),
            ),
        decreases 8 - i,
    {
        if segs[i] == 0 {
            if current.1 == 0 {
                current = (i, 1);
            } else {
                current = (current.0, current.1 + 1);
            }
            if current.1 > longest.1 {
                longest = current;
            }
        } else {
            current = (0, 0);
        }
        i = i + 1;
    }
    if longest.1 > 1 {
        push_hex_groups(out, &segs, 0, longest.0);
        out.push(':');
        out.push(':');
        push_hex_groups(out, &segs, longest.0 + longest.1, 8);
        proof {
            assert(segs@.subrange(0, longest.0 as int).map_values(|x: u16| x as nat) =~= sp.subrange(
                0,
                longest.0 as int,
            ));
            assert(segs@.subrange(longest.0 + longest.1, 8).map_values(|x: u16| x as nat)
                =~= sp.subrange(longest.0 + longest.1, 8));
        }
        assert(final(out)@ =~= old(out)@ + ipv6_text(v));
    } else {
        push_hex_groups(out, &segs, 0, 8);
        assert(segs@.subrange(0, 8) =~= segs@);
    }
}

/// Appends the text of an IP address to `out`.
pub fn push_ip_text(out: &mut Vec<char>, ip: IpAddress)
    ensures
        final(out)@ == old(out)@ + ip_text(ip),
{
    match ip {
        IpAddress::V4(v) => push_ipv4_text(out, v),
        IpAddress::V6(v) => push_ipv6_text(out, v),
    }
}

/// Appends the text of a socket address to `out`.
pub fn push_socket_text(out: &mut Vec<char>, a: SocketAddress)
    ensures
        final(out)@ == old(out)@ + socket_text(a),
{
    let port = decimal_chars(a.port as u64);
    match a.ip {
        IpAddress::V4(v) => {
            push_ipv4_text(out, v);
            out.push(':');
            extend_chars(out, &port);
        },
        IpAddress::V6(v) => {
            out.push('[');
            push_ipv6_text(out, v);
            if a.scope_id != 0 {
                out.push('%');
                let sc = decimal_chars(a.scope_id as u64);
                extend_chars(out, &sc);
            }
            out.push(']');
            out.push(':');
            extend_chars(out, &port);
        },
    }
    assert(final(out)@ =~= old(out)@ + socket_text(a));
}

/// The text of an IP address, as the standard library displays it.
pub fn ip_to_string(ip: IpAddress) -> (s: String)
    ensures
        s@ == ip_text(ip),
{
    let mut v: Vec<char> = Vec::new();
    push_ip_text(&mut v, ip);
    assert(v@ =~= ip_text(ip));
    crate::text::string_from_chars(&v)
}

/// The text of a socket address, as the standard library displays it.
pub fn socket_to_string(a: SocketAddress) -> (s: String)
    ensures
        s@ == socket_text(a),
{
    let mut v: Vec<char> = Vec::new();
    push_socket_text(&mut v, a);
    assert(v@ =~= socket_text(a));
    crate::text::string_from_chars(&v)
}

/// The host-port text a `227` reply gives for a data socket, as RFC 959
/// writes it: the four octets of an IPv4 address and the high and low byte
/// of the port, separated by commas (`127,0,0,1,8,79` for
/// `127.0.0.1:2127`). An IPv6 socket is written as its socket address.
pub open spec fn host_port_text(a: SocketAddress) -> Seq<char> {
    match a.ip {
        IpAddress::V4(v) => {
            let o = octets(v);
            decimal(o[0]) + seq![','] + decimal(o[1]) + seq![','] + decimal(o[2]) + seq![','] + decimal(
                o[3],
            ) + seq![','] + decimal((a.port / 256) as nat) + seq![','] + decimal((a.port % 256) as nat)
        },
        IpAddress::V6(_) => socket_text(a),
    }
}

/// The RFC 959 host-port text of a data socket.
pub fn host_port_to_string(a: SocketAddress) -> (s: String)
    ensures
        s@ == host_port_text(a),
{
    match a.ip {
        IpAddress::V4(v) => {
            let ghost o = octets(v);
            let mut out = decimal_chars((v / 16777216) as u64);
            out.push(',');
            extend_chars(&mut out, &decimal_chars(((v / 65536) % 256) as u64));
            out.push(',');
            extend_chars(&mut out, &decimal_chars(((v / 256) % 256) as u64));
            out.push(',');
            extend_chars(&mut out, &decimal_chars((v % 256) as u64));
            out.push(',');
            extend_chars(&mut out, &decimal_chars((a.port / 256) as u64));
            out.push(',');
            extend_chars(&mut out, &decimal_chars((a.port % 256) as u64));
            assert(out@ =~= host_port_text(a));
            crate::text::string_from_chars(&out)
        },
        IpAddress::V6(_) => socket_to_string(a),
    }
}

proof fn lemma_octets_of(a: u8, b: u8, c: u8, d: u8)
    ensures
        octets(ipv4_value(a, b, c, d)) == seq![a as nat, b as nat, c as nat, d as nat],
{
    let v: int = a as int * 16777216 + b as int * 65536 + c as int * 256 + d as int;
    assert(0 <= v < 4294967296) by (nonlinear_arith)
        requires
            v == a as int * 16777216 + b as int * 65536 + c as int * 256 + d as int,
            a < 256,
            b < 256,
            c < 256,
            d < 256,
    ;
    assert(ipv4_value(a, b, c, d) as int == v);
    assert(v / 16777216 == a as int) by (nonlinear_arith)
        requires
            v == a as int * 16777216 + b as int * 65536 + c as int * 256 + d as int,
            a < 256, b < 256, c < 256, d < 256,
    ;
    assert((v / 65536) % 256 == b as int) by (nonlinear_arith)
        requires
            v == a as int * 16777216 + b as int * 65536 + c as int * 256 + d as int,
            a < 256, b < 256, c < 256, d < 256,
    ;
    assert((v / 256) % 256 == c as int) by (nonlinear_arith)
        requires
            v == a as int * 16777216 + b as int * 65536 + c as int * 256 + d as int,
            a < 256, b < 256, c < 256, d < 256,
    ;
    assert(v % 256 == d as int) by (nonlinear_arith)
        requires
            v == a as int * 16777216 + b as int * 65536 + c as int * 256 + d as int,
            a < 256, b < 256, c < 256, d < 256,
    ;
    assert(octets(ipv4_value(a, b, c, d)) =~= seq![a as nat, b as nat, c as nat, d as nat]);
}

/// The host-port text of an IPv4 socket `a.b.c.d:port` lists the four
/// octets and then the high and low byte of the port, from which the
/// port is `256 * high + low`.
pub proof fn law_host_port_encodes_socket(a: u8, b: u8, c: u8, d: u8, port: u16)
    ensures
        ({
            let s = SocketAddress { ip: IpAddress::V4(ipv4_value(a, b, c, d)), port, flowinfo: 0, scope_id: 0 };
            let hi = (port / 256) as nat;
            let lo = (port % 256) as nat;
            &&& host_port_text(s) == decimal(a as nat) + seq![','] + decimal(b as nat) + seq![','] + decimal(
                c as nat,
            ) + seq![','] + decimal(d as nat) + seq![','] + decimal(hi) + seq![','] + decimal(lo)
            &&& 256 * hi + lo == port
            &&& hi < 256 && lo < 256
        }),
{
    lemma_octets_of(a, b, c, d);
}

} // verus!
