//! TURN transport addresses (`ip:port`) and the five-tuple that names an
//! allocation.
use vstd::prelude::*;
use vstd::string::StringExecFns;

use crate::text::{
    append_decimal, lemma_decimal_reads_back, lemma_digit_char, spec_char_digit_value,
    spec_decimal, spec_decimal_value,
};

verus! {

/// An IP address: four bytes for IPv4, sixteen for IPv6, read as one
/// big-endian number.
#[derive(Debug, Clone, Copy, PartialEq, Eq, Structural)]
pub enum IpAddress {
    V4(u32),
    V6(u128),
}

/// A socket address: an IP address and a port.
#[derive(Debug, Clone, Copy, PartialEq, Eq, Structural)]
pub struct SocketAddress {
    pub ip: IpAddress,
    pub port: u16,
}

/// A transport address, `ip:port`.
#[derive(Debug, PartialEq, Eq, Structural)]
pub struct Addr {
    ip: IpAddress,
    port: u16,
}

/// A transport protocol number, as the IP header carries it.
#[derive(Debug, Clone, Copy, PartialEq, Eq, Structural, Default)]
pub struct Protocol(pub u8);

/// The protocol number of UDP.
pub const PROTO_UDP: u8 = 17;

/// The protocol number of TCP.
pub const PROTO_TCP: u8 = 6;

/// The client address, the server address and the protocol of a TURN
/// allocation.
#[derive(PartialEq, Eq, Structural, Default)]
pub struct FiveTuple {
    pub client: Addr,
    pub server: Addr,
    pub proto: Protocol,
}

impl Default for Addr {
    /// The unspecified IPv4 address, port 0.
    fn default() -> (r: Addr)
        ensures
            r.spec_ip() == IpAddress::V4(0),
            r.spec_port() == 0,
    {
        Addr { ip: IpAddress::V4(0), port: 0 }
    }
}

impl Addr {
    /// The address's IP.
    pub closed spec fn spec_ip(&self) -> IpAddress {
        self.ip
    }

    /// The address's port.
    pub closed spec fn spec_port(&self) -> u16 {
        self.port
    }

    /// The name of the network: `"turn"`.
    pub fn network(&self) -> (r: String)
        ensures
            r@ == "turn"@,
    {
        "turn".to_owned()
    }

    /// The transport address of a socket address.
    pub fn from_socket_addr(n: &SocketAddress) -> (r: Addr)
        ensures
            r.spec_ip() == n.ip,
            r.spec_port() == n.port,
    {
        let ip = n.ip;
        let port = n.port;
        Addr { ip, port }
    }

    /// Whether `other` has the same IP address (ports aside).
    pub fn equal_ip(&self, other: &Addr) -> (r: bool)
        ensures
            r == (self.spec_ip() == other.spec_ip()),
    {
        self.ip == other.ip
    }

    /// The address's IP.
    pub fn ip(&self) -> (r: IpAddress)
        ensures
            r == self.spec_ip(),
    {
        self.ip
    }

    /// The address's text form, `ip:port`.
    pub fn to_string(&self) -> (r: String)
        ensures
            r@ == spec_addr_text(*self),
    {
        let mut s = self.ip.to_string();
        s.append(":");
        append_decimal(&mut s, self.port as u64);
        s
    }

    /// The address's port.
    pub fn port(&self) -> (r: u16)
        ensures
            r == self.spec_port(),
    {
        self.port
    }
}

/// Two transport addresses with the same IP address and the same port are
/// the same address.
pub proof fn lemma_addr_eq(a: Addr, b: Addr)
    requires
        a.spec_ip() == b.spec_ip(),
        a.spec_port() == b.spec_port(),
    ensures
        a == b,
{
}

/// The dotted-decimal text form of an IPv4 address: its four bytes in
/// decimal, most significant first, separated by dots.
pub open spec fn spec_ipv4_text(bits: u32) -> Seq<char> {
    spec_decimal((bits / 0x100_0000) as nat) + "."@ + spec_decimal(((bits / 0x1_0000) % 0x100) as nat)
        + "."@ + spec_decimal(((bits / 0x100) % 0x100) as nat) + "."@ + spec_decimal(
        (bits % 0x100) as nat,
    )
}

/// Reading dotted-decimal text from the left: the value of the fields that
/// a dot has closed, each field a base-256 digit, and the value in decimal of
/// the field still open.
pub open spec fn spec_dotted_parts(s: Seq<char>) -> (int, int)
    decreases s.len(),
{
    if s.len() == 0 {
        (0, 0)
    } else {
        let (t, cur) = spec_dotted_parts(s.drop_last());
        if s.last() == '.' {
            (t * 256 + cur, 0)
        } else {
            (t, cur * 10 + spec_char_digit_value(s.last()))
        }
    }
}

/// The number that dotted-decimal text stands for: its fields in decimal,
/// the first the most significant, as base-256 digits.
pub open spec fn spec_dotted_value(s: Seq<char>) -> int {
    let (t, cur) = spec_dotted_parts(s);
    t * 256 + cur
}

/// A field written in decimal after a closed field reads as its value.
proof fn lemma_dotted_decimal(p: Seq<char>, t: int, n: nat)
    requires
        spec_dotted_parts(p) == (t, 0int),
    ensures
        spec_dotted_parts(p + spec_decimal(n)) == (t, n as int),
    decreases n,
{
    if n < 10 {
        lemma_digit_char(n);
        let q = p + spec_decimal(n);
        assert(q.drop_last() =~= p);
        assert(q.last() == crate::text::spec_digit(n)[0]);
    } else {
        lemma_digit_char(n % 10);
        lemma_dotted_decimal(p, t, n / 10);
        let q = p + spec_decimal(n);
        assert(q =~= (p + spec_decimal(n / 10)) + crate::text::spec_digit(n % 10));
        assert(q.drop_last() =~= p + spec_decimal(n / 10));
        assert(q.last() == crate::text::spec_digit(n % 10)[0]);
    }
}

/// A dot closes the open field.
proof fn lemma_dotted_dot(p: Seq<char>)
    ensures
        spec_dotted_parts(p + "."@) == (spec_dotted_parts(p).0 * 256 + spec_dotted_parts(p).1, 0int),
{
    reveal_strlit(".");
    let q = p + "."@;
    assert(q.drop_last() =~= p);
}

/// The text form of an IPv4 address reads back, as dotted decimal, as the
/// address: its four fields are the address's bytes, most significant
/// first.
pub proof fn lemma_ipv4_text_reads_back(bits: u32)
    ensures
        spec_dotted_value(spec_ipv4_text(bits)) == bits,
{
    let a = (bits / 0x100_0000) as nat;
    let b = ((bits / 0x1_0000) % 0x100) as nat;
    let c = ((bits / 0x100) % 0x100) as nat;
    let d = (bits % 0x100) as nat;
    let e = Seq::<char>::empty();
    lemma_dotted_decimal(e, 0, a);
    assert(e + spec_decimal(a) =~= spec_decimal(a));
    let s1 = spec_decimal(a) + "."@;
    lemma_dotted_dot(spec_decimal(a));
    lemma_dotted_decimal(s1, a as int, b);
    let s2 = s1 + spec_decimal(b) + "."@;
    lemma_dotted_dot(s1 + spec_decimal(b));
    lemma_dotted_decimal(s2, (a * 256 + b) as int, c);
    let s3 = s2 + spec_decimal(c) + "."@;
    lemma_dotted_dot(s2 + spec_decimal(c));
    lemma_dotted_decimal(s3, ((a * 256 + b) * 256 + c) as int, d);
    assert(spec_ipv4_text(bits) == s3 + spec_decimal(d));
    let x = bits as int;
    assert(((x / 0x100_0000 * 256 + (x / 0x1_0000) % 0x100) * 256 + (x / 0x100) % 0x100) * 256
        + x % 0x100 == x) by (nonlinear_arith)
        requires
            0 <= x < 0x1_0000_0000,
    ;
}

/// The text of an IPv4 transport address reads back as the address and the
/// port: before the colon, dotted decimal that reads as the address; after
/// it, decimal that reads as the port.
pub proof fn lemma_addr_text_reads_back(a: Addr, bits: u32)
    requires
        a.spec_ip() == IpAddress::V4(bits),
    ensures
        ({
            let t = spec_addr_text(a);
            let j = spec_ipv4_text(bits).len() as int;
            &&& j < t.len()
            &&& t[j] == ':'
            &&& spec_dotted_value(t.subrange(0, j)) == bits
            &&& spec_decimal_value(t.subrange(j + 1, t.len() as int)) == a.spec_port()
        }),
{
    reveal_strlit(":");
    lemma_ipv4_text_reads_back(bits);
    lemma_decimal_reads_back(a.spec_port() as nat);
    let t = spec_addr_text(a);
    let j = spec_ipv4_text(bits).len() as int;
    assert(t.subrange(0, j) =~= spec_ipv4_text(bits));
    assert(t.subrange(j + 1, t.len() as int) =~= spec_decimal(a.spec_port() as nat));
}

/// The text form that `std` gives an IPv6 address (RFC 5952: lower-case
/// hexadecimal groups, the longest run of zero groups shortened to `::`,
/// IPv4-mapped addresses with a dotted tail).
pub uninterp spec fn spec_ipv6_text(bits: u128) -> Seq<char>;

/// `Ipv6Addr`'s `Display` form, for the address with these bits.
#[verifier::external_body]
fn ipv6_text(bits: u128) -> (r: String)
    ensures
        r@ == spec_ipv6_text(bits),
{
    format!("{}", core::net::Ipv6Addr::from(bits))
}

/// The text form of an IP address.
pub open spec fn spec_ip_text(ip: IpAddress) -> Seq<char> {
    match ip {
        IpAddress::V4(bits) => spec_ipv4_text(bits),
        IpAddress::V6(bits) => spec_ipv6_text(bits),
    }
}

/// The text form of a protocol: `UDP`, `TCP`, or else its number in decimal.
pub open spec fn spec_protocol_text(p: Protocol) -> Seq<char> {
    if p.0 == PROTO_UDP {
        "UDP"@
    } else if p.0 == PROTO_TCP {
        "TCP"@
    } else {
        spec_decimal(p.0 as nat)
    }
}

/// The text form `ip:port` of a transport address.
pub open spec fn spec_addr_text(a: Addr) -> Seq<char> {
    spec_ip_text(a.spec_ip()) + ":"@ + spec_decimal(a.spec_port() as nat)
}

impl IpAddress {
    /// The address's text form: dotted decimal for IPv4, the `std` form for
    /// IPv6.
    pub fn to_string(&self) -> (r: String)
        ensures
            r@ == spec_ip_text(*self),
    {
        match *self {
            IpAddress::V4(bits) => {
                let ghost b = bits;
                let mut s = String::new();
                append_decimal(&mut s, (bits / 0x100_0000) as u64);
                s.append(".");
                append_decimal(&mut s, ((bits / 0x1_0000) % 0x100) as u64);
                s.append(".");
                append_decimal(&mut s, ((bits / 0x100) % 0x100) as u64);
                s.append(".");
                append_decimal(&mut s, (bits % 0x100) as u64);
                assert(s@ =~= spec_ipv4_text(b));
                s
            },
            IpAddress::V6(bits) => ipv6_text(bits),
        }
    }
}

impl Protocol {
    /// The protocol's text form: `UDP`, `TCP`, or else its number.
    pub fn to_string(&self) -> (r: String)
        ensures
            r@ == spec_protocol_text(*self),
    {
        if self.0 == PROTO_UDP {
            "UDP".to_owned()
        } else if self.0 == PROTO_TCP {
            "TCP".to_owned()
        } else {
            let mut s = String::new();
            append_decimal(&mut s, self.0 as u64);
            s
        }
    }
}

impl FiveTuple {
    /// The five-tuple's text form: `client->server (protocol)`.
    pub fn to_string(&self) -> (r: String)
        ensures
            r@ == spec_addr_text(self.client) + "->"@ + spec_addr_text(self.server) + " ("@
                + spec_protocol_text(self.proto) + ")"@,
    {
        let mut s = self.client.to_string();
        s.append("->");
        let server = self.server.to_string();
        s.append(server.as_str());
        s.append(" (");
        let proto = self.proto.to_string();
        s.append(proto.as_str());
        s.append(")");
        s
    }
}

} // verus!
