//! What a scan probes: addresses, endpoints and targets, and how they are written.

use ipnet::Ipv6Net;
use vstd::prelude::*;
use vstd::string::StringExecFns;

verus! {

/// An IP address, as the integer that its bits spell.
#[derive(Clone, Copy, Debug, PartialEq, Eq, Hash, Structural)]
pub enum Address {
    V4(u32),
    V6(u128),
}

impl Address {
    /// Whether this is an IPv6 address.
    pub open spec fn is_v6(self) -> bool {
        self is V6
    }

    /// The address as a number.
    pub open spec fn value(self) -> nat {
        match self {
            Address::V4(bits) => bits as nat,
            Address::V6(bits) => bits as nat,
        }
    }
}

/// An address and a port on it.
#[derive(Clone, Copy, Debug, PartialEq, Eq, Hash, Structural)]
pub struct Endpoint {
    pub addr: Address,
    pub port: u16,
}

/// How the standard library writes the IPv6 address with the value `addr`.
pub uninterp spec fn ipv6_text(addr: u128) -> Seq<char>;

/// Writes an IPv6 address as the standard library's `Display` for `Ipv6Addr`
/// does. The address type is reached through the `ipnet` crate: the value is
/// turned into the address of a one-address network, which is then read back.
/// The result is `ipv6_text` of the value.
#[verifier::external_body]
fn format_ipv6(addr: u128) -> (text: String)
    ensures
        text@ == ipv6_text(addr),
{
    Ipv6Net::new_assert(addr.into(), 128).addr().to_string()
}

/// The character of the decimal digit `d`.
pub open spec fn digit_char(d: nat) -> char {
    if d == 0 {
        '0'
    } else if d == 1 {
        '1'
    } else if d == 2 {
        '2'
    } else if d == 3 {
        '3'
    } else if d == 4 {
        '4'
    } else if d == 5 {
        '5'
    } else if d == 6 {
        '6'
    } else if d == 7 {
        '7'
    } else if d == 8 {
        '8'
    } else {
        '9'
    }
}

/// The decimal numeral of `n`, without sign and without leading zeros.
pub open spec fn decimal(n: nat) -> Seq<char>
    decreases n,
{
    if n < 10 {
        seq![digit_char(n)]
    } else {
        decimal(n / 10).push(digit_char(n % 10))
    }
}

/// The text of the IPv4 address with the value `addr`: its four bytes, the
/// highest first, each as a decimal numeral, with dots between them.
pub open spec fn ipv4_text(addr: u32) -> Seq<char> {
    decimal((addr / 0x100_0000) as nat) + seq!['.'] + decimal((addr / 0x1_0000 % 0x100) as nat)
        + seq!['.'] + decimal((addr / 0x100 % 0x100) as nat) + seq!['.'] + decimal(
        (addr % 0x100) as nat,
    )
}

/// The text of an address.
pub open spec fn address_text(addr: Address) -> Seq<char> {
    match addr {
        Address::V4(bits) => ipv4_text(bits),
        Address::V6(bits) => ipv6_text(bits),
    }
}

/// The text of an endpoint or a target: the host, a colon and the port.
pub open spec fn socket_text(host: Seq<char>, port: u16) -> Seq<char> {
    host + seq![':'] + decimal(port as nat)
}

/// The one-character text of a decimal digit.
fn digit_text(d: u16) -> (text: &'static str)
    requires
        d < 10,
    ensures
        text@ == seq![digit_char(d as nat)],
{
    proof {
        reveal_strlit("0");
        reveal_strlit("1");
        reveal_strlit("2");
        reveal_strlit("3");
        reveal_strlit("4");
        reveal_strlit("5");
        reveal_strlit("6");
        reveal_strlit("7");
        reveal_strlit("8");
        reveal_strlit("9");
    }
    let text = match d {
        0 => "0",
        1 => "1",
        2 => "2",
        3 => "3",
        4 => "4",
        5 => "5",
        6 => "6",
        7 => "7",
        8 => "8",
        _ => "9",
    };
    text
}

/// Appends the decimal numeral of `n` to `out`.
pub fn push_decimal(out: &mut String, n: u16)
    ensures
        final(out)@ == old(out)@ + decimal(n as nat),
    decreases n,
{
    if n >= 10 {
        push_decimal(out, n / 10);
    }
    out.append(digit_text(n % 10));
}

/// Writes an IPv4 address in dotted decimal.
fn format_ipv4(addr: u32) -> (text: String)
    ensures
        text@ == ipv4_text(addr),
{
    proof {
        reveal_strlit(".");
    }
    let mut text = String::new();
    push_decimal(&mut text, (addr / 0x100_0000) as u16);
    text.append(".");
    push_decimal(&mut text, (addr / 0x1_0000 % 0x100) as u16);
    text.append(".");
    push_decimal(&mut text, (addr / 0x100 % 0x100) as u16);
    text.append(".");
    push_decimal(&mut text, (addr % 0x100) as u16);
    text
}

/// The text of `addr`: dotted decimal for an IPv4 address, and for an IPv6
/// address what the standard library writes.
pub fn host_text(addr: Address) -> (text: String)
    ensures
        text@ == address_text(addr),
{
    match addr {
        Address::V4(bits) => format_ipv4(bits),
        Address::V6(bits) => format_ipv6(bits),
    }
}

/// Something to probe: a host, by name or address, and a port on it.
#[derive(Clone, Debug, PartialEq, Eq, Hash)]
pub struct Target {
    pub host: String,
    pub port: u16,
}

/// A row of a list of hosts: a host, by name or address, and a port on it.
#[derive(Clone, Debug, PartialEq, Eq, Hash)]
pub struct HostEntry {
    pub host: String,
    pub port: u16,
}

impl Target {
    /// The target that stands for an endpoint: the address written out, and
    /// the same port.
    pub fn from_endpoint(endpoint: Endpoint) -> (target: Target)
        ensures
            target.host@ == address_text(endpoint.addr),
            target.port == endpoint.port,
    {
        Target { host: host_text(endpoint.addr), port: endpoint.port }
    }

    /// The target that a row of a list stands for: the same host and port.
    pub fn from_entry(entry: HostEntry) -> (target: Target)
        ensures
            target.host == entry.host,
            target.port == entry.port,
    {
        Target { host: entry.host, port: entry.port }
    }

    /// What a probe connects to: the host, a colon and the port.
    pub fn address(&self) -> (text: String)
        ensures
            text@ == socket_text(self.host@, self.port),
    {
        write_socket(self.host.as_str(), self.port)
    }
}

impl HostEntry {
    /// The row as one text: the host, a colon and the port.
    pub fn to_string(&self) -> (text: String)
        ensures
            text@ == socket_text(self.host@, self.port),
    {
        write_socket(self.host.as_str(), self.port)
    }
}

/// Writes a host, a colon and a port.
fn write_socket(host: &str, port: u16) -> (text: String)
    ensures
        text@ == socket_text(host@, port),
{
    proof {
        reveal_strlit(":");
    }
    let mut text = host.to_owned();
    text.append(":");
    push_decimal(&mut text, port);
    text
}

} // verus!
