//! IP networks in CIDR notation and the host addresses they span.
//!
//! Addresses are handled as integers: an IPv4 address is its 32-bit value, an
//! IPv6 address its 128-bit value, both held in a `u128`. The text of a network
//! is read by the `ipnet` crate; its hosts are worked out here, and they are
//! meant to be the addresses that `IpNet::hosts` of that crate walks over.

use ipnet::{AddrParseError, IpNet};
use vstd::arithmetic::div_mod::{lemma_fundamental_div_mod, lemma_fundamental_div_mod_converse};
use vstd::arithmetic::mul::{lemma_mul_inequality, lemma_mul_is_distributive_add};
use vstd::arithmetic::power2::{lemma2_to64, lemma_pow2_adds, lemma_pow2_pos, pow2};
use vstd::bits::lemma_u128_shr_is_div;
use vstd::prelude::*;

verus! {

/// The error of the `ipnet` crate's parser.
#[verifier::external_type_specification]
#[verifier::external_body]
pub struct ExAddrParseError(AddrParseError);

/// The parts of a network in CIDR notation: the address family, the address as
/// written (host bits included) and the length of the network prefix.
#[derive(Clone, Copy, Debug, PartialEq, Eq, Hash, Structural)]
pub struct Cidr {
    pub v6: bool,
    pub addr: u128,
    pub prefix_len: u8,
}

impl Cidr {
    /// The number of bits of an address of this family.
    pub open spec fn width(self) -> nat {
        if self.v6 {
            128
        } else {
            32
        }
    }

    /// The prefix is no longer than an address, and the address fits its family.
    pub open spec fn valid(self) -> bool {
        &&& self.prefix_len <= self.width()
        &&& self.addr < pow2(self.width())
    }

    /// The number of bits that the prefix leaves to the hosts.
    pub open spec fn host_bits(self) -> nat {
        (self.width() - self.prefix_len) as nat
    }

    /// The number of addresses in the network.
    pub open spec fn size(self) -> nat {
        pow2(self.host_bits())
    }

    /// The lowest address of the network: the address with its host bits cleared.
    pub open spec fn network(self) -> nat {
        (self.addr - (self.addr as int) % (self.size() as int)) as nat
    }

    /// The highest address of the network: the address with its host bits set.
    pub open spec fn broadcast(self) -> nat {
        (self.network() + self.size() - 1) as nat
    }

    /// Whether the lowest and the highest address are no hosts. That is so in an
    /// IPv4 network that has more than two addresses.
    pub open spec fn reserves_ends(self) -> bool {
        !self.v6 && self.prefix_len < 31
    }

    /// The lowest host address.
    pub open spec fn first_host(self) -> nat {
        if self.reserves_ends() {
            self.network() + 1
        } else {
            self.network()
        }
    }

    /// The highest host address.
    pub open spec fn last_host(self) -> nat {
        if self.reserves_ends() {
            (self.broadcast() - 1) as nat
        } else {
            self.broadcast()
        }
    }

    /// The number of host addresses.
    pub open spec fn host_count(self) -> nat {
        (self.last_host() - self.first_host() + 1) as nat
    }
}

/// The number of usable host addresses of a network with a prefix of
/// `prefix_len` bits: all of them in IPv6 and in the IPv4 networks of one or two
/// addresses, all but the lowest and the highest in the other IPv4 networks.
pub open spec fn usable_host_count(v6: bool, prefix_len: nat) -> nat {
    if v6 {
        pow2((128 - prefix_len) as nat)
    } else if prefix_len == 32 {
        1
    } else if prefix_len == 31 {
        2
    } else {
        (pow2((32 - prefix_len) as nat) - 2) as nat
    }
}

/// What the `ipnet` crate's parser makes of `text`: the parts of the network it
/// denotes, or `None` where `text` is no network in CIDR notation.
pub uninterp spec fn cidr_parse(text: Seq<char>) -> Option<Cidr>;

/// Parses `text` with `IpNet::from_str` of the `ipnet` crate and hands out the
/// parts of the network. The result is `cidr_parse` of the text. A network that
/// the parser accepts is valid: it holds a prefix length only after it has
/// checked it against the family's width, and an IPv4 address has 32 bits.
#[verifier::external_body]
fn parse_ipnet(text: &str) -> (parsed: Result<Cidr, AddrParseError>)
    ensures
        match parsed {
            Ok(cidr) => cidr_parse(text@) == Some(cidr) && cidr.valid(),
            Err(_) => cidr_parse(text@) is None,
        },
{
    match text.parse::<IpNet>() {
        Ok(IpNet::V4(net)) => Ok(
            Cidr { v6: false, addr: u128::from(u32::from(net.addr())), prefix_len: net.prefix_len() },
        ),
        Ok(IpNet::V6(net)) => Ok(
            Cidr { v6: true, addr: u128::from(net.addr()), prefix_len: net.prefix_len() },
        ),
        Err(e) => Err(e),
    }
}

/// Why a network could not be made.
#[derive(Clone, Copy, Debug, PartialEq, Eq, Structural)]
pub enum NetworkError {
    /// The text is no network in CIDR notation.
    Syntax,
    /// The prefix is longer than an address of the family.
    PrefixTooLong,
    /// The address has more bits than an address of the family.
    AddressTooWide,
}

/// Why `cidr` is no network, if it is none: its prefix is checked first.
pub open spec fn parts_error(cidr: Cidr) -> Option<NetworkError> {
    if cidr.prefix_len > cidr.width() {
        Some(NetworkError::PrefixTooLong)
    } else if cidr.addr >= pow2(cidr.width()) {
        Some(NetworkError::AddressTooWide)
    } else {
        None
    }
}

/// An IP network, known to be valid.
#[derive(Clone, Copy, Debug, PartialEq, Eq)]
pub struct Network {
    cidr: Cidr,
}

impl View for Network {
    type V = Cidr;

    closed spec fn view(&self) -> Cidr {
        self.cidr
    }
}

/// The values of the two powers of two that bound the address families.
pub proof fn lemma_family_bounds()
    ensures
        pow2(32) == 0x1_0000_0000,
        pow2(128) == 0x1_0000_0000_0000_0000_0000_0000_0000_0000,
{
    lemma2_to64();
    lemma_pow2_adds(64, 64);
}

/// The all-ones value of `width` bits, shifted right by `shift` bits, is the
/// all-ones value of `width - shift` bits.
proof fn lemma_ones_shifted(width: nat, shift: nat)
    requires
        shift <= width,
    ensures
        (pow2(width) - 1) / (pow2(shift) as int) == pow2((width - shift) as nat) - 1,
{
    let d = pow2(shift) as int;
    let q = pow2((width - shift) as nat) as int;
    lemma_pow2_pos(shift);
    lemma_pow2_adds(shift, (width - shift) as nat);
    lemma_mul_is_distributive_add(d, q - 1, 1);
    lemma_fundamental_div_mod_converse(pow2(width) - 1, d, q - 1, d - 1);
}

/// A network lies within the address space of its family.
pub proof fn lemma_network_in_family(cidr: Cidr)
    requires
        cidr.valid(),
    ensures
        cidr.size() > 0,
        (cidr.addr as int) % (cidr.size() as int) <= cidr.addr,
        cidr.network() <= cidr.addr <= cidr.broadcast(),
        cidr.broadcast() < pow2(cidr.width()),
{
    let d = cidr.size() as int;
    let a = cidr.addr as int;
    let m = pow2(cidr.prefix_len as nat) as int;
    lemma_pow2_adds(cidr.host_bits(), cidr.prefix_len as nat);
    lemma_fundamental_div_mod(a, d);
    let q = a / d;
    assert(q < m) by (nonlinear_arith)
        requires
            d * q <= a,
            a < d * m,
            d > 0,
    ;
    lemma_mul_inequality(q + 1, m, d);
    lemma_mul_is_distributive_add(d, q, 1);
}

/// A valid network has as many hosts as its family and prefix length allow.
pub proof fn lemma_host_count(cidr: Cidr)
    requires
        cidr.valid(),
    ensures
        cidr.first_host() <= cidr.last_host(),
        cidr.host_count() == usable_host_count(cidr.v6, cidr.prefix_len as nat),
        cidr.host_count() >= 1,
        cidr.reserves_ends() ==> cidr.size() >= 4,
{
    lemma_network_in_family(cidr);
    // An IPv4 network has at most 32 host bits, and one that keeps its ends
    // for itself has two at least: the powers of two up to 2^32 settle it.
    lemma2_to64();
}

impl Network {
    #[verifier::type_invariant]
    spec fn inv(self) -> bool {
        self.cidr.valid()
    }

    /// Makes a network of its parts, if they are those of one.
    pub fn from_parts(cidr: Cidr) -> (made: Result<Network, NetworkError>)
        ensures
            match made {
                Ok(net) => net@ == cidr && cidr.valid() && parts_error(cidr) is None,
                Err(e) => !cidr.valid() && parts_error(cidr) == Some(e),
            },
    {
        proof {
            lemma_family_bounds();
        }
        let width: u8 = if cidr.v6 {
            128
        } else {
            32
        };
        if cidr.prefix_len > width {
            Err(NetworkError::PrefixTooLong)
        } else if !cidr.v6 && cidr.addr > 0xFFFF_FFFF {
            Err(NetworkError::AddressTooWide)
        } else {
            Ok(Network { cidr })
        }
    }

    /// Reads a network in CIDR notation, such as `10.1.0.0/16` or `fd00::/64`.
    /// The text is a network exactly where the `ipnet` crate's parser says so.
    pub fn parse(text: &str) -> (parsed: Result<Network, NetworkError>)
        ensures
            match parsed {
                Ok(net) => cidr_parse(text@) == Some(net@) && net@.valid(),
                Err(e) => cidr_parse(text@) is None && e == NetworkError::Syntax,
            },
    {
        match parse_ipnet(text) {
            Ok(cidr) => Network::from_parts(cidr),
            Err(_) => Err(NetworkError::Syntax),
        }
    }

    /// The parts of the network: its family, its address as written and its
    /// prefix length.
    pub fn parts(&self) -> (cidr: Cidr)
        ensures
            cidr == self@,
            cidr.valid(),
    {
        proof {
            use_type_invariant(self);
        }
        self.cidr
    }

    /// The mask of the host bits: one less than the number of addresses in the
    /// network.
    fn host_mask(&self) -> (mask: u128)
        ensures
            self@.valid(),
            mask == self@.size() - 1,
    {
        proof {
            use_type_invariant(self);
            lemma_family_bounds();
            lemma_ones_shifted(self@.width(), self@.prefix_len as nat);
        }
        let ones: u128 = if self.cidr.v6 {
            u128::MAX
        } else {
            0xFFFF_FFFF
        };
        if self.cidr.prefix_len >= 128 {
            proof {
                lemma2_to64();
            }
            0
        } else {
            let shift: u128 = self.cidr.prefix_len as u128;
            proof {
                lemma_u128_shr_is_div(ones, shift);
            }
            ones >> shift
        }
    }

    /// The lowest address of the network.
    pub fn network(&self) -> (addr: u128)
        ensures
            self@.valid(),
            addr == self@.network(),
    {
        let mask = self.host_mask();
        proof {
            lemma_family_bounds();
            lemma_network_in_family(self@);
        }
        if mask == u128::MAX {
            0
        } else {
            self.cidr.addr - self.cidr.addr % (mask + 1)
        }
    }

    /// The highest address of the network.
    pub fn broadcast(&self) -> (addr: u128)
        ensures
            self@.valid(),
            addr == self@.broadcast(),
    {
        let mask = self.host_mask();
        let network = self.network();
        proof {
            lemma_family_bounds();
            lemma_network_in_family(self@);
        }
        network + mask
    }

    /// The lowest host address.
    pub fn first_host(&self) -> (addr: u128)
        ensures
            self@.valid(),
            addr == self@.first_host(),
    {
        let network = self.network();
        proof {
            lemma_family_bounds();
            lemma_network_in_family(self@);
        }
        if !self.cidr.v6 && self.cidr.prefix_len < 31 {
            network + 1
        } else {
            network
        }
    }

    /// The highest host address.
    pub fn last_host(&self) -> (addr: u128)
        ensures
            self@.valid(),
            addr == self@.last_host(),
    {
        let broadcast = self.broadcast();
        proof {
            lemma_host_count(self@);
        }
        if !self.cidr.v6 && self.cidr.prefix_len < 31 {
            broadcast - 1
        } else {
            broadcast
        }
    }
}

} // verus!
