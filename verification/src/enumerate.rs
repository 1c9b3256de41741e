//! The endpoints of a network, one after the other: every host address, and on
//! each every port, in ascending order.

use crate::network::{lemma_family_bounds, lemma_host_count, lemma_network_in_family};
use crate::network::{usable_host_count, Cidr, Network};
use crate::ports::PORT_MAX;
use crate::target::{Address, Endpoint};
use vstd::prelude::*;

verus! {

/// The address of the family of `cidr` with the value `value`.
pub open spec fn host_address(cidr: Cidr, value: nat) -> Address {
    if cidr.v6 {
        Address::V6(value as u128)
    } else {
        Address::V4(value as u32)
    }
}

/// The endpoint at place `i` of the enumeration of `cidr`: the ports of one
/// host follow each other, and then comes the next host.
pub open spec fn endpoint_at(cidr: Cidr, i: nat) -> Endpoint {
    Endpoint {
        addr: host_address(cidr, cidr.first_host() + i / (PORT_MAX as nat)),
        port: (1 + i % (PORT_MAX as nat)) as u16,
    }
}

/// The number of endpoints of `cidr`: `PORT_MAX` for each host.
pub open spec fn endpoint_count(cidr: Cidr) -> nat {
    cidr.host_count() * (PORT_MAX as nat)
}

/// All endpoints of `cidr`, in the order of the enumeration.
pub open spec fn endpoints(cidr: Cidr) -> Seq<Endpoint> {
    Seq::new(endpoint_count(cidr), |i: int| endpoint_at(cidr, i as nat))
}

/// A network has as many endpoints as its prefix length leaves hosts, times the
/// number of ports.
pub proof fn lemma_enumeration_size(cidr: Cidr)
    requires
        cidr.valid(),
    ensures
        endpoints(cidr).len() == usable_host_count(cidr.v6, cidr.prefix_len as nat) * 65535,
{
    lemma_host_count(cidr);
}

/// Every endpoint of the enumeration is a host of the network and a port from
/// 1 to `PORT_MAX`.
pub proof fn lemma_enumeration_within(cidr: Cidr, i: int)
    requires
        cidr.valid(),
        0 <= i < endpoints(cidr).len(),
    ensures
        endpoints(cidr)[i].addr.is_v6() == cidr.v6,
        cidr.first_host() <= endpoints(cidr)[i].addr.value() <= cidr.last_host(),
        1 <= endpoints(cidr)[i].port <= PORT_MAX,
{
    lemma_family_bounds();
    lemma_network_in_family(cidr);
    lemma_host_count(cidr);
}

/// The enumeration ascends: of two endpoints the earlier one has the lower
/// address or, on the same address, the lower port.
pub proof fn lemma_enumeration_ascends(cidr: Cidr, i: int, j: int)
    requires
        cidr.valid(),
        0 <= i < j < endpoints(cidr).len(),
    ensures
        ({
            let a = endpoints(cidr)[i];
            let b = endpoints(cidr)[j];
            a.addr.value() < b.addr.value() || (a.addr.value() == b.addr.value() && a.port
                < b.port)
        }),
{
    lemma_family_bounds();
    lemma_network_in_family(cidr);
    lemma_host_count(cidr);
}

/// No endpoint occurs twice in the enumeration.
pub proof fn lemma_enumeration_unique(cidr: Cidr, i: int, j: int)
    requires
        cidr.valid(),
        0 <= i < endpoints(cidr).len(),
        0 <= j < endpoints(cidr).len(),
        i != j,
    ensures
        endpoints(cidr)[i] != endpoints(cidr)[j],
{
    if i < j {
        lemma_enumeration_ascends(cidr, i, j);
    } else {
        lemma_enumeration_ascends(cidr, j, i);
    }
}

/// A walk over the endpoints of a network. It hands them out one by one and
/// cannot be wound back.
#[derive(Debug)]
pub struct Enumerator {
    cidr: Cidr,
    first: u128,
    last: u128,
    host: u128,
    port: u16,
    done: bool,
}

impl Enumerator {
    /// The fields fit together: the walk stands on a host of the network and
    /// on a port.
    pub closed spec fn wf(&self) -> bool {
        &&& self.cidr.valid()
        &&& self.first == self.cidr.first_host()
        &&& self.last == self.cidr.last_host()
        &&& self.first <= self.host <= self.last
        &&& 1 <= self.port
    }

    /// The network that is walked over.
    pub closed spec fn network(&self) -> Cidr {
        self.cidr
    }

    /// The number of endpoints handed out so far.
    spec fn position(&self) -> nat {
        if self.done {
            endpoint_count(self.cidr)
        } else {
            ((self.host - self.first) * 65535 + (self.port - 1)) as nat
        }
    }

    /// Starts a walk over the endpoints of `net`.
    pub fn new(net: &Network) -> (walk: Enumerator)
        ensures
            net@.valid(),
            walk.wf(),
            walk.network() == net@,
            walk@ == endpoints(net@),
    {
        let first = net.first_host();
        let last = net.last_host();
        proof {
            lemma_host_count(net@);
        }
        Enumerator { cidr: net.parts(), first, last, host: first, port: 1, done: false }
    }

    /// Hands out the next endpoint, or `None` when all have been handed out.
    pub fn next(&mut self) -> (item: Option<Endpoint>)
        requires
            old(self).wf(),
        ensures
            final(self).wf(),
            final(self).network() == old(self).network(),
            match item {
                Some(endpoint) => {
                    &&& old(self)@.len() > 0
                    &&& endpoint == old(self)@[0]
                    &&& final(self)@ == old(self)@.drop_first()
                },
                None => old(self)@.len() == 0 && final(self)@ == old(self)@,
            },
    {
        if self.done {
            return None;
        }
        let addr = if self.cidr.v6 {
            Address::V6(self.host)
        } else {
            Address::V4(self.host as u32)
        };
        let endpoint = Endpoint { addr, port: self.port };
        if self.port < PORT_MAX {
            self.port = self.port + 1;
        } else if self.host < self.last {
            self.host = self.host + 1;
            self.port = 1;
        } else {
            self.done = true;
        }
        Some(endpoint)
    }
}

impl View for Enumerator {
    type V = Seq<Endpoint>;

    /// The endpoints that are still to come, in order.
    closed spec fn view(&self) -> Seq<Endpoint> {
        endpoints(self.cidr).skip(self.position() as int)
    }
}

} // verus!
