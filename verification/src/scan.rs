//! A scan of a whole network by one caller: every endpoint is probed in turn.

use crate::enumerate::{endpoints, Enumerator};
use crate::network::{Cidr, Network};
use crate::target::{address_text, socket_text, Endpoint, Target};
use vstd::prelude::*;

verus! {

/// What a probe of `endpoint` connects to: its address, a colon and its port.
pub open spec fn endpoint_text(endpoint: Endpoint) -> Seq<char> {
    socket_text(address_text(endpoint.addr), endpoint.port)
}

/// Whether `probe` was asked for `address` and said `answer`.
pub open spec fn probe_said<F: Fn(&str) -> bool>(probe: F, address: Seq<char>, answer: bool) -> bool {
    exists|text: &str| #[trigger] text@ == address && call_ensures(probe, (text,), answer)
}

/// The texts of those of the first `n` endpoints of `all` to which the answer
/// was yes, in their order.
pub open spec fn found_among(all: Seq<Endpoint>, answers: Seq<bool>, n: nat) -> Seq<Seq<char>>
    decreases n,
{
    if n == 0 {
        Seq::empty()
    } else {
        let before = found_among(all, answers, (n - 1) as nat);
        if answers[n - 1] {
            before.push(endpoint_text(all[n - 1]))
        } else {
            before
        }
    }
}

/// The texts that `found` holds.
pub open spec fn texts(found: Seq<String>) -> Seq<Seq<char>> {
    Seq::new(found.len(), |i: int| found[i]@)
}

/// Whether `found` is what a scan of `cidr` with `probe` brings when the
/// probes answer `answers`: the probe was asked once for every endpoint, in
/// the order of the enumeration, and `found` holds those it called open.
pub open spec fn scan_result<F: Fn(&str) -> bool>(
    probe: F,
    cidr: Cidr,
    answers: Seq<bool>,
    found: Seq<String>,
) -> bool {
    &&& answers.len() == endpoints(cidr).len()
    &&& forall|i: int|
        0 <= i < answers.len() ==> probe_said(
            probe,
            #[trigger] endpoint_text(endpoints(cidr)[i]),
            answers[i],
        )
    &&& texts(found) == found_among(endpoints(cidr), answers, answers.len())
}

/// Probes every port of every host of `range` with `probe`, and returns the
/// addresses, each a host and a port, that it found open, in the order of the
/// enumeration.
pub fn scan_range<F: Fn(&str) -> bool>(range: &Network, probe: F) -> (found: Vec<String>)
    requires
        forall|text: &str| call_requires(probe, (text,)),
    ensures
        exists|answers: Seq<bool>| scan_result(probe, range@, answers, found@),
{
    let mut found: Vec<String> = Vec::new();
    let mut walk = Enumerator::new(range);
    let ghost all = endpoints(range@);
    let ghost mut answers: Seq<bool> = Seq::empty();
    loop
        invariant
            all == endpoints(range@),
            forall|text: &str| call_requires(probe, (text,)),
            walk.wf(),
            answers.len() <= all.len(),
            walk@ == all.skip(answers.len() as int),
            forall|i: int|
                0 <= i < answers.len() ==> probe_said(
                    probe,
                    #[trigger] endpoint_text(all[i]),
                    answers[i],
                ),
            texts(found@) == found_among(all, answers, answers.len()),
        ensures
            scan_result(probe, range@, answers, found@),
        decreases walk@.len(),
    {
        let ghost n = answers.len();
        match walk.next() {
            None => {
                break ;
            },
            Some(endpoint) => {
                let address = Target::from_endpoint(endpoint).address();
                let text = address.as_str();
                let open = probe(text);
                proof {
                    let ghost earlier = answers;
                    answers = answers.push(open);
                    lemma_found_among_prefix(all, earlier, answers, n);
                }
                if open {
                    found.push(address);
                }
            },
        }
    }
    found
}

/// What was found among the first `n` endpoints depends on the first `n`
/// answers alone.
proof fn lemma_found_among_prefix(all: Seq<Endpoint>, a: Seq<bool>, b: Seq<bool>, n: nat)
    requires
        n <= a.len(),
        n <= b.len(),
        forall|i: int| 0 <= i < n ==> a[i] == b[i],
    ensures
        found_among(all, a, n) == found_among(all, b, n),
    decreases n,
{
    if n > 0 {
        lemma_found_among_prefix(all, a, b, (n - 1) as nat);
    }
}

} // verus!
