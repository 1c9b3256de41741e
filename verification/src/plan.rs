//! What a scan is asked to do, checked before anything is probed.

use crate::network::{cidr_parse, Network};
use vstd::prelude::*;

verus! {

/// Why a scan cannot start.
#[derive(Clone, Copy, Debug, PartialEq, Eq, Structural)]
pub enum PlanError {
    /// Neither a network nor a list of hosts was given.
    NothingToScan,
    /// The network is not written in CIDR notation.
    MalformedNetwork,
}

/// A scan that may start.
#[derive(Clone, Copy, Debug, PartialEq, Eq)]
pub struct ScanPlan {
    /// The network whose hosts are scanned on every port, if one was given.
    pub network: Option<Network>,
    /// Whether a list of hosts is scanned too.
    pub list: bool,
    /// The number of workers that probe.
    pub workers: usize,
    /// The number of targets that may wait for a worker.
    pub queue_capacity: usize,
}

/// The number of workers for a wish of `threads`: as many, and one at least.
pub open spec fn spec_worker_count(threads: usize) -> usize {
    if threads == 0 {
        1
    } else {
        threads
    }
}

/// The number of workers to start for a wish of `threads`.
pub fn worker_count(threads: usize) -> (workers: usize)
    ensures
        workers == spec_worker_count(threads),
{
    if threads == 0 {
        1
    } else {
        threads
    }
}

/// The length of the queue that feeds `threads` workers: one place for each
/// worker.
pub fn queue_capacity(threads: usize) -> (capacity: usize)
    ensures
        capacity == spec_worker_count(threads),
{
    worker_count(threads)
}

/// Checks what was asked for. A scan needs a network or a list; a network must
/// be written as the `ipnet` crate's parser reads it.
pub fn plan(network: Option<&str>, list: bool, threads: usize) -> (checked: Result<
    ScanPlan,
    PlanError,
>)
    ensures
        match network {
            None => if list {
                &&& checked matches Ok(p)
                &&& p.network is None
                &&& p.list
                &&& p.workers == spec_worker_count(threads)
                &&& p.queue_capacity == spec_worker_count(threads)
            } else {
                checked == Err::<ScanPlan, PlanError>(PlanError::NothingToScan)
            },
            Some(text) => match cidr_parse(text@) {
                Some(cidr) => {
                    &&& checked matches Ok(p)
                    &&& p.network matches Some(net)
                    &&& net@ == cidr
                    &&& p.list == list
                    &&& p.workers == spec_worker_count(threads)
                    &&& p.queue_capacity == spec_worker_count(threads)
                },
                None => checked == Err::<ScanPlan, PlanError>(PlanError::MalformedNetwork),
            },
        },
{
    let network = match network {
        None => {
            if !list {
                return Err(PlanError::NothingToScan);
            }
            None
        },
        Some(text) => match Network::parse(text) {
            Ok(net) => Some(net),
            Err(_) => {
                return Err(PlanError::MalformedNetwork);
            },
        },
    };
    Ok(ScanPlan { network, list, workers: worker_count(threads), queue_capacity: queue_capacity(threads) })
}

} // verus!
