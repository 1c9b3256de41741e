//! The course of a scan: the workers are started, the targets are fed to the
//! queue, the queue is closed, and the workers are waited for. Starting,
//! feeding, closing and waiting are done by whoever drives the run; what comes
//! next is decided here.

use crate::network::Network;
use crate::plan::{spec_worker_count, ScanPlan};
use vstd::prelude::*;

verus! {

/// Where a run stands.
#[derive(Clone, Copy, Debug, PartialEq, Eq)]
pub enum RunPhase {
    /// Workers are being started; so many are running.
    Starting(usize),
    /// The endpoints of this network are being fed to the queue.
    FeedingNetwork(Network),
    /// The hosts of the list are being fed to the queue.
    FeedingList,
    /// All targets are in the queue, which is about to be closed.
    Closing,
    /// The workers are being waited for; so many have returned.
    Joining(usize),
    /// The run is over, well or not.
    Over(bool),
}

/// What the driver of a run has to do next.
#[derive(Clone, Copy, Debug, PartialEq, Eq)]
pub enum RunAction {
    /// Start one more worker on the queue.
    StartWorker,
    /// Send every endpoint of the network to the queue, in order.
    FeedNetwork(Network),
    /// Send every host of the list to the queue, in order.
    FeedList,
    /// Close the queue.
    CloseQueue,
    /// Wait for one more worker to return.
    JoinWorker,
    /// Leave, with success or with failure.
    Exit(bool),
}

/// A run: what was asked for, and where it stands.
#[derive(Clone, Copy, Debug, PartialEq, Eq)]
pub struct Run {
    pub plan: ScanPlan,
    pub phase: RunPhase,
}

/// The phase in which feeding begins: with the network where there is one,
/// else with the list, and with the closing where there is nothing to feed.
pub open spec fn first_feed(plan: ScanPlan) -> RunPhase {
    match plan.network {
        Some(net) => RunPhase::FeedingNetwork(net),
        None => after_network(plan),
    }
}

/// The phase that follows the feeding of the network.
pub open spec fn after_network(plan: ScanPlan) -> RunPhase {
    if plan.list {
        RunPhase::FeedingList
    } else {
        RunPhase::Closing
    }
}

/// The number of workers of a run: as many as the plan says, and one at least.
pub open spec fn worker_total(plan: ScanPlan) -> nat {
    spec_worker_count(plan.workers) as nat
}

/// The phase after what was to do in `phase` has been done; `ok` says whether
/// it went well. Whatever fails ends the run. Otherwise the workers are started
/// first, all of them; then the network is fed and then the list; then the
/// queue is closed; then the workers are waited for, all of them.
pub open spec fn next_phase(plan: ScanPlan, phase: RunPhase, ok: bool) -> RunPhase {
    match phase {
        RunPhase::Over(well) => RunPhase::Over(well),
        _ => if !ok {
            RunPhase::Over(false)
        } else {
            match phase {
                RunPhase::Starting(n) => if n + 1 < worker_total(plan) {
                    RunPhase::Starting((n + 1) as usize)
                } else {
                    first_feed(plan)
                },
                RunPhase::FeedingNetwork(_) => after_network(plan),
                RunPhase::FeedingList => RunPhase::Closing,
                RunPhase::Closing => RunPhase::Joining(0),
                RunPhase::Joining(n) => if n + 1 < worker_total(plan) {
                    RunPhase::Joining((n + 1) as usize)
                } else {
                    RunPhase::Over(true)
                },
                RunPhase::Over(well) => RunPhase::Over(well),
            }
        },
    }
}

/// What is to do in `phase`.
pub open spec fn action_in(phase: RunPhase) -> RunAction {
    match phase {
        RunPhase::Starting(_) => RunAction::StartWorker,
        RunPhase::FeedingNetwork(net) => RunAction::FeedNetwork(net),
        RunPhase::FeedingList => RunAction::FeedList,
        RunPhase::Closing => RunAction::CloseQueue,
        RunPhase::Joining(_) => RunAction::JoinWorker,
        RunPhase::Over(well) => RunAction::Exit(well),
    }
}

impl Run {
    /// A run of `plan` that has not done anything yet.
    pub fn begin(plan: ScanPlan) -> (run: Run)
        ensures
            run.plan == plan,
            run.phase == RunPhase::Starting(0),
    {
        Run { plan, phase: RunPhase::Starting(0) }
    }

    /// What is to do next.
    pub fn action(&self) -> (action: RunAction)
        ensures
            action == action_in(self.phase),
    {
        match self.phase {
            RunPhase::Starting(_) => RunAction::StartWorker,
            RunPhase::FeedingNetwork(net) => RunAction::FeedNetwork(net),
            RunPhase::FeedingList => RunAction::FeedList,
            RunPhase::Closing => RunAction::CloseQueue,
            RunPhase::Joining(_) => RunAction::JoinWorker,
            RunPhase::Over(well) => RunAction::Exit(well),
        }
    }

    /// Takes note that what was to do has been done, well or not.
    pub fn step(&mut self, ok: bool)
        ensures
            final(self).plan == old(self).plan,
            final(self).phase == next_phase(old(self).plan, old(self).phase, ok),
    {
        let workers = if self.plan.workers == 0 {
            1
        } else {
            self.plan.workers
        };
        let feed_list = if self.plan.list {
            RunPhase::FeedingList
        } else {
            RunPhase::Closing
        };
        self.phase = match self.phase {
            RunPhase::Over(well) => RunPhase::Over(well),
            _ if !ok => RunPhase::Over(false),
            RunPhase::Starting(n) => if n < workers - 1 {
                RunPhase::Starting(n + 1)
            } else {
                match self.plan.network {
                    Some(net) => RunPhase::FeedingNetwork(net),
                    None => feed_list,
                }
            },
            RunPhase::FeedingNetwork(_) => feed_list,
            RunPhase::FeedingList => RunPhase::Closing,
            RunPhase::Closing => RunPhase::Joining(0),
            RunPhase::Joining(n) => if n < workers - 1 {
                RunPhase::Joining(n + 1)
            } else {
                RunPhase::Over(true)
            },
        };
    }
}

/// The number of feedings of a run: one for the network and one for the list,
/// where there is one.
pub open spec fn feed_total(plan: ScanPlan) -> nat {
    (if plan.network is Some {
        1nat
    } else {
        0nat
    }) + (if plan.list {
        1nat
    } else {
        0nat
    })
}

/// The phase of a run in which `done` things have been done and all went well.
pub open spec fn phase_after(plan: ScanPlan, done: nat) -> RunPhase
    decreases done,
{
    if done == 0 {
        RunPhase::Starting(0)
    } else {
        next_phase(plan, phase_after(plan, (done - 1) as nat), true)
    }
}

/// What is to do at place `k` of a run in which all goes well: first every
/// worker is started, then the network is fed and then the list, then the
/// queue is closed, then every worker is waited for, and then the run leaves
/// with success.
pub open spec fn scheduled(plan: ScanPlan, k: nat) -> RunAction {
    let workers = worker_total(plan);
    let feeds = feed_total(plan);
    if k < workers {
        RunAction::StartWorker
    } else if k < workers + feeds {
        match plan.network {
            Some(net) => if k == workers {
                RunAction::FeedNetwork(net)
            } else {
                RunAction::FeedList
            },
            None => RunAction::FeedList,
        }
    } else if k == workers + feeds {
        RunAction::CloseQueue
    } else if k <= 2 * workers + feeds {
        RunAction::JoinWorker
    } else {
        RunAction::Exit(true)
    }
}

/// The phase at place `k` of a run in which all goes well.
spec fn phase_at(plan: ScanPlan, k: nat) -> RunPhase {
    let workers = worker_total(plan);
    let feeds = feed_total(plan);
    if k < workers {
        RunPhase::Starting(k as usize)
    } else if k < workers + feeds {
        match plan.network {
            Some(net) => if k == workers {
                RunPhase::FeedingNetwork(net)
            } else {
                RunPhase::FeedingList
            },
            None => RunPhase::FeedingList,
        }
    } else if k == workers + feeds {
        RunPhase::Closing
    } else if k <= 2 * workers + feeds {
        RunPhase::Joining((k - workers - feeds - 1) as usize)
    } else {
        RunPhase::Over(true)
    }
}

proof fn lemma_phase_after(plan: ScanPlan, k: nat)
    ensures
        phase_after(plan, k) == phase_at(plan, k),
    decreases k,
{
    if k > 0 {
        lemma_phase_after(plan, (k - 1) as nat);
    }
}

/// A run in which all goes well follows the schedule: every worker is started
/// before anything is fed, the queue is closed once, after all feeding, and
/// the run leaves only when every worker has been waited for.
pub proof fn lemma_run_follows_schedule(plan: ScanPlan, k: nat)
    ensures
        action_in(phase_after(plan, k)) == scheduled(plan, k),
{
    lemma_phase_after(plan, k);
}

/// A failure ends a run at once, and a run that is over stays as it is.
pub proof fn lemma_failure_ends_run(plan: ScanPlan, phase: RunPhase, ok: bool)
    ensures
        !(phase is Over) ==> next_phase(plan, phase, false) == RunPhase::Over(false),
        phase is Over ==> next_phase(plan, phase, ok) == phase,
        next_phase(plan, phase, ok) == RunPhase::Over(true) ==> ok || phase == RunPhase::Over(
            true,
        ),
{
}

} // verus!
