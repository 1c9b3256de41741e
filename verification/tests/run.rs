use ports_scanner::network::Network;
use ports_scanner::plan::{plan, ScanPlan};
use ports_scanner::run::{Run, RunAction, RunPhase};

fn actions_of(plan: ScanPlan) -> Vec<RunAction> {
    let mut run = Run::begin(plan);
    let mut actions = Vec::new();
    loop {
        let action = run.action();
        actions.push(action);
        if let RunAction::Exit(_) = action {
            return actions;
        }
        run.step(true);
        assert!(actions.len() < 10_000);
    }
}

fn repeat(action: RunAction, n: usize) -> Vec<RunAction> {
    vec![action; n]
}

#[test]
fn a_run_begins_by_starting_workers() {
    let run = Run::begin(plan(None, true, 4).unwrap());
    assert_eq!(run.phase, RunPhase::Starting(0));
    assert_eq!(run.action(), RunAction::StartWorker);
}

#[test]
fn a_run_of_a_network_and_a_list_goes_its_course() {
    let checked = plan(Some("10.0.0.0/30"), true, 3).unwrap();
    let net = Network::parse("10.0.0.0/30").unwrap();
    let mut expected = repeat(RunAction::StartWorker, 3);
    expected.push(RunAction::FeedNetwork(net));
    expected.push(RunAction::FeedList);
    expected.push(RunAction::CloseQueue);
    expected.extend(repeat(RunAction::JoinWorker, 3));
    expected.push(RunAction::Exit(true));
    assert_eq!(actions_of(checked), expected);
}

#[test]
fn a_run_of_a_network_alone_feeds_no_list() {
    let checked = plan(Some("fd00::/64"), false, 2).unwrap();
    let net = Network::parse("fd00::/64").unwrap();
    let mut expected = repeat(RunAction::StartWorker, 2);
    expected.push(RunAction::FeedNetwork(net));
    expected.push(RunAction::CloseQueue);
    expected.extend(repeat(RunAction::JoinWorker, 2));
    expected.push(RunAction::Exit(true));
    assert_eq!(actions_of(checked), expected);
}

#[test]
fn a_run_of_a_list_alone_feeds_no_network() {
    let checked = plan(None, true, 1).unwrap();
    let expected = vec![
        RunAction::StartWorker,
        RunAction::FeedList,
        RunAction::CloseQueue,
        RunAction::JoinWorker,
        RunAction::Exit(true),
    ];
    assert_eq!(actions_of(checked), expected);
}

#[test]
fn a_run_has_one_worker_at_least() {
    let starved = ScanPlan { network: None, list: true, workers: 0, queue_capacity: 0 };
    let expected = vec![
        RunAction::StartWorker,
        RunAction::FeedList,
        RunAction::CloseQueue,
        RunAction::JoinWorker,
        RunAction::Exit(true),
    ];
    assert_eq!(actions_of(starved), expected);
}

#[test]
fn a_run_starts_and_joins_as_many_workers_as_were_planned() {
    for threads in [1usize, 2, 8, 32, 128] {
        let actions = actions_of(plan(None, true, threads).unwrap());
        assert_eq!(actions.len(), 2 * threads + 3);
        assert!(actions[..threads].iter().all(|a| *a == RunAction::StartWorker));
        assert_eq!(actions[threads], RunAction::FeedList);
        assert_eq!(actions[threads + 1], RunAction::CloseQueue);
        assert!(actions[threads + 2..2 * threads + 2].iter().all(|a| *a == RunAction::JoinWorker));
        assert_eq!(actions[2 * threads + 2], RunAction::Exit(true));
    }
}

#[test]
fn a_failure_ends_a_run_wherever_it_stands() {
    let checked = plan(Some("10.0.0.0/30"), true, 2).unwrap();
    for good_steps in 0..7 {
        let mut run = Run::begin(checked);
        for _ in 0..good_steps {
            run.step(true);
        }
        assert!(run.action() != RunAction::Exit(true));
        run.step(false);
        assert_eq!(run.phase, RunPhase::Over(false));
        assert_eq!(run.action(), RunAction::Exit(false));
    }
}

#[test]
fn a_run_that_is_over_stays_over() {
    let checked = plan(None, true, 1).unwrap();
    let mut run = Run::begin(checked);
    for _ in 0..4 {
        run.step(true);
    }
    assert_eq!(run.phase, RunPhase::Over(true));
    run.step(false);
    assert_eq!(run.phase, RunPhase::Over(true));
    run.step(true);
    assert_eq!(run.phase, RunPhase::Over(true));
    let mut run = Run::begin(checked);
    run.step(false);
    run.step(true);
    assert_eq!(run.phase, RunPhase::Over(false));
}

#[test]
fn a_step_leaves_the_plan_as_it_is() {
    let checked = plan(Some("10.0.0.0/30"), true, 2).unwrap();
    let mut run = Run::begin(checked);
    for _ in 0..10 {
        run.step(true);
        assert_eq!(run.plan, checked);
    }
}
