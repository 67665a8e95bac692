use example_project::error::HarnessError;
use example_project::replay::{run_recorded, RunRecord};
use example_project::scheduler::{Action, Builder, Phase, Scheduler, TickOutcome};

fn record(n: usize, rounds: usize) -> RunRecord {
    RunRecord {
        setup_ok: true,
        spawn: vec![true; n],
        ticks: vec![vec![TickOutcome::Continue; n]; rounds],
        checks: vec![vec![true; n]; rounds],
        shutdown_failed: vec![false; n],
    }
}

#[test]
fn zero_nodes_is_a_configuration_error() {
    assert!(matches!(Scheduler::new(0, 3), Err(HarnessError::Configuration)));
    let rep = run_recorded(0, 3, &record(0, 3));
    assert_eq!(rep.outcome, Err(HarnessError::Configuration));
    assert_eq!(rep.spawn_phases, 0);
}

#[test]
fn zero_rounds_is_a_configuration_error() {
    assert!(matches!(Scheduler::new(4, 0), Err(HarnessError::Configuration)));
    let rep = run_recorded(4, 0, &record(4, 0));
    assert_eq!(rep.outcome, Err(HarnessError::Configuration));
}

#[test]
fn noop_run_completes_every_round() {
    for (n, r) in [(1usize, 1u32), (2, 2), (3, 5), (8, 4)] {
        let rep = run_recorded(n, r, &record(n, r as usize));
        assert_eq!(rep.outcome, Ok(r));
        assert_eq!(rep.spawn_phases, 1);
        assert_eq!(rep.shutdown_phases, 1);
        let expected: Vec<u32> = (0..r).collect();
        assert_eq!(rep.tick_rounds, expected);
    }
}

#[test]
fn failed_setup_spawns_nothing() {
    let mut rec = record(8, 3);
    rec.setup_ok = false;
    let rep = run_recorded(8, 3, &rec);
    assert_eq!(rep.outcome, Err(HarnessError::Setup));
    assert_eq!(rep.spawn_phases, 0);
    assert_eq!(rep.shutdown_phases, 0);
    assert!(rep.tick_rounds.is_empty());

    let mut s = Scheduler::new(8, 3).unwrap();
    assert_eq!(s.setup_done(false), Action::Finish);
    assert_eq!(s.outcome(), Err(HarnessError::Setup));
}

#[test]
fn first_failed_spawn_is_reported_and_nodes_shut_down() {
    let mut rec = record(5, 3);
    rec.spawn[3] = false;
    rec.spawn[1] = false;
    let rep = run_recorded(5, 3, &rec);
    assert_eq!(rep.outcome, Err(HarnessError::Spawn { node: 1 }));
    assert!(rep.tick_rounds.is_empty());
    assert_eq!(rep.shutdown_phases, 1);
}

#[test]
fn first_failed_tick_is_reported() {
    let mut rec = record(4, 5);
    rec.ticks[2][3] = TickOutcome::Failed;
    rec.ticks[2][2] = TickOutcome::Failed;
    let rep = run_recorded(4, 5, &rec);
    assert_eq!(rep.outcome, Err(HarnessError::Round { round: 2, node: 2 }));
    assert_eq!(rep.tick_rounds, vec![0, 1, 2]);
    assert_eq!(rep.shutdown_phases, 1);
}

#[test]
fn failed_check_ends_the_run_before_the_next_round() {
    let mut rec = record(4, 6);
    rec.checks[1][2] = false;
    rec.checks[1][3] = false;
    rec.checks[2][0] = false;
    let rep = run_recorded(4, 6, &rec);
    assert_eq!(rep.outcome, Err(HarnessError::Check { round: 1, node: 2 }));
    assert_eq!(rep.tick_rounds, vec![0, 1]);
    assert_eq!(rep.shutdown_phases, 1);
}

#[test]
fn failure_of_an_opted_out_node_is_ignored() {
    let mut rec = record(2, 3);
    rec.ticks[0][1] = TickOutcome::Stop;
    rec.ticks[1][1] = TickOutcome::Failed;
    let rep = run_recorded(2, 3, &rec);
    assert_eq!(rep.outcome, Ok(3));
}

#[test]
fn run_ends_when_every_node_opts_out() {
    let mut rec = record(3, 10);
    rec.ticks[0][0] = TickOutcome::Stop;
    rec.ticks[1][1] = TickOutcome::Stop;
    rec.ticks[1][2] = TickOutcome::Stop;
    let rep = run_recorded(3, 10, &rec);
    assert_eq!(rep.outcome, Ok(2));
    assert_eq!(rep.tick_rounds, vec![0, 1]);
    assert_eq!(rep.shutdown_phases, 1);
}

#[test]
fn shutdown_failures_are_counted_but_not_escalated() {
    let mut rec = record(4, 2);
    rec.shutdown_failed[0] = true;
    rec.shutdown_failed[3] = true;
    let rep = run_recorded(4, 2, &rec);
    assert_eq!(rep.outcome, Ok(2));
    assert_eq!(rep.shutdown_failures, 2);

    let mut rec = record(4, 2);
    rec.checks[0][1] = false;
    rec.shutdown_failed[2] = true;
    let rep = run_recorded(4, 2, &rec);
    assert_eq!(rep.outcome, Err(HarnessError::Check { round: 0, node: 1 }));
    assert_eq!(rep.shutdown_failures, 1);
}

#[test]
fn scheduler_steps_through_a_round() {
    let mut s = Scheduler::new(2, 2).unwrap();
    assert_eq!(s.phase, Phase::AwaitSetup);
    assert_eq!(s.setup_done(true), Action::SpawnAll);
    assert_eq!(s.spawn_done(&vec![true, true]), Action::RunTicks { round: 0 });
    let ticks = vec![TickOutcome::Continue, TickOutcome::Continue];
    assert_eq!(s.ticks_done(&ticks), Action::RunCheck { round: 0, node: 0 });
    assert_eq!(s.check_done(true), Action::RunCheck { round: 0, node: 1 });
    assert_eq!(s.check_done(true), Action::RunTicks { round: 1 });
    assert_eq!(s.rounds_completed, 1);
    assert_eq!(s.ticks_done(&ticks), Action::RunCheck { round: 1, node: 0 });
    assert_eq!(s.check_done(true), Action::RunCheck { round: 1, node: 1 });
    assert_eq!(s.check_done(true), Action::ShutdownAll);
    assert_eq!(s.shutdown_done(&vec![false, false]), Action::Finish);
    assert_eq!(s.outcome(), Ok(2));
}

#[test]
fn builder_needs_nodes_and_rounds() {
    assert!(matches!(Builder::new().build(), Err(HarnessError::Configuration)));
    assert!(matches!(Builder::new().spawn(2).build(), Err(HarnessError::Configuration)));
    assert!(matches!(Builder::new().rounds(2).build(), Err(HarnessError::Configuration)));
    let s = Builder::new().spawn(2).rounds(3).build().unwrap();
    assert_eq!((s.node_count, s.max_rounds), (2, 3));
    assert_eq!(s.phase, Phase::AwaitSetup);
    assert!(s.is_active(0) && s.is_active(1));
}
