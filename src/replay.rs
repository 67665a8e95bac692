use vstd::prelude::*;

use crate::error::HarnessError;
use crate::scheduler::{all_true, Action, Phase, Scheduler, TickOutcome};

verus! {

/// What every node reported at each step of one run: the input from which a
/// run is replayed deterministically.
pub struct RunRecord {
    pub setup_ok: bool,
    /// Per node, whether it spawned.
    pub spawn: Vec<bool>,
    /// Per round, then per node, what its tick returned.
    pub ticks: Vec<Vec<TickOutcome>>,
    /// Per round, then per node, whether its check held.
    pub checks: Vec<Vec<bool>>,
    /// Per node, whether its shutdown failed.
    pub shutdown_failed: Vec<bool>,
}

/// What a replayed run did.
pub struct RunReport {
    /// The terminal cause, or the number of completed rounds.
    pub outcome: Result<u32, HarnessError>,
    /// How many times the nodes were spawned.
    pub spawn_phases: u32,
    /// The round of each tick phase that was started, in order.
    pub tick_rounds: Vec<u32>,
    /// How many times the nodes were shut down.
    pub shutdown_phases: u32,
    /// How many nodes failed to shut down.
    pub shutdown_failures: usize,
}

impl RunRecord {
    /// Holds an entry for every node, and a tick and check entry for every node
    /// in every round up to the limit.
    pub open spec fn fits(&self, node_count: usize, max_rounds: u32) -> bool {
        &&& self.spawn@.len() == node_count
        &&& self.shutdown_failed@.len() == node_count
        &&& self.ticks@.len() >= max_rounds
        &&& self.checks@.len() >= max_rounds
        &&& forall|r: int| 0 <= r < max_rounds ==> #[trigger] self.ticks@[r]@.len() == node_count
        &&& forall|r: int| 0 <= r < max_rounds ==> #[trigger] self.checks@[r]@.len() == node_count
    }

    /// Setup, every spawn, every tick (each asking to go on) and every check
    /// succeeded.
    pub open spec fn all_succeed(&self, node_count: usize, max_rounds: u32) -> bool {
        &&& self.setup_ok
        &&& all_true(self.spawn@)
        &&& forall|r: int, i: int|
            0 <= r < max_rounds && 0 <= i < node_count ==> #[trigger] self.ticks@[r]@[i]
                == TickOutcome::Continue
        &&& forall|r: int, i: int|
            0 <= r < max_rounds && 0 <= i < node_count ==> #[trigger] self.checks@[r]@[i]
    }
}

/// Tick phases start at round 0 and go up one round at a time.
pub open spec fn in_round_order(rounds: Seq<u32>) -> bool {
    forall|i: int| 0 <= i < rounds.len() ==> rounds[i] == i
}

/// Replays a run of `node_count` nodes and at most `max_rounds` rounds from what
/// each node reported, driving the scheduler exactly as a live run does.
pub fn run_recorded(node_count: usize, max_rounds: u32, rec: &RunRecord) -> (rep: RunReport)
    requires
        rec.fits(node_count, max_rounds),
    ensures
        (node_count == 0 || max_rounds == 0) ==> rep.outcome == Err::<u32, HarnessError>(
            HarnessError::Configuration,
        ) && rep.spawn_phases == 0 && rep.tick_rounds@.len() == 0,
        node_count >= 1 && max_rounds >= 1 ==> {
            // setup failure: nothing is spawned, ticked or shut down
            &&& !rec.setup_ok ==> rep.outcome == Err::<u32, HarnessError>(HarnessError::Setup)
                && rep.spawn_phases == 0 && rep.tick_rounds@.len() == 0 && rep.shutdown_phases
                == 0
            // what was spawned is shut down exactly once
            &&& rep.spawn_phases == (if rec.setup_ok { 1u32 } else { 0u32 })
            &&& rep.shutdown_phases == rep.spawn_phases
            // barrier: one tick phase per round, in order, none skipped
            &&& in_round_order(rep.tick_rounds@)
            &&& rep.tick_rounds@.len() <= max_rounds
            &&& match rep.outcome {
                Ok(done) => done >= 1 && done <= max_rounds && rep.tick_rounds@.len() == done,
                Err(HarnessError::Round { round, .. }) => rep.tick_rounds@.len() == round + 1,
                // a failed check in round r: no tick of round r + 1
                Err(HarnessError::Check { round, node }) => rep.tick_rounds@.len() == round + 1
                    && node < node_count && !rec.checks@[round as int]@[node as int],
                Err(HarnessError::Spawn { node }) => rep.tick_rounds@.len() == 0 && node
                    < node_count && !rec.spawn@[node as int],
                _ => !rec.setup_ok,
            }
            // a run where everything succeeds completes every round
            &&& rec.all_succeed(node_count, max_rounds) ==> rep.outcome == Ok::<
                u32,
                HarnessError,
            >(max_rounds) && rep.tick_rounds@.len() == max_rounds
        },
{
    let mut rep = RunReport {
        outcome: Ok(0),
        spawn_phases: 0,
        tick_rounds: Vec::new(),
        shutdown_phases: 0,
        shutdown_failures: 0,
    };
    let mut s = match Scheduler::new(node_count, max_rounds) {
        Ok(s) => s,
        Err(e) => {
            rep.outcome = Err(e);
            return rep;
        },
    };
    let mut a = s.setup_done(rec.setup_ok);
    if a == Action::SpawnAll {
        rep.spawn_phases = 1;
        a = s.spawn_done(&rec.spawn);
    }
    loop
        invariant
            a == s.pending(),
            s.wf(),
            s.node_count == node_count,
            s.max_rounds == max_rounds,
            rec.fits(node_count, max_rounds),
            s.phase !is AwaitSetup && s.phase !is AwaitSpawn,
            rep.spawn_phases == (if rec.setup_ok { 1u32 } else { 0u32 }),
            !rec.setup_ok ==> s.phase is Finished && s.failure == Some(HarnessError::Setup)
                && rep.tick_rounds@.len() == 0 && rep.shutdown_phases == 0,
            rep.shutdown_phases == (if rec.setup_ok && s.phase is Finished { 1u32 } else { 0u32 }),
            in_round_order(rep.tick_rounds@),
            rep.tick_rounds@.len() <= max_rounds,
            s.phase is AwaitTicks ==> rep.tick_rounds@.len() == s.rounds_completed,
            s.phase is AwaitCheck ==> rep.tick_rounds@.len() == s.rounds_completed + 1,
            (s.phase is AwaitShutdown || s.phase is Finished) && s.failure is None ==> {
                &&& rep.tick_rounds@.len() == s.rounds_completed
                &&& s.rounds_completed >= 1
            },
            match s.failure {
                Some(HarnessError::Round { round, .. }) => rep.tick_rounds@.len() == round + 1,
                Some(HarnessError::Check { round, node }) => rep.tick_rounds@.len() == round + 1
                    && node < node_count && !rec.checks@[round as int]@[node as int],
                Some(HarnessError::Spawn { node }) => rep.tick_rounds@.len() == 0 && node
                    < node_count && !rec.spawn@[node as int],
                Some(_) => !rec.setup_ok,
                None => true,
            },
            rec.all_succeed(node_count, max_rounds) ==> {
                &&& s.failure is None
                &&& all_true(s.active@)
                &&& (s.phase is AwaitShutdown || s.phase is Finished) ==> s.rounds_completed
                    == max_rounds
            },
        ensures
            s.phase is Finished,
        decreases s.max_rounds - s.rounds_completed, s.phase_rank(),
    {
        match a {
            Action::RunTicks { round } => {
                rep.tick_rounds.push(round);
                let ghost active = s.active@;
                a = s.ticks_done(&rec.ticks[round as usize]);
                proof {
                    if rec.all_succeed(node_count, max_rounds) {
                        assert(s.active@ =~= active);
                    }
                }
            },
            Action::RunCheck { round, node } => {
                let passed = rec.checks[round as usize][node];
                proof {
                    if rec.all_succeed(node_count, max_rounds) {
                        assert(s.active@[0]);
                    }
                }
                a = s.check_done(passed);
            },
            Action::ShutdownAll => {
                rep.shutdown_phases = 1;
                a = s.shutdown_done(&rec.shutdown_failed);
            },
            _ => {
                break ;
            },
        }
    }
    rep.outcome = s.outcome();
    rep.shutdown_failures = s.shutdown_failures;
    rep
}

} // verus!
