use vstd::prelude::*;

use crate::error::HarnessError;

verus! {

/// What a node's tick reported for one round.
#[derive(Clone, Copy, Debug, PartialEq, Eq, Structural)]
pub enum TickOutcome {
    /// The tick succeeded and the node takes part in the next round.
    Continue,
    /// The tick succeeded and the node opts out of later ticks.
    Stop,
    /// The tick failed; this is fatal for the run.
    Failed,
}

/// Where the run stands, that is which report the scheduler waits for.
#[derive(Clone, Copy, Debug, PartialEq, Eq, Structural)]
pub enum Phase {
    /// Waits for the setup-data factory.
    AwaitSetup,
    /// Waits for every node's spawn result.
    AwaitSpawn,
    /// Waits for the tick phase of the current round to resolve as a whole.
    AwaitTicks,
    /// Waits for the check of node `next` in the current round.
    AwaitCheck { next: usize },
    /// Waits for every spawned node to be shut down.
    AwaitShutdown,
    /// The run is over.
    Finished,
}

/// The work that the caller performs next.
#[derive(Clone, Copy, Debug, PartialEq, Eq, Structural)]
pub enum Action {
    /// Spawn every node, concurrently, and report each result.
    SpawnAll,
    /// Run the tick of every active node for this round, concurrently, and
    /// report once all of them have resolved.
    RunTicks { round: u32 },
    /// Run the check of one node against the end state of this round.
    RunCheck { round: u32, node: usize },
    /// Shut down every spawned node, each independently, and report.
    ShutdownAll,
    /// The run is over; read its outcome.
    Finish,
}

/// Collects the parameters of a run: how many nodes and how many rounds.
pub struct Builder {
    pub node_count: usize,
    pub max_rounds: u32,
}

impl Builder {
    /// A builder with no nodes and no rounds yet.
    pub fn new() -> (b: Builder)
        ensures
            b.node_count == 0 && b.max_rounds == 0,
    {
        Builder { node_count: 0, max_rounds: 0 }
    }

    /// Sets the number of nodes to spawn.
    pub fn spawn(self, node_count: usize) -> (b: Builder)
        ensures
            b.node_count == node_count && b.max_rounds == self.max_rounds,
    {
        Builder { node_count, max_rounds: self.max_rounds }
    }

    /// Sets the round limit.
    pub fn rounds(self, max_rounds: u32) -> (b: Builder)
        ensures
            b.node_count == self.node_count && b.max_rounds == max_rounds,
    {
        Builder { node_count: self.node_count, max_rounds }
    }

    /// Validates the parameters and returns a scheduler that waits for setup.
    pub fn build(&self) -> (r: Result<Scheduler, HarnessError>)
        ensures
            (self.node_count == 0 || self.max_rounds == 0) <==> r is Err,
            r matches Err(e) ==> e == HarnessError::Configuration,
            r matches Ok(s) ==> {
                &&& s.wf()
                &&& s.node_count == self.node_count && s.max_rounds == self.max_rounds
                &&& s.phase == Phase::AwaitSetup
                &&& s.rounds_completed == 0
                &&& all_true(s.active@)
                &&& s.failure is None
            },
    {
        Scheduler::new(self.node_count, self.max_rounds)
    }
}

/// The round scheduler: a state machine from reported events to next actions.
pub struct Scheduler {
    pub node_count: usize,
    pub max_rounds: u32,
    pub phase: Phase,
    /// Rounds whose tick and check phases both completed.
    pub rounds_completed: u32,
    /// Nodes that have not opted out of later ticks.
    pub active: Vec<bool>,
    /// The first fatal error, if any.
    pub failure: Option<HarnessError>,
    /// How many nodes reported a failed shutdown.
    pub shutdown_failures: usize,
}

/// Index of the first `false` in `s`, when `s` holds one.
pub open spec fn is_first_false(s: Seq<bool>, i: int) -> bool {
    0 <= i < s.len() && !s[i] && forall|j: int| 0 <= j < i ==> s[j]
}

pub open spec fn all_true(s: Seq<bool>) -> bool {
    forall|j: int| 0 <= j < s.len() ==> s[j]
}

pub open spec fn count_true(s: Seq<bool>) -> nat
    decreases s.len(),
{
    if s.len() == 0 {
        0
    } else {
        count_true(s.drop_last()) + if s.last() { 1nat } else { 0nat }
    }
}

/// Whether the tick of node `i` failed while the node was active.
pub open spec fn failed_at(active: Seq<bool>, ticks: Seq<TickOutcome>, i: int) -> bool {
    active[i] && ticks[i] == TickOutcome::Failed
}

/// Node `i` is the first active node whose tick failed.
pub open spec fn is_first_tick_failure(active: Seq<bool>, ticks: Seq<TickOutcome>, i: int) -> bool {
    0 <= i < ticks.len() && failed_at(active, ticks, i) && forall|j: int|
        0 <= j < i ==> !failed_at(active, ticks, j)
}

pub open spec fn any_tick_failed(active: Seq<bool>, ticks: Seq<TickOutcome>) -> bool {
    exists|i: int| 0 <= i < ticks.len() && failed_at(active, ticks, i)
}

pub open spec fn any_active(active: Seq<bool>) -> bool {
    exists|i: int| 0 <= i < active.len() && active[i]
}

/// Which nodes stay active after a round without failed ticks.
pub open spec fn still_active(active: Seq<bool>, ticks: Seq<TickOutcome>) -> Seq<bool> {
    Seq::new(active.len(), |i: int| active[i] && ticks[i] != TickOutcome::Stop)
}

impl Scheduler {
    pub open spec fn wf(&self) -> bool {
        &&& self.node_count >= 1
        &&& self.max_rounds >= 1
        &&& self.active@.len() == self.node_count
        &&& self.rounds_completed <= self.max_rounds
        &&& (self.phase is AwaitSetup || self.phase is AwaitSpawn) ==> self.rounds_completed == 0
        &&& (self.phase is AwaitTicks || self.phase is AwaitCheck) ==> self.rounds_completed
            < self.max_rounds
        &&& self.phase is AwaitCheck ==> self.phase->next < self.node_count
        &&& self.failure is Some ==> (self.phase is AwaitShutdown || self.phase is Finished)
    }

    /// The action that the scheduler waits to see carried out, once setup and
    /// spawning are over.
    pub open spec fn pending(&self) -> Action {
        match self.phase {
            Phase::AwaitTicks => Action::RunTicks { round: self.rounds_completed },
            Phase::AwaitCheck { next } => Action::RunCheck { round: self.rounds_completed, node: next },
            Phase::AwaitShutdown => Action::ShutdownAll,
            _ => Action::Finish,
        }
    }

    /// Ranks the phases within one round, latest lowest; with the number of
    /// rounds left it measures how far the run is from its end.
    pub open spec fn phase_rank(&self) -> int {
        match self.phase {
            Phase::AwaitTicks => self.node_count + 3,
            Phase::AwaitCheck { next } => self.node_count - next + 2,
            Phase::AwaitShutdown => 1,
            _ => 0,
        }
    }

    /// The round that is running, or that runs next.
    pub open spec fn round(&self) -> u32 {
        self.rounds_completed
    }

    pub open spec fn same_config(&self, other: &Scheduler) -> bool {
        self.node_count == other.node_count && self.max_rounds == other.max_rounds
    }

    /// Validates the configuration and starts a run that waits for its setup data.
    pub fn new(node_count: usize, max_rounds: u32) -> (r: Result<Scheduler, HarnessError>)
        ensures
            match r {
                Ok(s) => {
                    &&& node_count >= 1 && max_rounds >= 1
                    &&& s.wf()
                    &&& s.node_count == node_count && s.max_rounds == max_rounds
                    &&& s.phase == Phase::AwaitSetup
                    &&& s.rounds_completed == 0
                    &&& all_true(s.active@)
                    &&& s.failure is None
                    &&& s.shutdown_failures == 0
                },
                Err(e) => (node_count == 0 || max_rounds == 0) && e == HarnessError::Configuration,
            },
    {
        if node_count == 0 || max_rounds == 0 {
            return Err(HarnessError::Configuration);
        }
        let mut active: Vec<bool> = Vec::new();
        let mut i: usize = 0;
        while i < node_count
            invariant
                i <= node_count,
                active@.len() == i,
                all_true(active@),
            decreases node_count - i,
        {
            active.push(true);
            i += 1;
        }
        Ok(Scheduler {
            node_count,
            max_rounds,
            phase: Phase::AwaitSetup,
            rounds_completed: 0,
            active,
            failure: None,
            shutdown_failures: 0,
        })
    }

    /// Reports whether the setup-data factory succeeded. On failure the run ends
    /// before any node is spawned.
    pub fn setup_done(&mut self, ok: bool) -> (a: Action)
        requires
            old(self).wf(),
            old(self).phase == Phase::AwaitSetup,
        ensures
            final(self).wf(),
            final(self).same_config(old(self)),
            final(self).rounds_completed == 0,
            final(self).active == old(self).active,
            final(self).shutdown_failures == old(self).shutdown_failures,
            ok ==> a == Action::SpawnAll && final(self).phase == Phase::AwaitSpawn
                && final(self).failure is None,
            !ok ==> a == Action::Finish && final(self).phase == Phase::Finished
                && final(self).failure == Some(HarnessError::Setup),
    {
        if ok {
            self.phase = Phase::AwaitSpawn;
            Action::SpawnAll
        } else {
            self.failure = Some(HarnessError::Setup);
            self.phase = Phase::Finished;
            Action::Finish
        }
    }

    /// Reports the spawn result of every node (`true` for success). The first
    /// failing node, by index, becomes the terminal cause and every node is shut
    /// down; otherwise round 0 begins.
    pub fn spawn_done(&mut self, results: &Vec<bool>) -> (a: Action)
        requires
            old(self).wf(),
            old(self).phase == Phase::AwaitSpawn,
            results@.len() == old(self).node_count,
        ensures
            final(self).wf(),
            final(self).same_config(old(self)),
            final(self).rounds_completed == 0,
            final(self).active == old(self).active,
            final(self).shutdown_failures == old(self).shutdown_failures,
            all_true(results@) ==> a == (Action::RunTicks { round: 0 }) && final(self).phase
                == Phase::AwaitTicks && final(self).failure is None,
            !all_true(results@) ==> {
                &&& a == Action::ShutdownAll
                &&& final(self).phase == Phase::AwaitShutdown
                &&& final(self).failure matches Some(HarnessError::Spawn { node })
                &&& is_first_false(results@, node as int)
            },
    {
        let mut i: usize = 0;
        while i < results.len()
            invariant
                i <= results@.len(),
                self.wf(),
                self.phase == old(self).phase,
                old(self).wf(),
                old(self).phase == Phase::AwaitSpawn,
                self.node_count == old(self).node_count,
                self.max_rounds == old(self).max_rounds,
                self.rounds_completed == old(self).rounds_completed,
                self.active == old(self).active,
                self.failure == old(self).failure,
                self.shutdown_failures == old(self).shutdown_failures,
                forall|j: int| 0 <= j < i ==> results@[j],
            decreases results@.len() - i,
        {
            if !results[i] {
                self.failure = Some(HarnessError::Spawn { node: i });
                self.phase = Phase::AwaitShutdown;
                return Action::ShutdownAll;
            }
            i += 1;
        }
        self.phase = Phase::AwaitTicks;
        Action::RunTicks { round: 0 }
    }

    /// Reports, once every tick of the round has resolved, what each node's tick
    /// returned; the entries of nodes that were not ticked are ignored. The first
    /// failed tick, by node index, becomes the terminal cause. Otherwise nodes that
    /// returned `Stop` leave later tick phases and the check phase begins at node 0.
    pub fn ticks_done(&mut self, results: &Vec<TickOutcome>) -> (a: Action)
        requires
            old(self).wf(),
            old(self).phase == Phase::AwaitTicks,
            results@.len() == old(self).node_count,
        ensures
            final(self).wf(),
            final(self).same_config(old(self)),
            final(self).rounds_completed == old(self).rounds_completed,
            final(self).shutdown_failures == old(self).shutdown_failures,
            !any_tick_failed(old(self).active@, results@) ==> {
                &&& a == (Action::RunCheck { round: old(self).round(), node: 0 })
                &&& final(self).phase == (Phase::AwaitCheck { next: 0 })
                &&& final(self).failure is None
                &&& final(self).active@ == still_active(old(self).active@, results@)
            },
            any_tick_failed(old(self).active@, results@) ==> {
                &&& a == Action::ShutdownAll
                &&& final(self).phase == Phase::AwaitShutdown
                &&& final(self).active == old(self).active
                &&& final(self).failure matches Some(HarnessError::Round { round, node })
                &&& round == old(self).round()
                &&& is_first_tick_failure(old(self).active@, results@, node as int)
            },
    {
        let mut i: usize = 0;
        while i < results.len()
            invariant
                i <= results@.len(),
                results@.len() == self.active@.len(),
                self.wf(),
                self.phase == old(self).phase,
                old(self).wf(),
                self.node_count == old(self).node_count,
                self.max_rounds == old(self).max_rounds,
                self.rounds_completed == old(self).rounds_completed,
                self.active == old(self).active,
                self.failure == old(self).failure,
                self.shutdown_failures == old(self).shutdown_failures,
                forall|j: int| 0 <= j < i ==> !failed_at(self.active@, results@, j),
            decreases results@.len() - i,
        {
            if self.active[i] && results[i] == TickOutcome::Failed {
                assert(failed_at(old(self).active@, results@, i as int));
                self.failure = Some(HarnessError::Round { round: self.rounds_completed, node: i });
                self.phase = Phase::AwaitShutdown;
                return Action::ShutdownAll;
            }
            i += 1;
        }
        let ghost before = self.active@;
        let mut k: usize = 0;
        while k < results.len()
            invariant
                k <= results@.len(),
                results@.len() == before.len(),
                self.active@.len() == before.len(),
                before == old(self).active@,
                self.wf(),
                self.phase == old(self).phase,
                old(self).wf(),
                self.node_count == old(self).node_count,
                self.max_rounds == old(self).max_rounds,
                self.rounds_completed == old(self).rounds_completed,
                self.failure == old(self).failure,
                self.shutdown_failures == old(self).shutdown_failures,
                forall|j: int| 0 <= j < k ==> self.active@[j] == still_active(before, results@)[j],
                forall|j: int| k <= j < before.len() ==> self.active@[j] == before[j],
            decreases results@.len() - k,
        {
            if results[k] == TickOutcome::Stop {
                self.active.set(k, false);
            }
            k += 1;
        }
        assert(self.active@ =~= still_active(before, results@));
        self.phase = Phase::AwaitCheck { next: 0 };
        Action::RunCheck { round: self.rounds_completed, node: 0 }
    }

    /// Reports whether the check of the node that was asked for held. A failed
    /// check ends the run; after the last node's check the round is complete, and
    /// the next round's ticks start unless the round limit is reached or every
    /// node has opted out.
    pub fn check_done(&mut self, passed: bool) -> (a: Action)
        requires
            old(self).wf(),
            old(self).phase is AwaitCheck,
        ensures
            final(self).wf(),
            final(self).same_config(old(self)),
            final(self).active == old(self).active,
            final(self).shutdown_failures == old(self).shutdown_failures,
            ({
                let next = old(self).phase->next;
                let round = old(self).round();
                if !passed {
                    &&& a == Action::ShutdownAll
                    &&& final(self).phase == Phase::AwaitShutdown
                    &&& final(self).failure == Some(HarnessError::Check { round, node: next })
                    &&& final(self).rounds_completed == round
                } else if next + 1 < old(self).node_count {
                    &&& a == (Action::RunCheck { round, node: (next + 1) as usize })
                    &&& final(self).phase == (Phase::AwaitCheck { next: (next + 1) as usize })
                    &&& final(self).failure is None
                    &&& final(self).rounds_completed == round
                } else {
                    &&& final(self).rounds_completed == round + 1
                    &&& final(self).failure is None
                    &&& if round + 1 == old(self).max_rounds || !any_active(old(self).active@) {
                        a == Action::ShutdownAll && final(self).phase == Phase::AwaitShutdown
                    } else {
                        a == (Action::RunTicks { round: (round + 1) as u32 }) && final(self).phase
                            == Phase::AwaitTicks
                    }
                }
            }),
    {
        let next = match self.phase {
            Phase::AwaitCheck { next } => next,
            _ => 0,
        };
        let round = self.rounds_completed;
        if !passed {
            self.failure = Some(HarnessError::Check { round, node: next });
            self.phase = Phase::AwaitShutdown;
            Action::ShutdownAll
        } else if next + 1 < self.node_count {
            self.phase = Phase::AwaitCheck { next: next + 1 };
            Action::RunCheck { round, node: next + 1 }
        } else {
            self.rounds_completed = round + 1;
            if self.rounds_completed == self.max_rounds || !self.has_active() {
                self.phase = Phase::AwaitShutdown;
                Action::ShutdownAll
            } else {
                self.phase = Phase::AwaitTicks;
                Action::RunTicks { round: self.rounds_completed }
            }
        }
    }

    /// Whether node `i` is ticked in the coming tick phases.
    pub fn is_active(&self, i: usize) -> (r: bool)
        requires
            i < self.active@.len(),
        ensures
            r == self.active@[i as int],
    {
        self.active[i]
    }

    /// Whether some node still takes part in tick phases.
    pub fn has_active(&self) -> (r: bool)
        ensures
            r == any_active(self.active@),
    {
        let mut i: usize = 0;
        while i < self.active.len()
            invariant
                i <= self.active@.len(),
                forall|j: int| 0 <= j < i ==> !self.active@[j],
            decreases self.active@.len() - i,
        {
            if self.active[i] {
                return true;
            }
            i += 1;
        }
        false
    }

    /// Reports, per node, whether its shutdown failed. Shutdown failures are
    /// counted but never replace the terminal cause.
    pub fn shutdown_done(&mut self, failed: &Vec<bool>) -> (a: Action)
        requires
            old(self).wf(),
            old(self).phase == Phase::AwaitShutdown,
            failed@.len() == old(self).node_count,
        ensures
            final(self).wf(),
            final(self).same_config(old(self)),
            final(self).rounds_completed == old(self).rounds_completed,
            final(self).active == old(self).active,
            final(self).failure == old(self).failure,
            final(self).phase == Phase::Finished,
            final(self).shutdown_failures == count_true(failed@),
            a == Action::Finish,
    {
        let mut n: usize = 0;
        let mut i: usize = 0;
        while i < failed.len()
            invariant
                i <= failed@.len(),
                n == count_true(failed@.take(i as int)),
                n <= i,
            decreases failed@.len() - i,
        {
            assert(failed@.take(i as int + 1).drop_last() =~= failed@.take(i as int));
            if failed[i] {
                n += 1;
            }
            i += 1;
        }
        assert(failed@.take(i as int) =~= failed@);
        self.shutdown_failures = n;
        self.phase = Phase::Finished;
        Action::Finish
    }

    /// The run's single terminal cause, or the number of completed rounds.
    pub fn outcome(&self) -> (r: Result<u32, HarnessError>)
        requires
            self.phase == Phase::Finished,
        ensures
            match self.failure {
                Some(e) => r == Err::<u32, HarnessError>(e),
                None => r == Ok::<u32, HarnessError>(self.rounds_completed),
            },
    {
        match self.failure {
            Some(e) => Err(e),
            None => Ok(self.rounds_completed),
        }
    }
}

} // verus!
