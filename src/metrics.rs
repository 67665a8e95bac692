use vstd::prelude::*;

verus! {

/// One cumulative counter and the metric source (node) that owns it.
#[derive(Clone, Copy, Debug, PartialEq, Eq, Structural)]
pub struct Counter {
    pub source: usize,
    pub value: u64,
}

/// Append-only collection of counters. Counters are registered at spawn time,
/// only grow afterwards, and are never removed.
pub struct MetricsRegistry {
    counters: Vec<Counter>,
}

/// `later` is a state of the registry that `earlier` can reach: no counter was
/// removed or moved to another source, and none went down.
pub open spec fn grows_to(earlier: Seq<Counter>, later: Seq<Counter>) -> bool {
    &&& earlier.len() <= later.len()
    &&& forall|i: int|
        0 <= i < earlier.len() ==> #[trigger] later[i].source == earlier[i].source
            && later[i].value >= earlier[i].value
}

/// `a + b`, or `u64::MAX` where that sum does not fit.
pub open spec fn saturating_sum(a: u64, b: u64) -> u64 {
    if a + b > u64::MAX {
        u64::MAX
    } else {
        (a + b) as u64
    }
}

impl View for MetricsRegistry {
    type V = Seq<Counter>;

    closed spec fn view(&self) -> Seq<Counter> {
        self.counters@
    }
}

impl MetricsRegistry {
    pub fn new() -> (r: MetricsRegistry)
        ensures
            r@.len() == 0,
    {
        MetricsRegistry { counters: Vec::new() }
    }

    /// The number of registered counters.
    pub fn len(&self) -> (r: usize)
        ensures
            r == self@.len(),
    {
        self.counters.len()
    }

    /// Registers a new counter, at zero, for `source`, and returns its id.
    pub fn register(&mut self, source: usize) -> (id: usize)
        requires
            old(self)@.len() < usize::MAX,
        ensures
            id == old(self)@.len(),
            final(self)@ == old(self)@.push(Counter { source, value: 0 }),
            grows_to(old(self)@, final(self)@),
    {
        let id = self.counters.len();
        self.counters.push(Counter { source, value: 0 });
        id
    }

    /// Adds `amount` to the counter `id`, saturating at `u64::MAX`.
    pub fn add(&mut self, id: usize, amount: u64)
        requires
            id < old(self)@.len(),
        ensures
            final(self)@ == old(self)@.update(
                id as int,
                Counter {
                    source: old(self)@[id as int].source,
                    value: saturating_sum(old(self)@[id as int].value, amount),
                },
            ),
            grows_to(old(self)@, final(self)@),
    {
        let c = self.counters[id];
        let value = c.value.saturating_add(amount);
        self.counters.set(id, Counter { source: c.source, value });
    }

    /// The value of counter `id`, if it exists.
    pub fn get(&self, id: usize) -> (r: Option<u64>)
        ensures
            id < self@.len() ==> r == Some(self@[id as int].value),
            id >= self@.len() ==> r is None,
    {
        if id < self.counters.len() {
            Some(self.counters[id].value)
        } else {
            None
        }
    }

    /// The sum of the counters that belong to `source`, saturating at `u64::MAX`.
    pub fn total_of(&self, source: usize) -> (r: u64)
        ensures
            r == source_total(self@, source),
    {
        let mut t: u64 = 0;
        let mut i: usize = 0;
        while i < self.counters.len()
            invariant
                i <= self@.len(),
                t == source_total(self@.take(i as int), source),
            decreases self@.len() - i,
        {
            assert(self@.take(i as int + 1).drop_last() =~= self@.take(i as int));
            if self.counters[i].source == source {
                t = t.saturating_add(self.counters[i].value);
            }
            i += 1;
        }
        assert(self@.take(i as int) =~= self@);
        t
    }
}

/// The sum of the counters of `source`, summed from the first, saturating at
/// `u64::MAX`.
pub open spec fn source_total(cs: Seq<Counter>, source: usize) -> u64
    decreases cs.len(),
{
    if cs.len() == 0 {
        0
    } else {
        let t = source_total(cs.drop_last(), source);
        if cs.last().source == source {
            saturating_sum(t, cs.last().value)
        } else {
            t
        }
    }
}

/// A registry state reaches itself.
pub proof fn lemma_grows_to_reflexive(s: Seq<Counter>)
    ensures
        grows_to(s, s),
{
}

/// Cumulative counters are monotonic over a run: if each recorded state of the
/// registry (for instance one per round) reaches the next, then for any two
/// rounds `r1 <= r2` every counter of round `r1` is still there in round `r2`,
/// with the same source and a value at least as large.
pub proof fn lemma_counters_monotonic(states: Seq<Seq<Counter>>, r1: int, r2: int)
    requires
        0 <= r1 <= r2 < states.len(),
        forall|r: int| 0 <= r < states.len() - 1 ==> grows_to(#[trigger] states[r], states[r + 1]),
    ensures
        grows_to(states[r1], states[r2]),
    decreases r2 - r1,
{
    if r1 < r2 {
        lemma_counters_monotonic(states, r1, r2 - 1);
        assert(grows_to(states[r2 - 1], states[r2]));
        assert forall|i: int| 0 <= i < states[r1].len() implies #[trigger] states[r2][i].source
            == states[r1][i].source && states[r2][i].value >= states[r1][i].value by {
            assert(states[r2 - 1][i].source == states[r1][i].source);
            assert(states[r2][i].source == states[r2 - 1][i].source);
        }
    }
}

} // verus!
