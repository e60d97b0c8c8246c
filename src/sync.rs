use vstd::prelude::*;

verus! {

/// Milliseconds between two visibility queries.
pub const POLL_INTERVAL_MS: u64 = 100;

/// How long a panel wait lasts before it gives up, in milliseconds.
pub const PANEL_TIMEOUT_MS: u32 = 10000;

/// The state a panel is waited for.
#[derive(Clone, Copy, PartialEq, Eq, Structural, Debug)]
pub enum Target {
    /// It exists and reports itself displayed.
    Visible,
    /// It is missing, hidden, or its query fails.
    Gone,
}

/// What one visibility query of a panel found.
#[derive(Clone, Copy, PartialEq, Eq, Structural, Debug)]
pub enum Probe {
    /// No element matched.
    Missing,
    /// The element exists and is not displayed.
    Hidden,
    /// The element exists and is displayed.
    Shown,
    /// The query itself failed.
    Failed,
}

/// Where a wait stands after a query.
#[derive(Clone, Copy, PartialEq, Eq, Structural, Debug)]
pub enum WaitStatus {
    /// The target state was seen.
    Reached,
    /// The time ran out first.
    TimedOut,
    /// Query again after one poll interval.
    Pending,
}

/// The query result `probe` shows the panel in state `target`.
pub open spec fn satisfies(target: Target, probe: Probe) -> bool {
    match target {
        Target::Visible => probe == Probe::Shown,
        Target::Gone => probe != Probe::Shown,
    }
}

/// A bounded wait for a panel to reach a visibility state, polled at a fixed
/// interval; `elapsed_ms` is the time of the latest query since the wait began.
#[derive(Clone, Copy, Debug)]
pub struct PanelWait {
    /// The state waited for.
    pub target: Target,
    /// The time after which the wait gives up.
    pub timeout_ms: u32,
    /// The time of the latest query.
    pub elapsed_ms: u64,
}

/// The wait and status that follow one query result.
pub open spec fn wait_step(w: PanelWait, probe: Probe) -> (PanelWait, WaitStatus) {
    if satisfies(w.target, probe) {
        (w, WaitStatus::Reached)
    } else if w.elapsed_ms >= w.timeout_ms {
        (w, WaitStatus::TimedOut)
    } else {
        (PanelWait { elapsed_ms: (w.elapsed_ms + POLL_INTERVAL_MS) as u64, ..w }, WaitStatus::Pending)
    }
}

/// Feeds the query results one after another until the wait ends or they run out.
pub open spec fn wait_run(w: PanelWait, probes: Seq<Probe>) -> (PanelWait, WaitStatus)
    decreases probes.len(),
{
    if probes.len() == 0 {
        (w, WaitStatus::Pending)
    } else {
        let (next, status) = wait_step(w, probes[0]);
        if status == WaitStatus::Pending {
            wait_run(next, probes.drop_first())
        } else {
            (next, status)
        }
    }
}

impl PanelWait {
    /// Queries are made while no more time than the timeout has passed.
    pub open spec fn wf(&self) -> bool {
        self.elapsed_ms <= self.timeout_ms + POLL_INTERVAL_MS
    }

    /// A wait for `target` that has not queried yet.
    pub fn new(target: Target, timeout_ms: u32) -> (r: Self)
        ensures
            r.target == target,
            r.timeout_ms == timeout_ms,
            r.elapsed_ms == 0,
            r.wf(),
    {
        PanelWait { target, timeout_ms, elapsed_ms: 0 }
    }

    /// Takes the result of one query: the wait ends as soon as the target state
    /// is seen, times out once the latest query came at or after the timeout,
    /// and otherwise asks for another query one interval later.
    pub fn observe(&mut self, probe: Probe) -> (r: WaitStatus)
        requires
            old(self).wf(),
        ensures
            (*final(self), r) == wait_step(*old(self), probe),
            final(self).wf(),
    {
        let reached = match (self.target, probe) {
            (Target::Visible, Probe::Shown) => true,
            (Target::Visible, _) => false,
            (Target::Gone, Probe::Shown) => false,
            (Target::Gone, _) => true,
        };
        if reached {
            WaitStatus::Reached
        } else if self.elapsed_ms >= self.timeout_ms as u64 {
            WaitStatus::TimedOut
        } else {
            self.elapsed_ms = self.elapsed_ms + POLL_INTERVAL_MS;
            WaitStatus::Pending
        }
    }
}

/// Waiting for a panel to become visible while it never does times out, given
/// queries enough to pass the timeout, and does so at a query made no earlier
/// than the timeout and less than one poll interval after it.
pub proof fn lemma_visible_wait_times_out(timeout_ms: u32, probes: Seq<Probe>)
    requires
        probes.len() >= 1,
        (probes.len() - 1) * POLL_INTERVAL_MS >= timeout_ms,
        forall|k: int| 0 <= k < probes.len() ==> #[trigger] probes[k] != Probe::Shown,
    ensures
        ({
            let (w, status) = wait_run(PanelWait { target: Target::Visible, timeout_ms, elapsed_ms: 0 }, probes);
            &&& status == WaitStatus::TimedOut
            &&& timeout_ms <= w.elapsed_ms < timeout_ms + POLL_INTERVAL_MS
        }),
{
    lemma_failing_run(timeout_ms, 0, probes);
}

/// From a query time `k` intervals in, a run of failing queries times out at the
/// first query time at or past the timeout.
proof fn lemma_failing_run(timeout_ms: u32, k: nat, probes: Seq<Probe>)
    requires
        k * POLL_INTERVAL_MS < timeout_ms + POLL_INTERVAL_MS,
        probes.len() >= 1,
        (probes.len() - 1 + k) * POLL_INTERVAL_MS >= timeout_ms,
        forall|i: int| 0 <= i < probes.len() ==> #[trigger] probes[i] != Probe::Shown,
    ensures
        ({
            let (w, status) = wait_run(PanelWait { target: Target::Visible, timeout_ms, elapsed_ms: (k * POLL_INTERVAL_MS) as u64 }, probes);
            &&& status == WaitStatus::TimedOut
            &&& timeout_ms <= w.elapsed_ms < timeout_ms + POLL_INTERVAL_MS
        }),
    decreases probes.len(),
{
    let w = PanelWait { target: Target::Visible, timeout_ms, elapsed_ms: (k * POLL_INTERVAL_MS) as u64 };
    assert(probes[0] != Probe::Shown);
    if k * POLL_INTERVAL_MS >= timeout_ms {
    } else {
        assert((k + 1) * POLL_INTERVAL_MS == k * POLL_INTERVAL_MS + POLL_INTERVAL_MS) by (nonlinear_arith);
        let rest = probes.drop_first();
        assert forall|i: int| 0 <= i < rest.len() implies #[trigger] rest[i] != Probe::Shown by {
            assert(rest[i] == probes[i + 1]);
        };
        assert(probes.len() >= 2) by {
            if probes.len() == 1 {
                assert((probes.len() - 1 + k) * POLL_INTERVAL_MS == k * POLL_INTERVAL_MS);
            }
        };
        assert((rest.len() - 1 + (k + 1)) * POLL_INTERVAL_MS == (probes.len() - 1 + k) * POLL_INTERVAL_MS);
        lemma_failing_run(timeout_ms, k + 1, rest);
    }
}

/// Waiting for a panel to be gone ends at the first query that fails, with no
/// time spent.
pub proof fn lemma_gone_wait_ends_on_failed_query(w: PanelWait)
    requires
        w.target == Target::Gone,
    ensures
        wait_step(w, Probe::Failed) == (w, WaitStatus::Reached),
        wait_run(w, seq![Probe::Failed]) == (w, WaitStatus::Reached),
{
}

} // verus!
