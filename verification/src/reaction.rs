//! Round-robin, rate-limited reaction driving.
//!
//! Impact events are consumed serially by one driver. Each event is answered
//! with one two-phase external action — an "impact" appearance, a short hold,
//! then a "resting" appearance — against the next target of a fixed target
//! set, round-robin. A fixed delay before each action and the hold between
//! the two phases space consecutive actions apart, so bursts of events are
//! debounced by serialization alone. The driver itself only plans: it turns
//! an event arrival time into target choice and phase times; performing the
//! action (and sleeping until the planned times) is the caller's part.

use vstd::prelude::*;
use crate::SetupError;

verus! {

/// Milliseconds the driver waits after picking up an event before the first
/// phase of the action fires.
pub const DISPATCH_DELAY_MS: u64 = 200;

/// Milliseconds the "impact" appearance is held before reverting to the
/// "resting" appearance.
pub const HOLD_MS: u64 = 150;

/// One planned two-phase action: which target, and when each phase runs.
#[derive(Clone, Copy, Debug, PartialEq, Eq, Structural)]
pub struct DispatchPlan {
    /// Index of the target to act on, in `[0, n_targets)`.
    pub target: usize,
    /// Time (ms) at which the "impact" phase fires.
    pub fire_at: u64,
    /// Time (ms) at which the "resting" phase fires; the driver is busy
    /// until then.
    pub release_at: u64,
}

/// Serial driver state: the fixed target count, the round-robin cursor, and
/// the time until which the previous action keeps the driver busy.
#[derive(Clone, Copy, Debug, PartialEq, Eq, Structural)]
pub struct ReactionDriver {
    /// Number of targets; fixed and positive for the driver's lifetime.
    pub n_targets: usize,
    /// Round-robin cursor: the target the next event will be dispatched to.
    pub cursor: usize,
    /// Time (ms) at which the driver finished its last action; zero at start.
    pub busy_until: u64,
}

impl ReactionDriver {
    /// The cursor always addresses a target of the non-empty target set.
    pub open spec fn wf(self) -> bool {
        &&& self.n_targets > 0
        &&& self.cursor < self.n_targets
    }

    /// How one event, arriving at `arrival` ms, takes the driver from state
    /// `pre` to state `post` while planning `plan`: the event waits until the
    /// driver is free, the action fires a fixed delay later, the cursor
    /// advances by one modulo the target count, and the driver is busy until
    /// the action's second phase.
    pub open spec fn step(pre: ReactionDriver, arrival: u64, post: ReactionDriver, plan: DispatchPlan) -> bool {
        &&& plan.target == pre.cursor
        &&& plan.fire_at == (if arrival >= pre.busy_until { arrival } else { pre.busy_until })
            + DISPATCH_DELAY_MS
        &&& plan.release_at == plan.fire_at + HOLD_MS
        &&& post.n_targets == pre.n_targets
        &&& post.cursor == (pre.cursor + 1) % (pre.n_targets as int)
        &&& post.busy_until == plan.release_at
    }

    /// Build a driver over a target set enumerated once at startup. An empty
    /// target set is a fatal setup error: the driver refuses to start rather
    /// than fault later inside the dispatch loop.
    pub fn new(n_targets: usize) -> (r: Result<ReactionDriver, SetupError>)
        ensures
            r is Ok <==> n_targets > 0,
            n_targets == 0 ==> r == Result::<ReactionDriver, SetupError>::Err(SetupError::EmptyTargetSet),
            r matches Ok(d) ==> d.wf() && d.n_targets == n_targets && d.cursor == 0
                && d.busy_until == 0,
    {
        if n_targets == 0 {
            return Err(SetupError::EmptyTargetSet);
        }
        Ok(ReactionDriver { n_targets, cursor: 0, busy_until: 0 })
    }

    /// Consume one impact event that arrived at `arrival` ms and plan its
    /// action. The plan fires at least the fixed delay after both the arrival
    /// and the end of the previous action, and the cursor advances exactly
    /// once, wrapping modulo the target count.
    pub fn on_event(&mut self, arrival: u64) -> (plan: DispatchPlan)
        requires
            old(self).wf(),
            arrival <= u64::MAX - DISPATCH_DELAY_MS - HOLD_MS,
            old(self).busy_until <= u64::MAX - DISPATCH_DELAY_MS - HOLD_MS,
        ensures
            ReactionDriver::step(*old(self), arrival, *final(self), plan),
            final(self).wf(),
            plan.target < old(self).n_targets,
            plan.fire_at >= arrival + DISPATCH_DELAY_MS,
            plan.fire_at >= old(self).busy_until + DISPATCH_DELAY_MS,
    {
        let wait_from: u64 = if arrival >= self.busy_until { arrival } else { self.busy_until };
        let fire_at: u64 = wait_from + DISPATCH_DELAY_MS;
        let release_at: u64 = fire_at + HOLD_MS;
        let plan = DispatchPlan { target: self.cursor, fire_at, release_at };
        self.cursor = (self.cursor + 1) % self.n_targets;
        self.busy_until = release_at;
        plan
    }
}

/// The cursor position reached after `k` consecutive dispatches that started
/// from `start`, over `n` targets: each dispatch advances it by one, modulo
/// `n`.
pub open spec fn cursor_after(start: int, n: int, k: nat) -> int
    decreases k,
{
    if k == 0 {
        start
    } else {
        (cursor_after(start, n, (k - 1) as nat) + 1) % n
    }
}

/// Advancing by one, `k` times, lands on `(start + k) % n`.
pub proof fn lemma_cursor_after_closed_form(start: int, n: int, k: nat)
    requires
        0 <= start < n,
    ensures
        cursor_after(start, n, k) == (start + k) % n,
    decreases k,
{
    if k == 0 {
        vstd::arithmetic::div_mod::lemma_small_mod(start as nat, n as nat);
    } else {
        lemma_cursor_after_closed_form(start, n, (k - 1) as nat);
        vstd::arithmetic::div_mod::lemma_add_mod_noop_right(1, start + k - 1, n);
    }
}

/// The state and the plan after the `k`-th step of a chain of dispatches:
/// the target count never changes, the cursor has advanced once per step,
/// and each plan addressed the cursor of the state it was made in.
proof fn lemma_chain_state(
    states: Seq<ReactionDriver>, arrivals: Seq<u64>, plans: Seq<DispatchPlan>, k: int,
)
    requires
        states.len() == plans.len() + 1,
        arrivals.len() == plans.len(),
        forall|i: int| 0 <= i < plans.len()
            ==> #[trigger] ReactionDriver::step(states[i], arrivals[i], states[i + 1], plans[i]),
        0 <= k < states.len(),
    ensures
        states[k].n_targets == states[0].n_targets,
        states[k].cursor == cursor_after(
            states[0].cursor as int, states[0].n_targets as int, k as nat,
        ),
    decreases k,
{
    if k > 0 {
        lemma_chain_state(states, arrivals, plans, k - 1);
        let j: int = k - 1;
        assert(ReactionDriver::step(states[j], arrivals[j], states[j + 1], plans[j]));
        assert(states[j + 1] == states[k]);
    }
}

/// Round-robin over the whole target set: dispatching one event per target,
/// `n_targets` consecutive times, advances the cursor exactly once per event,
/// addresses target `(start + i) % n_targets` with the `i`-th action — each
/// target exactly once — and returns the cursor to its starting value.
pub proof fn lemma_round_robin_wraps(
    states: Seq<ReactionDriver>, arrivals: Seq<u64>, plans: Seq<DispatchPlan>,
)
    requires
        states.len() == plans.len() + 1,
        arrivals.len() == plans.len(),
        states[0].wf(),
        plans.len() == states[0].n_targets,
        forall|i: int| 0 <= i < plans.len()
            ==> #[trigger] ReactionDriver::step(states[i], arrivals[i], states[i + 1], plans[i]),
    ensures
        forall|i: int| 0 <= i < plans.len()
            ==> (#[trigger] plans[i].target) as int
                == (states[0].cursor + i) % (states[0].n_targets as int),
        states[states.len() - 1].cursor == states[0].cursor,
{
    let c0: int = states[0].cursor as int;
    let n: int = states[0].n_targets as int;
    assert forall|i: int| 0 <= i < plans.len()
        implies (#[trigger] plans[i].target) as int == (c0 + i) % n by {
        lemma_chain_state(states, arrivals, plans, i);
        lemma_cursor_after_closed_form(c0, n, i as nat);
        assert(ReactionDriver::step(states[i], arrivals[i], states[i + 1], plans[i]));
    }
    lemma_chain_state(states, arrivals, plans, states.len() - 1);
    lemma_cursor_after_closed_form(c0, n, (states.len() - 1) as nat);
    vstd::arithmetic::div_mod::lemma_mod_add_multiples_vanish(c0, n);
    vstd::arithmetic::div_mod::lemma_small_mod(c0 as nat, n as nat);
}

/// Consecutive dispatches are spaced by at least the fixed delay: whenever
/// one event and then another drive the same driver — however close together
/// the two arrive, even simultaneously — the second action fires at least
/// `DISPATCH_DELAY_MS` after the first action's onset (and indeed after the
/// first action's second phase).
pub proof fn lemma_dispatch_spacing(
    s0: ReactionDriver, t1: u64, s1: ReactionDriver, plan1: DispatchPlan,
    t2: u64, s2: ReactionDriver, plan2: DispatchPlan,
)
    requires
        ReactionDriver::step(s0, t1, s1, plan1),
        ReactionDriver::step(s1, t2, s2, plan2),
    ensures
        plan2.fire_at >= plan1.fire_at + HOLD_MS + DISPATCH_DELAY_MS,
        plan2.fire_at >= plan1.fire_at + DISPATCH_DELAY_MS,
{
}

} // verus!
