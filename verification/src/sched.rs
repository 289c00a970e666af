//! The dispatch loop as a verified state machine.
//!
//! The loop alternates outside work (kernel queue polling, the tally
//! service round trip, dispatch submission, sleeps) with decisions. All
//! decisions live here: [`Scheduler::run`] consumes one observed event and
//! returns the next action for the driver to perform. The driver loop is
//! mechanical: perform the action, feed the resulting event back in, and
//! stop once the loop reports itself finished.

use crate::competitor::CompetitorRegistry;
use crate::competitor::Competitors;
use crate::oracle::resolve_spec;
use crate::oracle::resolve_winner;
use crate::oracle::OracleError;
use crate::registry::charged;
use crate::registry::recorded;
use crate::registry::registered;
use crate::registry::QueuedTask;
use crate::registry::Task;
use crate::registry::TaskRegistry;
use vstd::prelude::*;

verus! {

/// The time slice requested for every dispatch, in nanoseconds; virtual
/// runtime is credited by the full slice on a successful dispatch.
pub const TIME_SLICE_NS: u64 = 100000000;

/// How long the driver sleeps after a failed oracle round trip, in
/// milliseconds, before the next tick starts.
pub const ORACLE_BACKOFF_MS: u64 = 1000;

/// How long the driver sleeps between ticks, in milliseconds; this bounds
/// how often the tally service is polled.
pub const PACE_MS: u64 = 500;

/// An ephemeral dispatch decision: run the chosen task for the fixed time
/// slice. A tick makes one anew from the winner's snapshot; none is
/// retained.
#[derive(Clone, Copy, Debug, PartialEq, Eq)]
pub struct DispatchDecision {
    pub pid: u32,
    pub cpu: i32,
    pub time_slice_ns: u64,
}

/// Where in a tick the loop stands, and hence what event it expects next.
#[derive(Clone, Copy, Debug, PartialEq, Eq)]
pub enum Phase {
    /// Draining the kernel queue; expects queue events.
    Draining,
    /// Waiting for the oracle round trip's outcome.
    Deciding,
    /// Waiting for the kernel's verdict on a submitted dispatch.
    Dispatching { pid: u32 },
    /// Waiting out the pacing sleep that ends a tick.
    Pacing,
    /// Shut down; no further kernel-interface work happens.
    Terminated,
}

/// One outside observation handed to the loop.
#[derive(Debug)]
pub enum Event {
    /// The kernel queue yielded one task snapshot.
    TaskDequeued(QueuedTask),
    /// The kernel queue reported itself empty.
    QueueEmpty,
    /// The kernel interface errored while draining.
    QueueError,
    /// The oracle round trip produced a decoded tally.
    OracleReply(Vec<(String, u64)>),
    /// The oracle round trip failed: unreachable, or undecodable.
    OracleFailed,
    /// The kernel accepted the submitted dispatch.
    Dispatched,
    /// The kernel rejected the submitted dispatch.
    DispatchFailed,
    /// A requested sleep finished.
    Slept,
}

/// The next piece of outside work the driver must perform.
#[derive(Clone, Copy, Debug, PartialEq, Eq)]
pub enum Action {
    /// Take the next queued task from the kernel interface (non-blocking).
    PollQueue,
    /// Perform the tally service round trip.
    QueryOracle,
    /// Submit this dispatch decision to the kernel interface.
    Dispatch(DispatchDecision),
    /// Sleep the failure backoff interval.
    SleepBackoff,
    /// Sleep the pacing interval.
    SleepPace,
    /// Invoke the kernel interface's shutdown/report operation.
    Report,
    /// Nothing: the loop is finished, or the event did not fit the phase.
    Idle,
}

/// The scheduler's abstract state: the phase of the current tick, the task
/// registry's contents, and the fixed ownership mapping.
pub struct SchedState {
    pub phase: Phase,
    pub tasks: Map<u32, Task>,
    pub owners: CompetitorRegistry,
}

/// The snapshot the registry holds for `pid`, if any.
pub open spec fn snapshot_of(s: SchedState, pid: u32) -> Option<QueuedTask> {
    if s.tasks.contains_key(pid) {
        s.tasks[pid].queued_task
    } else {
        None
    }
}

/// The decision step: what a tick does with a decoded tally. A failed
/// resolution skips the tick after a backoff; a winner without a snapshot
/// yet ends the tick without a dispatch; otherwise a dispatch is built
/// from the winner's snapshot with the fixed time slice.
pub open spec fn decide_spec(s: SchedState, t: Seq<(String, u64)>) -> (SchedState, Action) {
    match resolve_spec(t) {
        Err(_) => (SchedState { phase: Phase::Draining, ..s }, Action::SleepBackoff),
        Ok(winner) => {
            let pid = s.owners.spec_pid_for(winner);
            match snapshot_of(s, pid) {
                Some(qt) => (
                    SchedState { phase: Phase::Dispatching { pid }, ..s },
                    Action::Dispatch(
                        DispatchDecision { pid, cpu: qt.cpu, time_slice_ns: TIME_SLICE_NS },
                    ),
                ),
                None => (SchedState { phase: Phase::Pacing, ..s }, Action::SleepPace),
            }
        },
    }
}

/// The complete transition relation of the dispatch loop: from a state,
/// the shutdown flag as observed at the top of the step, and one event, to
/// the next state and the action the driver must perform. An event that
/// does not fit the phase changes nothing.
pub open spec fn step_spec(s: SchedState, shutdown: bool, event: Event) -> (SchedState, Action) {
    if s.phase is Terminated {
        (s, Action::Idle)
    } else if shutdown {
        (SchedState { phase: Phase::Terminated, ..s }, Action::Report)
    } else {
        match (s.phase, event) {
            (Phase::Draining, Event::TaskDequeued(qt)) => (
                if s.owners.spec_pids().contains(qt.pid) {
                    SchedState { tasks: recorded(s.tasks, qt.pid, qt), ..s }
                } else {
                    s
                },
                Action::PollQueue,
            ),
            (Phase::Draining, Event::QueueEmpty) => (
                SchedState { phase: Phase::Deciding, ..s },
                Action::QueryOracle,
            ),
            (Phase::Draining, Event::QueueError) => (
                SchedState { phase: Phase::Deciding, ..s },
                Action::QueryOracle,
            ),
            (Phase::Draining, Event::Slept) => (s, Action::PollQueue),
            (Phase::Deciding, Event::OracleReply(t)) => decide_spec(s, t@),
            (Phase::Deciding, Event::OracleFailed) => (
                SchedState { phase: Phase::Draining, ..s },
                Action::SleepBackoff,
            ),
            (Phase::Dispatching { pid }, Event::Dispatched) => (
                SchedState {
                    phase: Phase::Pacing,
                    tasks: charged(s.tasks, pid, TIME_SLICE_NS),
                    ..s
                },
                Action::SleepPace,
            ),
            (Phase::Dispatching { pid: _ }, Event::DispatchFailed) => (
                SchedState { phase: Phase::Pacing, ..s },
                Action::SleepPace,
            ),
            (Phase::Pacing, Event::Slept) => (
                SchedState { phase: Phase::Draining, ..s },
                Action::PollQueue,
            ),
            _ => (s, Action::Idle),
        }
    }
}

/// The scheduler: the dispatch loop's state plus the two registries. All
/// mutation happens through [`Scheduler::run`].
pub struct Scheduler {
    phase: Phase,
    registry: TaskRegistry,
    owners: CompetitorRegistry,
}

impl Scheduler {
    /// The abstract state this scheduler stands in.
    pub closed spec fn model(self) -> SchedState {
        SchedState { phase: self.phase, tasks: self.registry@, owners: self.owners }
    }

    /// The initial state: a fresh tick about to drain, and one (still
    /// snapshot-free) registry entry per competitor.
    pub open spec fn initial(owners: CompetitorRegistry) -> SchedState {
        SchedState {
            phase: Phase::Draining,
            tasks: registered(
                registered(
                    Map::empty(),
                    owners.spec_pid_for(Competitors::Summer1),
                ),
                owners.spec_pid_for(Competitors::Summer2),
            ),
            owners,
        }
    }

    /// Builds the scheduler over the ownership mapping established at
    /// startup; every competitor starts with an empty registry entry.
    pub fn new(owners: CompetitorRegistry) -> (r: Scheduler)
        ensures
            r.model() == Scheduler::initial(owners),
    {
        let mut registry = TaskRegistry::new();
        registry.register(owners.pid_for(Competitors::Summer1));
        registry.register(owners.pid_for(Competitors::Summer2));
        Scheduler { phase: Phase::Draining, registry, owners }
    }

    /// Advances the dispatch loop by one observed event. The shutdown flag
    /// is checked first, at the top of every step; then the event is
    /// folded into the state and the next action is returned.
    pub fn run(&mut self, shutdown: bool, event: Event) -> (a: Action)
        ensures
            (final(self).model(), a) == step_spec(old(self).model(), shutdown, event),
    {
        if let Phase::Terminated = self.phase {
            return Action::Idle;
        }
        if shutdown {
            self.phase = Phase::Terminated;
            return Action::Report;
        }
        match (self.phase, event) {
            (Phase::Draining, Event::TaskDequeued(qt)) => {
                if self.owners.is_tracked(qt.pid) {
                    self.registry.record(qt.pid, qt);
                }
                Action::PollQueue
            },
            (Phase::Draining, Event::QueueEmpty) => {
                self.phase = Phase::Deciding;
                Action::QueryOracle
            },
            (Phase::Draining, Event::QueueError) => {
                self.phase = Phase::Deciding;
                Action::QueryOracle
            },
            (Phase::Draining, Event::Slept) => Action::PollQueue,
            (Phase::Deciding, Event::OracleReply(t)) => {
                match resolve_winner(&t) {
                    Err(_) => {
                        self.phase = Phase::Draining;
                        Action::SleepBackoff
                    },
                    Ok(winner) => {
                        let pid = self.owners.pid_for(winner);
                        let snapshot = match self.registry.lookup(pid) {
                            Some(task) => task.queued_task,
                            None => None,
                        };
                        match snapshot {
                            Some(qt) => {
                                self.phase = Phase::Dispatching { pid };
                                Action::Dispatch(
                                    DispatchDecision {
                                        pid,
                                        cpu: qt.cpu,
                                        time_slice_ns: TIME_SLICE_NS,
                                    },
                                )
                            },
                            None => {
                                self.phase = Phase::Pacing;
                                Action::SleepPace
                            },
                        }
                    },
                }
            },
            (Phase::Deciding, Event::OracleFailed) => {
                self.phase = Phase::Draining;
                Action::SleepBackoff
            },
            (Phase::Dispatching { pid }, Event::Dispatched) => {
                self.registry.charge(pid, TIME_SLICE_NS);
                self.phase = Phase::Pacing;
                Action::SleepPace
            },
            (Phase::Dispatching { pid: _ }, Event::DispatchFailed) => {
                self.phase = Phase::Pacing;
                Action::SleepPace
            },
            (Phase::Pacing, Event::Slept) => {
                self.phase = Phase::Draining;
                Action::PollQueue
            },
            _ => Action::Idle,
        }
    }

    /// Pure read of the task registry entry for `pid`.
    pub fn lookup_task(&self, pid: u32) -> (r: Option<Task>)
        ensures
            r == (if self.model().tasks.contains_key(pid) {
                Some(self.model().tasks[pid])
            } else {
                None::<Task>
            }),
    {
        self.registry.lookup(pid)
    }

    /// The phase the loop currently stands in.
    pub fn phase(&self) -> (p: Phase)
        ensures
            p == self.model().phase,
    {
        self.phase
    }
}

/// Every pid the registry knows belongs to some competitor, every
/// competitor pid has a registry entry, and every entry is keyed by its
/// own pid.
pub open spec fn inv(s: SchedState) -> bool {
    &&& forall|p: u32| #[trigger] s.tasks.contains_key(p) ==> s.owners.spec_pids().contains(p)
    &&& forall|p: u32| #[trigger] s.owners.spec_pids().contains(p) ==> s.tasks.contains_key(p)
    &&& forall|p: u32| #[trigger] s.tasks.contains_key(p) ==> s.tasks[p].pid == p
}

/// Law: the invariant holds of the initial state.
pub proof fn lemma_inv_initial(owners: CompetitorRegistry)
    ensures
        inv(Scheduler::initial(owners)),
{
}

/// Law: the invariant is preserved by every step, whatever the event and
/// however the shutdown flag stands.
pub proof fn lemma_inv_preserved(s: SchedState, shutdown: bool, event: Event)
    requires
        inv(s),
    ensures
        inv(step_spec(s, shutdown, event).0),
{
}

/// A drain trace: the state after a sequence of dequeued task snapshots is
/// observed, one step each.
pub open spec fn drained(s: SchedState, qs: Seq<QueuedTask>) -> SchedState
    decreases qs.len(),
{
    if qs.len() == 0 {
        s
    } else {
        drained(step_spec(s, false, Event::TaskDequeued(qs[0])).0, qs.drop_first())
    }
}

/// Law: over any sequence of draining steps, a pid that belongs to no
/// competitor never appears in the task registry.
pub proof fn lemma_drain_adopts_no_stranger(s: SchedState, qs: Seq<QueuedTask>, p: u32)
    requires
        !s.owners.spec_pids().contains(p),
        !s.tasks.contains_key(p),
    ensures
        !drained(s, qs).tasks.contains_key(p),
    decreases qs.len(),
{
    if qs.len() > 0 {
        let s1 = step_spec(s, false, Event::TaskDequeued(qs[0])).0;
        lemma_drain_adopts_no_stranger(s1, qs.drop_first(), p);
    }
}

/// Law: no step ever removes a task from the registry or decreases its
/// accumulated virtual runtime.
pub proof fn lemma_vruntime_monotone(s: SchedState, shutdown: bool, event: Event, p: u32)
    requires
        s.tasks.contains_key(p),
    ensures
        step_spec(s, shutdown, event).0.tasks.contains_key(p),
        step_spec(s, shutdown, event).0.tasks[p].vruntime >= s.tasks[p].vruntime,
{
}

/// Law: when the oracle round trip fails, or its reply resolves to no
/// winner, the tick performs no dispatch: the loop backs off and returns
/// to draining with the task registry unchanged.
pub proof fn lemma_oracle_failure_skips_tick(s: SchedState, event: Event)
    requires
        s.phase is Deciding,
        (event is OracleFailed) || (event matches Event::OracleReply(t) && resolve_spec(t@) is Err),
    ensures
        step_spec(s, false, event).0.tasks == s.tasks,
        step_spec(s, false, event).0.phase is Draining,
        step_spec(s, false, event).1 == Action::SleepBackoff,
{
}

/// Law: when the resolved winner has no registered task snapshot yet, the
/// decision step performs no dispatch and raises no error: the tick simply
/// ends, with the task registry unchanged.
pub proof fn lemma_no_snapshot_no_dispatch(s: SchedState, t: Vec<(String, u64)>, c: Competitors)
    requires
        s.phase is Deciding,
        resolve_spec(t@) == Ok::<Competitors, OracleError>(c),
        snapshot_of(s, s.owners.spec_pid_for(c)) is None,
    ensures
        step_spec(s, false, Event::OracleReply(t)).0.tasks == s.tasks,
        step_spec(s, false, Event::OracleReply(t)).0.phase is Pacing,
        step_spec(s, false, Event::OracleReply(t)).1 == Action::SleepPace,
{
}

/// Law: dispatches are strictly serialized. A step that submits a dispatch
/// leaves the loop waiting on the kernel's verdict, and no step taken from
/// there can submit another: at most one dispatch is ever in flight.
pub proof fn lemma_dispatch_serialized(
    s: SchedState,
    shutdown1: bool,
    event1: Event,
    shutdown2: bool,
    event2: Event,
)
    requires
        step_spec(s, shutdown1, event1).1 is Dispatch,
    ensures
        step_spec(s, shutdown1, event1).0.phase is Dispatching,
        !(step_spec(step_spec(s, shutdown1, event1).0, shutdown2, event2).1 is Dispatch),
{
}

/// The state a trace of steps reaches, starting from `s`, with the
/// shutdown flag observed as `shutdown` throughout.
pub open spec fn stepped(s: SchedState, shutdown: bool, events: Seq<Event>) -> SchedState
    decreases events.len(),
{
    if events.len() == 0 {
        s
    } else {
        stepped(step_spec(s, shutdown, events[0]).0, shutdown, events.drop_first())
    }
}

/// Law: over any trace whatsoever, a task's accumulated virtual runtime
/// never decreases, and the task is never dropped from the registry.
pub proof fn lemma_vruntime_monotone_trace(
    s: SchedState,
    shutdown: bool,
    events: Seq<Event>,
    p: u32,
)
    requires
        s.tasks.contains_key(p),
    ensures
        stepped(s, shutdown, events).tasks.contains_key(p),
        stepped(s, shutdown, events).tasks[p].vruntime >= s.tasks[p].vruntime,
    decreases events.len(),
{
    if events.len() > 0 {
        let s1 = step_spec(s, shutdown, events[0]).0;
        lemma_vruntime_monotone(s, shutdown, events[0], p);
        lemma_vruntime_monotone_trace(s1, shutdown, events.drop_first(), p);
    }
}

/// The actions a trace of steps performs, starting from `s`, with the
/// shutdown flag observed as `shutdown` throughout.
pub open spec fn trace_actions(s: SchedState, shutdown: bool, events: Seq<Event>) -> Seq<Action>
    decreases events.len(),
{
    if events.len() == 0 {
        Seq::empty()
    } else {
        seq![step_spec(s, shutdown, events[0]).1] + trace_actions(
            step_spec(s, shutdown, events[0]).0,
            shutdown,
            events.drop_first(),
        )
    }
}

/// A terminated loop stays terminated and does nothing further, whatever
/// events arrive.
pub proof fn lemma_terminated_stays_idle(s: SchedState, shutdown: bool, events: Seq<Event>)
    requires
        s.phase is Terminated,
    ensures
        trace_actions(s, shutdown, events).len() == events.len(),
        forall|i: int| 0 <= i < events.len() ==> trace_actions(s, shutdown, events)[i]
            == Action::Idle,
    decreases events.len(),
{
    if events.len() > 0 {
        lemma_terminated_stays_idle(s, shutdown, events.drop_first());
        assert forall|i: int| 0 <= i < events.len() implies trace_actions(s, shutdown, events)[i]
            == Action::Idle by {
            if i > 0 {
                assert(trace_actions(s, shutdown, events)[i] == trace_actions(
                    s,
                    shutdown,
                    events.drop_first(),
                )[i - 1]);
            }
        }
    }
}

/// Law: once the shutdown flag is observed true, the loop performs no
/// further kernel-interface drain or dispatch work, and invokes the
/// shutdown/report operation exactly once: the first step reports and
/// terminates, and every later step is idle.
pub proof fn lemma_shutdown_reports_once(s: SchedState, events: Seq<Event>)
    requires
        !(s.phase is Terminated),
        events.len() > 0,
    ensures
        trace_actions(s, true, events).len() == events.len(),
        trace_actions(s, true, events)[0] == Action::Report,
        forall|i: int| 0 < i < events.len() ==> trace_actions(s, true, events)[i] == Action::Idle,
        forall|i: int| 0 <= i < events.len() ==> !(trace_actions(s, true, events)[i] is PollQueue),
        forall|i: int| 0 <= i < events.len() ==> !(trace_actions(s, true, events)[i] is Dispatch),
{
    let s1 = step_spec(s, true, events[0]).0;
    lemma_terminated_stays_idle(s1, true, events.drop_first());
    assert forall|i: int| 0 < i < events.len() implies trace_actions(s, true, events)[i]
        == Action::Idle by {
        assert(trace_actions(s, true, events)[i] == trace_actions(
            s1,
            true,
            events.drop_first(),
        )[i - 1]);
    }
}

} // verus!
