//! The scheduler's view of every task the kernel has offered it: pid to
//! last known queued-task snapshot and accumulated virtual runtime.

use std::collections::HashMap;
use vstd::prelude::*;

verus! {

broadcast use vstd::std_specs::hash::group_hash_axioms;

/// The identity fields of one runnable-task snapshot handed over by the
/// kernel interface: a process identifier and a CPU affinity hint. The
/// scheduler never mutates a snapshot, only re-wraps it for dispatch.
#[derive(Clone, Copy, Debug, PartialEq, Eq)]
pub struct QueuedTask {
    pub pid: u32,
    pub cpu: i32,
}

/// The scheduler's knowledge of one kernel-visible task: created the first
/// time the kernel offers that pid, refreshed each time it is re-offered,
/// and never destroyed.
#[derive(Clone, Copy, Debug, PartialEq, Eq)]
pub struct Task {
    pub pid: u32,
    /// Accumulated virtual runtime in nanoseconds; non-decreasing, credited
    /// only after a successful dispatch.
    pub vruntime: u64,
    /// Last queued-task snapshot, or absent while the kernel has not yet
    /// offered this pid since startup.
    pub queued_task: Option<QueuedTask>,
}

/// `a + b` clamped to the largest `u64` value.
pub open spec fn sat_add(a: u64, b: u64) -> u64 {
    if a + b <= u64::MAX {
        (a + b) as u64
    } else {
        u64::MAX
    }
}

/// A registry after an entry for `pid` is created, if none exists yet.
pub open spec fn registered(m: Map<u32, Task>, pid: u32) -> Map<u32, Task> {
    if m.contains_key(pid) {
        m
    } else {
        m.insert(pid, Task { pid, vruntime: 0, queued_task: None })
    }
}

/// A registry after the snapshot for `pid` is inserted or refreshed: the
/// accumulated virtual runtime is preserved if the entry already exists.
pub open spec fn recorded(m: Map<u32, Task>, pid: u32, qt: QueuedTask) -> Map<u32, Task> {
    m.insert(
        pid,
        Task {
            pid,
            vruntime: if m.contains_key(pid) {
                m[pid].vruntime
            } else {
                0
            },
            queued_task: Some(qt),
        },
    )
}

/// A registry after `delta` nanoseconds are credited to `pid`: a no-op if
/// the pid is unknown, and clamped at the numeric limit.
pub open spec fn charged(m: Map<u32, Task>, pid: u32, delta: u64) -> Map<u32, Task> {
    if m.contains_key(pid) {
        m.insert(pid, Task { vruntime: sat_add(m[pid].vruntime, delta), ..m[pid] })
    } else {
        m
    }
}

/// A registry after `delta` is credited to `pid` a total of `n` times.
pub open spec fn charged_n(m: Map<u32, Task>, pid: u32, delta: u64, n: nat) -> Map<u32, Task>
    decreases n,
{
    if n == 0 {
        m
    } else {
        charged(charged_n(m, pid, delta, (n - 1) as nat), pid, delta)
    }
}

/// pid to task knowledge. Entries are never removed: the competitor set is
/// small and fixed for the lifetime of the scheduler.
pub struct TaskRegistry {
    tasks: HashMap<u32, Task>,
}

impl View for TaskRegistry {
    type V = Map<u32, Task>;

    closed spec fn view(&self) -> Map<u32, Task> {
        self.tasks@
    }
}

impl TaskRegistry {
    /// An empty registry.
    pub fn new() -> (r: TaskRegistry)
        ensures
            r@ == Map::<u32, Task>::empty(),
    {
        TaskRegistry { tasks: HashMap::new() }
    }

    /// Creates an empty entry for `pid` (no snapshot, zero virtual runtime)
    /// unless one already exists.
    pub fn register(&mut self, pid: u32)
        ensures
            final(self)@ == registered(old(self)@, pid),
    {
        if !self.tasks.contains_key(&pid) {
            self.tasks.insert(pid, Task { pid, vruntime: 0, queued_task: None });
        }
    }

    /// Inserts or refreshes the snapshot for `pid`, preserving its
    /// accumulated virtual runtime if the entry already exists.
    pub fn record(&mut self, pid: u32, qt: QueuedTask)
        ensures
            final(self)@ == recorded(old(self)@, pid, qt),
    {
        let vruntime: u64 = match self.tasks.get(&pid) {
            Some(t) => t.vruntime,
            None => 0,
        };
        self.tasks.insert(pid, Task { pid, vruntime, queued_task: Some(qt) });
    }

    /// Pure read of the entry for `pid`.
    pub fn lookup(&self, pid: u32) -> (r: Option<Task>)
        ensures
            r == (if self@.contains_key(pid) {
                Some(self@[pid])
            } else {
                None::<Task>
            }),
    {
        match self.tasks.get(&pid) {
            Some(t) => Some(*t),
            None => None,
        }
    }

    /// Credits `delta` nanoseconds of virtual runtime to `pid`; a no-op if
    /// the pid is unknown. The credit saturates at the numeric limit, so the
    /// stored virtual runtime never decreases.
    pub fn charge(&mut self, pid: u32, delta: u64)
        ensures
            final(self)@ == charged(old(self)@, pid, delta),
            old(self)@.contains_key(pid) ==> final(self)@[pid].vruntime >= old(self)@[pid].vruntime,
    {
        let entry: Option<Task> = match self.tasks.get(&pid) {
            Some(t) => Some(*t),
            None => None,
        };
        match entry {
            Some(t) => {
                let vruntime: u64 = if t.vruntime <= u64::MAX - delta {
                    t.vruntime + delta
                } else {
                    u64::MAX
                };
                self.tasks.insert(pid, Task { vruntime, ..t });
            },
            None => {},
        }
    }
}

/// Law: crediting `pid` with `delta` a total of `n` times increases its
/// virtual runtime by exactly `n * delta`, as long as the sum stays within
/// the numeric limit, and touches no other entry.
pub proof fn lemma_charge_accumulates(m: Map<u32, Task>, pid: u32, delta: u64, n: nat)
    requires
        m.contains_key(pid),
        m[pid].vruntime + n * delta <= u64::MAX,
    ensures
        charged_n(m, pid, delta, n).contains_key(pid),
        charged_n(m, pid, delta, n)[pid].vruntime == m[pid].vruntime + n * delta,
        charged_n(m, pid, delta, n)[pid].pid == m[pid].pid,
        charged_n(m, pid, delta, n)[pid].queued_task == m[pid].queued_task,
        forall|q: u32| q != pid ==> charged_n(m, pid, delta, n).contains_key(q) == m.contains_key(
            q,
        ),
        forall|q: u32| q != pid && m.contains_key(q) ==> charged_n(m, pid, delta, n)[q] == m[q],
    decreases n,
{
    if n == 0 {
        assert(n * delta == 0) by (nonlinear_arith)
            requires
                n == 0,
        ;
    } else {
        assert(n * delta == (n - 1) * delta + delta) by (nonlinear_arith)
            requires
                n > 0,
        ;
        assert((n - 1) * delta >= 0) by (nonlinear_arith)
            requires
                n > 0,
        ;
        lemma_charge_accumulates(m, pid, delta, (n - 1) as nat);
    }
}

/// Law: a credit never decreases any stored virtual runtime, and never adds
/// or removes an entry.
pub proof fn lemma_charge_monotone(m: Map<u32, Task>, pid: u32, delta: u64, q: u32)
    ensures
        charged(m, pid, delta).contains_key(q) == m.contains_key(q),
        m.contains_key(q) ==> charged(m, pid, delta)[q].vruntime >= m[q].vruntime,
{
}

} // verus!
