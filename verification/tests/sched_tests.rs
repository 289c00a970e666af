use democracy_scheduler::sched::TIME_SLICE_NS;
use democracy_scheduler::Action;
use democracy_scheduler::CompetitorRegistry;
use democracy_scheduler::DispatchDecision;
use democracy_scheduler::Event;
use democracy_scheduler::Phase;
use democracy_scheduler::QueuedTask;
use democracy_scheduler::Scheduler;

const S1: u32 = 100;
const S2: u32 = 200;

fn fresh() -> Scheduler {
    Scheduler::new(CompetitorRegistry::new(S1, S2))
}

fn tally(entries: &[(&str, u64)]) -> Vec<(String, u64)> {
    entries.iter().map(|(n, c)| (n.to_string(), *c)).collect()
}

/// Drives a fresh scheduler to the deciding phase with a snapshot for the
/// first competitor only.
fn at_deciding_with_s1_snapshot() -> Scheduler {
    let mut s = fresh();
    assert_eq!(
        s.run(false, Event::TaskDequeued(QueuedTask { pid: S1, cpu: 1 })),
        Action::PollQueue
    );
    assert_eq!(s.run(false, Event::QueueEmpty), Action::QueryOracle);
    s
}

#[test]
fn startup_registers_every_competitor_without_snapshot() {
    let s = fresh();
    let t1 = s.lookup_task(S1).unwrap();
    assert_eq!(t1.vruntime, 0);
    assert_eq!(t1.queued_task, None);
    let t2 = s.lookup_task(S2).unwrap();
    assert_eq!(t2.vruntime, 0);
    assert_eq!(t2.queued_task, None);
    assert_eq!(s.phase(), Phase::Draining);
}

#[test]
fn draining_records_competitor_tasks() {
    let mut s = fresh();
    let a = s.run(false, Event::TaskDequeued(QueuedTask { pid: S1, cpu: 3 }));
    assert_eq!(a, Action::PollQueue);
    let t = s.lookup_task(S1).unwrap();
    assert_eq!(t.queued_task, Some(QueuedTask { pid: S1, cpu: 3 }));
    assert_eq!(t.vruntime, 0);
}

#[test]
fn draining_discards_stranger_pids() {
    let mut s = fresh();
    let a = s.run(false, Event::TaskDequeued(QueuedTask { pid: 31, cpu: 0 }));
    assert_eq!(a, Action::PollQueue);
    assert_eq!(s.lookup_task(31), None);
}

#[test]
fn queue_error_aborts_draining_but_the_tick_proceeds() {
    let mut s = fresh();
    assert_eq!(s.run(false, Event::QueueError), Action::QueryOracle);
    assert_eq!(s.phase(), Phase::Deciding);
}

#[test]
fn oracle_failure_skips_the_tick_and_changes_no_task() {
    let mut s = at_deciding_with_s1_snapshot();
    let before = (s.lookup_task(S1), s.lookup_task(S2));
    let a = s.run(false, Event::OracleFailed);
    assert_eq!(a, Action::SleepBackoff);
    assert_eq!(s.phase(), Phase::Draining);
    assert_eq!((s.lookup_task(S1), s.lookup_task(S2)), before);
}

#[test]
fn unresolvable_reply_skips_the_tick_like_a_failure() {
    let mut s = at_deciding_with_s1_snapshot();
    let before = (s.lookup_task(S1), s.lookup_task(S2));
    let a = s.run(false, Event::OracleReply(tally(&[("nobody_votes", 3)])));
    assert_eq!(a, Action::SleepBackoff);
    assert_eq!(s.phase(), Phase::Draining);
    assert_eq!((s.lookup_task(S1), s.lookup_task(S2)), before);
}

#[test]
fn winner_without_snapshot_ends_the_tick_without_dispatch() {
    let mut s = at_deciding_with_s1_snapshot();
    let before = (s.lookup_task(S1), s.lookup_task(S2));
    let a = s.run(
        false,
        Event::OracleReply(tally(&[("summer1_votes", 1), ("summer2_votes", 5)])),
    );
    assert_eq!(a, Action::SleepPace);
    assert_eq!(s.phase(), Phase::Pacing);
    assert_eq!((s.lookup_task(S1), s.lookup_task(S2)), before);
}

#[test]
fn winner_with_snapshot_is_dispatched_with_the_fixed_slice() {
    let mut s = at_deciding_with_s1_snapshot();
    let a = s.run(
        false,
        Event::OracleReply(tally(&[("summer1_votes", 5), ("summer2_votes", 1)])),
    );
    assert_eq!(
        a,
        Action::Dispatch(DispatchDecision { pid: S1, cpu: 1, time_slice_ns: TIME_SLICE_NS })
    );
}

#[test]
fn successful_dispatch_charges_the_full_slice() {
    let mut s = at_deciding_with_s1_snapshot();
    s.run(
        false,
        Event::OracleReply(tally(&[("summer1_votes", 5), ("summer2_votes", 1)])),
    );
    let a = s.run(false, Event::Dispatched);
    assert_eq!(a, Action::SleepPace);
    assert_eq!(s.lookup_task(S1).unwrap().vruntime, TIME_SLICE_NS);
    assert_eq!(s.lookup_task(S2).unwrap().vruntime, 0);
}

#[test]
fn failed_dispatch_charges_nothing() {
    let mut s = at_deciding_with_s1_snapshot();
    s.run(
        false,
        Event::OracleReply(tally(&[("summer1_votes", 5), ("summer2_votes", 1)])),
    );
    let a = s.run(false, Event::DispatchFailed);
    assert_eq!(a, Action::SleepPace);
    assert_eq!(s.lookup_task(S1).unwrap().vruntime, 0);
}

#[test]
fn repeated_winning_ticks_accumulate_vruntime() {
    let mut s = at_deciding_with_s1_snapshot();
    s.run(
        false,
        Event::OracleReply(tally(&[("summer1_votes", 5), ("summer2_votes", 1)])),
    );
    s.run(false, Event::Dispatched);
    assert_eq!(s.run(false, Event::Slept), Action::PollQueue);
    assert_eq!(s.run(false, Event::QueueEmpty), Action::QueryOracle);
    s.run(
        false,
        Event::OracleReply(tally(&[("summer1_votes", 6), ("summer2_votes", 1)])),
    );
    s.run(false, Event::Dispatched);
    assert_eq!(s.lookup_task(S1).unwrap().vruntime, 2 * TIME_SLICE_NS);
}

#[test]
fn pacing_sleep_returns_the_loop_to_draining() {
    let mut s = at_deciding_with_s1_snapshot();
    s.run(
        false,
        Event::OracleReply(tally(&[("summer1_votes", 5), ("summer2_votes", 1)])),
    );
    s.run(false, Event::Dispatched);
    assert_eq!(s.phase(), Phase::Pacing);
    assert_eq!(s.run(false, Event::Slept), Action::PollQueue);
    assert_eq!(s.phase(), Phase::Draining);
}

#[test]
fn shutdown_reports_exactly_once_then_stays_idle() {
    let mut s = at_deciding_with_s1_snapshot();
    assert_eq!(s.run(true, Event::OracleFailed), Action::Report);
    assert_eq!(s.phase(), Phase::Terminated);
    assert_eq!(s.run(true, Event::QueueEmpty), Action::Idle);
    assert_eq!(s.run(false, Event::Slept), Action::Idle);
    assert_eq!(
        s.run(false, Event::TaskDequeued(QueuedTask { pid: S1, cpu: 0 })),
        Action::Idle
    );
    assert_eq!(s.phase(), Phase::Terminated);
}

#[test]
fn shutdown_is_observed_at_the_top_of_any_phase() {
    let mut s = fresh();
    assert_eq!(s.run(true, Event::Slept), Action::Report);
    assert_eq!(s.phase(), Phase::Terminated);
}

#[test]
fn an_event_that_does_not_fit_the_phase_changes_nothing() {
    let mut s = fresh();
    let a = s.run(false, Event::Dispatched);
    assert_eq!(a, Action::Idle);
    assert_eq!(s.phase(), Phase::Draining);
    assert_eq!(s.lookup_task(S1).unwrap().vruntime, 0);
}

#[test]
fn both_competitors_share_a_pid_consistently() {
    let mut s = Scheduler::new(CompetitorRegistry::new(77, 77));
    s.run(false, Event::TaskDequeued(QueuedTask { pid: 77, cpu: 0 }));
    s.run(false, Event::QueueEmpty);
    let a = s.run(
        false,
        Event::OracleReply(tally(&[("summer2_votes", 9), ("summer1_votes", 2)])),
    );
    assert_eq!(
        a,
        Action::Dispatch(DispatchDecision { pid: 77, cpu: 0, time_slice_ns: TIME_SLICE_NS })
    );
}
