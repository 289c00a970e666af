//! A vote-driven CPU scheduling policy core.
//!
//! The kernel hands this process a stream of runnable tasks and a dispatch
//! primitive; the policy decides which task runs next and for how long.
//! Exactly one of a small fixed set of competitor processes may run at a
//! time, chosen by whichever competitor leads an external vote tally.
//!
//! The policy core is written sans-IO: [`sched::Scheduler::run`] advances the
//! dispatch loop by one observed event and returns the next action for the
//! caller to perform. All network, process and kernel-interface work is done
//! by the (unverified) driver around the library.

pub mod competitor;
pub mod editor_poll;
pub mod oracle;
pub mod registry;
pub mod sched;
pub mod summer_poll;

pub use competitor::CompetitorRegistry;
pub use competitor::Competitors;
pub use competitor::UnknownCompetitor;
pub use oracle::OracleError;
pub use registry::QueuedTask;
pub use registry::Task;
pub use registry::TaskRegistry;
pub use sched::Action;
pub use sched::DispatchDecision;
pub use sched::Event;
pub use sched::Phase;
pub use sched::Scheduler;
