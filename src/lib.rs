//! A push-based remote execution engine: playbooks name hosts and an ordered
//! list of tasks; each matching host runs the tasks in order, with a
//! variable context that registered results fill.
//!
//! The library decides everything between the remote operations: which hosts
//! a playbook applies to, which tasks run under a tag filter, what each task
//! reads, computes and writes, and what a result leaves in the host's
//! variables. The caller performs the operations that it is asked for.

pub mod context;
pub mod executor;
pub mod outside;
pub mod playbook;
pub mod task;
pub mod worker;
