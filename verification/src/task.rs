//! Units of work and the messages exchanged between the ingest loop, the
//! supervisor and the worker.

use vstd::prelude::*;

verus! {

/// What happened that makes a task necessary.
#[derive(Debug, Clone)]
pub enum TaskKind {
    /// A relevant change happened to this path; downstream decides what to do.
    FileChanged { path: String },
}

/// A unit of work derived from filesystem notifications.
///
/// `created_at` is a reading of the monotonic clock, in nanoseconds since the
/// origin that the front end chose when it started.
#[derive(Debug, Clone)]
pub struct Task {
    pub id: u64,
    pub created_at: u64,
    pub kind: TaskKind,
}

/// Commands sent to the supervisor by the ingest loop.
#[derive(Debug)]
pub enum SupervisorCmd {
    Enqueue(Task),
    Shutdown,
}

/// Commands sent by the supervisor to its worker.
#[derive(Debug)]
pub enum WorkerCmd {
    Run(Task),
    Stop,
}

/// Events reported by the worker to the supervisor.
#[derive(Debug)]
pub enum WorkerEvent {
    Started { task_id: u64 },
    Heartbeat { task_id: u64 },
    Finished { task_id: u64 },
    Failed { task_id: u64, error: String },
    Stopped,
}

} // verus!
