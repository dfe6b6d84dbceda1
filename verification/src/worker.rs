//! The worker's decisions: what it reports for each command, and when its
//! heartbeat fires.

use vstd::prelude::*;

use crate::supervisor::SupervisorModel;
use crate::task::{Task, TaskKind, WorkerCmd, WorkerEvent};

verus! {

/// How often a worker busy with a task reports that it is alive.
pub const HEARTBEAT_INTERVAL_MILLIS: u64 = 2000;

/// What the worker does with a command.
#[derive(Debug)]
pub enum WorkerDecision {
    /// Report `reply` and leave the loop.
    Stop { reply: WorkerEvent },
    /// Report `started`, then run `task` with heartbeats, then report its
    /// outcome.
    Run { started: WorkerEvent, task: Task },
}

/// What the heartbeat loop saw while waiting for its stop signal.
#[derive(Debug, Clone, Copy, PartialEq, Eq, Structural)]
pub enum StopSignal {
    /// The task is done: stop.
    Stop,
    /// The interval passed without a signal.
    Timeout,
    /// The task side is gone.
    Disconnected,
}

/// The task a worker event is about, if any.
pub open spec fn event_task_id(ev: WorkerEvent) -> Option<u64> {
    match ev {
        WorkerEvent::Started { task_id } => Some(task_id),
        WorkerEvent::Heartbeat { task_id } => Some(task_id),
        WorkerEvent::Finished { task_id } => Some(task_id),
        WorkerEvent::Failed { task_id, .. } => Some(task_id),
        WorkerEvent::Stopped => None,
    }
}

/// The report for a task that ended with `result`.
pub open spec fn outcome_event(task_id: u64, result: Result<(), String>) -> WorkerEvent {
    match result {
        Ok(()) => WorkerEvent::Finished { task_id },
        Err(error) => WorkerEvent::Failed { task_id, error },
    }
}

/// The decision for a command.
pub fn decide_worker_cmd(cmd: WorkerCmd) -> (res: WorkerDecision)
    ensures
        (match cmd {
            WorkerCmd::Stop => res == (WorkerDecision::Stop { reply: WorkerEvent::Stopped }),
            WorkerCmd::Run(task) => res == (WorkerDecision::Run {
                started: WorkerEvent::Started { task_id: task.id },
                task,
            }),
        }),
{
    match cmd {
        WorkerCmd::Stop => WorkerDecision::Stop { reply: WorkerEvent::Stopped },
        WorkerCmd::Run(task) => {
            let task_id = task.id;
            WorkerDecision::Run { started: WorkerEvent::Started { task_id }, task }
        },
    }
}

/// Carry out a task. The work is simulated: it always succeeds.
pub fn execute_task(task: &Task) -> (res: Result<(), String>)
    ensures
        res is Ok,
{
    match &task.kind {
        TaskKind::FileChanged { path: _ } => Ok(()),
    }
}

/// The report for a task that ended with `result`.
pub fn task_outcome(task_id: u64, result: Result<(), String>) -> (res: WorkerEvent)
    ensures
        res == outcome_event(task_id, result),
{
    match result {
        Ok(()) => WorkerEvent::Finished { task_id },
        Err(error) => WorkerEvent::Failed { task_id, error },
    }
}

/// Run a task and report how it ended.
pub fn run_task(task: &Task) -> (res: WorkerEvent)
    ensures
        res == (WorkerEvent::Finished { task_id: task.id }),
{
    let result = execute_task(task);
    task_outcome(task.id, result)
}

/// One round of the heartbeat loop: report a heartbeat for `task_id` when the
/// interval passed; stop otherwise (`None`).
pub fn heartbeat_step(task_id: u64, signal: StopSignal) -> (res: Option<WorkerEvent>)
    ensures
        res == (match signal {
            StopSignal::Timeout => Some(WorkerEvent::Heartbeat { task_id }),
            _ => None,
        }),
{
    match signal {
        StopSignal::Stop => None,
        StopSignal::Timeout => Some(WorkerEvent::Heartbeat { task_id }),
        StopSignal::Disconnected => None,
    }
}

/// Everything a worker reports while running a task is about that task: the
/// start, each heartbeat and the outcome; only the reply to `Stop` names no
/// task.
pub proof fn law_worker_reports_name_their_task(task: Task, result: Result<(), String>)
    ensures
        event_task_id((WorkerEvent::Started { task_id: task.id })) == Some(task.id),
        event_task_id((WorkerEvent::Heartbeat { task_id: task.id })) == Some(task.id),
        event_task_id(outcome_event(task.id, result)) == Some(task.id),
        event_task_id(WorkerEvent::Stopped) is None,
{
}

/// Once a task is dispatched, the worker's start report and its heartbeats
/// keep it in flight, and its outcome report, success or failure, ends its
/// flight; none of these reports touches the queue.
pub proof fn law_outcome_report_ends_flight(
    s: SupervisorModel,
    task: Task,
    result: Result<(), String>,
    sent_at: u64,
    now: u64,
)
    ensures
        s.dispatch_succeeded(task, sent_at).on_worker_event(
            (WorkerEvent::Started { task_id: task.id }),
            now,
        ).in_flight == Some(task),
        s.dispatch_succeeded(task, sent_at).on_worker_event(
            (WorkerEvent::Heartbeat { task_id: task.id }),
            now,
        ).in_flight == Some(task),
        s.dispatch_succeeded(task, sent_at).on_worker_event(
            outcome_event(task.id, result),
            now,
        ).in_flight is None,
        s.dispatch_succeeded(task, sent_at).on_worker_event(
            outcome_event(task.id, result),
            now,
        ).queue == s.queue,
        s.dispatch_succeeded(task, sent_at).on_worker_event(
            outcome_event(task.id, result),
            now,
        ).last_heartbeat == now,
{
}

} // verus!
