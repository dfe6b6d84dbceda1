//! The ingest loop's decisions: which notifications become tasks, and with
//! which ids.

use vstd::prelude::*;

use crate::config::Config;
use crate::filter::{filter_new_or_modified_file_event, is_new_or_modified_file_event, FileEvent};
use crate::task::{Task, TaskKind};

verus! {

/// A message to the ingest loop: a notification (or a watcher error, by its
/// message), or a request to shut down.
#[derive(Debug)]
pub enum RunnerMsg {
    Notify(Result<FileEvent, String>),
    Shutdown,
}

/// What the ingest loop does with a message.
#[derive(Debug)]
pub enum IngestStep {
    /// Ask the supervisor to shut down, and leave the loop.
    Shutdown,
    /// Queue these tasks, in order.
    Enqueue(Vec<Task>),
    /// Nothing to do.
    Ignore,
}

/// The source of task ids: one id per relevant notification, counting up from
/// 1 and wrapping around.
pub struct TaskIds {
    next: u64,
}

impl View for TaskIds {
    type V = u64;

    closed spec fn view(&self) -> u64 {
        self.next
    }
}

/// The id that follows `id`.
pub open spec fn following_id(id: u64) -> u64 {
    if id == u64::MAX {
        0
    } else {
        (id + 1) as u64
    }
}

/// `tasks` holds one task per path of `event`, in order, each with id
/// `task_id`, created at `now`, about its path.
pub open spec fn tasks_for(tasks: Seq<Task>, event: FileEvent, task_id: u64, now: u64) -> bool {
    &&& tasks.len() == event.paths@.len()
    &&& forall|i: int|
        0 <= i < tasks.len() ==> {
            &&& (#[trigger] tasks[i]).id == task_id
            &&& tasks[i].created_at == now
            &&& tasks[i].kind matches TaskKind::FileChanged { path } && path@
                == event.paths@[i].path@
        }
}

impl TaskIds {
    pub fn new() -> (res: TaskIds)
        ensures
            res@ == 1,
    {
        TaskIds { next: 1 }
    }

    /// Hand out the next id.
    pub fn fetch_next(&mut self) -> (res: u64)
        ensures
            res == old(self)@,
            final(self)@ == following_id(old(self)@),
    {
        let id = self.next;
        self.next = self.next.wrapping_add(1);
        id
    }
}

/// One task per path of the notification, all with the same id.
pub fn tasks_for_event(event: &FileEvent, task_id: u64, now: u64) -> (res: Vec<Task>)
    ensures
        tasks_for(res@, *event, task_id, now),
{
    let mut tasks: Vec<Task> = Vec::new();
    let n = event.paths.len();
    let mut i: usize = 0;
    while i < n
        invariant
            n == event.paths@.len(),
            i <= n,
            tasks@.len() == i,
            forall|j: int|
                0 <= j < i ==> {
                    &&& (#[trigger] tasks@[j]).id == task_id
                    &&& tasks@[j].created_at == now
                    &&& tasks@[j].kind matches TaskKind::FileChanged { path } && path@
                        == event.paths@[j].path@
                },
        decreases n - i,
    {
        let path = event.paths[i].path.clone();
        tasks.push(Task { id: task_id, created_at: now, kind: TaskKind::FileChanged { path } });
        i = i + 1;
    }
    tasks
}

/// Decide what a message means for the ingest loop. A notification of a new
/// or modified regular file with a supported extension takes the next id and
/// becomes one task per path; shutdown is passed on;
/// watcher errors and other notifications are dropped.
pub fn ingest_message(cfg: &Config, msg: RunnerMsg, ids: &mut TaskIds, now: u64) -> (res:
    IngestStep)
    ensures
        (match msg {
            RunnerMsg::Shutdown => res is Shutdown && final(ids)@ == old(ids)@,
            RunnerMsg::Notify(Err(_)) => res is Ignore && final(ids)@ == old(ids)@,
            RunnerMsg::Notify(Ok(event)) => if is_new_or_modified_file_event(cfg.extensions(), event) {
                &&& res matches IngestStep::Enqueue(tasks) && tasks_for(
                    tasks@,
                    event,
                    old(ids)@,
                    now,
                )
                &&& final(ids)@ == following_id(old(ids)@)
            } else {
                res is Ignore && final(ids)@ == old(ids)@
            },
        }),
{
    match msg {
        RunnerMsg::Shutdown => IngestStep::Shutdown,
        RunnerMsg::Notify(Err(_)) => IngestStep::Ignore,
        RunnerMsg::Notify(Ok(event)) => {
            match filter_new_or_modified_file_event(cfg, event) {
                Some(relevant) => {
                    let task_id = ids.fetch_next();
                    IngestStep::Enqueue(tasks_for_event(&relevant, task_id, now))
                },
                None => IngestStep::Ignore,
            }
        },
    }
}

} // verus!
