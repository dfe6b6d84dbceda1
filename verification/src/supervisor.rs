//! The supervisor's decisions.
//!
//! The supervisor owns a FIFO queue of tasks and at most one task in flight on
//! its worker. The front end runs its loop: it waits for a command (blocking
//! when the supervisor is idle, polling otherwise), drains worker events,
//! replaces a stuck worker, dispatches the next task and decides whether to
//! exit. Every decision of that loop is a method here; the front end performs
//! the channel and thread operations that the methods call for.

use vstd::prelude::*;

use crate::task::{SupervisorCmd, Task, WorkerEvent};
use crate::worker::outcome_event;

verus! {

/// How long, after shutdown was requested, in-flight work may still finish.
pub const SHUTDOWN_GRACE_NANOS: u64 = 2_000_000_000;

/// A worker without a heartbeat for longer than this is considered stuck.
pub const STUCK_TIMEOUT_NANOS: u64 = 120_000_000_000;

/// How long the loop waits for a command while there is work or a shutdown
/// in progress.
pub const POLL_TICK_MILLIS: u64 = 200;

/// The latest clock reading at which a shutdown deadline can still be set.
pub const LATEST_SHUTDOWN_REQUEST: u64 = 18_446_744_071_709_551_615;

/// How the loop waits for the next command.
#[derive(Debug, Clone, Copy, PartialEq, Eq, Structural)]
pub enum WaitMode {
    /// Nothing to do: block until a command arrives.
    Block,
    /// Work queued or in flight, or shutting down: wait at most this long.
    Poll { timeout_millis: u64 },
}

/// What waiting for a command gave.
#[derive(Debug)]
pub enum Received {
    Command(SupervisorCmd),
    /// The poll interval passed without a command.
    Timeout,
    /// The command channel is closed.
    Closed,
}

/// Whether the loop goes on, and if not, why it ends.
#[derive(Debug, Clone, Copy, PartialEq, Eq, Structural)]
pub enum SupervisorExit {
    Continue,
    /// Shutdown was requested and no work is left.
    Drained,
    /// Shutdown was requested and its deadline has passed.
    DeadlineReached,
}

/// The abstract state of a supervisor.
pub struct SupervisorModel {
    pub queue: Seq<Task>,
    pub in_flight: Option<Task>,
    pub shutdown_deadline: Option<u64>,
    pub last_heartbeat: u64,
}

impl SupervisorModel {
    /// Every task the supervisor still answers for, the in-flight one first.
    pub open spec fn pending(self) -> Seq<Task> {
        match self.in_flight {
            Some(t) => seq![t] + self.queue,
            None => self.queue,
        }
    }

    pub open spec fn is_idle(self) -> bool {
        &&& self.shutdown_deadline is None
        &&& self.in_flight is None
        &&& self.queue.len() == 0
    }

    /// Start the shutdown clock unless it already runs.
    pub open spec fn request_shutdown(self, now: u64) -> SupervisorModel {
        if self.shutdown_deadline is None {
            SupervisorModel {
                shutdown_deadline: Some((now + SHUTDOWN_GRACE_NANOS) as u64),
                ..self
            }
        } else {
            self
        }
    }

    pub open spec fn on_command(self, cmd: SupervisorCmd, now: u64) -> SupervisorModel {
        match cmd {
            SupervisorCmd::Enqueue(task) => {
                if self.shutdown_deadline is Some {
                    self
                } else {
                    SupervisorModel { queue: self.queue.push(task), ..self }
                }
            },
            SupervisorCmd::Shutdown => self.request_shutdown(now),
        }
    }

    /// Whether the in-flight task is the one with this id.
    pub open spec fn in_flight_is(self, task_id: u64) -> bool {
        self.in_flight matches Some(t) && t.id == task_id
    }

    pub open spec fn on_worker_event(self, ev: WorkerEvent, now: u64) -> SupervisorModel {
        match ev {
            WorkerEvent::Heartbeat { .. } => SupervisorModel { last_heartbeat: now, ..self },
            WorkerEvent::Started { .. } => SupervisorModel { last_heartbeat: now, ..self },
            WorkerEvent::Finished { task_id } => SupervisorModel {
                last_heartbeat: now,
                in_flight: if self.in_flight_is(task_id) {
                    None
                } else {
                    self.in_flight
                },
                ..self
            },
            WorkerEvent::Failed { task_id, .. } => SupervisorModel {
                last_heartbeat: now,
                in_flight: if self.in_flight_is(task_id) {
                    None
                } else {
                    self.in_flight
                },
                ..self
            },
            WorkerEvent::Stopped => self,
        }
    }

    /// Time since the last sign of life, zero if the clock reads earlier.
    pub open spec fn silence(self, now: u64) -> int {
        if now >= self.last_heartbeat {
            now - self.last_heartbeat
        } else {
            0
        }
    }

    pub open spec fn worker_is_stuck(self, now: u64) -> bool {
        &&& self.shutdown_deadline is None
        &&& self.in_flight is Some
        &&& self.silence(now) > STUCK_TIMEOUT_NANOS
    }

    /// A new worker replaces the old one; the in-flight task goes back to the
    /// front of the queue.
    pub open spec fn replace_worker(self, now: u64) -> SupervisorModel {
        SupervisorModel {
            queue: self.pending(),
            in_flight: None,
            last_heartbeat: now,
            ..self
        }
    }

    /// Whether a task may be dispatched now.
    pub open spec fn can_dispatch(self) -> bool {
        &&& self.shutdown_deadline is None
        &&& self.in_flight is None
        &&& self.queue.len() > 0
    }

    /// The task that is dispatched next, if any.
    pub open spec fn next_task(self) -> Option<Task> {
        if self.can_dispatch() {
            Some(self.queue[0])
        } else {
            None
        }
    }

    pub open spec fn after_take(self) -> SupervisorModel {
        if self.can_dispatch() {
            SupervisorModel { queue: self.queue.drop_first(), ..self }
        } else {
            self
        }
    }

    /// Sending the task failed: it goes back to the front, and the worker is
    /// replaced.
    pub open spec fn dispatch_failed(self, task: Task, now: u64) -> SupervisorModel {
        SupervisorModel { queue: seq![task] + self.queue, ..self }.replace_worker(now)
    }

    pub open spec fn dispatch_succeeded(self, task: Task, now: u64) -> SupervisorModel {
        SupervisorModel { in_flight: Some(task), last_heartbeat: now, ..self }
    }

    /// The first phase of an iteration: apply what waiting gave.
    pub open spec fn on_received(self, r: Received, now: u64) -> SupervisorModel {
        match r {
            Received::Command(cmd) => self.on_command(cmd, now),
            Received::Timeout => self,
            Received::Closed => self.request_shutdown(now),
        }
    }

    /// The second phase: apply the drained worker events, in order, each at
    /// the clock reading taken for it.
    pub open spec fn on_worker_events(self, evs: Seq<(WorkerEvent, u64)>) -> SupervisorModel
        decreases evs.len(),
    {
        if evs.len() == 0 {
            self
        } else {
            self.on_worker_event(evs[0].0, evs[0].1).on_worker_events(evs.drop_first())
        }
    }

    /// The third phase: replace a stuck worker.
    pub open spec fn health_check(self, now: u64) -> SupervisorModel {
        if self.worker_is_stuck(now) {
            self.replace_worker(now)
        } else {
            self
        }
    }

    /// The fourth phase: take the next task, if any, and account for whether
    /// sending it to the worker succeeded.
    pub open spec fn dispatch(self, sent: bool, now: u64) -> SupervisorModel {
        match self.next_task() {
            Some(t) => if sent {
                self.after_take().dispatch_succeeded(t, now)
            } else {
                self.after_take().dispatch_failed(t, now)
            },
            None => self,
        }
    }

    /// One iteration of the loop, before its exit decision: receive, drain
    /// worker events, check health, dispatch.
    pub open spec fn iteration(
        self,
        r: Received,
        received_at: u64,
        evs: Seq<(WorkerEvent, u64)>,
        checked_at: u64,
        sent: bool,
        dispatched_at: u64,
    ) -> SupervisorModel {
        self.on_received(r, received_at).on_worker_events(evs).health_check(checked_at).dispatch(
            sent,
            dispatched_at,
        )
    }

    pub open spec fn exit_decision(self, now: u64) -> SupervisorExit {
        if self.shutdown_deadline is Some && self.in_flight is None && self.queue.len() == 0 {
            SupervisorExit::Drained
        } else if self.shutdown_deadline matches Some(d) && now >= d {
            SupervisorExit::DeadlineReached
        } else {
            SupervisorExit::Continue
        }
    }
}

/// The supervisor's state: its queue, its in-flight task, the shutdown
/// deadline once shutdown was requested, and the last sign of life of its
/// worker. Clock readings are in nanoseconds.
pub struct SupervisorState {
    queue: std::collections::VecDeque<Task>,
    in_flight: Option<Task>,
    shutdown_deadline: Option<u64>,
    last_heartbeat: u64,
}

impl View for SupervisorState {
    type V = SupervisorModel;

    closed spec fn view(&self) -> SupervisorModel {
        SupervisorModel {
            queue: self.queue@,
            in_flight: self.in_flight,
            shutdown_deadline: self.shutdown_deadline,
            last_heartbeat: self.last_heartbeat,
        }
    }
}

impl SupervisorState {
    /// A supervisor with nothing to do, whose worker was just started.
    pub fn new(now: u64) -> (res: SupervisorState)
        ensures
            res@.queue == Seq::<Task>::empty(),
            res@.in_flight is None,
            res@.shutdown_deadline is None,
            res@.last_heartbeat == now,
    {
        SupervisorState {
            queue: std::collections::VecDeque::new(),
            in_flight: None,
            shutdown_deadline: None,
            last_heartbeat: now,
        }
    }

    pub fn queue_len(&self) -> (res: usize)
        ensures
            res == self@.queue.len(),
    {
        proof {
            broadcast use vstd::std_specs::vecdeque::axiom_spec_len;
        }
        self.queue.len()
    }

    /// The id of the in-flight task, if there is one.
    pub fn in_flight_id(&self) -> (res: Option<u64>)
        ensures
            res == (match self@.in_flight {
                Some(t) => Some(t.id),
                None => None,
            }),
    {
        match &self.in_flight {
            Some(t) => Some(t.id),
            None => None,
        }
    }

    pub fn shutdown_deadline(&self) -> (res: Option<u64>)
        ensures
            res == self@.shutdown_deadline,
    {
        self.shutdown_deadline
    }

    /// No pending work, no in-flight work and no shutdown in progress.
    pub fn is_idle(&self) -> (res: bool)
        ensures
            res == self@.is_idle(),
    {
        proof {
            broadcast use vstd::std_specs::vecdeque::axiom_spec_len;
        }
        self.shutdown_deadline.is_none() && self.in_flight.is_none() && self.queue.len() == 0
    }

    /// Block while idle; otherwise poll, so that worker events, the health
    /// check and the deadline keep being looked at.
    pub fn wait_mode(&self) -> (res: WaitMode)
        ensures
            res == (if self@.is_idle() {
                WaitMode::Block
            } else {
                WaitMode::Poll { timeout_millis: POLL_TICK_MILLIS }
            }),
    {
        if self.is_idle() {
            WaitMode::Block
        } else {
            WaitMode::Poll { timeout_millis: POLL_TICK_MILLIS }
        }
    }

    fn request_shutdown(&mut self, now: u64)
        requires
            old(self)@.shutdown_deadline is None ==> now <= LATEST_SHUTDOWN_REQUEST,
        ensures
            final(self)@ == old(self)@.request_shutdown(now),
    {
        if self.shutdown_deadline.is_none() {
            self.shutdown_deadline = Some(now + SHUTDOWN_GRACE_NANOS);
        }
    }

    /// Apply a command of the ingest loop: queue a task (ignored once shutdown
    /// was requested), or request shutdown.
    pub fn handle_supervisor_cmd(&mut self, cmd: SupervisorCmd, now: u64)
        requires
            cmd is Shutdown && old(self)@.shutdown_deadline is None ==> now
                <= LATEST_SHUTDOWN_REQUEST,
        ensures
            final(self)@ == old(self)@.on_command(cmd, now),
    {
        match cmd {
            SupervisorCmd::Enqueue(task) => {
                if self.shutdown_deadline.is_some() {
                    return;
                }
                self.queue.push_back(task);
            },
            SupervisorCmd::Shutdown => {
                self.request_shutdown(now);
            },
        }
    }

    /// The command channel was closed: no command will arrive again, so shut
    /// down.
    pub fn handle_commands_closed(&mut self, now: u64)
        requires
            old(self)@.shutdown_deadline is None ==> now <= LATEST_SHUTDOWN_REQUEST,
        ensures
            final(self)@ == old(self)@.request_shutdown(now),
    {
        self.request_shutdown(now);
    }

    /// Apply an event of the worker: every event but `Stopped` is a sign of
    /// life; `Finished` and `Failed` clear the in-flight task they name.
    pub fn handle_worker_event(&mut self, ev: WorkerEvent, now: u64)
        ensures
            final(self)@ == old(self)@.on_worker_event(ev, now),
    {
        match ev {
            WorkerEvent::Heartbeat { task_id: _ } => {
                self.last_heartbeat = now;
            },
            WorkerEvent::Started { task_id: _ } => {
                self.last_heartbeat = now;
            },
            WorkerEvent::Finished { task_id } => {
                self.last_heartbeat = now;
                if self.in_flight_matches(task_id) {
                    self.in_flight = None;
                }
            },
            WorkerEvent::Failed { task_id, error: _ } => {
                self.last_heartbeat = now;
                if self.in_flight_matches(task_id) {
                    self.in_flight = None;
                }
            },
            WorkerEvent::Stopped => {},
        }
    }

    fn in_flight_matches(&self, task_id: u64) -> (res: bool)
        ensures
            res == self@.in_flight_is(task_id),
    {
        match &self.in_flight {
            Some(t) => t.id == task_id,
            None => false,
        }
    }

    /// Apply what waiting for a command gave: a command, nothing, or the
    /// news that the channel is closed (which requests shutdown).
    pub fn handle_received(&mut self, r: Received, now: u64)
        requires
            (r is Closed || r matches Received::Command(SupervisorCmd::Shutdown))
                && old(self)@.shutdown_deadline is None ==> now <= LATEST_SHUTDOWN_REQUEST,
        ensures
            final(self)@ == old(self)@.on_received(r, now),
    {
        match r {
            Received::Command(cmd) => self.handle_supervisor_cmd(cmd, now),
            Received::Timeout => {},
            Received::Closed => self.handle_commands_closed(now),
        }
    }

    /// The health check of an iteration: when the worker is stuck, account
    /// for a new one and say so (the front end then stops the old worker and
    /// starts the new one).
    pub fn health_check(&mut self, now: u64) -> (replaced: bool)
        ensures
            replaced == old(self)@.worker_is_stuck(now),
            final(self)@ == old(self)@.health_check(now),
    {
        if self.worker_is_stuck(now) {
            self.replace_worker(now);
            true
        } else {
            false
        }
    }

    /// Health check: is there work in flight whose worker has been silent for
    /// longer than the stuck timeout (and no shutdown in progress)?
    pub fn worker_is_stuck(&self, now: u64) -> (res: bool)
        ensures
            res == self@.worker_is_stuck(now),
    {
        self.shutdown_deadline.is_none() && self.in_flight.is_some() && now.saturating_sub(
            self.last_heartbeat,
        ) > STUCK_TIMEOUT_NANOS
    }

    /// Account for a new worker: the in-flight task, if any, is queued again
    /// at the front (at-least-once execution), and the new worker counts as
    /// alive now. The front end stops the old worker and starts the new one.
    pub fn replace_worker(&mut self, now: u64)
        ensures
            final(self)@ == old(self)@.replace_worker(now),
    {
        let taken = self.in_flight.take();
        match taken {
            Some(task) => {
                self.queue.push_front(task);
            },
            None => {},
        }
        self.last_heartbeat = now;
    }

    /// Take the task to dispatch, if dispatching is allowed (no shutdown in
    /// progress, nothing in flight) and the queue holds one.
    pub fn take_next_task(&mut self) -> (res: Option<Task>)
        ensures
            res == old(self)@.next_task(),
            final(self)@ == old(self)@.after_take(),
    {
        if self.shutdown_deadline.is_none() && self.in_flight.is_none() {
            let next = self.queue.pop_front();
            proof {
                assert(old(self)@.queue.len() > 0 ==> self@.queue =~= old(self)@.queue.drop_first());
            }
            next
        } else {
            None
        }
    }

    /// The task could not be sent to the worker: put it back at the front and
    /// account for a new worker.
    pub fn dispatch_failed(&mut self, task: Task, now: u64)
        ensures
            final(self)@ == old(self)@.dispatch_failed(task, now),
    {
        self.queue.push_front(task);
        self.replace_worker(now);
    }

    /// The task was sent to the worker: it is in flight from now on.
    pub fn dispatch_succeeded(&mut self, task: Task, now: u64)
        ensures
            final(self)@ == old(self)@.dispatch_succeeded(task, now),
    {
        self.last_heartbeat = now;
        self.in_flight = Some(task);
    }

    /// Leave the loop once shutdown was requested and no work is left, or
    /// once the shutdown deadline has passed; the front end then stops the
    /// worker.
    pub fn exit_decision(&self, now: u64) -> (res: SupervisorExit)
        ensures
            res == self@.exit_decision(now),
    {
        proof {
            broadcast use vstd::std_specs::vecdeque::axiom_spec_len;
        }
        if self.shutdown_deadline.is_some() && self.in_flight.is_none() && self.queue.len() == 0 {
            return SupervisorExit::Drained;
        }
        match self.shutdown_deadline {
            Some(deadline) => {
                if now >= deadline {
                    SupervisorExit::DeadlineReached
                } else {
                    SupervisorExit::Continue
                }
            },
            None => SupervisorExit::Continue,
        }
    }
}

/// Replacing the worker loses no task and reorders none: the in-flight task
/// becomes the head of the queue (at-least-once execution).
pub proof fn law_replace_worker_keeps_pending(s: SupervisorModel, now: u64)
    ensures
        s.replace_worker(now).pending() == s.pending(),
        s.replace_worker(now).in_flight is None,
        s.replace_worker(now).shutdown_deadline == s.shutdown_deadline,
{
}

/// Taking the next task and then failing to send it leaves the queue as it
/// was before the take.
pub proof fn law_failed_dispatch_restores_queue(s: SupervisorModel, now: u64)
    requires
        s.can_dispatch(),
    ensures
        s.after_take().dispatch_failed(s.next_task()->0, now).queue == s.queue,
        s.after_take().dispatch_failed(s.next_task()->0, now).in_flight is None,
{
    assert(seq![s.queue[0]] + s.queue.drop_first() =~= s.queue);
}

/// A successful dispatch moves the head of the queue into flight: the pending
/// tasks, in order, stay the same.
pub proof fn law_dispatch_keeps_pending(s: SupervisorModel, now: u64)
    requires
        s.can_dispatch(),
    ensures
        s.after_take().dispatch_succeeded(s.next_task()->0, now).pending() == s.pending(),
        s.after_take().dispatch_succeeded(s.next_task()->0, now).in_flight == Some(s.queue[0]),
{
    assert(seq![s.queue[0]] + s.queue.drop_first() =~= s.queue);
}

/// Tasks are dispatched in the order they were queued, one at a time: the
/// task dispatched next is the head of the queue, and only when nothing is in
/// flight.
pub proof fn law_fifo_one_at_a_time(s: SupervisorModel)
    ensures
        s.next_task() matches Some(t) ==> t == s.queue[0] && s.in_flight is None && s.queue.len() > 0,
        s.in_flight is Some ==> s.next_task() is None,
{
}

/// Outside shutdown, queueing a task appends it after every pending task.
pub proof fn law_enqueue_appends(s: SupervisorModel, task: Task, now: u64)
    requires
        s.shutdown_deadline is None,
    ensures
        s.on_command(SupervisorCmd::Enqueue(task), now).pending() == s.pending().push(task),
        s.on_command(SupervisorCmd::Enqueue(task), now).in_flight == s.in_flight,
{
    match s.in_flight {
        Some(t) => {
            assert(seq![t] + s.queue.push(task) =~= (seq![t] + s.queue).push(task));
        },
        None => {},
    }
}

/// The first shutdown request sets the deadline to the grace period after the
/// request; later requests do not move it.
pub proof fn law_shutdown_deadline_once(s: SupervisorModel, now: u64)
    requires
        s.shutdown_deadline is None ==> now <= LATEST_SHUTDOWN_REQUEST,
    ensures
        s.shutdown_deadline is None ==> s.request_shutdown(now).shutdown_deadline == Some(
            (now + SHUTDOWN_GRACE_NANOS) as u64,
        ),
        s.shutdown_deadline is Some ==> s.request_shutdown(now) == s,
        s.request_shutdown(now).pending() == s.pending(),
{
}

/// Once shutdown was requested, it stays requested with the same deadline
/// whatever happens, no task is accepted and none is dispatched.
pub proof fn law_shutdown_is_final(
    s: SupervisorModel,
    cmd: SupervisorCmd,
    ev: WorkerEvent,
    task: Task,
    now: u64,
)
    requires
        s.shutdown_deadline is Some,
    ensures
        s.on_command(cmd, now).shutdown_deadline == s.shutdown_deadline,
        s.on_command(SupervisorCmd::Enqueue(task), now) == s,
        s.on_command(SupervisorCmd::Shutdown, now) == s,
        s.on_worker_event(ev, now).shutdown_deadline == s.shutdown_deadline,
        s.replace_worker(now).shutdown_deadline == s.shutdown_deadline,
        s.dispatch_failed(task, now).shutdown_deadline == s.shutdown_deadline,
        s.dispatch_succeeded(task, now).shutdown_deadline == s.shutdown_deadline,
        s.next_task() is None,
        s.after_take() == s,
        !s.worker_is_stuck(now),
{
}

/// A worker event never touches the queue; it ends the in-flight task only
/// when it is a `Finished` or `Failed` event naming that task.
pub proof fn law_worker_events_touch_only_named_task(s: SupervisorModel, ev: WorkerEvent, now: u64)
    ensures
        s.on_worker_event(ev, now).queue == s.queue,
        s.on_worker_event(ev, now).shutdown_deadline == s.shutdown_deadline,
        s.on_worker_event(ev, now).in_flight != s.in_flight ==> (match ev {
            WorkerEvent::Finished { task_id } => s.in_flight_is(task_id),
            WorkerEvent::Failed { task_id, .. } => s.in_flight_is(task_id),
            _ => false,
        }) && s.on_worker_event(ev, now).in_flight is None,
{
}

/// The loop ends only after shutdown was requested: drained when nothing is
/// pending, or when the clock has reached the deadline. Once the deadline has
/// passed the loop always ends.
pub proof fn law_exit_only_after_shutdown(s: SupervisorModel, now: u64)
    ensures
        s.exit_decision(now) != SupervisorExit::Continue ==> s.shutdown_deadline is Some,
        s.exit_decision(now) == SupervisorExit::Drained ==> s.pending().len() == 0,
        s.exit_decision(now) == SupervisorExit::DeadlineReached ==> now >= s.shutdown_deadline->0,
        s.shutdown_deadline matches Some(d) && now >= d ==> s.exit_decision(now)
            != SupervisorExit::Continue,
        s.shutdown_deadline is Some && s.pending().len() == 0 ==> s.exit_decision(now)
            == SupervisorExit::Drained,
{
}

/// The worker is only ever found stuck while a task is in flight and no
/// shutdown is in progress; an idle supervisor blocks, any other polls.
pub proof fn law_stuck_only_while_working(s: SupervisorModel, now: u64)
    ensures
        s.worker_is_stuck(now) ==> s.in_flight is Some && s.shutdown_deadline is None
            && !s.is_idle(),
        s.is_idle() ==> s.pending().len() == 0 && s.exit_decision(now) == SupervisorExit::Continue,
{
}

/// Worker events, however many, never touch the queue or the shutdown
/// deadline.
pub proof fn law_worker_events_keep_queue(s: SupervisorModel, evs: Seq<(WorkerEvent, u64)>)
    ensures
        s.on_worker_events(evs).queue == s.queue,
        s.on_worker_events(evs).shutdown_deadline == s.shutdown_deadline,
        s.in_flight is None ==> s.on_worker_events(evs).in_flight is None,
    decreases evs.len(),
{
    if evs.len() > 0 {
        law_worker_events_keep_queue(s.on_worker_event(evs[0].0, evs[0].1), evs.drop_first());
    }
}

/// The health check and the dispatch of an iteration lose no task and
/// reorder none, whether sending succeeds or not; a task goes into flight
/// only when nothing was in flight, and it is the head of the queue.
pub proof fn law_iteration_dispatch_one_at_a_time(s: SupervisorModel, t: u64, sent: bool, u: u64)
    ensures
        s.health_check(t).pending() == s.pending(),
        s.dispatch(sent, u).pending() == s.pending(),
        s.dispatch(sent, u).in_flight != s.in_flight ==> s.in_flight is None && s.queue.len() > 0
            && s.dispatch(sent, u).in_flight == Some(s.queue[0]),
        s.dispatch(sent, u).shutdown_deadline == s.shutdown_deadline,
{
    law_replace_worker_keeps_pending(s, t);
    if s.can_dispatch() {
        law_dispatch_keeps_pending(s, u);
        law_failed_dispatch_restores_queue(s, u);
    }
}

/// Once shutdown was requested, a whole iteration keeps the deadline and
/// the queue as they are: no task is accepted, none is dispatched, no worker
/// is replaced.
pub proof fn law_iteration_shutdown_is_final(
    s: SupervisorModel,
    r: Received,
    received_at: u64,
    evs: Seq<(WorkerEvent, u64)>,
    checked_at: u64,
    sent: bool,
    dispatched_at: u64,
)
    requires
        s.shutdown_deadline is Some,
    ensures
        s.iteration(r, received_at, evs, checked_at, sent, dispatched_at).shutdown_deadline
            == s.shutdown_deadline,
        s.iteration(r, received_at, evs, checked_at, sent, dispatched_at).queue == s.queue,
{
    let s1 = s.on_received(r, received_at);
    assert(s1 == s);
    law_worker_events_keep_queue(s1, evs);
}

/// Queued work makes progress: when an iteration without shutdown ends up
/// with nothing in flight and work queued after its health check, and
/// sending succeeds, the head of the queue goes into flight and the rest
/// moves up.
pub proof fn law_iteration_dispatches_head(
    s: SupervisorModel,
    r: Received,
    received_at: u64,
    evs: Seq<(WorkerEvent, u64)>,
    checked_at: u64,
    dispatched_at: u64,
)
    requires
        ({
            let c = s.on_received(r, received_at).on_worker_events(evs).health_check(checked_at);
            c.shutdown_deadline is None && c.in_flight is None && c.queue.len() > 0
        }),
    ensures
        ({
            let c = s.on_received(r, received_at).on_worker_events(evs).health_check(checked_at);
            let n = s.iteration(r, received_at, evs, checked_at, true, dispatched_at);
            &&& n.in_flight == Some(c.queue[0])
            &&& n.queue == c.queue.drop_first()
        }),
{
}

/// Each task that ends moves the queue up by one: when the in-flight task's
/// outcome arrives in an iteration without shutdown and sending succeeds,
/// the head of the queue is in flight at the end of that iteration.
pub proof fn law_iteration_outcome_advances_queue(
    s: SupervisorModel,
    task: Task,
    result: Result<(), String>,
    received_at: u64,
    event_at: u64,
    checked_at: u64,
    dispatched_at: u64,
)
    requires
        s.shutdown_deadline is None,
        s.in_flight == Some(task),
        s.queue.len() > 0,
    ensures
        ({
            let ev = outcome_event(task.id, result);
            let n = s.iteration(
                Received::Timeout,
                received_at,
                seq![(ev, event_at)],
                checked_at,
                true,
                dispatched_at,
            );
            &&& n.in_flight == Some(s.queue[0])
            &&& n.queue == s.queue.drop_first()
        }),
{
    let ev = outcome_event(task.id, result);
    let evs = seq![(ev, event_at)];
    let s1 = s.on_received(Received::Timeout, received_at);
    let s2 = s1.on_worker_event(ev, event_at);
    assert(evs[0] == (ev, event_at));
    assert(evs.drop_first() =~= Seq::<(WorkerEvent, u64)>::empty());
    assert(s2.on_worker_events(evs.drop_first()) == s2);
    assert(s1.on_worker_events(evs) == s2);
}

/// Only the worker's life counts as life: waiting for a command, whatever it
/// gave (a command, a poll interval passing, a closed channel), never moves
/// the last sign of life, and a poll interval passing changes nothing at all.
pub proof fn law_waiting_is_no_sign_of_life(s: SupervisorModel, r: Received, now: u64)
    ensures
        s.on_received(r, now).last_heartbeat == s.last_heartbeat,
        s.on_received(r, now).in_flight == s.in_flight,
        s.on_received(Received::Timeout, now) == s,
{
}

/// Every worker report but `Stopped` is a sign of life at the time it is
/// handled; `Stopped` is none.
pub proof fn law_worker_reports_are_signs_of_life(s: SupervisorModel, ev: WorkerEvent, now: u64)
    ensures
        !(ev is Stopped) ==> s.on_worker_event(ev, now).last_heartbeat == now,
        ev is Stopped ==> s.on_worker_event(ev, now) == s,
        s.on_worker_event((WorkerEvent::Started { task_id: 0 }), now).last_heartbeat == now,
{
}

/// A worker that hangs is found out: once a task is in flight and, with no
/// shutdown in progress, more than 120 s pass without a worker report, the
/// iteration that checks health puts the task back at the front of the queue,
/// however many poll intervals passed in between.
pub proof fn law_hung_worker_is_replaced(
    s: SupervisorModel,
    task: Task,
    sent_at: u64,
    ticks: Seq<u64>,
    checked_at: u64,
)
    requires
        s.shutdown_deadline is None,
        s.in_flight is None,
        checked_at > sent_at + 120_000_000_000,
    ensures
        ({
            let waited = waited_out(s.dispatch_succeeded(task, sent_at), ticks);
            &&& waited == s.dispatch_succeeded(task, sent_at)
            &&& waited.health_check(checked_at).in_flight is None
            &&& waited.health_check(checked_at).queue == seq![task] + s.queue
        }),
{
    lemma_waiting_out_changes_nothing(s.dispatch_succeeded(task, sent_at), ticks);
}

/// The state after a series of poll intervals passed without a command.
pub open spec fn waited_out(s: SupervisorModel, ticks: Seq<u64>) -> SupervisorModel
    decreases ticks.len(),
{
    if ticks.len() == 0 {
        s
    } else {
        waited_out(s.on_received(Received::Timeout, ticks[0]), ticks.drop_first())
    }
}

proof fn lemma_waiting_out_changes_nothing(s: SupervisorModel, ticks: Seq<u64>)
    ensures
        waited_out(s, ticks) == s,
    decreases ticks.len(),
{
    if ticks.len() > 0 {
        lemma_waiting_out_changes_nothing(s.on_received(Received::Timeout, ticks[0]), ticks.drop_first());
    }
}

/// A live worker is not replaced: after any report of it at `seen_at`, the
/// health check finds it stuck only once more than 120 s have passed since.
pub proof fn law_live_worker_is_kept(
    s: SupervisorModel,
    ev: WorkerEvent,
    seen_at: u64,
    checked_at: u64,
)
    requires
        !(ev is Stopped),
        seen_at <= checked_at <= seen_at + 120_000_000_000,
    ensures
        !s.on_worker_event(ev, seen_at).worker_is_stuck(checked_at),
        s.on_worker_event(ev, seen_at).health_check(checked_at) == s.on_worker_event(ev, seen_at),
{
}

} // verus!
