//! Job scheduling: the data model, the trigger parser, the pending queue, the
//! execution bookkeeping, the monitor and the facade over them.

pub mod calendar;
pub mod cli;
pub mod executor;
pub mod job;
pub mod monitor;
pub mod parser;
pub mod persistence;
pub mod queue;
pub mod recurrence;
pub mod search;
pub mod text;
pub mod time;

use vstd::prelude::*;
use vstd::string::*;
use crate::scheduler::executor::{
    ExecutorError, ExecutorErrorView, ExecutorView, JobExecutionRequest, JobExecutionRequestView,
    JobExecutor, NextStep, NextStepView, ProcessOutcome, ProcessOutcomeView, ProcessPlan,
};
use crate::scheduler::job::{Job, JobId, JobStatus, JobStatusView, JobView};
use crate::scheduler::monitor::{
    is_tracked, with_status, with_tracked, with_untracked, JobHealthView, JobMonitor, MonitorError,
    MonitorErrorView,
};
use crate::scheduler::parser::{pattern_fault, schedule_fault, Parser, ParserError, ScheduleFault};
use crate::scheduler::persistence::{
    cache_of, cached_at, is_cached, is_job, job_views, lemma_with_cached, one_job_each,
    with_cached, without_cached, JobPersistence, PersistenceError, PersistenceErrorView,
};
use crate::scheduler::queue::{
    contains_job, count_of, entry_of, inserted, lemma_count_of, lemma_inserted_contains,
    lemma_remove_twice, next_due, queue_key, well_formed, without, JobQueue, QueueError,
    QueueErrorView, QueuedJobView,
};
use crate::scheduler::search::{first_index, lemma_first_index, lemma_first_index_is};
use crate::scheduler::time::{current_time, Timestamp};

verus! {

/// A job together with its current status.
#[derive(Debug, PartialEq, Eq)]
pub struct JobInfo {
    pub job: Job,
    pub status: JobStatus,
}

/// A job with its status, over sequences of characters.
pub struct JobInfoView {
    pub job: JobView,
    pub status: JobStatusView,
}

impl View for JobInfo {
    type V = JobInfoView;

    open spec fn view(&self) -> JobInfoView {
        JobInfoView { job: self.job@, status: self.status@ }
    }
}

/// Errors that can occur in the scheduler.
#[derive(Debug, PartialEq, Eq)]
pub enum SchedulerError {
    InvalidCronExpression(String),
    InvalidJob(String),
    JobNotFound(String),
    PersistenceError(PersistenceError),
    QueueError(QueueError),
    ExecutorError(ExecutorError),
    MonitorError(MonitorError),
    IoError(String),
}

/// A scheduler error over sequences of characters.
pub enum SchedulerErrorView {
    InvalidCronExpression(Seq<char>),
    InvalidJob(Seq<char>),
    JobNotFound(Seq<char>),
    PersistenceError(PersistenceErrorView),
    QueueError(QueueErrorView),
    ExecutorError(ExecutorErrorView),
    MonitorError(MonitorErrorView),
    IoError(Seq<char>),
}

impl SchedulerErrorView {
    /// The error as one line of text.
    pub open spec fn text(self) -> Seq<char> {
        match self {
            SchedulerErrorView::InvalidCronExpression(m) => "Invalid cron expression: "@ + m,
            SchedulerErrorView::InvalidJob(m) => "Invalid job configuration: "@ + m,
            SchedulerErrorView::JobNotFound(m) => "Job not found: "@ + m,
            SchedulerErrorView::PersistenceError(e) => "Persistence error: "@ + e.text(),
            SchedulerErrorView::QueueError(e) => "Queue error: "@ + e.text(),
            SchedulerErrorView::ExecutorError(e) => "Executor error: "@ + e.text(),
            SchedulerErrorView::MonitorError(e) => "Monitor error: "@ + e.text(),
            SchedulerErrorView::IoError(m) => "IO error: "@ + m,
        }
    }
}

impl View for SchedulerError {
    type V = SchedulerErrorView;

    open spec fn view(&self) -> SchedulerErrorView {
        match *self {
            SchedulerError::InvalidCronExpression(m) => SchedulerErrorView::InvalidCronExpression(
                m@,
            ),
            SchedulerError::InvalidJob(m) => SchedulerErrorView::InvalidJob(m@),
            SchedulerError::JobNotFound(m) => SchedulerErrorView::JobNotFound(m@),
            SchedulerError::PersistenceError(e) => SchedulerErrorView::PersistenceError(e@),
            SchedulerError::QueueError(e) => SchedulerErrorView::QueueError(e@),
            SchedulerError::ExecutorError(e) => SchedulerErrorView::ExecutorError(e@),
            SchedulerError::MonitorError(e) => SchedulerErrorView::MonitorError(e@),
            SchedulerError::IoError(m) => SchedulerErrorView::IoError(m@),
        }
    }
}

impl SchedulerError {
    /// The error as one line of text.
    pub fn describe(&self) -> (line: String)
        ensures
            line@ == self@.text(),
    {
        match self {
            SchedulerError::InvalidCronExpression(m) => String::from_str(
                "Invalid cron expression: ",
            ).concat(m.as_str()),
            SchedulerError::InvalidJob(m) => String::from_str("Invalid job configuration: ").concat(
                m.as_str(),
            ),
            SchedulerError::JobNotFound(m) => String::from_str("Job not found: ").concat(m.as_str()),
            SchedulerError::PersistenceError(e) => String::from_str("Persistence error: ").concat(
                e.describe().as_str(),
            ),
            SchedulerError::QueueError(e) => String::from_str("Queue error: ").concat(
                e.describe().as_str(),
            ),
            SchedulerError::ExecutorError(e) => String::from_str("Executor error: ").concat(
                e.describe().as_str(),
            ),
            SchedulerError::MonitorError(e) => String::from_str("Monitor error: ").concat(
                e.describe().as_str(),
            ),
            SchedulerError::IoError(m) => String::from_str("IO error: ").concat(m.as_str()),
        }
    }
}

/// What is wrong with the definition of a job: the first of these that
/// applies.
pub enum DefinitionFault {
    /// The cron expression is not valid.
    Cron,
    /// The zone of the schedule is not known.
    Timezone,
    /// The event trigger is not valid.
    Event,
    /// The pattern trigger is not valid.
    Pattern,
    /// More than one other trigger stands beside the cron expression.
    Triggers,
    /// The command is empty.
    Command,
}

/// How many of the one-time instant, the event trigger and the pattern
/// trigger a job has.
pub open spec fn other_triggers(job: JobView) -> nat {
    (if job.schedule.at is Some {
        1nat
    } else {
        0nat
    }) + (if job.schedule.event is Some {
        1nat
    } else {
        0nat
    }) + (if job.schedule.pattern is Some {
        1nat
    } else {
        0nat
    })
}

/// What is wrong with the definition of a job, if anything. The schedule is
/// looked at first; then whether a cron expression stands beside more than
/// one other trigger; then whether there is a command.
pub open spec fn definition_fault(job: JobView) -> Option<DefinitionFault> {
    match schedule_fault(job.schedule) {
        Some(ScheduleFault::Cron) => Some(DefinitionFault::Cron),
        Some(ScheduleFault::Timezone) => Some(DefinitionFault::Timezone),
        Some(ScheduleFault::Event) => Some(DefinitionFault::Event),
        Some(ScheduleFault::Pattern) => Some(DefinitionFault::Pattern),
        None => if job.schedule.cron is Some && other_triggers(job) > 1 {
            Some(DefinitionFault::Triggers)
        } else if job.command.len() == 0 {
            Some(DefinitionFault::Command)
        } else {
            None
        },
    }
}

/// The state of a scheduler: the queue of pending jobs, the job definitions
/// that are stored, the runs, the health of the jobs, and whether the
/// scheduler runs.
pub struct SchedulerView {
    pub queue: Seq<QueuedJobView>,
    pub stored: Seq<JobView>,
    pub executor: ExecutorView,
    pub monitor: Seq<JobHealthView>,
    pub running: bool,
}

impl SchedulerView {
    /// The state after the job `job` was added at `now`: it is stored, it
    /// waits in the queue, and it is tracked.
    pub open spec fn with_job(self, job: JobView, now: Timestamp) -> SchedulerView {
        SchedulerView {
            queue: inserted(self.queue, entry_of(job, now)),
            stored: with_cached(self.stored, job),
            monitor: with_tracked(self.monitor, job.id, now),
            ..self
        }
    }

    /// The state after the job `id` was removed: it is gone from the queue
    /// and from the store and is tracked no more. A job that does not wait
    /// in the queue is not removed, and the state is as it was.
    pub open spec fn removed(self, id: Seq<char>) -> SchedulerView {
        if contains_job(self.queue, id) {
            SchedulerView {
                queue: without(self.queue, id),
                stored: without_cached(self.stored, id),
                monitor: with_untracked(self.monitor, id),
                ..self
            }
        } else {
            self
        }
    }

    /// The state after the stored job `id` was enabled or disabled at `now`:
    /// its definition is stored with the flag and with `now` as the instant
    /// of its modification, and it waits in the queue with the next
    /// execution that it now has. Without such a job the state is as it was.
    pub open spec fn with_enabled(self, id: Seq<char>, enabled: bool, now: Timestamp) -> SchedulerView {
        if is_cached(self.stored, id) {
            let job = JobView { enabled, updated_at: now, ..self.stored[cached_at(self.stored, id)] };
            SchedulerView {
                queue: inserted(without(self.queue, id), entry_of(job, now)),
                stored: with_cached(self.stored, job),
                ..self
            }
        } else {
            self
        }
    }

    /// The state after the jobs `jobs` were taken up at `now`, one after the
    /// other: each goes into the queue unless the queue holds it already,
    /// and is tracked unless it is tracked already.
    pub open spec fn loaded(self, jobs: Seq<JobView>, now: Timestamp) -> SchedulerView
        decreases jobs.len(),
    {
        if jobs.len() == 0 {
            self
        } else {
            let before = self.loaded(jobs.drop_last(), now);
            let job = jobs.last();
            SchedulerView {
                queue: if contains_job(before.queue, job.id) {
                    before.queue
                } else {
                    inserted(before.queue, entry_of(job, now))
                },
                monitor: if is_tracked(before.monitor, job.id) {
                    before.monitor
                } else {
                    with_tracked(before.monitor, job.id, now)
                },
                ..before
            }
        }
    }

    /// The state after a start at `now` with the job definitions `persisted`
    /// found in storage: they are the stored jobs, each of them waits in the
    /// queue and is tracked, and the scheduler runs.
    pub open spec fn started(self, persisted: Seq<JobView>, now: Timestamp) -> SchedulerView {
        SchedulerView { stored: cache_of(persisted), running: true, ..self }.loaded(
            cache_of(persisted),
            now,
        )
    }

    /// The state after a stop at `now`: every run is recorded as cancelled,
    /// and the scheduler runs no more.
    pub open spec fn stopped(self, now: Timestamp) -> SchedulerView {
        SchedulerView { executor: self.executor.drained(now), running: false, ..self }
    }

    /// The jobs that a tick at `now` dispatches, in the order of their
    /// dispatch: the job that is dispatched next, again and again until none
    /// is.
    pub open spec fn dispatched(queue: Seq<QueuedJobView>, now: Timestamp) -> Seq<JobView>
        decreases queue.len(),
    {
        match next_due(queue, now) {
            Some(i) => if 0 <= i < queue.len() {
                seq![queue[i].job] + Self::dispatched(queue.remove(i), now)
            } else {
                Seq::empty()
            },
            None => Seq::empty(),
        }
    }

    /// The entries that a tick at `now` takes out of the queue, in the order
    /// of their dispatch.
    pub open spec fn dispatched_entries(queue: Seq<QueuedJobView>, now: Timestamp) -> Seq<
        QueuedJobView,
    >
        decreases queue.len(),
    {
        match next_due(queue, now) {
            Some(i) => if 0 <= i < queue.len() {
                seq![queue[i]] + Self::dispatched_entries(queue.remove(i), now)
            } else {
                Seq::empty()
            },
            None => Seq::empty(),
        }
    }

    /// The queue that a tick at `now` leaves.
    pub open spec fn after_tick(queue: Seq<QueuedJobView>, now: Timestamp) -> Seq<QueuedJobView>
        decreases queue.len(),
    {
        match next_due(queue, now) {
            Some(i) => if 0 <= i < queue.len() {
                Self::after_tick(queue.remove(i), now)
            } else {
                queue
            },
            None => queue,
        }
    }

    /// Whether the job `id` goes back into the queue at `now`, after a run
    /// of it is over: its definition is stored with a cron expression, it
    /// does not wait in the queue, and there is a next execution for it.
    pub open spec fn recurs(self, id: Seq<char>, now: Timestamp) -> bool {
        &&& is_cached(self.stored, id)
        &&& self.stored[cached_at(self.stored, id)].schedule.cron is Some
        &&& !contains_job(self.queue, id)
        &&& queue_key(self.stored[cached_at(self.stored, id)], now) is Some
    }

    /// The state after the run of the job `id` is over, with the status
    /// `status` reported to the monitor at `now`. A job that recurs gets the
    /// status `Scheduled` after that and goes back into the queue as it is
    /// stored.
    pub open spec fn settled(self, id: Seq<char>, status: JobStatusView, now: Timestamp) -> SchedulerView {
        let reported = with_status(self.monitor, id, status, now);
        if self.recurs(id, now) {
            SchedulerView {
                queue: inserted(self.queue, entry_of(self.stored[cached_at(self.stored, id)], now)),
                monitor: with_status(reported, id, JobStatusView::Scheduled, now),
                ..self
            }
        } else {
            SchedulerView { monitor: reported, ..self }
        }
    }

    /// The state after the request `request` began to run at `now`: the job
    /// runs, and the monitor has it as running.
    pub open spec fn begun(self, request: JobExecutionRequestView, now: Timestamp) -> SchedulerView {
        SchedulerView {
            executor: self.executor.with_run(
                crate::scheduler::executor::RunningJobView {
                    job: request.job,
                    start_time: now,
                    attempt: request.attempt,
                },
            ),
            monitor: with_status(self.monitor, request.job.id, JobStatusView::Running, now),
            ..self
        }
    }

    /// The state after the outcome of the run of the job `id` was reported
    /// at `now`. The run is recorded, and the status in which it ended goes
    /// to the monitor. Where another run follows, the monitor then has the
    /// job as waiting for the retry; else the run is settled. Nothing changes
    /// where the job does not run.
    pub open spec fn completed(self, id: Seq<char>, outcome: ProcessOutcomeView, now: Timestamp) -> SchedulerView {
        if self.executor.is_running(id) {
            let run = self.executor.running[self.executor.run_at(id)];
            let status = crate::scheduler::executor::result_of(
                id,
                run.start_time,
                now,
                outcome,
            ).status;
            let over = SchedulerView { executor: self.executor.finished(id, outcome, now), ..self };
            match self.executor.step_after(id, outcome, now) {
                NextStepView::Retry { .. } => SchedulerView {
                    monitor: with_status(
                        with_status(self.monitor, id, status, now),
                        id,
                        JobStatusView::Retrying {
                            attempts: run.attempt,
                            max_attempts: run.job.retry_policy.max_attempts,
                        },
                        now,
                    ),
                    ..over
                },
                NextStepView::Done => over.settled(id, status, now),
            }
        } else {
            self
        }
    }

    /// The state after the job `id` was cancelled at `now`: its run is
    /// recorded as cancelled and settled. Nothing changes where the job does
    /// not run.
    pub open spec fn cancelled(self, id: Seq<char>, now: Timestamp) -> SchedulerView {
        if self.executor.is_running(id) {
            SchedulerView { executor: self.executor.cancelled(id, now), ..self }.settled(
                id,
                JobStatusView::Cancelled,
                now,
            )
        } else {
            self
        }
    }

    /// The stored jobs, each with the status that the monitor has of it,
    /// where every stored job is tracked.
    pub open spec fn listing(self) -> Seq<JobInfoView> {
        self.stored.map_values(
            |job: JobView|
                JobInfoView {
                    job,
                    status: self.monitor[crate::scheduler::monitor::tracked_at(
                        self.monitor,
                        job.id,
                    )].status,
                },
        )
    }

    /// The first stored job that is not tracked, or the number of stored
    /// jobs where every one is.
    pub open spec fn first_untracked(self) -> int {
        first_index(self.stored, |job: JobView| !is_tracked(self.monitor, job.id))
    }
}

/// The jobs that a tick dispatches are the jobs of the entries that it takes
/// out of the queue.
pub proof fn lemma_dispatched_jobs(queue: Seq<QueuedJobView>, now: Timestamp)
    ensures
        SchedulerView::dispatched(queue, now) == crate::scheduler::queue::jobs_of(
            SchedulerView::dispatched_entries(queue, now),
        ),
    decreases queue.len(),
{
    match next_due(queue, now) {
        Some(i) => {
            if 0 <= i < queue.len() {
                lemma_dispatched_jobs(queue.remove(i), now);
            }
        },
        None => {},
    }
}

/// A tick dispatches in the order of the queue: every entry that it takes
/// out of the queue was due and able to run, and comes before every entry
/// that it takes out later. So of two jobs that one tick dispatches, the one
/// of the higher priority is dispatched first.
pub proof fn lemma_dispatch_order(queue: Seq<QueuedJobView>, now: Timestamp)
    requires
        well_formed(queue),
    ensures
        forall|i: int|
            0 <= i < SchedulerView::dispatched_entries(queue, now).len() ==> queue.contains(
                #[trigger] SchedulerView::dispatched_entries(queue, now)[i],
            ) && crate::scheduler::queue::is_due(
                SchedulerView::dispatched_entries(queue, now)[i],
                now,
            ),
        forall|i: int, j: int|
            0 <= i < j < SchedulerView::dispatched_entries(queue, now).len()
                ==> crate::scheduler::queue::entry_before(
                #[trigger] SchedulerView::dispatched_entries(queue, now)[i],
                #[trigger] SchedulerView::dispatched_entries(queue, now)[j],
            ),
        forall|i: int, j: int|
            0 <= i < SchedulerView::dispatched_entries(queue, now).len() && 0 <= j
                < SchedulerView::dispatched_entries(queue, now).len() && (
            #[trigger] SchedulerView::dispatched_entries(queue, now)[i]).priority.rank() > (
            #[trigger] SchedulerView::dispatched_entries(queue, now)[j]).priority.rank() ==> i < j,
    decreases queue.len(),
{
    lemma_first_index(queue, crate::scheduler::queue::runnable());
    match next_due(queue, now) {
        Some(k) => {
            lemma_dispatch_order(queue.remove(k), now);
        },
        None => {},
    }
}

/// Putting a job back as it was undoes putting another in its place, and
/// taking a job out undoes putting it in.
pub proof fn lemma_store_restored(stored: Seq<JobView>, job: JobView)
    requires
        one_job_each(stored),
    ensures
        is_cached(stored, job.id) ==> with_cached(
            with_cached(stored, job),
            stored[cached_at(stored, job.id)],
        ) == stored,
        !is_cached(stored, job.id) ==> without_cached(with_cached(stored, job), job.id) == stored,
{
    lemma_first_index(stored, is_job(job.id));
    lemma_with_cached(stored, job);
    lemma_first_index(with_cached(stored, job), is_job(job.id));
}

/// Removing a job twice: the second removal finds no such job in the queue
/// and leaves the state as the first one left it.
pub proof fn lemma_remove_job_twice(state: SchedulerView, id: Seq<char>)
    requires
        well_formed(state.queue),
    ensures
        !contains_job(state.removed(id).queue, id),
        state.removed(id).removed(id) == state.removed(id),
{
    lemma_remove_twice(state.queue, id);
}

/// Taking up jobs changes the queue and the monitor only: the stored jobs,
/// the runs and whether the scheduler runs stay as they are.
pub proof fn lemma_loaded_frame(state: SchedulerView, jobs: Seq<JobView>, now: Timestamp)
    ensures
        state.loaded(jobs, now).stored == state.stored,
        state.loaded(jobs, now).executor == state.executor,
        state.loaded(jobs, now).running == state.running,
    decreases jobs.len(),
{
    if jobs.len() > 0 {
        lemma_loaded_frame(state, jobs.drop_last(), now);
    }
}

/// After the jobs of `jobs` were taken up, the queue holds each of them, and
/// what it held before.
pub proof fn lemma_loaded_holds(state: SchedulerView, jobs: Seq<JobView>, now: Timestamp, id: Seq<char>)
    ensures
        contains_job(state.loaded(jobs, now).queue, id) <==> contains_job(state.queue, id) || (
        exists|k: int| 0 <= k < jobs.len() && jobs[k].id == id),
    decreases jobs.len(),
{
    if jobs.len() > 0 {
        let front = jobs.drop_last();
        let job = jobs.last();
        let before = state.loaded(front, now);
        lemma_loaded_holds(state, front, now, id);
        lemma_inserted_contains(before.queue, entry_of(job, now), id);
        if exists|k: int| 0 <= k < jobs.len() && jobs[k].id == id {
            let k = choose|k: int| 0 <= k < jobs.len() && jobs[k].id == id;
            if k < front.len() {
                assert(front[k].id == id);
            }
        }
    }
}

/// Taking up jobs keeps the queue well-formed.
pub proof fn lemma_loaded_well_formed(state: SchedulerView, jobs: Seq<JobView>, now: Timestamp)
    requires
        well_formed(state.queue),
    ensures
        well_formed(state.loaded(jobs, now).queue),
    decreases jobs.len(),
{
    if jobs.len() > 0 {
        lemma_loaded_well_formed(state, jobs.drop_last(), now);
        let before = state.loaded(jobs.drop_last(), now);
        if !contains_job(before.queue, jobs.last().id) {
            crate::scheduler::queue::lemma_inserted_well_formed(
                before.queue,
                entry_of(jobs.last(), now),
            );
        }
    }
}

/// After a start the scheduler runs, and the job definitions found in
/// storage are the stored jobs, one for each identifier.
pub proof fn lemma_started_store(state: SchedulerView, persisted: Seq<JobView>, now: Timestamp)
    ensures
        state.started(persisted, now).running,
        state.started(persisted, now).stored == cache_of(persisted),
        state.started(persisted, now).executor == state.executor,
{
    let jobs = cache_of(persisted);
    lemma_loaded_frame(SchedulerView { stored: jobs, running: true, ..state }, jobs, now);
}

/// A restart loses no job: a scheduler that starts with the jobs that
/// another one had stored has the same jobs stored, and each of them waits
/// in its queue.
pub proof fn lemma_restart_keeps_jobs(
    fresh: SchedulerView,
    stored: Seq<JobView>,
    now: Timestamp,
    k: int,
)
    requires
        well_formed(fresh.queue),
        one_job_each(stored),
        0 <= k < stored.len(),
    ensures
        fresh.started(stored, now).stored == stored,
        contains_job(fresh.started(stored, now).queue, stored[k].id),
{
    crate::scheduler::persistence::lemma_cache_of_distinct(stored);
    lemma_loaded_frame(SchedulerView { stored, running: true, ..fresh }, stored, now);
    lemma_loaded_holds(SchedulerView { stored, running: true, ..fresh }, stored, now, stored[k].id);
}

/// After a start, the queue holds exactly one entry for each job that is
/// stored.
pub proof fn lemma_started_queue(state: SchedulerView, persisted: Seq<JobView>, now: Timestamp, k: int)
    requires
        well_formed(state.queue),
        0 <= k < state.started(persisted, now).stored.len(),
    ensures
        count_of(state.started(persisted, now).queue, state.started(persisted, now).stored[k].id)
            == 1,
{
    let jobs = cache_of(persisted);
    let base = SchedulerView { stored: jobs, running: true, ..state };
    lemma_loaded_frame(base, jobs, now);
    lemma_loaded_holds(base, jobs, now, jobs[k].id);
    lemma_loaded_well_formed(base, jobs, now);
    lemma_count_of(base.loaded(jobs, now).queue, jobs[k].id);
}

/// The scheduler: the facade over the queue, the stored job definitions, the
/// executor and the monitor.
pub struct Scheduler {
    queue: JobQueue,
    persistence: JobPersistence,
    executor: JobExecutor,
    monitor: JobMonitor,
    running: bool,
}

impl View for Scheduler {
    type V = SchedulerView;

    closed spec fn view(&self) -> SchedulerView {
        SchedulerView {
            queue: self.queue@,
            stored: self.persistence@,
            executor: self.executor@,
            monitor: self.monitor@,
            running: self.running,
        }
    }
}

impl Scheduler {
    /// Creates a scheduler over the storage directory `storage_dir`. It holds
    /// no job and does not run.
    pub fn new(storage_dir: String) -> (scheduler: Scheduler)
        ensures
            scheduler@.queue == Seq::<QueuedJobView>::empty(),
            scheduler@.stored == Seq::<JobView>::empty(),
            scheduler@.monitor == Seq::<JobHealthView>::empty(),
            scheduler@.executor.running.len() == 0,
            scheduler@.executor.results.len() == 0,
            !scheduler@.running,
    {
        Scheduler {
            queue: JobQueue::new(),
            persistence: JobPersistence::new(storage_dir),
            executor: JobExecutor::new(),
            monitor: JobMonitor::new(),
            running: false,
        }
    }

    /// What holds of the state of every scheduler: the queue is ordered and
    /// holds no job twice, one definition is stored for each job, each job
    /// is tracked once, and the runs and their records are well-formed.
    pub fn check(&self)
        ensures
            well_formed(self@.queue),
            one_job_each(self@.stored),
            crate::scheduler::monitor::one_entry_each(self@.monitor),
            self@.executor.well_formed(),
    {
        self.queue.check();
        self.persistence.check();
        self.monitor.check();
        self.executor.check();
    }

    /// The queue of pending jobs.
    pub fn queue(&self) -> (queue: &JobQueue)
        ensures
            queue@ == self@.queue,
    {
        &self.queue
    }

    /// The monitor.
    pub fn monitor(&self) -> (monitor: &JobMonitor)
        ensures
            monitor@ == self@.monitor,
    {
        &self.monitor
    }

    /// The executor.
    pub fn executor(&self) -> (executor: &JobExecutor)
        ensures
            executor@ == self@.executor,
    {
        &self.executor
    }

    /// The persistence manager, whose cache holds the stored job
    /// definitions.
    pub fn persistence(&self) -> (persistence: &JobPersistence)
        ensures
            persistence@ == self@.stored,
    {
        &self.persistence
    }

    /// Whether the scheduler runs.
    pub fn is_running(&self) -> (r: bool)
        ensures
            r == self@.running,
    {
        self.running
    }

    /// Validates the definition of a job: its schedule, that a cron
    /// expression stands beside at most one other trigger, and that it has a
    /// command. A cron expression that is not valid is reported as such;
    /// every other fault is reported as an invalid job, with the line of the
    /// parser error where the parser found it.
    pub fn validate_job(&self, job: &Job) -> (r: Result<(), SchedulerError>)
        ensures
            match definition_fault(job@) {
                None => r is Ok,
                Some(DefinitionFault::Cron) => r matches Err(e) && e is InvalidCronExpression,
                Some(DefinitionFault::Timezone) => r matches Err(SchedulerError::InvalidJob(m))
                    && m@.len() >= 18 && m@.subrange(0, 18) == "Invalid timezone: "@,
                Some(DefinitionFault::Event) => r matches Err(e) && e@
                    == SchedulerErrorView::InvalidJob(
                    "Invalid event trigger: "@ + "File events require a path"@,
                ),
                Some(DefinitionFault::Pattern) => r matches Err(e) && e@
                    == SchedulerErrorView::InvalidJob(
                    "Invalid pattern trigger: "@ + pattern_fault(job@.schedule.pattern->0)->0,
                ),
                Some(DefinitionFault::Triggers) => r matches Err(e) && e@
                    == SchedulerErrorView::InvalidJob(
                    "A cron expression takes at most one other trigger"@,
                ),
                Some(DefinitionFault::Command) => r matches Err(e) && e@
                    == SchedulerErrorView::InvalidJob("Command cannot be empty"@),
            },
    {
        match Parser::validate_schedule(&job.schedule) {
            Ok(_) => {},
            Err(ParserError::InvalidCronExpression(m)) => {
                return Err(SchedulerError::InvalidCronExpression(m));
            },
            Err(e) => {
                let line = e.describe();
                proof {
                    reveal_strlit("Invalid timezone: ");
                }
                return Err(SchedulerError::InvalidJob(line));
            },
        }
        let mut others: u8 = 0;
        if job.schedule.at.is_some() {
            others = others + 1;
        }
        if job.schedule.event.is_some() {
            others = others + 1;
        }
        if job.schedule.pattern.is_some() {
            others = others + 1;
        }
        if job.schedule.cron.is_some() && others > 1 {
            return Err(
                SchedulerError::InvalidJob(
                    String::from_str("A cron expression takes at most one other trigger"),
                ),
            );
        }
        if job.command.as_str().unicode_len() == 0 {
            return Err(SchedulerError::InvalidJob(String::from_str("Command cannot be empty")));
        }
        Ok(())
    }

    /// What `add_job_at` does. A job whose definition is not valid is
    /// refused. So is a job that waits in the queue already. In both cases
    /// the state is as it was. Any other job is stored, goes into the queue
    /// and is tracked, and its identifier comes back.
    pub open spec fn added(
        before: SchedulerView,
        after: SchedulerView,
        job: JobView,
        now: Timestamp,
        r: Result<JobId, SchedulerError>,
    ) -> bool {
        if definition_fault(job) is Some {
            r is Err && after == before
        } else if contains_job(before.queue, job.id) {
            &&& r matches Err(e)
            &&& e@ == SchedulerErrorView::QueueError(QueueErrorView::JobAlreadyExists(job.id))
            &&& after == before
        } else {
            &&& r matches Ok(id)
            &&& id@ == job.id
            &&& after == before.with_job(job, now)
        }
    }

    /// Adds a job at the time of the system clock: for some instant, what
    /// `add_job_at` does.
    pub fn add_job(&mut self, job: Job) -> (r: Result<JobId, SchedulerError>)
        ensures
            exists|now: Timestamp| #[trigger] Self::added(old(self)@, final(self)@, job@, now, r),
    {
        let now = current_time();
        self.add_job_at(job, now)
    }

    /// Adds a job at `now`. The definition is validated and stored before
    /// the job goes into the queue; where the queue refuses the job, the
    /// store is put back as it was. A job that went in is tracked by the
    /// monitor.
    pub fn add_job_at(&mut self, job: Job, now: Timestamp) -> (r: Result<JobId, SchedulerError>)
        ensures
            Self::added(old(self)@, final(self)@, job@, now, r),
            r matches Err(e) ==> (match definition_fault(job@) {
                Some(DefinitionFault::Cron) => e is InvalidCronExpression,
                Some(_) => e is InvalidJob,
                None => e is QueueError,
            }),
    {
        match self.validate_job(&job) {
            Ok(_) => {},
            Err(e) => {
                return Err(e);
            },
        }
        let job_id = job.id.clone();
        let previous = match self.persistence.get_cached_job(&job_id) {
            Some(held) => Some(held.clone()),
            None => None,
        };
        self.persistence.check();
        proof {
            lemma_store_restored(self@.stored, job@);
        }
        self.persistence.update_cached_job(job.clone());
        match self.queue.add_job_at(job, now) {
            Ok(_) => {},
            Err(e) => {
                match previous {
                    Some(held) => {
                        self.persistence.update_cached_job(held);
                    },
                    None => {
                        self.persistence.remove_cached_job(&job_id);
                    },
                }
                return Err(SchedulerError::QueueError(e));
            },
        }
        let _ = self.monitor.track_job_at(job_id.clone(), now);
        Ok(job_id)
    }

    /// Removes a job: from the queue, from the store and from the monitor.
    /// A job that does not wait in the queue is not found, and nothing
    /// changes.
    pub fn remove_job(&mut self, job_id: &JobId) -> (r: Result<(), SchedulerError>)
        ensures
            final(self)@ == old(self)@.removed(job_id@),
            r is Ok <==> contains_job(old(self)@.queue, job_id@),
            r matches Err(e) ==> e@ == SchedulerErrorView::QueueError(
                QueueErrorView::JobNotFound(job_id@),
            ),
    {
        match self.queue.remove_job(job_id) {
            Ok(_) => {},
            Err(e) => {
                return Err(SchedulerError::QueueError(e));
            },
        }
        self.persistence.remove_cached_job(job_id);
        let _ = self.monitor.untrack_job(job_id);
        Ok(())
    }

    /// The status that the monitor has of a job. A job that is not tracked
    /// is an error.
    pub fn get_job_status(&self, job_id: &JobId) -> (r: Result<JobStatus, SchedulerError>)
        ensures
            r is Ok <==> is_tracked(self@.monitor, job_id@),
            r matches Ok(status) ==> status@ == self@.monitor[crate::scheduler::monitor::tracked_at(
                self@.monitor,
                job_id@,
            )].status,
            r matches Err(e) ==> e@ == SchedulerErrorView::MonitorError(
                MonitorErrorView::JobNotFound(job_id@),
            ),
    {
        match self.monitor.get_job_status(job_id) {
            Ok(status) => Ok(status),
            Err(e) => Err(SchedulerError::MonitorError(e)),
        }
    }

    /// The stored jobs, each with the status that the monitor has of it. A
    /// stored job that is not tracked is an error, which names the first
    /// such job.
    pub fn list_jobs(&self) -> (r: Result<Vec<JobInfo>, SchedulerError>)
        ensures
            r is Ok <==> self@.first_untracked() == self@.stored.len(),
            r matches Ok(infos) ==> infos@.map_values(|i: JobInfo| i@) == self@.listing(),
            r matches Err(e) ==> e@ == SchedulerErrorView::MonitorError(
                MonitorErrorView::JobNotFound(self@.stored[self@.first_untracked()].id),
            ),
    {
        let jobs = self.persistence.get_all_cached_jobs();
        let ghost untracked = |job: JobView| !is_tracked(self@.monitor, job.id);
        let mut infos: Vec<JobInfo> = Vec::new();
        let mut i: usize = 0;
        while i < jobs.len()
            invariant
                i <= jobs.len(),
                jobs@.map_values(|j: &Job| j@) == self@.stored,
                untracked == (|job: JobView| !is_tracked(self@.monitor, job.id)),
                infos@.len() == i,
                forall|j: int| 0 <= j < i ==> !untracked(#[trigger] self@.stored[j]),
                forall|j: int| 0 <= j < i ==> (#[trigger] infos@[j])@ == self@.listing()[j],
            decreases jobs.len() - i,
        {
            match self.monitor.get_job_status(&jobs[i].id) {
                Ok(status) => {
                    infos.push(JobInfo { job: jobs[i].clone(), status });
                },
                Err(e) => {
                    proof {
                        lemma_first_index_is(self@.stored, untracked, i as int);
                    }
                    return Err(SchedulerError::MonitorError(e));
                },
            }
            i = i + 1;
        }
        proof {
            lemma_first_index_is(self@.stored, untracked, i as int);
        }
        Ok(infos)
    }

    /// Enables a stored job at `now`.
    pub fn enable_job(&mut self, job_id: &JobId, now: Timestamp) -> (r: Result<Job, SchedulerError>)
        ensures
            final(self)@ == old(self)@.with_enabled(job_id@, true, now),
            r is Ok <==> is_cached(old(self)@.stored, job_id@),
            r matches Ok(job) ==> job@ == (JobView {
                enabled: true,
                updated_at: now,
                ..old(self)@.stored[cached_at(old(self)@.stored, job_id@)]
            }),
            r matches Err(e) ==> e@ == SchedulerErrorView::JobNotFound(job_id@),
    {
        self.set_enabled(job_id, true, now)
    }

    /// Disables a stored job at `now`. The job stays stored and tracked, and
    /// it is not dispatched as long as it is disabled.
    pub fn disable_job(&mut self, job_id: &JobId, now: Timestamp) -> (r: Result<Job, SchedulerError>)
        ensures
            final(self)@ == old(self)@.with_enabled(job_id@, false, now),
            r is Ok <==> is_cached(old(self)@.stored, job_id@),
            r matches Ok(job) ==> job@ == (JobView {
                enabled: false,
                updated_at: now,
                ..old(self)@.stored[cached_at(old(self)@.stored, job_id@)]
            }),
            r matches Err(e) ==> e@ == SchedulerErrorView::JobNotFound(job_id@),
    {
        self.set_enabled(job_id, false, now)
    }

    /// Sets whether a stored job is enabled, at `now`: the definition is
    /// loaded from the store, gets the flag and `now` as the instant of its
    /// modification, is stored again and goes into the queue anew. The new
    /// definition comes back. A job that is not stored is not found.
    pub fn set_enabled(&mut self, job_id: &JobId, enabled: bool, now: Timestamp) -> (r: Result<
        Job,
        SchedulerError,
    >)
        ensures
            final(self)@ == old(self)@.with_enabled(job_id@, enabled, now),
            r is Ok <==> is_cached(old(self)@.stored, job_id@),
            r matches Ok(job) ==> job@ == (JobView {
                enabled,
                updated_at: now,
                ..old(self)@.stored[cached_at(old(self)@.stored, job_id@)]
            }),
            r matches Err(e) ==> e@ == SchedulerErrorView::JobNotFound(job_id@),
    {
        let mut job = match self.persistence.get_cached_job(job_id) {
            Some(held) => held.clone(),
            None => {
                return Err(SchedulerError::JobNotFound(job_id.clone()));
            },
        };
        job.enabled = enabled;
        job.touch_at(now);
        self.queue.check();
        proof {
            lemma_first_index(self@.stored, is_job(job_id@));
            crate::scheduler::queue::lemma_without_forgets(self@.queue, job_id@);
        }
        self.persistence.update_cached_job(job.clone());
        let _ = self.queue.remove_job(job_id);
        let _ = self.queue.add_job_at(job.clone(), now);
        Ok(job)
    }

    /// Starts the scheduler at `now` with the job definitions found in
    /// storage. After the start the queue holds exactly one entry for each
    /// stored job.
    pub fn start(&mut self, persisted: Vec<Job>, now: Timestamp) -> (r: Result<(), SchedulerError>)
        ensures
            r is Ok,
            final(self)@ == old(self)@.started(job_views(persisted@), now),
            forall|k: int|
                0 <= k < final(self)@.stored.len() ==> count_of(
                    final(self)@.queue,
                    (#[trigger] final(self)@.stored[k]).id,
                ) == 1,
    {
        let _ = self.executor.start();
        let _ = self.monitor.start();
        self.running = true;
        self.queue.check();
        proof {
            assert forall|k: int|
                0 <= k < old(self)@.started(job_views(persisted@), now).stored.len() implies count_of(
                old(self)@.started(job_views(persisted@), now).queue,
                (#[trigger] old(self)@.started(job_views(persisted@), now).stored[k]).id,
            ) == 1 by {
                lemma_started_queue(old(self)@, job_views(persisted@), now, k);
            }
        }
        self.load_persisted_jobs(persisted, now);
        Ok(())
    }

    /// Takes up the job definitions found in storage at `now`: they become
    /// the stored jobs, and each of them goes into the queue and comes under
    /// the watch of the monitor unless it is there already.
    pub fn load_persisted_jobs(&mut self, persisted: Vec<Job>, now: Timestamp)
        ensures
            final(self)@ == (SchedulerView {
                stored: cache_of(job_views(persisted@)),
                ..old(self)@
            }).loaded(cache_of(job_views(persisted@)), now),
    {
        self.persistence.load_all_jobs(persisted);
        let ghost base = self@;
        let ghost stored = self@.stored;
        let jobs = self.persistence.get_all_cached_jobs();
        let mut i: usize = 0;
        while i < jobs.len()
            invariant
                i <= jobs.len(),
                jobs@.map_values(|j: &Job| j@) == stored,
                self.persistence@ == stored,
                base.stored == stored,
                self@ == base.loaded(stored.subrange(0, i as int), now),
            decreases jobs.len() - i,
        {
            let job = jobs[i];
            proof {
                let longer = stored.subrange(0, i + 1);
                assert(longer.drop_last() =~= stored.subrange(0, i as int));
            }
            let _ = self.queue.add_job_at(job.clone(), now);
            match self.monitor.get_job_status(&job.id) {
                Ok(_) => {},
                Err(_) => {
                    let _ = self.monitor.track_job_at(job.id.clone(), now);
                },
            }
            i = i + 1;
        }
        assert(stored.subrange(0, i as int) =~= stored);
    }

    /// Stops the scheduler at `now`: the monitor stops, the executor records
    /// every run as cancelled, and no tick dispatches a job any more.
    pub fn stop(&mut self, now: Timestamp) -> (r: Result<(), SchedulerError>)
        ensures
            r is Ok,
            final(self)@ == old(self)@.stopped(now),
    {
        let _ = self.monitor.stop();
        let _ = self.executor.stop_at(now);
        self.running = false;
        Ok(())
    }

    /// Checks the health of every tracked job at `now`: each job gets `now`
    /// as its last check, and the warnings of the monitor come back.
    pub fn check_health(&mut self, now: Timestamp) -> (warnings: Vec<
        crate::scheduler::monitor::HealthWarning,
    >)
        ensures
            final(self)@ == (SchedulerView {
                monitor: crate::scheduler::monitor::checked_at(old(self)@.monitor, now),
                ..old(self)@
            }),
            crate::scheduler::monitor::warning_views(warnings@)
                == crate::scheduler::monitor::warnings_of(old(self)@.monitor, now),
    {
        self.monitor.perform_health_checks(now)
    }

    /// One tick at `now`: the jobs that are dispatched next leave the queue,
    /// one after the other until none is dispatched, and come back in the
    /// order of their dispatch. A scheduler that does not run dispatches
    /// nothing.
    pub fn tick(&mut self, now: Timestamp) -> (jobs: Vec<Job>)
        ensures
            job_views(jobs@) == (if old(self)@.running {
                SchedulerView::dispatched(old(self)@.queue, now)
            } else {
                Seq::empty()
            }),
            final(self)@ == (SchedulerView {
                queue: if old(self)@.running {
                    SchedulerView::after_tick(old(self)@.queue, now)
                } else {
                    old(self)@.queue
                },
                ..old(self)@
            }),
    {
        let mut jobs: Vec<Job> = Vec::new();
        if !self.running {
            return jobs;
        }
        let ghost start = self@.queue;
        loop
            invariant
                self@ == (SchedulerView { queue: self@.queue, ..old(self)@ }),
                start == old(self)@.queue,
                SchedulerView::dispatched(start, now) == job_views(jobs@) + SchedulerView::dispatched(
                    self@.queue,
                    now,
                ),
                SchedulerView::after_tick(start, now) == SchedulerView::after_tick(self@.queue, now),
            ensures
                self@ == (SchedulerView { queue: self@.queue, ..old(self)@ }),
                SchedulerView::dispatched(start, now) == job_views(jobs@),
                SchedulerView::after_tick(start, now) == self@.queue,
            decreases self@.queue.len(),
        {
            let ghost before = self@.queue;
            proof {
                lemma_first_index(before, crate::scheduler::queue::runnable());
            }
            match self.queue.pop_next_due(now) {
                Some(job) => {
                    jobs.push(job);
                },
                None => {
                    break ;
                },
            }
        }
        jobs
    }

    /// Makes the request for the first run of a job that was dispatched. A
    /// job without a command, or one that is disabled, gets none.
    pub fn request_for(&self, job: Job) -> (r: Result<JobExecutionRequest, SchedulerError>)
        ensures
            match crate::scheduler::executor::job_fault(job@) {
                None => r matches Ok(request) && request@ == (JobExecutionRequestView {
                    job: job@,
                    attempt: 1,
                }),
                Some(m) => r matches Err(e) && e@ == SchedulerErrorView::ExecutorError(
                    ExecutorErrorView::InvalidJob(m),
                ),
            },
    {
        match self.executor.execute_job(job) {
            Ok(request) => Ok(request),
            Err(e) => Err(SchedulerError::ExecutorError(e)),
        }
    }

    /// Begins the run of a request at `now`: the executor takes the job up
    /// among the running jobs, the monitor has it as running, and the
    /// process to start comes back. A job without a command, or one that is
    /// disabled by now, is skipped with the error, and nothing changes.
    pub fn begin(&mut self, request: &JobExecutionRequest, now: Timestamp) -> (r: Result<
        ProcessPlan,
        SchedulerError,
    >)
        ensures
            match crate::scheduler::executor::job_fault(request@.job) {
                None => r matches Ok(plan) && plan@ == crate::scheduler::executor::plan_of(
                    request@.job,
                ) && final(self)@ == old(self)@.begun(request@, now),
                Some(m) => r matches Err(e) && e@ == SchedulerErrorView::ExecutorError(
                    ExecutorErrorView::InvalidJob(m),
                ) && final(self)@ == old(self)@,
            },
    {
        match self.executor.begin_job_at(request, now) {
            Ok(plan) => {
                let _ = self.monitor.update_job_status_at(&request.job.id, JobStatus::Running, now);
                Ok(plan)
            },
            Err(e) => Err(SchedulerError::ExecutorError(e)),
        }
    }

    /// Puts a job whose run is over back into the queue where it recurs,
    /// after the status of the run was reported to the monitor.
    fn settle(&mut self, job_id: &JobId, status: JobStatus, now: Timestamp)
        ensures
            final(self)@ == old(self)@.settled(job_id@, status@, now),
    {
        let _ = self.monitor.update_job_status_at(job_id, status, now);
        let stored = match self.persistence.get_cached_job(job_id) {
            Some(held) => held,
            None => {
                return ;
            },
        };
        proof {
            lemma_first_index(self@.stored, is_job(job_id@));
        }
        if stored.schedule.cron.is_none() {
            return ;
        }
        if self.queue.get_job(job_id).is_some() {
            return ;
        }
        if JobQueue::calculate_next_execution(stored, now).is_none() {
            return ;
        }
        let _ = self.queue.add_job_at(stored.clone(), now);
        let _ = self.monitor.update_job_status_at(job_id, JobStatus::Scheduled, now);
    }

    /// Takes the outcome of the run of a job at `now`. The executor records
    /// the run, and the status in which it ended goes to the monitor. Where
    /// the run failed and another run is allowed, the monitor then has the
    /// job as waiting for the retry, and the request for the next run comes
    /// back with its delay. Else a job with a cron expression goes back into
    /// the queue with its next occurrence.
    pub fn complete(&mut self, job_id: &JobId, outcome: ProcessOutcome, now: Timestamp) -> (step:
        NextStep)
        ensures
            final(self)@ == old(self)@.completed(job_id@, outcome@, now),
            step@ == old(self)@.executor.step_after(job_id@, outcome@, now),
    {
        self.executor.check();
        let ghost before = self@;
        let ghost given = outcome@;
        let attempt = self.run_attempt(job_id);
        let step = self.executor.finish_job_at(job_id, outcome, now);
        match attempt {
            None => {},
            Some((attempt, max_attempts)) => {
                self.executor.check();
                proof {
                    crate::scheduler::executor::lemma_with_result(
                        before.executor.without_run(job_id@),
                        crate::scheduler::executor::result_of(
                            job_id@,
                            before.executor.running[before.executor.run_at(job_id@)].start_time,
                            now,
                            given,
                        ),
                    );
                }
                let status = match self.executor.get_job_result(job_id) {
                    Ok(Some(result)) => result.status,
                    _ => JobStatus::Scheduled,
                };
                match &step {
                    NextStep::Retry { .. } => {
                        let _ = self.monitor.update_job_status_at(job_id, status, now);
                        let _ = self.monitor.update_job_status_at(
                            job_id,
                            JobStatus::Retrying { attempts: attempt, max_attempts },
                            now,
                        );
                    },
                    NextStep::Done => {
                        self.settle(job_id, status, now);
                    },
                }
            },
        }
        step
    }

    /// The number of the run of a job that runs, and the number of runs
    /// that its policy allows.
    fn run_attempt(&self, job_id: &JobId) -> (r: Option<(u32, u32)>)
        ensures
            r is Some <==> self@.executor.is_running(job_id@),
            r matches Some(a) ==> a.0 == self@.executor.running[self@.executor.run_at(
                job_id@,
            )].attempt && a.1 == self@.executor.running[self@.executor.run_at(
                job_id@,
            )].job.retry_policy.max_attempts,
    {
        self.executor.run_attempt(job_id)
    }

    /// Cancels a running job at `now`: the executor records its run as
    /// cancelled, the monitor has it as cancelled, and a job with a cron
    /// expression goes back into the queue with its next occurrence. A job
    /// that does not run is left as it is.
    pub fn cancel_job(&mut self, job_id: &JobId, now: Timestamp) -> (r: Result<(), SchedulerError>)
        ensures
            r is Ok,
            final(self)@ == old(self)@.cancelled(job_id@, now),
    {
        let running = self.executor.run_attempt(job_id).is_some();
        let _ = self.executor.cancel_job_at(job_id, now);
        if running {
            self.settle(job_id, JobStatus::Cancelled, now);
        }
        Ok(())
    }
}

} // verus!
