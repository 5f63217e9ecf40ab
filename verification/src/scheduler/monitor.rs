//! Job monitoring: the status and the health of each tracked job, the
//! statistics over all of them, and the periodic health check.

use vstd::prelude::*;
use vstd::string::*;
use crate::scheduler::job::{JobId, JobStatus, JobStatusView};
use crate::scheduler::search::{first_index, lemma_first_index, lemma_first_index_is};
use crate::scheduler::time::{current_time, Timestamp};

verus! {

/// Errors that can occur in the job monitor.
#[derive(Debug, PartialEq, Eq)]
pub enum MonitorError {
    JobNotFound(String),
    MonitoringFailed(String),
    HealthCheckFailed(String),
}

/// A monitor error over sequences of characters.
pub enum MonitorErrorView {
    JobNotFound(Seq<char>),
    MonitoringFailed(Seq<char>),
    HealthCheckFailed(Seq<char>),
}

impl MonitorErrorView {
    /// The error as one line of text.
    pub open spec fn text(self) -> Seq<char> {
        match self {
            MonitorErrorView::JobNotFound(m) => "Job not found: "@ + m,
            MonitorErrorView::MonitoringFailed(m) => "Monitoring failed: "@ + m,
            MonitorErrorView::HealthCheckFailed(m) => "Health check failed: "@ + m,
        }
    }
}

impl View for MonitorError {
    type V = MonitorErrorView;

    open spec fn view(&self) -> MonitorErrorView {
        match *self {
            MonitorError::JobNotFound(m) => MonitorErrorView::JobNotFound(m@),
            MonitorError::MonitoringFailed(m) => MonitorErrorView::MonitoringFailed(m@),
            MonitorError::HealthCheckFailed(m) => MonitorErrorView::HealthCheckFailed(m@),
        }
    }
}

impl MonitorError {
    /// The error as one line of text.
    pub fn describe(&self) -> (line: String)
        ensures
            line@ == self@.text(),
    {
        match self {
            MonitorError::JobNotFound(m) => String::from_str("Job not found: ").concat(m.as_str()),
            MonitorError::MonitoringFailed(m) => String::from_str("Monitoring failed: ").concat(
                m.as_str(),
            ),
            MonitorError::HealthCheckFailed(m) => String::from_str("Health check failed: ").concat(
                m.as_str(),
            ),
        }
    }
}

/// A quotient of two counts. A quotient with the denominator 0 stands for
/// the number 0.
#[derive(Debug, Clone, Copy, PartialEq, Eq, Structural)]
pub struct Ratio {
    pub numerator: i128,
    pub denominator: u128,
}

impl Ratio {
    /// The quotient that stands for 0.
    pub open spec fn zero() -> Ratio {
        Ratio { numerator: 0, denominator: 0 }
    }
}

/// Job monitoring statistics.
#[derive(Debug, Clone, Copy, PartialEq, Eq, Structural)]
pub struct MonitorStats {
    pub total_jobs: usize,
    pub running_jobs: usize,
    pub completed_jobs: usize,
    pub failed_jobs: usize,
    pub cancelled_jobs: usize,
    /// Mean of the average durations of the jobs, in seconds.
    pub average_execution_time: Ratio,
    /// The share of the executions that did not fail.
    pub success_rate: Ratio,
}

impl Default for MonitorStats {
    fn default() -> (r: Self)
        ensures
            r == stats_of(Seq::<JobHealthView>::empty()),
    {
        MonitorStats {
            total_jobs: 0,
            running_jobs: 0,
            completed_jobs: 0,
            failed_jobs: 0,
            cancelled_jobs: 0,
            average_execution_time: Ratio { numerator: 0, denominator: 0 },
            success_rate: Ratio { numerator: 0, denominator: 0 },
        }
    }
}

/// Job health information.
#[derive(Debug, PartialEq, Eq)]
pub struct JobHealth {
    pub job_id: JobId,
    pub status: JobStatus,
    pub last_check: Timestamp,
    pub execution_count: u32,
    pub failure_count: u32,
    /// Average duration of a run, in seconds.
    pub average_duration: u64,
    pub last_execution: Option<Timestamp>,
}

/// Job health over sequences of characters.
pub struct JobHealthView {
    pub job_id: Seq<char>,
    pub status: JobStatusView,
    pub last_check: Timestamp,
    pub execution_count: u32,
    pub failure_count: u32,
    pub average_duration: u64,
    pub last_execution: Option<Timestamp>,
}

impl JobHealthView {
    /// The health of a job that has just come under watch.
    pub open spec fn fresh(job_id: Seq<char>, now: Timestamp) -> JobHealthView {
        JobHealthView {
            job_id,
            status: JobStatusView::Scheduled,
            last_check: now,
            execution_count: 0,
            failure_count: 0,
            average_duration: 0,
            last_execution: None,
        }
    }

    /// The health after the status `status` was reported at `now`: a
    /// completed run counts as an execution and is the last execution, a
    /// failed run counts as a failure. Neither count passes the largest value
    /// of its type.
    pub open spec fn after(self, status: JobStatusView, now: Timestamp) -> JobHealthView {
        JobHealthView {
            status,
            last_check: now,
            execution_count: if status is Completed && self.execution_count < u32::MAX {
                (self.execution_count + 1) as u32
            } else {
                self.execution_count
            },
            failure_count: if status is Failed && self.failure_count < u32::MAX {
                (self.failure_count + 1) as u32
            } else {
                self.failure_count
            },
            last_execution: if status is Completed {
                Some(now)
            } else {
                self.last_execution
            },
            ..self
        }
    }

    /// More than half of the executions of the job failed.
    pub open spec fn fails_often(self) -> bool {
        self.execution_count > 0 && 2 * self.failure_count > self.execution_count
    }

    /// The job runs, and its last execution is older than 60 minutes.
    pub open spec fn is_stuck(self, now: Timestamp) -> bool {
        self.status is Running && (self.last_execution matches Some(last) && last.nanos_until(now)
            > 60 * 60_000_000_000)
    }
}

impl View for JobHealth {
    type V = JobHealthView;

    open spec fn view(&self) -> JobHealthView {
        JobHealthView {
            job_id: self.job_id@,
            status: self.status@,
            last_check: self.last_check,
            execution_count: self.execution_count,
            failure_count: self.failure_count,
            average_duration: self.average_duration,
            last_execution: self.last_execution,
        }
    }
}

impl Clone for JobHealth {
    fn clone(&self) -> (r: Self)
        ensures
            r@ == self@,
    {
        JobHealth {
            job_id: self.job_id.clone(),
            status: self.status.clone(),
            last_check: self.last_check,
            execution_count: self.execution_count,
            failure_count: self.failure_count,
            average_duration: self.average_duration,
            last_execution: self.last_execution,
        }
    }
}

/// What the health check finds wrong with a job.
#[derive(Debug, PartialEq, Eq)]
pub enum HealthWarning {
    /// The job has been running for `minutes` whole minutes.
    StuckJob { job_id: String, minutes: i64 },
    /// More than half of the executions of the job failed.
    HighFailureRate { job_id: String, failure_count: u32, execution_count: u32 },
}

/// A health warning over sequences of characters.
pub enum HealthWarningView {
    StuckJob { job_id: Seq<char>, minutes: i64 },
    HighFailureRate { job_id: Seq<char>, failure_count: u32, execution_count: u32 },
}

impl View for HealthWarning {
    type V = HealthWarningView;

    open spec fn view(&self) -> HealthWarningView {
        match *self {
            HealthWarning::StuckJob { job_id, minutes } => HealthWarningView::StuckJob {
                job_id: job_id@,
                minutes,
            },
            HealthWarning::HighFailureRate {
                job_id,
                failure_count,
                execution_count,
            } => HealthWarningView::HighFailureRate {
                job_id: job_id@,
                failure_count,
                execution_count,
            },
        }
    }
}

/// The views of a list of warnings.
pub open spec fn warning_views(w: Seq<HealthWarning>) -> Seq<HealthWarningView> {
    w.map_values(|x: HealthWarning| x@)
}

/// The counts and sums that the statistics are made of.
pub struct Tally {
    pub running: nat,
    pub completed: nat,
    pub failed: nat,
    pub cancelled: nat,
    /// Sum of the average durations of all jobs.
    pub duration: nat,
    /// Sum of the execution counts of the completed jobs.
    pub executions: nat,
    /// Sum of the failure counts of the failed jobs.
    pub failures: nat,
}

/// One if `b` holds, else none.
pub open spec fn one_if(b: bool) -> nat {
    if b {
        1
    } else {
        0
    }
}

/// The tally over the jobs of `h`: how many are in each status, and the
/// sums of their durations, of the executions of those that are completed
/// and of the failures of those that are failed.
pub open spec fn tally(h: Seq<JobHealthView>) -> Tally
    decreases h.len(),
{
    if h.len() == 0 {
        Tally {
            running: 0,
            completed: 0,
            failed: 0,
            cancelled: 0,
            duration: 0,
            executions: 0,
            failures: 0,
        }
    } else {
        let t = tally(h.drop_last());
        let e = h.last();
        Tally {
            running: t.running + one_if(e.status is Running),
            completed: t.completed + one_if(e.status is Completed),
            failed: t.failed + one_if(e.status is Failed),
            cancelled: t.cancelled + one_if(e.status is Cancelled),
            duration: t.duration + e.average_duration as nat,
            executions: t.executions + if e.status is Completed {
                e.execution_count as nat
            } else {
                0
            },
            failures: t.failures + if e.status is Failed {
                e.failure_count as nat
            } else {
                0
            },
        }
    }
}

/// The statistics over the jobs of `h`. The average execution time is the
/// mean of the average durations of the jobs. The success rate is the share
/// of the executions that are no failures, where there was an execution.
pub open spec fn stats_of(h: Seq<JobHealthView>) -> MonitorStats {
    let t = tally(h);
    MonitorStats {
        total_jobs: h.len() as usize,
        running_jobs: t.running as usize,
        completed_jobs: t.completed as usize,
        failed_jobs: t.failed as usize,
        cancelled_jobs: t.cancelled as usize,
        average_execution_time: if h.len() > 0 {
            Ratio { numerator: t.duration as i128, denominator: h.len() as u128 }
        } else {
            Ratio::zero()
        },
        success_rate: if t.executions > 0 {
            Ratio {
                numerator: (t.executions - t.failures) as i128,
                denominator: t.executions as u128,
            }
        } else {
            Ratio::zero()
        },
    }
}

/// The tally of `h` counts no more jobs than `h` has, and its sums are
/// bounded by the number of jobs.
pub proof fn lemma_tally_bounds(h: Seq<JobHealthView>)
    ensures
        tally(h).running <= h.len(),
        tally(h).completed <= h.len(),
        tally(h).failed <= h.len(),
        tally(h).cancelled <= h.len(),
        tally(h).duration <= h.len() * u64::MAX,
        tally(h).executions <= h.len() * u32::MAX,
        tally(h).failures <= h.len() * u32::MAX,
    decreases h.len(),
{
    if h.len() > 0 {
        lemma_tally_bounds(h.drop_last());
    }
}

/// The warnings that the health check gives for one job at `now`: that it is
/// stuck, then that it fails often.
pub open spec fn warnings_for(e: JobHealthView, now: Timestamp) -> Seq<HealthWarningView> {
    let stuck = if e.is_stuck(now) {
        seq![
            HealthWarningView::StuckJob {
                job_id: e.job_id,
                minutes: (e.last_execution->0.nanos_until(now) / 60_000_000_000) as i64,
            },
        ]
    } else {
        Seq::empty()
    };
    let failing = if e.fails_often() {
        seq![
            HealthWarningView::HighFailureRate {
                job_id: e.job_id,
                failure_count: e.failure_count,
                execution_count: e.execution_count,
            },
        ]
    } else {
        Seq::empty()
    };
    stuck + failing
}

/// The warnings that the health check gives for the jobs of `h` at `now`, job
/// by job.
pub open spec fn warnings_of(h: Seq<JobHealthView>, now: Timestamp) -> Seq<HealthWarningView>
    decreases h.len(),
{
    if h.len() == 0 {
        Seq::empty()
    } else {
        warnings_of(h.drop_last(), now) + warnings_for(h.last(), now)
    }
}

/// The jobs of `h`, each checked at `now`.
pub open spec fn checked_at(h: Seq<JobHealthView>, now: Timestamp) -> Seq<JobHealthView> {
    h.map_values(|e: JobHealthView| JobHealthView { last_check: now, ..e })
}

/// The property of being the health of the job `id`.
pub open spec fn watches(id: Seq<char>) -> spec_fn(JobHealthView) -> bool {
    |e: JobHealthView| e.job_id == id
}

/// The place of the job `id` in `h`, or the length of `h` where it is not
/// tracked.
pub open spec fn tracked_at(h: Seq<JobHealthView>, id: Seq<char>) -> int {
    first_index(h, watches(id))
}

/// Whether the job `id` is tracked in `h`.
pub open spec fn is_tracked(h: Seq<JobHealthView>, id: Seq<char>) -> bool {
    tracked_at(h, id) < h.len()
}

/// No two entries of `h` are of the same job.
pub open spec fn one_entry_each(h: Seq<JobHealthView>) -> bool {
    forall|i: int, j: int|
        0 <= i < h.len() && 0 <= j < h.len() && i != j ==> (#[trigger] h[i]).job_id != (
        #[trigger] h[j]).job_id
}

/// `h` with the job `id` tracked from `now` on: a job that is tracked
/// already starts anew in its place, any other comes last.
pub open spec fn with_tracked(h: Seq<JobHealthView>, id: Seq<char>, now: Timestamp) -> Seq<
    JobHealthView,
> {
    if is_tracked(h, id) {
        h.update(tracked_at(h, id), JobHealthView::fresh(id, now))
    } else {
        h.push(JobHealthView::fresh(id, now))
    }
}

/// `h` without the job `id`; `h` itself where the job is not tracked.
pub open spec fn with_untracked(h: Seq<JobHealthView>, id: Seq<char>) -> Seq<JobHealthView> {
    if is_tracked(h, id) {
        h.remove(tracked_at(h, id))
    } else {
        h
    }
}

/// `h` after the status `status` was reported for the job `id` at `now`; `h`
/// itself where the job is not tracked.
pub open spec fn with_status(
    h: Seq<JobHealthView>,
    id: Seq<char>,
    status: JobStatusView,
    now: Timestamp,
) -> Seq<JobHealthView> {
    if is_tracked(h, id) {
        h.update(tracked_at(h, id), h[tracked_at(h, id)].after(status, now))
    } else {
        h
    }
}

/// Tracking a job keeps one entry for each job.
pub proof fn lemma_with_tracked(h: Seq<JobHealthView>, id: Seq<char>, now: Timestamp)
    requires
        one_entry_each(h),
    ensures
        one_entry_each(with_tracked(h, id, now)),
        is_tracked(with_tracked(h, id, now), id),
{
    lemma_first_index(h, watches(id));
    let r = with_tracked(h, id, now);
    let k = tracked_at(h, id);
    if is_tracked(h, id) {
        lemma_first_index_is(r, watches(id), k);
    } else {
        lemma_first_index_is(r, watches(id), h.len() as int);
    }
}

/// A report of a status keeps the jobs that are tracked and their places.
pub proof fn lemma_with_status(
    h: Seq<JobHealthView>,
    id: Seq<char>,
    status: JobStatusView,
    now: Timestamp,
)
    requires
        one_entry_each(h),
    ensures
        one_entry_each(with_status(h, id, status, now)),
{
    lemma_first_index(h, watches(id));
}

/// Job monitor: the health of each tracked job, one entry for each, in the
/// order in which the jobs came under watch.
pub struct JobMonitor {
    tracked_jobs: Vec<JobHealth>,
    health_check_interval: u64,
    active: bool,
}

impl View for JobMonitor {
    type V = Seq<JobHealthView>;

    closed spec fn view(&self) -> Seq<JobHealthView> {
        self.tracked_jobs@.map_values(|e: JobHealth| e@)
    }
}

impl JobMonitor {
    #[verifier::type_invariant]
    spec fn inv(self) -> bool {
        one_entry_each(self@)
    }

    /// Whether monitoring is active.
    pub closed spec fn active(&self) -> bool {
        self.active
    }

    /// The seconds between two health checks.
    pub closed spec fn interval(&self) -> u64 {
        self.health_check_interval
    }

    /// Creates a monitor that tracks no job, is not active and checks the
    /// health every 30 seconds.
    pub fn new() -> (monitor: JobMonitor)
        ensures
            monitor@ == Seq::<JobHealthView>::empty(),
            !monitor.active(),
            monitor.interval() == 30,
    {
        JobMonitor { tracked_jobs: Vec::new(), health_check_interval: 30, active: false }
    }

    /// The monitor holds one entry for each job at all times.
    pub fn check(&self)
        ensures
            one_entry_each(self@),
    {
        proof {
            use_type_invariant(self);
        }
    }

    /// Starts the monitor: it is active from now on.
    pub fn start(&mut self) -> (r: Result<(), MonitorError>)
        ensures
            r is Ok,
            final(self).active(),
            final(self)@ == old(self)@,
            final(self).interval() == old(self).interval(),
    {
        proof {
            use_type_invariant(&*self);
        }
        self.active = true;
        Ok(())
    }

    /// Stops the monitor: it is active no more.
    pub fn stop(&mut self) -> (r: Result<(), MonitorError>)
        ensures
            r is Ok,
            !final(self).active(),
            final(self)@ == old(self)@,
            final(self).interval() == old(self).interval(),
    {
        proof {
            use_type_invariant(&*self);
        }
        self.active = false;
        Ok(())
    }

    /// The place of the job `job_id`, or the number of entries where it is
    /// not tracked.
    fn find(&self, job_id: &JobId) -> (i: usize)
        ensures
            i == tracked_at(self@, job_id@),
            i <= self@.len(),
            self@.len() == self.tracked_jobs@.len(),
    {
        let mut i: usize = 0;
        while i < self.tracked_jobs.len()
            invariant
                i <= self.tracked_jobs.len(),
                self@.len() == self.tracked_jobs@.len(),
                forall|j: int| 0 <= j < i ==> !watches(job_id@)(#[trigger] self@[j]),
            decreases self.tracked_jobs.len() - i,
        {
            if self.tracked_jobs[i].job_id == *job_id {
                proof {
                    lemma_first_index_is(self@, watches(job_id@), i as int);
                }
                return i;
            }
            i = i + 1;
        }
        proof {
            lemma_first_index_is(self@, watches(job_id@), i as int);
        }
        i
    }

    /// Tracks a job from the time of the system clock on: for some instant,
    /// what `track_job_at` does.
    pub fn track_job(&mut self, job_id: JobId) -> (r: Result<(), MonitorError>)
        ensures
            r is Ok,
            exists|now: Timestamp| final(self)@ == #[trigger] with_tracked(old(self)@, job_id@, now),
            final(self).active() == old(self).active(),
            final(self).interval() == old(self).interval(),
    {
        let now = current_time();
        self.track_job_at(job_id, now)
    }

    /// Tracks a job from `now` on, in the status `Scheduled` and with no run
    /// counted. A job that is tracked already starts anew.
    pub fn track_job_at(&mut self, job_id: JobId, now: Timestamp) -> (r: Result<(), MonitorError>)
        ensures
            r is Ok,
            final(self)@ == with_tracked(old(self)@, job_id@, now),
            final(self).active() == old(self).active(),
            final(self).interval() == old(self).interval(),
    {
        proof {
            use_type_invariant(&*self);
            lemma_with_tracked(self@, job_id@, now);
        }
        let at = self.find(&job_id);
        let ghost before = self@;
        let health = JobHealth {
            job_id,
            status: JobStatus::Scheduled,
            last_check: now,
            execution_count: 0,
            failure_count: 0,
            average_duration: 0,
            last_execution: None,
        };
        let mut entries: Vec<JobHealth> = Vec::new();
        std::mem::swap(&mut entries, &mut self.tracked_jobs);
        if at < entries.len() {
            proof {
                assert(entries@.update(at as int, health).map_values(|e: JobHealth| e@)
                    =~= before.update(at as int, health@));
            }
            entries.set(at, health);
        } else {
            proof {
                assert(entries@.push(health).map_values(|e: JobHealth| e@) =~= before.push(health@));
            }
            entries.push(health);
        }
        self.tracked_jobs = entries;
        Ok(())
    }

    /// Stops tracking a job. A job that is not tracked is no error.
    pub fn untrack_job(&mut self, job_id: &JobId) -> (r: Result<(), MonitorError>)
        ensures
            r is Ok,
            final(self)@ == with_untracked(old(self)@, job_id@),
            final(self).active() == old(self).active(),
            final(self).interval() == old(self).interval(),
    {
        proof {
            use_type_invariant(&*self);
        }
        let at = self.find(job_id);
        if at >= self.tracked_jobs.len() {
            return Ok(());
        }
        let ghost before = self@;
        let mut entries: Vec<JobHealth> = Vec::new();
        std::mem::swap(&mut entries, &mut self.tracked_jobs);
        proof {
            assert(entries@.remove(at as int).map_values(|e: JobHealth| e@) =~= before.remove(
                at as int,
            ));
        }
        entries.remove(at);
        self.tracked_jobs = entries;
        Ok(())
    }

    /// Reports the status of a job at the time of the system clock: for some
    /// instant, what `update_job_status_at` does.
    pub fn update_job_status(&mut self, job_id: &JobId, status: JobStatus) -> (r: Result<
        (),
        MonitorError,
    >)
        ensures
            r is Ok,
            exists|now: Timestamp|
                final(self)@ == #[trigger] with_status(old(self)@, job_id@, status@, now),
            final(self).active() == old(self).active(),
            final(self).interval() == old(self).interval(),
    {
        let now = current_time();
        self.update_job_status_at(job_id, status, now)
    }

    /// Reports the status of a job at `now`. The job gets the status and
    /// `now` as its last check; a completed run is counted as an execution
    /// and makes `now` the last execution; a failed run is counted as a
    /// failure. A job that is not tracked is no error, and then nothing
    /// changes.
    pub fn update_job_status_at(&mut self, job_id: &JobId, status: JobStatus, now: Timestamp) -> (r:
        Result<(), MonitorError>)
        ensures
            r is Ok,
            final(self)@ == with_status(old(self)@, job_id@, status@, now),
            final(self).active() == old(self).active(),
            final(self).interval() == old(self).interval(),
    {
        proof {
            use_type_invariant(&*self);
            lemma_with_status(self@, job_id@, status@, now);
        }
        let at = self.find(job_id);
        if at >= self.tracked_jobs.len() {
            return Ok(());
        }
        let ghost before = self@;
        let old_health = &self.tracked_jobs[at];
        let completed = match &status {
            JobStatus::Completed => true,
            _ => false,
        };
        let failed = match &status {
            JobStatus::Failed { .. } => true,
            _ => false,
        };
        let health = JobHealth {
            job_id: old_health.job_id.clone(),
            status,
            last_check: now,
            execution_count: if completed && old_health.execution_count < u32::MAX {
                old_health.execution_count + 1
            } else {
                old_health.execution_count
            },
            failure_count: if failed && old_health.failure_count < u32::MAX {
                old_health.failure_count + 1
            } else {
                old_health.failure_count
            },
            average_duration: old_health.average_duration,
            last_execution: if completed {
                Some(now)
            } else {
                old_health.last_execution
            },
        };
        let mut entries: Vec<JobHealth> = Vec::new();
        std::mem::swap(&mut entries, &mut self.tracked_jobs);
        proof {
            assert(entries@.update(at as int, health).map_values(|e: JobHealth| e@) =~= before.update(
                at as int,
                health@,
            ));
        }
        entries.set(at, health);
        self.tracked_jobs = entries;
        Ok(())
    }

    /// The status of a tracked job. A job that is not tracked is an error.
    pub fn get_job_status(&self, job_id: &JobId) -> (r: Result<JobStatus, MonitorError>)
        ensures
            r is Ok <==> is_tracked(self@, job_id@),
            r matches Ok(status) ==> status@ == self@[tracked_at(self@, job_id@)].status,
            r matches Err(e) ==> e@ == MonitorErrorView::JobNotFound(job_id@),
    {
        let at = self.find(job_id);
        if at < self.tracked_jobs.len() {
            Ok(self.tracked_jobs[at].status.clone())
        } else {
            Err(MonitorError::JobNotFound(job_id.clone()))
        }
    }

    /// The health of a tracked job. A job that is not tracked is an error.
    pub fn get_job_health(&self, job_id: &JobId) -> (r: Result<JobHealth, MonitorError>)
        ensures
            r is Ok <==> is_tracked(self@, job_id@),
            r matches Ok(health) ==> health@ == self@[tracked_at(self@, job_id@)],
            r matches Err(e) ==> e@ == MonitorErrorView::JobNotFound(job_id@),
    {
        let at = self.find(job_id);
        if at < self.tracked_jobs.len() {
            Ok(self.tracked_jobs[at].clone())
        } else {
            Err(MonitorError::JobNotFound(job_id.clone()))
        }
    }

    /// The health of every tracked job, in the order in which the jobs came
    /// under watch.
    pub fn get_tracked_jobs(&self) -> (r: Vec<JobHealth>)
        ensures
            r@.map_values(|e: JobHealth| e@) == self@,
    {
        let mut out: Vec<JobHealth> = Vec::new();
        let mut i: usize = 0;
        while i < self.tracked_jobs.len()
            invariant
                i <= self.tracked_jobs.len(),
                self@.len() == self.tracked_jobs@.len(),
                out@.len() == i,
                forall|j: int| 0 <= j < i ==> (#[trigger] out@[j])@ == self@[j],
            decreases self.tracked_jobs.len() - i,
        {
            out.push(self.tracked_jobs[i].clone());
            i = i + 1;
        }
        out
    }

    /// The statistics over the tracked jobs.
    pub fn get_stats(&self) -> (stats: MonitorStats)
        ensures
            stats == stats_of(self@),
    {
        Self::update_stats_internal(&self.tracked_jobs)
    }

    /// The statistics over the tracked jobs, computed anew.
    pub fn update_stats(&self) -> (stats: MonitorStats)
        ensures
            stats == stats_of(self@),
    {
        Self::update_stats_internal(&self.tracked_jobs)
    }

    /// Computes the statistics over a list of jobs.
    pub fn update_stats_internal(jobs: &Vec<JobHealth>) -> (stats: MonitorStats)
        ensures
            stats == stats_of(jobs@.map_values(|e: JobHealth| e@)),
    {
        let ghost h = jobs@.map_values(|e: JobHealth| e@);
        let mut running: usize = 0;
        let mut completed: usize = 0;
        let mut failed: usize = 0;
        let mut cancelled: usize = 0;
        let mut duration: u128 = 0;
        let mut executions: u128 = 0;
        let mut failures: u128 = 0;
        let mut i: usize = 0;
        while i < jobs.len()
            invariant
                i <= jobs.len(),
                h == jobs@.map_values(|e: JobHealth| e@),
                running == tally(h.subrange(0, i as int)).running,
                completed == tally(h.subrange(0, i as int)).completed,
                failed == tally(h.subrange(0, i as int)).failed,
                cancelled == tally(h.subrange(0, i as int)).cancelled,
                duration == tally(h.subrange(0, i as int)).duration,
                executions == tally(h.subrange(0, i as int)).executions,
                failures == tally(h.subrange(0, i as int)).failures,
            decreases jobs.len() - i,
        {
            proof {
                let longer = h.subrange(0, i + 1);
                assert(longer.drop_last() =~= h.subrange(0, i as int));
                lemma_tally_bounds(longer);
            }
            let health = &jobs[i];
            match &health.status {
                JobStatus::Running => {
                    running = running + 1;
                },
                JobStatus::Completed => {
                    completed = completed + 1;
                    executions = executions + health.execution_count as u128;
                },
                JobStatus::Failed { .. } => {
                    failed = failed + 1;
                    failures = failures + health.failure_count as u128;
                },
                JobStatus::Cancelled => {
                    cancelled = cancelled + 1;
                },
                _ => {},
            }
            duration = duration + health.average_duration as u128;
            i = i + 1;
        }
        proof {
            assert(h.subrange(0, i as int) =~= h);
            lemma_tally_bounds(h);
        }
        MonitorStats {
            total_jobs: jobs.len(),
            running_jobs: running,
            completed_jobs: completed,
            failed_jobs: failed,
            cancelled_jobs: cancelled,
            average_execution_time: if jobs.len() > 0 {
                Ratio { numerator: duration as i128, denominator: jobs.len() as u128 }
            } else {
                Ratio { numerator: 0, denominator: 0 }
            },
            success_rate: if executions > 0 {
                Ratio { numerator: executions as i128 - failures as i128, denominator: executions }
            } else {
                Ratio { numerator: 0, denominator: 0 }
            },
        }
    }

    /// Checks the health of every tracked job at `now`. Each job gets `now`
    /// as its last check, and nothing else changes. The warnings come back
    /// job by job: for a job that is stuck, and for a job more than half of
    /// whose executions failed.
    pub fn perform_health_checks(&mut self, now: Timestamp) -> (warnings: Vec<HealthWarning>)
        ensures
            final(self)@ == checked_at(old(self)@, now),
            warning_views(warnings@) == warnings_of(old(self)@, now),
            final(self).active() == old(self).active(),
            final(self).interval() == old(self).interval(),
    {
        proof {
            use_type_invariant(&*self);
        }
        let ghost before = self@;
        let mut entries: Vec<JobHealth> = Vec::new();
        std::mem::swap(&mut entries, &mut self.tracked_jobs);
        let mut checked: Vec<JobHealth> = Vec::new();
        let mut warnings: Vec<HealthWarning> = Vec::new();
        let mut i: usize = 0;
        while i < entries.len()
            invariant
                i <= entries.len(),
                before == entries@.map_values(|e: JobHealth| e@),
                checked@.len() == i,
                forall|j: int|
                    0 <= j < i ==> (#[trigger] checked@[j])@ == (JobHealthView {
                        last_check: now,
                        ..before[j]
                    }),
                warning_views(warnings@) == warnings_of(before.subrange(0, i as int), now),
            decreases entries.len() - i,
        {
            let health = &entries[i];
            proof {
                let longer = before.subrange(0, i + 1);
                assert(longer.drop_last() =~= before.subrange(0, i as int));
            }
            let running = match &health.status {
                JobStatus::Running => true,
                _ => false,
            };
            let mut stuck = false;
            if running {
                match health.last_execution {
                    Some(last) => {
                        let elapsed: i128 = (now.secs as i128 - last.secs as i128) * 1_000_000_000 + (
                        now.nanos as i128 - last.nanos as i128);
                        if elapsed > 60 * 60_000_000_000 {
                            let minutes: i128 = elapsed / 60_000_000_000;
                            let warning = HealthWarning::StuckJob {
                                job_id: health.job_id.clone(),
                                minutes: minutes as i64,
                            };
                            warnings.push(warning);
                            stuck = true;
                        }
                    },
                    None => {},
                }
            }
            if health.execution_count > 0 && 2 * (health.failure_count as u64)
                > health.execution_count as u64 {
                let warning = HealthWarning::HighFailureRate {
                    job_id: health.job_id.clone(),
                    failure_count: health.failure_count,
                    execution_count: health.execution_count,
                };
                warnings.push(warning);
            }
            checked.push(
                JobHealth {
                    job_id: health.job_id.clone(),
                    status: health.status.clone(),
                    last_check: now,
                    execution_count: health.execution_count,
                    failure_count: health.failure_count,
                    average_duration: health.average_duration,
                    last_execution: health.last_execution,
                },
            );
            i = i + 1;
        }
        proof {
            assert(before.subrange(0, i as int) =~= before);
        }
        self.tracked_jobs = checked;
        warnings
    }

    /// Sets the seconds between two health checks.
    pub fn set_health_check_interval(&mut self, interval: u64)
        ensures
            final(self).interval() == interval,
            final(self)@ == old(self)@,
            final(self).active() == old(self).active(),
    {
        proof {
            use_type_invariant(&*self);
        }
        self.health_check_interval = interval;
    }

    /// The seconds between two health checks.
    pub fn get_health_check_interval(&self) -> (interval: u64)
        ensures
            interval == self.interval(),
    {
        self.health_check_interval
    }

    /// Whether monitoring is active.
    pub fn is_active(&self) -> (r: bool)
        ensures
            r == self.active(),
    {
        self.active
    }
}

} // verus!
