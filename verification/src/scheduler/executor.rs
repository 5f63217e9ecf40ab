//! Job execution bookkeeping: which jobs run, the record of the last run of
//! each job, what a finished process means, and when a failed run is tried
//! again.
//!
//! The executor starts no process itself. It says what is to be started,
//! takes what came of it, and says what follows.

use vstd::prelude::*;
use vstd::string::*;
use crate::scheduler::job::{
    Job, JobId, JobResult, JobResultView, JobStatus, JobStatusView, JobView, ResourceUsage,
    RetryPolicy,
};
use crate::scheduler::search::{first_index, lemma_first_index, lemma_first_index_is};
use crate::scheduler::text::{
    copy_optional_text, copy_text_pairs, copy_texts, integer_text, integer_to_text, optional_text,
    text_pairs, texts,
};
use crate::scheduler::time::{current_time, Timestamp};

verus! {

/// The number of execution requests that may wait for a worker at a time.
pub const REQUEST_QUEUE_CAPACITY: usize = 100;

/// Errors that can occur during job execution.
#[derive(Debug, PartialEq, Eq)]
pub enum ExecutorError {
    ExecutionFailed(String),
    ProcessCreationFailed(String),
    ResourceLimitExceeded(String),
    JobTimeout(String),
    RetryLimitExceeded(String),
    InvalidJob(String),
}

/// An executor error over sequences of characters.
pub enum ExecutorErrorView {
    ExecutionFailed(Seq<char>),
    ProcessCreationFailed(Seq<char>),
    ResourceLimitExceeded(Seq<char>),
    JobTimeout(Seq<char>),
    RetryLimitExceeded(Seq<char>),
    InvalidJob(Seq<char>),
}

impl ExecutorErrorView {
    /// The error as one line of text.
    pub open spec fn text(self) -> Seq<char> {
        match self {
            ExecutorErrorView::ExecutionFailed(m) => "Job execution failed: "@ + m,
            ExecutorErrorView::ProcessCreationFailed(m) => "Process creation failed: "@ + m,
            ExecutorErrorView::ResourceLimitExceeded(m) => "Resource limit exceeded: "@ + m,
            ExecutorErrorView::JobTimeout(m) => "Job timeout: "@ + m,
            ExecutorErrorView::RetryLimitExceeded(m) => "Retry limit exceeded: "@ + m,
            ExecutorErrorView::InvalidJob(m) => "Invalid job configuration: "@ + m,
        }
    }
}

impl View for ExecutorError {
    type V = ExecutorErrorView;

    open spec fn view(&self) -> ExecutorErrorView {
        match *self {
            ExecutorError::ExecutionFailed(m) => ExecutorErrorView::ExecutionFailed(m@),
            ExecutorError::ProcessCreationFailed(m) => ExecutorErrorView::ProcessCreationFailed(m@),
            ExecutorError::ResourceLimitExceeded(m) => ExecutorErrorView::ResourceLimitExceeded(m@),
            ExecutorError::JobTimeout(m) => ExecutorErrorView::JobTimeout(m@),
            ExecutorError::RetryLimitExceeded(m) => ExecutorErrorView::RetryLimitExceeded(m@),
            ExecutorError::InvalidJob(m) => ExecutorErrorView::InvalidJob(m@),
        }
    }
}

impl ExecutorError {
    /// The error as one line of text.
    pub fn describe(&self) -> (line: String)
        ensures
            line@ == self@.text(),
    {
        match self {
            ExecutorError::ExecutionFailed(m) => String::from_str("Job execution failed: ").concat(
                m.as_str(),
            ),
            ExecutorError::ProcessCreationFailed(m) => String::from_str(
                "Process creation failed: ",
            ).concat(m.as_str()),
            ExecutorError::ResourceLimitExceeded(m) => String::from_str(
                "Resource limit exceeded: ",
            ).concat(m.as_str()),
            ExecutorError::JobTimeout(m) => String::from_str("Job timeout: ").concat(m.as_str()),
            ExecutorError::RetryLimitExceeded(m) => String::from_str(
                "Retry limit exceeded: ",
            ).concat(m.as_str()),
            ExecutorError::InvalidJob(m) => String::from_str("Invalid job configuration: ").concat(
                m.as_str(),
            ),
        }
    }
}

/// Request to execute a job: the job and the number of the run, from 1.
#[derive(Debug)]
pub struct JobExecutionRequest {
    pub job: Job,
    pub attempt: u32,
}

/// An execution request over sequences of characters.
pub struct JobExecutionRequestView {
    pub job: JobView,
    pub attempt: u32,
}

impl View for JobExecutionRequest {
    type V = JobExecutionRequestView;

    open spec fn view(&self) -> JobExecutionRequestView {
        JobExecutionRequestView { job: self.job@, attempt: self.attempt }
    }
}

/// A job that runs: the job, when its run started, and the number of the run.
#[derive(Debug)]
pub struct RunningJob {
    pub job: Job,
    pub start_time: Timestamp,
    pub attempt: u32,
}

/// A running job over sequences of characters.
pub struct RunningJobView {
    pub job: JobView,
    pub start_time: Timestamp,
    pub attempt: u32,
}

impl View for RunningJob {
    type V = RunningJobView;

    open spec fn view(&self) -> RunningJobView {
        RunningJobView { job: self.job@, start_time: self.start_time, attempt: self.attempt }
    }
}

/// The process to start for a job.
#[derive(Debug, PartialEq, Eq)]
pub struct ProcessPlan {
    pub command: String,
    pub args: Vec<String>,
    /// The directory to run in; that of the scheduler where absent.
    pub working_dir: Option<String>,
    /// The variables to lay over the environment of the scheduler.
    pub env: Vec<(String, String)>,
    /// After how many seconds the process is killed.
    pub timeout: Option<u64>,
}

/// A process plan over sequences of characters.
pub struct ProcessPlanView {
    pub command: Seq<char>,
    pub args: Seq<Seq<char>>,
    pub working_dir: Option<Seq<char>>,
    pub env: Seq<(Seq<char>, Seq<char>)>,
    pub timeout: Option<u64>,
}

impl View for ProcessPlan {
    type V = ProcessPlanView;

    open spec fn view(&self) -> ProcessPlanView {
        ProcessPlanView {
            command: self.command@,
            args: texts(self.args@),
            working_dir: optional_text(self.working_dir),
            env: text_pairs(self.env@),
            timeout: self.timeout,
        }
    }
}

/// The process plan of a job: its command line, directory and variables, and
/// its longest duration as the time after which the process is killed.
pub open spec fn plan_of(job: JobView) -> ProcessPlanView {
    ProcessPlanView {
        command: job.command,
        args: job.args,
        working_dir: job.working_dir,
        env: job.env,
        timeout: job.resource_limits.max_duration,
    }
}

/// What came of the process of a run.
#[derive(Debug, PartialEq, Eq)]
pub enum ProcessOutcome {
    /// The process ran to its end. The code is absent where a signal ended
    /// it.
    Exited { code: Option<i32>, stdout: String, stderr: String },
    /// The process could not be started; the message is that of the system.
    SpawnFailed { message: String },
    /// The process ran past its longest duration and was killed.
    TimedOut,
    /// The working directory of the job does not exist.
    MissingWorkingDir,
}

/// A process outcome over sequences of characters.
pub enum ProcessOutcomeView {
    Exited { code: Option<i32>, stdout: Seq<char>, stderr: Seq<char> },
    SpawnFailed { message: Seq<char> },
    TimedOut,
    MissingWorkingDir,
}

impl View for ProcessOutcome {
    type V = ProcessOutcomeView;

    open spec fn view(&self) -> ProcessOutcomeView {
        match *self {
            ProcessOutcome::Exited { code, stdout, stderr } => ProcessOutcomeView::Exited {
                code,
                stdout: stdout@,
                stderr: stderr@,
            },
            ProcessOutcome::SpawnFailed { message } => ProcessOutcomeView::SpawnFailed {
                message: message@,
            },
            ProcessOutcome::TimedOut => ProcessOutcomeView::TimedOut,
            ProcessOutcome::MissingWorkingDir => ProcessOutcomeView::MissingWorkingDir,
        }
    }
}

/// What follows a finished run.
#[derive(Debug)]
pub enum NextStep {
    /// Nothing: the job is done with this round of runs.
    Done,
    /// The job is to run again: the request is to be handed in after `delay`
    /// seconds.
    Retry { request: JobExecutionRequest, delay: u64 },
}

/// A next step over sequences of characters.
pub enum NextStepView {
    Done,
    Retry { request: JobExecutionRequestView, delay: u64 },
}

impl View for NextStep {
    type V = NextStepView;

    open spec fn view(&self) -> NextStepView {
        match *self {
            NextStep::Done => NextStepView::Done,
            NextStep::Retry { request, delay } => NextStepView::Retry { request: request@, delay },
        }
    }
}

/// Two to the power of `n`.
pub open spec fn pow2(n: nat) -> nat
    decreases n,
{
    if n == 0 {
        1
    } else {
        2 * pow2((n - 1) as nat)
    }
}

/// The delay in seconds before the run that follows the failed run number
/// `attempt`. It is the delay of the policy; with exponential backoff it
/// doubles with each run, from the delay of the policy after the first run,
/// and does not pass the longest delay of the policy. A run number of 0
/// counts as 1.
pub open spec fn retry_delay(policy: RetryPolicy, attempt: u32) -> int {
    if policy.exponential_backoff {
        let doublings: nat = if attempt >= 1 {
            (attempt - 1) as nat
        } else {
            0
        };
        let grown = policy.delay * pow2(doublings);
        match policy.max_delay {
            Some(longest) => if grown < longest {
                grown
            } else {
                longest as int
            },
            None => grown,
        }
    } else {
        policy.delay as int
    }
}

/// `n` as a count of seconds, but not past the largest count.
pub open spec fn capped(n: int) -> u64 {
    if n <= u64::MAX {
        n as u64
    } else {
        u64::MAX
    }
}

/// Whether a failed run number `attempt` is followed by another run.
pub open spec fn retries(policy: RetryPolicy, attempt: u32) -> bool {
    attempt < policy.max_attempts
}

/// The numbers of the runs of a job of which every run fails, from the run
/// number `from` on.
pub open spec fn failing_runs(policy: RetryPolicy, from: u32) -> Seq<u32>
    decreases policy.max_attempts - from,
{
    if retries(policy, from) {
        seq![from] + failing_runs(policy, (from + 1) as u32)
    } else {
        seq![from]
    }
}

/// A job that always fails runs as often as its policy allows in all, and
/// the numbers of its runs rise by one from 1.
pub proof fn lemma_failing_job_runs(policy: RetryPolicy)
    requires
        policy.max_attempts >= 1,
    ensures
        failing_runs(policy, 1).len() == policy.max_attempts,
        forall|i: int| 0 <= i < policy.max_attempts ==> failing_runs(policy, 1)[i] == i + 1,
{
    lemma_failing_runs_from(policy, 1);
}

/// From the run number `from` on, a job that always fails runs until the run
/// number reaches the number of runs allowed.
pub proof fn lemma_failing_runs_from(policy: RetryPolicy, from: u32)
    requires
        1 <= from <= policy.max_attempts,
    ensures
        failing_runs(policy, from).len() == policy.max_attempts - from + 1,
        forall|i: int|
            0 <= i <= policy.max_attempts - from ==> failing_runs(policy, from)[i] == from + i,
    decreases policy.max_attempts - from,
{
    if from < policy.max_attempts {
        lemma_failing_runs_from(policy, (from + 1) as u32);
    }
}

/// Doubling more often gives no less.
pub proof fn lemma_pow2_grows(i: nat, j: nat)
    requires
        i <= j,
    ensures
        1 <= pow2(i) <= pow2(j),
    decreases j,
{
    if i < j {
        lemma_pow2_grows(i, (j - 1) as nat);
    } else if i > 0 {
        lemma_pow2_grows((i - 1) as nat, (i - 1) as nat);
    }
}

/// The later of two instants.
pub open spec fn later_of(a: Timestamp, b: Timestamp) -> Timestamp {
    if b.before(a) {
        a
    } else {
        b
    }
}

/// The whole seconds from `from` to `to`; none where the nanoseconds from the
/// one to the other do not make a second.
pub open spec fn whole_seconds(from: Timestamp, to: Timestamp) -> int {
    if from.nanos_until(to) <= 0 {
        0
    } else {
        from.nanos_until(to) / 1_000_000_000
    }
}

/// The error of a process that ended with the code `code`, where the code -1
/// stands for none.
pub open spec fn exit_text(code: Option<i32>) -> Seq<char> {
    "Exit code: "@ + integer_text(
        match code {
            Some(c) => c as int,
            None => -1,
        },
    )
}

/// The record of a run of the job `job_id` that started at `started_at`, of
/// which `outcome` was reported at `reported`. The run ends at `reported`, or
/// at `started_at` where the clock went back between the two. It is
/// completed where the process ended with the code 0 and failed otherwise.
pub open spec fn result_of(
    job_id: Seq<char>,
    started_at: Timestamp,
    reported: Timestamp,
    outcome: ProcessOutcomeView,
) -> JobResultView {
    let ended = later_of(started_at, reported);
    match outcome {
        ProcessOutcomeView::Exited { code, stdout, stderr } => JobResultView {
            job_id,
            started_at,
            ended_at: Some(ended),
            exit_code: code,
            stdout,
            stderr,
            status: if code == Some(0i32) {
                JobStatusView::Completed
            } else {
                JobStatusView::Failed { error: exit_text(code) }
            },
            resource_usage: Some(
                ResourceUsage {
                    cpu_percent: 0,
                    memory_mb: 0,
                    duration_seconds: capped(whole_seconds(started_at, ended)),
                    disk_io_mb: 0,
                },
            ),
        },
        ProcessOutcomeView::SpawnFailed { message } => JobResultView {
            job_id,
            started_at,
            ended_at: Some(ended),
            exit_code: None,
            stdout: Seq::empty(),
            stderr: message,
            status: JobStatusView::Failed { error: message },
            resource_usage: None,
        },
        ProcessOutcomeView::TimedOut => JobResultView {
            job_id,
            started_at,
            ended_at: Some(ended),
            exit_code: None,
            stdout: Seq::empty(),
            stderr: "timeout"@,
            status: JobStatusView::Failed { error: "timeout"@ },
            resource_usage: None,
        },
        ProcessOutcomeView::MissingWorkingDir => JobResultView {
            job_id,
            started_at,
            ended_at: Some(ended),
            exit_code: None,
            stdout: Seq::empty(),
            stderr: "no such working directory"@,
            status: JobStatusView::Failed { error: "no such working directory"@ },
            resource_usage: None,
        },
    }
}

/// The record of a run that was cancelled at `reported`.
pub open spec fn cancelled_result(run: RunningJobView, reported: Timestamp) -> JobResultView {
    JobResultView {
        job_id: run.job.id,
        started_at: run.start_time,
        ended_at: Some(later_of(run.start_time, reported)),
        exit_code: None,
        stdout: Seq::empty(),
        stderr: "Job cancelled"@,
        status: JobStatusView::Cancelled,
        resource_usage: None,
    }
}

/// The property of being the run of the job `id`.
pub open spec fn runs(id: Seq<char>) -> spec_fn(RunningJobView) -> bool {
    |r: RunningJobView| r.job.id == id
}

/// The property of being the record of the job `id`.
pub open spec fn records(id: Seq<char>) -> spec_fn(JobResultView) -> bool {
    |r: JobResultView| r.job_id == id
}

/// The state of an executor: the jobs that run, and the record of the last
/// run of each job that ran.
pub struct ExecutorView {
    pub running: Seq<RunningJobView>,
    pub results: Seq<JobResultView>,
}

impl ExecutorView {
    /// The place of the run of the job `id`, or the number of runs where the
    /// job does not run.
    pub open spec fn run_at(self, id: Seq<char>) -> int {
        first_index(self.running, runs(id))
    }

    /// Whether the job `id` runs.
    pub open spec fn is_running(self, id: Seq<char>) -> bool {
        self.run_at(id) < self.running.len()
    }

    /// The place of the record of the job `id`, or the number of records
    /// where there is none.
    pub open spec fn result_at(self, id: Seq<char>) -> int {
        first_index(self.results, records(id))
    }

    /// Whether there is a record of the job `id`.
    pub open spec fn has_result(self, id: Seq<char>) -> bool {
        self.result_at(id) < self.results.len()
    }

    /// The status of the job `id`: running where it runs, else the status of
    /// its last run, else scheduled.
    pub open spec fn status_of(self, id: Seq<char>) -> JobStatusView {
        if self.is_running(id) {
            JobStatusView::Running
        } else if self.has_result(id) {
            self.results[self.result_at(id)].status
        } else {
            JobStatusView::Scheduled
        }
    }

    /// No job runs twice at a time, there is one record for each job, and
    /// each record is that of a run that is over.
    pub open spec fn well_formed(self) -> bool {
        &&& forall|i: int, j: int|
            0 <= i < self.running.len() && 0 <= j < self.running.len() && i != j ==> (
            #[trigger] self.running[i]).job.id != (#[trigger] self.running[j]).job.id
        &&& forall|i: int, j: int|
            0 <= i < self.results.len() && 0 <= j < self.results.len() && i != j ==> (
            #[trigger] self.results[i]).job_id != (#[trigger] self.results[j]).job_id
        &&& forall|i: int| 0 <= i < self.results.len() ==> (#[trigger] self.results[i]).is_closed()
    }

    /// The state with `run` among the runs: in the place of the run of the
    /// same job where there is one, else last.
    pub open spec fn with_run(self, run: RunningJobView) -> ExecutorView {
        ExecutorView {
            running: if self.is_running(run.job.id) {
                self.running.update(self.run_at(run.job.id), run)
            } else {
                self.running.push(run)
            },
            ..self
        }
    }

    /// The state without the run of the job `id`.
    pub open spec fn without_run(self, id: Seq<char>) -> ExecutorView {
        ExecutorView {
            running: if self.is_running(id) {
                self.running.remove(self.run_at(id))
            } else {
                self.running
            },
            ..self
        }
    }

    /// The state with `result` among the records: in the place of the record
    /// of the same job where there is one, else last.
    pub open spec fn with_result(self, result: JobResultView) -> ExecutorView {
        ExecutorView {
            results: if self.has_result(result.job_id) {
                self.results.update(self.result_at(result.job_id), result)
            } else {
                self.results.push(result)
            },
            ..self
        }
    }

    /// The state after the outcome of the run of the job `id` was reported at
    /// `now`: the run is over and its record is kept. Nothing changes where
    /// the job does not run, as after it was cancelled.
    pub open spec fn finished(self, id: Seq<char>, outcome: ProcessOutcomeView, now: Timestamp) -> ExecutorView {
        if self.is_running(id) {
            let run = self.running[self.run_at(id)];
            self.without_run(id).with_result(result_of(id, run.start_time, now, outcome))
        } else {
            self
        }
    }

    /// What follows the report of an outcome: a failed run that is not the
    /// last one allowed is followed by the next run after the retry delay.
    pub open spec fn step_after(self, id: Seq<char>, outcome: ProcessOutcomeView, now: Timestamp) -> NextStepView {
        if self.is_running(id) {
            let run = self.running[self.run_at(id)];
            let result = result_of(id, run.start_time, now, outcome);
            if result.status is Failed && retries(run.job.retry_policy, run.attempt) {
                NextStepView::Retry {
                    request: JobExecutionRequestView {
                        job: run.job,
                        attempt: (run.attempt + 1) as u32,
                    },
                    delay: capped(retry_delay(run.job.retry_policy, run.attempt)),
                }
            } else {
                NextStepView::Done
            }
        } else {
            NextStepView::Done
        }
    }

    /// The state after the job `id` was cancelled at `now`: its run is over
    /// and recorded as cancelled. Nothing changes where the job does not run.
    pub open spec fn cancelled(self, id: Seq<char>, now: Timestamp) -> ExecutorView {
        if self.is_running(id) {
            let run = self.running[self.run_at(id)];
            self.without_run(id).with_result(cancelled_result(run, now))
        } else {
            self
        }
    }

    /// The state after every run was cancelled at `now`, from the first run
    /// to the last.
    pub open spec fn drained(self, now: Timestamp) -> ExecutorView
        decreases self.running.len(),
    {
        if self.running.len() == 0 {
            self
        } else {
            let rest = ExecutorView { running: self.running.drop_last(), ..self }.drained(now);
            ExecutorView { running: Seq::empty(), ..rest.with_result(
                cancelled_result(self.running.last(), now),
            ) }
        }
    }
}

/// The record that is made of an outcome is that of a run that is over.
pub proof fn lemma_result_closed(
    job_id: Seq<char>,
    started_at: Timestamp,
    reported: Timestamp,
    outcome: ProcessOutcomeView,
)
    ensures
        result_of(job_id, started_at, reported, outcome).is_closed(),
        result_of(job_id, started_at, reported, outcome).job_id == job_id,
{
}

/// A record of a run that is over can be kept in a well-formed state.
pub proof fn lemma_with_result(state: ExecutorView, result: JobResultView)
    requires
        state.well_formed(),
        result.is_closed(),
    ensures
        state.with_result(result).well_formed(),
        state.with_result(result).has_result(result.job_id),
        state.with_result(result).results[state.with_result(result).result_at(result.job_id)]
            == result,
{
    let id = result.job_id;
    lemma_first_index(state.results, records(id));
    let r = state.with_result(result).results;
    let k = state.result_at(id);
    if state.has_result(id) {
        lemma_first_index_is(r, records(id), k);
    } else {
        lemma_first_index_is(r, records(id), state.results.len() as int);
    }
}

/// A run of a job can be taken up into a well-formed state.
pub proof fn lemma_with_run(state: ExecutorView, run: RunningJobView)
    requires
        state.well_formed(),
    ensures
        state.with_run(run).well_formed(),
        state.with_run(run).is_running(run.job.id),
{
    let id = run.job.id;
    lemma_first_index(state.running, runs(id));
    let r = state.with_run(run).running;
    let k = state.run_at(id);
    if state.is_running(id) {
        lemma_first_index_is(r, runs(id), k);
    } else {
        lemma_first_index_is(r, runs(id), state.running.len() as int);
    }
}

/// Every run ends in a terminal status no earlier than it started: the
/// record that a report or a cancellation leaves of a job is that of a run
/// that is over.
pub proof fn lemma_runs_end_closed(
    state: ExecutorView,
    id: Seq<char>,
    outcome: ProcessOutcomeView,
    now: Timestamp,
)
    requires
        state.well_formed(),
        state.is_running(id),
    ensures
        state.finished(id, outcome, now).well_formed(),
        state.finished(id, outcome, now).has_result(id),
        state.finished(id, outcome, now).results[state.finished(id, outcome, now).result_at(
            id,
        )].is_closed(),
        state.cancelled(id, now).well_formed(),
        state.cancelled(id, now).has_result(id),
        state.cancelled(id, now).results[state.cancelled(id, now).result_at(id)].status
            is Cancelled,
{
    let run = state.running[state.run_at(id)];
    lemma_first_index(state.running, runs(id));
    lemma_with_result(state.without_run(id), result_of(id, run.start_time, now, outcome));
    lemma_with_result(state.without_run(id), cancelled_result(run, now));
}

/// Job executor: the jobs that run, and the record of the last run of each
/// job.
pub struct JobExecutor {
    running_jobs: Vec<RunningJob>,
    job_results: Vec<JobResult>,
}

impl View for JobExecutor {
    type V = ExecutorView;

    closed spec fn view(&self) -> ExecutorView {
        ExecutorView {
            running: self.running_jobs@.map_values(|r: RunningJob| r@),
            results: self.job_results@.map_values(|r: JobResult| r@),
        }
    }
}

impl JobExecutor {
    #[verifier::type_invariant]
    spec fn inv(self) -> bool {
        self@.well_formed()
    }

    /// Creates an executor in which no job runs and no run is recorded.
    pub fn new() -> (executor: JobExecutor)
        ensures
            executor@.running == Seq::<RunningJobView>::empty(),
            executor@.results == Seq::<JobResultView>::empty(),
    {
        JobExecutor { running_jobs: Vec::new(), job_results: Vec::new() }
    }

    /// The state of the executor is well-formed at all times.
    pub fn check(&self)
        ensures
            self@.well_formed(),
    {
        proof {
            use_type_invariant(self);
        }
    }

    /// Starts the executor. There is nothing to prepare.
    pub fn start(&self) -> (r: Result<(), ExecutorError>)
        ensures
            r is Ok,
    {
        Ok(())
    }

    /// Stops the executor at the time of the system clock: for some instant,
    /// what `stop_at` does.
    pub fn stop(&mut self) -> (r: Result<(), ExecutorError>)
        ensures
            r is Ok,
            exists|now: Timestamp| final(self)@ == #[trigger] old(self)@.drained(now),
    {
        let now = current_time();
        self.stop_at(now)
    }

    /// Stops the executor at `now`: every run is recorded as cancelled, and
    /// no job runs any more.
    pub fn stop_at(&mut self, now: Timestamp) -> (r: Result<(), ExecutorError>)
        ensures
            r is Ok,
            final(self)@ == old(self)@.drained(now),
    {
        proof {
            use_type_invariant(&*self);
        }
        let ghost before = self@;
        let mut running: Vec<RunningJob> = Vec::new();
        assert(running@.map_values(|r: RunningJob| r@) =~= Seq::<RunningJobView>::empty());
        std::mem::swap(&mut running, &mut self.running_jobs);
        let mut i: usize = 0;
        proof {
            let none = ExecutorView { running: before.running.subrange(0, 0), ..before };
            assert(none.running =~= Seq::<RunningJobView>::empty());
        }
        while i < running.len()
            invariant
                i <= running.len(),
                before.running == running@.map_values(|r: RunningJob| r@),
                self@.running == Seq::<RunningJobView>::empty(),
                self@ == (ExecutorView { running: before.running.subrange(0, i as int), ..before }).drained(
                    now,
                ),
            decreases running.len() - i,
        {
            let run = &running[i];
            let ghost prefix = ExecutorView { running: before.running.subrange(0, i as int), ..before };
            let ghost longer = ExecutorView { running: before.running.subrange(0, i + 1), ..before };
            proof {
                assert(longer.running.drop_last() =~= prefix.running);
            }
            let result = JobResult {
                job_id: run.job.id.clone(),
                started_at: run.start_time,
                ended_at: Some(
                    if now.is_before(&run.start_time) {
                        run.start_time
                    } else {
                        now
                    },
                ),
                exit_code: None,
                stdout: String::new(),
                stderr: String::from_str("Job cancelled"),
                status: JobStatus::Cancelled,
                resource_usage: None,
            };
            self.record(result);
            i = i + 1;
        }
        proof {
            assert(before.running.subrange(0, i as int) =~= before.running);
        }
        Ok(())
    }

    /// Keeps `result` as the record of its job.
    fn record(&mut self, result: JobResult)
        requires
            result@.is_closed(),
        ensures
            final(self)@ == old(self)@.with_result(result@),
    {
        proof {
            use_type_invariant(&*self);
            lemma_with_result(self@, result@);
        }
        let ghost before = self@;
        let mut at: usize = 0;
        while at < self.job_results.len() && !(self.job_results[at].job_id == result.job_id)
            invariant
                at <= self.job_results.len(),
                self@ == before,
                before.results.len() == self.job_results@.len(),
                forall|j: int| 0 <= j < at ==> !records(result@.job_id)(#[trigger] before.results[j]),
            decreases self.job_results.len() - at,
        {
            at = at + 1;
        }
        proof {
            lemma_first_index_is(before.results, records(result@.job_id), at as int);
        }
        let mut results: Vec<JobResult> = Vec::new();
        std::mem::swap(&mut results, &mut self.job_results);
        if at < results.len() {
            proof {
                assert(results@.update(at as int, result).map_values(|r: JobResult| r@)
                    =~= before.results.update(at as int, result@));
            }
            results.set(at, result);
        } else {
            proof {
                assert(results@.push(result).map_values(|r: JobResult| r@) =~= before.results.push(
                    result@,
                ));
            }
            results.push(result);
        }
        self.job_results = results;
    }

    /// The place of the run of the job `job_id`, or the number of runs
    /// where the job does not run.
    fn find_run(&self, job_id: &JobId) -> (i: usize)
        ensures
            i == self@.run_at(job_id@),
            i <= self@.running.len(),
            self@.running.len() == self.running_jobs@.len(),
    {
        let mut i: usize = 0;
        while i < self.running_jobs.len() && !(self.running_jobs[i].job.id == *job_id)
            invariant
                i <= self.running_jobs.len(),
                self@.running.len() == self.running_jobs@.len(),
                forall|j: int| 0 <= j < i ==> !runs(job_id@)(#[trigger] self@.running[j]),
            decreases self.running_jobs.len() - i,
        {
            i = i + 1;
        }
        proof {
            lemma_first_index_is(self@.running, runs(job_id@), i as int);
        }
        i
    }

    /// The number of the run of a job that runs, and the number of runs
    /// that its policy allows.
    pub fn run_attempt(&self, job_id: &JobId) -> (r: Option<(u32, u32)>)
        ensures
            r is Some <==> self@.is_running(job_id@),
            r matches Some(a) ==> a.0 == self@.running[self@.run_at(job_id@)].attempt && a.1
                == self@.running[self@.run_at(job_id@)].job.retry_policy.max_attempts,
    {
        let at = self.find_run(job_id);
        if at < self.running_jobs.len() {
            Some((self.running_jobs[at].attempt, self.running_jobs[at].job.retry_policy.max_attempts))
        } else {
            None
        }
    }

    /// Takes a job for execution: a valid job gives the request for its
    /// first run, which is to be handed to a worker.
    pub fn execute_job(&self, job: Job) -> (r: Result<JobExecutionRequest, ExecutorError>)
        ensures
            match job_fault(job@) {
                None => r matches Ok(request) && request@ == (JobExecutionRequestView {
                    job: job@,
                    attempt: 1,
                }),
                Some(m) => r matches Err(e) && e@ == ExecutorErrorView::InvalidJob(m),
            },
    {
        match self.validate_job(&job) {
            Ok(_) => Ok(JobExecutionRequest { job, attempt: 1 }),
            Err(e) => Err(e),
        }
    }

    /// Validates a job for execution: it has a command and is enabled.
    pub fn validate_job(&self, job: &Job) -> (r: Result<(), ExecutorError>)
        ensures
            match job_fault(job@) {
                None => r is Ok,
                Some(m) => r matches Err(e) && e@ == ExecutorErrorView::InvalidJob(m),
            },
    {
        if job.command.as_str().unicode_len() == 0 {
            return Err(ExecutorError::InvalidJob(String::from_str("Command cannot be empty")));
        }
        if !job.enabled {
            return Err(ExecutorError::InvalidJob(String::from_str("Job is disabled")));
        }
        Ok(())
    }

    /// Begins the run of a request at the time of the system clock: for some
    /// instant, what `begin_job_at` does.
    pub fn begin_job(&mut self, request: &JobExecutionRequest) -> (r: Result<ProcessPlan, ExecutorError>)
        ensures
            exists|now: Timestamp| #[trigger] Self::begun(old(self)@, final(self)@, request@, now, r),
    {
        let now = current_time();
        self.begin_job_at(request, now)
    }

    /// What `begin_job_at` does: a valid job runs from `now` on and its
    /// process plan comes back; a job that is not valid is skipped with the
    /// error, and nothing changes.
    pub open spec fn begun(
        before: ExecutorView,
        after: ExecutorView,
        request: JobExecutionRequestView,
        now: Timestamp,
        r: Result<ProcessPlan, ExecutorError>,
    ) -> bool {
        match job_fault(request.job) {
            None => {
                &&& r matches Ok(plan)
                &&& plan@ == plan_of(request.job)
                &&& after == before.with_run(
                    RunningJobView { job: request.job, start_time: now, attempt: request.attempt },
                )
            },
            Some(m) => {
                &&& r matches Err(e)
                &&& e@ == ExecutorErrorView::InvalidJob(m)
                &&& after == before
            },
        }
    }

    /// Begins the run of a request at `now`. A job that has no command or is
    /// disabled by now is skipped. Any other job is taken up among the
    /// running jobs with `now` as its start, and the process to start for it
    /// comes back.
    pub fn begin_job_at(&mut self, request: &JobExecutionRequest, now: Timestamp) -> (r: Result<
        ProcessPlan,
        ExecutorError,
    >)
        ensures
            Self::begun(old(self)@, final(self)@, request@, now, r),
    {
        proof {
            use_type_invariant(&*self);
        }
        match self.validate_job(&request.job) {
            Ok(_) => {},
            Err(e) => {
                return Err(e);
            },
        }
        let plan = ProcessPlan {
            command: request.job.command.clone(),
            args: copy_texts(&request.job.args),
            working_dir: copy_optional_text(&request.job.working_dir),
            env: copy_text_pairs(&request.job.env),
            timeout: request.job.resource_limits.max_duration,
        };
        let run = RunningJob { job: request.job.clone(), start_time: now, attempt: request.attempt };
        let at = self.find_run(&request.job.id);
        let ghost before = self@;
        proof {
            lemma_with_run(before, run@);
        }
        let mut running: Vec<RunningJob> = Vec::new();
        std::mem::swap(&mut running, &mut self.running_jobs);
        if at < running.len() {
            proof {
                assert(running@.update(at as int, run).map_values(|r: RunningJob| r@)
                    =~= before.running.update(at as int, run@));
            }
            running.set(at, run);
        } else {
            proof {
                assert(running@.push(run).map_values(|r: RunningJob| r@) =~= before.running.push(
                    run@,
                ));
            }
            running.push(run);
        }
        self.running_jobs = running;
        Ok(plan)
    }

    /// Takes the outcome of the run of a job at the time of the system
    /// clock: for some instant, what `finish_job_at` does.
    pub fn finish_job(&mut self, job_id: &JobId, outcome: ProcessOutcome) -> (step: NextStep)
        ensures
            exists|now: Timestamp|
                final(self)@ == #[trigger] old(self)@.finished(job_id@, outcome@, now) && step@
                    == old(self)@.step_after(job_id@, outcome@, now),
    {
        let now = current_time();
        self.finish_job_at(job_id, outcome, now)
    }

    /// Takes the outcome of the run of a job at `now`. The run is over: its
    /// record is made and kept in the place of the record of the last run.
    /// Where the run failed and was not the last one allowed, the request for
    /// the next run comes back with the delay after which it is to be handed
    /// in. The outcome of a job that does not run, as after it was cancelled,
    /// changes nothing.
    pub fn finish_job_at(&mut self, job_id: &JobId, outcome: ProcessOutcome, now: Timestamp) -> (step:
        NextStep)
        ensures
            final(self)@ == old(self)@.finished(job_id@, outcome@, now),
            step@ == old(self)@.step_after(job_id@, outcome@, now),
    {
        proof {
            use_type_invariant(&*self);
        }
        let at = self.find_run(job_id);
        if at >= self.running_jobs.len() {
            return NextStep::Done;
        }
        let run = self.take_run(at);
        let result = Self::execute_single_job(job_id.clone(), run.start_time, now, outcome);
        let failed = match &result.status {
            JobStatus::Failed { .. } => true,
            _ => false,
        };
        self.record(result);
        if failed && run.attempt < run.job.retry_policy.max_attempts {
            let delay = Self::calculate_retry_delay(&run.job, run.attempt);
            NextStep::Retry {
                request: JobExecutionRequest { job: run.job, attempt: run.attempt + 1 },
                delay,
            }
        } else {
            NextStep::Done
        }
    }

    /// Takes the run at the place `at` out of the running jobs.
    fn take_run(&mut self, at: usize) -> (run: RunningJob)
        requires
            at < old(self)@.running.len(),
        ensures
            run@ == old(self)@.running[at as int],
            final(self)@ == (ExecutorView {
                running: old(self)@.running.remove(at as int),
                ..old(self)@
            }),
    {
        proof {
            use_type_invariant(&*self);
        }
        let ghost before = self@;
        let mut running: Vec<RunningJob> = Vec::new();
        std::mem::swap(&mut running, &mut self.running_jobs);
        proof {
            assert(running@.remove(at as int).map_values(|r: RunningJob| r@) =~= before.running.remove(
                at as int,
            ));
        }
        let run = running.remove(at);
        self.running_jobs = running;
        run
    }

    /// Makes the record of a run of the job `job_id` that started at
    /// `started_at`, of which `outcome` was reported at `reported`.
    pub fn execute_single_job(
        job_id: JobId,
        started_at: Timestamp,
        reported: Timestamp,
        outcome: ProcessOutcome,
    ) -> (result: JobResult)
        ensures
            result@ == result_of(job_id@, started_at, reported, outcome@),
    {
        let ended = if reported.is_before(&started_at) {
            started_at
        } else {
            reported
        };
        match outcome {
            ProcessOutcome::Exited { code, stdout, stderr } => {
                let succeeded = match code {
                    Some(c) => c == 0,
                    None => false,
                };
                let status = if succeeded {
                    JobStatus::Completed
                } else {
                    let shown: i64 = match code {
                        Some(c) => c as i64,
                        None => -1,
                    };
                    JobStatus::Failed {
                        error: String::from_str("Exit code: ").concat(
                            integer_to_text(shown).as_str(),
                        ),
                    }
                };
                let elapsed: i128 = (ended.secs as i128 - started_at.secs as i128) * 1_000_000_000 + (
                ended.nanos as i128 - started_at.nanos as i128);
                let seconds: i128 = if elapsed <= 0 {
                    0
                } else {
                    elapsed / 1_000_000_000
                };
                let duration_seconds: u64 = if seconds > u64::MAX as i128 {
                    u64::MAX
                } else {
                    seconds as u64
                };
                JobResult {
                    job_id,
                    started_at,
                    ended_at: Some(ended),
                    exit_code: code,
                    stdout,
                    stderr,
                    status,
                    resource_usage: Some(
                        ResourceUsage {
                            cpu_percent: 0,
                            memory_mb: 0,
                            duration_seconds,
                            disk_io_mb: 0,
                        },
                    ),
                }
            },
            ProcessOutcome::SpawnFailed { message } => {
                JobResult {
                    job_id,
                    started_at,
                    ended_at: Some(ended),
                    exit_code: None,
                    stdout: String::new(),
                    stderr: message.clone(),
                    status: JobStatus::Failed { error: message },
                    resource_usage: None,
                }
            },
            ProcessOutcome::TimedOut => {
                JobResult {
                    job_id,
                    started_at,
                    ended_at: Some(ended),
                    exit_code: None,
                    stdout: String::new(),
                    stderr: String::from_str("timeout"),
                    status: JobStatus::Failed { error: String::from_str("timeout") },
                    resource_usage: None,
                }
            },
            ProcessOutcome::MissingWorkingDir => {
                JobResult {
                    job_id,
                    started_at,
                    ended_at: Some(ended),
                    exit_code: None,
                    stdout: String::new(),
                    stderr: String::from_str("no such working directory"),
                    status: JobStatus::Failed {
                        error: String::from_str("no such working directory"),
                    },
                    resource_usage: None,
                }
            },
        }
    }

    /// The delay in seconds before the run that follows the failed run
    /// number `attempt`, but not past the largest count of seconds.
    pub fn calculate_retry_delay(job: &Job, attempt: u32) -> (delay: u64)
        ensures
            delay == capped(retry_delay(job@.retry_policy, attempt)),
    {
        let policy = job.retry_policy;
        if !policy.exponential_backoff {
            return policy.delay;
        }
        let doublings: u32 = if attempt >= 1 {
            attempt - 1
        } else {
            0
        };
        let mut grown: u64 = policy.delay;
        let mut i: u32 = 0;
        assert(policy.delay * pow2(0) == policy.delay) by (nonlinear_arith)
            requires
                pow2(0) == 1,
        ;
        while i < doublings && 0 < grown && grown < u64::MAX
            invariant
                i <= doublings,
                grown == capped(policy.delay * pow2(i as nat)),
            decreases doublings - i,
        {
            proof {
                assert(policy.delay * pow2((i + 1) as nat) == 2 * (policy.delay * pow2(i as nat)))
                    by (nonlinear_arith)
                    requires
                        pow2((i + 1) as nat) == 2 * pow2(i as nat),
                ;
            }
            grown = if grown > u64::MAX / 2 {
                u64::MAX
            } else {
                grown * 2
            };
            i = i + 1;
        }
        proof {
            let full = policy.delay * pow2(doublings as nat);
            lemma_pow2_grows(i as nat, doublings as nat);
            if i < doublings {
                if grown == 0 {
                    assert(policy.delay == 0) by (nonlinear_arith)
                        requires
                            policy.delay * pow2(i as nat) == 0,
                            pow2(i as nat) >= 1,
                    ;
                    assert(full == 0) by (nonlinear_arith)
                        requires
                            policy.delay == 0,
                            full == policy.delay * pow2(doublings as nat),
                    ;
                } else {
                    assert(policy.delay * pow2(i as nat) <= full) by (nonlinear_arith)
                        requires
                            pow2(i as nat) <= pow2(doublings as nat),
                            full == policy.delay * pow2(doublings as nat),
                            policy.delay >= 0,
                    ;
                }
            }
        }
        match policy.max_delay {
            Some(longest) => if grown < longest {
                grown
            } else {
                longest
            },
            None => grown,
        }
    }

    /// The status of a job: running where it runs, else the status of its
    /// last run, else scheduled.
    pub fn get_job_status(&self, job_id: &JobId) -> (r: Result<JobStatus, ExecutorError>)
        ensures
            r matches Ok(status) && status@ == self@.status_of(job_id@),
    {
        let at = self.find_run(job_id);
        if at < self.running_jobs.len() {
            return Ok(JobStatus::Running);
        }
        match self.find_result(job_id) {
            Some(result) => Ok(result.status.clone()),
            None => Ok(JobStatus::Scheduled),
        }
    }

    /// The record of the job `job_id`, where there is one.
    fn find_result(&self, job_id: &JobId) -> (r: Option<&JobResult>)
        ensures
            r is Some <==> self@.has_result(job_id@),
            r matches Some(result) ==> result@ == self@.results[self@.result_at(job_id@)],
    {
        let mut i: usize = 0;
        while i < self.job_results.len() && !(self.job_results[i].job_id == *job_id)
            invariant
                i <= self.job_results.len(),
                self@.results.len() == self.job_results@.len(),
                forall|j: int| 0 <= j < i ==> !records(job_id@)(#[trigger] self@.results[j]),
            decreases self.job_results.len() - i,
        {
            i = i + 1;
        }
        proof {
            lemma_first_index_is(self@.results, records(job_id@), i as int);
        }
        if i < self.job_results.len() {
            Some(&self.job_results[i])
        } else {
            None
        }
    }

    /// The record of the last run of a job, where it has run.
    pub fn get_job_result(&self, job_id: &JobId) -> (r: Result<Option<JobResult>, ExecutorError>)
        ensures
            r matches Ok(found) && (found is Some <==> self@.has_result(job_id@)) && (
            found matches Some(result) ==> result@ == self@.results[self@.result_at(job_id@)]
                && result@.is_closed()),
    {
        proof {
            use_type_invariant(self);
            lemma_first_index(self@.results, records(job_id@));
        }
        match self.find_result(job_id) {
            Some(result) => Ok(Some(result.clone())),
            None => Ok(None),
        }
    }

    /// Cancels a running job at the time of the system clock: for some
    /// instant, what `cancel_job_at` does.
    pub fn cancel_job(&mut self, job_id: &JobId) -> (r: Result<(), ExecutorError>)
        ensures
            r is Ok,
            exists|now: Timestamp| final(self)@ == #[trigger] old(self)@.cancelled(job_id@, now),
    {
        let now = current_time();
        self.cancel_job_at(job_id, now)
    }

    /// Cancels a running job at `now`: it runs no more, and its run is
    /// recorded as cancelled. A job that does not run is left as it is.
    pub fn cancel_job_at(&mut self, job_id: &JobId, now: Timestamp) -> (r: Result<(), ExecutorError>)
        ensures
            r is Ok,
            final(self)@ == old(self)@.cancelled(job_id@, now),
    {
        proof {
            use_type_invariant(&*self);
        }
        let at = self.find_run(job_id);
        if at >= self.running_jobs.len() {
            return Ok(());
        }
        let run = self.take_run(at);
        let result = JobResult {
            job_id: run.job.id.clone(),
            started_at: run.start_time,
            ended_at: Some(
                if now.is_before(&run.start_time) {
                    run.start_time
                } else {
                    now
                },
            ),
            exit_code: None,
            stdout: String::new(),
            stderr: String::from_str("Job cancelled"),
            status: JobStatus::Cancelled,
            resource_usage: None,
        };
        self.record(result);
        Ok(())
    }
}

/// What keeps a job from being executed, as the message of the error: that
/// it has no command, or else that it is disabled.
pub open spec fn job_fault(job: JobView) -> Option<Seq<char>> {
    if job.command.len() == 0 {
        Some("Command cannot be empty"@)
    } else if !job.enabled {
        Some("Job is disabled"@)
    } else {
        None
    }
}

} // verus!
