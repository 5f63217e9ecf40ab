//! Job definitions and the records of their runs.

use vstd::prelude::*;
use crate::scheduler::calendar::fresh_identifier;
use crate::scheduler::recurrence::{fires, fires_at, utc_zone};
use crate::scheduler::text::{
    copy_optional_text, copy_text_pairs, copy_texts, optional_text, text_pairs, texts,
};
use crate::scheduler::time::{current_time, Timestamp};

verus! {

/// Unique identifier of a job.
pub type JobId = String;

/// Priority level of a job; a higher one is dispatched first.
#[derive(Debug, Clone, Copy, PartialEq, Eq, PartialOrd, Ord, Hash, Structural)]
pub enum Priority {
    Low,
    Normal,
    High,
    Critical,
}

impl Priority {
    /// The place of the level among the four, from 0 for `Low` to 3 for
    /// `Critical`.
    pub open spec fn rank(self) -> int {
        match self {
            Priority::Low => 0,
            Priority::Normal => 1,
            Priority::High => 2,
            Priority::Critical => 3,
        }
    }

    /// Computes `rank`.
    pub fn level(&self) -> (r: u8)
        ensures
            r == self.rank(),
    {
        match self {
            Priority::Low => 0,
            Priority::Normal => 1,
            Priority::High => 2,
            Priority::Critical => 3,
        }
    }
}

impl Default for Priority {
    fn default() -> (r: Self)
        ensures
            r == Priority::Normal,
    {
        Priority::Normal
    }
}

/// Status of a job.
#[derive(Debug, PartialEq, Eq)]
pub enum JobStatus {
    /// Scheduled but not yet running.
    Scheduled,
    /// Currently running.
    Running,
    /// Completed successfully.
    Completed,
    /// Failed with an error.
    Failed { error: String },
    /// Cancelled.
    Cancelled,
    /// Waiting for a retry.
    Retrying { attempts: u32, max_attempts: u32 },
}

/// A status, with the error as a sequence of characters.
pub enum JobStatusView {
    Scheduled,
    Running,
    Completed,
    Failed { error: Seq<char> },
    Cancelled,
    Retrying { attempts: u32, max_attempts: u32 },
}

impl JobStatusView {
    /// The statuses in which a run ends.
    pub open spec fn is_terminal(self) -> bool {
        self is Completed || self is Failed || self is Cancelled
    }
}

impl View for JobStatus {
    type V = JobStatusView;

    open spec fn view(&self) -> JobStatusView {
        match *self {
            JobStatus::Scheduled => JobStatusView::Scheduled,
            JobStatus::Running => JobStatusView::Running,
            JobStatus::Completed => JobStatusView::Completed,
            JobStatus::Failed { error } => JobStatusView::Failed { error: error@ },
            JobStatus::Cancelled => JobStatusView::Cancelled,
            JobStatus::Retrying { attempts, max_attempts } => JobStatusView::Retrying {
                attempts,
                max_attempts,
            },
        }
    }
}

impl Clone for JobStatus {
    fn clone(&self) -> (r: Self)
        ensures
            r@ == self@,
    {
        match self {
            JobStatus::Scheduled => JobStatus::Scheduled,
            JobStatus::Running => JobStatus::Running,
            JobStatus::Completed => JobStatus::Completed,
            JobStatus::Failed { error } => JobStatus::Failed { error: error.clone() },
            JobStatus::Cancelled => JobStatus::Cancelled,
            JobStatus::Retrying { attempts, max_attempts } => JobStatus::Retrying {
                attempts: *attempts,
                max_attempts: *max_attempts,
            },
        }
    }
}

impl Default for JobStatus {
    fn default() -> (r: Self)
        ensures
            r@ == JobStatusView::Scheduled,
    {
        JobStatus::Scheduled
    }
}

impl JobStatus {
    /// Whether a run ends in this status.
    pub fn is_terminal(&self) -> (r: bool)
        ensures
            r == self@.is_terminal(),
    {
        match self {
            JobStatus::Completed => true,
            JobStatus::Failed { .. } => true,
            JobStatus::Cancelled => true,
            _ => false,
        }
    }
}

/// Types of events that can trigger jobs.
#[derive(Debug, PartialEq, Eq)]
pub enum EventType {
    FileCreated,
    FileModified,
    FileDeleted,
    SystemStartup,
    SystemShutdown,
    /// A custom event, by its tag.
    Custom(String),
}

/// An event type, with the tag as a sequence of characters.
pub enum EventTypeView {
    FileCreated,
    FileModified,
    FileDeleted,
    SystemStartup,
    SystemShutdown,
    Custom(Seq<char>),
}

impl EventTypeView {
    /// The events that speak of a file and so need a path.
    pub open spec fn is_file_event(self) -> bool {
        self is FileCreated || self is FileModified || self is FileDeleted
    }
}

impl View for EventType {
    type V = EventTypeView;

    open spec fn view(&self) -> EventTypeView {
        match *self {
            EventType::FileCreated => EventTypeView::FileCreated,
            EventType::FileModified => EventTypeView::FileModified,
            EventType::FileDeleted => EventTypeView::FileDeleted,
            EventType::SystemStartup => EventTypeView::SystemStartup,
            EventType::SystemShutdown => EventTypeView::SystemShutdown,
            EventType::Custom(tag) => EventTypeView::Custom(tag@),
        }
    }
}

impl Clone for EventType {
    fn clone(&self) -> (r: Self)
        ensures
            r@ == self@,
    {
        match self {
            EventType::FileCreated => EventType::FileCreated,
            EventType::FileModified => EventType::FileModified,
            EventType::FileDeleted => EventType::FileDeleted,
            EventType::SystemStartup => EventType::SystemStartup,
            EventType::SystemShutdown => EventType::SystemShutdown,
            EventType::Custom(tag) => EventType::Custom(tag.clone()),
        }
    }
}

/// Event-based trigger configuration.
#[derive(Debug, PartialEq, Eq)]
pub struct EventTrigger {
    /// Type of event to trigger on.
    pub event_type: EventType,
    /// Path to monitor, for file events.
    pub path: Option<String>,
    /// Event filter criteria, as pairs of key and value.
    pub filter: Option<Vec<(String, String)>>,
}

/// An event trigger over sequences of characters.
pub struct EventTriggerView {
    pub event_type: EventTypeView,
    pub path: Option<Seq<char>>,
    pub filter: Option<Seq<(Seq<char>, Seq<char>)>>,
}

impl View for EventTrigger {
    type V = EventTriggerView;

    open spec fn view(&self) -> EventTriggerView {
        EventTriggerView {
            event_type: self.event_type@,
            path: optional_text(self.path),
            filter: match self.filter {
                Some(pairs) => Some(text_pairs(pairs@)),
                None => None,
            },
        }
    }
}

impl Clone for EventTrigger {
    fn clone(&self) -> (r: Self)
        ensures
            r@ == self@,
    {
        EventTrigger {
            event_type: self.event_type.clone(),
            path: copy_optional_text(&self.path),
            filter: match &self.filter {
                Some(pairs) => Some(copy_text_pairs(pairs)),
                None => None,
            },
        }
    }
}

/// Types of patterns that can trigger jobs.
#[derive(Debug, PartialEq, Eq)]
pub enum PatternType {
    HighCpuUsage,
    HighMemoryUsage,
    FrequentFileAccess,
    /// A custom pattern, by its tag.
    Custom(String),
}

/// A pattern type, with the tag as a sequence of characters.
pub enum PatternTypeView {
    HighCpuUsage,
    HighMemoryUsage,
    FrequentFileAccess,
    Custom(Seq<char>),
}

impl View for PatternType {
    type V = PatternTypeView;

    open spec fn view(&self) -> PatternTypeView {
        match *self {
            PatternType::HighCpuUsage => PatternTypeView::HighCpuUsage,
            PatternType::HighMemoryUsage => PatternTypeView::HighMemoryUsage,
            PatternType::FrequentFileAccess => PatternTypeView::FrequentFileAccess,
            PatternType::Custom(tag) => PatternTypeView::Custom(tag@),
        }
    }
}

impl Clone for PatternType {
    fn clone(&self) -> (r: Self)
        ensures
            r@ == self@,
    {
        match self {
            PatternType::HighCpuUsage => PatternType::HighCpuUsage,
            PatternType::HighMemoryUsage => PatternType::HighMemoryUsage,
            PatternType::FrequentFileAccess => PatternType::FrequentFileAccess,
            PatternType::Custom(tag) => PatternType::Custom(tag.clone()),
        }
    }
}

/// Pattern-based trigger configuration.
#[derive(Debug, PartialEq, Eq)]
pub struct PatternTrigger {
    /// Pattern type to match.
    pub pattern_type: PatternType,
    /// Threshold of the pattern, in whole units of what the pattern measures.
    pub threshold: i64,
    /// Time window for pattern matching, in seconds.
    pub window: u64,
}

/// A pattern trigger over sequences of characters.
pub struct PatternTriggerView {
    pub pattern_type: PatternTypeView,
    pub threshold: i64,
    pub window: u64,
}

impl View for PatternTrigger {
    type V = PatternTriggerView;

    open spec fn view(&self) -> PatternTriggerView {
        PatternTriggerView {
            pattern_type: self.pattern_type@,
            threshold: self.threshold,
            window: self.window,
        }
    }
}

impl Clone for PatternTrigger {
    fn clone(&self) -> (r: Self)
        ensures
            r@ == self@,
    {
        PatternTrigger {
            pattern_type: self.pattern_type.clone(),
            threshold: self.threshold,
            window: self.window,
        }
    }
}

/// Schedule configuration of a job: any subset of the four trigger sources,
/// and the zone in which the cron expression is read.
#[derive(Debug, PartialEq, Eq)]
pub struct Schedule {
    /// Cron expression for recurring jobs, such as `0 18 * * *`.
    pub cron: Option<String>,
    /// One-time execution instant.
    pub at: Option<Timestamp>,
    /// Event-based trigger.
    pub event: Option<EventTrigger>,
    /// Pattern-based trigger.
    pub pattern: Option<PatternTrigger>,
    /// IANA name of the zone of the cron expression; UTC where absent.
    pub timezone: Option<String>,
}

/// A schedule over sequences of characters.
pub struct ScheduleView {
    pub cron: Option<Seq<char>>,
    pub at: Option<Timestamp>,
    pub event: Option<EventTriggerView>,
    pub pattern: Option<PatternTriggerView>,
    pub timezone: Option<Seq<char>>,
}

impl ScheduleView {
    /// The schedule without any trigger.
    pub open spec fn empty() -> ScheduleView {
        ScheduleView { cron: None, at: None, event: None, pattern: None, timezone: None }
    }

    /// The zone in which the cron expression is read.
    pub open spec fn zone(self) -> Seq<char> {
        match self.timezone {
            Some(name) => name,
            None => utc_zone(),
        }
    }

    /// Whether an event or a pattern triggers the job.
    pub open spec fn has_reactive_trigger(self) -> bool {
        self.event is Some || self.pattern is Some
    }
}

impl View for Schedule {
    type V = ScheduleView;

    open spec fn view(&self) -> ScheduleView {
        ScheduleView {
            cron: optional_text(self.cron),
            at: self.at,
            event: match self.event {
                Some(e) => Some(e@),
                None => None,
            },
            pattern: match self.pattern {
                Some(p) => Some(p@),
                None => None,
            },
            timezone: optional_text(self.timezone),
        }
    }
}

impl Clone for Schedule {
    fn clone(&self) -> (r: Self)
        ensures
            r@ == self@,
    {
        Schedule {
            cron: copy_optional_text(&self.cron),
            at: self.at,
            event: match &self.event {
                Some(e) => Some(e.clone()),
                None => None,
            },
            pattern: match &self.pattern {
                Some(p) => Some(p.clone()),
                None => None,
            },
            timezone: copy_optional_text(&self.timezone),
        }
    }
}

impl Default for Schedule {
    fn default() -> (r: Self)
        ensures
            r@ == ScheduleView::empty(),
    {
        Schedule { cron: None, at: None, event: None, pattern: None, timezone: None }
    }
}

/// Retry policy for failed runs.
#[derive(Debug, Clone, Copy, PartialEq, Eq, Structural)]
pub struct RetryPolicy {
    /// Number of runs allowed in all, the first one included.
    pub max_attempts: u32,
    /// Delay between runs, in seconds.
    pub delay: u64,
    /// Whether the delay doubles with each run.
    pub exponential_backoff: bool,
    /// Longest delay between runs, in seconds.
    pub max_delay: Option<u64>,
}

impl Default for RetryPolicy {
    fn default() -> (r: Self)
        ensures
            r == (RetryPolicy {
                max_attempts: 3,
                delay: 60,
                exponential_backoff: true,
                max_delay: Some(3600),
            }),
    {
        RetryPolicy { max_attempts: 3, delay: 60, exponential_backoff: true, max_delay: Some(3600) }
    }
}

/// Advisory resource limits of a run.
#[derive(Debug, Clone, Copy, PartialEq, Eq, Structural)]
pub struct ResourceLimits {
    /// Highest CPU usage, in percent.
    pub max_cpu: Option<u32>,
    /// Highest memory usage, in MB.
    pub max_memory: Option<u64>,
    /// Longest run, in seconds.
    pub max_duration: Option<u64>,
    /// Highest disk I/O, in MB/s.
    pub max_disk_io: Option<u64>,
}

impl Default for ResourceLimits {
    fn default() -> (r: Self)
        ensures
            r == (ResourceLimits {
                max_cpu: Some(50),
                max_memory: Some(512),
                max_duration: Some(3600),
                max_disk_io: Some(100),
            }),
    {
        ResourceLimits {
            max_cpu: Some(50),
            max_memory: Some(512),
            max_duration: Some(3600),
            max_disk_io: Some(100),
        }
    }
}

/// A scheduled job: its definition and whether it is enabled.
#[derive(Debug, PartialEq, Eq)]
pub struct Job {
    /// Unique identifier.
    pub id: JobId,
    /// Human-readable name.
    pub name: String,
    /// What the job does.
    pub description: Option<String>,
    /// When the job runs.
    pub schedule: Schedule,
    /// Command to execute.
    pub command: String,
    /// Arguments of the command.
    pub args: Vec<String>,
    /// Working directory of the run.
    pub working_dir: Option<String>,
    /// Environment variables laid over the scheduler's own, as pairs of name
    /// and value.
    pub env: Vec<(String, String)>,
    /// Retry policy for failed runs.
    pub retry_policy: RetryPolicy,
    /// Priority level.
    pub priority: Priority,
    /// Advisory resource limits.
    pub resource_limits: ResourceLimits,
    /// Whether the job is enabled.
    pub enabled: bool,
    /// Creation instant.
    pub created_at: Timestamp,
    /// Instant of the last modification.
    pub updated_at: Timestamp,
}

/// A job over sequences of characters.
pub struct JobView {
    pub id: Seq<char>,
    pub name: Seq<char>,
    pub description: Option<Seq<char>>,
    pub schedule: ScheduleView,
    pub command: Seq<char>,
    pub args: Seq<Seq<char>>,
    pub working_dir: Option<Seq<char>>,
    pub env: Seq<(Seq<char>, Seq<char>)>,
    pub retry_policy: RetryPolicy,
    pub priority: Priority,
    pub resource_limits: ResourceLimits,
    pub enabled: bool,
    pub created_at: Timestamp,
    pub updated_at: Timestamp,
}

/// Whether some pair of `env` has the name `key`.
pub open spec fn has_variable(env: Seq<(Seq<char>, Seq<char>)>, key: Seq<char>) -> bool {
    exists|i: int| 0 <= i < env.len() && env[i].0 == key
}

/// `i` is the place of the first pair of `env` with the name `key`.
pub open spec fn is_first_variable(env: Seq<(Seq<char>, Seq<char>)>, key: Seq<char>, i: int) -> bool {
    &&& 0 <= i < env.len()
    &&& env[i].0 == key
    &&& forall|j: int| 0 <= j < i ==> env[j].0 != key
}

/// The environment with `key` set to `value`: the first pair of that name gets
/// the value, and where there is none the pair is added at the end.
pub open spec fn with_variable(
    env: Seq<(Seq<char>, Seq<char>)>,
    key: Seq<char>,
    value: Seq<char>,
) -> Seq<(Seq<char>, Seq<char>)> {
    if has_variable(env, key) {
        env.update(choose|i: int| is_first_variable(env, key, i), (key, value))
    } else {
        env.push((key, value))
    }
}

impl JobView {
    /// The job that `Job::create` makes: enabled, of normal priority, with the
    /// default retry policy and limits, and with no trigger, argument or
    /// variable yet.
    pub open spec fn fresh(id: Seq<char>, name: Seq<char>, command: Seq<char>, now: Timestamp) -> JobView {
        JobView {
            id,
            name,
            description: None,
            schedule: ScheduleView::empty(),
            command,
            args: Seq::empty(),
            working_dir: None,
            env: Seq::empty(),
            retry_policy: RetryPolicy {
                max_attempts: 3,
                delay: 60,
                exponential_backoff: true,
                max_delay: Some(3600),
            },
            priority: Priority::Normal,
            resource_limits: ResourceLimits {
                max_cpu: Some(50),
                max_memory: Some(512),
                max_duration: Some(3600),
                max_disk_io: Some(100),
            },
            enabled: true,
            created_at: now,
            updated_at: now,
        }
    }

    /// Whether the job should run at `now` by its cron expression or its
    /// one-time instant: it is enabled, and the expression fires at `now` or
    /// the instant has come. Events and patterns are not looked at.
    pub open spec fn should_execute_at(self, now: Timestamp) -> bool {
        self.enabled && ((self.schedule.cron matches Some(expression) && fires_at(
            expression,
            self.schedule.zone(),
            now,
        )) || (self.schedule.at matches Some(at) && at.at_or_before(now)))
    }
}

impl View for Job {
    type V = JobView;

    open spec fn view(&self) -> JobView {
        JobView {
            id: self.id@,
            name: self.name@,
            description: optional_text(self.description),
            schedule: self.schedule@,
            command: self.command@,
            args: texts(self.args@),
            working_dir: optional_text(self.working_dir),
            env: text_pairs(self.env@),
            retry_policy: self.retry_policy,
            priority: self.priority,
            resource_limits: self.resource_limits,
            enabled: self.enabled,
            created_at: self.created_at,
            updated_at: self.updated_at,
        }
    }
}

impl Clone for Job {
    fn clone(&self) -> (r: Self)
        ensures
            r@ == self@,
    {
        Job {
            id: self.id.clone(),
            name: self.name.clone(),
            description: copy_optional_text(&self.description),
            schedule: self.schedule.clone(),
            command: self.command.clone(),
            args: copy_texts(&self.args),
            working_dir: copy_optional_text(&self.working_dir),
            env: copy_text_pairs(&self.env),
            retry_policy: self.retry_policy,
            priority: self.priority,
            resource_limits: self.resource_limits,
            enabled: self.enabled,
            created_at: self.created_at,
            updated_at: self.updated_at,
        }
    }
}

impl Job {
    /// Creates a job with a fresh random identifier, at the time of the system
    /// clock, with default values for the rest. Whatever identifier and
    /// instant came back, the job is the one that `create` makes of them.
    pub fn new(name: String, command: String) -> (job: Job)
        ensures
            job@ == JobView::fresh(job@.id, name@, command@, job@.created_at),
            job@.id.len() == 36,
    {
        let id = fresh_identifier();
        let now = current_time();
        Job::create(id, name, command, now)
    }

    /// Creates the job `id` at the instant `now`, with default values for the
    /// rest.
    pub fn create(id: JobId, name: String, command: String, now: Timestamp) -> (job: Job)
        ensures
            job@ == JobView::fresh(id@, name@, command@, now),
    {
        let job = Job {
            id,
            name,
            description: None,
            schedule: Schedule::default(),
            command,
            args: Vec::new(),
            working_dir: None,
            env: Vec::new(),
            retry_policy: RetryPolicy::default(),
            priority: Priority::default(),
            resource_limits: ResourceLimits::default(),
            enabled: true,
            created_at: now,
            updated_at: now,
        };
        assert(job@.args =~= Seq::empty());
        assert(job@.env =~= Seq::empty());
        job
    }

    /// Sets the cron expression.
    pub fn with_cron(self, cron_expr: String) -> (job: Job)
        ensures
            job@ == (JobView {
                schedule: ScheduleView { cron: Some(cron_expr@), ..self@.schedule },
                ..self@
            }),
    {
        let mut job = self;
        job.schedule.cron = Some(cron_expr);
        job
    }

    /// Sets the one-time execution instant.
    pub fn with_time(self, at: Timestamp) -> (job: Job)
        ensures
            job@ == (JobView { schedule: ScheduleView { at: Some(at), ..self@.schedule }, ..self@ }),
    {
        let mut job = self;
        job.schedule.at = Some(at);
        job
    }

    /// Sets the event trigger.
    pub fn with_event(self, event: EventTrigger) -> (job: Job)
        ensures
            job@ == (JobView {
                schedule: ScheduleView { event: Some(event@), ..self@.schedule },
                ..self@
            }),
    {
        let mut job = self;
        job.schedule.event = Some(event);
        job
    }

    /// Sets the pattern trigger.
    pub fn with_pattern(self, pattern: PatternTrigger) -> (job: Job)
        ensures
            job@ == (JobView {
                schedule: ScheduleView { pattern: Some(pattern@), ..self@.schedule },
                ..self@
            }),
    {
        let mut job = self;
        job.schedule.pattern = Some(pattern);
        job
    }

    /// Sets the zone in which the cron expression is read.
    pub fn with_timezone(self, timezone: String) -> (job: Job)
        ensures
            job@ == (JobView {
                schedule: ScheduleView { timezone: Some(timezone@), ..self@.schedule },
                ..self@
            }),
    {
        let mut job = self;
        job.schedule.timezone = Some(timezone);
        job
    }

    /// Sets the priority level.
    pub fn with_priority(self, priority: Priority) -> (job: Job)
        ensures
            job@ == (JobView { priority, ..self@ }),
    {
        let mut job = self;
        job.priority = priority;
        job
    }

    /// Sets the retry policy.
    pub fn with_retry_policy(self, retry_policy: RetryPolicy) -> (job: Job)
        ensures
            job@ == (JobView { retry_policy, ..self@ }),
    {
        let mut job = self;
        job.retry_policy = retry_policy;
        job
    }

    /// Sets the resource limits.
    pub fn with_resource_limits(self, resource_limits: ResourceLimits) -> (job: Job)
        ensures
            job@ == (JobView { resource_limits, ..self@ }),
    {
        let mut job = self;
        job.resource_limits = resource_limits;
        job
    }

    /// Sets the working directory.
    pub fn with_working_dir(self, working_dir: String) -> (job: Job)
        ensures
            job@ == (JobView { working_dir: Some(working_dir@), ..self@ }),
    {
        let mut job = self;
        job.working_dir = Some(working_dir);
        job
    }

    /// Sets an environment variable: a variable of that name gets the new
    /// value, any other name is added.
    pub fn with_env(self, key: String, value: String) -> (job: Job)
        ensures
            job@ == (JobView { env: with_variable(self@.env, key@, value@), ..self@ }),
    {
        let mut job = self;
        let ghost before = job@.env;
        let mut i: usize = 0;
        while i < job.env.len()
            invariant
                i <= job.env.len(),
                job@ == self@,
                before == self@.env,
                forall|j: int| 0 <= j < i ==> before[j].0 != key@,
            decreases job.env.len() - i,
        {
            if job.env[i].0 == key {
                proof {
                    assert(is_first_variable(before, key@, i as int));
                    assert(text_pairs(job.env@.update(i as int, (key, value))) =~= before.update(
                        i as int,
                        (key@, value@),
                    ));
                }
                job.env.set(i, (key, value));
                return job;
            }
            i = i + 1;
        }
        proof {
            assert(text_pairs(job.env@.push((key, value))) =~= before.push((key@, value@)));
        }
        job.env.push((key, value));
        job
    }

    /// Sets the command arguments.
    pub fn with_args(self, args: Vec<String>) -> (job: Job)
        ensures
            job@ == (JobView { args: texts(args@), ..self@ }),
    {
        let mut job = self;
        job.args = args;
        job
    }

    /// Sets the description.
    pub fn with_description(self, description: String) -> (job: Job)
        ensures
            job@ == (JobView { description: Some(description@), ..self@ }),
    {
        let mut job = self;
        job.description = Some(description);
        job
    }

    /// Sets the modification instant to the time of the system clock, and
    /// nothing else.
    pub fn touch(&mut self)
        ensures
            final(self)@ == (JobView { updated_at: final(self)@.updated_at, ..old(self)@ }),
    {
        let now = current_time();
        self.touch_at(now);
    }

    /// Sets the modification instant to `now`.
    pub fn touch_at(&mut self, now: Timestamp)
        ensures
            final(self)@ == (JobView { updated_at: now, ..old(self)@ }),
    {
        self.updated_at = now;
    }

    /// Whether the job should run at the time of the system clock: for some
    /// instant, the answer of `should_execute_at`.
    pub fn should_execute_now(&self) -> (r: bool)
        ensures
            exists|now: Timestamp| r == self@.should_execute_at(now),
    {
        let now = current_time();
        self.should_execute_at(now)
    }

    /// Whether the job should run at `now` by its cron expression or its
    /// one-time instant.
    pub fn should_execute_at(&self, now: Timestamp) -> (r: bool)
        ensures
            r == self@.should_execute_at(now),
    {
        if !self.enabled {
            return false;
        }
        let by_cron = match &self.schedule.cron {
            Some(expression) => {
                match &self.schedule.timezone {
                    Some(zone) => fires(expression.as_str(), zone.as_str(), now),
                    None => fires(expression.as_str(), "UTC", now),
                }
            },
            None => false,
        };
        if by_cron {
            return true;
        }
        match self.schedule.at {
            Some(at) => at.is_at_or_before(&now),
            None => false,
        }
    }
}

/// Resource usage of a run.
#[derive(Debug, Clone, Copy, PartialEq, Eq, Structural)]
pub struct ResourceUsage {
    /// CPU usage, in percent.
    pub cpu_percent: u32,
    /// Memory usage, in MB.
    pub memory_mb: u64,
    /// Duration of the run, in seconds.
    pub duration_seconds: u64,
    /// Disk I/O, in MB.
    pub disk_io_mb: u64,
}

impl Default for ResourceUsage {
    fn default() -> (r: Self)
        ensures
            r == (ResourceUsage { cpu_percent: 0, memory_mb: 0, duration_seconds: 0, disk_io_mb: 0 }),
    {
        ResourceUsage { cpu_percent: 0, memory_mb: 0, duration_seconds: 0, disk_io_mb: 0 }
    }
}

/// Record of one run of a job.
#[derive(Debug, PartialEq, Eq)]
pub struct JobResult {
    /// The job that ran.
    pub job_id: JobId,
    /// Start of the run.
    pub started_at: Timestamp,
    /// End of the run.
    pub ended_at: Option<Timestamp>,
    /// Exit code of the process.
    pub exit_code: Option<i32>,
    /// Standard output.
    pub stdout: String,
    /// Standard error.
    pub stderr: String,
    /// Status in which the run ended.
    pub status: JobStatus,
    /// Resource usage.
    pub resource_usage: Option<ResourceUsage>,
}

/// A run record over sequences of characters.
pub struct JobResultView {
    pub job_id: Seq<char>,
    pub started_at: Timestamp,
    pub ended_at: Option<Timestamp>,
    pub exit_code: Option<i32>,
    pub stdout: Seq<char>,
    pub stderr: Seq<char>,
    pub status: JobStatusView,
    pub resource_usage: Option<ResourceUsage>,
}

impl JobResultView {
    /// The record of a run that is over: it ended no earlier than it started,
    /// in one of the terminal statuses.
    pub open spec fn is_closed(self) -> bool {
        &&& self.status.is_terminal()
        &&& self.ended_at matches Some(end) && self.started_at.at_or_before(end)
    }
}

impl View for JobResult {
    type V = JobResultView;

    open spec fn view(&self) -> JobResultView {
        JobResultView {
            job_id: self.job_id@,
            started_at: self.started_at,
            ended_at: self.ended_at,
            exit_code: self.exit_code,
            stdout: self.stdout@,
            stderr: self.stderr@,
            status: self.status@,
            resource_usage: self.resource_usage,
        }
    }
}

impl Clone for JobResult {
    fn clone(&self) -> (r: Self)
        ensures
            r@ == self@,
    {
        JobResult {
            job_id: self.job_id.clone(),
            started_at: self.started_at,
            ended_at: self.ended_at,
            exit_code: self.exit_code,
            stdout: self.stdout.clone(),
            stderr: self.stderr.clone(),
            status: self.status.clone(),
            resource_usage: self.resource_usage,
        }
    }
}

} // verus!
