//! The queue of pending jobs, ordered by priority, next execution and
//! identifier.

use vstd::prelude::*;
use vstd::string::*;
use crate::scheduler::job::{Job, JobId, JobView, Priority};
use crate::scheduler::parser::{at_part, cron_readable, next_time, Parser};
use crate::scheduler::search::{first_index, lemma_first_index, lemma_first_index_is};
use crate::scheduler::text::{
    comes_before, lemma_text_before_total, lemma_text_before_transitive, text_before,
};
use crate::scheduler::time::{current_time, Timestamp};

verus! {

/// Errors that can occur in the job queue, each with the identifier or the
/// message it speaks of.
#[derive(Debug, PartialEq, Eq)]
pub enum QueueError {
    JobAlreadyExists(String),
    JobNotFound(String),
    InvalidJob(String),
}

/// A queue error over sequences of characters.
pub enum QueueErrorView {
    JobAlreadyExists(Seq<char>),
    JobNotFound(Seq<char>),
    InvalidJob(Seq<char>),
}

impl QueueErrorView {
    /// The error as one line of text.
    pub open spec fn text(self) -> Seq<char> {
        match self {
            QueueErrorView::JobAlreadyExists(m) => "Job already exists: "@ + m,
            QueueErrorView::JobNotFound(m) => "Job not found: "@ + m,
            QueueErrorView::InvalidJob(m) => "Invalid job configuration: "@ + m,
        }
    }
}

impl View for QueueError {
    type V = QueueErrorView;

    open spec fn view(&self) -> QueueErrorView {
        match *self {
            QueueError::JobAlreadyExists(m) => QueueErrorView::JobAlreadyExists(m@),
            QueueError::JobNotFound(m) => QueueErrorView::JobNotFound(m@),
            QueueError::InvalidJob(m) => QueueErrorView::InvalidJob(m@),
        }
    }
}

impl QueueError {
    /// The error as one line of text.
    pub fn describe(&self) -> (line: String)
        ensures
            line@ == self@.text(),
    {
        match self {
            QueueError::JobAlreadyExists(m) => String::from_str("Job already exists: ").concat(
                m.as_str(),
            ),
            QueueError::JobNotFound(m) => String::from_str("Job not found: ").concat(m.as_str()),
            QueueError::InvalidJob(m) => String::from_str("Invalid job configuration: ").concat(
                m.as_str(),
            ),
        }
    }
}

/// A job in the queue with what the queue orders it by.
#[derive(Debug)]
pub struct QueuedJob {
    pub job: Job,
    /// The next instant at which the job fires by time, as it was computed
    /// when the job came in.
    pub next_execution: Option<Timestamp>,
    pub priority: Priority,
    /// When the job came in.
    pub added_at: Timestamp,
}

/// A queue entry over sequences of characters.
pub struct QueuedJobView {
    pub job: JobView,
    pub next_execution: Option<Timestamp>,
    pub priority: Priority,
    pub added_at: Timestamp,
}

impl View for QueuedJob {
    type V = QueuedJobView;

    open spec fn view(&self) -> QueuedJobView {
        QueuedJobView {
            job: self.job@,
            next_execution: self.next_execution,
            priority: self.priority,
            added_at: self.added_at,
        }
    }
}

impl Clone for QueuedJob {
    fn clone(&self) -> (r: Self)
        ensures
            r@ == self@,
    {
        QueuedJob {
            job: self.job.clone(),
            next_execution: self.next_execution,
            priority: self.priority,
            added_at: self.added_at,
        }
    }
}

impl PartialEq for QueuedJob {
    /// Two entries are the same entry when they hold the same job identifier.
    fn eq(&self, other: &Self) -> (r: bool) {
        self.job.id == other.job.id
    }
}

impl vstd::std_specs::cmp::PartialEqSpecImpl for QueuedJob {
    open spec fn obeys_eq_spec() -> bool {
        true
    }

    open spec fn eq_spec(&self, other: &Self) -> bool {
        self.job.id@ == other.job.id@
    }
}

/// The order of two next-execution instants: the earlier one first, and an
/// entry with an instant before one with none.
pub open spec fn time_before(a: Option<Timestamp>, b: Option<Timestamp>) -> bool {
    match (a, b) {
        (Some(x), Some(y)) => x.before(y),
        (Some(_), None) => true,
        _ => false,
    }
}

/// The order of the queue: the higher priority first; among equal priorities
/// the earlier next execution, with the entries that have none last; among
/// equal instants the identifier that comes first in the dictionary.
pub open spec fn entry_before(a: QueuedJobView, b: QueuedJobView) -> bool {
    ||| a.priority.rank() > b.priority.rank()
    ||| a.priority == b.priority && time_before(a.next_execution, b.next_execution)
    ||| a.priority == b.priority && a.next_execution == b.next_execution && text_before(
        a.job.id,
        b.job.id,
    )
}

/// Every entry of `q` comes before every later one.
pub open spec fn ordered(q: Seq<QueuedJobView>) -> bool {
    forall|i: int, j: int| 0 <= i < j < q.len() ==> entry_before(#[trigger] q[i], #[trigger] q[j])
}

/// No two entries of `q` hold the same job identifier.
pub open spec fn distinct_ids(q: Seq<QueuedJobView>) -> bool {
    forall|i: int, j: int|
        0 <= i < q.len() && 0 <= j < q.len() && i != j ==> (#[trigger] q[i]).job.id != (
        #[trigger] q[j]).job.id
}

/// What holds of every queue: it is ordered and holds no identifier twice.
pub open spec fn well_formed(q: Seq<QueuedJobView>) -> bool {
    ordered(q) && distinct_ids(q)
}

/// The property of holding the job `id`.
pub open spec fn has_id(id: Seq<char>) -> spec_fn(QueuedJobView) -> bool {
    |e: QueuedJobView| e.job.id == id
}

/// The property of not coming before `entry`.
pub open spec fn not_before(entry: QueuedJobView) -> spec_fn(QueuedJobView) -> bool {
    |e: QueuedJobView| !entry_before(e, entry)
}

/// The place of the job `id` in `q`, or the length of `q` where it holds no
/// such job.
pub open spec fn index_of(q: Seq<QueuedJobView>, id: Seq<char>) -> int {
    first_index(q, has_id(id))
}

/// Whether `q` holds the job `id`.
pub open spec fn contains_job(q: Seq<QueuedJobView>, id: Seq<char>) -> bool {
    index_of(q, id) < q.len()
}

/// How many entries of `q` hold the job `id`.
pub open spec fn count_of(q: Seq<QueuedJobView>, id: Seq<char>) -> nat
    decreases q.len(),
{
    if q.len() == 0 {
        0
    } else {
        count_of(q.drop_last(), id) + if q.last().job.id == id {
            1nat
        } else {
            0nat
        }
    }
}

/// The place at which `entry` goes into `q`: behind the entries that come
/// before it.
pub open spec fn place_of(q: Seq<QueuedJobView>, entry: QueuedJobView) -> int {
    first_index(q, not_before(entry))
}

/// `q` with `entry` at its place.
pub open spec fn inserted(q: Seq<QueuedJobView>, entry: QueuedJobView) -> Seq<QueuedJobView> {
    q.insert(place_of(q, entry), entry)
}

/// `q` without the job `id`; `q` itself where it holds no such job.
pub open spec fn without(q: Seq<QueuedJobView>, id: Seq<char>) -> Seq<QueuedJobView> {
    if contains_job(q, id) {
        q.remove(index_of(q, id))
    } else {
        q
    }
}

/// The next-execution instant with which a job goes into the queue at `now`.
/// A disabled job has none. An enabled job has the next instant of its
/// schedule strictly after `now`; where the cron expression or its zone
/// cannot be read, only the one-time instant counts.
pub open spec fn queue_key(job: JobView, now: Timestamp) -> Option<Timestamp> {
    if !job.enabled {
        None
    } else if cron_readable(job.schedule) {
        next_time(job.schedule, now)
    } else {
        at_part(job.schedule, now)
    }
}

/// The entry with which a job goes into the queue at `now`.
pub open spec fn entry_of(job: JobView, now: Timestamp) -> QueuedJobView {
    QueuedJobView {
        job,
        next_execution: queue_key(job, now),
        priority: job.priority,
        added_at: now,
    }
}

/// Whether an entry can ever be dispatched as it stands: its job is enabled,
/// and it has a next-execution instant or else a trigger that needs none,
/// which is an event, a pattern, or a one-time instant that had passed when
/// the job came in.
pub open spec fn can_run(e: QueuedJobView) -> bool {
    e.job.enabled && (e.next_execution is Some || e.job.schedule.has_reactive_trigger()
        || e.job.schedule.at is Some)
}

/// Whether an entry is due at `now`: it can run, and its next-execution
/// instant, if it has one, has come. This is the one place that tells a
/// disabled job, which is never due, from a job with an event or a pattern
/// trigger, which always is.
pub open spec fn is_due(e: QueuedJobView, now: Timestamp) -> bool {
    can_run(e) && (e.next_execution matches Some(t) ==> t.at_or_before(now))
}

/// The property of being able to run.
pub open spec fn runnable() -> spec_fn(QueuedJobView) -> bool {
    |e: QueuedJobView| can_run(e)
}

/// The place of the top job of `q`: the first entry that can run.
pub open spec fn top_of(q: Seq<QueuedJobView>) -> int {
    first_index(q, runnable())
}

/// The place of the entry that is dispatched next at `now`: the top job,
/// where it is due. Where the top job waits for an instant in the future,
/// nothing is dispatched, whatever stands behind it.
pub open spec fn next_due(q: Seq<QueuedJobView>, now: Timestamp) -> Option<int> {
    if top_of(q) < q.len() && is_due(q[top_of(q)], now) {
        Some(top_of(q))
    } else {
        None
    }
}

/// The jobs of `q` that are due at `now`, in the order of the queue.
pub open spec fn due_jobs(q: Seq<QueuedJobView>, now: Timestamp) -> Seq<JobView> {
    q.filter(|e: QueuedJobView| is_due(e, now)).map_values(|e: QueuedJobView| e.job)
}

/// The jobs of `q`, in the order of the queue.
pub open spec fn jobs_of(q: Seq<QueuedJobView>) -> Seq<JobView> {
    q.map_values(|e: QueuedJobView| e.job)
}

/// One more than `n`, but never past the largest count.
pub open spec fn count_up(n: usize) -> usize {
    if n < usize::MAX {
        (n + 1) as usize
    } else {
        n
    }
}

/// Of two entries with different identifiers, exactly one comes before the
/// other.
pub proof fn lemma_entry_before_total(a: QueuedJobView, b: QueuedJobView)
    requires
        a.job.id != b.job.id,
    ensures
        entry_before(a, b) || entry_before(b, a),
        !(entry_before(a, b) && entry_before(b, a)),
{
    lemma_text_before_total(a.job.id, b.job.id);
}

/// The order of the queue is transitive.
pub proof fn lemma_entry_before_transitive(a: QueuedJobView, b: QueuedJobView, c: QueuedJobView)
    requires
        entry_before(a, b),
        entry_before(b, c),
    ensures
        entry_before(a, c),
{
    if a.priority == b.priority && b.priority == c.priority && a.next_execution == b.next_execution
        && b.next_execution == c.next_execution {
        lemma_text_before_transitive(a.job.id, b.job.id, c.job.id);
    }
}

/// A well-formed queue stays well-formed when a job that it does not hold
/// goes in at its place.
pub proof fn lemma_inserted_well_formed(q: Seq<QueuedJobView>, entry: QueuedJobView)
    requires
        well_formed(q),
        !contains_job(q, entry.job.id),
    ensures
        well_formed(inserted(q, entry)),
        inserted(q, entry).len() == q.len() + 1,
{
    let k = place_of(q, entry);
    lemma_first_index(q, not_before(entry));
    lemma_first_index(q, has_id(entry.job.id));
    assert forall|i: int| k <= i < q.len() implies entry_before(entry, #[trigger] q[i]) by {
        lemma_entry_before_total(q[k], entry);
        if i > k {
            lemma_entry_before_transitive(entry, q[k], q[i]);
        }
    }
}

/// A queue without a job does not hold that job.
pub proof fn lemma_without_forgets(q: Seq<QueuedJobView>, id: Seq<char>)
    requires
        well_formed(q),
    ensures
        !contains_job(without(q, id), id),
        well_formed(without(q, id)),
{
    lemma_first_index(q, has_id(id));
    if contains_job(q, id) {
        let k = index_of(q, id);
        let r = q.remove(k);
        lemma_first_index_is(r, has_id(id), r.len() as int);
    }
}

/// In a queue that holds no identifier twice, a job that the queue holds is
/// held by exactly one entry, and any other job by none.
pub proof fn lemma_count_of(q: Seq<QueuedJobView>, id: Seq<char>)
    requires
        distinct_ids(q),
    ensures
        count_of(q, id) == if contains_job(q, id) {
            1nat
        } else {
            0nat
        },
    decreases q.len(),
{
    lemma_first_index(q, has_id(id));
    if q.len() > 0 {
        let front = q.drop_last();
        lemma_count_of(front, id);
        lemma_first_index(front, has_id(id));
        if !contains_job(front, id) {
            assert forall|j: int| 0 <= j < front.len() implies !has_id(id)(#[trigger] q[j]) by {
                assert(q[j] == front[j]);
            }
        }
    }
}

/// A queue into which an entry went holds the job of the entry and the jobs
/// that it held before, and no others.
pub proof fn lemma_inserted_contains(q: Seq<QueuedJobView>, entry: QueuedJobView, id: Seq<char>)
    ensures
        contains_job(inserted(q, entry), id) <==> contains_job(q, id) || entry.job.id == id,
{
    let k = place_of(q, entry);
    let r = inserted(q, entry);
    lemma_first_index(q, not_before(entry));
    lemma_first_index(q, has_id(id));
    lemma_first_index(r, has_id(id));
    let f = index_of(q, id);
    let g = index_of(r, id);
    if g >= r.len() {
        assert(r[k] == entry);
        if f < q.len() {
            let at = if f < k { f } else { f + 1 };
            assert(r[at] == q[f]);
        }
    }
}

/// Removing a job twice is removing it once: after the first removal the
/// queue does not hold the job, so the second finds nothing and changes
/// nothing.
pub proof fn lemma_remove_twice(q: Seq<QueuedJobView>, id: Seq<char>)
    requires
        well_formed(q),
    ensures
        !contains_job(without(q, id), id),
        without(without(q, id), id) == without(q, id),
{
    lemma_without_forgets(q, id);
}

/// Of two jobs that are due, the one of the higher priority is dispatched
/// first: it stands before the other in the queue, and as long as it waits
/// there the other is not the job that is dispatched next.
pub proof fn lemma_higher_priority_first(q: Seq<QueuedJobView>, now: Timestamp, a: int, b: int)
    requires
        well_formed(q),
        0 <= a < q.len(),
        0 <= b < q.len(),
        is_due(q[a], now),
        is_due(q[b], now),
        q[a].priority.rank() > q[b].priority.rank(),
    ensures
        a < b,
        next_due(q, now) matches Some(i) ==> i <= a,
        next_due(q, now) != Some(b),
{
    if b < a {
        assert(entry_before(q[b], q[a]));
    }
    lemma_first_index(q, runnable());
}

impl QueuedJob {
    /// Whether `self` comes before `other` in the order of the queue.
    pub fn precedes(&self, other: &QueuedJob) -> (r: bool)
        ensures
            r == entry_before(self@, other@),
    {
        let a = self.priority.level();
        let b = other.priority.level();
        if a != b {
            return a > b;
        }
        match (self.next_execution, other.next_execution) {
            (Some(x), Some(y)) => {
                if x.is_before(&y) {
                    true
                } else if y.is_before(&x) {
                    false
                } else {
                    comes_before(self.job.id.as_str(), other.job.id.as_str())
                }
            },
            (Some(_), None) => true,
            (None, Some(_)) => false,
            (None, None) => comes_before(self.job.id.as_str(), other.job.id.as_str()),
        }
    }

    /// Whether the entry can ever be dispatched as it stands.
    pub fn can_run(&self) -> (r: bool)
        ensures
            r == can_run(self@),
    {
        self.job.enabled && (self.next_execution.is_some() || self.job.schedule.event.is_some()
            || self.job.schedule.pattern.is_some() || self.job.schedule.at.is_some())
    }

    /// Whether the entry is due at `now`.
    pub fn is_due(&self, now: Timestamp) -> (r: bool)
        ensures
            r == is_due(self@, now),
    {
        if !self.can_run() {
            return false;
        }
        match self.next_execution {
            Some(t) => t.is_at_or_before(&now),
            None => true,
        }
    }
}

/// Counters of the queue.
#[derive(Debug, Clone, Copy, PartialEq, Eq, Structural)]
pub struct QueueStats {
    /// Jobs that came in, counted since the queue was last cleared or a job
    /// was last removed from it by its identifier.
    pub total_jobs: usize,
    /// Jobs that wait in the queue.
    pub scheduled_jobs: usize,
    pub running_jobs: usize,
    pub completed_jobs: usize,
    pub failed_jobs: usize,
    /// Average wait in seconds.
    pub average_wait_time: u64,
}

impl Default for QueueStats {
    fn default() -> (r: Self)
        ensures
            r == (QueueStats {
                total_jobs: 0,
                scheduled_jobs: 0,
                running_jobs: 0,
                completed_jobs: 0,
                failed_jobs: 0,
                average_wait_time: 0,
            }),
    {
        QueueStats {
            total_jobs: 0,
            scheduled_jobs: 0,
            running_jobs: 0,
            completed_jobs: 0,
            failed_jobs: 0,
            average_wait_time: 0,
        }
    }
}

/// The queue of pending jobs. Its entries stand in the order of
/// `entry_before`, and no two of them hold the same job identifier.
pub struct JobQueue {
    entries: Vec<QueuedJob>,
    total_jobs: usize,
}

impl View for JobQueue {
    type V = Seq<QueuedJobView>;

    closed spec fn view(&self) -> Seq<QueuedJobView> {
        self.entries@.map_values(|e: QueuedJob| e@)
    }
}

impl JobQueue {
    #[verifier::type_invariant]
    spec fn inv(self) -> bool {
        well_formed(self@)
    }

    /// The count of the jobs that came in.
    pub closed spec fn total(&self) -> usize {
        self.total_jobs
    }

    /// The counters of a queue of `scheduled` waiting jobs that counted
    /// `total` jobs coming in.
    pub open spec fn stats_of(total: usize, scheduled: nat) -> QueueStats {
        QueueStats {
            total_jobs: total,
            scheduled_jobs: scheduled as usize,
            running_jobs: 0,
            completed_jobs: 0,
            failed_jobs: 0,
            average_wait_time: 0,
        }
    }

    /// Creates an empty queue.
    pub fn new() -> (queue: JobQueue)
        ensures
            queue@ == Seq::<QueuedJobView>::empty(),
            queue.total() == 0,
    {
        JobQueue { entries: Vec::new(), total_jobs: 0 }
    }

    /// The queue is well-formed at all times.
    pub fn check(&self)
        ensures
            well_formed(self@),
    {
        proof {
            use_type_invariant(self);
        }
    }

    /// The place of the job `job_id`, or the number of entries where the
    /// queue holds no such job.
    fn find(&self, job_id: &JobId) -> (i: usize)
        ensures
            i == index_of(self@, job_id@),
            i <= self@.len(),
            self@.len() == self.entries@.len(),
    {
        let mut i: usize = 0;
        while i < self.entries.len()
            invariant
                i <= self.entries.len(),
                self@.len() == self.entries@.len(),
                forall|j: int| 0 <= j < i ==> !has_id(job_id@)(#[trigger] self@[j]),
            decreases self.entries.len() - i,
        {
            if self.entries[i].job.id == *job_id {
                proof {
                    lemma_first_index_is(self@, has_id(job_id@), i as int);
                }
                return i;
            }
            i = i + 1;
        }
        proof {
            lemma_first_index_is(self@, has_id(job_id@), i as int);
        }
        i
    }

    /// The next-execution instant with which a job goes into the queue at
    /// `now`.
    pub fn calculate_next_execution(job: &Job, now: Timestamp) -> (r: Option<Timestamp>)
        ensures
            r == queue_key(job@, now),
    {
        if !job.enabled {
            return None;
        }
        match Parser::next_execution(&job.schedule, now) {
            Ok(next) => next,
            Err(_) => match job.schedule.at {
                Some(at) => if now.is_before(&at) {
                    Some(at)
                } else {
                    None
                },
                None => None,
            },
        }
    }

    /// Adds a job at the time of the system clock: for some instant, what
    /// `add_job_at` does.
    pub fn add_job(&mut self, job: Job) -> (r: Result<(), QueueError>)
        ensures
            exists|now: Timestamp| #[trigger] Self::added(*old(self), *final(self), job@, now, r),
    {
        let now = current_time();
        self.add_job_at(job, now)
    }

    /// What `add_job_at` does: a job that the queue does not hold yet goes in
    /// at its place and is counted; a job that it holds is refused and
    /// nothing changes.
    pub open spec fn added(
        before: JobQueue,
        after: JobQueue,
        job: JobView,
        now: Timestamp,
        r: Result<(), QueueError>,
    ) -> bool {
        Self::put(before, after, entry_of(job, now), r)
    }

    /// What `insert` does: an entry whose job the queue does not hold yet
    /// goes in at its place and is counted; an entry whose job it holds is
    /// refused with the identifier of the job, and nothing changes.
    pub open spec fn put(
        before: JobQueue,
        after: JobQueue,
        entry: QueuedJobView,
        r: Result<(), QueueError>,
    ) -> bool {
        if contains_job(before@, entry.job.id) {
            &&& r matches Err(e)
            &&& e@ == QueueErrorView::JobAlreadyExists(entry.job.id)
            &&& after@ == before@
            &&& after.total() == before.total()
        } else {
            &&& r is Ok
            &&& after@ == inserted(before@, entry)
            &&& after.total() == count_up(before.total())
        }
    }

    /// Adds a job at the instant `now`, with the next execution that its
    /// schedule has after `now`.
    pub fn add_job_at(&mut self, job: Job, now: Timestamp) -> (r: Result<(), QueueError>)
        ensures
            Self::added(*old(self), *final(self), job@, now, r),
    {
        let next_execution = Self::calculate_next_execution(&job, now);
        let priority = job.priority;
        self.insert(QueuedJob { job, next_execution, priority, added_at: now })
    }

    /// Puts an entry into the queue: behind the entries that come before it
    /// in the order of the queue, and before all others.
    pub fn insert(&mut self, entry: QueuedJob) -> (r: Result<(), QueueError>)
        ensures
            Self::put(*old(self), *final(self), entry@, r),
    {
        proof {
            use_type_invariant(&*self);
        }
        let at = self.find(&entry.job.id);
        if at < self.entries.len() {
            return Err(QueueError::JobAlreadyExists(entry.job.id.clone()));
        }
        let ghost before = self@;
        let mut k: usize = 0;
        while k < self.entries.len() && self.entries[k].precedes(&entry)
            invariant
                k <= self.entries.len(),
                self@ == before,
                self@.len() == self.entries@.len(),
                forall|j: int| 0 <= j < k ==> !not_before(entry@)(#[trigger] before[j]),
            decreases self.entries.len() - k,
        {
            k = k + 1;
        }
        proof {
            lemma_first_index_is(before, not_before(entry@), k as int);
            lemma_inserted_well_formed(before, entry@);
            assert(self.entries@.insert(k as int, entry).map_values(|e: QueuedJob| e@) =~= before.insert(
                k as int,
                entry@,
            ));
        }
        let mut entries: Vec<QueuedJob> = Vec::new();
        std::mem::swap(&mut entries, &mut self.entries);
        entries.insert(k, entry);
        self.entries = entries;
        self.total_jobs = if self.total_jobs < usize::MAX {
            self.total_jobs + 1
        } else {
            self.total_jobs
        };
        Ok(())
    }

    /// Removes a job. A job that the queue does not hold is an error, and
    /// then nothing changes.
    pub fn remove_job(&mut self, job_id: &JobId) -> (r: Result<(), QueueError>)
        ensures
            final(self)@ == without(old(self)@, job_id@),
            r is Ok <==> contains_job(old(self)@, job_id@),
            r matches Err(e) ==> e@ == QueueErrorView::JobNotFound(job_id@) && final(self).total()
                == old(self).total(),
            r is Ok ==> final(self).total() == final(self)@.len(),
    {
        proof {
            use_type_invariant(&*self);
        }
        let at = self.find(job_id);
        if at >= self.entries.len() {
            return Err(QueueError::JobNotFound(job_id.clone()));
        }
        let ghost before = self@;
        proof {
            assert(self.entries@.remove(at as int).map_values(|e: QueuedJob| e@) =~= before.remove(
                at as int,
            ));
        }
        let mut entries: Vec<QueuedJob> = Vec::new();
        std::mem::swap(&mut entries, &mut self.entries);
        entries.remove(at);
        let left = entries.len();
        self.entries = entries;
        self.total_jobs = left;
        Ok(())
    }

    /// Takes the job that is dispatched next at the time of the system
    /// clock: for some instant, what `pop_next_due` does.
    pub fn get_next_job(&mut self) -> (r: Option<Job>)
        ensures
            exists|now: Timestamp| #[trigger] Self::popped(*old(self), *final(self), now, r),
    {
        let now = current_time();
        self.pop_next_due(now)
    }

    /// What `pop_next_due` does: the top job leaves the queue where it is
    /// due at `now`, and nothing changes where it is not or where no job can
    /// run.
    pub open spec fn popped(before: JobQueue, after: JobQueue, now: Timestamp, r: Option<Job>) -> bool {
        &&& after.total() == before.total()
        &&& match next_due(before@, now) {
            Some(i) => r matches Some(job) && job@ == before@[i].job && after@ == before@.remove(i),
            None => r is None && after@ == before@,
        }
    }

    /// Takes the job that is dispatched next at `now` out of the queue: the
    /// top job, which is the first in the order of the queue that can run,
    /// where it is due. Where the top job waits for a later instant, no job
    /// is taken.
    pub fn pop_next_due(&mut self, now: Timestamp) -> (r: Option<Job>)
        ensures
            Self::popped(*old(self), *final(self), now, r),
    {
        proof {
            use_type_invariant(&*self);
        }
        let ghost before = self@;
        let mut i: usize = 0;
        while i < self.entries.len() && !self.entries[i].can_run()
            invariant
                i <= self.entries.len(),
                self@ == before,
                self@.len() == self.entries@.len(),
                forall|j: int| 0 <= j < i ==> !runnable()(#[trigger] before[j]),
            decreases self.entries.len() - i,
        {
            i = i + 1;
        }
        proof {
            lemma_first_index_is(before, runnable(), i as int);
        }
        if i >= self.entries.len() || !self.entries[i].is_due(now) {
            return None;
        }
        proof {
            assert(self.entries@.remove(i as int).map_values(|e: QueuedJob| e@) =~= before.remove(
                i as int,
            ));
        }
        let mut entries: Vec<QueuedJob> = Vec::new();
        std::mem::swap(&mut entries, &mut self.entries);
        let entry = entries.remove(i);
        self.entries = entries;
        Some(entry.job)
    }

    /// The job `job_id`, where the queue holds it.
    pub fn get_job(&self, job_id: &JobId) -> (r: Option<&Job>)
        ensures
            r is Some <==> contains_job(self@, job_id@),
            r matches Some(job) ==> job@ == self@[index_of(self@, job_id@)].job,
    {
        let at = self.find(job_id);
        if at < self.entries.len() {
            Some(&self.entries[at].job)
        } else {
            None
        }
    }

    /// The jobs of the queue, in its order.
    pub fn list_jobs(&self) -> (r: Vec<&Job>)
        ensures
            r@.map_values(|j: &Job| j@) == jobs_of(self@),
    {
        let mut out: Vec<&Job> = Vec::new();
        let mut i: usize = 0;
        while i < self.entries.len()
            invariant
                i <= self.entries.len(),
                self@.len() == self.entries@.len(),
                out@.len() == i,
                forall|j: int| 0 <= j < i ==> (#[trigger] out@[j])@ == self@[j].job,
            decreases self.entries.len() - i,
        {
            out.push(&self.entries[i].job);
            i = i + 1;
        }
        out
    }

    /// The jobs that are due at the time of the system clock: for some
    /// instant, what `due_jobs_at` lists.
    pub fn get_due_jobs(&self) -> (r: Vec<&Job>)
        ensures
            exists|now: Timestamp| r@.map_values(|j: &Job| j@) == #[trigger] due_jobs(self@, now),
    {
        let now = current_time();
        self.due_jobs_at(now)
    }

    /// The jobs that are due at `now`, in the order of the queue. The queue
    /// does not change.
    pub fn due_jobs_at(&self, now: Timestamp) -> (r: Vec<&Job>)
        ensures
            r@.map_values(|j: &Job| j@) == due_jobs(self@, now),
    {
        let mut out: Vec<&Job> = Vec::new();
        let mut i: usize = 0;
        let ghost due = |e: QueuedJobView| is_due(e, now);
        let ghost job = |e: QueuedJobView| e.job;
        while i < self.entries.len()
            invariant
                i <= self.entries.len(),
                self@.len() == self.entries@.len(),
                due == (|e: QueuedJobView| is_due(e, now)),
                job == (|e: QueuedJobView| e.job),
                out@.map_values(|j: &Job| j@) == self@.subrange(0, i as int).filter(due).map_values(job),
            decreases self.entries.len() - i,
        {
            proof {
                let longer = self@.subrange(0, i + 1);
                assert(longer.drop_last() =~= self@.subrange(0, i as int));
                reveal(Seq::filter);
            }
            if self.entries[i].is_due(now) {
                proof {
                    let seen = out@.map_values(|j: &Job| j@);
                    assert(out@.push(&self.entries[i as int].job).map_values(|j: &Job| j@)
                        =~= seen.push(self.entries[i as int].job@));
                }
                out.push(&self.entries[i].job);
            }
            i = i + 1;
        }
        assert(self@.subrange(0, i as int) =~= self@);
        out
    }

    /// Replaces a job of the queue by its new definition at the time of the
    /// system clock: for some instant, what `update_job_at` does.
    pub fn update_job(&mut self, job: Job) -> (r: Result<(), QueueError>)
        ensures
            exists|now: Timestamp| #[trigger] Self::updated(*old(self), *final(self), job@, now, r),
    {
        let now = current_time();
        self.update_job_at(job, now)
    }

    /// What `update_job_at` does: the job leaves the queue and goes in again
    /// with its new definition; a job that the queue does not hold is an
    /// error, and then nothing changes.
    pub open spec fn updated(
        before: JobQueue,
        after: JobQueue,
        job: JobView,
        now: Timestamp,
        r: Result<(), QueueError>,
    ) -> bool {
        if contains_job(before@, job.id) {
            &&& r is Ok
            &&& after@ == inserted(without(before@, job.id), entry_of(job, now))
        } else {
            &&& r matches Err(e)
            &&& e@ == QueueErrorView::JobNotFound(job.id)
            &&& after@ == before@
            &&& after.total() == before.total()
        }
    }

    /// Replaces a job of the queue by its new definition at the instant
    /// `now`: the identifier stays, the next execution is computed anew.
    pub fn update_job_at(&mut self, job: Job, now: Timestamp) -> (r: Result<(), QueueError>)
        ensures
            Self::updated(*old(self), *final(self), job@, now, r),
    {
        proof {
            use_type_invariant(&*self);
            lemma_without_forgets(self@, job@.id);
        }
        match self.remove_job(&job.id) {
            Ok(_) => {},
            Err(e) => {
                return Err(e);
            },
        }
        self.add_job_at(job, now)
    }

    /// The counters of the queue.
    pub fn get_stats(&self) -> (stats: QueueStats)
        ensures
            stats == Self::stats_of(self.total(), self@.len()),
    {
        QueueStats {
            total_jobs: self.total_jobs,
            scheduled_jobs: self.entries.len(),
            running_jobs: 0,
            completed_jobs: 0,
            failed_jobs: 0,
            average_wait_time: 0,
        }
    }

    /// Removes every job and sets the counters to zero.
    pub fn clear(&mut self)
        ensures
            final(self)@ == Seq::<QueuedJobView>::empty(),
            final(self).total() == 0,
    {
        let entries: Vec<QueuedJob> = Vec::new();
        self.entries = entries;
        self.total_jobs = 0;
    }

    /// The number of jobs in the queue.
    pub fn len(&self) -> (n: usize)
        ensures
            n == self@.len(),
    {
        self.entries.len()
    }

    /// Whether the queue holds no job.
    pub fn is_empty(&self) -> (r: bool)
        ensures
            r == (self@.len() == 0),
    {
        self.entries.len() == 0
    }
}

} // verus!
