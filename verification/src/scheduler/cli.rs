//! The scheduler commands of the command line, on a scheduler that the
//! caller holds: what each command does to the scheduler and what it
//! prints.

use vstd::prelude::*;
use vstd::string::*;
use crate::scheduler::job::{Job, JobId, JobStatus, JobStatusView, JobView, ScheduleView};
use crate::scheduler::persistence::job_views;
use crate::scheduler::text::{natural_text, natural_to_text, texts};
use crate::scheduler::time::Timestamp;
use crate::scheduler::monitor::MonitorErrorView;
use crate::scheduler::queue::QueueErrorView;
use crate::scheduler::{
    JobInfo, JobInfoView, Scheduler, SchedulerError, SchedulerErrorView, SchedulerView,
};

verus! {

/// The exit code of a command that succeeded.
pub const EXIT_OK: i32 = 0;

/// The exit code of a command that failed: the job was not valid or not
/// found.
pub const EXIT_FAILED: i32 = 2;

/// The job that the command `add` makes of its arguments: a fresh job with
/// the arguments of the command line, with the schedule as its cron
/// expression unless the schedule is empty, and with the zone and the
/// description where they are given.
pub open spec fn job_of_arguments(
    fresh: JobView,
    schedule: Seq<char>,
    args: Option<Seq<Seq<char>>>,
    timezone: Option<Seq<char>>,
    description: Option<Seq<char>>,
) -> JobView {
    JobView {
        args: match args {
            Some(list) => list,
            None => Seq::empty(),
        },
        schedule: ScheduleView {
            cron: if schedule.len() > 0 {
                Some(schedule)
            } else {
                None
            },
            timezone,
            ..fresh.schedule
        },
        description,
        ..fresh
    }
}

/// The characters of an optional list of texts.
pub open spec fn optional_texts(args: Option<Vec<String>>) -> Option<Seq<Seq<char>>> {
    match args {
        Some(list) => Some(texts(list@)),
        None => None,
    }
}

/// What the command `add` does with the fresh job `fresh`: the job that it
/// makes of the arguments is added at the instant at which the fresh job was
/// created.
pub open spec fn added_as(
    before: SchedulerView,
    after: SchedulerView,
    fresh: JobView,
    schedule: Seq<char>,
    args: Option<Seq<Seq<char>>>,
    timezone: Option<Seq<char>>,
    description: Option<Seq<char>>,
    r: Result<JobId, SchedulerError>,
) -> bool {
    Scheduler::added(
        before,
        after,
        job_of_arguments(fresh, schedule, args, timezone, description),
        fresh.created_at,
        r,
    )
}

/// A status as the listing shows it.
pub open spec fn status_text(status: JobStatusView) -> Seq<char> {
    match status {
        JobStatusView::Scheduled => "Scheduled"@,
        JobStatusView::Running => "Running"@,
        JobStatusView::Completed => "Completed"@,
        JobStatusView::Failed { error } => "Failed: "@ + error,
        JobStatusView::Cancelled => "Cancelled"@,
        JobStatusView::Retrying { attempts, max_attempts } => "Retrying ("@ + natural_text(
            attempts as nat,
        ) + "/"@ + natural_text(max_attempts as nat) + ")"@,
    }
}

/// The line of a job in the short listing: identifier, name and status.
pub open spec fn short_line(info: JobInfoView) -> Seq<char> {
    info.job.id + " - "@ + info.job.name + " - "@ + status_text(info.status)
}

/// The lines of a job in the long listing.
pub open spec fn long_lines(info: JobInfoView) -> Seq<char> {
    "ID: "@ + info.job.id + "\nName: "@ + info.job.name + "\nStatus: "@ + status_text(info.status)
        + "\nSchedule: "@ + (match info.job.schedule.cron {
        Some(c) => c,
        None => "-"@,
    }) + "\nCommand: "@ + info.job.command + "\n---"@
}

/// What the listing shows of a job.
pub open spec fn listing_line(info: JobInfoView, verbose: bool) -> Seq<char> {
    if verbose {
        long_lines(info)
    } else {
        short_line(info)
    }
}

/// How many of `infos` are in the status `Scheduled`.
pub open spec fn active_count(infos: Seq<JobInfoView>) -> nat
    decreases infos.len(),
{
    if infos.len() == 0 {
        0
    } else {
        active_count(infos.drop_last()) + if infos.last().status is Scheduled {
            1nat
        } else {
            0nat
        }
    }
}

/// The status of the scheduler as the command `status` shows it without an
/// identifier.
pub open spec fn summary_text(infos: Seq<JobInfoView>) -> Seq<char> {
    "Scheduler Status:\nScheduler is running\nTotal jobs: "@ + natural_text(infos.len())
        + "\nActive jobs: "@ + natural_text(active_count(infos))
}

/// Makes a scheduler over the storage directory and starts it at `now` with
/// the job definitions found in storage.
pub fn init_scheduler(storage_dir: String, persisted: Vec<Job>, now: Timestamp) -> (scheduler:
    Scheduler)
    ensures
        scheduler@.running,
        scheduler@.stored == crate::scheduler::persistence::cache_of(job_views(persisted@)),
        forall|k: int|
            0 <= k < scheduler@.stored.len() ==> crate::scheduler::queue::count_of(
                scheduler@.queue,
                (#[trigger] scheduler@.stored[k]).id,
            ) == 1,
{
    let mut scheduler = Scheduler::new(storage_dir);
    proof {
        crate::scheduler::lemma_started_store(scheduler@, job_views(persisted@), now);
    }
    let _ = scheduler.start(persisted, now);
    scheduler
}

/// Makes the job of the command `add` out of a fresh job and the arguments
/// of the command.
pub fn build_job(
    fresh: Job,
    schedule: String,
    args: Option<Vec<String>>,
    timezone: Option<String>,
    description: Option<String>,
) -> (job: Job)
    ensures
        job@ == job_of_arguments(
            fresh@,
            schedule@,
            optional_texts(args),
            crate::scheduler::text::optional_text(timezone),
            crate::scheduler::text::optional_text(description),
        ),
{
    let mut job = fresh;
    match args {
        Some(list) => {
            job.args = list;
        },
        None => {
            job.args = Vec::new();
            assert(texts(job.args@) =~= Seq::<Seq<char>>::empty());
        },
    }
    if schedule.as_str().unicode_len() > 0 {
        job.schedule.cron = Some(schedule);
    } else {
        job.schedule.cron = None;
    }
    job.schedule.timezone = timezone;
    job.description = description;
    job
}

/// The command `add`: makes a job with a fresh identifier and adds it to
/// the scheduler at the time of the system clock. Whatever identifier and
/// instant came back, the scheduler did with the job what `add_job_at`
/// does.
pub fn add_job(
    scheduler: &mut Scheduler,
    name: String,
    schedule: String,
    command: String,
    args: Option<Vec<String>>,
    timezone: Option<String>,
    description: Option<String>,
) -> (r: Result<JobId, SchedulerError>)
    ensures
        exists|id: Seq<char>, now: Timestamp| #[trigger]
            added_as(
                old(scheduler)@,
                final(scheduler)@,
                JobView::fresh(id, name@, command@, now),
                schedule@,
                optional_texts(args),
                crate::scheduler::text::optional_text(timezone),
                crate::scheduler::text::optional_text(description),
                r,
            ),
{
    let ghost list = optional_texts(args);
    let fresh = Job::new(name, command);
    let ghost made = fresh@;
    let now = fresh.created_at;
    let job = build_job(fresh, schedule, args, timezone, description);
    let r = scheduler.add_job_at(job, now);
    assert(added_as(
        old(scheduler)@,
        scheduler@,
        JobView::fresh(made.id, name@, command@, now),
        schedule@,
        list,
        crate::scheduler::text::optional_text(timezone),
        crate::scheduler::text::optional_text(description),
        r,
    ));
    r
}

/// Writes a status as the listing shows it.
pub fn status_to_text(status: &JobStatus) -> (text: String)
    ensures
        text@ == status_text(status@),
{
    match status {
        JobStatus::Scheduled => String::from_str("Scheduled"),
        JobStatus::Running => String::from_str("Running"),
        JobStatus::Completed => String::from_str("Completed"),
        JobStatus::Failed { error } => String::from_str("Failed: ").concat(error.as_str()),
        JobStatus::Cancelled => String::from_str("Cancelled"),
        JobStatus::Retrying { attempts, max_attempts } => String::from_str("Retrying (").concat(
            natural_to_text(*attempts as u64).as_str(),
        ).concat("/").concat(natural_to_text(*max_attempts as u64).as_str()).concat(")"),
    }
}

/// Writes what the listing shows of a job.
pub fn job_line(info: &JobInfo, verbose: bool) -> (line: String)
    ensures
        line@ == listing_line(info@, verbose),
{
    let status = status_to_text(&info.status);
    if verbose {
        let schedule = match &info.job.schedule.cron {
            Some(c) => c.clone(),
            None => String::from_str("-"),
        };
        String::from_str("ID: ").concat(info.job.id.as_str()).concat("\nName: ").concat(
            info.job.name.as_str(),
        ).concat("\nStatus: ").concat(status.as_str()).concat("\nSchedule: ").concat(
            schedule.as_str(),
        ).concat("\nCommand: ").concat(info.job.command.as_str()).concat("\n---")
    } else {
        info.job.id.clone().concat(" - ").concat(info.job.name.as_str()).concat(" - ").concat(
            status.as_str(),
        )
    }
}

/// The command `list`: what the listing shows of each stored job, in the
/// order of the store. A stored job that the monitor does not track is an
/// error.
pub fn list_jobs(scheduler: &Scheduler, verbose: bool) -> (r: Result<Vec<String>, SchedulerError>)
    ensures
        r is Ok <==> scheduler@.first_untracked() == scheduler@.stored.len(),
        r matches Ok(lines) ==> texts(lines@) == scheduler@.listing().map_values(
            |info: JobInfoView| listing_line(info, verbose),
        ),
        r matches Err(e) ==> e@ == SchedulerErrorView::MonitorError(
            MonitorErrorView::JobNotFound(scheduler@.stored[scheduler@.first_untracked()].id),
        ),
{
    let infos = match scheduler.list_jobs() {
        Ok(infos) => infos,
        Err(e) => {
            return Err(e);
        },
    };
    let mut lines: Vec<String> = Vec::new();
    let mut i: usize = 0;
    while i < infos.len()
        invariant
            i <= infos.len(),
            infos@.map_values(|i: JobInfo| i@) == scheduler@.listing(),
            lines@.len() == i,
            forall|j: int|
                0 <= j < i ==> (#[trigger] lines@[j])@ == listing_line(
                    scheduler@.listing()[j],
                    verbose,
                ),
        decreases infos.len() - i,
    {
        lines.push(job_line(&infos[i], verbose));
        i = i + 1;
    }
    Ok(lines)
}

/// The command `remove`: removes the job from the scheduler.
pub fn remove_job(scheduler: &mut Scheduler, job_id: &str) -> (r: Result<(), SchedulerError>)
    ensures
        final(scheduler)@ == old(scheduler)@.removed(job_id@),
        r is Ok <==> crate::scheduler::queue::contains_job(old(scheduler)@.queue, job_id@),
        r matches Err(e) ==> e@ == SchedulerErrorView::QueueError(
            QueueErrorView::JobNotFound(job_id@),
        ),
{
    let id = job_id.to_owned();
    scheduler.remove_job(&id)
}

/// The command `status`: the status of the job `job_id`, or the status of
/// the scheduler where no job is named.
pub fn get_job_status(scheduler: &Scheduler, job_id: Option<&str>) -> (r: Result<String, SchedulerError>)
    ensures
        match job_id {
            Some(id) => (r is Ok <==> crate::scheduler::monitor::is_tracked(scheduler@.monitor, id@))
                && (r matches Ok(text) ==> text@ == "Job "@ + id@ + " status: "@ + status_text(
                scheduler@.monitor[crate::scheduler::monitor::tracked_at(
                    scheduler@.monitor,
                    id@,
                )].status,
            )) && (r matches Err(e) ==> e@ == SchedulerErrorView::MonitorError(
                MonitorErrorView::JobNotFound(id@),
            )),
            None => (r is Ok <==> scheduler@.first_untracked() == scheduler@.stored.len()) && (
            r matches Ok(text) ==> text@ == summary_text(scheduler@.listing())) && (
            r matches Err(e) ==> e@ == SchedulerErrorView::MonitorError(
                MonitorErrorView::JobNotFound(scheduler@.stored[scheduler@.first_untracked()].id),
            )),
        },
{
    match job_id {
        Some(id) => {
            let owned = id.to_owned();
            match scheduler.get_job_status(&owned) {
                Ok(status) => Ok(
                    String::from_str("Job ").concat(id).concat(" status: ").concat(
                        status_to_text(&status).as_str(),
                    ),
                ),
                Err(e) => Err(e),
            }
        },
        None => {
            let infos = match scheduler.list_jobs() {
                Ok(infos) => infos,
                Err(e) => {
                    return Err(e);
                },
            };
            let ghost all = infos@.map_values(|i: JobInfo| i@);
            let mut active: usize = 0;
            let mut i: usize = 0;
            while i < infos.len()
                invariant
                    i <= infos.len(),
                    all == infos@.map_values(|i: JobInfo| i@),
                    active == active_count(all.subrange(0, i as int)),
                    active <= i,
                decreases infos.len() - i,
            {
                proof {
                    let longer = all.subrange(0, i + 1);
                    assert(longer.drop_last() =~= all.subrange(0, i as int));
                }
                match &infos[i].status {
                    JobStatus::Scheduled => {
                        active = active + 1;
                    },
                    _ => {},
                }
                i = i + 1;
            }
            assert(all.subrange(0, i as int) =~= all);
            Ok(
                String::from_str("Scheduler Status:\nScheduler is running\nTotal jobs: ").concat(
                    natural_to_text(infos.len() as u64).as_str(),
                ).concat("\nActive jobs: ").concat(natural_to_text(active as u64).as_str()),
            )
        },
    }
}

/// The command `enable`: enables the stored job at `now`.
pub fn enable_job(scheduler: &mut Scheduler, job_id: &str, now: Timestamp) -> (r: Result<
    (),
    SchedulerError,
>)
    ensures
        final(scheduler)@ == old(scheduler)@.with_enabled(job_id@, true, now),
        r is Ok <==> crate::scheduler::persistence::is_cached(old(scheduler)@.stored, job_id@),
        r matches Err(e) ==> e@ == SchedulerErrorView::JobNotFound(job_id@),
{
    let id = job_id.to_owned();
    match scheduler.enable_job(&id, now) {
        Ok(_) => Ok(()),
        Err(e) => Err(e),
    }
}

/// The command `disable`: disables the stored job at `now`.
pub fn disable_job(scheduler: &mut Scheduler, job_id: &str, now: Timestamp) -> (r: Result<
    (),
    SchedulerError,
>)
    ensures
        final(scheduler)@ == old(scheduler)@.with_enabled(job_id@, false, now),
        r is Ok <==> crate::scheduler::persistence::is_cached(old(scheduler)@.stored, job_id@),
        r matches Err(e) ==> e@ == SchedulerErrorView::JobNotFound(job_id@),
{
    let id = job_id.to_owned();
    match scheduler.disable_job(&id, now) {
        Ok(_) => Ok(()),
        Err(e) => Err(e),
    }
}

/// Starts the scheduler at `now` with the job definitions found in storage.
pub fn start_scheduler(scheduler: &mut Scheduler, persisted: Vec<Job>, now: Timestamp) -> (r: Result<
    (),
    SchedulerError,
>)
    ensures
        r is Ok,
        final(scheduler)@ == old(scheduler)@.started(job_views(persisted@), now),
{
    scheduler.start(persisted, now)
}

/// Stops the scheduler at `now`.
pub fn stop_scheduler(scheduler: &mut Scheduler, now: Timestamp) -> (r: Result<(), SchedulerError>)
    ensures
        r is Ok,
        final(scheduler)@ == old(scheduler)@.stopped(now),
{
    scheduler.stop(now)
}

/// The exit code of a command with the result `failed`.
pub fn exit_code(failed: bool) -> (code: i32)
    ensures
        code == if failed {
            EXIT_FAILED
        } else {
            EXIT_OK
        },
{
    if failed {
        EXIT_FAILED
    } else {
        EXIT_OK
    }
}

} // verus!
