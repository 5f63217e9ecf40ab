use rae_agent::scheduler::executor::{NextStep, ProcessOutcome};
use rae_agent::scheduler::job::{
    EventTrigger, EventType, Job, JobStatus, PatternTrigger, PatternType, Priority, RetryPolicy,
};
use rae_agent::scheduler::queue::QueueError;
use rae_agent::scheduler::time::Timestamp;
use rae_agent::scheduler::{JobInfo, Scheduler, SchedulerError};

// 2024-01-01T00:00:00Z
const DAY: i64 = 1_704_067_200;

fn at(secs: i64) -> Timestamp {
    Timestamp::new(secs, 0)
}

fn job(id: &str, command: &str) -> Job {
    Job::create(id.to_string(), id.to_string(), command.to_string(), at(DAY))
}

fn exited(code: i32, stdout: &str) -> ProcessOutcome {
    ProcessOutcome::Exited { code: Some(code), stdout: stdout.to_string(), stderr: String::new() }
}

fn started(now: i64) -> Scheduler {
    let mut scheduler = Scheduler::new("/var/lib/rae/scheduler/jobs".to_string());
    scheduler.start(Vec::new(), at(now)).unwrap();
    scheduler
}

fn ids(jobs: &[Job]) -> Vec<String> {
    jobs.iter().map(|j| j.id.clone()).collect()
}

#[test]
fn cron_job_is_dispatched_at_its_occurrence() {
    let mut scheduler = started(DAY + 5);
    let echo = Job::create("echo".to_string(), "echo-hi".to_string(), "/bin/echo".to_string(), at(DAY + 5))
        .with_cron("*/1 * * * *".to_string())
        .with_args(vec!["hi".to_string()]);
    assert_eq!(scheduler.add_job_at(echo, at(DAY + 5)), Ok("echo".to_string()));
    assert_eq!(scheduler.get_job_status(&"echo".to_string()), Ok(JobStatus::Scheduled));

    assert!(scheduler.tick(at(DAY + 6)).is_empty());
    assert!(scheduler.tick(at(DAY + 59)).is_empty());
    let due = scheduler.tick(at(DAY + 60));
    assert_eq!(ids(&due), vec!["echo".to_string()]);

    let request = scheduler.request_for(due.into_iter().next().unwrap()).unwrap();
    let plan = scheduler.begin(&request, at(DAY + 60)).unwrap();
    assert_eq!(plan.command, "/bin/echo");
    assert_eq!(plan.args, vec!["hi".to_string()]);
    assert_eq!(scheduler.get_job_status(&"echo".to_string()), Ok(JobStatus::Running));

    let step = scheduler.complete(&"echo".to_string(), exited(0, "hi\n"), at(DAY + 60));
    assert!(matches!(step, NextStep::Done));
    let result = scheduler.executor().get_job_result(&"echo".to_string()).unwrap().unwrap();
    assert_eq!(result.stdout, "hi\n");
    assert_eq!(result.status, JobStatus::Completed);
    assert_eq!(result.started_at, at(DAY + 60));

    // The job recurs: it is scheduled again, for the next minute.
    assert_eq!(scheduler.get_job_status(&"echo".to_string()), Ok(JobStatus::Scheduled));
    let health = scheduler.monitor().get_job_health(&"echo".to_string()).unwrap();
    assert_eq!(health.execution_count, 1);
    assert!(scheduler.tick(at(DAY + 119)).is_empty());
    assert_eq!(ids(&scheduler.tick(at(DAY + 120))), vec!["echo".to_string()]);
}

#[test]
fn past_due_one_time_job_is_dispatched_once() {
    let now = DAY + 3600;
    let mut scheduler = started(now);
    let once = job("once", "/bin/true").with_time(at(now - 60));
    scheduler.add_job_at(once, at(now)).unwrap();
    let due = scheduler.tick(at(now));
    assert_eq!(ids(&due), vec!["once".to_string()]);
    let request = scheduler.request_for(due.into_iter().next().unwrap()).unwrap();
    scheduler.begin(&request, at(now)).unwrap();
    assert!(matches!(scheduler.complete(&"once".to_string(), exited(0, ""), at(now + 1)), NextStep::Done));
    assert!(scheduler.tick(at(now + 1)).is_empty());
    assert!(scheduler.tick(at(now + 100_000)).is_empty());
    assert_eq!(scheduler.get_job_status(&"once".to_string()), Ok(JobStatus::Completed));
    assert!(scheduler.queue().is_empty());
}

#[test]
fn failing_job_is_retried_with_growing_delay() {
    let mut scheduler = started(DAY);
    let policy = RetryPolicy { max_attempts: 3, delay: 1, exponential_backoff: true, max_delay: None };
    let failing = job("bad", "/bin/false").with_time(at(DAY)).with_retry_policy(policy);
    scheduler.add_job_at(failing, at(DAY + 1)).unwrap();
    let due = scheduler.tick(at(DAY + 1));
    let mut request = scheduler.request_for(due.into_iter().next().unwrap()).unwrap();
    let mut clock = DAY + 1;
    let mut offsets = Vec::new();
    loop {
        offsets.push(clock - (DAY + 1));
        scheduler.begin(&request, at(clock)).unwrap();
        match scheduler.complete(&"bad".to_string(), exited(1, ""), at(clock)) {
            NextStep::Retry { request: next, delay } => {
                assert_eq!(
                    scheduler.get_job_status(&"bad".to_string()),
                    Ok(JobStatus::Retrying { attempts: request.attempt, max_attempts: 3 })
                );
                clock += delay as i64;
                request = next;
            }
            NextStep::Done => break,
        }
    }
    assert_eq!(offsets, vec![0, 1, 3]);
    assert_eq!(
        scheduler.get_job_status(&"bad".to_string()),
        Ok(JobStatus::Failed { error: "Exit code: 1".to_string() })
    );
    assert_eq!(scheduler.monitor().get_job_health(&"bad".to_string()).unwrap().failure_count, 3);
}

#[test]
fn higher_priority_starts_first() {
    let mut scheduler = started(DAY);
    let a = job("a", "/bin/true").with_priority(Priority::Low).with_time(at(DAY + 10));
    let b = job("b", "/bin/true").with_priority(Priority::High).with_time(at(DAY + 10));
    scheduler.add_job_at(a, at(DAY)).unwrap();
    scheduler.add_job_at(b, at(DAY)).unwrap();
    assert_eq!(ids(&scheduler.tick(at(DAY + 10))), vec!["b".to_string(), "a".to_string()]);
}

#[test]
fn jobs_survive_a_restart() {
    let mut first = started(DAY + 5);
    let daily = job("daily", "/bin/true").with_cron("0 18 * * *".to_string());
    first.add_job_at(daily.clone(), at(DAY + 5)).unwrap();
    let persisted: Vec<Job> =
        first.persistence().get_all_cached_jobs().into_iter().cloned().collect();
    first.stop(at(DAY + 100)).unwrap();
    assert!(!first.is_running());
    assert!(first.tick(at(DAY + 18 * 3600)).is_empty());

    let mut second = Scheduler::new("/var/lib/rae/scheduler/jobs".to_string());
    assert!(!second.is_running());
    second.start(persisted, at(DAY + 200)).unwrap();
    assert!(second.is_running());
    assert_eq!(
        second.list_jobs(),
        Ok(vec![JobInfo { job: daily, status: JobStatus::Scheduled }])
    );
    // The next dispatch is where it would have been without the stop.
    assert!(second.tick(at(DAY + 18 * 3600 - 1)).is_empty());
    assert_eq!(ids(&second.tick(at(DAY + 18 * 3600))), vec!["daily".to_string()]);
}

#[test]
fn restart_queues_every_persisted_job_once() {
    let mut scheduler = Scheduler::new("dir".to_string());
    let persisted = vec![
        job("x", "/bin/true").with_time(at(DAY + 50)),
        job("y", "/bin/true").with_cron("0 18 * * *".to_string()),
        job("x", "/bin/echo").with_time(at(DAY + 70)),
        job("z", "/bin/true").with_cron("not a cron".to_string()),
    ];
    scheduler.start(persisted, at(DAY)).unwrap();
    let queued: Vec<String> = scheduler.queue().list_jobs().iter().map(|j| j.id.clone()).collect();
    let mut sorted = queued.clone();
    sorted.sort();
    assert_eq!(sorted, vec!["x".to_string(), "y".to_string(), "z".to_string()]);
    // Of two definitions of one job the later one stays.
    assert_eq!(scheduler.queue().get_job(&"x".to_string()).unwrap().command, "/bin/echo");
    assert_eq!(scheduler.monitor().get_tracked_jobs().len(), 3);
    assert_eq!(scheduler.list_jobs().unwrap().len(), 3);
}

#[test]
fn cancelled_job_ends_as_cancelled() {
    let mut scheduler = started(DAY);
    let sleep = job("sleep", "/bin/sleep").with_args(vec!["60".to_string()]).with_time(at(DAY));
    scheduler.add_job_at(sleep, at(DAY + 1)).unwrap();
    let due = scheduler.tick(at(DAY + 1));
    let request = scheduler.request_for(due.into_iter().next().unwrap()).unwrap();
    scheduler.begin(&request, at(DAY + 1)).unwrap();
    assert!(scheduler.cancel_job(&"sleep".to_string(), at(DAY + 2)).is_ok());
    let result = scheduler.executor().get_job_result(&"sleep".to_string()).unwrap().unwrap();
    assert_eq!(result.status, JobStatus::Cancelled);
    assert_eq!(result.ended_at.unwrap().secs - result.started_at.secs, 1);
    assert_eq!(scheduler.get_job_status(&"sleep".to_string()), Ok(JobStatus::Cancelled));
    // The outcome of the process arrives after the cancellation and changes nothing.
    assert!(matches!(scheduler.complete(&"sleep".to_string(), exited(1, ""), at(DAY + 61)), NextStep::Done));
    assert_eq!(scheduler.get_job_status(&"sleep".to_string()), Ok(JobStatus::Cancelled));
    assert!(scheduler.cancel_job(&"ghost".to_string(), at(DAY + 2)).is_ok());
}

#[test]
fn stop_cancels_what_runs() {
    let mut scheduler = started(DAY);
    scheduler.add_job_at(job("long", "/bin/sleep").with_time(at(DAY)), at(DAY + 1)).unwrap();
    let due = scheduler.tick(at(DAY + 1));
    let request = scheduler.request_for(due.into_iter().next().unwrap()).unwrap();
    scheduler.begin(&request, at(DAY + 1)).unwrap();
    scheduler.stop(at(DAY + 9)).unwrap();
    let result = scheduler.executor().get_job_result(&"long".to_string()).unwrap().unwrap();
    assert_eq!(result.status, JobStatus::Cancelled);
    assert_eq!(result.ended_at, Some(at(DAY + 9)));
    assert!(!scheduler.monitor().is_active());
}

#[test]
fn invalid_jobs_are_not_stored() {
    let mut scheduler = started(DAY);
    let bad_cron = job("c", "/bin/true").with_cron("every now and then".to_string());
    assert!(matches!(
        scheduler.add_job_at(bad_cron, at(DAY)),
        Err(SchedulerError::InvalidCronExpression(_))
    ));
    let bad_zone = job("z", "/bin/true")
        .with_cron("0 18 * * *".to_string())
        .with_timezone("Nowhere/Land".to_string());
    assert_eq!(
        scheduler.add_job_at(bad_zone, at(DAY)),
        Err(SchedulerError::InvalidJob("Invalid timezone: failed to parse timezone".to_string()))
    );
    let no_path = job("e", "/bin/true").with_event(EventTrigger {
        event_type: EventType::FileCreated,
        path: None,
        filter: None,
    });
    assert_eq!(
        scheduler.validate_job(&no_path),
        Err(SchedulerError::InvalidJob(
            "Invalid event trigger: File events require a path".to_string()
        ))
    );
    let no_command = job("n", "").with_cron("0 18 * * *".to_string());
    assert_eq!(
        scheduler.add_job_at(no_command, at(DAY)),
        Err(SchedulerError::InvalidJob("Command cannot be empty".to_string()))
    );
    let crowded = job("m", "/bin/true")
        .with_cron("0 18 * * *".to_string())
        .with_time(at(DAY + 5))
        .with_pattern(PatternTrigger {
            pattern_type: PatternType::HighCpuUsage,
            threshold: 80,
            window: 300,
        });
    assert_eq!(
        scheduler.add_job_at(crowded, at(DAY)),
        Err(SchedulerError::InvalidJob(
            "A cron expression takes at most one other trigger".to_string()
        ))
    );
    assert!(scheduler.queue().is_empty());
    assert!(scheduler.persistence().get_all_cached_jobs().is_empty());
    assert!(scheduler.monitor().get_tracked_jobs().is_empty());
}

#[test]
fn cron_with_one_other_trigger_is_valid() {
    let scheduler = Scheduler::new("dir".to_string());
    let both = job("b", "/bin/true").with_cron("0 18 * * *".to_string()).with_time(at(DAY + 5));
    assert_eq!(scheduler.validate_job(&both), Ok(()));
    let plain = job("p", "/bin/true");
    assert_eq!(scheduler.validate_job(&plain), Ok(()));
}

#[test]
fn duplicate_add_leaves_everything_as_it_was() {
    let mut scheduler = started(DAY);
    let first = job("dup", "/bin/true").with_time(at(DAY + 50));
    scheduler.add_job_at(first.clone(), at(DAY)).unwrap();
    let second = job("dup", "/bin/false").with_time(at(DAY + 10));
    assert_eq!(
        scheduler.add_job_at(second, at(DAY)),
        Err(SchedulerError::QueueError(QueueError::JobAlreadyExists("dup".to_string())))
    );
    assert_eq!(scheduler.persistence().get_cached_job(&"dup".to_string()), Some(&first));
    assert_eq!(scheduler.queue().get_job(&"dup".to_string()), Some(&first));
    assert_eq!(scheduler.queue().len(), 1);
}

#[test]
fn remove_job_twice_reports_not_found() {
    let mut scheduler = started(DAY);
    scheduler.add_job_at(job("a", "/bin/true").with_time(at(DAY + 50)), at(DAY)).unwrap();
    scheduler.add_job_at(job("b", "/bin/true").with_time(at(DAY + 60)), at(DAY)).unwrap();
    assert_eq!(scheduler.remove_job(&"a".to_string()), Ok(()));
    assert!(scheduler.persistence().get_cached_job(&"a".to_string()).is_none());
    assert!(scheduler.get_job_status(&"a".to_string()).is_err());
    let listed = scheduler.list_jobs().unwrap();
    assert_eq!(
        scheduler.remove_job(&"a".to_string()),
        Err(SchedulerError::QueueError(QueueError::JobNotFound("a".to_string())))
    );
    assert_eq!(scheduler.list_jobs().unwrap(), listed);
    assert_eq!(scheduler.queue().len(), 1);
    assert_eq!(
        SchedulerError::QueueError(QueueError::JobNotFound("a".to_string())).describe(),
        "Queue error: Job not found: a"
    );
}

#[test]
fn disabled_job_stays_but_is_not_dispatched() {
    let mut scheduler = started(DAY);
    scheduler.add_job_at(job("j", "/bin/true").with_time(at(DAY + 50)), at(DAY)).unwrap();
    let off = scheduler.disable_job(&"j".to_string(), at(DAY + 1)).unwrap();
    assert!(!off.enabled);
    assert_eq!(off.updated_at, at(DAY + 1));
    assert!(scheduler.tick(at(DAY + 50)).is_empty());
    assert!(scheduler.tick(at(DAY + 5000)).is_empty());
    assert_eq!(scheduler.list_jobs().unwrap().len(), 1);
    assert!(!scheduler.persistence().get_cached_job(&"j".to_string()).unwrap().enabled);
    assert_eq!(scheduler.get_job_status(&"j".to_string()), Ok(JobStatus::Scheduled));

    let on = scheduler.enable_job(&"j".to_string(), at(DAY + 20)).unwrap();
    assert!(on.enabled);
    assert_eq!(ids(&scheduler.tick(at(DAY + 50))), vec!["j".to_string()]);
    assert_eq!(
        scheduler.enable_job(&"ghost".to_string(), at(DAY)),
        Err(SchedulerError::JobNotFound("ghost".to_string()))
    );
    assert_eq!(
        scheduler.set_enabled(&"ghost".to_string(), false, at(DAY)).unwrap_err().describe(),
        "Job not found: ghost"
    );
}

#[test]
fn job_without_command_is_dispatched_but_not_run() {
    let mut scheduler = Scheduler::new("dir".to_string());
    scheduler.start(vec![job("hollow", "").with_time(at(DAY))], at(DAY + 1)).unwrap();
    let due = scheduler.tick(at(DAY + 1));
    assert_eq!(due.len(), 1);
    assert!(matches!(
        scheduler.request_for(due.into_iter().next().unwrap()),
        Err(SchedulerError::ExecutorError(_))
    ));
}

#[test]
fn scheduler_state_is_well_formed() {
    let mut scheduler = started(DAY);
    scheduler.add_job_at(job("a", "/bin/true").with_time(at(DAY + 50)), at(DAY)).unwrap();
    scheduler.check();
    scheduler.queue().check();
    scheduler.monitor().check();
    scheduler.executor().check();
    scheduler.persistence().check();
    assert!(scheduler.add_job(job("b", "/bin/true")).is_ok());
    assert_eq!(scheduler.queue().len(), 2);
}

#[test]
fn health_check_reports_through_the_scheduler() {
    let mut scheduler = started(DAY);
    scheduler.add_job_at(job("a", "/bin/true").with_time(at(DAY)), at(DAY + 1)).unwrap();
    let due = scheduler.tick(at(DAY + 1));
    let request = scheduler.request_for(due.into_iter().next().unwrap()).unwrap();
    scheduler.begin(&request, at(DAY + 1)).unwrap();
    scheduler.complete(&"a".to_string(), exited(1, ""), at(DAY + 2));
    assert!(scheduler.check_health(at(DAY + 3)).is_empty());
    let health = scheduler.monitor().get_job_health(&"a".to_string()).unwrap();
    assert_eq!(health.last_check, at(DAY + 3));
    assert_eq!(health.failure_count, 1);
    assert_eq!(
        health.status,
        JobStatus::Retrying { attempts: 1, max_attempts: 3 }
    );
}
