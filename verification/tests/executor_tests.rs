use rae_agent::scheduler::executor::{
    ExecutorError, JobExecutionRequest, JobExecutor, NextStep, ProcessOutcome, ProcessPlan,
    REQUEST_QUEUE_CAPACITY,
};
use rae_agent::scheduler::job::{Job, JobStatus, ResourceLimits, ResourceUsage, RetryPolicy};
use rae_agent::scheduler::time::Timestamp;

fn at(secs: i64) -> Timestamp {
    Timestamp::new(secs, 0)
}

fn exited(code: i32, stdout: &str) -> ProcessOutcome {
    ProcessOutcome::Exited { code: Some(code), stdout: stdout.to_string(), stderr: String::new() }
}

fn job_with_policy(id: &str, policy: RetryPolicy) -> Job {
    Job::create(id.to_string(), id.to_string(), "/bin/false".to_string(), at(0))
        .with_retry_policy(policy)
}

#[test]
fn test_validate_job() {
    let executor = JobExecutor::new();

    // Valid job
    let job = Job::new("test-job".to_string(), "echo".to_string());
    assert!(executor.validate_job(&job).is_ok());

    // Invalid job - empty command
    let job = Job::new("test-job".to_string(), "".to_string());
    assert!(executor.validate_job(&job).is_err());

    // Invalid job - disabled
    let mut job = Job::new("test-job".to_string(), "echo".to_string());
    job.enabled = false;
    assert!(executor.validate_job(&job).is_err());
}

#[test]
fn test_execute_simple_job() {
    let mut executor = JobExecutor::new();

    let job = Job::new("test-job".to_string(), "echo".to_string()).with_args(vec!["hello".to_string()]);

    let request = executor.execute_job(job).unwrap();
    let job_id = request.job.id.clone();
    executor.begin_job_at(&request, at(100)).unwrap();
    executor.finish_job_at(&job_id, exited(0, "hello\n"), at(100));

    let status = executor.get_job_status(&job_id).unwrap();
    assert!(matches!(status, JobStatus::Completed));
}

#[test]
fn test_execute_failing_job() {
    let mut executor = JobExecutor::new();

    let job = Job::new("test-job".to_string(), "nonexistent-command".to_string());

    let request = executor.execute_job(job).unwrap();
    let job_id = request.job.id.clone();
    executor.begin_job(&request).unwrap();
    executor.finish_job(
        &job_id,
        ProcessOutcome::SpawnFailed { message: "No such file or directory (os error 2)".to_string() },
    );

    let status = executor.get_job_status(&job_id).unwrap();
    assert!(matches!(status, JobStatus::Failed { .. }));
}

#[test]
fn invalid_jobs_are_refused_with_the_reason() {
    let executor = JobExecutor::new();
    let empty = Job::create("e".to_string(), "e".to_string(), "".to_string(), at(0));
    assert_eq!(
        executor.validate_job(&empty),
        Err(ExecutorError::InvalidJob("Command cannot be empty".to_string()))
    );
    let mut off = Job::create("d".to_string(), "d".to_string(), "echo".to_string(), at(0));
    off.enabled = false;
    assert_eq!(
        executor.execute_job(off).unwrap_err(),
        ExecutorError::InvalidJob("Job is disabled".to_string())
    );
    assert_eq!(
        ExecutorError::InvalidJob("Job is disabled".to_string()).describe(),
        "Invalid job configuration: Job is disabled"
    );
    assert_eq!(ExecutorError::JobTimeout("t".to_string()).describe(), "Job timeout: t");
    assert_eq!(REQUEST_QUEUE_CAPACITY, 100);
}

#[test]
fn first_request_has_attempt_one_and_plan_follows_the_job() {
    let mut executor = JobExecutor::new();
    let job = Job::create("p".to_string(), "p".to_string(), "/bin/echo".to_string(), at(0))
        .with_args(vec!["hi".to_string()])
        .with_working_dir("/tmp".to_string())
        .with_env("A".to_string(), "1".to_string())
        .with_resource_limits(ResourceLimits {
            max_cpu: None,
            max_memory: None,
            max_duration: Some(7),
            max_disk_io: None,
        });
    let request = executor.execute_job(job).unwrap();
    assert_eq!(request.attempt, 1);
    let plan = executor.begin_job_at(&request, at(5)).unwrap();
    assert_eq!(
        plan,
        ProcessPlan {
            command: "/bin/echo".to_string(),
            args: vec!["hi".to_string()],
            working_dir: Some("/tmp".to_string()),
            env: vec![("A".to_string(), "1".to_string())],
            timeout: Some(7),
        }
    );
    assert_eq!(executor.get_job_status(&"p".to_string()), Ok(JobStatus::Running));
    assert_eq!(executor.get_job_result(&"p".to_string()), Ok(None));
    assert_eq!(executor.run_attempt(&"p".to_string()), Some((1, 3)));
}

#[test]
fn status_is_scheduled_before_any_run() {
    let executor = JobExecutor::new();
    assert_eq!(executor.get_job_status(&"new".to_string()), Ok(JobStatus::Scheduled));
    assert_eq!(executor.get_job_result(&"new".to_string()), Ok(None));
    assert!(executor.start().is_ok());
}

#[test]
fn job_disabled_at_dispatch_is_skipped() {
    let mut executor = JobExecutor::new();
    let mut job = Job::create("d".to_string(), "d".to_string(), "echo".to_string(), at(0));
    job.enabled = false;
    let request = JobExecutionRequest { job, attempt: 1 };
    assert_eq!(
        executor.begin_job_at(&request, at(1)),
        Err(ExecutorError::InvalidJob("Job is disabled".to_string()))
    );
    assert_eq!(executor.get_job_status(&"d".to_string()), Ok(JobStatus::Scheduled));
}

#[test]
fn record_of_a_completed_run() {
    let result = JobExecutor::execute_single_job(
        "j".to_string(),
        Timestamp::new(10, 500_000_000),
        Timestamp::new(13, 400_000_000),
        exited(0, "hi\n"),
    );
    assert_eq!(result.job_id, "j");
    assert_eq!(result.status, JobStatus::Completed);
    assert_eq!(result.exit_code, Some(0));
    assert_eq!(result.stdout, "hi\n");
    assert_eq!(result.started_at, Timestamp::new(10, 500_000_000));
    assert_eq!(result.ended_at, Some(Timestamp::new(13, 400_000_000)));
    assert_eq!(
        result.resource_usage,
        Some(ResourceUsage { cpu_percent: 0, memory_mb: 0, duration_seconds: 2, disk_io_mb: 0 })
    );
}

#[test]
fn record_of_failed_runs() {
    let failed = JobExecutor::execute_single_job("j".to_string(), at(1), at(2), exited(3, ""));
    assert_eq!(failed.status, JobStatus::Failed { error: "Exit code: 3".to_string() });
    assert_eq!(failed.exit_code, Some(3));
    let negative = JobExecutor::execute_single_job("j".to_string(), at(1), at(2), exited(-128, ""));
    assert_eq!(negative.status, JobStatus::Failed { error: "Exit code: -128".to_string() });
    let lowest = JobExecutor::execute_single_job("j".to_string(), at(1), at(2), exited(i32::MIN, ""));
    assert_eq!(lowest.status, JobStatus::Failed { error: "Exit code: -2147483648".to_string() });
    let killed = JobExecutor::execute_single_job(
        "j".to_string(),
        at(1),
        at(2),
        ProcessOutcome::Exited { code: None, stdout: String::new(), stderr: "x".to_string() },
    );
    assert_eq!(killed.status, JobStatus::Failed { error: "Exit code: -1".to_string() });
    assert_eq!(killed.exit_code, None);
    assert_eq!(killed.stderr, "x");
    let spawn = JobExecutor::execute_single_job(
        "j".to_string(),
        at(1),
        at(2),
        ProcessOutcome::SpawnFailed { message: "os error 2".to_string() },
    );
    assert_eq!(spawn.status, JobStatus::Failed { error: "os error 2".to_string() });
    assert_eq!(spawn.stderr, "os error 2");
    assert_eq!(spawn.resource_usage, None);
    let timeout = JobExecutor::execute_single_job("j".to_string(), at(1), at(2), ProcessOutcome::TimedOut);
    assert_eq!(timeout.status, JobStatus::Failed { error: "timeout".to_string() });
    let nodir = JobExecutor::execute_single_job(
        "j".to_string(),
        at(1),
        at(2),
        ProcessOutcome::MissingWorkingDir,
    );
    assert_eq!(nodir.status, JobStatus::Failed { error: "no such working directory".to_string() });
}

#[test]
fn run_never_ends_before_it_started() {
    // The clock went back between the start and the report.
    let result = JobExecutor::execute_single_job("j".to_string(), at(100), at(90), exited(0, ""));
    assert_eq!(result.started_at, at(100));
    assert_eq!(result.ended_at, Some(at(100)));
    assert_eq!(result.resource_usage.unwrap().duration_seconds, 0);
    assert!(result.status.is_terminal());
}

#[test]
fn retry_delay_doubles_up_to_the_longest() {
    let policy =
        RetryPolicy { max_attempts: 10, delay: 60, exponential_backoff: true, max_delay: Some(3600) };
    let job = job_with_policy("r", policy);
    let delays: Vec<u64> = (1..=8).map(|a| JobExecutor::calculate_retry_delay(&job, a)).collect();
    assert_eq!(delays, vec![60, 120, 240, 480, 960, 1920, 3600, 3600]);
    assert_eq!(JobExecutor::calculate_retry_delay(&job, 0), 60);
    assert_eq!(JobExecutor::calculate_retry_delay(&job, u32::MAX), 3600);
}

#[test]
fn retry_delay_without_backoff_or_limit() {
    let flat = job_with_policy(
        "f",
        RetryPolicy { max_attempts: 3, delay: 7, exponential_backoff: false, max_delay: Some(1) },
    );
    assert_eq!(JobExecutor::calculate_retry_delay(&flat, 5), 7);
    let open = job_with_policy(
        "o",
        RetryPolicy { max_attempts: 3, delay: 3, exponential_backoff: true, max_delay: None },
    );
    assert_eq!(JobExecutor::calculate_retry_delay(&open, 4), 24);
    assert_eq!(JobExecutor::calculate_retry_delay(&open, 63), 3 << 62);
    assert_eq!(JobExecutor::calculate_retry_delay(&open, 64), u64::MAX);
    assert_eq!(JobExecutor::calculate_retry_delay(&open, 4_000_000_000), u64::MAX);
    let none = job_with_policy(
        "n",
        RetryPolicy { max_attempts: 3, delay: 0, exponential_backoff: true, max_delay: None },
    );
    assert_eq!(JobExecutor::calculate_retry_delay(&none, 4_000_000_000), 0);
}

#[test]
fn failing_job_runs_as_often_as_its_policy_allows() {
    let mut executor = JobExecutor::new();
    let policy = RetryPolicy { max_attempts: 3, delay: 1, exponential_backoff: true, max_delay: None };
    let id = "flaky".to_string();
    let mut request = executor.execute_job(job_with_policy("flaky", policy)).unwrap();
    let mut clock = 0;
    let mut starts = Vec::new();
    let mut attempts = Vec::new();
    loop {
        starts.push(clock);
        attempts.push(request.attempt);
        executor.begin_job_at(&request, at(clock)).unwrap();
        match executor.finish_job_at(&id, exited(1, ""), at(clock)) {
            NextStep::Retry { request: next, delay } => {
                assert_eq!(
                    executor.get_job_status(&id),
                    Ok(JobStatus::Failed { error: "Exit code: 1".to_string() })
                );
                clock += delay as i64;
                request = next;
            }
            NextStep::Done => break,
        }
    }
    assert_eq!(attempts, vec![1, 2, 3]);
    assert_eq!(starts, vec![0, 1, 3]);
    let last = executor.get_job_result(&id).unwrap().unwrap();
    assert_eq!(last.status, JobStatus::Failed { error: "Exit code: 1".to_string() });
    assert_eq!(last.started_at, at(3));
}

#[test]
fn completed_run_is_not_tried_again() {
    let mut executor = JobExecutor::new();
    let request = executor
        .execute_job(job_with_policy("ok", RetryPolicy::default()))
        .unwrap();
    executor.begin_job_at(&request, at(0)).unwrap();
    assert!(matches!(executor.finish_job_at(&"ok".to_string(), exited(0, ""), at(1)), NextStep::Done));
    // A report for a job that does not run changes nothing.
    assert!(matches!(executor.finish_job_at(&"ok".to_string(), exited(1, ""), at(2)), NextStep::Done));
    assert_eq!(executor.get_job_status(&"ok".to_string()), Ok(JobStatus::Completed));
}

#[test]
fn cancelled_run_is_recorded() {
    let mut executor = JobExecutor::new();
    let job = Job::create("s".to_string(), "s".to_string(), "/bin/sleep".to_string(), at(0))
        .with_args(vec!["60".to_string()]);
    let request = executor.execute_job(job).unwrap();
    executor.begin_job_at(&request, at(1000)).unwrap();
    assert!(executor.cancel_job_at(&"s".to_string(), at(1001)).is_ok());
    let result = executor.get_job_result(&"s".to_string()).unwrap().unwrap();
    assert_eq!(result.status, JobStatus::Cancelled);
    assert_eq!(result.started_at, at(1000));
    assert_eq!(result.ended_at, Some(at(1001)));
    assert_eq!(result.stderr, "Job cancelled");
    assert_eq!(result.exit_code, None);
    assert_eq!(executor.get_job_status(&"s".to_string()), Ok(JobStatus::Cancelled));
    // The process ends later; its outcome does not count any more.
    assert!(matches!(executor.finish_job_at(&"s".to_string(), exited(1, ""), at(1060)), NextStep::Done));
    assert_eq!(executor.get_job_status(&"s".to_string()), Ok(JobStatus::Cancelled));
    // Cancelling a job that does not run is no error.
    assert!(executor.cancel_job(&"s".to_string()).is_ok());
    assert!(executor.cancel_job_at(&"ghost".to_string(), at(1)).is_ok());
    assert_eq!(executor.get_job_status(&"ghost".to_string()), Ok(JobStatus::Scheduled));
}

#[test]
fn stop_cancels_every_run() {
    let mut executor = JobExecutor::new();
    for id in ["a", "b"] {
        let job = Job::create(id.to_string(), id.to_string(), "/bin/sleep".to_string(), at(0));
        let request = executor.execute_job(job).unwrap();
        executor.begin_job_at(&request, at(10)).unwrap();
    }
    assert!(executor.stop_at(at(20)).is_ok());
    for id in ["a", "b"] {
        let result = executor.get_job_result(&id.to_string()).unwrap().unwrap();
        assert_eq!(result.status, JobStatus::Cancelled);
        assert_eq!(result.ended_at, Some(at(20)));
        assert_eq!(executor.run_attempt(&id.to_string()), None);
    }
    assert!(executor.stop().is_ok());
}
