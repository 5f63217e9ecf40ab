use rae_agent::scheduler::job::JobStatus;
use rae_agent::scheduler::monitor::{
    HealthWarning, JobMonitor, MonitorError, MonitorStats, Ratio,
};
use rae_agent::scheduler::time::Timestamp;

fn secs(s: i64) -> Timestamp {
    Timestamp::new(s, 0)
}

#[test]
fn test_track_and_untrack_job() {
    let mut monitor = JobMonitor::new();

    let job_id = "test-job".to_string();

    // Track job
    assert!(monitor.track_job(job_id.clone()).is_ok());

    // Check if job is tracked
    let tracked_jobs = monitor.get_tracked_jobs();
    assert_eq!(tracked_jobs.len(), 1);
    assert_eq!(tracked_jobs[0].job_id, job_id);

    // Untrack job
    assert!(monitor.untrack_job(&job_id).is_ok());

    // Check if job is no longer tracked
    let tracked_jobs = monitor.get_tracked_jobs();
    assert_eq!(tracked_jobs.len(), 0);
}

#[test]
fn test_update_job_status() {
    let mut monitor = JobMonitor::new();

    let job_id = "test-job".to_string();

    // Track job
    monitor.track_job(job_id.clone()).unwrap();

    // Update status
    let new_status = JobStatus::Running;
    assert!(monitor.update_job_status(&job_id, new_status.clone()).is_ok());

    // Check status
    let status = monitor.get_job_status(&job_id).unwrap();
    assert!(matches!(status, JobStatus::Running));
}

#[test]
fn test_get_job_health() {
    let mut monitor = JobMonitor::new();

    let job_id = "test-job".to_string();

    // Track job
    monitor.track_job(job_id.clone()).unwrap();

    // Get health
    let health = monitor.get_job_health(&job_id).unwrap();
    assert_eq!(health.job_id, job_id);
    assert_eq!(health.execution_count, 0);
    assert_eq!(health.failure_count, 0);
}

#[test]
fn test_get_stats() {
    let mut monitor = JobMonitor::new();

    let job_id = "test-job".to_string();

    // Track job
    monitor.track_job(job_id.clone()).unwrap();

    // Get stats
    let stats = monitor.get_stats();
    assert_eq!(stats.total_jobs, 1);
    assert_eq!(stats.running_jobs, 0);
}

#[test]
fn test_start_and_stop_monitor() {
    let mut monitor = JobMonitor::new();

    // Start monitor
    assert!(monitor.start().is_ok());
    assert!(monitor.is_active());

    // Stop monitor
    assert!(monitor.stop().is_ok());
    assert!(!monitor.is_active());
}

#[test]
fn unknown_job_is_not_found() {
    let monitor = JobMonitor::new();
    assert_eq!(
        monitor.get_job_status(&"ghost".to_string()),
        Err(MonitorError::JobNotFound("ghost".to_string()))
    );
    assert_eq!(
        monitor.get_job_health(&"ghost".to_string()).unwrap_err(),
        MonitorError::JobNotFound("ghost".to_string())
    );
    assert_eq!(MonitorError::JobNotFound("ghost".to_string()).describe(), "Job not found: ghost");
}

#[test]
fn status_reports_count_executions_and_failures() {
    let mut monitor = JobMonitor::new();
    let id = "j".to_string();
    monitor.track_job_at(id.clone(), secs(10)).unwrap();
    monitor.update_job_status_at(&id, JobStatus::Running, secs(11)).unwrap();
    monitor.update_job_status_at(&id, JobStatus::Completed, secs(12)).unwrap();
    monitor.update_job_status_at(&id, JobStatus::Failed { error: "x".to_string() }, secs(13)).unwrap();
    monitor.update_job_status_at(&id, JobStatus::Failed { error: "y".to_string() }, secs(14)).unwrap();
    let health = monitor.get_job_health(&id).unwrap();
    assert_eq!(health.execution_count, 1);
    assert_eq!(health.failure_count, 2);
    assert_eq!(health.last_execution, Some(secs(12)));
    assert_eq!(health.last_check, secs(14));
    assert_eq!(health.status, JobStatus::Failed { error: "y".to_string() });
    // A report for a job that is not tracked changes nothing.
    assert!(monitor.update_job_status_at(&"ghost".to_string(), JobStatus::Completed, secs(15)).is_ok());
    assert_eq!(monitor.get_tracked_jobs().len(), 1);
}

#[test]
fn tracking_again_starts_anew_in_place() {
    let mut monitor = JobMonitor::new();
    monitor.track_job_at("a".to_string(), secs(1)).unwrap();
    monitor.track_job_at("b".to_string(), secs(2)).unwrap();
    monitor.update_job_status_at(&"a".to_string(), JobStatus::Completed, secs(3)).unwrap();
    monitor.track_job_at("a".to_string(), secs(4)).unwrap();
    let jobs = monitor.get_tracked_jobs();
    assert_eq!(jobs.len(), 2);
    assert_eq!(jobs[0].job_id, "a");
    assert_eq!(jobs[0].execution_count, 0);
    assert_eq!(jobs[0].status, JobStatus::Scheduled);
    assert_eq!(jobs[0].last_check, secs(4));
    assert_eq!(jobs[1].job_id, "b");
}

#[test]
fn statistics_follow_the_tracked_jobs() {
    let mut monitor = JobMonitor::new();
    assert_eq!(monitor.get_stats(), MonitorStats::default());
    for id in ["a", "b", "c", "d", "e"] {
        monitor.track_job_at(id.to_string(), secs(0)).unwrap();
    }
    // a: completed three times
    for t in 1..=3 {
        monitor.update_job_status_at(&"a".to_string(), JobStatus::Completed, secs(t)).unwrap();
    }
    // b: completed once, then failed once; it ends as failed
    monitor.update_job_status_at(&"b".to_string(), JobStatus::Completed, secs(4)).unwrap();
    monitor.update_job_status_at(&"b".to_string(), JobStatus::Failed { error: "e".to_string() }, secs(5)).unwrap();
    monitor.update_job_status_at(&"c".to_string(), JobStatus::Running, secs(6)).unwrap();
    monitor.update_job_status_at(&"d".to_string(), JobStatus::Cancelled, secs(7)).unwrap();
    let stats = monitor.get_stats();
    assert_eq!(stats.total_jobs, 5);
    assert_eq!(stats.running_jobs, 1);
    assert_eq!(stats.completed_jobs, 1);
    assert_eq!(stats.failed_jobs, 1);
    assert_eq!(stats.cancelled_jobs, 1);
    // three executions of completed jobs, one failure of failed jobs
    assert_eq!(stats.success_rate, Ratio { numerator: 2, denominator: 3 });
    assert_eq!(stats.average_execution_time, Ratio { numerator: 0, denominator: 5 });
    assert_eq!(monitor.update_stats(), stats);
}

#[test]
fn success_rate_is_zero_without_executions() {
    let mut monitor = JobMonitor::new();
    monitor.track_job_at("a".to_string(), secs(0)).unwrap();
    monitor.update_job_status_at(&"a".to_string(), JobStatus::Failed { error: "e".to_string() }, secs(1)).unwrap();
    assert_eq!(monitor.get_stats().success_rate, Ratio { numerator: 0, denominator: 0 });
}

#[test]
fn health_check_warns_of_stuck_and_failing_jobs() {
    let mut monitor = JobMonitor::new();
    for id in ["stuck", "fine", "flaky"] {
        monitor.track_job_at(id.to_string(), secs(0)).unwrap();
    }
    monitor.update_job_status_at(&"stuck".to_string(), JobStatus::Completed, secs(100)).unwrap();
    monitor.update_job_status_at(&"stuck".to_string(), JobStatus::Running, secs(200)).unwrap();
    monitor.update_job_status_at(&"fine".to_string(), JobStatus::Completed, secs(100)).unwrap();
    monitor.update_job_status_at(&"fine".to_string(), JobStatus::Running, secs(200)).unwrap();
    monitor.update_job_status_at(&"flaky".to_string(), JobStatus::Completed, secs(100)).unwrap();
    monitor.update_job_status_at(&"flaky".to_string(), JobStatus::Failed { error: "e".to_string() }, secs(101)).unwrap();

    // Exactly 60 minutes after the last execution: not older than 60 minutes.
    let warnings = monitor.perform_health_checks(secs(100 + 3600));
    assert_eq!(
        warnings,
        vec![HealthWarning::HighFailureRate {
            job_id: "flaky".to_string(),
            failure_count: 1,
            execution_count: 1
        }]
    );
    monitor.untrack_job(&"fine".to_string()).unwrap();
    let warnings = monitor.perform_health_checks(secs(100 + 3601));
    assert_eq!(
        warnings,
        vec![
            HealthWarning::StuckJob { job_id: "stuck".to_string(), minutes: 60 },
            HealthWarning::HighFailureRate {
                job_id: "flaky".to_string(),
                failure_count: 1,
                execution_count: 1
            }
        ]
    );
    for health in monitor.get_tracked_jobs() {
        assert_eq!(health.last_check, secs(100 + 3601));
    }
}

#[test]
fn half_of_the_executions_failing_is_no_warning() {
    let mut monitor = JobMonitor::new();
    monitor.track_job_at("j".to_string(), secs(0)).unwrap();
    monitor.update_job_status_at(&"j".to_string(), JobStatus::Completed, secs(1)).unwrap();
    monitor.update_job_status_at(&"j".to_string(), JobStatus::Completed, secs(2)).unwrap();
    monitor.update_job_status_at(&"j".to_string(), JobStatus::Failed { error: "e".to_string() }, secs(3)).unwrap();
    assert!(monitor.perform_health_checks(secs(4)).is_empty());
}

#[test]
fn health_check_interval_defaults_to_thirty_seconds() {
    let mut monitor = JobMonitor::new();
    assert_eq!(monitor.get_health_check_interval(), 30);
    monitor.set_health_check_interval(5);
    assert_eq!(monitor.get_health_check_interval(), 5);
    assert!(!monitor.is_active());
}
