use rae_agent::config::{Config, PrivacyLevel};
use rae_agent::scheduler::cli::{
    add_job, build_job, disable_job, enable_job, exit_code, get_job_status, init_scheduler,
    job_line, list_jobs, remove_job, start_scheduler, status_to_text, stop_scheduler, EXIT_FAILED,
    EXIT_OK,
};
use rae_agent::scheduler::job::{
    EventTrigger, EventType, Job, JobResult, JobStatus, PatternTrigger, PatternType, Priority,
    ResourceLimits, ResourceUsage, RetryPolicy, Schedule,
};
use rae_agent::scheduler::text::{
    comes_before, integer_to_text, is_keyword, natural_to_text, parse_integer, same_text,
    split_words,
};
use rae_agent::scheduler::time::{earliest_of, Timestamp};
use rae_agent::scheduler::{JobInfo, Scheduler};
use rae_agent::types::{ModuleInfo, ModuleStatus};

// 2024-01-01T00:00:00Z
const DAY: i64 = 1_704_067_200;

fn at(secs: i64) -> Timestamp {
    Timestamp::new(secs, 0)
}

#[test]
fn new_job_has_defaults_and_a_fresh_identifier() {
    let job = Job::new("name".to_string(), "cmd".to_string());
    let other = Job::new("name".to_string(), "cmd".to_string());
    assert_eq!(job.id.len(), 36);
    assert_eq!(job.id.matches('-').count(), 4);
    assert_ne!(job.id, other.id);
    assert_eq!(job.name, "name");
    assert_eq!(job.command, "cmd");
    assert_eq!(job.description, None);
    assert_eq!(job.schedule, Schedule::default());
    assert!(job.args.is_empty());
    assert!(job.env.is_empty());
    assert_eq!(job.working_dir, None);
    assert_eq!(job.priority, Priority::Normal);
    assert!(job.enabled);
    assert_eq!(job.created_at, job.updated_at);
    // The clock of the system is past the year 2020.
    assert!(job.created_at > at(1_577_836_800));
    assert_eq!(
        job.retry_policy,
        RetryPolicy { max_attempts: 3, delay: 60, exponential_backoff: true, max_delay: Some(3600) }
    );
    assert_eq!(
        job.resource_limits,
        ResourceLimits {
            max_cpu: Some(50),
            max_memory: Some(512),
            max_duration: Some(3600),
            max_disk_io: Some(100)
        }
    );
}

#[test]
fn defaults_of_the_small_types() {
    assert_eq!(Priority::default(), Priority::Normal);
    assert_eq!(JobStatus::default(), JobStatus::Scheduled);
    assert_eq!(
        ResourceUsage::default(),
        ResourceUsage { cpu_percent: 0, memory_mb: 0, duration_seconds: 0, disk_io_mb: 0 }
    );
    assert!(Priority::Low < Priority::Normal);
    assert!(Priority::Normal < Priority::High);
    assert!(Priority::High < Priority::Critical);
    assert_eq!(Priority::Critical.level(), 3);
    assert_eq!(Priority::Low.level(), 0);
    assert!(JobStatus::Completed.is_terminal());
    assert!(JobStatus::Cancelled.is_terminal());
    assert!(JobStatus::Failed { error: String::new() }.is_terminal());
    assert!(!JobStatus::Running.is_terminal());
    assert!(!JobStatus::Scheduled.is_terminal());
    assert!(!JobStatus::Retrying { attempts: 1, max_attempts: 3 }.is_terminal());
}

#[test]
fn builders_set_one_field_each() {
    let base = Job::create("id".to_string(), "n".to_string(), "c".to_string(), at(DAY));
    let event = EventTrigger {
        event_type: EventType::Custom("push".to_string()),
        path: None,
        filter: Some(vec![("branch".to_string(), "main".to_string())]),
    };
    let pattern =
        PatternTrigger { pattern_type: PatternType::HighCpuUsage, threshold: 80, window: 300 };
    let limits =
        ResourceLimits { max_cpu: None, max_memory: Some(1), max_duration: None, max_disk_io: None };
    let policy =
        RetryPolicy { max_attempts: 1, delay: 0, exponential_backoff: false, max_delay: None };
    let job = base
        .clone()
        .with_cron("0 18 * * *".to_string())
        .with_time(at(DAY + 1))
        .with_event(event.clone())
        .with_pattern(pattern.clone())
        .with_timezone("UTC".to_string())
        .with_priority(Priority::Critical)
        .with_retry_policy(policy)
        .with_resource_limits(limits)
        .with_working_dir("/tmp".to_string())
        .with_args(vec!["a".to_string(), "b".to_string()])
        .with_description("d".to_string());
    let expected = Job {
        schedule: Schedule {
            cron: Some("0 18 * * *".to_string()),
            at: Some(at(DAY + 1)),
            event: Some(event),
            pattern: Some(pattern),
            timezone: Some("UTC".to_string()),
        },
        priority: Priority::Critical,
        retry_policy: policy,
        resource_limits: limits,
        working_dir: Some("/tmp".to_string()),
        args: vec!["a".to_string(), "b".to_string()],
        description: Some("d".to_string()),
        ..base
    };
    assert_eq!(job, expected);
    assert_eq!(job.clone(), expected);
}

#[test]
fn environment_variable_is_set_once() {
    let job = Job::create("id".to_string(), "n".to_string(), "c".to_string(), at(DAY))
        .with_env("A".to_string(), "1".to_string())
        .with_env("B".to_string(), "2".to_string())
        .with_env("A".to_string(), "3".to_string());
    assert_eq!(
        job.env,
        vec![("A".to_string(), "3".to_string()), ("B".to_string(), "2".to_string())]
    );
}

#[test]
fn touch_moves_the_modification_instant() {
    let mut job = Job::create("id".to_string(), "n".to_string(), "c".to_string(), at(DAY));
    let before = job.clone();
    job.touch_at(at(DAY + 9));
    assert_eq!(job.updated_at, at(DAY + 9));
    assert_eq!(job.created_at, at(DAY));
    job.touch();
    assert!(job.updated_at > at(DAY + 9));
    job.updated_at = before.updated_at;
    assert_eq!(job, before);
}

#[test]
fn job_result_clones_value_for_value() {
    let result = JobResult {
        job_id: "j".to_string(),
        started_at: at(1),
        ended_at: Some(at(2)),
        exit_code: Some(1),
        stdout: "o".to_string(),
        stderr: "e".to_string(),
        status: JobStatus::Failed { error: "Exit code: 1".to_string() },
        resource_usage: Some(ResourceUsage::default()),
    };
    assert_eq!(result.clone(), result);
}

#[test]
fn instants_are_ordered_by_seconds_then_nanoseconds() {
    let a = Timestamp::new(5, 999_999_999);
    let b = Timestamp::new(6, 0);
    assert!(a.is_before(&b));
    assert!(!b.is_before(&a));
    assert!(!a.is_before(&a));
    assert!(a.is_at_or_before(&a));
    assert!(a.is_at_or_before(&b));
    assert!(Timestamp::new(-1, 5).is_before(&Timestamp::new(0, 0)));
    assert_eq!(a < b, a.is_before(&b));
    assert_eq!(earliest_of(Some(b), Some(a)), Some(a));
    assert_eq!(earliest_of(None, Some(b)), Some(b));
    assert_eq!(earliest_of(Some(b), None), Some(b));
    assert_eq!(earliest_of(None, None), None);
    assert!(Timestamp::new(253_402_300_799, 0).is_in_calendar());
    assert!(!Timestamp::new(253_402_300_800, 0).is_in_calendar());
    assert!(Timestamp::new(-62_167_219_200, 0).is_in_calendar());
    assert!(!Timestamp::new(0, 1_000_000_000).is_in_calendar());
}

#[test]
fn texts_are_ordered_as_in_the_dictionary() {
    assert!(comes_before("a", "b"));
    assert!(comes_before("a", "ab"));
    assert!(comes_before("", "a"));
    assert!(comes_before("Z", "a"));
    assert!(comes_before("abc", "abd"));
    assert!(!comes_before("b", "a"));
    assert!(!comes_before("a", "a"));
    assert!(!comes_before("a", ""));
    assert!(comes_before("z", "é"));
    for (x, y) in [("a", "b"), ("ab", "a"), ("", ""), ("é", "z"), ("10", "9")] {
        assert_eq!(comes_before(x, y), x < y);
    }
    assert!(same_text("héllo", "héllo"));
    assert!(!same_text("hello", "hellp"));
    assert!(!same_text("hello", "hell"));
}

#[test]
fn words_keywords_and_numbers() {
    assert_eq!(split_words("  in \t 5\nminutes "), vec!["in", "5", "minutes"]);
    assert!(split_words(" \t ").is_empty());
    assert_eq!(split_words("one"), vec!["one"]);
    assert!(is_keyword("ToMoRrOw", "tomorrow"));
    assert!(!is_keyword("tomorro", "tomorrow"));
    assert!(!is_keyword("@t", "`t"));
    assert_eq!(parse_integer("42"), Some(42));
    assert_eq!(parse_integer("+42"), Some(42));
    assert_eq!(parse_integer("-42"), Some(-42));
    assert_eq!(parse_integer("007"), Some(7));
    assert_eq!(parse_integer("9223372036854775807"), Some(i64::MAX));
    assert_eq!(parse_integer("-9223372036854775808"), Some(i64::MIN));
    assert_eq!(parse_integer("9223372036854775808"), None);
    assert_eq!(parse_integer("99999999999999999999999999"), None);
    assert_eq!(parse_integer(""), None);
    assert_eq!(parse_integer("-"), None);
    assert_eq!(parse_integer("4 2"), None);
    assert_eq!(parse_integer("4x"), None);
    assert_eq!(parse_integer("٣"), None);
    for text in ["0", "-1", "+7", "123456", "x", "1-", "--1"] {
        assert_eq!(parse_integer(text), text.parse::<i64>().ok());
    }
    assert_eq!(natural_to_text(0), "0");
    assert_eq!(natural_to_text(1905), "1905");
    assert_eq!(natural_to_text(u64::MAX), "18446744073709551615");
    assert_eq!(integer_to_text(-1), "-1");
    assert_eq!(integer_to_text(i64::MIN), "-9223372036854775808");
    assert_eq!(integer_to_text(i64::MAX), "9223372036854775807");
}

#[test]
fn configuration_defaults() {
    let config = Config::default();
    assert_eq!(config.data_dir, "~/.rae");
    assert_eq!(config.log_level, "info");
    assert_eq!(config.privacy_level, PrivacyLevel::Strict);
    assert_eq!(config.max_modules, 10);
    assert_eq!(config.clone(), config);
    let info = ModuleInfo {
        name: "core".to_string(),
        version: "0.1.0".to_string(),
        description: "Core functionality".to_string(),
        permissions: vec!["fs".to_string()],
        status: ModuleStatus::Error("down".to_string()),
    };
    assert_eq!(info.clone(), info);
    assert_ne!(ModuleStatus::Active, ModuleStatus::Inactive);
}

#[test]
fn command_add_makes_the_job_of_its_arguments() {
    let fresh = Job::create("id".to_string(), "backup".to_string(), "/bin/tar".to_string(), at(DAY));
    let job = build_job(
        fresh.clone(),
        "0 3 * * *".to_string(),
        Some(vec!["-c".to_string()]),
        Some("Europe/Berlin".to_string()),
        Some("nightly".to_string()),
    );
    assert_eq!(job.schedule.cron, Some("0 3 * * *".to_string()));
    assert_eq!(job.schedule.timezone, Some("Europe/Berlin".to_string()));
    assert_eq!(job.args, vec!["-c".to_string()]);
    assert_eq!(job.description, Some("nightly".to_string()));
    assert_eq!(job.id, "id");
    let bare = build_job(fresh.clone(), String::new(), None, None, None);
    assert_eq!(bare, fresh);
}

#[test]
fn commands_work_on_the_scheduler_they_are_given() {
    let mut scheduler = init_scheduler("dir".to_string(), Vec::new(), at(DAY));
    assert!(scheduler.is_running());
    let id = add_job(
        &mut scheduler,
        "backup".to_string(),
        "0 3 * * *".to_string(),
        "/bin/tar".to_string(),
        None,
        None,
        None,
    )
    .unwrap();
    assert_eq!(id.len(), 36);
    assert!(add_job(
        &mut scheduler,
        "broken".to_string(),
        "whenever".to_string(),
        "/bin/tar".to_string(),
        None,
        None,
        None
    )
    .is_err());
    assert_eq!(
        list_jobs(&scheduler, false),
        Ok(vec![format!("{} - backup - Scheduled", id)])
    );
    assert_eq!(
        list_jobs(&scheduler, true),
        Ok(vec![format!(
            "ID: {}\nName: backup\nStatus: Scheduled\nSchedule: 0 3 * * *\nCommand: /bin/tar\n---",
            id
        )])
    );
    assert_eq!(
        get_job_status(&scheduler, Some(&id)),
        Ok(format!("Job {} status: Scheduled", id))
    );
    assert_eq!(
        get_job_status(&scheduler, None),
        Ok("Scheduler Status:\nScheduler is running\nTotal jobs: 1\nActive jobs: 1".to_string())
    );
    assert!(get_job_status(&scheduler, Some("ghost")).is_err());
    assert!(disable_job(&mut scheduler, &id, at(DAY + 1)).is_ok());
    assert!(enable_job(&mut scheduler, &id, at(DAY + 2)).is_ok());
    assert!(enable_job(&mut scheduler, "ghost", at(DAY + 2)).is_err());
    assert!(remove_job(&mut scheduler, &id).is_ok());
    assert!(remove_job(&mut scheduler, &id).is_err());
    assert_eq!(list_jobs(&scheduler, false), Ok(Vec::new()));
    assert!(stop_scheduler(&mut scheduler, at(DAY + 3)).is_ok());
    assert!(!scheduler.is_running());
    assert!(start_scheduler(&mut scheduler, Vec::new(), at(DAY + 4)).is_ok());
    assert!(scheduler.is_running());
    assert_eq!(exit_code(false), EXIT_OK);
    assert_eq!(exit_code(true), EXIT_FAILED);
    assert_eq!(EXIT_OK, 0);
    assert_eq!(EXIT_FAILED, 2);
}

#[test]
fn statuses_as_the_listing_shows_them() {
    assert_eq!(status_to_text(&JobStatus::Scheduled), "Scheduled");
    assert_eq!(status_to_text(&JobStatus::Running), "Running");
    assert_eq!(status_to_text(&JobStatus::Completed), "Completed");
    assert_eq!(status_to_text(&JobStatus::Cancelled), "Cancelled");
    assert_eq!(
        status_to_text(&JobStatus::Failed { error: "Exit code: 2".to_string() }),
        "Failed: Exit code: 2"
    );
    assert_eq!(
        status_to_text(&JobStatus::Retrying { attempts: 2, max_attempts: 10 }),
        "Retrying (2/10)"
    );
    let info = JobInfo {
        job: Job::create("i".to_string(), "n".to_string(), "c".to_string(), at(DAY)),
        status: JobStatus::Running,
    };
    assert_eq!(job_line(&info, false), "i - n - Running");
    assert_eq!(
        job_line(&info, true),
        "ID: i\nName: n\nStatus: Running\nSchedule: -\nCommand: c\n---"
    );
    let _ = Scheduler::new("dir".to_string());
}
