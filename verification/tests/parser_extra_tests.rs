use rae_agent::scheduler::job::{
    EventTrigger, EventType, Job, PatternTrigger, PatternType, Schedule,
};
use rae_agent::scheduler::parser::{Parser, ParserError};
use rae_agent::scheduler::recurrence::{fires, next_after, normalize};
use rae_agent::scheduler::time::Timestamp;

// 2024-01-01T00:00:00Z
const DAY: i64 = 1_704_067_200;

fn at(secs: i64) -> Timestamp {
    Timestamp::new(secs, 0)
}

fn cron_schedule(expression: &str) -> Schedule {
    Schedule { cron: Some(expression.to_string()), ..Schedule::default() }
}

#[test]
fn five_fields_get_the_seconds_field() {
    assert_eq!(normalize("0 18 * * *"), "0 0 18 * * *");
    assert_eq!(normalize("  */5   * * * *"), "0   */5   * * * *");
    assert_eq!(normalize("0 0 18 * * *"), "0 0 18 * * *");
    assert_eq!(normalize("0 0 18 * * * 2030"), "0 0 18 * * * 2030");
    assert_eq!(normalize("@daily"), "@daily");
    assert_eq!(Parser::parse_cron("0 18 * * *").unwrap().source, "0 0 18 * * *");
}

#[test]
fn parse_cron_accepts_six_and_seven_fields() {
    assert!(Parser::parse_cron("30 0 18 * * *").is_ok());
    assert!(Parser::parse_cron("0 0 18 * * * 2030").is_ok());
    assert!(Parser::parse_cron("@hourly").is_ok());
    assert!(Parser::parse_cron("*/1 * * * *").is_ok());
    assert!(Parser::parse_cron("61 * * * *").is_err());
    assert!(Parser::parse_cron("").is_err());
}

#[test]
fn parse_cron_rejects_what_never_occurs() {
    // The 30th of February.
    assert_eq!(
        Parser::parse_cron("0 0 0 30 2 *"),
        Err(ParserError::InvalidCronExpression("expression has no occurrence".to_string()))
    );
    let text = match Parser::parse_cron("invalid") {
        Err(ParserError::InvalidCronExpression(text)) => text,
        other => panic!("unexpected {:?}", other),
    };
    assert!(!text.is_empty());
}

#[test]
fn parse_time_gives_the_instant_in_utc() {
    assert_eq!(Parser::parse_time("2024-01-01T18:00:00Z"), Ok(at(DAY + 18 * 3600)));
    assert_eq!(Parser::parse_time("2024-01-01T18:00:00+02:00"), Ok(at(DAY + 16 * 3600)));
    assert_eq!(
        Parser::parse_time("2024-01-01T00:00:00.250Z"),
        Ok(Timestamp::new(DAY, 250_000_000))
    );
    assert!(matches!(Parser::parse_time("2024-01-01 18:00"), Err(ParserError::InvalidTimeFormat(_))));
}

#[test]
fn parse_timezone_knows_iana_names() {
    assert_eq!(Parser::parse_timezone("Europe/Berlin").unwrap().name, "Europe/Berlin");
    assert!(Parser::parse_timezone("UTC").is_ok());
    assert_eq!(
        Parser::parse_timezone("Mars/Olympus"),
        Err(ParserError::InvalidTimezone("failed to parse timezone".to_string()))
    );
}

#[test]
fn next_cron_execution_is_strictly_later() {
    assert_eq!(Parser::next_cron_execution("*/1 * * * *", at(DAY + 5)), Ok(at(DAY + 60)));
    // An instant that is an occurrence itself is followed by the next one.
    assert_eq!(Parser::next_cron_execution("*/1 * * * *", at(DAY + 60)), Ok(at(DAY + 120)));
    assert_eq!(
        Parser::next_cron_execution("*/1 * * * *", Timestamp::new(DAY + 59, 999_999_999)),
        Ok(at(DAY + 60))
    );
    // No occurrence is left after the year of the expression: the instant comes back.
    assert_eq!(Parser::next_cron_execution("0 0 0 1 1 * 2020", at(DAY)), Ok(at(DAY)));
    assert!(matches!(
        Parser::next_cron_execution("nonsense", at(DAY)),
        Err(ParserError::InvalidCronExpression(_))
    ));
}

#[test]
fn successive_occurrences_rise() {
    let schedule = cron_schedule("15 */6 * * *");
    let mut last = at(DAY);
    let mut seen = Vec::new();
    for _ in 0..5 {
        let next = Parser::next_execution(&schedule, last).unwrap().unwrap();
        assert!(last < next);
        seen.push(next.secs - DAY);
        last = next;
    }
    assert_eq!(seen, vec![900, 6 * 3600 + 900, 12 * 3600 + 900, 18 * 3600 + 900, 24 * 3600 + 900]);
}

#[test]
fn next_execution_takes_the_earlier_of_cron_and_instant() {
    let mut schedule = cron_schedule("0 18 * * *");
    assert_eq!(Parser::next_execution(&schedule, at(DAY)), Ok(Some(at(DAY + 18 * 3600))));
    schedule.at = Some(at(DAY + 3600));
    assert_eq!(Parser::next_execution(&schedule, at(DAY)), Ok(Some(at(DAY + 3600))));
    // The instant has passed: only the expression is left.
    assert_eq!(Parser::next_execution(&schedule, at(DAY + 3600)), Ok(Some(at(DAY + 18 * 3600))));
    schedule.at = Some(at(DAY + 20 * 3600));
    assert_eq!(Parser::next_execution(&schedule, at(DAY)), Ok(Some(at(DAY + 18 * 3600))));
}

#[test]
fn next_execution_of_events_and_patterns_is_none() {
    let schedule = Schedule {
        event: Some(EventTrigger { event_type: EventType::SystemStartup, path: None, filter: None }),
        pattern: Some(PatternTrigger {
            pattern_type: PatternType::HighMemoryUsage,
            threshold: 90,
            window: 60,
        }),
        ..Schedule::default()
    };
    assert_eq!(Parser::next_execution(&schedule, at(DAY)), Ok(None));
    assert_eq!(Parser::next_execution(&Schedule::default(), at(DAY)), Ok(None));
    let once = Schedule { at: Some(at(DAY)), ..Schedule::default() };
    assert_eq!(Parser::next_execution(&once, at(DAY)), Ok(None));
    assert_eq!(Parser::next_execution(&once, at(DAY - 1)), Ok(Some(at(DAY))));
}

#[test]
fn cron_is_read_in_the_zone_of_the_schedule() {
    let mut schedule = cron_schedule("0 18 * * *");
    schedule.timezone = Some("America/New_York".to_string());
    // 18:00 in New York is 23:00 UTC in winter.
    assert_eq!(Parser::next_execution(&schedule, at(DAY)), Ok(Some(at(DAY + 23 * 3600))));
    assert_eq!(next_after("0 18 * * *", "Asia/Tokyo", at(DAY)), Some(at(DAY + 9 * 3600)));
    schedule.timezone = Some("Nowhere/Land".to_string());
    assert!(matches!(
        Parser::next_execution(&schedule, at(DAY)),
        Err(ParserError::InvalidTimezone(_))
    ));
    schedule.cron = Some("bad".to_string());
    assert!(matches!(
        Parser::next_execution(&schedule, at(DAY)),
        Err(ParserError::InvalidCronExpression(_))
    ));
}

#[test]
fn no_occurrence_outside_the_four_digit_years() {
    assert_eq!(next_after("* * * * *", "UTC", at(253_402_300_800)), None);
    assert_eq!(next_after("* * * * *", "UTC", at(-62_167_219_201)), None);
    assert_eq!(next_after("* * * * *", "UTC", Timestamp::new(DAY, 1_000_000_000)), None);
}

#[test]
fn fires_tells_whether_an_instant_is_an_occurrence() {
    assert!(fires("0 18 * * *", "UTC", at(DAY + 18 * 3600)));
    assert!(!fires("0 18 * * *", "UTC", at(DAY + 18 * 3600 + 1)));
    assert!(fires("0 18 * * *", "America/New_York", at(DAY + 23 * 3600)));
    assert!(!fires("0 18 * * *", "Nowhere/Land", at(DAY + 18 * 3600)));
}

#[test]
fn validate_schedule_reports_the_first_fault() {
    assert_eq!(Parser::validate_schedule(&Schedule::default()), Ok(()));
    let mut schedule = Schedule {
        cron: Some("bad".to_string()),
        timezone: Some("Nowhere/Land".to_string()),
        event: Some(EventTrigger { event_type: EventType::FileDeleted, path: None, filter: None }),
        pattern: Some(PatternTrigger {
            pattern_type: PatternType::Custom("load".to_string()),
            threshold: 1,
            window: 0,
        }),
        at: None,
    };
    assert!(matches!(
        Parser::validate_schedule(&schedule),
        Err(ParserError::InvalidCronExpression(_))
    ));
    schedule.cron = Some("0 18 * * *".to_string());
    assert!(matches!(Parser::validate_schedule(&schedule), Err(ParserError::InvalidTimezone(_))));
    schedule.timezone = Some("Europe/Paris".to_string());
    assert_eq!(
        Parser::validate_schedule(&schedule),
        Err(ParserError::InvalidEventTrigger("File events require a path".to_string()))
    );
    schedule.event = Some(EventTrigger {
        event_type: EventType::FileDeleted,
        path: Some("/tmp".to_string()),
        filter: None,
    });
    assert_eq!(
        Parser::validate_schedule(&schedule),
        Err(ParserError::InvalidPatternTrigger("Window must be greater than 0".to_string()))
    );
    schedule.pattern = None;
    assert_eq!(Parser::validate_schedule(&schedule), Ok(()));
}

#[test]
fn event_triggers_of_the_system_need_no_path() {
    for event_type in [
        EventType::SystemStartup,
        EventType::SystemShutdown,
        EventType::Custom("deploy".to_string()),
    ] {
        let event = EventTrigger { event_type, path: None, filter: None };
        assert!(Parser::validate_event_trigger(&event).is_ok());
    }
    for event_type in [EventType::FileModified, EventType::FileDeleted] {
        let event = EventTrigger { event_type, path: None, filter: None };
        assert_eq!(
            Parser::validate_event_trigger(&event),
            Err(ParserError::InvalidEventTrigger("File events require a path".to_string()))
        );
    }
}

#[test]
fn pattern_trigger_needs_threshold_and_window() {
    let zero = PatternTrigger { pattern_type: PatternType::FrequentFileAccess, threshold: 0, window: 1 };
    assert!(Parser::validate_pattern_trigger(&zero).is_ok());
    let negative = PatternTrigger { pattern_type: PatternType::HighCpuUsage, threshold: -5, window: 0 };
    assert_eq!(
        Parser::validate_pattern_trigger(&negative),
        Err(ParserError::InvalidPatternTrigger("Threshold must be non-negative".to_string()))
    );
    let empty = PatternTrigger { pattern_type: PatternType::HighCpuUsage, threshold: 5, window: 0 };
    assert_eq!(
        Parser::validate_pattern_trigger(&empty),
        Err(ParserError::InvalidPatternTrigger("Window must be greater than 0".to_string()))
    );
}

#[test]
fn format_cron_shows_the_next_three_occurrences() {
    assert_eq!(
        Parser::format_cron_at("0 18 * * *", at(DAY + 5)),
        Ok("0 18 * * * (next: 2024-01-01 18:00:00, 2024-01-02 18:00:00, 2024-01-03 18:00:00)"
            .to_string())
    );
    assert_eq!(
        Parser::format_cron_at("0 0 0 1 1 * 2025", at(DAY)),
        Ok("0 0 0 1 1 * 2025 (next: 2025-01-01 00:00:00)".to_string())
    );
    assert_eq!(
        Parser::format_cron_at("0 0 0 1 1 * 2020", at(DAY)),
        Ok("0 0 0 1 1 * 2020 (next: )".to_string())
    );
    assert!(Parser::format_cron("0 18 * * *").unwrap().starts_with("0 18 * * * (next: 20"));
    assert!(Parser::format_cron("what").is_err());
}

#[test]
fn human_time_as_date_and_time() {
    let now = at(DAY + 5);
    assert_eq!(
        Parser::parse_human_time_at("2024-01-02 03:04:05", now),
        Ok(at(DAY + 86_400 + 3 * 3600 + 4 * 60 + 5))
    );
    assert_eq!(
        Parser::parse_human_time_at("  2024-01-02    03:04 ", now),
        Ok(at(DAY + 86_400 + 3 * 3600 + 4 * 60))
    );
    assert!(Parser::parse_human_time_at("2024-13-02 03:04:05", now).is_err());
}

#[test]
fn human_time_as_time_of_today() {
    let now = at(DAY + 5 * 3600 + 17);
    assert_eq!(Parser::parse_human_time_at("18:30", now), Ok(at(DAY + 18 * 3600 + 30 * 60)));
    assert_eq!(Parser::parse_human_time_at("18:30:15", now), Ok(at(DAY + 18 * 3600 + 30 * 60 + 15)));
    assert_eq!(Parser::parse_human_time_at("today at 06:00", now), Ok(at(DAY + 6 * 3600)));
    assert_eq!(
        Parser::parse_human_time_at("Tomorrow AT 18:00", now),
        Ok(at(DAY + 86_400 + 18 * 3600))
    );
    assert!(Parser::parse_human_time_at("tomorrow at 25:00", now).is_err());
    assert!(Parser::parse_human_time_at("tomorrow 18:00", now).is_err());
    // Before the epoch the day still starts at midnight.
    assert_eq!(Parser::parse_human_time_at("00:00", at(-1)), Ok(at(-86_400)));
}

#[test]
fn human_time_relative_to_now() {
    let now = Timestamp::new(DAY + 5, 123);
    assert_eq!(Parser::parse_human_time_at("in 5 minutes", now), Ok(Timestamp::new(DAY + 305, 123)));
    assert_eq!(Parser::parse_human_time_at("in 1 minute", now), Ok(Timestamp::new(DAY + 65, 123)));
    assert_eq!(
        Parser::parse_human_time_at("IN 2 Hours", now),
        Ok(Timestamp::new(DAY + 5 + 7200, 123))
    );
    assert_eq!(
        Parser::parse_human_time_at(" in   3 days ", now),
        Ok(Timestamp::new(DAY + 5 + 3 * 86_400, 123))
    );
    assert_eq!(Parser::parse_human_time_at("in -1 hour", now), Ok(Timestamp::new(DAY + 5 - 3600, 123)));
    assert!(Parser::parse_human_time_at("in five minutes", now).is_err());
    assert!(Parser::parse_human_time_at("in 5 weeks", now).is_err());
    assert!(Parser::parse_human_time_at("in 5 minutes please", now).is_err());
    // A number of days that leaves the range of the seconds.
    assert!(Parser::parse_human_time_at("in 9223372036854775807 days", now).is_err());
}

#[test]
fn human_time_error_names_the_text() {
    assert_eq!(
        Parser::parse_human_time_at("next week", at(DAY)),
        Err(ParserError::InvalidTimeFormat("Could not parse time string: next week".to_string()))
    );
    assert_eq!(
        ParserError::InvalidTimeFormat("x".to_string()).describe(),
        "Invalid time format: x"
    );
    assert_eq!(
        ParserError::InvalidCronExpression("x".to_string()).describe(),
        "Invalid cron expression: x"
    );
    assert_eq!(ParserError::InvalidTimezone("x".to_string()).describe(), "Invalid timezone: x");
    assert_eq!(
        ParserError::InvalidEventTrigger("x".to_string()).describe(),
        "Invalid event trigger: x"
    );
    assert_eq!(
        ParserError::InvalidPatternTrigger("x".to_string()).describe(),
        "Invalid pattern trigger: x"
    );
}

#[test]
fn job_should_execute_at_its_occurrences() {
    let job = Job::create("j".to_string(), "j".to_string(), "echo".to_string(), at(DAY))
        .with_cron("0 18 * * *".to_string());
    assert!(job.should_execute_at(at(DAY + 18 * 3600)));
    assert!(!job.should_execute_at(at(DAY + 18 * 3600 + 30)));
    assert!(!job.should_execute_now() || job.should_execute_now());
    let once = Job::create("o".to_string(), "o".to_string(), "echo".to_string(), at(DAY))
        .with_time(at(DAY + 10));
    assert!(!once.should_execute_at(at(DAY + 9)));
    assert!(once.should_execute_at(at(DAY + 10)));
    assert!(once.should_execute_at(at(DAY + 11)));
    let mut off = once.clone();
    off.enabled = false;
    assert!(!off.should_execute_at(at(DAY + 11)));
    let zone = job.with_timezone("America/New_York".to_string());
    assert!(zone.should_execute_at(at(DAY + 23 * 3600)));
    assert!(!zone.should_execute_at(at(DAY + 18 * 3600)));
}

#[test]
fn display_line_lists_the_occurrences() {
    assert_eq!(Parser::display("@daily", &Vec::new()), "@daily (next: )");
    assert_eq!(Parser::display("@daily", &vec!["a".to_string()]), "@daily (next: a)");
    assert_eq!(
        Parser::display("@daily", &vec!["a".to_string(), "b".to_string(), "c".to_string()]),
        "@daily (next: a, b, c)"
    );
}

#[test]
fn instant_on_a_day_counts_from_midnight() {
    assert_eq!(Parser::on_day_of(at(DAY + 5000), 0, (60, 7)), Some(Timestamp::new(DAY + 60, 7)));
    assert_eq!(Parser::on_day_of(at(DAY + 86_399), 1, (0, 0)), Some(at(DAY + 86_400)));
    assert_eq!(Parser::on_day_of(at(-1), 0, (0, 0)), Some(at(-86_400)));
    assert_eq!(Parser::on_day_of(at(-86_400), 0, (1, 0)), Some(at(-86_399)));
    assert_eq!(Parser::on_day_of(at(i64::MAX), 1, (0, 0)), None);
    assert_eq!(Parser::on_day_of(at(i64::MIN), 0, (0, 0)), None);
    assert_eq!(
        Parser::parse_relative_time("tomorrow at 00:30", at(DAY + 7)),
        Some(at(DAY + 86_400 + 1800))
    );
    assert_eq!(Parser::parse_relative_time("tomorrow", at(DAY + 7)), None);
}

#[test]
fn errors_of_the_outside_parsers_carry_their_message() {
    match Parser::parse_time("yesterday") {
        Err(ParserError::InvalidTimeFormat(text)) => {
            assert!(!text.is_empty());
            assert_ne!(text, "yesterday");
        }
        other => panic!("unexpected {:?}", other),
    }
    match Parser::parse_cron("* * *") {
        Err(ParserError::InvalidCronExpression(text)) => {
            assert!(!text.is_empty());
            assert_ne!(text, "* * *");
        }
        other => panic!("unexpected {:?}", other),
    }
}
