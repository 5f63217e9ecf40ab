use rae_agent::scheduler::job::{EventTrigger, EventType, PatternTrigger, PatternType};
use rae_agent::scheduler::parser::Parser;

#[test]
fn test_parse_cron() {
    let result = Parser::parse_cron("0 18 * * *");
    assert!(result.is_ok());

    let result = Parser::parse_cron("invalid");
    assert!(result.is_err());
}

#[test]
fn test_parse_time() {
    let result = Parser::parse_time("2024-01-01T18:00:00Z");
    assert!(result.is_ok());

    let result = Parser::parse_time("invalid");
    assert!(result.is_err());
}

#[test]
fn test_parse_human_time() {
    let result = Parser::parse_human_time("in 5 minutes");
    assert!(result.is_ok());

    let result = Parser::parse_human_time("tomorrow at 18:00");
    assert!(result.is_ok());

    let result = Parser::parse_human_time("invalid");
    assert!(result.is_err());
}

#[test]
fn test_validate_event_trigger() {
    let event = EventTrigger {
        event_type: EventType::FileCreated,
        path: Some("/tmp/test".to_string()),
        filter: None,
    };
    assert!(Parser::validate_event_trigger(&event).is_ok());

    let event = EventTrigger {
        event_type: EventType::FileCreated,
        path: None,
        filter: None,
    };
    assert!(Parser::validate_event_trigger(&event).is_err());
}

#[test]
fn test_validate_pattern_trigger() {
    let pattern = PatternTrigger {
        pattern_type: PatternType::HighCpuUsage,
        threshold: 80,
        window: 300,
    };
    assert!(Parser::validate_pattern_trigger(&pattern).is_ok());

    let pattern = PatternTrigger {
        pattern_type: PatternType::HighCpuUsage,
        threshold: -1,
        window: 300,
    };
    assert!(Parser::validate_pattern_trigger(&pattern).is_err());
}
