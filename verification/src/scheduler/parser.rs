//! Parser for cron expressions, instants, time zones and triggers.

use vstd::prelude::*;
use vstd::string::*;
use crate::scheduler::calendar::{
    chrono_error_text, cron_accepts, cron_check, cron_error_text, cron_occurrences, cron_upcoming,
    format_with_pattern, parse_rfc3339, parse_time_of_day, parse_with_pattern, pattern_instant,
    pattern_text, pattern_time_of_day, rfc3339_instant, zone_check, zone_error_text, zone_known,
};
use crate::scheduler::job::{
    EventTrigger, EventTriggerView, EventType, PatternTrigger, PatternTriggerView, Schedule,
    ScheduleView,
};
use crate::scheduler::recurrence::{
    expression_valid, next_after, next_occurrence, normalize, normalized, utc_zone,
};
use crate::scheduler::text::{
    i64_of, is_keyword, parse_integer, same_ignoring_case, split_words, texts, words,
};
use crate::scheduler::time::{
    current_time, earliest, earliest_of, Timestamp, SECONDS_PER_DAY,
};

verus! {

/// Errors that can occur during parsing, each with its message.
#[derive(Debug, PartialEq, Eq)]
pub enum ParserError {
    InvalidCronExpression(String),
    InvalidTimeFormat(String),
    InvalidTimezone(String),
    InvalidEventTrigger(String),
    InvalidPatternTrigger(String),
}

/// A parser error, with the message as a sequence of characters.
pub enum ParserErrorView {
    InvalidCronExpression(Seq<char>),
    InvalidTimeFormat(Seq<char>),
    InvalidTimezone(Seq<char>),
    InvalidEventTrigger(Seq<char>),
    InvalidPatternTrigger(Seq<char>),
}

impl ParserErrorView {
    /// The error as one line of text: what went wrong, a colon, the message.
    pub open spec fn text(self) -> Seq<char> {
        match self {
            ParserErrorView::InvalidCronExpression(m) => "Invalid cron expression: "@ + m,
            ParserErrorView::InvalidTimeFormat(m) => "Invalid time format: "@ + m,
            ParserErrorView::InvalidTimezone(m) => "Invalid timezone: "@ + m,
            ParserErrorView::InvalidEventTrigger(m) => "Invalid event trigger: "@ + m,
            ParserErrorView::InvalidPatternTrigger(m) => "Invalid pattern trigger: "@ + m,
        }
    }
}

impl View for ParserError {
    type V = ParserErrorView;

    open spec fn view(&self) -> ParserErrorView {
        match *self {
            ParserError::InvalidCronExpression(m) => ParserErrorView::InvalidCronExpression(m@),
            ParserError::InvalidTimeFormat(m) => ParserErrorView::InvalidTimeFormat(m@),
            ParserError::InvalidTimezone(m) => ParserErrorView::InvalidTimezone(m@),
            ParserError::InvalidEventTrigger(m) => ParserErrorView::InvalidEventTrigger(m@),
            ParserError::InvalidPatternTrigger(m) => ParserErrorView::InvalidPatternTrigger(m@),
        }
    }
}

impl ParserError {
    /// The error as one line of text.
    pub fn describe(&self) -> (line: String)
        ensures
            line@ == self@.text(),
    {
        match self {
            ParserError::InvalidCronExpression(m) => String::from_str(
                "Invalid cron expression: ",
            ).concat(m.as_str()),
            ParserError::InvalidTimeFormat(m) => String::from_str("Invalid time format: ").concat(
                m.as_str(),
            ),
            ParserError::InvalidTimezone(m) => String::from_str("Invalid timezone: ").concat(
                m.as_str(),
            ),
            ParserError::InvalidEventTrigger(m) => String::from_str(
                "Invalid event trigger: ",
            ).concat(m.as_str()),
            ParserError::InvalidPatternTrigger(m) => String::from_str(
                "Invalid pattern trigger: ",
            ).concat(m.as_str()),
        }
    }
}

/// A valid cron expression in the six- or seven-field form of the cron crate.
#[derive(Debug, PartialEq, Eq)]
pub struct CronSchedule {
    /// The expression, with the seconds field.
    pub source: String,
}

/// The name of a time zone that the zone database knows.
#[derive(Debug, PartialEq, Eq)]
pub struct TimeZoneName {
    /// The IANA name.
    pub name: String,
}

/// What is wrong with a schedule: the first of these that applies.
pub enum ScheduleFault {
    Cron,
    Timezone,
    Event,
    Pattern,
}

/// An event of a file without the path of the file.
pub open spec fn event_fault(event: EventTriggerView) -> bool {
    event.event_type.is_file_event() && event.path is None
}

/// What is wrong with a pattern trigger, as the message of the error: a
/// negative threshold, or else a window of no seconds.
pub open spec fn pattern_fault(pattern: PatternTriggerView) -> Option<Seq<char>> {
    if pattern.threshold < 0 {
        Some("Threshold must be non-negative"@)
    } else if pattern.window == 0 {
        Some("Window must be greater than 0"@)
    } else {
        None
    }
}

/// What is wrong with a schedule, if anything: the cron expression, the zone,
/// the event trigger and the pattern trigger are looked at in this order.
pub open spec fn schedule_fault(schedule: ScheduleView) -> Option<ScheduleFault> {
    if schedule.cron matches Some(c) && !expression_valid(c) {
        Some(ScheduleFault::Cron)
    } else if schedule.timezone matches Some(z) && !zone_known(z) {
        Some(ScheduleFault::Timezone)
    } else if schedule.event matches Some(e) && event_fault(e) {
        Some(ScheduleFault::Event)
    } else if schedule.pattern matches Some(p) && pattern_fault(p) is Some {
        Some(ScheduleFault::Pattern)
    } else {
        None
    }
}

/// The next occurrence of the cron expression of a schedule strictly after
/// `after`, read in the zone of the schedule.
pub open spec fn cron_part(schedule: ScheduleView, after: Timestamp) -> Option<Timestamp> {
    match schedule.cron {
        Some(c) => next_occurrence(c, schedule.zone(), after),
        None => None,
    }
}

/// The one-time instant of a schedule, where it is strictly after `after`.
pub open spec fn at_part(schedule: ScheduleView, after: Timestamp) -> Option<Timestamp> {
    match schedule.at {
        Some(at) => if after.before(at) {
            Some(at)
        } else {
            None
        },
        None => None,
    }
}

/// The next instant at which the schedule fires by time, strictly after
/// `after`: the earlier of the next cron occurrence and the one-time instant.
/// Events and patterns have no instant that could be foretold.
pub open spec fn next_time(schedule: ScheduleView, after: Timestamp) -> Option<Timestamp> {
    earliest(cron_part(schedule, after), at_part(schedule, after))
}

/// Whether the time-based part of a schedule can be read: its cron
/// expression, if it has one, is valid and its zone is known.
pub open spec fn cron_readable(schedule: ScheduleView) -> bool {
    schedule.cron matches Some(c) ==> expression_valid(c) && zone_known(schedule.zone())
}

/// The first second of the day of `secs`, in seconds since the epoch.
pub open spec fn day_start(secs: int) -> int {
    secs - secs % 86_400
}

/// The instant of `secs` and `nanos`, where the seconds fit in 64 bits.
pub open spec fn instant_at(secs: int, nanos: u32) -> Option<Timestamp> {
    if i64::MIN <= secs <= i64::MAX {
        Some(Timestamp { secs: secs as i64, nanos })
    } else {
        None
    }
}

/// The seconds in the unit that `word` names: a minute, an hour or a day, in
/// the singular or the plural, in any case of the letters.
pub open spec fn unit_seconds(word: Seq<char>) -> Option<int> {
    if same_ignoring_case(word, "minute"@) || same_ignoring_case(word, "minutes"@) {
        Some(60)
    } else if same_ignoring_case(word, "hour"@) || same_ignoring_case(word, "hours"@) {
        Some(3600)
    } else if same_ignoring_case(word, "day"@) || same_ignoring_case(word, "days"@) {
        Some(86_400)
    } else {
        None
    }
}

/// The time of day that `word` writes as `HH:MM:SS` or else as `HH:MM`.
pub open spec fn clock_time(word: Seq<char>) -> Option<(u32, u32)> {
    match pattern_time_of_day(word, "%H:%M:%S"@) {
        Some(t) => Some(t),
        None => pattern_time_of_day(word, "%H:%M"@),
    }
}

/// The instant that a date and a time of day write, as `YYYY-MM-DD HH:MM:SS`
/// or else as `YYYY-MM-DD HH:MM`, in UTC.
pub open spec fn date_and_time(date: Seq<char>, time: Seq<char>) -> Option<Timestamp> {
    let text = date + " "@ + time;
    match pattern_instant(text, "%Y-%m-%d %H:%M:%S"@) {
        Some(t) => Some(t),
        None => pattern_instant(text, "%Y-%m-%d %H:%M"@),
    }
}

/// The instant that three words write relative to `now`: `in N unit`, or
/// `today at HH:MM`, or `tomorrow at HH:MM` with the days of UTC.
pub open spec fn relative_time(w: Seq<Seq<char>>, now: Timestamp) -> Option<Timestamp> {
    if w.len() != 3 {
        None
    } else if same_ignoring_case(w[0], "in"@) {
        match (i64_of(w[1]), unit_seconds(w[2])) {
            (Some(n), Some(unit)) => instant_at(now.secs + n * unit, now.nanos),
            _ => None,
        }
    } else if same_ignoring_case(w[1], "at"@) && (same_ignoring_case(w[0], "today"@)
        || same_ignoring_case(w[0], "tomorrow"@)) {
        let days: int = if same_ignoring_case(w[0], "today"@) {
            0
        } else {
            1
        };
        match pattern_time_of_day(w[2], "%H:%M"@) {
            Some(t) => instant_at(day_start(now.secs as int) + days * 86_400 + t.0, t.1),
            None => None,
        }
    } else {
        None
    }
}

/// The instant that `text` writes for a reader at `now`. The text is taken
/// word by word, so white space around and between the words does not count:
/// one word is a time of the day of `now`, two are a date and a time, three
/// are a relative time.
pub open spec fn human_time(text: Seq<char>, now: Timestamp) -> Option<Timestamp> {
    let w = words(text);
    if w.len() == 1 {
        match clock_time(w[0]) {
            Some(t) => instant_at(day_start(now.secs as int) + t.0, t.1),
            None => None,
        }
    } else if w.len() == 2 {
        date_and_time(w[0], w[1])
    } else if w.len() == 3 {
        relative_time(w, now)
    } else {
        None
    }
}

/// `r` is what reading `text` at `now` gives: the instant that the text
/// writes, or the error that names the text where it writes none.
pub open spec fn reads_as(r: Result<Timestamp, ParserError>, text: Seq<char>, now: Timestamp) -> bool {
    match human_time(text, now) {
        Some(t) => r == Ok::<Timestamp, ParserError>(t),
        None => r matches Err(e) && e@ == ParserErrorView::InvalidTimeFormat(
            "Could not parse time string: "@ + text,
        ),
    }
}

/// The parts of `parts` in a row with `separator` between them.
pub open spec fn joined(parts: Seq<Seq<char>>, separator: Seq<char>) -> Seq<char>
    decreases parts.len(),
{
    if parts.len() == 0 {
        Seq::empty()
    } else if parts.len() == 1 {
        parts[0]
    } else {
        joined(parts.drop_last(), separator) + separator + parts.last()
    }
}

/// An instant as `YYYY-MM-DD HH:MM:SS`; nothing where chrono cannot hold the
/// instant.
pub open spec fn stamp(at: Timestamp) -> Seq<char> {
    match pattern_text(at, "%Y-%m-%d %H:%M:%S"@) {
        Some(s) => s,
        None => Seq::empty(),
    }
}

/// The display line of an expression: the expression and, in brackets, its
/// next occurrences as they are written in `stamps`.
pub open spec fn display_line(expression: Seq<char>, stamps: Seq<Seq<char>>) -> Seq<char> {
    expression + " (next: "@ + joined(stamps, ", "@) + ")"@
}

/// The instants of `upcoming`, each written as `stamp` writes it.
pub open spec fn stamps_of(upcoming: Seq<Timestamp>) -> Seq<Seq<char>> {
    upcoming.map_values(|t: Timestamp| stamp(t))
}

/// The occurrences that the display line of an expression shows at `now`: the
/// next three in UTC, and none where `now` lies outside the four-digit years.
pub open spec fn display_occurrences(expression: Seq<char>, now: Timestamp) -> Seq<Timestamp> {
    if now.in_calendar() {
        cron_occurrences(normalized(expression), utc_zone(), now, 3)
    } else {
        Seq::empty()
    }
}

/// The instants at which a schedule fires by time after `after`, one after
/// the other: each is the next instant after the one before it. At most
/// `count` of them are taken.
pub open spec fn successive_times(schedule: ScheduleView, after: Timestamp, count: nat) -> Seq<
    Timestamp,
>
    decreases count,
{
    if count == 0 {
        Seq::empty()
    } else {
        match next_time(schedule, after) {
            Some(t) => seq![t] + successive_times(schedule, t, (count - 1) as nat),
            None => Seq::empty(),
        }
    }
}

/// The next instant of a schedule is strictly later than the instant it
/// follows. Where the cron expression gives it, it is one of the occurrences
/// that the cron crate reports for the expression in the zone of the
/// schedule.
pub proof fn lemma_next_time_is_later(schedule: ScheduleView, after: Timestamp)
    ensures
        next_time(schedule, after) matches Some(t) ==> after.before(t),
        cron_part(schedule, after) matches Some(t) ==> cron_occurrences(
            normalized(schedule.cron->0),
            schedule.zone(),
            after,
            2,
        ).contains(t),
{
    match schedule.cron {
        Some(c) => {
            if after.in_calendar() {
                crate::scheduler::recurrence::lemma_first_after_is_later(
                    cron_occurrences(normalized(c), schedule.zone(), after, 2),
                    after,
                );
            }
        },
        None => {},
    }
}

/// The successive instants of a schedule rise strictly: each lies after
/// `after` and before every later one.
pub proof fn lemma_successive_times_rise(schedule: ScheduleView, after: Timestamp, count: nat)
    ensures
        successive_times(schedule, after, count).len() <= count,
        forall|i: int|
            0 <= i < successive_times(schedule, after, count).len() ==> after.before(
                #[trigger] successive_times(schedule, after, count)[i],
            ),
        forall|i: int, j: int|
            0 <= i < j < successive_times(schedule, after, count).len() ==> (
            #[trigger] successive_times(schedule, after, count)[i]).before(
                #[trigger] successive_times(schedule, after, count)[j],
            ),
    decreases count,
{
    if count > 0 {
        lemma_next_time_is_later(schedule, after);
        match next_time(schedule, after) {
            Some(t) => {
                lemma_successive_times_rise(schedule, t, (count - 1) as nat);
            },
            None => {},
        }
    }
}

/// Parser for schedules and triggers. It has no state.
pub struct Parser;

impl Parser {
    /// Parses a cron expression of five fields, or of six or seven with the
    /// seconds first. It succeeds exactly on the valid expressions and then
    /// gives the expression in the form with seconds.
    pub fn parse_cron(cron_expr: &str) -> (r: Result<CronSchedule, ParserError>)
        ensures
            r is Ok <==> expression_valid(cron_expr@),
            r matches Ok(s) ==> s.source@ == normalized(cron_expr@),
            r matches Err(e) ==> e is InvalidCronExpression,
            r matches Err(e) ==> cron_accepts(normalized(cron_expr@)) ==> e@
                == ParserErrorView::InvalidCronExpression("expression has no occurrence"@),
    {
        let source = normalize(cron_expr);
        match cron_check(source.as_str()) {
            Ok(_) => {
                let origin = Timestamp { secs: -1, nanos: 0 };
                let found = cron_upcoming(source.as_str(), "UTC", origin, 1);
                if found.len() > 0 {
                    Ok(CronSchedule { source })
                } else {
                    Err(
                        ParserError::InvalidCronExpression(
                            String::from_str("expression has no occurrence"),
                        ),
                    )
                }
            },
            Err(e) => Err(ParserError::InvalidCronExpression(cron_error_text(&e))),
        }
    }

    /// Parses an instant in RFC 3339 form and gives it in UTC.
    pub fn parse_time(time_str: &str) -> (r: Result<Timestamp, ParserError>)
        ensures
            match rfc3339_instant(time_str@) {
                Some(t) => r == Ok::<Timestamp, ParserError>(t),
                None => r matches Err(e) && e is InvalidTimeFormat,
            },
    {
        match parse_rfc3339(time_str) {
            Ok(t) => Ok(t),
            Err(e) => Err(ParserError::InvalidTimeFormat(chrono_error_text(&e))),
        }
    }

    /// Parses the IANA name of a time zone. It succeeds exactly on the names
    /// that the zone database knows.
    pub fn parse_timezone(tz_str: &str) -> (r: Result<TimeZoneName, ParserError>)
        ensures
            r is Ok <==> zone_known(tz_str@),
            r matches Ok(z) ==> z.name@ == tz_str@,
            r matches Err(e) ==> e is InvalidTimezone,
    {
        match zone_check(tz_str) {
            Ok(_) => Ok(TimeZoneName { name: tz_str.to_owned() }),
            Err(e) => Err(ParserError::InvalidTimezone(zone_error_text(&e))),
        }
    }

    /// Validates a schedule: the cron expression, the zone, the event trigger
    /// and the pattern trigger, each where present, in this order. The error
    /// is that of the first that is wrong.
    pub fn validate_schedule(schedule: &Schedule) -> (r: Result<(), ParserError>)
        ensures
            match schedule_fault(schedule@) {
                None => r is Ok,
                Some(ScheduleFault::Cron) => r matches Err(e) && e is InvalidCronExpression,
                Some(ScheduleFault::Timezone) => r matches Err(e) && e is InvalidTimezone,
                Some(ScheduleFault::Event) => r matches Err(e) && e@
                    == ParserErrorView::InvalidEventTrigger("File events require a path"@),
                Some(ScheduleFault::Pattern) => r matches Err(e) && e@
                    == ParserErrorView::InvalidPatternTrigger(
                    pattern_fault(schedule@.pattern->0)->0,
                ),
            },
    {
        match &schedule.cron {
            Some(cron_expr) => {
                match Parser::parse_cron(cron_expr.as_str()) {
                    Ok(_) => {},
                    Err(e) => {
                        return Err(e);
                    },
                }
            },
            None => {},
        }
        match &schedule.timezone {
            Some(tz_str) => {
                match Parser::parse_timezone(tz_str.as_str()) {
                    Ok(_) => {},
                    Err(e) => {
                        return Err(e);
                    },
                }
            },
            None => {},
        }
        match &schedule.event {
            Some(event) => {
                match Parser::validate_event_trigger(event) {
                    Ok(_) => {},
                    Err(e) => {
                        return Err(e);
                    },
                }
            },
            None => {},
        }
        match &schedule.pattern {
            Some(pattern) => {
                match Parser::validate_pattern_trigger(pattern) {
                    Ok(_) => {},
                    Err(e) => {
                        return Err(e);
                    },
                }
            },
            None => {},
        }
        Ok(())
    }

    /// Validates an event trigger: an event of a file needs the path of the
    /// file; every other event is valid.
    pub fn validate_event_trigger(event: &EventTrigger) -> (r: Result<(), ParserError>)
        ensures
            r is Ok <==> !event_fault(event@),
            r matches Err(e) ==> e@ == ParserErrorView::InvalidEventTrigger(
                "File events require a path"@,
            ),
    {
        match &event.event_type {
            EventType::FileCreated | EventType::FileModified | EventType::FileDeleted => {
                if event.path.is_none() {
                    return Err(
                        ParserError::InvalidEventTrigger(
                            String::from_str("File events require a path"),
                        ),
                    );
                }
            },
            EventType::SystemStartup | EventType::SystemShutdown => {},
            EventType::Custom(_) => {},
        }
        Ok(())
    }

    /// Validates a pattern trigger: the threshold is not negative and the
    /// window is longer than no seconds.
    pub fn validate_pattern_trigger(pattern: &PatternTrigger) -> (r: Result<(), ParserError>)
        ensures
            match pattern_fault(pattern@) {
                None => r is Ok,
                Some(m) => r matches Err(e) && e@ == ParserErrorView::InvalidPatternTrigger(m),
            },
    {
        if pattern.threshold < 0 {
            return Err(
                ParserError::InvalidPatternTrigger(
                    String::from_str("Threshold must be non-negative"),
                ),
            );
        }
        if pattern.window == 0 {
            return Err(
                ParserError::InvalidPatternTrigger(String::from_str("Window must be greater than 0")),
            );
        }
        Ok(())
    }

    /// The next occurrence of a cron expression strictly after `after`, in
    /// UTC. Where the expression has no later occurrence, `after` itself comes
    /// back.
    pub fn next_cron_execution(cron_expr: &str, after: Timestamp) -> (r: Result<
        Timestamp,
        ParserError,
    >)
        ensures
            r is Ok <==> expression_valid(cron_expr@),
            r matches Ok(t) ==> t == (match next_occurrence(cron_expr@, utc_zone(), after) {
                Some(next) => next,
                None => after,
            }),
            r matches Err(e) ==> e is InvalidCronExpression,
    {
        match Parser::parse_cron(cron_expr) {
            Ok(_) => {},
            Err(e) => {
                return Err(e);
            },
        }
        match next_after(cron_expr, "UTC", after) {
            Some(next) => Ok(next),
            None => Ok(after),
        }
    }

    /// The next instant at which a schedule fires by time, strictly after
    /// `after`: the earlier of the next occurrence of the cron expression, in
    /// the zone of the schedule, and of the one-time instant. A schedule of
    /// events and patterns alone has none. A cron expression that is not
    /// valid, or else a zone of it that is not known, is an error.
    pub fn next_execution(schedule: &Schedule, after: Timestamp) -> (r: Result<
        Option<Timestamp>,
        ParserError,
    >)
        ensures
            r is Ok <==> cron_readable(schedule@),
            r matches Ok(next) ==> next == next_time(schedule@, after),
            r matches Ok(Some(t)) ==> after.before(t),
            r matches Err(e) ==> (if !expression_valid(schedule@.cron->0) {
                e is InvalidCronExpression
            } else {
                e is InvalidTimezone
            }),
    {
        let by_cron = match &schedule.cron {
            Some(cron_expr) => {
                match Parser::parse_cron(cron_expr.as_str()) {
                    Ok(_) => {},
                    Err(e) => {
                        return Err(e);
                    },
                }
                match &schedule.timezone {
                    Some(zone) => {
                        match Parser::parse_timezone(zone.as_str()) {
                            Ok(_) => {},
                            Err(e) => {
                                return Err(e);
                            },
                        }
                        next_after(cron_expr.as_str(), zone.as_str(), after)
                    },
                    None => {
                        match Parser::parse_timezone("UTC") {
                            Ok(_) => {},
                            Err(e) => {
                                return Err(e);
                            },
                        }
                        next_after(cron_expr.as_str(), "UTC", after)
                    },
                }
            },
            None => None,
        };
        let by_instant = match schedule.at {
            Some(at) => if after.is_before(&at) {
                Some(at)
            } else {
                None
            },
            None => None,
        };
        Ok(earliest_of(by_cron, by_instant))
    }

    /// The display line of a cron expression at the time of the system
    /// clock: for some instant, the line that `format_cron_at` gives.
    pub fn format_cron(cron_expr: &str) -> (r: Result<String, ParserError>)
        ensures
            r is Ok <==> expression_valid(cron_expr@),
            r matches Ok(line) ==> exists|now: Timestamp|
                line@ == display_line(cron_expr@, stamps_of(display_occurrences(cron_expr@, now))),
            r matches Err(e) ==> e is InvalidCronExpression,
    {
        let now = current_time();
        Parser::format_cron_at(cron_expr, now)
    }

    /// The display line of a cron expression at `now`: the expression as it
    /// was given and, in brackets, its next three occurrences in UTC.
    pub fn format_cron_at(cron_expr: &str, now: Timestamp) -> (r: Result<String, ParserError>)
        ensures
            r is Ok <==> expression_valid(cron_expr@),
            r matches Ok(line) ==> line@ == display_line(
                cron_expr@,
                stamps_of(display_occurrences(cron_expr@, now)),
            ),
            r matches Err(e) ==> e is InvalidCronExpression,
    {
        let source = match Parser::parse_cron(cron_expr) {
            Ok(schedule) => schedule.source,
            Err(e) => {
                return Err(e);
            },
        };
        let upcoming = if now.is_in_calendar() {
            cron_upcoming(source.as_str(), "UTC", now, 3)
        } else {
            Vec::new()
        };
        let mut stamps: Vec<String> = Vec::new();
        let mut i: usize = 0;
        while i < upcoming.len()
            invariant
                i <= upcoming.len(),
                stamps@.len() == i,
                forall|j: int| 0 <= j < i ==> (#[trigger] stamps@[j])@ == stamp(upcoming@[j]),
            decreases upcoming.len() - i,
        {
            let text = match format_with_pattern(upcoming[i], "%Y-%m-%d %H:%M:%S") {
                Some(s) => s,
                None => String::new(),
            };
            stamps.push(text);
            i = i + 1;
        }
        assert(texts(stamps@) =~= stamps_of(upcoming@));
        Ok(Parser::display(cron_expr, &stamps))
    }

    /// Writes the display line of a cron expression with its next
    /// occurrences: the expression and, in brackets, the occurrences with a
    /// comma and a blank between them.
    pub fn display(cron_expr: &str, stamps: &Vec<String>) -> (line: String)
        ensures
            line@ == display_line(cron_expr@, texts(stamps@)),
    {
        let ghost all = texts(stamps@);
        let mut list = String::new();
        let mut i: usize = 0;
        while i < stamps.len()
            invariant
                i <= stamps.len(),
                all == texts(stamps@),
                list@ == joined(all.subrange(0, i as int), ", "@),
            decreases stamps.len() - i,
        {
            proof {
                let longer = all.subrange(0, i + 1);
                assert(longer.drop_last() =~= all.subrange(0, i as int));
            }
            if i > 0 {
                list.append(", ");
            }
            list.append(stamps[i].as_str());
            i = i + 1;
        }
        assert(all.subrange(0, stamps.len() as int) =~= all);
        String::from_str(cron_expr).concat(" (next: ").concat(list.as_str()).concat(")")
    }

    /// Parses a time as people write it, for a reader at the time of the
    /// system clock: for some instant, what `parse_human_time_at` gives.
    pub fn parse_human_time(time_str: &str) -> (r: Result<Timestamp, ParserError>)
        ensures
            exists|now: Timestamp| #[trigger] reads_as(r, time_str@, now),
    {
        let now = current_time();
        Parser::parse_human_time_at(time_str, now)
    }

    /// Parses a time as people write it, for a reader at `now`:
    /// `YYYY-MM-DD HH:MM:SS` or `YYYY-MM-DD HH:MM`; `HH:MM:SS` or `HH:MM` on
    /// the day of `now`; `in N minutes`, `hours` or `days`; `today at HH:MM`
    /// and `tomorrow at HH:MM`. All in UTC.
    pub fn parse_human_time_at(time_str: &str, now: Timestamp) -> (r: Result<Timestamp, ParserError>)
        ensures
            reads_as(r, time_str@, now),
    {
        let w = split_words(time_str);
        let found = if w.len() == 1 {
            let clock = match parse_time_of_day(w[0].as_str(), "%H:%M:%S") {
                Some(t) => Some(t),
                None => parse_time_of_day(w[0].as_str(), "%H:%M"),
            };
            match clock {
                Some(t) => Parser::on_day_of(now, 0, t),
                None => None,
            }
        } else if w.len() == 2 {
            let text = w[0].clone().concat(" ").concat(w[1].as_str());
            match parse_with_pattern(text.as_str(), "%Y-%m-%d %H:%M:%S") {
                Some(t) => Some(t),
                None => parse_with_pattern(text.as_str(), "%Y-%m-%d %H:%M"),
            }
        } else if w.len() == 3 {
            Parser::parse_relative_time(time_str, now)
        } else {
            None
        };
        match found {
            Some(t) => Ok(t),
            None => Err(
                ParserError::InvalidTimeFormat(
                    String::from_str("Could not parse time string: ").concat(time_str),
                ),
            ),
        }
    }

    /// The instant `days` days after the start of the day of `now`, at the
    /// time of day `clock`, which is given in seconds since midnight and
    /// nanoseconds. There is none where the seconds leave the range of 64
    /// bits.
    pub fn on_day_of(now: Timestamp, days: u8, clock: (u32, u32)) -> (r: Option<Timestamp>)
        ensures
            r == instant_at(day_start(now.secs as int) + days * 86_400 + clock.0, clock.1),
    {
        let rest = now.secs % SECONDS_PER_DAY;
        let into_day: i64 = if rest < 0 {
            rest + 86_400
        } else {
            rest
        };
        let start: i128 = now.secs as i128 - into_day as i128;
        let ahead: i128 = (days as i128) * 86_400;
        let secs: i128 = start + ahead + clock.0 as i128;
        if secs < i64::MIN as i128 || secs > i64::MAX as i128 {
            None
        } else {
            Some(Timestamp { secs: secs as i64, nanos: clock.1 })
        }
    }

    /// Parses a relative time of three words for a reader at `now`: `in N
    /// minutes`, `hours` or `days`, with `N` a decimal integer; `today at
    /// HH:MM`; `tomorrow at HH:MM`. The keywords are read in any case of
    /// their letters.
    pub fn parse_relative_time(time_str: &str, now: Timestamp) -> (r: Option<Timestamp>)
        ensures
            r == relative_time(words(time_str@), now),
    {
        let w = split_words(time_str);
        if w.len() != 3 {
            return None;
        }
        if is_keyword(w[0].as_str(), "in") {
            let amount = parse_integer(w[1].as_str());
            let unit: Option<i64> = if is_keyword(w[2].as_str(), "minute") || is_keyword(
                w[2].as_str(),
                "minutes",
            ) {
                Some(60)
            } else if is_keyword(w[2].as_str(), "hour") || is_keyword(w[2].as_str(), "hours") {
                Some(3600)
            } else if is_keyword(w[2].as_str(), "day") || is_keyword(w[2].as_str(), "days") {
                Some(86_400)
            } else {
                None
            };
            match (amount, unit) {
                (Some(n), Some(u)) => {
                    let span: i128 = if u == 60 {
                        (n as i128) * 60
                    } else if u == 3600 {
                        (n as i128) * 3600
                    } else {
                        (n as i128) * 86_400
                    };
                    let secs: i128 = now.secs as i128 + span;
                    if secs < i64::MIN as i128 || secs > i64::MAX as i128 {
                        None
                    } else {
                        Some(Timestamp { secs: secs as i64, nanos: now.nanos })
                    }
                },
                _ => None,
            }
        } else if is_keyword(w[1].as_str(), "at") && (is_keyword(w[0].as_str(), "today")
            || is_keyword(w[0].as_str(), "tomorrow")) {
            let days: u8 = if is_keyword(w[0].as_str(), "today") {
                0
            } else {
                1
            };
            match parse_time_of_day(w[2].as_str(), "%H:%M") {
                Some(t) => Parser::on_day_of(now, days, t),
                None => None,
            }
        } else {
            None
        }
    }
}

} // verus!
