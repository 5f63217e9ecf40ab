//! Cron expressions: the five-field form made six-field, which expressions
//! are accepted, and the occurrences that follow an instant.

use vstd::prelude::*;
use vstd::string::*;
use crate::scheduler::calendar::{
    cron_accepts, cron_includes, cron_matches, cron_occurrences, cron_upcoming,
};
use crate::scheduler::text::{split_words, words};
use crate::scheduler::time::Timestamp;

verus! {

/// The name of the zone in which an expression is read where a schedule names
/// none.
pub open spec fn utc_zone() -> Seq<char> {
    "UTC"@
}

/// One second before 1970-01-01T00:00:00Z: searching from here finds every
/// occurrence that the cron crate can report.
pub open spec fn search_origin() -> Timestamp {
    Timestamp { secs: -1i64, nanos: 0 }
}

/// The expression as it is handed to the cron crate. An expression of five
/// fields is a standard one without seconds and gets the seconds field `0` in
/// front; any other is taken as it stands.
pub open spec fn normalized(expression: Seq<char>) -> Seq<char> {
    if words(expression).len() == 5 {
        "0 "@ + expression
    } else {
        expression
    }
}

/// An expression that the cron crate accepts once normalized, and that has an
/// occurrence at all.
pub open spec fn expression_valid(expression: Seq<char>) -> bool {
    &&& cron_accepts(normalized(expression))
    &&& cron_occurrences(normalized(expression), utc_zone(), search_origin(), 1).len() > 0
}

/// The first instant of `found` that is strictly later than `after`.
pub open spec fn first_after(found: Seq<Timestamp>, after: Timestamp) -> Option<Timestamp>
    decreases found.len(),
{
    if found.len() == 0 {
        None
    } else if after.before(found[0]) {
        Some(found[0])
    } else {
        first_after(found.drop_first(), after)
    }
}

/// The next occurrence of `expression`, read in `zone`, strictly after
/// `after`. The cron crate is asked for the two occurrences that follow
/// `after`: where a zone repeats an hour, the first of them may not be later
/// than `after`. There is none where `after` lies outside the four-digit
/// years.
pub open spec fn next_occurrence(expression: Seq<char>, zone: Seq<char>, after: Timestamp) -> Option<
    Timestamp,
> {
    if after.in_calendar() {
        first_after(cron_occurrences(normalized(expression), zone, after, 2), after)
    } else {
        None
    }
}

/// Whether `expression`, read in `zone`, fires at the instant `at`.
pub open spec fn fires_at(expression: Seq<char>, zone: Seq<char>, at: Timestamp) -> bool {
    cron_includes(normalized(expression), zone, at)
}

/// What `first_after` picks is in the sequence and strictly later than
/// `after`.
pub proof fn lemma_first_after_is_later(found: Seq<Timestamp>, after: Timestamp)
    ensures
        first_after(found, after) matches Some(t) ==> after.before(t) && found.contains(t),
    decreases found.len(),
{
    if found.len() > 0 && !after.before(found[0]) {
        lemma_first_after_is_later(found.drop_first(), after);
    }
}

/// Prepends the seconds field to an expression of five fields.
pub fn normalize(expression: &str) -> (out: String)
    ensures
        out@ == normalized(expression@),
{
    let fields = split_words(expression);
    if fields.len() == 5 {
        String::from_str("0 ").concat(expression)
    } else {
        expression.to_owned()
    }
}

/// The first of `found` that is strictly later than `after`.
pub fn pick_first_after(found: &Vec<Timestamp>, after: Timestamp) -> (r: Option<Timestamp>)
    ensures
        r == first_after(found@, after),
{
    let mut i: usize = 0;
    assert(found@.skip(0) =~= found@);
    while i < found.len()
        invariant
            i <= found.len(),
            first_after(found@, after) == first_after(found@.skip(i as int), after),
        decreases found.len() - i,
    {
        if after.is_before(&found[i]) {
            return Some(found[i]);
        }
        assert(found@.skip(i as int).drop_first() =~= found@.skip(i + 1));
        i = i + 1;
    }
    None
}

/// The next occurrence of the expression, read in `zone`, strictly after
/// `after`.
pub fn next_after(expression: &str, zone: &str, after: Timestamp) -> (r: Option<Timestamp>)
    ensures
        r == next_occurrence(expression@, zone@, after),
        r matches Some(t) ==> after.before(t),
{
    if !after.is_in_calendar() {
        return None;
    }
    let text = normalize(expression);
    let found = cron_upcoming(text.as_str(), zone, after, 2);
    proof {
        lemma_first_after_is_later(found@, after);
    }
    pick_first_after(&found, after)
}

/// Whether the expression, read in `zone`, fires at the instant `at`.
pub fn fires(expression: &str, zone: &str, at: Timestamp) -> (r: bool)
    ensures
        r == fires_at(expression@, zone@, at),
{
    let text = normalize(expression);
    cron_matches(text.as_str(), zone, at)
}

} // verus!
