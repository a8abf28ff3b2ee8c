//! Restart schedules in cron notation.
//!
//! The notation is read and evaluated by the `cron_clock` crate. Verus does
//! not read that crate. What this file says of it is believed, not proved:
//! three names stand for what the crate answers, and the three functions
//! marked `external_body` make the calls. Each leaves out, by its `requires`,
//! the inputs on which the crate does not answer at all:
//!
//! - it cannot read a step of zero, as in `*/0`;
//! - it cannot look for the next time from a 29th of February of a year
//!   that the schedule leaves out;
//! - it cannot add a second to the last instant that `chrono` can hold.
//!
//! The verified functions below test for these before they call, so that
//! they answer on every input.

use crate::clock::{date_of, instant_of, utc_date, Timestamp, LAST_SECOND};
use crate::text::chars_of;
use chrono::DateTime;
use cron_clock::{Schedule, TimeUnitSpec};
use std::str::FromStr;
use vstd::prelude::*;

verus! {

/// Whether `cron_clock` accepts the text as a schedule.
pub uninterp spec fn cron_accepts(expression: Seq<char>) -> bool;

/// Whether the schedule that the text denotes fires in the given year.
pub uninterp spec fn cron_includes_year(expression: Seq<char>, year: u32) -> bool;

/// The first instant after the given one at which the schedule that the text
/// denotes fires, as seconds and nanoseconds; nothing where it never fires
/// again or where the text denotes no schedule.
pub uninterp spec fn cron_next(expression: Seq<char>, secs: i64, nanos: u32) -> Option<(i64, u32)>;

/// White space, as the notation skips it round a number.
pub open spec fn is_space(c: char) -> bool {
    c == ' ' || c == '\t' || c == '\r' || c == '\n'
}

/// A decimal digit.
pub open spec fn is_digit(c: char) -> bool {
    c == '0' || c == '1' || c == '2' || c == '3' || c == '4' || c == '5' || c == '6' || c == '7'
        || c == '8' || c == '9'
}

/// The first place at or after `i` that holds no white space.
pub open spec fn skip_spaces(s: Seq<char>, i: int) -> int
    decreases s.len() - i,
{
    if 0 <= i < s.len() && is_space(s[i]) {
        skip_spaces(s, i + 1)
    } else {
        i
    }
}

/// The first place at or after `i` that holds no zero.
pub open spec fn skip_zeros(s: Seq<char>, i: int) -> int
    decreases s.len() - i,
{
    if 0 <= i < s.len() && s[i] == '0' {
        skip_zeros(s, i + 1)
    } else {
        i
    }
}

/// Whether a step of zero is written at `i`: a slash, then a number made of
/// zeros alone.
pub open spec fn zero_step_at(s: Seq<char>, i: int) -> bool {
    let number = skip_spaces(s, i + 1);
    let end = skip_zeros(s, number);
    &&& 0 <= i < s.len()
    &&& s[i] == '/'
    &&& number < end
    &&& (end >= s.len() || !is_digit(s[end]))
}

/// Whether the text holds a step of zero anywhere.
pub open spec fn has_zero_step(s: Seq<char>) -> bool {
    exists|i: int| zero_step_at(s, i)
}

/// Whether the day is the 29th of February.
pub open spec fn is_leap_day(date: (i32, u32, u32)) -> bool {
    date.1 == 2 && date.2 == 29
}

/// Whether the schedule can be asked for its next time after the second
/// that starts `secs` seconds after the start of 1970.
pub open spec fn can_evaluate(expression: Seq<char>, secs: i64) -> bool {
    &&& secs < LAST_SECOND
    &&& utc_date((secs + 1) as i64) matches Some(date) ==> {
        ||| !is_leap_day(date)
        ||| (date.0 >= 0 && cron_includes_year(expression, date.0 as u32))
    }
}

/// `Schedule::from_str`: whether the text is read as a schedule.
#[verifier::external_body]
fn accepts(expression: &str) -> (accepted: bool)
    requires
        !has_zero_step(expression@),
    ensures
        accepted == cron_accepts(expression@),
{
    Schedule::from_str(expression).is_ok()
}

/// `Schedule::years` and `TimeUnitSpec::includes`: whether the schedule
/// fires in the given year. A text that is no schedule fires in none.
#[verifier::external_body]
fn includes_year(expression: &str, year: u32) -> (included: bool)
    requires
        !has_zero_step(expression@),
    ensures
        included == cron_includes_year(expression@, year),
{
    match Schedule::from_str(expression) {
        Ok(schedule) => schedule.years().includes(year),
        Err(_) => false,
    }
}

/// `Schedule::after` and the first item of the iterator it gives: the next
/// time at which the schedule fires after the given instant.
#[verifier::external_body]
fn next_fire_time(expression: &str, after: &Timestamp) -> (next: Option<Timestamp>)
    requires
        !has_zero_step(expression@),
        can_evaluate(expression@, after.secs),
    ensures
        next == instant_of(cron_next(expression@, after.secs, after.nanos)),
{
    let schedule = Schedule::from_str(expression).ok()?;
    let start = DateTime::from_timestamp(after.secs, after.nanos)?;
    let next = schedule.after(&start).next()?;
    Some(Timestamp { secs: next.timestamp(), nanos: next.timestamp_subsec_nanos() })
}

fn skip_spaces_from(s: &Vec<char>, i: usize) -> (j: usize)
    requires
        i <= s.len(),
    ensures
        j == skip_spaces(s@, i as int),
        i <= j <= s.len(),
{
    let mut j: usize = i;
    while j < s.len() && (s[j] == ' ' || s[j] == '\t' || s[j] == '\r' || s[j] == '\n')
        invariant
            i <= j <= s.len(),
            skip_spaces(s@, i as int) == skip_spaces(s@, j as int),
        decreases s.len() - j,
    {
        j = j + 1;
    }
    j
}

fn skip_zeros_from(s: &Vec<char>, i: usize) -> (j: usize)
    requires
        i <= s.len(),
    ensures
        j == skip_zeros(s@, i as int),
        i <= j <= s.len(),
{
    let mut j: usize = i;
    while j < s.len() && s[j] == '0'
        invariant
            i <= j <= s.len(),
            skip_zeros(s@, i as int) == skip_zeros(s@, j as int),
        decreases s.len() - j,
    {
        j = j + 1;
    }
    j
}

fn digit_at(s: &Vec<char>, i: usize) -> (digit: bool)
    requires
        i < s.len(),
    ensures
        digit == is_digit(s@[i as int]),
{
    let c = s[i];
    c == '0' || c == '1' || c == '2' || c == '3' || c == '4' || c == '5' || c == '6' || c == '7'
        || c == '8' || c == '9'
}

/// Looks for a step of zero in the text.
pub fn find_zero_step(expression: &str) -> (found: bool)
    ensures
        found == has_zero_step(expression@),
{
    let s = chars_of(expression);
    let mut i: usize = 0;
    while i < s.len()
        invariant
            i <= s.len(),
            s@ == expression@,
            forall|k: int| 0 <= k < i ==> !zero_step_at(s@, k),
        decreases s.len() - i,
    {
        if s[i] == '/' {
            let number = skip_spaces_from(&s, i + 1);
            let end = skip_zeros_from(&s, number);
            if number < end && (end >= s.len() || !digit_at(&s, end)) {
                assert(zero_step_at(s@, i as int));
                return true;
            }
        }
        i = i + 1;
    }
    false
}

/// A restart schedule: a text in cron notation that `cron_clock` accepts.
#[derive(Debug, PartialEq, Eq)]
pub struct CronSchedule {
    expression: String,
}

impl View for CronSchedule {
    type V = Seq<char>;

    closed spec fn view(&self) -> Seq<char> {
        self.expression@
    }
}

impl DeepView for CronSchedule {
    type V = Seq<char>;

    open spec fn deep_view(&self) -> Seq<char> {
        self@
    }
}

impl Clone for CronSchedule {
    fn clone(&self) -> (copy: Self)
        ensures
            copy@ == self@,
    {
        proof {
            use_type_invariant(self);
        }
        CronSchedule { expression: self.expression.clone() }
    }
}

impl CronSchedule {
    #[verifier::type_invariant]
    spec fn well_formed(&self) -> bool {
        !has_zero_step(self.expression@) && cron_accepts(self.expression@)
    }

    /// Whether a text is a schedule: it holds no step of zero, and
    /// `cron_clock` accepts it.
    pub open spec fn is_valid(expression: Seq<char>) -> bool {
        !has_zero_step(expression) && cron_accepts(expression)
    }

    /// The first time after `after` at which the schedule written as
    /// `expression` fires. There is none where the schedule never fires
    /// again, and none is looked for after the year 9999 or from a 29th of
    /// February of a year that the schedule leaves out.
    pub open spec fn next_after_spec(expression: Seq<char>, after: Timestamp) -> Option<Timestamp> {
        if can_evaluate(expression, after.secs) {
            instant_of(cron_next(expression, after.secs, after.nanos))
        } else {
            None
        }
    }

    /// Reads a schedule. A text that `cron_clock` does not accept, or that
    /// holds a step of zero, is no schedule.
    pub fn parse(expression: &str) -> (schedule: Option<CronSchedule>)
        ensures
            schedule is Some <==> Self::is_valid(expression@),
            schedule matches Some(s) ==> s@ == expression@,
    {
        if find_zero_step(expression) {
            return None;
        }
        if accepts(expression) {
            Some(CronSchedule { expression: expression.to_owned() })
        } else {
            None
        }
    }

    /// The text of the schedule.
    pub fn expression(&self) -> (text: &str)
        ensures
            text@ == self@,
    {
        self.expression.as_str()
    }

    /// The first time after `after` at which the schedule fires.
    pub fn next_after(&self, after: &Timestamp) -> (next: Option<Timestamp>)
        ensures
            next == Self::next_after_spec(self@, *after),
            Self::is_valid(self@),
    {
        proof {
            use_type_invariant(self);
        }
        if after.secs >= LAST_SECOND {
            return None;
        }
        let expression = self.expression.as_str();
        let safe = match date_of(after.secs + 1) {
            Some((year, month, day)) => {
                if month == 2 && day == 29 {
                    year >= 0 && includes_year(expression, year as u32)
                } else {
                    true
                }
            },
            None => true,
        };
        if safe {
            next_fire_time(expression, after)
        } else {
            None
        }
    }
}

} // verus!
