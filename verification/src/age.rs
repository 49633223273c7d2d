//! The age of a story in words.

use crate::text::{decimal, decimal_string};
use vstd::prelude::*;

verus! {

/// The words for an age of `age` seconds. Ages are counted in whole minutes,
/// hours of sixty minutes and days of twenty-four hours, each rounded down:
/// under a minute is "just now", then "1 min", "2 mins" to "59 mins", "1 hr",
/// "2 hrs" to "23 hrs", "1 day", and from two days on the number of days.
pub open spec fn spec_format_age(age: nat) -> Seq<char> {
    let mins = age / 60;
    if mins < 1 {
        "just now"@
    } else if mins < 2 {
        "1 min"@
    } else if mins < 60 {
        decimal(mins) + " mins"@
    } else if mins < 120 {
        "1 hr"@
    } else if mins < 1440 {
        decimal(mins / 60) + " hrs"@
    } else if mins < 2880 {
        "1 day"@
    } else {
        decimal(mins / 1440) + " days"@
    }
}

/// The words for an age of `age` seconds.
pub fn format_age(age: u64) -> (words: String)
    ensures
        words@ == spec_format_age(age as nat),
{
    let mins: u64 = age / 60;
    if mins < 1 {
        "just now".to_owned()
    } else if mins < 2 {
        "1 min".to_owned()
    } else if mins < 60 {
        let mut words = decimal_string(mins);
        words.append(" mins");
        words
    } else if mins < 120 {
        "1 hr".to_owned()
    } else if mins < 1440 {
        let mut words = decimal_string(mins / 60);
        words.append(" hrs");
        words
    } else if mins < 2880 {
        "1 day".to_owned()
    } else {
        let mut words = decimal_string(mins / 1440);
        words.append(" days");
        words
    }
}

/// The age in words, at the time `now`, of something created at `time`, both
/// in seconds since the Unix epoch. A creation time after `now` has no age.
pub open spec fn spec_relative_age(time: u64, now: u64) -> Option<Seq<char>> {
    if time <= now {
        Some(spec_format_age((now - time) as nat))
    } else {
        None
    }
}

/// The age in words, at the time `now`, of something created at `time`.
pub fn relative_age(time: u64, now: u64) -> (words: Option<String>)
    ensures
        words.is_some() == (time <= now),
        words matches Some(w) ==> Some(w@) == spec_relative_age(time, now),
        words.is_none() ==> spec_relative_age(time, now).is_none(),
{
    if time <= now {
        Some(format_age(now - time))
    } else {
        None
    }
}

} // verus!
