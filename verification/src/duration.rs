//! Time spent in voice, split into days, hours, minutes and seconds.

use vstd::prelude::*;
use vstd::string::StringExecFns;
use crate::text::{decimal_text, push_decimal};

verus! {

/// A span of time in days, hours, minutes and seconds.
#[derive(Clone, Copy, Debug, PartialEq, Eq)]
pub struct VoiceTime {
    pub days: u64,
    pub hours: u64,
    pub minutes: u64,
    pub seconds: u64,
}

/// The whole seconds from `then` to `now`, both in milliseconds; none if
/// the clock ran backwards.
pub open spec fn seconds_between(then: u64, now: u64) -> int {
    if now < then {
        0
    } else {
        (now - then) / 1000
    }
}

/// `time` is `seconds` split into days, hours, minutes and seconds.
pub open spec fn is_split_of(time: VoiceTime, seconds: int) -> bool {
    &&& time.days * 86_400 + time.hours * 3_600 + time.minutes * 60 + time.seconds == seconds
    &&& time.hours < 24
    &&& time.minutes < 60
    &&& time.seconds < 60
}

/// A number set in bold with its unit behind it: `**5** hours`.
pub open spec fn counted(number: u64, unit: Seq<char>) -> Seq<char> {
    "**"@ + decimal_text(number as nat) + "** "@ + unit
}

/// A span of time in words, from the largest unit that is not zero down to
/// the seconds.
pub open spec fn time_text(time: VoiceTime) -> Seq<char> {
    let seconds = counted(time.seconds, "seconds"@);
    let minutes = counted(time.minutes, "minutes"@) + ", "@ + seconds;
    let hours = counted(time.hours, "hours"@) + ", "@ + minutes;
    if time.days > 0 {
        counted(time.days, "days"@) + ", "@ + hours
    } else if time.hours > 0 {
        hours
    } else if time.minutes > 0 {
        minutes
    } else {
        seconds
    }
}

/// Splits a number of seconds into days, hours, minutes and seconds.
pub fn split_seconds(seconds: u64) -> (time: VoiceTime)
    ensures
        is_split_of(time, seconds as int),
{
    let days = seconds / 86_400;
    let rest = seconds % 86_400;
    let hours = rest / 3_600;
    let rest = rest % 3_600;
    VoiceTime { days, hours, minutes: rest / 60, seconds: rest % 60 }
}

/// The whole seconds from `then` to `now`.
pub fn elapsed_seconds(then: u64, now: u64) -> (seconds: u64)
    ensures
        seconds == seconds_between(then, now),
{
    if now < then {
        0
    } else {
        (now - then) / 1000
    }
}

fn push_counted(text: &mut String, number: u64, unit: &str)
    ensures
        final(text)@ == old(text)@ + counted(number, unit@),
{
    text.append("**");
    push_decimal(text, number);
    text.append("** ");
    text.append(unit);
    assert(final(text)@ =~= old(text)@ + counted(number, unit@));
}

impl VoiceTime {
    /// The span in words.
    pub fn describe(&self) -> (text: String)
        ensures
            text@ == time_text(*self),
    {
        let mut text = String::new();
        if self.days > 0 {
            push_counted(&mut text, self.days, "days");
            text.append(", ");
        }
        if self.days > 0 || self.hours > 0 {
            push_counted(&mut text, self.hours, "hours");
            text.append(", ");
        }
        if self.days > 0 || self.hours > 0 || self.minutes > 0 {
            push_counted(&mut text, self.minutes, "minutes");
            text.append(", ");
        }
        push_counted(&mut text, self.seconds, "seconds");
        assert(text@ =~= time_text(*self));
        text
    }
}

} // verus!
