//! Spans and instants of time in milliseconds, and their display.
use vstd::prelude::*;

use crate::text::{decimal, push_decimal, push_two_digits, two_digits};

verus! {

/// A signed span of time in milliseconds.
#[derive(Debug, Clone, Copy, PartialEq, Eq, Structural)]
pub struct Duration {
    pub millis: i64,
}

/// `a / b` rounded toward zero, for `b > 0`.
pub open spec fn div_toward_zero(a: int, b: int) -> int {
    if a >= 0 {
        a / b
    } else {
        -((-a) / b)
    }
}

impl Duration {
    pub fn zero() -> (d: Duration)
        ensures
            d.millis == 0,
    {
        Duration { millis: 0 }
    }

    pub fn milliseconds(millis: i64) -> (d: Duration)
        ensures
            d.millis == millis,
    {
        Duration { millis }
    }

    pub fn num_milliseconds(&self) -> (r: i64)
        ensures
            r == self.millis,
    {
        self.millis
    }

    /// Whole seconds, rounded toward zero.
    pub fn num_seconds(&self) -> (r: i64)
        ensures
            r == div_toward_zero(self.millis as int, 1000),
    {
        whole_units(self.millis, 1000)
    }

    /// Whole minutes, rounded toward zero.
    pub fn num_minutes(&self) -> (r: i64)
        ensures
            r == div_toward_zero(self.millis as int, 60_000),
    {
        whole_units(self.millis, 60_000)
    }

    /// Whole hours, rounded toward zero.
    pub fn num_hours(&self) -> (r: i64)
        ensures
            r == div_toward_zero(self.millis as int, 3_600_000),
    {
        whole_units(self.millis, 3_600_000)
    }
}

fn whole_units(millis: i64, unit: i64) -> (r: i64)
    requires
        unit >= 1000,
    ensures
        r == div_toward_zero(millis as int, unit as int),
{
    if millis >= 0 {
        millis / unit
    } else {
        let magnitude: u64 = if millis == i64::MIN {
            9_223_372_036_854_775_808u64
        } else {
            (-millis) as u64
        };
        let q: u64 = magnitude / unit as u64;
        assert(q <= magnitude / 1000) by {
            vstd::arithmetic::div_mod::lemma_div_is_ordered_by_denominator(magnitude as int, 1000, unit as int);
        }
        -(q as i64)
    }
}

/// Instants further than this many milliseconds from 1970 (some 300,000
/// years) are not handled.
pub const TIMESTAMP_LIMIT: i64 = 10_000_000_000_000_000;

/// An instant, in milliseconds since 1970-01-01 00:00 UTC.
#[derive(Debug, Clone, Copy, PartialEq, Eq, Structural)]
pub struct Timestamp {
    pub millis: i64,
}

impl Timestamp {
    /// Within the handled range.
    pub open spec fn in_range(self) -> bool {
        -TIMESTAMP_LIMIT <= self.millis <= TIMESTAMP_LIMIT
    }

    pub fn from_millis(millis: i64) -> (t: Timestamp)
        ensures
            t.millis == millis,
    {
        Timestamp { millis }
    }

    /// The time from `earlier` to `self`, negative when `earlier` is later.
    pub fn signed_duration_since(self, earlier: Timestamp) -> (d: Duration)
        requires
            self.in_range(),
            earlier.in_range(),
        ensures
            d.millis == self.millis - earlier.millis,
    {
        Duration { millis: self.millis - earlier.millis }
    }
}

/// `hours:minutes:seconds` fields of a positive duration, as the display
/// helpers read them: minutes and seconds within the hour and minute, hours
/// within the day.
pub open spec fn seconds_field(millis: int) -> int {
    (millis / 1000) % 60
}

pub open spec fn minutes_field(millis: int) -> int {
    (millis / 60_000) % 60
}

pub open spec fn hours_field(millis: int) -> int {
    (millis / 3_600_000) % 24
}

/// Display of a remaining time: `"MM mins"` under an hour, else
/// `"H:MM hrs"`; `"0:00:00"` once nothing is left.
pub open spec fn coarse_display(millis: int) -> Seq<char> {
    if millis <= 0 {
        seq!['0', ':', '0', '0', ':', '0', '0']
    } else if hours_field(millis) < 1 {
        two_digits(minutes_field(millis) as nat) + seq![' ', 'm', 'i', 'n', 's']
    } else {
        decimal(hours_field(millis) as nat) + seq![':'] + two_digits(minutes_field(millis) as nat) + seq![
            ' ',
            'h',
            'r',
            's',
        ]
    }
}

/// Display to the second: `"M:SS"` under an hour, else `"H:MM:SS"`; `"0:00"`
/// once nothing is left.
pub open spec fn precise_display(millis: int) -> Seq<char> {
    if millis <= 0 {
        seq!['0', ':', '0', '0']
    } else if hours_field(millis) < 1 {
        decimal(minutes_field(millis) as nat) + seq![':'] + two_digits(seconds_field(millis) as nat)
    } else {
        decimal(hours_field(millis) as nat) + seq![':'] + two_digits(minutes_field(millis) as nat) + seq![':']
            + two_digits(seconds_field(millis) as nat)
    }
}

/// Display as `"H:MM"`; `"0:00:00"` once nothing is left.
pub open spec fn simple_display(millis: int) -> Seq<char> {
    if millis <= 0 {
        seq!['0', ':', '0', '0', ':', '0', '0']
    } else {
        decimal(hours_field(millis) as nat) + seq![':'] + two_digits(minutes_field(millis) as nat)
    }
}

/// The fields of a positive duration.
fn clock_fields(duration: Duration) -> (r: (u64, u64, u64))
    requires
        duration.millis > 0,
    ensures
        r.0 == hours_field(duration.millis as int),
        r.1 == minutes_field(duration.millis as int),
        r.2 == seconds_field(duration.millis as int),
{
    let seconds = duration.num_seconds() % 60;
    let minutes = duration.num_minutes() % 60;
    let hours = duration.num_hours() % 24;
    (hours as u64, minutes as u64, seconds as u64)
}

fn zero_clock(with_seconds: bool) -> (s: String)
    ensures
        with_seconds ==> s@ == seq!['0', ':', '0', '0', ':', '0', '0'],
        !with_seconds ==> s@ == seq!['0', ':', '0', '0'],
{
    proof {
        reveal_strlit("0:00:00");
        reveal_strlit("0:00");
    }
    if with_seconds {
        String::from_str("0:00:00")
    } else {
        String::from_str("0:00")
    }
}

fn push_colon(out: &mut String)
    ensures
        final(out)@ == old(out)@ + seq![':'],
{
    proof {
        reveal_strlit(":");
    }
    out.append(":");
}

/// Remaining time in minutes under an hour, else in hours and minutes.
pub fn format_chrono_duration(duration: Duration) -> (s: String)
    ensures
        s@ == coarse_display(duration.millis as int),
{
    if duration.millis <= 0 {
        return zero_clock(true);
    }
    let (hours, minutes, _seconds) = clock_fields(duration);
    let mut s = String::new();
    proof {
        reveal_strlit(" mins");
        reveal_strlit(" hrs");
    }
    if hours < 1 {
        push_two_digits(&mut s, minutes);
        s.append(" mins");
    } else {
        push_decimal(&mut s, hours);
        push_colon(&mut s);
        push_two_digits(&mut s, minutes);
        s.append(" hrs");
    }
    assert(s@ =~= coarse_display(duration.millis as int));
    s
}

/// Remaining time to the second.
pub fn format_chrono_duration_precise(duration: Duration) -> (s: String)
    ensures
        s@ == precise_display(duration.millis as int),
{
    if duration.millis <= 0 {
        return zero_clock(false);
    }
    let (hours, minutes, seconds) = clock_fields(duration);
    let mut s = String::new();
    if hours < 1 {
        push_decimal(&mut s, minutes);
        push_colon(&mut s);
        push_two_digits(&mut s, seconds);
    } else {
        push_decimal(&mut s, hours);
        push_colon(&mut s);
        push_two_digits(&mut s, minutes);
        push_colon(&mut s);
        push_two_digits(&mut s, seconds);
    }
    assert(s@ =~= precise_display(duration.millis as int));
    s
}

/// Remaining time in hours and minutes.
pub fn format_chrono_duration_simple(duration: Duration) -> (s: String)
    ensures
        s@ == simple_display(duration.millis as int),
{
    if duration.millis <= 0 {
        return zero_clock(true);
    }
    let (hours, minutes, _seconds) = clock_fields(duration);
    let mut s = String::new();
    push_decimal(&mut s, hours);
    push_colon(&mut s);
    push_two_digits(&mut s, minutes);
    assert(s@ =~= simple_display(duration.millis as int));
    s
}

} // verus!
