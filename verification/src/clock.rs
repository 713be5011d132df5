//! Points in time, and how they are shown.
use vstd::prelude::*;

verus! {

/// A point in time: seconds since the start of 1970 in UTC, and nanoseconds after that second.
#[derive(Debug, Clone, Copy, PartialEq, Eq, Structural)]
pub struct Timestamp {
    pub secs: i64,
    pub nanos: u32,
}

/// The format in which the start of a server is shown.
pub const START_TIME_FORMAT: &'static str = "%Y-%m-%d %H:%M:%S UTC";

/// The format of the time in the name of a log file.
pub const LOG_STAMP_FORMAT: &'static str = "%Y%m%dT%H%M%S";

/// A point in time in UTC, written in a format of `chrono`, if its calendar reaches that far
/// and the second can have that many nanoseconds.
pub uninterp spec fn utc_text(secs: i64, nanos: u32, format: Seq<char>) -> Option<Seq<char>>;

/// `DateTime::from_timestamp` and `DateTime::format` of `chrono`: the text of a point in time in UTC, or
/// nothing where the calendar does not reach that far or no second has that many nanoseconds.
#[verifier::external_body]
fn format_utc(secs: i64, nanos: u32, format: &str) -> (r: Option<String>)
    requires
        format@ == START_TIME_FORMAT@ || format@ == LOG_STAMP_FORMAT@,
    ensures
        r is Some <==> utc_text(secs, nanos, format@) is Some,
        r is Some ==> r->0@ == utc_text(secs, nanos, format@)->0,
{
    match chrono::DateTime::from_timestamp(secs, nanos) {
        Some(time) => Some(time.format(format).to_string()),
        None => None,
    }
}

/// The second of the day, without leap seconds.
pub open spec fn second_of_day(t: Timestamp) -> int {
    t.secs as int % 86_400
}

/// Whether a point in time lies in a leap second, which is told as more than a second of nanoseconds.
pub open spec fn in_leap_second(t: Timestamp) -> bool {
    t.nanos >= 1_000_000_000
}

/// The leap second between `start` and `now`, in seconds, that the seconds of neither count: one that
/// `start` lies in, if `now` is later in the day, or one that `now` lies in, if it is earlier in the day.
pub open spec fn leap_seconds(start: Timestamp, now: Timestamp) -> int {
    if second_of_day(now) > second_of_day(start) && in_leap_second(start) {
        1
    } else if second_of_day(now) < second_of_day(start) && in_leap_second(now) {
        -1
    } else {
        0
    }
}

/// The time from `start` to `now` in nanoseconds; negative if `now` comes first.
pub open spec fn elapsed_nanos(start: Timestamp, now: Timestamp) -> int {
    (now.secs - start.secs + leap_seconds(start, now)) * 1_000_000_000 + (now.nanos - start.nanos)
}

/// The quotient, with its fraction cut off.
pub open spec fn truncated_div(a: int, b: int) -> int {
    if a >= 0 {
        a / b
    } else {
        -((-a) / b)
    }
}

/// The remainder that belongs to the quotient with its fraction cut off.
pub open spec fn truncated_rem(a: int, b: int) -> int {
    a - truncated_div(a, b) * b
}

/// A number modulo two to the 32nd.
pub open spec fn wrapped_u32(n: int) -> int {
    n % 0x1_0000_0000
}

/// How long a server has been up, in whole hours and the whole minutes after them.
#[derive(Debug, Clone, Copy, PartialEq, Eq, Structural)]
pub struct Uptime {
    pub hours: i64,
    pub minutes: u32,
}

/// The whole seconds from `start` to `now`.
pub open spec fn elapsed_seconds(start: Timestamp, now: Timestamp) -> int {
    truncated_div(elapsed_nanos(start, now), 1_000_000_000)
}

fn day_second(t: Timestamp) -> (r: u32)
    ensures
        r == second_of_day(t),
{
    // A whole number of days that makes every point in time positive.
    let shifted: u128 = (t.secs as i128 + 106_751_991_167_301 * 86_400) as u128;
    (shifted % 86_400) as u32
}

/// How long a server that started at `start` has been up.
pub fn uptime(start: Timestamp, now: Timestamp) -> (r: Uptime)
    ensures
        r.hours == truncated_div(elapsed_seconds(start, now), 3600),
        r.minutes == wrapped_u32(
            truncated_rem(truncated_div(elapsed_seconds(start, now), 60), 60),
        ),
        start.nanos < 1_000_000_000 && now.nanos < 1_000_000_000 ==> {
            let nanos = (now.secs - start.secs) * 1_000_000_000 + (now.nanos - start.nanos);
            nanos >= 0 ==> r.minutes < 60 && (r.hours * 60 + r.minutes) * 60_000_000_000 <= nanos < (
            r.hours * 60 + r.minutes + 1) * 60_000_000_000
        },
{
    proof {
        law_uptime_is_whole_minutes(start, now);
    }
    let start_of: u32 = day_second(start);
    let now_of: u32 = day_second(now);
    let leap: i128 = if now_of > start_of && start.nanos >= 1_000_000_000 {
        1
    } else if now_of < start_of && now.nanos >= 1_000_000_000 {
        -1
    } else {
        0
    };
    let nanos: i128 = (now.secs as i128 - start.secs as i128 + leap) * 1_000_000_000 + (
    now.nanos as i128 - start.nanos as i128);
    if nanos >= 0 {
        let seconds: u128 = nanos as u128 / 1_000_000_000;
        Uptime { hours: (seconds / 3600) as i64, minutes: (seconds / 60 % 60) as u32 }
    } else {
        let seconds: u128 = (-nanos) as u128 / 1_000_000_000;
        let minutes: u32 = (seconds / 60 % 60) as u32;
        let wrapped: u32 = if minutes == 0 {
            0
        } else {
            (0x1_0000_0000u64 - minutes as u64) as u32
        };
        Uptime { hours: -((seconds / 3600) as i64), minutes: wrapped }
    }
}

/// The start of a server, as it is shown. There is nothing to show of a point beyond the calendar, nor
/// of one with nanoseconds that no second has.
pub fn start_time_text(start: Timestamp) -> (r: Option<String>)
    ensures
        r is Some <==> utc_text(start.secs, start.nanos, START_TIME_FORMAT@) is Some,
        r is Some ==> r->0@ == utc_text(start.secs, start.nanos, START_TIME_FORMAT@)->0,
{
    format_utc(start.secs, start.nanos, START_TIME_FORMAT)
}

/// The name of the log file with the given time in it.
pub open spec fn debug_log_name_of(stamp: Seq<char>) -> Seq<char> {
    "index-debug-"@ + stamp + ".log"@
}

/// The name of the log file with the given time in it.
pub fn debug_log_name(stamp: &str) -> (r: String)
    ensures
        r@ == debug_log_name_of(stamp@),
{
    String::from_str("index-debug-").concat(stamp).concat(".log")
}

/// The name of the log file of a run that begins at `now`. There is none for a point beyond the calendar,
/// nor for one with nanoseconds that no second has.
pub fn debug_log_file(now: Timestamp) -> (r: Option<String>)
    ensures
        r is Some <==> utc_text(now.secs, now.nanos, LOG_STAMP_FORMAT@) is Some,
        r is Some ==> r->0@ == debug_log_name_of(
            utc_text(now.secs, now.nanos, LOG_STAMP_FORMAT@)->0,
        ),
{
    match format_utc(now.secs, now.nanos, LOG_STAMP_FORMAT) {
        Some(stamp) => Some(debug_log_name(stamp.as_str())),
        None => None,
    }
}

/// A server that has been up for some time is shown with no more than 59 minutes, and hours and minutes
/// together are the whole minutes that it has been up.
pub proof fn law_uptime_adds_up(start: Timestamp, now: Timestamp)
    requires
        elapsed_nanos(start, now) >= 0,
    ensures
        ({
            let secs = elapsed_seconds(start, now);
            let hours = truncated_div(secs, 3600);
            let minutes = wrapped_u32(truncated_rem(truncated_div(secs, 60), 60));
            &&& 0 <= minutes < 60
            &&& hours * 60 + minutes == secs / 60
        }),
{
}

/// A quotient with its fraction cut off is the one whose remainder is smaller than the divisor and has the
/// sign of the dividend.
pub proof fn law_division_cuts_off(a: int, b: int)
    requires
        b > 0,
    ensures
        a == truncated_div(a, b) * b + truncated_rem(a, b),
        -b < truncated_rem(a, b) < b,
        a >= 0 ==> truncated_rem(a, b) >= 0,
        a <= 0 ==> truncated_rem(a, b) <= 0,
        truncated_div(-a, b) == -truncated_div(a, b),
{
    let size = if a >= 0 {
        a
    } else {
        -a
    };
    assert(size == (size / b) * b + size % b && 0 <= size % b < b) by (nonlinear_arith)
        requires
            b > 0,
    ;
    let q = size / b;
    assert((-q) * b == -(q * b)) by (nonlinear_arith);
}

/// The hours of an uptime, and its minutes.
pub open spec fn uptime_fields(start: Timestamp, now: Timestamp) -> (int, int) {
    (
        truncated_div(elapsed_seconds(start, now), 3600),
        wrapped_u32(truncated_rem(truncated_div(elapsed_seconds(start, now), 60), 60)),
    )
}

/// The time that has passed between two points outside leap seconds is the difference of their
/// nanoseconds. A leap second counts where the earlier point of the day lies in it, and in no other case.
pub proof fn law_time_passed(start: Timestamp, now: Timestamp)
    ensures
        ({
            let plain = (now.secs - start.secs) * 1_000_000_000 + (now.nanos - start.nanos);
            let later = now.secs as int % 86_400 - start.secs as int % 86_400;
            elapsed_nanos(start, now) - plain == if later > 0 && start.nanos >= 1_000_000_000 {
                1_000_000_000int
            } else if later < 0 && now.nanos >= 1_000_000_000 {
                -1_000_000_000
            } else {
                0
            }
        }),
        elapsed_nanos(now, start) == -elapsed_nanos(start, now),
{
}

/// The hours and minutes of an uptime are the whole minutes that have passed, with at most 59 minutes.
pub proof fn law_uptime_is_whole_minutes(start: Timestamp, now: Timestamp)
    ensures
        ({
            let nanos = elapsed_nanos(start, now);
            let (hours, minutes) = uptime_fields(start, now);
            nanos >= 0 ==> {
                &&& hours >= 0
                &&& 0 <= minutes < 60
                &&& (hours * 60 + minutes) * 60_000_000_000 <= nanos < (hours * 60 + minutes + 1)
                    * 60_000_000_000
            }
        }),
        start.nanos < 1_000_000_000 && now.nanos < 1_000_000_000 ==> elapsed_nanos(start, now) == (
        now.secs - start.secs) * 1_000_000_000 + (now.nanos - start.nanos),
{
    let nanos = elapsed_nanos(start, now);
    if nanos >= 0 {
        let seconds = nanos / 1_000_000_000;
        assert(elapsed_seconds(start, now) == seconds);
        let all = seconds / 60;
        assert(uptime_fields(start, now).0 == all / 60);
        assert(uptime_fields(start, now).1 == all % 60);
    }
}

/// Where the clock was set back, the uptime has the negated hours of the time from now to the start, and its
/// minutes are negated modulo two to the 32nd.
pub proof fn law_uptime_backwards(start: Timestamp, now: Timestamp)
    requires
        elapsed_nanos(start, now) > 0,
    ensures
        uptime_fields(now, start).0 == -uptime_fields(start, now).0,
        (uptime_fields(now, start).1 + uptime_fields(start, now).1) % 0x1_0000_0000 == 0,
        0 <= uptime_fields(now, start).1 < 0x1_0000_0000,
{
    law_time_passed(start, now);
    law_uptime_is_whole_minutes(start, now);
    let seconds = elapsed_seconds(start, now);
    assert(elapsed_seconds(now, start) == -seconds);
    let minutes = seconds / 60 % 60;
    assert(truncated_rem(truncated_div(-seconds, 60), 60) == -minutes);
}

/// The name of a log file has the time in it, between a beginning and an ending that are always the same.
pub proof fn law_log_name_has_its_time(stamp: Seq<char>)
    ensures
        debug_log_name_of(stamp).len() == 16 + stamp.len(),
        debug_log_name_of(stamp).take(12) == "index-debug-"@,
        debug_log_name_of(stamp).subrange(12, 12 + stamp.len() as int) == stamp,
        debug_log_name_of(stamp).skip(12 + stamp.len() as int) == ".log"@,
{
    reveal_strlit("index-debug-");
    reveal_strlit(".log");
    let name = debug_log_name_of(stamp);
    assert(name.take(12) =~= "index-debug-"@);
    assert(name.subrange(12, 12 + stamp.len() as int) =~= stamp);
    assert(name.skip(12 + stamp.len() as int) =~= ".log"@);
}

} // verus!
