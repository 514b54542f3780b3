use vstd::prelude::*;

verus! {

/// Format handed to chrono for local timestamps: `YYYY-MM-DD HH:MM:SS`.
pub const DATETIME_FORMAT: &'static str = "%Y-%m-%d %H:%M:%S";

/// Number of characters of a timestamp in `YYYY-MM-DD HH:MM:SS` form.
pub const TIMESTAMP_LEN: usize = 19;

pub open spec fn is_digit(c: char) -> bool {
    '0' <= c && c <= '9'
}

/// Whether position `k` of a `YYYY-MM-DD HH:MM:SS` timestamp holds a digit
/// (the others hold a separator).
pub open spec fn digit_position(k: int) -> bool {
    k != 4 && k != 7 && k != 10 && k != 13 && k != 16
}

/// The separator expected at a non-digit position of a timestamp.
pub open spec fn separator_at(k: int) -> char {
    if k == 4 || k == 7 {
        '-'
    } else if k == 10 {
        ' '
    } else {
        ':'
    }
}

/// `t` has the shape `DDDD-DD-DD DD:DD:DD` (ASCII digits).
pub open spec fn is_timestamp_shape(t: Seq<char>) -> bool {
    &&& t.len() == TIMESTAMP_LEN
    &&& forall|k: int|
        0 <= k < TIMESTAMP_LEN ==> if digit_position(k) {
            is_digit(#[trigger] t[k])
        } else {
            t[k] == separator_at(k)
        }
}

pub open spec fn digit_value(c: char) -> int {
    c as int - '0' as int
}

/// The decimal number written by the `n` characters of `t` from `i` on.
pub open spec fn number_at(t: Seq<char>, i: int, n: nat) -> int
    decreases n,
{
    if n == 0 {
        0
    } else {
        number_at(t, i, (n - 1) as nat) * 10 + digit_value(t[i + n - 1])
    }
}

pub open spec fn year_of(t: Seq<char>) -> int {
    number_at(t, 0, 4)
}

pub open spec fn month_of(t: Seq<char>) -> int {
    number_at(t, 5, 2)
}

pub open spec fn day_of(t: Seq<char>) -> int {
    number_at(t, 8, 2)
}

pub open spec fn hour_of(t: Seq<char>) -> int {
    number_at(t, 11, 2)
}

pub open spec fn minute_of(t: Seq<char>) -> int {
    number_at(t, 14, 2)
}

pub open spec fn second_of(t: Seq<char>) -> int {
    number_at(t, 17, 2)
}

/// Leap years of the proleptic Gregorian calendar.
pub open spec fn is_leap_year(y: int) -> bool {
    (y % 4 == 0 && y % 100 != 0) || y % 400 == 0
}

pub open spec fn days_in_month(y: int, m: int) -> int {
    if m == 2 {
        if is_leap_year(y) {
            29
        } else {
            28
        }
    } else if m == 4 || m == 6 || m == 9 || m == 11 {
        30
    } else {
        31
    }
}

/// A timestamp of the right shape names a real date and time of day; a
/// seconds field of 60 is a leap second.
pub open spec fn is_valid_timestamp(t: Seq<char>) -> bool {
    &&& 1 <= month_of(t) <= 12
    &&& 1 <= day_of(t) <= days_in_month(year_of(t), month_of(t))
    &&& hour_of(t) <= 23
    &&& minute_of(t) <= 59
    &&& second_of(t) <= 60
}

/// Days from 1970-01-01 to the given date of the proleptic Gregorian calendar
/// (negative before it).
pub open spec fn days_from_civil(y: int, m: int, d: int) -> int {
    let y1 = if m <= 2 {
        y - 1
    } else {
        y
    };
    let era = y1 / 400;
    let yoe = y1 - era * 400;
    let mp = (m + 9) % 12;
    let doy = (153 * mp + 2) / 5 + d - 1;
    let doe = yoe * 365 + yoe / 4 - yoe / 100 + doy;
    era * 146097 + doe - 719468
}

/// Seconds since the Unix epoch of a timestamp read as UTC wall-clock time;
/// a leap second counts as the second before it.
pub open spec fn epoch_seconds(t: Seq<char>) -> int {
    let s = if second_of(t) == 60 {
        59
    } else {
        second_of(t)
    };
    days_from_civil(year_of(t), month_of(t), day_of(t)) * 86400 + hour_of(t) * 3600 + minute_of(t)
        * 60 + s
}

/// Relies on chrono's `NaiveDateTime::parse_from_str` with the format
/// `%Y-%m-%d %H:%M:%S`, which accepts a well-shaped timestamp exactly when it
/// names a real date and time (seconds up to 60), and on
/// `NaiveDateTime::and_utc` with `DateTime::timestamp`, which count the
/// non-leap seconds since 1970-01-01 00:00:00.
#[verifier::external_body]
fn parse_utc_seconds(text: &str, format: &str) -> (r: Option<i64>)
    requires
        format@ == DATETIME_FORMAT@,
        is_timestamp_shape(text@),
    ensures
        r is Some <==> is_valid_timestamp(text@),
        r is Some ==> r->0 == epoch_seconds(text@),
{
    chrono::NaiveDateTime::parse_from_str(text, format).ok().map(|d| d.and_utc().timestamp())
}

/// Seconds since the Unix epoch of a `YYYY-MM-DD HH:MM:SS` timestamp, read as
/// UTC with no time zone conversion; `None` where it names no real date and time.
pub fn timestamp_seconds(text: &str) -> (r: Option<i64>)
    requires
        is_timestamp_shape(text@),
    ensures
        r is Some <==> is_valid_timestamp(text@),
        r is Some ==> r->0 == epoch_seconds(text@),
{
    parse_utc_seconds(text, DATETIME_FORMAT)
}

} // verus!
