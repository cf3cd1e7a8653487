//! The display text for one target second: the civil date in the
//! configured time zone and the wall-clock time, rendered exactly as the
//! remote message shows it. The time-of-day digits are computed and
//! proved here; the civil calendar date comes from the calendar library
//! behind one trusted call.

use crate::digits::{dec_digits, digit_char, two_digits};
use crate::NANOS_PER_SEC;
use chrono::Datelike;
use vstd::prelude::*;
use vstd::string::StringExecFns;

verus! {

/// Timestamps the formatter accepts, in epoch seconds: far beyond any
/// u64-nanosecond clock value, and well inside the calendar library's
/// representable range.
pub const CIVIL_SECS_LIMIT: u64 = 100_000_000_000;

/// The civil calendar date (year, month, day) of an epoch-seconds
/// instant, proleptic Gregorian, as the calendar library computes it.
pub uninterp spec fn civil_ymd_of(secs: u64) -> (u32, u32, u32);

/// Relies on chrono's `DateTime::<Utc>::from_timestamp` with the
/// `Datelike` accessors `year`, `month` and `day`: the civil date is a
/// function of the timestamp alone, and every timestamp below
/// `CIVIL_SECS_LIMIT` is inside chrono's representable range, so the
/// conversion cannot fail there.
#[verifier::external_body]
fn civil_ymd(secs: u64) -> (r: (u32, u32, u32))
    requires
        secs < CIVIL_SECS_LIMIT,
    ensures
        r == civil_ymd_of(secs),
{
    let dt = chrono::DateTime::from_timestamp(secs as i64, 0).unwrap();
    (dt.year() as u32, dt.month(), dt.day())
}

/// The one-character string for one decimal digit.
fn digit_str(d: u64) -> (r: &'static str)
    requires
        d < 10,
    ensures
        r@ == seq![digit_char(d as int)],
{
    let r = match d {
        0 => "0",
        1 => "1",
        2 => "2",
        3 => "3",
        4 => "4",
        5 => "5",
        6 => "6",
        7 => "7",
        8 => "8",
        _ => "9",
    };
    proof {
        reveal_strlit("0");
        reveal_strlit("1");
        reveal_strlit("2");
        reveal_strlit("3");
        reveal_strlit("4");
        reveal_strlit("5");
        reveal_strlit("6");
        reveal_strlit("7");
        reveal_strlit("8");
        reveal_strlit("9");
        assert(r@ =~= seq![digit_char(d as int)]);
    }
    r
}

/// Renders a number in decimal, no leading zeros.
pub fn u64_to_string(n: u64) -> (r: String)
    ensures
        r@ == dec_digits(n as int),
    decreases n,
{
    if n < 10 {
        String::from_str(digit_str(n))
    } else {
        let mut r = u64_to_string(n / 10);
        r.append(digit_str(n % 10));
        proof {
            assert(r@ =~= dec_digits(n as int));
        }
        r
    }
}

/// Renders a value below one hundred as exactly two digits, zero-padded.
pub fn two_digit_string(n: u64) -> (r: String)
    requires
        n < 100,
    ensures
        r@ == two_digits(n as int),
{
    let mut r = String::from_str(digit_str(n / 10));
    r.append(digit_str(n % 10));
    proof {
        assert(r@ =~= two_digits(n as int));
    }
    r
}

/// The epoch second a target instant displays as, once the configured
/// time-zone offset is applied.
pub fn display_seconds(date_ns: u64, tz_secs: i64) -> (r: u64)
    requires
        -86_400 <= tz_secs <= 86_400,
        date_ns as int / (NANOS_PER_SEC as int) + tz_secs >= 0,
    ensures
        r == date_ns as int / (NANOS_PER_SEC as int) + tz_secs,
{
    let utc = (date_ns / NANOS_PER_SEC) as i64;
    (utc + tz_secs) as u64
}

/// The displayed text for an epoch second: the civil date as
/// `year/month/day`, then `hour:minute:second` with the minute and
/// second zero-padded, wrapped in the fixed message phrase.
pub fn format_msg(secs: u64) -> (r: String)
    requires
        secs < CIVIL_SECS_LIMIT,
    ensures
        r@ == "\u{600E}\u{4E48}\u{90FD} "@ + dec_digits(civil_ymd_of(secs).0 as int) + "/"@
            + dec_digits(civil_ymd_of(secs).1 as int) + "/"@ + dec_digits(
            civil_ymd_of(secs).2 as int,
        ) + " "@ + dec_digits((secs as int / 3600) % 24) + ":"@ + two_digits(
            (secs as int / 60) % 60,
        ) + ":"@ + two_digits(secs as int % 60) + " \u{4E86}"@,
{
    let (y, mo, d) = civil_ymd(secs);
    let h: u64 = (secs / 3600) % 24;
    let mi: u64 = (secs / 60) % 60;
    let sec: u64 = secs % 60;
    let mut r = String::from_str("\u{600E}\u{4E48}\u{90FD} ");
    let ys = u64_to_string(y as u64);
    r.append(ys.as_str());
    r.append("/");
    let mos = u64_to_string(mo as u64);
    r.append(mos.as_str());
    r.append("/");
    let ds = u64_to_string(d as u64);
    r.append(ds.as_str());
    r.append(" ");
    let hs = u64_to_string(h);
    r.append(hs.as_str());
    r.append(":");
    let mis = two_digit_string(mi);
    r.append(mis.as_str());
    r.append(":");
    let ss = two_digit_string(sec);
    r.append(ss.as_str());
    r.append(" \u{4E86}");
    r
}

} // verus!
