//! The Gregorian calendar rules, timestamp formatting, and the clock and
//! time-zone readings taken from chrono.

use vstd::prelude::*;
use crate::strutil::{spec_dec_pad, append_dec_pad, push_char};

verus! {

/// A Gregorian leap year.
pub open spec fn is_leap_year(y: nat) -> bool {
    (y % 4 == 0 && y % 100 != 0) || y % 400 == 0
}

/// Number of days in month `m` (1 to 12) of year `y`.
pub open spec fn days_in_month(y: nat, m: nat) -> nat {
    if m == 2 {
        if is_leap_year(y) {
            29
        } else {
            28
        }
    } else if m == 4 || m == 6 || m == 9 || m == 11 {
        30
    } else {
        31
    }
}

/// The fields name a day that exists in the Gregorian calendar.
pub open spec fn valid_date(y: nat, m: nat, d: nat) -> bool {
    1 <= m <= 12 && 1 <= d <= days_in_month(y, m)
}

/// The fields name a time of day.
pub open spec fn valid_time(h: nat, mi: nat, s: nat) -> bool {
    h <= 23 && mi <= 59 && s <= 59
}

/// The fields as `YYYY-MM-DD HH:MM:SS`.
pub open spec fn spec_format_datetime(y: nat, mo: nat, d: nat, h: nat, mi: nat, s: nat) -> Seq<
    char,
> {
    spec_dec_pad(y, 4) + seq!['-'] + spec_dec_pad(mo, 2) + seq!['-'] + spec_dec_pad(d, 2)
        + seq![' '] + spec_dec_pad(h, 2) + seq![':'] + spec_dec_pad(mi, 2) + seq![':']
        + spec_dec_pad(s, 2)
}

/// Renders the fields as `YYYY-MM-DD HH:MM:SS`, each part zero-padded.
pub fn format_datetime(y: u32, mo: u32, d: u32, h: u32, mi: u32, s: u32) -> (r: String)
    ensures
        r@ == spec_format_datetime(y as nat, mo as nat, d as nat, h as nat, mi as nat, s as nat),
{
    let mut out = String::new();
    append_dec_pad(&mut out, y as u64, 4);
    push_char(&mut out, '-');
    append_dec_pad(&mut out, mo as u64, 2);
    push_char(&mut out, '-');
    append_dec_pad(&mut out, d as u64, 2);
    push_char(&mut out, ' ');
    append_dec_pad(&mut out, h as u64, 2);
    push_char(&mut out, ':');
    append_dec_pad(&mut out, mi as u64, 2);
    push_char(&mut out, ':');
    append_dec_pad(&mut out, s as u64, 2);
    proof {
        assert(out@ =~= spec_format_datetime(
            y as nat,
            mo as nat,
            d as nat,
            h as nat,
            mi as nat,
            s as nat,
        ));
    }
    out
}

/// Relies on chrono's Local::now and DateTime::timestamp: the current moment as
/// seconds since the Unix epoch. chrono date-times are confined to roughly
/// 262000 years on either side of the common era, so the value is far inside i64.
#[verifier::external_body]
pub fn now_timestamp() -> (r: i64)
    ensures
        -9_000_000_000_000 < r < 9_000_000_000_000,
{
    chrono::Local::now().timestamp()
}

/// Relies on chrono's NaiveDate::from_ymd_opt, NaiveTime::from_hms_opt,
/// NaiveDate::and_time and TimeZone::from_local_datetime: `None` unless the
/// fields name a day of the Gregorian calendar and a time of day, the year is in
/// chrono's supported range, and the machine's local time zone maps that wall
/// clock reading to exactly one moment; on `Some`, that moment as seconds since
/// the Unix epoch.
#[verifier::external_body]
pub fn local_timestamp(year: u32, month: u32, day: u32, hour: u32, minute: u32, second: u32) -> (r:
    Option<i64>)
    requires
        year <= 0x7fff_ffff,
    ensures
        r is Some ==> valid_date(year as nat, month as nat, day as nat) && valid_time(
            hour as nat,
            minute as nat,
            second as nat,
        ),
        r is Some ==> -9_000_000_000_000 < r->Some_0 < 9_000_000_000_000,
{
    let date = chrono::NaiveDate::from_ymd_opt(year as i32, month, day)?;
    let time = chrono::NaiveTime::from_hms_opt(hour, minute, second)?;
    let naive = date.and_time(time);
    let dt = chrono::TimeZone::from_local_datetime(&chrono::Local, &naive).single()?;
    Some(dt.timestamp())
}

} // verus!
