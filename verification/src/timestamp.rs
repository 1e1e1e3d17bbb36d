//! Timestamp rendering: a nanosecond Unix offset becomes a UTC date-time
//! string in extended ISO-8601/RFC3339 form with exactly three fractional
//! digits, e.g. `2021-05-06T19:17:10.010Z`. Nanoseconds are truncated to
//! milliseconds. The calendar conversion itself comes from the `time` crate;
//! everything around it — the second/millisecond split, the digit rendering
//! and the assembly of the string — is verified.

use vstd::prelude::*;
use vstd::arithmetic::div_mod::{lemma_fundamental_div_mod, lemma_fundamental_div_mod_converse};
use crate::chars::{pad2, pad3, pad4, push_pad2, push_pad3, push_pad4};

verus! {

/// The smallest Unix second count that `time` can turn into a calendar
/// instant (midnight opening year -9999).
pub const MIN_UNIX_SECONDS: i64 = -377705116800;

/// The largest Unix second count that `time` can turn into a calendar
/// instant (the last second of year 9999).
pub const MAX_UNIX_SECONDS: i64 = 253402300799;

/// The calendar year, in UTC, of the instant `secs` seconds after the Unix
/// epoch.
pub uninterp spec fn year_of(secs: int) -> int;

/// The calendar month (1 to 12), in UTC, of the instant `secs` seconds after
/// the Unix epoch.
pub uninterp spec fn month_of(secs: int) -> int;

/// The day of the month (1 to 31), in UTC, of the instant `secs` seconds
/// after the Unix epoch.
pub uninterp spec fn day_of(secs: int) -> int;

/// The hour of day (0 to 23), in UTC, of the instant `secs` seconds after
/// the Unix epoch.
pub uninterp spec fn hour_of(secs: int) -> int;

/// The minute (0 to 59), in UTC, of the instant `secs` seconds after the
/// Unix epoch.
pub uninterp spec fn minute_of(secs: int) -> int;

/// The second within the minute (0 to 59), in UTC, of the instant `secs`
/// seconds after the Unix epoch.
pub uninterp spec fn second_of(secs: int) -> int;

/// Relies on `time::OffsetDateTime::from_unix_timestamp` and its accessors
/// `year`, `month`, `day`, `hour`, `minute` and `second`: the conversion
/// succeeds exactly for seconds between the first instant of year -9999 and
/// the last of year 9999, and each accessor is a function of the instant
/// alone, within its documented range.
#[verifier::external_body]
fn civil_from_unix(secs: i64) -> (r: Option<(i32, u8, u8, u8, u8, u8)>)
    ensures
        r is Some <==> MIN_UNIX_SECONDS <= secs <= MAX_UNIX_SECONDS,
        match r {
            Some(t) => {
                &&& t.0 as int == year_of(secs as int) && -9999 <= t.0 <= 9999
                &&& t.1 as int == month_of(secs as int) && 1 <= t.1 <= 12
                &&& t.2 as int == day_of(secs as int) && 1 <= t.2 <= 31
                &&& t.3 as int == hour_of(secs as int) && t.3 <= 23
                &&& t.4 as int == minute_of(secs as int) && t.4 <= 59
                &&& t.5 as int == second_of(secs as int) && t.5 <= 59
            },
            None => true,
        },
{
    match time::OffsetDateTime::from_unix_timestamp(secs) {
        Ok(t) => Some((t.year(), t.month() as u8, t.day(), t.hour(), t.minute(), t.second())),
        Err(_) => None,
    }
}

/// The whole seconds of a nanosecond offset, rounded toward minus infinity.
pub open spec fn unix_seconds(ns: int) -> int {
    ns / 1_000_000_000
}

/// The milliseconds within the second of a nanosecond offset, truncated.
pub open spec fn subsec_millis(ns: int) -> int {
    (ns % 1_000_000_000) / 1_000_000
}

/// True when the offset can be rendered: its second count is a calendar
/// instant for `time`, and its year is not negative, so that the year has a
/// four-digit form.
pub open spec fn ts_renderable(ns: int) -> bool {
    &&& MIN_UNIX_SECONDS <= unix_seconds(ns) <= MAX_UNIX_SECONDS
    &&& 0 <= year_of(unix_seconds(ns))
}

/// The rendered timestamp: `YYYY-MM-DDThh:mm:ss.mmmZ`.
pub open spec fn spec_timestamp(ns: int) -> Seq<char>
    recommends
        ts_renderable(ns),
{
    let s = unix_seconds(ns);
    pad4(year_of(s)) + seq!['-'] + pad2(month_of(s)) + seq!['-'] + pad2(day_of(s)) + seq!['T']
        + pad2(hour_of(s)) + seq![':'] + pad2(minute_of(s)) + seq![':'] + pad2(second_of(s))
        + seq!['.'] + pad3(subsec_millis(ns)) + seq!['Z']
}

/// Splits a nanosecond offset into whole seconds (rounded toward minus
/// infinity) and truncated milliseconds within the second.
fn split_nanos(ns: i128) -> (r: (i128, u32))
    ensures
        r.0 == unix_seconds(ns as int),
        r.1 == subsec_millis(ns as int),
        r.1 < 1000,
{
    let (secs, subsec): (i128, u128) = if ns >= 0 {
        let n = ns as u128;
        let q = n / 1_000_000_000;
        let rem = n % 1_000_000_000;
        proof {
            lemma_fundamental_div_mod(n as int, 1_000_000_000);
            lemma_fundamental_div_mod_converse(
                ns as int,
                1_000_000_000,
                q as int,
                rem as int,
            );
        }
        (q as i128, rem)
    } else {
        let m: u128 = ((-(ns + 1)) as u128) + 1;
        let q = m / 1_000_000_000;
        let rem = m % 1_000_000_000;
        proof {
            lemma_fundamental_div_mod(m as int, 1_000_000_000);
        }
        if rem == 0 {
            proof {
                lemma_fundamental_div_mod_converse(
                    ns as int,
                    1_000_000_000,
                    -(q as int),
                    0,
                );
            }
            (-(q as i128), 0)
        } else {
            proof {
                lemma_fundamental_div_mod_converse(
                    ns as int,
                    1_000_000_000,
                    -(q as int) - 1,
                    1_000_000_000 - rem as int,
                );
            }
            (-(q as i128) - 1, 1_000_000_000 - rem)
        }
    };
    assert(subsec / 1_000_000 < 1000 && subsec / 1_000_000 == subsec_millis(ns as int))
        by (nonlinear_arith)
        requires
            0 <= subsec < 1_000_000_000,
            subsec == ns as int % 1_000_000_000,
    ;
    (secs, (subsec / 1_000_000) as u32)
}

/// Renders the timestamp of a record, or reports that the offset lies
/// outside the renderable range.
pub fn render_timestamp(ns: i128) -> (r: Option<Vec<char>>)
    ensures
        r is Some <==> ts_renderable(ns as int),
        match r {
            Some(v) => v@ == spec_timestamp(ns as int),
            None => true,
        },
{
    let (secs, millis) = split_nanos(ns);
    if secs < MIN_UNIX_SECONDS as i128 || secs > MAX_UNIX_SECONDS as i128 {
        return None;
    }
    let (year, month, day, hour, minute, second) = civil_from_unix(secs as i64).unwrap();
    if year < 0 {
        return None;
    }
    let mut v: Vec<char> = Vec::new();
    push_pad4(&mut v, year as u32);
    v.push('-');
    push_pad2(&mut v, month as u32);
    v.push('-');
    push_pad2(&mut v, day as u32);
    v.push('T');
    push_pad2(&mut v, hour as u32);
    v.push(':');
    push_pad2(&mut v, minute as u32);
    v.push(':');
    push_pad2(&mut v, second as u32);
    v.push('.');
    push_pad3(&mut v, millis);
    v.push('Z');
    assert(v@ =~= spec_timestamp(ns as int));
    Some(v)
}

} // verus!
