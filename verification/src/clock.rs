use vstd::prelude::*;

use std::str::FromStr;
use chrono::{DateTime, Timelike};
use chrono_tz::Tz;

use crate::PlannerError;
use crate::prices::{SpotPrice, window_wf, valid_price, TIME_LIMIT};

verus! {

/// Whether a name denotes a time zone in the table compiled into `chrono_tz`:
/// what `Tz::from_str` answers for it.
pub uninterp spec fn is_known_time_zone(name: Seq<char>) -> bool;

/// The minutes past local midnight that `chrono` computes for a Unix
/// timestamp in a named time zone; a function of the timestamp, the name, and
/// the time-zone data compiled into `chrono_tz`.
pub uninterp spec fn local_minutes_of_day(utc_seconds: int, tz_name: Seq<char>) -> int;

/// Relies on chrono_tz's `Tz::from_str`: a lookup of the name in the crate's
/// static time-zone table.
#[verifier::external_body]
fn time_zone_exists(name: &str) -> (r: bool)
    ensures
        r == is_known_time_zone(name@),
{
    Tz::from_str(name).is_ok()
}

/// Relies on chrono's `DateTime::from_timestamp` (defined for any timestamp
/// within the required bound) and `with_timezone`, and on `Timelike::hour`
/// and `minute`, which chrono documents as 0..=23 and 0..=59.
#[verifier::external_body]
fn minutes_of_day_in_zone(utc_seconds: i64, tz_name: &str) -> (r: u16)
    requires
        is_known_time_zone(tz_name@),
        -TIME_LIMIT <= utc_seconds <= TIME_LIMIT,
    ensures
        r == local_minutes_of_day(utc_seconds as int, tz_name@),
        r < 1440,
{
    let tz = Tz::from_str(tz_name).unwrap();
    let utc = DateTime::from_timestamp(utc_seconds, 0).unwrap();
    let local = utc.with_timezone(&tz);
    (60 * local.hour() + local.minute()) as u16
}

/// The `[from, till)` minute boundaries of a window on the device's local
/// clock: the minutes past local midnight of the first entry's start and of
/// the last entry's end. An empty window has no boundaries and consults no
/// time zone; a non-empty window with an unknown time-zone name is a
/// configuration error.
pub fn window_device_interval(window: &Vec<SpotPrice>, tz_name: &str) -> (r: Result<
    Option<(u16, u16)>,
    PlannerError,
>)
    requires
        window_wf(window@),
    ensures
        (match r {
            Ok(None) => window@.len() == 0,
            Ok(Some(p)) => window@.len() > 0 && is_known_time_zone(tz_name@) && p.0
                == local_minutes_of_day(window@.first().from as int, tz_name@) && p.1
                == local_minutes_of_day(window@.last().till as int, tz_name@) && p.0 < 1440 && p.1
                < 1440,
            Err(e) => window@.len() > 0 && !is_known_time_zone(tz_name@) && e
                == PlannerError::InvalidConfig,
        }),
{
    if window.len() == 0 {
        return Ok(None);
    }
    if !time_zone_exists(tz_name) {
        return Err(PlannerError::InvalidConfig);
    }
    let first = window[0];
    let last = window[window.len() - 1];
    proof {
        assert(valid_price(window@[0]));
        assert(valid_price(window@[window@.len() - 1]));
    }
    let from_minutes = minutes_of_day_in_zone(first.from, tz_name);
    let till_minutes = minutes_of_day_in_zone(last.till, tz_name);
    Ok(Some((from_minutes, till_minutes)))
}

} // verus!
