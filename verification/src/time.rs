//! Times of day.
//!
//! A frame is a function of the moment at which it is painted. The host
//! hands that moment in as milliseconds since the Unix epoch, together with
//! the offset of its time zone; this module turns the two into the time of
//! day that a clock shows.

use vstd::prelude::*;
use chrono::{DateTime, FixedOffset, Timelike};

verus! {

/// A time of day on a 24-hour clock.
#[derive(Clone, Copy, Debug, PartialEq, Eq, Structural)]
pub struct TimeOfDay {
    pub hour: u32,
    pub minute: u32,
    pub second: u32,
}

impl TimeOfDay {
    /// Hours run from 0 to 23, minutes and seconds from 0 to 59.
    pub open spec fn wf(self) -> bool {
        self.hour < 24 && self.minute < 60 && self.second < 60
    }

    /// The time of day `hour:minute:second`, if there is such a time.
    pub fn new(hour: u32, minute: u32, second: u32) -> (time: Option<TimeOfDay>)
        ensures
            time is Some <==> hour < 24 && minute < 60 && second < 60,
            time is Some ==> time->0 == (TimeOfDay { hour, minute, second }),
    {
        if hour < 24 && minute < 60 && second < 60 {
            Some(TimeOfDay { hour, minute, second })
        } else {
            None
        }
    }
}

/// The moments that lie this many milliseconds or fewer from the Unix epoch
/// all have a date: about a quarter of a million years either way.
pub const DATED_MILLIS: i64 = 8_000_000_000_000_000;

/// Seconds in a day. A time zone lies less than a day from Greenwich.
pub const DAY_SECONDS: i32 = 86_400;

/// `now` milliseconds since the epoch is a moment with a date.
pub open spec fn has_date(now: int) -> bool {
    -DATED_MILLIS <= now <= DATED_MILLIS
}

/// `offset` seconds east of Greenwich is the offset of a time zone.
pub open spec fn is_offset(offset: int) -> bool {
    -DAY_SECONDS < offset < DAY_SECONDS
}

/// The seconds since midnight at `now` milliseconds since the epoch, where
/// the clocks stand `offset` seconds ahead of Greenwich.
pub open spec fn spec_second_of_day(now: int, offset: int) -> int {
    (now / 1000 + offset) % (DAY_SECONDS as int)
}

/// The time of day at `now` milliseconds since the epoch, where the clocks
/// stand `offset` seconds ahead of Greenwich; `None` for a moment without a
/// date and for an offset of a day or more.
pub open spec fn spec_time_of_day(now: int, offset: int) -> Option<TimeOfDay> {
    if has_date(now) && is_offset(offset) {
        let seconds = spec_second_of_day(now, offset);
        Some(
            TimeOfDay {
                hour: (seconds / 3600) as u32,
                minute: (seconds / 60 % 60) as u32,
                second: (seconds % 60) as u32,
            },
        )
    } else {
        None
    }
}

/// The time of day at `now_millis` in the zone `offset_seconds` east of
/// Greenwich, as `chrono` tells it.
///
/// Calls `FixedOffset::east_opt`, `DateTime::from_timestamp_millis` and
/// `DateTime::with_timezone`, then `Timelike::hour`, `minute` and `second`.
/// None of them looks at the host. The contract claims what their source
/// shows: `east_opt` takes the offsets of less than a day; every moment
/// within [`DATED_MILLIS`] of the epoch has a date; and the three numbers
/// are the hours, minutes and seconds of the seconds since midnight, which
/// are the whole seconds of the moment plus the offset, modulo a day.
#[verifier::external_body]
fn chrono_time_of_day(now_millis: i64, offset_seconds: i32) -> (time: Option<TimeOfDay>)
    ensures
        time is Some ==> is_offset(offset_seconds as int),
        has_date(now_millis as int) && is_offset(offset_seconds as int) ==> time is Some,
        time is Some ==> time->0.wf(),
        time is Some ==> time->0.hour * 3600 + time->0.minute * 60 + time->0.second
            == spec_second_of_day(now_millis as int, offset_seconds as int),
{
    match (FixedOffset::east_opt(offset_seconds), DateTime::from_timestamp_millis(now_millis)) {
        (Some(offset), Some(moment)) => {
            let local = moment.with_timezone(&offset);
            Some(TimeOfDay { hour: local.hour(), minute: local.minute(), second: local.second() })
        },
        _ => None,
    }
}

/// The time of day at `now_millis` in the zone `offset_seconds` east of
/// Greenwich; `None` for a moment without a date and for an offset of a day
/// or more.
pub fn time_of_day(now_millis: i64, offset_seconds: i32) -> (time: Option<TimeOfDay>)
    ensures
        time == spec_time_of_day(now_millis as int, offset_seconds as int),
        time is Some ==> time->0.wf(),
{
    if -DATED_MILLIS <= now_millis && now_millis <= DATED_MILLIS && -DAY_SECONDS < offset_seconds
        && offset_seconds < DAY_SECONDS {
        chrono_time_of_day(now_millis, offset_seconds)
    } else {
        None
    }
}

} // verus!
