//! Time model: absolute points in time (`DateTime`), relative calendar
//! offsets (`Duration`), and the arithmetic between them.
//!
//! A `DateTime` carries its calendar fields together with `timestamp`, a
//! cached epoch-seconds value for the instant those fields name. Resolving
//! calendar fields against the machine's local time zone is the only thing
//! chrono is needed for; the offset arithmetic itself is plain integer math
//! and is verified. Durations use a fixed-length calendar approximation: a
//! month counts as 30 days and a year as 365 days, deliberately, so that
//! advancing a due-time is a pure function of the duration's fields.

use vstd::prelude::*;

use chrono::{Datelike, Timelike};

verus! {

/// Time zone tag of a `DateTime`. Only `Local` is produced by the
/// constructors in this module; the other variants exist for values handed
/// in from outside.
#[derive(Clone, Copy, Debug, PartialEq, Eq, Structural)]
pub enum TimeZone {
    Utc,
    Local,
    Offset(i8),
}

/// An absolute point in time: calendar fields plus the cached epoch-seconds
/// value `timestamp` of the instant they name in `time_zone`.
#[derive(Clone, Copy, Debug, PartialEq, Eq, Structural)]
pub struct DateTime {
    pub year: i32,
    pub month: u32,
    pub day: u32,
    pub hour: u32,
    pub min: u32,
    pub sec: u32,
    pub timestamp: i64,
    pub time_zone: TimeZone,
}

/// A relative calendar offset. `total_sec` is an informational
/// approximation of the offset in seconds (30-day months, 360-day years);
/// the authoritative addition semantics are `duration_offset`.
#[derive(Clone, Copy, Debug, PartialEq, Eq, Structural)]
pub struct Duration {
    pub year: i32,
    pub month: u32,
    pub day: u32,
    pub hour: u32,
    pub min: u32,
    pub sec: u32,
    pub total_sec: u64,
}

/// Calendar fields that chrono's accessors can produce: month 1..=12,
/// day 1..=31, hour 0..=23, minute and second 0..=59.
pub open spec fn calendar_in_range(d: DateTime) -> bool {
    &&& 1 <= d.month <= 12
    &&& 1 <= d.day <= 31
    &&& d.hour <= 23
    &&& d.min <= 59
    &&& d.sec <= 59
}

/// Epoch-seconds values that chrono can represent at all (its calendar is
/// limited to roughly 262000 years around the common era, which stays well
/// inside nine trillion seconds).
pub open spec fn ts_in_chrono_range(ts: i64) -> bool {
    -9_000_000_000_000 <= ts <= 9_000_000_000_000
}

/// The number of seconds a duration stands for under the fixed-length
/// calendar approximation: a month is 30 days, a year is 365 days.
pub open spec fn duration_offset(d: Duration) -> int {
    d.sec + d.min * 60 + d.hour * 3600 + (d.day + d.month * 30 + d.year * 365) * 86400
}

/// The informational seconds total stored in `Duration::total_sec`:
/// a 30-day month and a 360-day year, clamped below at zero.
pub open spec fn informational_total_sec(d: Duration) -> u64 {
    let t = d.sec + d.min * 60 + d.hour * 3600 + d.day * 86400 + d.month * 2_592_000
        + d.year * 31_104_000;
    if t < 0 {
        0u64
    } else {
        t as u64
    }
}

impl DateTime {
    /// Constructs a `DateTime` for the given local calendar fields.
    ///
    /// Relies on chrono's `TimeZone::with_ymd_and_hms` on `chrono::Local`:
    /// for a representable local time it returns that time, whose calendar
    /// accessors give the input fields back; an ambiguous local time (a
    /// daylight-saving fold) resolves to the earlier of the two candidate
    /// offsets; a nonexistent local time (a daylight-saving gap) or invalid
    /// calendar fields give `None`. The timestamp is chrono's epoch-seconds
    /// value for the resolved instant, bounded by chrono's year range.
    #[verifier::external_body]
    pub fn from_ymd_hms(year: i32, month: u32, day: u32, hour: u32, min: u32, sec: u32) -> (r:
        Option<DateTime>)
        ensures
            match r {
                Some(d) => {
                    &&& d.year == year
                    &&& d.month == month
                    &&& d.day == day
                    &&& d.hour == hour
                    &&& d.min == min
                    &&& d.sec == sec
                    &&& d.time_zone is Local
                    &&& ts_in_chrono_range(d.timestamp)
                },
                None => true,
            },
    {
        let new = match chrono::TimeZone::with_ymd_and_hms(&chrono::Local, year, month, day, hour, min, sec) {
            chrono::LocalResult::Single(data) => data,
            chrono::LocalResult::Ambiguous(dt, _dt2) => dt,
            chrono::LocalResult::None => return None,
        };
        Some(DateTime {
            sec: new.second(), min: new.minute(), hour: new.hour(), day: new.day(),
            month: new.month(), year: new.year(), timestamp: new.timestamp(),
            time_zone: TimeZone::Local,
        })
    }

    /// Reads the current local time.
    ///
    /// Relies on chrono's `Local::now`: the calendar accessors stay in their
    /// documented ranges and the timestamp stays inside chrono's year range.
    /// Nothing more can be said of a clock reading.
    #[verifier::external_body]
    pub fn now() -> (r: DateTime)
        ensures
            calendar_in_range(r),
            ts_in_chrono_range(r.timestamp),
            r.time_zone is Local,
    {
        let now = chrono::Local::now();
        DateTime {
            sec: now.second(), min: now.minute(), hour: now.hour(), day: now.day(),
            month: now.month(), year: now.year(), timestamp: now.timestamp(),
            time_zone: TimeZone::Local,
        }
    }

    /// The local calendar form of an epoch-seconds instant.
    ///
    /// Relies on chrono's `TimeZone::timestamp_opt` on `chrono::Local`: for
    /// an in-range number of seconds it returns the local calendar form of
    /// exactly that instant, so reading the timestamp back gives `ts` again;
    /// out-of-range seconds give `None` and — per its documentation — it
    /// never returns anything else, so any value within eight trillion
    /// seconds of the epoch (safely inside chrono's year range) succeeds.
    #[verifier::external_body]
    fn instant_to_local(ts: i64) -> (r: Option<DateTime>)
        ensures
            match r {
                Some(d) => {
                    &&& d.timestamp == ts
                    &&& calendar_in_range(d)
                    &&& d.time_zone is Local
                    &&& ts_in_chrono_range(ts)
                },
                None => true,
            },
            -8_000_000_000_000 <= ts <= 8_000_000_000_000 ==> r is Some,
    {
        let new = match chrono::TimeZone::timestamp_opt(&chrono::Local, ts, 0) {
            chrono::LocalResult::Single(data) => data,
            chrono::LocalResult::Ambiguous(dt, _dt2) => dt,
            chrono::LocalResult::None => return None,
        };
        Some(DateTime {
            sec: new.second(), min: new.minute(), hour: new.hour(), day: new.day(),
            month: new.month(), year: new.year(), timestamp: new.timestamp(),
            time_zone: TimeZone::Local,
        })
    }

    /// Moves an instant forward by a duration's fixed-length offset and
    /// returns its local calendar form. Success is owed whenever the shifted
    /// timestamp stays within eight trillion seconds of the epoch.
    pub fn advance_instant(base: &DateTime, duration: &Duration) -> (r: Option<DateTime>)
        ensures
            match r {
                Some(nd) => {
                    &&& nd.timestamp == base.timestamp + duration_offset(*duration)
                    &&& calendar_in_range(nd)
                    &&& ts_in_chrono_range(nd.timestamp)
                    &&& nd.time_zone is Local
                },
                None => true,
            },
            -8_000_000_000_000 <= base.timestamp + duration_offset(*duration)
                <= 8_000_000_000_000 ==> r is Some,
    {
        match shift_timestamp(base.timestamp, duration) {
            Some(ts) => Self::instant_to_local(ts),
            None => None,
        }
    }

    /// Calendar addition: the receiver's calendar fields are resolved
    /// against the local time zone afresh (ambiguity picks the earlier
    /// offset), the duration's fixed-length offset is added, and the
    /// result is re-derived from the shifted instant. `None`
    /// when the fields name no local time or the shifted instant is out of
    /// chrono's range.
    pub fn add_duration(&self, duration: &Duration) -> (r: Option<DateTime>)
        ensures
            match r {
                Some(nd) => {
                    &&& calendar_in_range(nd)
                    &&& ts_in_chrono_range(nd.timestamp)
                    &&& nd.time_zone is Local
                },
                None => true,
            },
    {
        match Self::from_ymd_hms(self.year, self.month, self.day, self.hour, self.min, self.sec) {
            Some(base) => Self::advance_instant(&base, duration),
            None => None,
        }
    }

    /// The current local time moved forward by `duration`.
    pub fn from_duration(duration: &Duration) -> (r: Option<DateTime>)
        ensures
            match r {
                Some(nd) => {
                    &&& calendar_in_range(nd)
                    &&& ts_in_chrono_range(nd.timestamp)
                    &&& nd.time_zone is Local
                },
                None => true,
            },
    {
        let now = Self::now();
        Self::advance_instant(&now, duration)
    }

    /// The current local time moved one day forward and re-derived from
    /// the shifted instant, as a "tomorrow" fallback. Only a clock at the
    /// very edge of the representable range cannot be moved; it falls back
    /// to the current time itself, which is then due at once.
    pub fn one_day() -> (r: DateTime)
        ensures
            calendar_in_range(r),
            ts_in_chrono_range(r.timestamp),
            r.time_zone is Local,
    {
        let now = Self::now();
        match Self::one_day_from(&now) {
            Some(t) => t,
            None => now,
        }
    }

    /// `now` moved one day of seconds forward, in the local calendar form
    /// of the shifted instant. Success is owed while the shifted timestamp
    /// stays within eight trillion seconds of the epoch.
    pub fn one_day_from(now: &DateTime) -> (r: Option<DateTime>)
        ensures
            match r {
                Some(t) => {
                    &&& t.timestamp == now.timestamp + 86400
                    &&& calendar_in_range(t)
                    &&& ts_in_chrono_range(t.timestamp)
                    &&& t.time_zone is Local
                },
                None => true,
            },
            -8_000_000_000_000 <= now.timestamp + 86400 <= 8_000_000_000_000 ==> r is Some,
    {
        let one = Duration::one_day();
        Self::advance_instant(now, &one)
    }

    /// The stored epoch-seconds value of this point in time.
    pub fn timestamp(&self) -> (r: i64)
        ensures
            r == self.timestamp,
    {
        self.timestamp
    }

    /// Whether this point in time is due at the given current time: true
    /// exactly when the stored timestamp is at or before `now`'s. This is
    /// the sole due-time predicate the scheduling engine relies on.
    pub fn is_up_at(&self, now: &DateTime) -> (r: bool)
        ensures
            r == (self.timestamp <= now.timestamp),
    {
        self.timestamp <= now.timestamp
    }

    /// Whether this point in time is due now. The comparison itself is
    /// `is_up_at`; this merely reads the clock for it.
    pub fn is_up(&self) -> (r: bool) {
        let now = Self::now();
        self.is_up_at(&now)
    }
}

impl Default for DateTime {
    /// The all-zero local `DateTime`.
    fn default() -> (r: Self)
        ensures
            r == (DateTime {
                year: 0i32,
                month: 0u32,
                day: 0u32,
                hour: 0u32,
                min: 0u32,
                sec: 0u32,
                timestamp: 0i64,
                time_zone: TimeZone::Local,
            }),
    {
        DateTime {
            sec: 0,
            min: 0,
            hour: 0,
            day: 0,
            month: 0,
            year: 0,
            timestamp: 0,
            time_zone: TimeZone::Local,
        }
    }
}

/// `base` shifted by the duration's fixed-length offset, or `None` when the
/// sum leaves `i64`.
pub fn shift_timestamp(base: i64, duration: &Duration) -> (r: Option<i64>)
    ensures
        match r {
            Some(ts) => ts == base + duration_offset(*duration),
            None => !(i64::MIN <= base + duration_offset(*duration) <= i64::MAX),
        },
{
    base.checked_add(duration_offset_seconds(duration))
}

/// The duration's fixed-length offset in seconds, as executable arithmetic.
/// The fields are small enough that the sum always fits an `i64`.
pub fn duration_offset_seconds(duration: &Duration) -> (r: i64)
    ensures
        r == duration_offset(*duration),
{
    let days: i64 = duration.day as i64 + duration.month as i64 * 30 + duration.year as i64 * 365;
    duration.sec as i64 + duration.min as i64 * 60 + duration.hour as i64 * 3600 + days * 86400
}

/// Adding a duration's fixed-length offset to an instant and then
/// subtracting the same offset returns to the original instant: the
/// 30-day-month, 365-day-year approximation is applied consistently in both
/// directions.
pub proof fn lemma_offset_round_trip(t: DateTime, d: Duration)
    ensures
        (t.timestamp + duration_offset(d)) - duration_offset(d) == t.timestamp,
{
}

impl Duration {
    /// The one-day duration used as a fallback when no duration flags were
    /// given; its informational `total_sec` is the one-day value of the
    /// seconds formula.
    pub fn one_day() -> (r: Self)
        ensures
            r == (Duration {
                year: 0i32,
                month: 0u32,
                day: 1u32,
                hour: 0u32,
                min: 0u32,
                sec: 0u32,
                total_sec: 86400u64,
            }),
            r.total_sec == informational_total_sec(r),
    {
        Duration { sec: 0, min: 0, hour: 0, day: 1, month: 0, year: 0, total_sec: 86400 }
    }
}

impl Default for Duration {
    /// The zero duration.
    fn default() -> (r: Self)
        ensures
            r == (Duration {
                year: 0i32,
                month: 0u32,
                day: 0u32,
                hour: 0u32,
                min: 0u32,
                sec: 0u32,
                total_sec: 0u64,
            }),
    {
        Duration { sec: 0, min: 0, hour: 0, day: 0, month: 0, year: 0, total_sec: 0 }
    }
}

} // verus!
