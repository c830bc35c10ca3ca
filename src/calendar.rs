use vstd::prelude::*;

verus! {

/// Seconds in one day.
pub const SECONDS_PER_DAY: i64 = 86400;

/// Largest distance from the Unix epoch, in seconds, of an instant that the
/// schedule accepts (about 190,000 years either way).
pub const MAX_INSTANT: i64 = 6_000_000_000_000;

/// An instant that the schedule computations accept.
pub open spec fn valid_instant(t: int) -> bool {
    -MAX_INSTANT <= t <= MAX_INSTANT
}

/// An offset from UTC, in seconds, strictly within one day.
pub open spec fn valid_offset(o: int) -> bool {
    -86400 < o < 86400
}

/// Day of the week, Monday first.
#[derive(Clone, Copy, Debug, PartialEq, Eq, Structural)]
pub enum Weekday {
    Mon,
    Tue,
    Wed,
    Thu,
    Fri,
    Sat,
    Sun,
}

impl Weekday {
    /// Position in the week: Monday is 0, Sunday is 6.
    pub open spec fn index(self) -> int {
        match self {
            Weekday::Mon => 0,
            Weekday::Tue => 1,
            Weekday::Wed => 2,
            Weekday::Thu => 3,
            Weekday::Fri => 4,
            Weekday::Sat => 5,
            Weekday::Sun => 6,
        }
    }

    pub fn num_days_from_monday(&self) -> (r: u32)
        ensures
            r == self.index(),
    {
        match self {
            Weekday::Mon => 0,
            Weekday::Tue => 1,
            Weekday::Wed => 2,
            Weekday::Thu => 3,
            Weekday::Fri => 4,
            Weekday::Sat => 5,
            Weekday::Sun => 6,
        }
    }
}

/// Position in the week of a day counted from 1970-01-01, a Thursday.
pub open spec fn weekday_index_of_day(day: int) -> int {
    (day + 3) % 7
}

/// Days to go forward from weekday `from` to reach weekday `to`: 0 to 6.
pub open spec fn days_between(from: int, to: int) -> int {
    (to - from + 7) % 7
}

/// Days from weekday `from` until the next `to`, 0 when they are the same day.
pub fn days_until_weekday(from: Weekday, to: Weekday) -> (r: u32)
    ensures
        r == days_between(from.index(), to.index()),
        r < 7,
{
    let from_num = from.num_days_from_monday();
    let to_num = to.num_days_from_monday();
    if to_num >= from_num {
        to_num - from_num
    } else {
        7 - from_num + to_num
    }
}

/// A wall-clock time of day, to the second.
#[derive(Clone, Copy, Debug, PartialEq, Eq, Structural)]
pub struct TimeOfDay {
    pub hour: u32,
    pub minute: u32,
    pub second: u32,
}

impl TimeOfDay {
    pub open spec fn wf(self) -> bool {
        self.hour < 24 && self.minute < 60 && self.second < 60
    }

    /// Seconds since midnight.
    pub open spec fn seconds(self) -> int {
        self.hour * 3600 + self.minute * 60 + self.second
    }

    /// The time `hour:minute:second`, or `None` when a part is out of range.
    pub fn from_hms_opt(hour: u32, minute: u32, second: u32) -> (r: Option<TimeOfDay>)
        ensures
            r is Some <==> (hour < 24 && minute < 60 && second < 60),
            r matches Some(t) ==> t.wf() && t.hour == hour && t.minute == minute && t.second
                == second,
    {
        if hour < 24 && minute < 60 && second < 60 {
            Some(TimeOfDay { hour, minute, second })
        } else {
            None
        }
    }

    pub fn hour(&self) -> (r: u32)
        ensures
            r == self.hour,
    {
        self.hour
    }

    pub fn minute(&self) -> (r: u32)
        ensures
            r == self.minute,
    {
        self.minute
    }

    pub fn second(&self) -> (r: u32)
        ensures
            r == self.second,
    {
        self.second
    }

    pub fn num_seconds_from_midnight(&self) -> (r: u32)
        requires
            self.wf(),
        ensures
            r == self.seconds(),
            r < 86400,
    {
        self.hour * 3600 + self.minute * 60 + self.second
    }
}

/// A wall-clock reading: a day counted from 1970-01-01 and the seconds since
/// that day's midnight.
#[derive(Clone, Copy, Debug, PartialEq, Eq, Structural)]
pub struct LocalDateTime {
    pub day: i64,
    pub second: u32,
}

impl LocalDateTime {
    pub open spec fn wf(self) -> bool {
        self.second < 86400
    }

    /// The reading as seconds from 1970-01-01 00:00 on the same wall clock.
    pub open spec fn stamp(self) -> int {
        self.day * 86400 + self.second
    }

    /// Position in the week of the reading's day.
    pub open spec fn weekday_index(self) -> int {
        weekday_index_of_day(self.day as int)
    }
}

/// The wall-clock reading of instant `utc` where the clock runs `offset`
/// seconds ahead of UTC.
pub open spec fn local_of(utc: int, offset: int) -> LocalDateTime {
    LocalDateTime { day: ((utc + offset) / 86400) as i64, second: ((utc + offset) % 86400) as u32 }
}

/// The instant at which a clock `offset` seconds ahead of UTC reads `local`.
pub open spec fn utc_of(local: LocalDateTime, offset: int) -> int {
    local.stamp() - offset
}

/// Reads instant `utc` on a clock `offset` seconds ahead of UTC.
pub fn local_from_utc(utc: i64, offset: i32) -> (r: LocalDateTime)
    requires
        -7_000_000_000_000 <= utc <= 7_000_000_000_000,
        valid_offset(offset as int),
    ensures
        r == local_of(utc as int, offset as int),
        r.wf(),
        r.stamp() == utc + offset,
        -82_000_000 <= r.day <= 82_000_000,
{
    let t: i64 = utc + offset as i64;
    let day: i64 = match t.checked_div_euclid(SECONDS_PER_DAY) {
        Some(d) => d,
        None => 0,
    };
    let second: i64 = match t.checked_rem_euclid(SECONDS_PER_DAY) {
        Some(m) => m,
        None => 0,
    };
    assert(t == day * 86400 + second) by (nonlinear_arith)
        requires
            day == t / 86400,
            second == t % 86400,
    ;
    LocalDateTime { day, second: second as u32 }
}

/// The instant at which a clock `offset` seconds ahead of UTC reads `local`.
pub fn utc_from_local(local: LocalDateTime, offset: i32) -> (r: i64)
    requires
        local.wf(),
        -100_000_000_000_000 <= local.day <= 100_000_000_000_000,
        valid_offset(offset as int),
    ensures
        r == utc_of(local, offset as int),
{
    local.day * SECONDS_PER_DAY + local.second as i64 - offset as i64
}

} // verus!
