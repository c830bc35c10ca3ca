use crate::calendar::{
    days_until_weekday, local_from_utc, utc_from_local, utc_of, valid_instant, valid_offset,
    weekday_index_of_day, days_between, local_of, LocalDateTime, TimeOfDay, Weekday,
};
use crate::zone::{
    eastern_zone_name, is_zone_name, known_zone, local_offset, local_offset_at, utc_offset_at,
    zone_offset,
};
use vstd::prelude::*;

verus! {

/// The weekly rule: the day, the local start time, how many hours a session
/// lasts, and the zone whose clock the day and time are read on.
pub struct GameNightConfig {
    pub day_of_week: Weekday,
    pub start_time: TimeOfDay,
    pub duration_hours: u32,
    /// IANA name of the zone, such as `America/New_York`.
    pub timezone: String,
}

impl GameNightConfig {
    pub open spec fn wf(&self) -> bool {
        self.start_time.wf() && known_zone(self.timezone@)
    }

    /// The rule, or `None` when the start time is out of range or the zone
    /// name is not in the time-zone database.
    pub fn new(day_of_week: Weekday, start_time: TimeOfDay, duration_hours: u32, timezone: String) -> (r:
        Option<GameNightConfig>)
        ensures
            r is Some <==> start_time.wf() && known_zone(timezone@),
            r matches Some(c) ==> c.wf() && c.day_of_week == day_of_week && c.start_time
                == start_time && c.duration_hours == duration_hours && c.timezone@ == timezone@,
    {
        if start_time.hour < 24 && start_time.minute < 60 && start_time.second < 60 && is_zone_name(
            timezone.as_str(),
        ) {
            Some(GameNightConfig { day_of_week, start_time, duration_hours, timezone })
        } else {
            None
        }
    }

    /// Seconds after local midnight at which a session starts.
    pub open spec fn start_second(&self) -> int {
        self.start_time.seconds()
    }

    /// Seconds after local midnight of the session day at which a session
    /// ends; past 86400 when it runs beyond midnight.
    pub open spec fn end_second(&self) -> int {
        self.start_time.seconds() + self.duration_hours * 3600
    }
}

impl Default for GameNightConfig {
    /// Fridays at 20:00 for four hours, on US Eastern time.
    fn default() -> (r: GameNightConfig)
        ensures
            r.wf(),
            r.day_of_week == Weekday::Fri,
            r.start_time == (TimeOfDay { hour: 20, minute: 0, second: 0 }),
            r.duration_hours == 4,
            r.timezone@ == "US/Eastern"@,
    {
        GameNightConfig {
            day_of_week: Weekday::Fri,
            start_time: TimeOfDay { hour: 20, minute: 0, second: 0 },
            duration_hours: 4,
            timezone: eastern_zone_name(),
        }
    }
}

/// Days from the local reading `now` to the next session's day.
pub open spec fn days_to_next(config: GameNightConfig, now: LocalDateTime) -> int {
    let d = days_between(now.weekday_index(), config.day_of_week.index());
    if d == 0 && now.second > config.start_second() {
        7
    } else {
        d
    }
}

/// The local reading at which the next session starts, seen from `now`: the
/// session day itself while its start time has not passed.
pub open spec fn next_start_local(config: GameNightConfig, now: LocalDateTime) -> LocalDateTime {
    LocalDateTime {
        day: (now.day + days_to_next(config, now)) as i64,
        second: config.start_second() as u32,
    }
}

/// A session is running at the local reading `now`: it is the session day
/// and the time of day lies in [start, start + duration], both ends included.
/// Time past midnight belongs to the next day and never counts.
pub open spec fn live_at(config: GameNightConfig, now: LocalDateTime) -> bool {
    now.weekday_index() == config.day_of_week.index() && config.start_second() <= now.second
        <= config.end_second()
}

/// The zone's clock reading at instant `now`.
pub open spec fn now_reading(config: GameNightConfig, now: int) -> LocalDateTime {
    local_of(now, zone_offset(config.timezone@, now))
}

/// The instant at which the zone's clock shows the local reading `start`,
/// the next start seen from `now`. When `now` itself reads as the start, it
/// is `now`. Otherwise it is the earliest instant that shows `start`, unless
/// that instant is not after `now` (the clock went back) or the clock skips
/// `start` (it went forward): then `start` is read at `now`'s offset.
pub open spec fn start_instant_of(config: GameNightConfig, now: int, start: LocalDateTime) -> int {
    let o1 = zone_offset(config.timezone@, now);
    if start == local_of(now, o1) {
        now
    } else {
        match local_offset(config.timezone@, start.day as int, start.second as int) {
            Some(o2) => if utc_of(start, o2) > now {
                utc_of(start, o2)
            } else {
                utc_of(start, o1)
            },
            None => utc_of(start, o1),
        }
    }
}

/// The instant at which the next session starts, seen from instant `now`.
pub open spec fn next_start_instant(config: GameNightConfig, now: int) -> int {
    start_instant_of(config, now, next_start_local(config, now_reading(config, now)))
}

/// The local reading at which the next session starts, seen from the local
/// reading `now`.
pub fn next_game_night_local(config: &GameNightConfig, now: LocalDateTime) -> (r: LocalDateTime)
    requires
        config.wf(),
        now.wf(),
        now.day <= i64::MAX - 7,
    ensures
        r == next_start_local(*config, now),
        r.wf(),
{
    let start = config.start_time.num_seconds_from_midnight();
    let today = weekday_of_day(now.day);
    let days = days_until_weekday(today, config.day_of_week);
    if days == 0 && now.second > start {
        LocalDateTime { day: now.day + 7, second: start }
    } else {
        LocalDateTime { day: now.day + days as i64, second: start }
    }
}

/// Whether a session is running at the local reading `now`.
pub fn is_game_night_local(config: &GameNightConfig, now: LocalDateTime) -> (r: bool)
    requires
        config.wf(),
        now.wf(),
    ensures
        r == live_at(*config, now),
{
    let today = weekday_of_day(now.day);
    if today != config.day_of_week {
        return false;
    }
    let start = config.start_time.num_seconds_from_midnight() as u64;
    let end = start + config.duration_hours as u64 * 3600;
    start <= now.second as u64 && now.second as u64 <= end
}

/// The weekday of a day counted from 1970-01-01.
pub fn weekday_of_day(day: i64) -> (r: Weekday)
    ensures
        r.index() == weekday_index_of_day(day as int),
{
    let i: i64 = match (day % 7 + 7 + 3).checked_rem_euclid(7) {
        Some(m) => m,
        None => 0,
    };
    assert(i == weekday_index_of_day(day as int)) by {
        assert((day % 7 + 7 + 3) % 7 == (day as int + 3) % 7) by (nonlinear_arith);
    }
    if i == 0 {
        Weekday::Mon
    } else if i == 1 {
        Weekday::Tue
    } else if i == 2 {
        Weekday::Wed
    } else if i == 3 {
        Weekday::Thu
    } else if i == 4 {
        Weekday::Fri
    } else if i == 5 {
        Weekday::Sat
    } else {
        Weekday::Sun
    }
}

/// The next start as an instant, seen from instant `now`.
pub(crate) fn next_start_at(config: &GameNightConfig, now: i64) -> (r: i64)
    requires
        config.wf(),
        valid_instant(now as int),
    ensures
        r == next_start_instant(*config, now as int),
        now <= r <= now + 10 * 86400,
        r == now <==> starts_at(*config, now_reading(*config, now as int)),
{
    let o1 = utc_offset_at(config.timezone.as_str(), now);
    proof {
        lemma_next_start_not_before_now(*config, now as int);
    }
    let local = local_from_utc(now, o1);
    let start = next_game_night_local(config, local);
    proof {
        lemma_next_start_near(*config, now as int, o1 as int);
    }
    if start == local {
        return now;
    }
    let late = utc_from_local(start, o1);
    match local_offset_at(config.timezone.as_str(), start.day, start.second) {
        Some(o2) => {
            let early = utc_from_local(start, o2);
            if early > now {
                early
            } else {
                late
            }
        },
        None => late,
    }
}

/// The instant at which the next session starts, seen from instant `now`
/// (seconds since the Unix epoch). The start is the session day's start time
/// on the zone's clock, today included while that time has not passed; never
/// before `now`, and `now` itself exactly when `now` reads as the start.
pub fn get_next_game_night(config: &GameNightConfig, now: i64) -> (r: i64)
    requires
        config.wf(),
        valid_instant(now as int),
    ensures
        r == next_start_instant(*config, now as int),
        now <= r <= now + 10 * 86400,
        r == now <==> starts_at(*config, now_reading(*config, now as int)),
{
    next_start_at(config, now)
}

/// Whether a session is running at instant `now`, read on the zone's clock.
pub fn is_game_night_now(config: &GameNightConfig, now: i64) -> (r: bool)
    requires
        config.wf(),
        valid_instant(now as int),
    ensures
        r == live_at(*config, now_reading(*config, now as int)),
{
    let o = utc_offset_at(config.timezone.as_str(), now);
    let local = local_from_utc(now, o);
    is_game_night_local(config, local)
}

/// Seconds from instant `now` until the next session starts: never negative,
/// and zero exactly when `now` reads as the start.
pub fn time_until_game_night(config: &GameNightConfig, now: i64) -> (r: i64)
    requires
        config.wf(),
        valid_instant(now as int),
    ensures
        r == next_start_instant(*config, now as int) - now,
        0 <= r <= 10 * 86400,
        r == 0 <==> starts_at(*config, now_reading(*config, now as int)),
{
    let next = get_next_game_night(config, now);
    next - now
}

/// The local reading is a session day's start.
pub open spec fn starts_at(config: GameNightConfig, now: LocalDateTime) -> bool {
    now.weekday_index() == config.day_of_week.index() && now.second == config.start_second()
}

/// The local start seen from the reading of `now` at offset `o`: whole days
/// ahead (none when the start time has not passed, else up to a week), at the
/// start time; it is that reading itself exactly when it is a session start.
pub proof fn lemma_next_start_near(config: GameNightConfig, now: int, o: int)
    requires
        config.wf(),
        valid_instant(now),
        valid_offset(o),
    ensures
        ({
            let local = local_of(now, o);
            let start = next_start_local(config, local);
            &&& local.stamp() == now + o
            &&& start.stamp() == local.stamp() + days_to_next(config, local) * 86400
                + config.start_second() - local.second
            &&& 0 <= days_to_next(config, local) <= 7
            &&& local.stamp() <= start.stamp() <= local.stamp() + 8 * 86400
            &&& (start == local <==> starts_at(config, local))
            &&& (start.stamp() == local.stamp() <==> start == local)
        }),
{
    let t = now + o;
    let day = t / 86400;
    let second = t % 86400;
    assert(t == day * 86400 + second) by (nonlinear_arith)
        requires
            day == t / 86400,
            second == t % 86400,
    ;
    let local = local_of(now, o);
    assert(local.day == day && local.second == second);
    let k = days_to_next(config, local);
    assert(0 <= k <= 7);
    let next = next_start_local(config, local);
    assert(next.stamp() == (day + k) * 86400 + config.start_second()) by (nonlinear_arith)
        requires
            next.day == day + k,
            next.second == config.start_second(),
    ;
    assert((day + k) * 86400 == day * 86400 + k * 86400) by (nonlinear_arith);
    assert(0 <= k * 86400 <= 7 * 86400) by (nonlinear_arith)
        requires
            0 <= k <= 7,
    ;
    if k >= 1 {
        assert(k * 86400 >= 86400) by (nonlinear_arith)
            requires
                k >= 1,
        ;
    }
}

/// The next start is never before `now`; it is `now` exactly when `now`
/// reads as a session start on the zone's clock. (The zone's offset is
/// within a day, as every offset of the database is.)
pub proof fn lemma_next_start_not_before_now(config: GameNightConfig, now: int)
    requires
        config.wf(),
        valid_instant(now),
        valid_offset(zone_offset(config.timezone@, now)),
    ensures
        now <= next_start_instant(config, now),
        next_start_instant(config, now) == now <==> starts_at(config, now_reading(config, now)),
{
    let o1 = zone_offset(config.timezone@, now);
    lemma_next_start_near(config, now, o1);
    let local = local_of(now, o1);
    let start = next_start_local(config, local);
    let _ = local_offset(config.timezone@, start.day as int, start.second as int);
}

/// The next start seen from any reading falls on the session weekday, at
/// the start time.
pub proof fn lemma_next_start_is_a_start(config: GameNightConfig, now: LocalDateTime)
    requires
        config.wf(),
        now.wf(),
        -85_000_000 <= now.day <= 85_000_000,
    ensures
        starts_at(config, next_start_local(config, now)),
{
    let from = weekday_index_of_day(now.day as int);
    let to = config.day_of_week.index();
    let d = days_between(from, to);
    let k = days_to_next(config, now);
    let day = now.day as int;
    assert(0 <= to < 7);
    assert(k == d || k == 7 && d == 0);
    assert((day + d + 3) % 7 == to) by (nonlinear_arith)
        requires
            from == (day + 3) % 7,
            d == (to - from + 7) % 7,
            0 <= to < 7,
    ;
    assert((day + 7 + 3) % 7 == (day + 3) % 7) by (nonlinear_arith);
}

/// Seen from the instant at which the zone's clock shows the next start, the
/// next start is that instant itself.
pub proof fn lemma_start_is_its_own_next(config: GameNightConfig, now: int, start: int)
    requires
        config.wf(),
        valid_instant(now),
        valid_instant(start),
        valid_offset(zone_offset(config.timezone@, now)),
        valid_offset(zone_offset(config.timezone@, start)),
        now_reading(config, start) == next_start_local(config, now_reading(config, now)),
    ensures
        next_start_instant(config, start) == start,
{
    lemma_next_start_near(config, now, zone_offset(config.timezone@, now));
    lemma_next_start_is_a_start(config, now_reading(config, now));
    lemma_next_start_not_before_now(config, start);
}

} // verus!
