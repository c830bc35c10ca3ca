use crate::calendar::{local_from_utc, local_of, valid_instant, valid_offset};
use crate::schedule::{
    is_game_night_local, live_at, next_start_at, next_start_instant, now_reading, GameNightConfig,
};
use crate::zone::{
    civil_date, civil_day_of_month, civil_month, eastern_zone_name, in_day_span, strftime,
    strftime_text, utc_offset_at, zone_offset,
};
use vstd::prelude::*;

verus! {

/// The character of decimal digit `d`.
pub open spec fn digit_char(d: int) -> char {
    if d == 0 {
        '0'
    } else if d == 1 {
        '1'
    } else if d == 2 {
        '2'
    } else if d == 3 {
        '3'
    } else if d == 4 {
        '4'
    } else if d == 5 {
        '5'
    } else if d == 6 {
        '6'
    } else if d == 7 {
        '7'
    } else if d == 8 {
        '8'
    } else {
        '9'
    }
}

/// The decimal digits of `n`, most significant first, without leading zeros.
pub open spec fn digits_text(n: nat) -> Seq<char>
    decreases n,
{
    if n < 10 {
        seq![digit_char(n as int)]
    } else {
        digits_text(n / 10).push(digit_char((n % 10) as int))
    }
}

/// `n` in decimal, with a leading `-` when negative.
pub open spec fn decimal_text(n: int) -> Seq<char> {
    if n < 0 {
        seq!['-'] + digits_text((-n) as nat)
    } else {
        digits_text(n as nat)
    }
}

fn digit_str(d: u64) -> (r: &'static str)
    requires
        d < 10,
    ensures
        r@ == seq![digit_char(d as int)],
{
    proof {
        reveal_strlit("0");
        reveal_strlit("1");
        reveal_strlit("2");
        reveal_strlit("3");
        reveal_strlit("4");
        reveal_strlit("5");
        reveal_strlit("6");
        reveal_strlit("7");
        reveal_strlit("8");
        reveal_strlit("9");
    }
    let r = if d == 0 {
        "0"
    } else if d == 1 {
        "1"
    } else if d == 2 {
        "2"
    } else if d == 3 {
        "3"
    } else if d == 4 {
        "4"
    } else if d == 5 {
        "5"
    } else if d == 6 {
        "6"
    } else if d == 7 {
        "7"
    } else if d == 8 {
        "8"
    } else {
        "9"
    };
    assert(r@ =~= seq![digit_char(d as int)]);
    r
}

fn push_digits(s: &mut String, n: u64)
    ensures
        final(s)@ == old(s)@ + digits_text(n as nat),
    decreases n,
{
    if n < 10 {
        s.append(digit_str(n));
    } else {
        push_digits(s, n / 10);
        s.append(digit_str(n % 10));
        assert(final(s)@ =~= old(s)@ + digits_text(n as nat));
    }
}

/// Appends `n` in decimal.
pub fn push_decimal(s: &mut String, n: i64)
    ensures
        final(s)@ == old(s)@ + decimal_text(n as int),
{
    if n < 0 {
        s.append("-");
        proof {
            reveal_strlit("-");
        }
        let m: u64 = (0i128 - n as i128) as u64;
        push_digits(s, m);
        assert(final(s)@ =~= old(s)@ + decimal_text(n as int));
    } else {
        push_digits(s, n as u64);
    }
}

/// `n` in decimal.
pub fn decimal(n: i64) -> (r: String)
    ensures
        r@ == decimal_text(n as int),
{
    let mut s = String::new();
    push_decimal(&mut s, n);
    assert(s@ =~= decimal_text(n as int));
    s
}

/// Rust's `/` on integers: the quotient rounded toward zero (`b` positive).
pub open spec fn trunc_div(a: int, b: int) -> int {
    if a >= 0 {
        a / b
    } else {
        -((-a) / b)
    }
}

/// Rust's `%` on integers: the remainder that keeps the sign of `a` (`b`
/// positive).
pub open spec fn trunc_rem(a: int, b: int) -> int {
    if a >= 0 {
        a % b
    } else {
        -((-a) % b)
    }
}

/// Whole days in a countdown of `s` seconds.
pub open spec fn countdown_days(s: int) -> int {
    trunc_div(s, 86400)
}

/// Hours past the whole days in a countdown of `s` seconds.
pub open spec fn countdown_hours(s: int) -> int {
    trunc_rem(trunc_div(s, 3600), 24)
}

/// Minutes past the whole hours in a countdown of `s` seconds.
pub open spec fn countdown_minutes(s: int) -> int {
    trunc_rem(trunc_div(s, 60), 60)
}

/// Seconds past the whole minutes in a countdown of `s` seconds.
pub open spec fn countdown_seconds(s: int) -> int {
    trunc_rem(s, 60)
}

fn div_toward_zero(a: i64, b: i64) -> (r: i64)
    requires
        b > 0,
    ensures
        r == trunc_div(a as int, b as int),
{
    match a.checked_div(b) {
        Some(q) => q,
        None => 0,
    }
}

fn rem_toward_zero(a: i64, b: i64) -> (r: i64)
    requires
        b > 0,
    ensures
        r == trunc_rem(a as int, b as int),
{
    match a.checked_rem(b) {
        Some(m) => m,
        None => 0,
    }
}

/// The games announced for a session, picked by the days left until it.
pub open spec fn planned_games() -> Seq<Seq<char>> {
    seq!["@Amaterasu is cheating in wordle"@]
}

/// The game announced for a session `days_away` days ahead.
pub fn get_next_game_suggestion(days_away: usize) -> (r: &'static str)
    ensures
        r@ == planned_games()[(days_away as int) % (planned_games().len() as int)],
{
    "@Amaterasu is cheating in wordle"
}

/// The rotating list of game suggestions.
pub open spec fn game_suggestions() -> Seq<Seq<char>> {
    seq![
        "🎯 **Tonight's Game Suggestions:**\n• Valorant\n• CS2\n• Overwatch 2"@,
        "🎯 **Tonight's Game Suggestions:**\n• League of Legends\n• Dota 2\n• Heroes of the Storm"@,
        "🎯 **Tonight's Game Suggestions:**\n• Minecraft\n• Terraria\n• Valheim"@,
        "🎯 **Tonight's Game Suggestions:**\n• Among Us\n• Fall Guys\n• Jackbox Party Pack"@,
        "🎯 **Tonight's Game Suggestions:**\n• Rocket League\n• FIFA\n• NBA 2K"@,
    ]
}

/// Which suggestion is shown at instant `now`: one per UTC day, in turn.
pub open spec fn suggestion_index(now: int) -> int {
    (now / 86400) % (game_suggestions().len() as int)
}

/// The game suggestion of the UTC day that holds instant `now`.
pub fn get_game_suggestion(now: i64) -> (r: &'static str)
    ensures
        r@ == game_suggestions()[suggestion_index(now as int)],
{
    let day: i64 = match now.checked_div_euclid(86400) {
        Some(d) => d,
        None => 0,
    };
    let i: i64 = match day.checked_rem_euclid(5) {
        Some(m) => m,
        None => 0,
    };
    if i == 0 {
        "🎯 **Tonight's Game Suggestions:**\n• Valorant\n• CS2\n• Overwatch 2"
    } else if i == 1 {
        "🎯 **Tonight's Game Suggestions:**\n• League of Legends\n• Dota 2\n• Heroes of the Storm"
    } else if i == 2 {
        "🎯 **Tonight's Game Suggestions:**\n• Minecraft\n• Terraria\n• Valheim"
    } else if i == 3 {
        "🎯 **Tonight's Game Suggestions:**\n• Among Us\n• Fall Guys\n• Jackbox Party Pack"
    } else {
        "🎯 **Tonight's Game Suggestions:**\n• Rocket League\n• FIFA\n• NBA 2K"
    }
}

/// The suggestion stays the same through a UTC day, and moves on to another
/// one at each UTC midnight.
pub proof fn lemma_suggestion_daily(a: int, b: int, midnight: int)
    requires
        midnight % 86400 == 0,
    ensures
        a / 86400 == b / 86400 ==> suggestion_index(a) == suggestion_index(b),
        suggestion_index(midnight - 1) != suggestion_index(midnight),
{
    let k = midnight / 86400;
    assert(midnight == k * 86400);
    assert((midnight - 1) / 86400 == k - 1) by (nonlinear_arith)
        requires
            midnight == k * 86400,
    ;
    assert((k - 1) % 5 != k % 5) by (nonlinear_arith);
}

/// The note that a special date gets, keyed by month and day.
pub open spec fn special_label_text(month: int, day: int) -> Option<Seq<char>> {
    if month == 12 && day == 24 {
        Some("🎄 **Christmas Eve Game Night!** 🎅"@)
    } else if month == 12 && day == 31 {
        Some("🎊 **New Year's Eve Game Night!** 🥳"@)
    } else if month == 10 && day == 31 {
        Some("🎃 **Halloween Game Night!** 👻"@)
    } else if month == 7 && day == 4 {
        Some("🎆 **Independence Day Game Night!** 🇺🇸"@)
    } else {
        None
    }
}

/// `r` holds the text `t`, or nothing where `t` is nothing.
pub open spec fn holds_text(r: Option<String>, t: Option<Seq<char>>) -> bool {
    match r {
        Some(s) => t == Some(s@),
        None => t is None,
    }
}

/// The note for month `month`, day `day`, if that date is a special one.
pub fn special_label(month: u32, day: u32) -> (r: Option<String>)
    ensures
        holds_text(r, special_label_text(month as int, day as int)),
{
    if month == 12 && day == 24 {
        Some(String::from_str("🎄 **Christmas Eve Game Night!** 🎅"))
    } else if month == 12 && day == 31 {
        Some(String::from_str("🎊 **New Year's Eve Game Night!** 🥳"))
    } else if month == 10 && day == 31 {
        Some(String::from_str("🎃 **Halloween Game Night!** 👻"))
    } else if month == 7 && day == 4 {
        Some(String::from_str("🎆 **Independence Day Game Night!** 🇺🇸"))
    } else {
        None
    }
}

/// The date of instant `date` on US Eastern time, as a day counted from
/// 1970-01-01.
pub open spec fn eastern_day(date: int) -> int {
    local_of(date, zone_offset("US/Eastern"@, date)).day as int
}

/// The note for the date of instant `date` on US Eastern time, if that date is
/// a special one.
pub fn get_special_game_night(date: i64) -> (r: Option<String>)
    requires
        valid_instant(date as int),
    ensures
        holds_text(
            r,
            special_label_text(
                civil_month(eastern_day(date as int)),
                civil_day_of_month(eastern_day(date as int)),
            ),
        ),
{
    let zone = eastern_zone_name();
    let o = utc_offset_at(zone.as_str(), date);
    let local = local_from_utc(date, o);
    let (_, month, day) = civil_date(local.day);
    special_label(month, day)
}

/// The detailed announcement of the next session: its local date and start
/// time, how long it lasts, the countdown of `until` seconds, and the game.
pub open spec fn details_text(
    day: int,
    second: int,
    zone: Seq<char>,
    duration_hours: int,
    until: int,
) -> Seq<char> {
    let days = countdown_days(until);
    let game = planned_games()[(if days >= 0 { days } else { 0 }) % (planned_games().len() as int)];
    "📅 **Next Game Night Details**\n━━━━━━━━━━━━━━━━━━━━━\n🗓️ **Date:** "@ + strftime_text(day, second, "%A, %B %d, %Y"@)
        + "\n🕐 **Start Time:** "@ + strftime_text(day, second, "%I:%M %p"@) + " "@ + zone
        + "\n⏱️ **Duration:** "@ + decimal_text(duration_hours)
        + " hours\n\n⏳ **Countdown:**\n```\n"@ + decimal_text(days) + " days, "@
        + decimal_text(countdown_hours(until)) + " hours, "@ + decimal_text(countdown_minutes(until))
        + " minutes, "@ + decimal_text(countdown_seconds(until))
        + " seconds\n```\n\n🎮 **Planned Game:** "@ + game
        + "\n\n💡 **Pro tip:** Set a reminder so you don't miss it!"@
}

/// The status while a session runs, `remaining` seconds before its end.
pub open spec fn live_text(remaining: int) -> Seq<char> {
    "🔴 **GAME NIGHT IS LIVE NOW!** 🔴\n━━━━━━━━━━━━━━━━━━━━━\n🎮 We're currently playing!\n⏰ Time remaining: "@
        + decimal_text(remaining / 3600) + " hours "@ + decimal_text((remaining / 60) % 60)
        + " minutes\n🔗 Hop in the voice channel!\n\nUse `!suggest` to see what we're playing!"@
}

/// The status between sessions, the next one starting at the local reading
/// `day`, `second`, `until` seconds from now: worded for under six hours
/// away on the same day, later the same day, the next day, or further out.
pub open spec fn upcoming_text(day: int, second: int, zone: Seq<char>, until: int) -> Seq<char> {
    let days = countdown_days(until);
    let hours = countdown_hours(until);
    let minutes = countdown_minutes(until);
    let clock = strftime_text(day, second, "%I:%M %p"@);
    if days == 0 && hours < 6 {
        "⏰ **Game Night Starting Soon!**\n🎮 Tonight at "@ + clock + " "@ + zone + "\n⏳ Only "@
            + decimal_text(hours) + " hours "@ + decimal_text(minutes)
            + " minutes away!\n🔔 Get ready to game!"@
    } else if days == 0 {
        "📅 **Game Night is Today!**\n🕐 Starting at "@ + clock + " "@ + zone + "\n⏳ In "@
            + decimal_text(hours) + " hours "@ + decimal_text(minutes) + " minutes"@
    } else if days == 1 {
        "📅 **Game Night is Tomorrow!**\n🕐 "@ + strftime_text(day, second, "%A"@) + " at "@ + clock
            + " "@ + zone
    } else {
        "📅 **Next Game Night:**\n🗓️ "@ + strftime_text(day, second, "%A, %B %d"@) + " (in "@
            + decimal_text(days) + " days)\n🕐 "@ + clock + " "@ + zone
    }
}

/// The detailed announcement seen from instant `now`: the next start read on
/// the zone's clock, and the countdown to it.
pub open spec fn next_game_message(config: GameNightConfig, now: int) -> Seq<char> {
    let next = next_start_instant(config, now);
    let shown = local_of(next, zone_offset(config.timezone@, next));
    details_text(
        shown.day as int,
        shown.second as int,
        config.timezone@,
        config.duration_hours as int,
        next - now,
    )
}

/// The quick status seen from instant `now`: the time left while a session
/// runs, else when the next one starts.
pub open spec fn status_message(config: GameNightConfig, now: int) -> Seq<char> {
    let local = now_reading(config, now);
    if live_at(config, local) {
        live_text(config.end_second() - local.second)
    } else {
        let next = next_start_instant(config, now);
        let shown = local_of(next, zone_offset(config.timezone@, next));
        upcoming_text(shown.day as int, shown.second as int, config.timezone@, next - now)
    }
}

/// Writes the detailed announcement of a session that starts at the local
/// reading `day`, `second`, `until` seconds from now.
pub fn render_next_game_night(day: i64, second: u32, zone: &str, duration_hours: u32, until: i64) -> (r:
    String)
    requires
        in_day_span(day as int),
        second < 86400,
    ensures
        r@ == details_text(day as int, second as int, zone@, duration_hours as int, until as int),
{
    let days = div_toward_zero(until, 86400);
    let hours = rem_toward_zero(div_toward_zero(until, 3600), 24);
    let minutes = rem_toward_zero(div_toward_zero(until, 60), 60);
    let seconds = rem_toward_zero(until, 60);
    let game = get_next_game_suggestion(if days >= 0 { days as usize } else { 0 });
    let date = strftime(day, second, "%A, %B %d, %Y");
    let clock = strftime(day, second, "%I:%M %p");
    let mut s = String::new();
    s.append("📅 **Next Game Night Details**\n━━━━━━━━━━━━━━━━━━━━━\n🗓️ **Date:** ");
    s.append(date.as_str());
    s.append("\n🕐 **Start Time:** ");
    s.append(clock.as_str());
    s.append(" ");
    s.append(zone);
    s.append("\n⏱️ **Duration:** ");
    push_decimal(&mut s, duration_hours as i64);
    s.append(" hours\n\n⏳ **Countdown:**\n```\n");
    push_decimal(&mut s, days);
    s.append(" days, ");
    push_decimal(&mut s, hours);
    s.append(" hours, ");
    push_decimal(&mut s, minutes);
    s.append(" minutes, ");
    push_decimal(&mut s, seconds);
    s.append(" seconds\n```\n\n🎮 **Planned Game:** ");
    s.append(game);
    s.append("\n\n💡 **Pro tip:** Set a reminder so you don't miss it!");
    assert(s@ =~= details_text(day as int, second as int, zone@, duration_hours as int, until as int));
    s
}

/// Writes the status while a session runs, `remaining` seconds before its end.
pub fn render_live_status(remaining: u64) -> (r: String)
    ensures
        r@ == live_text(remaining as int),
{
    let mut s = String::new();
    s.append("🔴 **GAME NIGHT IS LIVE NOW!** 🔴\n━━━━━━━━━━━━━━━━━━━━━\n🎮 We're currently playing!\n⏰ Time remaining: ");
    push_decimal(&mut s, (remaining / 3600) as i64);
    s.append(" hours ");
    push_decimal(&mut s, ((remaining / 60) % 60) as i64);
    s.append(" minutes\n🔗 Hop in the voice channel!\n\nUse `!suggest` to see what we're playing!");
    assert(s@ =~= live_text(remaining as int));
    s
}

/// Writes the status between sessions, the next one starting at the local
/// reading `day`, `second`, `until` seconds from now.
pub fn render_upcoming_status(day: i64, second: u32, zone: &str, until: i64) -> (r: String)
    requires
        in_day_span(day as int),
        second < 86400,
    ensures
        r@ == upcoming_text(day as int, second as int, zone@, until as int),
{
    let days = div_toward_zero(until, 86400);
    let hours = rem_toward_zero(div_toward_zero(until, 3600), 24);
    let minutes = rem_toward_zero(div_toward_zero(until, 60), 60);
    let clock = strftime(day, second, "%I:%M %p");
    let mut s = String::new();
    if days == 0 && hours < 6 {
        s.append("⏰ **Game Night Starting Soon!**\n🎮 Tonight at ");
        s.append(clock.as_str());
        s.append(" ");
        s.append(zone);
        s.append("\n⏳ Only ");
        push_decimal(&mut s, hours);
        s.append(" hours ");
        push_decimal(&mut s, minutes);
        s.append(" minutes away!\n🔔 Get ready to game!");
    } else if days == 0 {
        s.append("📅 **Game Night is Today!**\n🕐 Starting at ");
        s.append(clock.as_str());
        s.append(" ");
        s.append(zone);
        s.append("\n⏳ In ");
        push_decimal(&mut s, hours);
        s.append(" hours ");
        push_decimal(&mut s, minutes);
        s.append(" minutes");
    } else if days == 1 {
        let weekday = strftime(day, second, "%A");
        s.append("📅 **Game Night is Tomorrow!**\n🕐 ");
        s.append(weekday.as_str());
        s.append(" at ");
        s.append(clock.as_str());
        s.append(" ");
        s.append(zone);
    } else {
        let date = strftime(day, second, "%A, %B %d");
        s.append("📅 **Next Game Night:**\n🗓️ ");
        s.append(date.as_str());
        s.append(" (in ");
        push_decimal(&mut s, days);
        s.append(" days)\n🕐 ");
        s.append(clock.as_str());
        s.append(" ");
        s.append(zone);
    }
    assert(s@ =~= upcoming_text(day as int, second as int, zone@, until as int));
    s
}

/// The detailed announcement of the next session, seen from instant `now`.
pub fn format_next_game_night(config: &GameNightConfig, now: i64) -> (r: String)
    requires
        config.wf(),
        valid_instant(now as int),
    ensures
        r@ == next_game_message(*config, now as int),
{
    let next = next_start_at(config, now);
    let o = utc_offset_at(config.timezone.as_str(), next);
    let shown = local_from_utc(next, o);
    render_next_game_night(
        shown.day,
        shown.second,
        config.timezone.as_str(),
        config.duration_hours,
        next - now,
    )
}

/// The quick status seen from instant `now`: the time left while a session
/// runs, else when the next one starts.
pub fn format_game_night_status(config: &GameNightConfig, now: i64) -> (r: String)
    requires
        config.wf(),
        valid_instant(now as int),
    ensures
        r@ == status_message(*config, now as int),
{
    let o1 = utc_offset_at(config.timezone.as_str(), now);
    let local = local_from_utc(now, o1);
    if is_game_night_local(config, local) {
        let end = config.start_time.num_seconds_from_midnight() as u64 + config.duration_hours as u64
            * 3600;
        render_live_status(end - local.second as u64)
    } else {
        let next = next_start_at(config, now);
        let o3 = utc_offset_at(config.timezone.as_str(), next);
        let shown = local_from_utc(next, o3);
        render_upcoming_status(shown.day, shown.second, config.timezone.as_str(), next - now)
    }
}

} // verus!
