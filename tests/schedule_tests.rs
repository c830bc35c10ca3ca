use gamenight::commands::{parse_command, reply, Command};
use gamenight::calendar::{days_until_weekday, local_from_utc, LocalDateTime, TimeOfDay, Weekday};
use gamenight::messages::{
    decimal, format_game_night_status, format_next_game_night, get_game_suggestion,
    get_next_game_suggestion, get_special_game_night, render_live_status,
    render_next_game_night, render_upcoming_status, special_label,
};
use gamenight::schedule::{
    get_next_game_night, is_game_night_local, is_game_night_now, next_game_night_local,
    time_until_game_night, weekday_of_day, GameNightConfig,
};

/// Friday 2024-06-07 20:00 in New York (EDT, UTC-4).
const FRIDAY_START: i64 = 1717804800;
const MONDAY_10AM: i64 = 1717423200;
const FRIDAY_7PM: i64 = 1717801200;
const FRIDAY_9PM: i64 = 1717808400;

fn new_york_config() -> GameNightConfig {
    GameNightConfig::new(
        Weekday::Fri,
        TimeOfDay::from_hms_opt(20, 0, 0).unwrap(),
        4,
        "America/New_York".to_string(),
    )
    .unwrap()
}

#[test]
fn test_days_until_weekday() {
    assert_eq!(days_until_weekday(Weekday::Mon, Weekday::Fri), 4);
    assert_eq!(days_until_weekday(Weekday::Fri, Weekday::Mon), 3);
    assert_eq!(days_until_weekday(Weekday::Wed, Weekday::Wed), 0);
}

#[test]
fn test_game_night_config() {
    let config = GameNightConfig::default();
    assert_eq!(config.day_of_week, Weekday::Fri);
    assert_eq!(config.start_time.hour(), 20);
    assert_eq!(config.duration_hours, 4);
}

#[test]
fn days_until_weekday_wraps_past_sunday() {
    assert_eq!(days_until_weekday(Weekday::Sun, Weekday::Mon), 1);
    assert_eq!(days_until_weekday(Weekday::Mon, Weekday::Sun), 6);
    assert_eq!(days_until_weekday(Weekday::Sat, Weekday::Fri), 6);
}

#[test]
fn default_config_uses_us_eastern() {
    let config = GameNightConfig::default();
    assert_eq!(config.timezone, "US/Eastern");
    assert_eq!(config.start_time.minute(), 0);
    assert_eq!(config.start_time.second(), 0);
}

#[test]
fn time_of_day_rejects_out_of_range_parts() {
    assert!(TimeOfDay::from_hms_opt(24, 0, 0).is_none());
    assert!(TimeOfDay::from_hms_opt(23, 60, 0).is_none());
    assert!(TimeOfDay::from_hms_opt(23, 59, 60).is_none());
    assert_eq!(TimeOfDay::from_hms_opt(23, 59, 59).unwrap().num_seconds_from_midnight(), 86399);
}

#[test]
fn weekday_of_day_counts_from_a_thursday() {
    assert_eq!(weekday_of_day(0), Weekday::Thu);
    assert_eq!(weekday_of_day(4), Weekday::Mon);
    assert_eq!(weekday_of_day(-1), Weekday::Wed);
    assert_eq!(weekday_of_day(19881), Weekday::Fri);
}

#[test]
fn local_reading_of_an_instant() {
    let local = local_from_utc(FRIDAY_START, -4 * 3600);
    assert_eq!(local, LocalDateTime { day: 19881, second: 72000 });
    let before_epoch = local_from_utc(-1, 0);
    assert_eq!(before_epoch, LocalDateTime { day: -1, second: 86399 });
}

#[test]
fn monday_morning_points_to_friday() {
    let config = new_york_config();
    let now = local_from_utc(MONDAY_10AM, -4 * 3600);
    assert_eq!(weekday_of_day(now.day), Weekday::Mon);
    assert_eq!(days_until_weekday(Weekday::Mon, config.day_of_week), 4);
    let next = next_game_night_local(&config, now);
    assert_eq!(next, LocalDateTime { day: now.day + 4, second: 72000 });
    assert_eq!(get_next_game_night(&config, MONDAY_10AM), FRIDAY_START);
}

#[test]
fn before_start_on_the_day_keeps_today() {
    let config = new_york_config();
    assert_eq!(get_next_game_night(&config, FRIDAY_7PM), FRIDAY_START);
    assert_eq!(time_until_game_night(&config, FRIDAY_7PM), 3600);
    assert!(!is_game_night_now(&config, FRIDAY_7PM));
}

#[test]
fn after_start_moves_to_next_week() {
    let config = new_york_config();
    assert_eq!(get_next_game_night(&config, FRIDAY_9PM), FRIDAY_START + 7 * 86400);
    assert!(is_game_night_now(&config, FRIDAY_9PM));
}

#[test]
fn exact_start_is_live_and_is_the_next_start() {
    let config = new_york_config();
    assert!(is_game_night_now(&config, FRIDAY_START));
    assert_eq!(get_next_game_night(&config, FRIDAY_START), FRIDAY_START);
    assert_eq!(time_until_game_night(&config, FRIDAY_START), 0);
}

#[test]
fn live_window_closes_at_midnight() {
    let config = new_york_config();
    // Friday 23:59:59 and Saturday 00:00 local.
    assert!(is_game_night_now(&config, 1717819199));
    assert!(!is_game_night_now(&config, 1717819200));
}

#[test]
fn long_session_does_not_spill_into_the_next_day() {
    let mut config = new_york_config();
    config.duration_hours = 30;
    assert!(is_game_night_local(&config, LocalDateTime { day: 19881, second: 86399 }));
    // Saturday 00:30 local.
    assert!(!is_game_night_now(&config, 1717821000));
}

#[test]
fn time_until_matches_next_start() {
    let config = new_york_config();
    assert_eq!(time_until_game_night(&config, MONDAY_10AM), FRIDAY_START - MONDAY_10AM);
    assert_eq!(time_until_game_night(&config, MONDAY_10AM), 4 * 86400 + 10 * 3600);
}

#[test]
fn special_dates_have_labels() {
    assert_eq!(get_special_game_night(1735059600).unwrap(), "🎄 **Christmas Eve Game Night!** 🎅");
    assert_eq!(get_special_game_night(1735664400).unwrap(), "🎊 **New Year's Eve Game Night!** 🥳");
    assert_eq!(get_special_game_night(1730394000).unwrap(), "🎃 **Halloween Game Night!** 👻");
    assert_eq!(get_special_game_night(1735750800), None);
}

#[test]
fn special_date_is_read_on_eastern_time() {
    // 2024-07-05 02:00 UTC is still July 4th in New York.
    assert_eq!(
        get_special_game_night(1720144800).unwrap(),
        "🎆 **Independence Day Game Night!** 🇺🇸"
    );
    assert!(special_label(7, 5).is_none());
    assert!(special_label(1, 1).is_none());
}

#[test]
fn suggestion_changes_once_per_utc_day() {
    assert!(get_game_suggestion(0).contains("Valorant"));
    assert_eq!(get_game_suggestion(0), get_game_suggestion(86399));
    assert!(get_game_suggestion(86400).contains("League of Legends"));
    assert_ne!(get_game_suggestion(86399), get_game_suggestion(86400));
    assert!(get_game_suggestion(5 * 86400).contains("Valorant"));
    assert!(get_game_suggestion(-1).contains("NBA 2K"));
}

#[test]
fn planned_game_is_the_only_entry() {
    assert_eq!(get_next_game_suggestion(0), "@Amaterasu is cheating in wordle");
    assert_eq!(get_next_game_suggestion(6), "@Amaterasu is cheating in wordle");
}

#[test]
fn decimal_writes_signs_and_digits() {
    assert_eq!(decimal(0), "0");
    assert_eq!(decimal(4096), "4096");
    assert_eq!(decimal(-120), "-120");
    assert_eq!(decimal(i64::MIN), "-9223372036854775808");
}

#[test]
fn details_message_for_monday_morning() {
    let expected = "📅 **Next Game Night Details**\n━━━━━━━━━━━━━━━━━━━━━\n🗓️ **Date:** Friday, June 07, 2024\n🕐 **Start Time:** 08:00 PM America/New_York\n⏱️ **Duration:** 4 hours\n\n⏳ **Countdown:**\n```\n4 days, 10 hours, 0 minutes, 0 seconds\n```\n\n🎮 **Planned Game:** @Amaterasu is cheating in wordle\n\n💡 **Pro tip:** Set a reminder so you don't miss it!";
    assert_eq!(render_next_game_night(19881, 72000, "America/New_York", 4, 381600), expected);
    assert_eq!(format_next_game_night(&new_york_config(), MONDAY_10AM), expected);
}

#[test]
fn countdown_splits_seconds() {
    let text = render_next_game_night(19881, 72000, "UTC", 2, 90061);
    assert!(text.contains("1 days, 1 hours, 1 minutes, 1 seconds"));
    assert!(text.contains("08:00 PM UTC"));
}

#[test]
fn status_while_live() {
    let expected = "🔴 **GAME NIGHT IS LIVE NOW!** 🔴\n━━━━━━━━━━━━━━━━━━━━━\n🎮 We're currently playing!\n⏰ Time remaining: 3 hours 0 minutes\n🔗 Hop in the voice channel!\n\nUse `!suggest` to see what we're playing!";
    assert_eq!(format_game_night_status(&new_york_config(), FRIDAY_9PM), expected);
    assert!(render_live_status(5400).contains("Time remaining: 1 hours 30 minutes"));
}

#[test]
fn status_starting_soon() {
    let expected = "⏰ **Game Night Starting Soon!**\n🎮 Tonight at 08:00 PM America/New_York\n⏳ Only 1 hours 0 minutes away!\n🔔 Get ready to game!";
    assert_eq!(format_game_night_status(&new_york_config(), FRIDAY_7PM), expected);
}

#[test]
fn status_later_today() {
    let expected = "📅 **Game Night is Today!**\n🕐 Starting at 08:00 PM America/New_York\n⏳ In 10 hours 0 minutes";
    assert_eq!(format_game_night_status(&new_york_config(), 1717768800), expected);
}

#[test]
fn status_tomorrow() {
    let expected = "📅 **Game Night is Tomorrow!**\n🕐 Friday at 08:00 PM America/New_York";
    assert_eq!(format_game_night_status(&new_york_config(), 1717682400), expected);
}

#[test]
fn status_days_away() {
    let expected = "📅 **Next Game Night:**\n🗓️ Friday, June 07 (in 4 days)\n🕐 08:00 PM America/New_York";
    assert_eq!(format_game_night_status(&new_york_config(), MONDAY_10AM), expected);
    assert_eq!(render_upcoming_status(19881, 72000, "America/New_York", 381600), expected);
}

#[test]
fn commands_match_whole_words_in_any_case() {
    assert_eq!(parse_command("!PING"), Some(Command::Ping));
    assert_eq!(parse_command("!GameNight"), Some(Command::GameNight));
    assert_eq!(parse_command("!nextgame"), Some(Command::NextGame));
    assert_eq!(parse_command("!IsGameNight"), Some(Command::IsGameNight));
    assert_eq!(parse_command("!help"), Some(Command::Help));
    assert_eq!(parse_command(" !ping"), None);
    assert_eq!(parse_command("!suggest"), None);
    assert_eq!(parse_command("hello"), None);
}

#[test]
fn replies_follow_the_command() {
    let config = new_york_config();
    assert_eq!(reply(Command::Ping, &config, MONDAY_10AM), "Pong!");
    assert_eq!(
        reply(Command::IsGameNight, &config, FRIDAY_9PM),
        "Yes! Game night is happening now! 🎮"
    );
    assert_eq!(
        reply(Command::IsGameNight, &config, MONDAY_10AM),
        "No, it's not game night yet. Use !gamenight to see when the next one is."
    );
    assert!(reply(Command::Help, &config, MONDAY_10AM).starts_with("**Available Commands:**\n`!ping`"));
    assert_eq!(
        reply(Command::GameNight, &config, MONDAY_10AM),
        format_game_night_status(&config, MONDAY_10AM)
    );
    assert!(reply(Command::NextGame, &config, MONDAY_10AM).contains("Friday, June 07, 2024"));
}

fn sunday_config(hour: u32, minute: u32) -> GameNightConfig {
    GameNightConfig::new(
        Weekday::Sun,
        TimeOfDay::from_hms_opt(hour, minute, 0).unwrap(),
        1,
        "America/New_York".to_string(),
    )
    .unwrap()
}

#[test]
fn config_rejects_unknown_zone() {
    let start = TimeOfDay::from_hms_opt(20, 0, 0).unwrap();
    assert!(GameNightConfig::new(Weekday::Fri, start, 4, "Mars/Olympus".to_string()).is_none());
    assert!(GameNightConfig::new(Weekday::Fri, start, 4, "america/new_york".to_string()).is_none());
    let bad_start = TimeOfDay { hour: 25, minute: 0, second: 0 };
    assert!(GameNightConfig::new(Weekday::Fri, bad_start, 4, "UTC".to_string()).is_none());
    assert!(GameNightConfig::new(Weekday::Fri, start, 4, "Europe/Paris".to_string()).is_some());
}

#[test]
fn repeated_hour_never_gives_a_start_before_now() {
    let config = sunday_config(1, 30);
    // 2024-11-03 01:15 EST, after the clocks went back: 01:30 EDT has passed.
    assert_eq!(get_next_game_night(&config, 1730614500), 1730615400);
    assert_eq!(time_until_game_night(&config, 1730614500), 900);
    // 01:15 EDT, before the clocks went back: the earlier 01:30 is next.
    assert_eq!(get_next_game_night(&config, 1730610900), 1730611800);
}

#[test]
fn skipped_start_is_read_at_the_current_offset() {
    let config = sunday_config(2, 30);
    // 2024-03-10 02:30 does not exist in New York; read on EST it is 07:30 UTC.
    assert_eq!(get_next_game_night(&config, 1709985600), 1710055800);
}

#[test]
fn time_until_is_zero_only_at_the_start() {
    let config = new_york_config();
    assert_eq!(time_until_game_night(&config, FRIDAY_START), 0);
    assert!(time_until_game_night(&config, FRIDAY_START + 1) > 0);
    assert!(time_until_game_night(&config, FRIDAY_START - 1) > 0);
}
