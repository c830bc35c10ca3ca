use crate::calendar::valid_instant;
use crate::messages::{
    format_game_night_status, format_next_game_night, next_game_message, status_message,
};
use crate::schedule::{is_game_night_now, live_at, now_reading, GameNightConfig};
use vstd::prelude::*;

verus! {

/// What `str::to_lowercase` makes of a text.
pub uninterp spec fn lower_of(s: Seq<char>) -> Seq<char>;

/// Relies on `str::to_lowercase`: the result depends on the characters alone.
#[verifier::external_body]
fn lowercase(s: &str) -> (r: String)
    ensures
        r@ == lower_of(s@),
{
    s.to_lowercase()
}

/// The chat commands the bot answers.
#[derive(Clone, Copy, Debug, PartialEq, Eq, Structural)]
pub enum Command {
    Ping,
    GameNight,
    NextGame,
    IsGameNight,
    Help,
}

/// The command that a lower-case message names exactly, if any.
pub open spec fn command_of(text: Seq<char>) -> Option<Command> {
    if text == "!ping"@ {
        Some(Command::Ping)
    } else if text == "!gamenight"@ {
        Some(Command::GameNight)
    } else if text == "!nextgame"@ {
        Some(Command::NextGame)
    } else if text == "!isgamenight"@ {
        Some(Command::IsGameNight)
    } else if text == "!help"@ {
        Some(Command::Help)
    } else {
        None
    }
}

/// The command that an already lower-cased message names, if any.
pub fn parse_lowered(text: &String) -> (r: Option<Command>)
    ensures
        r == command_of(text@),
{
    if text.eq(&String::from_str("!ping")) {
        Some(Command::Ping)
    } else if text.eq(&String::from_str("!gamenight")) {
        Some(Command::GameNight)
    } else if text.eq(&String::from_str("!nextgame")) {
        Some(Command::NextGame)
    } else if text.eq(&String::from_str("!isgamenight")) {
        Some(Command::IsGameNight)
    } else if text.eq(&String::from_str("!help")) {
        Some(Command::Help)
    } else {
        None
    }
}

/// The command that a message names, whatever the case of its letters.
pub fn parse_command(content: &str) -> (r: Option<Command>)
    ensures
        r == command_of(lower_of(content@)),
{
    let lowered = lowercase(content);
    parse_lowered(&lowered)
}

pub open spec fn help_text() -> Seq<char> {
    "**Available Commands:**\n`!ping` - Test if bot is responsive\n`!gamenight` - Show game night status\n`!nextgame` - Show when the next game night is\n`!isgamenight` - Check if game night is happening now\n`!help` - Show this help message"@
}

pub open spec fn live_answer(live: bool) -> Seq<char> {
    if live {
        "Yes! Game night is happening now! 🎮"@
    } else {
        "No, it's not game night yet. Use !gamenight to see when the next one is."@
    }
}

/// The reply to `command` at instant `now`.
pub fn reply(command: Command, config: &GameNightConfig, now: i64) -> (r: String)
    requires
        config.wf(),
        valid_instant(now as int),
    ensures
        command == Command::Ping ==> r@ == "Pong!"@,
        command == Command::Help ==> r@ == help_text(),
        command == Command::IsGameNight ==> r@ == live_answer(
            live_at(*config, now_reading(*config, now as int)),
        ),
        command == Command::GameNight ==> r@ == status_message(*config, now as int),
        command == Command::NextGame ==> r@ == next_game_message(*config, now as int),
{
    match command {
        Command::Ping => String::from_str("Pong!"),
        Command::GameNight => format_game_night_status(config, now),
        Command::NextGame => format_next_game_night(config, now),
        Command::IsGameNight => {
            if is_game_night_now(config, now) {
                String::from_str("Yes! Game night is happening now! 🎮")
            } else {
                String::from_str(
                    "No, it's not game night yet. Use !gamenight to see when the next one is.",
                )
            }
        },
        Command::Help => String::from_str(
            "**Available Commands:**\n`!ping` - Test if bot is responsive\n`!gamenight` - Show game night status\n`!nextgame` - Show when the next game night is\n`!isgamenight` - Check if game night is happening now\n`!help` - Show this help message",
        ),
    }
}

} // verus!
