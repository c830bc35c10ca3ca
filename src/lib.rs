//! Weekly game-night schedule: when the next session starts, whether one is
//! running, and the chat messages that report it.

pub mod calendar;
pub mod zone;
pub mod schedule;
pub mod messages;
pub mod commands;
