//! Everything the bot exchanges with Discord.

pub mod bot;
pub mod commands;
pub mod fetch;
pub mod logic;
pub mod models;
pub mod send;
pub mod slash_commands;
