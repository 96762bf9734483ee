//! Decision logic of an ESP32 Discord bot: command handling, gateway event
//! classification, HTTP request framing, Wi-Fi and sensor bookkeeping.

pub mod text;
pub mod json;

pub mod http;
pub mod discord;
pub mod config;
pub mod wifi;
pub mod tasks;
pub mod supervisor;
