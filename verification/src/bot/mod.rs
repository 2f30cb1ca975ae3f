//! Settings of the bot service.
pub mod config;
