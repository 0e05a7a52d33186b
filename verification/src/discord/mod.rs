//! The bot's behaviour on Discord: routing, commands and interactions.
pub mod commands;
pub mod helper;
pub mod interactions;
pub mod routers;
