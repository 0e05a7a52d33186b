//! The decision logic of an election bot for Discord servers.
pub mod config;
pub mod discord;
pub mod models;
pub mod text;
