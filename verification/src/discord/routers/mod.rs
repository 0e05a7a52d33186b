//! Routers that pick the handler for a message, a slash command or an interaction.
pub mod interaction;
pub mod slash_command;
pub mod text_command;
