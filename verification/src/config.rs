//! The bot's settings file.
use vstd::prelude::*;

verus! {

/// The bot's settings.
#[derive(Clone, Debug)]
pub struct Config {
    /// What a message starts with to be read as a text command.
    pub prefix: String,
}

/// The path of the settings file: the one given, else `config.toml`.
pub fn config_path(path: Option<&str>) -> (r: &str)
    ensures
        r@ == match path {
            Some(p) => p@,
            None => "config.toml"@,
        },
{
    match path {
        Some(p) => p,
        None => "config.toml",
    }
}

/// The settings used when the settings file cannot be read: prefix `!`.
pub fn default_config() -> (c: Config)
    ensures
        c.prefix@ == "!"@,
{
    Config { prefix: "!".to_owned() }
}

} // verus!
