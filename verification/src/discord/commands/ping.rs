//! The `ping` command.
use vstd::prelude::*;

verus! {

/// The `ping` slash command; it takes no options.
#[derive(Clone, Copy, Debug)]
pub struct PingCommand;

/// The answer to `ping`.
pub const PONG: &'static str = "Pong!";

} // verus!
