//! The interaction handler that passes slash commands to the slash-command
//! router.
use vstd::prelude::*;
use crate::discord::interactions::InteractionPayload;

verus! {

/// Whether an interaction is a slash command: an application command of the
/// chat-input kind.
pub fn filter(payload: &InteractionPayload) -> (b: bool)
    ensures
        b == match *payload {
            InteractionPayload::ApplicationCommand { chat_input, .. } => chat_input,
            _ => false,
        },
{
    match payload {
        InteractionPayload::ApplicationCommand { chat_input, .. } => *chat_input,
        _ => false,
    }
}

/// What the slash-command handler does with an interaction.
#[derive(Clone, Debug)]
pub enum SlashDispatch {
    /// Pass the command to the slash-command router; whatever the router
    /// returns, the handler succeeds.
    Route,
    /// Fail with this message.
    Fail { message: String },
}

/// The message when the slash-command router is not set up.
pub const ROUTER_MISSING: &'static str = "Slash command router not initialized";

/// The message for an interaction of another kind.
pub const INVALID_TYPE: &'static str = "Invalid interaction type";

/// What to do with an interaction, given whether the slash-command router
/// is set up.
pub fn handle(payload: &InteractionPayload, router_ready: bool) -> (r: SlashDispatch)
    ensures
        match *payload {
            InteractionPayload::ApplicationCommand { .. } => if router_ready {
                r is Route
            } else {
                r matches SlashDispatch::Fail { message } && message@ == ROUTER_MISSING@
            },
            _ => r matches SlashDispatch::Fail { message } && message@ == INVALID_TYPE@,
        },
{
    match payload {
        InteractionPayload::ApplicationCommand { .. } => {
            if router_ready {
                SlashDispatch::Route
            } else {
                SlashDispatch::Fail { message: ROUTER_MISSING.to_owned() }
            }
        },
        _ => SlashDispatch::Fail { message: INVALID_TYPE.to_owned() },
    }
}

} // verus!
