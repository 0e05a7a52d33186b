//! Handlers of interactions: nomination buttons and slash commands.
use vstd::prelude::*;
use crate::discord::routers::interaction::InteractionRouter;

pub mod nominations;
pub mod slash_commands;

verus! {

/// What an interaction carries, as far as the handlers read it.
#[derive(Clone, Debug)]
pub enum InteractionPayload {
    /// A press on a message component, such as a button, with its custom id.
    MessageComponent { custom_id: String },
    /// A use of an application command: whether it is a chat-input (slash)
    /// command, and its name.
    ApplicationCommand { chat_input: bool, name: String },
    /// Anything else, or no data.
    Other,
}

/// Adds the interaction handlers after those already there: the nomination
/// buttons' handler, then the slash commands' handler.
pub fn add_interaction_handlers<D, F, H>(
    router: &mut InteractionRouter<D, F, H>,
    nominations_filter: F,
    nominations_handler: H,
    slash_filter: F,
    slash_handler: H,
)
    ensures
        final(router).di == old(router).di,
        final(router).handlers@.len() == old(router).handlers@.len() + 2,
        final(router).handlers@.take(old(router).handlers@.len() as int) == old(router).handlers@,
        ({
            let n = old(router).handlers@.len() as int;
            let h = final(router).handlers@;
            &&& h[n].filter == nominations_filter && h[n].handler == nominations_handler
            &&& h[n + 1].filter == slash_filter && h[n + 1].handler == slash_handler
        }),
{
    let ghost before = router.handlers@;
    router.add_handler(nominations_filter, nominations_handler);
    let ghost one = router.handlers@;
    router.add_handler(slash_filter, slash_handler);
    proof {
        let n = before.len() as int;
        assert(one.take(n) == before);
        assert(router.handlers@.take(n + 1) == one);
        assert(router.handlers@[n] == one[n]);
        assert(router.handlers@.take(n) =~= before);
    }
}

} // verus!
