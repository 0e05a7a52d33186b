//! The bot's commands.
use vstd::prelude::*;
use crate::discord::routers::slash_command::SlashCommandRouter;
use crate::discord::routers::text_command::TextCommandRouter;

pub mod nominate;
pub mod ping;
pub mod setup;

verus! {

/// The answer to a guild-only command used outside a guild.
pub const GUILD_ONLY_REPLY: &'static str = "You can only run this command from inside a server!";

/// The answer to a guild-only command, given the guild it was used in: the
/// refusal when there is none, else nothing, and the command goes on.
pub fn guild_only_reply(guild_id: Option<u64>) -> (r: Option<String>)
    ensures
        guild_id is None ==> (r matches Some(t) && t@ == GUILD_ONLY_REPLY@),
        guild_id is Some ==> r is None,
{
    match guild_id {
        None => Some(GUILD_ONLY_REPLY.to_owned()),
        Some(_) => None,
    }
}

/// Adds the text commands after those already there: `ping`, which may run
/// in direct messages, then `nominate` and `test`, which may not.
pub fn add_text_commands<H>(router: &mut TextCommandRouter<H>, ping: H, nominate: H, test: H)
    ensures
        final(router).commands@.len() == old(router).commands@.len() + 3,
        final(router).commands@.take(old(router).commands@.len() as int) == old(router).commands@,
        ({
            let n = old(router).commands@.len() as int;
            let c = final(router).commands@;
            &&& c[n].name@ == "ping"@ && c[n].allow_in_dm && c[n].handler == ping
            &&& c[n + 1].name@ == "nominate"@ && !c[n + 1].allow_in_dm && c[n + 1].handler == nominate
            &&& c[n + 2].name@ == "test"@ && !c[n + 2].allow_in_dm && c[n + 2].handler == test
        }),
{
    let ghost before = router.commands@;
    router.add_command("ping".to_owned(), true, ping);
    let ghost one = router.commands@;
    router.add_command("nominate".to_owned(), false, nominate);
    let ghost two = router.commands@;
    router.add_command("test".to_owned(), false, test);
    proof {
        let n = before.len() as int;
        assert(one.take(n) == before);
        assert(two.take(n + 1) == one);
        assert(router.commands@.take(n + 2) == two);
        assert(router.commands@[n] == two[n]);
        assert(router.commands@[n] == one[n]);
        assert(router.commands@[n + 1] == two[n + 1]);
        assert(router.commands@.take(n) =~= before);
    }
}

/// Adds the slash commands after those already there: `ping`, then
/// `nominate`.
pub fn add_slash_commands<D, H>(router: &mut SlashCommandRouter<D, H>, ping: H, nominate: H)
    ensures
        final(router).di == old(router).di,
        final(router).commands@.len() == old(router).commands@.len() + 2,
        final(router).commands@.take(old(router).commands@.len() as int) == old(router).commands@,
        ({
            let n = old(router).commands@.len() as int;
            let c = final(router).commands@;
            &&& c[n].name@ == "ping"@ && c[n].handler == ping
            &&& c[n + 1].name@ == "nominate"@ && c[n + 1].handler == nominate
        }),
{
    let ghost before = router.commands@;
    router.add_command("ping".to_owned(), ping);
    let ghost one = router.commands@;
    router.add_command("nominate".to_owned(), nominate);
    proof {
        let n = before.len() as int;
        assert(one.take(n) == before);
        assert(router.commands@.take(n + 1) == one);
        assert(router.commands@[n] == one[n]);
        assert(router.commands@.take(n) =~= before);
    }
}

} // verus!
