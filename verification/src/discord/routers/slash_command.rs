//! Slash commands: commands that Discord hands over as interactions.
use vstd::prelude::*;

verus! {

/// A slash command: its name and what runs it.
pub struct SlashCommand<H> {
    pub name: String,
    pub handler: H,
}

impl<H> SlashCommand<H> {
    pub fn new(name: String, handler: H) -> (r: Self)
        ensures
            r.name == name,
            r.handler == handler,
    {
        SlashCommand { name, handler }
    }
}

/// The slash commands, in the order they were added, with what their
/// handlers are given.
pub struct SlashCommandRouter<D, H> {
    pub commands: Vec<SlashCommand<H>>,
    pub di: D,
}

/// Why handling a slash command failed.
pub enum SlashCommandError<E> {
    /// The command's handler failed.
    Handler(E),
    /// No handler failed, and the router reports that the command was not
    /// found.
    CommandNotFound,
}

/// The index of the first command named `name`, from `i` on.
pub open spec fn first_slash_named<H>(commands: Seq<SlashCommand<H>>, name: Seq<char>, i: int) -> Option<int>
    decreases commands.len() - i,
{
    if i < 0 || i >= commands.len() {
        None
    } else if commands[i].name@ == name {
        Some(i)
    } else {
        first_slash_named(commands, name, i + 1)
    }
}

/// The text of the error for a command that was not found.
pub fn command_not_found_text() -> (r: &'static str)
    ensures
        r@ == "Command not found"@,
{
    "Command not found"
}

impl<D, H> SlashCommandRouter<D, H> {
    pub fn new(di: D) -> (r: Self)
        ensures
            r.commands@.len() == 0,
            r.di == di,
    {
        SlashCommandRouter { commands: Vec::new(), di }
    }

    /// Adds a command after the ones already there.
    pub fn add_command(&mut self, name: String, handler: H)
        ensures
            final(self).di == old(self).di,
            final(self).commands@.len() == old(self).commands@.len() + 1,
            final(self).commands@.take(old(self).commands@.len() as int) == old(self).commands@,
            final(self).commands@.last().name == name,
            final(self).commands@.last().handler == handler,
    {
        self.commands.push(SlashCommand::new(name, handler));
        proof {
            assert(final(self).commands@.take(old(self).commands@.len() as int) =~= old(self).commands@);
        }
    }

    /// The index of the first command named `command_name`: the one whose
    /// handler runs.
    pub fn find_command(&self, command_name: &String) -> (r: Option<usize>)
        ensures
            match r {
                None => first_slash_named(self.commands@, command_name@, 0) is None,
                Some(k) => first_slash_named(self.commands@, command_name@, 0) == Some(k as int)
                    && k < self.commands@.len(),
            },
    {
        let n: usize = self.commands.len();
        let mut i: usize = 0;
        while i < n
            invariant
                n == self.commands@.len(),
                i <= n,
                first_slash_named(self.commands@, command_name@, 0) == first_slash_named(
                    self.commands@,
                    command_name@,
                    i as int,
                ),
            decreases n - i,
        {
            if self.commands[i].name == *command_name {
                return Some(i);
            }
            i = i + 1;
        }
        None
    }

    /// What handling a slash command returns, given what its handler
    /// returned (`None` when no command had its name). A handler's error is
    /// passed on; in every other case the router reports the command as not
    /// found, also after its handler succeeded.
    pub fn handle_outcome<E>(ran: Option<Result<(), E>>) -> (r: Result<(), SlashCommandError<E>>)
        ensures
            match ran {
                Some(Err(e)) => r matches Err(SlashCommandError::Handler(f)) && f == e,
                _ => r matches Err(SlashCommandError::CommandNotFound),
            },
    {
        match ran {
            Some(Err(e)) => Err(SlashCommandError::Handler(e)),
            _ => Err(SlashCommandError::CommandNotFound),
        }
    }
}

} // verus!
