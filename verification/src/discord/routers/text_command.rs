//! Text commands: messages that start with the configured prefix.
use vstd::prelude::*;
use crate::text::{
    lowercase, split_whitespace, starts_with, to_lowercase, trim_start_matches, trimmed_start, views,
    words,
};

verus! {

/// A text command: its name, whether it may run in direct messages, and what
/// runs it.
pub struct Command<H> {
    pub name: String,
    pub allow_in_dm: bool,
    pub handler: H,
}

impl<H> Command<H> {
    pub fn new(name: String, allow_in_dm: bool, handler: H) -> (r: Self)
        ensures
            r.name == name,
            r.allow_in_dm == allow_in_dm,
            r.handler == handler,
    {
        Command { name, allow_in_dm, handler }
    }
}

/// The commands that a message can name, in the order they were added.
pub struct TextCommandRouter<H> {
    pub commands: Vec<Command<H>>,
}

/// What to do with a message.
#[derive(Clone, Debug)]
pub enum TextRoute {
    /// The message is no command: its author is a bot, or it does not start
    /// with the prefix.
    Ignore,
    /// The message starts with the prefix but holds no word, so it names no
    /// command.
    MissingCommand,
    /// No command has this name.
    NotFound { command_name: String },
    /// The command at `index` may not run in direct messages, and the message
    /// is one.
    NotAllowedInDm { index: usize },
    /// Run the command at `index` with these arguments.
    Execute { index: usize, args: Vec<String> },
}

/// The index of the first command named `name`, from `i` on.
pub open spec fn first_named<H>(commands: Seq<Command<H>>, name: Seq<char>, i: int) -> Option<int>
    decreases commands.len() - i,
{
    if i < 0 || i >= commands.len() {
        None
    } else if commands[i].name@ == name {
        Some(i)
    } else {
        first_named(commands, name, i + 1)
    }
}

/// The first command named `name` from `i` on is named so, and no command
/// between `i` and it is.
pub proof fn lemma_first_named<H>(commands: Seq<Command<H>>, name: Seq<char>, i: int)
    requires
        0 <= i,
    ensures
        match first_named(commands, name, i) {
            None => forall|j: int| i <= j < commands.len() ==> #[trigger] commands[j].name@ != name,
            Some(k) => i <= k < commands.len() && commands[k].name@ == name && forall|j: int|
                i <= j < k ==> #[trigger] commands[j].name@ != name,
        },
    decreases commands.len() - i,
{
    if i < commands.len() && commands[i].name@ != name {
        lemma_first_named(commands, name, i + 1);
    }
}

/// The command name that a message's words give: the first word, lower-cased,
/// without leading copies of the prefix.
pub open spec fn command_name(message_words: Seq<Seq<char>>, prefix: Seq<char>) -> Seq<char> {
    trimmed_start(lowercase(message_words[0]), prefix)
}

impl<H> TextCommandRouter<H> {
    pub fn new() -> (r: Self)
        ensures
            r.commands@.len() == 0,
    {
        TextCommandRouter { commands: Vec::new() }
    }

    /// Adds a command after the ones already there.
    pub fn add_command(&mut self, command_name: String, allow_in_dms: bool, callback: H)
        ensures
            final(self).commands@.len() == old(self).commands@.len() + 1,
            final(self).commands@.take(old(self).commands@.len() as int) == old(self).commands@,
            final(self).commands@.last().name == command_name,
            final(self).commands@.last().allow_in_dm == allow_in_dms,
            final(self).commands@.last().handler == callback,
    {
        let c = Command::new(command_name, allow_in_dms, callback);
        self.commands.push(c);
        proof {
            assert(final(self).commands@.take(old(self).commands@.len() as int) =~= old(self).commands@);
        }
    }

    /// The index of the first command named `name`.
    pub fn find_command(&self, name: &String) -> (r: Option<usize>)
        ensures
            match r {
                None => first_named(self.commands@, name@, 0) is None,
                Some(k) => first_named(self.commands@, name@, 0) == Some(k as int),
            },
    {
        let n: usize = self.commands.len();
        let mut i: usize = 0;
        while i < n
            invariant
                n == self.commands@.len(),
                i <= n,
                first_named(self.commands@, name@, 0) == first_named(self.commands@, name@, i as int),
            decreases n - i,
        {
            if self.commands[i].name == *name {
                return Some(i);
            }
            i = i + 1;
        }
        None
    }

    /// What to do with a message with this author, content and place, when
    /// text commands start with `prefix`.
    pub fn parse_message(&self, author_is_bot: bool, content: &str, prefix: &str, in_guild: bool) -> (r: TextRoute)
        ensures
            author_is_bot ==> r is Ignore,
            !author_is_bot && !prefix@.is_prefix_of(content@) ==> r is Ignore,
            !author_is_bot && prefix@.is_prefix_of(content@) && words(content@).len() == 0
                ==> r is MissingCommand,
            !author_is_bot && prefix@.is_prefix_of(content@) && words(content@).len() > 0 ==> {
                let name = command_name(words(content@), prefix@);
                match first_named(self.commands@, name, 0) {
                    None => r matches TextRoute::NotFound { command_name } && command_name@ == name,
                    Some(k) => if !self.commands@[k].allow_in_dm && !in_guild {
                        r matches TextRoute::NotAllowedInDm { index } && index == k
                    } else {
                        r matches TextRoute::Execute { index, args } && index == k && views(args@)
                            == words(content@).skip(1)
                    },
                }
            },
    {
        if author_is_bot {
            return TextRoute::Ignore;
        }
        if !starts_with(content, prefix) {
            return TextRoute::Ignore;
        }
        let mut args = split_whitespace(content);
        if args.len() == 0 {
            return TextRoute::MissingCommand;
        }
        let ghost all = args@;
        let first = args.remove(0);
        proof {
            assert(args@ =~= all.skip(1));
            assert(views(args@) =~= views(all).skip(1));
            assert(first@ == views(all)[0]);
        }
        let lowered = to_lowercase(first.as_str());
        let name = trim_start_matches(lowered.as_str(), prefix);
        let found = self.find_command(&name);
        proof {
            lemma_first_named(self.commands@, name@, 0);
        }
        match found {
            None => TextRoute::NotFound { command_name: name },
            Some(k) => {
                if !self.commands[k].allow_in_dm && !in_guild {
                    TextRoute::NotAllowedInDm { index: k }
                } else {
                    TextRoute::Execute { index: k, args }
                }
            },
        }
    }
}

} // verus!
