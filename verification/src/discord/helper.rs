//! Helpers around Discord members, mentions and the nomination message.
use vstd::prelude::*;
use crate::text::{
    chars_of, decimal_value, digit_run, digit_run_exec, occurs_at, occurs_at_exec, parse_digits,
    all_digits, lemma_digit_run_digits,
};
use crate::discord::interactions::nominations::{custom_id, format_custom_id, NominationAction};

verus! {

/// A member of a guild, as far as the bot reads it.
#[derive(Clone, Debug)]
pub struct Member {
    pub user_id: u64,
    /// The user's account name.
    pub name: String,
    /// The user's global display name, if set.
    pub global_name: Option<String>,
    /// The member's nickname in the guild, if set.
    pub nick: Option<String>,
}

/// The name under which a member is shown: the nickname, else the global
/// name, else the account name.
pub open spec fn display_name(m: Member) -> Seq<char> {
    match m.nick {
        Some(n) => n@,
        None => match m.global_name {
            Some(g) => g@,
            None => m.name@,
        },
    }
}

/// The match of `<@([0-9]+)>` that starts at `p`: the digits of the mentioned
/// user's id.
pub open spec fn mention_at(s: Seq<char>, p: int) -> Option<Seq<char>> {
    let k = digit_run(s, p + 2);
    if occurs_at(s, p, "<@"@) && k > 0 && occurs_at(s, p + 2 + k, ">"@) {
        Some(s.subrange(p + 2, p + 2 + k))
    } else {
        None
    }
}

/// The leftmost mention in `s` that starts at `p` or later.
pub open spec fn first_mention(s: Seq<char>, p: int) -> Option<Seq<char>>
    decreases s.len() - p,
{
    if p < 0 || p >= s.len() {
        None
    } else {
        match mention_at(s, p) {
            Some(m) => Some(m),
            None => first_mention(s, p + 1),
        }
    }
}

/// The next step of the search for the first mentioned member among the
/// arguments of a command.
#[derive(Clone, Copy, Debug, PartialEq, Eq, Structural)]
pub enum FindUserStep {
    /// Look up the member with this id, mentioned in argument `index`; if
    /// there is none, go on from `index + 1`.
    Lookup { index: usize, user_id: u64 },
    /// Argument `index` mentions an id that is zero or does not fit in a
    /// `u64`: no user id can be made of it.
    InvalidId { index: usize },
    /// No argument from the starting one on mentions anyone.
    NotFound,
}

/// The text of the nomination message that a nominee receives, with the
/// accept and decline buttons for `user_id` in `guild_id`.
pub open spec fn nomination_payload(name: Seq<char>, guild_name: Seq<char>, user_id: nat, guild_id: nat) -> Seq<char> {
    DM_BEFORE_NAME@ + name + DM_BEFORE_GUILD@ + guild_name + DM_BEFORE_ACCEPT_ID@ + custom_id(
        NominationAction::Accept,
        user_id,
        guild_id,
    ) + DM_BEFORE_DECLINE_ID@ + custom_id(NominationAction::Decline, user_id, guild_id)
        + DM_AFTER_DECLINE_ID@
}

/// The text of the nomination message before the greeting.
pub const DM_BEFORE_NAME: &'static str = "\n            {\n                \"flags\": 32768,\n                \"components\": [\n                    {\n                        \"type\": 17,\n                        \"components\": [\n                            {\n                                \"type\": 10,\n                                \"content\": \" # Hello, ";

/// The text of the nomination message before the guild's name.
pub const DM_BEFORE_GUILD: &'static str = "!\"\n                            },\n                            {\n                                \"type\": 10,\n                                \"content\": \"You've been nominated in ";

/// The text of the nomination message before the accept button's custom id.
pub const DM_BEFORE_ACCEPT_ID: &'static str = "!\"\n                            },\n                            {\n                                \"type\": 14,\n                                \"spacing\": 2\n                            },\n                            {\n                                \"type\": 1,\n                                \"components\": [\n                                    {\n                                        \"type\": 2,\n                                        \"label\": \"Accept Nomination\",\n                                        \"style\": 1,\n                                        \"custom_id\": \"";

/// The text of the nomination message before the decline button's custom id.
pub const DM_BEFORE_DECLINE_ID: &'static str = "\"\n                                    },\n                                    {\n                                        \"type\": 2,\n                                        \"label\": \"Decline Nomination\",\n                                        \"style\": 4,\n                                        \"custom_id\": \"";

/// The text of the nomination message after the decline button's custom id.
pub const DM_AFTER_DECLINE_ID: &'static str = "\"\n                                    }\n                                ]\n                            }\n                        ]\n                    }\n                ]\n            }\n            ";
/// Helpers around guild members.
pub struct DiscordHelper;

impl DiscordHelper {
    /// The name under which a member is shown.
    pub fn guild_member_name(user: &Member) -> (r: String)
        ensures
            r@ == display_name(*user),
    {
        match &user.nick {
            Some(n) => n.clone(),
            None => match &user.global_name {
                Some(g) => g.clone(),
                None => user.name.clone(),
            },
        }
    }

    /// The digits of the leftmost mention `<@digits>` in `arg`.
    pub fn mention_digits(arg: &str) -> (r: Option<String>)
        ensures
            match r {
                None => first_mention(arg@, 0) is None,
                Some(d) => first_mention(arg@, 0) == Some(d@),
            },
    {
        let cs = chars_of(arg);
        let open = chars_of("<@");
        let close = chars_of(">");
        let n: usize = cs.len();
        let mut p: usize = 0;
        while p < n
            invariant
                n == cs@.len(),
                cs@ == arg@,
                p <= n,
                open@ == "<@"@,
                close@ == ">"@,
                first_mention(cs@, 0) == first_mention(cs@, p as int),
            decreases n - p,
        {
            proof {
                reveal_strlit("<@");
            }
            if occurs_at_exec(&cs, p, &open) {
                let k: usize = digit_run_exec(&cs, p + 2);
                if k > 0 && occurs_at_exec(&cs, p + 2 + k, &close) {
                    return Some(arg.substring_char(p + 2, p + 2 + k).to_owned());
                }
            }
            p = p + 1;
        }
        None
    }

    /// From argument `from` on, the first argument that mentions someone, and
    /// the id that it mentions.
    pub fn find_first_user_step(arg_list: &Vec<String>, from: usize) -> (r: FindUserStep)
        ensures
            match r {
                FindUserStep::NotFound => forall|i: int|
                    from <= i < arg_list@.len() ==> first_mention(#[trigger] arg_list@[i]@, 0) is None,
                FindUserStep::Lookup { index, user_id } => {
                    &&& from <= index < arg_list@.len()
                    &&& forall|i: int|
                        from <= i < index ==> first_mention(#[trigger] arg_list@[i]@, 0) is None
                    &&& first_mention(arg_list@[index as int]@, 0) matches Some(d) && decimal_value(d)
                        == user_id
                    &&& user_id != 0
                },
                FindUserStep::InvalidId { index } => {
                    &&& from <= index < arg_list@.len()
                    &&& forall|i: int|
                        from <= i < index ==> first_mention(#[trigger] arg_list@[i]@, 0) is None
                    &&& first_mention(arg_list@[index as int]@, 0) matches Some(d) && (decimal_value(d)
                        > u64::MAX || decimal_value(d) == 0)
                },
            },
    {
        let n: usize = arg_list.len();
        let mut i: usize = from;
        while i < n
            invariant
                n == arg_list@.len(),
                from <= i,
                forall|j: int| from <= j < i ==> first_mention(#[trigger] arg_list@[j]@, 0) is None,
            decreases n - i,
        {
            match Self::mention_digits(arg_list[i].as_str()) {
                Some(d) => {
                    proof {
                        lemma_mention_digits(arg_list@[i as int]@, 0);
                    }
                    match parse_digits(d.as_str()) {
                        Some(v) => {
                            if v == 0 {
                                return FindUserStep::InvalidId { index: i };
                            }
                            return FindUserStep::Lookup { index: i, user_id: v };
                        },
                        None => {
                            return FindUserStep::InvalidId { index: i };
                        },
                    }
                },
                None => {},
            }
            i = i + 1;
        }
        FindUserStep::NotFound
    }
}

/// The digits of a mention are a non-empty run of digits.
pub proof fn lemma_mention_digits(s: Seq<char>, p: int)
    requires
        0 <= p,
        first_mention(s, p) is Some,
    ensures
        first_mention(s, p)->0.len() > 0,
        all_digits(first_mention(s, p)->0),
    decreases s.len() - p,
{
    if mention_at(s, p) is Some {
        lemma_digit_run_digits(s, p + 2);
        let d = first_mention(s, p)->0;
        assert forall|j: int| 0 <= j < d.len() implies crate::text::is_digit(#[trigger] d[j]) by {
            assert(d[j] == s[p + 2 + j]);
        }
    } else {
        lemma_mention_digits(s, p + 1);
    }
}

/// A mention written as `<@id>` is read back as the id's digits.
pub proof fn lemma_mention_roundtrip(user_id: nat)
    ensures
        first_mention("<@"@ + crate::text::decimal(user_id) + ">"@, 0) == Some(
            crate::text::decimal(user_id),
        ),
{
    reveal_strlit("<@");
    reveal_strlit(">");
    let d = crate::text::decimal(user_id);
    crate::text::lemma_decimal_roundtrip(user_id);
    let s = "<@"@ + d + ">"@;
    assert(s.subrange(0, 2) =~= "<@"@);
    assert forall|j: int| 2 <= j < 2 + d.len() implies crate::text::is_digit(#[trigger] s[j]) by {
        assert(s[j] == d[j - 2]);
    }
    let e = 2 + d.len() as int;
    assert(s[e] == '>');
    crate::text::lemma_digit_run_exact(s, 2, d.len() as int);
    assert(s.subrange(e, e + 1) =~= ">"@);
    assert(s.subrange(2, e) =~= d);
}

/// Helpers around the elections.
pub struct ElectionHelper;

impl ElectionHelper {
    /// The message that invites `user` to accept or decline their nomination
    /// in the guild `guild_name` with id `guild_id`.
    pub fn nomination_message(user: &Member, guild_name: &str, guild_id: u64) -> (r: String)
        ensures
            r@ == nomination_payload(display_name(*user), guild_name@, user.user_id as nat, guild_id as nat),
    {
        let name = DiscordHelper::guild_member_name(user);
        let mut r = DM_BEFORE_NAME.to_owned();
        r.append(name.as_str());
        r.append(DM_BEFORE_GUILD);
        r.append(guild_name);
        r.append(DM_BEFORE_ACCEPT_ID);
        let accept = format_custom_id(NominationAction::Accept, user.user_id, guild_id);
        r.append(accept.as_str());
        r.append(DM_BEFORE_DECLINE_ID);
        let decline = format_custom_id(NominationAction::Decline, user.user_id, guild_id);
        r.append(decline.as_str());
        r.append(DM_AFTER_DECLINE_ID);
        r
    }
}

} // verus!
