//! The buttons of a nomination message: the custom ids that they carry, and
//! what pressing one of them does.
use vstd::prelude::*;
use crate::text::{
    chars_of, decimal, decimal_string, decimal_value, digit_run, digit_run_exec,
    lemma_decimal_roundtrip, lemma_digit_run_exact, occurs_at, occurs_at_exec, is_digit,
    parse_digits,
};
use crate::models::{
    nominee_query, scheduled_election_query, Election, ElectionQuery, Nominee, NomineeQuery,
    scheduled,
};
use crate::discord::interactions::InteractionPayload;

verus! {

/// What a nomination button asks for.
#[derive(Clone, Copy, Debug, PartialEq, Eq, Structural)]
pub enum NominationAction {
    Accept,
    Decline,
}

impl NominationAction {
    /// The word that names the action in custom ids and in replies.
    pub open spec fn word(self) -> Seq<char> {
        match self {
            NominationAction::Accept => "accept"@,
            NominationAction::Decline => "decline"@,
        }
    }

    /// The word that names the action.
    pub fn as_str(&self) -> (r: &'static str)
        ensures
            r@ == self.word(),
    {
        match self {
            NominationAction::Accept => "accept",
            NominationAction::Decline => "decline",
        }
    }
}

/// The part of a custom id before the user's id.
pub open spec fn id_head(action: NominationAction) -> Seq<char> {
    action.word() + "_nomination_uid"@
}

/// The custom id of the button that makes `action` on the nomination of user
/// `user_id` in guild `guild_id`: `<action>_nomination_uid<user>_gid<guild>`.
pub open spec fn custom_id(action: NominationAction, user_id: nat, guild_id: nat) -> Seq<char> {
    id_head(action) + decimal(user_id) + "_gid"@ + decimal(guild_id)
}

/// The match of `(accept|decline)_nomination_uid([0-9]+)_gid([0-9]+)` that
/// starts at `p`, if there is one: the action and the two digit groups. The
/// digit groups are maximal runs, as the greedy repetitions take them.
pub open spec fn match_at(s: Seq<char>, p: int) -> Option<(NominationAction, Seq<char>, Seq<char>)> {
    let action = if occurs_at(s, p, id_head(NominationAction::Accept)) {
        Some(NominationAction::Accept)
    } else if occurs_at(s, p, id_head(NominationAction::Decline)) {
        Some(NominationAction::Decline)
    } else {
        None
    };
    match action {
        None => None,
        Some(a) => {
            let u = p + id_head(a).len();
            let ul = digit_run(s, u);
            let g = u + ul + 4;
            let gl = digit_run(s, g);
            if ul > 0 && occurs_at(s, u + ul, "_gid"@) && gl > 0 {
                Some((a, s.subrange(u, u + ul), s.subrange(g, g + gl)))
            } else {
                None
            }
        },
    }
}

/// The leftmost match in `s` that starts at `p` or later, as an unanchored
/// search for the pattern finds it.
pub open spec fn first_match(s: Seq<char>, p: int) -> Option<(NominationAction, Seq<char>, Seq<char>)>
    decreases s.len() - p,
{
    if p < 0 || p >= s.len() {
        None
    } else {
        match match_at(s, p) {
            Some(m) => Some(m),
            None => first_match(s, p + 1),
        }
    }
}

/// The groups of a nomination custom id: the action and the digits of the
/// user's and the guild's ids, as they stand in the text.
#[derive(Clone, Debug)]
pub struct NominationCaptures {
    pub action: NominationAction,
    pub user_digits: String,
    pub guild_digits: String,
}

impl NominationCaptures {
    pub open spec fn view(self) -> (NominationAction, Seq<char>, Seq<char>) {
        (self.action, self.user_digits@, self.guild_digits@)
    }
}

/// The indices of a match at `p` in `cs`: action, user digits and guild digits.
fn match_at_exec(cs: &Vec<char>, p: usize, accept: &Vec<char>, decline: &Vec<char>, gid: &Vec<char>) -> (r: Option<(NominationAction, usize, usize, usize, usize)>)
    requires
        p <= cs.len(),
        accept@ == id_head(NominationAction::Accept),
        decline@ == id_head(NominationAction::Decline),
        gid@ == "_gid"@,
    ensures
        match r {
            None => match_at(cs@, p as int) is None,
            Some((a, u, ue, g, ge)) => {
                &&& u <= ue <= g <= ge <= cs@.len()
                &&& match_at(cs@, p as int) == Some(
                    (a, cs@.subrange(u as int, ue as int), cs@.subrange(g as int, ge as int)),
                )
            },
        },
{
    let a = if occurs_at_exec(cs, p, accept) {
        NominationAction::Accept
    } else if occurs_at_exec(cs, p, decline) {
        NominationAction::Decline
    } else {
        return None;
    };
    proof {
        reveal_strlit("_gid");
    }
    let head_len: usize = if a == NominationAction::Accept { accept.len() } else { decline.len() };
    let u: usize = p + head_len;
    let ul: usize = digit_run_exec(cs, u);
    if ul == 0 {
        return None;
    }
    if !occurs_at_exec(cs, u + ul, gid) {
        return None;
    }
    let g: usize = u + ul + 4;
    let gl: usize = digit_run_exec(cs, g);
    if gl == 0 {
        return None;
    }
    Some((a, u, u + ul, g, g + gl))
}

/// The groups of the leftmost match of
/// `(accept|decline)_nomination_uid([0-9]+)_gid([0-9]+)` in `custom_id`.
pub fn nomination_captures(custom_id: &str) -> (r: Option<NominationCaptures>)
    ensures
        match r {
            None => first_match(custom_id@, 0) is None,
            Some(c) => first_match(custom_id@, 0) == Some(c.view()),
        },
{
    let cs = chars_of(custom_id);
    let accept = chars_of("accept_nomination_uid");
    let decline = chars_of("decline_nomination_uid");
    let gid = chars_of("_gid");
    proof {
        reveal_strlit("accept_nomination_uid");
        reveal_strlit("decline_nomination_uid");
        reveal_strlit("accept");
        reveal_strlit("decline");
        reveal_strlit("_nomination_uid");
        assert(accept@ =~= id_head(NominationAction::Accept));
        assert(decline@ =~= id_head(NominationAction::Decline));
    }
    let n: usize = cs.len();
    let mut p: usize = 0;
    while p < n
        invariant
            n == cs@.len(),
            cs@ == custom_id@,
            p <= n,
            accept@ == id_head(NominationAction::Accept),
            decline@ == id_head(NominationAction::Decline),
            gid@ == "_gid"@,
            first_match(cs@, 0) == first_match(cs@, p as int),
        decreases n - p,
    {
        match match_at_exec(&cs, p, &accept, &decline, &gid) {
            Some((a, u, ue, g, ge)) => {
                let c = NominationCaptures {
                    action: a,
                    user_digits: custom_id.substring_char(u, ue).to_owned(),
                    guild_digits: custom_id.substring_char(g, ge).to_owned(),
                };
                return Some(c);
            },
            None => {
                p = p + 1;
            },
        }
    }
    None
}

/// Whether `custom_id` holds a nomination custom id, as the button filter
/// checks it.
pub fn is_nomination_custom_id(custom_id: &str) -> (b: bool)
    ensures
        b == first_match(custom_id@, 0) is Some,
{
    nomination_captures(custom_id).is_some()
}

/// The custom id of the button that makes `action` on the nomination of
/// `user_id` in `guild_id`.
pub fn format_custom_id(action: NominationAction, user_id: u64, guild_id: u64) -> (r: String)
    ensures
        r@ == custom_id(action, user_id as nat, guild_id as nat),
{
    let mut r = action.as_str().to_owned();
    r.append("_nomination_uid");
    let uid = decimal_string(user_id);
    r.append(uid.as_str());
    r.append("_gid");
    let gid = decimal_string(guild_id);
    r.append(gid.as_str());
    r
}

/// A button's custom id is read back as the action, user and guild that it
/// was made for.
pub proof fn lemma_custom_id_roundtrip(action: NominationAction, user_id: nat, guild_id: nat)
    ensures
        first_match(custom_id(action, user_id, guild_id), 0) == Some(
            (action, decimal(user_id), decimal(guild_id)),
        ),
{
    reveal_strlit("accept");
    reveal_strlit("decline");
    reveal_strlit("_nomination_uid");
    reveal_strlit("_gid");
    let s = custom_id(action, user_id, guild_id);
    let h = id_head(action);
    let du = decimal(user_id);
    let dg = decimal(guild_id);
    lemma_decimal_roundtrip(user_id);
    lemma_decimal_roundtrip(guild_id);
    let u = h.len() as int;
    let ue = u + du.len();
    let g = ue + 4;
    assert(s.len() == g + dg.len());
    assert(s.subrange(0, h.len() as int) =~= h);
    if action == NominationAction::Decline {
        assert(s[0] == 'd');
        assert(id_head(NominationAction::Accept)[0] == 'a');
        assert(s.subrange(0, id_head(NominationAction::Accept).len() as int)[0] == s[0]);
    }
    assert forall|j: int| u <= j < ue implies is_digit(#[trigger] s[j]) by {
        assert(s[j] == du[j - u]);
    }
    assert(s[ue] == '_');
    lemma_digit_run_exact(s, u, du.len() as int);
    assert(s.subrange(ue, ue + 4) =~= "_gid"@);
    assert forall|j: int| g <= j < g + dg.len() implies is_digit(#[trigger] s[j]) by {
        assert(s[j] == dg[j - g]);
    }
    lemma_digit_run_exact(s, g, dg.len() as int);
    assert(s.subrange(u, ue) =~= du);
    assert(s.subrange(g, g + dg.len()) =~= dg);
}

/// Whether an interaction is a press on a nomination button: a component
/// whose custom id holds a nomination custom id.
pub fn filter(payload: &InteractionPayload) -> (b: bool)
    ensures
        b == match *payload {
            InteractionPayload::MessageComponent { custom_id } => first_match(custom_id@, 0) is Some,
            _ => false,
        },
{
    match payload {
        InteractionPayload::MessageComponent { custom_id } => is_nomination_custom_id(custom_id.as_str()),
        _ => false,
    }
}

/// What a nomination button asks: the action, the nominated user and the
/// guild of the election.
#[derive(Clone, Copy, Debug, PartialEq, Eq, Structural)]
pub struct NominationRequest {
    pub action: NominationAction,
    pub user_id: u64,
    pub guild_id: u64,
}

/// How the handling of a button press starts.
#[derive(Clone, Copy, Debug, PartialEq, Eq, Structural)]
pub enum HandleStart {
    /// The interaction is no component press: the handler succeeds at once.
    NotComponent,
    /// The custom id holds no nomination custom id, or one of its ids does
    /// not fit in a `u64`: it cannot be read.
    Malformed,
    /// The button asks for this.
    Request(NominationRequest),
}

/// How the handling of `payload` starts.
pub open spec fn start_of(payload: InteractionPayload) -> HandleStart {
    match payload {
        InteractionPayload::MessageComponent { custom_id } => match first_match(custom_id@, 0) {
            None => HandleStart::Malformed,
            Some((a, u, g)) => if decimal_value(u) <= u64::MAX && decimal_value(g) <= u64::MAX {
                HandleStart::Request(
                    NominationRequest {
                        action: a,
                        user_id: decimal_value(u) as u64,
                        guild_id: decimal_value(g) as u64,
                    },
                )
            } else {
                HandleStart::Malformed
            },
        },
        _ => HandleStart::NotComponent,
    }
}

/// The request that a button press carries.
pub fn handle_start(payload: &InteractionPayload) -> (r: HandleStart)
    ensures
        r == start_of(*payload),
{
    match payload {
        InteractionPayload::MessageComponent { custom_id } => {
            match nomination_captures(custom_id.as_str()) {
                None => HandleStart::Malformed,
                Some(c) => {
                    proof {
                        lemma_match_groups(custom_id@, 0);
                    }
                    let uid = parse_digits(c.user_digits.as_str());
                    let gid = parse_digits(c.guild_digits.as_str());
                    match (uid, gid) {
                        (Some(u), Some(g)) => HandleStart::Request(
                            NominationRequest { action: c.action, user_id: u, guild_id: g },
                        ),
                        _ => HandleStart::Malformed,
                    }
                },
            }
        },
        _ => HandleStart::NotComponent,
    }
}

/// The groups of a match are non-empty runs of digits.
pub proof fn lemma_match_groups(s: Seq<char>, p: int)
    requires
        0 <= p,
        first_match(s, p) is Some,
    ensures
        first_match(s, p).unwrap().1.len() > 0,
        first_match(s, p).unwrap().2.len() > 0,
        crate::text::all_digits(first_match(s, p).unwrap().1),
        crate::text::all_digits(first_match(s, p).unwrap().2),
    decreases s.len() - p,
{
    match match_at(s, p) {
        Some((a, us, gs)) => {
            let u = p + id_head(a).len();
            let ul = digit_run(s, u);
            let g = u + ul + 4;
            crate::text::lemma_digit_run_digits(s, u);
            crate::text::lemma_digit_run_digits(s, g);
            assert forall|j: int| 0 <= j < us.len() implies is_digit(#[trigger] us[j]) by {
                assert(us[j] == s[u + j]);
            }
            assert forall|j: int| 0 <= j < gs.len() implies is_digit(#[trigger] gs[j]) by {
                assert(gs[j] == s[g + j]);
            }
        },
        None => {
            lemma_match_groups(s, p + 1);
        },
    }
}

/// A press on a nomination button made for `action`, `user_id` and
/// `guild_id` is accepted by the filter and asks for exactly that.
pub proof fn lemma_button_press_roundtrip(payload: InteractionPayload, action: NominationAction, user_id: u64, guild_id: u64)
    requires
        payload matches InteractionPayload::MessageComponent { custom_id: id } && id@ == custom_id(
            action,
            user_id as nat,
            guild_id as nat,
        ),
    ensures
        start_of(payload) == HandleStart::Request(
            NominationRequest { action, user_id, guild_id },
        ),
{
    lemma_custom_id_roundtrip(action, user_id as nat, guild_id as nat);
    lemma_decimal_roundtrip(user_id as nat);
    lemma_decimal_roundtrip(guild_id as nat);
}

/// A change of a nominee's status.
#[derive(Clone, Debug)]
pub struct StatusUpdate {
    pub nominee_id: i32,
    pub status: String,
}

/// How the handling of a button press ends: the status change to store, if
/// any, the answer to show, if any, and what the handler returns.
#[derive(Debug)]
pub struct Conclusion {
    pub update: Option<StatusUpdate>,
    pub reply: Option<String>,
    pub result: Result<(), String>,
}

/// The handler's error when no database connection can be had.
pub const CONNECTION_FAILED: &'static str = "Failed to get database connection";

/// What the handler returns after it changed a nominee's status.
pub const AFTER_UPDATE_ERROR: &'static str = "Invalid interaction type";

/// The end of the handling when no database connection can be had: no
/// change, no answer, and an error.
pub fn connection_failed() -> (c: Conclusion)
    ensures
        c.update is None,
        c.reply is None,
        c.result matches Err(e) && e@ == CONNECTION_FAILED@,
{
    Conclusion { update: None, reply: None, result: Err(CONNECTION_FAILED.to_owned()) }
}

/// The answer when the guild has no scheduled election.
pub open spec fn no_election_reply(action: NominationAction) -> Seq<char> {
    "Failed to "@ + action.word() + " the nomination, as there is no scheduled election!"@
}

/// The status that an action gives a nominee.
pub open spec fn status_after(action: NominationAction) -> Seq<char> {
    match action {
        NominationAction::Accept => "accepted"@,
        NominationAction::Decline => "declined"@,
    }
}

/// The answer after the nominee's status was changed.
pub open spec fn done_reply(action: NominationAction) -> Seq<char> {
    match action {
        NominationAction::Accept => "Nomination accepted"@,
        NominationAction::Decline => "Nomination declined"@,
    }
}

/// The answer when the user is no nominee of the election.
pub open spec fn missing_nominee_reply(action: NominationAction) -> Seq<char> {
    match action {
        NominationAction::Accept => "Nomination not found"@,
        NominationAction::Decline => "Failed to decline the nomination"@,
    }
}

impl NominationRequest {
    /// The search for the election that the button acts on: the scheduled
    /// election of the button's guild.
    pub fn election_query(&self) -> (q: ElectionQuery)
        ensures
            q.status@ == scheduled(),
            q.server_id@ == decimal(self.guild_id as nat),
    {
        scheduled_election_query(self.guild_id)
    }

    /// After the search for the election: the search for the nominee, or,
    /// when there is no scheduled election, the end of the handling.
    pub fn after_election(&self, election: Option<&Election>) -> (r: Result<NomineeQuery, Conclusion>)
        ensures
            match election {
                None => r matches Err(c) && c.update is None && (c.reply matches Some(t) && t@
                    == no_election_reply(self.action)) && c.result is Ok,
                Some(e) => r matches Ok(q) && q.election_id@ == e.uuid@ && q.user_id@ == decimal(
                    self.user_id as nat,
                ),
            },
    {
        match election {
            None => {
                let mut t = "Failed to ".to_owned();
                t.append(self.action.as_str());
                t.append(" the nomination, as there is no scheduled election!");
                Err(Conclusion { update: None, reply: Some(t), result: Ok(()) })
            },
            Some(e) => Ok(nominee_query(e, self.user_id)),
        }
    }

    /// After the search for the nominee: the end of the handling. A nominee
    /// that is found gets the action's status, and the handler then returns
    /// an error; a missing nominee is only answered.
    pub fn after_nominee(&self, nominee: Option<&Nominee>) -> (c: Conclusion)
        ensures
            match nominee {
                Some(n) => {
                    &&& c.update matches Some(u) && u.nominee_id == n.id && u.status@ == status_after(
                        self.action,
                    )
                    &&& c.reply matches Some(t) && t@ == done_reply(self.action)
                    &&& c.result matches Err(e) && e@ == AFTER_UPDATE_ERROR@
                },
                None => {
                    &&& c.update is None
                    &&& c.reply matches Some(t) && t@ == missing_nominee_reply(self.action)
                    &&& c.result is Ok
                },
            },
    {
        match nominee {
            Some(n) => {
                let (status, reply) = match self.action {
                    NominationAction::Accept => ("accepted", "Nomination accepted"),
                    NominationAction::Decline => ("declined", "Nomination declined"),
                };
                Conclusion {
                    update: Some(StatusUpdate { nominee_id: n.id, status: status.to_owned() }),
                    reply: Some(reply.to_owned()),
                    result: Err(AFTER_UPDATE_ERROR.to_owned()),
                }
            },
            None => {
                let reply = match self.action {
                    NominationAction::Accept => "Nomination not found",
                    NominationAction::Decline => "Failed to decline the nomination",
                };
                Conclusion { update: None, reply: Some(reply.to_owned()), result: Ok(()) }
            },
        }
    }
}

} // verus!
