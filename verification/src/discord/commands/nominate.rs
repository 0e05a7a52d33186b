//! The `nominate` command: nominates a user in the scheduled election of a
//! guild.
use vstd::prelude::*;
use crate::discord::helper::{display_name, DiscordHelper, Member};
use crate::models::{nominee_query, Election, NewNominee, Nominee, NomineeQuery};
use crate::text::decimal;

verus! {

/// The `nominate` slash command: the user to nominate, if one is given.
#[derive(Clone, Copy, Debug)]
pub struct NominateCommand {
    pub user: Option<u64>,
}

impl NominateCommand {
    /// The user that the command nominates: the one given, else the user
    /// who ran it. The user who ran it must be known in either case.
    pub fn target(&self, invoker: Option<u64>) -> (r: u64)
        requires
            invoker is Some,
        ensures
            r == match self.user {
                Some(u) => u,
                None => invoker->0,
            },
    {
        let fallback = invoker.unwrap();
        match self.user {
            Some(u) => u,
            None => fallback,
        }
    }
}

/// The answer to the text command when it is given no argument.
pub const NO_USER_REPLY: &'static str = "Please enter a user to nominate!";

/// The answer to the text command given its arguments: the request for a
/// user when there is none, else nothing, and the command goes on.
pub fn missing_user_reply(args: &Vec<String>) -> (r: Option<String>)
    ensures
        args@.len() == 0 ==> (r matches Some(t) && t@ == NO_USER_REPLY@),
        args@.len() > 0 ==> r is None,
{
    if args.len() == 0 {
        Some(NO_USER_REPLY.to_owned())
    } else {
        None
    }
}

/// The answer when the guild has no scheduled election.
pub const NO_ELECTION_REPLY: &'static str = "There is no scheduled election for this server!";

/// The status of a nomination that waits for the nominee's answer.
pub open spec fn pending() -> Seq<char> {
    "pending"@
}

/// The nominee statuses that the command answers to.
pub open spec fn is_known_status(status: Seq<char>) -> bool {
    status == "pending"@ || status == "accepted"@ || status == "denied"@
}

/// The answer about a user who already has a nomination with `status`.
pub open spec fn existing_reply(name: Seq<char>, status: Seq<char>) -> Seq<char> {
    if status == "pending"@ {
        name + " has already been invited to accept their nomination!"@
    } else if status == "accepted"@ {
        name + " has already been accepted!"@
    } else {
        name + " has already denied their nomination!"@
    }
}

/// The answer after a user was nominated.
pub open spec fn nominated_reply(name: Seq<char>) -> Seq<char> {
    name + " has been nominated!"@
}

/// Whether the command answers to a nominee with this status.
pub fn handles_status(status: &String) -> (b: bool)
    ensures
        b == is_known_status(status@),
{
    *status == "pending".to_owned() || *status == "accepted".to_owned() || *status == "denied".to_owned()
}

/// The user that the text command nominates: the first mentioned member
/// that was found, if any.
pub fn text_nominee(mentioned_member: Option<u64>) -> (r: Option<u64>)
    ensures
        r == mentioned_member,
{
    mentioned_member
}

/// After the search for the scheduled election: the search for the user's
/// nominee, or, without a scheduled election, the answer.
pub fn after_election(election: Option<&Election>, user_id: u64) -> (r: Result<NomineeQuery, String>)
    ensures
        match election {
            None => r matches Err(t) && t@ == NO_ELECTION_REPLY@,
            Some(e) => r matches Ok(q) && q.election_id@ == e.uuid@ && q.user_id@ == decimal(
                user_id as nat,
            ),
        },
{
    match election {
        None => Err(NO_ELECTION_REPLY.to_owned()),
        Some(e) => Ok(nominee_query(e, user_id)),
    }
}

/// What the command does once it knows whether the user already has a
/// nomination.
#[derive(Debug)]
pub enum NominateDecision {
    /// Only answer.
    Reply { content: String },
    /// Store the nomination, send the nominee the nomination message, then
    /// answer.
    Nominate { nominee: NewNominee, reply: String },
}

/// What `after_nominee` decides for the member `member`, user `user_id`, in
/// `election`, when the search for the user's nominee gave `existing`: an
/// answer about an existing nominee, or else a pending nomination under the
/// member's shown name.
pub open spec fn nominate_decided(
    member: Member,
    election: Election,
    user_id: u64,
    existing: Option<Nominee>,
    r: NominateDecision,
) -> bool {
    match existing {
        Some(n) => r matches NominateDecision::Reply { content } && content@ == existing_reply(
            display_name(member),
            n.nomination_status@,
        ),
        None => r matches NominateDecision::Nominate { nominee, reply } && {
            &&& nominee.election_id@ == election.uuid@
            &&& nominee.user_id@ == decimal(user_id as nat)
            &&& nominee.poll_option_text@ == display_name(member)
            &&& nominee.votes_received is None
            &&& nominee.nomination_status@ == pending()
            &&& reply@ == nominated_reply(display_name(member))
        },
    }
}

/// After the search for the nominee of user `user_id`, the member `member`,
/// in `election`. A nomination is stored only when the user has none, and it
/// starts pending, under the member's shown name.
pub fn after_nominee(member: &Member, election: &Election, user_id: u64, existing: &Option<Nominee>) -> (r: NominateDecision)
    requires
        *existing matches Some(n) ==> is_known_status(n.nomination_status@),
    ensures
        nominate_decided(*member, *election, user_id, *existing, r),
{
    let mut name = DiscordHelper::guild_member_name(member);
    match existing {
        Some(n) => {
            let suffix = if n.nomination_status == "pending".to_owned() {
                " has already been invited to accept their nomination!"
            } else if n.nomination_status == "accepted".to_owned() {
                " has already been accepted!"
            } else {
                " has already denied their nomination!"
            };
            name.append(suffix);
            NominateDecision::Reply { content: name }
        },
        None => {
            let nominee = NewNominee {
                election_id: election.uuid.clone(),
                user_id: crate::text::decimal_string(user_id),
                poll_option_text: name.clone(),
                votes_received: None,
                nomination_status: "pending".to_owned(),
            };
            name.append(" has been nominated!");
            NominateDecision::Nominate { nominee, reply: name }
        },
    }
}

/// A stored nominee, as values: its id, election, user, poll option text,
/// votes and status.
pub type NomineeRecord = (i32, Seq<char>, Seq<char>, Seq<char>, Option<i32>, Seq<char>);

/// A stored nominee as values.
pub open spec fn nominee_record(n: Nominee) -> NomineeRecord {
    (n.id, n.election_id@, n.user_id@, n.poll_option_text@, n.votes_received, n.nomination_status@)
}

/// A new nominee, stored under id `id`, as values.
pub open spec fn new_nominee_record(n: NewNominee, id: i32) -> NomineeRecord {
    (id, n.election_id@, n.user_id@, n.poll_option_text@, n.votes_received, n.nomination_status@)
}

/// Whether the user `user_id` has a stored nominee in the election
/// `election_id`.
pub open spec fn has_nominee(rows: Seq<NomineeRecord>, election_id: Seq<char>, user_id: Seq<char>) -> bool {
    exists|i: int| 0 <= i < rows.len() && #[trigger] rows[i].1 == election_id && rows[i].2 == user_id
}

/// Whether no two stored nominees have the same election and user.
pub open spec fn one_nominee_per_user(rows: Seq<NomineeRecord>) -> bool {
    forall|i: int, j: int|
        0 <= i < rows.len() && 0 <= j < rows.len() && i != j ==> !(#[trigger] rows[i].1 == #[trigger] rows[j].1
            && rows[i].2 == rows[j].2)
}

/// The stored nominees after a decision is carried out, when a new nominee
/// gets id `new_id`.
pub open spec fn stored_after(rows: Seq<NomineeRecord>, decision: NominateDecision, new_id: i32) -> Seq<NomineeRecord> {
    match decision {
        NominateDecision::Reply { .. } => rows,
        NominateDecision::Nominate { nominee, .. } => rows.push(new_nominee_record(nominee, new_id)),
    }
}

/// Nominating keeps at most one stored nominee per election and user, and
/// stored nominees are only ever added: when the search for the user's
/// nominee finds one exactly when one is stored, carrying out the decision
/// leaves every stored nominee as it was, adds at most one, and keeps the
/// election-and-user pairs distinct.
pub proof fn lemma_nominate_keeps_one_nominee_per_user(
    rows: Seq<NomineeRecord>,
    member: Member,
    election: Election,
    user_id: u64,
    existing: Option<Nominee>,
    decision: NominateDecision,
    new_id: i32,
)
    requires
        one_nominee_per_user(rows),
        (existing is Some) == has_nominee(rows, election.uuid@, decimal(user_id as nat)),
        nominate_decided(member, election, user_id, existing, decision),
    ensures
        one_nominee_per_user(stored_after(rows, decision, new_id)),
        stored_after(rows, decision, new_id).len() <= rows.len() + 1,
        stored_after(rows, decision, new_id).take(rows.len() as int) == rows,
{
    let after = stored_after(rows, decision, new_id);
    match decision {
        NominateDecision::Reply { .. } => {
            assert(after.take(rows.len() as int) =~= rows);
        },
        NominateDecision::Nominate { nominee, .. } => {
            assert(after.take(rows.len() as int) =~= rows);
            let n = rows.len() as int;
            assert forall|i: int, j: int|
                0 <= i < after.len() && 0 <= j < after.len() && i != j implies !(#[trigger] after[i].1
                == #[trigger] after[j].1 && after[i].2 == after[j].2) by {
                if i == n {
                    assert(after[j] == rows[j]);
                    if after[i].1 == after[j].1 && after[i].2 == after[j].2 {
                        assert(has_nominee(rows, election.uuid@, decimal(user_id as nat)));
                    }
                } else if j == n {
                    assert(after[i] == rows[i]);
                    if after[i].1 == after[j].1 && after[i].2 == after[j].2 {
                        assert(has_nominee(rows, election.uuid@, decimal(user_id as nat)));
                    }
                } else {
                    assert(after[i] == rows[i]);
                    assert(after[j] == rows[j]);
                }
            }
        },
    }
}

/// Accepting a nomination leaves the nominee in a status that the command
/// answers to; declining leaves it in one that the command does not answer
/// to.
pub proof fn lemma_statuses_after_answers()
    ensures
        is_known_status(crate::discord::interactions::nominations::status_after(
            crate::discord::interactions::nominations::NominationAction::Accept,
        )),
        !is_known_status(crate::discord::interactions::nominations::status_after(
            crate::discord::interactions::nominations::NominationAction::Decline,
        )),
{
    reveal_strlit("declined");
    reveal_strlit("pending");
    reveal_strlit("accepted");
    reveal_strlit("denied");
    assert("declined"@[1] != "denied"@[1] || "declined"@.len() != "denied"@.len());
    assert("declined"@ != "pending"@) by {
        assert("declined"@[0] != "pending"@[0]);
    }
    assert("declined"@ != "accepted"@) by {
        assert("declined"@[0] != "accepted"@[0]);
    }
}

} // verus!
