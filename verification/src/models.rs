//! The records that the bot keeps in its database.
use vstd::prelude::*;
use crate::text::{decimal, decimal_string};

verus! {

/// An election in a server. Times are microseconds since the Unix epoch.
#[derive(Clone, Debug)]
pub struct Election {
    pub uuid: String,
    pub server_id: String,
    pub poll_message_id: String,
    pub start_time: i64,
    pub end_time: i64,
    pub status: String,
}

/// A user nominated in an election.
#[derive(Clone, Debug)]
pub struct Nominee {
    pub id: i32,
    pub election_id: String,
    pub user_id: String,
    pub poll_option_text: String,
    pub votes_received: Option<i32>,
    pub nomination_status: String,
}

/// A server's election settings.
#[derive(Clone, Debug)]
pub struct Server {
    pub id: String,
    pub announcements_channel_id: Option<String>,
    pub poll_channel_id: Option<String>,
    /// Hours between elections.
    pub election_frequency: i32,
    pub active: bool,
    pub winner_temp_role_id: Option<String>,
    pub winner_perm_role_id: Option<String>,
}

/// A nomination to be stored.
#[derive(Clone, Debug)]
pub struct NewNominee {
    pub election_id: String,
    pub user_id: String,
    pub poll_option_text: String,
    pub votes_received: Option<i32>,
    pub nomination_status: String,
}

impl Server {
    /// The settings of a server that has not been set up: no channels or
    /// roles, an election every 336 hours (two weeks), inactive.
    pub fn default_with_id(server_id: String) -> (s: Server)
        ensures
            s.id == server_id,
            s.announcements_channel_id is None,
            s.poll_channel_id is None,
            s.election_frequency == 336,
            !s.active,
            s.winner_temp_role_id is None,
            s.winner_perm_role_id is None,
    {
        Server {
            id: server_id,
            announcements_channel_id: None,
            poll_channel_id: None,
            election_frequency: 336,
            active: false,
            winner_temp_role_id: None,
            winner_perm_role_id: None,
        }
    }
}

/// A search for the first election of a server in a given status.
#[derive(Clone, Debug)]
pub struct ElectionQuery {
    pub status: String,
    pub server_id: String,
}

/// A search for the first nominee of a user in an election.
#[derive(Clone, Debug)]
pub struct NomineeQuery {
    pub election_id: String,
    pub user_id: String,
}

/// The status of an election that takes nominations.
pub open spec fn scheduled() -> Seq<char> {
    "scheduled"@
}

/// The search for the scheduled election of the guild `guild_id`; the
/// guild's id is written in decimal.
pub fn scheduled_election_query(guild_id: u64) -> (q: ElectionQuery)
    ensures
        q.status@ == scheduled(),
        q.server_id@ == decimal(guild_id as nat),
{
    ElectionQuery { status: "scheduled".to_owned(), server_id: decimal_string(guild_id) }
}

/// The search for the nominee of user `user_id` in `election`; the user's id
/// is written in decimal.
pub fn nominee_query(election: &Election, user_id: u64) -> (q: NomineeQuery)
    ensures
        q.election_id@ == election.uuid@,
        q.user_id@ == decimal(user_id as nat),
{
    NomineeQuery { election_id: election.uuid.clone(), user_id: decimal_string(user_id) }
}

} // verus!
