//! The `setup` command: sets a server's election settings.
use vstd::prelude::*;
use crate::models::Server;
use crate::text::{decimal, decimal_string};

verus! {

/// The options of the `setup` slash command, with channels and roles given
/// by their ids.
#[derive(Clone, Copy, Debug)]
pub struct SetupCommand {
    /// The channel for announcements, such as who won or when nominations
    /// are open.
    pub announcements_channel: u64,
    /// The role that the winner holds while in office.
    pub winner_role: u64,
    /// The channel for polls; the announcements channel when not given.
    pub poll_channel: Option<u64>,
    /// The hours between elections.
    pub election_frequency: Option<i64>,
    /// The role of past winners.
    pub winner_permanent_role: Option<u64>,
}

/// Whether the server's settings are stored as a change of an existing
/// record or as a new one.
#[derive(Clone, Copy, Debug, PartialEq, Eq, Structural)]
pub enum SaveMode {
    Update,
    Insert,
}

/// The views of an optional string.
pub open spec fn opt_view(o: Option<String>) -> Option<Seq<char>> {
    match o {
        Some(s) => Some(s@),
        None => None,
    }
}

/// The decimal notation of an optional id.
pub open spec fn opt_decimal(o: Option<u64>) -> Option<Seq<char>> {
    match o {
        Some(v) => Some(decimal(v as nat)),
        None => None,
    }
}

/// What a server record holds, as values.
pub open spec fn server_view(s: Server) -> (
    Seq<char>,
    Option<Seq<char>>,
    Option<Seq<char>>,
    i32,
    bool,
    Option<Seq<char>>,
    Option<Seq<char>>,
) {
    (
        s.id@,
        opt_view(s.announcements_channel_id),
        opt_view(s.poll_channel_id),
        s.election_frequency,
        s.active,
        opt_view(s.winner_temp_role_id),
        opt_view(s.winner_perm_role_id),
    )
}

/// The election frequency that the command leaves: the one given, else the
/// server's, cut to 32 bits as a cast does.
pub open spec fn frequency_after(cmd: SetupCommand, before: i32) -> i32 {
    match cmd.election_frequency {
        Some(f) => f as i32,
        None => (before as i64) as i32,
    }
}

/// The settings of a server with id `id`, activity `active` and frequency
/// `frequency` once the command set them: the same id and activity, the
/// command's channels and roles, and its frequency.
pub open spec fn settings_after(cmd: SetupCommand, id: Seq<char>, frequency: i32, active: bool) -> (
    Seq<char>,
    Option<Seq<char>>,
    Option<Seq<char>>,
    i32,
    bool,
    Option<Seq<char>>,
    Option<Seq<char>>,
) {
    (
        id,
        Some(decimal(cmd.announcements_channel as nat)),
        Some(
            decimal(
                match cmd.poll_channel {
                    Some(p) => p,
                    None => cmd.announcements_channel,
                } as nat,
            ),
        ),
        frequency_after(cmd, frequency),
        active,
        Some(decimal(cmd.winner_role as nat)),
        opt_decimal(cmd.winner_permanent_role),
    )
}

/// The settings of server `before` once the command set them.
pub open spec fn setup_applied(cmd: SetupCommand, before: Server) -> (
    Seq<char>,
    Option<Seq<char>>,
    Option<Seq<char>>,
    i32,
    bool,
    Option<Seq<char>>,
    Option<Seq<char>>,
) {
    settings_after(cmd, before.id@, before.election_frequency, before.active)
}

/// The answer once the settings are stored.
pub const SETUP_DONE_REPLY: &'static str = "Updated server settings!";

/// The handler's error when no database connection can be had.
pub open spec fn db_error_text(error: Seq<char>) -> Seq<char> {
    "Failed to get DB connection, "@ + error
}

/// The handler's error when no database connection can be had, with the
/// connection pool's error text.
pub fn db_error(error: &str) -> (r: String)
    ensures
        r@ == db_error_text(error@),
{
    let mut r = "Failed to get DB connection, ".to_owned();
    r.append(error);
    r
}

fn opt_decimal_string(o: Option<u64>) -> (r: Option<String>)
    ensures
        opt_view(r) == opt_decimal(o),
{
    match o {
        Some(v) => Some(decimal_string(v)),
        None => None,
    }
}

impl SetupCommand {
    /// The server's settings with the command's settings applied.
    pub fn apply(&self, server: Server) -> (r: Server)
        ensures
            server_view(r) == setup_applied(*self, server),
            r.id == server.id,
            r.active == server.active,
            opt_view(r.announcements_channel_id) == Some(decimal(self.announcements_channel as nat)),
            self.poll_channel matches Some(p) ==> opt_view(r.poll_channel_id) == Some(
                decimal(p as nat),
            ),
            self.poll_channel is None ==> opt_view(r.poll_channel_id) == Some(
                decimal(self.announcements_channel as nat),
            ),
            self.election_frequency matches Some(f) ==> r.election_frequency == f as i32,
            self.election_frequency is None ==> r.election_frequency == server.election_frequency,
            opt_view(r.winner_temp_role_id) == Some(decimal(self.winner_role as nat)),
            self.winner_permanent_role matches Some(q) ==> opt_view(r.winner_perm_role_id) == Some(
                decimal(q as nat),
            ),
            self.winner_permanent_role is None ==> r.winner_perm_role_id is None,
    {
        let mut server = server;
        let poll = match self.poll_channel {
            Some(p) => p,
            None => self.announcements_channel,
        };
        let before: i64 = server.election_frequency as i64;
        let frequency: i64 = match self.election_frequency {
            Some(f) => f,
            None => before,
        };
        server.announcements_channel_id = Some(decimal_string(self.announcements_channel));
        server.poll_channel_id = Some(decimal_string(poll));
        server.election_frequency = frequency as i32;
        server.winner_temp_role_id = Some(decimal_string(self.winner_role));
        server.winner_perm_role_id = opt_decimal_string(self.winner_permanent_role);
        server
    }

    /// The settings to store for guild `guild_id`, whose record is
    /// `existing` if it has one, and how to store them: a server without a
    /// record starts from the defaults.
    pub fn plan(&self, guild_id: u64, existing: Option<Server>) -> (r: (Server, SaveMode))
        ensures
            match existing {
                Some(s) => server_view(r.0) == setup_applied(*self, s) && r.1 == SaveMode::Update,
                None => server_view(r.0) == settings_after(*self, decimal(guild_id as nat), 336, false)
                    && r.1 == SaveMode::Insert,
            },
            opt_view(r.0.announcements_channel_id) == Some(decimal(self.announcements_channel as nat)),
            opt_view(r.0.winner_temp_role_id) == Some(decimal(self.winner_role as nat)),
            self.election_frequency matches Some(f) ==> r.0.election_frequency == f as i32,
            self.election_frequency is None ==> r.0.election_frequency == match existing {
                Some(s) => s.election_frequency,
                None => 336,
            },
    {
        match existing {
            Some(s) => (self.apply(s), SaveMode::Update),
            None => {
                let fresh = Server::default_with_id(decimal_string(guild_id));
                (self.apply(fresh), SaveMode::Insert)
            },
        }
    }
}

/// What `setup` leaves, field by field, for every command and every server:
/// the server keeps its id and activity; the announcements channel and the
/// winner role are the command's, whatever else it gives; the poll channel is
/// the command's poll channel, else its announcements channel; a given
/// frequency replaces the server's, whatever that was, and without one the
/// server's stays; the permanent role is the command's, or none.
pub proof fn lemma_setup_fields(cmd: SetupCommand, id: Seq<char>, frequency: i32, active: bool)
    ensures
        settings_after(cmd, id, frequency, active).0 == id,
        settings_after(cmd, id, frequency, active).1 == Some(decimal(cmd.announcements_channel as nat)),
        cmd.poll_channel matches Some(p) ==> settings_after(cmd, id, frequency, active).2 == Some(
            decimal(p as nat),
        ),
        cmd.poll_channel is None ==> settings_after(cmd, id, frequency, active).2 == Some(
            decimal(cmd.announcements_channel as nat),
        ),
        cmd.election_frequency matches Some(f) ==> settings_after(cmd, id, frequency, active).3 == f as i32,
        cmd.election_frequency is None ==> settings_after(cmd, id, frequency, active).3 == frequency,
        settings_after(cmd, id, frequency, active).4 == active,
        settings_after(cmd, id, frequency, active).5 == Some(decimal(cmd.winner_role as nat)),
        cmd.winner_permanent_role matches Some(q) ==> settings_after(cmd, id, frequency, active).6
            == Some(decimal(q as nat)),
        cmd.winner_permanent_role is None ==> settings_after(cmd, id, frequency, active).6 is None,
{
}

/// The announcements channel and the winner role that `setup` stores do not
/// depend on the poll channel, the frequency or the permanent role it is
/// given, nor on the server's earlier settings.
pub proof fn lemma_setup_independent_choices(a: SetupCommand, b: SetupCommand, before_a: Server, before_b: Server)
    requires
        a.announcements_channel == b.announcements_channel,
        a.winner_role == b.winner_role,
    ensures
        setup_applied(a, before_a).1 == setup_applied(b, before_b).1,
        setup_applied(a, before_a).5 == setup_applied(b, before_b).5,
        a.election_frequency == b.election_frequency && a.election_frequency is Some ==> setup_applied(
            a,
            before_a,
        ).3 == setup_applied(b, before_b).3,
{
}

/// Running `setup` twice with the same options leaves the same settings as
/// running it once.
pub proof fn lemma_setup_idempotent(cmd: SetupCommand, before: Server, once: Server, twice: Server)
    requires
        server_view(once) == setup_applied(cmd, before),
        server_view(twice) == setup_applied(cmd, once),
    ensures
        server_view(twice) == server_view(once),
{
}

} // verus!
