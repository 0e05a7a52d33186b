use election_bot::config::{config_path, default_config};
use election_bot::discord::commands::nominate::{
    after_election, after_nominee, handles_status, text_nominee, NominateCommand, NominateDecision,
};
use election_bot::discord::commands::setup::{db_error, SaveMode, SetupCommand};
use election_bot::discord::commands::{add_slash_commands, add_text_commands, guild_only_reply};
use election_bot::discord::commands::nominate::missing_user_reply;
use election_bot::discord::helper::{DiscordHelper, ElectionHelper, FindUserStep, Member};
use election_bot::discord::interactions::slash_commands::{self, SlashDispatch};
use election_bot::discord::interactions::{add_interaction_handlers, InteractionPayload};
use election_bot::discord::routers::interaction::{
    handler_failure_report, report_after_handling, unhandled_report, InteractionHandler, InteractionRouter, RouteAction,
};
use election_bot::discord::routers::slash_command::{SlashCommandError, SlashCommandRouter};
use election_bot::discord::routers::text_command::{TextCommandRouter, TextRoute};
use election_bot::models::{Election, Nominee, Server};

fn member(nick: Option<&str>, global: Option<&str>) -> Member {
    Member {
        user_id: 42,
        name: "ann_account".to_string(),
        global_name: global.map(|s| s.to_string()),
        nick: nick.map(|s| s.to_string()),
    }
}

fn election() -> Election {
    Election {
        uuid: "e-1".to_string(),
        server_id: "7".to_string(),
        poll_message_id: "9".to_string(),
        start_time: 0,
        end_time: 1,
        status: "scheduled".to_string(),
    }
}

fn nominee(status: &str) -> Nominee {
    Nominee {
        id: 3,
        election_id: "e-1".to_string(),
        user_id: "42".to_string(),
        poll_option_text: "Ann".to_string(),
        votes_received: Some(2),
        nomination_status: status.to_string(),
    }
}

fn router() -> TextCommandRouter<u8> {
    let mut r = TextCommandRouter::new();
    add_text_commands(&mut r, 1, 2, 3);
    r
}

#[test]
fn config_defaults() {
    assert_eq!(config_path(None), "config.toml");
    assert_eq!(config_path(Some("other.toml")), "other.toml");
    assert_eq!(default_config().prefix, "!");
}

#[test]
fn default_server_settings() {
    let s = Server::default_with_id("77".to_string());
    assert_eq!(s.id, "77");
    assert_eq!(s.election_frequency, 336);
    assert!(!s.active);
    assert!(s.announcements_channel_id.is_none() && s.poll_channel_id.is_none());
    assert!(s.winner_temp_role_id.is_none() && s.winner_perm_role_id.is_none());
}

#[test]
fn member_names_prefer_nick_then_global_name() {
    assert_eq!(DiscordHelper::guild_member_name(&member(Some("Nick"), Some("Global"))), "Nick");
    assert_eq!(DiscordHelper::guild_member_name(&member(None, Some("Global"))), "Global");
    assert_eq!(DiscordHelper::guild_member_name(&member(None, None)), "ann_account");
}

#[test]
fn mentions_are_found() {
    assert_eq!(DiscordHelper::mention_digits("hi <@123>!").as_deref(), Some("123"));
    assert_eq!(DiscordHelper::mention_digits("<@@1> <@2>").as_deref(), Some("2"));
    assert_eq!(DiscordHelper::mention_digits("<@!5>"), None);
    assert_eq!(DiscordHelper::mention_digits("<@>"), None);
    assert_eq!(DiscordHelper::mention_digits("<@12a>"), None);
    assert_eq!(DiscordHelper::mention_digits("<@<@7>").as_deref(), Some("7"));
}

#[test]
fn the_first_mentioned_user_is_looked_up() {
    let args: Vec<String> = vec!["x".into(), "<@5>".into(), "<@6>".into()];
    assert_eq!(DiscordHelper::find_first_user_step(&args, 0), FindUserStep::Lookup { index: 1, user_id: 5 });
    assert_eq!(DiscordHelper::find_first_user_step(&args, 2), FindUserStep::Lookup { index: 2, user_id: 6 });
    assert_eq!(DiscordHelper::find_first_user_step(&args, 3), FindUserStep::NotFound);
    assert_eq!(DiscordHelper::find_first_user_step(&args, 9), FindUserStep::NotFound);
}

#[test]
fn ids_that_are_no_user_ids_are_invalid() {
    let args: Vec<String> = vec!["a".into(), "<@0>".into()];
    assert_eq!(DiscordHelper::find_first_user_step(&args, 0), FindUserStep::InvalidId { index: 1 });
    let args: Vec<String> = vec!["<@18446744073709551616>".into()];
    assert_eq!(DiscordHelper::find_first_user_step(&args, 0), FindUserStep::InvalidId { index: 0 });
}

#[test]
fn nomination_message_matches_the_template() {
    let m = member(None, Some("Ann"));
    let got = ElectionHelper::nomination_message(&m, "The Guild", 7);
    let expected = format!(
        r#"
            {{
                "flags": 32768,
                "components": [
                    {{
                        "type": 17,
                        "components": [
                            {{
                                "type": 10,
                                "content": " # Hello, {}!"
                            }},
                            {{
                                "type": 10,
                                "content": "You've been nominated in {}!"
                            }},
                            {{
                                "type": 14,
                                "spacing": 2
                            }},
                            {{
                                "type": 1,
                                "components": [
                                    {{
                                        "type": 2,
                                        "label": "Accept Nomination",
                                        "style": 1,
                                        "custom_id": "accept_nomination_uid{}_gid{}"
                                    }},
                                    {{
                                        "type": 2,
                                        "label": "Decline Nomination",
                                        "style": 4,
                                        "custom_id": "decline_nomination_uid{}_gid{}"
                                    }}
                                ]
                            }}
                        ]
                    }}
                ]
            }}
            "#,
        "Ann", "The Guild", 42, 7, 42, 7
    );
    assert_eq!(got, expected);
}

#[test]
fn text_commands_route_by_name() {
    let r = router();
    match r.parse_message(false, "!PING a  b", "!", true) {
        TextRoute::Execute { index, args } => {
            assert_eq!(index, 0);
            assert_eq!(args, vec!["a", "b"]);
        }
        other => panic!("{:?}", other),
    }
    match r.parse_message(false, "!!nominate <@1>", "!", true) {
        TextRoute::Execute { index, args } => {
            assert_eq!(index, 1);
            assert_eq!(args, vec!["<@1>"]);
        }
        other => panic!("{:?}", other),
    }
}

#[test]
fn text_commands_are_ignored_from_bots_and_without_prefix() {
    let r = router();
    assert!(matches!(r.parse_message(true, "!ping", "!", true), TextRoute::Ignore));
    assert!(matches!(r.parse_message(false, "ping", "!", true), TextRoute::Ignore));
    assert!(matches!(r.parse_message(false, " !ping", "!", true), TextRoute::Ignore));
}

#[test]
fn text_commands_respect_direct_messages() {
    let r = router();
    assert!(matches!(r.parse_message(false, "!nominate x", "!", false), TextRoute::NotAllowedInDm { index: 1 }));
    assert!(matches!(r.parse_message(false, "!test", "!", false), TextRoute::NotAllowedInDm { index: 2 }));
    assert!(matches!(r.parse_message(false, "!ping", "!", false), TextRoute::Execute { index: 0, .. }));
}

#[test]
fn unknown_and_empty_commands() {
    let r = router();
    match r.parse_message(false, "!vote now", "!", true) {
        TextRoute::NotFound { command_name } => assert_eq!(command_name, "vote"),
        other => panic!("{:?}", other),
    }
    match r.parse_message(false, "! ping", "!", true) {
        TextRoute::NotFound { command_name } => assert_eq!(command_name, ""),
        other => panic!("{:?}", other),
    }
    assert!(matches!(r.parse_message(false, "  ", " ", true), TextRoute::MissingCommand));
    assert!(matches!(r.parse_message(false, "", "", true), TextRoute::MissingCommand));
}

#[test]
fn slash_router_finds_the_first_command_and_never_succeeds() {
    let mut r: SlashCommandRouter<(), u8> = SlashCommandRouter::new(());
    add_slash_commands(&mut r, 1, 2);
    r.add_command("ping".to_string(), 3);
    assert_eq!(r.find_command(&"ping".to_string()), Some(0));
    assert_eq!(r.find_command(&"nominate".to_string()), Some(1));
    assert_eq!(r.find_command(&"setup".to_string()), None);
    assert!(matches!(SlashCommandRouter::<(), u8>::handle_outcome::<String>(Some(Ok(()))), Err(SlashCommandError::CommandNotFound)));
    assert!(matches!(SlashCommandRouter::<(), u8>::handle_outcome::<String>(None), Err(SlashCommandError::CommandNotFound)));
    match SlashCommandRouter::<(), u8>::handle_outcome(Some(Err("boom".to_string()))) {
        Err(SlashCommandError::Handler(e)) => assert_eq!(e, "boom"),
        _ => panic!("handler error lost"),
    }
}

#[test]
fn interactions_go_to_the_first_accepting_handler() {
    let mut r: InteractionRouter<(), u8, u8> = InteractionRouter::new(());
    add_interaction_handlers(&mut r, 10, 11, 20, 21);
    r.add_handler(30, 31);
    assert_eq!(r.route_start(), RouteAction::Probe(0));
    assert_eq!(r.route_next(0, false), RouteAction::Probe(1));
    assert_eq!(r.route_next(1, true), RouteAction::Handle(1));
    assert_eq!(r.route_next(2, false), RouteAction::ReportUnhandled);
    let empty: InteractionRouter<(), u8, u8> = InteractionRouter::new(());
    assert_eq!(empty.route_start(), RouteAction::ReportUnhandled);
}

#[test]
fn filter_outcomes() {
    assert!(InteractionHandler::<u8, u8>::filter_accepts::<String>(&Ok(true)));
    assert!(!InteractionHandler::<u8, u8>::filter_accepts::<String>(&Ok(false)));
    assert!(!InteractionHandler::<u8, u8>::filter_accepts(&Err("x".to_string())));
    assert!(report_after_handling::<String>(&Err("x".to_string())));
    assert!(!report_after_handling::<String>(&Ok(())));
}

#[test]
fn error_reports() {
    let r = handler_failure_report("Interaction { id: 1 }", "boom");
    assert_eq!(r.file_name, "failed_interaction.rs-log");
    assert_eq!(r.content, "Oops! We had an error handling that request for some reason, give the following file to a bot developer!");
    assert_eq!(r.file_body, "Failed to handle interaction with data:\nInteraction { id: 1 }\n\nError: boom\n");
    let r = unhandled_report("X");
    assert_eq!(r.content, "Oops! We couldn't handle that request for some reason, give the following file to a bot developer!");
    assert_eq!(r.file_body, "Failed to handle interaction with data:\nX");
}

#[test]
fn slash_command_interactions() {
    let chat = InteractionPayload::ApplicationCommand { chat_input: true, name: "ping".to_string() };
    let menu = InteractionPayload::ApplicationCommand { chat_input: false, name: "ping".to_string() };
    assert!(slash_commands::filter(&chat));
    assert!(!slash_commands::filter(&menu));
    assert!(matches!(slash_commands::handle(&chat, true), SlashDispatch::Route));
    match slash_commands::handle(&chat, false) {
        SlashDispatch::Fail { message } => assert_eq!(message, "Slash command router not initialized"),
        _ => panic!(),
    }
    match slash_commands::handle(&InteractionPayload::Other, true) {
        SlashDispatch::Fail { message } => assert_eq!(message, "Invalid interaction type"),
        _ => panic!(),
    }
}

#[test]
fn nominate_targets() {
    assert_eq!(NominateCommand { user: Some(5) }.target(Some(9)), 5);
    assert_eq!(NominateCommand { user: None }.target(Some(9)), 9);
    assert_eq!(text_nominee(Some(5)), Some(5));
    assert_eq!(text_nominee(None), None);
}

#[test]
fn nominate_needs_a_scheduled_election() {
    assert_eq!(after_election(None, 42).unwrap_err(), "There is no scheduled election for this server!");
    let e = election();
    let q = after_election(Some(&e), 42).unwrap();
    assert_eq!(q.election_id, "e-1");
    assert_eq!(q.user_id, "42");
}

#[test]
fn nominate_answers_existing_nominees() {
    let m = member(Some("Ann"), None);
    let e = election();
    for (status, text) in [
        ("pending", "Ann has already been invited to accept their nomination!"),
        ("accepted", "Ann has already been accepted!"),
        ("denied", "Ann has already denied their nomination!"),
    ] {
        assert!(handles_status(&status.to_string()));
        match after_nominee(&m, &e, 42, &Some(nominee(status))) {
            NominateDecision::Reply { content } => assert_eq!(content, text),
            other => panic!("{:?}", other),
        }
    }
    assert!(!handles_status(&"declined".to_string()));
}

#[test]
fn nominate_stores_a_pending_nomination() {
    let m = member(None, Some("Ann"));
    let e = election();
    match after_nominee(&m, &e, 42, &None) {
        NominateDecision::Nominate { nominee, reply } => {
            assert_eq!(nominee.election_id, "e-1");
            assert_eq!(nominee.user_id, "42");
            assert_eq!(nominee.poll_option_text, "Ann");
            assert_eq!(nominee.votes_received, None);
            assert_eq!(nominee.nomination_status, "pending");
            assert_eq!(reply, "Ann has been nominated!");
        }
        other => panic!("{:?}", other),
    }
}

fn setup(poll: Option<u64>, freq: Option<i64>, perm: Option<u64>) -> SetupCommand {
    SetupCommand {
        announcements_channel: 100,
        winner_role: 200,
        poll_channel: poll,
        election_frequency: freq,
        winner_permanent_role: perm,
    }
}

#[test]
fn setup_fills_in_the_settings() {
    let (s, mode) = setup(None, None, None).plan(7, None);
    assert_eq!(mode, SaveMode::Insert);
    assert_eq!(s.id, "7");
    assert_eq!(s.announcements_channel_id.as_deref(), Some("100"));
    assert_eq!(s.poll_channel_id.as_deref(), Some("100"));
    assert_eq!(s.election_frequency, 336);
    assert_eq!(s.winner_temp_role_id.as_deref(), Some("200"));
    assert_eq!(s.winner_perm_role_id, None);
    assert!(!s.active);
}

#[test]
fn setup_updates_an_existing_server() {
    let mut existing = Server::default_with_id("7".to_string());
    existing.active = true;
    existing.election_frequency = 24;
    let (s, mode) = setup(Some(300), None, Some(400)).plan(7, Some(existing));
    assert_eq!(mode, SaveMode::Update);
    assert_eq!(s.poll_channel_id.as_deref(), Some("300"));
    assert_eq!(s.election_frequency, 24);
    assert_eq!(s.winner_perm_role_id.as_deref(), Some("400"));
    assert!(s.active);
}

#[test]
fn setup_frequency_is_cut_to_32_bits() {
    let s = setup(None, Some((1i64 << 32) + 5), None).apply(Server::default_with_id("1".to_string()));
    assert_eq!(s.election_frequency, 5);
    let s = setup(None, Some(-1), None).apply(Server::default_with_id("1".to_string()));
    assert_eq!(s.election_frequency, -1);
}

#[test]
fn setup_twice_is_setup_once() {
    let cmd = setup(Some(3), Some(48), Some(4));
    let once = cmd.apply(Server::default_with_id("9".to_string()));
    let twice = cmd.apply(once.clone());
    assert_eq!(format!("{:?}", once), format!("{:?}", twice));
}

#[test]
fn setup_database_error_text() {
    assert_eq!(db_error("timed out"), "Failed to get DB connection, timed out");
}

#[test]
fn mentions_roundtrip() {
    for n in [1u64, 42, 123456789012345678, u64::MAX] {
        let arg = format!("<@{}>", n);
        assert_eq!(DiscordHelper::mention_digits(&arg), Some(n.to_string()));
        let args = vec![arg];
        assert_eq!(DiscordHelper::find_first_user_step(&args, 0), FindUserStep::Lookup { index: 0, user_id: n });
    }
}

#[test]
fn command_names_are_lower_cased_before_the_prefix_is_trimmed() {
    let r = router();
    match r.parse_message(false, "A!ping", "A!", true) {
        TextRoute::NotFound { command_name } => assert_eq!(command_name, "a!ping"),
        other => panic!("{:?}", other),
    }
    match r.parse_message(false, "ab!PING", "ab!", true) {
        TextRoute::Execute { index, args } => {
            assert_eq!(index, 0);
            assert!(args.is_empty());
        }
        other => panic!("{:?}", other),
    }
}

#[test]
fn guild_only_and_missing_user_replies() {
    assert_eq!(guild_only_reply(None).as_deref(), Some("You can only run this command from inside a server!"));
    assert_eq!(guild_only_reply(Some(7)), None);
    assert_eq!(missing_user_reply(&vec![]).as_deref(), Some("Please enter a user to nominate!"));
    assert_eq!(missing_user_reply(&vec!["<@1>".to_string()]), None);
}
