use election_bot::discord::helper::DiscordHelper;
use election_bot::discord::interactions::nominations::{nomination_captures, NominationAction};
use regex::Regex;

fn samples() -> Vec<String> {
    let mut v: Vec<String> = vec![
        "".into(),
        "accept_nomination_uid1_gid2".into(),
        "decline_nomination_uid12_gid34".into(),
        "xxaccept_nomination_uid1_gid2yy".into(),
        "accept_nomination_uid_gid2 decline_nomination_uid7_gid8".into(),
        "accept_nomination_uid1_gid".into(),
        "accept_nomination_uid1_gidx decline_nomination_uid3_gid4".into(),
        "acceptaccept_nomination_uid9_gid9".into(),
        "declineaccept_nomination_uid5_gid6x7".into(),
        "accept_nomination_uid123_gid456_gid789".into(),
        "<@1> <@22>".into(),
        "<@> <@x1> <@@3> <@44".into(),
        "<@<@5>>".into(),
        "mention <@123456789012345678>!".into(),
        "é<@7>ü".into(),
        "décline_nomination_uid1_gid2 accept_nomination_uid٣_gid3".into(),
    ];
    for a in ["accept", "decline"] {
        for u in ["0", "42", "18446744073709551616"] {
            v.push(format!("{}_nomination_uid{}_gid{}", a, u, u));
        }
    }
    v
}

#[test]
fn nomination_captures_agree_with_the_pattern() {
    let re = Regex::new(r#"(accept|decline)_nomination_uid([0-9]+)_gid([0-9]+)"#).unwrap();
    for s in samples() {
        let expected = re.captures(&s).map(|c| {
            (
                c.get(1).unwrap().as_str().to_string(),
                c.get(2).unwrap().as_str().to_string(),
                c.get(3).unwrap().as_str().to_string(),
            )
        });
        let got = nomination_captures(&s).map(|c| {
            let word = match c.action {
                NominationAction::Accept => "accept",
                NominationAction::Decline => "decline",
            };
            (word.to_string(), c.user_digits, c.guild_digits)
        });
        assert_eq!(got, expected, "{:?}", s);
    }
}

#[test]
fn mentions_agree_with_the_pattern() {
    let re = Regex::new(r"<@([0-9]+)>").unwrap();
    for s in samples() {
        let expected = re.captures(&s).map(|c| c.get(1).unwrap().as_str().to_string());
        assert_eq!(DiscordHelper::mention_digits(&s), expected, "{:?}", s);
    }
}
