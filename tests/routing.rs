use discord_irc_bridge::directory::{directory_query, find_member_for_nick, get_nick_from_user, get_avatar_from_guild_member, DirectoryMember};
use discord_irc_bridge::identity::{RemoteUser, UserRecord};
use discord_irc_bridge::resolve::{resolve_alias, select_avatar_for_user};
use discord_irc_bridge::router::{
    route_discord_message, route_irc_message, should_ignore_message, Config, DiscordMessage,
    DiscordRequest, IrcMessage, IrcRequest, IrcRoute, Router,
};
use discord_irc_bridge::slash::{
    handle_connect_user_command, handle_names_command, names_in_reply, parse_slash_command, PresenceError,
    PresenceQueries, SlashCommand,
};
use discord_irc_bridge::text::{contains_text, equals_ignoring_ascii_case, split_words};

fn router() -> Router {
    Router {
        config: Config {
            irc_nick: "bridge".to_string(),
            irc_host: "irc.example.org".to_string(),
            irc_port: "6697".to_string(),
            irc_channel: "#chan".to_string(),
            discord_token: "SECRET-REDACTED".to_string(),
            application_id: 1,
            discord_webhook: "https://example.org/hook".to_string(),
            discord_channel: 10,
            sqlite_path: "db.sqlite".to_string(),
            ignored_irc_users: vec!["spammer".to_string()],
            ignored_discord_users: vec![666],
        },
        own_user_id: 1000,
        webhook_id: 2000,
        marker: "discord".to_string(),
    }
}

fn member(name: &str) -> DirectoryMember {
    DirectoryMember {
        user_id: 3,
        user_name: name.to_string(),
        guild_nick: None,
        guild_avatar: None,
        user_avatar: None,
        default_avatar: "https://cdn/default.png".to_string(),
    }
}

fn irc(nick: &str, target: &str, body: &str) -> IrcMessage {
    IrcMessage { source_nick: nick.to_string(), target: target.to_string(), body: body.to_string() }
}

fn discord(author: u64, webhook: Option<u64>, channel: u64, content: &str) -> DiscordMessage {
    DiscordMessage { author_id: author, webhook_id: webhook, channel_id: channel, content: content.to_string() }
}

#[test]
fn own_discord_messages_are_not_bridged() {
    let rt = router();
    let m = discord(1000, None, 10, "hello");
    assert!(should_ignore_message(&rt, &m));
    assert!(route_discord_message(&rt, &m, &"me".to_string(), vec![]).is_empty());
}

#[test]
fn own_irc_messages_are_dropped() {
    let rt = router();
    let r = route_irc_message(&rt, irc("bridge", "#chan", "hi"), None, None);
    assert!(matches!(r, IrcRoute::Dropped));
}

#[test]
fn discord_filters() {
    let rt = router();
    assert!(should_ignore_message(&rt, &discord(666, None, 10, "x")));
    assert!(should_ignore_message(&rt, &discord(5, Some(2000), 10, "x")));
    assert!(!should_ignore_message(&rt, &discord(5, Some(2001), 10, "x")));
    assert!(route_discord_message(&rt, &discord(5, None, 11, "x"), &"n".to_string(), vec![]).is_empty());
}

#[test]
fn discord_message_goes_to_irc_channel() {
    let rt = router();
    let m = discord(5, None, 10, "hello <@123> how are you");
    let out = route_discord_message(&rt, &m, &"carl".to_string(), vec![Some("bob".to_string())]);
    assert_eq!(out.len(), 1);
    match &out[0] {
        IrcRequest::SendMessage { to, message } => {
            assert_eq!(to, "#chan");
            assert_eq!(message, "<carl> hello bob: how are you");
        }
        other => panic!("unexpected {:?}", other),
    }
}

#[test]
fn irc_filters() {
    let rt = router();
    assert!(matches!(route_irc_message(&rt, irc("spammer", "#chan", "x"), None, None), IrcRoute::Dropped));
    assert!(matches!(route_irc_message(&rt, irc("bob_discord", "#chan", "x"), None, None), IrcRoute::Dropped));
    assert!(matches!(route_irc_message(&rt, irc("bob", "#other", "x"), None, None), IrcRoute::Dropped));
}

#[test]
fn irc_message_is_bridged_with_alias_and_avatar() {
    let rt = router();
    let mut m = member("Bob");
    m.guild_nick = Some("Bobby".to_string());
    m.user_avatar = Some("https://cdn/bob.png".to_string());
    match route_irc_message(&rt, irc("bob", "#chan", "hi all"), None, Some(m)) {
        IrcRoute::Bridged { requests } => {
            assert_eq!(requests.len(), 2);
            match &requests[0] {
                DiscordRequest::SetAvatar { avatar_url } => {
                    assert_eq!(avatar_url.as_deref(), Some("https://cdn/bob.png"))
                }
                other => panic!("unexpected {:?}", other),
            }
            match &requests[1] {
                DiscordRequest::SendMessage { alias, message } => {
                    assert_eq!(alias, "Bobby");
                    assert_eq!(message, "hi all");
                }
                other => panic!("unexpected {:?}", other),
            }
        }
        other => panic!("unexpected {:?}", other),
    }
}

#[test]
fn alias_holding_marker_is_suppressed() {
    let rt = router();
    let m = member("discord_relay");
    assert!(matches!(route_irc_message(&rt, irc("relay", "#chan", "x"), None, Some(m)), IrcRoute::Dropped));
}

#[test]
fn unmatched_sender_clears_avatar() {
    let rt = router();
    match route_irc_message(&rt, irc("zed", "#chan", "yo"), None, None) {
        IrcRoute::Bridged { requests } => {
            assert!(matches!(&requests[0], DiscordRequest::SetAvatar { avatar_url: None }));
            assert!(matches!(&requests[1], DiscordRequest::SendMessage { alias, .. } if alias == "zed"));
        }
        other => panic!("unexpected {:?}", other),
    }
}

#[test]
fn private_command_writes_and_replies() {
    let rt = router();
    match route_irc_message(&rt, irc("gus", "bridge", "avatar url http://a/g.png"), None, None) {
        IrcRoute::Command { write, replies } => {
            assert!(replies.is_empty());
            assert_eq!(write.unwrap().avatar_override.as_deref(), Some("http://a/g.png"));
        }
        other => panic!("unexpected {:?}", other),
    }
    match route_irc_message(&rt, irc("gus", "bridge", "what"), None, None) {
        IrcRoute::Command { write, replies } => {
            assert!(write.is_none());
            assert_eq!(replies.len(), 6);
            assert!(matches!(&replies[0], IrcRequest::SendMessage { to, message }
                if to == "gus" && message == "Error, unknown command"));
        }
        other => panic!("unexpected {:?}", other),
    }
}

#[test]
fn alias_precedence() {
    let nick = "alice".to_string();
    let verified = UserRecord {
        irc_nick: nick.clone(),
        verified: true,
        linked_id: Some(1),
        linked_display_name: Some("Alice D".to_string()),
        linked_nick: Some("alice#disc".to_string()),
        avatar_override: None,
    };
    let mut live = member("ALICE");
    live.guild_nick = Some("Ally".to_string());
    let a1 = resolve_alias(&nick, &Some(verified), &Some(live));
    assert_eq!(a1, "Alice D");
    let mut live = member("ALICE");
    live.guild_nick = Some("Ally".to_string());
    assert_eq!(resolve_alias(&nick, &None, &Some(live)), "Ally");
    assert_eq!(resolve_alias(&nick, &None, &Some(member("alice"))), "alice");
    assert_eq!(resolve_alias(&nick, &None, &None), "alice");
    assert_eq!(resolve_alias(&nick, &None, &None), resolve_alias(&nick, &None, &None));
}

#[test]
fn avatar_precedence() {
    let rec = UserRecord {
        irc_nick: "a".to_string(),
        verified: false,
        linked_id: None,
        linked_display_name: None,
        linked_nick: None,
        avatar_override: Some("https://own.png".to_string()),
    };
    let mut m = member("a");
    m.guild_avatar = Some("https://guild.png".to_string());
    m.user_avatar = Some("https://user.png".to_string());
    assert_eq!(get_avatar_from_guild_member(&m), "https://guild.png");
    assert_eq!(select_avatar_for_user(&Some(rec), &Some(m)).as_deref(), Some("https://own.png"));
    let mut m = member("a");
    m.user_avatar = Some("https://user.png".to_string());
    assert_eq!(get_avatar_from_guild_member(&m), "https://user.png");
    assert_eq!(get_avatar_from_guild_member(&member("a")), "https://cdn/default.png");
    assert_eq!(select_avatar_for_user(&None, &None), None);
}

#[test]
fn directory_match_ignores_ascii_case_only() {
    let found = find_member_for_nick(vec![member("BoB"), member("bob")], "bob");
    assert_eq!(found.unwrap().user_name, "BoB");
    assert!(find_member_for_nick(vec![member("bobby"), member("bob")], "bob").is_none());
    assert!(find_member_for_nick(vec![], "bob").is_none());
    assert!(equals_ignoring_ascii_case("ÄbC", "Äbc"));
    assert!(!equals_ignoring_ascii_case("äbc", "Äbc"));
}

#[test]
fn text_helpers() {
    assert!(contains_text("my_discord_bot", "discord"));
    assert!(!contains_text("disco", "discord"));
    assert!(contains_text("abc", ""));
    assert_eq!(split_words(" a\u{3000}b\n\nc "), vec!["a", "b", "c"]);
    assert!(split_words("   ").is_empty());
}

#[test]
fn presence_queries_one_at_a_time() {
    let mut q = PresenceQueries::new();
    let first = handle_names_command(&mut q).unwrap();
    assert!(matches!(first, IrcRequest::Names { handle: 0 }));
    assert_eq!(handle_names_command(&mut q).unwrap_err(), PresenceError::Busy);
    assert_eq!(q.take_reply(), Some(0));
    assert_eq!(q.take_reply(), None);
    assert_eq!(q.register(), Ok(1));
}

#[test]
fn slash_commands() {
    assert!(matches!(
        parse_slash_command("connect_user", Some("ann".to_string())),
        Some(SlashCommand::ConnectUser { nick }) if nick == "ann"
    ));
    assert!(parse_slash_command("connect_user", None).is_none());
    assert!(matches!(parse_slash_command("users", None), Some(SlashCommand::Users)));
    assert!(parse_slash_command("other", None).is_none());
    let (rec, reply) = handle_connect_user_command(
        None,
        "ann".to_string(),
        RemoteUser { id: 9, name: "ann_d".to_string(), guild_nick: None },
    );
    assert_eq!(reply, "connecting user ann");
    assert_eq!(rec.linked_nick.as_deref(), Some("ann_d"));
    assert_eq!(rec.linked_display_name.as_deref(), Some("ann_d"));
}

#[test]
fn names_reply_lists_last_parameter() {
    let params = vec!["bridge".to_string(), "=".to_string(), "#chan".to_string(), "@op alice bob".to_string()];
    assert_eq!(names_in_reply(&params), vec!["@op", "alice", "bob"]);
    assert!(names_in_reply(&vec![]).is_empty());
}

#[test]
fn author_nick_prefers_guild_nick() {
    assert_eq!(get_nick_from_user(Some("G".to_string()), "u".to_string()), "G");
    assert_eq!(get_nick_from_user(None, "u".to_string()), "u");
}

#[test]
fn discord_author_holding_marker_is_not_bridged() {
    let rt = router();
    let m = discord(5, None, 10, "hello");
    assert!(route_discord_message(&rt, &m, &"my_discord_relay".to_string(), vec![]).is_empty());
    assert_eq!(route_discord_message(&rt, &m, &"carl".to_string(), vec![]).len(), 1);
}

#[test]
fn directory_query_uses_linked_account_when_verified() {
    let nick = "alice".to_string();
    let mut rec = UserRecord {
        irc_nick: nick.clone(),
        verified: false,
        linked_id: Some(1),
        linked_display_name: Some("Alice D".to_string()),
        linked_nick: Some("alice#disc".to_string()),
        avatar_override: None,
    };
    assert_eq!(directory_query(&None, &nick), "alice");
    let pending = Some(UserRecord { linked_nick: rec.linked_nick.clone(), linked_display_name: rec.linked_display_name.clone(), irc_nick: nick.clone(), ..rec });
    assert_eq!(directory_query(&pending, &nick), "alice");
    rec = pending.unwrap();
    rec.verified = true;
    assert_eq!(directory_query(&Some(rec), &nick), "alice#disc");
}

#[test]
fn names_command_advances_handle() {
    let mut q = PresenceQueries::new();
    assert!(matches!(handle_names_command(&mut q), Ok(IrcRequest::Names { handle: 0 })));
    assert_eq!(q.next_handle, 1);
    q.take_reply();
    assert!(matches!(handle_names_command(&mut q), Ok(IrcRequest::Names { handle: 1 })));
    assert_eq!(q.next_handle, 2);
}
