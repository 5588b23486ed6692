use discord_irc_bridge::command::{
    handle_irc_bot_command, parse_bot_command, respond_to_command, usage_replies, AvatarCommand,
    IrcBotCommand,
};
use discord_irc_bridge::gravatar::{gravatar_url_from_hash, make_gravatar_url};
use discord_irc_bridge::identity::{
    clear_avatar, confirm_link, request_link, set_avatar, RemoteUser, UserRecord,
};
use discord_irc_bridge::resolve::resolve_alias;

fn record(nick: &str) -> UserRecord {
    UserRecord {
        irc_nick: nick.to_string(),
        verified: false,
        linked_id: None,
        linked_display_name: None,
        linked_nick: None,
        avatar_override: None,
    }
}

fn pending_alice() -> UserRecord {
    UserRecord {
        linked_id: Some(77),
        linked_display_name: Some("Alice D".to_string()),
        linked_nick: Some("alice#disc".to_string()),
        ..record("alice")
    }
}

#[test]
fn connect_verifies_linked_record_and_alias_follows() {
    let stored = Some(pending_alice());
    let out = respond_to_command("connect alice#disc", stored, "alice".to_string());
    assert!(out.replies.is_empty());
    let rec = out.write.expect("a write");
    assert!(rec.verified);
    assert_eq!(rec.irc_nick, "alice");
    let alias = resolve_alias(&"alice".to_string(), &Some(rec), &None);
    assert_eq!(alias, "Alice D");
}

#[test]
fn connect_with_other_name_writes_nothing() {
    let w = confirm_link(Some(pending_alice()), &"mallory".to_string());
    assert!(w.is_none());
    assert!(confirm_link(None, &"alice#disc".to_string()).is_none());
}

#[test]
fn connect_twice_stays_verified() {
    let first = confirm_link(Some(pending_alice()), &"alice#disc".to_string()).unwrap();
    let second = confirm_link(Some(first), &"alice#disc".to_string()).unwrap();
    assert!(second.verified);
    assert_eq!(second.linked_nick.as_deref(), Some("alice#disc"));
}

#[test]
fn reset_twice_writes_once() {
    let mut rec = record("bob");
    rec.avatar_override = Some("http://x/a.png".to_string());
    let first = clear_avatar(Some(rec)).expect("first reset writes");
    assert!(first.avatar_override.is_none());
    assert!(clear_avatar(Some(first)).is_none());
    assert!(clear_avatar(None).is_none());
}

#[test]
fn avatar_url_creates_or_updates() {
    let fresh = set_avatar(None, "carol".to_string(), "http://x/c.png".to_string());
    assert_eq!(fresh.irc_nick, "carol");
    assert_eq!(fresh.avatar_override.as_deref(), Some("http://x/c.png"));
    assert!(!fresh.verified);
    let again = set_avatar(Some(pending_alice()), "alice".to_string(), "u".to_string());
    assert_eq!(again.avatar_override.as_deref(), Some("u"));
    assert_eq!(again.linked_nick.as_deref(), Some("alice#disc"));
}

#[test]
fn parses_each_command() {
    match parse_bot_command("avatar url http://a/b.png") {
        Some(IrcBotCommand::Avatar { command: AvatarCommand::Url { url } }) => {
            assert_eq!(url, "http://a/b.png")
        }
        other => panic!("unexpected {:?}", other),
    }
    match parse_bot_command("  avatar   gravatar me@example.com ") {
        Some(IrcBotCommand::Avatar { command: AvatarCommand::Gravatar { email } }) => {
            assert_eq!(email, "me@example.com")
        }
        other => panic!("unexpected {:?}", other),
    }
    assert!(matches!(
        parse_bot_command("avatar reset"),
        Some(IrcBotCommand::Avatar { command: AvatarCommand::Reset })
    ));
    match parse_bot_command("connect\tbob") {
        Some(IrcBotCommand::Connect { discord_id }) => assert_eq!(discord_id, "bob"),
        other => panic!("unexpected {:?}", other),
    }
}

#[test]
fn malformed_commands_are_refused() {
    for body in ["", "avatar", "avatar url", "avatar reset now", "Avatar reset", "connect", "connect a b", "hello"] {
        assert!(parse_bot_command(body).is_none(), "{body}");
    }
}

#[test]
fn unknown_command_gets_usage() {
    let out = respond_to_command("help me", None, "dave".to_string());
    assert!(out.write.is_none());
    assert_eq!(out.replies, usage_replies());
    assert_eq!(out.replies.len(), 6);
    assert_eq!(out.replies[0], "Error, unknown command");
    assert_eq!(out.replies[5], "> connect {discord_nick}");
}

#[test]
fn gravatar_url_is_md5_of_lowercased_address() {
    assert_eq!(
        make_gravatar_url("ABC".to_string()),
        "https://www.gravatar.com/avatar/900150983cd24fb0d6963f7d28e17f72.jpg?s=128"
    );
    assert_eq!(
        gravatar_url_from_hash("d41d8cd98f00b204e9800998ecf8427e"),
        "https://www.gravatar.com/avatar/d41d8cd98f00b204e9800998ecf8427e.jpg?s=128"
    );
}

#[test]
fn gravatar_command_sets_override() {
    let w = handle_irc_bot_command(
        IrcBotCommand::Avatar { command: AvatarCommand::Gravatar { email: "".to_string() } },
        None,
        "erin".to_string(),
    )
    .unwrap();
    assert_eq!(
        w.avatar_override.as_deref(),
        Some("https://www.gravatar.com/avatar/d41d8cd98f00b204e9800998ecf8427e.jpg?s=128")
    );
}

#[test]
fn link_request_names_account_unverified() {
    let remote = RemoteUser { id: 5, name: "frank".to_string(), guild_nick: Some("Frankie".to_string()) };
    let rec = request_link(None, "frank_irc".to_string(), remote);
    assert_eq!(rec.irc_nick, "frank_irc");
    assert!(!rec.verified);
    assert_eq!(rec.linked_id, Some(5));
    assert_eq!(rec.linked_nick.as_deref(), Some("frank"));
    assert_eq!(rec.linked_display_name.as_deref(), Some("Frankie"));
}

#[test]
fn relinking_other_account_drops_verification() {
    let verified = confirm_link(Some(pending_alice()), &"alice#disc".to_string()).unwrap();
    let same = request_link(
        Some(verified),
        "alice".to_string(),
        RemoteUser { id: 77, name: "alice#disc".to_string(), guild_nick: None },
    );
    assert!(same.verified);
    assert_eq!(same.linked_display_name.as_deref(), Some("alice#disc"));
    let other = request_link(
        Some(same),
        "alice".to_string(),
        RemoteUser { id: 78, name: "eve".to_string(), guild_nick: None },
    );
    assert!(!other.verified);
}

#[test]
fn connect_without_display_name_writes_nothing() {
    let rec = UserRecord {
        linked_nick: Some("alice#disc".to_string()),
        avatar_override: Some("http://x/a.png".to_string()),
        ..record("alice")
    };
    assert!(confirm_link(Some(rec), &"alice#disc".to_string()).is_none());
}
