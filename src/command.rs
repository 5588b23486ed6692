//! The command language that IRC users write to the bridge in private
//! messages, and the record writes and replies that each command makes.
use vstd::prelude::*;
use vstd::string::*;
use crate::gravatar::{gravatar_url, lower_of, make_gravatar_url, md5_hex_of};
use crate::identity::{
    after_write, avatar_cleared, avatar_set, clear_avatar, confirm_link, link_confirmed,
    set_avatar, UserRecord,
};
use crate::text::{same_text, split_words, views, words_of};

verus! {

/// The `avatar` subcommands.
#[derive(Debug)]
pub enum AvatarCommand {
    Url { url: String },
    Gravatar { email: String },
    Reset,
}

/// A command sent to the bridge.
#[derive(Debug)]
pub enum IrcBotCommand {
    Avatar { command: AvatarCommand },
    Connect { discord_id: String },
}

/// What a private message to the bridge leads to: at most one record write,
/// and the lines sent back to the sender.
#[derive(Debug)]
pub struct CommandOutcome {
    pub write: Option<UserRecord>,
    pub replies: Vec<String>,
}

/// The words of a message form one of the four commands.
pub open spec fn is_command(w: Seq<Seq<char>>) -> bool {
    ||| w.len() == 3 && w[0] == "avatar"@ && w[1] == "url"@
    ||| w.len() == 3 && w[0] == "avatar"@ && w[1] == "gravatar"@
    ||| w.len() == 2 && w[0] == "avatar"@ && w[1] == "reset"@
    ||| w.len() == 2 && w[0] == "connect"@
}

/// `c` is the command that the words `w` spell.
pub open spec fn spells(w: Seq<Seq<char>>, c: IrcBotCommand) -> bool {
    match c {
        IrcBotCommand::Avatar { command: AvatarCommand::Url { url } } => w.len() == 3 && w[0]
            == "avatar"@ && w[1] == "url"@ && w[2] == url@,
        IrcBotCommand::Avatar { command: AvatarCommand::Gravatar { email } } => w.len() == 3
            && w[0] == "avatar"@ && w[1] == "gravatar"@ && w[2] == email@,
        IrcBotCommand::Avatar { command: AvatarCommand::Reset } => w.len() == 2 && w[0]
            == "avatar"@ && w[1] == "reset"@,
        IrcBotCommand::Connect { discord_id } => w.len() == 2 && w[0] == "connect"@ && w[1]
            == discord_id@,
    }
}

/// The record write that command `c` from `nick` makes; for `avatar gravatar`
/// the URL is the one built from the address.
pub open spec fn command_write(c: IrcBotCommand, stored: Option<UserRecord>, nick: String, write: Option<UserRecord>) -> bool {
    match c {
        IrcBotCommand::Avatar { command: AvatarCommand::Url { url } } => write == Some(
            avatar_set(stored, nick, url),
        ),
        IrcBotCommand::Avatar { command: AvatarCommand::Gravatar { email } } => {
            &&& write is Some
            &&& write->0.avatar_override is Some
            &&& write->0 == avatar_set(stored, nick, write->0.avatar_override->0)
            &&& write->0.avatar_override->0@ == gravatar_url(md5_hex_of(lower_of(email@)))
        },
        IrcBotCommand::Avatar { command: AvatarCommand::Reset } => write == avatar_cleared(stored),
        IrcBotCommand::Connect { discord_id } => write == link_confirmed(stored, discord_id@),
    }
}

/// The lines sent back for a message that is no command.
pub open spec fn usage_lines() -> Seq<Seq<char>> {
    seq![
        "Error, unknown command"@,
        "Valid commands are: "@,
        "> avatar gravatar {email}"@,
        "> avatar reset"@,
        "> avatar url {url}"@,
        "> connect {discord_nick}"@,
    ]
}

/// Reads a command from the words of a private message.
pub fn parse_bot_command(body: &str) -> (r: Option<IrcBotCommand>)
    ensures
        r is Some <==> is_command(words_of(body@)),
        r is Some ==> spells(words_of(body@), r->0),
{
    let words = split_words(body);
    proof {
        assert(views(words@).len() == words@.len());
    }
    if words.len() == 3 && same_text(words[0].as_str(), "avatar") {
        assert(views(words@)[1] == words@[1]@);
        assert(views(words@)[2] == words@[2]@);
        if same_text(words[1].as_str(), "url") {
            let url = words[2].clone();
            return Some(IrcBotCommand::Avatar { command: AvatarCommand::Url { url } });
        }
        if same_text(words[1].as_str(), "gravatar") {
            let email = words[2].clone();
            return Some(IrcBotCommand::Avatar { command: AvatarCommand::Gravatar { email } });
        }
        return None;
    }
    if words.len() == 2 {
        assert(views(words@)[0] == words@[0]@);
        assert(views(words@)[1] == words@[1]@);
        if same_text(words[0].as_str(), "avatar") && same_text(words[1].as_str(), "reset") {
            return Some(IrcBotCommand::Avatar { command: AvatarCommand::Reset });
        }
        if same_text(words[0].as_str(), "connect") {
            let discord_id = words[1].clone();
            return Some(IrcBotCommand::Connect { discord_id });
        }
    }
    None
}

/// Carries out a command from `nick`: the record write it makes, if any.
pub fn handle_irc_bot_command(command: IrcBotCommand, stored: Option<UserRecord>, nick: String) -> (r: Option<UserRecord>)
    ensures
        command_write(command, stored, nick, r),
        (stored is None || stored->0.wf()) && r is Some ==> r->0.wf(),
{
    match command {
        IrcBotCommand::Avatar { command } => match command {
            AvatarCommand::Url { url } => Some(set_avatar(stored, nick, url)),
            AvatarCommand::Gravatar { email } => {
                let url = make_gravatar_url(email);
                Some(set_avatar(stored, nick, url))
            },
            AvatarCommand::Reset => clear_avatar(stored),
        },
        IrcBotCommand::Connect { discord_id } => confirm_link(stored, &discord_id),
    }
}

/// The lines that tell a user which commands there are.
pub fn usage_replies() -> (r: Vec<String>)
    ensures
        views(r@) == usage_lines(),
{
    let mut r: Vec<String> = Vec::new();
    r.push(String::from_str("Error, unknown command"));
    r.push(String::from_str("Valid commands are: "));
    r.push(String::from_str("> avatar gravatar {email}"));
    r.push(String::from_str("> avatar reset"));
    r.push(String::from_str("> avatar url {url}"));
    r.push(String::from_str("> connect {discord_nick}"));
    assert(views(r@) =~= usage_lines());
    r
}

/// Answers a private message from `nick`: a command makes its write and no
/// reply; anything else makes no write and gets the usage lines.
pub fn respond_to_command(body: &str, stored: Option<UserRecord>, nick: String) -> (r: CommandOutcome)
    ensures
        !is_command(words_of(body@)) ==> r.write is None && views(r.replies@) == usage_lines(),
        is_command(words_of(body@)) ==> r.replies@.len() == 0 && exists|c: IrcBotCommand|
            spells(words_of(body@), c) && command_write(c, stored, nick, r.write),
        (stored is None || stored->0.wf()) && r.write is Some ==> r.write->0.wf(),
{
    match parse_bot_command(body) {
        Some(command) => {
            let ghost c = command;
            let write = handle_irc_bot_command(command, stored, nick);
            assert(spells(words_of(body@), c) && command_write(c, stored, nick, write));
            CommandOutcome { write, replies: Vec::new() }
        },
        None => CommandOutcome { write: None, replies: usage_replies() },
    }
}

/// `connect id` verifies the record exactly where its linked account is
/// already named `id` (and comes with a display name), writes nothing
/// otherwise, and a second `connect id` after a successful one leaves the
/// record verified as it is.
pub proof fn connect_verifies_only_linked(stored: Option<UserRecord>, nick: String, id: String, write: Option<UserRecord>)
    requires
        command_write(IrcBotCommand::Connect { discord_id: id }, stored, nick, write),
    ensures
        write is Some <==> (stored is Some && stored->0.linked_nick is Some
            && stored->0.linked_nick->0@ == id@ && stored->0.linked_display_name is Some),
        write is Some ==> write->0.verified && write->0.wf(),
        write is Some ==> link_confirmed(after_write(stored, write), id@) == write,
        write is None ==> after_write(stored, write) == stored,
{
}

/// A second `avatar reset` right after a first one writes nothing.
pub proof fn reset_twice_writes_once(stored: Option<UserRecord>, nick: String, first: Option<UserRecord>, second: Option<UserRecord>)
    requires
        command_write(IrcBotCommand::Avatar { command: AvatarCommand::Reset }, stored, nick, first),
        command_write(
            IrcBotCommand::Avatar { command: AvatarCommand::Reset },
            after_write(stored, first),
            nick,
            second,
        ),
    ensures
        second is None,
        after_write(after_write(stored, first), second) == after_write(stored, first),
{
}

} // verus!
