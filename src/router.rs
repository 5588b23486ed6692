//! Routing of inbound messages between the IRC channel and the Discord
//! channel: the filters that drop a message, and the requests queued for the
//! other network when one is bridged.
use vstd::prelude::*;
use vstd::string::*;
use crate::command::{is_command, respond_to_command, spells, command_write, usage_lines, IrcBotCommand};
use crate::directory::DirectoryMember;
use crate::identity::UserRecord;
use crate::mention::{finish_translation, translation_of};
use crate::resolve::{alias_of, avatar_of, resolve_alias, select_avatar_for_user};
use crate::text::{contains_text, is_listed, is_listed_id, listed, occurs_in, views, words_of};

verus! {

/// Settings of the bridge.
#[derive(Debug)]
pub struct Config {
    /// Nickname of the bridge on IRC.
    pub irc_nick: String,
    pub irc_host: String,
    pub irc_port: String,
    /// The bridged IRC channel.
    pub irc_channel: String,
    pub discord_token: String,
    pub application_id: u64,
    /// URL of the webhook that posts bridged messages on Discord.
    pub discord_webhook: String,
    /// The bridged Discord channel.
    pub discord_channel: u64,
    pub sqlite_path: String,
    /// IRC nicknames whose messages are never bridged.
    pub ignored_irc_users: Vec<String>,
    /// Discord user ids whose messages are never bridged.
    pub ignored_discord_users: Vec<u64>,
}

/// What the router knows beyond the settings: the bridge's own identities.
#[derive(Debug)]
pub struct Router {
    pub config: Config,
    /// The bridge's own Discord user id.
    pub own_user_id: u64,
    /// The webhook through which the bridge posts on Discord.
    pub webhook_id: u64,
    /// Text that the names of the bridge's own posts hold; a name holding it
    /// is never bridged, so that the bridge does not echo itself.
    pub marker: String,
}

/// A request queued for the IRC writer.
#[derive(Debug)]
pub enum IrcRequest {
    SendMessage { to: String, message: String },
    /// List the users of the channel; the answer goes to the query `handle`.
    Names { handle: u64 },
}

/// A request queued for the Discord writer.
#[derive(Debug)]
pub enum DiscordRequest {
    /// Post `message` under the name `alias`.
    SendMessage { alias: String, message: String },
    /// Set the avatar of the next posts; `None` clears it.
    SetAvatar { avatar_url: Option<String> },
}

/// An answer from IRC to a query.
#[derive(Debug)]
pub enum IrcResponse {
    NamesResponse(Vec<String>),
}

/// A message posted on Discord, with what the router reads of it.
#[derive(Debug)]
pub struct DiscordMessage {
    pub author_id: u64,
    /// The webhook that posted it, if one did.
    pub webhook_id: Option<u64>,
    pub channel_id: u64,
    pub content: String,
}

/// A PRIVMSG received on IRC.
#[derive(Debug)]
pub struct IrcMessage {
    pub source_nick: String,
    /// The channel, or the bridge's nickname for a private message.
    pub target: String,
    pub body: String,
}

/// What becomes of a message from IRC.
#[derive(Debug)]
pub enum IrcRoute {
    /// Nothing is sent.
    Dropped,
    /// Requests for the Discord writer.
    Bridged { requests: Vec<DiscordRequest> },
    /// A private command: the record write it makes and the replies for the
    /// IRC writer.
    Command { write: Option<UserRecord>, replies: Vec<IrcRequest> },
}

/// A Discord message that the router drops whatever channel it is in: the
/// bridge's own, one by an ignored user, or one the bridge's webhook posted.
pub open spec fn discord_ignored(rt: Router, m: DiscordMessage) -> bool {
    ||| m.author_id == rt.own_user_id
    ||| rt.config.ignored_discord_users@.contains(m.author_id)
    ||| m.webhook_id == Some(rt.webhook_id)
}

/// A Discord message that is bridged to IRC.
pub open spec fn discord_bridged(rt: Router, m: DiscordMessage) -> bool {
    !discord_ignored(rt, m) && m.channel_id == rt.config.discord_channel
}

/// The IRC line that carries a message of `nick`.
pub open spec fn irc_line(nick: Seq<char>, text: Seq<char>) -> Seq<char> {
    "<"@ + nick + "> "@ + text
}

/// An IRC message that the router drops before reading it: the bridge's own,
/// one by an ignored user, or one whose sender's nickname holds the marker.
pub open spec fn irc_filtered(rt: Router, m: IrcMessage) -> bool {
    ||| m.source_nick@ == rt.config.irc_nick@
    ||| listed(rt.config.ignored_irc_users@, m.source_nick@)
    ||| occurs_in(rt.marker@, m.source_nick@)
}

/// `replies` sends each of `lines`, in order, to `nick`.
pub open spec fn replies_to(replies: Seq<IrcRequest>, nick: Seq<char>, lines: Seq<Seq<char>>) -> bool {
    &&& replies.len() == lines.len()
    &&& forall|k: int|
        0 <= k < replies.len() ==> (#[trigger] replies[k] matches IrcRequest::SendMessage {
            to,
            message,
        } && to@ == nick && message@ == lines[k])
}

/// Whether a Discord message is dropped whatever channel it is in.
pub fn should_ignore_message(rt: &Router, m: &DiscordMessage) -> (r: bool)
    ensures
        r == discord_ignored(*rt, *m),
{
    m.author_id == rt.own_user_id || is_listed_id(&rt.config.ignored_discord_users, m.author_id)
        || match m.webhook_id {
        Some(w) => w == rt.webhook_id,
        None => false,
    }
}

/// Whether a Discord message is bridged to IRC.
pub fn should_bridge_discord(rt: &Router, m: &DiscordMessage) -> (r: bool)
    ensures
        r == discord_bridged(*rt, *m),
{
    !should_ignore_message(rt, m) && m.channel_id == rt.config.discord_channel
}

/// Writes the IRC line for a message of `nick`: `<nick> text`.
pub fn make_irc_message(nick: &str, text: &str) -> (r: String)
    ensures
        r@ == irc_line(nick@, text@),
{
    let mut line = String::from_str("<");
    line.append(nick);
    line.append("> ");
    line.append(text);
    line
}

/// Routes a Discord message to IRC, once the users it mentions were looked
/// up (`names`, in the order of `mention_ids_in`). `author_nick` is the name
/// of the author in the guild; one that holds the marker is never bridged.
pub fn route_discord_message(rt: &Router, m: &DiscordMessage, author_nick: &String, names: Vec<Option<String>>) -> (r: Vec<IrcRequest>)
    ensures
        m.author_id == rt.own_user_id ==> r@.len() == 0,
        !discord_bridged(*rt, *m) ==> r@.len() == 0,
        occurs_in(rt.marker@, author_nick@) ==> r@.len() == 0,
        discord_bridged(*rt, *m) && !occurs_in(rt.marker@, author_nick@) ==> r@.len() == 1 && (r@[0] matches IrcRequest::SendMessage {
            to,
            message,
        } && to == rt.config.irc_channel && message@ == irc_line(
            author_nick@,
            translation_of(m.content@, names@),
        )),
{
    let mut out: Vec<IrcRequest> = Vec::new();
    if should_bridge_discord(rt, m) && !contains_text(author_nick.as_str(), rt.marker.as_str()) {
        let text = finish_translation(&m.content, names);
        let message = make_irc_message(author_nick.as_str(), text.as_str());
        out.push(IrcRequest::SendMessage { to: rt.config.irc_channel.clone(), message });
    }
    out
}

/// Whether a message from IRC is dropped before it is read.
pub fn irc_message_filtered(rt: &Router, m: &IrcMessage) -> (r: bool)
    ensures
        r == irc_filtered(*rt, *m),
{
    m.source_nick == rt.config.irc_nick || is_listed(&rt.config.ignored_irc_users, &m.source_nick)
        || contains_text(m.source_nick.as_str(), rt.marker.as_str())
}

/// Addresses each line to `nick`.
fn replies_for(nick: &String, lines: Vec<String>) -> (r: Vec<IrcRequest>)
    ensures
        replies_to(r@, nick@, views(lines@)),
{
    let mut out: Vec<IrcRequest> = Vec::new();
    let mut k: usize = 0;
    while k < lines.len()
        invariant
            k <= lines@.len(),
            out@.len() == k,
            forall|j: int|
                0 <= j < k ==> (#[trigger] out@[j] matches IrcRequest::SendMessage {
                    to,
                    message,
                } && to@ == nick@ && message@ == lines@[j]@),
        decreases lines@.len() - k,
    {
        out.push(IrcRequest::SendMessage { to: nick.clone(), message: lines[k].clone() });
        k = k + 1;
    }
    out
}

/// Routes a message from IRC. `stored` is the record of its sender and `live`
/// the Discord member that the sender's nickname matches, if any.
pub fn route_irc_message(rt: &Router, m: IrcMessage, stored: Option<UserRecord>, live: Option<DirectoryMember>) -> (r: IrcRoute)
    ensures
        m.source_nick@ == rt.config.irc_nick@ ==> r is Dropped,
        irc_filtered(*rt, m) ==> r is Dropped,
        !irc_filtered(*rt, m) && m.target@ == rt.config.irc_channel@ ==> {
            if occurs_in(rt.marker@, alias_of(m.source_nick@, stored, live)) {
                r is Dropped
            } else {
                r matches IrcRoute::Bridged { requests } && requests@.len() == 2
                    && requests@[0] == (DiscordRequest::SetAvatar {
                    avatar_url: avatar_of(stored, live),
                }) && (requests@[1] matches DiscordRequest::SendMessage { alias, message }
                    && alias@ == alias_of(m.source_nick@, stored, live) && message == m.body)
            }
        },
        !irc_filtered(*rt, m) && m.target@ != rt.config.irc_channel@ && m.target@
            == rt.config.irc_nick@ ==> (r matches IrcRoute::Command { write, replies } && {
            if is_command(words_of(m.body@)) {
                replies@.len() == 0 && exists|c: IrcBotCommand|
                    spells(words_of(m.body@), c) && command_write(c, stored, m.source_nick, write)
            } else {
                write is None && replies_to(replies@, m.source_nick@, usage_lines())
            }
        }),
        !irc_filtered(*rt, m) && m.target@ != rt.config.irc_channel@ && m.target@
            != rt.config.irc_nick@ ==> r is Dropped,
        (stored is None || stored->0.wf()) ==> (r matches IrcRoute::Command { write, replies }
            ==> (write is Some ==> write->0.wf())),
{
    if irc_message_filtered(rt, &m) {
        return IrcRoute::Dropped;
    }
    if m.target == rt.config.irc_channel {
        let alias = resolve_alias(&m.source_nick, &stored, &live);
        if contains_text(alias.as_str(), rt.marker.as_str()) {
            return IrcRoute::Dropped;
        }
        let avatar_url = select_avatar_for_user(&stored, &live);
        let mut requests: Vec<DiscordRequest> = Vec::new();
        requests.push(DiscordRequest::SetAvatar { avatar_url });
        requests.push(DiscordRequest::SendMessage { alias, message: m.body });
        return IrcRoute::Bridged { requests };
    }
    if m.target == rt.config.irc_nick {
        let nick = m.source_nick.clone();
        let outcome = respond_to_command(m.body.as_str(), stored, m.source_nick);
        let replies = replies_for(&nick, outcome.replies);
        return IrcRoute::Command { write: outcome.write, replies };
    }
    IrcRoute::Dropped
}

} // verus!
