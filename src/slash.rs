//! The Discord slash commands: linking an account to an IRC nickname, and
//! asking who is in the IRC channel. A presence query is answered by the next
//! names reply from IRC; one query at a time is outstanding, so that a reply
//! never goes to the wrong asker.
use vstd::prelude::*;
use vstd::string::*;
use crate::identity::{link_requested, request_link, RemoteUser, UserRecord};
use crate::router::IrcRequest;
use crate::text::{same_text, split_words, views, words_of};

verus! {

/// A slash command sent to the bridge.
#[derive(Debug)]
pub enum SlashCommand {
    /// Link the sender's account to the IRC nickname `nick`.
    ConnectUser { nick: String },
    /// List the users of the IRC channel.
    Users,
}

/// A presence query could not be registered.
#[derive(Debug, PartialEq, Eq, Structural)]
pub enum PresenceError {
    /// Another query is still waiting for its answer.
    Busy,
}

/// The outstanding presence query, if any, and the handle the next one gets.
#[derive(Debug)]
pub struct PresenceQueries {
    pub pending: Option<u64>,
    pub next_handle: u64,
}

/// The handle that follows `h`.
pub open spec fn handle_after(h: u64) -> u64 {
    if h == u64::MAX {
        0
    } else {
        (h + 1) as u64
    }
}

/// The reply to a link request for `nick`.
pub open spec fn link_reply(nick: Seq<char>) -> Seq<char> {
    "connecting user "@ + nick
}

impl PresenceQueries {
    /// No query outstanding.
    pub fn new() -> (r: Self)
        ensures
            r.pending is None,
            r.next_handle == 0,
    {
        PresenceQueries { pending: None, next_handle: 0 }
    }

    /// Registers a query and gives its handle; refused while another one waits.
    pub fn register(&mut self) -> (r: Result<u64, PresenceError>)
        ensures
            old(self).pending is Some ==> r == Err::<u64, PresenceError>(PresenceError::Busy)
                && *final(self) == *old(self),
            old(self).pending is None ==> r == Ok::<u64, PresenceError>(old(self).next_handle)
                && final(self).pending == Some(old(self).next_handle) && final(self).next_handle
                == handle_after(old(self).next_handle),
    {
        if self.pending.is_some() {
            return Err(PresenceError::Busy);
        }
        let h = self.next_handle;
        self.pending = Some(h);
        self.next_handle = if h == u64::MAX {
            0
        } else {
            h + 1
        };
        Ok(h)
    }

    /// Takes the query that a names reply answers, if one waits.
    pub fn take_reply(&mut self) -> (r: Option<u64>)
        ensures
            r == old(self).pending,
            final(self).pending is None,
            final(self).next_handle == old(self).next_handle,
    {
        let r = self.pending;
        self.pending = None;
        r
    }
}

/// Reads a slash command from its name and its first option.
pub fn parse_slash_command(name: &str, first_option: Option<String>) -> (r: Option<SlashCommand>)
    ensures
        name@ == "connect_user"@ && first_option is Some ==> r == Some(
            SlashCommand::ConnectUser { nick: first_option->0 },
        ),
        name@ == "users"@ ==> r == Some(SlashCommand::Users),
        !(name@ == "connect_user"@ && first_option is Some) && name@ != "users"@ ==> r is None,
{
    proof {
        reveal_strlit("connect_user");
        reveal_strlit("users");
        assert("connect_user"@.len() != "users"@.len());
    }
    if same_text(name, "connect_user") {
        match first_option {
            Some(nick) => {
                return Some(SlashCommand::ConnectUser { nick });
            },
            None => {},
        }
    }
    if same_text(name, "users") {
        return Some(SlashCommand::Users);
    }
    None
}

/// Records that `remote` asked to be linked to `nick`: the record to write and
/// the reply to show the asker.
pub fn handle_connect_user_command(stored: Option<UserRecord>, nick: String, remote: RemoteUser) -> (r: (UserRecord, String))
    ensures
        r.0 == link_requested(stored, nick, remote),
        r.0.wf(),
        r.1@ == link_reply(nick@),
{
    let mut reply = String::from_str("connecting user ");
    reply.append(nick.as_str());
    let write = request_link(stored, nick, remote);
    (write, reply)
}

/// Asks IRC who is in the channel, for the query registered in `queries`.
pub fn handle_names_command(queries: &mut PresenceQueries) -> (r: Result<IrcRequest, PresenceError>)
    ensures
        old(queries).pending is Some ==> r is Err && *final(queries) == *old(queries),
        old(queries).pending is None ==> r == Ok::<IrcRequest, PresenceError>(
            IrcRequest::Names { handle: old(queries).next_handle },
        ) && final(queries).pending == Some(old(queries).next_handle)
            && final(queries).next_handle == handle_after(old(queries).next_handle),
{
    match queries.register() {
        Ok(handle) => Ok(IrcRequest::Names { handle }),
        Err(e) => Err(e),
    }
}

/// The nicknames that a names reply from IRC lists: the words of its last
/// parameter (the ones before it name the receiver and the channel).
pub fn names_in_reply(params: &Vec<String>) -> (r: Vec<String>)
    ensures
        params@.len() == 0 ==> r@.len() == 0,
        params@.len() > 0 ==> views(r@) == words_of(params@.last()@),
{
    if params.len() == 0 {
        return Vec::new();
    }
    split_words(params[params.len() - 1].as_str())
}

} // verus!
