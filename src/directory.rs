//! Members of the Discord guild as the directory search reports them, and the
//! choice of the member that a nickname stands for.
use vstd::prelude::*;
use crate::identity::UserRecord;
use crate::text::{eq_ascii_nocase, equals_ignoring_ascii_case};

verus! {

/// A guild member, with the avatar URLs that the directory reports for it.
#[derive(Debug)]
pub struct DirectoryMember {
    pub user_id: u64,
    /// Account name.
    pub user_name: String,
    /// Nickname in the guild.
    pub guild_nick: Option<String>,
    /// Avatar set for this guild only.
    pub guild_avatar: Option<String>,
    /// Avatar of the account.
    pub user_avatar: Option<String>,
    /// The platform's default avatar for the account.
    pub default_avatar: String,
}

/// The member a search for `nick` stands for: the first result, where its
/// account name equals `nick` up to ASCII case.
pub open spec fn member_for_nick(results: Seq<DirectoryMember>, nick: Seq<char>) -> Option<DirectoryMember> {
    if results.len() > 0 && eq_ascii_nocase(results[0].user_name@, nick) {
        Some(results[0])
    } else {
        None
    }
}

/// The avatar a member shows: its guild avatar, else its account avatar, else
/// the default one.
pub open spec fn member_avatar(m: DirectoryMember) -> String {
    match m.guild_avatar {
        Some(a) => a,
        None => match m.user_avatar {
            Some(a) => a,
            None => m.default_avatar,
        },
    }
}

/// The name a member goes by in the guild: its nickname there, else its
/// account name.
pub open spec fn member_name(m: DirectoryMember) -> String {
    match m.guild_nick {
        Some(n) => n,
        None => m.user_name,
    }
}

/// Picks the member that a directory search for `nick` found, if any.
pub fn find_member_for_nick(results: Vec<DirectoryMember>, nick: &str) -> (r: Option<DirectoryMember>)
    ensures
        r == member_for_nick(results@, nick@),
{
    let mut results = results;
    if results.len() == 0 {
        return None;
    }
    let first = results.swap_remove(0);
    if equals_ignoring_ascii_case(first.user_name.as_str(), nick) {
        Some(first)
    } else {
        None
    }
}

/// The avatar URL that `member` shows.
pub fn get_avatar_from_guild_member(member: &DirectoryMember) -> (r: String)
    ensures
        r == member_avatar(*member),
{
    match &member.guild_avatar {
        Some(a) => a.clone(),
        None => match &member.user_avatar {
            Some(a) => a.clone(),
            None => member.default_avatar.clone(),
        },
    }
}

/// The name that `member` goes by in the guild.
pub fn get_member_name(member: &DirectoryMember) -> (r: String)
    ensures
        r == member_name(*member),
{
    match &member.guild_nick {
        Some(n) => n.clone(),
        None => member.user_name.clone(),
    }
}

/// The name an author is shown under on IRC: the nickname in the guild where
/// there is one, else the account name.
pub fn get_nick_from_user(guild_nick: Option<String>, user_name: String) -> (r: String)
    ensures
        r == (match guild_nick {
            Some(n) => n,
            None => user_name,
        }),
{
    match guild_nick {
        Some(n) => n,
        None => user_name,
    }
}

/// The name to search the directory for on behalf of `nick`: the linked
/// account of a verified record, so that its avatar is used, else the
/// nickname itself.
pub open spec fn query_name(stored: Option<UserRecord>, nick: String) -> String {
    if stored is Some && stored->0.verified && stored->0.linked_nick is Some {
        stored->0.linked_nick->0
    } else {
        nick
    }
}

/// Chooses the name to search the directory for on behalf of `nick`.
pub fn directory_query(stored: &Option<UserRecord>, nick: &String) -> (r: String)
    ensures
        r == query_name(*stored, *nick),
{
    if let Some(rec) = stored {
        if rec.verified {
            if let Some(n) = &rec.linked_nick {
                return n.clone();
            }
        }
    }
    nick.clone()
}

} // verus!
