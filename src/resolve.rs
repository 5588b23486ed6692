//! The name and avatar under which a message from IRC is posted on Discord.
use vstd::prelude::*;
use crate::directory::{
    get_avatar_from_guild_member, get_member_name, member_avatar, member_name, DirectoryMember,
};
use crate::identity::UserRecord;

verus! {

/// The alias for `nick`: the linked display name of a verified record, else
/// the name of the live directory match, else the nickname itself.
pub open spec fn alias_of(nick: Seq<char>, stored: Option<UserRecord>, live: Option<DirectoryMember>) -> Seq<char> {
    if stored is Some && stored->0.verified && stored->0.linked_display_name is Some {
        stored->0.linked_display_name->0@
    } else if live is Some {
        member_name(live->0)@
    } else {
        nick
    }
}

/// The avatar for a sender: the record's override, else the avatar of the live
/// directory match, else none (the posted avatar is cleared).
pub open spec fn avatar_of(stored: Option<UserRecord>, live: Option<DirectoryMember>) -> Option<String> {
    if stored is Some && stored->0.avatar_override is Some {
        stored->0.avatar_override
    } else if live is Some {
        Some(member_avatar(live->0))
    } else {
        None
    }
}

/// Chooses the name under which a message from `nick` is posted.
pub fn resolve_alias(nick: &String, stored: &Option<UserRecord>, live: &Option<DirectoryMember>) -> (r: String)
    ensures
        r@ == alias_of(nick@, *stored, *live),
{
    if let Some(rec) = stored {
        if rec.verified {
            if let Some(name) = &rec.linked_display_name {
                return name.clone();
            }
        }
    }
    match live {
        Some(m) => get_member_name(m),
        None => nick.clone(),
    }
}

/// Chooses the avatar under which a message is posted; `None` clears it.
pub fn select_avatar_for_user(stored: &Option<UserRecord>, live: &Option<DirectoryMember>) -> (r: Option<String>)
    ensures
        r == avatar_of(*stored, *live),
{
    if let Some(rec) = stored {
        if let Some(url) = &rec.avatar_override {
            return Some(url.clone());
        }
    }
    match live {
        Some(m) => Some(get_avatar_from_guild_member(m)),
        None => None,
    }
}

/// A verified link goes ahead of the directory, and the directory ahead of the
/// raw nickname. (`resolve_alias` returns `alias_of`, a function of its three
/// inputs, so two calls on unchanged inputs give the same alias.)
pub proof fn alias_precedence(nick: Seq<char>, stored: Option<UserRecord>, live: Option<DirectoryMember>)
    ensures
        stored is Some && stored->0.verified && stored->0.wf() ==> alias_of(nick, stored, live)
            == stored->0.linked_display_name->0@,
        !(stored is Some && stored->0.verified) && live is Some ==> alias_of(nick, stored, live)
            == member_name(live->0)@,
        !(stored is Some && stored->0.verified) && live is None ==> alias_of(nick, stored, live) == nick,
{
}

} // verus!
