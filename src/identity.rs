//! The user table: one record per IRC nickname, its link to a Discord account
//! and its avatar choice, with the transitions that commands make on it.
use vstd::prelude::*;

verus! {

/// One row of the user table, keyed by `irc_nick`.
#[derive(Debug)]
pub struct UserRecord {
    pub irc_nick: String,
    /// The owner of the nickname has confirmed the link from IRC.
    pub verified: bool,
    /// Discord user id of the linked account.
    pub linked_id: Option<u64>,
    /// Name under which bridged messages of a verified user are posted.
    pub linked_display_name: Option<String>,
    /// Discord account name of the linked account.
    pub linked_nick: Option<String>,
    /// Avatar URL chosen by the user; it wins over every other source.
    pub avatar_override: Option<String>,
}

/// The Discord account that asked to be linked to a nickname.
#[derive(Debug)]
pub struct RemoteUser {
    pub id: u64,
    /// Account name.
    pub name: String,
    /// Nickname in the bridged guild, if the account has one there.
    pub guild_nick: Option<String>,
}

impl UserRecord {
    /// A verified record names its linked account and the display name to
    /// post under. (A record read from the table may be linked without a
    /// display name; it is then not verified.)
    pub open spec fn wf(&self) -> bool {
        self.verified ==> self.linked_nick is Some && self.linked_display_name is Some
    }

    /// The link state of the record.
    pub open spec fn link_state(&self) -> LinkState {
        if self.verified {
            LinkState::Verified
        } else if self.linked_nick is Some {
            LinkState::PendingLink
        } else {
            LinkState::Unlinked
        }
    }
}

/// Where a nickname stands in the linking protocol.
pub enum LinkState {
    Unlinked,
    PendingLink,
    Verified,
}

/// A record for `nick` that holds nothing yet.
pub open spec fn blank_record(nick: String) -> UserRecord {
    UserRecord {
        irc_nick: nick,
        verified: false,
        linked_id: None,
        linked_display_name: None,
        linked_nick: None,
        avatar_override: None,
    }
}

/// The table row for a nickname after a write: the written record where there
/// is one, else the row as it was.
pub open spec fn after_write(stored: Option<UserRecord>, write: Option<UserRecord>) -> Option<UserRecord> {
    if write is Some {
        write
    } else {
        stored
    }
}

/// The row that setting the avatar of `nick` to `url` writes.
pub open spec fn avatar_set(stored: Option<UserRecord>, nick: String, url: String) -> UserRecord {
    match stored {
        Some(r) => UserRecord { avatar_override: Some(url), ..r },
        None => UserRecord { avatar_override: Some(url), ..blank_record(nick) },
    }
}

/// The write that resetting the avatar makes: one only where an override is set.
pub open spec fn avatar_cleared(stored: Option<UserRecord>) -> Option<UserRecord> {
    match stored {
        Some(r) => if r.avatar_override is Some {
            Some(UserRecord { avatar_override: None, ..r })
        } else {
            None
        },
        None => None,
    }
}

/// The write that `connect id` makes: the record becomes verified only where
/// it is already linked to an account named `id`, with a display name to post
/// under.
pub open spec fn link_confirmed(stored: Option<UserRecord>, id: Seq<char>) -> Option<UserRecord> {
    match stored {
        Some(r) => if r.linked_nick is Some && r.linked_nick->0@ == id
            && r.linked_display_name is Some {
            Some(UserRecord { verified: true, ..r })
        } else {
            None
        },
        None => None,
    }
}

/// The name a Discord account is shown under in the guild.
pub open spec fn shown_name(remote: RemoteUser) -> String {
    match remote.guild_nick {
        Some(n) => n,
        None => remote.name,
    }
}

/// The row that a link request from `remote` for `nick` writes. Naming an
/// account other than the one already linked takes the record back to an
/// unconfirmed link.
pub open spec fn link_requested(stored: Option<UserRecord>, nick: String, remote: RemoteUser) -> UserRecord {
    let base = match stored {
        Some(r) => r,
        None => blank_record(nick),
    };
    UserRecord {
        verified: base.verified && base.linked_id == Some(remote.id),
        linked_id: Some(remote.id),
        linked_display_name: Some(shown_name(remote)),
        linked_nick: Some(remote.name),
        ..base
    }
}

/// Sets the avatar override of `nick`, creating the record where there is none.
pub fn set_avatar(stored: Option<UserRecord>, nick: String, url: String) -> (r: UserRecord)
    ensures
        r == avatar_set(stored, nick, url),
        stored is Some ==> r.irc_nick == stored->0.irc_nick,
        stored is None ==> r.irc_nick == nick,
        stored is Some && stored->0.wf() ==> r.wf(),
        stored is None ==> r.wf(),
{
    match stored {
        Some(mut rec) => {
            rec.avatar_override = Some(url);
            rec
        },
        None => UserRecord {
            irc_nick: nick,
            verified: false,
            linked_id: None,
            linked_display_name: None,
            linked_nick: None,
            avatar_override: Some(url),
        },
    }
}

/// Clears the avatar override; writes nothing where none is set.
pub fn clear_avatar(stored: Option<UserRecord>) -> (r: Option<UserRecord>)
    ensures
        r == avatar_cleared(stored),
        r is Some ==> r->0.wf() == stored->0.wf(),
{
    match stored {
        Some(mut rec) => {
            if rec.avatar_override.is_some() {
                rec.avatar_override = None;
                Some(rec)
            } else {
                None
            }
        },
        None => None,
    }
}

/// Marks the record verified where its linked account is named `id` and has
/// a display name; writes nothing otherwise.
pub fn confirm_link(stored: Option<UserRecord>, id: &String) -> (r: Option<UserRecord>)
    ensures
        r == link_confirmed(stored, id@),
        r is Some ==> r->0.wf(),
{
    match stored {
        Some(mut rec) => {
            let matches = match &rec.linked_nick {
                Some(n) => *n == *id,
                None => false,
            };
            if matches && rec.linked_display_name.is_some() {
                rec.verified = true;
                Some(rec)
            } else {
                None
            }
        },
        None => None,
    }
}

/// Records that `remote` asked to be linked to `nick`.
pub fn request_link(stored: Option<UserRecord>, nick: String, remote: RemoteUser) -> (r: UserRecord)
    ensures
        r == link_requested(stored, nick, remote),
        r.wf(),
        r.link_state() != LinkState::Unlinked,
{
    let shown = match &remote.guild_nick {
        Some(n) => n.clone(),
        None => remote.name.clone(),
    };
    let mut base = match stored {
        Some(rec) => rec,
        None => UserRecord {
            irc_nick: nick,
            verified: false,
            linked_id: None,
            linked_display_name: None,
            linked_nick: None,
            avatar_override: None,
        },
    };
    let same_account = match base.linked_id {
        Some(i) => i == remote.id,
        None => false,
    };
    base.verified = base.verified && same_account;
    base.linked_id = Some(remote.id);
    base.linked_display_name = Some(shown);
    base.linked_nick = Some(remote.name);
    base
}

} // verus!
