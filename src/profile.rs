use vstd::prelude::*;

use crate::{opt_str, PlayerId};

verus! {

/// The identity record of a player: its id and the display name last seen.
pub struct PlayerProfile {
    pub uuid: PlayerId,
    pub username: Option<String>,
}

impl PlayerProfile {
    pub open spec fn name(self) -> Option<Seq<char>> {
        opt_str(self.username)
    }
}

/// The write that an upsert sends to the profile collection.
#[derive(PartialEq, Eq, Structural, Clone, Copy, Debug)]
pub enum ProfileWrite {
    /// The stored profile is returned as it is; nothing is written.
    Keep,
    /// The stored profile's display name is replaced.
    Rename,
    /// No profile was stored: a new one is inserted.
    Insert,
}

/// The outcome of an upsert: the profile to return and the write that makes it stored.
pub struct ProfileUpsert {
    pub profile: PlayerProfile,
    pub write: ProfileWrite,
}

/// What the store holds for a player, from the profile it returned.
pub open spec fn stored_of(existing: Option<PlayerProfile>) -> Option<Option<Seq<char>>> {
    match existing {
        Some(p) => Some(p.name()),
        None => None,
    }
}

/// Whether a supplied display name replaces the stored one: a non-empty name
/// is given and differs from it.
pub open spec fn renames(stored: Option<Seq<char>>, requested: Option<Seq<char>>) -> bool {
    &&& requested matches Some(n) && n.len() > 0
    &&& stored != requested
}

/// The write an upsert makes, from what is stored (`None`: no profile) and the name given.
pub open spec fn upsert_write(
    stored: Option<Option<Seq<char>>>,
    requested: Option<Seq<char>>,
) -> ProfileWrite {
    match stored {
        None => ProfileWrite::Insert,
        Some(name) => if renames(name, requested) {
            ProfileWrite::Rename
        } else {
            ProfileWrite::Keep
        },
    }
}

/// The display name held after an upsert.
pub open spec fn upsert_name(
    stored: Option<Option<Seq<char>>>,
    requested: Option<Seq<char>>,
) -> Option<Seq<char>> {
    match stored {
        None => requested,
        Some(name) => if renames(name, requested) {
            requested
        } else {
            name
        },
    }
}

/// Decides an upsert of the profile of `uuid`, given the profile that the store
/// holds for it (if any) and the display name supplied with the request.
pub fn plan_upsert(
    uuid: PlayerId,
    existing: Option<PlayerProfile>,
    username: Option<String>,
) -> (r: ProfileUpsert)
    requires
        existing matches Some(p) ==> p.uuid == uuid,
    ensures
        r.profile.uuid == uuid,
        r.write == upsert_write(stored_of(existing), opt_str(username)),
        r.profile.name() == upsert_name(stored_of(existing), opt_str(username)),
{
    match existing {
        None => ProfileUpsert {
            profile: PlayerProfile { uuid, username },
            write: ProfileWrite::Insert,
        },
        Some(profile) => {
            let differs = match (&username, &profile.username) {
                (Some(given), Some(stored)) => !given.as_str().is_empty() && *given != *stored,
                (Some(given), None) => !given.as_str().is_empty(),
                (None, _) => false,
            };
            if differs {
                ProfileUpsert {
                    profile: PlayerProfile { uuid: profile.uuid, username },
                    write: ProfileWrite::Rename,
                }
            } else {
                ProfileUpsert { profile, write: ProfileWrite::Keep }
            }
        },
    }
}

/// The profile collection: each known player's display name.
pub type ProfileTable = Map<PlayerId, Option<Seq<char>>>;

pub open spec fn stored_profile(t: ProfileTable, id: PlayerId) -> Option<Option<Seq<char>>> {
    if t.contains_key(id) {
        Some(t[id])
    } else {
        None
    }
}

/// The profile collection after an upsert of `id` with the supplied name.
pub open spec fn apply_upsert(t: ProfileTable, id: PlayerId, requested: Option<Seq<char>>) -> ProfileTable {
    let stored = stored_profile(t, id);
    match upsert_write(stored, requested) {
        ProfileWrite::Keep => t,
        _ => t.insert(id, upsert_name(stored, requested)),
    }
}

/// A first upsert with a name creates the profile, and a lookup then finds that
/// name; an upsert with the stored name writes nothing; one with another name
/// replaces it.
pub proof fn lemma_upsert_determinism(t: ProfileTable, id: PlayerId, a: Seq<char>, b: Seq<char>)
    requires
        a != b,
        b.len() > 0,
    ensures
        !t.contains_key(id) ==> stored_profile(apply_upsert(t, id, Some(a)), id) == Some(Some(a)),
        !t.contains_key(id) ==> upsert_write(stored_profile(t, id), Some(a)) == ProfileWrite::Insert,
        t.contains_key(id) && t[id] == Some(a) ==> upsert_write(stored_profile(t, id), Some(a))
            == ProfileWrite::Keep && apply_upsert(t, id, Some(a)) == t,
        t.contains_key(id) && t[id] == Some(a) ==> upsert_write(stored_profile(t, id), Some(b))
            == ProfileWrite::Rename && stored_profile(apply_upsert(t, id, Some(b)), id) == Some(
            Some(b),
        ),
{
}

} // verus!
