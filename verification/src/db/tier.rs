//! In which tiers a dungeon can be raided. A dungeon that all servers share can be
//! raided in every tier that it is not hidden in; a server's own dungeon in every
//! tier that it is attached to.

use vstd::prelude::*;

verus! {

/// What is stored of a dungeon in a tier.
#[derive(Debug, Clone, Copy, PartialEq, Eq, Structural)]
pub struct TierDungeon {
    /// Whether it is hidden there.
    pub hidden: bool,
    /// Whether it is attached.
    pub attached: bool,
}

/// A change of what is stored of a dungeon in a tier.
#[derive(Debug, Clone, Copy, PartialEq, Eq, Structural)]
pub enum VisibilityChange {
    /// Hide it no longer.
    EnableGlobal,
    /// Hide it.
    DisableGlobal,
    /// Attach it.
    AttachGuild,
    /// Detach it.
    DetachGuild,
}

impl TierDungeon {
    /// What is stored after a change.
    pub open spec fn after(self, change: VisibilityChange) -> TierDungeon {
        match change {
            VisibilityChange::EnableGlobal => TierDungeon { hidden: false, ..self },
            VisibilityChange::DisableGlobal => TierDungeon { hidden: true, ..self },
            VisibilityChange::AttachGuild => TierDungeon { attached: true, ..self },
            VisibilityChange::DetachGuild => TierDungeon { attached: false, ..self },
        }
    }
}

/// A dungeon can be raided in a tier of a server. `owner` is the server that the
/// dungeon belongs to.
pub open spec fn visible(owner: Option<i64>, guild_id: i64, stored: TierDungeon) -> bool {
    match owner {
        None => !stored.hidden,
        Some(g) => g == guild_id && stored.attached,
    }
}

/// Whether a dungeon can be raided in a tier of a server.
pub fn is_dungeon_visible(owner: Option<i64>, guild_id: i64, stored: TierDungeon) -> (r: bool)
    ensures
        r == visible(owner, guild_id, stored),
{
    match owner {
        None => !stored.hidden,
        Some(g) => g == guild_id && stored.attached,
    }
}

/// The change that adds a dungeon to a tier.
pub open spec fn adding(owner: Option<i64>) -> VisibilityChange {
    match owner {
        None => VisibilityChange::EnableGlobal,
        Some(_) => VisibilityChange::AttachGuild,
    }
}

/// The change that adds a dungeon to a tier.
pub fn add_dungeon(owner: Option<i64>) -> (r: VisibilityChange)
    ensures
        r == adding(owner),
{
    if owner.is_none() {
        VisibilityChange::EnableGlobal
    } else {
        VisibilityChange::AttachGuild
    }
}

/// The change that removes a dungeon from a tier.
pub open spec fn removing(owner: Option<i64>) -> VisibilityChange {
    match owner {
        None => VisibilityChange::DisableGlobal,
        Some(_) => VisibilityChange::DetachGuild,
    }
}

/// The change that removes a dungeon from a tier.
pub fn remove_dungeon(owner: Option<i64>) -> (r: VisibilityChange)
    ensures
        r == removing(owner),
{
    if owner.is_none() {
        VisibilityChange::DisableGlobal
    } else {
        VisibilityChange::DetachGuild
    }
}

/// A dungeon that was added can be raided, one that was removed cannot, and each
/// undoes the other; this holds of dungeons that all servers share and of the
/// server's own.
pub proof fn adding_and_removing_work(owner: Option<i64>, guild_id: i64, stored: TierDungeon)
    requires
        owner is None || owner == Some(guild_id),
    ensures
        visible(owner, guild_id, stored.after(adding(owner))),
        !visible(owner, guild_id, stored.after(removing(owner))),
        visible(owner, guild_id, stored) ==> stored.after(removing(owner)).after(adding(owner))
            == stored,
        !visible(owner, guild_id, stored) ==> stored.after(adding(owner)).after(removing(owner))
            == stored,
{
}

/// Another server's dungeon cannot be raided, whatever is stored of it.
pub proof fn dungeons_stay_in_their_server(owner: i64, guild_id: i64, stored: TierDungeon)
    requires
        owner != guild_id,
    ensures
        !visible(Some(owner), guild_id, stored),
{
}

} // verus!
