//! Claims on slots: a slot is a dungeon in a tier, and at most one raid holds it.

use vstd::prelude::*;

verus! {

/// A raid holds a slot.
#[derive(Debug, Clone, Copy, PartialEq, Eq, Structural)]
pub struct SlotClaim {
    /// Server.
    pub guild_id: i64,
    /// Tier of the slot.
    pub tier_id: i32,
    /// Dungeon of the slot.
    pub dungeon_template_id: i32,
    /// Who leads the raid.
    pub leader_user_id: i64,
    /// Whether a member started it.
    pub is_self_organized: bool,
    /// The headcount that holds it.
    pub headcount_id: Option<i32>,
    /// The run that holds it.
    pub run_id: Option<i32>,
    /// Since when.
    pub acquired_at: i64,
}

/// What became of a claim.
#[derive(Debug, Clone, Copy, PartialEq, Eq, Structural)]
pub enum ClaimOutcome {
    /// The slot was free, and is held now.
    Acquired(SlotClaim),
    /// Another raid holds it.
    Conflict(SlotClaim),
}

/// What to do about a claim.
#[derive(Debug, Clone, Copy, PartialEq, Eq, Structural)]
pub enum ClaimStep {
    /// Insert it, unless the slot is held.
    Insert,
    /// Read who holds the slot.
    ReadHolder,
    /// It is over.
    Done(ClaimOutcome),
}

/// What to do next about a claim. `inserted` is the row that an insert gave back,
/// if it gave one back, and `holder` the row that holds the slot.
pub fn claim_for_headcount(inserted: Option<Option<SlotClaim>>, holder: Option<SlotClaim>) -> (r:
    ClaimStep)
    ensures
        r == match inserted {
            None => ClaimStep::Insert,
            Some(Some(row)) => ClaimStep::Done(ClaimOutcome::Acquired(row)),
            Some(None) => match holder {
                None => ClaimStep::ReadHolder,
                Some(row) => ClaimStep::Done(ClaimOutcome::Conflict(row)),
            },
        },
{
    match inserted {
        None => ClaimStep::Insert,
        Some(Some(row)) => ClaimStep::Done(ClaimOutcome::Acquired(row)),
        Some(None) => match holder {
            None => ClaimStep::ReadHolder,
            Some(row) => ClaimStep::Done(ClaimOutcome::Conflict(row)),
        },
    }
}

} // verus!
