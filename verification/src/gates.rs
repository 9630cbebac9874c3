//! What holds headcounts and runs within bounds: one headcount for each dungeon of a
//! tier, one raid for each leader, a wait after a cancelled headcount, a floor of
//! reactors, and an end for what was left behind. Organizers are trusted: neither
//! the wait nor the number of raids nor the floor holds them back.

use vstd::prelude::*;

use crate::db::models::{Headcount, Run, Tier};
use crate::clock::{second_of, whole_seconds, MICROS_PER_SECOND};
use crate::db::raid_gates::{cooldown_of, cooldown_active, Cooldown};
use crate::handlers::headcount::{too_few, too_few_reactors};
use crate::mention::{user, user_i64};
use crate::text::{cat3, cat5, dec, dec_i32, dec_i64, own};

verus! {

// ----- what was left behind -------------------------------------------------------------------

/// How long a run lasts at most, in seconds: a day.
pub const RUN_IDLE_SECONDS: i64 = 86_400;

/// A run was left behind by its leader.
pub open spec fn run_left_behind(run: Run, now: i64) -> bool {
    run.created_at + RUN_IDLE_SECONDS * MICROS_PER_SECOND < now
}

/// Whether a run was left behind by its leader.
pub fn is_run_left_behind(run: &Run, now: i64) -> (r: bool)
    ensures
        r == run_left_behind(*run, now),
{
    run.created_at as i128 + ((RUN_IDLE_SECONDS * MICROS_PER_SECOND) as i128) < now as i128
}

/// A headcount is older than its tier allows, and another may take its place.
pub open spec fn headcount_stale(h: Headcount, tier: Tier, now: i64) -> bool {
    h.created_at + tier.hc_idle_minutes * 60 * MICROS_PER_SECOND < now
}

/// Whether a headcount is older than its tier allows.
pub fn is_headcount_stale(h: &Headcount, tier: &Tier, now: i64) -> (r: bool)
    ensures
        r == headcount_stale(*h, *tier, now),
{
    let allowed: i128 = tier.hc_idle_minutes as i128 * 60;
    h.created_at as i128 + allowed * 1_000_000 < now as i128
}

/// What was left behind stays so.
pub proof fn time_does_not_heal(run: Run, h: Headcount, tier: Tier, now: i64, later: i64)
    requires
        now <= later,
    ensures
        run_left_behind(run, now) ==> run_left_behind(run, later),
        headcount_stale(h, tier, now) ==> headcount_stale(h, tier, later),
{
}

// ----- starting -------------------------------------------------------------------------------

/// What holds back a headcount that is asked for.
#[derive(Debug, Clone, Copy, PartialEq, Eq, Structural)]
pub enum StartBlock {
    /// The leader has to wait until then.
    Cooldown(i64),
    /// The leader leads a raid already.
    RaidLimit,
    /// Another headcount is up, led by them.
    SlotInUse(i64),
}

/// Whether a headcount that is asked for may start.
#[derive(Debug, Clone, Copy, PartialEq, Eq, Structural)]
pub enum StartDecision {
    /// It may.
    Allowed,
    /// It may, once this headcount is out of the way.
    Displace(i32),
    /// It may not.
    Blocked(StartBlock),
}

/// What is known of who asks for a headcount.
#[derive(Debug, Clone, Copy, PartialEq, Eq, Structural)]
pub struct Starter {
    /// Whether they may organize raids of others.
    pub organizer: bool,
    /// When their wait is over, where one is stored.
    pub cooldown: Option<i64>,
    /// How many raids they lead.
    pub raids: i64,
}

/// Whether a headcount may start, where `holder` is the headcount for the same
/// dungeon in the same tier.
pub open spec fn start_decision(
    starter: Starter,
    holder: Option<Headcount>,
    tier: Tier,
    now: i64,
) -> StartDecision {
    if !starter.organizer && cooldown_of(starter.cooldown, now) is Waiting {
        StartDecision::Blocked(StartBlock::Cooldown(starter.cooldown->0))
    } else if !starter.organizer && starter.raids > 0 {
        StartDecision::Blocked(StartBlock::RaidLimit)
    } else {
        match holder {
            None => StartDecision::Allowed,
            Some(h) => if headcount_stale(h, tier, now) {
                StartDecision::Displace(h.id)
            } else {
                StartDecision::Blocked(StartBlock::SlotInUse(h.leader_user_id))
            },
        }
    }
}

/// Decide whether a headcount may start.
pub fn check_can_start(
    starter: Starter,
    holder: &Option<Headcount>,
    tier: &Tier,
    now: i64,
) -> (r: StartDecision)
    ensures
        r == start_decision(starter, *holder, *tier, now),
{
    if !starter.organizer {
        match cooldown_active(starter.cooldown, now) {
            Cooldown::Waiting(t) => {
                return StartDecision::Blocked(StartBlock::Cooldown(t));
            },
            _ => {},
        }
        if starter.raids > 0 {
            return StartDecision::Blocked(StartBlock::RaidLimit);
        }
    }
    match holder {
        None => StartDecision::Allowed,
        Some(h) => if is_headcount_stale(h, tier, now) {
            StartDecision::Displace(h.id)
        } else {
            StartDecision::Blocked(StartBlock::SlotInUse(h.leader_user_id))
        },
    }
}

/// A dungeon of a tier never has two headcounts that are not stale, whoever asks.
pub proof fn slots_hold_one_headcount(starter: Starter, h: Headcount, tier: Tier, now: i64)
    requires
        !headcount_stale(h, tier, now),
    ensures
        start_decision(starter, Some(h), tier, now) is Blocked,
{
}

/// Only organizers lead more than one raid, or start within their wait.
pub proof fn members_lead_one_raid(
    starter: Starter,
    holder: Option<Headcount>,
    tier: Tier,
    now: i64,
)
    requires
        !(start_decision(starter, holder, tier, now) is Blocked),
    ensures
        starter.organizer || starter.raids <= 0,
        starter.organizer || starter.cooldown is None || starter.cooldown->0 <= now,
{
}

impl StartBlock {
    /// What the leader is told.
    pub open spec fn text(self) -> Seq<char> {
        match self {
            StartBlock::Cooldown(until) => "You cancelled a headcount recently. Try again <t:"@ + dec(
                second_of(until as int),
            ) + ":R>."@,
            StartBlock::RaidLimit =>
                "You already lead an active raid in this server. End or cancel it first."@,
            StartBlock::SlotInUse(leader) => "Another raid is up for that dungeon (led by "@ + user(
                leader as int,
            ) + ")."@,
        }
    }

    /// What the leader is told.
    pub fn user_message(&self) -> (r: String)
        ensures
            r@ == self.text(),
    {
        match self {
            StartBlock::Cooldown(until) => cat3(
                "You cancelled a headcount recently. Try again <t:",
                &dec_i64(whole_seconds(*until)),
                ":R>.",
            ),
            StartBlock::RaidLimit => own(
                "You already lead an active raid in this server. End or cancel it first.",
            ),
            StartBlock::SlotInUse(leader) => cat3(
                "Another raid is up for that dungeon (led by ",
                &user_i64(*leader),
                ").",
            ),
        }
    }
}

// ----- becoming a run -------------------------------------------------------------------------

/// What holds back a headcount that is to become a run, if anything.
pub fn check_can_convert(tier: &Tier, count: i64, organizer: bool) -> (r: Option<String>)
    ensures
        r is Some == too_few(*tier, count as int, organizer),
        r matches Some(t) ==> t@ == "Not enough reactors yet: "@ + dec(count as int) + " of "@ + dec(
            tier.hc_min_reactors as int,
        ) + "."@,
{
    if too_few_reactors(tier, count, organizer) {
        Some(
            cat5(
                "Not enough reactors yet: ",
                &dec_i64(count),
                " of ",
                &dec_i32(tier.hc_min_reactors),
                ".",
            ),
        )
    } else {
        None
    }
}

// ----- what the gates are for -------------------------------------------------------------------

/// A run is left behind once it is more than a day old, and a headcount is stale once it
/// is older than the minutes that its tier allows; not a moment before.
pub proof fn raids_last_as_long_as_allowed(run: Run, h: Headcount, tier: Tier, now: i64)
    ensures
        run_left_behind(run, now) <==> now - run.created_at > 86_400_000_000,
        headcount_stale(h, tier, now) <==> now - h.created_at > tier.hc_idle_minutes * 60_000_000,
{
    assert(tier.hc_idle_minutes * 60 * 1_000_000 == tier.hc_idle_minutes * 60_000_000)
        by (nonlinear_arith);
}

/// Who asks for a headcount where nothing is in the way gets it; a headcount that is
/// stale gives way to a new one, and one that is not is named by its leader.
pub proof fn free_slots_are_given(starter: Starter, h: Headcount, tier: Tier, now: i64)
    requires
        starter.organizer || (starter.raids <= 0 && (starter.cooldown is None
            || starter.cooldown->0 <= now)),
    ensures
        start_decision(starter, None, tier, now) == StartDecision::Allowed,
        now - h.created_at > tier.hc_idle_minutes * 60_000_000 ==> start_decision(
            starter,
            Some(h),
            tier,
            now,
        ) == StartDecision::Displace(h.id),
        now - h.created_at <= tier.hc_idle_minutes * 60_000_000 ==> start_decision(
            starter,
            Some(h),
            tier,
            now,
        ) == StartDecision::Blocked(StartBlock::SlotInUse(h.leader_user_id)),
{
    assert(tier.hc_idle_minutes * 60 * 1_000_000 == tier.hc_idle_minutes * 60_000_000)
        by (nonlinear_arith);
}

/// Who is no organizer and cancelled lately is told until when to wait, and who leads a
/// raid already is told that they do, whatever holds the slot.
pub proof fn members_wait_and_lead_one_raid(
    starter: Starter,
    holder: Option<Headcount>,
    tier: Tier,
    now: i64,
)
    requires
        !starter.organizer,
    ensures
        starter.cooldown matches Some(until) ==> until > now ==> start_decision(
            starter,
            holder,
            tier,
            now,
        ) == StartDecision::Blocked(StartBlock::Cooldown(until)),
        (starter.cooldown is None || starter.cooldown->0 <= now) && starter.raids > 0
            ==> start_decision(starter, holder, tier, now) == StartDecision::Blocked(
            StartBlock::RaidLimit,
        ),
{
}

/// Organizers are held back neither by a wait nor by other raids of theirs.
pub proof fn organizers_are_not_held_back(
    a: Starter,
    b: Starter,
    holder: Option<Headcount>,
    tier: Tier,
    now: i64,
)
    requires
        a.organizer,
        b.organizer,
    ensures
        start_decision(a, holder, tier, now) == start_decision(b, holder, tier, now),
{
}

} // verus!
