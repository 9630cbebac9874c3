//! What is decided before the bot serves: whether it may start on an older schema,
//! and whether a server can use a command.

use vstd::prelude::*;

use crate::text::{cat5, dec, dec_i64, is_one_of, one_of};

verus! {

// ----- the schema ------------------------------------------------------------------------------

/// What is said where raids are active on the older schema.
pub open spec fn preflight_refusal(headcounts: i64, runs: i64) -> Seq<char> {
    "R4 migration preflight: "@ + dec(headcounts as int) + " active headcount(s), "@ + dec(
        runs as int,
    ) + " active run(s) — aborting startup"@
}

/// Whether the bot may start. The older schema holds sign-ups that the newer one
/// drops, so it is not changed while raids are active, unless the operator allows
/// it.
pub open spec fn preflight_passes(old_schema: bool, headcounts: i64, runs: i64, allowed: bool) -> bool {
    !old_schema || headcounts + runs == 0 || allowed
}

/// Check whether the bot may start: what is said where it may not.
pub fn migration_preflight(old_schema: bool, headcounts: i64, runs: i64, allowed: bool) -> (r: Result<
    (),
    String,
>)
    ensures
        r is Ok == preflight_passes(old_schema, headcounts, runs, allowed),
        r matches Err(t) ==> t@ == preflight_refusal(headcounts, runs),
{
    if !old_schema || headcounts as i128 + runs as i128 == 0 || allowed {
        Ok(())
    } else {
        Err(
            cat5(
                "R4 migration preflight: ",
                &dec_i64(headcounts),
                " active headcount(s), ",
                &dec_i64(runs),
                " active run(s) — aborting startup",
            ),
        )
    }
}

/// Sign-ups of active raids are never dropped unless the operator allows it.
pub proof fn active_raids_hold_the_migration_back(headcounts: i64, runs: i64)
    requires
        headcounts > 0 || runs > 0,
        headcounts >= 0,
        runs >= 0,
    ensures
        !preflight_passes(true, headcounts, runs, false),
{
}

// ----- commands ------------------------------------------------------------------------------------

/// What is said in a server that was not set up.
pub const RUN_SETUP: &'static str = "This server hasn't been set up yet. Run `/setup` first.";

/// Whether a command can be used.
#[derive(Debug, Clone, Copy, PartialEq, Eq, Structural)]
pub enum SetupGate {
    /// It can.
    Pass,
    /// Find out whether the server was set up.
    LoadGuild,
    /// It cannot: say that the server must be set up.
    Refuse,
}

/// Whether a command can be used: the one that sets up and the operator's one
/// always, the others in servers that were set up. Outside of a server each command
/// speaks for itself.
pub fn ensure_setup(command: &str, in_guild: bool, set_up: Option<bool>) -> (r: SetupGate)
    ensures
        r == (if is_one_of(command@, seq!["setup", "upload-emoji"]) || !in_guild {
            SetupGate::Pass
        } else {
            match set_up {
                None => SetupGate::LoadGuild,
                Some(true) => SetupGate::Pass,
                Some(false) => SetupGate::Refuse,
            }
        }),
{
    let free: [&str; 2] = ["setup", "upload-emoji"];
    assert(free@ =~= seq!["setup", "upload-emoji"]);
    if one_of(command, &free) || !in_guild {
        return SetupGate::Pass;
    }
    match set_up {
        None => SetupGate::LoadGuild,
        Some(s) => if s {
            SetupGate::Pass
        } else {
            SetupGate::Refuse
        },
    }
}

/// The migration goes ahead where the tables are new, where nothing is active, and where
/// the operator allows it; nowhere else.
pub proof fn quiet_servers_are_migrated(headcounts: i64, runs: i64, allowed: bool)
    ensures
        preflight_passes(false, headcounts, runs, allowed),
        preflight_passes(true, headcounts, runs, true),
        preflight_passes(true, 0, 0, false),
        headcounts >= 0 && runs >= 0 && (preflight_passes(true, headcounts, runs, false))
            ==> headcounts == 0 && runs == 0,
{
}

} // verus!
