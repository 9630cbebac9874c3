//! `/tier`: what is said of tiers and of the dungeons in them.

use vstd::prelude::*;

use crate::db::models::{DungeonTemplate, Tier};
use crate::mention::{channel, channel_i64, role, role_u64};
use crate::text::{
    cat2, cat3, cat5, contains, dec, dec_i32, join, joined, occurs, own, parts_occur, views,
    views_push, Text,
};

verus! {

/// What is said of a new tier.
pub fn created_reply(name: &str, id: i32) -> (r: String)
    ensures
        r@ == "Created tier **"@ + name@ + "** (id: "@ + dec(id as int) + ")."@,
{
    cat5("Created tier **", name, "** (id: ", &dec_i32(id), ").")
}

/// An error of the database says that a tier with the name is there already.
pub open spec fn says_duplicate(error: Seq<char>) -> bool {
    occurs(error, "unique"@) || occurs(error, "duplicate"@)
}

/// Whether an error of the database says that a tier with the name is there
/// already.
pub fn is_duplicate(error: &str) -> (r: bool)
    ensures
        r == says_duplicate(error@),
{
    contains(error, "unique") || contains(error, "duplicate")
}

/// What is said where a tier with the name is there already.
pub fn exists_reply(name: &str) -> (r: String)
    ensures
        r@ == "A tier named `"@ + name@ + "` already exists in this server."@,
{
    cat3("A tier named `", name, "` already exists in this server.")
}

/// What is said of a tier that was deleted.
pub fn deleted_reply(name: &str) -> (r: String)
    ensures
        r@ == "Deleted tier **"@ + name@ + "**."@,
{
    cat3("Deleted tier **", name, "**.")
}

/// The line of a tier.
pub open spec fn tier_line(t: Tier) -> Seq<char> {
    "**"@ + t.name@ + "** (id: "@ + dec(t.id as int) + ")"@ + (match t.description {
        Some(d) => " — "@ + d@,
        None => ""@,
    }) + (match t.runs_channel_id {
        Some(c) => " | Runs: "@ + channel(c as int),
        None => ""@,
    })
}

/// The lines of tiers, below a heading.
pub open spec fn tier_list_lines(tiers: Seq<Tier>) -> Seq<Seq<char>> {
    seq!["**Tiers**"@] + Seq::new(tiers.len(), |i: int| tier_line(tiers[i]))
}

/// The list of tiers.
pub open spec fn tier_list_text(tiers: Seq<Tier>) -> Seq<char> {
    if tiers.len() == 0 {
        "No tiers configured. Use `/tier create` to add one."@
    } else {
        joined(tier_list_lines(tiers), "\n"@)
    }
}

fn show_tier_line(t: &Tier) -> (r: String)
    ensures
        r@ == tier_line(*t),
{
    let desc = match &t.description {
        Some(d) => cat2(" — ", d),
        None => own(""),
    };
    let runs = match t.runs_channel_id {
        Some(c) => cat2(" | Runs: ", &channel_i64(c)),
        None => own(""),
    };
    Text::new("**").add(&t.name).add("** (id: ").add(&dec_i32(t.id)).add(")").add(&desc).add(
        &runs,
    ).done()
}

/// The list of tiers.
pub fn list_reply(tiers: &Vec<Tier>) -> (r: String)
    ensures
        r@ == tier_list_text(tiers@),
{
    if tiers.len() == 0 {
        return own("No tiers configured. Use `/tier create` to add one.");
    }
    let mut lines: Vec<String> = Vec::new();
    lines.push(own("**Tiers**"));
    let ghost all = tier_list_lines(tiers@);
    assert(views(lines@) =~= all.take(1));
    let mut i: usize = 0;
    while i < tiers.len()
        invariant
            i <= tiers@.len(),
            all == tier_list_lines(tiers@),
            views(lines@) == all.take(i + 1),
        decreases tiers@.len() - i,
    {
        broadcast use views_push;

        lines.push(show_tier_line(&tiers[i]));
        i = i + 1;
        assert(all.take(i + 1) =~= all.take(i as int).push(all[i as int]));
    }
    assert(all.take(i + 1) =~= all);
    join(&lines, "\n")
}

/// Whether an edit changes anything.
pub fn edits_anything(new_name: &Option<String>, description: &Option<String>, channel: Option<u64>) -> (r:
    bool)
    ensures
        r == !(new_name is None && description is None && channel is None),
{
    new_name.is_some() || description.is_some() || channel.is_some()
}

/// What is said where an edit changes nothing.
pub const NOTHING_TO_UPDATE: &'static str = "Nothing to update — provide at least one field.";

/// What is said after an edit.
pub fn edited_reply(updated: &Option<String>) -> (r: String)
    ensures
        r@ == (match *updated {
            Some(name) => "Updated tier **"@ + name@ + "**."@,
            None => "Tier not found after update — this shouldn't happen."@,
        }),
{
    match updated {
        Some(name) => cat3("Updated tier **", name, "**."),
        None => own("Tier not found after update — this shouldn't happen."),
    }
}

/// Whether any of the writes changed something.
pub fn any_changed(changes: &Vec<bool>) -> (r: bool)
    ensures
        r == changes@.contains(true),
{
    let mut i: usize = 0;
    while i < changes.len()
        invariant
            i <= changes@.len(),
            forall|k: int| 0 <= k < i ==> !changes@[k],
        decreases changes@.len() - i,
    {
        if changes[i] {
            assert(changes@[i as int] == true);
            return true;
        }
        i = i + 1;
    }
    false
}

/// What is said after a role was made a leader of a tier.
pub fn add_leader_reply(any_inserted: bool, role_id: u64, tier: &str) -> (r: String)
    ensures
        r@ == (if any_inserted {
            "Added "@ + role(role_id as int) + " as a leader role for **"@ + tier@ + "**."@
        } else {
            "That role already leads this tier."@
        }),
{
    if any_inserted {
        cat5("Added ", &role_u64(role_id), " as a leader role for **", tier, "**.")
    } else {
        own("That role already leads this tier.")
    }
}

/// What is said after a role is no leader of a tier any more.
pub fn remove_leader_reply(any_removed: bool, role_id: u64, tier: &str) -> (r: String)
    ensures
        r@ == (if any_removed {
            "Removed "@ + role(role_id as int) + " as a leader of **"@ + tier@ + "**."@
        } else {
            "That role wasn't a leader of this tier."@
        }),
{
    if any_removed {
        cat5("Removed ", &role_u64(role_id), " as a leader of **", tier, "**.")
    } else {
        own("That role wasn't a leader of this tier.")
    }
}

// ----- the dungeons of a tier --------------------------------------------------------------

/// What is said after a dungeon was put into a tier.
pub fn add_dungeon_reply(changed: bool, dungeon: &DungeonTemplate, tier: &str) -> (r: String)
    ensures
        r@ == (match (changed, dungeon.guild_id is None) {
            (true, true) => "Re-enabled **"@ + dungeon.display_name@ + "** for tier **"@ + tier@
                + "**."@,
            (true, false) => "Added **"@ + dungeon.display_name@ + "** to tier **"@ + tier@ + "**."@,
            (false, true) => "**"@ + dungeon.display_name@ + "** is already enabled for tier **"@
                + tier@ + "**."@,
            (false, false) => "**"@ + dungeon.display_name@ + "** is already attached to tier **"@
                + tier@ + "**."@,
        }),
{
    let name = &dungeon.display_name;
    match (changed, dungeon.guild_id.is_none()) {
        (true, true) => cat5("Re-enabled **", name, "** for tier **", tier, "**."),
        (true, false) => cat5("Added **", name, "** to tier **", tier, "**."),
        (false, true) => cat5("**", name, "** is already enabled for tier **", tier, "**."),
        (false, false) => cat5("**", name, "** is already attached to tier **", tier, "**."),
    }
}

/// What is said after a dungeon was taken out of a tier.
pub fn remove_dungeon_reply(changed: bool, dungeon: &DungeonTemplate, tier: &str) -> (r: String)
    ensures
        r@ == (match (changed, dungeon.guild_id is None) {
            (true, true) => "Disabled **"@ + dungeon.display_name@ + "** for tier **"@ + tier@
                + "**. Re-enable any time with `/tier add-dungeon`."@,
            (true, false) => "Removed **"@ + dungeon.display_name@ + "** from tier **"@ + tier@
                + "**."@,
            (false, true) => "**"@ + dungeon.display_name@ + "** is already disabled for tier **"@
                + tier@ + "**."@,
            (false, false) => "**"@ + dungeon.display_name@ + "** is not attached to tier **"@
                + tier@ + "**."@,
        }),
{
    let name = &dungeon.display_name;
    match (changed, dungeon.guild_id.is_none()) {
        (true, true) => cat5(
            "Disabled **",
            name,
            "** for tier **",
            tier,
            "**. Re-enable any time with `/tier add-dungeon`.",
        ),
        (true, false) => cat5("Removed **", name, "** from tier **", tier, "**."),
        (false, true) => cat5("**", name, "** is already disabled for tier **", tier, "**."),
        (false, false) => cat5("**", name, "** is not attached to tier **", tier, "**."),
    }
}

/// Each tier has a line of its own below the heading, in order: with its name and number,
/// with its description and its channel where it has them.
pub proof fn every_tier_is_listed(tiers: Seq<Tier>, i: int)
    requires
        0 <= i < tiers.len(),
    ensures
        tier_list_text(tiers) == joined(tier_list_lines(tiers), "\n"@),
        tier_list_lines(tiers).len() == tiers.len() + 1,
        tier_list_lines(tiers)[0] == "**Tiers**"@,
        ({
            let t = tiers[i];
            let head = "**"@ + t.name@ + "** (id: "@ + dec(t.id as int) + ")"@;
            let text = if t.description is Some {
                " — "@ + (t.description->0)@
            } else {
                ""@
            };
            let place = if t.runs_channel_id is Some {
                " | Runs: "@ + ("<#"@ + dec(t.runs_channel_id->0 as int) + ">"@)
            } else {
                ""@
            };
            tier_list_lines(tiers)[i + 1] == head + text + place
        }),
{
}

/// An error tells of a duplicate exactly where it speaks of something unique or of a
/// duplicate, whatever stands around that.
pub proof fn duplicates_are_told_by_their_words(before: Seq<char>, after: Seq<char>, error: Seq<char>)
    ensures
        says_duplicate(before + "unique"@ + after),
        says_duplicate(before + "duplicate"@ + after),
        says_duplicate(error) ==> occurs(error, "unique"@) || occurs(error, "duplicate"@),
{
    parts_occur(before, "unique"@, after);
    parts_occur(before, "duplicate"@, after);
}

} // verus!
