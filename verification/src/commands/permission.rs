//! `/permission`: granting and revoking what roles may do.

use vstd::prelude::*;
use vstd::utf8::{
    encode_utf8_valid_utf8, is_char_boundary, is_char_boundary_start_end_of_seq,
};

use crate::cli::sync_wiki::sections::{bytes, cut, cut_text, cuttable};
use crate::curation::holds;
use crate::db::models::Permission;
use crate::mention::{role, role_i64, role_u64};
use crate::text::{
    cat2, cat3, cat4, cat5, dec, dec_i32, join, joined, own, views, views_push, Text,
};

verus! {

/// What came of looking something up by name.
#[derive(Debug, Clone, Copy, PartialEq, Eq, Structural)]
pub enum Lookup {
    /// No name was given.
    NotAsked,
    /// It has this id.
    Found(i32),
    /// There is none.
    Missing,
}

/// The id that was found.
pub open spec fn found_id(l: Lookup) -> Option<i32> {
    match l {
        Lookup::Found(id) => Some(id),
        _ => None,
    }
}

/// What to do about a grant or a revocation.
#[derive(Debug, Clone, Copy, PartialEq, Eq, Structural)]
pub enum ScopeStep {
    /// The action is not known.
    UnknownAction,
    /// The tier is not known.
    TierMissing,
    /// The dungeon is not known.
    DungeonMissing,
    /// Store the change, limited to a tier and a dungeon where they are given.
    Proceed {
        /// The tier.
        tier_id: Option<i32>,
        /// The dungeon.
        dungeon_id: Option<i32>,
    },
}

/// Whether an action is one of those that can be granted.
pub fn is_valid_action(action: &str, all_actions: &Vec<String>) -> (r: bool)
    ensures
        r == views(all_actions@).contains(action@),
{
    holds(all_actions, action)
}

/// What to do about a grant or a revocation: the action must be known, and the
/// tier and the dungeon where they are given.
pub fn scope_step(action_valid: bool, tier: Lookup, dungeon: Lookup) -> (r: ScopeStep)
    ensures
        r == (if !action_valid {
            ScopeStep::UnknownAction
        } else if tier == Lookup::Missing {
            ScopeStep::TierMissing
        } else if dungeon == Lookup::Missing {
            ScopeStep::DungeonMissing
        } else {
            ScopeStep::Proceed { tier_id: found_id(tier), dungeon_id: found_id(dungeon) }
        }),
{
    if !action_valid {
        return ScopeStep::UnknownAction;
    }
    let tier_id = match tier {
        Lookup::Missing => {
            return ScopeStep::TierMissing;
        },
        Lookup::Found(id) => Some(id),
        Lookup::NotAsked => None,
    };
    let dungeon_id = match dungeon {
        Lookup::Missing => {
            return ScopeStep::DungeonMissing;
        },
        Lookup::Found(id) => Some(id),
        Lookup::NotAsked => None,
    };
    ScopeStep::Proceed { tier_id, dungeon_id }
}

/// What is said of an action that cannot be granted.
pub fn grant_unknown(action: &str, all_actions: &Vec<String>) -> (r: String)
    ensures
        r@ == "Unknown action `"@ + action@ + "`. Valid actions:\n"@ + joined(
            views(all_actions@),
            ", "@,
        ),
{
    cat4("Unknown action `", action, "`. Valid actions:\n", &join(all_actions, ", "))
}

/// What is said of an action that cannot be revoked.
pub fn revoke_unknown(action: &str) -> (r: String)
    ensures
        r@ == "Unknown action `"@ + action@ + "`."@,
{
    cat3("Unknown action `", action, "`.")
}

/// What is said of a tier that is not there.
pub fn tier_not_found(name: &str) -> (r: String)
    ensures
        r@ == "Tier `"@ + name@ + "` not found."@,
{
    cat3("Tier `", name, "` not found.")
}

/// What is said of a dungeon that is not there.
pub fn dungeon_not_found(name: &str) -> (r: String)
    ensures
        r@ == "Dungeon `"@ + name@ + "` not found."@,
{
    cat3("Dungeon `", name, "` not found.")
}

/// A text in brackets behind a word, where there is one.
pub open spec fn scope_note(word: Seq<char>, name: Option<String>) -> Seq<char> {
    match name {
        Some(n) => " ("@ + word + ": "@ + n@ + ")"@,
        None => ""@,
    }
}

fn show_scope_note(word: &str, name: &Option<String>) -> (r: String)
    ensures
        r@ == scope_note(word@, *name),
{
    match name {
        Some(n) => cat5(" (", word, ": ", n, ")"),
        None => own(""),
    }
}

/// What is said after a grant.
pub fn grant_reply(
    inserted: bool,
    action: &str,
    role_id: u64,
    tier: &Option<String>,
    dungeon: &Option<String>,
) -> (r: String)
    ensures
        r@ == (if inserted {
            "Granted `"@ + action@ + "` to "@ + role(role_id as int) + scope_note("tier"@, *tier)
                + scope_note("dungeon"@, *dungeon) + "."@
        } else {
            "That permission already exists."@
        }),
{
    if inserted {
        Text::new("Granted `").add(action).add("` to ").add(&role_u64(role_id)).add(
            &show_scope_note("tier", tier),
        ).add(&show_scope_note("dungeon", dungeon)).add(".").done()
    } else {
        own("That permission already exists.")
    }
}

/// What is said after a revocation.
pub fn revoke_reply(removed: bool, action: &str, role_id: u64) -> (r: String)
    ensures
        r@ == (if removed {
            "Revoked `"@ + action@ + "` from "@ + role(role_id as int) + "."@
        } else {
            "No matching permission found."@
        }),
{
    if removed {
        cat5("Revoked `", action, "` from ", &role_u64(role_id), ".")
    } else {
        own("No matching permission found.")
    }
}

// ----- the list ------------------------------------------------------------------------

/// What a permission is limited to.
pub open spec fn scope_text(p: Permission) -> Seq<char> {
    match (p.tier_id, p.dungeon_template_id) {
        (None, None) => ""@,
        (Some(t), None) => " [tier:"@ + dec(t as int) + "]"@,
        (None, Some(d)) => " [dungeon:"@ + dec(d as int) + "]"@,
        (Some(t), Some(d)) => " [tier:"@ + dec(t as int) + ", dungeon:"@ + dec(d as int) + "]"@,
    }
}

/// The line of a permission.
pub open spec fn permission_line(p: Permission) -> Seq<char> {
    role(p.role_id as int) + " → `"@ + p.action@ + "`"@ + scope_text(p)
}

/// The lines of permissions.
pub open spec fn permission_lines(rows: Seq<Permission>) -> Seq<Seq<char>> {
    Seq::new(rows.len(), |i: int| permission_line(rows[i]))
}

fn show_line(p: &Permission) -> (r: String)
    ensures
        r@ == permission_line(*p),
{
    let scope = match (p.tier_id, p.dungeon_template_id) {
        (None, None) => own(""),
        (Some(t), None) => cat3(" [tier:", &dec_i32(t), "]"),
        (None, Some(d)) => cat3(" [dungeon:", &dec_i32(d), "]"),
        (Some(t), Some(d)) => cat5(" [tier:", &dec_i32(t), ", dungeon:", &dec_i32(d), "]"),
    };
    cat5(&role_i64(p.role_id), " → `", &p.action, "`", &scope)
}

/// How many bytes of the list are shown at most.
pub const LIST_MAX: usize = 1900;

/// The whole list.
pub open spec fn list_body(rows: Seq<Permission>) -> Seq<char> {
    joined(permission_lines(rows), "\n"@)
}

/// Where a text is cut that may take `n` bytes: there, or before the character that
/// lies across it.
pub open spec fn cut_at(s: Seq<u8>, n: int) -> int
    decreases n,
{
    if n <= 0 || is_char_boundary(s, n) {
        n
    } else {
        cut_at(s, n - 1)
    }
}

/// The list that is shown: all of it, or what fits, or that there is nothing.
pub open spec fn list_text(rows: Seq<Permission>) -> Seq<char> {
    if rows.len() == 0 {
        "No permissions configured for this server."@
    } else if bytes(list_body(rows)).len() > LIST_MAX {
        cut_text(
            bytes(list_body(rows)),
            0,
            cut_at(bytes(list_body(rows)), LIST_MAX as int),
        ) + "\n…(truncated)"@
    } else {
        list_body(rows)
    }
}

/// The list of permissions that is shown.
pub fn list_reply(rows: &Vec<Permission>) -> (r: String)
    ensures
        r@ == list_text(rows@),
{
    if rows.len() == 0 {
        return own("No permissions configured for this server.");
    }
    let mut lines: Vec<String> = Vec::new();
    let mut i: usize = 0;
    let ghost all = permission_lines(rows@);
    while i < rows.len()
        invariant
            i <= rows@.len(),
            all == permission_lines(rows@),
            views(lines@) == all.take(i as int),
        decreases rows@.len() - i,
    {
        broadcast use views_push;

        lines.push(show_line(&rows[i]));
        i = i + 1;
        assert(all.take(i as int) =~= all.take(i - 1).push(all[i - 1]));
    }
    assert(all.take(i as int) =~= all);
    let body = join(&lines, "\n");
    if body.as_str().as_bytes().len() <= LIST_MAX {
        return body;
    }
    proof {
        encode_utf8_valid_utf8(body@);
        is_char_boundary_start_end_of_seq(bytes(body@));
    }
    let mut n: usize = LIST_MAX;
    while !cuttable(&body, 0, n)
        invariant
            n <= LIST_MAX < bytes(body@).len(),
            is_char_boundary(bytes(body@), 0),
            cut_at(bytes(body@), LIST_MAX as int) == cut_at(bytes(body@), n as int),
        decreases n,
    {
        n = n - 1;
    }
    cat2(&cut(&body, 0, n), "\n…(truncated)")
}

/// A list that is cut is cut between characters, takes no more bytes than it may,
/// and loses less than a character more than it must.
pub proof fn lists_are_cut_between_characters(s: Seq<char>, n: int)
    requires
        0 <= n <= bytes(s).len(),
    ensures
        0 <= cut_at(bytes(s), n) <= n,
        is_char_boundary(bytes(s), cut_at(bytes(s), n)),
        forall|k: int| cut_at(bytes(s), n) < k <= n ==> !is_char_boundary(bytes(s), k),
    decreases n,
{
    encode_utf8_valid_utf8(s);
    is_char_boundary_start_end_of_seq(bytes(s));
    if n > 0 && !is_char_boundary(bytes(s), n) {
        lists_are_cut_between_characters(s, n - 1);
    }
}

/// Each permission has a line of its own, in order: its role, its action, and what it is
/// limited to, where it is.
pub proof fn every_permission_is_listed(rows: Seq<Permission>, i: int)
    requires
        0 <= i < rows.len(),
    ensures
        permission_lines(rows).len() == rows.len(),
        ({
            let p = rows[i];
            let start = "<@&"@ + dec(p.role_id as int) + ">"@ + " → `"@ + p.action@ + "`"@;
            let tier = p.tier_id;
            let dungeon = p.dungeon_template_id;
            let line = permission_lines(rows)[i];
            &&& tier is None && dungeon is None ==> line == start
            &&& tier is Some && dungeon is None ==> line == start + (" [tier:"@ + dec(
                tier->0 as int,
            ) + "]"@)
            &&& tier is None && dungeon is Some ==> line == start + (" [dungeon:"@ + dec(
                dungeon->0 as int,
            ) + "]"@)
            &&& tier is Some && dungeon is Some ==> line == start + (" [tier:"@ + dec(tier->0 as int)
                + ", dungeon:"@ + dec(dungeon->0 as int) + "]"@)
        }),
        bytes(joined(permission_lines(rows), "\n"@)).len() <= 1900 ==> list_text(rows) == joined(
            permission_lines(rows),
            "\n"@,
        ),
        ({
            let body = bytes(joined(permission_lines(rows), "\n"@));
            body.len() > 1900 ==> list_text(rows) == cut_text(body, 0, cut_at(body, 1900))
                + "\n…(truncated)"@
        }),
{
    reveal_strlit("");
    let p = rows[i];
    let start = "<@&"@ + dec(p.role_id as int) + ">"@ + " → `"@ + p.action@ + "`"@;
    assert(start + ""@ =~= start);
}

/// What was looked up and found is what a permission is limited to; what was not asked
/// for, or not found, limits nothing.
pub proof fn what_was_found_limits(id: i32)
    ensures
        found_id(Lookup::Found(id)) == Some(id),
        found_id(Lookup::NotAsked) is None,
        found_id(Lookup::Missing) is None,
{
}

/// The note on a limit names its kind and what it is limited to; without one it is empty.
pub proof fn limits_are_noted_by_name(word: Seq<char>, name: String)
    ensures
        scope_note(word, Some(name)) == " ("@ + word + ": "@ + name@ + ")"@,
        scope_note(word, None).len() == 0,
{
    reveal_strlit("");
}

} // verus!
