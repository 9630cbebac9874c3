//! Who may do what.

use vstd::prelude::*;

use crate::db::models::Permission;
use crate::text::{own, same, views};

verus! {

/// Somebody is the operator of the bot, where there is one.
pub open spec fn operates(operator: Option<i64>, user_id: i64) -> bool {
    operator == Some(user_id)
}

/// Whether somebody is the operator of the bot. Nobody is where none is set.
pub fn is_operator(operator: Option<i64>, user_id: i64) -> (r: bool)
    ensures
        r == operates(operator, user_id),
{
    match operator {
        Some(id) => id == user_id,
        None => false,
    }
}

// ----- actions --------------------------------------------------------------------------

/// What those are granted who may only start headcounts.
pub const MEMBER_ACTION: &'static str = "StartHeadcount";

/// What the leaders of a tier are granted.
pub open spec fn leader_action_names() -> Seq<Seq<char>> {
    seq![
        MEMBER_ACTION@,
        "StartRun"@,
        "EndRun"@,
        "ManageRuns"@,
        "TransferLeader"@,
        "SetLocation"@,
        "SetParty"@,
    ]
}

/// What the leaders of a tier are granted.
pub fn leader_actions() -> (r: Vec<String>)
    ensures
        views(r@) == leader_action_names(),
{
    let r = vec![
        own(MEMBER_ACTION),
        own("StartRun"),
        own("EndRun"),
        own("ManageRuns"),
        own("TransferLeader"),
        own("SetLocation"),
        own("SetParty"),
    ];
    assert(views(r@) =~= leader_action_names());
    r
}

/// What a role can be granted.
pub open spec fn action_names() -> Seq<Seq<char>> {
    leader_action_names() + seq!["ManageTiers"@, "ManagePermissions"@, "ConfigureGuild"@]
}

/// What a role can be granted.
pub fn all_actions() -> (r: Vec<String>)
    ensures
        views(r@) == action_names(),
{
    let mut r = leader_actions();
    let ghost before = r@;
    r.push(own("ManageTiers"));
    r.push(own("ManagePermissions"));
    r.push(own("ConfigureGuild"));
    proof {
        assert(before.len() == leader_action_names().len());
        assert forall|i: int| 0 <= i < before.len() implies r@[i]@ == action_names()[i] by {
            assert(views(before)[i] == before[i]@);
        }
        assert(views(r@) =~= action_names());
    }
    r
}

/// Who leads a tier may do what its members may, and everything that a leader may do
/// can be granted.
pub proof fn leaders_may_what_members_may()
    ensures
        leader_action_names().contains(MEMBER_ACTION@),
        forall|a: Seq<char>| leader_action_names().contains(a) ==> #[trigger] action_names().contains(a),
{
    assert(leader_action_names()[0] == MEMBER_ACTION@);
    assert forall|a: Seq<char>| leader_action_names().contains(a) implies #[trigger] action_names().contains(
        a,
    ) by {
        let i = choose|i: int| 0 <= i < leader_action_names().len() && leader_action_names()[i] == a;
        assert(action_names()[i] == a);
    }
}

// ----- grants ---------------------------------------------------------------------------

/// A grant covers an action in a tier and for a dungeon: one that is not limited to
/// a tier covers every tier, and one that is not limited to a dungeon covers every
/// dungeon.
pub open spec fn covers(
    p: Permission,
    guild_id: i64,
    action: Seq<char>,
    tier_id: Option<i32>,
    dungeon_template_id: Option<i32>,
) -> bool {
    &&& p.guild_id == guild_id
    &&& p.action@ == action
    &&& p.tier_id is None || p.tier_id == tier_id
    &&& p.dungeon_template_id is None || p.dungeon_template_id == dungeon_template_id
}

/// One of the roles has a grant that covers the action.
pub open spec fn permitted(
    grants: Seq<Permission>,
    guild_id: i64,
    role_ids: Seq<i64>,
    action: Seq<char>,
    tier_id: Option<i32>,
    dungeon_template_id: Option<i32>,
) -> bool {
    exists|i: int|
        0 <= i < grants.len() && covers(
            #[trigger] grants[i],
            guild_id,
            action,
            tier_id,
            dungeon_template_id,
        ) && role_ids.contains(grants[i].role_id)
}

fn has_role(role_ids: &Vec<i64>, role: i64) -> (r: bool)
    ensures
        r == role_ids@.contains(role),
{
    let mut i: usize = 0;
    while i < role_ids.len()
        invariant
            i <= role_ids@.len(),
            forall|k: int| 0 <= k < i ==> role_ids@[k] != role,
        decreases role_ids@.len() - i,
    {
        if role_ids[i] == role {
            assert(role_ids@[i as int] == role);
            return true;
        }
        i = i + 1;
    }
    false
}

fn limit_covers(limit: Option<i32>, id: Option<i32>) -> (r: bool)
    ensures
        r == (limit is None || limit == id),
{
    match (limit, id) {
        (None, _) => true,
        (Some(a), Some(b)) => a == b,
        (Some(_), None) => false,
    }
}

/// Whether one of the roles has a grant that covers the action.
pub fn check(
    grants: &Vec<Permission>,
    guild_id: i64,
    role_ids: &Vec<i64>,
    action: &str,
    tier_id: Option<i32>,
    dungeon_template_id: Option<i32>,
) -> (r: bool)
    ensures
        r == permitted(
            grants@,
            guild_id,
            role_ids@,
            action@,
            tier_id,
            dungeon_template_id,
        ),
{
    let mut i: usize = 0;
    while i < grants.len()
        invariant
            i <= grants@.len(),
            forall|k: int|
                0 <= k < i ==> !(covers(
                    #[trigger] grants@[k],
                    guild_id,
                    action@,
                    tier_id,
                    dungeon_template_id,
                ) && role_ids@.contains(grants@[k].role_id)),
        decreases grants@.len() - i,
    {
        let p = &grants[i];
        if p.guild_id == guild_id && same(&p.action, action) && limit_covers(p.tier_id, tier_id)
            && limit_covers(p.dungeon_template_id, dungeon_template_id) && has_role(
            role_ids,
            p.role_id,
        ) {
            assert(covers(grants@[i as int], guild_id, action@, tier_id, dungeon_template_id));
            return true;
        }
        i = i + 1;
    }
    false
}

/// Who has no role may do nothing.
pub proof fn nobody_without_a_role(
    grants: Seq<Permission>,
    guild_id: i64,
    action: Seq<char>,
    tier_id: Option<i32>,
    dungeon_template_id: Option<i32>,
)
    ensures
        !permitted(grants, guild_id, Seq::empty(), action, tier_id, dungeon_template_id),
{
}

/// A grant without limits covers its action in every tier and for every dungeon.
pub proof fn unlimited_grants_cover_all(
    grants: Seq<Permission>,
    i: int,
    role_ids: Seq<i64>,
    tier_id: Option<i32>,
    dungeon_template_id: Option<i32>,
)
    requires
        0 <= i < grants.len(),
        grants[i].tier_id is None,
        grants[i].dungeon_template_id is None,
        role_ids.contains(grants[i].role_id),
    ensures
        permitted(
            grants,
            grants[i].guild_id,
            role_ids,
            grants[i].action@,
            tier_id,
            dungeon_template_id,
        ),
{
    assert(covers(
        grants[i],
        grants[i].guild_id,
        grants[i].action@,
        tier_id,
        dungeon_template_id,
    ));
}

/// More roles never permit less.
pub proof fn roles_only_add(
    grants: Seq<Permission>,
    guild_id: i64,
    fewer: Seq<i64>,
    more: Seq<i64>,
    action: Seq<char>,
    tier_id: Option<i32>,
    dungeon_template_id: Option<i32>,
)
    requires
        permitted(grants, guild_id, fewer, action, tier_id, dungeon_template_id),
        forall|r: i64| #[trigger] fewer.contains(r) ==> more.contains(r),
    ensures
        permitted(grants, guild_id, more, action, tier_id, dungeon_template_id),
{
}

// ----- organizers -----------------------------------------------------------------------------

/// What makes somebody an organizer.
#[derive(Debug, Clone, Copy, PartialEq, Eq, Structural)]
pub struct Standing {
    /// Who they are.
    pub user_id: i64,
    /// Whether Discord lets them manage the server.
    pub manages_server: bool,
    /// Who bypasses every check in the server.
    pub guild_superadmin: Option<i64>,
    /// Who bypasses every check everywhere.
    pub global_superadmin: Option<i64>,
    /// Whether a role of theirs has a grant for the action.
    pub granted: bool,
}

/// Somebody may do a thing: Discord lets them manage the server, they bypass every
/// check, or a role of theirs has a grant for it.
pub open spec fn trusted(s: Standing) -> bool {
    s.manages_server || s.guild_superadmin == Some(s.user_id) || s.global_superadmin == Some(
        s.user_id,
    ) || s.granted
}

fn is_them(id: Option<i64>, user_id: i64) -> (r: bool)
    ensures
        r == (id == Some(user_id)),
{
    match id {
        Some(i) => i == user_id,
        None => false,
    }
}

/// Whether somebody may do a thing.
pub fn is_trusted(s: &Standing) -> (r: bool)
    ensures
        r == trusted(*s),
{
    s.manages_server || is_them(s.guild_superadmin, s.user_id) || is_them(
        s.global_superadmin,
        s.user_id,
    ) || s.granted
}

/// Whether somebody may organize a raid: they lead it, or they are trusted with
/// managing runs.
pub fn can_organize(s: &Standing, leader_user_id: i64) -> (r: bool)
    ensures
        r == (s.user_id == leader_user_id || trusted(*s)),
{
    s.user_id == leader_user_id || is_trusted(s)
}

// ----- what grants are for --------------------------------------------------------------------

/// A grant permits its own action to its role, in its server, in its tier and for its
/// dungeon, whatever it is limited to.
pub proof fn grants_permit_what_they_name(grants: Seq<Permission>, i: int, role_ids: Seq<i64>)
    requires
        0 <= i < grants.len(),
        role_ids.contains(grants[i].role_id),
    ensures
        permitted(
            grants,
            grants[i].guild_id,
            role_ids,
            grants[i].action@,
            grants[i].tier_id,
            grants[i].dungeon_template_id,
        ),
{
    assert(covers(
        grants[i],
        grants[i].guild_id,
        grants[i].action@,
        grants[i].tier_id,
        grants[i].dungeon_template_id,
    ));
}

/// A grant that is limited to a dungeon permits its action for that dungeon in every
/// tier that it covers, and one that is limited to a tier in that tier for every dungeon
/// that it covers.
pub proof fn limited_grants_permit_within_their_limits(
    grants: Seq<Permission>,
    i: int,
    role_ids: Seq<i64>,
    any: Option<i32>,
)
    requires
        0 <= i < grants.len(),
        role_ids.contains(grants[i].role_id),
    ensures
        grants[i].tier_id is None ==> permitted(
            grants,
            grants[i].guild_id,
            role_ids,
            grants[i].action@,
            any,
            grants[i].dungeon_template_id,
        ),
        grants[i].dungeon_template_id is None ==> permitted(
            grants,
            grants[i].guild_id,
            role_ids,
            grants[i].action@,
            grants[i].tier_id,
            any,
        ),
{
    let g = grants[i];
    assert(g.tier_id is None ==> covers(g, g.guild_id, g.action@, any, g.dungeon_template_id));
    assert(g.dungeon_template_id is None ==> covers(g, g.guild_id, g.action@, g.tier_id, any));
}

/// Nothing is permitted but by a grant to one of the roles, in the same server, of the
/// same action, and neither limited to another tier nor to another dungeon.
pub proof fn nothing_else_permits(
    grants: Seq<Permission>,
    guild_id: i64,
    role_ids: Seq<i64>,
    action: Seq<char>,
    tier_id: Option<i32>,
    dungeon_template_id: Option<i32>,
)
    requires
        permitted(grants, guild_id, role_ids, action, tier_id, dungeon_template_id),
    ensures
        exists|i: int| #![trigger grants[i]]
            0 <= i < grants.len() && role_ids.contains(grants[i].role_id) && grants[i].guild_id
                == guild_id && grants[i].action@ == action && (grants[i].tier_id matches Some(t)
                ==> tier_id == Some(t)) && (grants[i].dungeon_template_id matches Some(d)
                ==> dungeon_template_id == Some(d)),
{
}

/// More grants never permit less.
pub proof fn grants_only_add(
    grants: Seq<Permission>,
    one: Permission,
    guild_id: i64,
    role_ids: Seq<i64>,
    action: Seq<char>,
    tier_id: Option<i32>,
    dungeon_template_id: Option<i32>,
)
    requires
        permitted(grants, guild_id, role_ids, action, tier_id, dungeon_template_id),
    ensures
        permitted(grants.push(one), guild_id, role_ids, action, tier_id, dungeon_template_id),
{
    let i = choose|i: int|
        0 <= i < grants.len() && covers(
            #[trigger] grants[i],
            guild_id,
            action,
            tier_id,
            dungeon_template_id,
        ) && role_ids.contains(grants[i].role_id);
    assert(grants.push(one)[i] == grants[i]);
}

/// Each of four things makes somebody trusted, and nothing else does: managing the
/// server, being its superadmin, being the bot's, and a grant.
pub proof fn four_things_make_trusted(s: Standing)
    ensures
        s.manages_server ==> trusted(s),
        s.granted ==> trusted(s),
        s.guild_superadmin == Some(s.user_id) ==> trusted(s),
        s.global_superadmin == Some(s.user_id) ==> trusted(s),
        !s.manages_server && !s.granted && s.guild_superadmin != Some(s.user_id)
            && s.global_superadmin != Some(s.user_id) ==> !trusted(s),
{
}

/// Exactly one person operates the bot where somebody is set, and nobody does where none is.
pub proof fn one_person_operates(operator: i64, user_id: i64)
    ensures
        operates(Some(operator), user_id) <==> user_id == operator,
        !operates(None, user_id),
{
}

} // verus!
