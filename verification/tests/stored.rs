//! What is decided on stored rows.

use starship::db::dungeon::{
    clone_global_to_guild, create_guild_template_with_inherit, CreateGuildTemplateParams,
};
use starship::db::headcount::{create_outcome, CreateOutcome};
use starship::db::models::{DungeonReaction, DungeonTemplate, Headcount, Permission};
use starship::db::notification::{
    get_notification_settings, ping_text, set_notification_role, set_ping_here,
    NotificationSettings,
};
use starship::db::permission::{
    all_actions, check, is_operator, leader_actions, MEMBER_ACTION,
};
use starship::db::raid_gates::{cooldown_active, cooldown_until, Cooldown};
use starship::db::self_organize::{claim_for_headcount, ClaimOutcome, ClaimStep, SlotClaim};
use starship::db::tier::{
    add_dungeon, is_dungeon_visible, remove_dungeon, TierDungeon, VisibilityChange,
};
use starship::db::verification::{complete_step, CompleteFacts, CompleteStep, UpsertResult};
use starship::startup::{ensure_setup, migration_preflight, SetupGate};

fn text(s: &str) -> String {
    s.to_string()
}

fn grant(role: i64, action: &str, tier: Option<i32>, dungeon: Option<i32>) -> Permission {
    Permission {
        id: 1,
        guild_id: 1,
        role_id: role,
        action: text(action),
        tier_id: tier,
        dungeon_template_id: dungeon,
    }
}

#[test]
fn grants_cover_their_scope() {
    let rows = vec![grant(5, "ManageRuns", Some(2), None), grant(6, "ManageRuns", None, None)];
    assert!(check(&rows, 1, &vec![5], "ManageRuns", Some(2), Some(9)));
    assert!(!check(&rows, 1, &vec![5], "ManageRuns", Some(3), None));
    assert!(!check(&rows, 1, &vec![5], "ManageRuns", None, None));
    assert!(check(&rows, 1, &vec![6], "ManageRuns", None, None));
    assert!(check(&rows, 1, &vec![6, 7], "ManageRuns", Some(3), Some(4)));
    assert!(!check(&rows, 1, &vec![6], "StartHeadcount", None, None));
    assert!(!check(&rows, 2, &vec![6], "ManageRuns", None, None));
    assert!(!check(&rows, 1, &vec![], "ManageRuns", None, None));
}

#[test]
fn dungeons_are_visible_where_they_are() {
    let none = TierDungeon { hidden: false, attached: false };
    assert!(is_dungeon_visible(None, 1, none));
    assert!(!is_dungeon_visible(None, 1, TierDungeon { hidden: true, attached: true }));
    assert!(!is_dungeon_visible(Some(1), 1, none));
    assert!(is_dungeon_visible(Some(1), 1, TierDungeon { hidden: true, attached: true }));
    assert!(!is_dungeon_visible(Some(2), 1, TierDungeon { hidden: false, attached: true }));
    assert_eq!(add_dungeon(None), VisibilityChange::EnableGlobal);
    assert_eq!(add_dungeon(Some(1)), VisibilityChange::AttachGuild);
    assert_eq!(remove_dungeon(None), VisibilityChange::DisableGlobal);
    assert_eq!(remove_dungeon(Some(1)), VisibilityChange::DetachGuild);
}

#[test]
fn notification_settings_are_read_back() {
    let s = get_notification_settings(None);
    assert_eq!(ping_text(s).as_deref(), Some("@here"));
    let both = NotificationSettings { role_id: Some(7), ping_here: true };
    assert_eq!(ping_text(both).as_deref(), Some("<@&7> @here"));
    let role = NotificationSettings { role_id: Some(7), ping_here: false };
    assert_eq!(ping_text(role).as_deref(), Some("<@&7>"));
    let nobody = NotificationSettings { role_id: None, ping_here: false };
    assert_eq!(ping_text(nobody), None);
    assert_eq!((s.role_id, s.ping_here), (None, true));
    let row = set_notification_role(None, Some(7));
    assert_eq!(row, Some(NotificationSettings { role_id: Some(7), ping_here: true }));
    let row = set_ping_here(row, false);
    assert_eq!(get_notification_settings(row).role_id, Some(7));
    assert!(!get_notification_settings(row).ping_here);
    let row = set_notification_role(row, None);
    assert_eq!(row, Some(NotificationSettings { role_id: None, ping_here: false }));
    assert_eq!(set_ping_here(row, true), None);
}

#[test]
fn actions_nest() {
    let leaders = leader_actions();
    assert_eq!(leaders.len(), 7);
    assert!(leaders.contains(&MEMBER_ACTION.to_string()));
    let all = all_actions();
    assert_eq!(all.len(), 10);
    assert!(leaders.iter().all(|a| all.contains(a)));
    assert!(is_operator(Some(5), 5));
    assert!(!is_operator(Some(5), 6));
    assert!(!is_operator(None, 0));
}

#[test]
fn waits_end() {
    let until = cooldown_until(1_500_000, 60);
    assert_eq!(until, 61_500_000);
    assert_eq!(cooldown_active(Some(until), 61_499_999), Cooldown::Waiting(61_500_000));
    assert_eq!(cooldown_active(Some(until), 61_500_000), Cooldown::Prune);
    assert_eq!(cooldown_active(None, 0), Cooldown::Free);
}

#[test]
fn slots_are_claimed_once() {
    let row = SlotClaim {
        guild_id: 1,
        tier_id: 2,
        dungeon_template_id: 3,
        leader_user_id: 4,
        is_self_organized: true,
        headcount_id: Some(5),
        run_id: None,
        acquired_at: 0,
    };
    assert_eq!(claim_for_headcount(None, None), ClaimStep::Insert);
    assert_eq!(
        claim_for_headcount(Some(Some(row)), None),
        ClaimStep::Done(ClaimOutcome::Acquired(row))
    );
    assert_eq!(claim_for_headcount(Some(None), None), ClaimStep::ReadHolder);
    assert_eq!(
        claim_for_headcount(Some(None), Some(row)),
        ClaimStep::Done(ClaimOutcome::Conflict(row))
    );
}

#[test]
fn only_unique_violations_mean_a_slot_in_use() {
    let row = Headcount {
        id: 1,
        guild_id: 1,
        tier_id: 1,
        dungeon_template_id: 1,
        channel_id: 1,
        message_id: 0,
        leader_user_id: 1,
        location: None,
        party: None,
        created_at: 0,
    };
    assert!(matches!(create_outcome(Ok(row)), Ok(CreateOutcome::Created(_))));
    assert!(matches!(create_outcome(Err(Some("23505"))), Ok(CreateOutcome::SlotInUse)));
    assert!(create_outcome(Err(Some("23503"))).is_err());
    assert!(create_outcome(Err(None)).is_err());
}

#[test]
fn verifications_are_stored_unless_taken() {
    let mut f = CompleteFacts { holder: None, prior: None, stored: false };
    assert!(matches!(complete_step(&f, "Bob"), CompleteStep::FindHolder));
    f.holder = Some(Some(8));
    assert!(matches!(
        complete_step(&f, "Bob"),
        CompleteStep::Done(UpsertResult::IgnTaken { holder: 8 })
    ));
    f.holder = Some(None);
    assert!(matches!(complete_step(&f, "Bob"), CompleteStep::FindPrior));
    f.prior = Some(None);
    assert!(matches!(complete_step(&f, "Bob"), CompleteStep::Store));
    f.stored = true;
    assert!(matches!(complete_step(&f, "Bob"), CompleteStep::Done(UpsertResult::Created)));
    f.prior = Some(Some(text("Bob")));
    assert!(matches!(complete_step(&f, "Bob"), CompleteStep::Done(UpsertResult::Refreshed)));
    f.prior = Some(Some(text("Al")));
    match complete_step(&f, "Bob") {
        CompleteStep::Done(UpsertResult::Rebound { from, to }) => {
            assert_eq!((from.as_str(), to.as_str()), ("Al", "Bob"));
        }
        _ => panic!("rebound"),
    }
}

#[test]
fn startup_decisions() {
    assert!(migration_preflight(false, 5, 5, false).is_ok());
    assert!(migration_preflight(true, 0, 0, false).is_ok());
    assert!(migration_preflight(true, 1, 0, true).is_ok());
    assert_eq!(
        migration_preflight(true, 1, 2, false).unwrap_err(),
        "R4 migration preflight: 1 active headcount(s), 2 active run(s) — aborting startup"
    );
    assert_eq!(ensure_setup("setup", true, None), SetupGate::Pass);
    assert_eq!(ensure_setup("upload-emoji", true, None), SetupGate::Pass);
    assert_eq!(ensure_setup("tier", false, None), SetupGate::Pass);
    assert_eq!(ensure_setup("tier", true, None), SetupGate::LoadGuild);
    assert_eq!(ensure_setup("tier", true, Some(true)), SetupGate::Pass);
    assert_eq!(ensure_setup("tier", true, Some(false)), SetupGate::Refuse);
}

fn source() -> DungeonTemplate {
    DungeonTemplate {
        id: 3,
        guild_id: None,
        name: "void".to_string(),
        display_name: "The Void".to_string(),
        emoji: Some("portal_void".to_string()),
        color: Some(7),
        message_title: Some("Void!".to_string()),
        message_description: Some("dark".to_string()),
        thumbnail_url: Some("thumb".to_string()),
        image_url: Some("image".to_string()),
        requires_vc: true,
        showcase_emoji: vec!["ring".to_string()],
        created_at: 0,
    }
}

fn a_reaction(name: &str, num_required: i32) -> DungeonReaction {
    DungeonReaction {
        id: 1,
        dungeon_template_id: 3,
        name: name.to_string(),
        display_name: name.to_uppercase(),
        emoji: format!("{name}_emoji"),
        num_required,
        requires_confirmation: true,
        sort_order: 4,
    }
}

#[test]
fn forks_take_all_over_but_the_server() {
    let d = clone_global_to_guild(&source(), &vec![a_reaction("key", 2)], 99);
    assert_eq!(d.guild_id, 99);
    assert_eq!((d.name.as_str(), d.display_name.as_str()), ("void", "The Void"));
    assert_eq!((d.emoji.as_deref(), d.color), (Some("portal_void"), Some(7)));
    assert_eq!(d.message_title.as_deref(), Some("Void!"));
    assert_eq!(d.message_description.as_deref(), Some("dark"));
    assert_eq!(d.showcase_emoji, ["ring"]);
    assert_eq!(d.thumbnail_url.as_deref(), Some("thumb"));
    assert_eq!(d.image_url.as_deref(), Some("image"));
    assert!(d.requires_vc);
    assert_eq!(d.reactions.len(), 1);
    let r = &d.reactions[0];
    assert_eq!((r.name.as_str(), r.display_name.as_str()), ("key", "KEY"));
    assert_eq!((r.emoji.as_str(), r.num_required, r.sort_order), ("key_emoji", 2, 4));
    assert!(r.requires_confirmation);
}

#[test]
fn new_dungeons_fall_back_on_their_source() {
    let mut p = CreateGuildTemplateParams {
        guild_id: 99,
        name: "mine".to_string(),
        display_name: "Mine".to_string(),
        description: None,
        color: None,
        inherit_from: Some(3),
    };
    let list = vec![a_reaction("key", 2)];
    let d = create_guild_template_with_inherit(&p, Some((&source(), &list)));
    assert_eq!((d.name.as_str(), d.display_name.as_str()), ("mine", "Mine"));
    assert_eq!(d.color, Some(7));
    assert_eq!(d.message_description.as_deref(), Some("dark"));
    assert!(d.requires_vc);
    let names: Vec<&str> = d.reactions.iter().map(|r| r.name.as_str()).collect();
    assert_eq!(names, ["key", "interest"]);
    let r = &d.reactions[1];
    assert_eq!((r.display_name.as_str(), r.emoji.as_str()), ("Joining", "✅"));
    assert_eq!((r.num_required, r.requires_confirmation, r.sort_order), (1, false, 0));

    p.color = Some(8);
    p.description = Some("own".to_string());
    let list = vec![a_reaction("interest", 5)];
    let d = create_guild_template_with_inherit(&p, Some((&source(), &list)));
    assert_eq!(d.color, Some(8));
    assert_eq!(d.message_description.as_deref(), Some("own"));
    assert_eq!(d.reactions.len(), 1);
    assert_eq!(d.reactions[0].num_required, 5);

    let d = create_guild_template_with_inherit(&p, None);
    assert_eq!((d.emoji, d.message_title, d.requires_vc), (None, None, false));
    assert!(d.showcase_emoji.is_empty());
    assert_eq!(d.reactions.len(), 1);
    assert_eq!(d.reactions[0].name, "interest");
}
