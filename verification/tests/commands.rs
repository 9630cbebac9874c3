//! What the commands decide and say.

use starship::commands::autocomplete::{matching_dungeons, matching_names};
use starship::commands::config::{log_channel, superadmin, threshold, LogChannelKind};
use starship::commands::dungeon::{create_check, delete_reply, edit_step, list_pages, EditStep};
use starship::commands::headcount::{
    headcount_started, headcount_step, resolve_tier, run_step, HeadcountFacts, HeadcountStep,
    TierChoice,
};
use starship::commands::permission::{
    grant_reply, is_valid_action, list_reply, revoke_reply, scope_step, Lookup, ScopeStep,
};
use starship::commands::pingroles::{
    diff_reply, ping_dungeons, retry_delay, role_name, subscription_diff, Picker, PickerStep, PingDungeon,
};
use starship::commands::sync_wiki::{
    format_elapsed, sync_request_step, truncate, LockAnswer, ProgressEvent, ProgressState,
    SyncRequestStep, SyncSummary,
};
use starship::commands::tier;
use starship::commands::verify::{manual_verify_check, ManualRefusal};
use starship::db::models::{BagTier, DungeonTemplate, Permission, Tier};

fn text(s: &str) -> String {
    s.to_string()
}

fn template(id: i32, name: &str, guild: Option<i64>) -> DungeonTemplate {
    DungeonTemplate {
        id,
        guild_id: guild,
        name: text(name),
        display_name: name.to_uppercase(),
        emoji: None,
        color: None,
        message_title: None,
        message_description: None,
        thumbnail_url: None,
        image_url: None,
        requires_vc: false,
        showcase_emoji: vec![],
        created_at: 0,
    }
}

fn a_tier(id: i32, name: &str, channel: Option<i64>) -> Tier {
    Tier {
        id,
        guild_id: 1,
        name: text(name),
        description: None,
        runs_channel_id: channel,
        enable_start_run_ui: true,
        start_run_ui_channel_id: None,
        start_run_ui_button_message_id: None,
        start_run_ui_listing_message_id: None,
        hc_idle_minutes: 60,
        hc_cancel_cooldown_seconds: 60,
        hc_min_reactors: 3,
        created_at: 0,
    }
}

#[test]
fn completion_ignores_case() {
    let names = vec![text("Elite"), text("Main")];
    assert_eq!(matching_names(&names, "eL"), vec!["Elite"]);
    assert_eq!(matching_names(&names, "").len(), 2);
    let dungeons = vec![template(1, "snake_pit", None), template(2, "cave", None)];
    let found = matching_dungeons(&dungeons, "SNAKE");
    assert_eq!(found.len(), 1);
    assert_eq!(found[0].name, "snake_pit");
}

#[test]
fn configuration_commands() {
    let tiers = vec![BagTier { name: text("white"), sort_order: 1, default_emoji: text("⬜") }];
    assert!(threshold("white", &tiers).is_ok());
    assert!(threshold("pink", &tiers).is_err());
    assert_eq!(log_channel(LogChannelKind::Text, 5).unwrap(), "Log channel set to <#5>.");
    assert_eq!(log_channel(LogChannelKind::News, 5).unwrap(), "Log channel set to <#5>.");
    assert!(log_channel(LogChannelKind::Other, 5).is_err());
    assert_eq!(superadmin(false, 6).unwrap(), "Superadmin set to <@6>.");
    assert!(superadmin(true, 6).is_err());
}

#[test]
fn dungeons_are_capped_and_forked() {
    assert_eq!(create_check(149), None);
    assert_eq!(
        create_check(150).as_deref(),
        Some(
            "This server is at the cap of 150 custom dungeons. \
             Delete one with `/dungeon delete` before creating another."
        )
    );
    assert!(matches!(edit_step("x", &None, None), EditStep::Refuse(_)));
    let own = Some(template(4, "mine", Some(1)));
    assert!(matches!(edit_step("mine", &own, None), EditStep::Edit(4)));
    let global = Some(template(5, "all", None));
    assert!(matches!(edit_step("all", &global, None), EditStep::AskCount));
    assert!(matches!(edit_step("all", &global, Some(3)), EditStep::Fork(5, _)));
    assert!(matches!(edit_step("all", &global, Some(150)), EditStep::Refuse(_)));
    assert_eq!(delete_reply(true, "x"), "Deleted template `x`.");
}

#[test]
fn dungeon_lists_are_paged() {
    let many: Vec<DungeonTemplate> = (0..60).map(|i| template(i, &format!("d{i}"), None)).collect();
    let pages = list_pages(&many);
    let fields: usize = pages.iter().map(|p| p.fields.len()).sum();
    assert_eq!(fields, 60);
    assert!(pages.iter().all(|p| p.fields.len() <= 25));
}

#[test]
fn tiers_are_resolved() {
    let two = vec![a_tier(1, "Main", Some(5)), a_tier(2, "Elite", None)];
    assert!(matches!(resolve_tier(&two, &Some(text("ELITE"))), TierChoice::Tier(1)));
    match resolve_tier(&two, &None) {
        TierChoice::Refused(t) => assert_eq!(
            t,
            "Multiple tiers exist: Main, Elite. Specify one with the `tier` argument."
        ),
        TierChoice::Tier(_) => panic!("ambiguous"),
    }
    match resolve_tier(&vec![], &None) {
        TierChoice::Refused(t) => assert_eq!(t, "No tiers configured — run `/setup` first."),
        TierChoice::Tier(_) => panic!("none"),
    }
    match resolve_tier(&two, &Some(text("x"))) {
        TierChoice::Refused(t) => assert_eq!(t, "Unknown tier `x`."),
        TierChoice::Tier(_) => panic!("unknown"),
    }
}

#[test]
fn headcounts_start_when_all_holds() {
    let mut f = HeadcountFacts {
        dungeon: text("pit"),
        tier: None,
        template: None,
        tiers: None,
        visible: None,
        permitted: None,
        channel_exists: None,
        block: None,
    };
    assert!(matches!(headcount_step(&f), HeadcountStep::FindDungeon));
    f.template = Some(Some(template(3, "pit", None)));
    assert!(matches!(headcount_step(&f), HeadcountStep::ListTiers));
    f.tiers = Some(vec![a_tier(2, "Main", Some(44))]);
    assert!(matches!(headcount_step(&f), HeadcountStep::AskVisible(0)));
    f.visible = Some(true);
    assert!(matches!(headcount_step(&f), HeadcountStep::AskPermission(0)));
    f.permitted = Some(true);
    assert!(matches!(headcount_step(&f), HeadcountStep::AskChannel(44)));
    f.channel_exists = Some(true);
    assert!(matches!(headcount_step(&f), HeadcountStep::AskGate(0)));
    f.block = Some(Some(text("wait")));
    match headcount_step(&f) {
        HeadcountStep::Refuse(t) => assert_eq!(t, "wait"),
        _ => panic!("blocked"),
    }
    f.block = Some(None);
    assert!(matches!(headcount_step(&f), HeadcountStep::Start(0, 44)));
    f.channel_exists = Some(false);
    match headcount_step(&f) {
        HeadcountStep::Refuse(t) => assert_eq!(
            t,
            "Tier **Main**'s runs channel <#44> is gone — it was probably deleted in Discord. \
             Run `/tier edit` or `/setup` to point the tier at a different channel."
        ),
        _ => panic!("gone"),
    }
    f.permitted = Some(false);
    assert!(matches!(headcount_step(&f), HeadcountStep::Denied));
    f.visible = Some(false);
    assert!(matches!(headcount_step(&f), HeadcountStep::Refuse(_)));
    f.template = Some(None);
    match headcount_step(&f) {
        HeadcountStep::Refuse(t) => {
            assert_eq!(t, "Unknown dungeon `pit`. Try the autocomplete list.")
        }
        _ => panic!("unknown"),
    }
    assert!(matches!(run_step(&f), HeadcountStep::Refuse(_)));
    assert_eq!(headcount_started(9), "Headcount started in <#9>!");
}

#[test]
fn permissions_are_granted_in_a_scope() {
    let all = vec![text("StartHeadcount"), text("ManageRuns")];
    assert!(is_valid_action("ManageRuns", &all));
    assert!(!is_valid_action("Fly", &all));
    assert!(matches!(
        scope_step(false, Lookup::NotAsked, Lookup::NotAsked),
        ScopeStep::UnknownAction
    ));
    assert!(matches!(scope_step(true, Lookup::Missing, Lookup::NotAsked), ScopeStep::TierMissing));
    assert!(matches!(
        scope_step(true, Lookup::Found(1), Lookup::Missing),
        ScopeStep::DungeonMissing
    ));
    assert!(matches!(
        scope_step(true, Lookup::Found(1), Lookup::NotAsked),
        ScopeStep::Proceed { tier_id: Some(1), dungeon_id: None }
    ));
    let (tier, dungeon) = (Some(text("Main")), Some(text("void")));
    assert_eq!(
        grant_reply(true, "ManageRuns", 5, &None, &None),
        "Granted `ManageRuns` to <@&5>."
    );
    assert_eq!(
        grant_reply(true, "ManageRuns", 5, &tier, &dungeon),
        "Granted `ManageRuns` to <@&5> (tier: Main) (dungeon: void)."
    );
    assert_eq!(grant_reply(false, "ManageRuns", 5, &tier, &None), "That permission already exists.");
    assert_eq!(revoke_reply(true, "ManageRuns", 5), "Revoked `ManageRuns` from <@&5>.");
    assert_eq!(revoke_reply(false, "ManageRuns", 5), "No matching permission found.");
    assert_eq!(list_reply(&vec![]), "No permissions configured for this server.");
    let row = |action: &str, tier_id, dungeon_template_id| Permission {
        id: 1,
        guild_id: 1,
        role_id: 5,
        action: text(action),
        tier_id,
        dungeon_template_id,
    };
    let rows = vec![
        row("EndRun", None, None),
        row("EndRun", Some(2), None),
        row("EndRun", None, Some(3)),
        row("EndRun", Some(2), Some(3)),
    ];
    assert_eq!(
        list_reply(&rows),
        "<@&5> → `EndRun`\n<@&5> → `EndRun` [tier:2]\n<@&5> → `EndRun` [dungeon:3]\n\
         <@&5> → `EndRun` [tier:2, dungeon:3]"
    );
    let long = list_reply(&vec![row(&"x".repeat(2000), None, None)]);
    assert!(long.ends_with("xxx\n…(truncated)"));
    assert_eq!(long.len(), 1900 + "\n…(truncated)".len());
    // A character across the cut is left out whole.
    let across = list_reply(&vec![row(&("x".repeat(1888) + "ä"), None, None)]);
    assert!(across.ends_with("xxx\n…(truncated)"));
    assert_eq!(across.len(), 1899 + "\n…(truncated)".len());
}

fn ping(id: i32) -> PingDungeon {
    PingDungeon { id, display_name: format!("D{id}"), role_id: 100 + id as i64 }
}

#[test]
fn subscriptions_follow_the_picker() {
    let dungeons: Vec<PingDungeon> = (1..=3).map(ping).collect();
    let mut p = Picker::new(dungeons, &vec![101]);
    assert_eq!(p.desired, vec![1]);
    assert!(!p.screen().rows.list.is_empty());
    let diff = subscription_diff(&p.dungeons, &vec![2], &vec![101, 999]);
    assert_eq!(diff.add, vec![102]);
    assert_eq!(diff.remove, vec![101]);
    assert!(matches!(p.click("nothing", None), PickerStep::Ignore));
    let picks = Some(vec![text("2"), text("3"), text("77"), text("x")]);
    assert!(matches!(p.click("pingroles:select", picks), PickerStep::Redraw));
    assert_eq!(p.desired, vec![2, 3]);
    assert!(matches!(p.click("pingroles:apply", None), PickerStep::Apply));
    assert!(matches!(p.click("pingroles:close", None), PickerStep::Close));
    assert_eq!([retry_delay(0), retry_delay(1), retry_delay(2)], [Some(200), Some(400), None]);
    assert_eq!(role_name("Snake Pit"), "Snake Pit Pings");
    assert_eq!(
        diff_reply(0, 0, &vec![], &vec![]),
        "Nothing to change — your subscriptions already match."
    );
    assert_eq!(
        diff_reply(2, 1, &vec![], &vec![]),
        "✅ Subscriptions updated — 2 added, 1 removed."
    );
    assert_eq!(
        diff_reply(2, 1, &vec![text("add <@&5>: no")], &vec![text("remove <@&6>: no")]),
        "⚠ Partial update: 1 added, 0 removed. 2 failure(s):\nadd <@&5>: no\nremove <@&6>: no"
    );
}

/// What comes of a request, as one text.
fn request(operator: bool, purge: Option<&str>, lock: Option<LockAnswer>) -> String {
    match sync_request_step(operator, &purge.map(text), lock) {
        SyncRequestStep::Refuse(t) => t,
        SyncRequestStep::AskLock => text("lock"),
        SyncRequestStep::Run(purge) => format!("run {purge}"),
    }
}

#[test]
fn runs_are_asked_for_in_order() {
    let unclear = "The `purge` parameter must be the exact string `PURGE` to confirm. \
                   Got `purge`. Run aborted.";
    assert_eq!(request(false, Some("purge"), Some(LockAnswer::Held)), "Not authorized.");
    assert_eq!(request(true, Some("purge"), Some(LockAnswer::Held)), unclear);
    assert_eq!(request(true, Some("purge"), None), unclear);
    assert_eq!(request(true, None, None), "lock");
    assert_eq!(request(true, Some("PURGE"), None), "lock");
    assert_eq!(
        request(true, None, Some(LockAnswer::Busy)),
        "Another `/sync-wiki` (or shell-side `starship sync-wiki`) is already running. \
         Wait for it to finish and try again."
    );
    assert_eq!(
        request(true, None, Some(LockAnswer::Failed(text("no")))),
        "Failed to acquire run lock: `no`."
    );
    assert_eq!(request(true, None, Some(LockAnswer::Held)), "run false");
    assert_eq!(request(true, Some("PURGE"), Some(LockAnswer::Held)), "run true");
}

#[test]
fn pings_need_a_bound_role() {
    let dungeon = |id: i32, name: &str| template(id, name, None);
    let bound = vec![(text("void"), 7), (text("gone"), 8), (text("void"), 9)];
    let list = ping_dungeons(&vec![dungeon(1, "pit"), dungeon(2, "void")], &bound);
    assert_eq!(list.len(), 1);
    assert_eq!((list[0].id, list[0].display_name.as_str(), list[0].role_id), (2, "VOID", 7));
    assert!(ping_dungeons(&vec![dungeon(1, "pit")], &vec![]).is_empty());
}

#[test]
fn counters_count_events() {
    let mut s = ProgressState::new(false, false);
    for _ in 0..3 {
        s.apply(ProgressEvent::UploadReused);
    }
    s.apply(ProgressEvent::UploadNew);
    s.apply(ProgressEvent::Warning(text("w")));
    s.apply(ProgressEvent::UploadSkipped);
    assert_eq!((s.uploads_new, s.uploads_reused, s.uploads_skipped, s.warnings), (1, 3, 1, 1));
}

#[test]
fn progress_is_shown() {
    assert_eq!(format_elapsed(59), "59s");
    assert_eq!(format_elapsed(61), "1m 01s");
    assert_eq!(truncate("abc", 3), "abc");
    assert_eq!(truncate("äbcdef", 3), "äbc…");
    let mut s = ProgressState::new(true, false);
    s.apply(ProgressEvent::Phase(text("Scraping")));
    s.apply(ProgressEvent::DungeonStart { name: text("Pit"), index: 1, total: 2 });
    s.apply(ProgressEvent::UploadNew);
    s.apply(ProgressEvent::Warning(text("odd")));
    assert_eq!(s.uploads_new, 1);
    assert_eq!(s.warnings, 1);
    assert_eq!(
        s.render(5),
        "**Running `/sync-wiki`** [dry-run] — 5s elapsed\nPhase: processing dungeons\n\
         Current: Pit (1/2)\nUploads: 1 new, 0 reused, 0 would-upload\n\
         Warnings: 1 (latest: `odd`)\n"
    );
    assert_eq!(
        ProgressState::new(false, true).render(60),
        "**Running `/sync-wiki`** [PURGE] — 1m 00s elapsed\nPhase: starting up\n\
         Uploads: 0 new, 0 reused\nWarnings: 0\n"
    );
    let summary = SyncSummary {
        dungeons_scraped: 2,
        uploads_new: 1,
        uploads_reused: 0,
        uploads_skipped_dry: 0,
        upserts_skipped_dry: 0,
        warnings: 1,
    };
    assert_eq!(
        s.render_done(5, &summary),
        "**Done — `/sync-wiki`** [dry-run] in 5s\nDungeons scraped: 2\n\
         Uploads: 1 new, 0 reused, 0 would-upload, 0 bot_emoji rows skipped\n\
         Warnings: 1 (latest: `odd`)\n\n\
         Full logs are in the bot's journal. `templates::load_and_seed` re-reads \
         `wiki_dump.json` on the next bot restart."
    );
    assert_eq!(
        s.render_failed(65, "boom"),
        "**Failed — `/sync-wiki`** [dry-run] after 1m 05s\n\
         Phase at failure: processing dungeons\nError: `boom`\nWarnings before failure: 1"
    );
}

#[test]
fn tier_replies() {
    assert!(!tier::edits_anything(&None, &None, None));
    assert!(tier::edits_anything(&Some(text("x")), &None, None));
    assert!(tier::any_changed(&vec![false, true]));
    assert!(!tier::any_changed(&vec![false]));
    assert_eq!(
        tier::add_dungeon_reply(true, &template(1, "pit", None), "Main"),
        "Re-enabled **PIT** for tier **Main**."
    );
    assert_eq!(
        tier::remove_dungeon_reply(false, &template(1, "pit", Some(1)), "Main"),
        "**PIT** is not attached to tier **Main**."
    );
}

#[test]
fn verifying_by_hand() {
    match manual_verify_check(Some(Some(5)), " Bob ", false) {
        Ok((role, name)) => {
            assert_eq!(role, 5);
            assert_eq!(name, "Bob");
        }
        Err(_) => panic!("plausible"),
    }
    let cases = [
        (None, "Bob", false, ManualRefusal::ServerUnknown),
        (Some(None), "Bob", false, ManualRefusal::NoRole),
        (Some(Some(5)), "  ", false, ManualRefusal::NameEmpty),
        (Some(Some(5)), "B0b", false, ManualRefusal::NameImplausible),
        (Some(Some(5)), "Bob", true, ManualRefusal::Bot),
    ];
    for (role, name, bot, why) in cases {
        match manual_verify_check(role, name, bot) {
            Err(e) => assert_eq!(e, why),
            Ok(_) => panic!("accepted"),
        }
        assert!(!why.message().is_empty());
    }
}
