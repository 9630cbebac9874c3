//! What the commands say, and the smaller decisions.

use starship::cli::sync_wiki::scrape::rarest_bag;
use starship::commands::config::show;
use starship::commands::permission::{
    dungeon_not_found, grant_unknown, revoke_unknown, tier_not_found,
};
use starship::commands::pingroles::{
    bound_reply, cleared_reply, created_reply, failure_line, page_count, unknown_dungeon,
};
use starship::commands::sync_wiki::{lock_failed, purge_unclear};
use starship::commands::tier;
use starship::commands::upload_emoji::size_fits;
use starship::commands::verify::{can_self_verify, manual_reply};
use starship::db::emoji::{create_refused, delete_refused, list_answered, list_refused};
use starship::db::headcount::is_unique_violation;
use starship::db::models::{Guild, Tier};
use starship::db::permission::{can_organize, is_trusted, Standing};
use starship::embeds::listing::{build_listing, build_start_button, ActiveRaid};
use starship::handlers::dungeon_edit::view::missing_view;
use starship::handlers::headcount::reaction_types_match;
use starship::handlers::profile::parse_profile;
use starship::handlers::verify::Profile;
use starship::ui::{Emoji, Row};

fn tier(id: i32, name: &str, channel: Option<i64>) -> Tier {
    Tier {
        id,
        guild_id: 1,
        name: name.to_string(),
        description: None,
        runs_channel_id: channel,
        enable_start_run_ui: true,
        start_run_ui_channel_id: None,
        start_run_ui_button_message_id: None,
        start_run_ui_listing_message_id: None,
        hc_idle_minutes: 15,
        hc_cancel_cooldown_seconds: 300,
        hc_min_reactors: 3,
        created_at: 0,
    }
}

#[test]
fn the_configuration_is_shown() {
    let mut g = Guild {
        guild_id: 1,
        log_channel_id: Some(5),
        superadmin_user_id: None,
        setup_complete: true,
        loot_tier_threshold: "white".to_string(),
        verified_role_id: None,
        verify_channel_id: None,
        verify_message_id: None,
        created_at: 0,
        updated_at: 0,
    };
    let e = show(&g, &vec![tier(1, "Main", Some(7)), tier(2, "Elite", None)]);
    let fields: Vec<(&str, &str, bool)> =
        e.fields.iter().map(|f| (f.name.as_str(), f.value.as_str(), f.inline)).collect();
    assert_eq!(
        fields,
        [
            ("Loot threshold", "`white`", true),
            ("Log channel", "<#5>", true),
            ("Superadmin", "_unset_", true),
            ("Tiers", "• **Main** → <#7>\n• **Elite** → _no runs channel_", false),
        ]
    );
    assert_eq!(
        e.footer.as_deref(),
        Some("Use `/config <setting>` to change · `/setup` for the full wizard")
    );
    g.superadmin_user_id = Some(9);
    g.log_channel_id = None;
    let e = show(&g, &vec![]);
    assert_eq!(e.fields[1].value, "_unset_");
    assert_eq!(e.fields[2].value, "<@9>");
    assert_eq!(e.fields[3].value, "_no tiers — run `/setup` first_");
}

#[test]
fn replies_name_what_they_are_about() {
    let all = vec!["StartRun".to_string(), "EndRun".to_string()];
    assert_eq!(grant_unknown("X", &all), "Unknown action `X`. Valid actions:\nStartRun, EndRun");
    assert_eq!(revoke_unknown("X"), "Unknown action `X`.");
    assert_eq!(tier_not_found("Elite"), "Tier `Elite` not found.");
    assert_eq!(dungeon_not_found("void"), "Dungeon `void` not found.");
    assert_eq!(failure_line(true, 5, "no"), "add <@&5>: no");
    assert_eq!(failure_line(false, 5, "no"), "remove <@&5>: no");
    assert_eq!(unknown_dungeon("void"), "Unknown dungeon `void`.");
    assert_eq!(bound_reply(5, "Void"), "Bound <@&5> as the notification role for **Void**.");
    assert_eq!(cleared_reply("Void"), "Cleared the notification role for **Void**.");
    assert_eq!(
        created_reply(5, "Void"),
        "Created (or reused) <@&5> and bound it as the notification role for **Void**. \
         Users can now run `/pingroles` to subscribe."
    );
    assert_eq!(
        purge_unclear("yes"),
        "The `purge` parameter must be the exact string `PURGE` to confirm. Got `yes`. Run aborted."
    );
    assert_eq!(lock_failed("down"), "Failed to acquire run lock: `down`.");
    assert_eq!(manual_reply(5, "done"), "**<@5>**\ndone");
    assert_eq!(missing_view().content, "This dungeon no longer exists.");
    assert_eq!(tier::created_reply("Main", 3), "Created tier **Main** (id: 3).");
    assert_eq!(tier::exists_reply("Main"), "A tier named `Main` already exists in this server.");
    assert_eq!(tier::deleted_reply("Main"), "Deleted tier **Main**.");
    assert_eq!(tier::edited_reply(&Some("Main".to_string())), "Updated tier **Main**.");
    assert_eq!(
        tier::edited_reply(&None),
        "Tier not found after update — this shouldn't happen."
    );
    assert_eq!(
        tier::add_leader_reply(true, 5, "Main"),
        "Added <@&5> as a leader role for **Main**."
    );
    assert_eq!(tier::add_leader_reply(false, 5, "Main"), "That role already leads this tier.");
    assert_eq!(tier::remove_leader_reply(true, 5, "Main"), "Removed <@&5> as a leader of **Main**.");
    assert_eq!(
        tier::remove_leader_reply(false, 5, "Main"),
        "That role wasn't a leader of this tier."
    );
}

#[test]
fn duplicates_are_told_by_the_error() {
    assert!(tier::is_duplicate("violates unique constraint"));
    assert!(tier::is_duplicate("duplicate key"));
    assert!(!tier::is_duplicate("connection closed"));
    assert!(is_unique_violation(Some("23505")));
    assert!(!is_unique_violation(Some("23503")));
    assert!(!is_unique_violation(None));
}

#[test]
fn answers_of_discord_are_told_apart() {
    assert!(list_answered(200) && list_answered(299));
    assert!(!list_answered(199) && !list_answered(300));
    assert_eq!(
        list_refused("403 Forbidden", "no"),
        "GET application emojis failed (403 Forbidden): no"
    );
    assert_eq!(
        create_refused("400 Bad Request", "no"),
        "create application emoji failed (400 Bad Request): no"
    );
    assert_eq!(
        delete_refused(7, "403 Forbidden", "no"),
        "delete application emoji 7 failed (403 Forbidden): no"
    );
    assert!(size_fits(262_144));
    assert!(!size_fits(262_145));
    assert_eq!(page_count(0), 0);
    assert_eq!(page_count(10), 1);
    assert_eq!(page_count(11), 2);
    assert!(can_self_verify(Some(Some(5))));
    assert!(!can_self_verify(Some(None)));
    assert!(!can_self_verify(None));
    assert_eq!(rarest_bag("a cyan or a white bag"), Some("white".to_string()));
    assert_eq!(rarest_bag("no bag"), None);
}

#[test]
fn trust_comes_from_discord_or_a_grant() {
    let nobody = Standing {
        user_id: 5,
        manages_server: false,
        guild_superadmin: Some(6),
        global_superadmin: None,
        granted: false,
    };
    assert!(!is_trusted(&nobody));
    assert!(can_organize(&nobody, 5));
    assert!(!can_organize(&nobody, 6));
    assert!(is_trusted(&Standing { granted: true, ..nobody }));
    let nobody = Standing { granted: false, ..nobody };
    assert!(is_trusted(&Standing { manages_server: true, ..nobody }));
    let nobody = Standing { manages_server: false, ..nobody };
    assert!(is_trusted(&Standing { guild_superadmin: Some(5), ..nobody }));
    let nobody = Standing { guild_superadmin: None, ..nobody };
    assert!(is_trusted(&Standing { global_superadmin: Some(5), ..nobody }));
}

#[test]
fn active_raids_are_listed() {
    let t = tier(3, "Main", None);
    assert_eq!(build_listing(&t, &vec![]).description.as_deref(), Some("No raids right now."));
    let raid = |is_run, dungeon: &str| ActiveRaid {
        is_run,
        dungeon: dungeon.to_string(),
        leader_user_id: 5,
        channel_id: 7,
    };
    let e = build_listing(&t, &vec![raid(false, "Void"), raid(true, "Nest")]);
    assert_eq!(
        e.description.as_deref(),
        Some("📋 **Void** led by <@5> in <#7>.\n⚔ **Nest** led by <@5> in <#7>.")
    );
    let s = build_start_button(&t);
    match &s.rows.list[0] {
        Row::Buttons(b) => assert_eq!(b.list[0].custom_id, "so:btn:3"),
        Row::Menu(_) => panic!("a button"),
    }
}

#[test]
fn profiles_are_read() {
    let page = "<html><body><h1><span class=\"entity-name\"> Frodo </span></h1>\
                <div class=\"line1 description-line\">my code</div>\
                <div class=\"line2 description-line\"> 123456 </div></body></html>";
    match parse_profile(page) {
        Profile::Page { canonical_ign, description } => {
            assert_eq!(canonical_ign, "Frodo");
            assert_eq!(description.as_deref(), Some("my code\n123456"));
        }
        _ => panic!("a profile"),
    }
    let private = "<html><body><span class=\"entity-name\">Frodo</span></body></html>";
    assert!(matches!(parse_profile(private), Profile::Page { description: None, .. }));
    assert!(matches!(parse_profile("<html></html>"), Profile::NotFound));
}

#[test]
fn custom_emojis_match_by_id() {
    let custom = |id, name: &str| Emoji::Custom { animated: false, id, name: name.to_string() };
    assert!(reaction_types_match(&custom(5, "a"), &custom(5, "b")));
    assert!(!reaction_types_match(&custom(5, "a"), &custom(6, "a")));
    let star = || Emoji::Unicode("⭐".to_string());
    assert!(reaction_types_match(&star(), &star()));
    assert!(!reaction_types_match(&star(), &Emoji::Unicode("⚔".to_string())));
    assert!(!reaction_types_match(&star(), &custom(5, "⭐")));
}
