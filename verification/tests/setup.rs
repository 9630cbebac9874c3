//! The setup wizard: its screens, its clicks, and what it makes.

use starship::commands::setup::flow::{
    create_channels_failed, log_step, opening, post_failed, provision_failed, quick_setup_failed,
    verify_step, Opening, Picked, SetStep, VerifyStep,
};
use starship::commands::setup::provision::{
    find_log_channel, find_main_tier, find_raids_category, find_runs_channel,
    find_start_run_ui_channel, find_verify_channel, runs_channel_name, ChannelInfo, ChannelKind,
};
use starship::commands::setup::quick::{QuickAction, QuickEvent, QuickSetup};
use starship::commands::setup::start_run_ui::{
    begin, repost, toggle, Repost, SoStep, Toggle,
};
use starship::commands::setup::views::{
    dashboard_view, log_channel_view, render_start_run_ui_view, summary_view, tier_view,
    verification_view, verify_button_message, SoView, TierDraft,
};
use starship::db::models::{Guild, Tier};
use starship::ui::{Button, ButtonStyle, Menu, MenuKind, Row, Screen};

fn guild() -> Guild {
    Guild {
        guild_id: 1,
        log_channel_id: None,
        superadmin_user_id: None,
        setup_complete: false,
        loot_tier_threshold: "white".to_string(),
        verified_role_id: None,
        verify_channel_id: None,
        verify_message_id: None,
        created_at: 0,
        updated_at: 0,
    }
}

fn tier(id: i32, name: &str) -> Tier {
    Tier {
        id,
        guild_id: 1,
        name: name.to_string(),
        description: None,
        runs_channel_id: None,
        enable_start_run_ui: false,
        start_run_ui_channel_id: None,
        start_run_ui_button_message_id: None,
        start_run_ui_listing_message_id: None,
        hc_idle_minutes: 15,
        hc_cancel_cooldown_seconds: 300,
        hc_min_reactors: 3,
        created_at: 0,
    }
}

fn buttons(s: &Screen, row: usize) -> &Vec<Button> {
    match &s.rows.list[row] {
        Row::Buttons(b) => &b.list,
        Row::Menu(_) => panic!("a row of buttons"),
    }
}

fn menu(s: &Screen, row: usize) -> &Menu {
    match &s.rows.list[row] {
        Row::Menu(m) => m,
        Row::Buttons(_) => panic!("a menu"),
    }
}

fn labels(s: &Screen, row: usize) -> Vec<&str> {
    buttons(s, row).iter().map(|b| b.label.as_deref().unwrap_or("")).collect()
}

fn body(s: &Screen) -> &str {
    s.embed.description.as_deref().unwrap_or("")
}

#[test]
fn a_new_server_sees_an_empty_dashboard() {
    let s = dashboard_view(&guild(), &vec![], "Realm");
    assert_eq!(
        body(&s),
        "Configure Starship for **Realm**. Click a section to edit.\n\n\
         ⬜ **Tier** *(required)*\n_no tiers yet — set one up to enable **Finish**_\n\n\
         ⬜ **Superadmin** *(bypass for emergencies)*\n\
         _not set (Discord admins still have full access)_\n\n\
         ⬜ **Audit log channel** *(optional)*\n_not set_\n\n\
         ⬜ **Verification** *(optional)*\n_not set_"
    );
    assert_eq!(s.embed.title.as_deref(), Some("🛠 Starship setup"));
    assert_eq!(s.embed.footer.as_deref(), Some("Set up the first tier to enable Finish."));
    assert_eq!(s.embed.color, Some(0x5865F2));
    assert_eq!(labels(&s, 0), ["Setup tier", "Superadmin", "Log channel", "Verification"]);
    assert_eq!(labels(&s, 1), ["Finish setup", "Close"]);
    assert!(buttons(&s, 1)[0].disabled);
    assert_eq!(buttons(&s, 0)[0].style, ButtonStyle::Primary);
    assert_eq!(buttons(&s, 0)[3].style, ButtonStyle::Primary);
}

#[test]
fn a_finished_server_sees_what_is_set() {
    let mut g = guild();
    g.setup_complete = true;
    g.superadmin_user_id = Some(7);
    g.log_channel_id = Some(8);
    g.verified_role_id = Some(9);
    g.verify_channel_id = Some(10);
    g.verify_message_id = Some(11);
    let mut main = tier(1, "Main");
    main.runs_channel_id = Some(5);
    main.enable_start_run_ui = true;
    let s = dashboard_view(&g, &vec![main, tier(2, "Elite")], "Realm");
    assert_eq!(
        body(&s),
        "Configure Starship for **Realm**. Click a section to edit.\n\n\
         ✅ **Tier** *(required)*\n**Main** — runs: <#5> · start-run UI ✅\n\
         _+ 1 more tier(s) — manage with `/tier`._\n\n\
         ✅ **Superadmin** *(bypass for emergencies)*\n<@7>\n\n\
         ✅ **Audit log channel** *(optional)*\n<#8>\n\n\
         ✅ **Verification** *(optional)*\nrole <@&9> in <#10>"
    );
    assert_eq!(labels(&s, 1), ["Save & close", "Close"]);
    assert!(!buttons(&s, 1)[0].disabled);
    assert_eq!(buttons(&s, 0)[0].style, ButtonStyle::Secondary);
    assert_eq!(
        s.embed.footer.as_deref(),
        Some("✨ Already set up — tweak any section and Save & close.")
    );
    g.verify_message_id = None;
    assert!(body(&dashboard_view(&g, &vec![], "Realm"))
        .ends_with("⬜ **Verification** *(optional)*\nrole <@&9> in <#10> — _Verify message not posted yet_"));
    g.verify_channel_id = None;
    assert!(body(&dashboard_view(&g, &vec![], "Realm")).ends_with("role <@&9> — _no channel set_"));
    g.verified_role_id = None;
    g.verify_channel_id = Some(10);
    assert!(body(&dashboard_view(&g, &vec![], "Realm")).ends_with("<#10> — _no role set_"));
}

#[test]
fn a_finished_setup_is_summed_up() {
    let mut main = tier(1, "Main");
    main.runs_channel_id = Some(5);
    let e = summary_view(&main, 12);
    let text = e.description.unwrap();
    assert_eq!(e.title.as_deref(), Some("✨ Setup complete"));
    assert_eq!(e.color, Some(0x57F287));
    assert!(text.starts_with(
        "Starship is ready to raid.\n\n**Main** is live in <#5>.\n\
         12 dungeon(s) are attached to this tier.\n\n**Try it out**\n"
    ));
    assert!(text.ends_with("\n• `/setup` — re-run this wizard any time"));
    main.enable_start_run_ui = true;
    main.start_run_ui_channel_id = Some(6);
    assert!(summary_view(&main, 0).description.unwrap().contains(
        "\n0 dungeon(s) are attached to this tier.\n\n\
         Start-run UI is **enabled** — anyone can start a raid from <#6>.\n\n**Try it out**"
    ));
}

#[test]
fn the_tier_screen_follows_the_draft() {
    let empty = TierDraft { runs_channel: None, leader_roles: vec![], member_roles: vec![] };
    let s = tier_view(None, &empty, 3);
    assert_eq!(s.embed.title.as_deref(), Some("🎯 Setup tier · Main"));
    assert!(body(&s).contains("\n_required — pick one below_\n"));
    assert!(body(&s).contains("🎁 On create, all **3** built-in dungeons will be attached."));
    assert!(body(&s).ends_with("I'll make a Raids category with a `{slug}-runs` text channel for you."));
    assert_eq!(
        labels(&s, 3),
        ["Create tier", "Create default channel", "Configure start-run UI", "← Back"]
    );
    assert!(buttons(&s, 3)[0].disabled);
    assert!(buttons(&s, 3)[2].disabled);
    assert!(matches!(menu(&s, 0).kind, MenuKind::TextChannels(None)));
    assert_eq!((menu(&s, 1).min, menu(&s, 1).max), (0, 10));

    let full = TierDraft { runs_channel: Some(5), leader_roles: vec![8, 9], member_roles: vec![4] };
    let mut t = tier(1, "Elite");
    t.enable_start_run_ui = true;
    let s = tier_view(Some(&t), &full, 3);
    assert!(body(&s).contains("(start, convert, cancel, end)\n<@&8> <@&9>\n"));
    assert!(body(&s).contains("can't manage other people's raids\n<@&4>\n"));
    assert!(body(&s)
        .ends_with("Dungeons are managed via `/tier add-dungeon` and `/tier remove-dungeon`."));
    assert_eq!(labels(&s, 3), ["Save changes", "Configure start-run UI ✅", "← Back"]);
    assert!(buttons(&s, 3).iter().all(|b| !b.disabled));
    match &menu(&s, 1).kind {
        MenuKind::Roles(Some(ids)) => assert_eq!(ids, &vec![8, 9]),
        _ => panic!("the roles that lead"),
    }
}

#[test]
fn settings_can_be_cleared_only_when_set() {
    let s = log_channel_view(None);
    assert!(body(&s).ends_with("Leave empty to disable audit logging.\n\nCurrently: _not set_"));
    assert!(buttons(&s, 1)[0].disabled);
    let s = log_channel_view(Some(8));
    assert!(body(&s).ends_with("Currently: <#8>"));
    assert!(!buttons(&s, 1)[0].disabled);
    assert_eq!(menu(&s, 0).custom_id, "setup:log:pick");

    let s = verification_view(&guild());
    assert!(body(&s).contains(
        "\nRole: _not set_\nChannel: _not set_\nVerify message: ⬜ not posted\n"
    ));
    assert_eq!(labels(&s, 2), ["Post Verify message", "Auto-provision", "Clear", "← Back"]);
    assert!(buttons(&s, 2)[0].disabled && buttons(&s, 2)[2].disabled);
    let mut g = guild();
    g.verified_role_id = Some(9);
    g.verify_channel_id = Some(10);
    g.verify_message_id = Some(11);
    let s = verification_view(&g);
    assert!(body(&s).contains("\nRole: <@&9>\nChannel: <#10>\nVerify message: ✅ posted\n"));
    assert_eq!(labels(&s, 2)[0], "Repost Verify message");
    assert!(!buttons(&s, 2)[0].disabled && !buttons(&s, 2)[2].disabled);
    let s = verify_button_message();
    assert_eq!(buttons(&s, 0)[0].custom_id, "verify:start");
    assert_eq!(labels(&s, 0), ["Verify"]);
}

#[test]
fn picks_are_stored_and_the_rest_leads_back() {
    let channels = Picked::Channels(vec![8, 9]);
    assert_eq!(log_step("setup:log:pick", &channels), SetStep::Store(Some(8)));
    assert_eq!(log_step("setup:log:pick", &Picked::Nothing), SetStep::Back);
    assert_eq!(log_step("setup:log:clear", &Picked::Nothing), SetStep::Store(None));
    assert_eq!(log_step("setup:log:back", &channels), SetStep::Back);
    assert_eq!(log_step("setup:log:else", &channels), SetStep::Ignore);

    let roles = Picked::Roles(vec![u64::MAX]);
    assert_eq!(verify_step("setup:verify:role", &roles), VerifyStep::SetRole(Some(-1)));
    assert_eq!(verify_step("setup:verify:role", &channels), VerifyStep::Redraw);
    assert_eq!(verify_step("setup:verify:channel", &channels), VerifyStep::SetChannel(Some(8)));
    assert_eq!(
        verify_step("setup:verify:channel", &Picked::Channels(vec![])),
        VerifyStep::SetChannel(None)
    );
    assert_eq!(verify_step("setup:verify:post", &Picked::Nothing), VerifyStep::Post);
    assert_eq!(verify_step("setup:verify:auto", &Picked::Nothing), VerifyStep::Auto);
    assert_eq!(verify_step("setup:verify:clear", &Picked::Nothing), VerifyStep::ClearAll);
    assert_eq!(verify_step("setup:verify:back", &Picked::Nothing), VerifyStep::Back);
    assert_eq!(verify_step("setup:log:back", &Picked::Nothing), VerifyStep::Ignore);

    assert_eq!(opening(true), Opening::Dashboard);
    assert_eq!(opening(false), Opening::Intro);
    assert!(quick_setup_failed("no").starts_with("⚠ Quick setup failed: no\n\nMake sure I have"));
    assert!(create_channels_failed("no").starts_with("⚠ Couldn't create channels: no\n"));
    assert!(post_failed("no").starts_with("⚠ Couldn't post the Verify message: no\n"));
    assert!(provision_failed("no").starts_with("⚠ Couldn't auto-provision verification: no\n"));
}

#[test]
fn the_start_run_ui_is_tuned_per_tier() {
    assert!(begin(&vec![]).is_none());
    let mut on = tier(2, "Elite");
    on.enable_start_run_ui = true;
    on.start_run_ui_channel_id = Some(6);
    on.start_run_ui_button_message_id = Some(60);
    let tiers = vec![tier(1, "Main"), on];
    let (mut state, at) = begin(&tiers).unwrap();
    assert_eq!((state.tier_id, state.view, at), (2, SoView::Picker, 1));

    let s = render_start_run_ui_view(&tiers, &tiers[at], state.view);
    assert_eq!(s.embed.title.as_deref(), Some("🚀 Start-run UI — pick a tier"));
    assert!(body(&s).ends_with("\n\n⬜ **Main**\n✅ **Elite** <#6>\n"));
    match &menu(&s, 0).kind {
        MenuKind::Choices(c) => {
            assert_eq!((c[0].label.as_str(), c[0].selected), ("Main", false));
            assert_eq!((c[1].label.as_str(), c[1].selected), ("Elite (enabled)", true));
        }
        _ => panic!("the tiers"),
    }

    let to_main = Picked::Texts(vec!["1".to_string()]);
    assert_eq!(state.click(&tiers, "setup:so:tierpick", &to_main), SoStep::Redraw);
    assert_eq!((state.tier_id, state.view), (1, SoView::Config));
    let s = render_start_run_ui_view(&tiers, &tiers[0], state.view);
    assert!(body(&s).contains(
        "\n**Tier:** Main\n**Status:** ⬜ disabled\n**Sticky channel:** _not set_\n\
         **Headcounts post to:** _not set — set in `Setup tier` or `/tier edit`_\n\
         **Idle window:** 15 minutes\n**Cancel cooldown:** 300 seconds\n**Min reactors:** 3\n"
    ));
    assert_eq!(labels(&s, 4), ["Enable", "Switch tier", "← Back"]);
    match &menu(&s, 2).kind {
        MenuKind::Choices(c) => {
            assert_eq!(c[2].label, "Cooldown: 5 minutes");
            assert!(c[2].selected);
            assert_eq!(c.iter().filter(|o| o.selected).count(), 1);
        }
        _ => panic!("the waits"),
    }

    let five = Picked::Texts(vec!["5".to_string()]);
    assert_eq!(state.click(&tiers, "setup:so:idle", &five), SoStep::SetIdle(5));
    assert_eq!(state.click(&tiers, "setup:so:cooldown", &five), SoStep::SetCooldown(5));
    assert_eq!(state.click(&tiers, "setup:so:min", &five), SoStep::SetMinReactors(5));
    assert_eq!(state.click(&tiers, "setup:so:idle", &Picked::Nothing), SoStep::Redraw);
    assert_eq!(state.click(&tiers, "setup:so:toggle", &Picked::Nothing), SoStep::Toggle);
    assert_eq!(toggle(&tiers[0]), Toggle::NeedsChannel);
    assert_eq!(toggle(&tiers[1]), Toggle::Disable);
    assert_eq!(repost(&tiers[0]), Repost::Off);
    assert_eq!(repost(&tiers[1]), Repost::Post);
    assert_eq!(
        state.click(&tiers, "setup:so:channel", &Picked::Channels(vec![9])),
        SoStep::SetChannel { channel: Some(9), teardown: false }
    );
    state.tier_id = 2;
    assert_eq!(
        state.click(&tiers, "setup:so:channel", &Picked::Channels(vec![9])),
        SoStep::SetChannel { channel: Some(9), teardown: true }
    );
    assert_eq!(
        state.click(&tiers, "setup:so:channel", &Picked::Channels(vec![6])),
        SoStep::SetChannel { channel: Some(6), teardown: false }
    );
    assert_eq!(state.click(&tiers, "setup:so:switch", &Picked::Nothing), SoStep::Redraw);
    assert_eq!(state.view, SoView::Picker);
    assert_eq!(state.click(&tiers, "setup:so:back", &Picked::Nothing), SoStep::Back);
    assert_eq!(state.click(&tiers, "nothing", &Picked::Nothing), SoStep::Ignore);
    state.tier_id = 3;
    assert_eq!(state.click(&tiers, "setup:so:back", &Picked::Nothing), SoStep::Deleted);
    let (state, _) = begin(&vec![tier(4, "Only")]).unwrap();
    assert_eq!(state.view, SoView::Config);
}

fn channel(id: u64, name: &str, kind: ChannelKind, parent: Option<u64>) -> ChannelInfo {
    ChannelInfo { id, name: name.to_string(), kind, parent }
}

#[test]
fn channels_are_reused_by_name_and_place() {
    let all = vec![
        channel(1, "raids", ChannelKind::Category, None),
        channel(2, "elite-runs", ChannelKind::Text, None),
        channel(3, "ELITE-Raid-Room", ChannelKind::Text, Some(1)),
        channel(4, "starship-log", ChannelKind::Other, None),
        channel(5, "Starship-Log", ChannelKind::Text, None),
        channel(6, "verify", ChannelKind::Text, None),
        channel(7, "🔐verify", ChannelKind::Text, None),
        channel(8, "start-a-run", ChannelKind::Text, Some(2)),
    ];
    assert_eq!(find_raids_category(&all), Some(1));
    assert_eq!(runs_channel_name("Elite"), "elite-runs");
    assert_eq!(find_runs_channel(&all, "Elite", 1), Some(3));
    assert_eq!(find_runs_channel(&all, "Main", 1), None);
    let both = vec![
        channel(3, "elite-raid-room", ChannelKind::Text, Some(1)),
        channel(9, "elite-runs", ChannelKind::Text, Some(1)),
    ];
    assert_eq!(find_runs_channel(&both, "Elite", 1), Some(9));
    assert_eq!(find_log_channel(&all), Some(5));
    assert_eq!(find_verify_channel(&all), Some(7));
    assert_eq!(find_start_run_ui_channel(&all, 1), None);
    assert_eq!(find_start_run_ui_channel(&all, 2), Some(8));
    assert_eq!(find_main_tier(&vec![tier(1, "main"), tier(2, "Main")]), Some(1));
    assert_eq!(find_main_tier(&vec![tier(1, "main")]), None);
}

/// The actions that quick setup takes on a server where the tier is there or not.
fn quick_actions(found: Option<i32>) -> Vec<QuickAction> {
    let mut s = QuickSetup::new(77);
    let mut done = Vec::new();
    let mut next_id = 100;
    loop {
        let action = s.action();
        done.push(action);
        let event = match action {
            QuickAction::Finish => return done,
            QuickAction::DefaultChannels => QuickEvent::Channels(1, 2),
            QuickAction::FindTier => QuickEvent::Tier(found),
            QuickAction::CreateTier => QuickEvent::Made(9),
            QuickAction::LogChannel
            | QuickAction::StartRunChannel(_)
            | QuickAction::LeaderRole
            | QuickAction::VerifiedRole
            | QuickAction::VerifyChannel(_)
            | QuickAction::PostVerify(_) => {
                next_id += 1;
                QuickEvent::Found(next_id)
            }
            _ => QuickEvent::Written,
        };
        s.answer(event);
    }
}

#[test]
fn quick_setup_stores_what_it_finds() {
    let known = quick_actions(Some(4));
    assert_eq!(
        known,
        vec![
            QuickAction::DefaultChannels,
            QuickAction::LogChannel,
            QuickAction::StartRunChannel(1),
            QuickAction::FindTier,
            QuickAction::SetRunsChannel(4, 2),
            QuickAction::EnableStartRunUi(4, 102),
            QuickAction::StoreLog(101),
            QuickAction::StoreSuperadmin(77),
            QuickAction::LeaderRole,
            QuickAction::GrantLeader(103),
            QuickAction::VerifiedRole,
            QuickAction::VerifyChannel(104),
            QuickAction::PostVerify(105),
            QuickAction::StoreVerifiedRole(104),
            QuickAction::StoreVerifyChannel(105),
            QuickAction::StoreVerifyMessage(106),
            QuickAction::MarkComplete,
            QuickAction::InstallStickies(4),
            QuickAction::Finish,
        ]
    );
    let new = quick_actions(None);
    assert_eq!(new[4], QuickAction::CreateTier);
    assert_eq!(new[5], QuickAction::SetRunsChannel(9, 2));
    assert_eq!(new.len(), known.len() + 1);
}

#[test]
fn quick_setup_takes_only_answers() {
    let mut s = QuickSetup::new(1);
    s.answer(QuickEvent::Written);
    assert_eq!(s, QuickSetup::new(1));
    s.answer(QuickEvent::Channels(1, u64::MAX));
    s.answer(QuickEvent::Found(3));
    assert_eq!(s.action(), QuickAction::StartRunChannel(1));
    s.answer(QuickEvent::Found(4));
    s.answer(QuickEvent::Tier(Some(5)));
    assert_eq!(s.action(), QuickAction::SetRunsChannel(5, -1));
}
