//! What clicks and forms lead to.

use starship::db::models::{BotEmoji, DungeonReaction, DungeonTemplate, Headcount, Run, Tier};
use starship::handlers::headcount::{
    cancel_step, cancelled_by, confirm_step, converted, missing_reactions, reactors_or_floor,
    start_step, too_few_reactors, CancelFacts, CancelStep, ConfirmFacts, ConfirmStep,
    ConvertEnd, ConvertStatement, ReactionCount, StartFacts, StartStep,
};
use starship::handlers::inputs::{extract_input, input_value, TypedInput};
use starship::handlers::routing::{
    component_target, edit_click, edit_form, headcount_click, headcount_form, is_ign_form,
    modal_target, run_click, run_form, so_click, so_form, verify_click, ComponentTarget, EditClick,
    EditForm, HeadcountClick, ModalTarget, RunClick, RunForm, SoClick, VerifyClick,
};
use starship::handlers::run::{
    after_edit, end_notice, run_form_step, run_step, transferred, AfterEdit, RunFacts,
    RunFormFacts, RunFormStep, RunStep,
};
use starship::handlers::self_organize::{
    picker_page, render_picker_page, so_start_step, so_started, so_step, SoFacts, SoStartFacts,
    SoStartStep, SoStep,
};
use starship::name_map::NameMap;
use starship::ui::{Emoji, Row};

fn text(s: &str) -> String {
    s.to_string()
}

fn input(id: &str, value: &str) -> TypedInput {
    TypedInput { custom_id: text(id), value: Some(text(value)) }
}

#[test]
fn ids_lead_to_their_part() {
    assert_eq!(component_target("run:1:cp"), ComponentTarget::Run);
    assert_eq!(component_target("hc:1:start"), ComponentTarget::Headcount);
    assert_eq!(component_target("srui:x"), ComponentTarget::StartRunUi);
    assert_eq!(component_target("so:btn:1"), ComponentTarget::SelfOrganize);
    assert_eq!(component_target("verify:start"), ComponentTarget::Verify);
    assert_eq!(component_target("de:done:_"), ComponentTarget::DungeonEdit);
    assert_eq!(component_target("setup:x"), ComponentTarget::Nobody);
    assert_eq!(modal_target("run:1:loc"), ModalTarget::Run);
    assert_eq!(modal_target("hc:1:confirmstart"), ModalTarget::Headcount);
    assert_eq!(modal_target("so:start:1:2"), ModalTarget::SelfOrganize);
    assert_eq!(modal_target("verify:submit_ign"), ModalTarget::Verify);
    assert_eq!(modal_target("de:create:0"), ModalTarget::DungeonEdit);
    assert_eq!(modal_target("x"), ModalTarget::Nobody);
}

#[test]
fn ids_name_what_they_act_on() {
    assert_eq!(headcount_click("hc:12:start"), Some((12, HeadcountClick::Start)));
    assert_eq!(headcount_click("hc:-3:cancel"), Some((-3, HeadcountClick::Cancel)));
    assert_eq!(headcount_click("hc:x:start"), None);
    assert_eq!(headcount_click("hc:12"), None);
    assert_eq!(headcount_click("hc:12:other"), None);
    assert_eq!(headcount_form("hc:2147483647:confirmstart"), Some(2147483647));
    assert_eq!(headcount_form("hc:2147483648:confirmstart"), None);
    for (word, click) in [
        ("cp", RunClick::ControlPanel),
        ("loc", RunClick::Location),
        ("party", RunClick::Party),
        ("transfer", RunClick::Transfer),
        ("xfer", RunClick::TransferPick),
        ("end", RunClick::End),
    ] {
        assert_eq!(run_click(&format!("run:5:{word}")), Some((5, click)));
    }
    assert_eq!(run_form("run:5:loc"), Some((5, RunForm::Location)));
    assert_eq!(run_form("run:5:party"), Some((5, RunForm::Party)));
    assert_eq!(run_form("run:5:cp"), None);
    assert_eq!(so_click("so:btn:4"), Some((4, SoClick::Open)));
    assert_eq!(so_click("so:page:4:2"), Some((4, SoClick::Page(2))));
    assert_eq!(so_click("so:page:4"), Some((4, SoClick::Page(0))));
    assert_eq!(so_click("so:page:4:x"), Some((4, SoClick::Page(0))));
    assert_eq!(so_click("so:dpick:4"), Some((4, SoClick::Pick)));
    assert_eq!(so_click("so:start:4"), None);
    assert_eq!(so_form("so:start:4:9"), Some((4, 9)));
    assert_eq!(so_form("so:start:4"), None);
    assert_eq!(so_form("so:start:4:x"), None);
    assert!(matches!(edit_click("de:react:7:key"), Some(EditClick::Reactions(7, c)) if c == "key"));
    assert!(edit_click("de:react:7").is_none());
    assert!(matches!(edit_click("de:tiers:7"), Some(EditClick::Tiers(7))));
    assert!(matches!(edit_click("de:scalars:7"), Some(EditClick::Scalars(7))));
    assert!(matches!(edit_click("de:vc:7"), Some(EditClick::Voice(7))));
    assert!(matches!(edit_click("de:tune:7"), Some(EditClick::Tune(7))));
    assert!(matches!(edit_click("de:tunepick:7"), Some(EditClick::TunePick(7))));
    assert!(matches!(edit_click("de:back:7"), Some(EditClick::Back(7))));
    assert!(matches!(edit_click("de:done:_"), Some(EditClick::Done)));
    assert!(edit_click("de:tiers:x").is_none());
    assert_eq!(edit_form("de:create:0"), Some(EditForm::Create(None)));
    assert_eq!(edit_form("de:create:5"), Some(EditForm::Create(Some(5))));
    assert_eq!(edit_form("de:scalarsubmit:5"), Some(EditForm::Scalars(5)));
    assert_eq!(edit_form("de:tunesubmit:5"), Some(EditForm::Tune(5)));
    assert_eq!(edit_form("de:tunesubmit:x"), None);
    assert_eq!(verify_click("verify:check"), VerifyClick::Check);
    assert_eq!(verify_click("verify:other"), VerifyClick::Ignore);
    assert!(is_ign_form("verify:submit_ign"));
}

#[test]
fn inputs_are_found_and_trimmed() {
    let inputs = vec![input("a", " x "), input("a", "y"), input("b", "  ")];
    assert_eq!(extract_input(&inputs, "a").as_deref(), Some(" x "));
    assert_eq!(input_value(&inputs, "a").as_deref(), Some("x"));
    assert_eq!(input_value(&inputs, "b"), None);
    assert_eq!(extract_input(&inputs, "c"), None);
}

fn a_headcount() -> Headcount {
    Headcount {
        id: 12,
        guild_id: 1,
        tier_id: 2,
        dungeon_template_id: 3,
        channel_id: 44,
        message_id: 5,
        leader_user_id: 9,
        location: Some(text("here")),
        party: None,
        created_at: 0,
    }
}

fn a_tier() -> Tier {
    Tier {
        id: 2,
        guild_id: 1,
        name: text("Main"),
        description: None,
        runs_channel_id: Some(55),
        enable_start_run_ui: true,
        start_run_ui_channel_id: None,
        start_run_ui_button_message_id: None,
        start_run_ui_listing_message_id: None,
        hc_idle_minutes: 60,
        hc_cancel_cooldown_seconds: 60,
        hc_min_reactors: 3,
        created_at: 0,
    }
}

fn a_template(id: i32, emoji: Option<&str>) -> DungeonTemplate {
    DungeonTemplate {
        id,
        guild_id: None,
        name: format!("d{id}"),
        display_name: format!("D{id}"),
        emoji: emoji.map(text),
        color: None,
        message_title: None,
        message_description: None,
        thumbnail_url: None,
        image_url: None,
        requires_vc: false,
        showcase_emoji: vec![],
        created_at: 0,
    }
}

fn reaction(name: &str, emoji: &str, needed: i32) -> DungeonReaction {
    DungeonReaction {
        id: 1,
        dungeon_template_id: 3,
        name: text(name),
        display_name: text(name),
        emoji: text(emoji),
        num_required: needed,
        requires_confirmation: false,
        sort_order: 0,
    }
}

#[test]
fn starts_wait_for_reactions() {
    let map: NameMap<BotEmoji> = NameMap::new();
    let list = vec![
        reaction("Join", "✅", 1),
        reaction("Key", "🔑", 1),
        reaction("Extra", "⭐", 0),
        reaction("Hidden", "no_such_emoji", 1),
    ];
    let under = vec![
        ReactionCount { emoji: Emoji::Unicode(text("✅")), count: 2, me: true },
        ReactionCount { emoji: Emoji::Unicode(text("🔑")), count: 1, me: true },
    ];
    assert_eq!(missing_reactions(&list, &map, &under), vec!["Key"]);
    let mut f = StartFacts { headcount: None, organizer: None, missing: None };
    assert!(matches!(start_step(&f, 12), StartStep::LoadHeadcount));
    f.headcount = Some(Some(a_headcount()));
    assert!(matches!(start_step(&f, 12), StartStep::AskOrganizer));
    f.organizer = Some(true);
    assert!(matches!(start_step(&f, 12), StartStep::CountReactions));
    f.missing = Some(vec![text("Key"), text("Slow")]);
    match start_step(&f, 12) {
        StartStep::Refuse(t) => assert_eq!(
            t,
            "Can't start yet — still waiting for at least one reactor on: Key, Slow."
        ),
        _ => panic!("waits"),
    }
    f.missing = Some(vec![]);
    match start_step(&f, 12) {
        StartStep::Open(form) => {
            assert_eq!(form.custom_id, "hc:12:confirmstart");
            assert_eq!(form.inputs[0].value.as_deref(), Some("here"));
        }
        _ => panic!("opens"),
    }
    f.organizer = Some(false);
    match start_step(&f, 12) {
        StartStep::Refuse(t) => {
            assert_eq!(t, "Only the raid leader or users with **ManageRuns** can do that.")
        }
        _ => panic!("refused"),
    }
}

#[test]
fn cancelling_makes_leaders_wait() {
    let mut f = CancelFacts {
        headcount: Some(Some(a_headcount())),
        organizer: Some(true),
        deleted: None,
        canceller: 9,
        self_organized: true,
    };
    assert!(matches!(cancel_step(&f), CancelStep::Delete));
    f.deleted = Some(true);
    assert!(matches!(cancel_step(&f), CancelStep::Close(true)));
    f.canceller = 10;
    assert!(matches!(cancel_step(&f), CancelStep::Close(false)));
    f.deleted = Some(false);
    match cancel_step(&f) {
        CancelStep::Refuse(t) => assert_eq!(t, "This headcount is no longer active."),
        _ => panic!("gone"),
    }
    assert_eq!(cancelled_by(7), "Headcount cancelled by <@7>.");
}

#[test]
fn headcounts_become_runs() {
    assert_eq!(reactors_or_floor(None, &a_tier()), 3);
    assert!(too_few_reactors(&a_tier(), 2, false));
    assert!(!too_few_reactors(&a_tier(), 2, true));
    assert!(!too_few_reactors(&a_tier(), 3, false));
    let mut f = ConfirmFacts {
        headcount: Some(Some(a_headcount())),
        organizer: Some(true),
        template: None,
        tier: None,
        channel_exists: None,
        self_organized: true,
        gate: None,
        inputs: vec![input("location", " USW3 "), input("party", "")],
    };
    assert!(matches!(confirm_step(&f), ConfirmStep::LoadTemplate));
    f.template = Some(None);
    match confirm_step(&f) {
        ConfirmStep::Fail(t) => assert_eq!(t, "template 3 not found"),
        _ => panic!("fails"),
    }
    f.template = Some(Some(a_template(3, None)));
    f.tier = Some(None);
    match confirm_step(&f) {
        ConfirmStep::Fail(t) => assert_eq!(t, "tier 2 not found"),
        _ => panic!("fails"),
    }
    f.tier = Some(Some(a_tier()));
    assert!(matches!(confirm_step(&f), ConfirmStep::AskChannel(55)));
    f.channel_exists = Some(false);
    match confirm_step(&f) {
        ConfirmStep::Refuse(t) => assert_eq!(
            t,
            "Can't post the run — channel <#55> is gone. An admin needs to repoint the tier \
             (`/tier edit` or `/setup`) before this headcount can convert."
        ),
        _ => panic!("gone"),
    }
    f.channel_exists = Some(true);
    assert!(matches!(confirm_step(&f), ConfirmStep::AskGate));
    f.gate = Some(None);
    match confirm_step(&f) {
        ConfirmStep::Convert(plan) => {
            assert_eq!(plan.run.channel_id, 55);
            let h = f.headcount.as_ref().unwrap().as_ref().unwrap();
            let d = f.template.as_ref().unwrap().as_ref().unwrap();
            assert_eq!(plan.run.leader_user_id, h.leader_user_id);
            assert_eq!((plan.run.guild_id, plan.run.tier_id), (h.guild_id, h.tier_id));
            assert_eq!((plan.run.dungeon_template_id, plan.run.is_vc_raid), (d.id, d.requires_vc));
            assert_eq!(
                plan.statements,
                vec![
                    ConvertStatement::CreateRun,
                    ConvertStatement::SwapClaim,
                    ConvertStatement::DeleteHeadcount
                ]
            );
            assert_eq!(plan.location.as_deref(), Some("USW3"));
            assert_eq!(plan.party, None);
        }
        _ => panic!("converts"),
    }
    assert!(matches!(
        converted(true, 55),
        ConvertEnd::Commit(t) if t == "Run posted in <#55>."
    ));
    assert!(matches!(
        converted(false, 55),
        ConvertEnd::Undo(t) if t == "This headcount is no longer active."
    ));
}

fn a_run() -> Run {
    Run {
        id: 5,
        guild_id: 1,
        tier_id: 2,
        dungeon_template_id: 3,
        channel_id: 4,
        message_id: 6,
        leader_user_id: 7,
        location: Some(text("USW3")),
        party: None,
        voice_channel_id: None,
        is_vc_raid: false,
        created_at: 0,
    }
}

#[test]
fn runs_are_managed_by_organizers() {
    let mut f = RunFacts { run: None, organizer: None, picked: None, self_organized: true };
    assert!(matches!(run_step(&f, 5, RunClick::End), RunStep::LoadRun));
    f.run = Some(None);
    match run_step(&f, 5, RunClick::End) {
        RunStep::Refuse(t) => assert_eq!(t, "This run has ended."),
        _ => panic!("ended"),
    }
    f.run = Some(Some(a_run()));
    assert!(matches!(run_step(&f, 5, RunClick::End), RunStep::AskOrganizer));
    f.organizer = Some(true);
    assert!(matches!(run_step(&f, 5, RunClick::End), RunStep::End));
    assert!(matches!(run_step(&f, 5, RunClick::ControlPanel), RunStep::Panel(_)));
    match run_step(&f, 5, RunClick::Location) {
        RunStep::Open(form) => {
            assert_eq!(form.custom_id, "run:5:loc");
            assert_eq!(form.inputs[0].value.as_deref(), Some("USW3"));
        }
        _ => panic!("opens"),
    }
    match run_step(&f, 5, RunClick::Transfer) {
        RunStep::PickLeader(menu) => assert_eq!(menu.custom_id, "run:5:xfer"),
        _ => panic!("menu"),
    }
    assert!(matches!(run_step(&f, 5, RunClick::TransferPick), RunStep::Nothing));
    f.picked = Some(7);
    match run_step(&f, 5, RunClick::TransferPick) {
        RunStep::Refuse(t) => assert_eq!(t, "That's already the leader — pick someone else."),
        _ => panic!("leader"),
    }
    f.picked = Some(8);
    assert!(matches!(run_step(&f, 5, RunClick::TransferPick), RunStep::Transfer(8, true)));
    assert_eq!(transferred(true, 8), "🔁 Leader transferred to <@8>.");
    assert_eq!(transferred(false, 8), "This run has ended.");
    assert_eq!(end_notice(true), "🛑 Run ended.");
    assert_eq!(after_edit(false, false), AfterEdit::Done);
    assert_eq!(after_edit(true, true), AfterEdit::EndRun);
    assert_eq!(after_edit(true, false), AfterEdit::Fail);
}

#[test]
fn run_forms_set_and_clear() {
    let mut f = RunFormFacts {
        run: Some(Some(a_run())),
        organizer: Some(None),
        inputs: vec![input("location", "  "), input("party", "two priests")],
    };
    match run_form_step(&f, RunForm::Location) {
        RunFormStep::Refuse(t) => assert_eq!(t, "You're no longer a member of this server."),
        _ => panic!("left"),
    }
    f.organizer = Some(Some(true));
    match run_form_step(&f, RunForm::Location) {
        RunFormStep::SetLocation(v, t) => {
            assert_eq!(v, None);
            assert_eq!(t, "📍 Location cleared.");
        }
        _ => panic!("clears"),
    }
    match run_form_step(&f, RunForm::Party) {
        RunFormStep::SetParty(v, t) => {
            assert_eq!(v.as_deref(), Some("two priests"));
            assert_eq!(t, "📝 Party updated.");
        }
        _ => panic!("sets"),
    }
}

#[test]
fn dungeon_pages() {
    let p = picker_page(60, 9);
    assert_eq!((p.number, p.total, p.start, p.end), (2, 3, 50, 60));
    let p = picker_page(25, 0);
    assert_eq!((p.number, p.total, p.start, p.end), (0, 1, 0, 25));
    let p = picker_page(26, 1);
    assert_eq!((p.number, p.total, p.start, p.end), (1, 2, 25, 26));
    let shown = render_picker_page(
        &a_tier(),
        picker_page(26, 0),
        &vec![a_template(1, Some("🐍")), a_template(2, Some("ring"))],
    );
    assert_eq!(
        shown.content,
        "Pick a dungeon to start a headcount in **Main**. · Page 1 / 2"
    );
    assert_eq!(shown.components.list.len(), 2);
    match &shown.components.list[1] {
        Row::Buttons(b) => {
            assert_eq!(b.list[0].custom_id, "so:page:2:0");
            assert!(b.list[0].disabled);
            assert_eq!(b.list[1].custom_id, "so:page:2:1");
            assert!(!b.list[1].disabled);
        }
        _ => panic!("buttons"),
    }
    let one = render_picker_page(&a_tier(), picker_page(2, 0), &vec![a_template(1, None)]);
    assert_eq!(one.content, "Pick a dungeon to start a headcount in **Main**.");
    assert_eq!(one.components.list.len(), 1);
}

#[test]
fn members_pick_a_dungeon() {
    let mut f = SoFacts {
        tier: None,
        dungeons: None,
        listed: None,
        picked: vec![],
        template_exists: None,
    };
    assert!(matches!(so_step(&f, 2, SoClick::Open), SoStep::LoadTier));
    f.tier = Some(Some(a_tier()));
    assert!(matches!(so_step(&f, 2, SoClick::Open), SoStep::CountDungeons));
    f.dungeons = Some(0);
    assert!(matches!(so_step(&f, 2, SoClick::Open), SoStep::Refuse(_)));
    assert!(matches!(so_step(&f, 2, SoClick::Page(1)), SoStep::Replace(_)));
    f.dungeons = Some(30);
    match so_step(&f, 2, SoClick::Page(7)) {
        SoStep::LoadDungeons(p) => assert_eq!((p.start, p.end), (25, 30)),
        _ => panic!("loads"),
    }
    f.listed = Some(vec![a_template(1, None)]);
    assert!(matches!(so_step(&f, 2, SoClick::Open), SoStep::Show(_)));
    assert!(matches!(so_step(&f, 2, SoClick::Page(1)), SoStep::Turn(_)));
    assert!(matches!(so_step(&f, 2, SoClick::Pick), SoStep::Nothing));
    f.picked = vec![text("17")];
    assert!(matches!(so_step(&f, 2, SoClick::Pick), SoStep::AskTemplate(17)));
    f.template_exists = Some(true);
    match so_step(&f, 2, SoClick::Pick) {
        SoStep::Open(form) => assert_eq!(form.custom_id, "so:start:2:17"),
        _ => panic!("opens"),
    }
    let mut off = a_tier();
    off.enable_start_run_ui = false;
    f.tier = Some(Some(off));
    assert!(matches!(so_step(&f, 2, SoClick::Pick), SoStep::Refuse(_)));
}

#[test]
fn members_start_headcounts() {
    let mut f = SoStartFacts {
        tier: Some(Some(a_tier())),
        template_exists: Some(true),
        channel_exists: Some(true),
        block: None,
        inputs: vec![input("location", "x"), input("party", " ")],
    };
    assert!(matches!(so_start_step(&f), SoStartStep::AskGate));
    f.block = Some(Some(text("slow down")));
    match so_start_step(&f) {
        SoStartStep::Refuse(t) => assert_eq!(t, "slow down"),
        _ => panic!("blocked"),
    }
    f.block = Some(None);
    match so_start_step(&f) {
        SoStartStep::Start(c, l, p) => {
            assert_eq!(c, 55);
            assert_eq!(l.as_deref(), Some("x"));
            assert_eq!(p, None);
        }
        _ => panic!("starts"),
    }
    f.template_exists = Some(false);
    match so_start_step(&f) {
        SoStartStep::Refuse(t) => assert_eq!(t, "That dungeon is no longer available."),
        _ => panic!("gone"),
    }
    assert_eq!(
        so_started(55),
        "Headcount started in <#55>! React on the message to sign up; click **Start Run** when \
         you're ready."
    );
}
