//! Verification and the setup wizard.

use starship::commands::setup::flow::{
    dashboard_step, initial_draft, intro_step, role_changes, superadmin_step, DashboardStep,
    IntroStep, Picked, SetStep, TierStep,
};
use starship::commands::setup::provision::{
    find_channel, find_role, runs_channel_name, slugify, verify_channel_overwrites, verify_message,
    ChannelInfo, ChannelKind, Right, RoleInfo, VerifyMessage,
};
use starship::commands::setup::start_run_ui::parse_select_i32;
use starship::commands::setup::views::{intro_view, superadmin_view, verify_button_message};
use starship::db::models::PendingVerification;
use starship::db::verification::UpsertResult;
use starship::handlers::inputs::TypedInput;
use starship::handlers::verify::{
    attempt_step, build_ign_modal, check_buttons, code_embed, code_ends, failure_reply, is_plausible_ign,
    manual_outcome, manual_verify_audit_line, nothing_applied, render_manual_outcome, resend_check,
    self_verify_audit_line, submit_step, success_embed, verify_start_step, ApplyOutcome,
    AttemptStep, ManualOutcome, NicknameApplyResult, Outcome, Profile, RoleApplyResult, SubmitStep,
    VerifiedKind, VerifyStartStep,
};

fn text(s: &str) -> String {
    s.to_string()
}

fn pending() -> PendingVerification {
    PendingVerification {
        guild_id: 1,
        discord_user_id: 2,
        claimed_ign: text("bob"),
        code: text("123456"),
        expires_at: 1000,
        created_at: 0,
    }
}

#[test]
fn names_are_asked_for() {
    let f = build_ign_modal();
    assert_eq!(f.custom_id, "verify:submit_ign");
    assert_eq!(f.inputs[0].custom_id, "ign");
    assert!(matches!(verify_start_step(false, None), VerifyStartStep::Refuse(_)));
    assert!(matches!(verify_start_step(true, None), VerifyStartStep::LoadGuild));
    assert!(matches!(verify_start_step(true, Some(None)), VerifyStartStep::Refuse(_)));
    assert!(matches!(verify_start_step(true, Some(Some(None))), VerifyStartStep::Refuse(_)));
    assert!(matches!(verify_start_step(true, Some(Some(Some(5)))), VerifyStartStep::Open(_)));
}

#[test]
fn codes_last_half_an_hour() {
    let end = code_ends(7);
    assert_eq!(end, 1_800_000_007);
    let p = Some(PendingVerification { expires_at: end, ..pending() });
    assert!(matches!(attempt_step(&p, end, &None, &None), AttemptStep::Fetch(_)));
    assert!(matches!(
        attempt_step(&p, end + 1, &None, &None),
        AttemptStep::Done(Outcome::Expired)
    ));
}

#[test]
fn names_are_checked() {
    assert!(is_plausible_ign("Bob"));
    assert!(!is_plausible_ign(""));
    assert!(!is_plausible_ign("B0b"));
    assert!(is_plausible_ign(&"x".repeat(20)));
    assert!(!is_plausible_ign(&"x".repeat(21)));
    let send = |v: &str| {
        let inputs = vec![TypedInput { custom_id: text("ign"), value: Some(text(v)) }];
        match submit_step(true, Some(Some(Some(5))), &inputs) {
            SubmitStep::Issue(n) => format!("issue {n}"),
            SubmitStep::Refuse(t) => t,
            SubmitStep::LoadGuild => text("load"),
        }
    };
    assert_eq!(send(" Bob "), "issue Bob");
    assert_eq!(send("  "), "Please enter your in-game name.");
    assert_eq!(send("B b"), "That doesn't look like a RotMG IGN — it should be 1-12 letters.");
    match submit_step(true, Some(Some(Some(5))), &vec![]) {
        SubmitStep::Refuse(t) => assert_eq!(t, "No IGN provided. Try again."),
        _ => panic!("refused"),
    }
}

#[test]
fn codes_are_given() {
    let e = code_embed("Bob", "123456");
    assert_eq!(
        e.description.as_deref(),
        Some(
            "Almost there. To prove **Bob** is your in-game name:\n\
             \n\
             1. Open <https://www.realmeye.com/player/Bob> and log in.\n\
             2. Edit your description and paste this code:\n\
             ```\n123456\n```\n\
             3. Save the description. Make sure your **profile is set to public** \
             (RealmEye → Settings → Privacy) — that controls description visibility too.\n\
             4. Click **I added it** below.\n\
             \n\
             You can remove the code from your description as soon as \
             verification succeeds. The code expires in 30 minutes — click \
             **New code** if it does."
        )
    );
    assert_eq!(check_buttons().list.len(), 1);
    assert_eq!(resend_check(&Some(pending())).unwrap(), "bob");
    assert_eq!(
        resend_check(&None).unwrap_err(),
        "No pending verification — start over with /verify or the Verify button."
    );
}

#[test]
fn attempts_need_the_code() {
    let page = |d: Option<&str>| {
        Some(Profile::Page { canonical_ign: text("Bob"), description: d.map(text) })
    };
    let p = Some(pending());
    assert!(matches!(
        attempt_step(&None, 0, &None, &None),
        AttemptStep::Done(Outcome::NoPending)
    ));
    assert!(matches!(attempt_step(&p, 1001, &None, &None), AttemptStep::Done(Outcome::Expired)));
    assert!(matches!(attempt_step(&p, 1000, &None, &None), AttemptStep::Fetch(n) if n == "bob"));
    assert!(matches!(
        attempt_step(&p, 0, &Some(Profile::NotFound), &None),
        AttemptStep::Done(Outcome::NotFound)
    ));
    assert!(matches!(
        attempt_step(&p, 0, &page(None), &None),
        AttemptStep::Done(Outcome::Private { .. })
    ));
    assert!(matches!(
        attempt_step(&p, 0, &page(Some("12345")), &None),
        AttemptStep::Done(Outcome::CodeMissing { .. })
    ));
    let good = page(Some("my code: 123456!"));
    assert!(matches!(attempt_step(&p, 0, &good, &None), AttemptStep::Store(n) if n == "Bob"));
    assert!(matches!(
        attempt_step(&p, 0, &good, &Some(UpsertResult::Created)),
        AttemptStep::Done(Outcome::Verified { kind: VerifiedKind::Created, .. })
    ));
    assert!(matches!(
        attempt_step(&p, 0, &good, &Some(UpsertResult::IgnTaken { holder: 4 })),
        AttemptStep::Done(Outcome::IgnTaken { holder: 4 })
    ));
}

#[test]
fn failures_are_explained() {
    let (t, keep) = failure_reply(&Outcome::CodeMissing { canonical_ign: text("Bob") }).unwrap();
    assert_eq!(
        t,
        "Couldn't find your code in <https://www.realmeye.com/player/Bob>'s description. \
         Make sure you saved the description and that your **profile is set to public** \
         (RealmEye → Settings → Privacy), then click **I added it** again."
    );
    assert!(keep);
    let (t, keep) = failure_reply(&Outcome::IgnTaken { holder: 4 }).unwrap();
    assert_eq!(
        t,
        "**<@4>** is already verified with that in-game name in this server. \
         If that's a mistake, ping a moderator."
    );
    assert!(!keep);
    assert!(!failure_reply(&Outcome::NoPending).unwrap().1);
    assert!(!failure_reply(&Outcome::Expired).unwrap().1);
    assert!(!failure_reply(&Outcome::NotFound).unwrap().1);
    assert!(failure_reply(&Outcome::Throttled).unwrap().1);
    assert!(failure_reply(&Outcome::RealmEyeUnavailable).unwrap().1);
    assert!(failure_reply(&Outcome::Private { canonical_ign: text("Bob") }).unwrap().1);
}

#[test]
fn successes_are_shown() {
    let all = ApplyOutcome {
        role: RoleApplyResult::Applied,
        nickname: NicknameApplyResult::Applied,
    };
    let e = success_embed("Bob", &VerifiedKind::Rebound { from: text("Al") }, &all);
    assert_eq!(
        e.description.as_deref(),
        Some(
            "✅ Verified as **Bob** (replaces your previous IGN, _Al_).\n\
             • Verified role: granted.\n• Nickname: set to **Bob**.\n\n\
             Thanks for verifying! You can dismiss this message."
        )
    );
    let e = success_embed("Bob", &VerifiedKind::Created, &nothing_applied());
    assert!(e.description.unwrap().contains(
        "• Verified role: **could not assign** — no Verified role configured. \
         Ask a moderator to grant it manually."
    ));
    assert_eq!(
        render_manual_outcome(&all, "Bob", &manual_outcome(UpsertResult::Created)),
        "✅ Manually verified as **Bob**.\n• Verified role: granted.\n• Nickname: set to **Bob**."
    );
    assert_eq!(
        render_manual_outcome(&nothing_applied(), "Bob", &manual_outcome(UpsertResult::Created))
            .lines()
            .nth(1),
        Some(
            "• Verified role: **could not assign** — no Verified role configured. \
             Ask a moderator to grant it manually."
        )
    );
    assert_eq!(
        render_manual_outcome(&all, "Bob", &ManualOutcome::IgnTaken { holder: 4 }),
        "**<@4>** is already verified with that in-game name."
    );
}

#[test]
fn the_log_names_who_and_what() {
    assert_eq!(
        self_verify_audit_line(5, "Bob", &VerifiedKind::Created),
        "🔐 Verified: <@5> as `Bob`"
    );
    assert_eq!(
        self_verify_audit_line(5, "Bob", &VerifiedKind::Refreshed),
        "🔐 Re-verified: <@5> refreshed as `Bob`"
    );
    assert_eq!(
        self_verify_audit_line(5, "Bob", &VerifiedKind::Rebound { from: text("Al") }),
        "🔐 Rebind: <@5> changed IGN from `Al` to `Bob`"
    );
    assert_eq!(
        manual_verify_audit_line(
            6,
            5,
            "Bob",
            &ManualOutcome::Verified { kind: VerifiedKind::Rebound { from: text("Al") } }
        )
        .as_deref(),
        Some("🔐 Manual-verified by <@6>: <@5> rebound from `Al` to `Bob`")
    );
    assert_eq!(
        manual_verify_audit_line(6, 5, "Bob", &ManualOutcome::IgnTaken { holder: 4 }),
        None
    );
}

#[test]
fn the_wizard_steps() {
    assert!(!intro_view().rows.list.is_empty());
    assert!(!verify_button_message().rows.list.is_empty());
    assert!(!superadmin_view(None).rows.list.is_empty());
    assert!(matches!(intro_step("nothing"), IntroStep::Ignore));
    assert!(matches!(dashboard_step("nothing"), DashboardStep::Ignore));
    assert!(matches!(superadmin_step("nothing", &Picked::Nothing, 1), SetStep::Ignore));
    let mut draft = initial_draft(None, &vec![], &vec![]);
    assert!(matches!(draft.click("nothing", &Picked::Nothing), TierStep::Ignore));
    draft.channel_created(9);
    assert_eq!(draft.runs_channel, Some(9));
    let c = role_changes(&vec![1, 2], &vec![2, 3]);
    assert_eq!(c.add, vec![3]);
    assert_eq!(c.remove, vec![1]);
    assert_eq!(parse_select_i32(&Picked::Texts(vec![text("12")])), Some(12));
    assert_eq!(parse_select_i32(&Picked::Nothing), None);
}

#[test]
fn channels_and_roles_are_reused() {
    let channels = vec![
        ChannelInfo { id: 1, name: text("raids"), kind: ChannelKind::Category, parent: None },
        ChannelInfo { id: 2, name: text("main-runs"), kind: ChannelKind::Text, parent: Some(1) },
    ];
    assert_eq!(find_channel(&channels, ChannelKind::Text, "main-runs", Some(1)), Some(2));
    assert_eq!(find_channel(&channels, ChannelKind::Text, "raids", None), None);
    assert_eq!(find_role(&vec![RoleInfo { id: 3, name: text("Verified") }], "Verified"), Some(3));
    assert_eq!(find_role(&vec![], "Verified"), None);
    assert_eq!(slugify("Elite  Tier!"), "elite-tier");
    assert_eq!(runs_channel_name("Main"), "main-runs");
    let rules = verify_channel_overwrites(1, 2);
    assert_eq!(rules.len(), 2);
    assert_eq!(rules[0].role, 1);
    assert_eq!(rules[0].allow, vec![Right::ViewChannel, Right::ReadHistory]);
    assert_eq!(
        rules[0].deny,
        vec![
            Right::SendMessages,
            Right::AddReactions,
            Right::PublicThreads,
            Right::PrivateThreads
        ]
    );
    assert_eq!((rules[1].role, rules[1].deny.clone()), (2, vec![Right::ViewChannel]));
    assert!(rules[1].allow.is_empty());
    assert!(matches!(verify_message(Some(5), true), VerifyMessage::Keep(5)));
    assert!(matches!(verify_message(Some(5), false), VerifyMessage::Post));
    assert!(matches!(verify_message(None, false), VerifyMessage::Post));
}
