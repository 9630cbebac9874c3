//! What holds raids within bounds.

use starship::db::models::{Headcount, Run, Tier};
use starship::gates::{
    check_can_convert, check_can_start, is_headcount_stale, is_run_left_behind, StartBlock,
    StartDecision, Starter,
};

fn tier() -> Tier {
    Tier {
        id: 2,
        guild_id: 1,
        name: "Main".to_string(),
        description: None,
        runs_channel_id: None,
        enable_start_run_ui: true,
        start_run_ui_channel_id: None,
        start_run_ui_button_message_id: None,
        start_run_ui_listing_message_id: None,
        hc_idle_minutes: 10,
        hc_cancel_cooldown_seconds: 60,
        hc_min_reactors: 3,
        created_at: 0,
    }
}

fn headcount() -> Headcount {
    Headcount {
        id: 12,
        guild_id: 1,
        tier_id: 2,
        dungeon_template_id: 3,
        channel_id: 4,
        message_id: 5,
        leader_user_id: 9,
        location: None,
        party: None,
        created_at: 1_000_000_000,
    }
}

#[test]
fn runs_end_after_a_day() {
    let run = Run {
        id: 1,
        guild_id: 1,
        tier_id: 1,
        dungeon_template_id: 1,
        channel_id: 1,
        message_id: 1,
        leader_user_id: 1,
        location: None,
        party: None,
        voice_channel_id: None,
        is_vc_raid: false,
        created_at: 0,
    };
    assert!(!is_run_left_behind(&run, 86_400_000_000));
    assert!(is_run_left_behind(&run, 86_400_000_001));
}

#[test]
fn headcounts_go_stale() {
    assert!(!is_headcount_stale(&headcount(), &tier(), 1_600_000_000));
    assert!(is_headcount_stale(&headcount(), &tier(), 1_600_000_001));
}

#[test]
fn starts_are_held_back() {
    let free = Starter { organizer: false, cooldown: None, raids: 0 };
    let holder = Some(headcount());
    assert_eq!(check_can_start(free, &None, &tier(), 1_500_000_000), StartDecision::Allowed);
    assert_eq!(
        check_can_start(free, &holder, &tier(), 1_500_000_000),
        StartDecision::Blocked(StartBlock::SlotInUse(9))
    );
    assert_eq!(check_can_start(free, &holder, &tier(), 1_600_000_001), StartDecision::Displace(12));
    let waiting = Starter { organizer: false, cooldown: Some(2000), raids: 1 };
    assert_eq!(
        check_can_start(waiting, &None, &tier(), 1999),
        StartDecision::Blocked(StartBlock::Cooldown(2000))
    );
    assert_eq!(
        check_can_start(waiting, &None, &tier(), 2000),
        StartDecision::Blocked(StartBlock::RaidLimit)
    );
    let trusted = Starter { organizer: true, ..waiting };
    assert_eq!(check_can_start(trusted, &None, &tier(), 1999), StartDecision::Allowed);
    assert_eq!(
        StartBlock::Cooldown(2_000_999_999).user_message(),
        "You cancelled a headcount recently. Try again <t:2000:R>."
    );
    assert_eq!(
        StartBlock::Cooldown(-1).user_message(),
        "You cancelled a headcount recently. Try again <t:-1:R>."
    );
    assert_eq!(
        StartBlock::SlotInUse(9).user_message(),
        "Another raid is up for that dungeon (led by <@9>)."
    );
    assert!(!StartBlock::RaidLimit.user_message().is_empty());
}

#[test]
fn runs_need_reactors() {
    assert_eq!(check_can_convert(&tier(), 3, false), None);
    assert_eq!(check_can_convert(&tier(), 0, true), None);
    assert_eq!(
        check_can_convert(&tier(), 2, false).as_deref(),
        Some("Not enough reactors yet: 2 of 3.")
    );
}
