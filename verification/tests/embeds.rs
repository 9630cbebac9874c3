//! What messages look like.

use starship::db::models::{
    BagTier, BotEmoji, DungeonReaction, DungeonTemplate, Participant, Run,
};
use starship::embeds::headcount;
use starship::embeds::loot_fields::{
    build_loot_fields, build_loot_fields_all, tier_display_name, tier_field_label,
};
use starship::embeds::run;
use starship::name_map::NameMap;
use starship::ui::{Button, Emoji, Row, Screen};

fn text(s: &str) -> String {
    s.to_string()
}

fn template() -> DungeonTemplate {
    DungeonTemplate {
        id: 3,
        guild_id: None,
        name: text("snake_pit"),
        display_name: text("Snake Pit"),
        emoji: Some(text("🐍")),
        color: None,
        message_title: None,
        message_description: None,
        thumbnail_url: Some(text("https://x/t.png")),
        image_url: None,
        requires_vc: false,
        showcase_emoji: vec![],
        created_at: 0,
    }
}

fn reaction(id: i32, name: &str, emoji: &str, confirm: bool) -> DungeonReaction {
    DungeonReaction {
        id,
        dungeon_template_id: 3,
        name: text(name),
        display_name: text(name),
        emoji: text(emoji),
        num_required: 1,
        requires_confirmation: confirm,
        sort_order: id,
    }
}

fn emoji(name: &str, tier: Option<&str>) -> BotEmoji {
    BotEmoji {
        id: 1,
        logical_name: text(name),
        discord_emoji_id: 77,
        name_on_discord: text(name),
        animated: false,
        source_guild_id: None,
        category: None,
        realmeye_url: None,
        uploaded_at: 0,
        bag_tier: tier.map(text),
    }
}

fn tiers() -> Vec<BagTier> {
    vec![
        BagTier { name: text("purple"), sort_order: 2, default_emoji: text("🟪") },
        BagTier { name: text("white"), sort_order: 8, default_emoji: text("⬜") },
    ]
}

fn buttons(screen: &Screen) -> Vec<&Button> {
    let mut out = Vec::new();
    for row in &screen.rows.list {
        if let Row::Buttons(b) = row {
            out.extend(b.list.iter());
        }
    }
    out
}

#[test]
fn headcount_screen() {
    let map: NameMap<BotEmoji> = NameMap::new();
    let reactions = vec![reaction(1, "Join", "✅", false)];
    let s = headcount::build(12, &template(), &reactions, &map, 9, &tiers());
    assert_eq!(s.embed.title.as_deref(), Some("Snake Pit Headcount"));
    assert_eq!(
        s.embed.description.as_deref(),
        Some("React below to sign up!\n\nLeader: <@9>\n\n**React with:** ✅ Join")
    );
    assert_eq!(s.embed.color, Some(0x5865F2));
    let b = buttons(&s);
    assert_eq!(b[0].custom_id, "hc:12:start");
    assert_eq!(b[1].custom_id, "hc:12:cancel");
}

#[test]
fn closed_headcounts_are_grey() {
    let map: NameMap<BotEmoji> = NameMap::new();
    let e = headcount::build_closed(&template(), &map, "Cancelled.", true);
    assert_eq!(e.title.as_deref(), Some("🐍 Snake Pit Headcount"));
    assert_eq!(e.color, Some(0x808080));
    assert_eq!(headcount::build_closed(&template(), &map, "x", false).color, Some(0x57F287));
}

#[test]
fn emojis_are_resolved() {
    let mut map: NameMap<BotEmoji> = NameMap::new();
    map.insert("ring", emoji("ring", None));
    assert_eq!(headcount::emoji_str("ring", &map), "<:ring:77>");
    assert_eq!(headcount::emoji_str("✅", &map), "✅");
    assert_eq!(headcount::emoji_str("unknown", &map), "");
    assert!(matches!(headcount::emoji_rt("ring", &map), Some(Emoji::Custom { id: 77, .. })));
    assert!(matches!(headcount::emoji_rt("✅", &map), Some(Emoji::Unicode(_))));
    assert!(headcount::emoji_rt("unknown", &map).is_none());
}

#[test]
fn loot_is_grouped_by_bag() {
    assert_eq!(tier_display_name("white"), "White");
    assert_eq!(tier_display_name("élite"), "Élite");
    assert_eq!(tier_field_label("shiny"), "Shinies");
    let mut map: NameMap<BotEmoji> = NameMap::new();
    map.insert("ring", emoji("ring", Some("white")));
    map.insert("cup", emoji("cup", Some("purple")));
    let showcase = vec![text("cup"), text("ring"), text("missing")];
    let all = build_loot_fields_all(&showcase, &map, &tiers());
    assert_eq!(all.len(), 2);
    assert_eq!((all[0].name.as_str(), all[0].value.as_str()), ("⬜ White Bags", "<:ring:77>"));
    assert_eq!((all[1].name.as_str(), all[1].value.as_str()), ("🟪 Purple Bags", "<:cup:77>"));
    assert!(!all[0].inline);
    let some = build_loot_fields(&showcase, &map, &tiers(), "white");
    assert_eq!(some.len(), 1);
    assert_eq!(some[0].value, "<:ring:77>");
    assert!(build_loot_fields(&showcase, &map, &tiers(), "unknown").is_empty());
    map.insert("bag_white", emoji("bag_white", None));
    let some = build_loot_fields(&showcase, &map, &tiers(), "white");
    assert_eq!(some[0].name, "<:bag_white:77> White Bags");
}

fn a_run() -> Run {
    Run {
        id: 5,
        guild_id: 1,
        tier_id: 2,
        dungeon_template_id: 3,
        channel_id: 4,
        message_id: 6,
        leader_user_id: 7,
        location: Some(text("USW3")),
        party: None,
        voice_channel_id: None,
        is_vc_raid: false,
        created_at: 0,
    }
}

#[test]
fn run_screen_lists_everyone_once() {
    let map: NameMap<BotEmoji> = NameMap::new();
    let people = vec![
        Participant { user_id: 20, dungeon_reaction_id: None, confirmed: false },
        Participant { user_id: 10, dungeon_reaction_id: None, confirmed: false },
        Participant { user_id: 20, dungeon_reaction_id: Some(1), confirmed: true },
    ];
    let reactions = vec![reaction(1, "Key", "🔑", true)];
    let s = run::build(&a_run(), &template(), &reactions, &people, &map, &tiers(), "white");
    let fields: Vec<(&str, &str, bool)> =
        s.embed.fields.iter().map(|f| (f.name.as_str(), f.value.as_str(), f.inline)).collect();
    assert_eq!(
        fields,
        [
            ("🔑 Key (1/1)", "✅ <@20>", true),
            ("👥 Joined (2)", "<@10>, <@20>", false),
        ]
    );
    assert_eq!(s.embed.title.as_deref(), Some("🐍 Snake Pit Run"));
    assert_eq!(s.embed.description.as_deref(), Some("**Leader:** <@7>\n**Location:** `USW3`"));
    assert_eq!(s.embed.thumbnail.as_deref(), Some("https://x/t.png"));
    let ids: Vec<&str> = buttons(&s).iter().map(|b| b.custom_id.as_str()).collect();
    assert_eq!(ids, ["run:5:join", "run:5:leave", "run:5:cp", "run:5:confirm:1"]);
    assert_eq!(buttons(&s)[3].label.as_deref(), Some("Bring Key"));
    for row in &s.rows.list {
        if let Row::Buttons(b) = row {
            assert!(b.list.len() <= 5);
        }
    }
    let ended =
        run::build_ended(&a_run(), &template(), &reactions, &people, &map, &tiers(), "white");
    assert_eq!(ended.title.as_deref(), Some("🐍 Snake Pit Run — ended"));
    assert_eq!(ended.color, Some(0x808080));
    assert_eq!(ended.fields[0].name, "🔑 Key");
    assert_eq!(ended.fields[0].value, "✅ <@20>");
    assert_eq!(ended.fields[1].value, "<@10>, <@20>");
    let nobody = run::build_ended(&a_run(), &template(), &reactions, &vec![], &map, &tiers(), "white");
    assert_eq!(nobody.fields.len(), 1);
    assert_eq!(nobody.fields[0].name, "👥 Joined (0)");
    assert_eq!(nobody.fields[0].value, "_none_");
    let mut on_voice = a_run();
    on_voice.party = Some(text("2 knights"));
    on_voice.voice_channel_id = Some(44);
    let s = run::build(&on_voice, &template(), &vec![], &vec![], &map, &tiers(), "white");
    assert_eq!(
        s.embed.description.as_deref(),
        Some("**Leader:** <@7>\n**Location:** `USW3`\n**Party:** 2 knights\n**Voice:** <#44>")
    );
}

#[test]
fn control_panel_buttons() {
    let s = run::control_panel(&a_run());
    let ids: Vec<&str> = buttons(&s).iter().map(|b| b.custom_id.as_str()).collect();
    assert_eq!(ids, vec!["run:5:loc", "run:5:party", "run:5:transfer", "run:5:end"]);
}
