//! The editor of a dungeon.

use starship::db::models::{BotEmoji, DungeonReaction, DungeonTemplate, Tier};
use starship::handlers::dungeon_edit::color::{parse_color_hex, show_color};
use starship::handlers::dungeon_edit::forms::{
    check_scalars, check_tune, create_step, read_answer, CreateFacts, CreateStep,
};
use starship::handlers::dungeon_edit::reactions::{
    editable_guild, plan_tiers, reactions_step, sort_orders_fit, ReactionsFacts, ReactionsStep,
    TierChange,
};
use starship::handlers::dungeon_edit::view::{
    build_create_modal, build_scalars_form, build_tune_form, format_edit_summary, render_edit_view,
    render_tune_view, snake_to_title, truncate_for_button,
};
use starship::handlers::inputs::TypedInput;
use starship::name_map::NameMap;
use starship::ui::{MenuKind, Row};

fn text(s: &str) -> String {
    s.to_string()
}

fn input(id: &str, value: &str) -> TypedInput {
    TypedInput { custom_id: text(id), value: Some(text(value)) }
}

fn template(guild: Option<i64>) -> DungeonTemplate {
    DungeonTemplate {
        id: 3,
        guild_id: guild,
        name: text("snake_pit"),
        display_name: text("Snake Pit"),
        emoji: None,
        color: Some(0x4500),
        message_title: None,
        message_description: None,
        thumbnail_url: None,
        image_url: None,
        requires_vc: true,
        showcase_emoji: vec![],
        created_at: 0,
    }
}

fn reaction(id: i32, name: &str) -> DungeonReaction {
    DungeonReaction {
        id,
        dungeon_template_id: 3,
        name: text(name),
        display_name: text(name),
        emoji: text(name),
        num_required: 1,
        requires_confirmation: false,
        sort_order: id,
    }
}

fn emoji(name: &str, category: &str) -> BotEmoji {
    BotEmoji {
        id: 1,
        logical_name: text(name),
        discord_emoji_id: 77,
        name_on_discord: text(name),
        animated: false,
        source_guild_id: None,
        category: Some(text(category)),
        realmeye_url: None,
        uploaded_at: 0,
        bag_tier: None,
    }
}

fn tier(id: i32) -> Tier {
    Tier {
        id,
        guild_id: 1,
        name: format!("T{id}"),
        description: None,
        runs_channel_id: None,
        enable_start_run_ui: false,
        start_run_ui_channel_id: None,
        start_run_ui_button_message_id: None,
        start_run_ui_listing_message_id: None,
        hc_idle_minutes: 0,
        hc_cancel_cooldown_seconds: 0,
        hc_min_reactors: 0,
        created_at: 0,
    }
}

#[test]
fn colors_are_read_and_shown() {
    assert_eq!(parse_color_hex(""), Ok(None));
    assert_eq!(parse_color_hex("   "), Ok(None));
    assert_eq!(parse_color_hex("FF4500"), Ok(Some(0xFF4500)));
    assert_eq!(parse_color_hex("##ff4500"), Ok(Some(0xFF4500)));
    assert_eq!(parse_color_hex("a"), Ok(Some(10)));
    for bad in ["#", "1000000", "xyz", "-", "+", "-1", "+a", "FFFFFFFFFFFFFFFFFFFF"] {
        assert_eq!(
            parse_color_hex(bad),
            Err(text("Color must be a hex triplet like `FF4500`.")),
            "{bad}"
        );
    }
    for n in [0i32, 15, 16, 0xFF, 0x4500, 0xFFFFFF, -1, i32::MIN] {
        assert_eq!(show_color(n), format!("{n:06X}"));
    }
    for n in [0i32, 0x4500, 0xABCDEF, 0xFFFFFF] {
        assert_eq!(parse_color_hex(&show_color(n)), Ok(Some(n)));
    }
}

#[test]
fn names_and_labels() {
    assert_eq!(snake_to_title("lost_halls_key"), "Lost Halls Key");
    assert_eq!(snake_to_title("x"), "X");
    let long = "é".repeat(65);
    assert_eq!(truncate_for_button(&long), format!("{}…", "é".repeat(63)));
    let fits = "é".repeat(64);
    assert_eq!(truncate_for_button(&fits), fits);
}

#[test]
fn forms_are_filled_in() {
    let f = build_create_modal(None);
    assert_eq!(f.custom_id, "de:create:0");
    assert_eq!(f.title, "Create dungeon");
    let f = build_create_modal(Some(&template(None)));
    assert_eq!(f.custom_id, "de:create:3");
    assert_eq!(f.title, "Create dungeon (from Snake Pit)");
    assert_eq!(f.inputs[2].value.as_deref(), Some("004500"));
    let f = build_scalars_form(&template(Some(1)), 3);
    assert_eq!(f.custom_id, "de:scalarsubmit:3");
    assert_eq!(f.inputs[0].value.as_deref(), Some("Snake Pit"));
    let f = build_tune_form(&reaction(8, "key"), 8);
    assert_eq!(f.custom_id, "de:tunesubmit:8");
    assert_eq!(f.inputs[3].value.as_deref(), Some("n"));
}

#[test]
fn the_editor_shows_what_is_set() {
    assert_eq!(
        format_edit_summary(&template(Some(1)), 2),
        "**Editing `snake_pit`** — display name **Snake Pit**, color `#004500`, description \
         _unset_, 2 reaction(s) configured.\n_Each change saves immediately. Click Done to close._"
    );
    let mut map: NameMap<BotEmoji> = NameMap::new();
    map.insert("pit_key", emoji("pit_key", "key"));
    let emojis: Vec<BotEmoji> = (0..30)
        .map(|i| emoji(&format!("k{i}"), "key"))
        .chain(vec![emoji("slow", "status_effect")])
        .collect();
    let reactions = vec![reaction(1, "slow"), reaction(2, "k3")];
    let tiers: Vec<Tier> = (0..30).map(tier).collect();
    let v = render_edit_view(
        &template(Some(1)),
        &reactions,
        &map,
        &emojis,
        &tiers,
        &vec![4],
        Some("Note."),
    );
    assert!(v.content.starts_with("Note.\n\n**Editing `snake_pit`**"));
    assert_eq!(v.components.list.len(), 4);
    match &v.components.list[0] {
        Row::Menu(m) => {
            assert_eq!(m.custom_id, "de:react:3:key");
            assert_eq!(m.max, 25);
            match &m.kind {
                MenuKind::Choices(c) => {
                    assert_eq!(c.len(), 25);
                    assert!(c[3].selected && !c[2].selected);
                }
                _ => panic!("choices"),
            }
        }
        _ => panic!("menu"),
    }
    match &v.components.list[2] {
        Row::Menu(m) => match &m.kind {
            MenuKind::Choices(c) => assert!(c[4].selected && !c[5].selected),
            _ => panic!("choices"),
        },
        _ => panic!("menu"),
    }
    let many: Vec<DungeonReaction> = (0..23).map(|i| reaction(i, "x")).collect();
    let t = render_tune_view(3, &many, &map);
    assert_eq!(t.components.list.len(), 5);
    match &t.components.list[4] {
        Row::Buttons(b) => assert_eq!(b.list[0].custom_id, "de:back:3"),
        _ => panic!("buttons"),
    }
}

#[test]
fn selections_change_reactions() {
    let current = vec![reaction(5, "interest"), reaction(9, "slow")];
    let emojis = vec![emoji("slow", "status_effect"), emoji("armor_key", "status_effect")];
    let values = vec![text("armor_key"), text("weak")];
    assert!(sort_orders_fit(&current, &values));
    let f = ReactionsFacts {
        template: Some(Some(template(Some(1)))),
        rows: Some((current, emojis)),
        values,
    };
    match reactions_step(&f, "status_effect") {
        ReactionsStep::Apply(plan) => {
            assert_eq!(plan.removed, vec!["slow"]);
            assert_eq!(plan.added.len(), 2);
            assert_eq!(plan.added[0].name, "armor_key");
            assert_eq!(plan.added[0].display_name, "Armor Key");
            assert_eq!(plan.added[0].num_required, 0);
            assert_eq!(plan.added[0].sort_order, 10);
            assert_eq!(plan.added[1].num_required, 1);
            assert_eq!(plan.added[1].sort_order, 11);
        }
        _ => panic!("applies"),
    }
    let f = ReactionsFacts { template: Some(Some(template(None))), rows: None, values: vec![] };
    match reactions_step(&f, "key") {
        ReactionsStep::Refuse(t) => assert_eq!(
            t,
            "This ephemeral is stale — re-run `/dungeon edit` to fork the global."
        ),
        _ => panic!("stale"),
    }
}

#[test]
fn too_many_reactions_are_refused() {
    let current: Vec<DungeonReaction> = (0..19).map(|i| reaction(i, &format!("r{i}"))).collect();
    let make = |values: Vec<String>| ReactionsFacts {
        template: Some(Some(template(Some(1)))),
        rows: Some(((0..19).map(|i| reaction(i, &format!("r{i}"))).collect(), vec![])),
        values,
    };
    assert!(sort_orders_fit(&current, &vec![text("a")]));
    assert!(matches!(
        reactions_step(&make(vec![text("a"), text("a")]), "key"),
        ReactionsStep::Apply(_)
    ));
    match reactions_step(&make(vec![text("a"), text("b")]), "key") {
        ReactionsStep::Refuse(t) => assert_eq!(
            t,
            "Too many reactions — `key` already has 19 configured, and Discord caps each message \
             at 20."
        ),
        _ => panic!("too many"),
    }
}

#[test]
fn only_the_places_handed_out_must_be_free() {
    let mut last = reaction(5, "slow");
    last.sort_order = i32::MAX - 1;
    let current = vec![last];
    assert!(sort_orders_fit(&current, &vec![text("a")]));
    assert!(sort_orders_fit(&current, &vec![text("slow"), text("a")]));
    assert!(!sort_orders_fit(&current, &vec![text("a"), text("b")]));
    let f = ReactionsFacts {
        template: Some(Some(template(Some(1)))),
        rows: Some((current, vec![emoji("slow", "key"), emoji("a", "key")])),
        values: vec![text("slow"), text("a")],
    };
    match reactions_step(&f, "key") {
        ReactionsStep::Apply(plan) => assert_eq!(plan.added[0].sort_order, i32::MAX),
        _ => panic!("applies"),
    }
}

#[test]
fn tiers_follow_the_selection() {
    let tiers = vec![tier(1), tier(2), tier(3)];
    let plan = plan_tiers(&tiers, &vec![1, 2], &vec![text("2"), text("3"), text("x")]);
    assert_eq!(plan, vec![TierChange { tier: 0, add: false }, TierChange { tier: 2, add: true }]);
    assert_eq!(editable_guild(&Some(template(Some(4)))), Some(4));
    assert_eq!(editable_guild(&Some(template(None))), None);
    assert_eq!(editable_guild(&None), None);
}

fn create(inputs: Vec<TypedInput>) -> CreateFacts {
    CreateFacts { guild_id: Some(1), inputs, inherit: Some(3), taken: None, count: None }
}

fn refusal(f: &CreateFacts) -> String {
    match create_step(f) {
        CreateStep::Refuse(t) => t,
        _ => panic!("not refused"),
    }
}

#[test]
fn dungeons_are_made_within_the_limits() {
    let mut f = create(vec![input("display_name", " Lost Halls "), input("color", "#ff")]);
    match create_step(&f) {
        CreateStep::AskTaken(g, s) => {
            assert_eq!(g, 1);
            assert_eq!(s, "lost_halls");
        }
        _ => panic!("asks"),
    }
    f.taken = Some(false);
    assert!(matches!(create_step(&f), CreateStep::Count(1)));
    f.count = Some(149);
    match create_step(&f) {
        CreateStep::Create(p, note) => {
            assert_eq!(p.name, "lost_halls");
            assert_eq!(p.display_name, "Lost Halls");
            assert_eq!(p.color, Some(255));
            assert_eq!(p.description, None);
            assert_eq!(p.inherit_from, Some(3));
            assert_eq!(note, "Created `lost_halls`. Tune reactions, tiers, and text fields below.");
        }
        _ => panic!("creates"),
    }
    f.count = Some(150);
    assert!(refusal(&f).starts_with("This server is at the cap of 150"));
    f.taken = Some(true);
    assert_eq!(
        refusal(&f),
        "Slug `lost_halls` already exists for this server (or as a global). Pick a different \
         display name."
    );
    f.guild_id = None;
    assert_eq!(refusal(&f), "This command only works in a server.");
    assert_eq!(refusal(&create(vec![])), "Display name can't be empty.");
    assert_eq!(
        refusal(&create(vec![input("display_name", &"x".repeat(81))])),
        "Display name is too long (max 80)."
    );
    assert_eq!(
        refusal(&create(vec![input("display_name", "!!!")])),
        "Display name needs at least one letter or digit so we can derive a slug."
    );
    let long = "x".repeat(41);
    assert_eq!(
        refusal(&create(vec![input("display_name", &long)])),
        format!("Derived slug `{long}` is too long (max 40 chars). Pick a shorter name.")
    );
    let described = |n: usize| {
        create(vec![input("display_name", "A"), input("description", &"é".repeat(n))])
    };
    assert_eq!(refusal(&described(401)), "Description is too long (max 400).");
    assert!(matches!(create_step(&described(400)), CreateStep::AskTaken(1, _)));
    let mut bad = create(vec![input("display_name", "A"), input("color", "zz")]);
    bad.taken = Some(false);
    assert_eq!(refusal(&bad), "Color must be a hex triplet like `FF4500`.");
}

#[test]
fn texts_are_changed() {
    let inputs = vec![input("display_name", "New"), input("description", "  "), input("color", "")];
    match check_scalars(&Some(template(Some(1))), &inputs) {
        Ok(u) => {
            assert_eq!(u.display_name, "New");
            assert_eq!(u.description, "");
            assert_eq!(u.color, None);
            assert_eq!(u.name, "snake_pit");
        }
        Err(t) => panic!("{t}"),
    }
    assert_eq!(check_scalars(&None, &inputs).unwrap_err(), "This dungeon no longer exists.");
    assert_eq!(
        check_scalars(&Some(template(None)), &inputs).unwrap_err(),
        "Globals can't be edited directly."
    );
    let described = |n: usize| {
        vec![input("display_name", "New"), input("description", &"é".repeat(n))]
    };
    assert_eq!(
        check_scalars(&Some(template(Some(1))), &described(401)).unwrap_err(),
        "Description is too long (max 400)."
    );
    assert!(check_scalars(&Some(template(Some(1))), &described(400)).is_ok());
}

fn tune(name: &str, number: &str, place: &str, confirm: &str) -> Vec<TypedInput> {
    vec![
        input("display_name", name),
        input("num_required", number),
        input("sort_order", place),
        input("requires_confirmation", confirm),
    ]
}

#[test]
fn reactions_are_tuned() {
    let r = Some(reaction(1, "key"));
    let p = Some(template(Some(1)));
    match check_tune(&r, &p, &tune(" Key ", "20", "-3", " YES ")) {
        Ok(u) => {
            assert_eq!(u.display_name, "Key");
            assert_eq!((u.num_required, u.sort_order, u.requires_confirmation), (20, -3, true));
        }
        Err(t) => panic!("{t}"),
    }
    let err = |inputs: Vec<TypedInput>| check_tune(&Some(reaction(1, "key")), &Some(template(Some(1))), &inputs).unwrap_err();
    assert_eq!(err(tune("", "1", "1", "y")), "Display name must be 1-40 chars.");
    assert_eq!(err(tune("x", "21", "1", "y")), "`num_required` must be a number 0-20.");
    assert_eq!(err(tune("x", "-1", "1", "y")), "`num_required` must be a number 0-20.");
    assert_eq!(err(tune("x", "1", "one", "y")), "`sort_order` must be an integer.");
    assert_eq!(err(tune("x", "1", "1", "maybe")), "`requires_confirmation` must be `y`/`n`.");
    assert_eq!(
        check_tune(&None, &p, &tune("x", "1", "1", "y")).unwrap_err(),
        "That reaction no longer exists."
    );
    assert_eq!(
        check_tune(&r, &Some(template(None)), &tune("x", "1", "1", "y")).unwrap_err(),
        "This ephemeral is stale — re-run `/dungeon edit` to fork the global."
    );
    assert_eq!(read_answer("1"), Some(true));
    assert_eq!(read_answer("no"), Some(false));
}
