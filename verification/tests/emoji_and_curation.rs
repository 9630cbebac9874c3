//! Emojis: pictures, the registry on Discord, curation, and runs of the scraper.

use starship::cli::curate::{
    apply_cleanup, drop_choices, dungeons_to_prompt, is_bare, keep_nothing, kept_picks,
    prompt_header, reaction_choices, wanted, ReactionRow,
};
use starship::cli::curating::{CurateAction, CurateEvent, CurateSession};
use starship::cli::sync_wiki::run::{
    is_yes, purge_confirmed, SyncAction, SyncEvent, SyncRun,
};
use starship::cli::sync_wiki::scrape::{DropItem, DungeonEntry, ItemBagInfo};
use starship::cli::sync_wiki::session::{
    told, SessionAction, SessionEvent, SyncSession, Told,
};
use starship::cli::upload_emoji::{check_upload, upload_done, upload_refused, UploadError};
use starship::commands::upload_emoji::{
    check_attachment, reply_err, upload_reply, upload_request_step, AttachmentError, UploadStep,
};
use starship::curation::{Curation, DungeonCuration, SnapshotDungeon, SnapshotEmoji};
use starship::db::emoji::{
    create_status, deletion_done, parse_created, parse_emoji_list, ApplicationEmojiClient, Created,
    CreateStatus,
};
use starship::db::loot::{get_threshold, resolve_bag_emoji, show_emoji};
use starship::db::models::{BagTier, BotEmoji};
use starship::name_map::NameMap;
use starship::picture::{emoji_data_uri, emoji_image, is_png, PictureError, EMOJI_MAX_SIDE};

fn text(s: &str) -> String {
    s.to_string()
}

fn png(width: u32, height: u32) -> Vec<u8> {
    let img = image::DynamicImage::new_rgba8(width, height);
    let mut out = std::io::Cursor::new(Vec::new());
    img.write_to(&mut out, image::ImageFormat::Png).expect("a PNG file");
    out.into_inner()
}

#[test]
fn pictures_are_fitted() {
    let wide = png(300, 100);
    let small = emoji_image(&wide).expect("decodes");
    assert!(is_png(&small));
    let back = image::load_from_memory(&small).expect("decodes");
    assert!(back.width() <= EMOJI_MAX_SIDE && back.height() <= EMOJI_MAX_SIDE);
    assert_eq!((back.width(), back.height()), (128, 43));
    assert!(small != wide);
    assert!(matches!(emoji_image(b"not a picture"), Err(PictureError::Decode(_))));
}

#[test]
fn pictures_become_addresses() {
    assert_eq!(emoji_data_uri(b"Man"), "data:image/png;base64,TWFu");
    assert_eq!(emoji_data_uri(b"Ma"), "data:image/png;base64,TWE=");
    assert_eq!(emoji_data_uri(b"M"), "data:image/png;base64,TQ==");
    assert_eq!(emoji_data_uri(b""), "data:image/png;base64,");
    assert_eq!(emoji_data_uri(&[0xfb, 0xff]), "data:image/png;base64,+/8=");
}

#[test]
fn the_registry_is_read() {
    let body = r#"{"items":[{"id":"12","name":"key","animated":true},
        {"id":"x","name":"bad"},{"id":"13"},{"id":"14","name":"ring"}]}"#;
    let map = parse_emoji_list(body).expect("JSON");
    assert_eq!(map.len(), 2);
    assert_eq!(map.get("key"), Some(&(12, true)));
    assert_eq!(map.get("ring"), Some(&(14, false)));
    assert!(parse_emoji_list("no json").is_none());
    assert_eq!(parse_emoji_list("{}").map(|m| m.len()), Some(0));
}

#[test]
fn new_emojis_are_read() {
    assert!(matches!(parse_created(r#"{"id":"7","animated":true}"#), Created::Emoji(7, true)));
    assert!(matches!(parse_created(r#"{"id":"7"}"#), Created::Emoji(7, false)));
    assert!(matches!(parse_created("x"), Created::NotJson));
    assert!(matches!(parse_created(r#"{"id":7}"#), Created::IdNotText));
    assert!(matches!(parse_created(r#"{"id":"x"}"#), Created::IdNotNumber));
}

#[test]
fn answers_of_discord() {
    assert!(matches!(create_status(429), CreateStatus::RateLimited));
    assert!(matches!(create_status(400), CreateStatus::Refused));
    assert!(matches!(create_status(201), CreateStatus::Answered));
    assert!(deletion_done(204));
    assert!(deletion_done(404));
    assert!(!deletion_done(500));
    let client = ApplicationEmojiClient::new("tok", 5);
    assert_eq!(client.base_url(), "https://discord.com/api/v10/applications/5/emojis");
    assert_eq!(client.emoji_url(6), "https://discord.com/api/v10/applications/5/emojis/6");
    assert_eq!(client.auth(), "Bot tok");
}

#[test]
fn uploads_are_checked() {
    let file = png(1, 1);
    assert_eq!(check_upload(&file, "wine_cellar", None).unwrap(), "wine_cellar");
    assert_eq!(check_upload(&file, "x", Some(text("name"))).unwrap(), "name");
    let long = "n".repeat(33);
    match check_upload(&file, "x", Some(long.clone())) {
        Err(e) => assert_eq!(
            upload_refused(&e, "p"),
            format!("Discord-side name `{long}` is >32 chars. Pass a shorter value via --discord-name.")
        ),
        Ok(_) => panic!("too long"),
    }
    match check_upload(b"GIF89a", "x", None) {
        Err(UploadError::NotPng) => {}
        _ => panic!("no PNG"),
    }
    assert_eq!(
        upload_refused(&UploadError::NotPng, "a.gif"),
        "a.gif: not a PNG (magic bytes don't match)"
    );
    assert_eq!(upload_done("a", "b", 3), "✔ uploaded `a` as <:b:3>");
}

#[test]
fn only_the_operator_uploads() {
    let file = png(1, 1);
    let ask = |operator: bool, size: u32, file: Option<&Vec<u8>>, given: Option<&str>| {
        match upload_request_step(operator, size, file, "Ring!", given.map(text)) {
            UploadStep::Refuse(t) => t,
            UploadStep::Download => text("download"),
            UploadStep::Upload(n) => format!("upload {n}"),
        }
    };
    assert_eq!(ask(false, 300_000, Some(&file), None), "Not authorized.");
    assert_eq!(
        ask(true, 300_000, None, None),
        "⚠ Attachment is 292KB — Discord's app-emoji limit is 256KB."
    );
    assert_eq!(ask(true, 100, None, Some("")), "download");
    assert_eq!(
        ask(true, 100, Some(&vec![1, 2]), None),
        "⚠ Attachment isn't a PNG (magic bytes don't match)."
    );
    assert_eq!(
        ask(true, 100, Some(&file), Some("")),
        "⚠ Derived Discord-side name is empty after sanitising."
    );
    assert!(ask(true, 100, Some(&file), Some(&"n".repeat(40))).contains("is 40 chars"));
    assert_eq!(ask(true, 100, Some(&file), None), "upload ring");
}

#[test]
fn attachments_are_checked() {
    let file = png(1, 1);
    assert!(check_attachment(100, &file, "ring", None).is_ok());
    assert!(matches!(
        check_attachment(262_145, &file, "ring", None),
        Err(AttachmentError::TooLarge(262_145))
    ));
    assert!(matches!(check_attachment(1, b"x", "ring", None), Err(AttachmentError::NotPng)));
    assert!(matches!(check_attachment(1, &file, "  ", None), Err(AttachmentError::NameEmpty)));
    assert!(matches!(
        check_attachment(1, &file, "ring", Some("n".repeat(40))),
        Err(AttachmentError::NameTooLong(_))
    ));
    assert_eq!(
        reply_err(&AttachmentError::NotPng),
        "⚠ Attachment isn't a PNG (magic bytes don't match)."
    );
    assert_eq!(
        reply_err(&AttachmentError::TooLarge(300 * 1024 + 5)),
        "⚠ Attachment is 300KB — Discord's app-emoji limit is 256KB."
    );
    assert_eq!(
        reply_err(&AttachmentError::NameEmpty),
        "⚠ Derived Discord-side name is empty after sanitising."
    );
    assert_eq!(
        upload_reply("a", "b", 3, true),
        "✔ Uploaded `a` as <a:b:3> (Discord name: `b`, id: `3`)."
    );
}

fn emoji(name: &str) -> BotEmoji {
    BotEmoji {
        id: 1,
        logical_name: text(name),
        discord_emoji_id: 99,
        name_on_discord: text(name),
        animated: false,
        source_guild_id: None,
        category: None,
        realmeye_url: None,
        uploaded_at: 0,
        bag_tier: None,
    }
}

#[test]
fn bags_show_their_emoji() {
    let tier = BagTier { name: text("white"), sort_order: 8, default_emoji: text("⬜") };
    let mut map: NameMap<BotEmoji> = NameMap::new();
    assert_eq!(resolve_bag_emoji(&tier, &map), "⬜");
    map.insert("bag_white", emoji("bag_white"));
    assert_eq!(resolve_bag_emoji(&tier, &map), "<:bag_white:99>");
    let mut moving = emoji("x");
    moving.animated = true;
    assert_eq!(show_emoji(&moving), "<a:x:99>");
    assert_eq!(get_threshold(Some(text("cyan"))), "cyan");
    assert_eq!(get_threshold(None), "white");
}

fn dungeon(name: &str, drops: &[&str]) -> SnapshotDungeon {
    SnapshotDungeon {
        name: text(name),
        display_name: text(name),
        wiki_path: text("/wiki/x"),
        portal: Some(SnapshotEmoji { logical_name: format!("portal_{name}"), img_url: text("u") }),
        key: None,
        drops: drops
            .iter()
            .map(|d| SnapshotEmoji { logical_name: text(d), img_url: text("u") })
            .collect(),
    }
}

#[test]
fn curated_dungeons_keep_what_is_listed() {
    let mut c = Curation::empty();
    assert!(!c.is_curated("pit"));
    assert!(c.should_keep_drop("pit", "ring"));
    assert!(c.should_keep_reaction("pit", "key"));
    c.record("pit", DungeonCuration { reactions: vec![text("key")], drops: vec![text("ring")] });
    assert!(c.is_curated("pit"));
    assert!(c.should_keep_drop("pit", "ring"));
    assert!(!c.should_keep_drop("pit", "cup"));
    assert!(c.should_keep_reaction("pit", "key"));
    assert!(!c.should_keep_reaction("pit", "slow"));
    assert!(c.should_keep_drop("cave", "cup"));
}

#[test]
fn curation_prompts() {
    let list = vec![dungeon("pit", &["ring"]), dungeon("cave", &[])];
    let mut c = Curation::empty();
    c.record("pit", keep_nothing());
    assert_eq!(dungeons_to_prompt(&list, &c, false), vec![1]);
    assert_eq!(dungeons_to_prompt(&list, &c, true), vec![0, 1]);
    assert!(is_bare(&vec![], &vec![]));
    assert!(!is_bare(&vec![], &list[0].drops));
    assert_eq!(prompt_header(0, 2, "Pit"), "\n── [1/2] Pit ──────────────────────────");
    let rows = vec![
        ReactionRow { name: text("key"), display_name: text("Key") },
        ReactionRow { name: text("slow"), display_name: text("Slow") },
    ];
    let prior = DungeonCuration { reactions: vec![text("slow")], drops: vec![] };
    assert_eq!(reaction_choices(&rows, Some(&prior)).defaults, vec![false, true]);
    assert_eq!(reaction_choices(&rows, None).defaults, vec![true, true]);
    assert_eq!(drop_choices(&list[0].drops, Some(&prior)).defaults, vec![false]);
    let kept = kept_picks(&rows, &vec![1], &list[0].drops, &vec![0]);
    assert_eq!(kept.reactions, vec!["slow"]);
    assert_eq!(kept.drops, vec!["ring"]);
}

#[test]
fn cleanup_deletes_what_nothing_wants() {
    let list = vec![dungeon("pit", &["ring", "cup"])];
    let mut c = Curation::empty();
    c.record("pit", DungeonCuration { reactions: vec![], drops: vec![text("ring")] });
    assert!(wanted(&list, &c, "ring"));
    assert!(!wanted(&list, &c, "cup"));
    let emojis = vec![text("cup"), text("ring")];
    assert_eq!(apply_cleanup(&emojis, &list, &c), vec![0]);
}

/// What a session does, by name, and the dungeons on the allowlist at its end.
fn curating(dry_run: bool, recurate: bool) -> (Vec<String>, Vec<String>) {
    let seen = |name: &str, drops: &[&str]| SnapshotDungeon {
        name: text(name),
        display_name: name.to_uppercase(),
        wiki_path: format!("/wiki/{name}"),
        portal: None,
        key: None,
        drops: drops
            .iter()
            .map(|d| SnapshotEmoji { logical_name: text(d), img_url: text("x") })
            .collect(),
    };
    let mut before = Curation::empty();
    before.record(
        "pit",
        DungeonCuration { reactions: vec![], drops: vec![text("cup")] },
    );
    let dungeons = vec![seen("bare", &[]), seen("pit", &["ring", "cup"]), seen("cave", &["axe"])];
    let mut session = CurateSession::new(dry_run, recurate, dungeons, before);
    let mut event = CurateEvent::Proceed;
    let mut done: Vec<String> = Vec::new();
    loop {
        event = match session.step(event) {
            CurateAction::LoadReactions(name) => {
                done.push(format!("load {name}"));
                CurateEvent::Reactions(if name == "bare" {
                    vec![]
                } else {
                    vec![ReactionRow { name: text("key"), display_name: text("Key") }]
                })
            }
            CurateAction::Ask(heading, reactions, drops) => {
                done.push(heading.trim().trim_end_matches('─').trim().to_string());
                done.push(format!("{:?} {:?}", reactions.labels, reactions.defaults));
                done.push(format!("{:?} {:?}", drops.labels, drops.defaults));
                CurateEvent::Picked(vec![0], vec![])
            }
            CurateAction::Preview => {
                done.push(text("preview"));
                CurateEvent::Proceed
            }
            CurateAction::Save => {
                done.push(text("save"));
                CurateEvent::Proceed
            }
            CurateAction::CleanUp => {
                done.push(text("clean up"));
                CurateEvent::Proceed
            }
            CurateAction::Finish => break,
        };
    }
    let kept = &session.curation().dungeons;
    let list = (0..kept.len())
        .map(|i| format!("{} {:?} {:?}", kept.name_at(i), kept.value_at(i).reactions, kept.value_at(i).drops))
        .collect();
    (done, list)
}

#[test]
fn curating_asks_about_new_dungeons() {
    let (done, kept) = curating(false, false);
    assert_eq!(
        done,
        vec![
            "load bare",
            "load cave",
            "── [3/3] CAVE",
            "[\"Key — key\"] [true]",
            "[\"axe\"] [true]",
            "save",
            "clean up",
        ]
    );
    assert_eq!(kept, vec!["pit [] [\"cup\"]", "bare [] []", "cave [\"key\"] []"]);
}

#[test]
fn curating_anew_asks_about_all() {
    let (done, kept) = curating(true, true);
    assert_eq!(
        done,
        vec![
            "load bare",
            "load pit",
            "── [2/3] PIT",
            "[\"Key — key\"] [false]",
            "[\"ring\", \"cup\"] [false, true]",
            "load cave",
            "── [3/3] CAVE",
            "[\"Key — key\"] [true]",
            "[\"axe\"] [true]",
            "preview",
        ]
    );
    assert_eq!(kept, vec!["pit [\"key\"] []", "bare [] []", "cave [\"key\"] []"]);
}

fn entry(name: &str) -> DungeonEntry {
    DungeonEntry {
        name: text(name),
        display_name: text(name),
        wiki_path: format!("/wiki/{name}"),
        portal_img_url: Some(text("https://x/p.png")),
        key_img_url: None,
    }
}

#[test]
fn a_run_uploads_each_emoji_once() {
    let mut run = SyncRun::new(false, vec![entry("pit")], NameMap::new());
    let mut event = SyncEvent::Proceed;
    let mut uploads: Vec<String> = Vec::new();
    let mut rows: Vec<String> = Vec::new();
    let mut pages = 0;
    loop {
        event = match run.step(event) {
            SyncAction::Proceed => SyncEvent::Proceed,
            SyncAction::FetchDungeonPage(path) => {
                assert_eq!(path, "/wiki/pit");
                SyncEvent::PageRead(vec![
                    DropItem {
                        logical_name: text("ring"),
                        img_url: text("https://x/r.png"),
                        item_wiki_path: Some(text("/wiki/ring")),
                    },
                    DropItem {
                        logical_name: text("ring"),
                        img_url: text("https://x/r.png"),
                        item_wiki_path: Some(text("/wiki/ring")),
                    },
                ])
            }
            SyncAction::FetchItemPage(path) => {
                assert_eq!(path, "/wiki/ring");
                pages += 1;
                SyncEvent::ItemRead(ItemBagInfo {
                    tier: Some(text("white")),
                    bag_image_url: Some(text("https://x/b.png")),
                    shiny_image_url: None,
                })
            }
            SyncAction::Upload(job) => {
                uploads.push(job.logical_name);
                SyncEvent::Uploaded(uploads.len() as u64, false)
            }
            SyncAction::WriteRow(row) => {
                rows.push(row.job.logical_name);
                SyncEvent::RowWritten
            }
            SyncAction::Finish => break,
        };
    }
    assert_eq!(uploads, vec!["portal_pit", "bag_white", "ring"]);
    assert_eq!(pages, 1);
    assert!(rows.contains(&text("ring")));
    let dump = run.into_dump();
    assert_eq!(dump.len(), 1);
    assert_eq!(dump[0].name, "pit");
    assert!(!dump[0].drops.is_empty());
}

#[test]
fn dry_runs_only_count() {
    let mut existing: NameMap<(u64, bool)> = NameMap::new();
    existing.insert("portal_pit", (1, false));
    let mut run = SyncRun::new(true, vec![entry("pit"), entry("cave")], existing);
    let mut event = SyncEvent::Proceed;
    loop {
        event = match run.step(event) {
            SyncAction::Proceed => SyncEvent::Proceed,
            SyncAction::FetchDungeonPage(_) => SyncEvent::PageFailed,
            SyncAction::FetchItemPage(_) => SyncEvent::ItemFailed,
            SyncAction::Upload(_) | SyncAction::WriteRow(_) => panic!("a dry run wrote"),
            SyncAction::Finish => break,
        };
    }
    let s = run.summary();
    assert_eq!(s.existing_reused, 1);
    assert_eq!(s.would_upload, 1);
    assert_eq!(s.would_upsert_emoji, 1);
}

/// What a whole sync does, by name, where the operator answers `answer`.
fn actions_of(dry_run: bool, purge: bool, asks: bool, answer: &str) -> Vec<String> {
    let mut session = SyncSession::new(dry_run, purge, asks);
    let mut event = SessionEvent::Proceed;
    let mut seen: Vec<String> = Vec::new();
    let list = || {
        let mut map: NameMap<(u64, bool)> = NameMap::new();
        map.insert("old", (5, false));
        map.insert("portal_pit", (6, false));
        Some(map)
    };
    loop {
        let before = session.summary();
        let uploaded = matches!(event, SessionEvent::Sync(SyncEvent::Uploaded(..)));
        let action = session.step(event);
        match told(uploaded, before, session.summary(), &action) {
            Told::Nothing => {}
            t => seen.push(format!("{t:?}")),
        }
        event = match action {
            SessionAction::OpenDatabase => {
                seen.push(text("open"));
                SessionEvent::Proceed
            }
            SessionAction::ListForPurge => SessionEvent::Listed(list()),
            SessionAction::AskPurge(question) => {
                assert_eq!(
                    question,
                    "--purge will DELETE 2 application emoji(s) and TRUNCATE bot_emoji. \
                     Proceed? [y/N] "
                );
                SessionEvent::Answer(text(answer))
            }
            SessionAction::Delete(name, id) => {
                seen.push(format!("delete {name} {id}"));
                SessionEvent::Proceed
            }
            SessionAction::Truncate => {
                seen.push(text("truncate"));
                SessionEvent::Proceed
            }
            SessionAction::ListEmojis => SessionEvent::Listed(list()),
            SessionAction::FetchDungeonList => {
                SessionEvent::Dungeons(vec![entry("pit"), entry("cave")])
            }
            SessionAction::Sync(action) => SessionEvent::Sync(match action {
                SyncAction::Proceed | SyncAction::Finish => SyncEvent::Proceed,
                SyncAction::FetchDungeonPage(_) => SyncEvent::PageFailed,
                SyncAction::FetchItemPage(_) => SyncEvent::ItemFailed,
                SyncAction::Upload(job) => {
                    seen.push(format!("upload {}", job.discord_name));
                    SyncEvent::Uploaded(9, false)
                }
                SyncAction::WriteRow(row) => {
                    seen.push(format!("row {}", row.job.logical_name));
                    SyncEvent::RowWritten
                }
            }),
            SessionAction::WriteDump(dump) => {
                seen.push(format!("dump {}", dump.len()));
                SessionEvent::Proceed
            }
            SessionAction::Report(n, s) => {
                seen.push(format!("report {n} {} {}", s.existing_reused, s.would_upload));
                SessionEvent::Proceed
            }
            SessionAction::Finish => return seen,
        };
    }
}

#[test]
fn dry_runs_change_nothing() {
    let quiet = vec!["Reused", "Skipped", "report 2 1 1"];
    for (purge, asks) in [(false, false), (false, true), (true, false), (true, true)] {
        assert_eq!(actions_of(true, purge, asks, "y"), quiet);
    }
}

#[test]
fn live_runs_write() {
    let scrape = vec![
        "Reused",
        "row portal_pit",
        "upload portal_cave",
        "New",
        "row portal_cave",
        "dump 2",
    ];
    let wipe = vec!["delete old 5", "delete portal_pit 6", "truncate"];
    let all = |parts: &[Vec<&'static str>]| parts.concat();
    assert_eq!(actions_of(false, false, true, ""), all(&[vec!["open"], scrape.clone()]));
    assert_eq!(
        actions_of(false, true, false, ""),
        all(&[vec!["open"], wipe.clone(), scrape.clone()])
    );
    assert_eq!(
        actions_of(false, true, true, " Yes\n"),
        all(&[vec!["open"], wipe, scrape.clone()])
    );
    assert_eq!(actions_of(false, true, true, "n"), all(&[vec!["open"], scrape]));
}

#[test]
fn purging_needs_a_yes() {
    assert!(purge_confirmed(" Y\n"));
    assert!(purge_confirmed("YES"));
    assert!(!purge_confirmed("n"));
    assert!(!purge_confirmed(""));
    assert!(is_yes("yes"));
    assert!(!is_yes("no"));
}
