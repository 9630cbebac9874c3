//! The wiki pages: sections, lists and drops.

use starship::cli::sync_wiki::drops_section::extract_drops_section;
use starship::cli::sync_wiki::names::{absolute_url, discord_name, slug_from_display};
use starship::cli::sync_wiki::scrape::{
    parse_drop_items, parse_dungeon_list, parse_dungeon_page, parse_item_page,
};
use starship::cli::sync_wiki::sections::{
    find_h2_sections, is_excluded_section, keep_dungeon_sections,
};

#[test]
fn drops_section_preserves_subsection_tables() {
    // An h2 "Drops of Interest" followed by an h3 subheading whose table
    // must stay inside the section.
    let html = "\
        <h2 id=\"drops\">Drops of Interest</h2>\
        <table class=\"table-striped\"><tr><td>NORMAL</td></tr></table>\
        <h3>Malus</h3>\
        <table class=\"table-striped\"><tr><td>BOSS</td></tr></table>\
        <h2 id=\"history\">History</h2>\
        <p>log</p>\
    ";
    let extracted = extract_drops_section(html).expect("drops found");
    assert!(extracted.contains("NORMAL"), "normal drops missing: {extracted}");
    assert!(extracted.contains("BOSS"), "boss drops missing: {extracted}");
    assert!(!extracted.contains("log"), "history leaked: {extracted}");
}

#[test]
fn slug_strips_straight_apostrophe() {
    assert_eq!(slug_from_display("Oryx's Sanctuary"), "oryxs_sanctuary");
    assert_eq!(slug_from_display("Pirate's Cave"), "pirates_cave");
}

#[test]
fn slug_strips_curly_apostrophe() {
    assert_eq!(slug_from_display("Oryx\u{2019}s Sanctuary"), "oryxs_sanctuary");
}

#[test]
fn slug_basic_whitespace_and_punct() {
    assert_eq!(slug_from_display("Snake Pit"), "snake_pit");
    assert_eq!(slug_from_display("D.O.G. Realm"), "d_o_g_realm");
}

#[test]
fn slug_collapses_multiple_separators() {
    assert_eq!(slug_from_display("  Lost   Halls  "), "lost_halls");
}

#[test]
fn slug_of_nothing_is_empty() {
    assert_eq!(slug_from_display(" -- "), "");
    assert_eq!(slug_from_display("ÉTÉ"), "été");
}

#[test]
fn multi_item_row_captures_every_anchor() {
    // A single cell packs several linked images.
    let html = r##"
        <table class="table-striped">
            <tr><th>Item</th><th>Drops From</th></tr>
            <tr>
                <td>
                    <a href="/wiki/potion-of-life"><img src="/s/p_life.png" alt="Potion of Life"></a>
                    <a href="/wiki/potion-of-mana"><img src="/s/p_mana.png" alt="Potion of Mana"></a>
                </td>
                <td>Malus</td>
            </tr>
            <tr>
                <td>
                    <a href="/wiki/burial-blades"><img src="/s/bb.png" alt="Burial Blades"></a>
                    <a href="/wiki/staff-of-unholy-sacrifice"><img src="/s/sus.png" alt="Staff of Unholy Sacrifice"></a>
                    <a href="/wiki/skull-of-corrupted-souls"><img src="/s/scs.png" alt="Skull of Corrupted Souls"></a>
                    <a href="/wiki/ritual-robe"><img src="/s/rr.png" alt="Ritual Robe"></a>
                    <a href="/wiki/bloodshed-ring"><img src="/s/br.png" alt="Bloodshed Ring"></a>
                </td>
                <td>Malus</td>
            </tr>
        </table>
    "##;
    let items = parse_drop_items(html);
    let names: Vec<&str> = items.iter().map(|i| i.logical_name.as_str()).collect();
    assert_eq!(
        names,
        &[
            "potion_of_life",
            "potion_of_mana",
            "burial_blades",
            "staff_of_unholy_sacrifice",
            "skull_of_corrupted_souls",
            "ritual_robe",
            "bloodshed_ring",
        ]
    );
    // Every linked item carries the path of its own page.
    assert!(items.iter().all(|i| i.item_wiki_path.is_some()));
}

#[test]
fn bare_img_without_anchor_still_captured() {
    // A cell without a link: an item without a page of its own.
    let html = r##"
        <table class="table-striped">
            <tr>
                <td><img src="/s/mystery.png" alt="Mystery Trinket"></td>
                <td>Boss</td>
            </tr>
        </table>
    "##;
    let items = parse_drop_items(html);
    assert_eq!(items.len(), 1);
    assert_eq!(items[0].logical_name, "mystery_trinket");
    assert!(items[0].item_wiki_path.is_none());
}

#[test]
fn sections_keep_desired_drop_excluded() {
    // Contents, sections to keep, and special events, others and history to
    // drop. The section of the castle is kept: the sanctuary is listed there.
    let curly = '\u{2019}';
    let html = format!(
        "\
        <h2 id=\"contents\">Contents</h2>\
        <p>TOC</p>\
        <h2 id=\"realm-dungeons\">Realm Dungeons</h2>\
        <table class=\"table-striped\"><tr><td>REALM_ROW</td></tr></table>\
        <h2 id=\"advanced-dungeons\">Advanced Dungeons</h2>\
        <table class=\"table-striped\"><tr><td>ADVANCED_ROW</td></tr></table>\
        <h2 id=\"oryx-s-castle\">Oryx{curly}s Castle</h2>\
        <table class=\"table-striped\"><tr><td>CASTLE_SECTION_KEEP</td></tr></table>\
        <h2 id=\"heroic\">Heroic Dungeons</h2>\
        <table class=\"table-striped\"><tr><td>HEROIC_ROW</td></tr></table>\
        <h2 id=\"special-event-dungeons\">Special Event Dungeons</h2>\
        <table class=\"table-striped\"><tr><td>EVENT_ROW_DROP</td></tr></table>\
        <h2 id=\"other-dungeons\">Other Dungeons</h2>\
        <table class=\"table-striped\"><tr><td>OTHER_ROW_DROP</td></tr></table>\
        <h2 id=\"history\">History</h2>\
        <p>log</p>\
    "
    );
    let kept = keep_dungeon_sections(&html);
    assert!(kept.contains("REALM_ROW"), "missing REALM: {kept}");
    assert!(kept.contains("ADVANCED_ROW"), "missing ADVANCED: {kept}");
    assert!(kept.contains("HEROIC_ROW"), "missing HEROIC: {kept}");
    assert!(
        kept.contains("CASTLE_SECTION_KEEP"),
        "castle section should be kept (O3 lives there); got: {kept}"
    );
    assert!(!kept.contains("EVENT_ROW_DROP"), "event leaked: {kept}");
    assert!(!kept.contains("OTHER_ROW_DROP"), "other leaked: {kept}");
}

#[test]
fn pages_are_cut_at_their_own_headings() {
    assert_eq!(keep_dungeon_sections("plain"), "plain");
    assert_eq!(extract_drops_section("plain"), None);
    // The dotted capital I takes two bytes, and its lower case three.
    assert_eq!(
        keep_dungeon_sections("\u{130}<h2>Realm Dungeons</h2>X"),
        "<h2>Realm Dungeons</h2>X"
    );
    let moved = format!("{}<H2>Drops of Interest</H2>x<h2>End</h2>", "\u{130}".repeat(60));
    assert_eq!(extract_drops_section(&moved).as_deref(), Some("<H2>Drops of Interest</H2>x"));
}

#[test]
fn the_first_heading_of_the_drops_counts() {
    assert_eq!(
        extract_drops_section("<h3>Drops</h3>A<h2>Notable Drops</h2>B").as_deref(),
        Some("<h3>Drops</h3>A")
    );
    assert_eq!(
        extract_drops_section("<h2>Notable Drops</h2>B<h3>Drops</h3>A").as_deref(),
        Some("<h2>Notable Drops</h2>B<h3>Drops</h3>A")
    );
}

#[test]
fn headings_are_found_with_their_text() {
    let found = find_h2_sections("<h2 id=\"a\">first <b>one</b></h2>x<h2>second</h2>");
    assert_eq!(found.len(), 2);
    assert!(is_excluded_section("page history"));
    assert!(is_excluded_section("contents"));
    assert!(!is_excluded_section("realm dungeons"));
}

#[test]
fn dungeon_list_is_read() {
    let html = r##"<h2>Realm Dungeons</h2>
        <table class="table-striped"><tr>
            <td><a href="/wiki/snake-pit">Snake Pit</a></td>
            <td><img src="/s/pit.png" alt="Snake Pit"></td>
            <td><img src="/s/key.png" alt="Snake Pit Key"></td>
        </tr></table>"##;
    let list = parse_dungeon_list(html);
    assert_eq!(list.len(), 1);
    assert_eq!(list[0].name, "snake_pit");
    assert_eq!(list[0].display_name, "Snake Pit");
    assert_eq!(list[0].wiki_path, "/wiki/snake-pit");
    assert!(list[0].portal_img_url.is_some());
}

#[test]
fn dungeon_page_without_drops_has_none() {
    assert!(parse_dungeon_page("<p>nothing</p>").is_empty());
    let page = r##"<h2>Drops of Interest</h2><table class="table-striped"><tr>
        <td><a href="/wiki/ring"><img src="//i.example/ring.png" alt="Ring"></a></td></tr></table>
        <h2>History</h2><table class="table-striped"><tr>
        <td><a href="/wiki/cup"><img src="/c.png" alt="Cup"></a></td></tr></table>"##;
    let drops = parse_dungeon_page(page);
    assert_eq!(drops.len(), 1);
    assert_eq!(drops[0].logical_name, "ring");
    assert_eq!(drops[0].img_url, "https://i.example/ring.png");
    assert_eq!(drops[0].item_wiki_path.as_deref(), Some("/wiki/ring"));
}

#[test]
fn item_page_names_the_bag() {
    let page = r##"<table><tr><th>Loot Bag</th><td><img src="/s/white.png" alt="White Bag"></td></tr></table>"##;
    let info = parse_item_page(page);
    assert_eq!(info.tier.as_deref(), Some("white"));
    assert!(info.bag_image_url.is_some());
    assert!(info.shiny_image_url.is_none());
    assert!(parse_item_page("<p>none</p>").tier.is_none());
}

#[test]
fn the_rarest_bag_counts() {
    let page = r##"<table><tr><th>Loot Bag</th><td>
        <img src="/s/purple.png" alt="Purple Bag"><img src="/s/white.png" alt="White Bag">
        <img src="/s/cyan.png" alt="Cyan Bag"></td></tr></table>"##;
    let info = parse_item_page(page);
    assert_eq!(info.tier.as_deref(), Some("white"));
    assert_eq!(info.bag_image_url.as_deref(), Some("https://www.realmeye.com/s/white.png"));
}

#[test]
fn slugs_are_their_own_slugs() {
    for name in ["Oryx\u{2019}s Sanctuary", "The  Void!", "_a__B_", "", "Straße 9"] {
        let slug = slug_from_display(name);
        assert_eq!(slug_from_display(&slug), slug, "{name}");
    }
    assert_eq!(slug_from_display("_a__B_"), "a_b");
}

#[test]
fn addresses_become_absolute() {
    assert_eq!(absolute_url("//i.example/a.png"), "https://i.example/a.png");
    assert_eq!(absolute_url("/s/a.png"), "https://www.realmeye.com/s/a.png");
    assert_eq!(absolute_url("https://x/y"), "https://x/y");
}

#[test]
fn emoji_names_are_safe() {
    assert_eq!(discord_name("snake_pit"), "snake_pit");
    assert_eq!(discord_name("__a-b"), "a_b");
    assert_eq!(discord_name("___"), "emoji");
    assert!(discord_name(&"x".repeat(50)).len() <= 32);
}
