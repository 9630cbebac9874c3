//! Dungeons, drops and bag tiers, out of the rows of the wiki's pages.

use vstd::prelude::*;

use crate::cli::sync_wiki::drops_section::{drops_text, extract_drops_section};
use crate::cli::sync_wiki::html::{
    document_rows, fragment_rows, item_views, read_document, read_fragment, row_views, Element,
    ElementView, Item, ItemView, Row, RowView,
};
use crate::cli::sync_wiki::names::{absolute, absolute_url, slug, slug_from_display};
use crate::cli::sync_wiki::sections::{keep_dungeon_sections, kept_page};
use crate::text::{
    begins, cat3, contains, occurs, opt_view, own, own_opt, same, starts_with, str_views, trim,
    trimmed,
};
use crate::unicode::lowercase;

verus! {

// ----- the dungeon list ------------------------------------------------------------

/// A dungeon of the wiki's list.
#[derive(Debug)]
pub struct DungeonEntry {
    /// Logical name.
    pub name: String,
    /// Name as the wiki shows it.
    pub display_name: String,
    /// Path of the dungeon's own page.
    pub wiki_path: String,
    /// Address of the portal image.
    pub portal_img_url: Option<String>,
    /// Address of the key image, where the dungeon has a key of its own.
    pub key_img_url: Option<String>,
}

/// What a dungeon of the list is.
pub ghost struct EntryView {
    pub name: Seq<char>,
    pub display_name: Seq<char>,
    pub wiki_path: Seq<char>,
    pub portal_img_url: Option<Seq<char>>,
    pub key_img_url: Option<Seq<char>>,
}

impl View for DungeonEntry {
    type V = EntryView;

    open spec fn view(&self) -> EntryView {
        EntryView {
            name: self.name@,
            display_name: self.display_name@,
            wiki_path: self.wiki_path@,
            portal_img_url: opt_view(self.portal_img_url),
            key_img_url: opt_view(self.key_img_url),
        }
    }
}

/// The views of a list of dungeons.
pub open spec fn entry_views(v: Seq<DungeonEntry>) -> Seq<EntryView> {
    Seq::new(v.len(), |i: int| v[i]@)
}

/// The dungeons that are never listed, by logical name.
pub open spec fn excluded_slug(name: Seq<char>) -> bool {
    ||| name == "court_of_oryx"@
    ||| name == "oryxs_castle"@
    ||| name == "oryxs_chamber"@
    ||| name == "wine_cellar"@
}

/// The first item of a group.
pub open spec fn first_of(row: RowView, group: int) -> Option<ElementView> {
    if row.groups[group].len() > 0 {
        Some(row.groups[group][0].element)
    } else {
        None
    }
}

/// The image source of the first item of a group.
pub open spec fn first_src(row: RowView, group: int) -> Option<Seq<char>> {
    match first_of(row, group) {
        Some(e) => e.src,
        None => None,
    }
}

/// The key image of a row: the generic key icon does not count.
pub open spec fn key_of(src: Option<Seq<char>>) -> Option<Seq<char>> {
    match src {
        Some(s) => if occurs(s, "dungeon-keys"@) {
            None
        } else {
            Some(absolute(s))
        },
        None => None,
    }
}

/// The dungeon that a row lists. The groups of a row are its name links, its
/// portal images and its key images. A row lists a dungeon where its first name
/// link leads to a wiki page and has a text, and it has a portal image.
pub open spec fn entry_of(row: RowView) -> Option<EntryView> {
    match (first_of(row, 0), first_src(row, 1)) {
        (Some(link), Some(portal)) => match link.href {
            Some(href) => {
                let display = trimmed(link.text);
                if begins(href, "/wiki/"@) && display.len() > 0 && !excluded_slug(slug(display)) {
                    Some(
                        EntryView {
                            name: slug(display),
                            display_name: display,
                            wiki_path: href,
                            portal_img_url: Some(absolute(portal)),
                            key_img_url: key_of(first_src(row, 2)),
                        },
                    )
                } else {
                    None
                }
            },
            None => None,
        },
        _ => None,
    }
}

/// A dungeon with this name is on the list.
pub open spec fn lists(entries: Seq<EntryView>, name: Seq<char>) -> bool {
    exists|k: int| 0 <= k < entries.len() && (#[trigger] entries[k]).name == name
}

/// The dungeons of the first `n` rows; of several with one name the first.
pub open spec fn entries_of(rows: Seq<RowView>, n: int) -> Seq<EntryView>
    decreases n,
{
    if n <= 0 {
        Seq::empty()
    } else {
        let before = entries_of(rows, n - 1);
        match entry_of(rows[n - 1]) {
            Some(e) => if lists(before, e.name) {
                before
            } else {
                before.push(e)
            },
            None => before,
        }
    }
}

fn first_item(row: &Row, group: usize) -> (r: Option<&Element>)
    requires
        group < row.groups@.len(),
    ensures
        match r {
            Some(e) => first_of(row@, group as int) == Some(e@),
            None => first_of(row@, group as int) is None,
        },
{
    let items = &row.groups[group];
    assert(row@.groups[group as int] == item_views(items@));
    if items.len() > 0 {
        assert(item_views(items@)[0] == items@[0]@);
        Some(&items[0].element)
    } else {
        None
    }
}

fn first_item_src(row: &Row, group: usize) -> (r: Option<String>)
    requires
        group < row.groups@.len(),
    ensures
        opt_view(r) == first_src(row@, group as int),
{
    match first_item(row, group) {
        Some(e) => own_opt(&e.src),
        None => None,
    }
}

fn is_excluded_slug(name: &str) -> (r: bool)
    ensures
        r == excluded_slug(name@),
{
    same(name, "court_of_oryx") || same(name, "oryxs_castle") || same(name, "oryxs_chamber") || same(
        name,
        "wine_cellar",
    )
}

/// The dungeon that a row lists.
pub fn dungeon_of_row(row: &Row) -> (r: Option<DungeonEntry>)
    requires
        row.groups@.len() == 3,
    ensures
        match r {
            Some(e) => entry_of(row@) == Some(e@),
            None => entry_of(row@) is None,
        },
{
    let link = match first_item(row, 0) {
        Some(e) => e,
        None => {
            return None;
        },
    };
    let href = match &link.href {
        Some(h) => h,
        None => {
            return None;
        },
    };
    if !starts_with(href, "/wiki/") {
        return None;
    }
    let display_name = trim(&link.text);
    if display_name.as_str().is_empty() {
        return None;
    }
    let portal_img_url = match first_item_src(row, 1) {
        Some(src) => Some(absolute_url(&src)),
        None => {
            return None;
        },
    };
    let key_img_url = match first_item_src(row, 2) {
        Some(src) => if contains(&src, "dungeon-keys") {
            None
        } else {
            Some(absolute_url(&src))
        },
        None => None,
    };
    let name = slug_from_display(&display_name);
    if is_excluded_slug(&name) {
        return None;
    }
    Some(DungeonEntry { name, display_name, wiki_path: own(href), portal_img_url, key_img_url })
}

fn already_listed(entries: &Vec<DungeonEntry>, name: &str) -> (r: bool)
    ensures
        r == lists(entry_views(entries@), name@),
{
    let mut i: usize = 0;
    while i < entries.len()
        invariant
            i <= entries@.len(),
            forall|k: int|
                0 <= k < i ==> (#[trigger] entry_views(entries@)[k]).name != name@,
        decreases entries@.len() - i,
    {
        assert(entry_views(entries@)[i as int].name == entries@[i as int].name@);
        if same(&entries[i].name, name) {
            return true;
        }
        i = i + 1;
    }
    false
}

/// The dungeons that the rows of the wiki's list name, each once.
pub fn dungeons_of_rows(rows: &Vec<Row>) -> (r: Vec<DungeonEntry>)
    requires
        forall|i: int| 0 <= i < rows@.len() ==> (#[trigger] rows@[i]).groups@.len() == 3,
    ensures
        entry_views(r@) == entries_of(row_views(rows@), rows@.len() as int),
{
    let mut out: Vec<DungeonEntry> = Vec::new();
    let mut i: usize = 0;
    assert(entry_views(out@) =~= Seq::<EntryView>::empty());
    while i < rows.len()
        invariant
            i <= rows@.len(),
            forall|i: int| 0 <= i < rows@.len() ==> (#[trigger] rows@[i]).groups@.len() == 3,
            entry_views(out@) == entries_of(row_views(rows@), i as int),
        decreases rows@.len() - i,
    {
        assert(row_views(rows@)[i as int] == rows@[i as int]@);
        if let Some(e) = dungeon_of_row(&rows[i]) {
            if !already_listed(&out, &e.name) {
                let ghost before = entry_views(out@);
                out.push(e);
                assert(entry_views(out@) =~= before.push(e@));
            }
        }
        i = i + 1;
    }
    out
}

/// No two dungeons of the list share a logical name, and none is excluded.
pub proof fn listed_names_are_distinct(rows: Seq<RowView>, n: int)
    ensures
        forall|i: int, j: int|
            0 <= i < j < entries_of(rows, n).len() ==> (#[trigger] entries_of(rows, n)[i]).name != (
            #[trigger] entries_of(rows, n)[j]).name,
        forall|i: int|
            0 <= i < entries_of(rows, n).len() ==> !excluded_slug(
                (#[trigger] entries_of(rows, n)[i]).name,
            ),
    decreases n,
{
    if n > 0 {
        listed_names_are_distinct(rows, n - 1);
    }
}

/// The selectors of the dungeon list: name links, portal images, key images.
pub open spec fn list_selectors() -> Seq<Seq<char>> {
    seq!["td:first-child a"@, "td:nth-child(2) img"@, "td:nth-child(3) img"@]
}

/// The dungeons on the wiki's list page, out of the sections that are kept.
pub open spec fn dungeon_list(html: Seq<char>) -> Seq<EntryView> {
    let rows = fragment_rows(
        kept_page(html),
        "table.table-striped tr"@,
        list_selectors(),
        "img"@,
    );
    entries_of(rows, rows.len() as int)
}

/// Read the wiki's list page.
pub fn parse_dungeon_list(html: &str) -> (r: Vec<DungeonEntry>)
    ensures
        entry_views(r@) == dungeon_list(html@),
{
    let section = keep_dungeon_sections(html);
    let groups: [&str; 3] = ["td:first-child a", "td:nth-child(2) img", "td:nth-child(3) img"];
    assert(str_views(groups@) =~= list_selectors());
    let rows = read_fragment(&section, "table.table-striped tr", groups.as_slice(), "img");
    dungeons_of_rows(&rows)
}

// ----- the drops of a dungeon ----------------------------------------------------------

/// An item that a dungeon drops.
#[derive(Debug)]
pub struct DropItem {
    /// Logical name.
    pub logical_name: String,
    /// Address of the item's image.
    pub img_url: String,
    /// Path of the item's own page, where it has one.
    pub item_wiki_path: Option<String>,
}

/// What a drop is.
pub ghost struct DropView {
    pub logical_name: Seq<char>,
    pub img_url: Seq<char>,
    pub item_wiki_path: Option<Seq<char>>,
}

impl View for DropItem {
    type V = DropView;

    open spec fn view(&self) -> DropView {
        DropView {
            logical_name: self.logical_name@,
            img_url: self.img_url@,
            item_wiki_path: opt_view(self.item_wiki_path),
        }
    }
}

/// The views of a list of drops.
pub open spec fn drop_views(v: Seq<DropItem>) -> Seq<DropView> {
    Seq::new(v.len(), |i: int| v[i]@)
}

/// The name that an image carries: its `alt` text, else its `title`.
pub open spec fn image_name(img: ElementView) -> Seq<char> {
    trimmed(
        match img.alt {
            Some(a) => a,
            None => match img.title {
                Some(t) => t,
                None => ""@,
            },
        },
    )
}

/// The drop that an image shows: it has a name and a source.
pub open spec fn drop_of_image(img: ElementView, path: Option<Seq<char>>) -> Option<DropView> {
    match img.src {
        Some(src) => if image_name(img).len() > 0 {
            Some(
                DropView {
                    logical_name: slug(image_name(img)),
                    img_url: absolute(src),
                    item_wiki_path: path,
                },
            )
        } else {
            None
        },
        None => None,
    }
}

/// The drop of a link to an item's page: the one that its first image shows.
pub open spec fn drop_of_link(link: ItemView) -> Option<DropView> {
    if link.inner.len() > 0 {
        drop_of_image(link.inner[0], link.element.href)
    } else {
        None
    }
}

/// The drops of the first `n` links of a row.
pub open spec fn linked_drops(links: Seq<ItemView>, n: int) -> Seq<DropView>
    decreases n,
{
    if n <= 0 {
        Seq::empty()
    } else {
        let before = linked_drops(links, n - 1);
        match drop_of_link(links[n - 1]) {
            Some(d) => before.push(d),
            None => before,
        }
    }
}

/// An image is shown by one of the drops.
pub open spec fn shows(drops: Seq<DropView>, url: Seq<char>) -> bool {
    exists|k: int| 0 <= k < drops.len() && (#[trigger] drops[k]).img_url == url
}

/// The drops of the first `n` images of a row that none of its links shows.
pub open spec fn bare_drops(images: Seq<ItemView>, linked: Seq<DropView>, n: int) -> Seq<DropView>
    decreases n,
{
    if n <= 0 {
        Seq::empty()
    } else {
        let before = bare_drops(images, linked, n - 1);
        match drop_of_image(images[n - 1].element, None) {
            Some(d) => if shows(linked, d.img_url) {
                before
            } else {
                before.push(d)
            },
            None => before,
        }
    }
}

/// The drops of a row: those of its links, then those of its other images. The
/// groups of a row are its links and its images.
pub open spec fn drops_of_row(row: RowView) -> Seq<DropView> {
    let linked = linked_drops(row.groups[0], row.groups[0].len() as int);
    linked + bare_drops(row.groups[1], linked, row.groups[1].len() as int)
}

/// The drops of the first `n` rows.
pub open spec fn drops_of(rows: Seq<RowView>, n: int) -> Seq<DropView>
    decreases n,
{
    if n <= 0 {
        Seq::empty()
    } else {
        drops_of(rows, n - 1) + drops_of_row(rows[n - 1])
    }
}

fn name_of_image(img: &Element) -> (r: String)
    ensures
        r@ == image_name(img@),
{
    match &img.alt {
        Some(a) => trim(a),
        None => match &img.title {
            Some(t) => trim(t),
            None => trim(""),
        },
    }
}

fn drop_from_image(img: &Element, path: Option<String>) -> (r: Option<DropItem>)
    ensures
        match r {
            Some(d) => drop_of_image(img@, opt_view(path)) == Some(d@),
            None => drop_of_image(img@, opt_view(path)) is None,
        },
{
    let name = name_of_image(img);
    if name.as_str().is_empty() {
        return None;
    }
    match &img.src {
        Some(src) => Some(
            DropItem {
                logical_name: slug_from_display(&name),
                img_url: absolute_url(src),
                item_wiki_path: path,
            },
        ),
        None => None,
    }
}

fn shown(drops: &Vec<DropItem>, from: usize, to: usize, url: &str) -> (r: bool)
    requires
        from <= to <= drops@.len(),
    ensures
        r == shows(drop_views(drops@).subrange(from as int, to as int), url@),
{
    let ghost part = drop_views(drops@).subrange(from as int, to as int);
    let mut i: usize = from;
    while i < to
        invariant
            from <= i <= to <= drops@.len(),
            part == drop_views(drops@).subrange(from as int, to as int),
            forall|k: int| 0 <= k < i - from ==> (#[trigger] part[k]).img_url != url@,
        decreases to - i,
    {
        assert(part[i - from].img_url == drops@[i as int].img_url@);
        if same(&drops[i].img_url, url) {
            return true;
        }
        i = i + 1;
    }
    false
}

fn push_drops_of_row(row: &Row, out: &mut Vec<DropItem>)
    requires
        row.groups@.len() == 2,
    ensures
        drop_views(final(out)@) == drop_views(old(out)@) + drops_of_row(row@),
{
    let links = &row.groups[0];
    let images = &row.groups[1];
    let ghost lv = item_views(links@);
    let ghost iv = item_views(images@);
    assert(row@.groups[0] == lv);
    assert(row@.groups[1] == iv);
    let ghost start = drop_views(out@);
    let from: usize = out.len();
    let mut i: usize = 0;
    assert(start + linked_drops(lv, 0) =~= start);
    while i < links.len()
        invariant
            i <= links@.len(),
            lv == item_views(links@),
            drop_views(out@) == start + linked_drops(lv, i as int),
        decreases links@.len() - i,
    {
        let link = &links[i];
        assert(lv[i as int] == link@);
        if link.inner.len() > 0 {
            assert(link@.inner[0] == link.inner@[0]@);
            if let Some(d) = drop_from_image(&link.inner[0], own_opt(&link.element.href)) {
                let ghost before = drop_views(out@);
                out.push(d);
                assert(drop_views(out@) =~= before.push(d@));
                assert(start + linked_drops(lv, i + 1) =~= before.push(d@));
            }
        }
        i = i + 1;
    }
    let to: usize = out.len();
    let ghost linked = linked_drops(lv, lv.len() as int);
    assert(drop_views(out@).subrange(from as int, to as int) =~= linked);
    let mut j: usize = 0;
    assert(start + linked + bare_drops(iv, linked, 0) =~= start + linked);
    while j < images.len()
        invariant
            j <= images@.len(),
            iv == item_views(images@),
            from <= to <= out@.len(),
            from == start.len(),
            drop_views(out@).subrange(from as int, to as int) == linked,
            drop_views(out@) == start + linked + bare_drops(iv, linked, j as int),
        decreases images@.len() - j,
    {
        let img = &images[j];
        assert(iv[j as int] == img@);
        if let Some(d) = drop_from_image(&img.element, None) {
            if !shown(out, from, to, &d.img_url) {
                let ghost before = drop_views(out@);
                out.push(d);
                assert(drop_views(out@) =~= before.push(d@));
                assert(start + linked + bare_drops(iv, linked, j + 1) =~= before.push(d@));
                assert(drop_views(out@).subrange(from as int, to as int) =~= linked);
            }
        }
        j = j + 1;
    }
    assert(start + linked + bare_drops(iv, linked, iv.len() as int) =~= start + drops_of_row(row@));
}

/// The drops that the rows of a drops table show.
pub fn drops_of_rows(rows: &Vec<Row>) -> (r: Vec<DropItem>)
    requires
        forall|i: int| 0 <= i < rows@.len() ==> (#[trigger] rows@[i]).groups@.len() == 2,
    ensures
        drop_views(r@) == drops_of(row_views(rows@), rows@.len() as int),
{
    let mut out: Vec<DropItem> = Vec::new();
    let mut i: usize = 0;
    assert(drop_views(out@) =~= Seq::<DropView>::empty());
    while i < rows.len()
        invariant
            i <= rows@.len(),
            forall|i: int| 0 <= i < rows@.len() ==> (#[trigger] rows@[i]).groups@.len() == 2,
            drop_views(out@) == drops_of(row_views(rows@), i as int),
        decreases rows@.len() - i,
    {
        assert(row_views(rows@)[i as int] == rows@[i as int]@);
        push_drops_of_row(&rows[i], &mut out);
        i = i + 1;
    }
    out
}

/// The selectors of a drops table: links to item pages, and images.
pub open spec fn drop_selectors() -> Seq<Seq<char>> {
    seq!["td:first-child a[href^=\"/wiki/\"]"@, "td:first-child img"@]
}

/// The drops that a drops section shows.
pub open spec fn section_drops(section: Seq<char>) -> Seq<DropView> {
    let rows = fragment_rows(section, "table.table-striped tr"@, drop_selectors(), "img"@);
    drops_of(rows, rows.len() as int)
}

/// Read the drops out of a drops section.
pub fn parse_drop_items(section_html: &str) -> (r: Vec<DropItem>)
    ensures
        drop_views(r@) == section_drops(section_html@),
{
    let groups: [&str; 2] = ["td:first-child a[href^=\"/wiki/\"]", "td:first-child img"];
    assert(str_views(groups@) =~= drop_selectors());
    let rows = read_fragment(section_html, "table.table-striped tr", groups.as_slice(), "img");
    drops_of_rows(&rows)
}

/// The drops that a dungeon's page shows: none where it has no drops section.
pub open spec fn page_drops(html: Seq<char>) -> Seq<DropView> {
    match drops_text(html) {
        Some(section) => section_drops(section),
        None => Seq::empty(),
    }
}

/// Read the drops of a dungeon's page.
pub fn parse_dungeon_page(html: &str) -> (r: Vec<DropItem>)
    ensures
        drop_views(r@) == page_drops(html@),
{
    match extract_drops_section(html) {
        Some(section) => parse_drop_items(&section),
        None => {
            let none: Vec<DropItem> = Vec::new();
            assert(drop_views(none@) =~= Seq::<DropView>::empty());
            none
        },
    }
}

/// Every link of a row whose first image has a name and a source gives a drop:
/// grouped drops are all captured, not only the first of a cell.
pub proof fn every_linked_image_is_a_drop(links: Seq<ItemView>, n: int, i: int)
    requires
        0 <= i < n <= links.len(),
        drop_of_link(links[i]) is Some,
    ensures
        linked_drops(links, n).contains(drop_of_link(links[i])->0),
    decreases n,
{
    let before = linked_drops(links, n - 1);
    if i < n - 1 {
        every_linked_image_is_a_drop(links, n - 1, i);
        let d = drop_of_link(links[i])->0;
        let k = choose|k: int| 0 <= k < before.len() && before[k] == d;
        assert(linked_drops(links, n)[k] == d);
    } else {
        assert(linked_drops(links, n).last() == drop_of_link(links[i])->0);
    }
}

// ----- an item's page -------------------------------------------------------------------

/// What an item's page says of the bag that it drops in.
#[derive(Debug)]
pub struct ItemBagInfo {
    /// Name of the bag tier, where the page names one.
    pub tier: Option<String>,
    /// Address of the bag's icon.
    pub bag_image_url: Option<String>,
    /// Address of the item's shiny sprite, where the page shows one.
    pub shiny_image_url: Option<String>,
}

/// What is known of an item's bag.
pub ghost struct BagInfoView {
    pub tier: Option<Seq<char>>,
    pub bag_image_url: Option<Seq<char>>,
    pub shiny_image_url: Option<Seq<char>>,
}

impl View for ItemBagInfo {
    type V = BagInfoView;

    open spec fn view(&self) -> BagInfoView {
        BagInfoView {
            tier: opt_view(self.tier),
            bag_image_url: opt_view(self.bag_image_url),
            shiny_image_url: opt_view(self.shiny_image_url),
        }
    }
}

impl ItemBagInfo {
    /// Nothing is known of an item whose page could not be read.
    pub fn unknown() -> (r: Self)
        ensures
            r@ == (BagInfoView { tier: None, bag_image_url: None, shiny_image_url: None }),
    {
        ItemBagInfo { tier: None, bag_image_url: None, shiny_image_url: None }
    }
}

/// The rarest bag tier that a text names, from `shiny` down to `brown`.
pub open spec fn rarest_tier(text: Seq<char>) -> Option<Seq<char>> {
    if occurs(text, "shiny bag"@) {
        Some("shiny"@)
    } else if occurs(text, "white bag"@) {
        Some("white"@)
    } else if occurs(text, "red bag"@) {
        Some("red"@)
    } else if occurs(text, "orange bag"@) {
        Some("orange"@)
    } else if occurs(text, "blue bag"@) {
        Some("blue"@)
    } else if occurs(text, "cyan bag"@) {
        Some("cyan"@)
    } else if occurs(text, "purple bag"@) {
        Some("purple"@)
    } else if occurs(text, "pink bag"@) {
        Some("pink"@)
    } else if occurs(text, "brown bag"@) {
        Some("brown"@)
    } else {
        None
    }
}

/// A text that may be missing, in lower case.
pub open spec fn lower_or_empty(s: Option<Seq<char>>) -> Seq<char> {
    lowercase(
        match s {
            Some(t) => t,
            None => ""@,
        },
    )
}

/// What an image says of itself, in lower case.
pub open spec fn image_words(img: ElementView) -> Seq<char> {
    lower_or_empty(img.alt) + " "@ + lower_or_empty(img.title)
}

/// The bag that an image shows: its tier and its icon.
pub open spec fn bag_of_image(img: ElementView) -> Option<(Seq<char>, Option<Seq<char>>)> {
    match rarest_tier(image_words(img)) {
        Some(tier) => Some(
            (
                tier,
                match img.src {
                    Some(src) => Some(absolute(src)),
                    None => None,
                },
            ),
        ),
        None => None,
    }
}

/// How rare a bag tier is.
pub open spec fn rarity(tier: Seq<char>) -> int {
    if tier == "shiny"@ {
        8
    } else if tier == "white"@ {
        7
    } else if tier == "red"@ {
        6
    } else if tier == "orange"@ {
        5
    } else if tier == "blue"@ {
        4
    } else if tier == "cyan"@ {
        3
    } else if tier == "purple"@ {
        2
    } else if tier == "pink"@ {
        1
    } else {
        0
    }
}

/// The rarer of two bags; of two that are as rare, the first.
pub open spec fn rarer(
    a: Option<(Seq<char>, Option<Seq<char>>)>,
    b: Option<(Seq<char>, Option<Seq<char>>)>,
) -> Option<(Seq<char>, Option<Seq<char>>)> {
    match (a, b) {
        (Some(x), Some(y)) => if rarity(y.0) > rarity(x.0) {
            b
        } else {
            a
        },
        (None, _) => b,
        (_, None) => a,
    }
}

/// The rarest bag that the first `n` images show.
pub open spec fn bag_of_images(images: Seq<ItemView>, n: int) -> Option<
    (Seq<char>, Option<Seq<char>>),
>
    decreases n,
{
    if n <= 0 {
        None
    } else {
        rarer(bag_of_images(images, n - 1), bag_of_image(images[n - 1].element))
    }
}

/// A row that lists the bags of an item.
pub open spec fn lists_bags(row: RowView) -> bool {
    occurs(lowercase(row.element.text), "loot bag"@)
}

/// The rarest bag that the "Loot Bag" rows among the first `n` rows show. The group of
/// a row is its images.
pub open spec fn bag_of_rows(rows: Seq<RowView>, n: int) -> Option<(Seq<char>, Option<Seq<char>>)>
    decreases n,
{
    if n <= 0 {
        None
    } else {
        let before = bag_of_rows(rows, n - 1);
        if lists_bags(rows[n - 1]) {
            rarer(
                before,
                bag_of_images(rows[n - 1].groups[0], rows[n - 1].groups[0].len() as int),
            )
        } else {
            before
        }
    }
}

proof fn the_rarest_image_is_kept(images: Seq<ItemView>, n: int, j: int)
    requires
        0 <= j < n <= images.len(),
        bag_of_image(images[j].element) is Some,
    ensures
        bag_of_images(images, n) is Some,
        rarity((bag_of_images(images, n)->0).0) >= rarity((bag_of_image(images[j].element)->0).0),
    decreases n,
{
    if j < n - 1 {
        the_rarest_image_is_kept(images, n - 1, j);
    }
}

/// Of several bags that an item's page lists, the rarest is kept.
pub proof fn the_rarest_bag_is_kept(rows: Seq<RowView>, n: int, i: int, j: int)
    requires
        0 <= i < n <= rows.len(),
        lists_bags(rows[i]),
        0 <= j < rows[i].groups[0].len(),
        bag_of_image(rows[i].groups[0][j].element) is Some,
    ensures
        bag_of_rows(rows, n) is Some,
        rarity((bag_of_rows(rows, n)->0).0) >= rarity(
            (bag_of_image(rows[i].groups[0][j].element)->0).0,
        ),
    decreases n,
{
    if i < n - 1 {
        the_rarest_bag_is_kept(rows, n - 1, i, j);
    } else {
        the_rarest_image_is_kept(rows[i].groups[0], rows[i].groups[0].len() as int, j);
    }
}

/// An image of the shiny form of an item: not of a projectile, a bag or an icon.
pub open spec fn shiny_image(img: ElementView) -> bool {
    let alt = lower_or_empty(img.alt);
    &&& occurs(alt, "shiny"@)
    &&& !occurs(alt, "projectile"@)
    &&& !occurs(alt, "bullet"@)
    &&& !occurs(alt, "fragment"@)
    &&& !occurs(alt, " bag"@)
    &&& !occurs(alt, "icon"@)
}

/// The source of the first shiny image, from image `from` on.
pub open spec fn shiny_of(images: Seq<RowView>, from: int) -> Option<Seq<char>>
    decreases images.len() - from,
{
    if from < 0 || from >= images.len() {
        None
    } else if shiny_image(images[from].element) {
        match images[from].element.src {
            Some(src) => Some(absolute(src)),
            None => None,
        }
    } else {
        shiny_of(images, from + 1)
    }
}

/// What the table rows and the images of an item's page say of its bag.
pub open spec fn bag_info(rows: Seq<RowView>, images: Seq<RowView>) -> BagInfoView {
    match bag_of_rows(rows, rows.len() as int) {
        Some((tier, icon)) => BagInfoView {
            tier: Some(tier),
            bag_image_url: icon,
            shiny_image_url: shiny_of(images, 0),
        },
        None => BagInfoView {
            tier: None,
            bag_image_url: None,
            shiny_image_url: shiny_of(images, 0),
        },
    }
}

/// The rarest bag tier that a text names.
pub fn rarest_bag(text: &str) -> (r: Option<String>)
    ensures
        opt_view(r) == rarest_tier(text@),
{
    if contains(text, "shiny bag") {
        Some(own("shiny"))
    } else if contains(text, "white bag") {
        Some(own("white"))
    } else if contains(text, "red bag") {
        Some(own("red"))
    } else if contains(text, "orange bag") {
        Some(own("orange"))
    } else if contains(text, "blue bag") {
        Some(own("blue"))
    } else if contains(text, "cyan bag") {
        Some(own("cyan"))
    } else if contains(text, "purple bag") {
        Some(own("purple"))
    } else if contains(text, "pink bag") {
        Some(own("pink"))
    } else if contains(text, "brown bag") {
        Some(own("brown"))
    } else {
        None
    }
}

fn lower_of(s: &Option<String>) -> (r: String)
    ensures
        r@ == lower_or_empty(opt_view(*s)),
{
    match s {
        Some(t) => t.as_str().to_lowercase(),
        None => "".to_lowercase(),
    }
}

fn resolved(src: &Option<String>) -> (r: Option<String>)
    ensures
        opt_view(r) == (match opt_view(*src) {
            Some(s) => Some(absolute(s)),
            None => None::<Seq<char>>,
        }),
{
    match src {
        Some(s) => Some(absolute_url(s)),
        None => None,
    }
}

fn rank(tier: &str) -> (r: u32)
    ensures
        r == rarity(tier@),
{
    if same(tier, "shiny") {
        8
    } else if same(tier, "white") {
        7
    } else if same(tier, "red") {
        6
    } else if same(tier, "orange") {
        5
    } else if same(tier, "blue") {
        4
    } else if same(tier, "cyan") {
        3
    } else if same(tier, "purple") {
        2
    } else if same(tier, "pink") {
        1
    } else {
        0
    }
}

/// A bag, where there is one: its tier and its icon.
pub open spec fn bag_view(bag: Option<(String, Option<String>)>) -> Option<
    (Seq<char>, Option<Seq<char>>),
> {
    match bag {
        Some(b) => Some((b.0@, opt_view(b.1))),
        None => None,
    }
}

fn keep_rarer(
    a: Option<(String, Option<String>)>,
    b: Option<(String, Option<String>)>,
) -> (r: Option<(String, Option<String>)>)
    ensures
        bag_view(r) == rarer(bag_view(a), bag_view(b)),
{
    match (a, b) {
        (Some(x), Some(y)) => if rank(&y.0) > rank(&x.0) {
            Some(y)
        } else {
            Some(x)
        },
        (Some(x), None) => Some(x),
        (None, y) => y,
    }
}

fn find_bag_in_row(images: &Vec<Item>) -> (r: Option<(String, Option<String>)>)
    ensures
        bag_view(r) == bag_of_images(item_views(images@), images@.len() as int),
{
    let ghost iv = item_views(images@);
    let mut best: Option<(String, Option<String>)> = None;
    let mut j: usize = 0;
    while j < images.len()
        invariant
            j <= images@.len(),
            iv == item_views(images@),
            bag_view(best) == bag_of_images(iv, j as int),
        decreases images@.len() - j,
    {
        let img = &images[j].element;
        assert(iv[j as int].element == img@);
        let words = cat3(&lower_of(&img.alt), " ", &lower_of(&img.title));
        let bag = match rarest_bag(&words) {
            Some(tier) => Some((tier, resolved(&img.src))),
            None => None,
        };
        assert(bag_view(bag) == bag_of_image(img@));
        best = keep_rarer(best, bag);
        j = j + 1;
    }
    best
}

fn find_bag(rows: &Vec<Row>) -> (r: Option<(String, Option<String>)>)
    requires
        forall|i: int| 0 <= i < rows@.len() ==> (#[trigger] rows@[i]).groups@.len() == 1,
    ensures
        bag_view(r) == bag_of_rows(row_views(rows@), rows@.len() as int),
{
    let ghost rv = row_views(rows@);
    let mut best: Option<(String, Option<String>)> = None;
    let mut i: usize = 0;
    while i < rows.len()
        invariant
            i <= rows@.len(),
            rv == row_views(rows@),
            forall|i: int| 0 <= i < rows@.len() ==> (#[trigger] rows@[i]).groups@.len() == 1,
            bag_view(best) == bag_of_rows(rv, i as int),
        decreases rows@.len() - i,
    {
        let row = &rows[i];
        assert(rv[i as int] == row@);
        if contains(&row.element.text.as_str().to_lowercase(), "loot bag") {
            assert(row@.groups[0] == item_views(row.groups@[0]@));
            best = keep_rarer(best, find_bag_in_row(&row.groups[0]));
        }
        i = i + 1;
    }
    best
}

fn find_shiny(images: &Vec<Row>) -> (r: Option<String>)
    ensures
        opt_view(r) == shiny_of(row_views(images@), 0),
{
    let ghost iv = row_views(images@);
    let mut i: usize = 0;
    while i < images.len()
        invariant
            i <= images@.len(),
            iv == row_views(images@),
            shiny_of(iv, 0) == shiny_of(iv, i as int),
        decreases images@.len() - i,
    {
        let img = &images[i].element;
        assert(iv[i as int].element == img@);
        let alt = lower_of(&img.alt);
        if contains(&alt, "shiny") && !contains(&alt, "projectile") && !contains(&alt, "bullet")
            && !contains(&alt, "fragment") && !contains(&alt, " bag") && !contains(&alt, "icon") {
            return resolved(&img.src);
        }
        i = i + 1;
    }
    None
}

/// What the table rows and the images of an item's page say of its bag.
pub fn bag_info_of_rows(rows: &Vec<Row>, images: &Vec<Row>) -> (r: ItemBagInfo)
    requires
        forall|i: int| 0 <= i < rows@.len() ==> (#[trigger] rows@[i]).groups@.len() == 1,
    ensures
        r@ == bag_info(row_views(rows@), row_views(images@)),
{
    let shiny_image_url = find_shiny(images);
    match find_bag(rows) {
        Some((tier, icon)) => ItemBagInfo {
            tier: Some(tier),
            bag_image_url: icon,
            shiny_image_url,
        },
        None => ItemBagInfo { tier: None, bag_image_url: None, shiny_image_url },
    }
}

/// What an item's page says of its bag.
pub open spec fn item_page_info(html: Seq<char>) -> BagInfoView {
    bag_info(
        document_rows(html, "table tr"@, seq!["img"@], "img"@),
        document_rows(html, "img"@, Seq::empty(), "img"@),
    )
}

/// Read the bag tier, the bag's icon and the shiny sprite off an item's page.
pub fn parse_item_page(html: &str) -> (r: ItemBagInfo)
    ensures
        r@ == item_page_info(html@),
{
    let groups: [&str; 1] = ["img"];
    assert(str_views(groups@) =~= seq!["img"@]);
    let rows = read_document(html, "table tr", groups.as_slice(), "img");
    let none: [&str; 0] = [];
    assert(str_views(none@) =~= Seq::<Seq<char>>::empty());
    let images = read_document(html, "img", none.as_slice(), "img");
    bag_info_of_rows(&rows, &images)
}

// ----- what the pages are read for ------------------------------------------------------------

/// A row lists a dungeon exactly where its first link leads to a page of the wiki and
/// has a text, its second column has an image with a source, and the dungeon is not one
/// of the four that are left out.
pub proof fn rows_list_dungeons(row: RowView)
    requires
        row.groups.len() == 3,
    ensures
        entry_of(row) is Some <==> {
            &&& row.groups[0].len() > 0
            &&& row.groups[0][0].element.href is Some
            &&& begins(row.groups[0][0].element.href->0, "/wiki/"@)
            &&& trimmed(row.groups[0][0].element.text).len() > 0
            &&& row.groups[1].len() > 0
            &&& row.groups[1][0].element.src is Some
            &&& slug(trimmed(row.groups[0][0].element.text)) != "court_of_oryx"@
            &&& slug(trimmed(row.groups[0][0].element.text)) != "oryxs_castle"@
            &&& slug(trimmed(row.groups[0][0].element.text)) != "oryxs_chamber"@
            &&& slug(trimmed(row.groups[0][0].element.text)) != "wine_cellar"@
        },
{
}

/// A dungeon of the list has the text and the target of its link, the image of the
/// second column as its portal, and the image of the third as its key; but the icon that
/// stands for all keys is nobody's key.
pub proof fn entries_say_what_their_rows_show(row: RowView, e: EntryView)
    requires
        row.groups.len() == 3,
        entry_of(row) == Some(e),
    ensures
        e.display_name == trimmed(row.groups[0][0].element.text),
        e.name == slug(e.display_name),
        Some(e.wiki_path) == row.groups[0][0].element.href,
        row.groups[1][0].element.src is Some && e.portal_img_url == Some(
            absolute(row.groups[1][0].element.src->0),
        ),
        row.groups[2].len() == 0 ==> e.key_img_url is None,
        row.groups[2].len() > 0 ==> (match row.groups[2][0].element.src {
            None => e.key_img_url is None,
            Some(s) => {
                &&& occurs(s, "dungeon-keys"@) ==> e.key_img_url is None
                &&& !occurs(s, "dungeon-keys"@) ==> e.key_img_url == Some(absolute(s))
            },
        }),
{
}

/// Further rows only add dungeons at the end of the list.
pub proof fn rows_only_add_dungeons(rows: Seq<RowView>, n: int, m: int)
    requires
        0 <= n <= m <= rows.len(),
    ensures
        entries_of(rows, n).is_prefix_of(entries_of(rows, m)),
    decreases m,
{
    if n < m {
        rows_only_add_dungeons(rows, n, m - 1);
        let a = entries_of(rows, n);
        let b = entries_of(rows, m - 1);
        let c = entries_of(rows, m);
        assert(a =~= c.subrange(0, a.len() as int));
    } else {
        let a = entries_of(rows, n);
        assert(a =~= a.subrange(0, a.len() as int));
    }
}

/// Every dungeon that a row lists is on the list under its name.
pub proof fn no_listed_dungeon_is_lost(rows: Seq<RowView>, n: int, i: int)
    requires
        0 <= i < n <= rows.len(),
        entry_of(rows[i]) is Some,
    ensures
        exists|k: int| #![trigger entries_of(rows, n)[k]]
            0 <= k < entries_of(rows, n).len() && entries_of(rows, n)[k].name == (entry_of(
                rows[i],
            )->0).name,
    decreases n,
{
    let all = entries_of(rows, n);
    let before = entries_of(rows, n - 1);
    if i < n - 1 {
        no_listed_dungeon_is_lost(rows, n - 1, i);
        let k = choose|k: int| #![trigger before[k]]
            0 <= k < before.len() && before[k].name == (entry_of(rows[i])->0).name;
        assert(all[k] == before[k]);
    } else if lists(before, (entry_of(rows[i])->0).name) {
        let k = choose|k: int|
            0 <= k < before.len() && (#[trigger] before[k]).name == (entry_of(rows[i])->0).name;
        assert(all[k] == before[k]);
    } else {
        assert(all.last() == entry_of(rows[i])->0);
    }
}

/// Every dungeon on the list is the one that some row lists, and the first row with its
/// name counts.
pub proof fn the_first_row_of_a_dungeon_counts(rows: Seq<RowView>, n: int, k: int) -> (i: int)
    requires
        0 <= n <= rows.len(),
        0 <= k < entries_of(rows, n).len(),
    ensures
        0 <= i < n,
        entry_of(rows[i]) == Some(entries_of(rows, n)[k]),
        forall|j: int| #![trigger rows[j]]
            0 <= j < i && entry_of(rows[j]) is Some ==> (entry_of(rows[j])->0).name != entries_of(
                rows,
                n,
            )[k].name,
    decreases n,
{
    let before = entries_of(rows, n - 1);
    let all = entries_of(rows, n);
    if k < before.len() {
        assert(all[k] == before[k]);
        the_first_row_of_a_dungeon_counts(rows, n - 1, k)
    } else {
        assert forall|j: int| #![trigger rows[j]] 0 <= j < n - 1 && entry_of(
            rows[j],
        ) is Some implies (entry_of(rows[j])->0).name != all[k].name by {
            no_listed_dungeon_is_lost(rows, n - 1, j);
            let m = choose|m: int| #![trigger before[m]]
                0 <= m < before.len() && before[m].name == (entry_of(rows[j])->0).name;
            assert(!lists(before, all[k].name));
            assert(before[m].name != all[k].name);
        }
        n - 1
    }
}

/// The list is read off the striped tables of the kept sections: links of the first
/// column, images of the second and of the third.
pub proof fn the_list_is_read_off_its_tables(html: Seq<char>)
    ensures
        ({
            let rows = fragment_rows(
                kept_page(html),
                "table.table-striped tr"@,
                seq!["td:first-child a"@, "td:nth-child(2) img"@, "td:nth-child(3) img"@],
                "img"@,
            );
            dungeon_list(html) == entries_of(rows, rows.len() as int)
        }),
{
}

/// An image shows a drop exactly where it has a source and a name: its `alt` text, or
/// its `title` where it has no `alt` at all. The drop is named after it.
pub proof fn named_images_are_drops(img: ElementView, path: Option<Seq<char>>)
    ensures
        ({
            let name = trimmed(
                match img.alt {
                    Some(a) => a,
                    None => match img.title {
                        Some(t) => t,
                        None => ""@,
                    },
                },
            );
            &&& drop_of_image(img, path) is Some <==> img.src is Some && name.len() > 0
            &&& drop_of_image(img, path) matches Some(d) ==> d.logical_name == slug(name)
                && d.img_url == absolute(img.src->0) && d.item_wiki_path == path
        }),
{
}

/// Each link of a row whose first image is a drop gives that drop with the link as its
/// page, in the order of the links, and nothing else comes before the other images.
pub proof fn links_give_their_first_image(link: ItemView)
    ensures
        link.inner.len() == 0 ==> drop_of_link(link) is None,
        link.inner.len() > 0 ==> drop_of_link(link) == drop_of_image(
            link.inner[0],
            link.element.href,
        ),
{
}

proof fn bare_drops_hold(images: Seq<ItemView>, linked: Seq<DropView>, n: int, i: int)
    requires
        0 <= i < n <= images.len(),
        drop_of_image(images[i].element, None) is Some,
        forall|k: int|
            0 <= k < linked.len() ==> (#[trigger] linked[k]).img_url != (drop_of_image(
                images[i].element,
                None,
            )->0).img_url,
    ensures
        bare_drops(images, linked, n).contains(drop_of_image(images[i].element, None)->0),
    decreases n,
{
    let before = bare_drops(images, linked, n - 1);
    let all = bare_drops(images, linked, n);
    let d = drop_of_image(images[i].element, None)->0;
    if i < n - 1 {
        bare_drops_hold(images, linked, n - 1, i);
        let k = choose|k: int| 0 <= k < before.len() && before[k] == d;
        assert(all[k] == d);
    } else {
        assert(!shows(linked, d.img_url));
        assert(all.last() == d);
    }
}

/// Every image of a row that is a drop ends up among the drops of the row: with its
/// page where a link shows it, else without one.
pub proof fn no_drop_of_a_row_is_lost(row: RowView, i: int)
    requires
        row.groups.len() == 2,
        0 <= i < row.groups[1].len(),
        drop_of_image(row.groups[1][i].element, None) is Some,
    ensures
        exists|k: int| #![trigger drops_of_row(row)[k]]
            0 <= k < drops_of_row(row).len() && drops_of_row(row)[k].img_url == (drop_of_image(
                row.groups[1][i].element,
                None,
            )->0).img_url,
{
    let linked = linked_drops(row.groups[0], row.groups[0].len() as int);
    let bare = bare_drops(row.groups[1], linked, row.groups[1].len() as int);
    let d = drop_of_image(row.groups[1][i].element, None)->0;
    let all = drops_of_row(row);
    if shows(linked, d.img_url) {
        let k = choose|k: int| 0 <= k < linked.len() && (#[trigger] linked[k]).img_url == d.img_url;
        assert(all[k] == linked[k]);
    } else {
        bare_drops_hold(row.groups[1], linked, row.groups[1].len() as int, i);
        let k = choose|k: int| 0 <= k < bare.len() && bare[k] == d;
        assert(all[linked.len() + k] == d);
    }
}

/// The drops of a page are those of its rows, one row after the other.
pub proof fn drops_come_row_by_row(rows: Seq<RowView>, n: int)
    requires
        0 <= n < rows.len(),
    ensures
        drops_of(rows, 0).len() == 0,
        drops_of(rows, n + 1) == drops_of(rows, n) + drops_of_row(rows[n]),
{
}

/// The drops are read off the striped tables of the drops section: links to the wiki and
/// images of the first column. A page without such a section has no drops.
pub proof fn drops_are_read_off_their_tables(html: Seq<char>)
    ensures
        drops_text(html) is None ==> page_drops(html).len() == 0,
        drops_text(html) matches Some(section) ==> {
            let rows = fragment_rows(
                section,
                "table.table-striped tr"@,
                seq!["td:first-child a[href^=\"/wiki/\"]"@, "td:first-child img"@],
                "img"@,
            );
            page_drops(html) == drops_of(rows, rows.len() as int)
        },
{
}

/// The bag tiers, from the most common to the rarest.
pub open spec fn ladder() -> Seq<Seq<char>> {
    seq![
        "brown"@,
        "pink"@,
        "purple"@,
        "cyan"@,
        "blue"@,
        "orange"@,
        "red"@,
        "white"@,
        "shiny"@,
    ]
}

/// How the bags of the tiers are called, in the same order.
pub open spec fn ladder_words() -> Seq<Seq<char>> {
    seq![
        "brown bag"@,
        "pink bag"@,
        "purple bag"@,
        "cyan bag"@,
        "blue bag"@,
        "orange bag"@,
        "red bag"@,
        "white bag"@,
        "shiny bag"@,
    ]
}

/// An image says that it is a bag of the tier at a place of the ladder: its `alt` text
/// or its `title` does, in upper or lower case.
pub open spec fn says_bag(img: ElementView, m: int) -> bool {
    occurs(
        lowercase(
            match img.alt {
                Some(t) => t,
                None => ""@,
            },
        ) + " "@ + lowercase(
            match img.title {
                Some(t) => t,
                None => ""@,
            },
        ),
        ladder_words()[m],
    )
}

proof fn rungs()
    ensures
        forall|m: int| 0 <= m < 9 ==> #[trigger] rarity(ladder()[m]) == m,
{
    reveal_strlit("brown");
    reveal_strlit("pink");
    reveal_strlit("purple");
    reveal_strlit("cyan");
    reveal_strlit("blue");
    reveal_strlit("orange");
    reveal_strlit("red");
    reveal_strlit("white");
    reveal_strlit("shiny");
    let l = ladder();
    assert(l[0].len() == 5 && l[0][0] == 'b');
    assert(l[1].len() == 4 && l[1][0] == 'p');
    assert(l[2].len() == 6 && l[2][0] == 'p');
    assert(l[3].len() == 4 && l[3][0] == 'c');
    assert(l[4].len() == 4 && l[4][0] == 'b');
    assert(l[5].len() == 6 && l[5][0] == 'o');
    assert(l[6].len() == 3 && l[6][0] == 'r');
    assert(l[7].len() == 5 && l[7][0] == 'w');
    assert(l[8].len() == 5 && l[8][0] == 's');
    assert forall|m: int| 0 <= m < 9 implies #[trigger] rarity(ladder()[m]) == m by {
        assert(m == 0 || m == 1 || m == 2 || m == 3 || m == 4 || m == 5 || m == 6 || m == 7 || m
            == 8);
    }
}

proof fn images_are_on_the_ladder(img: ElementView) -> (m: int)
    requires
        bag_of_image(img) is Some,
    ensures
        0 <= m < 9,
        (bag_of_image(img)->0).0 == ladder()[m],
        says_bag(img, m),
{
    let w = image_words(img);
    if occurs(w, "shiny bag"@) {
        8
    } else if occurs(w, "white bag"@) {
        7
    } else if occurs(w, "red bag"@) {
        6
    } else if occurs(w, "orange bag"@) {
        5
    } else if occurs(w, "blue bag"@) {
        4
    } else if occurs(w, "cyan bag"@) {
        3
    } else if occurs(w, "purple bag"@) {
        2
    } else if occurs(w, "pink bag"@) {
        1
    } else {
        0
    }
}

proof fn saying_gives_a_bag(img: ElementView, m: int)
    requires
        0 <= m < 9,
        says_bag(img, m),
    ensures
        bag_of_image(img) is Some,
        rarity((bag_of_image(img)->0).0) >= m,
{
    rungs();
    assert(m == 0 || m == 1 || m == 2 || m == 3 || m == 4 || m == 5 || m == 6 || m == 7 || m == 8);
    let k = images_are_on_the_ladder(img);
    assert(rarity(ladder()[k]) == k);
}

proof fn the_kept_image(images: Seq<ItemView>, n: int) -> (j: int)
    requires
        0 <= n <= images.len(),
        bag_of_images(images, n) is Some,
    ensures
        0 <= j < n,
        bag_of_image(images[j].element) == bag_of_images(images, n),
    decreases n,
{
    if bag_of_images(images, n - 1) is Some && bag_of_images(images, n) == bag_of_images(
        images,
        n - 1,
    ) {
        the_kept_image(images, n - 1)
    } else {
        n - 1
    }
}

/// The tier of an item is one that a "Loot Bag" row of its page shows in an image, and
/// the icon is that image.
pub proof fn bags_are_shown_by_loot_rows(rows: Seq<RowView>, n: int) -> (w: (int, int, int))
    requires
        0 <= n <= rows.len(),
        bag_of_rows(rows, n) is Some,
    ensures
        0 <= w.0 < n,
        occurs(lowercase(rows[w.0].element.text), "loot bag"@),
        0 <= w.1 < rows[w.0].groups[0].len(),
        0 <= w.2 < 9,
        says_bag(rows[w.0].groups[0][w.1].element, w.2),
        (bag_of_rows(rows, n)->0).0 == ladder()[w.2],
        (bag_of_rows(rows, n)->0).1 == (match rows[w.0].groups[0][w.1].element.src {
            Some(s) => Some(absolute(s)),
            None => None,
        }),
    decreases n,
{
    if bag_of_rows(rows, n - 1) is Some && bag_of_rows(rows, n) == bag_of_rows(rows, n - 1) {
        bags_are_shown_by_loot_rows(rows, n - 1)
    } else {
        let g = rows[n - 1].groups[0];
        let j = the_kept_image(g, g.len() as int);
        let m = images_are_on_the_ladder(g[j].element);
        (n - 1, j, m)
    }
}

/// Whatever bag an image of a "Loot Bag" row says that it is, the tier of the item is
/// that one or a rarer one.
pub proof fn no_rarer_bag_is_passed_over(
    rows: Seq<RowView>,
    images: Seq<RowView>,
    i: int,
    j: int,
    m: int,
) -> (k: int)
    requires
        0 <= i < rows.len(),
        occurs(lowercase(rows[i].element.text), "loot bag"@),
        0 <= j < rows[i].groups[0].len(),
        0 <= m < 9,
        says_bag(rows[i].groups[0][j].element, m),
    ensures
        m <= k < 9,
        bag_info(rows, images).tier == Some(ladder()[k]),
{
    saying_gives_a_bag(rows[i].groups[0][j].element, m);
    the_rarest_bag_is_kept(rows, rows.len() as int, i, j);
    let w = bags_are_shown_by_loot_rows(rows, rows.len() as int);
    rungs();
    assert(rarity(ladder()[w.2]) == w.2);
    w.2
}

/// What is said of an item: the bag that its rows show, and the shiny form that its
/// images show. A page that shows neither says nothing.
pub proof fn items_say_bag_and_shiny(rows: Seq<RowView>, images: Seq<RowView>)
    ensures
        bag_info(rows, images).tier is Some <==> bag_of_rows(rows, rows.len() as int) is Some,
        bag_of_rows(rows, rows.len() as int) matches Some(b) ==> bag_info(rows, images).tier == Some(
            b.0,
        ) && bag_info(rows, images).bag_image_url == b.1,
        bag_info(rows, images).tier is None ==> bag_info(rows, images).bag_image_url is None,
        bag_info(rows, images).shiny_image_url == shiny_of(images, 0),
{
}

/// The shiny form of an item is the first image whose `alt` text speaks of a shiny, and
/// of no projectile, bullet, fragment, bag or icon.
pub proof fn the_first_shiny_counts(images: Seq<RowView>, from: int, i: int)
    requires
        0 <= from <= i <= images.len(),
        forall|k: int| from <= k < i ==> !shiny_image((#[trigger] images[k]).element),
    ensures
        i == images.len() ==> shiny_of(images, from) is None,
        i < images.len() && ({
            let alt = lowercase(
                match images[i].element.alt {
                    Some(t) => t,
                    None => ""@,
                },
            );
            occurs(alt, "shiny"@) && !occurs(alt, "projectile"@) && !occurs(alt, "bullet"@)
                && !occurs(alt, "fragment"@) && !occurs(alt, " bag"@) && !occurs(alt, "icon"@)
        }) ==> shiny_of(images, from) == (match images[i].element.src {
            Some(s) => Some(absolute(s)),
            None => None,
        }),
    decreases i - from,
{
    if from < i {
        assert(!shiny_image(images[from].element));
        the_first_shiny_counts(images, from + 1, i);
    }
}

/// An item's page is read row by row of its tables, and image by image.
pub proof fn item_pages_are_read_off_tables_and_images(html: Seq<char>)
    ensures
        item_page_info(html) == bag_info(
            document_rows(html, "table tr"@, seq!["img"@], "img"@),
            document_rows(html, "img"@, Seq::empty(), "img"@),
        ),
{
}

/// The view of a `DungeonEntry` shows each of its fields as it is.
pub proof fn dungeon_entry_shows_its_fields(x: DungeonEntry)
    ensures
        x@.name == x.name@,
        x@.display_name == x.display_name@,
        x@.wiki_path == x.wiki_path@,
        x.portal_img_url is Some ==> x@.portal_img_url == Some((x.portal_img_url->0)@),
        x.portal_img_url is None ==> x@.portal_img_url is None,
        x.key_img_url is Some ==> x@.key_img_url == Some((x.key_img_url->0)@),
        x.key_img_url is None ==> x@.key_img_url is None,
{
}

/// The view of a `DropItem` shows each of its fields as it is.
pub proof fn drop_item_shows_its_fields(x: DropItem)
    ensures
        x@.logical_name == x.logical_name@,
        x@.img_url == x.img_url@,
        x.item_wiki_path is Some ==> x@.item_wiki_path == Some((x.item_wiki_path->0)@),
        x.item_wiki_path is None ==> x@.item_wiki_path is None,
{
}

/// The view of a `ItemBagInfo` shows each of its fields as it is.
pub proof fn item_bag_info_shows_its_fields(x: ItemBagInfo)
    ensures
        x.tier is Some ==> x@.tier == Some((x.tier->0)@),
        x.tier is None ==> x@.tier is None,
        x.bag_image_url is Some ==> x@.bag_image_url == Some((x.bag_image_url->0)@),
        x.bag_image_url is None ==> x@.bag_image_url is None,
        x.shiny_image_url is Some ==> x@.shiny_image_url == Some((x.shiny_image_url->0)@),
        x.shiny_image_url is None ==> x@.shiny_image_url is None,
{
}

} // verus!
