//! A run of the wiki scraper, as a machine: which page to fetch, which emoji to
//! upload and which row to write next, and what the run leaves behind.
//!
//! The caller performs each action and hands back what came of it.

use vstd::prelude::*;

use crate::cli::sync_wiki::names::{discord_name, emoji_name};
use crate::cli::sync_wiki::scrape::{
    drop_views, entry_views, BagInfoView, DropItem, DropView, DungeonEntry, EntryView, ItemBagInfo,
};
use crate::name_map::NameMap;
use crate::templates::{
    blank_dungeon, dungeon_views, WikiDungeon, WikiDungeonView, WikiEmoji, WikiEmojiView,
};
use crate::text::{
    cat2, contains, occurs, opt_view, own, own_opt, same, trim, trimmed, views, views_push,
};
use crate::unicode::lowercase;

verus! {

/// What a dry run would have done.
#[derive(Debug, Clone, Copy)]
pub struct DrySummary {
    /// Emojis that are registered already.
    pub existing_reused: usize,
    /// Emojis that would be uploaded.
    pub would_upload: usize,
    /// Rows that would be written.
    pub would_upsert_emoji: usize,
}

/// What an upload is for.
#[derive(Debug, Clone, Copy)]
pub enum Slot {
    /// The dungeon's portal.
    Portal,
    /// The dungeon's key.
    Key,
    /// The icon of the item's bag tier.
    BagIcon,
    /// The item itself.
    Drop,
    /// The shiny form of the item.
    Shiny,
}

/// Where a run stands.
#[derive(Debug, Clone, Copy)]
pub enum Phase {
    /// About to begin the next dungeon.
    Dungeon,
    /// About to decide on an upload.
    Consider(Slot),
    /// Waiting for an upload.
    AwaitUpload(Slot),
    /// Waiting for a row to be written.
    AwaitRow(Slot),
    /// About to fetch the dungeon's page.
    Page,
    /// Waiting for the dungeon's page.
    AwaitPage,
    /// About to begin the next item of the dungeon.
    Item,
    /// Waiting for the item's page.
    AwaitItem,
    /// All dungeons are done.
    Done,
}

/// What came of the last action.
#[derive(Debug)]
pub enum SyncEvent {
    /// There was nothing to do.
    Proceed,
    /// The drops of the dungeon's page.
    PageRead(Vec<DropItem>),
    /// The dungeon's page could not be read.
    PageFailed,
    /// What the item's page says of its bag.
    ItemRead(ItemBagInfo),
    /// The item's page could not be read.
    ItemFailed,
    /// The emoji was uploaded: its id, and whether it is animated.
    Uploaded(u64, bool),
    /// The emoji was not uploaded.
    UploadFailed,
    /// The row was written.
    RowWritten,
}

/// What came of the last action, over views.
pub ghost enum EventView {
    Proceed,
    PageRead(Seq<DropView>),
    PageFailed,
    ItemRead(BagInfoView),
    ItemFailed,
    Uploaded(u64, bool),
    UploadFailed,
    RowWritten,
}

impl View for SyncEvent {
    type V = EventView;

    open spec fn view(&self) -> EventView {
        match self {
            SyncEvent::Proceed => EventView::Proceed,
            SyncEvent::PageRead(d) => EventView::PageRead(drop_views(d@)),
            SyncEvent::PageFailed => EventView::PageFailed,
            SyncEvent::ItemRead(i) => EventView::ItemRead(i@),
            SyncEvent::ItemFailed => EventView::ItemFailed,
            SyncEvent::Uploaded(id, animated) => EventView::Uploaded(*id, *animated),
            SyncEvent::UploadFailed => EventView::UploadFailed,
            SyncEvent::RowWritten => EventView::RowWritten,
        }
    }
}

/// An emoji to upload and register.
#[derive(Debug)]
pub struct Job {
    /// Logical name.
    pub logical_name: String,
    /// Name on Discord.
    pub discord_name: String,
    /// Address of the image.
    pub img_url: String,
    /// Category label of the row.
    pub category: String,
    /// Bag tier of the row.
    pub bag_tier: Option<String>,
}

/// What a job is.
pub ghost struct JobView {
    pub logical_name: Seq<char>,
    pub discord_name: Seq<char>,
    pub img_url: Seq<char>,
    pub category: Seq<char>,
    pub bag_tier: Option<Seq<char>>,
}

impl View for Job {
    type V = JobView;

    open spec fn view(&self) -> JobView {
        JobView {
            logical_name: self.logical_name@,
            discord_name: self.discord_name@,
            img_url: self.img_url@,
            category: self.category@,
            bag_tier: opt_view(self.bag_tier),
        }
    }
}

/// A row of the emoji table.
#[derive(Debug)]
pub struct EmojiRow {
    /// What is registered.
    pub job: Job,
    /// Id on Discord, as the table stores it.
    pub emoji_id: i64,
    /// Whether the emoji is animated.
    pub animated: bool,
}

/// What to do next.
#[derive(Debug)]
pub enum SyncAction {
    /// Nothing; hand back [`SyncEvent::Proceed`].
    Proceed,
    /// Fetch a dungeon's page.
    FetchDungeonPage(String),
    /// Fetch an item's page.
    FetchItemPage(String),
    /// Download an image and upload it under a name.
    Upload(Job),
    /// Write a row of the emoji table.
    WriteRow(EmojiRow),
    /// The run is over.
    Finish,
}

/// What to do next, over views.
pub ghost enum ActionView {
    Proceed,
    FetchDungeonPage(Seq<char>),
    FetchItemPage(Seq<char>),
    Upload(JobView),
    WriteRow(JobView, i64, bool),
    Finish,
}

impl View for SyncAction {
    type V = ActionView;

    open spec fn view(&self) -> ActionView {
        match self {
            SyncAction::Proceed => ActionView::Proceed,
            SyncAction::FetchDungeonPage(p) => ActionView::FetchDungeonPage(p@),
            SyncAction::FetchItemPage(p) => ActionView::FetchItemPage(p@),
            SyncAction::Upload(j) => ActionView::Upload(j@),
            SyncAction::WriteRow(row) => ActionView::WriteRow(row.job@, row.emoji_id, row.animated),
            SyncAction::Finish => ActionView::Finish,
        }
    }
}

/// The state of a run, over views.
#[verifier::ext_equal]
pub ghost struct SyncState {
    pub dry_run: bool,
    pub dungeons: Seq<EntryView>,
    /// Emojis that are registered, by their name on Discord.
    pub existing: Map<Seq<char>, (u64, bool)>,
    /// What is known of items' bags, by the address of the item's image.
    pub pages: Map<Seq<char>, BagInfoView>,
    /// Bag tiers whose icon is registered.
    pub bag_tiers: Seq<Seq<char>>,
    pub summary: DrySummary,
    pub dump: Seq<WikiDungeonView>,
    pub at: int,
    pub current: WikiDungeonView,
    pub items: Seq<DropView>,
    pub item: int,
    pub phase: Phase,
}

/// What is known of the bag of an item.
pub open spec fn known_bag(s: SyncState, item: DropView) -> BagInfoView {
    if item.item_wiki_path is Some && s.pages.contains_key(item.img_url) {
        s.pages[item.img_url]
    } else {
        BagInfoView { tier: None, bag_image_url: None, shiny_image_url: None }
    }
}

/// The job of registering an emoji under a logical name.
pub open spec fn job(
    logical: Seq<char>,
    url: Seq<char>,
    category: Seq<char>,
    bag_tier: Option<Seq<char>>,
) -> JobView {
    JobView {
        logical_name: logical,
        discord_name: emoji_name(logical),
        img_url: url,
        category,
        bag_tier,
    }
}

/// The upload that is due for a slot, if any.
pub open spec fn job_of(s: SyncState, slot: Slot) -> Option<JobView> {
    let dungeon = s.dungeons[s.at];
    let item = s.items[s.item];
    let bag = known_bag(s, item);
    match slot {
        Slot::Portal => match dungeon.portal_img_url {
            Some(url) => Some(job("portal_"@ + dungeon.name, url, "portal"@, None)),
            None => None,
        },
        Slot::Key => match dungeon.key_img_url {
            Some(url) => Some(job("key_"@ + dungeon.name, url, "key"@, None)),
            None => None,
        },
        Slot::BagIcon => match (bag.tier, bag.bag_image_url) {
            (Some(tier), Some(url)) => if s.bag_tiers.contains(tier) {
                None
            } else {
                Some(job("bag_"@ + tier, url, "ui"@, None))
            },
            _ => None,
        },
        Slot::Drop => Some(
            job(
                item.logical_name,
                item.img_url,
                if bag.tier == Some("white"@) {
                    "drop_white"@
                } else {
                    "drop"@
                },
                bag.tier,
            ),
        ),
        Slot::Shiny => match bag.shiny_image_url {
            Some(url) => Some(job(item.logical_name + "_shiny"@, url, "drop_shiny"@, Some("shiny"@))),
            None => None,
        },
    }
}

/// What a slot leaves behind once its emoji is registered, or would be: a bag
/// icon is not looked at again, and a shiny form counts as a drop of its own.
pub open spec fn settled(s: SyncState, slot: Slot) -> SyncState {
    match (slot, job_of(s, slot)) {
        (Slot::BagIcon, Some(_)) => SyncState {
            bag_tiers: s.bag_tiers.push(known_bag(s, s.items[s.item]).tier->0),
            ..s
        },
        (Slot::Shiny, Some(j)) => SyncState {
            current: s.current.with_drop(
                WikiEmojiView { logical_name: j.logical_name, img_url: j.img_url },
            ),
            ..s
        },
        _ => s,
    }
}

/// Where the run stands after a slot.
pub open spec fn past(s: SyncState, slot: Slot) -> SyncState {
    match slot {
        Slot::Portal => SyncState { phase: Phase::Consider(Slot::Key), ..s },
        Slot::Key => SyncState { phase: Phase::Page, ..s },
        Slot::BagIcon => SyncState { phase: Phase::Consider(Slot::Drop), ..s },
        Slot::Drop => SyncState { phase: Phase::Consider(Slot::Shiny), ..s },
        Slot::Shiny => SyncState { phase: Phase::Item, item: s.item + 1, ..s },
    }
}

/// A dungeon of the list, before its drops are known.
pub open spec fn opened(d: EntryView) -> WikiDungeonView {
    WikiDungeonView {
        name: d.name,
        display_name: d.display_name,
        wiki_path: d.wiki_path,
        portal: match d.portal_img_url {
            Some(url) => Some(WikiEmojiView { logical_name: "portal_"@ + d.name, img_url: url }),
            None => None,
        },
        key: match d.key_img_url {
            Some(url) => Some(WikiEmojiView { logical_name: "key_"@ + d.name, img_url: url }),
            None => None,
        },
        drops: Seq::empty(),
    }
}

/// Decide on an upload: an emoji that is registered is reused; in a dry run
/// nothing is uploaded or written, only counted.
pub open spec fn considered(s: SyncState, slot: Slot) -> (SyncState, ActionView) {
    match job_of(s, slot) {
        None => (past(s, slot), ActionView::Proceed),
        Some(j) => if s.existing.contains_key(j.discord_name) {
            let (id, animated) = s.existing[j.discord_name];
            if s.dry_run {
                (
                    past(
                        settled(
                            SyncState {
                                summary: DrySummary {
                                    existing_reused: (s.summary.existing_reused + 1) as usize,
                                    ..s.summary
                                },
                                ..s
                            },
                            slot,
                        ),
                        slot,
                    ),
                    ActionView::Proceed,
                )
            } else {
                (
                    SyncState { phase: Phase::AwaitRow(slot), ..s },
                    ActionView::WriteRow(j, id as i64, animated),
                )
            }
        } else if s.dry_run {
            (
                past(
                    settled(
                        SyncState {
                            summary: DrySummary {
                                would_upload: (s.summary.would_upload + 1) as usize,
                                would_upsert_emoji: (s.summary.would_upsert_emoji + 1) as usize,
                                ..s.summary
                            },
                            ..s
                        },
                        slot,
                    ),
                    slot,
                ),
                ActionView::Proceed,
            )
        } else {
            (SyncState { phase: Phase::AwaitUpload(slot), ..s }, ActionView::Upload(j))
        },
    }
}

/// The event answers the action that the phase waits for.
pub open spec fn answers(phase: Phase, e: EventView) -> bool {
    match phase {
        Phase::AwaitUpload(_) => e is Uploaded || e is UploadFailed,
        Phase::AwaitRow(_) => e is RowWritten,
        Phase::AwaitPage => e is PageRead || e is PageFailed,
        Phase::AwaitItem => e is ItemRead || e is ItemFailed,
        _ => e is Proceed,
    }
}

/// One step of a run.
pub open spec fn sync_step(s: SyncState, e: EventView) -> (SyncState, ActionView) {
    match (s.phase, e) {
        (Phase::Dungeon, _) => if s.at < s.dungeons.len() {
            (
                SyncState {
                    current: opened(s.dungeons[s.at]),
                    phase: Phase::Consider(Slot::Portal),
                    ..s
                },
                ActionView::Proceed,
            )
        } else {
            (SyncState { phase: Phase::Done, ..s }, ActionView::Finish)
        },
        (Phase::Consider(slot), _) => considered(s, slot),
        (Phase::AwaitUpload(slot), EventView::Uploaded(id, animated)) => (
            SyncState {
                existing: s.existing.insert(job_of(s, slot)->0.discord_name, (id, animated)),
                phase: Phase::AwaitRow(slot),
                ..s
            },
            ActionView::WriteRow(job_of(s, slot)->0, id as i64, animated),
        ),
        (Phase::AwaitUpload(slot), _) => (past(s, slot), ActionView::Proceed),
        (Phase::AwaitRow(slot), _) => (past(settled(s, slot), slot), ActionView::Proceed),
        (Phase::Page, _) => (
            SyncState { phase: Phase::AwaitPage, ..s },
            ActionView::FetchDungeonPage(s.dungeons[s.at].wiki_path),
        ),
        (Phase::AwaitPage, EventView::PageRead(drops)) => (
            SyncState { items: drops, item: 0, phase: Phase::Item, ..s },
            ActionView::Proceed,
        ),
        (Phase::AwaitPage, _) => (
            SyncState { items: Seq::empty(), item: 0, phase: Phase::Item, ..s },
            ActionView::Proceed,
        ),
        (Phase::Item, _) => if s.item >= s.items.len() {
            (
                SyncState {
                    dump: s.dump.push(s.current),
                    current: blank_dungeon(),
                    at: s.at + 1,
                    phase: Phase::Dungeon,
                    ..s
                },
                ActionView::Proceed,
            )
        } else {
            let item = s.items[s.item];
            if occurs(item.logical_name, "blueprint"@) {
                (SyncState { item: s.item + 1, ..s }, ActionView::Proceed)
            } else {
                let shown = SyncState {
                    current: s.current.with_drop(
                        WikiEmojiView { logical_name: item.logical_name, img_url: item.img_url },
                    ),
                    ..s
                };
                match item.item_wiki_path {
                    Some(path) => if s.pages.contains_key(item.img_url) {
                        (
                            SyncState { phase: Phase::Consider(Slot::BagIcon), ..shown },
                            ActionView::Proceed,
                        )
                    } else {
                        (
                            SyncState { phase: Phase::AwaitItem, ..shown },
                            ActionView::FetchItemPage(path),
                        )
                    },
                    None => (
                        SyncState { phase: Phase::Consider(Slot::BagIcon), ..shown },
                        ActionView::Proceed,
                    ),
                }
            }
        },
        (Phase::AwaitItem, EventView::ItemRead(info)) => (
            SyncState {
                pages: s.pages.insert(s.items[s.item].img_url, info),
                phase: Phase::Consider(Slot::BagIcon),
                ..s
            },
            ActionView::Proceed,
        ),
        (Phase::AwaitItem, _) => (
            SyncState {
                pages: s.pages.insert(
                    s.items[s.item].img_url,
                    BagInfoView { tier: None, bag_image_url: None, shiny_image_url: None },
                ),
                phase: Phase::Consider(Slot::BagIcon),
                ..s
            },
            ActionView::Proceed,
        ),
        (Phase::Done, _) => (s, ActionView::Finish),
    }
}

fn make_job(
    logical_name: String,
    img_url: String,
    category: String,
    bag_tier: Option<String>,
) -> (r: Job)
    ensures
        r@ == job(logical_name@, img_url@, category@, opt_view(bag_tier)),
{
    let discord_name = discord_name(&logical_name);
    Job { logical_name, discord_name, img_url, category, bag_tier }
}

fn row(job: Job, id: u64, animated: bool) -> (r: EmojiRow)
    ensures
        r.job == job,
        r.emoji_id == id as i64,
        r.animated == animated,
{
    EmojiRow { job, emoji_id: #[verifier::truncate] (id as i64), animated }
}

/// A run of the scraper.
#[derive(Debug)]
pub struct SyncRun {
    dry_run: bool,
    dungeons: Vec<DungeonEntry>,
    existing: NameMap<(u64, bool)>,
    pages: NameMap<ItemBagInfo>,
    bag_tiers: Vec<String>,
    summary: DrySummary,
    dump: Vec<WikiDungeon>,
    at: usize,
    current: WikiDungeon,
    items: Vec<DropItem>,
    item: usize,
    phase: Phase,
}

/// The phase is one of an item.
pub open spec fn in_item(phase: Phase) -> bool {
    match phase {
        Phase::Consider(slot) | Phase::AwaitUpload(slot) | Phase::AwaitRow(slot) => !(slot is Portal)
            && !(slot is Key),
        Phase::AwaitItem => true,
        _ => false,
    }
}

/// A dungeon of the dump stands for one of the list.
pub open spec fn stands_for(w: WikiDungeonView, d: EntryView) -> bool {
    w.name == d.name && w.display_name == d.display_name && w.wiki_path == d.wiki_path
}

/// The dump holds the dungeons of the list that are done, in the order of the list.
pub open spec fn dump_in_step(s: SyncState) -> bool {
    &&& s.dump.len() == s.at
    &&& forall|k: int| 0 <= k < s.at ==> stands_for(#[trigger] s.dump[k], s.dungeons[k])
    &&& !(s.phase is Dungeon) && !(s.phase is Done) ==> stands_for(s.current, s.dungeons[s.at])
}

/// A state that a run can be in.
pub open spec fn run_valid(s: SyncState) -> bool {
    &&& 0 <= s.at <= s.dungeons.len()
    &&& 0 <= s.item <= s.items.len()
    &&& !(s.phase is Dungeon) && !(s.phase is Done) ==> s.at < s.dungeons.len()
    &&& dump_in_step(s)
    &&& s.phase is Done ==> s.at == s.dungeons.len()
    &&& in_item(s.phase) ==> s.item < s.items.len()
    &&& s.phase matches Phase::AwaitUpload(slot) ==> job_of(s, slot) is Some && !s.dry_run
        && !s.existing.contains_key(job_of(s, slot)->0.discord_name)
    &&& s.phase matches Phase::AwaitRow(slot) ==> job_of(s, slot) is Some && !s.dry_run
        && s.existing.contains_key(job_of(s, slot)->0.discord_name)
}

impl View for SyncRun {
    type V = SyncState;

    closed spec fn view(&self) -> SyncState {
        SyncState {
            dry_run: self.dry_run,
            dungeons: entry_views(self.dungeons@),
            existing: self.existing@,
            pages: self.pages@.map_values(|v: ItemBagInfo| v@),
            bag_tiers: views(self.bag_tiers@),
            summary: self.summary,
            dump: dungeon_views(self.dump@),
            at: self.at as int,
            current: self.current@,
            items: drop_views(self.items@),
            item: self.item as int,
            phase: self.phase,
        }
    }
}

/// The counters of a dry run can still grow.
pub open spec fn counters_have_room(c: DrySummary) -> bool {
    c.existing_reused < usize::MAX && c.would_upload < usize::MAX && c.would_upsert_emoji
        < usize::MAX
}

/// The state that a run starts from.
pub open spec fn run_start(
    dry_run: bool,
    dungeons: Seq<EntryView>,
    existing: Map<Seq<char>, (u64, bool)>,
) -> SyncState {
    SyncState {
        dry_run,
        dungeons,
        existing,
        pages: Map::empty(),
        bag_tiers: Seq::empty(),
        summary: DrySummary { existing_reused: 0, would_upload: 0, would_upsert_emoji: 0 },
        dump: Seq::empty(),
        at: 0,
        current: blank_dungeon(),
        items: Seq::empty(),
        item: 0,
        phase: Phase::Dungeon,
    }
}

impl SyncRun {
    /// Begin a run over the dungeons of the wiki's list, with the emojis that are
    /// registered.
    pub fn new(
        dry_run: bool,
        dungeons: Vec<DungeonEntry>,
        existing: NameMap<(u64, bool)>,
    ) -> (r: Self)
        ensures
            r@ == run_start(dry_run, entry_views(dungeons@), existing@),
            run_valid(r@),
    {
        let r = SyncRun {
            dry_run,
            dungeons,
            existing,
            pages: NameMap::new(),
            bag_tiers: Vec::new(),
            summary: DrySummary { existing_reused: 0, would_upload: 0, would_upsert_emoji: 0 },
            dump: Vec::new(),
            at: 0,
            current: WikiDungeon::blank(),
            items: Vec::new(),
            item: 0,
            phase: Phase::Dungeon,
        };
        assert(r@ =~= run_start(dry_run, entry_views(dungeons@), existing@));
        r
    }

    /// The counters of a dry run.
    pub fn summary(&self) -> (r: DrySummary)
        ensures
            r == self@.summary,
    {
        self.summary
    }

    /// Hand over what the run found on the wiki.
    pub fn into_dump(self) -> (r: Vec<WikiDungeon>)
        ensures
            dungeon_views(r@) == self@.dump,
    {
        self.dump
    }

    fn bag(&self) -> (r: Option<&ItemBagInfo>)
        requires
            self@.item < self@.items.len(),
        ensures
            match r {
                Some(b) => b@ == known_bag(self@, self@.items[self@.item]),
                None => known_bag(self@, self@.items[self@.item]) == (BagInfoView {
                    tier: None,
                    bag_image_url: None,
                    shiny_image_url: None,
                }),
            },
    {
        let item = &self.items[self.item];
        assert(self@.items[self@.item] == item@);
        if item.item_wiki_path.is_some() {
            self.pages.get(&item.img_url)
        } else {
            None
        }
    }

    fn has_bag_tier(&self, tier: &str) -> (r: bool)
        ensures
            r == self@.bag_tiers.contains(tier@),
    {
        let mut i: usize = 0;
        while i < self.bag_tiers.len()
            invariant
                i <= self.bag_tiers@.len(),
                forall|k: int| 0 <= k < i ==> #[trigger] views(self.bag_tiers@)[k] != tier@,
            decreases self.bag_tiers@.len() - i,
        {
            assert(views(self.bag_tiers@)[i as int] == self.bag_tiers@[i as int]@);
            if same(&self.bag_tiers[i], tier) {
                return true;
            }
            i = i + 1;
        }
        false
    }

    fn due(&self, slot: Slot) -> (r: Option<Job>)
        requires
            match slot {
                Slot::Portal | Slot::Key => self@.at < self@.dungeons.len(),
                _ => self@.item < self@.items.len(),
            },
        ensures
            match r {
                Some(j) => job_of(self@, slot) == Some(j@),
                None => job_of(self@, slot) is None,
            },
    {
        match slot {
            Slot::Portal => {
                let d = &self.dungeons[self.at];
                assert(self@.dungeons[self@.at] == d@);
                match &d.portal_img_url {
                    Some(url) => Some(make_job(cat2("portal_", &d.name), own(url), own("portal"), None)),
                    None => None,
                }
            },
            Slot::Key => {
                let d = &self.dungeons[self.at];
                assert(self@.dungeons[self@.at] == d@);
                match &d.key_img_url {
                    Some(url) => Some(make_job(cat2("key_", &d.name), own(url), own("key"), None)),
                    None => None,
                }
            },
            Slot::BagIcon => match self.bag() {
                Some(b) => match (&b.tier, &b.bag_image_url) {
                    (Some(tier), Some(url)) => if self.has_bag_tier(tier) {
                        None
                    } else {
                        Some(make_job(cat2("bag_", tier), own(url), own("ui"), None))
                    },
                    _ => None,
                },
                None => None,
            },
            Slot::Drop => {
                let item = &self.items[self.item];
                assert(self@.items[self@.item] == item@);
                let tier = match self.bag() {
                    Some(b) => own_opt(&b.tier),
                    None => None,
                };
                let category = match &tier {
                    Some(t) => if same(t, "white") {
                        own("drop_white")
                    } else {
                        own("drop")
                    },
                    None => own("drop"),
                };
                Some(make_job(own(&item.logical_name), own(&item.img_url), category, tier))
            },
            Slot::Shiny => {
                let item = &self.items[self.item];
                assert(self@.items[self@.item] == item@);
                match self.bag() {
                    Some(b) => match &b.shiny_image_url {
                        Some(url) => Some(
                            make_job(
                                cat2(&item.logical_name, "_shiny"),
                                own(url),
                                own("drop_shiny"),
                                Some(own("shiny")),
                            ),
                        ),
                        None => None,
                    },
                    None => None,
                }
            },
        }
    }

    fn settle(&mut self, slot: Slot)
        requires
            match slot {
                Slot::Portal | Slot::Key => old(self)@.at < old(self)@.dungeons.len(),
                _ => old(self)@.item < old(self)@.items.len(),
            },
        ensures
            final(self)@ == settled(old(self)@, slot),
    {
        broadcast use views_push;

        let ghost s = self@;
        match slot {
            Slot::BagIcon => {
                if self.due(slot).is_some() {
                    let tier = match self.bag() {
                        Some(b) => own_opt(&b.tier),
                        None => None,
                    };
                    if let Some(t) = tier {
                        self.bag_tiers.push(t);
                    }
                }
            },
            Slot::Shiny => {
                if let Some(j) = self.due(slot) {
                    self.current.add_drop(j.logical_name, j.img_url);
                }
            },
            _ => {},
        }
        assert(self@ =~= settled(s, slot));
    }

    fn pass(&mut self, slot: Slot)
        requires
            slot is Shiny ==> old(self)@.item < old(self)@.items.len(),
        ensures
            final(self)@ == past(old(self)@, slot),
    {
        match slot {
            Slot::Portal => {
                self.phase = Phase::Consider(Slot::Key);
            },
            Slot::Key => {
                self.phase = Phase::Page;
            },
            Slot::BagIcon => {
                self.phase = Phase::Consider(Slot::Drop);
            },
            Slot::Drop => {
                self.phase = Phase::Consider(Slot::Shiny);
            },
            Slot::Shiny => {
                let n: usize = self.items.len();
                assert(self.item < n);
                self.item = self.item + 1;
                self.phase = Phase::Item;
            },
        }
    }

    /// Decide on an upload: the emoji is uploaded only where its name is not
    /// registered, and never in a dry run.
    fn consider(&mut self, slot: Slot) -> (r: SyncAction)
        requires
            run_valid(old(self)@),
            old(self)@.phase == Phase::Consider(slot),
            counters_have_room(old(self)@.summary),
        ensures
            (final(self)@, r@) == considered(old(self)@, slot),
    {
        match self.due(slot) {
            None => {
                self.pass(slot);
                SyncAction::Proceed
            },
            Some(j) => {
                let found: Option<(u64, bool)> = match self.existing.get(&j.discord_name) {
                    Some(e) => Some(*e),
                    None => None,
                };
                match found {
                    Some((id, animated)) => if self.dry_run {
                        self.summary.existing_reused = self.summary.existing_reused + 1;
                        self.settle(slot);
                        self.pass(slot);
                        SyncAction::Proceed
                    } else {
                        self.phase = Phase::AwaitRow(slot);
                        SyncAction::WriteRow(row(j, id, animated))
                    },
                    None => if self.dry_run {
                        self.summary.would_upload = self.summary.would_upload + 1;
                        self.summary.would_upsert_emoji = self.summary.would_upsert_emoji + 1;
                        self.settle(slot);
                        self.pass(slot);
                        SyncAction::Proceed
                    } else {
                        self.phase = Phase::AwaitUpload(slot);
                        SyncAction::Upload(j)
                    },
                }
            },
        }
    }

    fn open_dungeon(&self) -> (r: WikiDungeon)
        requires
            self@.at < self@.dungeons.len(),
        ensures
            r@ == opened(self@.dungeons[self@.at]),
    {
        let d = &self.dungeons[self.at];
        assert(self@.dungeons[self@.at] == d@);
        let mut w = WikiDungeon::blank();
        w.name = own(&d.name);
        w.display_name = own(&d.display_name);
        w.wiki_path = own(&d.wiki_path);
        if let Some(url) = &d.portal_img_url {
            w.portal = Some(WikiEmoji { logical_name: cat2("portal_", &d.name), img_url: own(url) });
        }
        if let Some(url) = &d.key_img_url {
            w.key = Some(WikiEmoji { logical_name: cat2("key_", &d.name), img_url: own(url) });
        }
        w
    }

    fn learn(&mut self, info: ItemBagInfo)
        requires
            old(self)@.item < old(self)@.items.len(),
        ensures
            final(self)@ == (SyncState {
                pages: old(self)@.pages.insert(old(self)@.items[old(self)@.item].img_url, info@),
                phase: Phase::Consider(Slot::BagIcon),
                ..old(self)@
            }),
    {
        let ghost s = self@;
        assert(self@.items[self@.item] == self.items@[self.item as int]@);
        let url = own(&self.items[self.item].img_url);
        self.pages.insert(&url, info);
        self.phase = Phase::Consider(Slot::BagIcon);
        assert(self@.pages =~= s.pages.insert(s.items[s.item].img_url, info@));
    }

    fn begin_item(&mut self) -> (r: SyncAction)
        requires
            run_valid(old(self)@),
            old(self)@.phase is Item,
            old(self)@.item < old(self)@.items.len(),
        ensures
            (final(self)@, r@) == sync_step(old(self)@, EventView::Proceed),
    {
        let ghost s = self@;
        let item = &self.items[self.item];
        assert(s.items[s.item] == item@);
        if contains(&item.logical_name, "blueprint") {
            let n: usize = self.items.len();
            assert(self.item < n);
            self.item = self.item + 1;
            return SyncAction::Proceed;
        }
        let name = own(&item.logical_name);
        let url = own(&item.img_url);
        let known = self.pages.contains(&item.img_url);
        let path = own_opt(&item.item_wiki_path);
        self.current.add_drop(name, url);
        match path {
            Some(p) => if known {
                self.phase = Phase::Consider(Slot::BagIcon);
                SyncAction::Proceed
            } else {
                self.phase = Phase::AwaitItem;
                SyncAction::FetchItemPage(p)
            },
            None => {
                self.phase = Phase::Consider(Slot::BagIcon);
                SyncAction::Proceed
            },
        }
    }

    /// Take in what came of the last action, and say what to do next.
    pub fn step(&mut self, event: SyncEvent) -> (r: SyncAction)
        requires
            run_valid(old(self)@),
            answers(old(self)@.phase, event@),
            counters_have_room(old(self)@.summary),
        ensures
            (final(self)@, r@) == sync_step(old(self)@, event@),
            run_valid(final(self)@),
    {
        proof {
            steps_keep_runs_valid(self@, event@);
        }
        let ghost s = self@;
        match self.phase {
            Phase::Dungeon => if self.at < self.dungeons.len() {
                self.current = self.open_dungeon();
                self.phase = Phase::Consider(Slot::Portal);
                SyncAction::Proceed
            } else {
                self.phase = Phase::Done;
                SyncAction::Finish
            },
            Phase::Consider(slot) => self.consider(slot),
            Phase::AwaitUpload(slot) => match event {
                SyncEvent::Uploaded(id, animated) => {
                    match self.due(slot) {
                        Some(j) => {
                            self.existing.insert(&j.discord_name, (id, animated));
                            self.phase = Phase::AwaitRow(slot);
                            SyncAction::WriteRow(row(j, id, animated))
                        },
                        None => SyncAction::Proceed,
                    }
                },
                _ => {
                    self.pass(slot);
                    SyncAction::Proceed
                },
            },
            Phase::AwaitRow(slot) => {
                self.settle(slot);
                self.pass(slot);
                SyncAction::Proceed
            },
            Phase::Page => {
                self.phase = Phase::AwaitPage;
                assert(s.dungeons[s.at] == self.dungeons@[self.at as int]@);
                SyncAction::FetchDungeonPage(own(&self.dungeons[self.at].wiki_path))
            },
            Phase::AwaitPage => {
                self.items = match event {
                    SyncEvent::PageRead(drops) => drops,
                    _ => Vec::new(),
                };
                self.item = 0;
                self.phase = Phase::Item;
                assert(self@ =~= sync_step(s, event@).0);
                SyncAction::Proceed
            },
            Phase::Item => if self.item >= self.items.len() {
                let mut done = WikiDungeon::blank();
                std::mem::swap(&mut done, &mut self.current);
                self.dump.push(done);
                let n: usize = self.dungeons.len();
                assert(self.at < n);
                self.at = self.at + 1;
                self.phase = Phase::Dungeon;
                assert(self@.dump =~= s.dump.push(s.current));
                SyncAction::Proceed
            } else {
                self.begin_item()
            },
            Phase::AwaitItem => {
                let info = match event {
                    SyncEvent::ItemRead(info) => info,
                    _ => ItemBagInfo::unknown(),
                };
                self.learn(info);
                SyncAction::Proceed
            },
            Phase::Done => SyncAction::Finish,
        }
    }
}

// ----- what every run keeps ----------------------------------------------------------

/// A step leads from a valid state to a valid state.
pub proof fn steps_keep_runs_valid(s: SyncState, e: EventView)
    requires
        run_valid(s),
        answers(s.phase, e),
    ensures
        run_valid(sync_step(s, e).0),
{
}

/// A run that is over has seen each dungeon of the list, and its dump holds one for
/// each, in the same order.
pub proof fn dumps_hold_every_dungeon(s: SyncState, e: EventView)
    requires
        run_valid(s),
        answers(s.phase, e),
        sync_step(s, e).1 is Finish,
    ensures
        ({
            let end = sync_step(s, e).0;
            end.dump.len() == s.dungeons.len() && forall|k: int|
                0 <= k < s.dungeons.len() ==> stands_for(#[trigger] end.dump[k], s.dungeons[k])
        }),
{
}

/// In a dry run no step uploads an emoji or writes a row.
pub proof fn dry_runs_write_nothing(s: SyncState, e: EventView)
    requires
        run_valid(s),
        answers(s.phase, e),
        s.dry_run,
    ensures
        !(sync_step(s, e).1 is Upload),
        !(sync_step(s, e).1 is WriteRow),
        sync_step(s, e).0.existing == s.existing,
        sync_step(s, e).0.dry_run,
{
}

/// An emoji is uploaded only under a name that is not registered.
pub proof fn uploads_are_new(s: SyncState, e: EventView)
    requires
        run_valid(s),
        answers(s.phase, e),
    ensures
        sync_step(s, e).1 matches ActionView::Upload(j) ==> !s.existing.contains_key(
            j.discord_name,
        ) && !s.dry_run,
{
}

/// What is registered stays registered: a name that was uploaded once is never
/// uploaded again in the same run.
pub proof fn registered_names_stay(s: SyncState, e: EventView, name: Seq<char>)
    requires
        run_valid(s),
        answers(s.phase, e),
        s.existing.contains_key(name),
    ensures
        sync_step(s, e).0.existing.contains_key(name),
        sync_step(s, e).0.existing[name] == s.existing[name],
{
}

/// After an upload its name is registered with what Discord answered.
pub proof fn uploads_are_registered(s: SyncState, id: u64, animated: bool)
    requires
        run_valid(s),
        s.phase is AwaitUpload,
    ensures
        ({
            let j = job_of(s, s.phase->AwaitUpload_0)->0;
            let next = sync_step(s, EventView::Uploaded(id, animated));
            next.0.existing == s.existing.insert(j.discord_name, (id, animated)) && next.1
                == ActionView::WriteRow(j, id as i64, animated)
        }),
{
}

/// An item's page is fetched only where nothing is known of its image yet, and
/// what became known stays known: no page is fetched twice for one image.
pub proof fn item_pages_are_fetched_once(s: SyncState, e: EventView, url: Seq<char>)
    requires
        run_valid(s),
        answers(s.phase, e),
    ensures
        sync_step(s, e).1 is FetchItemPage ==> !s.pages.contains_key(s.items[s.item].img_url),
        s.pages.contains_key(url) ==> sync_step(s, e).0.pages.contains_key(url),
        s.phase is AwaitItem ==> sync_step(s, e).0.pages.contains_key(s.items[s.item].img_url),
{
}

/// A step never lists a blueprint that the page shows among the drops.
pub proof fn blueprints_are_never_listed(s: SyncState)
    requires
        run_valid(s),
        s.phase is Item,
        s.item < s.items.len(),
        occurs(s.items[s.item].logical_name, "blueprint"@),
    ensures
        sync_step(s, EventView::Proceed) == (
            SyncState { item: s.item + 1, ..s },
            ActionView::Proceed,
        ),
{
}

// ----- wiping the registered emojis ------------------------------------------------------

/// The answer to the question whether to wipe everything is a yes.
pub open spec fn says_yes(answer: Seq<char>) -> bool {
    lowercase(trimmed(answer)) == "y"@ || lowercase(trimmed(answer)) == "yes"@
}

/// Whether a lower-case answer is a yes.
pub fn is_yes(lower: &str) -> (r: bool)
    ensures
        r == (lower@ == "y"@ || lower@ == "yes"@),
{
    same(lower, "y") || same(lower, "yes")
}

/// Whether the operator agreed to wipe everything: only `y` and `yes` count.
pub fn purge_confirmed(answer: &str) -> (r: bool)
    ensures
        r == says_yes(answer@),
{
    is_yes(&trim(answer).as_str().to_lowercase())
}

// ----- what a run asks for and records -------------------------------------------------------------

/// A dungeon's portal and key are asked for under its name, from the pictures that its
/// entry shows, and not at all where it shows none.
pub proof fn portals_and_keys_are_those_of_the_dungeon(s: SyncState)
    ensures
        ({
            let d = s.dungeons[s.at];
            &&& job_of(s, Slot::Portal) is Some <==> d.portal_img_url is Some
            &&& d.portal_img_url matches Some(url) ==> job_of(s, Slot::Portal) == Some(
                JobView {
                    logical_name: "portal_"@ + d.name,
                    discord_name: emoji_name("portal_"@ + d.name),
                    img_url: url,
                    category: "portal"@,
                    bag_tier: None,
                },
            )
            &&& job_of(s, Slot::Key) is Some <==> d.key_img_url is Some
            &&& d.key_img_url matches Some(url) ==> job_of(s, Slot::Key) == Some(
                JobView {
                    logical_name: "key_"@ + d.name,
                    discord_name: emoji_name("key_"@ + d.name),
                    img_url: url,
                    category: "key"@,
                    bag_tier: None,
                },
            )
        }),
{
}

/// What a drop's own page said is what its emoji is filed under: a white bag makes it a
/// white drop, each other bag and none at all a plain one; a drop without a page of its
/// own, or whose page could not be read, has no bag.
pub proof fn drops_are_filed_under_their_bag(s: SyncState, item: DropView, info: BagInfoView)
    requires
        s.items[s.item] == item,
    ensures
        item.item_wiki_path is Some && s.pages.contains_key(item.img_url) && s.pages[item.img_url]
            == info ==> job_of(s, Slot::Drop) == Some(
            JobView {
                logical_name: item.logical_name,
                discord_name: emoji_name(item.logical_name),
                img_url: item.img_url,
                category: if info.tier == Some("white"@) {
                    "drop_white"@
                } else {
                    "drop"@
                },
                bag_tier: info.tier,
            },
        ),
        item.item_wiki_path is None || !s.pages.contains_key(item.img_url) ==> job_of(s, Slot::Drop)
            == Some(
            JobView {
                logical_name: item.logical_name,
                discord_name: emoji_name(item.logical_name),
                img_url: item.img_url,
                category: "drop"@,
                bag_tier: None,
            },
        ),
{
    reveal_strlit("white");
}

/// A bag's icon is asked for once, from the first drop whose page shows the bag; a shiny
/// picture is asked for where the page shows one.
pub proof fn bags_and_shinies_come_from_the_page(s: SyncState, item: DropView, info: BagInfoView)
    requires
        s.items[s.item] == item,
        item.item_wiki_path is Some,
        s.pages.contains_key(item.img_url),
        s.pages[item.img_url] == info,
    ensures
        job_of(s, Slot::BagIcon) is Some <==> info.tier is Some && info.bag_image_url is Some
            && !s.bag_tiers.contains(info.tier->0),
        job_of(s, Slot::BagIcon) matches Some(j) ==> j == (JobView {
            logical_name: "bag_"@ + info.tier->0,
            discord_name: emoji_name("bag_"@ + info.tier->0),
            img_url: info.bag_image_url->0,
            category: "ui"@,
            bag_tier: None,
        }),
        job_of(s, Slot::Shiny) is Some <==> info.shiny_image_url is Some,
        job_of(s, Slot::Shiny) matches Some(j) ==> j == (JobView {
            logical_name: item.logical_name + "_shiny"@,
            discord_name: emoji_name(item.logical_name + "_shiny"@),
            img_url: info.shiny_image_url->0,
            category: "drop_shiny"@,
            bag_tier: Some("shiny"@),
        }),
{
}

/// Outside a dry run, an emoji that the application has is written down under the number
/// it has, without an upload; one that it lacks is uploaded, and written down under the
/// number that the upload gave it, which is remembered; a failed upload writes nothing and
/// the run goes on behind it.
pub proof fn missing_emojis_are_uploaded_and_written(
    s: SyncState,
    slot: Slot,
    j: JobView,
    id: u64,
    animated: bool,
)
    requires
        !s.dry_run,
        job_of(s, slot) == Some(j),
    ensures
        s.existing.contains_key(j.discord_name) && s.phase == Phase::Consider(slot) ==> sync_step(
            s,
            EventView::Proceed,
        ) == (
            SyncState { phase: Phase::AwaitRow(slot), ..s },
            ActionView::WriteRow(
                j,
                s.existing[j.discord_name].0 as i64,
                s.existing[j.discord_name].1,
            ),
        ),
        !s.existing.contains_key(j.discord_name) && s.phase == Phase::Consider(slot) ==> sync_step(
            s,
            EventView::Proceed,
        ) == (SyncState { phase: Phase::AwaitUpload(slot), ..s }, ActionView::Upload(j)),
        s.phase == Phase::AwaitUpload(slot) ==> sync_step(s, EventView::Uploaded(id, animated)) == (
            SyncState {
                existing: s.existing.insert(j.discord_name, (id, animated)),
                phase: Phase::AwaitRow(slot),
                ..s
            },
            ActionView::WriteRow(j, id as i64, animated),
        ),
        s.phase == Phase::AwaitUpload(slot) ==> sync_step(s, EventView::UploadFailed).0
            == (SyncState {
            phase: sync_step(s, EventView::UploadFailed).0.phase,
            item: sync_step(s, EventView::UploadFailed).0.item,
            ..s
        }) && sync_step(s, EventView::UploadFailed).1 == ActionView::Proceed,
{
}

/// The order of a run: a dungeon's portal, its key, its page; then of each of its drops
/// the bag's icon, the drop, the shiny picture.
pub proof fn pictures_come_in_order(s: SyncState)
    requires
        !s.dry_run,
    ensures
        ({
            let next = |slot: Slot| sync_step(
                SyncState { phase: Phase::AwaitUpload(slot), ..s },
                EventView::UploadFailed,
            ).0;
            let written = |slot: Slot| sync_step(
                SyncState { phase: Phase::AwaitRow(slot), ..s },
                EventView::RowWritten,
            ).0;
            &&& next(Slot::Portal).phase == Phase::Consider(Slot::Key) && next(Slot::Portal).item
                == s.item
            &&& next(Slot::Key).phase == Phase::Page && next(Slot::Key).item == s.item
            &&& next(Slot::BagIcon).phase == Phase::Consider(Slot::Drop) && next(Slot::BagIcon).item
                == s.item
            &&& next(Slot::Drop).phase == Phase::Consider(Slot::Shiny) && next(Slot::Drop).item
                == s.item
            &&& next(Slot::Shiny).phase == Phase::Item && next(Slot::Shiny).item == s.item + 1
            &&& written(Slot::Portal).phase == Phase::Consider(Slot::Key)
            &&& written(Slot::Key).phase == Phase::Page
            &&& written(Slot::BagIcon).phase == Phase::Consider(Slot::Drop)
            &&& written(Slot::Drop).phase == Phase::Consider(Slot::Shiny)
            &&& written(Slot::Shiny).phase == Phase::Item
            &&& written(Slot::Drop).item == s.item && written(Slot::BagIcon).item == s.item
            &&& written(Slot::Shiny).item == s.item + 1
        }),
{
}

/// What a slot without a picture does to a run: nothing but to go on to the next one.
pub proof fn slots_without_a_picture_are_passed_by(s: SyncState, slot: Slot)
    requires
        s.phase == Phase::Consider(slot),
        job_of(s, slot) is None,
    ensures
        sync_step(s, EventView::Proceed) == (
            SyncState {
                phase: match slot {
                    Slot::Portal => Phase::Consider(Slot::Key),
                    Slot::Key => Phase::Page,
                    Slot::BagIcon => Phase::Consider(Slot::Drop),
                    Slot::Drop => Phase::Consider(Slot::Shiny),
                    Slot::Shiny => Phase::Item,
                },
                item: if slot is Shiny {
                    s.item + 1
                } else {
                    s.item
                },
                ..s
            },
            ActionView::Proceed,
        ),
{
}

/// A bag whose icon was written down is not asked for again; a shiny drop that was
/// written down is one of the dungeon's drops; the other slots leave both as they are.
pub proof fn written_rows_are_remembered(s: SyncState, slot: Slot, j: JobView)
    requires
        s.phase == Phase::AwaitRow(slot),
        job_of(s, slot) == Some(j),
    ensures
        ({
            let t = sync_step(s, EventView::RowWritten).0;
            &&& t.bag_tiers == (if slot is BagIcon {
                s.bag_tiers.push(known_bag(s, s.items[s.item]).tier->0)
            } else {
                s.bag_tiers
            })
            &&& slot is BagIcon ==> "bag_"@ + t.bag_tiers.last() == j.logical_name
            &&& t.current.drops == (if slot is Shiny {
                s.current.drops.push(
                    WikiEmojiView { logical_name: j.logical_name, img_url: j.img_url },
                )
            } else {
                s.current.drops
            })
            &&& t.dump == s.dump && t.existing == s.existing && t.pages == s.pages && t.at == s.at
            &&& t.items == s.items && t.summary == s.summary && t.dungeons == s.dungeons
        }),
{
}

/// A dry run uploads and writes nothing: it counts what it would reuse, and what it would
/// upload and write.
pub proof fn dry_runs_only_count(s: SyncState, slot: Slot, j: JobView)
    requires
        s.dry_run,
        s.phase == Phase::Consider(slot),
        job_of(s, slot) == Some(j),
        counters_have_room(s.summary),
    ensures
        ({
            let (t, action) = sync_step(s, EventView::Proceed);
            let known = s.existing.contains_key(j.discord_name);
            &&& action == ActionView::Proceed
            &&& t.existing == s.existing
            &&& known ==> t.summary.existing_reused == s.summary.existing_reused + 1
                && t.summary.would_upload == s.summary.would_upload && t.summary.would_upsert_emoji
                == s.summary.would_upsert_emoji
            &&& !known ==> t.summary.existing_reused == s.summary.existing_reused
                && t.summary.would_upload == s.summary.would_upload + 1
                && t.summary.would_upsert_emoji == s.summary.would_upsert_emoji + 1
        }),
{
}

/// A dungeon's page is fetched from its own address, and what it shows are the drops that
/// are gone through from the first; an unreadable page shows none.
pub proof fn pages_give_the_drops(s: SyncState, drops: Seq<DropView>)
    ensures
        s.phase is Page ==> sync_step(s, EventView::Proceed) == (
            SyncState { phase: Phase::AwaitPage, ..s },
            ActionView::FetchDungeonPage(s.dungeons[s.at].wiki_path),
        ),
        s.phase is AwaitPage ==> sync_step(s, EventView::PageRead(drops)) == (
            SyncState { items: drops, item: 0, phase: Phase::Item, ..s },
            ActionView::Proceed,
        ),
        s.phase is AwaitPage ==> sync_step(s, EventView::PageFailed) == (
            SyncState { items: Seq::empty(), item: 0, phase: Phase::Item, ..s },
            ActionView::Proceed,
        ),
{
}

/// A blueprint is passed over. Each other drop is recorded, under its name and with its
/// picture, behind those recorded before it; its own page is fetched where it has one that
/// was not read before, and read once.
pub proof fn drops_are_recorded_unless_blueprints(s: SyncState, item: DropView, info: BagInfoView)
    requires
        s.phase is Item,
        0 <= s.item < s.items.len(),
        s.items[s.item] == item,
    ensures
        ({
            let (t, action) = sync_step(s, EventView::Proceed);
            let fresh = item.item_wiki_path is Some && !s.pages.contains_key(item.img_url);
            &&& occurs(item.logical_name, "blueprint"@) ==> t == (SyncState {
                item: s.item + 1,
                ..s
            }) && action is Proceed
            &&& !occurs(item.logical_name, "blueprint"@) ==> {
                &&& t.current.drops == s.current.drops.push(
                    WikiEmojiView { logical_name: item.logical_name, img_url: item.img_url },
                )
                &&& t.current.name == s.current.name && t.current.display_name
                    == s.current.display_name && t.current.wiki_path == s.current.wiki_path
                &&& t.current.portal == s.current.portal && t.current.key == s.current.key
                &&& fresh ==> t.phase is AwaitItem && action == ActionView::FetchItemPage(
                    item.item_wiki_path->0,
                )
                &&& !fresh ==> t.phase == Phase::Consider(Slot::BagIcon) && action is Proceed
                &&& t == (SyncState { current: t.current, phase: t.phase, ..s })
            }
            &&& sync_step(
                SyncState { phase: Phase::AwaitItem, ..s },
                EventView::ItemRead(info),
            ).0 == (SyncState {
                pages: s.pages.insert(item.img_url, info),
                phase: Phase::Consider(Slot::BagIcon),
                ..s
            })
            &&& sync_step(SyncState { phase: Phase::AwaitItem, ..s }, EventView::ItemFailed).0
                == (SyncState {
                pages: s.pages.insert(
                    item.img_url,
                    BagInfoView { tier: None, bag_image_url: None, shiny_image_url: None },
                ),
                phase: Phase::Consider(Slot::BagIcon),
                ..s
            })
        }),
{
}

/// Each dungeon is recorded with what its entry says and with the pictures of its portal
/// and its key, first without drops; behind its last drop it joins those recorded before
/// it, and the run goes on with the next one, or ends behind the last.
pub proof fn dungeons_are_recorded_one_by_one(s: SyncState)
    requires
        run_valid(s),
    ensures
        s.phase is Dungeon && s.at < s.dungeons.len() ==> {
            let (t, action) = sync_step(s, EventView::Proceed);
            let d = s.dungeons[s.at];
            &&& t.phase == Phase::Consider(Slot::Portal) && action is Proceed
            &&& t == (SyncState { current: t.current, phase: t.phase, ..s })
            &&& t.current.name == d.name && t.current.display_name == d.display_name
            &&& t.current.wiki_path == d.wiki_path && t.current.drops.len() == 0
            &&& t.current.portal is Some <==> d.portal_img_url is Some
            &&& d.portal_img_url is Some ==> t.current.portal->0.logical_name == "portal_"@ + d.name
                && t.current.portal->0.img_url == d.portal_img_url->0
            &&& t.current.key is Some <==> d.key_img_url is Some
            &&& d.key_img_url is Some ==> t.current.key->0.logical_name == "key_"@ + d.name
                && t.current.key->0.img_url == d.key_img_url->0
        },
        s.phase is Dungeon && s.at == s.dungeons.len() ==> sync_step(s, EventView::Proceed).0.phase
            is Done && sync_step(s, EventView::Proceed).1 is Finish && sync_step(
            s,
            EventView::Proceed,
        ).0.dump == s.dump,
        s.phase is Item && s.item == s.items.len() ==> {
            let t = sync_step(s, EventView::Proceed).0;
            &&& t.dump == s.dump.push(s.current)
            &&& t.at == s.at + 1 && t.phase is Dungeon
            &&& t.existing == s.existing && t.pages == s.pages && t.bag_tiers == s.bag_tiers
            &&& t.summary == s.summary
        },
{
}

/// The view of a `Job` shows each of its fields as it is.
pub proof fn job_shows_its_fields(x: Job)
    ensures
        x@.logical_name == x.logical_name@,
        x@.discord_name == x.discord_name@,
        x@.img_url == x.img_url@,
        x@.category == x.category@,
        x.bag_tier is Some ==> x@.bag_tier == Some((x.bag_tier->0)@),
        x.bag_tier is None ==> x@.bag_tier is None,
{
}

} // verus!
