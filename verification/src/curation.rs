//! The operator's allowlist, and what the scraper saw on its last run.
//!
//! A dungeon that is not on the allowlist has not been curated yet, and
//! everything of it is kept.

use vstd::prelude::*;

use crate::name_map::NameMap;
use crate::text::{same, views};

verus! {

/// What is kept of a dungeon.
#[derive(Debug)]
pub struct DungeonCuration {
    /// Names of the reactions that are kept.
    pub reactions: Vec<String>,
    /// Logical names of the drops that are kept.
    pub drops: Vec<String>,
}

/// What is kept of a dungeon, over views.
pub ghost struct DungeonCurationView {
    pub reactions: Seq<Seq<char>>,
    pub drops: Seq<Seq<char>>,
}

impl View for DungeonCuration {
    type V = DungeonCurationView;

    open spec fn view(&self) -> DungeonCurationView {
        DungeonCurationView { reactions: views(self.reactions@), drops: views(self.drops@) }
    }
}

/// The allowlist: what is kept of each curated dungeon, by its logical name.
#[derive(Debug)]
pub struct Curation {
    /// The curated dungeons.
    pub dungeons: NameMap<DungeonCuration>,
}

impl View for Curation {
    type V = Map<Seq<char>, DungeonCurationView>;

    open spec fn view(&self) -> Map<Seq<char>, DungeonCurationView> {
        self.dungeons@.map_values(|c: DungeonCuration| c@)
    }
}

/// A reaction of a dungeon is kept.
pub open spec fn keeps_reaction(
    curation: Map<Seq<char>, DungeonCurationView>,
    dungeon: Seq<char>,
    name: Seq<char>,
) -> bool {
    curation.contains_key(dungeon) ==> curation[dungeon].reactions.contains(name)
}

/// A drop of a dungeon is kept.
pub open spec fn keeps_drop(
    curation: Map<Seq<char>, DungeonCurationView>,
    dungeon: Seq<char>,
    name: Seq<char>,
) -> bool {
    curation.contains_key(dungeon) ==> curation[dungeon].drops.contains(name)
}

/// Whether a list holds a text.
pub fn holds(list: &Vec<String>, name: &str) -> (r: bool)
    ensures
        r == views(list@).contains(name@),
{
    let mut i: usize = 0;
    while i < list.len()
        invariant
            i <= list@.len(),
            forall|k: int| 0 <= k < i ==> #[trigger] views(list@)[k] != name@,
        decreases list@.len() - i,
    {
        assert(views(list@)[i as int] == list@[i as int]@);
        if same(&list[i], name) {
            return true;
        }
        i = i + 1;
    }
    false
}

impl Curation {
    /// An allowlist without any dungeon.
    pub fn empty() -> (r: Self)
        ensures
            r@ == Map::<Seq<char>, DungeonCurationView>::empty(),
    {
        let r = Curation { dungeons: NameMap::new() };
        assert(r@ =~= Map::<Seq<char>, DungeonCurationView>::empty());
        r
    }

    /// Whether a dungeon is on the allowlist.
    pub fn is_curated(&self, dungeon: &str) -> (r: bool)
        ensures
            r == self@.contains_key(dungeon@),
    {
        self.dungeons.contains(dungeon)
    }

    /// Gatekeeper for reactions: true of a dungeon that is not curated, or where
    /// the reaction is on the dungeon's allowlist.
    pub fn should_keep_reaction(&self, dungeon: &str, name: &str) -> (r: bool)
        ensures
            r == keeps_reaction(self@, dungeon@, name@),
    {
        match self.dungeons.get(dungeon) {
            None => true,
            Some(c) => holds(&c.reactions, name),
        }
    }

    /// Gatekeeper for drops, by the drop's logical name.
    pub fn should_keep_drop(&self, dungeon: &str, name: &str) -> (r: bool)
        ensures
            r == keeps_drop(self@, dungeon@, name@),
    {
        match self.dungeons.get(dungeon) {
            None => true,
            Some(c) => holds(&c.drops, name),
        }
    }

    /// Put a dungeon on the allowlist, or replace what is kept of it.
    pub fn record(&mut self, dungeon: &str, kept: DungeonCuration)
        ensures
            final(self)@ == old(self)@.insert(dungeon@, kept@),
    {
        let ghost before = self@;
        self.dungeons.insert(dungeon, kept);
        assert(self@ =~= before.insert(dungeon@, kept@));
    }

    /// What is kept of a dungeon, where it is curated.
    pub fn kept_of(&self, dungeon: &str) -> (r: Option<&DungeonCuration>)
        ensures
            r is Some == self@.contains_key(dungeon@),
            r matches Some(c) ==> c@ == self@[dungeon@],
    {
        self.dungeons.get(dungeon)
    }
}

/// Of a dungeon that is not curated everything is kept.
pub proof fn uncurated_dungeons_keep_everything(
    curation: Map<Seq<char>, DungeonCurationView>,
    dungeon: Seq<char>,
    name: Seq<char>,
)
    requires
        !curation.contains_key(dungeon),
    ensures
        keeps_reaction(curation, dungeon, name),
        keeps_drop(curation, dungeon, name),
{
}

/// After a dungeon is curated exactly its allowlist is kept, and other dungeons
/// are not affected.
pub proof fn curated_dungeons_keep_their_allowlist(
    curation: Map<Seq<char>, DungeonCurationView>,
    dungeon: Seq<char>,
    kept: DungeonCurationView,
    other: Seq<char>,
    name: Seq<char>,
)
    ensures
        keeps_reaction(curation.insert(dungeon, kept), dungeon, name) <==> kept.reactions.contains(
            name,
        ),
        keeps_drop(curation.insert(dungeon, kept), dungeon, name) <==> kept.drops.contains(name),
        other != dungeon ==> keeps_reaction(curation.insert(dungeon, kept), other, name)
            == keeps_reaction(curation, other, name),
        other != dungeon ==> keeps_drop(curation.insert(dungeon, kept), other, name) == keeps_drop(
            curation,
            other,
            name,
        ),
{
}

/// An emoji that the scraper saw.
#[derive(Debug)]
pub struct SnapshotEmoji {
    /// Logical name.
    pub logical_name: String,
    /// Address of the image.
    pub img_url: String,
}

/// A dungeon that the scraper saw.
#[derive(Debug)]
pub struct SnapshotDungeon {
    /// Logical name.
    pub name: String,
    /// Name as the wiki shows it.
    pub display_name: String,
    /// Path of the dungeon's own page.
    pub wiki_path: String,
    /// Its portal.
    pub portal: Option<SnapshotEmoji>,
    /// Its key.
    pub key: Option<SnapshotEmoji>,
    /// What it drops.
    pub drops: Vec<SnapshotEmoji>,
}

/// What the scraper saw on its last run.
#[derive(Debug)]
pub struct WikiSnapshot {
    /// When it ran, in microseconds since 1970.
    pub generated_at: Option<i64>,
    /// The dungeons.
    pub dungeons: Vec<SnapshotDungeon>,
}

/// The view of a `DungeonCuration` shows each of its fields as it is.
pub proof fn dungeon_curation_shows_its_fields(x: DungeonCuration)
    ensures
        x@.reactions == views(x.reactions@),
        x@.drops == views(x.drops@),
{
}

} // verus!
