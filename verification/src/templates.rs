//! What the wiki scraper hands to the template seeder.

use vstd::prelude::*;

use crate::text::own;

verus! {

/// An emoji to be: its logical name and where its image lies.
#[derive(Debug)]
pub struct WikiEmoji {
    /// Logical name.
    pub logical_name: String,
    /// Address of the image.
    pub img_url: String,
}

/// What such an emoji is.
pub ghost struct WikiEmojiView {
    pub logical_name: Seq<char>,
    pub img_url: Seq<char>,
}

impl View for WikiEmoji {
    type V = WikiEmojiView;

    open spec fn view(&self) -> WikiEmojiView {
        WikiEmojiView { logical_name: self.logical_name@, img_url: self.img_url@ }
    }
}

/// The view of an emoji that may be missing.
pub open spec fn opt_emoji(e: Option<WikiEmoji>) -> Option<WikiEmojiView> {
    match e {
        Some(w) => Some(w@),
        None => None,
    }
}

/// The views of a list of emojis.
pub open spec fn emoji_views(v: Seq<WikiEmoji>) -> Seq<WikiEmojiView> {
    Seq::new(v.len(), |i: int| v[i]@)
}

/// A dungeon of the wiki, with the emojis that stand for it.
#[derive(Debug)]
pub struct WikiDungeon {
    /// Logical name.
    pub name: String,
    /// Name as the wiki shows it.
    pub display_name: String,
    /// Path of the dungeon's own page.
    pub wiki_path: String,
    /// Its portal.
    pub portal: Option<WikiEmoji>,
    /// Its key.
    pub key: Option<WikiEmoji>,
    /// What it drops.
    pub drops: Vec<WikiEmoji>,
}

/// What a dungeon of the wiki is.
pub ghost struct WikiDungeonView {
    pub name: Seq<char>,
    pub display_name: Seq<char>,
    pub wiki_path: Seq<char>,
    pub portal: Option<WikiEmojiView>,
    pub key: Option<WikiEmojiView>,
    pub drops: Seq<WikiEmojiView>,
}

impl View for WikiDungeon {
    type V = WikiDungeonView;

    open spec fn view(&self) -> WikiDungeonView {
        WikiDungeonView {
            name: self.name@,
            display_name: self.display_name@,
            wiki_path: self.wiki_path@,
            portal: opt_emoji(self.portal),
            key: opt_emoji(self.key),
            drops: emoji_views(self.drops@),
        }
    }
}

/// A dungeon without a name, before the first is read.
pub open spec fn blank_dungeon() -> WikiDungeonView {
    WikiDungeonView {
        name: ""@,
        display_name: ""@,
        wiki_path: ""@,
        portal: None,
        key: None,
        drops: Seq::empty(),
    }
}

impl WikiDungeonView {
    /// The dungeon with one more drop.
    pub open spec fn with_drop(self, d: WikiEmojiView) -> WikiDungeonView {
        WikiDungeonView { drops: self.drops.push(d), ..self }
    }
}

impl WikiDungeon {
    /// A dungeon without a name, before the first is read.
    pub fn blank() -> (r: Self)
        ensures
            r@ == blank_dungeon(),
    {
        let drops: Vec<WikiEmoji> = Vec::new();
        assert(emoji_views(drops@) =~= Seq::<WikiEmojiView>::empty());
        WikiDungeon {
            name: own(""),
            display_name: own(""),
            wiki_path: own(""),
            portal: None,
            key: None,
            drops,
        }
    }

    /// Add a drop.
    pub fn add_drop(&mut self, logical_name: String, img_url: String)
        ensures
            final(self)@ == old(self)@.with_drop(
                WikiEmojiView { logical_name: logical_name@, img_url: img_url@ },
            ),
    {
        let ghost before = emoji_views(self.drops@);
        let e = WikiEmoji { logical_name, img_url };
        self.drops.push(e);
        assert(emoji_views(self.drops@) =~= before.push(e@));
    }
}

/// The views of a list of dungeons.
pub open spec fn dungeon_views(v: Seq<WikiDungeon>) -> Seq<WikiDungeonView> {
    Seq::new(v.len(), |i: int| v[i]@)
}

/// The view of a `WikiEmoji` shows each of its fields as it is.
pub proof fn wiki_emoji_shows_its_fields(x: WikiEmoji)
    ensures
        x@.logical_name == x.logical_name@,
        x@.img_url == x.img_url@,
{
}

/// The view of a `WikiDungeon` shows each of its fields as it is.
pub proof fn wiki_dungeon_shows_its_fields(x: WikiDungeon)
    ensures
        x@.name == x.name@,
        x@.display_name == x.display_name@,
        x@.wiki_path == x.wiki_path@,
        x@.portal == opt_emoji(x.portal),
        x@.key == opt_emoji(x.key),
        x@.drops == emoji_views(x.drops@),
{
}

} // verus!
