//! What is stored of dungeons.

use vstd::prelude::*;

use crate::db::models::{DungeonReaction, DungeonTemplate};
use crate::text::{opt_view, own, own_all, own_opt, same, views};

verus! {

/// What a server's own dungeon is made of. Where it is made after another one,
/// that one's colour and text stand in for those that are missing here, and all
/// else is taken from it.
#[derive(Debug)]
pub struct CreateGuildTemplateParams {
    /// Server that it belongs to.
    pub guild_id: i64,
    /// Logical name.
    pub name: String,
    /// Name as shown.
    pub display_name: String,
    /// Text of its embeds.
    pub description: Option<String>,
    /// Colour of its embeds.
    pub color: Option<i32>,
    /// Dungeon that it is made after.
    pub inherit_from: Option<i32>,
}

/// What a dungeon is made of, over views.
pub ghost struct ParamsView {
    pub guild_id: i64,
    pub name: Seq<char>,
    pub display_name: Seq<char>,
    pub description: Option<Seq<char>>,
    pub color: Option<i32>,
    pub inherit_from: Option<i32>,
}

impl View for CreateGuildTemplateParams {
    type V = ParamsView;

    open spec fn view(&self) -> ParamsView {
        ParamsView {
            guild_id: self.guild_id,
            name: self.name@,
            display_name: self.display_name@,
            description: opt_view(self.description),
            color: self.color,
            inherit_from: self.inherit_from,
        }
    }
}

/// A reaction that a new dungeon starts with.
#[derive(Debug)]
pub struct ReactionSeed {
    /// Logical name.
    pub name: String,
    /// Name as shown.
    pub display_name: String,
    /// Its emoji.
    pub emoji: String,
    /// How many must bring it.
    pub num_required: i32,
    /// Whether who brings it must confirm.
    pub requires_confirmation: bool,
    /// Its place.
    pub sort_order: i32,
}

/// What such a reaction is.
pub ghost struct SeedView {
    pub name: Seq<char>,
    pub display_name: Seq<char>,
    pub emoji: Seq<char>,
    pub num_required: i32,
    pub requires_confirmation: bool,
    pub sort_order: i32,
}

impl View for ReactionSeed {
    type V = SeedView;

    open spec fn view(&self) -> SeedView {
        SeedView {
            name: self.name@,
            display_name: self.display_name@,
            emoji: self.emoji@,
            num_required: self.num_required,
            requires_confirmation: self.requires_confirmation,
            sort_order: self.sort_order,
        }
    }
}

/// The views of a list of such reactions.
pub open spec fn seed_views(v: Seq<ReactionSeed>) -> Seq<SeedView> {
    Seq::new(v.len(), |i: int| v[i]@)
}

proof fn seed_views_push(v: Seq<ReactionSeed>, r: ReactionSeed)
    ensures
        seed_views(v.push(r)) == seed_views(v).push(r@),
{
    assert(seed_views(v.push(r)) =~= seed_views(v).push(r@));
}

/// A dungeon that a server is about to own, with the reactions that it starts with.
#[derive(Debug)]
pub struct NewDungeon {
    /// Server that it belongs to.
    pub guild_id: i64,
    /// Logical name.
    pub name: String,
    /// Name as shown.
    pub display_name: String,
    /// Its emoji.
    pub emoji: Option<String>,
    /// Colour of its embeds.
    pub color: Option<i32>,
    /// Title of its embeds.
    pub message_title: Option<String>,
    /// Text of its embeds.
    pub message_description: Option<String>,
    /// Whether its raids need voice.
    pub requires_vc: bool,
    /// The loot that is shown off.
    pub showcase_emoji: Vec<String>,
    /// Small image of its embeds.
    pub thumbnail_url: Option<String>,
    /// Large image of its embeds.
    pub image_url: Option<String>,
    /// The reactions that it starts with.
    pub reactions: Vec<ReactionSeed>,
}

/// What such a dungeon is.
pub ghost struct NewDungeonView {
    pub guild_id: i64,
    pub name: Seq<char>,
    pub display_name: Seq<char>,
    pub emoji: Option<Seq<char>>,
    pub color: Option<i32>,
    pub message_title: Option<Seq<char>>,
    pub message_description: Option<Seq<char>>,
    pub requires_vc: bool,
    pub showcase_emoji: Seq<Seq<char>>,
    pub thumbnail_url: Option<Seq<char>>,
    pub image_url: Option<Seq<char>>,
    pub reactions: Seq<SeedView>,
}

impl View for NewDungeon {
    type V = NewDungeonView;

    open spec fn view(&self) -> NewDungeonView {
        NewDungeonView {
            guild_id: self.guild_id,
            name: self.name@,
            display_name: self.display_name@,
            emoji: opt_view(self.emoji),
            color: self.color,
            message_title: opt_view(self.message_title),
            message_description: opt_view(self.message_description),
            requires_vc: self.requires_vc,
            showcase_emoji: views(self.showcase_emoji@),
            thumbnail_url: opt_view(self.thumbnail_url),
            image_url: opt_view(self.image_url),
            reactions: seed_views(self.reactions@),
        }
    }
}

/// A reaction as another dungeon starts with it.
pub open spec fn seed_of(r: DungeonReaction) -> SeedView {
    SeedView {
        name: r.name@,
        display_name: r.display_name@,
        emoji: r.emoji@,
        num_required: r.num_required,
        requires_confirmation: r.requires_confirmation,
        sort_order: r.sort_order,
    }
}

/// Reactions as another dungeon starts with them.
pub open spec fn seeds_of(list: Seq<DungeonReaction>) -> Seq<SeedView> {
    Seq::new(list.len(), |i: int| seed_of(list[i]))
}

/// The reaction by which members say that they are coming.
pub open spec fn interest() -> SeedView {
    SeedView {
        name: "interest"@,
        display_name: "Joining"@,
        emoji: "✅"@,
        num_required: 1,
        requires_confirmation: false,
        sort_order: 0,
    }
}

/// Some reaction has a name.
pub open spec fn has_seed(list: Seq<SeedView>, name: Seq<char>) -> bool {
    exists|i: int| 0 <= i < list.len() && (#[trigger] list[i]).name == name
}

/// Reactions among which members can say that they are coming: the one for that is
/// added where none has its name.
pub open spec fn with_interest(list: Seq<SeedView>) -> Seq<SeedView> {
    if has_seed(list, "interest"@) {
        list
    } else {
        list.push(interest())
    }
}

/// A server's copy of a dungeon: all is taken over but the server.
pub open spec fn forked(
    source: DungeonTemplate,
    reactions: Seq<DungeonReaction>,
    guild_id: i64,
) -> NewDungeonView {
    NewDungeonView {
        guild_id,
        name: source.name@,
        display_name: source.display_name@,
        emoji: opt_view(source.emoji),
        color: source.color,
        message_title: opt_view(source.message_title),
        message_description: opt_view(source.message_description),
        requires_vc: source.requires_vc,
        showcase_emoji: views(source.showcase_emoji@),
        thumbnail_url: opt_view(source.thumbnail_url),
        image_url: opt_view(source.image_url),
        reactions: seeds_of(reactions),
    }
}

/// What is given, else what stands in for it.
pub open spec fn or_else<T>(given: Option<T>, other: Option<T>) -> Option<T> {
    match given {
        Some(_) => given,
        None => other,
    }
}

/// A dungeon that is made after another one.
pub open spec fn inherited(
    p: ParamsView,
    source: DungeonTemplate,
    reactions: Seq<DungeonReaction>,
) -> NewDungeonView {
    NewDungeonView {
        name: p.name,
        display_name: p.display_name,
        color: or_else(p.color, source.color),
        message_description: or_else(p.description, opt_view(source.message_description)),
        reactions: with_interest(seeds_of(reactions)),
        ..forked(source, reactions, p.guild_id)
    }
}

/// A dungeon that is made after no other.
pub open spec fn fresh(p: ParamsView) -> NewDungeonView {
    NewDungeonView {
        guild_id: p.guild_id,
        name: p.name,
        display_name: p.display_name,
        emoji: None,
        color: p.color,
        message_title: None,
        message_description: p.description,
        requires_vc: false,
        showcase_emoji: Seq::empty(),
        thumbnail_url: None,
        image_url: None,
        reactions: seq![interest()],
    }
}

fn copy_reactions(list: &Vec<DungeonReaction>) -> (r: Vec<ReactionSeed>)
    ensures
        seed_views(r@) == seeds_of(list@),
{
    let mut out: Vec<ReactionSeed> = Vec::new();
    let ghost all = seeds_of(list@);
    let mut i: usize = 0;
    assert(seed_views(out@) =~= all.take(0));
    while i < list.len()
        invariant
            i <= list@.len(),
            all == seeds_of(list@),
            seed_views(out@) == all.take(i as int),
        decreases list@.len() - i,
    {
        let r = &list[i];
        let seed = ReactionSeed {
            name: own(&r.name),
            display_name: own(&r.display_name),
            emoji: own(&r.emoji),
            num_required: r.num_required,
            requires_confirmation: r.requires_confirmation,
            sort_order: r.sort_order,
        };
        proof {
            seed_views_push(out@, seed);
            assert(seed@ == all[i as int]);
        }
        out.push(seed);
        i = i + 1;
        assert(all.take(i as int) =~= all.take(i - 1).push(all[i - 1]));
    }
    assert(all.take(i as int) =~= all);
    out
}

fn add_interest(list: Vec<ReactionSeed>) -> (r: Vec<ReactionSeed>)
    ensures
        seed_views(r@) == with_interest(seed_views(list@)),
{
    let mut i: usize = 0;
    while i < list.len()
        invariant
            i <= list@.len(),
            forall|k: int| 0 <= k < i ==> (#[trigger] list@[k]).name@ != "interest"@,
        decreases list@.len() - i,
    {
        if same(&list[i].name, "interest") {
            assert(seed_views(list@)[i as int].name == "interest"@);
            return list;
        }
        i = i + 1;
    }
    let mut out = list;
    let seed = ReactionSeed {
        name: own("interest"),
        display_name: own("Joining"),
        emoji: own("✅"),
        num_required: 1,
        requires_confirmation: false,
        sort_order: 0,
    };
    proof {
        seed_views_push(out@, seed);
    }
    out.push(seed);
    out
}

/// What a server's copy of a dungeon starts with.
pub fn clone_global_to_guild(
    source: &DungeonTemplate,
    reactions: &Vec<DungeonReaction>,
    guild_id: i64,
) -> (r: NewDungeon)
    ensures
        r@ == forked(*source, reactions@, guild_id),
{
    NewDungeon {
        guild_id,
        name: own(&source.name),
        display_name: own(&source.display_name),
        emoji: own_opt(&source.emoji),
        color: source.color,
        message_title: own_opt(&source.message_title),
        message_description: own_opt(&source.message_description),
        requires_vc: source.requires_vc,
        showcase_emoji: own_all(&source.showcase_emoji),
        thumbnail_url: own_opt(&source.thumbnail_url),
        image_url: own_opt(&source.image_url),
        reactions: copy_reactions(reactions),
    }
}

/// What a server's new dungeon starts with, made after another one where one is
/// given with its reactions.
pub fn create_guild_template_with_inherit(
    params: &CreateGuildTemplateParams,
    source: Option<(&DungeonTemplate, &Vec<DungeonReaction>)>,
) -> (r: NewDungeon)
    ensures
        match source {
            Some((t, list)) => r@ == inherited(params@, *t, list@),
            None => r@ == fresh(params@),
        },
{
    let (template, list) = match source {
        Some(s) => s,
        None => {
            let none: Vec<ReactionSeed> = Vec::new();
            let no_loot: Vec<String> = Vec::new();
            assert(seed_views(none@) =~= Seq::<SeedView>::empty());
            assert(views(no_loot@) =~= Seq::<Seq<char>>::empty());
            assert(Seq::<SeedView>::empty().push(interest()) =~= seq![interest()]);
            return NewDungeon {
                guild_id: params.guild_id,
                name: own(&params.name),
                display_name: own(&params.display_name),
                emoji: None,
                color: params.color,
                message_title: None,
                message_description: own_opt(&params.description),
                requires_vc: false,
                showcase_emoji: no_loot,
                thumbnail_url: None,
                image_url: None,
                reactions: add_interest(none),
            };
        },
    };
    let mut r = clone_global_to_guild(template, list, params.guild_id);
    r.name = own(&params.name);
    r.display_name = own(&params.display_name);
    if params.color.is_some() {
        r.color = params.color;
    }
    if params.description.is_some() {
        r.message_description = own_opt(&params.description);
    }
    r.reactions = add_interest(r.reactions);
    r
}

// ----- laws --------------------------------------------------------------------------------

/// Members can say of every new dungeon that they are coming, and nothing else is
/// added: the reactions of the dungeon that it is made after come first, as they are.
pub proof fn new_dungeons_count_interest(
    p: ParamsView,
    source: DungeonTemplate,
    reactions: Seq<DungeonReaction>,
)
    ensures
        has_seed(fresh(p).reactions, "interest"@),
        ({
            let own = seeds_of(reactions);
            let list = inherited(p, source, reactions).reactions;
            &&& has_seed(list, "interest"@)
            &&& own.len() <= list.len() <= own.len() + 1
            &&& list.take(own.len() as int) == own
        }),
{
    assert(fresh(p).reactions[0] == interest());
    let own = seeds_of(reactions);
    let list = inherited(p, source, reactions).reactions;
    if !has_seed(own, "interest"@) {
        assert(list[own.len() as int] == interest());
    }
    assert(list.take(own.len() as int) =~= own);
}

/// Where no two reactions of a dungeon share a name, no two of a dungeon do that is
/// made after it.
pub proof fn reactions_keep_their_names_apart(
    p: ParamsView,
    source: DungeonTemplate,
    reactions: Seq<DungeonReaction>,
)
    requires
        forall|i: int, j: int|
            0 <= i < j < reactions.len() ==> (#[trigger] reactions[i]).name@ != (
            #[trigger] reactions[j]).name@,
    ensures
        ({
            let list = inherited(p, source, reactions).reactions;
            forall|i: int, j: int|
                0 <= i < j < list.len() ==> (#[trigger] list[i]).name != (
                #[trigger] list[j]).name
        }),
{
    let own = seeds_of(reactions);
    let list = inherited(p, source, reactions).reactions;
    assert forall|i: int, j: int| 0 <= i < j < list.len() implies (#[trigger] list[i]).name != (
    #[trigger] list[j]).name by {
        assert(list[i] == own[i]);
        assert(own[i].name == reactions[i].name@);
        if j < own.len() {
            assert(list[j] == own[j]);
            assert(own[j].name == reactions[j].name@);
        } else {
            assert(!has_seed(own, "interest"@));
        }
    }
}

/// Making a dungeon after another one with nothing but the other one's names gives
/// that server's copy of it, save that members can always say that they are coming.
pub proof fn copies_are_inherited(
    p: ParamsView,
    source: DungeonTemplate,
    reactions: Seq<DungeonReaction>,
)
    requires
        p.name == source.name@,
        p.display_name == source.display_name@,
        p.color is None,
        p.description is None,
    ensures
        inherited(p, source, reactions) == (NewDungeonView {
            reactions: with_interest(seeds_of(reactions)),
            ..forked(source, reactions, p.guild_id)
        }),
        has_seed(seeds_of(reactions), "interest"@) ==> inherited(p, source, reactions) == forked(
            source,
            reactions,
            p.guild_id,
        ),
{
}

// ----- what copies are for ----------------------------------------------------------------------

/// A server's copy of a shared dungeon is that dungeon in every respect, with each of its
/// reactions, and belongs to the server.
pub proof fn forks_are_faithful(
    source: DungeonTemplate,
    reactions: Seq<DungeonReaction>,
    guild_id: i64,
)
    ensures
        ({
            let r = forked(source, reactions, guild_id);
            &&& r.guild_id == guild_id
            &&& r.name == source.name@
            &&& r.display_name == source.display_name@
            &&& r.emoji == opt_view(source.emoji)
            &&& r.color == source.color
            &&& r.message_title == opt_view(source.message_title)
            &&& r.message_description == opt_view(source.message_description)
            &&& r.requires_vc == source.requires_vc
            &&& r.showcase_emoji == views(source.showcase_emoji@)
            &&& r.thumbnail_url == opt_view(source.thumbnail_url)
            &&& r.image_url == opt_view(source.image_url)
            &&& r.reactions.len() == reactions.len()
            &&& forall|i: int| #![trigger r.reactions[i]]
                0 <= i < reactions.len() ==> r.reactions[i].name == reactions[i].name@
                    && r.reactions[i].display_name == reactions[i].display_name@
                    && r.reactions[i].emoji == reactions[i].emoji@ && r.reactions[i].num_required
                    == reactions[i].num_required && r.reactions[i].requires_confirmation
                    == reactions[i].requires_confirmation && r.reactions[i].sort_order
                    == reactions[i].sort_order
        }),
{
}

/// A dungeon that is made after another has the name that was given, and the text and
/// the colour that were given, or those of the other where none was; everything else is
/// that of the other, its reactions first among them.
pub proof fn what_is_given_comes_first(
    p: ParamsView,
    source: DungeonTemplate,
    reactions: Seq<DungeonReaction>,
)
    ensures
        ({
            let r = inherited(p, source, reactions);
            &&& r.guild_id == p.guild_id
            &&& r.name == p.name
            &&& r.display_name == p.display_name
            &&& p.color is Some ==> r.color == p.color
            &&& p.color is None ==> r.color == source.color
            &&& p.description is Some ==> r.message_description == p.description
            &&& p.description is None ==> r.message_description == opt_view(
                source.message_description,
            )
            &&& r.emoji == opt_view(source.emoji)
            &&& r.requires_vc == source.requires_vc
            &&& r.message_title == opt_view(source.message_title)
            &&& r.thumbnail_url == opt_view(source.thumbnail_url)
            &&& r.image_url == opt_view(source.image_url)
            &&& r.showcase_emoji == views(source.showcase_emoji@)
            &&& r.reactions.take(reactions.len() as int) == forked(
                source,
                reactions,
                p.guild_id,
            ).reactions
        }),
{
    let r = inherited(p, source, reactions);
    assert(r.reactions.take(reactions.len() as int) =~= seeds_of(reactions));
}

/// A dungeon that is made from nothing has what was given, and can be signed up for: with
/// one reaction, of which one is needed.
pub proof fn fresh_dungeons_have_what_was_given(p: ParamsView)
    ensures
        fresh(p).guild_id == p.guild_id,
        fresh(p).name == p.name,
        fresh(p).display_name == p.display_name,
        fresh(p).color == p.color,
        fresh(p).message_description == p.description,
        !fresh(p).requires_vc,
        fresh(p).reactions.len() == 1,
        fresh(p).reactions[0].name == "interest"@,
        fresh(p).reactions[0].emoji == "✅"@,
        fresh(p).reactions[0].num_required == 1,
{
}

/// The view of a `CreateGuildTemplateParams` shows each of its fields as it is.
pub proof fn create_guild_template_params_shows_its_fields(x: CreateGuildTemplateParams)
    ensures
        x@.guild_id == x.guild_id,
        x@.name == x.name@,
        x@.display_name == x.display_name@,
        x.description is Some ==> x@.description == Some((x.description->0)@),
        x.description is None ==> x@.description is None,
        x@.color == x.color,
        x@.inherit_from == x.inherit_from,
{
}

/// The view of a `ReactionSeed` shows each of its fields as it is.
pub proof fn reaction_seed_shows_its_fields(x: ReactionSeed)
    ensures
        x@.name == x.name@,
        x@.display_name == x.display_name@,
        x@.emoji == x.emoji@,
        x@.num_required == x.num_required,
        x@.requires_confirmation == x.requires_confirmation,
        x@.sort_order == x.sort_order,
{
}

/// The view of a `NewDungeon` shows each of its fields as it is.
pub proof fn new_dungeon_shows_its_fields(x: NewDungeon)
    ensures
        x@.guild_id == x.guild_id,
        x@.name == x.name@,
        x@.display_name == x.display_name@,
        x.emoji is Some ==> x@.emoji == Some((x.emoji->0)@),
        x.emoji is None ==> x@.emoji is None,
        x@.color == x.color,
        x.message_title is Some ==> x@.message_title == Some((x.message_title->0)@),
        x.message_title is None ==> x@.message_title is None,
        x.message_description is Some ==> x@.message_description == Some((x.message_description->0)@),
        x.message_description is None ==> x@.message_description is None,
        x@.requires_vc == x.requires_vc,
        x@.showcase_emoji == views(x.showcase_emoji@),
        x.thumbnail_url is Some ==> x@.thumbnail_url == Some((x.thumbnail_url->0)@),
        x.thumbnail_url is None ==> x@.thumbnail_url is None,
        x.image_url is Some ==> x@.image_url == Some((x.image_url->0)@),
        x.image_url is None ==> x@.image_url is None,
        x@.reactions == seed_views(x.reactions@),
{
}

/// Every dungeon has a reaction by which members say that they are coming: one that was
/// given stays and nothing is added; else one comes last, for one person, first in order
/// and without a question.
pub proof fn members_can_always_say_that_they_come(list: Seq<SeedView>)
    ensures
        ({
            let after = with_interest(list);
            let given = exists|i: int| 0 <= i < list.len() && (#[trigger] list[i]).name == "interest"@;
            &&& given ==> after == list
            &&& !given ==> {
                &&& after.len() == list.len() + 1
                &&& forall|i: int| 0 <= i < list.len() ==> #[trigger] after[i] == list[i]
                &&& after.last().name == "interest"@ && after.last().display_name == "Joining"@
                &&& after.last().emoji == "✅"@ && after.last().num_required == 1
                &&& !after.last().requires_confirmation && after.last().sort_order == 0
            }
        }),
{
}

} // verus!
