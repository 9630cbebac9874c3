//! The embed of a headcount.

use vstd::prelude::*;
use vstd::string::StrSliceExecFns;

use crate::db::loot::{emoji_markup, markup, show_emoji};
use crate::db::models::{BagTier, BotEmoji, DungeonReaction, DungeonTemplate};
use crate::embeds::loot_fields::{build_loot_fields_all, loot_fields};
use crate::name_map::NameMap;
use crate::text::{
    cat2, cat3, cat5, chars, dec, dec_i32, dec_u64, join, joined, opt_view, own, own_opt, views,
    views_push,
};
use crate::ui::{
    Button, ButtonStyle, ButtonView, Buttons, Embed, EmbedView, Emoji, EmojiView, RowView, Rows,
    Screen, ScreenView,
};

verus! {

/// A text that is a Unicode emoji rather than a logical name: it has a character
/// outside of ASCII.
pub open spec fn unicode_literal(s: Seq<char>) -> bool {
    exists|i: int| 0 <= i < s.len() && (#[trigger] s[i]) as u32 >= 128
}

/// Whether a text is a Unicode emoji rather than a logical name.
pub fn is_unicode_literal(s: &str) -> (r: bool)
    ensures
        r == unicode_literal(s@),
{
    let cs = chars(s);
    let mut i: usize = 0;
    while i < cs.len()
        invariant
            i <= cs@.len(),
            cs@ == s@,
            forall|k: int| 0 <= k < i ==> (#[trigger] s@[k] as u32) < 128,
        decreases cs@.len() - i,
    {
        if cs[i] as u32 >= 128 {
            return true;
        }
        i = i + 1;
    }
    false
}

/// How a message shows the emoji of a logical name: the uploaded one, else the
/// name itself where it is a Unicode emoji, else nothing.
pub open spec fn emoji_text(logical: Seq<char>, map: Map<Seq<char>, BotEmoji>) -> Seq<char> {
    if map.contains_key(logical) {
        emoji_markup(map[logical])
    } else if unicode_literal(logical) {
        logical
    } else {
        Seq::empty()
    }
}

/// How a message shows the emoji of a logical name.
pub fn emoji_str(logical_name: &str, map: &NameMap<BotEmoji>) -> (r: String)
    ensures
        r@ == emoji_text(logical_name@, map@),
{
    match map.get(logical_name) {
        Some(e) => show_emoji(e),
        None => if is_unicode_literal(logical_name) {
            own(logical_name)
        } else {
            String::new()
        },
    }
}

/// The emoji of a logical name, for a button or a reaction.
pub open spec fn emoji_of(logical: Seq<char>, map: Map<Seq<char>, BotEmoji>) -> Option<EmojiView> {
    if map.contains_key(logical) {
        Some(
            EmojiView::Custom {
                animated: map[logical].animated,
                id: map[logical].discord_emoji_id as u64,
                name: map[logical].name_on_discord@,
            },
        )
    } else if unicode_literal(logical) {
        Some(EmojiView::Unicode(logical))
    } else {
        None
    }
}

/// The emoji of a logical name, for a button or a reaction.
pub fn emoji_rt(logical_name: &str, map: &NameMap<BotEmoji>) -> (r: Option<Emoji>)
    ensures
        crate::ui::opt_emoji_view(r) == emoji_of(logical_name@, map@),
{
    match map.get(logical_name) {
        Some(e) => Some(
            Emoji::Custom {
                animated: e.animated,
                id: #[verifier::truncate] (e.discord_emoji_id as u64),
                name: own(&e.name_on_discord),
            },
        ),
        None => if is_unicode_literal(logical_name) {
            Some(Emoji::Unicode(own(logical_name)))
        } else {
            None
        },
    }
}

/// The heading of a template's embeds: its own, else its name with a word behind.
pub open spec fn title_of(t: DungeonTemplate, word: Seq<char>) -> Seq<char> {
    match t.message_title {
        Some(title) => title@,
        None => t.display_name@ + word,
    }
}

/// The heading of a template's embeds.
pub fn template_title(t: &DungeonTemplate, word: &str) -> (r: String)
    ensures
        r@ == title_of(*t, word@),
{
    match &t.message_title {
        Some(title) => own(title),
        None => cat2(&t.display_name, word),
    }
}

/// How a message shows the emoji of a template.
pub open spec fn template_emoji(t: DungeonTemplate, map: Map<Seq<char>, BotEmoji>) -> Seq<char> {
    match t.emoji {
        Some(e) => emoji_text(e@, map),
        None => Seq::empty(),
    }
}

/// How a message shows the emoji of a template.
pub fn show_template_emoji(t: &DungeonTemplate, map: &NameMap<BotEmoji>) -> (r: String)
    ensures
        r@ == template_emoji(*t, map@),
{
    match &t.emoji {
        Some(e) => emoji_str(e, map),
        None => String::new(),
    }
}

/// A text behind an emoji, where there is one.
pub open spec fn behind(emoji: Seq<char>, text: Seq<char>) -> Seq<char> {
    if emoji.len() == 0 {
        text
    } else {
        emoji + " "@ + text
    }
}

/// A text behind an emoji, where there is one.
pub fn put_behind(emoji: &str, text: &str) -> (r: String)
    ensures
        r@ == behind(emoji@, text@),
{
    if emoji.is_empty() {
        own(text)
    } else {
        cat3(emoji, " ", text)
    }
}

/// The colour of a template's embeds.
pub open spec fn color_of(t: DungeonTemplate) -> u32 {
    match t.color {
        Some(c) => c as u32,
        None => 0x5865F2,
    }
}

/// The colour of a template's embeds.
pub fn template_color(t: &DungeonTemplate) -> (r: u32)
    ensures
        r == color_of(*t),
{
    match t.color {
        Some(c) => #[verifier::truncate] (c as u32),
        None => 0x5865F2,
    }
}

/// The reactions, each with its emoji.
pub open spec fn reaction_names(
    reactions: Seq<DungeonReaction>,
    map: Map<Seq<char>, BotEmoji>,
) -> Seq<Seq<char>> {
    Seq::new(
        reactions.len(),
        |i: int| behind(emoji_text(reactions[i].emoji@, map), reactions[i].display_name@),
    )
}

/// The line that says what to react with, where there is anything.
pub open spec fn react_line(
    reactions: Seq<DungeonReaction>,
    map: Map<Seq<char>, BotEmoji>,
) -> Seq<char> {
    if reactions.len() == 0 {
        Seq::empty()
    } else {
        "\n\n**React with:** "@ + joined(reaction_names(reactions, map), " · "@)
    }
}

fn show_react_line(reactions: &Vec<DungeonReaction>, map: &NameMap<BotEmoji>) -> (r: String)
    ensures
        r@ == react_line(reactions@, map@),
{
    if reactions.len() == 0 {
        return String::new();
    }
    let mut parts: Vec<String> = Vec::new();
    let mut i: usize = 0;
    while i < reactions.len()
        invariant
            i <= reactions@.len(),
            views(parts@) == reaction_names(reactions@, map@).take(i as int),
        decreases reactions@.len() - i,
    {
        broadcast use views_push;

        let es = emoji_str(&reactions[i].emoji, map);
        parts.push(put_behind(&es, &reactions[i].display_name));
        i = i + 1;
        let ghost all = reaction_names(reactions@, map@);
        assert(all.take(i as int) =~= all.take(i - 1).push(all[i - 1]));
    }
    assert(reaction_names(reactions@, map@).take(i as int) =~= reaction_names(reactions@, map@));
    cat2("\n\n**React with:** ", &join(&parts, " · "))
}

/// The screen of a headcount: who leads, what to react with, all of the loot, and
/// the leader's two buttons.
pub open spec fn headcount_screen(
    headcount_id: i32,
    template: DungeonTemplate,
    reactions: Seq<DungeonReaction>,
    map: Map<Seq<char>, BotEmoji>,
    leader_id: u64,
    tiers: Seq<BagTier>,
) -> ScreenView {
    let text = match template.message_description {
        Some(d) => d@,
        None => "React below to sign up!"@,
    };
    let id = dec(headcount_id as int);
    ScreenView {
        embed: EmbedView::new(
            title_of(template, " Headcount"@),
            text + "\n\nLeader: <@"@ + dec(leader_id as int) + ">"@ + react_line(reactions, map),
            color_of(template),
        ).fields(loot_fields(views(template.showcase_emoji@), map, tiers, None)).thumbnail(
            opt_view(template.thumbnail_url),
        ),
        rows: Seq::empty().push(
            RowView::Buttons(
                Seq::empty().push(
                    ButtonView::new("hc:"@ + id + ":start"@, "Start Run"@, ButtonStyle::Success).unicode(
                        "🚀"@,
                    ),
                ).push(
                    ButtonView::new("hc:"@ + id + ":cancel"@, "Cancel"@, ButtonStyle::Danger).unicode(
                        "🗑️"@,
                    ),
                ),
            ),
        ),
    }
}

/// Build the headcount embed and its buttons.
pub fn build(
    headcount_id: i32,
    template: &DungeonTemplate,
    reactions: &Vec<DungeonReaction>,
    emoji_map: &NameMap<BotEmoji>,
    leader_id: u64,
    bag_tiers: &Vec<BagTier>,
) -> (r: Screen)
    ensures
        r@ == headcount_screen(
            headcount_id,
            *template,
            reactions@,
            emoji_map@,
            leader_id,
            bag_tiers@,
        ),
{
    let title = template_title(template, " Headcount");
    let text = match &template.message_description {
        Some(d) => own(d),
        None => own("React below to sign up!"),
    };
    let description = cat5(
        &text,
        "\n\nLeader: <@",
        &dec_u64(leader_id),
        ">",
        &show_react_line(reactions, emoji_map),
    );
    let fields = build_loot_fields_all(&template.showcase_emoji, emoji_map, bag_tiers);
    let embed = Embed::new(&title, &description, template_color(template)).fields(fields).thumbnail(
        own_opt(&template.thumbnail_url),
    );
    let id = dec_i32(headcount_id);
    let start = Button::new(&cat3("hc:", &id, ":start"), "Start Run", ButtonStyle::Success).unicode(
        "🚀",
    );
    let cancel = Button::new(&cat3("hc:", &id, ":cancel"), "Cancel", ButtonStyle::Danger).unicode(
        "🗑️",
    );
    Screen { embed, rows: Rows::new().buttons(Buttons::new().push(start).push(cancel)) }
}

/// The embed of a headcount that is over.
pub open spec fn closed_headcount(
    template: DungeonTemplate,
    map: Map<Seq<char>, BotEmoji>,
    reason: Seq<char>,
    cancelled: bool,
) -> EmbedView {
    EmbedView::new(
        behind(template_emoji(template, map), title_of(template, " Headcount"@)),
        reason,
        if cancelled {
            0x808080
        } else {
            0x57F287
        },
    )
}

/// Build the embed of a headcount that is over.
pub fn build_closed(
    template: &DungeonTemplate,
    emoji_map: &NameMap<BotEmoji>,
    reason: &str,
    cancelled: bool,
) -> (r: Embed)
    ensures
        r@ == closed_headcount(*template, emoji_map@, reason@, cancelled),
{
    let title = template_title(template, " Headcount");
    let es = show_template_emoji(template, emoji_map);
    let color: u32 = if cancelled {
        0x808080
    } else {
        0x57F287
    };
    Embed::new(&put_behind(&es, &title), reason, color)
}

// ----- what is shown ------------------------------------------------------------------------

/// An uploaded emoji stands for its logical name, before any Unicode emoji; a Unicode
/// emoji stands for itself; a logical name that was never uploaded stands for nothing.
pub proof fn uploaded_emojis_come_first(logical: Seq<char>, map: Map<Seq<char>, BotEmoji>)
    ensures
        map.contains_key(logical) ==> emoji_of(logical, map) == Some(
            EmojiView::Custom {
                animated: map[logical].animated,
                id: map[logical].discord_emoji_id as u64,
                name: map[logical].name_on_discord@,
            },
        ) && emoji_text(logical, map) == markup(
            map[logical].name_on_discord@,
            map[logical].discord_emoji_id as int,
            map[logical].animated,
        ),
        !map.contains_key(logical) && (exists|i: int|
            0 <= i < logical.len() && (#[trigger] logical[i]) as u32 >= 128) ==> emoji_of(
            logical,
            map,
        ) == Some(EmojiView::Unicode(logical)) && emoji_text(logical, map) == logical,
        !map.contains_key(logical) && (forall|i: int|
            0 <= i < logical.len() ==> ((#[trigger] logical[i]) as u32) < 128) ==> emoji_of(
            logical,
            map,
        ) is None && emoji_text(logical, map).len() == 0,
{
    if !map.contains_key(logical) && (forall|i: int|
        0 <= i < logical.len() ==> ((#[trigger] logical[i]) as u32) < 128) {
        assert(!unicode_literal(logical));
    }
}

/// A headcount shows the dungeon's own title or its name, its text or the call to sign
/// up, who leads it, its colour and thumbnail, all of its loot, and what to react with.
pub proof fn headcounts_show_their_dungeon(
    id: i32,
    t: DungeonTemplate,
    reactions: Seq<DungeonReaction>,
    map: Map<Seq<char>, BotEmoji>,
    leader: u64,
    tiers: Seq<BagTier>,
)
    ensures
        ({
            let e = headcount_screen(id, t, reactions, map, leader, tiers).embed;
            let text = match t.message_description {
                Some(d) => d@,
                None => "React below to sign up!"@,
            };
            let names = Seq::new(
                reactions.len(),
                |i: int|
                    if emoji_text(reactions[i].emoji@, map).len() == 0 {
                        reactions[i].display_name@
                    } else {
                        emoji_text(reactions[i].emoji@, map) + " "@ + reactions[i].display_name@
                    },
            );
            &&& e.title == Some(
                match t.message_title {
                    Some(own) => own@,
                    None => t.display_name@ + " Headcount"@,
                },
            )
            &&& reactions.len() == 0 ==> e.description == Some(
                text + "\n\nLeader: <@"@ + dec(leader as int) + ">"@,
            )
            &&& reactions.len() > 0 ==> e.description == Some(
                text + "\n\nLeader: <@"@ + dec(leader as int) + ">"@ + ("\n\n**React with:** "@
                    + joined(names, " · "@)),
            )
            &&& e.color == Some(
                match t.color {
                    Some(c) => c as u32,
                    None => 0x5865F2u32,
                },
            )
            &&& e.thumbnail == opt_view(t.thumbnail_url)
            &&& e.fields == loot_fields(views(t.showcase_emoji@), map, tiers, None)
        }),
{
    let names = Seq::new(
        reactions.len(),
        |i: int|
            if emoji_text(reactions[i].emoji@, map).len() == 0 {
                reactions[i].display_name@
            } else {
                emoji_text(reactions[i].emoji@, map) + " "@ + reactions[i].display_name@
            },
    );
    assert(reaction_names(reactions, map) =~= names);
    let e = headcount_screen(id, t, reactions, map, leader, tiers).embed;
    let text = match t.message_description {
        Some(d) => d@,
        None => "React below to sign up!"@,
    };
    if reactions.len() == 0 {
        assert(e.description->0 =~= text + "\n\nLeader: <@"@ + dec(leader as int) + ">"@);
    }
}

/// The two buttons of a headcount start it and cancel it.
pub proof fn headcounts_have_two_buttons(
    id: i32,
    t: DungeonTemplate,
    reactions: Seq<DungeonReaction>,
    map: Map<Seq<char>, BotEmoji>,
    leader: u64,
    tiers: Seq<BagTier>,
)
    ensures
        ({
            let rows = headcount_screen(id, t, reactions, map, leader, tiers).rows;
            &&& rows.len() == 1
            &&& rows[0] matches RowView::Buttons(b) && b.len() == 2 && b[0].custom_id == "hc:"@ + dec(
                id as int,
            ) + ":start"@ && b[1].custom_id == "hc:"@ + dec(id as int) + ":cancel"@
                && !b[0].disabled && !b[1].disabled
        }),
{
}

/// A closed headcount says why, in grey where it was cancelled and in green else, under
/// the title that it had.
pub proof fn closed_headcounts_say_why(
    t: DungeonTemplate,
    map: Map<Seq<char>, BotEmoji>,
    reason: Seq<char>,
)
    ensures
        closed_headcount(t, map, reason, true).description == Some(reason),
        closed_headcount(t, map, reason, false).description == Some(reason),
        closed_headcount(t, map, reason, true).color == Some(0x808080u32),
        closed_headcount(t, map, reason, false).color == Some(0x57F287u32),
        closed_headcount(t, map, reason, true).title == Some(
            behind(
                match t.emoji {
                    Some(e) => emoji_text(e@, map),
                    None => Seq::empty(),
                },
                match t.message_title {
                    Some(own) => own@,
                    None => t.display_name@ + " Headcount"@,
                },
            ),
        ),
        closed_headcount(t, map, reason, false).title == closed_headcount(t, map, reason, true).title,
{
}

} // verus!
