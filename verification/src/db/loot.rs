//! Loot bags: how a tier is shown, and from which tier on runs show loot.

use vstd::prelude::*;

use crate::db::models::{BagTier, BotEmoji};
use crate::name_map::NameMap;
use crate::text::{cat2, cat5, dec, dec_i64, own};

verus! {

/// How a message shows an uploaded emoji.
pub open spec fn markup(name: Seq<char>, id: int, animated: bool) -> Seq<char> {
    if animated {
        "<a:"@ + name + ":"@ + dec(id) + ">"@
    } else {
        "<:"@ + name + ":"@ + dec(id) + ">"@
    }
}

/// How a message shows an uploaded emoji.
pub open spec fn emoji_markup(e: BotEmoji) -> Seq<char> {
    markup(e.name_on_discord@, e.discord_emoji_id as int, e.animated)
}

/// How a message shows an uploaded emoji.
pub fn show_emoji(e: &BotEmoji) -> (r: String)
    ensures
        r@ == emoji_markup(*e),
{
    if e.animated {
        cat5("<a:", &e.name_on_discord, ":", &dec_i64(e.discord_emoji_id), ">")
    } else {
        cat5("<:", &e.name_on_discord, ":", &dec_i64(e.discord_emoji_id), ">")
    }
}

/// How a message shows a bag tier: by the uploaded emoji `bag_<tier>`, else by
/// the tier's Unicode emoji.
pub open spec fn bag_markup(tier: BagTier, emoji_map: Map<Seq<char>, BotEmoji>) -> Seq<char> {
    let logical = "bag_"@ + tier.name@;
    if emoji_map.contains_key(logical) {
        emoji_markup(emoji_map[logical])
    } else {
        tier.default_emoji@
    }
}

/// Render a bag tier's emoji for use in embed text.
pub fn resolve_bag_emoji(tier: &BagTier, emoji_map: &NameMap<BotEmoji>) -> (r: String)
    ensures
        r@ == bag_markup(*tier, emoji_map@),
{
    let logical = cat2("bag_", &tier.name);
    match emoji_map.get(&logical) {
        Some(e) => show_emoji(e),
        None => own(&tier.default_emoji),
    }
}

/// The tier from which on runs show loot: that of the server's row, else the
/// strictest.
pub fn get_threshold(stored: Option<String>) -> (r: String)
    ensures
        r@ == (match stored {
            Some(t) => t@,
            None => "white"@,
        }),
{
    match stored {
        Some(t) => t,
        None => own("white"),
    }
}

/// An emoji is written with its name and its number, and with an `a` where it moves; the
/// bags of a tier have the uploaded icon of that tier, else the one that is stored.
pub proof fn bags_have_their_icon(tier: BagTier, map: Map<Seq<char>, BotEmoji>)
    ensures
        map.contains_key("bag_"@ + tier.name@) ==> bag_markup(tier, map) == emoji_markup(
            map["bag_"@ + tier.name@],
        ),
        !map.contains_key("bag_"@ + tier.name@) ==> bag_markup(tier, map) == tier.default_emoji@,
        forall|e: BotEmoji| #[trigger]
            emoji_markup(e) == (if e.animated {
                "<a:"@
            } else {
                "<:"@
            }) + e.name_on_discord@ + ":"@ + dec(e.discord_emoji_id as int) + ">"@,
{
}

} // verus!
