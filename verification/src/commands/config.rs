//! `/config`: the settings of a server, one at a time.

use vstd::prelude::*;

use crate::db::models::{BagTier, Guild, Tier};
use crate::mention::{
    channel, channel_i64, channel_or, channel_u64, opt_channel, opt_user, user, user_or, user_u64,
};
use crate::text::{cat3, cat4, cat5, dec, join, joined, own, same, views, views_push};
use crate::ui::{field_views, field_views_push, Embed, EmbedView, Field, FieldView};

verus! {

/// The line of a tier.
pub open spec fn tier_line(t: Tier) -> Seq<char> {
    match t.runs_channel_id {
        Some(c) => "• **"@ + t.name@ + "** → "@ + channel(c as int),
        None => "• **"@ + t.name@ + "** → _no runs channel_"@,
    }
}

/// The lines of tiers.
pub open spec fn tier_lines(tiers: Seq<Tier>) -> Seq<Seq<char>> {
    Seq::new(tiers.len(), |i: int| tier_line(tiers[i]))
}

/// The settings of a server.
pub open spec fn config_embed(g: Guild, tiers: Seq<Tier>) -> EmbedView {
    EmbedView::plain("Guild config"@, 0x5865F2).fields(
        Seq::empty().push(
            FieldView {
                name: "Loot threshold"@,
                value: "`"@ + g.loot_tier_threshold@ + "`"@,
                inline: true,
            },
        ).push(
            FieldView {
                name: "Log channel"@,
                value: channel_or(g.log_channel_id, "_unset_"@),
                inline: true,
            },
        ).push(
            FieldView {
                name: "Superadmin"@,
                value: user_or(g.superadmin_user_id, "_unset_"@),
                inline: true,
            },
        ).push(
            FieldView {
                name: "Tiers"@,
                value: if tiers.len() == 0 {
                    "_no tiers — run `/setup` first_"@
                } else {
                    joined(tier_lines(tiers), "\n"@)
                },
                inline: false,
            },
        ),
    ).footer("Use `/config <setting>` to change · `/setup` for the full wizard"@)
}

fn list_tiers(tiers: &Vec<Tier>) -> (r: String)
    ensures
        r@ == joined(tier_lines(tiers@), "\n"@),
{
    let mut lines: Vec<String> = Vec::new();
    let ghost all = tier_lines(tiers@);
    let mut i: usize = 0;
    while i < tiers.len()
        invariant
            i <= tiers@.len(),
            all == tier_lines(tiers@),
            views(lines@) == all.take(i as int),
        decreases tiers@.len() - i,
    {
        broadcast use views_push;

        let t = &tiers[i];
        lines.push(
            match t.runs_channel_id {
                Some(c) => cat4("• **", &t.name, "** → ", &channel_i64(c)),
                None => cat3("• **", &t.name, "** → _no runs channel_"),
            },
        );
        i = i + 1;
        assert(all.take(i as int) =~= all.take(i - 1).push(all[i - 1]));
    }
    assert(all.take(i as int) =~= all);
    join(&lines, "\n")
}

/// Show the settings of a server.
pub fn show(g: &Guild, tiers: &Vec<Tier>) -> (r: Embed)
    ensures
        r@ == config_embed(*g, tiers@),
{
    broadcast use field_views_push;

    let tiers_text = if tiers.len() == 0 {
        own("_no tiers — run `/setup` first_")
    } else {
        list_tiers(tiers)
    };
    let mut fields: Vec<Field> = Vec::new();
    assert(field_views(fields@) =~= Seq::<FieldView>::empty());
    fields.push(
        Field {
            name: own("Loot threshold"),
            value: cat3("`", &g.loot_tier_threshold, "`"),
            inline: true,
        },
    );
    fields.push(
        Field {
            name: own("Log channel"),
            value: opt_channel(g.log_channel_id, "_unset_"),
            inline: true,
        },
    );
    fields.push(
        Field {
            name: own("Superadmin"),
            value: opt_user(g.superadmin_user_id, "_unset_"),
            inline: true,
        },
    );
    fields.push(Field { name: own("Tiers"), value: tiers_text, inline: false });
    Embed::plain("Guild config", 0x5865F2).fields(fields).footer(
        "Use `/config <setting>` to change · `/setup` for the full wizard",
    )
}

/// The names of bag tiers.
pub open spec fn tier_names(tiers: Seq<BagTier>) -> Seq<Seq<char>> {
    Seq::new(tiers.len(), |i: int| tiers[i].name@)
}

/// Check the threshold: the reply, and whether it is stored.
pub fn threshold(tier: &str, bag_tiers: &Vec<BagTier>) -> (r: Result<String, String>)
    ensures
        r is Ok == tier_names(bag_tiers@).contains(tier@),
        r matches Ok(t) ==> t@ == "Loot threshold set to `"@ + tier@ + "` for this guild."@,
        r matches Err(t) ==> t@ == "Unknown bag tier `"@ + tier@ + "`. Valid tiers: "@ + joined(
            tier_names(bag_tiers@),
            ", "@,
        ) + "."@,
{
    let mut names: Vec<String> = Vec::new();
    let ghost all = tier_names(bag_tiers@);
    let mut i: usize = 0;
    let mut known = false;
    while i < bag_tiers.len()
        invariant
            i <= bag_tiers@.len(),
            all == tier_names(bag_tiers@),
            views(names@) == all.take(i as int),
            known == all.take(i as int).contains(tier@),
        decreases bag_tiers@.len() - i,
    {
        broadcast use views_push;

        let ghost before = all.take(i as int);
        names.push(own(&bag_tiers[i].name));
        let here = same(&bag_tiers[i].name, tier);
        i = i + 1;
        proof {
            let after = all.take(i as int);
            assert(after =~= before.push(all[i - 1]));
            if here {
                assert(after[i - 1] == tier@);
            }
            if before.contains(tier@) {
                let k = choose|k: int| 0 <= k < before.len() && before[k] == tier@;
                assert(after[k] == tier@);
            }
            if after.contains(tier@) && !here {
                let k = choose|k: int| 0 <= k < after.len() && after[k] == tier@;
                assert(before[k] == tier@);
            }
        }
        known = known || here;
    }
    assert(all.take(i as int) =~= all);
    if known {
        Ok(cat3("Loot threshold set to `", tier, "` for this guild."))
    } else {
        Err(cat5("Unknown bag tier `", tier, "`. Valid tiers: ", &join(&names, ", "), "."))
    }
}

/// A kind of channel, as far as the log channel is concerned.
#[derive(Debug, Clone, Copy, PartialEq, Eq, Structural)]
pub enum LogChannelKind {
    /// A text channel.
    Text,
    /// An announcement channel.
    News,
    /// Any other.
    Other,
}

/// What is said where a channel cannot be the log channel.
pub const NOT_A_LOG_CHANNEL: &'static str =
    "Pick a regular text or announcement channel for the log channel.";

/// What is said where the log channel was cleared.
pub const LOG_CLEARED: &'static str = "Log channel cleared.";

/// What is said where the superadmin was cleared.
pub const SUPERADMIN_CLEARED: &'static str = "Superadmin cleared.";

/// What is said where a bot cannot be the superadmin.
pub const NOT_A_USER: &'static str = "Pick a real user, not a bot.";

/// Check the log channel: only text and announcement channels are stored.
pub fn log_channel(kind: LogChannelKind, id: u64) -> (r: Result<String, String>)
    ensures
        r is Ok == (kind != LogChannelKind::Other),
        r matches Ok(t) ==> t@ == "Log channel set to "@ + channel(id as int) + "."@,
        r matches Err(t) ==> t@ == NOT_A_LOG_CHANNEL@,
{
    match kind {
        LogChannelKind::Other => Err(own(NOT_A_LOG_CHANNEL)),
        _ => Ok(cat3("Log channel set to ", &channel_u64(id), ".")),
    }
}

/// Check the superadmin: a bot is not stored.
pub fn superadmin(is_bot: bool, id: u64) -> (r: Result<String, String>)
    ensures
        r is Ok == !is_bot,
        r matches Ok(t) ==> t@ == "Superadmin set to "@ + user(id as int) + "."@,
        r matches Err(t) ==> t@ == NOT_A_USER@,
{
    if is_bot {
        Err(own(NOT_A_USER))
    } else {
        Ok(cat3("Superadmin set to ", &user_u64(id), "."))
    }
}

/// The configuration shows the threshold, the log channel, the superadmin and, one below
/// the other and in order, the tiers with their channels; what is not set is said to be
/// unset.
pub proof fn the_configuration_is_shown(g: Guild, tiers: Seq<Tier>, i: int)
    ensures
        ({
            let f = config_embed(g, tiers).fields;
            &&& f.len() == 4
            &&& f[0].inline && f[1].inline && f[2].inline && !f[3].inline
            &&& f[0].name == "Loot threshold"@ && f[0].value == "`"@ + g.loot_tier_threshold@ + "`"@
            &&& f[1].name == "Log channel"@
            &&& g.log_channel_id is Some ==> f[1].value == "<#"@ + dec(g.log_channel_id->0 as int)
                + ">"@
            &&& g.log_channel_id is None ==> f[1].value == "_unset_"@
            &&& f[2].name == "Superadmin"@
            &&& g.superadmin_user_id is Some ==> f[2].value == "<@"@ + dec(
                g.superadmin_user_id->0 as int,
            ) + ">"@
            &&& g.superadmin_user_id is None ==> f[2].value == "_unset_"@
            &&& f[3].name == "Tiers"@
            &&& tiers.len() == 0 ==> f[3].value == "_no tiers — run `/setup` first_"@
            &&& tiers.len() > 0 ==> f[3].value == joined(tier_lines(tiers), "\n"@)
            &&& tier_lines(tiers).len() == tiers.len()
            &&& 0 <= i < tiers.len() && tiers[i].runs_channel_id is Some ==> tier_lines(tiers)[i]
                == "• **"@ + tiers[i].name@ + "** → "@ + ("<#"@ + dec(
                tiers[i].runs_channel_id->0 as int,
            ) + ">"@)
            &&& 0 <= i < tiers.len() && tiers[i].runs_channel_id is None ==> tier_lines(tiers)[i]
                == "• **"@ + tiers[i].name@ + "** → _no runs channel_"@
        }),
{
}

} // verus!
