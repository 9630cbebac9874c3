//! The list of a tier's active raids, and the button that starts one.

use vstd::prelude::*;

use crate::db::models::Tier;
use crate::mention::{channel, channel_i64, user, user_i64};
use crate::text::{cat2, cat7, dec, dec_i32, join, joined, views, views_push};
use crate::ui::{
    Button, ButtonStyle, ButtonView, Buttons, Embed, EmbedView, RowView, Rows, Screen, ScreenView,
};

verus! {

/// A raid that is active.
#[derive(Debug)]
pub struct ActiveRaid {
    /// Whether it is a run already.
    pub is_run: bool,
    /// Name of its dungeon.
    pub dungeon: String,
    /// Who leads it.
    pub leader_user_id: i64,
    /// Channel of its message.
    pub channel_id: i64,
}

/// The line of a raid.
pub open spec fn raid_line(r: ActiveRaid) -> Seq<char> {
    (if r.is_run {
        "⚔ **"@
    } else {
        "📋 **"@
    }) + r.dungeon@ + "** led by "@ + user(r.leader_user_id as int) + " in "@ + channel(
        r.channel_id as int,
    ) + "."@
}

/// The lines of raids.
pub open spec fn raid_lines(raids: Seq<ActiveRaid>) -> Seq<Seq<char>> {
    Seq::new(raids.len(), |i: int| raid_line(raids[i]))
}

/// The list of a tier's active raids.
pub open spec fn listing(tier: Tier, raids: Seq<ActiveRaid>) -> EmbedView {
    EmbedView::new(
        "Active raids: "@ + tier.name@,
        if raids.len() == 0 {
            "No raids right now."@
        } else {
            joined(raid_lines(raids), "\n"@)
        },
        0x5865F2,
    )
}

/// Build the list of a tier's active raids.
pub fn build_listing(tier: &Tier, raids: &Vec<ActiveRaid>) -> (r: Embed)
    ensures
        r@ == listing(*tier, raids@),
{
    let title = cat2("Active raids: ", &tier.name);
    if raids.len() == 0 {
        return Embed::new(&title, "No raids right now.", 0x5865F2);
    }
    let mut lines: Vec<String> = Vec::new();
    let ghost all = raid_lines(raids@);
    let mut i: usize = 0;
    assert(views(lines@) =~= all.take(0));
    while i < raids.len()
        invariant
            i <= raids@.len(),
            all == raid_lines(raids@),
            views(lines@) == all.take(i as int),
        decreases raids@.len() - i,
    {
        broadcast use views_push;

        let r = &raids[i];
        let mark = if r.is_run {
            "⚔ **"
        } else {
            "📋 **"
        };
        lines.push(
            cat7(
                mark,
                &r.dungeon,
                "** led by ",
                &user_i64(r.leader_user_id),
                " in ",
                &channel_i64(r.channel_id),
                ".",
            ),
        );
        i = i + 1;
        assert(all.take(i as int) =~= all.take(i - 1).push(all[i - 1]));
    }
    assert(all.take(i as int) =~= all);
    Embed::new(&title, &join(&lines, "\n"), 0x5865F2)
}

/// The message with the button that starts a raid.
pub open spec fn start_button(tier: Tier) -> ScreenView {
    ScreenView {
        embed: EmbedView::new(
            "Start a run"@,
            "Click the button to start a headcount."@,
            0x5865F2,
        ),
        rows: Seq::empty().push(
            RowView::Buttons(
                Seq::empty().push(
                    ButtonView::new(
                        "so:btn:"@ + dec(tier.id as int),
                        "Start a run"@,
                        ButtonStyle::Success,
                    ).unicode("🚀"@),
                ),
            ),
        ),
    }
}

/// Build the message with the button that starts a raid.
pub fn build_start_button(tier: &Tier) -> (r: Screen)
    ensures
        r@ == start_button(*tier),
{
    let button = Button::new(
        &cat2("so:btn:", &dec_i32(tier.id)),
        "Start a run",
        ButtonStyle::Success,
    ).unicode("🚀");
    Screen {
        embed: Embed::new("Start a run", "Click the button to start a headcount.", 0x5865F2),
        rows: Rows::new().buttons(Buttons::new().push(button)),
    }
}

/// Each active raid has a line with its dungeon, its leader and its channel, in order;
/// runs and headcounts are told apart. Without raids the list says so.
pub proof fn listings_show_every_raid(tier: Tier, raids: Seq<ActiveRaid>, i: int)
    ensures
        raids.len() == 0 ==> listing(tier, raids).description == Some("No raids right now."@),
        raids.len() > 0 ==> listing(tier, raids).description == Some(
            joined(raid_lines(raids), "\n"@),
        ),
        raid_lines(raids).len() == raids.len(),
        0 <= i < raids.len() ==> raid_lines(raids)[i] == (if raids[i].is_run {
            "⚔ **"@
        } else {
            "📋 **"@
        }) + raids[i].dungeon@ + "** led by <@"@ + dec(raids[i].leader_user_id as int) + "> in <#"@
            + dec(raids[i].channel_id as int) + ">."@,
{
    if 0 <= i < raids.len() {
        reveal_strlit("** led by ");
        reveal_strlit("** led by <@");
        reveal_strlit("<@");
        reveal_strlit("> in <#");
        reveal_strlit(" in ");
        reveal_strlit("<#");
        reveal_strlit(">");
        reveal_strlit(".");
        reveal_strlit(">.");
        let head = if raids[i].is_run {
            "⚔ **"@
        } else {
            "📋 **"@
        };
        assert(raid_lines(raids)[i] =~= head + raids[i].dungeon@ + "** led by <@"@ + dec(
            raids[i].leader_user_id as int,
        ) + "> in <#"@ + dec(raids[i].channel_id as int) + ">."@);
    }
}

/// The button that starts a run leads to its own tier.
pub proof fn start_buttons_lead_to_their_tier(tier: Tier)
    ensures
        start_button(tier).rows.len() == 1,
        start_button(tier).rows[0] matches RowView::Buttons(b) && b.len() == 1 && b[0].custom_id
            == "so:btn:"@ + dec(tier.id as int) && !b[0].disabled,
{
}

} // verus!
