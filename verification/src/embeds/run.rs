//! The embeds of a run.

use vstd::prelude::*;

use crate::db::models::{BagTier, BotEmoji, DungeonReaction, DungeonTemplate, Participant, Run};
use crate::embeds::headcount::{
    behind, color_of, emoji_of, emoji_rt, emoji_str, emoji_text, put_behind, show_template_emoji,
    template_color, template_emoji, template_title, title_of,
};
use crate::embeds::loot_fields::{build_loot_fields, loot_fields, tier_value};
use crate::name_map::NameMap;
use crate::text::{
    cat2, cat3, cat4, cat6, dec, dec_i32, dec_i64, dec_usize, join, joined, opt_view, own, own_opt,
    views, views_push,
};
use crate::ui::{
    field_views, field_views_push, Button, ButtonStyle, ButtonView, Buttons, Embed, EmbedView,
    Field, FieldView, RowView, Rows, Screen, ScreenView,
};

verus! {

// ----- who takes part ------------------------------------------------------------------

/// A number put into its place in an ascending list, where it is not there yet.
pub open spec fn put_in(s: Seq<i64>, v: i64) -> Seq<i64>
    decreases s.len(),
{
    if s.len() == 0 || s.last() < v {
        s.push(v)
    } else if s.last() == v {
        s
    } else {
        put_in(s.drop_last(), v).push(s.last())
    }
}

/// Who is among the first `n` participants, each once, in ascending order.
pub open spec fn roster(participants: Seq<Participant>, n: int) -> Seq<i64>
    decreases n,
{
    if n <= 0 {
        Seq::empty()
    } else {
        put_in(roster(participants, n - 1), participants[n - 1].user_id)
    }
}

/// A list is strictly ascending.
pub open spec fn ascending(s: Seq<i64>) -> bool {
    forall|i: int, j: int| 0 <= i < j < s.len() ==> #[trigger] s[i] < #[trigger] s[j]
}

proof fn put_in_keeps_order(s: Seq<i64>, v: i64)
    requires
        ascending(s),
    ensures
        ascending(put_in(s, v)),
        put_in(s, v).len() > 0,
        forall|k: int|
            0 <= k < put_in(s, v).len() ==> #[trigger] put_in(s, v)[k] == v || s.contains(
                put_in(s, v)[k],
            ),
        put_in(s, v).contains(v),
        forall|x: i64| s.contains(x) ==> #[trigger] put_in(s, v).contains(x),
    decreases s.len(),
{
    let r = put_in(s, v);
    if s.len() == 0 || s.last() < v {
        assert(r[s.len() as int] == v);
        assert forall|x: i64| s.contains(x) implies #[trigger] r.contains(x) by {
            let k = choose|k: int| 0 <= k < s.len() && s[k] == x;
            assert(r[k] == x);
        }
        assert forall|k: int| 0 <= k < r.len() implies #[trigger] r[k] == v || s.contains(r[k]) by {
            if k < s.len() {
                assert(s[k] == r[k]);
            }
        }
    } else if s.last() == v {
        assert(s[s.len() - 1] == v);
    } else {
        let front = s.drop_last();
        put_in_keeps_order(front, v);
        let f = put_in(front, v);
        assert(r == f.push(s.last()));
        assert forall|k: int| 0 <= k < f.len() implies #[trigger] f[k] < s.last() by {
            if f[k] != v {
                let m = choose|m: int| 0 <= m < front.len() && front[m] == f[k];
                assert(s[m] < s[s.len() - 1]);
            }
        }
        assert forall|i: int, j: int| 0 <= i < j < r.len() implies #[trigger] r[i] < #[trigger] r[j] by {
            if j < f.len() {
                assert(f[i] < f[j]);
            } else {
                assert(r[i] == f[i]);
            }
        }
        assert forall|k: int| 0 <= k < r.len() implies #[trigger] r[k] == v || s.contains(r[k]) by {
            if k < f.len() {
                if f[k] != v {
                    let m = choose|m: int| 0 <= m < front.len() && front[m] == f[k];
                    assert(s[m] == r[k]);
                }
            } else {
                assert(s[s.len() - 1] == r[k]);
            }
        }
        let at = choose|k: int| 0 <= k < f.len() && f[k] == v;
        assert(r[at] == v);
        assert forall|x: i64| s.contains(x) implies #[trigger] r.contains(x) by {
            let k = choose|k: int| 0 <= k < s.len() && s[k] == x;
            if k < front.len() {
                assert(front[k] == x);
                assert(front.contains(x));
                assert(f.contains(x));
                let m = choose|m: int| 0 <= m < f.len() && f[m] == x;
                assert(r[m] == x);
            } else {
                assert(r[f.len() as int] == x);
            }
        }
    }
}

/// The roster lists exactly those who take part, each once, in ascending order.
pub proof fn roster_lists_everyone_once(participants: Seq<Participant>, n: int)
    requires
        0 <= n <= participants.len(),
    ensures
        ascending(roster(participants, n)),
        forall|i: int|
            0 <= i < n ==> roster(participants, n).contains((#[trigger] participants[i]).user_id),
        forall|k: int|
            0 <= k < roster(participants, n).len() ==> exists|i: int|
                0 <= i < n && (#[trigger] participants[i]).user_id == #[trigger] roster(
                    participants,
                    n,
                )[k],
    decreases n,
{
    if n > 0 {
        roster_lists_everyone_once(participants, n - 1);
        let before = roster(participants, n - 1);
        let all = roster(participants, n);
        let v = participants[n - 1].user_id;
        put_in_keeps_order(before, v);
        assert forall|i: int| 0 <= i < n implies all.contains((#[trigger] participants[i]).user_id) by {
            if i < n - 1 {
                assert(before.contains(participants[i].user_id));
            }
        }
        assert forall|k: int| 0 <= k < all.len() implies exists|i: int|
            0 <= i < n && (#[trigger] participants[i]).user_id == #[trigger] all[k] by {
            if all[k] != v {
                let m = choose|m: int| 0 <= m < before.len() && before[m] == all[k];
                let i = choose|i: int|
                    0 <= i < n - 1 && (#[trigger] participants[i]).user_id == before[m];
                assert(participants[i].user_id == all[k]);
            } else {
                assert(participants[n - 1].user_id == all[k]);
            }
        }
    }
}

fn place_in(list: &mut Vec<i64>, v: i64)
    ensures
        final(list)@ == put_in(old(list)@, v),
{
    let ghost before = list@;
    let mut p: usize = list.len();
    let ghost mut tail: Seq<i64> = Seq::empty();
    assert(before.take(p as int) =~= before);
    assert(put_in(before.take(p as int), v) + tail =~= put_in(before, v));
    while p > 0 && list[p - 1] > v
        invariant
            p <= list@.len(),
            list@ == before,
            tail == before.skip(p as int),
            put_in(before.take(p as int), v) + tail == put_in(before, v),
        decreases p,
    {
        proof {
            let head = before.take(p as int);
            assert(head.drop_last() =~= before.take(p - 1));
            assert(head.last() == before[p - 1]);
            let smaller = put_in(before.take(p - 1), v);
            assert(smaller.push(before[p - 1]) + tail =~= smaller + (seq![before[p - 1]] + tail));
            tail = seq![before[p - 1]] + tail;
            assert(tail =~= before.skip(p - 1));
        }
        p = p - 1;
    }
    if p > 0 && list[p - 1] == v {
        assert(before.take(p as int).last() == v);
        assert(before.take(p as int) + before.skip(p as int) =~= before);
        return;
    }
    list.insert(p, v);
    proof {
        let head = before.take(p as int);
        if p > 0 {
            assert(head.last() == before[p - 1]);
        }
        assert(put_in(head, v) == head.push(v));
        assert(list@ =~= head.push(v) + before.skip(p as int));
    }
}

fn joined_users(participants: &Vec<Participant>) -> (r: Vec<i64>)
    ensures
        r@ == roster(participants@, participants@.len() as int),
{
    let mut out: Vec<i64> = Vec::new();
    let mut i: usize = 0;
    while i < participants.len()
        invariant
            i <= participants@.len(),
            out@ == roster(participants@, i as int),
        decreases participants@.len() - i,
    {
        place_in(&mut out, participants[i].user_id);
        i = i + 1;
    }
    out
}

/// How a message mentions users.
pub open spec fn mentions(ids: Seq<i64>) -> Seq<Seq<char>> {
    Seq::new(ids.len(), |i: int| "<@"@ + dec(ids[i] as int) + ">"@)
}

fn mention_all(ids: &Vec<i64>) -> (r: Vec<String>)
    ensures
        views(r@) == mentions(ids@),
{
    let mut out: Vec<String> = Vec::new();
    let mut i: usize = 0;
    while i < ids.len()
        invariant
            i <= ids@.len(),
            views(out@) == mentions(ids@).take(i as int),
        decreases ids@.len() - i,
    {
        broadcast use views_push;

        out.push(cat3("<@", &dec_i64(ids[i]), ">"));
        i = i + 1;
        assert(mentions(ids@).take(i as int) =~= mentions(ids@).take(i - 1).push(mentions(ids@)[i - 1]));
    }
    assert(mentions(ids@).take(i as int) =~= mentions(ids@));
    out
}

/// The field that lists everyone who takes part.
pub open spec fn joined_field(participants: Seq<Participant>) -> FieldView {
    let ids = roster(participants, participants.len() as int);
    FieldView {
        name: "👥 Joined ("@ + dec(ids.len() as int) + ")"@,
        value: if ids.len() == 0 {
            "_none_"@
        } else {
            joined(mentions(ids), ", "@)
        },
        inline: false,
    }
}

fn show_joined(participants: &Vec<Participant>) -> (r: Field)
    ensures
        r@ == joined_field(participants@),
{
    let ids = joined_users(participants);
    let value = if ids.len() == 0 {
        own("_none_")
    } else {
        join(&mention_all(&ids), ", ")
    };
    Field { name: cat3("👥 Joined (", &dec_usize(ids.len()), ")"), value, inline: false }
}

/// Those of the first `n` participants who bring something, the confirmed ones
/// with a check mark.
pub open spec fn bringers(participants: Seq<Participant>, reaction_id: i32, n: int) -> Seq<Seq<char>>
    decreases n,
{
    if n <= 0 {
        Seq::empty()
    } else {
        let before = bringers(participants, reaction_id, n - 1);
        let p = participants[n - 1];
        if p.dungeon_reaction_id == Some(reaction_id) {
            before.push(
                if p.confirmed {
                    "✅ <@"@ + dec(p.user_id as int) + ">"@
                } else {
                    "<@"@ + dec(p.user_id as int) + ">"@
                },
            )
        } else {
            before
        }
    }
}

fn list_bringers(participants: &Vec<Participant>, reaction_id: i32) -> (r: Vec<String>)
    ensures
        views(r@) == bringers(participants@, reaction_id, participants@.len() as int),
        r@.len() == bringers(participants@, reaction_id, participants@.len() as int).len(),
{
    let mut out: Vec<String> = Vec::new();
    let mut i: usize = 0;
    assert(views(out@) =~= Seq::<Seq<char>>::empty());
    while i < participants.len()
        invariant
            i <= participants@.len(),
            views(out@) == bringers(participants@, reaction_id, i as int),
        decreases participants@.len() - i,
    {
        broadcast use views_push;

        let p = participants[i];
        let brings = match p.dungeon_reaction_id {
            Some(id) => id == reaction_id,
            None => false,
        };
        if brings {
            if p.confirmed {
                out.push(cat3("✅ <@", &dec_i64(p.user_id), ">"));
            } else {
                out.push(cat3("<@", &dec_i64(p.user_id), ">"));
            }
        }
        i = i + 1;
    }
    assert(views(out@).len() == out@.len());
    out
}

// ----- the embed of a run --------------------------------------------------------------

/// The field of a reaction: how many bring it of how many are needed, and who.
pub open spec fn reaction_field(
    r: DungeonReaction,
    participants: Seq<Participant>,
    map: Map<Seq<char>, BotEmoji>,
) -> FieldView {
    let who = bringers(participants, r.id, participants.len() as int);
    FieldView {
        name: behind(
            emoji_text(r.emoji@, map),
            r.display_name@ + " ("@ + dec(who.len() as int) + "/"@ + dec(r.num_required as int)
                + ")"@,
        ),
        value: if who.len() == 0 {
            "_none_"@
        } else {
            joined(who, "\n"@)
        },
        inline: true,
    }
}

/// The fields of the reactions of a run.
pub open spec fn reaction_fields(
    reactions: Seq<DungeonReaction>,
    participants: Seq<Participant>,
    map: Map<Seq<char>, BotEmoji>,
) -> Seq<FieldView> {
    Seq::new(reactions.len(), |i: int| reaction_field(reactions[i], participants, map))
}

fn show_reaction(
    reaction: &DungeonReaction,
    participants: &Vec<Participant>,
    map: &NameMap<BotEmoji>,
) -> (r: Field)
    ensures
        r@ == reaction_field(*reaction, participants@, map@),
{
    let who = list_bringers(participants, reaction.id);
    let value = if who.len() == 0 {
        own("_none_")
    } else {
        join(&who, "\n")
    };
    let count = cat6(
        &reaction.display_name,
        " (",
        &dec_usize(who.len()),
        "/",
        &dec_i32(reaction.num_required),
        ")",
    );
    Field { name: put_behind(&emoji_str(&reaction.emoji, map), &count), value, inline: true }
}

/// What is known of a run: its leader, where it meets, who the party is and its
/// voice channel.
pub open spec fn run_text(run: Run) -> Seq<char> {
    let leader = "**Leader:** <@"@ + dec(run.leader_user_id as int) + ">"@;
    let place = match run.location {
        Some(l) => leader + "\n**Location:** `"@ + l@ + "`"@,
        None => leader,
    };
    let party = match run.party {
        Some(p) => place + "\n**Party:** "@ + p@,
        None => place,
    };
    match run.voice_channel_id {
        Some(v) => party + "\n**Voice:** <#"@ + dec(v as int) + ">"@,
        None => party,
    }
}

fn show_run_text(run: &Run) -> (r: String)
    ensures
        r@ == run_text(*run),
{
    let mut text = cat3("**Leader:** <@", &dec_i64(run.leader_user_id), ">");
    if let Some(l) = &run.location {
        text = cat4(&text, "\n**Location:** `", l, "`");
    }
    if let Some(p) = &run.party {
        text = cat3(&text, "\n**Party:** ", p);
    }
    if let Some(v) = run.voice_channel_id {
        text = cat4(&text, "\n**Voice:** <#", &dec_i64(v), ">");
    }
    text
}

/// The loot that a run shows: from the threshold up, and nothing where no tier
/// has the threshold's name.
pub open spec fn run_loot(
    template: DungeonTemplate,
    map: Map<Seq<char>, BotEmoji>,
    tiers: Seq<BagTier>,
    threshold: Seq<char>,
) -> Seq<FieldView> {
    match tier_value(tiers, threshold, 0) {
        Some(min) => loot_fields(views(template.showcase_emoji@), map, tiers, Some(min)),
        None => Seq::empty(),
    }
}

fn append_fields(to: &mut Vec<Field>, more: Vec<Field>)
    ensures
        field_views(final(to)@) == field_views(old(to)@) + field_views(more@),
{
    let ghost a = field_views(to@);
    let ghost b = field_views(more@);
    let mut more = more;
    to.append(&mut more);
    assert(field_views(to@) =~= a + b);
}

/// The buttons by which those who bring something that must be confirmed say so,
/// for the first `n` reactions.
pub open spec fn confirm_buttons(
    run_id: i32,
    reactions: Seq<DungeonReaction>,
    map: Map<Seq<char>, BotEmoji>,
    n: int,
) -> Seq<ButtonView>
    decreases n,
{
    if n <= 0 {
        Seq::empty()
    } else {
        let before = confirm_buttons(run_id, reactions, map, n - 1);
        let r = reactions[n - 1];
        if r.requires_confirmation {
            before.push(
                ButtonView::new(
                    "run:"@ + dec(run_id as int) + ":confirm:"@ + dec(r.id as int),
                    "Bring "@ + r.display_name@,
                    ButtonStyle::Secondary,
                ).emoji(emoji_of(r.emoji@, map)),
            )
        } else {
            before
        }
    }
}

/// Buttons in rows of five.
pub open spec fn in_fives(buttons: Seq<ButtonView>) -> Seq<RowView>
    decreases buttons.len(),
{
    if buttons.len() == 0 {
        Seq::empty()
    } else if buttons.len() <= 5 {
        seq![RowView::Buttons(buttons)]
    } else {
        seq![RowView::Buttons(buttons.take(5))] + in_fives(buttons.skip(5))
    }
}

/// No row of buttons is longer than five, and no button is lost.
pub proof fn rows_hold_five(buttons: Seq<ButtonView>)
    ensures
        forall|i: int|
            0 <= i < in_fives(buttons).len() ==> (#[trigger] in_fives(buttons)[i] is Buttons) && 0
                < in_fives(buttons)[i]->Buttons_0.len() <= 5,
        in_fives(buttons).len() == (buttons.len() + 4) / 5,
    decreases buttons.len(),
{
    if buttons.len() > 5 {
        rows_hold_five(buttons.skip(5));
        let rest = in_fives(buttons.skip(5));
        let all = in_fives(buttons);
        assert forall|i: int| 0 <= i < all.len() implies (#[trigger] all[i] is Buttons) && 0
            < all[i]->Buttons_0.len() <= 5 by {
            if i > 0 {
                assert(all[i] == rest[i - 1]);
            }
        }
    }
}

fn list_confirm_buttons(run_id: i32, reactions: &Vec<DungeonReaction>, map: &NameMap<BotEmoji>) -> (r:
    Buttons)
    ensures
        r@ == confirm_buttons(run_id, reactions@, map@, reactions@.len() as int),
{
    let mut out = Buttons::new();
    let mut i: usize = 0;
    while i < reactions.len()
        invariant
            i <= reactions@.len(),
            out@ == confirm_buttons(run_id, reactions@, map@, i as int),
        decreases reactions@.len() - i,
    {
        let r = &reactions[i];
        if r.requires_confirmation {
            let id = cat4("run:", &dec_i32(run_id), ":confirm:", &dec_i32(r.id));
            out = out.push(
                Button::new(&id, &cat2("Bring ", &r.display_name), ButtonStyle::Secondary).emoji(
                    emoji_rt(&r.emoji, map),
                ),
            );
        }
        i = i + 1;
    }
    out
}

/// Put buttons below the rows, five to a row.
pub fn add_in_fives(rows: Rows, buttons: Buttons) -> (r: Rows)
    ensures
        r@ == rows@ + in_fives(buttons@),
{
    let ghost all = buttons@;
    let ghost start = rows@;
    let mut left = buttons.list;
    let mut rows = rows;
    assert(start + in_fives(all) =~= rows@ + in_fives((Buttons { list: left })@));
    while left.len() > 0
        invariant
            rows@ + in_fives((Buttons { list: left })@) == start + in_fives(all),
        decreases left@.len(),
    {
        let ghost lv = (Buttons { list: left })@;
        let take: usize = if left.len() <= 5 {
            left.len()
        } else {
            5
        };
        let rest = left.split_off(take);
        let row = Buttons { list: left };
        let ghost before = rows@;
        rows = rows.buttons(row);
        left = rest;
        proof {
            let rv = (Buttons { list: left })@;
            assert(row@ =~= lv.take(take as int));
            assert(rv =~= lv.skip(take as int));
            if lv.len() <= 5 {
                assert(row@ =~= lv);
                assert(rv =~= Seq::<ButtonView>::empty());
                assert(rows@ + in_fives(rv) =~= before + in_fives(lv));
            } else {
                assert(rows@ + in_fives(rv) =~= before + (seq![RowView::Buttons(lv.take(5))]
                    + in_fives(lv.skip(5))));
            }
        }
    }
    assert(rows@ + in_fives((Buttons { list: left })@) =~= rows@);
    rows
}

/// The screen of a run.
pub open spec fn run_screen(
    run: Run,
    template: DungeonTemplate,
    reactions: Seq<DungeonReaction>,
    participants: Seq<Participant>,
    map: Map<Seq<char>, BotEmoji>,
    tiers: Seq<BagTier>,
    threshold: Seq<char>,
) -> ScreenView {
    let id = dec(run.id as int);
    ScreenView {
        embed: EmbedView::new(
            behind(template_emoji(template, map), title_of(template, " Run"@)),
            run_text(run),
            color_of(template),
        ).fields(
            reaction_fields(reactions, participants, map).push(joined_field(participants)) + run_loot(
                template,
                map,
                tiers,
                threshold,
            ),
        ).thumbnail(opt_view(template.thumbnail_url)),
        rows: Seq::empty().push(
            RowView::Buttons(
                Seq::empty().push(
                    ButtonView::new("run:"@ + id + ":join"@, "Join"@, ButtonStyle::Success).unicode(
                        "✋"@,
                    ),
                ).push(
                    ButtonView::new("run:"@ + id + ":leave"@, "Leave"@, ButtonStyle::Secondary).unicode(
                        "🚪"@,
                    ),
                ).push(
                    ButtonView::new("run:"@ + id + ":cp"@, "Control Panel"@, ButtonStyle::Primary).unicode(
                        "⚙️"@,
                    ),
                ),
            ),
        ) + in_fives(confirm_buttons(run.id, reactions, map, reactions.len() as int)),
    }
}

/// Build the embed of a run and its public buttons: Join, Leave and Control Panel,
/// and one for each thing that must be confirmed.
pub fn build(
    run: &Run,
    template: &DungeonTemplate,
    reactions: &Vec<DungeonReaction>,
    participants: &Vec<Participant>,
    emoji_map: &NameMap<BotEmoji>,
    bag_tiers: &Vec<BagTier>,
    threshold: &str,
) -> (r: Screen)
    ensures
        r@ == run_screen(
            *run,
            *template,
            reactions@,
            participants@,
            emoji_map@,
            bag_tiers@,
            threshold@,
        ),
{
    broadcast use field_views_push;

    let title = put_behind(
        &show_template_emoji(template, emoji_map),
        &template_title(template, " Run"),
    );
    let mut fields: Vec<Field> = Vec::new();
    let mut i: usize = 0;
    let ghost all = reaction_fields(reactions@, participants@, emoji_map@);
    while i < reactions.len()
        invariant
            i <= reactions@.len(),
            all == reaction_fields(reactions@, participants@, emoji_map@),
            field_views(fields@) == all.take(i as int),
        decreases reactions@.len() - i,
    {
        broadcast use field_views_push;

        fields.push(show_reaction(&reactions[i], participants, emoji_map));
        i = i + 1;
        assert(all.take(i as int) =~= all.take(i - 1).push(all[i - 1]));
    }
    assert(all.take(i as int) =~= all);
    fields.push(show_joined(participants));
    append_fields(
        &mut fields,
        build_loot_fields(&template.showcase_emoji, emoji_map, bag_tiers, threshold),
    );
    let embed = Embed::new(&title, &show_run_text(run), template_color(template)).fields(
        fields,
    ).thumbnail(own_opt(&template.thumbnail_url));
    let id = dec_i32(run.id);
    let join_btn = Button::new(&cat3("run:", &id, ":join"), "Join", ButtonStyle::Success).unicode(
        "✋",
    );
    let leave_btn = Button::new(&cat3("run:", &id, ":leave"), "Leave", ButtonStyle::Secondary).unicode(
        "🚪",
    );
    let cp_btn = Button::new(&cat3("run:", &id, ":cp"), "Control Panel", ButtonStyle::Primary).unicode(
        "⚙️",
    );
    let rows = Rows::new().buttons(Buttons::new().push(join_btn).push(leave_btn).push(cp_btn));
    let confirm = list_confirm_buttons(run.id, reactions, emoji_map);
    Screen { embed, rows: add_in_fives(rows, confirm) }
}

// ----- the embed of a run that is over ----------------------------------------------------

/// Who brought what, for those of the first `n` reactions that someone brought.
pub open spec fn brought_fields(
    reactions: Seq<DungeonReaction>,
    participants: Seq<Participant>,
    map: Map<Seq<char>, BotEmoji>,
    n: int,
) -> Seq<FieldView>
    decreases n,
{
    if n <= 0 {
        Seq::empty()
    } else {
        let before = brought_fields(reactions, participants, map, n - 1);
        let r = reactions[n - 1];
        let who = bringers(participants, r.id, participants.len() as int);
        if who.len() == 0 {
            before
        } else {
            before.push(
                FieldView {
                    name: behind(emoji_text(r.emoji@, map), r.display_name@),
                    value: joined(who, "\n"@),
                    inline: true,
                },
            )
        }
    }
}

/// The embed of a run that is over.
pub open spec fn ended_run(
    run: Run,
    template: DungeonTemplate,
    reactions: Seq<DungeonReaction>,
    participants: Seq<Participant>,
    map: Map<Seq<char>, BotEmoji>,
    tiers: Seq<BagTier>,
    threshold: Seq<char>,
) -> EmbedView {
    let leader = "**Leader:** <@"@ + dec(run.leader_user_id as int) + ">"@;
    EmbedView::new(
        behind(template_emoji(template, map), title_of(template, " Run"@) + " — ended"@),
        match run.location {
            Some(l) => leader + "\n**Location:** `"@ + l@ + "`"@,
            None => leader,
        },
        0x808080,
    ).fields(
        brought_fields(reactions, participants, map, reactions.len() as int).push(
            joined_field(participants),
        ) + run_loot(template, map, tiers, threshold),
    )
}

/// Build the embed of a run that is over.
pub fn build_ended(
    run: &Run,
    template: &DungeonTemplate,
    reactions: &Vec<DungeonReaction>,
    participants: &Vec<Participant>,
    emoji_map: &NameMap<BotEmoji>,
    bag_tiers: &Vec<BagTier>,
    threshold: &str,
) -> (r: Embed)
    ensures
        r@ == ended_run(
            *run,
            *template,
            reactions@,
            participants@,
            emoji_map@,
            bag_tiers@,
            threshold@,
        ),
{
    broadcast use field_views_push;

    let title = put_behind(
        &show_template_emoji(template, emoji_map),
        &cat2(&template_title(template, " Run"), " — ended"),
    );
    let mut text = cat3("**Leader:** <@", &dec_i64(run.leader_user_id), ">");
    if let Some(l) = &run.location {
        text = cat4(&text, "\n**Location:** `", l, "`");
    }
    let mut fields: Vec<Field> = Vec::new();
    let mut i: usize = 0;
    assert(field_views(fields@) =~= Seq::<FieldView>::empty());
    while i < reactions.len()
        invariant
            i <= reactions@.len(),
            field_views(fields@) == brought_fields(
                reactions@,
                participants@,
                emoji_map@,
                i as int,
            ),
        decreases reactions@.len() - i,
    {
        broadcast use field_views_push;

        let r = &reactions[i];
        let who = list_bringers(participants, r.id);
        if who.len() > 0 {
            let name = put_behind(&emoji_str(&r.emoji, emoji_map), &r.display_name);
            fields.push(Field { name, value: join(&who, "\n"), inline: true });
        }
        i = i + 1;
    }
    fields.push(show_joined(participants));
    append_fields(
        &mut fields,
        build_loot_fields(&template.showcase_emoji, emoji_map, bag_tiers, threshold),
    );
    Embed::new(&title, &text, 0x808080).fields(fields)
}

// ----- the leader's control panel -----------------------------------------------------------

/// The screen by which the leader manages a run.
pub open spec fn control_panel_screen(run: Run) -> ScreenView {
    let id = dec(run.id as int);
    ScreenView {
        embed: EmbedView::new(
            "Run Control Panel"@,
            "You are leader of run **#"@ + id + CONTROL_PANEL_TEXT@,
            0x5865F2,
        ),
        rows: Seq::empty().push(
            RowView::Buttons(
                Seq::empty().push(
                    ButtonView::new("run:"@ + id + ":loc"@, "Set Location"@, ButtonStyle::Primary).unicode(
                        "📍"@,
                    ),
                ).push(
                    ButtonView::new("run:"@ + id + ":party"@, "Set Party"@, ButtonStyle::Primary).unicode(
                        "📝"@,
                    ),
                ),
            ),
        ).push(
            RowView::Buttons(
                Seq::empty().push(
                    ButtonView::new(
                        "run:"@ + id + ":transfer"@,
                        "Transfer Leader"@,
                        ButtonStyle::Secondary,
                    ).unicode("🔁"@),
                ).push(
                    ButtonView::new("run:"@ + id + ":end"@, "End Run"@, ButtonStyle::Danger).unicode(
                        "🛑"@,
                    ),
                ),
            ),
        ),
    }
}

/// What the control panel says of its buttons.
pub const CONTROL_PANEL_TEXT: &'static str = "**. Actions here are private.\n\n\
    • **Set Location** — tell the party where to meet\n\
    • **Set Party** — free-form party composition note\n\
    • **Transfer Leader** — hand the raid to someone else\n\
    • **End Run** — close the run message and finish up";

/// Build the screen by which the leader manages a run.
pub fn control_panel(run: &Run) -> (r: Screen)
    ensures
        r@ == control_panel_screen(*run),
{
    let id = dec_i32(run.id);
    let text = cat3("You are leader of run **#", &id, CONTROL_PANEL_TEXT);
    let embed = Embed::new("Run Control Panel", &text, 0x5865F2);
    let loc = Button::new(&cat3("run:", &id, ":loc"), "Set Location", ButtonStyle::Primary).unicode(
        "📍",
    );
    let party = Button::new(&cat3("run:", &id, ":party"), "Set Party", ButtonStyle::Primary).unicode(
        "📝",
    );
    let transfer = Button::new(
        &cat3("run:", &id, ":transfer"),
        "Transfer Leader",
        ButtonStyle::Secondary,
    ).unicode("🔁");
    let end = Button::new(&cat3("run:", &id, ":end"), "End Run", ButtonStyle::Danger).unicode("🛑");
    let rows = Rows::new().buttons(Buttons::new().push(loc).push(party)).buttons(
        Buttons::new().push(transfer).push(end),
    );
    Screen { embed, rows }
}

// ----- what is shown ------------------------------------------------------------------------

/// Everybody who brings an item is listed under it once for each time they said so, with
/// a check mark where they confirmed it, and nobody else is.
pub proof fn bringers_are_those_who_said_so(ps: Seq<Participant>, reaction_id: i32, n: int)
    requires
        0 <= n <= ps.len(),
    ensures
        forall|i: int| #![trigger ps[i]]
            0 <= i < n && ps[i].dungeon_reaction_id == Some(reaction_id) ==> bringers(
                ps,
                reaction_id,
                n,
            ).contains(
                if ps[i].confirmed {
                    "✅ <@"@ + dec(ps[i].user_id as int) + ">"@
                } else {
                    "<@"@ + dec(ps[i].user_id as int) + ">"@
                },
            ),
        bringers(ps, reaction_id, n).len() == ps.take(n).filter(
            |p: Participant| p.dungeon_reaction_id == Some(reaction_id),
        ).len(),
    decreases n,
{
    reveal(Seq::filter);
    let said = |p: Participant| p.dungeon_reaction_id == Some(reaction_id);
    if n > 0 {
        bringers_are_those_who_said_so(ps, reaction_id, n - 1);
        assert(ps.take(n).drop_last() =~= ps.take(n - 1));
        let before = bringers(ps, reaction_id, n - 1);
        let all = bringers(ps, reaction_id, n);
        assert forall|i: int| #![trigger ps[i]] 0 <= i < n && ps[i].dungeon_reaction_id == Some(
            reaction_id,
        ) implies all.contains(
            if ps[i].confirmed {
                "✅ <@"@ + dec(ps[i].user_id as int) + ">"@
            } else {
                "<@"@ + dec(ps[i].user_id as int) + ">"@
            },
        ) by {
            let t = if ps[i].confirmed {
                "✅ <@"@ + dec(ps[i].user_id as int) + ">"@
            } else {
                "<@"@ + dec(ps[i].user_id as int) + ">"@
            };
            if i < n - 1 {
                assert(before.contains(t));
                let k = choose|k: int| 0 <= k < before.len() && before[k] == t;
                assert(all[k] == t);
            } else {
                assert(all.last() == t);
            }
        }
    }
}

/// Under each item stands who brings it, with how many there are and how many are
/// needed; an item that nobody brings is shown too.
pub proof fn every_item_is_shown(
    reactions: Seq<DungeonReaction>,
    ps: Seq<Participant>,
    map: Map<Seq<char>, BotEmoji>,
    i: int,
)
    requires
        0 <= i < reactions.len(),
    ensures
        reaction_fields(reactions, ps, map).len() == reactions.len(),
        ({
            let who = bringers(ps, reactions[i].id, ps.len() as int);
            let f = reaction_fields(reactions, ps, map)[i];
            let label = reactions[i].display_name@ + " ("@ + dec(who.len() as int) + "/"@ + dec(
                reactions[i].num_required as int,
            ) + ")"@;
            let e = emoji_text(reactions[i].emoji@, map);
            &&& e.len() == 0 ==> f.name == label
            &&& e.len() > 0 ==> f.name == e + " "@ + label
            &&& who.len() == 0 ==> f.value == "_none_"@
            &&& who.len() > 0 ==> f.value == joined(who, "\n"@)
        }),
{
}

/// A run says who leads it, and where, with whom and in which voice channel it is, as
/// far as that is known, in this order.
pub proof fn runs_say_who_and_where(run: Run)
    ensures
        ({
            let leader = "**Leader:** <@"@ + dec(run.leader_user_id as int) + ">"@;
            let place = match run.location {
                Some(l) => "\n**Location:** `"@ + l@ + "`"@,
                None => Seq::<char>::empty(),
            };
            let party = match run.party {
                Some(p) => "\n**Party:** "@ + p@,
                None => Seq::<char>::empty(),
            };
            let voice = match run.voice_channel_id {
                Some(v) => "\n**Voice:** <#"@ + dec(v as int) + ">"@,
                None => Seq::<char>::empty(),
            };
            run_text(run) == leader + place + party + voice
        }),
{
    let leader = "**Leader:** <@"@ + dec(run.leader_user_id as int) + ">"@;
    let place = match run.location {
        Some(l) => "\n**Location:** `"@ + l@ + "`"@,
        None => Seq::<char>::empty(),
    };
    let party = match run.party {
        Some(p) => "\n**Party:** "@ + p@,
        None => Seq::<char>::empty(),
    };
    let voice = match run.voice_channel_id {
        Some(v) => "\n**Voice:** <#"@ + dec(v as int) + ">"@,
        None => Seq::<char>::empty(),
    };
    assert(run_text(run) =~= leader + place + party + voice);
}

/// A run shows its text, then its items, then everybody who joined, then the loot from
/// the threshold up; its buttons let people join and leave and open the panel, and
/// behind them come those to confirm an item.
pub proof fn runs_show_items_people_and_loot(
    run: Run,
    t: DungeonTemplate,
    reactions: Seq<DungeonReaction>,
    ps: Seq<Participant>,
    map: Map<Seq<char>, BotEmoji>,
    tiers: Seq<BagTier>,
    threshold: Seq<char>,
)
    ensures
        ({
            let s = run_screen(run, t, reactions, ps, map, tiers, threshold);
            let n = reactions.len() as int;
            let loot = match tier_value(tiers, threshold, 0) {
                Some(min) => loot_fields(views(t.showcase_emoji@), map, tiers, Some(min)),
                None => Seq::<FieldView>::empty(),
            };
            &&& s.embed.description == Some(run_text(run))
            &&& s.embed.fields.len() == n + 1 + loot.len()
            &&& s.embed.fields.take(n) == reaction_fields(reactions, ps, map)
            &&& s.embed.fields[n] == joined_field(ps)
            &&& s.embed.fields.skip(n + 1) == loot
            &&& s.embed.thumbnail == opt_view(t.thumbnail_url)
            &&& s.rows.len() > 0 && s.rows[0] is Buttons && s.rows[0]->Buttons_0.len() == 3
            &&& s.rows[0]->Buttons_0[0].custom_id == "run:"@ + dec(run.id as int) + ":join"@
            &&& s.rows[0]->Buttons_0[1].custom_id == "run:"@ + dec(run.id as int) + ":leave"@
            &&& s.rows[0]->Buttons_0[2].custom_id == "run:"@ + dec(run.id as int) + ":cp"@
            &&& s.rows.skip(1) == in_fives(confirm_buttons(run.id, reactions, map, n))
        }),
{
    let s = run_screen(run, t, reactions, ps, map, tiers, threshold);
    let n = reactions.len() as int;
    assert(s.embed.fields.take(n) =~= reaction_fields(reactions, ps, map));
    assert(s.embed.fields.skip(n + 1) =~= run_loot(t, map, tiers, threshold));
    assert(s.rows.skip(1) =~= in_fives(confirm_buttons(run.id, reactions, map, n)));
}

/// There is a button to confirm each item that must be confirmed, in order, and none for
/// the others.
pub proof fn items_to_confirm_have_buttons(
    run_id: i32,
    reactions: Seq<DungeonReaction>,
    map: Map<Seq<char>, BotEmoji>,
    n: int,
)
    requires
        0 <= n < reactions.len(),
    ensures
        confirm_buttons(run_id, reactions, map, 0).len() == 0,
        !reactions[n].requires_confirmation ==> confirm_buttons(run_id, reactions, map, n + 1)
            == confirm_buttons(run_id, reactions, map, n),
        reactions[n].requires_confirmation ==> {
            let b = confirm_buttons(run_id, reactions, map, n + 1);
            &&& b.len() == confirm_buttons(run_id, reactions, map, n).len() + 1
            &&& b.drop_last() == confirm_buttons(run_id, reactions, map, n)
            &&& b.last().custom_id == "run:"@ + dec(run_id as int) + ":confirm:"@ + dec(
                reactions[n].id as int,
            )
            &&& b.last().label == Some("Bring "@ + reactions[n].display_name@)
            &&& b.last().emoji == emoji_of(reactions[n].emoji@, map)
        },
{
    if reactions[n].requires_confirmation {
        let b = confirm_buttons(run_id, reactions, map, n + 1);
        assert(b.drop_last() =~= confirm_buttons(run_id, reactions, map, n));
    }
}

/// Who joined is everybody who said anything, each once, with how many they are.
pub proof fn everybody_who_joined_is_shown(ps: Seq<Participant>)
    ensures
        ({
            let ids = roster(ps, ps.len() as int);
            let f = joined_field(ps);
            &&& f.name == "👥 Joined ("@ + dec(ids.len() as int) + ")"@
            &&& ids.len() == 0 ==> f.value == "_none_"@
            &&& ids.len() > 0 ==> f.value == joined(
                Seq::new(ids.len(), |i: int| "<@"@ + dec(ids[i] as int) + ">"@),
                ", "@,
            )
            &&& ids.len() == 0 <==> ps.len() == 0
        }),
{
    let ids = roster(ps, ps.len() as int);
    roster_lists_everyone_once(ps, ps.len() as int);
    assert(mentions(ids) =~= Seq::new(ids.len(), |i: int| "<@"@ + dec(ids[i] as int) + ">"@));
    if ps.len() > 0 {
        assert(ids.contains(ps[0].user_id));
    }
    if ids.len() > 0 {
        assert(ids[0] == ids[0]);
    }
}

/// Buttons in rows of five are all there, in order.
pub proof fn rows_of_five_lose_no_button(buttons: Seq<ButtonView>, i: int)
    requires
        0 <= i < buttons.len(),
    ensures
        i / 5 < in_fives(buttons).len(),
        in_fives(buttons)[i / 5] is Buttons,
        i % 5 < in_fives(buttons)[i / 5]->Buttons_0.len(),
        in_fives(buttons)[i / 5]->Buttons_0[i % 5] == buttons[i],
    decreases buttons.len(),
{
    if buttons.len() > 5 && i >= 5 {
        rows_of_five_lose_no_button(buttons.skip(5), i - 5);
        assert(buttons.skip(5)[i - 5] == buttons[i]);
        assert((i - 5) / 5 == i / 5 - 1 && (i - 5) % 5 == i % 5);
        assert(in_fives(buttons)[i / 5] == in_fives(buttons.skip(5))[i / 5 - 1]);
    } else {
        assert(i / 5 == 0 && i % 5 == i);
    }
}

/// A run that ended says so in grey, with who led it and where it was, who brought what,
/// who joined, and its loot; items that nobody brought are left out.
pub proof fn ended_runs_say_who_brought_what(
    run: Run,
    t: DungeonTemplate,
    reactions: Seq<DungeonReaction>,
    ps: Seq<Participant>,
    map: Map<Seq<char>, BotEmoji>,
    tiers: Seq<BagTier>,
    threshold: Seq<char>,
)
    ensures
        ({
            let e = ended_run(run, t, reactions, ps, map, tiers, threshold);
            let brought = brought_fields(reactions, ps, map, reactions.len() as int);
            let leader = "**Leader:** <@"@ + dec(run.leader_user_id as int) + ">"@;
            &&& e.color == Some(0x808080u32)
            &&& e.description == Some(
                match run.location {
                    Some(l) => leader + "\n**Location:** `"@ + l@ + "`"@,
                    None => leader,
                },
            )
            &&& e.title == Some(
                behind(template_emoji(t, map), title_of(t, " Run"@) + " — ended"@),
            )
            &&& e.fields.len() >= brought.len() + 1
            &&& e.fields.take(brought.len() as int) == brought
            &&& e.fields[brought.len() as int] == joined_field(ps)
        }),
        forall|n: int| #![trigger brought_fields(reactions, ps, map, n)]
            0 < n <= reactions.len() ==> {
                let who = bringers(ps, reactions[n - 1].id, ps.len() as int);
                let before = brought_fields(reactions, ps, map, n - 1);
                &&& who.len() == 0 ==> brought_fields(reactions, ps, map, n) == before
                &&& who.len() > 0 ==> brought_fields(reactions, ps, map, n).len() == before.len() + 1
                    && brought_fields(reactions, ps, map, n).last().value == joined(who, "\n"@)
            },
{
    let e = ended_run(run, t, reactions, ps, map, tiers, threshold);
    let brought = brought_fields(reactions, ps, map, reactions.len() as int);
    assert(e.fields.take(brought.len() as int) =~= brought);
}

/// The panel's buttons set the location and the party, pass the leadership on, and end
/// the run.
pub proof fn panels_have_four_buttons(run: Run)
    ensures
        ({
            let rows = control_panel_screen(run).rows;
            let id = dec(run.id as int);
            &&& rows.len() == 2
            &&& rows[0] matches RowView::Buttons(b) && b.len() == 2 && b[0].custom_id == "run:"@ + id
                + ":loc"@ && b[1].custom_id == "run:"@ + id + ":party"@
            &&& rows[1] matches RowView::Buttons(c) && c.len() == 2 && c[0].custom_id == "run:"@ + id
                + ":transfer"@ && c[1].custom_id == "run:"@ + id + ":end"@
        }),
{
}

/// The items of a run stand side by side.
pub proof fn items_stand_side_by_side(
    reactions: Seq<DungeonReaction>,
    participants: Seq<Participant>,
    map: Map<Seq<char>, BotEmoji>,
    i: int,
)
    requires
        0 <= i < reactions.len(),
    ensures
        reaction_fields(reactions, participants, map)[i].inline,
{
}

} // verus!
