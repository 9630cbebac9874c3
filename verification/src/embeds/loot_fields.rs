//! The loot of a dungeon, grouped by the bags that it drops in.

use vstd::prelude::*;
use vstd::string::StrSliceExecFns;

use crate::db::loot::{bag_markup, emoji_markup, resolve_bag_emoji, show_emoji};
use crate::db::models::{BagTier, BotEmoji};
use crate::name_map::NameMap;
use crate::text::{cat2, cat3, join, joined, opt_view, own, same, views, views_push};
use crate::ui::{field_views, field_views_push, Field, FieldView};
use crate::unicode::{to_upper, uppercase};

verus! {

/// Render an uploaded emoji.
pub fn render_bot_emoji(e: &BotEmoji) -> (r: String)
    ensures
        r@ == emoji_markup(*e),
{
    show_emoji(e)
}

/// A name with its first character in upper case.
pub open spec fn capitalized(name: Seq<char>) -> Seq<char> {
    if name.len() == 0 {
        Seq::empty()
    } else {
        uppercase(name[0]) + name.skip(1)
    }
}

/// A name with its first character in upper case.
pub fn tier_display_name(name: &str) -> (r: String)
    ensures
        r@ == capitalized(name@),
{
    let n: usize = name.unicode_len();
    if n == 0 {
        String::new()
    } else {
        let rest = name.substring_char(1, n);
        assert(rest@ =~= name@.skip(1));
        cat2(&to_upper(name.get_char(0)), rest)
    }
}

/// How the bags of a tier are called. Shinies do not drop in a bag.
pub open spec fn field_label(name: Seq<char>) -> Seq<char> {
    if name == "shiny"@ {
        "Shinies"@
    } else {
        capitalized(name) + " Bags"@
    }
}

/// How the bags of a tier are called.
pub fn tier_field_label(name: &str) -> (r: String)
    ensures
        r@ == field_label(name@),
{
    if same(name, "shiny") {
        own("Shinies")
    } else {
        cat2(&tier_display_name(name), " Bags")
    }
}

// ----- the tiers, from the most valuable down ---------------------------------------------

/// Tier `a` comes before tier `b`: it is more valuable, or of the same value and
/// listed earlier.
pub open spec fn comes_before(tiers: Seq<BagTier>, a: int, b: int) -> bool {
    tiers[a].sort_order > tiers[b].sort_order || (tiers[a].sort_order == tiers[b].sort_order && a
        < b)
}

/// How many of the positions come before tier `t`.
pub open spec fn place(tiers: Seq<BagTier>, order: Seq<int>, t: int) -> int
    decreases order.len(),
{
    if order.len() == 0 {
        0
    } else if comes_before(tiers, order.last(), t) {
        order.len() as int
    } else {
        place(tiers, order.drop_last(), t)
    }
}

/// The positions of the first `n` tiers, from the most valuable down.
pub open spec fn value_order(tiers: Seq<BagTier>, n: int) -> Seq<int>
    decreases n,
{
    if n <= 0 {
        Seq::empty()
    } else {
        let before = value_order(tiers, n - 1);
        before.insert(place(tiers, before, n - 1), n - 1)
    }
}

proof fn place_is_inside(tiers: Seq<BagTier>, order: Seq<int>, t: int)
    ensures
        0 <= place(tiers, order, t) <= order.len(),
        forall|k: int|
            place(tiers, order, t) <= k < order.len() ==> !comes_before(
                tiers,
                #[trigger] order[k],
                t,
            ),
        place(tiers, order, t) > 0 ==> comes_before(tiers, order[place(tiers, order, t) - 1], t),
    decreases order.len(),
{
    if order.len() > 0 && !comes_before(tiers, order.last(), t) {
        place_is_inside(tiers, order.drop_last(), t);
        let p = place(tiers, order, t);
        assert forall|k: int| p <= k < order.len() implies !comes_before(
            tiers,
            #[trigger] order[k],
            t,
        ) by {
            if k < order.len() - 1 {
                assert(order.drop_last()[k] == order[k]);
            }
        }
    }
}

/// The order lists each of the first `n` tiers once, from the most valuable down;
/// tiers of one value keep the order in which they are listed.
pub proof fn value_order_is_sorted(tiers: Seq<BagTier>, n: int)
    requires
        0 <= n <= tiers.len(),
    ensures
        value_order(tiers, n).len() == n,
        forall|k: int| 0 <= k < n ==> 0 <= #[trigger] value_order(tiers, n)[k] < n,
        forall|t: int| 0 <= t < n ==> #[trigger] value_order(tiers, n).contains(t),
        forall|a: int, b: int|
            0 <= a < b < n ==> comes_before(
                tiers,
                #[trigger] value_order(tiers, n)[a],
                #[trigger] value_order(tiers, n)[b],
            ),
    decreases n,
{
    if n > 0 {
        value_order_is_sorted(tiers, n - 1);
        let before = value_order(tiers, n - 1);
        let t = n - 1;
        let p = place(tiers, before, t);
        place_is_inside(tiers, before, t);
        let all = value_order(tiers, n);
        assert(all == before.insert(p, t));
        assert forall|k: int| 0 <= k < n implies 0 <= #[trigger] all[k] < n by {
            if k < p {
                assert(all[k] == before[k]);
            } else if k > p {
                assert(all[k] == before[k - 1]);
            }
        }
        assert forall|x: int| 0 <= x < n implies #[trigger] all.contains(x) by {
            if x == t {
                assert(all[p] == t);
            } else {
                assert(before.contains(x));
                let k = choose|k: int| 0 <= k < before.len() && before[k] == x;
                if k < p {
                    assert(all[k] == x);
                } else {
                    assert(all[k + 1] == x);
                }
            }
        }
        assert forall|a: int, b: int| 0 <= a < b < n implies comes_before(
            tiers,
            #[trigger] all[a],
            #[trigger] all[b],
        ) by {
            if b < p {
                assert(all[a] == before[a] && all[b] == before[b]);
            } else if b == p {
                assert(all[a] == before[a] && all[b] == t);
                if a < p - 1 {
                    assert(comes_before(tiers, before[a], before[p - 1]));
                }
            } else if a == p {
                assert(all[b] == before[b - 1]);
                assert(!comes_before(tiers, before[b - 1], t));
            } else if a < p {
                assert(all[a] == before[a] && all[b] == before[b - 1]);
            } else {
                assert(all[a] == before[a - 1] && all[b] == before[b - 1]);
            }
        }
    }
}

fn by_value(tiers: &Vec<BagTier>) -> (r: Vec<usize>)
    ensures
        r@.map_values(|i: usize| i as int) == value_order(tiers@, tiers@.len() as int),
        forall|k: int| 0 <= k < r@.len() ==> (#[trigger] r@[k]) < tiers@.len(),
{
    let mut order: Vec<usize> = Vec::new();
    let mut t: usize = 0;
    assert(order@.map_values(|i: usize| i as int) =~= Seq::<int>::empty());
    while t < tiers.len()
        invariant
            t <= tiers@.len(),
            order@.map_values(|i: usize| i as int) == value_order(tiers@, t as int),
            forall|k: int| 0 <= k < order@.len() ==> (#[trigger] order@[k]) < t,
        decreases tiers@.len() - t,
    {
        let ghost ov = order@.map_values(|i: usize| i as int);
        let mut p: usize = order.len();
        assert(ov.take(p as int) =~= ov);
        while p > 0 && tiers[order[p - 1]].sort_order < tiers[t].sort_order
            invariant
                p <= order@.len(),
                t < tiers@.len(),
                ov == order@.map_values(|i: usize| i as int),
                forall|k: int| 0 <= k < order@.len() ==> (#[trigger] order@[k]) < t,
                place(tiers@, ov, t as int) == place(tiers@, ov.take(p as int), t as int),
            decreases p,
        {
            assert(ov.take(p as int).drop_last() =~= ov.take(p - 1));
            assert(ov.take(p as int).last() == order@[p - 1]);
            p = p - 1;
        }
        proof {
            if p > 0 {
                assert(ov.take(p as int).last() == order@[p - 1]);
                assert(comes_before(tiers@, order@[p - 1] as int, t as int));
            }
            assert(place(tiers@, ov, t as int) == p);
        }
        let ghost old_order = order@;
        order.insert(p, t);
        proof {
            assert(order@.map_values(|i: usize| i as int) =~= ov.insert(p as int, t as int));
            assert forall|k: int| 0 <= k < order@.len() implies (#[trigger] order@[k]) < t + 1 by {
                if k < p {
                    assert(order@[k] == old_order[k]);
                } else if k > p {
                    assert(order@[k] == old_order[k - 1]);
                }
            }
        }
        t = t + 1;
    }
    order
}

// ----- the fields ----------------------------------------------------------------------

/// A drop is known and falls in bags of a tier.
pub open spec fn falls_in(
    emoji_map: Map<Seq<char>, BotEmoji>,
    logical: Seq<char>,
    tier: Seq<char>,
) -> bool {
    emoji_map.contains_key(logical) && opt_view(emoji_map[logical].bag_tier) == Some(tier)
}

/// The emojis of those of the first `n` drops that fall in bags of a tier.
pub open spec fn tier_drops(
    showcase: Seq<Seq<char>>,
    emoji_map: Map<Seq<char>, BotEmoji>,
    tier: Seq<char>,
    n: int,
) -> Seq<Seq<char>>
    decreases n,
{
    if n <= 0 {
        Seq::empty()
    } else {
        let before = tier_drops(showcase, emoji_map, tier, n - 1);
        if falls_in(emoji_map, showcase[n - 1], tier) {
            before.push(emoji_markup(emoji_map[showcase[n - 1]]))
        } else {
            before
        }
    }
}

/// A tier is valuable enough to be shown.
pub open spec fn is_shown(tier: BagTier, min: Option<int>) -> bool {
    match min {
        Some(m) => tier.sort_order >= m,
        None => true,
    }
}

/// The field of a tier, where the dungeon drops anything in its bags.
pub open spec fn tier_field(
    showcase: Seq<Seq<char>>,
    emoji_map: Map<Seq<char>, BotEmoji>,
    tier: BagTier,
) -> Option<FieldView> {
    let drops = tier_drops(showcase, emoji_map, tier.name@, showcase.len() as int);
    if drops.len() == 0 {
        None
    } else {
        Some(
            FieldView {
                name: bag_markup(tier, emoji_map) + " "@ + field_label(tier.name@),
                value: joined(drops, " "@),
                inline: false,
            },
        )
    }
}

/// The fields of the tiers at the first `n` places of an order.
pub open spec fn ordered_fields(
    showcase: Seq<Seq<char>>,
    emoji_map: Map<Seq<char>, BotEmoji>,
    tiers: Seq<BagTier>,
    order: Seq<int>,
    min: Option<int>,
    n: int,
) -> Seq<FieldView>
    decreases n,
{
    if n <= 0 {
        Seq::empty()
    } else {
        let before = ordered_fields(showcase, emoji_map, tiers, order, min, n - 1);
        let tier = tiers[order[n - 1]];
        match (is_shown(tier, min), tier_field(showcase, emoji_map, tier)) {
            (true, Some(f)) => before.push(f),
            _ => before,
        }
    }
}

/// The loot of a dungeon: a field for each tier that is valuable enough and that
/// something drops in, from the most valuable down.
pub open spec fn loot_fields(
    showcase: Seq<Seq<char>>,
    emoji_map: Map<Seq<char>, BotEmoji>,
    tiers: Seq<BagTier>,
    min: Option<int>,
) -> Seq<FieldView> {
    ordered_fields(
        showcase,
        emoji_map,
        tiers,
        value_order(tiers, tiers.len() as int),
        min,
        tiers.len() as int,
    )
}

fn drops_of_tier(showcase: &Vec<String>, emoji_map: &NameMap<BotEmoji>, tier: &str) -> (r: Vec<
    String,
>)
    ensures
        views(r@) == tier_drops(views(showcase@), emoji_map@, tier@, showcase@.len() as int),
{
    broadcast use views_push;

    let mut out: Vec<String> = Vec::new();
    let mut i: usize = 0;
    assert(views(out@) =~= Seq::<Seq<char>>::empty());
    while i < showcase.len()
        invariant
            i <= showcase@.len(),
            views(out@) == tier_drops(views(showcase@), emoji_map@, tier@, i as int),
        decreases showcase@.len() - i,
    {
        broadcast use views_push;

        assert(views(showcase@)[i as int] == showcase@[i as int]@);
        if let Some(e) = emoji_map.get(&showcase[i]) {
            if let Some(t) = &e.bag_tier {
                if same(t, tier) {
                    out.push(render_bot_emoji(e));
                }
            }
        }
        i = i + 1;
    }
    out
}

fn build_loot_fields_from(
    showcase_emoji: &Vec<String>,
    emoji_map: &NameMap<BotEmoji>,
    bag_tiers: &Vec<BagTier>,
    threshold_order: Option<i32>,
) -> (r: Vec<Field>)
    ensures
        field_views(r@) == loot_fields(
            views(showcase_emoji@),
            emoji_map@,
            bag_tiers@,
            match threshold_order {
                Some(m) => Some(m as int),
                None => None,
            },
        ),
{
    let ghost min: Option<int> = match threshold_order {
        Some(m) => Some(m as int),
        None => None,
    };
    let order = by_value(bag_tiers);
    let ghost ov = value_order(bag_tiers@, bag_tiers@.len() as int);
    proof {
        value_order_is_sorted(bag_tiers@, bag_tiers@.len() as int);
        assert(ov.len() == order@.len());
    }
    let mut fields: Vec<Field> = Vec::new();
    let mut i: usize = 0;
    assert(field_views(fields@) =~= Seq::<FieldView>::empty());
    while i < order.len()
        invariant
            i <= order@.len(),
            order@.len() == bag_tiers@.len(),
            ov == order@.map_values(|i: usize| i as int),
            forall|k: int| 0 <= k < order@.len() ==> (#[trigger] order@[k]) < bag_tiers@.len(),
            min == (match threshold_order {
                Some(m) => Some(m as int),
                None => None,
            }),
            field_views(fields@) == ordered_fields(
                views(showcase_emoji@),
                emoji_map@,
                bag_tiers@,
                ov,
                min,
                i as int,
            ),
        decreases order@.len() - i,
    {
        broadcast use field_views_push;

        let tier = &bag_tiers[order[i]];
        assert(ov[i as int] == order@[i as int]);
        let shown = match threshold_order {
            Some(m) => tier.sort_order >= m,
            None => true,
        };
        if shown {
            let drops = drops_of_tier(showcase_emoji, emoji_map, &tier.name);
            assert(views(drops@).len() == drops@.len());
            if drops.len() > 0 {
                let name = cat3(
                    &resolve_bag_emoji(tier, emoji_map),
                    " ",
                    &tier_field_label(&tier.name),
                );
                fields.push(Field { name, value: join(&drops, " "), inline: false });
            }
        }
        i = i + 1;
    }
    fields
}

/// The value of the tier with a name; of several with one name, of the first.
pub open spec fn tier_value(tiers: Seq<BagTier>, name: Seq<char>, from: int) -> Option<int>
    decreases tiers.len() - from,
{
    if from < 0 || from >= tiers.len() {
        None
    } else if tiers[from].name@ == name {
        Some(tiers[from].sort_order as int)
    } else {
        tier_value(tiers, name, from + 1)
    }
}

/// Build embed fields for a dungeon's loot, grouped by bag tier, from the most
/// valuable tier down to the threshold. A threshold that names no tier shows
/// nothing. Drops whose bag is not known are left out.
pub fn build_loot_fields(
    showcase_emoji: &Vec<String>,
    emoji_map: &NameMap<BotEmoji>,
    bag_tiers: &Vec<BagTier>,
    threshold_tier_name: &str,
) -> (r: Vec<Field>)
    ensures
        field_views(r@) == (match tier_value(bag_tiers@, threshold_tier_name@, 0) {
            Some(min) => loot_fields(
                views(showcase_emoji@),
                emoji_map@,
                bag_tiers@,
                Some(min),
            ),
            None => Seq::<FieldView>::empty(),
        }),
{
    let mut i: usize = 0;
    while i < bag_tiers.len()
        invariant
            i <= bag_tiers@.len(),
            tier_value(bag_tiers@, threshold_tier_name@, 0) == tier_value(
                bag_tiers@,
                threshold_tier_name@,
                i as int,
            ),
        decreases bag_tiers@.len() - i,
    {
        if same(&bag_tiers[i].name, threshold_tier_name) {
            return build_loot_fields_from(
                showcase_emoji,
                emoji_map,
                bag_tiers,
                Some(bag_tiers[i].sort_order),
            );
        }
        i = i + 1;
    }
    let none: Vec<Field> = Vec::new();
    assert(field_views(none@) =~= Seq::<FieldView>::empty());
    none
}

/// Build embed fields for all of a dungeon's loot, grouped by bag tier, from the
/// most valuable tier down.
pub fn build_loot_fields_all(
    showcase_emoji: &Vec<String>,
    emoji_map: &NameMap<BotEmoji>,
    bag_tiers: &Vec<BagTier>,
) -> (r: Vec<Field>)
    ensures
        field_views(r@) == loot_fields(views(showcase_emoji@), emoji_map@, bag_tiers@, None),
{
    build_loot_fields_from(showcase_emoji, emoji_map, bag_tiers, None)
}

/// No more fields are shown than there are tiers.
pub proof fn loot_fields_are_bounded(
    showcase: Seq<Seq<char>>,
    emoji_map: Map<Seq<char>, BotEmoji>,
    tiers: Seq<BagTier>,
    order: Seq<int>,
    min: Option<int>,
    n: int,
)
    requires
        0 <= n,
    ensures
        ordered_fields(showcase, emoji_map, tiers, order, min, n).len() <= n,
    decreases n,
{
    if n > 0 {
        loot_fields_are_bounded(showcase, emoji_map, tiers, order, min, n - 1);
    }
}

/// A threshold is at most as high as another; without one everything is shown.
pub open spec fn at_most(low: Option<int>, high: Option<int>) -> bool {
    match (low, high) {
        (None, _) => true,
        (Some(a), Some(b)) => a <= b,
        (Some(_), None) => false,
    }
}

proof fn fields_are_cut_behind(
    showcase: Seq<Seq<char>>,
    emoji_map: Map<Seq<char>, BotEmoji>,
    tiers: Seq<BagTier>,
    low: Option<int>,
    high: Option<int>,
    n: int,
)
    requires
        at_most(low, high),
        0 <= n <= tiers.len(),
    ensures
        ({
            let order = value_order(tiers, tiers.len() as int);
            let less = ordered_fields(showcase, emoji_map, tiers, order, high, n);
            let more = ordered_fields(showcase, emoji_map, tiers, order, low, n);
            less.is_prefix_of(more) && (n > 0 && is_shown(tiers[order[n - 1]], high) ==> less == more)
        }),
    decreases n,
{
    if n > 0 {
        let order = value_order(tiers, tiers.len() as int);
        fields_are_cut_behind(showcase, emoji_map, tiers, low, high, n - 1);
        value_order_is_sorted(tiers, tiers.len() as int);
        if n > 1 {
            assert(comes_before(tiers, order[n - 2], order[n - 1]));
        }
        let less = ordered_fields(showcase, emoji_map, tiers, order, high, n - 1);
        let more = ordered_fields(showcase, emoji_map, tiers, order, low, n - 1);
        let all = ordered_fields(showcase, emoji_map, tiers, order, low, n);
        assert(less =~= more.subrange(0, less.len() as int));
        assert(all.len() >= more.len());
        assert(less =~= all.subrange(0, less.len() as int));
        if is_shown(tiers[order[n - 1]], high) {
            assert(less == more);
            let same = ordered_fields(showcase, emoji_map, tiers, order, high, n);
            assert(same =~= all);
            assert(all =~= all.subrange(0, all.len() as int));
        }
    }
}

/// A threshold only cuts off the end: what is shown with a higher one is the beginning
/// of what is shown with a lower one, or with none.
pub proof fn thresholds_cut_the_end(
    showcase: Seq<Seq<char>>,
    emoji_map: Map<Seq<char>, BotEmoji>,
    tiers: Seq<BagTier>,
    low: Option<int>,
    high: Option<int>,
)
    requires
        at_most(low, high),
    ensures
        loot_fields(showcase, emoji_map, tiers, high).is_prefix_of(
            loot_fields(showcase, emoji_map, tiers, low),
        ),
{
    fields_are_cut_behind(showcase, emoji_map, tiers, low, high, tiers.len() as int);
}

/// Every field that is shown is of a tier that is valuable enough.
pub proof fn loot_fields_meet_the_threshold(
    showcase: Seq<Seq<char>>,
    emoji_map: Map<Seq<char>, BotEmoji>,
    tiers: Seq<BagTier>,
    order: Seq<int>,
    min: Option<int>,
    n: int,
    f: FieldView,
)
    requires
        0 <= n,
        ordered_fields(showcase, emoji_map, tiers, order, min, n).contains(f),
    ensures
        exists|k: int|
            0 <= k < n && is_shown(tiers[#[trigger] order[k]], min) && tier_field(
                showcase,
                emoji_map,
                tiers[order[k]],
            ) == Some(f),
    decreases n,
{
    if n > 0 {
        let before = ordered_fields(showcase, emoji_map, tiers, order, min, n - 1);
        let all = ordered_fields(showcase, emoji_map, tiers, order, min, n);
        let i = choose|i: int| 0 <= i < all.len() && all[i] == f;
        if i < before.len() {
            assert(before[i] == f);
            loot_fields_meet_the_threshold(
                showcase,
                emoji_map,
                tiers,
                order,
                min,
                n - 1,
                f,
            );
        } else {
            assert(0 <= n - 1 < n && is_shown(tiers[order[n - 1]], min));
        }
    }
}

/// A drop is listed under a tier exactly where it is known and falls in bags of that
/// tier: each such drop with its emoji, in the order in which the dungeon shows them.
pub proof fn drops_are_listed_under_their_tier(
    showcase: Seq<Seq<char>>,
    map: Map<Seq<char>, BotEmoji>,
    tier: Seq<char>,
    n: int,
)
    requires
        0 <= n < showcase.len(),
    ensures
        tier_drops(showcase, map, tier, 0).len() == 0,
        ({
            let before = tier_drops(showcase, map, tier, n);
            let known = map.contains_key(showcase[n]) && map[showcase[n]].bag_tier is Some
                && map[showcase[n]].bag_tier->0@ == tier;
            &&& known ==> tier_drops(showcase, map, tier, n + 1) == before.push(
                emoji_markup(map[showcase[n]]),
            )
            &&& !known ==> tier_drops(showcase, map, tier, n + 1) == before
        }),
{
}

/// Every tier that is valuable enough and that something drops in has its field, with
/// its bag, its name and its drops.
pub proof fn no_tier_with_drops_is_left_out(
    showcase: Seq<Seq<char>>,
    map: Map<Seq<char>, BotEmoji>,
    tiers: Seq<BagTier>,
    min: Option<int>,
    t: int,
)
    requires
        0 <= t < tiers.len(),
        min matches Some(m) ==> tiers[t].sort_order >= m,
        tier_drops(showcase, map, tiers[t].name@, showcase.len() as int).len() > 0,
    ensures
        loot_fields(showcase, map, tiers, min).contains(
            FieldView {
                name: bag_markup(tiers[t], map) + " "@ + (if tiers[t].name@ == "shiny"@ {
                    "Shinies"@
                } else {
                    capitalized(tiers[t].name@) + " Bags"@
                }),
                value: joined(
                    tier_drops(showcase, map, tiers[t].name@, showcase.len() as int),
                    " "@,
                ),
                inline: false,
            },
        ),
{
    let order = value_order(tiers, tiers.len() as int);
    value_order_is_sorted(tiers, tiers.len() as int);
    assert(order.contains(t));
    let k = choose|k: int| 0 <= k < order.len() && order[k] == t;
    ordered_fields_hold(showcase, map, tiers, order, min, tiers.len() as int, k);
}

proof fn ordered_fields_hold(
    showcase: Seq<Seq<char>>,
    map: Map<Seq<char>, BotEmoji>,
    tiers: Seq<BagTier>,
    order: Seq<int>,
    min: Option<int>,
    n: int,
    k: int,
)
    requires
        0 <= k < n,
        is_shown(tiers[order[k]], min),
        tier_field(showcase, map, tiers[order[k]]) is Some,
    ensures
        ordered_fields(showcase, map, tiers, order, min, n).contains(
            tier_field(showcase, map, tiers[order[k]])->0,
        ),
    decreases n,
{
    let all = ordered_fields(showcase, map, tiers, order, min, n);
    let f = tier_field(showcase, map, tiers[order[k]])->0;
    if k < n - 1 {
        ordered_fields_hold(showcase, map, tiers, order, min, n - 1, k);
        let before = ordered_fields(showcase, map, tiers, order, min, n - 1);
        let i = choose|i: int| 0 <= i < before.len() && before[i] == f;
        assert(all[i] == f);
    } else {
        assert(all.last() == f);
    }
}

/// The value of a tier is that of the first tier with its name, and there is none where
/// no tier has it.
pub proof fn thresholds_are_found_by_name(tiers: Seq<BagTier>, name: Seq<char>, from: int, i: int)
    requires
        0 <= from <= i <= tiers.len(),
        forall|k: int| from <= k < i ==> (#[trigger] tiers[k]).name@ != name,
    ensures
        i == tiers.len() ==> tier_value(tiers, name, from) is None,
        i < tiers.len() && tiers[i].name@ == name ==> tier_value(tiers, name, from) == Some(
            tiers[i].sort_order as int,
        ),
    decreases i - from,
{
    if from < i {
        thresholds_are_found_by_name(tiers, name, from + 1, i);
    }
}

} // verus!
