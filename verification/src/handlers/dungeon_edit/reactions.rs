//! What the menus of the editor change: the reactions of a dungeon and the tiers
//! in which it can be raided.

use vstd::prelude::*;
use vstd::seq_lib::seq_to_set_is_finite;
use vstd::set_lib::{lemma_len_subset, lemma_len_union};

use crate::db::models::{BotEmoji, DungeonReaction, DungeonTemplate, Tier};
use crate::handlers::dungeon_edit::view::{
    has_reaction, holds, reaction_named, snake_to_title, title_of_snake,
};
use crate::handlers::routing::piece_number;
use crate::limits::REACTIONS_PER_TEMPLATE;
use crate::text::{
    cat7, contains, dec, dec_usize, int_value, occurs, own, parse_i32, same, views, views_push,
};

verus! {

/// What is said of an editor whose dungeon all servers share.
pub const STALE_EDITOR: &'static str =
    "This ephemeral is stale — re-run `/dungeon edit` to fork the global.";

// ----- what a selection changes ------------------------------------------------------------

/// A reaction that a dungeon gets.
#[derive(Debug)]
pub struct NewReaction {
    /// Name, which is also the logical name of its emoji.
    pub name: String,
    /// Name as shown.
    pub display_name: String,
    /// How many of it a run needs.
    pub num_required: i32,
    /// Place among the dungeon's reactions.
    pub sort_order: i32,
}

/// What a reaction that a dungeon gets is.
pub ghost struct NewReactionView {
    pub name: Seq<char>,
    pub display_name: Seq<char>,
    pub num_required: int,
    pub sort_order: int,
}

impl View for NewReaction {
    type V = NewReactionView;

    open spec fn view(&self) -> NewReactionView {
        NewReactionView {
            name: self.name@,
            display_name: self.display_name@,
            num_required: self.num_required as int,
            sort_order: self.sort_order as int,
        }
    }
}

/// The views of a list of reactions.
pub open spec fn new_views(v: Seq<NewReaction>) -> Seq<NewReactionView> {
    Seq::new(v.len(), |i: int| v[i]@)
}

/// What a selection changes.
#[derive(Debug)]
pub struct ReactionPlan {
    /// Names of the reactions that go.
    pub removed: Vec<String>,
    /// Reactions that come.
    pub added: Vec<NewReaction>,
}

/// The names of the emojis of a category.
pub open spec fn emoji_names(emojis: Seq<BotEmoji>) -> Seq<Seq<char>> {
    Seq::new(emojis.len(), |i: int| emojis[i].logical_name@)
}

/// The names of those of the first `n` reactions that are not of the category.
pub open spec fn outside_names(
    current: Seq<DungeonReaction>,
    category: Seq<Seq<char>>,
    n: int,
) -> Seq<Seq<char>>
    decreases n,
{
    if n <= 0 || n > current.len() {
        Seq::empty()
    } else {
        let before = outside_names(current, category, n - 1);
        if category.contains(current[n - 1].name@) {
            before
        } else {
            before.push(current[n - 1].name@)
        }
    }
}

/// How many reactions a dungeon can have after a selection: those of other
/// categories, and each that is selected.
pub open spec fn prospective_total(
    current: Seq<DungeonReaction>,
    category: Seq<Seq<char>>,
    values: Seq<Seq<char>>,
) -> nat {
    outside_names(current, category, current.len() as int).len() + values.to_set().len()
}

/// The names of those of the first `n` reactions that go: they are of the category
/// and not selected.
pub open spec fn removed_names(
    current: Seq<DungeonReaction>,
    category: Seq<Seq<char>>,
    values: Seq<Seq<char>>,
    n: int,
) -> Seq<Seq<char>>
    decreases n,
{
    if n <= 0 || n > current.len() {
        Seq::empty()
    } else {
        let before = removed_names(current, category, values, n - 1);
        let name = current[n - 1].name@;
        if category.contains(name) && !values.contains(name) {
            before.push(name)
        } else {
            before
        }
    }
}

/// The largest place of the first `n` reactions.
pub open spec fn top_sort(current: Seq<DungeonReaction>, n: int) -> int
    decreases n,
{
    if n <= 0 || n > current.len() {
        0
    } else if n == 1 {
        current[0].sort_order as int
    } else {
        let before = top_sort(current, n - 1);
        if current[n - 1].sort_order > before {
            current[n - 1].sort_order as int
        } else {
            before
        }
    }
}

/// The reactions that come for the first `n` values: those that the dungeon does
/// not have, each behind the last place, and a key without being needed.
pub open spec fn added_reactions(
    current: Seq<DungeonReaction>,
    values: Seq<Seq<char>>,
    n: int,
) -> Seq<NewReactionView>
    decreases n,
{
    if n <= 0 || n > values.len() {
        Seq::empty()
    } else {
        let before = added_reactions(current, values, n - 1);
        let v = values[n - 1];
        if reaction_named(current, v) {
            before
        } else {
            before.push(
                NewReactionView {
                    name: v,
                    display_name: title_of_snake(v),
                    num_required: if occurs(v, "key"@) {
                        0
                    } else {
                        1
                    },
                    sort_order: top_sort(current, current.len() as int) + 1 + before.len(),
                },
            )
        }
    }
}

/// There are places left behind the reactions for those that come.
pub open spec fn sort_room(current: Seq<DungeonReaction>, values: Seq<Seq<char>>) -> bool {
    top_sort(current, current.len() as int) + added_reactions(
        current,
        values,
        values.len() as int,
    ).len() <= i32::MAX
}

proof fn more_values_add_more(
    current: Seq<DungeonReaction>,
    values: Seq<Seq<char>>,
    n: int,
    m: int,
)
    requires
        0 <= n <= m <= values.len(),
    ensures
        added_reactions(current, values, n).len() <= added_reactions(current, values, m).len(),
        added_reactions(current, values, n).len() <= n,
    decreases m,
{
    if n < m {
        more_values_add_more(current, values, n, m - 1);
    } else if n > 0 {
        more_values_add_more(current, values, n - 1, n - 1);
    }
}

fn find_top_sort(current: &Vec<DungeonReaction>) -> (r: i32)
    ensures
        r == top_sort(current@, current@.len() as int),
{
    if current.len() == 0 {
        return 0;
    }
    let mut top: i32 = current[0].sort_order;
    let mut i: usize = 1;
    while i < current.len()
        invariant
            1 <= i <= current@.len(),
            top == top_sort(current@, i as int),
        decreases current@.len() - i,
    {
        if current[i].sort_order > top {
            top = current[i].sort_order;
        }
        i = i + 1;
    }
    top
}

/// Whether there are places left behind the reactions for those that come.
pub fn sort_orders_fit(current: &Vec<DungeonReaction>, values: &Vec<String>) -> (r: bool)
    ensures
        r == sort_room(current@, views(values@)),
{
    let top: i32 = find_top_sort(current);
    let ghost vs = views(values@);
    let mut added: usize = 0;
    let mut i: usize = 0;
    while i < values.len()
        invariant
            i <= values@.len(),
            added <= i,
            vs == views(values@),
            added == added_reactions(current@, vs, i as int).len(),
        decreases values@.len() - i,
    {
        assert(vs[i as int] == values@[i as int]@);
        if !has_reaction(current, &values[i]) {
            added = added + 1;
        }
        i = i + 1;
    }
    if added > 0xFFFF_FFFF {
        return false;
    }
    top as i64 + added as i64 <= i32::MAX as i64
}

fn emoji_named(emojis: &Vec<BotEmoji>, name: &str) -> (r: bool)
    ensures
        r == emoji_names(emojis@).contains(name@),
{
    let mut i: usize = 0;
    while i < emojis.len()
        invariant
            i <= emojis@.len(),
            forall|k: int| 0 <= k < i ==> emoji_names(emojis@)[k] != name@,
        decreases emojis@.len() - i,
    {
        if same(&emojis[i].logical_name, name) {
            assert(emoji_names(emojis@)[i as int] == name@);
            return true;
        }
        i = i + 1;
    }
    false
}

/// Whether one of the first `n` texts is `name`.
fn among(values: &Vec<String>, name: &str, n: usize) -> (r: bool)
    requires
        n <= values@.len(),
    ensures
        r == views(values@).take(n as int).contains(name@),
{
    let ghost vs = views(values@).take(n as int);
    let mut i: usize = 0;
    while i < n
        invariant
            i <= n <= values@.len(),
            vs == views(values@).take(n as int),
            forall|k: int| 0 <= k < i ==> vs[k] != name@,
        decreases n - i,
    {
        if same(&values[i], name) {
            assert(vs[i as int] == name@);
            return true;
        }
        i = i + 1;
    }
    false
}

/// How many different texts there are.
fn count_distinct(values: &Vec<String>) -> (r: usize)
    ensures
        r == views(values@).to_set().len(),
        r <= values@.len(),
{
    let ghost all = views(values@);
    let mut n: usize = 0;
    let mut i: usize = 0;
    proof {
        assert(all.take(0) =~= Seq::empty());
        all.take(0).lemma_cardinality_of_set();
    }
    while i < values.len()
        invariant
            i <= values@.len(),
            n <= i,
            all == views(values@),
            n == all.take(i as int).to_set().len(),
        decreases values@.len() - i,
    {
        broadcast use seq_to_set_is_finite;

        let seen = among(values, &values[i], i);
        proof {
            let before = all.take(i as int);
            let v = all[i as int];
            assert(all.take(i + 1) =~= before.push(v));
            before.lemma_push_to_set_commute(v);
            assert(before.to_set().contains(v) == before.contains(v));
            if seen {
                assert(before.to_set().insert(v) =~= before.to_set());
            }
        }
        if !seen {
            n = n + 1;
        }
        i = i + 1;
    }
    assert(all.take(i as int) =~= all);
    n
}

fn count_outside(current: &Vec<DungeonReaction>, emojis: &Vec<BotEmoji>) -> (r: usize)
    ensures
        r == outside_names(current@, emoji_names(emojis@), current@.len() as int).len(),
        r <= current@.len(),
{
    let mut n: usize = 0;
    let mut i: usize = 0;
    while i < current.len()
        invariant
            i <= current@.len(),
            n <= i,
            n == outside_names(current@, emoji_names(emojis@), i as int).len(),
        decreases current@.len() - i,
    {
        if !emoji_named(emojis, &current[i].name) {
            n = n + 1;
        }
        i = i + 1;
    }
    n
}

fn list_removed(current: &Vec<DungeonReaction>, emojis: &Vec<BotEmoji>, values: &Vec<String>) -> (r:
    Vec<String>)
    ensures
        views(r@) == removed_names(
            current@,
            emoji_names(emojis@),
            views(values@),
            current@.len() as int,
        ),
{
    let mut out: Vec<String> = Vec::new();
    let mut i: usize = 0;
    assert(views(out@) =~= Seq::empty());
    while i < current.len()
        invariant
            i <= current@.len(),
            views(out@) == removed_names(
                current@,
                emoji_names(emojis@),
                views(values@),
                i as int,
            ),
        decreases current@.len() - i,
    {
        broadcast use views_push;

        let name = &current[i].name;
        let ghost all = views(values@);
        assert(all.take(all.len() as int) =~= all);
        if emoji_named(emojis, name) && !among(values, name, values.len()) {
            out.push(own(name));
        }
        i = i + 1;
    }
    out
}

fn list_added(current: &Vec<DungeonReaction>, values: &Vec<String>) -> (r: Vec<NewReaction>)
    requires
        sort_room(current@, views(values@)),
    ensures
        new_views(r@) == added_reactions(current@, views(values@), values@.len() as int),
{
    let top: i32 = find_top_sort(current);
    let mut out: Vec<NewReaction> = Vec::new();
    let mut i: usize = 0;
    let n: usize = values.len();
    assert(new_views(out@) =~= Seq::empty());
    while i < n
        invariant
            i <= n == values@.len(),
            out@.len() <= i,
            top == top_sort(current@, current@.len() as int),
            sort_room(current@, views(values@)),
            new_views(out@) == added_reactions(current@, views(values@), i as int),
        decreases n - i,
    {
        let ghost vs = views(values@);
        let v = &values[i];
        assert(vs[i as int] == v@);
        assert(new_views(out@).len() == out@.len());
        if !has_reaction(current, v) {
            let k: usize = out.len();
            let num_required: i32 = if contains(v, "key") {
                0
            } else {
                1
            };
            proof {
                more_values_add_more(current@, vs, i + 1, vs.len() as int);
            }
            let place: i64 = top as i64 + 1 + k as i64;
            let ghost before = out@;
            let fresh = NewReaction {
                name: own(v),
                display_name: snake_to_title(v),
                num_required,
                sort_order: place as i32,
            };
            out.push(fresh);
            assert(new_views(out@) =~= new_views(before).push(fresh@));
        }
        i = i + 1;
    }
    out
}

// ----- the menu of reactions ---------------------------------------------------------------

/// What is known so far of a selection of reactions. What is not known is `None`.
pub struct ReactionsFacts {
    /// The dungeon, or that there is none.
    pub template: Option<Option<DungeonTemplate>>,
    /// Its reactions, and the emojis of the category.
    pub rows: Option<(Vec<DungeonReaction>, Vec<BotEmoji>)>,
    /// What was selected.
    pub values: Vec<String>,
}

/// What to do about a selection of reactions.
#[derive(Debug)]
pub enum ReactionsStep {
    /// Look up the dungeon.
    LoadTemplate,
    /// Look up its reactions and the emojis of the category.
    LoadRows,
    /// Do nothing.
    Nothing,
    /// Say this, and do nothing.
    Refuse(String),
    /// Change this, and show the editor.
    Apply(ReactionPlan),
}

/// What to do about a selection of reactions, over views: what goes, and what
/// comes.
pub ghost enum ReactionsStepView {
    LoadTemplate,
    LoadRows,
    Nothing,
    Refuse(Seq<char>),
    Apply(Seq<Seq<char>>, Seq<NewReactionView>),
}

impl View for ReactionsStep {
    type V = ReactionsStepView;

    open spec fn view(&self) -> ReactionsStepView {
        match self {
            ReactionsStep::LoadTemplate => ReactionsStepView::LoadTemplate,
            ReactionsStep::LoadRows => ReactionsStepView::LoadRows,
            ReactionsStep::Nothing => ReactionsStepView::Nothing,
            ReactionsStep::Refuse(t) => ReactionsStepView::Refuse(t@),
            ReactionsStep::Apply(p) => ReactionsStepView::Apply(
                views(p.removed@),
                new_views(p.added@),
            ),
        }
    }
}

/// What is said where there would be too many reactions.
pub open spec fn too_many(category: Seq<char>, existing: nat) -> Seq<char> {
    "Too many reactions — `"@ + category + "` already has "@ + dec(existing as int)
        + " configured, and Discord caps each message at "@ + dec(REACTIONS_PER_TEMPLATE as int)
        + "."@
}

/// What to do about a selection of reactions: a dungeon that all servers share is
/// left alone, and so is one that would get too many.
pub open spec fn reactions_step_of(f: ReactionsFacts, category: Seq<char>) -> ReactionsStepView {
    match f.template {
        None => ReactionsStepView::LoadTemplate,
        Some(None) => ReactionsStepView::Nothing,
        Some(Some(t)) => if t.guild_id is None {
            ReactionsStepView::Refuse(STALE_EDITOR@)
        } else {
            match f.rows {
                None => ReactionsStepView::LoadRows,
                Some((current, emojis)) => {
                    let names = emoji_names(emojis@);
                    let values = views(f.values@);
                    if prospective_total(current@, names, values) > REACTIONS_PER_TEMPLATE {
                        ReactionsStepView::Refuse(too_many(category, current@.len()))
                    } else {
                        ReactionsStepView::Apply(
                            removed_names(current@, names, values, current@.len() as int),
                            added_reactions(current@, values, values.len() as int),
                        )
                    }
                },
            }
        },
    }
}

/// What to do next about a selection of reactions.
pub fn reactions_step(f: &ReactionsFacts, category: &str) -> (r: ReactionsStep)
    requires
        f.rows matches Some((current, _)) ==> sort_room(current@, views(f.values@)),
    ensures
        r@ == reactions_step_of(*f, category@),
{
    let t = match &f.template {
        None => {
            return ReactionsStep::LoadTemplate;
        },
        Some(None) => {
            return ReactionsStep::Nothing;
        },
        Some(Some(t)) => t,
    };
    if t.guild_id.is_none() {
        return ReactionsStep::Refuse(own(STALE_EDITOR));
    }
    match &f.rows {
        None => ReactionsStep::LoadRows,
        Some((current, emojis)) => {
            assert(views(f.values@).len() == f.values@.len());
            let outside: usize = count_outside(current, emojis);
            let chosen: usize = count_distinct(&f.values);
            if outside > REACTIONS_PER_TEMPLATE || chosen > REACTIONS_PER_TEMPLATE - outside {
                return ReactionsStep::Refuse(
                    cat7(
                        "Too many reactions — `",
                        category,
                        "` already has ",
                        &dec_usize(current.len()),
                        " configured, and Discord caps each message at ",
                        &dec_usize(REACTIONS_PER_TEMPLATE),
                        ".",
                    ),
                );
            }
            ReactionsStep::Apply(
                ReactionPlan {
                    removed: list_removed(current, emojis, &f.values),
                    added: list_added(current, &f.values),
                },
            )
        },
    }
}

/// The names of reactions that come.
pub open spec fn new_names(v: Seq<NewReactionView>) -> Seq<Seq<char>> {
    Seq::new(v.len(), |i: int| v[i].name)
}

/// A dungeon reacts with a name after a selection: it did and that did not go, or
/// it came.
pub open spec fn reacts_after(
    current: Seq<DungeonReaction>,
    removed: Seq<Seq<char>>,
    added: Seq<NewReactionView>,
    name: Seq<char>,
) -> bool {
    (reaction_named(current, name) && !removed.contains(name)) || new_names(added).contains(name)
}

proof fn removed_are(
    current: Seq<DungeonReaction>,
    category: Seq<Seq<char>>,
    values: Seq<Seq<char>>,
    n: int,
    name: Seq<char>,
)
    requires
        0 <= n <= current.len(),
    ensures
        removed_names(current, category, values, n).contains(name) == (reaction_named(
            current.take(n),
            name,
        ) && category.contains(name) && !values.contains(name)),
    decreases n,
{
    let now = removed_names(current, category, values, n);
    if n > 0 {
        removed_are(current, category, values, n - 1, name);
        let before = removed_names(current, category, values, n - 1);
        let last = current[n - 1].name@;
        let short = current.take(n - 1);
        let long = current.take(n);
        assert(long[n - 1].name@ == last);
        if reaction_named(short, name) {
            let k = choose|k: int| 0 <= k < short.len() && (#[trigger] short[k]).name@ == name;
            assert(long[k].name@ == name);
        }
        if reaction_named(long, name) {
            let k = choose|k: int| 0 <= k < long.len() && (#[trigger] long[k]).name@ == name;
            if k < n - 1 {
                assert(short[k].name@ == name);
            }
        }
        if category.contains(last) && !values.contains(last) {
            assert(now == before.push(last));
            assert(now[now.len() - 1] == last);
            if before.contains(name) {
                let k = choose|k: int| 0 <= k < before.len() && before[k] == name;
                assert(now[k] == name);
            }
            if now.contains(name) {
                let k = choose|k: int| 0 <= k < now.len() && now[k] == name;
                if k < before.len() {
                    assert(before[k] == name);
                }
            }
        }
    }
}

proof fn added_are(
    current: Seq<DungeonReaction>,
    values: Seq<Seq<char>>,
    n: int,
    name: Seq<char>,
)
    requires
        0 <= n <= values.len(),
    ensures
        new_names(added_reactions(current, values, n)).contains(name) == (values.take(n).contains(
            name,
        ) && !reaction_named(current, name)),
    decreases n,
{
    let now = new_names(added_reactions(current, values, n));
    if n > 0 {
        added_are(current, values, n - 1, name);
        let before = new_names(added_reactions(current, values, n - 1));
        let v = values[n - 1];
        assert(values.take(n) =~= values.take(n - 1).push(v));
        assert(values.take(n)[n - 1] == v);
        let short = values.take(n - 1);
        let long = values.take(n);
        if short.contains(name) {
            let k = choose|k: int| 0 <= k < short.len() && short[k] == name;
            assert(long[k] == name);
        }
        if long.contains(name) {
            let k = choose|k: int| 0 <= k < long.len() && long[k] == name;
            if k < n - 1 {
                assert(short[k] == name);
            }
        }
        if !reaction_named(current, v) {
            assert(now =~= before.push(v));
            assert(now[now.len() - 1] == v);
            if before.contains(name) {
                let k = choose|k: int| 0 <= k < before.len() && before[k] == name;
                assert(now[k] == name);
            }
            if now.contains(name) {
                let k = choose|k: int| 0 <= k < now.len() && now[k] == name;
                if k < before.len() {
                    assert(before[k] == name);
                }
            }
        }
    }
}

/// After a selection a dungeon reacts with just what is selected and with what it
/// had of other categories.
pub proof fn selections_are_taken_over(
    current: Seq<DungeonReaction>,
    category: Seq<Seq<char>>,
    values: Seq<Seq<char>>,
    name: Seq<char>,
)
    ensures
        reacts_after(
            current,
            removed_names(current, category, values, current.len() as int),
            added_reactions(current, values, values.len() as int),
            name,
        ) == (values.contains(name) || (reaction_named(current, name) && !category.contains(name))),
{
    removed_are(current, category, values, current.len() as int, name);
    added_are(current, values, values.len() as int, name);
    assert(current.take(current.len() as int) =~= current);
    assert(values.take(values.len() as int) =~= values);
}

proof fn outside_are(
    current: Seq<DungeonReaction>,
    category: Seq<Seq<char>>,
    n: int,
    k: int,
)
    requires
        0 <= k < n <= current.len(),
        !category.contains(current[k].name@),
    ensures
        outside_names(current, category, n).contains(current[k].name@),
    decreases n,
{
    let now = outside_names(current, category, n);
    let before = outside_names(current, category, n - 1);
    if k == n - 1 {
        assert(now == before.push(current[k].name@));
        assert(now[now.len() - 1] == current[k].name@);
    } else {
        outside_are(current, category, n - 1, k);
        let i = choose|i: int| 0 <= i < before.len() && before[i] == current[k].name@;
        assert(now[i] == current[k].name@);
    }
}

/// After a selection that was not refused a dungeon reacts with no more names than
/// Discord allows.
pub proof fn selections_stay_within_the_cap(
    current: Seq<DungeonReaction>,
    category: Seq<Seq<char>>,
    values: Seq<Seq<char>>,
)
    requires
        prospective_total(current, category, values) <= REACTIONS_PER_TEMPLATE,
    ensures
        ({
            let after = Set::new(
                |name: Seq<char>|
                    reacts_after(
                        current,
                        removed_names(current, category, values, current.len() as int),
                        added_reactions(current, values, values.len() as int),
                        name,
                    ),
            );
            after.finite() && after.len() <= REACTIONS_PER_TEMPLATE
        }),
{
    broadcast use seq_to_set_is_finite;

    let after = Set::new(
        |name: Seq<char>|
            reacts_after(
                current,
                removed_names(current, category, values, current.len() as int),
                added_reactions(current, values, values.len() as int),
                name,
            ),
    );
    let outside = outside_names(current, category, current.len() as int);
    let bound = outside.to_set().union(values.to_set());
    assert forall|name: Seq<char>| after.contains(name) implies bound.contains(name) by {
        selections_are_taken_over(current, category, values, name);
        if !values.contains(name) {
            let k = choose|k: int| 0 <= k < current.len() && (#[trigger] current[k]).name@ == name;
            outside_are(current, category, current.len() as int, k);
        }
    }
    assert(after.subset_of(bound));
    lemma_len_union(outside.to_set(), values.to_set());
    outside.lemma_cardinality_of_set();
    lemma_len_subset(after, bound);
}

// ----- the menu of tiers ---------------------------------------------------------------------

/// A tier in which a dungeon can be raided from now on, or no longer.
#[derive(Debug, Clone, Copy, PartialEq, Eq, Structural)]
pub struct TierChange {
    /// Position of the tier.
    pub tier: usize,
    /// Whether the dungeon can be raided there from now on.
    pub add: bool,
}

/// A tier was selected.
pub open spec fn tier_selected(values: Seq<Seq<char>>, id: int) -> bool {
    exists|i: int| 0 <= i < values.len() && piece_number(#[trigger] values[i]) == Some(id)
}

fn is_tier_selected(values: &Vec<String>, id: i32) -> (r: bool)
    ensures
        r == tier_selected(views(values@), id as int),
{
    let ghost vs = views(values@);
    let mut i: usize = 0;
    while i < values.len()
        invariant
            i <= values@.len(),
            vs == views(values@),
            forall|k: int| 0 <= k < i ==> piece_number(#[trigger] vs[k]) != Some(id as int),
        decreases values@.len() - i,
    {
        assert(vs[i as int] == values@[i as int]@);
        match parse_i32(&values[i]) {
            Some(n) => {
                if n == id {
                    return true;
                }
            },
            None => {},
        }
        i = i + 1;
    }
    false
}

/// What a selection of tiers changes, for the first `n` tiers: those that are
/// selected and were not come, those that were and are not go.
pub open spec fn tier_changes(
    tiers: Seq<Tier>,
    visible: Seq<i32>,
    values: Seq<Seq<char>>,
    n: int,
) -> Seq<TierChange>
    decreases n,
{
    if n <= 0 || n > tiers.len() {
        Seq::empty()
    } else {
        let before = tier_changes(tiers, visible, values, n - 1);
        let want = tier_selected(values, tiers[n - 1].id as int);
        if visible.contains(tiers[n - 1].id) != want {
            before.push(TierChange { tier: (n - 1) as usize, add: want })
        } else {
            before
        }
    }
}

/// What a selection of tiers changes; `visible` lists the tiers in which the
/// dungeon can be raided.
pub fn plan_tiers(tiers: &Vec<Tier>, visible: &Vec<i32>, values: &Vec<String>) -> (r: Vec<
    TierChange,
>)
    ensures
        r@ == tier_changes(tiers@, visible@, views(values@), tiers@.len() as int),
{
    let mut out: Vec<TierChange> = Vec::new();
    let mut i: usize = 0;
    while i < tiers.len()
        invariant
            i <= tiers@.len(),
            out@ == tier_changes(tiers@, visible@, views(values@), i as int),
        decreases tiers@.len() - i,
    {
        let want = is_tier_selected(values, tiers[i].id);
        if holds(visible, tiers[i].id) != want {
            out.push(TierChange { tier: i, add: want });
        }
        i = i + 1;
    }
    out
}

/// A tier is changed exactly where what is selected differs from what was, and then
/// to what is selected.
pub proof fn tiers_follow_the_selection(
    tiers: Seq<Tier>,
    visible: Seq<i32>,
    values: Seq<Seq<char>>,
    n: int,
    k: int,
    add: bool,
)
    requires
        0 <= k < n <= tiers.len() <= usize::MAX,
    ensures
        tier_changes(tiers, visible, values, n).contains(TierChange { tier: k as usize, add }) == (
        add == tier_selected(values, tiers[k].id as int) && visible.contains(tiers[k].id) != add),
    decreases n,
{
    let want = tier_selected(values, tiers[k].id as int);
    let now = tier_changes(tiers, visible, values, n);
    let before = tier_changes(tiers, visible, values, n - 1);
    let c = TierChange { tier: k as usize, add };
    changes_are_of_earlier_tiers(tiers, visible, values, n - 1);
    if k < n - 1 {
        tiers_follow_the_selection(tiers, visible, values, n - 1, k, add);
    } else {
        assert(!before.contains(c));
    }
    if before.contains(c) {
        let i = choose|i: int| 0 <= i < before.len() && before[i] == c;
        assert(now[i] == c);
    }
    if now.len() > before.len() {
        assert(now[now.len() - 1] == now.last());
        if now.contains(c) {
            let i = choose|i: int| 0 <= i < now.len() && now[i] == c;
            if i < before.len() {
                assert(before[i] == c);
            }
        }
    }
}

proof fn changes_are_of_earlier_tiers(
    tiers: Seq<Tier>,
    visible: Seq<i32>,
    values: Seq<Seq<char>>,
    n: int,
)
    requires
        0 <= n <= tiers.len() <= usize::MAX,
    ensures
        forall|c: TierChange| #[trigger]
            tier_changes(tiers, visible, values, n).contains(c) ==> c.tier < n,
    decreases n,
{
    if n > 0 {
        changes_are_of_earlier_tiers(tiers, visible, values, n - 1);
        let now = tier_changes(tiers, visible, values, n);
        let before = tier_changes(tiers, visible, values, n - 1);
        assert forall|c: TierChange| #[trigger] now.contains(c) implies c.tier < n by {
            let i = choose|i: int| 0 <= i < now.len() && now[i] == c;
            if i < before.len() {
                assert(before[i] == c);
                assert(before.contains(c));
            }
        }
    }
}

/// The server of a dungeon that can be edited: one that is there and that not all
/// servers share.
pub fn editable_guild(template: &Option<DungeonTemplate>) -> (r: Option<i64>)
    ensures
        r == match *template {
            Some(t) => t.guild_id,
            None => None,
        },
{
    match template {
        Some(t) => t.guild_id,
        None => None,
    }
}

// ----- what new reactions look like ------------------------------------------------------------------

/// Each reaction that is added was picked and was not there before; it is named after its
/// emoji, needs nobody where that is a key and one person else, and stands behind all that
/// were there, in the order of the picks.
pub proof fn new_reactions_stand_behind_the_others(
    current: Seq<DungeonReaction>,
    values: Seq<Seq<char>>,
    n: int,
    k: int,
) -> (v: int)
    requires
        0 <= n <= values.len(),
        0 <= k < added_reactions(current, values, n).len(),
    ensures
        0 <= v < n,
        ({
            let a = added_reactions(current, values, n)[k];
            &&& a.name == values[v]
            &&& forall|i: int| 0 <= i < current.len() ==> (#[trigger] current[i]).name@ != a.name
            &&& a.display_name == title_of_snake(values[v])
            &&& a.num_required == (if occurs(values[v], "key"@) {
                0int
            } else {
                1
            })
            &&& forall|i: int|
                0 <= i < current.len() ==> (#[trigger] current[i]).sort_order < a.sort_order - k
            &&& current.len() == 0 ==> a.sort_order == k + 1
            &&& current.len() > 0 ==> exists|i: int|
                0 <= i < current.len() && (#[trigger] current[i]).sort_order + 1 + k == a.sort_order
        }),
    decreases n,
{
    let before = added_reactions(current, values, n - 1);
    if reaction_named(current, values[n - 1]) || k < before.len() {
        new_reactions_stand_behind_the_others(current, values, n - 1, k)
    } else {
        top_sort_is_the_top(current, current.len() as int);
        n - 1
    }
}

proof fn top_sort_is_the_top(current: Seq<DungeonReaction>, n: int)
    requires
        0 <= n <= current.len(),
    ensures
        forall|i: int| 0 <= i < n ==> (#[trigger] current[i]).sort_order <= top_sort(current, n),
        n == 0 ==> top_sort(current, n) == 0,
        n > 0 ==> exists|i: int|
            0 <= i < n && (#[trigger] current[i]).sort_order == top_sort(current, n),
    decreases n,
{
    if n > 1 {
        top_sort_is_the_top(current, n - 1);
        let i = choose|i: int|
            0 <= i < n - 1 && (#[trigger] current[i]).sort_order == top_sort(current, n - 1);
        assert(current[i].sort_order == top_sort(current, n - 1));
    } else if n == 1 {
        assert(current[0].sort_order == top_sort(current, 1));
    }
}

/// Each reaction that is removed is one of the category that was shown and was not picked;
/// no other is removed.
pub proof fn only_unpicked_reactions_go(
    current: Seq<DungeonReaction>,
    category: Seq<Seq<char>>,
    values: Seq<Seq<char>>,
    name: Seq<char>,
)
    ensures
        removed_names(current, category, values, current.len() as int).contains(name) <==> (exists|
            i: int,
        |
            0 <= i < current.len() && (#[trigger] current[i]).name@ == name) && category.contains(
            name,
        ) && !values.contains(name),
{
    removed_up_to(current, category, values, name, current.len() as int);
}

proof fn removed_up_to(
    current: Seq<DungeonReaction>,
    category: Seq<Seq<char>>,
    values: Seq<Seq<char>>,
    name: Seq<char>,
    n: int,
)
    requires
        0 <= n <= current.len(),
    ensures
        removed_names(current, category, values, n).contains(name) <==> (exists|i: int|
            0 <= i < n && (#[trigger] current[i]).name@ == name) && category.contains(name)
            && !values.contains(name),
    decreases n,
{
    if n > 0 {
        removed_up_to(current, category, values, name, n - 1);
        let before = removed_names(current, category, values, n - 1);
        let last = current[n - 1].name@;
        if category.contains(last) && !values.contains(last) {
            let after = before.push(last);
            if before.contains(name) {
                let j = choose|j: int| 0 <= j < before.len() && before[j] == name;
                assert(after[j] == name);
            }
            if last == name {
                assert(after[before.len() as int] == name);
            }
            if after.contains(name) && last != name {
                let j = choose|j: int| 0 <= j < after.len() && after[j] == name;
                assert(before[j] == name);
            }
        }
    }
}

/// The selection is taken over exactly when the dungeon is there, is the server's own, and
/// has at most twenty reactions afterwards; else it is left alone, and who picked is told.
pub proof fn selections_need_an_own_dungeon_with_room(
    f: ReactionsFacts,
    category: Seq<char>,
    current: Vec<DungeonReaction>,
    emojis: Vec<BotEmoji>,
)
    requires
        f.rows == Some((current, emojis)),
    ensures
        ({
            let step = reactions_step_of(f, category);
            let own = f.template is Some && f.template->0 is Some
                && f.template->0->0.guild_id is Some;
            let total = prospective_total(current@, emoji_names(emojis@), views(f.values@));
            &&& step is Apply <==> own && total <= 20
            &&& own && total > 20 ==> step == ReactionsStepView::Refuse(
                "Too many reactions — `"@ + category + "` already has "@ + dec(
                    current@.len() as int,
                ) + " configured, and Discord caps each message at "@ + dec(20) + "."@,
            )
            &&& f.template is None ==> step is LoadTemplate
            &&& f.template is Some && f.template->0 is None ==> step is Nothing
            &&& f.template is Some && f.template->0 is Some && f.template->0->0.guild_id is None
                ==> step == ReactionsStepView::Refuse(
                "This ephemeral is stale — re-run `/dungeon edit` to fork the global."@,
            )
        }),
{
}

/// What a dungeon would have after a selection: one for each different pick, and one for
/// each reaction that the menu did not show.
pub proof fn unshown_reactions_count(
    current: Seq<DungeonReaction>,
    category: Seq<Seq<char>>,
    values: Seq<Seq<char>>,
    r: DungeonReaction,
)
    ensures
        prospective_total(Seq::empty(), category, values) == values.to_set().len(),
        category.contains(r.name@) ==> prospective_total(current.push(r), category, values)
            == prospective_total(current, category, values),
        !category.contains(r.name@) ==> prospective_total(current.push(r), category, values)
            == prospective_total(current, category, values) + 1,
{
    same_start_same_names(current.push(r), current, category, current.len() as int);
}

proof fn same_start_same_names(
    a: Seq<DungeonReaction>,
    b: Seq<DungeonReaction>,
    category: Seq<Seq<char>>,
    n: int,
)
    requires
        0 <= n <= a.len(),
        n <= b.len(),
        forall|i: int| 0 <= i < n ==> a[i] == b[i],
    ensures
        outside_names(a, category, n) == outside_names(b, category, n),
    decreases n,
{
    if n > 0 {
        same_start_same_names(a, b, category, n - 1);
    }
}

/// A tier is added exactly where its number was picked and the dungeon is not shown in it
/// yet, and taken away exactly where its number was not picked and the dungeon is shown.
pub proof fn tiers_are_added_and_taken_away(
    tiers: Seq<Tier>,
    visible: Seq<i32>,
    values: Seq<Seq<char>>,
    k: int,
)
    requires
        0 <= k < tiers.len() <= usize::MAX,
    ensures
        ({
            let changes = tier_changes(tiers, visible, values, tiers.len() as int);
            let picked = exists|i: int|
                0 <= i < values.len() && int_value(#[trigger] values[i]) == Some(tiers[k].id as int);
            let shown = visible.contains(tiers[k].id);
            &&& changes.contains(TierChange { tier: k as usize, add: true }) <==> picked && !shown
            &&& changes.contains(TierChange { tier: k as usize, add: false }) <==> !picked && shown
        }),
{
    let n = tiers.len() as int;
    let id = tiers[k].id as int;
    tiers_follow_the_selection(tiers, visible, values, n, k, true);
    tiers_follow_the_selection(tiers, visible, values, n, k, false);
    if tier_selected(values, id) {
        let i = choose|i: int| 0 <= i < values.len() && piece_number(#[trigger] values[i]) == Some(id);
        assert(int_value(values[i]) == Some(id));
    }
    if exists|i: int| 0 <= i < values.len() && int_value(#[trigger] values[i]) == Some(id) {
        let i = choose|i: int| 0 <= i < values.len() && int_value(#[trigger] values[i]) == Some(id);
        assert(piece_number(values[i]) == Some(id));
    }
}

/// The view of a `NewReaction` shows each of its fields as it is.
pub proof fn new_reaction_shows_its_fields(x: NewReaction)
    ensures
        x@.name == x.name@,
        x@.display_name == x.display_name@,
        x@.num_required == x.num_required as int,
        x@.sort_order == x.sort_order as int,
{
}

/// A plan carries what is removed and what is added, each as itself and in order.
pub proof fn plans_carry_both_lists(plan: ReactionPlan, i: int)
    ensures
        ({
            let step = ReactionsStep::Apply(plan)@;
            &&& step is Apply
            &&& step->Apply_0.len() == plan.removed@.len() && step->Apply_1.len()
                == plan.added@.len()
            &&& 0 <= i < plan.removed@.len() ==> step->Apply_0[i] == plan.removed@[i]@
            &&& 0 <= i < plan.added@.len() ==> step->Apply_1[i] == plan.added@[i]@
        }),
{
}

} // verus!
