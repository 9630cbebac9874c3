//! The interactive curator: which dungeons are asked about, what is offered,
//! and which emojis the curation still wants.

use vstd::prelude::*;

use crate::curation::{
    holds, Curation, DungeonCuration, DungeonCurationView, SnapshotDungeon, SnapshotEmoji,
};
use crate::text::{cat3, cat7, dec, dec_usize, own, same, views};

verus! {

/// A dungeon is asked about: all of them where everything is curated anew, else
/// those that are not curated.
pub open spec fn is_asked(
    curation: Map<Seq<char>, DungeonCurationView>,
    recurate: bool,
    name: Seq<char>,
) -> bool {
    recurate || !curation.contains_key(name)
}

/// The positions of the dungeons that are asked about, among the first `n`.
pub open spec fn asked(
    dungeons: Seq<SnapshotDungeon>,
    curation: Map<Seq<char>, DungeonCurationView>,
    recurate: bool,
    n: int,
) -> Seq<int>
    decreases n,
{
    if n <= 0 {
        Seq::empty()
    } else {
        let before = asked(dungeons, curation, recurate, n - 1);
        if is_asked(curation, recurate, dungeons[n - 1].name@) {
            before.push(n - 1)
        } else {
            before
        }
    }
}

/// The positions of the dungeons that are asked about.
pub fn dungeons_to_prompt(
    dungeons: &Vec<SnapshotDungeon>,
    curation: &Curation,
    recurate: bool,
) -> (r: Vec<usize>)
    ensures
        r@.map_values(|i: usize| i as int) == asked(
            dungeons@,
            curation@,
            recurate,
            dungeons@.len() as int,
        ),
        forall|k: int| 0 <= k < r@.len() ==> (#[trigger] r@[k]) < dungeons@.len(),
{
    let mut out: Vec<usize> = Vec::new();
    let mut i: usize = 0;
    assert(out@.map_values(|i: usize| i as int) =~= Seq::<int>::empty());
    while i < dungeons.len()
        invariant
            i <= dungeons@.len(),
            out@.map_values(|i: usize| i as int) == asked(
                dungeons@,
                curation@,
                recurate,
                i as int,
            ),
            forall|k: int| 0 <= k < out@.len() ==> (#[trigger] out@[k]) < dungeons@.len(),
        decreases dungeons@.len() - i,
    {
        if recurate || !curation.is_curated(&dungeons[i].name) {
            let ghost before = out@.map_values(|i: usize| i as int);
            out.push(i);
            assert(out@.map_values(|i: usize| i as int) =~= before.push(i as int));
        }
        i = i + 1;
    }
    out
}

/// A reaction that a dungeon has now.
#[derive(Debug)]
pub struct ReactionRow {
    /// Name.
    pub name: String,
    /// Name as shown.
    pub display_name: String,
}

/// What is offered for a dungeon: a label for each entry, and whether it is
/// checked at first.
#[derive(Debug)]
pub struct Choices {
    /// What each entry is shown as.
    pub labels: Vec<String>,
    /// Whether each entry is checked at first.
    pub defaults: Vec<bool>,
}

/// Nothing is asked of a dungeon without reactions and drops: it is recorded
/// with empty allowlists.
pub fn is_bare(reactions: &Vec<ReactionRow>, drops: &Vec<SnapshotEmoji>) -> (r: bool)
    ensures
        r == (reactions@.len() == 0 && drops@.len() == 0),
{
    reactions.len() == 0 && drops.len() == 0
}

/// What is kept of a bare dungeon.
pub fn keep_nothing() -> (r: DungeonCuration)
    ensures
        r@ == (DungeonCurationView { reactions: Seq::empty(), drops: Seq::empty() }),
{
    let r = DungeonCuration { reactions: Vec::new(), drops: Vec::new() };
    assert(views(r.reactions@) =~= Seq::<Seq<char>>::empty());
    assert(views(r.drops@) =~= Seq::<Seq<char>>::empty());
    r
}

/// The heading above the questions about the dungeon at a place.
pub open spec fn header(idx: int, total: int, display_name: Seq<char>) -> Seq<char> {
    "\n── ["@ + dec(idx + 1) + "/"@ + dec(total) + "] "@ + display_name
        + " ──────────────────────────"@
}

/// The heading above the questions about the dungeon at a place.
pub fn prompt_header(idx: usize, total: usize, display_name: &str) -> (r: String)
    requires
        idx < usize::MAX,
    ensures
        r@ == header(idx as int, total as int, display_name@),
{
    cat7(
        "\n── [",
        &dec_usize(idx + 1),
        "/",
        &dec_usize(total),
        "] ",
        display_name,
        " ──────────────────────────",
    )
}

/// An entry is checked at first where it was kept before, or where nothing was
/// curated before.
pub open spec fn is_checked(prior: Option<Seq<Seq<char>>>, name: Seq<char>) -> bool {
    match prior {
        Some(kept) => kept.contains(name),
        None => true,
    }
}

/// The reactions that were kept before.
pub open spec fn prior_reactions(prior: Option<DungeonCurationView>) -> Option<Seq<Seq<char>>> {
    match prior {
        Some(p) => Some(p.reactions),
        None => None,
    }
}

/// The drops that were kept before.
pub open spec fn prior_drops(prior: Option<DungeonCurationView>) -> Option<Seq<Seq<char>>> {
    match prior {
        Some(p) => Some(p.drops),
        None => None,
    }
}

/// What is known of a curation that may be missing.
pub open spec fn opt_kept(prior: Option<&DungeonCuration>) -> Option<DungeonCurationView> {
    match prior {
        Some(p) => Some(p@),
        None => None,
    }
}

/// The reactions that are offered, as "name as shown — name".
pub fn reaction_choices(reactions: &Vec<ReactionRow>, prior: Option<&DungeonCuration>) -> (r: Choices)
    ensures
        r.labels@.len() == reactions@.len(),
        r.defaults@.len() == reactions@.len(),
        forall|i: int|
            0 <= i < reactions@.len() ==> (#[trigger] r.labels@[i])@ == reactions@[i].display_name@
                + " — "@ + reactions@[i].name@,
        forall|i: int|
            0 <= i < reactions@.len() ==> #[trigger] r.defaults@[i] == is_checked(
                prior_reactions(opt_kept(prior)),
                reactions@[i].name@,
            ),
{
    let mut labels: Vec<String> = Vec::new();
    let mut defaults: Vec<bool> = Vec::new();
    let mut i: usize = 0;
    while i < reactions.len()
        invariant
            i <= reactions@.len(),
            labels@.len() == i,
            defaults@.len() == i,
            forall|k: int|
                0 <= k < i ==> (#[trigger] labels@[k])@ == reactions@[k].display_name@ + " — "@
                    + reactions@[k].name@,
            forall|k: int|
                0 <= k < i ==> #[trigger] defaults@[k] == is_checked(
                    prior_reactions(opt_kept(prior)),
                    reactions@[k].name@,
                ),
        decreases reactions@.len() - i,
    {
        let row = &reactions[i];
        labels.push(cat3(&row.display_name, " — ", &row.name));
        defaults.push(
            match prior {
                Some(p) => holds(&p.reactions, &row.name),
                None => true,
            },
        );
        i = i + 1;
    }
    Choices { labels, defaults }
}

/// The drops that are offered, by logical name.
pub fn drop_choices(drops: &Vec<SnapshotEmoji>, prior: Option<&DungeonCuration>) -> (r: Choices)
    ensures
        r.labels@.len() == drops@.len(),
        r.defaults@.len() == drops@.len(),
        forall|i: int|
            0 <= i < drops@.len() ==> (#[trigger] r.labels@[i])@ == drops@[i].logical_name@,
        forall|i: int|
            0 <= i < drops@.len() ==> #[trigger] r.defaults@[i] == is_checked(
                prior_drops(opt_kept(prior)),
                drops@[i].logical_name@,
            ),
{
    let mut labels: Vec<String> = Vec::new();
    let mut defaults: Vec<bool> = Vec::new();
    let mut i: usize = 0;
    while i < drops.len()
        invariant
            i <= drops@.len(),
            labels@.len() == i,
            defaults@.len() == i,
            forall|k: int| 0 <= k < i ==> (#[trigger] labels@[k])@ == drops@[k].logical_name@,
            forall|k: int|
                0 <= k < i ==> #[trigger] defaults@[k] == is_checked(
                    prior_drops(opt_kept(prior)),
                    drops@[k].logical_name@,
                ),
        decreases drops@.len() - i,
    {
        labels.push(own(&drops[i].logical_name));
        defaults.push(
            match prior {
                Some(p) => holds(&p.drops, &drops[i].logical_name),
                None => true,
            },
        );
        i = i + 1;
    }
    Choices { labels, defaults }
}

/// What is kept of a dungeon: the entries that were picked, in the order of the
/// picks.
pub fn kept_picks(
    reactions: &Vec<ReactionRow>,
    reaction_picks: &Vec<usize>,
    drops: &Vec<SnapshotEmoji>,
    drop_picks: &Vec<usize>,
) -> (r: DungeonCuration)
    requires
        forall|i: int|
            0 <= i < reaction_picks@.len() ==> (#[trigger] reaction_picks@[i]) < reactions@.len(),
        forall|i: int| 0 <= i < drop_picks@.len() ==> (#[trigger] drop_picks@[i]) < drops@.len(),
    ensures
        r@ == (DungeonCurationView {
            reactions: Seq::new(
                reaction_picks@.len(),
                |i: int| reactions@[reaction_picks@[i] as int].name@,
            ),
            drops: Seq::new(
                drop_picks@.len(),
                |i: int| drops@[drop_picks@[i] as int].logical_name@,
            ),
        }),
{
    let mut kept: Vec<String> = Vec::new();
    let mut i: usize = 0;
    while i < reaction_picks.len()
        invariant
            i <= reaction_picks@.len(),
            forall|i: int|
                0 <= i < reaction_picks@.len() ==> (#[trigger] reaction_picks@[i])
                    < reactions@.len(),
            kept@.len() == i,
            forall|k: int|
                0 <= k < i ==> (#[trigger] kept@[k])@ == reactions@[reaction_picks@[k] as int].name@,
        decreases reaction_picks@.len() - i,
    {
        kept.push(own(&reactions[reaction_picks[i]].name));
        i = i + 1;
    }
    let mut kept_drops: Vec<String> = Vec::new();
    let mut j: usize = 0;
    while j < drop_picks.len()
        invariant
            j <= drop_picks@.len(),
            forall|i: int|
                0 <= i < drop_picks@.len() ==> (#[trigger] drop_picks@[i]) < drops@.len(),
            kept_drops@.len() == j,
            forall|k: int|
                0 <= k < j ==> (#[trigger] kept_drops@[k])@
                    == drops@[drop_picks@[k] as int].logical_name@,
        decreases drop_picks@.len() - j,
    {
        kept_drops.push(own(&drops[drop_picks[j]].logical_name));
        j = j + 1;
    }
    assert(views(kept@) =~= Seq::new(
        reaction_picks@.len(),
        |i: int| reactions@[reaction_picks@[i] as int].name@,
    ));
    assert(views(kept_drops@) =~= Seq::new(
        drop_picks@.len(),
        |i: int| drops@[drop_picks@[i] as int].logical_name@,
    ));
    DungeonCuration { reactions: kept, drops: kept_drops }
}

// ----- what the curation still wants -----------------------------------------------------

/// A dungeon wants an emoji: its portal always; its key where it is not curated
/// or the `key` reaction is kept; its drops where it is not curated, else the
/// drops of its allowlist.
pub open spec fn wants(
    d: SnapshotDungeon,
    curation: Map<Seq<char>, DungeonCurationView>,
    name: Seq<char>,
) -> bool {
    ||| d.portal is Some && d.portal->0.logical_name@ == name
    ||| d.key is Some && d.key->0.logical_name@ == name && (curation.contains_key(d.name@)
        ==> curation[d.name@].reactions.contains("key"@))
    ||| !curation.contains_key(d.name@) && exists|i: int|
        0 <= i < d.drops@.len() && (#[trigger] d.drops@[i]).logical_name@ == name
    ||| curation.contains_key(d.name@) && curation[d.name@].drops.contains(name)
}

/// One of the dungeons wants an emoji.
pub open spec fn is_wanted(
    dungeons: Seq<SnapshotDungeon>,
    curation: Map<Seq<char>, DungeonCurationView>,
    name: Seq<char>,
) -> bool {
    exists|i: int| 0 <= i < dungeons.len() && wants(#[trigger] dungeons[i], curation, name)
}

fn dungeon_wants(d: &SnapshotDungeon, curation: &Curation, name: &str) -> (r: bool)
    ensures
        r == wants(*d, curation@, name@),
{
    if let Some(p) = &d.portal {
        if same(&p.logical_name, name) {
            return true;
        }
    }
    let kept = curation.kept_of(&d.name);
    let keep_key = match kept {
        Some(c) => holds(&c.reactions, "key"),
        None => true,
    };
    if keep_key {
        if let Some(k) = &d.key {
            if same(&k.logical_name, name) {
                return true;
            }
        }
    }
    match kept {
        Some(c) => holds(&c.drops, name),
        None => {
            let mut i: usize = 0;
            while i < d.drops.len()
                invariant
                    i <= d.drops@.len(),
                    !curation@.contains_key(d.name@),
                    forall|k: int|
                        0 <= k < i ==> (#[trigger] d.drops@[k]).logical_name@ != name@,
                decreases d.drops@.len() - i,
            {
                if same(&d.drops[i].logical_name, name) {
                    return true;
                }
                i = i + 1;
            }
            false
        },
    }
}

/// Whether the curation still wants an emoji. The others are deleted.
pub fn wanted(dungeons: &Vec<SnapshotDungeon>, curation: &Curation, name: &str) -> (r: bool)
    ensures
        r == is_wanted(dungeons@, curation@, name@),
{
    let mut i: usize = 0;
    while i < dungeons.len()
        invariant
            i <= dungeons@.len(),
            forall|k: int| 0 <= k < i ==> !wants(#[trigger] dungeons@[k], curation@, name@),
        decreases dungeons@.len() - i,
    {
        if dungeon_wants(&dungeons[i], curation, name) {
            return true;
        }
        i = i + 1;
    }
    false
}

/// What a cleanup does with the registered emojis: those that nothing wants are
/// deleted, in the order in which they are registered.
pub open spec fn unwanted_positions(
    emojis: Seq<Seq<char>>,
    dungeons: Seq<SnapshotDungeon>,
    curation: Map<Seq<char>, DungeonCurationView>,
    n: int,
) -> Seq<int>
    decreases n,
{
    if n <= 0 {
        Seq::empty()
    } else {
        let before = unwanted_positions(emojis, dungeons, curation, n - 1);
        if is_wanted(dungeons, curation, emojis[n - 1]) {
            before
        } else {
            before.push(n - 1)
        }
    }
}

/// The positions of the registered emojis that a cleanup deletes.
pub fn apply_cleanup(
    emojis: &Vec<String>,
    dungeons: &Vec<SnapshotDungeon>,
    curation: &Curation,
) -> (r: Vec<usize>)
    ensures
        r@.map_values(|i: usize| i as int) == unwanted_positions(
            views(emojis@),
            dungeons@,
            curation@,
            emojis@.len() as int,
        ),
{
    let mut out: Vec<usize> = Vec::new();
    let mut i: usize = 0;
    assert(out@.map_values(|i: usize| i as int) =~= Seq::<int>::empty());
    while i < emojis.len()
        invariant
            i <= emojis@.len(),
            out@.map_values(|i: usize| i as int) == unwanted_positions(
                views(emojis@),
                dungeons@,
                curation@,
                i as int,
            ),
        decreases emojis@.len() - i,
    {
        assert(views(emojis@)[i as int] == emojis@[i as int]@);
        if !wanted(dungeons, curation, &emojis[i]) {
            let ghost before = out@.map_values(|i: usize| i as int);
            out.push(i);
            assert(out@.map_values(|i: usize| i as int) =~= before.push(i as int));
        }
        i = i + 1;
    }
    out
}

/// A cleanup deletes an emoji if and only if nothing wants it.
pub proof fn cleanup_deletes_what_nothing_wants(
    emojis: Seq<Seq<char>>,
    dungeons: Seq<SnapshotDungeon>,
    curation: Map<Seq<char>, DungeonCurationView>,
    n: int,
    i: int,
)
    requires
        0 <= i < n <= emojis.len(),
    ensures
        unwanted_positions(emojis, dungeons, curation, n).contains(i) <==> !is_wanted(
            dungeons,
            curation,
            emojis[i],
        ),
    decreases n,
{
    let before = unwanted_positions(emojis, dungeons, curation, n - 1);
    let all = unwanted_positions(emojis, dungeons, curation, n);
    positions_stay_below(emojis, dungeons, curation, n - 1);
    if i < n - 1 {
        cleanup_deletes_what_nothing_wants(emojis, dungeons, curation, n - 1, i);
        if before.contains(i) {
            let k = choose|k: int| 0 <= k < before.len() && before[k] == i;
            assert(all[k] == i);
        }
        if all.contains(i) {
            let k = choose|k: int| 0 <= k < all.len() && all[k] == i;
            assert(before[k] == i);
        }
    } else {
        if !is_wanted(dungeons, curation, emojis[i]) {
            assert(all.last() == i);
        } else if all.contains(i) {
            let k = choose|k: int| 0 <= k < all.len() && all[k] == i;
            assert(before[k] < n - 1);
        }
    }
}

proof fn positions_stay_below(
    emojis: Seq<Seq<char>>,
    dungeons: Seq<SnapshotDungeon>,
    curation: Map<Seq<char>, DungeonCurationView>,
    n: int,
)
    ensures
        forall|k: int|
            0 <= k < unwanted_positions(emojis, dungeons, curation, n).len() ==> (
            #[trigger] unwanted_positions(emojis, dungeons, curation, n)[k]) < n,
    decreases n,
{
    if n > 0 {
        positions_stay_below(emojis, dungeons, curation, n - 1);
        let before = unwanted_positions(emojis, dungeons, curation, n - 1);
        let all = unwanted_positions(emojis, dungeons, curation, n);
        assert forall|k: int| 0 <= k < all.len() implies (#[trigger] all[k]) < n by {
            if k < before.len() {
                assert(all[k] == before[k]);
            }
        }
    }
}

// ----- what curating is for ---------------------------------------------------------------------

/// All dungeons are asked about where everything is curated anew, else exactly those
/// that are not curated yet, in order.
pub proof fn uncurated_dungeons_are_asked_about(
    dungeons: Seq<SnapshotDungeon>,
    curation: Map<Seq<char>, DungeonCurationView>,
    recurate: bool,
    n: int,
    i: int,
)
    requires
        0 <= n <= dungeons.len(),
        0 <= i < n,
    ensures
        asked(dungeons, curation, recurate, n).contains(i) <==> recurate
            || !curation.contains_key(dungeons[i].name@),
        forall|a: int, b: int|
            0 <= a < b < asked(dungeons, curation, recurate, n).len() ==> #[trigger] asked(
                dungeons,
                curation,
                recurate,
                n,
            )[a] < #[trigger] asked(dungeons, curation, recurate, n)[b],
{
    asked_holds(dungeons, curation, recurate, n, i);
}

proof fn asked_holds(
    dungeons: Seq<SnapshotDungeon>,
    curation: Map<Seq<char>, DungeonCurationView>,
    recurate: bool,
    n: int,
    i: int,
)
    requires
        0 <= n <= dungeons.len(),
    ensures
        asked(dungeons, curation, recurate, n).contains(i) <==> 0 <= i < n && (recurate
            || !curation.contains_key(dungeons[i].name@)),
        forall|k: int|
            0 <= k < asked(dungeons, curation, recurate, n).len() ==> 0 <= #[trigger] asked(
                dungeons,
                curation,
                recurate,
                n,
            )[k] < n,
        forall|a: int, b: int|
            0 <= a < b < asked(dungeons, curation, recurate, n).len() ==> #[trigger] asked(
                dungeons,
                curation,
                recurate,
                n,
            )[a] < #[trigger] asked(dungeons, curation, recurate, n)[b],
    decreases n,
{
    if n > 0 {
        asked_holds(dungeons, curation, recurate, n - 1, i);
        let before = asked(dungeons, curation, recurate, n - 1);
        let all = asked(dungeons, curation, recurate, n);
        if before.contains(i) {
            let k = choose|k: int| 0 <= k < before.len() && before[k] == i;
            assert(all[k] == i);
        }
        if all.contains(i) {
            let k = choose|k: int| 0 <= k < all.len() && all[k] == i;
            if k < before.len() {
                assert(before[k] == i);
            }
        }
        if i == n - 1 && (recurate || !curation.contains_key(dungeons[i].name@)) {
            assert(all.last() == i);
        }
    }
}

/// What is offered is checked at first where it was kept before; of a dungeon that was
/// never curated everything is.
pub proof fn what_was_kept_is_checked(kept: DungeonCurationView, name: Seq<char>)
    ensures
        is_checked(prior_reactions(None), name),
        is_checked(prior_drops(None), name),
        is_checked(prior_reactions(Some(kept)), name) <==> kept.reactions.contains(name),
        is_checked(prior_drops(Some(kept)), name) <==> kept.drops.contains(name),
{
}

/// The portal of a dungeon is always wanted.
pub proof fn portals_are_always_wanted(
    dungeons: Seq<SnapshotDungeon>,
    curation: Map<Seq<char>, DungeonCurationView>,
    i: int,
)
    requires
        0 <= i < dungeons.len(),
        dungeons[i].portal is Some,
    ensures
        is_wanted(dungeons, curation, dungeons[i].portal->0.logical_name@),
{
    assert(wants(dungeons[i], curation, dungeons[i].portal->0.logical_name@));
}

/// Everything of a dungeon that is not curated is wanted.
pub proof fn all_of_an_uncurated_dungeon_is_wanted(
    dungeons: Seq<SnapshotDungeon>,
    curation: Map<Seq<char>, DungeonCurationView>,
    i: int,
    k: int,
)
    requires
        0 <= i < dungeons.len(),
        !curation.contains_key(dungeons[i].name@),
    ensures
        dungeons[i].key is Some ==> is_wanted(
            dungeons,
            curation,
            dungeons[i].key->0.logical_name@,
        ),
        0 <= k < dungeons[i].drops@.len() ==> is_wanted(
            dungeons,
            curation,
            dungeons[i].drops@[k].logical_name@,
        ),
{
    let d = dungeons[i];
    if d.key is Some {
        assert(wants(d, curation, d.key->0.logical_name@));
    }
    if 0 <= k < d.drops@.len() {
        assert(wants(d, curation, d.drops@[k].logical_name@));
    }
}

/// Of a dungeon that is curated the drops that were kept are wanted, and its key where
/// the reaction for it was kept.
pub proof fn what_was_kept_is_wanted(
    dungeons: Seq<SnapshotDungeon>,
    curation: Map<Seq<char>, DungeonCurationView>,
    i: int,
    name: Seq<char>,
)
    requires
        0 <= i < dungeons.len(),
        curation.contains_key(dungeons[i].name@),
    ensures
        curation[dungeons[i].name@].drops.contains(name) ==> is_wanted(dungeons, curation, name),
        dungeons[i].key is Some && curation[dungeons[i].name@].reactions.contains("key"@)
            ==> is_wanted(dungeons, curation, dungeons[i].key->0.logical_name@),
{
    let d = dungeons[i];
    if curation[d.name@].drops.contains(name) {
        assert(wants(d, curation, name));
    }
    if d.key is Some && curation[d.name@].reactions.contains("key"@) {
        assert(wants(d, curation, d.key->0.logical_name@));
    }
}

/// Nothing else is wanted: what is neither a portal, nor a key that is kept, nor a drop
/// that is kept goes.
pub proof fn the_rest_is_not_wanted(
    dungeons: Seq<SnapshotDungeon>,
    curation: Map<Seq<char>, DungeonCurationView>,
    name: Seq<char>,
)
    requires
        forall|i: int| #![trigger dungeons[i]]
            0 <= i < dungeons.len() ==> {
                let d = dungeons[i];
                &&& d.portal is Some ==> d.portal->0.logical_name@ != name
                &&& d.key is Some && d.key->0.logical_name@ == name ==> curation.contains_key(d.name@)
                    && !curation[d.name@].reactions.contains("key"@)
                &&& curation.contains_key(d.name@) ==> !curation[d.name@].drops.contains(name)
                &&& !curation.contains_key(d.name@) ==> forall|k: int|
                    0 <= k < d.drops@.len() ==> (#[trigger] d.drops@[k]).logical_name@ != name
            },
    ensures
        !is_wanted(dungeons, curation, name),
{
}

} // verus!
