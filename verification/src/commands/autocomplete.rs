//! What is suggested while an argument is typed.

use vstd::prelude::*;

use crate::db::models::DungeonTemplate;
use crate::text::{contains, occurs, own, views, views_push};
use crate::unicode::lowercase;

verus! {

/// A name matches what was typed: it holds it, but for case.
pub open spec fn matches_typed(name: Seq<char>, typed: Seq<char>) -> bool {
    occurs(lowercase(name), lowercase(typed))
}

/// Those of the first `n` names that match what was typed.
pub open spec fn matching(names: Seq<Seq<char>>, typed: Seq<char>, n: int) -> Seq<Seq<char>>
    decreases n,
{
    if n <= 0 {
        Seq::empty()
    } else {
        let before = matching(names, typed, n - 1);
        if matches_typed(names[n - 1], typed) {
            before.push(names[n - 1])
        } else {
            before
        }
    }
}

/// The names that match what was typed.
pub fn matching_names(names: &Vec<String>, partial: &str) -> (r: Vec<String>)
    ensures
        views(r@) == matching(views(names@), partial@, names@.len() as int),
{
    let needle = partial.to_lowercase();
    let mut out: Vec<String> = Vec::new();
    let mut i: usize = 0;
    assert(views(out@) =~= Seq::<Seq<char>>::empty());
    while i < names.len()
        invariant
            i <= names@.len(),
            needle@ == lowercase(partial@),
            views(out@) == matching(views(names@), partial@, i as int),
        decreases names@.len() - i,
    {
        broadcast use views_push;

        assert(views(names@)[i as int] == names@[i as int]@);
        if contains(&names[i].as_str().to_lowercase(), &needle) {
            out.push(own(&names[i]));
        }
        i = i + 1;
    }
    out
}

/// A dungeon that is suggested.
#[derive(Debug)]
pub struct DungeonChoice {
    /// What is shown.
    pub display_name: String,
    /// What is typed in for it.
    pub name: String,
}

/// The views of a list of suggestions.
pub open spec fn choice_names(v: Seq<DungeonChoice>) -> Seq<(Seq<char>, Seq<char>)> {
    Seq::new(v.len(), |i: int| (v[i].display_name@, v[i].name@))
}

/// Those of the first `n` dungeons whose name as shown or logical name matches
/// what was typed.
pub open spec fn matching_templates(dungeons: Seq<DungeonTemplate>, typed: Seq<char>, n: int) -> Seq<
    (Seq<char>, Seq<char>),
>
    decreases n,
{
    if n <= 0 {
        Seq::empty()
    } else {
        let before = matching_templates(dungeons, typed, n - 1);
        let d = dungeons[n - 1];
        if matches_typed(d.display_name@, typed) || matches_typed(d.name@, typed) {
            before.push((d.display_name@, d.name@))
        } else {
            before
        }
    }
}

/// The dungeons whose name as shown or logical name matches what was typed.
pub fn matching_dungeons(dungeons: &Vec<DungeonTemplate>, partial: &str) -> (r: Vec<DungeonChoice>)
    ensures
        choice_names(r@) == matching_templates(dungeons@, partial@, dungeons@.len() as int),
{
    let needle = partial.to_lowercase();
    let mut out: Vec<DungeonChoice> = Vec::new();
    let mut i: usize = 0;
    assert(choice_names(out@) =~= Seq::<(Seq<char>, Seq<char>)>::empty());
    while i < dungeons.len()
        invariant
            i <= dungeons@.len(),
            needle@ == lowercase(partial@),
            choice_names(out@) == matching_templates(dungeons@, partial@, i as int),
        decreases dungeons@.len() - i,
    {
        let d = &dungeons[i];
        if contains(&d.display_name.as_str().to_lowercase(), &needle) || contains(
            &d.name.as_str().to_lowercase(),
            &needle,
        ) {
            let ghost before = choice_names(out@);
            out.push(DungeonChoice { display_name: own(&d.display_name), name: own(&d.name) });
            assert(choice_names(out@) =~= before.push((d.display_name@, d.name@)));
        }
        i = i + 1;
    }
    out
}

/// Each name that is offered is one of the names and holds what was typed, but for case;
/// they stay in order.
pub proof fn offered_names_hold_what_was_typed(
    names: Seq<Seq<char>>,
    typed: Seq<char>,
    n: int,
    i: int,
) -> (k: int)
    requires
        0 <= n <= names.len(),
        0 <= i < matching(names, typed, n).len(),
    ensures
        0 <= k < n,
        matching(names, typed, n)[i] == names[k],
        occurs(lowercase(names[k]), lowercase(typed)),
    decreases n,
{
    if i < matching(names, typed, n - 1).len() {
        offered_names_hold_what_was_typed(names, typed, n - 1, i)
    } else {
        n - 1
    }
}

/// No name that holds what was typed is left out.
pub proof fn no_matching_name_is_left_out(
    names: Seq<Seq<char>>,
    typed: Seq<char>,
    n: int,
    k: int,
) -> (i: int)
    requires
        0 <= k < n <= names.len(),
        occurs(lowercase(names[k]), lowercase(typed)),
    ensures
        0 <= i < matching(names, typed, n).len(),
        matching(names, typed, n)[i] == names[k],
    decreases n,
{
    if k < n - 1 {
        no_matching_name_is_left_out(names, typed, n - 1, k)
    } else {
        matching(names, typed, n - 1).len() as int
    }
}

/// Each dungeon that is offered is one of the dungeons, by its name and its slug, one of
/// which holds what was typed, but for case.
pub proof fn offered_dungeons_hold_what_was_typed(
    dungeons: Seq<DungeonTemplate>,
    typed: Seq<char>,
    n: int,
    i: int,
) -> (k: int)
    requires
        0 <= n <= dungeons.len(),
        0 <= i < matching_templates(dungeons, typed, n).len(),
    ensures
        0 <= k < n,
        matching_templates(dungeons, typed, n)[i] == (dungeons[k].display_name@, dungeons[k].name@),
        occurs(lowercase(dungeons[k].display_name@), lowercase(typed)) || occurs(
            lowercase(dungeons[k].name@),
            lowercase(typed),
        ),
    decreases n,
{
    if i < matching_templates(dungeons, typed, n - 1).len() {
        offered_dungeons_hold_what_was_typed(dungeons, typed, n - 1, i)
    } else {
        n - 1
    }
}

/// No dungeon whose name or slug holds what was typed is left out.
pub proof fn no_matching_dungeon_is_left_out(
    dungeons: Seq<DungeonTemplate>,
    typed: Seq<char>,
    n: int,
    k: int,
) -> (i: int)
    requires
        0 <= k < n <= dungeons.len(),
        occurs(lowercase(dungeons[k].display_name@), lowercase(typed)) || occurs(
            lowercase(dungeons[k].name@),
            lowercase(typed),
        ),
    ensures
        0 <= i < matching_templates(dungeons, typed, n).len(),
        matching_templates(dungeons, typed, n)[i] == (dungeons[k].display_name@, dungeons[k].name@),
    decreases n,
{
    if k < n - 1 {
        no_matching_dungeon_is_left_out(dungeons, typed, n - 1, k)
    } else {
        matching_templates(dungeons, typed, n - 1).len() as int
    }
}

} // verus!
