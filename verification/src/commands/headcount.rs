//! `/headcount` and `/run`: which tier is meant, and what must hold before a
//! headcount or a run is started.

use vstd::prelude::*;

use crate::db::models::{DungeonTemplate, Tier};
use crate::mention::{channel, channel_i64};
use crate::text::{
    cat3, cat5, eq_ignore_case, join, joined, opt_view, own, same_but_case, views, views_push,
};
use crate::unicode::ascii_lower_text;

verus! {

// ----- the tier ------------------------------------------------------------------------

/// The first tier with a name, but for case, from `from` on.
pub open spec fn tier_called(tiers: Seq<Tier>, name: Seq<char>, from: int) -> Option<int>
    decreases tiers.len() - from,
{
    if from < 0 || from >= tiers.len() {
        None
    } else if same_but_case(tiers[from].name@, name) {
        Some(from)
    } else {
        tier_called(tiers, name, from + 1)
    }
}

/// The names of tiers.
pub open spec fn tier_names(tiers: Seq<Tier>) -> Seq<Seq<char>> {
    Seq::new(tiers.len(), |i: int| tiers[i].name@)
}

/// Which tier is meant.
#[derive(Debug)]
pub enum TierChoice {
    /// The tier at this position.
    Tier(usize),
    /// None: this is said.
    Refused(String),
}

/// The tier that is meant: the one that is named, else the only one.
pub open spec fn chosen_tier(tiers: Seq<Tier>, name: Option<Seq<char>>) -> Option<int> {
    match name {
        Some(n) => tier_called(tiers, n, 0),
        None => if tiers.len() == 1 {
            Some(0)
        } else {
            None
        },
    }
}

/// What is said where no tier is meant.
pub open spec fn tier_refusal(tiers: Seq<Tier>, name: Option<Seq<char>>) -> Seq<char> {
    match name {
        Some(n) => "Unknown tier `"@ + n + "`."@,
        None => if tiers.len() == 0 {
            "No tiers configured — run `/setup` first."@
        } else {
            "Multiple tiers exist: "@ + joined(tier_names(tiers), ", "@)
                + ". Specify one with the `tier` argument."@
        },
    }
}

fn list_names(tiers: &Vec<Tier>) -> (r: String)
    ensures
        r@ == joined(tier_names(tiers@), ", "@),
{
    let mut names: Vec<String> = Vec::new();
    let ghost all = tier_names(tiers@);
    let mut i: usize = 0;
    while i < tiers.len()
        invariant
            i <= tiers@.len(),
            all == tier_names(tiers@),
            views(names@) == all.take(i as int),
        decreases tiers@.len() - i,
    {
        broadcast use views_push;

        names.push(own(&tiers[i].name));
        i = i + 1;
        assert(all.take(i as int) =~= all.take(i - 1).push(all[i - 1]));
    }
    assert(all.take(i as int) =~= all);
    join(&names, ", ")
}

/// Which tier is meant: the one that is named, else the only one.
pub fn resolve_tier(tiers: &Vec<Tier>, name: &Option<String>) -> (r: TierChoice)
    ensures
        match r {
            TierChoice::Tier(i) => chosen_tier(tiers@, opt_view(*name)) == Some(
                i as int,
            ) && i < tiers@.len(),
            TierChoice::Refused(t) => chosen_tier(tiers@, opt_view(*name)) is None
                && t@ == tier_refusal(tiers@, opt_view(*name)),
        },
{
    match name {
        Some(n) => {
            let mut i: usize = 0;
            while i < tiers.len()
                invariant
                    i <= tiers@.len(),
                    opt_view(*name) == Some(n@),
                    tier_called(tiers@, n@, 0) == tier_called(tiers@, n@, i as int),
                decreases tiers@.len() - i,
            {
                if eq_ignore_case(&tiers[i].name, n) {
                    return TierChoice::Tier(i);
                }
                i = i + 1;
            }
            TierChoice::Refused(cat3("Unknown tier `", n, "`."))
        },
        None => if tiers.len() == 1 {
            TierChoice::Tier(0)
        } else if tiers.len() == 0 {
            TierChoice::Refused(own("No tiers configured — run `/setup` first."))
        } else {
            TierChoice::Refused(
                cat3(
                    "Multiple tiers exist: ",
                    &list_names(tiers),
                    ". Specify one with the `tier` argument.",
                ),
            )
        },
    }
}

// ----- what must hold before a headcount --------------------------------------------------

/// What is known so far of a headcount that is asked for. What is not known is
/// `None`.
pub struct HeadcountFacts {
    /// What was typed for the dungeon.
    pub dungeon: String,
    /// What was typed for the tier.
    pub tier: Option<String>,
    /// The dungeon, or that there is none.
    pub template: Option<Option<DungeonTemplate>>,
    /// The tiers of the server.
    pub tiers: Option<Vec<Tier>>,
    /// Whether the dungeon can be raided in the tier.
    pub visible: Option<bool>,
    /// Whether the caller may start it.
    pub permitted: Option<bool>,
    /// Whether the channel of the tier's runs is there.
    pub channel_exists: Option<bool>,
    /// What the start gate says against it, or that it says nothing.
    pub block: Option<Option<String>>,
}

/// What to do about a headcount that is asked for.
#[derive(Debug)]
pub enum HeadcountStep {
    /// Look up the dungeon.
    FindDungeon,
    /// List the tiers.
    ListTiers,
    /// Find out whether the dungeon can be raided in the tier at this position.
    AskVisible(usize),
    /// Find out whether the caller may start it in the tier at this position.
    AskPermission(usize),
    /// Find out whether this channel is there.
    AskChannel(i64),
    /// Ask the start gate, for the tier at this position.
    AskGate(usize),
    /// The caller may not start it.
    Denied,
    /// Say this, and do nothing.
    Refuse(String),
    /// Start it in this channel, for the tier at this position.
    Start(usize, i64),
}

/// What to do about a headcount that is asked for, over views.
pub ghost enum HeadcountStepView {
    FindDungeon,
    ListTiers,
    AskVisible(int),
    AskPermission(int),
    AskChannel(i64),
    AskGate(int),
    Denied,
    Refuse(Seq<char>),
    Start(int, i64),
}

impl View for HeadcountStep {
    type V = HeadcountStepView;

    open spec fn view(&self) -> HeadcountStepView {
        match self {
            HeadcountStep::FindDungeon => HeadcountStepView::FindDungeon,
            HeadcountStep::ListTiers => HeadcountStepView::ListTiers,
            HeadcountStep::AskVisible(i) => HeadcountStepView::AskVisible(*i as int),
            HeadcountStep::AskPermission(i) => HeadcountStepView::AskPermission(*i as int),
            HeadcountStep::AskChannel(c) => HeadcountStepView::AskChannel(*c),
            HeadcountStep::AskGate(i) => HeadcountStepView::AskGate(*i as int),
            HeadcountStep::Denied => HeadcountStepView::Denied,
            HeadcountStep::Refuse(t) => HeadcountStepView::Refuse(t@),
            HeadcountStep::Start(i, c) => HeadcountStepView::Start(*i as int, *c),
        }
    }
}

/// What is said of a dungeon that is not known.
pub open spec fn unknown_dungeon(name: Seq<char>) -> Seq<char> {
    "Unknown dungeon `"@ + name + "`. Try the autocomplete list."@
}

/// What is said of a dungeon that cannot be raided in a tier.
pub open spec fn not_enabled(dungeon: Seq<char>, tier: Seq<char>) -> Seq<char> {
    "**"@ + dungeon + "** isn't enabled for tier **"@ + tier
        + "**. Ask a server admin to run `/tier add-dungeon` first."@
}

/// What is said of a tier without a channel for its runs.
pub open spec fn no_channel(tier: Seq<char>) -> Seq<char> {
    "Tier **"@ + tier + "** has no runs channel. Use `/setup` or `/tier edit` to set one."@
}

/// What can be done where a channel is gone.
pub const CHANNEL_GONE_HINT: &'static str = " is gone — it was probably \
    deleted in Discord. Run `/tier edit` or `/setup` to point the tier at \
    a different channel.";

/// What is said of a tier whose channel is gone.
pub open spec fn channel_gone(tier: Seq<char>, id: int) -> Seq<char> {
    "Tier **"@ + tier + "**'s runs channel "@ + channel(id) + CHANNEL_GONE_HINT@
}

/// What to do about a headcount that is asked for: the next thing to find out, or
/// the first reason against it, or the start. Things are found out in this order:
/// the dungeon, the tier, that the dungeon can be raided there, that the caller
/// may start it, the channel, that the channel is there, the start gate.
pub open spec fn headcount_step_of(f: HeadcountFacts) -> HeadcountStepView {
    match f.template {
        None => HeadcountStepView::FindDungeon,
        Some(None) => HeadcountStepView::Refuse(unknown_dungeon(f.dungeon@)),
        Some(Some(template)) => match f.tiers {
            None => HeadcountStepView::ListTiers,
            Some(tiers) => match chosen_tier(tiers@, opt_view(f.tier)) {
                None => HeadcountStepView::Refuse(
                    tier_refusal(tiers@, opt_view(f.tier)),
                ),
                Some(i) => {
                    let tier = tiers@[i];
                    match f.visible {
                        None => HeadcountStepView::AskVisible(i),
                        Some(false) => HeadcountStepView::Refuse(
                            not_enabled(template.display_name@, tier.name@),
                        ),
                        Some(true) => match f.permitted {
                            None => HeadcountStepView::AskPermission(i),
                            Some(false) => HeadcountStepView::Denied,
                            Some(true) => match tier.runs_channel_id {
                                None => HeadcountStepView::Refuse(no_channel(tier.name@)),
                                Some(c) => match f.channel_exists {
                                    None => HeadcountStepView::AskChannel(c),
                                    Some(false) => HeadcountStepView::Refuse(
                                        channel_gone(tier.name@, c as int),
                                    ),
                                    Some(true) => match f.block {
                                        None => HeadcountStepView::AskGate(i),
                                        Some(Some(reason)) => HeadcountStepView::Refuse(reason@),
                                        Some(None) => HeadcountStepView::Start(i, c),
                                    },
                                },
                            },
                        },
                    }
                },
            },
        },
    }
}

/// What to do next about a headcount that is asked for.
pub fn headcount_step(f: &HeadcountFacts) -> (r: HeadcountStep)
    ensures
        r@ == headcount_step_of(*f),
{
    let template = match &f.template {
        None => {
            return HeadcountStep::FindDungeon;
        },
        Some(None) => {
            return HeadcountStep::Refuse(
                cat3("Unknown dungeon `", &f.dungeon, "`. Try the autocomplete list."),
            );
        },
        Some(Some(t)) => t,
    };
    let tiers = match &f.tiers {
        None => {
            return HeadcountStep::ListTiers;
        },
        Some(t) => t,
    };
    let i: usize = match resolve_tier(tiers, &f.tier) {
        TierChoice::Tier(i) => i,
        TierChoice::Refused(t) => {
            return HeadcountStep::Refuse(t);
        },
    };
    let tier = &tiers[i];
    match f.visible {
        None => {
            return HeadcountStep::AskVisible(i);
        },
        Some(v) => {
            if !v {
                return HeadcountStep::Refuse(
                    cat5(
                        "**",
                        &template.display_name,
                        "** isn't enabled for tier **",
                        &tier.name,
                        "**. Ask a server admin to run `/tier add-dungeon` first.",
                    ),
                );
            }
        },
    }
    match f.permitted {
        None => {
            return HeadcountStep::AskPermission(i);
        },
        Some(p) => {
            if !p {
                return HeadcountStep::Denied;
            }
        },
    }
    let c: i64 = match tier.runs_channel_id {
        None => {
            return HeadcountStep::Refuse(
                cat3(
                    "Tier **",
                    &tier.name,
                    "** has no runs channel. Use `/setup` or `/tier edit` to set one.",
                ),
            );
        },
        Some(c) => c,
    };
    match f.channel_exists {
        None => {
            return HeadcountStep::AskChannel(c);
        },
        Some(e) => {
            if !e {
                return HeadcountStep::Refuse(
                    cat5(
                        "Tier **",
                        &tier.name,
                        "**'s runs channel ",
                        &channel_i64(c),
                        CHANNEL_GONE_HINT,
                    ),
                );
            }
        },
    }
    match &f.block {
        None => HeadcountStep::AskGate(i),
        Some(Some(reason)) => HeadcountStep::Refuse(own(reason)),
        Some(None) => HeadcountStep::Start(i, c),
    }
}

/// A headcount is started only where the dungeon is known, it can be raided in
/// the tier that is meant, the caller may start it, the tier's channel is there
/// and the start gate says nothing against it.
pub proof fn headcounts_start_only_when_all_holds(f: HeadcountFacts, i: int, c: i64)
    requires
        headcount_step_of(f) == HeadcountStepView::Start(i, c),
    ensures
        f.template is Some && f.template->0 is Some,
        f.tiers is Some && chosen_tier(f.tiers->0@, opt_view(f.tier)) == Some(i),
        f.tiers->0@[i].runs_channel_id == Some(c),
        f.visible == Some(true),
        f.permitted == Some(true),
        f.channel_exists == Some(true),
        f.block is Some && f.block->0 is None,
{
}

/// What is said of a headcount that was started.
pub fn headcount_started(channel_id: i64) -> (r: String)
    ensures
        r@ == "Headcount started in "@ + channel(channel_id as int) + "!"@,
{
    cat3("Headcount started in ", &channel_i64(channel_id), "!")
}

// ----- what must hold before a run ---------------------------------------------------------

/// What can be done about a tier without a channel.
pub const NO_RUNS_CHANNEL_HINT: &'static str = "** has no runs channel configured. Use `/setup` or \
    `/tier edit` to set one.";

/// What to do about a run that is asked for.
pub open spec fn run_step_of(f: HeadcountFacts) -> HeadcountStepView {
    match f.template {
        None => HeadcountStepView::FindDungeon,
        Some(None) => HeadcountStepView::Refuse(unknown_dungeon(f.dungeon@)),
        Some(Some(_)) => match f.tiers {
            None => HeadcountStepView::ListTiers,
            Some(tiers) => match chosen_tier(tiers@, opt_view(f.tier)) {
                None => HeadcountStepView::Refuse(
                    tier_refusal(tiers@, opt_view(f.tier)),
                ),
                Some(i) => match f.permitted {
                    None => HeadcountStepView::AskPermission(i),
                    Some(false) => HeadcountStepView::Denied,
                    Some(true) => match tiers@[i].runs_channel_id {
                        None => HeadcountStepView::Refuse(
                            "Tier **"@ + tiers@[i].name@ + NO_RUNS_CHANNEL_HINT@,
                        ),
                        Some(c) => HeadcountStepView::Start(i, c),
                    },
                },
            },
        },
    }
}

/// What to do next about a run that is asked for: the dungeon, the tier, that the
/// caller may start it, and the channel.
pub fn run_step(f: &HeadcountFacts) -> (r: HeadcountStep)
    ensures
        r@ == run_step_of(*f),
{
    match &f.template {
        None => {
            return HeadcountStep::FindDungeon;
        },
        Some(None) => {
            return HeadcountStep::Refuse(
                cat3("Unknown dungeon `", &f.dungeon, "`. Try the autocomplete list."),
            );
        },
        Some(Some(_)) => {},
    }
    let tiers = match &f.tiers {
        None => {
            return HeadcountStep::ListTiers;
        },
        Some(t) => t,
    };
    let i: usize = match resolve_tier(tiers, &f.tier) {
        TierChoice::Tier(i) => i,
        TierChoice::Refused(t) => {
            return HeadcountStep::Refuse(t);
        },
    };
    match f.permitted {
        None => {
            return HeadcountStep::AskPermission(i);
        },
        Some(p) => {
            if !p {
                return HeadcountStep::Denied;
            }
        },
    }
    match tiers[i].runs_channel_id {
        None => HeadcountStep::Refuse(cat3("Tier **", &tiers[i].name, NO_RUNS_CHANNEL_HINT)),
        Some(c) => HeadcountStep::Start(i, c),
    }
}

/// What is said of a run that was started.
pub fn run_started(channel_id: i64) -> (r: String)
    ensures
        r@ == "Run started in "@ + channel(channel_id as int) + "!"@,
{
    cat3("Run started in ", &channel_i64(channel_id), "!")
}

// ----- what the commands are for ------------------------------------------------------------------

proof fn tier_called_is_first(tiers: Seq<Tier>, name: Seq<char>, from: int)
    requires
        0 <= from <= tiers.len(),
    ensures
        tier_called(tiers, name, from) matches Some(i) ==> from <= i < tiers.len()
            && ascii_lower_text(tiers[i].name@) == ascii_lower_text(name) && forall|k: int|
            from <= k < i ==> ascii_lower_text((#[trigger] tiers[k]).name@) != ascii_lower_text(name),
        tier_called(tiers, name, from) is None ==> forall|k: int|
            from <= k < tiers.len() ==> ascii_lower_text((#[trigger] tiers[k]).name@)
                != ascii_lower_text(name),
    decreases tiers.len() - from,
{
    if from < tiers.len() && !same_but_case(tiers[from].name@, name) {
        tier_called_is_first(tiers, name, from + 1);
    }
}

/// A tier that is named is the first of that name, whatever the case; where none is
/// named, the only tier there is. Nothing else is ever chosen.
pub proof fn the_named_or_only_tier_is_chosen(tiers: Seq<Tier>, name: Seq<char>)
    ensures
        chosen_tier(tiers, None) == (if tiers.len() == 1 {
            Some(0int)
        } else {
            None
        }),
        chosen_tier(tiers, Some(name)) matches Some(i) ==> 0 <= i < tiers.len()
            && ascii_lower_text(tiers[i].name@) == ascii_lower_text(name) && forall|k: int|
            0 <= k < i ==> ascii_lower_text((#[trigger] tiers[k]).name@) != ascii_lower_text(name),
        chosen_tier(tiers, Some(name)) is None ==> forall|k: int|
            0 <= k < tiers.len() ==> ascii_lower_text((#[trigger] tiers[k]).name@)
                != ascii_lower_text(name),
{
    tier_called_is_first(tiers, name, 0);
}

/// A headcount starts in the tier that was chosen and in its channel, exactly where the
/// dungeon is known and enabled there, who asks may, the channel is there, and the gates
/// say nothing against it.
pub proof fn headcounts_start_when_all_holds(f: HeadcountFacts, i: int)
    requires
        f.template is Some && f.template->0 is Some,
        f.tiers is Some,
        chosen_tier(f.tiers->0@, opt_view(f.tier)) == Some(i),
    ensures
        headcount_step_of(f) is Start <==> f.visible == Some(true) && f.permitted == Some(true)
            && f.tiers->0@[i].runs_channel_id is Some && f.channel_exists == Some(true)
            && f.block is Some && f.block->0 is None,
        headcount_step_of(f) matches HeadcountStepView::Start(t, c) ==> t == i
            && f.tiers->0@[i].runs_channel_id == Some(c),
        f.visible == Some(true) && f.permitted == Some(false) ==> headcount_step_of(f) is Denied,
        f.visible == Some(false) ==> headcount_step_of(f) is Refuse,
        f.visible is None ==> headcount_step_of(f) == HeadcountStepView::AskVisible(i),
        f.visible == Some(true) && f.permitted is None ==> headcount_step_of(f)
            == HeadcountStepView::AskPermission(i),
        f.visible == Some(true) && f.permitted == Some(true) && f.tiers->0@[i].runs_channel_id
            is Some && f.channel_exists == Some(true) && f.block is Some && f.block->0 is Some
            ==> headcount_step_of(f) == HeadcountStepView::Refuse(f.block->0->0@),
{
}

/// A headcount for a dungeon that is not known, or without a tier that can be told, is
/// refused before anything else is asked.
pub proof fn unknown_dungeons_and_tiers_are_refused(f: HeadcountFacts)
    ensures
        f.template == Some(None::<DungeonTemplate>) ==> headcount_step_of(f)
            == HeadcountStepView::Refuse(
            "Unknown dungeon `"@ + f.dungeon@ + "`. Try the autocomplete list."@,
        ) && run_step_of(f) == headcount_step_of(f),
        f.template is Some && f.template->0 is Some && f.tiers is Some && chosen_tier(
            f.tiers->0@,
            opt_view(f.tier),
        ) is None ==> headcount_step_of(f) is Refuse && run_step_of(f) is Refuse,
        f.template is None ==> headcount_step_of(f) is FindDungeon && run_step_of(f) is FindDungeon,
{
}

/// A run starts at once in the tier that was chosen and in its channel, exactly where
/// who asks may and the tier has a channel.
pub proof fn runs_start_when_permitted(f: HeadcountFacts, i: int)
    requires
        f.template is Some && f.template->0 is Some,
        f.tiers is Some,
        chosen_tier(f.tiers->0@, opt_view(f.tier)) == Some(i),
    ensures
        f.permitted is None ==> run_step_of(f) == HeadcountStepView::AskPermission(i),
        f.permitted == Some(false) ==> run_step_of(f) is Denied,
        f.permitted == Some(true) ==> (match f.tiers->0@[i].runs_channel_id {
            Some(c) => run_step_of(f) == HeadcountStepView::Start(i, c),
            None => run_step_of(f) is Refuse,
        }),
{
}

/// Who named a tier that is not there is told its name; who named none is told to set up
/// the first one where there is none, and else the names of all there are.
pub proof fn missing_tiers_are_told(tiers: Seq<Tier>, name: Seq<char>, i: int)
    ensures
        tier_refusal(tiers, Some(name)) == "Unknown tier `"@ + name + "`."@,
        tiers.len() == 0 ==> tier_refusal(tiers, None)
            == "No tiers configured — run `/setup` first."@,
        tiers.len() > 0 ==> tier_refusal(tiers, None) == "Multiple tiers exist: "@ + joined(
            tier_names(tiers),
            ", "@,
        ) + ". Specify one with the `tier` argument."@,
        tier_names(tiers).len() == tiers.len(),
        0 <= i < tiers.len() ==> tier_names(tiers)[i] == tiers[i].name@,
{
}

} // verus!
