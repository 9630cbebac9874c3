//! A session of the curator, as a machine: it asks about one dungeon after the other,
//! then stores what was kept and cleans up. A dry run only shows what it would store.
//!
//! The caller performs each action and hands back what came of it.

use vstd::prelude::*;

use crate::cli::curate::{
    asked, drop_choices, dungeons_to_prompt, header, is_bare, is_checked, keep_nothing, kept_picks,
    prior_drops, prior_reactions, prompt_header, reaction_choices, Choices, ReactionRow,
};
use crate::curation::{Curation, DungeonCurationView, SnapshotDungeon, SnapshotEmoji};
use crate::text::{dec, own, views};

verus! {

/// Where a session stands.
#[derive(Debug, Clone, Copy)]
pub enum CurateStage {
    /// At its beginning.
    Start,
    /// Waiting for the reactions that the dungeon has.
    AwaitReactions,
    /// Waiting for what the operator picks.
    AwaitPicks,
    /// Waiting for the allowlist to be stored.
    AwaitSave,
    /// Waiting for the end: the preview, or the cleaning up.
    AwaitEnd,
    /// Over.
    Done,
}

/// What came of the last action.
#[derive(Debug)]
pub enum CurateEvent {
    /// It was done.
    Proceed,
    /// The reactions that the dungeon has.
    Reactions(Vec<ReactionRow>),
    /// The places of the reactions and of the drops that the operator picked.
    Picked(Vec<usize>, Vec<usize>),
}

/// What to do next.
#[derive(Debug)]
pub enum CurateAction {
    /// Read the reactions of the dungeon with this name.
    LoadReactions(String),
    /// Show this heading, and ask which reactions and which drops are kept. A list
    /// without entries is not asked about.
    Ask(String, Choices, Choices),
    /// Show the allowlist.
    Preview,
    /// Store the allowlist.
    Save,
    /// Delete what the allowlist no longer wants.
    CleanUp,
    /// The session is over.
    Finish,
}

/// What is offered, over views.
pub ghost struct ChoicesView {
    pub labels: Seq<Seq<char>>,
    pub defaults: Seq<bool>,
}

impl View for Choices {
    type V = ChoicesView;

    open spec fn view(&self) -> ChoicesView {
        ChoicesView { labels: views(self.labels@), defaults: self.defaults@ }
    }
}

/// What to do next, over views.
pub ghost enum CurateActionView {
    LoadReactions(Seq<char>),
    Ask(Seq<char>, ChoicesView, ChoicesView),
    Preview,
    Save,
    CleanUp,
    Finish,
}

impl View for CurateAction {
    type V = CurateActionView;

    open spec fn view(&self) -> CurateActionView {
        match self {
            CurateAction::LoadReactions(n) => CurateActionView::LoadReactions(n@),
            CurateAction::Ask(h, r, d) => CurateActionView::Ask(h@, r@, d@),
            CurateAction::Preview => CurateActionView::Preview,
            CurateAction::Save => CurateActionView::Save,
            CurateAction::CleanUp => CurateActionView::CleanUp,
            CurateAction::Finish => CurateActionView::Finish,
        }
    }
}

/// The state of a session, over views.
pub ghost struct CurateState {
    pub dry_run: bool,
    pub dungeons: Seq<SnapshotDungeon>,
    /// The places of the dungeons that are asked about.
    pub todo: Seq<int>,
    /// How many of them are done.
    pub at: int,
    pub curation: Map<Seq<char>, DungeonCurationView>,
    /// The reactions of the dungeon at hand.
    pub reactions: Seq<ReactionRow>,
    pub stage: CurateStage,
}

/// The dungeon at hand.
pub open spec fn at_hand(s: CurateState) -> SnapshotDungeon {
    s.dungeons[s.todo[s.at]]
}

/// What was kept of a dungeon before, where it is curated.
pub open spec fn kept_before(
    curation: Map<Seq<char>, DungeonCurationView>,
    name: Seq<char>,
) -> Option<DungeonCurationView> {
    if curation.contains_key(name) {
        Some(curation[name])
    } else {
        None
    }
}

/// The reactions that are offered.
pub open spec fn reaction_offer(
    reactions: Seq<ReactionRow>,
    prior: Option<DungeonCurationView>,
) -> ChoicesView {
    ChoicesView {
        labels: Seq::new(
            reactions.len(),
            |i: int| reactions[i].display_name@ + " — "@ + reactions[i].name@,
        ),
        defaults: Seq::new(
            reactions.len(),
            |i: int| is_checked(prior_reactions(prior), reactions[i].name@),
        ),
    }
}

/// The drops that are offered.
pub open spec fn drop_offer(
    drops: Seq<SnapshotEmoji>,
    prior: Option<DungeonCurationView>,
) -> ChoicesView {
    ChoicesView {
        labels: Seq::new(drops.len(), |i: int| drops[i].logical_name@),
        defaults: Seq::new(
            drops.len(),
            |i: int| is_checked(prior_drops(prior), drops[i].logical_name@),
        ),
    }
}

/// What is kept where these places were picked.
pub open spec fn kept_of_picks(
    reactions: Seq<ReactionRow>,
    reaction_picks: Seq<usize>,
    drops: Seq<SnapshotEmoji>,
    drop_picks: Seq<usize>,
) -> DungeonCurationView {
    DungeonCurationView {
        reactions: Seq::new(
            reaction_picks.len(),
            |i: int| reactions[reaction_picks[i] as int].name@,
        ),
        drops: Seq::new(drop_picks.len(), |i: int| drops[drop_picks[i] as int].logical_name@),
    }
}

/// Go on to the next dungeon. Behind the last the allowlist is stored, or in a dry run
/// only shown.
pub open spec fn next_dungeon(s: CurateState) -> (CurateState, CurateActionView) {
    if s.at < s.todo.len() {
        (
            CurateState { stage: CurateStage::AwaitReactions, ..s },
            CurateActionView::LoadReactions(at_hand(s).name@),
        )
    } else if s.dry_run {
        (CurateState { stage: CurateStage::AwaitEnd, ..s }, CurateActionView::Preview)
    } else {
        (CurateState { stage: CurateStage::AwaitSave, ..s }, CurateActionView::Save)
    }
}

/// What is kept of the dungeon at hand is recorded, and the next one comes.
pub open spec fn recorded(s: CurateState, kept: DungeonCurationView) -> (
    CurateState,
    CurateActionView,
) {
    next_dungeon(
        CurateState { curation: s.curation.insert(at_hand(s).name@, kept), at: s.at + 1, ..s },
    )
}

/// One step of a session. Nothing is asked about a dungeon without reactions and
/// drops.
pub open spec fn curate_step(s: CurateState, e: CurateEvent) -> (CurateState, CurateActionView) {
    match (s.stage, e) {
        (CurateStage::Start, _) => next_dungeon(s),
        (CurateStage::AwaitReactions, CurateEvent::Reactions(rows)) => {
            let d = at_hand(s);
            if rows@.len() == 0 && d.drops@.len() == 0 {
                recorded(
                    s,
                    DungeonCurationView { reactions: Seq::empty(), drops: Seq::empty() },
                )
            } else {
                let prior = kept_before(s.curation, d.name@);
                (
                    CurateState { reactions: rows@, stage: CurateStage::AwaitPicks, ..s },
                    CurateActionView::Ask(
                        header(s.todo[s.at], s.dungeons.len() as int, d.display_name@),
                        reaction_offer(rows@, prior),
                        drop_offer(d.drops@, prior),
                    ),
                )
            }
        },
        (CurateStage::AwaitPicks, CurateEvent::Picked(reactions, drops)) => recorded(
            s,
            kept_of_picks(s.reactions, reactions@, at_hand(s).drops@, drops@),
        ),
        (CurateStage::AwaitSave, _) => (
            CurateState { stage: CurateStage::AwaitEnd, ..s },
            CurateActionView::CleanUp,
        ),
        _ => (CurateState { stage: CurateStage::Done, ..s }, CurateActionView::Finish),
    }
}

/// Only what was offered is picked.
pub open spec fn picks_fit(picks: Seq<usize>, n: int) -> bool {
    forall|i: int| 0 <= i < picks.len() ==> (#[trigger] picks[i]) < n
}

/// The event answers the action that the session waits for.
pub open spec fn curate_answers(s: CurateState, e: CurateEvent) -> bool {
    match (s.stage, e) {
        (CurateStage::AwaitReactions, CurateEvent::Reactions(_)) => true,
        (CurateStage::AwaitReactions, _) => false,
        (CurateStage::AwaitPicks, CurateEvent::Picked(reactions, drops)) => picks_fit(
            reactions@,
            s.reactions.len() as int,
        ) && picks_fit(drops@, at_hand(s).drops@.len() as int),
        (CurateStage::AwaitPicks, _) => false,
        (_, CurateEvent::Proceed) => true,
        _ => false,
    }
}

/// The first `n` dungeons that are asked about are on the allowlist.
pub open spec fn curated_up_to(s: CurateState, n: int) -> bool {
    forall|k: int|
        0 <= k < n ==> s.curation.contains_key(s.dungeons[#[trigger] s.todo[k]].name@)
}

/// A state that a session can be in.
pub open spec fn curate_valid(s: CurateState) -> bool {
    &&& forall|k: int| 0 <= k < s.todo.len() ==> 0 <= #[trigger] s.todo[k] < s.dungeons.len()
    &&& 0 <= s.at <= s.todo.len()
    &&& s.stage is AwaitReactions || s.stage is AwaitPicks ==> s.at < s.todo.len()
    &&& s.stage is AwaitSave || s.stage is AwaitEnd || s.stage is Done ==> s.at == s.todo.len()
    &&& s.stage is AwaitSave ==> !s.dry_run
    &&& curated_up_to(s, s.at)
}

/// The state that a session starts from.
pub open spec fn curate_start(
    dry_run: bool,
    recurate: bool,
    dungeons: Seq<SnapshotDungeon>,
    curation: Map<Seq<char>, DungeonCurationView>,
) -> CurateState {
    CurateState {
        dry_run,
        dungeons,
        todo: asked(dungeons, curation, recurate, dungeons.len() as int),
        at: 0,
        curation,
        reactions: Seq::empty(),
        stage: CurateStage::Start,
    }
}

/// A session of the curator.
#[derive(Debug)]
pub struct CurateSession {
    dry_run: bool,
    dungeons: Vec<SnapshotDungeon>,
    todo: Vec<usize>,
    at: usize,
    curation: Curation,
    reactions: Vec<ReactionRow>,
    stage: CurateStage,
}

impl View for CurateSession {
    type V = CurateState;

    closed spec fn view(&self) -> CurateState {
        CurateState {
            dry_run: self.dry_run,
            dungeons: self.dungeons@,
            todo: self.todo@.map_values(|i: usize| i as int),
            at: self.at as int,
            curation: self.curation@,
            reactions: self.reactions@,
            stage: self.stage,
        }
    }
}

impl CurateSession {
    /// Begin a session over what the scraper saw. All dungeons are asked about where
    /// everything is curated anew, else those that are not on the allowlist.
    pub fn new(
        dry_run: bool,
        recurate: bool,
        dungeons: Vec<SnapshotDungeon>,
        curation: Curation,
    ) -> (r: Self)
        ensures
            r@ == curate_start(dry_run, recurate, dungeons@, curation@),
            curate_valid(r@),
    {
        let todo = dungeons_to_prompt(&dungeons, &curation, recurate);
        CurateSession {
            dry_run,
            dungeons,
            todo,
            at: 0,
            curation,
            reactions: Vec::new(),
            stage: CurateStage::Start,
        }
    }

    /// How many dungeons are asked about.
    pub fn asked_about(&self) -> (r: usize)
        ensures
            r == self@.todo.len(),
    {
        self.todo.len()
    }

    /// The allowlist.
    pub fn curation(&self) -> (r: &Curation)
        ensures
            r@ == self@.curation,
    {
        &self.curation
    }

    /// What the scraper saw.
    pub fn dungeons(&self) -> (r: &Vec<SnapshotDungeon>)
        ensures
            r@ == self@.dungeons,
    {
        &self.dungeons
    }

    fn next(&mut self) -> (r: CurateAction)
        requires
            forall|k: int|
                0 <= k < old(self)@.todo.len() ==> 0 <= #[trigger] old(self)@.todo[k]
                    < old(self)@.dungeons.len(),
        ensures
            (final(self)@, r@) == next_dungeon(old(self)@),
    {
        if self.at < self.todo.len() {
            let place: usize = self.todo[self.at];
            assert(self@.todo[self@.at] == place);
            self.stage = CurateStage::AwaitReactions;
            CurateAction::LoadReactions(own(&self.dungeons[place].name))
        } else if self.dry_run {
            self.stage = CurateStage::AwaitEnd;
            CurateAction::Preview
        } else {
            self.stage = CurateStage::AwaitSave;
            CurateAction::Save
        }
    }

    fn offer(&mut self, rows: Vec<ReactionRow>) -> (r: CurateAction)
        requires
            curate_valid(old(self)@),
            old(self)@.stage is AwaitReactions,
        ensures
            (final(self)@, r@) == curate_step(old(self)@, CurateEvent::Reactions(rows)),
    {
        let ghost s = self@;
        let place: usize = self.todo[self.at];
        assert(s.todo[s.at] == place);
        let ghost d = self.dungeons@[place as int];
        if is_bare(&rows, &self.dungeons[place].drops) {
            let name = own(&self.dungeons[place].name);
            self.curation.record(&name, keep_nothing());
            let n: usize = self.todo.len();
            assert(self.at < n);
            self.at = self.at + 1;
            return self.next();
        }
        let prior = self.curation.kept_of(&self.dungeons[place].name);
        let reactions = reaction_choices(&rows, prior);
        let drops = drop_choices(&self.dungeons[place].drops, prior);
        let ghost before = kept_before(s.curation, d.name@);
        assert(reactions@.labels =~= reaction_offer(rows@, before).labels);
        assert(reactions@.defaults =~= reaction_offer(rows@, before).defaults);
        assert(drops@.labels =~= drop_offer(d.drops@, before).labels);
        assert(drops@.defaults =~= drop_offer(d.drops@, before).defaults);
        let heading = prompt_header(
            place,
            self.dungeons.len(),
            &self.dungeons[place].display_name,
        );
        self.reactions = rows;
        self.stage = CurateStage::AwaitPicks;
        CurateAction::Ask(heading, reactions, drops)
    }

    fn pick(&mut self, reactions: Vec<usize>, drops: Vec<usize>) -> (r: CurateAction)
        requires
            curate_valid(old(self)@),
            old(self)@.stage is AwaitPicks,
            curate_answers(old(self)@, CurateEvent::Picked(reactions, drops)),
        ensures
            (final(self)@, r@) == curate_step(old(self)@, CurateEvent::Picked(reactions, drops)),
    {
        let ghost s = self@;
        let place: usize = self.todo[self.at];
        assert(s.todo[s.at] == place);
        let kept = kept_picks(&self.reactions, &reactions, &self.dungeons[place].drops, &drops);
        let name = own(&self.dungeons[place].name);
        self.curation.record(&name, kept);
        let n: usize = self.todo.len();
        assert(self.at < n);
        self.at = self.at + 1;
        self.next()
    }

    /// Take in what came of the last action, and say what to do next.
    pub fn step(&mut self, event: CurateEvent) -> (r: CurateAction)
        requires
            curate_valid(old(self)@),
            curate_answers(old(self)@, event),
        ensures
            (final(self)@, r@) == curate_step(old(self)@, event),
            curate_valid(final(self)@),
    {
        proof {
            steps_keep_curations_valid(self@, event);
        }
        match self.stage {
            CurateStage::Start => self.next(),
            CurateStage::AwaitReactions => match event {
                CurateEvent::Reactions(rows) => self.offer(rows),
                _ => CurateAction::Finish,
            },
            CurateStage::AwaitPicks => match event {
                CurateEvent::Picked(reactions, drops) => self.pick(reactions, drops),
                _ => CurateAction::Finish,
            },
            CurateStage::AwaitSave => {
                self.stage = CurateStage::AwaitEnd;
                CurateAction::CleanUp
            },
            CurateStage::AwaitEnd | CurateStage::Done => {
                self.stage = CurateStage::Done;
                CurateAction::Finish
            },
        }
    }
}

// ----- what every session keeps -------------------------------------------------------------

/// A step leads from a valid state to a valid one with the same dungeons.
pub proof fn steps_keep_curations_valid(s: CurateState, e: CurateEvent)
    requires
        curate_valid(s),
        curate_answers(s, e),
    ensures
        curate_valid(curate_step(s, e).0),
        curate_step(s, e).0.dry_run == s.dry_run,
        curate_step(s, e).0.dungeons == s.dungeons,
        curate_step(s, e).0.todo == s.todo,
{
}

/// Where a session stands after the first `n` events.
pub open spec fn after_curating(s: CurateState, events: Seq<CurateEvent>, n: nat) -> CurateState
    decreases n,
{
    if n == 0 {
        s
    } else {
        curate_step(after_curating(s, events, (n - 1) as nat), events[n - 1]).0
    }
}

/// Each event answers the action before it.
pub open spec fn curating_fits(s: CurateState, events: Seq<CurateEvent>) -> bool {
    forall|i: int|
        0 <= i < events.len() ==> curate_answers(
            after_curating(s, events, i as nat),
            #[trigger] events[i],
        )
}

proof fn curations_stay_valid(s: CurateState, events: Seq<CurateEvent>, n: nat)
    requires
        curate_valid(s),
        curating_fits(s, events),
        n <= events.len(),
    ensures
        curate_valid(after_curating(s, events, n)),
        after_curating(s, events, n).dry_run == s.dry_run,
        after_curating(s, events, n).dungeons == s.dungeons,
        after_curating(s, events, n).todo == s.todo,
    decreases n,
{
    if n > 0 {
        curations_stay_valid(s, events, (n - 1) as nat);
        assert(curate_answers(after_curating(s, events, (n - 1) as nat), events[n - 1]));
        steps_keep_curations_valid(after_curating(s, events, (n - 1) as nat), events[n - 1]);
    }
}

/// A dry run stores and deletes nothing, whatever is picked.
pub proof fn dry_curations_store_nothing(s: CurateState, events: Seq<CurateEvent>, n: int)
    requires
        curate_valid(s),
        s.dry_run,
        curating_fits(s, events),
        0 <= n < events.len(),
    ensures
        !(curate_step(after_curating(s, events, n as nat), events[n]).1 is Save),
        !(curate_step(after_curating(s, events, n as nat), events[n]).1 is CleanUp),
{
    curations_stay_valid(s, events, n as nat);
}

/// A session is stored only once every dungeon that it asks about is on the
/// allowlist, and cleans up only once it is stored.
pub proof fn sessions_are_stored_whole(s: CurateState, e: CurateEvent)
    requires
        curate_valid(s),
        curate_answers(s, e),
    ensures
        curate_step(s, e).1 is Save ==> curated_up_to(curate_step(s, e).0, s.todo.len() as int),
        curate_step(s, e).1 is CleanUp ==> s.stage is AwaitSave && !s.dry_run,
{
    steps_keep_curations_valid(s, e);
}

/// A step changes what is kept of the dungeon at hand and of no other.
pub proof fn other_dungeons_are_left_alone(s: CurateState, e: CurateEvent, name: Seq<char>)
    requires
        curate_valid(s),
        curate_answers(s, e),
        s.at < s.todo.len() ==> name != at_hand(s).name@,
    ensures
        kept_before(curate_step(s, e).0.curation, name) == kept_before(s.curation, name),
{
}

// ----- what is asked and what is kept --------------------------------------------------------------

/// Each reaction and each drop of a dungeon is offered, in order and once, and is checked
/// beforehand as what was kept before says.
pub proof fn everything_is_offered(
    reactions: Seq<ReactionRow>,
    drops: Seq<SnapshotEmoji>,
    prior: Option<DungeonCurationView>,
)
    ensures
        reaction_offer(reactions, prior).labels.len() == reactions.len(),
        reaction_offer(reactions, prior).defaults.len() == reactions.len(),
        forall|i: int|
            #![trigger reactions[i]]
            0 <= i < reactions.len() ==> reaction_offer(reactions, prior).labels[i]
                == reactions[i].display_name@ + " — "@ + reactions[i].name@,
        forall|i: int|
            #![trigger reactions[i]]
            0 <= i < reactions.len() ==> (reaction_offer(reactions, prior).defaults[i] <==> (prior
                is None || prior->0.reactions.contains(reactions[i].name@))),
        drop_offer(drops, prior).labels.len() == drops.len(),
        drop_offer(drops, prior).defaults.len() == drops.len(),
        forall|i: int|
            #![trigger drops[i]]
            0 <= i < drops.len() ==> drop_offer(drops, prior).labels[i] == drops[i].logical_name@,
        forall|i: int|
            #![trigger drops[i]]
            0 <= i < drops.len() ==> (drop_offer(drops, prior).defaults[i] <==> (prior is None
                || prior->0.drops.contains(drops[i].logical_name@))),
{
}

/// What was picked is kept, and nothing else: of the dungeon at hand, by name, and in the
/// order of the picks.
pub proof fn picks_are_kept(s: CurateState, reactions: Vec<usize>, drops: Vec<usize>)
    requires
        s.stage is AwaitPicks,
        0 <= s.at < s.todo.len(),
    ensures
        ({
            let d = s.dungeons[s.todo[s.at]];
            let t = curate_step(s, CurateEvent::Picked(reactions, drops)).0;
            &&& t.curation.contains_key(d.name@)
            &&& t.curation[d.name@].reactions.len() == reactions@.len()
            &&& t.curation[d.name@].drops.len() == drops@.len()
            &&& forall|i: int|
                0 <= i < reactions@.len() ==> #[trigger] t.curation[d.name@].reactions[i]
                    == s.reactions[reactions@[i] as int].name@
            &&& forall|i: int|
                0 <= i < drops@.len() ==> #[trigger] t.curation[d.name@].drops[i]
                    == d.drops@[drops@[i] as int].logical_name@
            &&& t.at == s.at + 1
        }),
{
}

/// A dungeon is asked about under its place among all, with its own reactions and drops
/// and what was kept of it before; one that has neither is kept as nothing, unasked.
pub proof fn dungeons_are_asked_about(s: CurateState, rows: Vec<ReactionRow>)
    requires
        s.stage is AwaitReactions,
        0 <= s.at < s.todo.len(),
    ensures
        ({
            let d = s.dungeons[s.todo[s.at]];
            let next = curate_step(s, CurateEvent::Reactions(rows));
            let prior = if s.curation.contains_key(d.name@) {
                Some(s.curation[d.name@])
            } else {
                None
            };
            let bare = rows@.len() == 0 && d.drops@.len() == 0;
            &&& bare ==> next.0.curation.contains_key(d.name@) && next.0.curation[d.name@].drops.len()
                == 0 && next.0.curation[d.name@].reactions.len() == 0 && next.0.at == s.at + 1
            &&& !bare ==> next == (
                CurateState { reactions: rows@, stage: CurateStage::AwaitPicks, ..s },
                CurateActionView::Ask(
                    "\n── ["@ + dec(s.todo[s.at] + 1) + "/"@ + dec(s.dungeons.len() as int) + "] "@
                        + d.display_name@ + " ──────────────────────────"@,
                    reaction_offer(rows@, prior),
                    drop_offer(d.drops@, prior),
                ),
            )
        }),
{
}

/// Behind each dungeon comes the next one, whose reactions are loaded by its name; behind
/// the last one the whole is stored, or shown in a dry run, and the store is cleaned up
/// after it was written.
pub proof fn dungeons_come_one_after_the_other(s: CurateState, reactions: Vec<usize>, drops: Vec<usize>)
    requires
        0 <= s.at < s.todo.len(),
    ensures
        s.stage is Start ==> curate_step(s, CurateEvent::Proceed) == (
            CurateState { stage: CurateStage::AwaitReactions, ..s },
            CurateActionView::LoadReactions(s.dungeons[s.todo[s.at]].name@),
        ),
        s.stage is AwaitPicks ==> {
            let next = curate_step(s, CurateEvent::Picked(reactions, drops));
            &&& s.at + 1 < s.todo.len() ==> next.0.stage is AwaitReactions && next.1
                == CurateActionView::LoadReactions(s.dungeons[s.todo[s.at + 1]].name@)
            &&& s.at + 1 == s.todo.len() && s.dry_run ==> next.0.stage is AwaitEnd && next.1
                is Preview
            &&& s.at + 1 == s.todo.len() && !s.dry_run ==> next.0.stage is AwaitSave && next.1
                is Save
        },
        s.stage is AwaitSave ==> curate_step(s, CurateEvent::Proceed).1 is CleanUp,
        s.stage is AwaitEnd ==> curate_step(s, CurateEvent::Proceed).1 is Finish,
{
}

/// The view of a `Choices` shows each of its fields as it is.
pub proof fn choices_shows_its_fields(x: Choices)
    ensures
        x@.labels == views(x.labels@),
        x@.defaults == x.defaults@,
{
}

} // verus!
