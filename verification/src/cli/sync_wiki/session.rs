//! A sync with the wiki from beginning to end, as a machine: the database is opened,
//! the registered emojis are wiped where that is asked for, the wiki is scraped, and
//! what it shows is written down. A dry run only reads and reports.
//!
//! The caller performs each action and hands back what came of it.

use vstd::prelude::*;

use crate::cli::sync_wiki::run::{
    answers, counters_have_room, dry_runs_write_nothing, purge_confirmed, run_start, run_valid,
    says_yes, steps_keep_runs_valid, sync_step, ActionView, DrySummary, EventView, SyncAction,
    SyncEvent, SyncRun, SyncState,
};
use crate::cli::sync_wiki::scrape::{entry_views, BagInfoView, DungeonEntry, EntryView};
use crate::name_map::NameMap;
use crate::templates::{dungeon_views, WikiDungeon, WikiDungeonView};
use crate::text::{cat3, dec, dec_usize, own, trimmed};
use crate::unicode::lowercase;

verus! {

/// Where a sync stands.
#[derive(Debug, Clone, Copy)]
pub enum Stage {
    /// At its beginning.
    Start,
    /// Waiting for the database.
    AwaitDatabase,
    /// Waiting for the emojis that are to be wiped.
    AwaitPurgeList,
    /// Waiting for the operator's answer.
    AwaitAnswer,
    /// Waiting for the emoji at this place to be deleted.
    AwaitDelete(usize),
    /// Waiting for the table to be emptied.
    AwaitTruncate,
    /// Waiting for the emojis that are registered.
    AwaitList,
    /// Waiting for the list of dungeons.
    AwaitDungeons,
    /// Scraping.
    Running,
    /// Waiting for the dump to be written, or for the report.
    AwaitEnd,
    /// Over.
    Done,
}

/// What came of the last action.
#[derive(Debug)]
pub enum SessionEvent {
    /// It was done, as far as it could be.
    Proceed,
    /// The emojis of the application by name, unless they could not be listed.
    Listed(Option<NameMap<(u64, bool)>>),
    /// What the operator answered.
    Answer(String),
    /// The dungeons of the wiki's list.
    Dungeons(Vec<DungeonEntry>),
    /// What came of an action of the scraper.
    Sync(SyncEvent),
}

/// Emojis by name, and their names in order.
pub type EmojisView = (Map<Seq<char>, (u64, bool)>, Seq<Seq<char>>);

/// What came of the last action, over views.
pub ghost enum SessionEventView {
    Proceed,
    Listed(Option<EmojisView>),
    Answer(Seq<char>),
    Dungeons(Seq<EntryView>),
    Sync(EventView),
}

impl View for SessionEvent {
    type V = SessionEventView;

    open spec fn view(&self) -> SessionEventView {
        match self {
            SessionEvent::Proceed => SessionEventView::Proceed,
            SessionEvent::Listed(Some(m)) => SessionEventView::Listed(Some((m@, m.order()))),
            SessionEvent::Listed(None) => SessionEventView::Listed(None),
            SessionEvent::Answer(t) => SessionEventView::Answer(t@),
            SessionEvent::Dungeons(d) => SessionEventView::Dungeons(entry_views(d@)),
            SessionEvent::Sync(e) => SessionEventView::Sync(e@),
        }
    }
}

/// What to do next.
#[derive(Debug)]
pub enum SessionAction {
    /// Open the database and bring its tables up to date.
    OpenDatabase,
    /// List the emojis that are to be wiped.
    ListForPurge,
    /// Ask the operator this.
    AskPurge(String),
    /// Delete the emoji of this name and id.
    Delete(String, u64),
    /// Empty the table of the emojis.
    Truncate,
    /// List the emojis that are registered.
    ListEmojis,
    /// Fetch the list of dungeons.
    FetchDungeonList,
    /// Do what the scraper says.
    Sync(SyncAction),
    /// Write what the wiki shows to the dump.
    WriteDump(Vec<WikiDungeon>),
    /// Report how many dungeons the dump would have, and what would have been done.
    Report(usize, DrySummary),
    /// The sync is over.
    Finish,
}

/// What to do next, over views.
pub ghost enum SessionActionView {
    OpenDatabase,
    ListForPurge,
    AskPurge(Seq<char>),
    Delete(Seq<char>, u64),
    Truncate,
    ListEmojis,
    FetchDungeonList,
    Sync(ActionView),
    WriteDump(Seq<WikiDungeonView>),
    Report(nat, DrySummary),
    Finish,
}

impl View for SessionAction {
    type V = SessionActionView;

    open spec fn view(&self) -> SessionActionView {
        match self {
            SessionAction::OpenDatabase => SessionActionView::OpenDatabase,
            SessionAction::ListForPurge => SessionActionView::ListForPurge,
            SessionAction::AskPurge(t) => SessionActionView::AskPurge(t@),
            SessionAction::Delete(n, id) => SessionActionView::Delete(n@, *id),
            SessionAction::Truncate => SessionActionView::Truncate,
            SessionAction::ListEmojis => SessionActionView::ListEmojis,
            SessionAction::FetchDungeonList => SessionActionView::FetchDungeonList,
            SessionAction::Sync(a) => SessionActionView::Sync(a@),
            SessionAction::WriteDump(d) => SessionActionView::WriteDump(dungeon_views(d@)),
            SessionAction::Report(n, s) => SessionActionView::Report(*n as nat, *s),
            SessionAction::Finish => SessionActionView::Finish,
        }
    }
}

/// The state of a sync, over views.
pub ghost struct SessionState {
    pub dry_run: bool,
    /// Whether the registered emojis are to be wiped first.
    pub purge: bool,
    /// Whether the operator is asked before they are.
    pub asks: bool,
    /// The emojis that are to be wiped.
    pub doomed: EmojisView,
    /// The emojis that are registered.
    pub existing: EmojisView,
    pub run: Option<SyncState>,
    pub stage: Stage,
}

/// No emojis.
pub open spec fn no_emojis() -> EmojisView {
    (Map::empty(), Seq::empty())
}

/// The emojis that were listed; none where they could not be.
pub open spec fn listed(o: Option<EmojisView>) -> EmojisView {
    match o {
        Some(m) => m,
        None => no_emojis(),
    }
}

/// What the operator is asked before everything is wiped.
pub open spec fn purge_prompt(n: int) -> Seq<char> {
    "--purge will DELETE "@ + dec(n)
        + " application emoji(s) and TRUNCATE bot_emoji. Proceed? [y/N] "@
}

/// Go on to the scraping.
pub open spec fn to_scrape(s: SessionState) -> (SessionState, SessionActionView) {
    (SessionState { stage: Stage::AwaitList, ..s }, SessionActionView::ListEmojis)
}

/// Wipe what is registered where that is asked for, but never in a dry run.
pub open spec fn to_purge(s: SessionState) -> (SessionState, SessionActionView) {
    if s.purge && !s.dry_run {
        (SessionState { stage: Stage::AwaitPurgeList, ..s }, SessionActionView::ListForPurge)
    } else {
        to_scrape(s)
    }
}

/// Delete the emojis from place `i` on, then empty the table.
pub open spec fn delete_from(s: SessionState, i: int) -> (SessionState, SessionActionView) {
    let (emojis, names) = s.doomed;
    if 0 <= i < names.len() {
        (
            SessionState { stage: Stage::AwaitDelete(i as usize), ..s },
            SessionActionView::Delete(names[i], emojis[names[i]].0),
        )
    } else {
        (SessionState { stage: Stage::AwaitTruncate, ..s }, SessionActionView::Truncate)
    }
}

/// One step of the scraper. Once it is done, the dump is written, or in a dry run
/// only reported.
pub open spec fn scrape_step(s: SessionState, e: EventView) -> (SessionState, SessionActionView) {
    let (run, action) = sync_step(s.run->0, e);
    if action is Finish {
        (
            SessionState { run: None, stage: Stage::AwaitEnd, ..s },
            if s.dry_run {
                SessionActionView::Report(run.dump.len(), run.summary)
            } else {
                SessionActionView::WriteDump(run.dump)
            },
        )
    } else {
        (SessionState { run: Some(run), ..s }, SessionActionView::Sync(action))
    }
}

/// One step of a sync.
pub open spec fn session_step(s: SessionState, e: SessionEventView) -> (
    SessionState,
    SessionActionView,
) {
    match (s.stage, e) {
        (Stage::Start, _) => if s.dry_run {
            to_scrape(s)
        } else {
            (SessionState { stage: Stage::AwaitDatabase, ..s }, SessionActionView::OpenDatabase)
        },
        (Stage::AwaitDatabase, _) => to_purge(s),
        (Stage::AwaitPurgeList, SessionEventView::Listed(o)) => {
            let known = SessionState { doomed: listed(o), ..s };
            if s.asks {
                (
                    SessionState { stage: Stage::AwaitAnswer, ..known },
                    SessionActionView::AskPurge(purge_prompt(listed(o).1.len() as int)),
                )
            } else {
                delete_from(known, 0)
            }
        },
        (Stage::AwaitAnswer, SessionEventView::Answer(t)) => if says_yes(t) {
            delete_from(s, 0)
        } else {
            to_scrape(s)
        },
        (Stage::AwaitDelete(i), _) => delete_from(s, i + 1),
        (Stage::AwaitTruncate, _) => to_scrape(s),
        (Stage::AwaitList, SessionEventView::Listed(o)) => (
            SessionState { existing: listed(o), stage: Stage::AwaitDungeons, ..s },
            SessionActionView::FetchDungeonList,
        ),
        (Stage::AwaitDungeons, SessionEventView::Dungeons(d)) => (
            SessionState {
                existing: no_emojis(),
                run: Some(run_start(s.dry_run, d, s.existing.0)),
                stage: Stage::Running,
                ..s
            },
            SessionActionView::Sync(ActionView::Proceed),
        ),
        (Stage::Running, SessionEventView::Sync(x)) => scrape_step(s, x),
        _ => (SessionState { stage: Stage::Done, ..s }, SessionActionView::Finish),
    }
}

/// The event answers the action that the sync waits for.
pub open spec fn session_answers(s: SessionState, e: SessionEventView) -> bool {
    match s.stage {
        Stage::AwaitPurgeList | Stage::AwaitList => e is Listed,
        Stage::AwaitAnswer => e is Answer,
        Stage::AwaitDungeons => e is Dungeons,
        Stage::Running => match e {
            SessionEventView::Sync(x) => answers(s.run->0.phase, x),
            _ => false,
        },
        _ => e is Proceed,
    }
}

/// A state that a sync can be in: what is wiped was to be wiped, and a dry run has
/// no database.
pub open spec fn session_valid(s: SessionState) -> bool {
    &&& s.stage is Running ==> s.run is Some && run_valid(s.run->0) && s.run->0.dry_run == s.dry_run
    &&& s.stage is AwaitDatabase ==> !s.dry_run
    &&& s.stage is AwaitPurgeList || s.stage is AwaitAnswer || s.stage is AwaitDelete
        || s.stage is AwaitTruncate ==> s.purge && !s.dry_run
    &&& s.stage matches Stage::AwaitDelete(i) ==> i < s.doomed.1.len()
    &&& s.doomed.1.len() <= usize::MAX
}

/// The state that a sync starts from.
pub open spec fn session_start(dry_run: bool, purge: bool, asks: bool) -> SessionState {
    SessionState {
        dry_run,
        purge,
        asks,
        doomed: no_emojis(),
        existing: no_emojis(),
        run: None,
        stage: Stage::Start,
    }
}

/// A sync with the wiki.
#[derive(Debug)]
pub struct SyncSession {
    dry_run: bool,
    purge: bool,
    asks: bool,
    doomed: NameMap<(u64, bool)>,
    existing: NameMap<(u64, bool)>,
    run: Option<SyncRun>,
    stage: Stage,
}

impl View for SyncSession {
    type V = SessionState;

    closed spec fn view(&self) -> SessionState {
        SessionState {
            dry_run: self.dry_run,
            purge: self.purge,
            asks: self.asks,
            doomed: (self.doomed@, self.doomed.order()),
            existing: (self.existing@, self.existing.order()),
            run: match self.run {
                Some(r) => Some(r@),
                None => None,
            },
            stage: self.stage,
        }
    }
}

/// The counters of a sync: those of its scraper.
pub open spec fn session_summary(s: SessionState) -> DrySummary {
    match s.run {
        Some(r) => r.summary,
        None => DrySummary { existing_reused: 0, would_upload: 0, would_upsert_emoji: 0 },
    }
}

impl SyncSession {
    /// Begin a sync. `asks` says whether the operator is asked before the registered
    /// emojis are wiped.
    pub fn new(dry_run: bool, purge: bool, asks: bool) -> (r: Self)
        ensures
            r@ == session_start(dry_run, purge, asks),
            session_valid(r@),
    {
        SyncSession {
            dry_run,
            purge,
            asks,
            doomed: NameMap::new(),
            existing: NameMap::new(),
            run: None,
            stage: Stage::Start,
        }
    }

    /// The counters of the scraper.
    pub fn summary(&self) -> (r: DrySummary)
        ensures
            r == session_summary(self@),
    {
        match &self.run {
            Some(run) => run.summary(),
            None => DrySummary { existing_reused: 0, would_upload: 0, would_upsert_emoji: 0 },
        }
    }

    fn scrape(&mut self) -> (r: SessionAction)
        ensures
            (final(self)@, r@) == to_scrape(old(self)@),
    {
        self.stage = Stage::AwaitList;
        SessionAction::ListEmojis
    }

    fn delete(&mut self, i: usize) -> (r: SessionAction)
        ensures
            (final(self)@, r@) == delete_from(old(self)@, i as int),
    {
        if i < self.doomed.len() {
            let name = own(self.doomed.name_at(i));
            let id: u64 = self.doomed.value_at(i).0;
            self.stage = Stage::AwaitDelete(i);
            SessionAction::Delete(name, id)
        } else {
            self.stage = Stage::AwaitTruncate;
            SessionAction::Truncate
        }
    }

    fn doom(&mut self, emojis: Option<NameMap<(u64, bool)>>) -> (r: SessionAction)
        requires
            old(self)@.stage is AwaitPurgeList,
        ensures
            (final(self)@, r@) == session_step(
                old(self)@,
                SessionEvent::Listed(emojis)@,
            ),
            final(self)@.doomed.1.len() <= usize::MAX,
    {
        self.doomed = match emojis {
            Some(m) => m,
            None => NameMap::new(),
        };
        let n: usize = self.doomed.len();
        if self.asks {
            self.stage = Stage::AwaitAnswer;
            SessionAction::AskPurge(
                cat3(
                    "--purge will DELETE ",
                    &dec_usize(n),
                    " application emoji(s) and TRUNCATE bot_emoji. Proceed? [y/N] ",
                ),
            )
        } else {
            self.delete(0)
        }
    }

    fn begin_scraping(&mut self, dungeons: Vec<DungeonEntry>) -> (r: SessionAction)
        requires
            old(self)@.stage is AwaitDungeons,
        ensures
            (final(self)@, r@) == session_step(
                old(self)@,
                SessionEventView::Dungeons(entry_views(dungeons@)),
            ),
            session_valid(old(self)@) ==> session_valid(final(self)@),
    {
        let mut existing: NameMap<(u64, bool)> = NameMap::new();
        std::mem::swap(&mut existing, &mut self.existing);
        self.run = Some(SyncRun::new(self.dry_run, dungeons, existing));
        self.stage = Stage::Running;
        SessionAction::Sync(SyncAction::Proceed)
    }

    fn scrape_on(&mut self, event: SyncEvent) -> (r: SessionAction)
        requires
            session_valid(old(self)@),
            old(self)@.stage is Running,
            answers(old(self)@.run->0.phase, event@),
            counters_have_room(session_summary(old(self)@)),
        ensures
            (final(self)@, r@) == scrape_step(old(self)@, event@),
            session_valid(final(self)@),
    {
        let mut taken: Option<SyncRun> = None;
        std::mem::swap(&mut taken, &mut self.run);
        match taken {
            Some(mut run) => {
                proof {
                    dry_or_not_stays(run@, event@);
                }
                let action = run.step(event);
                match action {
                    SyncAction::Finish => {
                        self.stage = Stage::AwaitEnd;
                        let summary = run.summary();
                        let dump = run.into_dump();
                        if self.dry_run {
                            SessionAction::Report(dump.len(), summary)
                        } else {
                            SessionAction::WriteDump(dump)
                        }
                    },
                    _ => {
                        self.run = Some(run);
                        SessionAction::Sync(action)
                    },
                }
            },
            None => SessionAction::Finish,
        }
    }

    /// Take in what came of the last action, and say what to do next.
    pub fn step(&mut self, event: SessionEvent) -> (r: SessionAction)
        requires
            session_valid(old(self)@),
            session_answers(old(self)@, event@),
            counters_have_room(session_summary(old(self)@)),
        ensures
            (final(self)@, r@) == session_step(old(self)@, event@),
            session_valid(final(self)@),
    {
        match self.stage {
            Stage::Start => if self.dry_run {
                self.scrape()
            } else {
                self.stage = Stage::AwaitDatabase;
                SessionAction::OpenDatabase
            },
            Stage::AwaitDatabase => if self.purge {
                self.stage = Stage::AwaitPurgeList;
                SessionAction::ListForPurge
            } else {
                self.scrape()
            },
            Stage::AwaitPurgeList => match event {
                SessionEvent::Listed(emojis) => self.doom(emojis),
                _ => SessionAction::Finish,
            },
            Stage::AwaitAnswer => match event {
                SessionEvent::Answer(t) => if purge_confirmed(&t) {
                    self.delete(0)
                } else {
                    self.scrape()
                },
                _ => SessionAction::Finish,
            },
            Stage::AwaitDelete(i) => self.delete(i + 1),
            Stage::AwaitTruncate => self.scrape(),
            Stage::AwaitList => match event {
                SessionEvent::Listed(emojis) => {
                    self.existing = match emojis {
                        Some(m) => m,
                        None => NameMap::new(),
                    };
                    self.stage = Stage::AwaitDungeons;
                    SessionAction::FetchDungeonList
                },
                _ => SessionAction::Finish,
            },
            Stage::AwaitDungeons => match event {
                SessionEvent::Dungeons(dungeons) => self.begin_scraping(dungeons),
                _ => SessionAction::Finish,
            },
            Stage::Running => match event {
                SessionEvent::Sync(e) => self.scrape_on(e),
                _ => SessionAction::Finish,
            },
            Stage::AwaitEnd | Stage::Done => {
                self.stage = Stage::Done;
                SessionAction::Finish
            },
        }
    }
}

proof fn dry_or_not_stays(s: SyncState, e: EventView)
    requires
        run_valid(s),
        answers(s.phase, e),
    ensures
        sync_step(s, e).0.dry_run == s.dry_run,
        run_valid(sync_step(s, e).0),
{
    steps_keep_runs_valid(s, e);
}

// ----- what the operator is told --------------------------------------------------------

/// What is told of the emoji that a step of the scraper was about.
#[derive(Debug, Clone, Copy, PartialEq, Eq, Structural)]
pub enum Told {
    /// Nothing.
    Nothing,
    /// It was uploaded.
    New,
    /// It is registered already.
    Reused,
    /// It would have been uploaded.
    Skipped,
}

/// What is told of a step with this outcome of the action before it: a row that is
/// written without an upload is for an emoji that is registered already, and in a dry
/// run the counters say what would have been done.
pub open spec fn told_of(
    uploaded: bool,
    before: DrySummary,
    after: DrySummary,
    next: SessionActionView,
) -> Told {
    if uploaded {
        Told::New
    } else if next matches SessionActionView::Sync(a) && a is WriteRow {
        Told::Reused
    } else if after.existing_reused > before.existing_reused {
        Told::Reused
    } else if after.would_upload > before.would_upload {
        Told::Skipped
    } else {
        Told::Nothing
    }
}

/// What is told of a step.
pub fn told(uploaded: bool, before: DrySummary, after: DrySummary, next: &SessionAction) -> (r: Told)
    ensures
        r == told_of(uploaded, before, after, next@),
{
    if uploaded {
        return Told::New;
    }
    if let SessionAction::Sync(SyncAction::WriteRow(_)) = next {
        return Told::Reused;
    }
    if after.existing_reused > before.existing_reused {
        Told::Reused
    } else if after.would_upload > before.would_upload {
        Told::Skipped
    } else {
        Told::Nothing
    }
}

// ----- what every sync keeps --------------------------------------------------------------

/// The action changes something: the database, the emojis of the application, or the
/// dump.
pub open spec fn changes(a: SessionActionView) -> bool {
    match a {
        SessionActionView::OpenDatabase
        | SessionActionView::Delete(_, _)
        | SessionActionView::Truncate
        | SessionActionView::WriteDump(_) => true,
        SessionActionView::Sync(x) => x is Upload || x is WriteRow,
        _ => false,
    }
}

/// What the flags of a sync were, they stay.
pub open spec fn same_flags(a: SessionState, b: SessionState) -> bool {
    a.dry_run == b.dry_run && a.purge == b.purge && a.asks == b.asks
}

/// A step leads from a valid state to a valid one with the same flags.
pub proof fn steps_keep_sessions_valid(s: SessionState, e: SessionEventView)
    requires
        session_valid(s),
        session_answers(s, e),
        e matches SessionEventView::Listed(Some(m)) ==> m.1.len() <= usize::MAX,
    ensures
        session_valid(session_step(s, e).0),
        same_flags(session_step(s, e).0, s),
{
    if let SessionEventView::Sync(x) = e {
        if s.stage is Running {
            dry_or_not_stays(s.run->0, x);
        }
    }
}

/// Where a sync stands after the first `n` events.
pub open spec fn after_events(s: SessionState, events: Seq<SessionEventView>, n: nat) -> SessionState
    decreases n,
{
    if n == 0 {
        s
    } else {
        session_step(after_events(s, events, (n - 1) as nat), events[n - 1]).0
    }
}

/// Each event answers the action before it.
pub open spec fn events_fit(s: SessionState, events: Seq<SessionEventView>) -> bool {
    forall|i: int|
        0 <= i < events.len() ==> session_answers(
            after_events(s, events, i as nat),
            #[trigger] events[i],
        ) && (events[i] matches SessionEventView::Listed(Some(m)) ==> m.1.len() <= usize::MAX)
}

proof fn sessions_stay_valid(s: SessionState, events: Seq<SessionEventView>, n: nat)
    requires
        session_valid(s),
        events_fit(s, events),
        n <= events.len(),
    ensures
        session_valid(after_events(s, events, n)),
        same_flags(after_events(s, events, n), s),
    decreases n,
{
    if n > 0 {
        sessions_stay_valid(s, events, (n - 1) as nat);
        assert(session_answers(after_events(s, events, (n - 1) as nat), events[n - 1]));
        steps_keep_sessions_valid(after_events(s, events, (n - 1) as nat), events[n - 1]);
    }
}

/// A dry run changes nothing, whatever happens and whether or not everything was to
/// be wiped: no database is opened, no emoji is uploaded or deleted, no row is
/// written or dropped, and no dump is written.
pub proof fn dry_runs_change_nothing(
    purge: bool,
    asks: bool,
    events: Seq<SessionEventView>,
    n: int,
)
    requires
        events_fit(session_start(true, purge, asks), events),
        0 <= n < events.len(),
    ensures
        !changes(
            session_step(
                after_events(session_start(true, purge, asks), events, n as nat),
                events[n],
            ).1,
        ),
{
    let start = session_start(true, purge, asks);
    let s = after_events(start, events, n as nat);
    sessions_stay_valid(start, events, n as nat);
    assert(session_answers(s, events[n]));
    if let SessionEventView::Sync(x) = events[n] {
        if s.stage is Running {
            dry_runs_write_nothing(s.run->0, x);
        }
    }
}

/// Nothing is wiped unless that was asked for outside of a dry run, and where the
/// operator is asked, unless they said yes.
pub proof fn nothing_is_wiped_unasked(s: SessionState, e: SessionEventView)
    requires
        session_valid(s),
        session_answers(s, e),
        session_step(s, e).1 is Delete || session_step(s, e).1 is Truncate,
    ensures
        s.purge,
        !s.dry_run,
        s.asks && !(s.stage is AwaitDelete) ==> e is Answer && says_yes(e->Answer_0),
{
}

/// Wiping leaves no emoji out: they are deleted one after the other, and the table is
/// emptied behind the last.
pub proof fn wiping_leaves_nothing_out(s: SessionState, i: int)
    requires
        session_valid(s),
        s.stage is AwaitDelete,
        s.stage->AwaitDelete_0 == i,
    ensures
        ({
            let next = session_step(s, SessionEventView::Proceed);
            if i + 1 < s.doomed.1.len() {
                next.0.stage == Stage::AwaitDelete((i + 1) as usize) && next.1
                    == SessionActionView::Delete(
                    s.doomed.1[i + 1],
                    s.doomed.0[s.doomed.1[i + 1]].0,
                )
            } else {
                next.1 is Truncate
            }
        }),
{
}

/// A sync that is not a dry run opens the database before anything else, and writes
/// the dump once the scraper is done.
pub proof fn live_runs_write_the_dump(s: SessionState, e: SessionEventView)
    requires
        session_valid(s),
        session_answers(s, e),
        !s.dry_run,
    ensures
        s.stage is Start ==> session_step(s, e).1 is OpenDatabase,
        s.stage is Running && sync_step(s.run->0, e->Sync_0).1 is Finish ==> session_step(s, e).1
            == SessionActionView::WriteDump(sync_step(s.run->0, e->Sync_0).0.dump),
{
}

/// A live run opens the database, and then wipes where that was asked for; else it goes on
/// to list the emojis. A dry run begins with that.
pub proof fn sessions_begin_as_asked(s: SessionState)
    ensures
        s.stage is Start && s.dry_run ==> session_step(s, SessionEventView::Proceed) == (
            SessionState { stage: Stage::AwaitList, ..s },
            SessionActionView::ListEmojis,
        ),
        s.stage is Start && !s.dry_run ==> session_step(s, SessionEventView::Proceed) == (
            SessionState { stage: Stage::AwaitDatabase, ..s },
            SessionActionView::OpenDatabase,
        ),
        s.stage is AwaitDatabase && s.purge && !s.dry_run ==> session_step(
            s,
            SessionEventView::Proceed,
        ) == (SessionState { stage: Stage::AwaitPurgeList, ..s }, SessionActionView::ListForPurge),
        s.stage is AwaitDatabase && !s.purge ==> session_step(s, SessionEventView::Proceed) == (
            SessionState { stage: Stage::AwaitList, ..s },
            SessionActionView::ListEmojis,
        ),
        s.stage is AwaitTruncate ==> session_step(s, SessionEventView::Proceed) == (
            SessionState { stage: Stage::AwaitList, ..s },
            SessionActionView::ListEmojis,
        ),
{
}

/// Where a person is there to ask, the question says how many emojis would go, and only a
/// yes wipes them, from the first on; any other answer leaves them and goes on. Where
/// nobody is there, they are wiped at once. A list that could not be had is an empty one.
pub proof fn wiping_follows_the_answer(s: SessionState, emojis: EmojisView, answer: Seq<char>)
    requires
        s.stage is AwaitPurgeList || s.stage is AwaitAnswer,
    ensures
        s.stage is AwaitPurgeList && s.asks ==> session_step(
            s,
            SessionEventView::Listed(Some(emojis)),
        ) == (
            SessionState { doomed: emojis, stage: Stage::AwaitAnswer, ..s },
            SessionActionView::AskPurge(
                "--purge will DELETE "@ + dec(emojis.1.len() as int)
                    + " application emoji(s) and TRUNCATE bot_emoji. Proceed? [y/N] "@,
            ),
        ),
        s.stage is AwaitPurgeList && !s.asks && emojis.1.len() > 0 ==> session_step(
            s,
            SessionEventView::Listed(Some(emojis)),
        ) == (
            SessionState { doomed: emojis, stage: Stage::AwaitDelete(0), ..s },
            SessionActionView::Delete(emojis.1[0], emojis.0[emojis.1[0]].0),
        ),
        s.stage is AwaitPurgeList && !s.asks && emojis.1.len() == 0 ==> session_step(
            s,
            SessionEventView::Listed(Some(emojis)),
        ).1 is Truncate,
        s.stage is AwaitPurgeList && !s.asks ==> session_step(
            s,
            SessionEventView::Listed(None),
        ).1 is Truncate,
        s.stage is AwaitAnswer && (lowercase(trimmed(answer)) == "y"@ || lowercase(trimmed(answer))
            == "yes"@) ==> {
            let next = session_step(s, SessionEventView::Answer(answer));
            &&& s.doomed.1.len() == 0 ==> next.1 is Truncate
            &&& s.doomed.1.len() > 0 ==> next.1 == SessionActionView::Delete(
                s.doomed.1[0],
                s.doomed.0[s.doomed.1[0]].0,
            ) && next.0.stage == Stage::AwaitDelete(0)
        },
        s.stage is AwaitAnswer && lowercase(trimmed(answer)) != "y"@ && lowercase(trimmed(answer))
            != "yes"@ ==> session_step(s, SessionEventView::Answer(answer)) == (
            SessionState { stage: Stage::AwaitList, ..s },
            SessionActionView::ListEmojis,
        ),
{
}

/// The run starts with the dungeons that were found and with the emojis that the
/// application has; a list of emojis that could not be had is an empty one.
pub proof fn runs_start_from_what_was_listed(
    s: SessionState,
    emojis: Option<EmojisView>,
    dungeons: Seq<EntryView>,
)
    ensures
        s.stage is AwaitList ==> {
            let next = session_step(s, SessionEventView::Listed(emojis));
            &&& next.1 is FetchDungeonList && next.0.stage is AwaitDungeons
            &&& emojis is Some ==> next.0.existing == emojis->0
            &&& emojis is None ==> next.0.existing.0 == Map::<Seq<char>, (u64, bool)>::empty()
        },
        s.stage is AwaitDungeons ==> {
            let next = session_step(s, SessionEventView::Dungeons(dungeons)).0;
            &&& next.stage is Running && next.run is Some
            &&& next.run->0.dry_run == s.dry_run && next.run->0.dungeons == dungeons
            &&& next.run->0.existing == s.existing.0
            &&& next.run->0.at == 0 && next.run->0.phase is Dungeon && next.run->0.dump.len() == 0
            &&& next.run->0.bag_tiers.len() == 0 && next.run->0.summary.existing_reused == 0
            &&& next.run->0.summary.would_upload == 0 && next.run->0.summary.would_upsert_emoji == 0
            &&& next.run->0.pages == Map::<Seq<char>, BagInfoView>::empty()
        },
{
}

/// While a run goes on, the session does what the run asks for; when it ends, a live one
/// writes down what was found, and a dry one reports how much was, with its counts.
pub proof fn sessions_do_what_runs_ask(s: SessionState, e: EventView)
    requires
        s.stage is Running,
    ensures
        ({
            let (run, action) = sync_step(s.run->0, e);
            let next = session_step(s, SessionEventView::Sync(e));
            &&& !(action is Finish) ==> next == (
                SessionState { run: Some(run), ..s },
                SessionActionView::Sync(action),
            )
            &&& action is Finish && !s.dry_run ==> next == (
                SessionState { run: None, stage: Stage::AwaitEnd, ..s },
                SessionActionView::WriteDump(run.dump),
            )
            &&& action is Finish && s.dry_run ==> next == (
                SessionState { run: None, stage: Stage::AwaitEnd, ..s },
                SessionActionView::Report(run.dump.len(), run.summary),
            )
        }),
{
}

/// What is told of a step: a new emoji after an upload; a reused one where a row is
/// written without one, or where a dry run counted it as such; a skipped one where a dry
/// run would have uploaded; else nothing.
pub proof fn steps_are_told_as_they_went(
    uploaded: bool,
    before: DrySummary,
    after: DrySummary,
    next: SessionActionView,
)
    ensures
        ({
            let row = next is Sync && next->Sync_0 is WriteRow;
            let told = told_of(uploaded, before, after, next);
            &&& told is New <==> uploaded
            &&& told is Reused <==> !uploaded && (row || after.existing_reused
                > before.existing_reused)
            &&& told is Skipped <==> !uploaded && !row && after.existing_reused
                <= before.existing_reused && after.would_upload > before.would_upload
        }),
{
}

} // verus!
