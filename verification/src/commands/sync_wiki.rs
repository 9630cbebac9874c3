//! `/sync-wiki`: who may run it, and how a run's progress is shown.

use vstd::prelude::*;
use vstd::string::StrSliceExecFns;

use crate::commands::upload_emoji::NOT_AUTHORIZED;
use crate::text::{
    cat2, cat3, cat4, cat5, dec, dec_nat, dec_u64, dec_usize, digit_char, occurs, occurs_at, opt_view, own,
    parts_occur, same, take_chars, Text,
};

verus! {

/// What the operator types to confirm that everything is wiped first.
pub const PURGE_CONFIRM_TOKEN: &'static str = "PURGE";

/// What the operator is told where the `purge` parameter is not the confirmation.
pub open spec fn unclear_text(got: Seq<char>) -> Seq<char> {
    "The `purge` parameter must be the exact string `PURGE` to confirm. Got `"@ + got
        + "`. Run aborted."@
}

/// What the operator is told where the `purge` parameter is not the confirmation.
pub fn purge_unclear(got: &str) -> (r: String)
    ensures
        r@ == unclear_text(got@),
{
    cat3(
        "The `purge` parameter must be the exact string `PURGE` to confirm. Got `",
        got,
        "`. Run aborted.",
    )
}

/// What the operator is told where a run is under way.
pub const ALREADY_RUNNING: &'static str =
    "Another `/sync-wiki` (or shell-side `starship sync-wiki`) is already \
    running. Wait for it to finish and try again.";

/// What the operator is told where the lock could not be asked for.
pub open spec fn lock_failed_text(e: Seq<char>) -> Seq<char> {
    "Failed to acquire run lock: `"@ + e + "`."@
}

/// What the operator is told where the lock could not be asked for.
pub fn lock_failed(e: &str) -> (r: String)
    ensures
        r@ == lock_failed_text(e@),
{
    cat3("Failed to acquire run lock: `", e, "`.")
}

// ----- who may run it ---------------------------------------------------------------------

/// What came of asking for the lock that lets one run at a time.
#[derive(Debug)]
pub enum LockAnswer {
    /// It is held now.
    Held,
    /// Another run holds it.
    Busy,
    /// It could not be asked for, and why.
    Failed(String),
}

/// What to do about a request for a run.
#[derive(Debug)]
pub enum SyncRequestStep {
    /// Say this, and do nothing.
    Refuse(String),
    /// Ask for the lock.
    AskLock,
    /// Run, and wipe everything first where it is true.
    Run(bool),
}

/// What to do about a request for a run, over views.
pub ghost enum SyncRequestView {
    Refuse(Seq<char>),
    AskLock,
    Run(bool),
}

impl View for SyncRequestStep {
    type V = SyncRequestView;

    open spec fn view(&self) -> SyncRequestView {
        match self {
            SyncRequestStep::Refuse(t) => SyncRequestView::Refuse(t@),
            SyncRequestStep::AskLock => SyncRequestView::AskLock,
            SyncRequestStep::Run(purge) => SyncRequestView::Run(*purge),
        }
    }
}

/// The `purge` parameter is left out, or confirms.
pub open spec fn purge_clear(purge: Option<Seq<char>>) -> bool {
    match purge {
        Some(s) => s == PURGE_CONFIRM_TOKEN@,
        None => true,
    }
}

/// What to do about a request for a run: only the operator may ask, the `purge`
/// parameter must be clear, and no other run may be under way. The lock is asked for
/// last.
pub open spec fn sync_request(
    operator: bool,
    purge: Option<Seq<char>>,
    lock: Option<LockAnswer>,
) -> SyncRequestView {
    if !operator {
        SyncRequestView::Refuse(NOT_AUTHORIZED@)
    } else if !purge_clear(purge) {
        SyncRequestView::Refuse(unclear_text(purge->0))
    } else {
        match lock {
            None => SyncRequestView::AskLock,
            Some(LockAnswer::Held) => SyncRequestView::Run(purge is Some),
            Some(LockAnswer::Busy) => SyncRequestView::Refuse(ALREADY_RUNNING@),
            Some(LockAnswer::Failed(e)) => SyncRequestView::Refuse(lock_failed_text(e@)),
        }
    }
}

/// What to do next about a request for a run.
pub fn sync_request_step(operator: bool, purge: &Option<String>, lock: Option<LockAnswer>) -> (r:
    SyncRequestStep)
    ensures
        r@ == sync_request(operator, opt_view(*purge), lock),
{
    if !operator {
        return SyncRequestStep::Refuse(own(NOT_AUTHORIZED));
    }
    if let Some(got) = purge {
        if !same(got, PURGE_CONFIRM_TOKEN) {
            return SyncRequestStep::Refuse(purge_unclear(got));
        }
    }
    match lock {
        None => SyncRequestStep::AskLock,
        Some(LockAnswer::Held) => SyncRequestStep::Run(purge.is_some()),
        Some(LockAnswer::Busy) => SyncRequestStep::Refuse(own(ALREADY_RUNNING)),
        Some(LockAnswer::Failed(e)) => SyncRequestStep::Refuse(lock_failed(&e)),
    }
}

/// Nothing is locked, and nothing is run, unless the operator asks and the `purge`
/// parameter is clear; nothing is run without the lock, and nothing is wiped without
/// the confirmation.
pub proof fn runs_are_asked_for_in_order(
    operator: bool,
    purge: Option<Seq<char>>,
    lock: Option<LockAnswer>,
)
    ensures
        !(sync_request(operator, purge, lock) is Refuse) ==> operator && purge_clear(purge),
        sync_request(operator, purge, lock) is AskLock ==> lock is None,
        sync_request(operator, purge, lock) matches SyncRequestView::Run(wipe) ==> lock
            == Some(LockAnswer::Held) && wipe == (purge == Some(PURGE_CONFIRM_TOKEN@)),
{
}

// ----- progress ------------------------------------------------------------------------

/// Something that happened during a run.
#[derive(Debug)]
pub enum ProgressEvent {
    /// A phase began.
    Phase(String),
    /// A dungeon began.
    DungeonStart {
        /// Its name.
        name: String,
        /// Its place in the list, from 1.
        index: usize,
        /// The length of the list.
        total: usize,
    },
    /// Something went wrong.
    Warning(String),
    /// An emoji was uploaded.
    UploadNew,
    /// An emoji was registered already.
    UploadReused,
    /// An emoji would have been uploaded.
    UploadSkipped,
}

/// What a run has done.
#[derive(Debug, Clone, Copy)]
pub struct SyncSummary {
    /// Dungeons read.
    pub dungeons_scraped: usize,
    /// Emojis uploaded.
    pub uploads_new: usize,
    /// Emojis that were registered already.
    pub uploads_reused: usize,
    /// Emojis that would have been uploaded.
    pub uploads_skipped_dry: usize,
    /// Rows that would have been written.
    pub upserts_skipped_dry: usize,
    /// Warnings.
    pub warnings: usize,
}

/// How far a run is.
#[derive(Debug)]
pub struct ProgressState {
    /// Whether nothing is written.
    pub dry_run: bool,
    /// Whether everything was wiped first.
    pub purge: bool,
    /// The phase.
    pub phase: String,
    /// The dungeon at hand, its place and the length of the list.
    pub current_dungeon: Option<(String, usize, usize)>,
    /// Emojis uploaded.
    pub uploads_new: usize,
    /// Emojis that were registered already.
    pub uploads_reused: usize,
    /// Emojis that would have been uploaded.
    pub uploads_skipped: usize,
    /// Warnings.
    pub warnings: usize,
    /// The last warning.
    pub last_warning: Option<String>,
}

/// How far a run is, over views.
pub ghost struct ProgressView {
    pub dry_run: bool,
    pub purge: bool,
    pub phase: Seq<char>,
    pub current_dungeon: Option<(Seq<char>, usize, usize)>,
    pub uploads_new: int,
    pub uploads_reused: int,
    pub uploads_skipped: int,
    pub warnings: int,
    pub last_warning: Option<Seq<char>>,
}

impl View for ProgressState {
    type V = ProgressView;

    open spec fn view(&self) -> ProgressView {
        ProgressView {
            dry_run: self.dry_run,
            purge: self.purge,
            phase: self.phase@,
            current_dungeon: match self.current_dungeon {
                Some(d) => Some((d.0@, d.1, d.2)),
                None => None,
            },
            uploads_new: self.uploads_new as int,
            uploads_reused: self.uploads_reused as int,
            uploads_skipped: self.uploads_skipped as int,
            warnings: self.warnings as int,
            last_warning: opt_view(self.last_warning),
        }
    }
}

/// How far a run is after something happened.
pub open spec fn progressed(s: ProgressView, e: ProgressEvent) -> ProgressView {
    match e {
        ProgressEvent::Phase(p) => ProgressView { phase: p@, ..s },
        ProgressEvent::DungeonStart { name, index, total } => ProgressView {
            phase: "processing dungeons"@,
            current_dungeon: Some((name@, index, total)),
            ..s
        },
        ProgressEvent::Warning(msg) => ProgressView {
            warnings: s.warnings + 1,
            last_warning: Some(msg@),
            ..s
        },
        ProgressEvent::UploadNew => ProgressView { uploads_new: s.uploads_new + 1, ..s },
        ProgressEvent::UploadReused => ProgressView { uploads_reused: s.uploads_reused + 1, ..s },
        ProgressEvent::UploadSkipped => ProgressView {
            uploads_skipped: s.uploads_skipped + 1,
            ..s
        },
    }
}

/// How far a run is after the first `n` of a row of events.
pub open spec fn progressed_by(s: ProgressView, events: Seq<ProgressEvent>, n: int) -> ProgressView
    decreases n,
{
    if n <= 0 {
        s
    } else {
        progressed(progressed_by(s, events, n - 1), events[n - 1])
    }
}

/// How many of the first `n` events are of a kind.
pub open spec fn how_many(
    events: Seq<ProgressEvent>,
    kind: spec_fn(ProgressEvent) -> bool,
    n: int,
) -> int
    decreases n,
{
    if n <= 0 {
        0
    } else {
        how_many(events, kind, n - 1) + if kind(events[n - 1]) {
            1int
        } else {
            0
        }
    }
}

/// The counters count: each grows by as many as there were events of its kind, and
/// how the run was started does not change.
pub proof fn progress_counts_events(s: ProgressView, events: Seq<ProgressEvent>, n: int)
    requires
        0 <= n <= events.len(),
    ensures
        ({
            let after = progressed_by(s, events, n);
            &&& after.uploads_new == s.uploads_new + how_many(
                events,
                |e: ProgressEvent| e is UploadNew,
                n,
            )
            &&& after.uploads_reused == s.uploads_reused + how_many(
                events,
                |e: ProgressEvent| e is UploadReused,
                n,
            )
            &&& after.uploads_skipped == s.uploads_skipped + how_many(
                events,
                |e: ProgressEvent| e is UploadSkipped,
                n,
            )
            &&& after.warnings == s.warnings + how_many(
                events,
                |e: ProgressEvent| e is Warning,
                n,
            )
            &&& after.dry_run == s.dry_run && after.purge == s.purge
        }),
    decreases n,
{
    if n > 0 {
        progress_counts_events(s, events, n - 1);
    }
}

/// How a run was started.
pub open spec fn flags(dry_run: bool, purge: bool) -> Seq<char> {
    if dry_run && purge {
        "dry-run, PURGE"@
    } else if dry_run {
        "dry-run"@
    } else if purge {
        "PURGE"@
    } else {
        "live"@
    }
}

/// The last warning, cut, where there is one.
pub open spec fn latest_warning(w: Option<Seq<char>>) -> Seq<char> {
    match w {
        Some(t) => " (latest: `"@ + shortened(t, 160) + "`)"@,
        None => ""@,
    }
}

/// What is shown of a run that is under way.
pub open spec fn progress_text(s: ProgressView, seconds: int) -> Seq<char> {
    "**Running `/sync-wiki`** ["@ + flags(s.dry_run, s.purge) + "] — "@ + elapsed(seconds)
        + " elapsed\nPhase: "@ + s.phase + "\n"@ + (match s.current_dungeon {
        Some((name, index, total)) => "Current: "@ + name + " ("@ + dec(index as int) + "/"@ + dec(
            total as int,
        ) + ")\n"@,
        None => ""@,
    }) + "Uploads: "@ + dec(s.uploads_new) + " new, "@ + dec(s.uploads_reused) + " reused"@ + (
    if s.dry_run {
        ", "@ + dec(s.uploads_skipped) + " would-upload"@
    } else {
        ""@
    }) + "\nWarnings: "@ + dec(s.warnings) + latest_warning(s.last_warning) + "\n"@
}

/// What is said at the end of a run.
pub const DONE_HINT: &'static str = "\n\nFull logs are in the bot's journal. \
    `templates::load_and_seed` re-reads `wiki_dump.json` on the next bot restart.";

/// What is shown of a run that is done.
pub open spec fn done_text(s: ProgressView, seconds: int, sum: SyncSummary) -> Seq<char> {
    "**Done — `/sync-wiki`** ["@ + flags(s.dry_run, s.purge) + "] in "@ + elapsed(seconds)
        + "\nDungeons scraped: "@ + dec(sum.dungeons_scraped as int) + "\nUploads: "@ + dec(
        sum.uploads_new as int,
    ) + " new, "@ + dec(sum.uploads_reused as int) + " reused"@ + (if s.dry_run {
        ", "@ + dec(sum.uploads_skipped_dry as int) + " would-upload, "@ + dec(
            sum.upserts_skipped_dry as int,
        ) + " bot_emoji rows skipped"@
    } else {
        ""@
    }) + "\nWarnings: "@ + dec(sum.warnings as int) + latest_warning(s.last_warning) + DONE_HINT@
}

/// What is shown of a run that failed.
pub open spec fn failed_text(s: ProgressView, seconds: int, err: Seq<char>) -> Seq<char> {
    "**Failed — `/sync-wiki`** ["@ + flags(s.dry_run, s.purge) + "] after "@ + elapsed(seconds)
        + "\nPhase at failure: "@ + s.phase + "\nError: `"@ + shortened(err, 1500)
        + "`\nWarnings before failure: "@ + dec(s.warnings)
}

impl ProgressState {
    /// A run that starts.
    pub fn new(dry_run: bool, purge: bool) -> (r: Self)
        ensures
            r@ == (ProgressView {
                dry_run,
                purge,
                phase: "starting up"@,
                current_dungeon: None,
                uploads_new: 0,
                uploads_reused: 0,
                uploads_skipped: 0,
                warnings: 0,
                last_warning: None,
            }),
    {
        ProgressState {
            dry_run,
            purge,
            phase: own("starting up"),
            current_dungeon: None,
            uploads_new: 0,
            uploads_reused: 0,
            uploads_skipped: 0,
            warnings: 0,
            last_warning: None,
        }
    }

    /// The counters can still grow.
    pub open spec fn has_room(&self) -> bool {
        self.uploads_new < usize::MAX && self.uploads_reused < usize::MAX && self.uploads_skipped
            < usize::MAX && self.warnings < usize::MAX
    }

    /// Take in something that happened.
    pub fn apply(&mut self, event: ProgressEvent)
        requires
            old(self).has_room(),
        ensures
            final(self)@ == progressed(old(self)@, event),
    {
        match event {
            ProgressEvent::Phase(p) => {
                self.phase = p;
            },
            ProgressEvent::DungeonStart { name, index, total } => {
                self.phase = own("processing dungeons");
                self.current_dungeon = Some((name, index, total));
            },
            ProgressEvent::Warning(msg) => {
                self.warnings = self.warnings + 1;
                self.last_warning = Some(msg);
            },
            ProgressEvent::UploadNew => {
                self.uploads_new = self.uploads_new + 1;
            },
            ProgressEvent::UploadReused => {
                self.uploads_reused = self.uploads_reused + 1;
            },
            ProgressEvent::UploadSkipped => {
                self.uploads_skipped = self.uploads_skipped + 1;
            },
        }
    }

    /// How the run was started.
    pub fn flags_line(&self) -> (r: String)
        ensures
            r@ == flags(self.dry_run, self.purge),
    {
        if self.dry_run && self.purge {
            own("dry-run, PURGE")
        } else if self.dry_run {
            own("dry-run")
        } else if self.purge {
            own("PURGE")
        } else {
            own("live")
        }
    }

    fn latest(&self) -> (r: String)
        ensures
            r@ == latest_warning(opt_view(self.last_warning)),
    {
        match &self.last_warning {
            Some(t) => cat3(" (latest: `", &truncate(t, 160), "`)"),
            None => own(""),
        }
    }

    /// What is shown while the run is under way, after some seconds.
    pub fn render(&self, seconds: u64) -> (r: String)
        ensures
            r@ == progress_text(self@, seconds as int),
    {
        let current = match &self.current_dungeon {
            Some(d) => Text::new("Current: ").add(&d.0).add(" (").add(&dec_usize(d.1)).add("/").add(
                &dec_usize(d.2),
            ).add(")\n").done(),
            None => own(""),
        };
        let skipped = if self.dry_run {
            cat3(", ", &dec_usize(self.uploads_skipped), " would-upload")
        } else {
            own("")
        };
        Text::new("**Running `/sync-wiki`** [").add(&self.flags_line()).add("] — ").add(
            &format_elapsed(seconds),
        ).add(" elapsed\nPhase: ").add(&self.phase).add("\n").add(&current).add("Uploads: ").add(
            &dec_usize(self.uploads_new),
        ).add(" new, ").add(&dec_usize(self.uploads_reused)).add(" reused").add(&skipped).add(
            "\nWarnings: ",
        ).add(&dec_usize(self.warnings)).add(&self.latest()).add("\n").done()
    }

    /// What is shown when the run is done, after some seconds.
    pub fn render_done(&self, seconds: u64, summary: &SyncSummary) -> (r: String)
        ensures
            r@ == done_text(self@, seconds as int, *summary),
    {
        let skipped = if self.dry_run {
            cat5(
                ", ",
                &dec_usize(summary.uploads_skipped_dry),
                " would-upload, ",
                &dec_usize(summary.upserts_skipped_dry),
                " bot_emoji rows skipped",
            )
        } else {
            own("")
        };
        Text::new("**Done — `/sync-wiki`** [").add(&self.flags_line()).add("] in ").add(
            &format_elapsed(seconds),
        ).add("\nDungeons scraped: ").add(&dec_usize(summary.dungeons_scraped)).add(
            "\nUploads: ",
        ).add(&dec_usize(summary.uploads_new)).add(" new, ").add(
            &dec_usize(summary.uploads_reused),
        ).add(" reused").add(&skipped).add("\nWarnings: ").add(&dec_usize(summary.warnings)).add(
            &self.latest(),
        ).add(DONE_HINT).done()
    }

    /// What is shown when the run failed, after some seconds.
    pub fn render_failed(&self, seconds: u64, err: &str) -> (r: String)
        ensures
            r@ == failed_text(self@, seconds as int, err@),
    {
        Text::new("**Failed — `/sync-wiki`** [").add(&self.flags_line()).add("] after ").add(
            &format_elapsed(seconds),
        ).add("\nPhase at failure: ").add(&self.phase).add("\nError: `").add(
            &truncate(err, 1500),
        ).add("`\nWarnings before failure: ").add(&dec_usize(self.warnings)).done()
    }
}

/// A number below 100 in two digits.
pub open spec fn two_digits(n: int) -> Seq<char> {
    seq![digit_char(n / 10), digit_char(n % 10)]
}

/// A time in minutes and seconds.
pub open spec fn elapsed(seconds: int) -> Seq<char> {
    if seconds / 60 == 0 {
        dec(seconds % 60) + "s"@
    } else {
        dec(seconds / 60) + "m "@ + two_digits(seconds % 60) + "s"@
    }
}

fn show_two_digits(n: u64) -> (r: String)
    requires
        n < 100,
    ensures
        r@ == two_digits(n as int),
{
    let s = if n < 10 {
        let r = cat2("0", &dec_u64(n));
        proof {
            reveal_strlit("0");
            assert(r@ =~= two_digits(n as int));
        }
        r
    } else {
        let r = dec_u64(n);
        assert(dec_nat((n / 10) as nat) == seq![digit_char((n / 10) as int)]);
        assert(r@ =~= two_digits(n as int));
        r
    };
    s
}

/// A time in minutes and seconds.
pub fn format_elapsed(seconds: u64) -> (r: String)
    ensures
        r@ == elapsed(seconds as int),
{
    let m: u64 = seconds / 60;
    let s: u64 = seconds % 60;
    if m == 0 {
        cat2(&dec_u64(s), "s")
    } else {
        cat4(&dec_u64(m), "m ", &show_two_digits(s), "s")
    }
}

/// A text that is cut after `max` characters, with an ellipsis where it is.
pub open spec fn shortened(s: Seq<char>, max: int) -> Seq<char> {
    if s.len() <= max {
        s
    } else {
        s.take(max).push('…')
    }
}

/// Cut a text after `max` characters, with an ellipsis where it is cut.
pub fn truncate(s: &str, max: usize) -> (r: String)
    ensures
        r@ == shortened(s@, max as int),
{
    if s.unicode_len() <= max {
        own(s)
    } else {
        let mut out = take_chars(s, max);
        out.push('…');
        out
    }
}

/// A text that is cut has one character more than the limit, and keeps what comes
/// before it; a text within the limit is kept whole.
pub proof fn shortened_fits(s: Seq<char>, max: int)
    requires
        0 <= max,
    ensures
        shortened(s, max).len() <= max + 1,
        s.len() <= max ==> shortened(s, max) == s,
        s.len() > max ==> shortened(s, max).take(max) == s.take(max) && shortened(s, max).last()
            == '…',
{
    if s.len() > max {
        assert(shortened(s, max).take(max) =~= s.take(max));
    }
}

// ----- who may run it, and what is said meanwhile --------------------------------------------------

/// Only the operators run it; a wipe needs the word, letter for letter; nobody else may be
/// at it. Who is refused is told why, and the lock is asked for when all else holds.
pub proof fn runs_start_when_all_holds(
    operator: bool,
    purge: Option<Seq<char>>,
    lock: Option<LockAnswer>,
)
    ensures
        ({
            let said = sync_request(operator, purge, lock);
            let unclear = purge is Some && purge->0 != "PURGE"@;
            &&& !operator ==> said == SyncRequestView::Refuse(NOT_AUTHORIZED@)
            &&& operator && unclear ==> said == SyncRequestView::Refuse(
                "The `purge` parameter must be the exact string `PURGE` to confirm. Got `"@
                    + purge->0 + "`. Run aborted."@,
            )
            &&& operator && !unclear && lock is None ==> said is AskLock
            &&& operator && !unclear && lock == Some(LockAnswer::Held) ==> said
                == SyncRequestView::Run(purge is Some)
            &&& operator && !unclear && lock == Some(LockAnswer::Busy) ==> said
                == SyncRequestView::Refuse(ALREADY_RUNNING@)
            &&& operator && !unclear && lock is Some && lock->0 is Failed ==> said
                == SyncRequestView::Refuse(
                "Failed to acquire run lock: `"@ + lock->0->Failed_0@ + "`."@,
            )
        }),
{
}

/// Each event changes what it tells of and nothing else: a phase its name, a dungeon the
/// one at hand, a warning the last one.
pub proof fn events_change_what_they_tell_of(s: ProgressView, e: ProgressEvent)
    ensures
        ({
            let t = progressed(s, e);
            &&& e is Phase ==> t.phase == e->Phase_0@
            &&& e is DungeonStart ==> t.phase == "processing dungeons"@ && t.current_dungeon == Some(
                (e->name@, e->index, e->total),
            )
            &&& !(e is Phase) && !(e is DungeonStart) ==> t.phase == s.phase
            &&& !(e is DungeonStart) ==> t.current_dungeon == s.current_dungeon
            &&& e is Warning ==> t.last_warning == Some(e->Warning_0@) && t.warnings == s.warnings
                + 1
            &&& !(e is Warning) ==> t.last_warning == s.last_warning && t.warnings == s.warnings
            &&& t.uploads_new == s.uploads_new + if e is UploadNew {
                1int
            } else {
                0
            }
            &&& t.uploads_reused == s.uploads_reused + if e is UploadReused {
                1int
            } else {
                0
            }
            &&& t.uploads_skipped == s.uploads_skipped + if e is UploadSkipped {
                1int
            } else {
                0
            }
            &&& t.dry_run == s.dry_run && t.purge == s.purge
        }),
{
}

/// A time under a minute is shown in seconds; a longer one in minutes and two digits of
/// seconds.
pub proof fn times_are_shown_in_minutes_and_seconds(minutes: int, tens: int, ones: int)
    requires
        0 <= minutes,
        0 <= tens < 6,
        0 <= ones < 10,
    ensures
        minutes == 0 ==> elapsed(tens * 10 + ones) == dec(tens * 10 + ones) + "s"@,
        minutes > 0 ==> elapsed(minutes * 60 + tens * 10 + ones) == dec(minutes) + "m "@ + seq![
            digit_char(tens),
            digit_char(ones),
        ] + "s"@,
{
    let seconds = minutes * 60 + tens * 10 + ones;
    assert(seconds / 60 == minutes && seconds % 60 == tens * 10 + ones) by (nonlinear_arith)
        requires
            0 <= tens < 6,
            0 <= ones < 10,
            0 <= minutes,
            seconds == minutes * 60 + tens * 10 + ones,
    ;
    assert((tens * 10 + ones) / 10 == tens && (tens * 10 + ones) % 10 == ones);
}

/// While it runs, the message says for how long, in which phase, at which dungeon, and
/// how many emojis were new and reused and how often something went wrong; a dry run adds
/// how many it would upload.
pub proof fn progress_shows_the_counts(s: ProgressView, seconds: int)
    ensures
        ({
            let t = progress_text(s, seconds);
            &&& occurs(t, "] — "@ + elapsed(seconds) + " elapsed\nPhase: "@ + s.phase + "\n"@)
            &&& occurs(
                t,
                "Uploads: "@ + dec(s.uploads_new) + " new, "@ + dec(s.uploads_reused) + " reused"@,
            )
            &&& s.dry_run ==> occurs(
                t,
                " reused, "@ + dec(s.uploads_skipped) + " would-upload\nWarnings: "@,
            )
            &&& occurs(t, "\nWarnings: "@ + dec(s.warnings))
            &&& s.current_dungeon matches Some(d) ==> occurs(
                t,
                "Current: "@ + d.0 + " ("@ + dec(d.1 as int) + "/"@ + dec(d.2 as int) + ")\n"@,
            )
            &&& s.last_warning is Some && s.last_warning->0.len() <= 160 ==> occurs(
                t,
                " (latest: `"@ + s.last_warning->0 + "`)"@,
            )
        }),
{
    let head = "**Running `/sync-wiki`** ["@ + flags(s.dry_run, s.purge);
    let time = elapsed(seconds);
    let start = head + "] — "@ + time + " elapsed\nPhase: "@ + s.phase + "\n"@;
    let current = match s.current_dungeon {
        Some((name, index, total)) => "Current: "@ + name + " ("@ + dec(index as int) + "/"@ + dec(
            total as int,
        ) + ")\n"@,
        None => ""@,
    };
    let fresh = dec(s.uploads_new);
    let reused = dec(s.uploads_reused);
    let uploads = start + current + "Uploads: "@ + fresh + " new, "@ + reused + " reused"@;
    let skipped = if s.dry_run {
        ", "@ + dec(s.uploads_skipped) + " would-upload"@
    } else {
        ""@
    };
    let warned = uploads + skipped + "\nWarnings: "@ + dec(s.warnings);
    let latest = latest_warning(s.last_warning);
    let t = progress_text(s, seconds);
    assert(t == warned + latest + "\n"@);
    let a = "] — "@ + time + " elapsed\nPhase: "@ + s.phase + "\n"@;
    let b = "Uploads: "@ + fresh + " new, "@ + reused + " reused"@;
    let c = "\nWarnings: "@ + dec(s.warnings);
    five_pieces_occur(head, "] — "@, time, " elapsed\nPhase: "@, s.phase, "\n"@);
    still_occurs(start, a, current);
    ends_occur(start, current);
    tail_keeps(start + current, a, fresh, reused, skipped, s.warnings, latest);
    tail_keeps(start + current, current, fresh, reused, skipped, s.warnings, latest);
    five_pieces_occur(start + current, "Uploads: "@, fresh, " new, "@, reused, " reused"@);
    still_occurs(uploads, b, skipped);
    still_occurs(uploads + skipped, b, "\nWarnings: "@);
    still_occurs(uploads + skipped + "\nWarnings: "@, b, dec(s.warnings));
    still_occurs(warned, b, latest);
    still_occurs(warned + latest, b, "\n"@);
    ends_occur(uploads + skipped, c);
    assert(warned =~= uploads + skipped + c);
    still_occurs(warned, c, latest);
    still_occurs(warned + latest, c, "\n"@);
    ends_occur(warned, latest);
    still_occurs(warned + latest, latest, "\n"@);
    if s.dry_run {
        skipped_uploads_are_shown(s, seconds);
    }
}

proof fn ends_occur(s: Seq<char>, part: Seq<char>)
    ensures
        occurs(s + part, part),
{
    parts_occur(s, part, Seq::empty());
    assert(s + part + Seq::empty() =~= s + part);
}

proof fn still_occurs(s: Seq<char>, part: Seq<char>, more: Seq<char>)
    requires
        occurs(s, part),
    ensures
        occurs(s + more, part),
{
    let i = choose|i: int| occurs_at(s, i, part);
    assert((s + more).subrange(i, i + part.len()) =~= s.subrange(i, i + part.len()));
    assert(occurs_at(s + more, i, part));
}

proof fn five_pieces_occur(
    s: Seq<char>,
    a: Seq<char>,
    b: Seq<char>,
    c: Seq<char>,
    d: Seq<char>,
    e: Seq<char>,
)
    ensures
        occurs(s + a + b + c + d + e, a + b + c + d + e),
{
    ends_occur(s, a + b + c + d + e);
    regrouped(s, a, b);
    regrouped(s, a + b, c);
    regrouped(s, a + b + c, d);
    regrouped(s, a + b + c + d, e);
}

proof fn regrouped(s: Seq<char>, a: Seq<char>, b: Seq<char>)
    ensures
        s + a + b == s + (a + b),
{
    assert(s + a + b =~= s + (a + b));
}

proof fn tail_keeps(
    s: Seq<char>,
    part: Seq<char>,
    fresh: Seq<char>,
    reused: Seq<char>,
    skipped: Seq<char>,
    warnings: int,
    latest: Seq<char>,
)
    requires
        occurs(s, part),
    ensures
        occurs(
            s + "Uploads: "@ + fresh + " new, "@ + reused + " reused"@ + skipped + "\nWarnings: "@
                + dec(warnings) + latest + "\n"@,
            part,
        ),
{
    let u = s + "Uploads: "@ + fresh + " new, "@ + reused + " reused"@;
    still_occurs(s, part, "Uploads: "@);
    still_occurs(s + "Uploads: "@, part, fresh);
    still_occurs(s + "Uploads: "@ + fresh, part, " new, "@);
    still_occurs(s + "Uploads: "@ + fresh + " new, "@, part, reused);
    still_occurs(s + "Uploads: "@ + fresh + " new, "@ + reused, part, " reused"@);
    still_occurs(u, part, skipped);
    still_occurs(u + skipped, part, "\nWarnings: "@);
    still_occurs(u + skipped + "\nWarnings: "@, part, dec(warnings));
    still_occurs(u + skipped + "\nWarnings: "@ + dec(warnings), part, latest);
    still_occurs(u + skipped + "\nWarnings: "@ + dec(warnings) + latest, part, "\n"@);
}

proof fn skipped_uploads_are_shown(s: ProgressView, seconds: int)
    requires
        s.dry_run,
    ensures
        occurs(
            progress_text(s, seconds),
            " reused, "@ + dec(s.uploads_skipped) + " would-upload\nWarnings: "@,
        ),
{
    let start = "**Running `/sync-wiki`** ["@ + flags(s.dry_run, s.purge) + "] — "@ + elapsed(seconds)
        + " elapsed\nPhase: "@ + s.phase + "\n"@ + (match s.current_dungeon {
        Some((name, index, total)) => "Current: "@ + name + " ("@ + dec(index as int) + "/"@ + dec(
            total as int,
        ) + ")\n"@,
        None => ""@,
    }) + "Uploads: "@ + dec(s.uploads_new) + " new, "@ + dec(s.uploads_reused);
    let n = dec(s.uploads_skipped);
    let rest = dec(s.warnings) + latest_warning(s.last_warning) + "\n"@;
    assert(" reused, "@ =~= " reused"@ + ", "@) by {
        reveal_strlit(" reused, ");
        reveal_strlit(" reused");
        reveal_strlit(", ");
    }
    assert(" would-upload\nWarnings: "@ =~= " would-upload"@ + "\nWarnings: "@) by {
        reveal_strlit(" would-upload\nWarnings: ");
        reveal_strlit(" would-upload");
        reveal_strlit("\nWarnings: ");
    }
    let part = " reused, "@ + n + " would-upload\nWarnings: "@;
    parts_occur(start, part, rest);
    assert(progress_text(s, seconds) =~= start + part + rest);
}

/// At the end the message says how many dungeons were read, how many emojis were new and
/// reused, and how often something went wrong; a dry run adds what it would have done.
pub proof fn the_end_shows_the_summary(s: ProgressView, seconds: int, sum: SyncSummary)
    ensures
        ({
            let t = done_text(s, seconds, sum);
            &&& occurs(
                t,
                "] in "@ + elapsed(seconds) + "\nDungeons scraped: "@ + dec(
                    sum.dungeons_scraped as int,
                ) + "\nUploads: "@ + dec(sum.uploads_new as int) + " new, "@ + dec(
                    sum.uploads_reused as int,
                ) + " reused"@,
            )
            &&& s.dry_run ==> occurs(
                t,
                ", "@ + dec(sum.uploads_skipped_dry as int) + " would-upload, "@ + dec(
                    sum.upserts_skipped_dry as int,
                ) + " bot_emoji rows skipped"@,
            )
            &&& occurs(t, "\nWarnings: "@ + dec(sum.warnings as int))
        }),
{
    let head = "**Done — `/sync-wiki`** ["@ + flags(s.dry_run, s.purge);
    let time = elapsed(seconds);
    let scraped = dec(sum.dungeons_scraped as int);
    let fresh = dec(sum.uploads_new as int);
    let reused = dec(sum.uploads_reused as int);
    let five = "] in "@ + time + "\nDungeons scraped: "@ + scraped + "\nUploads: "@;
    let a = five + fresh + " new, "@ + reused + " reused"@;
    let uploads = head + "] in "@ + time + "\nDungeons scraped: "@ + scraped + "\nUploads: "@
        + fresh + " new, "@ + reused + " reused"@;
    let skipped = if s.dry_run {
        ", "@ + dec(sum.uploads_skipped_dry as int) + " would-upload, "@ + dec(
            sum.upserts_skipped_dry as int,
        ) + " bot_emoji rows skipped"@
    } else {
        ""@
    };
    let c = "\nWarnings: "@ + dec(sum.warnings as int);
    let latest = latest_warning(s.last_warning);
    regrouped(head, "] in "@, time);
    regrouped(head, "] in "@ + time, "\nDungeons scraped: "@);
    regrouped(head, "] in "@ + time + "\nDungeons scraped: "@, scraped);
    regrouped(head, "] in "@ + time + "\nDungeons scraped: "@ + scraped, "\nUploads: "@);
    regrouped(head, five, fresh);
    regrouped(head, five + fresh, " new, "@);
    regrouped(head, five + fresh + " new, "@, reused);
    regrouped(head, five + fresh + " new, "@ + reused, " reused"@);
    assert(uploads == head + a);
    ends_occur(head, a);
    still_occurs(uploads, a, skipped);
    ends_occur(uploads, skipped);
    ends_occur(uploads + skipped, c);
    still_occurs(uploads + skipped, a, c);
    still_occurs(uploads + skipped, skipped, c);
    regrouped(uploads + skipped, "\nWarnings: "@, dec(sum.warnings as int));
    let warned = uploads + skipped + c;
    still_occurs(warned, a, latest);
    still_occurs(warned, skipped, latest);
    still_occurs(warned, c, latest);
    still_occurs(warned + latest, a, DONE_HINT@);
    still_occurs(warned + latest, skipped, DONE_HINT@);
    still_occurs(warned + latest, c, DONE_HINT@);
    assert(done_text(s, seconds, sum) == warned + latest + DONE_HINT@);
}

/// A failed run says in which phase it was, what went wrong, and how often before.
pub proof fn failures_name_phase_and_error(s: ProgressView, seconds: int, err: Seq<char>)
    ensures
        ({
            let t = failed_text(s, seconds, err);
            &&& occurs(t, "] after "@ + elapsed(seconds) + "\nPhase at failure: "@ + s.phase)
            &&& err.len() <= 1500 ==> occurs(t, "\nError: `"@ + err + "`\n"@)
            &&& occurs(t, "Warnings before failure: "@ + dec(s.warnings))
        }),
{
    let head = "**Failed — `/sync-wiki`** ["@ + flags(s.dry_run, s.purge);
    let a = "] after "@ + elapsed(seconds) + "\nPhase at failure: "@ + s.phase;
    let b = "\nError: `"@ + shortened(err, 1500) + "`\n"@;
    let c = "Warnings before failure: "@ + dec(s.warnings);
    reveal_strlit("`\nWarnings before failure: ");
    reveal_strlit("`\n");
    reveal_strlit("Warnings before failure: ");
    assert("`\nWarnings before failure: "@ =~= "`\n"@ + "Warnings before failure: "@);
    let t = failed_text(s, seconds, err);
    parts_occur(head, a, b + c);
    assert(t =~= head + a + (b + c));
    parts_occur(head + a, b, c);
    assert(t =~= head + a + b + c);
    parts_occur(head + a + b, c, Seq::empty());
    assert(t =~= head + a + b + c + Seq::empty());
}

/// The flags that are shown tell the four ways to run apart.
pub proof fn flags_name_what_was_asked(dry_run: bool, purge: bool)
    ensures
        occurs(flags(dry_run, purge), "dry-run"@) <==> dry_run,
        occurs(flags(dry_run, purge), "PURGE"@) <==> purge,
        flags(dry_run, purge) == "live"@ <==> !dry_run && !purge,
{
    reveal_strlit("dry-run, PURGE");
    reveal_strlit("dry-run");
    reveal_strlit("PURGE");
    reveal_strlit("live");
    reveal_strlit("");
    assert("dry-run, PURGE"@.subrange(0, 7) =~= "dry-run"@);
    assert("dry-run, PURGE"@.subrange(9, 14) =~= "PURGE"@);
    assert("dry-run"@.subrange(0, 7) =~= "dry-run"@);
    assert("PURGE"@.subrange(0, 5) =~= "PURGE"@);
    assert(occurs_at("dry-run, PURGE"@, 0, "dry-run"@));
    assert(occurs_at("dry-run, PURGE"@, 9, "PURGE"@));
    assert(occurs_at("dry-run"@, 0, "dry-run"@));
    assert(occurs_at("PURGE"@, 0, "PURGE"@));
    assert forall|i: int| !occurs_at("dry-run"@, i, "PURGE"@) by {
        if occurs_at("dry-run"@, i, "PURGE"@) {
            assert("dry-run"@.subrange(i, i + 5)[0] == 'P');
        }
    }
}

/// The view of a `ProgressState` shows each of its fields as it is.
pub proof fn progress_state_shows_its_fields(x: ProgressState)
    ensures
        x@.dry_run == x.dry_run,
        x@.purge == x.purge,
        x@.phase == x.phase@,
        x.current_dungeon is None ==> x@.current_dungeon is None,
        x.current_dungeon is Some ==> x@.current_dungeon == Some(
            ((x.current_dungeon->0).0@, (x.current_dungeon->0).1, (x.current_dungeon->0).2),
        ),
        x@.uploads_new == x.uploads_new,
        x@.uploads_reused == x.uploads_reused,
        x@.uploads_skipped == x.uploads_skipped,
        x@.warnings == x.warnings,
        x.last_warning is Some ==> x@.last_warning == Some((x.last_warning->0)@),
        x.last_warning is None ==> x@.last_warning is None,
{
}

} // verus!
