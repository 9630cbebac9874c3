//! Quick setup: what one click makes and stores, and in which order.

use vstd::prelude::*;

verus! {

/// How far quick setup has come.
#[derive(Debug, Clone, Copy, PartialEq, Eq, Structural)]
pub enum QuickPhase {
    /// Before the category and the runs channel.
    Channels,
    /// Before the log channel.
    Log,
    /// Before the channel of the start-run UI.
    StartRun,
    /// Before the tiers are read.
    Tiers,
    /// Before the tier is made.
    NewTier,
    /// Before the tier is pointed at the runs channel.
    RunsChannel,
    /// Before the start-run UI is switched on.
    StartRunUi,
    /// Before the log channel is stored.
    StoreLog,
    /// Before the superadmin is stored.
    StoreSuperadmin,
    /// Before the role of the leaders.
    LeaderRole,
    /// Before the leaders are granted their actions.
    Grants,
    /// Before the role of verified members.
    VerifiedRole,
    /// Before the verification channel.
    VerifyChannel,
    /// Before the message with the verify button.
    VerifyMessage,
    /// Before the role of verified members is stored.
    StoreRole,
    /// Before the verification channel is stored.
    StoreChannel,
    /// Before the message is stored.
    StoreMessage,
    /// Before the setup counts as finished.
    Complete,
    /// Before the messages of the start-run UI are posted.
    Stickies,
    /// At the end.
    Done,
}

/// What is done next.
#[derive(Debug, Clone, Copy, PartialEq, Eq, Structural)]
pub enum QuickAction {
    /// Find or make the raids category and the runs channel of the tier.
    DefaultChannels,
    /// Find or make the log channel.
    LogChannel,
    /// Find or make the channel of the start-run UI in a category.
    StartRunChannel(u64),
    /// Look for the tier among those of the server.
    FindTier,
    /// Make the tier.
    CreateTier,
    /// Point the tier at a runs channel.
    SetRunsChannel(i32, i64),
    /// Switch the start-run UI of the tier on, in a channel.
    EnableStartRunUi(i32, i64),
    /// Store the log channel.
    StoreLog(i64),
    /// Store the superadmin.
    StoreSuperadmin(i64),
    /// Find or make the role of the leaders.
    LeaderRole,
    /// Grant the role what leaders may do, everywhere on the server.
    GrantLeader(i64),
    /// Find or make the role of verified members.
    VerifiedRole,
    /// Find or make the verification channel, which the role does not see.
    VerifyChannel(u64),
    /// Post the verify button in a channel.
    PostVerify(u64),
    /// Store the role of verified members.
    StoreVerifiedRole(i64),
    /// Store the verification channel.
    StoreVerifyChannel(i64),
    /// Store the message with the verify button.
    StoreVerifyMessage(i64),
    /// The setup counts as finished.
    MarkComplete,
    /// Post the messages of the start-run UI of the tier; a failure does not count.
    InstallStickies(i32),
    /// Nothing is left to do.
    Finish,
}

/// What came of an action.
#[derive(Debug, Clone, Copy, PartialEq, Eq, Structural)]
pub enum QuickEvent {
    /// The category and the runs channel.
    Channels(u64, u64),
    /// What was found or made.
    Found(u64),
    /// The tier, if there is one.
    Tier(Option<i32>),
    /// The tier that was made.
    Made(i32),
    /// It was done.
    Written,
}

/// Quick setup, with what it found so far.
#[derive(Debug, Clone, Copy, PartialEq, Eq, Structural)]
pub struct QuickSetup {
    /// How far it has come.
    pub phase: QuickPhase,
    /// Who clicked.
    pub author: i64,
    /// The raids category.
    pub category: u64,
    /// The runs channel.
    pub runs: u64,
    /// The log channel.
    pub log: u64,
    /// The channel of the start-run UI.
    pub start_run: u64,
    /// The tier.
    pub tier: i32,
    /// The role of the leaders.
    pub leader: u64,
    /// The role of verified members.
    pub verified: u64,
    /// The verification channel.
    pub verify_channel: u64,
    /// The message with the verify button.
    pub verify_message: u64,
}

/// Quick setup before its first action.
pub open spec fn quick_start(author: i64) -> QuickSetup {
    QuickSetup {
        phase: QuickPhase::Channels,
        author,
        category: 0,
        runs: 0,
        log: 0,
        start_run: 0,
        tier: 0,
        leader: 0,
        verified: 0,
        verify_channel: 0,
        verify_message: 0,
    }
}

/// What is done next.
pub open spec fn quick_action(s: QuickSetup) -> QuickAction {
    match s.phase {
        QuickPhase::Channels => QuickAction::DefaultChannels,
        QuickPhase::Log => QuickAction::LogChannel,
        QuickPhase::StartRun => QuickAction::StartRunChannel(s.category),
        QuickPhase::Tiers => QuickAction::FindTier,
        QuickPhase::NewTier => QuickAction::CreateTier,
        QuickPhase::RunsChannel => QuickAction::SetRunsChannel(s.tier, s.runs as i64),
        QuickPhase::StartRunUi => QuickAction::EnableStartRunUi(s.tier, s.start_run as i64),
        QuickPhase::StoreLog => QuickAction::StoreLog(s.log as i64),
        QuickPhase::StoreSuperadmin => QuickAction::StoreSuperadmin(s.author),
        QuickPhase::LeaderRole => QuickAction::LeaderRole,
        QuickPhase::Grants => QuickAction::GrantLeader(s.leader as i64),
        QuickPhase::VerifiedRole => QuickAction::VerifiedRole,
        QuickPhase::VerifyChannel => QuickAction::VerifyChannel(s.verified),
        QuickPhase::VerifyMessage => QuickAction::PostVerify(s.verify_channel),
        QuickPhase::StoreRole => QuickAction::StoreVerifiedRole(s.verified as i64),
        QuickPhase::StoreChannel => QuickAction::StoreVerifyChannel(s.verify_channel as i64),
        QuickPhase::StoreMessage => QuickAction::StoreVerifyMessage(s.verify_message as i64),
        QuickPhase::Complete => QuickAction::MarkComplete,
        QuickPhase::Stickies => QuickAction::InstallStickies(s.tier),
        QuickPhase::Done => QuickAction::Finish,
    }
}

/// Whether something can come of the action of a phase.
pub open spec fn quick_answers(phase: QuickPhase, e: QuickEvent) -> bool {
    match phase {
        QuickPhase::Channels => e is Channels,
        QuickPhase::Log
        | QuickPhase::StartRun
        | QuickPhase::LeaderRole
        | QuickPhase::VerifiedRole
        | QuickPhase::VerifyChannel
        | QuickPhase::VerifyMessage => e is Found,
        QuickPhase::Tiers => e is Tier,
        QuickPhase::NewTier => e is Made,
        QuickPhase::Done => false,
        _ => e is Written,
    }
}

/// Quick setup after what came of its action; an event that cannot have come of it
/// changes nothing.
pub open spec fn quick_after(s: QuickSetup, e: QuickEvent) -> QuickSetup {
    match (s.phase, e) {
        (QuickPhase::Channels, QuickEvent::Channels(category, runs)) => QuickSetup {
            phase: QuickPhase::Log,
            category,
            runs,
            ..s
        },
        (QuickPhase::Log, QuickEvent::Found(log)) => QuickSetup {
            phase: QuickPhase::StartRun,
            log,
            ..s
        },
        (QuickPhase::StartRun, QuickEvent::Found(start_run)) => QuickSetup {
            phase: QuickPhase::Tiers,
            start_run,
            ..s
        },
        (QuickPhase::Tiers, QuickEvent::Tier(Some(tier))) => QuickSetup {
            phase: QuickPhase::RunsChannel,
            tier,
            ..s
        },
        (QuickPhase::Tiers, QuickEvent::Tier(None)) => QuickSetup {
            phase: QuickPhase::NewTier,
            ..s
        },
        (QuickPhase::NewTier, QuickEvent::Made(tier)) => QuickSetup {
            phase: QuickPhase::RunsChannel,
            tier,
            ..s
        },
        (QuickPhase::RunsChannel, QuickEvent::Written) => QuickSetup {
            phase: QuickPhase::StartRunUi,
            ..s
        },
        (QuickPhase::StartRunUi, QuickEvent::Written) => QuickSetup {
            phase: QuickPhase::StoreLog,
            ..s
        },
        (QuickPhase::StoreLog, QuickEvent::Written) => QuickSetup {
            phase: QuickPhase::StoreSuperadmin,
            ..s
        },
        (QuickPhase::StoreSuperadmin, QuickEvent::Written) => QuickSetup {
            phase: QuickPhase::LeaderRole,
            ..s
        },
        (QuickPhase::LeaderRole, QuickEvent::Found(leader)) => QuickSetup {
            phase: QuickPhase::Grants,
            leader,
            ..s
        },
        (QuickPhase::Grants, QuickEvent::Written) => QuickSetup {
            phase: QuickPhase::VerifiedRole,
            ..s
        },
        (QuickPhase::VerifiedRole, QuickEvent::Found(verified)) => QuickSetup {
            phase: QuickPhase::VerifyChannel,
            verified,
            ..s
        },
        (QuickPhase::VerifyChannel, QuickEvent::Found(verify_channel)) => QuickSetup {
            phase: QuickPhase::VerifyMessage,
            verify_channel,
            ..s
        },
        (QuickPhase::VerifyMessage, QuickEvent::Found(verify_message)) => QuickSetup {
            phase: QuickPhase::StoreRole,
            verify_message,
            ..s
        },
        (QuickPhase::StoreRole, QuickEvent::Written) => QuickSetup {
            phase: QuickPhase::StoreChannel,
            ..s
        },
        (QuickPhase::StoreChannel, QuickEvent::Written) => QuickSetup {
            phase: QuickPhase::StoreMessage,
            ..s
        },
        (QuickPhase::StoreMessage, QuickEvent::Written) => QuickSetup {
            phase: QuickPhase::Complete,
            ..s
        },
        (QuickPhase::Complete, QuickEvent::Written) => QuickSetup {
            phase: QuickPhase::Stickies,
            ..s
        },
        (QuickPhase::Stickies, QuickEvent::Written) => QuickSetup {
            phase: QuickPhase::Done,
            ..s
        },
        _ => s,
    }
}

/// An id of Discord, as the database stores it.
fn row_id(id: u64) -> (r: i64)
    ensures
        r == id as i64,
{
    #[verifier::truncate]
    (id as i64)
}

impl QuickSetup {
    /// Quick setup before its first action.
    pub fn new(author: i64) -> (r: Self)
        ensures
            r == quick_start(author),
    {
        QuickSetup {
            phase: QuickPhase::Channels,
            author,
            category: 0,
            runs: 0,
            log: 0,
            start_run: 0,
            tier: 0,
            leader: 0,
            verified: 0,
            verify_channel: 0,
            verify_message: 0,
        }
    }

    /// What is done next.
    pub fn action(&self) -> (r: QuickAction)
        ensures
            r == quick_action(*self),
    {
        match self.phase {
            QuickPhase::Channels => QuickAction::DefaultChannels,
            QuickPhase::Log => QuickAction::LogChannel,
            QuickPhase::StartRun => QuickAction::StartRunChannel(self.category),
            QuickPhase::Tiers => QuickAction::FindTier,
            QuickPhase::NewTier => QuickAction::CreateTier,
            QuickPhase::RunsChannel => QuickAction::SetRunsChannel(self.tier, row_id(self.runs)),
            QuickPhase::StartRunUi => QuickAction::EnableStartRunUi(
                self.tier,
                row_id(self.start_run),
            ),
            QuickPhase::StoreLog => QuickAction::StoreLog(row_id(self.log)),
            QuickPhase::StoreSuperadmin => QuickAction::StoreSuperadmin(self.author),
            QuickPhase::LeaderRole => QuickAction::LeaderRole,
            QuickPhase::Grants => QuickAction::GrantLeader(row_id(self.leader)),
            QuickPhase::VerifiedRole => QuickAction::VerifiedRole,
            QuickPhase::VerifyChannel => QuickAction::VerifyChannel(self.verified),
            QuickPhase::VerifyMessage => QuickAction::PostVerify(self.verify_channel),
            QuickPhase::StoreRole => QuickAction::StoreVerifiedRole(row_id(self.verified)),
            QuickPhase::StoreChannel => QuickAction::StoreVerifyChannel(
                row_id(self.verify_channel),
            ),
            QuickPhase::StoreMessage => QuickAction::StoreVerifyMessage(
                row_id(self.verify_message),
            ),
            QuickPhase::Complete => QuickAction::MarkComplete,
            QuickPhase::Stickies => QuickAction::InstallStickies(self.tier),
            QuickPhase::Done => QuickAction::Finish,
        }
    }

    /// Take in what came of the action.
    pub fn answer(&mut self, event: QuickEvent)
        ensures
            *final(self) == quick_after(*old(self), event),
    {
        match (self.phase, event) {
            (QuickPhase::Channels, QuickEvent::Channels(category, runs)) => {
                self.category = category;
                self.runs = runs;
                self.phase = QuickPhase::Log;
            },
            (QuickPhase::Log, QuickEvent::Found(id)) => {
                self.log = id;
                self.phase = QuickPhase::StartRun;
            },
            (QuickPhase::StartRun, QuickEvent::Found(id)) => {
                self.start_run = id;
                self.phase = QuickPhase::Tiers;
            },
            (QuickPhase::Tiers, QuickEvent::Tier(Some(id))) => {
                self.tier = id;
                self.phase = QuickPhase::RunsChannel;
            },
            (QuickPhase::Tiers, QuickEvent::Tier(None)) => {
                self.phase = QuickPhase::NewTier;
            },
            (QuickPhase::NewTier, QuickEvent::Made(id)) => {
                self.tier = id;
                self.phase = QuickPhase::RunsChannel;
            },
            (QuickPhase::RunsChannel, QuickEvent::Written) => {
                self.phase = QuickPhase::StartRunUi;
            },
            (QuickPhase::StartRunUi, QuickEvent::Written) => {
                self.phase = QuickPhase::StoreLog;
            },
            (QuickPhase::StoreLog, QuickEvent::Written) => {
                self.phase = QuickPhase::StoreSuperadmin;
            },
            (QuickPhase::StoreSuperadmin, QuickEvent::Written) => {
                self.phase = QuickPhase::LeaderRole;
            },
            (QuickPhase::LeaderRole, QuickEvent::Found(id)) => {
                self.leader = id;
                self.phase = QuickPhase::Grants;
            },
            (QuickPhase::Grants, QuickEvent::Written) => {
                self.phase = QuickPhase::VerifiedRole;
            },
            (QuickPhase::VerifiedRole, QuickEvent::Found(id)) => {
                self.verified = id;
                self.phase = QuickPhase::VerifyChannel;
            },
            (QuickPhase::VerifyChannel, QuickEvent::Found(id)) => {
                self.verify_channel = id;
                self.phase = QuickPhase::VerifyMessage;
            },
            (QuickPhase::VerifyMessage, QuickEvent::Found(id)) => {
                self.verify_message = id;
                self.phase = QuickPhase::StoreRole;
            },
            (QuickPhase::StoreRole, QuickEvent::Written) => {
                self.phase = QuickPhase::StoreChannel;
            },
            (QuickPhase::StoreChannel, QuickEvent::Written) => {
                self.phase = QuickPhase::StoreMessage;
            },
            (QuickPhase::StoreMessage, QuickEvent::Written) => {
                self.phase = QuickPhase::Complete;
            },
            (QuickPhase::Complete, QuickEvent::Written) => {
                self.phase = QuickPhase::Stickies;
            },
            (QuickPhase::Stickies, QuickEvent::Written) => {
                self.phase = QuickPhase::Done;
            },
            _ => {},
        }
    }
}

// ----- laws --------------------------------------------------------------------------------

/// How many actions are left at most.
pub open spec fn quick_left(phase: QuickPhase) -> nat {
    match phase {
        QuickPhase::Channels => 19,
        QuickPhase::Log => 18,
        QuickPhase::StartRun => 17,
        QuickPhase::Tiers => 16,
        QuickPhase::NewTier => 15,
        QuickPhase::RunsChannel => 14,
        QuickPhase::StartRunUi => 13,
        QuickPhase::StoreLog => 12,
        QuickPhase::StoreSuperadmin => 11,
        QuickPhase::LeaderRole => 10,
        QuickPhase::Grants => 9,
        QuickPhase::VerifiedRole => 8,
        QuickPhase::VerifyChannel => 7,
        QuickPhase::VerifyMessage => 6,
        QuickPhase::StoreRole => 5,
        QuickPhase::StoreChannel => 4,
        QuickPhase::StoreMessage => 3,
        QuickPhase::Complete => 2,
        QuickPhase::Stickies => 1,
        QuickPhase::Done => 0,
    }
}

/// Quick setup ends: every event that can come of an action brings it nearer to its
/// end, and where nothing can come of its action, it is there.
pub proof fn quick_setup_ends(s: QuickSetup, e: QuickEvent)
    ensures
        quick_answers(s.phase, e) ==> quick_left(quick_after(s, e).phase) < quick_left(s.phase),
        !quick_answers(s.phase, e) ==> quick_after(s, e) == s,
        quick_action(s) is Finish <==> s.phase is Done,
{
}

/// The actions that a list of events answers, in order, from a state on.
pub open spec fn quick_actions(s: QuickSetup, events: Seq<QuickEvent>) -> Seq<QuickAction>
    decreases events.len(),
{
    if events.len() == 0 {
        seq![]
    } else {
        seq![quick_action(s)] + quick_actions(quick_after(s, events[0]), events.skip(1))
    }
}

/// What a quick setup finds and makes on a server.
pub ghost struct QuickFinds {
    pub category: u64,
    pub runs: u64,
    pub log: u64,
    pub start_run: u64,
    pub tier: Option<i32>,
    pub made: i32,
    pub leader: u64,
    pub verified: u64,
    pub verify_channel: u64,
    pub verify_message: u64,
}

impl QuickFinds {
    /// The tier that is used: the one that was there, else the one that is made.
    pub open spec fn used_tier(self) -> i32 {
        match self.tier {
            Some(id) => id,
            None => self.made,
        }
    }
}

/// The events of a run up to the tier.
pub open spec fn quick_first_events(f: QuickFinds) -> Seq<QuickEvent> {
    seq![
        QuickEvent::Channels(f.category, f.runs),
        QuickEvent::Found(f.log),
        QuickEvent::Found(f.start_run),
        QuickEvent::Tier(f.tier),
    ] + if f.tier is None {
        seq![QuickEvent::Made(f.made)]
    } else {
        seq![]
    }
}

/// The events of a run from the tier to the leaders.
pub open spec fn quick_middle_events(f: QuickFinds) -> Seq<QuickEvent> {
    seq![
        QuickEvent::Written,
        QuickEvent::Written,
        QuickEvent::Written,
        QuickEvent::Written,
        QuickEvent::Found(f.leader),
        QuickEvent::Written,
    ]
}

/// The events of a run from the verification on.
pub open spec fn quick_last_events(f: QuickFinds) -> Seq<QuickEvent> {
    seq![
        QuickEvent::Found(f.verified),
        QuickEvent::Found(f.verify_channel),
        QuickEvent::Found(f.verify_message),
        QuickEvent::Written,
        QuickEvent::Written,
        QuickEvent::Written,
        QuickEvent::Written,
        QuickEvent::Written,
    ]
}

/// The events of a run.
pub open spec fn quick_events(f: QuickFinds) -> Seq<QuickEvent> {
    quick_first_events(f) + quick_middle_events(f) + quick_last_events(f)
}

/// The state of a run at its tier.
pub open spec fn quick_at_tier(author: i64, f: QuickFinds) -> QuickSetup {
    QuickSetup {
        phase: QuickPhase::RunsChannel,
        category: f.category,
        runs: f.runs,
        log: f.log,
        start_run: f.start_run,
        tier: f.used_tier(),
        ..quick_start(author)
    }
}

/// The state of a run at the verification.
pub open spec fn quick_at_verification(author: i64, f: QuickFinds) -> QuickSetup {
    QuickSetup { phase: QuickPhase::VerifiedRole, leader: f.leader, ..quick_at_tier(author, f) }
}

/// The state after a list of events.
pub open spec fn quick_run(s: QuickSetup, events: Seq<QuickEvent>) -> QuickSetup
    decreases events.len(),
{
    if events.len() == 0 {
        s
    } else {
        quick_run(quick_after(s, events[0]), events.skip(1))
    }
}

proof fn quick_first_part(author: i64, f: QuickFinds)
    ensures
        quick_run(quick_start(author), quick_first_events(f)) == quick_at_tier(author, f),
        quick_actions(quick_start(author), quick_first_events(f)) == seq![
            QuickAction::DefaultChannels,
            QuickAction::LogChannel,
            QuickAction::StartRunChannel(f.category),
            QuickAction::FindTier,
        ] + if f.tier is None {
            seq![QuickAction::CreateTier]
        } else {
            seq![]
        },
{
    reveal_with_fuel(quick_run, 6);
    reveal_with_fuel(quick_actions, 6);
}

proof fn quick_middle_part(author: i64, f: QuickFinds)
    ensures
        quick_run(quick_at_tier(author, f), quick_middle_events(f)) == quick_at_verification(
            author,
            f,
        ),
        quick_actions(quick_at_tier(author, f), quick_middle_events(f)) == seq![
            QuickAction::SetRunsChannel(f.used_tier(), f.runs as i64),
            QuickAction::EnableStartRunUi(f.used_tier(), f.start_run as i64),
            QuickAction::StoreLog(f.log as i64),
            QuickAction::StoreSuperadmin(author),
            QuickAction::LeaderRole,
            QuickAction::GrantLeader(f.leader as i64),
        ],
{
    reveal_with_fuel(quick_run, 7);
    reveal_with_fuel(quick_actions, 7);
}

proof fn quick_last_part(author: i64, f: QuickFinds)
    ensures
        quick_run(quick_at_verification(author, f), quick_last_events(f)).phase is Done,
        quick_actions(quick_at_verification(author, f), quick_last_events(f)) == seq![
            QuickAction::VerifiedRole,
            QuickAction::VerifyChannel(f.verified),
            QuickAction::PostVerify(f.verify_channel),
            QuickAction::StoreVerifiedRole(f.verified as i64),
            QuickAction::StoreVerifyChannel(f.verify_channel as i64),
            QuickAction::StoreVerifyMessage(f.verify_message as i64),
            QuickAction::MarkComplete,
            QuickAction::InstallStickies(f.used_tier()),
        ],
{
    reveal_with_fuel(quick_run, 9);
    reveal_with_fuel(quick_actions, 9);
}

proof fn quick_actions_chain(s: QuickSetup, a: Seq<QuickEvent>, b: Seq<QuickEvent>)
    ensures
        quick_actions(s, a + b) == quick_actions(s, a) + quick_actions(quick_run(s, a), b),
        quick_run(s, a + b) == quick_run(quick_run(s, a), b),
    decreases a.len(),
{
    if a.len() == 0 {
        assert(a + b =~= b);
    } else {
        quick_actions_chain(quick_after(s, a[0]), a.skip(1), b);
        assert((a + b).skip(1) =~= a.skip(1) + b);
    }
}

/// Quick setup stores what it finds, whatever that is, and says that the setup is
/// finished only when all of it is stored: the tier is the one that was there, or a
/// new one, who clicked becomes superadmin, and the messages of the start-run UI come
/// last, so that a failure to post them leaves a finished setup.
pub proof fn quick_setup_stores_what_it_finds(author: i64, f: QuickFinds)
    ensures
        quick_run(quick_start(author), quick_events(f)).phase is Done,
        quick_actions(quick_start(author), quick_events(f)) == seq![
            QuickAction::DefaultChannels,
            QuickAction::LogChannel,
            QuickAction::StartRunChannel(f.category),
            QuickAction::FindTier,
        ] + (if f.tier is None {
            seq![QuickAction::CreateTier]
        } else {
            seq![]
        }) + seq![
            QuickAction::SetRunsChannel(f.used_tier(), f.runs as i64),
            QuickAction::EnableStartRunUi(f.used_tier(), f.start_run as i64),
            QuickAction::StoreLog(f.log as i64),
            QuickAction::StoreSuperadmin(author),
            QuickAction::LeaderRole,
            QuickAction::GrantLeader(f.leader as i64),
            QuickAction::VerifiedRole,
            QuickAction::VerifyChannel(f.verified),
            QuickAction::PostVerify(f.verify_channel),
            QuickAction::StoreVerifiedRole(f.verified as i64),
            QuickAction::StoreVerifyChannel(f.verify_channel as i64),
            QuickAction::StoreVerifyMessage(f.verify_message as i64),
            QuickAction::MarkComplete,
            QuickAction::InstallStickies(f.used_tier()),
        ],
{
    quick_first_part(author, f);
    quick_middle_part(author, f);
    quick_last_part(author, f);
    let first = quick_first_events(f);
    quick_actions_chain(quick_start(author), first, quick_middle_events(f));
    quick_actions_chain(
        quick_start(author),
        first + quick_middle_events(f),
        quick_last_events(f),
    );
}

} // verus!
