//! Where a click in the setup wizard leads.

use vstd::prelude::*;

use crate::commands::setup::views::{as_id, copy_ids, to_id, TierDraft, TierDraftView};
use crate::db::models::Tier;
use crate::text::{cat3, same};

verus! {

/// What was picked in a menu.
#[derive(Debug)]
pub enum Picked {
    /// A button was clicked, or another kind of component.
    Nothing,
    /// Entries of the menu's own.
    Texts(Vec<String>),
    /// Channels.
    Channels(Vec<u64>),
    /// Roles.
    Roles(Vec<u64>),
    /// Users.
    Users(Vec<u64>),
}

/// The first of a list.
pub open spec fn first_id(ids: Seq<u64>) -> Option<u64> {
    if ids.len() > 0 {
        Some(ids[0])
    } else {
        None
    }
}

/// The first of a list.
pub fn first_of(ids: &Vec<u64>) -> (r: Option<u64>)
    ensures
        r == first_id(ids@),
{
    if ids.len() > 0 {
        Some(ids[0])
    } else {
        None
    }
}

/// An id of Discord, as the database stores it.
pub open spec fn as_row_id(id: Option<u64>) -> Option<i64> {
    match id {
        Some(i) => Some(i as i64),
        None => None,
    }
}

/// An id of Discord, as the database stores it.
pub fn to_row_id(id: Option<u64>) -> (r: Option<i64>)
    ensures
        r == as_row_id(id),
{
    match id {
        Some(i) => Some(#[verifier::truncate] (i as i64)),
        None => None,
    }
}

// ----- the first screen ----------------------------------------------------------------

/// What the wizard opens with: the dashboard where setup was finished before,
/// else the first screen.
#[derive(Debug, Clone, Copy, PartialEq, Eq, Structural)]
pub enum Opening {
    /// The dashboard.
    Dashboard,
    /// The first screen.
    Intro,
}

/// What the wizard opens with.
pub fn opening(setup_complete: bool) -> (r: Opening)
    ensures
        r == (if setup_complete {
            Opening::Dashboard
        } else {
            Opening::Intro
        }),
{
    if setup_complete {
        Opening::Dashboard
    } else {
        Opening::Intro
    }
}

/// What a click on the first screen asks for.
#[derive(Debug, Clone, Copy, PartialEq, Eq, Structural)]
pub enum IntroStep {
    /// Set everything up.
    Quick,
    /// Go to the dashboard.
    Custom,
    /// Close the wizard.
    Close,
    /// Nothing.
    Ignore,
}

/// What a click on the first screen asks for.
pub open spec fn intro_step_of(id: Seq<char>) -> IntroStep {
    if id == "setup:intro:quick"@ {
        IntroStep::Quick
    } else if id == "setup:intro:custom"@ {
        IntroStep::Custom
    } else if id == "setup:intro:close"@ {
        IntroStep::Close
    } else {
        IntroStep::Ignore
    }
}

/// What a click on the first screen asks for.
pub fn intro_step(id: &str) -> (r: IntroStep)
    ensures
        r == intro_step_of(id@),
{
    if same(id, "setup:intro:quick") {
        IntroStep::Quick
    } else if same(id, "setup:intro:custom") {
        IntroStep::Custom
    } else if same(id, "setup:intro:close") {
        IntroStep::Close
    } else {
        IntroStep::Ignore
    }
}

/// What is said where the first screen is closed.
pub const INTRO_CLOSED: &'static str = "Wizard closed. Run `/setup` any time.";

/// What is said where nobody clicked on the first screen.
pub const INTRO_TIMED_OUT: &'static str = "Setup wizard timed out. Run `/setup` again.";

/// What is said where the dashboard is closed.
pub const DASHBOARD_CLOSED: &'static str =
    "Wizard closed. Run `/setup` again any time to change settings.";

/// What is said where nobody clicked on the dashboard.
pub const DASHBOARD_TIMED_OUT: &'static str = "Setup wizard timed out. Run `/setup` again to resume \
    — your progress is saved.";

/// What is said where the quick setup failed.
pub fn quick_setup_failed(e: &str) -> (r: String)
    ensures
        r@ == "⚠ Quick setup failed: "@ + e@ + QUICK_SETUP_HINT@,
{
    cat3("⚠ Quick setup failed: ", e, QUICK_SETUP_HINT)
}

/// What can be done where the quick setup failed.
pub const QUICK_SETUP_HINT: &'static str = "\n\n\
    Make sure I have **Manage Channels** and **Manage Roles** \
    permissions, then run `/setup` again. Or try **Custom setup** \
    to configure things by hand.";

// ----- the dashboard -------------------------------------------------------------------

/// What a click on the dashboard asks for.
#[derive(Debug, Clone, Copy, PartialEq, Eq, Structural)]
pub enum DashboardStep {
    /// Close the wizard.
    Cancel,
    /// Finish the setup.
    Finish,
    /// Edit the first tier.
    Tier,
    /// Edit the superadmin.
    Superadmin,
    /// Edit the log channel.
    Log,
    /// Edit verification.
    Verification,
    /// Nothing.
    Ignore,
}

/// What a click on the dashboard asks for.
pub open spec fn dashboard_step_of(id: Seq<char>) -> DashboardStep {
    if id == "setup:cancel"@ {
        DashboardStep::Cancel
    } else if id == "setup:finish"@ {
        DashboardStep::Finish
    } else if id == "setup:section:tier"@ {
        DashboardStep::Tier
    } else if id == "setup:section:superadmin"@ {
        DashboardStep::Superadmin
    } else if id == "setup:section:log"@ {
        DashboardStep::Log
    } else if id == "setup:section:verify"@ {
        DashboardStep::Verification
    } else {
        DashboardStep::Ignore
    }
}

/// What a click on the dashboard asks for.
pub fn dashboard_step(id: &str) -> (r: DashboardStep)
    ensures
        r == dashboard_step_of(id@),
{
    if same(id, "setup:cancel") {
        DashboardStep::Cancel
    } else if same(id, "setup:finish") {
        DashboardStep::Finish
    } else if same(id, "setup:section:tier") {
        DashboardStep::Tier
    } else if same(id, "setup:section:superadmin") {
        DashboardStep::Superadmin
    } else if same(id, "setup:section:log") {
        DashboardStep::Log
    } else if same(id, "setup:section:verify") {
        DashboardStep::Verification
    } else {
        DashboardStep::Ignore
    }
}

// ----- the first tier ------------------------------------------------------------------

/// What is picked for the first tier at first: what the tier has, or nothing where
/// there is no tier.
pub open spec fn draft_of(existing: Option<Tier>, leaders: Seq<i64>, members: Seq<i64>) -> TierDraftView {
    match existing {
        Some(t) => TierDraftView {
            runs_channel: as_id(t.runs_channel_id),
            leader_roles: leaders.map_values(|r: i64| r as u64),
            member_roles: members.map_values(|r: i64| r as u64),
        },
        None => TierDraftView {
            runs_channel: None,
            leader_roles: Seq::empty(),
            member_roles: Seq::empty(),
        },
    }
}

fn to_ids(ids: &Vec<i64>) -> (r: Vec<u64>)
    ensures
        r@ == ids@.map_values(|r: i64| r as u64),
{
    let mut out: Vec<u64> = Vec::new();
    let mut i: usize = 0;
    while i < ids.len()
        invariant
            i <= ids@.len(),
            out@ == ids@.map_values(|r: i64| r as u64).take(i as int),
        decreases ids@.len() - i,
    {
        out.push(#[verifier::truncate] (ids[i] as u64));
        i = i + 1;
        let ghost all = ids@.map_values(|r: i64| r as u64);
        assert(all.take(i as int) =~= all.take(i - 1).push(all[i - 1]));
    }
    assert(out@ =~= ids@.map_values(|r: i64| r as u64));
    out
}

/// What is picked for the first tier at first.
pub fn initial_draft(existing: Option<&Tier>, leaders: &Vec<i64>, members: &Vec<i64>) -> (r: TierDraft)
    ensures
        r@ == draft_of(crate::commands::setup::views::opt_tier(existing), leaders@, members@),
{
    match existing {
        Some(t) => TierDraft {
            runs_channel: to_id(t.runs_channel_id),
            leader_roles: to_ids(leaders),
            member_roles: to_ids(members),
        },
        None => {
            let r = TierDraft {
                runs_channel: None,
                leader_roles: Vec::new(),
                member_roles: Vec::new(),
            };
            r
        },
    }
}

/// What a click on the tier screen asks for.
#[derive(Debug, Clone, Copy, PartialEq, Eq, Structural)]
pub enum TierStep {
    /// Go back to the dashboard; the draft is dropped.
    Back,
    /// Show the tier screen again.
    Redraw,
    /// Make the default channels.
    CreateChannels,
    /// Go to the start-run UI.
    StartRunUi,
    /// Save the draft, with this channel.
    Save(u64),
    /// Nothing.
    Ignore,
}

/// What a click on the tier screen asks for, and the draft after it.
pub open spec fn tier_step_of(d: TierDraftView, id: Seq<char>, picked: Picked) -> (
    TierDraftView,
    TierStep,
) {
    if id == "setup:tier:back"@ {
        (d, TierStep::Back)
    } else if id == "setup:tier:runs"@ {
        (
            match picked {
                Picked::Channels(v) => TierDraftView { runs_channel: first_id(v@), ..d },
                _ => d,
            },
            TierStep::Redraw,
        )
    } else if id == "setup:tier:roles"@ {
        (
            match picked {
                Picked::Roles(v) => TierDraftView { leader_roles: v@, ..d },
                _ => d,
            },
            TierStep::Redraw,
        )
    } else if id == "setup:tier:member_roles"@ {
        (
            match picked {
                Picked::Roles(v) => TierDraftView { member_roles: v@, ..d },
                _ => d,
            },
            TierStep::Redraw,
        )
    } else if id == "setup:tier:create_channels"@ {
        (d, TierStep::CreateChannels)
    } else if id == "setup:tier:so"@ {
        (d, TierStep::StartRunUi)
    } else if id == "setup:tier:save"@ {
        (
            d,
            match d.runs_channel {
                Some(c) => TierStep::Save(c),
                None => TierStep::Ignore,
            },
        )
    } else {
        (d, TierStep::Ignore)
    }
}

impl TierDraft {
    /// Take in a click on the tier screen, and say what it asks for.
    pub fn click(&mut self, id: &str, picked: &Picked) -> (r: TierStep)
        ensures
            (final(self)@, r) == tier_step_of(old(self)@, id@, *picked),
    {
        if same(id, "setup:tier:back") {
            TierStep::Back
        } else if same(id, "setup:tier:runs") {
            if let Picked::Channels(v) = picked {
                self.runs_channel = first_of(v);
            }
            TierStep::Redraw
        } else if same(id, "setup:tier:roles") {
            if let Picked::Roles(v) = picked {
                self.leader_roles = copy_ids(v);
            }
            TierStep::Redraw
        } else if same(id, "setup:tier:member_roles") {
            if let Picked::Roles(v) = picked {
                self.member_roles = copy_ids(v);
            }
            TierStep::Redraw
        } else if same(id, "setup:tier:create_channels") {
            TierStep::CreateChannels
        } else if same(id, "setup:tier:so") {
            TierStep::StartRunUi
        } else if same(id, "setup:tier:save") {
            match self.runs_channel {
                Some(c) => TierStep::Save(c),
                None => TierStep::Ignore,
            }
        } else {
            TierStep::Ignore
        }
    }

    /// Take in the channel that was made.
    pub fn channel_created(&mut self, runs: u64)
        ensures
            final(self)@ == (TierDraftView { runs_channel: Some(runs), ..old(self)@ }),
    {
        self.runs_channel = Some(runs);
    }
}

/// A draft is saved only with a channel for its runs.
pub proof fn saved_drafts_have_a_channel(d: TierDraftView, id: Seq<char>, picked: Picked, c: u64)
    requires
        tier_step_of(d, id, picked).1 == TierStep::Save(c),
    ensures
        d.runs_channel == Some(c),
        tier_step_of(d, id, picked).0 == d,
{
}

/// What is said where the default channels could not be made.
pub fn create_channels_failed(e: &str) -> (r: String)
    ensures
        r@ == "⚠ Couldn't create channels: "@ + e@
            + "\nMake sure I have the **Manage Channels** permission."@,
{
    cat3(
        "⚠ Couldn't create channels: ",
        e,
        "\nMake sure I have the **Manage Channels** permission.",
    )
}

// ----- roles to grant and revoke ---------------------------------------------------------

/// What to change about the roles of a tier.
#[derive(Debug)]
pub struct RoleChanges {
    /// Roles that get the permissions.
    pub add: Vec<i64>,
    /// Roles that lose them.
    pub remove: Vec<i64>,
}

/// The entries of the first `n` of a list that another list does not hold, each
/// once.
pub open spec fn missing_from(list: Seq<i64>, other: Seq<i64>, n: int) -> Seq<i64>
    decreases n,
{
    if n <= 0 {
        Seq::empty()
    } else {
        let before = missing_from(list, other, n - 1);
        if other.contains(list[n - 1]) || before.contains(list[n - 1]) {
            before
        } else {
            before.push(list[n - 1])
        }
    }
}

fn has_id(list: &Vec<i64>, v: i64) -> (r: bool)
    ensures
        r == list@.contains(v),
{
    let mut i: usize = 0;
    while i < list.len()
        invariant
            i <= list@.len(),
            forall|k: int| 0 <= k < i ==> list@[k] != v,
        decreases list@.len() - i,
    {
        if list[i] == v {
            return true;
        }
        i = i + 1;
    }
    false
}

fn difference(list: &Vec<i64>, other: &Vec<i64>) -> (r: Vec<i64>)
    ensures
        r@ == missing_from(list@, other@, list@.len() as int),
{
    let mut out: Vec<i64> = Vec::new();
    let mut i: usize = 0;
    while i < list.len()
        invariant
            i <= list@.len(),
            out@ == missing_from(list@, other@, i as int),
        decreases list@.len() - i,
    {
        if !has_id(other, list[i]) && !has_id(&out, list[i]) {
            out.push(list[i]);
        }
        i = i + 1;
    }
    out
}

/// What to change so that exactly the desired roles have the permissions.
pub fn role_changes(existing: &Vec<i64>, desired: &Vec<u64>) -> (r: RoleChanges)
    ensures
        ({
            let want = desired@.map_values(|d: u64| d as i64);
            r.add@ == missing_from(want, existing@, want.len() as int) && r.remove@ == missing_from(
                existing@,
                want,
                existing@.len() as int,
            )
        }),
{
    let mut want: Vec<i64> = Vec::new();
    let mut i: usize = 0;
    let ghost all = desired@.map_values(|d: u64| d as i64);
    while i < desired.len()
        invariant
            i <= desired@.len(),
            all == desired@.map_values(|d: u64| d as i64),
            want@ == all.take(i as int),
        decreases desired@.len() - i,
    {
        want.push(#[verifier::truncate] (desired[i] as i64));
        i = i + 1;
        assert(all.take(i as int) =~= all.take(i - 1).push(all[i - 1]));
    }
    assert(want@ =~= all);
    RoleChanges { add: difference(&want, existing), remove: difference(existing, &want) }
}

/// A list of what is missing holds exactly what one list has and the other has
/// not, each once.
pub proof fn missing_is_the_difference(list: Seq<i64>, other: Seq<i64>, n: int)
    requires
        0 <= n <= list.len(),
    ensures
        forall|v: i64| #[trigger]
            missing_from(list, other, n).contains(v) <==> list.take(n).contains(v) && !other.contains(
                v,
            ),
        missing_from(list, other, n).no_duplicates(),
    decreases n,
{
    if n > 0 {
        missing_is_the_difference(list, other, n - 1);
        let before = missing_from(list, other, n - 1);
        let all = missing_from(list, other, n);
        let x = list[n - 1];
        let short = list.take(n - 1);
        let long = list.take(n);
        assert forall|v: i64| #[trigger] all.contains(v) <==> list.take(n).contains(v)
            && !other.contains(v) by {
            assert(long.contains(v) <==> short.contains(v) || v == x) by {
                if long.contains(v) {
                    let k = choose|k: int| 0 <= k < long.len() && long[k] == v;
                    if k < n - 1 {
                        assert(short[k] == v);
                    }
                }
                if short.contains(v) {
                    let k = choose|k: int| 0 <= k < short.len() && short[k] == v;
                    assert(long[k] == v);
                }
                assert(long[n - 1] == x);
            }
            assert(before.contains(v) ==> all.contains(v)) by {
                if before.contains(v) {
                    let k = choose|k: int| 0 <= k < before.len() && before[k] == v;
                    assert(all[k] == v);
                }
            }
            if all.contains(v) {
                let k = choose|k: int| 0 <= k < all.len() && all[k] == v;
                if k < before.len() {
                    assert(before[k] == v);
                }
            }
            if v == x && !other.contains(x) && !before.contains(x) {
                assert(all[before.len() as int] == x);
            }
        }
    } else {
        assert(list.take(0) =~= Seq::<i64>::empty());
    }
}

/// After the changes a role has the permissions if and only if it is desired.
pub proof fn changes_give_the_desired_roles(existing: Seq<i64>, want: Seq<i64>, v: i64)
    ensures
        (existing.contains(v) && !missing_from(existing, want, existing.len() as int).contains(v)
            || missing_from(want, existing, want.len() as int).contains(v)) <==> want.contains(v),
{
    missing_is_the_difference(existing, want, existing.len() as int);
    missing_is_the_difference(want, existing, want.len() as int);
    assert(existing.take(existing.len() as int) =~= existing);
    assert(want.take(want.len() as int) =~= want);
}

// ----- the superadmin ------------------------------------------------------------------

/// What a click in a section asks for that sets one id and goes back.
#[derive(Debug, Clone, Copy, PartialEq, Eq, Structural)]
pub enum SetStep {
    /// Go back; nothing is stored.
    Back,
    /// Store the id, or that there is none, and go back.
    Store(Option<i64>),
    /// Nothing.
    Ignore,
}

/// What a click on the superadmin screen asks for.
pub open spec fn superadmin_step_of(id: Seq<char>, picked: Picked, author: u64) -> SetStep {
    if id == "setup:superadmin:back"@ {
        SetStep::Back
    } else if id == "setup:superadmin:use_me"@ {
        SetStep::Store(Some(author as i64))
    } else if id == "setup:superadmin:clear"@ {
        SetStep::Store(None)
    } else if id == "setup:superadmin:pick"@ {
        match picked {
            Picked::Users(v) => SetStep::Store(as_row_id(first_id(v@))),
            _ => SetStep::Back,
        }
    } else {
        SetStep::Ignore
    }
}

/// What a click on the superadmin screen asks for.
pub fn superadmin_step(id: &str, picked: &Picked, author: u64) -> (r: SetStep)
    ensures
        r == superadmin_step_of(id@, *picked, author),
{
    if same(id, "setup:superadmin:back") {
        SetStep::Back
    } else if same(id, "setup:superadmin:use_me") {
        SetStep::Store(Some(#[verifier::truncate] (author as i64)))
    } else if same(id, "setup:superadmin:clear") {
        SetStep::Store(None)
    } else if same(id, "setup:superadmin:pick") {
        match picked {
            Picked::Users(v) => SetStep::Store(to_row_id(first_of(v))),
            _ => SetStep::Back,
        }
    } else {
        SetStep::Ignore
    }
}

// ----- the log channel -----------------------------------------------------------------

/// What a click on the screen of the log channel asks for.
pub open spec fn log_step_of(id: Seq<char>, picked: Picked) -> SetStep {
    if id == "setup:log:back"@ {
        SetStep::Back
    } else if id == "setup:log:clear"@ {
        SetStep::Store(None)
    } else if id == "setup:log:pick"@ {
        match picked {
            Picked::Channels(v) => SetStep::Store(as_row_id(first_id(v@))),
            _ => SetStep::Back,
        }
    } else {
        SetStep::Ignore
    }
}

/// What a click on the screen of the log channel asks for.
pub fn log_step(id: &str, picked: &Picked) -> (r: SetStep)
    ensures
        r == log_step_of(id@, *picked),
{
    if same(id, "setup:log:back") {
        SetStep::Back
    } else if same(id, "setup:log:clear") {
        SetStep::Store(None)
    } else if same(id, "setup:log:pick") {
        match picked {
            Picked::Channels(v) => SetStep::Store(to_row_id(first_of(v))),
            _ => SetStep::Back,
        }
    } else {
        SetStep::Ignore
    }
}

// ----- verification ---------------------------------------------------------------------

/// What a click on the verification screen asks for.
#[derive(Debug, Clone, Copy, PartialEq, Eq, Structural)]
pub enum VerifyStep {
    /// Go back to the dashboard.
    Back,
    /// Show the screen again.
    Redraw,
    /// Store the role, and show the screen again.
    SetRole(Option<i64>),
    /// Store the channel and forget the message, which lies in another channel;
    /// show the screen again.
    SetChannel(Option<i64>),
    /// Post the Verify message.
    Post,
    /// Make the role, the channel and the message.
    Auto,
    /// Forget role, channel and message, and show the screen again.
    ClearAll,
    /// Nothing.
    Ignore,
}

/// What a click on the verification screen asks for.
pub open spec fn verify_step_of(id: Seq<char>, picked: Picked) -> VerifyStep {
    if id == "setup:verify:back"@ {
        VerifyStep::Back
    } else if id == "setup:verify:role"@ {
        match picked {
            Picked::Roles(v) => VerifyStep::SetRole(as_row_id(first_id(v@))),
            _ => VerifyStep::Redraw,
        }
    } else if id == "setup:verify:channel"@ {
        match picked {
            Picked::Channels(v) => VerifyStep::SetChannel(as_row_id(first_id(v@))),
            _ => VerifyStep::Redraw,
        }
    } else if id == "setup:verify:post"@ {
        VerifyStep::Post
    } else if id == "setup:verify:auto"@ {
        VerifyStep::Auto
    } else if id == "setup:verify:clear"@ {
        VerifyStep::ClearAll
    } else {
        VerifyStep::Ignore
    }
}

/// What a click on the verification screen asks for.
pub fn verify_step(id: &str, picked: &Picked) -> (r: VerifyStep)
    ensures
        r == verify_step_of(id@, *picked),
{
    if same(id, "setup:verify:back") {
        VerifyStep::Back
    } else if same(id, "setup:verify:role") {
        match picked {
            Picked::Roles(v) => VerifyStep::SetRole(to_row_id(first_of(v))),
            _ => VerifyStep::Redraw,
        }
    } else if same(id, "setup:verify:channel") {
        match picked {
            Picked::Channels(v) => VerifyStep::SetChannel(to_row_id(first_of(v))),
            _ => VerifyStep::Redraw,
        }
    } else if same(id, "setup:verify:post") {
        VerifyStep::Post
    } else if same(id, "setup:verify:auto") {
        VerifyStep::Auto
    } else if same(id, "setup:verify:clear") {
        VerifyStep::ClearAll
    } else {
        VerifyStep::Ignore
    }
}

/// What is said where the Verify message could not be posted.
pub fn post_failed(e: &str) -> (r: String)
    ensures
        r@ == "⚠ Couldn't post the Verify message: "@ + e@
            + "\nMake sure I have **Send Messages** in that channel."@,
{
    cat3(
        "⚠ Couldn't post the Verify message: ",
        e,
        "\nMake sure I have **Send Messages** in that channel.",
    )
}

/// What is said where verification could not be provisioned.
pub fn provision_failed(e: &str) -> (r: String)
    ensures
        r@ == "⚠ Couldn't auto-provision verification: "@ + e@
            + "\nMake sure I have **Manage Channels** and **Manage Roles**, then try again."@,
{
    cat3(
        "⚠ Couldn't auto-provision verification: ",
        e,
        "\nMake sure I have **Manage Channels** and **Manage Roles**, then try again.",
    )
}

// ----- what each button and menu does ---------------------------------------------------------------

/// The first screen has three ways on, and the dashboard has six; no two of them are the
/// same, and nothing else leads anywhere.
pub proof fn buttons_lead_where_they_say(id: Seq<char>)
    ensures
        intro_step_of("setup:intro:quick"@) is Quick,
        intro_step_of("setup:intro:custom"@) is Custom,
        intro_step_of("setup:intro:close"@) is Close,
        !(intro_step_of(id) is Ignore) ==> id == "setup:intro:quick"@ || id == "setup:intro:custom"@
            || id == "setup:intro:close"@,
        dashboard_step_of("setup:cancel"@) is Cancel,
        dashboard_step_of("setup:finish"@) is Finish,
        dashboard_step_of("setup:section:tier"@) is Tier,
        dashboard_step_of("setup:section:superadmin"@) is Superadmin,
        dashboard_step_of("setup:section:log"@) is Log,
        dashboard_step_of("setup:section:verify"@) is Verification,
        !(dashboard_step_of(id) is Ignore) ==> id == "setup:cancel"@ || id == "setup:finish"@ || id
            == "setup:section:tier"@ || id == "setup:section:superadmin"@ || id
            == "setup:section:log"@ || id == "setup:section:verify"@,
{
    reveal_strlit("setup:intro:quick");
    reveal_strlit("setup:intro:custom");
    reveal_strlit("setup:intro:close");
    reveal_strlit("setup:cancel");
    reveal_strlit("setup:finish");
    reveal_strlit("setup:section:tier");
    reveal_strlit("setup:section:superadmin");
    reveal_strlit("setup:section:log");
    reveal_strlit("setup:section:verify");
    assert("setup:intro:quick"@[13] == 'u');
    assert("setup:intro:custom"@[13] == 'u');
    assert("setup:intro:custom"@[12] == 'c');
    assert("setup:intro:close"@[12] == 'c');
    assert("setup:intro:close"@[13] == 'l');
    assert("setup:intro:quick"@[12] == 'q');
    assert("setup:cancel"@[6] == 'c');
    assert("setup:finish"@[6] == 'f');
    assert("setup:section:tier"@[6] == 's' && "setup:section:tier"@[14] == 't');
    assert("setup:section:superadmin"@[6] == 's' && "setup:section:superadmin"@[14] == 's');
    assert("setup:section:log"@[6] == 's' && "setup:section:log"@[14] == 'l');
    assert("setup:section:verify"@[6] == 's' && "setup:section:verify"@[14] == 'v');
}

/// A draft starts from what the tier has: its runs channel, its leaders' roles and its
/// members' roles; a new one is empty.
pub proof fn drafts_start_from_the_tier(t: Tier, leaders: Seq<i64>, members: Seq<i64>, i: int)
    ensures
        ({
            let d = draft_of(Some(t), leaders, members);
            &&& d.runs_channel is Some <==> t.runs_channel_id is Some
            &&& t.runs_channel_id is Some ==> d.runs_channel->0 == t.runs_channel_id->0 as u64
            &&& d.leader_roles.len() == leaders.len() && d.member_roles.len() == members.len()
            &&& 0 <= i < leaders.len() ==> d.leader_roles[i] == leaders[i] as u64
            &&& 0 <= i < members.len() ==> d.member_roles[i] == members[i] as u64
        }),
        ({
            let n = draft_of(None, leaders, members);
            n.runs_channel is None && n.leader_roles.len() == 0 && n.member_roles.len() == 0
        }),
{
}

/// Each menu of the tier's screen changes its own part of the draft, to what was picked,
/// and nothing else; no button changes the draft.
pub proof fn menus_change_their_part(
    d: TierDraftView,
    id: Seq<char>,
    channels: Vec<u64>,
    roles: Vec<u64>,
)
    ensures
        ({
            let t = tier_step_of(d, "setup:tier:runs"@, Picked::Channels(channels));
            &&& t.1 is Redraw
            &&& channels@.len() > 0 ==> t.0.runs_channel == Some(channels@[0])
            &&& channels@.len() == 0 ==> t.0.runs_channel is None
            &&& t.0.leader_roles == d.leader_roles && t.0.member_roles == d.member_roles
        }),
        ({
            let t = tier_step_of(d, "setup:tier:roles"@, Picked::Roles(roles));
            &&& t.1 is Redraw && t.0.leader_roles == roles@
            &&& t.0.runs_channel == d.runs_channel && t.0.member_roles == d.member_roles
        }),
        ({
            let t = tier_step_of(d, "setup:tier:member_roles"@, Picked::Roles(roles));
            &&& t.1 is Redraw && t.0.member_roles == roles@
            &&& t.0.runs_channel == d.runs_channel && t.0.leader_roles == d.leader_roles
        }),
        id != "setup:tier:runs"@ && id != "setup:tier:roles"@ && id != "setup:tier:member_roles"@
            ==> tier_step_of(d, id, Picked::Nothing).0 == d && !(tier_step_of(
            d,
            id,
            Picked::Nothing,
        ).1 is Redraw),
        d.runs_channel matches Some(c) ==> tier_step_of(d, "setup:tier:save"@, Picked::Nothing).1
            == TierStep::Save(c),
        d.runs_channel is None ==> tier_step_of(d, "setup:tier:save"@, Picked::Nothing).1 is Ignore,
        tier_step_of(d, "setup:tier:create_channels"@, Picked::Nothing).1 is CreateChannels,
        tier_step_of(d, "setup:tier:so"@, Picked::Nothing).1 is StartRunUi,
        tier_step_of(d, "setup:tier:back"@, Picked::Nothing).1 is Back,
{
    reveal_strlit("setup:tier:back");
    reveal_strlit("setup:tier:runs");
    reveal_strlit("setup:tier:roles");
    reveal_strlit("setup:tier:member_roles");
    reveal_strlit("setup:tier:create_channels");
    reveal_strlit("setup:tier:so");
    reveal_strlit("setup:tier:save");
    assert("setup:tier:back"@[11] == 'b');
    assert("setup:tier:runs"@[11] == 'r' && "setup:tier:runs"@[12] == 'u');
    assert("setup:tier:roles"@[11] == 'r' && "setup:tier:roles"@[12] == 'o');
    assert("setup:tier:member_roles"@[11] == 'm');
    assert("setup:tier:create_channels"@[11] == 'c');
    assert("setup:tier:so"@[11] == 's' && "setup:tier:so"@[12] == 'o');
    assert("setup:tier:save"@[11] == 's' && "setup:tier:save"@[12] == 'a');
}

/// The superadmin becomes who was picked, or who asks, or nobody; the log channel becomes
/// what was picked, or none.
pub proof fn settings_become_what_was_picked(ids: Vec<u64>, author: u64, other: Picked)
    ensures
        superadmin_step_of("setup:superadmin:use_me"@, other, author) == SetStep::Store(
            Some(author as i64),
        ),
        superadmin_step_of("setup:superadmin:clear"@, other, author) == SetStep::Store(None),
        superadmin_step_of("setup:superadmin:back"@, other, author) is Back,
        ids@.len() > 0 ==> superadmin_step_of(
            "setup:superadmin:pick"@,
            Picked::Users(ids),
            author,
        ) == SetStep::Store(Some(ids@[0] as i64)),
        log_step_of("setup:log:clear"@, other) == SetStep::Store(None),
        log_step_of("setup:log:back"@, other) is Back,
        ids@.len() > 0 ==> log_step_of("setup:log:pick"@, Picked::Channels(ids)) == SetStep::Store(
            Some(ids@[0] as i64),
        ),
        ids@.len() == 0 ==> log_step_of("setup:log:pick"@, Picked::Channels(ids)) == SetStep::Store(
            None,
        ),
{
    reveal_strlit("setup:superadmin:back");
    reveal_strlit("setup:superadmin:use_me");
    reveal_strlit("setup:superadmin:clear");
    reveal_strlit("setup:superadmin:pick");
    reveal_strlit("setup:log:back");
    reveal_strlit("setup:log:clear");
    reveal_strlit("setup:log:pick");
    assert("setup:superadmin:back"@[17] == 'b');
    assert("setup:superadmin:use_me"@[17] == 'u');
    assert("setup:superadmin:clear"@[17] == 'c');
    assert("setup:superadmin:pick"@[17] == 'p');
    assert("setup:log:back"@[10] == 'b');
    assert("setup:log:clear"@[10] == 'c');
    assert("setup:log:pick"@[10] == 'p');
}

/// The role and the channel of the verification become what was picked; its buttons post
/// the message, set everything up, clear everything, and lead back.
pub proof fn verification_becomes_what_was_picked(ids: Vec<u64>, other: Picked, id: Seq<char>)
    ensures
        ids@.len() > 0 ==> verify_step_of("setup:verify:role"@, Picked::Roles(ids))
            == VerifyStep::SetRole(Some(ids@[0] as i64)),
        ids@.len() > 0 ==> verify_step_of("setup:verify:channel"@, Picked::Channels(ids))
            == VerifyStep::SetChannel(Some(ids@[0] as i64)),
        verify_step_of("setup:verify:post"@, other) is Post,
        verify_step_of("setup:verify:auto"@, other) is Auto,
        verify_step_of("setup:verify:clear"@, other) is ClearAll,
        verify_step_of("setup:verify:back"@, other) is Back,
        id != "setup:verify:role"@ ==> !(verify_step_of(id, other) is SetRole),
        id != "setup:verify:channel"@ ==> !(verify_step_of(id, other) is SetChannel),
{
    reveal_strlit("setup:verify:back");
    reveal_strlit("setup:verify:role");
    reveal_strlit("setup:verify:channel");
    reveal_strlit("setup:verify:post");
    reveal_strlit("setup:verify:auto");
    reveal_strlit("setup:verify:clear");
    assert("setup:verify:back"@[13] == 'b');
    assert("setup:verify:role"@[13] == 'r');
    assert("setup:verify:channel"@[13] == 'c' && "setup:verify:channel"@[14] == 'h');
    assert("setup:verify:post"@[13] == 'p');
    assert("setup:verify:auto"@[13] == 'a');
    assert("setup:verify:clear"@[13] == 'c' && "setup:verify:clear"@[14] == 'l');
}

} // verus!
