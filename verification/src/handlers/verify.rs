//! Verification: the form that asks for the in-game name, the code, and what comes
//! of looking for it.

use vstd::prelude::*;
use vstd::string::StringSliceAdditionalSpecFns;

use crate::clock::MICROS_PER_SECOND;
use crate::commands::verify::{all_letters, only_letters};
use crate::db::models::PendingVerification;
use crate::db::verification::{UpsertResult, UpsertResultView};
use crate::handlers::inputs::{extract_input, typed, TypedInput};
use crate::handlers::routing::IGN_FORM_ID;
use crate::mention::{user, user_i64, user_u64};
use crate::text::{
    begins, cat3, cat4, cat5, cat7, contains, occurs, occurs_at, own, trim, trimmed, Text,
};
use crate::ui::{
    Button, ButtonStyle, ButtonView, Buttons, Embed, EmbedView, Form, FormView, Input, InputView,
    RowView, Rows,
};

verus! {

/// What the in-game name is known by in its form.
pub const IGN_INPUT_ID: &'static str = "ign";

/// What is said outside of a server.
pub const VERIFY_SERVER_ONLY: &'static str = "Verification only works in a server.";

/// What is said in a server that is not known.
pub const VERIFY_NO_SETUP: &'static str =
    "This server hasn't been set up yet. Ask an admin to run /setup.";

/// What is said after a click in a server without a role for verified members.
pub const VERIFY_NO_ROLE: &'static str =
    "Verification isn't configured yet — ask an admin to run /setup and \
    pick a Verified role.";

/// What is said after a form in a server without a role for verified members.
pub const VERIFY_NO_ROLE_FORM: &'static str =
    "Verification isn't configured — ask an admin to run /setup.";

/// What is said where no code was given.
pub const NO_PENDING: &'static str =
    "No pending verification — start over with /verify or the Verify button.";

// ----- asking for the name ------------------------------------------------------------------

/// The form that asks for the in-game name.
pub open spec fn ign_form() -> FormView {
    FormView::new(IGN_FORM_ID@, "Verify with RealmEye"@).input(
        InputView::short("In-game name (IGN)"@, IGN_INPUT_ID@).placeholder(
            "Your RotMG character name as it appears on RealmEye"@,
        ).required(true).min_length(1).max_length(20),
    )
}

/// Build the form that asks for the in-game name.
pub fn build_ign_modal() -> (r: Form)
    ensures
        r@ == ign_form(),
{
    Form::new(IGN_FORM_ID, "Verify with RealmEye").input(
        Input::short("In-game name (IGN)", IGN_INPUT_ID).placeholder(
            "Your RotMG character name as it appears on RealmEye",
        ).required(true).min_length(1).max_length(20),
    )
}

/// What is known of a server: nothing yet, or that it is not known, or its role for
/// verified members.
pub type GuildRole = Option<Option<Option<i64>>>;

/// What to do about a click on Verify.
#[derive(Debug)]
pub enum VerifyStartStep {
    /// Look up the server.
    LoadGuild,
    /// Say this, and do nothing.
    Refuse(String),
    /// Open the form that asks for the in-game name.
    Open(Form),
}

/// What to do about a click on Verify, over views.
pub ghost enum VerifyStartStepView {
    LoadGuild,
    Refuse(Seq<char>),
    Open(FormView),
}

impl View for VerifyStartStep {
    type V = VerifyStartStepView;

    open spec fn view(&self) -> VerifyStartStepView {
        match self {
            VerifyStartStep::LoadGuild => VerifyStartStepView::LoadGuild,
            VerifyStartStep::Refuse(t) => VerifyStartStepView::Refuse(t@),
            VerifyStartStep::Open(f) => VerifyStartStepView::Open(f@),
        }
    }
}

/// What to do about a click on Verify.
pub open spec fn verify_start_of(in_guild: bool, role: GuildRole) -> VerifyStartStepView {
    if !in_guild {
        VerifyStartStepView::Refuse(VERIFY_SERVER_ONLY@)
    } else {
        match role {
            None => VerifyStartStepView::LoadGuild,
            Some(None) => VerifyStartStepView::Refuse(VERIFY_NO_SETUP@),
            Some(Some(None)) => VerifyStartStepView::Refuse(VERIFY_NO_ROLE@),
            Some(Some(Some(_))) => VerifyStartStepView::Open(ign_form()),
        }
    }
}

/// What to do next about a click on Verify.
pub fn verify_start_step(in_guild: bool, role: GuildRole) -> (r: VerifyStartStep)
    ensures
        r@ == verify_start_of(in_guild, role),
{
    if !in_guild {
        return VerifyStartStep::Refuse(own(VERIFY_SERVER_ONLY));
    }
    match role {
        None => VerifyStartStep::LoadGuild,
        Some(None) => VerifyStartStep::Refuse(own(VERIFY_NO_SETUP)),
        Some(Some(None)) => VerifyStartStep::Refuse(own(VERIFY_NO_ROLE)),
        Some(Some(Some(_))) => VerifyStartStep::Open(build_ign_modal()),
    }
}

/// A name that could be one of the game: 1 to 20 letters and nothing else.
pub open spec fn plausible(s: Seq<char>) -> bool {
    1 <= s.len() <= 20 && all_letters(s)
}

/// Whether a name could be one of the game.
pub fn is_plausible_ign(s: &str) -> (r: bool)
    ensures
        r == plausible(s@),
{
    let n: usize = s.unicode_len();
    1 <= n && n <= 20 && only_letters(s)
}

/// What to do about a name that was typed.
#[derive(Debug)]
pub enum SubmitStep {
    /// Look up the server.
    LoadGuild,
    /// Say this, and do nothing.
    Refuse(String),
    /// Give a code for this name.
    Issue(String),
}

/// What to do about a name that was typed, over views.
pub ghost enum SubmitStepView {
    LoadGuild,
    Refuse(Seq<char>),
    Issue(Seq<char>),
}

impl View for SubmitStep {
    type V = SubmitStepView;

    open spec fn view(&self) -> SubmitStepView {
        match self {
            SubmitStep::LoadGuild => SubmitStepView::LoadGuild,
            SubmitStep::Refuse(t) => SubmitStepView::Refuse(t@),
            SubmitStep::Issue(n) => SubmitStepView::Issue(n@),
        }
    }
}

/// What to do about a name that was typed.
pub open spec fn submit_of(
    in_guild: bool,
    role: GuildRole,
    inputs: Seq<TypedInput>,
) -> SubmitStepView {
    if !in_guild {
        SubmitStepView::Refuse(VERIFY_SERVER_ONLY@)
    } else {
        match role {
            None => SubmitStepView::LoadGuild,
            Some(None) => SubmitStepView::Refuse(VERIFY_NO_SETUP@),
            Some(Some(None)) => SubmitStepView::Refuse(VERIFY_NO_ROLE_FORM@),
            Some(Some(Some(_))) => match typed(inputs, IGN_INPUT_ID@) {
                None => SubmitStepView::Refuse("No IGN provided. Try again."@),
                Some(t) => if trimmed(t).len() == 0 {
                    SubmitStepView::Refuse("Please enter your in-game name."@)
                } else if !plausible(trimmed(t)) {
                    SubmitStepView::Refuse(
                        "That doesn't look like a RotMG IGN — it should be 1-12 letters."@,
                    )
                } else {
                    SubmitStepView::Issue(trimmed(t))
                },
            },
        }
    }
}

/// What to do next about a name that was typed.
pub fn submit_step(in_guild: bool, role: GuildRole, inputs: &Vec<TypedInput>) -> (r: SubmitStep)
    ensures
        r@ == submit_of(in_guild, role, inputs@),
{
    if !in_guild {
        return SubmitStep::Refuse(own(VERIFY_SERVER_ONLY));
    }
    match role {
        None => {
            return SubmitStep::LoadGuild;
        },
        Some(None) => {
            return SubmitStep::Refuse(own(VERIFY_NO_SETUP));
        },
        Some(Some(None)) => {
            return SubmitStep::Refuse(own(VERIFY_NO_ROLE_FORM));
        },
        Some(Some(Some(_))) => {},
    }
    let name = match extract_input(inputs, IGN_INPUT_ID) {
        Some(t) => trim(&t),
        None => {
            return SubmitStep::Refuse(own("No IGN provided. Try again."));
        },
    };
    if name.as_str().is_empty() {
        SubmitStep::Refuse(own("Please enter your in-game name."))
    } else if !is_plausible_ign(&name) {
        SubmitStep::Refuse(own("That doesn't look like a RotMG IGN — it should be 1-12 letters."))
    } else {
        SubmitStep::Issue(name)
    }
}

/// Codes are given only for names of 1 to 20 letters.
pub proof fn codes_are_for_letters(
    in_guild: bool,
    role: GuildRole,
    inputs: Seq<TypedInput>,
    name: Seq<char>,
)
    requires
        submit_of(in_guild, role, inputs) == SubmitStepView::Issue(name),
    ensures
        0 < name.len() <= 20,
        all_letters(name),
{
}

// ----- the code -------------------------------------------------------------------------------

/// What comes behind the code.
pub const CODE_STEPS: &'static str = "\n```\n\
    3. Save the description. Make sure your **profile is set to public** \
    (RealmEye → Settings → Privacy) — that controls description visibility too.\n\
    4. Click **I added it** below.\n\
    \n\
    You can remove the code from your description as soon as \
    verification succeeds. The code expires in 30 minutes — click \
    **New code** if it does.";

/// The embed that gives a code.
pub open spec fn code_view(claimed_ign: Seq<char>, code: Seq<char>) -> EmbedView {
    EmbedView::new(
        "🔐 Verification code"@,
        "Almost there. To prove **"@ + claimed_ign
            + "** is your in-game name:\n\n1. Open <https://www.realmeye.com/player/"@ + claimed_ign
            + "> and log in.\n2. Edit your description and paste this code:\n```\n"@ + code
            + CODE_STEPS@,
        0x5865F2,
    )
}

/// Build the embed that gives a code.
pub fn code_embed(claimed_ign: &str, code: &str) -> (r: Embed)
    ensures
        r@ == code_view(claimed_ign@, code@),
{
    let text = cat7(
        "Almost there. To prove **",
        claimed_ign,
        "** is your in-game name:\n\n1. Open <https://www.realmeye.com/player/",
        claimed_ign,
        "> and log in.\n2. Edit your description and paste this code:\n```\n",
        code,
        CODE_STEPS,
    );
    Embed::new("🔐 Verification code", &text, 0x5865F2)
}

/// The buttons below a code.
pub open spec fn check_rows() -> Seq<RowView> {
    Seq::empty().push(
        RowView::Buttons(
            Seq::empty().push(
                ButtonView::new("verify:check"@, "I added it"@, ButtonStyle::Success),
            ).push(ButtonView::new("verify:resend"@, "New code"@, ButtonStyle::Secondary)),
        ),
    )
}

/// Build the buttons below a code.
pub fn check_buttons() -> (r: Rows)
    ensures
        r@ == check_rows(),
{
    Rows::new().buttons(
        Buttons::new().push(Button::new("verify:check", "I added it", ButtonStyle::Success)).push(
            Button::new("verify:resend", "New code", ButtonStyle::Secondary),
        ),
    )
}

// ----- looking for the code -------------------------------------------------------------------

/// What was found of a player.
#[derive(Debug)]
pub enum Profile {
    /// The page of a player: the name as RealmEye writes it, and the description
    /// where there is one to be seen.
    Page {
        /// The name.
        canonical_ign: String,
        /// The description.
        description: Option<String>,
    },
    /// There is no such player.
    NotFound,
    /// RealmEye asks to wait.
    Throttled,
    /// RealmEye did not answer.
    Unavailable,
}

/// How a member who is verified now was verified before.
#[derive(Debug)]
pub enum VerifiedKind {
    /// Not at all.
    Created,
    /// Under the same name.
    Refreshed,
    /// Under another name.
    Rebound {
        /// That name.
        from: String,
    },
}

/// How a member was verified before, over views.
pub ghost enum VerifiedKindView {
    Created,
    Refreshed,
    Rebound(Seq<char>),
}

impl View for VerifiedKind {
    type V = VerifiedKindView;

    open spec fn view(&self) -> VerifiedKindView {
        match self {
            VerifiedKind::Created => VerifiedKindView::Created,
            VerifiedKind::Refreshed => VerifiedKindView::Refreshed,
            VerifiedKind::Rebound { from } => VerifiedKindView::Rebound(from@),
        }
    }
}

/// What came of looking for a code.
#[derive(Debug)]
pub enum Outcome {
    /// The member is verified.
    Verified {
        /// The name as RealmEye writes it.
        canonical_ign: String,
        /// How the member was verified before.
        kind: VerifiedKind,
    },
    /// No code was given.
    NoPending,
    /// The code has ended.
    Expired,
    /// The description does not hold the code.
    CodeMissing {
        /// The name as RealmEye writes it.
        canonical_ign: String,
    },
    /// The description cannot be seen.
    Private {
        /// The name as RealmEye writes it.
        canonical_ign: String,
    },
    /// There is no such player.
    NotFound,
    /// RealmEye asks to wait.
    Throttled,
    /// RealmEye did not answer.
    RealmEyeUnavailable,
    /// Somebody else is verified under the name.
    IgnTaken {
        /// Who that is.
        holder: i64,
    },
}

/// What came of looking for a code, over views.
pub ghost enum OutcomeView {
    Verified(Seq<char>, VerifiedKindView),
    NoPending,
    Expired,
    CodeMissing(Seq<char>),
    Private(Seq<char>),
    NotFound,
    Throttled,
    RealmEyeUnavailable,
    IgnTaken(i64),
}

impl View for Outcome {
    type V = OutcomeView;

    open spec fn view(&self) -> OutcomeView {
        match self {
            Outcome::Verified { canonical_ign, kind } => OutcomeView::Verified(
                canonical_ign@,
                kind@,
            ),
            Outcome::NoPending => OutcomeView::NoPending,
            Outcome::Expired => OutcomeView::Expired,
            Outcome::CodeMissing { canonical_ign } => OutcomeView::CodeMissing(canonical_ign@),
            Outcome::Private { canonical_ign } => OutcomeView::Private(canonical_ign@),
            Outcome::NotFound => OutcomeView::NotFound,
            Outcome::Throttled => OutcomeView::Throttled,
            Outcome::RealmEyeUnavailable => OutcomeView::RealmEyeUnavailable,
            Outcome::IgnTaken { holder } => OutcomeView::IgnTaken(*holder),
        }
    }
}

/// What to do about an attempt.
#[derive(Debug)]
pub enum AttemptStep {
    /// Fetch the page of this player.
    Fetch(String),
    /// Store that the member is verified under this name.
    Store(String),
    /// It is over.
    Done(Outcome),
}

/// What to do about an attempt, over views.
pub ghost enum AttemptStepView {
    Fetch(Seq<char>),
    Store(Seq<char>),
    Done(OutcomeView),
}

impl View for AttemptStep {
    type V = AttemptStepView;

    open spec fn view(&self) -> AttemptStepView {
        match self {
            AttemptStep::Fetch(n) => AttemptStepView::Fetch(n@),
            AttemptStep::Store(n) => AttemptStepView::Store(n@),
            AttemptStep::Done(o) => AttemptStepView::Done(o@),
        }
    }
}

/// What was stored means for the outcome.
pub open spec fn outcome_of(ign: Seq<char>, r: UpsertResultView) -> OutcomeView {
    match r {
        UpsertResultView::Created => OutcomeView::Verified(ign, VerifiedKindView::Created),
        UpsertResultView::Refreshed => OutcomeView::Verified(ign, VerifiedKindView::Refreshed),
        UpsertResultView::Rebound { from, .. } => OutcomeView::Verified(
            ign,
            VerifiedKindView::Rebound(from),
        ),
        UpsertResultView::IgnTaken { holder } => OutcomeView::IgnTaken(holder),
    }
}

/// What to do about an attempt: a code must have been given and not have ended, the
/// player must be known, and the description must be there and hold the code. The
/// member is then verified under the name as RealmEye writes it, unless somebody
/// else is.
pub open spec fn attempt_of(
    pending: Option<PendingVerification>,
    now: i64,
    profile: Option<Profile>,
    stored: Option<UpsertResult>,
) -> AttemptStepView {
    match pending {
        None => AttemptStepView::Done(OutcomeView::NoPending),
        Some(p) => if p.expires_at < now {
            AttemptStepView::Done(OutcomeView::Expired)
        } else {
            match profile {
                None => AttemptStepView::Fetch(p.claimed_ign@),
                Some(Profile::NotFound) => AttemptStepView::Done(OutcomeView::NotFound),
                Some(Profile::Throttled) => AttemptStepView::Done(OutcomeView::Throttled),
                Some(Profile::Unavailable) => AttemptStepView::Done(
                    OutcomeView::RealmEyeUnavailable,
                ),
                Some(Profile::Page { canonical_ign, description }) => match description {
                    None => AttemptStepView::Done(OutcomeView::Private(canonical_ign@)),
                    Some(d) => if !occurs(d@, p.code@) {
                        AttemptStepView::Done(OutcomeView::CodeMissing(canonical_ign@))
                    } else {
                        match stored {
                            None => AttemptStepView::Store(canonical_ign@),
                            Some(r) => AttemptStepView::Done(outcome_of(canonical_ign@, r@)),
                        }
                    },
                },
            }
        },
    }
}

/// What to do next about an attempt.
pub fn attempt_step(
    pending: &Option<PendingVerification>,
    now: i64,
    profile: &Option<Profile>,
    stored: &Option<UpsertResult>,
) -> (r: AttemptStep)
    ensures
        r@ == attempt_of(*pending, now, *profile, *stored),
{
    let p = match pending {
        None => {
            return AttemptStep::Done(Outcome::NoPending);
        },
        Some(p) => p,
    };
    if p.expires_at < now {
        return AttemptStep::Done(Outcome::Expired);
    }
    match profile {
        None => AttemptStep::Fetch(own(&p.claimed_ign)),
        Some(Profile::NotFound) => AttemptStep::Done(Outcome::NotFound),
        Some(Profile::Throttled) => AttemptStep::Done(Outcome::Throttled),
        Some(Profile::Unavailable) => AttemptStep::Done(Outcome::RealmEyeUnavailable),
        Some(Profile::Page { canonical_ign, description }) => {
            let name = own(canonical_ign);
            match description {
                None => AttemptStep::Done(Outcome::Private { canonical_ign: name }),
                Some(d) => if !contains(d, &p.code) {
                    AttemptStep::Done(Outcome::CodeMissing { canonical_ign: name })
                } else {
                    match stored {
                        None => AttemptStep::Store(name),
                        Some(UpsertResult::Created) => AttemptStep::Done(
                            Outcome::Verified { canonical_ign: name, kind: VerifiedKind::Created },
                        ),
                        Some(UpsertResult::Refreshed) => AttemptStep::Done(
                            Outcome::Verified {
                                canonical_ign: name,
                                kind: VerifiedKind::Refreshed,
                            },
                        ),
                        Some(UpsertResult::Rebound { from, .. }) => AttemptStep::Done(
                            Outcome::Verified {
                                canonical_ign: name,
                                kind: VerifiedKind::Rebound { from: own(from) },
                            },
                        ),
                        Some(UpsertResult::IgnTaken { holder }) => AttemptStep::Done(
                            Outcome::IgnTaken { holder: *holder },
                        ),
                    }
                },
            }
        },
    }
}

/// An attempt verifies a member under a name, or is about to.
pub open spec fn verifies(step: AttemptStepView, name: Seq<char>) -> bool {
    match step {
        AttemptStepView::Store(n) => n == name,
        AttemptStepView::Done(OutcomeView::Verified(n, _)) => n == name,
        _ => false,
    }
}

/// Nobody is verified without a code that has not ended and that stands in the
/// description of the player.
pub proof fn only_codes_verify(
    pending: Option<PendingVerification>,
    now: i64,
    profile: Option<Profile>,
    stored: Option<UpsertResult>,
    name: Seq<char>,
)
    requires
        verifies(attempt_of(pending, now, profile, stored), name),
    ensures
        pending is Some,
        now <= pending->0.expires_at,
        profile matches Some(Profile::Page { canonical_ign, description }) && canonical_ign@ == name
            && description is Some && occurs(description->0@, pending->0.code@),
{
}

/// How long a code lasts, in seconds: half an hour.
pub const CODE_SECONDS: i64 = 1_800;

/// When a code that is given now ends.
pub fn code_ends(now: i64) -> (r: i64)
    requires
        now + CODE_SECONDS * MICROS_PER_SECOND <= i64::MAX,
    ensures
        r == now + CODE_SECONDS * MICROS_PER_SECOND,
{
    now + CODE_SECONDS * MICROS_PER_SECOND
}

/// A code is good for as long as it lasts, its last moment included, and no longer.
pub proof fn codes_last_as_long_as_said(
    p: PendingVerification,
    given: i64,
    now: i64,
    profile: Option<Profile>,
    stored: Option<UpsertResult>,
)
    requires
        p.expires_at == given + CODE_SECONDS * MICROS_PER_SECOND,
    ensures
        (attempt_of(Some(p), now, profile, stored) == AttemptStepView::Done(OutcomeView::Expired)) == (
        now > given + CODE_SECONDS * MICROS_PER_SECOND),
{
}

/// How the start of an answer to a missing code reads.
pub const CODE_MISSING_HINT: &'static str = ">'s description. \
    Make sure you saved the description and that your **profile \
    is set to public** (RealmEye → Settings → Privacy), then click \
    **I added it** again.";

/// How to make a description public.
pub const PRIVATE_HINT: &'static str = "** is private (or your \
    description is empty). Set your **profile to public** (RealmEye → \
    Settings → Privacy), save your description, and click **I added it** again.";

/// What is said where there is no such player.
pub const PLAYER_NOT_FOUND: &'static str =
    "RealmEye doesn't have a player by that name. Make sure your in-game name is \
    spelled exactly right and that you've logged into the game on this account at \
    least once recently — RealmEye doesn't show characters that have never been \
    seen.";

/// What is said where RealmEye cannot be reached.
pub const REALMEYE_DOWN: &'static str =
    "Couldn't reach RealmEye right now. Try **I added it** again in a minute. \
    If this keeps failing, ask a moderator to verify you manually.";

/// What comes behind who is verified under a name.
pub const NAME_TAKEN_HINT: &'static str =
    "** is already verified with that in-game name in this server. \
    If that's a mistake, ping a moderator.";

/// What is said of an attempt that did not verify, and whether the buttons stay so
/// that it can be repeated.
pub open spec fn failure_text(o: OutcomeView) -> Option<(Seq<char>, bool)> {
    match o {
        OutcomeView::Verified(_, _) => None,
        OutcomeView::NoPending => Some((NO_PENDING@, false)),
        OutcomeView::Expired => Some(
            ("Your code expired. Run /verify again to get a fresh one."@, false),
        ),
        OutcomeView::CodeMissing(ign) => Some(
            (
                "Couldn't find your code in <https://www.realmeye.com/player/"@ + ign
                    + CODE_MISSING_HINT@,
                true,
            ),
        ),
        OutcomeView::Private(ign) => Some(
            ("Your RealmEye profile for **"@ + ign + PRIVATE_HINT@, true),
        ),
        OutcomeView::NotFound => Some((PLAYER_NOT_FOUND@, false)),
        OutcomeView::Throttled => Some((REALMEYE_DOWN@, true)),
        OutcomeView::RealmEyeUnavailable => Some((REALMEYE_DOWN@, true)),
        OutcomeView::IgnTaken(holder) => Some(
            ("**"@ + user(holder as int) + NAME_TAKEN_HINT@, false),
        ),
    }
}

/// What is said of an attempt that did not verify, and whether the buttons stay.
pub fn failure_reply(o: &Outcome) -> (r: Option<(String, bool)>)
    ensures
        match r {
            Some((t, keep)) => failure_text(o@) == Some((t@, keep)),
            None => failure_text(o@) is None,
        },
{
    match o {
        Outcome::Verified { .. } => None,
        Outcome::NoPending => Some((own(NO_PENDING), false)),
        Outcome::Expired => Some(
            (own("Your code expired. Run /verify again to get a fresh one."), false),
        ),
        Outcome::CodeMissing { canonical_ign } => Some(
            (
                cat3(
                    "Couldn't find your code in <https://www.realmeye.com/player/",
                    canonical_ign,
                    CODE_MISSING_HINT,
                ),
                true,
            ),
        ),
        Outcome::Private { canonical_ign } => Some(
            (cat3("Your RealmEye profile for **", canonical_ign, PRIVATE_HINT), true),
        ),
        Outcome::NotFound => Some((own(PLAYER_NOT_FOUND), false)),
        Outcome::Throttled => Some((own(REALMEYE_DOWN), true)),
        Outcome::RealmEyeUnavailable => Some((own(REALMEYE_DOWN), true)),
        Outcome::IgnTaken { holder } => Some(
            (cat3("**", &user_i64(*holder), NAME_TAKEN_HINT), false),
        ),
    }
}

/// The name for which a new code is given, or what is said where none was given
/// before.
pub fn resend_check(pending: &Option<PendingVerification>) -> (r: Result<String, String>)
    ensures
        match (*pending, r) {
            (Some(p), Ok(n)) => n@ == p.claimed_ign@,
            (None, Err(t)) => t@ == NO_PENDING@,
            _ => false,
        },
{
    match pending {
        Some(p) => Ok(own(&p.claimed_ign)),
        None => Err(own(NO_PENDING)),
    }
}

// ----- role and nickname ------------------------------------------------------------------------

/// Whether a member got the role.
#[derive(Debug)]
pub enum RoleApplyResult {
    /// Yes.
    Applied,
    /// No, and why.
    Failed {
        /// Why.
        reason: String,
    },
}

/// Whether a member got the nickname.
#[derive(Debug)]
pub enum NicknameApplyResult {
    /// Yes.
    Applied,
    /// No, and why.
    Skipped {
        /// Why.
        reason: String,
    },
}

/// What a member got.
#[derive(Debug)]
pub struct ApplyOutcome {
    /// The role.
    pub role: RoleApplyResult,
    /// The nickname.
    pub nickname: NicknameApplyResult,
}

/// What a member got, over views: the reasons against the role and the nickname.
pub ghost struct ApplyOutcomeView {
    pub role: Option<Seq<char>>,
    pub nickname: Option<Seq<char>>,
}

impl View for ApplyOutcome {
    type V = ApplyOutcomeView;

    open spec fn view(&self) -> ApplyOutcomeView {
        ApplyOutcomeView {
            role: match self.role {
                RoleApplyResult::Applied => None,
                RoleApplyResult::Failed { reason } => Some(reason@),
            },
            nickname: match self.nickname {
                NicknameApplyResult::Applied => None,
                NicknameApplyResult::Skipped { reason } => Some(reason@),
            },
        }
    }
}

/// What a member gets in a server without a role for verified members: neither the
/// role nor the nickname.
pub fn nothing_applied() -> (r: ApplyOutcome)
    ensures
        r@ == (ApplyOutcomeView {
            role: Some("no Verified role configured"@),
            nickname: Some("no Verified role configured"@),
        }),
{
    ApplyOutcome {
        role: RoleApplyResult::Failed { reason: own("no Verified role configured") },
        nickname: NicknameApplyResult::Skipped { reason: own("no Verified role configured") },
    }
}

/// What can be done where the role was not given.
pub const ROLE_HINT: &'static str = ". Ask a moderator to grant it manually.";

/// What can be done where the nickname was not set.
pub const NICKNAME_HINT: &'static str = ". You can set it yourself in **Edit Server Profile**.";

/// The line on the role, with a hint where it was not given.
pub open spec fn role_line(a: ApplyOutcomeView) -> Seq<char> {
    match a.role {
        None => "• Verified role: granted."@,
        Some(reason) => "• Verified role: **could not assign** — "@ + reason + ROLE_HINT@,
    }
}

/// The line on the nickname, with a hint where it was not set.
pub open spec fn nickname_line(a: ApplyOutcomeView, ign: Seq<char>) -> Seq<char> {
    match a.nickname {
        None => "• Nickname: set to **"@ + ign + "**."@,
        Some(reason) => "• Nickname: not changed — "@ + reason + NICKNAME_HINT@,
    }
}

/// The lines on the role and the nickname.
pub open spec fn outcome_lines(a: ApplyOutcomeView, ign: Seq<char>) -> Seq<char> {
    role_line(a) + "\n"@ + nickname_line(a, ign)
}

fn show_outcome_lines(a: &ApplyOutcome, ign: &str) -> (r: String)
    ensures
        r@ == outcome_lines(a@, ign@),
{
    let role = match &a.role {
        RoleApplyResult::Applied => own("• Verified role: granted."),
        RoleApplyResult::Failed { reason } => cat3(
            "• Verified role: **could not assign** — ",
            reason,
            ROLE_HINT,
        ),
    };
    let nickname = match &a.nickname {
        NicknameApplyResult::Applied => cat3("• Nickname: set to **", ign, "**."),
        NicknameApplyResult::Skipped { reason } => cat3(
            "• Nickname: not changed — ",
            reason,
            NICKNAME_HINT,
        ),
    };
    cat3(&role, "\n", &nickname)
}

/// What is said to a member who is verified.
pub open spec fn success_line(ign: Seq<char>, kind: VerifiedKindView) -> Seq<char> {
    match kind {
        VerifiedKindView::Created => "✅ Verified as **"@ + ign + "**."@,
        VerifiedKindView::Refreshed => "✅ Re-verified as **"@ + ign + "**."@,
        VerifiedKindView::Rebound(from) => "✅ Verified as **"@ + ign
            + "** (replaces your previous IGN, _"@ + from + "_)."@,
    }
}

/// The embed for a member who is verified.
pub open spec fn success_view(
    ign: Seq<char>,
    kind: VerifiedKindView,
    apply: ApplyOutcomeView,
) -> EmbedView {
    EmbedView::new(
        "🔐 Verification complete"@,
        success_line(ign, kind) + "\n"@ + outcome_lines(apply, ign)
            + "\n\nThanks for verifying! You can dismiss this message."@,
        0x57F287,
    )
}

/// Build the embed for a member who is verified.
pub fn success_embed(canonical_ign: &str, kind: &VerifiedKind, apply: &ApplyOutcome) -> (r: Embed)
    ensures
        r@ == success_view(canonical_ign@, kind@, apply@),
{
    let first = match kind {
        VerifiedKind::Created => cat3("✅ Verified as **", canonical_ign, "**."),
        VerifiedKind::Refreshed => cat3("✅ Re-verified as **", canonical_ign, "**."),
        VerifiedKind::Rebound { from } => cat5(
            "✅ Verified as **",
            canonical_ign,
            "** (replaces your previous IGN, _",
            from,
            "_).",
        ),
    };
    let text = cat4(
        &first,
        "\n",
        &show_outcome_lines(apply, canonical_ign),
        "\n\nThanks for verifying! You can dismiss this message.",
    );
    Embed::new("🔐 Verification complete", &text, 0x57F287)
}

// ----- verified by hand ---------------------------------------------------------------------

/// What came of verifying by hand.
#[derive(Debug)]
pub enum ManualOutcome {
    /// The member is verified.
    Verified {
        /// How the member was verified before.
        kind: VerifiedKind,
    },
    /// Somebody else is verified under the name.
    IgnTaken {
        /// Who that is.
        holder: i64,
    },
}

/// What came of verifying by hand, over views.
pub ghost enum ManualOutcomeView {
    Verified(VerifiedKindView),
    IgnTaken(i64),
}

impl View for ManualOutcome {
    type V = ManualOutcomeView;

    open spec fn view(&self) -> ManualOutcomeView {
        match self {
            ManualOutcome::Verified { kind } => ManualOutcomeView::Verified(kind@),
            ManualOutcome::IgnTaken { holder } => ManualOutcomeView::IgnTaken(*holder),
        }
    }
}

/// What was stored means for the outcome.
pub open spec fn manual_outcome_of(r: UpsertResultView) -> ManualOutcomeView {
    match r {
        UpsertResultView::Created => ManualOutcomeView::Verified(VerifiedKindView::Created),
        UpsertResultView::Refreshed => ManualOutcomeView::Verified(VerifiedKindView::Refreshed),
        UpsertResultView::Rebound { from, .. } => ManualOutcomeView::Verified(
            VerifiedKindView::Rebound(from),
        ),
        UpsertResultView::IgnTaken { holder } => ManualOutcomeView::IgnTaken(holder),
    }
}

/// What was stored means for the outcome.
pub fn manual_outcome(r: UpsertResult) -> (o: ManualOutcome)
    ensures
        o@ == manual_outcome_of(r@),
{
    match r {
        UpsertResult::Created => ManualOutcome::Verified { kind: VerifiedKind::Created },
        UpsertResult::Refreshed => ManualOutcome::Verified { kind: VerifiedKind::Refreshed },
        UpsertResult::Rebound { from, .. } => ManualOutcome::Verified {
            kind: VerifiedKind::Rebound { from },
        },
        UpsertResult::IgnTaken { holder } => ManualOutcome::IgnTaken { holder },
    }
}

/// What an admin is told first of a member who was verified by hand.
pub open spec fn by_hand_line(ign: Seq<char>, kind: VerifiedKindView) -> Seq<char> {
    match kind {
        VerifiedKindView::Created => "✅ Manually verified as **"@ + ign + "**."@,
        VerifiedKindView::Refreshed => "✅ Re-verified as **"@ + ign + "**."@,
        VerifiedKindView::Rebound(from) => "✅ Manually verified as **"@ + ign
            + "** (replaces previous IGN, _"@ + from + "_)."@,
    }
}

/// What an admin is told of a member who was verified by hand.
pub open spec fn manual_text(
    apply: ApplyOutcomeView,
    ign: Seq<char>,
    kind: ManualOutcomeView,
) -> Seq<char> {
    match kind {
        ManualOutcomeView::IgnTaken(holder) => "**"@ + user(holder as int)
            + "** is already verified with that in-game name."@,
        ManualOutcomeView::Verified(k) => by_hand_line(ign, k) + "\n"@ + outcome_lines(apply, ign),
    }
}

/// Render what an admin is told of a member who was verified by hand.
pub fn render_manual_outcome(apply: &ApplyOutcome, canonical_ign: &str, kind: &ManualOutcome) -> (r:
    String)
    ensures
        r@ == manual_text(apply@, canonical_ign@, kind@),
{
    let first = match kind {
        ManualOutcome::Verified { kind: VerifiedKind::Created } => cat3(
            "✅ Manually verified as **",
            canonical_ign,
            "**.",
        ),
        ManualOutcome::Verified { kind: VerifiedKind::Refreshed } => cat3(
            "✅ Re-verified as **",
            canonical_ign,
            "**.",
        ),
        ManualOutcome::Verified { kind: VerifiedKind::Rebound { from } } => cat5(
            "✅ Manually verified as **",
            canonical_ign,
            "** (replaces previous IGN, _",
            from,
            "_).",
        ),
        ManualOutcome::IgnTaken { holder } => {
            return cat3(
                "**",
                &user_i64(*holder),
                "** is already verified with that in-game name.",
            );
        },
    };
    cat3(&first, "\n", &show_outcome_lines(apply, canonical_ign))
}

/// Who verifies themselves and who is verified by hand are shown the same lines on the
/// role and the nickname, whatever came of them.
pub proof fn both_ways_show_the_same_lines(
    apply: ApplyOutcomeView,
    ign: Seq<char>,
    kind: VerifiedKindView,
    by_hand: VerifiedKindView,
)
    ensures
        success_view(ign, kind, apply).description == Some(
            success_line(ign, kind) + "\n"@ + outcome_lines(apply, ign)
                + "\n\nThanks for verifying! You can dismiss this message."@,
        ),
        manual_text(apply, ign, ManualOutcomeView::Verified(by_hand)) == by_hand_line(ign, by_hand)
            + "\n"@ + outcome_lines(apply, ign),
{
}

// ----- the log --------------------------------------------------------------------------------

/// The line of the log for a member who verified themselves.
pub open spec fn self_line(user_id: u64, ign: Seq<char>, kind: VerifiedKindView) -> Seq<char> {
    match kind {
        VerifiedKindView::Created => "🔐 Verified: "@ + user(user_id as int) + " as `"@ + ign + "`"@,
        VerifiedKindView::Refreshed => "🔐 Re-verified: "@ + user(user_id as int)
            + " refreshed as `"@ + ign + "`"@,
        VerifiedKindView::Rebound(from) => "🔐 Rebind: "@ + user(user_id as int)
            + " changed IGN from `"@ + from + "` to `"@ + ign + "`"@,
    }
}

/// Render the line of the log for a member who verified themselves.
pub fn self_verify_audit_line(user_id: u64, canonical_ign: &str, kind: &VerifiedKind) -> (r: String)
    ensures
        r@ == self_line(user_id, canonical_ign@, kind@),
{
    let who = user_u64(user_id);
    match kind {
        VerifiedKind::Created => cat5("🔐 Verified: ", &who, " as `", canonical_ign, "`"),
        VerifiedKind::Refreshed => cat5(
            "🔐 Re-verified: ",
            &who,
            " refreshed as `",
            canonical_ign,
            "`",
        ),
        VerifiedKind::Rebound { from } => cat7(
            "🔐 Rebind: ",
            &who,
            " changed IGN from `",
            from,
            "` to `",
            canonical_ign,
            "`",
        ),
    }
}

/// The line of the log for a member who was verified by hand; there is none where
/// somebody else has the name.
pub open spec fn manual_line(
    admin_id: u64,
    target_id: u64,
    ign: Seq<char>,
    kind: ManualOutcomeView,
) -> Option<Seq<char>> {
    let who = user(target_id as int);
    match kind {
        ManualOutcomeView::IgnTaken(_) => None,
        ManualOutcomeView::Verified(k) => {
            let body = match k {
                VerifiedKindView::Created => who + " as `"@ + ign + "`"@,
                VerifiedKindView::Refreshed => who + " refreshed as `"@ + ign + "`"@,
                VerifiedKindView::Rebound(from) => who + " rebound from `"@ + from + "` to `"@ + ign
                    + "`"@,
            };
            Some("🔐 Manual-verified by "@ + user(admin_id as int) + ": "@ + body)
        },
    }
}

/// Render the line of the log for a member who was verified by hand.
pub fn manual_verify_audit_line(
    admin_id: u64,
    target_id: u64,
    canonical_ign: &str,
    kind: &ManualOutcome,
) -> (r: Option<String>)
    ensures
        crate::text::opt_view(r) == manual_line(admin_id, target_id, canonical_ign@, kind@),
{
    let who = user_u64(target_id);
    let body = match kind {
        ManualOutcome::IgnTaken { .. } => {
            return None;
        },
        ManualOutcome::Verified { kind: VerifiedKind::Created } => cat4(
            &who,
            " as `",
            canonical_ign,
            "`",
        ),
        ManualOutcome::Verified { kind: VerifiedKind::Refreshed } => cat4(
            &who,
            " refreshed as `",
            canonical_ign,
            "`",
        ),
        ManualOutcome::Verified { kind: VerifiedKind::Rebound { from } } => Text::new(&who).add(
            " rebound from `",
        ).add(from).add("` to `").add(canonical_ign).add("`").done(),
    };
    Some(cat4("🔐 Manual-verified by ", &user_u64(admin_id), ": ", &body))
}

// ----- what verifying is for --------------------------------------------------------------------

/// A name is plausible exactly where it is one to twenty letters.
pub proof fn names_are_one_to_twenty_letters(s: Seq<char>)
    ensures
        plausible(s) <==> 1 <= s.len() && s.len() <= 20 && (forall|i: int|
            0 <= i < s.len() ==> ('A' <= #[trigger] s[i] <= 'Z' || 'a' <= s[i] <= 'z')),
{
}

/// The form for the name opens exactly in a server that has a role for verified members;
/// it asks for the one input that is then read.
pub proof fn the_name_is_asked_for_where_there_is_a_role(in_guild: bool, role: GuildRole)
    ensures
        verify_start_of(in_guild, role) is Open <==> in_guild && role is Some && role->0 is Some
            && role->0->0 is Some,
        verify_start_of(in_guild, role) matches VerifyStartStepView::Open(form) ==> form.inputs.len()
            == 1 && form.inputs[0].custom_id == "ign"@ && form.inputs[0].required,
        !in_guild ==> verify_start_of(in_guild, role) is Refuse,
{
}

/// A code is given for the name as it was typed, without the white space around it,
/// exactly where the server has a role and the name is plausible.
pub proof fn codes_are_given_for_the_typed_name(
    in_guild: bool,
    role: GuildRole,
    inputs: Seq<TypedInput>,
)
    ensures
        submit_of(in_guild, role, inputs) is Issue <==> in_guild && role is Some && role->0 is Some
            && role->0->0 is Some && typed(inputs, "ign"@) is Some && plausible(
            trimmed(typed(inputs, "ign"@)->0),
        ),
        submit_of(in_guild, role, inputs) matches SubmitStepView::Issue(name) ==> name == trimmed(
            typed(inputs, "ign"@)->0,
        ),
{
}

/// What is shown to who gets a code holds the name, the code and the two buttons that
/// lead on.
pub proof fn codes_are_shown(ign: Seq<char>, code: Seq<char>)
    ensures
        code_view(ign, code).description is Some,
        occurs(code_view(ign, code).description->0, "```\n"@ + code + "\n```"@),
        occurs(
            code_view(ign, code).description->0,
            "<https://www.realmeye.com/player/"@ + ign + ">"@,
        ),
        check_rows().len() == 1,
        check_rows()[0] matches RowView::Buttons(b) && b.len() == 2 && b[0].custom_id
            == "verify:check"@ && b[1].custom_id == "verify:resend"@,
{
    reveal_strlit("Almost there. To prove **");
    reveal_strlit("** is your in-game name:\n\n1. Open <https://www.realmeye.com/player/");
    reveal_strlit("> and log in.\n2. Edit your description and paste this code:\n```\n");
    reveal_strlit("```\n");
    reveal_strlit("\n```");
    reveal_strlit(">");
    reveal_strlit("<https://www.realmeye.com/player/");
    reveal_strlit(
        "\n```\n\
    3. Save the description. Make sure your **profile is set to public** \
    (RealmEye → Settings → Privacy) — that controls description visibility too.\n\
    4. Click **I added it** below.\n\
    \n\
    You can remove the code from your description as soon as \
    verification succeeds. The code expires in 30 minutes — click \
    **New code** if it does.",
    );
    let a = "Almost there. To prove **"@;
    let b = "** is your in-game name:\n\n1. Open <https://www.realmeye.com/player/"@;
    let c = "> and log in.\n2. Edit your description and paste this code:\n```\n"@;
    let d = code_view(ign, code).description->0;
    assert(d == a + ign + b + ign + c + code + CODE_STEPS@);
    let fence = "```\n"@ + code + "\n```"@;
    let at = a.len() + ign.len() + b.len() + ign.len() + c.len() - 4;
    assert(d.subrange(at, at + fence.len()) =~= fence);
    assert(occurs_at(d, at, fence));
    let link = "<https://www.realmeye.com/player/"@ + ign + ">"@;
    let from = a.len() + ign.len() + b.len() - "<https://www.realmeye.com/player/"@.len();
    assert(d.subrange(from, from + link.len()) =~= link);
    assert(occurs_at(d, from, link));
}

/// Who put their code into their description in time is verified, under the name as the
/// page writes it: the name is stored, and once it is, the outcome says how.
pub proof fn codes_in_the_description_verify(
    p: PendingVerification,
    now: i64,
    name: String,
    text: String,
    stored: Option<UpsertResult>,
)
    requires
        now <= p.expires_at,
        occurs(text@, p.code@),
    ensures
        ({
            let page = Some(Profile::Page { canonical_ign: name, description: Some(text) });
            let step = attempt_of(Some(p), now, page, stored);
            &&& stored is None ==> step == AttemptStepView::Store(name@)
            &&& stored matches Some(UpsertResult::Created) ==> step == AttemptStepView::Done(
                OutcomeView::Verified(name@, VerifiedKindView::Created),
            )
            &&& stored matches Some(UpsertResult::Refreshed) ==> step == AttemptStepView::Done(
                OutcomeView::Verified(name@, VerifiedKindView::Refreshed),
            )
            &&& stored matches Some(UpsertResult::Rebound { from, to }) ==> step
                == AttemptStepView::Done(
                OutcomeView::Verified(name@, VerifiedKindView::Rebound(from@)),
            )
            &&& stored matches Some(UpsertResult::IgnTaken { holder }) ==> step
                == AttemptStepView::Done(OutcomeView::IgnTaken(holder))
        }),
{
}

/// What an attempt fails for is told: no code was given, the code ended, the page could
/// not be had, the description is missing, or the code is not in it.
pub proof fn attempts_fail_for_their_reason(
    p: PendingVerification,
    now: i64,
    profile: Option<Profile>,
    stored: Option<UpsertResult>,
)
    ensures
        attempt_of(None, now, profile, stored) == AttemptStepView::Done(OutcomeView::NoPending),
        p.expires_at < now ==> attempt_of(Some(p), now, profile, stored) == AttemptStepView::Done(
            OutcomeView::Expired,
        ),
        now <= p.expires_at ==> {
            let step = attempt_of(Some(p), now, profile, stored);
            &&& profile is None ==> step == AttemptStepView::Fetch(p.claimed_ign@)
            &&& profile matches Some(Profile::NotFound) ==> step == AttemptStepView::Done(
                OutcomeView::NotFound,
            )
            &&& profile matches Some(Profile::Throttled) ==> step == AttemptStepView::Done(
                OutcomeView::Throttled,
            )
            &&& profile matches Some(Profile::Unavailable) ==> step == AttemptStepView::Done(
                OutcomeView::RealmEyeUnavailable,
            )
            &&& profile matches Some(Profile::Page { canonical_ign, description }) ==> {
                &&& description is None ==> step == AttemptStepView::Done(
                    OutcomeView::Private(canonical_ign@),
                )
                &&& description matches Some(d) ==> !occurs(d@, p.code@) ==> step
                    == AttemptStepView::Done(OutcomeView::CodeMissing(canonical_ign@))
            }
        },
{
}

/// Whoever was not verified is told why, and can try again in place exactly where trying
/// again can help: the code is missing, the page is private, or RealmEye cannot be had.
pub proof fn failures_are_told(o: OutcomeView)
    ensures
        failure_text(o) is None <==> o is Verified,
        failure_text(o) matches Some(t) ==> t.1 == (o is CodeMissing || o is Private
            || o is Throttled || o is RealmEyeUnavailable),
{
}

/// A name that somebody else holds is told by its holder, and whoever was verified by
/// hand by how: the same three ways as by code.
pub proof fn hands_and_codes_end_alike(ign: Seq<char>, r: UpsertResultView)
    ensures
        manual_outcome_of(r) matches ManualOutcomeView::Verified(k) ==> outcome_of(ign, r)
            == OutcomeView::Verified(ign, k),
        manual_outcome_of(r) matches ManualOutcomeView::IgnTaken(h) ==> outcome_of(ign, r)
            == OutcomeView::IgnTaken(h) && r == (UpsertResultView::IgnTaken { holder: h }),
        r is Created ==> outcome_of(ign, r) == OutcomeView::Verified(ign, VerifiedKindView::Created),
        r is Refreshed ==> outcome_of(ign, r) == OutcomeView::Verified(
            ign,
            VerifiedKindView::Refreshed,
        ),
        r matches UpsertResultView::Rebound { from, to } ==> outcome_of(ign, r)
            == OutcomeView::Verified(ign, VerifiedKindView::Rebound(from)),
{
}

/// The log has a line for everybody who was verified by hand, and none where the name
/// was taken.
pub proof fn hands_are_logged(admin: u64, target: u64, ign: Seq<char>, kind: ManualOutcomeView)
    ensures
        manual_line(admin, target, ign, kind) is Some <==> kind is Verified,
        manual_line(admin, target, ign, kind) matches Some(t) ==> begins(
            t,
            "🔐 Manual-verified by "@ + user(admin as int) + ": "@ + user(target as int),
        ),
{
    if let ManualOutcomeView::Verified(k) = kind {
        let head = "🔐 Manual-verified by "@ + user(admin as int) + ": "@ + user(target as int);
        let t = manual_line(admin, target, ign, kind)->0;
        assert(t.subrange(0, head.len() as int) =~= head);
    }
}

/// What was applied and what was not is told line by line.
pub proof fn what_was_applied_is_told(a: ApplyOutcomeView, ign: Seq<char>)
    ensures
        a.role is None ==> role_line(a) == "• Verified role: granted."@,
        a.role matches Some(why) ==> role_line(a) == "• Verified role: **could not assign** — "@ + why
            + ". Ask a moderator to grant it manually."@,
        a.nickname is None ==> nickname_line(a, ign) == "• Nickname: set to **"@ + ign + "**."@,
        a.nickname matches Some(why) ==> nickname_line(a, ign) == "• Nickname: not changed — "@ + why
            + ". You can set it yourself in **Edit Server Profile**."@,
        outcome_lines(a, ign) == role_line(a) + "\n"@ + nickname_line(a, ign),
{
}

} // verus!
