//! The buttons of a headcount: starting its run and cancelling it.

use vstd::prelude::*;

use crate::db::models::{BotEmoji, DungeonReaction, DungeonTemplate, Headcount, Tier};
use crate::embeds::headcount::{emoji_of, emoji_rt};
use crate::handlers::inputs::{input_value, typed_text, typed_value, TypedInput};
use crate::mention::{channel, channel_i64, user, user_u64};
use crate::name_map::NameMap;
use crate::text::{
    cat3, dec, dec_i32, join, joined, opt_view, own, same, trimmed, views, views_push,
};
use crate::ui::{Emoji, EmojiView, Form, FormView, Input, InputView};

verus! {

/// What is said of a headcount that is not there any more.
pub const HEADCOUNT_GONE: &'static str = "This headcount is no longer active.";

/// What is said to those who may not organize.
pub const ORGANIZERS_ONLY: &'static str =
    "Only the raid leader or users with **ManageRuns** can do that.";

/// What the location could be.
pub const LOCATION_HINT: &'static str = "e.g. USW3 realm, nexus 5 o'clock";

/// What the party could be.
pub const PARTY_HINT: &'static str = "Free-form: classes, roles, pairings…";

// ----- the reactions that a start waits for ----------------------------------------------

/// A reaction under a message, and how many gave it.
#[derive(Debug)]
pub struct ReactionCount {
    /// The emoji.
    pub emoji: Emoji,
    /// How many gave it.
    pub count: u64,
    /// Whether the bot is one of them.
    pub me: bool,
}

/// Two reactions are the same: the same uploaded emoji, whatever it is called
/// now, or the same Unicode emoji.
pub open spec fn same_reaction(a: EmojiView, b: EmojiView) -> bool {
    match (a, b) {
        (EmojiView::Unicode(x), EmojiView::Unicode(y)) => x == y,
        (EmojiView::Custom { id: x, .. }, EmojiView::Custom { id: y, .. }) => x == y,
        _ => false,
    }
}

/// Whether two reactions are the same.
pub fn reaction_types_match(a: &Emoji, b: &Emoji) -> (r: bool)
    ensures
        r == same_reaction(a@, b@),
{
    match (a, b) {
        (Emoji::Unicode(x), Emoji::Unicode(y)) => same(x, y),
        (Emoji::Custom { id: x, .. }, Emoji::Custom { id: y, .. }) => *x == *y,
        _ => false,
    }
}

/// How many others than the bot gave a reaction.
pub open spec fn others(c: ReactionCount) -> int {
    if c.me && c.count > 0 {
        c.count - 1
    } else {
        c.count as int
    }
}

/// Someone other than the bot gave a reaction.
pub open spec fn someone_reacted(under: Seq<ReactionCount>, e: EmojiView) -> bool {
    exists|i: int|
        0 <= i < under.len() && same_reaction((#[trigger] under[i]).emoji@, e) && others(under[i]) >= 1
}

fn has_reactor(under: &Vec<ReactionCount>, e: &Emoji) -> (r: bool)
    ensures
        r == someone_reacted(under@, e@),
{
    let mut i: usize = 0;
    while i < under.len()
        invariant
            i <= under@.len(),
            forall|k: int|
                0 <= k < i ==> !(same_reaction((#[trigger] under@[k]).emoji@, e@) && others(
                    under@[k],
                ) >= 1),
        decreases under@.len() - i,
    {
        let c = &under[i];
        let me: u64 = if c.me {
            1
        } else {
            0
        };
        if reaction_types_match(&c.emoji, e) && c.count.saturating_sub(me) >= 1 {
            assert(others(under@[i as int]) >= 1);
            return true;
        }
        i = i + 1;
    }
    false
}

/// A reaction that a start waits for: it is needed, it can be shown, and nobody
/// has given it.
pub open spec fn is_missing(
    r: DungeonReaction,
    map: Map<Seq<char>, BotEmoji>,
    under: Seq<ReactionCount>,
) -> bool {
    r.num_required > 0 && match emoji_of(r.emoji@, map) {
        Some(e) => !someone_reacted(under, e),
        None => false,
    }
}

/// The names of those of the first `n` reactions that a start waits for.
pub open spec fn missing_names(
    reactions: Seq<DungeonReaction>,
    map: Map<Seq<char>, BotEmoji>,
    under: Seq<ReactionCount>,
    n: int,
) -> Seq<Seq<char>>
    decreases n,
{
    if n <= 0 || n > reactions.len() {
        Seq::empty()
    } else {
        let before = missing_names(reactions, map, under, n - 1);
        if is_missing(reactions[n - 1], map, under) {
            before.push(reactions[n - 1].display_name@)
        } else {
            before
        }
    }
}

/// The names of the reactions that still need someone to give them. A reaction of
/// which none is needed holds nothing back, and neither does one whose emoji
/// cannot be shown.
pub fn missing_reactions(
    reactions_list: &Vec<DungeonReaction>,
    emoji_map: &NameMap<BotEmoji>,
    under: &Vec<ReactionCount>,
) -> (r: Vec<String>)
    ensures
        views(r@) == missing_names(
            reactions_list@,
            emoji_map@,
            under@,
            reactions_list@.len() as int,
        ),
{
    let mut missing: Vec<String> = Vec::new();
    let mut i: usize = 0;
    while i < reactions_list.len()
        invariant
            i <= reactions_list@.len(),
            views(missing@) == missing_names(reactions_list@, emoji_map@, under@, i as int),
        decreases reactions_list@.len() - i,
    {
        broadcast use views_push;

        let required = &reactions_list[i];
        if required.num_required > 0 {
            match emoji_rt(&required.emoji, emoji_map) {
                Some(e) => {
                    if !has_reactor(under, &e) {
                        missing.push(own(&required.display_name));
                    }
                },
                None => {},
            }
        }
        i = i + 1;
    }
    missing
}

/// A start waits for nothing exactly where every reaction that is needed and can
/// be shown was given by someone other than the bot.
pub proof fn nothing_missing_means_all_given(
    reactions: Seq<DungeonReaction>,
    map: Map<Seq<char>, BotEmoji>,
    under: Seq<ReactionCount>,
    n: int,
)
    requires
        0 <= n <= reactions.len(),
    ensures
        (missing_names(reactions, map, under, n).len() == 0) == (forall|i: int|
            0 <= i < n ==> !is_missing(#[trigger] reactions[i], map, under)),
    decreases n,
{
    if n > 0 {
        nothing_missing_means_all_given(reactions, map, under, n - 1);
        if missing_names(reactions, map, under, n).len() == 0 {
            assert forall|i: int| 0 <= i < n implies !is_missing(
                #[trigger] reactions[i],
                map,
                under,
            ) by {}
        } else if is_missing(reactions[n - 1], map, under) {
        } else {
            assert(missing_names(reactions, map, under, n - 1).len() > 0);
        }
    }
}

// ----- the start button ----------------------------------------------------------------

/// What is known so far of a click on Start Run. What is not known is `None`.
pub struct StartFacts {
    /// The headcount, or that there is none.
    pub headcount: Option<Option<Headcount>>,
    /// Whether who clicked may organize it.
    pub organizer: Option<bool>,
    /// The reactions that the start waits for.
    pub missing: Option<Vec<String>>,
}

/// What to do about a click on Start Run.
#[derive(Debug)]
pub enum StartStep {
    /// Look up the headcount.
    LoadHeadcount,
    /// Find out whether who clicked may organize it.
    AskOrganizer,
    /// Look at the reactions under its message.
    CountReactions,
    /// Say this, and do nothing.
    Refuse(String),
    /// Open this form.
    Open(Form),
}

/// What to do about a click on Start Run, over views.
pub ghost enum StartStepView {
    LoadHeadcount,
    AskOrganizer,
    CountReactions,
    Refuse(Seq<char>),
    Open(FormView),
}

impl View for StartStep {
    type V = StartStepView;

    open spec fn view(&self) -> StartStepView {
        match self {
            StartStep::LoadHeadcount => StartStepView::LoadHeadcount,
            StartStep::AskOrganizer => StartStepView::AskOrganizer,
            StartStep::CountReactions => StartStepView::CountReactions,
            StartStep::Refuse(t) => StartStepView::Refuse(t@),
            StartStep::Open(f) => StartStepView::Open(f@),
        }
    }
}

/// The text of a column that may be empty.
pub open spec fn text_or_empty(t: Option<String>) -> Seq<char> {
    match t {
        Some(s) => s@,
        None => Seq::empty(),
    }
}

/// The text of a column that may be empty.
pub fn own_or_empty(t: &Option<String>) -> (r: String)
    ensures
        r@ == text_or_empty(*t),
{
    match t {
        Some(s) => own(s),
        None => String::new(),
    }
}

/// The form that asks where the run is and who comes, with what is known filled
/// in.
pub open spec fn start_form(h: Headcount, id: i32) -> FormView {
    FormView::new("hc:"@ + dec(id as int) + ":confirmstart"@, "Start run"@).input(
        InputView::short("Location"@, "location"@).placeholder(LOCATION_HINT@).value(
            text_or_empty(h.location),
        ).required(false).max_length(200),
    ).input(
        InputView::long("Party"@, "party"@).placeholder(PARTY_HINT@).value(
            text_or_empty(h.party),
        ).required(false).max_length(1000),
    )
}

/// The form that asks where the run is and who comes, with what is known filled
/// in.
pub fn build_start_form(h: &Headcount, id: i32) -> (r: Form)
    ensures
        r@ == start_form(*h, id),
{
    Form::new(&cat3("hc:", &dec_i32(id), ":confirmstart"), "Start run").input(
        Input::short("Location", "location").placeholder(LOCATION_HINT).value(
            &own_or_empty(&h.location),
        ).required(false).max_length(200),
    ).input(
        Input::long("Party", "party").placeholder(PARTY_HINT).value(
            &own_or_empty(&h.party),
        ).required(false).max_length(1000),
    )
}

/// What is said where reactions are missing.
pub open spec fn still_waiting(missing: Seq<Seq<char>>) -> Seq<char> {
    "Can't start yet — still waiting for at least one reactor on: "@ + joined(missing, ", "@)
        + "."@
}

/// What to do about a click on Start Run: the headcount must be there, who clicked
/// must be allowed to organize it, and no reaction may be missing.
pub open spec fn start_step_of(f: StartFacts, id: i32) -> StartStepView {
    match f.headcount {
        None => StartStepView::LoadHeadcount,
        Some(None) => StartStepView::Refuse(HEADCOUNT_GONE@),
        Some(Some(h)) => match f.organizer {
            None => StartStepView::AskOrganizer,
            Some(false) => StartStepView::Refuse(ORGANIZERS_ONLY@),
            Some(true) => match f.missing {
                None => StartStepView::CountReactions,
                Some(m) => if m@.len() > 0 {
                    StartStepView::Refuse(still_waiting(views(m@)))
                } else {
                    StartStepView::Open(start_form(h, id))
                },
            },
        },
    }
}

/// What to do next about a click on Start Run.
pub fn start_step(f: &StartFacts, id: i32) -> (r: StartStep)
    ensures
        r@ == start_step_of(*f, id),
{
    let h = match &f.headcount {
        None => {
            return StartStep::LoadHeadcount;
        },
        Some(None) => {
            return StartStep::Refuse(own(HEADCOUNT_GONE));
        },
        Some(Some(h)) => h,
    };
    match f.organizer {
        None => {
            return StartStep::AskOrganizer;
        },
        Some(o) => {
            if !o {
                return StartStep::Refuse(own(ORGANIZERS_ONLY));
            }
        },
    }
    match &f.missing {
        None => StartStep::CountReactions,
        Some(m) => if m.len() > 0 {
            StartStep::Refuse(
                cat3(
                    "Can't start yet — still waiting for at least one reactor on: ",
                    &join(m, ", "),
                    ".",
                ),
            )
        } else {
            StartStep::Open(build_start_form(h, id))
        },
    }
}

// ----- the cancel button ----------------------------------------------------------------

/// What is known so far of a click on Cancel. What is not known is `None`.
pub struct CancelFacts {
    /// The headcount, or that there is none.
    pub headcount: Option<Option<Headcount>>,
    /// Whether who clicked may organize it.
    pub organizer: Option<bool>,
    /// Whether the headcount was there to be deleted.
    pub deleted: Option<bool>,
    /// Who clicked.
    pub canceller: i64,
    /// Whether the gates of member-led raids hold for it.
    pub self_organized: bool,
}

/// What to do about a click on Cancel.
#[derive(Debug)]
pub enum CancelStep {
    /// Look up the headcount.
    LoadHeadcount,
    /// Find out whether who clicked may organize it.
    AskOrganizer,
    /// Release its slot and delete it, both or neither.
    Delete,
    /// Say this, and do nothing.
    Refuse(String),
    /// Show it as closed; where this is true, who cancelled has to wait before the
    /// next one.
    Close(bool),
}

/// What to do about a click on Cancel, over views.
pub ghost enum CancelStepView {
    LoadHeadcount,
    AskOrganizer,
    Delete,
    Refuse(Seq<char>),
    Close(bool),
}

impl View for CancelStep {
    type V = CancelStepView;

    open spec fn view(&self) -> CancelStepView {
        match self {
            CancelStep::LoadHeadcount => CancelStepView::LoadHeadcount,
            CancelStep::AskOrganizer => CancelStepView::AskOrganizer,
            CancelStep::Delete => CancelStepView::Delete,
            CancelStep::Refuse(t) => CancelStepView::Refuse(t@),
            CancelStep::Close(b) => CancelStepView::Close(*b),
        }
    }
}

/// What to do about a click on Cancel. Only a leader who cancels a headcount of
/// their own has to wait before the next one: staff who cancel it do not.
pub open spec fn cancel_step_of(f: CancelFacts) -> CancelStepView {
    match f.headcount {
        None => CancelStepView::LoadHeadcount,
        Some(None) => CancelStepView::Refuse(HEADCOUNT_GONE@),
        Some(Some(h)) => match f.organizer {
            None => CancelStepView::AskOrganizer,
            Some(false) => CancelStepView::Refuse(ORGANIZERS_ONLY@),
            Some(true) => match f.deleted {
                None => CancelStepView::Delete,
                Some(false) => CancelStepView::Refuse(HEADCOUNT_GONE@),
                Some(true) => CancelStepView::Close(
                    f.self_organized && f.canceller == h.leader_user_id,
                ),
            },
        },
    }
}

/// What to do next about a click on Cancel.
pub fn cancel_step(f: &CancelFacts) -> (r: CancelStep)
    ensures
        r@ == cancel_step_of(*f),
{
    let h = match &f.headcount {
        None => {
            return CancelStep::LoadHeadcount;
        },
        Some(None) => {
            return CancelStep::Refuse(own(HEADCOUNT_GONE));
        },
        Some(Some(h)) => h,
    };
    match f.organizer {
        None => {
            return CancelStep::AskOrganizer;
        },
        Some(o) => {
            if !o {
                return CancelStep::Refuse(own(ORGANIZERS_ONLY));
            }
        },
    }
    match f.deleted {
        None => CancelStep::Delete,
        Some(d) => if d {
            CancelStep::Close(f.self_organized && f.canceller == h.leader_user_id)
        } else {
            CancelStep::Refuse(own(HEADCOUNT_GONE))
        },
    }
}

/// Nobody but an organizer closes a headcount, and of two clicks at once only the
/// one that deleted the row closes it.
pub proof fn only_the_deleter_closes(f: CancelFacts, wait: bool)
    requires
        cancel_step_of(f) == CancelStepView::Close(wait),
    ensures
        f.organizer == Some(true),
        f.deleted == Some(true),
        f.headcount is Some && f.headcount->0 is Some,
        wait ==> f.canceller == f.headcount->0->0.leader_user_id,
{
}

/// What a cancelled headcount says.
pub fn cancelled_by(user_id: u64) -> (r: String)
    ensures
        r@ == "Headcount cancelled by "@ + user(user_id as int) + "."@,
{
    cat3("Headcount cancelled by ", &user_u64(user_id), ".")
}

// ----- becoming a run ---------------------------------------------------------------------

/// The number of reactors that counts: the number found, else the number that is
/// asked for.
pub open spec fn reactors(count: Option<i64>, tier: Tier) -> int {
    match count {
        Some(n) => n as int,
        None => tier.hc_min_reactors as int,
    }
}

/// The number of reactors that counts.
pub fn reactors_or_floor(count: Option<i64>, tier: &Tier) -> (r: i64)
    ensures
        r == reactors(count, *tier),
{
    match count {
        Some(n) => n,
        None => tier.hc_min_reactors as i64,
    }
}

/// Too few reacted for a run. Organizers may start with fewer.
pub open spec fn too_few(tier: Tier, count: int, organizer: bool) -> bool {
    !organizer && count < tier.hc_min_reactors
}

/// Whether too few reacted for a run.
pub fn too_few_reactors(tier: &Tier, count: i64, organizer: bool) -> (r: bool)
    ensures
        r == too_few(*tier, count as int, organizer),
{
    !organizer && count < tier.hc_min_reactors as i64
}

/// A count that could not be made holds nobody back.
pub proof fn failed_counts_hold_nobody_back(tier: Tier, organizer: bool)
    ensures
        !too_few(tier, reactors(None, tier), organizer),
{
}

/// What is known so far of a run that is about to be made out of a headcount.
/// What is not known is `None`.
pub struct ConfirmFacts {
    /// The headcount, or that there is none.
    pub headcount: Option<Option<Headcount>>,
    /// Whether who sent the form may organize it.
    pub organizer: Option<bool>,
    /// Its dungeon, or that there is none.
    pub template: Option<Option<DungeonTemplate>>,
    /// Its tier, or that there is none.
    pub tier: Option<Option<Tier>>,
    /// Whether the channel for the run is there.
    pub channel_exists: Option<bool>,
    /// Whether the gates of member-led raids hold for it.
    pub self_organized: bool,
    /// What the reactor floor says against it, or that it says nothing.
    pub gate: Option<Option<String>>,
    /// What was typed.
    pub inputs: Vec<TypedInput>,
}

/// One statement of the transaction that makes a run out of a headcount.
#[derive(Debug, Clone, Copy, PartialEq, Eq, Structural)]
pub enum ConvertStatement {
    /// Make the run.
    CreateRun,
    /// Hand the slot from the headcount to the run.
    SwapClaim,
    /// Release the slot of the headcount.
    ReleaseClaim,
    /// Delete the headcount.
    DeleteHeadcount,
}

/// A run that is about to be stored.
#[derive(Debug, Clone, Copy, PartialEq, Eq, Structural)]
pub struct NewRun {
    /// Server that it is on.
    pub guild_id: i64,
    /// Its tier.
    pub tier_id: i32,
    /// Its dungeon.
    pub dungeon_template_id: i32,
    /// Channel that it is posted to.
    pub channel_id: i64,
    /// Who leads it.
    pub leader_user_id: i64,
    /// Whether it needs voice.
    pub is_vc_raid: bool,
}

/// How a run is made out of a headcount.
#[derive(Debug)]
pub struct ConvertPlan {
    /// The run.
    pub run: NewRun,
    /// What the transaction does, in this order.
    pub statements: Vec<ConvertStatement>,
    /// Where the party meets.
    pub location: Option<String>,
    /// Who the party is.
    pub party: Option<String>,
    /// Whether the list of active raids changes.
    pub refresh_listing: bool,
}

/// How a run is made out of a headcount, over views.
pub ghost struct ConvertPlanView {
    pub run: NewRun,
    pub statements: Seq<ConvertStatement>,
    pub location: Option<Seq<char>>,
    pub party: Option<Seq<char>>,
    pub refresh_listing: bool,
}

impl View for ConvertPlan {
    type V = ConvertPlanView;

    open spec fn view(&self) -> ConvertPlanView {
        ConvertPlanView {
            run: self.run,
            statements: self.statements@,
            location: opt_view(self.location),
            party: opt_view(self.party),
            refresh_listing: self.refresh_listing,
        }
    }
}

/// What to do about a run that is about to be made.
#[derive(Debug)]
pub enum ConfirmStep {
    /// Look up the headcount.
    LoadHeadcount,
    /// Find out whether who sent the form may organize it.
    AskOrganizer,
    /// Look up its dungeon.
    LoadTemplate,
    /// Look up its tier.
    LoadTier,
    /// Find out whether this channel is there.
    AskChannel(i64),
    /// Ask the reactor floor.
    AskGate,
    /// Say this, and do nothing.
    Refuse(String),
    /// Fail with this.
    Fail(String),
    /// Make the run.
    Convert(ConvertPlan),
}

/// What to do about a run that is about to be made, over views.
pub ghost enum ConfirmStepView {
    LoadHeadcount,
    AskOrganizer,
    LoadTemplate,
    LoadTier,
    AskChannel(i64),
    AskGate,
    Refuse(Seq<char>),
    Fail(Seq<char>),
    Convert(ConvertPlanView),
}

impl View for ConfirmStep {
    type V = ConfirmStepView;

    open spec fn view(&self) -> ConfirmStepView {
        match self {
            ConfirmStep::LoadHeadcount => ConfirmStepView::LoadHeadcount,
            ConfirmStep::AskOrganizer => ConfirmStepView::AskOrganizer,
            ConfirmStep::LoadTemplate => ConfirmStepView::LoadTemplate,
            ConfirmStep::LoadTier => ConfirmStepView::LoadTier,
            ConfirmStep::AskChannel(c) => ConfirmStepView::AskChannel(*c),
            ConfirmStep::AskGate => ConfirmStepView::AskGate,
            ConfirmStep::Refuse(t) => ConfirmStepView::Refuse(t@),
            ConfirmStep::Fail(t) => ConfirmStepView::Fail(t@),
            ConfirmStep::Convert(p) => ConfirmStepView::Convert(p@),
        }
    }
}

/// What must be done where the channel for a run is gone.
pub const REPOINT_HINT: &'static str = " is gone. \
    An admin needs to repoint the tier (`/tier edit` or `/setup`) \
    before this headcount can convert.";

/// What is said where the channel for a run is gone.
pub open spec fn run_channel_gone(id: int) -> Seq<char> {
    "Can't post the run — channel "@ + channel(id) + REPOINT_HINT@
}

/// The channel for the run of a headcount: that of its tier, else its own.
pub open spec fn run_channel(h: Headcount, t: Tier) -> i64 {
    match t.runs_channel_id {
        Some(c) => c,
        None => h.channel_id,
    }
}

/// The run of a headcount: it has its leader and its dungeon, and needs voice where
/// the dungeon does.
pub open spec fn run_of(h: Headcount, t: Tier, d: DungeonTemplate) -> NewRun {
    NewRun {
        guild_id: h.guild_id,
        tier_id: t.id,
        dungeon_template_id: d.id,
        channel_id: run_channel(h, t),
        leader_user_id: h.leader_user_id,
        is_vc_raid: d.requires_vc,
    }
}

/// How a run is made out of a headcount: the slot passes to the run where the tier
/// has a start-run UI, and is released else; the headcount is deleted after that.
pub open spec fn convert_plan(
    h: Headcount,
    t: Tier,
    d: DungeonTemplate,
    inputs: Seq<TypedInput>,
) -> ConvertPlanView {
    ConvertPlanView {
        run: run_of(h, t, d),
        statements: seq![
            ConvertStatement::CreateRun,
            if t.enable_start_run_ui {
                ConvertStatement::SwapClaim
            } else {
                ConvertStatement::ReleaseClaim
            },
            ConvertStatement::DeleteHeadcount,
        ],
        location: typed_value(inputs, "location"@),
        party: typed_value(inputs, "party"@),
        refresh_listing: t.enable_start_run_ui,
    }
}

/// What is said of a dungeon that is not stored.
pub open spec fn template_not_found(id: i32) -> Seq<char> {
    "template "@ + dec(id as int) + " not found"@
}

/// What is said of a tier that is not stored.
pub open spec fn tier_not_found(id: i32) -> Seq<char> {
    "tier "@ + dec(id as int) + " not found"@
}

/// What is said of a dungeon that is not stored.
pub fn say_template_not_found(id: i32) -> (r: String)
    ensures
        r@ == template_not_found(id),
{
    cat3("template ", &dec_i32(id), " not found")
}

/// What to do about a run that is about to be made: the next thing to find out, or
/// the first reason against it, or the run. The reactor floor holds only for
/// member-led raids.
pub open spec fn confirm_step_of(f: ConfirmFacts) -> ConfirmStepView {
    match f.headcount {
        None => ConfirmStepView::LoadHeadcount,
        Some(None) => ConfirmStepView::Refuse(HEADCOUNT_GONE@),
        Some(Some(h)) => match f.organizer {
            None => ConfirmStepView::AskOrganizer,
            Some(false) => ConfirmStepView::Refuse(ORGANIZERS_ONLY@),
            Some(true) => match f.template {
                None => ConfirmStepView::LoadTemplate,
                Some(None) => ConfirmStepView::Fail(template_not_found(h.dungeon_template_id)),
                Some(Some(d)) => match f.tier {
                    None => ConfirmStepView::LoadTier,
                    Some(None) => ConfirmStepView::Fail(tier_not_found(h.tier_id)),
                    Some(Some(t)) => match f.channel_exists {
                        None => ConfirmStepView::AskChannel(run_channel(h, t)),
                        Some(false) => ConfirmStepView::Refuse(
                            run_channel_gone(run_channel(h, t) as int),
                        ),
                        Some(true) => if f.self_organized {
                            match f.gate {
                                None => ConfirmStepView::AskGate,
                                Some(Some(reason)) => ConfirmStepView::Refuse(reason@),
                                Some(None) => ConfirmStepView::Convert(
                                    convert_plan(h, t, d, f.inputs@),
                                ),
                            }
                        } else {
                            ConfirmStepView::Convert(convert_plan(h, t, d, f.inputs@))
                        },
                    },
                },
            },
        },
    }
}

fn plan_conversion(
    h: &Headcount,
    t: &Tier,
    d: &DungeonTemplate,
    inputs: &Vec<TypedInput>,
) -> (r: ConvertPlan)
    ensures
        r@ == convert_plan(*h, *t, *d, inputs@),
{
    let channel_id: i64 = match t.runs_channel_id {
        Some(c) => c,
        None => h.channel_id,
    };
    let run = NewRun {
        guild_id: h.guild_id,
        tier_id: t.id,
        dungeon_template_id: d.id,
        channel_id,
        leader_user_id: h.leader_user_id,
        is_vc_raid: d.requires_vc,
    };
    let mut statements: Vec<ConvertStatement> = Vec::new();
    statements.push(ConvertStatement::CreateRun);
    statements.push(
        if t.enable_start_run_ui {
            ConvertStatement::SwapClaim
        } else {
            ConvertStatement::ReleaseClaim
        },
    );
    statements.push(ConvertStatement::DeleteHeadcount);
    assert(statements@ =~= convert_plan(*h, *t, *d, inputs@).statements);
    ConvertPlan {
        run,
        statements,
        location: input_value(inputs, "location"),
        party: input_value(inputs, "party"),
        refresh_listing: t.enable_start_run_ui,
    }
}

/// What to do next about a run that is about to be made.
pub fn confirm_step(f: &ConfirmFacts) -> (r: ConfirmStep)
    ensures
        r@ == confirm_step_of(*f),
{
    let h = match &f.headcount {
        None => {
            return ConfirmStep::LoadHeadcount;
        },
        Some(None) => {
            return ConfirmStep::Refuse(own(HEADCOUNT_GONE));
        },
        Some(Some(h)) => h,
    };
    match f.organizer {
        None => {
            return ConfirmStep::AskOrganizer;
        },
        Some(o) => {
            if !o {
                return ConfirmStep::Refuse(own(ORGANIZERS_ONLY));
            }
        },
    }
    let d = match &f.template {
        None => {
            return ConfirmStep::LoadTemplate;
        },
        Some(None) => {
            return ConfirmStep::Fail(say_template_not_found(h.dungeon_template_id));
        },
        Some(Some(d)) => d,
    };
    let t = match &f.tier {
        None => {
            return ConfirmStep::LoadTier;
        },
        Some(None) => {
            return ConfirmStep::Fail(cat3("tier ", &dec_i32(h.tier_id), " not found"));
        },
        Some(Some(t)) => t,
    };
    let c: i64 = match t.runs_channel_id {
        Some(c) => c,
        None => h.channel_id,
    };
    match f.channel_exists {
        None => {
            return ConfirmStep::AskChannel(c);
        },
        Some(e) => {
            if !e {
                return ConfirmStep::Refuse(
                    cat3("Can't post the run — channel ", &channel_i64(c), REPOINT_HINT),
                );
            }
        },
    }
    if f.self_organized {
        match &f.gate {
            None => {
                return ConfirmStep::AskGate;
            },
            Some(Some(reason)) => {
                return ConfirmStep::Refuse(own(reason));
            },
            Some(None) => {},
        }
    }
    ConfirmStep::Convert(plan_conversion(h, t, d, &f.inputs))
}

/// A headcount is touched only where its run can be posted: by an organizer, to a
/// channel that is there, and with enough reactors where that is asked for.
pub proof fn runs_are_made_only_when_all_holds(f: ConfirmFacts, plan: ConvertPlanView)
    requires
        confirm_step_of(f) == ConfirmStepView::Convert(plan),
    ensures
        f.headcount is Some && f.headcount->0 is Some,
        f.organizer == Some(true),
        f.template is Some && f.template->0 is Some,
        f.tier is Some && f.tier->0 is Some,
        f.channel_exists == Some(true),
        plan == convert_plan(
            f.headcount->0->0,
            f.tier->0->0,
            f.template->0->0,
            f.inputs@,
        ),
        f.self_organized ==> f.gate is Some && f.gate->0 is None,
{
}

/// The slot of a headcount passes on or is released before the headcount is
/// deleted, so that no slot is ever held by a headcount that is gone; and the run
/// that it may pass to is there by then.
pub proof fn slots_move_before_the_headcount_goes(
    h: Headcount,
    t: Tier,
    d: DungeonTemplate,
    inputs: Seq<TypedInput>,
)
    ensures
        ({
            let s = convert_plan(h, t, d, inputs).statements;
            &&& s.len() == 3
            &&& s[0] == ConvertStatement::CreateRun
            &&& s[1] == ConvertStatement::SwapClaim || s[1] == ConvertStatement::ReleaseClaim
            &&& s[2] == ConvertStatement::DeleteHeadcount
        }),
{
}

/// How the transaction that makes a run out of a headcount ends.
#[derive(Debug)]
pub enum ConvertEnd {
    /// It is kept: the run is there and the headcount is gone. Say this.
    Commit(String),
    /// It is undone: nothing changed. Say this.
    Undo(String),
}

/// How such a transaction ends, over views.
pub ghost enum ConvertEndView {
    Commit(Seq<char>),
    Undo(Seq<char>),
}

impl View for ConvertEnd {
    type V = ConvertEndView;

    open spec fn view(&self) -> ConvertEndView {
        match self {
            ConvertEnd::Commit(t) => ConvertEndView::Commit(t@),
            ConvertEnd::Undo(t) => ConvertEndView::Undo(t@),
        }
    }
}

/// How the transaction ends: it is kept only where its last statement deleted the
/// headcount, and undone where the headcount was gone by then.
pub open spec fn convert_end(row_existed: bool, channel_id: i64) -> ConvertEndView {
    if row_existed {
        ConvertEndView::Commit("Run posted in "@ + channel(channel_id as int) + "."@)
    } else {
        ConvertEndView::Undo(HEADCOUNT_GONE@)
    }
}

/// How the transaction ends, given whether its last statement deleted the headcount.
pub fn converted(row_existed: bool, channel_id: i64) -> (r: ConvertEnd)
    ensures
        r@ == convert_end(row_existed, channel_id),
        (r is Commit) == row_existed,
{
    if row_existed {
        ConvertEnd::Commit(cat3("Run posted in ", &channel_i64(channel_id), "."))
    } else {
        ConvertEnd::Undo(own(HEADCOUNT_GONE))
    }
}

/// What the tables hold that making a run touches: the headcounts by id, the runs in
/// the order in which they were made, and who holds a slot, by headcount.
pub ghost struct RaidTables {
    pub headcounts: Set<i32>,
    pub runs: Seq<NewRun>,
    pub slots: Map<i32, SlotHolder>,
}

/// Who holds a slot.
pub ghost enum SlotHolder {
    /// The headcount.
    Headcount,
    /// The run with this number.
    Run(int),
}

/// The tables after one statement on headcount `id`.
pub open spec fn after_statement(
    t: RaidTables,
    statement: ConvertStatement,
    id: i32,
    run: NewRun,
) -> RaidTables {
    match statement {
        ConvertStatement::CreateRun => RaidTables { runs: t.runs.push(run), ..t },
        ConvertStatement::SwapClaim => RaidTables {
            slots: if t.slots.contains_key(id) {
                t.slots.insert(id, SlotHolder::Run(t.runs.len() - 1))
            } else {
                t.slots
            },
            ..t
        },
        ConvertStatement::ReleaseClaim => RaidTables { slots: t.slots.remove(id), ..t },
        ConvertStatement::DeleteHeadcount => RaidTables {
            headcounts: t.headcounts.remove(id),
            ..t
        },
    }
}

/// The tables after the first `n` statements of a transaction.
pub open spec fn after_statements(
    t: RaidTables,
    statements: Seq<ConvertStatement>,
    id: i32,
    run: NewRun,
    n: int,
) -> RaidTables
    decreases n,
{
    if n <= 0 {
        t
    } else {
        after_statement(
            after_statements(t, statements, id, run, n - 1),
            statements[n - 1],
            id,
            run,
        )
    }
}

/// The tables once the transaction has ended, as `converted` says.
pub open spec fn tables_after(
    t: RaidTables,
    plan: ConvertPlanView,
    id: i32,
    end: ConvertEndView,
) -> RaidTables {
    match end {
        ConvertEndView::Commit(_) => after_statements(
            t,
            plan.statements,
            id,
            plan.run,
            plan.statements.len() as int,
        ),
        ConvertEndView::Undo(_) => t,
    }
}

/// Of a headcount that becomes a run, either all is done or nothing: where the
/// headcount was there to be deleted, exactly it goes and exactly one run comes, on its
/// server, in its tier, of its dungeon and with its leader, whoever clicked; where it
/// was gone already, nothing changes, and the answer is that it is no longer active.
pub proof fn conversions_are_all_or_nothing(
    t: RaidTables,
    h: Headcount,
    tier: Tier,
    d: DungeonTemplate,
    inputs: Seq<TypedInput>,
)
    requires
        h.tier_id == tier.id,
        h.dungeon_template_id == d.id,
    ensures
        ({
            let plan = convert_plan(h, tier, d, inputs);
            let there = t.headcounts.contains(h.id);
            let end = convert_end(there, plan.run.channel_id);
            let after = tables_after(t, plan, h.id, end);
            if there {
                &&& end is Commit
                &&& after.headcounts == t.headcounts.remove(h.id)
                &&& after.runs == t.runs.push(plan.run)
                &&& plan.run.guild_id == h.guild_id
                &&& plan.run.tier_id == h.tier_id
                &&& plan.run.dungeon_template_id == h.dungeon_template_id
                &&& plan.run.leader_user_id == h.leader_user_id
                &&& after.slots.contains_key(h.id) ==> after.slots[h.id] == SlotHolder::Run(
                    t.runs.len() as int,
                )
            } else {
                &&& end == ConvertEndView::Undo(HEADCOUNT_GONE@)
                &&& after == t
            }
        }),
{
    let plan = convert_plan(h, tier, d, inputs);
    reveal_with_fuel(after_statements, 4);
    assert(plan.statements.len() == 3);
}

// ----- what the buttons are for ----------------------------------------------------------------

/// A reaction counts as given where an entry under the message is for the same emoji and
/// more people than the bot alone are behind it.
pub proof fn the_bot_alone_does_not_count(under: Seq<ReactionCount>, e: EmojiView)
    ensures
        someone_reacted(under, e) <==> exists|k: int| #![trigger under[k]]
            0 <= k < under.len() && same_reaction(under[k].emoji@, e) && (under[k].count >= 2 || (
            under[k].count == 1 && !under[k].me)),
{
    if someone_reacted(under, e) {
        let k = choose|i: int|
            0 <= i < under.len() && same_reaction((#[trigger] under[i]).emoji@, e) && others(
                under[i],
            ) >= 1;
        assert(under[k].count >= 2 || (under[k].count == 1 && !under[k].me));
    }
    if exists|k: int| #![trigger under[k]]
        0 <= k < under.len() && same_reaction(under[k].emoji@, e) && (under[k].count >= 2 || (
        under[k].count == 1 && !under[k].me)) {
        let k = choose|k: int| #![trigger under[k]]
            0 <= k < under.len() && same_reaction(under[k].emoji@, e) && (under[k].count >= 2 || (
            under[k].count == 1 && !under[k].me));
        assert(same_reaction(under[k].emoji@, e) && others(under[k]) >= 1);
    }
}

/// Uploaded emojis are the same where their ids are, whatever they are called, and
/// Unicode emojis where their texts are; one kind is never the other.
pub proof fn emojis_are_told_apart_by_id_or_text(
    a: u64,
    b: u64,
    x: Seq<char>,
    y: Seq<char>,
    p: bool,
    q: bool,
)
    ensures
        same_reaction(
            EmojiView::Custom { animated: p, id: a, name: x },
            EmojiView::Custom { animated: q, id: b, name: y },
        ) <==> a == b,
        same_reaction(EmojiView::Unicode(x), EmojiView::Unicode(y)) <==> x == y,
        !same_reaction(
            EmojiView::Unicode(x),
            EmojiView::Custom { animated: q, id: b, name: y },
        ),
        !same_reaction(
            EmojiView::Custom { animated: p, id: a, name: x },
            EmojiView::Unicode(y),
        ),
{
}

/// A start waits for a reaction exactly where it is needed, its emoji can be shown,
/// Unicode or uploaded, and nobody but the bot has given it: those and only those are
/// named.
pub proof fn missing_are_those_that_nobody_gave(
    reactions: Seq<DungeonReaction>,
    map: Map<Seq<char>, BotEmoji>,
    under: Seq<ReactionCount>,
    n: int,
)
    requires
        0 <= n <= reactions.len(),
    ensures
        forall|i: int| #![trigger reactions[i]]
            0 <= i < n && reactions[i].num_required > 0 && emoji_of(reactions[i].emoji@, map) is Some
                && !someone_reacted(under, emoji_of(reactions[i].emoji@, map)->0)
                ==> missing_names(reactions, map, under, n).contains(reactions[i].display_name@),
        forall|k: int| #![trigger missing_names(reactions, map, under, n)[k]]
            0 <= k < missing_names(reactions, map, under, n).len() ==> exists|i: int|
                #![trigger reactions[i]]
                0 <= i < n && reactions[i].num_required > 0 && emoji_of(reactions[i].emoji@, map)
                    is Some && !someone_reacted(under, emoji_of(reactions[i].emoji@, map)->0)
                    && reactions[i].display_name@ == missing_names(reactions, map, under, n)[k],
        (missing_names(reactions, map, under, n).len() == 0) == (forall|i: int|
            #![trigger reactions[i]]
            0 <= i < n && reactions[i].num_required > 0 && emoji_of(reactions[i].emoji@, map) is Some
                ==> someone_reacted(under, emoji_of(reactions[i].emoji@, map)->0)),
    decreases n,
{
    if n > 0 {
        missing_are_those_that_nobody_gave(reactions, map, under, n - 1);
        let before = missing_names(reactions, map, under, n - 1);
        let all = missing_names(reactions, map, under, n);
        let last = reactions[n - 1];
        assert forall|i: int| #![trigger reactions[i]]
            0 <= i < n && reactions[i].num_required > 0 && emoji_of(reactions[i].emoji@, map) is Some
                && !someone_reacted(
                under,
                emoji_of(reactions[i].emoji@, map)->0,
            ) implies all.contains(reactions[i].display_name@) by {
            if i < n - 1 {
                assert(before.contains(reactions[i].display_name@));
                let k = choose|k: int|
                    0 <= k < before.len() && before[k] == reactions[i].display_name@;
                assert(all[k] == before[k]);
            } else {
                assert(all.last() == last.display_name@);
            }
        }
        assert forall|k: int| #![trigger all[k]] 0 <= k < all.len() implies exists|i: int|
            #![trigger reactions[i]]
            0 <= i < n && reactions[i].num_required > 0 && emoji_of(reactions[i].emoji@, map) is Some
                && !someone_reacted(under, emoji_of(reactions[i].emoji@, map)->0)
                && reactions[i].display_name@ == all[k] by {
            if k < before.len() {
                assert(all[k] == before[k]);
            } else {
                assert(reactions[n - 1].display_name@ == all[k]);
            }
        }
        if all.len() == 0 {
            assert forall|i: int| #![trigger reactions[i]]
                0 <= i < n && reactions[i].num_required > 0 && emoji_of(reactions[i].emoji@, map)
                    is Some implies someone_reacted(
                under,
                emoji_of(reactions[i].emoji@, map)->0,
            ) by {
                if !someone_reacted(under, emoji_of(reactions[i].emoji@, map)->0) {
                    assert(all.contains(reactions[i].display_name@));
                }
            }
        } else {
            assert(all[0] == all[0]);
        }
    }
}

/// The form to start a run opens exactly for an organizer of a headcount that is there
/// and for which nothing is missing; it comes back as what starts that headcount, asks
/// for the location and the party, and shows what is stored of them.
pub proof fn the_start_form_opens_when_nothing_is_missing(f: StartFacts, id: i32)
    ensures
        start_step_of(f, id) is Open <==> f.headcount is Some && f.headcount->0 is Some
            && f.organizer == Some(true) && f.missing is Some && f.missing->0@.len() == 0,
        f.headcount == Some(None::<Headcount>) ==> start_step_of(f, id) == StartStepView::Refuse(
            "This headcount is no longer active."@,
        ),
        f.headcount is Some && f.headcount->0 is Some && f.organizer == Some(true)
            && f.missing is Some && f.missing->0@.len() > 0 ==> start_step_of(f, id)
            == StartStepView::Refuse(
            "Can't start yet — still waiting for at least one reactor on: "@ + joined(
                views(f.missing->0@),
                ", "@,
            ) + "."@,
        ),
        f.headcount is Some && f.headcount->0 is Some && f.organizer == Some(false)
            ==> start_step_of(f, id) == StartStepView::Refuse(ORGANIZERS_ONLY@),
        start_step_of(f, id) matches StartStepView::Open(form) ==> {
            let h = f.headcount->0->0;
            &&& form.custom_id == "hc:"@ + dec(id as int) + ":confirmstart"@
            &&& form.inputs.len() == 2
            &&& form.inputs[0].custom_id == "location"@
            &&& form.inputs[1].custom_id == "party"@
            &&& !form.inputs[0].required && !form.inputs[1].required
            &&& form.inputs[0].value == Some(
                match h.location {
                    Some(t) => t@,
                    None => Seq::<char>::empty(),
                },
            )
            &&& form.inputs[1].value == Some(
                match h.party {
                    Some(t) => t@,
                    None => Seq::<char>::empty(),
                },
            )
        },
{
}

/// A cancelled headcount is deleted, and closed by whoever deleted it; who has to wait
/// is exactly the leader who cancels a headcount of their own.
pub proof fn cancelling_deletes_and_closes(f: CancelFacts)
    requires
        f.headcount is Some && f.headcount->0 is Some,
    ensures
        f.organizer is None ==> cancel_step_of(f) is AskOrganizer,
        f.organizer == Some(false) ==> cancel_step_of(f) == CancelStepView::Refuse(
            ORGANIZERS_ONLY@,
        ),
        f.organizer == Some(true) && f.deleted is None ==> cancel_step_of(f) is Delete,
        f.organizer == Some(true) && f.deleted == Some(false) ==> cancel_step_of(f)
            == CancelStepView::Refuse("This headcount is no longer active."@),
        f.organizer == Some(true) && f.deleted == Some(true) ==> cancel_step_of(f)
            == CancelStepView::Close(
            f.self_organized && f.canceller == f.headcount->0->0.leader_user_id,
        ),
{
}

/// Too few reacted only where fewer did than the tier asks for; an organizer is never
/// held back by it.
pub proof fn the_floor_holds_members_back(tier: Tier, count: int)
    ensures
        !too_few(tier, count, true),
        too_few(tier, count, false) <==> count < tier.hc_min_reactors,
        forall|n: i64| #[trigger] reactors(Some(n), tier) == n,
{
}

/// The run of a headcount has what was typed into the form: its location and its party
/// are the texts without the white space around them, and missing only where nothing
/// else was typed.
pub proof fn runs_have_what_was_typed(f: ConfirmFacts, plan: ConvertPlanView)
    requires
        confirm_step_of(f) == ConfirmStepView::Convert(plan),
    ensures
        ({
            let place = trimmed(typed_text(f.inputs@, "location"@));
            let party = trimmed(typed_text(f.inputs@, "party"@));
            &&& place.len() > 0 ==> plan.location == Some(place)
            &&& place.len() == 0 ==> plan.location is None
            &&& party.len() > 0 ==> plan.party == Some(party)
            &&& party.len() == 0 ==> plan.party is None
        }),
{
}

/// The run of a headcount is that of the headcount: on its server, led by its leader, in
/// the tier and of the dungeon that were looked up, with voice where the dungeon needs
/// it, and posted to the channel of the tier, or to that of the headcount where the tier
/// has none. The list of active raids changes where the tier has one.
pub proof fn runs_are_those_of_their_headcounts(f: ConfirmFacts, plan: ConvertPlanView)
    requires
        confirm_step_of(f) == ConfirmStepView::Convert(plan),
    ensures
        ({
            let h = f.headcount->0->0;
            let t = f.tier->0->0;
            let d = f.template->0->0;
            &&& plan.run.guild_id == h.guild_id
            &&& plan.run.leader_user_id == h.leader_user_id
            &&& plan.run.tier_id == t.id
            &&& plan.run.dungeon_template_id == d.id
            &&& plan.run.is_vc_raid == d.requires_vc
            &&& t.runs_channel_id matches Some(c) ==> plan.run.channel_id == c
            &&& t.runs_channel_id is None ==> plan.run.channel_id == h.channel_id
            &&& plan.refresh_listing == t.enable_start_run_ui
            &&& plan.statements.len() == 3
            &&& plan.statements[0] == ConvertStatement::CreateRun
            &&& plan.statements[1] == if t.enable_start_run_ui {
                ConvertStatement::SwapClaim
            } else {
                ConvertStatement::ReleaseClaim
            }
            &&& plan.statements[2] == ConvertStatement::DeleteHeadcount
        }),
{
}

/// A headcount becomes a run exactly where it is there, an organizer sends the form, its
/// dungeon and tier are stored, the channel for the run is there, and the reactor floor
/// says nothing against it where it is asked.
pub proof fn headcounts_become_runs_when_all_holds(f: ConfirmFacts)
    ensures
        confirm_step_of(f) is Convert <==> f.headcount is Some && f.headcount->0 is Some
            && f.organizer == Some(true) && f.template is Some && f.template->0 is Some
            && f.tier is Some && f.tier->0 is Some && f.channel_exists == Some(true) && (
        f.self_organized ==> f.gate is Some && f.gate->0 is None),
        f.headcount == Some(None::<Headcount>) ==> confirm_step_of(f) == ConfirmStepView::Refuse(
            "This headcount is no longer active."@,
        ),
        f.headcount is Some && f.headcount->0 is Some && f.organizer == Some(false)
            ==> confirm_step_of(f) == ConfirmStepView::Refuse(ORGANIZERS_ONLY@),
        f.headcount is Some && f.headcount->0 is Some && f.organizer == Some(true)
            && f.template is Some && f.template->0 is Some && f.tier is Some && f.tier->0 is Some
            && f.channel_exists == Some(true) && f.self_organized && f.gate is Some
            && f.gate->0 is Some ==> confirm_step_of(f) == ConfirmStepView::Refuse(
            f.gate->0->0@,
        ),
        confirm_step_of(f) matches ConfirmStepView::AskChannel(c) ==> c == (
        match f.tier->0->0.runs_channel_id {
            Some(own) => own,
            None => f.headcount->0->0.channel_id,
        }),
{
}

/// The view of a `ConvertPlan` shows each of its fields as it is.
pub proof fn convert_plan_shows_its_fields(x: ConvertPlan)
    ensures
        x@.run == x.run,
        x@.statements == x.statements@,
        x.location is Some ==> x@.location == Some((x.location->0)@),
        x.location is None ==> x@.location is None,
        x.party is Some ==> x@.party == Some((x.party->0)@),
        x.party is None ==> x@.party is None,
        x@.refresh_listing == x.refresh_listing,
{
}

} // verus!
