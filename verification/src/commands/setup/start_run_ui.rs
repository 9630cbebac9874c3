//! The start-run UI section of the setup wizard, as a machine: which tier is
//! edited, which screen is shown, and what each click changes.

use vstd::prelude::*;

use crate::commands::setup::flow::{as_row_id, first_id, first_of, to_row_id, Picked};
use crate::commands::setup::views::SoView;
use crate::db::models::Tier;
use crate::text::{int_value, parse_i32, same, within};

verus! {

/// The first tier from `from` on that has the start-run UI enabled.
pub open spec fn enabled_tier(tiers: Seq<Tier>, from: int) -> Option<int>
    decreases tiers.len() - from,
{
    if from < 0 || from >= tiers.len() {
        None
    } else if tiers[from].enable_start_run_ui {
        Some(from)
    } else {
        enabled_tier(tiers, from + 1)
    }
}

/// The tier that the section opens with: the first that has the start-run UI
/// enabled, else the first.
pub open spec fn initial_tier(tiers: Seq<Tier>) -> Option<int> {
    match enabled_tier(tiers, 0) {
        Some(i) => Some(i),
        None => if tiers.len() > 0 {
            Some(0)
        } else {
            None
        },
    }
}

/// The first tier from `from` on with an id.
pub open spec fn tier_with_id(tiers: Seq<Tier>, id: i32, from: int) -> Option<int>
    decreases tiers.len() - from,
{
    if from < 0 || from >= tiers.len() {
        None
    } else if tiers[from].id == id {
        Some(from)
    } else {
        tier_with_id(tiers, id, from + 1)
    }
}

/// The position of a tier, by its id.
pub fn find_tier(tiers: &Vec<Tier>, id: i32) -> (r: Option<usize>)
    ensures
        match r {
            Some(i) => tier_with_id(tiers@, id, 0) == Some(i as int) && i < tiers@.len(),
            None => tier_with_id(tiers@, id, 0) is None,
        },
{
    let mut i: usize = 0;
    while i < tiers.len()
        invariant
            i <= tiers@.len(),
            tier_with_id(tiers@, id, 0) == tier_with_id(tiers@, id, i as int),
        decreases tiers@.len() - i,
    {
        if tiers[i].id == id {
            return Some(i);
        }
        i = i + 1;
    }
    None
}

/// Where the section stands.
#[derive(Debug, Clone, Copy, PartialEq, Eq, Structural)]
pub struct SoState {
    /// The tier that is edited.
    pub tier_id: i32,
    /// The screen that is shown.
    pub view: SoView,
}

/// Where the section begins: with one tier on its settings, with several on the
/// choice of a tier; nowhere without a tier.
pub open spec fn so_start(tiers: Seq<Tier>) -> Option<SoState> {
    match initial_tier(tiers) {
        Some(i) => Some(
            SoState {
                tier_id: tiers[i].id,
                view: if tiers.len() == 1 {
                    SoView::Config
                } else {
                    SoView::Picker
                },
            },
        ),
        None => None,
    }
}

/// What is said where there is no tier.
pub const NO_TIER: &'static str = "Set up the first tier before configuring start-run UI.";

/// What is said where the tier that is edited is gone.
pub const TIER_DELETED: &'static str =
    "The selected tier was deleted. Run `/setup` again to start over.";

/// Begin the section: where it stands, and the position of the tier that it
/// shows.
pub fn begin(tiers: &Vec<Tier>) -> (r: Option<(SoState, usize)>)
    ensures
        match r {
            Some((s, i)) => so_start(tiers@) == Some(s) && initial_tier(tiers@) == Some(i as int)
                && i < tiers@.len(),
            None => so_start(tiers@) is None,
        },
{
    if tiers.len() == 0 {
        return None;
    }
    let mut i: usize = 0;
    while i < tiers.len() && !tiers[i].enable_start_run_ui
        invariant
            i <= tiers@.len(),
            enabled_tier(tiers@, 0) == enabled_tier(tiers@, i as int),
        decreases tiers@.len() - i,
    {
        i = i + 1;
    }
    let at: usize = if i < tiers.len() {
        i
    } else {
        0
    };
    let view = if tiers.len() == 1 {
        SoView::Config
    } else {
        SoView::Picker
    };
    Some((SoState { tier_id: tiers[at].id, view }, at))
}

/// The number that was picked, where one was.
pub open spec fn picked_number(picked: Picked) -> Option<int> {
    match picked {
        Picked::Texts(v) => if v@.len() > 0 {
            within(int_value(v@[0]@), i32::MIN as int, i32::MAX as int)
        } else {
            None
        },
        _ => None,
    }
}

/// The number that was picked, where one was.
pub fn parse_select_i32(picked: &Picked) -> (r: Option<i32>)
    ensures
        match r {
            Some(n) => picked_number(*picked) == Some(n as int),
            None => picked_number(*picked) is None,
        },
{
    match picked {
        Picked::Texts(v) => if v.len() > 0 {
            parse_i32(&v[0])
        } else {
            None
        },
        _ => None,
    }
}

/// What a click asks for.
#[derive(Debug, Clone, Copy, PartialEq, Eq, Structural)]
pub enum SoStep {
    /// The tier that is edited is gone: say so and end.
    Deleted,
    /// Go back to the dashboard and end.
    Back,
    /// Show the screen again, for the tier as it is stored now.
    Redraw,
    /// Store the channel, after the messages in the old channel are deleted where
    /// `teardown` says so; show the screen again.
    SetChannel {
        /// The new channel.
        channel: Option<i64>,
        /// Whether the messages in the old channel are deleted first.
        teardown: bool,
    },
    /// Store the idle window; show the screen again.
    SetIdle(i32),
    /// Store the cooldown; show the screen again.
    SetCooldown(i32),
    /// Store the least number of reactors; show the screen again.
    SetMinReactors(i32),
    /// Switch the start-run UI on or off, as [`toggle`] says.
    Toggle,
    /// Post the messages again, as [`repost`] says.
    Repost,
    /// Nothing.
    Ignore,
}

/// The messages in the old channel are deleted: the channel changes and there are
/// such messages.
pub open spec fn tears_down(tier: Tier, channel: Option<i64>) -> bool {
    channel != tier.start_run_ui_channel_id && (tier.start_run_ui_button_message_id is Some
        || tier.start_run_ui_listing_message_id is Some)
}

/// What a click asks for, and where the section stands after it. The tiers are
/// those that are stored now.
pub open spec fn so_step_of(s: SoState, tiers: Seq<Tier>, id: Seq<char>, picked: Picked) -> (
    SoState,
    SoStep,
) {
    match tier_with_id(tiers, s.tier_id, 0) {
        None => (s, SoStep::Deleted),
        Some(i) => if id == "setup:so:back"@ {
            (s, SoStep::Back)
        } else if id == "setup:so:switch"@ {
            (SoState { view: SoView::Picker, ..s }, SoStep::Redraw)
        } else if id == "setup:so:tierpick"@ {
            (
                SoState {
                    tier_id: match picked_number(picked) {
                        Some(n) => n as i32,
                        None => s.tier_id,
                    },
                    view: SoView::Config,
                },
                SoStep::Redraw,
            )
        } else if id == "setup:so:channel"@ {
            (
                s,
                match picked {
                    Picked::Channels(v) => SoStep::SetChannel {
                        channel: as_row_id(first_id(v@)),
                        teardown: tears_down(tiers[i], as_row_id(first_id(v@))),
                    },
                    _ => SoStep::Redraw,
                },
            )
        } else if id == "setup:so:idle"@ {
            (
                s,
                match picked_number(picked) {
                    Some(n) => SoStep::SetIdle(n as i32),
                    None => SoStep::Redraw,
                },
            )
        } else if id == "setup:so:cooldown"@ {
            (
                s,
                match picked_number(picked) {
                    Some(n) => SoStep::SetCooldown(n as i32),
                    None => SoStep::Redraw,
                },
            )
        } else if id == "setup:so:min"@ {
            (
                s,
                match picked_number(picked) {
                    Some(n) => SoStep::SetMinReactors(n as i32),
                    None => SoStep::Redraw,
                },
            )
        } else if id == "setup:so:toggle"@ {
            (s, SoStep::Toggle)
        } else if id == "setup:so:repost"@ {
            (s, SoStep::Repost)
        } else {
            (s, SoStep::Ignore)
        },
    }
}

fn same_channel(a: Option<i64>, b: Option<i64>) -> (r: bool)
    ensures
        r == (a == b),
{
    match (a, b) {
        (Some(x), Some(y)) => x == y,
        (None, None) => true,
        _ => false,
    }
}

impl SoState {
    /// Take in a click, and say what it asks for.
    pub fn click(&mut self, tiers: &Vec<Tier>, id: &str, picked: &Picked) -> (r: SoStep)
        ensures
            (*final(self), r) == so_step_of(*old(self), tiers@, id@, *picked),
    {
        let at: usize = match find_tier(tiers, self.tier_id) {
            Some(i) => i,
            None => {
                return SoStep::Deleted;
            },
        };
        let tier = &tiers[at];
        if same(id, "setup:so:back") {
            SoStep::Back
        } else if same(id, "setup:so:switch") {
            self.view = SoView::Picker;
            SoStep::Redraw
        } else if same(id, "setup:so:tierpick") {
            if let Some(n) = parse_select_i32(picked) {
                self.tier_id = n;
            }
            self.view = SoView::Config;
            SoStep::Redraw
        } else if same(id, "setup:so:channel") {
            match picked {
                Picked::Channels(v) => {
                    let channel = to_row_id(first_of(v));
                    let teardown = !same_channel(channel, tier.start_run_ui_channel_id) && (
                    tier.start_run_ui_button_message_id.is_some()
                        || tier.start_run_ui_listing_message_id.is_some());
                    SoStep::SetChannel { channel, teardown }
                },
                _ => SoStep::Redraw,
            }
        } else if same(id, "setup:so:idle") {
            match parse_select_i32(picked) {
                Some(n) => SoStep::SetIdle(n),
                None => SoStep::Redraw,
            }
        } else if same(id, "setup:so:cooldown") {
            match parse_select_i32(picked) {
                Some(n) => SoStep::SetCooldown(n),
                None => SoStep::Redraw,
            }
        } else if same(id, "setup:so:min") {
            match parse_select_i32(picked) {
                Some(n) => SoStep::SetMinReactors(n),
                None => SoStep::Redraw,
            }
        } else if same(id, "setup:so:toggle") {
            SoStep::Toggle
        } else if same(id, "setup:so:repost") {
            SoStep::Repost
        } else {
            SoStep::Ignore
        }
    }
}

/// What switching the start-run UI means for a tier.
#[derive(Debug, Clone, Copy, PartialEq, Eq, Structural)]
pub enum Toggle {
    /// There is no channel to switch it on in: say so, change nothing.
    NeedsChannel,
    /// Store that it is on, then post the messages.
    Enable,
    /// Delete the messages, then store that it is off.
    Disable,
}

/// What is said where there is no channel to switch the start-run UI on in.
pub const TOGGLE_NEEDS_CHANNEL: &'static str = "Pick a channel before enabling start-run UI.";

/// What switching the start-run UI means for a tier.
pub fn toggle(live: &Tier) -> (r: Toggle)
    ensures
        r == (if live.enable_start_run_ui {
            Toggle::Disable
        } else if live.start_run_ui_channel_id is None {
            Toggle::NeedsChannel
        } else {
            Toggle::Enable
        }),
{
    if live.enable_start_run_ui {
        Toggle::Disable
    } else if live.start_run_ui_channel_id.is_none() {
        Toggle::NeedsChannel
    } else {
        Toggle::Enable
    }
}

/// What posting the messages again means for a tier.
#[derive(Debug, Clone, Copy, PartialEq, Eq, Structural)]
pub enum Repost {
    /// The start-run UI is off: say so, change nothing.
    Off,
    /// There is no channel: say so, change nothing.
    NeedsChannel,
    /// Delete the messages and post them again.
    Post,
}

/// What is said where the start-run UI is off.
pub const REPOST_OFF: &'static str = "Start-run UI is disabled — enable it to post stickies.";

/// What is said where there is no channel to post in.
pub const REPOST_NEEDS_CHANNEL: &'static str = "Pick a channel first.";

/// What posting the messages again means for a tier.
pub fn repost(live: &Tier) -> (r: Repost)
    ensures
        r == (if !live.enable_start_run_ui {
            Repost::Off
        } else if live.start_run_ui_channel_id is None {
            Repost::NeedsChannel
        } else {
            Repost::Post
        }),
{
    if !live.enable_start_run_ui {
        Repost::Off
    } else if live.start_run_ui_channel_id.is_none() {
        Repost::NeedsChannel
    } else {
        Repost::Post
    }
}

/// A tier is found by its id if and only if one has it.
pub proof fn tiers_are_found_by_id(tiers: Seq<Tier>, id: i32, from: int)
    requires
        0 <= from,
    ensures
        tier_with_id(tiers, id, from) matches Some(i) ==> from <= i < tiers.len() && tiers[i].id
            == id,
        tier_with_id(tiers, id, from) is None ==> forall|k: int|
            from <= k < tiers.len() ==> (#[trigger] tiers[k]).id != id,
    decreases tiers.len() - from,
{
    if from < tiers.len() && tiers[from].id != id {
        tiers_are_found_by_id(tiers, id, from + 1);
    }
}

/// Only picking a tier changes which tier is edited: every other click leaves the
/// section on the tier that it was on.
pub proof fn only_the_picker_changes_the_tier(
    s: SoState,
    tiers: Seq<Tier>,
    id: Seq<char>,
    picked: Picked,
)
    requires
        id != "setup:so:tierpick"@,
    ensures
        so_step_of(s, tiers, id, picked).0.tier_id == s.tier_id,
{
}

// ----- which tier is shown, and what is set -----------------------------------------------------------

/// The screen starts with the first tier that has the button switched on, or else with the
/// first tier; a server with one tier comes straight to it, one with more picks; a server
/// without tiers has no such screen.
pub proof fn the_screen_starts_with_a_tier(tiers: Seq<Tier>) -> (i: int)
    ensures
        so_start(tiers) is None <==> tiers.len() == 0,
        tiers.len() > 0 ==> {
            &&& 0 <= i < tiers.len()
            &&& so_start(tiers)->0.tier_id == tiers[i].id
            &&& so_start(tiers)->0.view is Config <==> tiers.len() == 1
            &&& tiers[i].enable_start_run_ui ==> forall|k: int|
                0 <= k < i ==> !(#[trigger] tiers[k]).enable_start_run_ui
            &&& !tiers[i].enable_start_run_ui ==> i == 0 && forall|k: int|
                0 <= k < tiers.len() ==> !(#[trigger] tiers[k]).enable_start_run_ui
        },
{
    enabled_tiers_are_found(tiers, 0);
    match initial_tier(tiers) {
        Some(i) => i,
        None => 0,
    }
}

proof fn enabled_tiers_are_found(tiers: Seq<Tier>, from: int)
    requires
        0 <= from,
    ensures
        enabled_tier(tiers, from) matches Some(i) ==> from <= i < tiers.len()
            && tiers[i].enable_start_run_ui && forall|k: int|
            from <= k < i ==> !(#[trigger] tiers[k]).enable_start_run_ui,
        enabled_tier(tiers, from) is None ==> forall|k: int|
            from <= k < tiers.len() ==> !(#[trigger] tiers[k]).enable_start_run_ui,
    decreases tiers.len() - from,
{
    if from < tiers.len() {
        enabled_tiers_are_found(tiers, from + 1);
    }
}

/// Each menu sets its own value, to the number that was picked: how long an idle headcount
/// stays, how long a leader waits, how many must react. What is no number sets nothing.
pub proof fn menus_set_what_was_picked(s: SoState, tiers: Seq<Tier>, texts: Vec<String>, n: int, i: int)
    requires
        0 <= i < tiers.len(),
        tiers[i].id == s.tier_id,
        texts@.len() > 0,
        int_value(texts@[0]@) == Some(n),
        i32::MIN <= n <= i32::MAX,
    ensures
        so_step_of(s, tiers, "setup:so:idle"@, Picked::Texts(texts)) == (s, SoStep::SetIdle(n as i32)),
        so_step_of(s, tiers, "setup:so:cooldown"@, Picked::Texts(texts)) == (
            s,
            SoStep::SetCooldown(n as i32),
        ),
        so_step_of(s, tiers, "setup:so:min"@, Picked::Texts(texts)) == (
            s,
            SoStep::SetMinReactors(n as i32),
        ),
        so_step_of(s, tiers, "setup:so:tierpick"@, Picked::Texts(texts)) == (
            SoState { tier_id: n as i32, view: SoView::Config },
            SoStep::Redraw,
        ),
        so_step_of(s, tiers, "setup:so:idle"@, Picked::Nothing) == (s, SoStep::Redraw),
        so_step_of(s, tiers, "setup:so:cooldown"@, Picked::Nothing) == (s, SoStep::Redraw),
        so_step_of(s, tiers, "setup:so:min"@, Picked::Nothing) == (s, SoStep::Redraw),
{
    tiers_are_found_by_id(tiers, s.tier_id, 0);
    names_of_controls_differ();
}

/// The sticky channel becomes the one that was picked, or none; what was posted in another
/// channel before is taken down, and only that.
pub proof fn channels_become_what_was_picked(
    s: SoState,
    tiers: Seq<Tier>,
    channels: Vec<u64>,
    i: int,
)
    requires
        tier_with_id(tiers, s.tier_id, 0) == Some(i),
    ensures
        ({
            let picked = if channels@.len() > 0 {
                Some(channels@[0] as i64)
            } else {
                None
            };
            let posted = tiers[i].start_run_ui_button_message_id is Some
                || tiers[i].start_run_ui_listing_message_id is Some;
            let step = so_step_of(s, tiers, "setup:so:channel"@, Picked::Channels(channels));
            &&& step.0 == s
            &&& step.1 is SetChannel && step.1->channel == picked
            &&& step.1->teardown <==> posted && picked != tiers[i].start_run_ui_channel_id
        }),
{
    names_of_controls_differ();
}

/// The buttons lead back, to the choice of a tier, switch, and post again; a tier that is
/// gone stops everything.
pub proof fn controls_do_what_they_say(s: SoState, tiers: Seq<Tier>, id: Seq<char>, picked: Picked)
    ensures
        tier_with_id(tiers, s.tier_id, 0) is None ==> so_step_of(s, tiers, id, picked) == (
            s,
            SoStep::Deleted,
        ),
        tier_with_id(tiers, s.tier_id, 0) is Some ==> {
            &&& so_step_of(s, tiers, "setup:so:back"@, picked) == (s, SoStep::Back)
            &&& so_step_of(s, tiers, "setup:so:switch"@, picked) == (
                SoState { tier_id: s.tier_id, view: SoView::Picker },
                SoStep::Redraw,
            )
            &&& so_step_of(s, tiers, "setup:so:toggle"@, picked) == (s, SoStep::Toggle)
            &&& so_step_of(s, tiers, "setup:so:repost"@, picked) == (s, SoStep::Repost)
        },
{
    names_of_controls_differ();
}

proof fn names_of_controls_differ()
    ensures
        "setup:so:back"@[9] == 'b',
        "setup:so:switch"@[9] == 's',
        "setup:so:tierpick"@[9] == 't' && "setup:so:tierpick"@[10] == 'i',
        "setup:so:channel"@[9] == 'c' && "setup:so:channel"@[10] == 'h',
        "setup:so:idle"@[9] == 'i',
        "setup:so:cooldown"@[9] == 'c' && "setup:so:cooldown"@[10] == 'o',
        "setup:so:min"@[9] == 'm',
        "setup:so:toggle"@[9] == 't' && "setup:so:toggle"@[10] == 'o',
        "setup:so:repost"@[9] == 'r',
{
    reveal_strlit("setup:so:back");
    reveal_strlit("setup:so:switch");
    reveal_strlit("setup:so:tierpick");
    reveal_strlit("setup:so:channel");
    reveal_strlit("setup:so:idle");
    reveal_strlit("setup:so:cooldown");
    reveal_strlit("setup:so:min");
    reveal_strlit("setup:so:toggle");
    reveal_strlit("setup:so:repost");
}

} // verus!
