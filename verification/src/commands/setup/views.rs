//! The screens of the setup wizard.

use vstd::prelude::*;

use crate::db::models::{Guild, Tier};
use crate::mention::{
    channel, channel_i64, channel_or, channel_u64, list_roles, opt_channel, opt_user, role,
    role_i64, role_mentions, roles_or, user, user_or,
};
use crate::text::{
    cat2, cat3, cat4, cat5, dec, dec_i32, dec_nat, dec_usize, joined, occurs, own, parts_occur, Text,
};
use crate::ui::{
    choice_views, choice_views_push, push_if, Button, ButtonStyle, ButtonView, Buttons, Choice,
    ChoiceView, Embed, EmbedView, Menu, MenuKind, MenuKindView, MenuView, RowView, Rows, Screen,
    ScreenView,
};

verus! {

// ----- the first screen ----------------------------------------------------------------

/// What the first screen says.
pub const INTRO_TEXT: &'static str = "Welcome! How would you like to set up?\n\
    \n\
    **Quick setup** — one click, sensible defaults:\n\
    • Creates a **Raids** category with a single `main-runs` \
    channel (headcounts and runs both live there)\n\
    • Creates `#🚀start-a-run` with a sticky **Start a run** \
    button so anyone can spin up a raid\n\
    • Creates `#🚀starship-log` for audit events\n\
    • Creates a **Raid Leader** role with raid-management \
    permissions\n\
    • Makes you the superadmin\n\
    \n\
    **Custom setup** — pick every channel and role yourself via a \
    dashboard. Best if you already have a channel structure.";

/// The first screen: quick or custom setup.
pub open spec fn intro_screen() -> ScreenView {
    ScreenView {
        embed: EmbedView::new("🛠 Starship setup"@, INTRO_TEXT@, 0x5865F2).footer(
            "You can re-run `/setup` any time to change anything."@,
        ),
        rows: Seq::empty().push(
            RowView::Buttons(
                Seq::empty().push(
                    ButtonView::new("setup:intro:quick"@, "Quick setup"@, ButtonStyle::Success),
                ).push(
                    ButtonView::new("setup:intro:custom"@, "Custom setup"@, ButtonStyle::Primary),
                ).push(ButtonView::new("setup:intro:close"@, "Close"@, ButtonStyle::Secondary)),
            ),
        ),
    }
}

/// Build the first screen.
pub fn intro_view() -> (r: Screen)
    ensures
        r@ == intro_screen(),
{
    let embed = Embed::new("🛠 Starship setup", INTRO_TEXT, 0x5865F2).footer(
        "You can re-run `/setup` any time to change anything.",
    );
    let buttons = Buttons::new().push(
        Button::new("setup:intro:quick", "Quick setup", ButtonStyle::Success),
    ).push(Button::new("setup:intro:custom", "Custom setup", ButtonStyle::Primary)).push(
        Button::new("setup:intro:close", "Close", ButtonStyle::Secondary),
    );
    Screen { embed, rows: Rows::new().buttons(buttons) }
}

// ----- the Verify message --------------------------------------------------------------

/// What the message of the Verify button says.
pub const VERIFY_TEXT: &'static str =
    "Verification links your Discord account to your in-game name (IGN) \
    via your RealmEye profile.\n\
    \n\
    **How it works**\n\
    1. Click **Verify** below and enter your IGN.\n\
    2. The bot will reply with a 6-digit code (only you can see it).\n\
    3. Log in to <https://www.realmeye.com>, open your profile, and \
    paste the code into your description. Save.\n\
    4. Come back here, click **I added it**, and you're done — \
    you'll get the **Verified** role and your nickname will be \
    set to your IGN.\n\
    \n\
    **Don't have a RealmEye password?**\n\
    In-game, message MrEyeball with `/tell MrEyeball password` and \
    they'll send you one. We're not affiliated with RealmEye and \
    don't control MrEyeball — **never share that password with us \
    or anyone else**, and we will never ask you for it.\n\
    \n\
    **Trouble?**\n\
    • Make sure your RealmEye **profile is set to public** \
    (RealmEye → Settings → Privacy) — descriptions can't be made \
    public on their own.\n\
    • Make sure you've logged into the game on this account at \
    least once recently — RealmEye won't show characters \
    that have never been seen.\n\
    • If verification keeps failing, ask a moderator to verify \
    you manually.";

/// The message of the Verify button.
pub open spec fn verify_button_screen() -> ScreenView {
    ScreenView {
        embed: EmbedView::new("🔐 Get verified"@, VERIFY_TEXT@, 0x57F287),
        rows: Seq::empty().push(
            RowView::Buttons(
                Seq::empty().push(
                    ButtonView::new("verify:start"@, "Verify"@, ButtonStyle::Success),
                ),
            ),
        ),
    }
}

/// Build the message of the Verify button.
pub fn verify_button_message() -> (r: Screen)
    ensures
        r@ == verify_button_screen(),
{
    Screen {
        embed: verify_button_embed(),
        rows: Rows::new().buttons(
            Buttons::new().push(Button::new("verify:start", "Verify", ButtonStyle::Success)),
        ),
    }
}

/// Build the embed of the Verify button.
pub fn verify_button_embed() -> (r: Embed)
    ensures
        r@ == EmbedView::new("🔐 Get verified"@, VERIFY_TEXT@, 0x57F287),
{
    Embed::new("🔐 Get verified", VERIFY_TEXT, 0x57F287)
}

// ----- the dashboard -------------------------------------------------------------------

/// A check mark, or an empty box.
pub open spec fn mark(ok: bool) -> Seq<char> {
    if ok {
        "✅"@
    } else {
        "⬜"@
    }
}

/// A check mark, or an empty box.
pub fn show_mark(ok: bool) -> (r: String)
    ensures
        r@ == mark(ok),
{
    if ok {
        own("✅")
    } else {
        own("⬜")
    }
}

/// The first tier has a channel for its runs, so that setup can be finished.
pub open spec fn tier_ready(tiers: Seq<Tier>) -> bool {
    tiers.len() > 0 && tiers[0].runs_channel_id is Some
}

/// What the dashboard says of the first tier.
pub open spec fn tier_block(tiers: Seq<Tier>) -> Seq<char> {
    if tiers.len() == 0 {
        "_no tiers yet — set one up to enable **Finish**_"@
    } else {
        let t = tiers[0];
        "**"@ + t.name@ + "** — runs: "@ + channel_or(t.runs_channel_id, "_no runs channel_"@) + (
        if t.enable_start_run_ui {
            " · start-run UI ✅"@
        } else {
            ""@
        }) + (if tiers.len() > 1 {
            "\n_+ "@ + dec(tiers.len() - 1) + " more tier(s) — manage with `/tier`._"@
        } else {
            ""@
        })
    }
}

fn show_tier_block(tiers: &Vec<Tier>) -> (r: String)
    ensures
        r@ == tier_block(tiers@),
{
    if tiers.len() == 0 {
        return own("_no tiers yet — set one up to enable **Finish**_");
    }
    let t = &tiers[0];
    let chip = if t.enable_start_run_ui {
        own(" · start-run UI ✅")
    } else {
        own("")
    };
    let extra = if tiers.len() > 1 {
        cat3("\n_+ ", &dec_usize(tiers.len() - 1), " more tier(s) — manage with `/tier`._")
    } else {
        own("")
    };
    Text::new("**").add(&t.name).add("** — runs: ").add(
        &opt_channel(t.runs_channel_id, "_no runs channel_"),
    ).add(&chip).add(&extra).done()
}

/// Verification works: a role, a channel and a posted message are known.
pub open spec fn verify_ready(g: Guild) -> bool {
    g.verified_role_id is Some && g.verify_channel_id is Some && g.verify_message_id is Some
}

/// What the dashboard says of verification.
pub open spec fn verify_block(g: Guild) -> Seq<char> {
    match (g.verified_role_id, g.verify_channel_id) {
        (Some(r), Some(c)) => if g.verify_message_id is Some {
            "role "@ + role(r as int) + " in "@ + channel(c as int)
        } else {
            "role "@ + role(r as int) + " in "@ + channel(c as int)
                + " — _Verify message not posted yet_"@
        },
        (Some(r), None) => "role "@ + role(r as int) + " — _no channel set_"@,
        (None, Some(c)) => channel(c as int) + " — _no role set_"@,
        (None, None) => "_not set_"@,
    }
}

fn show_verify_block(g: &Guild) -> (r: String)
    ensures
        r@ == verify_block(*g),
{
    match (g.verified_role_id, g.verify_channel_id) {
        (Some(r), Some(c)) => if g.verify_message_id.is_some() {
            cat4("role ", &role_i64(r), " in ", &channel_i64(c))
        } else {
            cat5(
                "role ",
                &role_i64(r),
                " in ",
                &channel_i64(c),
                " — _Verify message not posted yet_",
            )
        },
        (Some(r), None) => cat3("role ", &role_i64(r), " — _no channel set_"),
        (None, Some(c)) => cat2(&channel_i64(c), " — _no role set_"),
        (None, None) => own("_not set_"),
    }
}

/// What the dashboard says.
pub open spec fn dashboard_text(g: Guild, tiers: Seq<Tier>, guild_name: Seq<char>) -> Seq<char> {
    "Configure Starship for **"@ + guild_name + "**. Click a section to edit.\n\n"@ + mark(
        tier_ready(tiers),
    ) + " **Tier** *(required)*\n"@ + tier_block(tiers) + "\n\n"@ + mark(
        g.superadmin_user_id is Some,
    ) + " **Superadmin** *(bypass for emergencies)*\n"@ + user_or(
        g.superadmin_user_id,
        "_not set (Discord admins still have full access)_"@,
    ) + "\n\n"@ + mark(g.log_channel_id is Some) + " **Audit log channel** *(optional)*\n"@
        + channel_or(g.log_channel_id, "_not set_"@) + "\n\n"@ + mark(verify_ready(g))
        + " **Verification** *(optional)*\n"@ + verify_block(g)
}

/// The line below the dashboard.
pub open spec fn dashboard_footer(g: Guild, tiers: Seq<Tier>) -> Seq<char> {
    if g.setup_complete {
        "✨ Already set up — tweak any section and Save & close."@
    } else if tier_ready(tiers) {
        "Ready — click Finish to lock in the configuration."@
    } else {
        "Set up the first tier to enable Finish."@
    }
}

/// The dashboard: the state of each section, and the ways to edit them. It can
/// be finished once the first tier is ready.
pub open spec fn dashboard_screen(g: Guild, tiers: Seq<Tier>, guild_name: Seq<char>) -> ScreenView {
    let emphasis = |ready: bool|
        if ready {
            ButtonStyle::Secondary
        } else {
            ButtonStyle::Primary
        };
    ScreenView {
        embed: EmbedView::new(
            "🛠 Starship setup"@,
            dashboard_text(g, tiers, guild_name),
            0x5865F2,
        ).footer(dashboard_footer(g, tiers)),
        rows: Seq::empty().push(
            RowView::Buttons(
                Seq::empty().push(
                    ButtonView::new(
                        "setup:section:tier"@,
                        "Setup tier"@,
                        emphasis(tier_ready(tiers)),
                    ),
                ).push(
                    ButtonView::new(
                        "setup:section:superadmin"@,
                        "Superadmin"@,
                        ButtonStyle::Secondary,
                    ),
                ).push(
                    ButtonView::new("setup:section:log"@, "Log channel"@, ButtonStyle::Secondary),
                ).push(
                    ButtonView::new(
                        "setup:section:verify"@,
                        "Verification"@,
                        emphasis(verify_ready(g)),
                    ),
                ),
            ),
        ).push(
            RowView::Buttons(
                Seq::empty().push(
                    ButtonView::new(
                        "setup:finish"@,
                        if g.setup_complete {
                            "Save & close"@
                        } else {
                            "Finish setup"@
                        },
                        ButtonStyle::Success,
                    ).disabled(!tier_ready(tiers)),
                ).push(ButtonView::new("setup:cancel"@, "Close"@, ButtonStyle::Secondary)),
            ),
        ),
    }
}

fn emphasis_of(ready: bool) -> (r: ButtonStyle)
    ensures
        r == (if ready {
            ButtonStyle::Secondary
        } else {
            ButtonStyle::Primary
        }),
{
    if ready {
        ButtonStyle::Secondary
    } else {
        ButtonStyle::Primary
    }
}

/// Build the dashboard.
pub fn dashboard_view(g: &Guild, tiers: &Vec<Tier>, guild_name: &str) -> (r: Screen)
    ensures
        r@ == dashboard_screen(*g, tiers@, guild_name@),
{
    let ready = tiers.len() > 0 && tiers[0].runs_channel_id.is_some();
    let verified = g.verified_role_id.is_some() && g.verify_channel_id.is_some()
        && g.verify_message_id.is_some();
    let text = Text::new("Configure Starship for **").add(guild_name).add(
        "**. Click a section to edit.\n\n",
    ).add(&show_mark(ready)).add(" **Tier** *(required)*\n").add(&show_tier_block(tiers)).add(
        "\n\n",
    ).add(&show_mark(g.superadmin_user_id.is_some())).add(
        " **Superadmin** *(bypass for emergencies)*\n",
    ).add(
        &opt_user(g.superadmin_user_id, "_not set (Discord admins still have full access)_"),
    ).add("\n\n").add(&show_mark(g.log_channel_id.is_some())).add(
        " **Audit log channel** *(optional)*\n",
    ).add(&opt_channel(g.log_channel_id, "_not set_")).add("\n\n").add(&show_mark(verified)).add(
        " **Verification** *(optional)*\n",
    ).add(&show_verify_block(g)).done();
    let footer = if g.setup_complete {
        "✨ Already set up — tweak any section and Save & close."
    } else if ready {
        "Ready — click Finish to lock in the configuration."
    } else {
        "Set up the first tier to enable Finish."
    };
    let finish = if g.setup_complete {
        "Save & close"
    } else {
        "Finish setup"
    };
    let sections = Buttons::new().push(
        Button::new("setup:section:tier", "Setup tier", emphasis_of(ready)),
    ).push(Button::new("setup:section:superadmin", "Superadmin", ButtonStyle::Secondary)).push(
        Button::new("setup:section:log", "Log channel", ButtonStyle::Secondary),
    ).push(Button::new("setup:section:verify", "Verification", emphasis_of(verified)));
    let controls = Buttons::new().push(
        Button::new("setup:finish", finish, ButtonStyle::Success).disabled(!ready),
    ).push(Button::new("setup:cancel", "Close", ButtonStyle::Secondary));
    Screen {
        embed: Embed::new("🛠 Starship setup", &text, 0x5865F2).footer(footer),
        rows: Rows::new().buttons(sections).buttons(controls),
    }
}

// ----- the summary ---------------------------------------------------------------------

/// What the summary says of the next steps.
pub const NEXT_STEPS: &'static str = "\n\
    **Try it out**\n\
    • Click **Start a run** in the start-run UI channel (if enabled).\n\
    • Or run `/headcount <dungeon>` to start gathering raiders.\n\
    • Run `/pingroles` to subscribe to dungeon notifications.\n\
    \n\
    **Manage later**\n\
    • `/setup` → **Setup tier** → **Configure start-run UI** — \
    tune knobs, repost stickies, switch tiers\n\
    • `/tier` — add more tiers, change channels, assign access roles\n\
    • `/permission` — let specific roles run headcounts and runs\n\
    • `/dungeon` — customise or add dungeons\n\
    • `/pingroles set` — bind a dungeon to a notification role\n\
    • `/setup` — re-run this wizard any time";

/// What the summary says of the start-run UI.
pub open spec fn start_run_block(t: Tier) -> Seq<char> {
    match (t.enable_start_run_ui, t.start_run_ui_channel_id) {
        (true, Some(c)) => "\nStart-run UI is **enabled** — anyone can start a raid from "@
            + channel(c as int) + ".\n"@,
        _ => ""@,
    }
}

/// The summary of a finished setup.
pub open spec fn summary_embed(first: Tier, dungeon_count: int) -> EmbedView {
    EmbedView::new(
        "✨ Setup complete"@,
        "Starship is ready to raid.\n\n**"@ + first.name@ + "** is live in "@ + channel_or(
            first.runs_channel_id,
            "_not set_"@,
        ) + ".\n"@ + dec(dungeon_count) + " dungeon(s) are attached to this tier.\n"@
            + start_run_block(first) + NEXT_STEPS@,
        0x57F287,
    )
}

/// Build the summary of a finished setup.
pub fn summary_view(first: &Tier, dungeon_count: usize) -> (r: Embed)
    ensures
        r@ == summary_embed(*first, dungeon_count as int),
{
    let block = match (first.enable_start_run_ui, first.start_run_ui_channel_id) {
        (true, Some(c)) => cat3(
            "\nStart-run UI is **enabled** — anyone can start a raid from ",
            &channel_i64(c),
            ".\n",
        ),
        _ => own(""),
    };
    let text = Text::new("Starship is ready to raid.\n\n**").add(&first.name).add(
        "** is live in ",
    ).add(&opt_channel(first.runs_channel_id, "_not set_")).add(".\n").add(
        &dec_usize(dungeon_count),
    ).add(" dungeon(s) are attached to this tier.\n").add(&block).add(NEXT_STEPS).done();
    Embed::new("✨ Setup complete", &text, 0x57F287)
}

// ----- the first tier ------------------------------------------------------------------

/// What was picked for the first tier and is not saved yet.
#[derive(Debug)]
pub struct TierDraft {
    /// Channel of its headcounts and runs.
    pub runs_channel: Option<u64>,
    /// Roles that manage its raids.
    pub leader_roles: Vec<u64>,
    /// Roles that may only start headcounts in it.
    pub member_roles: Vec<u64>,
}

/// What was picked for the first tier, over views.
pub ghost struct TierDraftView {
    pub runs_channel: Option<u64>,
    pub leader_roles: Seq<u64>,
    pub member_roles: Seq<u64>,
}

impl View for TierDraft {
    type V = TierDraftView;

    open spec fn view(&self) -> TierDraftView {
        TierDraftView {
            runs_channel: self.runs_channel,
            leader_roles: self.leader_roles@,
            member_roles: self.member_roles@,
        }
    }
}

/// What is said where a channel can be made.
pub const CREATE_HINT: &'static str =
    "\n\nDon't have a channel yet? Click **Create default channel** below and \
    I'll make a Raids category with a `{slug}-runs` text channel for you.";

/// The beginning of what is said of tiers.
pub const TIER_TEXT: &'static str =
    "A **tier** is an isolated raid section (e.g. Main, Veterans, Elite).\n\
    Rename later with `/tier edit`.\n\
    \n\
    **Runs channel** — where headcount + run messages post\n";

/// What is said of leader roles.
pub const LEADER_TEXT: &'static str =
    "\n\n**Leader roles** — full raid management (start, convert, cancel, end)\n";

/// What is said of headcount roles.
pub const MEMBER_TEXT: &'static str =
    "\n\n**Headcount roles** — can start a headcount (`/hc` or sticky button) but \
    can't manage other people's raids\n";

/// What is said where no role leads.
pub const NO_LEADERS: &'static str =
    "_none — only Discord admins / the bot superadmin can lead raids in this tier_";

/// What is said where no role may only start headcounts.
pub const NO_MEMBERS: &'static str =
    "_none — leaders and admins can already start headcounts via `/hc`_";

/// What is said of the dungeons of a tier that is there.
pub const DUNGEONS_LATER: &'static str =
    "Dungeons are managed via `/tier add-dungeon` and `/tier remove-dungeon`.";

/// What is said of the dungeons of a tier that is not there yet.
pub const DUNGEONS_ATTACHED: &'static str = "** built-in dungeons will be \
    attached. You can trim them later with `/tier remove-dungeon`.";

/// The name of the tier that is edited.
pub open spec fn tier_name(existing: Option<Tier>) -> Seq<char> {
    match existing {
        Some(t) => t.name@,
        None => "Main"@,
    }
}

/// A mention of the draft's channel.
pub open spec fn draft_channel(id: Option<u64>) -> Seq<char> {
    match id {
        Some(c) => channel(c as int),
        None => "_required — pick one below_"@,
    }
}

/// What the tier screen says.
pub open spec fn tier_text(existing: Option<Tier>, draft: TierDraftView, dungeon_count: int) -> Seq<
    char,
> {
    TIER_TEXT@ + draft_channel(draft.runs_channel) + LEADER_TEXT@ + roles_or(
        draft.leader_roles,
        NO_LEADERS@,
    ) + MEMBER_TEXT@ + roles_or(draft.member_roles, NO_MEMBERS@) + "\n\n"@ + (if existing is None {
        "🎁 On create, all **"@ + dec(dungeon_count) + DUNGEONS_ATTACHED@
    } else {
        DUNGEONS_LATER@
    }) + (if draft.runs_channel is None {
        CREATE_HINT@
    } else {
        ""@
    })
}

/// The roles that a menu selects at first: nothing where there are none.
pub open spec fn preselected(ids: Seq<u64>) -> Option<Seq<u64>> {
    if ids.len() == 0 {
        None
    } else {
        Some(ids)
    }
}

/// One id in a list, where there is one.
pub open spec fn one_id(id: Option<u64>) -> Option<Seq<u64>> {
    match id {
        Some(c) => Some(seq![c]),
        None => None,
    }
}

/// An id of the database, as Discord writes it.
pub open spec fn as_id(id: Option<i64>) -> Option<u64> {
    match id {
        Some(i) => Some(i as u64),
        None => None,
    }
}

/// The screen of the first tier: it can be saved once a channel is picked.
pub open spec fn tier_screen(
    existing: Option<Tier>,
    draft: TierDraftView,
    dungeon_count: int,
) -> ScreenView {
    let unset = draft.runs_channel is None;
    let ui_on = existing is Some && existing->0.enable_start_run_ui;
    ScreenView {
        embed: EmbedView::new(
            "🎯 Setup tier · "@ + tier_name(existing),
            tier_text(existing, draft, dungeon_count),
            0x57F287,
        ),
        rows: Seq::empty().push(
            RowView::Menu(
                MenuView::new(
                    "setup:tier:runs"@,
                    MenuKindView::TextChannels(one_id(draft.runs_channel)),
                    "Runs channel (required)"@,
                    1,
                    1,
                ),
            ),
        ).push(
            RowView::Menu(
                MenuView::new(
                    "setup:tier:roles"@,
                    MenuKindView::Roles(preselected(draft.leader_roles)),
                    "Leader roles (full raid management)"@,
                    0,
                    10,
                ),
            ),
        ).push(
            RowView::Menu(
                MenuView::new(
                    "setup:tier:member_roles"@,
                    MenuKindView::Roles(preselected(draft.member_roles)),
                    "Headcount roles (can start, can't manage others)"@,
                    0,
                    10,
                ),
            ),
        ).push(
            RowView::Buttons(
                push_if(
                    Seq::empty().push(
                        ButtonView::new(
                            "setup:tier:save"@,
                            if existing is None {
                                "Create tier"@
                            } else {
                                "Save changes"@
                            },
                            ButtonStyle::Success,
                        ).disabled(unset),
                    ),
                    unset,
                    ButtonView::new(
                        "setup:tier:create_channels"@,
                        "Create default channel"@,
                        ButtonStyle::Primary,
                    ),
                ).push(
                    ButtonView::new(
                        "setup:tier:so"@,
                        if ui_on {
                            "Configure start-run UI ✅"@
                        } else {
                            "Configure start-run UI"@
                        },
                        ButtonStyle::Secondary,
                    ).disabled(existing is None),
                ).push(ButtonView::new("setup:tier:back"@, "← Back"@, ButtonStyle::Secondary)),
            ),
        ),
    }
}

/// One id in a list, where there is one.
pub fn list_one(id: Option<u64>) -> (r: Option<Vec<u64>>)
    ensures
        crate::ui::opt_ids(r) == one_id(id),
{
    match id {
        Some(c) => {
            let mut v: Vec<u64> = Vec::new();
            v.push(c);
            assert(v@ =~= seq![c]);
            Some(v)
        },
        None => None,
    }
}

/// An id of the database, as Discord writes it.
pub fn to_id(id: Option<i64>) -> (r: Option<u64>)
    ensures
        r == as_id(id),
{
    match id {
        Some(i) => Some(#[verifier::truncate] (i as u64)),
        None => None,
    }
}

/// A copy of a list of ids.
pub fn copy_ids(ids: &Vec<u64>) -> (r: Vec<u64>)
    ensures
        r@ == ids@,
{
    let mut out: Vec<u64> = Vec::new();
    let mut i: usize = 0;
    while i < ids.len()
        invariant
            i <= ids@.len(),
            out@ == ids@.take(i as int),
        decreases ids@.len() - i,
    {
        out.push(ids[i]);
        i = i + 1;
    }
    assert(out@ =~= ids@);
    out
}

fn preselect(ids: &Vec<u64>) -> (r: Option<Vec<u64>>)
    ensures
        crate::ui::opt_ids(r) == preselected(ids@),
{
    if ids.len() == 0 {
        None
    } else {
        Some(copy_ids(ids))
    }
}

/// What is known of a tier that may be missing.
pub open spec fn opt_tier(t: Option<&Tier>) -> Option<Tier> {
    match t {
        Some(x) => Some(*x),
        None => None,
    }
}

/// Build the screen of the first tier.
pub fn tier_view(existing: Option<&Tier>, draft: &TierDraft, dungeon_count: usize) -> (r: Screen)
    ensures
        r@ == tier_screen(opt_tier(existing), draft@, dungeon_count as int),
{
    let name = match existing {
        Some(t) => own(&t.name),
        None => own("Main"),
    };
    let ui_on = match existing {
        Some(t) => t.enable_start_run_ui,
        None => false,
    };
    let unset = draft.runs_channel.is_none();
    let runs = match draft.runs_channel {
        Some(c) => channel_u64(c),
        None => own("_required — pick one below_"),
    };
    let dungeons = if existing.is_none() {
        cat3("🎁 On create, all **", &dec_usize(dungeon_count), DUNGEONS_ATTACHED)
    } else {
        own(DUNGEONS_LATER)
    };
    let hint = if unset {
        CREATE_HINT
    } else {
        ""
    };
    let text = Text::new(TIER_TEXT).add(&runs).add(LEADER_TEXT).add(
        &list_roles(&draft.leader_roles, NO_LEADERS),
    ).add(MEMBER_TEXT).add(&list_roles(&draft.member_roles, NO_MEMBERS)).add("\n\n").add(
        &dungeons,
    ).add(hint).done();
    let runs_menu = Menu::new(
        "setup:tier:runs",
        MenuKind::TextChannels(list_one(draft.runs_channel)),
        "Runs channel (required)",
        1,
        1,
    );
    let leader_menu = Menu::new(
        "setup:tier:roles",
        MenuKind::Roles(preselect(&draft.leader_roles)),
        "Leader roles (full raid management)",
        0,
        10,
    );
    let member_menu = Menu::new(
        "setup:tier:member_roles",
        MenuKind::Roles(preselect(&draft.member_roles)),
        "Headcount roles (can start, can't manage others)",
        0,
        10,
    );
    let save = if existing.is_none() {
        "Create tier"
    } else {
        "Save changes"
    };
    let so = if ui_on {
        "Configure start-run UI ✅"
    } else {
        "Configure start-run UI"
    };
    let buttons = Buttons::new().push(
        Button::new("setup:tier:save", save, ButtonStyle::Success).disabled(unset),
    ).push_if(
        unset,
        Button::new("setup:tier:create_channels", "Create default channel", ButtonStyle::Primary),
    ).push(
        Button::new("setup:tier:so", so, ButtonStyle::Secondary).disabled(existing.is_none()),
    ).push(Button::new("setup:tier:back", "← Back", ButtonStyle::Secondary));
    Screen {
        embed: Embed::new(&cat2("🎯 Setup tier · ", &name), &text, 0x57F287),
        rows: Rows::new().menu(runs_menu).menu(leader_menu).menu(member_menu).buttons(buttons),
    }
}

// ----- the superadmin -------------------------------------------------------------------

/// What is said of the superadmin.
pub const SUPERADMIN_TEXT: &'static str =
    "A superadmin bypasses **every** permission check in this server.\n\
    Use it as a safety net in case your permission rules lock you out.\n\
    Anyone with the Discord **Manage Server** permission already has full access, \
    so this is mostly a courtesy for a specific person.\n\
    \n\
    Currently: ";

/// The screen of the superadmin.
pub open spec fn superadmin_screen(superadmin: Option<i64>) -> ScreenView {
    ScreenView {
        embed: EmbedView::new(
            "👑 Superadmin bypass"@,
            SUPERADMIN_TEXT@ + user_or(superadmin, "_not set_"@),
            0xFEE75C,
        ),
        rows: Seq::empty().push(
            RowView::Menu(
                MenuView::new(
                    "setup:superadmin:pick"@,
                    MenuKindView::Users(one_id(as_id(superadmin))),
                    "Pick a user"@,
                    1,
                    1,
                ),
            ),
        ).push(
            RowView::Buttons(
                Seq::empty().push(
                    ButtonView::new("setup:superadmin:use_me"@, "Use me"@, ButtonStyle::Primary),
                ).push(
                    ButtonView::new("setup:superadmin:clear"@, "Clear"@, ButtonStyle::Danger).disabled(
                        superadmin is None,
                    ),
                ).push(ButtonView::new("setup:superadmin:back"@, "← Back"@, ButtonStyle::Secondary)),
            ),
        ),
    }
}

/// Build the screen of the superadmin.
pub fn superadmin_view(superadmin: Option<i64>) -> (r: Screen)
    ensures
        r@ == superadmin_screen(superadmin),
{
    let text = cat2(SUPERADMIN_TEXT, &opt_user(superadmin, "_not set_"));
    let menu = Menu::new(
        "setup:superadmin:pick",
        MenuKind::Users(list_one(to_id(superadmin))),
        "Pick a user",
        1,
        1,
    );
    let buttons = Buttons::new().push(
        Button::new("setup:superadmin:use_me", "Use me", ButtonStyle::Primary),
    ).push(
        Button::new("setup:superadmin:clear", "Clear", ButtonStyle::Danger).disabled(
            superadmin.is_none(),
        ),
    ).push(Button::new("setup:superadmin:back", "← Back", ButtonStyle::Secondary));
    Screen {
        embed: Embed::new("👑 Superadmin bypass", &text, 0xFEE75C),
        rows: Rows::new().menu(menu).buttons(buttons),
    }
}

// ----- a channel -------------------------------------------------------------------------

/// A screen by which one channel is picked.
pub open spec fn channel_screen(
    title: Seq<char>,
    body: Seq<char>,
    current: Option<i64>,
    pick_id: Seq<char>,
    clear_id: Seq<char>,
    back_id: Seq<char>,
) -> ScreenView {
    ScreenView {
        embed: EmbedView::new(
            title,
            body + "\n\nCurrently: "@ + channel_or(current, "_not set_"@),
            0x5865F2,
        ),
        rows: Seq::empty().push(
            RowView::Menu(
                MenuView::new(
                    pick_id,
                    MenuKindView::TextChannels(one_id(as_id(current))),
                    "Pick a channel"@,
                    1,
                    1,
                ),
            ),
        ).push(
            RowView::Buttons(
                Seq::empty().push(
                    ButtonView::new(clear_id, "Clear"@, ButtonStyle::Danger).disabled(
                        current is None,
                    ),
                ).push(ButtonView::new(back_id, "← Back"@, ButtonStyle::Secondary)),
            ),
        ),
    }
}

/// Build a screen by which one channel is picked.
pub fn channel_section_view(
    title: &str,
    body: &str,
    current: Option<i64>,
    pick_id: &str,
    clear_id: &str,
    back_id: &str,
) -> (r: Screen)
    ensures
        r@ == channel_screen(title@, body@, current, pick_id@, clear_id@, back_id@),
{
    let text = cat3(body, "\n\nCurrently: ", &opt_channel(current, "_not set_"));
    let menu = Menu::new(
        pick_id,
        MenuKind::TextChannels(list_one(to_id(current))),
        "Pick a channel",
        1,
        1,
    );
    let buttons = Buttons::new().push(
        Button::new(clear_id, "Clear", ButtonStyle::Danger).disabled(current.is_none()),
    ).push(Button::new(back_id, "← Back", ButtonStyle::Secondary));
    Screen {
        embed: Embed::new(title, &text, 0x5865F2),
        rows: Rows::new().menu(menu).buttons(buttons),
    }
}

/// What is said of the log channel.
pub const LOG_TEXT: &'static str =
    "Where Starship posts audit-worthy events (runs started, leaders changed, \
    permissions updated). Pick a channel only raid leaders and staff can see.\n\
    \n\
    Leave empty to disable audit logging.";

/// Build the screen of the log channel.
pub fn log_channel_view(current: Option<i64>) -> (r: Screen)
    ensures
        r@ == channel_screen(
            "📜 Audit log channel"@,
            LOG_TEXT@,
            current,
            "setup:log:pick"@,
            "setup:log:clear"@,
            "setup:log:back"@,
        ),
{
    channel_section_view(
        "📜 Audit log channel",
        LOG_TEXT,
        current,
        "setup:log:pick",
        "setup:log:clear",
        "setup:log:back",
    )
}

// ----- verification -----------------------------------------------------------------------

/// The beginning of what is said of verification.
pub const VERIFICATION_TEXT: &'static str =
    "Verification links Discord users to RealmEye in-game names. Once \
    configured, users can click the persistent **Verify** button (or run \
    `/verify`) to bind their account to their IGN.\n\
    \n\
    Role: ";

/// The end of what is said of verification.
pub const VERIFICATION_HINT: &'static str = "\n\n\
    **Auto-provision** creates a `Verified` role + a `🔐verify` channel \
    and posts the button for you. Or pick an existing role / channel \
    and click **Post Verify message** to post manually.";

/// A mention of a role, or another text where there is none.
pub open spec fn role_or(id: Option<i64>, none: Seq<char>) -> Seq<char> {
    match id {
        Some(r) => role(r as int),
        None => none,
    }
}

/// The screen of verification: the message can be posted once a role and a
/// channel are picked.
pub open spec fn verification_screen(g: Guild) -> ScreenView {
    let posted = g.verify_message_id is Some;
    ScreenView {
        embed: EmbedView::new(
            "🔐 Verification"@,
            VERIFICATION_TEXT@ + role_or(g.verified_role_id, "_not set_"@) + "\nChannel: "@
                + channel_or(g.verify_channel_id, "_not set_"@) + (if posted {
                "\nVerify message: ✅ posted"@
            } else {
                "\nVerify message: ⬜ not posted"@
            }) + VERIFICATION_HINT@,
            0x57F287,
        ),
        rows: Seq::empty().push(
            RowView::Menu(
                MenuView::new(
                    "setup:verify:role"@,
                    MenuKindView::Roles(one_id(as_id(g.verified_role_id))),
                    "Verified role"@,
                    1,
                    1,
                ),
            ),
        ).push(
            RowView::Menu(
                MenuView::new(
                    "setup:verify:channel"@,
                    MenuKindView::TextChannels(one_id(as_id(g.verify_channel_id))),
                    "Verify channel"@,
                    1,
                    1,
                ),
            ),
        ).push(
            RowView::Buttons(
                Seq::empty().push(
                    ButtonView::new(
                        "setup:verify:post"@,
                        if posted {
                            "Repost Verify message"@
                        } else {
                            "Post Verify message"@
                        },
                        ButtonStyle::Success,
                    ).disabled(!(g.verified_role_id is Some && g.verify_channel_id is Some)),
                ).push(
                    ButtonView::new(
                        "setup:verify:auto"@,
                        "Auto-provision"@,
                        ButtonStyle::Primary,
                    ),
                ).push(
                    ButtonView::new("setup:verify:clear"@, "Clear"@, ButtonStyle::Danger).disabled(
                        g.verified_role_id is None && g.verify_channel_id is None && !posted,
                    ),
                ).push(ButtonView::new("setup:verify:back"@, "← Back"@, ButtonStyle::Secondary)),
            ),
        ),
    }
}

/// Build the screen of verification.
pub fn verification_view(g: &Guild) -> (r: Screen)
    ensures
        r@ == verification_screen(*g),
{
    let posted = g.verify_message_id.is_some();
    let role_text = match g.verified_role_id {
        Some(r) => role_i64(r),
        None => own("_not set_"),
    };
    let posted_text = if posted {
        "\nVerify message: ✅ posted"
    } else {
        "\nVerify message: ⬜ not posted"
    };
    let text = Text::new(VERIFICATION_TEXT).add(&role_text).add("\nChannel: ").add(
        &opt_channel(g.verify_channel_id, "_not set_"),
    ).add(posted_text).add(VERIFICATION_HINT).done();
    let role_menu = Menu::new(
        "setup:verify:role",
        MenuKind::Roles(list_one(to_id(g.verified_role_id))),
        "Verified role",
        1,
        1,
    );
    let channel_menu = Menu::new(
        "setup:verify:channel",
        MenuKind::TextChannels(list_one(to_id(g.verify_channel_id))),
        "Verify channel",
        1,
        1,
    );
    let post = if posted {
        "Repost Verify message"
    } else {
        "Post Verify message"
    };
    let can_post = g.verified_role_id.is_some() && g.verify_channel_id.is_some();
    let any_set = g.verified_role_id.is_some() || g.verify_channel_id.is_some() || posted;
    let buttons = Buttons::new().push(
        Button::new("setup:verify:post", post, ButtonStyle::Success).disabled(!can_post),
    ).push(Button::new("setup:verify:auto", "Auto-provision", ButtonStyle::Primary)).push(
        Button::new("setup:verify:clear", "Clear", ButtonStyle::Danger).disabled(!any_set),
    ).push(Button::new("setup:verify:back", "← Back", ButtonStyle::Secondary));
    Screen {
        embed: Embed::new("🔐 Verification", &text, 0x57F287),
        rows: Rows::new().menu(role_menu).menu(channel_menu).buttons(buttons),
    }
}

// ----- the start-run UI -------------------------------------------------------------------

/// A value that can be picked, and how it is called.
#[derive(Debug, Clone, Copy)]
pub struct Preset {
    /// The value.
    pub value: i32,
    /// How it is called.
    pub label: &'static str,
}

/// The idle windows that can be picked.
pub open spec fn idle_presets() -> Seq<(int, Seq<char>)> {
    seq![
        (5, "5 minutes"@),
        (10, "10 minutes"@),
        (15, "15 minutes"@),
        (30, "30 minutes"@),
        (60, "60 minutes"@),
    ]
}

/// The cooldowns that can be picked.
pub open spec fn cooldown_presets() -> Seq<(int, Seq<char>)> {
    seq![
        (60, "1 minute"@),
        (180, "3 minutes"@),
        (300, "5 minutes"@),
        (600, "10 minutes"@),
        (1800, "30 minutes"@),
    ]
}

/// The least numbers of reactors that can be picked.
pub open spec fn reactor_presets() -> Seq<(int, Seq<char>)> {
    seq![(1, "1"@), (2, "2"@), (3, "3"@), (4, "4"@), (5, "5"@), (6, "6"@), (8, "8"@)]
}

/// The values of a list of presets, and how they are called.
pub open spec fn preset_views(v: Seq<Preset>) -> Seq<(int, Seq<char>)> {
    Seq::new(v.len(), |i: int| (v[i].value as int, v[i].label@))
}

/// The entries of a menu of presets: each says what it controls, and the current
/// value is selected.
pub open spec fn preset_choices(
    presets: Seq<(int, Seq<char>)>,
    current: int,
    prefix: Seq<char>,
) -> Seq<ChoiceView> {
    Seq::new(
        presets.len(),
        |i: int|
            ChoiceView::new(
                prefix + ": "@ + presets[i].1,
                dec(presets[i].0),
                presets[i].0 == current,
            ),
    )
}

/// Build the entries of a menu of presets.
pub fn so_preset_options(presets: &[Preset], current: i32, prefix: &str) -> (r: Vec<Choice>)
    ensures
        choice_views(r@) == preset_choices(preset_views(presets@), current as int, prefix@),
{
    let mut out: Vec<Choice> = Vec::new();
    let mut i: usize = 0;
    let ghost all = preset_choices(preset_views(presets@), current as int, prefix@);
    while i < presets.len()
        invariant
            i <= presets@.len(),
            all == preset_choices(preset_views(presets@), current as int, prefix@),
            choice_views(out@) == all.take(i as int),
        decreases presets@.len() - i,
    {
        broadcast use choice_views_push;

        let p = presets[i];
        out.push(
            Choice::new(&cat3(prefix, ": ", p.label), &dec_i32(p.value), p.value == current),
        );
        i = i + 1;
        assert(all.take(i as int) =~= all.take(i - 1).push(all[i - 1]));
    }
    assert(all.take(i as int) =~= all);
    out
}

fn idle_options(current: i32) -> (r: Vec<Choice>)
    ensures
        choice_views(r@) == preset_choices(idle_presets(), current as int, "Idle"@),
{
    let p: [Preset; 5] = [
        Preset { value: 5, label: "5 minutes" },
        Preset { value: 10, label: "10 minutes" },
        Preset { value: 15, label: "15 minutes" },
        Preset { value: 30, label: "30 minutes" },
        Preset { value: 60, label: "60 minutes" },
    ];
    assert(preset_views(p@) =~= idle_presets());
    so_preset_options(p.as_slice(), current, "Idle")
}

fn cooldown_options(current: i32) -> (r: Vec<Choice>)
    ensures
        choice_views(r@) == preset_choices(cooldown_presets(), current as int, "Cooldown"@),
{
    let p: [Preset; 5] = [
        Preset { value: 60, label: "1 minute" },
        Preset { value: 180, label: "3 minutes" },
        Preset { value: 300, label: "5 minutes" },
        Preset { value: 600, label: "10 minutes" },
        Preset { value: 1800, label: "30 minutes" },
    ];
    assert(preset_views(p@) =~= cooldown_presets());
    so_preset_options(p.as_slice(), current, "Cooldown")
}

fn reactor_options(current: i32) -> (r: Vec<Choice>)
    ensures
        choice_views(r@) == preset_choices(reactor_presets(), current as int, "Min reactors"@),
{
    let p: [Preset; 7] = [
        Preset { value: 1, label: "1" },
        Preset { value: 2, label: "2" },
        Preset { value: 3, label: "3" },
        Preset { value: 4, label: "4" },
        Preset { value: 5, label: "5" },
        Preset { value: 6, label: "6" },
        Preset { value: 8, label: "8" },
    ];
    assert(preset_views(p@) =~= reactor_presets());
    so_preset_options(p.as_slice(), current, "Min reactors")
}

/// Which screen of the start-run UI is shown.
#[derive(Debug, Clone, Copy, PartialEq, Eq, Structural)]
pub enum SoView {
    /// The choice of a tier.
    Picker,
    /// The settings of a tier.
    Config,
}

/// A line for each of the first `n` tiers.
pub open spec fn tier_lines(tiers: Seq<Tier>, n: int) -> Seq<char>
    decreases n,
{
    if n <= 0 {
        Seq::empty()
    } else {
        let t = tiers[n - 1];
        tier_lines(tiers, n - 1) + (mark(t.enable_start_run_ui) + " **"@ + t.name@ + "**"@ + (
        match t.start_run_ui_channel_id {
            Some(c) => " "@ + channel(c as int),
            None => ""@,
        }) + "\n"@)
    }
}

/// The entries of the menu of tiers.
pub open spec fn tier_choices(tiers: Seq<Tier>, current: i32) -> Seq<ChoiceView> {
    Seq::new(
        tiers.len(),
        |i: int|
            ChoiceView::new(
                if tiers[i].enable_start_run_ui {
                    tiers[i].name@ + " (enabled)"@
                } else {
                    tiers[i].name@
                },
                dec(tiers[i].id as int),
                tiers[i].id == current,
            ),
    )
}

/// What is said above the tiers.
pub const PICK_TIER_TEXT: &'static str =
    "Start-run UI is configured per tier. Pick the tier you want to \
    configure below.\n\n";

/// The screen by which a tier is picked.
pub open spec fn so_picker_screen(tiers: Seq<Tier>, current: Tier) -> ScreenView {
    ScreenView {
        embed: EmbedView::new(
            "\u{1F680} Start-run UI \u{2014} pick a tier"@,
            PICK_TIER_TEXT@ + tier_lines(tiers, tiers.len() as int),
            0x5865F2,
        ),
        rows: Seq::empty().push(
            RowView::Menu(
                MenuView::new(
                    "setup:so:tierpick"@,
                    MenuKindView::Choices(tier_choices(tiers, current.id)),
                    "Tier to configure"@,
                    1,
                    1,
                ),
            ),
        ).push(
            RowView::Buttons(
                Seq::empty().push(
                    ButtonView::new("setup:so:back"@, "\u{2190} Back"@, ButtonStyle::Secondary),
                ),
            ),
        ),
    }
}

/// Build the screen by which a tier is picked.
pub fn so_picker_view(tiers: &Vec<Tier>, current: &Tier) -> (r: Screen)
    ensures
        r@ == so_picker_screen(tiers@, *current),
{
    let mut lines = String::new();
    let mut options: Vec<Choice> = Vec::new();
    let mut i: usize = 0;
    let ghost all = tier_choices(tiers@, current.id);
    while i < tiers.len()
        invariant
            i <= tiers@.len(),
            lines@ == tier_lines(tiers@, i as int),
            all == tier_choices(tiers@, current.id),
            choice_views(options@) == all.take(i as int),
        decreases tiers@.len() - i,
    {
        broadcast use choice_views_push;

        let t = &tiers[i];
        let place = match t.start_run_ui_channel_id {
            Some(c) => cat2(" ", &channel_i64(c)),
            None => own(""),
        };
        let line = Text::new(&show_mark(t.enable_start_run_ui)).add(" **").add(&t.name).add(
            "**",
        ).add(&place).add("\n").done();
        lines = cat2(&lines, &line);
        let label = if t.enable_start_run_ui {
            cat2(&t.name, " (enabled)")
        } else {
            own(&t.name)
        };
        options.push(Choice::new(&label, &dec_i32(t.id), t.id == current.id));
        i = i + 1;
        assert(all.take(i as int) =~= all.take(i - 1).push(all[i - 1]));
    }
    assert(all.take(i as int) =~= all);
    let menu = Menu::new(
        "setup:so:tierpick",
        MenuKind::Choices(options),
        "Tier to configure",
        1,
        1,
    );
    let buttons = Buttons::new().push(
        Button::new("setup:so:back", "\u{2190} Back", ButtonStyle::Secondary),
    );
    Screen {
        embed: Embed::new(
            "\u{1F680} Start-run UI \u{2014} pick a tier",
            &cat2(PICK_TIER_TEXT, &lines),
            0x5865F2,
        ),
        rows: Rows::new().menu(menu).buttons(buttons),
    }
}

/// What is said of the start-run UI.
pub const SO_TEXT: &'static str =
    "Per-tier opt-in: any user can start a headcount via a sticky **Start a run** \
    button — no leader role required.\n\
    \n\
    Anti-troll guardrails (configured below):\n\
    • One raid per (tier, dungeon) at a time\n\
    • One start-run UId raid per leader at a time\n\
    • Idle headcounts auto-cancel after the configured window\n\
    • Cancel cooldown after a leader self-cancels\n\
    • Minimum reactors required to convert HC \u{2192} Run\n\
    \n\
    **Tier:** ";

/// What is said of the channel of the start-run UI.
pub const SO_TIP: &'static str = "\n\n\
    _Tip: lock the sticky channel down to read-only for everyone but \
    the bot to keep the sticky messages near the top._";

/// What the screen of the start-run UI says of a tier.
pub open spec fn so_text(tier: Tier) -> Seq<char> {
    SO_TEXT@ + tier.name@ + "\n**Status:** "@ + (if tier.enable_start_run_ui {
        "✅ enabled"@
    } else {
        "⬜ disabled"@
    }) + "\n**Sticky channel:** "@ + channel_or(tier.start_run_ui_channel_id, "_not set_"@)
        + "\n**Headcounts post to:** "@ + channel_or(
        tier.runs_channel_id,
        "_not set — set in `Setup tier` or `/tier edit`_"@,
    ) + "\n**Idle window:** "@ + dec(tier.hc_idle_minutes as int)
        + " minutes\n**Cancel cooldown:** "@ + dec(tier.hc_cancel_cooldown_seconds as int)
        + " seconds\n**Min reactors:** "@ + dec(tier.hc_min_reactors as int) + SO_TIP@
}

/// The screen of the settings of a tier's start-run UI.
pub open spec fn so_config_screen(tier_count: int, tier: Tier) -> ScreenView {
    let on = tier.enable_start_run_ui;
    ScreenView {
        embed: EmbedView::new(
            "\u{1F680} Start-run UI \u{2014} "@ + tier.name@,
            so_text(tier),
            0x5865F2,
        ),
        rows: Seq::empty().push(
            RowView::Menu(
                MenuView::new(
                    "setup:so:channel"@,
                    MenuKindView::TextChannels(one_id(as_id(tier.start_run_ui_channel_id))),
                    "Sticky channel (button + listing live here)"@,
                    0,
                    1,
                ),
            ),
        ).push(
            RowView::Menu(
                MenuView::new(
                    "setup:so:idle"@,
                    MenuKindView::Choices(
                        preset_choices(idle_presets(), tier.hc_idle_minutes as int, "Idle"@),
                    ),
                    "Idle window before HCs auto-cancel"@,
                    0,
                    1,
                ),
            ),
        ).push(
            RowView::Menu(
                MenuView::new(
                    "setup:so:cooldown"@,
                    MenuKindView::Choices(
                        preset_choices(
                            cooldown_presets(),
                            tier.hc_cancel_cooldown_seconds as int,
                            "Cooldown"@,
                        ),
                    ),
                    "Cooldown after a leader self-cancels"@,
                    0,
                    1,
                ),
            ),
        ).push(
            RowView::Menu(
                MenuView::new(
                    "setup:so:min"@,
                    MenuKindView::Choices(
                        preset_choices(
                            reactor_presets(),
                            tier.hc_min_reactors as int,
                            "Min reactors"@,
                        ),
                    ),
                    "Minimum reactors to convert HC \u{2192} Run"@,
                    0,
                    1,
                ),
            ),
        ).push(
            RowView::Buttons(
                push_if(
                    push_if(
                        Seq::empty().push(
                            ButtonView::new(
                                "setup:so:toggle"@,
                                if on {
                                    "Disable"@
                                } else {
                                    "Enable"@
                                },
                                if on {
                                    ButtonStyle::Danger
                                } else {
                                    ButtonStyle::Success
                                },
                            ),
                        ),
                        on,
                        ButtonView::new(
                            "setup:so:repost"@,
                            "Repost stickies"@,
                            ButtonStyle::Secondary,
                        ),
                    ),
                    tier_count > 1,
                    ButtonView::new("setup:so:switch"@, "Switch tier"@, ButtonStyle::Secondary),
                ).push(
                    ButtonView::new("setup:so:back"@, "\u{2190} Back"@, ButtonStyle::Secondary),
                ),
            ),
        ),
    }
}

/// Build the screen of the settings of a tier's start-run UI.
pub fn so_config_view(tiers: &Vec<Tier>, tier: &Tier) -> (r: Screen)
    ensures
        r@ == so_config_screen(tiers@.len() as int, *tier),
{
    let on = tier.enable_start_run_ui;
    let status = if on {
        "✅ enabled"
    } else {
        "⬜ disabled"
    };
    let text = Text::new(SO_TEXT).add(&tier.name).add("\n**Status:** ").add(status).add(
        "\n**Sticky channel:** ",
    ).add(&opt_channel(tier.start_run_ui_channel_id, "_not set_")).add(
        "\n**Headcounts post to:** ",
    ).add(
        &opt_channel(tier.runs_channel_id, "_not set — set in `Setup tier` or `/tier edit`_"),
    ).add("\n**Idle window:** ").add(&dec_i32(tier.hc_idle_minutes)).add(
        " minutes\n**Cancel cooldown:** ",
    ).add(&dec_i32(tier.hc_cancel_cooldown_seconds)).add(" seconds\n**Min reactors:** ").add(
        &dec_i32(tier.hc_min_reactors),
    ).add(SO_TIP).done();
    let channel_menu = Menu::new(
        "setup:so:channel",
        MenuKind::TextChannels(list_one(to_id(tier.start_run_ui_channel_id))),
        "Sticky channel (button + listing live here)",
        0,
        1,
    );
    let idle_menu = Menu::new(
        "setup:so:idle",
        MenuKind::Choices(idle_options(tier.hc_idle_minutes)),
        "Idle window before HCs auto-cancel",
        0,
        1,
    );
    let cooldown_menu = Menu::new(
        "setup:so:cooldown",
        MenuKind::Choices(cooldown_options(tier.hc_cancel_cooldown_seconds)),
        "Cooldown after a leader self-cancels",
        0,
        1,
    );
    let min_menu = Menu::new(
        "setup:so:min",
        MenuKind::Choices(reactor_options(tier.hc_min_reactors)),
        "Minimum reactors to convert HC \u{2192} Run",
        0,
        1,
    );
    let toggle = if on {
        "Disable"
    } else {
        "Enable"
    };
    let style = if on {
        ButtonStyle::Danger
    } else {
        ButtonStyle::Success
    };
    let buttons = Buttons::new().push(Button::new("setup:so:toggle", toggle, style)).push_if(
        on,
        Button::new("setup:so:repost", "Repost stickies", ButtonStyle::Secondary),
    ).push_if(
        tiers.len() > 1,
        Button::new("setup:so:switch", "Switch tier", ButtonStyle::Secondary),
    ).push(Button::new("setup:so:back", "\u{2190} Back", ButtonStyle::Secondary));
    Screen {
        embed: Embed::new(&cat2("\u{1F680} Start-run UI \u{2014} ", &tier.name), &text, 0x5865F2),
        rows: Rows::new().menu(channel_menu).menu(idle_menu).menu(cooldown_menu).menu(
            min_menu,
        ).buttons(buttons),
    }
}

/// The screen of the start-run UI that is shown.
pub open spec fn start_run_screen(tiers: Seq<Tier>, current: Tier, view: SoView) -> ScreenView {
    match view {
        SoView::Picker => so_picker_screen(tiers, current),
        SoView::Config => so_config_screen(tiers.len() as int, current),
    }
}

/// Build the screen of the start-run UI that is shown.
pub fn render_start_run_ui_view(tiers: &Vec<Tier>, current: &Tier, view: SoView) -> (r: Screen)
    ensures
        r@ == start_run_screen(tiers@, *current, view),
{
    match view {
        SoView::Picker => so_picker_view(tiers, current),
        SoView::Config => so_config_view(tiers, current),
    }
}

// ----- what the screens show --------------------------------------------------------------------------

/// A server is ready when its first tier has a channel for runs; the dashboard's button to
/// finish can be pressed exactly then, and a server that was set up before saves instead.
pub proof fn finishing_needs_a_runs_channel(g: Guild, tiers: Seq<Tier>, name: Seq<char>)
    ensures
        ({
            let rows = dashboard_screen(g, tiers, name).rows;
            let sections = rows[0]->Buttons_0;
            let ends = rows[1]->Buttons_0;
            &&& rows.len() == 2 && rows[0] is Buttons && rows[1] is Buttons
            &&& sections.len() == 4 && ends.len() == 2
            &&& sections[0].custom_id == "setup:section:tier"@
            &&& sections[1].custom_id == "setup:section:superadmin"@
            &&& sections[2].custom_id == "setup:section:log"@
            &&& sections[3].custom_id == "setup:section:verify"@
            &&& forall|i: int| 0 <= i < 4 ==> !(#[trigger] sections[i]).disabled
            &&& ends[0].custom_id == "setup:finish"@ && ends[1].custom_id == "setup:cancel"@
            &&& ends[0].disabled <==> !(tiers.len() > 0 && tiers[0].runs_channel_id is Some)
            &&& !ends[1].disabled
            &&& g.setup_complete ==> ends[0].label == Some("Save & close"@)
            &&& !g.setup_complete ==> ends[0].label == Some("Finish setup"@)
        }),
{
}

/// The dashboard names the server, and shows of each section whether it is set up: of the
/// tier its channel, then the superadmin, the log channel, and the verification.
pub proof fn the_dashboard_shows_each_section(g: Guild, tiers: Seq<Tier>, name: Seq<char>)
    ensures
        ({
            let t = dashboard_text(g, tiers, name);
            let tick = |ok: bool|
                if ok {
                    "✅"@
                } else {
                    "⬜"@
                };
            &&& occurs(t, "Configure Starship for **"@ + name + "**. Click a section to edit.\n\n"@)
            &&& occurs(
                t,
                tick(tiers.len() > 0 && tiers[0].runs_channel_id is Some)
                    + " **Tier** *(required)*\n"@ + tier_block(tiers) + "\n\n"@,
            )
            &&& occurs(
                t,
                tick(g.superadmin_user_id is Some) + " **Superadmin** *(bypass for emergencies)*\n"@
                    + (if g.superadmin_user_id is Some {
                    "<@"@ + dec(g.superadmin_user_id->0 as int) + ">"@
                } else {
                    "_not set (Discord admins still have full access)_"@
                }) + "\n\n"@,
            )
            &&& occurs(
                t,
                tick(g.log_channel_id is Some) + " **Audit log channel** *(optional)*\n"@ + (
                if g.log_channel_id is Some {
                    "<#"@ + dec(g.log_channel_id->0 as int) + ">"@
                } else {
                    "_not set_"@
                }) + "\n\n"@,
            )
            &&& occurs(
                t,
                tick(
                    g.verified_role_id is Some && g.verify_channel_id is Some && g.verify_message_id
                        is Some,
                ) + " **Verification** *(optional)*\n"@ + verify_block(g),
            )
        }),
{
    let a = "Configure Starship for **"@ + name + "**. Click a section to edit.\n\n"@;
    let ready = mark(tier_ready(tiers));
    let tier = tier_block(tiers);
    let admin_mark = mark(g.superadmin_user_id is Some);
    let admin = user_or(g.superadmin_user_id, "_not set (Discord admins still have full access)_"@);
    let log_mark = mark(g.log_channel_id is Some);
    let log = channel_or(g.log_channel_id, "_not set_"@);
    let verify_mark = mark(verify_ready(g));
    let verify = verify_block(g);
    let b = ready + " **Tier** *(required)*\n"@ + tier + "\n\n"@;
    let c = admin_mark + " **Superadmin** *(bypass for emergencies)*\n"@ + admin + "\n\n"@;
    let d = log_mark + " **Audit log channel** *(optional)*\n"@ + log + "\n\n"@;
    let e = verify_mark + " **Verification** *(optional)*\n"@ + verify;
    joined_in_four(a, ready, " **Tier** *(required)*\n"@, tier, "\n\n"@);
    joined_in_four(
        a + b,
        admin_mark,
        " **Superadmin** *(bypass for emergencies)*\n"@,
        admin,
        "\n\n"@,
    );
    joined_in_four(a + b + c, log_mark, " **Audit log channel** *(optional)*\n"@, log, "\n\n"@);
    regrouped(a + b + c + d, verify_mark, " **Verification** *(optional)*\n"@);
    regrouped(a + b + c + d, verify_mark + " **Verification** *(optional)*\n"@, verify);
    five_parts_occur(a, b, c, d, e);
    assert(dashboard_text(g, tiers, name) == a + b + c + d + e);
}

proof fn five_parts_occur(
    a: Seq<char>,
    b: Seq<char>,
    c: Seq<char>,
    d: Seq<char>,
    e: Seq<char>,
)
    ensures
        ({
            let t = a + b + c + d + e;
            occurs(t, a) && occurs(t, b) && occurs(t, c) && occurs(t, d) && occurs(t, e)
        }),
{
    let t = a + b + c + d + e;
    parts_occur(Seq::empty(), a, b + c + d + e);
    assert(Seq::<char>::empty() + a + (b + c + d + e) =~= t);
    parts_occur(a, b, c + d + e);
    assert(a + b + (c + d + e) =~= t);
    parts_occur(a + b, c, d + e);
    assert(a + b + c + (d + e) =~= t);
    parts_occur(a + b + c, d, e);
    parts_occur(a + b + c + d, e, Seq::empty());
    assert(t + Seq::empty() =~= t);
}

proof fn regrouped(s: Seq<char>, a: Seq<char>, b: Seq<char>)
    ensures
        s + a + b == s + (a + b),
{
    assert(s + a + b =~= s + (a + b));
}

proof fn joined_in_four(s: Seq<char>, a: Seq<char>, b: Seq<char>, c: Seq<char>, d: Seq<char>)
    ensures
        s + a + b + c + d == s + (a + b + c + d),
{
    regrouped(s, a, b);
    regrouped(s, a + b, c);
    regrouped(s, a + b + c, d);
}

/// The tier section names the first tier and its channel, says whether the start button is
/// on, and how many more tiers there are.
pub proof fn the_first_tier_is_shown(tiers: Seq<Tier>)
    requires
        tiers.len() > 0,
    ensures
        ({
            let t = tiers[0];
            let place = if t.runs_channel_id is Some {
                "<#"@ + dec(t.runs_channel_id->0 as int) + ">"@
            } else {
                "_no runs channel_"@
            };
            let head = "**"@ + t.name@ + "** — runs: "@ + place;
            let ui = if t.enable_start_run_ui {
                " · start-run UI ✅"@
            } else {
                Seq::empty()
            };
            let more = if tiers.len() > 1 {
                "\n_+ "@ + dec(tiers.len() - 1) + " more tier(s) — manage with `/tier`._"@
            } else {
                Seq::empty()
            };
            tier_block(tiers) == head + ui + more
        }),
{
    reveal_strlit("");
    assert(""@ =~= Seq::<char>::empty());
}

/// The verification section says which role and which channel there are, what is missing,
/// and whether the message was posted.
pub proof fn verification_says_what_is_missing(g: Guild)
    ensures
        ({
            let role = "<@&"@ + dec(g.verified_role_id->0 as int) + ">"@;
            let place = "<#"@ + dec(g.verify_channel_id->0 as int) + ">"@;
            let has_role = g.verified_role_id is Some;
            let has_place = g.verify_channel_id is Some;
            let posted = g.verify_message_id is Some;
            &&& has_role && has_place && posted ==> verify_block(g) == "role "@ + role + " in "@
                + place
            &&& has_role && has_place && !posted ==> verify_block(g) == "role "@ + role + " in "@
                + place + " — _Verify message not posted yet_"@
            &&& has_role && !has_place ==> verify_block(g) == "role "@ + role
                + " — _no channel set_"@
            &&& !has_role && has_place ==> verify_block(g) == place + " — _no role set_"@
            &&& !has_role && !has_place ==> verify_block(g) == "_not set_"@
        }),
{
}

/// The screen of a tier has a menu for its channel and for each kind of role, with what
/// the draft holds picked beforehand; it can be saved exactly when the channel is picked,
/// a channel is offered to be made while it is not, and the start button can be set up for
/// a tier that exists.
pub proof fn tier_screens_hold_the_draft(existing: Option<Tier>, d: TierDraftView, n: int)
    ensures
        ({
            let screen = tier_screen(existing, d, n);
            let rows = screen.rows;
            let b = rows[3]->Buttons_0;
            let unset = d.runs_channel is None;
            let at = if unset {
                2int
            } else {
                1
            };
            &&& rows.len() == 4 && rows[0] is Menu && rows[1] is Menu && rows[2] is Menu
                && rows[3] is Buttons
            &&& rows[0]->Menu_0.custom_id == "setup:tier:runs"@
            &&& rows[1]->Menu_0.custom_id == "setup:tier:roles"@
            &&& rows[2]->Menu_0.custom_id == "setup:tier:member_roles"@
            &&& rows[0]->Menu_0.min == 1 && rows[0]->Menu_0.max == 1
            &&& rows[1]->Menu_0.min == 0 && rows[1]->Menu_0.max == 10
            &&& rows[2]->Menu_0.min == 0 && rows[2]->Menu_0.max == 10
            &&& rows[0]->Menu_0.kind == MenuKindView::TextChannels(
                if unset {
                    None
                } else {
                    Some(seq![d.runs_channel->0])
                },
            )
            &&& d.leader_roles.len() > 0 ==> rows[1]->Menu_0.kind == MenuKindView::Roles(
                Some(d.leader_roles),
            )
            &&& d.leader_roles.len() == 0 ==> rows[1]->Menu_0.kind == MenuKindView::Roles(None)
            &&& d.member_roles.len() > 0 ==> rows[2]->Menu_0.kind == MenuKindView::Roles(
                Some(d.member_roles),
            )
            &&& d.member_roles.len() == 0 ==> rows[2]->Menu_0.kind == MenuKindView::Roles(None)
            &&& b.len() == at + 2
            &&& b[0].custom_id == "setup:tier:save"@ && (b[0].disabled <==> unset)
            &&& unset ==> b[1].custom_id == "setup:tier:create_channels"@ && !b[1].disabled
            &&& b[at].custom_id == "setup:tier:so"@ && (b[at].disabled <==> existing is None)
            &&& b[at + 1].custom_id == "setup:tier:back"@ && !b[at + 1].disabled
            &&& existing is Some ==> screen.embed.title == Some(
                "🎯 Setup tier · "@ + existing->0.name@,
            )
            &&& existing is None ==> screen.embed.title == Some("🎯 Setup tier · "@ + "Main"@)
        }),
{
}

/// The superadmin's screen names who it is, with that person picked beforehand, and can be
/// cleared exactly where there is one.
pub proof fn the_superadmin_is_shown(superadmin: Option<i64>)
    ensures
        ({
            let screen = superadmin_screen(superadmin);
            let rows = screen.rows;
            let b = rows[1]->Buttons_0;
            &&& rows.len() == 2 && rows[0] is Menu && rows[1] is Buttons && b.len() == 3
            &&& rows[0]->Menu_0.custom_id == "setup:superadmin:pick"@
            &&& superadmin is Some ==> screen.embed.description == Some(
                SUPERADMIN_TEXT@ + ("<@"@ + dec(superadmin->0 as int) + ">"@),
            ) && rows[0]->Menu_0.kind == MenuKindView::Users(Some(seq![superadmin->0 as u64]))
            &&& superadmin is None ==> screen.embed.description == Some(
                SUPERADMIN_TEXT@ + "_not set_"@,
            ) && rows[0]->Menu_0.kind == MenuKindView::Users(None)
            &&& b[0].custom_id == "setup:superadmin:use_me"@ && !b[0].disabled
            &&& b[1].custom_id == "setup:superadmin:clear"@ && (b[1].disabled <==> superadmin
                is None)
            &&& b[2].custom_id == "setup:superadmin:back"@ && !b[2].disabled
        }),
{
}

/// A screen for a channel names the channel, with it picked beforehand, and can be cleared
/// exactly where there is one.
pub proof fn the_channel_is_shown(
    title: Seq<char>,
    body: Seq<char>,
    current: Option<i64>,
    pick_id: Seq<char>,
    clear_id: Seq<char>,
    back_id: Seq<char>,
)
    ensures
        ({
            let screen = channel_screen(title, body, current, pick_id, clear_id, back_id);
            let rows = screen.rows;
            let b = rows[1]->Buttons_0;
            &&& screen.embed.title == Some(title)
            &&& rows.len() == 2 && rows[0] is Menu && rows[1] is Buttons && b.len() == 2
            &&& rows[0]->Menu_0.custom_id == pick_id
            &&& current is Some ==> screen.embed.description == Some(
                body + "\n\nCurrently: "@ + ("<#"@ + dec(current->0 as int) + ">"@),
            ) && rows[0]->Menu_0.kind == MenuKindView::TextChannels(Some(seq![current->0 as u64]))
            &&& current is None ==> screen.embed.description == Some(
                body + "\n\nCurrently: "@ + "_not set_"@,
            ) && rows[0]->Menu_0.kind == MenuKindView::TextChannels(None)
            &&& b[0].custom_id == clear_id && (b[0].disabled <==> current is None)
            &&& b[1].custom_id == back_id && !b[1].disabled
        }),
{
}

/// The verification's screen shows role and channel, picked beforehand; the message can be
/// posted exactly when both are set, again when it was posted, and there is something to
/// clear as soon as one of the three is set.
pub proof fn verification_can_be_posted_when_set(g: Guild)
    ensures
        ({
            let rows = verification_screen(g).rows;
            let b = rows[2]->Buttons_0;
            let has_role = g.verified_role_id is Some;
            let has_place = g.verify_channel_id is Some;
            let posted = g.verify_message_id is Some;
            &&& rows.len() == 3 && rows[0] is Menu && rows[1] is Menu && rows[2] is Buttons
                && b.len() == 4
            &&& rows[0]->Menu_0.custom_id == "setup:verify:role"@
            &&& rows[0]->Menu_0.kind == MenuKindView::Roles(
                if has_role {
                    Some(seq![g.verified_role_id->0 as u64])
                } else {
                    None
                },
            )
            &&& rows[1]->Menu_0.custom_id == "setup:verify:channel"@
            &&& rows[1]->Menu_0.kind == MenuKindView::TextChannels(
                if has_place {
                    Some(seq![g.verify_channel_id->0 as u64])
                } else {
                    None
                },
            )
            &&& b[0].custom_id == "setup:verify:post"@ && (b[0].disabled <==> !has_role
                || !has_place)
            &&& posted ==> b[0].label == Some("Repost Verify message"@)
            &&& !posted ==> b[0].label == Some("Post Verify message"@)
            &&& b[1].custom_id == "setup:verify:auto"@ && !b[1].disabled
            &&& b[2].custom_id == "setup:verify:clear"@ && (b[2].disabled <==> !has_role
                && !has_place && !posted)
            &&& b[3].custom_id == "setup:verify:back"@ && !b[3].disabled
        }),
{
}

/// Each preset is offered, in order, under its name and with its number, and the one that
/// holds is picked beforehand.
pub proof fn presets_are_offered(presets: Seq<(int, Seq<char>)>, current: int, prefix: Seq<char>, i: int)
    requires
        0 <= i < presets.len(),
    ensures
        preset_choices(presets, current, prefix).len() == presets.len(),
        preset_choices(presets, current, prefix)[i].label == prefix + ": "@ + presets[i].1,
        preset_choices(presets, current, prefix)[i].value == dec(presets[i].0),
        preset_choices(presets, current, prefix)[i].selected <==> presets[i].0 == current,
{
}

/// The screen of the start button shows the tier's own values in its three menus, and its
/// channel; its button switches off what is on and on what is off; a message can be posted
/// again while it is on, and the tier can be changed where there are more.
pub proof fn the_start_button_is_set_up_per_tier(tier_count: int, t: Tier)
    ensures
        ({
            let screen = so_config_screen(tier_count, t);
            let rows = screen.rows;
            let b = rows[4]->Buttons_0;
            let on = t.enable_start_run_ui;
            let many = tier_count > 1;
            let switch_at = if on {
                2int
            } else {
                1
            };
            let back_at = switch_at + if many {
                1int
            } else {
                0
            };
            &&& rows.len() == 5 && rows[0] is Menu && rows[1] is Menu && rows[2] is Menu
                && rows[3] is Menu && rows[4] is Buttons
            &&& rows[0]->Menu_0.custom_id == "setup:so:channel"@
            &&& rows[0]->Menu_0.kind == MenuKindView::TextChannels(
                if t.start_run_ui_channel_id is Some {
                    Some(seq![t.start_run_ui_channel_id->0 as u64])
                } else {
                    None
                },
            )
            &&& rows[1]->Menu_0.custom_id == "setup:so:idle"@ && rows[1]->Menu_0.kind
                == MenuKindView::Choices(
                preset_choices(idle_presets(), t.hc_idle_minutes as int, "Idle"@),
            )
            &&& rows[2]->Menu_0.custom_id == "setup:so:cooldown"@ && rows[2]->Menu_0.kind
                == MenuKindView::Choices(
                preset_choices(
                    cooldown_presets(),
                    t.hc_cancel_cooldown_seconds as int,
                    "Cooldown"@,
                ),
            )
            &&& rows[3]->Menu_0.custom_id == "setup:so:min"@ && rows[3]->Menu_0.kind
                == MenuKindView::Choices(
                preset_choices(reactor_presets(), t.hc_min_reactors as int, "Min reactors"@),
            )
            &&& b.len() == back_at + 1
            &&& b[0].custom_id == "setup:so:toggle"@
            &&& on ==> b[0].label == Some("Disable"@) && b[1].custom_id == "setup:so:repost"@
            &&& !on ==> b[0].label == Some("Enable"@)
            &&& many ==> b[switch_at].custom_id == "setup:so:switch"@
            &&& b[back_at].custom_id == "setup:so:back"@
        }),
{
}

/// Each tier is listed in the choice, in order, with whether it has the start button and
/// where, and can be picked by its number; the one at hand is picked beforehand.
pub proof fn tiers_can_be_chosen(tiers: Seq<Tier>, current: Tier, i: int)
    requires
        0 <= i < tiers.len(),
    ensures
        ({
            let menu = so_picker_screen(tiers, current).rows[0];
            let c = menu->Menu_0.kind->Choices_0;
            &&& menu is Menu && menu->Menu_0.custom_id == "setup:so:tierpick"@
                && menu->Menu_0.kind is Choices
            &&& c.len() == tiers.len()
            &&& c[i].value == dec(tiers[i].id as int)
            &&& tiers[i].enable_start_run_ui ==> c[i].label == tiers[i].name@ + " (enabled)"@
            &&& !tiers[i].enable_start_run_ui ==> c[i].label == tiers[i].name@
            &&& c[i].selected <==> tiers[i].id == current.id
            &&& tier_lines(tiers, i + 1) == tier_lines(tiers, i) + ((if tiers[i].enable_start_run_ui {
                "✅"@
            } else {
                "⬜"@
            }) + " **"@ + tiers[i].name@ + "**"@ + (if tiers[i].start_run_ui_channel_id is Some {
                " "@ + ("<#"@ + dec(tiers[i].start_run_ui_channel_id->0 as int) + ">"@)
            } else {
                ""@
            }) + "\n"@)
        }),
{
}

/// When all is set up, the tier is named with its channel, with how many dungeons it has,
/// and with the channel of the start button where that is on.
pub proof fn the_summary_names_the_tier(t: Tier, dungeons: int)
    ensures
        ({
            let place = if t.runs_channel_id is Some {
                "<#"@ + dec(t.runs_channel_id->0 as int) + ">"@
            } else {
                "_not set_"@
            };
            let ui = if t.enable_start_run_ui && t.start_run_ui_channel_id is Some {
                "\nStart-run UI is **enabled** — anyone can start a raid from "@ + ("<#"@ + dec(
                    t.start_run_ui_channel_id->0 as int,
                ) + ">"@) + ".\n"@
            } else {
                ""@
            };
            summary_embed(t, dungeons).description == Some(
                "Starship is ready to raid.\n\n**"@ + t.name@ + "** is live in "@ + place + ".\n"@
                    + dec(dungeons) + " dungeon(s) are attached to this tier.\n"@ + ui + NEXT_STEPS@,
            )
        }),
{
}

/// What each preset is called is what it sets: minutes for an idle headcount, and seconds
/// that make whole minutes for a wait; the numbers grow from one to the next.
pub proof fn presets_are_called_what_they_set(i: int)
    ensures
        0 <= i < idle_presets().len() ==> idle_presets()[i].1 == dec(idle_presets()[i].0)
            + " minutes"@ && 5 <= idle_presets()[i].0 <= 60,
        0 <= i < cooldown_presets().len() ==> {
            let minutes = cooldown_presets()[i].0 / 60;
            &&& cooldown_presets()[i].0 == minutes * 60 && 1 <= minutes <= 30
            &&& minutes == 1 ==> cooldown_presets()[i].1 == dec(minutes) + " minute"@
            &&& minutes > 1 ==> cooldown_presets()[i].1 == dec(minutes) + " minutes"@
        },
        0 <= i < reactor_presets().len() ==> reactor_presets()[i].1 == dec(reactor_presets()[i].0)
            && 1 <= reactor_presets()[i].0 <= 8,
        0 <= i < idle_presets().len() - 1 ==> idle_presets()[i].0 < idle_presets()[i + 1].0,
        0 <= i < cooldown_presets().len() - 1 ==> cooldown_presets()[i].0
            < cooldown_presets()[i + 1].0,
        0 <= i < reactor_presets().len() - 1 ==> reactor_presets()[i].0 < reactor_presets()[i + 1].0,
{
    reveal_with_fuel(dec_nat, 3);
    reveal_strlit(" minutes");
    reveal_strlit(" minute");
    reveal_strlit("5 minutes");
    reveal_strlit("10 minutes");
    reveal_strlit("15 minutes");
    reveal_strlit("30 minutes");
    reveal_strlit("60 minutes");
    reveal_strlit("1 minute");
    reveal_strlit("3 minutes");
    reveal_strlit("1");
    reveal_strlit("2");
    reveal_strlit("3");
    reveal_strlit("4");
    reveal_strlit("5");
    reveal_strlit("6");
    reveal_strlit("8");
    assert(dec(5) + " minutes"@ =~= "5 minutes"@);
    assert(dec(10) + " minutes"@ =~= "10 minutes"@);
    assert(dec(15) + " minutes"@ =~= "15 minutes"@);
    assert(dec(30) + " minutes"@ =~= "30 minutes"@);
    assert(dec(60) + " minutes"@ =~= "60 minutes"@);
    assert(dec(1) + " minute"@ =~= "1 minute"@);
    assert(dec(3) + " minutes"@ =~= "3 minutes"@);
    assert(dec(1) =~= "1"@);
    assert(dec(2) =~= "2"@);
    assert(dec(3) =~= "3"@);
    assert(dec(4) =~= "4"@);
    assert(dec(5) =~= "5"@);
    assert(dec(6) =~= "6"@);
    assert(dec(8) =~= "8"@);
}

/// The tier's screen says where runs are posted, who leads and who may start, and what
/// becomes of the dungeons; while the channel is missing it says how to get one.
pub proof fn tier_screens_say_what_is_picked(existing: Option<Tier>, d: TierDraftView, n: int)
    ensures
        ({
            let place = if d.runs_channel is Some {
                "<#"@ + dec(d.runs_channel->0 as int) + ">"@
            } else {
                "_required — pick one below_"@
            };
            let leaders = if d.leader_roles.len() > 0 {
                joined(role_mentions(d.leader_roles), " "@)
            } else {
                NO_LEADERS@
            };
            let members = if d.member_roles.len() > 0 {
                joined(role_mentions(d.member_roles), " "@)
            } else {
                NO_MEMBERS@
            };
            let dungeons = if existing is None {
                "🎁 On create, all **"@ + dec(n) + DUNGEONS_ATTACHED@
            } else {
                DUNGEONS_LATER@
            };
            let hint = if d.runs_channel is None {
                CREATE_HINT@
            } else {
                ""@
            };
            tier_screen(existing, d, n).embed.description == Some(
                TIER_TEXT@ + place + LEADER_TEXT@ + leaders + MEMBER_TEXT@ + members + "\n\n"@
                    + dungeons + hint,
            )
        }),
        forall|i: int|
            0 <= i < d.leader_roles.len() ==> #[trigger] role_mentions(d.leader_roles)[i] == "<@&"@
                + dec(d.leader_roles[i] as int) + ">"@,
{
}

/// The start button's screen says of its tier whether the button is on, where it stands,
/// where headcounts are posted, and the three values that hold.
pub proof fn the_start_button_says_what_holds(count: int, t: Tier)
    ensures
        ({
            let status = if t.enable_start_run_ui {
                "✅ enabled"@
            } else {
                "⬜ disabled"@
            };
            let sticky = if t.start_run_ui_channel_id is Some {
                "<#"@ + dec(t.start_run_ui_channel_id->0 as int) + ">"@
            } else {
                "_not set_"@
            };
            let runs = if t.runs_channel_id is Some {
                "<#"@ + dec(t.runs_channel_id->0 as int) + ">"@
            } else {
                "_not set — set in `Setup tier` or `/tier edit`_"@
            };
            so_config_screen(count, t).embed.description == Some(
                SO_TEXT@ + t.name@ + "\n**Status:** "@ + status + "\n**Sticky channel:** "@ + sticky
                    + "\n**Headcounts post to:** "@ + runs + "\n**Idle window:** "@ + dec(
                    t.hc_idle_minutes as int,
                ) + " minutes\n**Cancel cooldown:** "@ + dec(t.hc_cancel_cooldown_seconds as int)
                    + " seconds\n**Min reactors:** "@ + dec(t.hc_min_reactors as int) + SO_TIP@,
            )
        }),
{
}

/// The dashboard's last line says whether everything was set up before, is ready to be
/// finished, or still lacks its first tier.
pub proof fn the_dashboard_says_how_far_it_is(g: Guild, tiers: Seq<Tier>, name: Seq<char>)
    ensures
        ({
            let footer = dashboard_screen(g, tiers, name).embed.footer;
            let ready = tiers.len() > 0 && tiers[0].runs_channel_id is Some;
            &&& g.setup_complete ==> footer == Some(
                "✨ Already set up — tweak any section and Save & close."@,
            )
            &&& !g.setup_complete && ready ==> footer == Some(
                "Ready — click Finish to lock in the configuration."@,
            )
            &&& !g.setup_complete && !ready ==> footer == Some(
                "Set up the first tier to enable Finish."@,
            )
        }),
{
}

/// The view of a `TierDraft` shows each of its fields as it is.
pub proof fn tier_draft_shows_its_fields(x: TierDraft)
    ensures
        x@.runs_channel == x.runs_channel,
        x@.leader_roles == x.leader_roles@,
        x@.member_roles == x.member_roles@,
{
}

} // verus!
