//! Raids that members organize themselves: the button, the list of dungeons, and
//! the form that starts a headcount. Anyone may click; the start gate holds back
//! abuse.

use vstd::prelude::*;

use crate::db::models::{DungeonTemplate, Tier};
use crate::embeds::headcount::{is_unicode_literal, unicode_literal};
use crate::handlers::headcount::{LOCATION_HINT, PARTY_HINT};
use crate::handlers::inputs::{input_value, typed_text, typed_value, TypedInput};
use crate::handlers::routing::{piece_number, SoClick};
use crate::mention::{channel, channel_i64};
use crate::text::{
    cat2, cat3, cat4, cat5, dec, dec_i32, dec_usize, int_value, opt_view, own, parse_i32, trimmed,
    views,
};
use crate::ui::{
    choice_views, choice_views_push, Button, ButtonStyle, ButtonView, Buttons, Choice, ChoiceView,
    Emoji, EmojiView, Form, FormView, Input, InputView, Menu, MenuKind, MenuKindView, MenuView,
    RowView, Rows,
};

verus! {

/// How many dungeons a page of the list has: as many as Discord allows in a menu.
pub const PICKER_PAGE_SIZE: usize = 25;

// ----- pages -----------------------------------------------------------------------------

/// A page of a list.
#[derive(Debug, Clone, Copy, PartialEq, Eq, Structural)]
pub struct Page {
    /// Number of the page, from 0.
    pub number: usize,
    /// How many pages there are.
    pub total: usize,
    /// First entry.
    pub start: usize,
    /// Entry behind the last.
    pub end: usize,
}

/// How many pages a list has; at least one.
pub open spec fn page_count(len: int) -> int {
    if len <= 0 {
        1
    } else {
        (len + PICKER_PAGE_SIZE - 1) / (PICKER_PAGE_SIZE as int)
    }
}

/// A page of a list; the last one where there is no such page.
pub open spec fn page_of(len: int, wanted: int) -> (int, int, int, int) {
    let total = page_count(len);
    let number = if wanted < total {
        wanted
    } else {
        total - 1
    };
    let start = number * PICKER_PAGE_SIZE;
    let end = if start + PICKER_PAGE_SIZE < len {
        start + PICKER_PAGE_SIZE
    } else {
        len
    };
    (number, total, start, end)
}

impl Page {
    /// The number, the number of pages, and where the page starts and ends.
    pub open spec fn parts(self) -> (int, int, int, int) {
        (self.number as int, self.total as int, self.start as int, self.end as int)
    }
}

/// A page of a list; the last one where there is no such page.
pub fn picker_page(len: usize, wanted: usize) -> (r: Page)
    ensures
        r.parts() == page_of(len as int, wanted as int),
        r.start <= r.end <= len,
        r.end - r.start <= PICKER_PAGE_SIZE,
        r.number < r.total,
        r.total <= len / PICKER_PAGE_SIZE + 1,
{
    let rest: usize = if len % PICKER_PAGE_SIZE != 0 {
        1
    } else {
        0
    };
    let whole: usize = len / PICKER_PAGE_SIZE;
    let pages: usize = whole + rest;
    let total: usize = if pages == 0 {
        1
    } else {
        pages
    };
    let number: usize = if wanted < total {
        wanted
    } else {
        total - 1
    };
    let start: usize = number * PICKER_PAGE_SIZE;
    let end: usize = if len - start > PICKER_PAGE_SIZE {
        start + PICKER_PAGE_SIZE
    } else {
        len
    };
    Page { number, total, start, end }
}

/// Every entry of a list is on exactly one page.
pub proof fn pages_cover_the_list(len: int, i: int)
    requires
        0 <= i < len,
    ensures
        0 <= i / (PICKER_PAGE_SIZE as int) < page_count(len),
        forall|p: int|
            0 <= p < page_count(len) ==> ((#[trigger] page_of(len, p)).2 <= i < page_of(len, p).3)
                == (p == i / (PICKER_PAGE_SIZE as int)),
{
}

// ----- the list of dungeons -------------------------------------------------------------------

/// A page of the list of dungeons.
#[derive(Debug)]
pub struct PickerPage {
    /// What it says.
    pub content: String,
    /// Its menu, and its buttons where there is another page.
    pub components: Rows,
}

/// What a page of the list of dungeons is.
pub ghost struct PickerPageView {
    pub content: Seq<char>,
    pub components: Seq<RowView>,
}

impl View for PickerPage {
    type V = PickerPageView;

    open spec fn view(&self) -> PickerPageView {
        PickerPageView { content: self.content@, components: self.components@ }
    }
}

/// The entry of a dungeon: its name, its id, and its emoji where that is a Unicode
/// one.
pub open spec fn dungeon_choice(t: DungeonTemplate) -> ChoiceView {
    ChoiceView::new(t.display_name@, dec(t.id as int), false).emoji(
        match t.emoji {
            Some(e) => if unicode_literal(e@) {
                Some(EmojiView::Unicode(e@))
            } else {
                None
            },
            None => None,
        },
    )
}

/// The entries of dungeons.
pub open spec fn dungeon_choices(list: Seq<DungeonTemplate>) -> Seq<ChoiceView> {
    Seq::new(list.len(), |i: int| dungeon_choice(list[i]))
}

fn list_choices(list: &Vec<DungeonTemplate>) -> (r: Vec<Choice>)
    ensures
        choice_views(r@) == dungeon_choices(list@),
{
    let mut out: Vec<Choice> = Vec::new();
    let ghost all = dungeon_choices(list@);
    let mut i: usize = 0;
    assert(choice_views(out@) =~= all.take(0));
    while i < list.len()
        invariant
            i <= list@.len(),
            all == dungeon_choices(list@),
            choice_views(out@) == all.take(i as int),
        decreases list@.len() - i,
    {
        broadcast use choice_views_push;

        let t = &list[i];
        let emoji = match &t.emoji {
            Some(e) => if is_unicode_literal(e) {
                Some(Emoji::Unicode(own(e)))
            } else {
                None
            },
            None => None,
        };
        out.push(Choice::new(&t.display_name, &dec_i32(t.id), false).emoji(emoji));
        i = i + 1;
        assert(all.take(i as int) =~= all.take(i - 1).push(all[i - 1]));
    }
    assert(all.take(i as int) =~= all);
    out
}

/// The id of a button that shows another page.
pub open spec fn page_button_id(tier: i32, page: int) -> Seq<char> {
    "so:page:"@ + dec(tier as int) + ":"@ + dec(page)
}

/// A page of the list of dungeons.
pub open spec fn picker_view(tier: Tier, page: Page, list: Seq<DungeonTemplate>) -> PickerPageView {
    let menu = RowView::Menu(
        MenuView::new(
            "so:dpick:"@ + dec(tier.id as int),
            MenuKindView::Choices(dungeon_choices(list)),
            "Pick a dungeon"@,
            1,
            1,
        ),
    );
    let before = if page.number == 0 {
        0
    } else {
        page.number - 1
    };
    let nav = RowView::Buttons(
        Seq::empty().push(
            ButtonView::new(
                page_button_id(tier.id, before),
                "← Prev"@,
                ButtonStyle::Secondary,
            ).disabled(page.number == 0),
        ).push(
            ButtonView::new(
                page_button_id(tier.id, page.number + 1),
                "Next →"@,
                ButtonStyle::Secondary,
            ).disabled(page.number + 1 >= page.total),
        ),
    );
    let note = if page.total > 1 {
        " · Page "@ + dec(page.number + 1) + " / "@ + dec(page.total as int)
    } else {
        Seq::empty()
    };
    PickerPageView {
        content: "Pick a dungeon to start a headcount in **"@ + tier.name@ + "**."@ + note,
        components: if page.total > 1 {
            Seq::empty().push(menu).push(nav)
        } else {
            Seq::empty().push(menu)
        },
    }
}

/// Build a page of the list of dungeons, out of those dungeons of the page that are
/// still there.
pub fn render_picker_page(tier: &Tier, page: Page, list: &Vec<DungeonTemplate>) -> (r: PickerPage)
    requires
        page.number < usize::MAX,
    ensures
        r@ == picker_view(*tier, page, list@),
{
    let id = dec_i32(tier.id);
    let menu = Menu::new(
        &cat2("so:dpick:", &id),
        MenuKind::Choices(list_choices(list)),
        "Pick a dungeon",
        1,
        1,
    );
    let rows = Rows::new().menu(menu);
    let next: usize = page.number + 1;
    if page.total > 1 {
        let before: usize = if page.number == 0 {
            0
        } else {
            page.number - 1
        };
        let prev_button = Button::new(
            &cat4("so:page:", &id, ":", &dec_usize(before)),
            "← Prev",
            ButtonStyle::Secondary,
        ).disabled(page.number == 0);
        let next_button = Button::new(
            &cat4("so:page:", &id, ":", &dec_usize(next)),
            "Next →",
            ButtonStyle::Secondary,
        ).disabled(next >= page.total);
        let note = cat4(" · Page ", &dec_usize(next), " / ", &dec_usize(page.total));
        PickerPage {
            content: cat4(
                "Pick a dungeon to start a headcount in **",
                &tier.name,
                "**.",
                &note,
            ),
            components: rows.buttons(Buttons::new().push(prev_button).push(next_button)),
        }
    } else {
        PickerPage {
            content: cat4(
                "Pick a dungeon to start a headcount in **",
                &tier.name,
                "**.",
                &String::new(),
            ),
            components: rows,
        }
    }
}

// ----- clicks ------------------------------------------------------------------------------

/// What is said of a tier that is gone.
pub const TIER_GONE: &'static str =
    "This tier no longer exists. The button will be cleaned up on the next restart.";

/// What is said of a tier whose start-run UI was switched off.
pub const UI_OFF: &'static str = "Self-organized raids are no longer enabled for this tier. \
    Ask a server admin to re-enable in `/setup` if you'd like to use it.";

/// What is said of a tier without dungeons.
pub const NO_DUNGEONS: &'static str = "This tier has no dungeons configured yet. Ask a server admin \
    to attach dungeons in `/tier add-dungeon`.";

/// What is said of a tier whose dungeons were taken out.
pub const NO_DUNGEONS_ANYMORE: &'static str =
    "This tier has no dungeons configured anymore. Ask a server admin \
    to attach dungeons in `/tier add-dungeon`.";

/// What is said of a dungeon that is gone.
pub const DUNGEON_GONE: &'static str =
    "That dungeon is no longer available. Try opening the picker again.";

/// What is known so far of a click on the start-run UI. What is not known is
/// `None`.
pub struct SoFacts {
    /// The tier, or that there is none.
    pub tier: Option<Option<Tier>>,
    /// How many dungeons the tier has.
    pub dungeons: Option<usize>,
    /// Those dungeons of the page that are still there.
    pub listed: Option<Vec<DungeonTemplate>>,
    /// What was picked in the menu.
    pub picked: Vec<String>,
    /// Whether the dungeon that was picked is still there.
    pub template_exists: Option<bool>,
}

/// What to do about a click on the start-run UI.
#[derive(Debug)]
pub enum SoStep {
    /// Look up the tier.
    LoadTier,
    /// Count the dungeons of the tier.
    CountDungeons,
    /// Look up the dungeons of this page.
    LoadDungeons(Page),
    /// Find out whether this dungeon is there.
    AskTemplate(i32),
    /// Say this, and do nothing.
    Refuse(String),
    /// Say this in place of the list.
    Replace(String),
    /// Do nothing.
    Nothing,
    /// Show this to who clicked.
    Show(PickerPage),
    /// Show this in place of the page before.
    Turn(PickerPage),
    /// Open this form.
    Open(Form),
}

/// What to do about a click on the start-run UI, over views.
pub ghost enum SoStepView {
    LoadTier,
    CountDungeons,
    LoadDungeons((int, int, int, int)),
    AskTemplate(int),
    Refuse(Seq<char>),
    Replace(Seq<char>),
    Nothing,
    Show(PickerPageView),
    Turn(PickerPageView),
    Open(FormView),
}

impl View for SoStep {
    type V = SoStepView;

    open spec fn view(&self) -> SoStepView {
        match self {
            SoStep::LoadTier => SoStepView::LoadTier,
            SoStep::CountDungeons => SoStepView::CountDungeons,
            SoStep::LoadDungeons(p) => SoStepView::LoadDungeons(p.parts()),
            SoStep::AskTemplate(n) => SoStepView::AskTemplate(*n as int),
            SoStep::Refuse(t) => SoStepView::Refuse(t@),
            SoStep::Replace(t) => SoStepView::Replace(t@),
            SoStep::Nothing => SoStepView::Nothing,
            SoStep::Show(p) => SoStepView::Show(p@),
            SoStep::Turn(p) => SoStepView::Turn(p@),
            SoStep::Open(f) => SoStepView::Open(f@),
        }
    }
}

/// The dungeon that was picked: the number that the first value writes.
pub open spec fn picked_dungeon(values: Seq<Seq<char>>) -> Option<int> {
    if values.len() == 0 {
        None
    } else {
        piece_number(values[0])
    }
}

/// The dungeon that was picked.
pub fn first_picked(values: &Vec<String>) -> (r: Option<i32>)
    ensures
        match r {
            Some(n) => picked_dungeon(views(values@)) == Some(n as int),
            None => picked_dungeon(views(values@)) is None,
        },
{
    assert(views(values@).len() == values@.len());
    if values.len() == 0 {
        None
    } else {
        assert(views(values@)[0] == values@[0]@);
        parse_i32(&values[0])
    }
}

/// The form that asks where the headcount is and who comes.
pub open spec fn so_start_form(tier_id: i32, template_id: int) -> FormView {
    FormView::new(
        "so:start:"@ + dec(tier_id as int) + ":"@ + dec(template_id),
        "Start a headcount"@,
    ).input(
        InputView::short("Location"@, "location"@).placeholder(LOCATION_HINT@).required(
            false,
        ).max_length(200),
    ).input(
        InputView::long("Party"@, "party"@).placeholder(PARTY_HINT@).required(false).max_length(1000),
    )
}

/// The form that asks where the headcount is and who comes.
pub fn build_so_form(tier_id: i32, template_id: i32) -> (r: Form)
    ensures
        r@ == so_start_form(tier_id, template_id as int),
{
    Form::new(
        &cat4("so:start:", &dec_i32(tier_id), ":", &dec_i32(template_id)),
        "Start a headcount",
    ).input(
        Input::short("Location", "location").placeholder(LOCATION_HINT).required(false).max_length(200),
    ).input(Input::long("Party", "party").placeholder(PARTY_HINT).required(false).max_length(1000))
}

/// What to do about a click that shows a page: the page, or what is said where
/// there are no dungeons.
pub open spec fn page_step(f: SoFacts, tier: Tier, wanted: int, turn: bool) -> SoStepView {
    match f.dungeons {
        None => SoStepView::CountDungeons,
        Some(n) => if n == 0 {
            if turn {
                SoStepView::Replace(NO_DUNGEONS_ANYMORE@)
            } else {
                SoStepView::Refuse(NO_DUNGEONS@)
            }
        } else {
            match f.listed {
                None => SoStepView::LoadDungeons(page_of(n as int, wanted)),
                Some(list) => {
                    let p = page_of(n as int, wanted);
                    let page = Page {
                        number: p.0 as usize,
                        total: p.1 as usize,
                        start: p.2 as usize,
                        end: p.3 as usize,
                    };
                    if turn {
                        SoStepView::Turn(picker_view(tier, page, list@))
                    } else {
                        SoStepView::Show(picker_view(tier, page, list@))
                    }
                },
            }
        },
    }
}

/// What to do about a click on the start-run UI. The tier must be there and its UI
/// switched on; the dungeon that was picked must still be there.
pub open spec fn so_step_of(f: SoFacts, tier_id: i32, click: SoClick) -> SoStepView {
    match f.tier {
        None => SoStepView::LoadTier,
        Some(None) => SoStepView::Refuse(TIER_GONE@),
        Some(Some(tier)) => if !tier.enable_start_run_ui {
            SoStepView::Refuse(UI_OFF@)
        } else {
            match click {
                SoClick::Open => page_step(f, tier, 0, false),
                SoClick::Page(wanted) => page_step(f, tier, wanted as int, true),
                SoClick::Pick => match picked_dungeon(views(f.picked@)) {
                    None => SoStepView::Nothing,
                    Some(n) => match f.template_exists {
                        None => SoStepView::AskTemplate(n),
                        Some(false) => SoStepView::Refuse(DUNGEON_GONE@),
                        Some(true) => SoStepView::Open(so_start_form(tier_id, n)),
                    },
                },
            }
        },
    }
}

fn next_page_step(f: &SoFacts, tier: &Tier, wanted: usize, turn: bool) -> (r: SoStep)
    ensures
        r@ == page_step(*f, *tier, wanted as int, turn),
{
    let n: usize = match f.dungeons {
        None => {
            return SoStep::CountDungeons;
        },
        Some(n) => n,
    };
    if n == 0 {
        return if turn {
            SoStep::Replace(own(NO_DUNGEONS_ANYMORE))
        } else {
            SoStep::Refuse(own(NO_DUNGEONS))
        };
    }
    let page = picker_page(n, wanted);
    match &f.listed {
        None => SoStep::LoadDungeons(page),
        Some(list) => {
            let shown = render_picker_page(tier, page, list);
            if turn {
                SoStep::Turn(shown)
            } else {
                SoStep::Show(shown)
            }
        },
    }
}

/// What to do next about a click on the start-run UI.
pub fn so_step(f: &SoFacts, tier_id: i32, click: SoClick) -> (r: SoStep)
    ensures
        r@ == so_step_of(*f, tier_id, click),
{
    let tier = match &f.tier {
        None => {
            return SoStep::LoadTier;
        },
        Some(None) => {
            return SoStep::Refuse(own(TIER_GONE));
        },
        Some(Some(tier)) => tier,
    };
    if !tier.enable_start_run_ui {
        return SoStep::Refuse(own(UI_OFF));
    }
    match click {
        SoClick::Open => next_page_step(f, tier, 0, false),
        SoClick::Page(wanted) => next_page_step(f, tier, wanted, true),
        SoClick::Pick => match first_picked(&f.picked) {
            None => SoStep::Nothing,
            Some(n) => match f.template_exists {
                None => SoStep::AskTemplate(n),
                Some(e) => if e {
                    SoStep::Open(build_so_form(tier_id, n))
                } else {
                    SoStep::Refuse(own(DUNGEON_GONE))
                },
            },
        },
    }
}

// ----- the form --------------------------------------------------------------------------

/// What is known so far of a headcount that a member starts. What is not known is
/// `None`.
pub struct SoStartFacts {
    /// The tier, or that there is none.
    pub tier: Option<Option<Tier>>,
    /// Whether the dungeon is there.
    pub template_exists: Option<bool>,
    /// Whether the channel of the tier's runs is there.
    pub channel_exists: Option<bool>,
    /// What the start gate says against it, or that it says nothing.
    pub block: Option<Option<String>>,
    /// What was typed.
    pub inputs: Vec<TypedInput>,
}

/// What to do about a headcount that a member starts.
#[derive(Debug)]
pub enum SoStartStep {
    /// Look up the tier.
    LoadTier,
    /// Find out whether the dungeon is there.
    AskTemplate,
    /// Find out whether this channel is there.
    AskChannel(i64),
    /// Ask the start gate.
    AskGate,
    /// Say this, and do nothing.
    Refuse(String),
    /// Start it in this channel, with this location and party.
    Start(i64, Option<String>, Option<String>),
}

/// What to do about a headcount that a member starts, over views.
pub ghost enum SoStartStepView {
    LoadTier,
    AskTemplate,
    AskChannel(i64),
    AskGate,
    Refuse(Seq<char>),
    Start(i64, Option<Seq<char>>, Option<Seq<char>>),
}

impl View for SoStartStep {
    type V = SoStartStepView;

    open spec fn view(&self) -> SoStartStepView {
        match self {
            SoStartStep::LoadTier => SoStartStepView::LoadTier,
            SoStartStep::AskTemplate => SoStartStepView::AskTemplate,
            SoStartStep::AskChannel(c) => SoStartStepView::AskChannel(*c),
            SoStartStep::AskGate => SoStartStepView::AskGate,
            SoStartStep::Refuse(t) => SoStartStepView::Refuse(t@),
            SoStartStep::Start(c, l, p) => SoStartStepView::Start(
                *c,
                opt_view(*l),
                opt_view(*p),
            ),
        }
    }
}

/// What can be done where the channel is gone.
pub const REPOINT: &'static str = " is gone. \
    Ask an admin to repoint the tier in `/setup` or `/tier edit`.";

/// What to do about a headcount that a member starts: the next thing to find out,
/// or the first reason against it, or the start.
pub open spec fn so_start_step_of(f: SoStartFacts) -> SoStartStepView {
    match f.tier {
        None => SoStartStepView::LoadTier,
        Some(None) => SoStartStepView::Refuse("This tier no longer exists."@),
        Some(Some(tier)) => if !tier.enable_start_run_ui {
            SoStartStepView::Refuse("Self-organized raids are no longer enabled for this tier."@)
        } else {
            match f.template_exists {
                None => SoStartStepView::AskTemplate,
                Some(false) => SoStartStepView::Refuse("That dungeon is no longer available."@),
                Some(true) => match tier.runs_channel_id {
                    None => SoStartStepView::Refuse(
                        "Tier **"@ + tier.name@
                            + "** has no runs channel. Ask an admin to set one in `/setup`."@,
                    ),
                    Some(c) => match f.channel_exists {
                        None => SoStartStepView::AskChannel(c),
                        Some(false) => SoStartStepView::Refuse(
                            "Tier **"@ + tier.name@ + "**'s runs channel "@ + channel(c as int)
                                + REPOINT@,
                        ),
                        Some(true) => match f.block {
                            None => SoStartStepView::AskGate,
                            Some(Some(reason)) => SoStartStepView::Refuse(reason@),
                            Some(None) => SoStartStepView::Start(
                                c,
                                typed_value(f.inputs@, "location"@),
                                typed_value(f.inputs@, "party"@),
                            ),
                        },
                    },
                },
            }
        },
    }
}

/// What to do next about a headcount that a member starts.
pub fn so_start_step(f: &SoStartFacts) -> (r: SoStartStep)
    ensures
        r@ == so_start_step_of(*f),
{
    let tier = match &f.tier {
        None => {
            return SoStartStep::LoadTier;
        },
        Some(None) => {
            return SoStartStep::Refuse(own("This tier no longer exists."));
        },
        Some(Some(tier)) => tier,
    };
    if !tier.enable_start_run_ui {
        return SoStartStep::Refuse(
            own("Self-organized raids are no longer enabled for this tier."),
        );
    }
    match f.template_exists {
        None => {
            return SoStartStep::AskTemplate;
        },
        Some(e) => {
            if !e {
                return SoStartStep::Refuse(own("That dungeon is no longer available."));
            }
        },
    }
    let c: i64 = match tier.runs_channel_id {
        None => {
            return SoStartStep::Refuse(
                cat3(
                    "Tier **",
                    &tier.name,
                    "** has no runs channel. Ask an admin to set one in `/setup`.",
                ),
            );
        },
        Some(c) => c,
    };
    match f.channel_exists {
        None => {
            return SoStartStep::AskChannel(c);
        },
        Some(e) => {
            if !e {
                return SoStartStep::Refuse(
                    cat5("Tier **", &tier.name, "**'s runs channel ", &channel_i64(c), REPOINT),
                );
            }
        },
    }
    match &f.block {
        None => SoStartStep::AskGate,
        Some(Some(reason)) => SoStartStep::Refuse(own(reason)),
        Some(None) => SoStartStep::Start(
            c,
            input_value(&f.inputs, "location"),
            input_value(&f.inputs, "party"),
        ),
    }
}

/// A member's headcount starts only where the tier has its UI switched on, the
/// dungeon and the channel are there, and the start gate says nothing against it.
pub proof fn members_start_only_when_all_holds(
    f: SoStartFacts,
    c: i64,
    location: Option<Seq<char>>,
    party: Option<Seq<char>>,
)
    requires
        so_start_step_of(f) == SoStartStepView::Start(c, location, party),
    ensures
        f.tier is Some && f.tier->0 is Some && f.tier->0->0.enable_start_run_ui,
        f.tier->0->0.runs_channel_id == Some(c),
        f.template_exists == Some(true),
        f.channel_exists == Some(true),
        f.block is Some && f.block->0 is None,
{
}

/// What comes behind the channel of a headcount that was started.
pub const STARTED_HINT: &'static str = "! React on the message \
    to sign up; click **Start Run** when you're ready.";

/// What is said of a headcount that a member started.
pub fn so_started(channel_id: i64) -> (r: String)
    ensures
        r@ == "Headcount started in "@ + channel(channel_id as int) + STARTED_HINT@,
{
    cat3("Headcount started in ", &channel_i64(channel_id), STARTED_HINT)
}

// ----- what the picker is for ------------------------------------------------------------------

/// A dungeon is offered under its name as shown and comes back by its number; its emoji
/// shows where it is a Unicode one.
pub proof fn dungeons_are_offered_by_number(list: Seq<DungeonTemplate>, i: int)
    requires
        0 <= i < list.len(),
    ensures
        dungeon_choices(list).len() == list.len(),
        dungeon_choices(list)[i].label == list[i].display_name@,
        dungeon_choices(list)[i].value == dec(list[i].id as int),
        dungeon_choices(list)[i].emoji == (match list[i].emoji {
            Some(e) => if unicode_literal(e@) {
                Some(EmojiView::Unicode(e@))
            } else {
                None
            },
            None => None,
        }),
{
}

/// A page of the picker offers its dungeons in a menu that leads on to the tier; where
/// there are more pages, buttons lead to the page before and the page behind, and no
/// further than there are pages.
pub proof fn pickers_lead_on(tier: Tier, page: Page, list: Seq<DungeonTemplate>)
    requires
        page.number < page.total,
    ensures
        ({
            let rows = picker_view(tier, page, list).components;
            &&& rows.len() == if page.total > 1 {
                2int
            } else {
                1
            }
            &&& rows[0] matches RowView::Menu(m) && m.custom_id == "so:dpick:"@ + dec(
                tier.id as int,
            ) && m.kind == MenuKindView::Choices(dungeon_choices(list)) && m.min == 1 && m.max == 1
            &&& page.total > 1 ==> rows[1] is Buttons
            &&& page.total > 1 ==> {
                let b = rows[1]->Buttons_0;
                &&& b.len() == 2
                &&& b[0].disabled == (page.number == 0)
                &&& b[1].disabled == (page.number + 1 == page.total)
                &&& page.number > 0 ==> b[0].custom_id == "so:page:"@ + dec(tier.id as int) + ":"@
                    + dec(page.number - 1)
                &&& b[1].custom_id == "so:page:"@ + dec(tier.id as int) + ":"@ + dec(
                    page.number + 1,
                )
            }
        }),
{
}

/// A page that is asked for beyond the last is the last, and each page but the last is
/// full.
pub proof fn pages_are_full_but_the_last(len: int, wanted: int)
    requires
        0 < len,
        0 <= wanted,
    ensures
        ({
            let (number, total, start, end) = page_of(len, wanted);
            &&& 0 <= number < total
            &&& wanted < total ==> number == wanted
            &&& wanted >= total ==> number == total - 1
            &&& start == number * 25
            &&& number < total - 1 ==> end == start + 25
            &&& number == total - 1 ==> end == len && 0 < end - start <= 25
        }),
{
}

/// Nothing is offered in a tier that is gone or whose start-run UI is off; else the
/// button opens the first page, a page button turns to its page, and a dungeon that is
/// there opens the form for that tier and that dungeon.
pub proof fn the_picker_follows_its_buttons(f: SoFacts, tier_id: i32, click: SoClick)
    ensures
        f.tier == Some(None::<Tier>) ==> so_step_of(f, tier_id, click) is Refuse,
        f.tier is Some && f.tier->0 is Some && !f.tier->0->0.enable_start_run_ui ==> so_step_of(
            f,
            tier_id,
            click,
        ) is Refuse,
        f.tier is Some && f.tier->0 is Some && f.tier->0->0.enable_start_run_ui
            && f.dungeons is Some && f.dungeons->0 > 0 ==> {
            &&& f.listed is None ==> so_step_of(f, tier_id, SoClick::Open)
                == SoStepView::LoadDungeons(page_of(f.dungeons->0 as int, 0))
            &&& f.listed is Some ==> so_step_of(f, tier_id, SoClick::Open) is Show
            &&& f.listed is Some && click is Page ==> so_step_of(f, tier_id, click) is Turn
            &&& f.listed is None && click is Page ==> so_step_of(f, tier_id, click)
                == SoStepView::LoadDungeons(page_of(f.dungeons->0 as int, click->Page_0 as int))
        },
        f.tier is Some && f.tier->0 is Some && f.tier->0->0.enable_start_run_ui && picked_dungeon(
            views(f.picked@),
        ) is Some ==> {
            let n = picked_dungeon(views(f.picked@))->0;
            &&& f.template_exists is None ==> so_step_of(f, tier_id, SoClick::Pick)
                == SoStepView::AskTemplate(n)
            &&& f.template_exists == Some(false) ==> so_step_of(f, tier_id, SoClick::Pick) is Refuse
            &&& f.template_exists == Some(true) ==> so_step_of(f, tier_id, SoClick::Pick) is Open
                && so_step_of(f, tier_id, SoClick::Pick)->Open_0.custom_id == "so:start:"@ + dec(
                tier_id as int,
            ) + ":"@ + dec(n)
        },
{
}

/// The form that starts a headcount comes back with its tier and its dungeon, and asks
/// for the location and the party, neither of which must be given.
pub proof fn the_start_form_asks_for_place_and_party(tier_id: i32, template_id: int)
    ensures
        ({
            let form = so_start_form(tier_id, template_id);
            &&& form.custom_id == "so:start:"@ + dec(tier_id as int) + ":"@ + dec(template_id)
            &&& form.inputs.len() == 2
            &&& form.inputs[0].custom_id == "location"@ && !form.inputs[0].required
            &&& form.inputs[1].custom_id == "party"@ && !form.inputs[1].required
        }),
{
}

/// A member's headcount starts exactly where the tier is there with its start-run UI on
/// and a channel that is there, the dungeon is there, and the gates say nothing against
/// it; it starts in that channel, with the location and the party as they were typed,
/// without the white space around them.
pub proof fn members_start_when_all_holds(f: SoStartFacts)
    ensures
        so_start_step_of(f) is Start <==> f.tier is Some && f.tier->0 is Some
            && f.tier->0->0.enable_start_run_ui && f.template_exists == Some(true)
            && f.tier->0->0.runs_channel_id is Some && f.channel_exists == Some(true)
            && f.block is Some && f.block->0 is None,
        so_start_step_of(f) matches SoStartStepView::Start(c, location, party) ==> {
            let place = trimmed(typed_text(f.inputs@, "location"@));
            let who = trimmed(typed_text(f.inputs@, "party"@));
            &&& f.tier->0->0.runs_channel_id == Some(c)
            &&& place.len() > 0 ==> location == Some(place)
            &&& place.len() == 0 ==> location is None
            &&& who.len() > 0 ==> party == Some(who)
            &&& who.len() == 0 ==> party is None
        },
        f.tier is Some && f.tier->0 is Some && f.tier->0->0.enable_start_run_ui
            && f.template_exists == Some(true) && f.tier->0->0.runs_channel_id is Some
            && f.channel_exists == Some(true) && f.block is Some && f.block->0 is Some
            ==> so_start_step_of(f) == SoStartStepView::Refuse(f.block->0->0@),
{
}

/// The dungeon that was picked is the number that the first value writes; where nothing
/// was picked, or no number, none was.
pub proof fn the_first_value_is_the_pick(values: Seq<Seq<char>>, n: int)
    ensures
        values.len() == 0 ==> picked_dungeon(values) is None,
        values.len() > 0 && int_value(values[0]) is None ==> picked_dungeon(values) is None,
        values.len() > 0 && int_value(values[0]) == Some(n) && i32::MIN <= n <= i32::MAX
            ==> picked_dungeon(values) == Some(n),
{
}

/// The view of a `PickerPage` shows each of its fields as it is.
pub proof fn picker_page_shows_its_fields(x: PickerPage)
    ensures
        x@.content == x.content@,
        x@.components == x.components@,
{
}

/// A step that starts a headcount carries its channel, its place and its party, each as
/// itself; a page carries its number, how many there are, and where it starts and ends.
pub proof fn start_steps_carry_place_and_party(
    channel: i64,
    place: Option<String>,
    party: Option<String>,
    page: Page,
)
    ensures
        ({
            let step = SoStartStep::Start(channel, place, party)@;
            &&& step is Start && step->Start_0 == channel
            &&& place is Some ==> step->Start_1 == Some((place->0)@)
            &&& place is None ==> step->Start_1 is None
            &&& party is Some ==> step->Start_2 == Some((party->0)@)
            &&& party is None ==> step->Start_2 is None
        }),
        page.parts() == (
            page.number as int,
            page.total as int,
            page.start as int,
            page.end as int,
        ),
{
}

/// No dungeon is picked before somebody picks it.
pub proof fn no_dungeon_is_picked_beforehand(list: Seq<DungeonTemplate>, i: int)
    requires
        0 <= i < list.len(),
    ensures
        !dungeon_choices(list)[i].selected,
{
}

} // verus!
