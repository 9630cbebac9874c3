//! `/pingroles`: which dungeons a member is pinged for.

use vstd::prelude::*;

use crate::db::models::DungeonTemplate;
use crate::mention::{role, role_u64};
use crate::text::{
    cat2, cat3, cat4, cat5, dec, dec_i32, dec_usize, int_value, join, joined, own, own_all,
    parse_i32, same, views, within, Text,
};
use crate::ui::{
    choice_views, choice_views_push, Button, ButtonStyle, ButtonView, Buttons, Choice, ChoiceView,
    Embed, EmbedView, Menu, MenuKind, MenuKindView, MenuView, RowView, Rows, Screen, ScreenView,
};

verus! {

/// How many dungeons are on a page.
pub const PAGE_SIZE: usize = 10;

/// How often a role is tried to be added or removed.
pub const ROLE_MUTATION_ATTEMPTS: usize = 3;

/// A dungeon that members can be pinged for.
#[derive(Debug)]
pub struct PingDungeon {
    /// Id of the dungeon.
    pub id: i32,
    /// Name as shown.
    pub display_name: String,
    /// The role that is pinged.
    pub role_id: i64,
}

/// What dungeons that members can be pinged for are: id, name as shown and role.
pub open spec fn ping_views(v: Seq<PingDungeon>) -> Seq<(i32, Seq<char>, i64)> {
    Seq::new(v.len(), |i: int| (v[i].id, v[i].display_name@, v[i].role_id))
}

/// The role that is bound to the dungeon with a name, from `from` on.
pub open spec fn bound_role(bound: Seq<(String, i64)>, name: Seq<char>, from: int) -> Option<i64>
    decreases bound.len() - from,
{
    if from < 0 || from >= bound.len() {
        None
    } else if bound[from].0@ == name {
        Some(bound[from].1)
    } else {
        bound_role(bound, name, from + 1)
    }
}

/// Those of the first `n` dungeons that have a role, each with its role.
pub open spec fn bound_dungeons(
    dungeons: Seq<DungeonTemplate>,
    bound: Seq<(String, i64)>,
    n: int,
) -> Seq<(i32, Seq<char>, i64)>
    decreases n,
{
    if n <= 0 {
        Seq::empty()
    } else {
        let before = bound_dungeons(dungeons, bound, n - 1);
        let d = dungeons[n - 1];
        match bound_role(bound, d.name@, 0) {
            Some(role_id) => before.push((d.id, d.display_name@, role_id)),
            None => before,
        }
    }
}

fn find_role(bound: &Vec<(String, i64)>, name: &str) -> (r: Option<i64>)
    ensures
        r == bound_role(bound@, name@, 0),
{
    let mut i: usize = 0;
    while i < bound.len()
        invariant
            i <= bound@.len(),
            bound_role(bound@, name@, 0) == bound_role(bound@, name@, i as int),
        decreases bound@.len() - i,
    {
        if same(&bound[i].0, name) {
            return Some(bound[i].1);
        }
        i = i + 1;
    }
    None
}

/// The dungeons that members can be pinged for: those of the server that have a role,
/// by their logical name.
pub fn ping_dungeons(dungeons: &Vec<DungeonTemplate>, bound: &Vec<(String, i64)>) -> (r: Vec<
    PingDungeon,
>)
    ensures
        ping_views(r@) == bound_dungeons(dungeons@, bound@, dungeons@.len() as int),
{
    let mut out: Vec<PingDungeon> = Vec::new();
    let mut i: usize = 0;
    assert(ping_views(out@) =~= Seq::<(i32, Seq<char>, i64)>::empty());
    while i < dungeons.len()
        invariant
            i <= dungeons@.len(),
            ping_views(out@) == bound_dungeons(dungeons@, bound@, i as int),
        decreases dungeons@.len() - i,
    {
        let d = &dungeons[i];
        if let Some(role_id) = find_role(bound, &d.name) {
            let ghost before = ping_views(out@);
            out.push(PingDungeon { id: d.id, display_name: own(&d.display_name), role_id });
            assert(ping_views(out@) =~= before.push((d.id, d.display_name@, role_id)));
        }
        i = i + 1;
    }
    out
}

/// What is said where nothing can be subscribed to.
pub const NO_PING_ROLES: &'static str =
    "No dungeons have notification roles set up in this server yet. \
    An admin can bind one with `/pingroles set <dungeon>` or create \
    a fresh role with `/pingroles create <dungeon>`.";

/// What is said where the picker is closed.
pub const PICKER_CLOSED: &'static str = "Closed — no changes applied.";

// ----- sets of ids ---------------------------------------------------------------------

/// A list without an id.
pub open spec fn without_id(s: Seq<i32>, id: i32) -> Seq<i32> {
    s.filter(|x: i32| x != id)
}

/// A list with an id, once.
pub open spec fn with_id(s: Seq<i32>, id: i32) -> Seq<i32> {
    if s.contains(id) {
        s
    } else {
        s.push(id)
    }
}

fn holds_id(list: &Vec<i32>, id: i32) -> (r: bool)
    ensures
        r == list@.contains(id),
{
    let mut i: usize = 0;
    while i < list.len()
        invariant
            i <= list@.len(),
            forall|k: int| 0 <= k < i ==> list@[k] != id,
        decreases list@.len() - i,
    {
        if list[i] == id {
            return true;
        }
        i = i + 1;
    }
    false
}

fn remove_id(list: &Vec<i32>, id: i32) -> (r: Vec<i32>)
    ensures
        r@ == without_id(list@, id),
{
    let mut out: Vec<i32> = Vec::new();
    let mut i: usize = 0;
    proof {
        reveal(Seq::filter);
        assert(list@.take(0) =~= Seq::<i32>::empty());
    }
    while i < list.len()
        invariant
            i <= list@.len(),
            out@ == without_id(list@.take(i as int), id),
        decreases list@.len() - i,
    {
        proof {
            reveal(Seq::filter);
            assert(list@.take(i + 1).drop_last() =~= list@.take(i as int));
        }
        if list[i] != id {
            out.push(list[i]);
        }
        i = i + 1;
    }
    assert(list@.take(i as int) =~= list@);
    out
}

fn holds_role(list: &Vec<u64>, id: u64) -> (r: bool)
    ensures
        r == list@.contains(id),
{
    let mut i: usize = 0;
    while i < list.len()
        invariant
            i <= list@.len(),
            forall|k: int| 0 <= k < i ==> list@[k] != id,
        decreases list@.len() - i,
    {
        if list[i] == id {
            return true;
        }
        i = i + 1;
    }
    false
}

// ----- what is subscribed to ---------------------------------------------------------------

/// The dungeons, of the first `n`, whose role a member has.
pub open spec fn subscribed(dungeons: Seq<PingDungeon>, roles: Seq<u64>, n: int) -> Seq<i32>
    decreases n,
{
    if n <= 0 {
        Seq::empty()
    } else {
        let before = subscribed(dungeons, roles, n - 1);
        if roles.contains(dungeons[n - 1].role_id as u64) {
            with_id(before, dungeons[n - 1].id)
        } else {
            before
        }
    }
}

/// The dungeons whose role a member has: what is ticked at first.
pub fn initial_selection(dungeons: &Vec<PingDungeon>, roles: &Vec<u64>) -> (r: Vec<i32>)
    ensures
        r@ == subscribed(dungeons@, roles@, dungeons@.len() as int),
{
    let mut out: Vec<i32> = Vec::new();
    let mut i: usize = 0;
    while i < dungeons.len()
        invariant
            i <= dungeons@.len(),
            out@ == subscribed(dungeons@, roles@, i as int),
        decreases dungeons@.len() - i,
    {
        let role: u64 = #[verifier::truncate] (dungeons[i].role_id as u64);
        if holds_role(roles, role) && !holds_id(&out, dungeons[i].id) {
            out.push(dungeons[i].id);
        }
        i = i + 1;
    }
    out
}

/// The first dungeon on a page.
pub open spec fn page_start(page: int) -> int {
    page * PAGE_SIZE
}

/// The dungeon behind the last one on a page.
pub open spec fn page_end(page: int, len: int) -> int {
    if page_start(page) + PAGE_SIZE <= len {
        page_start(page) + PAGE_SIZE
    } else {
        len
    }
}

/// What is ticked, without the dungeons `start..n`.
pub open spec fn unticked(desired: Seq<i32>, dungeons: Seq<PingDungeon>, start: int, n: int) -> Seq<i32>
    decreases n - start,
{
    if n <= start {
        desired
    } else {
        without_id(unticked(desired, dungeons, start, n - 1), dungeons[n - 1].id)
    }
}

/// A dungeon with this id is on the page.
pub open spec fn on_page(dungeons: Seq<PingDungeon>, start: int, end: int, id: int) -> bool {
    exists|k: int| start <= k < end && (#[trigger] dungeons[k]).id == id
}

/// What is ticked, with the first `n` values that name a dungeon on the page.
pub open spec fn ticked(
    desired: Seq<i32>,
    dungeons: Seq<PingDungeon>,
    start: int,
    end: int,
    values: Seq<Seq<char>>,
    n: int,
) -> Seq<i32>
    decreases n,
{
    if n <= 0 {
        desired
    } else {
        let before = ticked(desired, dungeons, start, end, values, n - 1);
        match within(int_value(values[n - 1]), i32::MIN as int, i32::MAX as int) {
            Some(id) => if on_page(dungeons, start, end, id) {
                with_id(before, id as i32)
            } else {
                before
            },
            None => before,
        }
    }
}

/// What is ticked after a selection on a page: of the dungeons on the page exactly
/// the selected ones, and off the page what was ticked before.
pub open spec fn after_selection(
    desired: Seq<i32>,
    dungeons: Seq<PingDungeon>,
    page: int,
    values: Seq<Seq<char>>,
) -> Seq<i32> {
    let start = page_start(page);
    let end = page_end(page, dungeons.len() as int);
    ticked(
        unticked(desired, dungeons, start, end),
        dungeons,
        start,
        end,
        values,
        values.len() as int,
    )
}

fn is_on_page(dungeons: &Vec<PingDungeon>, start: usize, end: usize, id: i32) -> (r: bool)
    requires
        start <= end <= dungeons@.len(),
    ensures
        r == on_page(dungeons@, start as int, end as int, id as int),
{
    let mut i: usize = start;
    while i < end
        invariant
            start <= i <= end <= dungeons@.len(),
            forall|k: int| start <= k < i ==> (#[trigger] dungeons@[k]).id != id,
        decreases end - i,
    {
        if dungeons[i].id == id {
            return true;
        }
        i = i + 1;
    }
    false
}

/// Take in a selection on a page.
pub fn apply_page_selection(
    dungeons: &Vec<PingDungeon>,
    desired: Vec<i32>,
    page: usize,
    values: &Vec<String>,
) -> (r: Vec<i32>)
    requires
        page_start(page as int) <= dungeons@.len(),
    ensures
        r@ == after_selection(desired@, dungeons@, page as int, views(values@)),
{
    let n: usize = dungeons.len();
    let start: usize = page * PAGE_SIZE;
    let end: usize = if n - start >= PAGE_SIZE {
        start + PAGE_SIZE
    } else {
        n
    };
    let ghost before = desired@;
    let mut out = desired;
    let mut i: usize = start;
    while i < end
        invariant
            start <= i <= end <= dungeons@.len(),
            out@ == unticked(before, dungeons@, start as int, i as int),
        decreases end - i,
    {
        out = remove_id(&out, dungeons[i].id);
        i = i + 1;
    }
    let ghost cleared = out@;
    let mut j: usize = 0;
    while j < values.len()
        invariant
            j <= values@.len(),
            start <= end <= dungeons@.len(),
            out@ == ticked(
                cleared,
                dungeons@,
                start as int,
                end as int,
                views(values@),
                j as int,
            ),
        decreases values@.len() - j,
    {
        assert(views(values@)[j as int] == values@[j as int]@);
        if let Some(id) = parse_i32(&values[j]) {
            if is_on_page(dungeons, start, end, id) && !holds_id(&out, id) {
                out.push(id);
            }
        }
        j = j + 1;
    }
    out
}

// ----- the picker ----------------------------------------------------------------------

/// How many pages some dungeons take.
pub fn page_count(n: usize) -> (r: usize)
    ensures
        r == (n + PAGE_SIZE - 1) / PAGE_SIZE as int,
{
    if n % PAGE_SIZE == 0 {
        n / PAGE_SIZE
    } else {
        n / PAGE_SIZE + 1
    }
}

/// The entries of the menu on a page.
pub open spec fn page_choices(
    dungeons: Seq<PingDungeon>,
    desired: Seq<i32>,
    start: int,
    end: int,
) -> Seq<ChoiceView> {
    Seq::new(
        (end - start) as nat,
        |i: int|
            ChoiceView::new(
                dungeons[start + i].display_name@,
                dec(dungeons[start + i].id as int),
                desired.contains(dungeons[start + i].id),
            ),
    )
}

/// What the picker says of the subscriptions.
pub open spec fn subscription_text(n: int) -> Seq<char> {
    if n == 0 {
        "Currently subscribed to no dungeons."@
    } else {
        "Currently subscribed to **"@ + dec(n) + "** dungeon(s)."@
    }
}

/// What the picker says.
pub const PICKER_TEXT: &'static str =
    "Tick the dungeons you want to be pinged for. Untick to unsubscribe. \
    Click **Apply** to save.\n\
    \n\
    Page **";

/// The picker.
pub open spec fn picker_screen(
    dungeons: Seq<PingDungeon>,
    desired: Seq<i32>,
    page: int,
    num_pages: int,
) -> ScreenView {
    let start = page_start(page);
    let end = page_end(page, dungeons.len() as int);
    ScreenView {
        embed: EmbedView::new(
            "🔔 Dungeon notifications"@,
            PICKER_TEXT@ + dec(page + 1) + "/"@ + dec(
                if num_pages >= 1 {
                    num_pages
                } else {
                    1
                },
            ) + "** · "@ + subscription_text(desired.len() as int),
            0x5865F2,
        ),
        rows: Seq::empty().push(
            RowView::Menu(
                MenuView::new(
                    "pingroles:select"@,
                    MenuKindView::Choices(page_choices(dungeons, desired, start, end)),
                    "Select dungeons to subscribe to"@,
                    0,
                    (if end - start >= 1 {
                        end - start
                    } else {
                        1
                    }) as u8,
                ),
            ),
        ).push(
            RowView::Buttons(
                Seq::empty().push(
                    ButtonView::new("pingroles:prev"@, "◀ Prev"@, ButtonStyle::Secondary).disabled(
                        page == 0,
                    ),
                ).push(
                    ButtonView::new("pingroles:next"@, "Next ▶"@, ButtonStyle::Secondary).disabled(
                        page + 1 >= num_pages,
                    ),
                ).push(ButtonView::new("pingroles:apply"@, "Apply"@, ButtonStyle::Success)).push(
                    ButtonView::new("pingroles:close"@, "Cancel"@, ButtonStyle::Secondary),
                ),
            ),
        ),
    }
}

/// Build the picker.
pub fn render(dungeons: &Vec<PingDungeon>, desired: &Vec<i32>, page: usize, num_pages: usize) -> (r: Screen)
    requires
        page_start(page as int) <= dungeons@.len(),
        page < usize::MAX,
    ensures
        r@ == picker_screen(dungeons@, desired@, page as int, num_pages as int),
{
    let n: usize = dungeons.len();
    let start: usize = page * PAGE_SIZE;
    let end: usize = if n - start >= PAGE_SIZE {
        start + PAGE_SIZE
    } else {
        n
    };
    let mut options: Vec<Choice> = Vec::new();
    let ghost all = page_choices(dungeons@, desired@, start as int, end as int);
    let mut i: usize = start;
    assert(choice_views(options@) =~= all.take(0));
    while i < end
        invariant
            start <= i <= end <= dungeons@.len(),
            all == page_choices(dungeons@, desired@, start as int, end as int),
            choice_views(options@) == all.take(i - start),
        decreases end - i,
    {
        broadcast use choice_views_push;

        let d = &dungeons[i];
        options.push(Choice::new(&d.display_name, &dec_i32(d.id), holds_id(desired, d.id)));
        i = i + 1;
        assert(all.take(i - start) =~= all.take(i - start - 1).push(all[i - start - 1]));
    }
    assert(all.take(i - start) =~= all);
    let count: usize = end - start;
    let max: u8 = if count >= 1 {
        count as u8
    } else {
        1
    };
    let menu = Menu::new(
        "pingroles:select",
        MenuKind::Choices(options),
        "Select dungeons to subscribe to",
        0,
        max,
    );
    let buttons = Buttons::new().push(
        Button::new("pingroles:prev", "◀ Prev", ButtonStyle::Secondary).disabled(page == 0),
    ).push(
        Button::new("pingroles:next", "Next ▶", ButtonStyle::Secondary).disabled(
            page + 1 >= num_pages,
        ),
    ).push(Button::new("pingroles:apply", "Apply", ButtonStyle::Success)).push(
        Button::new("pingroles:close", "Cancel", ButtonStyle::Secondary),
    );
    let summary = if desired.len() == 0 {
        own("Currently subscribed to no dungeons.")
    } else {
        cat3("Currently subscribed to **", &dec_usize(desired.len()), "** dungeon(s).")
    };
    let shown: usize = if num_pages >= 1 {
        num_pages
    } else {
        1
    };
    let text = Text::new(PICKER_TEXT).add(&dec_usize(page + 1)).add("/").add(&dec_usize(shown)).add(
        "** · ",
    ).add(&summary).done();
    Screen {
        embed: Embed::new("🔔 Dungeon notifications", &text, 0x5865F2),
        rows: Rows::new().menu(menu).buttons(buttons),
    }
}

/// What a click on the picker asks for.
#[derive(Debug, Clone, Copy, PartialEq, Eq, Structural)]
pub enum PickerStep {
    /// Show the picker again.
    Redraw,
    /// Store the subscriptions and end.
    Apply,
    /// End.
    Close,
    /// Nothing.
    Ignore,
}

/// The picker: the dungeons, what is ticked, and the page that is shown.
#[derive(Debug)]
pub struct Picker {
    /// The dungeons.
    pub dungeons: Vec<PingDungeon>,
    /// What is ticked.
    pub desired: Vec<i32>,
    /// The page.
    pub page: usize,
}

/// How many pages the picker has.
pub open spec fn pages_of(len: int) -> int {
    (len + PAGE_SIZE - 1) / PAGE_SIZE as int
}

/// What a click on the picker asks for, what is ticked after it, and the page.
pub open spec fn picker_step_of(
    dungeons: Seq<PingDungeon>,
    desired: Seq<i32>,
    page: int,
    id: Seq<char>,
    values: Option<Seq<Seq<char>>>,
) -> (Seq<i32>, int, PickerStep) {
    if id == "pingroles:select"@ {
        (
            match values {
                Some(v) => after_selection(desired, dungeons, page, v),
                None => desired,
            },
            page,
            PickerStep::Redraw,
        )
    } else if id == "pingroles:prev"@ {
        (
            desired,
            if page > 0 {
                page - 1
            } else {
                page
            },
            PickerStep::Redraw,
        )
    } else if id == "pingroles:next"@ {
        (
            desired,
            if page + 1 < pages_of(dungeons.len() as int) {
                page + 1
            } else {
                page
            },
            PickerStep::Redraw,
        )
    } else if id == "pingroles:apply"@ {
        (desired, page, PickerStep::Apply)
    } else if id == "pingroles:close"@ {
        (desired, page, PickerStep::Close)
    } else {
        (desired, page, PickerStep::Ignore)
    }
}

/// The texts of a selection, where there is one.
pub open spec fn opt_values(v: Option<Vec<String>>) -> Option<Seq<Seq<char>>> {
    match v {
        Some(x) => Some(views(x@)),
        None => None,
    }
}

impl Picker {
    /// The page is one that the picker has.
    pub open spec fn on_a_page(&self) -> bool {
        self.page == 0 || self.page < pages_of(self.dungeons@.len() as int)
    }

    /// Begin: what the member's roles say is ticked.
    pub fn new(dungeons: Vec<PingDungeon>, roles: &Vec<u64>) -> (r: Self)
        ensures
            r.dungeons == dungeons,
            r.desired@ == subscribed(dungeons@, roles@, dungeons@.len() as int),
            r.page == 0,
            r.on_a_page(),
    {
        let desired = initial_selection(&dungeons, roles);
        Picker { dungeons, desired, page: 0 }
    }

    /// The picker as it is shown.
    pub fn screen(&self) -> (r: Screen)
        requires
            self.on_a_page(),
        ensures
            r@ == picker_screen(
                self.dungeons@,
                self.desired@,
                self.page as int,
                pages_of(self.dungeons@.len() as int),
            ),
    {
        let pages: usize = page_count(self.dungeons.len());
        render(&self.dungeons, &self.desired, self.page, pages)
    }

    /// Take in a click, and say what it asks for.
    pub fn click(&mut self, id: &str, values: Option<Vec<String>>) -> (r: PickerStep)
        requires
            old(self).on_a_page(),
        ensures
            (final(self).desired@, final(self).page as int, r) == picker_step_of(
                old(self).dungeons@,
                old(self).desired@,
                old(self).page as int,
                id@,
                opt_values(values),
            ),
            final(self).dungeons == old(self).dungeons,
            final(self).on_a_page(),
    {
        if same(id, "pingroles:select") {
            if let Some(v) = values {
                let mut desired: Vec<i32> = Vec::new();
                std::mem::swap(&mut desired, &mut self.desired);
                self.desired = apply_page_selection(&self.dungeons, desired, self.page, &v);
            }
            PickerStep::Redraw
        } else if same(id, "pingroles:prev") {
            if self.page > 0 {
                self.page = self.page - 1;
            }
            PickerStep::Redraw
        } else if same(id, "pingroles:next") {
            let pages: usize = page_count(self.dungeons.len());
            if pages > 0 && self.page < pages - 1 {
                self.page = self.page + 1;
            }
            PickerStep::Redraw
        } else if same(id, "pingroles:apply") {
            PickerStep::Apply
        } else if same(id, "pingroles:close") {
            PickerStep::Close
        } else {
            PickerStep::Ignore
        }
    }
}

// ----- storing the subscriptions -----------------------------------------------------------

/// The roles of the dungeons, of the first `n`, that are ticked.
pub open spec fn desired_roles(dungeons: Seq<PingDungeon>, desired: Seq<i32>, n: int) -> Seq<u64>
    decreases n,
{
    if n <= 0 {
        Seq::empty()
    } else {
        let before = desired_roles(dungeons, desired, n - 1);
        let role = dungeons[n - 1].role_id as u64;
        if desired.contains(dungeons[n - 1].id) && !before.contains(role) {
            before.push(role)
        } else {
            before
        }
    }
}

/// A role is one of those that the picker manages.
pub open spec fn is_managed(dungeons: Seq<PingDungeon>, role: u64) -> bool {
    exists|k: int| 0 <= k < dungeons.len() && (#[trigger] dungeons[k]).role_id as u64 == role
}

/// A role is one that the member wants.
pub open spec fn is_desired(dungeons: Seq<PingDungeon>, desired: Seq<i32>, role: u64) -> bool {
    exists|k: int|
        0 <= k < dungeons.len() && (#[trigger] dungeons[k]).role_id as u64 == role
            && desired.contains(dungeons[k].id)
}

/// The entries of the first `n` of a list that another list does not hold.
pub open spec fn not_in(list: Seq<u64>, other: Seq<u64>, n: int) -> Seq<u64>
    decreases n,
{
    if n <= 0 {
        Seq::empty()
    } else {
        let before = not_in(list, other, n - 1);
        if other.contains(list[n - 1]) {
            before
        } else {
            before.push(list[n - 1])
        }
    }
}

/// The roles, of the first `n` that a member has, that are managed and not wanted,
/// each once.
pub open spec fn unwanted_roles(
    dungeons: Seq<PingDungeon>,
    wanted: Seq<u64>,
    current: Seq<u64>,
    n: int,
) -> Seq<u64>
    decreases n,
{
    if n <= 0 {
        Seq::empty()
    } else {
        let before = unwanted_roles(dungeons, wanted, current, n - 1);
        let role = current[n - 1];
        if is_managed(dungeons, role) && !wanted.contains(role) && !before.contains(role) {
            before.push(role)
        } else {
            before
        }
    }
}

/// What to change about a member's roles.
#[derive(Debug)]
pub struct SubscriptionDiff {
    /// Roles that the member gets.
    pub add: Vec<u64>,
    /// Roles that the member loses.
    pub remove: Vec<u64>,
}

fn managed(dungeons: &Vec<PingDungeon>, role: u64) -> (r: bool)
    ensures
        r == is_managed(dungeons@, role),
{
    let mut i: usize = 0;
    while i < dungeons.len()
        invariant
            i <= dungeons@.len(),
            forall|k: int| 0 <= k < i ==> (#[trigger] dungeons@[k]).role_id as u64 != role,
        decreases dungeons@.len() - i,
    {
        let here: u64 = #[verifier::truncate] (dungeons[i].role_id as u64);
        if here == role {
            return true;
        }
        i = i + 1;
    }
    false
}

/// What to change about a member's roles so that they have the roles of the
/// dungeons that are ticked. Roles that no dungeon has are left alone.
pub fn subscription_diff(dungeons: &Vec<PingDungeon>, desired: &Vec<i32>, current: &Vec<u64>) -> (r:
    SubscriptionDiff)
    ensures
        ({
            let wanted = desired_roles(dungeons@, desired@, dungeons@.len() as int);
            r.add@ == not_in(wanted, current@, wanted.len() as int) && r.remove@ == unwanted_roles(
                dungeons@,
                wanted,
                current@,
                current@.len() as int,
            )
        }),
{
    let mut wanted: Vec<u64> = Vec::new();
    let mut i: usize = 0;
    while i < dungeons.len()
        invariant
            i <= dungeons@.len(),
            wanted@ == desired_roles(dungeons@, desired@, i as int),
        decreases dungeons@.len() - i,
    {
        let role: u64 = #[verifier::truncate] (dungeons[i].role_id as u64);
        if holds_id(desired, dungeons[i].id) && !holds_role(&wanted, role) {
            wanted.push(role);
        }
        i = i + 1;
    }
    let mut to_add: Vec<u64> = Vec::new();
    let mut j: usize = 0;
    while j < wanted.len()
        invariant
            j <= wanted@.len(),
            to_add@ == not_in(wanted@, current@, j as int),
        decreases wanted@.len() - j,
    {
        if !holds_role(current, wanted[j]) {
            to_add.push(wanted[j]);
        }
        j = j + 1;
    }
    let mut to_remove: Vec<u64> = Vec::new();
    let mut k: usize = 0;
    while k < current.len()
        invariant
            k <= current@.len(),
            to_remove@ == unwanted_roles(dungeons@, wanted@, current@, k as int),
        decreases current@.len() - k,
    {
        let role: u64 = current[k];
        if managed(dungeons, role) && !holds_role(&wanted, role) && !holds_role(&to_remove, role) {
            to_remove.push(role);
        }
        k = k + 1;
    }
    SubscriptionDiff { add: to_add, remove: to_remove }
}

proof fn desired_roles_hold(dungeons: Seq<PingDungeon>, desired: Seq<i32>, n: int, role: u64)
    requires
        0 <= n <= dungeons.len(),
    ensures
        desired_roles(dungeons, desired, n).contains(role) <==> exists|k: int|
            0 <= k < n && (#[trigger] dungeons[k]).role_id as u64 == role && desired.contains(
                dungeons[k].id,
            ),
    decreases n,
{
    if n > 0 {
        desired_roles_hold(dungeons, desired, n - 1, role);
        let before = desired_roles(dungeons, desired, n - 1);
        let all = desired_roles(dungeons, desired, n);
        if before.contains(role) {
            let k = choose|k: int| 0 <= k < before.len() && before[k] == role;
            assert(all[k] == role);
        }
        if all.contains(role) && !before.contains(role) {
            let k = choose|k: int| 0 <= k < all.len() && all[k] == role;
            if k < before.len() {
                assert(before[k] == role);
            }
            assert(dungeons[n - 1].role_id as u64 == role);
        }
        if exists|k: int|
            0 <= k < n && (#[trigger] dungeons[k]).role_id as u64 == role && desired.contains(
                dungeons[k].id,
            ) {
            let k = choose|k: int|
                0 <= k < n && (#[trigger] dungeons[k]).role_id as u64 == role && desired.contains(
                    dungeons[k].id,
                );
            if k == n - 1 && !before.contains(role) {
                assert(all[before.len() as int] == role);
            }
        }
    }
}

proof fn not_in_holds(list: Seq<u64>, other: Seq<u64>, n: int, v: u64)
    requires
        0 <= n <= list.len(),
    ensures
        not_in(list, other, n).contains(v) <==> list.take(n).contains(v) && !other.contains(v),
    decreases n,
{
    let long = list.take(n);
    if n > 0 {
        let short = list.take(n - 1);
        not_in_holds(list, other, n - 1, v);
        let before = not_in(list, other, n - 1);
        let all = not_in(list, other, n);
        assert(long.contains(v) <==> short.contains(v) || v == list[n - 1]) by {
            if long.contains(v) {
                let k = choose|k: int| 0 <= k < long.len() && long[k] == v;
                if k < n - 1 {
                    assert(short[k] == v);
                }
            }
            if short.contains(v) {
                let k = choose|k: int| 0 <= k < short.len() && short[k] == v;
                assert(long[k] == v);
            }
            assert(long[n - 1] == list[n - 1]);
        }
        if before.contains(v) {
            let k = choose|k: int| 0 <= k < before.len() && before[k] == v;
            assert(all[k] == v);
        }
        if all.contains(v) && !before.contains(v) {
            let k = choose|k: int| 0 <= k < all.len() && all[k] == v;
            if k < before.len() {
                assert(before[k] == v);
            }
        }
        if v == list[n - 1] && !other.contains(v) {
            assert(all[before.len() as int] == v);
        }
    } else {
        assert(long =~= Seq::<u64>::empty());
    }
}

proof fn unwanted_roles_hold(
    dungeons: Seq<PingDungeon>,
    wanted: Seq<u64>,
    current: Seq<u64>,
    n: int,
    v: u64,
)
    requires
        0 <= n <= current.len(),
    ensures
        unwanted_roles(dungeons, wanted, current, n).contains(v) <==> current.take(n).contains(v)
            && is_managed(dungeons, v) && !wanted.contains(v),
    decreases n,
{
    let long = current.take(n);
    if n > 0 {
        let short = current.take(n - 1);
        unwanted_roles_hold(dungeons, wanted, current, n - 1, v);
        let before = unwanted_roles(dungeons, wanted, current, n - 1);
        let all = unwanted_roles(dungeons, wanted, current, n);
        assert(long.contains(v) <==> short.contains(v) || v == current[n - 1]) by {
            if long.contains(v) {
                let k = choose|k: int| 0 <= k < long.len() && long[k] == v;
                if k < n - 1 {
                    assert(short[k] == v);
                }
            }
            if short.contains(v) {
                let k = choose|k: int| 0 <= k < short.len() && short[k] == v;
                assert(long[k] == v);
            }
            assert(long[n - 1] == current[n - 1]);
        }
        if before.contains(v) {
            let k = choose|k: int| 0 <= k < before.len() && before[k] == v;
            assert(all[k] == v);
        }
        if all.contains(v) && !before.contains(v) {
            let k = choose|k: int| 0 <= k < all.len() && all[k] == v;
            if k < before.len() {
                assert(before[k] == v);
            }
        }
        if v == current[n - 1] && is_managed(dungeons, v) && !wanted.contains(v)
            && !before.contains(v) {
            assert(all[before.len() as int] == v);
        }
    } else {
        assert(long =~= Seq::<u64>::empty());
    }
}

/// After the changes a member has a role that the picker manages if and only if a
/// dungeon with that role is ticked, and every other role if and only if they had
/// it before.
pub proof fn diff_gives_the_desired_roles(
    dungeons: Seq<PingDungeon>,
    desired: Seq<i32>,
    current: Seq<u64>,
    role: u64,
)
    ensures
        ({
            let wanted = desired_roles(dungeons, desired, dungeons.len() as int);
            let added = not_in(wanted, current, wanted.len() as int);
            let removed = unwanted_roles(dungeons, wanted, current, current.len() as int);
            let has = (current.contains(role) || added.contains(role)) && !removed.contains(role);
            has <==> if is_managed(dungeons, role) {
                is_desired(dungeons, desired, role)
            } else {
                current.contains(role)
            }
        }),
{
    let wanted = desired_roles(dungeons, desired, dungeons.len() as int);
    desired_roles_hold(dungeons, desired, dungeons.len() as int, role);
    not_in_holds(wanted, current, wanted.len() as int, role);
    unwanted_roles_hold(dungeons, wanted, current, current.len() as int, role);
    assert(wanted.take(wanted.len() as int) =~= wanted);
    assert(current.take(current.len() as int) =~= current);
    if is_desired(dungeons, desired, role) {
        let k = choose|k: int|
            0 <= k < dungeons.len() && (#[trigger] dungeons[k]).role_id as u64 == role
                && desired.contains(dungeons[k].id);
        assert(is_managed(dungeons, role));
    }
}

/// How long to wait before a role is tried again, in milliseconds; `None` where it
/// is not tried again.
pub fn retry_delay(attempt: usize) -> (r: Option<u64>)
    ensures
        r == (if attempt == 0 {
            Some(200u64)
        } else if attempt == 1 {
            Some(400u64)
        } else {
            None
        }),
{
    if attempt == 0 {
        Some(200)
    } else if attempt == 1 {
        Some(400)
    } else {
        None
    }
}

/// A change of a role that failed.
pub fn failure_line(adding: bool, role_id: u64, error: &str) -> (r: String)
    ensures
        r@ == (if adding {
            "add "@
        } else {
            "remove "@
        }) + role(role_id as int) + ": "@ + error@,
{
    let word = if adding {
        "add "
    } else {
        "remove "
    };
    cat4(word, &role_u64(role_id), ": ", error)
}

/// What the member is told of the changes.
pub open spec fn diff_text(added: int, removed: int, failures: Seq<Seq<char>>) -> Seq<char> {
    if failures.len() == 0 {
        if added == 0 && removed == 0 {
            "Nothing to change — your subscriptions already match."@
        } else {
            "✅ Subscriptions updated — "@ + dec(added) + " added, "@ + dec(removed) + " removed."@
        }
    } else {
        "⚠ Partial update: "@ + dec(added) + " added, "@ + dec(removed) + " removed. "@ + dec(
            failures.len() as int,
        ) + " failure(s):\n"@ + joined(failures, "\n"@)
    }
}

/// What the member is told of the changes: how many were made, and which failed.
pub fn diff_reply(
    to_add: usize,
    to_remove: usize,
    add_failures: &Vec<String>,
    remove_failures: &Vec<String>,
) -> (r: String)
    requires
        add_failures@.len() <= to_add,
        remove_failures@.len() <= to_remove,
        add_failures@.len() + remove_failures@.len() <= usize::MAX,
    ensures
        r@ == diff_text(
            to_add - add_failures@.len(),
            to_remove - remove_failures@.len(),
            views(add_failures@) + views(remove_failures@),
        ),
{
    let added: usize = to_add - add_failures.len();
    let removed: usize = to_remove - remove_failures.len();
    let count: usize = add_failures.len() + remove_failures.len();
    if count == 0 {
        if added == 0 && removed == 0 {
            own("Nothing to change — your subscriptions already match.")
        } else {
            cat5(
                "✅ Subscriptions updated — ",
                &dec_usize(added),
                " added, ",
                &dec_usize(removed),
                " removed.",
            )
        }
    } else {
        let mut all: Vec<String> = own_all(add_failures);
        let mut more: Vec<String> = own_all(remove_failures);
        let ghost first = all@;
        let ghost second = more@;
        all.append(&mut more);
        assert(views(all@) =~= views(first) + views(second));
        Text::new("⚠ Partial update: ").add(&dec_usize(added)).add(" added, ").add(
            &dec_usize(removed),
        ).add(" removed. ").add(&dec_usize(count)).add(" failure(s):\n").add(
            &join(&all, "\n"),
        ).done()
    }
}

// ----- binding roles to dungeons --------------------------------------------------------------

/// What is said of a dungeon that is not known.
pub fn unknown_dungeon(name: &str) -> (r: String)
    ensures
        r@ == "Unknown dungeon `"@ + name@ + "`."@,
{
    cat3("Unknown dungeon `", name, "`.")
}

/// What is said of a role that was bound to a dungeon.
pub fn bound_reply(role_id: u64, display_name: &str) -> (r: String)
    ensures
        r@ == "Bound "@ + role(role_id as int) + " as the notification role for **"@
            + display_name@ + "**."@,
{
    cat5("Bound ", &role_u64(role_id), " as the notification role for **", display_name, "**.")
}

/// What is said of a dungeon that has no role any more.
pub fn cleared_reply(display_name: &str) -> (r: String)
    ensures
        r@ == "Cleared the notification role for **"@ + display_name@ + "**."@,
{
    cat3("Cleared the notification role for **", display_name, "**.")
}

/// The name of a role that is made for a dungeon.
pub fn role_name(display_name: &str) -> (r: String)
    ensures
        r@ == display_name@ + " Pings"@,
{
    cat2(display_name, " Pings")
}

/// What is said of a role that was made for a dungeon.
pub fn created_reply(role_id: u64, display_name: &str) -> (r: String)
    ensures
        r@ == "Created (or reused) "@ + role(role_id as int)
            + " and bound it as the notification role for **"@ + display_name@
            + "**. Users can now run `/pingroles` to subscribe."@,
{
    cat5(
        "Created (or reused) ",
        &role_u64(role_id),
        " and bound it as the notification role for **",
        display_name,
        "**. Users can now run `/pingroles` to subscribe.",
    )
}

// ----- what a member is offered and gets --------------------------------------------------------------

/// A dungeon is bound to the first role that was stored for its name.
pub proof fn roles_are_bound_by_name(bound: Seq<(String, i64)>, name: Seq<char>, from: int) -> (i: int)
    requires
        0 <= from <= bound.len(),
    ensures
        from <= i <= bound.len(),
        bound_role(bound, name, from) is Some <==> i < bound.len(),
        i < bound.len() ==> bound[i].0@ == name && bound_role(bound, name, from) == Some(bound[i].1),
        forall|k: int| from <= k < i ==> (#[trigger] bound[k]).0@ != name,
    decreases bound.len() - from,
{
    if from >= bound.len() {
        bound.len() as int
    } else if bound[from].0@ == name {
        from
    } else {
        roles_are_bound_by_name(bound, name, from + 1)
    }
}

/// Each dungeon that is offered is one of the server's, with its own number and name and
/// with the role that it is bound to.
pub proof fn offered_dungeons_are_bound(
    dungeons: Seq<DungeonTemplate>,
    bound: Seq<(String, i64)>,
    n: int,
    i: int,
) -> (k: int)
    requires
        0 <= n <= dungeons.len(),
        0 <= i < bound_dungeons(dungeons, bound, n).len(),
    ensures
        0 <= k < n,
        i <= k,
        bound_dungeons(dungeons, bound, n)[i].0 == dungeons[k].id,
        bound_dungeons(dungeons, bound, n)[i].1 == dungeons[k].display_name@,
        bound_role(bound, dungeons[k].name@, 0) == Some(bound_dungeons(dungeons, bound, n)[i].2),
    decreases n,
{
    let before = bound_dungeons(dungeons, bound, n - 1);
    offers_are_no_more_than_dungeons(dungeons, bound, n - 1);
    if i < before.len() {
        offered_dungeons_are_bound(dungeons, bound, n - 1, i)
    } else {
        n - 1
    }
}

proof fn offers_are_no_more_than_dungeons(
    dungeons: Seq<DungeonTemplate>,
    bound: Seq<(String, i64)>,
    n: int,
)
    requires
        0 <= n <= dungeons.len(),
    ensures
        bound_dungeons(dungeons, bound, n).len() <= n,
    decreases n,
{
    if n > 0 {
        offers_are_no_more_than_dungeons(dungeons, bound, n - 1);
    }
}

/// No dungeon that is bound to a role is left out.
pub proof fn every_bound_dungeon_is_offered(
    dungeons: Seq<DungeonTemplate>,
    bound: Seq<(String, i64)>,
    n: int,
    k: int,
    b: int,
) -> (i: int)
    requires
        0 <= k < n <= dungeons.len(),
        0 <= b < bound.len(),
        bound[b].0@ == dungeons[k].name@,
    ensures
        0 <= i < bound_dungeons(dungeons, bound, n).len(),
        bound_dungeons(dungeons, bound, n)[i].0 == dungeons[k].id,
        bound_dungeons(dungeons, bound, n)[i].1 == dungeons[k].display_name@,
    decreases n,
{
    let found = roles_are_bound_by_name(bound, dungeons[k].name@, 0);
    if k < n - 1 {
        every_bound_dungeon_is_offered(dungeons, bound, n - 1, k, b)
    } else {
        bound_dungeons(dungeons, bound, n - 1).len() as int
    }
}

/// A member is subscribed at first to exactly those dungeons whose role they have.
pub proof fn members_are_subscribed_by_their_roles(
    dungeons: Seq<PingDungeon>,
    roles: Seq<u64>,
    n: int,
    id: i32,
)
    requires
        0 <= n <= dungeons.len(),
    ensures
        subscribed(dungeons, roles, n).contains(id) <==> exists|k: int|
            0 <= k < n && (#[trigger] dungeons[k]).id == id && roles.contains(
                dungeons[k].role_id as u64,
            ),
        subscribed(dungeons, roles, n).no_duplicates(),
    decreases n,
{
    if n > 0 {
        members_are_subscribed_by_their_roles(dungeons, roles, n - 1, id);
        let before = subscribed(dungeons, roles, n - 1);
        added_ids_are_there(before, dungeons[n - 1].id, id);
        if subscribed(dungeons, roles, n).contains(id) {
            if !before.contains(id) {
                assert(dungeons[n - 1].id == id);
            }
        }
    }
}

proof fn added_ids_are_there(s: Seq<i32>, added: i32, id: i32)
    ensures
        with_id(s, added).contains(id) <==> s.contains(id) || added == id,
        s.no_duplicates() ==> with_id(s, added).no_duplicates(),
{
    if !s.contains(added) {
        let t = s.push(added);
        if s.contains(id) {
            let j = choose|j: int| 0 <= j < s.len() && s[j] == id;
            assert(t[j] == id);
        }
        assert(t[s.len() as int] == added);
        if t.contains(id) && added != id {
            let j = choose|j: int| 0 <= j < t.len() && t[j] == id;
            assert(s[j] == id);
        }
        if s.no_duplicates() {
            assert forall|a: int, b: int| 0 <= a < t.len() && 0 <= b < t.len() && a != b implies t[a]
                != t[b] by {
                if a == s.len() {
                    assert(s[b] == t[b]);
                } else if b == s.len() {
                    assert(s[a] == t[a]);
                }
            }
        }
    }
}

/// After a selection on a page a member wants exactly what was ticked of that page, and of
/// the other pages what was wanted before.
pub proof fn selections_count_for_their_page(
    desired: Seq<i32>,
    dungeons: Seq<PingDungeon>,
    page: int,
    values: Seq<Seq<char>>,
    id: i32,
)
    requires
        0 <= page,
        page * 10 <= dungeons.len(),
    ensures
        ({
            let shown = exists|k: int|
                page * 10 <= k < page * 10 + 10 && k < dungeons.len() && (#[trigger] dungeons[k]).id
                    == id;
            let picked = exists|i: int|
                0 <= i < values.len() && int_value(#[trigger] values[i]) == Some(id as int);
            after_selection(desired, dungeons, page, values).contains(id) <==> (if shown {
                picked
            } else {
                desired.contains(id)
            })
        }),
{
    let start = page_start(page);
    let end = page_end(page, dungeons.len() as int);
    let rest = unticked(desired, dungeons, start, end);
    unticking_drops_the_page(desired, dungeons, start, end, id);
    ticking_adds_what_was_picked(rest, dungeons, start, end, values, values.len() as int, id);
    let shown = exists|k: int|
        page * 10 <= k < page * 10 + 10 && k < dungeons.len() && (#[trigger] dungeons[k]).id == id;
    if on_page(dungeons, start, end, id as int) {
        let k = choose|k: int| start <= k < end && (#[trigger] dungeons[k]).id == id;
        assert(dungeons[k].id == id);
        assert(shown);
    }
    if shown {
        let k = choose|k: int|
            page * 10 <= k < page * 10 + 10 && k < dungeons.len() && (#[trigger] dungeons[k]).id
                == id;
        assert(start <= k < end && dungeons[k].id == id);
        assert(on_page(dungeons, start, end, id as int));
    }
}

proof fn unticking_drops_the_page(
    desired: Seq<i32>,
    dungeons: Seq<PingDungeon>,
    start: int,
    n: int,
    id: i32,
)
    requires
        0 <= start <= n <= dungeons.len(),
    ensures
        unticked(desired, dungeons, start, n).contains(id) <==> desired.contains(id) && !on_page(
            dungeons,
            start,
            n,
            id as int,
        ),
    decreases n - start,
{
    if n > start {
        unticking_drops_the_page(desired, dungeons, start, n - 1, id);
        let before = unticked(desired, dungeons, start, n - 1);
        let last = dungeons[n - 1].id;
        filtered_ids(before, last, id);
        if on_page(dungeons, start, n - 1, id as int) {
            let k = choose|k: int| start <= k < n - 1 && (#[trigger] dungeons[k]).id == id;
            assert(start <= k < n && dungeons[k].id == id);
        }
        if on_page(dungeons, start, n, id as int) && last != id {
            let k = choose|k: int| start <= k < n && (#[trigger] dungeons[k]).id == id;
            assert(start <= k < n - 1 && dungeons[k].id == id);
        }
        if last == id {
            assert(dungeons[n - 1].id == id);
            assert(on_page(dungeons, start, n, id as int));
        }
    }
}

proof fn filtered_ids(s: Seq<i32>, dropped: i32, id: i32)
    ensures
        without_id(s, dropped).contains(id) <==> s.contains(id) && id != dropped,
    decreases s.len(),
{
    reveal(Seq::filter);
    let keep = |x: i32| x != dropped;
    if s.len() > 0 {
        let short = s.drop_last();
        filtered_ids(short, dropped, id);
        let before = without_id(short, dropped);
        let last = s.last();
        if s.contains(id) && id != last {
            let j = choose|j: int| 0 <= j < s.len() && s[j] == id;
            assert(short[j] == id);
        }
        if short.contains(id) {
            let j = choose|j: int| 0 <= j < short.len() && short[j] == id;
            assert(s[j] == id);
        }
        if last != dropped {
            let after = before.push(last);
            assert(without_id(s, dropped) =~= after);
            if before.contains(id) {
                let j = choose|j: int| 0 <= j < before.len() && before[j] == id;
                assert(after[j] == id);
            }
            assert(after[before.len() as int] == last);
            assert(s[s.len() - 1] == last);
            if after.contains(id) && id != last {
                let j = choose|j: int| 0 <= j < after.len() && after[j] == id;
                assert(before[j] == id);
            }
        } else {
            assert(without_id(s, dropped) =~= before);
        }
    }
}

proof fn ticking_adds_what_was_picked(
    rest: Seq<i32>,
    dungeons: Seq<PingDungeon>,
    start: int,
    end: int,
    values: Seq<Seq<char>>,
    n: int,
    id: i32,
)
    requires
        0 <= n <= values.len(),
    ensures
        ticked(rest, dungeons, start, end, values, n).contains(id) <==> rest.contains(id) || (
        on_page(dungeons, start, end, id as int) && exists|i: int|
            0 <= i < n && int_value(#[trigger] values[i]) == Some(id as int)),
    decreases n,
{
    if n > 0 {
        ticking_adds_what_was_picked(rest, dungeons, start, end, values, n - 1, id);
        let before = ticked(rest, dungeons, start, end, values, n - 1);
        let picked = within(int_value(values[n - 1]), i32::MIN as int, i32::MAX as int);
        if picked is Some && on_page(dungeons, start, end, picked->0) {
            added_ids_are_there(before, picked->0 as i32, id);
        }
        if int_value(values[n - 1]) == Some(id as int) {
            assert(picked == Some(id as int));
        }
    }
}

/// A page shows the dungeons of its place, ten at most, each by its name, and ticked where
/// it is wanted.
pub proof fn pages_offer_ten_dungeons(
    dungeons: Seq<PingDungeon>,
    desired: Seq<i32>,
    page: int,
    pages: int,
    i: int,
)
    requires
        0 <= page,
        page * 10 <= dungeons.len(),
    ensures
        ({
            let screen = picker_screen(dungeons, desired, page, pages);
            let menu = screen.rows[0]->Menu_0;
            let c = menu.kind->Choices_0;
            let b = screen.rows[1]->Buttons_0;
            let here = if page * 10 + 10 <= dungeons.len() {
                10
            } else {
                dungeons.len() - page * 10
            };
            &&& screen.rows.len() == 2 && screen.rows[0] is Menu && screen.rows[1] is Buttons
            &&& menu.custom_id == "pingroles:select"@ && menu.kind is Choices && menu.min == 0
            &&& c.len() == here
            &&& here >= 1 ==> menu.max == here
            &&& 0 <= i < here ==> {
                &&& c[i].label == dungeons[page * 10 + i].display_name@
                &&& c[i].value == dec(dungeons[page * 10 + i].id as int)
                &&& c[i].selected <==> desired.contains(dungeons[page * 10 + i].id)
            }
            &&& b.len() == 4
            &&& b[0].custom_id == "pingroles:prev"@ && (b[0].disabled <==> page == 0)
            &&& b[1].custom_id == "pingroles:next"@ && (b[1].disabled <==> page + 1 >= pages)
            &&& b[2].custom_id == "pingroles:apply"@ && !b[2].disabled
            &&& b[3].custom_id == "pingroles:close"@ && !b[3].disabled
        }),
{
}

/// The buttons turn the pages as far as there are any, apply, and close; only a selection
/// changes what is wanted. There are as many pages as the dungeons fill.
pub proof fn the_picker_follows_its_buttons(
    dungeons: Seq<PingDungeon>,
    desired: Seq<i32>,
    page: int,
    id: Seq<char>,
    values: Option<Seq<Seq<char>>>,
)
    requires
        0 <= page,
    ensures
        ({
            let prev = picker_step_of(dungeons, desired, page, "pingroles:prev"@, values);
            let next = picker_step_of(dungeons, desired, page, "pingroles:next"@, values);
            let n = dungeons.len() as int;
            &&& prev.2 is Redraw && next.2 is Redraw && prev.0 == desired && next.0 == desired
            &&& page > 0 ==> prev.1 == page - 1
            &&& page == 0 ==> prev.1 == 0
            &&& (page + 1) * 10 < n ==> next.1 == page + 1
            &&& (page + 1) * 10 >= n ==> next.1 == page
            &&& picker_step_of(dungeons, desired, page, "pingroles:apply"@, values) == (
                desired,
                page,
                PickerStep::Apply,
            )
            &&& picker_step_of(dungeons, desired, page, "pingroles:close"@, values) == (
                desired,
                page,
                PickerStep::Close,
            )
            &&& id != "pingroles:select"@ ==> picker_step_of(dungeons, desired, page, id, values).0
                == desired
            &&& values matches Some(v) ==> picker_step_of(
                dungeons,
                desired,
                page,
                "pingroles:select"@,
                values,
            ) == (after_selection(desired, dungeons, page, v), page, PickerStep::Redraw)
        }),
{
    reveal_strlit("pingroles:select");
    reveal_strlit("pingroles:prev");
    reveal_strlit("pingroles:next");
    reveal_strlit("pingroles:apply");
    reveal_strlit("pingroles:close");
    assert("pingroles:select"@[10] == 's');
    assert("pingroles:prev"@[10] == 'p');
    assert("pingroles:next"@[10] == 'n');
    assert("pingroles:apply"@[10] == 'a');
    assert("pingroles:close"@[10] == 'c');
}

/// The answer tells the numbers of what was added and removed, and every failure.
pub proof fn changes_and_failures_are_told(added: int, removed: int, failures: Seq<Seq<char>>)
    requires
        0 <= added,
        0 <= removed,
    ensures
        failures.len() == 0 && added == 0 && removed == 0 ==> diff_text(added, removed, failures)
            == "Nothing to change — your subscriptions already match."@,
        failures.len() == 0 && added + removed > 0 ==> diff_text(added, removed, failures)
            == "✅ Subscriptions updated — "@ + dec(added) + " added, "@ + dec(removed)
            + " removed."@,
        failures.len() > 0 ==> diff_text(added, removed, failures) == "⚠ Partial update: "@ + dec(
            added,
        ) + " added, "@ + dec(removed) + " removed. "@ + dec(failures.len() as int)
            + " failure(s):\n"@ + joined(failures, "\n"@),
{
}

} // verus!
