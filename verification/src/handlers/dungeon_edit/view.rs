//! What the editor of a dungeon looks like.

use vstd::prelude::*;
use vstd::string::StrSliceExecFns;

use crate::db::models::{BotEmoji, DungeonReaction, DungeonTemplate, Tier};
use crate::embeds::headcount::{emoji_of, emoji_rt};
use crate::embeds::loot_fields::{capitalized, tier_display_name};
use crate::embeds::run::{add_in_fives, in_fives, rows_hold_five, rows_of_five_lose_no_button};
use crate::handlers::dungeon_edit::color::{color_text, show_color};
use crate::handlers::headcount::{own_or_empty, text_or_empty};
use crate::limits::{DESCRIPTION_MAX, DISPLAY_NAME_MAX, REACTION_DISPLAY_NAME_MAX};
use crate::name_map::NameMap;
use crate::text::{
    cat2, cat3, cat4, dec, dec_i32, dec_usize, first_chars, join, joined, own, same, split_at_char,
    split_char, take_chars, views, views_push, Text,
};
use crate::ui::{
    choice_views, choice_views_push, push_if, Button, ButtonStyle, ButtonView, Buttons, Choice,
    ChoiceView, Form, FormView, Input, InputView, Menu, MenuKind, MenuKindView, MenuView, RowView,
    Rows,
};

verus! {

/// The most entries that a menu can have.
pub const MENU_MAX: usize = 25;

/// The most reactions that the editor has room for.
pub const TUNE_MAX: usize = 20;

/// What is said of a dungeon that is gone.
pub const DUNGEON_MISSING: &'static str = "This dungeon no longer exists.";

// ----- names -------------------------------------------------------------------------------

/// The words of a logical name, each with its first character in upper case.
pub open spec fn title_words(name: Seq<char>) -> Seq<Seq<char>> {
    let parts = split_at_char(name, '_');
    Seq::new(parts.len(), |i: int| capitalized(parts[i]))
}

/// A logical name as shown: `lost_halls_key` becomes `Lost Halls Key`.
pub open spec fn title_of_snake(name: Seq<char>) -> Seq<char> {
    joined(title_words(name), " "@)
}

/// A logical name as shown: `lost_halls_key` becomes `Lost Halls Key`.
pub fn snake_to_title(name: &str) -> (r: String)
    ensures
        r@ == title_of_snake(name@),
{
    let parts = split_char(name, '_');
    let ghost pv = views(parts@);
    let ghost all = title_words(name@);
    let mut out: Vec<String> = Vec::new();
    let mut i: usize = 0;
    assert(views(out@) =~= all.take(0));
    while i < parts.len()
        invariant
            i <= parts@.len(),
            pv == views(parts@),
            pv == split_at_char(name@, '_'),
            all == title_words(name@),
            views(out@) == all.take(i as int),
        decreases parts@.len() - i,
    {
        broadcast use views_push;

        assert(pv[i as int] == parts@[i as int]@);
        out.push(tier_display_name(&parts[i]));
        i = i + 1;
        assert(all.take(i as int) =~= all.take(i - 1).push(all[i - 1]));
    }
    assert(all.take(i as int) =~= all);
    join(&out, " ")
}

/// A text that fits on a button: its first 63 characters and an ellipsis where it
/// has more than 64.
pub open spec fn button_text(s: Seq<char>) -> Seq<char> {
    if s.len() <= 64 {
        s
    } else {
        s.take(63) + "…"@
    }
}

/// A text that fits on a button.
pub fn truncate_for_button(s: &str) -> (r: String)
    ensures
        r@ == button_text(s@),
{
    if s.unicode_len() <= 64 {
        own(s)
    } else {
        assert(first_chars(s@, 63) =~= s@.take(63));
        cat2(&take_chars(s, 63), "…")
    }
}

/// No button text has more than 64 characters.
pub proof fn button_texts_fit(s: Seq<char>)
    ensures
        button_text(s).len() <= 64,
{
    reveal_strlit("…");
}

// ----- the form that makes a dungeon -----------------------------------------------------------

/// A colour as hexadecimal digits, or nothing.
pub open spec fn color_or_empty(c: Option<i32>) -> Seq<char> {
    match c {
        Some(v) => color_text(v),
        None => Seq::empty(),
    }
}

fn show_color_or_empty(c: Option<i32>) -> (r: String)
    ensures
        r@ == color_or_empty(c),
{
    match c {
        Some(v) => show_color(v),
        None => String::new(),
    }
}

/// The form that makes a dungeon, perhaps after another one, whose text and colour
/// are filled in and whose id the form carries; 0 stands for none.
pub open spec fn create_form(inherit_source: Option<DungeonTemplate>) -> FormView {
    let id = match inherit_source {
        Some(s) => s.id,
        None => 0,
    };
    let title = match inherit_source {
        Some(s) => "Create dungeon (from "@ + s.display_name@ + ")"@,
        None => "Create dungeon"@,
    };
    let description = match inherit_source {
        Some(s) => text_or_empty(s.message_description),
        None => Seq::empty(),
    };
    let color = match inherit_source {
        Some(s) => color_or_empty(s.color),
        None => Seq::empty(),
    };
    FormView::new("de:create:"@ + dec(id as int), title).input(
        InputView::short("Display name"@, "display_name"@).placeholder(
            "e.g. Lost Halls Speedrun"@,
        ).required(true).max_length(DISPLAY_NAME_MAX as u16),
    ).input(
        InputView::long("Description (optional)"@, "description"@).placeholder(
            "Shown in the headcount embed"@,
        ).value(description).required(false).max_length(DESCRIPTION_MAX as u16),
    ).input(
        InputView::short("Embed color hex (optional)"@, "color"@).placeholder(
            "e.g. FF4500"@,
        ).value(color).required(false).max_length(7),
    )
}

/// Build the form that makes a dungeon.
pub fn build_create_modal(inherit_source: Option<&DungeonTemplate>) -> (r: Form)
    ensures
        r@ == create_form(
            match inherit_source {
                Some(s) => Some(*s),
                None => None,
            },
        ),
{
    let id: i32 = match inherit_source {
        Some(s) => s.id,
        None => 0,
    };
    let title = match inherit_source {
        Some(s) => cat3("Create dungeon (from ", &s.display_name, ")"),
        None => own("Create dungeon"),
    };
    let description = match inherit_source {
        Some(s) => own_or_empty(&s.message_description),
        None => String::new(),
    };
    let color = match inherit_source {
        Some(s) => show_color_or_empty(s.color),
        None => String::new(),
    };
    Form::new(&cat2("de:create:", &dec_i32(id)), &title).input(
        Input::short("Display name", "display_name").placeholder(
            "e.g. Lost Halls Speedrun",
        ).required(true).max_length(DISPLAY_NAME_MAX as u16),
    ).input(
        Input::long("Description (optional)", "description").placeholder(
            "Shown in the headcount embed",
        ).value(&description).required(false).max_length(DESCRIPTION_MAX as u16),
    ).input(
        Input::short("Embed color hex (optional)", "color").placeholder(
            "e.g. FF4500",
        ).value(&color).required(false).max_length(7),
    )
}

/// The form that edits the texts of a dungeon.
pub open spec fn scalars_form(t: DungeonTemplate, id: i32) -> FormView {
    FormView::new("de:scalarsubmit:"@ + dec(id as int), "Edit text fields"@).input(
        InputView::short("Display name"@, "display_name"@).value(t.display_name@).required(
            true,
        ).max_length(DISPLAY_NAME_MAX as u16),
    ).input(
        InputView::long("Description"@, "description"@).value(
            text_or_empty(t.message_description),
        ).required(false).max_length(DESCRIPTION_MAX as u16),
    ).input(
        InputView::short("Embed color hex"@, "color"@).value(color_or_empty(t.color)).required(
            false,
        ).max_length(7),
    )
}

/// Build the form that edits the texts of a dungeon.
pub fn build_scalars_form(t: &DungeonTemplate, id: i32) -> (r: Form)
    ensures
        r@ == scalars_form(*t, id),
{
    Form::new(&cat2("de:scalarsubmit:", &dec_i32(id)), "Edit text fields").input(
        Input::short("Display name", "display_name").value(&t.display_name).required(
            true,
        ).max_length(DISPLAY_NAME_MAX as u16),
    ).input(
        Input::long("Description", "description").value(
            &own_or_empty(&t.message_description),
        ).required(false).max_length(DESCRIPTION_MAX as u16),
    ).input(
        Input::short("Embed color hex", "color").value(&show_color_or_empty(t.color)).required(
            false,
        ).max_length(7),
    )
}

// ----- the editor ---------------------------------------------------------------------------

/// The editor of a dungeon.
#[derive(Debug)]
pub struct EditView {
    /// What it says.
    pub content: String,
    /// Its menus and buttons.
    pub components: Rows,
}

/// What the editor of a dungeon is.
pub ghost struct EditViewView {
    pub content: Seq<char>,
    pub components: Seq<RowView>,
}

impl View for EditView {
    type V = EditViewView;

    open spec fn view(&self) -> EditViewView {
        EditViewView { content: self.content@, components: self.components@ }
    }
}

/// A reaction has a name.
pub open spec fn reaction_named(reactions: Seq<DungeonReaction>, name: Seq<char>) -> bool {
    exists|i: int| 0 <= i < reactions.len() && (#[trigger] reactions[i]).name@ == name
}

/// Whether a reaction has a name.
pub fn has_reaction(reactions: &Vec<DungeonReaction>, name: &str) -> (r: bool)
    ensures
        r == reaction_named(reactions@, name@),
{
    let mut i: usize = 0;
    while i < reactions.len()
        invariant
            i <= reactions@.len(),
            forall|k: int| 0 <= k < i ==> (#[trigger] reactions@[k]).name@ != name@,
        decreases reactions@.len() - i,
    {
        if same(&reactions[i].name, name) {
            return true;
        }
        i = i + 1;
    }
    false
}

/// An emoji belongs to a category.
pub open spec fn of_category(e: BotEmoji, category: Seq<char>) -> bool {
    match e.category {
        Some(c) => c@ == category,
        None => false,
    }
}

fn is_of_category(e: &BotEmoji, category: &str) -> (r: bool)
    ensures
        r == of_category(*e, category@),
{
    match &e.category {
        Some(c) => same(c, category),
        None => false,
    }
}

/// The entries for those of the first `n` emojis that belong to a category, at most
/// as many as a menu can have. What the dungeon already reacts with is selected.
pub open spec fn category_choices(
    emojis: Seq<BotEmoji>,
    category: Seq<char>,
    reactions: Seq<DungeonReaction>,
    map: Map<Seq<char>, BotEmoji>,
    n: int,
) -> Seq<ChoiceView>
    decreases n,
{
    if n <= 0 || n > emojis.len() {
        Seq::empty()
    } else {
        let before = category_choices(emojis, category, reactions, map, n - 1);
        let e = emojis[n - 1];
        if of_category(e, category) && before.len() < MENU_MAX {
            before.push(
                ChoiceView::new(
                    title_of_snake(e.logical_name@),
                    e.logical_name@,
                    reaction_named(reactions, e.logical_name@),
                ).emoji(emoji_of(e.logical_name@, map)),
            )
        } else {
            before
        }
    }
}

fn list_category_choices(
    emojis: &Vec<BotEmoji>,
    category: &str,
    reactions: &Vec<DungeonReaction>,
    map: &NameMap<BotEmoji>,
) -> (r: Vec<Choice>)
    ensures
        choice_views(r@) == category_choices(
            emojis@,
            category@,
            reactions@,
            map@,
            emojis@.len() as int,
        ),
        r@.len() <= MENU_MAX,
{
    let mut out: Vec<Choice> = Vec::new();
    let mut i: usize = 0;
    assert(choice_views(out@) =~= Seq::empty());
    while i < emojis.len()
        invariant
            i <= emojis@.len(),
            choice_views(out@) == category_choices(
                emojis@,
                category@,
                reactions@,
                map@,
                i as int,
            ),
            out@.len() <= MENU_MAX,
        decreases emojis@.len() - i,
    {
        broadcast use choice_views_push;

        let e = &emojis[i];
        assert(choice_views(out@).len() == out@.len());
        if is_of_category(e, category) && out.len() < MENU_MAX {
            let selected = has_reaction(reactions, &e.logical_name);
            out.push(
                Choice::new(&snake_to_title(&e.logical_name), &e.logical_name, selected).emoji(
                    emoji_rt(&e.logical_name, map),
                ),
            );
        }
        i = i + 1;
    }
    out
}

/// The menu of a category.
pub open spec fn category_menu(
    id: i32,
    category: Seq<char>,
    label: Seq<char>,
    choices: Seq<ChoiceView>,
) -> RowView {
    RowView::Menu(
        MenuView::new(
            "de:react:"@ + dec(id as int) + ":"@ + category,
            MenuKindView::Choices(choices),
            label + " (none required)"@,
            0,
            choices.len() as u8,
        ),
    )
}

/// The rows with the menu of a category below them, where the category has any
/// emoji.
pub open spec fn with_category(
    rows: Seq<RowView>,
    id: i32,
    category: Seq<char>,
    label: Seq<char>,
    emojis: Seq<BotEmoji>,
    reactions: Seq<DungeonReaction>,
    map: Map<Seq<char>, BotEmoji>,
) -> Seq<RowView> {
    let choices = category_choices(emojis, category, reactions, map, emojis.len() as int);
    push_if(rows, choices.len() > 0, category_menu(id, category, label, choices))
}

fn add_category(
    rows: Rows,
    id: i32,
    category: &str,
    label: &str,
    emojis: &Vec<BotEmoji>,
    reactions: &Vec<DungeonReaction>,
    map: &NameMap<BotEmoji>,
) -> (r: Rows)
    ensures
        r@ == with_category(rows@, id, category@, label@, emojis@, reactions@, map@),
{
    let choices = list_category_choices(emojis, category, reactions, map);
    assert(choice_views(choices@).len() == choices@.len());
    if choices.len() == 0 {
        return rows;
    }
    let max: u8 = choices.len() as u8;
    rows.menu(
        Menu::new(
            &cat4("de:react:", &dec_i32(id), ":", category),
            MenuKind::Choices(choices),
            &cat2(label, " (none required)"),
            0,
            max,
        ),
    )
}

/// How many of the tiers the menu of tiers has.
pub open spec fn shown_tiers(tiers: Seq<Tier>) -> nat {
    if tiers.len() <= MENU_MAX {
        tiers.len()
    } else {
        MENU_MAX as nat
    }
}

/// The entries for the tiers; those in which the dungeon can be raided are
/// selected.
pub open spec fn tier_choices(tiers: Seq<Tier>, visible: Seq<i32>) -> Seq<ChoiceView> {
    Seq::new(
        shown_tiers(tiers),
        |i: int|
            ChoiceView::new(tiers[i].name@, dec(tiers[i].id as int), visible.contains(tiers[i].id)),
    )
}

/// Whether a list holds a number.
pub fn holds(list: &Vec<i32>, n: i32) -> (r: bool)
    ensures
        r == list@.contains(n),
{
    let mut i: usize = 0;
    while i < list.len()
        invariant
            i <= list@.len(),
            forall|k: int| 0 <= k < i ==> list@[k] != n,
        decreases list@.len() - i,
    {
        if list[i] == n {
            assert(list@[i as int] == n);
            return true;
        }
        i = i + 1;
    }
    false
}

fn list_tier_choices(tiers: &Vec<Tier>, visible: &Vec<i32>) -> (r: Vec<Choice>)
    ensures
        choice_views(r@) == tier_choices(tiers@, visible@),
{
    let mut out: Vec<Choice> = Vec::new();
    let ghost all = tier_choices(tiers@, visible@);
    let mut i: usize = 0;
    assert(choice_views(out@) =~= all.take(0));
    while i < tiers.len() && i < MENU_MAX
        invariant
            i <= shown_tiers(tiers@),
            all == tier_choices(tiers@, visible@),
            choice_views(out@) == all.take(i as int),
        decreases tiers@.len() - i,
    {
        broadcast use choice_views_push;

        let t = &tiers[i];
        out.push(Choice::new(&t.name, &dec_i32(t.id), holds(visible, t.id)));
        i = i + 1;
        assert(all.take(i as int) =~= all.take(i - 1).push(all[i - 1]));
    }
    assert(all.take(i as int) =~= all);
    out
}

/// The menu of tiers.
pub open spec fn tier_menu(id: i32, tiers: Seq<Tier>, visible: Seq<i32>) -> RowView {
    RowView::Menu(
        MenuView::new(
            "de:tiers:"@ + dec(id as int),
            MenuKindView::Choices(tier_choices(tiers, visible)),
            "Tiers this dungeon is enabled in"@,
            0,
            shown_tiers(tiers) as u8,
        ),
    )
}

/// The buttons of the editor.
pub open spec fn editor_buttons(t: DungeonTemplate, no_reactions: bool) -> RowView {
    let id = dec(t.id as int);
    RowView::Buttons(
        Seq::empty().push(
            ButtonView::new("de:scalars:"@ + id, "Edit text fields"@, ButtonStyle::Secondary),
        ).push(
            ButtonView::new(
                "de:vc:"@ + id,
                if t.requires_vc {
                    "VC required ✓"@
                } else {
                    "VC required ✗"@
                },
                ButtonStyle::Secondary,
            ),
        ).push(
            ButtonView::new("de:tune:"@ + id, "Tune reactions"@, ButtonStyle::Secondary).disabled(
                no_reactions,
            ),
        ).push(ButtonView::new("de:done:_"@, "Done"@, ButtonStyle::Success)),
    )
}

/// What the editor says of a dungeon.
pub open spec fn edit_summary(t: DungeonTemplate, reactions: nat) -> Seq<char> {
    let color = match t.color {
        Some(c) => "`#"@ + color_text(c) + "`"@,
        None => "_default_"@,
    };
    let desc = match t.message_description {
        Some(d) => "\""@ + d@ + "\""@,
        None => "_unset_"@,
    };
    "**Editing `"@ + t.name@ + "`** — display name **"@ + t.display_name@ + "**, color "@ + color
        + ", description "@ + desc + ", "@ + dec(reactions as int)
        + " reaction(s) configured.\n_Each change saves immediately. Click Done to close._"@
}

/// What the editor says of a dungeon.
pub fn format_edit_summary(t: &DungeonTemplate, reactions: usize) -> (r: String)
    ensures
        r@ == edit_summary(*t, reactions as nat),
{
    let color = match t.color {
        Some(c) => cat3("`#", &show_color(c), "`"),
        None => own("_default_"),
    };
    let desc = match &t.message_description {
        Some(d) => cat3("\"", d, "\""),
        None => own("_unset_"),
    };
    Text::new("**Editing `").add(&t.name).add("`** — display name **").add(&t.display_name).add(
        "**, color ",
    ).add(&color).add(", description ").add(&desc).add(", ").add(&dec_usize(reactions)).add(
        " reaction(s) configured.\n_Each change saves immediately. Click Done to close._",
    ).done()
}

/// The rows of the editor: a menu of reactions for each category that has any
/// emoji, a menu of tiers where there are any, and the buttons.
pub open spec fn edit_rows(
    t: DungeonTemplate,
    reactions: Seq<DungeonReaction>,
    map: Map<Seq<char>, BotEmoji>,
    emojis: Seq<BotEmoji>,
    tiers: Seq<Tier>,
    visible: Seq<i32>,
) -> Seq<RowView> {
    let keys = with_category(Seq::empty(), t.id, "key"@, "Keys"@, emojis, reactions, map);
    let status = with_category(
        keys,
        t.id,
        "status_effect"@,
        "Status"@,
        emojis,
        reactions,
        map,
    );
    let classes = with_category(status, t.id, "class"@, "Classes"@, emojis, reactions, map);
    push_if(classes, tiers.len() > 0, tier_menu(t.id, tiers, visible)).push(
        editor_buttons(t, reactions.len() == 0),
    )
}

/// The editor of a dungeon, perhaps with a note above it.
pub open spec fn edit_view(
    t: DungeonTemplate,
    reactions: Seq<DungeonReaction>,
    map: Map<Seq<char>, BotEmoji>,
    emojis: Seq<BotEmoji>,
    tiers: Seq<Tier>,
    visible: Seq<i32>,
    note: Option<Seq<char>>,
) -> EditViewView {
    let summary = edit_summary(t, reactions.len());
    EditViewView {
        content: match note {
            Some(n) => n + "\n\n"@ + summary,
            None => summary,
        },
        components: edit_rows(t, reactions, map, emojis, tiers, visible),
    }
}

/// Build the editor of a dungeon. `visible` lists the tiers in which it can be
/// raided, and `category_emojis` the emojis that can become reactions.
pub fn render_edit_view(
    template: &DungeonTemplate,
    reactions: &Vec<DungeonReaction>,
    emoji_map: &NameMap<BotEmoji>,
    category_emojis: &Vec<BotEmoji>,
    guild_tiers: &Vec<Tier>,
    visible: &Vec<i32>,
    intro_note: Option<&str>,
) -> (r: EditView)
    ensures
        r@ == edit_view(
            *template,
            reactions@,
            emoji_map@,
            category_emojis@,
            guild_tiers@,
            visible@,
            match intro_note {
                Some(n) => Some(n@),
                None => None,
            },
        ),
{
    let id = template.id;
    let mut rows = Rows::new();
    rows = add_category(rows, id, "key", "Keys", category_emojis, reactions, emoji_map);
    rows = add_category(rows, id, "status_effect", "Status", category_emojis, reactions, emoji_map);
    rows = add_category(rows, id, "class", "Classes", category_emojis, reactions, emoji_map);
    let ids = dec_i32(id);
    if guild_tiers.len() > 0 {
        let choices = list_tier_choices(guild_tiers, visible);
        assert(choice_views(choices@).len() == choices@.len());
        let max: u8 = choices.len() as u8;
        rows = rows.menu(
            Menu::new(
                &cat2("de:tiers:", &ids),
                MenuKind::Choices(choices),
                "Tiers this dungeon is enabled in",
                0,
                max,
            ),
        );
    }
    let scalars = Button::new(
        &cat2("de:scalars:", &ids),
        "Edit text fields",
        ButtonStyle::Secondary,
    );
    let vc = Button::new(
        &cat2("de:vc:", &ids),
        if template.requires_vc {
            "VC required ✓"
        } else {
            "VC required ✗"
        },
        ButtonStyle::Secondary,
    );
    let tune = Button::new(
        &cat2("de:tune:", &ids),
        "Tune reactions",
        ButtonStyle::Secondary,
    ).disabled(reactions.len() == 0);
    let done = Button::new("de:done:_", "Done", ButtonStyle::Success);
    rows = rows.buttons(Buttons::new().push(scalars).push(vc).push(tune).push(done));
    let summary = format_edit_summary(template, reactions.len());
    let content = match intro_note {
        Some(n) => cat3(n, "\n\n", &summary),
        None => summary,
    };
    EditView { content, components: rows }
}

/// What stands in place of the editor of a dungeon that is gone.
pub fn missing_view() -> (r: EditView)
    ensures
        r@ == (EditViewView { content: DUNGEON_MISSING@, components: Seq::empty() }),
{
    EditView { content: own(DUNGEON_MISSING), components: Rows::new() }
}

proof fn categories_fit(
    emojis: Seq<BotEmoji>,
    category: Seq<char>,
    reactions: Seq<DungeonReaction>,
    map: Map<Seq<char>, BotEmoji>,
    n: int,
)
    ensures
        category_choices(emojis, category, reactions, map, n).len() <= MENU_MAX,
    decreases n,
{
    if n > 0 && n <= emojis.len() {
        categories_fit(emojis, category, reactions, map, n - 1);
    }
}

/// A row fits into a message: at most five buttons, or a menu with 1 to 25 entries
/// of which all can be selected.
pub open spec fn row_fits(row: RowView) -> bool {
    match row {
        RowView::Buttons(b) => 0 < b.len() <= 5,
        RowView::Menu(m) => match m.kind {
            MenuKindView::Choices(c) => 0 < c.len() <= MENU_MAX && m.max == c.len(),
            _ => true,
        },
    }
}

/// The editor fits into a message: at most five rows, each within its limits,
/// however many emojis, reactions and tiers there are.
pub proof fn the_editor_fits(
    t: DungeonTemplate,
    reactions: Seq<DungeonReaction>,
    map: Map<Seq<char>, BotEmoji>,
    emojis: Seq<BotEmoji>,
    tiers: Seq<Tier>,
    visible: Seq<i32>,
)
    ensures
        0 < edit_rows(t, reactions, map, emojis, tiers, visible).len() <= 5,
        forall|i: int|
            0 <= i < edit_rows(t, reactions, map, emojis, tiers, visible).len() ==> row_fits(
                #[trigger] edit_rows(t, reactions, map, emojis, tiers, visible)[i],
            ),
{
    let n = emojis.len() as int;
    categories_fit(emojis, "key"@, reactions, map, n);
    categories_fit(emojis, "status_effect"@, reactions, map, n);
    categories_fit(emojis, "class"@, reactions, map, n);
}

// ----- the reactions of a dungeon ----------------------------------------------------------------

/// The buttons of the first `n` reactions.
pub open spec fn tune_buttons(
    reactions: Seq<DungeonReaction>,
    map: Map<Seq<char>, BotEmoji>,
    n: int,
) -> Seq<ButtonView>
    decreases n,
{
    if n <= 0 || n > reactions.len() {
        Seq::empty()
    } else {
        tune_buttons(reactions, map, n - 1).push(
            ButtonView::new(
                "de:tunepick:"@ + dec(reactions[n - 1].id as int),
                button_text(reactions[n - 1].display_name@),
                ButtonStyle::Secondary,
            ).emoji(emoji_of(reactions[n - 1].emoji@, map)),
        )
    }
}

/// How many reactions the editor shows.
pub open spec fn tunable(reactions: Seq<DungeonReaction>) -> int {
    if reactions.len() <= TUNE_MAX {
        reactions.len() as int
    } else {
        TUNE_MAX as int
    }
}

/// What stands above the reactions of a dungeon.
pub const TUNE_TEXT: &'static str =
    "**Tune a reaction** — click one to edit display name, num_required, sort \
    order, and confirmation.";

/// The list of a dungeon's reactions: a button for each, five to a row, and a
/// button that leads back.
pub open spec fn tune_view(
    id: i32,
    reactions: Seq<DungeonReaction>,
    map: Map<Seq<char>, BotEmoji>,
) -> EditViewView {
    EditViewView {
        content: TUNE_TEXT@,
        components: in_fives(tune_buttons(reactions, map, tunable(reactions))).push(
            RowView::Buttons(
                Seq::empty().push(
                    ButtonView::new(
                        "de:back:"@ + dec(id as int),
                        "← Back"@,
                        ButtonStyle::Primary,
                    ),
                ),
            ),
        ),
    }
}

/// Build the list of a dungeon's reactions.
pub fn render_tune_view(id: i32, reactions: &Vec<DungeonReaction>, map: &NameMap<BotEmoji>) -> (r:
    EditView)
    ensures
        r@ == tune_view(id, reactions@, map@),
{
    let mut buttons = Buttons::new();
    let mut i: usize = 0;
    while i < reactions.len() && i < TUNE_MAX
        invariant
            i <= tunable(reactions@),
            buttons@ == tune_buttons(reactions@, map@, i as int),
        decreases reactions@.len() - i,
    {
        let r = &reactions[i];
        buttons = buttons.push(
            Button::new(
                &cat2("de:tunepick:", &dec_i32(r.id)),
                &truncate_for_button(&r.display_name),
                ButtonStyle::Secondary,
            ).emoji(emoji_rt(&r.emoji, map)),
        );
        i = i + 1;
    }
    let rows = add_in_fives(Rows::new(), buttons);
    assert(Seq::<RowView>::empty() + in_fives(buttons@) =~= in_fives(buttons@));
    let back = Button::new(&cat2("de:back:", &dec_i32(id)), "← Back", ButtonStyle::Primary);
    EditView { content: own(TUNE_TEXT), components: rows.buttons(Buttons::new().push(back)) }
}

proof fn one_button_each(reactions: Seq<DungeonReaction>, map: Map<Seq<char>, BotEmoji>, n: int)
    requires
        0 <= n <= reactions.len(),
    ensures
        tune_buttons(reactions, map, n).len() == n,
    decreases n,
{
    if n > 0 {
        one_button_each(reactions, map, n - 1);
    }
}

/// The list of a dungeon's reactions fits into a message, however many there are.
pub proof fn the_reactions_fit(
    id: i32,
    reactions: Seq<DungeonReaction>,
    map: Map<Seq<char>, BotEmoji>,
)
    ensures
        tune_view(id, reactions, map).components.len() <= 5,
        forall|i: int|
            0 <= i < tune_view(id, reactions, map).components.len() ==> row_fits(
                #[trigger] tune_view(id, reactions, map).components[i],
            ),
{
    let b = tune_buttons(reactions, map, tunable(reactions));
    one_button_each(reactions, map, tunable(reactions));
    rows_hold_five(b);
    let rows = tune_view(id, reactions, map).components;
    assert forall|i: int| 0 <= i < rows.len() implies row_fits(#[trigger] rows[i]) by {
        if i < in_fives(b).len() {
            assert(rows[i] == in_fives(b)[i]);
        }
    }
}

/// The form that edits a reaction.
pub open spec fn tune_form(r: DungeonReaction, id: i32) -> FormView {
    FormView::new(
        "de:tunesubmit:"@ + dec(id as int),
        "Tune reaction: "@ + button_text(r.display_name@),
    ).input(
        InputView::short("Display name"@, "display_name"@).value(r.display_name@).required(
            true,
        ).max_length(REACTION_DISPLAY_NAME_MAX as u16),
    ).input(
        InputView::short("Num required (0 = non-gating)"@, "num_required"@).value(
            dec(r.num_required as int),
        ).required(true).max_length(3),
    ).input(
        InputView::short("Sort order"@, "sort_order"@).value(dec(r.sort_order as int)).required(
            true,
        ).max_length(4),
    ).input(
        InputView::short("Requires confirmation? (y/n)"@, "requires_confirmation"@).value(
            if r.requires_confirmation {
                "y"@
            } else {
                "n"@
            },
        ).required(true).max_length(3),
    )
}

/// Build the form that edits a reaction.
pub fn build_tune_form(r: &DungeonReaction, id: i32) -> (f: Form)
    ensures
        f@ == tune_form(*r, id),
{
    Form::new(
        &cat2("de:tunesubmit:", &dec_i32(id)),
        &cat2("Tune reaction: ", &truncate_for_button(&r.display_name)),
    ).input(
        Input::short("Display name", "display_name").value(&r.display_name).required(
            true,
        ).max_length(REACTION_DISPLAY_NAME_MAX as u16),
    ).input(
        Input::short("Num required (0 = non-gating)", "num_required").value(
            &dec_i32(r.num_required),
        ).required(true).max_length(3),
    ).input(
        Input::short("Sort order", "sort_order").value(&dec_i32(r.sort_order)).required(
            true,
        ).max_length(4),
    ).input(
        Input::short("Requires confirmation? (y/n)", "requires_confirmation").value(
            if r.requires_confirmation {
                "y"
            } else {
                "n"
            },
        ).required(true).max_length(3),
    )
}

// ----- what the editor shows --------------------------------------------------------------------------

/// Each entry of a category's menu is an emoji of that category, under its name in words,
/// and is selected exactly where the dungeon has a reaction of that name.
pub proof fn menus_offer_their_category(
    emojis: Seq<BotEmoji>,
    category: Seq<char>,
    reactions: Seq<DungeonReaction>,
    map: Map<Seq<char>, BotEmoji>,
    n: int,
    i: int,
) -> (k: int)
    requires
        0 <= n <= emojis.len(),
        0 <= i < category_choices(emojis, category, reactions, map, n).len(),
    ensures
        0 <= k < n,
        emojis[k].category is Some,
        (emojis[k].category->0)@ == category,
        ({
            let c = category_choices(emojis, category, reactions, map, n)[i];
            &&& c.value == emojis[k].logical_name@
            &&& c.label == title_of_snake(emojis[k].logical_name@)
            &&& c.emoji == emoji_of(emojis[k].logical_name@, map)
            &&& c.selected <==> exists|j: int|
                0 <= j < reactions.len() && (#[trigger] reactions[j]).name@
                    == emojis[k].logical_name@
        }),
    decreases n,
{
    let before = category_choices(emojis, category, reactions, map, n - 1);
    if i < before.len() {
        menus_offer_their_category(emojis, category, reactions, map, n - 1, i)
    } else {
        n - 1
    }
}

/// No emoji of the category is missing from its menu, as long as the menu has room.
pub proof fn no_emoji_is_missing_from_its_menu(
    emojis: Seq<BotEmoji>,
    category: Seq<char>,
    reactions: Seq<DungeonReaction>,
    map: Map<Seq<char>, BotEmoji>,
    n: int,
    k: int,
) -> (i: int)
    requires
        0 <= k < n <= emojis.len(),
        emojis[k].category is Some,
        (emojis[k].category->0)@ == category,
        category_choices(emojis, category, reactions, map, n).len() < 25,
    ensures
        0 <= i < category_choices(emojis, category, reactions, map, n).len(),
        category_choices(emojis, category, reactions, map, n)[i].value == emojis[k].logical_name@,
    decreases n,
{
    let before = category_choices(emojis, category, reactions, map, n - 1);
    if k < n - 1 {
        no_emoji_is_missing_from_its_menu(emojis, category, reactions, map, n - 1, k)
    } else {
        before.len() as int
    }
}

/// The first twenty-five tiers are offered, in order, by name, and each is selected exactly
/// where the dungeon is shown in it.
pub proof fn tiers_are_offered_in_order(tiers: Seq<Tier>, visible: Seq<i32>, i: int)
    ensures
        tiers.len() <= 25 ==> tier_choices(tiers, visible).len() == tiers.len(),
        tiers.len() > 25 ==> tier_choices(tiers, visible).len() == 25,
        0 <= i < tiers.len() && i < 25 ==> {
            let c = tier_choices(tiers, visible)[i];
            &&& c.label == tiers[i].name@
            &&& c.value == dec(tiers[i].id as int)
            &&& c.selected <==> exists|k: int|
                0 <= k < visible.len() && #[trigger] visible[k] == tiers[i].id
        },
{
    if 0 <= i < tiers.len() && visible.contains(tiers[i].id) {
        let k = choose|k: int| 0 <= k < visible.len() && visible[k] == tiers[i].id;
        assert(visible[k] == tiers[i].id);
    }
}

/// The editor of a dungeon names the dungeon, and says how it is shown; a note stands
/// above that.
pub proof fn the_editor_names_its_dungeon(
    t: DungeonTemplate,
    reactions: Seq<DungeonReaction>,
    map: Map<Seq<char>, BotEmoji>,
    emojis: Seq<BotEmoji>,
    tiers: Seq<Tier>,
    visible: Seq<i32>,
    note: Seq<char>,
)
    ensures
        ({
            let plain = edit_view(t, reactions, map, emojis, tiers, visible, None);
            let noted = edit_view(t, reactions, map, emojis, tiers, visible, Some(note));
            let color = if t.color is Some {
                "`#"@ + color_text(t.color->0) + "`"@
            } else {
                "_default_"@
            };
            let text = if t.message_description is Some {
                "\""@ + (t.message_description->0)@ + "\""@
            } else {
                "_unset_"@
            };
            &&& plain.content == "**Editing `"@ + t.name@ + "`** — display name **"@
                + t.display_name@ + "**, color "@ + color + ", description "@ + text + ", "@ + dec(
                reactions.len() as int,
            )
                + " reaction(s) configured.\n_Each change saves immediately. Click Done to close._"@
            &&& noted.content == note + "\n\n"@ + plain.content
            &&& noted.components == plain.components
        }),
{
}

/// The editor of a dungeon has a menu of keys, of states and of classes, as far as there
/// are any, one of tiers where the server has any, and last its four buttons: the texts,
/// whether a voice channel is needed, the reactions as long as there are some, and done.
pub proof fn the_editor_has_menus_and_buttons(
    t: DungeonTemplate,
    reactions: Seq<DungeonReaction>,
    map: Map<Seq<char>, BotEmoji>,
    emojis: Seq<BotEmoji>,
    tiers: Seq<Tier>,
    visible: Seq<i32>,
)
    ensures
        ({
            let id = dec(t.id as int);
            let rows = edit_rows(t, reactions, map, emojis, tiers, visible);
            let offer = |category: Seq<char>|
                category_choices(emojis, category, reactions, map, emojis.len() as int);
            let keys = if offer("key"@).len() > 0 {
                1int
            } else {
                0
            };
            let states = if offer("status_effect"@).len() > 0 {
                1int
            } else {
                0
            };
            let classes = if offer("class"@).len() > 0 {
                1int
            } else {
                0
            };
            let tiered = if tiers.len() > 0 {
                1int
            } else {
                0
            };
            let last = keys + states + classes + tiered;
            let b = rows[last]->Buttons_0;
            &&& rows.len() == last + 1
            &&& keys == 1 ==> rows[0] is Menu && rows[0]->Menu_0.custom_id == "de:react:"@ + id
                + ":"@ + "key"@ && rows[0]->Menu_0.kind == MenuKindView::Choices(offer("key"@))
            &&& states == 1 ==> rows[keys] is Menu && rows[keys]->Menu_0.custom_id == "de:react:"@
                + id + ":"@ + "status_effect"@ && rows[keys]->Menu_0.kind
                == MenuKindView::Choices(offer("status_effect"@))
            &&& classes == 1 ==> rows[keys + states] is Menu && rows[keys + states]->Menu_0.custom_id
                == "de:react:"@ + id + ":"@ + "class"@ && rows[keys + states]->Menu_0.kind
                == MenuKindView::Choices(offer("class"@))
            &&& tiered == 1 ==> rows[last - 1] is Menu && rows[last - 1]->Menu_0.custom_id
                == "de:tiers:"@ + id && rows[last - 1]->Menu_0.kind == MenuKindView::Choices(
                tier_choices(tiers, visible),
            )
            &&& forall|i: int|
                0 <= i < last ==> (#[trigger] rows[i])->Menu_0.min == 0 && rows[i]->Menu_0.kind
                    is Choices && rows[i]->Menu_0.max == rows[i]->Menu_0.kind->Choices_0.len()
            &&& rows[last] is Buttons && b.len() == 4
            &&& b[0].custom_id == "de:scalars:"@ + id && b[1].custom_id == "de:vc:"@ + id
            &&& b[2].custom_id == "de:tune:"@ + id && b[3].custom_id == "de:done:_"@
            &&& b[1].label == Some(
                if t.requires_vc {
                    "VC required ✓"@
                } else {
                    "VC required ✗"@
                },
            )
            &&& b[2].disabled <==> reactions.len() == 0
            &&& !b[0].disabled && !b[1].disabled && !b[3].disabled
        }),
{
    the_editor_fits(t, reactions, map, emojis, tiers, visible);
}

/// Each of the first twenty reactions can be picked to be tuned, in order and by its name,
/// and behind them is the way back.
pub proof fn reactions_can_be_picked(
    id: i32,
    reactions: Seq<DungeonReaction>,
    map: Map<Seq<char>, BotEmoji>,
    i: int,
)
    requires
        0 <= i < reactions.len(),
        i < 20,
    ensures
        ({
            let rows = tune_view(id, reactions, map).components;
            let b = rows[i / 5]->Buttons_0[i % 5];
            let last = rows.last();
            &&& i / 5 < rows.len() - 1 && rows[i / 5] is Buttons && i % 5
                < rows[i / 5]->Buttons_0.len()
            &&& b.custom_id == "de:tunepick:"@ + dec(reactions[i].id as int)
            &&& b.label == Some(button_text(reactions[i].display_name@))
            &&& b.emoji == emoji_of(reactions[i].emoji@, map)
            &&& last is Buttons && last->Buttons_0.len() == 1 && last->Buttons_0[0].custom_id
                == "de:back:"@ + dec(id as int)
        }),
{
    let n = tunable(reactions);
    tune_buttons_are_those(reactions, map, n, i);
    rows_of_five_lose_no_button(tune_buttons(reactions, map, n), i);
}

proof fn tune_buttons_are_those(
    reactions: Seq<DungeonReaction>,
    map: Map<Seq<char>, BotEmoji>,
    n: int,
    i: int,
)
    requires
        0 <= i < n <= reactions.len(),
    ensures
        tune_buttons(reactions, map, n).len() == n,
        tune_buttons(reactions, map, n)[i] == ButtonView::new(
            "de:tunepick:"@ + dec(reactions[i].id as int),
            button_text(reactions[i].display_name@),
            ButtonStyle::Secondary,
        ).emoji(emoji_of(reactions[i].emoji@, map)),
    decreases n,
{
    if i < n - 1 {
        tune_buttons_are_those(reactions, map, n - 1, i);
    } else if n > 1 {
        tune_buttons_are_those(reactions, map, n - 1, 0);
    } else {
        assert(tune_buttons(reactions, map, 0).len() == 0);
    }
}

/// A label that is too long for a button keeps its first characters and ends in an
/// ellipsis; a shorter one is kept.
pub proof fn button_texts_keep_their_beginning(s: Seq<char>, i: int)
    ensures
        s.len() <= 64 ==> button_text(s) == s,
        s.len() > 64 ==> button_text(s).len() == 64 && button_text(s)[63] == '…',
        s.len() > 64 && 0 <= i < 63 ==> button_text(s)[i] == s[i],
{
    reveal_strlit("…");
}

/// The forms for a dungeon's texts, for a new dungeon and for a reaction ask for what is
/// read from them, and show what is there: nothing for a dungeon from scratch, the
/// description and the colour of the one it is copied from else.
pub proof fn forms_show_what_is_there(
    t: DungeonTemplate,
    source: Option<DungeonTemplate>,
    r: DungeonReaction,
    id: i32,
)
    ensures
        ({
            let text = |d: DungeonTemplate|
                if d.message_description is Some {
                    (d.message_description->0)@
                } else {
                    Seq::<char>::empty()
                };
            let color = |d: DungeonTemplate|
                if d.color is Some {
                    color_text(d.color->0)
                } else {
                    Seq::<char>::empty()
                };
            let texts = scalars_form(t, id);
            let fresh = create_form(source);
            let tuned = tune_form(r, id);
            &&& texts.custom_id == "de:scalarsubmit:"@ + dec(id as int) && texts.inputs.len() == 3
            &&& texts.inputs[0].custom_id == "display_name"@ && texts.inputs[0].value == Some(
                t.display_name@,
            ) && texts.inputs[0].required && texts.inputs[0].max_length == Some(80u16)
            &&& texts.inputs[1].custom_id == "description"@ && texts.inputs[1].value == Some(text(t))
                && !texts.inputs[1].required && texts.inputs[1].max_length == Some(400u16)
            &&& texts.inputs[2].custom_id == "color"@ && texts.inputs[2].value == Some(color(t))
                && !texts.inputs[2].required && texts.inputs[2].max_length == Some(7u16)
            &&& fresh.inputs.len() == 3
            &&& fresh.custom_id == "de:create:"@ + dec(
                if source is Some {
                    source->0.id as int
                } else {
                    0
                },
            )
            &&& source is Some ==> fresh.title == "Create dungeon (from "@ + source->0.display_name@
                + ")"@
            &&& fresh.inputs[0].custom_id == "display_name"@ && fresh.inputs[0].value is None
                && fresh.inputs[0].required && fresh.inputs[0].max_length == Some(80u16)
            &&& fresh.inputs[1].custom_id == "description"@ && !fresh.inputs[1].required
                && fresh.inputs[1].max_length == Some(400u16)
            &&& fresh.inputs[2].custom_id == "color"@ && !fresh.inputs[2].required
                && fresh.inputs[2].max_length == Some(7u16)
            &&& source is Some ==> fresh.inputs[1].value == Some(text(source->0))
                && fresh.inputs[2].value == Some(color(source->0))
            &&& source is None ==> fresh.inputs[1].value == Some(Seq::<char>::empty())
                && fresh.inputs[2].value == Some(Seq::<char>::empty())
            &&& tuned.custom_id == "de:tunesubmit:"@ + dec(id as int) && tuned.inputs.len() == 4
            &&& tuned.inputs[0].custom_id == "display_name"@ && tuned.inputs[0].value == Some(
                r.display_name@,
            ) && tuned.inputs[0].max_length == Some(40u16)
            &&& tuned.inputs[1].custom_id == "num_required"@ && tuned.inputs[1].value == Some(
                dec(r.num_required as int),
            )
            &&& tuned.inputs[2].custom_id == "sort_order"@ && tuned.inputs[2].value == Some(
                dec(r.sort_order as int),
            )
            &&& tuned.inputs[3].custom_id == "requires_confirmation"@ && tuned.inputs[3].value
                == Some(
                if r.requires_confirmation {
                    "y"@
                } else {
                    "n"@
                },
            )
            &&& forall|i: int| 0 <= i < 4 ==> (#[trigger] tuned.inputs[i]).required
        }),
{
}

/// The view of a `EditView` shows each of its fields as it is.
pub proof fn edit_view_shows_its_fields(x: EditView)
    ensures
        x@.content == x.content@,
        x@.components == x.components@,
{
}

} // verus!
