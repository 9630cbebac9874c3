//! What the forms of the editor make and change.

use vstd::prelude::*;
use vstd::string::StrSliceExecFns;

use crate::cli::sync_wiki::names::{slug, slug_from_display};
use crate::cli::sync_wiki::sections::bytes;
use crate::commands::dungeon::{below_cap, create_check, CREATE_CAP_HINT};
use crate::db::dungeon::{CreateGuildTemplateParams, ParamsView};
use crate::db::models::{DungeonReaction, DungeonTemplate};
use crate::handlers::dungeon_edit::color::{parse_color_hex, read_color, BAD_COLOR};
use crate::handlers::dungeon_edit::reactions::STALE_EDITOR;
use crate::handlers::dungeon_edit::view::DUNGEON_MISSING;
use crate::handlers::inputs::{
    input_text, input_value, typed_text, typed_value, TypedInput,
};
use crate::limits::{
    CUSTOM_DUNGEONS_PER_GUILD, DESCRIPTION_MAX, DISPLAY_NAME_MAX, REACTION_DISPLAY_NAME_MAX,
    TEMPLATE_NAME_MAX,
};
use crate::text::{
    cat3, cat5, dec, dec_usize, int_value, is_one_of, one_of, own, parse_i32, trim,
    trimmed, within,
};
use crate::unicode::lowercase;

verus! {

/// What is said outside of a server.
pub const SERVER_ONLY: &'static str = "This command only works in a server.";

/// What is said of a name that is empty.
pub const EMPTY_NAME: &'static str = "Display name can't be empty.";

/// What is said of a name without a letter or digit.
pub const NO_SLUG: &'static str =
    "Display name needs at least one letter or digit so we can derive a slug.";

/// What comes behind a logical name that is taken.
pub const SLUG_TAKEN_HINT: &'static str =
    "` already exists for this server (or as a global). Pick a different display name.";

/// What is said of a name that is too long.
pub open spec fn name_too_long() -> Seq<char> {
    "Display name is too long (max "@ + dec(DISPLAY_NAME_MAX as int) + ")."@
}

fn say_name_too_long() -> (r: String)
    ensures
        r@ == name_too_long(),
{
    cat3("Display name is too long (max ", &dec_usize(DISPLAY_NAME_MAX), ").")
}

/// What is said of a description that is too long.
pub open spec fn description_too_long() -> Seq<char> {
    "Description is too long (max "@ + dec(DESCRIPTION_MAX as int) + ")."@
}

fn say_description_too_long() -> (r: String)
    ensures
        r@ == description_too_long(),
{
    cat3("Description is too long (max ", &dec_usize(DESCRIPTION_MAX), ").")
}

// ----- making a dungeon --------------------------------------------------------------------

/// What is known so far of a dungeon that is to be made. What is not known is
/// `None`, but for the server, which is `None` outside of one.
pub struct CreateFacts {
    /// The server.
    pub guild_id: Option<i64>,
    /// What was typed.
    pub inputs: Vec<TypedInput>,
    /// Dungeon that it is made after.
    pub inherit: Option<i32>,
    /// Whether the logical name is taken.
    pub taken: Option<bool>,
    /// How many dungeons of its own the server has.
    pub count: Option<i64>,
}

/// What to do about a dungeon that is to be made.
#[derive(Debug)]
pub enum CreateStep {
    /// Find out whether this logical name is taken in this server.
    AskTaken(i64, String),
    /// Count the dungeons of this server.
    Count(i64),
    /// Say this, and do nothing.
    Refuse(String),
    /// Make it, and say this above its editor.
    Create(CreateGuildTemplateParams, String),
}

/// What to do about a dungeon that is to be made, over views.
pub ghost enum CreateStepView {
    AskTaken(i64, Seq<char>),
    Count(i64),
    Refuse(Seq<char>),
    Create(ParamsView, Seq<char>),
}

impl View for CreateStep {
    type V = CreateStepView;

    open spec fn view(&self) -> CreateStepView {
        match self {
            CreateStep::AskTaken(g, s) => CreateStepView::AskTaken(*g, s@),
            CreateStep::Count(g) => CreateStepView::Count(*g),
            CreateStep::Refuse(t) => CreateStepView::Refuse(t@),
            CreateStep::Create(p, t) => CreateStepView::Create(p@, t@),
        }
    }
}

/// What is said of a logical name that is too long.
pub open spec fn slug_too_long(s: Seq<char>) -> Seq<char> {
    "Derived slug `"@ + s + "` is too long (max "@ + dec(TEMPLATE_NAME_MAX as int)
        + " chars). Pick a shorter name."@
}

/// What is said above the editor of a dungeon that was made.
pub open spec fn created_note(s: Seq<char>) -> Seq<char> {
    "Created `"@ + s + "`. Tune reactions, tiers, and text fields below."@
}

/// What to do about a dungeon that is to be made, once its logical name is known.
pub open spec fn create_named(
    f: CreateFacts,
    guild: i64,
    name: Seq<char>,
    s: Seq<char>,
) -> CreateStepView {
    if s.len() == 0 {
        CreateStepView::Refuse(NO_SLUG@)
    } else if bytes(s).len() > TEMPLATE_NAME_MAX {
        CreateStepView::Refuse(slug_too_long(s))
    } else {
        match f.taken {
            None => CreateStepView::AskTaken(guild, s),
            Some(true) => CreateStepView::Refuse("Slug `"@ + s + SLUG_TAKEN_HINT@),
            Some(false) => match read_color(trimmed(typed_text(f.inputs@, "color"@))) {
                Err(_) => CreateStepView::Refuse(BAD_COLOR@),
                Ok(color) => match f.count {
                    None => CreateStepView::Count(guild),
                    Some(n) => if !below_cap(n) {
                        CreateStepView::Refuse(
                            "This server is at the cap of "@ + dec(CUSTOM_DUNGEONS_PER_GUILD as int)
                                + CREATE_CAP_HINT@,
                        )
                    } else {
                        CreateStepView::Create(
                            ParamsView {
                                guild_id: guild,
                                name: s,
                                display_name: name,
                                description: typed_value(f.inputs@, "description"@),
                                color,
                                inherit_from: f.inherit,
                            },
                            created_note(s),
                        )
                    },
                },
            },
        }
    }
}

/// What to do about a dungeon that is to be made: the next thing to find out, or the
/// first reason against it, or the dungeon. Its logical name follows from its name
/// as shown.
pub open spec fn create_step_of(f: CreateFacts) -> CreateStepView {
    match f.guild_id {
        None => CreateStepView::Refuse(SERVER_ONLY@),
        Some(guild) => {
            let name = trimmed(typed_text(f.inputs@, "display_name"@));
            if name.len() == 0 {
                CreateStepView::Refuse(EMPTY_NAME@)
            } else if name.len() > DISPLAY_NAME_MAX {
                CreateStepView::Refuse(name_too_long())
            } else if trimmed(typed_text(f.inputs@, "description"@)).len() > DESCRIPTION_MAX {
                CreateStepView::Refuse(description_too_long())
            } else {
                create_named(f, guild, name, slug(name))
            }
        },
    }
}

/// What to do next about a dungeon that is to be made, once its logical name is
/// known.
pub fn create_step_named(f: &CreateFacts, guild: i64, name: &str, slug: &str) -> (r: CreateStep)
    ensures
        r@ == create_named(*f, guild, name@, slug@),
{
    if slug.is_empty() {
        return CreateStep::Refuse(own(NO_SLUG));
    }
    if slug.as_bytes().len() > TEMPLATE_NAME_MAX {
        return CreateStep::Refuse(
            cat5(
                "Derived slug `",
                slug,
                "` is too long (max ",
                &dec_usize(TEMPLATE_NAME_MAX),
                " chars). Pick a shorter name.",
            ),
        );
    }
    match f.taken {
        None => {
            return CreateStep::AskTaken(guild, own(slug));
        },
        Some(t) => {
            if t {
                return CreateStep::Refuse(cat3("Slug `", slug, SLUG_TAKEN_HINT));
            }
        },
    }
    let color = match parse_color_hex(&trim(&input_text(&f.inputs, "color"))) {
        Ok(c) => c,
        Err(t) => {
            return CreateStep::Refuse(t);
        },
    };
    match f.count {
        None => CreateStep::Count(guild),
        Some(n) => match create_check(n) {
            Some(t) => CreateStep::Refuse(t),
            None => CreateStep::Create(
                CreateGuildTemplateParams {
                    guild_id: guild,
                    name: own(slug),
                    display_name: own(name),
                    description: input_value(&f.inputs, "description"),
                    color,
                    inherit_from: f.inherit,
                },
                cat3("Created `", slug, "`. Tune reactions, tiers, and text fields below."),
            ),
        },
    }
}

/// What to do next about a dungeon that is to be made.
pub fn create_step(f: &CreateFacts) -> (r: CreateStep)
    ensures
        r@ == create_step_of(*f),
{
    let guild: i64 = match f.guild_id {
        None => {
            return CreateStep::Refuse(own(SERVER_ONLY));
        },
        Some(g) => g,
    };
    let name = trim(&input_text(&f.inputs, "display_name"));
    if name.as_str().is_empty() {
        return CreateStep::Refuse(own(EMPTY_NAME));
    }
    if name.as_str().unicode_len() > DISPLAY_NAME_MAX {
        return CreateStep::Refuse(say_name_too_long());
    }
    let description = trim(&input_text(&f.inputs, "description"));
    if description.as_str().unicode_len() > DESCRIPTION_MAX {
        return CreateStep::Refuse(say_description_too_long());
    }
    create_step_named(f, guild, &name, &slug_from_display(&name))
}

/// A dungeon is made only within the limits: its name and logical name are neither
/// empty nor too long, its description is not too long, no dungeon has that logical
/// name, and the server has room for it.
pub proof fn dungeons_are_made_within_the_limits(f: CreateFacts, p: ParamsView, note: Seq<char>)
    requires
        create_step_of(f) == CreateStepView::Create(p, note),
    ensures
        f.guild_id == Some(p.guild_id),
        0 < p.display_name.len() <= DISPLAY_NAME_MAX,
        p.description matches Some(d) ==> 0 < d.len() <= DESCRIPTION_MAX,
        p.name == slug(p.display_name),
        0 < p.name.len(),
        bytes(p.name).len() <= TEMPLATE_NAME_MAX,
        f.taken == Some(false),
        f.count is Some && f.count->0 < CUSTOM_DUNGEONS_PER_GUILD,
{
}

// ----- the texts of a dungeon ----------------------------------------------------------------

/// What changes of the texts of a dungeon.
#[derive(Debug)]
pub struct ScalarsUpdate {
    /// Server of the dungeon.
    pub guild_id: i64,
    /// Its logical name.
    pub name: String,
    /// Its new name as shown.
    pub display_name: String,
    /// Its new colour; it keeps the old one where there is none.
    pub color: Option<i32>,
    /// Its new text, which may be empty.
    pub description: String,
}

/// What changes of the texts of a dungeon, over views.
pub ghost struct ScalarsUpdateView {
    pub guild_id: i64,
    pub name: Seq<char>,
    pub display_name: Seq<char>,
    pub color: Option<i32>,
    pub description: Seq<char>,
}

impl View for ScalarsUpdate {
    type V = ScalarsUpdateView;

    open spec fn view(&self) -> ScalarsUpdateView {
        ScalarsUpdateView {
            guild_id: self.guild_id,
            name: self.name@,
            display_name: self.display_name@,
            color: self.color,
            description: self.description@,
        }
    }
}

/// What to do about new texts: what changes, or what is said against them.
pub open spec fn scalars_of(
    template: Option<DungeonTemplate>,
    inputs: Seq<TypedInput>,
) -> Result<ScalarsUpdateView, Seq<char>> {
    match template {
        None => Err(DUNGEON_MISSING@),
        Some(t) => match t.guild_id {
            None => Err("Globals can't be edited directly."@),
            Some(g) => {
                let name = trimmed(typed_text(inputs, "display_name"@));
                if name.len() == 0 {
                    Err(EMPTY_NAME@)
                } else if name.len() > DISPLAY_NAME_MAX {
                    Err(name_too_long())
                } else if trimmed(typed_text(inputs, "description"@)).len() > DESCRIPTION_MAX {
                    Err(description_too_long())
                } else {
                    match read_color(trimmed(typed_text(inputs, "color"@))) {
                        Err(_) => Err(BAD_COLOR@),
                        Ok(color) => Ok(
                            ScalarsUpdateView {
                                guild_id: g,
                                name: t.name@,
                                display_name: name,
                                color,
                                description: trimmed(typed_text(inputs, "description"@)),
                            },
                        ),
                    }
                }
            },
        },
    }
}

/// The view of a change, or of what is said against it.
pub open spec fn scalars_view(r: Result<ScalarsUpdate, String>) -> Result<
    ScalarsUpdateView,
    Seq<char>,
> {
    match r {
        Ok(u) => Ok(u@),
        Err(t) => Err(t@),
    }
}

/// What new texts change, or what is said against them.
pub fn check_scalars(template: &Option<DungeonTemplate>, inputs: &Vec<TypedInput>) -> (r: Result<
    ScalarsUpdate,
    String,
>)
    ensures
        scalars_view(r) == scalars_of(*template, inputs@),
{
    let t = match template {
        None => {
            return Err(own(DUNGEON_MISSING));
        },
        Some(t) => t,
    };
    let guild_id: i64 = match t.guild_id {
        None => {
            return Err(own("Globals can't be edited directly."));
        },
        Some(g) => g,
    };
    let display_name = trim(&input_text(inputs, "display_name"));
    if display_name.as_str().is_empty() {
        return Err(own(EMPTY_NAME));
    }
    if display_name.as_str().unicode_len() > DISPLAY_NAME_MAX {
        return Err(say_name_too_long());
    }
    let description = trim(&input_text(inputs, "description"));
    if description.as_str().unicode_len() > DESCRIPTION_MAX {
        return Err(say_description_too_long());
    }
    match parse_color_hex(&trim(&input_text(inputs, "color"))) {
        Ok(color) => Ok(
            ScalarsUpdate { guild_id, name: own(&t.name), display_name, color, description },
        ),
        Err(t) => Err(t),
    }
}

/// The texts of a dungeon change only within the limits: its name is neither empty
/// nor too long, and its description is not too long.
pub proof fn texts_change_within_the_limits(
    template: Option<DungeonTemplate>,
    inputs: Seq<TypedInput>,
    u: ScalarsUpdateView,
)
    requires
        scalars_of(template, inputs) == Ok::<ScalarsUpdateView, Seq<char>>(u),
    ensures
        0 < u.display_name.len() <= DISPLAY_NAME_MAX,
        u.description.len() <= DESCRIPTION_MAX,
        template is Some && (template->0).guild_id == Some(u.guild_id),
{
}

// ----- a reaction ------------------------------------------------------------------------------

/// What changes of a reaction.
#[derive(Debug)]
pub struct ReactionUpdate {
    /// Its new name as shown.
    pub display_name: String,
    /// How many of it a run needs.
    pub num_required: i32,
    /// Its place among the dungeon's reactions.
    pub sort_order: i32,
    /// Whether who brings it must confirm.
    pub requires_confirmation: bool,
}

/// What changes of a reaction, over views.
pub ghost struct ReactionUpdateView {
    pub display_name: Seq<char>,
    pub num_required: int,
    pub sort_order: int,
    pub requires_confirmation: bool,
}

impl View for ReactionUpdate {
    type V = ReactionUpdateView;

    open spec fn view(&self) -> ReactionUpdateView {
        ReactionUpdateView {
            display_name: self.display_name@,
            num_required: self.num_required as int,
            sort_order: self.sort_order as int,
            requires_confirmation: self.requires_confirmation,
        }
    }
}

/// What a word in lower case answers.
pub open spec fn answer(word: Seq<char>) -> Option<bool> {
    if is_one_of(word, seq!["y", "yes", "true", "1"]) {
        Some(true)
    } else if is_one_of(word, seq!["n", "no", "false", "0"]) {
        Some(false)
    } else {
        None
    }
}

/// What a word in lower case answers.
pub fn read_answer(word: &str) -> (r: Option<bool>)
    ensures
        r == answer(word@),
{
    let yes: [&str; 4] = ["y", "yes", "true", "1"];
    let no: [&str; 4] = ["n", "no", "false", "0"];
    assert(yes@ =~= seq!["y", "yes", "true", "1"]);
    assert(no@ =~= seq!["n", "no", "false", "0"]);
    if one_of(word, &yes) {
        Some(true)
    } else if one_of(word, &no) {
        Some(false)
    } else {
        None
    }
}

/// What is said of the name of a reaction that is empty or too long.
pub open spec fn bad_reaction_name() -> Seq<char> {
    "Display name must be 1-"@ + dec(REACTION_DISPLAY_NAME_MAX as int) + " chars."@
}

/// What to do about new settings of a reaction: what changes, or the first thing
/// that is said against them. A reaction of a dungeon that all servers share is
/// left alone.
pub open spec fn tune_of(
    reaction: Option<DungeonReaction>,
    parent: Option<DungeonTemplate>,
    inputs: Seq<TypedInput>,
) -> Result<ReactionUpdateView, Seq<char>> {
    let name = trimmed(typed_text(inputs, "display_name"@));
    let number = within(int_value(trimmed(typed_text(inputs, "num_required"@))), 0, 20);
    let place = within(
        int_value(trimmed(typed_text(inputs, "sort_order"@))),
        i32::MIN as int,
        i32::MAX as int,
    );
    let confirm = answer(lowercase(trimmed(typed_text(inputs, "requires_confirmation"@))));
    if reaction is None {
        Err("That reaction no longer exists."@)
    } else if parent is None || parent->0.guild_id is None {
        Err(STALE_EDITOR@)
    } else if name.len() == 0 || name.len() > REACTION_DISPLAY_NAME_MAX {
        Err(bad_reaction_name())
    } else if number is None {
        Err("`num_required` must be a number 0-20."@)
    } else if place is None {
        Err("`sort_order` must be an integer."@)
    } else if confirm is None {
        Err("`requires_confirmation` must be `y`/`n`."@)
    } else {
        Ok(
            ReactionUpdateView {
                display_name: name,
                num_required: number->0,
                sort_order: place->0,
                requires_confirmation: confirm->0,
            },
        )
    }
}

/// The view of a change, or of what is said against it.
pub open spec fn tune_result(r: Result<ReactionUpdate, String>) -> Result<
    ReactionUpdateView,
    Seq<char>,
> {
    match r {
        Ok(u) => Ok(u@),
        Err(t) => Err(t@),
    }
}

/// What new settings of a reaction change, or what is said against them.
pub fn check_tune(
    reaction: &Option<DungeonReaction>,
    parent: &Option<DungeonTemplate>,
    inputs: &Vec<TypedInput>,
) -> (r: Result<ReactionUpdate, String>)
    ensures
        tune_result(r) == tune_of(*reaction, *parent, inputs@),
{
    if reaction.is_none() {
        return Err(own("That reaction no longer exists."));
    }
    match parent {
        None => {
            return Err(own(STALE_EDITOR));
        },
        Some(p) => {
            if p.guild_id.is_none() {
                return Err(own(STALE_EDITOR));
            }
        },
    }
    let display_name = trim(&input_text(inputs, "display_name"));
    if display_name.as_str().is_empty() || display_name.as_str().unicode_len()
        > REACTION_DISPLAY_NAME_MAX {
        return Err(
            cat3("Display name must be 1-", &dec_usize(REACTION_DISPLAY_NAME_MAX), " chars."),
        );
    }
    let num_required: i32 = match parse_i32(&trim(&input_text(inputs, "num_required"))) {
        Some(n) => if 0 <= n && n <= 20 {
            n
        } else {
            return Err(own("`num_required` must be a number 0-20."));
        },
        None => {
            return Err(own("`num_required` must be a number 0-20."));
        },
    };
    let sort_order: i32 = match parse_i32(&trim(&input_text(inputs, "sort_order"))) {
        Some(n) => n,
        None => {
            return Err(own("`sort_order` must be an integer."));
        },
    };
    let word = trim(&input_text(inputs, "requires_confirmation")).as_str().to_lowercase();
    match read_answer(&word) {
        Some(requires_confirmation) => Ok(
            ReactionUpdate { display_name, num_required, sort_order, requires_confirmation },
        ),
        None => Err(own("`requires_confirmation` must be `y`/`n`.")),
    }
}

/// What is said where a reaction is gone, on the way to its form.
pub const REACTION_GONE: &'static str = "That reaction no longer exists.";

/// What is said where a dungeon has no reactions.
pub const NOTHING_TO_TUNE: &'static str =
    "No reactions to tune yet — pick some from the multi-selects first.";

/// What is said when the editor is closed.
pub const EDIT_DONE: &'static str = "Saved. Run `/dungeon edit` to come back any time.";

// ----- what is made of what was typed ---------------------------------------------------------------

/// A dungeon is made exactly when all of this holds: it is typed in a server; its name is
/// there and not too long, and neither is its description; the name gives a slug that is
/// not too long and that nobody has; the colour is one, or nothing was typed; and the
/// server has room. It then has what was typed, the slug of its name, and what it was
/// copied from.
pub proof fn dungeons_are_made_from_what_was_typed(f: CreateFacts)
    ensures
        ({
            let name = trimmed(typed_text(f.inputs@, "display_name"@));
            let text = trimmed(typed_text(f.inputs@, "description"@));
            let color = read_color(trimmed(typed_text(f.inputs@, "color"@)));
            let step = create_step_of(f);
            &&& step is Create <==> f.guild_id is Some && 1 <= name.len() <= 80 && text.len() <= 400
                && slug(name).len() > 0 && bytes(slug(name)).len() <= 40 && f.taken == Some(false)
                && color is Ok && f.count is Some && f.count->0 < 150
            &&& step is Create ==> {
                &&& step->Create_0.guild_id == f.guild_id->0
                &&& step->Create_0.name == slug(name)
                &&& step->Create_0.display_name == name
                &&& text.len() == 0 ==> step->Create_0.description is None
                &&& text.len() > 0 ==> step->Create_0.description == Some(text)
                &&& color == Ok::<Option<i32>, ()>(step->Create_0.color)
                &&& step->Create_0.inherit_from == f.inherit
                &&& step->Create_1 == "Created `"@ + slug(name)
                    + "`. Tune reactions, tiers, and text fields below."@
            }
        }),
{
}

/// Who cannot have a dungeon made is told the first thing that stands against it.
pub proof fn refused_dungeons_are_told_why(f: CreateFacts)
    ensures
        ({
            let name = trimmed(typed_text(f.inputs@, "display_name"@));
            let text = trimmed(typed_text(f.inputs@, "description"@));
            let s = slug(name);
            let step = create_step_of(f);
            let named = f.guild_id is Some && 1 <= name.len() <= 80 && text.len() <= 400;
            let slugged = named && s.len() > 0 && bytes(s).len() <= 40;
            &&& f.guild_id is None ==> step == CreateStepView::Refuse(
                "This command only works in a server."@,
            )
            &&& f.guild_id is Some && name.len() == 0 ==> step == CreateStepView::Refuse(
                "Display name can't be empty."@,
            )
            &&& f.guild_id is Some && name.len() > 80 ==> step == CreateStepView::Refuse(
                "Display name is too long (max "@ + dec(80) + ")."@,
            )
            &&& f.guild_id is Some && 1 <= name.len() <= 80 && text.len() > 400 ==> step
                == CreateStepView::Refuse("Description is too long (max "@ + dec(400) + ")."@)
            &&& named && s.len() == 0 ==> step == CreateStepView::Refuse(
                "Display name needs at least one letter or digit so we can derive a slug."@,
            )
            &&& named && bytes(s).len() > 40 && s.len() > 0 ==> step == CreateStepView::Refuse(
                "Derived slug `"@ + s + "` is too long (max "@ + dec(40)
                    + " chars). Pick a shorter name."@,
            )
            &&& slugged && f.taken is None ==> step == CreateStepView::AskTaken(f.guild_id->0, s)
            &&& slugged && f.taken == Some(true) ==> step == CreateStepView::Refuse(
                "Slug `"@ + s
                    + "` already exists for this server (or as a global). Pick a different display name."@,
            )
            &&& slugged && f.taken == Some(false) && read_color(
                trimmed(typed_text(f.inputs@, "color"@)),
            ) is Err ==> step == CreateStepView::Refuse(
                "Color must be a hex triplet like `FF4500`."@,
            )
            &&& slugged && f.taken == Some(false) && read_color(
                trimmed(typed_text(f.inputs@, "color"@)),
            ) is Ok && f.count is None ==> step == CreateStepView::Count(f.guild_id->0)
            &&& slugged && f.taken == Some(false) && read_color(
                trimmed(typed_text(f.inputs@, "color"@)),
            ) is Ok && f.count is Some && f.count->0 >= 150 ==> step == CreateStepView::Refuse(
                "This server is at the cap of "@ + dec(150) + CREATE_CAP_HINT@,
            )
        }),
{
}

/// The texts of a server's own dungeon become what was typed, exactly when the name is
/// there and not too long, the description is not too long, and the colour is one or
/// nothing was typed. Dungeons that all servers share are not changed.
pub proof fn texts_become_what_was_typed(template: Option<DungeonTemplate>, inputs: Seq<TypedInput>)
    ensures
        ({
            let name = trimmed(typed_text(inputs, "display_name"@));
            let text = trimmed(typed_text(inputs, "description"@));
            let color = read_color(trimmed(typed_text(inputs, "color"@)));
            let r = scalars_of(template, inputs);
            &&& r is Ok <==> template is Some && template->0.guild_id is Some && 1 <= name.len()
                <= 80 && text.len() <= 400 && color is Ok
            &&& r is Ok ==> {
                &&& r->Ok_0.guild_id == template->0.guild_id->0
                &&& r->Ok_0.name == template->0.name@
                &&& r->Ok_0.display_name == name
                &&& r->Ok_0.description == text
                &&& color == Ok::<Option<i32>, ()>(r->Ok_0.color)
            }
            &&& template is None ==> r == Err::<ScalarsUpdateView, Seq<char>>(
                "This dungeon no longer exists."@,
            )
            &&& template is Some && template->0.guild_id is None ==> r == Err::<
                ScalarsUpdateView,
                Seq<char>,
            >("Globals can't be edited directly."@)
        }),
{
}

/// A reaction becomes what was typed, exactly when it and its dungeon are there, the
/// dungeon is the server's own, the name has between one and forty characters, the number
/// lies between none and twenty, the place is a number, and the question whether to
/// confirm was answered by yes or no.
pub proof fn reactions_become_what_was_typed(
    reaction: Option<DungeonReaction>,
    parent: Option<DungeonTemplate>,
    inputs: Seq<TypedInput>,
)
    ensures
        ({
            let name = trimmed(typed_text(inputs, "display_name"@));
            let number = int_value(trimmed(typed_text(inputs, "num_required"@)));
            let place = int_value(trimmed(typed_text(inputs, "sort_order"@)));
            let said = lowercase(trimmed(typed_text(inputs, "requires_confirmation"@)));
            let yes = said == "y"@ || said == "yes"@ || said == "true"@ || said == "1"@;
            let no = said == "n"@ || said == "no"@ || said == "false"@ || said == "0"@;
            let r = tune_of(reaction, parent, inputs);
            &&& r is Ok <==> reaction is Some && parent is Some && parent->0.guild_id is Some && 1
                <= name.len() <= 40 && number is Some && 0 <= number->0 <= 20 && place is Some
                && i32::MIN <= place->0 <= i32::MAX && (yes || no)
            &&& r is Ok ==> {
                &&& r->Ok_0.display_name == name
                &&& r->Ok_0.num_required == number->0
                &&& r->Ok_0.sort_order == place->0
                &&& r->Ok_0.requires_confirmation <==> yes
            }
        }),
{
    let said = lowercase(trimmed(typed_text(inputs, "requires_confirmation"@)));
    let yeses = seq!["y", "yes", "true", "1"];
    let noes = seq!["n", "no", "false", "0"];
    assert(yeses[0]@ == "y"@ && yeses[1]@ == "yes"@ && yeses[2]@ == "true"@ && yeses[3]@ == "1"@);
    assert(noes[0]@ == "n"@ && noes[1]@ == "no"@ && noes[2]@ == "false"@ && noes[3]@ == "0"@);
}

/// Who cannot tune a reaction is told the first thing that is wrong.
pub proof fn refused_tunings_are_told_why(
    reaction: Option<DungeonReaction>,
    parent: Option<DungeonTemplate>,
    inputs: Seq<TypedInput>,
)
    ensures
        ({
            let name = trimmed(typed_text(inputs, "display_name"@));
            let number = int_value(trimmed(typed_text(inputs, "num_required"@)));
            let place = int_value(trimmed(typed_text(inputs, "sort_order"@)));
            let r = tune_of(reaction, parent, inputs);
            let own = parent is Some && parent->0.guild_id is Some;
            let named = reaction is Some && own && 1 <= name.len() <= 40;
            let numbered = named && number is Some && 0 <= number->0 <= 20;
            &&& reaction is None ==> r->Err_0 == "That reaction no longer exists."@
            &&& reaction is Some && !own ==> r->Err_0 == STALE_EDITOR@
            &&& reaction is Some && own && !(1 <= name.len() <= 40) ==> r->Err_0
                == "Display name must be 1-"@ + dec(40) + " chars."@
            &&& named && !(number is Some && 0 <= number->0 <= 20) ==> r->Err_0
                == "`num_required` must be a number 0-20."@
            &&& numbered && !(place is Some && i32::MIN <= place->0 <= i32::MAX) ==> r->Err_0
                == "`sort_order` must be an integer."@
            &&& numbered && place is Some && i32::MIN <= place->0 <= i32::MAX && r is Err
                ==> r->Err_0 == "`requires_confirmation` must be `y`/`n`."@
        }),
{
}

/// The view of a `ScalarsUpdate` shows each of its fields as it is.
pub proof fn scalars_update_shows_its_fields(x: ScalarsUpdate)
    ensures
        x@.guild_id == x.guild_id,
        x@.name == x.name@,
        x@.display_name == x.display_name@,
        x@.color == x.color,
        x@.description == x.description@,
{
}

/// The view of a `ReactionUpdate` shows each of its fields as it is.
pub proof fn reaction_update_shows_its_fields(x: ReactionUpdate)
    ensures
        x@.display_name == x.display_name@,
        x@.num_required == x.num_required as int,
        x@.sort_order == x.sort_order as int,
        x@.requires_confirmation == x.requires_confirmation,
{
}

} // verus!
