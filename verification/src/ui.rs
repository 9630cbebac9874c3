//! Messages with embeds, buttons, menus and forms, as plain values.
//!
//! Each value has a view over mathematical types, and each builder has a
//! counterpart of the same name on the view, so that a screen is described in
//! contracts the way it is built.

use vstd::prelude::*;

use crate::text::{opt_view, own};

verus! {

// ----- emojis ------------------------------------------------------------------------

/// An emoji on a button or under a message.
#[derive(Debug)]
pub enum Emoji {
    /// A Unicode emoji.
    Unicode(String),
    /// An emoji that was uploaded to Discord.
    Custom {
        /// Whether it moves.
        animated: bool,
        /// Its id.
        id: u64,
        /// Its name.
        name: String,
    },
}

/// What an emoji is.
pub ghost enum EmojiView {
    Unicode(Seq<char>),
    Custom { animated: bool, id: u64, name: Seq<char> },
}

impl View for Emoji {
    type V = EmojiView;

    open spec fn view(&self) -> EmojiView {
        match self {
            Emoji::Unicode(s) => EmojiView::Unicode(s@),
            Emoji::Custom { animated, id, name } => EmojiView::Custom {
                animated: *animated,
                id: *id,
                name: name@,
            },
        }
    }
}

/// The view of an emoji that may be missing.
pub open spec fn opt_emoji_view(e: Option<Emoji>) -> Option<EmojiView> {
    match e {
        Some(x) => Some(x@),
        None => None,
    }
}

// ----- buttons -----------------------------------------------------------------------

/// How a button looks.
#[derive(Debug, Clone, Copy, PartialEq, Eq, Structural)]
pub enum ButtonStyle {
    /// Blurple.
    Primary,
    /// Grey.
    Secondary,
    /// Green.
    Success,
    /// Red.
    Danger,
}

/// A button.
#[derive(Debug)]
pub struct Button {
    /// What a click is known by.
    pub custom_id: String,
    /// What it says.
    pub label: Option<String>,
    /// Its emoji.
    pub emoji: Option<Emoji>,
    /// How it looks.
    pub style: ButtonStyle,
    /// Whether it cannot be clicked.
    pub disabled: bool,
}

/// What a button is.
pub ghost struct ButtonView {
    pub custom_id: Seq<char>,
    pub label: Option<Seq<char>>,
    pub emoji: Option<EmojiView>,
    pub style: ButtonStyle,
    pub disabled: bool,
}

impl View for Button {
    type V = ButtonView;

    open spec fn view(&self) -> ButtonView {
        ButtonView {
            custom_id: self.custom_id@,
            label: opt_view(self.label),
            emoji: opt_emoji_view(self.emoji),
            style: self.style,
            disabled: self.disabled,
        }
    }
}

impl ButtonView {
    /// A button with a label and a style.
    pub open spec fn new(custom_id: Seq<char>, label: Seq<char>, style: ButtonStyle) -> ButtonView {
        ButtonView { custom_id, label: Some(label), emoji: None, style, disabled: false }
    }

    /// The button with a Unicode emoji.
    pub open spec fn unicode(self, e: Seq<char>) -> ButtonView {
        ButtonView { emoji: Some(EmojiView::Unicode(e)), ..self }
    }

    /// The button with an emoji, where there is one.
    pub open spec fn emoji(self, e: Option<EmojiView>) -> ButtonView {
        ButtonView { emoji: e, ..self }
    }

    /// The button, enabled or not.
    pub open spec fn disabled(self, d: bool) -> ButtonView {
        ButtonView { disabled: d, ..self }
    }
}

impl Button {
    /// A button with a label and a style.
    pub fn new(custom_id: &str, label: &str, style: ButtonStyle) -> (r: Self)
        ensures
            r@ == ButtonView::new(custom_id@, label@, style),
    {
        Button {
            custom_id: own(custom_id),
            label: Some(own(label)),
            emoji: None,
            style,
            disabled: false,
        }
    }

    /// The button with a Unicode emoji.
    pub fn unicode(self, e: &str) -> (r: Self)
        ensures
            r@ == self@.unicode(e@),
    {
        Button { emoji: Some(Emoji::Unicode(own(e))), ..self }
    }

    /// The button with an emoji, where there is one.
    pub fn emoji(self, e: Option<Emoji>) -> (r: Self)
        ensures
            r@ == self@.emoji(opt_emoji_view(e)),
    {
        Button { emoji: e, ..self }
    }

    /// The button, enabled or not.
    pub fn disabled(self, d: bool) -> (r: Self)
        ensures
            r@ == self@.disabled(d),
    {
        Button { disabled: d, ..self }
    }
}

/// Buttons in a row.
#[derive(Debug)]
pub struct Buttons {
    /// The buttons, from left to right.
    pub list: Vec<Button>,
}

impl View for Buttons {
    type V = Seq<ButtonView>;

    open spec fn view(&self) -> Seq<ButtonView> {
        Seq::new(self.list@.len(), |i: int| self.list@[i]@)
    }
}

impl Buttons {
    /// No buttons.
    pub fn new() -> (r: Self)
        ensures
            r@ == Seq::<ButtonView>::empty(),
    {
        let r = Buttons { list: Vec::new() };
        assert(r@ =~= Seq::<ButtonView>::empty());
        r
    }

    /// One more button.
    pub fn push(self, b: Button) -> (r: Self)
        ensures
            r@ == self@.push(b@),
    {
        let ghost before = self@;
        let mut list = self.list;
        list.push(b);
        let r = Buttons { list };
        assert(r@ =~= before.push(b@));
        r
    }

    /// One more button, where it is wanted.
    pub fn push_if(self, wanted: bool, b: Button) -> (r: Self)
        ensures
            r@ == push_if(self@, wanted, b@),
    {
        if wanted {
            self.push(b)
        } else {
            self
        }
    }
}

/// A list with one more entry, where it is wanted.
pub open spec fn push_if<T>(s: Seq<T>, wanted: bool, e: T) -> Seq<T> {
    if wanted {
        s.push(e)
    } else {
        s
    }
}

// ----- menus -------------------------------------------------------------------------

/// An entry of a menu.
#[derive(Debug)]
pub struct Choice {
    /// What it says.
    pub label: String,
    /// What it stands for.
    pub value: String,
    /// What is said below it.
    pub description: Option<String>,
    /// Its emoji.
    pub emoji: Option<Emoji>,
    /// Whether it is selected at first.
    pub selected: bool,
}

/// What an entry of a menu is.
pub ghost struct ChoiceView {
    pub label: Seq<char>,
    pub value: Seq<char>,
    pub description: Option<Seq<char>>,
    pub emoji: Option<EmojiView>,
    pub selected: bool,
}

impl View for Choice {
    type V = ChoiceView;

    open spec fn view(&self) -> ChoiceView {
        ChoiceView {
            label: self.label@,
            value: self.value@,
            description: opt_view(self.description),
            emoji: opt_emoji_view(self.emoji),
            selected: self.selected,
        }
    }
}

impl ChoiceView {
    /// An entry, selected at first or not.
    pub open spec fn new(label: Seq<char>, value: Seq<char>, selected: bool) -> ChoiceView {
        ChoiceView { label, value, description: None, emoji: None, selected }
    }

    /// The entry with a line below it.
    pub open spec fn description(self, d: Option<Seq<char>>) -> ChoiceView {
        ChoiceView { description: d, ..self }
    }

    /// The entry with an emoji, where there is one.
    pub open spec fn emoji(self, e: Option<EmojiView>) -> ChoiceView {
        ChoiceView { emoji: e, ..self }
    }
}

impl Choice {
    /// An entry, selected at first or not.
    pub fn new(label: &str, value: &str, selected: bool) -> (r: Self)
        ensures
            r@ == ChoiceView::new(label@, value@, selected),
    {
        Choice { label: own(label), value: own(value), description: None, emoji: None, selected }
    }

    /// The entry with a line below it.
    pub fn description(self, d: Option<String>) -> (r: Self)
        ensures
            r@ == self@.description(opt_view(d)),
    {
        Choice { description: d, ..self }
    }

    /// The entry with an emoji, where there is one.
    pub fn emoji(self, e: Option<Emoji>) -> (r: Self)
        ensures
            r@ == self@.emoji(opt_emoji_view(e)),
    {
        Choice { emoji: e, ..self }
    }
}

/// The views of a list of entries.
pub open spec fn choice_views(v: Seq<Choice>) -> Seq<ChoiceView> {
    Seq::new(v.len(), |i: int| v[i]@)
}

/// Adding an entry adds its view.
pub broadcast proof fn choice_views_push(v: Seq<Choice>, c: Choice)
    ensures
        #[trigger] choice_views(v.push(c)) == choice_views(v).push(c@),
{
    assert(choice_views(v.push(c)) =~= choice_views(v).push(c@));
}

/// What a menu offers.
#[derive(Debug)]
pub enum MenuKind {
    /// Entries of its own.
    Choices(Vec<Choice>),
    /// The text channels of the server; those selected at first.
    TextChannels(Option<Vec<u64>>),
    /// The roles of the server; those selected at first.
    Roles(Option<Vec<u64>>),
    /// The members of the server; those selected at first.
    Users(Option<Vec<u64>>),
}

/// The ids of a list that may be missing.
pub open spec fn opt_ids(v: Option<Vec<u64>>) -> Option<Seq<u64>> {
    match v {
        Some(ids) => Some(ids@),
        None => None,
    }
}

/// What a menu offers, over views.
pub ghost enum MenuKindView {
    Choices(Seq<ChoiceView>),
    TextChannels(Option<Seq<u64>>),
    Roles(Option<Seq<u64>>),
    Users(Option<Seq<u64>>),
}

impl View for MenuKind {
    type V = MenuKindView;

    open spec fn view(&self) -> MenuKindView {
        match self {
            MenuKind::Choices(v) => MenuKindView::Choices(choice_views(v@)),
            MenuKind::TextChannels(v) => MenuKindView::TextChannels(opt_ids(*v)),
            MenuKind::Roles(v) => MenuKindView::Roles(opt_ids(*v)),
            MenuKind::Users(v) => MenuKindView::Users(opt_ids(*v)),
        }
    }
}

/// A menu.
#[derive(Debug)]
pub struct Menu {
    /// What a selection is known by.
    pub custom_id: String,
    /// What it offers.
    pub kind: MenuKind,
    /// What it says while nothing is selected.
    pub placeholder: String,
    /// How many entries must be selected.
    pub min: u8,
    /// How many entries can be selected.
    pub max: u8,
}

/// What a menu is.
pub ghost struct MenuView {
    pub custom_id: Seq<char>,
    pub kind: MenuKindView,
    pub placeholder: Seq<char>,
    pub min: u8,
    pub max: u8,
}

impl View for Menu {
    type V = MenuView;

    open spec fn view(&self) -> MenuView {
        MenuView {
            custom_id: self.custom_id@,
            kind: self.kind@,
            placeholder: self.placeholder@,
            min: self.min,
            max: self.max,
        }
    }
}

impl MenuView {
    /// A menu.
    pub open spec fn new(
        custom_id: Seq<char>,
        kind: MenuKindView,
        placeholder: Seq<char>,
        min: u8,
        max: u8,
    ) -> MenuView {
        MenuView { custom_id, kind, placeholder, min, max }
    }
}

impl Menu {
    /// A menu.
    pub fn new(custom_id: &str, kind: MenuKind, placeholder: &str, min: u8, max: u8) -> (r: Self)
        ensures
            r@ == MenuView::new(custom_id@, kind@, placeholder@, min, max),
    {
        Menu { custom_id: own(custom_id), kind, placeholder: own(placeholder), min, max }
    }
}

// ----- rows --------------------------------------------------------------------------

/// A row below a message.
#[derive(Debug)]
pub enum Row {
    /// Buttons.
    Buttons(Buttons),
    /// A menu.
    Menu(Menu),
}

/// What a row is.
pub ghost enum RowView {
    Buttons(Seq<ButtonView>),
    Menu(MenuView),
}

impl View for Row {
    type V = RowView;

    open spec fn view(&self) -> RowView {
        match self {
            Row::Buttons(b) => RowView::Buttons(b@),
            Row::Menu(m) => RowView::Menu(m@),
        }
    }
}

/// The rows below a message.
#[derive(Debug)]
pub struct Rows {
    /// The rows, from top to bottom.
    pub list: Vec<Row>,
}

impl View for Rows {
    type V = Seq<RowView>;

    open spec fn view(&self) -> Seq<RowView> {
        Seq::new(self.list@.len(), |i: int| self.list@[i]@)
    }
}

impl Rows {
    /// No rows.
    pub fn new() -> (r: Self)
        ensures
            r@ == Seq::<RowView>::empty(),
    {
        let r = Rows { list: Vec::new() };
        assert(r@ =~= Seq::<RowView>::empty());
        r
    }

    fn push(self, row: Row) -> (r: Self)
        ensures
            r@ == self@.push(row@),
    {
        let ghost before = self@;
        let mut list = self.list;
        list.push(row);
        let r = Rows { list };
        assert(r@ =~= before.push(row@));
        r
    }

    /// One more row, of buttons.
    pub fn buttons(self, b: Buttons) -> (r: Self)
        ensures
            r@ == self@.push(RowView::Buttons(b@)),
    {
        self.push(Row::Buttons(b))
    }

    /// One more row, a menu.
    pub fn menu(self, m: Menu) -> (r: Self)
        ensures
            r@ == self@.push(RowView::Menu(m@)),
    {
        self.push(Row::Menu(m))
    }
}

// ----- embeds ------------------------------------------------------------------------

/// A field of an embed.
#[derive(Debug)]
pub struct Field {
    /// Its heading.
    pub name: String,
    /// Its text.
    pub value: String,
    /// Whether it stands beside others.
    pub inline: bool,
}

/// What a field is.
pub ghost struct FieldView {
    pub name: Seq<char>,
    pub value: Seq<char>,
    pub inline: bool,
}

impl View for Field {
    type V = FieldView;

    open spec fn view(&self) -> FieldView {
        FieldView { name: self.name@, value: self.value@, inline: self.inline }
    }
}

/// The views of a list of fields.
pub open spec fn field_views(v: Seq<Field>) -> Seq<FieldView> {
    Seq::new(v.len(), |i: int| v[i]@)
}

/// Adding a field adds its view.
pub broadcast proof fn field_views_push(v: Seq<Field>, f: Field)
    ensures
        #[trigger] field_views(v.push(f)) == field_views(v).push(f@),
{
    assert(field_views(v.push(f)) =~= field_views(v).push(f@));
}

/// An embed.
#[derive(Debug)]
pub struct Embed {
    /// Its heading.
    pub title: Option<String>,
    /// Its text.
    pub description: Option<String>,
    /// The colour at its side.
    pub color: Option<u32>,
    /// Its fields.
    pub fields: Vec<Field>,
    /// Address of the small image beside it.
    pub thumbnail: Option<String>,
    /// The line below it.
    pub footer: Option<String>,
}

/// What an embed is.
pub ghost struct EmbedView {
    pub title: Option<Seq<char>>,
    pub description: Option<Seq<char>>,
    pub color: Option<u32>,
    pub fields: Seq<FieldView>,
    pub thumbnail: Option<Seq<char>>,
    pub footer: Option<Seq<char>>,
}

impl View for Embed {
    type V = EmbedView;

    open spec fn view(&self) -> EmbedView {
        EmbedView {
            title: opt_view(self.title),
            description: opt_view(self.description),
            color: self.color,
            fields: field_views(self.fields@),
            thumbnail: opt_view(self.thumbnail),
            footer: opt_view(self.footer),
        }
    }
}

impl EmbedView {
    /// An embed with a heading, a text and a colour.
    pub open spec fn new(title: Seq<char>, description: Seq<char>, color: u32) -> EmbedView {
        EmbedView {
            title: Some(title),
            description: Some(description),
            color: Some(color),
            fields: Seq::empty(),
            thumbnail: None,
            footer: None,
        }
    }

    /// An embed with a heading and a colour, without a text.
    pub open spec fn plain(title: Seq<char>, color: u32) -> EmbedView {
        EmbedView {
            title: Some(title),
            description: None,
            color: Some(color),
            fields: Seq::empty(),
            thumbnail: None,
            footer: None,
        }
    }

    /// The embed with these fields.
    pub open spec fn fields(self, fields: Seq<FieldView>) -> EmbedView {
        EmbedView { fields, ..self }
    }

    /// The embed with a small image, where there is one.
    pub open spec fn thumbnail(self, url: Option<Seq<char>>) -> EmbedView {
        EmbedView { thumbnail: url, ..self }
    }

    /// The embed with a line below it.
    pub open spec fn footer(self, text: Seq<char>) -> EmbedView {
        EmbedView { footer: Some(text), ..self }
    }
}

impl Embed {
    /// An embed with a heading, a text and a colour.
    pub fn new(title: &str, description: &str, color: u32) -> (r: Self)
        ensures
            r@ == EmbedView::new(title@, description@, color),
    {
        let r = Embed {
            title: Some(own(title)),
            description: Some(own(description)),
            color: Some(color),
            fields: Vec::new(),
            thumbnail: None,
            footer: None,
        };
        assert(r@.fields =~= Seq::<FieldView>::empty());
        r
    }

    /// An embed with a heading and a colour, without a text.
    pub fn plain(title: &str, color: u32) -> (r: Self)
        ensures
            r@ == EmbedView::plain(title@, color),
    {
        let r = Embed {
            title: Some(own(title)),
            description: None,
            color: Some(color),
            fields: Vec::new(),
            thumbnail: None,
            footer: None,
        };
        assert(r@.fields =~= Seq::<FieldView>::empty());
        r
    }

    /// The embed with these fields.
    pub fn fields(self, fields: Vec<Field>) -> (r: Self)
        ensures
            r@ == self@.fields(field_views(fields@)),
    {
        Embed { fields, ..self }
    }

    /// The embed with a small image, where there is one.
    pub fn thumbnail(self, url: Option<String>) -> (r: Self)
        ensures
            r@ == self@.thumbnail(opt_view(url)),
    {
        Embed { thumbnail: url, ..self }
    }

    /// The embed with a line below it.
    pub fn footer(self, text: &str) -> (r: Self)
        ensures
            r@ == self@.footer(text@),
    {
        Embed { footer: Some(own(text)), ..self }
    }
}

/// An embed with the rows below it.
#[derive(Debug)]
pub struct Screen {
    /// The embed.
    pub embed: Embed,
    /// The rows.
    pub rows: Rows,
}

/// What a screen is.
pub ghost struct ScreenView {
    pub embed: EmbedView,
    pub rows: Seq<RowView>,
}

impl View for Screen {
    type V = ScreenView;

    open spec fn view(&self) -> ScreenView {
        ScreenView { embed: self.embed@, rows: self.rows@ }
    }
}

// ----- forms -------------------------------------------------------------------------

/// A line of a form.
#[derive(Debug)]
pub struct Input {
    /// What its text is known by.
    pub custom_id: String,
    /// What is asked.
    pub label: String,
    /// Whether the text can have several lines.
    pub paragraph: bool,
    /// What it says while it is empty.
    pub placeholder: Option<String>,
    /// What it holds at first.
    pub value: Option<String>,
    /// Whether it must be filled in.
    pub required: bool,
    /// How many characters it must have.
    pub min_length: Option<u16>,
    /// How many characters it can have.
    pub max_length: Option<u16>,
}

/// What a line of a form is.
pub ghost struct InputView {
    pub custom_id: Seq<char>,
    pub label: Seq<char>,
    pub paragraph: bool,
    pub placeholder: Option<Seq<char>>,
    pub value: Option<Seq<char>>,
    pub required: bool,
    pub min_length: Option<u16>,
    pub max_length: Option<u16>,
}

impl View for Input {
    type V = InputView;

    open spec fn view(&self) -> InputView {
        InputView {
            custom_id: self.custom_id@,
            label: self.label@,
            paragraph: self.paragraph,
            placeholder: opt_view(self.placeholder),
            value: opt_view(self.value),
            required: self.required,
            min_length: self.min_length,
            max_length: self.max_length,
        }
    }
}

impl InputView {
    /// A short line that must be filled in.
    pub open spec fn short(label: Seq<char>, custom_id: Seq<char>) -> InputView {
        InputView {
            custom_id,
            label,
            paragraph: false,
            placeholder: None,
            value: None,
            required: true,
            min_length: None,
            max_length: None,
        }
    }

    /// A text of several lines that must be filled in.
    pub open spec fn long(label: Seq<char>, custom_id: Seq<char>) -> InputView {
        InputView { paragraph: true, ..InputView::short(label, custom_id) }
    }

    /// The line with what it says while it is empty.
    pub open spec fn placeholder(self, t: Seq<char>) -> InputView {
        InputView { placeholder: Some(t), ..self }
    }

    /// The line with what it holds at first.
    pub open spec fn value(self, t: Seq<char>) -> InputView {
        InputView { value: Some(t), ..self }
    }

    /// The line, required or not.
    pub open spec fn required(self, b: bool) -> InputView {
        InputView { required: b, ..self }
    }

    /// The line with the fewest characters it takes.
    pub open spec fn min_length(self, n: u16) -> InputView {
        InputView { min_length: Some(n), ..self }
    }

    /// The line with the most characters it takes.
    pub open spec fn max_length(self, n: u16) -> InputView {
        InputView { max_length: Some(n), ..self }
    }
}

impl Input {
    /// A short line that must be filled in.
    pub fn short(label: &str, custom_id: &str) -> (r: Self)
        ensures
            r@ == InputView::short(label@, custom_id@),
    {
        Input {
            custom_id: own(custom_id),
            label: own(label),
            paragraph: false,
            placeholder: None,
            value: None,
            required: true,
            min_length: None,
            max_length: None,
        }
    }

    /// A text of several lines that must be filled in.
    pub fn long(label: &str, custom_id: &str) -> (r: Self)
        ensures
            r@ == InputView::long(label@, custom_id@),
    {
        Input { paragraph: true, ..Input::short(label, custom_id) }
    }

    /// The line with what it says while it is empty.
    pub fn placeholder(self, t: &str) -> (r: Self)
        ensures
            r@ == self@.placeholder(t@),
    {
        Input { placeholder: Some(own(t)), ..self }
    }

    /// The line with what it holds at first.
    pub fn value(self, t: &str) -> (r: Self)
        ensures
            r@ == self@.value(t@),
    {
        Input { value: Some(own(t)), ..self }
    }

    /// The line, required or not.
    pub fn required(self, b: bool) -> (r: Self)
        ensures
            r@ == self@.required(b),
    {
        Input { required: b, ..self }
    }

    /// The line with the fewest characters it takes.
    pub fn min_length(self, n: u16) -> (r: Self)
        ensures
            r@ == self@.min_length(n),
    {
        Input { min_length: Some(n), ..self }
    }

    /// The line with the most characters it takes.
    pub fn max_length(self, n: u16) -> (r: Self)
        ensures
            r@ == self@.max_length(n),
    {
        Input { max_length: Some(n), ..self }
    }
}

/// A form.
#[derive(Debug)]
pub struct Form {
    /// What its submission is known by.
    pub custom_id: String,
    /// Its heading.
    pub title: String,
    /// Its lines.
    pub inputs: Vec<Input>,
}

/// What a form is.
pub ghost struct FormView {
    pub custom_id: Seq<char>,
    pub title: Seq<char>,
    pub inputs: Seq<InputView>,
}

impl View for Form {
    type V = FormView;

    open spec fn view(&self) -> FormView {
        FormView {
            custom_id: self.custom_id@,
            title: self.title@,
            inputs: Seq::new(self.inputs@.len(), |i: int| self.inputs@[i]@),
        }
    }
}

impl FormView {
    /// A form without lines.
    pub open spec fn new(custom_id: Seq<char>, title: Seq<char>) -> FormView {
        FormView { custom_id, title, inputs: Seq::empty() }
    }

    /// The form with one more line.
    pub open spec fn input(self, i: InputView) -> FormView {
        FormView { inputs: self.inputs.push(i), ..self }
    }
}

impl Form {
    /// A form without lines.
    pub fn new(custom_id: &str, title: &str) -> (r: Self)
        ensures
            r@ == FormView::new(custom_id@, title@),
    {
        let r = Form { custom_id: own(custom_id), title: own(title), inputs: Vec::new() };
        assert(r@.inputs =~= Seq::<InputView>::empty());
        r
    }

    /// The form with one more line.
    pub fn input(self, i: Input) -> (r: Self)
        ensures
            r@ == self@.input(i@),
    {
        let ghost before = self@;
        let mut inputs = self.inputs;
        inputs.push(i);
        let r = Form { custom_id: self.custom_id, title: self.title, inputs };
        assert(r@.inputs =~= before.inputs.push(i@));
        r
    }
}

/// The view of a `Button` shows each of its fields as it is.
pub proof fn button_shows_its_fields(x: Button)
    ensures
        x@.custom_id == x.custom_id@,
        x.label is Some ==> x@.label == Some((x.label->0)@),
        x.label is None ==> x@.label is None,
        x@.emoji == opt_emoji_view(x.emoji),
        x@.style == x.style,
        x@.disabled == x.disabled,
{
}

/// The view of a `Choice` shows each of its fields as it is.
pub proof fn choice_shows_its_fields(x: Choice)
    ensures
        x@.label == x.label@,
        x@.value == x.value@,
        x.description is Some ==> x@.description == Some((x.description->0)@),
        x.description is None ==> x@.description is None,
        x@.emoji == opt_emoji_view(x.emoji),
        x@.selected == x.selected,
{
}

/// The view of a `Menu` shows each of its fields as it is.
pub proof fn menu_shows_its_fields(x: Menu)
    ensures
        x@.custom_id == x.custom_id@,
        x@.kind == x.kind@,
        x@.placeholder == x.placeholder@,
        x@.min == x.min,
        x@.max == x.max,
{
}

/// The view of a `Field` shows each of its fields as it is.
pub proof fn field_shows_its_fields(x: Field)
    ensures
        x@.name == x.name@,
        x@.value == x.value@,
        x@.inline == x.inline,
{
}

/// The view of a `Embed` shows each of its fields as it is.
pub proof fn embed_shows_its_fields(x: Embed)
    ensures
        x.title is Some ==> x@.title == Some((x.title->0)@),
        x.title is None ==> x@.title is None,
        x.description is Some ==> x@.description == Some((x.description->0)@),
        x.description is None ==> x@.description is None,
        x@.color == x.color,
        x@.fields == field_views(x.fields@),
        x.thumbnail is Some ==> x@.thumbnail == Some((x.thumbnail->0)@),
        x.thumbnail is None ==> x@.thumbnail is None,
        x.footer is Some ==> x@.footer == Some((x.footer->0)@),
        x.footer is None ==> x@.footer is None,
{
}

/// The view of a `Screen` shows each of its fields as it is.
pub proof fn screen_shows_its_fields(x: Screen)
    ensures
        x@.embed == x.embed@,
        x@.rows == x.rows@,
{
}

/// The view of a `Input` shows each of its fields as it is.
pub proof fn input_shows_its_fields(x: Input)
    ensures
        x@.custom_id == x.custom_id@,
        x@.label == x.label@,
        x@.paragraph == x.paragraph,
        x.placeholder is Some ==> x@.placeholder == Some((x.placeholder->0)@),
        x.placeholder is None ==> x@.placeholder is None,
        x.value is Some ==> x@.value == Some((x.value->0)@),
        x.value is None ==> x@.value is None,
        x@.required == x.required,
        x@.min_length == x.min_length,
        x@.max_length == x.max_length,
{
}

/// The view of a `Form` shows each of its fields as it is.
pub proof fn form_shows_its_fields(x: Form)
    ensures
        x@.custom_id == x.custom_id@,
        x@.title == x.title@,
{
}

} // verus!
