//! What is read off an HTML page: the elements that CSS selectors pick, as
//! plain values.

use scraper::{ElementRef, Html, Selector};
use vstd::prelude::*;

use crate::text::{opt_view, str_views};

verus! {

/// An element: its text and the attributes that the scraper looks at.
#[derive(Debug)]
pub struct Element {
    /// The text inside the element, tags left out.
    pub text: String,
    /// The `href` attribute.
    pub href: Option<String>,
    /// The `src` attribute.
    pub src: Option<String>,
    /// The `alt` attribute.
    pub alt: Option<String>,
    /// The `title` attribute.
    pub title: Option<String>,
}

/// What an element is.
pub ghost struct ElementView {
    pub text: Seq<char>,
    pub href: Option<Seq<char>>,
    pub src: Option<Seq<char>>,
    pub alt: Option<Seq<char>>,
    pub title: Option<Seq<char>>,
}

impl View for Element {
    type V = ElementView;

    open spec fn view(&self) -> ElementView {
        ElementView {
            text: self.text@,
            href: opt_view(self.href),
            src: opt_view(self.src),
            alt: opt_view(self.alt),
            title: opt_view(self.title),
        }
    }
}

/// The views of a list of elements.
pub open spec fn element_views(v: Seq<Element>) -> Seq<ElementView> {
    Seq::new(v.len(), |i: int| v[i]@)
}

/// An element inside a row, with the elements picked inside it.
#[derive(Debug)]
pub struct Item {
    /// The element itself.
    pub element: Element,
    /// The elements picked inside it, in page order.
    pub inner: Vec<Element>,
}

/// What an item is.
pub ghost struct ItemView {
    pub element: ElementView,
    pub inner: Seq<ElementView>,
}

impl View for Item {
    type V = ItemView;

    open spec fn view(&self) -> ItemView {
        ItemView { element: self.element@, inner: element_views(self.inner@) }
    }
}

/// The views of a list of items.
pub open spec fn item_views(v: Seq<Item>) -> Seq<ItemView> {
    Seq::new(v.len(), |i: int| v[i]@)
}

/// A row, with the items picked inside it: one group for each selector.
#[derive(Debug)]
pub struct Row {
    /// The row itself.
    pub element: Element,
    /// The items of each selector, in page order.
    pub groups: Vec<Vec<Item>>,
}

/// What a row is.
pub ghost struct RowView {
    pub element: ElementView,
    pub groups: Seq<Seq<ItemView>>,
}

impl View for Row {
    type V = RowView;

    open spec fn view(&self) -> RowView {
        RowView {
            element: self.element@,
            groups: Seq::new(self.groups@.len(), |g: int| item_views(self.groups@[g]@)),
        }
    }
}

/// The views of a list of rows.
pub open spec fn row_views(v: Seq<Row>) -> Seq<RowView> {
    Seq::new(v.len(), |i: int| v[i]@)
}

/// The CSS selectors that the scraper uses.
pub open spec fn known_selector(css: Seq<char>) -> bool {
    ||| css == "table.table-striped tr"@
    ||| css == "td:first-child a"@
    ||| css == "td:nth-child(2) img"@
    ||| css == "td:nth-child(3) img"@
    ||| css == "td:first-child img"@
    ||| css == "td:first-child a[href^=\"/wiki/\"]"@
    ||| css == "img"@
    ||| css == "table tr"@
    ||| css == "span.entity-name"@
    ||| css == ".description-line"@
}

/// The rows that `row_css` picks out of an HTML fragment, each with a group of
/// items for each of `group_css`, each item with the elements that `inner_css`
/// picks inside it.
pub uninterp spec fn fragment_rows(
    html: Seq<char>,
    row_css: Seq<char>,
    group_css: Seq<Seq<char>>,
    inner_css: Seq<char>,
) -> Seq<RowView>;

/// `scraper::Html::parse_fragment`, then `select` with each selector: the rows
/// depend on the page and the selectors alone, and each row has one group for
/// each selector. `scraper::Selector::parse` takes each of the selectors that
/// are admitted here.
#[verifier::external_body]
pub(crate) fn read_fragment(
    html: &str,
    row_css: &str,
    group_css: &[&str],
    inner_css: &str,
) -> (r: Vec<Row>)
    requires
        known_selector(row_css@),
        known_selector(inner_css@),
        forall|i: int| 0 <= i < group_css@.len() ==> known_selector((#[trigger] group_css@[i])@),
    ensures
        row_views(r@) == fragment_rows(html@, row_css@, str_views(group_css@), inner_css@),
        forall|i: int| 0 <= i < r@.len() ==> (#[trigger] r@[i]).groups@.len() == group_css@.len(),
{
    let css = |c: &str| Selector::parse(c).unwrap();
    let el = |e: ElementRef| {
        let [href, src, alt, title] = ["href", "src", "alt", "title"].map(|n| e.attr(n).map(String::from));
        Element { text: e.text().collect(), href, src, alt, title }
    };
    Html::parse_fragment(html).select(&css(row_css)).map(|r| Row {
        element: el(r),
        groups: group_css.iter().map(|c| r.select(&css(c)).map(|i| Item {
            element: el(i),
            inner: i.select(&css(inner_css)).map(el).collect(),
        }).collect()).collect(),
    }).collect()
}

/// The rows that `row_css` picks out of an HTML document, each with a group of
/// items for each of `group_css`, each item with the elements that `inner_css`
/// picks inside it.
pub uninterp spec fn document_rows(
    html: Seq<char>,
    row_css: Seq<char>,
    group_css: Seq<Seq<char>>,
    inner_css: Seq<char>,
) -> Seq<RowView>;

/// `scraper::Html::parse_document`, then `select` with each selector: the rows
/// depend on the page and the selectors alone, and each row has one group for
/// each selector. `scraper::Selector::parse` takes each of the selectors that
/// are admitted here.
#[verifier::external_body]
pub(crate) fn read_document(
    html: &str,
    row_css: &str,
    group_css: &[&str],
    inner_css: &str,
) -> (r: Vec<Row>)
    requires
        known_selector(row_css@),
        known_selector(inner_css@),
        forall|i: int| 0 <= i < group_css@.len() ==> known_selector((#[trigger] group_css@[i])@),
    ensures
        row_views(r@) == document_rows(html@, row_css@, str_views(group_css@), inner_css@),
        forall|i: int| 0 <= i < r@.len() ==> (#[trigger] r@[i]).groups@.len() == group_css@.len(),
{
    let css = |c: &str| Selector::parse(c).unwrap();
    let el = |e: ElementRef| {
        let [href, src, alt, title] = ["href", "src", "alt", "title"].map(|n| e.attr(n).map(String::from));
        Element { text: e.text().collect(), href, src, alt, title }
    };
    Html::parse_document(html).select(&css(row_css)).map(|r| Row {
        element: el(r),
        groups: group_css.iter().map(|c| r.select(&css(c)).map(|i| Item {
            element: el(i),
            inner: i.select(&css(inner_css)).map(el).collect(),
        }).collect()).collect(),
    }).collect()
}

/// The view of a `Element` shows each of its fields as it is.
pub proof fn element_shows_its_fields(x: Element)
    ensures
        x@.text == x.text@,
        x.href is Some ==> x@.href == Some((x.href->0)@),
        x.href is None ==> x@.href is None,
        x.src is Some ==> x@.src == Some((x.src->0)@),
        x.src is None ==> x@.src is None,
        x.alt is Some ==> x@.alt == Some((x.alt->0)@),
        x.alt is None ==> x@.alt is None,
        x.title is Some ==> x@.title == Some((x.title->0)@),
        x.title is None ==> x@.title is None,
{
}

/// The view of a `Item` shows each of its fields as it is.
pub proof fn item_shows_its_fields(x: Item)
    ensures
        x@.element == x.element@,
        x@.inner == element_views(x.inner@),
{
}

} // verus!
