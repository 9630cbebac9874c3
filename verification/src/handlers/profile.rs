//! What a player's page on RealmEye shows: the name as RealmEye writes it, and the
//! description.

use vstd::prelude::*;

use crate::cli::sync_wiki::html::{document_rows, read_document, row_views, Row, RowView};
use crate::handlers::verify::Profile;
use crate::text::{join, joined, str_views, trim, trimmed, views, views_push};

verus! {

/// The texts of elements, without white space around them.
pub open spec fn line_texts(rows: Seq<RowView>) -> Seq<Seq<char>> {
    Seq::new(rows.len(), |i: int| trimmed(rows[i].element.text))
}

/// What a page shows of a player, over views: nothing where it names none, else the
/// first name and the lines of the description, where any of them holds a text.
pub open spec fn profile_view(names: Seq<RowView>, lines: Seq<RowView>) -> Option<
    (Seq<char>, Option<Seq<char>>),
> {
    if names.len() == 0 {
        None
    } else {
        let text = joined(line_texts(lines), "\n"@);
        Some(
            (
                trimmed(names[0].element.text),
                if trimmed(text).len() == 0 {
                    None
                } else {
                    Some(text)
                },
            ),
        )
    }
}

/// A profile shows what a page shows.
pub open spec fn shows(p: Profile, v: Option<(Seq<char>, Option<Seq<char>>)>) -> bool {
    match (p, v) {
        (Profile::NotFound, None) => true,
        (Profile::Page { canonical_ign, description }, Some((name, text))) => canonical_ign@ == name
            && crate::text::opt_view(description) == text,
        _ => false,
    }
}

/// The profile that the names and the description lines of a page give.
pub fn profile_of_rows(names: &Vec<Row>, lines: &Vec<Row>) -> (r: Profile)
    ensures
        shows(r, profile_view(row_views(names@), row_views(lines@))),
{
    assert(row_views(names@).len() == names@.len());
    if names.len() == 0 {
        return Profile::NotFound;
    }
    assert(row_views(names@)[0] == names@[0]@);
    let mut texts: Vec<String> = Vec::new();
    let ghost all = line_texts(row_views(lines@));
    let mut i: usize = 0;
    assert(views(texts@) =~= all.take(0));
    while i < lines.len()
        invariant
            i <= lines@.len(),
            all == line_texts(row_views(lines@)),
            views(texts@) == all.take(i as int),
        decreases lines@.len() - i,
    {
        broadcast use views_push;

        assert(row_views(lines@)[i as int] == lines@[i as int]@);
        texts.push(trim(&lines[i].element.text));
        i = i + 1;
        assert(all.take(i as int) =~= all.take(i - 1).push(all[i - 1]));
    }
    assert(all.take(i as int) =~= all);
    let text = join(&texts, "\n");
    let description = if trim(&text).as_str().is_empty() {
        None
    } else {
        Some(text)
    };
    Profile::Page { canonical_ign: trim(&names[0].element.text), description }
}

/// What the page of a player shows.
pub open spec fn page_profile(html: Seq<char>) -> Option<(Seq<char>, Option<Seq<char>>)> {
    profile_view(
        document_rows(html, "span.entity-name"@, Seq::empty(), "img"@),
        document_rows(html, ".description-line"@, Seq::empty(), "img"@),
    )
}

/// Read the page of a player.
pub fn parse_profile(html: &str) -> (r: Profile)
    ensures
        shows(r, page_profile(html@)),
{
    let none: [&str; 0] = [];
    assert(str_views(none@) =~= Seq::<Seq<char>>::empty());
    let names = read_document(html, "span.entity-name", none.as_slice(), "img");
    let lines = read_document(html, ".description-line", none.as_slice(), "img");
    profile_of_rows(&names, &lines)
}

/// A page without a player's name is that of nobody; else the player is the first that
/// it names.
pub proof fn pages_name_their_player(names: Seq<RowView>, lines: Seq<RowView>)
    ensures
        profile_view(names, lines) is None <==> names.len() == 0,
        profile_view(names, lines) matches Some(p) ==> p.0 == trimmed(names[0].element.text),
{
}

/// The description of a player is made of all lines of the page in order, each without
/// the white space around it; there is none where they hold nothing else.
pub proof fn descriptions_hold_every_line(names: Seq<RowView>, lines: Seq<RowView>)
    requires
        names.len() > 0,
    ensures
        ({
            let texts = Seq::new(lines.len(), |i: int| trimmed(lines[i].element.text));
            let whole = joined(texts, "\n"@);
            &&& trimmed(whole).len() > 0 ==> (profile_view(names, lines)->0).1 == Some(whole)
            &&& trimmed(whole).len() == 0 ==> (profile_view(names, lines)->0).1 is None
        }),
{
    let texts = Seq::new(lines.len(), |i: int| trimmed(lines[i].element.text));
    assert(line_texts(lines) =~= texts);
}

/// A player's page is read off the name of its entity and the lines of its description.
pub proof fn profiles_are_read_off_their_page(html: Seq<char>)
    ensures
        page_profile(html) == profile_view(
            document_rows(html, "span.entity-name"@, Seq::empty(), "img"@),
            document_rows(html, ".description-line"@, Seq::empty(), "img"@),
        ),
{
}

} // verus!
