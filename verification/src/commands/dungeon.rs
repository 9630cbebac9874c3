//! `/dungeon`: the list of dungeons, and when one can be made or edited.

use vstd::prelude::*;

use crate::db::models::DungeonTemplate;
use crate::limits::CUSTOM_DUNGEONS_PER_GUILD;
use crate::text::{cat3, cat4, cat5, dec, dec_i64, dec_usize, own};
use crate::ui::{field_views, field_views_push, Embed, EmbedView, Field, FieldView};

verus! {

/// The most fields that an embed can have.
pub const FIELDS_PER_PAGE: usize = 25;

/// The field of a dungeon.
pub open spec fn dungeon_field(t: DungeonTemplate) -> FieldView {
    FieldView {
        name: t.display_name@ + " ("@ + (if t.guild_id is Some {
            "custom"@
        } else {
            "global"@
        }) + ")"@,
        value: "`"@ + t.name@ + "`"@ + (if t.requires_vc {
            " • VC raid"@
        } else {
            ""@
        }),
        inline: true,
    }
}

/// The fields of dungeons.
pub open spec fn dungeon_fields(templates: Seq<DungeonTemplate>) -> Seq<FieldView> {
    Seq::new(templates.len(), |i: int| dungeon_field(templates[i]))
}

/// How many pages some fields take.
pub open spec fn page_count(n: int) -> int {
    (n + FIELDS_PER_PAGE - 1) / FIELDS_PER_PAGE as int
}

/// The heading of a page.
pub open spec fn page_title(page: int, pages: int) -> Seq<char> {
    if pages > 1 {
        "Dungeon Templates ("@ + dec(page + 1) + "/"@ + dec(pages) + ")"@
    } else {
        "Dungeon Templates"@
    }
}

/// The fields on a page: 25 of them, or what is left.
pub open spec fn page_fields(fields: Seq<FieldView>, page: int) -> Seq<FieldView> {
    let start = page * FIELDS_PER_PAGE;
    let end = if start + FIELDS_PER_PAGE <= fields.len() {
        start + FIELDS_PER_PAGE
    } else {
        fields.len() as int
    };
    fields.subrange(start, end)
}

/// The pages of the list of dungeons.
pub open spec fn dungeon_pages(templates: Seq<DungeonTemplate>) -> Seq<EmbedView> {
    let fields = dungeon_fields(templates);
    let pages = page_count(fields.len() as int);
    Seq::new(
        pages as nat,
        |p: int| EmbedView::plain(page_title(p, pages), 0x5865F2).fields(page_fields(fields, p)),
    )
}

/// The views of a list of embeds.
pub open spec fn embed_views(v: Seq<Embed>) -> Seq<EmbedView> {
    Seq::new(v.len(), |i: int| v[i]@)
}

fn show_dungeon(t: &DungeonTemplate) -> (r: Field)
    ensures
        r@ == dungeon_field(*t),
{
    let scope = if t.guild_id.is_some() {
        "custom"
    } else {
        "global"
    };
    let vc = if t.requires_vc {
        " • VC raid"
    } else {
        ""
    };
    Field {
        name: cat4(&t.display_name, " (", scope, ")"),
        value: cat4("`", &t.name, "`", vc),
        inline: true,
    }
}

fn one_page(templates: &Vec<DungeonTemplate>, start: usize, end: usize) -> (r: Vec<Field>)
    requires
        start <= end <= templates@.len(),
    ensures
        field_views(r@) == dungeon_fields(templates@).subrange(start as int, end as int),
{
    let mut fields: Vec<Field> = Vec::new();
    let ghost all = dungeon_fields(templates@);
    let mut i: usize = start;
    assert(field_views(fields@) =~= all.subrange(start as int, start as int));
    while i < end
        invariant
            start <= i <= end <= templates@.len(),
            all == dungeon_fields(templates@),
            field_views(fields@) == all.subrange(start as int, i as int),
        decreases end - i,
    {
        broadcast use field_views_push;

        fields.push(show_dungeon(&templates[i]));
        i = i + 1;
        assert(all.subrange(start as int, i as int) =~= all.subrange(start as int, i - 1).push(
            all[i - 1],
        ));
    }
    fields
}

/// What is said where there is no dungeon.
pub const NO_TEMPLATES: &'static str =
    "No dungeon templates found. Run `starship sync-wiki` to populate defaults.";

/// The pages of the list of dungeons, 25 dungeons to a page; none where there is no
/// dungeon.
pub fn list_pages(templates: &Vec<DungeonTemplate>) -> (r: Vec<Embed>)
    ensures
        embed_views(r@) == dungeon_pages(templates@),
{
    let n: usize = templates.len();
    let pages: usize = if n % FIELDS_PER_PAGE == 0 {
        n / FIELDS_PER_PAGE
    } else {
        n / FIELDS_PER_PAGE + 1
    };
    let ghost all = dungeon_pages(templates@);
    let ghost fields = dungeon_fields(templates@);
    assert(pages == page_count(n as int));
    let mut out: Vec<Embed> = Vec::new();
    let mut p: usize = 0;
    assert(embed_views(out@) =~= all.take(0));
    while p < pages
        invariant
            p <= pages,
            n == templates@.len(),
            pages == page_count(n as int),
            all == dungeon_pages(templates@),
            fields == dungeon_fields(templates@),
            embed_views(out@) == all.take(p as int),
        decreases pages - p,
    {
        assert(p * 25 < n);
        let start: usize = p * FIELDS_PER_PAGE;
        let end: usize = if n - start >= FIELDS_PER_PAGE {
            start + FIELDS_PER_PAGE
        } else {
            n
        };
        let title = if pages > 1 {
            cat5("Dungeon Templates (", &dec_usize(p + 1), "/", &dec_usize(pages), ")")
        } else {
            own("Dungeon Templates")
        };
        let ghost before = embed_views(out@);
        let page = Embed::plain(&title, 0x5865F2).fields(one_page(templates, start, end));
        out.push(page);
        p = p + 1;
        assert(embed_views(out@) =~= before.push(page@));
        assert(all.take(p as int) =~= all.take(p - 1).push(all[p - 1]));
    }
    assert(all.take(p as int) =~= all);
    out
}

/// No page has more fields than an embed can have.
pub proof fn pages_fit(templates: Seq<DungeonTemplate>, p: int)
    requires
        0 <= p < dungeon_pages(templates).len(),
    ensures
        0 < dungeon_pages(templates)[p].fields.len() <= FIELDS_PER_PAGE,
{
    let n = templates.len() as int;
    assert(p * 25 < n);
}

// ----- making and editing ---------------------------------------------------------------------

/// A server can have another dungeon of its own.
pub open spec fn below_cap(count: i64) -> bool {
    count < CUSTOM_DUNGEONS_PER_GUILD
}

/// What can be done where a server has as many dungeons of its own as it can.
pub const CREATE_CAP_HINT: &'static str = " custom dungeons. \
    Delete one with `/dungeon delete` before creating another.";

/// Check whether another dungeon can be made: what is said where it cannot.
pub fn create_check(count: i64) -> (r: Option<String>)
    ensures
        r is None == below_cap(count),
        r matches Some(t) ==> t@ == "This server is at the cap of "@ + dec(
            CUSTOM_DUNGEONS_PER_GUILD as int,
        ) + CREATE_CAP_HINT@,
{
    if count >= CUSTOM_DUNGEONS_PER_GUILD {
        Some(
            cat3(
                "This server is at the cap of ",
                &dec_i64(CUSTOM_DUNGEONS_PER_GUILD),
                CREATE_CAP_HINT,
            ),
        )
    } else {
        None
    }
}

/// What can be done where a shared dungeon cannot be forked.
pub const FORK_CAP_HINT: &'static str = "-dungeon cap. Delete an unused custom dungeon with \
    `/dungeon delete` first.";

/// What is said of a fork.
pub const FORK_NOTE: &'static str =
    "` into a guild-specific copy. Edits below apply only to this \
    server's copy; the global stays untouched.";

/// What to do about a dungeon that is to be edited.
#[derive(Debug)]
pub enum EditStep {
    /// It is not there, or cannot be forked: say this.
    Refuse(String),
    /// Count the server's own dungeons, since a shared dungeon is forked.
    AskCount,
    /// Fork this shared dungeon, and say this.
    Fork(i32, String),
    /// Edit this dungeon of the server.
    Edit(i32),
}

/// What to do about a dungeon that is to be edited: a dungeon that all servers
/// share is never changed itself, but forked, where the server can have another.
pub fn edit_step(name: &str, target: &Option<DungeonTemplate>, count: Option<i64>) -> (r: EditStep)
    ensures
        match (*target, r) {
            (None, EditStep::Refuse(t)) => t@ == "No dungeon named `"@ + name@
                + "` found. Try the autocomplete list."@,
            (Some(d), EditStep::Edit(id)) => d.guild_id is Some && id == d.id,
            (Some(d), EditStep::AskCount) => d.guild_id is None && count is None,
            (Some(d), EditStep::Fork(id, note)) => d.guild_id is None && count is Some
                && below_cap(count->0) && id == d.id && note@ == "Forked global `"@ + d.name@
                + FORK_NOTE@,
            (Some(d), EditStep::Refuse(t)) => d.guild_id is None && count is Some && !below_cap(
                count->0,
            ) && t@
                == "Editing a global forks it into a guild-specific copy, but this server is already at the "@
                + dec(CUSTOM_DUNGEONS_PER_GUILD as int) + FORK_CAP_HINT@,
            _ => false,
        },
{
    match target {
        None => EditStep::Refuse(
            cat3("No dungeon named `", name, "` found. Try the autocomplete list."),
        ),
        Some(d) => if d.guild_id.is_some() {
            EditStep::Edit(d.id)
        } else {
            match count {
                None => EditStep::AskCount,
                Some(n) => if n >= CUSTOM_DUNGEONS_PER_GUILD {
                    EditStep::Refuse(
                        cat3(
                            "Editing a global forks it into a guild-specific copy, but this server is already at the ",
                            &dec_i64(CUSTOM_DUNGEONS_PER_GUILD),
                            FORK_CAP_HINT,
                        ),
                    )
                } else {
                    EditStep::Fork(d.id, cat3("Forked global `", &d.name, FORK_NOTE))
                },
            }
        },
    }
}

/// What is said after a deletion.
pub fn delete_reply(deleted: bool, name: &str) -> (r: String)
    ensures
        r@ == (if deleted {
            "Deleted template `"@ + name@ + "`."@
        } else {
            "No server-specific template named `"@ + name@
                + "` found. Global built-in templates cannot be deleted."@
        }),
{
    if deleted {
        cat3("Deleted template `", name, "`.")
    } else {
        cat3(
            "No server-specific template named `",
            name,
            "` found. Global built-in templates cannot be deleted.",
        )
    }
}

/// Each dungeon is listed, at its place on its page: under its name, marked as the
/// server's own or as everybody's, with its slug and with whether it needs a voice channel.
pub proof fn every_dungeon_is_listed(templates: Seq<DungeonTemplate>, i: int)
    requires
        0 <= i < templates.len(),
    ensures
        ({
            let pages = dungeon_pages(templates);
            let f = pages[i / 25].fields[i % 25];
            let t = templates[i];
            &&& i / 25 < pages.len()
            &&& i % 25 < pages[i / 25].fields.len()
            &&& f.inline
            &&& t.guild_id is Some ==> f.name == t.display_name@ + " ("@ + "custom"@ + ")"@
            &&& t.guild_id is None ==> f.name == t.display_name@ + " ("@ + "global"@ + ")"@
            &&& t.requires_vc ==> f.value == "`"@ + t.name@ + "`"@ + " • VC raid"@
            &&& !t.requires_vc ==> f.value == "`"@ + t.name@ + "`"@
            &&& templates.len() <= 25 ==> pages.len() == 1 && pages[0].title == Some(
                "Dungeon Templates"@,
            )
            &&& templates.len() > 25 ==> pages[i / 25].title == Some(
                "Dungeon Templates ("@ + dec(i / 25 + 1) + "/"@ + dec(pages.len() as int) + ")"@,
            )
            &&& (pages.len() - 1) * 25 < templates.len() <= pages.len() * 25
        }),
{
    reveal_strlit("");
    let t = templates[i];
    assert("`"@ + t.name@ + "`"@ + ""@ =~= "`"@ + t.name@ + "`"@);
    let fields = dungeon_fields(templates);
    let n = templates.len() as int;
    let p = i / 25;
    assert(p * 25 <= i < p * 25 + 25);
    assert(p < page_count(n));
    assert(page_fields(fields, p)[i % 25] == fields[i]);
}

/// A server has room for dungeons of its own while it has fewer than the cap.
pub proof fn servers_have_room_below_the_cap(count: i64)
    ensures
        below_cap(count) <==> count <= 149,
{
}

} // verus!
