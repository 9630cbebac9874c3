//! The section of a dungeon page that lists its drops.

use vstd::prelude::*;
use vstd::string::StringSliceAdditionalSpecFns;
use vstd::utf8::{
    encode_utf8_valid_utf8, is_ascii_chars, is_ascii_chars_encode_utf8,
    is_char_boundary_start_end_of_seq, valid_utf8,
};

use crate::cli::sync_wiki::sections::{
    ascii_byte_boundaries, bytes, can_cut, cut, cut_text, find_bytes, lowered,
    lowering_moves_nothing, tags_stand_in_the_page,
};
use crate::text::{
    cat2, cat3, contains, dec, dec_u32, digit_char, next_at, next_at_is_first, occurs, occurs_at,
    to_ascii_lower,
};

verus! {

/// The deepest heading level that is looked at.
pub const DEEPEST_HEADING: u32 = 4;

/// How the opening tag of a heading begins.
pub open spec fn open_tag(level: int) -> Seq<u8> {
    bytes("<h"@ + dec(level))
}

/// The closing tag of a heading.
pub open spec fn close_tag(level: int) -> Seq<u8> {
    bytes("</h"@ + dec(level) + ">"@)
}

proof fn tag_bytes(level: int)
    requires
        0 <= level < 10,
    ensures
        open_tag(level) == seq![60u8, 104u8, (48 + level) as u8],
        close_tag(level) == seq![60u8, 47u8, 104u8, (48 + level) as u8, 62u8],
        bytes(">"@) == seq![62u8],
{
    reveal_strlit("<h");
    reveal_strlit("</h");
    reveal_strlit(">");
    let o = "<h"@ + dec(level);
    let c = "</h"@ + dec(level) + ">"@;
    assert(dec(level) == seq![digit_char(level)]);
    assert(is_ascii_chars(o));
    assert(is_ascii_chars(c));
    assert(is_ascii_chars(">"@));
    is_ascii_chars_encode_utf8(o);
    is_ascii_chars_encode_utf8(c);
    is_ascii_chars_encode_utf8(">"@);
    assert(open_tag(level) =~= seq![60u8, 104u8, (48 + level) as u8]);
    assert(close_tag(level) =~= seq![60u8, 47u8, 104u8, (48 + level) as u8, 62u8]);
    assert(bytes(">"@) =~= seq![62u8]);
}

/// One of the texts stands in `inner`.
pub open spec fn names_one_of(inner: Seq<char>, needles: Seq<&str>) -> bool {
    exists|k: int| 0 <= k < needles.len() && occurs(inner, (#[trigger] needles[k])@)
}

/// The first heading of a level, at or after `from`, whose inner text holds one
/// of the texts. A heading that is not closed ends the search.
pub open spec fn heading_of_level(
    s: Seq<u8>,
    level: int,
    from: int,
    needles: Seq<&str>,
) -> Option<int>
    decreases s.len() - from via heading_of_level_end
{
    if from < 0 || level < 0 || level > 9 {
        None
    } else {
        match next_at(s, from, open_tag(level)) {
            None => None,
            Some(start) => match next_at(s, start, bytes(">"@)) {
                None => None,
                Some(open_end) => match next_at(s, open_end + 1, close_tag(level)) {
                    None => None,
                    Some(close) => if names_one_of(cut_text(s, open_end + 1, close), needles) {
                        Some(start)
                    } else {
                        heading_of_level(s, level, close + 5, needles)
                    },
                },
            },
        }
    }
}

#[via_fn]
proof fn heading_of_level_end(s: Seq<u8>, level: int, from: int, needles: Seq<&str>) {
    if from >= 0 && 0 <= level <= 9 {
        tag_bytes(level);
        next_at_is_first(s, from, open_tag(level));
        if let Some(start) = next_at(s, from, open_tag(level)) {
            next_at_is_first(s, start, bytes(">"@));
            if let Some(open_end) = next_at(s, start, bytes(">"@)) {
                next_at_is_first(s, open_end + 1, close_tag(level));
            }
        }
    }
}

/// The earlier of two headings.
pub open spec fn earlier(a: Option<(int, int)>, b: Option<(int, int)>) -> Option<(int, int)> {
    match (a, b) {
        (Some(x), Some(y)) => if y.0 < x.0 {
            b
        } else {
            a
        },
        (None, _) => b,
        (_, None) => a,
    }
}

/// The earliest heading of the levels 1 to `level` whose inner text holds one of the
/// texts, with its level.
pub open spec fn named_heading(s: Seq<u8>, level: int, needles: Seq<&str>) -> Option<(int, int)>
    decreases level,
{
    if level <= 0 {
        None
    } else {
        earlier(
            named_heading(s, level - 1, needles),
            match heading_of_level(s, level, 0, needles) {
                Some(start) => Some((start, level)),
                None => None,
            },
        )
    }
}

fn any_in(inner: &str, needles: &[&str]) -> (r: bool)
    ensures
        r == names_one_of(inner@, needles@),
{
    let mut k: usize = 0;
    while k < needles.len()
        invariant
            k <= needles@.len(),
            forall|m: int| 0 <= m < k ==> !occurs(inner@, (#[trigger] needles@[m])@),
        decreases needles@.len() - k,
    {
        if contains(inner, needles[k]) {
            return true;
        }
        k = k + 1;
    }
    false
}

/// The first heading of one level whose inner text holds one of the texts.
fn find_in_level(haystack_lower: &str, level: u32, needles_lower: &[&str]) -> (r: Option<usize>)
    requires
        1 <= level <= DEEPEST_HEADING,
    ensures
        match r {
            Some(i) => heading_of_level(bytes(haystack_lower@), level as int, 0, needles_lower@)
                == Some(i as int),
            None => heading_of_level(bytes(haystack_lower@), level as int, 0, needles_lower@)
                is None,
        },
{
    let hay = haystack_lower.as_bytes();
    let ghost s = bytes(haystack_lower@);
    let n: usize = hay.len();
    let digits = dec_u32(level);
    let tag = cat2("<h", &digits);
    let end_tag = cat3("</h", &digits, ">");
    proof {
        encode_utf8_valid_utf8(haystack_lower@);
        tag_bytes(level as int);
    }
    let mut cursor: usize = 0;
    loop
        invariant
            1 <= level <= DEEPEST_HEADING,
            hay@ == s,
            s.len() == n,
            s == bytes(haystack_lower@),
            valid_utf8(s),
            cursor <= s.len(),
            tag@ == "<h"@ + dec(level as int),
            end_tag@ == "</h"@ + dec(level as int) + ">"@,
            heading_of_level(s, level as int, cursor as int, needles_lower@) == heading_of_level(
                s,
                level as int,
                0,
                needles_lower@,
            ),
            open_tag(level as int) == seq![60u8, 104u8, (48 + level) as u8],
            close_tag(level as int) == seq![60u8, 47u8, 104u8, (48 + level) as u8, 62u8],
            bytes(">"@) == seq![62u8],
        decreases s.len() - cursor,
    {
        proof {
            next_at_is_first(s, cursor as int, open_tag(level as int));
        }
        let start: usize = match find_bytes(hay, cursor, tag.as_str().as_bytes()) {
            Some(i) => i,
            None => {
                return None;
            },
        };
        proof {
            next_at_is_first(s, start as int, bytes(">"@));
        }
        let after_open: usize = match find_bytes(hay, start, ">".as_bytes()) {
            Some(i) => i + 1,
            None => {
                return None;
            },
        };
        proof {
            next_at_is_first(s, after_open as int, close_tag(level as int));
        }
        let close: usize = match find_bytes(hay, after_open, end_tag.as_str().as_bytes()) {
            Some(i) => i,
            None => {
                return None;
            },
        };
        proof {
            let open_end = after_open - 1;
            assert(s.subrange(open_end, open_end + 1)[0] == 62u8);
            assert(s.subrange(close as int, close + 5)[0] == 60u8);
            ascii_byte_boundaries(s, open_end);
            ascii_byte_boundaries(s, close as int);
        }
        let inner = cut(haystack_lower, after_open, close);
        if any_in(&inner, needles_lower) {
            return Some(start);
        }
        cursor = close + 5;
    }
}

/// The earliest heading whose inner text holds one of the texts, with its level, so
/// that callers can end the section at a heading of an equal or higher level.
pub fn find_heading_with_level(haystack_lower: &str, needles_lower: &[&str]) -> (r: Option<
    (usize, u32),
>)
    ensures
        match r {
            Some(h) => named_heading(
                bytes(haystack_lower@),
                DEEPEST_HEADING as int,
                needles_lower@,
            ) == Some((h.0 as int, h.1 as int)),
            None => named_heading(
                bytes(haystack_lower@),
                DEEPEST_HEADING as int,
                needles_lower@,
            ) is None,
        },
        r matches Some(h) ==> 1 <= h.1 <= DEEPEST_HEADING,
{
    let mut first: Option<(usize, u32)> = None;
    let mut level: u32 = 1;
    while level <= DEEPEST_HEADING
        invariant
            1 <= level <= DEEPEST_HEADING + 1,
            match first {
                Some(h) => named_heading(bytes(haystack_lower@), level - 1, needles_lower@) == Some(
                    (h.0 as int, h.1 as int),
                ),
                None => named_heading(bytes(haystack_lower@), level - 1, needles_lower@) is None,
            },
            first matches Some(h) ==> 1 <= h.1 < level,
        decreases DEEPEST_HEADING + 1 - level,
    {
        if let Some(start) = find_in_level(haystack_lower, level, needles_lower) {
            first = match first {
                Some(h) => if start < h.0 {
                    Some((start, level))
                } else {
                    Some(h)
                },
                None => Some((start, level)),
            };
        }
        level = level + 1;
    }
    first
}

/// The nearer of two offsets.
pub open spec fn nearer(a: Option<int>, b: Option<int>) -> Option<int> {
    match (a, b) {
        (Some(x), Some(y)) => Some(
            if x <= y {
                x
            } else {
                y
            },
        ),
        (Some(x), None) => Some(x),
        (None, y) => y,
    }
}

/// The first heading of one of the levels 1 to `level` at or after `from`.
pub open spec fn next_heading(s: Seq<u8>, from: int, level: int) -> Option<int>
    decreases level,
{
    if level <= 0 {
        None
    } else {
        nearer(next_heading(s, from, level - 1), next_at(s, from, open_tag(level)))
    }
}

/// The bytes of the section under a heading: up to the next heading of an equal
/// or higher level, or to the end of the page.
pub open spec fn section_under(page_len: int, lower: Seq<u8>, start: int, level: int) -> (int, int) {
    match next_heading(lower, start + 1, level) {
        Some(end) => (start, end),
        None => (start, page_len),
    }
}

/// The texts that name the drops section of a dungeon page.
pub open spec fn drop_headings() -> Seq<&'static str> {
    seq!["drops of interest", "notable drops", "drops"]
}

/// Where the drops section of a page lies.
pub open spec fn drops_range(html: Seq<char>) -> Option<(int, int)> {
    match named_heading(lowered(html), DEEPEST_HEADING as int, drop_headings()) {
        Some((start, level)) => Some(
            section_under(bytes(html).len() as int, lowered(html), start, level),
        ),
        None => None,
    }
}

/// The text of the drops section, where there is one.
pub open spec fn drops_text(html: Seq<char>) -> Option<Seq<char>> {
    match drops_range(html) {
        Some(range) => Some(cut_text(bytes(html), range.0, range.1)),
        None => None,
    }
}

/// Slice out the text between the first heading that names the drops and the next
/// heading of an equal or higher level. `None` where the page has no such section.
pub fn extract_drops_section(html: &str) -> (r: Option<String>)
    ensures
        match r {
            Some(t) => drops_text(html@) == Some(t@),
            None => drops_text(html@) is None,
        },
{
    let lower = to_ascii_lower(html);
    let ghost s = lowered(html@);
    let needles: [&str; 3] = ["drops of interest", "notable drops", "drops"];
    assert(needles@ =~= drop_headings());
    let (start, level) = match find_heading_with_level(&lower, needles.as_slice()) {
        Some(h) => h,
        None => {
            return None;
        },
    };
    let hay = lower.as_str().as_bytes();
    let n: usize = hay.len();
    let page_len: usize = html.as_bytes().len();
    proof {
        heading_lies_inside(s, level as int, 0, needles@);
        first_of_its_level(s, DEEPEST_HEADING as int, needles@);
    }
    let mut next: Option<usize> = None;
    let mut lvl: u32 = 1;
    while lvl <= level
        invariant
            1 <= lvl <= level + 1,
            level <= DEEPEST_HEADING,
            hay@ == s,
            s.len() == n,
            start + 1 <= s.len(),
            next matches Some(i) ==> next_heading(s, start + 1, lvl - 1) == Some(i as int),
            next is None ==> next_heading(s, start + 1, lvl - 1) is None,
        decreases level + 1 - lvl,
    {
        let digits = dec_u32(lvl);
        let tag = cat2("<h", &digits);
        if let Some(i) = find_bytes(hay, start + 1, tag.as_str().as_bytes()) {
            next = match next {
                Some(x) => Some(
                    if x <= i {
                        x
                    } else {
                        i
                    },
                ),
                None => Some(i),
            };
        }
        lvl = lvl + 1;
    }
    let end: usize = match next {
        Some(i) => i,
        None => page_len,
    };
    proof {
        drops_can_be_cut(html@);
    }
    Some(cut(html, start, end))
}

/// A heading that was found lies in the page with its opening tag.
pub proof fn heading_lies_inside(s: Seq<u8>, level: int, from: int, needles: Seq<&str>)
    requires
        0 <= level <= 9,
        0 <= from,
    ensures
        heading_of_level(s, level, from, needles) matches Some(start) ==> from <= start
            && occurs_at(s, start, open_tag(level)) && start + 3 <= s.len(),
    decreases s.len() - from,
{
    tag_bytes(level);
    next_at_is_first(s, from, open_tag(level));
    if let Some(start) = next_at(s, from, open_tag(level)) {
        next_at_is_first(s, start, bytes(">"@));
        if let Some(open_end) = next_at(s, start, bytes(">"@)) {
            next_at_is_first(s, open_end + 1, close_tag(level));
            if let Some(close) = next_at(s, open_end + 1, close_tag(level)) {
                if !names_one_of(cut_text(s, open_end + 1, close), needles) {
                    heading_lies_inside(s, level, close + 5, needles);
                }
            }
        }
    }
}

proof fn first_of_its_level(s: Seq<u8>, deepest: int, needles: Seq<&str>)
    ensures
        named_heading(s, deepest, needles) matches Some((start, level)) ==> 1 <= level <= deepest
            && heading_of_level(s, level, 0, needles) == Some(start),
    decreases deepest,
{
    if deepest > 0 {
        first_of_its_level(s, deepest - 1, needles);
    }
}

/// The heading of the drops section is the first that names the drops: of no level is
/// there one before it, and where there is none, no level has one.
pub proof fn no_heading_names_the_drops_before(
    s: Seq<u8>,
    deepest: int,
    needles: Seq<&str>,
    level: int,
)
    requires
        1 <= level <= deepest,
    ensures
        match named_heading(s, deepest, needles) {
            Some((start, own)) => 1 <= own <= deepest && heading_of_level(s, own, 0, needles)
                == Some(start) && (heading_of_level(s, level, 0, needles) matches Some(other)
                ==> start <= other),
            None => heading_of_level(s, level, 0, needles) is None,
        },
    decreases deepest,
{
    first_of_its_level(s, deepest, needles);
    if level < deepest {
        no_heading_names_the_drops_before(s, deepest - 1, needles, level);
    }
}

/// Between the start of the drops section and its end no heading of an equal or
/// higher level begins: deeper headings, with their tables, stay inside.
pub proof fn section_stops_at_an_equal_heading(
    page_len: int,
    lower: Seq<u8>,
    start: int,
    level: int,
    lvl: int,
    at: int,
)
    requires
        0 <= start,
        1 <= lvl <= level,
        start < at,
        next_heading(lower, start + 1, level) is Some ==> at < section_under(
            page_len,
            lower,
            start,
            level,
        ).1,
    ensures
        !occurs_at(lower, at, open_tag(lvl)),
    decreases level,
{
    next_at_is_first(lower, start + 1, open_tag(level));
    if lvl < level {
        section_stops_at_an_equal_heading(page_len, lower, start, level - 1, lvl, at);
    }
}

proof fn next_heading_is_a_tag(s: Seq<u8>, from: int, level: int)
    requires
        0 <= from,
        level <= 9,
    ensures
        next_heading(s, from, level) matches Some(i) ==> from <= i < s.len() && s[i] == 60,
    decreases level,
{
    if level > 0 {
        next_heading_is_a_tag(s, from, level - 1);
        tag_bytes(level);
        next_at_is_first(s, from, open_tag(level));
        if let Some(i) = next_at(s, from, open_tag(level)) {
            assert(s.subrange(i, i + 3)[0] == 60u8);
        }
    }
}

proof fn drops_can_be_cut(html: Seq<char>)
    ensures
        drops_range(html) matches Some(range) ==> can_cut(bytes(html), range.0, range.1),
{
    let s = lowered(html);
    lowering_moves_nothing(html);
    encode_utf8_valid_utf8(html);
    is_char_boundary_start_end_of_seq(bytes(html));
    first_of_its_level(s, DEEPEST_HEADING as int, drop_headings());
    if let Some((start, level)) = named_heading(s, DEEPEST_HEADING as int, drop_headings()) {
        heading_lies_inside(s, level, 0, drop_headings());
        tag_bytes(level);
        assert(s.subrange(start, start + 3)[0] == 60u8);
        tags_stand_in_the_page(html, start);
        next_heading_is_a_tag(s, start + 1, level);
        if let Some(end) = next_heading(s, start + 1, level) {
            tags_stand_in_the_page(html, end);
        }
    }
}

// ----- which section is taken ---------------------------------------------------------------------

/// Of a level the first closed heading counts whose text speaks of what is looked for;
/// headings that speak of something else are passed over.
pub proof fn headings_are_searched_in_order(
    s: Seq<u8>,
    level: int,
    from: int,
    needles: Seq<&str>,
    start: int,
    open_end: int,
    close: int,
)
    requires
        0 <= from,
        1 <= level <= 9,
        next_at(s, from, bytes("<h"@ + dec(level))) == Some(start),
        next_at(s, start, bytes(">"@)) == Some(open_end),
        next_at(s, open_end + 1, bytes("</h"@ + dec(level) + ">"@)) == Some(close),
    ensures
        ({
            let inner = cut_text(s, open_end + 1, close);
            let speaks = exists|k: int|
                0 <= k < needles.len() && occurs(inner, (#[trigger] needles[k])@);
            &&& speaks ==> heading_of_level(s, level, from, needles) == Some(start)
            &&& !speaks ==> heading_of_level(s, level, from, needles) == heading_of_level(
                s,
                level,
                close + 5,
                needles,
            )
        }),
{
}

/// The drops section begins at the earliest heading of the first four levels that speaks
/// of drops, and ends where the next heading of the same or a higher level begins, or
/// with the page; what is taken is what the page itself holds there.
pub proof fn the_drops_section_is_cut_out(html: Seq<char>)
    ensures
        ({
            let lower = lowered(html);
            let found = named_heading(lower, 4, seq!["drops of interest", "notable drops", "drops"]);
            &&& found is None ==> drops_text(html) is None
            &&& found matches Some(h) ==> {
                let end = match next_heading(lower, h.0 + 1, h.1) {
                    Some(e) => e,
                    None => bytes(html).len() as int,
                };
                drops_text(html) == Some(cut_text(bytes(html), h.0, end))
            }
        }),
{
}

/// The earliest heading is at or before the first one of each level, and it is the first
/// one of its own level.
pub proof fn the_earliest_heading_is_taken(s: Seq<u8>, deepest: int, needles: Seq<&str>, level: int)
    requires
        1 <= level <= deepest,
        heading_of_level(s, level, 0, needles) is Some,
    ensures
        named_heading(s, deepest, needles) is Some,
        (named_heading(s, deepest, needles)->0).0 <= heading_of_level(s, level, 0, needles)->0,
        1 <= (named_heading(s, deepest, needles)->0).1 <= deepest,
        heading_of_level(s, (named_heading(s, deepest, needles)->0).1, 0, needles) == Some(
            (named_heading(s, deepest, needles)->0).0,
        ),
    decreases deepest,
{
    if level < deepest {
        the_earliest_heading_is_taken(s, deepest - 1, needles, level);
    } else if named_heading(s, deepest - 1, needles) is Some {
        named_headings_are_of_a_level(s, deepest - 1, needles);
    }
}

proof fn named_headings_are_of_a_level(s: Seq<u8>, deepest: int, needles: Seq<&str>)
    ensures
        named_heading(s, deepest, needles) matches Some(h) ==> 1 <= h.1 <= deepest
            && heading_of_level(s, h.1, 0, needles) == Some(h.0),
    decreases deepest,
{
    if deepest > 0 {
        named_headings_are_of_a_level(s, deepest - 1, needles);
    }
}

/// The section ends at a heading of the same or a higher level, where there is one behind
/// it.
pub proof fn sections_end_at_a_heading(s: Seq<u8>, from: int, level: int) -> (l: int)
    requires
        0 <= from,
        next_heading(s, from, level) is Some,
    ensures
        1 <= l <= level,
        from <= next_heading(s, from, level)->0,
        occurs_at(s, next_heading(s, from, level)->0, bytes("<h"@ + dec(l))),
    decreases level,
{
    next_at_is_first(s, from, open_tag(level));
    if next_heading(s, from, level - 1) is Some && next_heading(s, from, level) == next_heading(
        s,
        from,
        level - 1,
    ) {
        sections_end_at_a_heading(s, from, level - 1)
    } else {
        level
    }
}

} // verus!
