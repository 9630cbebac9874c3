//! The sections of a wiki page: which of them are kept, and which one lists
//! the drops.
//!
//! Headings are found in the page with its ASCII letters in lower case. That moves
//! no byte, so a heading stands at the same offset in the page itself, which is cut
//! there. The model here is the UTF-8 encoding of a text.

use vstd::prelude::*;
use vstd::string::StringSliceAdditionalSpecFns;
use vstd::utf8::{
    decode_utf8, encode_scalar, encode_utf8, encode_utf8_decode_utf8, encode_utf8_valid_utf8,
    has_width_1_encoding, is_ascii_chars, is_ascii_chars_encode_utf8, is_char_boundary,
    is_char_boundary_iff_not_is_continuation_byte, is_char_boundary_start_end_of_seq,
    is_continuation_byte, leading_byte_width_1, pop_first_scalar, valid_utf8, valid_utf8_split,
};

use crate::text::{
    cat2, contains, next_at, next_at_is_first, occurs, occurs_at, own, to_ascii_lower,
};
use crate::unicode::ascii_lower_text;

verus! {

// ----- bytes ---------------------------------------------------------------------

/// The UTF-8 bytes of a text.
pub open spec fn bytes(s: Seq<char>) -> Seq<u8> {
    encode_utf8(s)
}

fn bytes_match(s: &[u8], i: usize, part: &[u8]) -> (r: bool)
    requires
        i + part@.len() <= s@.len(),
    ensures
        r == occurs_at(s@, i as int, part@),
{
    let n: usize = s.len();
    let mut k: usize = 0;
    while k < part.len()
        invariant
            k <= part@.len(),
            i + part@.len() <= s@.len(),
            s@.len() == n,
            forall|m: int| 0 <= m < k ==> s@[i + m] == #[trigger] part@[m],
        decreases part@.len() - k,
    {
        if s[i + k] != part[k] {
            assert(s@.subrange(i as int, i + part@.len())[k as int] != part@[k as int]);
            return false;
        }
        k = k + 1;
    }
    assert(s@.subrange(i as int, i + part@.len()) =~= part@);
    true
}

/// The first offset at or after `from` where `part` stands in `s`.
pub fn find_bytes(s: &[u8], from: usize, part: &[u8]) -> (r: Option<usize>)
    requires
        from <= s@.len(),
    ensures
        r matches Some(i) ==> next_at(s@, from as int, part@) == Some(i as int),
        r is None ==> next_at(s@, from as int, part@) is None,
{
    let mut i: usize = from;
    while i <= s.len() && part.len() <= s.len() - i
        invariant
            from <= i,
            i <= s@.len() + 1,
            next_at(s@, from as int, part@) == next_at(s@, i as int, part@),
        decreases s@.len() + 1 - i,
    {
        if bytes_match(s, i, part) {
            return Some(i);
        }
        if i == s.len() {
            assert(s@.subrange(i as int, i as int) =~= part@);
            return None;
        }
        i = i + 1;
    }
    None
}

/// Both sides of an ASCII byte are character boundaries.
pub proof fn ascii_byte_boundaries(s: Seq<u8>, i: int)
    requires
        valid_utf8(s),
        0 <= i < s.len(),
        s[i] < 0x80,
    ensures
        is_char_boundary(s, i),
        is_char_boundary(s, i + 1),
{
    assert(!is_continuation_byte(s[i]));
    is_char_boundary_iff_not_is_continuation_byte(s, i);
    if i + 1 == s.len() {
        is_char_boundary_start_end_of_seq(s);
    } else {
        valid_utf8_split(s, i);
        let tail = s.subrange(i, s.len() as int);
        assert(valid_utf8(tail));
        assert(tail[0] == s[i]);
        let rest = pop_first_scalar(tail);
        assert(valid_utf8(rest));
        assert(rest[0] == s[i + 1]);
        is_char_boundary_start_end_of_seq(rest);
        is_char_boundary_iff_not_is_continuation_byte(rest, 0);
        is_char_boundary_iff_not_is_continuation_byte(s, i + 1);
    }
}

/// A text can be cut out of the bytes `from..to`.
pub open spec fn can_cut(s: Seq<u8>, from: int, to: int) -> bool {
    0 <= from <= to <= s.len() && is_char_boundary(s, from) && is_char_boundary(s, to)
}

/// The text in the bytes `from..to`.
pub open spec fn cut_text(s: Seq<u8>, from: int, to: int) -> Seq<char> {
    decode_utf8(s.subrange(from, to))
}

/// Whether a text can be cut out of the bytes `from..to`.
pub(crate) fn cuttable(s: &str, from: usize, to: usize) -> (r: bool)
    ensures
        r == can_cut(bytes(s@), from as int, to as int),
{
    from <= to && to <= s.as_bytes().len() && s.is_char_boundary(from) && s.is_char_boundary(to)
}

/// The text in the bytes `from..to`.
pub(crate) fn cut(s: &str, from: usize, to: usize) -> (r: String)
    requires
        can_cut(bytes(s@), from as int, to as int),
    ensures
        r@ == cut_text(bytes(s@), from as int, to as int),
        bytes(r@) == bytes(s@).subrange(from as int, to as int),
{
    let ghost all = bytes(s@);
    proof {
        encode_utf8_valid_utf8(s@);
        valid_utf8_split(all, to as int);
    }
    let head = s.split_at(to).0;
    proof {
        let h = all.subrange(0, to as int);
        assert(valid_utf8(h));
        if from < to {
            is_char_boundary_iff_not_is_continuation_byte(all, from as int);
            is_char_boundary_iff_not_is_continuation_byte(h, from as int);
        }
        is_char_boundary_start_end_of_seq(h);
    }
    let part = head.split_at(from).1;
    assert(all.subrange(0, to as int).subrange(from as int, to as int) =~= all.subrange(
        from as int,
        to as int,
    ));
    proof {
        encode_utf8_decode_utf8(part@);
    }
    own(part)
}

// ----- the sections of the dungeon list ---------------------------------------------

/// A heading of the second level: where its tag starts, and its inner text.
#[derive(Debug)]
pub struct H2Section {
    /// Byte offset of the heading's opening tag.
    pub start: usize,
    /// The lower-case text between the heading's tags.
    pub text_lower: String,
}

/// What a heading of the second level is: its offset and its inner text.
pub ghost struct Heading {
    /// Byte offset of the opening tag.
    pub start: int,
    /// The text between the tags.
    pub text: Seq<char>,
}

impl View for H2Section {
    type V = Heading;

    open spec fn view(&self) -> Heading {
        Heading { start: self.start as int, text: self.text_lower@ }
    }
}

/// The headings of the second level at or after `from`, in order. A heading
/// that is not closed ends the list.
pub open spec fn h2_headings(s: Seq<u8>, from: int) -> Seq<Heading>
    decreases s.len() - from via h2_headings_end
{
    if from < 0 {
        Seq::empty()
    } else {
        match next_at(s, from, bytes("<h2"@)) {
            None => Seq::empty(),
            Some(start) => match next_at(s, start, bytes(">"@)) {
                None => Seq::empty(),
                Some(open_end) => match next_at(s, open_end + 1, bytes("</h2>"@)) {
                    None => Seq::empty(),
                    Some(close) => seq![
                        Heading { start, text: cut_text(s, open_end + 1, close) },
                    ] + h2_headings(s, close + 5),
                },
            },
        }
    }
}

#[via_fn]
proof fn h2_headings_end(s: Seq<u8>, from: int) {
    ascii_tag_bytes();
    if from >= 0 {
        next_at_is_first(s, from, bytes("<h2"@));
        if let Some(start) = next_at(s, from, bytes("<h2"@)) {
            next_at_is_first(s, start, bytes(">"@));
            if let Some(open_end) = next_at(s, start, bytes(">"@)) {
                next_at_is_first(s, open_end + 1, bytes("</h2>"@));
            }
        }
    }
}

/// The views of a list of headings.
pub open spec fn heading_views(v: Seq<H2Section>) -> Seq<Heading> {
    Seq::new(v.len(), |i: int| v[i]@)
}

proof fn ascii_tag_bytes()
    ensures
        bytes("<h2"@) == seq![60u8, 104u8, 50u8],
        bytes(">"@) == seq![62u8],
        bytes("</h2>"@) == seq![60u8, 47u8, 104u8, 50u8, 62u8],
{
    reveal_strlit("<h2");
    reveal_strlit(">");
    reveal_strlit("</h2>");
    assert(is_ascii_chars("<h2"@));
    assert(is_ascii_chars(">"@));
    assert(is_ascii_chars("</h2>"@));
    is_ascii_chars_encode_utf8("<h2"@);
    is_ascii_chars_encode_utf8(">"@);
    is_ascii_chars_encode_utf8("</h2>"@);
    assert(bytes("<h2"@) =~= seq![60u8, 104u8, 50u8]);
    assert(bytes(">"@) =~= seq![62u8]);
    assert(bytes("</h2>"@) =~= seq![60u8, 47u8, 104u8, 50u8, 62u8]);
}

/// Walk all `<h2 ...>...</h2>` occurrences and return their offsets and inner
/// texts.
pub fn find_h2_sections(haystack_lower: &str) -> (r: Vec<H2Section>)
    ensures
        heading_views(r@) == h2_headings(bytes(haystack_lower@), 0),
{
    let hay = haystack_lower.as_bytes();
    let ghost s = bytes(haystack_lower@);
    let mut out: Vec<H2Section> = Vec::new();
    let n: usize = hay.len();
    let mut cursor: usize = 0;
    proof {
        encode_utf8_valid_utf8(haystack_lower@);
        ascii_tag_bytes();
        assert(heading_views(out@) + h2_headings(s, 0) =~= h2_headings(s, 0));
    }
    loop
        invariant
            hay@ == s,
            s.len() == n,
            s == bytes(haystack_lower@),
            valid_utf8(s),
            cursor <= s.len(),
            heading_views(out@) + h2_headings(s, cursor as int) == h2_headings(s, 0),
            bytes("<h2"@) == seq![60u8, 104u8, 50u8],
            bytes(">"@) == seq![62u8],
            bytes("</h2>"@) == seq![60u8, 47u8, 104u8, 50u8, 62u8],
        ensures
            heading_views(out@) == h2_headings(bytes(haystack_lower@), 0),
        decreases s.len() - cursor,
    {
        proof {
            next_at_is_first(s, cursor as int, bytes("<h2"@));
            assert(heading_views(out@) + Seq::<Heading>::empty() =~= heading_views(out@));
        }
        let start: usize = match find_bytes(hay, cursor, "<h2".as_bytes()) {
            Some(i) => i,
            None => {
                break ;
            },
        };
        proof {
            next_at_is_first(s, start as int, bytes(">"@));
        }
        let after_open: usize = match find_bytes(hay, start, ">".as_bytes()) {
            Some(i) => i + 1,
            None => {
                break ;
            },
        };
        proof {
            next_at_is_first(s, after_open as int, bytes("</h2>"@));
        }
        let close: usize = match find_bytes(hay, after_open, "</h2>".as_bytes()) {
            Some(i) => i,
            None => {
                break ;
            },
        };
        proof {
            let open_end = after_open - 1;
            assert(s.subrange(open_end, open_end + 1)[0] == 62u8);
            assert(s.subrange(close as int, close + 5)[0] == 60u8);
            ascii_byte_boundaries(s, open_end);
            ascii_byte_boundaries(s, close as int);
        }
        let text_lower = cut(haystack_lower, after_open, close);
        let ghost before = heading_views(out@);
        out.push(H2Section { start, text_lower });
        cursor = close + 5;
        proof {
            let one = Heading { start: start as int, text: cut_text(s, after_open as int, close as int) };
            assert(heading_views(out@) =~= before.push(one));
            assert(heading_views(out@) + h2_headings(s, cursor as int) =~= before + (seq![one]
                + h2_headings(s, cursor as int)));
        }
    }
    out
}

/// The headings whose sections of the dungeon list are left out.
pub open spec fn excluded_heading(text: Seq<char>) -> bool {
    ||| occurs(text, "contents"@)
    ||| occurs(text, "special event dungeons"@)
    ||| occurs(text, "other dungeons"@)
    ||| occurs(text, "history"@)
}

/// Whether a section is left out, by the lower-case text of its heading.
pub fn is_excluded_section(text_lower: &str) -> (r: bool)
    ensures
        r == excluded_heading(text_lower@),
{
    contains(text_lower, "contents") || contains(text_lower, "special event dungeons") || contains(
        text_lower,
        "other dungeons",
    ) || contains(text_lower, "history")
}

/// Where section `i` ends: at the next heading, or at the end of the page.
pub open spec fn section_end(headings: Seq<Heading>, i: int, page_len: int) -> int {
    if i + 1 < headings.len() {
        headings[i + 1].start
    } else {
        page_len
    }
}

/// The text of the first `n` sections, without those that are left out.
pub open spec fn kept_sections(page: Seq<u8>, headings: Seq<Heading>, n: int) -> Seq<char>
    decreases n,
{
    if n <= 0 {
        Seq::empty()
    } else {
        let before = kept_sections(page, headings, n - 1);
        if excluded_heading(headings[n - 1].text) {
            before
        } else {
            before + cut_text(
                page,
                headings[n - 1].start,
                section_end(headings, n - 1, page.len() as int),
            )
        }
    }
}

/// A page as headings are looked for in it: the same bytes, but for the case of the
/// ASCII letters.
pub open spec fn lowered(html: Seq<char>) -> Seq<u8> {
    bytes(ascii_lower_text(html))
}

/// What is kept of a page: its sections but for those left out, or the whole
/// page where it has no heading.
pub open spec fn kept_page(html: Seq<char>) -> Seq<char> {
    let headings = h2_headings(lowered(html), 0);
    if headings.len() == 0 {
        html
    } else {
        kept_sections(bytes(html), headings, headings.len() as int)
    }
}

/// Walk every `<h2>` of the dungeon list and keep only the sections whose
/// heading is not left out.
pub fn keep_dungeon_sections(html: &str) -> (r: String)
    ensures
        r@ == kept_page(html@),
{
    let lower = to_ascii_lower(html);
    let sections = find_h2_sections(&lower);
    let ghost heads = h2_headings(lowered(html@), 0);
    assert(sections@.len() == heads.len());
    if sections.len() == 0 {
        return own(html);
    }
    proof {
        sections_can_be_cut(html@);
    }
    let page_len: usize = html.as_bytes().len();
    let mut out = String::new();
    let mut i: usize = 0;
    while i < sections.len()
        invariant
            i <= sections@.len(),
            heads == heading_views(sections@),
            page_len == bytes(html@).len(),
            out@ == kept_sections(bytes(html@), heads, i as int),
            forall|k: int|
                0 <= k < heads.len() ==> can_cut(
                    bytes(html@),
                    (#[trigger] heads[k]).start,
                    section_end(heads, k, page_len as int),
                ),
            heads.len() > 0,
        decreases sections@.len() - i,
    {
        assert(heads[i as int] == sections@[i as int]@);
        let end: usize = if i + 1 < sections.len() {
            assert(heads[i + 1] == sections@[i + 1]@);
            sections[i + 1].start
        } else {
            page_len
        };
        if !is_excluded_section(&sections[i].text_lower) {
            let piece = cut(html, sections[i].start, end);
            out = cat2(&out, &piece);
        }
        i = i + 1;
    }
    out
}

/// Lower-casing the ASCII letters of a text moves no byte of it, and changes only
/// bytes of such letters.
pub proof fn lowering_moves_nothing(html: Seq<char>)
    ensures
        lowered(html).len() == bytes(html).len(),
        forall|i: int|
            0 <= i < bytes(html).len() ==> (#[trigger] lowered(html)[i] == bytes(html)[i] || (65
                <= bytes(html)[i] <= 90 && lowered(html)[i] == bytes(html)[i] + 32)),
    decreases html.len(),
{
    let low = ascii_lower_text(html);
    if html.len() > 0 {
        let rest = html.drop_first();
        lowering_moves_nothing(rest);
        assert(low.drop_first() =~= ascii_lower_text(rest));
        let c = html[0] as u32;
        let d = low[0] as u32;
        let head = encode_scalar(c);
        let low_head = encode_scalar(d);
        if has_width_1_encoding(c) {
            assert(has_width_1_encoding(d));
            assert(leading_byte_width_1(c) == c as u8) by (bit_vector)
                requires
                    c <= 0x7f,
            ;
            assert(leading_byte_width_1(d) == d as u8) by (bit_vector)
                requires
                    d <= 0x7f,
            ;
            assert(head =~= seq![c as u8]);
            assert(low_head =~= seq![d as u8]);
        } else {
            assert(d == c);
        }
        assert(bytes(html) == head + bytes(rest));
        assert(lowered(html) == low_head + lowered(rest));
        assert forall|i: int| 0 <= i < bytes(html).len() implies (#[trigger] lowered(html)[i]
            == bytes(html)[i] || (65 <= bytes(html)[i] <= 90 && lowered(html)[i] == bytes(html)[i]
            + 32)) by {
            if i >= head.len() {
                assert(bytes(html)[i] == bytes(rest)[i - head.len()]);
                assert(lowered(html)[i] == lowered(rest)[i - head.len()]);
            }
        }
    }
}

/// Where a tag begins in the page as it is searched, it begins in the page itself,
/// and the page can be cut there.
pub proof fn tags_stand_in_the_page(html: Seq<char>, i: int)
    requires
        0 <= i < lowered(html).len(),
        lowered(html)[i] == 60,
    ensures
        bytes(html)[i] == 60,
        is_char_boundary(bytes(html), i),
{
    lowering_moves_nothing(html);
    encode_utf8_valid_utf8(html);
    assert(lowered(html)[i] == bytes(html)[i] || 65 <= bytes(html)[i] <= 90);
    ascii_byte_boundaries(bytes(html), i);
}

proof fn sections_can_be_cut(html: Seq<char>)
    ensures
        forall|i: int|
            0 <= i < h2_headings(lowered(html), 0).len() ==> can_cut(
                bytes(html),
                (#[trigger] h2_headings(lowered(html), 0)[i]).start,
                section_end(h2_headings(lowered(html), 0), i, bytes(html).len() as int),
            ),
{
    let s = lowered(html);
    let heads = h2_headings(s, 0);
    headings_are_ordered(s, 0);
    lowering_moves_nothing(html);
    encode_utf8_valid_utf8(html);
    is_char_boundary_start_end_of_seq(bytes(html));
    ascii_tag_bytes();
    assert forall|i: int| 0 <= i < heads.len() implies can_cut(
        bytes(html),
        (#[trigger] heads[i]).start,
        section_end(heads, i, bytes(html).len() as int),
    ) by {
        assert(s.subrange(heads[i].start, heads[i].start + 3)[0] == 60u8);
        tags_stand_in_the_page(html, heads[i].start);
        if i + 1 < heads.len() {
            assert(heads[i].start < heads[i + 1].start);
            assert(s.subrange(heads[i + 1].start, heads[i + 1].start + 3)[0] == 60u8);
            tags_stand_in_the_page(html, heads[i + 1].start);
        }
    }
}

/// Each heading of a page stands at its own offset in the page: an opening tag of the
/// second level, in upper or lower case, begins there.
pub proof fn headings_stand_in_the_page(html: Seq<char>, i: int)
    requires
        0 <= i < h2_headings(lowered(html), 0).len(),
    ensures
        ({
            let at = h2_headings(lowered(html), 0)[i].start;
            &&& 0 <= at
            &&& at + 3 <= bytes(html).len()
            &&& bytes(html)[at] == 60
            &&& bytes(html)[at + 1] == 104 || bytes(html)[at + 1] == 72
            &&& bytes(html)[at + 2] == 50
        }),
{
    let s = lowered(html);
    let at = h2_headings(s, 0)[i].start;
    headings_are_ordered(s, 0);
    lowering_moves_nothing(html);
    ascii_tag_bytes();
    assert(occurs_at(s, at, bytes("<h2"@)));
    let tag = s.subrange(at, at + 3);
    assert(tag[0] == 60u8 && tag[1] == 104u8 && tag[2] == 50u8);
    assert(s[at] == 60u8 && s[at + 1] == 104u8 && s[at + 2] == 50u8);
}

/// The headings stand in the page in order, each with its opening tag.
pub proof fn headings_are_ordered(s: Seq<u8>, from: int)
    requires
        0 <= from,
    ensures
        forall|i: int|
            0 <= i < h2_headings(s, from).len() ==> from <= (#[trigger] h2_headings(s, from)[i]).start
                && occurs_at(s, h2_headings(s, from)[i].start, bytes("<h2"@)),
        forall|i: int, j: int|
            0 <= i < j < h2_headings(s, from).len() ==> (#[trigger] h2_headings(s, from)[i]).start
                < (#[trigger] h2_headings(s, from)[j]).start,
    decreases s.len() - from,
{
    ascii_tag_bytes();
    next_at_is_first(s, from, bytes("<h2"@));
    if let Some(start) = next_at(s, from, bytes("<h2"@)) {
        next_at_is_first(s, start, bytes(">"@));
        if let Some(open_end) = next_at(s, start, bytes(">"@)) {
            next_at_is_first(s, open_end + 1, bytes("</h2>"@));
            if let Some(close) = next_at(s, open_end + 1, bytes("</h2>"@)) {
                headings_are_ordered(s, close + 5);
                let rest = h2_headings(s, close + 5);
                let all = h2_headings(s, from);
                assert(all == seq![
                    Heading { start, text: cut_text(s, open_end + 1, close) },
                ] + rest);
                assert forall|i: int| 0 <= i < all.len() implies from <= (#[trigger] all[i]).start
                    && occurs_at(s, all[i].start, bytes("<h2"@)) by {
                    if i > 0 {
                        assert(all[i] == rest[i - 1]);
                    }
                }
                assert forall|i: int, j: int| 0 <= i < j < all.len() implies (#[trigger] all[i]).start
                    < (#[trigger] all[j]).start by {
                    assert(all[j] == rest[j - 1]);
                    if i > 0 {
                        assert(all[i] == rest[i - 1]);
                    }
                }
            }
        }
    }
}

// ----- which sections are kept -------------------------------------------------------------------

/// A section is left out exactly where its heading speaks of the contents, of special
/// event dungeons, of other dungeons, or of the history.
pub proof fn four_kinds_of_sections_are_left_out(text: Seq<char>)
    ensures
        excluded_heading(text) <==> occurs(text, "contents"@) || occurs(
            text,
            "special event dungeons"@,
        ) || occurs(text, "other dungeons"@) || occurs(text, "history"@),
{
}

/// Each section that is kept is kept from its own heading up to the next heading, or to
/// the end of the page behind the last, and those that are left out leave nothing behind.
pub proof fn sections_are_kept_whole(page: Seq<u8>, headings: Seq<Heading>, n: int)
    requires
        0 <= n < headings.len(),
    ensures
        kept_sections(page, headings, 0).len() == 0,
        ({
            let before = kept_sections(page, headings, n);
            let end = if n + 1 < headings.len() {
                headings[n + 1].start
            } else {
                page.len() as int
            };
            &&& excluded_heading(headings[n].text) ==> kept_sections(page, headings, n + 1) == before
            &&& !excluded_heading(headings[n].text) ==> kept_sections(page, headings, n + 1)
                == before + decode_utf8(page.subrange(headings[n].start, end))
        }),
{
}

/// A page without headings is kept whole; else only its sections are.
pub proof fn pages_without_headings_are_kept(html: Seq<char>)
    ensures
        ({
            let headings = h2_headings(encode_utf8(ascii_lower_text(html)), 0);
            &&& headings.len() == 0 ==> kept_page(html) == html
            &&& headings.len() > 0 ==> kept_page(html) == kept_sections(
                encode_utf8(html),
                headings,
                headings.len() as int,
            )
        }),
{
}

/// The headings of a page are its closed tags of the second level, one after the other:
/// the text of each is what stands between its tags, and the search goes on behind it.
pub proof fn headings_are_closed_tags(s: Seq<u8>, from: int, start: int, open_end: int, close: int)
    requires
        0 <= from,
        next_at(s, from, bytes("<h2"@)) == Some(start),
        next_at(s, start, bytes(">"@)) == Some(open_end),
        next_at(s, open_end + 1, bytes("</h2>"@)) == Some(close),
    ensures
        h2_headings(s, from).len() > 0,
        h2_headings(s, from)[0].start == start,
        h2_headings(s, from)[0].text == decode_utf8(s.subrange(open_end + 1, close)),
        h2_headings(s, from).skip(1) == h2_headings(s, close + 5),
{
    assert(h2_headings(s, from).skip(1) =~= h2_headings(s, close + 5));
}

} // verus!
